//! The command line of the tool, as values.

use vstd::prelude::*;

verus! {

/// The parsed command line.
pub struct Cli {
    /// Write status lines as JSON objects.
    pub json: bool,
    /// Write more detail.
    pub verbose: bool,
    pub command: Commands,
}

/// The commands of the tool.
pub enum Commands {
    /// Generate a symbol file, from a banner or from an explicit kernel,
    /// distribution and release.
    Generate {
        banner: Option<String>,
        kernel: Option<String>,
        distro: Option<String>,
        distro_version: Option<String>,
        output_dir: Option<String>,
    },
    /// List the supported distributions and releases.
    List,
    /// Check that the container runtime is reachable.
    Check,
}

} // verus!
