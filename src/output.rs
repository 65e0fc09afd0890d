//! The status line protocol: each line has a level, shown as a word in
//! machine-readable mode and as a marker in human mode.

use vstd::prelude::*;

verus! {

/// The level of a status line.
#[derive(Debug, Clone, Copy, PartialEq, Eq, Structural)]
pub enum Level {
    Info,
    Success,
    Error,
    Warning,
    Progress,
}

impl Level {
    /// The word that names the level in machine-readable lines.
    pub open spec fn spec_name(self) -> Seq<char> {
        match self {
            Level::Info => "info"@,
            Level::Success => "success"@,
            Level::Error => "error"@,
            Level::Warning => "warning"@,
            Level::Progress => "progress"@,
        }
    }

    /// The marker that begins the level's lines in human mode.
    pub open spec fn spec_marker(self) -> Seq<char> {
        match self {
            Level::Info => "[*]"@,
            Level::Success => "[+]"@,
            Level::Error | Level::Warning => "[!]"@,
            Level::Progress => "[>]"@,
        }
    }

    /// The word that names the level in machine-readable lines.
    pub fn name(&self) -> (r: &'static str)
        ensures
            r@ == self.spec_name(),
    {
        match self {
            Level::Info => "info",
            Level::Success => "success",
            Level::Error => "error",
            Level::Warning => "warning",
            Level::Progress => "progress",
        }
    }

    /// The marker that begins the level's lines in human mode.
    pub fn marker(&self) -> (r: &'static str)
        ensures
            r@ == self.spec_marker(),
    {
        match self {
            Level::Info => "[*]",
            Level::Success => "[+]",
            Level::Error | Level::Warning => "[!]",
            Level::Progress => "[>]",
        }
    }

    /// Whether the level's lines go to standard error rather than standard
    /// output.
    pub fn to_stderr(&self) -> (r: bool)
        ensures
            r == (*self == Level::Error),
    {
        match self {
            Level::Error => true,
            _ => false,
        }
    }
}

/// How status lines are written: as JSON objects or for people.
pub struct Output {
    json_mode: bool,
}

impl Output {
    pub closed spec fn spec_is_json(&self) -> bool {
        self.json_mode
    }

    pub fn new(json_mode: bool) -> (r: Output)
        ensures
            r.spec_is_json() == json_mode,
    {
        Output { json_mode }
    }

    pub fn is_json(&self) -> (r: bool)
        ensures
            r == self.spec_is_json(),
    {
        self.json_mode
    }
}

} // verus!
