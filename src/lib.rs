//! Identification and provisioning logic for building Linux memory-forensics
//! symbol files: the distribution catalog, the kernel banner parser, the
//! provisioning script synthesizer, and the state machines that drive one
//! container run and one generation request.

pub mod text;
pub mod distros;
pub mod banner;
pub mod script;
pub mod generator;
pub mod container;
pub mod output;
pub mod cli;
