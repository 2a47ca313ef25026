//! A loopback command bridge's core: which files may be read, which programs
//! may be run, and how a run is bounded in time and output.
pub mod drain;
pub mod path_guard;
pub mod runner;
