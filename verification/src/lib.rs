//! Decides how a desktop shell host wires itself up at launch: which
//! framework plugins are attached on which platform, which setup hooks run
//! for which build profile, and what the hooks decide at startup time.

pub mod hooks;
pub mod plan;
