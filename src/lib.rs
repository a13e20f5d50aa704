//! Resolution and provisioning of runtime versions: release trains, exact
//! pre-release matching, the remote build catalog, and install planning.

pub mod version;
pub mod train;
pub mod catalog;
pub mod resolve;
pub mod environment;
pub mod install;
pub mod commands;
