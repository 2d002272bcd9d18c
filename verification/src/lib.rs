//! Planning logic for a small build-and-launch tool that drives a game
//! engine: which files go where on each host, what the generated files
//! hold, and in which order the outside work is requested.

pub mod copying;
pub mod documents;
pub mod install;
pub mod launch;
pub mod laws;
pub mod layout;
pub mod messages;
pub mod package;
pub mod platform;
pub mod process;
pub mod protocol;
pub mod release;
pub mod resources;
pub mod runs;
pub mod session;
pub mod setup;
