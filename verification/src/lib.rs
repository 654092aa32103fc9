//! Update orchestration and self-replacement engine for a self-updating
//! installer/launcher. The library decides what must change to bring a local
//! installation in sync with a remote-declared target state; the surrounding
//! binary performs the file, network and process work that the decisions call
//! for.

pub mod archive;
pub mod bootstrap;
pub mod config;
pub mod errors;
pub mod install;
pub mod jsonout;
pub mod jsonval;
pub mod net;
pub mod packwiz;
pub mod retry;
pub mod selfupdate;
pub mod sha256;
pub mod semver;
pub mod text;
pub mod update;
pub mod version;
