//! Verified core of a kernel source-tree build helper: discovery of
//! installed kernel source directories, the symlink invariants the build
//! tooling expects, and the state machine that sequences the external
//! build stages.

pub mod builder;
pub mod bytes;
pub mod error;
pub mod links;
pub mod pipeline;
pub mod scan;
pub mod tokens;

pub use builder::{GKBConfig, KernelBuilder};
pub use error::BuilderErr;
