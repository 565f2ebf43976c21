//! Bindings-side logic for exposing a version-control engine to a
//! single-threaded scripting host: the callback bridge, the adapters that sit
//! in the engine's callback slots, and the plain data that crosses the
//! boundary.

pub mod apply;
pub mod attr;
pub mod blame;
pub mod branch;
pub mod bridge;
pub mod checkout;
pub mod cherrypick;
pub mod describe;
pub mod diff;
pub mod error;
pub mod index;
pub mod merge;
pub mod oid;
pub mod rebase;
pub mod reference;
pub mod remote;
pub mod repository;
pub mod revert;
pub mod revparse;
pub mod signature;
pub mod stash;
pub mod status;
pub mod submodule;
pub mod time;
pub mod tracing;
pub mod util;
pub mod worktree;

pub use error::Error;
