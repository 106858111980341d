//! Expand cargo dependencies during build.
//!
//! The library decides everything about an expansion run: the arguments of
//! the build invocation, how its outcome is classified, when the
//! registry-copy retry happens, and how expanded source is narrowed to a
//! path. The process, filesystem and metadata work is done by the caller,
//! driven by [`session::ExpandSession`].

pub mod config;
pub mod error;
pub mod filter;
pub mod invocation;
pub mod session;
pub mod text;

pub use config::Expander;
pub use error::ExpandError;
pub use filter::filter;
pub use invocation::{cargo_binary, classify, is_missing_workspace, BuildOutput};
pub use session::{find_package, Action, Event, ExpandSession, PackageInfo, Phase};
