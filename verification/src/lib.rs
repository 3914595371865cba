//! Named, persistent copy-on-write sandboxes of the host file system.
//!
//! A sandbox is a union mount over the real root whose writes land in a
//! private upper layer. This library decides what has to happen to create,
//! enter, stop and delete such sandboxes; the caller performs the system
//! calls that the library asks for and reports back how each one went.

pub mod error;
pub mod text;
pub mod path_undo;
pub mod syscall;
pub mod store;
pub mod mounts;
pub mod lifecycle;
pub mod lifecycle_laws;
pub mod sessions;
pub mod privilege;
pub mod run;
pub mod sessions_laws;
pub mod run_laws;

pub use error::Error;
pub use run::run;
pub use sessions::{
    delete as delete_sessions, list as list_sessions, stop as stop_sessions, Op as SessionOperand,
};
