//! The decisions of a link-layer raw packet socket, kept apart from the
//! system calls that carry them out.
//!
//! Nothing in this crate touches the operating system. Construction and
//! every read or write are state machines: each hands out the one call or
//! wait that is due, and is then told how that went. A driver performs the
//! calls; what is asked for, in which order, and what each answer leads to
//! is decided and proved here.

pub mod addr;
pub mod error;
pub mod opts;
pub mod setup;
pub mod sock;
pub mod sys;
pub mod transfer;

pub use addr::LinkAddr;
pub use error::SockError;
pub use opts::SockOpts;
pub use setup::{Binder, BinderState, Outcome, Progress, Reply, Syscall};
pub use sock::RawSock;
pub use transfer::{Direction, IoAction, IoEvent, IoState, Transfer};
