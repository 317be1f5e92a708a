//! What can go wrong.

use vstd::prelude::*;

verus! {

/// Why a socket could not be set up, or why a read or write failed.
#[derive(Clone, Copy, Debug, PartialEq, Eq, Structural)]
pub enum SockError {
    /// The interface name does not fit the kernel's name field. Found
    /// before anything is asked of the operating system.
    NameTooLong,
    /// The operating system refused a call; `code` is its error number.
    Os { code: i32 },
}

/// What `SockError::NameTooLong` says to a reader.
pub const NAME_TOO_LONG: &'static str = "invalid interface name - exceeds length";

} // verus!
