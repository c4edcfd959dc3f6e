//! Errors raised while pinning bytecode objects to the kernel filesystem.

use vstd::prelude::*;

verus! {

/// An error occurred working with a pinned bytecode object.
pub enum PinError {
    /// The object has already been pinned.
    AlreadyPinned {
        /// Object name.
        name: String,
    },
    /// The object's file descriptor is not known.
    NoFd {
        /// Object name.
        name: String,
    },
    /// The path for the object is not valid.
    InvalidPinPath {
        /// The error message.
        error: String,
    },
    /// An error occurred making a syscall.
    SyscallError {
        /// The syscall name.
        name: String,
        /// The raw operating-system error code returned by the syscall.
        code: i32,
    },
}

} // verus!
