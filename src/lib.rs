//! Safe, verified models of POSIX signal sets and actions and of socket
//! addresses, in the layouts the Linux kernel expects.
use vstd::prelude::*;

pub mod errno;
pub mod signal;
pub mod socket;

verus! {

/// The errors of this library: a failed system call with its error code, or a
/// path that cannot be handed to the system (it holds a NUL byte).
#[derive(Clone, Copy, Debug, PartialEq, Eq, Structural, Hash)]
pub enum NixError {
    Sys(i32),
    InvalidPath,
}

pub type NixResult<T> = Result<T, NixError>;

impl NixError {
    pub fn invalid_argument() -> (r: NixError)
        ensures
            r == NixError::Sys(crate::errno::EINVAL),
    {
        NixError::Sys(crate::errno::EINVAL)
    }
}

} // verus!
