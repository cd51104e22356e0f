use vstd::prelude::*;

verus! {

/// The error numbers that the modules hand back to the caller.
#[derive(Debug, Clone, Copy, PartialEq, Eq, Structural)]
pub enum Error {
    /// `EINVAL`: the argument was rejected.
    InvalidArgument,
    /// `EFAULT`: a caller-supplied buffer could not be accessed.
    BadAddress,
}

impl Error {
    /// The negated error number, as the kernel reports it.
    pub fn to_errno(self) -> (r: i32)
        ensures
            self == Error::InvalidArgument ==> r == -22,
            self == Error::BadAddress ==> r == -14,
    {
        match self {
            Error::InvalidArgument => -22,
            Error::BadAddress => -14,
        }
    }
}

} // verus!
