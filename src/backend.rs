//! Errors that the host runtime reports to service code.
use vstd::prelude::*;

verus! {

/// WASI errno `EBADMSG`.
pub const ERRNO_BADMSG: u16 = 9;

/// WASI errno `ECONNABORTED`.
pub const ERRNO_CONNABORTED: u16 = 13;

/// WASI errno `EDQUOT`.
pub const ERRNO_DQUOT: u16 = 19;

/// WASI errno `EINVAL`.
pub const ERRNO_INVAL: u16 = 28;

/// WASI errno `ENOENT`.
pub const ERRNO_NOENT: u16 = 44;

#[derive(Debug, Eq, PartialEq)]
pub enum Error {
    /// Unknown error occured
    Unknown,
    /// Not enough funds to pay for transaction
    InsufficientFunds,
    /// Invalid input provided to transaction
    InvalidInput,
    /// No callable code at destination address
    InvalidCallee,
    /// Transaction failed with status code and payload
    Execution { payload: Vec<u8> },
}

impl Error {
    /// The WASI errno that stands for each kind of error.
    pub open spec fn spec_exit_code(&self) -> u16 {
        match self {
            Error::Unknown => ERRNO_BADMSG,
            Error::InsufficientFunds => ERRNO_DQUOT,
            Error::InvalidCallee => ERRNO_NOENT,
            Error::InvalidInput => ERRNO_INVAL,
            Error::Execution { .. } => ERRNO_CONNABORTED,
        }
    }

    /// The process exit code under which the runtime reports this error.
    pub fn exit_code(&self) -> (r: u16)
        ensures
            r == self.spec_exit_code(),
    {
        match self {
            Error::Unknown => ERRNO_BADMSG,
            Error::InsufficientFunds => ERRNO_DQUOT,
            Error::InvalidCallee => ERRNO_NOENT,
            Error::InvalidInput => ERRNO_INVAL,
            Error::Execution { .. } => ERRNO_CONNABORTED,
        }
    }
}

} // verus!
