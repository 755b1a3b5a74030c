//! What can go wrong, and how the status of a system call is read.

use vstd::prelude::*;
use crate::baud::BaudRate;

verus! {

/// A failure of an operation on a serial device.
#[derive(Clone, Copy, Debug, PartialEq, Eq, Structural)]
pub enum Error {
    /// Getting or setting the attributes failed; holds the error code that
    /// the operating system reported.
    SyscallFailure(i32),
    /// The device reports a speed code that the platform's table does not
    /// have; holds the code.
    UnrecognizedBaudRate(u64),
    /// The platform's table has no code for the rate.
    UnsupportedBaudRate(BaudRate),
}

/// Status with which getting or setting the attributes reports success.
pub const SUCCESS: i32 = 0;

/// Status with which getting or setting the attributes reports failure.
pub const FAILURE: i32 = -1;

/// What a status of getting or setting the attributes means.
pub open spec fn spec_syscall_result(status: i32, os_error: i32) -> Result<(), Error> {
    if status == SUCCESS {
        Ok(())
    } else {
        Err(Error::SyscallFailure(os_error))
    }
}

/// Reads the status that getting or setting the attributes returned:
/// success, or a failure that carries the error code of the operating
/// system. No system call returns a positive status.
pub fn syscall_result(status: i32, os_error: i32) -> (result: Result<(), Error>)
    requires
        status <= SUCCESS,
    ensures
        result == spec_syscall_result(status, os_error),
        result is Ok <==> status == SUCCESS,
{
    if status == SUCCESS {
        Ok(())
    } else {
        Err(Error::SyscallFailure(os_error))
    }
}

} // verus!
