use vstd::prelude::*;

verus! {

/// Error codes that the kernel records in a device's last-error slot.
#[derive(Clone, Copy, Debug, PartialEq, Eq, Structural)]
pub enum KernelError {
    Success,
    Unknown,
    InvalidArgument,
    InvalidOperation,
    OutOfMemory,
    UnsupportedCpu,
    Cancelled,
}

/// The operation that failed.
#[derive(Clone, Copy, Debug, PartialEq, Eq, Structural)]
pub enum ErrorKind {
    Initialization,
    SceneCreation,
    GeometryCreation,
    InvalidRadius,
    BufferAllocation,
    GeometryCommit,
    Attach,
    Commit,
    Query,
}

/// A recoverable failure: which operation failed, and the kernel's code at that point.
#[derive(Clone, Copy, Debug, PartialEq, Eq, Structural)]
pub struct Failure {
    pub kind: ErrorKind,
    pub code: KernelError,
}

/// What the error check yields: the value passes through unless the kernel recorded an error.
pub open spec fn check_spec(code: KernelError, kind: ErrorKind) -> Result<(), Failure> {
    if code == KernelError::Success {
        Ok(())
    } else {
        Err(Failure { kind, code })
    }
}

/// Turns the kernel's last-error code after a call into an explicit result.
pub fn check(code: KernelError, kind: ErrorKind) -> (r: Result<(), Failure>)
    ensures
        r == check_spec(code, kind),
{
    match code {
        KernelError::Success => Ok(()),
        _ => Err(Failure { kind, code }),
    }
}

/// The kernel's numeric error code for each value.
pub open spec fn code_of(e: KernelError) -> u32 {
    match e {
        KernelError::Success => 0,
        KernelError::Unknown => 1,
        KernelError::InvalidArgument => 2,
        KernelError::InvalidOperation => 3,
        KernelError::OutOfMemory => 4,
        KernelError::UnsupportedCpu => 5,
        KernelError::Cancelled => 6,
    }
}

impl KernelError {
    /// Reads a raw error code; a code the kernel does not define counts as `Unknown`.
    pub fn from_code(c: u32) -> (r: KernelError)
        ensures
            c <= 6 ==> code_of(r) == c,
            c > 6 ==> r == KernelError::Unknown,
    {
        match c {
            0 => KernelError::Success,
            2 => KernelError::InvalidArgument,
            3 => KernelError::InvalidOperation,
            4 => KernelError::OutOfMemory,
            5 => KernelError::UnsupportedCpu,
            6 => KernelError::Cancelled,
            _ => KernelError::Unknown,
        }
    }

    /// The raw code of this error.
    pub fn code(self) -> (r: u32)
        ensures
            r == code_of(self),
    {
        match self {
            KernelError::Success => 0,
            KernelError::Unknown => 1,
            KernelError::InvalidArgument => 2,
            KernelError::InvalidOperation => 3,
            KernelError::OutOfMemory => 4,
            KernelError::UnsupportedCpu => 5,
            KernelError::Cancelled => 6,
        }
    }
}

/// What device creation yields: a null context is an initialization failure.
pub open spec fn device_spec(created: bool, code: KernelError) -> Result<(), Failure> {
    if created {
        Ok(())
    } else {
        Err(Failure { kind: ErrorKind::Initialization, code })
    }
}

/// Decides the outcome of creating a device context from whether the kernel
/// returned a handle and the error code it reported.
pub fn device_outcome(created: bool, code: KernelError) -> (r: Result<(), Failure>)
    ensures
        r == device_spec(created, code),
{
    if created {
        Ok(())
    } else {
        Err(Failure { kind: ErrorKind::Initialization, code })
    }
}

} // verus!
