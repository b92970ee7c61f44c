//! Kernel errors.
//!
//! The kernel reports failures as negative integer error codes; [`Error`]
//! carries such a code. The constants below are the positive error numbers.
use vstd::prelude::*;

verus! {

/// Operation not permitted.
pub const EPERM: i32 = 1;

/// No such file or directory.
pub const ENOENT: i32 = 2;

/// No such process.
pub const ESRCH: i32 = 3;

/// Interrupted system call.
pub const EINTR: i32 = 4;

/// Try again.
pub const EAGAIN: i32 = 11;

/// Out of memory.
pub const ENOMEM: i32 = 12;

/// Bad address.
pub const EFAULT: i32 = 14;

/// Device or resource busy.
pub const EBUSY: i32 = 16;

/// Invalid argument.
pub const EINVAL: i32 = 22;

/// Illegal seek.
pub const ESPIPE: i32 = 29;

/// Restart the system call.
pub const ERESTARTSYS: i32 = 512;

/// Largest error number that an error pointer can encode.
pub const MAX_ERRNO: usize = 4095;

/// Generic integer kernel error: the negated error number, as the kernel
/// returns it.
#[derive(Clone, Copy, Debug, PartialEq, Eq, Structural)]
pub struct Error(pub i32);

/// The error for the positive error number `errno`.
pub open spec fn error_of(errno: i32) -> Error {
    Error((-errno) as i32)
}

/// A result whose error is an [`Error`].
pub type KernelResult<T> = core::result::Result<T, Error>;

impl Error {
    /// Creates an [`Error`] from a kernel error code.
    pub fn from_kernel_errno(errno: i32) -> (r: Error)
        ensures
            r.0 == errno,
    {
        Error(errno)
    }

    /// Returns the kernel error code.
    pub fn to_kernel_errno(&self) -> (r: i32)
        ensures
            r == self.0,
    {
        self.0
    }
}

/// Turns a kernel result into the integer that a C callback returns: the
/// success value itself, or the error code converted from an `i16`.
///
/// Kernel error codes lie in `-MAX_ERRNO..0`, so they fit in an `i16`.
pub fn from_kernel_result_helper<T: From<i16>>(r: KernelResult<T>) -> (out: T)
    ensures
        match r {
            Ok(v) => out == v,
            Err(e) => call_ensures(T::from, (e.0 as i16,), out),
        },
{
    match r {
        Ok(v) => v,
        Err(e) => T::from(e.to_kernel_errno() as i16),
    }
}

/// Whether an address returned by the kernel encodes an error: the last
/// `MAX_ERRNO` values of the address space.
pub open spec fn is_err_ptr(ptr: usize) -> bool {
    ptr > usize::MAX - MAX_ERRNO
}

/// The error code that an error address encodes: the address read as a
/// signed integer.
pub open spec fn ptr_errno(ptr: usize) -> int {
    ptr - (usize::MAX + 1)
}

/// Splits an address returned by the kernel into a valid address or the
/// error that it encodes.
pub fn ptr_err_check(ptr: usize) -> (r: KernelResult<usize>)
    ensures
        !is_err_ptr(ptr) ==> r == Ok::<usize, Error>(ptr),
        is_err_ptr(ptr) ==> r is Err && r->Err_0.0 == ptr_errno(ptr),
{
    if ptr > usize::MAX - MAX_ERRNO {
        let below: usize = usize::MAX - ptr;
        Err(Error(-(below as i32) - 1))
    } else {
        Ok(ptr)
    }
}

/// The result that a kernel return code stands for.
pub open spec fn rc_result(rc: i32) -> KernelResult<()> {
    if rc == 0 {
        Ok(())
    } else {
        Err(Error(rc))
    }
}

/// Turns a kernel return code into a result: zero is success, anything else
/// is the error that it names.
pub fn to_result(rc: i32) -> (r: KernelResult<()>)
    ensures
        r == rc_result(rc),
{
    if rc != 0 {
        Err(Error::from_kernel_errno(rc))
    } else {
        Ok(())
    }
}

} // verus!
