use vstd::prelude::*;

verus! {

/// Invalid argument.
pub const EINVAL: i32 = 22;

/// Resource temporarily unavailable; the timed signal wait reports its timeout with it.
pub const EAGAIN: i32 = 11;

/// File name too long.
pub const ENAMETOOLONG: i32 = 36;

/// A failed system call, carrying the platform's numeric error code.
#[derive(Clone, Copy, Debug, PartialEq, Eq, Structural, Hash)]
pub struct SysError {
    pub errno: i32,
}

pub type SysResult<T> = Result<T, SysError>;

impl SysError {
    pub fn from_errno(errno: i32) -> (r: SysError)
        ensures
            r.errno == errno,
    {
        SysError { errno }
    }

    pub fn errno(&self) -> (r: i32)
        ensures
            r == self.errno,
    {
        self.errno
    }
}

/// Interprets the result code of a call that signals failure by a negative
/// value and leaves the cause in the thread's last-error value.
pub fn sys_result<T>(res: i32, last_errno: i32, value: T) -> (r: SysResult<T>)
    ensures
        res >= 0 ==> r == Ok::<T, SysError>(value),
        res < 0 ==> r == Err::<T, SysError>(SysError { errno: last_errno }),
{
    if res < 0 {
        Err(SysError { errno: last_errno })
    } else {
        Ok(value)
    }
}

/// Interprets the result code of a call that returns its error code directly:
/// zero is success, anything else is the error itself.
pub fn status_result(res: i32) -> (r: SysResult<()>)
    ensures
        res == 0 ==> r == Ok::<(), SysError>(()),
        res != 0 ==> r == Err::<(), SysError>(SysError { errno: res }),
{
    if res == 0 {
        Ok(())
    } else {
        Err(SysError { errno: res })
    }
}

} // verus!
