//! The bridge between OS success sentinels and `Result`.

use vstd::prelude::*;
use windows_sys::Win32::Foundation::BOOL;

verus! {

/// A failure reported by the operating system, identified by its error code.
#[derive(Clone, Copy, Debug, PartialEq, Eq, Structural)]
pub struct OsError {
    pub code: i32,
}

impl OsError {
    /// An error carrying `code`.
    pub fn from_raw_os_error(code: i32) -> (r: OsError)
        ensures
            r.code == code,
    {
        OsError { code }
    }

    /// The OS error code.
    pub fn raw_os_error(&self) -> (r: i32)
        ensures
            r == self.code,
    {
        self.code
    }
}

/// What an OS call's boolean sentinel means, given the last error code
/// read right after it: zero is a failure carrying that code, anything
/// else is success carrying the sentinel itself.
pub open spec fn cvt_spec(i: BOOL, last_error: i32) -> Result<BOOL, OsError> {
    if i == 0 {
        Err(OsError { code: last_error })
    } else {
        Ok(i)
    }
}

/// Relies on std::io::Error::last_os_error and raw_os_error: the calling
/// thread's last OS error, which always carries a raw code.
#[verifier::external_body]
fn last_os_error_code() -> (r: Option<i32>)
    ensures
        r is Some,
{
    std::io::Error::last_os_error().raw_os_error()
}

/// Converts a boolean sentinel, with the last error code that the failing
/// call left behind.
pub fn cvt_code(i: BOOL, last_error: i32) -> (r: Result<BOOL, OsError>)
    ensures
        r == cvt_spec(i, last_error),
{
    if i == 0 {
        Err(OsError { code: last_error })
    } else {
        Ok(i)
    }
}

/// Converts the boolean sentinel of the OS call just made; on failure the
/// thread's last error is read at once, before anything can overwrite it.
pub fn cvt(i: BOOL) -> (r: Result<BOOL, OsError>)
    ensures
        i != 0 ==> r == Ok::<BOOL, OsError>(i),
        i == 0 <==> r is Err,
{
    if i == 0 {
        let code = last_os_error_code();
        cvt_code(i, code.unwrap())
    } else {
        cvt_code(i, 0)
    }
}

/// A zero sentinel gives a failure carrying the (nonzero) OS error code;
/// a nonzero sentinel gives success carrying that very value.
pub proof fn lemma_cvt_sentinel(i: BOOL, last_error: i32)
    requires
        last_error != 0,
    ensures
        i == 0 ==> cvt_spec(i, last_error) is Err && cvt_spec(i, last_error)->Err_0.code != 0,
        i == 0 ==> cvt_spec(i, last_error) == Err::<BOOL, OsError>(OsError { code: last_error }),
        i != 0 ==> cvt_spec(i, last_error) == Ok::<BOOL, OsError>(i),
{
}

/// The code with which the OS reports that an asynchronous operation was
/// accepted and is still in progress.
pub open spec fn io_pending_spec() -> i32 {
    997
}

/// Relies on windows_sys's `ERROR_IO_PENDING`: the "operation in progress"
/// error code, 997.
#[verifier::external_body]
fn io_pending_code() -> (r: u32)
    ensures
        r == io_pending_spec(),
{
    windows_sys::Win32::Foundation::ERROR_IO_PENDING
}

/// How issuing an asynchronous call went: `Ok(true)` when it finished at
/// once, `Ok(false)` when it is in progress, else the failure.
pub open spec fn issue_spec(i: BOOL, last_error: i32) -> Result<bool, OsError> {
    if i != 0 {
        Ok(true)
    } else if last_error == io_pending_spec() {
        Ok(false)
    } else {
        Err(OsError { code: last_error })
    }
}

/// Interprets the sentinel of a call that starts an asynchronous operation:
/// "in progress" is the expected outcome, not a failure.
pub fn issue_outcome(i: BOOL, last_error: i32) -> (r: Result<bool, OsError>)
    ensures
        r == issue_spec(i, last_error),
{
    match cvt_code(i, last_error) {
        Ok(_) => Ok(true),
        Err(e) => {
            let pending = io_pending_code();
            if e.code == pending as i32 {
                Ok(false)
            } else {
                Err(e)
            }
        },
    }
}

} // verus!
