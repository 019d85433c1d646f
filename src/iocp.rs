//! Completion ports: what a dequeue, a batch dequeue, a creation or an
//! association amounts to, from the values the OS calls hand back.

use vstd::prelude::*;
use windows_sys::Win32::Foundation::{BOOL, HANDLE};
use crate::error::{cvt_code, OsError};
use crate::handle::{valid_raw, Handle, HandleView};

verus! {

/// One completion: the bytes transferred, the key of the handle it came
/// from, and the address of its descriptor (zero for none).
#[derive(Clone, Copy, Debug, PartialEq, Eq, Structural)]
pub struct CompletionStatus {
    pub bytes: u32,
    pub token: usize,
    pub overlapped: usize,
}

impl CompletionStatus {
    /// A completion with the given bytes, key and descriptor address, as
    /// posted to a port or received from one.
    pub fn new(bytes: u32, token: usize, overlapped: usize) -> (r: CompletionStatus)
        ensures
            r == (CompletionStatus { bytes, token, overlapped }),
    {
        CompletionStatus { bytes, token, overlapped }
    }

    /// A completion with every field zero, to be filled in by the OS.
    pub fn zero() -> (r: CompletionStatus)
        ensures
            r == (CompletionStatus { bytes: 0, token: 0, overlapped: 0 }),
    {
        CompletionStatus { bytes: 0, token: 0, overlapped: 0 }
    }

    /// Bytes transferred.
    pub fn bytes_transferred(&self) -> (r: u32)
        ensures
            r == self.bytes,
    {
        self.bytes
    }

    /// The completion key.
    pub fn token(&self) -> (r: usize)
        ensures
            r == self.token,
    {
        self.token
    }

    /// The descriptor's address, zero for none.
    pub fn overlapped(&self) -> (r: usize)
        ensures
            r == self.overlapped,
    {
        self.overlapped
    }
}

/// What waiting for one completion came to.
#[derive(Clone, Copy, Debug, PartialEq, Eq)]
pub enum GetOutcome {
    /// An operation completed successfully.
    Completed(CompletionStatus),
    /// An operation completed with a failure; its key and descriptor are
    /// kept so that the caller can find its context.
    Failed(CompletionStatus, OsError),
    /// Nothing arrived in time.
    TimedOut,
    /// The wait itself failed; nothing was dequeued.
    Error(OsError),
}

/// What waiting for a batch of completions came to.
#[derive(Clone, Debug, PartialEq, Eq)]
pub enum GetManyOutcome {
    /// At least one completion arrived; these are the ones dequeued.
    Completed(Vec<CompletionStatus>),
    /// Nothing arrived in time.
    TimedOut,
    /// The wait failed.
    Error(OsError),
}

/// The error code of a wait that ran out of time.
pub open spec fn wait_timeout_spec() -> i32 {
    258
}

/// Relies on windows_sys's `WAIT_TIMEOUT`: the code that a timed-out wait
/// leaves as last error, 258.
#[verifier::external_body]
fn wait_timeout_code() -> (r: u32)
    ensures
        r == wait_timeout_spec(),
{
    windows_sys::Win32::Foundation::WAIT_TIMEOUT
}

/// The outcome of one dequeue: `ret` is the wait's sentinel, `status` what
/// it wrote out, `last_error` the error it left.
pub open spec fn get_spec(ret: BOOL, status: CompletionStatus, last_error: i32) -> GetOutcome {
    if ret != 0 {
        GetOutcome::Completed(status)
    } else if status.overlapped != 0 {
        GetOutcome::Failed(status, OsError { code: last_error })
    } else if last_error == wait_timeout_spec() {
        GetOutcome::TimedOut
    } else {
        GetOutcome::Error(OsError { code: last_error })
    }
}

/// Interprets what a single dequeue returned. A failure that names a
/// descriptor is a failed operation; one that names none is a timeout or
/// a failure of the wait.
pub fn classify_get(ret: BOOL, status: CompletionStatus, last_error: i32) -> (r: GetOutcome)
    ensures
        r == get_spec(ret, status, last_error),
{
    match cvt_code(ret, last_error) {
        Ok(_) => GetOutcome::Completed(status),
        Err(e) => {
            if status.overlapped != 0 {
                GetOutcome::Failed(status, e)
            } else if e.code == wait_timeout_code() as i32 {
                GetOutcome::TimedOut
            } else {
                GetOutcome::Error(e)
            }
        },
    }
}

/// Interprets what a batch dequeue returned: on success the first
/// `removed` entries that the OS filled are the completions.
pub fn classify_get_many(
    ret: BOOL,
    entries: Vec<CompletionStatus>,
    removed: u32,
    last_error: i32,
) -> (r: GetManyOutcome)
    requires
        ret != 0 ==> removed <= entries.len(),
    ensures
        ret != 0 ==> r is Completed && r->Completed_0@ == entries@.subrange(0, removed as int),
        ret == 0 && last_error == wait_timeout_spec() ==> r is TimedOut,
        ret == 0 && last_error != wait_timeout_spec() ==> r == GetManyOutcome::Error(
            OsError { code: last_error },
        ),
{
    match cvt_code(ret, last_error) {
        Ok(_) => {
            let mut done = entries;
            done.truncate(removed as usize);
            GetManyOutcome::Completed(done)
        },
        Err(e) => {
            if e.code == wait_timeout_code() as i32 {
                GetManyOutcome::TimedOut
            } else {
                GetManyOutcome::Error(e)
            }
        },
    }
}

/// The outcome of associating a handle with a port: the association call
/// gives back the port on success and null on failure.
pub fn association_result(ret: HANDLE, last_error: i32) -> (r: Result<(), OsError>)
    ensures
        ret != 0 <==> r is Ok,
        ret == 0 ==> r == Err::<(), OsError>(OsError { code: last_error }),
{
    if ret == 0 {
        Err(OsError { code: last_error })
    } else {
        Ok(())
    }
}

/// Owner of one completion queue.
#[derive(Debug)]
pub struct CompletionPort {
    handle: Handle,
}

impl View for CompletionPort {
    type V = HandleView;

    closed spec fn view(&self) -> HandleView {
        self.handle@
    }
}

impl CompletionPort {
    /// The outcome of creating a port: the creating call gives back the new
    /// queue, or null on failure.
    pub fn from_create_result(raw: HANDLE, last_error: i32) -> (r: Result<CompletionPort, OsError>)
        requires
            raw != -1,
        ensures
            raw != 0 ==> r is Ok && r->Ok_0@ == (HandleView { raw, open: true }),
            raw == 0 ==> r is Err && r->Err_0 == (OsError { code: last_error }),
    {
        if raw == 0 {
            Err(OsError { code: last_error })
        } else {
            Ok(CompletionPort { handle: Handle::new(raw) })
        }
    }

    /// Takes ownership of an existing queue handle.
    pub fn from_handle(handle: Handle) -> (r: CompletionPort)
        ensures
            r@ == handle@,
    {
        CompletionPort { handle }
    }

    /// The queue's raw value, for OS calls.
    pub fn raw(&self) -> (r: HANDLE)
        ensures
            r == self@.raw,
            valid_raw(r),
    {
        self.handle.raw()
    }

    /// Gives up the queue for closing, once.
    pub fn release(&mut self) -> (r: Option<HANDLE>)
        ensures
            final(self)@ == crate::handle::released(old(self)@),
            r == crate::handle::release_action(old(self)@),
    {
        self.handle.release()
    }
}

/// A completion that is dequeued successfully, as posted or as the OS
/// wrote it, reaches the caller with its key, byte count and descriptor
/// address unchanged; a failed one keeps them too.
pub proof fn lemma_get_keeps_status(ret: BOOL, status: CompletionStatus, last_error: i32)
    ensures
        ret != 0 ==> get_spec(ret, status, last_error) == GetOutcome::Completed(status),
        ret == 0 && status.overlapped != 0 ==> get_spec(ret, status, last_error)
            == GetOutcome::Failed(status, OsError { code: last_error }),
        ret == 0 && status.overlapped == 0 && last_error == wait_timeout_spec() ==> get_spec(
            ret,
            status,
            last_error,
        ) == GetOutcome::TimedOut,
{
}

} // verus!
