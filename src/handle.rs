//! Exclusive ownership of one OS handle, released exactly once.

use vstd::prelude::*;
use windows_sys::Win32::Foundation::{BOOL, HANDLE};
use crate::error::{cvt_code, OsError};

verus! {

/// What a `Handle` is: the raw value it owns and whether it still owns it.
#[derive(Clone, Copy, Debug, PartialEq, Eq, Structural)]
pub struct HandleView {
    pub raw: HANDLE,
    pub open: bool,
}

/// A raw value that can name an owned handle: neither null nor the
/// invalid-handle value.
pub open spec fn valid_raw(raw: HANDLE) -> bool {
    raw != 0 && raw != -1
}

/// The handle after a release: it no longer owns its value.
pub open spec fn released(v: HandleView) -> HandleView {
    HandleView { raw: v.raw, open: false }
}

/// The value that a release hands to the OS to close: the owned value the
/// first time, nothing after that.
pub open spec fn release_action(v: HandleView) -> Option<HANDLE> {
    if v.open {
        Some(v.raw)
    } else {
        None
    }
}

/// Owner of one OS handle. The value is never null or invalid, and the
/// owner gives it up for closing at most once.
#[derive(Debug)]
pub struct Handle {
    raw: HANDLE,
    open: bool,
}

impl View for Handle {
    type V = HandleView;

    closed spec fn view(&self) -> HandleView {
        HandleView { raw: self.raw, open: self.open }
    }
}

impl Handle {
    #[verifier::type_invariant]
    spec fn inv(&self) -> bool {
        valid_raw(self.raw)
    }

    /// Takes ownership of `raw`, which the caller attests is a valid handle
    /// that nothing else owns.
    pub fn new(raw: HANDLE) -> (r: Handle)
        requires
            valid_raw(raw),
        ensures
            r@ == (HandleView { raw, open: true }),
    {
        Handle { raw, open: true }
    }

    /// The raw value, for passing to OS calls; ownership stays here.
    pub fn raw(&self) -> (r: HANDLE)
        ensures
            r == self@.raw,
            valid_raw(r),
    {
        proof {
            use_type_invariant(self);
        }
        self.raw
    }

    /// Whether the handle still owns its value.
    pub fn is_open(&self) -> (r: bool)
        ensures
            r == self@.open,
    {
        self.open
    }

    /// Gives up the owned value for closing: the value the first time, and
    /// nothing on any later call, so the OS resource is released once.
    pub fn release(&mut self) -> (r: Option<HANDLE>)
        ensures
            final(self)@ == released(old(self)@),
            r == release_action(old(self)@),
    {
        proof {
            use_type_invariant(&*self);
        }
        if self.open {
            self.open = false;
            Some(self.raw)
        } else {
            None
        }
    }

    /// The outcome of duplicating this handle: `ret` is the sentinel of the
    /// duplicating call, `new_raw` the value it produced, and `last_error`
    /// the error it left. Success gives a new, independent owner.
    pub fn duplicate_result(&self, ret: BOOL, new_raw: HANDLE, last_error: i32) -> (r: Result<
        Handle,
        OsError,
    >)
        requires
            self@.open,
            ret != 0 ==> valid_raw(new_raw),
        ensures
            ret != 0 ==> r is Ok && r->Ok_0@ == (HandleView { raw: new_raw, open: true }),
            ret == 0 ==> r is Err && r->Err_0 == (OsError { code: last_error }),
    {
        match cvt_code(ret, last_error) {
            Ok(_) => Ok(Handle::new(new_raw)),
            Err(e) => Err(e),
        }
    }
}

/// Releasing twice hands the value to the OS only the first time: the
/// second release finds nothing to close and changes nothing.
pub proof fn lemma_release_once(v: HandleView)
    ensures
        v.open ==> release_action(v) == Some(v.raw),
        release_action(released(v)) is None,
        released(released(v)) == released(v),
{
}

/// A duplicate is closeable on its own: releasing it closes its own value,
/// and the handle it was made from still owns and later releases its value.
pub proof fn lemma_duplicate_independent(orig: HandleView, dup: HandleView)
    requires
        orig.open,
        dup.open,
    ensures
        release_action(dup) == Some(dup.raw),
        release_action(orig) == Some(orig.raw),
        release_action(released(dup)) is None,
{
}

} // verus!
