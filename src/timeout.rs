//! Conversion of an optional duration into the OS wait-timeout encoding.

use vstd::prelude::*;

verus! {

/// A span of time, as whole seconds and the nanoseconds beyond them.
#[derive(Clone, Copy, Debug, PartialEq, Eq)]
pub struct WaitDuration {
    secs: u64,
    subsec_nanos: u32,
}

impl WaitDuration {
    #[verifier::type_invariant]
    spec fn inv(&self) -> bool {
        self.subsec_nanos < 1_000_000_000
    }

    /// Whole seconds.
    pub closed spec fn secs_spec(&self) -> nat {
        self.secs as nat
    }

    /// Nanoseconds beyond the whole seconds; always under one second.
    pub closed spec fn nanos_spec(&self) -> nat {
        self.subsec_nanos as nat
    }

    /// A duration of `secs` seconds and `subsec_nanos` nanoseconds.
    pub fn new(secs: u64, subsec_nanos: u32) -> (r: WaitDuration)
        requires
            subsec_nanos < 1_000_000_000,
        ensures
            r.secs_spec() == secs,
            r.nanos_spec() == subsec_nanos,
    {
        WaitDuration { secs, subsec_nanos }
    }

    /// A duration of whole seconds.
    pub fn from_secs(secs: u64) -> (r: WaitDuration)
        ensures
            r.secs_spec() == secs,
            r.nanos_spec() == 0,
    {
        WaitDuration { secs, subsec_nanos: 0 }
    }

    /// A duration of `ms` milliseconds.
    pub fn from_millis(ms: u64) -> (r: WaitDuration)
        ensures
            r.secs_spec() == ms / 1000,
            r.nanos_spec() == (ms % 1000) * 1_000_000,
            total_millis(r) == ms,
    {
        let secs: u64 = ms / 1000;
        let rem: u64 = ms % 1000;
        let nanos: u32 = (rem as u32) * 1_000_000;
        WaitDuration { secs, subsec_nanos: nanos }
    }

    /// Whole seconds.
    pub fn as_secs(&self) -> (r: u64)
        ensures
            r == self.secs_spec(),
    {
        self.secs
    }

    /// Nanoseconds beyond the whole seconds.
    pub fn subsec_nanos(&self) -> (r: u32)
        ensures
            r == self.nanos_spec(),
            r < 1_000_000_000,
    {
        proof {
            use_type_invariant(self);
        }
        self.subsec_nanos
    }
}

/// The wait-forever encoding.
pub open spec fn infinite_spec() -> u32 {
    0xFFFF_FFFFu32
}

/// Whole milliseconds in a duration: seconds times a thousand, plus the
/// fraction of a second cut down to whole milliseconds.
pub open spec fn total_millis(d: WaitDuration) -> int {
    (d.secs_spec() * 1000 + d.nanos_spec() / 1_000_000) as int
}

/// The wait timeout that stands for an optional duration: no duration waits
/// forever; a finite one is its milliseconds, and one too long to encode
/// becomes the longest finite wait, one below the wait-forever value.
pub open spec fn wait_millis(dur: Option<WaitDuration>) -> u32 {
    match dur {
        None => infinite_spec(),
        Some(d) => if total_millis(d) < infinite_spec() {
            total_millis(d) as u32
        } else {
            (infinite_spec() - 1) as u32
        },
    }
}

/// Relies on windows_sys's `INFINITE`: the wait-forever timeout, all bits set.
#[verifier::external_body]
fn infinite() -> (r: u32)
    ensures
        r == infinite_spec(),
{
    windows_sys::Win32::System::Threading::INFINITE
}

/// Converts an optional duration into the timeout that OS wait calls take.
pub fn dur2ms(dur: Option<WaitDuration>) -> (r: u32)
    ensures
        r == wait_millis(dur),
        dur is Some ==> r < infinite_spec(),
{
    let forever = infinite();
    let d = match dur {
        Some(d) => d,
        None => return forever,
    };
    let longest: u32 = forever - 1;
    let nanos = d.subsec_nanos();
    let extra: u64 = (nanos / 1_000_000) as u64;
    match d.as_secs().checked_mul(1000) {
        Some(ms) => match ms.checked_add(extra) {
            Some(total) => {
                if total < forever as u64 {
                    total as u32
                } else {
                    longest
                }
            },
            None => longest,
        },
        None => longest,
    }
}

} // verus!

verus! {

/// No duration waits forever, and any finite duration gives a finite wait:
/// its own milliseconds when they can be encoded, else the longest finite
/// wait, strictly below the wait-forever value.
pub proof fn lemma_wait_millis_finite(d: WaitDuration)
    ensures
        wait_millis(None) == infinite_spec(),
        wait_millis(Some(d)) < infinite_spec(),
        total_millis(d) < infinite_spec() ==> wait_millis(Some(d)) == total_millis(d),
        total_millis(d) >= infinite_spec() ==> wait_millis(Some(d)) == infinite_spec() - 1,
{
}

} // verus!
