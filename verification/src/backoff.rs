//! The backoff schedule: how long to wait before a retry.
//!
//! The wait grows with the square of the attempt and is spread by a random
//! jitter of less than a second, so that uploads that failed together do
//! not retry together. The random draw is the driver's; this module takes
//! it as a value.

use vstd::prelude::*;

verus! {

/// The jitter is below this many milliseconds: one second.
pub const JITTER_SPAN_MILLIS: u16 = 1000;

/// The wait before the retry numbered `attempt`, in milliseconds:
/// `(attempt² + jitter) * 1000`, with the jitter given in milliseconds.
pub open spec fn wait_millis(attempt: int, jitter_millis: int) -> int {
    attempt * attempt * 1000 + jitter_millis
}

/// A jitter: a whole number of milliseconds from 0 up to, and not
/// including, `JITTER_SPAN_MILLIS`. It stands for a fraction of a second
/// drawn uniformly from `[0, 1)`.
#[derive(Clone, Copy, Debug, PartialEq, Eq)]
pub struct Jitter {
    millis: u16,
}

impl View for Jitter {
    type V = int;

    closed spec fn view(&self) -> int {
        self.millis as int
    }
}

impl Jitter {
    #[verifier::type_invariant]
    spec fn inv(self) -> bool {
        self.millis < JITTER_SPAN_MILLIS
    }

    /// The jitter of `millis` milliseconds, or `None` where `millis` is a
    /// second or more.
    pub fn from_millis(millis: u16) -> (jitter: Option<Jitter>)
        ensures
            jitter.is_some() <==> millis < JITTER_SPAN_MILLIS,
            jitter.is_some() ==> jitter.unwrap()@ == millis,
    {
        if millis < JITTER_SPAN_MILLIS {
            Some(Jitter { millis })
        } else {
            None
        }
    }

    /// The jitter in milliseconds.
    pub fn millis(&self) -> (millis: u16)
        ensures
            millis == self@,
            millis < JITTER_SPAN_MILLIS,
    {
        proof {
            use_type_invariant(self);
        }
        self.millis
    }
}

/// The time to wait before the retry numbered `attempt`, in milliseconds.
///
/// Retries are numbered from 1: the first send is no retry. The result is
/// `attempt² * 1000` plus the jitter, so it lies in
/// `[attempt² * 1000, attempt² * 1000 + 1000)`.
pub fn wait_duration(attempt: u8, jitter: Jitter) -> (millis: u32)
    ensures
        millis == wait_millis(attempt as int, jitter@),
        attempt * attempt * 1000 <= millis < attempt * attempt * 1000 + 1000,
{
    let j: u16 = jitter.millis();
    let a: u32 = attempt as u32;
    assert(a * a <= 255 * 255) by (nonlinear_arith)
        requires
            a <= 255,
    ;
    a * a * 1000 + j as u32
}

} // verus!
