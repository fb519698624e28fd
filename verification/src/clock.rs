//! The time.
use crate::query::Nanos;
use std::time::Instant;
use vstd::prelude::*;

verus! {

/// `std::time::Instant`, carried as it is.
#[verifier::external_type_specification]
#[verifier::external_body]
pub struct ExInstant(std::time::Instant);

/// The longest span that a clock can show: as many seconds as a `u64` counts, and the nanoseconds
/// short of one more.
pub const LONGEST_SPAN: Nanos = 18_446_744_073_709_551_615_999_999_999;

/// Counts the time since it was made.
pub struct Clock {
    started: Instant,
}

impl Clock {
    /// The clock counts from an instant at which the machine's clock was read.
    pub closed spec fn counts(&self) -> bool {
        call_ensures(instant_now, (), self.started)
    }

    /// The machine's clock may give `secs` whole seconds and `nanos` nanoseconds more as the time
    /// since the clock was made.
    pub closed spec fn elapses(&self, secs: u64, nanos: u32) -> bool {
        call_ensures(elapsed, (&self.started,), (secs, nanos))
    }

    /// `n` is a number of nanoseconds that the clock may show: one that the machine's clock gives
    /// as the time since the clock was made.
    pub closed spec fn shows(&self, n: Nanos) -> bool {
        exists|r: (u64, u32)| #[trigger]
            call_ensures(elapsed, (&self.started,), r) && n == r.0 * 1_000_000_000 + r.1
    }

    /// The times that the clock may show.
    pub open spec fn times(&self) -> Set<Nanos> {
        Set::new(|n: Nanos| self.shows(n))
    }

    /// A clock never shows more than the longest span, which is as many whole seconds as can be
    /// counted and a nanosecond short of one more.
    pub proof fn law_spans_are_bounded(&self)
        ensures
            LONGEST_SPAN / 1_000_000_000 == u64::MAX,
            (LONGEST_SPAN + 1) % 1_000_000_000 == 0,
            forall|n: Nanos| #[trigger] self.shows(n) ==> n <= LONGEST_SPAN,
    {
    }

    /// What a clock shows is the time that the machine's clock gives, to the nanosecond.
    pub proof fn law_now_is_the_time(&self, n: Nanos) -> (r: (u64, u32))
        requires
            call_ensures(Clock::now, (self,), n),
        ensures
            self.shows(n),
            self.elapses(r.0, r.1),
            n / 1_000_000_000 == r.0,
            n % 1_000_000_000 == r.1,
    {
        choose|r: (u64, u32)| #[trigger]
            call_ensures(elapsed, (&self.started,), r) && n == r.0 * 1_000_000_000 + r.1
    }

    /// A clock shows nothing but what the machine's clock gives.
    pub proof fn law_shown_times_elapse(&self, n: Nanos) -> (r: (u64, u32))
        requires
            self.shows(n),
        ensures
            self.elapses(r.0, r.1),
            n / 1_000_000_000 == r.0,
            n % 1_000_000_000 == r.1,
    {
        choose|r: (u64, u32)| #[trigger]
            call_ensures(elapsed, (&self.started,), r) && n == r.0 * 1_000_000_000 + r.1
    }

    /// A clock that counts from now. When that is, only the machine's clock knows.
    pub fn new() -> (c: Clock)
        ensures
            c.counts(),
    {
        Clock { started: instant_now() }
    }

    /// The nanoseconds since the clock was made. How many they are, only the machine's clock knows;
    /// they are never more than the longest span.
    pub fn now(&self) -> (n: Nanos)
        ensures
            self.shows(n),
            n <= LONGEST_SPAN,
    {
        let (secs, nanos) = elapsed(&self.started);
        secs as u128 * 1_000_000_000 + nanos as u128
    }
}

/// Calls `std::time::Instant::now`. Nothing is claimed of what the machine's clock shows.
#[verifier::external_body]
fn instant_now() -> Instant {
    Instant::now()
}

/// Calls `std::time::Instant::elapsed` and gives the span as whole seconds and the nanoseconds of
/// the second that has begun, which are fewer than a billion. Nothing is claimed of how much time
/// has passed.
#[verifier::external_body]
fn elapsed(since: &Instant) -> (r: (u64, u32))
    ensures
        r.1 < 1_000_000_000,
{
    let span = since.elapsed();
    (span.as_secs(), span.subsec_nanos())
}

} // verus!
