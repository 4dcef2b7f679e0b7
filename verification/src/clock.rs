//! The scheduler's monotonic time source: a capability set of `reset`
//! and `elapsed`, plus a default implementation backed by the system's
//! monotonic clock.

use vstd::prelude::*;

verus! {

/// The largest reading a conforming clock may report, one second short
/// of the full 64-bit range (584 years of nanoseconds), so that cadence
/// deadlines derived from a reading can always advance by one step
/// without overflowing.
pub const MAX_ELAPSED: u64 = u64::MAX - 1_000_000_000;

/// A monotonic time source measured in nanoseconds from a reset epoch.
///
/// `last_reading` and `readings` are the abstract state a conforming
/// clock maintains: the value most recently returned (zero right after
/// a reset), and the full history of values returned since the last
/// reset.  They make the monotonicity promise of `elapsed`, and the
/// order of a reset against the readings that follow it, expressible.
/// The trivial default models suit implementations written outside the
/// verifier, which are not checked against these contracts anyway.
pub trait GameClock: Sized {
    open spec fn last_reading(&self) -> u64 {
        0
    }

    open spec fn readings(&self) -> Seq<u64> {
        Seq::empty()
    }

    /// Establishes a new epoch; returns the nanoseconds elapsed since
    /// the previous epoch (or since construction on the first call).
    fn reset(&mut self) -> (r: u64)
        ensures
            final(self).last_reading() == 0,
            final(self).readings() == Seq::<u64>::empty(),
    ;

    /// Nanoseconds since the current epoch: never less than any earlier
    /// reading of the same epoch, and never beyond [`MAX_ELAPSED`].
    fn elapsed(&mut self) -> (r: u64)
        ensures
            old(self).last_reading() <= r <= MAX_ELAPSED,
            final(self).last_reading() == r,
            final(self).readings() == old(self).readings().push(r),
    ;
}

#[verifier::external_type_specification]
#[verifier::external_body]
pub struct ExInstant(std::time::Instant);

/// Relies on `std::time::Instant::now`: an opaque instant of the
/// monotonic wall clock.  Nothing is assumed of its value.
#[verifier::external_body]
fn instant_now() -> std::time::Instant {
    std::time::Instant::now()
}

/// Relies on `std::time::Instant::duration_since` (with `as_nanos` as
/// the conversion to a plain count): the nanoseconds from `earlier` to
/// `later`, zero if `later` is the earlier of the two.  Nothing is
/// assumed of its value: the wall clock is not a function of its
/// arguments alone, so the caller below re-establishes monotonicity
/// itself.
#[verifier::external_body]
fn nanos_between(later: &std::time::Instant, earlier: &std::time::Instant) -> u64 {
    later.duration_since(*earlier).as_nanos() as u64
}

/// A [`GameClock`] over the system's monotonic wall clock.  The promises
/// of the trait are enforced, not assumed: a raw reading is clamped to
/// the last value returned and to [`MAX_ELAPSED`], so they hold even if
/// the host clock misbehaves (with a conforming host clock the clamps
/// never bite).
pub struct StdGameClock {
    base: std::time::Instant,
    last: u64,
    history: Ghost<Seq<u64>>,
}

impl StdGameClock {
    pub fn new() -> (c: Self)
        ensures
            c.last_reading() == 0,
            c.readings() == Seq::<u64>::empty(),
    {
        StdGameClock { base: instant_now(), last: 0, history: Ghost(Seq::empty()) }
    }
}

impl Default for StdGameClock {
    fn default() -> (c: Self)
        ensures
            c.last_reading() == 0,
            c.readings() == Seq::<u64>::empty(),
    {
        StdGameClock::new()
    }
}

impl GameClock for StdGameClock {
    closed spec fn last_reading(&self) -> u64 {
        if self.last > MAX_ELAPSED {
            MAX_ELAPSED
        } else {
            self.last
        }
    }

    closed spec fn readings(&self) -> Seq<u64> {
        self.history@
    }

    fn reset(&mut self) -> (r: u64) {
        let now = instant_now();
        let r = nanos_between(&now, &self.base);
        self.base = now;
        self.last = 0;
        self.history = Ghost(Seq::empty());
        r
    }

    fn elapsed(&mut self) -> (r: u64) {
        let now = instant_now();
        let mut r = nanos_between(&now, &self.base);
        if r < self.last {
            r = self.last;
        }
        if r > MAX_ELAPSED {
            r = MAX_ELAPSED;
        }
        self.last = r;
        self.history = Ghost(self.history@.push(r));
        r
    }
}

} // verus!
