//! Scheduler configuration: target render/update rates, their derived
//! per-step durations, the catch-up threshold, and a reserved `lazy` flag.

use vstd::prelude::*;

verus! {

/// Nanoseconds in one second.
pub const NANOS_PER_SEC: u64 = 1_000_000_000;

/// The mathematical content of a [`SchedulerSettings`] value.
pub struct SettingsView {
    pub fps: u32,
    pub dt_f: u64,
    pub ups: u32,
    pub dt_u: u64,
    pub ups_reset: u32,
    pub lazy: bool,
}

/// Configuration consulted by the scheduler on every iteration.
///
/// `dt_f` and `dt_u` are the derived per-frame and per-step durations in
/// nanoseconds; they track the last rate that was set to a value whose
/// derived duration is at least one nanosecond.  Setting a rate to zero
/// leaves the previously derived duration unchanged.
pub struct SchedulerSettings {
    pub(crate) fps: u32,
    pub(crate) dt_f: u64,
    pub(crate) ups: u32,
    pub(crate) dt_u: u64,
    pub(crate) ups_reset: u32,
    pub(crate) lazy: bool,
}

impl View for SchedulerSettings {
    type V = SettingsView;

    closed spec fn view(&self) -> SettingsView {
        SettingsView {
            fps: self.fps,
            dt_f: self.dt_f,
            ups: self.ups,
            dt_u: self.dt_u,
            ups_reset: self.ups_reset,
            lazy: self.lazy,
        }
    }
}

impl SchedulerSettings {
    /// Well-formedness: both derived durations are positive and no larger
    /// than one second, so cadence arithmetic neither divides by zero nor
    /// overflows.  Every value reachable through the public interface is
    /// well-formed.
    pub open spec fn wf(&self) -> bool {
        &&& 1 <= self@.dt_f <= NANOS_PER_SEC
        &&& 1 <= self@.dt_u <= NANOS_PER_SEC
    }

    /// Target render rate in frames per second.
    pub fn fps(&self) -> (r: u32)
        ensures
            r == self@.fps,
    {
        self.fps
    }

    /// Derived per-frame duration in nanoseconds.
    pub fn dt_f(&self) -> (r: u64)
        ensures
            r == self@.dt_f,
    {
        self.dt_f
    }

    /// Target update rate in steps per second.
    pub fn ups(&self) -> (r: u32)
        ensures
            r == self@.ups,
    {
        self.ups
    }

    /// Derived per-update duration in nanoseconds.
    pub fn dt_u(&self) -> (r: u64)
        ensures
            r == self@.dt_u,
    {
        self.dt_u
    }

    /// Number of lagging update steps that triggers a backlog snap;
    /// zero disables snapping.
    pub fn ups_reset(&self) -> (r: u32)
        ensures
            r == self@.ups_reset,
    {
        self.ups_reset
    }

    /// Reserved flag, stored but not consulted by the loop.
    pub fn lazy(&self) -> (r: bool)
        ensures
            r == self@.lazy,
    {
        self.lazy
    }

    /// Sets the target render rate; returns the settings for chaining.
    /// For any positive rate the derived duration becomes
    /// `NANOS_PER_SEC / fps` (integer division — zero for rates above
    /// one billion, which [`Self::wf`] then rejects at the loop
    /// boundary, as cadence arithmetic requires a positive step); a rate
    /// of zero leaves the previously derived duration unchanged.
    pub fn set_fps(&mut self, fps: u32) -> (r: &mut Self)
        ensures
            r@.fps == fps,
            fps >= 1 ==> r@.dt_f == NANOS_PER_SEC as int / fps as int,
            fps == 0 ==> r@.dt_f == old(self)@.dt_f,
            r@.ups == old(self)@.ups,
            r@.dt_u == old(self)@.dt_u,
            r@.ups_reset == old(self)@.ups_reset,
            r@.lazy == old(self)@.lazy,
            old(self).wf() && (fps == 0 || fps <= NANOS_PER_SEC) ==> r.wf(),
            *final(self) == *final(r),
    {
        self.fps = fps;
        if fps > 0 {
            proof {
                if fps <= NANOS_PER_SEC {
                    lemma_rate_duration(fps as int);
                }
            }
            self.dt_f = NANOS_PER_SEC / (fps as u64);
        }
        self
    }

    /// Sets the target update rate; the same derivation and zero-guard as
    /// [`Self::set_fps`], applied to `dt_u`.
    pub fn set_ups(&mut self, ups: u32) -> (r: &mut Self)
        ensures
            r@.ups == ups,
            ups >= 1 ==> r@.dt_u == NANOS_PER_SEC as int / ups as int,
            ups == 0 ==> r@.dt_u == old(self)@.dt_u,
            r@.fps == old(self)@.fps,
            r@.dt_f == old(self)@.dt_f,
            r@.ups_reset == old(self)@.ups_reset,
            r@.lazy == old(self)@.lazy,
            old(self).wf() && (ups == 0 || ups <= NANOS_PER_SEC) ==> r.wf(),
            *final(self) == *final(r),
    {
        self.ups = ups;
        if ups > 0 {
            proof {
                if ups <= NANOS_PER_SEC {
                    lemma_rate_duration(ups as int);
                }
            }
            self.dt_u = NANOS_PER_SEC / (ups as u64);
        }
        self
    }

    /// Sets the number of lagging update steps that triggers a backlog
    /// snap; zero means backlog is never dropped.
    pub fn set_ups_reset(&mut self, ups_reset: u32) -> (r: &mut Self)
        ensures
            r@ == (SettingsView { ups_reset, ..old(self)@ }),
            old(self).wf() ==> r.wf(),
            *final(self) == *final(r),
    {
        self.ups_reset = ups_reset;
        self
    }

    /// Stores the reserved `lazy` flag.
    pub fn set_lazy(&mut self, lazy: bool) -> (r: &mut Self)
        ensures
            r@ == (SettingsView { lazy, ..old(self)@ }),
            old(self).wf() ==> r.wf(),
            *final(self) == *final(r),
    {
        self.lazy = lazy;
        self
    }
}

impl Default for SchedulerSettings {
    /// 60 frames and 60 updates per second, snapping disabled.
    fn default() -> (s: Self)
        ensures
            s@ == (SettingsView {
                fps: 60,
                dt_f: (NANOS_PER_SEC / 60) as u64,
                ups: 60,
                dt_u: (NANOS_PER_SEC / 60) as u64,
                ups_reset: 0,
                lazy: false,
            }),
            s.wf(),
    {
        SchedulerSettings {
            fps: 60,
            dt_f: NANOS_PER_SEC / 60,
            ups: 60,
            dt_u: NANOS_PER_SEC / 60,
            ups_reset: 0,
            lazy: false,
        }
    }
}

/// A rate between one and one billion derives a duration between one
/// nanosecond and one second.
proof fn lemma_rate_duration(rate: int)
    requires
        1 <= rate <= NANOS_PER_SEC,
    ensures
        1 <= NANOS_PER_SEC as int / rate <= NANOS_PER_SEC,
{
    assert(1 <= NANOS_PER_SEC as int / rate <= NANOS_PER_SEC) by (nonlinear_arith)
        requires
            1 <= rate <= NANOS_PER_SEC as int,
    ;
}

} // verus!
