//! The scheduler: owns the configuration, the clock, the logic callbacks
//! and the event source; runs the iteration algorithm; computes cadence
//! timing; drains events; decides sleep durations; terminates and
//! finalizes.

use vstd::prelude::*;

use core::marker::PhantomData;
use crate::clock::{GameClock, MAX_ELAPSED};
use crate::events::EventSource;
use crate::logic::{call_err, err_of, is_clean, is_loop_call, GameLogic, LogicCall};
use crate::settings::SchedulerSettings;

verus! {

/// The number of whole steps of length `dt` by which the deadline `next`
/// is behind `now`.
pub open spec fn cadence_lag(next: int, now: int, dt: int) -> int {
    (now - next) / dt
}

/// Whether the cadence-advance procedure snaps: snapping is enabled
/// (`max_lag > 0`) and the backlog has reached the threshold.
pub open spec fn cadence_snaps(next: int, now: int, dt: int, max_lag: int) -> bool {
    max_lag > 0 && cadence_lag(next, now, dt) >= max_lag
}

/// The deadline after the cadence-advance procedure: advanced once by
/// `dt`, with the whole backlog absorbed first when it snaps.
pub open spec fn cadence_next(next: int, now: int, dt: int, max_lag: int) -> int {
    if cadence_snaps(next, now, dt, max_lag) {
        next + cadence_lag(next, now, dt) * dt + dt
    } else {
        next + dt
    }
}

/// The lag the cadence-advance procedure reports: zero when it snapped
/// (the backlog was discarded), the backlog itself otherwise.
pub open spec fn cadence_result(next: int, now: int, dt: int, max_lag: int) -> int {
    if cadence_snaps(next, now, dt, max_lag) {
        0
    } else {
        cadence_lag(next, now, dt)
    }
}

/// The cadence-advance procedure.
///
/// Counts the whole steps `lag` the deadline is behind `now`; if
/// `max_lag > 0` and `lag >= max_lag`, snaps the deadline forward by the
/// entire backlog (discarding missed steps) and reports zero; in either
/// case advances the deadline once more by `dt`.  With `max_lag == 0`
/// backlog is never dropped: the full count is reported and only the
/// single advance happens.
pub fn update_time(next: &mut u64, now: u64, dt: u64, max_lag: u64) -> (lag: u64)
    requires
        *old(next) <= now,
        1 <= dt,
        *old(next) + cadence_lag(*old(next) as int, now as int, dt as int) * dt + dt <= u64::MAX,
    ensures
        *final(next) == cadence_next(*old(next) as int, now as int, dt as int, max_lag as int),
        lag == cadence_result(*old(next) as int, now as int, dt as int, max_lag as int),
        *final(next) <= now + dt,
{
    let mut lag: u64 = (now - *next) / dt;
    proof {
        let x = (now - *next) as int;
        let d = dt as int;
        vstd::arithmetic::div_mod::lemma_remainder(x, d);
        vstd::arithmetic::div_mod::lemma_div_pos_is_pos(x, d);
        assert(lag * dt == x / d * d);
        assert(lag * dt <= now - *next);
        assert(lag * dt >= 0) by (nonlinear_arith)
            requires
                lag >= 0,
                dt >= 1,
        ;
    }
    if max_lag > 0 && lag >= max_lag {
        *next = *next + lag * dt;
        lag = 0;
    }
    *next = *next + dt;
    lag
}

/// Cadence-advance with snapping disabled is steady: whenever `now` lies
/// at or past the deadline but by less than one whole step, the
/// procedure moves the deadline forward by exactly `dt` and reports zero
/// lag.  Repeated calls that each find `now` just past the advanced
/// deadline therefore keep advancing it by exactly `dt` and never report
/// a backlog.
pub proof fn lemma_cadence_steady(next: int, now: int, dt: int)
    requires
        1 <= dt,
        next <= now < next + dt,
    ensures
        cadence_next(next, now, dt, 0) == next + dt,
        cadence_result(next, now, dt, 0) == 0,
{
    vstd::arithmetic::div_mod::lemma_basic_div(now - next, dt);
}

/// What a whole run of the scheduler appends to the logic's call trace.
///
/// The run opens with exactly one `Init` record and closes with exactly
/// one `Finalize` record; everything between is a render, update or
/// event invocation.  All of those but possibly the very last succeeded
/// without requesting termination; the error handed to `Finalize` is the
/// error of the failing record if one failed (and nothing at all was
/// invoked after it), and nothing otherwise.  A failing `init` skips the
/// loop entirely: only `Finalize` follows it, carrying its error.
pub open spec fn run_trace<E>(tr: Seq<LogicCall<E>>) -> bool {
    &&& tr.len() >= 2
    &&& tr[0] is Init
    &&& tr.last() is Finalize
    &&& (forall|i: int| 0 < i < tr.len() - 1 ==> is_loop_call(#[trigger] tr[i]))
    &&& (forall|i: int| 0 < i < tr.len() - 2 ==> is_clean(#[trigger] tr[i]))
    &&& (call_err(tr[0]) is Some ==> tr.len() == 2)
    &&& (tr.last() matches LogicCall::Finalize { err, .. } && err == run_recorded_err(tr))
}

/// The error a run carries into `Finalize`: the error of `init` if it
/// failed, else the error of the last loop record if that one failed,
/// else nothing.
pub open spec fn run_recorded_err<E>(tr: Seq<LogicCall<E>>) -> Option<E> {
    if call_err(tr[0]) is Some {
        call_err(tr[0])
    } else if tr.len() > 2 {
        call_err(tr[tr.len() - 2])
    } else {
        None
    }
}

/// The total of the `dt` values of the successful render records: since
/// each successful render receives the wall-clock time since the
/// previous successful render (measured from a last-render timestamp
/// that starts at zero), these `dt` values telescope, and their sum is
/// the timestamp of the latest render.
pub open spec fn render_dt_sum<E>(s: Seq<LogicCall<E>>) -> int
    decreases s.len(),
{
    if s.len() == 0 {
        0
    } else {
        render_dt_sum(s.drop_last()) + (match s.last() {
            LogicCall::Render { dt, err: None } => dt as int,
            _ => 0,
        })
    }
}

/// The total of the `dt` values of the successful update records; the
/// update counterpart of [`render_dt_sum`].
pub open spec fn update_dt_sum<E>(s: Seq<LogicCall<E>>) -> int
    decreases s.len(),
{
    if s.len() == 0 {
        0
    } else {
        update_dt_sum(s.drop_last()) + (match s.last() {
            LogicCall::Update { dt, err: None } => dt as int,
            _ => 0,
        })
    }
}

/// An error from any hook halts the run: the failing record is the very
/// last before `Finalize` — no further render, update or event hook was
/// invoked — and its error is exactly the value handed to `Finalize`.
pub proof fn lemma_error_is_final<E>(tr: Seq<LogicCall<E>>, i: int)
    requires
        run_trace(tr),
        0 <= i < tr.len(),
        call_err(tr[i]) is Some,
    ensures
        i == tr.len() - 2,
        run_recorded_err(tr) == call_err(tr[i]),
        (tr.last() matches LogicCall::Finalize { err, .. } && err == call_err(tr[i])),
{
    assert(call_err(tr[tr.len() - 1]) is None);
    if i == 0 {
        assert(tr.len() == 2);
    } else {
        assert(!is_clean(tr[i]));
        assert(i == tr.len() - 2);
        assert(call_err(tr[0]) is None);
    }
}

/// A handled event that set the close flag (and did not itself fail)
/// terminates the run: its record is the very last before `Finalize`,
/// and `Finalize` receives no error.
pub proof fn lemma_close_is_final<E>(tr: Seq<LogicCall<E>>, i: int)
    requires
        run_trace(tr),
        0 <= i < tr.len(),
        tr[i] matches LogicCall::HandleEvent { close: true, err: None },
    ensures
        i == tr.len() - 2,
        run_recorded_err(tr) is None,
        (tr.last() matches LogicCall::Finalize { err, .. } && err is None),
{
    assert(tr[i] !is Init);
    assert(i != 0);
    assert(tr[i] !is Finalize);
    assert(i != tr.len() - 1);
    assert(!is_clean(tr[i]));
    assert(i == tr.len() - 2);
    assert(call_err(tr[0]) is None);
    assert(call_err(tr[i]) is None);
}

/// With the render threshold fixed at one, any backlog at all snaps: the
/// advanced deadline always lands within one step past `now`, so a
/// single check can never owe more than one render.
pub proof fn lemma_cadence_threshold_one(next: int, now: int, dt: int)
    requires
        1 <= dt,
        next <= now,
    ensures
        now < cadence_next(next, now, dt, 1) <= now + dt,
        cadence_result(next, now, dt, 1) == 0,
{
    let lag = cadence_lag(next, now, dt);
    let x = now - next;
    vstd::arithmetic::div_mod::lemma_remainder(x, dt);
    assert(lag * dt == x / dt * dt);
    if lag >= 1 {
        assert(cadence_snaps(next, now, dt, 1));
        assert(now < next + lag * dt + dt <= now + dt);
    } else {
        vstd::arithmetic::div_mod::lemma_div_pos_is_pos(x, dt);
        assert(lag == 0);
        assert(lag * dt == 0) by (nonlinear_arith)
            requires
                lag == 0,
        ;
        assert(x < dt);
    }
}

/// Records since `from` after which the loop kept running.
spec fn clean_between<E>(t: Seq<LogicCall<E>>, from: int, to: int) -> bool {
    forall|i: int| from <= i < to ==> is_clean(#[trigger] t[i]) && is_loop_call(t[i])
}

/// The render-due check (loop step two).  If `now` has reached the
/// render deadline, invokes `render` once — never more, whatever the
/// backlog, because the catch-up threshold for rendering is fixed at
/// one — with the wall-clock time since the previous render; on success
/// records the render time and advances the deadline.  Returns whether a
/// render succeeded, and the error if one failed.
pub fn render_step<S, Ev, E, L: GameLogic<S, Ev, E>>(
    logic: &mut L,
    surface: &S,
    settings: &mut SchedulerSettings,
    now: u64,
    last_render: &mut u64,
    next_render: &mut u64,
) -> (r: (bool, Option<E>))
    requires
        old(settings).wf(),
        *old(last_render) <= now,
        now <= MAX_ELAPSED,
    ensures
        final(settings).wf(),
        final(logic).trace().len() <= old(logic).trace().len() + 1,
        now < *old(next_render) ==> ({
            &&& final(logic).trace() == old(logic).trace()
            &&& r == (false, None::<E>)
            &&& *final(last_render) == *old(last_render)
            &&& *final(next_render) == *old(next_render)
            &&& *final(settings) == *old(settings)
        }),
        now >= *old(next_render) ==> ({
            &&& final(logic).trace() == old(logic).trace().push(
                LogicCall::Render { dt: (now - *old(last_render)) as u64, err: r.1 },
            )
            &&& (r.1 is None ==> r.0 && *final(last_render) == now && *final(next_render)
                == cadence_next(
                *old(next_render) as int,
                now as int,
                final(settings)@.dt_f as int,
                1,
            ) && now < *final(next_render) <= now + final(settings)@.dt_f)
            &&& (r.1 is Some ==> !r.0 && *final(last_render) == *old(last_render)
                && *final(next_render) == *old(next_render))
        }),
{
    if now >= *next_render {
        match logic.render(now - *last_render, surface, settings) {
            Err(e) => (false, Some(e)),
            Ok(()) => {
                *last_render = now;
                let dt = settings.dt_f();
                proof {
                    vstd::arithmetic::div_mod::lemma_remainder(
                        (now - *next_render) as int,
                        dt as int,
                    );
                }
                update_time(next_render, now, dt, 1);
                proof {
                    lemma_cadence_threshold_one(*old(next_render) as int, now as int, dt as int);
                }
                (true, None)
            },
        }
    } else {
        (false, None)
    }
}

/// The update-due check (loop step seven).  If `now` has reached the
/// update deadline, invokes `update` once with the wall-clock time since
/// the previous update; on success records the update time, advances the
/// deadline with the configured catch-up threshold (`ups_reset`, zero
/// meaning backlog is never dropped), and stores the reported lag.
pub fn update_step<S, Ev, E, L: GameLogic<S, Ev, E>>(
    logic: &mut L,
    settings: &mut SchedulerSettings,
    now: u64,
    last_update: &mut u64,
    next_update: &mut u64,
    lag_update: &mut u64,
) -> (r: (bool, Option<E>))
    requires
        old(settings).wf(),
        *old(last_update) <= now,
        now <= MAX_ELAPSED,
    ensures
        final(settings).wf(),
        final(logic).trace().len() <= old(logic).trace().len() + 1,
        now < *old(next_update) ==> ({
            &&& final(logic).trace() == old(logic).trace()
            &&& r == (false, None::<E>)
            &&& *final(last_update) == *old(last_update)
            &&& *final(next_update) == *old(next_update)
            &&& *final(lag_update) == *old(lag_update)
            &&& *final(settings) == *old(settings)
        }),
        now >= *old(next_update) ==> ({
            &&& final(logic).trace() == old(logic).trace().push(
                LogicCall::Update { dt: (now - *old(last_update)) as u64, err: r.1 },
            )
            &&& (r.1 is None ==> r.0 && *final(last_update) == now && *final(next_update)
                == cadence_next(
                *old(next_update) as int,
                now as int,
                final(settings)@.dt_u as int,
                final(settings)@.ups_reset as int,
            ) && *final(next_update) <= now + final(settings)@.dt_u && *final(lag_update)
                == cadence_result(
                *old(next_update) as int,
                now as int,
                final(settings)@.dt_u as int,
                final(settings)@.ups_reset as int,
            ))
            &&& (r.1 is Some ==> !r.0 && *final(last_update) == *old(last_update)
                && *final(next_update) == *old(next_update)
                && *final(lag_update) == *old(lag_update))
        }),
{
    if now >= *next_update {
        match logic.update(now - *last_update, settings) {
            Err(e) => (false, Some(e)),
            Ok(()) => {
                *last_update = now;
                let dt = settings.dt_u();
                let max_lag = settings.ups_reset() as u64;
                proof {
                    vstd::arithmetic::div_mod::lemma_remainder(
                        (now - *next_update) as int,
                        dt as int,
                    );
                }
                *lag_update = update_time(next_update, now, dt, max_lag);
                (true, None)
            },
        }
    } else {
        (false, None)
    }
}

/// Which branch of the loop body last executed: a same-iteration /
/// next-iteration signal for when the clock must be re-read.
enum State {
    Render,
    HandleEvents,
    Update,
    Sleep,
}

/// The scheduler.  `S` is the opaque rendering surface, `Ev` the opaque
/// input event type and `E` the opaque error type of the game logic;
/// `L`, `C` and `Q` are the injected logic, clock and event source.
pub struct Scheduler<S, Ev, E, L, C, Q> {
    pub settings: SchedulerSettings,
    pub last_update: u64,
    pub lag_update: u64,
    pub last_render: u64,
    pub game_logic: L,
    pub game_clock: C,
    pub eventsloop: Q,
    pub display: S,
    pub marker: PhantomData<(Ev, E)>,
}

impl<S, Ev, E, L: GameLogic<S, Ev, E>, C: GameClock, Q: EventSource<Ev>> Scheduler<
    S,
    Ev,
    E,
    L,
    C,
    Q,
> {
    /// Builds a scheduler from its externally constructed collaborators.
    pub fn new(display: S, eventsloop: Q, settings: SchedulerSettings, game_logic: L, game_clock: C) -> (s:
        Self)
        ensures
            s.settings == settings,
            s.last_update == 0,
            s.lag_update == 0,
            s.last_render == 0,
            s.game_logic == game_logic,
            s.game_clock == game_clock,
            s.eventsloop == eventsloop,
            s.display == display,
    {
        Scheduler {
            settings,
            last_update: 0,
            lag_update: 0,
            last_render: 0,
            game_logic,
            game_clock,
            eventsloop,
            display,
            marker: PhantomData,
        }
    }

    /// Replaces the game logic before the run starts.
    pub fn set_game_logic(self, game_logic: L) -> (s: Self)
        ensures
            s == (Scheduler { game_logic, ..self }),
    {
        Scheduler { game_logic, ..self }
    }

    /// Replaces the clock before the run starts.
    pub fn set_game_clock(self, game_clock: C) -> (s: Self)
        ensures
            s == (Scheduler { game_clock, ..self }),
    {
        Scheduler { game_clock, ..self }
    }

    pub fn get_eventsloop(&self) -> (r: &Q)
        ensures
            *r == self.eventsloop,
    {
        &self.eventsloop
    }

    /// Runs the loop: resets the clock, initializes the logic, then per
    /// iteration checks the render deadline, refreshes the time, sleeps
    /// until the nearest deadline, drains pending input events (each may
    /// request early termination), and checks the update deadline — with
    /// a clock query only where the preceding branch may have consumed
    /// time.  Exits on the first hook error or on a close request, then
    /// finalizes exactly once with the recorded error; the outcome of
    /// `finalize` is the outcome of the run.
    ///
    /// What the run does to the logic is pinned by its ghost call trace:
    /// the records this call appends satisfy [`run_trace`], the `outcome`
    /// of the closing `Finalize` record is exactly this call's own
    /// result, and work is owed regardless of what the collaborators do:
    /// after a successful `init` the first iteration's render check
    /// always fires (both deadlines start at the entry reading and the
    /// clock never goes backward), and after a clean first render the
    /// run does not stop silently — an event is handled or the first
    /// update fires.  The stored last-render and last-update timestamps
    /// are zeroed at entry and end as the telescoped sums of the
    /// successful render and update `dt` values.  The clock is reset
    /// before it is read: its reading history afterward holds only this
    /// run's readings, at least the entry one; and the first render's
    /// `dt` is exactly the second reading — the first iteration's
    /// refreshed time, the deadlines having started at the entry
    /// reading.
    ///
    /// The loop carries an iteration budget of `u64::MAX` so that the
    /// termination checker is satisfied; at one iteration per nanosecond
    /// it would last five centuries, so every practical run ends on an
    /// error or a close request.
    pub fn run(&mut self) -> (r: Result<(), E>)
        requires
            old(self).settings.wf(),
        ensures
            final(self).settings.wf(),
            final(self).game_logic.trace().len() >= old(self).game_logic.trace().len() + 2,
            old(self).game_logic.trace() == final(self).game_logic.trace().subrange(
                0,
                old(self).game_logic.trace().len() as int,
            ),
            run_trace(
                final(self).game_logic.trace().subrange(
                    old(self).game_logic.trace().len() as int,
                    final(self).game_logic.trace().len() as int,
                ),
            ),
            ({
                let tr = final(self).game_logic.trace().subrange(
                    old(self).game_logic.trace().len() as int,
                    final(self).game_logic.trace().len() as int,
                );
                &&& (tr.last() matches LogicCall::Finalize { outcome, .. } && outcome == err_of(
                    r,
                ))
                &&& (call_err(tr[0]) is None ==> tr.len() >= 3 && tr[1] is Render)
                &&& (call_err(tr[0]) is None && is_clean(tr[1]) ==> tr.len() >= 4 && (
                tr[2] is HandleEvent || tr[2] is Update))
            }),
            final(self).last_render == render_dt_sum(final(self).game_logic.trace())
                - render_dt_sum(old(self).game_logic.trace()),
            final(self).last_update == update_dt_sum(final(self).game_logic.trace())
                - update_dt_sum(old(self).game_logic.trace()),
            final(self).game_clock.readings().len() >= 1,
            ({
                let tr = final(self).game_logic.trace().subrange(
                    old(self).game_logic.trace().len() as int,
                    final(self).game_logic.trace().len() as int,
                );
                call_err(tr[0]) is None ==> final(self).game_clock.readings().len() >= 2 && (
                tr[1] matches LogicCall::Render { dt, .. }
                    && dt == final(self).game_clock.readings()[1])
            }),
    {
        let ghost t0 = self.game_logic.trace();
        let ghost sum_r0 = render_dt_sum(t0);
        let ghost sum_u0 = update_dt_sum(t0);
        self.game_clock.reset();
        let mut now = self.game_clock.elapsed();
        self.last_update = 0;
        let mut next_update: u64 = now;
        self.last_render = 0;
        let mut next_render: u64 = now;
        let mut res: Option<E> = None;
        let mut state = State::Update;
        let ghost mut init_ok = false;
        let ghost t_base = t0.push(LogicCall::Init { err: None });
        match self.game_logic.init(&self.display, &mut self.settings) {
            Err(e) => {
                res = Some(e);
                proof {
                    assert(self.game_logic.trace() == t0.push(LogicCall::Init { err: res }));
                }
            },
            Ok(()) => {
                proof {
                    init_ok = true;
                    assert(t_base.drop_last() =~= t0);
                }
                let mut fuel: u64 = u64::MAX;
                loop
                    invariant_except_break
                        res is None,
                        clean_between(
                            self.game_logic.trace(),
                            t_base.len() as int,
                            self.game_logic.trace().len() as int,
                        ),
                    invariant
                        self.settings.wf(),
                        t_base.is_prefix_of(self.game_logic.trace()),
                        self.last_render <= now,
                        self.last_update <= now,
                        now <= MAX_ELAPSED,
                        now <= self.game_clock.last_reading(),
                        self.game_clock.last_reading() <= MAX_ELAPSED,
                        self.last_render == render_dt_sum(self.game_logic.trace()) - sum_r0,
                        self.last_update == update_dt_sum(self.game_logic.trace()) - sum_u0,
                        self.game_clock.readings().len() >= 1,
                        fuel == u64::MAX ==> next_render <= now && next_update <= now,
                        fuel == u64::MAX ==> self.game_logic.trace().len() == t_base.len(),
                        fuel == u64::MAX ==> self.game_clock.readings().len() == 1
                            && state is Update && self.last_render == 0,
                        fuel < u64::MAX ==> self.game_clock.readings().len() >= 2 && (
                        self.game_logic.trace()[t_base.len() as int] matches LogicCall::Render {
                            dt,
                            ..
                        } ==> dt == self.game_clock.readings()[1]),
                        fuel < u64::MAX ==> self.game_logic.trace().len() > t_base.len()
                            && self.game_logic.trace()[t_base.len() as int] is Render,
                        fuel < u64::MAX && is_clean(
                            self.game_logic.trace()[t_base.len() as int],
                        ) ==> self.game_logic.trace().len() > t_base.len() + 1 && (
                        self.game_logic.trace()[t_base.len() as int + 1] is HandleEvent
                            || self.game_logic.trace()[t_base.len() as int + 1] is Update),
                    ensures
                        clean_between(
                            self.game_logic.trace(),
                            t_base.len() as int,
                            self.game_logic.trace().len() - 1,
                        ),
                        self.game_logic.trace().len() > t_base.len() ==> is_loop_call(
                            self.game_logic.trace().last(),
                        ),
                        res matches Some(e) ==> self.game_logic.trace().len() > t_base.len()
                            && call_err(self.game_logic.trace().last()) == Some(e),
                        res is None ==> self.game_logic.trace().len() == t_base.len() || is_clean(
                            self.game_logic.trace().last(),
                        ) || (self.game_logic.trace().last() matches LogicCall::HandleEvent {
                            close: true,
                            err: None,
                        }),
                        self.game_logic.trace().len() > t_base.len(),
                        self.game_logic.trace()[t_base.len() as int] is Render,
                        is_clean(self.game_logic.trace()[t_base.len() as int])
                            ==> self.game_logic.trace().len() > t_base.len() + 1 && (
                        self.game_logic.trace()[t_base.len() as int + 1] is HandleEvent
                            || self.game_logic.trace()[t_base.len() as int + 1] is Update),
                        self.game_clock.readings().len() >= 2,
                        (self.game_logic.trace()[t_base.len() as int] matches LogicCall::Render {
                            dt,
                            ..
                        } ==> dt == self.game_clock.readings()[1]),
                    decreases fuel,
                {
                    if fuel == 0 {
                        break;
                    }
                    fuel = fuel - 1;

                    // step 1: the previous branch was an update (or this is
                    // the first iteration): re-read the clock
                    match state {
                        State::Update => {
                            now = self.game_clock.elapsed();
                        },
                        _ => {},
                    }

                    // step 2: render-due check
                    let ghost pre_render = self.game_logic.trace();
                    let (fired, rerr) = render_step::<S, Ev, E, L>(
                        &mut self.game_logic,
                        &self.display,
                        &mut self.settings,
                        now,
                        &mut self.last_render,
                        &mut next_render,
                    );
                    proof {
                        if self.game_logic.trace() != pre_render {
                            assert(self.game_logic.trace().drop_last() =~= pre_render);
                        }
                    }
                    match rerr {
                        Some(e) => {
                            res = Some(e);
                            break;
                        },
                        None => {},
                    }
                    if fired {
                        state = State::Render;
                    }

                    // step 3: an idle-wait decision needs the freshest time
                    now = self.game_clock.elapsed();

                    // step 4: idle wait until the nearest deadline
                    if now < next_render && now < next_update {
                        let wait = if next_render - now < next_update - now {
                            next_render - now
                        } else {
                            next_update - now
                        };
                        state = State::Sleep;
                        self.eventsloop.sleep(wait);
                    }

                    // step 5: drain pending input events
                    let mut close = false;
                    let mut events: Vec<Ev> = self.eventsloop.poll_events();
                    while events.len() > 0
                        invariant
                            self.settings.wf(),
                            t_base.is_prefix_of(self.game_logic.trace()),
                            self.last_render <= now,
                            self.last_update <= now,
                            now <= self.game_clock.last_reading(),
                            self.game_clock.last_reading() <= MAX_ELAPSED,
                            self.last_render == render_dt_sum(self.game_logic.trace()) - sum_r0,
                            self.last_update == update_dt_sum(self.game_logic.trace()) - sum_u0,
                            res is None && !close ==> clean_between(
                                self.game_logic.trace(),
                                t_base.len() as int,
                                self.game_logic.trace().len() as int,
                            ),
                            res is None && close ==> self.game_logic.trace().len() > t_base.len()
                                && clean_between(
                                self.game_logic.trace(),
                                t_base.len() as int,
                                self.game_logic.trace().len() - 1,
                            ) && is_loop_call(self.game_logic.trace().last()) && (
                            self.game_logic.trace().last() matches LogicCall::HandleEvent {
                                close: true,
                                err: None,
                            }),
                            res matches Some(e) ==> self.game_logic.trace().len() > t_base.len()
                                && clean_between(
                                self.game_logic.trace(),
                                t_base.len() as int,
                                self.game_logic.trace().len() - 1,
                            ) && is_loop_call(self.game_logic.trace().last()) && call_err(
                                self.game_logic.trace().last(),
                            ) == Some(e),
                            fuel < u64::MAX ==> self.game_logic.trace().len() > t_base.len()
                                && self.game_logic.trace()[t_base.len() as int] is Render,
                            self.game_logic.trace().len() > t_base.len() + 1 ==> (
                            self.game_logic.trace()[t_base.len() as int + 1] is HandleEvent
                                || self.game_logic.trace()[t_base.len() as int + 1] is Update),
                            fuel < u64::MAX - 1 && is_clean(
                                self.game_logic.trace()[t_base.len() as int],
                            ) ==> self.game_logic.trace().len() > t_base.len() + 1,
                            self.game_clock.readings().len() >= 1,
                            fuel < u64::MAX ==> self.game_clock.readings().len() >= 2 && (
                            self.game_logic.trace()[t_base.len() as int]
                                matches LogicCall::Render { dt, .. } ==> dt
                                == self.game_clock.readings()[1]),
                        decreases events.len(),
                    {
                        let ev = events.remove(0);
                        if res.is_none() && !close {
                            let ghost pre_event = self.game_logic.trace();
                            match self.game_logic.handle_event(
                                ev,
                                &mut self.settings,
                                &mut close,
                            ) {
                                Err(e) => {
                                    res = Some(e);
                                },
                                Ok(()) => {
                                    state = State::HandleEvents;
                                },
                            }
                            proof {
                                assert(self.game_logic.trace().drop_last() =~= pre_event);
                            }
                        }
                    }
                    if res.is_some() {
                        break;
                    }
                    if close {
                        break;
                    }

                    // step 6: an event was handled: re-read the clock
                    match state {
                        State::HandleEvents => {
                            now = self.game_clock.elapsed();
                        },
                        _ => {},
                    }

                    // step 7: update-due check
                    let ghost pre_update = self.game_logic.trace();
                    let (ufired, uerr) = update_step::<S, Ev, E, L>(
                        &mut self.game_logic,
                        &mut self.settings,
                        now,
                        &mut self.last_update,
                        &mut next_update,
                        &mut self.lag_update,
                    );
                    proof {
                        if self.game_logic.trace() != pre_update {
                            assert(self.game_logic.trace().drop_last() =~= pre_update);
                        }
                    }
                    match uerr {
                        Some(e) => {
                            res = Some(e);
                            break;
                        },
                        None => {},
                    }
                    if ufired {
                        state = State::Update;
                    }
                }
            },
        }
        let ghost t_pre = self.game_logic.trace();
        let ghost res_spec = res;
        let fr = self.game_logic.finalize(res);
        proof {
            let t1 = self.game_logic.trace();
            let tr = t1.subrange(t0.len() as int, t1.len() as int);
            assert(t1 == t_pre.push(LogicCall::Finalize { err: res_spec, outcome: err_of(fr) }));
            assert(t1.drop_last() =~= t_pre);
            if !init_ok {
                assert(t_pre.drop_last() =~= t0);
                assert(render_dt_sum(t_pre) == render_dt_sum(t0));
                assert(update_dt_sum(t_pre) == update_dt_sum(t0));
            }
            assert(render_dt_sum(t1) == render_dt_sum(t_pre));
            assert(update_dt_sum(t1) == update_dt_sum(t_pre));
            assert(self.last_render == render_dt_sum(t1) - sum_r0);
            assert(self.last_update == update_dt_sum(t1) - sum_u0);
            if init_ok {
                assert(t_base.is_prefix_of(t_pre));
                assert(t_pre[t0.len() as int] == t_base[t0.len() as int]);
                assert(t_pre[t0.len() as int] == LogicCall::Init { err: None::<E> });
                assert(t_pre.len() > t_base.len());
                assert(t_pre[t_base.len() as int] is Render);
            } else {
                assert(t_pre == t0.push(LogicCall::Init { err: res_spec }));
                assert(t_pre[t0.len() as int] == LogicCall::Init { err: res_spec });
                assert(res_spec is Some);
            }
            assert(t_pre.len() > t0.len());
            assert(tr.len() == t_pre.len() + 1 - t0.len());
            assert(tr.len() >= 2);
            assert(tr[0] == t1[t0.len() as int]);
            assert(t1[t0.len() as int] == t_pre[t0.len() as int]);
            assert(tr[0] is Init);
            assert(tr.last() == t1[t1.len() - 1]);
            assert(tr.last() == LogicCall::Finalize { err: res_spec, outcome: err_of(fr) });
            assert forall|i: int| 0 < i < tr.len() - 1 implies is_loop_call(#[trigger] tr[i]) by {
                assert(tr[i] == t1[t0.len() + i]);
                assert(t1[t0.len() + i] == t_pre[t0.len() + i]);
                assert(t_base.len() <= t0.len() + i < t_pre.len());
                if t0.len() + i < t_pre.len() - 1 {
                    assert(is_clean(t_pre[t0.len() + i]) && is_loop_call(t_pre[t0.len() + i]));
                } else {
                    assert(t_pre[t0.len() + i] == t_pre.last());
                }
            }
            assert forall|i: int| 0 < i < tr.len() - 2 implies is_clean(#[trigger] tr[i]) by {
                assert(tr[i] == t1[t0.len() + i]);
                assert(t1[t0.len() + i] == t_pre[t0.len() + i]);
                assert(t_base.len() <= t0.len() + i < t_pre.len() - 1);
            }
            assert(call_err(tr[0]) == (if init_ok {
                None
            } else {
                res_spec
            }));
            if init_ok {
                if t_pre.len() > t_base.len() {
                    assert(tr.len() > 2);
                    assert(tr[tr.len() - 2] == t1[t1.len() - 2]);
                    assert(t1[t1.len() - 2] == t_pre[t_pre.len() - 1]);
                    assert(t_pre[t_pre.len() - 1] == t_pre.last());
                    if res_spec is Some {
                        assert(call_err(t_pre.last()) == res_spec);
                    } else {
                        assert(is_clean(t_pre.last()) || (t_pre.last()
                            matches LogicCall::HandleEvent { close: true, err: None }));
                        assert(call_err(t_pre.last()) is None);
                    }
                    assert(run_recorded_err(tr) == res_spec);
                } else {
                    assert(t_pre.len() == t_base.len());
                    assert(tr.len() == 2);
                    assert(res_spec is None);
                    assert(run_recorded_err(tr) == res_spec);
                }
            } else {
                assert(run_recorded_err(tr) == call_err(tr[0]));
                assert(run_recorded_err(tr) == res_spec);
            }
            assert(call_err(tr[0]) is Some ==> tr.len() == 2);
            assert(run_trace(tr));
            if init_ok {
                assert(tr[1] == t1[t0.len() as int + 1]);
                assert(t1[t0.len() as int + 1] == t_pre[t0.len() as int + 1]);
                assert(tr[1] == t_pre[t_base.len() as int]);
                assert(tr.len() >= 3);
                assert(tr[1] is Render);
                if is_clean(tr[1]) {
                    assert(t_pre.len() > t_base.len() + 1);
                    assert(tr[2] == t1[t0.len() as int + 2]);
                    assert(t1[t0.len() as int + 2] == t_pre[t0.len() as int + 2]);
                    assert(tr[2] == t_pre[t_base.len() as int + 1]);
                    assert(tr[2] is HandleEvent || tr[2] is Update);
                    assert(tr.len() >= 4);
                }
            } else {
                assert(call_err(tr[0]) is Some);
            }
            assert forall|i: int| 0 <= i < t0.len() implies t1[i] == t0[i] by {
                assert(t1[i] == t_pre[i]);
                if init_ok {
                    assert(t_pre[i] == t_base[i]);
                    assert(t_base[i] == t0[i]);
                } else {
                    assert(t_pre[i] == t0[i]);
                }
            }
            assert(t0 =~= t1.subrange(0, t0.len() as int));
        }
        fr
    }
}

} // verus!
