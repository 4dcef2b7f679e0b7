//! The game-logic callback contract: the set of hooks the scheduler
//! invokes, a ghost trace that records every invocation, and the default
//! (no-op) logic.

use vstd::prelude::*;

use core::marker::PhantomData;
use crate::settings::SchedulerSettings;

verus! {

/// The minimal event model the library itself understands: a request to
/// close the window, or any other host event carried opaquely.
pub enum InputEvent<E> {
    CloseRequested,
    Other(E),
}

/// One recorded invocation of a game-logic hook.  `err` is the error the
/// hook returned, if any; for `HandleEvent`, `close` is the state of the
/// close flag when the hook returned.  The `Finalize` record carries
/// both the error the scheduler handed in (`err`) and the error
/// `finalize` itself returned (`outcome`), which becomes the result of
/// the whole run.
pub enum LogicCall<E> {
    Init { err: Option<E> },
    Render { dt: u64, err: Option<E> },
    Update { dt: u64, err: Option<E> },
    HandleEvent { close: bool, err: Option<E> },
    Finalize { err: Option<E>, outcome: Option<E> },
}

/// The error a recorded hook invocation failed with, if any.
/// A `Finalize` record never counts as a failure: its field is the error
/// that was handed to it, not one it raised.
pub open spec fn call_err<E>(c: LogicCall<E>) -> Option<E> {
    match c {
        LogicCall::Init { err } => err,
        LogicCall::Render { err, .. } => err,
        LogicCall::Update { err, .. } => err,
        LogicCall::HandleEvent { err, .. } => err,
        LogicCall::Finalize { .. } => None,
    }
}

/// A loop-body record: a render, update or event invocation, as opposed
/// to the one-time `Init` and `Finalize` brackets.
pub open spec fn is_loop_call<E>(c: LogicCall<E>) -> bool {
    match c {
        LogicCall::Render { .. } => true,
        LogicCall::Update { .. } => true,
        LogicCall::HandleEvent { .. } => true,
        LogicCall::Init { .. } => false,
        LogicCall::Finalize { .. } => false,
    }
}

/// A loop-body record after which the loop keeps running: the hook
/// succeeded and did not request termination.
pub open spec fn is_clean<E>(c: LogicCall<E>) -> bool {
    match c {
        LogicCall::Render { err, .. } => err is None,
        LogicCall::Update { err, .. } => err is None,
        LogicCall::HandleEvent { close, err } => err is None && !close,
        LogicCall::Init { .. } => false,
        LogicCall::Finalize { .. } => false,
    }
}

/// The error of a `Result`, if any.
pub open spec fn err_of<E>(r: Result<(), E>) -> Option<E> {
    match r {
        Ok(_) => None,
        Err(e) => Some(e),
    }
}

/// The hooks the scheduler invokes.  An implementation reports an
/// unrecoverable condition by returning an error value; the scheduler
/// does not inspect it, only carries it to `finalize`.
///
/// `trace` is the ghost record of every invocation so far, in order; the
/// contract of each hook is that it appends exactly its own record.  The
/// scheduler's guarantees about callback ordering are stated over this
/// trace.  Every hook preserves well-formedness of the settings it may
/// mutate.
/// The trivial default trace suits implementations written outside the
/// verifier, which are not checked against these contracts anyway.
pub trait GameLogic<S, Ev, E>: Sized {
    open spec fn trace(&self) -> Seq<LogicCall<E>> {
        Seq::empty()
    }

    /// Called exactly once before the loop begins; may mutate settings
    /// and perform first-time setup against the rendering surface.
    fn init(&mut self, surface: &S, settings: &mut SchedulerSettings) -> (r: Result<(), E>)
        requires
            old(settings).wf(),
        ensures
            final(settings).wf(),
            final(self).trace() == old(self).trace().push(LogicCall::Init { err: err_of(r) }),
    ;

    /// Called when a render deadline has passed; `dt` is the wall-clock
    /// time in nanoseconds since the previous render call.
    fn render(&mut self, dt: u64, surface: &S, settings: &mut SchedulerSettings) -> (r: Result<
        (),
        E,
    >)
        requires
            old(settings).wf(),
        ensures
            final(settings).wf(),
            final(self).trace() == old(self).trace().push(
                LogicCall::Render { dt, err: err_of(r) },
            ),
    ;

    /// Called when an update deadline has passed; `dt` is the wall-clock
    /// time in nanoseconds since the previous update call.
    fn update(&mut self, dt: u64, settings: &mut SchedulerSettings) -> (r: Result<(), E>)
        requires
            old(settings).wf(),
        ensures
            final(settings).wf(),
            final(self).trace() == old(self).trace().push(
                LogicCall::Update { dt, err: err_of(r) },
            ),
    ;

    /// Called once per pending input event; may request loop termination
    /// by setting the close flag.
    fn handle_event(&mut self, event: Ev, settings: &mut SchedulerSettings, close: &mut bool) -> (r:
        Result<(), E>)
        requires
            old(settings).wf(),
        ensures
            final(settings).wf(),
            final(self).trace() == old(self).trace().push(
                LogicCall::HandleEvent { close: *final(close), err: err_of(r) },
            ),
    ;

    /// Called exactly once when the loop exits, with the recorded error
    /// if any; its own outcome is the final result of the whole run.
    fn finalize(&mut self, err: Option<E>) -> (r: Result<(), E>)
        ensures
            final(self).trace() == old(self).trace().push(
                LogicCall::Finalize { err, outcome: err_of(r) },
            ),
    ;
}

/// The default logic: every hook is a no-op except `handle_event`, which
/// recognizes only a close request and sets the close flag.  `S` and `T`
/// are the surface and the opaque event payload it is used with.
pub struct EmptyGameLogic<S, T, E> {
    pub calls: Ghost<Seq<LogicCall<E>>>,
    pub marker: PhantomData<(S, T)>,
}

impl<S, T, E> EmptyGameLogic<S, T, E> {
    pub fn new() -> (l: Self)
        ensures
            l.calls@ == Seq::<LogicCall<E>>::empty(),
    {
        EmptyGameLogic { calls: Ghost(Seq::empty()), marker: PhantomData }
    }
}

impl<S, T, E> Default for EmptyGameLogic<S, T, E> {
    fn default() -> (l: Self)
        ensures
            l.calls@ == Seq::<LogicCall<E>>::empty(),
    {
        EmptyGameLogic::new()
    }
}

impl<S, T, E> GameLogic<S, InputEvent<T>, E> for EmptyGameLogic<S, T, E> {
    closed spec fn trace(&self) -> Seq<LogicCall<E>> {
        self.calls@
    }

    fn init(&mut self, _surface: &S, _settings: &mut SchedulerSettings) -> (r: Result<(), E>)
        ensures
            r is Ok,
            *final(_settings) == *old(_settings),
    {
        self.calls = Ghost(self.calls@.push(LogicCall::Init { err: None }));
        Ok(())
    }

    fn render(&mut self, dt: u64, _surface: &S, _settings: &mut SchedulerSettings) -> (r: Result<
        (),
        E,
    >)
        ensures
            r is Ok,
            *final(_settings) == *old(_settings),
    {
        self.calls = Ghost(self.calls@.push(LogicCall::Render { dt, err: None }));
        Ok(())
    }

    fn update(&mut self, dt: u64, _settings: &mut SchedulerSettings) -> (r: Result<(), E>)
        ensures
            r is Ok,
            *final(_settings) == *old(_settings),
    {
        self.calls = Ghost(self.calls@.push(LogicCall::Update { dt, err: None }));
        Ok(())
    }

    /// Sets the close flag exactly on a close request; never clears it,
    /// never touches the settings, never fails.
    fn handle_event(
        &mut self,
        event: InputEvent<T>,
        _settings: &mut SchedulerSettings,
        close: &mut bool,
    ) -> (r: Result<(), E>)
        ensures
            r is Ok,
            *final(_settings) == *old(_settings),
            *final(close) == (*old(close) || event is CloseRequested),
    {
        match event {
            InputEvent::CloseRequested => {
                *close = true;
            },
            InputEvent::Other(_) => {},
        }
        self.calls = Ghost(self.calls@.push(LogicCall::HandleEvent { close: *close, err: None }));
        Ok(())
    }

    fn finalize(&mut self, err: Option<E>) -> (r: Result<(), E>)
        ensures
            r is Ok,
    {
        self.calls = Ghost(self.calls@.push(LogicCall::Finalize { err, outcome: None }));
        Ok(())
    }
}

} // verus!
