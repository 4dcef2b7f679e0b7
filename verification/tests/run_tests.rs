use gameloop::clock::{GameClock, StdGameClock};
use gameloop::events::EventSource;
use gameloop::logic::{EmptyGameLogic, GameLogic, InputEvent};
use gameloop::scheduler::Scheduler;
use gameloop::settings::SchedulerSettings;

/// A clock that replays a fixed list of readings, then sticks at the
/// last one.
struct ScriptClock {
    readings: Vec<u64>,
    i: usize,
}

impl ScriptClock {
    fn new(readings: Vec<u64>) -> Self {
        ScriptClock { readings, i: 0 }
    }
}

impl GameClock for ScriptClock {
    fn reset(&mut self) -> u64 {
        0
    }

    fn elapsed(&mut self) -> u64 {
        let v = if self.i < self.readings.len() {
            self.readings[self.i]
        } else if self.readings.is_empty() {
            0
        } else {
            self.readings[self.readings.len() - 1]
        };
        self.i += 1;
        v
    }
}

/// An event source that replays one queued batch per drain and records
/// every requested sleep.
struct ScriptEvents {
    polls: Vec<Vec<InputEvent<u8>>>,
    i: usize,
    sleeps: Vec<u64>,
}

impl ScriptEvents {
    fn new(polls: Vec<Vec<InputEvent<u8>>>) -> Self {
        ScriptEvents { polls, i: 0, sleeps: Vec::new() }
    }
}

impl EventSource<InputEvent<u8>> for ScriptEvents {
    fn poll_events(&mut self) -> Vec<InputEvent<u8>> {
        let batch = if self.i < self.polls.len() {
            std::mem::take(&mut self.polls[self.i])
        } else {
            Vec::new()
        };
        self.i += 1;
        batch
    }

    fn sleep(&mut self, nanos: u64) {
        self.sleeps.push(nanos);
    }
}

#[derive(Debug, PartialEq, Clone)]
enum Call {
    Init,
    Render(u64),
    Update(u64),
    HandleEvent,
    Finalize(Option<String>),
}

/// Logic that records every hook invocation and can be told to fail any
/// hook; closes on a close request like the default logic.
struct TestLogic {
    calls: Vec<Call>,
    fail_init: bool,
    fail_render: bool,
    fail_update: bool,
    fail_event: bool,
}

impl TestLogic {
    fn new() -> Self {
        TestLogic {
            calls: Vec::new(),
            fail_init: false,
            fail_render: false,
            fail_update: false,
            fail_event: false,
        }
    }
}

impl GameLogic<(), InputEvent<u8>, String> for TestLogic {
    fn init(&mut self, _surface: &(), _settings: &mut SchedulerSettings) -> Result<(), String> {
        self.calls.push(Call::Init);
        if self.fail_init {
            return Err(String::from("init failed"));
        }
        Ok(())
    }

    fn render(
        &mut self,
        dt: u64,
        _surface: &(),
        _settings: &mut SchedulerSettings,
    ) -> Result<(), String> {
        self.calls.push(Call::Render(dt));
        if self.fail_render {
            return Err(String::from("render failed"));
        }
        Ok(())
    }

    fn update(&mut self, dt: u64, _settings: &mut SchedulerSettings) -> Result<(), String> {
        self.calls.push(Call::Update(dt));
        if self.fail_update {
            return Err(String::from("update failed"));
        }
        Ok(())
    }

    fn handle_event(
        &mut self,
        event: InputEvent<u8>,
        _settings: &mut SchedulerSettings,
        close: &mut bool,
    ) -> Result<(), String> {
        self.calls.push(Call::HandleEvent);
        if self.fail_event {
            return Err(String::from("event failed"));
        }
        if let InputEvent::CloseRequested = event {
            *close = true;
        }
        Ok(())
    }

    fn finalize(&mut self, err: Option<String>) -> Result<(), String> {
        self.calls.push(Call::Finalize(err));
        Ok(())
    }
}

type TestScheduler = Scheduler<(), InputEvent<u8>, String, TestLogic, ScriptClock, ScriptEvents>;

fn fast_settings() -> SchedulerSettings {
    // ten-nanosecond cadence for both render and update
    let mut s = SchedulerSettings::default();
    s.set_fps(100_000_000);
    s.set_ups(100_000_000);
    s
}

#[test]
fn scenario_trace_with_minimal_clock_queries() {
    // readings consumed: entry, pre-render (iter 1), post-render (iter 1),
    // pre-render (iter 2), post-render (iter 2); the close request during
    // the second drain ends the loop before a further update.
    let clock = ScriptClock::new(vec![0, 5, 12, 20, 31]);
    let events = ScriptEvents::new(vec![vec![], vec![InputEvent::CloseRequested]]);
    let mut s: TestScheduler = Scheduler::new((), events, fast_settings(), TestLogic::new(), clock);
    let r = s.run();
    assert!(r.is_ok());
    assert_eq!(
        s.game_logic.calls,
        vec![
            Call::Init,
            Call::Render(5),
            Call::Update(12),
            Call::Render(15),
            Call::HandleEvent,
            Call::Finalize(None),
        ]
    );
    // every scripted reading was consumed, and none beyond them
    assert_eq!(s.game_clock.i, 5);
    // the stored timestamps are the times of the last successful calls
    assert_eq!(s.last_render, 20);
    assert_eq!(s.last_update, 12);
    assert_eq!(s.lag_update, 1);
}

#[test]
fn render_fires_once_per_check() {
    // a hundred frames behind, yet a single check renders exactly once
    let clock = ScriptClock::new(vec![0, 1000, 1000, 1000, 1000]);
    let events = ScriptEvents::new(vec![vec![], vec![InputEvent::CloseRequested]]);
    let mut s: TestScheduler = Scheduler::new((), events, fast_settings(), TestLogic::new(), clock);
    let r = s.run();
    assert!(r.is_ok());
    let renders = s.game_logic.calls.iter().filter(|c| matches!(c, Call::Render(_))).count();
    assert_eq!(renders, 1);
}

#[test]
fn close_request_stops_before_update() {
    // update is due at the time of the drain, yet the close request wins
    let clock = ScriptClock::new(vec![100]);
    let events =
        ScriptEvents::new(vec![vec![InputEvent::CloseRequested, InputEvent::Other(7)]]);
    let mut s: TestScheduler = Scheduler::new((), events, fast_settings(), TestLogic::new(), clock);
    let r = s.run();
    assert!(r.is_ok());
    // the event after the close request is consumed but never handed over
    assert_eq!(
        s.game_logic.calls,
        vec![Call::Init, Call::Render(100), Call::HandleEvent, Call::Finalize(None)]
    );
}

#[test]
fn update_error_reaches_finalize() {
    let clock = ScriptClock::new(vec![0, 5, 12]);
    let events = ScriptEvents::new(vec![]);
    let mut logic = TestLogic::new();
    logic.fail_update = true;
    let mut s: TestScheduler = Scheduler::new((), events, fast_settings(), logic, clock);
    let r = s.run();
    assert!(r.is_ok());
    assert_eq!(
        s.game_logic.calls,
        vec![
            Call::Init,
            Call::Render(5),
            Call::Update(12),
            Call::Finalize(Some(String::from("update failed"))),
        ]
    );
}

#[test]
fn render_error_reaches_finalize() {
    let clock = ScriptClock::new(vec![0, 5]);
    let events = ScriptEvents::new(vec![]);
    let mut logic = TestLogic::new();
    logic.fail_render = true;
    let mut s: TestScheduler = Scheduler::new((), events, fast_settings(), logic, clock);
    let r = s.run();
    assert!(r.is_ok());
    assert_eq!(
        s.game_logic.calls,
        vec![Call::Init, Call::Render(5), Call::Finalize(Some(String::from("render failed")))]
    );
}

#[test]
fn init_error_skips_loop() {
    let clock = ScriptClock::new(vec![0]);
    let events = ScriptEvents::new(vec![]);
    let mut logic = TestLogic::new();
    logic.fail_init = true;
    let mut s: TestScheduler = Scheduler::new((), events, fast_settings(), logic, clock);
    let r = s.run();
    assert!(r.is_ok());
    assert_eq!(
        s.game_logic.calls,
        vec![Call::Init, Call::Finalize(Some(String::from("init failed")))]
    );
}

#[test]
fn event_error_suppresses_rest_of_drain() {
    let clock = ScriptClock::new(vec![100]);
    let events = ScriptEvents::new(vec![vec![InputEvent::Other(1), InputEvent::Other(2)]]);
    let mut logic = TestLogic::new();
    logic.fail_event = true;
    let mut s: TestScheduler = Scheduler::new((), events, fast_settings(), logic, clock);
    let r = s.run();
    assert!(r.is_ok());
    // one event handled and failed; the second was consumed silently
    assert_eq!(
        s.game_logic.calls,
        vec![
            Call::Init,
            Call::Render(100),
            Call::HandleEvent,
            Call::Finalize(Some(String::from("event failed"))),
        ]
    );
}

#[test]
fn idle_wait_is_smaller_deadline_gap() {
    let mut settings = SchedulerSettings::default();
    settings.set_fps(100_000_000); // dt_f = 10
    settings.set_ups(50_000_000); // dt_u = 20
    let clock = ScriptClock::new(vec![0]);
    let events = ScriptEvents::new(vec![vec![], vec![InputEvent::CloseRequested]]);
    let mut s: TestScheduler = Scheduler::new((), events, settings, TestLogic::new(), clock);
    let r = s.run();
    assert!(r.is_ok());
    // second iteration: render deadline 10, update deadline 20, now 0
    assert_eq!(s.eventsloop.sleeps, vec![10]);
}

#[test]
fn empty_logic_closes_on_close_request() {
    let clock = ScriptClock::new(vec![0]);
    let events = ScriptEvents::new(vec![vec![InputEvent::Other(3)], vec![
        InputEvent::CloseRequested,
    ]]);
    let logic: EmptyGameLogic<(), u8, String> = EmptyGameLogic::new();
    let mut s: Scheduler<
        (),
        InputEvent<u8>,
        String,
        EmptyGameLogic<(), u8, String>,
        ScriptClock,
        ScriptEvents,
    > = Scheduler::new((), events, SchedulerSettings::default(), logic, clock);
    let r = s.run();
    assert!(r.is_ok());
}

#[test]
fn empty_logic_close_flag_exact() {
    let mut l: EmptyGameLogic<(), u8, String> = EmptyGameLogic::new();
    let mut s = SchedulerSettings::default();
    let mut close = false;
    assert!(l.handle_event(InputEvent::Other(9), &mut s, &mut close).is_ok());
    assert!(!close);
    assert!(l.handle_event(InputEvent::CloseRequested, &mut s, &mut close).is_ok());
    assert!(close);
    // once set, the flag is never cleared
    assert!(l.handle_event(InputEvent::Other(1), &mut s, &mut close).is_ok());
    assert!(close);
    // the settings are never touched
    assert_eq!(s.dt_f(), 16_666_666);
    assert_eq!(s.dt_u(), 16_666_666);
    assert!(l.init(&(), &mut s).is_ok());
    assert!(l.update(7, &mut s).is_ok());
    assert!(l.render(7, &(), &mut s).is_ok());
    assert!(l.finalize(Some(String::from("late"))).is_ok());
    assert_eq!(s.fps(), 60);
}

#[test]
fn render_step_waits_for_deadline() {
    let mut logic = TestLogic::new();
    let mut settings = fast_settings();
    let mut last_render: u64 = 0;
    let mut next_render: u64 = 50;
    let (fired, err) = gameloop::scheduler::render_step(
        &mut logic,
        &(),
        &mut settings,
        40,
        &mut last_render,
        &mut next_render,
    );
    assert!(!fired);
    assert!(err.is_none());
    assert!(logic.calls.is_empty());
    assert_eq!(next_render, 50);
}

#[test]
fn update_step_fires_and_reports_lag() {
    let mut logic = TestLogic::new();
    let mut settings = fast_settings(); // dt_u = 10
    let mut last_update: u64 = 5;
    let mut next_update: u64 = 20;
    let mut lag_update: u64 = 0;
    let (fired, err) = gameloop::scheduler::update_step(
        &mut logic,
        &mut settings,
        55,
        &mut last_update,
        &mut next_update,
        &mut lag_update,
    );
    assert!(fired);
    assert!(err.is_none());
    assert_eq!(logic.calls, vec![Call::Update(50)]);
    assert_eq!(last_update, 55);
    // backlog of three whole steps retained: snapping is disabled
    assert_eq!(next_update, 30);
    assert_eq!(lag_update, 3);
}

#[test]
fn std_clock_is_monotonic() {
    let mut c = StdGameClock::default();
    let a = c.elapsed();
    let b = c.elapsed();
    assert!(a <= b);
    let _since = c.reset();
    let d = c.elapsed();
    let e = c.elapsed();
    assert!(d <= e);
}
