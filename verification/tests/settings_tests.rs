use gameloop::resource::Resource;
use gameloop::scheduler::update_time;
use gameloop::settings::SchedulerSettings;
use gameloop::util::duration_to_nanos;

#[test]
fn default_settings() {
    let s = SchedulerSettings::default();
    assert_eq!(s.fps(), 60);
    assert_eq!(s.dt_f(), 16_666_666);
    assert_eq!(s.ups(), 60);
    assert_eq!(s.dt_u(), 16_666_666);
    assert_eq!(s.ups_reset(), 0);
    assert!(!s.lazy());
}

#[test]
fn set_fps_derives_duration() {
    let mut s = SchedulerSettings::default();
    s.set_fps(100);
    assert_eq!(s.fps(), 100);
    assert_eq!(s.dt_f(), 10_000_000);
    s.set_fps(3);
    assert_eq!(s.dt_f(), 333_333_333);
    s.set_fps(1_000_000_000);
    assert_eq!(s.dt_f(), 1);
}

#[test]
fn set_ups_derives_duration() {
    let mut s = SchedulerSettings::default();
    s.set_ups(50);
    assert_eq!(s.ups(), 50);
    assert_eq!(s.dt_u(), 20_000_000);
    assert_eq!(s.dt_f(), 16_666_666);
}

#[test]
fn zero_rate_keeps_duration() {
    let mut s = SchedulerSettings::default();
    s.set_fps(100);
    s.set_fps(0);
    assert_eq!(s.fps(), 0);
    assert_eq!(s.dt_f(), 10_000_000);
    s.set_ups(25);
    s.set_ups(0);
    assert_eq!(s.ups(), 0);
    assert_eq!(s.dt_u(), 40_000_000);
}

#[test]
fn rate_beyond_one_billion_derives_zero() {
    let mut s = SchedulerSettings::default();
    s.set_fps(2_000_000_000);
    assert_eq!(s.fps(), 2_000_000_000);
    assert_eq!(s.dt_f(), 0);
    s.set_ups(4_000_000_000);
    assert_eq!(s.dt_u(), 0);
}

#[test]
fn setters_chain() {
    let mut s = SchedulerSettings::default();
    s.set_fps(100).set_ups(50).set_ups_reset(2).set_lazy(true);
    assert_eq!(s.fps(), 100);
    assert_eq!(s.dt_f(), 10_000_000);
    assert_eq!(s.ups(), 50);
    assert_eq!(s.dt_u(), 20_000_000);
    assert_eq!(s.ups_reset(), 2);
    assert!(s.lazy());
}

#[test]
fn set_ups_reset_and_lazy() {
    let mut s = SchedulerSettings::default();
    s.set_ups_reset(3);
    assert_eq!(s.ups_reset(), 3);
    s.set_lazy(true);
    assert!(s.lazy());
    assert_eq!(s.dt_f(), 16_666_666);
    assert_eq!(s.dt_u(), 16_666_666);
}

#[test]
fn cadence_steady_without_snapping() {
    let mut next: u64 = 100;
    let lag = update_time(&mut next, 105, 10, 0);
    assert_eq!(next, 110);
    assert_eq!(lag, 0);
    let lag = update_time(&mut next, 115, 10, 0);
    assert_eq!(next, 120);
    assert_eq!(lag, 0);
}

#[test]
fn cadence_snaps_at_threshold() {
    let mut next: u64 = 0;
    let lag = update_time(&mut next, 55, 10, 3);
    assert_eq!(next, 60);
    assert_eq!(lag, 0);
}

#[test]
fn cadence_retains_backlog_when_disabled() {
    let mut next: u64 = 0;
    let lag = update_time(&mut next, 55, 10, 0);
    assert_eq!(next, 10);
    assert_eq!(lag, 5);
}

#[test]
fn cadence_below_threshold_keeps_backlog() {
    let mut next: u64 = 0;
    let lag = update_time(&mut next, 25, 10, 3);
    assert_eq!(next, 10);
    assert_eq!(lag, 2);
}

#[test]
fn cadence_near_the_top_of_the_range() {
    let start: u64 = u64::MAX - 1_000_000_000;
    let mut next: u64 = start;
    let lag = update_time(&mut next, start, 1_000_000_000, 0);
    assert_eq!(next, u64::MAX);
    assert_eq!(lag, 0);
    // `now` itself may sit within one step of the top, as long as the
    // advanced deadline still fits
    let mut next: u64 = u64::MAX - 20;
    let lag = update_time(&mut next, u64::MAX - 5, 10, 0);
    assert_eq!(next, u64::MAX - 10);
    assert_eq!(lag, 1);
}

#[test]
fn duration_conversion() {
    assert_eq!(duration_to_nanos(0, 0), 0);
    assert_eq!(duration_to_nanos(2, 500), 2_000_000_500);
    assert_eq!(duration_to_nanos(1, 999_999_999), 1_999_999_999);
    assert_eq!(duration_to_nanos(18_446_744_073, 709_551_615), u64::MAX);
}

#[test]
fn join_relative_path() {
    let r = Resource::new(String::from("base"));
    assert_eq!(r.join("rsc/tex.png"), "base/rsc/tex.png");
}

#[test]
fn join_absolute_path() {
    let r = Resource::new(String::from("base"));
    assert_eq!(r.join("/etc/conf"), "/etc/conf");
}
