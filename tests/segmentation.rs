use openlaunch::config::MonitorConfig;
use openlaunch::launch_monitor::{LaunchMonitor, MonitorEvent};
use openlaunch::shot::{ClubType, Direction, Shot, SpeedReading};

const MS: u64 = 1_000;

fn out(speed_mph: u32, ts_ms: u64, magnitude: Option<u32>) -> SpeedReading {
    SpeedReading {
        speed: speed_mph * 100,
        direction: Direction::Outbound,
        magnitude: magnitude.map(|m| m * 100),
        timestamp: 1_000_000_000 + ts_ms * MS,
    }
}

fn monitor() -> LaunchMonitor {
    LaunchMonitor::new(MonitorConfig::default(), ClubType::Driver, true)
}

fn feed(m: &mut LaunchMonitor, readings: &[SpeedReading], now: u64) -> Vec<Shot> {
    let mut shots = Vec::new();
    for r in readings {
        if let Some(s) = m.on_reading(*r, now, 0) {
            shots.push(s);
        }
    }
    shots
}

fn club_then_ball_readings() -> Vec<SpeedReading> {
    vec![
        out(70, 0, Some(900)),
        out(72, 20, Some(1000)),
        out(75, 40, Some(1500)),
        out(140, 50, Some(300)),
        out(132, 70, Some(250)),
    ]
}

#[test]
fn club_dropped_when_smash_above_band() {
    let mut m = monitor();
    assert!(feed(&mut m, &club_then_ball_readings(), 0).is_empty());
    assert_eq!(m.pending_readings().len(), 5);
    let shot = m.check_shot_timeout(600 * MS, 0).expect("shot after silence gap");
    assert_eq!(shot.ball_speed, 14000);
    // 140 / 75 is about 1.87, above the 1.7 ceiling.
    assert_eq!(shot.club_speed, None);
    assert_eq!(shot.peak_magnitude, Some(150_000));
    assert_eq!(shot.readings, club_then_ball_readings());
    assert_eq!(shot.club, ClubType::Driver);
    assert!(m.pending_readings().is_empty());
}

#[test]
fn strongest_club_reported_with_wider_band() {
    let mut cfg = MonitorConfig::default();
    cfg.smash_factor_max = 1900;
    let mut m = LaunchMonitor::new(cfg, ClubType::Driver, true);
    feed(&mut m, &club_then_ball_readings(), 0);
    let shot = m.check_shot_timeout(600 * MS, 0).expect("shot");
    assert_eq!(shot.ball_speed, 14000);
    assert_eq!(shot.club_speed, Some(7500));
    assert_eq!(shot.smash_factor(), Some(1867));
}

#[test]
fn two_readings_are_discarded() {
    let mut m = monitor();
    feed(&mut m, &[out(70, 0, None), out(140, 20, None)], 0);
    assert!(m.check_shot_timeout(600 * MS, 0).is_none());
    assert!(m.pending_readings().is_empty());
}

#[test]
fn long_burst_is_discarded() {
    let mut m = monitor();
    let readings = [
        out(70, 0, None),
        out(140, 150, None),
        out(135, 300, None),
        out(130, 450, None),
    ];
    feed(&mut m, &readings, 0);
    assert!(m.check_shot_timeout(600 * MS, 0).is_none());
    assert!(m.pending_readings().is_empty());
}

#[test]
fn inbound_reading_is_ignored() {
    let mut m = monitor();
    feed(&mut m, &[out(70, 0, None), out(140, 20, None)], 0);
    let inbound = SpeedReading {
        speed: 9000,
        direction: Direction::Inbound,
        magnitude: None,
        timestamp: 1_000_030_000,
    };
    assert!(!m.accepts_reading(&inbound));
    assert!(m.on_reading(inbound, 900 * MS, 0).is_none());
    assert_eq!(m.pending_readings().len(), 2);
    assert_eq!(m.pending_readings()[1], out(140, 20, None));
}

#[test]
fn driver_carry_at_150_mph() {
    let shot = Shot {
        ball_speed: 15000,
        timestamp: 0,
        club_speed: None,
        peak_magnitude: None,
        readings: Vec::new(),
        club: ClubType::Driver,
    };
    let carry = shot.estimated_carry_yards();
    assert_eq!(carry, 2645);
    // Midpoints of the 140 and 160 mph rows: 240 and 288.5 yards.
    assert!(2400 < carry && carry < 2885);
    assert_eq!(shot.estimated_carry_range(), (carry * 9, carry * 11));
    assert_eq!(shot.estimated_carry_range(), (23805, 29095));
}

#[test]
fn flushing_empty_buffer_changes_nothing() {
    let mut m = monitor();
    assert!(m.process_shot(3).is_none());
    assert!(m.process_shot(5).is_none());
    assert!(m.pending_readings().is_empty());
    assert!(m.check_shot_timeout(10_000 * MS, 0).is_none());
    // Still behaves as a fresh engine.
    feed(&mut m, &club_then_ball_readings(), 20_000 * MS);
    assert_eq!(m.pending_readings().len(), 5);
}

#[test]
fn identical_event_sequences_give_identical_shots() {
    let mut events: Vec<MonitorEvent> = club_then_ball_readings()
        .into_iter()
        .map(|r| MonitorEvent::Reading(r, 0))
        .collect();
    events.push(MonitorEvent::Idle(100 * MS));
    events.push(MonitorEvent::Stop);
    let mut a = monitor();
    let mut b = monitor();
    let sa = a.process_events(&events, 9);
    let sb = b.process_events(&events, 9);
    assert_eq!(sa.len(), 1);
    assert_eq!(sb.len(), 1);
    assert_eq!(sa[0].ball_speed, sb[0].ball_speed);
    assert_eq!(sa[0].club_speed, sb[0].club_speed);
    assert_eq!(sa[0].peak_magnitude, sb[0].peak_magnitude);
    assert_eq!(sa[0].readings, sb[0].readings);
    assert_eq!(sa[0].club, sb[0].club);
    assert_eq!(sa[0].timestamp, 9);
}

#[test]
fn accepted_speeds_lie_in_band() {
    let m = monitor();
    let at = |speed: u32| SpeedReading {
        speed,
        direction: Direction::Outbound,
        magnitude: None,
        timestamp: 0,
    };
    assert!(m.accepts_reading(&at(3000)));
    assert!(!m.accepts_reading(&at(2999)));
    assert!(m.accepts_reading(&at(22000)));
    assert!(!m.accepts_reading(&at(22001)));
    let mut cfg = MonitorConfig::default();
    cfg.min_club_speed = 2000;
    cfg.min_ball_speed = 5000;
    let club_mode = LaunchMonitor::new(cfg, ClubType::Driver, true);
    let ball_mode = LaunchMonitor::new(cfg, ClubType::Driver, false);
    assert!(club_mode.accepts_reading(&at(2500)));
    assert!(!ball_mode.accepts_reading(&at(2500)));
    assert!(ball_mode.accepts_reading(&at(5000)));
}

#[test]
fn magnitude_band_is_enforced() {
    let m = monitor();
    let with = |magnitude: Option<u32>| SpeedReading {
        speed: 10000,
        direction: Direction::Outbound,
        magnitude,
        timestamp: 0,
    };
    assert!(m.accepts_reading(&with(None)));
    assert!(m.accepts_reading(&with(Some(2000))));
    assert!(!m.accepts_reading(&with(Some(1999))));
    assert!(m.accepts_reading(&with(Some(1_000_000))));
    assert!(!m.accepts_reading(&with(Some(1_000_001))));
    let unknown = SpeedReading { direction: Direction::Unknown, ..with(None) };
    assert!(!m.accepts_reading(&unknown));
}

#[test]
fn emitted_club_speed_is_below_ball_with_plausible_smash() {
    let readings = [
        out(90, 0, Some(800)),
        out(95, 20, Some(1200)),
        out(140, 50, Some(300)),
        out(138, 70, Some(300)),
    ];
    let mut m = monitor();
    feed(&mut m, &readings, 0);
    let shot = m.check_shot_timeout(600 * MS, 0).expect("shot");
    assert_eq!(shot.club_speed, Some(9500));
    let club = shot.club_speed.unwrap();
    assert!(club < shot.ball_speed);
    let smash = shot.smash_factor().unwrap();
    assert!((1100..=1700).contains(&smash));
    assert_eq!(smash, 1474);
}

#[test]
fn silence_gap_flushes_before_new_reading() {
    let mut m = monitor();
    feed(&mut m, &club_then_ball_readings(), 0);
    // Exactly the timeout is not yet a gap.
    assert!(m.on_reading(out(100, 80, None), 500 * MS, 0).is_none());
    assert_eq!(m.pending_readings().len(), 6);
    let shot = m.on_reading(out(100, 2000, None), 1001 * MS + 1, 77).expect("gap flush");
    assert_eq!(shot.ball_speed, 14000);
    assert_eq!(shot.readings.len(), 6);
    assert_eq!(shot.timestamp, 77);
    assert_eq!(m.pending_readings().len(), 1);
}

#[test]
fn stop_flushes_pending_shot() {
    let mut m = monitor();
    feed(&mut m, &club_then_ball_readings(), 0);
    let shot = m.handle_event(MonitorEvent::Stop, 0).expect("last-chance flush");
    assert_eq!(shot.ball_speed, 14000);
    assert!(m.handle_event(MonitorEvent::Stop, 0).is_none());
}

#[test]
fn ball_tie_takes_earliest_timestamp() {
    // Two readings share the top speed; the earlier one is the ball, so the
    // 80 mph reading at 60 ms is not before it and cannot be the club.
    let readings = [
        out(140, 100, None),
        out(80, 60, None),
        out(140, 50, None),
        out(85, 30, None),
    ];
    let mut m = monitor();
    feed(&mut m, &readings, 0);
    let shot = m.check_shot_timeout(600 * MS, 0).expect("shot");
    assert_eq!(shot.ball_speed, 14000);
    assert_eq!(shot.club_speed, Some(8500));
}

#[test]
fn club_without_magnitudes_takes_latest() {
    let readings = [
        out(85, 10, None),
        out(90, 30, None),
        out(88, 20, None),
        out(140, 50, None),
    ];
    let mut m = monitor();
    feed(&mut m, &readings, 0);
    let shot = m.check_shot_timeout(600 * MS, 0).expect("shot");
    assert_eq!(shot.club_speed, Some(9000));
    assert_eq!(shot.peak_magnitude, None);
}

#[test]
fn club_magnitude_wins_over_recency() {
    let readings = [
        out(85, 10, Some(2000)),
        out(90, 30, None),
        out(88, 20, Some(500)),
        out(140, 50, Some(300)),
    ];
    let mut m = monitor();
    feed(&mut m, &readings, 0);
    let shot = m.check_shot_timeout(600 * MS, 0).expect("shot");
    assert_eq!(shot.club_speed, Some(8500));
}

#[test]
fn club_detection_off_reports_no_club() {
    let mut m = LaunchMonitor::new(MonitorConfig::default(), ClubType::Iron7, false);
    feed(&mut m, &club_then_ball_readings(), 0);
    let shot = m.process_shot(42).expect("shot");
    assert_eq!(shot.club_speed, None);
    assert_eq!(shot.timestamp, 42);
    assert_eq!(shot.club, ClubType::Iron7);
    assert!(!m.detects_club_speed());
    assert_eq!(m.current_club(), ClubType::Iron7);
}

#[test]
fn default_config_values() {
    let cfg = MonitorConfig::default();
    assert_eq!(cfg.min_club_speed, 3000);
    assert_eq!(cfg.min_ball_speed, 4000);
    assert!(cfg.min_club_speed < cfg.min_ball_speed);
    assert_eq!(cfg.max_ball_speed, 22000);
    assert_eq!(cfg.shot_timeout_us, 500_000);
    assert_eq!(cfg.min_readings_for_shot, 3);
    assert_eq!(cfg.smash_factor_max, 1700);
    assert_eq!(monitor().config(), cfg);
}

#[test]
fn default_ball_mode_floor_is_above_club_mode_floor() {
    let at = |speed: u32| SpeedReading {
        speed,
        direction: Direction::Outbound,
        magnitude: None,
        timestamp: 0,
    };
    let club_mode = LaunchMonitor::new(MonitorConfig::default(), ClubType::Driver, true);
    let ball_mode = LaunchMonitor::new(MonitorConfig::default(), ClubType::Driver, false);
    assert!(club_mode.accepts_reading(&at(3500)));
    assert!(!ball_mode.accepts_reading(&at(3500)));
    assert!(ball_mode.accepts_reading(&at(4000)));
}

#[test]
fn rejected_burst_starts_afresh() {
    let mut m = monitor();
    feed(&mut m, &[out(70, 0, None), out(140, 20, None)], 0);
    assert!(m.check_shot_timeout(600 * MS, 0).is_none());
    assert!(m.pending_readings().is_empty());
    // The timing state went with the rejected burst: a later poll finds
    // nothing to flush and the next burst forms a shot of its own.
    assert!(m.check_shot_timeout(5_000 * MS, 0).is_none());
    feed(&mut m, &club_then_ball_readings(), 6_000 * MS);
    assert_eq!(m.pending_readings().len(), 5);
    let shot = m.check_shot_timeout(6_600 * MS, 1).expect("shot");
    assert_eq!(shot.readings.len(), 5);
}
