use openlaunch::config::MonitorConfig;
use openlaunch::launch_monitor::LaunchMonitor;
use openlaunch::mock_radar::{
    ball_reading_speed, ball_speed_bounds, club_reading_speed, generate_shot_sequence,
};
use openlaunch::ops243::{
    find_bytes, line_end, needs_carriage_return, reading_from_signed, select_port,
};
use openlaunch::shot::{ClubType, Direction};

#[test]
fn signed_speed_gives_direction() {
    let away = reading_from_signed(-14050, Some(12345), 7);
    assert_eq!(away.speed, 14050);
    assert_eq!(away.direction, Direction::Outbound);
    assert_eq!(away.magnitude, Some(12345));
    assert_eq!(away.timestamp, 7);
    let toward = reading_from_signed(9000, None, 8);
    assert_eq!(toward.speed, 9000);
    assert_eq!(toward.direction, Direction::Inbound);
    let still = reading_from_signed(0, None, 9);
    assert_eq!(still.speed, 0);
    assert_eq!(still.direction, Direction::Outbound);
    assert_eq!(reading_from_signed(i32::MIN, None, 0).speed, 2_147_483_648);
}

#[test]
fn setting_commands_need_carriage_return() {
    assert!(needs_carriage_return("R>10"));
    assert!(needs_carriage_return("S<"));
    assert!(needs_carriage_return("S=20"));
    assert!(!needs_carriage_return("OJ"));
    assert!(!needs_carriage_return("??"));
    assert!(!needs_carriage_return(""));
}

#[test]
fn first_line_feed_is_found() {
    assert_eq!(line_end(b"12.5\n-3.0\n"), Some(4));
    assert_eq!(line_end(b"\n"), Some(0));
    assert_eq!(line_end(b"{\"speed\": -3"), None);
    assert_eq!(line_end(b""), None);
}

#[test]
fn byte_search() {
    assert!(find_bytes(&b"/dev/ttyACM0".to_vec(), &b"ttyACM".to_vec()));
    assert!(find_bytes(&b"abc".to_vec(), &Vec::new()));
    assert!(!find_bytes(&b"ttyS0".to_vec(), &b"ttyACM0".to_vec()));
    assert!(!find_bytes(&b"tty".to_vec(), &b"ttyUSB0".to_vec()));
}

#[test]
fn port_selection_prefers_known_patterns() {
    let ports = vec![b"/dev/ttyS0".to_vec(), b"/dev/ttyACM0".to_vec()];
    let patterns = vec![b"/dev/ttyACM0".to_vec(), b"/dev/ttyUSB0".to_vec()];
    assert_eq!(select_port(&ports, &patterns), Some(1));
    let others = vec![b"/dev/ttyS0".to_vec(), b"/dev/ttyS1".to_vec()];
    assert_eq!(select_port(&others, &patterns), Some(0));
    assert_eq!(select_port(&Vec::new(), &patterns), None);
    let windows = vec![b"COM1".to_vec(), b"COM4".to_vec()];
    let com = vec![b"COM3".to_vec(), b"COM4".to_vec()];
    assert_eq!(select_port(&windows, &com), Some(1));
}

#[test]
fn simulated_speed_profiles() {
    // 70% of club speed at the start of the downswing, 85% halfway.
    assert_eq!(club_reading_speed(10000, 0, 40, 0), 7000);
    assert_eq!(club_reading_speed(10000, 20, 40, 150), 8650);
    assert_eq!(club_reading_speed(1000, 0, 40, -200), 1500);
    // 5% decay over the whole flight; halfway gives 2.5%.
    assert_eq!(ball_reading_speed(15000, 100, 200, 0), 14625);
    assert_eq!(ball_reading_speed(15000, 0, 200, -300), 14700);
}

#[test]
fn ball_speed_ranges_by_shot_number() {
    assert_eq!(ball_speed_bounds(5), (15000, 18000));
    assert_eq!(ball_speed_bounds(15), (15000, 18000));
    assert_eq!(ball_speed_bounds(3), (8000, 11000));
    assert_eq!(ball_speed_bounds(1), (11000, 15000));
}

#[test]
fn simulated_shot_is_segmented_as_one_shot() {
    let mut rng = rand::thread_rng();
    let base = 1_700_000_000_000_000;
    for shot_number in 1..=10u64 {
        let readings = generate_shot_sequence(&mut rng, shot_number, base);
        assert!(readings.len() >= 6 && readings.len() <= 8);
        for (i, r) in readings.iter().enumerate() {
            assert_eq!(r.direction, Direction::Outbound);
            assert!(r.speed >= 3300 && r.speed <= 18300);
            let magnitude = r.magnitude.expect("magnitude");
            assert!((20_000..150_000).contains(&magnitude));
            assert!(r.timestamp >= base && r.timestamp < base + 160_000);
            if i > 0 {
                assert!(readings[i - 1].timestamp < r.timestamp);
            }
        }
        assert_eq!(readings[0].timestamp, base);
        let mut m = LaunchMonitor::new(MonitorConfig::default(), ClubType::Driver, true);
        for r in &readings {
            assert!(m.accepts_reading(r));
        }
        for r in &readings {
            assert!(m.on_reading(*r, 0, 0).is_none());
        }
        let shot = m.check_shot_timeout(600_000, 0).expect("simulated shot");
        let (lo, hi) = ball_speed_bounds(shot_number);
        assert!(shot.ball_speed as i64 >= lo - 300 && (shot.ball_speed as i64) < hi + 300);
        assert_eq!(shot.readings, readings);
    }
}
