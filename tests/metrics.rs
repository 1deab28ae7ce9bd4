use openlaunch::shot::{estimate_carry_distance, ClubType, Shot};

fn shot(ball_speed: u32, club_speed: Option<u32>, club: ClubType) -> Shot {
    Shot {
        ball_speed,
        timestamp: 0,
        club_speed,
        peak_magnitude: None,
        readings: Vec::new(),
        club,
    }
}

#[test]
fn carry_below_table_scales_from_origin() {
    // 136 yards at 100 mph, scaled to 90 mph.
    assert_eq!(estimate_carry_distance(9000, ClubType::Driver), 1224);
    assert_eq!(estimate_carry_distance(10000, ClubType::Driver), 1360);
    assert_eq!(estimate_carry_distance(0, ClubType::Driver), 0);
}

#[test]
fn carry_above_table_adds_slope() {
    // 395.5 yards at 210 mph plus 1.8 yards per mph.
    assert_eq!(estimate_carry_distance(21000, ClubType::Driver), 3955);
    assert_eq!(estimate_carry_distance(22000, ClubType::Driver), 4135);
}

#[test]
fn carry_interpolates_between_rows() {
    assert_eq!(estimate_carry_distance(14500, ClubType::Driver), 2522);
    // The 160-167 mph segment falls from 288.5 to 280 yards.
    assert_eq!(estimate_carry_distance(16300, ClubType::Driver), 2848);
    assert_eq!(estimate_carry_distance(16700, ClubType::Driver), 2800);
}

#[test]
fn carry_scales_by_club() {
    assert_eq!(estimate_carry_distance(15000, ClubType::Iron7), 2010);
    assert_eq!(estimate_carry_distance(15000, ClubType::Pw), 1772);
    assert_eq!(estimate_carry_distance(15000, ClubType::Unknown), 2645);
    assert_eq!(estimate_carry_distance(15000, ClubType::Wood3), 2539);
}

#[test]
fn speeds_in_metres_per_second() {
    let s = shot(14000, Some(9500), ClubType::Driver);
    assert_eq!(s.ball_speed_ms(), 6258);
    assert_eq!(s.club_speed_ms(), Some(4246));
    assert_eq!(shot(14000, None, ClubType::Driver).club_speed_ms(), None);
}

#[test]
fn smash_factor_needs_positive_club_speed() {
    assert_eq!(shot(14000, Some(9500), ClubType::Driver).smash_factor(), Some(1474));
    assert_eq!(shot(15000, Some(10000), ClubType::Driver).smash_factor(), Some(1500));
    // Within 0.1% of the ball speed, still above 1.000.
    assert_eq!(shot(10000, Some(9995), ClubType::Driver).smash_factor(), Some(1001));
    assert_eq!(shot(14000, Some(0), ClubType::Driver).smash_factor(), None);
    assert_eq!(shot(14000, None, ClubType::Driver).smash_factor(), None);
}

#[test]
fn carry_range_is_ten_percent_either_way() {
    let s = shot(12000, None, ClubType::Iron5);
    let base = s.estimated_carry_yards();
    assert_eq!(base, 1558);
    assert_eq!(s.estimated_carry_range(), (14022, 17138));
}
