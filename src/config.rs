use vstd::prelude::*;

verus! {

/// Tunable thresholds of the shot segmentation engine.
///
/// Speeds are in hundredths of a mph, magnitudes in hundredths of the
/// sensor's signal unit, durations in microseconds, and ratios and smash
/// factors in thousandths.
#[derive(Clone, Copy, Debug, PartialEq, Eq, Structural)]
pub struct MonitorConfig {
    /// Lowest accepted speed while club speed is being detected.
    pub min_club_speed: u32,
    /// Highest plausible club-head speed.
    pub max_club_speed: u32,
    /// Lowest accepted speed while only ball speed is sought.
    pub min_ball_speed: u32,
    /// Highest plausible ball speed, in either mode.
    pub max_ball_speed: u32,
    /// Silence gap (arrival time) after which the buffered shot is complete.
    pub shot_timeout_us: u64,
    /// Fewest readings a shot may be made of.
    pub min_readings_for_shot: usize,
    /// How far before the ball reading a club reading may lie.
    pub club_ball_window_us: u64,
    /// Club speed at least this share of ball speed.
    pub club_speed_min_ratio: u32,
    /// Club speed at most this share of ball speed.
    pub club_speed_max_ratio: u32,
    /// Lowest plausible signal magnitude.
    pub min_magnitude: u32,
    /// Highest plausible signal magnitude.
    pub max_magnitude: u32,
    /// Longest plausible span of event timestamps within one shot.
    pub max_shot_duration_us: u64,
    /// Lowest plausible smash factor.
    pub smash_factor_min: u32,
    /// Highest plausible smash factor.
    pub smash_factor_max: u32,
}

/// The standard thresholds: club 30-140 mph, ball 40-220 mph (club heads
/// are slower than balls, so the club-mode floor lies below the ball-mode
/// floor), a 0.5 s silence gap, three readings at least, a 0.3 s club
/// window, club speed 50-85% of ball speed, magnitude 20-10000, at most
/// 0.3 s per shot, and a smash factor of 1.1-1.7.
pub open spec fn standard_config() -> MonitorConfig {
    MonitorConfig {
        min_club_speed: 3000,
        max_club_speed: 14000,
        min_ball_speed: 4000,
        max_ball_speed: 22000,
        shot_timeout_us: 500_000,
        min_readings_for_shot: 3,
        club_ball_window_us: 300_000,
        club_speed_min_ratio: 500,
        club_speed_max_ratio: 850,
        min_magnitude: 2000,
        max_magnitude: 1_000_000,
        max_shot_duration_us: 300_000,
        smash_factor_min: 1100,
        smash_factor_max: 1700,
    }
}

impl Default for MonitorConfig {
    fn default() -> (r: MonitorConfig)
        ensures
            r == standard_config(),
            r.min_club_speed < r.min_ball_speed,
    {
        MonitorConfig {
            min_club_speed: 3000,
            max_club_speed: 14000,
            min_ball_speed: 4000,
            max_ball_speed: 22000,
            shot_timeout_us: 500_000,
            min_readings_for_shot: 3,
            club_ball_window_us: 300_000,
            club_speed_min_ratio: 500,
            club_speed_max_ratio: 850,
            min_magnitude: 2000,
            max_magnitude: 1_000_000,
            max_shot_duration_us: 300_000,
            smash_factor_min: 1100,
            smash_factor_max: 1700,
        }
    }
}

} // verus!
