use vstd::prelude::*;

use crate::config::MonitorConfig;
use crate::shot::{Direction, SpeedReading};

verus! {

/// The lowest accepted speed: the club floor while club speed is detected,
/// the ball floor otherwise.
pub open spec fn min_speed(cfg: MonitorConfig, detect_club_speed: bool) -> u32 {
    if detect_club_speed {
        cfg.min_club_speed
    } else {
        cfg.min_ball_speed
    }
}

/// An absent magnitude passes; a present one must lie in the plausible band.
pub open spec fn magnitude_ok(cfg: MonitorConfig, m: Option<u32>) -> bool {
    match m {
        Some(v) => cfg.min_magnitude <= v <= cfg.max_magnitude,
        None => true,
    }
}

/// The acceptance filter: speed within the band of the mode, outbound, and a
/// plausible magnitude if one is reported.
pub open spec fn accepts(cfg: MonitorConfig, detect_club_speed: bool, r: SpeedReading) -> bool {
    &&& min_speed(cfg, detect_club_speed) <= r.speed <= cfg.max_ball_speed
    &&& r.direction == Direction::Outbound
    &&& magnitude_ok(cfg, r.magnitude)
}

/// The highest speed among the first `n` readings (0 for none).
pub open spec fn max_speed(s: Seq<SpeedReading>, n: int) -> u32
    decreases n,
{
    if n <= 0 {
        0
    } else {
        let m = max_speed(s, n - 1);
        if s[n - 1].speed > m {
            s[n - 1].speed
        } else {
            m
        }
    }
}

/// The earliest event timestamp among the first `n` readings whose speed is
/// `v` (`u64::MAX` for none).
pub open spec fn earliest_at_speed(s: Seq<SpeedReading>, v: u32, n: int) -> u64
    decreases n,
{
    if n <= 0 {
        u64::MAX
    } else {
        let t = earliest_at_speed(s, v, n - 1);
        if s[n - 1].speed == v && s[n - 1].timestamp < t {
            s[n - 1].timestamp
        } else {
            t
        }
    }
}

/// The earliest event timestamp among the first `n` readings.
pub open spec fn first_timestamp(s: Seq<SpeedReading>, n: int) -> u64
    decreases n,
{
    if n <= 0 {
        u64::MAX
    } else {
        let t = first_timestamp(s, n - 1);
        if s[n - 1].timestamp < t {
            s[n - 1].timestamp
        } else {
            t
        }
    }
}

/// The latest event timestamp among the first `n` readings.
pub open spec fn last_timestamp(s: Seq<SpeedReading>, n: int) -> u64
    decreases n,
{
    if n <= 0 {
        0
    } else {
        let t = last_timestamp(s, n - 1);
        if s[n - 1].timestamp > t {
            s[n - 1].timestamp
        } else {
            t
        }
    }
}

/// The largest reported magnitude among the first `n` readings (0 for none).
pub open spec fn peak_magnitude(s: Seq<SpeedReading>, n: int) -> u32
    decreases n,
{
    if n <= 0 {
        0
    } else {
        let m = peak_magnitude(s, n - 1);
        match s[n - 1].magnitude {
            Some(v) => if v > m {
                v
            } else {
                m
            },
            None => m,
        }
    }
}

/// The ball speed of a burst: its highest speed.
pub open spec fn ball_speed_of(s: Seq<SpeedReading>) -> u32 {
    max_speed(s, s.len() as int)
}

/// The ball time of a burst: the event time of the first reading, in
/// timestamp order, that has the ball speed.
pub open spec fn ball_time_of(s: Seq<SpeedReading>) -> u64 {
    earliest_at_speed(s, ball_speed_of(s), s.len() as int)
}

/// Whether the event timestamps of a burst span more than the longest
/// plausible shot.
pub open spec fn too_long(cfg: MonitorConfig, s: Seq<SpeedReading>) -> bool {
    last_timestamp(s, s.len() as int) - first_timestamp(s, s.len() as int)
        > cfg.max_shot_duration_us
}

/// The peak magnitude of a burst, absent when no reading reports a positive
/// one.
pub open spec fn peak_of(s: Seq<SpeedReading>) -> Option<u32> {
    let p = peak_magnitude(s, s.len() as int);
    if p > 0 {
        Some(p)
    } else {
        None
    }
}

/// Whether `r` may be the club reading for a ball of speed `ball` at event
/// time `ball_time`: strictly earlier and within the look-back window, at
/// least the club floor and the minimum ratio of ball speed, at most the club
/// ceiling and the maximum ratio of ball speed, and slower than the ball.
pub open spec fn is_club_candidate(
    cfg: MonitorConfig,
    r: SpeedReading,
    ball: u32,
    ball_time: u64,
) -> bool {
    &&& r.timestamp < ball_time
    &&& ball_time - r.timestamp <= cfg.club_ball_window_us
    &&& cfg.min_club_speed <= r.speed
    &&& ball as int * cfg.club_speed_min_ratio as int <= r.speed as int * 1000
    &&& r.speed <= cfg.max_club_speed
    &&& r.speed as int * 1000 <= ball as int * cfg.club_speed_max_ratio as int
    &&& r.speed < ball
}

/// The magnitude of a reading, 0 when absent.
pub open spec fn magnitude_or_zero(r: SpeedReading) -> u32 {
    match r.magnitude {
        Some(v) => v,
        None => 0,
    }
}

/// Among the first `n` readings, the club candidate with a magnitude that has
/// the highest magnitude; ties go to the later in timestamp order, and among
/// equal timestamps to the later arrival.
pub open spec fn strongest_candidate(
    cfg: MonitorConfig,
    s: Seq<SpeedReading>,
    ball: u32,
    ball_time: u64,
    n: int,
) -> Option<int>
    decreases n,
{
    if n <= 0 {
        None
    } else {
        let prev = strongest_candidate(cfg, s, ball, ball_time, n - 1);
        let i = n - 1;
        if is_club_candidate(cfg, s[i], ball, ball_time) && s[i].magnitude.is_some() {
            match prev {
                None => Some(i),
                Some(j) => if magnitude_or_zero(s[i]) > magnitude_or_zero(s[j]) || (
                magnitude_or_zero(s[i]) == magnitude_or_zero(s[j]) && s[i].timestamp
                    >= s[j].timestamp) {
                    Some(i)
                } else {
                    Some(j)
                },
            }
        } else {
            prev
        }
    }
}

/// Among the first `n` readings, the club candidate that comes last in
/// timestamp order (among equal timestamps, the later arrival).
pub open spec fn latest_candidate(
    cfg: MonitorConfig,
    s: Seq<SpeedReading>,
    ball: u32,
    ball_time: u64,
    n: int,
) -> Option<int>
    decreases n,
{
    if n <= 0 {
        None
    } else {
        let prev = latest_candidate(cfg, s, ball, ball_time, n - 1);
        let i = n - 1;
        if is_club_candidate(cfg, s[i], ball, ball_time) {
            match prev {
                None => Some(i),
                Some(j) => if s[i].timestamp >= s[j].timestamp {
                    Some(i)
                } else {
                    Some(j)
                },
            }
        } else {
            prev
        }
    }
}

/// The chosen club reading: the strongest candidate with a magnitude, or
/// failing that the latest candidate.
pub open spec fn chosen_club(
    cfg: MonitorConfig,
    s: Seq<SpeedReading>,
    ball: u32,
    ball_time: u64,
) -> Option<int> {
    match strongest_candidate(cfg, s, ball, ball_time, s.len() as int) {
        Some(i) => Some(i),
        None => latest_candidate(cfg, s, ball, ball_time, s.len() as int),
    }
}

/// Whether ball speed over club speed lies within the plausible smash band.
pub open spec fn smash_ok(cfg: MonitorConfig, ball: u32, club: u32) -> bool {
    &&& cfg.smash_factor_min as int * club as int <= ball as int * 1000
    &&& ball as int * 1000 <= cfg.smash_factor_max as int * club as int
}

/// The detected club speed: that of the chosen club reading, when its smash
/// factor is plausible.
pub open spec fn club_speed_of(
    cfg: MonitorConfig,
    s: Seq<SpeedReading>,
    ball: u32,
    ball_time: u64,
) -> Option<u32> {
    match chosen_club(cfg, s, ball, ball_time) {
        Some(i) => if smash_ok(cfg, ball, s[i].speed) {
            Some(s[i].speed)
        } else {
            None
        },
        None => None,
    }
}

/// The acceptance filter on one reading.
pub fn reading_accepted(cfg: &MonitorConfig, detect_club_speed: bool, r: &SpeedReading) -> (b:
    bool)
    ensures
        b == accepts(*cfg, detect_club_speed, *r),
{
    let min = if detect_club_speed {
        cfg.min_club_speed
    } else {
        cfg.min_ball_speed
    };
    if r.speed < min || r.speed > cfg.max_ball_speed {
        return false;
    }
    if r.direction != Direction::Outbound {
        return false;
    }
    match r.magnitude {
        Some(m) => cfg.min_magnitude <= m && m <= cfg.max_magnitude,
        None => true,
    }
}

/// The ball reading of a burst: its highest speed, and the earliest event
/// time at which that speed was read.
pub fn find_ball(readings: &Vec<SpeedReading>) -> (r: (u32, u64))
    ensures
        r.0 == ball_speed_of(readings@),
        r.1 == ball_time_of(readings@),
{
    let mut best: u32 = 0;
    let mut i: usize = 0;
    while i < readings.len()
        invariant
            i <= readings@.len(),
            best == max_speed(readings@, i as int),
        decreases readings@.len() - i,
    {
        if readings[i].speed > best {
            best = readings[i].speed;
        }
        i = i + 1;
    }
    let mut time: u64 = u64::MAX;
    let mut k: usize = 0;
    while k < readings.len()
        invariant
            k <= readings@.len(),
            best == ball_speed_of(readings@),
            time == earliest_at_speed(readings@, best, k as int),
        decreases readings@.len() - k,
    {
        if readings[k].speed == best && readings[k].timestamp < time {
            time = readings[k].timestamp;
        }
        k = k + 1;
    }
    (best, time)
}

/// Whether the event timestamps of a burst span more than the longest
/// plausible shot.
pub fn exceeds_max_duration(cfg: &MonitorConfig, readings: &Vec<SpeedReading>) -> (b: bool)
    requires
        readings@.len() > 0,
    ensures
        b == too_long(*cfg, readings@),
{
    let mut first: u64 = u64::MAX;
    let mut last: u64 = 0;
    let mut i: usize = 0;
    while i < readings.len()
        invariant
            i <= readings@.len(),
            first == first_timestamp(readings@, i as int),
            last == last_timestamp(readings@, i as int),
            i > 0 ==> first <= last,
        decreases readings@.len() - i,
    {
        let t = readings[i].timestamp;
        if t < first {
            first = t;
        }
        if t > last {
            last = t;
        }
        i = i + 1;
    }
    last - first > cfg.max_shot_duration_us
}

/// The peak magnitude of a burst, see `peak_of`.
pub fn find_peak_magnitude(readings: &Vec<SpeedReading>) -> (r: Option<u32>)
    ensures
        r == peak_of(readings@),
{
    let mut peak: u32 = 0;
    let mut i: usize = 0;
    while i < readings.len()
        invariant
            i <= readings@.len(),
            peak == peak_magnitude(readings@, i as int),
        decreases readings@.len() - i,
    {
        if let Some(m) = readings[i].magnitude {
            if m > peak {
                peak = m;
            }
        }
        i = i + 1;
    }
    if peak > 0 {
        Some(peak)
    } else {
        None
    }
}

/// The product of two 32-bit values, which always fits in 64 bits.
fn wide_mul(a: u32, b: u32) -> (r: u64)
    ensures
        r as int == a as int * b as int,
{
    assert(a as int * b as int <= u32::MAX as int * u32::MAX as int) by (nonlinear_arith)
        requires
            a <= u32::MAX,
            b <= u32::MAX,
    ;
    (a as u64) * (b as u64)
}

/// Whether `r` may be the club reading, see `is_club_candidate`.
fn club_candidate(cfg: &MonitorConfig, r: &SpeedReading, ball: u32, ball_time: u64) -> (b: bool)
    ensures
        b == is_club_candidate(*cfg, *r, ball, ball_time),
{
    if r.timestamp >= ball_time {
        return false;
    }
    if ball_time - r.timestamp > cfg.club_ball_window_us {
        return false;
    }
    let scaled = wide_mul(r.speed, 1000);
    if !(cfg.min_club_speed <= r.speed && wide_mul(ball, cfg.club_speed_min_ratio) <= scaled) {
        return false;
    }
    if !(r.speed <= cfg.max_club_speed && scaled <= wide_mul(ball, cfg.club_speed_max_ratio)) {
        return false;
    }
    r.speed < ball
}

/// Club speed detection: among the readings strictly before the ball and
/// within the look-back window whose speed lies in the club band, take the
/// one with the highest magnitude, else the latest; report its speed when
/// the resulting smash factor is plausible.
pub fn find_club_speed(
    cfg: &MonitorConfig,
    readings: &Vec<SpeedReading>,
    ball_speed: u32,
    ball_time: u64,
) -> (r: Option<u32>)
    ensures
        r == club_speed_of(*cfg, readings@, ball_speed, ball_time),
{
    let mut strongest: Option<usize> = None;
    let mut latest: Option<usize> = None;
    let mut i: usize = 0;
    while i < readings.len()
        invariant
            i <= readings@.len(),
            strongest.is_some() ==> strongest.unwrap() < i,
            latest.is_some() ==> latest.unwrap() < i,
            match strongest {
                Some(j) => strongest_candidate(*cfg, readings@, ball_speed, ball_time, i as int)
                    == Some(j as int),
                None => strongest_candidate(*cfg, readings@, ball_speed, ball_time, i as int)
                    is None,
            },
            match latest {
                Some(j) => latest_candidate(*cfg, readings@, ball_speed, ball_time, i as int)
                    == Some(j as int),
                None => latest_candidate(*cfg, readings@, ball_speed, ball_time, i as int)
                    is None,
            },
        decreases readings@.len() - i,
    {
        let r = readings[i];
        if club_candidate(cfg, &r, ball_speed, ball_time) {
            latest = match latest {
                None => Some(i),
                Some(j) => if r.timestamp >= readings[j].timestamp {
                    Some(i)
                } else {
                    Some(j)
                },
            };
            if let Some(m) = r.magnitude {
                strongest = match strongest {
                    None => Some(i),
                    Some(j) => {
                        let mj = match readings[j].magnitude {
                            Some(v) => v,
                            None => 0,
                        };
                        if m > mj || (m == mj && r.timestamp >= readings[j].timestamp) {
                            Some(i)
                        } else {
                            Some(j)
                        }
                    },
                };
            }
        }
        i = i + 1;
    }
    let chosen = match strongest {
        Some(j) => Some(j),
        None => latest,
    };
    match chosen {
        None => None,
        Some(j) => {
            let club = readings[j].speed;
            let scaled = wide_mul(ball_speed, 1000);
            if wide_mul(cfg.smash_factor_min, club) <= scaled && scaled <= wide_mul(
                cfg.smash_factor_max,
                club,
            ) {
                Some(readings[j].speed)
            } else {
                None
            }
        },
    }
}

} // verus!
