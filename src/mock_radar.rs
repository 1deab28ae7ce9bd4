use vstd::prelude::*;

use rand::rngs::ThreadRng;
use rand::Rng;

use crate::analysis::accepts;
use crate::config::standard_config;
use crate::shot::{Direction, SpeedReading};

verus! {

#[verifier::external_type_specification]
#[verifier::external_body]
pub struct ExThreadRng(ThreadRng);

/// Relies on `rand::Rng::gen_range`: a value drawn from `lo..hi`, which
/// panics on an empty range.
#[verifier::external_body]
fn random_in(rng: &mut ThreadRng, lo: i64, hi: i64) -> (r: i64)
    requires
        lo < hi,
    ensures
        lo <= r < hi,
{
    rng.gen_range(lo..hi)
}

/// Slowest speed a simulated reading reports (15 mph).
pub const MIN_SIMULATED_SPEED: u32 = 1500;

/// Gap between the last club reading and the first ball reading.
pub const IMPACT_GAP_MS: u64 = 10;

/// Spacing of simulated readings.
pub const READING_SPACING_MS: u64 = 20;

/// The range (hundredths of a mph) the ball speed of shot `n` is drawn
/// from: every fifth shot is a big hit, every third otherwise a weak one.
pub open spec fn ball_speed_range(n: u64) -> (int, int) {
    if n % 5 == 0 {
        (15000, 18000)
    } else if n % 3 == 0 {
        (8000, 11000)
    } else {
        (11000, 15000)
    }
}

/// The club speed for a ball speed and smash factor (thousandths).
pub open spec fn club_speed_for(ball: int, smash: int) -> int {
    ball * 1000 / smash
}

/// Raise a simulated speed to the floor.
pub open spec fn floored(v: int) -> int {
    if v < MIN_SIMULATED_SPEED {
        MIN_SIMULATED_SPEED as int
    } else {
        v
    }
}

/// Club head speed `elapsed` ms into a downswing of `duration` ms: ramping
/// from 70% to 100% of `club`, plus `noise`.
pub open spec fn club_ramp(club: int, elapsed: int, duration: int, noise: int) -> int {
    floored(club * (700 * duration + 300 * elapsed) / (1000 * duration) + noise)
}

/// Ball speed `elapsed` ms into a flight of `duration` ms: decaying by up to
/// 5% from `ball`, plus `noise`.
pub open spec fn ball_decay(ball: int, elapsed: int, duration: int, noise: int) -> int {
    floored(ball * (1000 * duration - 50 * elapsed) / (1000 * duration) + noise)
}

/// The range of shot `n`'s ball speed, see `ball_speed_range`.
pub fn ball_speed_bounds(shot_number: u64) -> (r: (i64, i64))
    ensures
        r.0 as int == ball_speed_range(shot_number).0,
        r.1 as int == ball_speed_range(shot_number).1,
{
    if shot_number % 5 == 0 {
        (15000, 18000)
    } else if shot_number % 3 == 0 {
        (8000, 11000)
    } else {
        (11000, 15000)
    }
}

/// Club head speed during the downswing, see `club_ramp`.
pub fn club_reading_speed(club_speed: u32, elapsed_ms: u64, duration_ms: u64, noise: i64) -> (r:
    u32)
    requires
        club_speed <= 1_000_000,
        elapsed_ms < duration_ms <= 1000,
        -1000 <= noise <= 1000,
    ensures
        r as int == club_ramp(club_speed as int, elapsed_ms as int, duration_ms as int, noise as int),
        club_speed >= 5000 && -200 <= noise <= 200 ==> 3300 <= r <= club_speed + 200,
{
    let c = club_speed as i64;
    let d = duration_ms as i64;
    let e = elapsed_ms as i64;
    assert(0 <= c * (700 * d + 300 * e) <= c * (1000 * d)) by (nonlinear_arith)
        requires
            0 <= c,
            0 <= e < d,
    ;
    assert(c * (1000 * d) <= 1_000_000 * 1_000_000) by (nonlinear_arith)
        requires
            0 <= c <= 1_000_000,
            0 < d <= 1000,
    ;
    let num = c * (700 * d + 300 * e);
    let den = 1000 * d;
    assert(num / den <= c) by (nonlinear_arith)
        requires
            0 <= num <= c * den,
            den > 0,
    ;
    if c >= 5000 {
        assert(num / den >= 3500) by (nonlinear_arith)
            requires
                num == c * (700 * d + 300 * e),
                den == 1000 * d,
                c >= 5000,
                0 <= e,
                d > 0,
        ;
    }
    let v = num / den + noise;
    if v < MIN_SIMULATED_SPEED as i64 {
        MIN_SIMULATED_SPEED
    } else {
        v as u32
    }
}

/// Ball speed during its flight, see `ball_decay`.
pub fn ball_reading_speed(ball_speed: u32, elapsed_ms: u64, duration_ms: u64, noise: i64) -> (r:
    u32)
    requires
        ball_speed <= 1_000_000,
        elapsed_ms < duration_ms <= 1000,
        -1000 <= noise <= 1000,
    ensures
        r as int == ball_decay(ball_speed as int, elapsed_ms as int, duration_ms as int, noise as int),
        ball_speed >= 8000 && -300 <= noise <= 300 ==> 7300 <= r <= ball_speed + 300,
{
    let b = ball_speed as i64;
    let d = duration_ms as i64;
    let e = elapsed_ms as i64;
    assert(0 <= b * (1000 * d - 50 * e) <= b * (1000 * d)) by (nonlinear_arith)
        requires
            0 <= b,
            0 <= e < d,
    ;
    assert(b * (1000 * d) <= 1_000_000 * 1_000_000) by (nonlinear_arith)
        requires
            0 <= b <= 1_000_000,
            0 < d <= 1000,
    ;
    let num = b * (1000 * d - 50 * e);
    let den = 1000 * d;
    assert(num / den <= b) by (nonlinear_arith)
        requires
            0 <= num <= b * den,
            den > 0,
    ;
    if b >= 8000 {
        assert(num / den >= 7600) by (nonlinear_arith)
            requires
                num == b * (1000 * d - 50 * e),
                den == 1000 * d,
                b >= 8000,
                0 <= e < d,
        ;
    }
    let v = num / den + noise;
    if v < MIN_SIMULATED_SPEED as i64 {
        MIN_SIMULATED_SPEED
    } else {
        v as u32
    }
}

/// What every simulated reading of a shot starting at `base` satisfies:
/// outbound, between 33 and 183 mph, with a magnitude of 200 up to (not
/// including) 1500, and within the first 160 ms.
pub open spec fn plausible_simulated(r: SpeedReading, base: u64) -> bool {
    &&& r.direction == Direction::Outbound
    &&& 3300 <= r.speed <= 18300
    &&& r.magnitude is Some
    &&& 20_000 <= r.magnitude.unwrap() < 150_000
    &&& base <= r.timestamp < base + 160_000
}

/// Simulates the readings of shot number `shot_number` whose first club
/// reading is at event time `base_timestamp` (microseconds): two club
/// readings ramping up during a 30-50 ms downswing, then, 10 ms after the
/// last club reading window, four to six ball readings 20 ms apart over a
/// 100-240 ms flight. Club readings have the larger magnitudes. Every
/// reading passes the standard acceptance filter in club-detection mode,
/// and the timestamps strictly increase.
pub fn generate_shot_sequence(rng: &mut ThreadRng, shot_number: u64, base_timestamp: u64) -> (r:
    Vec<SpeedReading>)
    requires
        base_timestamp <= u64::MAX - 300_000,
    ensures
        6 <= r@.len() <= 8,
        r@[0].timestamp == base_timestamp,
        forall|i: int| 0 <= i < r@.len() ==> plausible_simulated(#[trigger] r@[i], base_timestamp),
        forall|i: int|
            0 <= i < r@.len() ==> accepts(standard_config(), true, #[trigger] r@[i]),
        forall|i: int, j: int|
            0 <= i < j < r@.len() ==> (#[trigger] r@[i]).timestamp < (#[trigger] r@[j]).timestamp,
{
    let bounds = ball_speed_bounds(shot_number);
    let ball_speed = random_in(rng, bounds.0, bounds.1) as u32;
    let smash = random_in(rng, 1350, 1550) as u32;
    let club_speed = ((ball_speed as u64) * 1000 / (smash as u64)) as u32;
    assert(club_speed <= 18000) by (nonlinear_arith)
        requires
            club_speed as int == (ball_speed as int) * 1000 / (smash as int),
            ball_speed < 18000,
            smash >= 1350,
    ;
    assert(ball_speed >= 8000);
    assert((ball_speed as int) * 1000 >= 5000 * (smash as int));
    assert(club_speed >= 5000) by (nonlinear_arith)
        requires
            club_speed as int == (ball_speed as int) * 1000 / (smash as int),
            (ball_speed as int) * 1000 >= 5000 * (smash as int),
            smash > 0,
    ;

    let club_duration_ms = random_in(rng, 30, 50) as u64;
    let club_count = random_in(rng, 2, 3) as u64;
    let mut readings: Vec<SpeedReading> = Vec::new();
    let mut i: u64 = 0;
    while i < club_count
        invariant
            club_count == 2,
            30 <= club_duration_ms < 50,
            i <= club_count,
            readings@.len() == i,
            5000 <= club_speed <= 18000,
            readings@.len() > 0 ==> readings@[0].timestamp == base_timestamp,
            base_timestamp <= u64::MAX - 300_000,
            forall|k: int|
                0 <= k < readings@.len() ==> plausible_simulated(
                    #[trigger] readings@[k],
                    base_timestamp,
                ),
            forall|k: int|
                0 <= k < readings@.len() ==> (#[trigger] readings@[k]).timestamp
                    <= base_timestamp + (i as int - 1) * 20_000,
            forall|k: int, j: int|
                0 <= k < j < readings@.len() ==> (#[trigger] readings@[k]).timestamp
                    < (#[trigger] readings@[j]).timestamp,
        decreases club_count - i,
    {
        let elapsed_ms = i * READING_SPACING_MS;
        if elapsed_ms < club_duration_ms {
            let noise = random_in(rng, -200, 200);
            let magnitude = random_in(rng, 80_000, 150_000) as u32;
            let speed = club_reading_speed(club_speed, elapsed_ms, club_duration_ms, noise);
            readings.push(
                SpeedReading {
                    speed,
                    direction: Direction::Outbound,
                    magnitude: Some(magnitude),
                    timestamp: base_timestamp + elapsed_ms * 1000,
                },
            );
        }
        i = i + 1;
    }

    let ball_duration_ms = random_in(rng, 100, 240) as u64;
    let ball_count = random_in(rng, 4, 7) as u64;
    let ball_start_ms = club_duration_ms + IMPACT_GAP_MS;
    let mut k: u64 = 0;
    while k < ball_count
        invariant
            4 <= ball_count < 7,
            100 <= ball_duration_ms < 240,
            30 + 10 <= ball_start_ms < 50 + 10,
            k <= ball_count,
            2 + (if k < 5 {
                k as int
            } else {
                5
            }) <= readings@.len() <= 2 + k,
            8000 <= ball_speed < 18000,
            readings@[0].timestamp == base_timestamp,
            base_timestamp <= u64::MAX - 300_000,
            forall|n: int|
                0 <= n < readings@.len() ==> plausible_simulated(
                    #[trigger] readings@[n],
                    base_timestamp,
                ),
            forall|n: int|
                0 <= n < readings@.len() ==> (#[trigger] readings@[n]).timestamp
                    <= base_timestamp + ball_start_ms * 1000 + (k as int - 1) * 20_000,
            forall|n: int, j: int|
                0 <= n < j < readings@.len() ==> (#[trigger] readings@[n]).timestamp
                    < (#[trigger] readings@[j]).timestamp,
        decreases ball_count - k,
    {
        let elapsed_ms = k * READING_SPACING_MS;
        if elapsed_ms < ball_duration_ms {
            let noise = random_in(rng, -300, 300);
            let magnitude = random_in(rng, 20_000, 60_000) as u32;
            let speed = ball_reading_speed(ball_speed, elapsed_ms, ball_duration_ms, noise);
            readings.push(
                SpeedReading {
                    speed,
                    direction: Direction::Outbound,
                    magnitude: Some(magnitude),
                    timestamp: base_timestamp + (ball_start_ms + elapsed_ms) * 1000,
                },
            );
        }
        k = k + 1;
    }
    proof {
        assert forall|n: int| 0 <= n < readings@.len() implies accepts(
            standard_config(),
            true,
            #[trigger] readings@[n],
        ) by {
            assert(plausible_simulated(readings@[n], base_timestamp));
        }
    }
    readings
}

} // verus!
