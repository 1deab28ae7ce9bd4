use vstd::prelude::*;

verus! {

/// Coarse direction of travel reported with a radar sample.
#[derive(Clone, Copy, Debug, PartialEq, Eq, Structural)]
pub enum Direction {
    /// Moving toward the sensor (backswing, approach reflections).
    Inbound,
    /// Moving away from the sensor (ball flight, forward swing).
    Outbound,
    Unknown,
}

/// One radar sample.
///
/// Units: `speed` in hundredths of a mile per hour, `magnitude` in hundredths
/// of the sensor's signal-strength unit, `timestamp` in microseconds of
/// sensor/event time.
#[derive(Clone, Copy, Debug, PartialEq, Eq, Structural)]
pub struct SpeedReading {
    pub speed: u32,
    pub direction: Direction,
    pub magnitude: Option<u32>,
    pub timestamp: u64,
}

/// The club the player is currently hitting.
#[derive(Clone, Copy, Debug, PartialEq, Eq, Structural)]
pub enum ClubType {
    Driver,
    Wood3,
    Wood5,
    Hybrid,
    Iron3,
    Iron4,
    Iron5,
    Iron6,
    Iron7,
    Iron8,
    Iron9,
    Pw,
    Unknown,
}

/// A finished shot.
///
/// Speeds are in hundredths of a mile per hour, `peak_magnitude` in
/// hundredths of the signal unit, `timestamp` is the wall-clock emission time
/// in milliseconds since the Unix epoch. `readings` holds the buffered
/// readings in arrival order.
#[derive(Clone, Debug)]
pub struct Shot {
    pub ball_speed: u32,
    pub timestamp: i64,
    pub club_speed: Option<u32>,
    pub peak_magnitude: Option<u32>,
    pub readings: Vec<SpeedReading>,
    pub club: ClubType,
}

/// What a shot is, apart from its wall-clock emission time.
pub struct ShotModel {
    pub ball_speed: u32,
    pub club_speed: Option<u32>,
    pub peak_magnitude: Option<u32>,
    pub readings: Seq<SpeedReading>,
    pub club: ClubType,
}

impl View for Shot {
    type V = ShotModel;

    open spec fn view(&self) -> ShotModel {
        ShotModel {
            ball_speed: self.ball_speed,
            club_speed: self.club_speed,
            peak_magnitude: self.peak_magnitude,
            readings: self.readings@,
            club: self.club,
        }
    }
}

/// The model of an optional shot.
pub open spec fn shot_view(r: Option<Shot>) -> Option<ShotModel> {
    match r {
        Some(s) => Some(s@),
        None => None,
    }
}

/// Number of rows of the driver calibration table.
pub const CARRY_TABLE_LEN: usize = 13;

/// Row `i` of the driver calibration table: a ball speed (hundredths of a
/// mph) and the midpoint of the carry range measured at that speed (tenths
/// of a yard).
pub open spec fn carry_table_row(i: int) -> (int, int) {
    if i == 0 {
        (10000, 1360)
    } else if i == 1 {
        (11000, 1635)
    } else if i == 2 {
        (12000, 1900)
    } else if i == 3 {
        (13000, 2150)
    } else if i == 4 {
        (14000, 2400)
    } else if i == 5 {
        (15000, 2645)
    } else if i == 6 {
        (16000, 2885)
    } else if i == 7 {
        (16700, 2800)
    } else if i == 8 {
        (17000, 3115)
    } else if i == 9 {
        (18000, 3345)
    } else if i == 10 {
        (19000, 3570)
    } else if i == 11 {
        (20000, 3745)
    } else {
        (21000, 3955)
    }
}

/// Carry multiplier of each club relative to the driver, in hundredths.
pub open spec fn club_factor(club: ClubType) -> int {
    match club {
        ClubType::Driver => 100,
        ClubType::Wood3 => 96,
        ClubType::Wood5 => 93,
        ClubType::Hybrid => 90,
        ClubType::Iron3 => 87,
        ClubType::Iron4 => 85,
        ClubType::Iron5 => 82,
        ClubType::Iron6 => 79,
        ClubType::Iron7 => 76,
        ClubType::Iron8 => 73,
        ClubType::Iron9 => 70,
        ClubType::Pw => 67,
        ClubType::Unknown => 100,
    }
}

/// The first table segment, at or after `i`, whose lower speed is at most
/// `v` and whose upper speed exceeds it; `CARRY_TABLE_LEN - 1` when none does.
pub open spec fn segment_from(v: int, i: int) -> int
    decreases CARRY_TABLE_LEN - 1 - i,
{
    if i >= CARRY_TABLE_LEN - 1 || i < 0 {
        CARRY_TABLE_LEN - 1
    } else if carry_table_row(i).0 <= v && v < carry_table_row(i + 1).0 {
        i
    } else {
        segment_from(v, i + 1)
    }
}

/// The driver carry for ball speed `v` as a fraction (numerator,
/// denominator) in tenths of a yard.
///
/// Up to the first row the first midpoint is scaled in proportion to speed;
/// from the last row on, 1.8 yards are added per mph; between rows the two
/// bracketing midpoints are interpolated linearly; should no segment match,
/// 1.65 yards per mph are used.
pub open spec fn driver_carry_fraction(v: int) -> (int, int) {
    let first = carry_table_row(0);
    let last = carry_table_row(CARRY_TABLE_LEN - 1);
    if v <= first.0 {
        (first.1 * v, first.0)
    } else if v >= last.0 {
        (last.1 * 100 + (v - last.0) * 18, 100)
    } else {
        let i = segment_from(v, 0);
        if i < CARRY_TABLE_LEN - 1 {
            let lo = carry_table_row(i);
            let hi = carry_table_row(i + 1);
            (lo.1 * (hi.0 - lo.0) + (v - lo.0) * (hi.1 - lo.1), hi.0 - lo.0)
        } else {
            (v * 165, 1000)
        }
    }
}

/// Estimated carry in tenths of a yard (rounded down) for ball speed `v`
/// (hundredths of a mph) hit with `club`.
pub open spec fn carry_tenths(v: int, club: ClubType) -> int {
    let f = driver_carry_fraction(v);
    (f.0 * club_factor(club)) / (f.1 * 100)
}

/// Row `i` of the driver calibration table.
fn carry_table_entry(i: usize) -> (r: (u64, u64))
    requires
        i < CARRY_TABLE_LEN,
    ensures
        r.0 as int == carry_table_row(i as int).0,
        r.1 as int == carry_table_row(i as int).1,
        10000 <= r.0 <= 21000,
        1360 <= r.1 <= 3955,
{
    match i {
        0 => (10000, 1360),
        1 => (11000, 1635),
        2 => (12000, 1900),
        3 => (13000, 2150),
        4 => (14000, 2400),
        5 => (15000, 2645),
        6 => (16000, 2885),
        7 => (16700, 2800),
        8 => (17000, 3115),
        9 => (18000, 3345),
        10 => (19000, 3570),
        11 => (20000, 3745),
        _ => (21000, 3955),
    }
}

/// Consecutive rows rise in speed by at most 10 mph, and the midpoint
/// falls by at most 8.5 yards from one row to the next.
proof fn lemma_table_steps(i: int)
    requires
        0 <= i < CARRY_TABLE_LEN - 1,
    ensures
        carry_table_row(i).0 < carry_table_row(i + 1).0 <= carry_table_row(i).0 + 1000,
        carry_table_row(i).1 <= carry_table_row(i + 1).1 + 85,
{
}

/// Carry multiplier of `club`, in hundredths.
fn club_factor_of(club: ClubType) -> (r: u64)
    ensures
        r as int == club_factor(club),
        67 <= r <= 100,
{
    match club {
        ClubType::Driver => 100,
        ClubType::Wood3 => 96,
        ClubType::Wood5 => 93,
        ClubType::Hybrid => 90,
        ClubType::Iron3 => 87,
        ClubType::Iron4 => 85,
        ClubType::Iron5 => 82,
        ClubType::Iron6 => 79,
        ClubType::Iron7 => 76,
        ClubType::Iron8 => 73,
        ClubType::Iron9 => 70,
        ClubType::Pw => 67,
        ClubType::Unknown => 100,
    }
}

/// The driver carry for `v` as a fraction, see `driver_carry_fraction`.
fn driver_carry(v: u32) -> (r: (u64, u64))
    ensures
        r.0 as int == driver_carry_fraction(v as int).0,
        r.1 as int == driver_carry_fraction(v as int).1,
        r.1 > 0,
        r.0 <= 1_000_000_000_000,
{
    let first = carry_table_entry(0);
    let last = carry_table_entry(CARRY_TABLE_LEN - 1);
    let v64 = v as u64;
    if v64 <= first.0 {
        (first.1 * v64, first.0)
    } else if v64 >= last.0 {
        (last.1 * 100 + (v64 - last.0) * 18, 100)
    } else {
        let mut i: usize = 0;
        while i < CARRY_TABLE_LEN - 1
            invariant
                0 <= i <= CARRY_TABLE_LEN - 1,
                segment_from(v as int, 0) == segment_from(v as int, i as int),
                v64 == v as u64,
                first.0 as int == carry_table_row(0).0,
                last.0 as int == carry_table_row(CARRY_TABLE_LEN - 1).0,
                first.0 < v64 < last.0,
            decreases CARRY_TABLE_LEN - 1 - i,
        {
            let lo = carry_table_entry(i);
            let hi = carry_table_entry(i + 1);
            if lo.0 <= v64 && v64 < hi.0 {
                proof {
                    lemma_table_steps(i as int);
                }
                assert(segment_from(v as int, i as int) == i as int);
                let span = hi.0 - lo.0;
                let offset = v64 - lo.0;
                let base = lo.1 * span;
                assert(offset * span <= 1000 * 1000 && lo.1 * span <= 3955 * 1000)
                    by (nonlinear_arith)
                    requires
                        offset < span <= 1000,
                        lo.1 <= 3955,
                ;
                let num = if hi.1 >= lo.1 {
                    assert(offset * (hi.1 - lo.1) <= 1000 * 3955) by (nonlinear_arith)
                        requires
                            offset < 1000,
                            hi.1 - lo.1 <= 3955,
                    ;
                    base + offset * (hi.1 - lo.1)
                } else {
                    assert(offset * (lo.1 - hi.1) <= span * 85) by (nonlinear_arith)
                        requires
                            offset < span,
                            lo.1 - hi.1 <= 85,
                    ;
                    assert(lo.1 * span >= 1360 * span) by (nonlinear_arith)
                        requires
                            lo.1 >= 1360,
                    ;
                    base - offset * (lo.1 - hi.1)
                };
                assert(num as int == lo.1 * span + offset * (hi.1 - lo.1)) by (nonlinear_arith)
                    requires
                        num as int == (if hi.1 >= lo.1 {
                            lo.1 * span + offset * (hi.1 - lo.1)
                        } else {
                            lo.1 * span - offset * (lo.1 - hi.1)
                        }),
                ;
                return (num, span);
            }
            i = i + 1;
        }
        (v64 * 165, 1000)
    }
}

/// Estimate carry distance, in tenths of a yard, from ball speed (hundredths
/// of a mph) and club, by the driver calibration table scaled by the club's
/// factor.
pub fn estimate_carry_distance(ball_speed: u32, club: ClubType) -> (r: u64)
    ensures
        r as int == carry_tenths(ball_speed as int, club),
        r <= 1_000_000_000_000,
{
    let f = driver_carry(ball_speed);
    let factor = club_factor_of(club);
    let num = f.0 * factor;
    let den = f.1 * 100;
    assert(num / den <= num) by (nonlinear_arith)
        requires
            den > 0,
    ;
    assert(num / den <= 1_000_000_000_000) by (nonlinear_arith)
        requires
            den >= 100,
            num <= 100_000_000_000_000,
    ;
    num / den
}

/// Floor of `x * 0.44704`: a speed in hundredths of a mph converted to
/// hundredths of a metre per second.
pub open spec fn mph_to_ms(x: int) -> int {
    x * 44704 / 100000
}

/// Smash factor in thousandths, rounded up: a ball faster than its club
/// always reads above 1.000, and a factor inside a band of whole
/// thousandths stays inside it.
pub open spec fn smash_thousandths(ball: int, club: int) -> int {
    (ball * 1000 + club - 1) / club
}

impl Shot {
    /// Ball speed in hundredths of a metre per second (rounded down).
    pub fn ball_speed_ms(&self) -> (r: u64)
        ensures
            r as int == mph_to_ms(self.ball_speed as int),
    {
        (self.ball_speed as u64) * 44704 / 100000
    }

    /// Club speed in hundredths of a metre per second (rounded down), when
    /// one was detected.
    pub fn club_speed_ms(&self) -> (r: Option<u64>)
        ensures
            self.club_speed.is_none() ==> r.is_none(),
            self.club_speed.is_some() ==> r == Some(mph_to_ms(self.club_speed.unwrap() as int) as u64),
    {
        match self.club_speed {
            Some(s) => Some((s as u64) * 44704 / 100000),
            None => None,
        }
    }

    /// Ball speed over club speed, in thousandths (rounded up); absent
    /// without a positive club speed.
    pub fn smash_factor(&self) -> (r: Option<u64>)
        ensures
            r.is_some() <==> (self.club_speed.is_some() && self.club_speed.unwrap() > 0),
            r.is_some() ==> r.unwrap() as int == smash_thousandths(
                self.ball_speed as int,
                self.club_speed.unwrap() as int,
            ),
            r.is_some() && self.club_speed.unwrap() < self.ball_speed ==> r.unwrap() > 1000,
    {
        match self.club_speed {
            Some(club) => {
                if club > 0 {
                    let ball = self.ball_speed as u64;
                    let c = club as u64;
                    let r = (ball * 1000 + c - 1) / c;
                    proof {
                        if club < self.ball_speed {
                            assert((ball as int * 1000 + c as int - 1) / (c as int) > 1000)
                                by (nonlinear_arith)
                                requires
                                    0 < c < ball,
                            ;
                        }
                    }
                    Some(r)
                } else {
                    None
                }
            },
            None => None,
        }
    }

    /// Estimated carry in tenths of a yard.
    pub fn estimated_carry_yards(&self) -> (r: u64)
        ensures
            r as int == carry_tenths(self.ball_speed as int, self.club),
            r <= 1_000_000_000_000,
    {
        estimate_carry_distance(self.ball_speed, self.club)
    }

    /// The carry estimate widened by ten percent either way, in hundredths
    /// of a yard: exactly 0.9 and 1.1 times the estimate.
    pub fn estimated_carry_range(&self) -> (r: (u64, u64))
        ensures
            r.0 as int == 9 * carry_tenths(self.ball_speed as int, self.club),
            r.1 as int == 11 * carry_tenths(self.ball_speed as int, self.club),
    {
        let base = self.estimated_carry_yards();
        (base * 9, base * 11)
    }
}

} // verus!
