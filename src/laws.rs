use vstd::prelude::*;

use crate::analysis::{
    accepts, chosen_club, club_speed_of, is_club_candidate, latest_candidate, min_speed,
    smash_ok, strongest_candidate,
};
use crate::config::MonitorConfig;
use crate::launch_monitor::{
    flush_shot, flush_state, run, step_event, well_formed, MonitorEvent, MonitorModel,
};
use crate::shot::{smash_thousandths, Direction, ShotModel, SpeedReading};

verus! {

/// What holds of every shot the engine emits: each of its readings passed
/// the acceptance filter, and a reported club speed is below the ball speed
/// with a smash factor inside the plausible band.
pub open spec fn sound_shot(cfg: MonitorConfig, detect_club_speed: bool, s: ShotModel) -> bool {
    &&& forall|i: int|
        0 <= i < s.readings.len() ==> accepts(cfg, detect_club_speed, #[trigger] s.readings[i])
    &&& match s.club_speed {
        Some(c) => c < s.ball_speed && smash_ok(cfg, s.ball_speed, c),
        None => true,
    }
}

proof fn lemma_strongest_is_candidate(
    cfg: MonitorConfig,
    s: Seq<SpeedReading>,
    ball: u32,
    ball_time: u64,
    n: int,
)
    requires
        n <= s.len(),
    ensures
        match strongest_candidate(cfg, s, ball, ball_time, n) {
            Some(i) => 0 <= i < n && is_club_candidate(cfg, s[i], ball, ball_time),
            None => true,
        },
    decreases n,
{
    if n > 0 {
        lemma_strongest_is_candidate(cfg, s, ball, ball_time, n - 1);
    }
}

proof fn lemma_latest_is_candidate(
    cfg: MonitorConfig,
    s: Seq<SpeedReading>,
    ball: u32,
    ball_time: u64,
    n: int,
)
    requires
        n <= s.len(),
    ensures
        match latest_candidate(cfg, s, ball, ball_time, n) {
            Some(i) => 0 <= i < n && is_club_candidate(cfg, s[i], ball, ball_time),
            None => true,
        },
    decreases n,
{
    if n > 0 {
        lemma_latest_is_candidate(cfg, s, ball, ball_time, n - 1);
    }
}

/// A detected club speed is the speed of a club candidate, so it is below
/// the ball speed, and its smash factor is plausible.
pub proof fn club_speed_is_plausible(
    cfg: MonitorConfig,
    s: Seq<SpeedReading>,
    ball: u32,
    ball_time: u64,
)
    ensures
        match club_speed_of(cfg, s, ball, ball_time) {
            Some(c) => c < ball && smash_ok(cfg, ball, c),
            None => true,
        },
{
    lemma_strongest_is_candidate(cfg, s, ball, ball_time, s.len() as int);
    lemma_latest_is_candidate(cfg, s, ball, ball_time, s.len() as int);
    match chosen_club(cfg, s, ball, ball_time) {
        Some(i) => {
            assert(is_club_candidate(cfg, s[i], ball, ball_time));
        },
        None => {},
    }
}

/// Every shot emitted by a flush of a well-formed engine is sound, and the
/// engine stays well-formed.
pub proof fn flush_is_sound(m: MonitorModel)
    requires
        well_formed(m),
    ensures
        well_formed(flush_state(m)),
        match flush_shot(m) {
            Some(s) => sound_shot(m.config, m.detect_club_speed, s),
            None => true,
        },
{
    let s = m.readings;
    if s.len() > 0 {
        club_speed_is_plausible(
            m.config,
            s,
            crate::analysis::ball_speed_of(s),
            crate::analysis::ball_time_of(s),
        );
    }
}

/// Every event keeps a well-formed engine well-formed, and any shot it emits
/// is sound.
pub proof fn step_is_sound(m: MonitorModel, e: MonitorEvent)
    requires
        well_formed(m),
    ensures
        well_formed(step_event(m, e).0),
        match step_event(m, e).1 {
            Some(s) => sound_shot(m.config, m.detect_club_speed, s),
            None => true,
        },
{
    flush_is_sound(m);
    let next = step_event(m, e).0;
    match e {
        MonitorEvent::Reading(r, now) => {
            if accepts(m.config, m.detect_club_speed, r) {
                let m1 = if crate::launch_monitor::timed_out(m, now) {
                    flush_state(m)
                } else {
                    m
                };
                assert forall|i: int| 0 <= i < next.readings.len() implies accepts(
                    next.config,
                    next.detect_club_speed,
                    #[trigger] next.readings[i],
                ) by {
                    if i < m1.readings.len() {
                        assert(next.readings[i] == m1.readings[i]);
                    }
                }
            }
        },
        _ => {},
    }
}

/// Over any sequence of events from a well-formed engine, the engine stays
/// well-formed, its configuration and mode never change, and every emitted
/// shot is sound.
pub proof fn run_is_sound(m: MonitorModel, events: Seq<MonitorEvent>)
    requires
        well_formed(m),
    ensures
        well_formed(run(m, events).0),
        run(m, events).0.config == m.config,
        run(m, events).0.detect_club_speed == m.detect_club_speed,
        forall|k: int|
            0 <= k < run(m, events).1.len() ==> sound_shot(
                m.config,
                m.detect_club_speed,
                #[trigger] run(m, events).1[k],
            ),
    decreases events.len(),
{
    if events.len() > 0 {
        let before = run(m, events.drop_last());
        run_is_sound(m, events.drop_last());
        step_is_sound(before.0, events.last());
    }
}

/// A reading whose direction is not outbound never reaches an emitted shot:
/// every reading of every shot emitted over any sequence of events is
/// outbound.
pub proof fn non_outbound_never_emitted(m: MonitorModel, events: Seq<MonitorEvent>)
    requires
        well_formed(m),
    ensures
        forall|k: int, i: int|
            0 <= k < run(m, events).1.len() && 0 <= i < run(m, events).1[k].readings.len()
                ==> (#[trigger] run(m, events).1[k].readings[i]).direction == Direction::Outbound,
{
    run_is_sound(m, events);
    assert forall|k: int, i: int|
        0 <= k < run(m, events).1.len() && 0 <= i < run(
            m,
            events,
        ).1[k].readings.len() implies (#[trigger] run(m, events).1[k].readings[i]).direction
        == Direction::Outbound by {
        assert(sound_shot(m.config, m.detect_club_speed, run(m, events).1[k]));
    }
}

/// A reading that is not outbound is never buffered: the engine is left as
/// it was and nothing is emitted.
pub proof fn non_outbound_is_ignored(m: MonitorModel, r: SpeedReading, now: u64)
    requires
        r.direction != Direction::Outbound,
    ensures
        step_event(m, MonitorEvent::Reading(r, now)) == (m, None::<ShotModel>),
{
}

/// Every accepted reading lies between the minimum speed of the mode and the
/// maximum ball speed.
pub proof fn accepted_speed_in_band(cfg: MonitorConfig, detect_club_speed: bool, r: SpeedReading)
    requires
        accepts(cfg, detect_club_speed, r),
    ensures
        min_speed(cfg, detect_club_speed) <= r.speed <= cfg.max_ball_speed,
{
}

/// Every reading of every emitted shot lies between the minimum speed of the
/// mode and the maximum ball speed.
pub proof fn emitted_speeds_in_band(m: MonitorModel, events: Seq<MonitorEvent>)
    requires
        well_formed(m),
    ensures
        forall|k: int, i: int|
            0 <= k < run(m, events).1.len() && 0 <= i < run(m, events).1[k].readings.len()
                ==> min_speed(m.config, m.detect_club_speed) <= (#[trigger] run(
                m,
                events,
            ).1[k].readings[i]).speed <= m.config.max_ball_speed,
{
    run_is_sound(m, events);
    assert forall|k: int, i: int|
        0 <= k < run(m, events).1.len() && 0 <= i < run(
            m,
            events,
        ).1[k].readings.len() implies min_speed(m.config, m.detect_club_speed) <= (#[trigger] run(
        m,
        events,
    ).1[k].readings[i]).speed <= m.config.max_ball_speed by {
        assert(sound_shot(m.config, m.detect_club_speed, run(m, events).1[k]));
    }
}

/// Flushing an empty buffer emits nothing and leaves the engine unchanged,
/// however often it is done.
pub proof fn flush_empty_is_noop(m: MonitorModel)
    requires
        m.readings.len() == 0,
    ensures
        flush_shot(m) is None,
        flush_state(m) == m,
        flush_state(flush_state(m)) == m,
{
}

/// Every emitted club speed is below the ball speed of its shot, and ball
/// speed over club speed lies inside the configured smash band.
pub proof fn emitted_club_speed_plausible(m: MonitorModel, events: Seq<MonitorEvent>)
    requires
        well_formed(m),
    ensures
        forall|k: int|
            0 <= k < run(m, events).1.len() && (#[trigger] run(m, events).1[k]).club_speed
                is Some ==> run(m, events).1[k].club_speed.unwrap() < run(m, events).1[k].ball_speed
                && smash_ok(
                m.config,
                run(m, events).1[k].ball_speed,
                run(m, events).1[k].club_speed.unwrap(),
            ),
{
    run_is_sound(m, events);
}

/// For a club speed below the ball speed with a plausible smash factor, as
/// every emitted club speed is, the smash factor a shot reports lies inside
/// the configured band and above 1.000.
pub proof fn reported_smash_factor_in_band(cfg: MonitorConfig, ball: u32, club: u32)
    requires
        club < ball,
        smash_ok(cfg, ball, club),
    ensures
        club > 0,
        cfg.smash_factor_min <= smash_thousandths(ball as int, club as int)
            <= cfg.smash_factor_max,
        smash_thousandths(ball as int, club as int) > 1000,
{
    let b = ball as int;
    let c = club as int;
    let lo = cfg.smash_factor_min as int;
    let hi = cfg.smash_factor_max as int;
    if c == 0 {
        assert(b * 1000 <= hi * c);
        assert(false);
    }
    assert(lo <= (b * 1000 + c - 1) / c <= hi && (b * 1000 + c - 1) / c > 1000)
        by (nonlinear_arith)
        requires
            0 < c < b,
            lo * c <= b * 1000,
            b * 1000 <= hi * c,
    ;
}

/// Feeding the same events to two engines in the same state gives the same
/// final state and the same shots.
pub proof fn runs_are_deterministic(a: MonitorModel, b: MonitorModel, events: Seq<MonitorEvent>)
    requires
        a == b,
    ensures
        run(a, events) == run(b, events),
{
}

} // verus!
