use vstd::prelude::*;

use crate::analysis::{
    accepts, ball_speed_of, ball_time_of, club_speed_of, exceeds_max_duration, find_ball,
    find_club_speed, find_peak_magnitude, peak_of, reading_accepted, too_long,
};
use crate::config::MonitorConfig;
use crate::shot::{shot_view, ClubType, Shot, ShotModel, SpeedReading};

verus! {

/// The state of the segmentation engine.
pub struct MonitorModel {
    pub config: MonitorConfig,
    pub club: ClubType,
    pub detect_club_speed: bool,
    /// The in-progress shot, in arrival order.
    pub readings: Seq<SpeedReading>,
    /// Arrival time of the last accepted reading.
    pub last_reading_time: Option<u64>,
    /// Arrival time of the first reading of the buffer.
    pub shot_start_time: Option<u64>,
}

/// Every buffered reading passed the acceptance filter of the engine's mode.
pub open spec fn well_formed(m: MonitorModel) -> bool {
    forall|i: int|
        0 <= i < m.readings.len() ==> accepts(
            m.config,
            m.detect_club_speed,
            #[trigger] m.readings[i],
        )
}

/// Whether a flush discards a non-empty buffer: too few readings, or event
/// timestamps spanning more than the longest plausible shot.
pub open spec fn rejects(m: MonitorModel) -> bool {
    m.readings.len() < m.config.min_readings_for_shot || too_long(m.config, m.readings)
}

/// The shot that flushing the buffer emits, if any.
pub open spec fn flush_shot(m: MonitorModel) -> Option<ShotModel> {
    let s = m.readings;
    if s.len() == 0 || rejects(m) {
        None
    } else {
        let ball = ball_speed_of(s);
        Some(
            ShotModel {
                ball_speed: ball,
                club_speed: if m.detect_club_speed {
                    club_speed_of(m.config, s, ball, ball_time_of(s))
                } else {
                    None
                },
                peak_magnitude: peak_of(s),
                readings: s,
                club: m.club,
            },
        )
    }
}

/// The state after a flush: unchanged for an empty buffer; otherwise,
/// whether the buffer was rejected or emitted as a shot, the buffer and the
/// timing state are cleared.
pub open spec fn flush_state(m: MonitorModel) -> MonitorModel {
    if m.readings.len() == 0 {
        m
    } else {
        MonitorModel {
            readings: Seq::empty(),
            last_reading_time: None,
            shot_start_time: None,
            ..m
        }
    }
}

/// Whether more than the silence gap has passed, at arrival time `now`,
/// since the last accepted reading.
pub open spec fn timed_out(m: MonitorModel, now: u64) -> bool {
    match m.last_reading_time {
        Some(t) => now > t && now - t > m.config.shot_timeout_us,
        None => false,
    }
}

/// One reading arriving at `now`: a rejected reading changes nothing; an
/// accepted one first flushes the buffer when the silence gap has passed,
/// then joins the buffer. Returns the next state and the emitted shot.
pub open spec fn step_reading(m: MonitorModel, r: SpeedReading, now: u64) -> (
    MonitorModel,
    Option<ShotModel>,
) {
    if !accepts(m.config, m.detect_club_speed, r) {
        (m, None)
    } else {
        let m1 = if timed_out(m, now) {
            flush_state(m)
        } else {
            m
        };
        let shot = if timed_out(m, now) {
            flush_shot(m)
        } else {
            None
        };
        let start = if m1.readings.len() == 0 {
            Some(now)
        } else {
            m1.shot_start_time
        };
        (
            MonitorModel {
                readings: m1.readings.push(r),
                last_reading_time: Some(now),
                shot_start_time: start,
                ..m1
            },
            shot,
        )
    }
}

/// A poll at `now` with no reading: the buffer is flushed when it holds
/// readings and the silence gap has passed.
pub open spec fn step_idle(m: MonitorModel, now: u64) -> (MonitorModel, Option<ShotModel>) {
    if timed_out(m, now) && m.readings.len() > 0 {
        (flush_state(m), flush_shot(m))
    } else {
        (m, None)
    }
}

/// What the poll loop hands the engine on each iteration.
#[derive(Clone, Copy, Debug, PartialEq, Eq, Structural)]
pub enum MonitorEvent {
    /// A reading arrived at the given arrival time.
    Reading(SpeedReading, u64),
    /// No reading was available at the given arrival time.
    Idle(u64),
    /// The loop is stopping: the last-chance flush.
    Stop,
}

/// One event: see `step_reading` and `step_idle`; on stopping the buffer is
/// flushed.
pub open spec fn step_event(m: MonitorModel, e: MonitorEvent) -> (MonitorModel, Option<ShotModel>) {
    match e {
        MonitorEvent::Reading(r, now) => step_reading(m, r, now),
        MonitorEvent::Idle(now) => step_idle(m, now),
        MonitorEvent::Stop => (flush_state(m), flush_shot(m)),
    }
}

/// The state after a sequence of events, and the shots emitted on the way,
/// in order.
pub open spec fn run(m: MonitorModel, events: Seq<MonitorEvent>) -> (MonitorModel, Seq<ShotModel>)
    decreases events.len(),
{
    if events.len() == 0 {
        (m, Seq::empty())
    } else {
        let before = run(m, events.drop_last());
        let after = step_event(before.0, events.last());
        match after.1 {
            Some(s) => (after.0, before.1.push(s)),
            None => (after.0, before.1),
        }
    }
}

/// The models of a list of shots.
pub open spec fn shots_view(shots: Seq<Shot>) -> Seq<ShotModel> {
    shots.map_values(|s: Shot| s@)
}

/// The shot segmentation engine: filters readings, buffers the in-progress
/// shot, detects its end by a silence gap, and turns it into a `Shot`.
///
/// Arrival times (`now`) are microseconds on a monotonic clock chosen by the
/// caller.
pub struct LaunchMonitor {
    config: MonitorConfig,
    current_club: ClubType,
    detect_club_speed: bool,
    current_readings: Vec<SpeedReading>,
    last_reading_time: Option<u64>,
    shot_start_time: Option<u64>,
}

impl View for LaunchMonitor {
    type V = MonitorModel;

    closed spec fn view(&self) -> MonitorModel {
        MonitorModel {
            config: self.config,
            club: self.current_club,
            detect_club_speed: self.detect_club_speed,
            readings: self.current_readings@,
            last_reading_time: self.last_reading_time,
            shot_start_time: self.shot_start_time,
        }
    }
}

impl LaunchMonitor {
    /// The engine's invariant, see `well_formed`.
    pub open spec fn wf(&self) -> bool {
        well_formed(self@)
    }

    /// An idle engine with the given thresholds, club and detection mode.
    pub fn new(config: MonitorConfig, club: ClubType, detect_club_speed: bool) -> (r: Self)
        ensures
            r@ == (MonitorModel {
                config,
                club,
                detect_club_speed,
                readings: Seq::empty(),
                last_reading_time: None,
                shot_start_time: None,
            }),
            r.wf(),
    {
        LaunchMonitor {
            config,
            current_club: club,
            detect_club_speed,
            current_readings: Vec::new(),
            last_reading_time: None,
            shot_start_time: None,
        }
    }

    /// The thresholds in use.
    pub fn config(&self) -> (r: MonitorConfig)
        ensures
            r == self@.config,
    {
        self.config
    }

    /// The configured club.
    pub fn current_club(&self) -> (r: ClubType)
        ensures
            r == self@.club,
    {
        self.current_club
    }

    /// Whether club speed is being detected.
    pub fn detects_club_speed(&self) -> (r: bool)
        ensures
            r == self@.detect_club_speed,
    {
        self.detect_club_speed
    }

    /// The readings of the in-progress shot, in arrival order.
    pub fn pending_readings(&self) -> (r: &Vec<SpeedReading>)
        ensures
            r@ == self@.readings,
    {
        &self.current_readings
    }

    /// Whether a reading would pass the acceptance filter.
    pub fn accepts_reading(&self, reading: &SpeedReading) -> (r: bool)
        ensures
            r == accepts(self@.config, self@.detect_club_speed, *reading),
    {
        reading_accepted(&self.config, self.detect_club_speed, reading)
    }

    /// Flushes the buffer, stamping an emitted shot with `created_at`
    /// (milliseconds since the Unix epoch).
    pub fn process_shot(&mut self, created_at: i64) -> (r: Option<Shot>)
        requires
            old(self).wf(),
        ensures
            final(self).wf(),
            final(self)@ == flush_state(old(self)@),
            shot_view(r) == flush_shot(old(self)@),
            r.is_some() ==> r.unwrap().timestamp == created_at,
            old(self)@.readings.len() == 0 ==> r.is_none() && final(self)@ == old(self)@,
    {
        let n = self.current_readings.len();
        if n == 0 {
            return None;
        }
        if n < self.config.min_readings_for_shot || exceeds_max_duration(
            &self.config,
            &self.current_readings,
        ) {
            self.current_readings.clear();
            self.last_reading_time = None;
            self.shot_start_time = None;
            return None;
        }
        let (ball_speed, ball_time) = find_ball(&self.current_readings);
        let peak = find_peak_magnitude(&self.current_readings);
        let club_speed = if self.detect_club_speed {
            find_club_speed(&self.config, &self.current_readings, ball_speed, ball_time)
        } else {
            None
        };
        let mut readings: Vec<SpeedReading> = Vec::new();
        std::mem::swap(&mut readings, &mut self.current_readings);
        self.last_reading_time = None;
        self.shot_start_time = None;
        Some(
            Shot {
                ball_speed,
                timestamp: created_at,
                club_speed,
                peak_magnitude: peak,
                readings,
                club: self.current_club,
            },
        )
    }

    /// Handles a reading that arrived at `now`; returns the shot that the
    /// reading completed, if any, stamped with `created_at`.
    pub fn on_reading(&mut self, reading: SpeedReading, now: u64, created_at: i64) -> (r: Option<
        Shot,
    >)
        requires
            old(self).wf(),
        ensures
            final(self).wf(),
            final(self)@ == step_reading(old(self)@, reading, now).0,
            shot_view(r) == step_reading(old(self)@, reading, now).1,
            r.is_some() ==> r.unwrap().timestamp == created_at,
    {
        if !reading_accepted(&self.config, self.detect_club_speed, &reading) {
            return None;
        }
        let mut shot: Option<Shot> = None;
        if let Some(last) = self.last_reading_time {
            if now > last && now - last > self.config.shot_timeout_us {
                shot = self.process_shot(created_at);
            }
        }
        if self.current_readings.len() == 0 {
            self.shot_start_time = Some(now);
        }
        self.current_readings.push(reading);
        self.last_reading_time = Some(now);
        shot
    }

    /// Handles one event of the poll loop; a shot it completes is stamped
    /// with `created_at`.
    pub fn handle_event(&mut self, event: MonitorEvent, created_at: i64) -> (r: Option<Shot>)
        requires
            old(self).wf(),
        ensures
            final(self).wf(),
            final(self)@ == step_event(old(self)@, event).0,
            shot_view(r) == step_event(old(self)@, event).1,
            r.is_some() ==> r.unwrap().timestamp == created_at,
    {
        match event {
            MonitorEvent::Reading(reading, now) => self.on_reading(reading, now, created_at),
            MonitorEvent::Idle(now) => self.check_shot_timeout(now, created_at),
            MonitorEvent::Stop => self.process_shot(created_at),
        }
    }

    /// Handles a sequence of events in order; returns the emitted shots, each
    /// stamped with `created_at`.
    pub fn process_events(&mut self, events: &Vec<MonitorEvent>, created_at: i64) -> (r: Vec<
        Shot,
    >)
        requires
            old(self).wf(),
        ensures
            final(self).wf(),
            final(self)@ == run(old(self)@, events@).0,
            shots_view(r@) == run(old(self)@, events@).1,
            forall|k: int| 0 <= k < r@.len() ==> (#[trigger] r@[k]).timestamp == created_at,
    {
        let mut shots: Vec<Shot> = Vec::new();
        let mut i: usize = 0;
        while i < events.len()
            invariant
                i <= events@.len(),
                self.wf(),
                self@ == run(old(self)@, events@.take(i as int)).0,
                shots_view(shots@) == run(old(self)@, events@.take(i as int)).1,
                forall|k: int| 0 <= k < shots@.len() ==> (#[trigger] shots@[k]).timestamp == created_at,
            decreases events@.len() - i,
        {
            proof {
                assert(events@.take(i as int + 1).drop_last() == events@.take(i as int));
            }
            let shot = self.handle_event(events[i], created_at);
            if let Some(s) = shot {
                shots.push(s);
                proof {
                    assert(shots_view(shots@) == shots_view(shots@.drop_last()).push(s@));
                }
            }
            i = i + 1;
        }
        proof {
            assert(events@.take(events@.len() as int) == events@);
        }
        shots
    }

    /// Polled when no reading is available at `now`: flushes the buffer once
    /// the silence gap has passed, stamping a shot with `created_at`.
    pub fn check_shot_timeout(&mut self, now: u64, created_at: i64) -> (r: Option<Shot>)
        requires
            old(self).wf(),
        ensures
            final(self).wf(),
            final(self)@ == step_idle(old(self)@, now).0,
            shot_view(r) == step_idle(old(self)@, now).1,
            r.is_some() ==> r.unwrap().timestamp == created_at,
    {
        if let Some(last) = self.last_reading_time {
            if now > last && now - last > self.config.shot_timeout_us
                && self.current_readings.len() > 0 {
                return self.process_shot(created_at);
            }
        }
        None
    }
}

} // verus!
