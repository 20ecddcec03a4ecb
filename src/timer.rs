//! The countdown of a session: how long each image stays, pausing and
//! resuming, and the timeout that moves on to the next image. Times are
//! milliseconds on a monotonic clock chosen by the caller.

use vstd::prelude::*;

use crate::modifications::PlaybackState;

verus! {

/// How long each image stays on screen.
#[derive(Clone, Copy, Debug, PartialEq, Eq, Structural)]
pub enum ImageTime {
    /// So many milliseconds; zero means no limit.
    FixedTime(u64),
    /// The image stays until the user moves on; the timer never runs out.
    NoLimit,
}

impl Default for ImageTime {
    /// Thirty seconds per image.
    fn default() -> (r: Self)
        ensures
            r == ImageTime::FixedTime(30_000),
    {
        ImageTime::FixedTime(30_000)
    }
}

impl ImageTime {
    /// Whether the timer runs out: only a fixed time above zero does.
    pub open spec fn has_limit(self) -> bool {
        self matches ImageTime::FixedTime(d) && d > 0
    }

    /// The time an image starts with: the fixed time, or zero without limit.
    pub open spec fn full_time(self) -> u64 {
        match self {
            ImageTime::FixedTime(d) => d,
            ImageTime::NoLimit => 0,
        }
    }

    /// The setting for `seconds` per image; zero seconds means no limit.
    pub fn from_seconds(seconds: u32) -> (r: Self)
        ensures
            seconds == 0 ==> r == ImageTime::NoLimit,
            seconds > 0 ==> r == ImageTime::FixedTime((seconds * 1000) as u64),
    {
        if seconds == 0 {
            ImageTime::NoLimit
        } else {
            ImageTime::FixedTime(seconds as u64 * 1000)
        }
    }

    pub fn full_time_ms(&self) -> (r: u64)
        ensures
            r == self.full_time(),
    {
        match self {
            ImageTime::FixedTime(d) => *d,
            ImageTime::NoLimit => 0,
        }
    }
}

/// What one tick of the clock yields.
#[derive(Clone, Copy, Debug, PartialEq, Eq, Structural)]
pub enum TickOutcome {
    /// Nothing to report: the timer is not running, or has no limit.
    Idle,
    /// The time left on the current image, in milliseconds.
    TimeLeft(u64),
    /// The time ran out; the session moves on.
    Timeout,
}

/// The countdown state machine of a session.
#[derive(Clone, Copy, Debug, PartialEq, Eq, Structural)]
pub struct PlaybackTimer {
    pub state: PlaybackState,
    pub image_time: ImageTime,
    /// Milliseconds left on the current image.
    pub time_left: u64,
    /// When the countdown last took time off, or was last anchored.
    pub last_tick: u64,
}

impl PlaybackTimer {
    pub open spec fn after_tick(self, now: u64) -> (Self, TickOutcome) {
        if self.state != PlaybackState::Running {
            (self, TickOutcome::Idle)
        } else {
            let elapsed: int = if now >= self.last_tick {
                now - self.last_tick
            } else {
                0
            };
            let t = PlaybackTimer { last_tick: now, ..self };
            if !self.image_time.has_limit() || self.time_left == 0 {
                (t, TickOutcome::Idle)
            } else if self.time_left <= elapsed {
                (PlaybackTimer { time_left: 0, ..t }, TickOutcome::Timeout)
            } else {
                let left = (self.time_left - elapsed) as u64;
                (PlaybackTimer { time_left: left, ..t }, TickOutcome::TimeLeft(left))
            }
        }
    }

    pub open spec fn after_pause(self) -> Self {
        if self.state == PlaybackState::Running {
            PlaybackTimer { state: PlaybackState::Paused, ..self }
        } else {
            self
        }
    }

    pub open spec fn after_resume(self, now: u64) -> Self {
        if self.state == PlaybackState::Paused {
            PlaybackTimer { state: PlaybackState::Running, last_tick: now, ..self }
        } else {
            self
        }
    }

    pub open spec fn after_load_started(self) -> Self {
        if self.state == PlaybackState::Completed {
            self
        } else {
            PlaybackTimer { state: PlaybackState::Loading, ..self }
        }
    }

    pub open spec fn after_load_completed(self, now: u64) -> Self {
        if self.state == PlaybackState::Loading {
            PlaybackTimer {
                state: PlaybackState::Running,
                time_left: self.image_time.full_time(),
                last_tick: now,
                ..self
            }
        } else {
            self
        }
    }

    /// A timer waiting for the first image of a session.
    pub fn new(image_time: ImageTime) -> (r: Self)
        ensures
            r.state == PlaybackState::Loading,
            r.image_time == image_time,
            r.time_left == image_time.full_time(),
            r.last_tick == 0,
    {
        PlaybackTimer {
            state: PlaybackState::Loading,
            image_time,
            time_left: image_time.full_time_ms(),
            last_tick: 0,
        }
    }

    /// Takes the time elapsed since the last tick off the current image while
    /// the timer runs; reports the time left, or the timeout once it runs out.
    pub fn tick(&mut self, now: u64) -> (r: TickOutcome)
        ensures
            (*final(self), r) == old(self).after_tick(now),
    {
        match self.state {
            PlaybackState::Running => {},
            _ => {
                return TickOutcome::Idle;
            },
        }
        let elapsed = if now >= self.last_tick {
            now - self.last_tick
        } else {
            0
        };
        self.last_tick = now;
        let limited = match self.image_time {
            ImageTime::FixedTime(d) => d > 0,
            ImageTime::NoLimit => false,
        };
        if !limited || self.time_left == 0 {
            TickOutcome::Idle
        } else if self.time_left <= elapsed {
            self.time_left = 0;
            TickOutcome::Timeout
        } else {
            self.time_left = self.time_left - elapsed;
            TickOutcome::TimeLeft(self.time_left)
        }
    }

    /// Pauses a running countdown; returns whether it was running.
    pub fn pause(&mut self) -> (r: bool)
        ensures
            *final(self) == old(self).after_pause(),
            r == (old(self).state == PlaybackState::Running),
    {
        match self.state {
            PlaybackState::Running => {
                self.state = PlaybackState::Paused;
                true
            },
            _ => false,
        }
    }

    /// Resumes a paused countdown from `now`, so that the pause is not
    /// counted; returns whether it was paused.
    pub fn resume(&mut self, now: u64) -> (r: bool)
        ensures
            *final(self) == old(self).after_resume(now),
            r == (old(self).state == PlaybackState::Paused),
    {
        match self.state {
            PlaybackState::Paused => {
                self.state = PlaybackState::Running;
                self.last_tick = now;
                true
            },
            _ => false,
        }
    }

    /// Suspends the countdown while an image loads, unless the session is
    /// over.
    pub fn start_loading(&mut self)
        ensures
            *final(self) == old(self).after_load_started(),
    {
        match self.state {
            PlaybackState::Completed => {},
            _ => {
                self.state = PlaybackState::Loading;
            },
        }
    }

    /// Starts the countdown of a loaded image afresh from `now`.
    pub fn load_completed(&mut self, now: u64)
        ensures
            *final(self) == old(self).after_load_completed(now),
    {
        match self.state {
            PlaybackState::Loading => {
                self.state = PlaybackState::Running;
                self.time_left = self.image_time.full_time_ms();
                self.last_tick = now;
            },
            _ => {},
        }
    }

    /// Ends the session for good.
    pub fn complete(&mut self)
        ensures
            *final(self) == (PlaybackTimer { state: PlaybackState::Completed, ..*old(self) }),
    {
        self.state = PlaybackState::Completed;
    }
}

/// Pause and resume: time spent paused is not counted. A running countdown
/// ticked at `t1`, paused, ticked any number of times while paused, resumed
/// at `t2` and ticked at `t3` has lost exactly the running time
/// `(t1 - last_tick) + (t3 - t2)`.
pub proof fn lemma_pause_not_counted(t: PlaybackTimer, t1: u64, t2: u64, t3: u64)
    requires
        t.state == PlaybackState::Running,
        t.image_time.has_limit(),
        t.last_tick <= t1 <= t2 <= t3,
        (t1 - t.last_tick) + (t3 - t2) < t.time_left,
    ensures
        ({
            let a = t.after_tick(t1).0;
            let b = a.after_pause();
            let c = b.after_resume(t2);
            let d = c.after_tick(t3);
            let left = (t.time_left - (t1 - t.last_tick) - (t3 - t2)) as u64;
            &&& b.state == PlaybackState::Paused
            &&& forall|x: u64| #[trigger] b.after_tick(x) == (b, TickOutcome::Idle)
            &&& d.1 == TickOutcome::TimeLeft(left)
            &&& d.0.time_left == left
            &&& d.0.state == PlaybackState::Running
        }),
{
}

} // verus!
