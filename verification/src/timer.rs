//! The timer state machine: one work/break interval timer with configured
//! cycle durations, the seconds elapsed in the current cycle, a running
//! flag, and a count of completed work sessions. Exactly one owner mutates
//! a value of this type; everything else observes snapshots of it.
use vstd::prelude::*;

verus! {

/// Every fourth completed work session is followed by a long break
/// instead of a short one.
pub const LONG_BREAK_INTERVAL: u32 = 4;

/// The phase a timer is in: a work cycle or one of the two break cycles.
#[derive(Clone, Copy, Debug, PartialEq, Eq, Structural)]
pub enum CycleType {
    Work,
    ShortBreak,
    LongBreak,
}

/// The single mutable entity of the engine.
#[derive(Clone, Copy, Debug, PartialEq, Eq, Structural)]
pub struct Timer {
    /// Configured length of a work cycle, in seconds.
    pub work_time: u16,
    /// Configured length of a short break, in seconds.
    pub short_break: u16,
    /// Configured length of a long break, in seconds.
    pub long_break: u16,
    /// Seconds elapsed in the current cycle.
    pub elapsed_time: u16,
    /// The cycle the timer is currently in; transitions are computed, never
    /// set directly.
    pub current_cycle: CycleType,
    /// Whether the timer advances on a tick.
    pub running: bool,
    /// Completed work sessions since the last reset, for display.
    pub session_completed: u32,
    /// Instance identity derived from the socket path, keying persisted
    /// snapshots.
    pub socket_nr: u32,
}

impl Timer {
    /// The configured duration of a cycle, in seconds.
    pub open spec fn duration_of(self, cycle: CycleType) -> u16 {
        match cycle {
            CycleType::Work => self.work_time,
            CycleType::ShortBreak => self.short_break,
            CycleType::LongBreak => self.long_break,
        }
    }

    /// Machine bound that every reachable timer keeps: a tick can add one
    /// second to `elapsed_time` without overflow.
    pub open spec fn inv(self) -> bool {
        self.elapsed_time < u16::MAX
    }

    /// Elapsed time is within the current cycle's bound; holds right after
    /// every tick (a `set-*` command may break it transiently between
    /// ticks, and the next tick restores it).
    pub open spec fn settled(self) -> bool {
        self.elapsed_time <= self.duration_of(self.current_cycle)
    }

    pub open spec fn wf(self) -> bool {
        self.inv() && self.settled()
    }

    /// The current cycle has used up its configured duration.
    pub open spec fn completed(self) -> bool {
        self.elapsed_time >= self.duration_of(self.current_cycle)
    }

    /// The session count after one more work cycle completes; the count is
    /// for display only and saturates rather than wraps.
    pub open spec fn bumped_sessions(self) -> u32 {
        if self.session_completed == u32::MAX {
            self.session_completed
        } else {
            (self.session_completed + 1) as u32
        }
    }

    /// The cycle entered when the current one completes: every
    /// `LONG_BREAK_INTERVAL`-th finished work session leads into a long
    /// break, any other work session into a short one, and both breaks
    /// lead back to work.
    pub open spec fn next_cycle(self) -> CycleType {
        match self.current_cycle {
            CycleType::Work => if self.bumped_sessions() % LONG_BREAK_INTERVAL == 0 {
                CycleType::LongBreak
            } else {
                CycleType::ShortBreak
            },
            CycleType::ShortBreak => CycleType::Work,
            CycleType::LongBreak => CycleType::Work,
        }
    }

    /// The timer after the completion check of one tick: if the current
    /// cycle is complete, elapsed time restarts at zero in the next cycle
    /// and a finished work cycle is counted; otherwise nothing changes.
    pub open spec fn advanced(self) -> Timer {
        if self.completed() {
            Timer {
                elapsed_time: 0,
                current_cycle: self.next_cycle(),
                session_completed: if self.current_cycle == CycleType::Work {
                    self.bumped_sessions()
                } else {
                    self.session_completed
                },
                ..self
            }
        } else {
            self
        }
    }

    /// The timer with one cycle's configured duration replaced.
    pub open spec fn with_duration(self, cycle: CycleType, seconds: u16) -> Timer {
        match cycle {
            CycleType::Work => Timer { work_time: seconds, ..self },
            CycleType::ShortBreak => Timer { short_break: seconds, ..self },
            CycleType::LongBreak => Timer { long_break: seconds, ..self },
        }
    }

    /// The duration that `set_time` stores for a request of `minutes`
    /// minutes: scaled to seconds and capped at what the field can hold.
    pub open spec fn scaled_minutes(minutes: u16) -> u16 {
        if minutes * 60 > u16::MAX {
            u16::MAX
        } else {
            (minutes * 60) as u16
        }
    }

    /// A fresh timer: at the start of a work cycle, stopped, with no
    /// completed sessions.
    pub fn new(work_time: u16, short_break: u16, long_break: u16, socket_nr: u32) -> (t: Timer)
        ensures
            t == (Timer {
                work_time,
                short_break,
                long_break,
                elapsed_time: 0,
                current_cycle: CycleType::Work,
                running: false,
                session_completed: 0,
                socket_nr,
            }),
            t.wf(),
    {
        Timer {
            work_time,
            short_break,
            long_break,
            elapsed_time: 0,
            current_cycle: CycleType::Work,
            running: false,
            session_completed: 0,
            socket_nr,
        }
    }

    /// The configured duration of `cycle`, in seconds.
    pub fn get_time(&self, cycle: CycleType) -> (r: u16)
        ensures
            r == self.duration_of(cycle),
    {
        match cycle {
            CycleType::Work => self.work_time,
            CycleType::ShortBreak => self.short_break,
            CycleType::LongBreak => self.long_break,
        }
    }

    /// The configured duration of the current cycle, in seconds.
    pub fn get_current_time(&self) -> (r: u16)
        ensures
            r == self.duration_of(self.current_cycle),
    {
        self.get_time(self.current_cycle)
    }

    /// Overwrites the configured duration of `cycle` with `minutes`
    /// minutes; elapsed time, the current cycle, the running flag and the
    /// session count are untouched.
    pub fn set_time(&mut self, cycle: CycleType, minutes: u16)
        ensures
            *final(self) == old(self).with_duration(cycle, Timer::scaled_minutes(minutes)),
            final(self).duration_of(cycle) == Timer::scaled_minutes(minutes),
            forall|c: CycleType| c != cycle ==> final(self).duration_of(c) == old(
                self,
            ).duration_of(c),
    {
        let seconds32: u32 = (minutes as u32) * 60;
        let seconds: u16 = if seconds32 > u16::MAX as u32 {
            u16::MAX
        } else {
            seconds32 as u16
        };
        match cycle {
            CycleType::Work => self.work_time = seconds,
            CycleType::ShortBreak => self.short_break = seconds,
            CycleType::LongBreak => self.long_break = seconds,
        }
    }

    /// One second of progress in the current cycle; called once per tick
    /// while the timer runs.
    pub fn increment_time(&mut self)
        requires
            old(self).inv(),
        ensures
            *final(self) == (Timer { elapsed_time: (old(self).elapsed_time + 1) as u16, ..*old(
                self,
            ) }),
    {
        self.elapsed_time = self.elapsed_time + 1;
    }

    /// The completion check of one tick. When the current cycle has used
    /// its duration the timer moves to the next cycle and reports it for
    /// notification dispatch; otherwise nothing changes.
    pub fn update_state(&mut self) -> (note: Option<CycleType>)
        ensures
            *final(self) == old(self).advanced(),
            note == if old(self).completed() {
                Some(old(self).next_cycle())
            } else {
                None::<CycleType>
            },
            final(self).wf(),
    {
        if self.elapsed_time >= self.get_current_time() {
            let mut entered: CycleType = CycleType::Work;
            match self.current_cycle {
                CycleType::Work => {
                    self.session_completed = if self.session_completed == u32::MAX {
                        self.session_completed
                    } else {
                        self.session_completed + 1
                    };
                    entered = if self.session_completed % LONG_BREAK_INTERVAL == 0 {
                        CycleType::LongBreak
                    } else {
                        CycleType::ShortBreak
                    };
                },
                CycleType::ShortBreak => {
                    entered = CycleType::Work;
                },
                CycleType::LongBreak => {
                    entered = CycleType::Work;
                },
            }
            self.elapsed_time = 0;
            self.current_cycle = entered;
            Some(entered)
        } else {
            None
        }
    }

    /// Back to a stopped work cycle with nothing elapsed and no sessions
    /// counted; configured durations stay.
    pub fn reset(&mut self)
        ensures
            *final(self) == (Timer {
                elapsed_time: 0,
                current_cycle: CycleType::Work,
                running: false,
                session_completed: 0,
                ..*old(self)
            }),
            final(self).wf(),
    {
        self.elapsed_time = 0;
        self.current_cycle = CycleType::Work;
        self.running = false;
        self.session_completed = 0;
    }

    /// Starts the timer; mutates `running` only.
    pub fn start(&mut self)
        ensures
            *final(self) == (Timer { running: true, ..*old(self) }),
    {
        self.running = true;
    }

    /// Stops the timer; mutates `running` only.
    pub fn stop(&mut self)
        ensures
            *final(self) == (Timer { running: false, ..*old(self) }),
    {
        self.running = false;
    }

    /// Flips the running flag; mutates nothing else.
    pub fn toggle(&mut self)
        ensures
            *final(self) == (Timer { running: !old(self).running, ..*old(self) }),
    {
        self.running = !self.running;
    }

    /// Whether the timer is in one of the two break cycles.
    pub fn is_break(&self) -> (r: bool)
        ensures
            r == (self.current_cycle != CycleType::Work),
    {
        match self.current_cycle {
            CycleType::Work => false,
            CycleType::ShortBreak => true,
            CycleType::LongBreak => true,
        }
    }
}

/// The CSS-like class naming the active cycle in the status line.
pub open spec fn class_spec(cycle: CycleType) -> Seq<char> {
    match cycle {
        CycleType::Work => "work"@,
        CycleType::ShortBreak => "short-break"@,
        CycleType::LongBreak => "long-break"@,
    }
}

impl Timer {
    /// The CSS-like class for the active cycle.
    pub fn get_class(&self) -> (r: String)
        ensures
            r@ == class_spec(self.current_cycle),
    {
        match self.current_cycle {
            CycleType::Work => String::from_str("work"),
            CycleType::ShortBreak => String::from_str("short-break"),
            CycleType::LongBreak => String::from_str("long-break"),
        }
    }
}

} // verus!
