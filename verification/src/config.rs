//! Configuration handed to the engine at startup: the initial cycle
//! durations, the persistence flag, and the icon glyphs woven into the
//! status line. Read-only for the engine; only `set-*` commands change the
//! durations, and those live on the timer itself.
use vstd::prelude::*;

verus! {

#[derive(Debug)]
pub struct Config {
    /// Initial length of a work cycle, in seconds.
    pub work_time: u16,
    /// Initial length of a short break, in seconds.
    pub short_break: u16,
    /// Initial length of a long break, in seconds.
    pub long_break: u16,
    /// Whether the timer state is persisted every tick.
    pub persist: bool,
    /// Glyph shown while the timer is stopped.
    pub play_icon: String,
    /// Glyph shown while the timer is running.
    pub pause_icon: String,
    /// Glyph shown during a work cycle.
    pub work_icon: String,
    /// Glyph shown during a break cycle.
    pub break_icon: String,
}

impl Config {
    /// The glyph in front of the remaining time: pause while running,
    /// play while stopped.
    pub open spec fn play_pause_icon_spec(self, running: bool) -> Seq<char> {
        if running {
            self.pause_icon@
        } else {
            self.play_icon@
        }
    }

    /// The glyph after the remaining time, for the kind of cycle.
    pub open spec fn cycle_icon_spec(self, on_break: bool) -> Seq<char> {
        if on_break {
            self.break_icon@
        } else {
            self.work_icon@
        }
    }

    pub fn new(
        work_time: u16,
        short_break: u16,
        long_break: u16,
        persist: bool,
        play_icon: &str,
        pause_icon: &str,
        work_icon: &str,
        break_icon: &str,
    ) -> (c: Config)
        ensures
            c.work_time == work_time,
            c.short_break == short_break,
            c.long_break == long_break,
            c.persist == persist,
            c.play_icon@ == play_icon@,
            c.pause_icon@ == pause_icon@,
            c.work_icon@ == work_icon@,
            c.break_icon@ == break_icon@,
    {
        Config {
            work_time,
            short_break,
            long_break,
            persist,
            play_icon: String::from_str(play_icon),
            pause_icon: String::from_str(pause_icon),
            work_icon: String::from_str(work_icon),
            break_icon: String::from_str(break_icon),
        }
    }

    pub fn get_play_pause_icon(&self, running: bool) -> (r: String)
        ensures
            r@ == self.play_pause_icon_spec(running),
    {
        if running {
            self.pause_icon.clone()
        } else {
            self.play_icon.clone()
        }
    }

    pub fn get_cycle_icon(&self, on_break: bool) -> (r: String)
        ensures
            r@ == self.cycle_icon_spec(on_break),
    {
        if on_break {
            self.break_icon.clone()
        } else {
            self.work_icon.clone()
        }
    }
}

} // verus!
