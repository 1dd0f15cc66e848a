//! The tick engine behind the IPC server: applying one drained command,
//! rendering the status line, advancing the timer, and producing the
//! snapshot to persist. The surrounding binary owns the socket, the
//! channel and the clock; each tick it hands at most one pending payload
//! to `tick` and performs the I/O that the returned `TickOutput` asks for.
//! Draining at most one command per tick is deliberate: a burst of
//! commands arriving within one period is applied one per tick, in order.
use crate::cache::serialize;
use crate::cache::serialize_spec;
use crate::config::Config;
use crate::message::decode_spec;
use crate::message::Message;
use crate::strutil::contains_spec;
use crate::strutil::contains_sub;
use crate::strutil::dec_spec;
use crate::strutil::digit_val;
use crate::strutil::is_digit_char;
use crate::strutil::str_eq;
use crate::strutil::trim_spec;
use crate::strutil::trim_whitespace;
use crate::strutil::two_pad;
use crate::strutil::two_pad_spec;
use crate::strutil::u32_to_dec;
use crate::timer::class_spec;
use crate::timer::CycleType;
use crate::timer::Timer;
use vstd::prelude::*;

verus! {

/// `MM:SS` for `time` seconds: minutes and seconds, each at least two
/// digits.
pub open spec fn mmss_spec(time: nat) -> Seq<char> {
    two_pad_spec(time / 60) + seq![':'] + two_pad_spec(time % 60)
}

/// The remaining time shown in the current cycle: the configured duration
/// minus the elapsed seconds, and zero while a shrunken duration has not
/// been resolved by the next tick yet.
pub open spec fn remaining_spec(t: Timer) -> nat {
    if t.elapsed_time <= t.duration_of(t.current_cycle) {
        (t.duration_of(t.current_cycle) - t.elapsed_time) as nat
    } else {
        0
    }
}

/// The time still to go in the current cycle, as `MM:SS`.
pub fn format_time(elapsed_time: u16, max_time: u16) -> (r: String)
    requires
        elapsed_time <= max_time,
    ensures
        r@ == mmss_spec((max_time - elapsed_time) as nat),
{
    proof {
        reveal_strlit(":");
    }
    let time = max_time - elapsed_time;
    let minute = time / crate::MINUTE;
    let second = time % crate::MINUTE;
    let mut s = two_pad(minute);
    s.append(":");
    let sec = two_pad(second);
    s.append(sec.as_str());
    proof {
        assert(":"@ =~= seq![':']);
        assert(s@ =~= mmss_spec((max_time - elapsed_time) as nat));
    }
    s
}

/// The status line consumed by the status-bar host: a flat object-like
/// text with the display string, the tooltip, and the cycle class twice
/// (`alt` mirrors `class`).
pub open spec fn status_json_spec(text: Seq<char>, tooltip: Seq<char>, class: Seq<char>) -> Seq<
    char,
> {
    "{\"text\": \""@ + text + "\", \"tooltip\": \""@ + tooltip + "\", \"class\": \""@ + class
        + "\", \"alt\": \""@ + class + "\"}"@
}

/// Builds the status line from its three rendered parts.
pub fn create_message(value: String, tooltip: &str, class: &str) -> (r: String)
    ensures
        r@ == status_json_spec(value@, tooltip@, class@),
{
    let mut s = String::from_str("{\"text\": \"");
    s.append(value.as_str());
    s.append("\", \"tooltip\": \"");
    s.append(tooltip);
    s.append("\", \"class\": \"");
    s.append(class);
    s.append("\", \"alt\": \"");
    s.append(class);
    s.append("\"}");
    s
}

/// The tooltip describing the completed work sessions, singular exactly
/// for one session.
pub open spec fn tooltip_spec(n: nat) -> Seq<char> {
    dec_spec(n) + " session"@ + (if n == 1 {
        Seq::<char>::empty()
    } else {
        "s"@
    }) + " completed"@
}

/// The tooltip for `n` completed work sessions.
pub fn session_tooltip(n: u32) -> (r: String)
    ensures
        r@ == tooltip_spec(n as nat),
{
    let mut s = u32_to_dec(n);
    s.append(" session");
    if n != 1 {
        s.append("s");
    }
    s.append(" completed");
    proof {
        if n == 1 {
            assert(s@ =~= tooltip_spec(n as nat));
        } else {
            assert(s@ =~= tooltip_spec(n as nat));
        }
    }
    s
}

/// Pluralization: the tooltip says "session" for exactly one completed
/// session and "sessions" for none or several.
pub proof fn lemma_tooltip_pluralization(n: nat)
    ensures
        n == 1 ==> tooltip_spec(n) == dec_spec(n) + " session completed"@,
        n != 1 ==> tooltip_spec(n) == dec_spec(n) + " sessions completed"@,
{
    reveal_strlit(" session");
    reveal_strlit("s");
    reveal_strlit(" completed");
    reveal_strlit(" session completed");
    reveal_strlit(" sessions completed");
    if n == 1 {
        assert(tooltip_spec(n) =~= dec_spec(n) + " session completed"@);
    } else {
        assert(tooltip_spec(n) =~= dec_spec(n) + " sessions completed"@);
    }
}

/// The three derived display parts of one render.
#[derive(Debug)]
pub struct Render {
    /// Play/pause glyph, remaining time, cycle glyph, joined and cleaned.
    pub text: String,
    /// The completed-sessions tooltip.
    pub tooltip: String,
    /// The CSS-like class of the active cycle.
    pub class: String,
}

/// The display string of one render: the play/pause glyph, the remaining
/// time, and the cycle glyph, space-separated with absent glyphs leaving
/// no stray spaces behind.
pub open spec fn text_spec(t: Timer, c: Config) -> Seq<char> {
    trim_spec(
        c.play_pause_icon_spec(t.running) + seq![' '] + mmss_spec(remaining_spec(t)) + seq![' ']
            + c.cycle_icon_spec(t.current_cycle != CycleType::Work),
    )
}

/// All three parts a render derives from a timer; nothing is stored.
pub open spec fn is_render_of(r: Render, t: Timer, c: Config) -> bool {
    &&& r.text@ == text_spec(t, c)
    &&& r.tooltip@ == tooltip_spec(t.session_completed as nat)
    &&& r.class@ == class_spec(t.current_cycle)
}

/// Rendering is idempotent: two renders of the same timer under the same
/// configuration, with no tick between them, are identical.
pub proof fn lemma_render_idempotent(r1: Render, r2: Render, t: Timer, c: Config)
    requires
        is_render_of(r1, t, c),
        is_render_of(r2, t, c),
    ensures
        r1.text@ == r2.text@,
        r1.tooltip@ == r2.tooltip@,
        r1.class@ == r2.class@,
{
}

impl Timer {
    /// Derives the current display parts; pure, stores nothing, changes
    /// nothing.
    pub fn render(&self, config: &Config) -> (r: Render)
        ensures
            is_render_of(r, *self, *config),
    {
        proof {
            reveal_strlit(" ");
        }
        let max_time = self.get_current_time();
        let value = if self.elapsed_time <= max_time {
            format_time(self.elapsed_time, max_time)
        } else {
            format_time(0, 0)
        };
        let mut raw = config.get_play_pause_icon(self.running);
        raw.append(" ");
        raw.append(value.as_str());
        raw.append(" ");
        let icon = config.get_cycle_icon(self.is_break());
        raw.append(icon.as_str());
        proof {
            assert(" "@ =~= seq![' ']);
            assert(raw@ =~= config.play_pause_icon_spec(self.running) + seq![' '] + mmss_spec(
                remaining_spec(*self),
            ) + seq![' '] + config.cycle_icon_spec(self.current_cycle != CycleType::Work));
        }
        let text = trim_whitespace(raw.as_str());
        Render { text, tooltip: session_tooltip(self.session_completed), class: self.get_class() }
    }
}

/// The timer after one socket payload is applied: a structured `set-*`
/// command overwrites one duration (the wire value is minutes, truncated
/// to the field width), the bare keywords drive the running flag or reset,
/// and anything else changes nothing.
pub open spec fn process_message_spec(t: Timer, msg: Seq<char>) -> Timer {
    match decode_spec(msg) {
        Some(p) => {
            let secs = Timer::scaled_minutes((p.1 % 0x10000) as u16);
            if p.0 == "set-work"@ {
                t.with_duration(CycleType::Work, secs)
            } else if p.0 == "set-short"@ {
                t.with_duration(CycleType::ShortBreak, secs)
            } else if p.0 == "set-long"@ {
                t.with_duration(CycleType::LongBreak, secs)
            } else {
                t
            }
        },
        None => {
            if msg == "start"@ {
                Timer { running: true, ..t }
            } else if msg == "stop"@ {
                Timer { running: false, ..t }
            } else if msg == "toggle"@ {
                Timer { running: !t.running, ..t }
            } else if msg == "reset"@ {
                Timer {
                    elapsed_time: 0,
                    current_cycle: CycleType::Work,
                    running: false,
                    session_completed: 0,
                    ..t
                }
            } else {
                t
            }
        },
    }
}

/// Applies one socket payload to the timer. Malformed or unrecognized
/// payloads are silently ignored: the protocol is fire-and-forget and
/// never fails toward the client.
pub fn process_message(state: &mut Timer, message: &str)
    ensures
        *final(state) == process_message_spec(*old(state), message@),
        old(state).inv() ==> final(state).inv(),
{
    match Message::decode(message) {
        Ok(msg) => {
            let mins = (msg.value() % 0x10000) as u16;
            if str_eq(msg.name(), "set-work") {
                state.set_time(CycleType::Work, mins);
            } else if str_eq(msg.name(), "set-short") {
                state.set_time(CycleType::ShortBreak, mins);
            } else if str_eq(msg.name(), "set-long") {
                state.set_time(CycleType::LongBreak, mins);
            }
            // any other structured name: no state change
        },
        Err(_) => {
            if str_eq(message, "start") {
                state.start();
            } else if str_eq(message, "stop") {
                state.stop();
            } else if str_eq(message, "toggle") {
                state.toggle();
            } else if str_eq(message, "reset") {
                state.reset();
            }
            // any other keyword: no state change
        },
    }
}

/// The payload drained this tick, if any, applied to the timer.
pub open spec fn drained_spec(t: Timer, m: Option<Seq<char>>) -> Timer {
    match m {
        Some(s) => process_message_spec(t, s),
        None => t,
    }
}

/// One second of progress while running; nothing otherwise.
pub open spec fn run_step_spec(t: Timer) -> Timer {
    if t.running {
        Timer { elapsed_time: (t.elapsed_time + 1) as u16, ..t }
    } else {
        t
    }
}

/// The timer at the end of a tick: drain, advance one second if running,
/// resolve a completed cycle.
pub open spec fn tick_state_spec(t: Timer, m: Option<Seq<char>>) -> Timer {
    run_step_spec(drained_spec(t, m)).advanced()
}

/// The cycle entered during this tick, to be announced by the notifier;
/// `None` while no cycle completes.
pub open spec fn tick_note_spec(t: Timer, m: Option<Seq<char>>) -> Option<CycleType> {
    let mid = run_step_spec(drained_spec(t, m));
    if mid.completed() {
        Some(mid.next_cycle())
    } else {
        None
    }
}

/// The view of the payload handed to a tick.
pub open spec fn msg_view(m: Option<&str>) -> Option<Seq<char>> {
    match m {
        Some(s) => Some(s@),
        None => None,
    }
}

/// The status line of one tick, rendered from the timer right after the
/// command drain.
pub open spec fn status_line_spec(t: Timer, c: Config) -> Seq<char> {
    status_json_spec(
        text_spec(t, c),
        tooltip_spec(t.session_completed as nat),
        class_spec(t.current_cycle),
    )
}

/// Everything one tick asks the surrounding binary to do: write the
/// status line, announce an entered cycle, and persist the snapshot.
#[derive(Debug)]
pub struct TickOutput {
    /// The status line to emit on standard output.
    pub status: String,
    /// The cycle just entered, for the desktop notifier.
    pub notify: Option<CycleType>,
    /// The snapshot line to persist, when persistence is enabled.
    pub snapshot: Option<String>,
}

/// One tick of the state-owner loop: applies at most the one drained
/// payload, renders the status from the drained state, advances the timer
/// one second while running, resolves a completed cycle, and hands back
/// the snapshot to persist.
pub fn tick(state: &mut Timer, message: Option<&str>, config: &Config) -> (out: TickOutput)
    requires
        old(state).inv(),
    ensures
        *final(state) == tick_state_spec(*old(state), msg_view(message)),
        final(state).wf(),
        out.status@ == status_line_spec(drained_spec(*old(state), msg_view(message)), *config),
        out.notify == tick_note_spec(*old(state), msg_view(message)),
        match out.snapshot {
            Some(p) => config.persist && p@ == serialize_spec(*final(state)),
            None => !config.persist,
        },
{
    match message {
        Some(m) => process_message(state, m),
        None => {},
    }
    let r = state.render(config);
    let status = create_message(r.text, r.tooltip.as_str(), r.class.as_str());
    if state.running {
        state.increment_time();
    }
    let notify = state.update_state();
    let snapshot = if config.persist {
        Some(serialize(state))
    } else {
        None
    };
    TickOutput { status, notify, snapshot }
}

/// Monotonicity: observed right after any tick, the elapsed time is
/// within the configured duration of the cycle the timer is then in.
pub proof fn lemma_tick_settled(t: Timer, m: Option<Seq<char>>)
    ensures
        tick_state_spec(t, m).settled(),
{
}

/// The notification text announcing the cycle just entered.
pub open spec fn notification_body_spec(cycle: CycleType) -> Seq<char> {
    match cycle {
        CycleType::Work => "Time to work!"@,
        CycleType::ShortBreak => "Time for a short break!"@,
        CycleType::LongBreak => "Time for a long break!"@,
    }
}

/// The body of the desktop notification fired on entering `cycle`; the
/// dispatch itself is the notifier collaborator's job.
pub fn notification_body(cycle: CycleType) -> (r: &'static str)
    ensures
        r@ == notification_body_spec(cycle),
{
    match cycle {
        CycleType::Work => "Time to work!",
        CycleType::ShortBreak => "Time for a short break!",
        CycleType::LongBreak => "Time for a long break!",
    }
}

/// Whether a socket payload asks the server to shut down: it holds the
/// keyword `exit`.
pub fn payload_requests_exit(message: &str) -> (r: bool)
    ensures
        r == contains_spec(message@, "exit"@),
{
    contains_sub(message, "exit")
}

/// The instance identity an accept loop derives from its socket path: the
/// decimal digits scattered in the path, folded into one number, wrapping
/// at the field width.
pub open spec fn digits_fold_spec(s: Seq<char>) -> nat
    decreases s.len(),
{
    if s.len() == 0 {
        0
    } else {
        let p = digits_fold_spec(s.drop_last());
        if is_digit_char(s.last()) {
            (p * 10 + digit_val(s.last())) % 0x1_0000_0000
        } else {
            p
        }
    }
}

/// Folds the digits of a socket path into the instance identity.
pub fn socket_nr_from_path(path: &str) -> (r: u32)
    ensures
        r as nat == digits_fold_spec(path@),
{
    let n = path.unicode_len();
    let mut acc: u32 = 0;
    let mut i: usize = 0;
    while i < n
        invariant
            0 <= i <= n,
            n == path@.len(),
            acc as nat == digits_fold_spec(path@.subrange(0, i as int)),
        decreases n - i,
    {
        let c = path.get_char(i);
        let cv = c as u32;
        proof {
            let t = path@.subrange(0, i as int + 1);
            assert(t.drop_last() =~= path@.subrange(0, i as int));
            assert(t.last() == path@[i as int]);
        }
        if 48 <= cv && cv <= 57 {
            let wide: u64 = (acc as u64) * 10 + ((cv - 48) as u64);
            acc = (wide % 0x1_0000_0000) as u32;
        }
        i = i + 1;
    }
    proof {
        assert(path@.subrange(0, n as int) =~= path@);
    }
    acc
}

} // verus!
