//! The persistence snapshot format: the full timer state as one line of
//! decimal fields separated by semicolons, keyed by the instance identity.
//! Reading a snapshot back is best-effort: anything malformed, out of
//! range, or written by another instance is rejected, and the caller keeps
//! its fresh state.
use crate::strutil::all_digits;
use crate::strutil::dec_spec;
use crate::strutil::join_char;
use crate::strutil::join_semi;
use crate::strutil::lemma_dec_spec;
use crate::strutil::lemma_split_join;
use crate::strutil::num_of;
use crate::strutil::parse_u32;
use crate::strutil::sep_free;
use crate::strutil::split_char_spec;
use crate::strutil::split_str;
use crate::strutil::u32_to_dec;
use crate::timer::CycleType;
use crate::timer::Timer;
use vstd::prelude::*;

verus! {

/// The digit a cycle is stored as.
pub open spec fn cycle_num(c: CycleType) -> nat {
    match c {
        CycleType::Work => 0,
        CycleType::ShortBreak => 1,
        CycleType::LongBreak => 2,
    }
}

/// The cycle a stored digit stands for.
pub open spec fn num_cycle(n: nat) -> CycleType {
    if n == 0 {
        CycleType::Work
    } else if n == 1 {
        CycleType::ShortBreak
    } else {
        CycleType::LongBreak
    }
}

pub open spec fn run_num(r: bool) -> nat {
    if r {
        1
    } else {
        0
    }
}

/// The eight decimal fields of a snapshot, in storage order.
pub open spec fn snapshot_fields(t: Timer) -> Seq<Seq<char>> {
    seq![
        dec_spec(t.socket_nr as nat),
        dec_spec(t.work_time as nat),
        dec_spec(t.short_break as nat),
        dec_spec(t.long_break as nat),
        dec_spec(t.elapsed_time as nat),
        dec_spec(cycle_num(t.current_cycle)),
        dec_spec(run_num(t.running)),
        dec_spec(t.session_completed as nat),
    ]
}

/// The snapshot line for a timer: identity, the three configured
/// durations, elapsed seconds, cycle, running flag and session count, each
/// in decimal, separated by semicolons.
pub open spec fn serialize_spec(t: Timer) -> Seq<char> {
    join_char(snapshot_fields(t), ';')
}

/// What reading a snapshot line yields: the timer it denotes, provided the
/// line has exactly eight all-digit fields, each within its field's range,
/// and the denoted timer is well formed; `None` otherwise.
pub open spec fn parse_snapshot_spec(s: Seq<char>) -> Option<Timer> {
    let parts = split_char_spec(s, ';');
    if parts.len() == 8 && (forall|i: int|
        0 <= i < 8 ==> (#[trigger] parts[i]).len() > 0 && all_digits(parts[i])) && num_of(parts[0])
        <= u32::MAX as nat && num_of(parts[1]) <= u16::MAX as nat && num_of(parts[2])
        <= u16::MAX as nat && num_of(parts[3]) <= u16::MAX as nat && num_of(parts[4])
        <= u16::MAX as nat && num_of(parts[5]) <= 2 && num_of(parts[6]) <= 1 && num_of(parts[7])
        <= u32::MAX as nat {
        let t = Timer {
            socket_nr: num_of(parts[0]) as u32,
            work_time: num_of(parts[1]) as u16,
            short_break: num_of(parts[2]) as u16,
            long_break: num_of(parts[3]) as u16,
            elapsed_time: num_of(parts[4]) as u16,
            current_cycle: num_cycle(num_of(parts[5])),
            running: num_of(parts[6]) == 1,
            session_completed: num_of(parts[7]) as u32,
        };
        if t.wf() {
            Some(t)
        } else {
            None
        }
    } else {
        None
    }
}

/// The snapshot line persisted for `t`.
pub fn serialize(t: &Timer) -> (r: String)
    ensures
        r@ == serialize_spec(*t),
{
    let cyc: u32 = match t.current_cycle {
        CycleType::Work => 0,
        CycleType::ShortBreak => 1,
        CycleType::LongBreak => 2,
    };
    let run: u32 = if t.running {
        1
    } else {
        0
    };
    let mut fields: Vec<String> = Vec::new();
    fields.push(u32_to_dec(t.socket_nr));
    fields.push(u32_to_dec(t.work_time as u32));
    fields.push(u32_to_dec(t.short_break as u32));
    fields.push(u32_to_dec(t.long_break as u32));
    fields.push(u32_to_dec(t.elapsed_time as u32));
    fields.push(u32_to_dec(cyc));
    fields.push(u32_to_dec(run));
    fields.push(u32_to_dec(t.session_completed));
    proof {
        assert(fields@.map_values(|p: String| p@) =~~= snapshot_fields(*t));
    }
    join_semi(&fields)
}

/// Reads a snapshot line back; `None` for anything malformed.
pub fn parse_snapshot(s: &str) -> (r: Option<Timer>)
    ensures
        r == parse_snapshot_spec(s@),
{
    let parts = split_str(s, ';');
    let ghost sparts = split_char_spec(s@, ';');
    if parts.len() != 8 {
        return None;
    }
    proof {
        assert(forall|i: int| 0 <= i < 8 ==> parts@.map_values(|p: String| p@)[i] == sparts[i]);
    }
    let v0 = match parse_u32(parts[0].as_str()) {
        Some(v) => v,
        None => {
            return None;
        },
    };
    let v1 = match parse_u32(parts[1].as_str()) {
        Some(v) => v,
        None => {
            return None;
        },
    };
    let v2 = match parse_u32(parts[2].as_str()) {
        Some(v) => v,
        None => {
            return None;
        },
    };
    let v3 = match parse_u32(parts[3].as_str()) {
        Some(v) => v,
        None => {
            return None;
        },
    };
    let v4 = match parse_u32(parts[4].as_str()) {
        Some(v) => v,
        None => {
            return None;
        },
    };
    let v5 = match parse_u32(parts[5].as_str()) {
        Some(v) => v,
        None => {
            return None;
        },
    };
    let v6 = match parse_u32(parts[6].as_str()) {
        Some(v) => v,
        None => {
            return None;
        },
    };
    let v7 = match parse_u32(parts[7].as_str()) {
        Some(v) => v,
        None => {
            return None;
        },
    };
    if v1 > u16::MAX as u32 || v2 > u16::MAX as u32 || v3 > u16::MAX as u32 || v4 > u16::MAX as u32
        || v5 > 2 || v6 > 1 {
        return None;
    }
    let t = Timer {
        socket_nr: v0,
        work_time: v1 as u16,
        short_break: v2 as u16,
        long_break: v3 as u16,
        elapsed_time: v4 as u16,
        current_cycle: if v5 == 0 {
            CycleType::Work
        } else if v5 == 1 {
            CycleType::ShortBreak
        } else {
            CycleType::LongBreak
        },
        running: v6 == 1,
        session_completed: v7,
    };
    if t.elapsed_time <= t.get_current_time() && t.elapsed_time < u16::MAX {
        Some(t)
    } else {
        None
    }
}

/// Applies a persisted snapshot onto a freshly constructed timer. The
/// snapshot is taken only when it parses and was written by the same
/// instance (same identity); otherwise the timer is left as it was, and
/// the caller goes on with its fresh state.
pub fn restore(state: &mut Timer, payload: &str) -> (ok: bool)
    ensures
        match parse_snapshot_spec(payload@) {
            Some(t) => if t.socket_nr == old(state).socket_nr {
                *final(state) == t && ok
            } else {
                *final(state) == *old(state) && !ok
            },
            None => *final(state) == *old(state) && !ok,
        },
        final(state).inv() || *final(state) == *old(state),
{
    match parse_snapshot(payload) {
        Some(t) => {
            if t.socket_nr == state.socket_nr {
                *state = t;
                true
            } else {
                false
            }
        },
        None => false,
    }
}

/// Round trip: a well-formed timer's snapshot line parses back to exactly
/// that timer, so a restored state matches the last stored snapshot.
pub proof fn lemma_snapshot_round_trip(t: Timer)
    requires
        t.wf(),
    ensures
        parse_snapshot_spec(serialize_spec(t)) == Some(t),
{
    let d0 = dec_spec(t.socket_nr as nat);
    let d1 = dec_spec(t.work_time as nat);
    let d2 = dec_spec(t.short_break as nat);
    let d3 = dec_spec(t.long_break as nat);
    let d4 = dec_spec(t.elapsed_time as nat);
    let d5 = dec_spec(cycle_num(t.current_cycle));
    let d6 = dec_spec(run_num(t.running));
    let d7 = dec_spec(t.session_completed as nat);
    lemma_dec_spec(t.socket_nr as nat);
    lemma_dec_spec(t.work_time as nat);
    lemma_dec_spec(t.short_break as nat);
    lemma_dec_spec(t.long_break as nat);
    lemma_dec_spec(t.elapsed_time as nat);
    lemma_dec_spec(cycle_num(t.current_cycle));
    lemma_dec_spec(run_num(t.running));
    lemma_dec_spec(t.session_completed as nat);
    let fields = snapshot_fields(t);
    assert(forall|i: int| 0 <= i < fields.len() ==> sep_free(#[trigger] fields[i], ';'));
    lemma_split_join(fields, ';');
    let parts = split_char_spec(serialize_spec(t), ';');
    assert(parts[0] == d0 && parts[1] == d1 && parts[2] == d2 && parts[3] == d3 && parts[4] == d4
        && parts[5] == d5 && parts[6] == d6 && parts[7] == d7);
}

} // verus!
