//! Core engine of a pomodoro status-bar module: the command protocol spoken
//! over a local socket, the timer state machine advanced on a fixed tick, the
//! textual status rendering, and the snapshot format used to persist the
//! timer across restarts. Everything here is pure computation; the sockets,
//! threads and files that drive it live in the surrounding binary.
use vstd::prelude::*;

pub mod cache;
pub mod config;
pub mod message;
pub mod server;
pub mod strutil;
pub mod timer;

pub use cache::parse_snapshot;
pub use cache::restore;
pub use cache::serialize;
pub use config::Config;
pub use server::create_message;
pub use server::format_time;
pub use server::notification_body;
pub use server::payload_requests_exit;
pub use server::process_message;
pub use server::session_tooltip;
pub use server::socket_nr_from_path;
pub use server::tick;
pub use server::Render;
pub use server::TickOutput;
pub use strutil::contains_sub;

pub use message::DecodeError;
pub use message::Message;
pub use strutil::trim_whitespace;
pub use timer::CycleType;
pub use timer::Timer;
pub use timer::LONG_BREAK_INTERVAL;

verus! {

/// Seconds in one minute; `set-*` commands carry minutes and are scaled by this.
pub const MINUTE: u16 = 60;

/// Default length of a work cycle, in seconds.
pub const WORK_TIME: u16 = 1500;

/// Default length of a short break, in seconds.
pub const SHORT_BREAK_TIME: u16 = 300;

/// Default length of a long break, in seconds.
pub const LONG_BREAK_TIME: u16 = 900;

} // verus!
