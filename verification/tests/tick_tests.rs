use waybar_module_pomodoro::notification_body;
use waybar_module_pomodoro::parse_snapshot;
use waybar_module_pomodoro::payload_requests_exit;
use waybar_module_pomodoro::restore;
use waybar_module_pomodoro::serialize;
use waybar_module_pomodoro::session_tooltip;
use waybar_module_pomodoro::socket_nr_from_path;
use waybar_module_pomodoro::tick;
use waybar_module_pomodoro::timer::CycleType;
use waybar_module_pomodoro::timer::Timer;
use waybar_module_pomodoro::trim_whitespace;
use waybar_module_pomodoro::Config;

fn bare_config() -> Config {
    Config::new(1500, 300, 900, false, "", "", "", "")
}

fn fresh(work: u16, short: u16, long: u16) -> Timer {
    Timer::new(work, short, long, 0)
}

#[test]
fn test_render_idempotent() {
    let config = Config::new(1500, 300, 900, false, "P", "Q", "W", "B");
    let mut timer = fresh(1500, 300, 900);
    timer.elapsed_time = 731;
    timer.running = true;
    timer.session_completed = 2;
    let first = timer.render(&config);
    let second = timer.render(&config);
    assert_eq!(first.text, second.text);
    assert_eq!(first.tooltip, second.tooltip);
    assert_eq!(first.class, second.class);
}

#[test]
fn test_render_parts() {
    let config = Config::new(1500, 300, 900, false, "P", "Q", "W", "B");
    let timer = fresh(1500, 300, 900);
    let render = timer.render(&config);
    assert_eq!(render.text, "P 25:00 W");
    assert_eq!(render.tooltip, "0 sessions completed");
    assert_eq!(render.class, "work");
}

#[test]
fn test_status_line() {
    let config = Config::new(1500, 300, 900, false, "P", "Q", "W", "B");
    let mut timer = fresh(1500, 300, 900);
    let out = tick(&mut timer, None, &config);
    assert_eq!(
        out.status,
        "{\"text\": \"P 25:00 W\", \"tooltip\": \"0 sessions completed\", \"class\": \"work\", \"alt\": \"work\"}"
    );
    assert_eq!(out.notify, None);
    assert_eq!(out.snapshot, None);
}

#[test]
fn test_status_line_empty_icons_leave_no_spaces() {
    let config = bare_config();
    let mut timer = fresh(1500, 300, 900);
    let out = tick(&mut timer, None, &config);
    assert_eq!(
        out.status,
        "{\"text\": \"25:00\", \"tooltip\": \"0 sessions completed\", \"class\": \"work\", \"alt\": \"work\"}"
    );
}

#[test]
fn test_tooltip_pluralization() {
    assert_eq!(session_tooltip(0), "0 sessions completed");
    assert_eq!(session_tooltip(1), "1 session completed");
    assert_eq!(session_tooltip(2), "2 sessions completed");
    assert_eq!(session_tooltip(13), "13 sessions completed");
}

#[test]
fn test_scenario_work_cycle_completes() {
    let config = bare_config();
    let mut timer = fresh(1500, 300, 900);
    timer.elapsed_time = 1499;
    timer.running = true;
    let out = tick(&mut timer, None, &config);
    assert_eq!(timer.elapsed_time, 0);
    assert_eq!(timer.current_cycle, CycleType::ShortBreak);
    assert_eq!(timer.session_completed, 1);
    assert_eq!(out.notify, Some(CycleType::ShortBreak));
}

#[test]
fn test_scenario_set_work_then_render() {
    let config = bare_config();
    let mut timer = fresh(1500, 300, 900);
    let out = tick(&mut timer, Some("set-work:30"), &config);
    assert_eq!(timer.get_time(CycleType::Work), 30 * 60);
    assert_eq!(timer.elapsed_time, 0);
    assert!(out.status.contains("30:00"));
}

#[test]
fn test_scenario_one_command_per_tick() {
    let config = bare_config();
    let mut timer = fresh(1500, 300, 900);
    // Two commands arrive within one tick period; the loop drains one per
    // tick, so the second takes effect only on the following tick.
    let _ = tick(&mut timer, Some("set-work:30"), &config);
    assert_eq!(timer.get_time(CycleType::Work), 1800);
    assert_eq!(timer.get_time(CycleType::ShortBreak), 300);
    let _ = tick(&mut timer, Some("set-short:3"), &config);
    assert_eq!(timer.get_time(CycleType::ShortBreak), 180);
}

#[test]
fn test_tick_monotonicity() {
    let config = bare_config();
    let mut timer = fresh(1500, 300, 900);
    timer.running = true;
    for _ in 0..100 {
        let _ = tick(&mut timer, None, &config);
        assert!(timer.elapsed_time <= timer.get_time(timer.current_cycle));
    }
}

#[test]
fn test_tick_monotonicity_after_shrink() {
    let config = bare_config();
    let mut timer = fresh(1500, 300, 900);
    timer.elapsed_time = 1200;
    timer.running = true;
    // Shrinking the work cycle below the elapsed time is resolved by the
    // same tick's completion check, not by clamping.
    let out = tick(&mut timer, Some("set-work:1"), &config);
    assert!(timer.elapsed_time <= timer.get_time(timer.current_cycle));
    assert_eq!(timer.current_cycle, CycleType::ShortBreak);
    assert!(out.status.contains("00:00"));
}

#[test]
fn test_zero_duration_completes_next_tick() {
    let config = bare_config();
    let mut timer = fresh(1500, 300, 900);
    let _ = tick(&mut timer, Some("set-work:0"), &config);
    assert_eq!(timer.current_cycle, CycleType::ShortBreak);
    assert_eq!(timer.elapsed_time, 0);
}

#[test]
fn test_every_fourth_session_long_break() {
    let config = bare_config();
    let mut timer = fresh(1, 300, 900);
    timer.session_completed = 3;
    timer.elapsed_time = 1;
    let out = tick(&mut timer, None, &config);
    assert_eq!(timer.session_completed, 4);
    assert_eq!(timer.current_cycle, CycleType::LongBreak);
    assert_eq!(out.notify, Some(CycleType::LongBreak));
}

#[test]
fn test_breaks_return_to_work() {
    let config = bare_config();
    let mut timer = fresh(1500, 300, 900);
    timer.current_cycle = CycleType::ShortBreak;
    timer.elapsed_time = 300;
    let _ = tick(&mut timer, None, &config);
    assert_eq!(timer.current_cycle, CycleType::Work);
    assert_eq!(timer.session_completed, 0);

    timer.current_cycle = CycleType::LongBreak;
    timer.elapsed_time = 900;
    let _ = tick(&mut timer, None, &config);
    assert_eq!(timer.current_cycle, CycleType::Work);
}

#[test]
fn test_tick_persists_when_enabled() {
    let config = Config::new(1500, 300, 900, true, "", "", "", "");
    let mut timer = fresh(1500, 300, 900);
    timer.running = true;
    let out = tick(&mut timer, None, &config);
    let snapshot = out.snapshot.expect("persistence enabled");
    assert_eq!(parse_snapshot(&snapshot), Some(timer));
}

#[test]
fn test_snapshot_round_trip() {
    let mut timer = Timer::new(1500, 300, 900, 17);
    timer.elapsed_time = 345;
    timer.current_cycle = CycleType::LongBreak;
    timer.running = true;
    timer.session_completed = 8;
    let line = serialize(&timer);
    assert_eq!(line, "17;1500;300;900;345;2;1;8");
    assert_eq!(parse_snapshot(&line), Some(timer));
}

#[test]
fn test_scenario_restart_restores_snapshot() {
    // A restart mid-cycle: the freshly constructed timer takes over the
    // elapsed time, cycle and running flag of the last stored snapshot.
    let mut before = Timer::new(1500, 300, 900, 7);
    before.elapsed_time = 1200;
    before.current_cycle = CycleType::Work;
    before.running = true;
    before.session_completed = 2;
    let stored = serialize(&before);

    let mut after = Timer::new(1500, 300, 900, 7);
    assert!(restore(&mut after, &stored));
    assert_eq!(after.elapsed_time, before.elapsed_time);
    assert_eq!(after.current_cycle, before.current_cycle);
    assert_eq!(after.running, before.running);
    assert_eq!(after, before);
}

#[test]
fn test_restore_rejects_other_instance() {
    let mut other = Timer::new(1500, 300, 900, 9);
    other.elapsed_time = 44;
    let stored = serialize(&other);

    let mut mine = Timer::new(1500, 300, 900, 7);
    let fresh_copy = mine;
    assert!(!restore(&mut mine, &stored));
    assert_eq!(mine, fresh_copy);
}

#[test]
fn test_restore_rejects_corrupt_payloads() {
    let mut timer = Timer::new(1500, 300, 900, 0);
    let fresh_copy = timer;
    for payload in [
        "",
        "garbage",
        "1;2;3",
        "0;1500;300;900;0;0;0",
        "0;1500;300;900;0;0;0;0;0",
        "0;1500;300;900;x;0;0;0",
        "0;1500;300;900;0;3;0;0",
        "0;1500;300;900;0;0;2;0",
        "0;70000;300;900;0;0;0;0",
        "0;1500;300;900;1501;0;0;0",
    ] {
        assert!(!restore(&mut timer, payload));
        assert_eq!(timer, fresh_copy);
    }
}

#[test]
fn test_payload_requests_exit() {
    assert!(payload_requests_exit("exit"));
    assert!(payload_requests_exit("please exit now"));
    assert!(!payload_requests_exit("exi"));
    assert!(!payload_requests_exit("start"));
    assert!(!payload_requests_exit(""));
}

#[test]
fn test_socket_nr_from_path() {
    assert_eq!(socket_nr_from_path("/tmp/module-pomodoro0.socket"), 0);
    assert_eq!(socket_nr_from_path("/tmp/module-pomodoro7.socket"), 7);
    assert_eq!(socket_nr_from_path("/tmp/module-pomodoro12.socket"), 12);
    assert_eq!(socket_nr_from_path("/tmp/no-digits/"), 0);
}

#[test]
fn test_trim_whitespace() {
    assert_eq!(trim_whitespace("  a   b  "), "a b");
    assert_eq!(trim_whitespace(""), "");
    assert_eq!(trim_whitespace("   "), "");
    assert_eq!(trim_whitespace("plain"), "plain");
    assert_eq!(trim_whitespace(" 25:00 "), "25:00");
}

#[test]
fn test_notification_body() {
    assert_eq!(notification_body(CycleType::Work), "Time to work!");
    assert_eq!(
        notification_body(CycleType::ShortBreak),
        "Time for a short break!"
    );
    assert_eq!(
        notification_body(CycleType::LongBreak),
        "Time for a long break!"
    );
}
