use waybar_module_pomodoro::create_message;
use waybar_module_pomodoro::format_time;
use waybar_module_pomodoro::message::DecodeError;
use waybar_module_pomodoro::message::Message;
use waybar_module_pomodoro::process_message;
use waybar_module_pomodoro::timer::CycleType;
use waybar_module_pomodoro::timer::Timer;
use waybar_module_pomodoro::LONG_BREAK_TIME;
use waybar_module_pomodoro::MINUTE;
use waybar_module_pomodoro::SHORT_BREAK_TIME;
use waybar_module_pomodoro::WORK_TIME;

fn create_timer() -> Timer {
    Timer::new(WORK_TIME, SHORT_BREAK_TIME, LONG_BREAK_TIME, 0)
}

fn get_time(timer: &Timer, cycle: CycleType) -> u16 {
    timer.get_time(cycle)
}

#[test]
fn test_format_time() {
    assert_eq!(format_time(300, 600), "05:00");
    assert_eq!(format_time(59, 60), "00:01");
    assert_eq!(format_time(0, 120), "02:00");
}

#[test]
fn test_create_message() {
    let message = "Pomodoro";
    let tooltip = "Tooltip";
    let class = "Class";

    let result = create_message(message.to_string(), tooltip, class);
    let expected = format!(
        "{{\"text\": \"{}\", \"tooltip\": \"{}\", \"class\": \"{}\", \"alt\": \"{}\"}}",
        message, tooltip, class, class
    );
    assert!(result == expected);
}

#[test]
fn test_process_message_set_work() {
    let mut timer = create_timer();
    process_message(&mut timer, &Message::new("set-work", 30).encode());
    assert_eq!(get_time(&timer, CycleType::Work), 30 * MINUTE);
}

#[test]
fn test_process_message_set_short() {
    let mut timer = create_timer();
    process_message(&mut timer, &Message::new("set-short", 3).encode());
    assert_eq!(get_time(&timer, CycleType::ShortBreak), 3 * MINUTE);
}

#[test]
fn test_process_message_set_long() {
    let mut timer = create_timer();
    process_message(&mut timer, &Message::new("set-long", 10).encode());
    assert_eq!(get_time(&timer, CycleType::LongBreak), 10 * MINUTE);
}

#[test]
fn test_process_message_start() {
    let mut timer = create_timer();
    process_message(&mut timer, "start");
    assert!(timer.running);
}

#[test]
fn test_process_message_stop() {
    let mut timer = create_timer();
    timer.running = true;
    process_message(&mut timer, "stop");
    assert!(!timer.running);
}

#[test]
fn test_process_message_toggle_and_reset() {
    let mut timer = create_timer();
    process_message(&mut timer, "toggle");
    assert!(timer.running);
    process_message(&mut timer, "toggle");
    assert!(!timer.running);

    timer.running = true;
    timer.elapsed_time = 42;
    timer.session_completed = 3;
    timer.current_cycle = CycleType::ShortBreak;
    process_message(&mut timer, "reset");
    assert_eq!(timer.elapsed_time, 0);
    assert_eq!(timer.current_cycle, CycleType::Work);
    assert!(!timer.running);
    assert_eq!(timer.session_completed, 0);
    assert_eq!(get_time(&timer, CycleType::Work), WORK_TIME);
}

#[test]
fn test_process_message_unknown_keyword_is_ignored() {
    let mut timer = create_timer();
    let before = timer;
    process_message(&mut timer, "does-not-exist");
    assert_eq!(timer, before);
}

#[test]
fn test_process_message_unknown_structured_name_is_ignored() {
    let mut timer = create_timer();
    let before = timer;
    process_message(&mut timer, "set-nap:5");
    assert_eq!(timer, before);
}

#[test]
fn test_message_encode_exact() {
    assert_eq!(Message::new("set-work", 30).encode(), "set-work:30");
    assert_eq!(Message::new("set-long", 0).encode(), "set-long:0");
    assert_eq!(
        Message::new("set-short", u32::MAX).encode(),
        "set-short:4294967295"
    );
}

#[test]
fn test_message_round_trip() {
    for name in ["set-work", "set-short", "set-long"] {
        for value in [0u32, 1, 30, 59, 1000, u32::MAX] {
            let wire = Message::new(name, value).encode();
            let back = Message::decode(&wire).expect("round trip must decode");
            assert_eq!(back.name(), name);
            assert_eq!(back.value(), value);
        }
    }
}

#[test]
fn test_decode_malformed_falls_through() {
    for payload in [
        "",
        "start",
        "set-work",
        "set-work:",
        "set-work:abc",
        "set-work:1:2",
        ":",
        ":5x",
        "set-work:4294967296",
    ] {
        assert_eq!(
            Message::decode(payload).unwrap_err(),
            DecodeError::NotStructured
        );
    }
}

#[test]
fn test_decode_accepts_any_colon_free_name() {
    let msg = Message::decode("anything:7").expect("name:digits decodes");
    assert_eq!(msg.name(), "anything");
    assert_eq!(msg.value(), 7);
}
