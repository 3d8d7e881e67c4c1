use hexchat::{
    collect_words, command_error_message, command_return_code, eat_code, event_time_in_range,
    invalid_response_message, listener_return_code, panic_message_line, priority_code, raw_line,
    timer_interval_ms, timer_return_code, EatMode, Priority,
};

fn slots(entries: &[Option<&str>]) -> Vec<Option<String>> {
    entries.iter().map(|e| e.map(|s| s.to_string())).collect()
}

#[test]
fn eat_codes_follow_hexchat() {
    assert_eq!(eat_code(EatMode::NoOne), 0);
    assert_eq!(eat_code(EatMode::Hexchat), 1);
    assert_eq!(eat_code(EatMode::Plugin), 2);
    assert_eq!(eat_code(EatMode::All), 3);
    assert_eq!(eat_code(EatMode::All), eat_code(EatMode::Hexchat) | eat_code(EatMode::Plugin));
}

#[test]
fn priorities_are_ordered() {
    assert_eq!(Priority::highest(), Priority(127));
    assert_eq!(Priority::high(), Priority(64));
    assert_eq!(Priority::normal(), Priority(0));
    assert_eq!(Priority::low(), Priority(-64));
    assert_eq!(Priority::lowest(), Priority(-128));
    assert!(Priority::highest() > Priority::high());
    assert!(Priority::high() > Priority::normal());
    assert!(Priority::normal() > Priority::low());
    assert!(Priority::low() > Priority::lowest());
    assert_eq!(priority_code(Priority::lowest()), -128);
    assert_eq!(priority_code(Priority(5)), 5);
}

#[test]
fn words_skip_slot_zero_and_missing_entries() {
    let mut word = slots(&[Some("unused"), Some("join"), None, Some("#rust")]);
    word.resize(32, None);
    assert_eq!(collect_words(&word), vec!["join".to_string(), "#rust".to_string()]);
}

#[test]
fn words_stop_at_the_thirty_second_slot() {
    let word: Vec<Option<String>> = (0..40).map(|i| Some(format!("w{}", i))).collect();
    let words = collect_words(&word);
    assert_eq!(words.len(), 31);
    assert_eq!(words[0], "w1");
    assert_eq!(words[30], "w31");
}

#[test]
fn words_of_short_arrays() {
    assert!(collect_words(&Vec::new()).is_empty());
    assert!(collect_words(&slots(&[Some("only")])).is_empty());
    assert_eq!(collect_words(&slots(&[None, Some("a"), Some("b")])), vec!["a", "b"]);
    assert!(collect_words(&vec![None; 32]).is_empty());
}

#[test]
fn raw_line_defaults_to_empty() {
    assert_eq!(raw_line(Some("@time=x :srv PING".to_string())), "@time=x :srv PING");
    assert_eq!(raw_line(None), "");
}

#[test]
fn return_codes_after_a_panic() {
    assert_eq!(command_return_code(None), 3);
    assert_eq!(command_return_code(Some(EatMode::Plugin)), 2);
    assert_eq!(listener_return_code(None), 0);
    assert_eq!(listener_return_code(Some(EatMode::Hexchat)), 1);
    assert_eq!(listener_return_code(Some(EatMode::All)), 3);
    assert_eq!(timer_return_code(), 3);
}

#[test]
fn timer_interval_is_clamped() {
    assert_eq!(timer_interval_ms(0), 0);
    assert_eq!(timer_interval_ms(1500), 1500);
    assert_eq!(timer_interval_ms(i32::MAX as u128), i32::MAX);
    assert_eq!(timer_interval_ms(i32::MAX as u128 + 1), i32::MAX);
    assert_eq!(timer_interval_ms(u128::MAX), i32::MAX);
    let day = std::time::Duration::from_secs(86_400);
    assert_eq!(timer_interval_ms(day.as_millis()), 86_400_000);
    let long = std::time::Duration::from_secs(30 * 86_400);
    assert_eq!(timer_interval_ms(long.as_millis()), i32::MAX);
}

#[test]
fn event_time_range_matches_chrono() {
    assert!(event_time_in_range(0));
    assert!(event_time_in_range(1_431_648_000));
    assert!(event_time_in_range(-8_334_601_228_800));
    assert!(event_time_in_range(8_210_266_876_799));
    assert!(!event_time_in_range(-8_334_601_228_801));
    assert!(!event_time_in_range(8_210_266_876_800));
    assert!(!event_time_in_range(i64::MAX));
    assert!(!event_time_in_range(i64::MIN));
    for secs in [0i64, 1, -1, 8_210_266_876_799, 8_210_266_876_800, -8_334_601_228_800, -8_334_601_228_801] {
        let chrono_ok = chrono::DateTime::<chrono::Utc>::from_timestamp(secs, 0).is_some();
        assert_eq!(event_time_in_range(secs), chrono_ok);
    }
}

#[test]
fn command_error_message_joins_the_words() {
    let words = vec!["say".to_string(), "hello".to_string(), "world".to_string()];
    assert_eq!(command_error_message(&words), "Error in command '/say hello world'");
    assert_eq!(command_error_message(&vec!["quit".to_string()]), "Error in command '/quit'");
    assert_eq!(command_error_message(&Vec::new()), "Error in command '/'");
}

#[test]
fn panic_and_response_messages() {
    assert_eq!(panic_message_line("boom"), "Error message: boom");
    assert_eq!(invalid_response_message(":srv 001 nick"), "Invalid response ':srv 001 nick'");
    assert_eq!(invalid_response_message(""), "Invalid response ''");
}
