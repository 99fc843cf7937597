use countdown::date_str::DateStr;
use countdown::storage::{KEY_DURATION, KEY_MARKED, KEY_REMAINING};
use countdown::timer::TimerState;

const SEC: u64 = 1_000_000_000;

fn triple(hour: &str, minute: &str, second: &str) -> DateStr {
    DateStr { hour: hour.to_string(), minute: minute.to_string(), second: second.to_string() }
}

fn fields(d: &DateStr) -> (&str, &str, &str) {
    (d.hour.as_str(), d.minute.as_str(), d.second.as_str())
}

fn assert_fresh(t: &TimerState, now: u64) {
    assert!(t.is_paused());
    assert_eq!(t.remaining(), 0);
    assert_eq!(t.duration(), 0);
    assert_eq!(t.target(), now as u128);
    assert_eq!(fields(t.input()), ("00", "00", "00"));
    assert_eq!(fields(t.marked()), ("00", "00", "00"));
}

#[test]
fn store_keys() {
    assert_eq!(KEY_REMAINING, "remaining");
    assert_eq!(KEY_DURATION, "duration");
    assert_eq!(KEY_MARKED, "marked");
}

#[test]
fn restore_ten_sixty_five() {
    let now = 1234 * SEC;
    let t = TimerState::restore(now, Some("10"), Some("60"), Some("5"));
    assert!(t.is_paused());
    assert_eq!(t.remaining(), 10);
    assert_eq!(t.duration(), 60);
    assert_eq!(fields(t.input()), ("00", "00", "10"));
    assert_eq!(fields(t.marked()), ("00", "00", "05"));
    assert_eq!(t.target(), (now + 60 * SEC) as u128);
}

#[test]
fn restore_then_tick_anchors_the_target_on_remaining() {
    let mut t = TimerState::restore(0, Some("10"), Some("60"), Some("5"));
    t.tick(3 * SEC);
    assert!(t.is_paused());
    assert_eq!(t.remaining(), 10);
    assert_eq!(t.target(), (13 * SEC) as u128);
}

#[test]
fn restore_then_start_counts_down_from_the_shown_time() {
    let mut t = TimerState::restore(0, Some("10"), Some("60"), Some("5"));
    t.start(SEC);
    assert_eq!(t.remaining(), 10);
    assert_eq!(t.duration(), 10);
    assert_eq!(t.target(), (11 * SEC) as u128);
}

#[test]
fn restore_with_a_missing_key_gives_the_fresh_timer() {
    assert_fresh(&TimerState::restore(9, None, Some("60"), Some("5")), 9);
    assert_fresh(&TimerState::restore(9, Some("10"), None, Some("5")), 9);
    assert_fresh(&TimerState::restore(9, Some("10"), Some("60"), None), 9);
    assert_fresh(&TimerState::restore(9, None, None, None), 9);
}

#[test]
fn restore_with_a_value_that_is_no_number_gives_the_fresh_timer() {
    assert_fresh(&TimerState::restore(9, Some("ten"), Some("60"), Some("5")), 9);
    assert_fresh(&TimerState::restore(9, Some("10"), Some(""), Some("5")), 9);
    assert_fresh(&TimerState::restore(9, Some("10"), Some("60"), Some("-5")), 9);
    assert_fresh(&TimerState::restore(9, Some("10"), Some("6 0"), Some("5")), 9);
    assert_fresh(&TimerState::restore(9, Some("1.0"), Some("60"), Some("5")), 9);
    assert_fresh(&TimerState::restore(9, Some("10"), Some("60"), Some("18446744073709551616")), 9);
}

#[test]
fn restore_reads_values_as_std_does() {
    let t = TimerState::restore(0, Some("+10"), Some("0060"), Some("18446744073709551615"));
    assert_eq!(t.remaining(), 10);
    assert_eq!(t.duration(), 60);
    assert_eq!(t.marked().parse_secs(), u64::MAX);
}

#[test]
fn restore_with_large_values() {
    let t = TimerState::restore(u64::MAX, Some("360000"), Some("18446744073709551615"), Some("0"));
    assert_eq!(t.remaining(), 360_000);
    assert_eq!(t.duration(), u64::MAX);
    assert_eq!(fields(t.input()), ("100", "00", "00"));
    assert_eq!(t.target(), (u64::MAX as u128) + (u64::MAX as u128) * (SEC as u128));
}

#[test]
fn save_writes_three_decimal_numbers() {
    let mut t = TimerState::new(0);
    t.set_input(triple("01", "02", "03"));
    t.mark();
    t.set_input(triple("00", "01", "30"));
    t.start(0);
    t.tick(20 * SEC + 1);
    let saved = t.save();
    assert_eq!(saved.remaining, "69");
    assert_eq!(saved.duration, "90");
    assert_eq!(saved.marked, "3723");
}

#[test]
fn save_of_a_fresh_timer() {
    let saved = TimerState::new(5).save();
    assert_eq!(saved.remaining, "0");
    assert_eq!(saved.duration, "0");
    assert_eq!(saved.marked, "0");
}

#[test]
fn save_counts_a_mark_that_is_no_number_as_zero() {
    let mut t = TimerState::new(0);
    t.set_input(triple("ab", "", "7"));
    t.mark();
    assert_eq!(t.save().marked, "7");
}

#[test]
fn save_then_restore_round_trips_a_running_timer() {
    let mut t = TimerState::new(0);
    t.set_input(triple("01", "02", "03"));
    t.mark();
    t.set_input(triple("00", "01", "30"));
    t.start(0);
    t.tick(20 * SEC + 1);
    assert!(!t.is_paused());
    let saved = t.save();
    let now = 777 * SEC;
    let r = TimerState::restore(
        now,
        Some(saved.remaining.as_str()),
        Some(saved.duration.as_str()),
        Some(saved.marked.as_str()),
    );
    assert!(r.is_paused());
    assert_eq!(r.remaining(), t.remaining());
    assert_eq!(r.remaining(), 69);
    assert_eq!(r.duration(), t.duration());
    assert_eq!(r.duration(), 90);
    assert_eq!(r.marked().parse_secs(), t.marked().parse_secs());
    assert_eq!(fields(r.marked()), ("01", "02", "03"));
    assert_eq!(fields(r.input()), ("00", "01", "09"));
    assert_eq!(r.target(), (now + 90 * SEC) as u128);
}

#[test]
fn save_then_restore_round_trips_a_paused_timer() {
    let mut t = TimerState::new(0);
    t.set_input(triple("", "x", "75"));
    t.mark();
    t.start(0);
    t.tick(5 * SEC);
    t.pause();
    let saved = t.save();
    let r = TimerState::restore(
        1,
        Some(saved.remaining.as_str()),
        Some(saved.duration.as_str()),
        Some(saved.marked.as_str()),
    );
    assert!(r.is_paused());
    assert_eq!(r.remaining(), 70);
    assert_eq!(r.duration(), 75);
    assert_eq!(r.marked().parse_secs(), 75);
    assert_eq!(fields(r.marked()), ("00", "01", "15"));
}

#[test]
fn save_then_restore_round_trips_the_largest_values() {
    let t = TimerState::restore(
        0,
        Some("18446744073709551615"),
        Some("18446744073709551614"),
        Some("18446744073709551613"),
    );
    let saved = t.save();
    assert_eq!(saved.remaining, "18446744073709551615");
    assert_eq!(saved.duration, "18446744073709551614");
    assert_eq!(saved.marked, "18446744073709551613");
    let r = TimerState::restore(
        0,
        Some(saved.remaining.as_str()),
        Some(saved.duration.as_str()),
        Some(saved.marked.as_str()),
    );
    assert_eq!(r.remaining(), u64::MAX);
    assert_eq!(r.duration(), u64::MAX - 1);
    assert_eq!(r.marked().parse_secs(), u64::MAX - 2);
}
