use chrono::{DateTime, Duration, Local, TimeZone};

use ufbt::log::format::{
    build, clock_text, message, progress_bar, timestamp, BAR_CHAR, DEFAULT_BAR_WIDTH,
};
use ufbt::log::{EventTime, LogLevel};

fn event_time(moment: DateTime<Local>) -> EventTime {
    EventTime::new(
        moment.timestamp(),
        moment.timestamp_subsec_nanos(),
        moment.offset().local_minus_utc(),
    )
}

fn at(hour: u32, minute: u32, second: u32, micros: i64) -> EventTime {
    event_time(
        Local
            .with_ymd_and_hms(2026, 8, 23, hour, minute, second)
            .earliest()
            .expect("local time exists")
            + Duration::microseconds(micros),
    )
}

fn sample_time() -> EventTime {
    at(14, 5, 9, 7_000)
}

#[test]
fn constants_match_original() {
    assert_eq!(DEFAULT_BAR_WIDTH, 72);
    assert_eq!(BAR_CHAR, '#');
}

#[test]
fn timestamp_pads_every_field() {
    assert_eq!(timestamp(sample_time()), "14:05:09.007");

    let midnight = event_time(
        Local
            .with_ymd_and_hms(2026, 1, 2, 0, 0, 0)
            .earliest()
            .expect("local time exists"),
    );
    assert_eq!(timestamp(midnight), "00:00:00.000");

    let last_moment = event_time(
        Local
            .with_ymd_and_hms(2026, 12, 31, 23, 59, 59)
            .earliest()
            .expect("local time exists")
            + Duration::milliseconds(999),
    );
    assert_eq!(timestamp(last_moment), "23:59:59.999");
}

#[test]
fn timestamp_drops_sub_millisecond_precision() {
    assert_eq!(timestamp(at(14, 5, 9, 7_999)), "14:05:09.007");
}

#[test]
fn message_carries_the_level_letter() {
    let time = sample_time();
    assert_eq!(
        message(time, LogLevel::Debug, "hello world"),
        "14:05:09.007 [D] hello world"
    );
    assert_eq!(
        message(time, LogLevel::Info, "hello world"),
        "14:05:09.007 [I] hello world"
    );
    assert_eq!(
        message(time, LogLevel::Warning, "hello world"),
        "14:05:09.007 [W] hello world"
    );
    assert_eq!(
        message(time, LogLevel::Error, "hello world"),
        "14:05:09.007 [E] hello world"
    );
    assert_eq!(
        message(time, LogLevel::Critical, "hello world"),
        "14:05:09.007 [C] hello world"
    );
    assert_eq!(message(time, LogLevel::Info, ""), "14:05:09.007 [I] ");
}

#[test]
fn build_indents_with_tabs() {
    assert_eq!(build("CC", "src/main.c", &[]), "\tCC\tsrc/main.c");
    assert_eq!(
        build("CC", "src/main.c", &["-Os".to_owned()]),
        "\tCC\tsrc/main.c\n\t\t-Os"
    );
    assert_eq!(
        build("LINK", "app.fap", &["-Os".to_owned(), "-Wall".to_owned()]),
        "\tLINK\tapp.fap\n\t\t-Os\n\t\t-Wall"
    );
    assert_eq!(build("", "", &[String::new()]), "\t\t\n\t\t");
}

#[test]
fn clock_text_pads_and_keeps_a_leap_second() {
    assert_eq!(clock_text(0, 0, 0, 0), "00:00:00.000");
    assert_eq!(clock_text(9, 8, 7, 65), "09:08:07.065");
    assert_eq!(clock_text(23, 59, 59, 1_500), "23:59:59.1500");
}

#[test]
fn a_progress_bar_is_filled_then_padded_then_followed_by_its_percentage() {
    let bar = progress_bar(36, DEFAULT_BAR_WIDTH, " 50.0%");
    assert_eq!(bar.chars().filter(|c| *c == BAR_CHAR).count(), 36);
    assert_eq!(bar.len(), DEFAULT_BAR_WIDTH + " 100.0%".len());
    assert!(bar.ends_with("  50.0%"));

    assert_eq!(progress_bar(3, 10, " 33.3%"), "###         33.3%");
    assert_eq!(progress_bar(10, 10, "100.0%"), "########## 100.0%");
    assert_eq!(progress_bar(0, 0, " 33.3%"), "  33.3%");
    assert_eq!(progress_bar(0, 1, "  0.0%"), "    0.0%");
}
