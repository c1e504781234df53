//! Rendering of log entries into the exact text form uFBT writes.
use vstd::prelude::*;
use vstd::string::*;
use crate::log::event::{spec_second_of_day, EventTime};
use crate::log::level::{spec_level_name, LogLevel};
use crate::text::{push_char, push_zero_padded, spec_zero_padded};

verus! {

/// Width of a progress bar when no other width is given.
pub const DEFAULT_BAR_WIDTH: usize = 72;

/// Character a progress bar is filled with.
pub const BAR_CHAR: char = '#';

/// `HH:MM:SS.mmm`: the time of day with every field zero-padded.
pub open spec fn spec_clock_text(hour: nat, minute: nat, second: nat, millis: nat) -> Seq<char> {
    spec_zero_padded(hour, 2) + ":"@ + spec_zero_padded(minute, 2) + ":"@ + spec_zero_padded(
        second,
        2,
    ) + "."@ + spec_zero_padded(millis, 3)
}

/// Formats a time of day as `HH:MM:SS.mmm`.
pub fn clock_text(hour: u32, minute: u32, second: u32, millis: u32) -> (r: String)
    ensures
        r@ == spec_clock_text(hour as nat, minute as nat, second as nat, millis as nat),
{
    let mut r = String::new();
    push_zero_padded(&mut r, hour as u64, 2);
    r.append(":");
    push_zero_padded(&mut r, minute as u64, 2);
    r.append(":");
    push_zero_padded(&mut r, second as u64, 2);
    r.append(".");
    push_zero_padded(&mut r, millis as u64, 3);
    r
}

/// The local time of day of `time` as `HH:MM:SS.mmm`.
pub open spec fn spec_timestamp(time: EventTime) -> Seq<char> {
    let day = spec_second_of_day(time);
    spec_clock_text(
        (day / 3600) as nat,
        (day % 3600 / 60) as nat,
        (day % 60) as nat,
        time.spec_nanos() / 1_000_000,
    )
}

/// Formats the time of day as `HH:MM:SS.mmm`.
///
/// Anything finer than a millisecond is dropped.
pub fn timestamp(time: EventTime) -> (r: String)
    ensures
        r@ == spec_timestamp(time),
{
    let day = time.second_of_day();
    clock_text(day / 3600, day % 3600 / 60, day % 60, time.nanos() / 1_000_000)
}

/// `<stamp> [L] message`: a message after its timestamp and the first letter of its level.
pub open spec fn spec_message_text(stamp: Seq<char>, level: LogLevel, message: Seq<char>) -> Seq<char> {
    stamp + " ["@ + seq![spec_level_name(level)[0]] + "] "@ + message
}

/// Formats a levelled message as `HH:MM:SS.mmm [L] message`.
pub fn message(time: EventTime, level: LogLevel, text: &str) -> (r: String)
    ensures
        r@ == spec_message_text(spec_timestamp(time), level, text@),
{
    let mut r = timestamp(time);
    r.append(" [");
    push_char(&mut r, level.letter());
    r.append("] ");
    r.append(text);
    r
}

/// The detail lines of a build step, each on a line of its own indented by two tabs.
pub open spec fn spec_detail_lines(details: Seq<Seq<char>>) -> Seq<char>
    decreases details.len(),
{
    if details.len() == 0 {
        Seq::empty()
    } else {
        spec_detail_lines(details.drop_last()) + "\n\t\t"@ + details.last()
    }
}

/// A build step as a tab-indented `tag` and `value`, then its detail lines.
pub open spec fn spec_build_text(tag: Seq<char>, value: Seq<char>, details: Seq<Seq<char>>) -> Seq<char> {
    "\t"@ + tag + "\t"@ + value + spec_detail_lines(details)
}

/// Formats a build step as a tab-indented `tag` and `value`, with each detail line on its
/// own line indented one level deeper.
pub fn build(tag: &str, value: &str, details: &[String]) -> (r: String)
    ensures
        r@ == spec_build_text(tag@, value@, details@.map_values(|line: String| line@)),
{
    let mut r = "\t".to_owned();
    r.append(tag);
    r.append("\t");
    r.append(value);
    let ghost head = r@;
    let mut i: usize = 0;
    while i < details.len()
        invariant
            i <= details@.len(),
            r@ == head + spec_detail_lines(details@.subrange(0, i as int).map_values(|line: String| line@)),
        decreases details@.len() - i,
    {
        r.append("\n\t\t");
        r.append(details[i].as_str());
        proof {
            let lines = details@.subrange(0, i + 1).map_values(|line: String| line@);
            assert(lines.drop_last() =~= details@.subrange(0, i as int).map_values(|line: String| line@));
            assert(lines.last() == details@[i as int]@);
        }
        i += 1;
    }
    assert(details@.subrange(0, details@.len() as int) =~= details@);
    r
}

/// `n` copies of `c`.
pub open spec fn repeated(c: char, n: nat) -> Seq<char> {
    Seq::new(n, |i: int| c)
}

/// Appends `n` copies of `c`.
pub fn push_repeated(s: &mut String, c: char, n: u64)
    ensures
        final(s)@ == old(s)@ + repeated(c, n as nat),
{
    let mut k: u64 = 0;
    while k < n
        invariant
            k <= n,
            s@ == old(s)@ + repeated(c, k as nat),
        decreases n - k,
    {
        push_char(s, c);
        k += 1;
        assert(s@ =~= old(s)@ + repeated(c, k as nat));
    }
}

/// The text of a progress bar: `filled` bar characters, padding up to `width`, a space and
/// the percentage text.
pub open spec fn spec_progress_bar(filled: nat, width: nat, percent: Seq<char>) -> Seq<char> {
    repeated(BAR_CHAR, filled) + repeated(' ', (width - filled) as nat) + " "@ + percent
}

/// Renders a progress bar of `width` cells of which `filled` are filled, followed by the
/// completed percentage as already formatted.
///
/// How many cells a task fills and how its percentage reads are computed in floating point
/// from its counters, by the caller.
pub fn progress_bar(filled: usize, width: usize, percent: &str) -> (r: String)
    requires
        filled <= width,
    ensures
        r@ == spec_progress_bar(filled as nat, width as nat, percent@),
{
    let mut r = String::new();
    push_repeated(&mut r, BAR_CHAR, filled as u64);
    push_repeated(&mut r, ' ', (width - filled) as u64);
    r.append(" ");
    r.append(percent);
    r
}

} // verus!
