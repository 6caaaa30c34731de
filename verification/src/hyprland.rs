//! What Hyprland reports about its monitors, as far as it is needed to place
//! the pointer: the offset of the focused monitor.

use crate::text::{
    contains_text, lines, lines_of, occurs_in, parse_i32, parsed_i32, same_text, starts_with,
    texts, trim, trim_end_matches, trim_start_matches, trimmed, without_leading, without_trailing,
};
use vstd::prelude::*;

verus! {

/// The number that a line gives for `key`: the line starts with the key, and
/// what follows it, without white space around it and without commas after
/// it, is a number.
pub open spec fn coordinate(line: Seq<char>, key: Seq<char>) -> Option<i32> {
    if key.is_prefix_of(line) {
        parsed_i32(without_trailing(trimmed(without_leading(line, key)), ','))
    } else {
        None
    }
}

/// The offset that the lines from `from` on give, when `x` and `y` are the
/// coordinates read so far for the monitor at hand.
///
/// A line that is an opening brace starts a monitor and clears the
/// coordinates. A line with the key `"x":` or `"y":` and a number sets one.
/// The first line that says `"focused": true` ends the search with the
/// coordinates as they stand. Without such a line the offset is zero.
pub open spec fn scan(lines: Seq<Seq<char>>, from: int, x: i32, y: i32) -> (i32, i32)
    decreases lines.len() - from,
{
    if from < 0 || from >= lines.len() {
        (0i32, 0i32)
    } else {
        let line = trimmed(lines[from]);
        let x0 = if line == "{"@ {
            0i32
        } else {
            x
        };
        let y0 = if line == "{"@ {
            0i32
        } else {
            y
        };
        let x1 = match coordinate(line, "\"x\":"@) {
            Some(v) => v,
            None => x0,
        };
        let y1 = match coordinate(line, "\"y\":"@) {
            Some(v) => v,
            None => y0,
        };
        if occurs_in("\"focused\": true"@, line) {
            (x1, y1)
        } else {
            scan(lines, from + 1, x1, y1)
        }
    }
}

/// The offset of the focused monitor according to a report.
pub open spec fn monitor_offset(report: Seq<char>) -> (i32, i32) {
    scan(lines_of(report), 0, 0, 0)
}

/// The number that a line gives for `key`, if it gives one.
fn read_coordinate(line: &str, key: &str) -> (value: Option<i32>)
    requires
        key@.len() > 0,
    ensures
        value == coordinate(line@, key@),
{
    if starts_with(line, key) {
        parse_i32(trim_end_matches(trim(trim_start_matches(line, key)), ','))
    } else {
        None
    }
}

/// The offset of the focused monitor according to the lines of a report.
pub fn monitor_offset_in(report: &[String]) -> (offset: (i32, i32))
    ensures
        offset == scan(texts(report@), 0, 0, 0),
{
    let ghost all = texts(report@);
    let mut current_x: i32 = 0;
    let mut current_y: i32 = 0;
    let mut i: usize = 0;
    proof {
        reveal_strlit("\"x\":");
        reveal_strlit("\"y\":");
    }
    while i < report.len()
        invariant
            i <= report.len(),
            all == texts(report@),
            "\"x\":"@.len() > 0,
            "\"y\":"@.len() > 0,
            scan(all, 0, 0, 0) == scan(all, i as int, current_x, current_y),
        decreases report.len() - i,
    {
        let line = trim(report[i].as_str());
        if same_text(line, "{") {
            current_x = 0;
            current_y = 0;
        }
        match read_coordinate(line, "\"x\":") {
            Some(value) => {
                current_x = value;
            },
            None => {},
        }
        match read_coordinate(line, "\"y\":") {
            Some(value) => {
                current_y = value;
            },
            None => {},
        }
        if contains_text(line, "\"focused\": true") {
            return (current_x, current_y);
        }
        i += 1;
    }
    (0, 0)
}

/// The offset of the focused monitor according to a report of Hyprland's
/// monitors, one fact per line; zero where no monitor is focused.
pub fn parse_monitor_offset(report: &str) -> (offset: (i32, i32))
    ensures
        offset == monitor_offset(report@),
{
    let all = lines(report);
    monitor_offset_in(all.as_slice())
}

} // verus!
