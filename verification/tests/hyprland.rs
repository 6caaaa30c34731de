use vimium_linux::hyprland::{monitor_offset_in, parse_monitor_offset};

const TWO_MONITORS: &str = r#"[{
    "id": 0,
    "name": "DP-1",
    "width": 1920,
    "height": 1080,
    "x": 0,
    "y": 0,
    "activeWorkspace": {
        "id": 1,
        "name": "1"
    },
    "focused": false,
    "dpmsStatus": true
},{
    "id": 1,
    "name": "HDMI-A-1",
    "width": 2560,
    "height": 1440,
    "x": 1920,
    "y": -360,
    "activeWorkspace": {
        "id": 2,
        "name": "2"
    },
    "focused": true,
    "dpmsStatus": true
}]"#;

#[test]
fn offset_of_the_focused_monitor() {
    assert_eq!(parse_monitor_offset(TWO_MONITORS), (1920, -360));
    let first = TWO_MONITORS.replacen("\"focused\": false", "\"focused\": true", 1);
    assert_eq!(parse_monitor_offset(&first), (0, 0));
}

#[test]
fn no_focused_monitor_gives_zero() {
    let none = TWO_MONITORS.replace("\"focused\": true", "\"focused\": false");
    assert_eq!(parse_monitor_offset(&none), (0, 0));
    assert_eq!(parse_monitor_offset(""), (0, 0));
    assert_eq!(parse_monitor_offset("\"x\": 5,\n\"y\": 6,\n"), (0, 0));
    // The words must stand exactly so.
    assert_eq!(parse_monitor_offset("\"x\": 5,\n\"focused\":true\n"), (0, 0));
}

#[test]
fn an_opening_brace_on_its_own_line_clears_the_coordinates() {
    assert_eq!(parse_monitor_offset("\"x\": 5,\n\"y\": 6,\n\"focused\": true"), (5, 6));
    assert_eq!(parse_monitor_offset("\"x\": 5,\n\"y\": 6,\n  {  \n\"focused\": true"), (0, 0));
    assert_eq!(parse_monitor_offset("\"x\": 5,\n\"y\": 6,\n{\n\"y\": 7\n\"focused\": true"), (0, 7));
    // A brace with something beside it does not.
    assert_eq!(parse_monitor_offset("\"x\": 5,\n\"y\": 6,\n},{\n\"focused\": true"), (5, 6));
    assert_eq!(parse_monitor_offset("\"x\": 5,\n\"y\": 6,\n[{\n\"focused\": true"), (5, 6));
}

#[test]
fn coordinates_in_many_forms() {
    let offset = |x: &str| parse_monitor_offset(&format!("{}\n\"focused\": true", x)).0;
    assert_eq!(offset("\"x\": 12,"), 12);
    assert_eq!(offset("\"x\":12"), 12);
    assert_eq!(offset("   \"x\":   12,,,   "), 12);
    // White space before the commas is not taken away.
    assert_eq!(offset("\"x\": 4\n\"x\":   12   ,,,"), 4);
    assert_eq!(offset("\t\"x\": -12,\r"), -12);
    assert_eq!(offset("\"x\": +12,"), 12);
    assert_eq!(offset("\"x\": 0012,"), 12);
    assert_eq!(offset("\"x\":\"x\":\"x\": 9"), 9);
    assert_eq!(offset("\"x\": 2147483647,"), 2147483647);
    assert_eq!(offset("\"x\": -2147483648,"), -2147483648);
    // No number: the coordinate stays as it was.
    assert_eq!(offset("\"x\": 4\n\"x\": 2147483648,"), 4);
    assert_eq!(offset("\"x\": 4\n\"x\": 1.5,"), 4);
    assert_eq!(offset("\"x\": 4\n\"x\": 12 ,"), 4);
    assert_eq!(offset("\"x\": 4\n\"x\": ,"), 4);
    assert_eq!(offset("\"x\": 4\n\"x\": -"), 4);
    assert_eq!(offset("\"x\": 4\n\"x\": 1 2"), 4);
    assert_eq!(offset("\"x\": 4\n\"X\": 12"), 4);
    assert_eq!(offset("\"x\": 4\n, \"x\": 12"), 4);
}

#[test]
fn the_line_that_says_focused_counts_itself() {
    assert_eq!(parse_monitor_offset("\"x\": 3, \"focused\": true"), (0, 0));
    assert_eq!(parse_monitor_offset("\"y\": 8\n\"x\": 3\n\"focused\": true, \"x\": 1"), (3, 8));
    assert_eq!(parse_monitor_offset("\"x\": 3\n\"focused\": true\n\"x\": 9\n\"focused\": true"), (3, 0));
}

#[test]
fn lines_are_taken_as_given() {
    let lines: Vec<String> = vec!["  \"x\": 7,".to_string(), "\"y\": 1".to_string(), "  \"focused\": true,".to_string()];
    assert_eq!(monitor_offset_in(&lines), (7, 1));
    assert_eq!(monitor_offset_in(&lines[..2]), (0, 0));
    assert_eq!(monitor_offset_in(&[]), (0, 0));
    assert_eq!(parse_monitor_offset("\"x\": 7,\r\n\"y\": 1\r\n\"focused\": true\r\n"), (7, 1));
}

#[test]
fn white_space_around_a_line_and_a_number_is_taken_away() {
    let spaces = [
        '\u{9}', '\u{a}', '\u{b}', '\u{c}', '\u{d}', ' ', '\u{85}', '\u{a0}', '\u{1680}',
        '\u{2000}', '\u{2001}', '\u{2002}', '\u{2003}', '\u{2004}', '\u{2005}', '\u{2006}',
        '\u{2007}', '\u{2008}', '\u{2009}', '\u{200a}', '\u{2028}', '\u{2029}', '\u{202f}',
        '\u{205f}', '\u{3000}',
    ];
    // These and no others are white space.
    for code in 0..=0x10ffffu32 {
        if let Some(c) = char::from_u32(code) {
            assert_eq!(c.is_whitespace(), spaces.contains(&c), "{:x}", code);
        }
    }
    for c in spaces {
        let lines = vec![
            format!("{}{}\"x\":{}{}17", c, c, c, c),
            format!("{}\"y\":{}-4{}{}", c, c, c, c),
            "\"focused\": true".to_string(),
        ];
        assert_eq!(monitor_offset_in(&lines), (17, -4), "{:x}", c as u32);
    }
    // What is no white space stays and spoils the number.
    for c in ['\u{200b}', '\u{180e}', '\u{feff}', '\u{1f}', '_'] {
        let lines = vec![format!("\"x\":{}17", c), "\"focused\": true".to_string()];
        assert_eq!(monitor_offset_in(&lines), (0, 0), "{:x}", c as u32);
        let lines = vec![format!("{}\"x\": 17", c), "\"focused\": true".to_string()];
        assert_eq!(monitor_offset_in(&lines), (0, 0), "{:x}", c as u32);
    }
}

/// The lines of a text: cut at every line feed, a carriage return before the
/// line feed taken away, an empty rest after the last line feed left out.
fn lines_by_hand(text: &str) -> Vec<String> {
    let mut cut: Vec<String> = text.split('\n').map(|p| p.to_string()).collect();
    let last = cut.pop().unwrap();
    let mut lines: Vec<String> = cut
        .into_iter()
        .map(|p| match p.strip_suffix('\r') {
            Some(line) => line.to_string(),
            None => p,
        })
        .collect();
    if !last.is_empty() {
        lines.push(last);
    }
    lines
}

#[test]
fn lines_end_at_line_feeds() {
    assert_eq!(lines_by_hand("foo\r\nbar\n\nbaz\r"), vec!["foo", "bar", "", "baz\r"]);
    assert_eq!(lines_by_hand("a\r\r\n\r"), vec!["a\r", "\r"]);
    assert!(lines_by_hand("").is_empty());
    // Every text of up to eight characters out of these four.
    let letters = ['a', '\r', '\n', '\u{2028}'];
    for len in 0..=8u32 {
        for n in 0..4usize.pow(len) {
            let text: String = (0..len).map(|i| letters[(n >> (2 * i)) & 3]).collect();
            let lines: Vec<String> = text.lines().map(|l| l.to_string()).collect();
            assert_eq!(lines, lines_by_hand(&text), "{:?}", text);
        }
    }
    // A carriage return without a line feed stays in its line.
    assert_eq!(parse_monitor_offset("\"x\": 5\r\"x\": 6\n\"focused\": true"), (0, 0));
    assert_eq!(parse_monitor_offset("\"x\": 5\r\n\"focused\": true\r"), (5, 0));
}
