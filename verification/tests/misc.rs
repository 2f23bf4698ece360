use std::cell::Cell;
use teleprobe::defmt::{Level, LogRecord};
use teleprobe::logutil::{
    enabled, level_name, panic_aborts, panic_report, render_log, route, Capture, LogEntry, Routes,
};
use teleprobe::numfmt::{hex_digit_char, hex_value_of, push_dec, push_hex, read_hex_u16};
use teleprobe::text::{
    chars_eq, chars_of, contains_text, matches_at, push_chars, push_line, push_text, split_chars,
    starts_with, str_eq, string_of,
};
use teleprobe::util::ondrop::OnDrop;

fn hex(n: u128, width: usize, upper: bool) -> String {
    let mut out = Vec::new();
    push_hex(&mut out, n, width, upper);
    out.into_iter().collect()
}

fn dec(n: u128) -> String {
    let mut out = Vec::new();
    push_dec(&mut out, n);
    out.into_iter().collect()
}

#[test]
fn hexadecimal_is_written_like_the_formatter_does() {
    assert_eq!(hex(0, 0, false), "0");
    assert_eq!(hex(0, 1, false), "0");
    assert_eq!(hex(0, 8, false), "00000000");
    assert_eq!(hex(0xcafe, 0, false), "cafe");
    assert_eq!(hex(0xcafe, 0, true), "CAFE");
    assert_eq!(hex(0xcafe, 8, false), "0000cafe");
    assert_eq!(hex(0x1_2345_6789, 8, false), "123456789");
    assert_eq!(hex(u128::MAX, 0, false), "f".repeat(32));
    for n in [0u128, 9, 10, 15, 16, 255, 256, 0xdead_beef, u64::MAX as u128] {
        assert_eq!(hex(n, 0, false), format!("{:x}", n));
        assert_eq!(hex(n, 8, false), format!("{:08x}", n));
        assert_eq!(hex(n, 2, true), format!("{:02X}", n));
        assert_eq!(dec(n), format!("{}", n));
    }
    assert_eq!(dec(u128::MAX), u128::MAX.to_string());
}

#[test]
fn hexadecimal_digits() {
    assert_eq!(hex_digit_char(0, false), '0');
    assert_eq!(hex_digit_char(9, true), '9');
    assert_eq!(hex_digit_char(10, false), 'a');
    assert_eq!(hex_digit_char(15, true), 'F');
    assert_eq!(hex_value_of('0'), Some(0));
    assert_eq!(hex_value_of('9'), Some(9));
    assert_eq!(hex_value_of('a'), Some(10));
    assert_eq!(hex_value_of('F'), Some(15));
    assert_eq!(hex_value_of('g'), None);
    assert_eq!(hex_value_of('/'), None);
    assert_eq!(hex_value_of(':'), None);
    assert_eq!(hex_value_of('@'), None);
    assert_eq!(hex_value_of('`'), None);
}

#[test]
fn hexadecimal_is_read_like_from_str_radix_does() {
    let read = |s: &str| read_hex_u16(&s.chars().collect());
    for s in [
        "", "+", "-", "0", "00000", "ffff", "FFFF", "10000", "0ffff", "+1", "++1", "-1", "1 ",
        " 1", "cafe", "CaFe", "g", "12_3", "0x10", "1+", "fffff", "+ffff", "+10000", "٣",
    ] {
        assert_eq!(read(s), u16::from_str_radix(s, 16).ok(), "{:?}", s);
    }
    for n in [0u16, 1, 0x7f, 0xff, 0x100, 0xcafe, 0xffff] {
        assert_eq!(read(&hex(n as u128, 0, false)), Some(n));
        assert_eq!(read(&hex(n as u128, 9, true)), Some(n));
    }
}

#[test]
fn text_and_characters() {
    assert_eq!(chars_of("aé😀"), vec!['a', 'é', '😀']);
    assert_eq!(string_of(&vec!['a', 'é', '😀']), "aé😀");
    assert_eq!(string_of(&vec![]), "");
    let mut out = vec!['x'];
    push_text(&mut out, "yz");
    push_chars(&mut out, &vec!['!', '?']);
    assert_eq!(out, vec!['x', 'y', 'z', '!', '?']);
    let mut lines = vec!["a".to_string()];
    push_line(&mut lines, &vec!['b', 'c']);
    assert_eq!(lines, vec!["a", "bc"]);
    assert!(str_eq("", ""));
    assert!(str_eq("abc", "abc"));
    assert!(!str_eq("abc", "abd"));
    assert!(!str_eq("abc", "ab"));
    assert!(chars_eq(&vec!['a'], &vec!['a']));
    assert!(!chars_eq(&vec!['a'], &vec![]));
}

#[test]
fn searching() {
    assert!(starts_with("Bearer x", "Bearer "));
    assert!(starts_with("abc", ""));
    assert!(starts_with("", ""));
    assert!(!starts_with("ab", "abc"));
    assert!(!starts_with("xabc", "abc"));
    assert!(contains_text("1-1-port2", "-port"));
    assert!(contains_text("abc", ""));
    assert!(contains_text("", ""));
    assert!(contains_text("aab", "ab"));
    assert!(!contains_text("abc", "abd"));
    assert!(!contains_text("ab", "abc"));
    let s: Vec<char> = "hello".chars().collect();
    assert!(matches_at(&vec!['l', 'l'], &s, 2));
    assert!(!matches_at(&vec!['l', 'l'], &s, 3));
    assert!(matches_at(&vec![], &s, 5));
    assert!(!matches_at(&vec![], &s, 6));
    assert!(!matches_at(&vec!['o', 'x'], &s, 4));
}

#[test]
fn splitting_is_like_str_split() {
    for s in ["", ":", "::", "a", "a:b", ":a", "a:", "a::b", "cafe:1234:SN:x", "é:😀"] {
        let parts: Vec<String> =
            split_chars(&s.chars().collect(), ':').into_iter().map(|p| p.into_iter().collect()).collect();
        let expected: Vec<&str> = s.split(':').collect();
        assert_eq!(parts, expected, "{:?}", s);
    }
}

fn entry(level: &str, message: &str) -> LogEntry {
    LogEntry {
        message: message.to_string(),
        level: level.to_string(),
        module: None,
        file: None,
        line: None,
        timestamp_millis: 0,
    }
}

#[test]
fn log_is_written_one_line_per_entry() {
    assert_eq!(render_log(&vec![]), "");
    assert_eq!(
        render_log(&vec![entry("info", "hello"), entry("error", "two\nlines"), entry("", "")]),
        "info - hello\nerror - two\nlines\n - \n"
    );
}

#[test]
fn level_names_are_lower_case() {
    assert_eq!(level_name(Level::Error), "error");
    assert_eq!(level_name(Level::Warn), "warn");
    assert_eq!(level_name(Level::Info), "info");
    assert_eq!(level_name(Level::Debug), "debug");
    assert_eq!(level_name(Level::Trace), "trace");
}

#[test]
fn entry_of_a_record() {
    let record = LogRecord {
        level: Level::Info,
        target: "device".to_string(),
        file: Some("src/main.rs".to_string()),
        line: Some(7),
        message: "hello".to_string(),
    };
    let e = LogEntry::from_record(&record, Some("app".to_string()), 1_700_000_000_000);
    assert_eq!(e.message, "hello");
    assert_eq!(e.level, "info");
    assert_eq!(e.module.as_deref(), Some("app"));
    assert_eq!(e.file.as_deref(), Some("src/main.rs"));
    assert_eq!(e.line, Some(7));
    assert_eq!(e.timestamp_millis, 1_700_000_000_000);
    assert_eq!(render_log(&vec![e]), "info - hello\n");
}

#[test]
fn capture_keeps_entries_only_while_it_lasts() {
    let mut capture = Capture::idle();
    capture.record(entry("info", "dropped"));
    assert!(capture.entries.is_none());
    capture.begin();
    capture.record(entry("info", "one"));
    capture.record(entry("warn", "two"));
    let taken = capture.take();
    assert_eq!(render_log(&taken), "info - one\nwarn - two\n");
    assert!(capture.entries.is_none());
    capture.begin();
    assert!(capture.take().is_empty());
}

#[test]
fn records_are_routed_by_the_filters() {
    assert_eq!(route(true, false), Routes { console: true, capture: false });
    assert_eq!(route(false, true), Routes { console: false, capture: true });
    assert!(enabled(true, false));
    assert!(enabled(false, true));
    assert!(!enabled(false, false));
}

#[test]
fn panics_are_reported_and_abort_outside_a_run() {
    assert_eq!(
        panic_report("main", "boom", Some(("src/run.rs", 42)), None),
        "thread 'main' panicked at 'boom': src/run.rs:42"
    );
    assert_eq!(
        panic_report("<unnamed>", "Box<Any>", None, Some("0: frame")),
        "thread '<unnamed>' panicked at 'Box<Any>'\n0: frame"
    );
    assert_eq!(
        panic_report("w", "m", Some(("f", 0)), Some("bt")),
        "thread 'w' panicked at 'm': f:0\nbt"
    );
    assert!(panic_aborts(false));
    assert!(!panic_aborts(true));
}

#[test]
fn guard_runs_its_action_when_fired() {
    let ran = Cell::new(0);
    let guard = OnDrop::new(|| ran.set(ran.get() + 1));
    assert_eq!(ran.get(), 0);
    guard.fire();
    assert_eq!(ran.get(), 1);
}

#[test]
fn guard_that_is_defused_hands_its_action_back_unrun() {
    let ran = Cell::new(0);
    let guard = OnDrop::new(|| ran.set(ran.get() + 1));
    let action = guard.defuse();
    assert_eq!(ran.get(), 0);
    assert!(action.is_some());
    (action.unwrap())();
    assert_eq!(ran.get(), 1);
}
