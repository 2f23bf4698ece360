use teleprobe::probe::specifier::{ProbeSpecifier, SelectorError};

fn round_trip(text: &str) -> String {
    ProbeSpecifier::from_str(text).unwrap().to_text()
}

#[test]
fn selector_round_trip_serial() {
    assert_eq!(round_trip("ser"), "ser");
}

#[test]
fn selector_round_trip_ids() {
    assert_eq!(round_trip("cafe:1234"), "cafe:1234");
}

#[test]
fn selector_round_trip_ids_and_serial() {
    assert_eq!(round_trip("cafe:1234:SN0001"), "cafe:1234:SN0001");
}

#[test]
fn selector_parses_fields() {
    let s = ProbeSpecifier::from_str("0483:374b:066DFF").unwrap();
    assert_eq!(s.vid_pid, Some((0x0483, 0x374b)));
    assert_eq!(s.serial.as_deref(), Some("066DFF"));
    let s = ProbeSpecifier::from_str("1a86:8011").unwrap();
    assert_eq!(s.vid_pid, Some((0x1a86, 0x8011)));
    assert_eq!(s.serial, None);
    let s = ProbeSpecifier::from_str("E6614103E7").unwrap();
    assert_eq!(s.vid_pid, None);
    assert_eq!(s.serial.as_deref(), Some("E6614103E7"));
}

#[test]
fn selector_drops_leading_zeros_when_written() {
    assert_eq!(round_trip("0483:374B"), "483:374b");
    assert_eq!(round_trip("+1:0000"), "1:0");
}

#[test]
fn selector_rejects_bad_numbers() {
    assert_eq!(ProbeSpecifier::from_str("xyz:1234").unwrap_err(), SelectorError::InvalidNumber);
    assert_eq!(ProbeSpecifier::from_str("1234:").unwrap_err(), SelectorError::InvalidNumber);
    assert_eq!(ProbeSpecifier::from_str("10000:1").unwrap_err(), SelectorError::InvalidNumber);
    assert_eq!(ProbeSpecifier::from_str("-1:1").unwrap_err(), SelectorError::InvalidNumber);
    assert_eq!(ProbeSpecifier::from_str(":").unwrap_err(), SelectorError::InvalidNumber);
}

#[test]
fn selector_rejects_too_many_parts() {
    assert_eq!(ProbeSpecifier::from_str("1:2:3:4").unwrap_err(), SelectorError::InvalidShape);
}

#[test]
fn selector_empty_text_is_an_empty_serial() {
    let s = ProbeSpecifier::from_str("").unwrap();
    assert_eq!(s.vid_pid, None);
    assert_eq!(s.serial.as_deref(), Some(""));
}
