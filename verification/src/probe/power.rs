//! Power to the USB ports that feed the probes: which device a serial
//! number means, and how the ports of the hubs are switched on.
use crate::numfmt::{bytes_hex, hex_digit_char};
use crate::text::{chars_of, chars_eq, contains_text, is_infix, push_text, str_eq, string_of};
use vstd::prelude::*;
use vstd::string::StringSliceAdditionalSpecFns;
use vstd::utf8::encode_utf8;

verus! {

/// USB device class of a hub.
pub const USB_CLASS_HUB: u8 = 0x09;

/// Passes over the hubs that are made at most.
pub const MAX_ITERATIONS: usize = 5;

/// Seconds to wait between two passes, for hubs behind the ports that were
/// switched on to appear.
pub const PASS_WAIT_SECONDS: u64 = 20;

/// The UTF-8 bytes of the text, each as two upper-case hexadecimal digits.
pub open spec fn text_hex(s: Seq<char>) -> Seq<char> {
    bytes_hex(encode_utf8(s), true)
}

/// The bytes of the text, each as two upper-case hexadecimal digits.
pub fn to_hex(s: &str) -> (hex: String)
    ensures
        hex@ == text_hex(s@),
{
    let bytes = s.as_bytes();
    let mut out: Vec<char> = Vec::new();
    let mut i: usize = 0;
    while i < bytes.len()
        invariant
            i <= bytes.len(),
            bytes@ == s.spec_bytes(),
            out@ == bytes_hex(bytes@.take(i as int), true),
        decreases bytes.len() - i,
    {
        assert(bytes@.take(i + 1).drop_last() == bytes@.take(i as int));
        assert(bytes@.take(i + 1).last() == bytes@[i as int]);
        let b: u8 = bytes[i];
        out.push(hex_digit_char(b / 16, true));
        out.push(hex_digit_char(b % 16, true));
        i += 1;
    }
    assert(bytes@.take(bytes@.len() as int) == bytes@);
    string_of(&out)
}

/// A USB device is the one that a probe's serial number means when its own
/// serial number is that text, or is spelled by it in hexadecimal.
pub open spec fn serial_means(device: Seq<char>, probe_serial: Seq<char>) -> bool {
    device == probe_serial || text_hex(device) == probe_serial
}

/// Whether the serial number of a USB device is the one that names a
/// probe.
pub fn serial_matches(device_serial: &str, probe_serial: &str) -> (r: bool)
    ensures
        r == serial_means(device_serial@, probe_serial@),
{
    if str_eq(device_serial, probe_serial) {
        return true;
    }
    let hex = to_hex(device_serial);
    str_eq(hex.as_str(), probe_serial)
}

/// The first device in the list whose serial number means the probe. A
/// device without a serial number is listed with the empty one.
pub fn find_device(serials: &Vec<String>, probe_serial: &str) -> (r: Option<usize>)
    ensures
        match r {
            Some(i) => i < serials.len() && serial_means(serials[i as int]@, probe_serial@)
                && forall|j: int|
                0 <= j < i ==> !serial_means((#[trigger] serials[j])@, probe_serial@),
            None => forall|j: int|
                0 <= j < serials.len() ==> !serial_means((#[trigger] serials[j])@, probe_serial@),
        },
{
    let mut i: usize = 0;
    while i < serials.len()
        invariant
            i <= serials.len(),
            forall|j: int| 0 <= j < i ==> !serial_means((#[trigger] serials[j])@, probe_serial@),
        decreases serials.len() - i,
    {
        if serial_matches(serials[i].as_str(), probe_serial) {
            return Some(i);
        }
        i += 1;
    }
    None
}

/// One thing to do to the port of a probe.
#[derive(Debug, Clone, Copy, PartialEq, Eq, Structural)]
pub enum PortStep {
    /// Write this digit to the `disable` file of the port.
    WriteDisable { value: u8 },
    /// Sleep.
    Sleep { millis: u64 },
}

/// The steps of a power cycle: the port is disabled, left off for the
/// delay, and enabled again.
pub open spec fn power_cycle_steps(delay_millis: u64) -> Seq<PortStep> {
    seq![
        PortStep::WriteDisable { value: 1 },
        PortStep::Sleep { millis: delay_millis },
        PortStep::WriteDisable { value: 0 },
    ]
}

/// Lists the steps of a power cycle.
pub fn power_reset(delay_millis: u64) -> (steps: Vec<PortStep>)
    ensures
        steps@ == power_cycle_steps(delay_millis),
{
    let mut steps: Vec<PortStep> = Vec::new();
    steps.push(PortStep::WriteDisable { value: 1 });
    steps.push(PortStep::Sleep { millis: delay_millis });
    steps.push(PortStep::WriteDisable { value: 0 });
    steps
}

/// Whether a USB device is a hub.
pub fn is_hub(class: u8) -> (r: bool)
    ensures
        r == (class == USB_CLASS_HUB),
{
    class == USB_CLASS_HUB
}

/// The name of the directory of a hub's interface: the name of the hub's
/// own directory and `:1.0`.
pub fn hub_interface_name(device_name: &str) -> (name: String)
    ensures
        name@ == device_name@ + ":1.0"@,
{
    let mut out: Vec<char> = Vec::new();
    push_text(&mut out, device_name);
    push_text(&mut out, ":1.0");
    string_of(&out)
}

/// Whether an entry of a hub's interface directory is a port: a directory
/// with `-port` in its name.
pub fn is_port_entry(name: &str, is_dir: bool) -> (r: bool)
    ensures
        r == (is_dir && is_infix("-port"@, name@)),
{
    is_dir && contains_text(name, "-port")
}

/// White space, as `char::is_whitespace` has it.
pub open spec fn is_space(c: char) -> bool {
    let code = c as u32;
    ||| 0x09 <= code <= 0x0d
    ||| code == 0x20
    ||| code == 0x85
    ||| code == 0xa0
    ||| code == 0x1680
    ||| 0x2000 <= code <= 0x200a
    ||| code == 0x2028
    ||| code == 0x2029
    ||| code == 0x202f
    ||| code == 0x205f
    ||| code == 0x3000
}

/// Whether a character is white space.
pub fn is_whitespace(c: char) -> (r: bool)
    ensures
        r == is_space(c),
{
    let code: u32 = c as u32;
    (0x09 <= code && code <= 0x0d) || code == 0x20 || code == 0x85 || code == 0xa0 || code
        == 0x1680 || (0x2000 <= code && code <= 0x200a) || code == 0x2028 || code == 0x2029
        || code == 0x202f || code == 0x205f || code == 0x3000
}

/// The number of white-space characters at the start of the text.
pub open spec fn leading_spaces(s: Seq<char>) -> int
    decreases s.len(),
{
    if s.len() > 0 && is_space(s[0]) {
        1 + leading_spaces(s.skip(1))
    } else {
        0
    }
}

/// The number of white-space characters at the end of the text.
pub open spec fn trailing_spaces(s: Seq<char>) -> int
    decreases s.len(),
{
    if s.len() > 0 && is_space(s.last()) {
        1 + trailing_spaces(s.drop_last())
    } else {
        0
    }
}

/// The text without the white space at its start and at its end.
pub open spec fn trimmed(s: Seq<char>) -> Seq<char> {
    let start = leading_spaces(s);
    if start >= s.len() {
        Seq::empty()
    } else {
        s.subrange(start, s.len() - trailing_spaces(s))
    }
}

proof fn lemma_leading_spaces(s: Seq<char>, k: int)
    requires
        0 <= k <= s.len(),
        forall|j: int| 0 <= j < k ==> is_space(#[trigger] s[j]),
        k < s.len() ==> !is_space(s[k]),
    ensures
        leading_spaces(s) == k,
    decreases s.len(),
{
    if k > 0 {
        assert(is_space(s[0]));
        assert forall|j: int| 0 <= j < k - 1 implies is_space(#[trigger] s.skip(1)[j]) by {
            assert(s.skip(1)[j] == s[j + 1]);
        }
        lemma_leading_spaces(s.skip(1), k - 1);
    }
}

proof fn lemma_trailing_spaces(s: Seq<char>, k: int)
    requires
        0 <= k <= s.len(),
        forall|j: int| s.len() - k <= j < s.len() ==> is_space(#[trigger] s[j]),
        k < s.len() ==> !is_space(s[s.len() - k - 1]),
    ensures
        trailing_spaces(s) == k,
    decreases s.len(),
{
    if k > 0 {
        assert(is_space(s.last()));
        assert forall|j: int| s.drop_last().len() - (k - 1) <= j < s.drop_last().len() implies is_space(
            #[trigger] s.drop_last()[j],
        ) by {
            assert(s.drop_last()[j] == s[j]);
        }
        lemma_trailing_spaces(s.drop_last(), k - 1);
    }
}

/// The text without the white space at its start and at its end.
pub fn trim(s: &Vec<char>) -> (t: Vec<char>)
    ensures
        t@ == trimmed(s@),
{
    let mut start: usize = 0;
    while start < s.len() && is_whitespace(s[start])
        invariant
            start <= s.len(),
            forall|j: int| 0 <= j < start ==> is_space(#[trigger] s@[j]),
        decreases s.len() - start,
    {
        start += 1;
    }
    proof {
        lemma_leading_spaces(s@, start as int);
    }
    if start == s.len() {
        return Vec::new();
    }
    let mut end: usize = s.len();
    while end > start && is_whitespace(s[end - 1])
        invariant
            start <= end <= s.len(),
            start < s.len(),
            !is_space(s@[start as int]),
            forall|j: int| end <= j < s.len() ==> is_space(#[trigger] s@[j]),
        decreases end,
    {
        end -= 1;
    }
    proof {
        lemma_trailing_spaces(s@, s.len() - end);
    }
    let mut t: Vec<char> = Vec::new();
    let mut i: usize = start;
    while i < end
        invariant
            start <= i <= end <= s.len(),
            t@ == s@.subrange(start as int, i as int),
        decreases end - i,
    {
        t.push(s[i]);
        assert(s@.subrange(start as int, i + 1) == s@.subrange(start as int, i as int).push(
            s@[i as int],
        ));
        i += 1;
    }
    t
}

/// Whether the `disable` file of a port says that the port has power: its
/// contents, white space at both ends aside, are `0`.
pub fn port_is_enabled(state: &str) -> (r: bool)
    ensures
        r == (trimmed(state@) == "0"@),
{
    let t = trim(&chars_of(state));
    let zero = chars_of("0");
    chars_eq(&t, &zero)
}

/// What follows a pass over the hubs.
#[derive(Debug, Clone, Copy, PartialEq, Eq, Structural)]
pub enum PassAction {
    /// Nothing: all ports have power, or the passes are used up.
    Done,
    /// Wait, then make another pass.
    WaitThenScan { seconds: u64 },
}

/// What follows pass number `iteration`, counted from 1: another pass after
/// a wait where the pass switched a port on and passes are left.
pub open spec fn pass_decision(iteration: nat, any_enabled: bool) -> PassAction {
    if any_enabled && iteration < MAX_ITERATIONS {
        PassAction::WaitThenScan { seconds: PASS_WAIT_SECONDS }
    } else {
        PassAction::Done
    }
}

/// Decides what follows a pass over the hubs.
pub fn power_enable(iteration: usize, any_enabled: bool) -> (action: PassAction)
    ensures
        action == pass_decision(iteration as nat, any_enabled),
{
    if any_enabled && iteration < MAX_ITERATIONS {
        PassAction::WaitThenScan { seconds: PASS_WAIT_SECONDS }
    } else {
        PassAction::Done
    }
}

/// At most five passes are made: no pass from the fifth on is followed by
/// another, and a pass that switched nothing on is the last.
pub proof fn lemma_passes_are_bounded(iteration: nat, any_enabled: bool)
    ensures
        iteration >= MAX_ITERATIONS ==> pass_decision(iteration, any_enabled) == PassAction::Done,
        !any_enabled ==> pass_decision(iteration, any_enabled) == PassAction::Done,
{
}

} // verus!
