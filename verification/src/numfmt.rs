//! Numbers as text: hexadecimal and decimal digits, written and read back.
use vstd::prelude::*;

verus! {

/// The character for one hexadecimal digit, `d` in `0..16`.
pub open spec fn hex_digit(d: int, upper: bool) -> char {
    if d < 10 {
        ('0' as int + d) as char
    } else if upper {
        ('A' as int + d - 10) as char
    } else {
        ('a' as int + d - 10) as char
    }
}

/// `n` in hexadecimal, most significant digit first, with zeros in front
/// until there are at least `width` digits, and never fewer than one.
pub open spec fn hex_text(n: nat, width: nat, upper: bool) -> Seq<char>
    decreases n + width,
{
    if n < 16 && width <= 1 {
        seq![hex_digit(n as int, upper)]
    } else {
        hex_text(n / 16, if width > 0 { (width - 1) as nat } else { 0 }, upper).push(
            hex_digit((n % 16) as int, upper),
        )
    }
}

/// The character for one decimal digit, `d` in `0..10`.
pub open spec fn dec_digit(d: int) -> char {
    ('0' as int + d) as char
}

/// `n` in decimal, most significant digit first, without leading zeros.
pub open spec fn dec_text(n: nat) -> Seq<char>
    decreases n,
{
    if n < 10 {
        seq![dec_digit(n as int)]
    } else {
        dec_text(n / 10).push(dec_digit((n % 10) as int))
    }
}

/// The bytes in hexadecimal, two digits each.
pub open spec fn bytes_hex(bytes: Seq<u8>, upper: bool) -> Seq<char>
    decreases bytes.len(),
{
    if bytes.len() == 0 {
        Seq::empty()
    } else {
        bytes_hex(bytes.drop_last(), upper).push(hex_digit((bytes.last() / 16) as int, upper)).push(
            hex_digit((bytes.last() % 16) as int, upper),
        )
    }
}

/// The character for the hexadecimal digit `d`.
pub fn hex_digit_char(d: u8, upper: bool) -> (c: char)
    requires
        d < 16,
    ensures
        c == hex_digit(d as int, upper),
{
    if d < 10 {
        (0x30u8 + d) as char
    } else if upper {
        (0x41u8 + (d - 10)) as char
    } else {
        (0x61u8 + (d - 10)) as char
    }
}

/// Appends `n` in hexadecimal with at least `width` digits.
pub fn push_hex(out: &mut Vec<char>, n: u128, width: usize, upper: bool)
    ensures
        final(out)@ == old(out)@ + hex_text(n as nat, width as nat, upper),
    decreases n + width,
{
    if n < 16 && width <= 1 {
        let c = hex_digit_char(n as u8, upper);
        out.push(c);
        assert(old(out)@.push(c) == old(out)@ + seq![c]);
    } else {
        let rest: usize = if width > 0 { width - 1 } else { 0 };
        push_hex(out, n / 16, rest, upper);
        let c = hex_digit_char((n % 16) as u8, upper);
        out.push(c);
        assert((old(out)@ + hex_text((n / 16) as nat, rest as nat, upper)).push(c) == old(out)@
            + hex_text((n / 16) as nat, rest as nat, upper).push(c));
    }
}

/// Appends `n` in decimal.
pub fn push_dec(out: &mut Vec<char>, n: u128)
    ensures
        final(out)@ == old(out)@ + dec_text(n as nat),
    decreases n,
{
    if n < 10 {
        let c = (0x30u8 + n as u8) as char;
        out.push(c);
        assert(old(out)@.push(c) == old(out)@ + seq![c]);
    } else {
        push_dec(out, n / 10);
        let c = (0x30u8 + (n % 10) as u8) as char;
        out.push(c);
        assert((old(out)@ + dec_text((n / 10) as nat)).push(c) == old(out)@ + dec_text(
            (n / 10) as nat,
        ).push(c));
    }
}

/// What a character is worth as a hexadecimal digit, in either case.
pub open spec fn hex_value(c: char) -> Option<int> {
    if '0' <= c <= '9' {
        Some(c as int - '0' as int)
    } else if 'a' <= c <= 'f' {
        Some(c as int - 'a' as int + 10)
    } else if 'A' <= c <= 'F' {
        Some(c as int - 'A' as int + 10)
    } else {
        None
    }
}

/// Every character of `s` is a hexadecimal digit.
pub open spec fn all_hex(s: Seq<char>) -> bool {
    forall|i: int| 0 <= i < s.len() ==> (#[trigger] hex_value(s[i])) is Some
}

/// The number that the hexadecimal digits of `s` spell.
pub open spec fn hex_number(s: Seq<char>) -> int
    decreases s.len(),
{
    if s.len() == 0 {
        0
    } else {
        hex_number(s.drop_last()) * 16 + hex_value(s.last()).unwrap_or(0)
    }
}

/// The digits of a number text: what follows one optional `+` sign.
pub open spec fn unsigned_digits(s: Seq<char>) -> Seq<char> {
    if s.len() > 0 && s[0] == '+' {
        s.skip(1)
    } else {
        s
    }
}

/// A 16-bit number read from hexadecimal text: an optional `+`, then one or
/// more digits in either case, leading zeros allowed, the value at most
/// `0xffff`. Anything else is no number.
pub open spec fn parse_hex_u16(s: Seq<char>) -> Option<u16> {
    let d = unsigned_digits(s);
    if d.len() == 0 || !all_hex(d) || hex_number(d) > 0xffff {
        None
    } else {
        Some(hex_number(d) as u16)
    }
}

/// What `c` is worth as a hexadecimal digit.
pub fn hex_value_of(c: char) -> (r: Option<u8>)
    ensures
        match r {
            Some(v) => hex_value(c) == Some(v as int) && v < 16,
            None => hex_value(c) is None,
        },
{
    let code: u32 = c as u32;
    if 0x30 <= code && code <= 0x39 {
        Some((code - 0x30) as u8)
    } else if 0x61 <= code && code <= 0x66 {
        Some((code - 0x61 + 10) as u8)
    } else if 0x41 <= code && code <= 0x46 {
        Some((code - 0x41 + 10) as u8)
    } else {
        None
    }
}

/// A prefix of hexadecimal digits spells no more than the whole.
pub proof fn lemma_hex_number_grows(s: Seq<char>, k: int)
    requires
        0 <= k <= s.len(),
    ensures
        0 <= hex_number(s.take(k)) <= hex_number(s),
    decreases s.len(),
{
    if s.len() == 0 {
        assert(s.take(k) == s);
    } else if k == s.len() {
        assert(s.take(k) == s);
        lemma_hex_number_grows(s.drop_last(), k - 1);
        assert(s.drop_last().take(k - 1) == s.drop_last());
    } else {
        lemma_hex_number_grows(s.drop_last(), k);
        assert(s.drop_last().take(k) == s.take(k));
        lemma_hex_number_grows(s.drop_last(), s.len() - 1);
        assert(s.drop_last().take(s.len() - 1) == s.drop_last());
    }
}

/// Reads a 16-bit number from hexadecimal text.
pub fn read_hex_u16(s: &Vec<char>) -> (r: Option<u16>)
    ensures
        r == parse_hex_u16(s@),
{
    let start: usize = if s.len() > 0 && s[0] == '+' { 1 } else { 0 };
    let ghost d = unsigned_digits(s@);
    assert(d == s@.skip(start as int));
    if start == s.len() {
        return None;
    }
    let mut acc: u32 = 0;
    let mut i: usize = start;
    while i < s.len()
        invariant
            start <= i <= s.len(),
            d == s@.skip(start as int),
            d == unsigned_digits(s@),
            d.len() > 0,
            acc <= 0xffff,
            acc == hex_number(d.take(i - start)),
            all_hex(d.take(i - start)),
        decreases s.len() - i,
    {
        let ghost k = i - start;
        assert(d.take(k + 1).drop_last() == d.take(k));
        assert(d.take(k + 1).last() == s@[i as int]);
        match hex_value_of(s[i]) {
            None => {
                assert(hex_value(d[k]) is None);
                return None;
            },
            Some(v) => {
                let next: u32 = acc * 16 + v as u32;
                assert(next == hex_number(d.take(k + 1)));
                if next > 0xffff {
                    proof {
                        lemma_hex_number_grows(d, k + 1);
                    }
                    return None;
                }
                assert forall|j: int| 0 <= j < d.take(k + 1).len() implies (#[trigger] hex_value(
                    d.take(k + 1)[j],
                )) is Some by {
                    if j < k {
                        assert(d.take(k + 1)[j] == d.take(k)[j]);
                    }
                }
                acc = next;
            },
        }
        i += 1;
    }
    assert(d.take(d.len() as int) == d);
    Some(acc as u16)
}

/// A hexadecimal digit character is worth the digit it was made from.
pub proof fn lemma_hex_digit_value(d: int, upper: bool)
    requires
        0 <= d < 16,
    ensures
        hex_value(hex_digit(d, upper)) == Some(d),
        hex_digit(d, upper) != '+',
        hex_digit(d, upper) != ':',
{
}

/// Reading back what `hex_text` wrote gives the number again.
pub proof fn lemma_hex_text_reads_back(n: nat, width: nat, upper: bool)
    ensures
        hex_text(n, width, upper).len() >= 1,
        all_hex(hex_text(n, width, upper)),
        hex_number(hex_text(n, width, upper)) == n,
        hex_text(n, width, upper)[0] != '+',
        forall|i: int|
            0 <= i < hex_text(n, width, upper).len() ==> hex_text(n, width, upper)[i] != ':',
    decreases n + width,
{
    let t = hex_text(n, width, upper);
    if n < 16 && width <= 1 {
        lemma_hex_digit_value(n as int, upper);
        assert(t.drop_last() == Seq::<char>::empty());
        assert(hex_number(t.drop_last()) == 0);
    } else {
        let rest: nat = if width > 0 { (width - 1) as nat } else { 0 };
        let head = hex_text(n / 16, rest, upper);
        lemma_hex_text_reads_back(n / 16, rest, upper);
        lemma_hex_digit_value((n % 16) as int, upper);
        assert(t == head.push(hex_digit((n % 16) as int, upper)));
        assert(t.drop_last() == head);
        assert(t[0] == head[0]);
        assert forall|i: int| 0 <= i < t.len() implies (#[trigger] hex_value(t[i])) is Some by {
            if i < head.len() {
                assert(t[i] == head[i]);
            }
        }
        assert forall|i: int| 0 <= i < t.len() implies t[i] != ':' by {
            if i < head.len() {
                assert(t[i] == head[i]);
            }
        }
    }
}

/// A 16-bit number written in hexadecimal, in any width, reads back as itself.
pub proof fn lemma_parse_hex_of_hex_text(n: u16, width: nat, upper: bool)
    ensures
        parse_hex_u16(hex_text(n as nat, width, upper)) == Some(n),
{
    lemma_hex_text_reads_back(n as nat, width, upper);
}

} // verus!
