//! Probe selectors: the text by which a debug probe is named, and the
//! predicate that picks probes by it.
use crate::numfmt::{
    hex_text, lemma_hex_text_reads_back, parse_hex_u16, push_hex, read_hex_u16,
};
use crate::text::{
    chars_of, lemma_split_joined, lemma_split_plain, pieces, push_text, split_chars, split_on,
    string_of,
};
use vstd::prelude::*;

verus! {

/// Selects debug probes by USB vendor and product id, by serial number, or by
/// both.
#[derive(Debug)]
pub struct ProbeSpecifier {
    pub vid_pid: Option<(u16, u16)>,
    pub serial: Option<String>,
}

/// What a selector says, as plain values.
pub struct SelectorModel {
    pub vid_pid: Option<(u16, u16)>,
    pub serial: Option<Seq<char>>,
}

impl View for ProbeSpecifier {
    type V = SelectorModel;

    open spec fn view(&self) -> SelectorModel {
        SelectorModel {
            vid_pid: self.vid_pid,
            serial: match self.serial {
                Some(s) => Some(s@),
                None => None,
            },
        }
    }
}

/// Why a text is no selector.
#[derive(Debug, Clone, Copy, PartialEq, Eq, Structural)]
pub enum SelectorError {
    /// A vendor or product id is not a 16-bit hexadecimal number.
    InvalidNumber,
    /// The text has more than three parts.
    InvalidShape,
}

/// The selector that a text spells. The text is cut at every `:`. One part
/// is a serial number; two parts are vendor and product id in hexadecimal;
/// three parts are the ids and a serial number.
pub open spec fn parse_selector(s: Seq<char>) -> Result<SelectorModel, SelectorError> {
    let parts = split_on(s, ':');
    if parts.len() == 1 {
        Ok(SelectorModel { vid_pid: None, serial: Some(parts[0]) })
    } else if parts.len() == 2 || parts.len() == 3 {
        match (parse_hex_u16(parts[0]), parse_hex_u16(parts[1])) {
            (Some(vid), Some(pid)) => Ok(
                SelectorModel {
                    vid_pid: Some((vid, pid)),
                    serial: if parts.len() == 3 {
                        Some(parts[2])
                    } else {
                        None
                    },
                },
            ),
            _ => Err(SelectorError::InvalidNumber),
        }
    } else {
        Err(SelectorError::InvalidShape)
    }
}

/// The ids of a selector as text: both in lower-case hexadecimal without
/// leading zeros, with a `:` between them.
pub open spec fn ids_text(vid: u16, pid: u16) -> Seq<char> {
    hex_text(vid as nat, 0, false).push(':') + hex_text(pid as nat, 0, false)
}

/// The text that spells a selector. A selector that names nothing has no
/// text; the empty text stands for it here.
pub open spec fn selector_text(m: SelectorModel) -> Seq<char> {
    match (m.vid_pid, m.serial) {
        (None, None) => Seq::empty(),
        (None, Some(serial)) => serial,
        (Some((vid, pid)), None) => ids_text(vid, pid),
        (Some((vid, pid)), Some(serial)) => ids_text(vid, pid).push(':') + serial,
    }
}

/// A selector that can be written and read back: it names something, and its
/// serial number holds no `:`.
pub open spec fn selector_writable(m: SelectorModel) -> bool {
    &&& m.vid_pid is Some || m.serial is Some
    &&& m.serial matches Some(serial) ==> forall|i: int| 0 <= i < serial.len() ==> serial[i] != ':'
}

impl ProbeSpecifier {
    /// Reads a selector from its text.
    pub fn from_str(s: &str) -> (r: Result<ProbeSpecifier, SelectorError>)
        ensures
            match r {
                Ok(sel) => parse_selector(s@) == Ok::<SelectorModel, SelectorError>(sel@),
                Err(e) => parse_selector(s@) == Err::<SelectorModel, SelectorError>(e),
            },
    {
        let chars = chars_of(s);
        let parts = split_chars(&chars, ':');
        let n: usize = parts.len();
        proof {
            assert(pieces(parts@).len() == n);
            assert forall|i: int| 0 <= i < n implies (#[trigger] pieces(parts@)[i]) == parts@[i]@ by {}
        }
        if n == 1 {
            Ok(ProbeSpecifier { vid_pid: None, serial: Some(string_of(&parts[0])) })
        } else if n == 2 || n == 3 {
            let vid = read_hex_u16(&parts[0]);
            let pid = read_hex_u16(&parts[1]);
            match (vid, pid) {
                (Some(vid), Some(pid)) => {
                    let serial = if n == 3 {
                        Some(string_of(&parts[2]))
                    } else {
                        None
                    };
                    Ok(ProbeSpecifier { vid_pid: Some((vid, pid)), serial })
                },
                _ => Err(SelectorError::InvalidNumber),
            }
        } else {
            Err(SelectorError::InvalidShape)
        }
    }

    /// Writes the selector as text.
    pub fn to_text(&self) -> (s: String)
        requires
            self.vid_pid is Some || self.serial is Some,
        ensures
            s@ == selector_text(self@),
    {
        let mut out: Vec<char> = Vec::new();
        if let Some((vid, pid)) = self.vid_pid {
            push_hex(&mut out, vid as u128, 0, false);
            out.push(':');
            push_hex(&mut out, pid as u128, 0, false);
            assert(out@ == ids_text(vid, pid));
            if let Some(serial) = &self.serial {
                out.push(':');
                push_text(&mut out, serial.as_str());
            }
        } else if let Some(serial) = &self.serial {
            push_text(&mut out, serial.as_str());
            assert(Seq::<char>::empty() + serial@ == serial@);
        }
        string_of(&out)
    }
}

/// Writing a selector and reading the text back gives the selector again, so
/// reading a written text and writing it once more gives the same text.
pub proof fn lemma_selector_round_trip(m: SelectorModel)
    requires
        selector_writable(m),
    ensures
        parse_selector(selector_text(m)) == Ok::<SelectorModel, SelectorError>(m),
        selector_text(parse_selector(selector_text(m))->Ok_0) == selector_text(m),
{
    match (m.vid_pid, m.serial) {
        (None, None) => {},
        (None, Some(serial)) => {
            lemma_split_plain(serial, ':');
        },
        (Some((vid, pid)), None) => {
            let v = hex_text(vid as nat, 0, false);
            let p = hex_text(pid as nat, 0, false);
            lemma_hex_text_reads_back(vid as nat, 0, false);
            lemma_hex_text_reads_back(pid as nat, 0, false);
            lemma_split_joined(v, p, ':');
            lemma_split_plain(p, ':');
        },
        (Some((vid, pid)), Some(serial)) => {
            let v = hex_text(vid as nat, 0, false);
            let p = hex_text(pid as nat, 0, false);
            lemma_hex_text_reads_back(vid as nat, 0, false);
            lemma_hex_text_reads_back(pid as nat, 0, false);
            lemma_split_joined(v, p.push(':') + serial, ':');
            lemma_split_joined(p, serial, ':');
            lemma_split_plain(serial, ':');
            assert(ids_text(vid, pid).push(':') + serial == v.push(':') + (p.push(':') + serial));
        },
    }
}

} // verus!
