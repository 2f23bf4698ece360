//! Debug probes: how one is chosen among those attached, and the steps that
//! connect to the chip behind it.
use crate::numfmt::{hex_text, push_hex};
use crate::probe::specifier::{ProbeSpecifier, SelectorModel};
use crate::text::{chars_of, push_line, push_text, str_eq, string_of, texts};
use vstd::prelude::*;

pub mod connect;
pub mod power;
pub mod specifier;

verus! {

/// Milliseconds between two tries to open a probe that has not appeared
/// yet.
pub const SETTLE_REPROBE_INTERVAL_MILLIS: u64 = 250;

/// One attached debug probe, as the host lists it.
#[derive(Debug)]
pub struct ProbeInfo {
    pub identifier: String,
    pub vendor_id: u16,
    pub product_id: u16,
    pub serial_number: Option<String>,
    pub probe_type: String,
}

/// What a selector compares of a probe.
pub struct ProbeModel {
    pub vendor_id: u16,
    pub product_id: u16,
    pub serial_number: Option<Seq<char>>,
}

impl View for ProbeInfo {
    type V = ProbeModel;

    open spec fn view(&self) -> ProbeModel {
        ProbeModel {
            vendor_id: self.vendor_id,
            product_id: self.product_id,
            serial_number: match self.serial_number {
                Some(s) => Some(s@),
                None => None,
            },
        }
    }
}

impl ProbeInfo {
    /// A copy of the entry.
    pub fn duplicate(&self) -> (copy: ProbeInfo)
        ensures
            copy == *self,
    {
        ProbeInfo {
            identifier: self.identifier.clone(),
            vendor_id: self.vendor_id,
            product_id: self.product_id,
            serial_number: match &self.serial_number {
                Some(s) => Some(s.clone()),
                None => None,
            },
            probe_type: self.probe_type.clone(),
        }
    }
}

/// A probe matches a selector when the ids agree, where the selector names
/// ids, and the serial number agrees, where the selector names one.
pub open spec fn selector_matches(selector: SelectorModel, probe: ProbeModel) -> bool {
    &&& selector.vid_pid matches Some((vid, pid)) ==> probe.vendor_id == vid && probe.product_id
        == pid
    &&& selector.serial matches Some(serial) ==> probe.serial_number == Some(serial)
}

/// Whether a probe matches a selector.
pub fn probe_matches(selector: &ProbeSpecifier, probe: &ProbeInfo) -> (r: bool)
    ensures
        r == selector_matches(selector@, probe@),
{
    if let Some((vid, pid)) = selector.vid_pid {
        if probe.vendor_id != vid || probe.product_id != pid {
            return false;
        }
    }
    if let Some(serial) = &selector.serial {
        match &probe.serial_number {
            Some(s) => {
                if !str_eq(s.as_str(), serial.as_str()) {
                    return false;
                }
            },
            None => {
                return false;
            },
        }
    }
    true
}

/// A probe is a candidate where there is no selector, or where it matches
/// the selector.
pub open spec fn is_candidate(selector: Option<SelectorModel>, probe: ProbeModel) -> bool {
    match selector {
        None => true,
        Some(s) => selector_matches(s, probe),
    }
}

/// The probes that match the selector, in the order of the list.
pub fn probes_filter(probes: &Vec<ProbeInfo>, selector: &ProbeSpecifier) -> (matching: Vec<
    ProbeInfo,
>)
    ensures
        matching@ == probes@.filter(|p: ProbeInfo| selector_matches(selector@, p@)),
{
    let ghost pred = |p: ProbeInfo| selector_matches(selector@, p@);
    let mut matching: Vec<ProbeInfo> = Vec::new();
    let mut i: usize = 0;
    proof {
        reveal(Seq::filter);
    }
    assert(probes@.take(0).filter(pred) =~= Seq::<ProbeInfo>::empty());
    while i < probes.len()
        invariant
            i <= probes.len(),
            pred == (|p: ProbeInfo| selector_matches(selector@, p@)),
            matching@ == probes@.take(i as int).filter(pred),
        decreases probes.len() - i,
    {
        assert(probes@.take(i + 1).drop_last() == probes@.take(i as int));
        assert(probes@.take(i + 1).last() == probes@[i as int]);
        proof {
            reveal(Seq::filter);
        }
        if probe_matches(selector, &probes[i]) {
            matching.push(probes[i].duplicate());
        }
        i += 1;
    }
    assert(probes@.take(probes@.len() as int) == probes@);
    matching
}

/// Why no connection is made.
#[derive(Debug, Clone, Copy, PartialEq, Eq, Structural)]
pub enum ConnectError {
    /// No probe is a candidate.
    NoProbe,
    /// More than one probe is a candidate.
    MultipleProbes,
    /// A power cycle was asked for without the serial number of the probe.
    PowerResetNeedsSerial,
}

/// The number of candidates among the probes.
pub open spec fn candidate_count(probes: Seq<ProbeInfo>, selector: Option<SelectorModel>) -> nat
    decreases probes.len(),
{
    if probes.len() == 0 {
        0
    } else {
        candidate_count(probes.drop_last(), selector) + if is_candidate(selector, probes.last()@) {
            1nat
        } else {
            0nat
        }
    }
}

/// The probe to open: the only candidate. No candidate and more than one
/// candidate are errors.
pub fn select_probe(probes: &Vec<ProbeInfo>, selector: &Option<ProbeSpecifier>) -> (r: Result<
    usize,
    ConnectError,
>)
    ensures
        match r {
            Ok(i) => i < probes.len() && is_candidate(selector_model(*selector), probes[i as int]@)
                && candidate_count(probes@, selector_model(*selector)) == 1,
            Err(e) => if candidate_count(probes@, selector_model(*selector)) == 0 {
                e == ConnectError::NoProbe
            } else {
                e == ConnectError::MultipleProbes && candidate_count(
                    probes@,
                    selector_model(*selector),
                ) > 1
            },
        },
{
    let ghost sel = selector_model(*selector);
    let mut found: Option<usize> = None;
    let mut many = false;
    let mut i: usize = 0;
    while i < probes.len()
        invariant
            i <= probes.len(),
            sel == selector_model(*selector),
            many ==> candidate_count(probes@.take(i as int), sel) > 1,
            !many && found is Some ==> candidate_count(probes@.take(i as int), sel) == 1,
            !many && found is None ==> candidate_count(probes@.take(i as int), sel) == 0,
            found matches Some(k) ==> k < i && is_candidate(sel, probes[k as int]@),
        decreases probes.len() - i,
    {
        assert(probes@.take(i + 1).drop_last() == probes@.take(i as int));
        assert(probes@.take(i + 1).last() == probes@[i as int]);
        let candidate = match selector {
            None => true,
            Some(s) => probe_matches(s, &probes[i]),
        };
        if candidate {
            if found.is_some() {
                many = true;
            } else {
                found = Some(i);
            }
        }
        i += 1;
    }
    assert(probes@.take(probes@.len() as int) == probes@);
    if many {
        Err(ConnectError::MultipleProbes)
    } else {
        match found {
            Some(k) => Ok(k),
            None => Err(ConnectError::NoProbe),
        }
    }
}

/// What an optional selector says.
pub open spec fn selector_model(selector: Option<ProbeSpecifier>) -> Option<SelectorModel> {
    match selector {
        Some(s) => Some(s@),
        None => None,
    }
}

/// A probe is up for a selector when at least one attached probe matches.
pub fn probe_is_up(probes: &Vec<ProbeInfo>, selector: &ProbeSpecifier) -> (up: bool)
    ensures
        up == exists|i: int| 0 <= i < probes.len() && selector_matches(selector@, #[trigger] probes[i]@),
{
    let mut i: usize = 0;
    while i < probes.len()
        invariant
            i <= probes.len(),
            forall|j: int| 0 <= j < i ==> !selector_matches(selector@, #[trigger] probes[j]@),
        decreases probes.len() - i,
    {
        if probe_matches(selector, &probes[i]) {
            return true;
        }
        i += 1;
    }
    false
}

/// The line that lists one probe: the ids in four hexadecimal digits each,
/// the serial number or a note that there is none, the kind of probe, and
/// its name.
pub open spec fn probe_line(probe: ProbeInfo) -> Seq<char> {
    hex_text(probe.vendor_id as nat, 4, false) + ":"@ + hex_text(probe.product_id as nat, 4, false)
        + ":"@ + (match probe.serial_number {
        Some(s) => s@,
        None => "SN unspecified"@,
    }) + " -- "@ + probe.probe_type@ + " "@ + probe.identifier@
}

/// The lines that list the probes: one per probe, or a note that there is
/// none.
pub open spec fn probe_listing(probes: Seq<ProbeInfo>) -> Seq<Seq<char>> {
    if probes.len() == 0 {
        seq!["No probe found!"@]
    } else {
        Seq::new(probes.len(), |i: int| probe_line(probes[i]))
    }
}

/// Lists the probes.
pub fn list(probes: &Vec<ProbeInfo>) -> (lines: Vec<String>)
    ensures
        texts(lines@) == probe_listing(probes@),
{
    let mut lines: Vec<String> = Vec::new();
    if probes.len() == 0 {
        let note = chars_of("No probe found!");
        assert(texts(lines@) =~= Seq::<Seq<char>>::empty());
        push_line(&mut lines, &note);
        assert(texts(lines@) =~= probe_listing(probes@));
        return lines;
    }
    let mut i: usize = 0;
    while i < probes.len()
        invariant
            i <= probes.len(),
            lines.len() == i,
            forall|j: int| 0 <= j < i ==> (#[trigger] lines@[j])@ == probe_line(probes@[j]),
        decreases probes.len() - i,
    {
        let probe = &probes[i];
        let mut line: Vec<char> = Vec::new();
        push_hex(&mut line, probe.vendor_id as u128, 4, false);
        push_text(&mut line, ":");
        push_hex(&mut line, probe.product_id as u128, 4, false);
        push_text(&mut line, ":");
        match &probe.serial_number {
            Some(s) => {
                push_text(&mut line, s.as_str());
            },
            None => {
                push_text(&mut line, "SN unspecified");
            },
        }
        push_text(&mut line, " -- ");
        push_text(&mut line, probe.probe_type.as_str());
        push_text(&mut line, " ");
        push_text(&mut line, probe.identifier.as_str());
        assert(line@ =~= probe_line(*probe));
        lines.push(string_of(&line));
        i += 1;
    }
    assert(texts(lines@) =~= probe_listing(probes@));
    lines
}

} // verus!
