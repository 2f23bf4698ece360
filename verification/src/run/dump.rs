//! The dump of a halted target: which exception it is in, why it faulted,
//! and the report of registers, stack and call frames.
use crate::numfmt::{dec_text, hex_text, push_dec, push_hex};
use crate::run::TIMEOUT_MILLIS;
use crate::text::{push_line, push_text, texts};
use vstd::prelude::*;

verus! {

/// Address of the hard fault status register.
pub const HFSR: u32 = 0xE000_ED2C;

/// Address of the configurable fault status register.
pub const CFSR: u32 = 0xE000_ED28;

/// Address of the bus fault address register.
pub const BFAR: u32 = 0xE000_ED38;

/// Number of the hard fault exception.
pub const HARD_FAULT: u8 = 3;

/// What a core is handling, by the exception number in its status register.
#[derive(Debug, Clone, Copy, PartialEq, Eq, Structural)]
pub enum Exception {
    /// Nothing: the core runs in thread mode.
    Thread,
    /// A hard fault.
    HardFault,
    /// Any other exception.
    Other { number: u8 },
}

/// The exception that a program status register names in its low eight
/// bits.
pub open spec fn exception_of(xpsr: u32) -> Exception {
    let number = (xpsr % 256) as u8;
    if number == 0 {
        Exception::Thread
    } else if number == HARD_FAULT {
        Exception::HardFault
    } else {
        Exception::Other { number }
    }
}

/// Reads the exception out of a program status register.
pub fn classify_exception(xpsr: u32) -> (e: Exception)
    ensures
        e == exception_of(xpsr),
{
    let number: u8 = (xpsr & 0xff) as u8;
    assert(xpsr & 0xff == xpsr % 256) by (bit_vector);
    if number == 0 {
        Exception::Thread
    } else if number == HARD_FAULT {
        Exception::HardFault
    } else {
        Exception::Other { number }
    }
}

/// The three parts of the configurable fault status register.
#[derive(Debug, Clone, Copy, PartialEq, Eq, Structural)]
pub struct FaultStatus {
    /// Usage fault status, bits 31 to 16.
    pub ufsr: u16,
    /// Bus fault status, bits 15 to 8.
    pub bfsr: u8,
    /// Memory management fault status, bits 7 to 0.
    pub mmfsr: u8,
}

/// The parts of a configurable fault status word.
pub open spec fn fault_status_of(cfsr: u32) -> FaultStatus {
    FaultStatus {
        ufsr: (cfsr / 0x1_0000) as u16,
        bfsr: ((cfsr / 0x100) % 0x100) as u8,
        mmfsr: (cfsr % 0x100) as u8,
    }
}

/// Takes a configurable fault status word apart.
pub fn decode_cfsr(cfsr: u32) -> (status: FaultStatus)
    ensures
        status == fault_status_of(cfsr),
{
    let ufsr: u32 = (cfsr >> 16) & 0xffff;
    let bfsr: u32 = (cfsr >> 8) & 0xff;
    let mmfsr: u32 = cfsr & 0xff;
    assert((cfsr >> 16) & 0xffff == cfsr / 0x1_0000) by (bit_vector);
    assert((cfsr >> 8) & 0xff == (cfsr / 0x100) % 0x100) by (bit_vector);
    assert(cfsr & 0xff == cfsr % 0x100) by (bit_vector);
    FaultStatus { ufsr: ufsr as u16, bfsr: bfsr as u8, mmfsr: mmfsr as u8 }
}

/// Bit 30 of the hard fault status word is set: a fault of configurable
/// priority was escalated.
pub open spec fn escalated(hfsr: u32) -> bool {
    (hfsr / 0x4000_0000) % 2 == 1
}

/// Whether a hard fault status word reports an escalated fault.
pub fn is_escalated(hfsr: u32) -> (r: bool)
    ensures
        r == escalated(hfsr),
{
    let bit: u32 = hfsr & (1u32 << 30);
    assert((hfsr & (1u32 << 30) != 0) == ((hfsr / 0x4000_0000) % 2 == 1)) by (bit_vector);
    bit != 0
}

/// Bit 7 of the bus fault status is set: the bus fault address register
/// holds the address that faulted.
pub open spec fn address_valid(bfsr: u8) -> bool {
    bfsr >= 0x80
}

/// Whether a bus fault status says that the fault address is known.
pub fn has_fault_address(bfsr: u8) -> (r: bool)
    ensures
        r == address_valid(bfsr),
{
    let bit: u8 = bfsr & 0x80;
    assert((bfsr & 0x80 != 0) == (bfsr >= 0x80)) by (bit_vector);
    bit != 0
}

/// The line that reports a usage fault.
pub open spec fn usage_line(ufsr: u16) -> Seq<char> {
    "\tUsage Fault     - UFSR: 0x"@ + hex_text(ufsr as nat, 4, false)
}

/// The line that reports a bus fault.
pub open spec fn bus_line(bfsr: u8) -> Seq<char> {
    "\tBus Fault       - BFSR: 0x"@ + hex_text(bfsr as nat, 2, false)
}

/// The line that reports the address of a bus fault.
pub open spec fn location_line(bfar: u32) -> Seq<char> {
    "\t Location       - BFAR: 0x"@ + hex_text(bfar as nat, 8, false)
}

/// The line that reports a memory management fault. It shows the bus fault
/// status.
pub open spec fn mem_manage_line(bfsr: u8) -> Seq<char> {
    "\tMemManage Fault - BFSR: "@ + hex_text(bfsr as nat, 4, false)
}

/// The line that names an exception other than a hard fault.
pub open spec fn exception_line(number: u8) -> Seq<char> {
    "Exception "@ + dec_text(number as nat)
}

/// The lines that open the report of an escalated fault: usage fault and
/// bus fault, each where its status is not zero.
pub open spec fn status_lines(status: FaultStatus) -> Seq<Seq<char>> {
    (if status.ufsr != 0 {
        seq![usage_line(status.ufsr)]
    } else {
        Seq::empty()
    }) + (if status.bfsr != 0 {
        seq![bus_line(status.bfsr)]
    } else {
        Seq::empty()
    })
}

/// The line that closes the report of an escalated fault, where the memory
/// management fault status is not zero.
pub open spec fn closing_lines(status: FaultStatus) -> Seq<Seq<char>> {
    if status.mmfsr != 0 {
        seq![mem_manage_line(status.bfsr)]
    } else {
        Seq::empty()
    }
}

/// Where a dump stands: what it waits to be told.
#[derive(Debug, Clone, Copy, PartialEq, Eq, Structural)]
pub enum DumpState {
    /// The program status register of the halted core.
    AwaitXpsr { force: bool },
    /// That the traceback was written.
    AwaitTraceback { exception: Exception },
    /// The hard fault status word.
    AwaitHfsr,
    /// The configurable fault status word.
    AwaitCfsr,
    /// The bus fault address.
    AwaitBfar { status: FaultStatus },
    /// Nothing: the dump is done.
    Done { hard_fault: bool },
}

/// What was read from the target.
#[derive(Debug, Clone, Copy, PartialEq, Eq, Structural)]
pub enum DumpEvent {
    Xpsr { value: u32 },
    TracebackDone,
    Word { value: u32 },
}

/// What to do next on the target.
#[derive(Debug, Clone, Copy, PartialEq, Eq, Structural)]
pub enum DumpAction {
    /// Halt the core within the time given and read its program status
    /// register; answer `Xpsr`.
    HaltAndReadXpsr { timeout_millis: u64 },
    /// Write the traceback; answer `TracebackDone`.
    Traceback,
    /// Read a word of memory; answer `Word`.
    ReadWord { address: u32 },
    /// Stop: the dump is done, and says whether the core is in a hard fault.
    Finish { hard_fault: bool },
}

/// The action that a state waits for an answer to.
pub open spec fn pending_dump(state: DumpState) -> DumpAction {
    match state {
        DumpState::AwaitXpsr { .. } => DumpAction::HaltAndReadXpsr {
            timeout_millis: TIMEOUT_MILLIS,
        },
        DumpState::AwaitTraceback { .. } => DumpAction::Traceback,
        DumpState::AwaitHfsr => DumpAction::ReadWord { address: HFSR },
        DumpState::AwaitCfsr => DumpAction::ReadWord { address: CFSR },
        DumpState::AwaitBfar { .. } => DumpAction::ReadWord { address: BFAR },
        DumpState::Done { hard_fault } => DumpAction::Finish { hard_fault },
    }
}

/// What a step of a dump gives: the next state, what to do, and the lines
/// to report.
pub struct DumpStep {
    pub state: DumpState,
    pub action: DumpAction,
    pub lines: Seq<Seq<char>>,
}

/// How a dump goes on. A core in thread mode gets a traceback only where
/// one is forced, and is no hard fault. A hard fault gets a traceback, then
/// its status is read: an escalated fault is taken apart, and the address of
/// a bus fault is read where it is known. Any other exception gets a
/// traceback and is named; it is no hard fault. An event that the state does
/// not wait for changes nothing.
pub open spec fn dump_step(state: DumpState, event: DumpEvent) -> DumpStep {
    match (state, event) {
        (DumpState::AwaitXpsr { force }, DumpEvent::Xpsr { value }) => {
            let exception = exception_of(value);
            if exception == Exception::Thread && !force {
                DumpStep {
                    state: DumpState::Done { hard_fault: false },
                    action: DumpAction::Finish { hard_fault: false },
                    lines: Seq::empty(),
                }
            } else {
                DumpStep {
                    state: DumpState::AwaitTraceback { exception },
                    action: DumpAction::Traceback,
                    lines: Seq::empty(),
                }
            }
        },
        (DumpState::AwaitTraceback { exception }, DumpEvent::TracebackDone) => match exception {
            Exception::Thread => DumpStep {
                state: DumpState::Done { hard_fault: false },
                action: DumpAction::Finish { hard_fault: false },
                lines: Seq::empty(),
            },
            Exception::HardFault => DumpStep {
                state: DumpState::AwaitHfsr,
                action: DumpAction::ReadWord { address: HFSR },
                lines: seq!["Hard Fault!"@],
            },
            Exception::Other { number } => DumpStep {
                state: DumpState::Done { hard_fault: false },
                action: DumpAction::Finish { hard_fault: false },
                lines: seq![exception_line(number)],
            },
        },
        (DumpState::AwaitHfsr, DumpEvent::Word { value }) => if escalated(value) {
            DumpStep {
                state: DumpState::AwaitCfsr,
                action: DumpAction::ReadWord { address: CFSR },
                lines: seq![
                    "-> configurable priority exception has been escalated to hard fault!"@,
                ],
            }
        } else {
            DumpStep {
                state: DumpState::Done { hard_fault: true },
                action: DumpAction::Finish { hard_fault: true },
                lines: Seq::empty(),
            }
        },
        (DumpState::AwaitCfsr, DumpEvent::Word { value }) => {
            let status = fault_status_of(value);
            if address_valid(status.bfsr) {
                DumpStep {
                    state: DumpState::AwaitBfar { status },
                    action: DumpAction::ReadWord { address: BFAR },
                    lines: status_lines(status),
                }
            } else {
                DumpStep {
                    state: DumpState::Done { hard_fault: true },
                    action: DumpAction::Finish { hard_fault: true },
                    lines: status_lines(status) + closing_lines(status),
                }
            }
        },
        (DumpState::AwaitBfar { status }, DumpEvent::Word { value }) => DumpStep {
            state: DumpState::Done { hard_fault: true },
            action: DumpAction::Finish { hard_fault: true },
            lines: seq![location_line(value)] + closing_lines(status),
        },
        _ => DumpStep { state, action: pending_dump(state), lines: Seq::empty() },
    }
}

fn push_status_lines(lines: &mut Vec<String>, status: FaultStatus)
    ensures
        texts(final(lines)@) == texts(old(lines)@) + status_lines(status),
{
    if status.ufsr != 0 {
        let mut line: Vec<char> = Vec::new();
        push_text(&mut line, "\tUsage Fault     - UFSR: 0x");
        push_hex(&mut line, status.ufsr as u128, 4, false);
        push_line(lines, &line);
    }
    let ghost mid = texts(lines@);
    if status.bfsr != 0 {
        let mut line: Vec<char> = Vec::new();
        push_text(&mut line, "\tBus Fault       - BFSR: 0x");
        push_hex(&mut line, status.bfsr as u128, 2, false);
        push_line(lines, &line);
    }
    assert(texts(lines@) =~= texts(old(lines)@) + status_lines(status));
}

fn push_closing_lines(lines: &mut Vec<String>, status: FaultStatus)
    ensures
        texts(final(lines)@) == texts(old(lines)@) + closing_lines(status),
{
    if status.mmfsr != 0 {
        let mut line: Vec<char> = Vec::new();
        push_text(&mut line, "\tMemManage Fault - BFSR: ");
        push_hex(&mut line, status.bfsr as u128, 4, false);
        push_line(lines, &line);
    }
    assert(texts(lines@) =~= texts(old(lines)@) + closing_lines(status));
}

impl DumpState {
    /// The state in which a dump starts.
    pub fn start(force: bool) -> (state: DumpState)
        ensures
            state == (DumpState::AwaitXpsr { force }),
    {
        DumpState::AwaitXpsr { force }
    }

    /// The action that the state waits for an answer to.
    pub fn pending(&self) -> (action: DumpAction)
        ensures
            action == pending_dump(*self),
    {
        match *self {
            DumpState::AwaitXpsr { .. } => DumpAction::HaltAndReadXpsr {
                timeout_millis: TIMEOUT_MILLIS,
            },
            DumpState::AwaitTraceback { .. } => DumpAction::Traceback,
            DumpState::AwaitHfsr => DumpAction::ReadWord { address: HFSR },
            DumpState::AwaitCfsr => DumpAction::ReadWord { address: CFSR },
            DumpState::AwaitBfar { .. } => DumpAction::ReadWord { address: BFAR },
            DumpState::Done { hard_fault } => DumpAction::Finish { hard_fault },
        }
    }

    /// Takes an event: moves to the next state, says what to do, and gives
    /// the lines to report.
    pub fn step(&mut self, event: DumpEvent) -> (r: (DumpAction, Vec<String>))
        ensures
            *final(self) == dump_step(*old(self), event).state,
            r.0 == dump_step(*old(self), event).action,
            texts(r.1@) == dump_step(*old(self), event).lines,
    {
        let state = *self;
        let mut lines: Vec<String> = Vec::new();
        assert(texts(lines@) =~= Seq::<Seq<char>>::empty());
        let done = DumpState::Done { hard_fault: false };
        let fault = DumpState::Done { hard_fault: true };
        let (next, action) = match (state, event) {
            (DumpState::AwaitXpsr { force }, DumpEvent::Xpsr { value }) => {
                let exception = classify_exception(value);
                if exception == Exception::Thread && !force {
                    (done, DumpAction::Finish { hard_fault: false })
                } else {
                    (DumpState::AwaitTraceback { exception }, DumpAction::Traceback)
                }
            },
            (DumpState::AwaitTraceback { exception }, DumpEvent::TracebackDone) => {
                match exception {
                    Exception::Thread => (done, DumpAction::Finish { hard_fault: false }),
                    Exception::HardFault => {
                        let mut line: Vec<char> = Vec::new();
                        push_text(&mut line, "Hard Fault!");
                        push_line(&mut lines, &line);
                        (DumpState::AwaitHfsr, DumpAction::ReadWord { address: HFSR })
                    },
                    Exception::Other { number } => {
                        let mut line: Vec<char> = Vec::new();
                        push_text(&mut line, "Exception ");
                        push_dec(&mut line, number as u128);
                        push_line(&mut lines, &line);
                        (done, DumpAction::Finish { hard_fault: false })
                    },
                }
            },
            (DumpState::AwaitHfsr, DumpEvent::Word { value }) => {
                if is_escalated(value) {
                    let mut line: Vec<char> = Vec::new();
                    push_text(
                        &mut line,
                        "-> configurable priority exception has been escalated to hard fault!",
                    );
                    push_line(&mut lines, &line);
                    (DumpState::AwaitCfsr, DumpAction::ReadWord { address: CFSR })
                } else {
                    (fault, DumpAction::Finish { hard_fault: true })
                }
            },
            (DumpState::AwaitCfsr, DumpEvent::Word { value }) => {
                let status = decode_cfsr(value);
                push_status_lines(&mut lines, status);
                if has_fault_address(status.bfsr) {
                    (DumpState::AwaitBfar { status }, DumpAction::ReadWord { address: BFAR })
                } else {
                    push_closing_lines(&mut lines, status);
                    (fault, DumpAction::Finish { hard_fault: true })
                }
            },
            (DumpState::AwaitBfar { status }, DumpEvent::Word { value }) => {
                let mut line: Vec<char> = Vec::new();
                push_text(&mut line, "\t Location       - BFAR: 0x");
                push_hex(&mut line, value as u128, 8, false);
                push_line(&mut lines, &line);
                push_closing_lines(&mut lines, status);
                (fault, DumpAction::Finish { hard_fault: true })
            },
            _ => (state, state.pending()),
        };
        assert(texts(lines@) =~= dump_step(state, event).lines);
        *self = next;
        (action, lines)
    }
}

/// A dump reports a hard fault exactly when the status register named
/// exception 3: whatever is read afterwards, it ends with `hard_fault` set
/// only from a state that was entered through a hard fault's traceback.
pub proof fn lemma_hard_fault_is_exception_three(force: bool, xpsr: u32)
    ensures
        ({
            let first = dump_step(DumpState::AwaitXpsr { force }, DumpEvent::Xpsr { value: xpsr });
            let second = dump_step(first.state, DumpEvent::TracebackDone);
            &&& xpsr % 256 == 3 ==> first.action == DumpAction::Traceback && second.state
                == DumpState::AwaitHfsr && second.lines == seq!["Hard Fault!"@]
            &&& xpsr % 256 != 3 ==> first.state == (DumpState::Done { hard_fault: false })
                || second.state == (DumpState::Done { hard_fault: false })
            &&& xpsr % 256 == 0 ==> (first.action == DumpAction::Traceback <==> force)
        }),
{
}

/// Once a hard fault is being read out, the dump ends as a hard fault.
pub proof fn lemma_fault_readout_ends_in_fault(state: DumpState, event: DumpEvent)
    requires
        state is AwaitHfsr || state is AwaitCfsr || state is AwaitBfar,
    ensures
        ({
            let next = dump_step(state, event).state;
            next is AwaitHfsr || next is AwaitCfsr || next is AwaitBfar || next == (
            DumpState::Done { hard_fault: true })
        }),
{
}

} // verus!
