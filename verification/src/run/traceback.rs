//! The report of a halted core: its registers, the top of its stack, and
//! its call frames.
use crate::numfmt::{dec_text, hex_text, push_dec, push_hex};
use crate::text::{push_line, push_text, string_of, texts};
use vstd::prelude::*;

verus! {

/// Registers that a traceback shows: R0 to R15 and the program status
/// register.
pub const REGISTERS: usize = 17;

/// Words of stack that a traceback shows.
pub const STACK_WORDS: usize = 32;

/// The name of register `i` as the report shows it, four characters wide.
pub open spec fn register_label(i: int) -> Seq<char> {
    if i == 0 {
        "  R0"@
    } else if i == 1 {
        "  R1"@
    } else if i == 2 {
        "  R2"@
    } else if i == 3 {
        "  R3"@
    } else if i == 4 {
        "  R4"@
    } else if i == 5 {
        "  R5"@
    } else if i == 6 {
        "  R6"@
    } else if i == 7 {
        "  R7"@
    } else if i == 8 {
        "  R8"@
    } else if i == 9 {
        "  R9"@
    } else if i == 10 {
        " R10"@
    } else if i == 11 {
        " R11"@
    } else if i == 12 {
        " R12"@
    } else if i == 13 {
        "  SP"@
    } else if i == 14 {
        "  LR"@
    } else if i == 15 {
        "  PC"@
    } else {
        "XPSR"@
    }
}

/// One register in the report: its name, a colon, and its value in eight
/// hexadecimal digits.
pub open spec fn register_cell(i: int, value: u32) -> Seq<char> {
    register_label(i) + ": "@ + hex_text(value as nat, 8, false)
}

/// Row `k` of the register report: four registers with one space between
/// their cells.
pub open spec fn register_row(k: int, r: Seq<u32>) -> Seq<char> {
    register_cell(4 * k, r[4 * k]) + " "@ + register_cell(4 * k + 1, r[4 * k + 1]) + " "@
        + register_cell(4 * k + 2, r[4 * k + 2]) + " "@ + register_cell(4 * k + 3, r[4 * k + 3])
}

/// The register report: four rows of four registers, then the program
/// status register.
pub open spec fn register_report(r: Seq<u32>) -> Seq<Seq<char>> {
    seq![
        register_row(0, r),
        register_row(1, r),
        register_row(2, r),
        register_row(3, r),
        register_cell(16, r[16]),
    ]
}

fn label_of(i: usize) -> (label: &'static str)
    ensures
        label@ == register_label(i as int),
{
    if i == 0 {
        "  R0"
    } else if i == 1 {
        "  R1"
    } else if i == 2 {
        "  R2"
    } else if i == 3 {
        "  R3"
    } else if i == 4 {
        "  R4"
    } else if i == 5 {
        "  R5"
    } else if i == 6 {
        "  R6"
    } else if i == 7 {
        "  R7"
    } else if i == 8 {
        "  R8"
    } else if i == 9 {
        "  R9"
    } else if i == 10 {
        " R10"
    } else if i == 11 {
        " R11"
    } else if i == 12 {
        " R12"
    } else if i == 13 {
        "  SP"
    } else if i == 14 {
        "  LR"
    } else if i == 15 {
        "  PC"
    } else {
        "XPSR"
    }
}

fn push_cell(out: &mut Vec<char>, i: usize, value: u32)
    ensures
        final(out)@ == old(out)@ + register_cell(i as int, value),
{
    push_text(out, label_of(i));
    push_text(out, ": ");
    push_hex(out, value as u128, 8, false);
    assert(out@ =~= old(out)@ + register_cell(i as int, value));
}

/// Writes the register report.
pub fn register_rows(r: &[u32; 17]) -> (lines: Vec<String>)
    ensures
        texts(lines@) == register_report(r@),
{
    let mut lines: Vec<String> = Vec::new();
    let mut k: usize = 0;
    assert(texts(lines@) =~= Seq::<Seq<char>>::empty());
    while k < 4
        invariant
            k <= 4,
            texts(lines@).len() == k,
            forall|j: int| 0 <= j < k ==> (#[trigger] texts(lines@)[j]) == register_row(j, r@),
        decreases 4 - k,
    {
        let mut row: Vec<char> = Vec::new();
        push_cell(&mut row, 4 * k, r[4 * k]);
        push_text(&mut row, " ");
        push_cell(&mut row, 4 * k + 1, r[4 * k + 1]);
        push_text(&mut row, " ");
        push_cell(&mut row, 4 * k + 2, r[4 * k + 2]);
        push_text(&mut row, " ");
        push_cell(&mut row, 4 * k + 3, r[4 * k + 3]);
        assert(row@ =~= register_row(k as int, r@));
        push_line(&mut lines, &row);
        k += 1;
    }
    let mut last: Vec<char> = Vec::new();
    push_cell(&mut last, 16, r[16]);
    assert(last@ =~= register_cell(16, r@[16]));
    push_line(&mut lines, &last);
    assert(texts(lines@) =~= register_report(r@));
    lines
}

/// The address of row `i` of the stack report: sixteen bytes per row above
/// the stack pointer, wrapping at the end of the address space.
pub open spec fn stack_row_address(sp: u32, i: int) -> u32 {
    ((sp + 16 * i) % 0x1_0000_0000) as u32
}

/// Row `i` of the stack report: its address, a colon, and four words in
/// eight hexadecimal digits each.
pub open spec fn stack_row(sp: u32, stack: Seq<u32>, i: int) -> Seq<char> {
    hex_text(stack_row_address(sp, i) as nat, 8, false) + ": "@ + hex_text(
        stack[4 * i] as nat,
        8,
        false,
    ) + " "@ + hex_text(stack[4 * i + 1] as nat, 8, false) + " "@ + hex_text(
        stack[4 * i + 2] as nat,
        8,
        false,
    ) + " "@ + hex_text(stack[4 * i + 3] as nat, 8, false)
}

/// The stack report: eight rows of four words from the stack pointer up.
pub open spec fn stack_report(sp: u32, stack: Seq<u32>) -> Seq<Seq<char>> {
    Seq::new(8, |i: int| stack_row(sp, stack, i))
}

/// Writes the stack report.
pub fn stack_rows(sp: u32, stack: &[u32; 32]) -> (lines: Vec<String>)
    ensures
        texts(lines@) == stack_report(sp, stack@),
{
    let mut lines: Vec<String> = Vec::new();
    let mut i: usize = 0;
    assert(texts(lines@) =~= Seq::<Seq<char>>::empty());
    while i < 8
        invariant
            i <= 8,
            texts(lines@).len() == i,
            forall|j: int| 0 <= j < i ==> (#[trigger] texts(lines@)[j]) == stack_row(sp, stack@, j),
        decreases 8 - i,
    {
        let address: u32 = ((sp as u64 + 16 * (i as u64)) % 0x1_0000_0000) as u32;
        let mut row: Vec<char> = Vec::new();
        push_hex(&mut row, address as u128, 8, false);
        push_text(&mut row, ": ");
        push_hex(&mut row, stack[4 * i] as u128, 8, false);
        push_text(&mut row, " ");
        push_hex(&mut row, stack[4 * i + 1] as u128, 8, false);
        push_text(&mut row, " ");
        push_hex(&mut row, stack[4 * i + 2] as u128, 8, false);
        push_text(&mut row, " ");
        push_hex(&mut row, stack[4 * i + 3] as u128, 8, false);
        assert(row@ =~= stack_row(sp, stack@, i as int));
        push_line(&mut lines, &row);
        i += 1;
    }
    assert(texts(lines@) =~= stack_report(sp, stack@));
    lines
}

/// The value of a register.
#[derive(Debug, Clone, Copy, PartialEq, Eq, Structural)]
pub enum RegisterValue {
    U32(u32),
    U64(u64),
    U128(u128),
}

/// The column of a place in a source file.
#[derive(Debug, Clone, Copy, PartialEq, Eq, Structural)]
pub enum ColumnType {
    /// The statement begins the line.
    LeftEdge,
    /// A column, counted from 1.
    Column(u64),
}

/// A place in a source file.
#[derive(Debug)]
pub struct SourceLocation {
    pub path: String,
    pub line: Option<u64>,
    pub column: Option<ColumnType>,
}

/// One frame of the call stack.
#[derive(Debug)]
pub struct StackFrame {
    pub function_name: String,
    pub pc: RegisterValue,
    pub is_inlined: bool,
    pub source_location: Option<SourceLocation>,
}

/// A register value as text: `0x` and all its hexadecimal digits.
pub open spec fn register_text(value: RegisterValue) -> Seq<char> {
    match value {
        RegisterValue::U32(v) => "0x"@ + hex_text(v as nat, 8, false),
        RegisterValue::U64(v) => "0x"@ + hex_text(v as nat, 16, false),
        RegisterValue::U128(v) => "0x"@ + hex_text(v as nat, 32, false),
    }
}

/// A column as text: the left edge counts as column 1.
pub open spec fn column_text(column: ColumnType) -> Seq<char> {
    match column {
        ColumnType::LeftEdge => "1"@,
        ColumnType::Column(c) => dec_text(c as nat),
    }
}

/// A place as text: the path, then the line where it is known, then the
/// column where line and column are known, each after a colon.
pub open spec fn location_text(
    path: Seq<char>,
    line: Option<u64>,
    column: Option<ColumnType>,
) -> Seq<char> {
    path + match line {
        None => Seq::empty(),
        Some(l) => ":"@ + dec_text(l as nat) + match column {
            None => Seq::empty(),
            Some(c) => ":"@ + column_text(c),
        },
    }
}

/// A frame as plain values.
pub struct FrameModel {
    pub function_name: Seq<char>,
    pub pc: RegisterValue,
    pub is_inlined: bool,
    pub location: Option<(Seq<char>, Option<u64>, Option<ColumnType>)>,
}

impl View for StackFrame {
    type V = FrameModel;

    open spec fn view(&self) -> FrameModel {
        FrameModel {
            function_name: self.function_name@,
            pc: self.pc,
            is_inlined: self.is_inlined,
            location: match self.source_location {
                Some(l) => Some((l.path@, l.line, l.column)),
                None => None,
            },
        }
    }
}

/// The report of frame number `index`: `Frame N: function @ pc`, the word
/// `inline` for an inlined frame, and on a second line, seven spaces in,
/// the place where it is known.
pub open spec fn frame_text(index: nat, frame: FrameModel) -> Seq<char> {
    "Frame "@ + dec_text(index) + ": "@ + frame.function_name + " @ "@ + register_text(frame.pc)
        + (if frame.is_inlined {
        " inline"@
    } else {
        Seq::empty()
    }) + match frame.location {
        None => Seq::empty(),
        Some((path, line, column)) => "\n       "@ + location_text(path, line, column),
    }
}

fn push_location(out: &mut Vec<char>, location: &SourceLocation)
    ensures
        final(out)@ == old(out)@ + location_text(location.path@, location.line, location.column),
{
    push_text(out, location.path.as_str());
    if let Some(line) = location.line {
        push_text(out, ":");
        push_dec(out, line as u128);
        if let Some(column) = location.column {
            push_text(out, ":");
            match column {
                ColumnType::LeftEdge => {
                    push_text(out, "1");
                },
                ColumnType::Column(c) => {
                    push_dec(out, c as u128);
                },
            }
        }
    }
    assert(out@ =~= old(out)@ + location_text(location.path@, location.line, location.column));
}

/// Writes the report of one frame.
pub fn frame_line(index: usize, frame: &StackFrame) -> (line: String)
    ensures
        line@ == frame_text(index as nat, frame@),
{
    let mut out: Vec<char> = Vec::new();
    push_text(&mut out, "Frame ");
    push_dec(&mut out, index as u128);
    push_text(&mut out, ": ");
    push_text(&mut out, frame.function_name.as_str());
    push_text(&mut out, " @ ");
    push_text(&mut out, "0x");
    match frame.pc {
        RegisterValue::U32(v) => {
            push_hex(&mut out, v as u128, 8, false);
        },
        RegisterValue::U64(v) => {
            push_hex(&mut out, v as u128, 16, false);
        },
        RegisterValue::U128(v) => {
            push_hex(&mut out, v, 32, false);
        },
    }
    let ghost head = "Frame "@ + dec_text(index as nat) + ": "@ + frame.function_name@ + " @ "@
        + register_text(frame.pc);
    assert(out@ =~= head);
    if frame.is_inlined {
        push_text(&mut out, " inline");
    }
    let ghost mid = out@;
    if let Some(location) = &frame.source_location {
        push_text(&mut out, "\n       ");
        push_location(&mut out, location);
        assert(out@ =~= mid + ("\n       "@ + location_text(
            location.path@,
            location.line,
            location.column,
        )));
    }
    assert(out@ =~= frame_text(index as nat, frame@));
    string_of(&out)
}

/// The reports of all frames, numbered from 0.
pub open spec fn frames_report(frames: Seq<FrameModel>) -> Seq<Seq<char>> {
    Seq::new(frames.len(), |i: int| frame_text(i as nat, frames[i]))
}

/// Writes the reports of all frames.
pub fn frame_lines(frames: &Vec<StackFrame>) -> (lines: Vec<String>)
    ensures
        texts(lines@) == frames_report(frames@.map_values(|f: StackFrame| f@)),
{
    let ghost models = frames@.map_values(|f: StackFrame| f@);
    let mut lines: Vec<String> = Vec::new();
    let mut i: usize = 0;
    while i < frames.len()
        invariant
            i <= frames.len(),
            models == frames@.map_values(|f: StackFrame| f@),
            lines.len() == i,
            forall|j: int| 0 <= j < i ==> (#[trigger] lines@[j])@ == frame_text(j as nat, models[j]),
        decreases frames.len() - i,
    {
        let line = frame_line(i, &frames[i]);
        lines.push(line);
        i += 1;
    }
    assert(texts(lines@) =~= frames_report(models));
    lines
}

} // verus!
