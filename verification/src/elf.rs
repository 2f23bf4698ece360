//! What a run needs to know of a firmware image: its vector table, the
//! addresses of `main` and of the RTT control block, and the metadata that
//! the image carries for the client.
use crate::text::str_eq;
use object::{Object, ObjectSection, ObjectSymbol};
use vstd::prelude::*;
use vstd::utf8::{decode_utf8, valid_utf8};

verus! {

/// One section of an image. `name` and `data` are `None` where the image
/// does not yield them.
#[derive(Debug)]
pub struct ElfSection {
    pub name: Option<String>,
    pub address: u64,
    pub size: u64,
    pub data: Option<Vec<u8>>,
}

/// One symbol of an image. `name` is `None` where the image does not yield
/// it.
#[derive(Debug)]
pub struct ElfSymbol {
    pub name: Option<String>,
    pub address: u64,
}

/// The sections and symbols of an image, in file order.
#[derive(Debug)]
pub struct ElfImage {
    pub sections: Vec<ElfSection>,
    pub symbols: Vec<ElfSymbol>,
}

/// A section as plain values.
pub struct SectionModel {
    pub name: Option<Seq<char>>,
    pub address: u64,
    pub size: u64,
    pub data: Option<Seq<u8>>,
}

/// A symbol as plain values.
pub struct SymbolModel {
    pub name: Option<Seq<char>>,
    pub address: u64,
}

/// An image as plain values.
pub struct ImageModel {
    pub sections: Seq<SectionModel>,
    pub symbols: Seq<SymbolModel>,
}

impl View for ElfSection {
    type V = SectionModel;

    open spec fn view(&self) -> SectionModel {
        SectionModel {
            name: match self.name {
                Some(n) => Some(n@),
                None => None,
            },
            address: self.address,
            size: self.size,
            data: match self.data {
                Some(d) => Some(d@),
                None => None,
            },
        }
    }
}

impl View for ElfSymbol {
    type V = SymbolModel;

    open spec fn view(&self) -> SymbolModel {
        SymbolModel {
            name: match self.name {
                Some(n) => Some(n@),
                None => None,
            },
            address: self.address,
        }
    }
}

impl View for ElfImage {
    type V = ImageModel;

    open spec fn view(&self) -> ImageModel {
        ImageModel {
            sections: self.sections@.map_values(|s: ElfSection| s@),
            symbols: self.symbols@.map_values(|s: ElfSymbol| s@),
        }
    }
}

/// What the object reader finds in `bytes`: the sections and symbols in file
/// order, or `None` where it takes `bytes` for no object file.
pub uninterp spec fn object_image(bytes: Seq<u8>) -> Option<ImageModel>;

/// Reads an object file with `object::File::parse` and lists what
/// `Object::sections` and `Object::symbols` walk over. Each section is
/// taken by `name`, `address`, `size` and `data`, each symbol by `name` and
/// `address`; a name or data that the reader answers with an error is
/// `None`. The contract claims only that the outcome is the one the reader
/// has for these bytes.
#[verifier::external_body]
fn read_object(bytes: &[u8]) -> (r: Option<ElfImage>)
    ensures
        match r {
            Some(image) => object_image(bytes@) == Some(image@),
            None => object_image(bytes@) is None,
        },
{
    let file = object::File::parse(bytes).ok()?;
    let sections = file.sections().map(|s| ElfSection {
        name: s.name().ok().map(String::from),
        address: s.address(),
        size: s.size(),
        data: s.data().ok().map(Vec::from),
    }).collect();
    let symbols = file.symbols().map(|s| ElfSymbol {
        name: s.name().ok().map(String::from),
        address: s.address(),
    }).collect();
    Some(ElfImage { sections, symbols })
}

/// `String::from_utf8` accepts exactly the byte strings that are valid
/// UTF-8, and gives the text that they encode.
#[verifier::external_body]
fn text_from_utf8(data: &Vec<u8>) -> (r: Option<String>)
    ensures
        r is Some <==> valid_utf8(data@),
        r matches Some(s) ==> s@ == decode_utf8(data@),
{
    String::from_utf8(data.clone()).ok()
}

/// Why an image cannot be run or read.
#[derive(Debug, Clone, Copy, PartialEq, Eq, Structural)]
pub enum ElfError {
    /// The bytes are no object file.
    NotAnObject,
    /// A loaded section does not start or end on a 4-byte boundary.
    Unaligned,
    /// A loaded section starts above the 32-bit address space.
    AddressOutOfRange,
    /// The contents of a section that is needed cannot be read.
    Unreadable,
    /// The vector table is shorter than four entries.
    VectorTableTooShort,
    /// There is no `.vector_table` section with contents.
    MissingVectorTable,
    /// There is no `main` symbol.
    MissingMain,
    /// There is no `_SEGGER_RTT` symbol.
    MissingRtt,
}

/// The start of a program image on a Cortex-M: where it lies, and its
/// entries 0, 1 and 3.
#[derive(Debug, Clone, Copy, PartialEq, Eq, Structural)]
pub struct VectorTable {
    pub location: u32,
    pub initial_sp: u32,
    pub reset: u32,
    pub hard_fault: u32,
}

/// The little-endian 32-bit word at `at` in `data`.
pub open spec fn le_word(data: Seq<u8>, at: int) -> u32 {
    (data[at] as int + data[at + 1] as int * 0x100 + data[at + 2] as int * 0x1_0000 + data[at
        + 3] as int * 0x100_0000) as u32
}

/// Reads the little-endian 32-bit word at `at`.
pub fn read_le_word(data: &Vec<u8>, at: usize) -> (w: u32)
    requires
        at + 4 <= data.len(),
    ensures
        w == le_word(data@, at as int),
{
    let b0: u32 = data[at] as u32;
    let b1: u32 = data[at + 1] as u32;
    let b2: u32 = data[at + 2] as u32;
    let b3: u32 = data[at + 3] as u32;
    b0 + b1 * 0x100 + b2 * 0x1_0000 + b3 * 0x100_0000
}

/// The section carries the name `name`.
pub open spec fn section_named(s: SectionModel, name: Seq<char>) -> bool {
    s.name == Some(name)
}

/// The section is one of those that startup code for Cortex-M loads, and is
/// not empty.
pub open spec fn is_loaded(s: SectionModel) -> bool {
    &&& s.size != 0
    &&& (section_named(s, ".vector_table"@) || section_named(s, ".text"@) || section_named(
        s,
        ".rodata"@,
    ) || section_named(s, ".data"@))
}

/// The section is the vector table of the image.
pub open spec fn is_vector_table(s: SectionModel) -> bool {
    s.size != 0 && section_named(s, ".vector_table"@)
}

/// What is wrong with a section, if anything. Only loaded sections are
/// judged.
pub open spec fn section_fault(s: SectionModel) -> Option<ElfError> {
    if !is_loaded(s) {
        None
    } else if s.size % 4 != 0 || s.address % 4 != 0 {
        Some(ElfError::Unaligned)
    } else if s.address > u32::MAX {
        Some(ElfError::AddressOutOfRange)
    } else if s.data is None {
        Some(ElfError::Unreadable)
    } else if is_vector_table(s) && s.data->0.len() < 16 {
        Some(ElfError::VectorTableTooShort)
    } else {
        None
    }
}

/// The vector table that a faultless `.vector_table` section holds.
pub open spec fn table_of(s: SectionModel) -> VectorTable {
    VectorTable {
        location: s.address as u32,
        initial_sp: le_word(s.data->0, 0),
        reset: le_word(s.data->0, 4),
        hard_fault: le_word(s.data->0, 12),
    }
}

/// The fault of the first faulty section in file order, if any section is
/// faulty.
pub open spec fn first_fault(sections: Seq<SectionModel>) -> Option<ElfError>
    decreases sections.len(),
{
    if sections.len() == 0 {
        None
    } else {
        match first_fault(sections.drop_last()) {
            Some(e) => Some(e),
            None => section_fault(sections.last()),
        }
    }
}

/// The table of the last vector table section in file order, if there is
/// one.
pub open spec fn last_table(sections: Seq<SectionModel>) -> Option<VectorTable>
    decreases sections.len(),
{
    if sections.len() == 0 {
        None
    } else if is_vector_table(sections.last()) {
        Some(table_of(sections.last()))
    } else {
        last_table(sections.drop_last())
    }
}

/// The vector table of an image. The first faulty section in file order
/// decides the error. Without a fault, the last vector table section gives
/// the table, and an image without one is refused.
pub open spec fn image_vector_table(sections: Seq<SectionModel>) -> Result<VectorTable, ElfError> {
    match first_fault(sections) {
        Some(e) => Err(e),
        None => match last_table(sections) {
            Some(vt) => Ok(vt),
            None => Err(ElfError::MissingVectorTable),
        },
    }
}

fn name_is(name: &Option<String>, wanted: &str) -> (r: bool)
    ensures
        r == (match *name {
            Some(n) => n@ == wanted@,
            None => false,
        }),
{
    match name {
        Some(n) => str_eq(n.as_str(), wanted),
        None => false,
    }
}

/// Judges one section: its fault, or the vector table that it holds.
fn check_section(s: &ElfSection) -> (r: Result<Option<VectorTable>, ElfError>)
    ensures
        match r {
            Err(e) => section_fault(s@) == Some(e),
            Ok(Some(vt)) => section_fault(s@) is None && is_vector_table(s@) && vt == table_of(s@),
            Ok(None) => section_fault(s@) is None && !is_vector_table(s@),
        },
{
    let is_table = name_is(&s.name, ".vector_table");
    let loaded = is_table || name_is(&s.name, ".text") || name_is(&s.name, ".rodata") || name_is(
        &s.name,
        ".data",
    );
    if !loaded || s.size == 0 {
        return Ok(None);
    }
    if s.size % 4 != 0 || s.address % 4 != 0 {
        return Err(ElfError::Unaligned);
    }
    if s.address > 0xffff_ffff {
        return Err(ElfError::AddressOutOfRange);
    }
    match &s.data {
        None => Err(ElfError::Unreadable),
        Some(data) => {
            if !is_table {
                Ok(None)
            } else if data.len() < 16 {
                Err(ElfError::VectorTableTooShort)
            } else {
                Ok(
                    Some(
                        VectorTable {
                            location: s.address as u32,
                            initial_sp: read_le_word(data, 0),
                            reset: read_le_word(data, 4),
                            hard_fault: read_le_word(data, 12),
                        },
                    ),
                )
            }
        },
    }
}

/// Finds the vector table of an image.
pub fn vector_table_of(image: &ElfImage) -> (r: Result<VectorTable, ElfError>)
    ensures
        r == image_vector_table(image@.sections),
        r matches Ok(vt) ==> vt.location % 4 == 0,
{
    let ghost sections = image@.sections;
    let mut found: Option<VectorTable> = None;
    let mut i: usize = 0;
    while i < image.sections.len()
        invariant
            i <= image.sections.len(),
            sections == image@.sections,
            sections.len() == image.sections.len(),
            first_fault(sections.take(i as int)) is None,
            found == last_table(sections.take(i as int)),
            found matches Some(vt) ==> vt.location % 4 == 0,
        decreases image.sections.len() - i,
    {
        assert(sections[i as int] == image.sections[i as int]@);
        assert(sections.take(i + 1).drop_last() == sections.take(i as int));
        assert(sections.take(i + 1).last() == sections[i as int]);
        match check_section(&image.sections[i]) {
            Err(e) => {
                proof {
                    lemma_fault_stays(sections, i + 1);
                }
                return Err(e);
            },
            Ok(Some(vt)) => {
                found = Some(vt);
            },
            Ok(None) => {},
        }
        i += 1;
    }
    assert(sections.take(sections.len() as int) == sections);
    match found {
        Some(vt) => Ok(vt),
        None => Err(ElfError::MissingVectorTable),
    }
}

/// A fault among the first `k` sections is the fault of the whole list.
pub proof fn lemma_fault_stays(sections: Seq<SectionModel>, k: int)
    requires
        0 <= k <= sections.len(),
        first_fault(sections.take(k)) is Some,
    ensures
        first_fault(sections) == first_fault(sections.take(k)),
    decreases sections.len() - k,
{
    if k == sections.len() {
        assert(sections.take(k) == sections);
    } else {
        assert(sections.take(k + 1).drop_last() == sections.take(k));
        lemma_fault_stays(sections, k + 1);
    }
}

/// The low 32 bits of an address.
pub open spec fn low_word(address: u64) -> u32 {
    (address % 0x1_0000_0000) as u32
}

/// The address of the instruction that a function pointer names: the
/// pointer with its Thumb bit, bit 0, cleared.
pub open spec fn thumb_address(pointer: u32) -> u32 {
    (pointer - pointer % 2) as u32
}

/// The low 32 bits of an address.
pub fn low_word_of(address: u64) -> (w: u32)
    ensures
        w == low_word(address),
{
    (address % 0x1_0000_0000) as u32
}

/// Clears the Thumb bit of a function pointer.
pub fn clear_thumb_bit(pointer: u32) -> (a: u32)
    ensures
        a == thumb_address(pointer),
        a % 2 == 0,
{
    let a: u32 = pointer & !1u32;
    assert(pointer & !1u32 == (pointer - pointer % 2) as u32) by (bit_vector);
    a
}

/// The address of the last symbol in file order that carries the name
/// `name`, if there is one.
pub open spec fn last_symbol(symbols: Seq<SymbolModel>, name: Seq<char>) -> Option<u64>
    decreases symbols.len(),
{
    if symbols.len() == 0 {
        None
    } else if symbols.last().name == Some(name) {
        Some(symbols.last().address)
    } else {
        last_symbol(symbols.drop_last(), name)
    }
}

/// The two addresses that a run takes from the symbols of an image.
#[derive(Debug, Clone, Copy, PartialEq, Eq, Structural)]
pub struct RunAddresses {
    /// Where the RTT control block lies, if `_SEGGER_RTT` resolves.
    pub rtt: Option<u32>,
    /// Where `main` starts, Thumb bit cleared.
    pub main: u32,
}

/// The addresses of `_SEGGER_RTT` and of `main`. An image without `main` is
/// refused.
pub open spec fn image_addresses(symbols: Seq<SymbolModel>) -> Result<RunAddresses, ElfError> {
    match last_symbol(symbols, "main"@) {
        None => Err(ElfError::MissingMain),
        Some(main) => Ok(
            RunAddresses {
                rtt: match last_symbol(symbols, "_SEGGER_RTT"@) {
                    Some(rtt) => Some(low_word(rtt)),
                    None => None,
                },
                main: thumb_address(low_word(main)),
            },
        ),
    }
}

/// Resolves `_SEGGER_RTT` and `main` among the symbols of an image.
pub fn get_rtt_main_from(image: &ElfImage) -> (r: Result<RunAddresses, ElfError>)
    ensures
        r == image_addresses(image@.symbols),
        r matches Ok(a) ==> a.main % 2 == 0,
{
    let ghost symbols = image@.symbols;
    let mut rtt: Option<u32> = None;
    let mut main: Option<u32> = None;
    let mut i: usize = 0;
    while i < image.symbols.len()
        invariant
            i <= image.symbols.len(),
            symbols == image@.symbols,
            symbols.len() == image.symbols.len(),
            rtt == match last_symbol(symbols.take(i as int), "_SEGGER_RTT"@) {
                Some(a) => Some(low_word(a)),
                None => None,
            },
            main == match last_symbol(symbols.take(i as int), "main"@) {
                Some(a) => Some(thumb_address(low_word(a))),
                None => None,
            },
            main matches Some(a) ==> a % 2 == 0,
        decreases image.symbols.len() - i,
    {
        assert(symbols[i as int] == image.symbols[i as int]@);
        assert(symbols.take(i + 1).drop_last() == symbols.take(i as int));
        assert(symbols.take(i + 1).last() == symbols[i as int]);
        let symbol = &image.symbols[i];
        if name_is(&symbol.name, "main") {
            main = Some(clear_thumb_bit(low_word_of(symbol.address)));
        }
        if name_is(&symbol.name, "_SEGGER_RTT") {
            rtt = Some(low_word_of(symbol.address));
        }
        i += 1;
    }
    assert(symbols.take(symbols.len() as int) == symbols);
    match main {
        Some(main) => Ok(RunAddresses { rtt, main }),
        None => Err(ElfError::MissingMain),
    }
}

/// What an image tells a run: its vector table and the two addresses.
#[derive(Debug, Clone, Copy, PartialEq, Eq, Structural)]
pub struct ElfFacts {
    pub vector_table: VectorTable,
    pub rtt_addr: u32,
    pub main_addr: u32,
}

/// The facts of an image. The sections are judged first, then `main` must
/// resolve, then `_SEGGER_RTT`.
pub open spec fn image_facts(image: ImageModel) -> Result<ElfFacts, ElfError> {
    match image_vector_table(image.sections) {
        Err(e) => Err(e),
        Ok(vector_table) => match image_addresses(image.symbols) {
            Err(e) => Err(e),
            Ok(addresses) => match addresses.rtt {
                None => Err(ElfError::MissingRtt),
                Some(rtt_addr) => Ok(ElfFacts { vector_table, rtt_addr, main_addr: addresses.main }),
            },
        },
    }
}

/// The facts of raw image bytes: those of what the object reader finds in
/// them.
pub open spec fn elf_facts(bytes: Seq<u8>) -> Result<ElfFacts, ElfError> {
    match object_image(bytes) {
        None => Err(ElfError::NotAnObject),
        Some(image) => image_facts(image),
    }
}

impl ElfFacts {
    /// Gathers the facts of an image that was read already.
    pub fn from_image(image: &ElfImage) -> (r: Result<ElfFacts, ElfError>)
        ensures
            r == image_facts(image@),
            r matches Ok(f) ==> f.vector_table.location % 4 == 0 && f.main_addr % 2 == 0,
    {
        let vector_table = match vector_table_of(image) {
            Ok(vt) => vt,
            Err(e) => {
                return Err(e);
            },
        };
        let addresses = match get_rtt_main_from(image) {
            Ok(a) => a,
            Err(e) => {
                return Err(e);
            },
        };
        match addresses.rtt {
            None => Err(ElfError::MissingRtt),
            Some(rtt_addr) => Ok(ElfFacts { vector_table, rtt_addr, main_addr: addresses.main }),
        }
    }

    /// Reads an image and gathers its facts.
    pub fn from_elf(bytes: &[u8]) -> (r: Result<ElfFacts, ElfError>)
        ensures
            r == elf_facts(bytes@),
            r matches Ok(f) ==> f.vector_table.location % 4 == 0 && f.main_addr % 2 == 0,
    {
        match read_object(bytes) {
            None => Err(ElfError::NotAnObject),
            Some(image) => ElfFacts::from_image(&image),
        }
    }
}

impl ElfImage {
    /// Reads the sections and symbols of an image.
    pub fn parse(bytes: &[u8]) -> (r: Result<ElfImage, ElfError>)
        ensures
            match r {
                Ok(image) => object_image(bytes@) == Some(image@),
                Err(e) => e == ElfError::NotAnObject && object_image(bytes@) is None,
            },
    {
        match read_object(bytes) {
            Some(image) => Ok(image),
            None => Err(ElfError::NotAnObject),
        }
    }
}

/// The first section in file order that carries the name `name`, if there
/// is one.
pub open spec fn first_section(sections: Seq<SectionModel>, name: Seq<char>) -> Option<
    SectionModel,
>
    decreases sections.len(),
{
    if sections.len() == 0 {
        None
    } else if section_named(sections[0], name) {
        Some(sections[0])
    } else {
        first_section(sections.skip(1), name)
    }
}

/// The contents of the first section named `name`: `Ok(None)` without such
/// a section, an error where its contents cannot be read.
pub open spec fn named_contents(sections: Seq<SectionModel>, name: Seq<char>) -> Result<
    Option<Seq<u8>>,
    ElfError,
> {
    match first_section(sections, name) {
        None => Ok(None),
        Some(s) => match s.data {
            None => Err(ElfError::Unreadable),
            Some(d) => Ok(Some(d)),
        },
    }
}

fn contents_of<'a>(image: &'a ElfImage, name: &str) -> (r: Result<Option<&'a Vec<u8>>, ElfError>)
    ensures
        match r {
            Err(e) => named_contents(image@.sections, name@) == Err::<Option<Seq<u8>>, ElfError>(e),
            Ok(None) => named_contents(image@.sections, name@) == Ok::<Option<Seq<u8>>, ElfError>(
                None,
            ),
            Ok(Some(d)) => named_contents(image@.sections, name@) == Ok::<
                Option<Seq<u8>>,
                ElfError,
            >(Some(d@)),
        },
{
    let ghost sections = image@.sections;
    let mut i: usize = 0;
    assert(sections.skip(0) == sections);
    while i < image.sections.len()
        invariant
            i <= image.sections.len(),
            sections == image@.sections,
            sections.len() == image.sections.len(),
            first_section(sections, name@) == first_section(sections.skip(i as int), name@),
        decreases image.sections.len() - i,
    {
        assert(sections[i as int] == image.sections[i as int]@);
        assert(sections.skip(i as int)[0] == sections[i as int]);
        assert(sections.skip(i as int).skip(1) == sections.skip(i + 1));
        let section = &image.sections[i];
        if name_is(&section.name, name) {
            return match &section.data {
                None => Err(ElfError::Unreadable),
                Some(d) => Ok(Some(d)),
            };
        }
        i += 1;
    }
    Ok(None)
}

/// What an image says of itself to the client that submits it.
#[derive(Debug)]
pub struct ElfMetadata {
    /// The target it asks for, from the section `.teleprobe.target`.
    pub target: Option<String>,
    /// The seconds it asks for, from the section `.teleprobe.timeout`.
    pub timeout: Option<u64>,
    /// The target section holds bytes that are no UTF-8 text: it was ignored.
    pub target_ignored: bool,
    /// The timeout section is not 4 bytes long: it was ignored.
    pub timeout_ignored: bool,
}

/// Metadata as plain values.
pub struct MetadataModel {
    pub target: Option<Seq<char>>,
    pub timeout: Option<u64>,
    pub target_ignored: bool,
    pub timeout_ignored: bool,
}

impl View for ElfMetadata {
    type V = MetadataModel;

    open spec fn view(&self) -> MetadataModel {
        MetadataModel {
            target: match self.target {
                Some(t) => Some(t@),
                None => None,
            },
            timeout: self.timeout,
            target_ignored: self.target_ignored,
            timeout_ignored: self.timeout_ignored,
        }
    }
}

/// The target that the contents of the target section name, and whether the
/// contents were ignored. Empty contents name nothing; contents that are no
/// UTF-8 text are ignored.
pub open spec fn target_of(contents: Option<Seq<u8>>) -> (Option<Seq<char>>, bool) {
    match contents {
        None => (None, false),
        Some(d) => if d.len() == 0 {
            (None, false)
        } else if valid_utf8(d) {
            (Some(decode_utf8(d)), false)
        } else {
            (None, true)
        },
    }
}

/// The seconds that the contents of the timeout section give, and whether
/// the contents were ignored. Exactly four bytes are a little-endian number;
/// any other length is ignored.
pub open spec fn timeout_of(contents: Option<Seq<u8>>) -> (Option<u64>, bool) {
    match contents {
        None => (None, false),
        Some(d) => if d.len() == 4 {
            (Some(le_word(d, 0) as u64), false)
        } else {
            (None, true)
        },
    }
}

/// The metadata of an image. Only contents that cannot be read at all are an
/// error; contents that make no sense are ignored and reported as such.
pub open spec fn image_metadata(sections: Seq<SectionModel>) -> Result<MetadataModel, ElfError> {
    match named_contents(sections, ".teleprobe.target"@) {
        Err(e) => Err(e),
        Ok(target) => match named_contents(sections, ".teleprobe.timeout"@) {
            Err(e) => Err(e),
            Ok(timeout) => Ok(
                MetadataModel {
                    target: target_of(target).0,
                    timeout: timeout_of(timeout).0,
                    target_ignored: target_of(target).1,
                    timeout_ignored: timeout_of(timeout).1,
                },
            ),
        },
    }
}

/// The metadata of raw image bytes.
pub open spec fn elf_metadata(bytes: Seq<u8>) -> Result<MetadataModel, ElfError> {
    match object_image(bytes) {
        None => Err(ElfError::NotAnObject),
        Some(image) => image_metadata(image.sections),
    }
}

impl ElfMetadata {
    /// Reads the metadata of an image that was read already.
    pub fn from_image(image: &ElfImage) -> (r: Result<ElfMetadata, ElfError>)
        ensures
            match r {
                Ok(m) => image_metadata(image@.sections) == Ok::<MetadataModel, ElfError>(m@),
                Err(e) => image_metadata(image@.sections) == Err::<MetadataModel, ElfError>(e),
            },
    {
        let mut meta = ElfMetadata {
            target: None,
            timeout: None,
            target_ignored: false,
            timeout_ignored: false,
        };
        let target = match contents_of(image, ".teleprobe.target") {
            Ok(t) => t,
            Err(e) => {
                return Err(e);
            },
        };
        let timeout = match contents_of(image, ".teleprobe.timeout") {
            Ok(t) => t,
            Err(e) => {
                return Err(e);
            },
        };
        if let Some(data) = target {
            if data.len() != 0 {
                match text_from_utf8(data) {
                    Some(s) => {
                        meta.target = Some(s);
                    },
                    None => {
                        meta.target_ignored = true;
                    },
                }
            }
        }
        if let Some(data) = timeout {
            if data.len() == 4 {
                meta.timeout = Some(read_le_word(data, 0) as u64);
            } else {
                meta.timeout_ignored = true;
            }
        }
        Ok(meta)
    }

    /// Reads an image and its metadata.
    pub fn from_elf(elf: &[u8]) -> (r: Result<ElfMetadata, ElfError>)
        ensures
            match r {
                Ok(m) => elf_metadata(elf@) == Ok::<MetadataModel, ElfError>(m@),
                Err(e) => elf_metadata(elf@) == Err::<MetadataModel, ElfError>(e),
            },
    {
        match read_object(elf) {
            None => Err(ElfError::NotAnObject),
            Some(image) => ElfMetadata::from_image(&image),
        }
    }
}

/// An image without a section of the name has no contents under it.
pub proof fn lemma_no_section_no_contents(sections: Seq<SectionModel>, name: Seq<char>)
    requires
        forall|i: int| 0 <= i < sections.len() ==> !section_named(#[trigger] sections[i], name),
    ensures
        first_section(sections, name) is None,
        named_contents(sections, name) == Ok::<Option<Seq<u8>>, ElfError>(None),
    decreases sections.len(),
{
    if sections.len() > 0 {
        assert forall|i: int| 0 <= i < sections.skip(1).len() implies !section_named(
            #[trigger] sections.skip(1)[i],
            name,
        ) by {
            assert(sections.skip(1)[i] == sections[i + 1]);
        }
        lemma_no_section_no_contents(sections.skip(1), name);
    }
}

/// An image that carries neither metadata section is read without error:
/// it names no target and no timeout, and nothing was ignored.
pub proof fn lemma_metadata_absent(sections: Seq<SectionModel>)
    requires
        forall|i: int|
            0 <= i < sections.len() ==> !section_named(
                #[trigger] sections[i],
                ".teleprobe.target"@,
            ) && !section_named(sections[i], ".teleprobe.timeout"@),
    ensures
        image_metadata(sections) == Ok::<MetadataModel, ElfError>(
            MetadataModel {
                target: None,
                timeout: None,
                target_ignored: false,
                timeout_ignored: false,
            },
        ),
{
    lemma_no_section_no_contents(sections, ".teleprobe.target"@);
    lemma_no_section_no_contents(sections, ".teleprobe.timeout"@);
}

/// Metadata that makes no sense never fails the reading: a timeout section
/// of a length other than four bytes gives no timeout and is reported as
/// ignored, and a target section that is no UTF-8 text gives no target and
/// is reported as ignored.
pub proof fn lemma_metadata_robust(sections: Seq<SectionModel>, target: Seq<u8>, timeout: Seq<u8>)
    requires
        named_contents(sections, ".teleprobe.target"@) is Ok,
        named_contents(sections, ".teleprobe.timeout"@) is Ok,
    ensures
        image_metadata(sections) is Ok,
        named_contents(sections, ".teleprobe.timeout"@) == Ok::<Option<Seq<u8>>, ElfError>(
            Some(timeout),
        ) && timeout.len() != 4 ==> image_metadata(sections)->Ok_0.timeout is None
            && image_metadata(sections)->Ok_0.timeout_ignored,
        named_contents(sections, ".teleprobe.target"@) == Ok::<Option<Seq<u8>>, ElfError>(
            Some(target),
        ) && target.len() != 0 && !valid_utf8(target) ==> image_metadata(sections)->Ok_0.target
            is None && image_metadata(sections)->Ok_0.target_ignored,
{
}


} // verus!
