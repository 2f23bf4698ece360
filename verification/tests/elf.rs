use teleprobe::client::{prepare_job, Cache, Plan};
use teleprobe::elf::{
    clear_thumb_bit, get_rtt_main_from, low_word_of, read_le_word, vector_table_of, ElfError,
    ElfFacts, ElfImage, ElfMetadata, ElfSection, ElfSymbol, RunAddresses, VectorTable,
};

struct Sec {
    name: &'static str,
    addr: u32,
    data: Vec<u8>,
}

struct Sym {
    name: &'static str,
    value: u32,
    /// Index of the section in the list handed to `image_bytes`, from 0.
    section: usize,
}

fn put16(out: &mut Vec<u8>, v: u16) {
    out.extend_from_slice(&v.to_le_bytes());
}

fn put32(out: &mut Vec<u8>, v: u32) {
    out.extend_from_slice(&v.to_le_bytes());
}

fn section_header(
    out: &mut Vec<u8>,
    name: u32,
    kind: u32,
    flags: u32,
    addr: u32,
    offset: u32,
    size: u32,
    link: u32,
    info: u32,
    entsize: u32,
) {
    for v in [name, kind, flags, addr, offset, size, link, info, 4, entsize] {
        put32(out, v);
    }
}

/// A little-endian 32-bit ARM image with the sections and symbols given.
fn image_bytes(sections: &[Sec], symbols: &[Sym]) -> Vec<u8> {
    let mut shstrtab = vec![0u8];
    let mut name_offsets = Vec::new();
    for s in sections {
        name_offsets.push(shstrtab.len() as u32);
        shstrtab.extend_from_slice(s.name.as_bytes());
        shstrtab.push(0);
    }
    let symtab_name = shstrtab.len() as u32;
    shstrtab.extend_from_slice(b".symtab\0");
    let strtab_name = shstrtab.len() as u32;
    shstrtab.extend_from_slice(b".strtab\0");
    let shstrtab_name = shstrtab.len() as u32;
    shstrtab.extend_from_slice(b".shstrtab\0");

    let mut strtab = vec![0u8];
    let mut symtab = vec![0u8; 16];
    for s in symbols {
        let name = strtab.len() as u32;
        strtab.extend_from_slice(s.name.as_bytes());
        strtab.push(0);
        put32(&mut symtab, name);
        put32(&mut symtab, s.value);
        put32(&mut symtab, 0);
        symtab.push(0x11);
        symtab.push(0);
        put16(&mut symtab, (s.section + 1) as u16);
    }

    let mut body = Vec::new();
    let mut offsets = Vec::new();
    let base = 52u32;
    for s in sections {
        while body.len() % 4 != 0 {
            body.push(0);
        }
        offsets.push(base + body.len() as u32);
        body.extend_from_slice(&s.data);
    }
    while body.len() % 4 != 0 {
        body.push(0);
    }
    let symtab_offset = base + body.len() as u32;
    body.extend_from_slice(&symtab);
    let strtab_offset = base + body.len() as u32;
    body.extend_from_slice(&strtab);
    let shstrtab_offset = base + body.len() as u32;
    body.extend_from_slice(&shstrtab);
    while body.len() % 4 != 0 {
        body.push(0);
    }
    let shoff = base + body.len() as u32;
    let count = sections.len() as u32 + 4;

    let mut out = vec![0x7f, b'E', b'L', b'F', 1, 1, 1, 0, 0, 0, 0, 0, 0, 0, 0, 0];
    put16(&mut out, 2);
    put16(&mut out, 40);
    put32(&mut out, 1);
    put32(&mut out, 0);
    put32(&mut out, 0);
    put32(&mut out, shoff);
    put32(&mut out, 0x0500_0000);
    put16(&mut out, 52);
    put16(&mut out, 0);
    put16(&mut out, 0);
    put16(&mut out, 40);
    put16(&mut out, count as u16);
    put16(&mut out, (count - 1) as u16);
    out.extend_from_slice(&body);

    section_header(&mut out, 0, 0, 0, 0, 0, 0, 0, 0, 0);
    for (i, s) in sections.iter().enumerate() {
        section_header(&mut out, name_offsets[i], 1, 2, s.addr, offsets[i], s.data.len() as u32, 0, 0, 0);
    }
    let strtab_index = sections.len() as u32 + 2;
    section_header(&mut out, symtab_name, 2, 0, 0, symtab_offset, symtab.len() as u32, strtab_index, 1, 16);
    section_header(&mut out, strtab_name, 3, 0, 0, strtab_offset, strtab.len() as u32, 0, 0, 0);
    section_header(&mut out, shstrtab_name, 3, 0, 0, shstrtab_offset, shstrtab.len() as u32, 0, 0, 0);
    out
}

fn words(values: &[u32]) -> Vec<u8> {
    values.iter().flat_map(|v| v.to_le_bytes()).collect()
}

fn firmware(extra: Vec<Sec>) -> Vec<u8> {
    let mut sections = vec![
        Sec {
            name: ".vector_table",
            addr: 0x0800_0000,
            data: words(&[0x2002_0000, 0x0800_0101, 0x0800_0201, 0x0800_0301]),
        },
        Sec { name: ".text", addr: 0x0800_0100, data: words(&[0xbf00_bf00, 0xbf00_bf00]) },
    ];
    sections.extend(extra);
    let symbols = [
        Sym { name: "main", value: 0x0800_0105, section: 1 },
        Sym { name: "_SEGGER_RTT", value: 0x2000_0010, section: 1 },
    ];
    image_bytes(&sections, &symbols)
}

fn section(name: &str, address: u64, data: &[u8]) -> ElfSection {
    ElfSection {
        name: Some(name.to_string()),
        address,
        size: data.len() as u64,
        data: Some(data.to_vec()),
    }
}

fn symbol(name: &str, address: u64) -> ElfSymbol {
    ElfSymbol { name: Some(name.to_string()), address }
}

fn image(sections: Vec<ElfSection>, symbols: Vec<ElfSymbol>) -> ElfImage {
    ElfImage { sections, symbols }
}

#[test]
fn parse_lists_sections_and_symbols_in_file_order() {
    let bytes = firmware(vec![]);
    let image = ElfImage::parse(&bytes).unwrap();
    let names: Vec<&str> = image.sections.iter().filter_map(|s| s.name.as_deref()).collect();
    assert!(names.contains(&".vector_table"));
    assert!(names.contains(&".text"));
    let table = image.sections.iter().find(|s| s.name.as_deref() == Some(".vector_table")).unwrap();
    assert_eq!(table.address, 0x0800_0000);
    assert_eq!(table.size, 16);
    assert_eq!(table.data.as_deref().unwrap().len(), 16);
    let main = image.symbols.iter().find(|s| s.name.as_deref() == Some("main")).unwrap();
    assert_eq!(main.address, 0x0800_0105);
}

#[test]
fn parse_refuses_what_is_no_object() {
    assert_eq!(ElfImage::parse(b"not an elf").unwrap_err(), ElfError::NotAnObject);
    assert_eq!(ElfImage::parse(&[]).unwrap_err(), ElfError::NotAnObject);
    assert_eq!(ElfFacts::from_elf(b"garbage").unwrap_err(), ElfError::NotAnObject);
    assert_eq!(ElfMetadata::from_elf(b"garbage").unwrap_err(), ElfError::NotAnObject);
}

#[test]
fn facts_of_a_flash_image() {
    let facts = ElfFacts::from_elf(&firmware(vec![])).unwrap();
    assert_eq!(
        facts,
        ElfFacts {
            vector_table: VectorTable {
                location: 0x0800_0000,
                initial_sp: 0x2002_0000,
                reset: 0x0800_0101,
                hard_fault: 0x0800_0301,
            },
            rtt_addr: 0x2000_0010,
            main_addr: 0x0800_0104,
        }
    );
}

#[test]
fn metadata_absent_sections_parse_fine() {
    let meta = ElfMetadata::from_elf(&firmware(vec![])).unwrap();
    assert_eq!(meta.target, None);
    assert_eq!(meta.timeout, None);
    assert!(!meta.target_ignored);
    assert!(!meta.timeout_ignored);
}

#[test]
fn metadata_target_and_timeout_are_read() {
    let bytes = firmware(vec![
        Sec { name: ".teleprobe.target", addr: 0, data: b"rpi-pico".to_vec() },
        Sec { name: ".teleprobe.timeout", addr: 0, data: vec![60, 0, 0, 0] },
    ]);
    let meta = ElfMetadata::from_elf(&bytes).unwrap();
    assert_eq!(meta.target.as_deref(), Some("rpi-pico"));
    assert_eq!(meta.timeout, Some(60));
    assert!(!meta.target_ignored);
    assert!(!meta.timeout_ignored);
}

#[test]
fn metadata_timeout_is_little_endian() {
    let bytes = firmware(vec![Sec {
        name: ".teleprobe.timeout",
        addr: 0,
        data: vec![0x78, 0x56, 0x34, 0x12],
    }]);
    assert_eq!(ElfMetadata::from_elf(&bytes).unwrap().timeout, Some(0x1234_5678));
}

#[test]
fn metadata_three_byte_timeout_is_ignored_with_a_warning() {
    let bytes = firmware(vec![Sec { name: ".teleprobe.timeout", addr: 0, data: vec![1, 2, 3] }]);
    let meta = ElfMetadata::from_elf(&bytes).unwrap();
    assert_eq!(meta.timeout, None);
    assert!(meta.timeout_ignored);
    assert!(!meta.target_ignored);
}

#[test]
fn metadata_invalid_utf8_target_is_ignored_with_a_warning() {
    let bytes = firmware(vec![Sec { name: ".teleprobe.target", addr: 0, data: vec![0xff, 0xfe, 0x41] }]);
    let meta = ElfMetadata::from_elf(&bytes).unwrap();
    assert_eq!(meta.target, None);
    assert!(meta.target_ignored);
    assert!(!meta.timeout_ignored);
}

#[test]
fn metadata_first_section_of_a_name_counts() {
    let img = image(
        vec![
            section(".teleprobe.target", 0, b"first"),
            section(".teleprobe.target", 0, b"second"),
            section(".teleprobe.timeout", 0, &[5, 0, 0, 0, 0]),
            section(".teleprobe.timeout", 0, &[7, 0, 0, 0]),
        ],
        vec![],
    );
    let meta = ElfMetadata::from_image(&img).unwrap();
    assert_eq!(meta.target.as_deref(), Some("first"));
    assert_eq!(meta.timeout, None);
    assert!(meta.timeout_ignored);
}

#[test]
fn metadata_empty_target_names_nothing() {
    let img = image(vec![section(".teleprobe.target", 0, b"")], vec![]);
    let meta = ElfMetadata::from_image(&img).unwrap();
    assert_eq!(meta.target, None);
    assert!(!meta.target_ignored);
}

#[test]
fn metadata_unreadable_section_is_an_error() {
    let img = image(
        vec![ElfSection { name: Some(".teleprobe.target".to_string()), address: 0, size: 4, data: None }],
        vec![],
    );
    assert_eq!(ElfMetadata::from_image(&img).unwrap_err(), ElfError::Unreadable);
}

#[test]
fn vector_table_entries_zero_one_and_three() {
    let img = image(vec![section(".vector_table", 0x2000_0000, &words(&[1, 2, 3, 4, 5]))], vec![]);
    assert_eq!(
        vector_table_of(&img).unwrap(),
        VectorTable { location: 0x2000_0000, initial_sp: 1, reset: 2, hard_fault: 4 }
    );
}

#[test]
fn vector_table_missing() {
    let img = image(vec![section(".text", 0x100, &words(&[0]))], vec![]);
    assert_eq!(vector_table_of(&img).unwrap_err(), ElfError::MissingVectorTable);
    let empty = image(vec![section(".vector_table", 0x100, &[])], vec![]);
    assert_eq!(vector_table_of(&empty).unwrap_err(), ElfError::MissingVectorTable);
}

#[test]
fn vector_table_unaligned_sections_are_refused() {
    let odd_start = image(vec![section(".vector_table", 0x2000_0002, &words(&[1, 2, 3, 4]))], vec![]);
    assert_eq!(vector_table_of(&odd_start).unwrap_err(), ElfError::Unaligned);
    let odd_size = image(
        vec![section(".vector_table", 0x2000_0000, &words(&[1, 2, 3, 4])), section(".data", 0x2000_1000, &[1, 2, 3])],
        vec![],
    );
    assert_eq!(vector_table_of(&odd_size).unwrap_err(), ElfError::Unaligned);
}

#[test]
fn vector_table_sections_that_are_not_loaded_are_not_judged() {
    let img = image(
        vec![section(".debug_info", 1, &[1, 2, 3]), section(".vector_table", 0x100, &words(&[1, 2, 3, 4]))],
        vec![],
    );
    assert!(vector_table_of(&img).is_ok());
}

#[test]
fn vector_table_too_high_or_too_short_or_unreadable() {
    let high = image(vec![section(".text", 0x1_0000_0000, &words(&[0]))], vec![]);
    assert_eq!(vector_table_of(&high).unwrap_err(), ElfError::AddressOutOfRange);
    let short = image(vec![section(".vector_table", 0x100, &words(&[1, 2, 3]))], vec![]);
    assert_eq!(vector_table_of(&short).unwrap_err(), ElfError::VectorTableTooShort);
    let unreadable = image(
        vec![ElfSection { name: Some(".rodata".to_string()), address: 0, size: 4, data: None }],
        vec![],
    );
    assert_eq!(vector_table_of(&unreadable).unwrap_err(), ElfError::Unreadable);
}

#[test]
fn vector_table_first_fault_and_last_table_count() {
    let img = image(
        vec![
            section(".vector_table", 0x100, &words(&[1, 2, 3, 4])),
            section(".vector_table", 0x200, &words(&[5, 6, 7, 8])),
        ],
        vec![],
    );
    assert_eq!(vector_table_of(&img).unwrap().location, 0x200);
    let faulty = image(
        vec![
            section(".text", 0x1_0000_0000, &words(&[0])),
            section(".data", 0x101, &words(&[0])),
        ],
        vec![],
    );
    assert_eq!(vector_table_of(&faulty).unwrap_err(), ElfError::AddressOutOfRange);
}

#[test]
fn symbols_main_has_its_thumb_bit_cleared() {
    let img = image(vec![], vec![symbol("main", 0x0800_0105), symbol("_SEGGER_RTT", 0x2000_0001)]);
    assert_eq!(
        get_rtt_main_from(&img).unwrap(),
        RunAddresses { rtt: Some(0x2000_0001), main: 0x0800_0104 }
    );
}

#[test]
fn symbols_without_main_are_refused_and_rtt_is_optional() {
    let no_main = image(vec![], vec![symbol("_SEGGER_RTT", 0x2000_0000)]);
    assert_eq!(get_rtt_main_from(&no_main).unwrap_err(), ElfError::MissingMain);
    let no_rtt = image(vec![], vec![symbol("main", 0x100)]);
    assert_eq!(get_rtt_main_from(&no_rtt).unwrap(), RunAddresses { rtt: None, main: 0x100 });
}

#[test]
fn symbols_last_of_a_name_counts_and_addresses_are_cut_to_32_bits() {
    let img = image(
        vec![],
        vec![
            symbol("main", 0x10),
            symbol("main", 0x1_0000_0021),
            symbol("_SEGGER_RTT", 0x30),
            ElfSymbol { name: None, address: 0x99 },
            symbol("_SEGGER_RTT", 0xffff_ffff_0000_0040),
        ],
    );
    assert_eq!(get_rtt_main_from(&img).unwrap(), RunAddresses { rtt: Some(0x40), main: 0x20 });
}

#[test]
fn facts_need_rtt_after_main() {
    let table = section(".vector_table", 0x100, &words(&[1, 2, 3, 4]));
    let img = image(vec![table], vec![symbol("main", 0x100)]);
    assert_eq!(ElfFacts::from_image(&img).unwrap_err(), ElfError::MissingRtt);
    let img = image(vec![], vec![symbol("main", 0x100), symbol("_SEGGER_RTT", 0x200)]);
    assert_eq!(ElfFacts::from_image(&img).unwrap_err(), ElfError::MissingVectorTable);
    let table = section(".vector_table", 0x100, &words(&[1, 2, 3, 4]));
    let img = image(vec![table], vec![symbol("_SEGGER_RTT", 0x200)]);
    assert_eq!(ElfFacts::from_image(&img).unwrap_err(), ElfError::MissingMain);
}

#[test]
fn words_and_addresses() {
    assert_eq!(read_le_word(&vec![0, 0x78, 0x56, 0x34, 0x12], 1), 0x1234_5678);
    assert_eq!(read_le_word(&vec![0xff, 0xff, 0xff, 0xff], 0), 0xffff_ffff);
    assert_eq!(low_word_of(0x1_2345_6789), 0x2345_6789);
    assert_eq!(clear_thumb_bit(0x0800_0101), 0x0800_0100);
    assert_eq!(clear_thumb_bit(0x0800_0100), 0x0800_0100);
    assert_eq!(clear_thumb_bit(0xffff_ffff), 0xffff_fffe);
}

#[test]
fn job_of_an_image_hands_on_what_was_ignored() {
    let bytes = firmware(vec![
        Sec { name: ".teleprobe.target", addr: 0, data: b"rpi-pico".to_vec() },
        Sec { name: ".teleprobe.timeout", addr: 0, data: vec![1, 2, 3] },
    ]);
    let prepared = prepare_job("fw/a.elf".to_string(), bytes.clone(), &None, &Cache::empty());
    assert!(!prepared.target_ignored);
    assert!(prepared.timeout_ignored);
    match prepared.plan.unwrap() {
        Plan::Submit(job) => {
            assert_eq!(job.target, "rpi-pico");
            assert_eq!(job.timeout, None);
            assert_eq!(job.elf, bytes);
            assert_eq!(job.hash.len(), 64);
        }
        Plan::Skip { .. } => panic!("nothing is remembered"),
    }
    let bytes = firmware(vec![Sec { name: ".teleprobe.target", addr: 0, data: vec![0xff] }]);
    let prepared = prepare_job("fw/b.elf".to_string(), bytes, &None, &Cache::empty());
    assert!(prepared.target_ignored);
    assert!(!prepared.timeout_ignored);
    assert!(prepared.plan.is_err());
}
