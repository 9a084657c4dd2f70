use lrnprof::errors::ParseError;
use lrnprof::parser::parse;

fn push_u32(v: &mut Vec<u8>, x: u32) {
    v.extend_from_slice(&x.to_le_bytes());
}

fn push_u64(v: &mut Vec<u8>, x: u64) {
    v.extend_from_slice(&x.to_le_bytes());
}

fn header(magic: u32, ncmds: u32, sizeofcmds: u32) -> Vec<u8> {
    let mut v = Vec::new();
    push_u32(&mut v, magic);
    push_u32(&mut v, 0x0100000c); // cpu type
    push_u32(&mut v, 0); // cpu subtype
    push_u32(&mut v, 2); // file type: executable
    push_u32(&mut v, ncmds);
    push_u32(&mut v, sizeofcmds);
    push_u32(&mut v, 0); // flags
    push_u32(&mut v, 0); // reserved
    v
}

#[test]
fn scenario_single_symtab_command() {
    // A 32-byte header with one declared command of 16 bytes, the
    // command a symbol-table kind padded out to the full 24-byte record.
    let mut v = header(0xfeedfacf, 1, 16);
    push_u32(&mut v, 2); // kind: symbol table
    push_u32(&mut v, 16); // declared size
    v.extend_from_slice(&[0u8; 16]); // symoff, nsyms, stroff, strsize

    let img = parse(&v).expect("well-formed image must parse");
    assert_eq!(img.load_commands.len(), 1);
    assert_eq!(img.load_commands[0].cmd, 2);
    assert_eq!(img.load_commands[0].cmdsize, 16);
    assert_eq!(img.load_commands[0].offset, 32);
    let st = img.symtab.expect("the symbol-table command must be found");
    assert_eq!(st.cmd, 2);
    assert_eq!(st.cmdsize, 16);
    assert_eq!(st.symbol_count, 0);
    assert_eq!(st.string_table_size, 0);
    assert!(img.symbols.is_empty());
    assert!(img.string_table.is_empty());
    assert!(img.counts_consistent());
}

#[test]
fn round_trip_two_commands() {
    // Two well-formed commands whose sizes sum exactly to sizeofcmds.
    let mut v = header(0xfeedfacf, 2, 40);
    push_u32(&mut v, 26);
    push_u32(&mut v, 16);
    v.extend_from_slice(&[0u8; 8]);
    push_u32(&mut v, 27);
    push_u32(&mut v, 24);
    v.extend_from_slice(&[0u8; 16]);

    let img = parse(&v).expect("well-formed image must parse");
    assert_eq!(img.load_commands.len(), 2);
    assert_eq!(img.load_commands[0].cmd, 26);
    assert_eq!(img.load_commands[0].cmdsize, 16);
    assert_eq!(img.load_commands[0].offset, 32);
    assert_eq!(img.load_commands[1].cmd, 27);
    assert_eq!(img.load_commands[1].cmdsize, 24);
    assert_eq!(img.load_commands[1].offset, 48);
    let total: u32 = img.load_commands.iter().map(|c| c.cmdsize).sum();
    assert_eq!(total, img.header.sizeofcmds);
    assert!(img.counts_consistent());
}

#[test]
fn swapped_magic_is_recognized() {
    let v = header(0xcffaedfe, 0, 0);
    let img = parse(&v).expect("swapped-order magic is a supported image");
    assert_eq!(img.header.magic, 0xcffaedfe);
    assert!(img.load_commands.is_empty());
    assert!(img.symtab.is_none());
}

#[test]
fn unrecognized_magic_is_unsupported_format() {
    let v = header(0x12345678, 1, 16);
    match parse(&v) {
        Err(ParseError::UnsupportedFormat { magic }) => assert_eq!(magic, 0x12345678),
        other => panic!("expected UnsupportedFormat, got {:?}", other),
    }
}

#[test]
fn zero_size_command_is_malformed() {
    let mut v = header(0xfeedfacf, 1, 16);
    push_u32(&mut v, 26);
    push_u32(&mut v, 0);
    v.extend_from_slice(&[0u8; 8]);
    match parse(&v) {
        Err(ParseError::MalformedCommand { offset, size }) => {
            assert_eq!(offset, 32);
            assert_eq!(size, 0);
        }
        other => panic!("expected MalformedCommand, got {:?}", other),
    }
}

#[test]
fn misaligned_size_command_is_malformed() {
    let mut v = header(0xfeedfacf, 1, 16);
    push_u32(&mut v, 26);
    push_u32(&mut v, 12); // not a multiple of the word alignment
    v.extend_from_slice(&[0u8; 8]);
    match parse(&v) {
        Err(ParseError::MalformedCommand { offset, size }) => {
            assert_eq!(offset, 32);
            assert_eq!(size, 12);
        }
        other => panic!("expected MalformedCommand, got {:?}", other),
    }
}

#[test]
fn oversized_command_is_malformed() {
    let mut v = header(0xfeedfacf, 1, 16);
    push_u32(&mut v, 26);
    push_u32(&mut v, 8192);
    v.extend_from_slice(&[0u8; 8]);
    match parse(&v) {
        Err(ParseError::MalformedCommand { size, .. }) => assert_eq!(size, 8192),
        other => panic!("expected MalformedCommand, got {:?}", other),
    }
}

#[test]
fn short_buffer_is_out_of_bounds() {
    let v = vec![0xcf, 0xfa, 0xed, 0xfe, 0, 0];
    match parse(&v) {
        Err(ParseError::OutOfBoundsRead { offset, length }) => {
            assert_eq!(offset, 0);
            assert_eq!(length, 32);
        }
        other => panic!("expected OutOfBoundsRead, got {:?}", other),
    }
}

#[test]
fn command_region_past_buffer_is_out_of_bounds() {
    // The header declares a command region the buffer does not hold.
    let v = header(0xfeedfacf, 1, 16);
    match parse(&v) {
        Err(ParseError::OutOfBoundsRead { offset, length }) => {
            assert_eq!(offset, 32);
            assert_eq!(length, 8);
        }
        other => panic!("expected OutOfBoundsRead, got {:?}", other),
    }
}

#[test]
fn early_stop_reads_fewer_commands_than_declared() {
    // Three commands declared, but the region only holds one: the walk
    // stops early without error and the count mismatch is visible.
    let mut v = header(0xfeedfacf, 3, 16);
    push_u32(&mut v, 26);
    push_u32(&mut v, 16);
    v.extend_from_slice(&[0u8; 8]);
    let img = parse(&v).expect("early stop is not an error");
    assert_eq!(img.load_commands.len(), 1);
    assert!(!img.counts_consistent());
}

#[test]
fn segment_command_name_stops_at_nul() {
    let mut v = header(0xfeedfacf, 1, 72);
    push_u32(&mut v, 25); // kind: 64-bit segment
    push_u32(&mut v, 72);
    let mut name = *b"__TEXT\0\0\0\0\0\0\0\0\0\0";
    name[7] = b'X'; // padding after the first NUL must be ignored
    v.extend_from_slice(&name);
    push_u64(&mut v, 0x100000000);
    push_u64(&mut v, 0x4000);
    push_u64(&mut v, 0);
    push_u64(&mut v, 0x4000);
    push_u32(&mut v, 7);
    push_u32(&mut v, 5);
    push_u32(&mut v, 2);
    push_u32(&mut v, 0);

    let img = parse(&v).expect("well-formed image must parse");
    assert_eq!(img.segments.len(), 1);
    let seg = &img.segments[0];
    assert_eq!(seg.segment_name, b"__TEXT".to_vec());
    assert_eq!(seg.virtual_address, 0x100000000);
    assert_eq!(seg.virtual_size, 0x4000);
    assert_eq!(seg.file_size, 0x4000);
    assert_eq!(seg.max_protection, 7);
    assert_eq!(seg.init_protection, 5);
    assert_eq!(seg.section_count, 2);
}

#[test]
fn symbols_are_read_and_unnamed_entries_skipped() {
    // Layout: header, one 24-byte symtab command, two 16-byte symbol
    // records, then the string table.
    let symoff: u32 = 32 + 24;
    let stroff: u32 = symoff + 2 * 16;
    let table = b"\0abc\0";
    let mut v = header(0xfeedfacf, 1, 24);
    push_u32(&mut v, 2);
    push_u32(&mut v, 24);
    push_u32(&mut v, symoff);
    push_u32(&mut v, 2); // two symbol records
    push_u32(&mut v, stroff);
    push_u32(&mut v, table.len() as u32);
    // record one: named
    push_u32(&mut v, 1);
    v.push(0x0f);
    v.push(1);
    v.extend_from_slice(&0u16.to_le_bytes());
    push_u64(&mut v, 0x1000);
    // record two: name offset zero, must be skipped
    push_u32(&mut v, 0);
    v.push(0x0e);
    v.push(2);
    v.extend_from_slice(&0u16.to_le_bytes());
    push_u64(&mut v, 0x2000);
    v.extend_from_slice(table);

    let img = parse(&v).expect("well-formed image must parse");
    assert_eq!(img.symbols.len(), 1);
    assert_eq!(img.symbols[0].name_offset, 1);
    assert_eq!(img.symbols[0].type_byte, 0x0f);
    assert_eq!(img.symbols[0].section_index, 1);
    assert_eq!(img.symbols[0].value, 0x1000);
    assert_eq!(img.string_table, table.to_vec());
}

#[test]
fn symbol_table_past_buffer_is_out_of_bounds() {
    let mut v = header(0xfeedfacf, 1, 24);
    push_u32(&mut v, 2);
    push_u32(&mut v, 24);
    push_u32(&mut v, 56); // symbol records would start past what the buffer holds
    push_u32(&mut v, 1000);
    push_u32(&mut v, 0);
    push_u32(&mut v, 0);
    match parse(&v) {
        Err(ParseError::OutOfBoundsRead { offset, length }) => {
            assert_eq!(offset, 56);
            assert_eq!(length, 16000);
        }
        other => panic!("expected OutOfBoundsRead, got {:?}", other),
    }
}
