use lrnprof::image::SymbolEntry;
use lrnprof::symbolicate::{resolve, resolve_address, SymbolResolution};

fn entry(name_offset: u32, value: u64) -> SymbolEntry {
    SymbolEntry {
        name_offset,
        type_byte: 0x0f,
        section_index: 1,
        description: 0,
        value,
    }
}

#[test]
fn exact_match_extracts_name_up_to_nul() {
    let symbols = vec![entry(1, 0x1000)];
    let table = b"\0foo_sym\0junk".to_vec();
    match resolve_address(&symbols, &table, 0x1000) {
        SymbolResolution::Resolved(r) => {
            assert_eq!(r.address, 0x1000);
            assert_eq!(r.name, "foo_sym");
        }
        SymbolResolution::Unresolved { .. } => panic!("an exact match must resolve"),
    }
}

#[test]
fn unmatched_address_is_reported_unresolved() {
    let symbols = vec![entry(1, 0x1000)];
    let table = b"\0foo_sym\0".to_vec();
    match resolve_address(&symbols, &table, 0x2000) {
        SymbolResolution::Unresolved { address } => assert_eq!(address, 0x2000),
        SymbolResolution::Resolved(_) => panic!("no entry matches this address"),
    }
}

#[test]
fn first_matching_entry_wins() {
    let symbols = vec![entry(1, 0x40), entry(7, 0x40)];
    let table = b"\0first\0second\0".to_vec();
    match resolve_address(&symbols, &table, 0x40) {
        SymbolResolution::Resolved(r) => assert_eq!(r.name, "first"),
        SymbolResolution::Unresolved { .. } => panic!("an exact match must resolve"),
    }
}

#[test]
fn mangled_name_is_demangled() {
    let symbols = vec![entry(1, 0x40)];
    let table = b"\0_ZN3foo3barEv\0".to_vec();
    match resolve_address(&symbols, &table, 0x40) {
        SymbolResolution::Resolved(r) => {
            assert_eq!(r.name, "_ZN3foo3barEv");
            assert_eq!(r.demangled_name.as_deref(), Some("foo::bar"));
        }
        SymbolResolution::Unresolved { .. } => panic!("an exact match must resolve"),
    }
}

#[test]
fn plain_name_gets_no_demangled_form() {
    let symbols = vec![entry(1, 0x40)];
    let table = b"\0main\0".to_vec();
    match resolve_address(&symbols, &table, 0x40) {
        SymbolResolution::Resolved(r) => {
            assert_eq!(r.name, "main");
            assert!(r.demangled_name.is_none());
        }
        SymbolResolution::Unresolved { .. } => panic!("an exact match must resolve"),
    }
}

#[test]
fn whole_backtrace_resolves_in_order_nothing_dropped() {
    let symbols = vec![entry(1, 0x10), entry(5, 0x20)];
    let table = b"\0one\0two\0".to_vec();
    let addresses = vec![0x20, 0x9999, 0x10];
    let out = resolve(&addresses, &symbols, &table);
    assert_eq!(out.len(), 3);
    match &out[0] {
        SymbolResolution::Resolved(r) => assert_eq!(r.name, "two"),
        _ => panic!("0x20 must resolve"),
    }
    match &out[1] {
        SymbolResolution::Unresolved { address } => assert_eq!(*address, 0x9999),
        _ => panic!("0x9999 must stay unresolved"),
    }
    match &out[2] {
        SymbolResolution::Resolved(r) => assert_eq!(r.name, "one"),
        _ => panic!("0x10 must resolve"),
    }
}

#[test]
fn name_offset_past_table_gives_empty_name() {
    let symbols = vec![entry(99, 0x10)];
    let table = b"\0one\0".to_vec();
    match resolve_address(&symbols, &table, 0x10) {
        SymbolResolution::Resolved(r) => assert_eq!(r.name, ""),
        SymbolResolution::Unresolved { .. } => panic!("an exact match must resolve"),
    }
}
