//! Symbolicator: matches unwound backtrace addresses against the
//! image's symbol entries, extracts names from the string table, and
//! attaches a best-effort demangled form.
//!
//! Matching is by exact address: an address equal to some entry's
//! `value` resolves to that entry's name; every other address is
//! reported as unresolved in place, never dropped, so the caller sees
//! which frames were symbolicated and which were not.
//!
//! The demangler is built with its Rust, C++ and MSVC manglings, all
//! pure Rust. Its Swift mangling is deliberately left out: that
//! feature compiles a C++ demangler, which not every host can build,
//! and a Swift-mangled name is then reported raw rather than
//! demangled. Objective-C detection does not depend on it.
use vstd::prelude::*;

use symbolic_demangle::Demangle;

use crate::image::SymbolEntry;
use crate::image::name_bytes_at;
use crate::image::spec_name_at;
use crate::image::spec_name_len;

verus! {

/// Whether a symbol name matches a mangling convention that the
/// demangler recognizes. Named result of an outside call; see
/// `detect_mangling`.
pub uninterp spec fn mangling_known(name: Seq<char>) -> bool;

/// The demangled, name-only form of a symbol name. Named result of an
/// outside call; see `demangle_name`.
pub uninterp spec fn demangled_of(name: Seq<char>) -> Seq<char>;

/// Relies on symbolic_demangle's `Demangle::detect_language`, applied
/// to a name built with `Name::from`: whether the string matches a
/// known mangling convention. With the demangler's feature set fixed at
/// build time, the result is a function of the characters alone.
#[verifier::external_body]
fn detect_mangling(name: &str) -> (r: bool)
    ensures
        r == mangling_known(name@),
{
    match symbolic_common::Name::from(name).detect_language() {
        symbolic_common::Language::Unknown => false,
        _ => true,
    }
}

/// Relies on symbolic_demangle's `Demangle::try_demangle` with
/// name-only options, applied to a name built with `Name::from`: the
/// demangled form, a function of the characters alone; per its
/// documentation it falls back to the original name when no mangling is
/// detected.
#[verifier::external_body]
fn demangle_name(name: &str) -> (r: String)
    ensures
        r@ == demangled_of(name@),
        !mangling_known(name@) ==> r@ == name@,
{
    symbolic_common::Name::from(name)
        .try_demangle(symbolic_demangle::DemangleOptions::name_only())
        .to_string()
}

/// Relies on `String::push` from std: appends one character.
#[verifier::external_body]
fn push_char(s: &mut String, c: char)
    ensures
        final(s)@ == old(s)@.push(c),
{
    s.push(c);
}

/// The characters of a raw byte string, each byte as the character with
/// the same code point.
pub open spec fn spec_bytes_as_chars(s: Seq<u8>) -> Seq<char> {
    s.map_values(|b: u8| b as char)
}

/// Builds the string of a raw byte name, byte for byte.
fn bytes_to_string(bytes: &Vec<u8>) -> (r: String)
    ensures
        r@ == spec_bytes_as_chars(bytes@),
{
    let mut s = String::new();
    let mut i: usize = 0;
    while i < bytes.len()
        invariant
            i <= bytes@.len(),
            s@ == spec_bytes_as_chars(bytes@.take(i as int)),
        decreases bytes@.len() - i,
    {
        let b = bytes[i];
        push_char(&mut s, b as char);
        proof {
            assert(spec_bytes_as_chars(bytes@.take(i + 1)) =~= spec_bytes_as_chars(
                bytes@.take(i as int),
            ).push(b as char));
        }
        i = i + 1;
    }
    proof {
        assert(bytes@.take(bytes@.len() as int) =~= bytes@);
    }
    s
}

/// Index of the first symbol entry whose value equals `addr`.
pub open spec fn spec_find_index(symbols: Seq<SymbolEntry>, addr: u64) -> Option<int>
    decreases symbols.len(),
{
    if symbols.len() == 0 {
        None
    } else if symbols[0].value == addr {
        Some(0)
    } else {
        match spec_find_index(symbols.drop_first(), addr) {
            Some(i) => Some(i + 1),
            None => None,
        }
    }
}

/// `spec_find_index` finds the first exact match: `None` exactly when
/// no entry's value equals the address, and `Some(i)` names the first
/// entry whose value does.
pub proof fn lemma_find_index(symbols: Seq<SymbolEntry>, addr: u64)
    ensures
        match spec_find_index(symbols, addr) {
            None => forall|i: int|
                0 <= i < symbols.len() ==> (#[trigger] symbols[i]).value != addr,
            Some(i) => 0 <= i < symbols.len() && symbols[i].value == addr && forall|j: int|
                0 <= j < i ==> (#[trigger] symbols[j]).value != addr,
        },
    decreases symbols.len(),
{
    if symbols.len() > 0 && symbols[0].value != addr {
        lemma_find_index(symbols.drop_first(), addr);
        assert forall|i: int|
            0 <= i < symbols.len() && spec_find_index(symbols, addr) is None implies (
        #[trigger] symbols[i]).value != addr by {
            if i > 0 {
                assert(symbols.drop_first()[i - 1] == symbols[i]);
            }
        }
        match spec_find_index(symbols.drop_first(), addr) {
            Some(k) => {
                assert forall|j: int| 0 <= j < k + 1 implies (#[trigger] symbols[j]).value
                    != addr by {
                    if j > 0 {
                        assert(symbols.drop_first()[j - 1] == symbols[j]);
                    }
                }
            },
            None => {},
        }
    }
}

/// Finds the first symbol entry whose value equals `addr` exactly.
pub fn find_symbol(symbols: &Vec<SymbolEntry>, addr: u64) -> (r: Option<SymbolEntry>)
    ensures
        match spec_find_index(symbols@, addr) {
            Some(i) => r == Some(symbols@[i]),
            None => r is None,
        },
{
    let mut i: usize = 0;
    while i < symbols.len()
        invariant
            i <= symbols@.len(),
            forall|j: int| 0 <= j < i ==> (#[trigger] symbols@[j]).value != addr,
        decreases symbols@.len() - i,
    {
        if symbols[i].value == addr {
            proof {
                lemma_find_index(symbols@, addr);
                match spec_find_index(symbols@, addr) {
                    Some(k) => {
                        assert(!(k < i) && !(i < k));
                    },
                    None => {},
                }
            }
            return Some(symbols[i]);
        }
        i = i + 1;
    }
    proof {
        lemma_find_index(symbols@, addr);
        match spec_find_index(symbols@, addr) {
            Some(k) => {
                assert(symbols@[k].value == addr);
            },
            None => {},
        }
    }
    None
}

/// One backtrace address matched against a symbol entry: the raw name
/// from the string table and, when the name matches a known mangling
/// convention, its demangled form.
pub struct ResolvedSymbol {
    pub address: u64,
    pub name: String,
    pub demangled_name: Option<String>,
}

/// The outcome for one backtrace address: a resolved symbol, or the
/// address reported back as unresolved.
pub enum SymbolResolution {
    Resolved(ResolvedSymbol),
    Unresolved { address: u64 },
}

/// Abstract value of one resolution.
pub enum ResolutionModel {
    Resolved { address: u64, name: Seq<char>, demangled: Option<Seq<char>> },
    Unresolved { address: u64 },
}

impl View for SymbolResolution {
    type V = ResolutionModel;

    open spec fn view(&self) -> ResolutionModel {
        match self {
            SymbolResolution::Resolved(r) => ResolutionModel::Resolved {
                address: r.address,
                name: r.name@,
                demangled: match r.demangled_name {
                    Some(d) => Some(d@),
                    None => None,
                },
            },
            SymbolResolution::Unresolved { address } => ResolutionModel::Unresolved {
                address: *address,
            },
        }
    }
}

/// What resolving one address yields: the first entry with exactly that
/// value, its name read from the string table up to the first NUL and
/// demangled when a mangling is detected; or `Unresolved` when no entry
/// matches.
pub open spec fn spec_resolve_one(
    symbols: Seq<SymbolEntry>,
    table: Seq<u8>,
    addr: u64,
) -> ResolutionModel {
    match spec_find_index(symbols, addr) {
        None => ResolutionModel::Unresolved { address: addr },
        Some(i) => {
            let name = spec_bytes_as_chars(spec_name_at(table, symbols[i].name_offset as int));
            ResolutionModel::Resolved {
                address: addr,
                name,
                demangled: if mangling_known(name) {
                    Some(demangled_of(name))
                } else {
                    None
                },
            }
        },
    }
}

/// Resolves one backtrace address against the symbol entries and the
/// string table.
pub fn resolve_address(symbols: &Vec<SymbolEntry>, table: &Vec<u8>, addr: u64) -> (r:
    SymbolResolution)
    ensures
        r@ == spec_resolve_one(symbols@, table@, addr),
{
    let entry = match find_symbol(symbols, addr) {
        Some(e) => e,
        None => {
            return SymbolResolution::Unresolved { address: addr };
        },
    };
    let name_bytes = name_bytes_at(table, entry.name_offset as usize);
    let name = bytes_to_string(&name_bytes);
    let demangled_name = if detect_mangling(name.as_str()) {
        Some(demangle_name(name.as_str()))
    } else {
        None
    };
    SymbolResolution::Resolved(ResolvedSymbol { address: addr, name, demangled_name })
}

/// Resolves a whole backtrace: one outcome per address, in backtrace
/// order, unresolved addresses reported in place.
pub fn resolve(addresses: &Vec<u64>, symbols: &Vec<SymbolEntry>, table: &Vec<u8>) -> (r: Vec<
    SymbolResolution,
>)
    ensures
        r@.len() == addresses@.len(),
        forall|i: int|
            0 <= i < addresses@.len() ==> (#[trigger] r@[i])@ == spec_resolve_one(
                symbols@,
                table@,
                addresses@[i],
            ),
{
    let mut out: Vec<SymbolResolution> = Vec::new();
    let mut i: usize = 0;
    while i < addresses.len()
        invariant
            i <= addresses@.len(),
            out@.len() == i,
            forall|j: int|
                0 <= j < i ==> (#[trigger] out@[j])@ == spec_resolve_one(
                    symbols@,
                    table@,
                    addresses@[j],
                ),
        decreases addresses@.len() - i,
    {
        out.push(resolve_address(symbols, table, addresses[i]));
        i = i + 1;
    }
    out
}

/// Law (exact-match symbolication): resolving an address yields
/// `Resolved` exactly when some entry's value equals it; the resolved
/// name is the string-table name of the first such entry, and an
/// address with no matching entry comes back as `Unresolved` carrying
/// that address.
pub proof fn lemma_resolution_exact_match(symbols: Seq<SymbolEntry>, table: Seq<u8>, addr: u64)
    ensures
        (spec_resolve_one(symbols, table, addr) is Resolved) <==> exists|i: int|
            0 <= i < symbols.len() && (#[trigger] symbols[i]).value == addr,
        match spec_resolve_one(symbols, table, addr) {
            ResolutionModel::Unresolved { address } => address == addr,
            ResolutionModel::Resolved { address, name, demangled } => {
                &&& address == addr
                &&& exists|i: int|
                    {
                        &&& 0 <= i < symbols.len()
                        &&& (#[trigger] symbols[i]).value == addr
                        &&& (forall|j: int|
                            0 <= j < i ==> (#[trigger] symbols[j]).value != addr)
                        &&& name == spec_bytes_as_chars(
                            spec_name_at(table, symbols[i].name_offset as int),
                        )
                    }
                &&& demangled == if mangling_known(name) {
                    Some(demangled_of(name))
                } else {
                    None::<Seq<char>>
                }
            },
        },
        match spec_resolve_one(symbols, table, addr) {
            ResolutionModel::Resolved { name, .. } => forall|j: int|
                0 <= j < name.len() ==> name[j] != '\0',
            ResolutionModel::Unresolved { .. } => true,
        },
{
    lemma_find_index(symbols, addr);
    match spec_find_index(symbols, addr) {
        None => {},
        Some(i) => {
            let off = symbols[i].name_offset as int;
            if 0 <= off <= table.len() {
                let s = table.skip(off);
                crate::image::lemma_name_len(s);
                let name = spec_bytes_as_chars(spec_name_at(table, off));
                assert forall|j: int| 0 <= j < name.len() implies name[j] != '\0' by {
                    assert(s[j] != 0);
                    assert(name[j] == s.take(spec_name_len(s) as int)[j] as char);
                }
            }
        },
    }
}

} // verus!
