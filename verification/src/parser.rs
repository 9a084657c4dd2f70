//! Binary parser: decodes the target's executable image — object
//! header, load-command table, segment commands, symbol-table command,
//! symbol entries and string table — from a byte buffer.
//!
//! Adversarial input is the norm here: a malformed or stripped binary
//! must be reported, never crash the profiler. Every offset is
//! range-checked before use, so what would be an out-of-bounds access
//! becomes a typed error.
use vstd::prelude::*;

use vstd::arithmetic::div_mod::lemma_add_mod_noop;
use vstd::slice::slice_subrange;
use vstd::slice::slice_to_vec;

use crate::errors::ParseError;
use crate::image::COMMAND_PREFIX_SIZE;
use crate::image::HEADER_SIZE;
use crate::image::ImageModel;
use crate::image::LC_SEGMENT_64;
use crate::image::LC_SYMTAB;
use crate::image::LoadCommand;
use crate::image::MAX_COMMAND_SIZE;
use crate::image::MachHeader64;
use crate::image::ParsedImage;
use crate::image::SEGMENT_COMMAND_SIZE;
use crate::image::SYMBOL_ENTRY_SIZE;
use crate::image::SYMTAB_COMMAND_SIZE;
use crate::image::SegmentCommand64;
use crate::image::SegmentModel;
use crate::image::SymbolEntry;
use crate::image::SymtabCommand;
use crate::image::WORD_ALIGN;
use crate::image::name_bytes_at;
use crate::image::spec_header_at;
use crate::image::spec_magic_recognized;
use crate::image::spec_segment_at;
use crate::image::spec_segments_view;
use crate::image::spec_symbol_at;
use crate::image::spec_symtab_at;
use crate::image::u16_at;
use crate::image::u32_at;
use crate::image::u64_at;

verus! {

// --- header ----------------------------------------------------------------

/// What parsing the header returns: the header record if the buffer
/// holds one and its magic is recognized, else the typed error.
pub open spec fn spec_parse_header(bytes: Seq<u8>) -> Result<MachHeader64, ParseError> {
    if bytes.len() < HEADER_SIZE {
        Err(ParseError::OutOfBoundsRead { offset: 0, length: HEADER_SIZE as u64 })
    } else {
        let h = spec_header_at(bytes);
        if !spec_magic_recognized(h.magic) {
            Err(ParseError::UnsupportedFormat { magic: h.magic })
        } else {
            Ok(h)
        }
    }
}

/// Decodes the object header from the start of the buffer. An
/// unrecognized magic is `UnsupportedFormat` — a recoverable condition
/// ("not a supported binary"), and nothing past the header is read.
pub fn parse_header(bytes: &Vec<u8>) -> (r: Result<MachHeader64, ParseError>)
    ensures
        r == spec_parse_header(bytes@),
{
    let n: usize = bytes.len();
    if n < HEADER_SIZE {
        return Err(ParseError::OutOfBoundsRead { offset: 0, length: HEADER_SIZE as u64 });
    }
    let h = MachHeader64 {
        magic: u32_at(bytes, 0),
        cpu_type: u32_at(bytes, 4),
        cpu_subtype: u32_at(bytes, 8),
        file_type: u32_at(bytes, 12),
        ncmds: u32_at(bytes, 16),
        sizeofcmds: u32_at(bytes, 20),
        flags: u32_at(bytes, 24),
        reserved: u32_at(bytes, 28),
    };
    if h.magic == crate::image::MAGIC_64 || h.magic == crate::image::MAGIC_64_SWAPPED {
        Ok(h)
    } else {
        Err(ParseError::UnsupportedFormat { magic: h.magic })
    }
}

// --- load-command walk -------------------------------------------------

/// What walking the load-command region returns, starting at `off` with
/// `remaining` declared commands left, the region ending at `end`.
///
/// The walk stops cleanly when all declared commands were read or the
/// region is exhausted; it also stops early, without error, when the
/// next command would run past the region's declared end — the caller
/// compares how many commands were read against the declared count. A
/// command with an impossible size, or at a misaligned offset, is
/// `MalformedCommand`; one whose fixed prefix runs past the buffer is
/// `OutOfBoundsRead`.
pub open spec fn spec_walk_commands(bytes: Seq<u8>, off: int, end: int, remaining: nat) -> Result<
    Seq<LoadCommand>,
    ParseError,
>
    decreases remaining,
{
    if remaining == 0 || off >= end {
        Ok(Seq::empty())
    } else if off % (WORD_ALIGN as int) != 0 {
        Err(ParseError::MalformedCommand { offset: off as u64, size: 0 })
    } else if off + COMMAND_PREFIX_SIZE > bytes.len() {
        Err(ParseError::OutOfBoundsRead { offset: off as u64, length: COMMAND_PREFIX_SIZE as u64 })
    } else {
        let kind = crate::image::spec_u32_at(bytes, off);
        let size = crate::image::spec_u32_at(bytes, off + 4);
        if size < COMMAND_PREFIX_SIZE || size % WORD_ALIGN != 0 || size > MAX_COMMAND_SIZE {
            Err(ParseError::MalformedCommand { offset: off as u64, size })
        } else if off + size > end {
            Ok(Seq::empty())
        } else {
            match spec_walk_commands(bytes, off + size, end, (remaining - 1) as nat) {
                Ok(rest) => Ok(
                    seq![LoadCommand { cmd: kind, cmdsize: size, offset: off as u64 }] + rest,
                ),
                Err(e) => Err(e),
            }
        }
    }
}

/// Walks the load-command region that follows the header: up to
/// `ncmds` commands within the `sizeofcmds` bytes the header declared.
pub fn walk_commands(bytes: &Vec<u8>, ncmds: u32, sizeofcmds: u32) -> (r: Result<
    Vec<LoadCommand>,
    ParseError,
>)
    ensures
        match r {
            Ok(cmds) => spec_walk_commands(
                bytes@,
                HEADER_SIZE as int,
                HEADER_SIZE + sizeofcmds,
                ncmds as nat,
            ) == Ok::<Seq<LoadCommand>, ParseError>(cmds@),
            Err(e) => spec_walk_commands(
                bytes@,
                HEADER_SIZE as int,
                HEADER_SIZE + sizeofcmds,
                ncmds as nat,
            ) == Err::<Seq<LoadCommand>, ParseError>(e),
        },
{
    let n: usize = bytes.len();
    let end: u64 = (HEADER_SIZE as u64) + (sizeofcmds as u64);
    let ghost end_i: int = HEADER_SIZE + sizeofcmds;
    let mut acc: Vec<LoadCommand> = Vec::new();
    let mut off: u64 = HEADER_SIZE as u64;
    let mut remaining: u32 = ncmds;
    while remaining > 0 && off < end
        invariant
            n == bytes@.len(),
            end == end_i,
            end_i == HEADER_SIZE + sizeofcmds,
            off <= end,
            match spec_walk_commands(bytes@, off as int, end_i, remaining as nat) {
                Ok(rest) => spec_walk_commands(bytes@, HEADER_SIZE as int, end_i, ncmds as nat)
                    == Ok::<Seq<LoadCommand>, ParseError>(acc@ + rest),
                Err(e) => spec_walk_commands(bytes@, HEADER_SIZE as int, end_i, ncmds as nat)
                    == Err::<Seq<LoadCommand>, ParseError>(e),
            },
        decreases remaining,
    {
        if off % (WORD_ALIGN as u64) != 0 {
            return Err(ParseError::MalformedCommand { offset: off, size: 0 });
        }
        if off + (COMMAND_PREFIX_SIZE as u64) > n as u64 {
            return Err(
                ParseError::OutOfBoundsRead { offset: off, length: COMMAND_PREFIX_SIZE as u64 },
            );
        }
        let off_us = off as usize;
        let kind = u32_at(bytes, off_us);
        let size = u32_at(bytes, off_us + 4);
        if size < COMMAND_PREFIX_SIZE || size % WORD_ALIGN != 0 || size > MAX_COMMAND_SIZE {
            return Err(ParseError::MalformedCommand { offset: off, size });
        }
        if off + (size as u64) > end {
            proof {
                assert(acc@ + Seq::<LoadCommand>::empty() =~= acc@);
            }
            return Ok(acc);
        }
        let cmd = LoadCommand { cmd: kind, cmdsize: size, offset: off };
        proof {
            let rest_spec = spec_walk_commands(
                bytes@,
                off + size,
                end_i,
                (remaining - 1) as nat,
            );
            if rest_spec is Ok {
                assert(acc@ + (seq![cmd] + rest_spec->Ok_0) =~= (acc@.push(cmd))
                    + rest_spec->Ok_0);
            }
        }
        acc.push(cmd);
        off = off + (size as u64);
        remaining = remaining - 1;
    }
    proof {
        assert(acc@ + Seq::<LoadCommand>::empty() =~= acc@);
    }
    Ok(acc)
}

// --- records referenced by commands ----------------------------------

/// What decoding a symbol-table command at `off` returns: the record,
/// unless its 24 bytes run past the buffer.
pub open spec fn spec_parse_symtab(bytes: Seq<u8>, off: int) -> Result<SymtabCommand, ParseError> {
    if off + SYMTAB_COMMAND_SIZE > bytes.len() {
        Err(ParseError::OutOfBoundsRead { offset: off as u64, length: SYMTAB_COMMAND_SIZE as u64 })
    } else {
        Ok(spec_symtab_at(bytes, off))
    }
}

/// Decodes the symbol-table command at `offset`.
pub fn parse_symtab_command(bytes: &Vec<u8>, offset: u64) -> (r: Result<SymtabCommand, ParseError>)
    ensures
        r == spec_parse_symtab(bytes@, offset as int),
{
    let n: usize = bytes.len();
    if offset > n as u64 || (n as u64) - offset < SYMTAB_COMMAND_SIZE as u64 {
        return Err(
            ParseError::OutOfBoundsRead { offset, length: SYMTAB_COMMAND_SIZE as u64 },
        );
    }
    let off: usize = offset as usize;
    Ok(
        SymtabCommand {
            cmd: u32_at(bytes, off),
            cmdsize: u32_at(bytes, off + 4),
            symbol_table_offset: u32_at(bytes, off + 8),
            symbol_count: u32_at(bytes, off + 12),
            string_table_offset: u32_at(bytes, off + 16),
            string_table_size: u32_at(bytes, off + 20),
        },
    )
}

/// What decoding a 64-bit segment command at `off` returns: the record,
/// unless its 72 bytes run past the buffer.
pub open spec fn spec_parse_segment(bytes: Seq<u8>, off: int) -> Result<SegmentModel, ParseError> {
    if off + SEGMENT_COMMAND_SIZE > bytes.len() {
        Err(
            ParseError::OutOfBoundsRead { offset: off as u64, length: SEGMENT_COMMAND_SIZE as u64 },
        )
    } else {
        Ok(spec_segment_at(bytes, off))
    }
}

/// Decodes the 64-bit segment command at `offset`; the fixed-width
/// segment name is taken up to its first NUL.
pub fn parse_segment_command(bytes: &Vec<u8>, offset: u64) -> (r: Result<
    SegmentCommand64,
    ParseError,
>)
    ensures
        match r {
            Ok(seg) => spec_parse_segment(bytes@, offset as int) == Ok::<
                SegmentModel,
                ParseError,
            >(seg@),
            Err(e) => spec_parse_segment(bytes@, offset as int) == Err::<
                SegmentModel,
                ParseError,
            >(e),
        },
{
    let n: usize = bytes.len();
    if offset > n as u64 || (n as u64) - offset < SEGMENT_COMMAND_SIZE as u64 {
        return Err(
            ParseError::OutOfBoundsRead { offset, length: SEGMENT_COMMAND_SIZE as u64 },
        );
    }
    let off: usize = offset as usize;
    let name_field = slice_to_vec(slice_subrange(bytes.as_slice(), off + 8, off + 24));
    let segment_name = name_bytes_at(&name_field, 0);
    proof {
        assert(name_field@.skip(0) =~= name_field@);
    }
    Ok(
        SegmentCommand64 {
            cmd: u32_at(bytes, off),
            cmdsize: u32_at(bytes, off + 4),
            segment_name,
            virtual_address: u64_at(bytes, off + 24),
            virtual_size: u64_at(bytes, off + 32),
            file_offset: u64_at(bytes, off + 40),
            file_size: u64_at(bytes, off + 48),
            max_protection: u32_at(bytes, off + 56),
            init_protection: u32_at(bytes, off + 60),
            section_count: u32_at(bytes, off + 64),
            flags: u32_at(bytes, off + 68),
        },
    )
}

// --- symbol entries and string table -----------------------------------

/// The named symbol entries among `count` fixed-size records starting
/// at `off`: entries whose name offset is zero are skipped, the rest
/// kept in on-disk order.
pub open spec fn spec_symbols(bytes: Seq<u8>, off: int, count: nat) -> Seq<SymbolEntry>
    decreases count,
{
    if count == 0 {
        Seq::empty()
    } else {
        let e = spec_symbol_at(bytes, off);
        let rest = spec_symbols(bytes, off + SYMBOL_ENTRY_SIZE, (count - 1) as nat);
        if e.name_offset == 0 {
            rest
        } else {
            seq![e] + rest
        }
    }
}

/// What reading the symbol table of `st` returns: the named entries,
/// unless the declared records run past the buffer.
pub open spec fn spec_parse_symbols(bytes: Seq<u8>, st: SymtabCommand) -> Result<
    Seq<SymbolEntry>,
    ParseError,
> {
    if st.symbol_table_offset + st.symbol_count * SYMBOL_ENTRY_SIZE > bytes.len() {
        Err(
            ParseError::OutOfBoundsRead {
                offset: st.symbol_table_offset as u64,
                length: (st.symbol_count * SYMBOL_ENTRY_SIZE) as u64,
            },
        )
    } else {
        Ok(spec_symbols(bytes, st.symbol_table_offset as int, st.symbol_count as nat))
    }
}

/// Reads the symbol table that `st` declares, skipping (not erroring
/// on) records without a name. The declared record range is validated
/// against the buffer before anything is read.
pub fn parse_symbols(bytes: &Vec<u8>, st: &SymtabCommand) -> (r: Result<
    Vec<SymbolEntry>,
    ParseError,
>)
    ensures
        match r {
            Ok(syms) => spec_parse_symbols(bytes@, *st) == Ok::<Seq<SymbolEntry>, ParseError>(
                syms@,
            ),
            Err(e) => spec_parse_symbols(bytes@, *st) == Err::<Seq<SymbolEntry>, ParseError>(e),
        },
{
    let n: usize = bytes.len();
    let symoff = st.symbol_table_offset;
    let count = st.symbol_count;
    let span: u64 = (count as u64) * (SYMBOL_ENTRY_SIZE as u64);
    if (symoff as u64) > n as u64 || span > (n as u64) - (symoff as u64) {
        return Err(
            ParseError::OutOfBoundsRead { offset: symoff as u64, length: span },
        );
    }
    let mut out: Vec<SymbolEntry> = Vec::new();
    let mut i: u32 = 0;
    while i < count
        invariant
            n == bytes@.len(),
            i <= count,
            symoff + count * SYMBOL_ENTRY_SIZE <= n,
            spec_symbols(bytes@, symoff as int, count as nat) == out@ + spec_symbols(
                bytes@,
                symoff + i * SYMBOL_ENTRY_SIZE,
                (count - i) as nat,
            ),
        decreases count - i,
    {
        proof {
            assert(i * SYMBOL_ENTRY_SIZE + SYMBOL_ENTRY_SIZE <= count * SYMBOL_ENTRY_SIZE)
                by (nonlinear_arith)
                requires
                    i < count,
                    0 < SYMBOL_ENTRY_SIZE,
            ;
        }
        let off: usize = (symoff as usize) + (i as usize) * SYMBOL_ENTRY_SIZE;
        let entry = SymbolEntry {
            name_offset: u32_at(bytes, off),
            type_byte: *vstd::slice::slice_index_get(bytes.as_slice(), off + 4),
            section_index: *vstd::slice::slice_index_get(bytes.as_slice(), off + 5),
            description: u16_at(bytes, off + 6),
            value: u64_at(bytes, off + 8),
        };
        proof {
            let suffix = spec_symbols(
                bytes@,
                symoff + (i + 1) * SYMBOL_ENTRY_SIZE,
                (count - i - 1) as nat,
            );
            assert(symoff + i * SYMBOL_ENTRY_SIZE + SYMBOL_ENTRY_SIZE == symoff + (i + 1)
                * SYMBOL_ENTRY_SIZE);
            assert(out@ + (seq![entry] + suffix) =~= (out@.push(entry)) + suffix);
        }
        if entry.name_offset != 0 {
            out.push(entry);
        }
        i = i + 1;
    }
    proof {
        assert(out@ + Seq::<SymbolEntry>::empty() =~= out@);
    }
    Ok(out)
}

/// What extracting the string table of `st` returns: its raw bytes,
/// unless the declared range runs past the buffer.
pub open spec fn spec_string_table(bytes: Seq<u8>, st: SymtabCommand) -> Result<
    Seq<u8>,
    ParseError,
> {
    if st.string_table_offset + st.string_table_size > bytes.len() {
        Err(
            ParseError::OutOfBoundsRead {
                offset: st.string_table_offset as u64,
                length: st.string_table_size as u64,
            },
        )
    } else {
        Ok(
            bytes.subrange(
                st.string_table_offset as int,
                st.string_table_offset + st.string_table_size,
            ),
        )
    }
}

/// Copies out the string table that `st` declares, after validating its
/// range against the buffer.
pub fn parse_string_table(bytes: &Vec<u8>, st: &SymtabCommand) -> (r: Result<Vec<u8>, ParseError>)
    ensures
        match r {
            Ok(tab) => spec_string_table(bytes@, *st) == Ok::<Seq<u8>, ParseError>(tab@),
            Err(e) => spec_string_table(bytes@, *st) == Err::<Seq<u8>, ParseError>(e),
        },
{
    let n: usize = bytes.len();
    let stroff = st.string_table_offset;
    let strsize = st.string_table_size;
    if (stroff as u64) > n as u64 || (strsize as u64) > (n as u64) - (stroff as u64) {
        return Err(
            ParseError::OutOfBoundsRead { offset: stroff as u64, length: strsize as u64 },
        );
    }
    Ok(
        slice_to_vec(
            slice_subrange(bytes.as_slice(), stroff as usize, stroff as usize + strsize as usize),
        ),
    )
}

// --- whole-image parse ----------------------------------------------------

/// Folds the decoded load commands into segments and the first
/// symbol-table command: a segment command is decoded and appended, the
/// first symbol-table command is decoded and kept, any later one is
/// ignored, and every other kind is skipped.
pub open spec fn spec_decode_commands(
    bytes: Seq<u8>,
    cmds: Seq<LoadCommand>,
    segments: Seq<SegmentModel>,
    symtab: Option<SymtabCommand>,
) -> Result<(Seq<SegmentModel>, Option<SymtabCommand>), ParseError>
    decreases cmds.len(),
{
    if cmds.len() == 0 {
        Ok((segments, symtab))
    } else {
        let c = cmds[0];
        let rest = cmds.drop_first();
        if c.cmd == LC_SYMTAB && symtab is None {
            match spec_parse_symtab(bytes, c.offset as int) {
                Ok(st) => spec_decode_commands(bytes, rest, segments, Some(st)),
                Err(e) => Err(e),
            }
        } else if c.cmd == LC_SEGMENT_64 {
            match spec_parse_segment(bytes, c.offset as int) {
                Ok(sm) => spec_decode_commands(bytes, rest, segments.push(sm), symtab),
                Err(e) => Err(e),
            }
        } else {
            spec_decode_commands(bytes, rest, segments, symtab)
        }
    }
}

/// What parsing a whole image returns, composed from the stage
/// specifications: header, load-command walk, per-command decoding,
/// then — if a symbol-table command was found — the symbol entries and
/// the string table. Without one, the image parses to an empty symbol
/// set: "no symbols available", not an error.
pub open spec fn spec_parse(bytes: Seq<u8>) -> Result<ImageModel, ParseError> {
    match spec_parse_header(bytes) {
        Err(e) => Err(e),
        Ok(h) => match spec_walk_commands(
            bytes,
            HEADER_SIZE as int,
            HEADER_SIZE + h.sizeofcmds,
            h.ncmds as nat,
        ) {
            Err(e) => Err(e),
            Ok(cmds) => match spec_decode_commands(bytes, cmds, Seq::empty(), None) {
                Err(e) => Err(e),
                Ok((segments, symtab)) => match symtab {
                    None => Ok(
                        ImageModel {
                            header: h,
                            load_commands: cmds,
                            segments,
                            symtab: None,
                            symbols: Seq::empty(),
                            string_table: Seq::empty(),
                        },
                    ),
                    Some(st) => match spec_parse_symbols(bytes, st) {
                        Err(e) => Err(e),
                        Ok(symbols) => match spec_string_table(bytes, st) {
                            Err(e) => Err(e),
                            Ok(string_table) => Ok(
                                ImageModel {
                                    header: h,
                                    load_commands: cmds,
                                    segments,
                                    symtab: Some(st),
                                    symbols,
                                    string_table,
                                },
                            ),
                        },
                    },
                },
            },
        },
    }
}

/// Parses a whole image from its bytes, exactly as `spec_parse` says:
/// header, load commands, segments, the first symbol-table command, its
/// named symbol entries and its string table.
pub fn parse(bytes: &Vec<u8>) -> (r: Result<ParsedImage, ParseError>)
    ensures
        match r {
            Ok(img) => spec_parse(bytes@) == Ok::<ImageModel, ParseError>(img@),
            Err(e) => spec_parse(bytes@) == Err::<ImageModel, ParseError>(e),
        },
{
    let header = match parse_header(bytes) {
        Ok(h) => h,
        Err(e) => {
            return Err(e);
        },
    };
    let cmds = match walk_commands(bytes, header.ncmds, header.sizeofcmds) {
        Ok(c) => c,
        Err(e) => {
            return Err(e);
        },
    };
    let mut segments: Vec<SegmentCommand64> = Vec::new();
    let mut symtab: Option<SymtabCommand> = None;
    let mut i: usize = 0;
    proof {
        assert(cmds@.skip(0) =~= cmds@);
        assert(spec_segments_view(segments@) =~= Seq::<SegmentModel>::empty());
    }
    while i < cmds.len()
        invariant
            i <= cmds@.len(),
            spec_parse_header(bytes@) == Ok::<MachHeader64, ParseError>(header),
            spec_walk_commands(
                bytes@,
                HEADER_SIZE as int,
                HEADER_SIZE + header.sizeofcmds,
                header.ncmds as nat,
            ) == Ok::<Seq<LoadCommand>, ParseError>(cmds@),
            spec_decode_commands(bytes@, cmds@, Seq::empty(), None) == spec_decode_commands(
                bytes@,
                cmds@.skip(i as int),
                spec_segments_view(segments@),
                symtab,
            ),
        decreases cmds@.len() - i,
    {
        let c = cmds[i];
        proof {
            assert(cmds@.skip(i as int).drop_first() =~= cmds@.skip(i + 1));
            assert(cmds@.skip(i as int)[0] == cmds@[i as int]);
        }
        if c.cmd == LC_SYMTAB && symtab.is_none() {
            match parse_symtab_command(bytes, c.offset) {
                Ok(st) => {
                    symtab = Some(st);
                },
                Err(e) => {
                    return Err(e);
                },
            }
        } else if c.cmd == LC_SEGMENT_64 {
            match parse_segment_command(bytes, c.offset) {
                Ok(seg) => {
                    proof {
                        assert(spec_segments_view(segments@.push(seg)) =~= spec_segments_view(
                            segments@,
                        ).push(seg@));
                    }
                    segments.push(seg);
                },
                Err(e) => {
                    return Err(e);
                },
            }
        }
        i = i + 1;
    }
    proof {
        assert(cmds@.skip(cmds@.len() as int) =~= Seq::<LoadCommand>::empty());
    }
    let st = match symtab {
        None => {
            return Ok(
                ParsedImage {
                    header,
                    load_commands: cmds,
                    segments,
                    symtab: None,
                    symbols: Vec::new(),
                    string_table: Vec::new(),
                },
            );
        },
        Some(st) => st,
    };
    let symbols = match parse_symbols(bytes, &st) {
        Ok(s) => s,
        Err(e) => {
            return Err(e);
        },
    };
    let string_table = match parse_string_table(bytes, &st) {
        Ok(t) => t,
        Err(e) => {
            return Err(e);
        },
    };
    Ok(ParsedImage { header, load_commands: cmds, segments, symtab: Some(st), symbols, string_table })
}

// --- laws of the load-command walk ----------------------------------------

/// Law (robustness, magic): a buffer long enough for a header whose
/// magic is not recognized parses to `UnsupportedFormat` carrying that
/// magic — no stage past the header runs.
pub proof fn lemma_parse_unrecognized_magic(bytes: Seq<u8>)
    requires
        bytes.len() >= HEADER_SIZE,
        !spec_magic_recognized(crate::image::spec_u32_at(bytes, 0)),
    ensures
        spec_parse(bytes) == Err::<ImageModel, ParseError>(
            ParseError::UnsupportedFormat { magic: crate::image::spec_u32_at(bytes, 0) },
        ),
{
}

/// Law (robustness, command size): a load command whose declared size
/// is impossible — zero or otherwise below the fixed prefix size, not
/// a multiple of the word alignment, or above the ceiling — stops the
/// walk with `MalformedCommand` at that command's offset; nothing past
/// the command's fixed prefix is read.
pub proof fn lemma_walk_rejects_bad_size(
    bytes: Seq<u8>,
    off: int,
    end: int,
    remaining: nat,
    size: u32,
)
    requires
        0 <= off < end,
        remaining > 0,
        off % (WORD_ALIGN as int) == 0,
        off + COMMAND_PREFIX_SIZE <= bytes.len(),
        size == crate::image::spec_u32_at(bytes, off + 4),
        size < COMMAND_PREFIX_SIZE || size % WORD_ALIGN != 0 || size > MAX_COMMAND_SIZE,
    ensures
        spec_walk_commands(bytes, off, end, remaining) == Err::<Seq<LoadCommand>, ParseError>(
            ParseError::MalformedCommand { offset: off as u64, size },
        ),
{
}

/// Total declared size of a described command list: the sum of the
/// `size` halves of its (kind, size) pairs.
pub open spec fn spec_total_size(desc: Seq<(u32, u32)>) -> int
    decreases desc.len(),
{
    if desc.len() == 0 {
        0
    } else {
        desc[0].1 + spec_total_size(desc.drop_first())
    }
}

/// A described command list never has negative total size.
pub proof fn lemma_total_size_nonneg(desc: Seq<(u32, u32)>)
    ensures
        spec_total_size(desc) >= 0,
    decreases desc.len(),
{
    if desc.len() > 0 {
        lemma_total_size_nonneg(desc.drop_first());
    }
}

/// A command list is well-formed and encoded at `off` when each (kind,
/// size) pair is stored there in turn, every size valid — at least the
/// prefix size, word-aligned, at most the ceiling — and each command
/// followed immediately by the next.
pub open spec fn spec_desc_encoded(bytes: Seq<u8>, desc: Seq<(u32, u32)>, off: int) -> bool
    decreases desc.len(),
{
    if desc.len() == 0 {
        true
    } else {
        &&& crate::image::spec_u32_at(bytes, off) == desc[0].0
        &&& crate::image::spec_u32_at(bytes, off + 4) == desc[0].1
        &&& COMMAND_PREFIX_SIZE <= desc[0].1 <= MAX_COMMAND_SIZE
        &&& desc[0].1 % WORD_ALIGN == 0
        &&& spec_desc_encoded(bytes, desc.drop_first(), off + desc[0].1)
    }
}

/// The commands the walk yields for a described list laid out at `off`:
/// one per pair, at the cumulative offsets.
pub open spec fn spec_described_commands(desc: Seq<(u32, u32)>, off: int) -> Seq<LoadCommand>
    decreases desc.len(),
{
    if desc.len() == 0 {
        Seq::empty()
    } else {
        seq![LoadCommand { cmd: desc[0].0, cmdsize: desc[0].1, offset: off as u64 }]
            + spec_described_commands(desc.drop_first(), off + desc[0].1)
    }
}

/// Sum of the decoded sizes of a command sequence.
pub open spec fn spec_commands_total(cmds: Seq<LoadCommand>) -> int
    decreases cmds.len(),
{
    if cmds.len() == 0 {
        0
    } else {
        cmds[0].cmdsize + spec_commands_total(cmds.drop_first())
    }
}

/// Law (round trip): a well-formed command region — a described list of
/// N commands, each with a valid size, laid out back to back at `off`
/// and exactly filling the region — walks back to exactly those N
/// commands, at the cumulative offsets, their sizes summing to the
/// region's declared total.
pub proof fn lemma_walk_described(bytes: Seq<u8>, desc: Seq<(u32, u32)>, off: int, end: int)
    requires
        0 <= off,
        off % (WORD_ALIGN as int) == 0,
        end == off + spec_total_size(desc),
        end <= bytes.len(),
        spec_desc_encoded(bytes, desc, off),
    ensures
        spec_walk_commands(bytes, off, end, desc.len()) == Ok::<Seq<LoadCommand>, ParseError>(
            spec_described_commands(desc, off),
        ),
        spec_described_commands(desc, off).len() == desc.len(),
        spec_commands_total(spec_described_commands(desc, off)) == end - off,
        forall|i: int|
            0 <= i < desc.len() ==> (#[trigger] spec_described_commands(desc, off)[i]).cmd
                == desc[i].0 && spec_described_commands(desc, off)[i].cmdsize == desc[i].1,
    decreases desc.len(),
{
    if desc.len() == 0 {
    } else {
        let size = desc[0].1;
        lemma_total_size_nonneg(desc.drop_first());
        assert((off + size) % (WORD_ALIGN as int) == 0) by {
            lemma_add_mod_noop(off, size as int, WORD_ALIGN as int);
        }
        lemma_walk_described(bytes, desc.drop_first(), off + size, end);
        let head = seq![LoadCommand { cmd: desc[0].0, cmdsize: size, offset: off as u64 }];
        let rest = spec_described_commands(desc.drop_first(), off + size);
        assert((head + rest).drop_first() =~= rest);
        assert forall|i: int| 0 <= i < desc.len() implies (#[trigger] spec_described_commands(
            desc,
            off,
        )[i]).cmd == desc[i].0 && spec_described_commands(desc, off)[i].cmdsize == desc[i].1 by {
            if i > 0 {
                assert(spec_described_commands(desc, off)[i] == rest[i - 1]);
                assert(desc.drop_first()[i - 1] == desc[i]);
            }
        }
    }
}

/// Commands of any other kind than the symbol-table and segment kinds
/// leave the per-command decoding untouched.
proof fn lemma_decode_skips_other_kinds(
    bytes: Seq<u8>,
    cmds: Seq<LoadCommand>,
    segments: Seq<SegmentModel>,
    symtab: Option<SymtabCommand>,
)
    requires
        forall|i: int|
            0 <= i < cmds.len() ==> (#[trigger] cmds[i]).cmd != LC_SYMTAB && cmds[i].cmd
                != LC_SEGMENT_64,
    ensures
        spec_decode_commands(bytes, cmds, segments, symtab) == Ok::<
            (Seq<SegmentModel>, Option<SymtabCommand>),
            ParseError,
        >((segments, symtab)),
    decreases cmds.len(),
{
    if cmds.len() > 0 {
        assert(cmds[0].cmd != LC_SYMTAB && cmds[0].cmd != LC_SEGMENT_64);
        assert forall|i: int|
            0 <= i < cmds.drop_first().len() implies (#[trigger] cmds.drop_first()[i]).cmd
            != LC_SYMTAB && cmds.drop_first()[i].cmd != LC_SEGMENT_64 by {
            assert(cmds.drop_first()[i] == cmds[i + 1]);
        }
        lemma_decode_skips_other_kinds(bytes, cmds.drop_first(), segments, symtab);
    }
}

/// Law (round trip, whole parse): a well-formed synthetic image — a
/// recognized header declaring N commands whose valid sizes sum
/// exactly to the declared region size, each command encoded in turn
/// after the header, none of them a segment or symbol-table command —
/// parses to exactly those N commands, in order, with their declared
/// kinds and sizes, and to an empty symbol set.
pub proof fn lemma_parse_described(bytes: Seq<u8>, desc: Seq<(u32, u32)>)
    requires
        bytes.len() >= HEADER_SIZE,
        spec_magic_recognized(crate::image::spec_u32_at(bytes, 0)),
        spec_header_at(bytes).ncmds == desc.len(),
        spec_header_at(bytes).sizeofcmds == spec_total_size(desc),
        HEADER_SIZE + spec_total_size(desc) <= bytes.len(),
        spec_desc_encoded(bytes, desc, HEADER_SIZE as int),
        forall|i: int|
            0 <= i < desc.len() ==> (#[trigger] desc[i]).0 != LC_SYMTAB && desc[i].0
                != LC_SEGMENT_64,
    ensures
        spec_parse(bytes) == Ok::<ImageModel, ParseError>(
            ImageModel {
                header: spec_header_at(bytes),
                load_commands: spec_described_commands(desc, HEADER_SIZE as int),
                segments: Seq::empty(),
                symtab: None,
                symbols: Seq::empty(),
                string_table: Seq::empty(),
            },
        ),
        spec_described_commands(desc, HEADER_SIZE as int).len() == desc.len(),
        spec_commands_total(spec_described_commands(desc, HEADER_SIZE as int))
            == spec_header_at(bytes).sizeofcmds,
{
    let h = spec_header_at(bytes);
    let cmds = spec_described_commands(desc, HEADER_SIZE as int);
    lemma_walk_described(bytes, desc, HEADER_SIZE as int, HEADER_SIZE + spec_total_size(desc));
    assert forall|i: int|
        0 <= i < cmds.len() implies (#[trigger] cmds[i]).cmd != LC_SYMTAB && cmds[i].cmd
        != LC_SEGMENT_64 by {
        assert(cmds[i].cmd == desc[i].0);
    }
    lemma_decode_skips_other_kinds(bytes, cmds, Seq::empty(), None);
}

} // verus!
