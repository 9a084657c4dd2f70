//! Data model of the target's executable image, and the little-endian
//! field decoders the parser is built on.
//!
//! Every record is decoded field by field from a byte buffer, with the
//! byte layout written once as a spec function; the parser's contracts
//! are stated against these.
use vstd::prelude::*;

use vstd::bytes::spec_u16_from_le_bytes;
use vstd::bytes::spec_u32_from_le_bytes;
use vstd::bytes::spec_u64_from_le_bytes;
use vstd::bytes::u16_from_le_bytes;
use vstd::bytes::u32_from_le_bytes;
use vstd::bytes::u64_from_le_bytes;
use vstd::slice::slice_subrange;
use vstd::slice::slice_to_vec;

verus! {

/// Size in bytes of the object header.
pub const HEADER_SIZE: usize = 32;

/// Magic of a supported object file, native byte order.
pub const MAGIC_64: u32 = 0xfeedfacf;

/// Magic of a supported object file written in the opposite byte order.
pub const MAGIC_64_SWAPPED: u32 = 0xcffaedfe;

/// Load-command kind of the symbol-table command.
pub const LC_SYMTAB: u32 = 2;

/// Load-command kind of a 64-bit segment command.
pub const LC_SEGMENT_64: u32 = 25;

/// Word alignment every load command's size and offset must respect.
pub const WORD_ALIGN: u32 = 8;

/// Sane ceiling on one load command's declared size.
pub const MAX_COMMAND_SIZE: u32 = 4096;

/// Size in bytes of the fixed {kind, size} prefix of a load command.
pub const COMMAND_PREFIX_SIZE: u32 = 8;

/// Size in bytes of a symbol-table command record.
pub const SYMTAB_COMMAND_SIZE: usize = 24;

/// Size in bytes of a 64-bit segment command record.
pub const SEGMENT_COMMAND_SIZE: usize = 72;

/// Size in bytes of one symbol-table entry.
pub const SYMBOL_ENTRY_SIZE: usize = 16;

// --- little-endian field decoders ---------------------------------------

/// The u16 stored little-endian at `off`.
pub open spec fn spec_u16_at(bytes: Seq<u8>, off: int) -> u16 {
    spec_u16_from_le_bytes(bytes.subrange(off, off + 2))
}

/// The u32 stored little-endian at `off`.
pub open spec fn spec_u32_at(bytes: Seq<u8>, off: int) -> u32 {
    spec_u32_from_le_bytes(bytes.subrange(off, off + 4))
}

/// The u64 stored little-endian at `off`.
pub open spec fn spec_u64_at(bytes: Seq<u8>, off: int) -> u64 {
    spec_u64_from_le_bytes(bytes.subrange(off, off + 8))
}

/// Reads the little-endian u16 at `off`.
pub fn u16_at(bytes: &Vec<u8>, off: usize) -> (r: u16)
    requires
        off + 2 <= bytes@.len(),
    ensures
        r == spec_u16_at(bytes@, off as int),
{
    let n: usize = bytes.len();
    u16_from_le_bytes(slice_subrange(bytes.as_slice(), off, off + 2))
}

/// Reads the little-endian u32 at `off`.
pub fn u32_at(bytes: &Vec<u8>, off: usize) -> (r: u32)
    requires
        off + 4 <= bytes@.len(),
    ensures
        r == spec_u32_at(bytes@, off as int),
{
    let n: usize = bytes.len();
    u32_from_le_bytes(slice_subrange(bytes.as_slice(), off, off + 4))
}

/// Reads the little-endian u64 at `off`.
pub fn u64_at(bytes: &Vec<u8>, off: usize) -> (r: u64)
    requires
        off + 8 <= bytes@.len(),
    ensures
        r == spec_u64_at(bytes@, off as int),
{
    let n: usize = bytes.len();
    u64_from_le_bytes(slice_subrange(bytes.as_slice(), off, off + 8))
}

// --- NUL-terminated names ------------------------------------------------

/// Length of the name that starts a byte sequence: the number of bytes
/// before the first NUL, or the whole length if no NUL occurs.
pub open spec fn spec_name_len(s: Seq<u8>) -> nat
    decreases s.len(),
{
    if s.len() == 0 || s[0] == 0 {
        0
    } else {
        1 + spec_name_len(s.drop_first())
    }
}

/// The name that starts a byte sequence: everything up to (not
/// including) the first NUL.
pub open spec fn spec_name_prefix(s: Seq<u8>) -> Seq<u8> {
    s.take(spec_name_len(s) as int)
}

/// The NUL-terminated name starting at `off`, empty if `off` lies
/// outside the buffer.
pub open spec fn spec_name_at(s: Seq<u8>, off: int) -> Seq<u8> {
    if 0 <= off <= s.len() {
        spec_name_prefix(s.skip(off))
    } else {
        Seq::empty()
    }
}

/// `spec_name_len` finds the first NUL: nothing before it is NUL, and
/// it only stops short of the end on a NUL.
pub proof fn lemma_name_len(s: Seq<u8>)
    ensures
        spec_name_len(s) <= s.len(),
        forall|j: int| 0 <= j < spec_name_len(s) ==> s[j] != 0,
        spec_name_len(s) < s.len() ==> s[spec_name_len(s) as int] == 0,
    decreases s.len(),
{
    if s.len() == 0 || s[0] == 0 {
    } else {
        lemma_name_len(s.drop_first());
        assert forall|j: int| 0 <= j < spec_name_len(s) implies s[j] != 0 by {
            if j > 0 {
                assert(s.drop_first()[j - 1] != 0);
            }
        }
    }
}

/// Any position with no NUL before it that sits on a NUL or at the end
/// is exactly `spec_name_len`.
pub proof fn lemma_name_len_is(s: Seq<u8>, n: int)
    requires
        0 <= n <= s.len(),
        forall|j: int| 0 <= j < n ==> s[j] != 0,
        n < s.len() ==> s[n] == 0,
    ensures
        spec_name_len(s) == n,
    decreases s.len(),
{
    if s.len() == 0 || s[0] == 0 {
    } else {
        assert(n > 0) by {
            assert(s[0] != 0);
        }
        lemma_name_len_is(s.drop_first(), n - 1);
    }
}

/// Copies the NUL-terminated name starting at `offset` out of `table`:
/// the bytes before the first NUL at or after `offset`.
pub fn name_bytes_at(table: &Vec<u8>, offset: usize) -> (r: Vec<u8>)
    ensures
        r@ == spec_name_at(table@, offset as int),
{
    if offset > table.len() {
        return Vec::new();
    }
    let mut i: usize = offset;
    while i < table.len() && *vstd::slice::slice_index_get(table.as_slice(), i) != 0
        invariant
            offset <= i <= table@.len(),
            forall|j: int| offset <= j < i ==> table@[j] != 0,
        decreases table@.len() - i,
    {
        i = i + 1;
    }
    proof {
        lemma_name_len_is(table@.skip(offset as int), i - offset);
        assert(table@.subrange(offset as int, i as int) =~= table@.skip(offset as int).take(
            i - offset,
        ));
    }
    slice_to_vec(slice_subrange(table.as_slice(), offset, i))
}

// --- image records ---------------------------------------------------------

/// The object header: the first `HEADER_SIZE` bytes of a supported
/// image. Valid only when `magic` is one of the two recognized values.
#[derive(Debug, Clone, Copy, PartialEq, Eq, Structural)]
pub struct MachHeader64 {
    pub magic: u32,
    pub cpu_type: u32,
    pub cpu_subtype: u32,
    pub file_type: u32,
    /// Declared number of load commands.
    pub ncmds: u32,
    /// Declared total size in bytes of the load-command region.
    pub sizeofcmds: u32,
    pub flags: u32,
    pub reserved: u32,
}

/// Whether a magic names a supported object format, in either byte order.
pub open spec fn spec_magic_recognized(magic: u32) -> bool {
    magic == MAGIC_64 || magic == MAGIC_64_SWAPPED
}

/// The header record stored at the start of the buffer.
pub open spec fn spec_header_at(bytes: Seq<u8>) -> MachHeader64 {
    MachHeader64 {
        magic: spec_u32_at(bytes, 0),
        cpu_type: spec_u32_at(bytes, 4),
        cpu_subtype: spec_u32_at(bytes, 8),
        file_type: spec_u32_at(bytes, 12),
        ncmds: spec_u32_at(bytes, 16),
        sizeofcmds: spec_u32_at(bytes, 20),
        flags: spec_u32_at(bytes, 24),
        reserved: spec_u32_at(bytes, 28),
    }
}

/// One decoded load command: its kind, declared size, and the absolute
/// byte offset in the buffer where it starts.
#[derive(Debug, Clone, Copy, PartialEq, Eq, Structural)]
pub struct LoadCommand {
    pub cmd: u32,
    pub cmdsize: u32,
    pub offset: u64,
}

/// The symbol-table command: where the symbol records and the string
/// table live in the file.
#[derive(Debug, Clone, Copy, PartialEq, Eq, Structural)]
pub struct SymtabCommand {
    pub cmd: u32,
    pub cmdsize: u32,
    pub symbol_table_offset: u32,
    pub symbol_count: u32,
    pub string_table_offset: u32,
    pub string_table_size: u32,
}

/// The symbol-table command record stored at `off`.
pub open spec fn spec_symtab_at(bytes: Seq<u8>, off: int) -> SymtabCommand {
    SymtabCommand {
        cmd: spec_u32_at(bytes, off),
        cmdsize: spec_u32_at(bytes, off + 4),
        symbol_table_offset: spec_u32_at(bytes, off + 8),
        symbol_count: spec_u32_at(bytes, off + 12),
        string_table_offset: spec_u32_at(bytes, off + 16),
        string_table_size: spec_u32_at(bytes, off + 20),
    }
}

/// A decoded 64-bit segment command. The name holds the bytes of the
/// fixed-width, NUL-padded name field up to its first NUL.
#[derive(Debug)]
pub struct SegmentCommand64 {
    pub cmd: u32,
    pub cmdsize: u32,
    pub segment_name: Vec<u8>,
    pub virtual_address: u64,
    pub virtual_size: u64,
    pub file_offset: u64,
    pub file_size: u64,
    pub max_protection: u32,
    pub init_protection: u32,
    pub section_count: u32,
    pub flags: u32,
}

/// Abstract value of a decoded segment command.
pub struct SegmentModel {
    pub cmd: u32,
    pub cmdsize: u32,
    pub segment_name: Seq<u8>,
    pub virtual_address: u64,
    pub virtual_size: u64,
    pub file_offset: u64,
    pub file_size: u64,
    pub max_protection: u32,
    pub init_protection: u32,
    pub section_count: u32,
    pub flags: u32,
}

impl View for SegmentCommand64 {
    type V = SegmentModel;

    open spec fn view(&self) -> SegmentModel {
        SegmentModel {
            cmd: self.cmd,
            cmdsize: self.cmdsize,
            segment_name: self.segment_name@,
            virtual_address: self.virtual_address,
            virtual_size: self.virtual_size,
            file_offset: self.file_offset,
            file_size: self.file_size,
            max_protection: self.max_protection,
            init_protection: self.init_protection,
            section_count: self.section_count,
            flags: self.flags,
        }
    }
}

/// The segment command record stored at `off`, its name taken up to the
/// first NUL of the fixed-width field.
pub open spec fn spec_segment_at(bytes: Seq<u8>, off: int) -> SegmentModel {
    SegmentModel {
        cmd: spec_u32_at(bytes, off),
        cmdsize: spec_u32_at(bytes, off + 4),
        segment_name: spec_name_prefix(bytes.subrange(off + 8, off + 24)),
        virtual_address: spec_u64_at(bytes, off + 24),
        virtual_size: spec_u64_at(bytes, off + 32),
        file_offset: spec_u64_at(bytes, off + 40),
        file_size: spec_u64_at(bytes, off + 48),
        max_protection: spec_u32_at(bytes, off + 56),
        init_protection: spec_u32_at(bytes, off + 60),
        section_count: spec_u32_at(bytes, off + 64),
        flags: spec_u32_at(bytes, off + 68),
    }
}

/// One symbol-table entry: a name offset into the string table, the
/// type and section bytes, a description, and the symbol's address.
#[derive(Debug, Clone, Copy, PartialEq, Eq, Structural)]
pub struct SymbolEntry {
    pub name_offset: u32,
    pub type_byte: u8,
    pub section_index: u8,
    pub description: u16,
    pub value: u64,
}

/// The symbol entry stored at `off`.
pub open spec fn spec_symbol_at(bytes: Seq<u8>, off: int) -> SymbolEntry {
    SymbolEntry {
        name_offset: spec_u32_at(bytes, off),
        type_byte: bytes[off + 4],
        section_index: bytes[off + 5],
        description: spec_u16_at(bytes, off + 6),
        value: spec_u64_at(bytes, off + 8),
    }
}

/// Everything decoded from one image.
#[derive(Debug)]
pub struct ParsedImage {
    pub header: MachHeader64,
    /// The load commands actually read, in file order. Fewer than the
    /// header declared is a warning, not an error; see
    /// `counts_consistent`.
    pub load_commands: Vec<LoadCommand>,
    /// The decoded segment commands, in file order.
    pub segments: Vec<SegmentCommand64>,
    /// The first symbol-table command, if any was found.
    pub symtab: Option<SymtabCommand>,
    /// The named symbol entries, in on-disk order; entries whose name
    /// offset is zero are skipped. Empty when there is no symbol table —
    /// "no symbols available", not an error.
    pub symbols: Vec<SymbolEntry>,
    /// The raw string table; symbol names are NUL-terminated substrings.
    pub string_table: Vec<u8>,
}

/// Abstract value of a parsed image.
pub struct ImageModel {
    pub header: MachHeader64,
    pub load_commands: Seq<LoadCommand>,
    pub segments: Seq<SegmentModel>,
    pub symtab: Option<SymtabCommand>,
    pub symbols: Seq<SymbolEntry>,
    pub string_table: Seq<u8>,
}

/// The views of a sequence of decoded segments.
pub open spec fn spec_segments_view(segs: Seq<SegmentCommand64>) -> Seq<SegmentModel> {
    segs.map_values(|s: SegmentCommand64| s@)
}

impl View for ParsedImage {
    type V = ImageModel;

    open spec fn view(&self) -> ImageModel {
        ImageModel {
            header: self.header,
            load_commands: self.load_commands@,
            segments: spec_segments_view(self.segments@),
            symtab: self.symtab,
            symbols: self.symbols@,
            string_table: self.string_table@,
        }
    }
}

impl ParsedImage {
    /// Whether as many load commands were read as the header declared.
    /// A mismatch is reported as a warning by the caller — some
    /// producers emit inconsistent counts — never as an error.
    pub fn counts_consistent(&self) -> (b: bool)
        ensures
            b == (self@.load_commands.len() == self@.header.ncmds),
    {
        self.load_commands.len() == self.header.ncmds as usize
    }
}

} // verus!
