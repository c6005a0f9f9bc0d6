//! The calls into the `object` crate, which decodes the thin Mach-O header,
//! its load commands, the symbol table and ar archives.
//!
//! Images are read with 32-bit or 64-bit headers, in either byte order; each
//! call exists once for either width. Everything here takes and returns plain
//! values; the contracts of the calls are taken on trust.
//!
//! The crate is used with its `unaligned` feature: every structure is then
//! read byte by byte, and what is read does not depend on where the bytes lie
//! in memory.
//!
//! Every call that reads load commands parses the header with
//! `MachHeader::parse`, asks `MachHeader::load_commands` for the commands and
//! walks them with `MachOLoadCommandIterator::next`: to the end where it hands
//! out all of them, up to an index where it takes one.

use object::macho::{MachHeader32, MachHeader64, SegmentCommand32, SegmentCommand64};
use object::read::archive::ArchiveFile;
use object::read::macho::{MachHeader, Nlist, Section, Segment};
use core::iter::from_fn;
use object::{Bytes, Endianness};
use vstd::prelude::*;

verus! {

/// Magic number of an image with a 32-bit header; read big-endian from the
/// first four bytes it marks a big-endian image.
pub const MH_MAGIC: u32 = 0xfeed_face;

/// `MH_MAGIC` in the other byte order: a little-endian image.
pub const MH_CIGAM: u32 = 0xcefa_edfe;

/// Magic number of an image with a 64-bit header; read big-endian from the
/// first four bytes it marks a big-endian image.
pub const MH_MAGIC_64: u32 = 0xfeed_facf;

/// `MH_MAGIC_64` in the other byte order: a little-endian image.
pub const MH_CIGAM_64: u32 = 0xcffa_edfe;

/// Size in bytes of a 32-bit thin header.
pub const HEADER_SIZE_32: usize = 28;

/// Size in bytes of a 64-bit thin header.
pub const HEADER_SIZE_64: usize = 32;

/// The four bytes at `at`, read as a big-endian number.
pub open spec fn be32(s: Seq<u8>, at: int) -> u32 {
    (s[at] as int * 0x100_0000 + s[at + 1] as int * 0x1_0000 + s[at + 2] as int * 0x100
        + s[at + 3] as int) as u32
}

/// The four bytes at `at`, read as a little-endian number.
pub open spec fn le32(s: Seq<u8>, at: int) -> u32 {
    (s[at + 3] as int * 0x100_0000 + s[at + 2] as int * 0x1_0000 + s[at + 1] as int * 0x100
        + s[at] as int) as u32
}

/// The file type recorded in the thin header of the given width that `image`
/// starts with: the word at offset 12, in the byte order that the magic number
/// announces. `None` where `image` is shorter than such a header or has another
/// magic number.
pub open spec fn thin_filetype(image: Seq<u8>, wide: bool) -> Option<u32> {
    if image.len() < (if wide {
        HEADER_SIZE_64
    } else {
        HEADER_SIZE_32
    }) {
        None
    } else if be32(image, 0) == (if wide {
        MH_MAGIC_64
    } else {
        MH_MAGIC
    }) {
        Some(be32(image, 12))
    } else if be32(image, 0) == (if wide {
        MH_CIGAM_64
    } else {
        MH_CIGAM
    }) {
        Some(le32(image, 12))
    } else {
        None
    }
}

/// The thin header that `image` starts with: whether it is a 64-bit header,
/// and the file type that it records.
pub open spec fn thin_header(image: Seq<u8>) -> Option<(bool, u32)> {
    match thin_filetype(image, true) {
        Some(filetype) => Some((true, filetype)),
        None => match thin_filetype(image, false) {
            Some(filetype) => Some((false, filetype)),
            None => None,
        },
    }
}

/// `MachHeader::parse`, `MachHeader::endian` and `MachHeader::filetype` of
/// `object`, on a 64-bit header: the header is accepted when `image` holds its
/// 32 bytes and starts with one of the two 64-bit magic numbers, and the file
/// type is decoded in the byte order of the image.
#[verifier::external_body]
pub(crate) fn header_filetype_64(image: &[u8]) -> (r: Option<u32>)
    ensures
        r == thin_filetype(image@, true),
{
    let header = MachHeader64::<Endianness>::parse(Bytes(image)).ok()?;
    let endian = header.endian().ok()?;
    Some(header.filetype(endian))
}

/// `MachHeader::parse`, `MachHeader::endian` and `MachHeader::filetype` of
/// `object`, on a 32-bit header: the header is accepted when `image` holds its
/// 28 bytes and starts with one of the two 32-bit magic numbers, and the file
/// type is decoded in the byte order of the image.
#[verifier::external_body]
pub(crate) fn header_filetype_32(image: &[u8]) -> (r: Option<u32>)
    ensures
        r == thin_filetype(image@, false),
{
    let header = MachHeader32::<Endianness>::parse(Bytes(image)).ok()?;
    let endian = header.endian().ok()?;
    Some(header.filetype(endian))
}

/// Reads the thin header that `image` starts with.
pub fn read_header(image: &[u8]) -> (r: Option<(bool, u32)>)
    ensures
        r == thin_header(image@),
{
    match header_filetype_64(image) {
        Some(filetype) => Some((true, filetype)),
        None => match header_filetype_32(image) {
            Some(filetype) => Some((false, filetype)),
            None => None,
        },
    }
}

/// A section of a segment: its name, and the offset and length of its bytes in
/// the image, or `None` where it has none there (a zero-filled section).
pub type SectionEntry = (Vec<u8>, Option<(u64, u64)>);

/// A segment command: the segment's name and its section table, or `None`
/// where the table does not fit in the command.
pub type SegmentEntry = (Vec<u8>, Option<Vec<SectionEntry>>);

/// A symbol-table entry as it is stored: its name, where the string table
/// holds it; whether it defines something; its value.
pub type RawSymbol = (Option<Vec<u8>>, bool, u64);

/// A symbol with a name and an address.
pub type Symbol = (Vec<u8>, u64);

/// An entry of the debug map: name, address in the linked image, size, and the
/// index of the object that it came from.
pub type MapEntry = (Vec<u8>, u64, u64, usize);

/// A debug map: the index of the load command whose symbol table describes
/// it, and the paths of the objects that its entries refer to.
pub type DebugMap = (usize, Vec<Vec<u8>>);

/// The load commands of `image`, each read as a segment command: the segment
/// where the command is one, `None` where it is of another kind. The image is
/// read with a 64-bit header where `wide` holds and with a 32-bit header where
/// it does not. `None` where `image` has no such header, its command table
/// does not fit, or one of the commands cannot be read.
pub uninterp spec fn macho_segments(image: Seq<u8>, wide: bool) -> Option<
    Seq<Option<(Seq<u8>, Option<Seq<(Seq<u8>, Option<(u64, u64)>)>>)>>,
>;

/// The load commands of `image`, each read as a symbol-table command: every
/// entry of the table in stored order where the command is one, `None` where
/// it is of another kind. `None` where `image` has no such header, its
/// command table does not fit, or one of the commands or tables cannot be
/// read.
pub uninterp spec fn macho_symbol_tables(image: Seq<u8>, wide: bool) -> Option<
    Seq<Option<Seq<(Option<Seq<u8>>, bool, u64)>>>,
>;

/// The entry of the debug map of the symbol table of load command `index`
/// that `addr` falls into, as the lookup of `object` finds it: an entry with
/// the greatest address that is at most `addr`, provided that it has no size
/// or `addr` is less than its size away from its address.
pub uninterp spec fn macho_debug_entry(image: Seq<u8>, wide: bool, index: usize, addr: u64) -> Option<
    (Seq<u8>, u64, u64, usize),
>;

/// The paths of the objects that the debug map of the symbol table of load
/// command `index` refers to.
pub uninterp spec fn macho_object_paths(image: Seq<u8>, wide: bool, index: usize) -> Option<
    Seq<Seq<u8>>,
>;

/// The identifier in the first UUID command of `image`; `None` where there is
/// none, or a command before it cannot be read.
pub uninterp spec fn macho_uuid(image: Seq<u8>, wide: bool) -> Option<Seq<u8>>;

/// The members of an ar archive in stored order, each with its name and its
/// contents, up to the first that cannot be read.
pub uninterp spec fn archive_members(data: Seq<u8>) -> Option<Seq<(Seq<u8>, Seq<u8>)>>;

/// `symbols` ascend by address.
pub open spec fn symbols_sorted(symbols: Seq<(Seq<u8>, u64)>) -> bool {
    forall|i: int, j: int| 0 <= i <= j < symbols.len() ==> symbols[i].1 <= symbols[j].1
}

/// `MachHeader::load_commands` and `MachOLoadCommandIterator::next` of
/// `object`, with `Segment::from_command`, `Segment::name` and
/// `Segment::sections` on each command, and `Section::name` and
/// `Section::file_range` of each section. An error of `next` or of
/// `from_command` is handed on as `None`.
/// For images with a 64-bit header.
#[verifier::external_body]
pub(crate) fn segments_of_64(image: &[u8]) -> (r: Option<Vec<Option<SegmentEntry>>>)
    ensures
        r.deep_view() == macho_segments(image@, true),
{
    let header = MachHeader64::parse(Bytes(image)).ok()?;
    let endian = header.endian().ok()?;
    let mut commands = header.load_commands(endian, Bytes(image)).ok()?;
    let entry = |s| (Section::name(s).to_vec(), Section::file_range(s, endian));
    from_fn(|| commands.next().transpose()).map(|command| {
        let segment = SegmentCommand64::<Endianness>::from_command(command.ok()?).ok()?;
        Some(segment.map(|(seg, rest)| {
            (seg.name().to_vec(), seg.sections(endian, rest).ok().map(|t| t.iter().map(entry).collect()))
        }))
    }).collect()
}

/// `MachHeader::load_commands` and `MachOLoadCommandIterator::next` of
/// `object`, with `Segment::from_command`, `Segment::name` and
/// `Segment::sections` on each command, and `Section::name` and
/// `Section::file_range` of each section. An error of `next` or of
/// `from_command` is handed on as `None`.
/// For images with a 32-bit header.
#[verifier::external_body]
pub(crate) fn segments_of_32(image: &[u8]) -> (r: Option<Vec<Option<SegmentEntry>>>)
    ensures
        r.deep_view() == macho_segments(image@, false),
{
    let header = MachHeader32::parse(Bytes(image)).ok()?;
    let endian = header.endian().ok()?;
    let mut commands = header.load_commands(endian, Bytes(image)).ok()?;
    let entry = |s| (Section::name(s).to_vec(), Section::file_range(s, endian));
    from_fn(|| commands.next().transpose()).map(|command| {
        let segment = SegmentCommand32::<Endianness>::from_command(command.ok()?).ok()?;
        Some(segment.map(|(seg, rest)| {
            (seg.name().to_vec(), seg.sections(endian, rest).ok().map(|t| t.iter().map(entry).collect()))
        }))
    }).collect()
}

/// `MachHeader::load_commands` and `MachOLoadCommandIterator::next` of
/// `object`, with `MachOLoadCommand::symtab` and `SymtabCommand::symbols` on
/// each command, and `Nlist::name`, `Nlist::is_definition` and
/// `Nlist::n_value` of each entry. An error of `next`, `symtab` or `symbols`
/// is handed on as `None`.
/// For images with a 64-bit header.
#[verifier::external_body]
pub(crate) fn symbol_tables_of_64(image: &[u8]) -> (r: Option<Vec<Option<Vec<RawSymbol>>>>)
    ensures
        r.deep_view() == macho_symbol_tables(image@, true),
{
    let header = MachHeader64::parse(Bytes(image)).ok()?;
    let endian = header.endian().ok()?;
    let mut commands = header.load_commands(endian, Bytes(image)).ok()?;
    from_fn(|| commands.next().transpose()).map(|command| {
        let Some(symtab) = command.ok()?.symtab().ok()? else { return Some(None) };
        let table = symtab.symbols::<MachHeader64<Endianness>>(endian, Bytes(image)).ok()?;
        Some(Some(table.iter().map(|n| (
            n.name(endian, table.strings()).ok().map(Vec::from),
            n.is_definition(),
            n.n_value(endian).into()
        )).collect()))
    }).collect()
}

/// `MachHeader::load_commands` and `MachOLoadCommandIterator::next` of
/// `object`, with `MachOLoadCommand::symtab` and `SymtabCommand::symbols` on
/// each command, and `Nlist::name`, `Nlist::is_definition` and
/// `Nlist::n_value` of each entry. An error of `next`, `symtab` or `symbols`
/// is handed on as `None`.
/// For images with a 32-bit header.
#[verifier::external_body]
pub(crate) fn symbol_tables_of_32(image: &[u8]) -> (r: Option<Vec<Option<Vec<RawSymbol>>>>)
    ensures
        r.deep_view() == macho_symbol_tables(image@, false),
{
    let header = MachHeader32::parse(Bytes(image)).ok()?;
    let endian = header.endian().ok()?;
    let mut commands = header.load_commands(endian, Bytes(image)).ok()?;
    from_fn(|| commands.next().transpose()).map(|command| {
        let Some(symtab) = command.ok()?.symtab().ok()? else { return Some(None) };
        let table = symtab.symbols::<MachHeader32<Endianness>>(endian, Bytes(image)).ok()?;
        Some(Some(table.iter().map(|n| (
            n.name(endian, table.strings()).ok().map(Vec::from),
            n.is_definition(),
            n.n_value(endian).into()
        )).collect()))
    }).collect()
}

/// Reads every load command of `image` as a segment command.
pub(crate) fn segments_of(image: &[u8], wide: bool) -> (r: Option<Vec<Option<SegmentEntry>>>)
    ensures
        r.deep_view() == macho_segments(image@, wide),
{
    if wide {
        segments_of_64(image)
    } else {
        segments_of_32(image)
    }
}

/// Reads every load command of `image` as a symbol-table command.
pub(crate) fn symbol_tables_of(image: &[u8], wide: bool) -> (r: Option<
    Vec<Option<Vec<RawSymbol>>>,
>)
    ensures
        r.deep_view() == macho_symbol_tables(image@, wide),
{
    if wide {
        symbol_tables_of_64(image)
    } else {
        symbol_tables_of_32(image)
    }
}

/// `SymbolTable::object_map` and `ObjectMap::get` of `object` on the symbol
/// table of load command `index`: the entry that `addr` falls into, with its
/// name, address, size and object index.
/// For images with a 64-bit header.
#[verifier::external_body]
pub(crate) fn debug_entry_at_64(image: &[u8], index: usize, addr: u64) -> (r: Option<MapEntry>)
    ensures
        r.deep_view() == macho_debug_entry(image@, true, index, addr),
{
    let header = MachHeader64::<Endianness>::parse(Bytes(image)).ok()?;
    let endian = header.endian().ok()?;
    let mut commands = header.load_commands(endian, Bytes(image)).ok()?;
    let command = from_fn(|| commands.next().transpose()).nth(index)?.ok()?;
    let table = command.symtab().ok()??.symbols::<MachHeader64<_>>(endian, Bytes(image)).ok()?;
    let map = table.object_map(endian);
    map.get(addr).map(|e| (e.name().to_vec(), e.address(), e.size(), e.object_index()))
}

/// `SymbolTable::object_map` and `ObjectMap::get` of `object` on the symbol
/// table of load command `index`: the entry that `addr` falls into, with its
/// name, address, size and object index.
/// For images with a 32-bit header.
#[verifier::external_body]
pub(crate) fn debug_entry_at_32(image: &[u8], index: usize, addr: u64) -> (r: Option<MapEntry>)
    ensures
        r.deep_view() == macho_debug_entry(image@, false, index, addr),
{
    let header = MachHeader32::<Endianness>::parse(Bytes(image)).ok()?;
    let endian = header.endian().ok()?;
    let mut commands = header.load_commands(endian, Bytes(image)).ok()?;
    let command = from_fn(|| commands.next().transpose()).nth(index)?.ok()?;
    let table = command.symtab().ok()??.symbols::<MachHeader32<_>>(endian, Bytes(image)).ok()?;
    let map = table.object_map(endian);
    map.get(addr).map(|e| (e.name().to_vec(), e.address(), e.size(), e.object_index()))
}

/// Looks `addr` up in the debug map of load command `index` of `image`.
pub(crate) fn debug_entry_at(image: &[u8], wide: bool, index: usize, addr: u64) -> (r: Option<
    MapEntry,
>)
    ensures
        r.deep_view() == macho_debug_entry(image@, wide, index, addr),
{
    if wide {
        debug_entry_at_64(image, index, addr)
    } else {
        debug_entry_at_32(image, index, addr)
    }
}

/// `SymbolTable::object_map` of `object` on the symbol table of load command
/// `index`, with the paths of the objects as `ObjectMap::objects` hands them
/// out.
/// For images with a 64-bit header.
#[verifier::external_body]
pub(crate) fn object_paths_at_64(image: &[u8], index: usize) -> (r: Option<Vec<Vec<u8>>>)
    ensures
        r.deep_view() == macho_object_paths(image@, true, index),
{
    let header = MachHeader64::<Endianness>::parse(Bytes(image)).ok()?;
    let endian = header.endian().ok()?;
    let mut commands = header.load_commands(endian, Bytes(image)).ok()?;
    let command = from_fn(|| commands.next().transpose()).nth(index)?.ok()?;
    let table = command.symtab().ok()??.symbols::<MachHeader64<_>>(endian, Bytes(image)).ok()?;
    let map = table.object_map(endian);
    Some(map.objects().iter().map(|o| o.to_vec()).collect())
}

/// `SymbolTable::object_map` of `object` on the symbol table of load command
/// `index`, with the paths of the objects as `ObjectMap::objects` hands them
/// out.
/// For images with a 32-bit header.
#[verifier::external_body]
pub(crate) fn object_paths_at_32(image: &[u8], index: usize) -> (r: Option<Vec<Vec<u8>>>)
    ensures
        r.deep_view() == macho_object_paths(image@, false, index),
{
    let header = MachHeader32::<Endianness>::parse(Bytes(image)).ok()?;
    let endian = header.endian().ok()?;
    let mut commands = header.load_commands(endian, Bytes(image)).ok()?;
    let command = from_fn(|| commands.next().transpose()).nth(index)?.ok()?;
    let table = command.symtab().ok()??.symbols::<MachHeader32<_>>(endian, Bytes(image)).ok()?;
    let map = table.object_map(endian);
    Some(map.objects().iter().map(|o| o.to_vec()).collect())
}

/// Reads the object paths of the debug map of load command `index` of `image`.
pub(crate) fn object_paths_at(image: &[u8], wide: bool, index: usize) -> (r: Option<Vec<Vec<u8>>>)
    ensures
        r.deep_view() == macho_object_paths(image@, wide, index),
{
    if wide {
        object_paths_at_64(image, index)
    } else {
        object_paths_at_32(image, index)
    }
}

/// `MachHeader::uuid` of `object`: the identifier of the first UUID command.
///
/// For images with a 64-bit header.
#[verifier::external_body]
pub(crate) fn uuid_of_64(image: &[u8]) -> (r: Option<[u8; 16]>)
    ensures
        r is None <==> macho_uuid(image@, true) is None,
        r matches Some(id) ==> macho_uuid(image@, true) == Some(id@),
{
    let header = MachHeader64::<Endianness>::parse(Bytes(image)).ok()?;
    let endian = header.endian().ok()?;
    header.uuid(endian, Bytes(image)).ok()?
}

/// `MachHeader::uuid` of `object`: the identifier of the first UUID command.
///
/// For images with a 32-bit header.
#[verifier::external_body]
pub(crate) fn uuid_of_32(image: &[u8]) -> (r: Option<[u8; 16]>)
    ensures
        r is None <==> macho_uuid(image@, false) is None,
        r matches Some(id) ==> macho_uuid(image@, false) == Some(id@),
{
    let header = MachHeader32::<Endianness>::parse(Bytes(image)).ok()?;
    let endian = header.endian().ok()?;
    header.uuid(endian, Bytes(image)).ok()?
}

/// Reads the identifier of `image`.
pub(crate) fn uuid_of(image: &[u8], wide: bool) -> (r: Option<[u8; 16]>)
    ensures
        r is None <==> macho_uuid(image@, wide) is None,
        r matches Some(id) ==> macho_uuid(image@, wide) == Some(id@),
{
    if wide {
        uuid_of_64(image)
    } else {
        uuid_of_32(image)
    }
}

/// `ArchiveFile::parse` and `ArchiveFile::members` of `object`, with
/// `ArchiveMember::name` and `ArchiveMember::data` of each member that is
/// handed out before the end or the first error.
#[verifier::external_body]
pub(crate) fn members_of(data: &[u8]) -> (r: Option<Vec<(Vec<u8>, Vec<u8>)>>)
    ensures
        r.deep_view() == archive_members(data@),
{
    let archive = ArchiveFile::parse(data).ok()?;
    let members = archive.members().map_while(|m| m.ok());
    Some(members.map(|m| (m.name().to_vec(), m.data().to_vec())).collect())
}

/// `sort_unstable_by_key` of std, keyed by address: afterwards the symbols
/// ascend by address and are the same symbols as before.
#[verifier::external_body]
pub(crate) fn sort_by_address(symbols: &mut Vec<Symbol>)
    ensures
        symbols_sorted(final(symbols).deep_view()),
        final(symbols).deep_view().to_multiset() == old(symbols).deep_view().to_multiset(),
{
    symbols.sort_unstable_by_key(|s| s.1);
}

} // verus!
