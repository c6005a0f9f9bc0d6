use macho_symbols::bundle::{archive_member, examine_candidate, image_uuid, Candidate};
use macho_symbols::container::{
    find_header, find_slice, read_be32, read_be64, thin_image, ThinImage, CPU_TYPE_ARM,
    CPU_TYPE_ARM64, CPU_TYPE_X86_64, MH_OBJECT,
};
use macho_symbols::index::{bytes_equal, floor_symbol, matches_name, tails_equal};
use macho_symbols::object::{select_symbols, Object, Slot};
use macho_symbols::resolve::find_symbol;
use macho_symbols::search::{has_bundle_name, resolve_step, Action, Event, Phase, Search};

const LC_SEGMENT_64: u32 = 0x19;
const LC_SYMTAB: u32 = 0x2;
const LC_UUID: u32 = 0x1b;
const MH_EXECUTE: u32 = 2;
const N_SECT: u8 = 0x0e;
const N_EXT: u8 = 0x01;
const N_SO: u8 = 0x64;
const N_OSO: u8 = 0x66;
const N_FUN: u8 = 0x24;
const S_ZEROFILL: u32 = 0x1;
const ID: [u8; 16] = [1, 2, 3, 4, 5, 6, 7, 8, 9, 10, 11, 12, 13, 14, 15, 16];

fn name16(name: &[u8]) -> Vec<u8> {
    let mut v = name.to_vec();
    v.resize(16, 0);
    v
}

fn section(name: &[u8], offset: u32, size: u64, flags: u32) -> Vec<u8> {
    let mut v = name16(name);
    v.extend(name16(b""));
    v.extend(0u64.to_le_bytes());
    v.extend(size.to_le_bytes());
    v.extend(offset.to_le_bytes());
    v.extend(0u32.to_le_bytes());
    v.extend(0u32.to_le_bytes());
    v.extend(0u32.to_le_bytes());
    v.extend(flags.to_le_bytes());
    v.extend([0u8; 12]);
    assert_eq!(v.len(), 80);
    v
}

fn segment(name: &[u8], sections: &[Vec<u8>]) -> Vec<u8> {
    let size = 72 + 80 * sections.len() as u32;
    let mut v = LC_SEGMENT_64.to_le_bytes().to_vec();
    v.extend(size.to_le_bytes());
    v.extend(name16(name));
    v.extend([0u8; 32]);
    v.extend([0u8; 8]);
    v.extend((sections.len() as u32).to_le_bytes());
    v.extend(0u32.to_le_bytes());
    for s in sections {
        v.extend(s.iter());
    }
    assert_eq!(v.len(), size as usize);
    v
}

fn symtab(symoff: u32, nsyms: u32, stroff: u32, strsize: u32) -> Vec<u8> {
    let mut v = LC_SYMTAB.to_le_bytes().to_vec();
    v.extend(24u32.to_le_bytes());
    v.extend(symoff.to_le_bytes());
    v.extend(nsyms.to_le_bytes());
    v.extend(stroff.to_le_bytes());
    v.extend(strsize.to_le_bytes());
    v
}

fn uuid_command(id: [u8; 16]) -> Vec<u8> {
    let mut v = LC_UUID.to_le_bytes().to_vec();
    v.extend(24u32.to_le_bytes());
    v.extend(id);
    v
}

fn nlist(strx: u32, n_type: u8, value: u64) -> Vec<u8> {
    let mut v = strx.to_le_bytes().to_vec();
    v.push(n_type);
    v.push(1);
    v.extend(0u16.to_le_bytes());
    v.extend(value.to_le_bytes());
    v
}

fn image(filetype: u32, commands: &[Vec<u8>], tail: &[u8]) -> Vec<u8> {
    let size: usize = commands.iter().map(|c| c.len()).sum();
    let mut v = 0xfeed_facfu32.to_le_bytes().to_vec();
    v.extend(0x0100_0007u32.to_le_bytes());
    v.extend(3u32.to_le_bytes());
    v.extend(filetype.to_le_bytes());
    v.extend((commands.len() as u32).to_le_bytes());
    v.extend((size as u32).to_le_bytes());
    v.extend(0u32.to_le_bytes());
    v.extend(0u32.to_le_bytes());
    for c in commands {
        v.extend(c.iter());
    }
    v.extend(tail.iter());
    v
}

/// A relocatable object: one anonymous segment with three sections, and a
/// symbol table whose entry `_main` has the address `main_at`.
fn relocatable(main_at: u64) -> Vec<u8> {
    let strings = b"\0_main\0_helper\0_other\0";
    let symbols: Vec<Vec<u8>> = vec![
        nlist(1, N_SECT | N_EXT, main_at),
        nlist(7, N_SECT, 0x100),
        nlist(0, N_SECT, 0x50),
        nlist(15, N_EXT, 0),
        nlist(15, N_SECT, 0x200),
    ];
    let start: u32 = 32 + (72 + 3 * 80) + 24;
    let symoff = start + 4;
    let stroff = symoff + 16 * symbols.len() as u32;
    let commands = vec![
        segment(
            b"",
            &[
                section(b"__debug_info", start, 4, 0),
                section(b"__debug_line", 0, 64, S_ZEROFILL),
                section(b"__debug_far", 0xffff_0000, 16, 0),
            ],
        ),
        symtab(symoff, symbols.len() as u32, stroff, strings.len() as u32),
    ];
    let mut tail = vec![0xde, 0xad, 0xbe, 0xef];
    for s in &symbols {
        tail.extend(s.iter());
    }
    tail.extend(strings.iter());
    image(MH_OBJECT, &commands, &tail)
}

/// A linked image with a `__DWARF` segment, an identifier, and a debug map
/// with one entry: `_main` at 0x1000, 0x20 long, from `/tmp/obj.o`.
fn linked() -> Vec<u8> {
    let strings = b"\0_main\0/tmp/obj.o\0dir/\0";
    let symbols: Vec<Vec<u8>> = vec![
        nlist(18, N_SO, 0),
        nlist(7, N_OSO, 0),
        nlist(1, N_FUN, 0x1000),
        nlist(0, N_FUN, 0x20),
        nlist(0, N_SO, 0),
        nlist(1, N_SECT | N_EXT, 0x1000),
    ];
    let start: u32 = 32 + 72 + (72 + 80) + (72 + 80) + 24 + 24;
    let symoff = start + 2;
    let stroff = symoff + 16 * symbols.len() as u32;
    let commands = vec![
        segment(b"__TEXT", &[]),
        segment(b"__DWARF", &[section(b"__debug_abbrev", start, 2, 0)]),
        segment(b"", &[section(b"__debug_info", start, 1, 0)]),
        uuid_command(ID),
        symtab(symoff, symbols.len() as u32, stroff, strings.len() as u32),
    ];
    let mut tail = vec![0x11, 0x22];
    for s in &symbols {
        tail.extend(s.iter());
    }
    tail.extend(strings.iter());
    image(MH_EXECUTE, &commands, &tail)
}

fn word(big: bool, v: u32) -> [u8; 4] {
    if big {
        v.to_be_bytes()
    } else {
        v.to_le_bytes()
    }
}

/// A relocatable object with a 32-bit header: one anonymous segment with the
/// section `__debug_info`, an identifier, and the symbols `_a` at 0x40 and
/// `_b` at 0x10.
fn narrow_relocatable(big: bool) -> Vec<u8> {
    let strings = b"\0_a\0_b\0";
    let start: u32 = 28 + (56 + 68) + 24 + 24;
    let symoff = start + 3;
    let stroff = symoff + 12 * 2;
    let mut v = word(big, 0xfeed_face).to_vec();
    v.extend(word(big, 12));
    v.extend(word(big, 0));
    v.extend(word(big, MH_OBJECT));
    v.extend(word(big, 3));
    v.extend(word(big, 56 + 68 + 24 + 24));
    v.extend(word(big, 0));
    v.extend(word(big, 0x1));
    v.extend(word(big, 56 + 68));
    v.extend(name16(b""));
    v.extend([0u8; 24]);
    v.extend(word(big, 1));
    v.extend(word(big, 0));
    v.extend(name16(b"__debug_info"));
    v.extend(name16(b""));
    v.extend(word(big, 0));
    v.extend(word(big, 3));
    v.extend(word(big, start));
    v.extend([0u8; 24]);
    v.extend(word(big, LC_UUID));
    v.extend(word(big, 24));
    v.extend(ID);
    v.extend(word(big, LC_SYMTAB));
    v.extend(word(big, 24));
    v.extend(word(big, symoff));
    v.extend(word(big, 2));
    v.extend(word(big, stroff));
    v.extend(word(big, strings.len() as u32));
    assert_eq!(v.len(), start as usize);
    v.extend([7, 8, 9]);
    for (strx, value) in [(1u32, 0x40u32), (4, 0x10)] {
        v.extend(word(big, strx));
        v.extend([N_SECT, 1, 0, 0]);
        v.extend(word(big, value));
    }
    v.extend(strings.iter());
    v
}

fn fat(wide: bool, slices: &[(u32, Vec<u8>)], announced: u32) -> Vec<u8> {
    let magic: u32 = if wide { 0xcafe_babf } else { 0xcafe_babe };
    let step = if wide { 32 } else { 20 };
    let mut v = magic.to_be_bytes().to_vec();
    v.extend(announced.to_be_bytes());
    let mut offset = 8 + step * slices.len();
    for (cpu, bytes) in slices {
        v.extend(cpu.to_be_bytes());
        v.extend(0u32.to_be_bytes());
        if wide {
            v.extend((offset as u64).to_be_bytes());
            v.extend((bytes.len() as u64).to_be_bytes());
            v.extend(0u32.to_be_bytes());
            v.extend(0u32.to_be_bytes());
        } else {
            v.extend((offset as u32).to_be_bytes());
            v.extend((bytes.len() as u32).to_be_bytes());
            v.extend(0u32.to_be_bytes());
        }
        offset += bytes.len();
    }
    for (_, bytes) in slices {
        v.extend(bytes.iter());
    }
    v
}

fn member(name: &[u8], data: &[u8]) -> Vec<u8> {
    let mut v = name.to_vec();
    v.push(b'/');
    v.resize(16, b' ');
    v.extend(format!("{:<12}{:<6}{:<6}{:<8}{:<10}", 0, 0, 0, 644, data.len()).bytes());
    v.extend(b"`\n");
    assert_eq!(v.len(), 60);
    v.extend(data.iter());
    if data.len() % 2 == 1 {
        v.push(b'\n');
    }
    v
}

fn names(object: &Object) -> Vec<(Vec<u8>, u64)> {
    object.symbol_list().clone()
}

#[test]
fn big_endian_reads() {
    let data = [0x12, 0x34, 0x56, 0x78, 0x9a, 0xbc, 0xde, 0xf0, 0xff];
    assert_eq!(read_be32(&data, 0), 0x1234_5678);
    assert_eq!(read_be32(&data, 5), 0xbcde_f0ff);
    assert_eq!(read_be64(&data, 0), 0x1234_5678_9abc_def0);
}

#[test]
fn thin_image_is_the_whole_file() {
    let data = relocatable(0x300);
    let header = find_header(&data, None).unwrap();
    assert_eq!(header, ThinImage { start: 0, len: data.len(), wide: true, filetype: MH_OBJECT });
    assert!(header.is_relocatable());
    assert_eq!(thin_image(&data, Some(CPU_TYPE_ARM)).unwrap(), &data[..]);
}

#[test]
fn linked_image_is_not_relocatable() {
    let data = linked();
    let header = find_header(&data, None).unwrap();
    assert_eq!(header.filetype, MH_EXECUTE);
    assert!(!header.is_relocatable());
}

#[test]
fn big_endian_header_is_read() {
    let mut data = 0xfeed_facfu32.to_be_bytes().to_vec();
    data.extend(7u32.to_be_bytes());
    data.extend(3u32.to_be_bytes());
    data.extend(MH_OBJECT.to_be_bytes());
    data.extend([0u8; 16]);
    let header = find_header(&data, None).unwrap();
    assert_eq!(header, ThinImage { start: 0, len: 32, wide: true, filetype: MH_OBJECT });
    let object = Object::parse(&data).unwrap();
    assert!(object.symbol_list().is_empty());
    assert!(object.section_table().is_none());
    assert!(object.map_table().is_none());
}

#[test]
fn unknown_magic_is_refused() {
    assert!(find_header(b"", None).is_none());
    assert!(find_header(b"\xcf\xfa\xed", None).is_none());
    assert!(find_header(&[0u8; 64], Some(CPU_TYPE_X86_64)).is_none());
    assert!(find_header(b"!<arch>\n1234567890123456789012345678901234567890", None).is_none());
}

#[test]
fn short_header_is_refused() {
    let data = relocatable(0x300);
    assert!(find_header(&data[..31], None).is_none());
    assert!(find_header(&data[..32], None).is_some());
    assert!(Object::parse(&data[..31]).is_none());
    let narrow = narrow_relocatable(false);
    assert!(find_header(&narrow[..27], None).is_none());
    assert!(find_header(&narrow[..28], None).is_some());
}

#[test]
fn narrow_image_is_read() {
    let data = narrow_relocatable(false);
    let header = find_header(&data, None).unwrap();
    assert_eq!(header, ThinImage { start: 0, len: data.len(), wide: false, filetype: MH_OBJECT });
    let object = Object::parse(&data).unwrap();
    assert_eq!(names(&object), vec![(b"_b".to_vec(), 0x10), (b"_a".to_vec(), 0x40)]);
    assert_eq!(object.search_symtab(0x3f), Some(&b"_b"[..]));
    assert_eq!(object.search_symtab(0xf), None);
    assert_eq!(object.section(".debug_info"), Some(&[7, 8, 9][..]));
    assert_eq!(object.section(".debug_line"), None);
    assert!(object.map_table().is_none());
    assert_eq!(image_uuid(&data, None), Some(ID));
}

#[test]
fn narrow_big_endian_image_is_read() {
    let data = narrow_relocatable(true);
    let header = find_header(&data, None).unwrap();
    assert_eq!(header, ThinImage { start: 0, len: data.len(), wide: false, filetype: MH_OBJECT });
    let object = Object::parse(&data).unwrap();
    assert_eq!(names(&object), vec![(b"_b".to_vec(), 0x10), (b"_a".to_vec(), 0x40)]);
    assert_eq!(object.section("__debug_info"), Some(&[7, 8, 9][..]));
    assert_eq!(examine_candidate(&data, None, &ID), Candidate::Match);
}

#[test]
fn narrow_slice_of_a_fat_file() {
    let thin = narrow_relocatable(false);
    let data = fat(false, &[(CPU_TYPE_ARM, thin.clone()), (CPU_TYPE_ARM64, relocatable(0x300))], 2);
    let object = Object::load(&data, Some(CPU_TYPE_ARM)).unwrap();
    assert_eq!(object.image_bytes(), &thin[..]);
    assert_eq!(object.search_symtab(0x40), Some(&b"_a"[..]));
    let object = Object::load(&data, Some(CPU_TYPE_ARM64)).unwrap();
    assert_eq!(object.search_symtab(0x300), Some(&b"_main"[..]));
}

#[test]
fn fat_selects_the_slice_of_the_cpu() {
    let thin = relocatable(0x300);
    let junk = vec![0xaau8; 40];
    let data = fat(false, &[(CPU_TYPE_ARM64, junk.clone()), (CPU_TYPE_X86_64, thin.clone())], 2);
    let header = find_header(&data, Some(CPU_TYPE_X86_64)).unwrap();
    assert_eq!(header, ThinImage { start: 48 + 40, len: thin.len(), wide: true, filetype: MH_OBJECT });
    assert_eq!(thin_image(&data, Some(CPU_TYPE_X86_64)).unwrap(), &thin[..]);
    assert_eq!(find_slice(&data, false, Some(CPU_TYPE_ARM64)), Some((48, 40)));
    assert!(find_header(&data, Some(CPU_TYPE_ARM64)).is_none());
    assert!(find_header(&data, Some(CPU_TYPE_ARM)).is_none());
    assert!(find_header(&data, None).is_none());
}

#[test]
fn fat_with_wide_offsets() {
    let thin = linked();
    let data = fat(true, &[(CPU_TYPE_ARM, vec![1, 2, 3]), (CPU_TYPE_ARM64, thin.clone())], 2);
    let header = find_header(&data, Some(CPU_TYPE_ARM64)).unwrap();
    assert_eq!(header, ThinImage { start: 72 + 3, len: thin.len(), wide: true, filetype: MH_EXECUTE });
    assert_eq!(find_slice(&data, true, Some(CPU_TYPE_ARM)), Some((72, 3)));
    assert_eq!(find_slice(&data, true, Some(CPU_TYPE_X86_64)), None);
}

#[test]
fn fat_takes_the_first_of_two_slices_for_one_cpu() {
    let data = fat(false, &[(CPU_TYPE_ARM, vec![1; 4]), (CPU_TYPE_ARM, vec![2; 6])], 2);
    assert_eq!(find_slice(&data, false, Some(CPU_TYPE_ARM)), Some((48, 4)));
}

#[test]
fn fat_reads_no_more_descriptors_than_announced_or_present() {
    let thin = relocatable(0x300);
    let slices = [(CPU_TYPE_ARM64, vec![0u8; 8]), (CPU_TYPE_X86_64, thin)];
    let one = fat(false, &slices, 1);
    assert_eq!(find_slice(&one, false, Some(CPU_TYPE_X86_64)), None);
    let many = fat(false, &slices[..1], 0xffff_ffff);
    assert_eq!(find_slice(&many, false, Some(CPU_TYPE_ARM64)), Some((28, 8)));
    assert_eq!(find_slice(&many[..27], false, Some(CPU_TYPE_ARM64)), None);
}

#[test]
fn fat_slice_outside_the_file_is_refused() {
    let data = fat(false, &[(CPU_TYPE_ARM64, vec![0u8; 8])], 1);
    assert_eq!(find_slice(&data[..35], false, Some(CPU_TYPE_ARM64)), None);
    assert!(find_header(&data[..35], Some(CPU_TYPE_ARM64)).is_none());
    assert_eq!(find_slice(&data[..4], false, Some(CPU_TYPE_ARM64)), None);
}

#[test]
fn symbols_are_selected_and_sorted() {
    let data = relocatable(0x300);
    let object = Object::parse(&data).unwrap();
    assert_eq!(
        names(&object),
        vec![(b"_helper".to_vec(), 0x100), (b"_other".to_vec(), 0x200), (b"_main".to_vec(), 0x300)]
    );
    assert!(object.map_table().is_none());
    assert!(object.slot(0).is_none());
    assert_eq!(object.image_bytes(), &data[..]);
}

#[test]
fn symbol_is_found_by_the_greatest_address_below() {
    let data = relocatable(0x300);
    let object = Object::parse(&data).unwrap();
    assert_eq!(object.search_symtab(0), None);
    assert_eq!(object.search_symtab(0xff), None);
    assert_eq!(object.search_symtab(0x100), Some(&b"_helper"[..]));
    assert_eq!(object.search_symtab(0x1ff), Some(&b"_helper"[..]));
    assert_eq!(object.search_symtab(0x200), Some(&b"_other"[..]));
    assert_eq!(object.search_symtab(0x2ff), Some(&b"_other"[..]));
    assert_eq!(object.search_symtab(0x300), Some(&b"_main"[..]));
    assert_eq!(object.search_symtab(u64::MAX), Some(&b"_main"[..]));
}

#[test]
fn symbols_at_one_address() {
    let data = relocatable(0x200);
    let object = Object::parse(&data).unwrap();
    let found = object.search_symtab(0x250).unwrap();
    assert!(found == b"_main" || found == b"_other");
    assert_eq!(object.search_symtab(0x1ff), Some(&b"_helper"[..]));
}

#[test]
fn empty_symbol_table_finds_nothing() {
    let data = image(MH_OBJECT, &[], &[]);
    let object = Object::parse(&data).unwrap();
    assert_eq!(object.search_symtab(0), None);
    assert_eq!(object.search_symtab(u64::MAX), None);
    assert_eq!(object.section(".debug_info"), None);
}

#[test]
fn section_by_native_and_by_dotted_name() {
    let data = relocatable(0x300);
    let object = Object::parse(&data).unwrap();
    let native = object.section("__debug_info").unwrap();
    let dotted = object.section(".debug_info").unwrap();
    assert_eq!(native, &[0xde, 0xad, 0xbe, 0xef]);
    assert_eq!(native, dotted);
    assert_eq!(object.section(".debug_str"), None);
    assert_eq!(object.section("debug_info"), None);
    assert_eq!(object.section("_.debug_info"), None);
    assert_eq!(object.section(""), None);
}

#[test]
fn section_without_bytes_or_outside_the_image() {
    let data = relocatable(0x300);
    let object = Object::parse(&data).unwrap();
    assert_eq!(object.section(".debug_line"), Some(&[][..]));
    assert_eq!(object.section(".debug_far"), None);
}

#[test]
fn linked_image_takes_the_dwarf_segment_only() {
    let data = linked();
    let object = Object::parse(&data).unwrap();
    assert_eq!(object.section(".debug_abbrev"), Some(&[0x11, 0x22][..]));
    assert_eq!(object.section(".debug_info"), None);
    assert_eq!(names(&object), vec![(b"_main".to_vec(), 0x1000)]);
}

#[test]
fn later_dwarf_segment_replaces_the_earlier() {
    let commands = vec![
        segment(b"__DWARF", &[section(b"__debug_info", 0, 4, 0)]),
        segment(b"__DWARF", &[section(b"__debug_str", 0, 2, 0)]),
    ];
    let data = image(MH_EXECUTE, &commands, &[]);
    let object = Object::parse(&data).unwrap();
    assert_eq!(object.section(".debug_info"), None);
    assert_eq!(object.section(".debug_str"), Some(&[0xcf, 0xfa][..]));
}

#[test]
fn malformed_command_fails_the_scan() {
    let mut short = LC_SEGMENT_64.to_le_bytes().to_vec();
    short.extend(8u32.to_le_bytes());
    let data = image(MH_OBJECT, &[short], &[]);
    assert!(find_header(&data, None).is_some());
    assert!(Object::parse(&data).is_none());
    let data = image(MH_OBJECT, &[symtab(0xffff, 4, 0, 0)], &[]);
    assert!(Object::parse(&data).is_none());
    let mut cut = LC_SYMTAB.to_le_bytes().to_vec();
    cut.extend(8u32.to_le_bytes());
    let data = image(MH_OBJECT, &[cut], &[]);
    assert!(Object::parse(&data).is_none());
}

#[test]
fn command_that_cannot_be_read_fails_the_scan() {
    let mut data = image(MH_OBJECT, &[uuid_command(ID)], &[]);
    assert!(Object::parse(&data).is_some());
    data[16] = 5;
    assert!(Object::parse(&data).is_none());
    let mut data = relocatable(0x300);
    data[20] = 0xff;
    data[21] = 0xff;
    assert!(Object::parse(&data).is_none());
}

#[test]
fn unreadable_symbol_name_fails_the_scan() {
    let mut tail = nlist(1000, N_SECT, 0x10);
    tail.extend(b"\0_a\0");
    let data = image(MH_OBJECT, &[symtab(32 + 24, 1, 32 + 24 + 16, 4)], &tail);
    assert!(Object::parse(&data).is_none());
    let mut tail = nlist(1, N_SECT, 0x10);
    tail.extend(b"\0_a\0");
    let data = image(MH_OBJECT, &[symtab(32 + 24, 1, 32 + 24 + 16, 4)], &tail);
    let object = Object::parse(&data).unwrap();
    assert_eq!(names(&object), vec![(b"_a".to_vec(), 0x10)]);
    let mut tail = nlist(1, N_SECT, 0x10);
    tail.extend(b"\0_a_");
    let data = image(MH_OBJECT, &[symtab(32 + 24, 1, 32 + 24 + 16, 4)], &tail);
    assert!(Object::parse(&data).is_none());
}

#[test]
fn unreadable_section_table_fails_the_scan() {
    let mut data = image(MH_EXECUTE, &[segment(b"__DWARF", &[])], &[]);
    assert!(Object::parse(&data).is_some());
    data[32 + 64] = 5;
    assert!(Object::parse(&data).is_none());
    let mut data = image(MH_EXECUTE, &[segment(b"__TEXT", &[])], &[]);
    data[32 + 64] = 5;
    assert!(Object::parse(&data).is_some());
    let mut data = image(MH_EXECUTE, &[segment(b"", &[])], &[]);
    data[32 + 64] = 5;
    assert!(Object::parse(&data).is_some());
    data[12] = MH_OBJECT as u8;
    assert!(Object::parse(&data).is_none());
}

#[test]
fn debug_map_is_read_from_a_linked_image() {
    let data = linked();
    let object = Object::parse(&data).unwrap();
    let (command, paths) = object.map_table().unwrap();
    assert_eq!(*command, 4);
    assert_eq!(paths, &vec![b"/tmp/obj.o".to_vec()]);
    let entry = (b"_main".to_vec(), 0x1000u64, 0x20u64, 0usize);
    assert!(matches!(object.slot(0), Some(Slot::Unresolved)));
    assert!(object.slot(1).is_none());
    assert_eq!(object.map_entry(0x1000), Some(entry.clone()));
    assert_eq!(object.map_entry(0x101f), Some(entry));
    assert_eq!(object.map_entry(0x1020), None);
    assert_eq!(object.map_entry(0xfff), None);
}

#[test]
fn address_is_translated_once_the_object_is_recorded() {
    let data = linked();
    let other = relocatable(0x300);
    let mut object = Object::parse(&data).unwrap();
    assert_eq!(object.search_object_map(0x1010), None);
    assert_eq!(object.pending_object(0x1010), Some((0, &b"/tmp/obj.o"[..])));
    assert_eq!(object.pending_object(0x1020), None);
    assert_eq!(object.pending_object(0x10), None);
    object.record_object(0, Object::parse(&other));
    assert_eq!(object.pending_object(0x1010), None);
    assert_eq!(object.search_object_map(0x1010), Some((0, 0x310)));
    assert_eq!(object.search_object_map(0x1000), Some((0, 0x300)));
    assert_eq!(object.search_object_map(0x1020), None);
    assert_eq!(object.search_object_map(0xfff), None);
}

#[test]
fn first_outcome_of_an_object_stays() {
    let data = linked();
    let other = relocatable(0x300);
    let moved = relocatable(0x700);
    let mut object = Object::parse(&data).unwrap();
    object.record_object(0, Object::parse(&other));
    object.record_object(0, None);
    assert_eq!(object.search_object_map(0x1004), Some((0, 0x304)));
    object.record_object(0, Object::parse(&moved));
    assert_eq!(object.search_object_map(0x1004), Some((0, 0x304)));
    object.record_object(7, None);
    assert_eq!(object.search_object_map(0x1004), Some((0, 0x304)));
    assert_eq!(object.pending_object(0x1004), None);
}

#[test]
fn failed_object_is_not_tried_again() {
    let data = linked();
    let other = relocatable(0x300);
    let mut object = Object::parse(&data).unwrap();
    object.record_object(0, None);
    assert!(matches!(object.slot(0), Some(Slot::Failed)));
    assert_eq!(object.pending_object(0x1010), None);
    assert_eq!(object.search_object_map(0x1010), None);
    object.record_object(0, Object::parse(&other));
    assert!(matches!(object.slot(0), Some(Slot::Failed)));
    assert_eq!(object.search_object_map(0x1010), None);
}

#[test]
fn object_without_the_symbol_gives_no_translation() {
    let data = linked();
    let bare = image(MH_OBJECT, &[], &[]);
    let mut object = Object::parse(&data).unwrap();
    object.record_object(0, Object::parse(&bare));
    assert!(matches!(object.slot(0), Some(Slot::Resolved(_))));
    assert_eq!(object.search_object_map(0x1010), None);
}

#[test]
fn translation_goes_round_at_the_end_of_the_range() {
    let data = linked();
    let other = relocatable(u64::MAX - 3);
    let mut object = Object::parse(&data).unwrap();
    object.record_object(0, Object::parse(&other));
    assert_eq!(object.search_object_map(0x1003), Some((0, u64::MAX)));
    assert_eq!(object.search_object_map(0x1004), Some((0, 0)));
    assert_eq!(object.search_object_map(0x1010), Some((0, 12)));
}

#[test]
fn load_parses_the_slice_of_a_fat_file() {
    let thin = relocatable(0x300);
    let data = fat(false, &[(CPU_TYPE_ARM64, linked()), (CPU_TYPE_X86_64, thin.clone())], 2);
    let object = Object::load(&data, Some(CPU_TYPE_X86_64)).unwrap();
    assert_eq!(object.image_bytes(), &thin[..]);
    assert_eq!(object.search_symtab(0x300), Some(&b"_main"[..]));
    assert_eq!(object.section(".debug_info"), Some(&[0xde, 0xad, 0xbe, 0xef][..]));
    let object = Object::load(&data, Some(CPU_TYPE_ARM64)).unwrap();
    assert_eq!(object.search_symtab(0x300), None);
    assert!(Object::load(&data, Some(CPU_TYPE_ARM)).is_none());
    assert!(Object::load(b"bar.o", None).is_none());
}

#[test]
fn identifier_is_read_from_the_image() {
    assert_eq!(image_uuid(&linked(), None), Some(ID));
    assert_eq!(image_uuid(&relocatable(0x300), None), None);
    assert_eq!(image_uuid(b"no image", None), None);
    let data = fat(false, &[(CPU_TYPE_ARM, linked())], 1);
    assert_eq!(image_uuid(&data, Some(CPU_TYPE_ARM)), Some(ID));
    assert_eq!(image_uuid(&data, Some(CPU_TYPE_ARM64)), None);
}

#[test]
fn candidate_is_compared_by_identifier() {
    let data = linked();
    assert_eq!(examine_candidate(&data, None, &ID), Candidate::Match);
    let mut other = ID;
    other[15] = 0;
    assert_eq!(examine_candidate(&data, None, &other), Candidate::Other);
    assert_eq!(examine_candidate(&relocatable(0x300), None, &ID), Candidate::Unreadable);
    assert_eq!(examine_candidate(b"", None, &ID), Candidate::Unreadable);
}

#[test]
fn member_of_an_archive_is_found_by_name() {
    let thin = relocatable(0x300);
    let mut data = b"!<arch>\n".to_vec();
    data.extend(member(b"foo.o", b"abc"));
    data.extend(member(b"bar.o", &thin));
    data.extend(member(b"bar.o", b"second"));
    assert_eq!(archive_member(&data, b"foo.o"), Some(b"abc".to_vec()));
    assert_eq!(archive_member(&data, b"bar.o"), Some(thin.clone()));
    assert_eq!(archive_member(&data, b"baz.o"), None);
    assert_eq!(archive_member(&data, b""), None);
    assert_eq!(archive_member(&thin, b"bar.o"), None);
    assert_eq!(archive_member(b"!<arch>\n", b"bar.o"), None);
    let found = archive_member(&data, b"bar.o").unwrap();
    let object = Object::load(&found, None).unwrap();
    assert_eq!(object.search_symtab(0x100), Some(&b"_helper"[..]));
}

#[test]
fn members_after_a_broken_one_are_not_seen() {
    let mut data = b"!<arch>\n".to_vec();
    data.extend(member(b"foo.o", b"abcd"));
    let mut broken = member(b"mid.o", b"wxyz");
    broken[59] = b'!';
    data.extend(broken);
    data.extend(member(b"bar.o", b"last"));
    assert_eq!(archive_member(&data, b"foo.o"), Some(b"abcd".to_vec()));
    assert_eq!(archive_member(&data, b"bar.o"), None);
}

#[test]
fn kept_symbols_have_a_name_and_define_something() {
    let raw = vec![
        (Some(b"b".to_vec()), true, 9u64),
        (None, true, 1),
        (Some(Vec::new()), true, 2),
        (Some(b"a".to_vec()), false, 3),
        (Some(b"a".to_vec()), true, 4),
    ];
    assert_eq!(select_symbols(&raw), None);
    let raw = vec![
        (Some(b"b".to_vec()), true, 9u64),
        (Some(Vec::new()), true, 2),
        (Some(b"a".to_vec()), false, 3),
        (Some(b"a".to_vec()), true, 4),
    ];
    assert_eq!(select_symbols(&raw), Some(vec![(b"b".to_vec(), 9), (b"a".to_vec(), 4)]));
    assert_eq!(select_symbols(&Vec::new()), Some(Vec::new()));
}

#[test]
fn floor_of_sorted_addresses() {
    let symbols = vec![(b"a".to_vec(), 10u64), (b"b".to_vec(), 20), (b"c".to_vec(), 20), (b"d".to_vec(), 30)];
    assert_eq!(floor_symbol(&symbols, 9), None);
    assert_eq!(floor_symbol(&symbols, 10), Some(0));
    assert_eq!(floor_symbol(&symbols, 19), Some(0));
    assert_eq!(floor_symbol(&symbols, 20), Some(2));
    assert_eq!(floor_symbol(&symbols, 29), Some(2));
    assert_eq!(floor_symbol(&symbols, 31), Some(3));
    assert_eq!(floor_symbol(&Vec::new(), 31), None);
}

#[test]
fn names_are_compared_byte_by_byte() {
    assert!(matches_name(b"__debug_info", b".debug_info"));
    assert!(matches_name(b"__debug_info", b"__debug_info"));
    assert!(matches_name(b".debug_info", b".debug_info"));
    assert!(matches_name(b"__", b"."));
    assert!(matches_name(b"", b""));
    assert!(!matches_name(b".debug_info", b"__debug_info"));
    assert!(!matches_name(b"__debug_info", b".debug_inf"));
    assert!(!matches_name(b"_debug_info", b".debug_info"));
    assert!(!matches_name(b"__debug_info", b"_debug_info"));
    assert!(tails_equal(b"xxabc", 2, b"yabc", 1));
    assert!(!tails_equal(b"xxabc", 2, b"yabd", 1));
    assert!(tails_equal(b"ab", 2, b"", 0));
    assert!(bytes_equal(b"ab", b"ab"));
    assert!(!bytes_equal(b"ab", b"abc"));
    assert!(bytes_equal(b"", b""));
    let symbols = vec![(b"a".to_vec(), 1u64), (b"b".to_vec(), 2), (b"b".to_vec(), 3)];
    assert_eq!(find_symbol(&symbols, b"b"), Some(1));
    assert_eq!(find_symbol(&symbols, b"c"), None);
}

#[test]
fn images_of_different_files_share_nothing() {
    let first = linked();
    let second = linked();
    let other = relocatable(0x300);
    let mut a = Object::parse(&first).unwrap();
    let b = Object::parse(&second).unwrap();
    a.record_object(0, Object::parse(&other));
    assert_eq!(a.search_object_map(0x1010), Some((0, 0x310)));
    assert!(matches!(b.slot(0), Some(Slot::Unresolved)));
    assert_eq!(b.pending_object(0x1010), Some((0, &b"/tmp/obj.o"[..])));
    drop(a);
    drop(first);
    assert_eq!(b.search_symtab(0x1000), Some(&b"_main"[..]));
    assert_eq!(b.section(".debug_abbrev"), Some(&[0x11, 0x22][..]));
    assert_eq!(b.search_object_map(0x1010), None);
}

fn run(events: &[Event]) -> (Search, Vec<Action>) {
    let mut state = Search::start(None);
    let mut actions = Vec::new();
    for event in events {
        let (next, action) = resolve_step(state, *event);
        state = next;
        actions.push(action);
    }
    (state, actions)
}

#[test]
fn binary_without_identifier_fails_the_search() {
    let plain = relocatable(0x300);
    let (state, actions) = run(&[Event::Target(Some(&plain))]);
    assert_eq!(actions, vec![Action::Fail]);
    assert_eq!(state.phase, Phase::Failed);
    let (_, actions) = run(&[Event::Target(None), Event::EndOfDirectory]);
    assert_eq!(actions, vec![Action::Fail, Action::Fail]);
    let (_, actions) = run(&[Event::EndOfDirectory]);
    assert_eq!(actions, vec![Action::Fail]);
}

#[test]
fn matching_file_of_a_bundle_is_built_from() {
    let target = linked();
    let mut other = linked();
    let at = other.windows(16).position(|w| w == ID).unwrap();
    other[at] = 0xff;
    let events = [
        Event::Target(Some(&target)),
        Event::Entry(Some(b"notes.txt")),
        Event::Entry(None),
        Event::Entry(Some(b"app.dSYM")),
        Event::Opened(Some(&other)),
        Event::Opened(Some(&target)),
        Event::Built(true),
        Event::EndOfDirectory,
    ];
    let (state, actions) = run(&events);
    assert_eq!(state.uuid, ID);
    assert_eq!(state.phase, Phase::Resolved);
    assert_eq!(
        actions,
        vec![
            Action::NextEntry,
            Action::NextEntry,
            Action::NextEntry,
            Action::NextCandidate,
            Action::NextCandidate,
            Action::BuildFromCandidate,
            Action::Done,
            Action::Done,
        ]
    );
}

#[test]
fn search_falls_back_to_the_binary() {
    let target = linked();
    let plain = relocatable(0x300);
    let events = [
        Event::Target(Some(&target)),
        Event::Entry(Some(b"a.dSYM")),
        Event::Opened(Some(&plain)),
        Event::Opened(None),
        Event::EndOfBundle,
        Event::Entry(Some(b"c.dSYM")),
        Event::ListingFailed,
        Event::Entry(Some(b"d.dSYM")),
        Event::Opened(Some(&target)),
        Event::Built(false),
        Event::EndOfBundle,
        Event::EndOfDirectory,
        Event::Built(true),
    ];
    let (state, actions) = run(&events);
    assert_eq!(state.phase, Phase::Resolved);
    assert_eq!(
        actions,
        vec![
            Action::NextEntry,
            Action::NextCandidate,
            Action::NextCandidate,
            Action::NextCandidate,
            Action::NextEntry,
            Action::NextCandidate,
            Action::NextEntry,
            Action::NextCandidate,
            Action::BuildFromCandidate,
            Action::NextCandidate,
            Action::NextEntry,
            Action::BuildFromTarget,
            Action::Done,
        ]
    );
    let (state, actions) = run(&[Event::Target(Some(&target)), Event::ListingFailed, Event::Built(false)]);
    assert_eq!(actions, vec![Action::NextEntry, Action::BuildFromTarget, Action::Fail]);
    assert_eq!(state.phase, Phase::Failed);
}

#[test]
fn unreadable_file_does_not_end_its_bundle() {
    let target = linked();
    let plain = relocatable(0x300);
    let mut other = linked();
    let at = other.windows(16).position(|w| w == ID).unwrap();
    other[at] = 0xff;
    let events = [
        Event::Target(Some(&target)),
        Event::Entry(Some(b"app.dSYM")),
        Event::Opened(None),
        Event::Opened(Some(&plain)),
        Event::Opened(Some(b"no image")),
        Event::Opened(Some(&other)),
        Event::Opened(Some(&target)),
        Event::Built(true),
    ];
    let (state, actions) = run(&events);
    assert_eq!(state.phase, Phase::Resolved);
    assert_eq!(
        actions,
        vec![
            Action::NextEntry,
            Action::NextCandidate,
            Action::NextCandidate,
            Action::NextCandidate,
            Action::NextCandidate,
            Action::NextCandidate,
            Action::BuildFromCandidate,
            Action::Done,
        ]
    );
    let (state, actions) = run(&events[..3]);
    assert_eq!(state.phase, Phase::Bundle);
    assert_eq!(actions[2], Action::NextCandidate);
}

#[test]
fn bundle_is_known_by_its_suffix() {
    assert!(has_bundle_name(b"app.dSYM"));
    assert!(has_bundle_name(b".dSYM"));
    assert!(!has_bundle_name(b"dSYM"));
    assert!(!has_bundle_name(b"app.dsym"));
    assert!(!has_bundle_name(b"app.dSYM.zip"));
    assert!(!has_bundle_name(b""));
}

#[test]
fn many_empty_commands_are_scanned_in_one_pass() {
    let mut junk = 0u32.to_le_bytes().to_vec();
    junk.extend(0u32.to_le_bytes());
    let mut data = image(MH_OBJECT, &[junk], &[]);
    data[16..20].copy_from_slice(&200_000u32.to_le_bytes());
    let object = Object::parse(&data).unwrap();
    assert!(object.symbol_list().is_empty());
    assert!(object.section_table().is_none());
    assert_eq!(image_uuid(&data, None), None);
}
