//! Finding the thin image in a file: either the file itself, or the slice of a
//! universal (fat) container that was built for the wanted CPU.

use crate::reader::{
    be32, read_header, thin_header, MH_CIGAM, MH_CIGAM_64, MH_MAGIC, MH_MAGIC_64,
};
use vstd::prelude::*;

verus! {

/// Magic number of a fat container with 32-bit offsets.
pub const FAT_MAGIC: u32 = 0xcafe_babe;

/// `FAT_MAGIC` in the other byte order.
pub const FAT_CIGAM: u32 = 0xbeba_feca;

/// Magic number of a fat container with 64-bit offsets.
pub const FAT_MAGIC_64: u32 = 0xcafe_babf;

/// `FAT_MAGIC_64` in the other byte order.
pub const FAT_CIGAM_64: u32 = 0xbfba_feca;

/// CPU type of 32-bit x86.
pub const CPU_TYPE_X86: u32 = 7;

/// CPU type of x86-64.
pub const CPU_TYPE_X86_64: u32 = 0x0100_0007;

/// CPU type of 32-bit ARM.
pub const CPU_TYPE_ARM: u32 = 12;

/// CPU type of 64-bit ARM.
pub const CPU_TYPE_ARM64: u32 = 0x0100_000c;

/// File type of a relocatable object, an unlinked compiled unit.
pub const MH_OBJECT: u32 = 1;

/// Size of the header of a fat container: magic number and slice count.
pub const FAT_HEADER_SIZE: usize = 8;

/// A thin image inside a file: where its bytes are, and the file type that its
/// header records.
#[derive(Clone, Copy, Debug, PartialEq, Eq, Structural)]
pub struct ThinImage {
    /// Where the image starts in the file.
    pub start: usize,
    /// How many bytes it has.
    pub len: usize,
    /// Whether its header is a 64-bit header.
    pub wide: bool,
    /// The file type that its header records.
    pub filetype: u32,
}

impl ThinImage {
    /// The image's bytes, cut out of the file's.
    pub open spec fn bytes(self, data: Seq<u8>) -> Seq<u8> {
        data.subrange(self.start as int, self.start + self.len)
    }

    /// The image is an unlinked compiled unit.
    pub open spec fn relocatable(self) -> bool {
        self.filetype == MH_OBJECT
    }

    /// Whether the image is an unlinked compiled unit.
    pub fn is_relocatable(&self) -> (r: bool)
        ensures
            r == self.relocatable(),
    {
        self.filetype == MH_OBJECT
    }
}

/// `magic` announces a thin image, of either width and byte order.
pub open spec fn is_thin_magic(magic: u32) -> bool {
    magic == MH_MAGIC || magic == MH_CIGAM || magic == MH_MAGIC_64 || magic == MH_CIGAM_64
}

/// `magic` announces a fat container with 32-bit offsets.
pub open spec fn is_fat_magic(magic: u32) -> bool {
    magic == FAT_MAGIC || magic == FAT_CIGAM
}

/// `magic` announces a fat container with 64-bit offsets.
pub open spec fn is_wide_fat_magic(magic: u32) -> bool {
    magic == FAT_MAGIC_64 || magic == FAT_CIGAM_64
}

/// Size of one slice descriptor: 20 bytes with 32-bit offsets, 32 with 64-bit.
pub open spec fn arch_size(wide: bool) -> int {
    if wide {
        32
    } else {
        20
    }
}

/// Where descriptor `i` starts.
pub open spec fn arch_at(wide: bool, i: int) -> int {
    if wide {
        FAT_HEADER_SIZE + i * 32
    } else {
        FAT_HEADER_SIZE + i * 20
    }
}

/// Descriptor `i` lies within the file.
pub open spec fn arch_fits(data: Seq<u8>, wide: bool, i: int) -> bool {
    arch_at(wide, i + 1) <= data.len()
}

/// The CPU type of descriptor `i`. The fields of a container are big-endian.
pub open spec fn arch_cpu(data: Seq<u8>, wide: bool, i: int) -> u32 {
    be32(data, arch_at(wide, i))
}

/// The offset of slice `i` in the file.
pub open spec fn arch_offset(data: Seq<u8>, wide: bool, i: int) -> int {
    if wide {
        be32(data, arch_at(wide, i) + 8) * 0x1_0000_0000 + be32(data, arch_at(wide, i) + 12)
    } else {
        be32(data, arch_at(wide, i) + 8) as int
    }
}

/// The length of slice `i`.
pub open spec fn arch_len(data: Seq<u8>, wide: bool, i: int) -> int {
    if wide {
        be32(data, arch_at(wide, i) + 16) * 0x1_0000_0000 + be32(data, arch_at(wide, i) + 20)
    } else {
        be32(data, arch_at(wide, i) + 12) as int
    }
}

/// The first descriptor from `from` on, among the `count` that the container
/// announces and as far as they lie within the file, whose CPU type is `cpu`.
pub open spec fn first_match(data: Seq<u8>, wide: bool, cpu: u32, from: int, count: int) -> Option<
    int,
>
    decreases count - from,
{
    if from >= count || !arch_fits(data, wide, from) {
        None
    } else if arch_cpu(data, wide, from) == cpu {
        Some(from)
    } else {
        first_match(data, wide, cpu, from + 1, count)
    }
}

/// The byte range (offset, length) of the slice of a fat container that was
/// built for `cpu`. `None` where no descriptor names `cpu`, or where the
/// chosen slice does not lie within the file.
pub open spec fn fat_slice(data: Seq<u8>, wide: bool, cpu: Option<u32>) -> Option<(int, int)> {
    if data.len() < FAT_HEADER_SIZE || cpu is None {
        None
    } else {
        match first_match(data, wide, cpu.unwrap(), 0, be32(data, 4) as int) {
            None => None,
            Some(i) => if arch_offset(data, wide, i) + arch_len(data, wide, i) <= data.len() {
                Some((arch_offset(data, wide, i), arch_len(data, wide, i)))
            } else {
                None
            },
        }
    }
}

/// The byte range of the thin image in `data`: all of it under a thin magic
/// number, one slice under a fat one, nothing under any other.
pub open spec fn thin_range(data: Seq<u8>, cpu: Option<u32>) -> Option<(int, int)> {
    if data.len() < 4 {
        None
    } else if is_thin_magic(be32(data, 0)) {
        Some((0, data.len() as int))
    } else if is_fat_magic(be32(data, 0)) {
        fat_slice(data, false, cpu)
    } else if is_wide_fat_magic(be32(data, 0)) {
        fat_slice(data, true, cpu)
    } else {
        None
    }
}

/// The thin image of `data`: its range, provided that a thin header stands
/// there, and that header's width and file type.
pub open spec fn header_of(data: Seq<u8>, cpu: Option<u32>) -> Option<ThinImage> {
    match thin_range(data, cpu) {
        None => None,
        Some((start, len)) => match thin_header(data.subrange(start, start + len)) {
            None => None,
            Some((wide, filetype)) => Some(
                ThinImage { start: start as usize, len: len as usize, wide, filetype },
            ),
        },
    }
}

/// `a` and `b` hold the same bytes from `from` up to `to`.
pub open spec fn agree(a: Seq<u8>, b: Seq<u8>, from: int, to: int) -> bool {
    forall|k: int| from <= k < to ==> a[k] == b[k]
}

/// Where the header and the descriptors of a fat container end: after the
/// number of descriptors announced, or at the end of the file.
pub open spec fn table_end(data: Seq<u8>, wide: bool) -> int {
    if arch_at(wide, be32(data, 4) as int) <= data.len() {
        arch_at(wide, be32(data, 4) as int)
    } else {
        data.len() as int
    }
}

/// The descriptor that is selected is one of those announced, lies within the
/// file, names `cpu`, and is the first to do so.
pub proof fn lemma_first_match_selects(data: Seq<u8>, wide: bool, cpu: u32, from: int, count: int)
    requires
        0 <= from,
    ensures
        first_match(data, wide, cpu, from, count) matches Some(i) ==> {
            &&& from <= i < count
            &&& arch_fits(data, wide, i)
            &&& arch_cpu(data, wide, i) == cpu
            &&& forall|j: int| from <= j < i ==> arch_cpu(data, wide, j) != cpu
        },
    decreases count - from,
{
    if from < count && arch_fits(data, wide, from) && arch_cpu(data, wide, from) != cpu {
        lemma_first_match_selects(data, wide, cpu, from + 1, count);
    }
}

/// Which descriptor is selected depends on the descriptors alone.
pub proof fn lemma_first_match_reads_table(
    a: Seq<u8>,
    b: Seq<u8>,
    wide: bool,
    cpu: u32,
    from: int,
    count: int,
)
    requires
        0 <= from,
        a.len() == b.len(),
        forall|k: int| 0 <= k < a.len() && k < arch_at(wide, count) ==> a[k] == b[k],
    ensures
        first_match(a, wide, cpu, from, count) == first_match(b, wide, cpu, from, count),
    decreases count - from,
{
    if from < count && arch_fits(a, wide, from) {
        assert(arch_at(wide, from + 1) <= arch_at(wide, count));
        assert(arch_cpu(a, wide, from) == arch_cpu(b, wide, from));
        if arch_cpu(a, wide, from) != cpu {
            lemma_first_match_reads_table(a, b, wide, cpu, from + 1, count);
        }
    }
}

/// In a fat container the slice that is taken is the one of the first
/// descriptor that names the wanted CPU.
pub proof fn lemma_slice_is_for_cpu(data: Seq<u8>, wide: bool, cpu: Option<u32>)
    ensures
        fat_slice(data, wide, cpu) matches Some((start, len)) ==> cpu is Some && exists|i: int|
            {
                &&& 0 <= i < be32(data, 4)
                &&& arch_fits(data, wide, i)
                &&& #[trigger] arch_cpu(data, wide, i) == cpu.unwrap()
                &&& start == arch_offset(data, wide, i)
                &&& len == arch_len(data, wide, i)
                &&& forall|j: int| 0 <= j < i ==> arch_cpu(data, wide, j) != cpu.unwrap()
            },
{
    if let Some(c) = cpu {
        lemma_first_match_selects(data, wide, c, 0, be32(data, 4) as int);
    }
}

/// What is found in a fat container depends on its header, its descriptors
/// and the bytes of the selected slice alone: two containers that agree on
/// those give the same result, whatever their other slices hold.
pub proof fn lemma_other_slices_not_read(a: Seq<u8>, b: Seq<u8>, cpu: Option<u32>)
    requires
        a.len() == b.len(),
        a.len() >= FAT_HEADER_SIZE,
        is_fat_magic(be32(a, 0)) || is_wide_fat_magic(be32(a, 0)),
        agree(a, b, 0, table_end(a, is_wide_fat_magic(be32(a, 0)))),
        thin_range(a, cpu) matches Some((start, len)) ==> agree(a, b, start, start + len),
    ensures
        thin_range(a, cpu) == thin_range(b, cpu),
        header_of(a, cpu) == header_of(b, cpu),
{
    let wide = is_wide_fat_magic(be32(a, 0));
    assert(table_end(a, wide) >= FAT_HEADER_SIZE);
    assert(be32(a, 0) == be32(b, 0));
    assert(be32(a, 4) == be32(b, 4));
    if let Some(c) = cpu {
        let count = be32(a, 4) as int;
        lemma_first_match_reads_table(a, b, wide, c, 0, count);
        lemma_first_match_selects(a, wide, c, 0, count);
        if let Some(i) = first_match(a, wide, c, 0, count) {
            assert(arch_at(wide, i + 1) <= arch_at(wide, count));
            assert(arch_offset(a, wide, i) == arch_offset(b, wide, i));
            assert(arch_len(a, wide, i) == arch_len(b, wide, i));
        }
    }
    assert(thin_range(a, cpu) == thin_range(b, cpu));
    if let Some((start, len)) = thin_range(a, cpu) {
        assert(a.subrange(start, start + len) =~= b.subrange(start, start + len));
    }
}

/// Reads four bytes at `at` as a big-endian number.
pub fn read_be32(data: &[u8], at: usize) -> (r: u32)
    requires
        at + 4 <= data@.len(),
    ensures
        r == be32(data@, at as int),
{
    let b0: u32 = data[at] as u32;
    let b1: u32 = data[at + 1] as u32;
    let b2: u32 = data[at + 2] as u32;
    let b3: u32 = data[at + 3] as u32;
    b0 * 0x100_0000 + b1 * 0x1_0000 + b2 * 0x100 + b3
}

/// Reads eight bytes at `at` as a big-endian number.
pub fn read_be64(data: &[u8], at: usize) -> (r: u64)
    requires
        at + 8 <= data@.len(),
    ensures
        r == be32(data@, at as int) * 0x1_0000_0000 + be32(data@, at + 4),
{
    let n: usize = data.len();
    assert(at + 8 <= n);
    let high: u64 = read_be32(data, at) as u64;
    let low: u64 = read_be32(data, at + 4) as u64;
    high * 0x1_0000_0000 + low
}

/// Looks through the descriptors of a fat container for the slice built for
/// `cpu` and returns its byte range. Descriptors are read in order and only as
/// far as needed; the bytes of the slices themselves are not read.
pub fn find_slice(data: &[u8], wide: bool, cpu: Option<u32>) -> (r: Option<(usize, usize)>)
    ensures
        match fat_slice(data@, wide, cpu) {
            None => r is None,
            Some((start, len)) => r == Some((start as usize, len as usize)) && start + len
                <= data@.len(),
        },
{
    let n: usize = data.len();
    if n < FAT_HEADER_SIZE {
        return None;
    }
    let wanted: u32 = match cpu {
        None => {
            return None;
        },
        Some(c) => c,
    };
    let count: u32 = read_be32(data, 4);
    let step: usize = if wide {
        32
    } else {
        20
    };
    let mut i: u32 = 0;
    let mut at: usize = FAT_HEADER_SIZE;
    while i < count && n - at >= step
        invariant
            n == data@.len(),
            n >= FAT_HEADER_SIZE,
            cpu == Some(wanted),
            count == be32(data@, 4),
            step == arch_size(wide),
            at == arch_at(wide, i as int),
            at <= n,
            i <= count,
            first_match(data@, wide, wanted, 0, count as int) == first_match(
                data@,
                wide,
                wanted,
                i as int,
                count as int,
            ),
        decreases count - i,
    {
        if read_be32(data, at) == wanted {
            let (offset, len): (u64, u64) = if wide {
                (read_be64(data, at + 8), read_be64(data, at + 16))
            } else {
                (read_be32(data, at + 8) as u64, read_be32(data, at + 12) as u64)
            };
            if offset > n as u64 || len > n as u64 - offset {
                return None;
            }
            return Some((offset as usize, len as usize));
        }
        i += 1;
        at += step;
    }
    None
}

/// Finds the thin image in the bytes of a file.
///
/// A file that starts with a thin magic number is one image. A fat container
/// yields the slice whose CPU type is `cpu`, the architecture of the running
/// process, and nothing when there is no such slice or `cpu` is unknown. The
/// result is `Some` only where a thin header stands at the start of the range.
pub fn find_header(data: &[u8], cpu: Option<u32>) -> (r: Option<ThinImage>)
    ensures
        r == header_of(data@, cpu),
        r matches Some(image) ==> image.start + image.len <= data@.len(),
{
    if data.len() < 4 {
        return None;
    }
    let magic: u32 = read_be32(data, 0);
    let range: Option<(usize, usize)> = if magic == MH_MAGIC || magic == MH_CIGAM || magic
        == MH_MAGIC_64 || magic == MH_CIGAM_64 {
        Some((0, data.len()))
    } else if magic == FAT_MAGIC || magic == FAT_CIGAM {
        find_slice(data, false, cpu)
    } else if magic == FAT_MAGIC_64 || magic == FAT_CIGAM_64 {
        find_slice(data, true, cpu)
    } else {
        None
    };
    match range {
        None => None,
        Some((start, len)) => {
            let image = vstd::slice::slice_subrange(data, start, start + len);
            match read_header(image) {
                None => None,
                Some((wide, filetype)) => Some(ThinImage { start, len, wide, filetype }),
            }
        },
    }
}

/// The bytes of the thin image in the bytes of a file.
pub fn thin_image(data: &[u8], cpu: Option<u32>) -> (r: Option<&[u8]>)
    ensures
        r is Some <==> header_of(data@, cpu) is Some,
        r matches Some(image) ==> image@ == header_of(data@, cpu).unwrap().bytes(data@),
{
    let n: usize = data.len();
    match find_header(data, cpu) {
        None => None,
        Some(image) => {
            assert(image.start + image.len <= n);
            Some(vstd::slice::slice_subrange(data, image.start, image.start + image.len))
        },
    }
}

} // verus!
