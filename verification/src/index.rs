//! Looking things up in a parsed image: a DWARF section by its name, and the
//! symbol that an address falls into.

use crate::object::{Object, SectionModel, SymbolModel};
use crate::reader::{symbols_sorted, SectionEntry, Symbol};
use vstd::prelude::*;
use vstd::slice::slice_subrange;
use vstd::string::StringSliceAdditionalSpecFns;

verus! {

/// The byte `_`.
pub const UNDERSCORE: u8 = 0x5f;

/// The byte `.`.
pub const DOT: u8 = 0x2e;

/// A section stored as `section` answers to `name`: the two are equal, or
/// `section` starts with `__`, `name` with `.`, and the rest is the same.
pub open spec fn name_matches(section: Seq<u8>, name: Seq<u8>) -> bool {
    section == name || {
        &&& section.len() >= 2
        &&& section[0] == UNDERSCORE
        &&& section[1] == UNDERSCORE
        &&& name.len() >= 1
        &&& name[0] == DOT
        &&& section.subrange(2, section.len() as int) == name.subrange(1, name.len() as int)
    }
}

/// The first section from `from` on that answers to `name`.
pub open spec fn position_of(sections: Seq<SectionModel>, name: Seq<u8>, from: int) -> Option<int>
    decreases sections.len() - from,
{
    if from >= sections.len() {
        None
    } else if name_matches(sections[from].0, name) {
        Some(from)
    } else {
        position_of(sections, name, from + 1)
    }
}

/// The bytes of `image` in `range`; nothing for a section without bytes in the
/// image; `None` where the range does not lie within the image.
pub open spec fn bytes_in(image: Seq<u8>, range: Option<(u64, u64)>) -> Option<Seq<u8>> {
    match range {
        None => Some(Seq::empty()),
        Some((offset, len)) => if offset + len <= image.len() {
            Some(image.subrange(offset as int, offset + len))
        } else {
            None
        },
    }
}

/// The bytes of the first section of the table that answers to `name`.
pub open spec fn section_bytes(
    image: Seq<u8>,
    sections: Option<Seq<SectionModel>>,
    name: Seq<u8>,
) -> Option<Seq<u8>> {
    match sections {
        None => None,
        Some(table) => match position_of(table, name, 0) {
            None => None,
            Some(i) => bytes_in(image, table[i].1),
        },
    }
}

/// `index` is the last symbol whose address is at most `addr`.
pub open spec fn is_floor(symbols: Seq<SymbolModel>, addr: u64, index: int) -> bool {
    &&& 0 <= index < symbols.len()
    &&& symbols[index].1 <= addr
    &&& index + 1 < symbols.len() ==> symbols[index + 1].1 > addr
}

/// The name as stored of the section whose name without prefix is `rest`.
pub open spec fn native_name(rest: Seq<u8>) -> Seq<u8> {
    seq![UNDERSCORE, UNDERSCORE] + rest
}

/// The generic name of the section whose name without prefix is `rest`.
pub open spec fn dotted_name(rest: Seq<u8>) -> Seq<u8> {
    seq![DOT] + rest
}

/// Where section `index` answers to `name` and none of those from `from` up to
/// it does, `index` is the section found from `from` on.
pub proof fn lemma_position_found(
    sections: Seq<SectionModel>,
    name: Seq<u8>,
    from: int,
    index: int,
)
    requires
        0 <= from <= index < sections.len(),
        name_matches(sections[index].0, name),
        forall|j: int| from <= j < index ==> !name_matches(sections[j].0, name),
    ensures
        position_of(sections, name, from) == Some(index),
    decreases index - from,
{
    if from < index {
        lemma_position_found(sections, name, from + 1, index);
    }
}

/// Where no section from `from` on answers to `name`, none is found.
pub proof fn lemma_position_absent(sections: Seq<SectionModel>, name: Seq<u8>, from: int)
    requires
        0 <= from,
        forall|j: int| from <= j < sections.len() ==> !name_matches(sections[j].0, name),
    ensures
        position_of(sections, name, from) is None,
    decreases sections.len() - from,
{
    if from < sections.len() {
        lemma_position_absent(sections, name, from + 1);
    }
}

/// A section stored under its native name is found under that name and under
/// its generic name alike, with the same bytes, provided that no earlier
/// section of the table is stored under either of the two names.
pub proof fn lemma_dotted_finds_native(
    image: Seq<u8>,
    sections: Seq<SectionModel>,
    rest: Seq<u8>,
    index: int,
)
    requires
        0 <= index < sections.len(),
        sections[index].0 == native_name(rest),
        forall|j: int|
            0 <= j < index ==> sections[j].0 != native_name(rest) && sections[j].0 != dotted_name(
                rest,
            ),
    ensures
        position_of(sections, native_name(rest), 0) == Some(index),
        position_of(sections, dotted_name(rest), 0) == Some(index),
        section_bytes(image, Some(sections), dotted_name(rest)) == section_bytes(
            image,
            Some(sections),
            native_name(rest),
        ),
        section_bytes(image, Some(sections), native_name(rest)) == bytes_in(
            image,
            sections[index].1,
        ),
{
    let native = native_name(rest);
    let dotted = dotted_name(rest);
    assert(native.subrange(2, native.len() as int) =~= rest);
    assert(dotted.subrange(1, dotted.len() as int) =~= rest);
    assert(name_matches(native, dotted));
    assert forall|j: int| 0 <= j < index implies !name_matches(sections[j].0, native)
        && !name_matches(sections[j].0, dotted) by {
        let stored = sections[j].0;
        if name_matches(stored, dotted) {
            assert(stored =~= native);
        }
    }
    lemma_position_found(sections, native, 0, index);
    lemma_position_found(sections, dotted, 0, index);
}

/// A name that no section of the table answers to gives nothing, and so does
/// any name where there is no table.
pub proof fn lemma_absent_section(image: Seq<u8>, sections: Option<Seq<SectionModel>>, name: Seq<u8>)
    requires
        sections matches Some(table) ==> forall|j: int|
            0 <= j < table.len() ==> !name_matches(table[j].0, name),
    ensures
        section_bytes(image, sections, name) is None,
{
    if let Some(table) = sections {
        lemma_position_absent(table, name, 0);
    }
}

/// Whether `a` from `from_a` on holds the same bytes as `b` from `from_b` on.
pub fn tails_equal(a: &[u8], from_a: usize, b: &[u8], from_b: usize) -> (r: bool)
    requires
        from_a <= a@.len(),
        from_b <= b@.len(),
    ensures
        r == (a@.subrange(from_a as int, a@.len() as int) == b@.subrange(
            from_b as int,
            b@.len() as int,
        )),
{
    let ghost left = a@.subrange(from_a as int, a@.len() as int);
    let ghost right = b@.subrange(from_b as int, b@.len() as int);
    if a.len() - from_a != b.len() - from_b {
        assert(left.len() != right.len());
        return false;
    }
    let n: usize = a.len() - from_a;
    let mut i: usize = 0;
    while i < n
        invariant
            i <= n,
            a@.len() <= usize::MAX,
            b@.len() <= usize::MAX,
            n == a@.len() - from_a,
            n == b@.len() - from_b,
            left == a@.subrange(from_a as int, a@.len() as int),
            right == b@.subrange(from_b as int, b@.len() as int),
            forall|j: int| 0 <= j < i ==> left[j] == right[j],
        decreases n - i,
    {
        if a[from_a + i] != b[from_b + i] {
            assert(left[i as int] != right[i as int]);
            return false;
        }
        i += 1;
    }
    assert(left =~= right);
    true
}

/// Whether `a` and `b` hold the same bytes.
pub fn bytes_equal(a: &[u8], b: &[u8]) -> (r: bool)
    ensures
        r == (a@ == b@),
{
    let r = tails_equal(a, 0, b, 0);
    assert(a@.subrange(0, a@.len() as int) =~= a@);
    assert(b@.subrange(0, b@.len() as int) =~= b@);
    r
}

/// Whether a section stored as `section` answers to `name`.
pub fn matches_name(section: &[u8], name: &[u8]) -> (r: bool)
    ensures
        r == name_matches(section@, name@),
{
    if bytes_equal(section, name) {
        return true;
    }
    section.len() >= 2 && section[0] == UNDERSCORE && section[1] == UNDERSCORE && name.len() >= 1
        && name[0] == DOT && tails_equal(section, 2, name, 1)
}

/// The position of the last symbol whose address is at most `addr`.
pub fn floor_symbol(symbols: &Vec<Symbol>, addr: u64) -> (r: Option<usize>)
    requires
        symbols_sorted(symbols.deep_view()),
    ensures
        match r {
            Some(i) => is_floor(symbols.deep_view(), addr, i as int),
            None => forall|j: int| 0 <= j < symbols@.len() ==> symbols.deep_view()[j].1 > addr,
        },
{
    let ghost model = symbols.deep_view();
    let mut low: usize = 0;
    let mut high: usize = symbols.len();
    while low < high
        invariant
            low <= high <= symbols@.len(),
            model == symbols.deep_view(),
            symbols_sorted(model),
            forall|j: int| 0 <= j < low ==> model[j].1 <= addr,
            forall|j: int| high <= j < symbols@.len() ==> model[j].1 > addr,
        decreases high - low,
    {
        let middle: usize = low + (high - low) / 2;
        assert(model[middle as int].1 == symbols@[middle as int].1);
        if symbols[middle].1 <= addr {
            low = middle + 1;
        } else {
            high = middle;
        }
    }
    if low == 0 {
        None
    } else {
        Some(low - 1)
    }
}

impl<'a> Object<'a> {
    /// The bytes of the DWARF section called `name`.
    ///
    /// `name` may be the name as stored (`__debug_info`) or the generic form
    /// with a leading dot (`.debug_info`). The first section of the table
    /// that answers to it is taken. `None` where the image has no DWARF
    /// table, no section answers, or the section's range does not lie within
    /// the image.
    pub fn section(&self, name: &str) -> (r: Option<&'a [u8]>)
        ensures
            r is Some <==> section_bytes(self.image(), self.sections(), name.spec_bytes()) is Some,
            r matches Some(bytes) ==> section_bytes(
                self.image(),
                self.sections(),
                name.spec_bytes(),
            ) == Some(bytes@),
    {
        let wanted = name.as_bytes();
        let data: &'a [u8] = self.image_bytes();
        match self.section_table() {
            None => None,
            Some(table) => {
                let ghost model = table.deep_view();
                let mut i: usize = 0;
                while i < table.len()
                    invariant
                        i <= table@.len(),
                        model == table.deep_view(),
                        self.sections() == Some(model),
                        wanted@ == name.spec_bytes(),
                        data@ == self.image(),
                        position_of(model, wanted@, 0) == position_of(model, wanted@, i as int),
                    decreases table@.len() - i,
                {
                    let entry: &SectionEntry = &table[i];
                    assert(model[i as int] == entry.deep_view());
                    assert(entry.0.deep_view() =~= entry.0@);
                    if matches_name(entry.0.as_slice(), wanted) {
                        return match entry.1 {
                            None => Some(slice_subrange(data, 0, 0)),
                            Some((offset, len)) => {
                                let n: u64 = data.len() as u64;
                                if offset > n || len > n - offset {
                                    None
                                } else {
                                    let start: usize = offset as usize;
                                    let end: usize = (offset + len) as usize;
                                    Some(slice_subrange(data, start, end))
                                }
                            },
                        };
                    }
                    i += 1;
                }
                None
            },
        }
    }

    /// The name of the symbol that `addr` falls into: the last symbol whose
    /// address is at most `addr`. `None` where `addr` lies below every symbol.
    pub fn search_symtab<'b>(&'b self, addr: u64) -> (r: Option<&'b [u8]>)
        requires
            self.wf(),
        ensures
            match r {
                Some(name) => exists|i: int|
                    {
                        &&& is_floor(self.symbols(), addr, i)
                        &&& name@ == #[trigger] self.symbols()[i].0
                        &&& forall|j: int|
                            0 <= j < self.symbols().len() && self.symbols()[j].1 <= addr
                                ==> self.symbols()[j].1 <= self.symbols()[i].1
                    },
                None => forall|j: int|
                    0 <= j < self.symbols().len() ==> self.symbols()[j].1 > addr,
            },
    {
        let symbols = self.symbol_list();
        match floor_symbol(symbols, addr) {
            None => None,
            Some(i) => {
                let name = symbols[i].0.as_slice();
                proof {
                    let model = self.symbols();
                    assert(symbols@[i as int].0.deep_view() =~= name@);
                    assert(model[i as int].0 == name@);
                    assert forall|j: int| 0 <= j < model.len() && model[j].1 <= addr implies model[j].1
                        <= model[i as int].1 by {
                        if j > i {
                            assert(model[i + 1].1 <= model[j].1);
                        }
                    }
                }
                Some(name)
            },
        }
    }
}

} // verus!
