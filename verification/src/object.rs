//! The parsed form of a thin image: its DWARF section table, its symbols
//! sorted by address, and, for a linked image, its debug map with one cache
//! slot for each object that the map refers to.

use crate::container::MH_OBJECT;
use crate::reader::{
    macho_object_paths, macho_segments, macho_symbol_tables, object_paths_at, read_header,
    segments_of, sort_by_address, symbol_tables_of, symbols_sorted, thin_header, DebugMap,
    RawSymbol, SectionEntry, SegmentEntry, Symbol,
};
use vstd::prelude::*;
use vstd::slice::slice_to_vec;

verus! {

/// A section as a plain value: its name and the range of its bytes.
pub type SectionModel = (Seq<u8>, Option<(u64, u64)>);

/// A stored symbol-table entry as a plain value: name, whether it defines
/// something, value.
pub type RawSymbolModel = (Option<Seq<u8>>, bool, u64);

/// A symbol as a plain value: name and address.
pub type SymbolModel = (Seq<u8>, u64);

/// An entry of the debug map as a plain value: name, address, size, object.
pub type MapEntryModel = (Seq<u8>, u64, u64, usize);

/// A debug map as a plain value: the index of the load command that it comes
/// from, and the paths of its objects.
pub type DebugMapModel = (usize, Seq<Seq<u8>>);

/// The name of the segment that holds the DWARF sections: `__DWARF`.
pub open spec fn dwarf_segment_name() -> Seq<u8> {
    seq![0x5fu8, 0x5fu8, 0x44u8, 0x57u8, 0x41u8, 0x52u8, 0x46u8]
}

/// What one cache slot knows of the object it stands for.
pub enum Slot {
    /// Nobody has asked for the object yet.
    Unresolved,
    /// The object could not be read; it is not tried again.
    Failed,
    /// The object was read: its symbols, sorted by address.
    Resolved(Vec<Symbol>),
}

/// A cache slot as a plain value.
pub enum SlotModel {
    Unresolved,
    Failed,
    Resolved(Seq<SymbolModel>),
}

impl View for Slot {
    type V = SlotModel;

    open spec fn view(&self) -> SlotModel {
        match self {
            Slot::Unresolved => SlotModel::Unresolved,
            Slot::Failed => SlotModel::Failed,
            Slot::Resolved(symbols) => SlotModel::Resolved(symbols.deep_view()),
        }
    }
}

/// The slots after the outcome of reading object `index` has been recorded. A
/// slot changes only while it is unresolved: the first outcome stays.
pub open spec fn recorded(
    slots: Seq<SlotModel>,
    index: int,
    outcome: Option<Seq<SymbolModel>>,
) -> Seq<SlotModel> {
    if 0 <= index < slots.len() && slots[index] == SlotModel::Unresolved {
        slots.update(
            index,
            match outcome {
                None => SlotModel::Failed,
                Some(symbols) => SlotModel::Resolved(symbols),
            },
        )
    } else {
        slots
    }
}

/// What a scan of the load commands has gathered.
pub struct Scan {
    /// Whether the image has a 64-bit header.
    pub wide: bool,
    /// The section table of the DWARF segment scanned last.
    pub dwarf: Option<Seq<SectionModel>>,
    /// The symbols of the symbol table scanned last, in stored order.
    pub symbols: Seq<SymbolModel>,
    /// The debug map of the symbol table scanned last, in a linked image.
    pub debug_map: Option<DebugMapModel>,
}

/// Every entry of the symbol table has a name that can be read.
pub open spec fn names_readable(raw: Seq<RawSymbolModel>) -> bool {
    forall|i: int| 0 <= i < raw.len() ==> (#[trigger] raw[i]).0 is Some
}

/// A symbol-table entry is kept when its name is not empty and it defines
/// something.
pub open spec fn is_kept(entry: RawSymbolModel) -> bool {
    entry.0 is Some && entry.0.unwrap().len() > 0 && entry.1
}

/// The entries among the first `n` of `raw` that are kept, in stored order,
/// each as name and address.
pub open spec fn kept_symbols(raw: Seq<RawSymbolModel>, n: nat) -> Seq<SymbolModel>
    decreases n,
{
    if n == 0 {
        Seq::empty()
    } else if is_kept(raw[n - 1]) {
        kept_symbols(raw, (n - 1) as nat).push((raw[n - 1].0.unwrap(), raw[n - 1].2))
    } else {
        kept_symbols(raw, (n - 1) as nat)
    }
}

/// A segment's section table is taken as the DWARF table when the segment is
/// called `__DWARF`, or, in a relocatable object, has no name.
pub open spec fn holds_dwarf(name: Seq<u8>, relocatable: bool) -> bool {
    name == dwarf_segment_name() || (relocatable && name.len() == 0)
}

/// A segment command as a plain value: the segment's name and its section
/// table.
pub type SegmentModel = (Seq<u8>, Option<Seq<SectionModel>>);

/// The DWARF section table that the first `n` load commands give: the table
/// of the last segment among them that holds the DWARF sections, if there is
/// one. `None` where the table of such a segment cannot be read.
pub open spec fn dwarf_of(segments: Seq<Option<SegmentModel>>, relocatable: bool, n: nat) -> Option<
    Option<Seq<SectionModel>>,
>
    decreases n,
{
    if n == 0 {
        Some(None)
    } else {
        match dwarf_of(segments, relocatable, (n - 1) as nat) {
            None => None,
            Some(before) => match segments[n - 1] {
                None => Some(before),
                Some(segment) => if !holds_dwarf(segment.0, relocatable) {
                    Some(before)
                } else if segment.1 is None {
                    None
                } else {
                    Some(segment.1)
                },
            },
        }
    }
}

/// The symbols that the first `n` load commands give: the index of the last
/// symbol-table command among them and the entries of its table that are
/// kept, if there is one. `None` where a table has an entry whose name
/// cannot be read.
pub open spec fn symbols_of(tables: Seq<Option<Seq<RawSymbolModel>>>, n: nat) -> Option<
    Option<(usize, Seq<SymbolModel>)>,
>
    decreases n,
{
    if n == 0 {
        Some(None)
    } else {
        match symbols_of(tables, (n - 1) as nat) {
            None => None,
            Some(before) => match tables[n - 1] {
                None => Some(before),
                Some(raw) => if !names_readable(raw) {
                    None
                } else {
                    Some(Some(((n - 1) as usize, kept_symbols(raw, raw.len()))))
                },
            },
        }
    }
}

/// What the scan makes of the DWARF table and the symbols found. In a linked
/// image the last symbol table also gives the debug map.
pub open spec fn scan_of(
    image: Seq<u8>,
    wide: bool,
    relocatable: bool,
    dwarf: Option<Seq<SectionModel>>,
    found: Option<(usize, Seq<SymbolModel>)>,
) -> Option<Scan> {
    match found {
        None => Some(Scan { wide, dwarf, symbols: Seq::empty(), debug_map: None }),
        Some((index, symbols)) => if relocatable {
            Some(Scan { wide, dwarf, symbols, debug_map: None })
        } else {
            match macho_object_paths(image, wide, index) {
                None => None,
                Some(paths) => Some(Scan { wide, dwarf, symbols, debug_map: Some((index, paths)) }),
            }
        },
    }
}

/// What a scan of all load commands of `image` gives; `None` where `image` has
/// no thin header, or anything on the way cannot be read: a command, the
/// section table of a segment that holds the DWARF sections, a symbol table,
/// or the name of one of its entries.
pub open spec fn scan_image(image: Seq<u8>) -> Option<Scan> {
    match thin_header(image) {
        None => None,
        Some((wide, filetype)) => match (
            macho_segments(image, wide),
            macho_symbol_tables(image, wide),
        ) {
            (Some(segments), Some(tables)) => match (
                dwarf_of(segments, filetype == MH_OBJECT, segments.len()),
                symbols_of(tables, tables.len()),
            ) {
                (Some(dwarf), Some(found)) => scan_of(
                    image,
                    wide,
                    filetype == MH_OBJECT,
                    dwarf,
                    found,
                ),
                _ => None,
            },
            _ => None,
        },
    }
}

/// A failure among the first commands is a failure of the whole scan.
pub proof fn lemma_dwarf_stays_failed(
    segments: Seq<Option<SegmentModel>>,
    relocatable: bool,
    failed: nat,
    n: nat,
)
    requires
        failed <= n,
        dwarf_of(segments, relocatable, failed) is None,
    ensures
        dwarf_of(segments, relocatable, n) is None,
    decreases n,
{
    if failed < n {
        lemma_dwarf_stays_failed(segments, relocatable, failed, (n - 1) as nat);
    }
}

/// A failure among the first symbol tables is a failure of the whole scan.
pub proof fn lemma_symbols_stay_failed(
    tables: Seq<Option<Seq<RawSymbolModel>>>,
    failed: nat,
    n: nat,
)
    requires
        failed <= n,
        symbols_of(tables, failed) is None,
    ensures
        symbols_of(tables, n) is None,
    decreases n,
{
    if failed < n {
        lemma_symbols_stay_failed(tables, failed, (n - 1) as nat);
    }
}

/// `n` cache slots, none of them resolved.
fn unresolved_slots(n: usize) -> (r: Vec<Slot>)
    ensures
        r@.len() == n,
        forall|i: int| 0 <= i < n ==> r@[i]@ == SlotModel::Unresolved,
{
    let mut slots: Vec<Slot> = Vec::new();
    while slots.len() < n
        invariant
            slots@.len() <= n,
            forall|i: int| 0 <= i < slots@.len() ==> slots@[i]@ == SlotModel::Unresolved,
        decreases n - slots@.len(),
    {
        slots.push(Slot::Unresolved);
    }
    slots
}

/// Copies the bytes of a name.
fn copy_name(name: &Vec<u8>) -> (r: Vec<u8>)
    ensures
        r@ == name@,
        r.deep_view() == name@,
{
    let r = slice_to_vec(name.as_slice());
    assert(r.deep_view() =~= r@);
    r
}

/// Whether `name` is `__DWARF`.
fn is_dwarf_name(name: &Vec<u8>) -> (r: bool)
    ensures
        r == (name@ == dwarf_segment_name()),
{
    if name.len() != 7 {
        return false;
    }
    let r = name[0] == 0x5f && name[1] == 0x5f && name[2] == 0x44 && name[3] == 0x57 && name[4]
        == 0x41 && name[5] == 0x52 && name[6] == 0x46;
    if r {
        assert(name@ =~= dwarf_segment_name());
    }
    r
}

/// Keeps the symbol-table entries that have a non-empty name and define
/// something, in stored order. `None` where an entry has a name that cannot be
/// read.
pub fn select_symbols(raw: &Vec<RawSymbol>) -> (r: Option<Vec<Symbol>>)
    ensures
        r is Some <==> names_readable(raw.deep_view()),
        r matches Some(kept) ==> kept.deep_view() == kept_symbols(raw.deep_view(), raw@.len()),
{
    let mut out: Vec<Symbol> = Vec::new();
    let mut i: usize = 0;
    assert(out.deep_view() =~= Seq::empty());
    while i < raw.len()
        invariant
            i <= raw@.len(),
            forall|j: int| 0 <= j < i ==> raw.deep_view()[j].0 is Some,
            out.deep_view() == kept_symbols(raw.deep_view(), i as nat),
        decreases raw@.len() - i,
    {
        let ghost before = out.deep_view();
        let entry = &raw[i];
        assert(raw.deep_view()[i as int] == entry.deep_view());
        match &entry.0 {
            Some(name) => {
                assert(name.deep_view() =~= name@);
                if name.len() > 0 && entry.1 {
                    let copy = copy_name(name);
                    out.push((copy, entry.2));
                    assert(out.deep_view() =~= before.push((name@, entry.2)));
                }
            },
            None => {
                return None;
            },
        }
        i += 1;
    }
    Some(out)
}

/// Picks the DWARF section table out of the load commands: the table of the
/// last segment that holds the DWARF sections. The outer `None` says that the
/// table of such a segment cannot be read.
pub fn select_dwarf(segments: Vec<Option<SegmentEntry>>, relocatable: bool) -> (r: Option<
    Option<Vec<SectionEntry>>,
>)
    ensures
        r.deep_view() == dwarf_of(segments.deep_view(), relocatable, segments@.len()),
{
    let ghost model = segments.deep_view();
    let mut list = segments;
    let mut last: Option<usize> = None;
    let mut i: usize = 0;
    while i < list.len()
        invariant
            i <= list@.len(),
            model == list.deep_view(),
            model == segments.deep_view(),
            last matches Some(k) ==> k < i && model[k as int] is Some && model[k as int].unwrap().1
                is Some,
            dwarf_of(model, relocatable, i as nat) == Some(
                match last {
                    None => None,
                    Some(k) => model[k as int].unwrap().1,
                },
            ),
        decreases list@.len() - i,
    {
        assert(model[i as int] == list@[i as int].deep_view());
        match &list[i] {
            None => {},
            Some(segment) => {
                assert(segment.0.deep_view() =~= segment.0@);
                if is_dwarf_name(&segment.0) || (relocatable && segment.0.len() == 0) {
                    if segment.1.is_none() {
                        proof {
                            lemma_dwarf_stays_failed(
                                model,
                                relocatable,
                                (i + 1) as nat,
                                model.len(),
                            );
                        }
                        return None;
                    }
                    last = Some(i);
                }
            },
        }
        i += 1;
    }
    match last {
        None => Some(None),
        Some(k) => {
            let segment = list.swap_remove(k);
            match segment {
                Some(found) => Some(found.1),
                None => Some(None),
            }
        },
    }
}

/// Picks the symbols out of the load commands: the kept entries of the last
/// symbol table, with the index of its command. The outer `None` says that a
/// table has an entry whose name cannot be read.
pub fn select_table(tables: &Vec<Option<Vec<RawSymbol>>>) -> (r: Option<
    Option<(usize, Vec<Symbol>)>,
>)
    ensures
        r.deep_view() == symbols_of(tables.deep_view(), tables@.len()),
{
    let ghost model = tables.deep_view();
    let mut last: Option<(usize, Vec<Symbol>)> = None;
    let mut i: usize = 0;
    while i < tables.len()
        invariant
            i <= tables@.len(),
            model == tables.deep_view(),
            symbols_of(model, i as nat) == Some(last.deep_view()),
        decreases tables@.len() - i,
    {
        assert(model[i as int] == tables@[i as int].deep_view());
        match &tables[i] {
            None => {},
            Some(raw) => {
                match select_symbols(raw) {
                    None => {
                        proof {
                            lemma_symbols_stay_failed(model, (i + 1) as nat, model.len());
                        }
                        return None;
                    },
                    Some(kept) => {
                        last = Some((i, kept));
                    },
                }
            },
        }
        i += 1;
    }
    Some(last)
}

/// A parsed thin image.
///
/// The image's bytes are borrowed; sections are kept as ranges into them and
/// cut out when asked for.
pub struct Object<'a> {
    data: &'a [u8],
    wide: bool,
    dwarf: Option<Vec<SectionEntry>>,
    syms: Vec<Symbol>,
    object_map: Option<DebugMap>,
    object_mappings: Vec<Slot>,
}

impl<'a> Object<'a> {
    /// The bytes of the image.
    pub closed spec fn image(&self) -> Seq<u8> {
        self.data@
    }

    /// Whether the image has a 64-bit header.
    pub closed spec fn wide(&self) -> bool {
        self.wide
    }

    /// The DWARF section table, where a segment gave one.
    pub closed spec fn sections(&self) -> Option<Seq<SectionModel>> {
        self.dwarf.deep_view()
    }

    /// The symbols, in the order in which they are kept.
    pub closed spec fn symbols(&self) -> Seq<SymbolModel> {
        self.syms.deep_view()
    }

    /// The debug map, in a linked image that has one.
    pub closed spec fn debug_map(&self) -> Option<DebugMapModel> {
        self.object_map.deep_view()
    }

    /// The cache slots, one for each object of the debug map.
    pub closed spec fn slots(&self) -> Seq<SlotModel> {
        Seq::new(self.object_mappings@.len(), |i: int| self.object_mappings@[i]@)
    }

    /// How many objects the debug map refers to.
    pub open spec fn object_count(&self) -> nat {
        match self.debug_map() {
            None => 0,
            Some(map) => map.1.len(),
        }
    }

    /// The symbols ascend by address, and there is exactly one cache slot for
    /// each object of the debug map.
    pub open spec fn wf(&self) -> bool {
        &&& symbols_sorted(self.symbols())
        &&& self.slots().len() == self.object_count()
    }

    /// The object is what parsing made of `image`, whose scan gave `found`:
    /// it holds the DWARF table and the debug map that the scan gave, the
    /// scan's symbols sorted by address, and one unresolved slot for each
    /// object of the debug map.
    pub open spec fn is_scan_of(&self, image: Seq<u8>, found: Scan) -> bool {
        &&& self.wf()
        &&& self.image() == image
        &&& self.wide() == found.wide
        &&& self.sections() == found.dwarf
        &&& self.symbols().to_multiset() == found.symbols.to_multiset()
        &&& self.debug_map() == found.debug_map
        &&& forall|i: int|
            0 <= i < self.slots().len() ==> self.slots()[i] == SlotModel::Unresolved
    }

    /// The bytes of the image.
    pub fn image_bytes(&self) -> (r: &'a [u8])
        ensures
            r@ == self.image(),
    {
        self.data
    }

    /// Whether the image has a 64-bit header.
    pub fn is_wide(&self) -> (r: bool)
        ensures
            r == self.wide(),
    {
        self.wide
    }

    /// The DWARF section table.
    pub fn section_table(&self) -> (r: Option<&Vec<SectionEntry>>)
        ensures
            r.deep_view() == self.sections(),
    {
        self.dwarf.as_ref()
    }

    /// The symbols, sorted by address.
    pub fn symbol_list(&self) -> (r: &Vec<Symbol>)
        ensures
            r.deep_view() == self.symbols(),
    {
        &self.syms
    }

    /// The debug map.
    pub fn map_table(&self) -> (r: Option<&DebugMap>)
        ensures
            r.deep_view() == self.debug_map(),
    {
        self.object_map.as_ref()
    }

    /// The cache slot of object `index`.
    pub fn slot(&self, index: usize) -> (r: Option<&Slot>)
        ensures
            index >= self.slots().len() ==> r is None,
            index < self.slots().len() ==> r is Some && r.unwrap()@ == self.slots()[index as int],
    {
        if index < self.object_mappings.len() {
            Some(&self.object_mappings[index])
        } else {
            None
        }
    }

    /// Records the outcome of reading object `index`: the object as parsed,
    /// or `None` where it could not be read. Only an unresolved slot takes
    /// the outcome; a slot that was resolved before keeps what it has, so an
    /// object is read at most once.
    pub fn record_object<'b>(&mut self, index: usize, outcome: Option<Object<'b>>)
        requires
            old(self).wf(),
        ensures
            final(self).wf(),
            final(self).image() == old(self).image(),
            final(self).wide() == old(self).wide(),
            final(self).sections() == old(self).sections(),
            final(self).symbols() == old(self).symbols(),
            final(self).debug_map() == old(self).debug_map(),
            final(self).slots() == recorded(
                old(self).slots(),
                index as int,
                match outcome {
                    None => None,
                    Some(object) => Some(object.symbols()),
                },
            ),
    {
        if index < self.object_mappings.len() {
            let unresolved: bool = match &self.object_mappings[index] {
                Slot::Unresolved => true,
                _ => false,
            };
            if unresolved {
                let slot = match outcome {
                    None => Slot::Failed,
                    Some(object) => Slot::Resolved(object.syms),
                };
                self.object_mappings.set(index, slot);
            }
        }
        assert(final(self).slots() =~= recorded(
            old(self).slots(),
            index as int,
            match outcome {
                None => None,
                Some(object) => Some(object.symbols()),
            },
        ));
    }

    /// Records what reading object `index` came to: the object as parsed, and
    /// whether the DWARF reader could be built from it. An object that could
    /// not be parsed or not be built from counts as failed.
    pub fn record_built<'b>(&mut self, index: usize, parsed: Option<Object<'b>>, built: bool)
        requires
            old(self).wf(),
        ensures
            final(self).wf(),
            final(self).image() == old(self).image(),
            final(self).wide() == old(self).wide(),
            final(self).sections() == old(self).sections(),
            final(self).symbols() == old(self).symbols(),
            final(self).debug_map() == old(self).debug_map(),
            final(self).slots() == recorded(
                old(self).slots(),
                index as int,
                match parsed {
                    Some(object) if built => Some(object.symbols()),
                    _ => None,
                },
            ),
    {
        if built {
            self.record_object(index, parsed);
        } else {
            self.record_object(index, None);
        }
    }

    /// Scans the load commands of a thin image.
    ///
    /// The section table of a segment called `__DWARF` (in a relocatable
    /// object also of one without a name) becomes the DWARF table. A symbol
    /// table gives the symbols: its entries that have a name and define
    /// something, sorted by address; in a linked image it also gives the debug
    /// map, with every cache slot unresolved. A later command replaces what an
    /// earlier one of its kind gave. Whatever cannot be read on the way (a
    /// command, the section table of a DWARF segment, the symbol table, the
    /// name of one of its entries) fails the whole scan: there is no partial
    /// result.
    pub fn parse(image: &'a [u8]) -> (r: Option<Object<'a>>)
        ensures
            r is Some <==> scan_image(image@) is Some,
            r matches Some(object) ==> object.is_scan_of(image@, scan_image(image@).unwrap()),
    {
        let (wide, relocatable): (bool, bool) = match read_header(image) {
            None => {
                return None;
            },
            Some((wide, filetype)) => (wide, filetype == MH_OBJECT),
        };
        let segments = match segments_of(image, wide) {
            None => {
                return None;
            },
            Some(segments) => segments,
        };
        let tables = match symbol_tables_of(image, wide) {
            None => {
                return None;
            },
            Some(tables) => tables,
        };
        let dwarf: Option<Vec<SectionEntry>> = match select_dwarf(segments, relocatable) {
            None => {
                return None;
            },
            Some(dwarf) => dwarf,
        };
        let mut syms: Vec<Symbol> = Vec::new();
        let mut object_map: Option<DebugMap> = None;
        assert(syms.deep_view() =~= Seq::empty());
        match select_table(&tables) {
            None => {
                return None;
            },
            Some(None) => {},
            Some(Some((index, kept))) => {
                syms = kept;
                if !relocatable {
                    match object_paths_at(image, wide, index) {
                        None => {
                            return None;
                        },
                        Some(paths) => {
                            object_map = Some((index, paths));
                        },
                    }
                }
            },
        }
        sort_by_address(&mut syms);
        let slots: usize = match &object_map {
            None => 0,
            Some(map) => map.1.len(),
        };
        let object_mappings = unresolved_slots(slots);
        let object = Object { data: image, wide, dwarf, syms, object_map, object_mappings };
        proof {
            if let Some(map) = &object.object_map {
                assert(map.1.deep_view().len() == map.1@.len());
            }
        }
        Some(object)
    }
}

} // verus!
