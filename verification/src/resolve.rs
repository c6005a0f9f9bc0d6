//! Translating an address of a linked image into the compiled object that it
//! came from, through the debug map and the cache of objects read so far.
//!
//! Reading an object from disk is the caller's part. `pending_object` says
//! which object an address needs, `record_object` takes what reading it gave,
//! and `search_object_map` answers from what has been recorded.

use crate::index::bytes_equal;
use crate::object::{recorded, DebugMapModel, MapEntryModel, Object, Slot, SlotModel, SymbolModel};
use crate::reader::{debug_entry_at, macho_debug_entry, MapEntry, Symbol};
use vstd::prelude::*;

verus! {

/// The distance of `addr` from `base`, going round at the end of the range.
pub open spec fn offset_from(addr: u64, base: u64) -> u64 {
    if addr >= base {
        (addr - base) as u64
    } else {
        (addr - base + 0x1_0000_0000_0000_0000) as u64
    }
}

/// `base` moved by `offset`, going round at the end of the range.
pub open spec fn moved_by(base: u64, offset: u64) -> u64 {
    if base + offset > u64::MAX {
        (base + offset - 0x1_0000_0000_0000_0000) as u64
    } else {
        (base + offset) as u64
    }
}

/// The entry of the debug map that `addr` falls into, as the lookup of the
/// `object` crate finds it in the symbol table that the map comes from.
pub open spec fn entry_for(
    image: Seq<u8>,
    wide: bool,
    map: Option<DebugMapModel>,
    addr: u64,
) -> Option<MapEntryModel> {
    match map {
        None => None,
        Some(map) => macho_debug_entry(image, wide, map.0, addr),
    }
}

/// The first symbol from `from` on that is called `name`.
pub open spec fn symbol_named(symbols: Seq<SymbolModel>, name: Seq<u8>, from: int) -> Option<int>
    decreases symbols.len() - from,
{
    if from >= symbols.len() {
        None
    } else if symbols[from].0 == name {
        Some(from)
    } else {
        symbol_named(symbols, name, from + 1)
    }
}

/// The object that has to be read before an address can be translated: the
/// one that the entry found for the address names, while its slot is
/// unresolved.
pub open spec fn pending(found: Option<MapEntryModel>, slots: Seq<SlotModel>) -> Option<usize> {
    match found {
        None => None,
        Some(entry) => if entry.3 < slots.len() && slots[entry.3 as int] == SlotModel::Unresolved {
            Some(entry.3)
        } else {
            None
        },
    }
}

/// The object that `addr` came from and the address that it has there: the
/// entry found for `addr` names the object; where that object was read, the symbol
/// of the entry's name is looked up in it, and `addr` keeps its distance from
/// the symbol.
pub open spec fn translation(
    found: Option<MapEntryModel>,
    slots: Seq<SlotModel>,
    addr: u64,
) -> Option<(usize, u64)> {
    match found {
        None => None,
        Some(entry) => if entry.3 < slots.len() {
            match slots[entry.3 as int] {
                SlotModel::Resolved(symbols) => match symbol_named(symbols, entry.0, 0) {
                    None => None,
                    Some(k) => Some(
                        (entry.3, moved_by(symbols[k].1, offset_from(addr, entry.1))),
                    ),
                },
                _ => None,
            }
        } else {
            None
        },
    }
}

/// Once the outcome of reading an object is recorded, no address asks for that
/// object again, a second outcome for it changes nothing, neither the slots
/// nor what any address translates to, and the slots of the other objects are
/// as they were.
pub proof fn lemma_object_read_once(
    found: Option<MapEntryModel>,
    slots: Seq<SlotModel>,
    index: usize,
    first: Option<Seq<SymbolModel>>,
    second: Option<Seq<SymbolModel>>,
    addr: u64,
)
    ensures
        pending(found, recorded(slots, index as int, first)) != Some(index),
        recorded(recorded(slots, index as int, first), index as int, second) == recorded(
            slots,
            index as int,
            first,
        ),
        recorded(slots, index as int, first).len() == slots.len(),
        forall|other: int|
            0 <= other < slots.len() && other != index ==> recorded(slots, index as int, first)[other]
                == slots[other],
        translation(
            found,
            recorded(recorded(slots, index as int, first), index as int, second),
            addr,
        ) == translation(found, recorded(slots, index as int, first), addr),
{
}

/// The first symbol called `name`.
pub fn find_symbol(symbols: &Vec<Symbol>, name: &[u8]) -> (r: Option<usize>)
    ensures
        match r {
            Some(k) => symbol_named(symbols.deep_view(), name@, 0) == Some(k as int) && k
                < symbols@.len(),
            None => symbol_named(symbols.deep_view(), name@, 0) is None,
        },
{
    let ghost model = symbols.deep_view();
    let mut k: usize = 0;
    while k < symbols.len()
        invariant
            k <= symbols@.len(),
            model == symbols.deep_view(),
            symbol_named(model, name@, 0) == symbol_named(model, name@, k as int),
        decreases symbols@.len() - k,
    {
        let symbol: &Symbol = &symbols[k];
        assert(model[k as int] == symbol.deep_view());
        assert(symbol.0.deep_view() =~= symbol.0@);
        if bytes_equal(symbol.0.as_slice(), name) {
            return Some(k);
        }
        k += 1;
    }
    None
}

impl<'a> Object<'a> {
    /// The entry of the debug map that `addr` falls into.
    pub fn map_entry(&self, addr: u64) -> (r: Option<MapEntry>)
        ensures
            r.deep_view() == entry_for(self.image(), self.wide(), self.debug_map(), addr),
    {
        match self.map_table() {
            None => None,
            Some(map) => debug_entry_at(self.image_bytes(), self.is_wide(), map.0, addr),
        }
    }

    /// The object that has to be read before `addr` can be translated, with
    /// its path as the debug map records it. `None` where `addr` falls into no
    /// entry, or the object was read, or failed to be read, before.
    pub fn pending_object(&self, addr: u64) -> (r: Option<(usize, &[u8])>)
        requires
            self.wf(),
        ensures
            match r {
                Some((index, path)) => pending(
                    entry_for(self.image(), self.wide(), self.debug_map(), addr),
                    self.slots(),
                ) == Some(index) && index < self.object_count() && path@
                    == self.debug_map().unwrap().1[index as int],
                None => pending(
                    entry_for(self.image(), self.wide(), self.debug_map(), addr),
                    self.slots(),
                ) is None,
            },
    {
        let index: usize = match self.map_entry(addr) {
            None => {
                return None;
            },
            Some(entry) => entry.3,
        };
        match self.slot(index) {
            Some(Slot::Unresolved) => {},
            _ => {
                return None;
            },
        }
        match self.map_table() {
            None => None,
            Some(map) => {
                let path = map.1[index].as_slice();
                assert(map.1.deep_view()[index as int] =~= path@);
                Some((index, path))
            },
        }
    }

    /// Translates `addr` into the object that it came from: the index of that
    /// object and the address there. `None` where `addr` falls into no entry,
    /// the object was not read or could not be read, or it has no symbol of
    /// the entry's name.
    pub fn search_object_map(&self, addr: u64) -> (r: Option<(usize, u64)>)
        requires
            self.wf(),
        ensures
            r == translation(
                entry_for(self.image(), self.wide(), self.debug_map(), addr),
                self.slots(),
                addr,
            ),
    {
        let entry: MapEntry = match self.map_entry(addr) {
            None => {
                return None;
            },
            Some(entry) => entry,
        };
        assert(entry.0.deep_view() =~= entry.0@);
        match self.slot(entry.3) {
            Some(Slot::Resolved(symbols)) => match find_symbol(symbols, entry.0.as_slice()) {
                None => None,
                Some(k) => {
                    assert(symbols.deep_view()[k as int].1 == symbols@[k as int].1);
                    Some((entry.3, addr.wrapping_sub(entry.1).wrapping_add(symbols[k].1)))
                },
            },
            _ => None,
        }
    }
}

} // verus!
