//! Composite `archive(member)` identifiers, as debug maps record them for
//! objects that live inside a static archive.

use vstd::prelude::*;
use vstd::slice::slice_subrange;

verus! {

/// The byte `(`, which opens the member name.
pub const OPEN_PAREN: u8 = 0x28;

/// The byte `)`, which closes the member name.
pub const CLOSE_PAREN: u8 = 0x29;

/// `index` is the position of the first `(` in `path`.
pub open spec fn is_first_open(path: Seq<u8>, index: int) -> bool {
    &&& 0 <= index < path.len()
    &&& path[index] == OPEN_PAREN
    &&& forall|j: int| 0 <= j < index ==> path[j] != OPEN_PAREN
}

/// `path` has the composite form and its first `(` stands at `index`: something
/// follows the `(`, and the last byte is `)`.
pub open spec fn splits_at(path: Seq<u8>, index: int) -> bool {
    &&& is_first_open(path, index)
    &&& index + 2 <= path.len()
    &&& path[path.len() - 1] == CLOSE_PAREN
}

/// `path` names a member of an archive.
pub open spec fn is_archive_path(path: Seq<u8>) -> bool {
    exists|index: int| splits_at(path, index)
}

/// Splits `archive(member)` into the archive's path and the member's name.
///
/// The split is made at the first `(`; the identifier has to end in `)`.
/// Anything else is a plain path and gives `None`.
pub fn split_archive_path(path: &[u8]) -> (r: Option<(&[u8], &[u8])>)
    ensures
        r.is_some() <==> is_archive_path(path@),
        r matches Some((archive, member)) ==> {
            &&& splits_at(path@, archive@.len() as int)
            &&& archive@ == path@.subrange(0, archive@.len() as int)
            &&& member@ == path@.subrange((archive@.len() + 1) as int, path@.len() - 1)
        },
{
    let n: usize = path.len();
    let mut index: usize = 0;
    while index < n && path[index] != OPEN_PAREN
        invariant
            n == path@.len(),
            index <= n,
            forall|j: int| 0 <= j < index ==> path@[j] != OPEN_PAREN,
        decreases n - index,
    {
        index += 1;
    }
    if index >= n || n - index < 2 || path[n - 1] != CLOSE_PAREN {
        assert forall|k: int| !splits_at(path@, k) by {
            if splits_at(path@, k) {
                if index < n {
                    assert(k == index);
                }
            }
        }
        return None;
    }
    assert(splits_at(path@, index as int));
    let archive = slice_subrange(path, 0, index);
    let member = slice_subrange(path, index + 1, n - 1);
    Some((archive, member))
}

} // verus!
