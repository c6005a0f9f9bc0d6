//! From the bytes of a file to a parsed image: a plain file, a member of an
//! archive, or a candidate of a debug bundle that has to carry the same
//! identifier as the binary it belongs to.

use crate::container::{find_header, header_of, thin_image};
use crate::index::bytes_equal;
use crate::object::{scan_image, Object, Scan};
use crate::reader::{archive_members, macho_uuid, members_of, uuid_of};
use vstd::prelude::*;
use vstd::slice::{slice_subrange, slice_to_vec};

verus! {

/// What a scan of the thin image in `data` gives.
pub open spec fn image_scan(data: Seq<u8>, cpu: Option<u32>) -> Option<Scan> {
    match header_of(data, cpu) {
        None => None,
        Some(image) => scan_image(image.bytes(data)),
    }
}

/// The identifier of the thin image in `data`.
#[verifier::opaque]
pub open spec fn uuid_in(data: Seq<u8>, cpu: Option<u32>) -> Option<Seq<u8>> {
    match header_of(data, cpu) {
        None => None,
        Some(image) => macho_uuid(image.bytes(data), image.wide),
    }
}

/// The first member from `from` on that is called `name`.
pub open spec fn member_position(
    members: Seq<(Seq<u8>, Seq<u8>)>,
    name: Seq<u8>,
    from: int,
) -> Option<int>
    decreases members.len() - from,
{
    if from >= members.len() {
        None
    } else if members[from].0 == name {
        Some(from)
    } else {
        member_position(members, name, from + 1)
    }
}

/// The contents of the first member of the archive `data` called `name`.
pub open spec fn member_contents(data: Seq<u8>, name: Seq<u8>) -> Option<Seq<u8>> {
    match archive_members(data) {
        None => None,
        Some(members) => match member_position(members, name, 0) {
            None => None,
            Some(i) => Some(members[i].1),
        },
    }
}

/// How a file of a debug bundle stands to the binary that is being resolved.
#[derive(Clone, Copy, Debug, PartialEq, Eq, Structural)]
pub enum Candidate {
    /// It holds no image with an identifier.
    Unreadable,
    /// Its identifier is another one.
    Other,
    /// It carries the binary's identifier.
    Match,
}

/// What a candidate with identifier `found` is to a binary with identifier
/// `wanted`.
pub open spec fn candidate_for(found: Option<Seq<u8>>, wanted: Seq<u8>) -> Candidate {
    match found {
        None => Candidate::Unreadable,
        Some(id) => if id == wanted {
            Candidate::Match
        } else {
            Candidate::Other
        },
    }
}

/// The identifier of the thin image in the bytes of a file. A binary without
/// one cannot be resolved.
pub fn image_uuid(data: &[u8], cpu: Option<u32>) -> (r: Option<[u8; 16]>)
    ensures
        r is None <==> uuid_in(data@, cpu) is None,
        r matches Some(id) ==> uuid_in(data@, cpu) == Some(id@),
{
    proof {
        reveal(uuid_in);
    }
    let n: usize = data.len();
    match find_header(data, cpu) {
        None => None,
        Some(image) => {
            assert(image.start + image.len <= n);
            uuid_of(slice_subrange(data, image.start, image.start + image.len), image.wide)
        },
    }
}

/// Compares the identifier of a candidate file with the one wanted.
pub fn examine_candidate(data: &[u8], cpu: Option<u32>, wanted: &[u8; 16]) -> (r: Candidate)
    ensures
        r == candidate_for(uuid_in(data@, cpu), wanted@),
{
    match image_uuid(data, cpu) {
        None => Candidate::Unreadable,
        Some(id) => {
            if bytes_equal(id.as_slice(), wanted.as_slice()) {
                Candidate::Match
            } else {
                Candidate::Other
            }
        },
    }
}

/// The contents of the member of an archive that is called `name`: the first
/// such member in stored order.
pub fn archive_member(data: &[u8], name: &[u8]) -> (r: Option<Vec<u8>>)
    ensures
        r is Some <==> member_contents(data@, name@) is Some,
        r matches Some(contents) ==> member_contents(data@, name@) == Some(contents@),
{
    let members = match members_of(data) {
        None => {
            return None;
        },
        Some(members) => members,
    };
    let ghost model = members.deep_view();
    let mut i: usize = 0;
    while i < members.len()
        invariant
            i <= members@.len(),
            model == members.deep_view(),
            archive_members(data@) == Some(model),
            member_position(model, name@, 0) == member_position(model, name@, i as int),
        decreases members@.len() - i,
    {
        let member: &(Vec<u8>, Vec<u8>) = &members[i];
        assert(model[i as int] == member.deep_view());
        assert(member.0.deep_view() =~= member.0@);
        assert(member.1.deep_view() =~= member.1@);
        if bytes_equal(member.0.as_slice(), name) {
            return Some(slice_to_vec(member.1.as_slice()));
        }
        i += 1;
    }
    None
}

impl<'a> Object<'a> {
    /// Finds the thin image in the bytes of a file and parses it.
    pub fn load(data: &'a [u8], cpu: Option<u32>) -> (r: Option<Object<'a>>)
        ensures
            r is Some <==> image_scan(data@, cpu) is Some,
            r matches Some(object) ==> object.is_scan_of(
                header_of(data@, cpu).unwrap().bytes(data@),
                image_scan(data@, cpu).unwrap(),
            ),
    {
        match thin_image(data, cpu) {
            None => None,
            Some(image) => Object::parse(image),
        }
    }
}

} // verus!
