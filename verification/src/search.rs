//! The search for the file that describes a binary, as steps between reads.
//!
//! The caller reads files and lists directories; after each read it hands in
//! what came of it and is told what to do next. The walk goes through the
//! binary's directory, into every debug bundle found there, and through the
//! files of each bundle until one carries the binary's identifier and can be
//! built from. Every file of a bundle is looked at: one that cannot be read,
//! or holds no image with an identifier, is passed over like one with another
//! identifier. Without a file to build from the binary itself is built from.

use crate::bundle::{candidate_for, examine_candidate, image_uuid, uuid_in, Candidate};
use vstd::prelude::*;

verus! {

/// Where the search stands.
#[derive(Clone, Copy, Debug, PartialEq, Eq, Structural)]
pub enum Phase {
    /// The binary has not been read yet.
    Start,
    /// The entries of the binary's directory are being read.
    Directory,
    /// The files of one debug bundle are being read.
    Bundle,
    /// A file of a bundle that carries the identifier is being built from.
    Trying,
    /// The binary itself is being built from.
    FallingBack,
    /// Something was built.
    Resolved,
    /// Nothing can be built.
    Failed,
}

/// What the caller is to do next.
#[derive(Clone, Copy, Debug, PartialEq, Eq, Structural)]
pub enum Action {
    /// Read the next entry of the binary's directory.
    NextEntry,
    /// Open the next file of the bundle that the last entry named.
    NextCandidate,
    /// Build from the file opened last.
    BuildFromCandidate,
    /// Build from the binary itself.
    BuildFromTarget,
    /// Nothing more: what was built last is the result.
    Done,
    /// Nothing more: there is no result.
    Fail,
}

/// What a read gave.
#[derive(Clone, Copy, Debug)]
pub enum Event<'a> {
    /// The bytes of the binary, or `None` where it cannot be read.
    Target(Option<&'a [u8]>),
    /// The name of a directory entry, or `None` where the name is no text.
    Entry(Option<&'a [u8]>),
    /// The bytes of a file of the bundle, or `None` where it cannot be read.
    Opened(Option<&'a [u8]>),
    /// Whether the file could be built from.
    Built(bool),
    /// The bundle has no more files.
    EndOfBundle,
    /// The directory has no more entries.
    EndOfDirectory,
    /// The directory or the bundle cannot be listed.
    ListingFailed,
}

/// An event as a plain value.
pub enum EventModel {
    Target(Option<Seq<u8>>),
    Entry(Option<Seq<u8>>),
    Opened(Option<Seq<u8>>),
    Built(bool),
    EndOfBundle,
    EndOfDirectory,
    ListingFailed,
}

impl<'a> View for Event<'a> {
    type V = EventModel;

    open spec fn view(&self) -> EventModel {
        match *self {
            Event::Target(Some(bytes)) => EventModel::Target(Some(bytes@)),
            Event::Target(None) => EventModel::Target(None),
            Event::Entry(Some(name)) => EventModel::Entry(Some(name@)),
            Event::Entry(None) => EventModel::Entry(None),
            Event::Opened(Some(bytes)) => EventModel::Opened(Some(bytes@)),
            Event::Opened(None) => EventModel::Opened(None),
            Event::Built(built) => EventModel::Built(built),
            Event::EndOfBundle => EventModel::EndOfBundle,
            Event::EndOfDirectory => EventModel::EndOfDirectory,
            Event::ListingFailed => EventModel::ListingFailed,
        }
    }
}

/// The state of a search: the CPU that slices of fat files are chosen for,
/// the binary's identifier once it is known, and the phase.
#[derive(Clone, Copy, Debug)]
pub struct Search {
    pub cpu: Option<u32>,
    pub uuid: [u8; 16],
    pub phase: Phase,
}

/// The state of a search as a plain value.
pub struct SearchModel {
    pub cpu: Option<u32>,
    pub uuid: Seq<u8>,
    pub phase: Phase,
}

impl View for Search {
    type V = SearchModel;

    open spec fn view(&self) -> SearchModel {
        SearchModel { cpu: self.cpu, uuid: self.uuid@, phase: self.phase }
    }
}

/// `name` ends in `.dSYM`, as the directory of a debug bundle does.
pub open spec fn is_bundle_name(name: Seq<u8>) -> bool {
    &&& name.len() >= 5
    &&& name[name.len() - 5] == 0x2e
    &&& name[name.len() - 4] == 0x64
    &&& name[name.len() - 3] == 0x53
    &&& name[name.len() - 2] == 0x59
    &&& name[name.len() - 1] == 0x4d
}

/// `state` in another phase.
pub open spec fn moved(state: SearchModel, phase: Phase) -> SearchModel {
    SearchModel { phase, ..state }
}

/// The state and the action that follow `event` in `state`.
///
/// A binary that cannot be read or has no identifier fails the search. In
/// the directory, an entry whose name ends in `.dSYM` is entered as a bundle;
/// the end of the directory, or a listing that fails, leads to the binary
/// itself. In a bundle, a file with the binary's identifier is built from;
/// a file with another identifier, a file without one and a file that cannot
/// be read are passed over, and the next file is opened. Only the end of the
/// bundle, or a listing of it that fails, leads back to the directory. A file
/// that cannot be built from is passed over; the binary that cannot be built
/// from fails the search. An event that does not belong to the phase fails it
/// too.
pub open spec fn next_step(state: SearchModel, event: EventModel) -> (SearchModel, Action) {
    match state.phase {
        Phase::Start => match event {
            EventModel::Target(Some(bytes)) => match uuid_in(bytes, state.cpu) {
                Some(id) => (
                    SearchModel { uuid: id, phase: Phase::Directory, ..state },
                    Action::NextEntry,
                ),
                None => (moved(state, Phase::Failed), Action::Fail),
            },
            _ => (moved(state, Phase::Failed), Action::Fail),
        },
        Phase::Directory => match event {
            EventModel::Entry(Some(name)) => if is_bundle_name(name) {
                (moved(state, Phase::Bundle), Action::NextCandidate)
            } else {
                (state, Action::NextEntry)
            },
            EventModel::Entry(None) => (state, Action::NextEntry),
            EventModel::EndOfDirectory => (
                moved(state, Phase::FallingBack),
                Action::BuildFromTarget,
            ),
            EventModel::ListingFailed => (moved(state, Phase::FallingBack), Action::BuildFromTarget),
            _ => (moved(state, Phase::Failed), Action::Fail),
        },
        Phase::Bundle => match event {
            EventModel::Opened(Some(bytes)) => match candidate_for(
                uuid_in(bytes, state.cpu),
                state.uuid,
            ) {
                Candidate::Match => (moved(state, Phase::Trying), Action::BuildFromCandidate),
                Candidate::Other => (state, Action::NextCandidate),
                Candidate::Unreadable => (state, Action::NextCandidate),
            },
            EventModel::Opened(None) => (state, Action::NextCandidate),
            EventModel::EndOfBundle => (moved(state, Phase::Directory), Action::NextEntry),
            EventModel::ListingFailed => (moved(state, Phase::Directory), Action::NextEntry),
            _ => (moved(state, Phase::Failed), Action::Fail),
        },
        Phase::Trying => match event {
            EventModel::Built(true) => (moved(state, Phase::Resolved), Action::Done),
            EventModel::Built(false) => (moved(state, Phase::Bundle), Action::NextCandidate),
            _ => (moved(state, Phase::Failed), Action::Fail),
        },
        Phase::FallingBack => match event {
            EventModel::Built(true) => (moved(state, Phase::Resolved), Action::Done),
            _ => (moved(state, Phase::Failed), Action::Fail),
        },
        Phase::Resolved => (state, Action::Done),
        Phase::Failed => (state, Action::Fail),
    }
}

/// The state in which a search for a binary begins.
pub open spec fn start_of(cpu: Option<u32>) -> SearchModel {
    SearchModel { cpu, uuid: Seq::new(16, |i: int| 0u8), phase: Phase::Start }
}

/// What a search comes to, wherever a run of it stands.
///
/// A binary that cannot be read or has no identifier fails at the first step.
/// In a bundle, a file that carries the binary's identifier is built from;
/// when that works the search is done with it, and when it does not the next
/// file of the bundle is opened. At the end of the directory the binary
/// itself is built from; when that works the search is done, and when it does
/// not it fails.
pub proof fn lemma_search_outcomes(
    cpu: Option<u32>,
    target: Option<Seq<u8>>,
    state: SearchModel,
    candidate: Seq<u8>,
)
    ensures
        (target matches Some(bytes) ==> uuid_in(bytes, cpu) is None) ==> next_step(
            start_of(cpu),
            EventModel::Target(target),
        ).1 == Action::Fail,
        (target matches Some(bytes) && uuid_in(bytes, cpu) matches Some(id)) ==> next_step(
            start_of(cpu),
            EventModel::Target(target),
        ) == (
            SearchModel { cpu, uuid: uuid_in(target.unwrap(), cpu).unwrap(), phase: Phase::Directory },
            Action::NextEntry,
        ),
        state.phase == Phase::Bundle && uuid_in(candidate, state.cpu) == Some(state.uuid) ==> {
            let opened = next_step(state, EventModel::Opened(Some(candidate)));
            &&& opened.1 == Action::BuildFromCandidate
            &&& next_step(opened.0, EventModel::Built(true)).1 == Action::Done
            &&& next_step(opened.0, EventModel::Built(false)) == (state, Action::NextCandidate)
        },
        state.phase == Phase::Directory ==> {
            let ended = next_step(state, EventModel::EndOfDirectory);
            &&& ended.1 == Action::BuildFromTarget
            &&& next_step(ended.0, EventModel::Built(true)).1 == Action::Done
            &&& next_step(ended.0, EventModel::Built(false)).1 == Action::Fail
            &&& next_step(state, EventModel::ListingFailed) == ended
        },
        state.phase == Phase::Failed ==> forall|event: EventModel|
            (#[trigger] next_step(state, event)).1 == Action::Fail,
{
}

/// The state that a search is in after `events`, and the action that the last
/// of them gave; no action before the first event.
pub open spec fn run(start: SearchModel, events: Seq<EventModel>) -> (SearchModel, Option<Action>)
    decreases events.len(),
{
    if events.len() == 0 {
        (start, None)
    } else {
        let step = next_step(run(start, events.drop_last()).0, events.last());
        (step.0, Some(step.1))
    }
}

/// The events of a search that begins with the read of the binary.
pub open spec fn search_of(target: Option<Seq<u8>>, rest: Seq<EventModel>) -> Seq<EventModel> {
    seq![EventModel::Target(target)] + rest
}

/// One more event takes a run one step further.
pub proof fn lemma_run_push(start: SearchModel, events: Seq<EventModel>, event: EventModel)
    ensures
        run(start, events.push(event)) == (
            next_step(run(start, events).0, event).0,
            Some(next_step(run(start, events).0, event).1),
        ),
{
    assert(events.push(event).drop_last() =~= events);
}

/// The last step of a search: from the start on the read of the binary, and
/// from where the events before the last lead on any later event.
pub proof fn lemma_run_unfolds(start: SearchModel, target: Option<Seq<u8>>, rest: Seq<EventModel>)
    ensures
        rest.len() == 0 ==> run(start, search_of(target, rest)) == (
            next_step(start, EventModel::Target(target)).0,
            Some(next_step(start, EventModel::Target(target)).1),
        ),
        rest.len() > 0 ==> run(start, search_of(target, rest)) == (
            next_step(run(start, search_of(target, rest.drop_last())).0, rest.last()).0,
            Some(next_step(run(start, search_of(target, rest.drop_last())).0, rest.last()).1),
        ),
{
    let events = search_of(target, rest);
    if rest.len() == 0 {
        assert(events.len() == 1);
        assert(events.last() == EventModel::Target(target));
        assert(events.drop_last() =~= Seq::<EventModel>::empty());
        assert(run(start, Seq::<EventModel>::empty()) == (start, None::<Action>));
    } else {
        assert(events.last() == rest.last());
        assert(events.drop_last() =~= search_of(target, rest.drop_last()));
    }
}

/// A search for a binary that cannot be read or has no identifier fails at its
/// first step and at every step after it.
pub proof fn lemma_run_without_identifier_fails(
    cpu: Option<u32>,
    target: Option<Seq<u8>>,
    rest: Seq<EventModel>,
)
    requires
        target matches Some(bytes) ==> uuid_in(bytes, cpu) is None,
    ensures
        run(start_of(cpu), search_of(target, rest)).1 == Some(Action::Fail),
        run(start_of(cpu), search_of(target, rest)).0.phase == Phase::Failed,
    decreases rest.len(),
{
    lemma_run_unfolds(start_of(cpu), target, rest);
    if rest.len() > 0 {
        lemma_run_without_identifier_fails(cpu, target, rest.drop_last());
    }
}

/// Throughout a search the state holds the identifier of the binary that it
/// began with.
pub proof fn lemma_run_keeps_identifier(cpu: Option<u32>, target: Seq<u8>, rest: Seq<EventModel>)
    requires
        uuid_in(target, cpu) is Some,
    ensures
        run(start_of(cpu), search_of(Some(target), rest)).0.uuid == uuid_in(target, cpu).unwrap(),
        run(start_of(cpu), search_of(Some(target), rest)).0.cpu == cpu,
        run(start_of(cpu), search_of(Some(target), rest)).0.phase != Phase::Start,
    decreases rest.len(),
{
    lemma_run_unfolds(start_of(cpu), Some(target), rest);
    if rest.len() > 0 {
        lemma_run_keeps_identifier(cpu, target, rest.drop_last());
    }
}

/// What a search for a binary with an identifier comes to.
///
/// Whenever a file of a bundle is opened that carries the binary's
/// identifier, it is built from; when that works the search is done, and
/// nothing that follows changes that. Whenever the directory ends, or cannot
/// be listed, while no such file has been built from, the binary itself is
/// built from.
pub proof fn lemma_run_outcomes(
    cpu: Option<u32>,
    target: Seq<u8>,
    rest: Seq<EventModel>,
    candidate: Seq<u8>,
)
    requires
        uuid_in(target, cpu) is Some,
    ensures
        ({
            let before = run(start_of(cpu), search_of(Some(target), rest)).0;
            let opened = search_of(Some(target), rest.push(EventModel::Opened(Some(candidate))));
            let built = search_of(
                Some(target),
                rest.push(EventModel::Opened(Some(candidate))).push(EventModel::Built(true)),
            );
            let ended = search_of(Some(target), rest.push(EventModel::EndOfDirectory));
            let unlisted = search_of(Some(target), rest.push(EventModel::ListingFailed));
            &&& before.phase == Phase::Bundle && uuid_in(candidate, cpu) == uuid_in(target, cpu) ==> {
                &&& run(start_of(cpu), opened).1 == Some(Action::BuildFromCandidate)
                &&& run(start_of(cpu), built).1 == Some(Action::Done)
            }
            &&& before.phase == Phase::Directory ==> {
                &&& run(start_of(cpu), ended).1 == Some(Action::BuildFromTarget)
                &&& run(start_of(cpu), unlisted).1 == Some(Action::BuildFromTarget)
            }
        }),
{
    let start = start_of(cpu);
    let events = search_of(Some(target), rest);
    lemma_run_keeps_identifier(cpu, target, rest);
    let open = EventModel::Opened(Some(candidate));
    assert(search_of(Some(target), rest.push(open)) =~= events.push(open));
    assert(search_of(Some(target), rest.push(open).push(EventModel::Built(true)))
        =~= events.push(open).push(EventModel::Built(true)));
    assert(search_of(Some(target), rest.push(EventModel::EndOfDirectory)) =~= events.push(
        EventModel::EndOfDirectory,
    ));
    assert(search_of(Some(target), rest.push(EventModel::ListingFailed)) =~= events.push(
        EventModel::ListingFailed,
    ));
    lemma_run_push(start, events, open);
    lemma_run_push(start, events.push(open), EventModel::Built(true));
    lemma_run_push(start, events, EventModel::EndOfDirectory);
    lemma_run_push(start, events, EventModel::ListingFailed);
}

/// `event` is the opening of a file that a search in `state` does not build
/// from: the file cannot be read, holds no image with an identifier, or
/// carries another identifier than the binary's.
pub open spec fn is_passed_over(state: SearchModel, event: EventModel) -> bool {
    match event {
        EventModel::Opened(None) => true,
        EventModel::Opened(Some(bytes)) => candidate_for(uuid_in(bytes, state.cpu), state.uuid)
            != Candidate::Match,
        _ => false,
    }
}

/// Every file of a bundle is looked at. However many files are passed over
/// before it, whether unreadable, without an identifier or with another one,
/// the search is still in the bundle when a file with the binary's identifier
/// is opened, and that file is built from.
pub proof fn lemma_bundle_examines_every_file(
    state: SearchModel,
    skipped: Seq<EventModel>,
    candidate: Seq<u8>,
)
    requires
        state.phase == Phase::Bundle,
        forall|i: int| 0 <= i < skipped.len() ==> is_passed_over(state, #[trigger] skipped[i]),
        uuid_in(candidate, state.cpu) == Some(state.uuid),
    ensures
        run(state, skipped).0 == state,
        skipped.len() > 0 ==> run(state, skipped).1 == Some(Action::NextCandidate),
        run(state, skipped.push(EventModel::Opened(Some(candidate)))) == (
            moved(state, Phase::Trying),
            Some(Action::BuildFromCandidate),
        ),
    decreases skipped.len(),
{
    if skipped.len() > 0 {
        lemma_bundle_examines_every_file(state, skipped.drop_last(), candidate);
        assert(is_passed_over(state, skipped.last()));
    }
    lemma_run_push(state, skipped, EventModel::Opened(Some(candidate)));
}

/// A run goes on from where its first part has led.
pub proof fn lemma_run_continues(start: SearchModel, first: Seq<EventModel>, then: Seq<EventModel>)
    requires
        then.len() > 0,
    ensures
        run(start, first + then) == run(run(start, first).0, then),
    decreases then.len(),
{
    let all = first + then;
    assert(all.last() == then.last());
    assert(all.drop_last() =~= first + then.drop_last());
    if then.len() == 1 {
        assert(then.drop_last() =~= Seq::<EventModel>::empty());
        assert(first + then.drop_last() =~= first);
        assert(run(run(start, first).0, Seq::<EventModel>::empty()).0 == run(start, first).0);
    } else {
        lemma_run_continues(start, first, then.drop_last());
    }
}

/// The state of a search for the binary with identifier `id` while it reads
/// the files of a bundle.
pub open spec fn in_bundle(cpu: Option<u32>, id: Seq<u8>) -> SearchModel {
    SearchModel { cpu, uuid: id, phase: Phase::Bundle }
}

/// A file of a bundle that carries the binary's identifier and can be built
/// from is what the search comes to, whatever stands before it in the bundle.
///
/// Let a search for a binary with an identifier have entered a bundle, and
/// let any number of its files be passed over: unreadable, without an
/// identifier, or with another one. When a file with the binary's identifier
/// is opened next, it is built from, and when that works the search is done.
pub proof fn lemma_matching_file_wins(
    cpu: Option<u32>,
    target: Seq<u8>,
    rest: Seq<EventModel>,
    skipped: Seq<EventModel>,
    candidate: Seq<u8>,
)
    requires
        uuid_in(target, cpu) is Some,
        run(start_of(cpu), search_of(Some(target), rest)).0.phase == Phase::Bundle,
        forall|i: int|
            0 <= i < skipped.len() ==> is_passed_over(
                in_bundle(cpu, uuid_in(target, cpu).unwrap()),
                #[trigger] skipped[i],
            ),
        uuid_in(candidate, cpu) == uuid_in(target, cpu),
    ensures
        run(
            start_of(cpu),
            search_of(Some(target), rest) + skipped.push(EventModel::Opened(Some(candidate))),
        ).1 == Some(Action::BuildFromCandidate),
        run(
            start_of(cpu),
            (search_of(Some(target), rest) + skipped.push(
                EventModel::Opened(Some(candidate)),
            )).push(EventModel::Built(true)),
        ) == (
            SearchModel { cpu, uuid: uuid_in(target, cpu).unwrap(), phase: Phase::Resolved },
            Some(Action::Done),
        ),
{
    let start = start_of(cpu);
    let events = search_of(Some(target), rest);
    let before = run(start, events).0;
    let opened = skipped.push(EventModel::Opened(Some(candidate)));
    lemma_run_keeps_identifier(cpu, target, rest);
    assert(before == in_bundle(cpu, uuid_in(target, cpu).unwrap()));
    lemma_bundle_examines_every_file(before, skipped, candidate);
    lemma_run_continues(start, events, opened);
    lemma_run_push(start, events + opened, EventModel::Built(true));
}

/// Whether `name` ends in `.dSYM`.
pub fn has_bundle_name(name: &[u8]) -> (r: bool)
    ensures
        r == is_bundle_name(name@),
{
    let n: usize = name.len();
    n >= 5 && name[n - 5] == 0x2e && name[n - 4] == 0x64 && name[n - 3] == 0x53 && name[n - 2]
        == 0x59 && name[n - 1] == 0x4d
}

impl Search {
    /// The state in which a search begins.
    pub fn start(cpu: Option<u32>) -> (r: Search)
        ensures
            r@ == start_of(cpu),
    {
        let r = Search { cpu, uuid: [0u8; 16], phase: Phase::Start };
        assert(r.uuid@ =~= Seq::new(16, |i: int| 0u8));
        r
    }

    fn to(self, phase: Phase) -> (r: Search)
        ensures
            r@ == moved(self@, phase),
    {
        Search { cpu: self.cpu, uuid: self.uuid, phase }
    }
}

/// Takes what the last read gave and says what to do next.
pub fn resolve_step(state: Search, event: Event) -> (r: (Search, Action))
    ensures
        (r.0@, r.1) == next_step(state@, event@),
{
    match state.phase {
        Phase::Start => match event {
            Event::Target(Some(bytes)) => match image_uuid(bytes, state.cpu) {
                Some(id) => (
                    Search { cpu: state.cpu, uuid: id, phase: Phase::Directory },
                    Action::NextEntry,
                ),
                None => (state.to(Phase::Failed), Action::Fail),
            },
            _ => (state.to(Phase::Failed), Action::Fail),
        },
        Phase::Directory => match event {
            Event::Entry(Some(name)) => if has_bundle_name(name) {
                (state.to(Phase::Bundle), Action::NextCandidate)
            } else {
                (state, Action::NextEntry)
            },
            Event::Entry(None) => (state, Action::NextEntry),
            Event::EndOfDirectory => (state.to(Phase::FallingBack), Action::BuildFromTarget),
            Event::ListingFailed => (state.to(Phase::FallingBack), Action::BuildFromTarget),
            _ => (state.to(Phase::Failed), Action::Fail),
        },
        Phase::Bundle => match event {
            Event::Opened(Some(bytes)) => match examine_candidate(bytes, state.cpu, &state.uuid) {
                Candidate::Match => (state.to(Phase::Trying), Action::BuildFromCandidate),
                Candidate::Other => (state, Action::NextCandidate),
                Candidate::Unreadable => (state, Action::NextCandidate),
            },
            Event::Opened(None) => (state, Action::NextCandidate),
            Event::EndOfBundle => (state.to(Phase::Directory), Action::NextEntry),
            Event::ListingFailed => (state.to(Phase::Directory), Action::NextEntry),
            _ => (state.to(Phase::Failed), Action::Fail),
        },
        Phase::Trying => match event {
            Event::Built(true) => (state.to(Phase::Resolved), Action::Done),
            Event::Built(false) => (state.to(Phase::Bundle), Action::NextCandidate),
            _ => (state.to(Phase::Failed), Action::Fail),
        },
        Phase::FallingBack => match event {
            Event::Built(true) => (state.to(Phase::Resolved), Action::Done),
            _ => (state.to(Phase::Failed), Action::Fail),
        },
        Phase::Resolved => (state, Action::Done),
        Phase::Failed => (state, Action::Fail),
    }
}

} // verus!
