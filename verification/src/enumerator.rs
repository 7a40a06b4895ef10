//! The run over an account, as a machine that is stepped from outside.
//!
//! The machine never talks to a server. It names the command that is due, and
//! is told what came back. Between the two it decides what a failure costs:
//! a failed listing ends the run, a folder that cannot be selected, searched
//! or fetched is passed over, and so is a folder without messages.

use crate::incident::{Class, Incident};
use crate::mapping::{MessageKey, ResultMapping};
use crate::message::{message_views, record_messages, with_messages, FetchedMessage, MessageView};
use crate::uid_set::{lemma_uid_set_text_shape, uid_set, uid_set_text};
use vstd::prelude::*;

verus! {

/// The reference name that the folder listing is asked with: the account's
/// root.
pub const LIST_REFERENCE: &'static str = "";

/// The pattern that the folder listing is asked with: every folder, however
/// deep in the hierarchy.
pub const LIST_PATTERN: &'static str = "*";

/// The criterion of the UID search: every message of the folder.
pub const SEARCH_CRITERION: &'static str = "ALL";

/// The attributes that are fetched for each message: the envelope, not the
/// body.
pub const FETCH_QUERY: &'static str = "ENVELOPE";

/// How far a run has come.
#[derive(Clone, Copy, PartialEq, Eq, Structural, Debug)]
pub enum Phase {
    /// The folder listing is due.
    Listing,
    /// The current folder is to be selected.
    Selecting,
    /// The current folder is selected, and its UIDs are to be searched.
    Searching,
    /// The envelopes of the current folder's messages are to be fetched.
    Fetching,
    /// Every folder has been dealt with.
    Finished,
    /// The folders could not be listed, so there is no result.
    Failed,
}

/// What the caller is to do next.
#[derive(Clone, Debug, PartialEq, Eq)]
pub enum Action {
    /// List the folders, with `LIST_REFERENCE` and `LIST_PATTERN`.
    ListFolders,
    /// Select the folder of this name.
    Select(String),
    /// Search the selected folder for its UIDs, with `SEARCH_CRITERION`.
    SearchAll,
    /// Fetch `FETCH_QUERY` in one request for this set of UIDs.
    FetchEnvelopes(String),
    /// Nothing is left to ask of the server: close the session.
    Close,
}

pub enum ActionView {
    ListFolders,
    Select(Seq<char>),
    SearchAll,
    FetchEnvelopes(Seq<char>),
    Close,
}

impl View for Action {
    type V = ActionView;

    open spec fn view(&self) -> ActionView {
        match self {
            Action::ListFolders => ActionView::ListFolders,
            Action::Select(folder) => ActionView::Select(folder@),
            Action::SearchAll => ActionView::SearchAll,
            Action::FetchEnvelopes(uids) => ActionView::FetchEnvelopes(uids@),
            Action::Close => ActionView::Close,
        }
    }
}

/// What came back from the server for the action that was due.
#[derive(Clone, Copy, Debug)]
pub enum Event<'a> {
    /// The listing succeeded, with the names of the folders.
    FoldersListed(&'a [String]),
    /// The server rejected the listing.
    FolderListFailed,
    /// The folder is selected.
    Selected,
    /// The folder could not be selected.
    SelectFailed,
    /// The search succeeded, with the UIDs of the folder's messages.
    SearchCompleted(&'a [u32]),
    /// The search failed.
    SearchFailed,
    /// The fetch succeeded, with the messages of the response.
    Fetched(&'a [FetchedMessage]),
    /// The fetch failed for the folder as a whole.
    FetchFailed,
}

pub enum EventView {
    FoldersListed(Seq<Seq<char>>),
    FolderListFailed,
    Selected,
    SelectFailed,
    SearchCompleted(Seq<u32>),
    SearchFailed,
    Fetched(Seq<MessageView>),
    FetchFailed,
}

impl EventView {
    /// The incident that the event reports: a failure, or a search that
    /// found nothing. The incidents of single messages are told by the
    /// messages themselves.
    pub open spec fn incident(self) -> Option<Incident> {
        match self {
            EventView::FolderListFailed => Some(Incident::FolderListFailed),
            EventView::SelectFailed => Some(Incident::SelectFailed),
            EventView::SearchFailed => Some(Incident::SearchFailed),
            EventView::FetchFailed => Some(Incident::FetchFailed),
            EventView::SearchCompleted(uids) => if uids.len() == 0 {
                Some(Incident::EmptyFolder)
            } else {
                None
            },
            _ => None,
        }
    }
}

/// The names as sequences of characters, in the order given.
pub open spec fn name_views(names: Seq<String>) -> Seq<Seq<char>> {
    Seq::new(names.len(), |i: int| names[i]@)
}

impl<'a> View for Event<'a> {
    type V = EventView;

    open spec fn view(&self) -> EventView {
        match self {
            Event::FoldersListed(names) => EventView::FoldersListed(name_views(names@)),
            Event::FolderListFailed => EventView::FolderListFailed,
            Event::Selected => EventView::Selected,
            Event::SelectFailed => EventView::SelectFailed,
            Event::SearchCompleted(uids) => EventView::SearchCompleted(uids@),
            Event::SearchFailed => EventView::SearchFailed,
            Event::Fetched(messages) => EventView::Fetched(message_views(messages@)),
            Event::FetchFailed => EventView::FetchFailed,
        }
    }
}

impl<'a> Event<'a> {
    /// Tells the incident that the event reports, if it reports one.
    pub fn incident(&self) -> (incident: Option<Incident>)
        ensures
            incident == self@.incident(),
    {
        match self {
            Event::FolderListFailed => Some(Incident::FolderListFailed),
            Event::SelectFailed => Some(Incident::SelectFailed),
            Event::SearchFailed => Some(Incident::SearchFailed),
            Event::FetchFailed => Some(Incident::FetchFailed),
            Event::SearchCompleted(uids) => {
                if uids.len() == 0 {
                    Some(Incident::EmptyFolder)
                } else {
                    None
                }
            },
            _ => None,
        }
    }
}

/// The state of a run.
pub struct EnumeratorView {
    pub phase: Phase,
    /// The folders of the account, in the order of the listing.
    pub folders: Seq<Seq<char>>,
    /// The index of the folder that is being dealt with; the number of
    /// folders once none is left.
    pub current: nat,
    /// The UIDs that the pending fetch asks for; empty in any other phase.
    pub uid_set: Seq<char>,
    /// What has been recorded so far.
    pub mapping: Map<MessageKey, Seq<u8>>,
}

impl EnumeratorView {
    /// The state before anything has happened.
    pub open spec fn initial() -> EnumeratorView {
        EnumeratorView {
            phase: Phase::Listing,
            folders: Seq::empty(),
            current: 0,
            uid_set: Seq::empty(),
            mapping: Map::empty(),
        }
    }

    /// A folder is being dealt with.
    pub open spec fn in_folder(self) -> bool {
        self.phase == Phase::Selecting || self.phase == Phase::Searching || self.phase
            == Phase::Fetching
    }

    /// What holds of every state that a run can reach.
    pub open spec fn well_formed(self) -> bool {
        &&& self.in_folder() ==> self.current < self.folders.len()
        &&& self.phase == Phase::Finished ==> self.current == self.folders.len()
        &&& self.phase == Phase::Listing || self.phase == Phase::Failed ==> self.folders.len() == 0
            && self.current == 0 && self.mapping == Map::<MessageKey, Seq<u8>>::empty()
        &&& self.phase != Phase::Fetching ==> self.uid_set == Seq::<char>::empty()
        &&& self.phase == Phase::Fetching ==> self.uid_set.len() > 0
    }

    /// The event answers the action that is due in this state.
    pub open spec fn awaits(self, event: EventView) -> bool {
        match self.phase {
            Phase::Listing => event is FoldersListed || event is FolderListFailed,
            Phase::Selecting => event is Selected || event is SelectFailed,
            Phase::Searching => event is SearchCompleted || event is SearchFailed,
            Phase::Fetching => event is Fetched || event is FetchFailed,
            Phase::Finished => false,
            Phase::Failed => false,
        }
    }

    /// The state on arrival at the folder with this index, or at the end of
    /// the run where the account has no such folder.
    pub open spec fn at_folder(self, index: nat) -> EnumeratorView {
        if index < self.folders.len() {
            EnumeratorView { phase: Phase::Selecting, current: index, uid_set: Seq::empty(), ..self }
        } else {
            EnumeratorView {
                phase: Phase::Finished,
                current: self.folders.len(),
                uid_set: Seq::empty(),
                ..self
            }
        }
    }

    /// The state after the current folder has been given up or completed.
    pub open spec fn at_next_folder(self) -> EnumeratorView {
        self.at_folder(self.current + 1)
    }

    /// The state after `event`. An event that does not answer the pending
    /// action changes nothing.
    pub open spec fn advance(self, event: EventView) -> EnumeratorView {
        match (self.phase, event) {
            (Phase::Listing, EventView::FoldersListed(names)) => EnumeratorView {
                folders: names,
                ..self
            }.at_folder(0),
            (Phase::Listing, EventView::FolderListFailed) => EnumeratorView {
                phase: Phase::Failed,
                ..self
            },
            (Phase::Selecting, EventView::Selected) => EnumeratorView {
                phase: Phase::Searching,
                ..self
            },
            (Phase::Selecting, EventView::SelectFailed) => self.at_next_folder(),
            (Phase::Searching, EventView::SearchCompleted(uids)) => if uids.len() == 0 {
                self.at_next_folder()
            } else {
                EnumeratorView { phase: Phase::Fetching, uid_set: uid_set_text(uids), ..self }
            },
            (Phase::Searching, EventView::SearchFailed) => self.at_next_folder(),
            (Phase::Fetching, EventView::Fetched(messages)) => EnumeratorView {
                mapping: with_messages(self.mapping, self.folders[self.current as int], messages),
                ..self
            }.at_next_folder(),
            (Phase::Fetching, EventView::FetchFailed) => self.at_next_folder(),
            _ => self,
        }
    }

    /// The action that is due in this state.
    pub open spec fn pending(self) -> ActionView {
        match self.phase {
            Phase::Listing => ActionView::ListFolders,
            Phase::Selecting => ActionView::Select(self.folders[self.current as int]),
            Phase::Searching => ActionView::SearchAll,
            Phase::Fetching => ActionView::FetchEnvelopes(self.uid_set),
            Phase::Finished => ActionView::Close,
            Phase::Failed => ActionView::Close,
        }
    }
}

/// Every step leads from a state that a run can reach to another such state.
pub proof fn lemma_advance_keeps_well_formed(state: EnumeratorView, event: EventView)
    requires
        state.well_formed(),
    ensures
        state.advance(event).well_formed(),
{
    if let EventView::SearchCompleted(uids) = event {
        lemma_uid_set_text_shape(uids);
    }
}

/// An event that does not answer the pending action changes nothing.
pub proof fn lemma_stray_event_is_ignored(state: EnumeratorView, event: EventView)
    requires
        !state.awaits(event),
    ensures
        state.advance(event) == state,
{
}

/// An incident costs what its class says. A fatal one ends the run without a
/// result. One that costs a folder, and the benign one, leave the folder at
/// hand behind with the mapping as it was, and the run is not failed by it.
pub proof fn lemma_incident_costs_its_class(state: EnumeratorView, event: EventView)
    requires
        state.awaits(event),
        event.incident() is Some,
    ensures
        event.incident()->0.class_of() != Class::PerMessage,
        event.incident()->0.class_of() == Class::Fatal ==> state.advance(event).phase
            == Phase::Failed,
        event.incident()->0.class_of() != Class::Fatal ==> state.advance(event)
            == state.at_next_folder() && state.advance(event).mapping == state.mapping
            && state.advance(event).phase != Phase::Failed,
{
}

/// Nothing but a failed listing makes a run fail: what goes wrong later costs
/// a folder at most.
pub proof fn lemma_only_a_failed_listing_is_fatal(state: EnumeratorView, event: EventView)
    ensures
        state.advance(event).phase == Phase::Failed <==> state.phase == Phase::Failed || (
        state.phase == Phase::Listing && event is FolderListFailed),
{
}

/// The machine that conducts a run.
pub struct Enumerator {
    phase: Phase,
    folders: Vec<String>,
    current: usize,
    uid_set: String,
    mapping: ResultMapping,
}

impl View for Enumerator {
    type V = EnumeratorView;

    closed spec fn view(&self) -> EnumeratorView {
        EnumeratorView {
            phase: self.phase,
            folders: name_views(self.folders@),
            current: self.current as nat,
            uid_set: self.uid_set@,
            mapping: self.mapping@,
        }
    }
}

fn copy_names(names: &[String]) -> (out: Vec<String>)
    ensures
        name_views(out@) == name_views(names@),
{
    let mut out: Vec<String> = Vec::new();
    let mut i: usize = 0;
    while i < names.len()
        invariant
            i <= names@.len(),
            out@.len() == i,
            forall|j: int| 0 <= j < i ==> out@[j]@ == names@[j]@,
        decreases names@.len() - i,
    {
        out.push(names[i].clone());
        i = i + 1;
    }
    assert(name_views(out@) =~= name_views(names@));
    out
}

impl Enumerator {
    #[verifier::type_invariant]
    spec fn reachable(self) -> bool {
        self@.well_formed()
    }

    /// A run at its start, and its first action: to list the folders.
    pub fn start() -> (first: (Enumerator, Action))
        ensures
            first.0@ == EnumeratorView::initial(),
            first.1@ == first.0@.pending(),
    {
        let state = Enumerator {
            phase: Phase::Listing,
            folders: Vec::new(),
            current: 0,
            uid_set: String::new(),
            mapping: ResultMapping::new(),
        };
        assert(state@.folders =~= Seq::<Seq<char>>::empty());
        (state, Action::ListFolders)
    }

    fn arrive(folders: Vec<String>, index: usize, mapping: ResultMapping) -> (out: Enumerator)
        requires
            index <= folders@.len(),
        ensures
            out@ == (EnumeratorView {
                phase: Phase::Selecting,
                folders: name_views(folders@),
                current: 0,
                uid_set: Seq::empty(),
                mapping: mapping@,
            }).at_folder(index as nat),
    {
        if index < folders.len() {
            Enumerator {
                phase: Phase::Selecting,
                folders,
                current: index,
                uid_set: String::new(),
                mapping,
            }
        } else {
            Enumerator {
                phase: Phase::Finished,
                folders,
                current: index,
                uid_set: String::new(),
                mapping,
            }
        }
    }

    /// The phase that the run is in.
    pub fn phase(&self) -> (phase: Phase)
        ensures
            phase == self@.phase,
    {
        self.phase
    }

    /// The action that is due.
    pub fn action(&self) -> (action: Action)
        ensures
            action@ == self@.pending(),
    {
        proof {
            use_type_invariant(self);
        }
        match self.phase {
            Phase::Listing => Action::ListFolders,
            Phase::Selecting => Action::Select(self.folders[self.current].clone()),
            Phase::Searching => Action::SearchAll,
            Phase::Fetching => Action::FetchEnvelopes(self.uid_set.clone()),
            Phase::Finished => Action::Close,
            Phase::Failed => Action::Close,
        }
    }

    /// Takes the answer to the pending action and gives the state that
    /// follows, with the action that is due in it.
    pub fn step(self, event: Event<'_>) -> (next: (Enumerator, Action))
        ensures
            next.0@ == self@.advance(event@),
            next.1@ == next.0@.pending(),
    {
        proof {
            use_type_invariant(&self);
        }
        let ghost before = self@;
        let Enumerator { phase, folders, current, uid_set: wanted, mapping } = self;
        let mut mapping = mapping;
        assert(before.in_folder() ==> current < folders.len());
        let state = match (phase, event) {
            (Phase::Listing, Event::FoldersListed(names)) => {
                Enumerator::arrive(copy_names(names), 0, mapping)
            },
            (Phase::Listing, Event::FolderListFailed) => Enumerator {
                phase: Phase::Failed,
                folders,
                current,
                uid_set: wanted,
                mapping,
            },
            (Phase::Selecting, Event::Selected) => Enumerator {
                phase: Phase::Searching,
                folders,
                current,
                uid_set: wanted,
                mapping,
            },
            (Phase::Selecting, Event::SelectFailed) => Enumerator::arrive(folders, current + 1, mapping),
            (Phase::Searching, Event::SearchCompleted(uids)) => {
                if uids.len() == 0 {
                    Enumerator::arrive(folders, current + 1, mapping)
                } else {
                    proof {
                        lemma_uid_set_text_shape(uids@);
                    }
                    Enumerator {
                        phase: Phase::Fetching,
                        folders,
                        current,
                        uid_set: uid_set(uids),
                        mapping,
                    }
                }
            },
            (Phase::Searching, Event::SearchFailed) => Enumerator::arrive(folders, current + 1, mapping),
            (Phase::Fetching, Event::Fetched(messages)) => {
                record_messages(&mut mapping, &folders[current], messages);
                Enumerator::arrive(folders, current + 1, mapping)
            },
            (Phase::Fetching, Event::FetchFailed) => Enumerator::arrive(folders, current + 1, mapping),
            (phase, _) => Enumerator { phase, folders, current, uid_set: wanted, mapping },
        };
        let action = state.action();
        (state, action)
    }

    /// Ends the run and hands out its result: the mapping once every folder
    /// has been dealt with, nothing while a folder is still due or after the
    /// listing failed.
    pub fn into_mapping(self) -> (out: Option<ResultMapping>)
        ensures
            out is Some <==> self@.phase == Phase::Finished,
            out is Some ==> out->0@ == self@.mapping,
    {
        match self.phase {
            Phase::Finished => Some(self.mapping),
            _ => None,
        }
    }
}

} // verus!
