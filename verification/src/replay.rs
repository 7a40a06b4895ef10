//! A run against the recorded replies of a server, and what holds of every
//! such run.

use crate::enumerator::{name_views, Enumerator, EnumeratorView, Event, Phase};
use crate::mapping::{MessageKey, ResultMapping};
use crate::message::{message_views, with_messages, FetchedMessage, MessageView};
use vstd::prelude::*;

verus! {

/// What a server replies about one folder in the course of a run.
#[derive(Clone, Debug, PartialEq, Eq)]
pub struct FolderReplies {
    /// The folder's name, as the listing gives it.
    pub name: String,
    /// Whether the folder can be selected.
    pub selected: bool,
    /// The UIDs that the search returns once the folder is selected; `None`
    /// where the search fails.
    pub search: Option<Vec<u32>>,
    /// The messages that the fetch returns once the search has found any;
    /// `None` where the fetch fails.
    pub fetch: Option<Vec<FetchedMessage>>,
}

pub struct FolderView {
    pub name: Seq<char>,
    pub selected: bool,
    pub search: Option<Seq<u32>>,
    pub fetch: Option<Seq<MessageView>>,
}

impl View for FolderReplies {
    type V = FolderView;

    open spec fn view(&self) -> FolderView {
        FolderView {
            name: self.name@,
            selected: self.selected,
            search: match self.search {
                Some(uids) => Some(uids@),
                None => None,
            },
            fetch: match self.fetch {
                Some(messages) => Some(message_views(messages@)),
                None => None,
            },
        }
    }
}

/// The views of the folders' replies, in the order of the listing.
pub open spec fn folder_views(folders: Seq<FolderReplies>) -> Seq<FolderView> {
    Seq::new(folders.len(), |i: int| folders[i]@)
}

impl FolderView {
    /// The run gets as far as the folder's messages: the folder is selected,
    /// the search succeeds and finds at least one UID, and the fetch
    /// succeeds.
    pub open spec fn yields_messages(self) -> bool {
        &&& self.selected
        &&& self.search is Some
        &&& self.search->0.len() > 0
        &&& self.fetch is Some
    }
}

/// The mapping after one folder has been dealt with.
pub open spec fn with_folder(mapping: Map<MessageKey, Seq<u8>>, folder: FolderView) -> Map<
    MessageKey,
    Seq<u8>,
> {
    if folder.yields_messages() {
        with_messages(mapping, folder.name, folder.fetch->0)
    } else {
        mapping
    }
}

/// The mapping after the folders have been dealt with, one after the other.
pub open spec fn with_folders(mapping: Map<MessageKey, Seq<u8>>, folders: Seq<FolderView>) -> Map<
    MessageKey,
    Seq<u8>,
>
    decreases folders.len(),
{
    if folders.len() == 0 {
        mapping
    } else {
        with_folder(with_folders(mapping, folders.drop_last()), folders.last())
    }
}

/// The result of a run over an account whose listing succeeds with these
/// folders.
pub open spec fn mapping_of(folders: Seq<FolderView>) -> Map<MessageKey, Seq<u8>> {
    with_folders(Map::empty(), folders)
}

/// Two recordings of an account show the same envelopes: folder by folder the
/// names agree, either both can be selected or neither, the searches either
/// both fail, both find nothing or both find something, and the fetches
/// return the same.
pub open spec fn same_envelopes(a: Seq<FolderView>, b: Seq<FolderView>) -> bool {
    &&& a.len() == b.len()
    &&& forall|i: int|
        #![trigger a[i]]
        #![trigger b[i]]
        0 <= i < a.len() ==> {
            &&& a[i].name == b[i].name
            &&& a[i].selected == b[i].selected
            &&& a[i].search is Some == b[i].search is Some
            &&& a[i].search is Some ==> (a[i].search->0.len() == 0) == (b[i].search->0.len() == 0)
            &&& a[i].fetch == b[i].fetch
        }
}

/// A message that cannot be recorded leaves no trace: the folder's other
/// messages are recorded as if it had not been in the response.
pub proof fn lemma_incomplete_message_is_skipped(
    mapping: Map<MessageKey, Seq<u8>>,
    folder: Seq<char>,
    messages: Seq<MessageView>,
    i: int,
)
    requires
        0 <= i < messages.len(),
        !messages[i].complete(),
    ensures
        with_messages(mapping, folder, messages) == with_messages(mapping, folder, messages.remove(i)),
    decreases messages.len(),
{
    if i == messages.len() - 1 {
        assert(messages.remove(i) =~= messages.drop_last());
    } else {
        lemma_incomplete_message_is_skipped(mapping, folder, messages.drop_last(), i);
        assert(messages.remove(i).drop_last() =~= messages.drop_last().remove(i));
        assert(messages.remove(i).last() == messages.last());
    }
}

/// A message whose envelope has no date is left out of the mapping, and the
/// other messages of its folder are recorded all the same.
pub proof fn lemma_message_without_date_is_skipped(
    mapping: Map<MessageKey, Seq<u8>>,
    folder: Seq<char>,
    messages: Seq<MessageView>,
    i: int,
)
    requires
        0 <= i < messages.len(),
        !messages[i].has_date(),
    ensures
        with_messages(mapping, folder, messages) == with_messages(mapping, folder, messages.remove(i)),
{
    lemma_incomplete_message_is_skipped(mapping, folder, messages, i);
}

/// A folder whose messages the run does not get to leaves no trace: the other
/// folders are dealt with as if it had not been listed.
pub proof fn lemma_barren_folder_is_skipped(
    mapping: Map<MessageKey, Seq<u8>>,
    folders: Seq<FolderView>,
    i: int,
)
    requires
        0 <= i < folders.len(),
        !folders[i].yields_messages(),
    ensures
        with_folders(mapping, folders) == with_folders(mapping, folders.remove(i)),
    decreases folders.len(),
{
    if i == folders.len() - 1 {
        assert(folders.remove(i) =~= folders.drop_last());
    } else {
        lemma_barren_folder_is_skipped(mapping, folders.drop_last(), i);
        assert(folders.remove(i).drop_last() =~= folders.drop_last().remove(i));
        assert(folders.remove(i).last() == folders.last());
    }
}

/// A folder in which the search finds no message adds nothing to the result,
/// and the run goes on to the folders after it.
pub proof fn lemma_empty_folder_adds_nothing(folders: Seq<FolderView>, i: int)
    requires
        0 <= i < folders.len(),
        folders[i].search is Some,
        folders[i].search->0.len() == 0,
    ensures
        mapping_of(folders) == mapping_of(folders.remove(i)),
{
    lemma_barren_folder_is_skipped(Map::empty(), folders, i);
}

/// A folder that cannot be selected adds nothing to the result, and the run
/// goes on to the folders after it.
pub proof fn lemma_unselectable_folder_adds_nothing(folders: Seq<FolderView>, i: int)
    requires
        0 <= i < folders.len(),
        !folders[i].selected,
    ensures
        mapping_of(folders) == mapping_of(folders.remove(i)),
{
    lemma_barren_folder_is_skipped(Map::empty(), folders, i);
}

/// Two runs that are shown the same envelopes end with the same mapping,
/// whatever UIDs their searches returned and in whatever order.
pub proof fn lemma_same_envelopes_same_mapping(a: Seq<FolderView>, b: Seq<FolderView>)
    requires
        same_envelopes(a, b),
    ensures
        mapping_of(a) == mapping_of(b),
    decreases a.len(),
{
    if a.len() > 0 {
        assert(same_envelopes(a.drop_last(), b.drop_last())) by {
            assert forall|i: int| 0 <= i < a.drop_last().len() implies {
                &&& a.drop_last()[i].name == b.drop_last()[i].name
                &&& a.drop_last()[i].selected == b.drop_last()[i].selected
                &&& a.drop_last()[i].search is Some == b.drop_last()[i].search is Some
                &&& a.drop_last()[i].search is Some ==> (a.drop_last()[i].search->0.len() == 0) == (
                b.drop_last()[i].search->0.len() == 0)
                &&& a.drop_last()[i].fetch == b.drop_last()[i].fetch
            } by {
                assert(a.drop_last()[i] == a[i]);
                assert(b.drop_last()[i] == b[i]);
            }
        }
        lemma_same_envelopes_same_mapping(a.drop_last(), b.drop_last());
        assert(a.last() == a[a.len() - 1]);
        assert(b.last() == b[b.len() - 1]);
    }
}

fn names_of(folders: &[FolderReplies]) -> (names: Vec<String>)
    ensures
        names@.len() == folders@.len(),
        forall|i: int| 0 <= i < names@.len() ==> names@[i]@ == folders@[i].name@,
{
    let mut names: Vec<String> = Vec::new();
    let mut i: usize = 0;
    while i < folders.len()
        invariant
            i <= folders@.len(),
            names@.len() == i,
            forall|j: int| 0 <= j < i ==> names@[j]@ == folders@[j].name@,
        decreases folders@.len() - i,
    {
        names.push(folders[i].name.clone());
        i = i + 1;
    }
    names
}

/// Conducts a run against recorded replies: `listing` holds the folders of
/// the account with the server's replies about each, or nothing where the
/// listing itself fails. The run has a result exactly where the listing
/// succeeds, and the result holds the fingerprints of the messages of every
/// folder whose messages the run gets to.
pub fn get_message_hashes(listing: Option<&[FolderReplies]>) -> (out: Option<ResultMapping>)
    ensures
        out is Some <==> listing is Some,
        out is Some ==> out->0@ == mapping_of(folder_views(listing->0@)),
{
    let (state, _) = Enumerator::start();
    let folders = match listing {
        Some(folders) => folders,
        None => {
            let (state, _) = state.step(Event::FolderListFailed);
            return state.into_mapping();
        },
    };
    let names = names_of(folders);
    let ghost views = folder_views(folders@);
    let (state, _) = state.step(Event::FoldersListed(names.as_slice()));
    let mut state = state;
    let mut i: usize = 0;
    while i < folders.len()
        invariant
            i <= folders@.len(),
            views == folder_views(folders@),
            names@.len() == folders@.len(),
            forall|j: int| 0 <= j < names@.len() ==> names@[j]@ == folders@[j].name@,
            state@ == (EnumeratorView {
                phase: Phase::Selecting,
                folders: name_views(names@),
                current: 0,
                uid_set: Seq::empty(),
                mapping: mapping_of(views.take(i as int)),
            }).at_folder(i as nat),
        decreases folders@.len() - i,
    {
        let replies = &folders[i];
        proof {
            assert(views.take(i + 1).drop_last() =~= views.take(i as int));
            assert(views.take(i + 1).last() == replies@);
            assert(name_views(names@)[i as int] == replies@.name);
        }
        if !replies.selected {
            let (next, _) = state.step(Event::SelectFailed);
            state = next;
        } else {
            let (next, _) = state.step(Event::Selected);
            state = next;
            match &replies.search {
                None => {
                    let (next, _) = state.step(Event::SearchFailed);
                    state = next;
                },
                Some(uids) => {
                    let (next, _) = state.step(Event::SearchCompleted(uids.as_slice()));
                    state = next;
                    if uids.len() > 0 {
                        match &replies.fetch {
                            None => {
                                let (next, _) = state.step(Event::FetchFailed);
                                state = next;
                            },
                            Some(messages) => {
                                let (next, _) = state.step(Event::Fetched(messages.as_slice()));
                                state = next;
                            },
                        }
                    }
                },
            }
        }
        i = i + 1;
    }
    assert(views.take(i as int) =~= views);
    state.into_mapping()
}

} // verus!
