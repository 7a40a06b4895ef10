//! The result of a run: one fingerprint for each message, found by the name
//! of the message's folder and its UID in that folder.

use crate::digest::Fingerprint;
use vstd::prelude::*;

verus! {

/// What identifies a message within an account: the name of its folder and
/// its UID in that folder. A bare UID would not do, since two folders may use
/// the same UID for different messages.
pub type MessageKey = (Seq<char>, u32);

struct Entry {
    folder: String,
    uid: u32,
    fingerprint: Fingerprint,
}

/// A finite map from message keys to fingerprints. The order in which the
/// entries were inserted does not show.
pub struct ResultMapping {
    entries: Vec<Entry>,
}

spec fn key_of(e: Entry) -> MessageKey {
    (e.folder@, e.uid)
}

spec fn distinct_keys(s: Seq<Entry>) -> bool {
    forall|i: int, j: int| 0 <= i < j < s.len() ==> key_of(#[trigger] s[i]) != key_of(#[trigger] s[j])
}

spec fn as_map(s: Seq<Entry>) -> Map<MessageKey, Seq<u8>>
    decreases s.len(),
{
    if s.len() == 0 {
        Map::empty()
    } else {
        as_map(s.drop_last()).insert(key_of(s.last()), s.last().fingerprint@)
    }
}

proof fn lemma_as_map_keys(s: Seq<Entry>)
    ensures
        as_map(s).dom().finite(),
        forall|k: MessageKey|
            as_map(s).contains_key(k) <==> exists|i: int| 0 <= i < s.len() && key_of(#[trigger] s[i]) == k,
    decreases s.len(),
{
    if s.len() > 0 {
        let front = s.drop_last();
        lemma_as_map_keys(front);
        assert forall|k: MessageKey|
            as_map(s).contains_key(k) <==> exists|i: int| 0 <= i < s.len() && key_of(#[trigger] s[i]) == k by {
            if as_map(s).contains_key(k) {
                if k == key_of(s.last()) {
                    assert(key_of(s[s.len() - 1]) == k);
                } else {
                    let i = choose|i: int| 0 <= i < front.len() && key_of(#[trigger] front[i]) == k;
                    assert(key_of(s[i]) == k);
                }
            }
            if exists|i: int| 0 <= i < s.len() && key_of(#[trigger] s[i]) == k {
                let i = choose|i: int| 0 <= i < s.len() && key_of(#[trigger] s[i]) == k;
                if i < s.len() - 1 {
                    assert(key_of(front[i]) == k);
                }
            }
        }
    }
}

proof fn lemma_as_map_len(s: Seq<Entry>)
    requires
        distinct_keys(s),
    ensures
        as_map(s).dom().finite(),
        as_map(s).dom().len() == s.len(),
    decreases s.len(),
{
    lemma_as_map_keys(s);
    if s.len() > 0 {
        let front = s.drop_last();
        lemma_as_map_len(front);
        lemma_as_map_keys(front);
        if as_map(front).contains_key(key_of(s.last())) {
            let i = choose|i: int| 0 <= i < front.len() && key_of(#[trigger] front[i]) == key_of(s.last());
            assert(key_of(s[i]) == key_of(s[s.len() - 1]));
        }
    }
}

proof fn lemma_as_map_at(s: Seq<Entry>, i: int)
    requires
        distinct_keys(s),
        0 <= i < s.len(),
    ensures
        as_map(s).contains_key(key_of(s[i])),
        as_map(s)[key_of(s[i])] == s[i].fingerprint@,
    decreases s.len(),
{
    if i < s.len() - 1 {
        let front = s.drop_last();
        lemma_as_map_at(front, i);
        assert(key_of(s[i]) != key_of(s[s.len() - 1]));
    }
}

proof fn lemma_as_map_replace(s: Seq<Entry>, i: int, e: Entry)
    requires
        distinct_keys(s),
        0 <= i < s.len(),
        key_of(e) == key_of(s[i]),
    ensures
        distinct_keys(s.update(i, e)),
        as_map(s.update(i, e)) == as_map(s).insert(key_of(e), e.fingerprint@),
    decreases s.len(),
{
    let t = s.update(i, e);
    assert forall|a: int, b: int| 0 <= a < b < t.len() implies key_of(#[trigger] t[a]) != key_of(
        #[trigger] t[b],
    ) by {
        assert(key_of(t[a]) == key_of(s[a]));
        assert(key_of(t[b]) == key_of(s[b]));
    }
    if i == s.len() - 1 {
        assert(t.drop_last() =~= s.drop_last());
        assert(as_map(t) =~= as_map(s).insert(key_of(e), e.fingerprint@));
    } else {
        let front = s.drop_last();
        lemma_as_map_replace(front, i, e);
        assert(t.drop_last() =~= front.update(i, e));
        assert(key_of(s[i]) != key_of(s[s.len() - 1]));
        assert(as_map(t) =~= as_map(s).insert(key_of(e), e.fingerprint@));
    }
}

proof fn lemma_as_map_values(s: Seq<Entry>)
    ensures
        forall|k: MessageKey| #[trigger] as_map(s).contains_key(k) ==> as_map(s)[k].len() == 32,
    decreases s.len(),
{
    if s.len() > 0 {
        lemma_as_map_values(s.drop_last());
        vstd::array::array_len_matches_n(&s.last().fingerprint);
        assert forall|k: MessageKey| #[trigger] as_map(s).contains_key(k) implies as_map(s)[k].len()
            == 32 by {
            if k != key_of(s.last()) {
                assert(as_map(s.drop_last()).contains_key(k));
            }
        }
    }
}

impl View for ResultMapping {
    type V = Map<MessageKey, Seq<u8>>;

    closed spec fn view(&self) -> Map<MessageKey, Seq<u8>> {
        as_map(self.entries@)
    }
}

impl ResultMapping {
    #[verifier::type_invariant]
    spec fn no_key_twice(self) -> bool {
        distinct_keys(self.entries@)
    }

    /// Every fingerprint in a mapping has 32 bytes.
    pub proof fn lemma_fingerprints_have_32_bytes(self)
        ensures
            forall|k: MessageKey| #[trigger] self@.contains_key(k) ==> self@[k].len() == 32,
    {
        lemma_as_map_values(self.entries@);
    }

    /// A mapping without entries.
    pub fn new() -> (out: ResultMapping)
        ensures
            out@ == Map::<MessageKey, Seq<u8>>::empty(),
    {
        ResultMapping { entries: Vec::new() }
    }

    /// The number of entries.
    pub fn len(&self) -> (n: usize)
        ensures
            self@.dom().finite(),
            n == self@.dom().len(),
    {
        proof {
            use_type_invariant(self);
            lemma_as_map_len(self.entries@);
        }
        self.entries.len()
    }

    fn position(&self, folder: &String, uid: u32) -> (at: Option<usize>)
        ensures
            match at {
                Some(i) => i < self.entries@.len() && key_of(self.entries@[i as int]) == (folder@, uid),
                None => forall|i: int|
                    0 <= i < self.entries@.len() ==> key_of(#[trigger] self.entries@[i]) != (folder@, uid),
            },
    {
        let mut i: usize = 0;
        while i < self.entries.len()
            invariant
                i <= self.entries@.len(),
                forall|j: int| 0 <= j < i ==> key_of(#[trigger] self.entries@[j]) != (folder@, uid),
            decreases self.entries@.len() - i,
        {
            if self.entries[i].uid == uid && self.entries[i].folder == *folder {
                return Some(i);
            }
            i = i + 1;
        }
        None
    }

    /// The fingerprint recorded for the message with this UID in this folder,
    /// if there is one.
    pub fn get(&self, folder: &String, uid: u32) -> (found: Option<Fingerprint>)
        ensures
            match found {
                Some(fingerprint) => self@.contains_key((folder@, uid)) && self@[(folder@, uid)]
                    == fingerprint@,
                None => !self@.contains_key((folder@, uid)),
            },
    {
        proof {
            use_type_invariant(self);
            lemma_as_map_keys(self.entries@);
        }
        match self.position(folder, uid) {
            Some(i) => {
                proof {
                    lemma_as_map_at(self.entries@, i as int);
                }
                Some(self.entries[i].fingerprint)
            },
            None => None,
        }
    }

    /// Records `fingerprint` for the message with this UID in this folder. An
    /// entry that the message already had is replaced.
    pub fn insert(&mut self, folder: String, uid: u32, fingerprint: Fingerprint)
        ensures
            final(self)@ == old(self)@.insert((folder@, uid), fingerprint@),
    {
        proof {
            use_type_invariant(&*self);
        }
        let at = self.position(&folder, uid);
        let entry = Entry { folder, uid, fingerprint };
        let mut entries: Vec<Entry> = Vec::new();
        core::mem::swap(&mut self.entries, &mut entries);
        match at {
            Some(i) => {
                proof {
                    lemma_as_map_replace(entries@, i as int, entry);
                }
                entries[i] = entry;
            },
            None => {
                assert(entries@.push(entry).drop_last() =~= entries@);
                entries.push(entry);
            },
        }
        core::mem::swap(&mut self.entries, &mut entries);
    }
}

} // verus!
