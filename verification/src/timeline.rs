//! Feed identities, feeds, and the cache of the feeds that are open.

use crate::actionbar::{NewNotesView, TimelineOpenResult, TimelineOpenResultView};
use crate::assoc::{
    distinct_keys, has_key, lemma_to_map_at, lemma_to_map_dom, lemma_to_map_len,
    lemma_to_map_push, lemma_to_map_update, to_map,
};
use crate::ids::{NoteId, NoteKey, Pubkey};
use crate::unknown::{UnknownId, UnknownIds};
use vstd::prelude::*;

verus! {

/// A thread, named by its root note, and the note of it that was opened.
#[derive(Clone, Copy, Debug, PartialEq, Eq, Hash)]
pub struct ThreadSelection {
    pub root_id: NoteId,
    pub selected_note: Option<NoteId>,
}

impl ThreadSelection {
    /// The thread under `root_id` with no note selected.
    pub fn from_root_id(root_id: NoteId) -> (selection: ThreadSelection)
        ensures
            selection == (ThreadSelection { root_id, selected_note: None }),
    {
        ThreadSelection { root_id, selected_note: None }
    }

    /// The thread under `root_id` with the note `selected` opened in it.
    pub fn from_root_and_selected(root_id: NoteId, selected: NoteId) -> (selection:
        ThreadSelection)
        ensures
            selection == (ThreadSelection { root_id, selected_note: Some(selected) }),
    {
        ThreadSelection { root_id, selected_note: Some(selected) }
    }

    /// The selection for opening the note `note_id` in the thread under
    /// `root_id`: the thread alone where the note is its root, else the
    /// thread with the note selected.
    pub fn from_note(root_id: NoteId, note_id: NoteId) -> (selection: ThreadSelection)
        ensures
            selection == (if root_id == note_id {
                ThreadSelection { root_id, selected_note: None }
            } else {
                ThreadSelection { root_id, selected_note: Some(note_id) }
            }),
    {
        if root_id.same(&note_id) {
            ThreadSelection::from_root_id(root_id)
        } else {
            ThreadSelection::from_root_and_selected(root_id, note_id)
        }
    }

    /// Whether `other` is the same selection.
    pub fn same(&self, other: &ThreadSelection) -> (same: bool)
        ensures
            same == (*self == *other),
    {
        if !self.root_id.same(&other.root_id) {
            return false;
        }
        match (&self.selected_note, &other.selected_note) {
            (None, None) => true,
            (Some(a), Some(b)) => a.same(b),
            _ => false,
        }
    }
}

/// The identity of a feed. Equal kinds name the same feed.
#[derive(Debug, PartialEq, Eq, Hash)]
pub enum TimelineKind {
    /// The notes of one author.
    Profile(Pubkey),
    /// One thread.
    Thread(ThreadSelection),
    /// The notes that carry one hashtag.
    Hashtag(String),
    /// The notifications of one account.
    Notifications(Pubkey),
    /// Every note.
    Universe,
}

/// The mathematical value of a `TimelineKind`.
pub enum TimelineKey {
    Profile(Pubkey),
    Thread(ThreadSelection),
    Hashtag(Seq<char>),
    Notifications(Pubkey),
    Universe,
}

impl View for TimelineKind {
    type V = TimelineKey;

    open spec fn view(&self) -> TimelineKey {
        match self {
            TimelineKind::Profile(pk) => TimelineKey::Profile(*pk),
            TimelineKind::Thread(selection) => TimelineKey::Thread(*selection),
            TimelineKind::Hashtag(tag) => TimelineKey::Hashtag(tag@),
            TimelineKind::Notifications(pk) => TimelineKey::Notifications(*pk),
            TimelineKind::Universe => TimelineKey::Universe,
        }
    }
}

/// The name of the variant of a feed identity.
pub open spec fn kind_name(kind: TimelineKey) -> Seq<char> {
    match kind {
        TimelineKey::Profile(_) => "Profile"@,
        TimelineKey::Thread(_) => "Thread"@,
        TimelineKey::Hashtag(_) => "Hashtag"@,
        TimelineKey::Notifications(_) => "Notifications"@,
        TimelineKey::Universe => "Universe"@,
    }
}

impl Clone for TimelineKind {
    fn clone(&self) -> (copy: TimelineKind)
        ensures
            copy@ == self@,
    {
        match self {
            TimelineKind::Profile(pk) => TimelineKind::Profile(*pk),
            TimelineKind::Thread(selection) => TimelineKind::Thread(*selection),
            TimelineKind::Hashtag(tag) => TimelineKind::Hashtag(tag.clone()),
            TimelineKind::Notifications(pk) => TimelineKind::Notifications(*pk),
            TimelineKind::Universe => TimelineKind::Universe,
        }
    }
}

impl TimelineKind {
    /// The feed of the notes of `pk`.
    pub fn profile(pk: Pubkey) -> (kind: TimelineKind)
        ensures
            kind@ == TimelineKey::Profile(pk),
    {
        TimelineKind::Profile(pk)
    }

    /// The feed of the thread `selection`.
    pub fn thread(selection: ThreadSelection) -> (kind: TimelineKind)
        ensures
            kind@ == TimelineKey::Thread(selection),
    {
        TimelineKind::Thread(selection)
    }

    /// The feed of the notes that carry `tag`.
    pub fn hashtag(tag: String) -> (kind: TimelineKind)
        ensures
            kind@ == TimelineKey::Hashtag(tag@),
    {
        TimelineKind::Hashtag(tag)
    }

    /// The name of the variant, as it is written in messages.
    pub fn name(&self) -> (name: &'static str)
        ensures
            name@ == kind_name(self@),
    {
        match self {
            TimelineKind::Profile(_) => "Profile",
            TimelineKind::Thread(_) => "Thread",
            TimelineKind::Hashtag(_) => "Hashtag",
            TimelineKind::Notifications(_) => "Notifications",
            TimelineKind::Universe => "Universe",
        }
    }

    /// Whether this is the identity of a thread.
    pub fn is_thread(&self) -> (thread: bool)
        ensures
            thread == (self@ is Thread),
    {
        match self {
            TimelineKind::Thread(_) => true,
            _ => false,
        }
    }

    /// Whether `other` names the same feed.
    pub fn same(&self, other: &TimelineKind) -> (same: bool)
        ensures
            same == (self@ == other@),
    {
        match (self, other) {
            (TimelineKind::Profile(a), TimelineKind::Profile(b)) => a.same(b),
            (TimelineKind::Thread(a), TimelineKind::Thread(b)) => a.same(b),
            (TimelineKind::Hashtag(a), TimelineKind::Hashtag(b)) => *a == *b,
            (TimelineKind::Notifications(a), TimelineKind::Notifications(b)) => a.same(b),
            (TimelineKind::Universe, TimelineKind::Universe) => true,
            _ => false,
        }
    }
}

/// The notes of `batch` that `stored` does not hold, each once, in the
/// order in which `batch` first names them.
pub open spec fn unseen(stored: Seq<NoteKey>, batch: Seq<NoteKey>) -> Seq<NoteKey>
    decreases batch.len(),
{
    if batch.len() == 0 {
        Seq::empty()
    } else {
        let front = unseen(stored, batch.drop_last());
        if stored.contains(batch.last()) || front.contains(batch.last()) {
            front
        } else {
            front.push(batch.last())
        }
    }
}

/// The order in which a batch is merged: as it came, or back to front.
pub open spec fn merge_order(batch: Seq<NoteKey>, reversed: bool) -> Seq<NoteKey> {
    if reversed {
        batch.reverse()
    } else {
        batch
    }
}

/// What a feed holds after `batch` was merged into `stored`: what it held,
/// and behind that the notes of the batch that it did not hold, in merge
/// order.
pub open spec fn merged(stored: Seq<NoteKey>, batch: Seq<NoteKey>, reversed: bool) -> Seq<
    NoteKey,
> {
    stored + unseen(stored, merge_order(batch, reversed))
}

/// The unseen notes of a batch are exactly its notes that are not stored,
/// and none of them is repeated.
pub proof fn lemma_unseen(stored: Seq<NoteKey>, batch: Seq<NoteKey>)
    ensures
        forall|key: NoteKey| #[trigger]
            unseen(stored, batch).contains(key) <==> batch.contains(key) && !stored.contains(key),
        unseen(stored, batch).no_duplicates(),
    decreases batch.len(),
{
    if batch.len() > 0 {
        let front = batch.drop_last();
        let last = batch.last();
        lemma_unseen(stored, front);
        let fresh = unseen(stored, batch);
        let fresh_front = unseen(stored, front);
        assert forall|key: NoteKey| #[trigger]
            fresh.contains(key) <==> batch.contains(key) && !stored.contains(key) by {
            if fresh.contains(key) {
                let i = choose|i: int| 0 <= i < fresh.len() && fresh[i] == key;
                if i < fresh_front.len() {
                    assert(fresh_front[i] == key);
                    assert(fresh_front.contains(key));
                    let j = choose|j: int| 0 <= j < front.len() && front[j] == key;
                    assert(batch[j] == key);
                } else {
                    assert(key == last);
                    assert(batch[batch.len() - 1] == key);
                }
            }
            if batch.contains(key) && !stored.contains(key) {
                let j = choose|j: int| 0 <= j < batch.len() && batch[j] == key;
                if j < front.len() {
                    assert(front[j] == key);
                    assert(front.contains(key));
                    assert(unseen(stored, front).contains(key));
                    let i = choose|i: int| 0 <= i < fresh_front.len() && fresh_front[i] == key;
                    assert(fresh[i] == key);
                } else if fresh_front.contains(key) {
                    let i = choose|i: int| 0 <= i < fresh_front.len() && fresh_front[i] == key;
                    assert(fresh[i] == key);
                } else {
                    assert(fresh[fresh.len() - 1] == key);
                }
            }
        }
        assert forall|i: int, j: int|
            0 <= i < fresh.len() && 0 <= j < fresh.len() && i != j implies fresh[i] != fresh[j] by {
            if i >= fresh_front.len() || j >= fresh_front.len() {
                let low = if i < j { i } else { j };
                assert(fresh_front[low] == fresh[low]);
                assert(fresh_front.contains(fresh[low]));
            } else {
                assert(fresh_front[i] != fresh_front[j]);
            }
        }
    }
}

/// A feed that held no note twice holds none twice after a batch without
/// repeats was merged into it, and it holds what it held and the notes of
/// the batch.
pub proof fn lemma_merged(stored: Seq<NoteKey>, batch: Seq<NoteKey>, reversed: bool)
    requires
        stored.no_duplicates(),
        batch.no_duplicates(),
    ensures
        merged(stored, batch, reversed).no_duplicates(),
        forall|key: NoteKey| #[trigger]
            merged(stored, batch, reversed).contains(key) <==> stored.contains(key)
                || batch.contains(key),
{
    let ordered = merge_order(batch, reversed);
    assert(ordered.no_duplicates());
    assert forall|key: NoteKey| ordered.contains(key) <==> batch.contains(key) by {
        if ordered.contains(key) {
            let i = choose|i: int| 0 <= i < ordered.len() && ordered[i] == key;
            if reversed {
                assert(batch[batch.len() - 1 - i] == key);
            } else {
                assert(batch[i] == key);
            }
        }
        if batch.contains(key) {
            let i = choose|i: int| 0 <= i < batch.len() && batch[i] == key;
            if reversed {
                assert(ordered[batch.len() - 1 - i] == key);
            } else {
                assert(ordered[i] == key);
            }
        }
    }
    lemma_unseen(stored, ordered);
    let fresh = unseen(stored, ordered);
    let all = merged(stored, batch, reversed);
    assert forall|i: int, j: int| 0 <= i < all.len() && 0 <= j < all.len() && i != j implies all[i]
        != all[j] by {
        if i < stored.len() && j < stored.len() {
        } else if i >= stored.len() && j >= stored.len() {
            assert(fresh[i - stored.len()] != fresh[j - stored.len()]);
        } else {
            let low = if i < j { i } else { j };
            let high = if i < j { j } else { i };
            assert(fresh[high - stored.len()] == all[high]);
            assert(fresh.contains(all[high]));
            assert(stored[low] == all[low]);
        }
    }
    assert forall|key: NoteKey| #[trigger]
        all.contains(key) <==> stored.contains(key) || batch.contains(key) by {
        if all.contains(key) {
            let i = choose|i: int| 0 <= i < all.len() && all[i] == key;
            if i < stored.len() {
                assert(stored[i] == key);
            } else {
                assert(fresh[i - stored.len()] == key);
                assert(fresh.contains(key));
            }
        }
        if stored.contains(key) {
            let i = choose|i: int| 0 <= i < stored.len() && stored[i] == key;
            assert(all[i] == key);
        } else if batch.contains(key) {
            assert(fresh.contains(key));
            let i = choose|i: int| 0 <= i < fresh.len() && fresh[i] == key;
            assert(all[stored.len() + i] == key);
        }
    }
}

/// Where a batch repeats no note and none of its notes is stored, all of
/// it is unseen.
pub proof fn lemma_unseen_all(stored: Seq<NoteKey>, batch: Seq<NoteKey>)
    requires
        batch.no_duplicates(),
        forall|i: int| 0 <= i < batch.len() ==> !stored.contains(batch[i]),
    ensures
        unseen(stored, batch) == batch,
    decreases batch.len(),
{
    if batch.len() > 0 {
        let front = batch.drop_last();
        assert(front.no_duplicates());
        lemma_unseen_all(stored, front);
        assert(!front.contains(batch.last())) by {
            if front.contains(batch.last()) {
                let i = choose|i: int| 0 <= i < front.len() && front[i] == batch.last();
                assert(batch[i] == batch[batch.len() - 1]);
            }
        }
        assert(front.push(batch.last()) =~= batch);
    }
}

/// Whether `notes` holds `key`.
fn holds(notes: &Vec<NoteKey>, key: NoteKey) -> (held: bool)
    ensures
        held == notes@.contains(key),
{
    let mut i: usize = 0;
    while i < notes.len()
        invariant
            i <= notes.len(),
            forall|j: int| 0 <= j < i ==> notes@[j] != key,
        decreases notes.len() - i,
    {
        if notes[i] == key {
            return true;
        }
        i = i + 1;
    }
    false
}

/// Whether no note occurs twice in `batch`.
fn without_repeats(batch: &Vec<NoteKey>) -> (clean: bool)
    ensures
        clean == batch@.no_duplicates(),
{
    let mut i: usize = 0;
    while i < batch.len()
        invariant
            i <= batch.len(),
            forall|a: int, b: int| 0 <= a < b < i ==> batch@[a] != batch@[b],
        decreases batch.len() - i,
    {
        let mut j: usize = 0;
        while j < i
            invariant
                j <= i,
                i < batch.len(),
                forall|a: int| 0 <= a < j ==> batch@[a] != batch@[i as int],
            decreases i - j,
        {
            if batch[j] == batch[i] {
                return false;
            }
            j = j + 1;
        }
        i = i + 1;
    }
    true
}

/// `batch` in the order in which it is merged.
fn in_merge_order(batch: &Vec<NoteKey>, reversed: bool) -> (ordered: Vec<NoteKey>)
    ensures
        ordered@ == merge_order(batch@, reversed),
{
    let mut ordered: Vec<NoteKey> = Vec::new();
    let n = batch.len();
    let mut i: usize = 0;
    while i < n
        invariant
            n == batch.len(),
            i <= n,
            ordered.len() == i,
            forall|j: int| 0 <= j < i ==> ordered@[j] == merge_order(batch@, reversed)[j],
        decreases n - i,
    {
        if reversed {
            ordered.push(batch[n - 1 - i]);
        } else {
            ordered.push(batch[i]);
        }
        i = i + 1;
    }
    assert(ordered@ =~= merge_order(batch@, reversed));
    ordered
}

/// The notes of `batch` that `stored` does not hold, each once.
fn unseen_among(stored: &Vec<NoteKey>, batch: &Vec<NoteKey>) -> (fresh: Vec<NoteKey>)
    ensures
        fresh@ == unseen(stored@, batch@),
{
    let mut fresh: Vec<NoteKey> = Vec::new();
    let mut i: usize = 0;
    assert(batch@.take(0) =~= Seq::<NoteKey>::empty());
    while i < batch.len()
        invariant
            i <= batch.len(),
            fresh@ == unseen(stored@, batch@.take(i as int)),
        decreases batch.len() - i,
    {
        let key = batch[i];
        proof {
            assert(batch@.take(i + 1).drop_last() =~= batch@.take(i as int));
            assert(batch@.take(i + 1).last() == key);
        }
        if !holds(stored, key) && !holds(&fresh, key) {
            fresh.push(key);
        }
        i = i + 1;
    }
    assert(batch@.take(batch@.len() as int) =~= batch@);
    fresh
}

/// Why a feed refused a batch.
#[derive(Clone, Copy, Debug, PartialEq, Eq, Structural)]
pub enum TimelineError {
    /// The batch names one note twice.
    RepeatedNote,
}

/// What is written of a refusal in messages.
pub open spec fn timeline_error_text(error: TimelineError) -> Seq<char> {
    match error {
        TimelineError::RepeatedNote => "a note is named twice"@,
    }
}

impl TimelineError {
    /// The refusal in words.
    pub fn message(&self) -> (text: &'static str)
        ensures
            text@ == timeline_error_text(*self),
    {
        match self {
            TimelineError::RepeatedNote => "a note is named twice",
        }
    }
}

/// One open feed: its identity and its notes in stored order. It holds no
/// note twice.
pub struct Timeline {
    kind: TimelineKind,
    notes: Vec<NoteKey>,
}

/// The mathematical value of a `Timeline`.
pub struct TimelineView {
    pub kind: TimelineKey,
    pub notes: Seq<NoteKey>,
}

impl View for Timeline {
    type V = TimelineView;

    closed spec fn view(&self) -> TimelineView {
        TimelineView { kind: self.kind@, notes: self.notes@ }
    }
}

impl Timeline {
    #[verifier::type_invariant]
    spec fn each_note_once(&self) -> bool {
        self.notes@.no_duplicates()
    }

    /// The feed `kind` with nothing in it.
    pub fn new(kind: TimelineKind) -> (timeline: Timeline)
        ensures
            timeline@ == (TimelineView { kind: kind@, notes: Seq::empty() }),
    {
        Timeline { kind, notes: Vec::new() }
    }

    /// The identity of the feed.
    pub fn kind(&self) -> (kind: &TimelineKind)
        ensures
            kind@ == self@.kind,
    {
        &self.kind
    }

    /// The notes of the feed in stored order; none occurs twice.
    pub fn notes(&self) -> (notes: &Vec<NoteKey>)
        ensures
            notes@ == self@.notes,
            notes@.no_duplicates(),
    {
        proof {
            use_type_invariant(self);
        }
        &self.notes
    }

    /// Merges `new_notes` into the feed, back to front where `reversed` is
    /// set, and tracks what they refer to and the database lacks. A batch
    /// that names a note twice is refused and changes nothing.
    pub fn insert(
        &mut self,
        new_notes: &Vec<NoteKey>,
        unknown: &Vec<UnknownId>,
        unknown_ids: &mut UnknownIds,
        reversed: bool,
    ) -> (result: Result<(), TimelineError>)
        ensures
            final(self)@.kind == old(self)@.kind,
            new_notes@.no_duplicates() ==> {
                &&& result == Ok::<(), TimelineError>(())
                &&& final(self)@.notes == merged(old(self)@.notes, new_notes@, reversed)
                &&& final(unknown_ids)@ == old(unknown_ids)@.union(unknown@.to_set())
            },
            !new_notes@.no_duplicates() ==> {
                &&& result == Err::<(), TimelineError>(TimelineError::RepeatedNote)
                &&& final(self)@ == old(self)@
                &&& final(unknown_ids)@ == old(unknown_ids)@
            },
    {
        proof {
            use_type_invariant(&*self);
        }
        if !without_repeats(new_notes) {
            return Err(TimelineError::RepeatedNote);
        }
        let ordered = in_merge_order(new_notes, reversed);
        let mut fresh = unseen_among(&self.notes, &ordered);
        proof {
            lemma_merged(self.notes@, new_notes@, reversed);
        }
        let mut notes: Vec<NoteKey> = Vec::new();
        core::mem::swap(&mut self.notes, &mut notes);
        notes.append(&mut fresh);
        self.notes = notes;
        unknown_ids.add_all(unknown);
        Ok(())
    }
}

/// The notes stored under `kind`, none where the cache has no such feed.
pub open spec fn stored_notes(cache: Map<TimelineKey, Seq<NoteKey>>, kind: TimelineKey) -> Seq<
    NoteKey,
> {
    if cache.contains_key(kind) {
        cache[kind]
    } else {
        Seq::empty()
    }
}

/// The cache after the feed `kind` was opened: as before where it had the
/// feed, else with an empty feed under `kind`.
pub open spec fn opened(cache: Map<TimelineKey, Seq<NoteKey>>, kind: TimelineKey) -> Map<
    TimelineKey,
    Seq<NoteKey>,
> {
    if cache.contains_key(kind) {
        cache
    } else {
        cache.insert(kind, Seq::empty())
    }
}

/// What opening the feed `kind` reports when the database holds `found`
/// for it: the found notes that the feed does not hold, if there are any.
pub open spec fn open_result(
    cache: Map<TimelineKey, Seq<NoteKey>>,
    kind: TimelineKey,
    found: Seq<NoteKey>,
) -> Option<TimelineOpenResultView> {
    let fresh = unseen(stored_notes(cache, kind), found);
    if fresh.len() == 0 {
        None
    } else {
        Some(TimelineOpenResultView::NewNotes(NewNotesView { id: kind, notes: fresh }))
    }
}

/// The mathematical value of what a feed-open returned.
pub open spec fn open_result_view(result: Option<TimelineOpenResult>) -> Option<
    TimelineOpenResultView,
> {
    match result {
        Some(r) => Some(r@),
        None => None,
    }
}

/// The feeds of a list as entries: identity and notes.
spec fn entries_of(timelines: Seq<Timeline>) -> Seq<(TimelineKey, Seq<NoteKey>)> {
    timelines.map_values(|t: Timeline| (t@.kind, t@.notes))
}

/// The feeds that are open, each under its identity. No identity has two
/// feeds.
pub struct TimelineCache {
    timelines: Vec<Timeline>,
}

impl View for TimelineCache {
    type V = Map<TimelineKey, Seq<NoteKey>>;

    closed spec fn view(&self) -> Map<TimelineKey, Seq<NoteKey>> {
        to_map(self.entries())
    }
}

impl TimelineCache {
    spec fn entries(&self) -> Seq<(TimelineKey, Seq<NoteKey>)> {
        entries_of(self.timelines@)
    }

    #[verifier::type_invariant]
    spec fn one_feed_per_kind(&self) -> bool {
        distinct_keys(self.entries())
    }

    /// A cache with no feed.
    pub fn new() -> (cache: TimelineCache)
        ensures
            cache@ == Map::<TimelineKey, Seq<NoteKey>>::empty(),
    {
        let cache = TimelineCache { timelines: Vec::new() };
        assert(cache.entries() =~= Seq::empty());
        cache
    }

    /// Where the feed `kind` stands in the list.
    fn position(&self, kind: &TimelineKind) -> (at: Option<usize>)
        ensures
            match at {
                Some(i) => i < self.timelines.len() && self.entries()[i as int].0 == kind@
                    && has_key(self.entries(), kind@),
                None => !has_key(self.entries(), kind@),
            },
    {
        let mut i: usize = 0;
        while i < self.timelines.len()
            invariant
                i <= self.timelines.len(),
                forall|j: int| 0 <= j < i ==> self.entries()[j].0 != kind@,
            decreases self.timelines.len() - i,
        {
            if self.timelines[i].kind().same(kind) {
                assert(self.entries()[i as int].0 == kind@);
                return Some(i);
            }
            i = i + 1;
        }
        None
    }

    /// How many feeds are open.
    pub fn len(&self) -> (n: usize)
        ensures
            self@.dom().finite(),
            n == self@.dom().len(),
    {
        proof {
            use_type_invariant(self);
            lemma_to_map_len(self.entries());
        }
        self.timelines.len()
    }

    /// Whether the feed `kind` is open.
    pub fn contains(&self, kind: &TimelineKind) -> (open: bool)
        ensures
            open == self@.contains_key(kind@),
    {
        proof {
            lemma_to_map_dom(self.entries());
        }
        self.position(kind).is_some()
    }

    /// The feed `kind`, where it is open.
    pub fn get(&self, kind: &TimelineKind) -> (timeline: Option<&Timeline>)
        ensures
            match timeline {
                Some(t) => self@.contains_key(kind@) && t@ == (TimelineView {
                    kind: kind@,
                    notes: self@[kind@],
                }),
                None => !self@.contains_key(kind@),
            },
    {
        proof {
            use_type_invariant(self);
            lemma_to_map_dom(self.entries());
        }
        match self.position(kind) {
            Some(i) => {
                proof {
                    lemma_to_map_at(self.entries(), i as int);
                }
                Some(&self.timelines[i])
            },
            None => None,
        }
    }

    /// Opens the feed `kind`: creates it empty where the cache has none, and
    /// reports which of the notes `found` the feed does not hold yet.
    pub fn open(&mut self, kind: &TimelineKind, found: &Vec<NoteKey>) -> (result: Option<
        TimelineOpenResult,
    >)
        ensures
            final(self)@ == opened(old(self)@, kind@),
            open_result_view(result) == open_result(old(self)@, kind@, found@),
    {
        proof {
            use_type_invariant(&*self);
            lemma_to_map_dom(self.entries());
        }
        let fresh = match self.position(kind) {
            Some(i) => {
                proof {
                    lemma_to_map_at(self.entries(), i as int);
                }
                unseen_among(self.timelines[i].notes(), found)
            },
            None => {
                let ghost before = self.entries();
                let mut timelines: Vec<Timeline> = Vec::new();
                core::mem::swap(&mut self.timelines, &mut timelines);
                assert(self.entries() =~= Seq::empty());
                timelines.push(Timeline::new(kind.clone()));
                proof {
                    let after = entries_of(timelines@);
                    assert(after =~= before.push((kind@, Seq::empty())));
                    lemma_to_map_push(before, kind@, Seq::empty());
                    assert forall|a: int, b: int| 0 <= a < b < after.len() implies after[a].0
                        != after[b].0 by {
                        if b < before.len() {
                            assert(before[a].0 != before[b].0);
                        } else {
                            assert(before[a].0 != kind@);
                        }
                    }
                }
                self.timelines = timelines;
                let nothing: Vec<NoteKey> = Vec::new();
                unseen_among(&nothing, found)
            },
        };
        if fresh.len() == 0 {
            None
        } else {
            Some(TimelineOpenResult::new_notes(fresh, kind.clone()))
        }
    }

    /// Merges `new_notes` into the feed `kind`, where it is open, as
    /// `Timeline::insert` does. `None` says that the cache has no such feed;
    /// nothing has changed then.
    pub fn insert_notes(
        &mut self,
        kind: &TimelineKind,
        new_notes: &Vec<NoteKey>,
        unknown: &Vec<UnknownId>,
        unknown_ids: &mut UnknownIds,
        reversed: bool,
    ) -> (result: Option<Result<(), TimelineError>>)
        ensures
            !old(self)@.contains_key(kind@) ==> {
                &&& result is None
                &&& final(self)@ == old(self)@
                &&& final(unknown_ids)@ == old(unknown_ids)@
            },
            old(self)@.contains_key(kind@) && new_notes@.no_duplicates() ==> {
                &&& result == Some(Ok::<(), TimelineError>(()))
                &&& final(self)@ == old(self)@.insert(
                    kind@,
                    merged(old(self)@[kind@], new_notes@, reversed),
                )
                &&& final(unknown_ids)@ == old(unknown_ids)@.union(unknown@.to_set())
            },
            old(self)@.contains_key(kind@) && !new_notes@.no_duplicates() ==> {
                &&& result == Some(Err::<(), TimelineError>(TimelineError::RepeatedNote))
                &&& final(self)@ == old(self)@
                &&& final(unknown_ids)@ == old(unknown_ids)@
            },
    {
        proof {
            use_type_invariant(&*self);
            lemma_to_map_dom(self.entries());
        }
        match self.position(kind) {
            None => None,
            Some(i) => {
                let ghost before = self.entries();
                proof {
                    lemma_to_map_at(before, i as int);
                }
                let mut timelines: Vec<Timeline> = Vec::new();
                core::mem::swap(&mut self.timelines, &mut timelines);
                assert(self.entries() =~= Seq::empty());
                let mut timeline = timelines.remove(i);
                let result = timeline.insert(new_notes, unknown, unknown_ids, reversed);
                timelines.insert(i, timeline);
                proof {
                    let notes = timelines@[i as int]@.notes;
                    let after = entries_of(timelines@);
                    assert(after =~= before.update(i as int, (kind@, notes)));
                    lemma_to_map_update(before, i as int, notes);
                    if !new_notes@.no_duplicates() {
                        assert(after =~= before);
                    }
                }
                self.timelines = timelines;
                Some(result)
            },
        }
    }
}

} // verus!
