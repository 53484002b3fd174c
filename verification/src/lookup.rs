//! What the note database answered for one action.
//!
//! Reading the database is the caller's business. The caller asks inside one
//! read transaction and hands the answers over as plain values.

use crate::ids::NoteKey;
use crate::timeline::ThreadSelection;
use crate::unknown::UnknownId;
use vstd::prelude::*;

verus! {

/// The answers of the note database to what one action asks of it.
pub struct NoteLookup {
    /// The thread of the note that the action opens, where the database
    /// could tell it.
    pub thread: Option<ThreadSelection>,
    /// The notes that the database holds for the feed that the action opens,
    /// in the order in which it gave them.
    pub found: Vec<NoteKey>,
    /// Whether the database holds the note that a context action points at.
    pub context_note: bool,
    /// What the found notes refer to and the database does not hold.
    pub unknown_ids: Vec<UnknownId>,
}

/// The mathematical value of a `NoteLookup`.
pub struct NoteLookupView {
    pub thread: Option<ThreadSelection>,
    pub found: Seq<NoteKey>,
    pub context_note: bool,
    pub unknown_ids: Seq<UnknownId>,
}

impl View for NoteLookup {
    type V = NoteLookupView;

    open spec fn view(&self) -> NoteLookupView {
        NoteLookupView {
            thread: self.thread,
            found: self.found@,
            context_note: self.context_note,
            unknown_ids: self.unknown_ids@,
        }
    }
}

impl NoteLookup {
    /// The answers of a database that holds nothing.
    pub fn nothing() -> (lookup: NoteLookup)
        ensures
            lookup@ == (NoteLookupView {
                thread: None,
                found: Seq::empty(),
                context_note: false,
                unknown_ids: Seq::empty(),
            }),
    {
        NoteLookup { thread: None, found: Vec::new(), context_note: false, unknown_ids: Vec::new() }
    }
}

} // verus!
