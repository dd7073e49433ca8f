//! The editor panel: the edit session over the currently open note.
//!
//! The session carries a generation counter that grows whenever a
//! different note is loaded or a new one is begun. Every field edit is
//! tagged with the generation it was typed under; an edit whose tag no
//! longer matches is discarded silently, so a delayed edit event can
//! never land on a note the user has navigated away from. An edit whose
//! text equals the held text is a no-op, so keystroke-adjacent
//! notifications cause no redundant store writes.

use vstd::prelude::*;

use crate::data::{EditSource, FolderID, Note, NoteID};
use crate::ids::{dec_digits, issued};
use crate::store::{
    Database, StoreError, clock_next, has_note, note_of, note_upsert_rel, stamped,
};

verus! {

/// The edit-session state: at most one open note, and the generation the
/// session is at.
#[derive(Debug)]
pub struct NoteEditorColumnModel {
    pub current_note: Option<Note>,
    pub generation: u64,
}

/// Requests entering the editor panel. Field edits carry the generation
/// captured when the edit originated.
#[derive(Debug)]
pub enum NoteEditorColumnInput {
    OpenNote { id: NoteID },
    CreateNote { folder_id: Option<FolderID> },
    UpdateTitle { text: String, generation: u64 },
    UpdateBody { text: String, generation: u64 },
}

/// The open note, if any, was issued by this store.
pub open spec fn editor_bound_in(e: NoteEditorColumnModel, db: Database) -> bool {
    e.current_note matches Some(n) ==> issued(db.next_id as nat, n.id@)
}

/// The inputs on which `update` is defined: the generation counter must
/// not be used up when a note is opened or begun.
pub open spec fn editor_input_ok(pre: NoteEditorColumnModel, input: NoteEditorColumnInput) -> bool {
    match input {
        NoteEditorColumnInput::OpenNote { .. } => pre.generation < u64::MAX,
        NoteEditorColumnInput::CreateNote { .. } => pre.generation < u64::MAX,
        _ => true,
    }
}

/// How one input transforms the session and the store, and which error it
/// surfaces.
pub open spec fn editor_step(
    pre: NoteEditorColumnModel,
    db_pre: Database,
    input: NoteEditorColumnInput,
    post: NoteEditorColumnModel,
    db_post: Database,
    err: Option<StoreError>,
) -> bool {
    match input {
        NoteEditorColumnInput::OpenNote { id } => {
            if has_note(db_pre.notes@, id@) {
                &&& db_post == db_pre
                &&& post.generation == pre.generation + 1
                &&& post.current_note == Some(note_of(db_pre.notes@, id@))
                &&& err is None
            } else {
                &&& db_post == db_pre
                &&& post == pre
                &&& err == Some(StoreError::NotFound)
            }
        },
        NoteEditorColumnInput::CreateNote { folder_id } => {
            if db_pre.next_id < u64::MAX {
                &&& db_post.folders == db_pre.folders
                &&& db_post.notes == db_pre.notes
                &&& db_post.clock == db_pre.clock
                &&& db_post.next_id == db_pre.next_id + 1
                &&& post.generation == pre.generation + 1
                &&& post.current_note matches Some(n) && {
                    &&& n.id@ == dec_digits(db_pre.next_id as nat)
                    &&& !has_note(db_pre.notes@, n.id@)
                    &&& n.folder_id == folder_id
                    &&& n.title@ == Seq::<char>::empty()
                    &&& n.body@ == Seq::<char>::empty()
                }
                &&& err is None
            } else {
                &&& db_post == db_pre
                &&& post == pre
                &&& err == Some(StoreError::IdSpaceExhausted)
            }
        },
        NoteEditorColumnInput::UpdateTitle { text, generation } => {
            if generation != pre.generation || pre.current_note is None {
                &&& db_post == db_pre
                &&& post == pre
                &&& err is None
            } else {
                let n = pre.current_note->0;
                if n.title@ == text@ {
                    &&& db_post == db_pre
                    &&& post == pre
                    &&& err is None
                } else {
                    let m = Note { title: text, ..n };
                    &&& post.generation == pre.generation
                    &&& post.current_note == Some(stamped(m, db_pre.clock))
                    &&& db_post.folders == db_pre.folders
                    &&& db_post.next_id == db_pre.next_id
                    &&& db_post.clock == clock_next(db_pre.clock)
                    &&& note_upsert_rel(db_pre.notes@, m, db_pre.clock, db_post.notes@)
                    &&& err is None
                }
            }
        },
        NoteEditorColumnInput::UpdateBody { text, generation } => {
            if generation != pre.generation || pre.current_note is None {
                &&& db_post == db_pre
                &&& post == pre
                &&& err is None
            } else {
                let n = pre.current_note->0;
                if n.body@ == text@ {
                    &&& db_post == db_pre
                    &&& post == pre
                    &&& err is None
                } else {
                    let m = Note { body: text, ..n };
                    &&& post.generation == pre.generation
                    &&& post.current_note == Some(stamped(m, db_pre.clock))
                    &&& db_post.folders == db_pre.folders
                    &&& db_post.next_id == db_pre.next_id
                    &&& db_post.clock == clock_next(db_pre.clock)
                    &&& note_upsert_rel(db_pre.notes@, m, db_pre.clock, db_post.notes@)
                    &&& err is None
                }
            }
        },
    }
}

impl NoteEditorColumnModel {
    /// A session with no note open.
    pub fn new() -> (m: Self)
        ensures
            m.current_note is None,
            m.generation == 0,
    {
        NoteEditorColumnModel { current_note: None, generation: 0 }
    }

    /// Handles one input against the store, returning the error to
    /// surface, if any. A surfaced error leaves both the session and the
    /// store unchanged; a discarded stale edit surfaces nothing.
    pub fn update(&mut self, db: &mut Database, input: NoteEditorColumnInput) -> (err: Option<
        StoreError,
    >)
        requires
            old(db).wf(),
            editor_bound_in(*old(self), *old(db)),
            editor_input_ok(*old(self), input),
        ensures
            final(db).wf(),
            editor_bound_in(*final(self), *final(db)),
            editor_step(*old(self), *old(db), input, *final(self), *final(db), err),
    {
        match input {
            NoteEditorColumnInput::OpenNote { id } => {
                match db.load_note(&id) {
                    Ok(n) => {
                        proof {
                            let w = choose|w: int|
                                0 <= w < db.notes@.len() && (#[trigger] db.notes@[w]).id@ == id@;
                            assert(issued(db.next_id as nat, db.notes@[w].id@));
                        }
                        self.generation = self.generation + 1;
                        self.current_note = Some(n);
                        None
                    },
                    Err(e) => Some(e),
                }
            },
            NoteEditorColumnInput::CreateNote { folder_id } => {
                match db.fresh_note_id() {
                    Ok(id) => {
                        self.generation = self.generation + 1;
                        self.current_note = Some(
                            Note {
                                id,
                                folder_id,
                                title: String::new(),
                                body: String::new(),
                                updated_at: 0,
                            },
                        );
                        None
                    },
                    Err(e) => Some(e),
                }
            },
            NoteEditorColumnInput::UpdateTitle { text, generation } => {
                if generation != self.generation {
                    return None;
                }
                let m = match &self.current_note {
                    None => {
                        return None;
                    },
                    Some(n) => {
                        if n.title == text {
                            return None;
                        }
                        let mut m = n.clone();
                        m.title = text;
                        m
                    },
                };
                let t = db.clock;
                match db.replace_note(&m, EditSource::LocalEdit) {
                    Ok(_) => {
                        let mut held = m;
                        held.updated_at = t;
                        self.current_note = Some(held);
                        None
                    },
                    Err(e) => Some(e),
                }
            },
            NoteEditorColumnInput::UpdateBody { text, generation } => {
                if generation != self.generation {
                    return None;
                }
                let m = match &self.current_note {
                    None => {
                        return None;
                    },
                    Some(n) => {
                        if n.body == text {
                            return None;
                        }
                        let mut m = n.clone();
                        m.body = text;
                        m
                    },
                };
                let t = db.clock;
                match db.replace_note(&m, EditSource::LocalEdit) {
                    Ok(_) => {
                        let mut held = m;
                        held.updated_at = t;
                        self.current_note = Some(held);
                        None
                    },
                    Err(e) => Some(e),
                }
            },
        }
    }
}

} // verus!
