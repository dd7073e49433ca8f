//! The entities the panels display: folders, notes, and the read-only
//! note projection used for list rendering.

use vstd::prelude::*;

verus! {

/// Identifier of a folder; issued by the store, stable for the folder's lifetime.
pub type FolderID = String;

/// Identifier of a note; issued by the store, stable for the note's lifetime.
pub type NoteID = String;

/// A folder of the sidebar. Root folders have no parent.
#[derive(Debug)]
pub struct Folder {
    pub id: FolderID,
    pub title: String,
    pub parent_id: Option<FolderID>,
}

impl Clone for Folder {
    fn clone(&self) -> (r: Self)
        ensures
            r == *self,
    {
        Folder { id: self.id.clone(), title: self.title.clone(), parent_id: clone_opt_string(&self.parent_id) }
    }
}

/// A note. `folder_id == None` marks an unfiled note, still shown in the
/// "All Notes" view.
#[derive(Debug)]
pub struct Note {
    pub id: NoteID,
    pub folder_id: Option<FolderID>,
    pub title: String,
    pub body: String,
    pub updated_at: u64,
}

impl Clone for Note {
    fn clone(&self) -> (r: Self)
        ensures
            r == *self,
    {
        Note {
            id: self.id.clone(),
            folder_id: clone_opt_string(&self.folder_id),
            title: self.title.clone(),
            body: self.body.clone(),
            updated_at: self.updated_at,
        }
    }
}

/// Read-only projection of a note for list rendering; always a recomputed
/// snapshot of the note, never independently mutated.
#[derive(Debug)]
pub struct AbbrNote {
    pub id: NoteID,
    pub title: String,
    pub updated_at: u64,
}

impl Clone for AbbrNote {
    fn clone(&self) -> (r: Self)
        ensures
            r == *self,
    {
        AbbrNote { id: self.id.clone(), title: self.title.clone(), updated_at: self.updated_at }
    }
}

/// Who caused a note write: a local edit in the editor, or remote
/// synchronization.
#[derive(Clone, Copy, Debug, PartialEq, Eq)]
pub enum EditSource {
    LocalEdit,
    RemoteSync,
}

/// How many folders of `s` carry the title `title`.
pub open spec fn count_titled(s: Seq<Folder>, title: Seq<char>) -> nat
    decreases s.len(),
{
    if s.len() == 0 {
        0
    } else {
        count_titled(s.drop_last(), title) + if s.last().title@ == title {
            1nat
        } else {
            0nat
        }
    }
}

/// The list projection of a note.
pub open spec fn abbr_of(n: Note) -> AbbrNote {
    AbbrNote { id: n.id, title: n.title, updated_at: n.updated_at }
}

/// Computes the list projection of a note.
pub fn abbr_note(n: &Note) -> (r: AbbrNote)
    ensures
        r == abbr_of(*n),
{
    AbbrNote { id: n.id.clone(), title: n.title.clone(), updated_at: n.updated_at }
}

/// Clones an optional identifier.
pub(crate) fn clone_opt_string(o: &Option<String>) -> (r: Option<String>)
    ensures
        r == *o,
{
    match o {
        Some(s) => Some(s.clone()),
        None => None,
    }
}

} // verus!
