//! The local persistence model the coordination core writes through.
//!
//! The surrounding application treats persistence as a gateway with a small
//! synchronous, error-returning surface: load all folders, load the note
//! list for a selection, load one note, upsert a note or folder, insert a
//! root folder. `Database` realises that surface over in-memory
//! collections, issuing identifiers from a monotonic counter and stamping
//! note writes from a monotonic clock, so that every caller of the gateway
//! can be verified against exact contracts.

use vstd::prelude::*;
use vstd::pervasive::VecAdditionalExecFns;

use crate::data::{AbbrNote, EditSource, Folder, FolderID, Note, NoteID, abbr_of, abbr_note};
use crate::ids::{dec_digits, issued, lemma_dec_digits_injective, render_id};

verus! {

/// Failure of a store operation; locally fatal to that operation only.
#[derive(Clone, Copy, Debug, PartialEq, Eq)]
pub enum StoreError {
    /// The requested note does not exist.
    NotFound,
    /// The identifier counter is used up; nothing new can be created.
    IdSpaceExhausted,
}

impl StoreError {
    /// What the message of this error reads.
    pub open spec fn message_view(self) -> Seq<char> {
        match self {
            StoreError::NotFound => "note not found"@,
            StoreError::IdSpaceExhausted => "identifier space exhausted"@,
        }
    }

    /// A human-readable description of the error.
    pub fn message(&self) -> (r: String)
        ensures
            r@ == self.message_view(),
    {
        match self {
            StoreError::NotFound => "note not found".to_owned(),
            StoreError::IdSpaceExhausted => "identifier space exhausted".to_owned(),
        }
    }
}

/// No two folders share an identifier.
pub open spec fn distinct_folder_ids(s: Seq<Folder>) -> bool {
    forall|i: int, j: int|
        0 <= i < j < s.len() ==> (#[trigger] s[i]).id@ != (#[trigger] s[j]).id@
}

/// No two notes share an identifier.
pub open spec fn distinct_note_ids(s: Seq<Note>) -> bool {
    forall|i: int, j: int|
        0 <= i < j < s.len() ==> (#[trigger] s[i]).id@ != (#[trigger] s[j]).id@
}

/// Every folder identifier was issued below `bound`.
pub open spec fn folders_issued(s: Seq<Folder>, bound: nat) -> bool {
    forall|i: int| 0 <= i < s.len() ==> issued(bound, (#[trigger] s[i]).id@)
}

/// Every note identifier was issued below `bound`.
pub open spec fn notes_issued(s: Seq<Note>, bound: nat) -> bool {
    forall|i: int| 0 <= i < s.len() ==> issued(bound, (#[trigger] s[i]).id@)
}

/// Some folder in `s` has identifier `id`.
pub open spec fn has_folder(s: Seq<Folder>, id: Seq<char>) -> bool {
    exists|i: int| 0 <= i < s.len() && (#[trigger] s[i]).id@ == id
}

/// Some note in `s` has identifier `id`.
pub open spec fn has_note(s: Seq<Note>, id: Seq<char>) -> bool {
    exists|i: int| 0 <= i < s.len() && (#[trigger] s[i]).id@ == id
}

/// The note in `s` with identifier `id` (meaningful when `has_note(s, id)`
/// and identifiers are distinct).
pub open spec fn note_of(s: Seq<Note>, id: Seq<char>) -> Note {
    s[choose|i: int| 0 <= i < s.len() && (#[trigger] s[i]).id@ == id]
}

/// `n` with its timestamp replaced by `t`; what an upsert stores.
pub open spec fn stamped(n: Note, t: u64) -> Note {
    Note { updated_at: t, ..n }
}

/// The write clock after one tick; it saturates rather than wraps.
pub open spec fn clock_next(t: u64) -> u64 {
    if t < u64::MAX {
        (t + 1) as u64
    } else {
        t
    }
}

/// A note is visible under a selection when the selection is "All Notes"
/// or names the note's folder; unfiled notes appear only under "All Notes".
pub open spec fn in_selection(n: Note, sel: Option<FolderID>) -> bool {
    match sel {
        None => true,
        Some(f) => match n.folder_id {
            Some(g) => g@ == f@,
            None => false,
        },
    }
}

/// The list projection of the notes of `s` visible under `sel`, in store
/// order.
pub open spec fn visible_notes(s: Seq<Note>, sel: Option<FolderID>) -> Seq<AbbrNote>
    decreases s.len(),
{
    if s.len() == 0 {
        Seq::empty()
    } else {
        let rest = visible_notes(s.drop_last(), sel);
        if in_selection(s.last(), sel) {
            rest.push(abbr_of(s.last()))
        } else {
            rest
        }
    }
}

/// Upsert: the notes after writing `n` at tick `t` into `pre`. An existing
/// note with the same identifier is replaced in place; otherwise the note
/// is appended.
pub open spec fn note_upsert_rel(pre: Seq<Note>, n: Note, t: u64, post: Seq<Note>) -> bool {
    if has_note(pre, n.id@) {
        exists|i: int|
            0 <= i < pre.len() && (#[trigger] pre[i]).id@ == n.id@ && post == pre.update(
                i,
                stamped(n, t),
            )
    } else {
        post == pre.push(stamped(n, t))
    }
}

/// Upsert for folders, without stamping.
pub open spec fn folder_upsert_rel(pre: Seq<Folder>, f: Folder, post: Seq<Folder>) -> bool {
    if has_folder(pre, f.id@) {
        exists|i: int|
            0 <= i < pre.len() && (#[trigger] pre[i]).id@ == f.id@ && post == pre.update(i, f)
    } else {
        post == pre.push(f)
    }
}

/// The in-memory store behind the gateway surface.
pub struct Database {
    pub folders: Vec<Folder>,
    pub notes: Vec<Note>,
    /// Monotonic counter the identifiers are issued from.
    pub next_id: u64,
    /// Monotonic clock that stamps note writes.
    pub clock: u64,
}

impl Database {
    /// Well-formedness: identifiers are pairwise distinct within each
    /// collection, and all were issued below the counter.
    pub open spec fn wf(self) -> bool {
        &&& distinct_folder_ids(self.folders@)
        &&& distinct_note_ids(self.notes@)
        &&& folders_issued(self.folders@, self.next_id as nat)
        &&& notes_issued(self.notes@, self.next_id as nat)
    }

    /// An empty store.
    pub fn new() -> (db: Database)
        ensures
            db.wf(),
            db.folders@ == Seq::<Folder>::empty(),
            db.notes@ == Seq::<Note>::empty(),
            db.next_id == 0,
            db.clock == 0,
    {
        Database { folders: Vec::new(), notes: Vec::new(), next_id: 0, clock: 0 }
    }

    /// All folders, in store order.
    pub fn load_folders(&self) -> (r: Result<Vec<Folder>, StoreError>)
        ensures
            r matches Ok(v) && v@ == self.folders@,
    {
        let mut out: Vec<Folder> = Vec::new();
        let mut i: usize = 0;
        while i < self.folders.len()
            invariant
                i <= self.folders.len(),
                out@ == self.folders@.take(i as int),
            decreases self.folders.len() - i,
        {
            out.push(self.folders[i].clone());
            proof {
                assert(self.folders@.take(i + 1 as int) =~= self.folders@.take(i as int).push(
                    self.folders@[i as int],
                ));
            }
            i += 1;
        }
        proof {
            assert(self.folders@.take(self.folders@.len() as int) =~= self.folders@);
        }
        Ok(out)
    }

    /// The list projection of the notes visible under `folder_id`, in
    /// store order.
    pub fn load_abbr_notes(&self, folder_id: &Option<FolderID>) -> (r: Result<
        Vec<AbbrNote>,
        StoreError,
    >)
        ensures
            r matches Ok(v) && v@ == visible_notes(self.notes@, *folder_id),
    {
        let mut out: Vec<AbbrNote> = Vec::new();
        let mut i: usize = 0;
        while i < self.notes.len()
            invariant
                i <= self.notes.len(),
                out@ == visible_notes(self.notes@.take(i as int), *folder_id),
            decreases self.notes.len() - i,
        {
            let n = &self.notes[i];
            let visible = match folder_id {
                None => true,
                Some(f) => match &n.folder_id {
                    Some(g) => *g == *f,
                    None => false,
                },
            };
            if visible {
                out.push(abbr_note(n));
            }
            proof {
                assert(self.notes@.take(i + 1 as int).drop_last() =~= self.notes@.take(i as int));
                assert(self.notes@.take(i + 1 as int).last() == self.notes@[i as int]);
            }
            i += 1;
        }
        proof {
            assert(self.notes@.take(self.notes@.len() as int) =~= self.notes@);
        }
        Ok(out)
    }

    /// The note with identifier `id`; `NotFound` exactly when no note has
    /// it.
    pub fn load_note(&self, id: &NoteID) -> (r: Result<Note, StoreError>)
        requires
            self.wf(),
        ensures
            match r {
                Ok(n) => has_note(self.notes@, id@) && n == note_of(self.notes@, id@),
                Err(e) => e == StoreError::NotFound && !has_note(self.notes@, id@),
            },
    {
        let mut i: usize = 0;
        while i < self.notes.len()
            invariant
                self.wf(),
                i <= self.notes.len(),
                forall|j: int| 0 <= j < i ==> (#[trigger] self.notes@[j]).id@ != id@,
            decreases self.notes.len() - i,
        {
            if self.notes[i].id == *id {
                let n = self.notes[i].clone();
                proof {
                    assert(self.notes@[i as int].id@ == id@);
                    let w = choose|w: int|
                        0 <= w < self.notes@.len() && (#[trigger] self.notes@[w]).id@ == id@;
                    if w != i {
                        assert(self.notes@[w].id@ == self.notes@[i as int].id@);
                        assert(false);
                    }
                }
                return Ok(n);
            }
            i += 1;
        }
        Err(StoreError::NotFound)
    }

    /// Upserts `note`, stamping it with the current write clock. Always
    /// succeeds; folders and the identifier counter are untouched.
    pub fn replace_note(&mut self, note: &Note, source: EditSource) -> (r: Result<(), StoreError>)
        requires
            old(self).wf(),
            issued(old(self).next_id as nat, note.id@),
        ensures
            r is Ok,
            final(self).wf(),
            final(self).folders == old(self).folders,
            final(self).next_id == old(self).next_id,
            final(self).clock == clock_next(old(self).clock),
            note_upsert_rel(old(self).notes@, *note, old(self).clock, final(self).notes@),
    {
        let _ = source;
        let mut m = note.clone();
        m.updated_at = self.clock;
        proof {
            assert(m == stamped(*note, self.clock));
        }
        let mut i: usize = 0;
        let ghost pre = self.notes@;
        while i < self.notes.len()
            invariant
                i <= pre.len(),
                self.notes@ == pre,
                forall|j: int| 0 <= j < i ==> (#[trigger] pre[j]).id@ != note.id@,
                m == stamped(*note, self.clock),
                old(self).wf(),
                issued(old(self).next_id as nat, note.id@),
                pre == old(self).notes@,
                self.folders == old(self).folders,
                self.next_id == old(self).next_id,
                self.clock == old(self).clock,
            decreases pre.len() - i,
        {
            if self.notes[i].id == note.id {
                proof {
                    assert((#[trigger] pre[i as int]).id@ == note.id@);
                }
                self.notes.set(i, m);
                proof {
                    assert(has_note(pre, note.id@));
                    assert(self.notes@ == pre.update(i as int, stamped(*note, self.clock)));
                    assert forall|p: int, q: int|
                        0 <= p < q < self.notes@.len() implies (#[trigger] self.notes@[p]).id@ != (
                    #[trigger] self.notes@[q]).id@ by {
                        assert(self.notes@[p].id@ == pre[p].id@);
                        assert(self.notes@[q].id@ == pre[q].id@);
                    }
                    assert forall|p: int| 0 <= p < self.notes@.len() implies issued(
                        self.next_id as nat,
                        (#[trigger] self.notes@[p]).id@,
                    ) by {
                        assert(self.notes@[p].id@ == pre[p].id@);
                    }
                }
                self.clock = if self.clock < u64::MAX {
                    self.clock + 1
                } else {
                    self.clock
                };
                return Ok(());
            }
            i += 1;
        }
        self.notes.push(m);
        proof {
            assert(!has_note(pre, note.id@));
            assert(self.notes@ == pre.push(stamped(*note, self.clock)));
            assert forall|p: int, q: int|
                0 <= p < q < self.notes@.len() implies (#[trigger] self.notes@[p]).id@ != (
            #[trigger] self.notes@[q]).id@ by {
                if q < pre.len() {
                    assert(self.notes@[p].id@ == pre[p].id@);
                    assert(self.notes@[q].id@ == pre[q].id@);
                } else {
                    assert(self.notes@[p].id@ == pre[p].id@);
                    assert(self.notes@[q].id@ == note.id@);
                }
            }
            assert forall|p: int| 0 <= p < self.notes@.len() implies issued(
                self.next_id as nat,
                (#[trigger] self.notes@[p]).id@,
            ) by {
                if p < pre.len() {
                    assert(self.notes@[p].id@ == pre[p].id@);
                } else {
                    assert(self.notes@[p].id@ == note.id@);
                }
            }
        }
        self.clock = if self.clock < u64::MAX {
            self.clock + 1
        } else {
            self.clock
        };
        Ok(())
    }

    /// Upserts `folder`. Always succeeds; notes, clock and the identifier
    /// counter are untouched.
    pub fn replace_folder(&mut self, folder: &Folder) -> (r: Result<(), StoreError>)
        requires
            old(self).wf(),
            issued(old(self).next_id as nat, folder.id@),
        ensures
            r is Ok,
            final(self).wf(),
            final(self).notes == old(self).notes,
            final(self).next_id == old(self).next_id,
            final(self).clock == old(self).clock,
            folder_upsert_rel(old(self).folders@, *folder, final(self).folders@),
    {
        let f = folder.clone();
        let mut i: usize = 0;
        let ghost pre = self.folders@;
        while i < self.folders.len()
            invariant
                i <= pre.len(),
                self.folders@ == pre,
                forall|j: int| 0 <= j < i ==> (#[trigger] pre[j]).id@ != folder.id@,
                f == *folder,
                old(self).wf(),
                issued(old(self).next_id as nat, folder.id@),
                pre == old(self).folders@,
                self.notes == old(self).notes,
                self.next_id == old(self).next_id,
                self.clock == old(self).clock,
            decreases pre.len() - i,
        {
            if self.folders[i].id == folder.id {
                proof {
                    assert((#[trigger] pre[i as int]).id@ == folder.id@);
                }
                self.folders.set(i, f);
                proof {
                    assert(has_folder(pre, folder.id@));
                    assert(self.folders@ == pre.update(i as int, *folder));
                    assert forall|p: int, q: int|
                        0 <= p < q < self.folders@.len() implies (#[trigger] self.folders@[p]).id@
                        != (#[trigger] self.folders@[q]).id@ by {
                        assert(self.folders@[p].id@ == pre[p].id@);
                        assert(self.folders@[q].id@ == pre[q].id@);
                    }
                    assert forall|p: int| 0 <= p < self.folders@.len() implies issued(
                        self.next_id as nat,
                        (#[trigger] self.folders@[p]).id@,
                    ) by {
                        assert(self.folders@[p].id@ == pre[p].id@);
                    }
                }
                return Ok(());
            }
            i += 1;
        }
        self.folders.push(f);
        proof {
            assert(!has_folder(pre, folder.id@));
            assert(self.folders@ == pre.push(*folder));
            assert forall|p: int, q: int|
                0 <= p < q < self.folders@.len() implies (#[trigger] self.folders@[p]).id@ != (
            #[trigger] self.folders@[q]).id@ by {
                if q < pre.len() {
                    assert(self.folders@[p].id@ == pre[p].id@);
                    assert(self.folders@[q].id@ == pre[q].id@);
                } else {
                    assert(self.folders@[p].id@ == pre[p].id@);
                    assert(self.folders@[q].id@ == folder.id@);
                }
            }
            assert forall|p: int| 0 <= p < self.folders@.len() implies issued(
                self.next_id as nat,
                (#[trigger] self.folders@[p]).id@,
            ) by {
                if p < pre.len() {
                    assert(self.folders@[p].id@ == pre[p].id@);
                } else {
                    assert(self.folders@[p].id@ == folder.id@);
                }
            }
        }
        Ok(())
    }

    /// Creates a root folder with a freshly issued identifier and appends
    /// it. Fails exactly when the identifier counter is used up, leaving
    /// the store unchanged.
    pub fn insert_root_folder(&mut self, title: String) -> (r: Result<Folder, StoreError>)
        requires
            old(self).wf(),
        ensures
            final(self).wf(),
            final(self).notes == old(self).notes,
            final(self).clock == old(self).clock,
            r is Ok <==> old(self).next_id < u64::MAX,
            match r {
                Ok(f) => {
                    &&& f.title == title
                    &&& f.parent_id is None
                    &&& f.id@ == dec_digits(old(self).next_id as nat)
                    &&& !has_folder(old(self).folders@, f.id@)
                    &&& final(self).folders@ == old(self).folders@.push(f)
                    &&& final(self).next_id == old(self).next_id + 1
                },
                Err(e) => {
                    &&& e == StoreError::IdSpaceExhausted
                    &&& final(self).folders == old(self).folders
                    &&& final(self).next_id == old(self).next_id
                },
            },
    {
        if self.next_id == u64::MAX {
            return Err(StoreError::IdSpaceExhausted);
        }
        let id = render_id(self.next_id);
        let folder = Folder { id, title, parent_id: None };
        proof {
            assert forall|p: int| 0 <= p < self.folders@.len() implies (
            #[trigger] self.folders@[p]).id@ != folder.id@ by {
                let k = choose|k: nat| k < self.next_id as nat && self.folders@[p].id@ == dec_digits(
                    k,
                );
                if self.folders@[p].id@ == folder.id@ {
                    lemma_dec_digits_injective(k, self.next_id as nat);
                }
            }
        }
        let out = folder.clone();
        let ghost pre = self.folders@;
        self.folders.push(folder);
        self.next_id = self.next_id + 1;
        proof {
            assert(out.id@ == dec_digits(old(self).next_id as nat));
            assert(self.folders@ =~= pre.push(out));
            assert forall|p: int, q: int|
                0 <= p < q < self.folders@.len() implies (#[trigger] self.folders@[p]).id@ != (
            #[trigger] self.folders@[q]).id@ by {
                if q < pre.len() {
                    assert(self.folders@[p].id@ == pre[p].id@);
                    assert(self.folders@[q].id@ == pre[q].id@);
                } else {
                    assert(self.folders@[p].id@ == pre[p].id@);
                }
            }
            assert forall|p: int| 0 <= p < self.folders@.len() implies issued(
                self.next_id as nat,
                (#[trigger] self.folders@[p]).id@,
            ) by {
                if p < pre.len() {
                    let k = choose|k: nat| k < old(self).next_id as nat && pre[p].id@ == dec_digits(
                        k,
                    );
                    assert(self.folders@[p].id@ == dec_digits(k));
                } else {
                    assert(self.folders@[p].id@ == dec_digits(old(self).next_id as nat));
                }
            }
            assert forall|p: int| 0 <= p < self.notes@.len() implies issued(
                self.next_id as nat,
                (#[trigger] self.notes@[p]).id@,
            ) by {
                let k = choose|k: nat|
                    k < old(self).next_id as nat && self.notes@[p].id@ == dec_digits(k);
                assert(self.notes@[p].id@ == dec_digits(k));
            }
        }
        Ok(out)
    }

    /// Issues a fresh note identifier without persisting anything. Fails
    /// exactly when the identifier counter is used up.
    pub fn fresh_note_id(&mut self) -> (r: Result<NoteID, StoreError>)
        requires
            old(self).wf(),
        ensures
            final(self).wf(),
            final(self).folders == old(self).folders,
            final(self).notes == old(self).notes,
            final(self).clock == old(self).clock,
            r is Ok <==> old(self).next_id < u64::MAX,
            match r {
                Ok(id) => {
                    &&& id@ == dec_digits(old(self).next_id as nat)
                    &&& !has_note(old(self).notes@, id@)
                    &&& issued(final(self).next_id as nat, id@)
                    &&& final(self).next_id == old(self).next_id + 1
                },
                Err(e) => {
                    &&& e == StoreError::IdSpaceExhausted
                    &&& final(self).next_id == old(self).next_id
                },
            },
    {
        if self.next_id == u64::MAX {
            return Err(StoreError::IdSpaceExhausted);
        }
        let id = render_id(self.next_id);
        proof {
            assert forall|p: int| 0 <= p < self.notes@.len() implies (
            #[trigger] self.notes@[p]).id@ != id@ by {
                let k = choose|k: nat| k < self.next_id as nat && self.notes@[p].id@ == dec_digits(
                    k,
                );
                if self.notes@[p].id@ == id@ {
                    lemma_dec_digits_injective(k, self.next_id as nat);
                }
            }
        }
        self.next_id = self.next_id + 1;
        proof {
            assert forall|p: int| 0 <= p < self.folders@.len() implies issued(
                self.next_id as nat,
                (#[trigger] self.folders@[p]).id@,
            ) by {
                let k = choose|k: nat|
                    k < old(self).next_id as nat && self.folders@[p].id@ == dec_digits(k);
                assert(self.folders@[p].id@ == dec_digits(k));
            }
            assert forall|p: int| 0 <= p < self.notes@.len() implies issued(
                self.next_id as nat,
                (#[trigger] self.notes@[p]).id@,
            ) by {
                let k = choose|k: nat|
                    k < old(self).next_id as nat && self.notes@[p].id@ == dec_digits(k);
                assert(self.notes@[p].id@ == dec_digits(k));
            }
        }
        Ok(id)
    }
}

} // verus!
