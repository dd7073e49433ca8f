//! The coordination guarantees, proved over the step relations the
//! panels' contracts are stated in.

use vstd::prelude::*;

use crate::content_page::ContentPageModel;
use crate::data::{AbbrNote, FolderID, Note, NoteID, count_titled};
use crate::ids::dec_digits;
use crate::note_editor_column::{NoteEditorColumnInput, NoteEditorColumnModel, editor_step};
use crate::note_list_column::{
    NoteListColumnCommand, NoteListColumnInput, NoteListColumnModel, NoteListEffect,
    NoteListColumnOutput, nl_cmd_step, nl_step,
};
use crate::sidebar_column::{
    SidebarColumnCommand, SidebarColumnInput, SidebarColumnModel, SidebarEffect, sidebar_cmd_step,
};
use crate::store::{Database, StoreError, distinct_note_ids, has_note, note_of, note_upsert_rel, stamped};
use crate::sync::{SyncError, SyncInfo};
use crate::worker::{FolderWorkerRequest, worker_step};

verus! {

/// For any interleaving of two selection changes, the displayed note
/// list converges to the folder selected last, no matter in which order
/// the two reloads complete: the completion of the earlier request is
/// stale under the final token and is discarded, in both completion
/// orders.
pub proof fn lemma_last_selection_wins(
    m0: NoteListColumnModel,
    f1: Option<FolderID>,
    m1: NoteListColumnModel,
    e1: Seq<NoteListEffect>,
    f2: Option<FolderID>,
    m2: NoteListColumnModel,
    e2: Seq<NoteListEffect>,
    notes1: Vec<AbbrNote>,
    notes2: Vec<AbbrNote>,
    ma: NoteListColumnModel,
    ea: Seq<NoteListEffect>,
    mb: NoteListColumnModel,
    eb: Seq<NoteListEffect>,
    mc: NoteListColumnModel,
    ec: Seq<NoteListEffect>,
    md: NoteListColumnModel,
    ed: Seq<NoteListEffect>,
)
    requires
        nl_step(m0, NoteListColumnInput::RefreshNotes { folder_id: f1 }, m1, e1),
        nl_step(m1, NoteListColumnInput::RefreshNotes { folder_id: f2 }, m2, e2),
        // one completion order: the first request's reload lands first
        nl_cmd_step(m2, NoteListColumnCommand::NotesLoaded { token: m1.token, notes: notes1 }, ma, ea),
        nl_cmd_step(ma, NoteListColumnCommand::NotesLoaded { token: m2.token, notes: notes2 }, mb, eb),
        // the other order: the second request's reload lands first
        nl_cmd_step(m2, NoteListColumnCommand::NotesLoaded { token: m2.token, notes: notes2 }, mc, ec),
        nl_cmd_step(mc, NoteListColumnCommand::NotesLoaded { token: m1.token, notes: notes1 }, md, ed),
    ensures
        mb.notes == notes2,
        mb.folder_id == f2,
        md.notes == notes2,
        md.folder_id == f2,
{
    assert(m1.token != m2.token);
}

/// A field edit tagged with an outdated generation is inert: once a
/// different note is opened (bumping the generation), a pending body
/// edit tagged with the old generation writes nothing to the store,
/// changes nothing in the session, and surfaces nothing.
pub proof fn lemma_stale_edit_never_lands(
    e0: NoteEditorColumnModel,
    db0: Database,
    g: u64,
    m_id: NoteID,
    e1: NoteEditorColumnModel,
    db1: Database,
    err1: Option<StoreError>,
    text: String,
    e2: NoteEditorColumnModel,
    db2: Database,
    err2: Option<StoreError>,
)
    requires
        e0.current_note is Some,
        e0.generation == g,
        editor_step(e0, db0, NoteEditorColumnInput::OpenNote { id: m_id }, e1, db1, err1),
        err1 is None,
        editor_step(e1, db1, NoteEditorColumnInput::UpdateBody { text, generation: g }, e2, db2, err2),
    ensures
        db2 == db1,
        e2 == e1,
        err2 is None,
{
    assert(e1.generation == g + 1);
}

/// A creation request binds the new note to the folder that was selected
/// when the request was made: the note-list output captures the
/// selection by value, so even when another folder is selected before
/// the creation completes, the first persisted edit files the note under
/// the captured folder.
pub proof fn lemma_create_uses_captured_folder(
    nl0: NoteListColumnModel,
    nl1: NoteListColumnModel,
    effs0: Seq<NoteListEffect>,
    f2: Option<FolderID>,
    nl2: NoteListColumnModel,
    effs1: Seq<NoteListEffect>,
    ed0: NoteEditorColumnModel,
    db0: Database,
    ed1: NoteEditorColumnModel,
    db1: Database,
    err1: Option<StoreError>,
    title: String,
    ed2: NoteEditorColumnModel,
    db2: Database,
    err2: Option<StoreError>,
)
    requires
        nl_step(nl0, NoteListColumnInput::CreateNote, nl1, effs0),
        // the selection moves on before the creation is processed
        nl_step(nl1, NoteListColumnInput::RefreshNotes { folder_id: f2 }, nl2, effs1),
        // the editor processes the captured creation request
        editor_step(
            ed0,
            db0,
            NoteEditorColumnInput::CreateNote { folder_id: nl0.folder_id },
            ed1,
            db1,
            err1,
        ),
        err1 is None,
        // the first field edit persists the note
        editor_step(
            ed1,
            db1,
            NoteEditorColumnInput::UpdateTitle { text: title, generation: ed1.generation },
            ed2,
            db2,
            err2,
        ),
        title@ != Seq::<char>::empty(),
    ensures
        effs0 == seq![
            NoteListEffect::Output(NoteListColumnOutput::CreateNote { folder_id: nl0.folder_id }),
        ],
        has_note(db2.notes@, dec_digits(db0.next_id as nat)),
        note_of(db2.notes@, dec_digits(db0.next_id as nat)).folder_id == nl0.folder_id,
{
    let id = dec_digits(db0.next_id as nat);
    let n = ed1.current_note->0;
    assert(n.id@ == id);
    assert(n.folder_id == nl0.folder_id);
    assert(n.title@ != title@);
    assert(!has_note(db1.notes@, id));
    assert(db2.notes@ == db1.notes@.push(
        stamped(Note { title: title, ..n }, db1.clock),
    ));
    let len = db2.notes@.len();
    assert(db2.notes@[len - 1].id@ == id);
    assert(has_note(db2.notes@, id));
    let w = choose|w: int| 0 <= w < db2.notes@.len() && (#[trigger] db2.notes@[w]).id@ == id;
    if w < len - 1 {
        assert(db2.notes@[w] == db1.notes@[w]);
        assert(has_note(db1.notes@, id));
    }
    assert(note_of(db2.notes@, id) == db2.notes@[len - 1]);
}

/// Inserting a folder with a previously unused title and then reloading
/// yields a collection containing that title exactly once: the reload
/// replaces the displayed set rather than appending to it.
pub proof fn lemma_insert_then_reload_unique(
    db0: Database,
    title: String,
    db1: Database,
    reply1: SidebarColumnCommand,
    s0: SidebarColumnModel,
    s1: SidebarColumnModel,
    ea: Seq<SidebarEffect>,
    db2: Database,
    reply2: SidebarColumnCommand,
    s2: SidebarColumnModel,
    eb: Seq<SidebarEffect>,
)
    requires
        db0.next_id < u64::MAX,
        count_titled(db0.folders@, title@) == 0,
        worker_step(db0, FolderWorkerRequest::InsertFolder { title }, db1, reply1),
        sidebar_cmd_step(s0, reply1, s1, ea),
        worker_step(db1, FolderWorkerRequest::ReloadFolders, db2, reply2),
        sidebar_cmd_step(s1, reply2, s2, eb),
    ensures
        count_titled(s2.folders@, title@) == 1,
{
    assert(db1.folders@.drop_last() =~= db0.folders@);
    assert(count_titled(db1.folders@, title@) == 1);
    assert(s2.folders@ == db1.folders@);
}

/// A failed synchronization leaves the page as it was: the folder
/// collection, the note list and the open note are all unchanged; only
/// the synchronization status records the failure.
pub proof fn lemma_failed_sync_leaves_page_intact(
    p0: ContentPageModel,
    e: SyncError,
    p1: ContentPageModel,
    effs: Seq<SidebarEffect>,
)
    requires
        sidebar_cmd_step(p0.sidebar, SidebarColumnCommand::ToastError(e), p1.sidebar, effs),
        p1.note_list == p0.note_list,
        p1.note_editor == p0.note_editor,
    ensures
        p1.sidebar.folders == p0.sidebar.folders,
        p1.note_list.notes == p0.note_list.notes,
        p1.note_editor.current_note == p0.note_editor.current_note,
{
}

/// A successful synchronization triggers exactly one folder reload and
/// touches no collection itself.
pub proof fn lemma_sync_success_reloads_once(
    s0: SidebarColumnModel,
    info: SyncInfo,
    s1: SidebarColumnModel,
    effs: Seq<SidebarEffect>,
)
    requires
        sidebar_cmd_step(s0, SidebarColumnCommand::SyncSuccess(info), s1, effs),
    ensures
        effs == seq![SidebarEffect::Input(SidebarColumnInput::ReloadFolders)],
        s1.folders == s0.folders,
{
}

/// Editor persistence round trip: after a note is written through the
/// store, the note stored under its identifier carries exactly the
/// written title and body.
pub proof fn lemma_replace_then_load_round_trip(db0: Database, n: Note, db1: Database)
    requires
        note_upsert_rel(db0.notes@, n, db0.clock, db1.notes@),
        distinct_note_ids(db1.notes@),
    ensures
        has_note(db1.notes@, n.id@),
        note_of(db1.notes@, n.id@).title == n.title,
        note_of(db1.notes@, n.id@).body == n.body,
{
    let id = n.id@;
    let m = stamped(n, db0.clock);
    if has_note(db0.notes@, id) {
        let i = choose|i: int|
            0 <= i < db0.notes@.len() && (#[trigger] db0.notes@[i]).id@ == id && db1.notes@
                == db0.notes@.update(i, m);
        assert(db1.notes@[i] == m);
        assert(has_note(db1.notes@, id));
        let w = choose|w: int| 0 <= w < db1.notes@.len() && (#[trigger] db1.notes@[w]).id@ == id;
        if w != i {
            assert(db1.notes@[w].id@ == db1.notes@[i].id@);
            assert(false);
        }
        assert(note_of(db1.notes@, id) == m);
    } else {
        let len = db1.notes@.len();
        assert(db1.notes@ == db0.notes@.push(m));
        assert(db1.notes@[len - 1] == m);
        assert(has_note(db1.notes@, id));
        let w = choose|w: int| 0 <= w < db1.notes@.len() && (#[trigger] db1.notes@[w]).id@ == id;
        if w != len - 1 {
            assert(db1.notes@[w].id@ == db1.notes@[len - 1].id@);
            assert(false);
        }
        assert(note_of(db1.notes@, id) == m);
    }
}

} // verus!
