use ruslin_core::content_page::{ContentPageInput, ContentPageModel, route_sidebar_output};
use ruslin_core::data::{EditSource, Note};
use ruslin_core::note_list_column::{
    NoteListColumnCommand, NoteListColumnInput, NoteListColumnModel, NoteListEffect,
    NoteListColumnOutput, NoteListLoadRequest,
};
use ruslin_core::sidebar_column::{SidebarColumnInput, SidebarColumnOutput, SidebarEffect, SidebarTask};
use ruslin_core::store::Database;
use ruslin_core::worker::handle_folder_request;

fn seed_note(db: &mut Database, folder: Option<&str>, title: &str) {
    let id = db.fresh_note_id().unwrap();
    let n = Note {
        id,
        folder_id: folder.map(|f| f.to_string()),
        title: title.to_string(),
        body: String::new(),
        updated_at: 0,
    };
    db.replace_note(&n, EditSource::LocalEdit).unwrap();
}

fn load_request(effs: Vec<NoteListEffect>) -> NoteListLoadRequest {
    assert_eq!(effs.len(), 1);
    match effs.into_iter().next().unwrap() {
        NoteListEffect::Load(req) => req,
        _ => panic!("expected a load request"),
    }
}

fn run_load(db: &Database, req: &NoteListLoadRequest) -> NoteListColumnCommand {
    let notes = db.load_abbr_notes(&req.folder_id).unwrap();
    NoteListColumnCommand::NotesLoaded { token: req.token, notes }
}

#[test]
fn refresh_issues_tagged_load_request() {
    let mut m = NoteListColumnModel::new();
    let req = load_request(m.update(NoteListColumnInput::RefreshNotes {
        folder_id: Some("5".to_string()),
    }));
    assert_eq!(req.token, 1);
    assert_eq!(req.folder_id.as_deref(), Some("5"));
    assert_eq!(m.folder_id.as_deref(), Some("5"));
}

#[test]
fn last_selection_wins_when_first_reload_is_delayed() {
    let mut db = Database::new();
    let a = db.insert_root_folder("A".to_string()).unwrap();
    let b = db.insert_root_folder("B".to_string()).unwrap();
    seed_note(&mut db, Some(&a.id), "note in a");
    seed_note(&mut db, Some(&b.id), "note in b");

    let mut m = NoteListColumnModel::new();
    let req1 = load_request(m.update(NoteListColumnInput::RefreshNotes {
        folder_id: Some(a.id.clone()),
    }));
    let req2 = load_request(m.update(NoteListColumnInput::RefreshNotes {
        folder_id: Some(b.id.clone()),
    }));

    // the second selection's reload completes first, the first trails in late
    let done2 = run_load(&db, &req2);
    let done1 = run_load(&db, &req1);
    m.update_cmd(done2);
    m.update_cmd(done1);

    assert_eq!(m.folder_id.as_deref(), Some(b.id.as_str()));
    assert_eq!(m.notes.len(), 1);
    assert_eq!(m.notes[0].title, "note in b");
}

#[test]
fn last_selection_wins_in_delivery_order_too() {
    let mut db = Database::new();
    let a = db.insert_root_folder("A".to_string()).unwrap();
    let b = db.insert_root_folder("B".to_string()).unwrap();
    seed_note(&mut db, Some(&a.id), "note in a");
    seed_note(&mut db, Some(&b.id), "note in b");

    let mut m = NoteListColumnModel::new();
    let req1 = load_request(m.update(NoteListColumnInput::RefreshNotes {
        folder_id: Some(a.id.clone()),
    }));
    let req2 = load_request(m.update(NoteListColumnInput::RefreshNotes {
        folder_id: Some(b.id.clone()),
    }));

    let done1 = run_load(&db, &req1);
    let done2 = run_load(&db, &req2);
    m.update_cmd(done1);
    m.update_cmd(done2);

    assert_eq!(m.notes.len(), 1);
    assert_eq!(m.notes[0].title, "note in b");
}

#[test]
fn failed_reload_keeps_prior_list_and_stale_failure_is_silent() {
    let mut db = Database::new();
    seed_note(&mut db, None, "kept");
    let mut m = NoteListColumnModel::new();
    let req = load_request(m.update(NoteListColumnInput::RefreshNotes { folder_id: None }));
    m.update_cmd(run_load(&db, &req));
    assert_eq!(m.notes.len(), 1);

    // a failure tagged with the current token is surfaced, the list kept
    let req2 = load_request(m.update(NoteListColumnInput::RefreshNotes { folder_id: None }));
    let effs = m.update_cmd(NoteListColumnCommand::LoadFailed {
        token: req2.token,
        error: ruslin_core::store::StoreError::NotFound,
    });
    assert_eq!(effs.len(), 1);
    assert!(matches!(effs[0], NoteListEffect::Notify(_)));
    assert_eq!(m.notes.len(), 1);
    assert_eq!(m.notes[0].title, "kept");

    // a failure tagged with an older token is discarded silently
    let effs = m.update_cmd(NoteListColumnCommand::LoadFailed {
        token: req.token,
        error: ruslin_core::store::StoreError::NotFound,
    });
    assert!(effs.is_empty());
}

#[test]
fn select_note_outputs_the_listed_id() {
    let mut db = Database::new();
    seed_note(&mut db, None, "only");
    let mut m = NoteListColumnModel::new();
    let req = load_request(m.update(NoteListColumnInput::RefreshNotes { folder_id: None }));
    m.update_cmd(run_load(&db, &req));
    assert_eq!(m.notes.len(), 1);
    let effs = m.update(NoteListColumnInput::SelectNote(0));
    assert_eq!(effs.len(), 1);
    match &effs[0] {
        NoteListEffect::Output(NoteListColumnOutput::SelectNote { id }) => {
            assert_eq!(id, &m.notes[0].id);
        }
        _ => panic!("expected a select-note output"),
    }
}

#[test]
fn create_note_captures_current_selection() {
    let mut m = NoteListColumnModel::new();
    load_request(m.update(NoteListColumnInput::RefreshNotes {
        folder_id: Some("3".to_string()),
    }));
    let effs = m.update(NoteListColumnInput::CreateNote);
    match &effs[0] {
        NoteListEffect::Output(NoteListColumnOutput::CreateNote { folder_id }) => {
            assert_eq!(folder_id.as_deref(), Some("3"));
        }
        _ => panic!("expected a create-note output"),
    }
}

#[test]
fn scenario_insert_select_and_list() {
    // start with no folders at all
    let mut db = Database::new();
    let mut page = ContentPageModel::new();
    assert!(db.load_folders().unwrap().is_empty());

    // InsertFolder("A") -> folders = [A]
    let effs = page.sidebar.update(SidebarColumnInput::InsertFolder { title: "A".to_string() });
    assert_eq!(effs.len(), 1);
    let reply = match effs.into_iter().next().unwrap() {
        SidebarEffect::Task(SidebarTask::Folder(req)) => handle_folder_request(&mut db, req),
        _ => panic!("expected a worker task"),
    };
    page.update_sidebar_cmd(reply);
    assert_eq!(page.sidebar.folders.len(), 1);
    assert_eq!(page.sidebar.folders[0].title, "A");
    let a_id = page.sidebar.folders[0].id.clone();

    // a note under A and an unfiled one
    seed_note(&mut db, Some(&a_id), "under a");
    seed_note(&mut db, None, "unfiled");

    // SelectFolder(Some(A.id)) with the note list initially empty
    assert!(page.note_list.notes.is_empty());
    let effs = page.sidebar.update(SidebarColumnInput::SelectFolderIndex(0));
    assert_eq!(effs.len(), 1);
    let out = match effs.into_iter().next().unwrap() {
        SidebarEffect::Output(out) => out,
        _ => panic!("expected a sidebar output"),
    };
    match &out {
        SidebarColumnOutput::OpenFolder { folder_id } => {
            assert_eq!(folder_id.as_deref(), Some(a_id.as_str()));
        }
    }
    let input = route_sidebar_output(out);
    let ContentPageInput::OpenFolder(ref sel) = input;
    // the reload is requested with exactly A's identifier
    assert_eq!(sel.as_deref(), Some(a_id.as_str()));
    let req = load_request(page.update(input));
    assert_eq!(req.folder_id.as_deref(), Some(a_id.as_str()));

    // only notes under A are shown
    page.note_list.update_cmd(run_load(&db, &req));
    assert_eq!(page.note_list.notes.len(), 1);
    assert_eq!(page.note_list.notes[0].title, "under a");
}
