use ruslin_core::data::{EditSource, Note};
use ruslin_core::ids::render_id;
use ruslin_core::store::{Database, StoreError};

fn note(id: &str, folder: Option<&str>, title: &str, body: &str) -> Note {
    Note {
        id: id.to_string(),
        folder_id: folder.map(|f| f.to_string()),
        title: title.to_string(),
        body: body.to_string(),
        updated_at: 0,
    }
}

#[test]
fn render_id_formats_decimal() {
    assert_eq!(render_id(0), "0");
    assert_eq!(render_id(7), "7");
    assert_eq!(render_id(10), "10");
    assert_eq!(render_id(1234567890), "1234567890");
    assert_eq!(render_id(u64::MAX - 1), "18446744073709551614");
}

#[test]
fn new_store_is_empty() {
    let db = Database::new();
    let folders = db.load_folders().unwrap();
    assert!(folders.is_empty());
    let notes = db.load_abbr_notes(&None).unwrap();
    assert!(notes.is_empty());
}

#[test]
fn insert_root_folder_assigns_fresh_ids() {
    let mut db = Database::new();
    let a = db.insert_root_folder("A".to_string()).unwrap();
    let b = db.insert_root_folder("B".to_string()).unwrap();
    assert_eq!(a.id, "0");
    assert_eq!(b.id, "1");
    assert_eq!(a.title, "A");
    assert!(a.parent_id.is_none());
    let folders = db.load_folders().unwrap();
    assert_eq!(folders.len(), 2);
    assert_eq!(folders[0].title, "A");
    assert_eq!(folders[1].title, "B");
}

#[test]
fn insert_root_folder_fails_when_counter_exhausted() {
    let mut db = Database {
        folders: Vec::new(),
        notes: Vec::new(),
        next_id: u64::MAX,
        clock: 0,
    };
    let r = db.insert_root_folder("A".to_string());
    assert!(matches!(r, Err(StoreError::IdSpaceExhausted)));
    assert!(db.load_folders().unwrap().is_empty());
}

#[test]
fn load_note_reports_not_found() {
    let db = Database::new();
    let r = db.load_note(&"0".to_string());
    assert!(matches!(r, Err(StoreError::NotFound)));
}

#[test]
fn replace_note_then_load_round_trips_title_and_body() {
    let mut db = Database::new();
    let id = db.fresh_note_id().unwrap();
    let n = note(&id, None, "groceries", "milk, eggs");
    db.replace_note(&n, EditSource::LocalEdit).unwrap();
    let loaded = db.load_note(&id).unwrap();
    assert_eq!(loaded.title, "groceries");
    assert_eq!(loaded.body, "milk, eggs");
    assert_eq!(loaded.id, id);
}

#[test]
fn replace_note_updates_in_place_not_append() {
    let mut db = Database::new();
    let id = db.fresh_note_id().unwrap();
    db.replace_note(&note(&id, None, "first", "a"), EditSource::LocalEdit).unwrap();
    db.replace_note(&note(&id, None, "second", "b"), EditSource::LocalEdit).unwrap();
    let all = db.load_abbr_notes(&None).unwrap();
    assert_eq!(all.len(), 1);
    assert_eq!(all[0].title, "second");
}

#[test]
fn replace_note_stamps_monotonic_times() {
    let mut db = Database::new();
    let id1 = db.fresh_note_id().unwrap();
    let id2 = db.fresh_note_id().unwrap();
    db.replace_note(&note(&id1, None, "a", ""), EditSource::LocalEdit).unwrap();
    db.replace_note(&note(&id2, None, "b", ""), EditSource::LocalEdit).unwrap();
    let n1 = db.load_note(&id1).unwrap();
    let n2 = db.load_note(&id2).unwrap();
    assert!(n1.updated_at < n2.updated_at);
}

#[test]
fn load_abbr_notes_filters_by_selection() {
    let mut db = Database::new();
    let a = db.insert_root_folder("A".to_string()).unwrap();
    let b = db.insert_root_folder("B".to_string()).unwrap();
    let id1 = db.fresh_note_id().unwrap();
    let id2 = db.fresh_note_id().unwrap();
    let id3 = db.fresh_note_id().unwrap();
    db.replace_note(&note(&id1, Some(&a.id), "in a", ""), EditSource::LocalEdit).unwrap();
    db.replace_note(&note(&id2, Some(&b.id), "in b", ""), EditSource::LocalEdit).unwrap();
    db.replace_note(&note(&id3, None, "unfiled", ""), EditSource::LocalEdit).unwrap();

    let all = db.load_abbr_notes(&None).unwrap();
    assert_eq!(all.len(), 3);

    let under_a = db.load_abbr_notes(&Some(a.id.clone())).unwrap();
    assert_eq!(under_a.len(), 1);
    assert_eq!(under_a[0].title, "in a");

    let under_b = db.load_abbr_notes(&Some(b.id.clone())).unwrap();
    assert_eq!(under_b.len(), 1);
    assert_eq!(under_b[0].title, "in b");
}

#[test]
fn replace_folder_renames_in_place() {
    let mut db = Database::new();
    let mut a = db.insert_root_folder("A".to_string()).unwrap();
    a.title = "Renamed".to_string();
    db.replace_folder(&a).unwrap();
    let folders = db.load_folders().unwrap();
    assert_eq!(folders.len(), 1);
    assert_eq!(folders[0].title, "Renamed");
    assert_eq!(folders[0].id, a.id);
}

#[test]
fn store_error_messages() {
    assert_eq!(StoreError::NotFound.message(), "note not found");
    assert_eq!(StoreError::IdSpaceExhausted.message(), "identifier space exhausted");
}
