use ruslin_core::app_shell::{AppPage, visible_page};
use ruslin_core::content_page::ContentPageModel;
use ruslin_core::data::EditSource;
use ruslin_core::data::Note;
use ruslin_core::entry_dialog::{EntryDialogInput, EntryDialogModel, EntryDialogOutput};
use ruslin_core::login_page::{
    LoginEffect, LoginPageCommandOutput, LoginPageInput, LoginPageModel, LoginPageOutput,
};
use ruslin_core::sidebar_column::{
    SidebarColumnCommand, SidebarColumnInput, SidebarEffect, SidebarTask,
};
use ruslin_core::store::Database;
use ruslin_core::sync::{SyncConfig, SyncError, SyncInfo, SyncStatus};
use ruslin_core::worker::{FolderWorkerRequest, handle_folder_request};

#[test]
fn sync_request_dispatches_once_while_in_flight() {
    let mut page = ContentPageModel::new();
    let effs = page.sidebar.update(SidebarColumnInput::SyncRemote);
    assert_eq!(effs.len(), 1);
    assert!(matches!(
        effs[0],
        SidebarEffect::Task(SidebarTask::Synchronize { force: false })
    ));
    assert!(matches!(page.sidebar.sync_status, SyncStatus::InFlight));

    // a second request while one is in flight is ignored
    let effs = page.sidebar.update(SidebarColumnInput::SyncRemote);
    assert!(effs.is_empty());
}

#[test]
fn failed_sync_leaves_folders_and_notes_untouched() {
    let mut db = Database::new();
    db.insert_root_folder("kept".to_string()).unwrap();
    let id = db.fresh_note_id().unwrap();
    db.replace_note(
        &Note {
            id,
            folder_id: None,
            title: "kept note".to_string(),
            body: String::new(),
            updated_at: 0,
        },
        EditSource::LocalEdit,
    )
    .unwrap();

    let mut page = ContentPageModel::new();
    let reply = handle_folder_request(&mut db, FolderWorkerRequest::ReloadFolders);
    page.update_sidebar_cmd(reply);
    let folders_before: Vec<String> =
        page.sidebar.folders.iter().map(|f| f.title.clone()).collect();
    let req = match page
        .update(ruslin_core::content_page::ContentPageInput::OpenFolder(None))
        .into_iter()
        .next()
        .unwrap()
    {
        ruslin_core::note_list_column::NoteListEffect::Load(req) => req,
        _ => panic!("expected a load request"),
    };
    let notes = db.load_abbr_notes(&req.folder_id).unwrap();
    page.note_list
        .update_cmd(ruslin_core::note_list_column::NoteListColumnCommand::NotesLoaded {
            token: req.token,
            notes,
        });
    let notes_before: Vec<String> =
        page.note_list.notes.iter().map(|n| n.title.clone()).collect();

    page.sidebar.update(SidebarColumnInput::SyncRemote);
    let effs = page.update_sidebar_cmd(SidebarColumnCommand::ToastError(SyncError {
        message: "connection refused".to_string(),
    }));

    // the failure is surfaced, recorded, and changes no collection
    assert_eq!(effs.len(), 1);
    assert!(matches!(effs[0], SidebarEffect::Notify(_)));
    assert!(matches!(page.sidebar.sync_status, SyncStatus::Failed(_)));
    let folders_after: Vec<String> =
        page.sidebar.folders.iter().map(|f| f.title.clone()).collect();
    let notes_after: Vec<String> =
        page.note_list.notes.iter().map(|n| n.title.clone()).collect();
    assert_eq!(folders_before, folders_after);
    assert_eq!(notes_before, notes_after);
}

#[test]
fn successful_sync_triggers_exactly_one_reload() {
    let mut page = ContentPageModel::new();
    page.sidebar.update(SidebarColumnInput::SyncRemote);
    let effs = page.update_sidebar_cmd(SidebarColumnCommand::SyncSuccess(SyncInfo {}));
    assert_eq!(effs.len(), 1);
    assert!(matches!(
        effs[0],
        SidebarEffect::Input(SidebarColumnInput::ReloadFolders)
    ));
    assert!(matches!(page.sidebar.sync_status, SyncStatus::Succeeded(_)));
}

#[test]
fn insert_folder_then_reload_has_no_duplicates() {
    let mut db = Database::new();
    let mut page = ContentPageModel::new();

    let effs = page.sidebar.update(SidebarColumnInput::InsertFolder { title: "Work".to_string() });
    let reply = match effs.into_iter().next().unwrap() {
        SidebarEffect::Task(SidebarTask::Folder(req)) => handle_folder_request(&mut db, req),
        _ => panic!("expected a worker task"),
    };
    page.update_sidebar_cmd(reply);

    // an immediate reload replaces the collection instead of appending
    let effs = page.sidebar.update(SidebarColumnInput::ReloadFolders);
    let reply = match effs.into_iter().next().unwrap() {
        SidebarEffect::Task(SidebarTask::Folder(req)) => handle_folder_request(&mut db, req),
        _ => panic!("expected a worker task"),
    };
    page.update_sidebar_cmd(reply);

    let work_count = page.sidebar.folders.iter().filter(|f| f.title == "Work").count();
    assert_eq!(work_count, 1);
    assert_eq!(page.sidebar.folders.len(), 1);
}

#[test]
fn worker_replies_with_full_folder_set() {
    let mut db = Database::new();
    db.insert_root_folder("one".to_string()).unwrap();
    db.insert_root_folder("two".to_string()).unwrap();
    let reply = handle_folder_request(&mut db, FolderWorkerRequest::ReloadFolders);
    match reply {
        SidebarColumnCommand::ReloadFolders(v) => {
            assert_eq!(v.len(), 2);
            assert_eq!(v[0].title, "one");
            assert_eq!(v[1].title, "two");
        }
        _ => panic!("expected a folder reply"),
    }
}

#[test]
fn login_button_needs_all_three_fields() {
    let mut m = LoginPageModel::new();
    assert!(!m.can_login());
    m.update(LoginPageInput::ChangeUrl("https://example.net".to_string()));
    m.update(LoginPageInput::ChangeEmail("user@example.net".to_string()));
    assert!(!m.can_login());
    m.update(LoginPageInput::ChangePassword("pw".to_string()));
    assert!(m.can_login());
}

#[test]
fn login_dispatches_typed_credentials() {
    let mut m = LoginPageModel::new();
    m.update(LoginPageInput::ChangeUrl("https://example.net".to_string()));
    m.update(LoginPageInput::ChangeEmail("user@example.net".to_string()));
    m.update(LoginPageInput::ChangePassword("pw".to_string()));
    let effs = m.update(LoginPageInput::Login);
    assert_eq!(effs.len(), 1);
    match &effs[0] {
        LoginEffect::StartLogin(SyncConfig::JoplinServer { host, email, password }) => {
            assert_eq!(host, "https://example.net");
            assert_eq!(email, "user@example.net");
            assert_eq!(password, "pw");
        }
        _ => panic!("expected a login dispatch"),
    }
}

#[test]
fn login_completion_routes_success_and_failure() {
    let mut m = LoginPageModel::new();
    let effs = m.update_cmd(LoginPageCommandOutput::LoginResult(Ok(())));
    assert_eq!(effs.len(), 1);
    assert!(matches!(effs[0], LoginEffect::Output(LoginPageOutput::LoginSuccess)));

    let effs = m.update_cmd(LoginPageCommandOutput::LoginResult(Err(SyncError {
        message: "unauthorized".to_string(),
    })));
    assert_eq!(effs.len(), 1);
    match &effs[0] {
        LoginEffect::Notify(e) => assert_eq!(e.message, "unauthorized"),
        _ => panic!("expected a notification"),
    }
}

#[test]
fn entry_dialog_confirm_hands_out_text_and_resets() {
    let mut d = EntryDialogModel::new();
    d.update(EntryDialogInput::Show);
    assert!(d.visible);
    d.update(EntryDialogInput::ChangeText("Work".to_string()));
    d.update(EntryDialogInput::ChangeButtonSensitive(true));
    let effs = d.update(EntryDialogInput::ConfirmText);
    assert_eq!(effs.len(), 1);
    match &effs[0] {
        EntryDialogOutput::Text(t) => assert_eq!(t, "Work"),
    }
    assert!(!d.visible);
    assert!(d.entry.is_empty());
}

#[test]
fn window_shows_login_until_configured() {
    assert_eq!(visible_page(false), AppPage::Login);
    assert_eq!(visible_page(true), AppPage::Content);
}
