//! The background reload worker: a standing actor that serializes all
//! folder-collection work.
//!
//! Both the sidebar and the synchronization trigger ask this worker for
//! folder reloads, so the two never race on the folder collection. A
//! reload replies with the full folder set, replacing rather than
//! merging; an insertion creates the root folder and then performs the
//! same reload, replying with the refreshed set. The worker processes
//! one request at a time, so a later reply always carries data at least
//! as fresh as an earlier one.

use vstd::prelude::*;

use crate::sidebar_column::SidebarColumnCommand;
use crate::store::{Database, StoreError, has_folder};
use crate::sync::SyncError;

verus! {

/// The two requests the worker serves.
#[derive(Debug)]
pub enum FolderWorkerRequest {
    ReloadFolders,
    InsertFolder { title: String },
}

/// How one request transforms the store and what the worker replies.
pub open spec fn worker_step(
    db_pre: Database,
    req: FolderWorkerRequest,
    db_post: Database,
    reply: SidebarColumnCommand,
) -> bool {
    match req {
        FolderWorkerRequest::ReloadFolders => {
            &&& db_post == db_pre
            &&& reply matches SidebarColumnCommand::ReloadFolders(v) && v@ == db_pre.folders@
        },
        FolderWorkerRequest::InsertFolder { title } => {
            if db_pre.next_id < u64::MAX {
                &&& db_post.notes == db_pre.notes
                &&& db_post.clock == db_pre.clock
                &&& db_post.next_id == db_pre.next_id + 1
                &&& db_post.folders@.len() == db_pre.folders@.len() + 1
                &&& db_post.folders@ == db_pre.folders@.push(db_post.folders@.last())
                &&& db_post.folders@.last().title@ == title@
                &&& db_post.folders@.last().parent_id is None
                &&& !has_folder(db_pre.folders@, db_post.folders@.last().id@)
                &&& reply matches SidebarColumnCommand::ReloadFolders(v) && v@ == db_post.folders@
            } else {
                &&& db_post == db_pre
                &&& reply matches SidebarColumnCommand::ToastError(e) && e.message@
                    == StoreError::IdSpaceExhausted.message_view()
            }
        },
    }
}

/// Serves one worker request against the store and returns the reply to
/// deliver into the sidebar's inbox.
pub fn handle_folder_request(db: &mut Database, req: FolderWorkerRequest) -> (reply:
    SidebarColumnCommand)
    requires
        old(db).wf(),
    ensures
        final(db).wf(),
        worker_step(*old(db), req, *final(db), reply),
{
    match req {
        FolderWorkerRequest::ReloadFolders => {
            match db.load_folders() {
                Ok(v) => SidebarColumnCommand::ReloadFolders(v),
                Err(e) => SidebarColumnCommand::ToastError(sync_error_of_store(e)),
            }
        },
        FolderWorkerRequest::InsertFolder { title } => {
            match db.insert_root_folder(title) {
                Ok(_) => {
                    match db.load_folders() {
                        Ok(v) => SidebarColumnCommand::ReloadFolders(v),
                        Err(e) => SidebarColumnCommand::ToastError(sync_error_of_store(e)),
                    }
                },
                Err(e) => SidebarColumnCommand::ToastError(sync_error_of_store(e)),
            }
        },
    }
}

/// Recasts a store failure as the error type notifications carry.
pub fn sync_error_of_store(e: StoreError) -> (r: SyncError)
    ensures
        r.message@ == e.message_view(),
{
    SyncError { message: e.message() }
}

} // verus!
