//! The folder sidebar: owns the displayed folder collection and the
//! synchronization trigger.
//!
//! Folder reloads and insertions are delegated to the background reload
//! worker through tasks; a completed reload replaces the displayed
//! collection wholesale rather than merging into it. At most one
//! synchronization is in flight at a time: a second request while one
//! runs is ignored, a success triggers exactly one folder reload, and a
//! failure leaves the collection untouched.

use vstd::prelude::*;

use crate::data::{Folder, FolderID};
use crate::sync::{SyncError, SyncInfo, SyncStatus};
use crate::worker::FolderWorkerRequest;

verus! {

/// The sidebar state: the folder collection as last delivered by the
/// worker, and the synchronization status.
#[derive(Debug)]
pub struct SidebarColumnModel {
    pub folders: Vec<Folder>,
    pub sync_status: SyncStatus,
}

/// Requests entering the sidebar.
#[derive(Debug)]
pub enum SidebarColumnInput {
    SelectFolderIndex(u32),
    SelectAllNotes,
    ShowCreateFolderDialog,
    SyncRemote,
    InsertFolder { title: String },
    ReloadFolders,
}

/// Typed completions delivered back into the sidebar's inbox.
#[derive(Debug)]
pub enum SidebarColumnCommand {
    SyncSuccess(SyncInfo),
    ReloadFolders(Vec<Folder>),
    AddedFolder,
    ToastError(SyncError),
}

/// What the sidebar tells its surroundings.
#[derive(Debug)]
pub enum SidebarColumnOutput {
    OpenFolder { folder_id: Option<FolderID> },
}

/// Long-running work the sidebar asks its surroundings to run; the
/// completion comes back as a `SidebarColumnCommand`.
#[derive(Debug)]
pub enum SidebarTask {
    Synchronize { force: bool },
    Folder(FolderWorkerRequest),
}

/// Everything the sidebar asks its surroundings to do.
#[derive(Debug)]
pub enum SidebarEffect {
    Output(SidebarColumnOutput),
    Task(SidebarTask),
    Input(SidebarColumnInput),
    ShowDialog,
    Notify(SyncError),
}

/// The inputs on which `update` is defined: a folder index must denote a
/// listed folder.
pub open spec fn sidebar_input_ok(pre: SidebarColumnModel, input: SidebarColumnInput) -> bool {
    match input {
        SidebarColumnInput::SelectFolderIndex(i) => (i as int) < pre.folders@.len(),
        _ => true,
    }
}

/// How one input transforms the sidebar and what it emits.
pub open spec fn sidebar_step(
    pre: SidebarColumnModel,
    input: SidebarColumnInput,
    post: SidebarColumnModel,
    effs: Seq<SidebarEffect>,
) -> bool {
    match input {
        SidebarColumnInput::SelectAllNotes => {
            &&& post == pre
            &&& effs == seq![
                SidebarEffect::Output(SidebarColumnOutput::OpenFolder { folder_id: None }),
            ]
        },
        SidebarColumnInput::SelectFolderIndex(i) => {
            &&& post == pre
            &&& effs == seq![
                SidebarEffect::Output(
                    SidebarColumnOutput::OpenFolder {
                        folder_id: Some(pre.folders@[i as int].id),
                    },
                ),
            ]
        },
        SidebarColumnInput::ShowCreateFolderDialog => {
            &&& post == pre
            &&& effs == seq![SidebarEffect::ShowDialog]
        },
        SidebarColumnInput::SyncRemote => {
            if pre.sync_status is InFlight {
                &&& post == pre
                &&& effs == Seq::<SidebarEffect>::empty()
            } else {
                &&& post.folders == pre.folders
                &&& post.sync_status is InFlight
                &&& effs == seq![SidebarEffect::Task(SidebarTask::Synchronize { force: false })]
            }
        },
        SidebarColumnInput::InsertFolder { title } => {
            &&& post == pre
            &&& effs == seq![
                SidebarEffect::Task(
                    SidebarTask::Folder(FolderWorkerRequest::InsertFolder { title }),
                ),
            ]
        },
        SidebarColumnInput::ReloadFolders => {
            &&& post == pre
            &&& effs == seq![
                SidebarEffect::Task(SidebarTask::Folder(FolderWorkerRequest::ReloadFolders)),
            ]
        },
    }
}

/// How one completion transforms the sidebar: success of a
/// synchronization asks for exactly one folder reload; a delivered folder
/// set replaces the collection; an error is surfaced and, when a
/// synchronization was in flight, recorded as its failure. The folder
/// collection changes only when a reload reply delivers a new set.
pub open spec fn sidebar_cmd_step(
    pre: SidebarColumnModel,
    cmd: SidebarColumnCommand,
    post: SidebarColumnModel,
    effs: Seq<SidebarEffect>,
) -> bool {
    match cmd {
        SidebarColumnCommand::SyncSuccess(info) => {
            &&& post.folders == pre.folders
            &&& post.sync_status == SyncStatus::Succeeded(info)
            &&& effs == seq![SidebarEffect::Input(SidebarColumnInput::ReloadFolders)]
        },
        SidebarColumnCommand::ReloadFolders(v) => {
            &&& post.folders == v
            &&& post.sync_status == pre.sync_status
            &&& effs == Seq::<SidebarEffect>::empty()
        },
        SidebarColumnCommand::AddedFolder => {
            &&& post == pre
            &&& effs == seq![SidebarEffect::Input(SidebarColumnInput::ReloadFolders)]
        },
        SidebarColumnCommand::ToastError(e) => {
            &&& post.folders == pre.folders
            &&& post.sync_status == if pre.sync_status is InFlight {
                SyncStatus::Failed(e)
            } else {
                pre.sync_status
            }
            &&& effs == seq![SidebarEffect::Notify(e)]
        },
    }
}

impl SidebarColumnModel {
    /// An empty sidebar with no synchronization in flight.
    pub fn new() -> (m: Self)
        ensures
            m.folders@ == Seq::<Folder>::empty(),
            m.sync_status is Idle,
    {
        SidebarColumnModel { folders: Vec::new(), sync_status: SyncStatus::Idle }
    }

    /// Handles one input.
    pub fn update(&mut self, input: SidebarColumnInput) -> (effs: Vec<SidebarEffect>)
        requires
            sidebar_input_ok(*old(self), input),
        ensures
            sidebar_step(*old(self), input, *final(self), effs@),
    {
        let mut effs: Vec<SidebarEffect> = Vec::new();
        match input {
            SidebarColumnInput::SelectAllNotes => {
                effs.push(
                    SidebarEffect::Output(SidebarColumnOutput::OpenFolder { folder_id: None }),
                );
                proof {
                    assert(effs@ =~= seq![
                        SidebarEffect::Output(
                            SidebarColumnOutput::OpenFolder { folder_id: None },
                        ),
                    ]);
                }
            },
            SidebarColumnInput::SelectFolderIndex(i) => {
                let id = self.folders[i as usize].id.clone();
                effs.push(
                    SidebarEffect::Output(SidebarColumnOutput::OpenFolder { folder_id: Some(id) }),
                );
                proof {
                    assert(effs@ =~= seq![
                        SidebarEffect::Output(
                            SidebarColumnOutput::OpenFolder {
                                folder_id: Some(self.folders@[i as int].id),
                            },
                        ),
                    ]);
                }
            },
            SidebarColumnInput::ShowCreateFolderDialog => {
                effs.push(SidebarEffect::ShowDialog);
                proof {
                    assert(effs@ =~= seq![SidebarEffect::ShowDialog]);
                }
            },
            SidebarColumnInput::SyncRemote => {
                let in_flight = match &self.sync_status {
                    SyncStatus::InFlight => true,
                    _ => false,
                };
                if !in_flight {
                    self.sync_status = SyncStatus::InFlight;
                    effs.push(SidebarEffect::Task(SidebarTask::Synchronize { force: false }));
                    proof {
                        assert(effs@ =~= seq![
                            SidebarEffect::Task(SidebarTask::Synchronize { force: false }),
                        ]);
                    }
                }
            },
            SidebarColumnInput::InsertFolder { title } => {
                let eff = SidebarEffect::Task(
                    SidebarTask::Folder(FolderWorkerRequest::InsertFolder { title }),
                );
                let ghost geff = eff;
                effs.push(eff);
                proof {
                    assert(effs@ =~= seq![geff]);
                }
            },
            SidebarColumnInput::ReloadFolders => {
                effs.push(
                    SidebarEffect::Task(SidebarTask::Folder(FolderWorkerRequest::ReloadFolders)),
                );
                proof {
                    assert(effs@ =~= seq![
                        SidebarEffect::Task(
                            SidebarTask::Folder(FolderWorkerRequest::ReloadFolders),
                        ),
                    ]);
                }
            },
        }
        effs
    }

    /// Handles one completion.
    pub fn update_cmd(&mut self, cmd: SidebarColumnCommand) -> (effs: Vec<SidebarEffect>)
        ensures
            sidebar_cmd_step(*old(self), cmd, *final(self), effs@),
    {
        let mut effs: Vec<SidebarEffect> = Vec::new();
        match cmd {
            SidebarColumnCommand::SyncSuccess(info) => {
                self.sync_status = SyncStatus::Succeeded(info);
                effs.push(SidebarEffect::Input(SidebarColumnInput::ReloadFolders));
                proof {
                    assert(effs@ =~= seq![
                        SidebarEffect::Input(SidebarColumnInput::ReloadFolders),
                    ]);
                }
            },
            SidebarColumnCommand::ReloadFolders(v) => {
                self.folders = v;
            },
            SidebarColumnCommand::AddedFolder => {
                effs.push(SidebarEffect::Input(SidebarColumnInput::ReloadFolders));
                proof {
                    assert(effs@ =~= seq![
                        SidebarEffect::Input(SidebarColumnInput::ReloadFolders),
                    ]);
                }
            },
            SidebarColumnCommand::ToastError(e) => {
                let in_flight = match &self.sync_status {
                    SyncStatus::InFlight => true,
                    _ => false,
                };
                if in_flight {
                    self.sync_status = SyncStatus::Failed(e.clone());
                }
                effs.push(SidebarEffect::Notify(e));
                proof {
                    assert(effs@ =~= seq![SidebarEffect::Notify(e)]);
                }
            },
        }
        effs
    }
}

} // verus!
