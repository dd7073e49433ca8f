//! The note-list panel: owns the current selection and its staleness
//! token.
//!
//! Changing the selection is the single trigger for a note-list reload.
//! Each reload request carries the selection token current at request
//! time; a completion tagged with an older token is discarded, so the
//! displayed list always converges to the most recently selected folder
//! no matter in which order slow reloads complete.

use vstd::prelude::*;

use crate::data::{AbbrNote, FolderID, NoteID, clone_opt_string};
use crate::store::StoreError;

verus! {

/// The note-list panel state. `folder_id` is the active selection
/// (`None` meaning "All Notes"); `token` grows by one with every
/// selection change.
#[derive(Debug)]
pub struct NoteListColumnModel {
    pub notes: Vec<AbbrNote>,
    pub folder_id: Option<FolderID>,
    pub token: u64,
}

/// Requests entering the note-list panel.
#[derive(Debug)]
pub enum NoteListColumnInput {
    RefreshNotes { folder_id: Option<FolderID> },
    SelectNote(usize),
    CreateNote,
}

/// What the panel tells its surroundings.
#[derive(Debug)]
pub enum NoteListColumnOutput {
    SelectNote { id: NoteID },
    CreateNote { folder_id: Option<FolderID> },
}

/// A reload request the panel issues; whoever runs it queries the store
/// and answers with a `NoteListColumnCommand` carrying the same token.
#[derive(Debug)]
pub struct NoteListLoadRequest {
    pub token: u64,
    pub folder_id: Option<FolderID>,
}

/// Completion of a reload request.
#[derive(Debug)]
pub enum NoteListColumnCommand {
    NotesLoaded { token: u64, notes: Vec<AbbrNote> },
    LoadFailed { token: u64, error: StoreError },
}

/// Everything the panel asks its surroundings to do.
#[derive(Debug)]
pub enum NoteListEffect {
    Load(NoteListLoadRequest),
    Output(NoteListColumnOutput),
    Notify(StoreError),
}

/// The inputs on which `update` is defined: an index must denote a listed
/// note, and the selection token must not be used up.
pub open spec fn nl_input_ok(pre: NoteListColumnModel, input: NoteListColumnInput) -> bool {
    match input {
        NoteListColumnInput::RefreshNotes { .. } => pre.token < u64::MAX,
        NoteListColumnInput::SelectNote(i) => i < pre.notes@.len(),
        NoteListColumnInput::CreateNote => true,
    }
}

/// How one input transforms the panel and what it emits.
pub open spec fn nl_step(
    pre: NoteListColumnModel,
    input: NoteListColumnInput,
    post: NoteListColumnModel,
    effs: Seq<NoteListEffect>,
) -> bool {
    match input {
        NoteListColumnInput::RefreshNotes { folder_id } => {
            &&& post.token == pre.token + 1
            &&& post.folder_id == folder_id
            &&& post.notes == pre.notes
            &&& effs == seq![
                NoteListEffect::Load(
                    NoteListLoadRequest { token: post.token, folder_id: post.folder_id },
                ),
            ]
        },
        NoteListColumnInput::SelectNote(i) => {
            &&& post == pre
            &&& effs == seq![
                NoteListEffect::Output(NoteListColumnOutput::SelectNote { id: pre.notes@[i as int].id }),
            ]
        },
        NoteListColumnInput::CreateNote => {
            &&& post == pre
            &&& effs == seq![
                NoteListEffect::Output(
                    NoteListColumnOutput::CreateNote { folder_id: pre.folder_id },
                ),
            ]
        },
    }
}

/// How one completion transforms the panel: a completion tagged with the
/// current token replaces the displayed list; any other is stale and
/// discarded; a failure leaves the prior list intact.
pub open spec fn nl_cmd_step(
    pre: NoteListColumnModel,
    cmd: NoteListColumnCommand,
    post: NoteListColumnModel,
    effs: Seq<NoteListEffect>,
) -> bool {
    match cmd {
        NoteListColumnCommand::NotesLoaded { token, notes } => {
            if token == pre.token {
                &&& post.notes == notes
                &&& post.folder_id == pre.folder_id
                &&& post.token == pre.token
                &&& effs == Seq::<NoteListEffect>::empty()
            } else {
                &&& post == pre
                &&& effs == Seq::<NoteListEffect>::empty()
            }
        },
        NoteListColumnCommand::LoadFailed { token, error } => {
            &&& post == pre
            &&& if token == pre.token {
                effs == seq![NoteListEffect::Notify(error)]
            } else {
                effs == Seq::<NoteListEffect>::empty()
            }
        },
    }
}

impl NoteListColumnModel {
    /// An empty panel showing "All Notes".
    pub fn new() -> (m: Self)
        ensures
            m.notes@ == Seq::<AbbrNote>::empty(),
            m.folder_id is None,
            m.token == 0,
    {
        NoteListColumnModel { notes: Vec::new(), folder_id: None, token: 0 }
    }

    /// Handles one input.
    pub fn update(&mut self, input: NoteListColumnInput) -> (effs: Vec<NoteListEffect>)
        requires
            nl_input_ok(*old(self), input),
        ensures
            nl_step(*old(self), input, *final(self), effs@),
    {
        let mut effs: Vec<NoteListEffect> = Vec::new();
        match input {
            NoteListColumnInput::RefreshNotes { folder_id } => {
                self.token = self.token + 1;
                self.folder_id = folder_id;
                let req = NoteListLoadRequest {
                    token: self.token,
                    folder_id: clone_opt_string(&self.folder_id),
                };
                effs.push(NoteListEffect::Load(req));
                proof {
                    assert(effs@ =~= seq![
                        NoteListEffect::Load(
                            NoteListLoadRequest {
                                token: final(self).token,
                                folder_id: final(self).folder_id,
                            },
                        ),
                    ]);
                }
            },
            NoteListColumnInput::SelectNote(i) => {
                let id = self.notes[i].id.clone();
                effs.push(NoteListEffect::Output(NoteListColumnOutput::SelectNote { id }));
                proof {
                    assert(effs@ =~= seq![
                        NoteListEffect::Output(
                            NoteListColumnOutput::SelectNote { id: self.notes@[i as int].id },
                        ),
                    ]);
                }
            },
            NoteListColumnInput::CreateNote => {
                let folder_id = clone_opt_string(&self.folder_id);
                effs.push(NoteListEffect::Output(NoteListColumnOutput::CreateNote { folder_id }));
                proof {
                    assert(effs@ =~= seq![
                        NoteListEffect::Output(
                            NoteListColumnOutput::CreateNote { folder_id: self.folder_id },
                        ),
                    ]);
                }
            },
        }
        effs
    }

    /// Handles one reload completion.
    pub fn update_cmd(&mut self, cmd: NoteListColumnCommand) -> (effs: Vec<NoteListEffect>)
        ensures
            nl_cmd_step(*old(self), cmd, *final(self), effs@),
    {
        let mut effs: Vec<NoteListEffect> = Vec::new();
        match cmd {
            NoteListColumnCommand::NotesLoaded { token, notes } => {
                if token == self.token {
                    self.notes = notes;
                }
            },
            NoteListColumnCommand::LoadFailed { token, error } => {
                if token == self.token {
                    effs.push(NoteListEffect::Notify(error));
                    proof {
                        assert(effs@ =~= seq![NoteListEffect::Notify(error)]);
                    }
                }
            },
        }
        effs
    }
}

} // verus!
