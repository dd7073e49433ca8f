//! The content page: the three panels and the routing between them.
//!
//! The page owns the sidebar, the note list and the editor, and routes
//! panel outputs onward exactly as the original wiring does: a sidebar
//! folder choice becomes a note-list refresh, a note-list choice becomes
//! an editor request. Routing copies values into messages, so what a
//! message carries is what was current when it was produced.

use vstd::prelude::*;

use crate::data::FolderID;
use crate::note_editor_column::{NoteEditorColumnInput, NoteEditorColumnModel};
use crate::note_list_column::{
    NoteListColumnInput, NoteListColumnModel, NoteListColumnOutput, NoteListEffect, nl_step,
};
use crate::sidebar_column::{
    SidebarColumnCommand, SidebarColumnModel, SidebarColumnOutput, SidebarEffect, sidebar_cmd_step,
};

verus! {

/// The three panels of the content page.
#[derive(Debug)]
pub struct ContentPageModel {
    pub sidebar: SidebarColumnModel,
    pub note_list: NoteListColumnModel,
    pub note_editor: NoteEditorColumnModel,
}

/// Requests entering the content page.
#[derive(Debug)]
pub enum ContentPageInput {
    OpenFolder(Option<FolderID>),
}

impl ContentPageModel {
    /// A page of empty panels.
    pub fn new() -> (m: Self)
        ensures
            m.sidebar.folders@.len() == 0,
            m.sidebar.sync_status is Idle,
            m.note_list.notes@.len() == 0,
            m.note_list.folder_id is None,
            m.note_list.token == 0,
            m.note_editor.current_note is None,
            m.note_editor.generation == 0,
    {
        ContentPageModel {
            sidebar: SidebarColumnModel::new(),
            note_list: NoteListColumnModel::new(),
            note_editor: NoteEditorColumnModel::new(),
        }
    }

    /// Handles one page input: opening a folder refreshes the note list.
    /// The sidebar and the editor are untouched.
    pub fn update(&mut self, input: ContentPageInput) -> (effs: Vec<NoteListEffect>)
        requires
            old(self).note_list.token < u64::MAX,
        ensures
            match input {
                ContentPageInput::OpenFolder(folder_id) => nl_step(
                    old(self).note_list,
                    NoteListColumnInput::RefreshNotes { folder_id },
                    final(self).note_list,
                    effs@,
                ),
            },
            final(self).sidebar == old(self).sidebar,
            final(self).note_editor == old(self).note_editor,
    {
        match input {
            ContentPageInput::OpenFolder(folder_id) => {
                self.note_list.update(NoteListColumnInput::RefreshNotes { folder_id })
            },
        }
    }

    /// Delivers a sidebar completion into the page. Only the sidebar
    /// changes; the note list and the editor are untouched.
    pub fn update_sidebar_cmd(&mut self, cmd: SidebarColumnCommand) -> (effs: Vec<SidebarEffect>)
        ensures
            sidebar_cmd_step(old(self).sidebar, cmd, final(self).sidebar, effs@),
            final(self).note_list == old(self).note_list,
            final(self).note_editor == old(self).note_editor,
    {
        self.sidebar.update_cmd(cmd)
    }
}

/// Routes a sidebar output onward: an opened folder becomes a page
/// input.
pub fn route_sidebar_output(out: SidebarColumnOutput) -> (input: ContentPageInput)
    ensures
        match out {
            SidebarColumnOutput::OpenFolder { folder_id } => input == ContentPageInput::OpenFolder(
                folder_id,
            ),
        },
{
    match out {
        SidebarColumnOutput::OpenFolder { folder_id } => ContentPageInput::OpenFolder(folder_id),
    }
}

/// Routes a note-list output onward: a chosen note opens in the editor,
/// a creation request begins a note under the folder the message
/// captured.
pub fn route_note_list_output(out: NoteListColumnOutput) -> (input: NoteEditorColumnInput)
    ensures
        match out {
            NoteListColumnOutput::SelectNote { id } => input == NoteEditorColumnInput::OpenNote {
                id,
            },
            NoteListColumnOutput::CreateNote { folder_id } => input
                == NoteEditorColumnInput::CreateNote { folder_id },
        },
{
    match out {
        NoteListColumnOutput::SelectNote { id } => NoteEditorColumnInput::OpenNote { id },
        NoteListColumnOutput::CreateNote { folder_id } => NoteEditorColumnInput::CreateNote {
            folder_id,
        },
    }
}

} // verus!
