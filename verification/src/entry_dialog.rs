//! A modal one-line entry dialog: collects a short text (a new folder's
//! title) and hands it out on confirmation.

use vstd::prelude::*;

verus! {

/// The dialog state: its visibility, the text typed so far, and whether
/// the confirm button is active.
#[derive(Debug)]
pub struct EntryDialogModel {
    pub visible: bool,
    pub entry: String,
    pub button_sensitive: bool,
}

/// Static labels the surrounding window puts on the dialog.
#[derive(Debug)]
pub struct EntryDialogInit {
    pub title: String,
    pub button_label: String,
}

/// Requests entering the dialog.
#[derive(Debug)]
pub enum EntryDialogInput {
    Show,
    Hide,
    ChangeText(String),
    ChangeButtonSensitive(bool),
    ConfirmText,
}

/// What the dialog tells its surroundings.
#[derive(Debug)]
pub enum EntryDialogOutput {
    Text(String),
}

/// How one input transforms the dialog and what it emits. Confirming
/// hands out the typed text, hides the dialog and clears the entry.
pub open spec fn dialog_step(
    pre: EntryDialogModel,
    input: EntryDialogInput,
    post: EntryDialogModel,
    effs: Seq<EntryDialogOutput>,
) -> bool {
    match input {
        EntryDialogInput::Show => {
            &&& post == EntryDialogModel { visible: true, ..pre }
            &&& effs == Seq::<EntryDialogOutput>::empty()
        },
        EntryDialogInput::Hide => {
            &&& post == EntryDialogModel { visible: false, ..pre }
            &&& effs == Seq::<EntryDialogOutput>::empty()
        },
        EntryDialogInput::ChangeText(text) => {
            &&& post == EntryDialogModel { entry: text, ..pre }
            &&& effs == Seq::<EntryDialogOutput>::empty()
        },
        EntryDialogInput::ChangeButtonSensitive(sensitive) => {
            &&& post == EntryDialogModel { button_sensitive: sensitive, ..pre }
            &&& effs == Seq::<EntryDialogOutput>::empty()
        },
        EntryDialogInput::ConfirmText => {
            &&& post.visible == false
            &&& post.entry@ == Seq::<char>::empty()
            &&& post.button_sensitive == pre.button_sensitive
            &&& effs == seq![EntryDialogOutput::Text(pre.entry)]
        },
    }
}

impl EntryDialogModel {
    /// A hidden dialog with an empty entry.
    pub fn new() -> (m: Self)
        ensures
            m.visible == false,
            m.entry@ == Seq::<char>::empty(),
            m.button_sensitive == false,
    {
        EntryDialogModel { visible: false, entry: String::new(), button_sensitive: false }
    }

    /// Handles one input.
    pub fn update(&mut self, input: EntryDialogInput) -> (effs: Vec<EntryDialogOutput>)
        ensures
            dialog_step(*old(self), input, *final(self), effs@),
    {
        let mut effs: Vec<EntryDialogOutput> = Vec::new();
        match input {
            EntryDialogInput::Show => {
                self.visible = true;
            },
            EntryDialogInput::Hide => {
                self.visible = false;
            },
            EntryDialogInput::ChangeText(text) => {
                self.entry = text;
            },
            EntryDialogInput::ChangeButtonSensitive(sensitive) => {
                self.button_sensitive = sensitive;
            },
            EntryDialogInput::ConfirmText => {
                let text = self.entry.clone();
                self.entry = String::new();
                self.visible = false;
                effs.push(EntryDialogOutput::Text(text));
                proof {
                    assert(effs@ =~= seq![EntryDialogOutput::Text(old(self).entry)]);
                }
            },
        }
        effs
    }
}

} // verus!
