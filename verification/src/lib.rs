//! Coordination core of a panel-based note-taking client.
//!
//! The library owns the navigation and asynchronous-command coordination
//! logic: the selection state machine across the folder sidebar, the note
//! list and the note editor, the edit session with its staleness guard, the
//! background folder-reload worker, and the synchronization trigger. Slow
//! operations are represented as requests and typed completion messages, so
//! that a late completion can be recognised and discarded instead of
//! clobbering newer user state.

pub mod app_shell;
pub mod content_page;
pub mod data;
pub mod entry_dialog;
pub mod ids;
pub mod laws;
pub mod login_page;
pub mod note_editor_column;
pub mod note_list_column;
pub mod sidebar_column;
pub mod store;
pub mod sync;
pub mod worker;
