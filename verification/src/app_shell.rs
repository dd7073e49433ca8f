//! The outermost page choice of the application window.
//!
//! The window shows the login page until a synchronization configuration
//! exists, and the content page from then on.

use vstd::prelude::*;

verus! {

/// Messages of the outermost window.
#[derive(Debug)]
pub enum AppMsg {
    Quit,
    RefreshPageStack,
}

/// Which page the window stack shows.
#[derive(Clone, Copy, Debug, PartialEq, Eq, Structural)]
pub enum AppPage {
    Login,
    Content,
}

/// Which page to show: the content page once a synchronization
/// configuration exists, the login page before.
pub fn visible_page(sync_config_exists: bool) -> (p: AppPage)
    ensures
        p == if sync_config_exists {
            AppPage::Content
        } else {
            AppPage::Login
        },
{
    if sync_config_exists {
        AppPage::Content
    } else {
        AppPage::Login
    }
}

} // verus!
