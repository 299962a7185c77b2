//! Which window is brought to the front.

use crate::state::{HelperState, StateModel};
use vstd::prelude::*;

verus! {

/// What the user is to see.
#[derive(Clone, Copy, Debug, PartialEq, Eq, Structural)]
pub enum OpenView {
    /// The entries.
    Manage,
    /// The form for a new entry.
    Add,
    /// The sign-in.
    Login,
}

/// What is done to show it.
#[derive(Clone, Copy, Debug, PartialEq, Eq, Structural)]
pub enum SurfaceAction {
    /// Bring the main window to the front.
    ShowMain,
    /// Have the main window open the form for a new entry, and bring it to the front.
    AddInMain,
    /// Bring the open sign-in window to the front.
    FocusLogin,
    /// Have the main window take up the sign-in request, without showing it.
    AnnounceLogin,
}

/// What is done to show `view`.
pub open spec fn surfacing(view: OpenView, login_window_open: bool) -> SurfaceAction {
    match view {
        OpenView::Manage => SurfaceAction::ShowMain,
        OpenView::Add => SurfaceAction::AddInMain,
        OpenView::Login => if login_window_open {
            SurfaceAction::FocusLogin
        } else {
            SurfaceAction::AnnounceLogin
        },
    }
}

/// The state after `view` was asked for: a sign-in is requested if no sign-in window is open.
pub open spec fn surfaced(state: StateModel, view: OpenView, login_window_open: bool) -> StateModel {
    StateModel {
        login_requested: state.login_requested || surfacing(view, login_window_open)
            is AnnounceLogin,
        ..state
    }
}

/// Decides how `view` is shown, and asks for a sign-in where one is to be announced.
pub fn surface(state: &mut HelperState, view: OpenView, login_window_open: bool) -> (action:
    SurfaceAction)
    ensures
        action == surfacing(view, login_window_open),
        final(state)@ == surfaced(old(state)@, view, login_window_open),
{
    match view {
        OpenView::Manage => SurfaceAction::ShowMain,
        OpenView::Add => SurfaceAction::AddInMain,
        OpenView::Login => if login_window_open {
            SurfaceAction::FocusLogin
        } else {
            state.request_login();
            SurfaceAction::AnnounceLogin
        },
    }
}

/// Showing a window never releases the manual lock latch, nor does it change what is served.
pub proof fn law_surfacing_keeps_latch(state: StateModel, view: OpenView, login_window_open: bool)
    ensures
        surfaced(state, view, login_window_open).manual_locked == state.manual_locked,
        surfaced(state, view, login_window_open).snapshot == state.snapshot,
{
}

/// A sign-in never brings the main window to the front.
pub proof fn law_login_does_not_show_main(login_window_open: bool)
    ensures
        !(surfacing(OpenView::Login, login_window_open) is ShowMain),
        !(surfacing(OpenView::Login, login_window_open) is AddInMain),
{
}

}
