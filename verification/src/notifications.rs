//! The permission discipline of user-facing notifications.
//!
//! Before a notification is shown, the notification backend's permission
//! state is inspected; an undecided state leads to one permission request,
//! and only a granted state lets the notification through.  Talking to the
//! backend is the runtime's job; the decisions are kept here.

use vstd::prelude::*;

verus! {

/// The notification backend's permission state, reduced to what the
/// decisions depend on: granted, denied, or not yet decided.
#[derive(Clone, Copy, Debug, PartialEq, Eq, Structural)]
pub enum PermissionState {
    Granted,
    Denied,
    Prompt,
}

/// What to do with a notification given the current permission state.
#[derive(Clone, Copy, Debug, PartialEq, Eq, Structural)]
pub enum PermissionDecision {
    /// Permission is granted: show the notification.
    Show,
    /// Permission is denied: drop the notification silently.
    Skip,
    /// Permission is undecided: ask the user, then decide on the answer with
    /// `requested_permission_decision`.
    Request,
}

/// Decide on the permission state read from the backend: granted states show,
/// denied states skip, anything undecided triggers one permission request.
pub fn notification_permission_decision(permission_state: PermissionState) -> (r:
    PermissionDecision)
    ensures
        permission_state is Granted ==> r is Show,
        permission_state is Denied ==> r is Skip,
        permission_state is Prompt ==> r is Request,
{
    match permission_state {
        PermissionState::Granted => PermissionDecision::Show,
        PermissionState::Denied => PermissionDecision::Skip,
        PermissionState::Prompt => PermissionDecision::Request,
    }
}

/// Decide on the state that came back from a permission request: only an
/// explicit grant shows the notification; a denial or a still-undecided
/// answer drops it.
pub fn requested_permission_decision(permission_state: PermissionState) -> (r: bool)
    ensures
        r == (permission_state is Granted),
{
    match permission_state {
        PermissionState::Granted => true,
        PermissionState::Denied => false,
        PermissionState::Prompt => false,
    }
}

} // verus!
