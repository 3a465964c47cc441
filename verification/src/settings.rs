//! Process-wide toggles that the core consults.

use vstd::prelude::*;

verus! {

/// Whether the operator wants desktop notifications.
#[derive(Debug, Clone, Copy, PartialEq, Eq, Structural)]
pub struct NotificationSettings {
    /// Notifications are suppressed (e.g. on a headless machine).
    pub notifications_disabled: bool,
}

impl NotificationSettings {
    /// Fresh settings: notifications are on.
    pub fn new() -> (r: NotificationSettings)
        ensures
            !r.notifications_disabled,
    {
        NotificationSettings { notifications_disabled: false }
    }
}

/// Disables desktop notifications.
pub fn disable_notifications(settings: &mut NotificationSettings)
    ensures
        final(settings).notifications_disabled,
{
    settings.notifications_disabled = true;
}

} // verus!
