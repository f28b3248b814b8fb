//! Push notifications: what the settings switch and the upload nudge do,
//! and what the stored setting becomes after they run.

use vstd::prelude::*;

verus! {

/// The browser's notification permission.
#[derive(Clone, Copy, PartialEq, Eq, Structural, Debug)]
pub enum Permission {
    Granted,
    Denied,
    Default,
}

/// What a notification control sets out to do.
#[derive(Clone, Copy, PartialEq, Eq, Structural, Debug)]
pub enum NotifAction {
    /// Ask the browser for permission, then register the device again.
    RequestPermission,
    /// Unregister the device.
    Unregister,
    /// Register the device.
    Register,
    /// Nothing.
    Nothing,
}

/// How an action went.
#[derive(Clone, Copy, PartialEq, Eq, Structural, Debug)]
pub enum NotifOutcome {
    /// The permission request was granted and the device registered again.
    PermissionGranted,
    /// The viewer did not grant the permission.
    PermissionRefused,
    /// The permission could not be checked.
    PermissionCheckFailed,
    /// The registration or unregistration went through.
    Done,
    /// Unregistering found no such device.
    DeviceNotFound,
    /// The registration or unregistration failed.
    Failed,
}

/// What the settings switch sets out to do.
pub open spec fn switch_action(enabled: bool, permission: Permission) -> NotifAction {
    if enabled && permission == Permission::Default {
        NotifAction::RequestPermission
    } else if enabled {
        NotifAction::Unregister
    } else {
        NotifAction::Register
    }
}

/// The settings switch: turned on in the stored setting while the browser
/// has not decided, it asks for permission; turned on otherwise, it
/// unregisters; turned off, it registers.
pub fn settings_toggle_action(enabled: bool, permission: Permission) -> (action: NotifAction)
    ensures
        enabled && permission == Permission::Default ==> action == NotifAction::RequestPermission,
        enabled && permission != Permission::Default ==> action == NotifAction::Unregister,
        !enabled ==> action == NotifAction::Register,
        action == switch_action(enabled, permission),
{
    if enabled && permission == Permission::Default {
        NotifAction::RequestPermission
    } else if enabled {
        NotifAction::Unregister
    } else {
        NotifAction::Register
    }
}

/// The upload nudge: like the settings switch, but it never unregisters.
pub fn nudge_action(enabled: bool, permission: Permission) -> (action: NotifAction)
    ensures
        enabled && permission == Permission::Default ==> action == NotifAction::RequestPermission,
        enabled && permission != Permission::Default ==> action == NotifAction::Nothing,
        !enabled ==> action == NotifAction::Register,
{
    if enabled && permission == Permission::Default {
        NotifAction::RequestPermission
    } else if !enabled {
        NotifAction::Register
    } else {
        NotifAction::Nothing
    }
}

/// The stored setting after `action` ended in `outcome`, or nothing when it
/// stays as it was.
pub open spec fn setting_after(action: NotifAction, outcome: NotifOutcome) -> Option<bool> {
    match action {
        NotifAction::RequestPermission => if outcome == NotifOutcome::PermissionGranted {
            Some(true)
        } else {
            None
        },
        NotifAction::Unregister => if outcome == NotifOutcome::Done || outcome
            == NotifOutcome::DeviceNotFound {
            Some(false)
        } else {
            None
        },
        NotifAction::Register => if outcome == NotifOutcome::Done {
            Some(true)
        } else if outcome == NotifOutcome::Failed {
            Some(false)
        } else {
            None
        },
        NotifAction::Nothing => None,
    }
}

/// The stored setting after an action: a granted permission or a
/// registration turns it on, an unregistration (or finding no device to
/// unregister) turns it off, a failed registration turns it off; anything
/// else leaves it.
pub fn enabled_after(action: NotifAction, outcome: NotifOutcome) -> (setting: Option<bool>)
    ensures
        setting == setting_after(action, outcome),
        action == NotifAction::RequestPermission ==> setting == (if outcome
            == NotifOutcome::PermissionGranted {
            Some(true)
        } else {
            None::<bool>
        }),
        action == NotifAction::Unregister ==> setting == (if outcome == NotifOutcome::Done || outcome
            == NotifOutcome::DeviceNotFound {
            Some(false)
        } else {
            None::<bool>
        }),
        action == NotifAction::Register ==> setting == (if outcome == NotifOutcome::Done {
            Some(true)
        } else if outcome == NotifOutcome::Failed {
            Some(false)
        } else {
            None::<bool>
        }),
        action == NotifAction::Nothing ==> setting is None,
{
    match action {
        NotifAction::RequestPermission => {
            if outcome == NotifOutcome::PermissionGranted {
                Some(true)
            } else {
                None
            }
        },
        NotifAction::Unregister => {
            if outcome == NotifOutcome::Done || outcome == NotifOutcome::DeviceNotFound {
                Some(false)
            } else {
                None
            }
        },
        NotifAction::Register => {
            if outcome == NotifOutcome::Done {
                Some(true)
            } else if outcome == NotifOutcome::Failed {
                Some(false)
            } else {
                None
            }
        },
        NotifAction::Nothing => None,
    }
}

/// Whether notifications count as on: stored as on, and granted by the
/// browser.
pub fn notifications_on(enabled: bool, permission: Permission) -> (on: bool)
    ensures
        on == (enabled && permission == Permission::Granted),
{
    enabled && permission == Permission::Granted
}

/// The nudge shows when asked for and notifications are not on.
pub fn nudge_visible(requested: bool, enabled: bool, permission: Permission) -> (visible: bool)
    ensures
        visible == (!(enabled && permission == Permission::Granted) && requested),
{
    !notifications_on(enabled, permission) && requested
}

/// A device still registered with the old notification project moves to the
/// new one once: when not yet moved and notifications are on.
pub fn should_migrate_device(migrated: bool, enabled: bool, permission: Permission) -> (migrate:
    bool)
    ensures
        migrate == (!migrated && enabled && permission == Permission::Granted),
{
    !migrated && notifications_on(enabled, permission)
}

/// Switching notifications on and then off again, each step succeeding,
/// while the browser has decided on the permission: the first switch
/// registers and turns the setting on, the second unregisters and turns it
/// off.
pub proof fn law_switch_on_then_off(permission: Permission)
    requires
        permission != Permission::Default,
    ensures
        setting_after(switch_action(false, permission), NotifOutcome::Done) == Some(true),
        setting_after(switch_action(true, permission), NotifOutcome::Done) == Some(false),
{
}

} // verus!
