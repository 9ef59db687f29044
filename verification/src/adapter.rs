//! The event/action adapter: translates input events on the volume's
//! window into actions, and dispatched actions into calls on the machine
//! or flips of the persisted disposition.  Events and actions addressed
//! to another volume are reported unhandled so the same dispatch can be
//! broadcast to every volume.

use vstd::prelude::*;
use crate::vdrive::VirtualDrive;
use crate::textfmt::str_eq;

verus! {

/// An input event from the controller.
#[derive(Debug, PartialEq, Eq, Structural)]
pub enum Event {
    Up,
    Down,
    Select,
}

/// An action dispatched through the surrounding action system.
pub enum UserAction {
    /// Toggle the mount of the volume whose window carries this
    /// identifier.
    ToggleVDriveMount { window: u64 },
    /// Flip the read-only flag of the volume with this name.
    ToggleDriveReadOnly { name: String },
    /// Flip the removable flag of the volume with this name.
    ToggleDriveNonRemovable { name: String },
}

/// How a dispatched action was taken: ignored, fully handled here, or
/// recognized as this volume's mount toggle, which the caller must drive
/// through the machine because it needs kernel work.
#[derive(Debug, PartialEq, Eq, Structural)]
pub enum ActionResponse {
    NotHandled,
    Handled,
    MountToggleRequested,
}

impl VirtualDrive {
    /// React to an input event on this volume's window: a select emits
    /// the action that toggles this volume's mount, tagged with the
    /// window's identifier, and is reported handled; every other event
    /// is reported unhandled with no action.
    pub fn on_event(&self, event: &Event) -> (r: (bool, Vec<UserAction>))
        ensures
            *event is Select ==> r.0 && r.1@.len() == 1 && ((#[trigger] r.1@[0])
                matches UserAction::ToggleVDriveMount { window } && window == self.window),
            !(*event is Select) ==> !r.0 && r.1@.len() == 0,
    {
        match event {
            Event::Select => {
                let mut acts: Vec<UserAction> = Vec::new();
                acts.push(UserAction::ToggleVDriveMount { window: self.window });
                (true, acts)
            },
            _ => (false, Vec::new()),
        }
    }

    /// Take a dispatched action.  A mount toggle tagged with this
    /// volume's window is acknowledged for the caller to drive (the
    /// machine itself cannot perform the kernel work); the read-only and
    /// removable toggles tagged with this volume's name flip the
    /// persisted disposition in place; anything else is ignored
    /// unchanged.
    pub fn do_action(&mut self, action: &UserAction) -> (r: ActionResponse)
        ensures
            action matches UserAction::ToggleVDriveMount { window } ==> *final(self) == *old(self)
                && r == (if window == old(self).window {
                ActionResponse::MountToggleRequested
            } else {
                ActionResponse::NotHandled
            }),
            action matches UserAction::ToggleDriveReadOnly { name } ==> (if name@ == old(
                self,
            ).volume.name@ {
                &&& final(self).persist.readonly == !old(self).persist.readonly
                &&& final(self).persist.external_mount == old(self).persist.external_mount
                &&& final(self).persist.removable == old(self).persist.removable
                &&& final(self).state == old(self).state
                &&& final(self).same_identity(*old(self))
                &&& r == ActionResponse::Handled
            } else {
                *final(self) == *old(self) && r == ActionResponse::NotHandled
            }),
            action matches UserAction::ToggleDriveNonRemovable { name } ==> (if name@ == old(
                self,
            ).volume.name@ {
                &&& final(self).persist.removable == !old(self).persist.removable
                &&& final(self).persist.external_mount == old(self).persist.external_mount
                &&& final(self).persist.readonly == old(self).persist.readonly
                &&& final(self).state == old(self).state
                &&& final(self).same_identity(*old(self))
                &&& r == ActionResponse::Handled
            } else {
                *final(self) == *old(self) && r == ActionResponse::NotHandled
            }),
    {
        match action {
            UserAction::ToggleVDriveMount { window } => {
                if *window == self.window {
                    ActionResponse::MountToggleRequested
                } else {
                    ActionResponse::NotHandled
                }
            },
            UserAction::ToggleDriveReadOnly { name } => {
                if str_eq(name.as_str(), self.volume.name.as_str()) {
                    self.persist.readonly = !self.persist.readonly;
                    ActionResponse::Handled
                } else {
                    ActionResponse::NotHandled
                }
            },
            UserAction::ToggleDriveNonRemovable { name } => {
                if str_eq(name.as_str(), self.volume.name.as_str()) {
                    self.persist.removable = !self.persist.removable;
                    ActionResponse::Handled
                } else {
                    ActionResponse::NotHandled
                }
            },
        }
    }
}

} // verus!
