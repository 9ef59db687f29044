//! The per-volume disposition record that survives a restart.

use vstd::prelude::*;

verus! {

/// The only part of a volume's state that is persisted: whether the volume
/// should be exposed externally on the next load, whether it is read-only,
/// and whether the export presents it to the host as a removable drive.
pub struct PersistVDriveState {
    pub external_mount: bool,
    pub readonly: bool,
    pub removable: bool,
}

impl PersistVDriveState {
    /// The default disposition: not externally mounted, writable, removable.
    pub open spec fn spec_default() -> PersistVDriveState {
        PersistVDriveState { external_mount: false, readonly: false, removable: true }
    }
}

impl Default for PersistVDriveState {
    fn default() -> (r: PersistVDriveState)
        ensures
            r == PersistVDriveState::spec_default(),
    {
        PersistVDriveState { external_mount: false, readonly: false, removable: true }
    }
}

} // verus!
