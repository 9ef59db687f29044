//! The mount-state machine of one logical volume.
//!
//! Every operation that needs a kernel resource is split in two: a query
//! that says what the surrounding program must do (export, unexport, run a
//! teardown plan, scan an attached loopback device), and a transition that
//! takes the outcome of that work as a plain value and moves the machine.
//! The transitions are total: they state what happens from every mode and
//! for every outcome.

use vstd::prelude::*;
use vstd::string::StrSliceExecFns;
use vstd::string::StringExecFns;
use crate::persist::PersistVDriveState;
use crate::mount::{
    IsoHandle, MountInfo, MountState, VdriveError, PartitionScan, InternalMountOutcome,
    TeardownStep, PartitionPlan, spec_mount_point, spec_iso_path, spec_mount_paths,
    spec_iso_paths, spec_part_isos, names_view, iso_view, scans_well_formed,
    selects_partition, spec_plans, lemma_plans_prefix_none, mount_point_path, iso_path,
    clone_string_vec, is_hidden_name,
};
use crate::textfmt::{
    spec_size_label, size_label, trailing_digit_len, spec_base_name, base_name_of, str_eq,
    str_starts_with, trailing_digit_count,
};

verus! {

/// The immutable identity of the backing logical volume: its unique name,
/// its size in bytes, and the path of its backing store.
pub struct LogicalVolume {
    pub name: String,
    pub size: u64,
    pub path: String,
}

/// What the surrounding program must hand to the gadget export endpoint
/// to expose the volume externally.
pub struct ExportRequest {
    pub path: String,
    pub direct_attach: bool,
    pub readonly: bool,
    pub removable: bool,
}

/// Which mount operation the load path must attempt after the persisted
/// disposition has been restored.
#[derive(Debug, PartialEq, Eq, Structural)]
pub enum LoadAction {
    MountExternal,
    MountInternal,
}

/// One volume's mount-state machine, bound to its backing volume, its
/// on-screen window, its display name, and its persisted disposition.
pub struct VirtualDrive {
    pub state: MountState,
    pub volume: LogicalVolume,
    pub window: u64,
    pub display_name: String,
    pub auto_fstrim: bool,
    pub persist: PersistVDriveState,
}

impl VirtualDrive {
    /// The fields no transition ever changes.
    pub open spec fn same_identity(self, other: VirtualDrive) -> bool {
        &&& self.volume == other.volume
        &&& self.window == other.window
        &&& self.display_name == other.display_name
        &&& self.auto_fstrim == other.auto_fstrim
    }

    /// Which mount the load path attempts: the external export when the
    /// persisted disposition says so, the internal mount otherwise.
    pub open spec fn spec_load_action(self) -> LoadAction {
        if self.persist.external_mount {
            LoadAction::MountExternal
        } else {
            LoadAction::MountInternal
        }
    }

    /// A fresh machine for one volume: unmounted, with the default
    /// disposition.
    pub fn new(window: u64, volume: LogicalVolume, display_name: String, auto_fstrim: bool) -> (r:
        VirtualDrive)
        ensures
            r.state is Unmounted,
            r.volume == volume,
            r.window == window,
            r.display_name == display_name,
            r.auto_fstrim == auto_fstrim,
            r.persist == PersistVDriveState::spec_default(),
    {
        VirtualDrive {
            state: MountState::Unmounted,
            volume,
            window,
            display_name,
            auto_fstrim,
            persist: PersistVDriveState::default(),
        }
    }

    /// The volume's unique name.
    pub fn name(&self) -> (r: &str)
        ensures
            r@ == self.volume.name@,
    {
        self.volume.name.as_str()
    }

    /// The volume's size in bytes.
    pub fn size(&self) -> (r: u64)
        ensures
            r == self.volume.size,
    {
        self.volume.size
    }

    /// The stable key under which the disposition is persisted: the
    /// volume's name.
    pub fn key(&self) -> (r: String)
        ensures
            r@ == self.volume.name@,
    {
        self.volume.name.clone()
    }

    /// The identifier of the volume's on-screen window.
    pub fn windowid(&self) -> (r: u64)
        ensures
            r == self.window,
    {
        self.window
    }

    /// What an external mount must export: the backing path with the
    /// current read-only and removable flags, attached directly as a
    /// file.  There is something to do exactly when the volume is
    /// unmounted.
    pub fn export_request(&self) -> (r: Option<ExportRequest>)
        ensures
            r is Some <==> self.state is Unmounted,
            r matches Some(req) ==> req.path@ == self.volume.path@ && req.direct_attach
                && req.readonly == self.persist.readonly && req.removable
                == self.persist.removable,
    {
        match &self.state {
            MountState::Unmounted => Some(
                ExportRequest {
                    path: self.volume.path.clone(),
                    direct_attach: true,
                    readonly: self.persist.readonly,
                    removable: self.persist.removable,
                },
            ),
            _ => None,
        }
    }

    /// The export identifier the surrounding program must release, when
    /// the volume is currently exported.
    pub fn unexport_request(&self) -> (r: Option<u64>)
        ensures
            r is Some <==> self.state is External,
            self.state matches MountState::External(id) ==> r == Some(id),
    {
        match &self.state {
            MountState::External(id) => Some(*id),
            _ => None,
        }
    }

    /// Move to the external mode.  A no-op when already external; refused
    /// while mounted internally; from unmounted, consumes the outcome of
    /// the export requested by [`Self::export_request`]: success stores
    /// the export identifier and marks the disposition external, failure
    /// changes nothing and propagates.
    pub fn mount_external(&mut self, export: Option<Result<u64, String>>) -> (r: Result<
        (),
        VdriveError,
    >)
        requires
            old(self).state is Unmounted ==> export is Some,
        ensures
            old(self).state is External ==> *final(self) == *old(self)
                && r == Ok::<(), VdriveError>(()),
            old(self).state is Internal ==> *final(self) == *old(self)
                && r == Err::<(), VdriveError>(VdriveError::InvalidTransition),
            old(self).state is Unmounted ==> (export matches Some(Ok(id)) ==> {
                &&& final(self).state == MountState::External(id)
                &&& final(self).persist.external_mount
                &&& final(self).persist.readonly == old(self).persist.readonly
                &&& final(self).persist.removable == old(self).persist.removable
                &&& final(self).same_identity(*old(self))
                &&& r == Ok::<(), VdriveError>(())
            }),
            old(self).state is Unmounted ==> (export matches Some(Err(m)) ==> *final(self) == *old(self) && r == Err::<(), VdriveError>(VdriveError::ResourceFailure(m))),
    {
        match &self.state {
            MountState::External(_) => Ok(()),
            MountState::Internal(_) => Err(VdriveError::InvalidTransition),
            MountState::Unmounted => match export {
                Some(Ok(id)) => {
                    self.state = MountState::External(id);
                    self.persist.external_mount = true;
                    Ok(())
                },
                Some(Err(m)) => Err(VdriveError::ResourceFailure(m)),
                None => {
                    assert(false);
                    Err(VdriveError::InvalidTransition)
                },
            },
        }
    }

    /// Leave the external mode.  A no-op when already unmounted (though
    /// it still clears the disposition's external flag); refused while
    /// mounted internally; from external, consumes the outcome of
    /// releasing the export named by [`Self::unexport_request`]: success
    /// clears the state and the flag, failure changes nothing and
    /// propagates.
    pub fn unmount_external(&mut self, unexport: Option<Result<(), String>>) -> (r: Result<
        (),
        VdriveError,
    >)
        requires
            old(self).state is External ==> unexport is Some,
        ensures
            old(self).state is Unmounted || (old(self).state is External && unexport matches Some(
                Ok(u))) ==> {
                &&& final(self).state is Unmounted
                &&& !final(self).persist.external_mount
                &&& final(self).persist.readonly == old(self).persist.readonly
                &&& final(self).persist.removable == old(self).persist.removable
                &&& final(self).same_identity(*old(self))
                &&& r == Ok::<(), VdriveError>(())
            },
            old(self).state is Internal ==> *final(self) == *old(self)
                && r == Err::<(), VdriveError>(VdriveError::InvalidTransition),
            old(self).state is External ==> (unexport matches Some(Err(m)) ==> *final(self) == *old(self) && r == Err::<(), VdriveError>(VdriveError::ResourceFailure(m))),
            old(self).state is External ==> (r is Ok <==> unexport == Some(Ok::<(), String>(()))),
    {
        match &self.state {
            MountState::Internal(_) => {
                return Err(VdriveError::InvalidTransition);
            },
            MountState::External(_) => match unexport {
                Some(Ok(u)) => {
                    proof {
                        assert(u == ());
                    }
                },
                Some(Err(m)) => {
                    return Err(VdriveError::ResourceFailure(m));
                },
                None => {
                    assert(false);
                    return Err(VdriveError::InvalidTransition);
                },
            },
            MountState::Unmounted => {},
        }
        self.state = MountState::Unmounted;
        self.persist.external_mount = false;
        Ok(())
    }

    /// The partitions an internal mount must try, derived from the free
    /// loopback device's path and the device directory listing: every
    /// entry whose name extends the device's base name, with the mount
    /// point to use for it.  Fails when the loopback path has no base
    /// name, or when a matching entry has no trailing partition number.
    pub fn partition_plans(&self, loopback_path: &str, dev_entries: &Vec<String>) -> (r: Result<
        Vec<PartitionPlan>,
        VdriveError,
    >)
        ensures
            spec_base_name(loopback_path@).len() == 0 ==> r == Err::<
                Vec<PartitionPlan>,
                VdriveError,
            >(VdriveError::MalformedInput),
            spec_base_name(loopback_path@).len() > 0 ==> match spec_plans(
                names_view(dev_entries@),
                spec_base_name(loopback_path@),
                self.display_name@,
            ) {
                None => r == Err::<Vec<PartitionPlan>, VdriveError>(
                    VdriveError::MalformedInput,
                ),
                Some(ps) => r matches Ok(v) && v@.len() == ps.len() && (forall|j: int|
                    0 <= j < ps.len() ==> (#[trigger] v@[j]).dev_name@ == ps[j].0
                        && v@[j].mount_point@ == ps[j].1),
            },
    {
        let base = base_name_of(loopback_path);
        if base.unicode_len() == 0 {
            return Err(VdriveError::MalformedInput);
        }
        let ghost entries = names_view(dev_entries@);
        let ghost disp = self.display_name@;
        let mut v: Vec<PartitionPlan> = Vec::new();
        let mut i: usize = 0;
        while i < dev_entries.len()
            invariant
                i <= dev_entries@.len(),
                base@ == spec_base_name(loopback_path@),
                base@.len() > 0,
                entries == names_view(dev_entries@),
                disp == self.display_name@,
                spec_plans(entries.subrange(0, i as int), base@, disp) matches Some(ps)
                    && v@.len() == ps.len() && (forall|j: int|
                    0 <= j < ps.len() ==> (#[trigger] v@[j]).dev_name@ == ps[j].0
                        && v@[j].mount_point@ == ps[j].1),
            decreases dev_entries@.len() - i,
        {
            let e = &dev_entries[i];
            proof {
                assert(entries.subrange(0, i + 1).drop_last() =~= entries.subrange(0, i as int));
                assert(entries.subrange(0, i + 1).last() == e@);
            }
            if str_starts_with(e.as_str(), base) && !str_eq(e.as_str(), base) {
                assert(selects_partition(e@, base@));
                if trailing_digit_len(e.as_str()) == 0 {
                    proof {
                        assert(spec_plans(entries.subrange(0, i + 1), base@, disp) is None);
                        lemma_plans_prefix_none(entries, base@, disp, i + 1);
                    }
                    return Err(VdriveError::MalformedInput);
                }
                let mp = mount_point_path(self.display_name.as_str(), e.as_str());
                v.push(PartitionPlan { dev_name: e.clone(), mount_point: mp });
            } else {
                assert(!selects_partition(e@, base@));
            }
            i = i + 1;
        }
        proof {
            assert(entries.subrange(0, dev_entries@.len() as int) =~= entries);
        }
        Ok(v)
    }

    /// Move to the internal mode.  Idempotent: when already internal it
    /// returns the existing mount information unchanged and asks for no
    /// further kernel work.  Refused while exported externally.  From
    /// unmounted, consumes the outcome of the loopback attach and
    /// partition scan: an early failure propagates unchanged, a scan
    /// with a malformed device name is rejected whole, and otherwise the
    /// machine records the loopback path, the mount points of the
    /// partitions that mounted, and the visible nested images discovered
    /// under each of them.
    pub fn mount_internal(&mut self, outcome: Option<InternalMountOutcome>) -> (r: Result<
        MountInfo,
        VdriveError,
    >)
        requires
            old(self).state is Unmounted ==> outcome is Some,
        ensures
            old(self).state matches MountState::Internal(info) ==> *final(self) == *old(self) && (
            r matches Ok(ri) && ri.loopback_path@ == info.loopback_path@ && names_view(
                ri.part_mount_paths@,
            ) == names_view(info.part_mount_paths@) && iso_view(ri.isos@) == iso_view(info.isos@)),
            old(self).state is External ==> *final(self) == *old(self) && r == Err::<
                MountInfo,
                VdriveError,
            >(VdriveError::InvalidTransition),
            old(self).state is Unmounted ==> (outcome matches Some(InternalMountOutcome::Failed(e))
                ==> *final(self) == *old(self) && r == Err::<MountInfo, VdriveError>(e)),
            old(self).state is Unmounted ==> (outcome matches Some(
                InternalMountOutcome::Scanned { loopback_path, parts },
            ) ==> if scans_well_formed(parts@) {
                &&& final(self).state matches MountState::Internal(info)
                    && info.loopback_path@ == loopback_path@ && names_view(info.part_mount_paths@)
                    == spec_mount_paths(parts@, old(self).display_name@) && iso_view(info.isos@)
                    == spec_iso_paths(parts@, old(self).display_name@)
                &&& final(self).persist == old(self).persist
                &&& final(self).same_identity(*old(self))
                &&& r matches Ok(ri) && ri.loopback_path@ == loopback_path@ && names_view(
                    ri.part_mount_paths@,
                ) == spec_mount_paths(parts@, old(self).display_name@) && iso_view(ri.isos@)
                    == spec_iso_paths(parts@, old(self).display_name@)
            } else {
                *final(self) == *old(self) && r == Err::<MountInfo, VdriveError>(
                    VdriveError::MalformedInput,
                )
            }),
    {
        match &self.state {
            MountState::Internal(info) => Ok(info.duplicate()),
            MountState::External(_) => Err(VdriveError::InvalidTransition),
            MountState::Unmounted => match outcome {
                Some(InternalMountOutcome::Failed(e)) => Err(e),
                Some(InternalMountOutcome::Scanned { loopback_path, parts }) => {
                    if !scans_all_well_formed(&parts) {
                        return Err(VdriveError::MalformedInput);
                    }
                    let info = build_internal_info(
                        self.display_name.as_str(),
                        loopback_path,
                        &parts,
                    );
                    let ret = info.duplicate();
                    self.state = MountState::Internal(info);
                    Ok(ret)
                },
                None => {
                    assert(false);
                    Err(VdriveError::InvalidTransition)
                },
            },
        }
    }

    /// The steps the surrounding program must perform, in order, to tear
    /// the internal mount down: every nested image is unmounted strictly
    /// before any partition, every partition strictly before the
    /// loopback detach.  Empty when the volume is not mounted
    /// internally.
    pub fn internal_teardown_plan(&self) -> (r: Vec<TeardownStep>)
        ensures
            self.state matches MountState::Internal(info) ==> ({
                let ni = info.isos@.len() as int;
                let np = info.part_mount_paths@.len() as int;
                &&& r@.len() == ni + np + 1
                &&& (forall|k: int|
                    0 <= k < ni ==> ((#[trigger] r@[k]) matches TeardownStep::UnmountImage { path }
                        && path@ == info.isos@[k].path@))
                &&& (forall|k: int|
                    ni <= k < ni + np ==> ((
                    #[trigger] r@[k]) matches TeardownStep::UnmountPartition { path } && path@
                        == info.part_mount_paths@[k - ni]@))
                &&& (r@[ni + np] matches TeardownStep::DetachLoopback { path } && path@
                    == info.loopback_path@)
            }),
            !(self.state is Internal) ==> r@.len() == 0,
    {
        match &self.state {
            MountState::Internal(info) => {
                let mut r: Vec<TeardownStep> = Vec::new();
                let mut i: usize = 0;
                while i < info.isos.len()
                    invariant
                        i <= info.isos@.len(),
                        r@.len() == i,
                        forall|k: int|
                            0 <= k < i ==> ((
                            #[trigger] r@[k]) matches TeardownStep::UnmountImage { path } && path@
                                == info.isos@[k].path@),
                    decreases info.isos@.len() - i,
                {
                    r.push(TeardownStep::UnmountImage { path: info.isos[i].path.clone() });
                    i = i + 1;
                }
                let mut j: usize = 0;
                while j < info.part_mount_paths.len()
                    invariant
                        j <= info.part_mount_paths@.len(),
                        r@.len() == info.isos@.len() + j,
                        forall|k: int|
                            0 <= k < info.isos@.len() ==> ((
                            #[trigger] r@[k]) matches TeardownStep::UnmountImage { path } && path@
                                == info.isos@[k].path@),
                        forall|k: int|
                            info.isos@.len() <= k < info.isos@.len() + j ==> ((
                            #[trigger] r@[k]) matches TeardownStep::UnmountPartition { path }
                                && path@ == info.part_mount_paths@[k - info.isos@.len()]@),
                    decreases info.part_mount_paths@.len() - j,
                {
                    r.push(
                        TeardownStep::UnmountPartition {
                            path: info.part_mount_paths[j].clone(),
                        },
                    );
                    j = j + 1;
                }
                r.push(TeardownStep::DetachLoopback { path: info.loopback_path.clone() });
                r
            },
            _ => Vec::new(),
        }
    }

    /// Leave the internal mode.  A no-op when already unmounted; refused
    /// while exported externally.  From internal, consumes the outcome
    /// of running the teardown plan of [`Self::internal_teardown_plan`]:
    /// full success discards the mount information, while a failure of
    /// any step halts the teardown, changes nothing here and propagates
    /// (already-released resources stay released on the system side).
    pub fn unmount_internal(&mut self, teardown: Option<Result<(), VdriveError>>) -> (r: Result<
        (),
        VdriveError,
    >)
        requires
            old(self).state is Internal ==> teardown is Some,
        ensures
            old(self).state is Unmounted ==> *final(self) == *old(self) && r == Ok::<
                (),
                VdriveError,
            >(()),
            old(self).state is External ==> *final(self) == *old(self) && r == Err::<
                (),
                VdriveError,
            >(VdriveError::InvalidTransition),
            old(self).state is Internal && teardown == Some(Ok::<(), VdriveError>(())) ==> {
                &&& final(self).state is Unmounted
                &&& final(self).persist == old(self).persist
                &&& final(self).same_identity(*old(self))
                &&& r == Ok::<(), VdriveError>(())
            },
            old(self).state is Internal ==> (teardown matches Some(Err(e)) ==> *final(self) == *old(
                self) && r == Err::<(), VdriveError>(e)),
            old(self).state is Internal ==> (r is Ok <==> teardown == Some(Ok::<(), VdriveError>(
            ()))),
    {
        match &self.state {
            MountState::Unmounted => Ok(()),
            MountState::External(_) => Err(VdriveError::InvalidTransition),
            MountState::Internal(_) => match teardown {
                Some(Ok(u)) => {
                    proof {
                        assert(u == ());
                    }
                    self.state = MountState::Unmounted;
                    Ok(())
                },
                Some(Err(e)) => Err(e),
                None => {
                    assert(false);
                    Err(VdriveError::InvalidTransition)
                },
            },
        }
    }

    /// Leave whatever mode is current: a no-op when unmounted, otherwise
    /// the matching unmount operation, fed with the outcome of the work
    /// it needed.
    pub fn unmount(
        &mut self,
        teardown: Option<Result<(), VdriveError>>,
        unexport: Option<Result<(), String>>,
    ) -> (r: Result<(), VdriveError>)
        requires
            old(self).state is Internal ==> teardown is Some,
            old(self).state is External ==> unexport is Some,
        ensures
            old(self).state is Unmounted ==> *final(self) == *old(self) && r == Ok::<
                (),
                VdriveError,
            >(()),
            old(self).state is Internal && teardown == Some(Ok::<(), VdriveError>(())) ==> {
                &&& final(self).state is Unmounted
                &&& final(self).persist == old(self).persist
                &&& final(self).same_identity(*old(self))
                &&& r == Ok::<(), VdriveError>(())
            },
            old(self).state is Internal ==> (teardown matches Some(Err(e)) ==> *final(self) == *old(
                self) && r == Err::<(), VdriveError>(e)),
            old(self).state is External ==> (unexport matches Some(Ok(u)) ==> {
                &&& final(self).state is Unmounted
                &&& !final(self).persist.external_mount
                &&& final(self).persist.readonly == old(self).persist.readonly
                &&& final(self).persist.removable == old(self).persist.removable
                &&& final(self).same_identity(*old(self))
                &&& r == Ok::<(), VdriveError>(())
            }),
            old(self).state is External ==> (unexport matches Some(Err(m)) ==> *final(self) == *old(
                self) && r == Err::<(), VdriveError>(VdriveError::ResourceFailure(m))),
    {
        match &self.state {
            MountState::Unmounted => Ok(()),
            MountState::Internal(_) => self.unmount_internal(teardown),
            MountState::External(_) => self.unmount_external(unexport),
        }
    }

    /// Toggle the exposure mode, always passing through `Unmounted`: from
    /// unmounted straight to external, from internal down and then to
    /// external, from external down and then to internal.  Each step
    /// consumes the outcome of the kernel work it needed; a failed step
    /// halts the composite where it stands, with no attempt to restore
    /// the prior mode.
    pub fn toggle_mount(&mut self, env: ToggleEnv) -> (r: Result<(), VdriveError>)
        requires
            old(self).state is Unmounted ==> env.export is Some,
            old(self).state is Internal ==> env.teardown is Some,
            old(self).state is Internal && env.teardown == Some(Ok::<(), VdriveError>(()))
                ==> env.export is Some,
            old(self).state is External ==> env.unexport is Some,
            old(self).state is External && env.unexport == Some(Ok::<(), String>(()))
                ==> env.internal is Some,
        ensures
            old(self).state is Unmounted ==> (env.export matches Some(Ok(id)) ==> {
                &&& final(self).state == MountState::External(id)
                &&& final(self).persist.external_mount
                &&& final(self).persist.readonly == old(self).persist.readonly
                &&& final(self).persist.removable == old(self).persist.removable
                &&& final(self).same_identity(*old(self))
                &&& r == Ok::<(), VdriveError>(())
            }),
            old(self).state is Unmounted ==> (env.export matches Some(Err(m)) ==> *final(self)
                == *old(self) && r == Err::<(), VdriveError>(VdriveError::ResourceFailure(m))),
            old(self).state is Internal ==> (env.teardown matches Some(Err(e)) ==> *final(self)
                == *old(self) && r == Err::<(), VdriveError>(e)),
            old(self).state is Internal && env.teardown == Some(Ok::<(), VdriveError>(())) ==> (
            env.export matches Some(Ok(id)) ==> {
                &&& final(self).state == MountState::External(id)
                &&& final(self).persist.external_mount
                &&& final(self).persist.readonly == old(self).persist.readonly
                &&& final(self).persist.removable == old(self).persist.removable
                &&& final(self).same_identity(*old(self))
                &&& r == Ok::<(), VdriveError>(())
            }),
            old(self).state is Internal && env.teardown == Some(Ok::<(), VdriveError>(())) ==> (
            env.export matches Some(Err(m)) ==> {
                &&& final(self).state is Unmounted
                &&& final(self).persist == old(self).persist
                &&& final(self).same_identity(*old(self))
                &&& r == Err::<(), VdriveError>(VdriveError::ResourceFailure(m))
            }),
            old(self).state is External ==> (env.unexport matches Some(Err(m)) ==> *final(self)
                == *old(self) && r == Err::<(), VdriveError>(VdriveError::ResourceFailure(m))),
            old(self).state is External && env.unexport == Some(Ok::<(), String>(())) ==> (
            env.internal matches Some(InternalMountOutcome::Failed(e)) ==> {
                &&& final(self).state is Unmounted
                &&& !final(self).persist.external_mount
                &&& final(self).persist.readonly == old(self).persist.readonly
                &&& final(self).persist.removable == old(self).persist.removable
                &&& final(self).same_identity(*old(self))
                &&& r == Err::<(), VdriveError>(e)
            }),
            old(self).state is External && env.unexport == Some(Ok::<(), String>(())) ==> (
            env.internal matches Some(InternalMountOutcome::Scanned { loopback_path, parts })
                ==> if scans_well_formed(parts@) {
                &&& final(self).state matches MountState::Internal(info)
                    && info.loopback_path@ == loopback_path@ && names_view(info.part_mount_paths@)
                    == spec_mount_paths(parts@, old(self).display_name@) && iso_view(info.isos@)
                    == spec_iso_paths(parts@, old(self).display_name@)
                &&& !final(self).persist.external_mount
                &&& final(self).persist.readonly == old(self).persist.readonly
                &&& final(self).persist.removable == old(self).persist.removable
                &&& final(self).same_identity(*old(self))
                &&& r == Ok::<(), VdriveError>(())
            } else {
                &&& final(self).state is Unmounted
                &&& !final(self).persist.external_mount
                &&& final(self).persist.readonly == old(self).persist.readonly
                &&& final(self).persist.removable == old(self).persist.removable
                &&& final(self).same_identity(*old(self))
                &&& r == Err::<(), VdriveError>(VdriveError::MalformedInput)
            }),
    {
        match &self.state {
            MountState::Unmounted => self.mount_external(env.export),
            MountState::Internal(_) => {
                match self.unmount_internal(env.teardown) {
                    Err(e) => Err(e),
                    Ok(()) => self.mount_external(env.export),
                }
            },
            MountState::External(_) => {
                match self.unmount_external(env.unexport) {
                    Err(e) => Err(e),
                    Ok(()) => match self.mount_internal(env.internal) {
                        Ok(_) => Ok(()),
                        Err(e) => Err(e),
                    },
                }
            },
        }
    }

    /// Which mount the load path must attempt for the restored
    /// disposition.
    pub fn load_plan(&self) -> (r: LoadAction)
        ensures
            r == self.spec_load_action(),
    {
        if self.persist.external_mount {
            LoadAction::MountExternal
        } else {
            LoadAction::MountInternal
        }
    }

    /// The mount points the load path should trim, fire-and-forget, after
    /// a successful internal mount: all of them when the automatic-trim
    /// flag is set and the volume is internal, none otherwise.  The
    /// outcomes of those trims are discarded by design.
    pub fn trim_targets(&self) -> (r: Vec<String>)
        ensures
            self.auto_fstrim ==> (self.state matches MountState::Internal(info) ==> names_view(r@)
                == names_view(info.part_mount_paths@)),
            !(self.auto_fstrim && self.state is Internal) ==> r@.len() == 0,
    {
        if self.auto_fstrim {
            match &self.state {
                MountState::Internal(info) => clone_string_vec(&info.part_mount_paths),
                _ => Vec::new(),
            }
        } else {
            Vec::new()
        }
    }

    /// The one-line summary drawn for this volume: its display name and
    /// its size in gibibytes to one decimal place.
    pub fn render_label(&self) -> (r: String)
        ensures
            r@ == spec_size_label(self.display_name@, self.volume.size as nat),
    {
        size_label(self.display_name.as_str(), self.volume.size)
    }

    /// Whether the summary line carries the marker glyph for an external
    /// mount.
    pub fn show_external_marker(&self) -> (r: bool)
        ensures
            r == self.state.holds_export(),
    {
        match &self.state {
            MountState::External(_) => true,
            _ => false,
        }
    }

    /// The paths of the nested images currently participating in the
    /// widget tree: those of the internal mount, none in any other mode.
    pub fn iso_paths(&self) -> (r: Vec<String>)
        ensures
            self.state matches MountState::Internal(info) ==> names_view(r@) == iso_view(
                info.isos@,
            ),
            !(self.state is Internal) ==> r@.len() == 0,
    {
        match &self.state {
            MountState::Internal(info) => {
                let mut r: Vec<String> = Vec::new();
                let mut i: usize = 0;
                while i < info.isos.len()
                    invariant
                        i <= info.isos@.len(),
                        r@.len() == i,
                        forall|j: int| 0 <= j < i ==> #[trigger] r@[j]@ == info.isos@[j].path@,
                    decreases info.isos@.len() - i,
                {
                    r.push(info.isos[i].path.clone());
                    i = i + 1;
                }
                proof {
                    assert(names_view(r@) =~= iso_view(info.isos@));
                }
                r
            },
            _ => Vec::new(),
        }
    }
}

/// The kernel-work outcomes a toggle may consume, depending on the mode
/// it starts from and on how far it gets.
pub struct ToggleEnv {
    pub export: Option<Result<u64, String>>,
    pub unexport: Option<Result<(), String>>,
    pub teardown: Option<Result<(), VdriveError>>,
    pub internal: Option<InternalMountOutcome>,
}

/// The load path attempts the external mount exactly when the restored
/// disposition's external flag is set, and the internal mount exactly
/// when it is not — never both.
pub proof fn lemma_load_follows_disposition(d: VirtualDrive)
    ensures
        d.spec_load_action() is MountExternal <==> d.persist.external_mount,
        d.spec_load_action() is MountInternal <==> !d.persist.external_mount,
{
}

/// Whether every scan names a device node with a trailing partition
/// number.
fn scans_all_well_formed(parts: &Vec<PartitionScan>) -> (r: bool)
    ensures
        r == scans_well_formed(parts@),
{
    let mut w: usize = 0;
    while w < parts.len()
        invariant
            w <= parts@.len(),
            forall|j: int|
                0 <= j < w ==> trailing_digit_count(#[trigger] parts@[j].dev_name@) > 0,
        decreases parts@.len() - w,
    {
        if trailing_digit_len(parts[w].dev_name.as_str()) == 0 {
            assert(trailing_digit_count(parts@[w as int].dev_name@) == 0);
            return false;
        }
        w = w + 1;
    }
    true
}

/// Assemble the mount information an internal mount records from the
/// partition scans: the mount points of the partitions that mounted, and
/// the visible nested images under each, all in scan order.
fn build_internal_info(disp: &str, loopback_path: String, parts: &Vec<PartitionScan>) -> (r:
    MountInfo)
    ensures
        r.loopback_path@ == loopback_path@,
        names_view(r.part_mount_paths@) == spec_mount_paths(parts@, disp@),
        iso_view(r.isos@) == spec_iso_paths(parts@, disp@),
{
    let mut paths: Vec<String> = Vec::new();
    let mut isos: Vec<IsoHandle> = Vec::new();
    let mut i: usize = 0;
    while i < parts.len()
        invariant
            i <= parts@.len(),
            names_view(paths@) == spec_mount_paths(parts@.subrange(0, i as int), disp@),
            iso_view(isos@) == spec_iso_paths(parts@.subrange(0, i as int), disp@),
        decreases parts@.len() - i,
    {
        proof {
            assert(parts@.subrange(0, i + 1).drop_last() =~= parts@.subrange(0, i as int));
            assert(parts@.subrange(0, i + 1).last() == parts@[i as int]);
        }
        let p = &parts[i];
        if p.mounted {
            let mp = mount_point_path(disp, p.dev_name.as_str());
            let ghost isos_before = iso_view(isos@);
            let mut j: usize = 0;
            while j < p.iso_names.len()
                invariant
                    j <= p.iso_names@.len(),
                    mp@ == spec_mount_point(disp@, p.dev_name@),
                    iso_view(isos@) == isos_before + spec_part_isos(
                        mp@,
                        names_view(p.iso_names@.subrange(0, j as int)),
                    ),
                decreases p.iso_names@.len() - j,
            {
                proof {
                    assert(names_view(p.iso_names@.subrange(0, j + 1)).drop_last() =~= names_view(
                        p.iso_names@.subrange(0, j as int),
                    ));
                    assert(names_view(p.iso_names@.subrange(0, j + 1)).last()
                        == p.iso_names@[j as int]@);
                }
                let nm = &p.iso_names[j];
                if !is_hidden_name(nm.as_str()) {
                    let ghost before = iso_view(isos@);
                    isos.push(IsoHandle { path: iso_path(mp.as_str(), nm.as_str()) });
                    proof {
                        assert(iso_view(isos@) =~= before.push(spec_iso_path(mp@, nm@)));
                        assert(iso_view(isos@) =~= isos_before + spec_part_isos(
                            mp@,
                            names_view(p.iso_names@.subrange(0, j + 1)),
                        ));
                    }
                } else {
                    proof {
                        assert(iso_view(isos@) =~= isos_before + spec_part_isos(
                            mp@,
                            names_view(p.iso_names@.subrange(0, j + 1)),
                        ));
                    }
                }
                j = j + 1;
            }
            proof {
                assert(names_view(p.iso_names@.subrange(0, p.iso_names@.len() as int))
                    =~= names_view(p.iso_names@));
                assert(iso_view(isos@) == spec_iso_paths(parts@.subrange(0, i + 1), disp@));
            }
            let ghost paths_before = names_view(paths@);
            paths.push(mp);
            proof {
                assert(names_view(paths@) =~= paths_before.push(
                    spec_mount_point(disp@, parts@[i as int].dev_name@),
                ));
            }
        }
        i = i + 1;
    }
    proof {
        assert(parts@.subrange(0, parts@.len() as int) =~= parts@);
    }
    MountInfo { loopback_path, part_mount_paths: paths, isos }
}

} // verus!
