use vdrive::mount::{
    InternalMountOutcome, MountState, PartitionScan, TeardownStep, VdriveError,
};
use vdrive::persist::PersistVDriveState;
use vdrive::vdrive::{LoadAction, LogicalVolume, ToggleEnv, VirtualDrive};

fn volume(name: &str, size: u64) -> LogicalVolume {
    LogicalVolume {
        name: String::from(name),
        size,
        path: format!("/dev/mapper/{}", name),
    }
}

fn drive(name: &str, size: u64) -> VirtualDrive {
    VirtualDrive::new(7, volume(name, size), String::from(name), false)
}

fn scan(dev_name: &str, mounted: bool, iso_names: &[&str]) -> PartitionScan {
    PartitionScan {
        dev_name: String::from(dev_name),
        mounted,
        iso_names: iso_names.iter().map(|n| String::from(*n)).collect(),
    }
}

fn data_scan_outcome() -> InternalMountOutcome {
    InternalMountOutcome::Scanned {
        loopback_path: String::from("/dev/loop3"),
        parts: vec![scan("loop3p1", true, &[]), scan("loop3p2", false, &[])],
    }
}

#[test]
fn new_drive_is_unmounted_with_default_disposition() {
    let d = drive("DATA", 1024);
    assert!(matches!(d.state, MountState::Unmounted));
    assert!(!d.persist.external_mount);
    assert!(!d.persist.readonly);
    assert!(d.persist.removable);
    assert_eq!(d.name(), "DATA");
    assert_eq!(d.size(), 1024);
    assert_eq!(d.key(), "DATA");
    assert_eq!(d.windowid(), 7);
}

#[test]
fn default_disposition_matches_spec() {
    let p = PersistVDriveState::default();
    assert!(!p.external_mount);
    assert!(!p.readonly);
    assert!(p.removable);
}

#[test]
fn unmount_on_unmounted_is_noop_success() {
    let mut d = drive("DATA", 1024);
    let r = d.unmount(None, None);
    assert!(r.is_ok());
    assert!(matches!(d.state, MountState::Unmounted));
    assert!(!d.persist.external_mount);
}

#[test]
fn export_request_only_when_unmounted() {
    let mut d = drive("DATA", 1024);
    d.persist.readonly = true;
    let req = d.export_request().expect("unmounted volume must request an export");
    assert_eq!(req.path, "/dev/mapper/DATA");
    assert!(req.direct_attach);
    assert!(req.readonly);
    assert!(req.removable);
    assert!(d.mount_external(Some(Ok(42))).is_ok());
    assert!(d.export_request().is_none());
}

#[test]
fn mount_external_success_stores_id_and_flag() {
    let mut d = drive("DATA", 1024);
    let r = d.mount_external(Some(Ok(42)));
    assert!(r.is_ok());
    assert!(matches!(d.state, MountState::External(42)));
    assert!(d.persist.external_mount);
    // A second call is a no-op returning success.
    let r2 = d.mount_external(None);
    assert!(r2.is_ok());
    assert!(matches!(d.state, MountState::External(42)));
}

#[test]
fn mount_external_failure_propagates_and_changes_nothing() {
    let mut d = drive("DATA", 1024);
    let r = d.mount_external(Some(Err(String::from("no free slot"))));
    assert_eq!(
        r.unwrap_err(),
        VdriveError::ResourceFailure(String::from("no free slot"))
    );
    assert!(matches!(d.state, MountState::Unmounted));
    assert!(!d.persist.external_mount);
}

#[test]
fn mount_external_while_internal_is_invalid_transition() {
    let mut d = drive("DATA", 1024);
    d.mount_internal(Some(data_scan_outcome())).unwrap();
    let r = d.mount_external(None);
    assert_eq!(r.unwrap_err(), VdriveError::InvalidTransition);
    assert!(matches!(d.state, MountState::Internal(_)));
}

#[test]
fn mount_internal_while_external_is_invalid_transition() {
    let mut d = drive("DATA", 1024);
    d.mount_external(Some(Ok(3))).unwrap();
    let r = d.mount_internal(None);
    assert_eq!(r.unwrap_err(), VdriveError::InvalidTransition);
    assert!(matches!(d.state, MountState::External(3)));
}

#[test]
fn failed_partition_is_skipped_but_others_mount() {
    let mut d = drive("DATA", 1024);
    let info = d.mount_internal(Some(data_scan_outcome())).unwrap();
    assert_eq!(info.loopback_path, "/dev/loop3");
    assert_eq!(info.part_mount_paths, vec![String::from("/mnt/DATA (partition 1)")]);
    assert!(info.isos.is_empty());
    assert!(matches!(d.state, MountState::Internal(_)));
}

#[test]
fn mount_internal_is_idempotent() {
    let mut d = drive("DATA", 1024);
    let first = d.mount_internal(Some(data_scan_outcome())).unwrap();
    // The second call asks for no kernel work and returns the same sets.
    let second = d.mount_internal(None).unwrap();
    assert_eq!(first.loopback_path, second.loopback_path);
    assert_eq!(first.part_mount_paths, second.part_mount_paths);
    assert_eq!(
        first.isos.iter().map(|i| i.path.clone()).collect::<Vec<_>>(),
        second.isos.iter().map(|i| i.path.clone()).collect::<Vec<_>>()
    );
}

#[test]
fn hidden_entries_never_become_images() {
    let mut d = drive("DATA", 1024);
    let outcome = InternalMountOutcome::Scanned {
        loopback_path: String::from("/dev/loop0"),
        parts: vec![scan("loop0p1", true, &["game.iso", ".hidden.iso", "other.iso"])],
    };
    let info = d.mount_internal(Some(outcome)).unwrap();
    let paths: Vec<String> = info.isos.iter().map(|i| i.path.clone()).collect();
    assert_eq!(
        paths,
        vec![
            String::from("/mnt/DATA (partition 1)/ISOS/game.iso"),
            String::from("/mnt/DATA (partition 1)/ISOS/other.iso"),
        ]
    );
}

#[test]
fn malformed_device_name_rejects_the_whole_mount() {
    let mut d = drive("DATA", 1024);
    let outcome = InternalMountOutcome::Scanned {
        loopback_path: String::from("/dev/loop0"),
        parts: vec![scan("loop0px", true, &[])],
    };
    let r = d.mount_internal(Some(outcome));
    assert_eq!(r.unwrap_err(), VdriveError::MalformedInput);
    assert!(matches!(d.state, MountState::Unmounted));
}

#[test]
fn early_failure_propagates_unchanged() {
    let mut d = drive("DATA", 1024);
    let outcome = InternalMountOutcome::Failed(VdriveError::IoFailure(String::from(
        "cannot read /dev",
    )));
    let r = d.mount_internal(Some(outcome));
    assert_eq!(
        r.unwrap_err(),
        VdriveError::IoFailure(String::from("cannot read /dev"))
    );
    assert!(matches!(d.state, MountState::Unmounted));
}

#[test]
fn partition_plans_select_prefixed_entries_only() {
    let d = drive("DATA", 1024);
    let entries = vec![
        String::from("loop3p1"),
        String::from("loop3"),
        String::from("sda1"),
        String::from("loop3p2"),
    ];
    let plans = d.partition_plans("/dev/loop3", &entries).unwrap();
    assert_eq!(plans.len(), 2);
    assert_eq!(plans[0].dev_name, "loop3p1");
    assert_eq!(plans[0].mount_point, "/mnt/DATA (partition 1)");
    assert_eq!(plans[1].dev_name, "loop3p2");
    assert_eq!(plans[1].mount_point, "/mnt/DATA (partition 2)");
}

#[test]
fn partition_plans_reject_missing_partition_number() {
    let d = drive("DATA", 1024);
    let entries = vec![String::from("loop3extra")];
    let r = d.partition_plans("/dev/loop3", &entries);
    assert_eq!(r.unwrap_err(), VdriveError::MalformedInput);
}

#[test]
fn partition_plans_reject_loopback_path_without_base_name() {
    let d = drive("DATA", 1024);
    let r = d.partition_plans("/dev/", &Vec::new());
    assert_eq!(r.unwrap_err(), VdriveError::MalformedInput);
}

#[test]
fn teardown_plan_orders_images_before_partitions_before_detach() {
    let mut d = drive("DATA", 1024);
    let outcome = InternalMountOutcome::Scanned {
        loopback_path: String::from("/dev/loop3"),
        parts: vec![
            scan("loop3p1", true, &["a.iso", "b.iso"]),
            scan("loop3p2", true, &[]),
        ],
    };
    d.mount_internal(Some(outcome)).unwrap();
    let plan = d.internal_teardown_plan();
    assert_eq!(
        plan,
        vec![
            TeardownStep::UnmountImage { path: String::from("/mnt/DATA (partition 1)/ISOS/a.iso") },
            TeardownStep::UnmountImage { path: String::from("/mnt/DATA (partition 1)/ISOS/b.iso") },
            TeardownStep::UnmountPartition { path: String::from("/mnt/DATA (partition 1)") },
            TeardownStep::UnmountPartition { path: String::from("/mnt/DATA (partition 2)") },
            TeardownStep::DetachLoopback { path: String::from("/dev/loop3") },
        ]
    );
}

#[test]
fn unmount_internal_failure_keeps_state() {
    let mut d = drive("DATA", 1024);
    d.mount_internal(Some(data_scan_outcome())).unwrap();
    let r = d.unmount_internal(Some(Err(VdriveError::IoFailure(String::from("device busy")))));
    assert_eq!(
        r.unwrap_err(),
        VdriveError::IoFailure(String::from("device busy"))
    );
    assert!(matches!(d.state, MountState::Internal(_)));
    let r2 = d.unmount_internal(Some(Ok(())));
    assert!(r2.is_ok());
    assert!(matches!(d.state, MountState::Unmounted));
}

#[test]
fn unmount_external_failure_keeps_state() {
    let mut d = drive("DATA", 1024);
    d.mount_external(Some(Ok(5))).unwrap();
    assert_eq!(d.unexport_request(), Some(5));
    let r = d.unmount_external(Some(Err(String::from("busy"))));
    assert_eq!(
        r.unwrap_err(),
        VdriveError::ResourceFailure(String::from("busy"))
    );
    assert!(matches!(d.state, MountState::External(5)));
    assert!(d.persist.external_mount);
    let r2 = d.unmount_external(Some(Ok(())));
    assert!(r2.is_ok());
    assert!(matches!(d.state, MountState::Unmounted));
    assert!(!d.persist.external_mount);
}

#[test]
fn toggle_from_unmounted_prefers_external() {
    let mut d = drive("DATA", 8_000_000_000);
    let env = ToggleEnv { export: Some(Ok(11)), unexport: None, teardown: None, internal: None };
    let r = d.toggle_mount(env);
    assert!(r.is_ok());
    assert!(matches!(d.state, MountState::External(11)));
    assert!(d.persist.external_mount);
}

#[test]
fn toggle_from_internal_passes_through_unmounted_to_external() {
    let mut d = drive("DATA", 1024);
    d.mount_internal(Some(data_scan_outcome())).unwrap();
    let env = ToggleEnv {
        export: Some(Ok(8)),
        unexport: None,
        teardown: Some(Ok(())),
        internal: None,
    };
    let r = d.toggle_mount(env);
    assert!(r.is_ok());
    assert!(matches!(d.state, MountState::External(8)));
    assert!(d.persist.external_mount);
}

#[test]
fn toggle_from_external_passes_through_unmounted_to_internal() {
    let mut d = drive("DATA", 1024);
    d.mount_external(Some(Ok(2))).unwrap();
    let env = ToggleEnv {
        export: None,
        unexport: Some(Ok(())),
        teardown: None,
        internal: Some(data_scan_outcome()),
    };
    let r = d.toggle_mount(env);
    assert!(r.is_ok());
    assert!(!d.persist.external_mount);
    match &d.state {
        MountState::Internal(info) => {
            assert_eq!(info.part_mount_paths, vec![String::from("/mnt/DATA (partition 1)")]);
        }
        _ => panic!("expected an internal mount"),
    }
}

#[test]
fn toggle_halts_where_a_step_fails() {
    let mut d = drive("DATA", 1024);
    d.mount_internal(Some(data_scan_outcome())).unwrap();
    let env = ToggleEnv {
        export: None,
        unexport: None,
        teardown: Some(Err(VdriveError::IoFailure(String::from("umount failed")))),
        internal: None,
    };
    let r = d.toggle_mount(env);
    assert_eq!(
        r.unwrap_err(),
        VdriveError::IoFailure(String::from("umount failed"))
    );
    assert!(matches!(d.state, MountState::Internal(_)));
}

#[test]
fn restored_external_disposition_loads_externally() {
    // First run: the volume ends up external, which sets the flag that
    // is persisted.
    let mut first_run = drive("DATA", 1024);
    first_run.mount_external(Some(Ok(1))).unwrap();
    assert!(first_run.persist.external_mount);

    // Reload: a fresh machine restored with the saved disposition must
    // attempt the external mount, not the internal one.
    let mut reloaded = drive("DATA", 1024);
    reloaded.persist = PersistVDriveState {
        external_mount: first_run.persist.external_mount,
        readonly: first_run.persist.readonly,
        removable: first_run.persist.removable,
    };
    assert_eq!(reloaded.load_plan(), LoadAction::MountExternal);
    assert!(reloaded.mount_external(Some(Ok(2))).is_ok());
    assert!(matches!(reloaded.state, MountState::External(2)));
}

#[test]
fn default_disposition_loads_internally() {
    let d = drive("DATA", 1024);
    assert_eq!(d.load_plan(), LoadAction::MountInternal);
}

#[test]
fn trim_targets_follow_the_flag_and_the_mode() {
    let mut trimming = VirtualDrive::new(1, volume("DATA", 1024), String::from("DATA"), true);
    assert!(trimming.trim_targets().is_empty());
    trimming.mount_internal(Some(data_scan_outcome())).unwrap();
    assert_eq!(trimming.trim_targets(), vec![String::from("/mnt/DATA (partition 1)")]);

    let mut plain = drive("DATA", 1024);
    plain.mount_internal(Some(data_scan_outcome())).unwrap();
    assert!(plain.trim_targets().is_empty());
}
