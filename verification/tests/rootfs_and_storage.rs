use kata_runtime::agent::Storage;
use kata_runtime::rootfs::{
    next_step, plan_disk, share_config, CleanupStep, DeviceRef, DiskStep, OverlayDevice,
    OverlayEvent, OverlayRootfs, OverlayStep, RootfsNames,
};
use kata_runtime::storage::{
    DirPurpose, OverlayfsHandler, StorageAction, StorageError, VirtioFsHandler,
};
use kata_runtime::volume::BlockDeviceInfo;

fn names() -> RootfsNames {
    RootfsNames { rootfs: String::from("rootfs"), overlay_fs: String::from("overlay") }
}

fn overlay_handler() -> OverlayfsHandler {
    OverlayfsHandler {
        driver: String::from("overlayfs"),
        container_base: String::from("/run/kata-containers"),
        create_dir_option: String::from("io.katacontainers.volume.overlayfs.create_directory"),
    }
}

fn virtio_fs_handler() -> VirtioFsHandler {
    VirtioFsHandler { driver: String::from("virtio-fs") }
}

fn block_info() -> BlockDeviceInfo {
    BlockDeviceInfo {
        block_device_driver: String::from("virtio-blk-pci"),
        block_device_aio: String::from("native"),
        num_queues: 1,
        queue_size: 64,
        block_device_logical_sector_size: 0,
        block_device_physical_sector_size: 0,
    }
}

fn block_device() -> DeviceRef {
    DeviceRef::Block { device_id: String::from("blk-7"), virt_path: String::from("/dev/vdb") }
}

#[test]
fn disk_is_a_copy_of_the_template() {
    let plan = plan_disk("/templates/base.img", "c1", 0, block_info());
    assert_eq!(plan.before.len(), 1);
    match &plan.before[0] {
        DiskStep::ReflinkCopy(from, to) => {
            assert_eq!(from, "/templates/base.img");
            assert_eq!(to, "/templates/c1.img");
        }
        other => panic!("{other:?}"),
    }
    assert!(plan.before[0].remove_on_failure().is_none());
    assert_eq!(plan.config.path_on_host, "/templates/c1.img");
    assert_eq!(plan.config.blkdev_aio, "native");
    assert!(plan.config.is_overlayfs);
    match &plan.after[..] {
        [DiskStep::RemoveFile(path)] => assert_eq!(path, "/templates/c1.img"),
        other => panic!("{other:?}"),
    }
}

#[test]
fn another_size_takes_a_new_template() {
    let plan = plan_disk("/templates/base.img", "c1", 1 << 30, block_info());
    match &plan.before[..] {
        [DiskStep::CreateTemplate(path, size), DiskStep::ReflinkCopy(from, to), DiskStep::RemoveFile(gone)] => {
            assert_eq!(path, "/templates/new_c1.img");
            assert_eq!(*size, 1 << 30);
            assert_eq!(from, path);
            assert_eq!(to, "/templates/c1.img");
            assert_eq!(gone, path);
        }
        other => panic!("{other:?}"),
    }
    assert_eq!(plan.before[0].remove_on_failure(), Some("/templates/new_c1.img"));
}

#[test]
fn overlay_with_a_new_device() {
    let config = share_config("c1", "/bundle", true, &names());
    assert_eq!(config.source, "/bundle/rootfs");
    assert_eq!(config.target, "rootfs");
    assert!(!config.readonly && !config.is_rafs);

    let rootfs = OverlayRootfs::new(OverlayDevice::Plugged(block_device()), config, "/shared/c1/rootfs", &names());
    assert_eq!(rootfs.get_guest_rootfs_path(), "/run/kata-containers/overlay/c1/merge");
    assert!(rootfs.get_rootfs_mount().is_empty());
    assert_eq!(rootfs.get_device_id().as_deref(), Some("blk-7"));
    let storages = rootfs.get_storage().unwrap();
    assert_eq!(storages.len(), 1);
    let storage = &storages[0];
    assert_eq!(storage.driver, "overlayfs");
    assert_eq!(storage.source, "overlay");
    assert_eq!(storage.fs_type, "overlay");
    assert_eq!(
        storage.options,
        vec!["lowerdir=/shared/c1/rootfs", "io.katacontainers.fs-opt.overlay-rw", "index=off"]
    );
    assert_eq!(storage.mount_point, "/run/kata-containers/overlay/c1/merge");
    assert_eq!(
        storage.driver_options,
        vec![
            "io.katacontainers.rootfs.overlayfs.mount_blk_src=/dev/vdb",
            "io.katacontainers.rootfs.overlayfs.mount_blk_point=/run/kata-containers/overlay",
        ]
    );
    match &rootfs.cleanup()[..] {
        [CleanupStep::UnshareRootfs, CleanupStep::Unmount(path)] => assert_eq!(path, "/bundle/rootfs"),
        other => panic!("{other:?}"),
    }
}

#[test]
fn overlay_with_a_device_that_was_there() {
    let config = share_config("c2", "/bundle", false, &names());
    assert_eq!(config.source, "/bundle");
    let rootfs = OverlayRootfs::new(OverlayDevice::Existing(block_device()), config, "/s", &names());
    assert_eq!(rootfs.get_device_id().as_deref(), Some("blk-7"));
    assert!(rootfs.get_storage().unwrap()[0].driver_options.is_empty());

    let config = share_config("c3", "/bundle", false, &names());
    let rootfs = OverlayRootfs::new(OverlayDevice::Existing(DeviceRef::Other), config, "/s", &names());
    assert_eq!(rootfs.get_device_id().as_deref(), Some(""));
    assert_eq!(rootfs.share_config().cid, "c3");
}

#[test]
fn the_disk_file_is_removed_however_plugging_went() {
    assert_eq!(
        next_step(OverlayStep::PlugDevice, OverlayEvent::Failed, true),
        Ok(Some(OverlayStep::RemoveDisk(false)))
    );
    assert_eq!(
        next_step(OverlayStep::RemoveDisk(false), OverlayEvent::Done, true),
        Err(OverlayStep::PlugDevice)
    );
    assert_eq!(
        next_step(OverlayStep::RemoveDisk(true), OverlayEvent::Failed, true),
        Ok(Some(OverlayStep::MountBundle))
    );
    assert_eq!(
        next_step(OverlayStep::FindDevice, OverlayEvent::Done, false),
        Ok(Some(OverlayStep::ShareRootfs))
    );
    assert_eq!(
        next_step(OverlayStep::FindDevice, OverlayEvent::Failed, false),
        Ok(Some(OverlayStep::MakeDisk))
    );
    assert_eq!(next_step(OverlayStep::MakeDisk, OverlayEvent::Failed, false), Err(OverlayStep::MakeDisk));
    assert_eq!(next_step(OverlayStep::MountBundle, OverlayEvent::Done, true), Ok(Some(OverlayStep::ShareRootfs)));
    assert_eq!(next_step(OverlayStep::ShareRootfs, OverlayEvent::Done, true), Ok(None));
}

fn created(action: &StorageAction) -> (&str, DirPurpose) {
    match action {
        StorageAction::CreateDir(path, purpose) => (path, *purpose),
        other => panic!("{other:?}"),
    }
}

#[test]
fn the_guest_sets_the_overlay_up_as_the_host_asks() {
    let config = share_config("c1", "/bundle", true, &names());
    let rootfs = OverlayRootfs::new(OverlayDevice::Plugged(block_device()), config, "/shared", &names());
    let storage = rootfs.get_storage().unwrap().remove(0);
    let plan = overlay_handler().create_device(storage, &Some(String::from("c1")));

    assert_eq!(plan.actions.len(), 4);
    match &plan.actions[0] {
        StorageAction::MountStorage(s) => {
            assert_eq!(s.source, "/dev/vdb");
            assert_eq!(s.mount_point, "/run/kata-containers/overlay");
            assert_eq!(s.fs_type, "ext4");
            assert!(s.options.is_empty() && s.driver.is_empty());
        }
        other => panic!("{other:?}"),
    }
    assert_eq!(created(&plan.actions[1]), ("/run/kata-containers/overlay/c1/work", DirPurpose::Work));
    assert_eq!(created(&plan.actions[2]), ("/run/kata-containers/overlay/c1/upper", DirPurpose::Upper));
    assert_eq!(created(&plan.actions[3]), ("/run/kata-containers/overlay/c1/merge", DirPurpose::Merged));
    let storage = plan.outcome.unwrap();
    assert_eq!(storage.fs_type, "overlay");
    assert_eq!(
        storage.options,
        vec![
            "lowerdir=/shared",
            "index=off",
            "upperdir=/run/kata-containers/overlay/c1/upper",
            "workdir=/run/kata-containers/overlay/c1/work",
        ]
    );
}

#[test]
fn a_writable_overlay_needs_a_container() {
    let storage = Storage {
        options: vec![String::from("io.katacontainers.fs-opt.overlay-rw")],
        driver_options: vec![
            String::from("io.katacontainers.rootfs.overlayfs.mount_blk_point=/p"),
            String::from("io.katacontainers.rootfs.overlayfs.mount_blk_src=/a"),
            String::from("io.katacontainers.rootfs.overlayfs.mount_blk_src=/b"),
        ],
        ..Default::default()
    };
    let plan = overlay_handler().create_device(storage, &None);
    assert_eq!(plan.actions.len(), 2);
    let err = plan.outcome.unwrap_err();
    assert_eq!(err, StorageError::NoContainerId);
    assert_eq!(err.message(), "No container id in rw overlay");
}

#[test]
fn directories_are_created_where_asked() {
    let storage = Storage {
        fs_type: String::from("overlay"),
        options: vec![String::from("ro")],
        driver_options: vec![
            String::from("io.katacontainers.volume.overlayfs.create_directory=/d1"),
            String::from("other=1"),
            String::from("io.katacontainers.volume.overlayfs.create_directory=/d2"),
        ],
        ..Default::default()
    };
    let plan = overlay_handler().create_device(storage, &None);
    assert_eq!(plan.actions.len(), 2);
    assert_eq!(created(&plan.actions[0]), ("/d1", DirPurpose::Requested));
    assert_eq!(created(&plan.actions[1]), ("/d2", DirPurpose::Requested));
    assert_eq!(plan.outcome.unwrap().options, vec!["ro"]);
    assert_eq!(DirPurpose::Requested.message(), "Failed to create directory");
    assert_eq!(DirPurpose::Work.message(), "Creating overlay work directory");
}

#[test]
fn drivers_of_the_handlers() {
    assert_eq!(overlay_handler().driver_types(), vec!["overlayfs"]);
    assert_eq!(virtio_fs_handler().driver_types(), vec!["virtio-fs"]);
    let storage = Storage { source: String::from("kataShared"), ..Default::default() };
    let plan = virtio_fs_handler().create_device(storage);
    assert!(plan.actions.is_empty());
    assert_eq!(plan.outcome.unwrap().source, "kataShared");
}

#[test]
fn making_an_overlay_ends_after_each_step_once() {
    for mounts_rootfs in [true, false] {
        let mut step = OverlayStep::FindDevice;
        let mut seen = vec![step];
        let mut event = OverlayEvent::Failed;
        while let Some(next) = next_step(step, event, mounts_rootfs).unwrap() {
            assert!(!seen.contains(&next));
            step = next;
            seen.push(step);
            event = OverlayEvent::Done;
        }
        assert_eq!(step, OverlayStep::ShareRootfs);
        assert_eq!(seen.len(), if mounts_rootfs { 6 } else { 5 });
    }
}

#[test]
fn files_of_a_resized_disk_are_removed() {
    let plan = plan_disk("/t/template.img", "c1", 4096, block_info());
    let removed: Vec<String> = plan
        .before
        .iter()
        .chain(plan.after.iter())
        .filter_map(|step| match step {
            DiskStep::RemoveFile(path) => Some(path.clone()),
            _ => None,
        })
        .collect();
    assert_eq!(removed, vec!["/t/new_c1.img", "/t/c1.img"]);
}
