use kata_runtime::agent::{FSGroup, FSGroupChangePolicy, Storage};
use kata_runtime::k8s::EmptyDirNames;
use kata_runtime::mount::{Mount, MountLookup, PathFacts, SourcePath};
use kata_runtime::volume::{
    get_filesystem_capacity, is_block_emptydir_volume, next_step, BlockDeviceInfo,
    BlockEmptyDirVolume, EmptyDirEvent, EmptyDirRequest, EmptyDirStep, HandledVolume, VolumeError,
};

const FS_TYPE_KEY: &str = "io.katacontainers.volume.fs_type";

fn names() -> EmptyDirNames {
    EmptyDirNames {
        block_encrypted: String::from("block-encrypted"),
        block_plain: String::from("block-plain"),
        local_storage: String::from("local"),
    }
}

fn mount(source: Option<&str>) -> Mount {
    Mount {
        destination: String::from("/cache"),
        typ: Some(String::from("bind")),
        source: source.map(|s| SourcePath { text: String::from(s), utf8: true }),
        options: vec![],
    }
}

fn handled(source: &str) -> HandledVolume {
    HandledVolume {
        storage: Storage {
            driver: String::from("blk"),
            driver_options: vec![String::from("a=b")],
            source: String::from(source),
            fs_type: String::from("ext4"),
            fs_group: None,
            options: vec![String::from("rw")],
            mount_point: String::from("/old"),
            shared: false,
        },
        mount: Mount {
            destination: String::from("/cache"),
            typ: Some(String::from("ext4")),
            source: Some(SourcePath { text: String::from("/guest"), utf8: true }),
            options: vec![String::from("rw")],
        },
        device_id: String::from("dev-1"),
    }
}

fn block_info() -> BlockDeviceInfo {
    BlockDeviceInfo {
        block_device_driver: String::from("virtio-blk-pci"),
        block_device_aio: String::from("io_uring"),
        num_queues: 4,
        queue_size: 128,
        block_device_logical_sector_size: 512,
        block_device_physical_sector_size: 4096,
    }
}

#[test]
fn a_mount_without_source_is_refused() {
    let err = EmptyDirRequest::new(&mount(None), "block-plain", &names()).unwrap_err();
    assert_eq!(err, VolumeError::NoSource);
    assert_eq!(err.message(), "block emptyDir mount has no source");
}

#[test]
fn the_mode_decides_on_encryption_and_discard() {
    let encrypted = EmptyDirRequest::new(&mount(Some("/vol")), "block-encrypted", &names()).unwrap();
    assert!(encrypted.encrypted && !encrypted.discard_unmap);
    assert_eq!(encrypted.disk_info.disk_path, "/vol/disk.img");
    assert_eq!(encrypted.disk_info.source_path, "/vol");

    let plain = EmptyDirRequest::new(&mount(Some("/vol/")), "block-plain", &names()).unwrap();
    assert!(!plain.encrypted && plain.discard_unmap);
    assert_eq!(plain.disk_info.disk_path, "/vol/disk.img");
}

#[test]
fn mount_information_of_both_modes() {
    let encrypted = EmptyDirRequest::new(&mount(Some("/vol")), "block-encrypted", &names()).unwrap();
    let info = encrypted.mount_info(0);
    assert_eq!(info.volume_type, "blk");
    assert_eq!(info.device, "/vol/disk.img");
    assert_eq!(info.fs_type, "ext4");
    assert_eq!(info.metadata, vec![(String::from("encryptionKey"), String::from("ephemeral"))]);
    assert!(info.options.is_empty());

    let plain = EmptyDirRequest::new(&mount(Some("/vol")), "block-plain", &names()).unwrap();
    let info = plain.mount_info(2000);
    assert_eq!(
        info.metadata,
        vec![
            (String::from("filesystemType"), String::from("ext4")),
            (String::from("fsGroup"), String::from("2000")),
        ]
    );
    assert_eq!(info.options, vec![String::from("discard")]);
}

#[test]
fn block_configuration_takes_the_hypervisors_settings() {
    let plain = EmptyDirRequest::new(&mount(Some("/vol")), "block-plain", &names()).unwrap();
    let config = plain.block_config(block_info());
    assert_eq!(config.path_on_host, "/vol/disk.img");
    assert_eq!(config.driver_option, "virtio-blk-pci");
    assert_eq!(config.blkdev_aio, "io_uring");
    assert_eq!((config.num_queues, config.queue_size), (4, 128));
    assert_eq!((config.logical_sector_size, config.physical_sector_size), (512, 4096));
    assert!(config.discard_unmap);
}

#[test]
fn encrypted_volume_is_put_together() {
    let request = EmptyDirRequest::new(&mount(Some("/vol")), "block-encrypted", &names()).unwrap();
    let volume = BlockEmptyDirVolume::new(request, 1000, handled("/dev/vda"), FS_TYPE_KEY);

    let storages = volume.get_storage();
    assert_eq!(storages.len(), 1);
    let storage = &storages[0];
    assert_eq!(storage.driver_options, vec![String::from("a=b"), String::from("encryption_key=ephemeral")]);
    assert_eq!(storage.options, vec![String::from("rw")]);
    assert!(storage.shared);
    // "/dev/vda" is "L2Rldi92ZGE=" in the URL-safe alphabet.
    assert_eq!(storage.mount_point, "/run/kata-containers/sandbox/storage/L2Rldi92ZGE=");
    assert_eq!(
        storage.fs_group,
        Some(FSGroup { group_id: 1000, group_change_policy: FSGroupChangePolicy::Always })
    );
    assert_eq!(storage.source, "/dev/vda");

    let mounts = volume.get_volume_mount();
    assert_eq!(mounts.len(), 1);
    assert_eq!(mounts[0].typ.as_deref(), Some("bind"));
    assert_eq!(mounts[0].source.as_ref().unwrap().text, storage.mount_point);
    assert_eq!(mounts[0].destination, "/cache");
    assert_eq!(volume.get_device_id().as_deref(), Some("dev-1"));
    assert_eq!(volume.disk_info().source_path, "/vol");
}

#[test]
fn plain_volume_is_put_together() {
    let request = EmptyDirRequest::new(&mount(Some("/vol")), "block-plain", &names()).unwrap();
    let volume = BlockEmptyDirVolume::new(request, 0, handled("0a?>~"), FS_TYPE_KEY);
    let storage = &volume.get_storage()[0];
    assert_eq!(
        storage.driver_options,
        vec![String::from("a=b"), String::from("io.katacontainers.volume.fs_type=ext4")]
    );
    assert_eq!(storage.options, vec![String::from("rw"), String::from("discard")]);
    assert!(storage.fs_group.is_none());
    // The last two symbols of the alphabet are '-' and '_', and the last group is filled up.
    assert_eq!(storage.mount_point, "/run/kata-containers/sandbox/storage/MGE_Pn4=");
}

#[test]
fn mount_points_of_different_sources_differ() {
    let point = |source: &str| {
        let request = EmptyDirRequest::new(&mount(Some("/vol")), "block-plain", &names()).unwrap();
        let volume = BlockEmptyDirVolume::new(request, 0, handled(source), FS_TYPE_KEY);
        volume.get_storage()[0].mount_point.clone()
    };
    assert_eq!(point(""), "/run/kata-containers/sandbox/storage/");
    assert_eq!(point("a"), "/run/kata-containers/sandbox/storage/YQ==");
    assert_eq!(point("ab"), "/run/kata-containers/sandbox/storage/YWI=");
    assert_eq!(point("abc"), "/run/kata-containers/sandbox/storage/YWJj");
    assert_eq!(point("\u{ff}"), "/run/kata-containers/sandbox/storage/w78=");
}

#[test]
fn only_host_empty_dirs_in_a_block_mode_are_block_volumes() {
    let host = PathFacts { empty_dir: true, lookup: MountLookup::NoMountEntry };
    let tmpfs = PathFacts { empty_dir: true, lookup: MountLookup::Found(String::from("tmpfs")) };
    let m = mount(Some("/vol"));
    assert!(is_block_emptydir_volume(&m, &host, "block-encrypted", &names()));
    assert!(is_block_emptydir_volume(&m, &host, "block-plain", &names()));
    assert!(!is_block_emptydir_volume(&m, &host, "shared-fs", &names()));
    assert!(!is_block_emptydir_volume(&m, &tmpfs, "block-plain", &names()));
    assert!(!is_block_emptydir_volume(&mount(None), &host, "block-plain", &names()));
    let mut other = mount(Some("/vol"));
    other.typ = Some(String::from("local"));
    assert!(!is_block_emptydir_volume(&other, &host, "block-plain", &names()));
    other.typ = None;
    assert!(!is_block_emptydir_volume(&other, &host, "block-plain", &names()));
}

#[test]
fn capacity_is_blocks_times_size_and_not_zero() {
    assert_eq!(get_filesystem_capacity(1000, 4096), Ok(4_096_000));
    assert_eq!(get_filesystem_capacity(0, 4096), Err(VolumeError::ZeroCapacity));
    assert_eq!(get_filesystem_capacity(7, 0), Err(VolumeError::ZeroCapacity));
    assert_eq!(VolumeError::ZeroCapacity.message(), "filesystem reports zero capacity");
}

#[test]
fn a_mounted_directory_keeps_its_disk() {
    let mut step = EmptyDirStep::StatDir;
    let mut seen = vec![step];
    loop {
        let event = if step == EmptyDirStep::LookUpMount { EmptyDirEvent::Mounted(true) } else { EmptyDirEvent::Done };
        match next_step(step, event) {
            Ok(Some(next)) => step = next,
            Ok(None) => break,
            Err(_) => unreachable!(),
        }
        seen.push(step);
    }
    assert_eq!(
        seen,
        vec![
            EmptyDirStep::StatDir,
            EmptyDirStep::LookUpMount,
            EmptyDirStep::PlugDevice,
            EmptyDirStep::HandleVolume
        ]
    );
}

#[test]
fn a_new_directory_gets_a_disk_before_it_is_plugged() {
    assert_eq!(
        next_step(EmptyDirStep::LookUpMount, EmptyDirEvent::Mounted(false)),
        Ok(Some(EmptyDirStep::MeasureFs))
    );
    assert_eq!(next_step(EmptyDirStep::MeasureFs, EmptyDirEvent::Done), Ok(Some(EmptyDirStep::CreateDisk)));
    assert_eq!(next_step(EmptyDirStep::CreateDisk, EmptyDirEvent::Done), Ok(Some(EmptyDirStep::WriteMountInfo)));
    assert_eq!(next_step(EmptyDirStep::WriteMountInfo, EmptyDirEvent::Done), Ok(Some(EmptyDirStep::PlugDevice)));
    assert_eq!(next_step(EmptyDirStep::PlugDevice, EmptyDirEvent::Failed), Err(EmptyDirStep::PlugDevice));
    assert_eq!(EmptyDirStep::PlugDevice.message(), "plug block emptyDir block device");
}
