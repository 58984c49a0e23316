//! Root file systems that are an overlay in the guest.
//!
//! The lower layer is shared from the host. The upper layer lives on a block device: a copy of a
//! template disk that is plugged into the virtual machine once and used by every container.

use vstd::prelude::*;
use vstd::string::*;

use crate::agent::{Storage, StorageView};
use crate::mount::Mount;
use crate::path::{get_parent_dir, parent, path_join};
use crate::storage::{
    block_mount, block_mounts, mounts_at, option_prefix, overlay_actions, overlay_dir, upper_dir,
    wants_rw, work_dir, ActionView, DirPurpose, OverlayfsHandler, KATA_OVERLAY,
    KATA_OVERLAY_BLK_POINT, KATA_OVERLAY_BLK_SOURCE, OVERLAY_RW_OPTION,
};
use crate::text::{after_prefix, concat2, concat3};
use crate::volume::BlockDeviceInfo;

verus! {

broadcast use vstd::string::group_string_axioms;

/// The storage type that asks for an overlay root file system.
pub const OVERLAY_ROOTFS_TYPE: &'static str = "io.katacontainers.overlayfs";

/// The option for the size of the upper layer's disk.
pub const OVERLAY_ROOTFS_SIZE: &'static str = "io.katacontainers.overlayfs.size";

/// Where the guest has its overlays.
pub const KATA_OVERLAY_GUEST_PATH: &'static str = "/run/kata-containers/overlay";

/// The driver of the overlay storage.
pub const KATA_OVERLAY_DEV_TYPE: &'static str = "overlayfs";

/// The directory in which a container's overlay is mounted.
pub const KATA_OVERLAY_DIR: &'static str = "merge";

/// What the runtime calls the parts of a root file system.
#[derive(Debug)]
pub struct RootfsNames {
    /// The directory of a root file system below its bundle.
    pub rootfs: String,
    /// The file system type of an overlay.
    pub overlay_fs: String,
}

/// The permissions of a new disk: the owner writes, everybody reads.
pub const DEFAULT_PERMISSIONS: u32 = 0o644;

/// A device of the virtual machine, as far as an overlay reads it.
#[derive(Debug)]
pub enum DeviceRef {
    /// A block device.
    Block {
        /// The device's name.
        device_id: String,
        /// Its path in the guest.
        virt_path: String,
    },
    /// Some other device.
    Other,
}

impl DeviceRef {
    /// The name of a block device, nothing for another device.
    pub open spec fn id(&self) -> Seq<char> {
        match self {
            DeviceRef::Block { device_id, .. } => device_id@,
            DeviceRef::Other => Seq::empty(),
        }
    }

    /// The guest path of a block device, nothing for another device.
    pub open spec fn guest_path(&self) -> Seq<char> {
        match self {
            DeviceRef::Block { virt_path, .. } => virt_path@,
            DeviceRef::Other => Seq::empty(),
        }
    }
}

/// Where the upper layer's block device comes from.
#[derive(Debug)]
pub enum OverlayDevice {
    /// It was in the virtual machine already, and the guest has mounted it.
    Existing(DeviceRef),
    /// It was just plugged in, and the guest is still to mount it.
    Plugged(DeviceRef),
}

impl OverlayDevice {
    /// The device's name.
    pub open spec fn id(&self) -> Seq<char> {
        match self {
            OverlayDevice::Existing(d) => d.id(),
            OverlayDevice::Plugged(d) => d.id(),
        }
    }

    /// The driver options that have the guest mount a new device.
    pub open spec fn driver_options(&self) -> Seq<Seq<char>> {
        match self {
            OverlayDevice::Existing(_) => Seq::empty(),
            OverlayDevice::Plugged(d) => seq![
                KATA_OVERLAY_BLK_SOURCE@ + "="@ + d.guest_path(),
                KATA_OVERLAY_BLK_POINT@ + "="@ + KATA_OVERLAY_GUEST_PATH@,
            ],
        }
    }
}

/// A step on the host's file system.
#[derive(Debug)]
pub enum DiskStep {
    /// Create a file of the given size and make a file system on it. Where that fails, the file is
    /// removed.
    CreateTemplate(String, u64),
    /// Copy a file, sharing its blocks.
    ReflinkCopy(String, String),
    /// Remove a file; it does not matter whether that works.
    RemoveFile(String),
}

/// The contents of a [`DiskStep`].
pub enum DiskStepView {
    /// Create a file of the given size and make a file system on it.
    CreateTemplate(Seq<char>, u64),
    /// Copy a file, sharing its blocks.
    ReflinkCopy(Seq<char>, Seq<char>),
    /// Remove a file.
    RemoveFile(Seq<char>),
}

impl View for DiskStep {
    type V = DiskStepView;

    open spec fn view(&self) -> DiskStepView {
        match self {
            DiskStep::CreateTemplate(path, size) => DiskStepView::CreateTemplate(path@, *size),
            DiskStep::ReflinkCopy(from, to) => DiskStepView::ReflinkCopy(from@, to@),
            DiskStep::RemoveFile(path) => DiskStepView::RemoveFile(path@),
        }
    }
}

impl DiskStep {
    /// The file to remove when this step fails.
    pub fn remove_on_failure(&self) -> (r: Option<&str>)
        ensures
            match *self {
                DiskStep::CreateTemplate(path, _) => r matches Some(p) && p@ == path@,
                _ => r is None,
            },
    {
        match self {
            DiskStep::CreateTemplate(path, _) => Some(path.as_str()),
            _ => None,
        }
    }
}

/// The contents of a list of steps.
pub open spec fn steps_view(list: Seq<DiskStep>) -> Seq<DiskStepView> {
    list.map_values(|s: DiskStep| s@)
}

/// How the upper layer's disk is made and plugged in.
#[derive(Debug)]
pub struct DiskPlan {
    /// The steps that make the disk; the first that fails ends the work.
    pub before: Vec<DiskStep>,
    /// The configuration of the block device that the disk is plugged in as.
    pub config: OverlayBlockConfig,
    /// The steps after the device was plugged in, whether or not that worked.
    pub after: Vec<DiskStep>,
}

/// The configuration of an overlay's block device; what is not listed takes its default.
#[derive(Debug)]
pub struct OverlayBlockConfig {
    /// The file on the host.
    pub path_on_host: String,
    /// The driver.
    pub driver_option: String,
    /// The name of the asynchronous I/O engine.
    pub blkdev_aio: String,
    /// The number of queues.
    pub num_queues: usize,
    /// The size of a queue.
    pub queue_size: u32,
    /// The logical sector size.
    pub logical_sector_size: u32,
    /// The physical sector size.
    pub physical_sector_size: u32,
    /// Whether the device holds the upper layers of overlays.
    pub is_overlayfs: bool,
}

/// The disk of the upper layer, beside the template.
pub open spec fn disk_path(template_dir: Seq<char>, cid: Seq<char>) -> Seq<char> {
    template_dir + "/"@ + cid + ".img"@
}

/// A template of another size, beside the configured one.
pub open spec fn resized_template(template_dir: Seq<char>, cid: Seq<char>) -> Seq<char> {
    template_dir + "/new_"@ + cid + ".img"@
}

/// The steps that make the disk: a copy of the template, or of a new template of the size asked
/// for, which is removed afterwards.
pub open spec fn disk_steps(template: Seq<char>, cid: Seq<char>, size: u64) -> Seq<DiskStepView> {
    let dir = parent(template)->0;
    if size != 0 {
        seq![
            DiskStepView::CreateTemplate(resized_template(dir, cid), size),
            DiskStepView::ReflinkCopy(resized_template(dir, cid), disk_path(dir, cid)),
            DiskStepView::RemoveFile(resized_template(dir, cid)),
        ]
    } else {
        seq![DiskStepView::ReflinkCopy(template, disk_path(dir, cid))]
    }
}

/// Plans how the upper layer's disk is made: beside the template, which has a parent directory.
pub fn plan_disk(
    template_storage: &str,
    cid: &str,
    dst_storage_size: u64,
    info: BlockDeviceInfo,
) -> (r: DiskPlan)
    requires
        parent(template_storage@) is Some,
    ensures
        steps_view(r.before@) == disk_steps(template_storage@, cid@, dst_storage_size),
        r.config.path_on_host@ == disk_path(parent(template_storage@)->0, cid@),
        r.config.driver_option == info.block_device_driver,
        r.config.blkdev_aio == info.block_device_aio,
        r.config.num_queues == info.num_queues,
        r.config.queue_size == info.queue_size,
        r.config.logical_sector_size == info.block_device_logical_sector_size,
        r.config.physical_sector_size == info.block_device_physical_sector_size,
        r.config.is_overlayfs,
        steps_view(r.after@) == seq![
            DiskStepView::RemoveFile(disk_path(parent(template_storage@)->0, cid@)),
        ],
{
    let dir = match get_parent_dir(template_storage) {
        Some(dir) => dir,
        None => "",
    };
    let disk = concat2(concat3(dir, "/", cid).as_str(), ".img");
    let mut before: Vec<DiskStep> = Vec::new();
    if dst_storage_size != 0 {
        let resized = concat2(concat3(dir, "/new_", cid).as_str(), ".img");
        before.push(DiskStep::CreateTemplate(resized.clone(), dst_storage_size));
        before.push(DiskStep::ReflinkCopy(resized.clone(), disk.clone()));
        before.push(DiskStep::RemoveFile(resized));
    } else {
        before.push(DiskStep::ReflinkCopy(template_storage.to_owned(), disk.clone()));
    }
    let after = vec![DiskStep::RemoveFile(disk.clone())];
    proof {
        assert(steps_view(before@) =~= disk_steps(template_storage@, cid@, dst_storage_size));
        assert(steps_view(after@) =~= seq![
            DiskStepView::RemoveFile(disk_path(parent(template_storage@)->0, cid@)),
        ]);
    }
    DiskPlan {
        before,
        config: OverlayBlockConfig {
            path_on_host: disk,
            driver_option: info.block_device_driver,
            blkdev_aio: info.block_device_aio,
            num_queues: info.num_queues,
            queue_size: info.queue_size,
            logical_sector_size: info.block_device_logical_sector_size,
            physical_sector_size: info.block_device_physical_sector_size,
            is_overlayfs: true,
        },
        after,
    }
}

/// A step of making an overlay root file system, before it is put together.
#[derive(Clone, Copy, Debug, PartialEq, Eq, Structural)]
pub enum OverlayStep {
    /// Look whether the virtual machine has the upper layer's device.
    FindDevice,
    /// Make the upper layer's disk.
    MakeDisk,
    /// Plug the disk into the virtual machine.
    PlugDevice,
    /// Remove the disk's file; the flag says whether the disk was plugged in.
    RemoveDisk(bool),
    /// Mount the root file system below the bundle.
    MountBundle,
    /// Share the lower layer with the guest.
    ShareRootfs,
}

/// How a step went.
#[derive(Clone, Copy, Debug, PartialEq, Eq, Structural)]
pub enum OverlayEvent {
    /// It worked, or the device is there.
    Done,
    /// It failed, or the device is not there.
    Failed,
}

/// The first step for the lower layer.
pub open spec fn lower_step(mounts_rootfs: bool) -> OverlayStep {
    if mounts_rootfs {
        OverlayStep::MountBundle
    } else {
        OverlayStep::ShareRootfs
    }
}

/// What comes after a step: the next one, nothing once the root file system can be put together,
/// or the failure of one. The disk's file is removed whether or not the disk could be plugged in.
pub open spec fn after_step(
    step: OverlayStep,
    event: OverlayEvent,
    mounts_rootfs: bool,
) -> Result<Option<OverlayStep>, OverlayStep> {
    let worked = event == OverlayEvent::Done;
    match step {
        OverlayStep::FindDevice => if worked {
            Ok(Some(lower_step(mounts_rootfs)))
        } else {
            Ok(Some(OverlayStep::MakeDisk))
        },
        OverlayStep::PlugDevice => Ok(Some(OverlayStep::RemoveDisk(worked))),
        OverlayStep::RemoveDisk(plugged) => if plugged {
            Ok(Some(lower_step(mounts_rootfs)))
        } else {
            Err(OverlayStep::PlugDevice)
        },
        OverlayStep::MakeDisk => if worked {
            Ok(Some(OverlayStep::PlugDevice))
        } else {
            Err(step)
        },
        OverlayStep::MountBundle => if worked {
            Ok(Some(OverlayStep::ShareRootfs))
        } else {
            Err(step)
        },
        OverlayStep::ShareRootfs => if worked {
            Ok(None)
        } else {
            Err(step)
        },
    }
}

/// What comes after a step of making an overlay root file system.
pub fn next_step(
    step: OverlayStep,
    event: OverlayEvent,
    mounts_rootfs: bool,
) -> (r: Result<Option<OverlayStep>, OverlayStep>)
    ensures
        r == after_step(step, event, mounts_rootfs),
{
    let worked = event == OverlayEvent::Done;
    let lower = if mounts_rootfs {
        OverlayStep::MountBundle
    } else {
        OverlayStep::ShareRootfs
    };
    match step {
        OverlayStep::FindDevice => {
            if worked {
                Ok(Some(lower))
            } else {
                Ok(Some(OverlayStep::MakeDisk))
            }
        },
        OverlayStep::PlugDevice => Ok(Some(OverlayStep::RemoveDisk(worked))),
        OverlayStep::RemoveDisk(plugged) => {
            if plugged {
                Ok(Some(lower))
            } else {
                Err(OverlayStep::PlugDevice)
            }
        },
        _ => {
            if !worked {
                return Err(step);
            }
            match step {
                OverlayStep::MakeDisk => Ok(Some(OverlayStep::PlugDevice)),
                OverlayStep::MountBundle => Ok(Some(OverlayStep::ShareRootfs)),
                _ => Ok(None),
            }
        },
    }
}

/// What is shared with the guest as the lower layer.
#[derive(Debug)]
pub struct ShareFsRootfsConfig {
    /// The container.
    pub cid: String,
    /// The directory on the host.
    pub source: String,
    /// Its name in the guest.
    pub target: String,
    /// Whether it is shared read-only.
    pub readonly: bool,
    /// Whether it is a RAFS image.
    pub is_rafs: bool,
}

/// The directory of the lower layer: where the root file system is mounted below the bundle, or
/// the bundle itself where there is none to mount.
pub open spec fn lower_dir(
    bundle_path: Seq<char>,
    mounts_rootfs: bool,
    names: RootfsNames,
) -> Seq<char> {
    if mounts_rootfs {
        bundle_path + "/"@ + names.rootfs@
    } else {
        bundle_path
    }
}

/// The place in the guest where a container's overlay is mounted.
pub open spec fn overlay_guest_path(cid: Seq<char>) -> Seq<char> {
    KATA_OVERLAY_GUEST_PATH@ + "/"@ + cid + "/"@ + KATA_OVERLAY_DIR@
}

/// The overlay storage for the agent.
pub open spec fn overlay_rootfs_storage(
    device: OverlayDevice,
    cid: Seq<char>,
    shared_guest_path: Seq<char>,
    names: RootfsNames,
) -> StorageView {
    StorageView {
        driver: KATA_OVERLAY_DEV_TYPE@,
        driver_options: device.driver_options(),
        source: names.overlay_fs@,
        fs_type: names.overlay_fs@,
        fs_group: None,
        options: seq!["lowerdir="@ + shared_guest_path, OVERLAY_RW_OPTION@, "index=off"@],
        mount_point: overlay_guest_path(cid),
        shared: false,
    }
}

/// A step of giving a root file system up.
#[derive(Debug)]
pub enum CleanupStep {
    /// Stop sharing the lower layer.
    UnshareRootfs,
    /// Unmount a directory of the host.
    Unmount(String),
}

/// A root file system that is an overlay in the guest.
#[derive(Debug)]
pub struct OverlayRootfs {
    guest_path: String,
    config: ShareFsRootfsConfig,
    rootfs: Storage,
    device_id: String,
}

/// What is shared for the lower layer, and where it is mounted first, if it is.
pub fn share_config(
    cid: &str,
    bundle_path: &str,
    mounts_rootfs: bool,
    names: &RootfsNames,
) -> (r: ShareFsRootfsConfig)
    ensures
        r.cid@ == cid@,
        r.source@ == lower_dir(bundle_path@, mounts_rootfs, *names),
        r.target@ == names.rootfs@,
        !r.readonly,
        !r.is_rafs,
{
    let source = if mounts_rootfs {
        concat3(bundle_path, "/", names.rootfs.as_str())
    } else {
        bundle_path.to_owned()
    };
    ShareFsRootfsConfig {
        cid: cid.to_owned(),
        source,
        target: names.rootfs.clone(),
        readonly: false,
        is_rafs: false,
    }
}

impl OverlayRootfs {
    /// The storage for the agent.
    pub closed spec fn storage_view(&self) -> StorageView {
        self.rootfs@
    }

    /// The place in the guest.
    pub closed spec fn guest_view(&self) -> Seq<char> {
        self.guest_path@
    }

    /// What is shared for the lower layer.
    pub closed spec fn config_view(&self) -> ShareFsRootfsConfig {
        self.config
    }

    /// The device.
    pub closed spec fn device_view(&self) -> Seq<char> {
        self.device_id@
    }

    /// Puts the root file system together, once the lower layer is shared and appears in the guest
    /// at `shared_guest_path`.
    pub fn new(
        device: OverlayDevice,
        config: ShareFsRootfsConfig,
        shared_guest_path: &str,
        names: &RootfsNames,
    ) -> (r: OverlayRootfs)
        ensures
            r.storage_view() == overlay_rootfs_storage(
                device,
                config.cid@,
                shared_guest_path@,
                *names,
            ),
            r.guest_view() == overlay_guest_path(config.cid@),
            r.config_view() == config,
            r.device_view() == device.id(),
    {
        let ghost given = device;
        let mut device_id = String::new();
        let mut driver_options: Vec<String> = Vec::new();
        match device {
            OverlayDevice::Existing(d) => {
                if let DeviceRef::Block { device_id: id, .. } = d {
                    device_id = id;
                }
            },
            OverlayDevice::Plugged(d) => {
                let mut virt_path = String::new();
                if let DeviceRef::Block { device_id: id, virt_path: path } = d {
                    device_id = id;
                    virt_path = path;
                }
                driver_options.push(concat3(KATA_OVERLAY_BLK_SOURCE, "=", virt_path.as_str()));
                driver_options.push(
                    concat3(KATA_OVERLAY_BLK_POINT, "=", KATA_OVERLAY_GUEST_PATH),
                );
            },
        }
        let options = vec![
            concat2("lowerdir=", shared_guest_path),
            OVERLAY_RW_OPTION.to_owned(),
            "index=off".to_owned(),
        ];
        let dir = concat3(KATA_OVERLAY_GUEST_PATH, "/", config.cid.as_str());
        let guest_path = concat3(dir.as_str(), "/", KATA_OVERLAY_DIR);
        let rootfs = Storage {
            driver: KATA_OVERLAY_DEV_TYPE.to_owned(),
            source: names.overlay_fs.clone(),
            fs_type: names.overlay_fs.clone(),
            options,
            mount_point: guest_path.clone(),
            driver_options,
            ..Default::default()
        };
        proof {
            let want = overlay_rootfs_storage(given, config.cid@, shared_guest_path@, *names);
            assert(rootfs@.driver_options =~= want.driver_options);
            assert(rootfs@.options =~= want.options);
            assert(rootfs@ =~= want);
            assert(device_id@ =~= given.id());
        }
        OverlayRootfs { guest_path, config, rootfs, device_id }
    }

    /// The place in the guest.
    pub fn get_guest_rootfs_path(&self) -> (r: String)
        ensures
            r@ == self.guest_view(),
    {
        self.guest_path.clone()
    }

    /// The mounts of the root file system: none, the storage does it all.
    pub fn get_rootfs_mount(&self) -> (r: Vec<Mount>)
        ensures
            r@.len() == 0,
    {
        Vec::new()
    }

    /// The storage for the agent.
    pub fn get_storage(&self) -> (r: Option<Vec<Storage>>)
        ensures
            r matches Some(list) && list@.len() == 1 && list@[0]@ == self.storage_view(),
    {
        Some(vec![self.rootfs.clone()])
    }

    /// The device.
    pub fn get_device_id(&self) -> (r: Option<String>)
        ensures
            r matches Some(id) && id@ == self.device_view(),
    {
        Some(self.device_id.clone())
    }

    /// What is shared for the lower layer.
    pub fn share_config(&self) -> (r: &ShareFsRootfsConfig)
        ensures
            *r == self.config_view(),
    {
        &self.config
    }

    /// The steps of giving the root file system up. The device stays: another container may use
    /// it, until the virtual machine stops.
    pub fn cleanup(&self) -> (r: Vec<CleanupStep>)
        ensures
            r@.len() == 2,
            r@[0] is UnshareRootfs,
            r@[1] matches CleanupStep::Unmount(path) && path@ == self.config_view().source@,
    {
        vec![CleanupStep::UnshareRootfs, CleanupStep::Unmount(self.config.source.clone())]
    }
}

/// Whether an option under `key` is never taken for one under `other`, whatever its value.
pub open spec fn apart(key: Seq<char>, other: Seq<char>) -> bool {
    forall|value: Seq<char>|
        after_prefix(#[trigger] (key + "="@ + value), option_prefix(other)) is None
}

/// The guest's handler mounts a newly plugged device where the overlays live, and nothing else of
/// that kind. Its option for a directory must not be mixed up with those for the device.
pub proof fn law_plugged_device_is_mounted(
    h: OverlayfsHandler,
    device: DeviceRef,
    cid: Seq<char>,
    shared_guest_path: Seq<char>,
    names: RootfsNames,
)
    requires
        apart(KATA_OVERLAY_BLK_SOURCE@, h.create_dir_option@),
        apart(KATA_OVERLAY_BLK_POINT@, h.create_dir_option@),
    ensures
        ({
            let s = overlay_rootfs_storage(
                OverlayDevice::Plugged(device),
                cid,
                shared_guest_path,
                names,
            );
            let base = h.container_base@;
            &&& wants_rw(s)
            &&& overlay_actions(h, s, Some(cid)) == seq![
                block_mount(device.guest_path(), KATA_OVERLAY_GUEST_PATH@),
                ActionView::CreateDir(work_dir(base, cid), DirPurpose::Work),
                ActionView::CreateDir(upper_dir(base, cid), DirPurpose::Upper),
                ActionView::CreateDir(overlay_guest_path(cid), DirPurpose::Merged),
            ]
        }),
{
    reveal_strlit("io.katacontainers.rootfs.overlayfs.mount_blk_src");
    reveal_strlit("io.katacontainers.rootfs.overlayfs.mount_blk_point");
    let s = overlay_rootfs_storage(OverlayDevice::Plugged(device), cid, shared_guest_path, names);
    assert(s.options[1] == OVERLAY_RW_OPTION@);
    let base = h.container_base@;
    let src = option_prefix(KATA_OVERLAY_BLK_SOURCE@);
    let point = option_prefix(KATA_OVERLAY_BLK_POINT@);
    let first = s.driver_options[0];
    let second = s.driver_options[1];
    lemma_option_value(KATA_OVERLAY_BLK_SOURCE@, device.guest_path());
    lemma_option_value(KATA_OVERLAY_BLK_POINT@, KATA_OVERLAY_GUEST_PATH@);
    assert(first == KATA_OVERLAY_BLK_SOURCE@ + "="@ + device.guest_path());
    assert(second == KATA_OVERLAY_BLK_POINT@ + "="@ + KATA_OVERLAY_GUEST_PATH@);
    assert(first[45] == 's' && point[45] == 'p');
    assert(second[45] == 'p' && src[45] == 's');
    lemma_other_option(first, point, 45);
    lemma_other_option(second, src, 45);
    let options = s.driver_options;
    assert(options.drop_last() =~= seq![first]);
    assert(seq![first].drop_last() =~= Seq::<Seq<char>>::empty());
    let at = KATA_OVERLAY_GUEST_PATH@;
    assert(mounts_at(at, Seq::<Seq<char>>::empty()) =~= Seq::<ActionView>::empty());
    assert(mounts_at(at, seq![first]) =~= seq![block_mount(device.guest_path(), at)]);
    assert(mounts_at(at, options) =~= seq![block_mount(device.guest_path(), at)]);
    assert(block_mounts(Seq::<Seq<char>>::empty(), options) =~= Seq::<ActionView>::empty());
    assert(block_mounts(seq![first], options) =~= Seq::<ActionView>::empty());
    assert(block_mounts(options, options) =~= seq![block_mount(device.guest_path(), at)]);
    lemma_no_requested_dirs(h.create_dir_option@, options);
    assert(overlay_actions(h, s, Some(cid)) =~= seq![
        block_mount(device.guest_path(), at),
        ActionView::CreateDir(work_dir(base, cid), DirPurpose::Work),
        ActionView::CreateDir(upper_dir(base, cid), DirPurpose::Upper),
        ActionView::CreateDir(overlay_guest_path(cid), DirPurpose::Merged),
    ]);
}

/// With a device that was there before, the guest's handler mounts no device again.
pub proof fn law_existing_device_is_not_mounted(
    h: OverlayfsHandler,
    device: DeviceRef,
    cid: Seq<char>,
    shared_guest_path: Seq<char>,
    names: RootfsNames,
)
    ensures
        overlay_actions(
            h,
            overlay_rootfs_storage(
                OverlayDevice::Existing(device),
                cid,
                shared_guest_path,
                names,
            ),
            Some(cid),
        ) == seq![
            ActionView::CreateDir(work_dir(h.container_base@, cid), DirPurpose::Work),
            ActionView::CreateDir(upper_dir(h.container_base@, cid), DirPurpose::Upper),
            ActionView::CreateDir(overlay_guest_path(cid), DirPurpose::Merged),
        ],
{
    let s = overlay_rootfs_storage(OverlayDevice::Existing(device), cid, shared_guest_path, names);
    assert(s.options[1] == OVERLAY_RW_OPTION@);
    assert(overlay_actions(h, s, Some(cid)) =~= seq![
        ActionView::CreateDir(work_dir(h.container_base@, cid), DirPurpose::Work),
        ActionView::CreateDir(upper_dir(h.container_base@, cid), DirPurpose::Upper),
        ActionView::CreateDir(overlay_guest_path(cid), DirPurpose::Merged),
    ]);
}

/// The work, upper and merged directories of a container lie side by side, on the device that is
/// mounted at the overlays' path. The agent's directory for containers must be the one in which the
/// runtime expects the overlays.
pub proof fn law_overlay_dirs_side_by_side(base: Seq<char>, cid: Seq<char>)
    requires
        path_join(base, KATA_OVERLAY@) == KATA_OVERLAY_GUEST_PATH@,
        cid.len() > 0,
        cid[0] != '/',
        cid.last() != '/',
    ensures
        overlay_dir(base, cid) == KATA_OVERLAY_GUEST_PATH@ + "/"@ + cid,
        work_dir(base, cid) == overlay_dir(base, cid) + "/work"@,
        upper_dir(base, cid) == overlay_dir(base, cid) + "/upper"@,
        overlay_guest_path(cid) == overlay_dir(base, cid) + "/merge"@,
{
    reveal_strlit("/run/kata-containers/overlay");
    reveal_strlit("/");
    reveal_strlit("work");
    reveal_strlit("/work");
    reveal_strlit("upper");
    reveal_strlit("/upper");
    reveal_strlit("merge");
    reveal_strlit("/merge");
    assert("/"@ =~= seq!['/']);
    let dir = overlay_dir(base, cid);
    assert(dir =~= KATA_OVERLAY_GUEST_PATH@ + "/"@ + cid);
    assert(dir.last() == cid.last());
    assert(work_dir(base, cid) =~= dir + "/work"@);
    assert(upper_dir(base, cid) =~= dir + "/upper"@);
    assert(overlay_guest_path(cid) =~= dir + "/merge"@);
}

/// However plugging the disk in went, its file is removed next, and a failure is reported only
/// after that.
pub proof fn law_disk_file_always_removed(event: OverlayEvent, mounts_rootfs: bool)
    ensures
        after_step(OverlayStep::PlugDevice, event, mounts_rootfs) == Ok::<
            Option<OverlayStep>,
            OverlayStep,
        >(Some(OverlayStep::RemoveDisk(event == OverlayEvent::Done))),
        after_step(OverlayStep::RemoveDisk(false), event, mounts_rootfs) == Err::<
            Option<OverlayStep>,
            OverlayStep,
        >(OverlayStep::PlugDevice),
{
}

/// The place of a step among all steps.
pub open spec fn place(step: OverlayStep) -> nat {
    match step {
        OverlayStep::FindDevice => 0,
        OverlayStep::MakeDisk => 1,
        OverlayStep::PlugDevice => 2,
        OverlayStep::RemoveDisk(_) => 3,
        OverlayStep::MountBundle => 4,
        OverlayStep::ShareRootfs => 5,
    }
}

/// Every step leads to a later one, so that making a root file system ends.
pub proof fn law_steps_advance(step: OverlayStep, event: OverlayEvent, mounts_rootfs: bool)
    ensures
        after_step(step, event, mounts_rootfs) matches Ok(Some(next)) ==> place(step) < place(next),
{
}

/// The file that a step makes, if it makes one.
pub open spec fn made_file(step: DiskStepView) -> Option<Seq<char>> {
    match step {
        DiskStepView::CreateTemplate(path, _) => Some(path),
        DiskStepView::ReflinkCopy(_, to) => Some(to),
        DiskStepView::RemoveFile(_) => None,
    }
}

/// Every file that is made for the upper layer's disk is removed by a later step.
pub proof fn law_disk_files_removed(template: Seq<char>, cid: Seq<char>, size: u64, i: int)
    requires
        0 <= i < disk_steps(template, cid, size).len(),
    ensures
        ({
            let all = disk_steps(template, cid, size).push(
                DiskStepView::RemoveFile(disk_path(parent(template)->0, cid)),
            );
            made_file(all[i]) matches Some(path) ==> exists|k: int|
                i < k < all.len() && #[trigger] all[k] == DiskStepView::RemoveFile(path)
        }),
{
    let steps = disk_steps(template, cid, size);
    let all = steps.push(DiskStepView::RemoveFile(disk_path(parent(template)->0, cid)));
    assert(all[i] == steps[i]);
    assert(all[steps.len() as int] == DiskStepView::RemoveFile(
        disk_path(parent(template)->0, cid),
    ));
    if size != 0 {
        assert(all[2] == DiskStepView::RemoveFile(
            resized_template(parent(template)->0, cid),
        ));
    }
}

/// The value of an option is what follows its key.
proof fn lemma_option_value(key: Seq<char>, value: Seq<char>)
    ensures
        after_prefix(key + "="@ + value, option_prefix(key)) == Some(value),
{
    let s = key + "="@ + value;
    assert(s.subrange(0, option_prefix(key).len() as int) =~= option_prefix(key));
    assert(s.skip(option_prefix(key).len() as int) =~= value);
}

/// An option that differs from a prefix in one place does not begin with it.
proof fn lemma_other_option(s: Seq<char>, prefix: Seq<char>, at: int)
    requires
        0 <= at < prefix.len(),
        at < s.len(),
        s[at] != prefix[at],
    ensures
        after_prefix(s, prefix) is None,
{
    if prefix.is_prefix_of(s) {
        assert(s.subrange(0, prefix.len() as int)[at] == prefix[at]);
    }
}

/// Where no option asks for a directory, none is created.
proof fn lemma_no_requested_dirs(key: Seq<char>, options: Seq<Seq<char>>)
    requires
        forall|i: int|
            0 <= i < options.len() ==> after_prefix(
                #[trigger] options[i],
                option_prefix(key),
            ) is None,
    ensures
        crate::storage::requested_dirs(key, options) == Seq::<ActionView>::empty(),
    decreases options.len(),
{
    if options.len() > 0 {
        assert forall|i: int| 0 <= i < options.drop_last().len() implies after_prefix(
            #[trigger] options.drop_last()[i],
            option_prefix(key),
        ) is None by {
            assert(options.drop_last()[i] == options[i]);
        }
        lemma_no_requested_dirs(key, options.drop_last());
        assert(options.last() == options[options.len() - 1]);
    }
}

/// A disk is a copy of the template, beside it and under the container's name, and it goes once it
/// is plugged in. For another size, a template of that size is made for the copy and removed behind
/// it; otherwise the template itself is copied.
pub proof fn law_disk_is_a_copy(
    template_storage: &str,
    cid: &str,
    dst_storage_size: u64,
    info: BlockDeviceInfo,
    r: DiskPlan,
)
    requires
        parent(template_storage@) is Some,
        call_ensures(plan_disk, (template_storage, cid, dst_storage_size, info), r),
    ensures
        ({
            let dir = parent(template_storage@)->0;
            let disk = r.config.path_on_host@;
            &&& disk == dir + "/"@ + cid@ + ".img"@
            &&& r.after@.len() == 1
            &&& r.after@[0] matches DiskStep::RemoveFile(path) && path@ == disk
            &&& dst_storage_size == 0 ==> r.before@.len() == 1 && (
            r.before@[0] matches DiskStep::ReflinkCopy(from, to) && from@ == template_storage@
                && to@ == disk)
            &&& dst_storage_size != 0 ==> r.before@.len() == 3 && (
            r.before@[0] matches DiskStep::CreateTemplate(made, size) && size == dst_storage_size
                && made@ == dir + "/new_"@ + cid@ + ".img"@ && (
            r.before@[1] matches DiskStep::ReflinkCopy(from, to) && from@ == made@ && to@ == disk)
                && (r.before@[2] matches DiskStep::RemoveFile(gone) && gone@ == made@))
        }),
{
    let steps = steps_view(r.before@);
    assert(steps.len() == r.before@.len());
    assert(steps[0] == r.before@[0]@);
    if dst_storage_size != 0 {
        assert(steps[1] == r.before@[1]@);
        assert(steps[2] == r.before@[2]@);
    }
    assert(steps_view(r.after@).len() == r.after@.len());
    assert(steps_view(r.after@)[0] == r.after@[0]@);
}

/// The disk is for the upper layers of overlays, and it is plugged in as the hypervisor is
/// configured to attach block devices.
pub proof fn law_overlay_disk_as_configured(
    template_storage: &str,
    cid: &str,
    dst_storage_size: u64,
    info: BlockDeviceInfo,
    r: DiskPlan,
)
    requires
        parent(template_storage@) is Some,
        call_ensures(plan_disk, (template_storage, cid, dst_storage_size, info), r),
    ensures
        r.config.is_overlayfs,
        r.config.driver_option@ == info.block_device_driver@,
        r.config.blkdev_aio@ == info.block_device_aio@,
        r.config.num_queues == info.num_queues,
        r.config.queue_size == info.queue_size,
        r.config.logical_sector_size == info.block_device_logical_sector_size,
        r.config.physical_sector_size == info.block_device_physical_sector_size,
{
}

/// Only a template that could not be made is removed, and it is the one that was to be made.
pub proof fn law_unmade_template_is_removed(step: DiskStep, r: Option<&str>)
    requires
        call_ensures(DiskStep::remove_on_failure, (&step,), r),
    ensures
        r is Some <==> step is CreateTemplate,
        step matches DiskStep::CreateTemplate(path, _) ==> (r matches Some(p) && p@ == path@),
{
}

/// A device that is there is used, and only without one is a disk made and plugged in. The lower
/// layer is mounted at the bundle if it has to be, and shared last. A failure ends the work with
/// the step that failed; only a device that is not found, and a disk file that stays, do not.
pub proof fn law_overlay_steps_in_order(
    step: OverlayStep,
    event: OverlayEvent,
    mounts_rootfs: bool,
    r: Result<Option<OverlayStep>, OverlayStep>,
)
    requires
        call_ensures(next_step, (step, event, mounts_rootfs), r),
    ensures
        ({
            let worked = event == OverlayEvent::Done;
            let lower: Option<OverlayStep> = if mounts_rootfs {
                Some(OverlayStep::MountBundle)
            } else {
                Some(OverlayStep::ShareRootfs)
            };
            &&& step == OverlayStep::FindDevice ==> r == Ok::<Option<OverlayStep>, OverlayStep>(
                if worked {
                    lower
                } else {
                    Some(OverlayStep::MakeDisk)
                },
            )
            &&& step == OverlayStep::MakeDisk && worked ==> r == Ok::<
                Option<OverlayStep>,
                OverlayStep,
            >(Some(OverlayStep::PlugDevice))
            &&& step == OverlayStep::PlugDevice ==> r == Ok::<Option<OverlayStep>, OverlayStep>(
                Some(OverlayStep::RemoveDisk(worked)),
            )
            &&& step == OverlayStep::RemoveDisk(true) ==> r == Ok::<
                Option<OverlayStep>,
                OverlayStep,
            >(lower)
            &&& step == OverlayStep::RemoveDisk(false) ==> r == Err::<
                Option<OverlayStep>,
                OverlayStep,
            >(OverlayStep::PlugDevice)
            &&& step == OverlayStep::MountBundle && worked ==> r == Ok::<
                Option<OverlayStep>,
                OverlayStep,
            >(Some(OverlayStep::ShareRootfs))
            &&& step == OverlayStep::ShareRootfs && worked ==> r == Ok::<
                Option<OverlayStep>,
                OverlayStep,
            >(None)
            &&& !worked && (step == OverlayStep::MakeDisk || step == OverlayStep::MountBundle
                || step == OverlayStep::ShareRootfs) ==> r == Err::<
                Option<OverlayStep>,
                OverlayStep,
            >(step)
        }),
{
}

/// The lower layer is shared, so that it can be written, from the directory below the bundle where
/// it is mounted, or from the bundle itself.
pub proof fn law_lower_layer_is_shared(
    cid: &str,
    bundle_path: &str,
    mounts_rootfs: bool,
    names: RootfsNames,
    r: ShareFsRootfsConfig,
)
    requires
        call_ensures(share_config, (cid, bundle_path, mounts_rootfs, &names), r),
    ensures
        r.cid@ == cid@,
        r.target@ == names.rootfs@,
        mounts_rootfs ==> r.source@ == bundle_path@ + "/"@ + names.rootfs@,
        !mounts_rootfs ==> r.source@ == bundle_path@,
        !r.readonly,
        !r.is_rafs,
{
}

/// The guest gets one storage: an overlay over the shared directory, which can be written, at the
/// container's own place. Only a device that was plugged in for it is to be mounted, at the place
/// for all containers; one that is there already is not mounted again.
pub proof fn law_overlay_over_shared_dir(
    device: OverlayDevice,
    config: ShareFsRootfsConfig,
    shared_guest_path: &str,
    names: RootfsNames,
    rootfs: OverlayRootfs,
    storages: Option<Vec<Storage>>,
    path: String,
)
    requires
        call_ensures(OverlayRootfs::new, (device, config, shared_guest_path, &names), rootfs),
        call_ensures(OverlayRootfs::get_storage, (&rootfs,), storages),
        call_ensures(OverlayRootfs::get_guest_rootfs_path, (&rootfs,), path),
    ensures
        storages matches Some(list) && list@.len() == 1 && {
            let s = list@[0];
            &&& s.driver@ == "overlayfs"@
            &&& s.source@ == names.overlay_fs@
            &&& s.fs_type@ == names.overlay_fs@
            &&& s.fs_group is None
            &&& !s.shared
            &&& s.options@.len() == 3
            &&& s.options@[0]@ == "lowerdir="@ + shared_guest_path@
            &&& s.options@[1]@ == "io.katacontainers.fs-opt.overlay-rw"@
            &&& s.options@[2]@ == "index=off"@
            &&& s.mount_point@ == path@
            &&& path@ == "/run/kata-containers/overlay"@ + "/"@ + config.cid@ + "/"@ + "merge"@
            &&& device is Existing ==> s.driver_options@.len() == 0
            &&& device matches OverlayDevice::Plugged(d) ==> s.driver_options@.len() == 2
                && s.driver_options@[0]@ == "io.katacontainers.rootfs.overlayfs.mount_blk_src"@
                + "="@ + d.guest_path() && s.driver_options@[1]@
                == "io.katacontainers.rootfs.overlayfs.mount_blk_point"@ + "="@
                + "/run/kata-containers/overlay"@
        },
{
    if let Some(list) = storages {
        let s = list@[0];
        assert(s@.options.len() == s.options@.len());
        assert(s@.options[0] == s.options@[0]@);
        assert(s@.options[1] == s.options@[1]@);
        assert(s@.options[2] == s.options@[2]@);
        assert(s@.driver_options.len() == s.driver_options@.len());
        if device is Plugged {
            assert(s@.driver_options[0] == s.driver_options@[0]@);
            assert(s@.driver_options[1] == s.driver_options@[1]@);
        }
    }
}

/// The root file system gives back the device that it was made for, no mount, and what it shares.
/// Its end stops the sharing and then unmounts what was shared.
pub proof fn law_rootfs_gives_back_its_own(
    device: OverlayDevice,
    config: ShareFsRootfsConfig,
    shared_guest_path: &str,
    names: RootfsNames,
    rootfs: OverlayRootfs,
    id: Option<String>,
    mounts: Vec<Mount>,
    shared: &ShareFsRootfsConfig,
    steps: Vec<CleanupStep>,
)
    requires
        call_ensures(OverlayRootfs::new, (device, config, shared_guest_path, &names), rootfs),
        call_ensures(OverlayRootfs::get_device_id, (&rootfs,), id),
        call_ensures(OverlayRootfs::get_rootfs_mount, (&rootfs,), mounts),
        call_ensures(OverlayRootfs::share_config, (&rootfs,), shared),
        call_ensures(OverlayRootfs::cleanup, (&rootfs,), steps),
    ensures
        id is Some,
        device matches OverlayDevice::Existing(DeviceRef::Block { device_id, .. }) ==> id->0@
            == device_id@,
        device matches OverlayDevice::Plugged(DeviceRef::Block { device_id, .. }) ==> id->0@
            == device_id@,
        mounts@.len() == 0,
        *shared == config,
        steps@.len() == 2,
        steps@[0] is UnshareRootfs,
        steps@[1] matches CleanupStep::Unmount(path) && path@ == config.source@,
{
}

} // verus!
