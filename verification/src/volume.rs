//! `emptyDir` volumes handed to the guest as block devices.
//!
//! The volume is a sparse disk image inside the host directory that the kubelet prepared. Making
//! one goes through the host (stat, create the image, write the mount information) and the device
//! manager (plug the image into the virtual machine); the values for each of those steps are
//! computed here, and [`BlockEmptyDirVolume::new`] puts the results together.

use vstd::prelude::*;
use vstd::string::*;
use vstd::utf8::encode_utf8;

use crate::agent::{FSGroup, FSGroupChangePolicy, Storage, StorageView};
use crate::decimal::{decimal, decimal_str};
use crate::encoding::{base64url, encodable, law_base64url_injective, url_safe_encode};
use crate::k8s::{
    block_mode, host_empty_dir, is_block_mode, is_host_empty_dir, EmptyDirNames,
};
use crate::mount::{Mount, MountView, PathFacts, SourcePath, KATA_MOUNT_BIND_TYPE};
use crate::path::{join_path, path_join};
use crate::text::{concat2, concat3, lemma_texts_push, lemma_utf8_injective, str_eq, texts};

verus! {

broadcast use vstd::string::group_string_axioms;

/// The name of the disk image inside the `emptyDir`.
pub const DISK_IMG: &'static str = "disk.img";

/// The driver option that names the key of an encrypted disk.
pub const ENCRYPTION_KEY_DRIVER_OPTION: &'static str = "encryption_key";

/// The key that the guest makes up by itself.
pub const ENCRYPTION_KEY_VALUE: &'static str = "ephemeral";

/// The metadata entry for the key of an encrypted disk.
pub const METADATA_ENCRYPTION_KEY: &'static str = "encryptionKey";

/// The metadata entry for the file system of a plain disk.
pub const METADATA_FILESYSTEM_TYPE: &'static str = "filesystemType";

/// The metadata entry for the group that owns the files.
pub const METADATA_FS_GROUP: &'static str = "fsGroup";

/// The mount option that passes discarded blocks on to the host.
pub const DISCARD_MOUNT_OPTION: &'static str = "discard";

/// The file system of the disks.
pub const FS_TYPE_EXT4: &'static str = "ext4";

/// The volume type of a block device.
pub const VOLUME_TYPE_BLK: &'static str = "blk";

/// The directory below which the guest mounts what the sandbox shares.
pub const DEFAULT_KATA_GUEST_SANDBOX_DIR: &'static str = "/run/kata-containers/sandbox";

/// Why a block `emptyDir` volume cannot be made.
#[derive(Clone, Copy, Debug, PartialEq, Eq, Structural)]
pub enum VolumeError {
    /// The mount has no source.
    NoSource,
    /// The file system of the directory reports no capacity.
    ZeroCapacity,
}

impl VolumeError {
    /// The error in words.
    pub open spec fn text(&self) -> Seq<char> {
        match self {
            VolumeError::NoSource => "block emptyDir mount has no source"@,
            VolumeError::ZeroCapacity => "filesystem reports zero capacity"@,
        }
    }

    /// The error in words.
    pub fn message(&self) -> (r: String)
        ensures
            r@ == self.text(),
    {
        match self {
            VolumeError::NoSource => "block emptyDir mount has no source".to_owned(),
            VolumeError::ZeroCapacity => "filesystem reports zero capacity".to_owned(),
        }
    }
}

/// A host disk that is removed when the sandbox goes.
#[derive(Debug)]
pub struct EphemeralDiskInfo {
    /// The disk image.
    pub disk_path: String,
    /// The directory that it was made for.
    pub source_path: String,
}

/// What the mount and the configured mode ask for.
#[derive(Debug)]
pub struct EmptyDirRequest {
    /// Whether the guest encrypts the disk.
    pub encrypted: bool,
    /// Whether discarded blocks are passed on to the host.
    pub discard_unmap: bool,
    /// The directory and the disk image in it.
    pub disk_info: EphemeralDiskInfo,
}

impl EmptyDirRequest {
    /// Whether this is the request of mode `emptydir_mode` for the directory `source`.
    pub open spec fn asks(
        &self,
        source: Seq<char>,
        emptydir_mode: Seq<char>,
        names: EmptyDirNames,
    ) -> bool {
        &&& self.encrypted == (emptydir_mode == names.block_encrypted@)
        &&& self.discard_unmap == (emptydir_mode == names.block_plain@)
        &&& self.disk_info.source_path@ == source
        &&& self.disk_info.disk_path@ == path_join(source, DISK_IMG@)
    }

    /// Reads what is asked for off a mount. It fails where the mount has no source.
    pub fn new(
        m: &Mount,
        emptydir_mode: &str,
        names: &EmptyDirNames,
    ) -> (r: Result<EmptyDirRequest, VolumeError>)
        ensures
            match r {
                Ok(request) => m@.source matches Some(source) && request.asks(
                    source,
                    emptydir_mode@,
                    *names,
                ),
                Err(e) => m@.source is None && e == VolumeError::NoSource,
            },
    {
        match &m.source {
            Some(source) => {
                let disk_path = join_path(source.text.as_str(), DISK_IMG);
                Ok(
                    EmptyDirRequest {
                        encrypted: str_eq(emptydir_mode, names.block_encrypted.as_str()),
                        discard_unmap: str_eq(emptydir_mode, names.block_plain.as_str()),
                        disk_info: EphemeralDiskInfo {
                            disk_path,
                            source_path: source.text.clone(),
                        },
                    },
                )
            },
            None => Err(VolumeError::NoSource),
        }
    }

    /// The mount information that is written for a directory that is not mounted yet.
    pub fn mount_info(&self, dir_gid: u32) -> (r: DirectVolumeMountInfo)
        ensures
            r@ == mount_info_for(
                self.disk_info.disk_path@,
                self.encrypted,
                self.discard_unmap,
                dir_gid,
            ),
    {
        let mut metadata: Vec<(String, String)> = Vec::new();
        if self.encrypted {
            metadata.push((METADATA_ENCRYPTION_KEY.to_owned(), ENCRYPTION_KEY_VALUE.to_owned()));
        } else {
            metadata.push((METADATA_FILESYSTEM_TYPE.to_owned(), FS_TYPE_EXT4.to_owned()));
        }
        if dir_gid != 0 {
            metadata.push((METADATA_FS_GROUP.to_owned(), decimal_str(dir_gid as u64)));
        }
        let mut options: Vec<String> = Vec::new();
        if self.discard_unmap {
            options.push(DISCARD_MOUNT_OPTION.to_owned());
        }
        let r = DirectVolumeMountInfo {
            volume_type: VOLUME_TYPE_BLK.to_owned(),
            device: self.disk_info.disk_path.clone(),
            fs_type: FS_TYPE_EXT4.to_owned(),
            metadata,
            options,
        };
        proof {
            let want = mount_info_for(
                self.disk_info.disk_path@,
                self.encrypted,
                self.discard_unmap,
                dir_gid,
            );
            assert(r@.metadata =~= want.metadata);
            assert(r@.options =~= want.options);
        }
        r
    }

    /// The configuration of the block device that the disk image is plugged in as.
    pub fn block_config(&self, info: BlockDeviceInfo) -> (r: BlockConfigModern)
        ensures
            r.path_on_host@ == self.disk_info.disk_path@,
            r.driver_option == info.block_device_driver,
            r.blkdev_aio == info.block_device_aio,
            r.num_queues == info.num_queues,
            r.queue_size == info.queue_size,
            r.logical_sector_size == info.block_device_logical_sector_size,
            r.physical_sector_size == info.block_device_physical_sector_size,
            r.discard_unmap == self.discard_unmap,
    {
        BlockConfigModern {
            path_on_host: self.disk_info.disk_path.clone(),
            driver_option: info.block_device_driver,
            blkdev_aio: info.block_device_aio,
            num_queues: info.num_queues,
            queue_size: info.queue_size,
            logical_sector_size: info.block_device_logical_sector_size,
            physical_sector_size: info.block_device_physical_sector_size,
            discard_unmap: self.discard_unmap,
        }
    }
}

/// A step of making a block `emptyDir` volume, before it is put together.
#[derive(Clone, Copy, Debug, PartialEq, Eq, Structural)]
pub enum EmptyDirStep {
    /// Look at the directory for its group.
    StatDir,
    /// Look whether the directory is recorded as mounted.
    LookUpMount,
    /// Measure the directory's file system.
    MeasureFs,
    /// Create the disk image, of the size measured.
    CreateDisk,
    /// Write the mount information.
    WriteMountInfo,
    /// Plug the disk image into the virtual machine.
    PlugDevice,
    /// Prepare the block device as a volume.
    HandleVolume,
}

impl EmptyDirStep {
    /// What is said when the step fails.
    pub open spec fn text(&self) -> Seq<char> {
        match self {
            EmptyDirStep::StatDir => "stat emptyDir"@,
            EmptyDirStep::LookUpMount => "look up emptyDir"@,
            EmptyDirStep::MeasureFs => "statfs"@,
            EmptyDirStep::CreateDisk => "create sparse disk"@,
            EmptyDirStep::WriteMountInfo => "write direct-volume mountInfo.json"@,
            EmptyDirStep::PlugDevice => "plug block emptyDir block device"@,
            EmptyDirStep::HandleVolume => "handle block emptyDir block volume"@,
        }
    }

    /// What is said when the step fails.
    pub fn message(&self) -> (r: &'static str)
        ensures
            r@ == self.text(),
    {
        match self {
            EmptyDirStep::StatDir => "stat emptyDir",
            EmptyDirStep::LookUpMount => "look up emptyDir",
            EmptyDirStep::MeasureFs => "statfs",
            EmptyDirStep::CreateDisk => "create sparse disk",
            EmptyDirStep::WriteMountInfo => "write direct-volume mountInfo.json",
            EmptyDirStep::PlugDevice => "plug block emptyDir block device",
            EmptyDirStep::HandleVolume => "handle block emptyDir block volume",
        }
    }
}

/// How a step went.
#[derive(Clone, Copy, Debug, PartialEq, Eq, Structural)]
pub enum EmptyDirEvent {
    /// It worked.
    Done,
    /// The directory was looked up; the flag says whether it is recorded as mounted.
    Mounted(bool),
    /// It failed.
    Failed,
}

/// What comes after a step: the next one, nothing once the volume can be put together, or the
/// failure of this one. A disk is made only for a directory that is not recorded as mounted; a
/// later container uses the disk that is there.
pub open spec fn after_step(
    step: EmptyDirStep,
    event: EmptyDirEvent,
) -> Result<Option<EmptyDirStep>, EmptyDirStep> {
    if event == EmptyDirEvent::Failed {
        Err(step)
    } else {
        match step {
            EmptyDirStep::StatDir => Ok(Some(EmptyDirStep::LookUpMount)),
            EmptyDirStep::LookUpMount => if event == EmptyDirEvent::Mounted(true) {
                Ok(Some(EmptyDirStep::PlugDevice))
            } else {
                Ok(Some(EmptyDirStep::MeasureFs))
            },
            EmptyDirStep::MeasureFs => Ok(Some(EmptyDirStep::CreateDisk)),
            EmptyDirStep::CreateDisk => Ok(Some(EmptyDirStep::WriteMountInfo)),
            EmptyDirStep::WriteMountInfo => Ok(Some(EmptyDirStep::PlugDevice)),
            EmptyDirStep::PlugDevice => Ok(Some(EmptyDirStep::HandleVolume)),
            EmptyDirStep::HandleVolume => Ok(None),
        }
    }
}

/// What comes after a step of making a block `emptyDir` volume.
pub fn next_step(
    step: EmptyDirStep,
    event: EmptyDirEvent,
) -> (r: Result<Option<EmptyDirStep>, EmptyDirStep>)
    ensures
        r == after_step(step, event),
{
    match event {
        EmptyDirEvent::Failed => {
            return Err(step);
        },
        _ => {},
    }
    match step {
        EmptyDirStep::StatDir => Ok(Some(EmptyDirStep::LookUpMount)),
        EmptyDirStep::LookUpMount => match event {
            EmptyDirEvent::Mounted(true) => Ok(Some(EmptyDirStep::PlugDevice)),
            _ => Ok(Some(EmptyDirStep::MeasureFs)),
        },
        EmptyDirStep::MeasureFs => Ok(Some(EmptyDirStep::CreateDisk)),
        EmptyDirStep::CreateDisk => Ok(Some(EmptyDirStep::WriteMountInfo)),
        EmptyDirStep::WriteMountInfo => Ok(Some(EmptyDirStep::PlugDevice)),
        EmptyDirStep::PlugDevice => Ok(Some(EmptyDirStep::HandleVolume)),
        EmptyDirStep::HandleVolume => Ok(None),
    }
}

/// Mount information of a volume that is assigned to the guest directly.
#[derive(Debug)]
pub struct DirectVolumeMountInfo {
    /// The type of the volume.
    pub volume_type: String,
    /// The device.
    pub device: String,
    /// The type of the file system.
    pub fs_type: String,
    /// Further entries; no key occurs twice.
    pub metadata: Vec<(String, String)>,
    /// Mount options.
    pub options: Vec<String>,
}

/// The contents of a [`DirectVolumeMountInfo`].
#[verifier::ext_equal]
pub struct DirectVolumeMountInfoView {
    /// The type of the volume.
    pub volume_type: Seq<char>,
    /// The device.
    pub device: Seq<char>,
    /// The type of the file system.
    pub fs_type: Seq<char>,
    /// Further entries.
    pub metadata: Seq<(Seq<char>, Seq<char>)>,
    /// Mount options.
    pub options: Seq<Seq<char>>,
}

impl View for DirectVolumeMountInfo {
    type V = DirectVolumeMountInfoView;

    open spec fn view(&self) -> DirectVolumeMountInfoView {
        DirectVolumeMountInfoView {
            volume_type: self.volume_type@,
            device: self.device@,
            fs_type: self.fs_type@,
            metadata: self.metadata@.map_values(|e: (String, String)| (e.0@, e.1@)),
            options: texts(self.options@),
        }
    }
}

/// The mount information for a disk: the key or the file system, and the owning group unless it
/// is root's.
pub open spec fn mount_info_for(
    disk_path: Seq<char>,
    encrypted: bool,
    discard_unmap: bool,
    dir_gid: u32,
) -> DirectVolumeMountInfoView {
    let first = if encrypted {
        (METADATA_ENCRYPTION_KEY@, ENCRYPTION_KEY_VALUE@)
    } else {
        (METADATA_FILESYSTEM_TYPE@, FS_TYPE_EXT4@)
    };
    DirectVolumeMountInfoView {
        volume_type: VOLUME_TYPE_BLK@,
        device: disk_path,
        fs_type: FS_TYPE_EXT4@,
        metadata: if dir_gid != 0 {
            seq![first, (METADATA_FS_GROUP@, decimal(dir_gid as nat))]
        } else {
            seq![first]
        },
        options: if discard_unmap {
            seq![DISCARD_MOUNT_OPTION@]
        } else {
            Seq::empty()
        },
    }
}

/// How the hypervisor is configured to attach block devices.
#[derive(Debug)]
pub struct BlockDeviceInfo {
    /// The driver.
    pub block_device_driver: String,
    /// The name of the asynchronous I/O engine.
    pub block_device_aio: String,
    /// The number of queues.
    pub num_queues: usize,
    /// The size of a queue.
    pub queue_size: u32,
    /// The logical sector size.
    pub block_device_logical_sector_size: u32,
    /// The physical sector size.
    pub block_device_physical_sector_size: u32,
}

/// The configuration of one block device; what is not listed takes its default.
#[derive(Debug)]
pub struct BlockConfigModern {
    /// The file or device on the host.
    pub path_on_host: String,
    /// The driver.
    pub driver_option: String,
    /// The name of the asynchronous I/O engine.
    pub blkdev_aio: String,
    /// The number of queues.
    pub num_queues: usize,
    /// The size of a queue.
    pub queue_size: u32,
    /// The logical sector size.
    pub logical_sector_size: u32,
    /// The physical sector size.
    pub physical_sector_size: u32,
    /// Whether discarded blocks are passed on to the host.
    pub discard_unmap: bool,
}

/// What plugging a block device in and preparing it as a volume gives.
#[derive(Debug)]
pub struct HandledVolume {
    /// The storage for the agent.
    pub storage: Storage,
    /// The mount for the container.
    pub mount: Mount,
    /// The device.
    pub device_id: String,
}

/// Where the guest mounts the block device `source`.
pub open spec fn guest_mount_point(source: Seq<char>) -> Seq<char> {
    DEFAULT_KATA_GUEST_SANDBOX_DIR@ + "/storage/"@ + base64url(encode_utf8(source))
}

/// The storage for the agent, made from the one that `source`'s block device came with.
pub open spec fn emptydir_storage(
    storage: StorageView,
    encrypted: bool,
    dir_gid: u32,
    fs_type_key: Seq<char>,
) -> StorageView {
    StorageView {
        driver_options: storage.driver_options.push(
            if encrypted {
                ENCRYPTION_KEY_DRIVER_OPTION@ + "="@ + ENCRYPTION_KEY_VALUE@
            } else {
                fs_type_key + "=ext4"@
            },
        ),
        options: if encrypted {
            storage.options
        } else {
            storage.options.push(DISCARD_MOUNT_OPTION@)
        },
        shared: true,
        mount_point: guest_mount_point(storage.source),
        fs_group: if dir_gid != 0 {
            Some(
                FSGroup { group_id: dir_gid, group_change_policy: FSGroupChangePolicy::Always },
            )
        } else {
            storage.fs_group
        },
        ..storage
    }
}

/// The container's mount: a bind mount of the place where the guest has the volume.
pub open spec fn emptydir_mount(mount: MountView, storage_source: Seq<char>) -> MountView {
    MountView {
        typ: Some(KATA_MOUNT_BIND_TYPE@),
        source: Some(guest_mount_point(storage_source)),
        source_utf8: true,
        ..mount
    }
}

/// An `emptyDir` volume on a block device.
#[derive(Debug)]
pub struct BlockEmptyDirVolume {
    storage: Option<Storage>,
    mount: Mount,
    device_id: String,
    disk_info: EphemeralDiskInfo,
}

impl BlockEmptyDirVolume {
    /// The storage for the agent.
    pub closed spec fn storage_view(&self) -> Option<StorageView> {
        match self.storage {
            Some(s) => Some(s@),
            None => None,
        }
    }

    /// The mount for the container.
    pub closed spec fn mount_view(&self) -> MountView {
        self.mount@
    }

    /// The device.
    pub closed spec fn device_view(&self) -> Seq<char> {
        self.device_id@
    }

    /// The disk on the host.
    pub closed spec fn disk_view(&self) -> EphemeralDiskInfo {
        self.disk_info
    }

    /// Puts the volume together, once its block device has been handled.
    ///
    /// The mount stays a bind mount, since the agent's policy expects one. The agent mounts the
    /// device below the sandbox's storage directory, at the encoded name of the device. The group
    /// of the directory is handed on unless it is root's. `fs_type_key` is the driver option that
    /// names the file system of a block volume.
    pub fn new(
        request: EmptyDirRequest,
        dir_gid: u32,
        handled: HandledVolume,
        fs_type_key: &str,
    ) -> (r: BlockEmptyDirVolume)
        requires
            encodable(encode_utf8(handled.storage.source@).len()),
        ensures
            r.storage_view() == Some(
                emptydir_storage(handled.storage@, request.encrypted, dir_gid, fs_type_key@),
            ),
            r.mount_view() == emptydir_mount(handled.mount@, handled.storage@.source),
            r.device_view() == handled.device_id@,
            r.disk_view() == request.disk_info,
    {
        let HandledVolume { storage, mount, device_id } = handled;
        let mut storage = storage;
        let mut mount = mount;
        let ghost given = storage;
        mount.typ = Some(KATA_MOUNT_BIND_TYPE.to_owned());
        if request.encrypted {
            let option = concat3(ENCRYPTION_KEY_DRIVER_OPTION, "=", ENCRYPTION_KEY_VALUE);
            proof {
                lemma_texts_push(storage.driver_options@, option);
            }
            storage.driver_options.push(option);
        } else {
            let option = concat2(fs_type_key, "=ext4");
            let discard = DISCARD_MOUNT_OPTION.to_owned();
            proof {
                lemma_texts_push(storage.driver_options@, option);
                lemma_texts_push(storage.options@, discard);
            }
            storage.driver_options.push(option);
            storage.options.push(discard);
        }
        storage.shared = true;
        let b64_source = url_safe_encode(storage.source.as_str().as_bytes());
        let agent_mount_point = concat3(
            DEFAULT_KATA_GUEST_SANDBOX_DIR,
            "/storage/",
            b64_source.as_str(),
        );
        storage.mount_point = agent_mount_point.clone();
        mount.source = Some(SourcePath { text: agent_mount_point, utf8: true });
        if dir_gid != 0 {
            storage.fs_group = Some(
                FSGroup { group_id: dir_gid, group_change_policy: FSGroupChangePolicy::Always },
            );
        }
        let r = BlockEmptyDirVolume {
            storage: Some(storage),
            mount,
            device_id,
            disk_info: request.disk_info,
        };
        proof {
            let want = emptydir_storage(given@, request.encrypted, dir_gid, fs_type_key@);
            assert(r.storage_view()->0 =~= want);
        }
        r
    }

    /// The mounts of the volume: the one for the container.
    pub fn get_volume_mount(&self) -> (r: Vec<Mount>)
        ensures
            r@.len() == 1,
            r@[0]@ == self.mount_view(),
    {
        vec![self.mount.clone()]
    }

    /// The storages of the volume: the one for the agent, if there is one.
    pub fn get_storage(&self) -> (r: Vec<Storage>)
        ensures
            match self.storage_view() {
                Some(s) => r@.len() == 1 && r@[0]@ == s,
                None => r@.len() == 0,
            },
    {
        match &self.storage {
            Some(s) => vec![s.clone()],
            None => Vec::new(),
        }
    }

    /// The device of the volume.
    pub fn get_device_id(&self) -> (r: Option<String>)
        ensures
            r matches Some(id) && id@ == self.device_view(),
    {
        Some(self.device_id.clone())
    }

    /// The disk on the host, for the clean-up of the sandbox.
    pub fn disk_info(&self) -> (r: &EphemeralDiskInfo)
        ensures
            *r == self.disk_view(),
    {
        &self.disk_info
    }
}

/// Whether a mount becomes a block `emptyDir` volume: the mode says so, and it is a bind mount of
/// an `emptyDir` on the host. The kubelet presents every `emptyDir` as a bind mount.
pub fn is_block_emptydir_volume(
    m: &Mount,
    facts: &PathFacts,
    emptydir_mode: &str,
    names: &EmptyDirNames,
) -> (r: bool)
    ensures
        r == (block_mode(emptydir_mode@, *names) && m@.typ == Some(KATA_MOUNT_BIND_TYPE@)
            && m@.source is Some && host_empty_dir(*facts)),
{
    if !is_block_mode(emptydir_mode, names) {
        return false;
    }
    match &m.typ {
        Some(typ) => {
            if !str_eq(typ.as_str(), KATA_MOUNT_BIND_TYPE) {
                return false;
            }
        },
        None => {
            return false;
        },
    }
    match &m.source {
        Some(_) => is_host_empty_dir(facts),
        None => false,
    }
}

/// The size of a file system in bytes, from its number of blocks and their size. It fails where
/// the size is zero.
pub fn get_filesystem_capacity(blocks: u64, block_size: u64) -> (r: Result<u64, VolumeError>)
    requires
        blocks * block_size <= u64::MAX,
    ensures
        blocks * block_size != 0 ==> r == Ok::<u64, VolumeError>((blocks * block_size) as u64),
        blocks * block_size == 0 ==> r == Err::<u64, VolumeError>(VolumeError::ZeroCapacity),
{
    let total: u64 = blocks * block_size;
    if total == 0 {
        return Err(VolumeError::ZeroCapacity);
    }
    Ok(total)
}

/// Different block devices are mounted at different places in the guest.
pub proof fn law_mount_points_differ(a: Seq<char>, b: Seq<char>)
    requires
        a != b,
    ensures
        guest_mount_point(a) != guest_mount_point(b),
{
    let prefix = DEFAULT_KATA_GUEST_SANDBOX_DIR@ + "/storage/"@;
    if guest_mount_point(a) == guest_mount_point(b) {
        assert(guest_mount_point(a).skip(prefix.len() as int) =~= base64url(encode_utf8(a)));
        assert(guest_mount_point(b).skip(prefix.len() as int) =~= base64url(encode_utf8(b)));
        law_base64url_injective(encode_utf8(a), encode_utf8(b));
        lemma_utf8_injective(a, b);
    }
}

/// The agent mounts the device where the container's bind mount takes it from.
pub proof fn law_mount_meets_storage(
    storage: StorageView,
    mount: MountView,
    encrypted: bool,
    dir_gid: u32,
    fs_type_key: Seq<char>,
)
    ensures
        emptydir_mount(mount, storage.source).source == Some(
            emptydir_storage(storage, encrypted, dir_gid, fs_type_key).mount_point,
        ),
{
}

/// Where the directory is recorded as mounted, the next step plugs the disk that is there, and no
/// step on the way to the volume creates one or writes its information again.
pub proof fn law_mounted_dir_keeps_disk(step: EmptyDirStep, event: EmptyDirEvent)
    ensures
        after_step(EmptyDirStep::LookUpMount, EmptyDirEvent::Mounted(true)) == Ok::<
            Option<EmptyDirStep>,
            EmptyDirStep,
        >(Some(EmptyDirStep::PlugDevice)),
        after_step(step, event) == Ok::<Option<EmptyDirStep>, EmptyDirStep>(
            Some(EmptyDirStep::CreateDisk),
        ) ==> step == EmptyDirStep::MeasureFs,
        after_step(step, event) == Ok::<Option<EmptyDirStep>, EmptyDirStep>(
            Some(EmptyDirStep::MeasureFs),
        ) ==> step == EmptyDirStep::LookUpMount && event != EmptyDirEvent::Mounted(true),
        after_step(step, event) == Ok::<Option<EmptyDirStep>, EmptyDirStep>(
            Some(EmptyDirStep::WriteMountInfo),
        ) ==> step == EmptyDirStep::CreateDisk,
{
}

/// The place of a step among all steps.
pub open spec fn place(step: EmptyDirStep) -> nat {
    match step {
        EmptyDirStep::StatDir => 0,
        EmptyDirStep::LookUpMount => 1,
        EmptyDirStep::MeasureFs => 2,
        EmptyDirStep::CreateDisk => 3,
        EmptyDirStep::WriteMountInfo => 4,
        EmptyDirStep::PlugDevice => 5,
        EmptyDirStep::HandleVolume => 6,
    }
}

/// Every step leads to a later one, so that making a volume ends.
pub proof fn law_steps_advance(step: EmptyDirStep, event: EmptyDirEvent)
    ensures
        after_step(step, event) matches Ok(Some(next)) ==> place(step) < place(next),
{
}

/// The group of the directory is handed on for every volume, encrypted or plain, unless it is
/// root's: files always get it. Root's group changes nothing.
pub proof fn law_group_is_handed_on(
    request: EmptyDirRequest,
    dir_gid: u32,
    handled: HandledVolume,
    fs_type_key: &str,
    volume: BlockEmptyDirVolume,
    storages: Vec<Storage>,
)
    requires
        encodable(encode_utf8(handled.storage.source@).len()),
        call_ensures(
            BlockEmptyDirVolume::new,
            (request, dir_gid, handled, fs_type_key),
            volume,
        ),
        call_ensures(BlockEmptyDirVolume::get_storage, (&volume,), storages),
    ensures
        storages@.len() == 1,
        dir_gid != 0 ==> (storages@[0].fs_group matches Some(group) && group.group_id == dir_gid
            && group.group_change_policy == FSGroupChangePolicy::Always),
        dir_gid == 0 ==> storages@[0].fs_group == handled.storage.fs_group,
{
    assert(storages@[0]@.fs_group == storages@[0].fs_group);
}

/// The mode has no influence on the group: what is asked for and for which directory makes no
/// difference to it.
pub proof fn law_mode_leaves_group(
    one: EmptyDirRequest,
    other: EmptyDirRequest,
    dir_gid: u32,
    handled: HandledVolume,
    fs_type_key: &str,
    v1: BlockEmptyDirVolume,
    v2: BlockEmptyDirVolume,
)
    requires
        encodable(encode_utf8(handled.storage.source@).len()),
        call_ensures(BlockEmptyDirVolume::new, (one, dir_gid, handled, fs_type_key), v1),
        call_ensures(BlockEmptyDirVolume::new, (other, dir_gid, handled, fs_type_key), v2),
    ensures
        v1.storage_view() matches Some(s1) && (v2.storage_view() matches Some(s2) && s1.fs_group
            == s2.fs_group && s1.mount_point == s2.mount_point && s1.shared && s2.shared),
        v1.mount_view() == v2.mount_view(),
        v1.device_view() == v2.device_view(),
{
}

/// The agent gets the storage of the block device with one driver option more: the key of an
/// encrypted disk, or the file system of a plain one. Only a plain disk gets a mount option more,
/// which passes discarded blocks on. The storage is shared, and the rest of it stays.
pub proof fn law_storage_follows_mode(
    request: EmptyDirRequest,
    dir_gid: u32,
    handled: HandledVolume,
    fs_type_key: &str,
    volume: BlockEmptyDirVolume,
    storages: Vec<Storage>,
)
    requires
        encodable(encode_utf8(handled.storage.source@).len()),
        call_ensures(
            BlockEmptyDirVolume::new,
            (request, dir_gid, handled, fs_type_key),
            volume,
        ),
        call_ensures(BlockEmptyDirVolume::get_storage, (&volume,), storages),
    ensures
        storages@.len() == 1,
        ({
            let given = handled.storage;
            let s = storages@[0];
            &&& texts(s.driver_options@).len() == texts(given.driver_options@).len() + 1
            &&& texts(s.driver_options@).drop_last() == texts(given.driver_options@)
            &&& request.encrypted ==> texts(s.driver_options@).last()
                == "encryption_key=ephemeral"@
            &&& !request.encrypted ==> texts(s.driver_options@).last() == fs_type_key@ + "=ext4"@
            &&& request.encrypted ==> texts(s.options@) == texts(given.options@)
            &&& !request.encrypted ==> texts(s.options@) == texts(given.options@).push("discard"@)
            &&& s.shared
            &&& s.driver@ == given.driver@
            &&& s.source@ == given.source@
            &&& s.fs_type@ == given.fs_type@
            &&& s.mount_point@ == "/run/kata-containers/sandbox/storage/"@ + base64url(
                encode_utf8(given.source@),
            )
        }),
{
    reveal_strlit("encryption_key");
    reveal_strlit("=");
    reveal_strlit("ephemeral");
    reveal_strlit("encryption_key=ephemeral");
    reveal_strlit("/run/kata-containers/sandbox");
    reveal_strlit("/storage/");
    reveal_strlit("/run/kata-containers/sandbox/storage/");
    assert("encryption_key"@ + "="@ + "ephemeral"@ =~= "encryption_key=ephemeral"@);
    assert("/run/kata-containers/sandbox"@ + "/storage/"@
        =~= "/run/kata-containers/sandbox/storage/"@);
    let given = handled.storage@.driver_options;
    let s = storages@[0]@;
    assert(s.driver_options.drop_last() =~= given);
}

/// The container gets one mount: a bind mount of where the agent mounts the device, at the place
/// and with the options that it had. The device and the disk on the host are those that were given.
pub proof fn law_container_gets_bind_mount(
    request: EmptyDirRequest,
    dir_gid: u32,
    handled: HandledVolume,
    fs_type_key: &str,
    volume: BlockEmptyDirVolume,
    storages: Vec<Storage>,
    mounts: Vec<Mount>,
    device: Option<String>,
    disk: &EphemeralDiskInfo,
)
    requires
        encodable(encode_utf8(handled.storage.source@).len()),
        call_ensures(
            BlockEmptyDirVolume::new,
            (request, dir_gid, handled, fs_type_key),
            volume,
        ),
        call_ensures(BlockEmptyDirVolume::get_storage, (&volume,), storages),
        call_ensures(BlockEmptyDirVolume::get_volume_mount, (&volume,), mounts),
        call_ensures(BlockEmptyDirVolume::get_device_id, (&volume,), device),
        call_ensures(BlockEmptyDirVolume::disk_info, (&volume,), disk),
    ensures
        mounts@.len() == 1,
        storages@.len() == 1,
        ({
            let m = mounts@[0];
            &&& m.typ matches Some(t) && t@ == "bind"@
            &&& m.source matches Some(p) && p.utf8 && p.text@ == storages@[0].mount_point@
            &&& m.destination@ == handled.mount.destination@
            &&& texts(m.options@) == texts(handled.mount.options@)
        }),
        device matches Some(id) && id@ == handled.device_id@,
        *disk == request.disk_info,
{
    let m = mounts@[0];
    assert(m@.typ == crate::mount::text_of(m.typ));
    assert(storages@[0]@.mount_point == storages@[0].mount_point@);
}

/// A mount without a source is refused. From any other, the request is for a disk image of the
/// fixed name inside the source; the mode alone says whether it is encrypted and whether discarded
/// blocks are passed on.
pub proof fn law_request_follows_mount(
    m: Mount,
    emptydir_mode: &str,
    names: EmptyDirNames,
    r: Result<EmptyDirRequest, VolumeError>,
)
    requires
        call_ensures(EmptyDirRequest::new, (&m, emptydir_mode, &names), r),
    ensures
        r is Ok <==> m.source is Some,
        r matches Err(e) ==> e == VolumeError::NoSource,
        r matches Ok(request) ==> {
            &&& request.encrypted <==> emptydir_mode@ == names.block_encrypted@
            &&& request.discard_unmap <==> emptydir_mode@ == names.block_plain@
            &&& m.source matches Some(p) && request.disk_info.source_path@ == p.text@
                && request.disk_info.disk_path@ == path_join(p.text@, "disk.img"@)
        },
{
}

/// What is written for a new disk names the disk image, as a block device with `ext4`. An encrypted
/// disk has its key, a plain one its file system, and either has the group of the directory unless
/// that is root's. Discarded blocks are passed on if and only if the request says so.
pub proof fn law_mount_info_follows_request(
    request: EmptyDirRequest,
    dir_gid: u32,
    r: DirectVolumeMountInfo,
)
    requires
        call_ensures(EmptyDirRequest::mount_info, (&request, dir_gid), r),
    ensures
        r.volume_type@ == "blk"@,
        r.fs_type@ == "ext4"@,
        r.device@ == request.disk_info.disk_path@,
        r.metadata@.len() == (if dir_gid != 0 {
            2int
        } else {
            1
        }),
        request.encrypted ==> r.metadata@[0].0@ == "encryptionKey"@ && r.metadata@[0].1@
            == "ephemeral"@,
        !request.encrypted ==> r.metadata@[0].0@ == "filesystemType"@ && r.metadata@[0].1@
            == "ext4"@,
        dir_gid != 0 ==> r.metadata@[1].0@ == "fsGroup"@ && r.metadata@[1].1@ == decimal(
            dir_gid as nat,
        ),
        r.options@.len() == (if request.discard_unmap {
            1int
        } else {
            0
        }),
        request.discard_unmap ==> r.options@[0]@ == "discard"@,
{
    let entries = r@.metadata;
    assert(entries.len() == r.metadata@.len());
    assert(entries[0] == (r.metadata@[0].0@, r.metadata@[0].1@));
    if dir_gid != 0 {
        assert(entries[1] == (r.metadata@[1].0@, r.metadata@[1].1@));
    }
    assert(texts(r.options@).len() == r.options@.len());
    if request.discard_unmap {
        assert(texts(r.options@)[0] == r.options@[0]@);
    }
}

/// The disk image is plugged in as the hypervisor is configured to attach block devices, and
/// discarded blocks are passed on if and only if the request says so.
pub proof fn law_disk_is_plugged_as_configured(
    request: EmptyDirRequest,
    info: BlockDeviceInfo,
    r: BlockConfigModern,
)
    requires
        call_ensures(EmptyDirRequest::block_config, (&request, info), r),
    ensures
        r.path_on_host@ == request.disk_info.disk_path@,
        r.discard_unmap == request.discard_unmap,
        r.driver_option@ == info.block_device_driver@,
        r.blkdev_aio@ == info.block_device_aio@,
        r.num_queues == info.num_queues,
        r.queue_size == info.queue_size,
        r.logical_sector_size == info.block_device_logical_sector_size,
        r.physical_sector_size == info.block_device_physical_sector_size,
{
}

/// A mount becomes a block volume if and only if the mode is one of the block modes and it is a
/// bind mount of an `emptyDir` on the host's storage. No ephemeral volume becomes one.
pub proof fn law_block_volume_told(
    m: Mount,
    facts: PathFacts,
    emptydir_mode: &str,
    names: EmptyDirNames,
    r: bool,
)
    requires
        call_ensures(is_block_emptydir_volume, (&m, &facts, emptydir_mode, &names), r),
    ensures
        r <==> {
            &&& emptydir_mode@ == names.block_encrypted@ || emptydir_mode@ == names.block_plain@
            &&& m.typ matches Some(t) && t@ == "bind"@
            &&& m.source is Some
            &&& facts.empty_dir
            &&& !(facts.lookup is Failed)
            &&& !(facts.lookup matches crate::mount::MountLookup::Found(fs) && fs@ == "tmpfs"@)
        },
        r ==> !crate::k8s::ephemeral_volume(m@, facts),
{
}

/// The size of a file system is the bytes of all its blocks, and a file system without blocks or
/// whose blocks have no size is refused.
pub proof fn law_capacity_is_all_blocks(blocks: u64, block_size: u64, r: Result<u64, VolumeError>)
    requires
        blocks * block_size <= u64::MAX,
        call_ensures(get_filesystem_capacity, (blocks, block_size), r),
    ensures
        r is Ok <==> blocks > 0 && block_size > 0,
        r matches Ok(bytes) ==> bytes == blocks * block_size,
        r matches Err(e) ==> e == VolumeError::ZeroCapacity,
{
    assert(blocks > 0 && block_size > 0 <==> blocks * block_size != 0) by (nonlinear_arith);
}

/// Making a volume goes from the directory's group through the mount table to the block device and
/// the volume. A new disk is measured, created and recorded on the way. The first step that fails
/// ends the work with its failure.
pub proof fn law_volume_steps_in_order(
    step: EmptyDirStep,
    event: EmptyDirEvent,
    r: Result<Option<EmptyDirStep>, EmptyDirStep>,
)
    requires
        call_ensures(next_step, (step, event), r),
    ensures
        event is Failed <==> r is Err,
        r matches Err(failed) ==> failed == step,
        r matches Ok(next) ==> {
            &&& step == EmptyDirStep::StatDir <==> next == Some(EmptyDirStep::LookUpMount)
            &&& step == EmptyDirStep::LookUpMount && event != EmptyDirEvent::Mounted(true)
                <==> next == Some(EmptyDirStep::MeasureFs)
            &&& step == EmptyDirStep::MeasureFs <==> next == Some(EmptyDirStep::CreateDisk)
            &&& step == EmptyDirStep::CreateDisk <==> next == Some(EmptyDirStep::WriteMountInfo)
            &&& step == EmptyDirStep::WriteMountInfo || (step == EmptyDirStep::LookUpMount && event
                == EmptyDirEvent::Mounted(true)) <==> next == Some(EmptyDirStep::PlugDevice)
            &&& step == EmptyDirStep::PlugDevice <==> next == Some(EmptyDirStep::HandleVolume)
            &&& step == EmptyDirStep::HandleVolume <==> next is None
        },
{
}

/// Every [`VolumeError`] is told in its own words.
pub proof fn law_volume_error_in_words(e: VolumeError, r: String)
    requires
        call_ensures(VolumeError::message, (&e,), r),
    ensures
        e is NoSource ==> r@ == "block emptyDir mount has no source"@,
        e is ZeroCapacity ==> r@ == "filesystem reports zero capacity"@,
{
}

/// Every [`EmptyDirStep`] is told in its own words.
pub proof fn law_empty_dir_step_in_words(e: EmptyDirStep, r: &'static str)
    requires
        call_ensures(EmptyDirStep::message, (&e,), r),
    ensures
        e is StatDir ==> r@ == "stat emptyDir"@,
        e is LookUpMount ==> r@ == "look up emptyDir"@,
        e is MeasureFs ==> r@ == "statfs"@,
        e is CreateDisk ==> r@ == "create sparse disk"@,
        e is WriteMountInfo ==> r@ == "write direct-volume mountInfo.json"@,
        e is PlugDevice ==> r@ == "plug block emptyDir block device"@,
        e is HandleVolume ==> r@ == "handle block emptyDir block volume"@,
{
}

} // verus!
