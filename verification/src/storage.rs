//! Storage handlers of the agent: what is done in the guest to set a storage up.

use vstd::prelude::*;
use vstd::string::*;

use crate::agent::{empty_storage, Storage, StorageView};
use crate::path::{join_path, path_join};
use crate::text::{
    after_prefix, concat2, lemma_texts_push, str_eq, strip_prefix_str, texts,
};

verus! {

broadcast use vstd::string::group_string_axioms;

/// The driver option for the mount point of the block device behind an overlay.
pub const KATA_OVERLAY_BLK_POINT: &'static str =
    "io.katacontainers.rootfs.overlayfs.mount_blk_point";

/// The driver option for the block device behind an overlay.
pub const KATA_OVERLAY_BLK_SOURCE: &'static str =
    "io.katacontainers.rootfs.overlayfs.mount_blk_src";

/// The mount option that asks for a writable overlay.
pub const OVERLAY_RW_OPTION: &'static str = "io.katacontainers.fs-opt.overlay-rw";

/// The directory of overlays below the agent's directory for containers, and their file system
/// type.
pub const KATA_OVERLAY: &'static str = "overlay";

/// The file system of a block device behind an overlay.
pub const FS_TYPE_EXT4: &'static str = "ext4";

/// Why a directory is created.
#[derive(Clone, Copy, Debug, PartialEq, Eq, Structural)]
pub enum DirPurpose {
    /// The overlay's work directory.
    Work,
    /// The overlay's upper directory.
    Upper,
    /// The place where the overlay is mounted.
    Merged,
    /// A directory that a driver option asks for.
    Requested,
}

impl DirPurpose {
    /// What is said when the directory cannot be created.
    pub open spec fn text(&self) -> Seq<char> {
        match self {
            DirPurpose::Work => "Creating overlay work directory"@,
            DirPurpose::Upper => "Creating overlay upper directory"@,
            DirPurpose::Merged => "Creating overlay merged directory"@,
            DirPurpose::Requested => "Failed to create directory"@,
        }
    }

    /// What is said when the directory cannot be created.
    pub fn message(&self) -> (r: &'static str)
        ensures
            r@ == self.text(),
    {
        match self {
            DirPurpose::Work => "Creating overlay work directory",
            DirPurpose::Upper => "Creating overlay upper directory",
            DirPurpose::Merged => "Creating overlay merged directory",
            DirPurpose::Requested => "Failed to create directory",
        }
    }
}

/// A step on the guest's file system.
#[derive(Debug)]
pub enum StorageAction {
    /// Mount a storage.
    MountStorage(Storage),
    /// Create a directory and its parents.
    CreateDir(String, DirPurpose),
}

/// The contents of a [`StorageAction`].
pub enum ActionView {
    /// Mount a storage.
    MountStorage(StorageView),
    /// Create a directory and its parents.
    CreateDir(Seq<char>, DirPurpose),
}

impl View for StorageAction {
    type V = ActionView;

    open spec fn view(&self) -> ActionView {
        match self {
            StorageAction::MountStorage(s) => ActionView::MountStorage(s@),
            StorageAction::CreateDir(path, purpose) => ActionView::CreateDir(path@, *purpose),
        }
    }
}

/// The contents of a list of steps.
pub open spec fn actions_view(list: Seq<StorageAction>) -> Seq<ActionView> {
    list.map_values(|a: StorageAction| a@)
}

/// Why a storage cannot be set up.
#[derive(Clone, Copy, Debug, PartialEq, Eq, Structural)]
pub enum StorageError {
    /// A writable overlay belongs to a container, and none is named.
    NoContainerId,
}

impl StorageError {
    /// The error in words.
    pub open spec fn text(&self) -> Seq<char> {
        match self {
            StorageError::NoContainerId => "No container id in rw overlay"@,
        }
    }

    /// The error in words.
    pub fn message(&self) -> (r: &'static str)
        ensures
            r@ == self.text(),
    {
        match self {
            StorageError::NoContainerId => "No container id in rw overlay",
        }
    }
}

/// How a storage is set up: the steps, in order, and then the storage to mount, or why the set-up
/// stops after the steps.
#[derive(Debug)]
pub struct DevicePlan {
    /// The steps before the mount; the first that fails ends the set-up.
    pub actions: Vec<StorageAction>,
    /// The storage whose mount gives the device.
    pub outcome: Result<Storage, StorageError>,
}

/// A mount of the block device `source` at `point`.
pub open spec fn block_mount(source: Seq<char>, point: Seq<char>) -> ActionView {
    ActionView::MountStorage(
        StorageView { source, mount_point: point, fs_type: FS_TYPE_EXT4@, ..empty_storage() },
    )
}

/// `key` and the sign that parts it from its value.
pub open spec fn option_prefix(key: Seq<char>) -> Seq<char> {
    key + "="@
}

/// The mounts at `point` of every block device that the options name.
pub open spec fn mounts_at(point: Seq<char>, options: Seq<Seq<char>>) -> Seq<ActionView>
    decreases options.len(),
{
    if options.len() == 0 {
        Seq::empty()
    } else {
        let done = mounts_at(point, options.drop_last());
        match after_prefix(options.last(), option_prefix(KATA_OVERLAY_BLK_SOURCE@)) {
            Some(source) => done.push(block_mount(source, point)),
            None => done,
        }
    }
}

/// The mounts of block devices: every device of `all` at every mount point of `points`.
pub open spec fn block_mounts(points: Seq<Seq<char>>, all: Seq<Seq<char>>) -> Seq<ActionView>
    decreases points.len(),
{
    if points.len() == 0 {
        Seq::empty()
    } else {
        let done = block_mounts(points.drop_last(), all);
        match after_prefix(points.last(), option_prefix(KATA_OVERLAY_BLK_POINT@)) {
            Some(point) => done + mounts_at(point, all),
            None => done,
        }
    }
}

/// The directories that the options ask for, each under `key`.
pub open spec fn requested_dirs(key: Seq<char>, options: Seq<Seq<char>>) -> Seq<ActionView>
    decreases options.len(),
{
    if options.len() == 0 {
        Seq::empty()
    } else {
        let done = requested_dirs(key, options.drop_last());
        match after_prefix(options.last(), option_prefix(key)) {
            Some(dir) => done.push(ActionView::CreateDir(dir, DirPurpose::Requested)),
            None => done,
        }
    }
}

/// The directory of a container's overlay, with the agent's containers in `base`.
pub open spec fn overlay_dir(base: Seq<char>, cid: Seq<char>) -> Seq<char> {
    path_join(path_join(base, KATA_OVERLAY@), cid)
}

/// The overlay's work directory.
pub open spec fn work_dir(base: Seq<char>, cid: Seq<char>) -> Seq<char> {
    path_join(overlay_dir(base, cid), "work"@)
}

/// The overlay's upper directory.
pub open spec fn upper_dir(base: Seq<char>, cid: Seq<char>) -> Seq<char> {
    path_join(overlay_dir(base, cid), "upper"@)
}

/// The options without the one that asks for a writable overlay.
pub open spec fn plain_options(options: Seq<Seq<char>>) -> Seq<Seq<char>>
    decreases options.len(),
{
    if options.len() == 0 {
        Seq::empty()
    } else {
        let done = plain_options(options.drop_last());
        if options.last() == OVERLAY_RW_OPTION@ {
            done
        } else {
            done.push(options.last())
        }
    }
}

/// Whether a writable overlay is asked for.
pub open spec fn wants_rw(s: StorageView) -> bool {
    s.options.contains(OVERLAY_RW_OPTION@)
}

/// The handler of overlay storages.
#[derive(Debug)]
pub struct OverlayfsHandler {
    /// The driver of overlay storages.
    pub driver: String,
    /// The agent's directory for containers.
    pub container_base: String,
    /// The driver option for a directory that is created before the overlay is mounted.
    pub create_dir_option: String,
}

/// The handler of shared file systems.
#[derive(Debug)]
pub struct VirtioFsHandler {
    /// The driver of shared file systems.
    pub driver: String,
}

/// The steps before an overlay storage is mounted.
pub open spec fn overlay_actions(
    h: OverlayfsHandler,
    s: StorageView,
    cid: Option<Seq<char>>,
) -> Seq<ActionView> {
    let base = h.container_base@;
    let blocks = block_mounts(s.driver_options, s.driver_options);
    let requested = requested_dirs(h.create_dir_option@, s.driver_options);
    if !wants_rw(s) {
        blocks + requested
    } else {
        match cid {
            None => blocks,
            Some(cid) => blocks + seq![
                ActionView::CreateDir(work_dir(base, cid), DirPurpose::Work),
                ActionView::CreateDir(upper_dir(base, cid), DirPurpose::Upper),
                ActionView::CreateDir(s.mount_point, DirPurpose::Merged),
            ] + requested,
        }
    }
}

/// The overlay storage as it is mounted.
pub open spec fn overlay_storage(
    h: OverlayfsHandler,
    s: StorageView,
    cid: Option<Seq<char>>,
) -> StorageView {
    let base = h.container_base@;
    if wants_rw(s) {
        StorageView {
            fs_type: KATA_OVERLAY@,
            options: plain_options(
                s.options.push("upperdir="@ + upper_dir(base, cid->0)).push(
                    "workdir="@ + work_dir(base, cid->0),
                ),
            ),
            ..s
        }
    } else {
        StorageView { options: plain_options(s.options), ..s }
    }
}

impl OverlayfsHandler {
    /// The drivers that this handler is for.
    pub fn driver_types(&self) -> (r: Vec<String>)
        ensures
            texts(r@) == seq![self.driver@],
    {
        let r = vec![self.driver.clone()];
        proof {
            assert(texts(r@) =~= seq![self.driver@]);
        }
        r
    }

    /// Plans the set-up of an overlay storage: block devices are mounted first, a writable overlay
    /// gets its work and upper directories, and the directories asked for are created.
    pub fn create_device(&self, storage: Storage, cid: &Option<String>) -> (r: DevicePlan)
        ensures
            actions_view(r.actions@) == overlay_actions(
                *self,
                storage@,
                crate::mount::text_of(*cid),
            ),
            match r.outcome {
                Ok(s) => (wants_rw(storage@) ==> *cid is Some) && s@ == overlay_storage(
                    *self,
                    storage@,
                    crate::mount::text_of(*cid),
                ),
                Err(e) => wants_rw(storage@) && *cid is None && e == StorageError::NoContainerId,
            },
    {
        let ghost given = storage@;
        let mut storage = storage;
        let mut actions = mount_blocks(&storage.driver_options);
        if has_rw_option(&storage.options) {
            match cid {
                None => {
                    return DevicePlan { actions, outcome: Err(StorageError::NoContainerId) };
                },
                Some(cid) => {
                    let base = join_path(self.container_base.as_str(), KATA_OVERLAY);
                    let dir = join_path(base.as_str(), cid.as_str());
                    let work = join_path(dir.as_str(), "work");
                    let upper = join_path(dir.as_str(), "upper");
                    let upper_option = concat2("upperdir=", upper.as_str());
                    let work_option = concat2("workdir=", work.as_str());
                    let ghost blocks = actions_view(actions@);
                    actions.push(StorageAction::CreateDir(work, DirPurpose::Work));
                    actions.push(StorageAction::CreateDir(upper, DirPurpose::Upper));
                    actions.push(
                        StorageAction::CreateDir(storage.mount_point.clone(), DirPurpose::Merged),
                    );
                    proof {
                        let base = self.container_base@;
                        assert(actions_view(actions@) =~= blocks + seq![
                            ActionView::CreateDir(work_dir(base, cid@), DirPurpose::Work),
                            ActionView::CreateDir(upper_dir(base, cid@), DirPurpose::Upper),
                            ActionView::CreateDir(given.mount_point, DirPurpose::Merged),
                        ]);
                        lemma_texts_push(storage.options@, upper_option);
                        lemma_texts_push(storage.options@.push(upper_option), work_option);
                    }
                    storage.fs_type = KATA_OVERLAY.to_owned();
                    storage.options.push(upper_option);
                    storage.options.push(work_option);
                },
            }
        }
        storage.options = drop_rw_option(&storage.options);
        let mut dirs = request_dirs(self.create_dir_option.as_str(), &storage.driver_options);
        proof {
            assert(actions_view(actions@ + dirs@) =~= actions_view(actions@) + actions_view(dirs@));
        }
        actions.append(&mut dirs);
        proof {
            assert(storage@ =~= overlay_storage(*self, given, crate::mount::text_of(*cid)));
        }
        DevicePlan { actions, outcome: Ok(storage) }
    }
}

impl VirtioFsHandler {
    /// The drivers that this handler is for.
    pub fn driver_types(&self) -> (r: Vec<String>)
        ensures
            texts(r@) == seq![self.driver@],
    {
        let r = vec![self.driver.clone()];
        proof {
            assert(texts(r@) =~= seq![self.driver@]);
        }
        r
    }

    /// Plans the set-up of a shared file system: it is mounted as it is.
    pub fn create_device(&self, storage: Storage) -> (r: DevicePlan)
        ensures
            r.actions@.len() == 0,
            r.outcome == Ok::<Storage, StorageError>(storage),
    {
        DevicePlan { actions: Vec::new(), outcome: Ok(storage) }
    }
}

/// Whether the options ask for a writable overlay.
fn has_rw_option(options: &Vec<String>) -> (r: bool)
    ensures
        r == texts(options@).contains(OVERLAY_RW_OPTION@),
{
    let mut i: usize = 0;
    while i < options.len()
        invariant
            i <= options@.len(),
            forall|k: int| 0 <= k < i ==> (#[trigger] options@[k])@ != OVERLAY_RW_OPTION@,
        decreases options@.len() - i,
    {
        if str_eq(options[i].as_str(), OVERLAY_RW_OPTION) {
            proof {
                assert(texts(options@)[i as int] == OVERLAY_RW_OPTION@);
            }
            return true;
        }
        i = i + 1;
    }
    proof {
        assert forall|k: int| 0 <= k < texts(options@).len() implies texts(options@)[k]
            != OVERLAY_RW_OPTION@ by {
            assert(options@[k]@ != OVERLAY_RW_OPTION@);
        }
    }
    false
}

/// The options without the one that asks for a writable overlay.
fn drop_rw_option(options: &Vec<String>) -> (r: Vec<String>)
    ensures
        texts(r@) == plain_options(texts(options@)),
{
    let mut r: Vec<String> = Vec::new();
    let mut i: usize = 0;
    proof {
        assert(texts(r@) =~= plain_options(texts(options@).take(0)));
    }
    while i < options.len()
        invariant
            i <= options@.len(),
            texts(r@) == plain_options(texts(options@).take(i as int)),
        decreases options@.len() - i,
    {
        proof {
            assert(texts(options@).take(i + 1).drop_last() =~= texts(options@).take(i as int));
        }
        if !str_eq(options[i].as_str(), OVERLAY_RW_OPTION) {
            proof {
                lemma_texts_push(r@, options@[i as int]);
            }
            r.push(options[i].clone());
        }
        i = i + 1;
    }
    proof {
        assert(texts(options@).take(i as int) =~= texts(options@));
    }
    r
}

/// Adds the mounts at `point` of every block device that the options name.
fn add_mounts_at(actions: &mut Vec<StorageAction>, point: &str, options: &Vec<String>)
    ensures
        actions_view(final(actions)@) == actions_view(old(actions)@) + mounts_at(
            point@,
            texts(options@),
        ),
{
    let ghost before = actions_view(actions@);
    let prefix = concat2(KATA_OVERLAY_BLK_SOURCE, "=");
    let mut i: usize = 0;
    proof {
        assert(before =~= before + mounts_at(point@, texts(options@).take(0)));
    }
    while i < options.len()
        invariant
            i <= options@.len(),
            prefix@ == option_prefix(KATA_OVERLAY_BLK_SOURCE@),
            actions_view(actions@) == before + mounts_at(
                point@,
                texts(options@).take(i as int),
            ),
        decreases options@.len() - i,
    {
        proof {
            assert(texts(options@).take(i + 1).drop_last() =~= texts(options@).take(i as int));
        }
        if let Some(source) = strip_prefix_str(options[i].as_str(), prefix.as_str()) {
            let storage = Storage {
                source: source.to_owned(),
                mount_point: point.to_owned(),
                fs_type: FS_TYPE_EXT4.to_owned(),
                ..Default::default()
            };
            let ghost now = actions@;
            proof {
                assert(storage@ =~= StorageView {
                    source: source@,
                    mount_point: point@,
                    fs_type: FS_TYPE_EXT4@,
                    ..empty_storage()
                });
            }
            actions.push(StorageAction::MountStorage(storage));
            proof {
                assert(actions_view(actions@) =~= actions_view(now).push(
                    block_mount(source@, point@),
                ));
                assert(before + mounts_at(point@, texts(options@).take(i as int)).push(
                    block_mount(source@, point@),
                ) =~= actions_view(actions@));
            }
        }
        i = i + 1;
    }
    proof {
        assert(texts(options@).take(i as int) =~= texts(options@));
    }
}

/// The mounts of the block devices that the options name.
fn mount_blocks(options: &Vec<String>) -> (actions: Vec<StorageAction>)
    ensures
        actions_view(actions@) == block_mounts(texts(options@), texts(options@)),
{
    let mut actions: Vec<StorageAction> = Vec::new();
    let prefix = concat2(KATA_OVERLAY_BLK_POINT, "=");
    let mut i: usize = 0;
    proof {
        assert(actions_view(actions@) =~= block_mounts(
            texts(options@).take(0),
            texts(options@),
        ));
    }
    while i < options.len()
        invariant
            i <= options@.len(),
            prefix@ == option_prefix(KATA_OVERLAY_BLK_POINT@),
            actions_view(actions@) == block_mounts(
                texts(options@).take(i as int),
                texts(options@),
            ),
        decreases options@.len() - i,
    {
        proof {
            assert(texts(options@).take(i + 1).drop_last() =~= texts(options@).take(i as int));
        }
        if let Some(point) = strip_prefix_str(options[i].as_str(), prefix.as_str()) {
            add_mounts_at(&mut actions, point, options);
        }
        i = i + 1;
    }
    proof {
        assert(texts(options@).take(i as int) =~= texts(options@));
    }
    actions
}

/// The directories that the options ask for, each under `key`.
fn request_dirs(key: &str, options: &Vec<String>) -> (actions: Vec<StorageAction>)
    ensures
        actions_view(actions@) == requested_dirs(key@, texts(options@)),
{
    let mut actions: Vec<StorageAction> = Vec::new();
    let prefix = concat2(key, "=");
    let mut i: usize = 0;
    proof {
        assert(actions_view(actions@) =~= requested_dirs(key@, texts(options@).take(0)));
    }
    while i < options.len()
        invariant
            i <= options@.len(),
            prefix@ == option_prefix(key@),
            actions_view(actions@) == requested_dirs(key@, texts(options@).take(i as int)),
        decreases options@.len() - i,
    {
        proof {
            assert(texts(options@).take(i + 1).drop_last() =~= texts(options@).take(i as int));
        }
        if let Some(dir) = strip_prefix_str(options[i].as_str(), prefix.as_str()) {
            let ghost now = actions@;
            actions.push(StorageAction::CreateDir(dir.to_owned(), DirPurpose::Requested));
            proof {
                assert(actions_view(actions@) =~= actions_view(now).push(
                    ActionView::CreateDir(dir@, DirPurpose::Requested),
                ));
            }
        }
        i = i + 1;
    }
    proof {
        assert(texts(options@).take(i as int) =~= texts(options@));
    }
    actions
}

/// The option that asks for a writable overlay is never handed to the mount.
pub proof fn law_rw_option_dropped(h: OverlayfsHandler, s: StorageView, cid: Option<Seq<char>>)
    ensures
        !overlay_storage(h, s, cid).options.contains(OVERLAY_RW_OPTION@),
{
    let base = h.container_base@;
    lemma_plain_options(s.options);
    lemma_plain_options(
        s.options.push("upperdir="@ + upper_dir(base, cid->0)).push(
            "workdir="@ + work_dir(base, cid->0),
        ),
    );
}

/// Plain options do not hold the one that asks for a writable overlay.
proof fn lemma_plain_options(options: Seq<Seq<char>>)
    ensures
        !plain_options(options).contains(OVERLAY_RW_OPTION@),
    decreases options.len(),
{
    if options.len() > 0 {
        lemma_plain_options(options.drop_last());
        let done = plain_options(options.drop_last());
        let now = plain_options(options);
        assert forall|i: int| 0 <= i < now.len() implies now[i] != OVERLAY_RW_OPTION@ by {
            if i < done.len() {
                assert(now[i] == done[i]);
                assert(done.contains(done[i]));
            }
        }
    }
}

/// An overlay that can be written needs a container and fails without one; nothing else fails.
pub proof fn law_rw_overlay_needs_container(
    h: OverlayfsHandler,
    storage: Storage,
    cid: Option<String>,
    r: DevicePlan,
)
    requires
        call_ensures(OverlayfsHandler::create_device, (&h, storage, &cid), r),
    ensures
        r.outcome is Err <==> texts(storage.options@).contains(
            "io.katacontainers.fs-opt.overlay-rw"@,
        ) && cid is None,
        r.outcome matches Err(e) ==> e == StorageError::NoContainerId,
{
}

/// The storage keeps its options, in their order, but for the one that asks for writing. That one
/// makes it an overlay, with the upper and the work directory of the container as the last options.
/// The rest of the storage stays.
pub proof fn law_rw_option_becomes_dirs(
    h: OverlayfsHandler,
    storage: Storage,
    cid: Option<String>,
    r: DevicePlan,
)
    requires
        call_ensures(OverlayfsHandler::create_device, (&h, storage, &cid), r),
    ensures
        r.outcome matches Ok(s) ==> {
            let given = texts(storage.options@);
            let rw = "io.katacontainers.fs-opt.overlay-rw"@;
            let kept = given.filter(
                |o: Seq<char>| o != "io.katacontainers.fs-opt.overlay-rw"@,
            );
            &&& !given.contains(rw) ==> texts(s.options@) == kept && s.fs_type@
                == storage.fs_type@
            &&& given.contains(rw) ==> (cid matches Some(cid) && {
                let dir = path_join(path_join(h.container_base@, "overlay"@), cid@);
                &&& s.fs_type@ == "overlay"@
                &&& texts(s.options@) == kept.push("upperdir="@ + path_join(dir, "upper"@)).push(
                    "workdir="@ + path_join(dir, "work"@),
                )
            })
            &&& s.driver@ == storage.driver@
            &&& texts(s.driver_options@) == texts(storage.driver_options@)
            &&& s.source@ == storage.source@
            &&& s.fs_group == storage.fs_group
            &&& s.mount_point@ == storage.mount_point@
            &&& s.shared == storage.shared
        },
{
    if let Ok(s) = r.outcome {
        let given = texts(storage.options@);
        let rw = "io.katacontainers.fs-opt.overlay-rw"@;
        reveal_strlit("io.katacontainers.fs-opt.overlay-rw");
        reveal_strlit("upperdir=");
        reveal_strlit("workdir=");
        assert(s@.options == texts(s.options@));
        assert(s@.driver_options == texts(s.driver_options@));
        lemma_plain_is_filtered(given);
        if given.contains(rw) {
            let dir = overlay_dir(h.container_base@, cid->0@);
            let upper = "upperdir="@ + path_join(dir, "upper"@);
            let work = "workdir="@ + path_join(dir, "work"@);
            assert(upper[0] == 'u' && work[0] == 'w' && rw[0] == 'i');
            assert(given.push(upper).drop_last() =~= given);
            assert(given.push(upper).push(work).drop_last() =~= given.push(upper));
            assert(plain_options(given.push(upper)) == plain_options(given).push(upper));
            assert(plain_options(given.push(upper).push(work)) == plain_options(
                given.push(upper),
            ).push(work));
        }
    }
}

/// Dropping the option for writing keeps all others.
proof fn lemma_plain_is_filtered(options: Seq<Seq<char>>)
    ensures
        plain_options(options) == options.filter(
            |o: Seq<char>| o != "io.katacontainers.fs-opt.overlay-rw"@,
        ),
    decreases options.len(),
{
    reveal(Seq::filter);
    if options.len() > 0 {
        lemma_plain_is_filtered(options.drop_last());
    }
}

/// For an overlay that can be written, the container's work directory, its upper directory and the
/// storage's mount point are created, in this order, and no other directory for the overlay is.
pub proof fn law_rw_overlay_dirs_created(
    h: OverlayfsHandler,
    storage: Storage,
    cid: String,
    r: DevicePlan,
)
    requires
        call_ensures(OverlayfsHandler::create_device, (&h, storage, &Some(cid)), r),
        texts(storage.options@).contains("io.katacontainers.fs-opt.overlay-rw"@),
    ensures
        ({
            let dir = path_join(path_join(h.container_base@, "overlay"@), cid@);
            let all = actions_view(r.actions@);
            exists|i: int|
                0 <= i && i + 2 < all.len() && #[trigger] all[i] == ActionView::CreateDir(
                    path_join(dir, "work"@),
                    DirPurpose::Work,
                ) && all[i + 1] == ActionView::CreateDir(
                    path_join(dir, "upper"@),
                    DirPurpose::Upper,
                ) && all[i + 2] == ActionView::CreateDir(storage.mount_point@, DirPurpose::Merged)
                    && forall|k: int|
                    0 <= k < all.len() && k != i && k != i + 1 && k != i + 2 ==> (
                    #[trigger] all[k] matches ActionView::CreateDir(_, purpose) ==> purpose
                        == DirPurpose::Requested)
        }),
{
    let s = storage@;
    let all = actions_view(r.actions@);
    let blocks = block_mounts(s.driver_options, s.driver_options);
    let asked = requested_dirs(h.create_dir_option@, s.driver_options);
    let i = blocks.len() as int;
    lemma_block_mounts_are_mounts(s.driver_options, s.driver_options);
    lemma_requested_are_dirs(h.create_dir_option@, s.driver_options);
    let dir = path_join(path_join(h.container_base@, "overlay"@), cid@);
    assert(all[i] == ActionView::CreateDir(path_join(dir, "work"@), DirPurpose::Work));
    assert forall|k: int|
        0 <= k < all.len() && k != i && k != i + 1 && k != i + 2 implies (
    #[trigger] all[k] matches ActionView::CreateDir(_, purpose) ==> purpose
        == DirPurpose::Requested) by {
        if k < i {
            assert(all[k] == blocks[k]);
        } else {
            assert(all[k] == asked[k - i - 3]);
        }
    }
}

/// What is mounted is a block device with `ext4` whose source and place are both named by the
/// driver options; and whatever source and place they name are mounted together. Without an
/// overlay that can be written, the only directories are those that the driver options ask for.
/// Everything is mounted before any directory is created, and none is created where it fails.
pub proof fn law_named_blocks_are_mounted(
    h: OverlayfsHandler,
    storage: Storage,
    cid: Option<String>,
    r: DevicePlan,
)
    requires
        call_ensures(OverlayfsHandler::create_device, (&h, storage, &cid), r),
    ensures
        ({
            let all = actions_view(r.actions@);
            let options = texts(storage.driver_options@);
            &&& forall|k: int|
                0 <= k < all.len() ==> (#[trigger] all[k] matches ActionView::MountStorage(m)
                    ==> is_block_mount(m) && names_value(
                    options,
                    "io.katacontainers.rootfs.overlayfs.mount_blk_src"@,
                    m.source,
                ) && names_value(
                    options,
                    "io.katacontainers.rootfs.overlayfs.mount_blk_point"@,
                    m.mount_point,
                ))
            &&& forall|source: Seq<char>, point: Seq<char>|
                #[trigger] names_value(
                    options,
                    "io.katacontainers.rootfs.overlayfs.mount_blk_src"@,
                    source,
                ) && #[trigger] names_value(
                    options,
                    "io.katacontainers.rootfs.overlayfs.mount_blk_point"@,
                    point,
                ) ==> all.contains(block_mount(source, point))
            &&& !texts(storage.options@).contains("io.katacontainers.fs-opt.overlay-rw"@)
                ==> forall|k: int|
                0 <= k < all.len() ==> (#[trigger] all[k] matches ActionView::CreateDir(
                    path,
                    purpose,
                ) ==> purpose == DirPurpose::Requested && names_value(
                    options,
                    h.create_dir_option@,
                    path,
                ))
            &&& r.outcome is Ok ==> forall|path: Seq<char>|
                #[trigger] names_value(options, h.create_dir_option@, path) ==> all.contains(
                    ActionView::CreateDir(path, DirPurpose::Requested),
                )
            &&& r.outcome is Err ==> forall|k: int|
                0 <= k < all.len() ==> (#[trigger] all[k]) is MountStorage
            &&& forall|i: int, k: int|
                0 <= i < k < all.len() && (#[trigger] all[k]) is MountStorage ==> (
                #[trigger] all[i]) is MountStorage
        }),
{
    let s = storage@;
    let all = actions_view(r.actions@);
    let options = s.driver_options;
    let blocks = block_mounts(options, options);
    let asked = requested_dirs(h.create_dir_option@, options);
    lemma_block_mounts_named(options, options);
    lemma_requested_named(h.create_dir_option@, options);
    lemma_requested_are_dirs(h.create_dir_option@, options);
    let n = all.len() - asked.len();
    assert forall|k: int| 0 <= k < all.len() implies (
    #[trigger] all[k] matches ActionView::MountStorage(m) ==> is_block_mount(m) && names_value(
        options,
        KATA_OVERLAY_BLK_SOURCE@,
        m.source,
    ) && names_value(options, KATA_OVERLAY_BLK_POINT@, m.mount_point)) by {
        if k < blocks.len() {
            assert(all[k] == blocks[k]);
        } else if r.outcome is Ok && k >= n {
            assert(all[k] == asked[k - n]);
        }
    }
    assert forall|source: Seq<char>, point: Seq<char>|
        #[trigger] names_value(options, KATA_OVERLAY_BLK_SOURCE@, source) && #[trigger] names_value(
            options,
            KATA_OVERLAY_BLK_POINT@,
            point,
        ) implies all.contains(block_mount(source, point)) by {
        lemma_named_is_mounted(options, options, source, point);
        let k = choose|k: int| 0 <= k < blocks.len() && blocks[k] == block_mount(source, point);
        assert(all[k] == blocks[k]);
    }
    lemma_block_mounts_are_mounts(options, options);
    assert forall|k: int| 0 <= k < all.len() && (#[trigger] all[k]) is MountStorage implies k
        < blocks.len() by {
        if r.outcome is Ok && k >= n {
            assert(all[k] == asked[k - n]);
        }
    }
    assert forall|k: int| 0 <= k < blocks.len() implies (#[trigger] all[k]) is MountStorage by {
        assert(all[k] == blocks[k]);
    }
    if !wants_rw(s) {
        assert forall|k: int| 0 <= k < all.len() implies (
        #[trigger] all[k] matches ActionView::CreateDir(path, purpose) ==> purpose
            == DirPurpose::Requested && names_value(options, h.create_dir_option@, path)) by {
            if k < blocks.len() {
                assert(all[k] == blocks[k]);
            } else {
                assert(all[k] == asked[k - blocks.len()]);
            }
        }
    }
    if r.outcome is Ok {
        assert forall|path: Seq<char>|
            #[trigger] names_value(options, h.create_dir_option@, path) implies all.contains(
            ActionView::CreateDir(path, DirPurpose::Requested),
        ) by {
            lemma_named_is_requested(h.create_dir_option@, options, path);
            let want = ActionView::CreateDir(path, DirPurpose::Requested);
            let k = choose|k: int| 0 <= k < asked.len() && asked[k] == want;
            assert(all[n + k] == asked[k]);
        }
    }
}

/// Whether one of the options gives `key` this value.
pub open spec fn names_value(options: Seq<Seq<char>>, key: Seq<char>, value: Seq<char>) -> bool {
    options.contains(key + "="@ + value)
}

/// Whether a storage is a mount of a block device: it has `ext4`, and besides its source and its
/// place nothing.
pub open spec fn is_block_mount(m: StorageView) -> bool {
    &&& m.fs_type == "ext4"@
    &&& m.driver.len() == 0 && m.driver_options.len() == 0 && m.options.len() == 0
    &&& m.fs_group is None && !m.shared
}

/// An option with a value holds the value behind the key and the equals sign.
proof fn lemma_option_split(option: Seq<char>, key: Seq<char>, value: Seq<char>)
    ensures
        after_prefix(option, option_prefix(key)) == Some(value) <==> option == key + "="@ + value,
{
    crate::text::law_prefix_taken_off(option, option_prefix(key), value);
}

/// What block devices need is mounts only.
proof fn lemma_block_mounts_are_mounts(points: Seq<Seq<char>>, all: Seq<Seq<char>>)
    ensures
        forall|k: int|
            0 <= k < block_mounts(points, all).len() ==> (#[trigger] block_mounts(
                points,
                all,
            )[k]) is MountStorage,
    decreases points.len(),
{
    lemma_block_mounts_named(points, all);
}

/// Every mount at a place takes its source from an option.
proof fn lemma_mounts_at_named(point: Seq<char>, options: Seq<Seq<char>>)
    ensures
        forall|k: int|
            0 <= k < mounts_at(point, options).len() ==> (#[trigger] mounts_at(
                point,
                options,
            )[k] matches ActionView::MountStorage(m) && is_block_mount(m) && m.mount_point == point
                && names_value(options, KATA_OVERLAY_BLK_SOURCE@, m.source)),
    decreases options.len(),
{
    if options.len() > 0 {
        let rest = options.drop_last();
        lemma_mounts_at_named(point, rest);
        let now = mounts_at(point, options);
        let done = mounts_at(point, rest);
        assert forall|k: int| 0 <= k < now.len() implies (
        #[trigger] now[k] matches ActionView::MountStorage(m) && is_block_mount(m) && m.mount_point
            == point && names_value(options, KATA_OVERLAY_BLK_SOURCE@, m.source)) by {
            if k < done.len() {
                assert(now[k] == done[k]);
                let source = done[k]->MountStorage_0.source;
                lemma_named_in_longer(options, KATA_OVERLAY_BLK_SOURCE@, source);
            } else {
                let source = after_prefix(
                    options.last(),
                    option_prefix(KATA_OVERLAY_BLK_SOURCE@),
                )->0;
                lemma_option_split(options.last(), KATA_OVERLAY_BLK_SOURCE@, source);
                assert(options[options.len() - 1] == KATA_OVERLAY_BLK_SOURCE@ + "="@ + source);
            }
        }
    }
}

/// A value that is named in the front of a list is named in the list.
proof fn lemma_named_in_longer(options: Seq<Seq<char>>, key: Seq<char>, value: Seq<char>)
    requires
        options.len() > 0,
        names_value(options.drop_last(), key, value),
    ensures
        names_value(options, key, value),
{
    let rest = options.drop_last();
    let want = key + "="@ + value;
    let i = choose|i: int| 0 <= i < rest.len() && rest[i] == want;
    assert(options[i] == want);
}

/// Every mount takes its source and its place from options.
proof fn lemma_block_mounts_named(points: Seq<Seq<char>>, all: Seq<Seq<char>>)
    ensures
        forall|k: int|
            0 <= k < block_mounts(points, all).len() ==> (#[trigger] block_mounts(
                points,
                all,
            )[k] matches ActionView::MountStorage(m) && is_block_mount(m) && names_value(
                all,
                KATA_OVERLAY_BLK_SOURCE@,
                m.source,
            ) && names_value(points, KATA_OVERLAY_BLK_POINT@, m.mount_point)),
    decreases points.len(),
{
    if points.len() > 0 {
        let rest = points.drop_last();
        lemma_block_mounts_named(rest, all);
        let now = block_mounts(points, all);
        let done = block_mounts(rest, all);
        let found = after_prefix(points.last(), option_prefix(KATA_OVERLAY_BLK_POINT@));
        assert forall|k: int| 0 <= k < now.len() implies (
        #[trigger] now[k] matches ActionView::MountStorage(m) && is_block_mount(m) && names_value(
            all,
            KATA_OVERLAY_BLK_SOURCE@,
            m.source,
        ) && names_value(points, KATA_OVERLAY_BLK_POINT@, m.mount_point)) by {
            if k < done.len() {
                assert(now[k] == done[k]);
                let point = done[k]->MountStorage_0.mount_point;
                lemma_named_in_longer(points, KATA_OVERLAY_BLK_POINT@, point);
            } else {
                let point = found->0;
                lemma_mounts_at_named(point, all);
                assert(now[k] == mounts_at(point, all)[k - done.len()]);
                lemma_option_split(points.last(), KATA_OVERLAY_BLK_POINT@, point);
                assert(points[points.len() - 1] == KATA_OVERLAY_BLK_POINT@ + "="@ + point);
            }
        }
    }
}

/// Every source that is named is mounted at the place.
proof fn lemma_source_is_mounted(point: Seq<char>, options: Seq<Seq<char>>, source: Seq<char>)
    requires
        names_value(options, KATA_OVERLAY_BLK_SOURCE@, source),
    ensures
        mounts_at(point, options).contains(block_mount(source, point)),
    decreases options.len(),
{
    let want = KATA_OVERLAY_BLK_SOURCE@ + "="@ + source;
    let rest = options.drop_last();
    let done = mounts_at(point, rest);
    let now = mounts_at(point, options);
    if options.last() == want {
        lemma_option_split(options.last(), KATA_OVERLAY_BLK_SOURCE@, source);
        assert(now[done.len() as int] == block_mount(source, point));
    } else {
        let i = choose|i: int| 0 <= i < options.len() && options[i] == want;
        assert(rest[i] == want);
        lemma_source_is_mounted(point, rest, source);
        let k = choose|k: int| 0 <= k < done.len() && done[k] == block_mount(source, point);
        assert(now[k] == done[k]);
    }
}

/// Every source that is named is mounted at every place that is named.
proof fn lemma_named_is_mounted(
    points: Seq<Seq<char>>,
    all: Seq<Seq<char>>,
    source: Seq<char>,
    point: Seq<char>,
)
    requires
        names_value(all, KATA_OVERLAY_BLK_SOURCE@, source),
        names_value(points, KATA_OVERLAY_BLK_POINT@, point),
    ensures
        block_mounts(points, all).contains(block_mount(source, point)),
    decreases points.len(),
{
    let want = KATA_OVERLAY_BLK_POINT@ + "="@ + point;
    let rest = points.drop_last();
    let done = block_mounts(rest, all);
    let now = block_mounts(points, all);
    if points.last() == want {
        lemma_option_split(points.last(), KATA_OVERLAY_BLK_POINT@, point);
        lemma_source_is_mounted(point, all, source);
        let here = mounts_at(point, all);
        let k = choose|k: int| 0 <= k < here.len() && here[k] == block_mount(source, point);
        assert(now[done.len() + k] == here[k]);
    } else {
        let i = choose|i: int| 0 <= i < points.len() && points[i] == want;
        assert(rest[i] == want);
        lemma_named_is_mounted(rest, all, source, point);
        let k = choose|k: int| 0 <= k < done.len() && done[k] == block_mount(source, point);
        assert(now[k] == done[k]);
    }
}

/// What is asked for by name is directories only.
proof fn lemma_requested_are_dirs(key: Seq<char>, options: Seq<Seq<char>>)
    ensures
        forall|k: int|
            0 <= k < requested_dirs(key, options).len() ==> (#[trigger] requested_dirs(
                key,
                options,
            )[k] matches ActionView::CreateDir(_, purpose) && purpose == DirPurpose::Requested),
    decreases options.len(),
{
    lemma_requested_named(key, options);
}

/// Every directory that is asked for comes from an option.
proof fn lemma_requested_named(key: Seq<char>, options: Seq<Seq<char>>)
    ensures
        forall|k: int|
            0 <= k < requested_dirs(key, options).len() ==> (#[trigger] requested_dirs(
                key,
                options,
            )[k] matches ActionView::CreateDir(path, purpose) && purpose == DirPurpose::Requested
                && names_value(options, key, path)),
    decreases options.len(),
{
    if options.len() > 0 {
        let rest = options.drop_last();
        lemma_requested_named(key, rest);
        let now = requested_dirs(key, options);
        let done = requested_dirs(key, rest);
        assert forall|k: int| 0 <= k < now.len() implies (
        #[trigger] now[k] matches ActionView::CreateDir(path, purpose) && purpose
            == DirPurpose::Requested && names_value(options, key, path)) by {
            if k < done.len() {
                assert(now[k] == done[k]);
                let path = done[k]->CreateDir_0;
                lemma_named_in_longer(options, key, path);
            } else {
                let path = after_prefix(options.last(), option_prefix(key))->0;
                lemma_option_split(options.last(), key, path);
                assert(options[options.len() - 1] == key + "="@ + path);
            }
        }
    }
}

/// Every directory that an option names is asked for.
proof fn lemma_named_is_requested(key: Seq<char>, options: Seq<Seq<char>>, path: Seq<char>)
    requires
        names_value(options, key, path),
    ensures
        requested_dirs(key, options).contains(ActionView::CreateDir(path, DirPurpose::Requested)),
    decreases options.len(),
{
    let want = key + "="@ + path;
    let rest = options.drop_last();
    let done = requested_dirs(key, rest);
    let now = requested_dirs(key, options);
    let action = ActionView::CreateDir(path, DirPurpose::Requested);
    if options.last() == want {
        lemma_option_split(options.last(), key, path);
        assert(now[done.len() as int] == action);
    } else {
        let i = choose|i: int| 0 <= i < options.len() && options[i] == want;
        assert(rest[i] == want);
        lemma_named_is_requested(key, rest, path);
        let k = choose|k: int| 0 <= k < done.len() && done[k] == action;
        assert(now[k] == done[k]);
    }
}

/// A shared file system is there already: nothing is done, and the storage stays as it is.
pub proof fn law_shared_fs_is_there(h: VirtioFsHandler, storage: Storage, r: DevicePlan)
    requires
        call_ensures(VirtioFsHandler::create_device, (&h, storage), r),
    ensures
        r.actions@.len() == 0,
        r.outcome matches Ok(s) && s == storage,
{
}

/// Each handler is for its own driver and for no other.
pub proof fn law_handler_is_for_its_driver(
    overlay: OverlayfsHandler,
    shared: VirtioFsHandler,
    r1: Vec<String>,
    r2: Vec<String>,
)
    requires
        call_ensures(OverlayfsHandler::driver_types, (&overlay,), r1),
        call_ensures(VirtioFsHandler::driver_types, (&shared,), r2),
    ensures
        r1@.len() == 1 && r1@[0]@ == overlay.driver@,
        r2@.len() == 1 && r2@[0]@ == shared.driver@,
{
    assert(texts(r1@).len() == r1@.len());
    assert(texts(r1@)[0] == r1@[0]@);
    assert(texts(r2@).len() == r2@.len());
    assert(texts(r2@)[0] == r2@[0]@);
}

/// Every [`DirPurpose`] is told in its own words.
pub proof fn law_dir_purpose_in_words(e: DirPurpose, r: &'static str)
    requires
        call_ensures(DirPurpose::message, (&e,), r),
    ensures
        e is Work ==> r@ == "Creating overlay work directory"@,
        e is Upper ==> r@ == "Creating overlay upper directory"@,
        e is Merged ==> r@ == "Creating overlay merged directory"@,
        e is Requested ==> r@ == "Failed to create directory"@,
{
}

/// Every [`StorageError`] is told in its own words.
pub proof fn law_storage_error_in_words(e: StorageError, r: &'static str)
    requires
        call_ensures(StorageError::message, (&e,), r),
    ensures
        e is NoContainerId ==> r@ == "No container id in rw overlay"@,
{
}

} // verus!
