//! Kubernetes volumes among a container's mounts.

use vstd::prelude::*;
use vstd::string::*;

use crate::mount::{Mount, MountLookup, MountView, PathFacts, KATA_MOUNT_BIND_TYPE};
use crate::text::str_eq;

verus! {

/// What the configuration and the agent call the ways of handling an `emptyDir` volume.
#[derive(Debug)]
pub struct EmptyDirNames {
    /// The mode in which it is a block device whose contents are encrypted.
    pub block_encrypted: String,
    /// The mode in which it is a plain block device.
    pub block_plain: String,
    /// The type of a mount that the guest backs with its own storage.
    pub local_storage: String,
}

/// The type of a mount that the guest backs with memory.
pub const KATA_EPHEMERAL_VOLUME_TYPE: &'static str = "ephemeral";

/// Where a container has its shared memory.
pub const SHM_PATH: &'static str = "/dev/shm";

/// What is known of a mount besides its fields.
#[derive(Debug)]
pub struct MountFacts {
    /// Whether the mount's type names a mount that the guest makes by itself.
    pub guest_mount: bool,
    /// What the host knows of the mount's source.
    pub source: PathFacts,
}

/// Whether the mode hands `emptyDir` volumes over as block devices.
pub open spec fn block_mode(emptydir_mode: Seq<char>, names: EmptyDirNames) -> bool {
    emptydir_mode == names.block_encrypted@ || emptydir_mode == names.block_plain@
}

/// Whether a mount is an ephemeral volume: a bind mount from a `tmpfs`, of an `emptyDir` or as the
/// container's shared memory.
pub open spec fn ephemeral_volume(m: MountView, facts: PathFacts) -> bool {
    &&& m.typ == Some(KATA_MOUNT_BIND_TYPE@)
    &&& m.source is Some
    &&& m.source_utf8
    &&& facts.on_tmpfs()
    &&& facts.empty_dir || m.destination == SHM_PATH@
}

/// Whether a path is an `emptyDir` on the host's own storage.
pub open spec fn host_empty_dir(facts: PathFacts) -> bool {
    &&& facts.empty_dir
    &&& !facts.on_tmpfs()
    &&& !(facts.lookup is Failed)
}

/// The type that a mount is given.
pub open spec fn updated_type(
    m: MountView,
    facts: MountFacts,
    disable_guest_empty_dir: bool,
    emptydir_mode: Seq<char>,
    names: EmptyDirNames,
) -> Option<Seq<char>> {
    if (m.typ is Some && facts.guest_mount) || m.source is None {
        m.typ
    } else if host_empty_dir(facts.source) && !disable_guest_empty_dir && !block_mode(
        emptydir_mode,
        names,
    ) {
        Some(names.local_storage@)
    } else if ephemeral_volume(m, facts.source) {
        Some(KATA_EPHEMERAL_VOLUME_TYPE@)
    } else {
        m.typ
    }
}

/// A mount with its new type.
pub open spec fn updated_mount(
    m: MountView,
    facts: MountFacts,
    disable_guest_empty_dir: bool,
    emptydir_mode: Seq<char>,
    names: EmptyDirNames,
) -> MountView {
    MountView { typ: updated_type(m, facts, disable_guest_empty_dir, emptydir_mode, names), ..m }
}

/// Whether a mount is an ephemeral volume.
///
/// The kubelet backs two kinds of volumes with a `tmpfs`: the container's `/dev/shm`, and an
/// `emptyDir` of the memory medium. Both are set up in the guest. Any other `tmpfs` may hold
/// files already and goes through the shared file system.
pub fn is_ephemeral_volume(mount: &Mount, facts: &PathFacts) -> (r: bool)
    ensures
        r == ephemeral_volume(mount@, *facts),
{
    match (&mount.typ, &mount.source) {
        (Some(typ), Some(source)) => {
            str_eq(typ.as_str(), KATA_MOUNT_BIND_TYPE) && source.utf8 && facts.is_on_tmpfs() && (
            facts.empty_dir || str_eq(mount.destination.as_str(), SHM_PATH))
        },
        _ => false,
    }
}

/// Whether a path is an `emptyDir` of the default medium: a directory on the host. On a `tmpfs`
/// it is an ephemeral volume instead.
pub fn is_host_empty_dir(facts: &PathFacts) -> (r: bool)
    ensures
        r == host_empty_dir(*facts),
{
    if !facts.empty_dir {
        return false;
    }
    match &facts.lookup {
        MountLookup::Found(_) => !facts.is_on_tmpfs(),
        MountLookup::NoMountEntry => true,
        MountLookup::Failed => false,
    }
}

/// Whether the mode hands `emptyDir` volumes over as block devices.
pub fn is_block_mode(emptydir_mode: &str, names: &EmptyDirNames) -> (r: bool)
    ensures
        r == block_mode(emptydir_mode@, *names),
{
    str_eq(emptydir_mode, names.block_encrypted.as_str()) || str_eq(
        emptydir_mode,
        names.block_plain.as_str(),
    )
}

/// Gives one mount its new type.
fn update_mount(
    m: &mut Mount,
    facts: &MountFacts,
    disable_guest_empty_dir: bool,
    emptydir_mode: &str,
    names: &EmptyDirNames,
)
    ensures
        final(m)@ == updated_mount(
            old(m)@,
            *facts,
            disable_guest_empty_dir,
            emptydir_mode@,
            *names,
        ),
{
    if m.typ.is_some() && facts.guest_mount {
        return ;
    }
    if m.source.is_some() {
        if is_ephemeral_volume(m, &facts.source) {
            m.typ = Some(KATA_EPHEMERAL_VOLUME_TYPE.to_owned());
        }
        // In a block mode a host emptyDir stays a bind mount, for the block volume to pick up.
        if is_host_empty_dir(&facts.source) && !disable_guest_empty_dir && !is_block_mode(
            emptydir_mode,
            names,
        ) {
            m.typ = Some(names.local_storage.clone());
        }
    }
}

/// Sets the type of every mount whose source the kubelet provides as ephemeral storage.
///
/// Such a volume is created once in the guest; later containers of the pod use it again.
pub fn update_ephemeral_storage_type(
    mounts: &mut Vec<Mount>,
    facts: &Vec<MountFacts>,
    disable_guest_empty_dir: bool,
    emptydir_mode: &str,
    names: &EmptyDirNames,
)
    requires
        facts@.len() == old(mounts)@.len(),
    ensures
        final(mounts)@.len() == old(mounts)@.len(),
        forall|i: int|
            0 <= i < old(mounts)@.len() ==> (#[trigger] final(mounts)@[i])@ == updated_mount(
                old(mounts)@[i]@,
                facts@[i],
                disable_guest_empty_dir,
                emptydir_mode@,
                *names,
            ),
{
    let ghost before = mounts@;
    let mut i: usize = 0;
    while i < mounts.len()
        invariant
            i <= mounts@.len(),
            mounts@.len() == before.len(),
            facts@.len() == before.len(),
            forall|k: int|
                0 <= k < i ==> (#[trigger] mounts@[k])@ == updated_mount(
                    before[k]@,
                    facts@[k],
                    disable_guest_empty_dir,
                    emptydir_mode@,
                    *names,
                ),
            forall|k: int| i <= k < before.len() ==> mounts@[k] == #[trigger] before[k],
        decreases mounts@.len() - i,
    {
        update_mount(&mut mounts[i], &facts[i], disable_guest_empty_dir, emptydir_mode, names);
        i = i + 1;
    }
}

/// Updating a mount a second time changes nothing.
pub proof fn law_update_idempotent(
    m: MountView,
    facts: MountFacts,
    disable_guest_empty_dir: bool,
    emptydir_mode: Seq<char>,
    names: EmptyDirNames,
)
    ensures
        ({
            let once = updated_mount(m, facts, disable_guest_empty_dir, emptydir_mode, names);
            updated_mount(once, facts, disable_guest_empty_dir, emptydir_mode, names) == once
        }),
{
    reveal_strlit("bind");
    reveal_strlit("ephemeral");
    assert("bind"@[0] != "ephemeral"@[0]);
}

/// In a block mode, or with guest `emptyDir` volumes disabled, an `emptyDir` on the host's storage
/// keeps its type, so that the block volume or the shared file system takes it.
pub proof fn law_host_empty_dir_kept(
    m: MountView,
    facts: MountFacts,
    disable_guest_empty_dir: bool,
    emptydir_mode: Seq<char>,
    names: EmptyDirNames,
)
    requires
        host_empty_dir(facts.source),
        disable_guest_empty_dir || block_mode(emptydir_mode, names),
    ensures
        updated_mount(m, facts, disable_guest_empty_dir, emptydir_mode, names) == m,
{
}

/// No path is both an ephemeral volume and a host `emptyDir`.
pub proof fn law_ephemeral_or_host(m: MountView, facts: PathFacts)
    ensures
        !(ephemeral_volume(m, facts) && host_empty_dir(facts)),
{
}

/// A mount that the guest makes by itself is left alone.
pub proof fn law_guest_mount_kept(
    m: MountView,
    facts: MountFacts,
    disable_guest_empty_dir: bool,
    emptydir_mode: Seq<char>,
    names: EmptyDirNames,
)
    requires
        m.typ is Some,
        facts.guest_mount,
    ensures
        updated_mount(m, facts, disable_guest_empty_dir, emptydir_mode, names) == m,
{
}

/// A bind mount from a `tmpfs`, of an `emptyDir` or as the container's shared memory, becomes
/// ephemeral in every mode, and whether or not guest `emptyDir` volumes are disabled, unless the
/// guest makes it by itself.
pub proof fn law_tmpfs_volume_is_ephemeral(
    mounts: &mut Vec<Mount>,
    facts: Vec<MountFacts>,
    disable_guest_empty_dir: bool,
    emptydir_mode: &str,
    names: EmptyDirNames,
    i: int,
)
    requires
        facts@.len() == old(mounts)@.len(),
        call_ensures(
            update_ephemeral_storage_type,
            (mounts, &facts, disable_guest_empty_dir, emptydir_mode, &names),
            (),
        ),
        0 <= i < old(mounts)@.len(),
    ensures
        ({
            let m = old(mounts)@[i];
            let f = facts@[i].source;
            &&& m.typ matches Some(t) && t@ == "bind"@
            &&& m.source matches Some(p) && p.utf8
            &&& f.lookup matches MountLookup::Found(fs) && fs@ == "tmpfs"@
            &&& f.empty_dir || m.destination@ == "/dev/shm"@
            &&& !facts@[i].guest_mount
        }) ==> (final(mounts)@[i].typ matches Some(t) && t@ == "ephemeral"@),
{
    assert(final(mounts)@[i]@.typ == crate::mount::text_of(final(mounts)@[i].typ));
}

/// An `emptyDir` on the host's storage gets the type of the guest's storage if and only if guest
/// `emptyDir` volumes are not disabled and the mode is none of the block modes. A path whose entry
/// in the mount table could not be read does not count, nor does one on a `tmpfs`.
pub proof fn law_host_dir_becomes_local(
    mounts: &mut Vec<Mount>,
    facts: Vec<MountFacts>,
    disable_guest_empty_dir: bool,
    emptydir_mode: &str,
    names: EmptyDirNames,
    i: int,
)
    requires
        facts@.len() == old(mounts)@.len(),
        call_ensures(
            update_ephemeral_storage_type,
            (mounts, &facts, disable_guest_empty_dir, emptydir_mode, &names),
            (),
        ),
        0 <= i < old(mounts)@.len(),
        old(mounts)@[i].source is Some,
        facts@[i].source.empty_dir,
        !(facts@[i].source.lookup is Failed),
        !(facts@[i].source.lookup matches MountLookup::Found(fs) && fs@ == "tmpfs"@),
        old(mounts)@[i].typ is None || !facts@[i].guest_mount,
    ensures
        ({
            let block = emptydir_mode@ == names.block_encrypted@ || emptydir_mode@
                == names.block_plain@;
            &&& !disable_guest_empty_dir && !block ==> (final(mounts)@[i].typ matches Some(t) && t@
                == names.local_storage@)
            &&& disable_guest_empty_dir || block ==> final(mounts)@[i]@ == old(mounts)@[i]@
        }),
{
    assert(final(mounts)@[i]@.typ == crate::mount::text_of(final(mounts)@[i].typ));
}

/// A mount changes only in its type, and only if it has a source. A mount that changes is a bind
/// mount from a `tmpfs` that becomes ephemeral, or an `emptyDir` that gets the guest's storage.
pub proof fn law_only_types_change(
    mounts: &mut Vec<Mount>,
    facts: Vec<MountFacts>,
    disable_guest_empty_dir: bool,
    emptydir_mode: &str,
    names: EmptyDirNames,
    i: int,
)
    requires
        facts@.len() == old(mounts)@.len(),
        call_ensures(
            update_ephemeral_storage_type,
            (mounts, &facts, disable_guest_empty_dir, emptydir_mode, &names),
            (),
        ),
        0 <= i < old(mounts)@.len(),
    ensures
        final(mounts)@.len() == old(mounts)@.len(),
        final(mounts)@[i]@ == (MountView { typ: final(mounts)@[i]@.typ, ..old(mounts)@[i]@ }),
        old(mounts)@[i].source is None ==> final(mounts)@[i]@ == old(mounts)@[i]@,
        old(mounts)@[i].typ is Some && facts@[i].guest_mount ==> final(mounts)@[i]@ == old(mounts)@[i]@,
        final(mounts)@[i]@ != old(mounts)@[i]@ ==> ({
            let m = old(mounts)@[i];
            let f = facts@[i].source;
            let tmpfs = f.lookup matches MountLookup::Found(fs) && fs@ == "tmpfs"@;
            let block = emptydir_mode@ == names.block_encrypted@ || emptydir_mode@
                == names.block_plain@;
            ||| tmpfs && (m.typ matches Some(t) && t@ == "bind"@) && (m.source matches Some(p)
                && p.utf8) && (f.empty_dir || m.destination@ == "/dev/shm"@) && final(mounts)@[i]@.typ == Some("ephemeral"@)
            ||| !tmpfs && f.empty_dir && !(f.lookup is Failed) && !disable_guest_empty_dir && !block
                && final(mounts)@[i]@.typ == Some(names.local_storage@)
        }),
{
}

/// A mount is an ephemeral volume if and only if it is a bind mount, with a source in UTF-8, from a
/// `tmpfs`, of an `emptyDir` or as the container's shared memory.
pub proof fn law_ephemeral_volume_told(mount: Mount, facts: PathFacts, r: bool)
    requires
        call_ensures(is_ephemeral_volume, (&mount, &facts), r),
    ensures
        r <==> {
            &&& mount.typ matches Some(t) && t@ == "bind"@
            &&& mount.source matches Some(p) && p.utf8
            &&& facts.lookup matches MountLookup::Found(fs) && fs@ == "tmpfs"@
            &&& facts.empty_dir || mount.destination@ == "/dev/shm"@
        },
{
}

/// A path is an `emptyDir` on the host's storage if and only if it lies where the kubelet puts
/// such volumes, the mount table could be read, and no `tmpfs` is mounted there.
pub proof fn law_host_empty_dir_told(facts: PathFacts, r: bool)
    requires
        call_ensures(is_host_empty_dir, (&facts,), r),
    ensures
        r <==> facts.empty_dir && !(facts.lookup is Failed)
            && !(facts.lookup matches MountLookup::Found(fs) && fs@ == "tmpfs"@),
{
}

/// The two block modes, and no other, hand volumes over as block devices.
pub proof fn law_block_modes_told(emptydir_mode: &str, names: EmptyDirNames, r: bool)
    requires
        call_ensures(is_block_mode, (emptydir_mode, &names), r),
    ensures
        r <==> emptydir_mode@ == names.block_encrypted@ || emptydir_mode@ == names.block_plain@,
{
}

} // verus!
