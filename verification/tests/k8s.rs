use kata_runtime::k8s::{
    is_block_mode, is_ephemeral_volume, is_host_empty_dir, update_ephemeral_storage_type,
    EmptyDirNames, MountFacts, KATA_EPHEMERAL_VOLUME_TYPE,
};
use kata_runtime::mount::{Mount, MountLookup, PathFacts, SourcePath};

const EMPTYDIR_MODE_SHARED_FS: &str = "shared-fs";
const EMPTYDIR_MODE_BLOCK_ENCRYPTED: &str = "block-encrypted";
const EMPTYDIR_MODE_BLOCK_PLAIN: &str = "block-plain";
const KATA_K8S_LOCAL_STORAGE_TYPE: &str = "local";

fn names() -> EmptyDirNames {
    EmptyDirNames {
        block_encrypted: String::from(EMPTYDIR_MODE_BLOCK_ENCRYPTED),
        block_plain: String::from(EMPTYDIR_MODE_BLOCK_PLAIN),
        local_storage: String::from(KATA_K8S_LOCAL_STORAGE_TYPE),
    }
}

fn bind_mount(source: &str) -> Mount {
    Mount {
        destination: String::from("/data"),
        typ: Some(String::from("bind")),
        source: Some(SourcePath { text: String::from(source), utf8: true }),
        options: vec![String::from("rbind")],
    }
}

fn facts(empty_dir: bool, lookup: MountLookup) -> PathFacts {
    PathFacts { empty_dir, lookup }
}

fn host_facts() -> Vec<MountFacts> {
    vec![MountFacts { guest_mount: false, source: facts(true, MountLookup::NoMountEntry) }]
}

#[test]
fn test_update_ephemeral_storage_type_host_empty_dir_modes() {
    let empty_dir = "/tmp/pods/pod-id/volumes/kubernetes.io~empty-dir/data";

    let mut mounts = vec![bind_mount(empty_dir)];
    update_ephemeral_storage_type(&mut mounts, &host_facts(), false, EMPTYDIR_MODE_SHARED_FS, &names());
    assert_eq!(mounts[0].typ.as_deref(), Some(KATA_K8S_LOCAL_STORAGE_TYPE));

    let mut mounts = vec![bind_mount(empty_dir)];
    update_ephemeral_storage_type(&mut mounts, &host_facts(), false, EMPTYDIR_MODE_BLOCK_ENCRYPTED, &names());
    assert_eq!(mounts[0].typ.as_deref(), Some("bind"));

    let mut mounts = vec![bind_mount(empty_dir)];
    update_ephemeral_storage_type(&mut mounts, &host_facts(), false, EMPTYDIR_MODE_BLOCK_PLAIN, &names());
    assert_eq!(mounts[0].typ.as_deref(), Some("bind"));

    let mut mounts = vec![bind_mount(empty_dir)];
    update_ephemeral_storage_type(&mut mounts, &host_facts(), true, EMPTYDIR_MODE_SHARED_FS, &names());
    assert_eq!(mounts[0].typ.as_deref(), Some("bind"));
}

#[test]
fn tmpfs_empty_dir_becomes_ephemeral_once() {
    let on_tmpfs = || {
        vec![MountFacts { guest_mount: false, source: facts(true, MountLookup::Found(String::from("tmpfs"))) }]
    };
    let mut mounts = vec![bind_mount("/x")];
    update_ephemeral_storage_type(&mut mounts, &on_tmpfs(), false, EMPTYDIR_MODE_SHARED_FS, &names());
    assert_eq!(mounts[0].typ.as_deref(), Some(KATA_EPHEMERAL_VOLUME_TYPE));
    update_ephemeral_storage_type(&mut mounts, &on_tmpfs(), false, EMPTYDIR_MODE_SHARED_FS, &names());
    assert_eq!(mounts[0].typ.as_deref(), Some(KATA_EPHEMERAL_VOLUME_TYPE));
    assert_eq!(mounts[0].options, vec![String::from("rbind")]);
}

#[test]
fn guest_mounts_and_mounts_without_source_are_left_alone() {
    let mut guest = bind_mount("/x");
    guest.typ = Some(String::from("kata:guest-mount:x"));
    let mut no_source = bind_mount("/x");
    no_source.source = None;
    let mut mounts = vec![guest, no_source];
    let all_facts = vec![
        MountFacts { guest_mount: true, source: facts(true, MountLookup::NoMountEntry) },
        MountFacts { guest_mount: false, source: facts(true, MountLookup::NoMountEntry) },
    ];
    update_ephemeral_storage_type(&mut mounts, &all_facts, false, EMPTYDIR_MODE_SHARED_FS, &names());
    assert_eq!(mounts[0].typ.as_deref(), Some("kata:guest-mount:x"));
    assert_eq!(mounts[1].typ.as_deref(), Some("bind"));
}

#[test]
fn ephemeral_and_host_volumes_are_told_apart() {
    let tmpfs = facts(true, MountLookup::Found(String::from("tmpfs")));
    let ext4 = facts(true, MountLookup::Found(String::from("ext4")));
    let none = facts(true, MountLookup::NoMountEntry);
    let failed = facts(true, MountLookup::Failed);
    let elsewhere = facts(false, MountLookup::Found(String::from("tmpfs")));

    let mount = bind_mount("/x");
    assert!(is_ephemeral_volume(&mount, &tmpfs));
    assert!(!is_ephemeral_volume(&mount, &ext4));
    assert!(!is_ephemeral_volume(&mount, &none));
    assert!(!is_ephemeral_volume(&mount, &elsewhere));

    assert!(!is_host_empty_dir(&tmpfs));
    assert!(is_host_empty_dir(&ext4));
    assert!(is_host_empty_dir(&none));
    assert!(!is_host_empty_dir(&failed));
    assert!(!is_host_empty_dir(&elsewhere));

    let mut not_utf8 = bind_mount("/x");
    not_utf8.source = Some(SourcePath { text: String::from("/x\u{fffd}"), utf8: false });
    assert!(!is_ephemeral_volume(&not_utf8, &tmpfs));
    let mut no_type = bind_mount("/x");
    no_type.typ = None;
    assert!(!is_ephemeral_volume(&no_type, &tmpfs));
    let mut other_type = bind_mount("/x");
    other_type.typ = Some(String::from("tmpfs"));
    assert!(!is_ephemeral_volume(&other_type, &tmpfs));
}

#[test]
fn block_modes_are_known() {
    assert!(is_block_mode("block-encrypted", &names()));
    assert!(is_block_mode("block-plain", &names()));
    assert!(!is_block_mode("shared-fs", &names()));
    assert!(!is_block_mode("", &names()));
}

#[test]
fn shared_memory_of_a_container_is_ephemeral() {
    let on = |fs: &str| facts(false, MountLookup::Found(String::from(fs)));
    let mut shm = bind_mount("/run/sandbox/shm");
    shm.destination = String::from("/dev/shm");
    assert!(is_ephemeral_volume(&shm, &on("tmpfs")));
    assert!(!is_ephemeral_volume(&shm, &on("ext4")));
    assert!(!is_ephemeral_volume(&shm, &facts(false, MountLookup::NoMountEntry)));
    let mut below = bind_mount("/run/sandbox/shm");
    below.destination = String::from("/dev/shm/x");
    assert!(!is_ephemeral_volume(&below, &on("tmpfs")));

    let mut mounts = vec![shm, below];
    let all_facts = vec![
        MountFacts { guest_mount: false, source: on("tmpfs") },
        MountFacts { guest_mount: false, source: on("tmpfs") },
    ];
    update_ephemeral_storage_type(&mut mounts, &all_facts, false, EMPTYDIR_MODE_SHARED_FS, &names());
    assert_eq!(mounts[0].typ.as_deref(), Some(KATA_EPHEMERAL_VOLUME_TYPE));
    assert_eq!(mounts[0].destination, "/dev/shm");
    assert_eq!(mounts[1].typ.as_deref(), Some("bind"));
}
