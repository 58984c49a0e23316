use kata_runtime::migration::{
    file_url_path, get_vm_snapshot, memory_blob_location, memory_blob_to_path, received,
    recv_vm_config, recv_vm_dirty_log, recv_vm_state, url_to_file, url_to_path, FileKind,
    GuestDebuggableError, MigratableError, PlaceError,
};

#[test]
fn memory_blob_accepts_absolute_regular_file_and_file_url() {
    let file_path = "/tmp/ch-migration-memory-blob-1";

    let file_url = format!("file://{}", file_path);
    assert_eq!(
        memory_blob_to_path(file_path, FileKind::RegularFile).unwrap(),
        file_path
    );
    assert_eq!(memory_blob_to_path(&file_url, FileKind::RegularFile).unwrap(), file_path);
}

#[test]
fn memory_blob_rejects_relative_paths_directories_and_invalid_schemes() {
    let dir_path = "/tmp/ch-migration-memory-dir-1";
    let missing_path = "/tmp/ch-migration-missing-1";

    assert!(memory_blob_to_path("relative/path", FileKind::Missing).is_err());
    assert!(memory_blob_to_path(dir_path, FileKind::Directory).is_err());
    assert!(memory_blob_to_path(missing_path, FileKind::Missing).is_err());
    assert!(memory_blob_to_path("dev:///tmp/memory", FileKind::Missing).is_err());
}

#[test]
fn url_to_path_still_requires_directory_file_url() {
    let dir_path = "/tmp/ch-migration-snapshot-dir-1";
    let file_url = format!("file://{}", dir_path);

    assert_eq!(url_to_path(&file_url, FileKind::Directory).unwrap(), dir_path);
    assert!(url_to_path(dir_path, FileKind::Directory).is_err());
}

#[test]
fn each_refusal_of_a_memory_blob_has_its_reason() {
    let reason = |input: &str, found| match memory_blob_to_path(input, found) {
        Err(MigratableError::MigrateSend(e)) => e,
        other => panic!("{other:?}"),
    };
    assert_eq!(reason("dev:///tmp/memory", FileKind::RegularFile), PlaceError::UnsupportedScheme);
    assert_eq!(reason("relative/path", FileKind::RegularFile), PlaceError::NotAbsolute);
    assert_eq!(reason("", FileKind::RegularFile), PlaceError::NotAbsolute);
    assert_eq!(reason("file://relative", FileKind::RegularFile), PlaceError::NotAbsolute);
    assert_eq!(reason("/m", FileKind::Missing), PlaceError::StatFailed);
    assert_eq!(reason("/m", FileKind::Directory), PlaceError::IsDirectory);
    assert_eq!(reason("/m", FileKind::Other), PlaceError::NotFileOrBlockDevice);
    assert_eq!(memory_blob_to_path("/dev/sda", FileKind::BlockDevice), Ok(String::from("/dev/sda")));
    // The URL of a path may hold anything behind its beginning.
    assert_eq!(memory_blob_location("file:///a://b"), Ok("/a://b"));
    assert_eq!(PlaceError::NotAbsolute.message(), "Memory blob path must be absolute");
    assert_eq!(PlaceError::UnsupportedScheme.message(), "Unsupported memory blob URL scheme");
}

#[test]
fn urls_of_files() {
    assert_eq!(url_to_file("file:///tmp/core"), Ok(String::from("/tmp/core")));
    assert_eq!(url_to_file("/tmp/core"), Err(GuestDebuggableError::Coredump));
    assert_eq!(file_url_path("file://"), Some(""));
    assert_eq!(file_url_path("FILE:///x"), None);
    assert_eq!(
        url_to_path("file:///x", FileKind::RegularFile),
        Err(MigratableError::MigrateSend(PlaceError::NotDirectory))
    );
    assert_eq!(
        url_to_path("/x", FileKind::Directory),
        Err(MigratableError::MigrateSend(PlaceError::NotFileUrl))
    );
}

#[test]
fn files_of_a_snapshot() {
    let url = "file:///snap";
    assert_eq!(recv_vm_config(url, FileKind::Directory), Ok(String::from("/snap/config.json")));
    assert_eq!(recv_vm_state(url, FileKind::Directory), Ok(String::from("/snap/state.json")));
    assert_eq!(recv_vm_dirty_log(url, FileKind::Directory), Ok(String::from("/snap/dirty-log.json")));
    assert!(recv_vm_state(url, FileKind::Missing).is_err());
    assert_eq!(received::<u32, ()>(Ok(3)), Ok(3));
    assert_eq!(received::<u32, &str>(Err("io")), Err(MigratableError::MigrateReceive));
    assert_eq!(get_vm_snapshot(Some(1u8)), Ok(1));
    assert_eq!(get_vm_snapshot::<u8>(None), Err(MigratableError::Restore));
}
