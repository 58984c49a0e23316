//! Where the state of a virtual machine is kept while it is saved, moved or restored.

use vstd::prelude::*;
use vstd::string::*;

use crate::path::{is_absolute, join_path, path_join};
use crate::text::{after_prefix, contains_str, occurs_at, occurs_in, strip_prefix_str};

verus! {

broadcast use vstd::string::group_string_axioms;

/// The file with the state of the devices.
pub const SNAPSHOT_STATE_FILE: &'static str = "state.json";

/// The file with the configuration.
pub const SNAPSHOT_CONFIG_FILE: &'static str = "config.json";

/// The file with the list of memory that has changed.
pub const DIRYT_LOG_FILE: &'static str = "dirty-log.json";

/// How URLs of local files begin.
pub const FILE_URL_PREFIX: &'static str = "file://";

/// What parts the scheme of a URL from the rest.
pub const SCHEME_SEPARATOR: &'static str = "://";

/// What is found at a path, links followed.
#[derive(Clone, Copy, Debug, PartialEq, Eq, Structural)]
pub enum FileKind {
    /// Nothing, or nothing that can be looked at.
    Missing,
    /// A directory.
    Directory,
    /// A regular file.
    RegularFile,
    /// A block device.
    BlockDevice,
    /// Anything else.
    Other,
}

/// Why a place cannot be used.
#[derive(Clone, Copy, Debug, PartialEq, Eq, Structural)]
pub enum PlaceError {
    /// It is not given as the URL of a file.
    NotFileUrl,
    /// It is not a directory.
    NotDirectory,
    /// It is given as a URL of another scheme.
    UnsupportedScheme,
    /// It is not given from the root.
    NotAbsolute,
    /// It cannot be looked at.
    StatFailed,
    /// It is a directory.
    IsDirectory,
    /// It is neither a regular file nor a block device.
    NotFileOrBlockDevice,
}

impl PlaceError {
    /// The error in words.
    pub open spec fn text(&self) -> Seq<char> {
        match self {
            PlaceError::NotFileUrl => "Could not extract path from URL"@,
            PlaceError::NotDirectory => "Destination is not a directory"@,
            PlaceError::UnsupportedScheme => "Unsupported memory blob URL scheme"@,
            PlaceError::NotAbsolute => "Memory blob path must be absolute"@,
            PlaceError::StatFailed => "Failed to stat memory blob path"@,
            PlaceError::IsDirectory => "Memory blob path must not be a directory"@,
            PlaceError::NotFileOrBlockDevice => {
                "Memory blob path must point to an existing regular file or block device"@
            },
        }
    }

    /// The error in words.
    pub fn message(&self) -> (r: &'static str)
        ensures
            r@ == self.text(),
    {
        match self {
            PlaceError::NotFileUrl => "Could not extract path from URL",
            PlaceError::NotDirectory => "Destination is not a directory",
            PlaceError::UnsupportedScheme => "Unsupported memory blob URL scheme",
            PlaceError::NotAbsolute => "Memory blob path must be absolute",
            PlaceError::StatFailed => "Failed to stat memory blob path",
            PlaceError::IsDirectory => "Memory blob path must not be a directory",
            PlaceError::NotFileOrBlockDevice => {
                "Memory blob path must point to an existing regular file or block device"
            },
        }
    }
}

/// Why a virtual machine cannot be saved, moved or restored.
#[derive(Clone, Copy, Debug, PartialEq, Eq, Structural)]
pub enum MigratableError {
    /// The place for it cannot be used.
    MigrateSend(PlaceError),
    /// Its state cannot be read.
    MigrateReceive,
    /// Its state is not complete.
    Restore,
}

/// Why a guest cannot be debugged.
#[derive(Clone, Copy, Debug, PartialEq, Eq, Structural)]
pub enum GuestDebuggableError {
    /// Its memory cannot be written out.
    Coredump,
}

/// The directory that a URL names, if it is one.
pub open spec fn directory_of(url: Seq<char>, found: FileKind) -> Result<Seq<char>, PlaceError> {
    match after_prefix(url, FILE_URL_PREFIX@) {
        None => Err(PlaceError::NotFileUrl),
        Some(path) => if found == FileKind::Directory {
            Ok(path)
        } else {
            Err(PlaceError::NotDirectory)
        },
    }
}

/// The path that a memory blob is given by, as a path from the root or as the URL of a file.
pub open spec fn blob_path(input: Seq<char>) -> Result<Seq<char>, PlaceError> {
    let path = match after_prefix(input, FILE_URL_PREFIX@) {
        Some(path) => Ok(path),
        None => if occurs_in(SCHEME_SEPARATOR@, input) {
            Err(PlaceError::UnsupportedScheme)
        } else {
            Ok(input)
        },
    };
    match path {
        Err(e) => Err(e),
        Ok(path) => if is_absolute(path) {
            Ok(path)
        } else {
            Err(PlaceError::NotAbsolute)
        },
    }
}

/// The path of a memory blob, if there is one: a regular file or a block device.
pub open spec fn blob_of(input: Seq<char>, found: FileKind) -> Result<Seq<char>, PlaceError> {
    match blob_path(input) {
        Err(e) => Err(e),
        Ok(path) => match found {
            FileKind::Missing => Err(PlaceError::StatFailed),
            FileKind::Directory => Err(PlaceError::IsDirectory),
            FileKind::Other => Err(PlaceError::NotFileOrBlockDevice),
            _ => Ok(path),
        },
    }
}

/// The path in the URL of a file.
pub fn file_url_path(url: &str) -> (r: Option<&str>)
    ensures
        r is Some <==> after_prefix(url@, FILE_URL_PREFIX@) is Some,
        r matches Some(path) ==> after_prefix(url@, FILE_URL_PREFIX@) == Some(path@),
{
    strip_prefix_str(url, FILE_URL_PREFIX)
}

/// The directory that a URL names; `found` is what is at its path.
pub fn url_to_path(url: &str, found: FileKind) -> (r: Result<String, MigratableError>)
    ensures
        match r {
            Ok(path) => directory_of(url@, found) == Ok::<Seq<char>, PlaceError>(path@),
            Err(e) => directory_of(url@, found) is Err && e == MigratableError::MigrateSend(
                directory_of(url@, found)->Err_0,
            ),
        },
{
    match file_url_path(url) {
        None => Err(MigratableError::MigrateSend(PlaceError::NotFileUrl)),
        Some(path) => match found {
            FileKind::Directory => Ok(path.to_owned()),
            _ => Err(MigratableError::MigrateSend(PlaceError::NotDirectory)),
        },
    }
}

/// The path by which a memory blob is given.
pub fn memory_blob_location(input: &str) -> (r: Result<&str, MigratableError>)
    ensures
        match r {
            Ok(path) => blob_path(input@) == Ok::<Seq<char>, PlaceError>(path@),
            Err(e) => blob_path(input@) is Err && e == MigratableError::MigrateSend(
                blob_path(input@)->Err_0,
            ),
        },
{
    let path = match strip_prefix_str(input, FILE_URL_PREFIX) {
        Some(path) => path,
        None => {
            if contains_str(input, SCHEME_SEPARATOR) {
                return Err(MigratableError::MigrateSend(PlaceError::UnsupportedScheme));
            }
            input
        },
    };
    if path.unicode_len() == 0 || path.get_char(0) != '/' {
        return Err(MigratableError::MigrateSend(PlaceError::NotAbsolute));
    }
    Ok(path)
}

/// The path of a memory blob: a path from the root, or the URL of a file, at which there is a
/// regular file or a block device. `found` is what is at its path.
pub fn memory_blob_to_path(input: &str, found: FileKind) -> (r: Result<String, MigratableError>)
    ensures
        match r {
            Ok(path) => blob_of(input@, found) == Ok::<Seq<char>, PlaceError>(path@),
            Err(e) => blob_of(input@, found) is Err && e == MigratableError::MigrateSend(
                blob_of(input@, found)->Err_0,
            ),
        },
{
    let path = match memory_blob_location(input) {
        Ok(path) => path,
        Err(e) => {
            return Err(e);
        },
    };
    match found {
        FileKind::Missing => Err(MigratableError::MigrateSend(PlaceError::StatFailed)),
        FileKind::Directory => Err(MigratableError::MigrateSend(PlaceError::IsDirectory)),
        FileKind::RegularFile => Ok(path.to_owned()),
        FileKind::BlockDevice => Ok(path.to_owned()),
        FileKind::Other => Err(MigratableError::MigrateSend(PlaceError::NotFileOrBlockDevice)),
    }
}

/// The file that a URL names, for the memory of a guest that is debugged.
pub fn url_to_file(url: &str) -> (r: Result<String, GuestDebuggableError>)
    ensures
        match r {
            Ok(path) => after_prefix(url@, FILE_URL_PREFIX@) == Some(path@),
            Err(e) => after_prefix(url@, FILE_URL_PREFIX@) is None && e
                == GuestDebuggableError::Coredump,
        },
{
    match file_url_path(url) {
        Some(path) => Ok(path.to_owned()),
        None => Err(GuestDebuggableError::Coredump),
    }
}

/// A file in the directory that a URL names.
pub open spec fn file_in(
    url: Seq<char>,
    found: FileKind,
    name: Seq<char>,
) -> Result<Seq<char>, PlaceError> {
    match directory_of(url, found) {
        Ok(dir) => Ok(path_join(dir, name)),
        Err(e) => Err(e),
    }
}

/// A file in the directory that a URL names.
fn snapshot_file(url: &str, found: FileKind, name: &str) -> (r: Result<String, MigratableError>)
    ensures
        match r {
            Ok(path) => file_in(url@, found, name@) == Ok::<Seq<char>, PlaceError>(path@),
            Err(e) => file_in(url@, found, name@) is Err && e == MigratableError::MigrateSend(
                file_in(url@, found, name@)->Err_0,
            ),
        },
{
    match url_to_path(url, found) {
        Ok(dir) => Ok(join_path(dir.as_str(), name)),
        Err(e) => Err(e),
    }
}

/// The file from which the configuration is read.
pub fn recv_vm_config(source_url: &str, found: FileKind) -> (r: Result<String, MigratableError>)
    ensures
        match r {
            Ok(path) => file_in(source_url@, found, SNAPSHOT_CONFIG_FILE@) == Ok::<
                Seq<char>,
                PlaceError,
            >(path@),
            Err(e) => file_in(source_url@, found, SNAPSHOT_CONFIG_FILE@) is Err && e
                == MigratableError::MigrateSend(
                file_in(source_url@, found, SNAPSHOT_CONFIG_FILE@)->Err_0,
            ),
        },
{
    snapshot_file(source_url, found, SNAPSHOT_CONFIG_FILE)
}

/// The file from which the state of the devices is read.
pub fn recv_vm_state(source_url: &str, found: FileKind) -> (r: Result<String, MigratableError>)
    ensures
        match r {
            Ok(path) => file_in(source_url@, found, SNAPSHOT_STATE_FILE@) == Ok::<
                Seq<char>,
                PlaceError,
            >(path@),
            Err(e) => file_in(source_url@, found, SNAPSHOT_STATE_FILE@) is Err && e
                == MigratableError::MigrateSend(
                file_in(source_url@, found, SNAPSHOT_STATE_FILE@)->Err_0,
            ),
        },
{
    snapshot_file(source_url, found, SNAPSHOT_STATE_FILE)
}

/// The file from which the list of changed memory is read.
pub fn recv_vm_dirty_log(source_url: &str, found: FileKind) -> (r: Result<String, MigratableError>)
    ensures
        match r {
            Ok(path) => file_in(source_url@, found, DIRYT_LOG_FILE@) == Ok::<Seq<char>, PlaceError>(
                path@,
            ),
            Err(e) => file_in(source_url@, found, DIRYT_LOG_FILE@) is Err && e
                == MigratableError::MigrateSend(
                file_in(source_url@, found, DIRYT_LOG_FILE@)->Err_0,
            ),
        },
{
    snapshot_file(source_url, found, DIRYT_LOG_FILE)
}

/// What was read and understood of a file, or that it could not be.
pub fn received<T, E>(read: Result<T, E>) -> (r: Result<T, MigratableError>)
    ensures
        match read {
            Ok(value) => r == Ok::<T, MigratableError>(value),
            Err(_) => r == Err::<T, MigratableError>(MigratableError::MigrateReceive),
        },
{
    match read {
        Ok(value) => Ok(value),
        Err(_) => Err(MigratableError::MigrateReceive),
    }
}

/// The virtual machine's own section of a snapshot; it fails where there is none.
pub fn get_vm_snapshot<D>(snapshot_data: Option<D>) -> (r: Result<D, MigratableError>)
    ensures
        match snapshot_data {
            Some(data) => r == Ok::<D, MigratableError>(data),
            None => r == Err::<D, MigratableError>(MigratableError::Restore),
        },
{
    match snapshot_data {
        Some(data) => Ok(data),
        None => Err(MigratableError::Restore),
    }
}

/// The path in the URL made of a path is that path.
pub proof fn law_file_url_round_trip(path: Seq<char>)
    ensures
        after_prefix(FILE_URL_PREFIX@ + path, FILE_URL_PREFIX@) == Some(path),
{
    let url = FILE_URL_PREFIX@ + path;
    assert(url.subrange(0, FILE_URL_PREFIX@.len() as int) =~= FILE_URL_PREFIX@);
    assert(url.skip(FILE_URL_PREFIX@.len() as int) =~= path);
}

/// A memory blob can be given by its path or by its URL, with the same outcome.
pub proof fn law_blob_path_or_url(path: Seq<char>, found: FileKind)
    requires
        !occurs_in(SCHEME_SEPARATOR@, path),
    ensures
        blob_of(path, found) == blob_of(FILE_URL_PREFIX@ + path, found),
{
    law_file_url_round_trip(path);
    reveal_strlit("file://");
    reveal_strlit("://");
    if FILE_URL_PREFIX@.is_prefix_of(path) {
        let head = path.subrange(0, FILE_URL_PREFIX@.len() as int);
        assert(path.subrange(4, 7) =~= head.subrange(4, 7));
        assert(head.subrange(4, 7) =~= SCHEME_SEPARATOR@);
        assert(occurs_at(SCHEME_SEPARATOR@, path, 4));
    }
}

/// Only an absolute path is ever accepted for a memory blob, and only of a file or a block device.
pub proof fn law_blob_is_absolute_file(input: Seq<char>, found: FileKind)
    ensures
        blob_of(input, found) matches Ok(path) ==> is_absolute(path) && (found
            == FileKind::RegularFile || found == FileKind::BlockDevice),
{
}

/// The path behind a file URL is the rest of it, and only a path that is a directory can be written
/// to.
pub proof fn law_directory_behind_url(url: &str, found: FileKind, r: Result<String, MigratableError>)
    requires
        call_ensures(url_to_path, (url, found), r),
    ensures
        r is Ok <==> "file://"@.is_prefix_of(url@) && found == FileKind::Directory,
        r matches Ok(path) ==> url@ == "file://"@ + path@,
        r matches Err(e) ==> e == MigratableError::MigrateSend(
            if "file://"@.is_prefix_of(url@) {
                PlaceError::NotDirectory
            } else {
                PlaceError::NotFileUrl
            },
        ),
{
    if let Ok(path) = r {
        crate::text::law_prefix_taken_off(url@, FILE_URL_PREFIX@, path@);
    }
}

/// A memory blob is named by a path or a file URL, and no other URL. Either way its path is
/// absolute.
pub proof fn law_blob_named_by_path_or_url(input: &str, r: Result<&str, MigratableError>)
    requires
        call_ensures(memory_blob_location, (input,), r),
    ensures
        ({
            let url = "file://"@.is_prefix_of(input@);
            let other = !url && occurs_in("://"@, input@);
            &&& other <==> r == Err::<&str, MigratableError>(
                MigratableError::MigrateSend(PlaceError::UnsupportedScheme),
            )
            &&& r matches Ok(path) ==> {
                &&& path@.len() > 0 && path@[0] == '/'
                &&& url ==> input@ == "file://"@ + path@
                &&& !url ==> input@ == path@
            }
            &&& r matches Err(e) ==> e == MigratableError::MigrateSend(
                PlaceError::UnsupportedScheme,
            ) || e == MigratableError::MigrateSend(PlaceError::NotAbsolute)
            &&& !url && !other ==> (r is Ok <==> input@.len() > 0 && input@[0] == '/')
            &&& url ==> (r is Ok <==> input@.len() > 7 && input@[7] == '/')
        }),
{
    reveal_strlit("file://");
    if "file://"@.is_prefix_of(input@) {
        let rest = input@.skip(7);
        crate::text::law_prefix_taken_off(input@, FILE_URL_PREFIX@, rest);
        assert(rest.len() > 0 ==> rest[0] == input@[7]);
        assert(after_prefix(input@, FILE_URL_PREFIX@) == Some(rest));
    }
}

/// A memory blob is an existing regular file or block device at the path that it is named by; a
/// wrong name is told before what is found there.
pub proof fn law_blob_is_file_or_device(
    input: &str,
    found: FileKind,
    named: Result<&str, MigratableError>,
    r: Result<String, MigratableError>,
)
    requires
        call_ensures(memory_blob_location, (input,), named),
        call_ensures(memory_blob_to_path, (input, found), r),
    ensures
        r is Ok <==> named is Ok && (found == FileKind::RegularFile || found
            == FileKind::BlockDevice),
        r matches Ok(path) ==> (named matches Ok(p) && path@ == p@),
        named matches Err(e) ==> r == Err::<String, MigratableError>(e),
        named is Ok ==> {
            &&& found == FileKind::Missing <==> r == Err::<String, MigratableError>(
                MigratableError::MigrateSend(PlaceError::StatFailed),
            )
            &&& found == FileKind::Directory <==> r == Err::<String, MigratableError>(
                MigratableError::MigrateSend(PlaceError::IsDirectory),
            )
            &&& found == FileKind::Other <==> r == Err::<String, MigratableError>(
                MigratableError::MigrateSend(PlaceError::NotFileOrBlockDevice),
            )
        },
{
}

/// The file behind a file URL is the rest of it, whatever is there; any other URL is refused.
pub proof fn law_file_behind_url(
    url: &str,
    r: Result<String, GuestDebuggableError>,
    path: Option<&str>,
)
    requires
        call_ensures(url_to_file, (url,), r),
        call_ensures(file_url_path, (url,), path),
    ensures
        r is Ok <==> "file://"@.is_prefix_of(url@),
        r matches Ok(file) ==> url@ == "file://"@ + file@,
        r matches Err(e) ==> e == GuestDebuggableError::Coredump,
        path is Some <==> r is Ok,
        path matches Some(p) ==> url@ == "file://"@ + p@,
{
    if let Ok(file) = r {
        crate::text::law_prefix_taken_off(url@, FILE_URL_PREFIX@, file@);
    }
    if let Some(p) = path {
        crate::text::law_prefix_taken_off(url@, FILE_URL_PREFIX@, p@);
    }
}

/// What is received lies in the directory behind the URL: the configuration, the state and the
/// record of changed memory, each in its own file. Where the directory is refused, so is each.
pub proof fn law_received_from_directory(
    url: &str,
    found: FileKind,
    dir: Result<String, MigratableError>,
    config: Result<String, MigratableError>,
    state: Result<String, MigratableError>,
    log: Result<String, MigratableError>,
)
    requires
        call_ensures(url_to_path, (url, found), dir),
        call_ensures(recv_vm_config, (url, found), config),
        call_ensures(recv_vm_state, (url, found), state),
        call_ensures(recv_vm_dirty_log, (url, found), log),
    ensures
        dir matches Ok(d) ==> {
            &&& config matches Ok(p) && p@ == path_join(d@, "config.json"@)
            &&& state matches Ok(p) && p@ == path_join(d@, "state.json"@)
            &&& log matches Ok(p) && p@ == path_join(d@, "dirty-log.json"@)
        },
        dir matches Err(e) ==> {
            &&& config == Err::<String, MigratableError>(e)
            &&& state == Err::<String, MigratableError>(e)
            &&& log == Err::<String, MigratableError>(e)
        },
{
}

/// What could be read is received as it is, and any failure to read is a failure to receive. Data
/// that is there is restored from, and without it there is nothing to restore.
pub proof fn law_received_as_read<T, E, D>(
    read: Result<T, E>,
    r: Result<T, MigratableError>,
    data: Option<D>,
    restored: Result<D, MigratableError>,
)
    requires
        call_ensures(received::<T, E>, (read,), r),
        call_ensures(get_vm_snapshot::<D>, (data,), restored),
    ensures
        r is Ok <==> read is Ok,
        read matches Ok(value) ==> r == Ok::<T, MigratableError>(value),
        r matches Err(e) ==> e == MigratableError::MigrateReceive,
        restored is Ok <==> data is Some,
        data matches Some(value) ==> restored == Ok::<D, MigratableError>(value),
        restored matches Err(e) ==> e == MigratableError::Restore,
{
}

/// Every [`PlaceError`] is told in its own words.
pub proof fn law_place_error_in_words(e: PlaceError, r: &'static str)
    requires
        call_ensures(PlaceError::message, (&e,), r),
    ensures
        e is NotFileUrl ==> r@ == "Could not extract path from URL"@,
        e is NotDirectory ==> r@ == "Destination is not a directory"@,
        e is UnsupportedScheme ==> r@ == "Unsupported memory blob URL scheme"@,
        e is NotAbsolute ==> r@ == "Memory blob path must be absolute"@,
        e is StatFailed ==> r@ == "Failed to stat memory blob path"@,
        e is IsDirectory ==> r@ == "Memory blob path must not be a directory"@,
        e is NotFileOrBlockDevice ==> r@ == "Memory blob path must point to an existing regular file or block device"@,
{
}

} // verus!
