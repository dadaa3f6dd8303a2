//! The directory of an OSD on the host and the artifacts this backend writes
//! into it: the `fsid` marker, the activation map, the keyring, the links to
//! the data volume and the journal; and the entry of the persistent mount
//! table for an OSD of the legacy layout.
use crate::error::{error_view, ErrorKind, OsdError};
use crate::ident::{hyphenated_text, Uuid};
use crate::text::{
    decimal_string, decimal_text, parse_u64, same_text, split, split_text, texts_of, trim, trimmed,
    u64_text_value,
};
use vstd::prelude::*;
use vstd::string::*;

verus! {

/// The directory under which every OSD of the host has its own.
pub open spec fn osd_root_text() -> Seq<char> {
    "/var/lib/ceph/osd"@
}

/// The directory of the OSD with the given number.
pub open spec fn mount_point_text(osd_id: u64) -> Seq<char> {
    "/var/lib/ceph/osd/ceph-"@ + decimal_text(osd_id as nat)
}

/// The directory under which every OSD of the host has its own.
pub fn osd_root() -> (path: &'static str)
    ensures
        path@ == osd_root_text(),
{
    "/var/lib/ceph/osd"
}

/// The directory of the OSD with the given number.
pub fn mount_point(osd_id: u64) -> (path: String)
    ensures
        path@ == mount_point_text(osd_id),
{
    let digits = decimal_string(osd_id);
    let mut path = String::from_str("/var/lib/ceph/osd/ceph-");
    path.append(digits.as_str());
    path
}

/// An artifact inside the directory of an OSD.
#[derive(Clone, Copy, Debug, PartialEq, Eq, Structural)]
pub enum Artifact {
    /// The marker file that holds the instance identifier.
    Fsid,
    /// The cluster membership map that the OSD is activated with.
    ActivateMonmap,
    /// The file that holds the OSD's authorization key.
    Keyring,
    /// The link to the logical volume that holds the data.
    Block,
    /// The link to the journal.
    BlockWal,
    /// The marker file that holds the OSD's number.
    Whoami,
    /// The marker file that names the layout.
    Type,
}

/// The file name of an artifact.
pub open spec fn artifact_name(artifact: Artifact) -> Seq<char> {
    match artifact {
        Artifact::Fsid => "fsid"@,
        Artifact::ActivateMonmap => "activate.monmap"@,
        Artifact::Keyring => "keyring"@,
        Artifact::Block => "block"@,
        Artifact::BlockWal => "block.wal"@,
        Artifact::Whoami => "whoami"@,
        Artifact::Type => "type"@,
    }
}

/// The path of an artifact inside a directory.
pub open spec fn artifact_path_text(dir: Seq<char>, artifact: Artifact) -> Seq<char> {
    dir + "/"@ + artifact_name(artifact)
}

/// The path of an artifact inside the directory `dir`.
pub fn artifact_path(dir: &str, artifact: Artifact) -> (path: String)
    ensures
        path@ == artifact_path_text(dir@, artifact),
{
    let name = match artifact {
        Artifact::Fsid => "fsid",
        Artifact::ActivateMonmap => "activate.monmap",
        Artifact::Keyring => "keyring",
        Artifact::Block => "block",
        Artifact::BlockWal => "block.wal",
        Artifact::Whoami => "whoami",
        Artifact::Type => "type",
    };
    let mut path = String::from_str(dir);
    path.append("/");
    path.append(name);
    path
}

/// What the `fsid` marker file holds: the hyphenated identifier and a line
/// end.
pub open spec fn fsid_contents_text(osd_fsid: Uuid) -> Seq<char> {
    hyphenated_text(osd_fsid.bits) + "\n"@
}

/// What the `fsid` marker file of an OSD holds.
pub fn fsid_contents(osd_fsid: &Uuid) -> (contents: String)
    ensures
        contents@ == fsid_contents_text(*osd_fsid),
{
    let mut contents = osd_fsid.to_hyphenated_string();
    contents.append("\n");
    contents
}

/// What the keyring file of an OSD holds: a section named after the OSD and
/// its key.
pub open spec fn keyring_contents_text(osd_id: u64, key: Seq<char>) -> Seq<char> {
    "[osd."@ + decimal_text(osd_id as nat) + "]\n\tkey = "@ + key + "\n"@
}

/// What the keyring file of an OSD holds.
pub fn keyring_contents(osd_id: u64, key: &str) -> (contents: String)
    ensures
        contents@ == keyring_contents_text(osd_id, key@),
{
    let digits = decimal_string(osd_id);
    let mut contents = String::from_str("[osd.");
    contents.append(digits.as_str());
    contents.append("]\n\tkey = ");
    contents.append(key);
    contents.append("\n");
    contents
}

/// The keyring file to write for an OSD.
#[derive(Clone, Debug, PartialEq, Eq)]
pub struct KeyringFile {
    pub path: String,
    pub contents: String,
    /// The owner to give the file, where it is to change.
    pub uid: Option<u32>,
    /// The group to give the file, where it is to change.
    pub gid: Option<u32>,
}

/// The message of the error for an OSD whose directory does not exist.
pub open spec fn missing_directory_message(dir: Seq<char>) -> Seq<char> {
    dir + " directory doesn't exist"@
}

/// The keyring file to write for an OSD, or `None` where nothing is to be
/// written because the call only simulates. The directory of the OSD must
/// exist in either case.
pub fn save_keyring(
    osd_id: u64,
    key: &str,
    uid: Option<u32>,
    gid: Option<u32>,
    directory_exists: bool,
    simulate: bool,
) -> (r: Result<Option<KeyringFile>, OsdError>)
    ensures
        !directory_exists ==> r is Err && r->Err_0@ == error_view(
            ErrorKind::NotFound,
            missing_directory_message(mount_point_text(osd_id)),
        ),
        directory_exists && simulate ==> r is Ok && r->Ok_0 is None,
        directory_exists && !simulate ==> {
            &&& r matches Ok(Some(file))
            &&& file.path@ == artifact_path_text(mount_point_text(osd_id), Artifact::Keyring)
            &&& file.contents@ == keyring_contents_text(osd_id, key@)
            &&& file.uid == uid
            &&& file.gid == gid
        },
{
    let base_dir = mount_point(osd_id);
    if !directory_exists {
        let mut message = base_dir;
        message.append(" directory doesn't exist");
        return Err(OsdError::new(ErrorKind::NotFound, message));
    }
    if simulate {
        return Ok(None);
    }
    Ok(
        Some(
            KeyringFile {
                path: artifact_path(base_dir.as_str(), Artifact::Keyring),
                contents: keyring_contents(osd_id, key),
                uid,
                gid,
            },
        ),
    )
}

/// An entry of the persistent mount table.
#[derive(Clone, Debug, PartialEq, Eq)]
pub struct FsEntry {
    /// The device, here by the identifier of its filesystem.
    pub fs_spec: String,
    /// Where the device is mounted.
    pub mountpoint: String,
    /// The type of the filesystem.
    pub vfs_type: String,
    /// The options to mount it with.
    pub mount_options: Vec<String>,
    /// Whether the filesystem is dumped.
    pub dump: bool,
    /// Its place in the order of filesystem checks at boot.
    pub fsck_order: u16,
}

/// The options that the filesystem of an OSD is mounted with.
pub open spec fn osd_mount_options() -> Seq<Seq<char>> {
    seq!["noatime"@, "inode64"@, "attr2"@, "logbsize=256k"@, "noquota"@]
}

/// The mount-table entry for the OSD `osd_id` on the filesystem with
/// identifier `fs_uuid`: by identifier, into the OSD's directory, with fixed
/// options, not dumped, checked after the root filesystem.
pub fn fstab_entry(fs_uuid: &Uuid, fs_type: &str, osd_id: u64) -> (entry: FsEntry)
    ensures
        entry.fs_spec@ == "UUID="@ + hyphenated_text(fs_uuid.bits),
        entry.mountpoint@ == mount_point_text(osd_id),
        entry.vfs_type@ == fs_type@,
        texts_of(entry.mount_options@) == osd_mount_options(),
        !entry.dump,
        entry.fsck_order == 2,
{
    let id_text = fs_uuid.to_hyphenated_string();
    let mut fs_spec = String::from_str("UUID=");
    fs_spec.append(id_text.as_str());
    let mut mount_options: Vec<String> = Vec::new();
    mount_options.push(String::from_str("noatime"));
    mount_options.push(String::from_str("inode64"));
    mount_options.push(String::from_str("attr2"));
    mount_options.push(String::from_str("logbsize=256k"));
    mount_options.push(String::from_str("noquota"));
    assert(texts_of(mount_options@) =~= osd_mount_options());
    FsEntry {
        fs_spec,
        mountpoint: mount_point(osd_id),
        vfs_type: String::from_str(fs_type),
        mount_options,
        dump: false,
        fsck_order: 2,
    }
}

/// The message of the error for a formatted device without a filesystem
/// identifier.
pub open spec fn missing_fs_uuid_message(device: Seq<char>) -> Seq<char> {
    "Formatted device "@ + device + " doesn't have a filesystem UUID.  Please investigate"@
}

/// The mount-table entry for a new OSD of the legacy layout, and whether it
/// is to be written: it is not where the call only simulates. A device whose
/// filesystem has no identifier cannot be entered.
pub fn add_osd_to_fstab(
    device: &str,
    fs_uuid: Option<Uuid>,
    fs_type: &str,
    osd_id: u64,
    simulate: bool,
) -> (r: Result<(FsEntry, bool), OsdError>)
    ensures
        match fs_uuid {
            Some(id) => {
                &&& r matches Ok((entry, write))
                &&& write == !simulate
                &&& entry.fs_spec@ == "UUID="@ + hyphenated_text(id.bits)
                &&& entry.mountpoint@ == mount_point_text(osd_id)
                &&& entry.vfs_type@ == fs_type@
                &&& texts_of(entry.mount_options@) == osd_mount_options()
                &&& !entry.dump
                &&& entry.fsck_order == 2
            },
            None => r is Err && r->Err_0@ == error_view(
                ErrorKind::StateInconsistency,
                missing_fs_uuid_message(device@),
            ),
        },
{
    match fs_uuid {
        Some(id) => Ok((fstab_entry(&id, fs_type, osd_id), !simulate)),
        None => {
            let mut message = String::from_str("Formatted device ");
            message.append(device);
            message.append(" doesn't have a filesystem UUID.  Please investigate");
            Err(OsdError::new(ErrorKind::StateInconsistency, message))
        },
    }
}

/// Whether the contents of a `type` marker file name the legacy layout: they
/// do where they are `filestore`, white space around it aside. A directory
/// without the marker does not.
pub fn is_filestore(type_contents: Option<&str>) -> (legacy: bool)
    ensures
        legacy == (type_contents matches Some(c) && trimmed(c@) == "filestore"@),
{
    match type_contents {
        Some(c) => same_text(trim(c), "filestore"),
        None => false,
    }
}

/// Where the number of an OSD was found.
#[derive(Clone, Copy, Debug, PartialEq, Eq, Structural)]
pub enum IdSource {
    /// The `whoami` marker file of the OSD's directory.
    Marker,
    /// The name of the directory, which holds the number only by
    /// convention. A number from here is a best guess.
    DirectoryName,
    /// Nothing was read, because the call only simulates.
    Simulated,
}

/// The message of the error for a `whoami` marker that holds no number.
pub open spec fn invalid_whoami_message(contents: Seq<char>) -> Seq<char> {
    "invalid osd id in whoami: "@ + contents
}

/// The number that a `whoami` marker holds: its contents without the white
/// space around them, read as an unsigned number.
pub open spec fn whoami_value(contents: Seq<char>) -> Option<u64> {
    u64_text_value(trimmed(contents))
}

/// The number of an OSD from the contents of its `whoami` marker. A call
/// that only simulates gives 0 whatever the contents.
pub fn get_osd_id(whoami: &str, simulate: bool) -> (r: Result<u64, OsdError>)
    ensures
        simulate ==> r == Ok::<u64, OsdError>(0),
        !simulate ==> match whoami_value(whoami@) {
            Some(id) => r == Ok::<u64, OsdError>(id),
            None => r is Err && r->Err_0@ == error_view(
                ErrorKind::ParseFailure,
                invalid_whoami_message(whoami@),
            ),
        },
{
    if simulate {
        return Ok(0);
    }
    match parse_u64(trim(whoami)) {
        Some(id) => Ok(id),
        None => {
            let mut message = String::from_str("invalid osd id in whoami: ");
            message.append(whoami);
            Err(OsdError::new(ErrorKind::ParseFailure, message))
        },
    }
}

/// The message of the error for a path without a final name.
pub open spec fn no_file_name_message(path: Seq<char>) -> Seq<char> {
    "Unable to get filename from "@ + path
}

/// The message of the error for a directory name that holds no number.
pub open spec fn no_id_in_name_message(name: Seq<char>) -> Seq<char> {
    "Unable to get osd id from directory name "@ + name
}

/// The number that the name of an OSD's directory holds by convention: what
/// stands between its first hyphen and its second, or its end.
pub open spec fn directory_name_value(name: Seq<char>) -> Option<u64> {
    let fields = split_text(name, '-');
    if fields.len() > 1 {
        u64_text_value(fields[1])
    } else {
        None
    }
}

/// The number of an OSD from the path of its directory, whose final name is
/// `file_name`. A fallback for a directory without a readable marker.
pub fn get_osd_id_from_path(path: &str, file_name: Option<&str>) -> (r: Result<u64, OsdError>)
    ensures
        match file_name {
            None => r is Err && r->Err_0@ == error_view(
                ErrorKind::NotFound,
                no_file_name_message(path@),
            ),
            Some(name) => match directory_name_value(name@) {
                Some(id) => r == Ok::<u64, OsdError>(id),
                None => r is Err && r->Err_0@ == error_view(
                    ErrorKind::ParseFailure,
                    no_id_in_name_message(name@),
                ),
            },
        },
{
    let name = match file_name {
        Some(name) => name,
        None => {
            let mut message = String::from_str("Unable to get filename from ");
            message.append(path);
            return Err(OsdError::new(ErrorKind::NotFound, message));
        },
    };
    let fields = split(name, '-');
    let id = if fields.len() > 1 {
        parse_u64(fields[1].as_str())
    } else {
        None
    };
    match id {
        Some(id) => Ok(id),
        None => {
            let mut message = String::from_str("Unable to get osd id from directory name ");
            message.append(name);
            Err(OsdError::new(ErrorKind::ParseFailure, message))
        },
    }
}

/// The number of the OSD mounted at `path`, and where it was found: in the
/// `whoami` marker where that could be read and holds a number, else in the
/// name of the directory. A call that only simulates reads nothing and
/// gives 0.
pub fn discover_osd_id(
    path: &str,
    file_name: Option<&str>,
    whoami: Option<&str>,
    simulate: bool,
) -> (r: Result<(u64, IdSource), OsdError>)
    ensures
        simulate ==> r == Ok::<(u64, IdSource), OsdError>((0, IdSource::Simulated)),
        !simulate && (whoami matches Some(w) && whoami_value(w@) is Some) ==> r == Ok::<
            (u64, IdSource),
            OsdError,
        >((whoami_value(whoami->0@)->0, IdSource::Marker)),
        !simulate && !(whoami matches Some(w) && whoami_value(w@) is Some) ==> match file_name {
            None => r is Err && r->Err_0@ == error_view(
                ErrorKind::NotFound,
                no_file_name_message(path@),
            ),
            Some(name) => match directory_name_value(name@) {
                Some(id) => r == Ok::<(u64, IdSource), OsdError>((id, IdSource::DirectoryName)),
                None => r is Err && r->Err_0@ == error_view(
                    ErrorKind::ParseFailure,
                    no_id_in_name_message(name@),
                ),
            },
        },
{
    if simulate {
        return Ok((0, IdSource::Simulated));
    }
    match whoami {
        Some(w) => match get_osd_id(w, false) {
            Ok(id) => {
                return Ok((id, IdSource::Marker));
            },
            Err(_) => {},
        },
        None => {},
    }
    match get_osd_id_from_path(path, file_name) {
        Ok(id) => Ok((id, IdSource::DirectoryName)),
        Err(e) => Err(e),
    }
}

} // verus!
