//! What each step of adding and of removing a disk works with: the paths,
//! the file contents, the command lines and the fixed settings, for the OSD
//! that the operation is about.
use crate::backend::{capacity_units, Layout, CAPACITY_UNIT};
use crate::error::{error_view, ErrorKind, OsdError, OsdErrorView};
use crate::ident::hyphenated_text;
use crate::osd_dir::{
    add_osd_to_fstab, artifact_path, artifact_path_text, fsid_contents, fsid_contents_text,
    keyring_contents_text, missing_directory_message, missing_fs_uuid_message, mount_point,
    mount_point_text, osd_mount_options, save_keyring, Artifact, FsEntry, KeyringFile,
};
use crate::provision::{capacity_of, AddOsd, AddOsdView};
use crate::removal::RemoveOsd;
use crate::service::{
    ceph_bluestore_tool, ceph_mkfs, mkfs_args, setup_osd_init, start_command,
    systemctl_disable, systemctl_enable, systemctl_stop, volume_unit_text, Daemon, Invocation,
    InvocationView,
};
use crate::text::{decimal_text, texts_of};
use vstd::prelude::*;
use vstd::string::*;

verus! {

/// The account that the services of the storage engine run as, which is also
/// the name of its group.
pub fn service_account() -> (name: &'static str)
    ensures
        name@ == "ceph"@,
{
    "ceph"
}

/// The settings with which a filesystem is made.
#[derive(Clone, Copy, Debug, PartialEq, Eq, Structural)]
pub struct XfsOptions {
    pub stripe_size: Option<u64>,
    pub stripe_width: Option<u64>,
    pub block_size: Option<u64>,
    /// The number of allocation groups.
    pub agcount: Option<u64>,
    /// The size of an inode in bytes.
    pub inode_size: Option<u64>,
    /// Whether a filesystem that is already there is overwritten.
    pub force: bool,
}

/// The settings with which the device of an OSD of the legacy layout is
/// formatted: 32 allocation groups, inodes of 2048 bytes, and whatever is on
/// the device is overwritten.
pub fn osd_filesystem() -> (options: XfsOptions)
    ensures
        options == (XfsOptions {
            stripe_size: None,
            stripe_width: None,
            block_size: None,
            agcount: Some(32),
            inode_size: Some(2048),
            force: true,
        }),
{
    XfsOptions {
        stripe_size: None,
        stripe_width: None,
        block_size: None,
        agcount: Some(32),
        inode_size: Some(2048),
        force: true,
    }
}

/// The owner and group that the keyring of an OSD is given: the
/// superuser's in the modern layout, those it has in the legacy one.
pub fn keyring_owner(layout: Layout) -> (id: Option<u32>)
    ensures
        id == match layout {
            Layout::Bluestore => Some(0u32),
            Layout::Filestore => None,
        },
{
    match layout {
        Layout::Bluestore => Some(0),
        Layout::Filestore => None,
    }
}

/// The message of the error for a step that needs the number of the OSD
/// before the cluster has allocated one.
pub open spec fn no_id_message() -> Seq<char> {
    "no osd id has been allocated"@
}

fn no_id() -> (e: OsdError)
    ensures
        e@ == error_view(ErrorKind::StateInconsistency, no_id_message()),
{
    OsdError::new(ErrorKind::StateInconsistency, String::from_str("no osd id has been allocated"))
}

/// A path and what is to be written to it.
#[derive(Clone, Debug, PartialEq, Eq)]
pub struct FileToWrite {
    pub path: String,
    pub contents: String,
}

/// A symbolic link to make.
#[derive(Clone, Debug, PartialEq, Eq)]
pub struct LinkToMake {
    /// What the link leads to.
    pub target: String,
    /// Where the link stands.
    pub link: String,
}

/// The `fsid` marker of the OSD that is being added: in its directory, with
/// its instance identifier. `None` before the number of the OSD is
/// allocated.
pub fn fsid_file(state: &AddOsd) -> (file: Option<FileToWrite>)
    ensures
        match state@.osd_id {
            Some(id) => file matches Some(f) && f.path@ == artifact_path_text(
                mount_point_text(id),
                Artifact::Fsid,
            ) && f.contents@ == fsid_contents_text(state@.osd_fsid),
            None => file is None,
        },
{
    match state.osd_id() {
        Some(id) => {
            let dir = mount_point(id);
            Some(
                FileToWrite {
                    path: artifact_path(dir.as_str(), Artifact::Fsid),
                    contents: fsid_contents(&state.osd_fsid()),
                },
            )
        },
        None => None,
    }
}

/// The link from the directory of the OSD to its data volume. `None` before
/// the number of the OSD is allocated.
pub fn block_link(state: &AddOsd) -> (link: Option<LinkToMake>)
    ensures
        match state@.osd_id {
            Some(id) => link matches Some(l) && l.target@ == state@.lv_dev_name && l.link@
                == artifact_path_text(mount_point_text(id), Artifact::Block),
            None => link is None,
        },
{
    match state.osd_id() {
        Some(id) => {
            let dir = mount_point(id);
            Some(
                LinkToMake {
                    target: state.volume_plan().lv_dev_name.clone(),
                    link: artifact_path(dir.as_str(), Artifact::Block),
                },
            )
        },
        None => None,
    }
}

/// The link from the directory of the OSD to its journal, for an OSD that
/// has one. The journal is also what is handed to the service account.
pub fn wal_link(state: &AddOsd) -> (link: Option<LinkToMake>)
    ensures
        match (state@.osd_id, state@.journal) {
            (Some(id), Some(journal)) => link matches Some(l) && l.target@ == journal.text()
                && l.link@ == artifact_path_text(mount_point_text(id), Artifact::BlockWal),
            _ => link is None,
        },
{
    match (state.osd_id(), state.journal()) {
        (Some(id), Some(journal)) => {
            let dir = mount_point(id);
            Some(
                LinkToMake {
                    target: journal.to_string(),
                    link: artifact_path(dir.as_str(), Artifact::BlockWal),
                },
            )
        },
        _ => None,
    }
}

/// Where the cluster's membership map is written for the OSD. `None` before
/// the number of the OSD is allocated.
pub fn monmap_path(state: &AddOsd) -> (path: Option<String>)
    ensures
        match state@.osd_id {
            Some(id) => path matches Some(p) && p@ == artifact_path_text(
                mount_point_text(id),
                Artifact::ActivateMonmap,
            ),
            None => path is None,
        },
{
    match state.osd_id() {
        Some(id) => {
            let dir = mount_point(id);
            Some(artifact_path(dir.as_str(), Artifact::ActivateMonmap))
        },
        None => None,
    }
}

/// What in the directory of the OSD is handed to the service account,
/// besides the device behind the data volume: the membership map, the
/// directory itself, and the `fsid` marker.
pub open spec fn owned_artifacts_of(osd_id: u64) -> Seq<Seq<char>> {
    seq![
        artifact_path_text(mount_point_text(osd_id), Artifact::ActivateMonmap),
        mount_point_text(osd_id),
        artifact_path_text(mount_point_text(osd_id), Artifact::Fsid),
    ]
}

/// What in the directory of the OSD is handed to the service account.
/// Empty before the number of the OSD is allocated.
pub fn owned_artifacts(state: &AddOsd) -> (paths: Vec<String>)
    ensures
        match state@.osd_id {
            Some(id) => texts_of(paths@) == owned_artifacts_of(id),
            None => paths.len() == 0,
        },
{
    let mut paths: Vec<String> = Vec::new();
    match state.osd_id() {
        Some(id) => {
            let dir = mount_point(id);
            paths.push(artifact_path(dir.as_str(), Artifact::ActivateMonmap));
            paths.push(mount_point(id));
            paths.push(artifact_path(dir.as_str(), Artifact::Fsid));
            assert(texts_of(paths@) =~= owned_artifacts_of(id));
        },
        None => {},
    }
    paths
}

/// The keyring to write for the OSD that is being added, whose key the
/// cluster gave as `key`; `None` where the operation simulates. The
/// directory of the OSD must exist, and the number of the OSD must be
/// allocated.
pub fn keyring(state: &AddOsd, key: &str, directory_exists: bool) -> (r: Result<
    Option<KeyringFile>,
    OsdError,
>)
    ensures
        match state@.osd_id {
            None => r is Err && r->Err_0@ == error_view(
                ErrorKind::StateInconsistency,
                no_id_message(),
            ),
            Some(id) => {
                &&& !directory_exists ==> r is Err && r->Err_0@ == error_view(
                    ErrorKind::NotFound,
                    missing_directory_message(mount_point_text(id)),
                )
                &&& directory_exists && state@.simulate ==> r is Ok && r->Ok_0 is None
                &&& directory_exists && !state@.simulate ==> {
                    &&& r matches Ok(Some(file))
                    &&& file.path@ == artifact_path_text(mount_point_text(id), Artifact::Keyring)
                    &&& file.contents@ == keyring_contents_text(id, key@)
                    &&& file.uid == (match state@.layout {
                        Layout::Bluestore => Some(0u32),
                        Layout::Filestore => None,
                    })
                    &&& file.gid == file.uid
                }
            },
        },
{
    match state.osd_id() {
        None => Err(no_id()),
        Some(id) => {
            let owner = keyring_owner(state.layout());
            save_keyring(id, key, owner, owner, directory_exists, state.simulate())
        },
    }
}

/// The command that makes the filesystem of the OSD that is being added. In
/// the modern layout it names the membership map, the directory, the
/// instance identifier and the service account; in the legacy layout the
/// engine's defaults stand.
pub open spec fn mkfs_command_of(state: AddOsdView) -> Option<InvocationView> {
    match state.osd_id {
        None => None,
        Some(id) => {
            let journal = match state.journal {
                Some(j) => Some(j.text()),
                None => None,
            };
            let dir = mount_point_text(id);
            Some(
                InvocationView {
                    program: "ceph-osd"@,
                    args: match state.layout {
                        Layout::Bluestore => mkfs_args(
                            id,
                            journal,
                            true,
                            Some(artifact_path_text(dir, Artifact::ActivateMonmap)),
                            Some(dir),
                            Some(state.osd_fsid),
                            Some("ceph"@),
                            Some("ceph"@),
                        ),
                        Layout::Filestore => mkfs_args(
                            id,
                            journal,
                            false,
                            None,
                            None,
                            None,
                            None,
                            None,
                        ),
                    },
                    run: !state.simulate,
                },
            )
        },
    }
}

/// The content of an optional command.
pub open spec fn command_view(command: Option<Invocation>) -> Option<InvocationView> {
    match command {
        Some(c) => Some(c@),
        None => None,
    }
}

/// The command that makes the filesystem of the OSD that is being added.
/// `None` before the number of the OSD is allocated.
pub fn mkfs_command(state: &AddOsd) -> (command: Option<Invocation>)
    ensures
        command_view(command) == mkfs_command_of(state@),
{
    match state.osd_id() {
        None => None,
        Some(id) => {
            let dir = mount_point(id);
            match state.layout() {
                Layout::Bluestore => {
                    let monmap = artifact_path(dir.as_str(), Artifact::ActivateMonmap);
                    let fsid = state.osd_fsid();
                    Some(
                        ceph_mkfs(
                            id,
                            state.journal(),
                            true,
                            Some(monmap.as_str()),
                            Some(dir.as_str()),
                            Some(&fsid),
                            Some(service_account()),
                            Some(service_account()),
                            state.simulate(),
                        ),
                    )
                },
                Layout::Filestore => Some(
                    ceph_mkfs(
                        id,
                        state.journal(),
                        false,
                        None,
                        None,
                        None,
                        None,
                        None,
                        state.simulate(),
                    ),
                ),
            }
        },
    }
}

/// The command that primes the data volume of the OSD that is being added.
/// `None` before the number of the OSD is allocated.
pub fn prime_command(state: &AddOsd) -> (command: Option<Invocation>)
    ensures
        match state@.osd_id {
            Some(id) => command matches Some(c) && c@ == (InvocationView {
                program: "ceph-bluestore-tool"@,
                args: seq![
                    "--cluster=ceph"@,
                    "prime-osd-dir"@,
                    "--dev"@,
                    state@.lv_dev_name,
                    "--path"@,
                    mount_point_text(id),
                ],
                run: !state@.simulate,
            }),
            None => command is None,
        },
{
    match state.osd_id() {
        Some(id) => {
            let dir = mount_point(id);
            Some(
                ceph_bluestore_tool(
                    state.volume_plan().lv_dev_name.as_str(),
                    dir.as_str(),
                    state.simulate(),
                ),
            )
        },
        None => None,
    }
}

/// The command that has the volume of the OSD brought up at boot. `None`
/// before the number of the OSD is allocated.
pub fn enable_command(state: &AddOsd) -> (command: Option<Invocation>)
    ensures
        match state@.osd_id {
            Some(id) => command matches Some(c) && c@ == (InvocationView {
                program: "systemctl"@,
                args: seq!["enable"@, volume_unit_text(id, state@.osd_fsid)],
                run: !state@.simulate,
            }),
            None => command is None,
        },
{
    match state.osd_id() {
        Some(id) => {
            let fsid = state.osd_fsid();
            Some(systemctl_enable(id, &fsid, state.simulate()))
        },
        None => None,
    }
}

/// The command that starts the service of the OSD under the service manager
/// that runs the host.
pub fn start_service_command(state: &AddOsd, daemon: Daemon) -> (r: Result<Invocation, OsdError>)
    ensures
        match state@.osd_id {
            None => r is Err && r->Err_0@ == error_view(
                ErrorKind::StateInconsistency,
                no_id_message(),
            ),
            Some(id) => match r {
                Ok(command) => start_command(daemon, id, state@.simulate) == Ok::<
                    InvocationView,
                    OsdErrorView,
                >(command@),
                Err(e) => start_command(daemon, id, state@.simulate) == Err::<
                    InvocationView,
                    OsdErrorView,
                >(e@),
            },
        },
{
    match state.osd_id() {
        None => Err(no_id()),
        Some(id) => setup_osd_init(daemon, id, state.simulate()),
    }
}

/// The entry of the OSD in the placement hierarchy: its number, and the
/// capacity in whole units of 2^30 bytes, of which the weight is a
/// thousandth. `None` before the number is allocated and the capacity
/// known.
pub fn placement(state: &AddOsd) -> (entry: Option<(u64, u64)>)
    ensures
        match (state@.osd_id, capacity_of(state@)) {
            (Some(id), Some(bytes)) => entry == Some((id, bytes / CAPACITY_UNIT)),
            _ => entry is None,
        },
{
    match (state.osd_id(), state.capacity()) {
        (Some(id), Some(bytes)) => Some((id, capacity_units(bytes))),
        _ => None,
    }
}

/// The entry of the OSD in the persistent mount table, and whether it is to
/// be written. The number of the OSD must be allocated, and the device
/// probed and found to hold a filesystem with an identifier.
pub fn mount_table_entry(state: &AddOsd) -> (r: Result<(FsEntry, bool), OsdError>)
    ensures
        match (state@.osd_id, state@.info) {
            (Some(id), Some(info)) => match info.fs_uuid {
                Some(fs_uuid) => {
                    &&& r matches Ok((entry, write))
                    &&& write == !state@.simulate
                    &&& entry.fs_spec@ == "UUID="@ + hyphenated_text(fs_uuid.bits)
                    &&& entry.mountpoint@ == mount_point_text(id)
                    &&& entry.vfs_type@ == info.fs_type
                    &&& texts_of(entry.mount_options@) == osd_mount_options()
                    &&& !entry.dump
                    &&& entry.fsck_order == 2
                },
                None => r is Err && r->Err_0@ == error_view(
                    ErrorKind::StateInconsistency,
                    missing_fs_uuid_message(state@.device),
                ),
            },
            _ => r is Err && r->Err_0@ == error_view(
                ErrorKind::StateInconsistency,
                no_id_message(),
            ),
        },
{
    match (state.osd_id(), state.device_info()) {
        (Some(id), Some(info)) => add_osd_to_fstab(
            state.device(),
            info.fs_uuid,
            info.fs_type.as_str(),
            id,
            state.simulate(),
        ),
        _ => Err(no_id()),
    }
}

/// The command that stops the service of the OSD that is being removed.
pub fn stop_command(state: &RemoveOsd) -> (command: Invocation)
    ensures
        command@ == (InvocationView {
            program: "systemctl"@,
            args: seq![
                "stop"@,
                "ceph-osd@"@ + decimal_text(state@.osd_id as nat) + ".service"@,
            ],
            run: !state@.simulate,
        }),
{
    systemctl_stop(state.osd_id(), state.simulate())
}

/// The command that keeps the volume of the OSD that is being removed from
/// being brought up at boot. An OSD of the legacy layout has no such
/// volume.
pub fn disable_command(state: &RemoveOsd) -> (command: Option<Invocation>)
    ensures
        match state@.osd_fsid {
            Some(fsid) => command matches Some(c) && c@ == (InvocationView {
                program: "systemctl"@,
                args: seq!["disable"@, volume_unit_text(state@.osd_id, fsid)],
                run: !state@.simulate,
            }),
            None => command is None,
        },
{
    match state.osd_fsid() {
        Some(fsid) => Some(systemctl_disable(state.osd_id(), &fsid, state.simulate())),
        None => None,
    }
}

/// The directory of the OSD that is being removed.
pub fn removed_mount_point(state: &RemoveOsd) -> (path: String)
    ensures
        path@ == mount_point_text(state@.osd_id),
{
    mount_point(state.osd_id())
}

} // verus!
