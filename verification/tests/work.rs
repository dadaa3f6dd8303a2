use ceph_backend::backend::Layout;
use ceph_backend::error::{ErrorKind, OsdError};
use ceph_backend::ident::Uuid;
use ceph_backend::journal::JournalDevice;
use ceph_backend::osd_dir::{FsEntry, KeyringFile};
use ceph_backend::provision::{AddOsd, AddStep, DeviceInfo, Outcome, Transition};
use ceph_backend::removal::RemoveOsd;
use ceph_backend::service::{Daemon, Invocation};
use ceph_backend::tags::MediaType;
use ceph_backend::volume::VolumeHandle;
use ceph_backend::work::{
    block_link, disable_command, enable_command, fsid_file, keyring, keyring_owner,
    mkfs_command, monmap_path, mount_table_entry, osd_filesystem, owned_artifacts, placement,
    prime_command, removed_mount_point, service_account, start_service_command, stop_command,
    wal_link, FileToWrite, LinkToMake, XfsOptions,
};

const FSID: &str = "936da01f-9abd-4d9d-80c7-02af85c822a8";
const GROUP: &str = "0fc63daf-8483-4772-8e79-3d69d8477de4";
const LV: &str =
    "/dev/ceph-0fc63daf-8483-4772-8e79-3d69d8477de4/osd-block-936da01f-9abd-4d9d-80c7-02af85c822a8";

fn invocation(program: &str, args: &[&str], run: bool) -> Invocation {
    Invocation {
        program: program.to_string(),
        args: args.iter().map(|a| a.to_string()).collect(),
        run,
    }
}

fn journal() -> JournalDevice {
    JournalDevice {
        device: String::from("/dev/sdj"),
        partition_id: Some(2),
        partition_uuid: Some(Uuid::parse(GROUP).unwrap()),
        num_partitions: Some(2),
    }
}

fn answer(step: AddStep, with_journal: bool) -> Outcome {
    match step {
        AddStep::ResolveJournal => Outcome::Journal(if with_journal { Some(journal()) } else { None }),
        AddStep::AllocateId => Outcome::OsdId(5),
        AddStep::ProvisionVolume => Outcome::VolumeSize(3 * 1_073_741_824 + 17),
        AddStep::ProbeDevice => Outcome::Device(DeviceInfo {
            fs_uuid: Some(Uuid::parse(GROUP).unwrap()),
            capacity: 2 * 1_073_741_824 - 1,
            fs_type: String::from("xfs"),
            media: MediaType::Rotational,
        }),
        _ => Outcome::Done,
    }
}

/// The state of an operation that has arrived at `target`.
fn at(layout: Layout, simulate: bool, with_journal: bool, target: AddStep) -> AddOsd {
    let (mut state, mut action) = AddOsd::start(
        layout,
        "/dev/sdz",
        None,
        simulate,
        Uuid::parse(FSID).unwrap(),
        Uuid::parse(GROUP).unwrap(),
    );
    while action.step != target {
        match state.advance(answer(action.step, with_journal)) {
            Transition::Continue(next, then) => {
                state = next;
                action = then;
            }
            other => panic!("{:?} not reached: {:?}", target, other),
        }
    }
    state
}

#[test]
fn fixed_settings() {
    assert_eq!(service_account(), "ceph");
    assert_eq!(
        osd_filesystem(),
        XfsOptions {
            stripe_size: None,
            stripe_width: None,
            block_size: None,
            agcount: Some(32),
            inode_size: Some(2048),
            force: true,
        }
    );
    assert_eq!(keyring_owner(Layout::Bluestore), Some(0));
    assert_eq!(keyring_owner(Layout::Filestore), None);
}

#[test]
fn nothing_is_known_of_the_osd_before_its_number() {
    let state = at(Layout::Bluestore, false, true, AddStep::AllocateId);
    assert_eq!(fsid_file(&state), None);
    assert_eq!(block_link(&state), None);
    assert_eq!(wal_link(&state), None);
    assert_eq!(monmap_path(&state), None);
    assert_eq!(owned_artifacts(&state), Vec::<String>::new());
    assert_eq!(mkfs_command(&state), None);
    assert_eq!(prime_command(&state), None);
    assert_eq!(enable_command(&state), None);
    assert_eq!(placement(&state), None);
    assert_eq!(state.volume(), None);
    let no_id = OsdError::new(
        ErrorKind::StateInconsistency,
        String::from("no osd id has been allocated"),
    );
    assert_eq!(keyring(&state, "KEY", true), Err(no_id.clone()));
    assert_eq!(start_service_command(&state, Daemon::Systemd), Err(no_id.clone()));
    assert_eq!(mount_table_entry(&state), Err(no_id));
}

#[test]
fn artifacts_of_a_new_osd_of_the_modern_layout() {
    let state = at(Layout::Bluestore, false, true, AddStep::CreateMountPoint);
    assert_eq!(
        fsid_file(&state),
        Some(FileToWrite {
            path: String::from("/var/lib/ceph/osd/ceph-5/fsid"),
            contents: String::from("936da01f-9abd-4d9d-80c7-02af85c822a8\n"),
        })
    );
    assert_eq!(
        block_link(&state),
        Some(LinkToMake {
            target: String::from(LV),
            link: String::from("/var/lib/ceph/osd/ceph-5/block"),
        })
    );
    assert_eq!(
        wal_link(&state),
        Some(LinkToMake {
            target: String::from("/dev/sdj2"),
            link: String::from("/var/lib/ceph/osd/ceph-5/block.wal"),
        })
    );
    assert_eq!(
        monmap_path(&state),
        Some(String::from("/var/lib/ceph/osd/ceph-5/activate.monmap"))
    );
    assert_eq!(
        owned_artifacts(&state),
        vec![
            String::from("/var/lib/ceph/osd/ceph-5/activate.monmap"),
            String::from("/var/lib/ceph/osd/ceph-5"),
            String::from("/var/lib/ceph/osd/ceph-5/fsid"),
        ]
    );
    assert_eq!(
        state.volume(),
        Some(VolumeHandle {
            path: String::from(LV),
            group: String::from("ceph-0fc63daf-8483-4772-8e79-3d69d8477de4"),
            size: 3 * 1_073_741_824 + 17,
        })
    );
    assert_eq!(placement(&state), Some((5, 3)));
    let without = at(Layout::Bluestore, false, false, AddStep::LinkDevices);
    assert_eq!(wal_link(&without), None);
}

#[test]
fn keyring_of_a_new_osd() {
    let modern = at(Layout::Bluestore, false, false, AddStep::RegisterAuth);
    assert_eq!(
        keyring(&modern, "KEY", true),
        Ok(Some(KeyringFile {
            path: String::from("/var/lib/ceph/osd/ceph-5/keyring"),
            contents: String::from("[osd.5]\n\tkey = KEY\n"),
            uid: Some(0),
            gid: Some(0),
        }))
    );
    assert_eq!(keyring(&modern, "KEY", false).unwrap_err().kind(), ErrorKind::NotFound);
    let legacy = at(Layout::Filestore, false, false, AddStep::RegisterAuth);
    assert_eq!(
        keyring(&legacy, "KEY", true),
        Ok(Some(KeyringFile {
            path: String::from("/var/lib/ceph/osd/ceph-5/keyring"),
            contents: String::from("[osd.5]\n\tkey = KEY\n"),
            uid: None,
            gid: None,
        }))
    );
    let simulated = at(Layout::Bluestore, true, false, AddStep::RegisterAuth);
    assert_eq!(keyring(&simulated, "KEY", true), Ok(None));
}

#[test]
fn commands_for_a_new_osd_of_the_modern_layout() {
    let state = at(Layout::Bluestore, false, true, AddStep::MakeFilesystem);
    assert_eq!(
        mkfs_command(&state),
        Some(invocation(
            "ceph-osd",
            &[
                "--cluster",
                "ceph",
                "-i",
                "5",
                "--mkfs",
                "--osd-journal",
                "/dev/sdj2",
                "--osd-objectstore",
                "bluestore",
                "--monmap",
                "/var/lib/ceph/osd/ceph-5/activate.monmap",
                "--osd-data",
                "/var/lib/ceph/osd/ceph-5",
                "--osd-uuid",
                FSID,
                "--setuser",
                "ceph",
                "--setgroup",
                "ceph",
            ],
            true
        ))
    );
    assert_eq!(
        prime_command(&state),
        Some(invocation(
            "ceph-bluestore-tool",
            &["--cluster=ceph", "prime-osd-dir", "--dev", LV, "--path", "/var/lib/ceph/osd/ceph-5"],
            true
        ))
    );
    assert_eq!(
        enable_command(&state),
        Some(invocation(
            "systemctl",
            &["enable", "ceph-volume@lvm-5-936da01f-9abd-4d9d-80c7-02af85c822a8"],
            true
        ))
    );
    assert_eq!(
        start_service_command(&state, Daemon::Systemd),
        Ok(invocation("systemctl", &["start", "ceph-osd@5"], true))
    );
    assert_eq!(
        start_service_command(&state, Daemon::Unknown).unwrap_err().kind(),
        ErrorKind::NotFound
    );
}

#[test]
fn commands_of_a_simulated_operation_are_not_run() {
    let state = at(Layout::Bluestore, true, false, AddStep::StartService);
    assert!(!mkfs_command(&state).unwrap().run);
    assert!(!prime_command(&state).unwrap().run);
    assert!(!enable_command(&state).unwrap().run);
    assert!(!start_service_command(&state, Daemon::Upstart).unwrap().run);
    assert_eq!(placement(&state), Some((0, 0)));
    let removal = RemoveOsd::start_bluestore("/dev/sdz", 5, Uuid::parse(FSID).unwrap(), true).0;
    assert!(!stop_command(&removal).run);
    assert!(!disable_command(&removal).unwrap().run);
}

#[test]
fn work_for_a_new_osd_of_the_legacy_layout() {
    let state = at(Layout::Filestore, false, false, AddStep::RegisterMountTable);
    assert_eq!(
        mkfs_command(&state),
        Some(invocation("ceph-osd", &["--cluster", "ceph", "-i", "5", "--mkfs"], true))
    );
    assert_eq!(placement(&state), Some((5, 1)));
    assert_eq!(
        mount_table_entry(&state),
        Ok((
            FsEntry {
                fs_spec: String::from("UUID=0fc63daf-8483-4772-8e79-3d69d8477de4"),
                mountpoint: String::from("/var/lib/ceph/osd/ceph-5"),
                vfs_type: String::from("xfs"),
                mount_options: vec![
                    String::from("noatime"),
                    String::from("inode64"),
                    String::from("attr2"),
                    String::from("logbsize=256k"),
                    String::from("noquota"),
                ],
                dump: false,
                fsck_order: 2,
            },
            true
        ))
    );
    let with_journal = at(Layout::Filestore, false, true, AddStep::MakeFilesystem);
    assert_eq!(
        mkfs_command(&with_journal),
        Some(invocation(
            "ceph-osd",
            &["--cluster", "ceph", "-i", "5", "--mkfs", "--osd-journal", "/dev/sdj2"],
            true
        ))
    );
}

#[test]
fn work_for_a_removal() {
    let modern = RemoveOsd::start_bluestore("/dev/sdz", 8, Uuid::parse(FSID).unwrap(), false).0;
    assert_eq!(
        stop_command(&modern),
        invocation("systemctl", &["stop", "ceph-osd@8.service"], true)
    );
    assert_eq!(
        disable_command(&modern),
        Some(invocation(
            "systemctl",
            &["disable", "ceph-volume@lvm-8-936da01f-9abd-4d9d-80c7-02af85c822a8"],
            true
        ))
    );
    assert_eq!(removed_mount_point(&modern), "/var/lib/ceph/osd/ceph-8");
    let legacy = RemoveOsd::start_filestore("/dev/sdz", 8, false).0;
    assert_eq!(disable_command(&legacy), None);
}
