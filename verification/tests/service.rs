use ceph_backend::error::{ErrorKind, OsdError};
use ceph_backend::ident::Uuid;
use ceph_backend::journal::JournalDevice;
use ceph_backend::service::{
    ceph_bluestore_tool, ceph_mkfs, command_result, settle_udev, setup_osd_init,
    systemctl_disable, systemctl_enable, systemctl_stop, Daemon, Invocation,
};

const FSID: &str = "936da01f-9abd-4d9d-80c7-02af85c822a8";

fn invocation(program: &str, args: &[&str], run: bool) -> Invocation {
    Invocation {
        program: program.to_string(),
        args: args.iter().map(|a| a.to_string()).collect(),
        run,
    }
}

#[test]
fn systemctl_commands_name_the_units() {
    let fsid = Uuid::parse(FSID).unwrap();
    assert_eq!(
        systemctl_enable(3, &fsid, false),
        invocation(
            "systemctl",
            &["enable", "ceph-volume@lvm-3-936da01f-9abd-4d9d-80c7-02af85c822a8"],
            true
        )
    );
    assert_eq!(
        systemctl_disable(3, &fsid, false),
        invocation(
            "systemctl",
            &["disable", "ceph-volume@lvm-3-936da01f-9abd-4d9d-80c7-02af85c822a8"],
            true
        )
    );
    assert_eq!(
        systemctl_stop(12, false),
        invocation("systemctl", &["stop", "ceph-osd@12.service"], true)
    );
}

#[test]
fn simulated_commands_are_not_run() {
    let fsid = Uuid::parse(FSID).unwrap();
    assert!(!systemctl_enable(3, &fsid, true).run);
    assert!(!systemctl_disable(3, &fsid, true).run);
    assert!(!systemctl_stop(3, true).run);
    assert!(!setup_osd_init(Daemon::Systemd, 3, true).unwrap().run);
    assert!(!setup_osd_init(Daemon::Upstart, 3, true).unwrap().run);
    assert!(!ceph_mkfs(3, None, true, None, None, None, None, None, true).run);
    assert!(!ceph_bluestore_tool("/dev/vg/lv", "/var/lib/ceph/osd/ceph-3", true).run);
}

#[test]
fn the_osd_is_started_by_the_service_manager_that_runs_the_host() {
    assert_eq!(
        setup_osd_init(Daemon::Systemd, 5, false),
        Ok(invocation("systemctl", &["start", "ceph-osd@5"], true))
    );
    assert_eq!(
        setup_osd_init(Daemon::Upstart, 5, false),
        Ok(invocation("start", &["ceph-osd", "id=5"], true))
    );
    for simulate in [false, true] {
        assert_eq!(
            setup_osd_init(Daemon::Unknown, 5, simulate),
            Err(OsdError::new(
                ErrorKind::NotFound,
                String::from("Unknown init system.  Cannot start osd service")
            ))
        );
    }
}

#[test]
fn settle_waits_for_the_device_manager() {
    assert_eq!(settle_udev(), invocation("udevadm", &["settle"], true));
}

#[test]
fn mkfs_for_the_modern_layout() {
    let journal = JournalDevice {
        device: String::from("/dev/sdj"),
        partition_id: Some(2),
        partition_uuid: None,
        num_partitions: None,
    };
    let fsid = Uuid::parse(FSID).unwrap();
    assert_eq!(
        ceph_mkfs(
            7,
            Some(&journal),
            true,
            Some("/var/lib/ceph/osd/ceph-7/activate.monmap"),
            Some("/var/lib/ceph/osd/ceph-7"),
            Some(&fsid),
            Some("ceph"),
            Some("ceph"),
            false,
        ),
        invocation(
            "ceph-osd",
            &[
                "--cluster",
                "ceph",
                "-i",
                "7",
                "--mkfs",
                "--osd-journal",
                "/dev/sdj2",
                "--osd-objectstore",
                "bluestore",
                "--monmap",
                "/var/lib/ceph/osd/ceph-7/activate.monmap",
                "--osd-data",
                "/var/lib/ceph/osd/ceph-7",
                "--osd-uuid",
                "936da01f-9abd-4d9d-80c7-02af85c822a8",
                "--setuser",
                "ceph",
                "--setgroup",
                "ceph",
            ],
            true
        )
    );
}

#[test]
fn mkfs_for_the_legacy_layout() {
    assert_eq!(
        ceph_mkfs(0, None, false, None, None, None, None, None, false),
        invocation("ceph-osd", &["--cluster", "ceph", "-i", "0", "--mkfs"], true)
    );
    let journal = JournalDevice::from_device(String::from("/dev/sdj"));
    assert_eq!(
        ceph_mkfs(1, Some(&journal), false, None, None, None, Some("ceph"), None, false),
        invocation(
            "ceph-osd",
            &["--cluster", "ceph", "-i", "1", "--mkfs", "--osd-journal", "/dev/sdj", "--setuser", "ceph"],
            true
        )
    );
}

#[test]
fn the_volume_is_primed_into_the_directory() {
    assert_eq!(
        ceph_bluestore_tool("/dev/ceph-vg/osd-block-x", "/var/lib/ceph/osd/ceph-7", false),
        invocation(
            "ceph-bluestore-tool",
            &[
                "--cluster=ceph",
                "prime-osd-dir",
                "--dev",
                "/dev/ceph-vg/osd-block-x",
                "--path",
                "/var/lib/ceph/osd/ceph-7",
            ],
            true
        )
    );
}

#[test]
fn a_failed_command_reports_its_standard_error() {
    assert_eq!(command_result(true, String::from("a warning")), Ok(()));
    assert_eq!(
        command_result(false, String::from("Unit ceph-osd@3.service not found.\n")),
        Err(OsdError::new(
            ErrorKind::ExternalToolFailure,
            String::from("Unit ceph-osd@3.service not found.\n")
        ))
    );
    assert_eq!(
        OsdError::tool_failure(String::new()),
        OsdError::new(ErrorKind::ExternalToolFailure, String::new())
    );
}
