use ceph_backend::backend::{
    capacity_units, choose_ceph_config, config_missing, CephBackend, CephConfig, CephRelease,
    DiagStatus, JournalChoice, Layout, MountEvidence, CAPACITY_UNIT,
};
use ceph_backend::error::ErrorKind;
use ceph_backend::ident::Uuid;
use ceph_backend::journal::{FreeSpace, JournalDevice, LogicalBlockSize};
use ceph_backend::osd_dir::IdSource;
use ceph_backend::provision::{Action, AddStep, Mode, Outcome, Transition};
use ceph_backend::removal::{RemoveAction, RemoveStep};

fn device(path: &str, count: Option<usize>) -> JournalDevice {
    JournalDevice {
        device: String::from(path),
        partition_id: None,
        partition_uuid: None,
        num_partitions: count,
    }
}

fn backend(version: CephRelease, journals: Option<Vec<JournalDevice>>) -> CephBackend {
    CephBackend::new(
        CephConfig {
            config_file: String::from("/etc/ceph/ceph.conf"),
            user_id: String::from("admin"),
            journal_devices: journals,
        },
        version,
    )
}

fn mount(whoami: Option<&str>, type_marker: Option<&str>) -> MountEvidence {
    MountEvidence {
        path: String::from("/var/lib/ceph/osd/ceph-6"),
        file_name: Some(String::from("ceph-6")),
        whoami: whoami.map(String::from),
        type_marker: type_marker.map(String::from),
    }
}

fn room(blocks: u64) -> Option<FreeSpace> {
    Some(FreeSpace { extents: vec![(34, blocks)], block_size: LogicalBlockSize::Lb512 })
}

fn strings(texts: &[&str]) -> Vec<String> {
    texts.iter().map(|t| t.to_string()).collect()
}

#[test]
fn layout_follows_the_release() {
    let legacy = [
        CephRelease::Argonaut,
        CephRelease::Bobtail,
        CephRelease::Cuttlefish,
        CephRelease::Dumpling,
        CephRelease::Emperor,
        CephRelease::Firefly,
        CephRelease::Giant,
        CephRelease::Hammer,
        CephRelease::Infernalis,
        CephRelease::Jewel,
        CephRelease::Kraken,
    ];
    for release in legacy {
        assert!(!release.is_modern());
        assert_eq!(backend(release, None).layout(), Layout::Filestore);
    }
    let modern = [
        CephRelease::Luminous,
        CephRelease::Mimic,
        CephRelease::Nautilus,
        CephRelease::Octopus,
        CephRelease::Later,
    ];
    for release in modern {
        assert!(release.is_modern());
        assert_eq!(backend(release, None).layout(), Layout::Bluestore);
    }
}

#[test]
fn backend_keeps_its_configuration() {
    let b = backend(CephRelease::Mimic, Some(vec![device("/dev/sda", Some(1))]));
    assert_eq!(b.release(), CephRelease::Mimic);
    assert_eq!(b.user_id(), "admin");
    assert_eq!(b.config_file(), "/etc/ceph/ceph.conf");
    assert_eq!(b.journal_devices(), vec![device("/dev/sda", Some(1))]);
    assert_eq!(backend(CephRelease::Mimic, None).journal_devices(), Vec::new());
}

#[test]
fn configuration_file_is_looked_for_in_the_directory_or_at_home() {
    assert_eq!(choose_ceph_config(Some("/etc/disk-manager"), None), Ok(String::from("/etc/disk-manager/ceph.json")));
    assert_eq!(
        choose_ceph_config(Some("/etc/disk-manager/"), Some("/root")),
        Ok(String::from("/etc/disk-manager/ceph.json"))
    );
    assert_eq!(choose_ceph_config(Some(""), None), Ok(String::from("ceph.json")));
    assert_eq!(
        choose_ceph_config(None, Some("/home/op")),
        Ok(String::from("/home/op/.config/ceph.json"))
    );
    assert_eq!(choose_ceph_config(None, Some("/")), Ok(String::from("/.config/ceph.json")));
    let e = choose_ceph_config(None, None).unwrap_err();
    assert_eq!(e.kind(), ErrorKind::ConfigurationMissing);
    assert_eq!(e.message(), "HOME env variable not defined");
    let e = config_missing("/etc/disk-manager/ceph.json");
    assert_eq!(e.kind(), ErrorKind::ConfigurationMissing);
    assert_eq!(e.message(), "/etc/disk-manager/ceph.json does not exist.  Please create");
}

#[test]
fn only_a_safe_diagnosis_allows_removal() {
    let b = backend(CephRelease::Luminous, None);
    assert!(b.safe_to_remove(DiagStatus::Safe));
    assert!(!b.safe_to_remove(DiagStatus::NonSafe));
    assert!(!b.safe_to_remove(DiagStatus::Unknown));
}

#[test]
fn weight_counts_whole_units_of_capacity() {
    assert_eq!(CAPACITY_UNIT, 1 << 30);
    assert_eq!(capacity_units(10 * (1 << 30)), 10);
    assert_eq!(capacity_units((1 << 30) - 1), 0);
    assert_eq!(capacity_units(1 << 30), 1);
    assert_eq!(capacity_units(0), 0);
    assert_eq!(capacity_units(u64::MAX), 17_179_869_183);
    let weight = capacity_units(10 * (1 << 30)) as f64 * 0.001_f64;
    assert!((weight - 0.01).abs() < f64::EPSILON);
    let weight = capacity_units((1 << 30) - 1) as f64 * 0.001_f64;
    assert_eq!(weight, 0.0);
}

#[test]
fn journal_is_chosen_among_the_configured_devices() {
    let b = backend(
        CephRelease::Luminous,
        Some(vec![
            device("/dev/sda", Some(3)),
            device("/dev/sdb", Some(1)),
            device("/dev/sdc", Some(2)),
        ]),
    );
    // 1 unit is 1048576 bytes, which 2048 blocks of 512 bytes hold
    let all = vec![room(2048), room(2048), room(2048)];
    assert_eq!(
        b.select_journal("1", &all),
        Ok(Some(JournalChoice { index: 1, device: device("/dev/sdb", Some(1)), size: 1_048_576 }))
    );
    let without_b = vec![room(2048), room(2047), room(2048)];
    assert_eq!(
        b.select_journal("1", &without_b),
        Ok(Some(JournalChoice { index: 2, device: device("/dev/sdc", Some(2)), size: 1_048_576 }))
    );
    let only_a = vec![room(2048), None];
    assert_eq!(
        b.select_journal("1", &only_a),
        Ok(Some(JournalChoice { index: 0, device: device("/dev/sda", Some(3)), size: 1_048_576 }))
    );
    assert_eq!(b.select_journal("1", &vec![room(0), room(1), None]), Ok(None));
    assert_eq!(b.select_journal("1", &Vec::new()), Ok(None));
    assert_eq!(backend(CephRelease::Luminous, None).select_journal("1", &all), Ok(None));
}

#[test]
fn journal_size_must_be_a_number() {
    let b = backend(CephRelease::Luminous, Some(vec![device("/dev/sda", Some(3))]));
    let e = b.select_journal("5 GB", &vec![room(1 << 40)]).unwrap_err();
    assert_eq!(e.kind(), ErrorKind::ParseFailure);
    assert_eq!(e.message(), "invalid osd_journal_size: 5 GB");
    assert!(backend(CephRelease::Luminous, None).select_journal("", &Vec::new()).is_err());
}

#[test]
fn add_disk_begins_by_the_layout_of_the_backend() {
    let (state, action) = backend(CephRelease::Nautilus, None).add_disk("/dev/sdz", None, false);
    assert_eq!(state.layout(), Layout::Bluestore);
    assert_eq!(action, Action { step: AddStep::ResolveJournal, mode: Mode::Perform });
    assert_eq!(state.device(), "/dev/sdz");
    assert_eq!(state.requested_id(), None);
    let (state, action) = backend(CephRelease::Jewel, None).add_disk("/dev/sdz", Some(4), false);
    assert_eq!(state.layout(), Layout::Filestore);
    assert_eq!(action, Action { step: AddStep::FormatDevice, mode: Mode::Perform });
    assert_eq!(state.requested_id(), Some(4));
    let b = backend(CephRelease::Jewel, None);
    assert_eq!(b.add_bluestore_osd("/dev/sdz", None, false).0.layout(), Layout::Bluestore);
    assert_eq!(b.add_filestore_osd("/dev/sdz", None, false).0.layout(), Layout::Filestore);
}

#[test]
fn every_added_osd_gets_its_own_identifier() {
    let b = backend(CephRelease::Nautilus, None);
    let (first, _) = b.add_disk("/dev/sdy", None, false);
    let (second, _) = b.add_disk("/dev/sdz", None, false);
    assert_ne!(first.osd_fsid(), second.osd_fsid());
    assert_ne!(first.volume_plan().vg_name, second.volume_plan().vg_name);
    assert_eq!(
        first.volume_plan().lv_name,
        format!("osd-block-{}", first.osd_fsid().to_hyphenated_string())
    );
}

#[test]
fn simulated_add_on_a_modern_cluster() {
    let (mut state, mut action) =
        backend(CephRelease::Luminous, None).add_disk("/dev/sdz", None, true);
    let mut seen = Vec::new();
    let ended = loop {
        assert_eq!(action.mode, Mode::Preview);
        seen.push(action.step);
        match state.advance(Outcome::Done) {
            Transition::Continue(next, then) => {
                state = next;
                action = then;
            }
            ended => break ended,
        }
    };
    let place = |step: AddStep| seen.iter().position(|s| *s == step).unwrap();
    assert!(place(AddStep::AllocateId) < place(AddStep::ProvisionVolume));
    assert!(place(AddStep::ProvisionVolume) < place(AddStep::EnableService));
    assert!(place(AddStep::EnableService) < place(AddStep::StartService));
    assert!(!seen.contains(&AddStep::FormatDevice));
    match ended {
        Transition::Complete(osd) => {
            assert_eq!(osd.device, "/dev/sdz");
            assert_eq!(osd.layout, Layout::Bluestore);
        }
        other => panic!("not completed: {:?}", other),
    }
}

#[test]
fn removal_without_volume_group_and_without_legacy_marker_finds_nothing() {
    for release in [CephRelease::Hammer, CephRelease::Jewel, CephRelease::Luminous, CephRelease::Later] {
        let b = backend(release, None);
        for marker in [None, Some("bluestore\n"), Some(""), Some("file store")] {
            for whoami in [None, Some("6\n")] {
                for simulate in [false, true] {
                    let e = b
                        .remove_disk("/dev/sdz", simulate, None, &mount(whoami, marker))
                        .unwrap_err();
                    assert_eq!(e.kind(), ErrorKind::NotFound);
                    assert_eq!(
                        e.message(),
                        "No volume group associated with block device: /dev/sdz"
                    );
                    let e = b
                        .remove_bluestore_osd("/dev/sdz", None, &mount(whoami, marker), simulate)
                        .unwrap_err();
                    assert_eq!(e.kind(), ErrorKind::NotFound);
                }
            }
            assert_eq!(
                b.removal_layout("/dev/sdz", false, marker).unwrap_err().kind(),
                ErrorKind::NotFound
            );
        }
    }
}

#[test]
fn removal_layout_is_settled_by_the_look_at_the_device() {
    for release in [CephRelease::Hammer, CephRelease::Luminous] {
        let b = backend(release, None);
        assert_eq!(b.removal_layout("/dev/sdz", true, None), Ok(Layout::Bluestore));
        assert_eq!(b.removal_layout("/dev/sdz", true, Some("filestore")), Ok(Layout::Bluestore));
        assert_eq!(b.removal_layout("/dev/sdz", false, Some("filestore\n")), Ok(Layout::Filestore));
        assert_eq!(b.removal_layout("/dev/sdz", false, Some(" filestore ")), Ok(Layout::Filestore));
    }
}

#[test]
fn modern_removal_reads_the_identity_from_the_tags() {
    let tags = vec![strings(&[
        "ceph.type=block",
        "ceph.osd_id=6",
        "in.between=1",
        "ceph.osd_fsid=936da01f-9abd-4d9d-80c7-02af85c822a8",
    ])];
    for release in [CephRelease::Jewel, CephRelease::Luminous] {
        let b = backend(release, None);
        let (state, action) =
            b.remove_disk("/dev/sdz", false, Some(&tags), &mount(None, None)).unwrap();
        assert_eq!(action, RemoveAction { step: RemoveStep::MarkOut, mode: Mode::Perform });
        assert_eq!(state.layout(), Layout::Bluestore);
        assert_eq!(state.osd_id(), 6);
        assert_eq!(
            state.osd_fsid(),
            Some(Uuid::parse("936da01f-9abd-4d9d-80c7-02af85c822a8").unwrap())
        );
        assert_eq!(state.device(), "/dev/sdz");
        // the tags decide, whatever the mount holds
        let (state, action) = b
            .remove_bluestore_osd("/dev/sdz", Some(&tags), &mount(Some("9"), Some("filestore")), true)
            .unwrap();
        assert_eq!(action, RemoveAction { step: RemoveStep::MarkOut, mode: Mode::Preview });
        assert!(state.simulate());
        assert_eq!(state.osd_id(), 6);
        assert_eq!(state.layout(), Layout::Bluestore);

        let untagged = vec![strings(&["ceph.type=block"])];
        let e = b
            .remove_disk("/dev/sdz", false, Some(&untagged), &mount(None, Some("filestore")))
            .unwrap_err();
        assert_eq!(e.kind(), ErrorKind::StateInconsistency);
        assert_eq!(e.message(), "No osd id's or fsid's were found on /dev/sdz");
    }
}

#[test]
fn legacy_removal_finds_the_number_at_the_mount() {
    for release in [CephRelease::Jewel, CephRelease::Luminous] {
        let b = backend(release, None);
        let (state, action) = b
            .remove_disk("/dev/sdz", false, None, &mount(Some("3\n"), Some("filestore\n")))
            .unwrap();
        assert_eq!(action, RemoveAction { step: RemoveStep::MarkOut, mode: Mode::Perform });
        assert_eq!(state.layout(), Layout::Filestore);
        assert_eq!(state.osd_id(), 3);
        assert_eq!(state.osd_fsid(), None);
        let (state, _) = b
            .remove_bluestore_osd("/dev/sdz", None, &mount(None, Some("filestore")), false)
            .unwrap();
        assert_eq!(state.layout(), Layout::Filestore);
        assert_eq!(state.osd_id(), 6);

        let (state, _, source) =
            b.remove_filestore_osd("/dev/sdz", &mount(Some("3\n"), None), false).unwrap();
        assert_eq!((state.osd_id(), source), (3, IdSource::Marker));
        let (state, _, source) =
            b.remove_filestore_osd("/dev/sdz", &mount(None, None), false).unwrap();
        assert_eq!((state.osd_id(), source), (6, IdSource::DirectoryName));
        let (state, _, source) =
            b.remove_filestore_osd("/dev/sdz", &mount(Some("3"), None), true).unwrap();
        assert_eq!((state.osd_id(), source), (0, IdSource::Simulated));

        let nameless = MountEvidence {
            path: String::from("/"),
            file_name: None,
            whoami: None,
            type_marker: Some(String::from("filestore")),
        };
        let e = b.remove_disk("/dev/sdz", false, None, &nameless).unwrap_err();
        assert_eq!(e.kind(), ErrorKind::NotFound);
        assert_eq!(e.message(), "Unable to get filename from /");
    }
}
