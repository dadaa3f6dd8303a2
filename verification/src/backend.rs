//! The backend itself: its configuration, the layout it provisions by, and
//! the decisions that stand at the start of adding and of removing a disk.
use crate::error::{error_view, ErrorKind, OsdError, OsdErrorView};
use crate::ident::{is_version_4, Uuid};
use crate::journal::{
    journal_bytes, journal_size_bytes, journal_size_message, partition_counts, probe_fits,
    ranks_before, FreeSpace, JournalDevice,
};
use crate::osd_dir::{
    directory_name_value, discover_osd_id, is_filestore, no_file_name_message,
    no_id_in_name_message, whoami_value, IdSource,
};
use crate::provision::{initial, Action, AddOsd};
use crate::removal::{RemoveAction, RemoveOsd, RemoveOsdView};
use crate::tags::{osd_identity, read_osd_identity, volume_texts};
use crate::text::trimmed;
use crate::volume::join_text;
use vstd::prelude::*;
use vstd::string::*;

verus! {

/// The releases of the storage engine, oldest first.
#[derive(Clone, Copy, Debug, PartialEq, Eq, Structural)]
pub enum CephRelease {
    Argonaut,
    Bobtail,
    Cuttlefish,
    Dumpling,
    Emperor,
    Firefly,
    Giant,
    Hammer,
    Infernalis,
    Jewel,
    Kraken,
    Luminous,
    Mimic,
    Nautilus,
    Octopus,
    /// A release after the last one known by name.
    Later,
}

impl CephRelease {
    /// The place of the release in the order of releases.
    pub open spec fn ordinal(self) -> int {
        match self {
            CephRelease::Argonaut => 0,
            CephRelease::Bobtail => 1,
            CephRelease::Cuttlefish => 2,
            CephRelease::Dumpling => 3,
            CephRelease::Emperor => 4,
            CephRelease::Firefly => 5,
            CephRelease::Giant => 6,
            CephRelease::Hammer => 7,
            CephRelease::Infernalis => 8,
            CephRelease::Jewel => 9,
            CephRelease::Kraken => 10,
            CephRelease::Luminous => 11,
            CephRelease::Mimic => 12,
            CephRelease::Nautilus => 13,
            CephRelease::Octopus => 14,
            CephRelease::Later => 15,
        }
    }

    /// Whether the release is at or after the one that introduced the modern
    /// layout.
    pub fn is_modern(self) -> (modern: bool)
        ensures
            modern == (self.ordinal() >= CephRelease::Luminous.ordinal()),
    {
        match self {
            CephRelease::Luminous
            | CephRelease::Mimic
            | CephRelease::Nautilus
            | CephRelease::Octopus
            | CephRelease::Later => true,
            _ => false,
        }
    }
}

/// The two generations of the on-disk layout of an OSD.
#[derive(Clone, Copy, Debug, PartialEq, Eq, Structural)]
pub enum Layout {
    /// The modern layout: the data lies on a logical volume.
    Bluestore,
    /// The legacy layout: the data lies on a formatted filesystem.
    Filestore,
}

/// The layout by which a release provisions.
pub open spec fn layout_of(release: CephRelease) -> Layout {
    if release.ordinal() >= CephRelease::Luminous.ordinal() {
        Layout::Bluestore
    } else {
        Layout::Filestore
    }
}

/// The outcome of the cluster's health diagnosis for the removal of a disk.
#[derive(Clone, Copy, Debug, PartialEq, Eq, Structural)]
pub enum DiagStatus {
    Safe,
    NonSafe,
    Unknown,
}

/// The configuration of the backend.
#[derive(Clone, Debug, PartialEq, Eq)]
pub struct CephConfig {
    /// The location of the cluster's configuration file.
    pub config_file: String,
    /// The user to connect to the cluster as.
    pub user_id: String,
    /// The devices on which journal partitions may be created.
    pub journal_devices: Option<Vec<JournalDevice>>,
}

/// The backend for one cluster: its configuration and the release that the
/// cluster reported when the backend was set up.
#[derive(Clone, Debug, PartialEq, Eq)]
pub struct CephBackend {
    config: CephConfig,
    version: CephRelease,
}

/// The name of the backend's configuration file.
pub open spec fn config_name() -> Seq<char> {
    "ceph.json"@
}

/// The path of the backend's configuration file: inside the given directory,
/// or else inside `.config` in the home directory.
pub open spec fn config_path_text(config_dir: Option<Seq<char>>, home: Option<Seq<char>>) -> Option<
    Seq<char>,
> {
    match config_dir {
        Some(dir) => Some(join_text(dir, config_name())),
        None => match home {
            Some(h) => Some(join_text(join_text(h, ".config"@), config_name())),
            None => None,
        },
    }
}

/// The message of the error for a missing configuration file.
pub open spec fn config_missing_message(path: Seq<char>) -> Seq<char> {
    path + " does not exist.  Please create"@
}

fn join(dir: &str, relative: &str) -> (path: String)
    ensures
        path@ == join_text(dir@, relative@),
{
    let n = dir.unicode_len();
    let mut path = String::from_str(dir);
    if n > 0 && dir.get_char(n - 1) != '/' {
        path.append("/");
    }
    path.append(relative);
    path
}

/// The path of the backend's configuration file. Without a directory and
/// without a home directory there is none.
pub fn choose_ceph_config(config_dir: Option<&str>, home: Option<&str>) -> (r: Result<
    String,
    OsdError,
>)
    ensures
        match config_path_text(
            match config_dir {
                Some(d) => Some(d@),
                None => None,
            },
            match home {
                Some(h) => Some(h@),
                None => None,
            },
        ) {
            Some(path) => r is Ok && r->Ok_0@ == path,
            None => r is Err && r->Err_0@ == error_view(
                ErrorKind::ConfigurationMissing,
                "HOME env variable not defined"@,
            ),
        },
{
    match config_dir {
        Some(dir) => Ok(join(dir, "ceph.json")),
        None => match home {
            Some(h) => {
                let dir = join(h, ".config");
                Ok(join(dir.as_str(), "ceph.json"))
            },
            None => Err(
                OsdError::new(
                    ErrorKind::ConfigurationMissing,
                    String::from_str("HOME env variable not defined"),
                ),
            ),
        },
    }
}

/// The error for a configuration file that does not exist.
pub fn config_missing(path: &str) -> (e: OsdError)
    ensures
        e@ == error_view(ErrorKind::ConfigurationMissing, config_missing_message(path@)),
{
    let mut message = String::from_str(path);
    message.append(" does not exist.  Please create");
    OsdError::new(ErrorKind::ConfigurationMissing, message)
}

/// The message of the error for a device that belongs to no volume group.
pub open spec fn no_volume_group_message(device: Seq<char>) -> Seq<char> {
    "No volume group associated with block device: "@ + device
}

/// The layout by which the OSD on a device is removed. It is settled by a
/// look at the device, not by the release that the cluster runs: the modern
/// layout where the device belongs to a volume group; the legacy layout
/// where it does not but its mount holds the legacy marker; and where it
/// has neither, there is nothing that could be removed.
pub open spec fn removal_layout_of(
    device: Seq<char>,
    has_volume_group: bool,
    type_marker: Option<Seq<char>>,
) -> Result<Layout, OsdErrorView> {
    if has_volume_group {
        Ok(Layout::Bluestore)
    } else if type_marker matches Some(c) && trimmed(c) == "filestore"@ {
        Ok(Layout::Filestore)
    } else {
        Err(error_view(ErrorKind::NotFound, no_volume_group_message(device)))
    }
}

impl CephBackend {
    /// The backend for a cluster that runs `version`, configured by
    /// `config`.
    pub fn new(config: CephConfig, version: CephRelease) -> (backend: CephBackend)
        ensures
            backend.version() == version,
            backend.config() == config,
    {
        CephBackend { config, version }
    }

    /// The release that the cluster reported.
    pub closed spec fn version(&self) -> CephRelease {
        self.version
    }

    /// The configuration.
    pub closed spec fn config(&self) -> CephConfig {
        self.config
    }

    /// The release that the cluster reported.
    pub fn release(&self) -> (release: CephRelease)
        ensures
            release == self.version(),
    {
        self.version
    }

    /// The user to connect to the cluster as.
    pub fn user_id(&self) -> (user: &str)
        ensures
            user@ == self.config().user_id@,
    {
        self.config.user_id.as_str()
    }

    /// The location of the cluster's configuration file.
    pub fn config_file(&self) -> (path: &str)
        ensures
            path@ == self.config().config_file@,
    {
        self.config.config_file.as_str()
    }

    /// The layout by which this backend provisions: the modern one from the
    /// release that introduced it.
    pub fn layout(&self) -> (layout: Layout)
        ensures
            layout == layout_of(self.version()),
    {
        if self.version.is_modern() {
            Layout::Bluestore
        } else {
            Layout::Filestore
        }
    }

    /// The configured journal devices; none where the configuration names
    /// none.
    pub fn journal_devices(&self) -> (devices: Vec<JournalDevice>)
        ensures
            match self.config().journal_devices {
                Some(configured) => devices.len() == configured.len() && forall|i: int|
                    0 <= i < devices.len() ==> (#[trigger] devices@[i])@ == configured@[i]@,
                None => devices.len() == 0,
            },
    {
        let mut devices: Vec<JournalDevice> = Vec::new();
        match &self.config.journal_devices {
            Some(configured) => {
                let mut i: usize = 0;
                while i < configured.len()
                    invariant
                        i <= configured.len(),
                        devices.len() == i,
                        forall|j: int|
                            0 <= j < i ==> (#[trigger] devices@[j])@ == configured@[j]@,
                    decreases configured.len() - i,
                {
                    devices.push(configured[i].clone());
                    i += 1;
                }
            },
            None => {},
        }
        devices
    }

    /// Whether a disk may be removed, from the cluster's health diagnosis:
    /// only where the diagnosis says it is safe. An unknown outcome counts
    /// as not safe.
    pub fn safe_to_remove(&self, status: DiagStatus) -> (safe: bool)
        ensures
            safe == (status == DiagStatus::Safe),
    {
        match status {
            DiagStatus::Safe => true,
            DiagStatus::NonSafe => false,
            DiagStatus::Unknown => false,
        }
    }

    /// The layout by which the OSD on `device` is removed, from whether the
    /// device belongs to a volume group and from the contents of the `type`
    /// marker of its mount, where it has one. The release that the cluster
    /// runs plays no part.
    pub fn removal_layout(
        &self,
        device: &str,
        has_volume_group: bool,
        type_marker: Option<&str>,
    ) -> (r: Result<Layout, OsdError>)
        ensures
            match r {
                Ok(layout) => removal_layout_of(
                    device@,
                    has_volume_group,
                    match type_marker {
                        Some(c) => Some(c@),
                        None => None,
                    },
                ) == Ok::<Layout, OsdErrorView>(layout),
                Err(e) => removal_layout_of(
                    device@,
                    has_volume_group,
                    match type_marker {
                        Some(c) => Some(c@),
                        None => None,
                    },
                ) == Err::<Layout, OsdErrorView>(e@),
            },
    {
        if has_volume_group {
            Ok(Layout::Bluestore)
        } else if is_filestore(type_marker) {
            Ok(Layout::Filestore)
        } else {
            let mut message = String::from_str("No volume group associated with block device: ");
            message.append(device);
            Err(OsdError::new(ErrorKind::NotFound, message))
        }
    }
}

/// The journal device chosen among the configured ones, and the size of the
/// journal to put on it.
#[derive(Clone, Debug, PartialEq, Eq)]
pub struct JournalChoice {
    /// The place of the device among the configured ones.
    pub index: usize,
    /// The device as configured.
    pub device: JournalDevice,
    /// The size of the journal in bytes.
    pub size: u64,
}

/// The configured journal devices; none where the configuration names none.
pub open spec fn configured_devices(config: CephConfig) -> Seq<JournalDevice> {
    match config.journal_devices {
        Some(devices) => devices@,
        None => Seq::<JournalDevice>::empty(),
    }
}

impl CephBackend {
    /// Chooses the device for the journal of a new OSD. `journal_size` is
    /// the cluster's configured journal size; `free` holds, for each
    /// configured device in order, the free space that a look at its
    /// partition table found. The device chosen is, among those with room
    /// for the journal, the one with the fewest partitions, the earliest
    /// configured among equals. Without such a device the OSD gets no
    /// journal, which is no error.
    pub fn select_journal(&self, journal_size: &str, free: &Vec<Option<FreeSpace>>) -> (r: Result<
        Option<JournalChoice>,
        OsdError,
    >)
        ensures
            match journal_bytes(journal_size@) {
                None => r is Err && r->Err_0@ == error_view(
                    ErrorKind::ParseFailure,
                    journal_size_message(journal_size@),
                ),
                Some(size) => {
                    let devices = configured_devices(self.config());
                    &&& r matches Ok(choice)
                    &&& match choice {
                        Some(c) => {
                            &&& c.size == size
                            &&& c.index < devices.len()
                            &&& c.device@ == devices[c.index as int]@
                            &&& probe_fits(free@, c.index as int, size)
                            &&& forall|j: int|
                                0 <= j < devices.len() && j != c.index && #[trigger] probe_fits(
                                    free@,
                                    j,
                                    size,
                                ) ==> ranks_before(partition_counts(devices), c.index as int, j)
                        },
                        None => forall|j: int|
                            0 <= j < devices.len() ==> !#[trigger] probe_fits(free@, j, size),
                    }
                },
            },
    {
        let size = match journal_size_bytes(journal_size) {
            Ok(size) => size,
            Err(e) => {
                return Err(e);
            },
        };
        let none: Vec<JournalDevice> = Vec::new();
        let devices = match &self.config.journal_devices {
            Some(devices) => devices,
            None => &none,
        };
        assert(devices@ =~= configured_devices(self.config()));
        match crate::journal::select_journal(devices, free, size) {
            Some(index) => Ok(
                Some(JournalChoice { index, device: devices[index].clone(), size }),
            ),
            None => Ok(None),
        }
    }

    /// Begins adding the disk `device` as an OSD of the modern layout,
    /// whatever the layout of this backend.
    pub fn add_bluestore_osd(&self, device: &str, id: Option<u64>, simulate: bool) -> (r: (
        AddOsd,
        Action,
    ))
        ensures
            exists|osd_fsid: Uuid, group: Uuid|
                is_version_4(osd_fsid.bits) && is_version_4(group.bits) && r.0@
                    == #[trigger] initial(
                    Layout::Bluestore,
                    device@,
                    id,
                    simulate,
                    osd_fsid,
                    group,
                ),
            r.0@.well_formed(),
            r.1 == r.0@.action(),
    {
        let osd_fsid = Uuid::random();
        let group = Uuid::random();
        AddOsd::start(Layout::Bluestore, device, id, simulate, osd_fsid, group)
    }

    /// Begins adding the disk `device` as an OSD of the legacy layout,
    /// whatever the layout of this backend.
    pub fn add_filestore_osd(&self, device: &str, id: Option<u64>, simulate: bool) -> (r: (
        AddOsd,
        Action,
    ))
        ensures
            exists|osd_fsid: Uuid, group: Uuid|
                is_version_4(osd_fsid.bits) && is_version_4(group.bits) && r.0@
                    == #[trigger] initial(
                    Layout::Filestore,
                    device@,
                    id,
                    simulate,
                    osd_fsid,
                    group,
                ),
            r.0@.well_formed(),
            r.1 == r.0@.action(),
    {
        let osd_fsid = Uuid::random();
        let group = Uuid::random();
        AddOsd::start(Layout::Filestore, device, id, simulate, osd_fsid, group)
    }
}

/// What was found at the mount of a disk.
#[derive(Clone, Debug, PartialEq, Eq)]
pub struct MountEvidence {
    /// Where the disk is mounted.
    pub path: String,
    /// The final name of that path, where it has one.
    pub file_name: Option<String>,
    /// The contents of the `whoami` marker, where it could be read.
    pub whoami: Option<String>,
    /// The contents of the `type` marker, where there is one.
    pub type_marker: Option<String>,
}

/// The content of an optional string.
pub open spec fn text_of(s: Option<String>) -> Option<Seq<char>> {
    match s {
        Some(t) => Some(t@),
        None => None,
    }
}

/// The number of the OSD at a mount, and where it is found: in the `whoami`
/// marker where that holds a number, else in the name of the directory; 0
/// without a look where the operation simulates.
pub open spec fn mounted_osd_id(mount: MountEvidence, simulate: bool) -> Result<
    (u64, IdSource),
    OsdErrorView,
> {
    if simulate {
        Ok((0, IdSource::Simulated))
    } else if mount.whoami matches Some(w) && whoami_value(w@) is Some {
        Ok((whoami_value(mount.whoami->0@)->0, IdSource::Marker))
    } else {
        match mount.file_name {
            None => Err(error_view(ErrorKind::NotFound, no_file_name_message(mount.path@))),
            Some(name) => match directory_name_value(name@) {
                Some(id) => Ok((id, IdSource::DirectoryName)),
                None => Err(error_view(ErrorKind::ParseFailure, no_id_in_name_message(name@))),
            },
        }
    }
}

/// The state in which the removal of the OSD on `device` begins, or the
/// reason why it cannot begin. The layout is settled first, by the look at
/// the device. An OSD of the modern layout is identified by the tags of the
/// volumes of its volume group, one of the legacy layout by what its mount
/// holds.
pub open spec fn removal_start(
    device: Seq<char>,
    simulate: bool,
    volume_tags: Option<Seq<Seq<Seq<char>>>>,
    mount: MountEvidence,
) -> Result<RemoveOsdView, OsdErrorView> {
    match removal_layout_of(device, volume_tags is Some, text_of(mount.type_marker)) {
        Err(e) => Err(e),
        Ok(Layout::Bluestore) => match osd_identity(
            match volume_tags {
                Some(tags) => tags,
                None => Seq::empty(),
            },
            device,
        ) {
            Err(e) => Err(e),
            Ok((osd_id, osd_fsid)) => Ok(
                RemoveOsdView {
                    layout: Layout::Bluestore,
                    simulate,
                    device,
                    osd_id,
                    osd_fsid: Some(osd_fsid),
                    position: 0,
                },
            ),
        },
        Ok(Layout::Filestore) => match mounted_osd_id(mount, simulate) {
            Err(e) => Err(e),
            Ok((osd_id, _)) => Ok(
                RemoveOsdView {
                    layout: Layout::Filestore,
                    simulate,
                    device,
                    osd_id,
                    osd_fsid: None,
                    position: 0,
                },
            ),
        },
    }
}

/// The tag texts of the volumes of a volume group, where there is one.
pub open spec fn group_texts(volume_tags: Option<&Vec<Vec<String>>>) -> Option<
    Seq<Seq<Seq<char>>>,
> {
    match volume_tags {
        Some(tags) => Some(volume_texts(tags@)),
        None => None,
    }
}

fn as_text(s: &Option<String>) -> (t: Option<&str>)
    ensures
        match t {
            Some(x) => *s matches Some(y) && x@ == y@,
            None => *s is None,
        },
{
    match s {
        Some(x) => Some(x.as_str()),
        None => None,
    }
}

impl CephBackend {
    /// Begins adding the disk `device` as an OSD, by the layout of this
    /// backend. The OSD gets a fresh random instance identifier, and its
    /// volume group a fresh random name. Gives the state and the first
    /// step.
    pub fn add_disk(&self, device: &str, id: Option<u64>, simulate: bool) -> (r: (AddOsd, Action))
        ensures
            exists|osd_fsid: Uuid, group: Uuid|
                is_version_4(osd_fsid.bits) && is_version_4(group.bits) && r.0@
                    == #[trigger] initial(
                    layout_of(self.version()),
                    device@,
                    id,
                    simulate,
                    osd_fsid,
                    group,
                ),
            r.0@.well_formed(),
            r.1 == r.0@.action(),
    {
        match self.layout() {
            Layout::Bluestore => self.add_bluestore_osd(device, id, simulate),
            Layout::Filestore => self.add_filestore_osd(device, id, simulate),
        }
    }

    /// Begins removing the OSD on `device`, which is taken for one of the
    /// modern layout first. `volume_tags` holds the tags of the logical
    /// volumes of the device's volume group, where the device belongs to
    /// one: the number and the instance identifier of the OSD are read from
    /// them, and are recorded nowhere else. A device without a volume group
    /// may still hold an OSD of the legacy layout, which the marker at its
    /// mount tells; the removal then goes by that layout. A device with
    /// neither holds nothing that could be removed, which is an error, and
    /// no step is asked for.
    pub fn remove_bluestore_osd(
        &self,
        device: &str,
        volume_tags: Option<&Vec<Vec<String>>>,
        mount: &MountEvidence,
        simulate: bool,
    ) -> (r: Result<(RemoveOsd, RemoveAction), OsdError>)
        ensures
            match r {
                Ok((state, action)) => {
                    &&& removal_start(device@, simulate, group_texts(volume_tags), *mount) == Ok::<
                        RemoveOsdView,
                        OsdErrorView,
                    >(state@)
                    &&& state@.well_formed()
                    &&& action == state@.action()
                },
                Err(e) => removal_start(device@, simulate, group_texts(volume_tags), *mount)
                    == Err::<RemoveOsdView, OsdErrorView>(e@),
            },
    {
        let layout = match self.removal_layout(
            device,
            volume_tags.is_some(),
            as_text(&mount.type_marker),
        ) {
            Ok(layout) => layout,
            Err(e) => {
                return Err(e);
            },
        };
        match (layout, volume_tags) {
            (Layout::Bluestore, Some(tags)) => match read_osd_identity(tags, device) {
                Ok((osd_id, osd_fsid)) => Ok(
                    RemoveOsd::start_bluestore(device, osd_id, osd_fsid, simulate),
                ),
                Err(e) => Err(e),
            },
            _ => match self.remove_filestore_osd(device, mount, simulate) {
                Ok((state, action, _)) => Ok((state, action)),
                Err(e) => Err(e),
            },
        }
    }

    /// Begins removing an OSD of the legacy layout from `device`, whose
    /// mount is known to hold one. The number of the OSD is found at the
    /// mount of the device; a number taken from the name of the directory is
    /// a best guess, and the result says where the number comes from.
    pub fn remove_filestore_osd(&self, device: &str, mount: &MountEvidence, simulate: bool) -> (r:
        Result<(RemoveOsd, RemoveAction, IdSource), OsdError>)
        ensures
            match r {
                Ok((state, action, source)) => {
                    &&& mounted_osd_id(*mount, simulate) matches Ok((osd_id, found_in))
                    &&& source == found_in
                    &&& state@ == (RemoveOsdView {
                        layout: Layout::Filestore,
                        simulate,
                        device: device@,
                        osd_id,
                        osd_fsid: None,
                        position: 0,
                    })
                    &&& state@.well_formed()
                    &&& action == state@.action()
                },
                Err(e) => mounted_osd_id(*mount, simulate) == Err::<(u64, IdSource), OsdErrorView>(
                    e@,
                ),
            },
    {
        match discover_osd_id(
            mount.path.as_str(),
            as_text(&mount.file_name),
            as_text(&mount.whoami),
            simulate,
        ) {
            Ok((osd_id, source)) => {
                let (state, action) = RemoveOsd::start_filestore(device, osd_id, simulate);
                Ok((state, action, source))
            },
            Err(e) => Err(e),
        }
    }

    /// Begins removing the OSD on `device`, whatever release the cluster
    /// runs. `volume_tags` holds the tags of the logical volumes of the
    /// device's volume group, where the device belongs to one; `mount` what
    /// was found at its mount. Without a volume group and without the marker
    /// of the legacy layout there is nothing that could be removed, which is
    /// an error.
    pub fn remove_disk(
        &self,
        device: &str,
        simulate: bool,
        volume_tags: Option<&Vec<Vec<String>>>,
        mount: &MountEvidence,
    ) -> (r: Result<(RemoveOsd, RemoveAction), OsdError>)
        ensures
            match r {
                Ok((state, action)) => {
                    &&& removal_start(device@, simulate, group_texts(volume_tags), *mount) == Ok::<
                        RemoveOsdView,
                        OsdErrorView,
                    >(state@)
                    &&& state@.well_formed()
                    &&& action == state@.action()
                },
                Err(e) => removal_start(device@, simulate, group_texts(volume_tags), *mount)
                    == Err::<RemoveOsdView, OsdErrorView>(e@),
            },
    {
        self.remove_bluestore_osd(device, volume_tags, mount, simulate)
    }
}

/// Nothing is removed from a device that belongs to no volume group and
/// whose mount does not hold the marker of the legacy layout, whatever
/// release the cluster runs and whatever else the mount holds: the removal
/// does not begin, and says that nothing was found.
pub proof fn lemma_nothing_to_remove(device: Seq<char>, simulate: bool, mount: MountEvidence)
    requires
        !(text_of(mount.type_marker) matches Some(c) && trimmed(c) == "filestore"@),
    ensures
        removal_start(device, simulate, None, mount) == Err::<RemoveOsdView, OsdErrorView>(
            error_view(ErrorKind::NotFound, no_volume_group_message(device)),
        ),
{
}

/// The number of bytes in one unit of capacity of the placement hierarchy.
pub const CAPACITY_UNIT: u64 = 1073741824;

/// The capacity that counts for the placement weight: whole units of 2^30
/// bytes. The weight is a thousandth of this number.
pub fn capacity_units(size: u64) -> (units: u64)
    ensures
        units == size / CAPACITY_UNIT,
{
    size / CAPACITY_UNIT
}

} // verus!
