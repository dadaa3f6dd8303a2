//! Journal devices: the configured candidates, their ordering, the
//! free-space filter, the detection of a partition that another OSD already
//! uses, and the choice between an existing partition and a new one.
use crate::error::{error_view, ErrorKind, OsdError, OsdErrorView};
use crate::ident::{invalid_uuid_message, uuid_text_value, Uuid};
use crate::text::{decimal_string, decimal_text, parse_u64, u64_text_value};
use vstd::prelude::*;
use vstd::string::*;

verus! {

/// A candidate or chosen location of a journal: a device, and once resolved
/// the partition on it.
#[derive(Debug, PartialEq, Eq)]
pub struct JournalDevice {
    /// Path of the underlying device.
    pub device: String,
    /// Index of the partition on the device.
    pub partition_id: Option<u32>,
    /// Stable identifier of that partition.
    pub partition_uuid: Option<Uuid>,
    /// How many partitions the device held when it was last looked at.
    pub num_partitions: Option<usize>,
}

/// The mathematical content of a [`JournalDevice`].
pub struct JournalDeviceView {
    pub device: Seq<char>,
    pub partition_id: Option<u32>,
    pub partition_uuid: Option<Uuid>,
    pub num_partitions: Option<usize>,
}

impl View for JournalDevice {
    type V = JournalDeviceView;

    open spec fn view(&self) -> JournalDeviceView {
        JournalDeviceView {
            device: self.device@,
            partition_id: self.partition_id,
            partition_uuid: self.partition_uuid,
            num_partitions: self.num_partitions,
        }
    }
}

impl Clone for JournalDevice {
    fn clone(&self) -> (copy: JournalDevice)
        ensures
            copy@ == self@,
    {
        JournalDevice {
            device: self.device.clone(),
            partition_id: self.partition_id,
            partition_uuid: self.partition_uuid,
            num_partitions: self.num_partitions,
        }
    }
}

impl JournalDeviceView {
    /// A partition identifier is only known of a partition that has an
    /// index.
    pub open spec fn well_formed(self) -> bool {
        self.partition_uuid is Some ==> self.partition_id is Some
    }

    /// The text form: the device path, directly followed by the partition
    /// index where there is one.
    pub open spec fn text(self) -> Seq<char> {
        match self.partition_id {
            Some(id) => self.device + decimal_text(id as nat),
            None => self.device,
        }
    }
}

impl JournalDevice {
    /// A candidate as the configuration names it: a device and nothing more.
    pub fn from_device(device: String) -> (journal: JournalDevice)
        ensures
            journal@ == (JournalDeviceView {
                device: device@,
                partition_id: None,
                partition_uuid: None,
                num_partitions: None,
            }),
            journal@.well_formed(),
    {
        JournalDevice { device, partition_id: None, partition_uuid: None, num_partitions: None }
    }

    /// Records how many partitions the device was found to hold.
    pub fn update_num_partitions(&mut self, count: usize)
        ensures
            final(self)@ == (JournalDeviceView { num_partitions: Some(count), ..old(self)@ }),
    {
        self.num_partitions = Some(count);
    }

    /// The text form of the journal, as it is handed to tools and written
    /// into tags.
    pub fn to_string(&self) -> (s: String)
        ensures
            s@ == self@.text(),
    {
        let mut s = self.device.clone();
        match self.partition_id {
            Some(id) => {
                let digits = decimal_string(id as u64);
                s.append(digits.as_str());
            },
            None => {},
        }
        s
    }
}

/// The place of a partition count in the order of candidates: an unknown
/// count comes before every known one, and known counts ascend.
pub open spec fn partition_rank(count: Option<usize>) -> int {
    match count {
        None => -1,
        Some(k) => k as int,
    }
}

/// Whether candidate `i` is considered strictly before candidate `j`: by
/// lower rank, and among equals by earlier place in the list.
pub open spec fn ranks_before(counts: Seq<Option<usize>>, i: int, j: int) -> bool {
    partition_rank(counts[i]) < partition_rank(counts[j]) || (partition_rank(counts[i])
        == partition_rank(counts[j]) && i < j)
}

/// Whether `order` lists every index of `counts` exactly once, by ascending
/// rank, equal ranks in the order in which they were given.
pub open spec fn is_stable_order(order: Seq<usize>, counts: Seq<Option<usize>>) -> bool {
    &&& order.len() == counts.len()
    &&& forall|k: int| 0 <= k < order.len() ==> (#[trigger] order[k]) < counts.len()
    &&& forall|i: usize| i < counts.len() ==> #[trigger] order.contains(i)
    &&& forall|k: int, l: int|
        0 <= k < l < order.len() ==> ranks_before(counts, order[k] as int, order[l] as int)
}

proof fn lemma_orders_agree(a: Seq<usize>, b: Seq<usize>, counts: Seq<Option<usize>>, k: int)
    requires
        is_stable_order(a, counts),
        is_stable_order(b, counts),
        0 <= k <= counts.len(),
    ensures
        forall|j: int| 0 <= j < k ==> a[j] == b[j],
    decreases k,
{
    if k > 0 {
        lemma_orders_agree(a, b, counts, k - 1);
        let x = a[k - 1];
        let y = b[k - 1];
        if x != y {
            assert(b.contains(x));
            let l = choose|l: int| 0 <= l < b.len() && b[l] == x;
            assert(a.contains(y));
            let m = choose|m: int| 0 <= m < a.len() && a[m] == y;
            if l < k - 1 {
                assert(a[l] == b[l]);
                assert(ranks_before(counts, a[l] as int, a[k - 1] as int));
            } else if m < k - 1 {
                assert(a[m] == b[m]);
                assert(ranks_before(counts, b[m] as int, b[k - 1] as int));
            } else {
                assert(ranks_before(counts, b[k - 1] as int, b[l] as int));
                assert(ranks_before(counts, a[k - 1] as int, a[m] as int));
            }
        }
    }
}

/// Candidates are considered by ascending partition count: a candidate
/// never comes before one with fewer partitions.
pub proof fn lemma_order_ascends(order: Seq<usize>, counts: Seq<Option<usize>>)
    requires
        is_stable_order(order, counts),
    ensures
        forall|k: int, l: int|
            0 <= k <= l < order.len() ==> partition_rank(counts[order[k] as int])
                <= partition_rank(counts[order[l] as int]),
{
    assert forall|k: int, l: int| 0 <= k <= l < order.len() implies partition_rank(
        counts[order[k] as int],
    ) <= partition_rank(counts[order[l] as int]) by {
        if k < l {
            assert(ranks_before(counts, order[k] as int, order[l] as int));
        }
    }
}

/// There is only one order in which the candidates with given partition
/// counts are considered.
pub proof fn lemma_stable_order_unique(a: Seq<usize>, b: Seq<usize>, counts: Seq<Option<usize>>)
    requires
        is_stable_order(a, counts),
        is_stable_order(b, counts),
    ensures
        a == b,
{
    lemma_orders_agree(a, b, counts, counts.len() as int);
    assert(a =~= b);
}

/// The partition counts of a list of candidates.
pub open spec fn partition_counts(devices: Seq<JournalDevice>) -> Seq<Option<usize>> {
    Seq::new(devices.len(), |i: int| devices[i].num_partitions)
}

fn rank_exceeds(a: Option<usize>, b: Option<usize>) -> (r: bool)
    ensures
        r == (partition_rank(a) > partition_rank(b)),
{
    match (a, b) {
        (None, _) => false,
        (Some(_), None) => true,
        (Some(x), Some(y)) => x > y,
    }
}

/// The order in which candidates with the given partition counts are
/// considered: fewest partitions first, ties in the order given.
pub fn partition_order(counts: &Vec<Option<usize>>) -> (order: Vec<usize>)
    ensures
        is_stable_order(order@, counts@),
{
    let n = counts.len();
    let mut order: Vec<usize> = Vec::new();
    let mut k: usize = 0;
    while k < n
        invariant
            n == counts.len(),
            k <= n,
            order.len() == k,
            forall|a: int| 0 <= a < order.len() ==> (#[trigger] order@[a]) < k,
            forall|i: usize| i < k ==> #[trigger] order@.contains(i),
            forall|a: int, b: int|
                0 <= a < b < order.len() ==> ranks_before(
                    counts@,
                    order@[a] as int,
                    order@[b] as int,
                ),
        decreases n - k,
    {
        let mut p: usize = order.len();
        while p > 0 && rank_exceeds(counts[order[p - 1]], counts[k])
            invariant
                n == counts.len(),
                k < n,
                p <= order.len(),
                forall|a: int| 0 <= a < order.len() ==> (#[trigger] order@[a]) < k,
                forall|q: int|
                    p <= q < order.len() ==> partition_rank(counts@[(#[trigger] order@[q]) as int])
                        > partition_rank(counts@[k as int]),
            decreases p,
        {
            p -= 1;
        }
        let ghost before = order@;
        order.insert(p, k);
        proof {
            let after = order@;
            assert(after == before.insert(p as int, k));
            assert forall|a: int| 0 <= a < after.len() implies (#[trigger] after[a]) < k + 1 by {
                if a < p {
                    assert(after[a] == before[a]);
                } else if a > p {
                    assert(after[a] == before[a - 1]);
                }
            }
            assert forall|i: usize| i < k + 1 implies #[trigger] after.contains(i) by {
                if i == k {
                    assert(after[p as int] == k);
                } else {
                    assert(before.contains(i));
                    let w = choose|w: int| 0 <= w < before.len() && before[w] == i;
                    if w < p {
                        assert(after[w] == before[w]);
                    } else {
                        assert(after[w + 1] == before[w]);
                    }
                }
            }
            assert forall|a: int, b: int| 0 <= a < b < after.len() implies ranks_before(
                counts@,
                after[a] as int,
                after[b] as int,
            ) by {
                if b < p {
                    assert(after[a] == before[a] && after[b] == before[b]);
                } else if a > p {
                    assert(after[a] == before[a - 1] && after[b] == before[b - 1]);
                } else if a < p && b > p {
                    assert(after[a] == before[a] && after[b] == before[b - 1]);
                } else if b == p {
                    assert(after[a] == before[a]);
                    assert(before[a] < k);
                    if a < p - 1 {
                        assert(ranks_before(counts@, before[a] as int, before[p - 1] as int));
                    }
                } else {
                    assert(a == p);
                    assert(after[b] == before[b - 1]);
                }
            }
        }
        k += 1;
    }
    order
}

/// The candidates in the order in which they are considered: fewest
/// partitions first, ties in the order given.
pub fn sort_by_partition_count(devices: &Vec<JournalDevice>) -> (sorted: Vec<JournalDevice>)
    ensures
        sorted.len() == devices.len(),
        exists|order: Seq<usize>|
            {
                &&& is_stable_order(order, partition_counts(devices@))
                &&& forall|k: int|
                    0 <= k < sorted.len() ==> (#[trigger] sorted@[k])@ == devices@[order[k] as int]@
            },
{
    let mut counts: Vec<Option<usize>> = Vec::new();
    let mut i: usize = 0;
    while i < devices.len()
        invariant
            i <= devices.len(),
            counts@ == partition_counts(devices@).take(i as int),
        decreases devices.len() - i,
    {
        counts.push(devices[i].num_partitions);
        assert(counts@ =~= partition_counts(devices@).take(i + 1));
        i += 1;
    }
    assert(counts@ =~= partition_counts(devices@));
    let order = partition_order(&counts);
    let mut sorted: Vec<JournalDevice> = Vec::new();
    let mut k: usize = 0;
    while k < order.len()
        invariant
            k <= order.len(),
            order.len() == devices.len(),
            sorted.len() == k,
            is_stable_order(order@, partition_counts(devices@)),
            forall|j: int| 0 <= j < k ==> (#[trigger] sorted@[j])@ == devices@[order@[j] as int]@,
        decreases order.len() - k,
    {
        sorted.push(devices[order[k]].clone());
        k += 1;
    }
    sorted
}

/// The size of a logical block of a partition table.
#[derive(Clone, Copy, Debug, PartialEq, Eq, Structural)]
pub enum LogicalBlockSize {
    Lb512,
    Lb4096,
}

impl LogicalBlockSize {
    /// The number of bytes in one block.
    pub open spec fn spec_bytes(self) -> u64 {
        match self {
            LogicalBlockSize::Lb512 => 512,
            LogicalBlockSize::Lb4096 => 4096,
        }
    }

    /// The number of bytes in one block.
    #[verifier::when_used_as_spec(spec_bytes)]
    pub fn bytes(self) -> (n: u64)
        ensures
            n == self.spec_bytes(),
    {
        match self {
            LogicalBlockSize::Lb512 => 512,
            LogicalBlockSize::Lb4096 => 4096,
        }
    }
}

/// The free extents of a partition table, each a first block and a length in
/// blocks, with the table's block size.
#[derive(Clone, Debug, PartialEq, Eq)]
pub struct FreeSpace {
    pub extents: Vec<(u64, u64)>,
    pub block_size: LogicalBlockSize,
}

/// Whether a free extent of `length` blocks holds `size` bytes: it does
/// where it is at least that large.
pub open spec fn extent_fits(length: u64, block_size: LogicalBlockSize, size: u64) -> bool {
    length * block_size.spec_bytes() >= size
}

/// Whether one of the free extents alone holds `size` bytes. Extents do not
/// add up: the space must be contiguous.
pub open spec fn has_room(extents: Seq<(u64, u64)>, block_size: LogicalBlockSize, size: u64) -> bool {
    exists|i: int| 0 <= i < extents.len() && extent_fits(#[trigger] extents[i].1, block_size, size)
}

/// Whether a partition of `size` bytes fits into one of the free extents,
/// one of exactly that size included.
pub fn enough_free_space(extents: &Vec<(u64, u64)>, block_size: LogicalBlockSize, size: u64) -> (enough:
    bool)
    ensures
        enough == has_room(extents@, block_size, size),
{
    let block: u128 = block_size.bytes() as u128;
    let mut i: usize = 0;
    while i < extents.len()
        invariant
            i <= extents.len(),
            block == block_size.spec_bytes(),
            forall|j: int| 0 <= j < i ==> !extent_fits(#[trigger] extents@[j].1, block_size, size),
        decreases extents.len() - i,
    {
        let length: u128 = extents[i].1 as u128;
        assert(length * block <= u64::MAX * 4096) by (nonlinear_arith)
            requires
                0 <= length <= u64::MAX,
                0 <= block <= 4096,
        ;
        if length * block >= size as u128 {
            return true;
        }
        i += 1;
    }
    false
}

/// The number of bytes in one unit of the configured journal size.
pub const JOURNAL_SIZE_UNIT: u64 = 1048576;

/// The journal size in bytes that a configured value stands for: the value
/// is a count of units of 1024 * 1024 bytes.
pub open spec fn journal_bytes(value: Seq<char>) -> Option<u64> {
    match u64_text_value(value) {
        Some(units) => if units * JOURNAL_SIZE_UNIT <= u64::MAX {
            Some((units * JOURNAL_SIZE_UNIT) as u64)
        } else {
            None
        },
        None => None,
    }
}

/// The message of the error for a journal size that is no number or does not
/// fit once converted to bytes.
pub open spec fn journal_size_message(value: Seq<char>) -> Seq<char> {
    "invalid osd_journal_size: "@ + value
}

/// The journal size in bytes, from the cluster's configured value. A value
/// that is no unsigned number, or too large to express in bytes, is a parse
/// failure.
pub fn journal_size_bytes(value: &str) -> (r: Result<u64, OsdError>)
    ensures
        match journal_bytes(value@) {
            Some(bytes) => r == Ok::<u64, OsdError>(bytes),
            None => r is Err && r->Err_0@ == error_view(
                ErrorKind::ParseFailure,
                journal_size_message(value@),
            ),
        },
{
    let bytes = match parse_u64(value) {
        Some(units) => units.checked_mul(JOURNAL_SIZE_UNIT),
        None => None,
    };
    match bytes {
        Some(b) => Ok(b),
        None => {
            let mut message = String::from_str("invalid osd_journal_size: ");
            message.append(value);
            Err(OsdError::new(ErrorKind::ParseFailure, message))
        },
    }
}

/// Whether the look at the `j`-th candidate found room for a journal of
/// `size` bytes. A candidate that was not looked at, or whose partition
/// table could not be read, has none.
pub open spec fn probe_fits(free: Seq<Option<FreeSpace>>, j: int, size: u64) -> bool {
    0 <= j < free.len() && (free[j] matches Some(f) && has_room(f.extents@, f.block_size, size))
}

/// Whether `chosen` is the candidate that takes the journal, given each
/// candidate's partition count and whether it can take the journal: among
/// those that can the one with the fewest partitions, the earliest in the
/// list among equals; none where none can.
pub open spec fn is_first_choice(
    counts: Seq<Option<usize>>,
    fits: Seq<bool>,
    chosen: Option<usize>,
) -> bool {
    match chosen {
        Some(i) => {
            &&& i < counts.len()
            &&& fits[i as int]
            &&& forall|j: int|
                0 <= j < counts.len() && j != i && #[trigger] fits[j] ==> ranks_before(
                    counts,
                    i as int,
                    j,
                )
        },
        None => forall|j: int| 0 <= j < counts.len() ==> !#[trigger] fits[j],
    }
}

/// Goes through the candidates in their order and takes the first that can
/// take the journal.
fn first_choice(counts: &Vec<Option<usize>>, fits: &Vec<bool>) -> (chosen: Option<
    usize,
>)
    requires
        counts.len() == fits.len(),
    ensures
        is_first_choice(counts@, fits@, chosen),
{
    let order = partition_order(counts);
    let mut k: usize = 0;
    while k < order.len()
        invariant
            k <= order.len(),
            counts.len() == fits.len(),
            is_stable_order(order@, counts@),
            forall|l: int| 0 <= l < k ==> !fits@[(#[trigger] order@[l]) as int],
        decreases order.len() - k,
    {
        let at = order[k];
        if fits[at] {
            assert forall|j: int|
                0 <= j < counts.len() && j != at && #[trigger] fits@[j] implies ranks_before(
                counts@,
                at as int,
                j,
            ) by {
                assert(order@.contains(j as usize));
                let l = choose|l: int| 0 <= l < order@.len() && order@[l] == j as usize;
                if l < k {
                    assert(!fits@[order@[l] as int]);
                }
            }
            return Some(at);
        }
        k += 1;
    }
    assert forall|j: int| 0 <= j < counts.len() implies !#[trigger] fits@[j] by {
        assert(order@.contains(j as usize));
        let l = choose|l: int| 0 <= l < order@.len() && order@[l] == j as usize;
        assert(!fits@[order@[l] as int]);
    }
    None
}

/// The candidate that takes the journal. `free` holds, for each candidate
/// in order, the free space that a look at its partition table found. The
/// candidate chosen is, among those with room for `size` bytes, the one with
/// the fewest partitions, the earliest in the list among equals. `None`
/// where no candidate has room.
pub fn select_journal(devices: &Vec<JournalDevice>, free: &Vec<Option<FreeSpace>>, size: u64) -> (chosen:
    Option<usize>)
    ensures
        match chosen {
            Some(i) => {
                &&& i < devices.len()
                &&& probe_fits(free@, i as int, size)
                &&& forall|j: int|
                    0 <= j < devices.len() && j != i && #[trigger] probe_fits(free@, j, size)
                        ==> ranks_before(partition_counts(devices@), i as int, j)
            },
            None => forall|j: int|
                0 <= j < devices.len() ==> !#[trigger] probe_fits(free@, j, size),
        },
{
    let mut counts: Vec<Option<usize>> = Vec::new();
    let mut fits: Vec<bool> = Vec::new();
    let mut i: usize = 0;
    while i < devices.len()
        invariant
            i <= devices.len(),
            counts@ == partition_counts(devices@).take(i as int),
            fits.len() == i,
            forall|j: int| 0 <= j < i ==> #[trigger] fits@[j] == probe_fits(free@, j, size),
        decreases devices.len() - i,
    {
        counts.push(devices[i].num_partitions);
        let room = if i < free.len() {
            match &free[i] {
                Some(f) => enough_free_space(&f.extents, f.block_size, size),
                None => false,
            }
        } else {
            false
        };
        fits.push(room);
        assert(counts@ =~= partition_counts(devices@).take(i + 1));
        i += 1;
    }
    assert(counts@ =~= partition_counts(devices@));
    let chosen = first_choice(&counts, &fits);
    proof {
        match chosen {
            Some(at) => {
                assert(fits@[at as int]);
                assert forall|j: int|
                    0 <= j < devices.len() && j != at && #[trigger] probe_fits(
                        free@,
                        j,
                        size,
                    ) implies ranks_before(partition_counts(devices@), at as int, j) by {
                    assert(fits@[j]);
                }
            },
            None => {
                assert forall|j: int| 0 <= j < devices.len() implies !#[trigger] probe_fits(
                    free@,
                    j,
                    size,
                ) by {
                    assert(!fits@[j]);
                }
            },
        }
    }
    chosen
}

/// What a look at the journal link of one OSD found.
#[derive(Clone, Debug, PartialEq, Eq)]
pub enum JournalLink {
    /// The path is no symbolic link.
    NotSymlink,
    /// Reading the link or probing its target failed.
    Failed(OsdError),
    /// The link leads to a partition; the text is the partition identifier
    /// that the probe reported.
    Partition(String),
}

/// What was found in the directory of one OSD of this host.
#[derive(Clone, Debug, PartialEq, Eq)]
pub struct OsdJournal {
    /// The directory of the OSD.
    pub osd_dir: String,
    /// Whether it holds `journal`, the name that the legacy layout uses.
    pub has_journal: bool,
    /// Whether it holds `block.wal`, the name that the modern layout uses.
    pub has_block_wal: bool,
    /// What the one journal path is, where exactly one exists and it was
    /// looked at.
    pub link: Option<JournalLink>,
}

/// The journal of one OSD, once its partition identifier has been read.
#[derive(Clone, Debug, PartialEq, Eq)]
pub enum JournalReading {
    /// The OSD has no journal.
    NoJournal,
    /// The journal lies on the partition with this identifier.
    Partition(Uuid),
    /// The journal cannot be told.
    Broken(OsdError),
}

/// The mathematical content of a [`JournalReading`].
pub enum JournalReadingView {
    NoJournal,
    Partition(Uuid),
    Broken(OsdErrorView),
}

impl View for JournalReading {
    type V = JournalReadingView;

    open spec fn view(&self) -> JournalReadingView {
        match self {
            JournalReading::NoJournal => JournalReadingView::NoJournal,
            JournalReading::Partition(id) => JournalReadingView::Partition(*id),
            JournalReading::Broken(e) => JournalReadingView::Broken(e@),
        }
    }
}

/// The path of the journal link inside an OSD directory.
pub open spec fn journal_path_text(osd_dir: Seq<char>, modern: bool) -> Seq<char> {
    if modern {
        osd_dir + "/block.wal"@
    } else {
        osd_dir + "/journal"@
    }
}

/// The message of the error for an OSD directory that holds both journal
/// names.
pub open spec fn both_journals_message(osd_dir: Seq<char>) -> Seq<char> {
    "Unable to determine which journal path to use.  Both "@ + journal_path_text(osd_dir, false)
        + " and "@ + journal_path_text(osd_dir, true) + " exist."@
}

/// The message of the error for a journal that is no symbolic link.
pub open spec fn not_symlink_message(path: Seq<char>) -> Seq<char> {
    "Journal "@ + path + " is not a symlink. Unable to find the device this journal points to"@
}

/// The message of the error for a journal that was not looked at.
pub open spec fn unread_journal_message(path: Seq<char>) -> Seq<char> {
    "Journal "@ + path + " was not read"@
}

/// What the findings in one OSD directory say of its journal. Both names at
/// once contradict each other; neither means no journal; a single one is
/// judged by its link, whose partition identifier must be a UUID.
pub open spec fn journal_reading(osd: OsdJournal) -> JournalReadingView {
    if osd.has_journal && osd.has_block_wal {
        JournalReadingView::Broken(
            error_view(ErrorKind::StateInconsistency, both_journals_message(osd.osd_dir@)),
        )
    } else if !osd.has_journal && !osd.has_block_wal {
        JournalReadingView::NoJournal
    } else {
        let path = journal_path_text(osd.osd_dir@, osd.has_block_wal);
        match osd.link {
            None => JournalReadingView::Broken(
                error_view(ErrorKind::IoFailure, unread_journal_message(path)),
            ),
            Some(JournalLink::NotSymlink) => JournalReadingView::Broken(
                error_view(ErrorKind::StateInconsistency, not_symlink_message(path)),
            ),
            Some(JournalLink::Failed(e)) => JournalReadingView::Broken(e@),
            Some(JournalLink::Partition(text)) => match uuid_text_value(text@) {
                Some(bits) => JournalReadingView::Partition(Uuid { bits }),
                None => JournalReadingView::Broken(
                    error_view(ErrorKind::ParseFailure, invalid_uuid_message(text@)),
                ),
            },
        }
    }
}

/// The path of the journal link inside an OSD directory: `block.wal` for the
/// modern layout, `journal` for the legacy one.
pub fn journal_path(osd_dir: &str, modern: bool) -> (path: String)
    ensures
        path@ == journal_path_text(osd_dir@, modern),
{
    let mut path = String::from_str(osd_dir);
    if modern {
        path.append("/block.wal");
    } else {
        path.append("/journal");
    }
    path
}

/// Judges the findings in one OSD directory.
pub fn read_journal(osd: &OsdJournal) -> (reading: JournalReading)
    ensures
        reading@ == journal_reading(*osd),
{
    if osd.has_journal && osd.has_block_wal {
        let old_path = journal_path(osd.osd_dir.as_str(), false);
        let new_path = journal_path(osd.osd_dir.as_str(), true);
        let mut message = String::from_str(
            "Unable to determine which journal path to use.  Both ",
        );
        message.append(old_path.as_str());
        message.append(" and ");
        message.append(new_path.as_str());
        message.append(" exist.");
        return JournalReading::Broken(OsdError::new(ErrorKind::StateInconsistency, message));
    }
    if !osd.has_journal && !osd.has_block_wal {
        return JournalReading::NoJournal;
    }
    let path = journal_path(osd.osd_dir.as_str(), osd.has_block_wal);
    match &osd.link {
        None => {
            let mut message = String::from_str("Journal ");
            message.append(path.as_str());
            message.append(" was not read");
            JournalReading::Broken(OsdError::new(ErrorKind::IoFailure, message))
        },
        Some(JournalLink::NotSymlink) => {
            let mut message = String::from_str("Journal ");
            message.append(path.as_str());
            message.append(
                " is not a symlink. Unable to find the device this journal points to",
            );
            JournalReading::Broken(OsdError::new(ErrorKind::StateInconsistency, message))
        },
        Some(JournalLink::Failed(e)) => JournalReading::Broken(e.duplicate()),
        Some(JournalLink::Partition(text)) => match Uuid::parse(text.as_str()) {
            Ok(id) => JournalReading::Partition(id),
            Err(e) => JournalReading::Broken(e),
        },
    }
}

/// Whether one of the journals lies on the partition `wanted`, going through
/// them in order: the first that does settles it, and so does the first that
/// cannot be told, as an error. Journals after that one are not considered.
pub open spec fn claimed(wanted: Uuid, readings: Seq<JournalReadingView>) -> Result<
    bool,
    OsdErrorView,
>
    decreases readings.len(),
{
    if readings.len() == 0 {
        Ok(false)
    } else {
        match readings[0] {
            JournalReadingView::Broken(e) => Err(e),
            JournalReadingView::Partition(id) => if id == wanted {
                Ok(true)
            } else {
                claimed(wanted, readings.skip(1))
            },
            JournalReadingView::NoJournal => claimed(wanted, readings.skip(1)),
        }
    }
}

/// Whether a result and the result that a specification names agree: the
/// same value, or errors of the same content.
pub open spec fn result_is<T>(r: Result<T, OsdError>, expected: Result<T, OsdErrorView>) -> bool {
    match r {
        Ok(v) => expected == Ok::<T, OsdErrorView>(v),
        Err(e) => expected == Err::<T, OsdErrorView>(e@),
    }
}

/// The judged journals of a list of OSD directories.
pub open spec fn journal_readings(osds: Seq<OsdJournal>) -> Seq<JournalReadingView> {
    Seq::new(osds.len(), |i: int| journal_reading(osds[i]))
}

/// The content of a list of readings.
pub open spec fn reading_views(readings: Seq<JournalReading>) -> Seq<JournalReadingView> {
    Seq::new(readings.len(), |i: int| readings[i]@)
}

/// Whether one of the journals read lies on the partition `wanted`.
pub fn claimed_by(wanted: Uuid, readings: &Vec<JournalReading>) -> (r: Result<bool, OsdError>)
    ensures
        result_is(r, claimed(wanted, reading_views(readings@))),
{
    let ghost all = reading_views(readings@);
    let mut i: usize = 0;
    assert(all.skip(0) =~= all);
    while i < readings.len()
        invariant
            i <= readings.len(),
            all == reading_views(readings@),
            claimed(wanted, all) == claimed(wanted, all.skip(i as int)),
        decreases readings.len() - i,
    {
        assert(all.skip(i as int)[0] == readings@[i as int]@);
        assert(all.skip(i as int).skip(1) =~= all.skip(i + 1));
        match &readings[i] {
            JournalReading::Broken(e) => {
                return Err(e.duplicate());
            },
            JournalReading::Partition(id) => {
                if id.bits == wanted.bits {
                    return Ok(true);
                }
            },
            JournalReading::NoJournal => {},
        }
        i += 1;
    }
    Ok(false)
}

/// Whether another OSD of this host already uses the partition `wanted` as
/// its journal, judged from what was found in the directory of every OSD.
pub fn partition_in_use(wanted: &Uuid, osds: &Vec<OsdJournal>) -> (r: Result<bool, OsdError>)
    ensures
        result_is(r, claimed(*wanted, journal_readings(osds@))),
{
    let mut readings: Vec<JournalReading> = Vec::new();
    let mut i: usize = 0;
    while i < osds.len()
        invariant
            i <= osds.len(),
            readings.len() == i,
            forall|j: int| 0 <= j < i ==> (#[trigger] readings@[j])@ == journal_reading(osds@[j]),
        decreases osds.len() - i,
    {
        readings.push(read_journal(&osds[i]));
        i += 1;
    }
    assert(reading_views(readings@) =~= journal_readings(osds@));
    claimed_by(*wanted, &readings)
}

/// One partition of a table: its index and its identifier.
#[derive(Clone, Copy, Debug, PartialEq, Eq, Structural)]
pub struct PartitionEntry {
    pub id: u32,
    pub part_guid: Uuid,
}

/// The identifier of the first partition with index `id`, if there is one.
pub open spec fn find_guid(partitions: Seq<PartitionEntry>, id: u32) -> Option<Uuid>
    decreases partitions.len(),
{
    if partitions.len() == 0 {
        None
    } else if partitions[0].id == id {
        Some(partitions[0].part_guid)
    } else {
        find_guid(partitions.skip(1), id)
    }
}

/// Looks a partition up by its index.
pub fn find_partition(partitions: &Vec<PartitionEntry>, id: u32) -> (r: Option<Uuid>)
    ensures
        r == find_guid(partitions@, id),
{
    let mut i: usize = 0;
    assert(partitions@.skip(0) =~= partitions@);
    while i < partitions.len()
        invariant
            i <= partitions.len(),
            find_guid(partitions@, id) == find_guid(partitions@.skip(i as int), id),
        decreases partitions.len() - i,
    {
        assert(partitions@.skip(i as int)[0] == partitions@[i as int]);
        assert(partitions@.skip(i as int).skip(1) =~= partitions@.skip(i + 1));
        if partitions[i].id == id {
            return Some(partitions[i].part_guid);
        }
        i += 1;
    }
    None
}

/// The name given to a journal partition that this backend creates.
pub fn journal_partition_name() -> (name: &'static str)
    ensures
        name@ == "ceph_journal"@,
{
    "ceph_journal"
}

/// What to do next about a chosen journal candidate.
#[derive(Clone, Debug, PartialEq, Eq)]
pub enum JournalDecision {
    /// Read the partition table of the device and ask again.
    NeedPartitions,
    /// Find out whether an OSD of this host uses the partition with this
    /// identifier, and ask again.
    NeedUsage(Uuid),
    /// Use the existing partition as it is.
    Reuse(JournalDevice),
    /// Create a new partition of the requested size on the device.
    Create,
}

/// The mathematical content of a [`JournalDecision`].
pub enum JournalDecisionView {
    NeedPartitions,
    NeedUsage(Uuid),
    Reuse(JournalDeviceView),
    Create,
}

impl View for JournalDecision {
    type V = JournalDecisionView;

    open spec fn view(&self) -> JournalDecisionView {
        match self {
            JournalDecision::NeedPartitions => JournalDecisionView::NeedPartitions,
            JournalDecision::NeedUsage(id) => JournalDecisionView::NeedUsage(*id),
            JournalDecision::Reuse(j) => JournalDecisionView::Reuse(j@),
            JournalDecision::Create => JournalDecisionView::Create,
        }
    }
}

/// The message of the error for a configured partition that the device does
/// not hold.
pub open spec fn partition_missing_message(journal: JournalDeviceView) -> Seq<char> {
    journal.text() + " not found for journal device"@
}

/// What is done with a candidate. With only a device, a partition is
/// created. With a partition index, the partition must exist; it is reused
/// unless another OSD uses it, in which case a new one is created.
pub open spec fn journal_decision(
    journal: JournalDeviceView,
    partitions: Option<Seq<PartitionEntry>>,
    in_use: Option<bool>,
) -> Result<JournalDecisionView, OsdErrorView> {
    match journal.partition_id {
        None => Ok(JournalDecisionView::Create),
        Some(id) => match partitions {
            None => Ok(JournalDecisionView::NeedPartitions),
            Some(table) => match find_guid(table, id) {
                None => Err(error_view(ErrorKind::NotFound, partition_missing_message(journal))),
                Some(guid) => match in_use {
                    None => Ok(JournalDecisionView::NeedUsage(guid)),
                    Some(true) => Ok(JournalDecisionView::Create),
                    Some(false) => Ok(
                        JournalDecisionView::Reuse(
                            JournalDeviceView {
                                device: journal.device,
                                partition_id: Some(id),
                                partition_uuid: None,
                                num_partitions: Some(1),
                            },
                        ),
                    ),
                },
            },
        },
    }
}

/// The content of a decision or of its refusal.
pub open spec fn decision_view(r: Result<JournalDecision, OsdError>) -> Result<
    JournalDecisionView,
    OsdErrorView,
> {
    match r {
        Ok(d) => Ok(d@),
        Err(e) => Err(e@),
    }
}

/// Decides what is done with the chosen candidate, from what is known so
/// far: the partition table of its device once it was read, and whether the
/// configured partition is in use once that was found out.
pub fn evaluate_journal(
    journal: &JournalDevice,
    partitions: Option<&Vec<PartitionEntry>>,
    in_use: Option<bool>,
) -> (r: Result<JournalDecision, OsdError>)
    ensures
        decision_view(r) == journal_decision(
            journal@,
            match partitions {
                Some(table) => Some(table@),
                None => None,
            },
            in_use,
        ),
{
    let id = match journal.partition_id {
        None => {
            return Ok(JournalDecision::Create);
        },
        Some(id) => id,
    };
    let table = match partitions {
        None => {
            return Ok(JournalDecision::NeedPartitions);
        },
        Some(table) => table,
    };
    let guid = match find_partition(table, id) {
        None => {
            let mut message = journal.to_string();
            message.append(" not found for journal device");
            return Err(OsdError::new(ErrorKind::NotFound, message));
        },
        Some(guid) => guid,
    };
    match in_use {
        None => Ok(JournalDecision::NeedUsage(guid)),
        Some(true) => Ok(JournalDecision::Create),
        Some(false) => Ok(
            JournalDecision::Reuse(
                JournalDevice {
                    device: journal.device.clone(),
                    partition_id: Some(id),
                    partition_uuid: None,
                    num_partitions: Some(1),
                },
            ),
        ),
    }
}

/// A partition that an OSD of this host uses as its journal is never given
/// to another: whatever the candidate and the table, the decision for a
/// partition in use is not to use it again.
pub proof fn lemma_used_partition_is_not_reused(
    journal: JournalDeviceView,
    partitions: Option<Seq<PartitionEntry>>,
)
    ensures
        !(journal_decision(journal, partitions, Some(true)) matches Ok(
            JournalDecisionView::Reuse(_),
        )),
{
}

/// The message of the error for a partition that was added but is not in the
/// table read back.
pub open spec fn partition_lost_message(device: Seq<char>, id: u32) -> Seq<char> {
    "Added partition "@ + decimal_text(id as nat) + " to "@ + device
        + " but partition not found"@
}

/// The journal on a newly created partition, as the table read back after
/// the write shows it.
pub open spec fn created_journal_view(
    device: Seq<char>,
    id: u32,
    partitions: Seq<PartitionEntry>,
) -> Result<JournalDeviceView, OsdErrorView> {
    match find_guid(partitions, id) {
        Some(guid) => Ok(
            JournalDeviceView {
                device,
                partition_id: Some(id),
                partition_uuid: Some(guid),
                num_partitions: Some(partitions.len() as usize),
            },
        ),
        None => Err(
            error_view(ErrorKind::StateInconsistency, partition_lost_message(device, id)),
        ),
    }
}

/// The journal device for the partition `id` that was just added to
/// `device`, from the partition table read back after the write. A table
/// that lacks the partition contradicts the write.
pub fn created_journal(device: &str, id: u32, partitions: &Vec<PartitionEntry>) -> (r: Result<
    JournalDevice,
    OsdError,
>)
    ensures
        match r {
            Ok(journal) => created_journal_view(device@, id, partitions@) == Ok::<
                JournalDeviceView,
                OsdErrorView,
            >(journal@) && journal@.well_formed(),
            Err(e) => created_journal_view(device@, id, partitions@) == Err::<
                JournalDeviceView,
                OsdErrorView,
            >(e@),
        },
{
    match find_partition(partitions, id) {
        Some(guid) => Ok(
            JournalDevice {
                device: String::from_str(device),
                partition_id: Some(id),
                partition_uuid: Some(guid),
                num_partitions: Some(partitions.len()),
            },
        ),
        None => {
            let digits = decimal_string(id as u64);
            let mut message = String::from_str("Added partition ");
            message.append(digits.as_str());
            message.append(" to ");
            message.append(device);
            message.append(" but partition not found");
            Err(OsdError::new(ErrorKind::StateInconsistency, message))
        },
    }
}

/// What is known of the use of one partition of a journal device.
#[derive(Clone, Copy, Debug, PartialEq, Eq, Structural)]
pub struct PartitionUsage {
    /// The index of the partition.
    pub id: u32,
    /// Whether an OSD of this host uses the partition, or `None` where that
    /// could not be found out.
    pub in_use: Option<bool>,
}

/// The indices of the partitions that no OSD uses, in the order of the
/// table. A partition whose use could not be found out counts as used.
pub open spec fn unused_ids(usage: Seq<PartitionUsage>) -> Seq<u32>
    decreases usage.len(),
{
    if usage.len() == 0 {
        Seq::<u32>::empty()
    } else if usage.last().in_use == Some(false) {
        unused_ids(usage.drop_last()).push(usage.last().id)
    } else {
        unused_ids(usage.drop_last())
    }
}

/// The partitions of a journal device that can be given up: those that no
/// OSD of this host uses. The table has to be written again exactly where
/// there is one.
pub fn remove_unused_journals(usage: &Vec<PartitionUsage>) -> (ids: Vec<u32>)
    ensures
        ids@ == unused_ids(usage@),
{
    let mut ids: Vec<u32> = Vec::new();
    let mut i: usize = 0;
    while i < usage.len()
        invariant
            i <= usage.len(),
            ids@ == unused_ids(usage@.take(i as int)),
        decreases usage.len() - i,
    {
        assert(usage@.take(i + 1).drop_last() =~= usage@.take(i as int));
        assert(usage@.take(i + 1).last() == usage@[i as int]);
        match usage[i].in_use {
            Some(false) => {
                ids.push(usage[i].id);
            },
            _ => {},
        }
        i += 1;
    }
    assert(usage@.take(i as int) =~= usage@);
    ids
}

/// The message of the error for a refused request to read the partition
/// table of a device again.
pub open spec fn partition_cache_message(code: i32) -> Seq<char> {
    "BLKRRPART ioctl failed with return code: "@ + (if code < 0 {
        "-"@ + decimal_text((-code) as nat)
    } else {
        decimal_text(code as nat)
    })
}

/// Judges the return code of the request that has the kernel read the
/// partition table of a device again: any code but 0 is a failure.
pub fn update_partition_cache(code: i32) -> (r: Result<(), OsdError>)
    ensures
        code == 0 ==> r is Ok,
        code != 0 ==> r is Err && r->Err_0@ == error_view(
            ErrorKind::IoFailure,
            partition_cache_message(code),
        ),
{
    if code == 0 {
        return Ok(());
    }
    let mut message = String::from_str("BLKRRPART ioctl failed with return code: ");
    if code < 0 {
        let magnitude: u64 = (-(code as i64)) as u64;
        let digits = decimal_string(magnitude);
        message.append("-");
        message.append(digits.as_str());
    } else {
        let digits = decimal_string(code as u64);
        message.append(digits.as_str());
    }
    assert(message@ =~= partition_cache_message(code));
    Err(OsdError::new(ErrorKind::IoFailure, message))
}

} // verus!
