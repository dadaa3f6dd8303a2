//! The tags on a logical volume that record which cluster and OSD the volume
//! belongs to. They are the only record that outlives the process: the OSD's
//! identity is read back from them when the OSD is removed.
use crate::error::{error_view, ErrorKind, OsdError, OsdErrorView};
use crate::ident::{
    hyphenated_text, invalid_uuid_message, lemma_hyphenated_text_alphabet, uuid_text_value, Uuid,
};
use crate::journal::JournalDevice;
use crate::text::{
    decimal_string, decimal_text, is_digit, lemma_decimal_round_trip, lemma_decimal_text_value,
    lemma_split_text_pair, parse_u64, split, split_text, starts_with, texts_of, u64_text_value,
};
use vstd::prelude::*;
use vstd::string::*;

verus! {

/// The kind of medium behind a block device, as far as placement cares.
#[derive(Clone, Copy, Debug, PartialEq, Eq, Structural)]
pub enum MediaType {
    SolidState,
    Rotational,
    Nvme,
    /// Any other medium, or one that could not be told.
    Other,
}

/// The device class that the placement hierarchy knows a medium by.
pub open spec fn device_class_text(media: MediaType) -> Seq<char> {
    match media {
        MediaType::SolidState => "ssd"@,
        MediaType::Rotational => "hdd"@,
        MediaType::Nvme => "nvme"@,
        MediaType::Other => "None"@,
    }
}

/// The device class that the placement hierarchy knows a medium by.
pub fn crush_device_class(media: MediaType) -> (class: &'static str)
    ensures
        class@ == device_class_text(media),
{
    match media {
        MediaType::SolidState => "ssd",
        MediaType::Rotational => "hdd",
        MediaType::Nvme => "nvme",
        MediaType::Other => "None",
    }
}

/// The journal of an OSD as the tags record it: the text form of the
/// journal device and the identifier of its partition.
#[derive(Clone, Debug, PartialEq, Eq)]
pub struct WalTag {
    pub device: String,
    pub uuid: Uuid,
}

/// The two tags that record a journal.
pub open spec fn wal_tag_texts(device: Seq<char>, uuid: Uuid) -> Seq<Seq<char>> {
    seq!["ceph.wal_device="@ + device, "ceph.wal_uuid="@ + hyphenated_text(uuid.bits)]
}

/// The tags of a volume that carries the data of an OSD, in the order in
/// which they are written: what the volume is, where it is, whose it is, and
/// on what medium it lies; the journal only where there is one.
pub open spec fn device_tag_texts(
    lv_dev_name: Seq<char>,
    osd_fsid: Uuid,
    osd_id: u64,
    cluster_fsid: Uuid,
    block_uuid: Seq<char>,
    wal: Option<(Seq<char>, Uuid)>,
    media: MediaType,
) -> Seq<Seq<char>> {
    seq![
        "ceph.type=block"@,
        "ceph.block_device="@ + lv_dev_name,
        "ceph.osd_id="@ + decimal_text(osd_id as nat),
        "ceph.osd_fsid="@ + hyphenated_text(osd_fsid.bits),
        "ceph.cluster_name=ceph"@,
        "ceph.cluster_fsid="@ + hyphenated_text(cluster_fsid.bits),
        "ceph.encrypted=0"@,
        "ceph.cephx_lockbox_secret="@,
        "ceph.block_uuid="@ + block_uuid,
    ] + (match wal {
        Some((device, uuid)) => wal_tag_texts(device, uuid),
        None => Seq::<Seq<char>>::empty(),
    }) + seq!["ceph.crush_device_class="@ + device_class_text(media)]
}

/// The content of an optional journal record.
pub open spec fn wal_view(wal: Option<WalTag>) -> Option<(Seq<char>, Uuid)> {
    match wal {
        Some(w) => Some((w.device@, w.uuid)),
        None => None,
    }
}

fn tag(key: &str, value: &str) -> (t: String)
    ensures
        t@ == key@ + value@,
{
    let mut t = String::from_str(key);
    t.append(value);
    t
}

/// The tags to put on the volume `lv_dev_name`, which carries the data of
/// the OSD `osd_id` with instance identifier `osd_fsid`.
pub fn lvm_tags(
    lv_dev_name: &str,
    osd_fsid: &Uuid,
    osd_id: u64,
    cluster_fsid: &Uuid,
    block_uuid: &str,
    wal: &Option<WalTag>,
    media: MediaType,
) -> (tags: Vec<String>)
    ensures
        texts_of(tags@) == device_tag_texts(
            lv_dev_name@,
            *osd_fsid,
            osd_id,
            *cluster_fsid,
            block_uuid@,
            wal_view(*wal),
            media,
        ),
        uuid_text_value(hyphenated_text(osd_fsid.bits)) == Some(osd_fsid.bits),
        forall|device: Seq<char>|
            #[trigger] osd_identity(seq![texts_of(tags@)], device) == Ok::<
                (u64, Uuid),
                OsdErrorView,
            >((osd_id, *osd_fsid)),
{
    let id_text = decimal_string(osd_id);
    let fsid_text = osd_fsid.to_hyphenated_string();
    let cluster_text = cluster_fsid.to_hyphenated_string();
    let mut tags: Vec<String> = Vec::new();
    tags.push(String::from_str("ceph.type=block"));
    tags.push(tag("ceph.block_device=", lv_dev_name));
    tags.push(tag("ceph.osd_id=", id_text.as_str()));
    tags.push(tag("ceph.osd_fsid=", fsid_text.as_str()));
    tags.push(String::from_str("ceph.cluster_name=ceph"));
    tags.push(tag("ceph.cluster_fsid=", cluster_text.as_str()));
    tags.push(String::from_str("ceph.encrypted=0"));
    tags.push(String::from_str("ceph.cephx_lockbox_secret="));
    tags.push(tag("ceph.block_uuid=", block_uuid));
    match wal {
        Some(w) => {
            let wal_text = w.uuid.to_hyphenated_string();
            tags.push(tag("ceph.wal_device=", w.device.as_str()));
            tags.push(tag("ceph.wal_uuid=", wal_text.as_str()));
        },
        None => {},
    }
    tags.push(tag("ceph.crush_device_class=", crush_device_class(media)));
    assert(texts_of(tags@) =~= device_tag_texts(
        lv_dev_name@,
        *osd_fsid,
        osd_id,
        *cluster_fsid,
        block_uuid@,
        wal_view(*wal),
        media,
    ));
    assert forall|device: Seq<char>|
        #[trigger] osd_identity(seq![texts_of(tags@)], device) == Ok::<
            (u64, Uuid),
            OsdErrorView,
        >((osd_id, *osd_fsid)) by {
        lemma_tags_round_trip(
            lv_dev_name@,
            *osd_fsid,
            osd_id,
            *cluster_fsid,
            block_uuid@,
            wal_view(*wal),
            media,
            device,
        );
    }
    tags
}

/// The message of the error for a journal whose partition identifier is
/// neither recorded nor probed.
pub open spec fn wal_unknown_message(journal: Seq<char>) -> Seq<char> {
    "partition uuid of "@ + journal + " is not known"@
}

/// The journal record for the tags: the text form of the journal and the
/// identifier of its partition, the recorded one where there is one and the
/// probed one otherwise.
pub open spec fn wal_tag_view(journal: JournalDevice, probed: Option<Uuid>) -> Result<
    (Seq<char>, Uuid),
    OsdErrorView,
> {
    match journal.partition_uuid {
        Some(uuid) => Ok((journal@.text(), uuid)),
        None => match probed {
            Some(uuid) => Ok((journal@.text(), uuid)),
            None => Err(error_view(ErrorKind::NotFound, wal_unknown_message(journal@.text()))),
        },
    }
}

/// The journal record for the tags. The partition identifier is the one the
/// journal device carries; only where it carries none, the probed one.
pub fn wal_tag(journal: &JournalDevice, probed: Option<Uuid>) -> (r: Result<WalTag, OsdError>)
    ensures
        match r {
            Ok(w) => wal_tag_view(*journal, probed) == Ok::<(Seq<char>, Uuid), OsdErrorView>(
                (w.device@, w.uuid),
            ),
            Err(e) => wal_tag_view(*journal, probed) == Err::<(Seq<char>, Uuid), OsdErrorView>(e@),
        },
{
    let device = journal.to_string();
    let known = match journal.partition_uuid {
        Some(uuid) => Some(uuid),
        None => probed,
    };
    match known {
        Some(uuid) => Ok(WalTag { device, uuid }),
        None => {
            let mut message = String::from_str("partition uuid of ");
            message.append(device.as_str());
            message.append(" is not known");
            Err(OsdError::new(ErrorKind::NotFound, message))
        },
    }
}

/// Whether the partition identifier of the journal has to be probed before
/// the tags can be written: it has where the journal device carries none.
pub fn needs_wal_probe(journal: Option<&JournalDevice>) -> (needed: bool)
    ensures
        needed == (journal matches Some(j) && j.partition_uuid is None),
{
    match journal {
        Some(j) => j.partition_uuid.is_none(),
        None => false,
    }
}

/// The journal record that `create_lvm_tags` writes, or the reason why the
/// tags cannot be written. A probed identifier is read only where the
/// journal device carries none, and must then be a UUID.
pub open spec fn wal_record(journal: Option<JournalDevice>, probed: Option<Seq<char>>) -> Result<
    Option<(Seq<char>, Uuid)>,
    OsdErrorView,
> {
    match journal {
        None => Ok(None),
        Some(j) => {
            let parsed: Result<Option<Uuid>, OsdErrorView> = match (j.partition_uuid, probed) {
                (None, Some(text)) => match uuid_text_value(text) {
                    Some(bits) => Ok(Some(Uuid { bits })),
                    None => Err(error_view(ErrorKind::ParseFailure, invalid_uuid_message(text))),
                },
                _ => Ok(None),
            };
            match parsed {
                Err(e) => Err(e),
                Ok(uuid) => match wal_tag_view(j, uuid) {
                    Ok(w) => Ok(Some(w)),
                    Err(e) => Err(e),
                },
            }
        },
    }
}

/// The tags to put on a new volume, for an OSD with or without a journal.
/// `probed_partuuid` is the partition identifier that a probe of the journal
/// reported, for a journal device that carries none.
pub fn create_lvm_tags(
    lv_dev_name: &str,
    osd_fsid: &Uuid,
    new_osd_id: u64,
    cluster_fsid: &Uuid,
    block_uuid: &str,
    media: MediaType,
    journal_device: Option<&JournalDevice>,
    probed_partuuid: Option<&str>,
) -> (r: Result<Vec<String>, OsdError>)
    ensures
        match r {
            Ok(tags) => {
                &&& wal_record(
                    match journal_device {
                        Some(j) => Some(*j),
                        None => None,
                    },
                    match probed_partuuid {
                        Some(t) => Some(t@),
                        None => None,
                    },
                ) matches Ok(wal)
                &&& texts_of(tags@) == device_tag_texts(
                    lv_dev_name@,
                    *osd_fsid,
                    new_osd_id,
                    *cluster_fsid,
                    block_uuid@,
                    wal,
                    media,
                )
                &&& uuid_text_value(hyphenated_text(osd_fsid.bits)) == Some(osd_fsid.bits)
                &&& forall|device: Seq<char>|
                    #[trigger] osd_identity(seq![texts_of(tags@)], device) == Ok::<
                        (u64, Uuid),
                        OsdErrorView,
                    >((new_osd_id, *osd_fsid))
            },
            Err(e) => wal_record(
                match journal_device {
                    Some(j) => Some(*j),
                    None => None,
                },
                match probed_partuuid {
                    Some(t) => Some(t@),
                    None => None,
                },
            ) == Err::<Option<(Seq<char>, Uuid)>, OsdErrorView>(e@),
        },
{
    let wal = match journal_device {
        None => None,
        Some(j) => {
            let probed = match (j.partition_uuid, probed_partuuid) {
                (None, Some(text)) => match Uuid::parse(text) {
                    Ok(uuid) => Some(uuid),
                    Err(e) => {
                        return Err(e);
                    },
                },
                _ => None,
            };
            match wal_tag(j, probed) {
                Ok(w) => Some(w),
                Err(e) => {
                    return Err(e);
                },
            }
        },
    };
    Ok(lvm_tags(lv_dev_name, osd_fsid, new_osd_id, cluster_fsid, block_uuid, &wal, media))
}

/// The first of the tags that begins with `prefix`.
pub open spec fn find_tag(tags: Seq<Seq<char>>, prefix: Seq<char>) -> Option<Seq<char>>
    decreases tags.len(),
{
    if tags.len() == 0 {
        None
    } else if prefix.is_prefix_of(tags[0]) {
        Some(tags[0])
    } else {
        find_tag(tags.skip(1), prefix)
    }
}

/// The value of a tag: what stands between its first `=` and its second, or
/// its end. A tag without `=` has no value.
pub open spec fn tag_value_text(tag: Seq<char>) -> Option<Seq<char>> {
    let fields = split_text(tag, '=');
    if fields.len() > 1 {
        Some(fields[1])
    } else {
        None
    }
}

/// The value of the first tag that begins with `prefix`.
pub open spec fn tagged_value(tags: Seq<Seq<char>>, prefix: Seq<char>) -> Option<Seq<char>> {
    match find_tag(tags, prefix) {
        Some(tag) => tag_value_text(tag),
        None => None,
    }
}

/// The content of an optional string.
pub open spec fn option_text(s: Option<String>) -> Option<Seq<char>> {
    match s {
        Some(t) => Some(t@),
        None => None,
    }
}

/// The value of a tag.
pub fn tag_value(tag: &str) -> (value: Option<String>)
    ensures
        option_text(value) == tag_value_text(tag@),
{
    let fields = split(tag, '=');
    if fields.len() > 1 {
        Some(fields[1].clone())
    } else {
        None
    }
}

/// The value of the first tag that begins with `prefix`.
pub fn value_of_tag(tags: &Vec<String>, prefix: &str) -> (value: Option<String>)
    ensures
        option_text(value) == tagged_value(texts_of(tags@), prefix@),
{
    let ghost all = texts_of(tags@);
    let mut i: usize = 0;
    assert(all.skip(0) =~= all);
    while i < tags.len()
        invariant
            i <= tags.len(),
            all == texts_of(tags@),
            find_tag(all, prefix@) == find_tag(all.skip(i as int), prefix@),
        decreases tags.len() - i,
    {
        assert(all.skip(i as int)[0] == tags@[i as int]@);
        assert(all.skip(i as int).skip(1) =~= all.skip(i + 1));
        if starts_with(tags[i].as_str(), prefix) {
            return tag_value(tags[i].as_str());
        }
        i += 1;
    }
    None
}

/// The values that the tags of one volume give for the OSD's number and for
/// its instance identifier, as texts.
#[derive(Clone, Debug, PartialEq, Eq)]
pub struct OsdTagValues {
    pub osd_id: Option<String>,
    pub osd_fsid: Option<String>,
}

/// Finds the OSD's number and instance identifier among the tags of one
/// volume, whatever other tags stand between them.
pub fn tag_values(tags: &Vec<String>) -> (values: OsdTagValues)
    ensures
        option_text(values.osd_id) == tagged_value(texts_of(tags@), "ceph.osd_id"@),
        option_text(values.osd_fsid) == tagged_value(texts_of(tags@), "ceph.osd_fsid"@),
{
    OsdTagValues {
        osd_id: value_of_tag(tags, "ceph.osd_id"),
        osd_fsid: value_of_tag(tags, "ceph.osd_fsid"),
    }
}

/// The message of the error for an OSD number in a tag that is no number.
pub open spec fn invalid_id_message(text: Seq<char>) -> Seq<char> {
    "invalid osd id: "@ + text
}

/// The message of the error for a device whose volumes do not tell both the
/// number and the instance identifier of an OSD.
pub open spec fn missing_identity_message(device: Seq<char>) -> Seq<char> {
    "No osd id's or fsid's were found on "@ + device
}

/// What is known of the OSD after the tags of one more volume: a value that
/// the volume gives replaces what was known, and a value that cannot be read
/// is an error, the number's before the identifier's.
pub open spec fn volume_step(
    known: (Option<u64>, Option<Uuid>),
    tags: Seq<Seq<char>>,
) -> Result<(Option<u64>, Option<Uuid>), OsdErrorView> {
    let id: Result<Option<u64>, OsdErrorView> = match tagged_value(tags, "ceph.osd_id"@) {
        None => Ok(known.0),
        Some(text) => match u64_text_value(text) {
            Some(v) => Ok(Some(v)),
            None => Err(error_view(ErrorKind::ParseFailure, invalid_id_message(text))),
        },
    };
    match id {
        Err(e) => Err(e),
        Ok(id) => match tagged_value(tags, "ceph.osd_fsid"@) {
            None => Ok((id, known.1)),
            Some(text) => match uuid_text_value(text) {
                Some(bits) => Ok((id, Some(Uuid { bits }))),
                None => Err(error_view(ErrorKind::ParseFailure, invalid_uuid_message(text))),
            },
        },
    }
}

/// What is known of the OSD after the tags of all the volumes, taken in
/// order, or the first error on the way.
pub open spec fn volumes_scan(
    known: (Option<u64>, Option<Uuid>),
    volumes: Seq<Seq<Seq<char>>>,
) -> Result<(Option<u64>, Option<Uuid>), OsdErrorView>
    decreases volumes.len(),
{
    if volumes.len() == 0 {
        Ok(known)
    } else {
        match volume_step(known, volumes[0]) {
            Err(e) => Err(e),
            Ok(next) => volumes_scan(next, volumes.skip(1)),
        }
    }
}

/// The number and the instance identifier of the OSD whose data lies on the
/// volumes with the given tags. Both must be found.
pub open spec fn osd_identity(volumes: Seq<Seq<Seq<char>>>, device: Seq<char>) -> Result<
    (u64, Uuid),
    OsdErrorView,
> {
    match volumes_scan((None, None), volumes) {
        Err(e) => Err(e),
        Ok((Some(id), Some(fsid))) => Ok((id, fsid)),
        Ok(_) => Err(error_view(ErrorKind::StateInconsistency, missing_identity_message(device))),
    }
}

/// The tag texts of a list of volumes.
pub open spec fn volume_texts(volumes: Seq<Vec<String>>) -> Seq<Seq<Seq<char>>> {
    Seq::new(volumes.len(), |i: int| texts_of(volumes[i]@))
}

fn absorb_volume(known: (Option<u64>, Option<Uuid>), tags: &Vec<String>) -> (r: Result<
    (Option<u64>, Option<Uuid>),
    OsdError,
>)
    ensures
        match r {
            Ok(next) => volume_step(known, texts_of(tags@)) == Ok::<
                (Option<u64>, Option<Uuid>),
                OsdErrorView,
            >(next),
            Err(e) => volume_step(known, texts_of(tags@)) == Err::<
                (Option<u64>, Option<Uuid>),
                OsdErrorView,
            >(e@),
        },
{
    let values = tag_values(tags);
    let id = match &values.osd_id {
        None => known.0,
        Some(text) => match parse_u64(text.as_str()) {
            Some(v) => Some(v),
            None => {
                let mut message = String::from_str("invalid osd id: ");
                message.append(text.as_str());
                return Err(OsdError::new(ErrorKind::ParseFailure, message));
            },
        },
    };
    match &values.osd_fsid {
        None => Ok((id, known.1)),
        Some(text) => match Uuid::parse(text.as_str()) {
            Ok(fsid) => Ok((id, Some(fsid))),
            Err(e) => Err(e),
        },
    }
}

/// Reads the number and the instance identifier of an OSD back from the
/// tags of the logical volumes of its volume group. `device` names the
/// block device in the error for tags that do not tell both.
pub fn read_osd_identity(volumes: &Vec<Vec<String>>, device: &str) -> (r: Result<
    (u64, Uuid),
    OsdError,
>)
    ensures
        match r {
            Ok(identity) => osd_identity(volume_texts(volumes@), device@) == Ok::<
                (u64, Uuid),
                OsdErrorView,
            >(identity),
            Err(e) => osd_identity(volume_texts(volumes@), device@) == Err::<
                (u64, Uuid),
                OsdErrorView,
            >(e@),
        },
{
    let ghost all = volume_texts(volumes@);
    let mut known: (Option<u64>, Option<Uuid>) = (None, None);
    let mut i: usize = 0;
    assert(all.skip(0) =~= all);
    while i < volumes.len()
        invariant
            i <= volumes.len(),
            all == volume_texts(volumes@),
            volumes_scan((None, None), all) == volumes_scan(known, all.skip(i as int)),
        decreases volumes.len() - i,
    {
        assert(all.skip(i as int)[0] == texts_of(volumes@[i as int]@));
        assert(all.skip(i as int).skip(1) =~= all.skip(i + 1));
        match absorb_volume(known, &volumes[i]) {
            Ok(next) => {
                known = next;
            },
            Err(e) => {
                return Err(e);
            },
        }
        i += 1;
    }
    match known {
        (Some(id), Some(fsid)) => Ok((id, fsid)),
        _ => {
            let mut message = String::from_str("No osd id's or fsid's were found on ");
            message.append(device);
            Err(OsdError::new(ErrorKind::StateInconsistency, message))
        },
    }
}

/// The first tag that begins with a prefix is found where it stands.
pub proof fn lemma_find_tag_at(tags: Seq<Seq<char>>, prefix: Seq<char>, k: int)
    requires
        0 <= k < tags.len(),
        prefix.is_prefix_of(tags[k]),
        forall|j: int| 0 <= j < k ==> !prefix.is_prefix_of(#[trigger] tags[j]),
    ensures
        find_tag(tags, prefix) == Some(tags[k]),
    decreases k,
{
    if k > 0 {
        let rest = tags.skip(1);
        assert(rest[k - 1] == tags[k]);
        assert forall|j: int| 0 <= j < k - 1 implies !prefix.is_prefix_of(#[trigger] rest[j]) by {
            assert(rest[j] == tags[j + 1]);
        }
        lemma_find_tag_at(rest, prefix, k - 1);
    }
}

/// A tag that does not begin with a prefix, put anywhere among the tags,
/// does not change which tag is found for that prefix.
pub proof fn lemma_find_tag_ignores_unrelated(
    tags: Seq<Seq<char>>,
    at: int,
    extra: Seq<char>,
    prefix: Seq<char>,
)
    requires
        0 <= at <= tags.len(),
        !prefix.is_prefix_of(extra),
    ensures
        find_tag(tags.insert(at, extra), prefix) == find_tag(tags, prefix),
    decreases at,
{
    let more = tags.insert(at, extra);
    if at == 0 {
        assert(more[0] == extra);
        assert(more.skip(1) =~= tags);
    } else {
        assert(more[0] == tags[0]);
        assert(more.skip(1) =~= tags.skip(1).insert(at - 1, extra));
        lemma_find_tag_ignores_unrelated(tags.skip(1), at - 1, extra, prefix);
    }
}

/// What is known after a list of volumes does not depend on a tag that tells
/// neither the number nor the identifier of an OSD, wherever it stands.
proof fn lemma_scan_ignores_unrelated(
    known: (Option<u64>, Option<Uuid>),
    volumes: Seq<Seq<Seq<char>>>,
    volume: int,
    at: int,
    extra: Seq<char>,
)
    requires
        0 <= volume < volumes.len(),
        0 <= at <= volumes[volume].len(),
        !"ceph.osd_id"@.is_prefix_of(extra),
        !"ceph.osd_fsid"@.is_prefix_of(extra),
    ensures
        volumes_scan(known, volumes.update(volume, volumes[volume].insert(at, extra)))
            == volumes_scan(known, volumes),
    decreases volumes.len(),
{
    let more = volumes.update(volume, volumes[volume].insert(at, extra));
    if volume == 0 {
        lemma_find_tag_ignores_unrelated(volumes[0], at, extra, "ceph.osd_id"@);
        lemma_find_tag_ignores_unrelated(volumes[0], at, extra, "ceph.osd_fsid"@);
        assert(more.skip(1) =~= volumes.skip(1));
    } else {
        assert(more[0] == volumes[0]);
        assert(more.skip(1) =~= volumes.skip(1).update(
            volume - 1,
            volumes.skip(1)[volume - 1].insert(at, extra),
        ));
        match volume_step(known, volumes[0]) {
            Ok(next) => {
                lemma_scan_ignores_unrelated(next, volumes.skip(1), volume - 1, at, extra);
            },
            Err(_) => {},
        }
    }
}

/// Other tags among those of a volume do not change the identity that is
/// read back: a tag that begins with neither `ceph.osd_id` nor
/// `ceph.osd_fsid` may stand anywhere in any volume's list.
pub proof fn lemma_identity_ignores_unrelated(
    volumes: Seq<Seq<Seq<char>>>,
    volume: int,
    at: int,
    extra: Seq<char>,
    device: Seq<char>,
)
    requires
        0 <= volume < volumes.len(),
        0 <= at <= volumes[volume].len(),
        !"ceph.osd_id"@.is_prefix_of(extra),
        !"ceph.osd_fsid"@.is_prefix_of(extra),
    ensures
        osd_identity(volumes.update(volume, volumes[volume].insert(at, extra)), device)
            == osd_identity(volumes, device),
{
    lemma_scan_ignores_unrelated((None, None), volumes, volume, at, extra);
}

proof fn lemma_identity_keys()
    ensures
        "ceph.osd_id"@.len() == 11,
        "ceph.osd_fsid"@.len() == 13,
        "ceph.osd_id="@ == "ceph.osd_id"@.push('='),
        "ceph.osd_fsid="@ == "ceph.osd_fsid"@.push('='),
        !"ceph.osd_id"@.contains('='),
        !"ceph.osd_fsid"@.contains('='),
        "ceph.osd_id"@[5] == 'o',
        "ceph.osd_id"@[9] == 'i',
        "ceph.osd_fsid"@[5] == 'o',
        "ceph.osd_fsid"@[9] == 'f',
{
    reveal_strlit("ceph.osd_id");
    reveal_strlit("ceph.osd_fsid");
    reveal_strlit("ceph.osd_id=");
    reveal_strlit("ceph.osd_fsid=");
    assert("ceph.osd_id="@ =~= "ceph.osd_id"@.push('='));
    assert("ceph.osd_fsid="@ =~= "ceph.osd_fsid"@.push('='));
    let id_key = "ceph.osd_id"@;
    assert forall|i: int| 0 <= i < id_key.len() implies id_key[i] != '=' by {
        if i < 4 {
        } else if i < 8 {
        } else {
        }
    }
    let fsid_key = "ceph.osd_fsid"@;
    assert forall|i: int| 0 <= i < fsid_key.len() implies fsid_key[i] != '=' by {
        if i < 4 {
        } else if i < 8 {
        } else {
        }
    }
}

/// A text whose sixth character is not `o` begins with neither identity
/// key.
proof fn lemma_not_identity_tag(tag: Seq<char>)
    requires
        tag.len() > 5 ==> tag[5] != 'o',
    ensures
        !"ceph.osd_id"@.is_prefix_of(tag),
        !"ceph.osd_fsid"@.is_prefix_of(tag),
{
    lemma_identity_keys();
    if "ceph.osd_id"@.is_prefix_of(tag) {
        assert(tag.subrange(0, 11)[5] == "ceph.osd_id"@[5]);
    }
    if "ceph.osd_fsid"@.is_prefix_of(tag) {
        assert(tag.subrange(0, 13)[5] == "ceph.osd_fsid"@[5]);
    }
}

/// No tag is found for a prefix that no tag begins with.
proof fn lemma_find_tag_none(tags: Seq<Seq<char>>, prefix: Seq<char>)
    requires
        forall|j: int| 0 <= j < tags.len() ==> !prefix.is_prefix_of(#[trigger] tags[j]),
    ensures
        find_tag(tags, prefix) is None,
    decreases tags.len(),
{
    if tags.len() > 0 {
        let rest = tags.skip(1);
        assert forall|j: int| 0 <= j < rest.len() implies !prefix.is_prefix_of(
            #[trigger] rest[j],
        ) by {
            assert(rest[j] == tags[j + 1]);
        }
        lemma_find_tag_none(rest, prefix);
    }
}

/// The tag of the number reads back as the number.
proof fn lemma_id_tag_value(osd_id: u64)
    ensures
        "ceph.osd_id"@.is_prefix_of("ceph.osd_id="@ + decimal_text(osd_id as nat)),
        !"ceph.osd_fsid"@.is_prefix_of("ceph.osd_id="@ + decimal_text(osd_id as nat)),
        tag_value_text("ceph.osd_id="@ + decimal_text(osd_id as nat)) == Some(
            decimal_text(osd_id as nat),
        ),
        u64_text_value(decimal_text(osd_id as nat)) == Some(osd_id),
{
    let digits = decimal_text(osd_id as nat);
    let tag = "ceph.osd_id="@ + digits;
    lemma_identity_keys();
    assert(tag.subrange(0, 11) =~= "ceph.osd_id"@);
    if "ceph.osd_fsid"@.is_prefix_of(tag) {
        assert(tag.subrange(0, 13)[9] == "ceph.osd_fsid"@[9]);
        assert(tag[9] == "ceph.osd_id"@[9]);
    }
    lemma_decimal_text_value(osd_id as nat);
    assert(!digits.contains('=')) by {
        if digits.contains('=') {
            let i = choose|i: int| 0 <= i < digits.len() && digits[i] == '=';
            assert(is_digit(digits[i]));
        }
    }
    lemma_split_text_pair("ceph.osd_id"@, digits, '=');
    lemma_decimal_round_trip(osd_id);
}

/// The tag of the instance identifier has the identifier's hyphenated text
/// as its value.
proof fn lemma_fsid_tag_value(osd_fsid: Uuid)
    ensures
        "ceph.osd_fsid"@.is_prefix_of("ceph.osd_fsid="@ + hyphenated_text(osd_fsid.bits)),
        tag_value_text("ceph.osd_fsid="@ + hyphenated_text(osd_fsid.bits)) == Some(
            hyphenated_text(osd_fsid.bits),
        ),
{
    let hyphenated = hyphenated_text(osd_fsid.bits);
    let tag = "ceph.osd_fsid="@ + hyphenated;
    lemma_identity_keys();
    assert(tag.subrange(0, 13) =~= "ceph.osd_fsid"@);
    lemma_hyphenated_text_alphabet(osd_fsid.bits);
    assert(!hyphenated.contains('=')) by {
        if hyphenated.contains('=') {
            let i = choose|i: int| 0 <= i < hyphenated.len() && hyphenated[i] == '=';
            assert(hyphenated_text(osd_fsid.bits)[i] == '=');
        }
    }
    lemma_split_text_pair("ceph.osd_fsid"@, hyphenated, '=');
}

/// The first four of the tags written for an OSD, of which the third tells
/// its number and the fourth its instance identifier.
proof fn lemma_first_tags(
    lv_dev_name: Seq<char>,
    osd_fsid: Uuid,
    osd_id: u64,
    cluster_fsid: Uuid,
    block_uuid: Seq<char>,
    wal: Option<(Seq<char>, Uuid)>,
    media: MediaType,
)
    ensures
        ({
            let tags = device_tag_texts(
                lv_dev_name,
                osd_fsid,
                osd_id,
                cluster_fsid,
                block_uuid,
                wal,
                media,
            );
            &&& tags.len() >= 10
            &&& !"ceph.osd_id"@.is_prefix_of(tags[0])
            &&& !"ceph.osd_fsid"@.is_prefix_of(tags[0])
            &&& !"ceph.osd_id"@.is_prefix_of(tags[1])
            &&& !"ceph.osd_fsid"@.is_prefix_of(tags[1])
            &&& tags[2] == "ceph.osd_id="@ + decimal_text(osd_id as nat)
            &&& tags[3] == "ceph.osd_fsid="@ + hyphenated_text(osd_fsid.bits)
        }),
{
    let tags = device_tag_texts(
        lv_dev_name,
        osd_fsid,
        osd_id,
        cluster_fsid,
        block_uuid,
        wal,
        media,
    );
    reveal_strlit("ceph.type=block");
    reveal_strlit("ceph.block_device=");
    assert(tags[0] == "ceph.type=block"@);
    assert(tags[1] == "ceph.block_device="@ + lv_dev_name);
    lemma_not_identity_tag(tags[0]);
    lemma_not_identity_tag(tags[1]);
}

/// The identity that is read from a volume on which only the first `count`
/// of an OSD's tags were written, because the writing failed or was cut
/// short. Tags are written one at a time, so any number of them may be
/// there. With the first four the identity reads back in full; with fewer
/// the volume does not tell whose it is, which the reading reports as an
/// inconsistency instead of guessing.
pub proof fn lemma_partly_tagged_volume(
    lv_dev_name: Seq<char>,
    osd_fsid: Uuid,
    osd_id: u64,
    cluster_fsid: Uuid,
    block_uuid: Seq<char>,
    wal: Option<(Seq<char>, Uuid)>,
    media: MediaType,
    count: int,
    device: Seq<char>,
)
    requires
        0 <= count <= device_tag_texts(
            lv_dev_name,
            osd_fsid,
            osd_id,
            cluster_fsid,
            block_uuid,
            wal,
            media,
        ).len(),
        uuid_text_value(hyphenated_text(osd_fsid.bits)) == Some(osd_fsid.bits),
    ensures
        osd_identity(
            seq![
                device_tag_texts(
                    lv_dev_name,
                    osd_fsid,
                    osd_id,
                    cluster_fsid,
                    block_uuid,
                    wal,
                    media,
                ).take(count),
            ],
            device,
        ) == (if count >= 4 {
            Ok::<(u64, Uuid), OsdErrorView>((osd_id, osd_fsid))
        } else {
            Err::<(u64, Uuid), OsdErrorView>(
                error_view(ErrorKind::StateInconsistency, missing_identity_message(device)),
            )
        }),
{
    let all = device_tag_texts(
        lv_dev_name,
        osd_fsid,
        osd_id,
        cluster_fsid,
        block_uuid,
        wal,
        media,
    );
    let tags = all.take(count);
    lemma_first_tags(lv_dev_name, osd_fsid, osd_id, cluster_fsid, block_uuid, wal, media);
    lemma_id_tag_value(osd_id);
    lemma_fsid_tag_value(osd_fsid);
    assert forall|j: int| 0 <= j < tags.len() implies tags[j] == all[j] by {}
    if count >= 3 {
        lemma_find_tag_at(tags, "ceph.osd_id"@, 2);
    } else {
        lemma_find_tag_none(tags, "ceph.osd_id"@);
    }
    if count >= 4 {
        lemma_find_tag_at(tags, "ceph.osd_fsid"@, 3);
    } else {
        lemma_find_tag_none(tags, "ceph.osd_fsid"@);
    }
    let known: (Option<u64>, Option<Uuid>) = (
        if count >= 3 {
            Some(osd_id)
        } else {
            None
        },
        if count >= 4 {
            Some(osd_fsid)
        } else {
            None
        },
    );
    assert(volume_step((None, None), tags) == Ok::<(Option<u64>, Option<Uuid>), OsdErrorView>(
        known,
    ));
    let volumes = seq![tags];
    assert(volumes[0] == tags);
    assert(volumes.skip(1).len() == 0);
    assert(volumes_scan(known, volumes.skip(1)) == Ok::<
        (Option<u64>, Option<Uuid>),
        OsdErrorView,
    >(known));
}

/// Reading back the tags written for an OSD gives its number and its
/// instance identifier, provided that the `uuid` crate reads the
/// identifier's hyphenated text back, which `lvm_tags` establishes.
pub proof fn lemma_tags_round_trip(
    lv_dev_name: Seq<char>,
    osd_fsid: Uuid,
    osd_id: u64,
    cluster_fsid: Uuid,
    block_uuid: Seq<char>,
    wal: Option<(Seq<char>, Uuid)>,
    media: MediaType,
    device: Seq<char>,
)
    requires
        uuid_text_value(hyphenated_text(osd_fsid.bits)) == Some(osd_fsid.bits),
    ensures
        osd_identity(
            seq![
                device_tag_texts(
                    lv_dev_name,
                    osd_fsid,
                    osd_id,
                    cluster_fsid,
                    block_uuid,
                    wal,
                    media,
                ),
            ],
            device,
        ) == Ok::<(u64, Uuid), OsdErrorView>((osd_id, osd_fsid)),
{
    let tags = device_tag_texts(
        lv_dev_name,
        osd_fsid,
        osd_id,
        cluster_fsid,
        block_uuid,
        wal,
        media,
    );
    lemma_first_tags(lv_dev_name, osd_fsid, osd_id, cluster_fsid, block_uuid, wal, media);
    lemma_partly_tagged_volume(
        lv_dev_name,
        osd_fsid,
        osd_id,
        cluster_fsid,
        block_uuid,
        wal,
        media,
        tags.len() as int,
        device,
    );
    assert(tags.take(tags.len() as int) =~= tags);
}

} // verus!
