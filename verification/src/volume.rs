//! Provisioning of the logical volume that holds the data of an OSD: the
//! names of the volume group and of the volume, the size of the volume, and
//! the resolution of the volume's link to the device behind it.
use crate::error::{error_view, ErrorKind, OsdError, OsdErrorView};
use crate::ident::{hyphenated_text, Uuid};
use crate::text::{chars_of, decimal_string, decimal_text};
use vstd::prelude::*;
use vstd::string::*;

verus! {

/// The part of a volume group that a logical volume over the whole group
/// leaves free. A volume of exactly the group's size cannot be created.
pub const VOLUME_RESERVE: u64 = 10485760;

/// The name of the volume group with the given identifier.
pub open spec fn volume_group_name_text(group: Uuid) -> Seq<char> {
    "ceph-"@ + hyphenated_text(group.bits)
}

/// The name of the logical volume of the OSD with the given instance
/// identifier.
pub open spec fn logical_volume_name_text(osd_fsid: Uuid) -> Seq<char> {
    "osd-block-"@ + hyphenated_text(osd_fsid.bits)
}

/// The path at which a logical volume appears.
pub open spec fn logical_volume_path_text(group: Seq<char>, volume: Seq<char>) -> Seq<char> {
    "/dev/"@ + group + "/"@ + volume
}

/// The names under which the data volume of an OSD is created.
#[derive(Clone, Debug, PartialEq, Eq)]
pub struct VolumePlan {
    /// The name of the volume group.
    pub vg_name: String,
    /// The name of the logical volume.
    pub lv_name: String,
    /// The path at which the logical volume appears.
    pub lv_dev_name: String,
}

/// The names for the data volume of the OSD `osd_fsid`, in the volume group
/// with identifier `group`.
pub fn plan_volume(group: &Uuid, osd_fsid: &Uuid) -> (plan: VolumePlan)
    ensures
        plan.vg_name@ == volume_group_name_text(*group),
        plan.lv_name@ == logical_volume_name_text(*osd_fsid),
        plan.lv_dev_name@ == logical_volume_path_text(plan.vg_name@, plan.lv_name@),
{
    let group_text = group.to_hyphenated_string();
    let fsid_text = osd_fsid.to_hyphenated_string();
    let mut vg_name = String::from_str("ceph-");
    vg_name.append(group_text.as_str());
    let mut lv_name = String::from_str("osd-block-");
    lv_name.append(fsid_text.as_str());
    let mut lv_dev_name = String::from_str("/dev/");
    lv_dev_name.append(vg_name.as_str());
    lv_dev_name.append("/");
    lv_dev_name.append(lv_name.as_str());
    VolumePlan { vg_name, lv_name, lv_dev_name }
}

/// The message of the error for a volume group too small to hold a volume.
pub open spec fn group_too_small_message(vg_size: u64) -> Seq<char> {
    "volume group of "@ + decimal_text(vg_size as nat) + " bytes is too small for a volume"@
}

/// The size of the logical volume in a volume group of `vg_size` bytes: the
/// group's size less the reserve. A group no larger than the reserve holds
/// no volume.
pub fn logical_volume_size(vg_size: u64) -> (r: Result<u64, OsdError>)
    ensures
        vg_size > VOLUME_RESERVE ==> r == Ok::<u64, OsdError>((vg_size - VOLUME_RESERVE) as u64),
        vg_size <= VOLUME_RESERVE ==> r is Err && r->Err_0@ == error_view(
            ErrorKind::IoFailure,
            group_too_small_message(vg_size),
        ),
{
    if vg_size > VOLUME_RESERVE {
        Ok(vg_size - VOLUME_RESERVE)
    } else {
        let digits = decimal_string(vg_size);
        let mut message = String::from_str("volume group of ");
        message.append(digits.as_str());
        message.append(" bytes is too small for a volume");
        Err(OsdError::new(ErrorKind::IoFailure, message))
    }
}

/// The volume that backs an OSD: where it appears, which group holds it,
/// and how large the group is.
#[derive(Debug, PartialEq, Eq)]
pub struct VolumeHandle {
    /// The path of the logical volume.
    pub path: String,
    /// The name of the volume group.
    pub group: String,
    /// The size of the volume group in bytes.
    pub size: u64,
}

/// The mathematical content of a [`VolumeHandle`].
pub struct VolumeHandleView {
    pub path: Seq<char>,
    pub group: Seq<char>,
    pub size: u64,
}

impl View for VolumeHandle {
    type V = VolumeHandleView;

    open spec fn view(&self) -> VolumeHandleView {
        VolumeHandleView { path: self.path@, group: self.group@, size: self.size }
    }
}

impl Clone for VolumeHandle {
    fn clone(&self) -> (copy: VolumeHandle)
        ensures
            copy@ == self@,
    {
        VolumeHandle { path: self.path.clone(), group: self.group.clone(), size: self.size }
    }
}

/// The handle of the volume created under `plan` in a group of `vg_size`
/// bytes.
pub fn volume_handle(plan: &VolumePlan, vg_size: u64) -> (handle: VolumeHandle)
    ensures
        handle@ == (VolumeHandleView {
            path: plan.lv_dev_name@,
            group: plan.vg_name@,
            size: vg_size,
        }),
{
    VolumeHandle { path: plan.lv_dev_name.clone(), group: plan.vg_name.clone(), size: vg_size }
}

/// The index just after the last `/` of a path, or 0 where it has none.
pub open spec fn name_start(path: Seq<char>) -> int
    decreases path.len(),
{
    if path.len() == 0 {
        0
    } else if path.last() == '/' {
        path.len() as int
    } else {
        name_start(path.drop_last())
    }
}

/// The directory that holds the last name of a path, for a path written
/// without a trailing `/`: what stands before the last `/`, the root for a
/// name directly under it, the empty path for a bare name. The empty path
/// and the root have none.
pub open spec fn parent_text(path: Seq<char>) -> Option<Seq<char>> {
    let start = name_start(path);
    if path.len() == 0 || start == path.len() {
        None
    } else if start == 0 {
        Some(Seq::<char>::empty())
    } else if start == 1 {
        Some(path.take(1))
    } else {
        Some(path.take(start - 1))
    }
}

/// A path from a directory and a relative path inside it.
pub open spec fn join_text(dir: Seq<char>, relative: Seq<char>) -> Seq<char> {
    if dir.len() == 0 || dir.last() == '/' {
        dir + relative
    } else {
        dir + "/"@ + relative
    }
}

/// Where the target of a link leads.
#[derive(Clone, Debug, PartialEq, Eq)]
pub enum LinkTarget {
    /// The target is this absolute path.
    Absolute(String),
    /// The target is relative to the link's directory: this path is to be
    /// made canonical.
    Relative(String),
}

/// The mathematical content of a [`LinkTarget`].
pub enum LinkTargetView {
    Absolute(Seq<char>),
    Relative(Seq<char>),
}

impl View for LinkTarget {
    type V = LinkTargetView;

    open spec fn view(&self) -> LinkTargetView {
        match self {
            LinkTarget::Absolute(p) => LinkTargetView::Absolute(p@),
            LinkTarget::Relative(p) => LinkTargetView::Relative(p@),
        }
    }
}

/// The message of the error for a link without a directory.
pub open spec fn no_parent_message(link: Seq<char>) -> Seq<char> {
    "LVM device "@ + link + " has no parent directory"@
}

/// Where the link `link` with target `target` leads: to the target itself
/// where that is absolute, else to the target inside the link's directory.
pub open spec fn link_target(link: Seq<char>, target: Seq<char>) -> Result<
    LinkTargetView,
    OsdErrorView,
> {
    if target.len() > 0 && target[0] == '/' {
        Ok(LinkTargetView::Absolute(target))
    } else {
        match parent_text(link) {
            Some(dir) => Ok(LinkTargetView::Relative(join_text(dir, target))),
            None => Err(error_view(ErrorKind::NotFound, no_parent_message(link))),
        }
    }
}

fn name_start_of(chars: &Vec<char>) -> (start: usize)
    ensures
        start == name_start(chars@),
        start <= chars.len(),
{
    let mut i: usize = chars.len();
    assert(chars@.take(i as int) =~= chars@);
    while i > 0 && chars[i - 1] != '/'
        invariant
            i <= chars.len(),
            name_start(chars@) == name_start(chars@.take(i as int)),
        decreases i,
    {
        assert(chars@.take(i as int).drop_last() =~= chars@.take(i - 1));
        assert(chars@.take(i as int).last() == chars@[i - 1]);
        i -= 1;
    }
    proof {
        if i > 0 {
            assert(chars@.take(i as int).last() == chars@[i - 1]);
        }
    }
    i
}

/// Resolves the link of a logical volume, which the volume manager may have
/// written relative to the link's own directory.
pub fn resolve_lvm_device(lv_dev_name: &str, target: &str) -> (r: Result<LinkTarget, OsdError>)
    ensures
        match r {
            Ok(t) => link_target(lv_dev_name@, target@) == Ok::<LinkTargetView, OsdErrorView>(t@),
            Err(e) => link_target(lv_dev_name@, target@) == Err::<LinkTargetView, OsdErrorView>(
                e@,
            ),
        },
{
    let target_chars = chars_of(target);
    if target_chars.len() > 0 && target_chars[0] == '/' {
        return Ok(LinkTarget::Absolute(String::from_str(target)));
    }
    let chars = chars_of(lv_dev_name);
    let start = name_start_of(&chars);
    if chars.len() == 0 || start == chars.len() {
        let mut message = String::from_str("LVM device ");
        message.append(lv_dev_name);
        message.append(" has no parent directory");
        return Err(OsdError::new(ErrorKind::NotFound, message));
    }
    let dir_end: usize = if start <= 1 {
        start
    } else {
        start - 1
    };
    let dir = lv_dev_name.substring_char(0, dir_end);
    assert(Some(dir@) == parent_text(lv_dev_name@)) by {
        assert(lv_dev_name@.subrange(0, dir_end as int) =~= lv_dev_name@.take(dir_end as int));
        assert(lv_dev_name@.take(0) =~= Seq::<char>::empty());
    }
    let mut path = String::from_str(dir);
    if dir_end > 0 && chars[dir_end - 1] != '/' {
        path.append("/");
    }
    path.append(target);
    Ok(LinkTarget::Relative(path))
}

} // verus!
