use ceph_backend::error::ErrorKind;
use ceph_backend::ident::Uuid;
use ceph_backend::volume::{
    logical_volume_size, plan_volume, resolve_lvm_device, volume_handle,
    LinkTarget, VolumeHandle, VolumePlan, VOLUME_RESERVE,
};

const FSID: &str = "936da01f-9abd-4d9d-80c7-02af85c822a8";
const GROUP: &str = "0fc63daf-8483-4772-8e79-3d69d8477de4";

#[test]
fn volume_names_carry_the_identifiers() {
    let plan = plan_volume(&Uuid::parse(GROUP).unwrap(), &Uuid::parse(FSID).unwrap());
    assert_eq!(
        plan,
        VolumePlan {
            vg_name: String::from("ceph-0fc63daf-8483-4772-8e79-3d69d8477de4"),
            lv_name: String::from("osd-block-936da01f-9abd-4d9d-80c7-02af85c822a8"),
            lv_dev_name: String::from(
                "/dev/ceph-0fc63daf-8483-4772-8e79-3d69d8477de4/osd-block-936da01f-9abd-4d9d-80c7-02af85c822a8"
            ),
        }
    );
    assert_eq!(
        volume_handle(&plan, 4096),
        VolumeHandle { path: plan.lv_dev_name.clone(), group: plan.vg_name.clone(), size: 4096 }
    );
}

#[test]
fn volume_leaves_the_reserve_free() {
    assert_eq!(VOLUME_RESERVE, 10 * 1024 * 1024);
    assert_eq!(logical_volume_size(1_073_741_824), Ok(1_063_256_064));
    assert_eq!(logical_volume_size(VOLUME_RESERVE + 1), Ok(1));
    assert_eq!(logical_volume_size(u64::MAX), Ok(u64::MAX - VOLUME_RESERVE));
    for size in [0, 1, VOLUME_RESERVE] {
        let e = logical_volume_size(size).unwrap_err();
        assert_eq!(e.kind(), ErrorKind::IoFailure);
        assert_eq!(
            e.message(),
            format!("volume group of {} bytes is too small for a volume", size)
        );
    }
}

#[test]
fn absolute_link_targets_stand_for_themselves() {
    assert_eq!(
        resolve_lvm_device("/dev/ceph-vg/osd-block-x", "/dev/dm-3"),
        Ok(LinkTarget::Absolute(String::from("/dev/dm-3")))
    );
    assert_eq!(resolve_lvm_device("", "/dev/dm-3"), Ok(LinkTarget::Absolute(String::from("/dev/dm-3"))));
}

#[test]
fn relative_link_targets_start_at_the_directory_of_the_link() {
    assert_eq!(
        resolve_lvm_device("/dev/ceph-vg/osd-block-x", "../dm-3"),
        Ok(LinkTarget::Relative(String::from("/dev/ceph-vg/../dm-3")))
    );
    assert_eq!(
        resolve_lvm_device("/dev/mapper", "dm-3"),
        Ok(LinkTarget::Relative(String::from("/dev/dm-3")))
    );
    assert_eq!(
        resolve_lvm_device("/lv", "dm-3"),
        Ok(LinkTarget::Relative(String::from("/dm-3")))
    );
    assert_eq!(resolve_lvm_device("lv", "dm-3"), Ok(LinkTarget::Relative(String::from("dm-3"))));
    assert_eq!(
        resolve_lvm_device("vg/lv", ""),
        Ok(LinkTarget::Relative(String::from("vg/")))
    );
}

#[test]
fn link_without_a_directory_cannot_be_resolved() {
    for link in ["", "/", "/dev/"] {
        let e = resolve_lvm_device(link, "../dm-3").unwrap_err();
        assert_eq!(e.kind(), ErrorKind::NotFound);
        assert_eq!(e.message(), format!("LVM device {} has no parent directory", link));
    }
}
