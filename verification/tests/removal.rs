use ceph_backend::backend::Layout;
use ceph_backend::error::{ErrorKind, OsdError};
use ceph_backend::ident::Uuid;
use ceph_backend::provision::Mode;
use ceph_backend::removal::{
    RemoveAction, RemoveFailure, RemoveOsd, RemoveStep, RemoveTransition, RemovedOsd,
};

const FSID: &str = "936da01f-9abd-4d9d-80c7-02af85c822a8";

fn run(first: (RemoveOsd, RemoveAction), fail_at: Option<RemoveStep>) -> (Vec<RemoveAction>, RemoveTransition) {
    let (mut state, mut action) = first;
    let mut actions = vec![action];
    loop {
        let outcome = if Some(action.step) == fail_at {
            Err(OsdError::new(ErrorKind::IoFailure, String::from("it failed")))
        } else {
            Ok(())
        };
        match state.advance(outcome) {
            RemoveTransition::Continue(next, then) => {
                state = next;
                action = then;
                actions.push(then);
            }
            ended => return (actions, ended),
        }
    }
}

fn steps(actions: &[RemoveAction]) -> Vec<RemoveStep> {
    actions.iter().map(|a| a.step).collect()
}

#[test]
fn modern_layout_removal_steps_in_order() {
    let first = RemoveOsd::start_bluestore("/dev/sdz", 8, Uuid::parse(FSID).unwrap(), false);
    assert_eq!(first.0.layout(), Layout::Bluestore);
    assert_eq!(first.0.osd_id(), 8);
    assert_eq!(first.0.osd_fsid(), Some(Uuid::parse(FSID).unwrap()));
    assert_eq!(first.0.device(), "/dev/sdz");
    assert!(!first.0.simulate());
    assert_eq!(first.0.action(), first.1);
    let (actions, ended) = run(first, None);
    assert_eq!(
        steps(&actions),
        vec![
            RemoveStep::MarkOut,
            RemoveStep::RemoveFromPlacement,
            RemoveStep::DeleteAuthKey,
            RemoveStep::StopService,
            RemoveStep::RemoveId,
            RemoveStep::TeardownVolumes,
            RemoveStep::EraseDevice,
            RemoveStep::RemoveMountPoint,
            RemoveStep::DisableService,
        ]
    );
    assert!(actions.iter().all(|a| a.mode == Mode::Perform));
    assert_eq!(
        ended,
        RemoveTransition::Complete(RemovedOsd { osd_id: 8, device: String::from("/dev/sdz") })
    );
}

#[test]
fn legacy_layout_removal_steps_in_order() {
    let first = RemoveOsd::start_filestore("/dev/sdy", 2, false);
    assert_eq!(first.0.layout(), Layout::Filestore);
    assert_eq!(first.0.osd_fsid(), None);
    let (actions, ended) = run(first, None);
    assert_eq!(
        steps(&actions),
        vec![
            RemoveStep::MarkOut,
            RemoveStep::RemoveFromPlacement,
            RemoveStep::DeleteAuthKey,
            RemoveStep::RemoveId,
            RemoveStep::EraseDevice,
        ]
    );
    assert_eq!(
        ended,
        RemoveTransition::Complete(RemovedOsd { osd_id: 2, device: String::from("/dev/sdy") })
    );
}

#[test]
fn simulated_removal_previews_every_step() {
    let (actions, ended) =
        run(RemoveOsd::start_bluestore("/dev/sdz", 8, Uuid::parse(FSID).unwrap(), true), None);
    assert_eq!(actions.len(), 9);
    assert!(actions.iter().all(|a| a.mode == Mode::Preview));
    assert!(matches!(ended, RemoveTransition::Complete(_)));
    let (actions, ended) = run(RemoveOsd::start_filestore("/dev/sdz", 8, true), None);
    assert_eq!(actions.len(), 5);
    assert!(actions.iter().all(|a| a.mode == Mode::Preview));
    assert!(matches!(ended, RemoveTransition::Complete(_)));
}

#[test]
fn failure_to_erase_the_disk_is_passed_over() {
    let (actions, ended) = run(
        RemoveOsd::start_bluestore("/dev/sdz", 8, Uuid::parse(FSID).unwrap(), false),
        Some(RemoveStep::EraseDevice),
    );
    assert_eq!(actions.len(), 9);
    assert_eq!(actions[7].step, RemoveStep::RemoveMountPoint);
    assert!(matches!(ended, RemoveTransition::Complete(_)));
    let (actions, ended) =
        run(RemoveOsd::start_filestore("/dev/sdz", 8, false), Some(RemoveStep::EraseDevice));
    assert_eq!(actions.len(), 5);
    assert!(matches!(ended, RemoveTransition::Complete(_)));
}

#[test]
fn any_other_failure_ends_the_removal() {
    for step in [
        RemoveStep::MarkOut,
        RemoveStep::RemoveFromPlacement,
        RemoveStep::DeleteAuthKey,
        RemoveStep::StopService,
        RemoveStep::RemoveId,
        RemoveStep::TeardownVolumes,
        RemoveStep::RemoveMountPoint,
        RemoveStep::DisableService,
    ] {
        let (actions, ended) = run(
            RemoveOsd::start_bluestore("/dev/sdz", 8, Uuid::parse(FSID).unwrap(), false),
            Some(step),
        );
        assert_eq!(actions.last().unwrap().step, step);
        assert_eq!(
            ended,
            RemoveTransition::Abort(RemoveFailure {
                error: OsdError::new(ErrorKind::IoFailure, String::from("it failed")),
                step,
                osd_id: 8,
                device: String::from("/dev/sdz"),
            })
        );
    }
}
