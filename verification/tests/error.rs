use ceph_backend::backend::Layout;
use ceph_backend::error::{ErrorKind, OsdError};
use ceph_backend::ident::Uuid;
use ceph_backend::provision::{AddOsd, AddStep, Outcome, Transition};
use ceph_backend::removal::{RemoveOsd, RemoveStep, RemoveTransition};

#[test]
fn error_holds_kind_and_message() {
    let e = OsdError::new(ErrorKind::IoFailure, String::from("disk on fire"));
    assert_eq!(e.kind(), ErrorKind::IoFailure);
    assert_eq!(e.message(), "disk on fire");
    assert_eq!(e.duplicate(), e);
    assert_eq!(e.clone(), e);
    assert_ne!(e, OsdError::new(ErrorKind::NotFound, String::from("disk on fire")));
    assert_ne!(e, OsdError::new(ErrorKind::IoFailure, String::from("disk on ice")));
    let t = OsdError::tool_failure(String::from("mkfs: cannot open /dev/sdz\n"));
    assert_eq!(t.kind(), ErrorKind::ExternalToolFailure);
    assert_eq!(t.message(), "mkfs: cannot open /dev/sdz\n");
}

#[test]
fn cluster_failure_surfaces_as_it_was_reported() {
    let unreachable = OsdError::new(
        ErrorKind::ConnectionFailure,
        String::from("cannot reach the monitors"),
    );
    let (state, action) = AddOsd::start(
        Layout::Filestore,
        "/dev/sdz",
        None,
        false,
        Uuid::from_u128(1),
        Uuid::from_u128(2),
    );
    assert_eq!(action.step, AddStep::FormatDevice);
    let state = match state.advance(Outcome::Done) {
        Transition::Continue(s, _) => s,
        other => panic!("ended early: {:?}", other),
    };
    match state.advance(Outcome::Failed(unreachable.clone())) {
        Transition::Abort(failure) => {
            assert_eq!(failure.error, unreachable);
            assert_eq!(failure.error.kind(), ErrorKind::ConnectionFailure);
            assert_eq!(failure.step, AddStep::ProbeDevice);
        }
        other => panic!("not aborted: {:?}", other),
    }
    let (state, _) = RemoveOsd::start_filestore("/dev/sdz", 1, false);
    match state.advance(Err(unreachable.clone())) {
        RemoveTransition::Abort(failure) => {
            assert_eq!(failure.error, unreachable);
            assert_eq!(failure.step, RemoveStep::MarkOut);
        }
        other => panic!("not aborted: {:?}", other),
    }
}
