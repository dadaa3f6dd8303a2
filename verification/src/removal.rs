//! Removing the OSD of a disk: the ordered steps of each layout, and the
//! state that is carried from one step to the next. A failed step ends the
//! operation where it stands, with one exception: the disk is on its way out
//! of the machine, so a failure to erase it is passed over.
use crate::backend::Layout;
use crate::error::{OsdError, OsdErrorView};
use crate::ident::Uuid;
use crate::provision::Mode;
use vstd::prelude::*;
use vstd::string::*;

verus! {

/// A step of removing an OSD.
#[derive(Clone, Copy, Debug, PartialEq, Eq, Structural)]
pub enum RemoveStep {
    /// Mark the OSD out in the placement hierarchy.
    MarkOut,
    /// Remove the OSD from the placement hierarchy.
    RemoveFromPlacement,
    /// Delete the authorization key of the OSD.
    DeleteAuthKey,
    /// Stop the service of the OSD.
    StopService,
    /// Remove the OSD from the cluster.
    RemoveId,
    /// Deactivate and remove every logical volume of the volume group, then
    /// the group, then the registration of the disk as a physical volume.
    TeardownVolumes,
    /// Erase the disk.
    EraseDevice,
    /// Delete the directory of the OSD.
    RemoveMountPoint,
    /// Keep the OSD's volume from being brought up at boot.
    DisableService,
}

/// The steps of removing an OSD of the modern layout, in order.
pub open spec fn bluestore_removal_steps() -> Seq<RemoveStep> {
    seq![
        RemoveStep::MarkOut,
        RemoveStep::RemoveFromPlacement,
        RemoveStep::DeleteAuthKey,
        RemoveStep::StopService,
        RemoveStep::RemoveId,
        RemoveStep::TeardownVolumes,
        RemoveStep::EraseDevice,
        RemoveStep::RemoveMountPoint,
        RemoveStep::DisableService,
    ]
}

/// The steps of removing an OSD of the legacy layout, in order.
pub open spec fn filestore_removal_steps() -> Seq<RemoveStep> {
    seq![
        RemoveStep::MarkOut,
        RemoveStep::RemoveFromPlacement,
        RemoveStep::DeleteAuthKey,
        RemoveStep::RemoveId,
        RemoveStep::EraseDevice,
    ]
}

/// The steps of removing an OSD of the given layout, in order.
pub open spec fn removal_steps(layout: Layout) -> Seq<RemoveStep> {
    match layout {
        Layout::Bluestore => bluestore_removal_steps(),
        Layout::Filestore => filestore_removal_steps(),
    }
}

/// What the caller is to do next.
#[derive(Clone, Copy, Debug, PartialEq, Eq, Structural)]
pub struct RemoveAction {
    pub step: RemoveStep,
    pub mode: Mode,
}

/// The state of removing one OSD, between two steps.
#[derive(Debug, PartialEq, Eq)]
pub struct RemoveOsd {
    layout: Layout,
    simulate: bool,
    device: String,
    osd_id: u64,
    osd_fsid: Option<Uuid>,
    position: usize,
}

/// The mathematical content of a [`RemoveOsd`].
pub struct RemoveOsdView {
    /// The layout by which the OSD is removed.
    pub layout: Layout,
    /// Whether the operation only simulates.
    pub simulate: bool,
    /// The path of the disk.
    pub device: Seq<char>,
    /// The number of the OSD.
    pub osd_id: u64,
    /// The instance identifier of the OSD, which the modern layout records.
    pub osd_fsid: Option<Uuid>,
    /// The index of the step that is being carried out.
    pub position: int,
}

impl RemoveOsdView {
    /// The step that is being carried out.
    pub open spec fn step(self) -> RemoveStep {
        removal_steps(self.layout)[self.position]
    }

    /// A state is well formed where its step exists, and the instance
    /// identifier is known of an OSD of the modern layout.
    pub open spec fn well_formed(self) -> bool {
        &&& 0 <= self.position < removal_steps(self.layout).len()
        &&& self.layout == Layout::Bluestore ==> self.osd_fsid is Some
    }

    /// How the step at hand is to be carried out: every step of a removal
    /// changes something, so every step is only previewed where the
    /// operation simulates.
    pub open spec fn action(self) -> RemoveAction {
        RemoveAction {
            step: self.step(),
            mode: if self.simulate {
                Mode::Preview
            } else {
                Mode::Perform
            },
        }
    }
}

/// An OSD that was removed.
#[derive(Clone, Debug, PartialEq, Eq)]
pub struct RemovedOsd {
    pub osd_id: u64,
    pub device: String,
}

/// Why removing an OSD ended early.
#[derive(Clone, Debug, PartialEq, Eq)]
pub struct RemoveFailure {
    /// What went wrong.
    pub error: OsdError,
    /// The step that failed.
    pub step: RemoveStep,
    /// The number of the OSD.
    pub osd_id: u64,
    /// The path of the disk.
    pub device: String,
}

/// Where removing an OSD stands after a step.
#[derive(Debug, PartialEq, Eq)]
pub enum RemoveTransition {
    /// Another step is to be carried out.
    Continue(RemoveOsd, RemoveAction),
    /// Every step is done.
    Complete(RemovedOsd),
    /// A step failed. What was done before it stays as it is.
    Abort(RemoveFailure),
}

/// The mathematical content of a [`RemoveTransition`].
pub enum RemoveTransitionView {
    Continue(RemoveOsdView, RemoveAction),
    Complete { osd_id: u64, device: Seq<char> },
    Abort { error: OsdErrorView, step: RemoveStep, osd_id: u64, device: Seq<char> },
}

/// Whether the failure of a step is passed over. Only that of erasing the
/// disk is.
pub open spec fn passed_over(step: RemoveStep) -> bool {
    step == RemoveStep::EraseDevice
}

/// Where removing an OSD stands once the step that was being carried out has
/// reported `outcome`: at a failure where the step failed and its failure is
/// not passed over; else at the next step of the layout, or at the end where
/// none is left.
pub open spec fn after_removal(
    state: RemoveOsdView,
    outcome: Result<(), OsdErrorView>,
) -> RemoveTransitionView {
    match outcome {
        Err(error) if !passed_over(state.step()) => RemoveTransitionView::Abort {
            error,
            step: state.step(),
            osd_id: state.osd_id,
            device: state.device,
        },
        _ => {
            let next = RemoveOsdView { position: state.position + 1, ..state };
            if next.position < removal_steps(state.layout).len() {
                RemoveTransitionView::Continue(next, next.action())
            } else {
                RemoveTransitionView::Complete { osd_id: state.osd_id, device: state.device }
            }
        },
    }
}

/// The content of the outcome of a step.
pub open spec fn outcome_view(outcome: Result<(), OsdError>) -> Result<(), OsdErrorView> {
    match outcome {
        Ok(_) => Ok(()),
        Err(e) => Err(e@),
    }
}

fn removal_step_count(layout: Layout) -> (n: usize)
    ensures
        n == removal_steps(layout).len(),
{
    match layout {
        Layout::Bluestore => 9,
        Layout::Filestore => 5,
    }
}

fn removal_step_at(layout: Layout, position: usize) -> (step: RemoveStep)
    requires
        position < removal_steps(layout).len(),
    ensures
        step == removal_steps(layout)[position as int],
{
    match layout {
        Layout::Bluestore => {
            if position == 0 {
                RemoveStep::MarkOut
            } else if position == 1 {
                RemoveStep::RemoveFromPlacement
            } else if position == 2 {
                RemoveStep::DeleteAuthKey
            } else if position == 3 {
                RemoveStep::StopService
            } else if position == 4 {
                RemoveStep::RemoveId
            } else if position == 5 {
                RemoveStep::TeardownVolumes
            } else if position == 6 {
                RemoveStep::EraseDevice
            } else if position == 7 {
                RemoveStep::RemoveMountPoint
            } else {
                RemoveStep::DisableService
            }
        },
        Layout::Filestore => {
            if position == 0 {
                RemoveStep::MarkOut
            } else if position == 1 {
                RemoveStep::RemoveFromPlacement
            } else if position == 2 {
                RemoveStep::DeleteAuthKey
            } else if position == 3 {
                RemoveStep::RemoveId
            } else {
                RemoveStep::EraseDevice
            }
        },
    }
}

impl View for RemoveTransition {
    type V = RemoveTransitionView;

    open spec fn view(&self) -> RemoveTransitionView {
        match self {
            RemoveTransition::Continue(state, action) => RemoveTransitionView::Continue(
                state@,
                *action,
            ),
            RemoveTransition::Complete(osd) => RemoveTransitionView::Complete {
                osd_id: osd.osd_id,
                device: osd.device@,
            },
            RemoveTransition::Abort(failure) => RemoveTransitionView::Abort {
                error: failure.error@,
                step: failure.step,
                osd_id: failure.osd_id,
                device: failure.device@,
            },
        }
    }
}

impl RemoveOsd {
    /// The mathematical content of the state.
    pub closed spec fn view(&self) -> RemoveOsdView {
        RemoveOsdView {
            layout: self.layout,
            simulate: self.simulate,
            device: self.device@,
            osd_id: self.osd_id,
            osd_fsid: self.osd_fsid,
            position: self.position as int,
        }
    }

    #[verifier::type_invariant]
    spec fn valid(&self) -> bool {
        self@.well_formed()
    }

    /// Begins removing an OSD of the modern layout, whose number and
    /// instance identifier were read from the tags of its volumes.
    pub fn start_bluestore(device: &str, osd_id: u64, osd_fsid: Uuid, simulate: bool) -> (r: (
        RemoveOsd,
        RemoveAction,
    ))
        ensures
            r.0@ == (RemoveOsdView {
                layout: Layout::Bluestore,
                simulate,
                device: device@,
                osd_id,
                osd_fsid: Some(osd_fsid),
                position: 0,
            }),
            r.0@.well_formed(),
            r.1 == r.0@.action(),
    {
        let state = RemoveOsd {
            layout: Layout::Bluestore,
            simulate,
            device: String::from_str(device),
            osd_id,
            osd_fsid: Some(osd_fsid),
            position: 0,
        };
        let action = state.action();
        (state, action)
    }

    /// Begins removing an OSD of the legacy layout, whose number was found
    /// in its directory.
    pub fn start_filestore(device: &str, osd_id: u64, simulate: bool) -> (r: (
        RemoveOsd,
        RemoveAction,
    ))
        ensures
            r.0@ == (RemoveOsdView {
                layout: Layout::Filestore,
                simulate,
                device: device@,
                osd_id,
                osd_fsid: None,
                position: 0,
            }),
            r.0@.well_formed(),
            r.1 == r.0@.action(),
    {
        let state = RemoveOsd {
            layout: Layout::Filestore,
            simulate,
            device: String::from_str(device),
            osd_id,
            osd_fsid: None,
            position: 0,
        };
        let action = state.action();
        (state, action)
    }

    /// How the step at hand is to be carried out.
    pub fn action(&self) -> (action: RemoveAction)
        ensures
            action == self@.action(),
            self@.well_formed(),
    {
        proof {
            use_type_invariant(self);
        }
        RemoveAction {
            step: removal_step_at(self.layout, self.position),
            mode: if self.simulate {
                Mode::Preview
            } else {
                Mode::Perform
            },
        }
    }

    /// Takes in what came of the step at hand, and says where the operation
    /// stands: at the next step, at its end, or at a failure.
    pub fn advance(self, outcome: Result<(), OsdError>) -> (t: RemoveTransition)
        ensures
            t@ == after_removal(self@, outcome_view(outcome)),
            t matches RemoveTransition::Continue(next, _) ==> next@.well_formed(),
    {
        proof {
            use_type_invariant(&self);
        }
        let step = removal_step_at(self.layout, self.position);
        let RemoveOsd { layout, simulate, device, osd_id, osd_fsid, position } = self;
        let erasing = match step {
            RemoveStep::EraseDevice => true,
            _ => false,
        };
        match outcome {
            Err(error) if !erasing => RemoveTransition::Abort(
                RemoveFailure { error, step, osd_id, device },
            ),
            _ => {
                if position + 1 < removal_step_count(layout) {
                    let next = RemoveOsd {
                        layout,
                        simulate,
                        device,
                        osd_id,
                        osd_fsid,
                        position: position + 1,
                    };
                    let action = next.action();
                    RemoveTransition::Continue(next, action)
                } else {
                    RemoveTransition::Complete(RemovedOsd { osd_id, device })
                }
            },
        }
    }

    /// The layout by which the OSD is removed.
    pub fn layout(&self) -> (layout: Layout)
        ensures
            layout == self@.layout,
    {
        self.layout
    }

    /// Whether the operation only simulates.
    pub fn simulate(&self) -> (simulate: bool)
        ensures
            simulate == self@.simulate,
    {
        self.simulate
    }

    /// The path of the disk.
    pub fn device(&self) -> (device: &str)
        ensures
            device@ == self@.device,
    {
        self.device.as_str()
    }

    /// The number of the OSD.
    pub fn osd_id(&self) -> (id: u64)
        ensures
            id == self@.osd_id,
    {
        self.osd_id
    }

    /// The instance identifier of the OSD, which the modern layout records.
    pub fn osd_fsid(&self) -> (fsid: Option<Uuid>)
        ensures
            fsid == self@.osd_fsid,
            self@.layout == Layout::Bluestore ==> fsid is Some,
    {
        proof {
            use_type_invariant(self);
        }
        self.osd_fsid
    }
}

/// The steps of a removal are carried out one after the other, in their
/// order, on the same OSD.
pub proof fn lemma_removal_in_order(state: RemoveOsdView, outcome: Result<(), OsdErrorView>)
    requires
        state.well_formed(),
    ensures
        after_removal(state, outcome) matches RemoveTransitionView::Continue(next, action) ==> {
            &&& next.well_formed()
            &&& next.position == state.position + 1
            &&& action == next.action()
            &&& action.step == removal_steps(state.layout)[state.position + 1]
            &&& next.osd_id == state.osd_id
            &&& next.osd_fsid == state.osd_fsid
            &&& next.device == state.device
            &&& next.layout == state.layout
            &&& next.simulate == state.simulate
        },
{
}

/// A step that fails ends the removal with its error, naming the OSD and the
/// disk, unless the step is the erasing of the disk: its failure is passed
/// over, and the removal goes on as if the disk had been erased.
pub proof fn lemma_removal_failure(state: RemoveOsdView, error: OsdErrorView)
    requires
        state.well_formed(),
    ensures
        state.step() != RemoveStep::EraseDevice ==> after_removal(state, Err(error))
            == (RemoveTransitionView::Abort {
            error,
            step: state.step(),
            osd_id: state.osd_id,
            device: state.device,
        }),
        state.step() == RemoveStep::EraseDevice ==> after_removal(state, Err(error))
            == after_removal(state, Ok(())),
{
}

/// Whether a step takes the OSD out of the cluster's records.
pub open spec fn leaves_cluster(step: RemoveStep) -> bool {
    step == RemoveStep::MarkOut || step == RemoveStep::RemoveFromPlacement || step
        == RemoveStep::DeleteAuthKey || step == RemoveStep::RemoveId
}

/// Whether a step destroys what the OSD has on the host.
pub open spec fn destroys_local(step: RemoveStep) -> bool {
    step == RemoveStep::TeardownVolumes || step == RemoveStep::EraseDevice || step
        == RemoveStep::RemoveMountPoint
}

/// The cluster forgets the OSD before anything of it is destroyed on the
/// host: a removal that fails while it destroys leaves no OSD in the
/// cluster's records whose data is half gone.
pub proof fn lemma_cluster_first(layout: Layout, i: int, j: int)
    requires
        0 <= i < removal_steps(layout).len(),
        0 <= j < removal_steps(layout).len(),
        leaves_cluster(removal_steps(layout)[i]),
        destroys_local(removal_steps(layout)[j]),
    ensures
        i < j,
{
}

/// A removal that simulates asks for no step to be carried out for real.
pub proof fn lemma_simulated_removal_changes_nothing(
    state: RemoveOsdView,
    outcome: Result<(), OsdErrorView>,
)
    requires
        state.well_formed(),
        state.simulate,
    ensures
        state.action().mode == Mode::Preview,
        after_removal(state, outcome) matches RemoveTransitionView::Continue(_, action)
            ==> action.mode == Mode::Preview,
{
}

} // verus!
