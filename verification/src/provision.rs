//! Adding a disk as an OSD: the ordered steps of each layout, and the state
//! that is carried from one step to the next. The state says which step
//! comes next; the caller carries the step out against the host and the
//! cluster and reports what came of it. A failed step ends the operation
//! where it stands: nothing is undone, and the failure names the OSD so that
//! a removal can clean up. An operation that only simulates shows every step
//! and carries none out, and so always succeeds.
use crate::backend::Layout;
use crate::error::{error_view, ErrorKind, OsdError, OsdErrorView};
use crate::ident::Uuid;
use crate::journal::{JournalDevice, JournalDeviceView};
use crate::osd_dir::{missing_fs_uuid_message, mount_point, mount_point_text};
use crate::tags::MediaType;
use crate::volume::{
    logical_volume_name_text, logical_volume_path_text, plan_volume, volume_group_name_text,
    volume_handle, VolumeHandle, VolumeHandleView, VolumePlan,
};
use vstd::prelude::*;
use vstd::string::*;

verus! {

/// A step of adding a disk.
#[derive(Clone, Copy, Debug, PartialEq, Eq, Structural)]
pub enum AddStep {
    /// Choose the journal, creating its partition where needed.
    ResolveJournal,
    /// Have the cluster allocate the number of the new OSD.
    AllocateId,
    /// Create the volume group and the logical volume, and tag the volume.
    ProvisionVolume,
    /// Create the directory of the OSD and write the `fsid` marker into it.
    CreateMountPoint,
    /// Link the volume, and the journal where there is one, into the
    /// directory, and hand the journal to the service account.
    LinkDevices,
    /// Fetch the cluster's membership map and write it into the directory.
    SaveMonmap,
    /// Hand everything written so far to the service account.
    ChownArtifacts,
    /// Register the authorization key of the OSD and write its keyring.
    RegisterAuth,
    /// Run the engine's tool that makes the OSD's filesystem.
    MakeFilesystem,
    /// Run the engine's tool that primes the volume.
    PrimeVolume,
    /// Enter the OSD into the placement hierarchy under this host.
    AddToPlacement,
    /// Have the OSD's volume brought up at boot.
    EnableService,
    /// Start the OSD's service.
    StartService,
    /// Format the device.
    FormatDevice,
    /// Read what the device is: the identifier and the type of its
    /// filesystem, its capacity, its medium.
    ProbeDevice,
    /// Create the directory of the OSD and mount the device on it.
    MountDevice,
    /// Enter the mount into the persistent mount table.
    RegisterMountTable,
}

/// The steps of adding a disk in the modern layout, in order.
pub open spec fn bluestore_steps() -> Seq<AddStep> {
    seq![
        AddStep::ResolveJournal,
        AddStep::AllocateId,
        AddStep::ProvisionVolume,
        AddStep::CreateMountPoint,
        AddStep::LinkDevices,
        AddStep::SaveMonmap,
        AddStep::ChownArtifacts,
        AddStep::RegisterAuth,
        AddStep::MakeFilesystem,
        AddStep::PrimeVolume,
        AddStep::AddToPlacement,
        AddStep::EnableService,
        AddStep::StartService,
    ]
}

/// The steps of adding a disk in the legacy layout, in order.
pub open spec fn filestore_steps() -> Seq<AddStep> {
    seq![
        AddStep::FormatDevice,
        AddStep::ProbeDevice,
        AddStep::AllocateId,
        AddStep::MountDevice,
        AddStep::ResolveJournal,
        AddStep::MakeFilesystem,
        AddStep::RegisterAuth,
        AddStep::AddToPlacement,
        AddStep::RegisterMountTable,
        AddStep::StartService,
    ]
}

/// The steps of adding a disk in the given layout, in order.
pub open spec fn add_steps(layout: Layout) -> Seq<AddStep> {
    match layout {
        Layout::Bluestore => bluestore_steps(),
        Layout::Filestore => filestore_steps(),
    }
}

/// How a step is to be carried out.
#[derive(Clone, Copy, Debug, PartialEq, Eq, Structural)]
pub enum Mode {
    /// For real.
    Perform,
    /// Show and log only: nothing is carried out.
    Preview,
}

/// What the caller is to do next.
#[derive(Clone, Copy, Debug, PartialEq, Eq, Structural)]
pub struct Action {
    pub step: AddStep,
    pub mode: Mode,
}

/// What a look at a device found.
#[derive(Clone, Debug, PartialEq, Eq)]
pub struct DeviceInfo {
    /// The identifier of the filesystem on the device.
    pub fs_uuid: Option<Uuid>,
    /// The capacity of the device in bytes.
    pub capacity: u64,
    /// The type of the filesystem on the device.
    pub fs_type: String,
    /// The medium of the device.
    pub media: MediaType,
}

/// The mathematical content of a [`DeviceInfo`].
pub struct DeviceInfoView {
    pub fs_uuid: Option<Uuid>,
    pub capacity: u64,
    pub fs_type: Seq<char>,
    pub media: MediaType,
}

impl View for DeviceInfo {
    type V = DeviceInfoView;

    open spec fn view(&self) -> DeviceInfoView {
        DeviceInfoView {
            fs_uuid: self.fs_uuid,
            capacity: self.capacity,
            fs_type: self.fs_type@,
            media: self.media,
        }
    }
}

/// What came of a step.
#[derive(Clone, Debug, PartialEq, Eq)]
pub enum Outcome {
    /// The step was carried out and has nothing to report.
    Done,
    /// The journal that was resolved, if the OSD gets one.
    Journal(Option<JournalDevice>),
    /// The number that the cluster allocated.
    OsdId(u64),
    /// The size in bytes of the volume group that was created.
    VolumeSize(u64),
    /// What the device was found to be.
    Device(DeviceInfo),
    /// The step failed.
    Failed(OsdError),
}

/// The mathematical content of an [`Outcome`].
pub enum OutcomeView {
    Done,
    Journal(Option<JournalDeviceView>),
    OsdId(u64),
    VolumeSize(u64),
    Device(DeviceInfoView),
    Failed(OsdErrorView),
}

impl View for Outcome {
    type V = OutcomeView;

    open spec fn view(&self) -> OutcomeView {
        match self {
            Outcome::Done => OutcomeView::Done,
            Outcome::Journal(j) => OutcomeView::Journal(
                match j {
                    Some(d) => Some(d@),
                    None => None,
                },
            ),
            Outcome::OsdId(id) => OutcomeView::OsdId(*id),
            Outcome::VolumeSize(n) => OutcomeView::VolumeSize(*n),
            Outcome::Device(info) => OutcomeView::Device(info@),
            Outcome::Failed(e) => OutcomeView::Failed(e@),
        }
    }
}

/// The state of adding one disk, between two steps.
#[derive(Debug, PartialEq, Eq)]
pub struct AddOsd {
    layout: Layout,
    simulate: bool,
    device: String,
    requested_id: Option<u64>,
    osd_fsid: Uuid,
    plan: VolumePlan,
    position: usize,
    journal: Option<JournalDevice>,
    osd_id: Option<u64>,
    volume_size: Option<u64>,
    info: Option<DeviceInfo>,
}

/// The mathematical content of an [`AddOsd`].
pub struct AddOsdView {
    /// The layout by which the disk is added.
    pub layout: Layout,
    /// Whether the operation only simulates.
    pub simulate: bool,
    /// The path of the disk.
    pub device: Seq<char>,
    /// The number asked for, if any.
    pub requested_id: Option<u64>,
    /// The instance identifier of the new OSD.
    pub osd_fsid: Uuid,
    /// The name of the volume group to create.
    pub vg_name: Seq<char>,
    /// The name of the logical volume to create.
    pub lv_name: Seq<char>,
    /// The path at which the logical volume appears.
    pub lv_dev_name: Seq<char>,
    /// The index of the step that is being carried out.
    pub position: int,
    /// The journal, once resolved.
    pub journal: Option<JournalDeviceView>,
    /// The number of the OSD, once allocated.
    pub osd_id: Option<u64>,
    /// The size of the volume group, once created.
    pub volume_size: Option<u64>,
    /// What the device is, once probed.
    pub info: Option<DeviceInfoView>,
}

impl AddOsdView {
    /// The step that is being carried out.
    pub open spec fn step(self) -> AddStep {
        add_steps(self.layout)[self.position]
    }

    /// Whether a step was completed before the one being carried out.
    pub open spec fn completed(self, step: AddStep) -> bool {
        exists|k: int| 0 <= k < self.position && add_steps(self.layout)[k] == step
    }

    /// A state is well formed where its step exists and it holds exactly
    /// what the completed steps left: the number of the OSD after its
    /// allocation, the size of the volume group after its creation, what the
    /// device is after a look at it that took place.
    pub open spec fn well_formed(self) -> bool {
        &&& 0 <= self.position < add_steps(self.layout).len()
        &&& self.osd_id is Some <==> self.completed(AddStep::AllocateId)
        &&& self.volume_size is Some <==> self.completed(AddStep::ProvisionVolume)
        &&& self.info is Some <==> !self.simulate && self.completed(AddStep::ProbeDevice)
        &&& self.journal is Some ==> self.completed(AddStep::ResolveJournal)
    }

    /// How the step that is being carried out is to be carried out: for
    /// real, or only previewed where the operation simulates.
    pub open spec fn action(self) -> Action {
        Action {
            step: self.step(),
            mode: if self.simulate {
                Mode::Preview
            } else {
                Mode::Perform
            },
        }
    }
}

/// Why adding a disk ended early, and what identifies the OSD that was being
/// added, for the removal that cleans up.
#[derive(Clone, Debug, PartialEq, Eq)]
pub struct AddFailure {
    /// What went wrong.
    pub error: OsdError,
    /// The step that failed.
    pub step: AddStep,
    /// The path of the disk.
    pub device: String,
    /// The number of the OSD, where one had been allocated.
    pub osd_id: Option<u64>,
    /// The directory of the OSD, where a number had been allocated.
    pub mount_point: Option<String>,
}

/// The mathematical content of an [`AddFailure`].
pub struct AddFailureView {
    pub error: OsdErrorView,
    pub step: AddStep,
    pub device: Seq<char>,
    pub osd_id: Option<u64>,
    pub mount_point: Option<Seq<char>>,
}

impl View for AddFailure {
    type V = AddFailureView;

    open spec fn view(&self) -> AddFailureView {
        AddFailureView {
            error: self.error@,
            step: self.step,
            device: self.device@,
            osd_id: self.osd_id,
            mount_point: match self.mount_point {
                Some(p) => Some(p@),
                None => None,
            },
        }
    }
}

/// An OSD that was added: the number that the cluster allocated, the
/// instance identifier that this host generated, and the disk; with the
/// layout and the journal it was given.
#[derive(Clone, Debug, PartialEq, Eq)]
pub struct AddedOsd {
    pub osd_id: u64,
    pub osd_fsid: Uuid,
    pub device: String,
    pub layout: Layout,
    pub journal: Option<JournalDevice>,
}

/// The mathematical content of an [`AddedOsd`].
pub struct AddedOsdView {
    pub osd_id: u64,
    pub osd_fsid: Uuid,
    pub device: Seq<char>,
    pub layout: Layout,
    pub journal: Option<JournalDeviceView>,
}

impl View for AddedOsd {
    type V = AddedOsdView;

    open spec fn view(&self) -> AddedOsdView {
        AddedOsdView {
            osd_id: self.osd_id,
            osd_fsid: self.osd_fsid,
            device: self.device@,
            layout: self.layout,
            journal: match self.journal {
                Some(j) => Some(j@),
                None => None,
            },
        }
    }
}

/// Where adding a disk stands after a step.
#[derive(Debug, PartialEq, Eq)]
pub enum Transition {
    /// Another step is to be carried out.
    Continue(AddOsd, Action),
    /// Every step is done: the disk is an OSD.
    Complete(AddedOsd),
    /// A step failed. What was done before it stays as it is.
    Abort(AddFailure),
}

/// The mathematical content of a [`Transition`].
pub enum TransitionView {
    Continue(AddOsdView, Action),
    Complete(AddedOsdView),
    Abort(AddFailureView),
}

/// The message of the error for an outcome that does not answer the step.
pub open spec fn unexpected_outcome_message() -> Seq<char> {
    "the outcome reported does not answer the step"@
}

/// The state after a step that was carried out for real reported `outcome`:
/// a failure is an error, and what the step found is recorded. An outcome
/// of another step's kind is an inconsistency, and so is a formatted device
/// without a filesystem identifier.
pub open spec fn absorb(state: AddOsdView, outcome: OutcomeView) -> Result<
    AddOsdView,
    OsdErrorView,
> {
    match (state.step(), outcome) {
        (_, OutcomeView::Failed(e)) => Err(e),
        (AddStep::ResolveJournal, OutcomeView::Journal(journal)) => Ok(
            AddOsdView { journal, ..state },
        ),
        (AddStep::AllocateId, OutcomeView::OsdId(id)) => Ok(
            AddOsdView { osd_id: Some(id), ..state },
        ),
        (AddStep::ProvisionVolume, OutcomeView::VolumeSize(size)) => Ok(
            AddOsdView { volume_size: Some(size), ..state },
        ),
        (AddStep::ProbeDevice, OutcomeView::Device(info)) => if info.fs_uuid is None {
            Err(error_view(ErrorKind::StateInconsistency, missing_fs_uuid_message(state.device)))
        } else {
            Ok(AddOsdView { info: Some(info), ..state })
        },
        (step, OutcomeView::Done) => if step == AddStep::ResolveJournal || step
            == AddStep::AllocateId || step == AddStep::ProvisionVolume || step
            == AddStep::ProbeDevice {
            Err(error_view(ErrorKind::StateInconsistency, unexpected_outcome_message()))
        } else {
            Ok(state)
        },
        _ => Err(error_view(ErrorKind::StateInconsistency, unexpected_outcome_message())),
    }
}

/// The state after a step that was only previewed: the OSD gets the number
/// asked for, or 0; the volume group counts as empty; no journal is
/// resolved, and nothing is known of the device.
pub open spec fn preview(state: AddOsdView) -> AddOsdView {
    match state.step() {
        AddStep::AllocateId => AddOsdView {
            osd_id: Some(
                match state.requested_id {
                    Some(id) => id,
                    None => 0,
                },
            ),
            ..state
        },
        AddStep::ProvisionVolume => AddOsdView { volume_size: Some(0), ..state },
        _ => state,
    }
}

/// The failure of the step that is being carried out.
pub open spec fn failure(state: AddOsdView, error: OsdErrorView) -> AddFailureView {
    AddFailureView {
        error,
        step: state.step(),
        device: state.device,
        osd_id: state.osd_id,
        mount_point: match state.osd_id {
            Some(id) => Some(mount_point_text(id)),
            None => None,
        },
    }
}

/// The state that takes in what the step at hand came to. A step that was
/// only previewed leaves what its preview stands for: nothing was carried
/// out, so there is nothing that could have failed, and what is reported of
/// it is not looked at. A step that was carried out leaves what it found,
/// or its failure.
pub open spec fn taken(state: AddOsdView, outcome: OutcomeView) -> Result<
    AddOsdView,
    OsdErrorView,
> {
    if state.action().mode == Mode::Preview {
        Ok(preview(state))
    } else {
        absorb(state, outcome)
    }
}

/// The OSD that a completed operation added.
pub open spec fn added(state: AddOsdView) -> AddedOsdView {
    AddedOsdView {
        osd_id: state.osd_id->0,
        osd_fsid: state.osd_fsid,
        device: state.device,
        layout: state.layout,
        journal: state.journal,
    }
}

/// Where adding a disk stands once the step that was being carried out has
/// reported `outcome`. The failure of a step that was carried out ends the
/// operation. Otherwise the state takes in what the step found, or what its
/// preview stands for, and the next step of the layout follows, until none
/// is left.
pub open spec fn after(state: AddOsdView, outcome: OutcomeView) -> TransitionView {
    match taken(state, outcome) {
        Err(e) => TransitionView::Abort(failure(state, e)),
        Ok(s) => {
            let next = AddOsdView { position: state.position + 1, ..s };
            if next.position < add_steps(state.layout).len() {
                TransitionView::Continue(next, next.action())
            } else {
                TransitionView::Complete(added(next))
            }
        },
    }
}

/// The state in which adding a disk begins.
pub open spec fn initial(
    layout: Layout,
    device: Seq<char>,
    requested_id: Option<u64>,
    simulate: bool,
    osd_fsid: Uuid,
    group: Uuid,
) -> AddOsdView {
    AddOsdView {
        layout,
        simulate,
        device,
        requested_id,
        osd_fsid,
        vg_name: volume_group_name_text(group),
        lv_name: logical_volume_name_text(osd_fsid),
        lv_dev_name: logical_volume_path_text(
            volume_group_name_text(group),
            logical_volume_name_text(osd_fsid),
        ),
        position: 0,
        journal: None,
        osd_id: None,
        volume_size: None,
        info: None,
    }
}

impl View for Transition {
    type V = TransitionView;

    open spec fn view(&self) -> TransitionView {
        match self {
            Transition::Continue(state, action) => TransitionView::Continue(state@, *action),
            Transition::Complete(state) => TransitionView::Complete(state@),
            Transition::Abort(failure) => TransitionView::Abort(failure@),
        }
    }
}

fn step_count(layout: Layout) -> (n: usize)
    ensures
        n == add_steps(layout).len(),
{
    match layout {
        Layout::Bluestore => 13,
        Layout::Filestore => 10,
    }
}

fn step_at(layout: Layout, position: usize) -> (step: AddStep)
    requires
        position < add_steps(layout).len(),
    ensures
        step == add_steps(layout)[position as int],
{
    match layout {
        Layout::Bluestore => {
            if position == 0 {
                AddStep::ResolveJournal
            } else if position == 1 {
                AddStep::AllocateId
            } else if position == 2 {
                AddStep::ProvisionVolume
            } else if position == 3 {
                AddStep::CreateMountPoint
            } else if position == 4 {
                AddStep::LinkDevices
            } else if position == 5 {
                AddStep::SaveMonmap
            } else if position == 6 {
                AddStep::ChownArtifacts
            } else if position == 7 {
                AddStep::RegisterAuth
            } else if position == 8 {
                AddStep::MakeFilesystem
            } else if position == 9 {
                AddStep::PrimeVolume
            } else if position == 10 {
                AddStep::AddToPlacement
            } else if position == 11 {
                AddStep::EnableService
            } else {
                AddStep::StartService
            }
        },
        Layout::Filestore => {
            if position == 0 {
                AddStep::FormatDevice
            } else if position == 1 {
                AddStep::ProbeDevice
            } else if position == 2 {
                AddStep::AllocateId
            } else if position == 3 {
                AddStep::MountDevice
            } else if position == 4 {
                AddStep::ResolveJournal
            } else if position == 5 {
                AddStep::MakeFilesystem
            } else if position == 6 {
                AddStep::RegisterAuth
            } else if position == 7 {
                AddStep::AddToPlacement
            } else if position == 8 {
                AddStep::RegisterMountTable
            } else {
                AddStep::StartService
            }
        },
    }
}

/// Completing the step at hand adds exactly that step to the completed
/// ones.
proof fn lemma_completed_next(state: AddOsdView, next: AddOsdView, step: AddStep)
    requires
        0 <= state.position < add_steps(state.layout).len(),
        next.layout == state.layout,
        next.position == state.position + 1,
    ensures
        next.completed(step) <==> (state.completed(step) || state.step() == step),
{
    let steps = add_steps(state.layout);
    if next.completed(step) {
        let k = choose|k: int| 0 <= k < next.position && steps[k] == step;
        if k < state.position {
            assert(state.completed(step));
        }
    }
    if state.completed(step) {
        let k = choose|k: int| 0 <= k < state.position && steps[k] == step;
        assert(0 <= k < next.position && steps[k] == step);
    }
    if state.step() == step {
        assert(0 <= state.position < next.position && steps[state.position] == step);
    }
}

/// No step occurs twice among the steps of a layout.
proof fn lemma_steps_distinct(layout: Layout, i: int, j: int)
    requires
        0 <= i < j < add_steps(layout).len(),
    ensures
        add_steps(layout)[i] != add_steps(layout)[j],
{
}

/// The step at hand is not among the completed ones.
proof fn lemma_step_not_completed(state: AddOsdView)
    requires
        0 <= state.position < add_steps(state.layout).len(),
    ensures
        !state.completed(state.step()),
{
    if state.completed(state.step()) {
        let k = choose|k: int|
            0 <= k < state.position && add_steps(state.layout)[k] == state.step();
        lemma_steps_distinct(state.layout, k, state.position);
    }
}

/// A well-formed state stays well formed from step to step.
pub proof fn lemma_after_well_formed(state: AddOsdView, outcome: OutcomeView)
    requires
        state.well_formed(),
    ensures
        after(state, outcome) matches TransitionView::Continue(next, action) ==> next.well_formed()
            && action == next.action(),
{
    match after(state, outcome) {
        TransitionView::Continue(next, action) => {
            lemma_step_not_completed(state);
            lemma_completed_next(state, next, AddStep::AllocateId);
            lemma_completed_next(state, next, AddStep::ProvisionVolume);
            lemma_completed_next(state, next, AddStep::ProbeDevice);
            lemma_completed_next(state, next, AddStep::ResolveJournal);
        },
        _ => {},
    }
}

impl AddOsd {
    /// The mathematical content of the state.
    pub closed spec fn view(&self) -> AddOsdView {
        AddOsdView {
            layout: self.layout,
            simulate: self.simulate,
            device: self.device@,
            requested_id: self.requested_id,
            osd_fsid: self.osd_fsid,
            vg_name: self.plan.vg_name@,
            lv_name: self.plan.lv_name@,
            lv_dev_name: self.plan.lv_dev_name@,
            position: self.position as int,
            journal: match self.journal {
                Some(j) => Some(j@),
                None => None,
            },
            osd_id: self.osd_id,
            volume_size: self.volume_size,
            info: match self.info {
                Some(i) => Some(i@),
                None => None,
            },
        }
    }

    #[verifier::type_invariant]
    spec fn valid(&self) -> bool {
        self@.well_formed()
    }

    /// Begins adding the disk `device` as an OSD with instance identifier
    /// `osd_fsid`, whose data volume lies in the volume group with
    /// identifier `group`. Gives the state and the first step.
    pub fn start(
        layout: Layout,
        device: &str,
        requested_id: Option<u64>,
        simulate: bool,
        osd_fsid: Uuid,
        group: Uuid,
    ) -> (r: (AddOsd, Action))
        ensures
            r.0@ == initial(layout, device@, requested_id, simulate, osd_fsid, group),
            r.0@.well_formed(),
            r.1 == r.0@.action(),
    {
        let state = AddOsd {
            layout,
            simulate,
            device: String::from_str(device),
            requested_id,
            osd_fsid,
            plan: plan_volume(&group, &osd_fsid),
            position: 0,
            journal: None,
            osd_id: None,
            volume_size: None,
            info: None,
        };
        let action = state.action();
        (state, action)
    }

    /// How the step at hand is to be carried out.
    pub fn action(&self) -> (action: Action)
        ensures
            action == self@.action(),
            self@.well_formed(),
    {
        proof {
            use_type_invariant(self);
        }
        let step = step_at(self.layout, self.position);
        Action {
            step,
            mode: if self.simulate {
                Mode::Preview
            } else {
                Mode::Perform
            },
        }
    }

    /// Takes in what came of the step at hand, and says where the operation
    /// stands: at the next step, at its end, or at a failure.
    pub fn advance(self, outcome: Outcome) -> (t: Transition)
        ensures
            t@ == after(self@, outcome@),
            t matches Transition::Continue(next, _) ==> next@.well_formed(),
    {
        proof {
            use_type_invariant(&self);
            lemma_after_well_formed(self@, outcome@);
        }
        let ghost before = self@;
        let action = self.action();
        let step = action.step;
        let AddOsd {
            layout,
            simulate,
            device,
            requested_id,
            osd_fsid,
            plan,
            position,
            journal,
            osd_id,
            volume_size,
            info,
        } = self;
        let previewed = match action.mode {
            Mode::Preview => true,
            Mode::Perform => false,
        };
        let found: Result<
            (Option<JournalDevice>, Option<u64>, Option<u64>, Option<DeviceInfo>),
            OsdError,
        > = if previewed {
            match step {
                AddStep::AllocateId => Ok(
                    (
                        journal,
                        Some(
                            match requested_id {
                                Some(id) => id,
                                None => 0,
                            },
                        ),
                        volume_size,
                        info,
                    ),
                ),
                AddStep::ProvisionVolume => Ok((journal, osd_id, Some(0), info)),
                _ => Ok((journal, osd_id, volume_size, info)),
            }
        } else {
            match (step, outcome) {
                (_, Outcome::Failed(e)) => Err(e),
                (AddStep::ResolveJournal, Outcome::Journal(resolved)) => Ok(
                    (resolved, osd_id, volume_size, info),
                ),
                (AddStep::AllocateId, Outcome::OsdId(id)) => Ok(
                    (journal, Some(id), volume_size, info),
                ),
                (AddStep::ProvisionVolume, Outcome::VolumeSize(size)) => Ok(
                    (journal, osd_id, Some(size), info),
                ),
                (AddStep::ProbeDevice, Outcome::Device(probed)) => {
                    if probed.fs_uuid.is_none() {
                        let mut message = String::from_str("Formatted device ");
                        message.append(device.as_str());
                        message.append(" doesn't have a filesystem UUID.  Please investigate");
                        Err(OsdError::new(ErrorKind::StateInconsistency, message))
                    } else {
                        Ok((journal, osd_id, volume_size, Some(probed)))
                    }
                },
                (AddStep::ResolveJournal, Outcome::Done)
                | (AddStep::AllocateId, Outcome::Done)
                | (AddStep::ProvisionVolume, Outcome::Done)
                | (AddStep::ProbeDevice, Outcome::Done) => Err(
                    OsdError::new(
                        ErrorKind::StateInconsistency,
                        String::from_str("the outcome reported does not answer the step"),
                    ),
                ),
                (_, Outcome::Done) => Ok((journal, osd_id, volume_size, info)),
                _ => Err(
                    OsdError::new(
                        ErrorKind::StateInconsistency,
                        String::from_str("the outcome reported does not answer the step"),
                    ),
                ),
            }
        };
        match found {
            Err(error) => {
                let mount = match osd_id {
                    Some(id) => Some(mount_point(id)),
                    None => None,
                };
                Transition::Abort(AddFailure { error, step, device, osd_id, mount_point: mount })
            },
            Ok((journal, osd_id, volume_size, info)) => {
                if position + 1 < step_count(layout) {
                    let next = AddOsd {
                        layout,
                        simulate,
                        device,
                        requested_id,
                        osd_fsid,
                        plan,
                        position: position + 1,
                        journal,
                        osd_id,
                        volume_size,
                        info,
                    };
                    let action = next.action();
                    Transition::Continue(next, action)
                } else {
                    proof {
                        let s = taken(before, outcome@)->Ok_0;
                        let last = AddOsdView { position: before.position + 1, ..s };
                        lemma_completed_next(before, last, AddStep::AllocateId);
                        lemma_step_not_completed(before);
                        assert(add_steps(Layout::Bluestore)[1] == AddStep::AllocateId);
                        assert(add_steps(Layout::Filestore)[2] == AddStep::AllocateId);
                        assert(before.completed(AddStep::AllocateId));
                    }
                    let id = match osd_id {
                        Some(id) => id,
                        None => 0,
                    };
                    Transition::Complete(AddedOsd { osd_id: id, osd_fsid, device, layout, journal })
                }
            },
        }
    }

    /// The layout by which the disk is added.
    pub fn layout(&self) -> (layout: Layout)
        ensures
            layout == self@.layout,
    {
        self.layout
    }

    /// Whether the operation only simulates.
    pub fn simulate(&self) -> (simulate: bool)
        ensures
            simulate == self@.simulate,
    {
        self.simulate
    }

    /// The path of the disk.
    pub fn device(&self) -> (device: &str)
        ensures
            device@ == self@.device,
    {
        self.device.as_str()
    }

    /// The number asked for, if any.
    pub fn requested_id(&self) -> (id: Option<u64>)
        ensures
            id == self@.requested_id,
    {
        self.requested_id
    }

    /// The instance identifier of the new OSD.
    pub fn osd_fsid(&self) -> (fsid: Uuid)
        ensures
            fsid == self@.osd_fsid,
    {
        self.osd_fsid
    }

    /// The names under which the data volume is created.
    pub fn volume_plan(&self) -> (plan: &VolumePlan)
        ensures
            plan.vg_name@ == self@.vg_name,
            plan.lv_name@ == self@.lv_name,
            plan.lv_dev_name@ == self@.lv_dev_name,
    {
        &self.plan
    }

    /// The number of the OSD, once the cluster has allocated it.
    pub fn osd_id(&self) -> (id: Option<u64>)
        ensures
            id == self@.osd_id,
    {
        self.osd_id
    }

    /// The journal of the OSD, once resolved, if it gets one.
    pub fn journal(&self) -> (journal: Option<&JournalDevice>)
        ensures
            match journal {
                Some(j) => self@.journal == Some(j@),
                None => self@.journal is None,
            },
    {
        self.journal.as_ref()
    }

    /// The data volume of the OSD, once created: where it appears, the
    /// volume group that holds it, and the size of the group.
    pub fn volume(&self) -> (handle: Option<VolumeHandle>)
        ensures
            match self@.volume_size {
                Some(size) => handle matches Some(h) && h@ == (VolumeHandleView {
                    path: self@.lv_dev_name,
                    group: self@.vg_name,
                    size,
                }),
                None => handle is None,
            },
    {
        match self.volume_size {
            Some(size) => Some(volume_handle(&self.plan, size)),
            None => None,
        }
    }

    /// The size of the volume group, once created.
    pub fn volume_size(&self) -> (size: Option<u64>)
        ensures
            size == self@.volume_size,
    {
        self.volume_size
    }

    /// What the device is, once probed.
    pub fn device_info(&self) -> (info: Option<&DeviceInfo>)
        ensures
            match info {
                Some(i) => self@.info == Some(i@),
                None => self@.info is None,
            },
    {
        self.info.as_ref()
    }

    /// The directory of the OSD, once its number is allocated.
    pub fn mount_point(&self) -> (path: Option<String>)
        ensures
            match self@.osd_id {
                Some(id) => path matches Some(p) && p@ == mount_point_text(id),
                None => path is None,
            },
    {
        match self.osd_id {
            Some(id) => Some(mount_point(id)),
            None => None,
        }
    }

    /// The capacity that the placement weight is computed from: that of the
    /// volume group in the modern layout, that of the device in the legacy
    /// one; once known.
    pub fn capacity(&self) -> (bytes: Option<u64>)
        ensures
            bytes == capacity_of(self@),
    {
        match self.layout {
            Layout::Bluestore => self.volume_size,
            Layout::Filestore => match &self.info {
                Some(info) => Some(info.capacity),
                None => None,
            },
        }
    }
}

/// The capacity that the placement weight is computed from.
pub open spec fn capacity_of(state: AddOsdView) -> Option<u64> {
    match state.layout {
        Layout::Bluestore => state.volume_size,
        Layout::Filestore => match state.info {
            Some(info) => Some(info.capacity),
            None => None,
        },
    }
}

/// The steps of a layout are carried out one after the other, in their
/// order, and what describes the operation stays as it began.
pub proof fn lemma_steps_in_order(state: AddOsdView, outcome: OutcomeView)
    requires
        state.well_formed(),
    ensures
        after(state, outcome) matches TransitionView::Continue(next, action) ==> {
            &&& next.position == state.position + 1
            &&& action.step == add_steps(state.layout)[state.position + 1]
            &&& next.layout == state.layout
            &&& next.simulate == state.simulate
            &&& next.device == state.device
            &&& next.requested_id == state.requested_id
            &&& next.osd_fsid == state.osd_fsid
            &&& next.lv_dev_name == state.lv_dev_name
        },
{
}

/// The number of the OSD, once allocated, stays the same through every
/// later step, and a failure after its allocation names it, together with
/// the disk and the directory of the OSD.
pub proof fn lemma_identity_is_kept(state: AddOsdView, outcome: OutcomeView)
    requires
        state.well_formed(),
        state.osd_id is Some,
    ensures
        match after(state, outcome) {
            TransitionView::Continue(next, _) => next.osd_id == state.osd_id,
            TransitionView::Complete(osd) => Some(osd.osd_id) == state.osd_id && osd.osd_fsid
                == state.osd_fsid && osd.device == state.device,
            TransitionView::Abort(failure) => failure.osd_id == state.osd_id && failure.device
                == state.device && failure.mount_point == Some(
                mount_point_text(state.osd_id->0),
            ),
        },
{
    lemma_step_not_completed(state);
}

/// Every step after the allocation knows the number of the OSD: in the
/// modern layout every step from the provisioning of the volume on, in the
/// legacy layout every step from the mounting of the device on.
pub proof fn lemma_osd_known_after_allocation(state: AddOsdView)
    requires
        state.well_formed(),
        state.position > (match state.layout {
            Layout::Bluestore => 1int,
            Layout::Filestore => 2int,
        }),
    ensures
        state.osd_id is Some,
{
    assert(add_steps(Layout::Bluestore)[1] == AddStep::AllocateId);
    assert(add_steps(Layout::Filestore)[2] == AddStep::AllocateId);
}

/// A step that was carried out and failed ends the operation, with the
/// error that the step reported. What was done before it stays as it is:
/// nothing follows.
pub proof fn lemma_failure_ends(state: AddOsdView, error: OsdErrorView)
    requires
        !state.simulate,
    ensures
        after(state, OutcomeView::Failed(error)) == TransitionView::Abort(failure(state, error)),
        failure(state, error).error == error,
        failure(state, error).step == state.step(),
{
}

/// An operation that simulates asks for no step to be carried out for real:
/// not at its start, and not after any step, whatever is reported.
pub proof fn lemma_simulation_changes_nothing(state: AddOsdView, outcome: OutcomeView)
    requires
        state.well_formed(),
        state.simulate,
    ensures
        state.action().mode == Mode::Preview,
        after(state, outcome) matches TransitionView::Continue(next, action) ==> next.simulate
            && action.mode == Mode::Preview,
        !(after(state, outcome) is Abort),
{
}

/// Where the operation stands after the outcomes of several steps in a row;
/// outcomes after its end are not looked at.
pub open spec fn run(state: AddOsdView, outcomes: Seq<OutcomeView>) -> TransitionView
    decreases outcomes.len(),
{
    if outcomes.len() == 0 {
        TransitionView::Continue(state, state.action())
    } else {
        match after(state, outcomes[0]) {
            TransitionView::Continue(next, _) => run(next, outcomes.skip(1)),
            ended => ended,
        }
    }
}

/// An operation that simulates always succeeds. Whatever is reported of its
/// steps, once every step that is left has been previewed it ends with the
/// OSD added: on the disk, by the layout and with the instance identifier
/// it began with.
pub proof fn lemma_simulation_succeeds(state: AddOsdView, outcomes: Seq<OutcomeView>)
    requires
        state.well_formed(),
        state.simulate,
        outcomes.len() == add_steps(state.layout).len() - state.position,
    ensures
        run(state, outcomes) matches TransitionView::Complete(osd) && osd.device == state.device
            && osd.osd_fsid == state.osd_fsid && osd.layout == state.layout,
    decreases outcomes.len(),
{
    let first = outcomes[0];
    lemma_after_well_formed(state, first);
    match after(state, first) {
        TransitionView::Continue(next, _) => {
            lemma_simulation_succeeds(next, outcomes.skip(1));
        },
        TransitionView::Complete(_) => {},
        TransitionView::Abort(_) => {},
    }
}

/// A simulated add of a disk succeeds from its very start, for every disk,
/// every number asked for and either layout.
pub proof fn lemma_simulated_add_succeeds(
    layout: Layout,
    device: Seq<char>,
    requested_id: Option<u64>,
    osd_fsid: Uuid,
    group: Uuid,
    outcomes: Seq<OutcomeView>,
)
    requires
        outcomes.len() == add_steps(layout).len(),
    ensures
        run(initial(layout, device, requested_id, true, osd_fsid, group), outcomes)
            matches TransitionView::Complete(osd) && osd.device == device && osd.osd_fsid
            == osd_fsid && osd.layout == layout,
{
    lemma_simulation_succeeds(
        initial(layout, device, requested_id, true, osd_fsid, group),
        outcomes,
    );
}

} // verus!
