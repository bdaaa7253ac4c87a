//! The steps of pairing with a device before an operation is attempted again,
//! as a state machine: the caller performs each step against the runtime and
//! reports how it went; the machine names the next step or the outcome.
use vstd::prelude::*;
use crate::model::BleError;

verus! {

/// The steps of pairing, in the order they are performed.
#[derive(Clone, Copy, Debug, PartialEq, Eq, Structural)]
pub enum PairingStage {
    /// Look up the characteristic of a descriptor.
    Characteristic,
    /// Look up the service of a characteristic.
    Service,
    /// Look up the device of a service.
    Device,
    /// Look up the device's information.
    DeviceInformation,
    /// Look up the pairing part of the device's information.
    Pairing,
    /// Ask whether the device is paired.
    PairedState,
    /// Start pairing.
    PairRequest,
    /// Wait for pairing to complete.
    PairOperation,
    /// Read the status pairing completed with.
    PairStatus,
    /// Give the runtime `SETTLE_MILLIS` to settle the new encryption state.
    Settle,
    /// Nothing is left to do.
    Finished,
}

/// How a step went.
#[derive(Clone, Debug, PartialEq, Eq)]
pub enum PairingEvent {
    /// The step succeeded.
    Done,
    /// The step failed; the text describes the runtime's error.
    Failed(String),
    /// The answer to whether the device is paired.
    IsPaired(bool),
    /// The status that pairing completed with, and the runtime's text for it.
    Status { code: i32, text: String },
}

/// What to do next.
#[derive(Debug, PartialEq, Eq)]
pub enum PairingAction {
    /// Perform this step and report how it went.
    Perform(PairingStage),
    /// Wait this many milliseconds, then report the step done.
    Pause(u64),
    /// Pairing is over, with this outcome.
    Finish(Result<(), BleError>),
}

/// How long the runtime is given to settle the new encryption state after
/// pairing, in milliseconds.
pub const SETTLE_MILLIS: u64 = 500;

/// Pairing completed and the device is now paired.
pub const PAIRING_PAIRED: i32 = 0;

/// Pairing completed and the device was paired already.
pub const PAIRING_ALREADY_PAIRED: i32 = 3;

/// The position of a stage in the order of steps.
pub open spec fn stage_rank(stage: PairingStage) -> nat {
    match stage {
        PairingStage::Characteristic => 0,
        PairingStage::Service => 1,
        PairingStage::Device => 2,
        PairingStage::DeviceInformation => 3,
        PairingStage::Pairing => 4,
        PairingStage::PairedState => 5,
        PairingStage::PairRequest => 6,
        PairingStage::PairOperation => 7,
        PairingStage::PairStatus => 8,
        PairingStage::Settle => 9,
        PairingStage::Finished => 10,
    }
}

/// The step after a successful one.
pub open spec fn next_stage(stage: PairingStage) -> PairingStage {
    match stage {
        PairingStage::Characteristic => PairingStage::Service,
        PairingStage::Service => PairingStage::Device,
        PairingStage::Device => PairingStage::DeviceInformation,
        PairingStage::DeviceInformation => PairingStage::Pairing,
        PairingStage::Pairing => PairingStage::PairedState,
        PairingStage::PairedState => PairingStage::PairRequest,
        PairingStage::PairRequest => PairingStage::PairOperation,
        PairingStage::PairOperation => PairingStage::PairStatus,
        PairingStage::PairStatus => PairingStage::Settle,
        PairingStage::Settle => PairingStage::Finished,
        PairingStage::Finished => PairingStage::Finished,
    }
}

/// The start of the message when a step fails.
pub open spec fn step_failure_prefix(stage: PairingStage) -> Seq<char> {
    match stage {
        PairingStage::Characteristic => "Failed to get Characteristic: "@,
        PairingStage::Service => "Failed to get Service: "@,
        PairingStage::Device => "Failed to get Device: "@,
        PairingStage::DeviceInformation => "Failed to get DeviceInformation: "@,
        PairingStage::Pairing => "Failed to get DeviceInformationPairing: "@,
        PairingStage::PairRequest => "PairAsync call failed: "@,
        PairingStage::PairOperation => "PairAsync operation failed: "@,
        PairingStage::PairStatus => "Failed to get PairingStatus: "@,
        _ => seq![],
    }
}

/// The events that a step can report.
pub open spec fn event_fits(stage: PairingStage, event: PairingEvent) -> bool {
    match stage {
        PairingStage::PairedState => event is IsPaired || event is Failed,
        PairingStage::PairStatus => event is Status || event is Failed,
        PairingStage::Settle => event is Done,
        PairingStage::Finished => false,
        _ => event is Done || event is Failed,
    }
}

/// Whether a pairing status stands for a paired device.
pub open spec fn pairing_accepted(code: i32) -> bool {
    code == PAIRING_PAIRED || code == PAIRING_ALREADY_PAIRED
}

/// The next stage and action after `event` at `stage`.
pub open spec fn pairing_transition(
    stage: PairingStage,
    event: PairingEvent,
    next: PairingStage,
    action: PairingAction,
) -> bool {
    match event {
        PairingEvent::Done => if next_stage(stage) == PairingStage::Finished {
            next == PairingStage::Finished && action == PairingAction::Finish(Ok(()))
        } else {
            next == next_stage(stage) && action == PairingAction::Perform(next_stage(stage))
        },
        PairingEvent::Failed(text) => if stage == PairingStage::PairedState {
            next == PairingStage::PairRequest && action == PairingAction::Perform(
                PairingStage::PairRequest,
            )
        } else {
            &&& next == PairingStage::Finished
            &&& action matches PairingAction::Finish(Err(BleError::Other(m)))
            &&& m@ == step_failure_prefix(stage) + text@
        },
        PairingEvent::IsPaired(paired) => if paired {
            next == PairingStage::Finished && action == PairingAction::Finish(Ok(()))
        } else {
            next == PairingStage::PairRequest && action == PairingAction::Perform(
                PairingStage::PairRequest,
            )
        },
        PairingEvent::Status { code, text } => if pairing_accepted(code) {
            next == PairingStage::Settle && action == PairingAction::Pause(SETTLE_MILLIS)
        } else {
            &&& next == PairingStage::Finished
            &&& action matches PairingAction::Finish(Err(BleError::Other(m)))
            &&& m@ == "Pairing failed: "@ + text@
        },
    }
}

/// The progress of one pairing.
pub struct PairingFlow {
    stage: PairingStage,
}

impl View for PairingFlow {
    /// The step to perform next.
    type V = PairingStage;

    closed spec fn view(&self) -> PairingStage {
        self.stage
    }
}

/// Builds the error for a step that failed.
fn step_failure(stage: PairingStage, text: &str) -> (r: BleError)
    requires
        stage != PairingStage::PairedState,
        stage != PairingStage::Settle,
        stage != PairingStage::Finished,
    ensures
        r matches BleError::Other(m) && m@ == step_failure_prefix(stage) + text@,
{
    let mut message = match stage {
        PairingStage::Characteristic => "Failed to get Characteristic: ".to_string(),
        PairingStage::Service => "Failed to get Service: ".to_string(),
        PairingStage::Device => "Failed to get Device: ".to_string(),
        PairingStage::DeviceInformation => "Failed to get DeviceInformation: ".to_string(),
        PairingStage::Pairing => "Failed to get DeviceInformationPairing: ".to_string(),
        PairingStage::PairRequest => "PairAsync call failed: ".to_string(),
        PairingStage::PairOperation => "PairAsync operation failed: ".to_string(),
        _ => "Failed to get PairingStatus: ".to_string(),
    };
    message.append(text);
    BleError::Other(message)
}

/// Whether a step can report this event: what `PairingFlow::advance` takes.
pub fn event_fits_stage(stage: PairingStage, event: &PairingEvent) -> (r: bool)
    ensures
        r == event_fits(stage, *event),
{
    match stage {
        PairingStage::PairedState => match event {
            PairingEvent::IsPaired(_) | PairingEvent::Failed(_) => true,
            _ => false,
        },
        PairingStage::PairStatus => match event {
            PairingEvent::Status { .. } | PairingEvent::Failed(_) => true,
            _ => false,
        },
        PairingStage::Settle => match event {
            PairingEvent::Done => true,
            _ => false,
        },
        PairingStage::Finished => false,
        _ => match event {
            PairingEvent::Done | PairingEvent::Failed(_) => true,
            _ => false,
        },
    }
}

impl PairingFlow {
    /// Pairing that starts from a descriptor: its characteristic, then that
    /// characteristic's service and device.
    pub fn from_descriptor() -> (r: PairingFlow)
        ensures
            r@ == PairingStage::Characteristic,
    {
        PairingFlow { stage: PairingStage::Characteristic }
    }

    /// Pairing that starts from a characteristic: its service, then the device.
    pub fn from_characteristic() -> (r: PairingFlow)
        ensures
            r@ == PairingStage::Service,
    {
        PairingFlow { stage: PairingStage::Service }
    }

    /// Pairing with a device.
    pub fn for_device() -> (r: PairingFlow)
        ensures
            r@ == PairingStage::DeviceInformation,
    {
        PairingFlow { stage: PairingStage::DeviceInformation }
    }

    /// The step to perform next.
    pub fn stage(&self) -> (r: PairingStage)
        ensures
            r == self@,
    {
        self.stage
    }

    /// Takes in how the current step went and says what to do next.
    pub fn advance(&mut self, event: PairingEvent) -> (action: PairingAction)
        requires
            event_fits(old(self)@, event),
        ensures
            pairing_transition(old(self)@, event, final(self)@, action),
    {
        let stage = self.stage;
        match event {
            PairingEvent::Done => {
                let next = match stage {
                    PairingStage::Characteristic => PairingStage::Service,
                    PairingStage::Service => PairingStage::Device,
                    PairingStage::Device => PairingStage::DeviceInformation,
                    PairingStage::DeviceInformation => PairingStage::Pairing,
                    PairingStage::Pairing => PairingStage::PairedState,
                    PairingStage::PairedState => PairingStage::PairRequest,
                    PairingStage::PairRequest => PairingStage::PairOperation,
                    PairingStage::PairOperation => PairingStage::PairStatus,
                    PairingStage::PairStatus => PairingStage::Settle,
                    PairingStage::Settle => PairingStage::Finished,
                    PairingStage::Finished => PairingStage::Finished,
                };
                self.stage = next;
                if next == PairingStage::Finished {
                    PairingAction::Finish(Ok(()))
                } else {
                    PairingAction::Perform(next)
                }
            },
            PairingEvent::Failed(text) => {
                if stage == PairingStage::PairedState {
                    self.stage = PairingStage::PairRequest;
                    PairingAction::Perform(PairingStage::PairRequest)
                } else {
                    self.stage = PairingStage::Finished;
                    PairingAction::Finish(Err(step_failure(stage, text.as_str())))
                }
            },
            PairingEvent::IsPaired(paired) => {
                if paired {
                    self.stage = PairingStage::Finished;
                    PairingAction::Finish(Ok(()))
                } else {
                    self.stage = PairingStage::PairRequest;
                    PairingAction::Perform(PairingStage::PairRequest)
                }
            },
            PairingEvent::Status { code, text } => {
                if code == PAIRING_PAIRED || code == PAIRING_ALREADY_PAIRED {
                    self.stage = PairingStage::Settle;
                    PairingAction::Pause(SETTLE_MILLIS)
                } else {
                    self.stage = PairingStage::Finished;
                    let mut message = "Pairing failed: ".to_string();
                    message.append(text.as_str());
                    PairingAction::Finish(Err(BleError::Other(message)))
                }
            },
        }
    }
}

/// Every step moves pairing forward, so it ends after at most ten steps; and
/// it ends exactly when the machine gives an outcome.
pub proof fn law_pairing_progresses(
    stage: PairingStage,
    event: PairingEvent,
    next: PairingStage,
    action: PairingAction,
)
    requires
        event_fits(stage, event),
        pairing_transition(stage, event, next, action),
    ensures
        stage_rank(next) > stage_rank(stage),
        stage_rank(next) <= 10,
        action is Finish <==> next == PairingStage::Finished,
{
}

/// Pairing is started only when the device did not say that it is paired.
pub proof fn law_pairs_only_unpaired_devices(
    stage: PairingStage,
    event: PairingEvent,
    next: PairingStage,
    action: PairingAction,
)
    requires
        event_fits(stage, event),
        pairing_transition(stage, event, next, action),
        next == PairingStage::PairRequest,
    ensures
        stage == PairingStage::PairedState,
        event == PairingEvent::IsPaired(false) || event is Failed,
{
}

/// Pairing succeeds only for a device that says it is paired, or after the
/// runtime completed pairing as paired or already paired and was then given
/// `SETTLE_MILLIS` to settle.
pub proof fn law_success_only_when_paired(
    stage: PairingStage,
    event: PairingEvent,
    next: PairingStage,
    action: PairingAction,
)
    requires
        event_fits(stage, event),
        pairing_transition(stage, event, next, action),
    ensures
        action == PairingAction::Finish(Ok(())) ==> (stage == PairingStage::PairedState && event
            == PairingEvent::IsPaired(true)) || stage == PairingStage::Settle,
        next == PairingStage::Settle ==> stage == PairingStage::PairStatus && (
        event matches PairingEvent::Status { code, .. } && pairing_accepted(code)) && action
            == PairingAction::Pause(SETTLE_MILLIS),
{
}

/// The status that pairing completed with decides it: Paired (0) and
/// AlreadyPaired (3) both lead to the settling pause and then success; any
/// other status ends pairing with an error that carries the status's text.
pub proof fn law_pairing_status(code: i32, text: String, next: PairingStage, action: PairingAction)
    requires
        pairing_transition(
            PairingStage::PairStatus,
            PairingEvent::Status { code, text },
            next,
            action,
        ),
    ensures
        code == 0 || code == 3 ==> next == PairingStage::Settle && action == PairingAction::Pause(
            500,
        ),
        code != 0 && code != 3 ==> next == PairingStage::Finished && (action matches PairingAction::Finish(
            Err(BleError::Other(m)),
        ) && m@ == "Pairing failed: "@ + text@),
{
}

} // verus!
