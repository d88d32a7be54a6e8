//! Requests to the operation-mode service and the updates its clients follow.
use crate::operations::common::{OperationMode, OperationsUpdate, lowercase_of, spec_mode_of_name};
use crate::operations::machine::{
    Effect, ModeOutput, OperationsEvents, OperationsStates, TimedEvent, spec_next_state,
};
use crate::time::MilliDuration;
use vstd::prelude::*;
use vstd::string::*;

verus! {

/// Why a mode request was refused.
#[derive(Clone, Copy, Debug, PartialEq, Eq, Structural)]
pub enum SetModeError {
    /// The request names no mode that can be asked for.
    InvalidMode,
}

/// Whether `e` is the event that asks for mode `m`: a stop with reason
/// "manual" for `Stopped` and `Stopping`, a start for `Starting` and
/// `Running`, and the matching request for the others.
pub open spec fn spec_is_request_for(e: OperationsEvents, m: OperationMode) -> bool {
    match m {
        OperationMode::Stopped | OperationMode::Stopping => e matches OperationsEvents::SetStopped(
            r,
        ) && r@ == "manual"@,
        OperationMode::Starting | OperationMode::Running => e is SetStarting,
        OperationMode::Cleaning => e is SetCleaning,
        OperationMode::Emergency => e is SetEmergency,
        OperationMode::Fault => e is SetFault,
        OperationMode::Maintenance => e is SetMaintenance,
        OperationMode::Unknown => false,
    }
}

/// The event that asks the machine for `mode`; `Unknown` cannot be asked for.
pub fn event_for_mode(mode: OperationMode) -> (r: Result<OperationsEvents, SetModeError>)
    ensures
        mode == OperationMode::Unknown ==> r == Err::<OperationsEvents, SetModeError>(
            SetModeError::InvalidMode,
        ),
        mode != OperationMode::Unknown ==> (r matches Ok(e) && spec_is_request_for(e, mode)),
{
    match mode {
        OperationMode::Unknown => Err(SetModeError::InvalidMode),
        OperationMode::Stopped | OperationMode::Stopping => Ok(
            OperationsEvents::SetStopped(String::from_str("manual")),
        ),
        OperationMode::Starting | OperationMode::Running => Ok(OperationsEvents::SetStarting),
        OperationMode::Cleaning => Ok(OperationsEvents::SetCleaning),
        OperationMode::Emergency => Ok(OperationsEvents::SetEmergency),
        OperationMode::Fault => Ok(OperationsEvents::SetFault),
        OperationMode::Maintenance => Ok(OperationsEvents::SetMaintenance),
    }
}

/// The event for a mode request given by name (case is ignored); a name that
/// is no mode counts as `Unknown` and is refused.
pub fn set_mode_request(mode_str: &str) -> (r: Result<OperationsEvents, SetModeError>)
    ensures
        match spec_mode_of_name(lowercase_of(mode_str@)) {
            Some(m) if m != OperationMode::Unknown => r matches Ok(e) && spec_is_request_for(e, m),
            _ => r == Err::<OperationsEvents, SetModeError>(SetModeError::InvalidMode),
        },
{
    let mode = match OperationMode::from_str(mode_str) {
        Ok(m) => m,
        Err(()) => OperationMode::Unknown,
    };
    event_for_mode(mode)
}

/// The event for a stop request with the reason given.
pub fn stop_with_reason(reason: &str) -> (e: OperationsEvents)
    ensures
        e matches OperationsEvents::SetStopped(r) && r@ == reason@,
{
    OperationsEvents::SetStopped(String::from_str(reason))
}

/// Whether a client passes an update on: not when the mode did not change,
/// nor when the new mode is `Unknown`.
pub fn accept_update(update: &OperationsUpdate) -> (r: bool)
    ensures
        r == (update.new_mode != update.old_mode && update.new_mode != OperationMode::Unknown),
{
    !(update.new_mode == update.old_mode || update.new_mode == OperationMode::Unknown)
}

/// Whether an update enters `mode`.
pub fn enters_mode(update: &OperationsUpdate, mode: OperationMode) -> (r: bool)
    ensures
        r == (update.new_mode == mode),
{
    update.new_mode == mode
}

/// Whether an update leaves `mode`.
pub fn exits_mode(update: &OperationsUpdate, mode: OperationMode) -> (r: bool)
    ensures
        r == (update.old_mode == mode),
{
    update.old_mode == mode
}

/// The delays of the timed phases.
pub struct Storage {
    /// Time to run the starting sequence; no delay when absent.
    pub startup_time: Option<MilliDuration>,
    /// Time to run the stopping sequence; no delay when absent.
    pub stopping_time: Option<MilliDuration>,
}

impl Storage {
    /// Both delays zero.
    pub fn default() -> (s: Storage)
        ensures
            s.startup_time matches Some(d) && d.spec_total_nanos() == 0,
            s.stopping_time matches Some(d) && d.spec_total_nanos() == 0,
    {
        Storage {
            startup_time: Some(MilliDuration::new(0, 0)),
            stopping_time: Some(MilliDuration::new(0, 0)),
        }
    }
}

/// The delay after which a timed event is sent, or `None` to send it at once.
pub fn timeout_delay(storage: &Storage, event: TimedEvent) -> (r: Option<MilliDuration>)
    ensures
        match event {
            TimedEvent::StartingTimeout => match (storage.startup_time, r) {
                (Some(d), Some(e)) => e.spec_total_nanos() == d.spec_total_nanos(),
                (None, None) => true,
                _ => false,
            },
            TimedEvent::StoppingTimeout => match (storage.stopping_time, r) {
                (Some(d), Some(e)) => e.spec_total_nanos() == d.spec_total_nanos(),
                (None, None) => true,
                _ => false,
            },
        },
{
    let d = match event {
        TimedEvent::StartingTimeout => &storage.startup_time,
        TimedEvent::StoppingTimeout => &storage.stopping_time,
    };
    match d {
        Some(x) => Some(MilliDuration::new(x.as_secs(), x.subsec_nanos())),
        None => None,
    }
}

/// The boolean inputs of the machine, each a slot.
#[derive(Clone, Copy, Debug, PartialEq, Eq, Structural)]
pub enum OperationsInput {
    StartingFinished,
    StoppingFinished,
    RunButton,
    CleaningButton,
    MaintenanceButton,
    Emergency,
    Fault,
}

/// The event that a new value of an input sends: a finished input or a
/// button sends its event when it reads true and nothing when it reads false;
/// the emergency and fault inputs send their on event when true and their off
/// event when false.
pub open spec fn spec_input_event(input: OperationsInput, value: bool) -> Option<OperationsEvents> {
    match input {
        OperationsInput::StartingFinished => if value {
            Some(OperationsEvents::StartingFinished)
        } else {
            None
        },
        OperationsInput::StoppingFinished => if value {
            Some(OperationsEvents::StoppingFinished)
        } else {
            None
        },
        OperationsInput::RunButton => if value {
            Some(OperationsEvents::RunButton)
        } else {
            None
        },
        OperationsInput::CleaningButton => if value {
            Some(OperationsEvents::CleaningButton)
        } else {
            None
        },
        OperationsInput::MaintenanceButton => if value {
            Some(OperationsEvents::MaintenanceButton)
        } else {
            None
        },
        OperationsInput::Emergency => if value {
            Some(OperationsEvents::EmergencyOn)
        } else {
            Some(OperationsEvents::EmergencyOff)
        },
        OperationsInput::Fault => if value {
            Some(OperationsEvents::FaultOn)
        } else {
            Some(OperationsEvents::FaultOff)
        },
    }
}

/// The event that the value `value` of `input` sends, if any.
pub fn input_event(input: OperationsInput, value: bool) -> (r: Option<OperationsEvents>)
    ensures
        r == spec_input_event(input, value),
{
    match input {
        OperationsInput::StartingFinished => if value {
            Some(OperationsEvents::StartingFinished)
        } else {
            None
        },
        OperationsInput::StoppingFinished => if value {
            Some(OperationsEvents::StoppingFinished)
        } else {
            None
        },
        OperationsInput::RunButton => if value {
            Some(OperationsEvents::RunButton)
        } else {
            None
        },
        OperationsInput::CleaningButton => if value {
            Some(OperationsEvents::CleaningButton)
        } else {
            None
        },
        OperationsInput::MaintenanceButton => if value {
            Some(OperationsEvents::MaintenanceButton)
        } else {
            None
        },
        OperationsInput::Emergency => if value {
            Some(OperationsEvents::EmergencyOn)
        } else {
            Some(OperationsEvents::EmergencyOff)
        },
        OperationsInput::Fault => if value {
            Some(OperationsEvents::FaultOn)
        } else {
            Some(OperationsEvents::FaultOff)
        },
    }
}

/// An emergency input that reads true sends the machine to `Emergency`
/// whatever its state.
pub proof fn lemma_emergency_input_preempts(s: OperationsStates, is_fault: bool)
    ensures
        spec_input_event(OperationsInput::Emergency, true) matches Some(e) && spec_next_state(
            s,
            e,
            is_fault,
        ) == Some(OperationsStates::Emergency),
{
}

/// What each input drives: a finished input or a button sends nothing when it
/// reads false; read true, `StartingFinished` takes `Starting` to `Running`,
/// `StoppingFinished` takes `Stopping` to `Stopped`, the run button starts a
/// stopped machine and stops a running one, the cleaning and maintenance
/// buttons enter and leave their modes from and to `Stopped`. The fault input
/// read true faults a stopped or running machine and read false clears a
/// fault; the emergency input read false ends an emergency, in `Fault` when
/// the fault input is set and in `Stopped` otherwise.
pub proof fn lemma_inputs_drive_machine(is_fault: bool)
    ensures
        spec_input_event(OperationsInput::StartingFinished, false) is None,
        spec_input_event(OperationsInput::StoppingFinished, false) is None,
        spec_input_event(OperationsInput::RunButton, false) is None,
        spec_input_event(OperationsInput::CleaningButton, false) is None,
        spec_input_event(OperationsInput::MaintenanceButton, false) is None,
        spec_input_event(OperationsInput::StartingFinished, true) matches Some(e) && spec_next_state(
            OperationsStates::Starting,
            e,
            is_fault,
        ) == Some(OperationsStates::Running),
        spec_input_event(OperationsInput::StoppingFinished, true) matches Some(e) && spec_next_state(
            OperationsStates::Stopping,
            e,
            is_fault,
        ) == Some(OperationsStates::Stopped),
        spec_input_event(OperationsInput::RunButton, true) matches Some(e) && spec_next_state(
            OperationsStates::Stopped,
            e,
            is_fault,
        ) == Some(OperationsStates::Starting) && spec_next_state(
            OperationsStates::Running,
            e,
            is_fault,
        ) == Some(OperationsStates::Stopping),
        spec_input_event(OperationsInput::CleaningButton, true) matches Some(e) && spec_next_state(
            OperationsStates::Stopped,
            e,
            is_fault,
        ) == Some(OperationsStates::Cleaning) && spec_next_state(
            OperationsStates::Cleaning,
            e,
            is_fault,
        ) == Some(OperationsStates::Stopped),
        spec_input_event(OperationsInput::MaintenanceButton, true) matches Some(e)
            && spec_next_state(OperationsStates::Stopped, e, is_fault) == Some(
            OperationsStates::Maintenance,
        ) && spec_next_state(OperationsStates::Maintenance, e, is_fault) == Some(
            OperationsStates::Stopped,
        ),
        spec_input_event(OperationsInput::Fault, true) matches Some(e) && spec_next_state(
            OperationsStates::Stopped,
            e,
            is_fault,
        ) == Some(OperationsStates::Fault) && spec_next_state(
            OperationsStates::Running,
            e,
            is_fault,
        ) == Some(OperationsStates::Fault),
        spec_input_event(OperationsInput::Fault, false) matches Some(e) && spec_next_state(
            OperationsStates::Fault,
            e,
            is_fault,
        ) == Some(OperationsStates::Stopped),
        spec_input_event(OperationsInput::Emergency, false) matches Some(e) && spec_next_state(
            OperationsStates::Emergency,
            e,
            is_fault,
        ) == Some(
            if is_fault {
                OperationsStates::Fault
            } else {
                OperationsStates::Stopped
            },
        ),
{
}

/// A mode request made while stopped takes the machine to that mode:
/// `Starting` (also when `Running` is asked for), `Cleaning`, `Maintenance`,
/// `Fault` and `Emergency`; a stop request takes a running machine to
/// `Stopping` and a starting one back to `Stopped`.
pub proof fn lemma_requests_reach_their_mode(e: OperationsEvents, m: OperationMode, is_fault: bool)
    requires
        spec_is_request_for(e, m),
    ensures
        m == OperationMode::Starting || m == OperationMode::Running ==> spec_next_state(
            OperationsStates::Stopped,
            e,
            is_fault,
        ) == Some(OperationsStates::Starting),
        m == OperationMode::Cleaning ==> spec_next_state(OperationsStates::Stopped, e, is_fault)
            == Some(OperationsStates::Cleaning),
        m == OperationMode::Maintenance ==> spec_next_state(OperationsStates::Stopped, e, is_fault)
            == Some(OperationsStates::Maintenance),
        m == OperationMode::Fault ==> spec_next_state(OperationsStates::Stopped, e, is_fault)
            == Some(OperationsStates::Fault),
        m == OperationMode::Emergency ==> spec_next_state(OperationsStates::Stopped, e, is_fault)
            == Some(OperationsStates::Emergency),
        m == OperationMode::Stopped || m == OperationMode::Stopping ==> spec_next_state(
            OperationsStates::Running,
            e,
            is_fault,
        ) == Some(OperationsStates::Stopping) && spec_next_state(
            OperationsStates::Starting,
            e,
            is_fault,
        ) == Some(OperationsStates::Stopped),
{
}

/// What the service shows before its first event, in order: every mode
/// output false (starting, stopping, cleaning, emergency, fault, maintenance,
/// running, stopped), the mode `Unknown`, and an empty stop reason.
pub open spec fn spec_startup_effects() -> Seq<Effect> {
    seq![
        Effect::SetOutput(ModeOutput::Starting, false),
        Effect::SetOutput(ModeOutput::Stopping, false),
        Effect::SetOutput(ModeOutput::Cleaning, false),
        Effect::SetOutput(ModeOutput::Emergency, false),
        Effect::SetOutput(ModeOutput::Fault, false),
        Effect::SetOutput(ModeOutput::Maintenance, false),
        Effect::SetOutput(ModeOutput::Running, false),
        Effect::SetOutput(ModeOutput::Stopped, false),
        Effect::ShowMode(OperationMode::Unknown),
        Effect::ClearStopReason,
    ]
}

/// How the service starts: what it shows, and the event it then sends to
/// its own machine.
pub struct Startup {
    pub effects: Vec<Effect>,
    pub first_event: OperationsEvents,
}

/// The start of the service: the outputs of `spec_startup_effects`, then a
/// stop with the reason "init", which takes the new machine to `Stopped`.
pub fn startup() -> (s: Startup)
    ensures
        s.effects@ == spec_startup_effects(),
        s.first_event matches OperationsEvents::SetStopped(r) && r@ == "init"@,
        spec_next_state(OperationsStates::Init, s.first_event, false) == Some(OperationsStates::Stopped),
{
    let mut effects: Vec<Effect> = Vec::new();
    effects.push(Effect::SetOutput(ModeOutput::Starting, false));
    effects.push(Effect::SetOutput(ModeOutput::Stopping, false));
    effects.push(Effect::SetOutput(ModeOutput::Cleaning, false));
    effects.push(Effect::SetOutput(ModeOutput::Emergency, false));
    effects.push(Effect::SetOutput(ModeOutput::Fault, false));
    effects.push(Effect::SetOutput(ModeOutput::Maintenance, false));
    effects.push(Effect::SetOutput(ModeOutput::Running, false));
    effects.push(Effect::SetOutput(ModeOutput::Stopped, false));
    effects.push(Effect::ShowMode(OperationMode::Unknown));
    effects.push(Effect::ClearStopReason);
    proof {
        assert(effects@ =~= spec_startup_effects());
    }
    Startup { effects, first_event: OperationsEvents::SetStopped(String::from_str("init")) }
}

} // verus!
