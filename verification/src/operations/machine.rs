//! The operation-mode state machine.
//!
//! ```text
//! Init      + SetStopped(reason)          = Stopped
//! Stopped   + SetStarting | RunButton     = Starting
//! Starting  + StartingTimeout | StartingFinished = Running
//! Starting  + RunButton | SetStopped      = Stopped
//! Running   + RunButton | SetStopped      = Stopping
//! Stopping  + StoppingTimeout | StoppingFinished = Stopped
//! Stopped   + CleaningButton | SetCleaning = Cleaning
//! Cleaning  + CleaningButton | SetStopped = Stopped
//! any       + SetEmergency | EmergencyOn  = Emergency
//! Emergency + EmergencyOff [no fault]     = Stopped
//! Emergency + EmergencyOff [fault]        = Fault
//! Stopped   + FaultOn | SetFault          = Fault
//! Running   + FaultOn | SetFault          = Fault
//! Fault     + FaultOff                    = Stopped
//! Stopped   + MaintenanceButton | SetMaintenance = Maintenance
//! Maintenance + MaintenanceButton | SetStopped = Stopped
//! ```
use crate::operations::common::{OperationMode, OperationsUpdate};
use vstd::prelude::*;
use vstd::string::*;

verus! {

/// The states of the machine.
#[derive(Clone, Copy, Debug, PartialEq, Eq, Structural)]
pub enum OperationsStates {
    Init,
    Stopped,
    Starting,
    Running,
    Stopping,
    Cleaning,
    Emergency,
    Fault,
    Maintenance,
}

/// The events that drive the machine.
#[derive(Clone, Debug)]
pub enum OperationsEvents {
    /// Stop, with the reason given.
    SetStopped(String),
    SetStarting,
    RunButton,
    StartingTimeout,
    StartingFinished,
    StoppingTimeout,
    StoppingFinished,
    CleaningButton,
    SetCleaning,
    SetEmergency,
    EmergencyOn,
    EmergencyOff,
    FaultOn,
    SetFault,
    FaultOff,
    MaintenanceButton,
    SetMaintenance,
}

/// Why an event was refused.
#[derive(Clone, Copy, Debug, PartialEq, Eq, Structural)]
pub enum OperationsError {
    /// The current state has no transition for the event.
    InvalidEvent,
}

/// The boolean outputs that tell whether the machine is in a given mode.
#[derive(Clone, Copy, Debug, PartialEq, Eq, Structural)]
pub enum ModeOutput {
    Stopped,
    Starting,
    Running,
    Stopping,
    Cleaning,
    Emergency,
    Fault,
    Maintenance,
}

/// The events that fire after a configured delay.
#[derive(Clone, Copy, Debug, PartialEq, Eq, Structural)]
pub enum TimedEvent {
    StartingTimeout,
    StoppingTimeout,
}

/// What a transition asks of its surroundings.
#[derive(Clone, Copy, Debug, PartialEq, Eq, Structural)]
pub enum Effect {
    /// Write the given value to the output of a mode.
    SetOutput(ModeOutput, bool),
    /// Clear the published stop reason.
    ClearStopReason,
    /// Send the timed event after its configured delay, or at once when no delay is configured.
    ScheduleTimeout(TimedEvent),
    /// Cancel a pending timed event.
    CancelTimeout(TimedEvent),
    /// Publish the new mode (as a number and as a name) and the change of mode.
    PublishMode(OperationsUpdate),
    /// Show a mode (as a number and as a name) without announcing a change.
    ShowMode(OperationMode),
}

/// The operation mode shown for a state.
pub open spec fn spec_mode_of(s: OperationsStates) -> OperationMode {
    match s {
        OperationsStates::Init => OperationMode::Unknown,
        OperationsStates::Stopped => OperationMode::Stopped,
        OperationsStates::Starting => OperationMode::Starting,
        OperationsStates::Running => OperationMode::Running,
        OperationsStates::Stopping => OperationMode::Stopping,
        OperationsStates::Cleaning => OperationMode::Cleaning,
        OperationsStates::Emergency => OperationMode::Emergency,
        OperationsStates::Fault => OperationMode::Fault,
        OperationsStates::Maintenance => OperationMode::Maintenance,
    }
}

/// The operation mode shown for a state (`Unknown` for `Init`).
pub fn mode_of(s: &OperationsStates) -> (m: OperationMode)
    ensures
        m == spec_mode_of(*s),
{
    match s {
        OperationsStates::Init => OperationMode::Unknown,
        OperationsStates::Stopped => OperationMode::Stopped,
        OperationsStates::Starting => OperationMode::Starting,
        OperationsStates::Running => OperationMode::Running,
        OperationsStates::Stopping => OperationMode::Stopping,
        OperationsStates::Cleaning => OperationMode::Cleaning,
        OperationsStates::Emergency => OperationMode::Emergency,
        OperationsStates::Fault => OperationMode::Fault,
        OperationsStates::Maintenance => OperationMode::Maintenance,
    }
}

/// The state the machine moves to from `s` on `e`, where `is_fault` is the
/// fault input; `None` when `s` has no transition for `e`.
pub open spec fn spec_next_state(s: OperationsStates, e: OperationsEvents, is_fault: bool) -> Option<
    OperationsStates,
> {
    match e {
        OperationsEvents::SetEmergency | OperationsEvents::EmergencyOn => Some(
            OperationsStates::Emergency,
        ),
        OperationsEvents::SetStopped(_) => match s {
            OperationsStates::Init => Some(OperationsStates::Stopped),
            OperationsStates::Starting => Some(OperationsStates::Stopped),
            OperationsStates::Running => Some(OperationsStates::Stopping),
            OperationsStates::Cleaning => Some(OperationsStates::Stopped),
            OperationsStates::Maintenance => Some(OperationsStates::Stopped),
            _ => None,
        },
        OperationsEvents::SetStarting => match s {
            OperationsStates::Stopped => Some(OperationsStates::Starting),
            _ => None,
        },
        OperationsEvents::RunButton => match s {
            OperationsStates::Stopped => Some(OperationsStates::Starting),
            OperationsStates::Starting => Some(OperationsStates::Stopped),
            OperationsStates::Running => Some(OperationsStates::Stopping),
            _ => None,
        },
        OperationsEvents::StartingTimeout | OperationsEvents::StartingFinished => match s {
            OperationsStates::Starting => Some(OperationsStates::Running),
            _ => None,
        },
        OperationsEvents::StoppingTimeout | OperationsEvents::StoppingFinished => match s {
            OperationsStates::Stopping => Some(OperationsStates::Stopped),
            _ => None,
        },
        OperationsEvents::CleaningButton => match s {
            OperationsStates::Stopped => Some(OperationsStates::Cleaning),
            OperationsStates::Cleaning => Some(OperationsStates::Stopped),
            _ => None,
        },
        OperationsEvents::SetCleaning => match s {
            OperationsStates::Stopped => Some(OperationsStates::Cleaning),
            _ => None,
        },
        OperationsEvents::EmergencyOff => match s {
            OperationsStates::Emergency => if is_fault {
                Some(OperationsStates::Fault)
            } else {
                Some(OperationsStates::Stopped)
            },
            _ => None,
        },
        OperationsEvents::FaultOn | OperationsEvents::SetFault => match s {
            OperationsStates::Stopped => Some(OperationsStates::Fault),
            OperationsStates::Running => Some(OperationsStates::Fault),
            _ => None,
        },
        OperationsEvents::FaultOff => match s {
            OperationsStates::Fault => Some(OperationsStates::Stopped),
            _ => None,
        },
        OperationsEvents::MaintenanceButton => match s {
            OperationsStates::Stopped => Some(OperationsStates::Maintenance),
            OperationsStates::Maintenance => Some(OperationsStates::Stopped),
            _ => None,
        },
        OperationsEvents::SetMaintenance => match s {
            OperationsStates::Stopped => Some(OperationsStates::Maintenance),
            _ => None,
        },
    }
}

/// What leaving a state asks for.
pub open spec fn spec_exit_effects(s: OperationsStates) -> Seq<Effect> {
    match s {
        OperationsStates::Init => seq![],
        OperationsStates::Stopped => seq![
            Effect::SetOutput(ModeOutput::Stopped, false),
            Effect::ClearStopReason,
        ],
        OperationsStates::Starting => seq![
            Effect::CancelTimeout(TimedEvent::StartingTimeout),
            Effect::SetOutput(ModeOutput::Starting, false),
        ],
        OperationsStates::Running => seq![Effect::SetOutput(ModeOutput::Running, false)],
        OperationsStates::Stopping => seq![
            Effect::CancelTimeout(TimedEvent::StoppingTimeout),
            Effect::SetOutput(ModeOutput::Stopping, false),
        ],
        OperationsStates::Cleaning => seq![Effect::SetOutput(ModeOutput::Cleaning, false)],
        OperationsStates::Emergency => seq![Effect::SetOutput(ModeOutput::Emergency, false)],
        OperationsStates::Fault => seq![Effect::SetOutput(ModeOutput::Fault, false)],
        OperationsStates::Maintenance => seq![Effect::SetOutput(ModeOutput::Maintenance, false)],
    }
}

/// What entering a state asks for.
pub open spec fn spec_entry_effects(s: OperationsStates) -> Seq<Effect> {
    match s {
        OperationsStates::Init => seq![],
        OperationsStates::Stopped => seq![Effect::SetOutput(ModeOutput::Stopped, true)],
        OperationsStates::Starting => seq![
            Effect::SetOutput(ModeOutput::Starting, true),
            Effect::ScheduleTimeout(TimedEvent::StartingTimeout),
        ],
        OperationsStates::Running => seq![Effect::SetOutput(ModeOutput::Running, true)],
        OperationsStates::Stopping => seq![
            Effect::SetOutput(ModeOutput::Stopping, true),
            Effect::ScheduleTimeout(TimedEvent::StoppingTimeout),
        ],
        OperationsStates::Cleaning => seq![Effect::SetOutput(ModeOutput::Cleaning, true)],
        OperationsStates::Emergency => seq![Effect::SetOutput(ModeOutput::Emergency, true)],
        OperationsStates::Fault => seq![Effect::SetOutput(ModeOutput::Fault, true)],
        OperationsStates::Maintenance => seq![Effect::SetOutput(ModeOutput::Maintenance, true)],
    }
}

/// What a transition from `from` to `to` asks for: leave `from`, publish the
/// change of mode, enter `to`. An event that keeps the machine in its state
/// asks for nothing.
pub open spec fn spec_transition_effects(from: OperationsStates, to: OperationsStates) -> Seq<
    Effect,
> {
    if from == to {
        seq![]
    } else {
        spec_exit_effects(from) + seq![
            Effect::PublishMode(OperationsUpdate { old_mode: spec_mode_of(from), new_mode: spec_mode_of(to) }),
        ] + spec_entry_effects(to)
    }
}

/// The stop reason published after an accepted event: the reason of a stop
/// request, empty for any other event.
pub open spec fn spec_stop_reason(e: OperationsEvents) -> Seq<char> {
    match e {
        OperationsEvents::SetStopped(r) => r@,
        _ => ""@,
    }
}

/// The outcome of an accepted event.
pub struct Transition {
    /// What the transition asks for, in order.
    pub effects: Vec<Effect>,
    /// The stop reason to publish afterwards.
    pub stop_reason: String,
}

/// The machine.
pub struct OperationsStateMachine {
    state: OperationsStates,
}

fn push_exit_effects(v: &mut Vec<Effect>, s: OperationsStates)
    ensures
        final(v)@ == old(v)@ + spec_exit_effects(s),
{
    match s {
        OperationsStates::Init => {},
        OperationsStates::Stopped => {
            v.push(Effect::SetOutput(ModeOutput::Stopped, false));
            v.push(Effect::ClearStopReason);
        },
        OperationsStates::Starting => {
            v.push(Effect::CancelTimeout(TimedEvent::StartingTimeout));
            v.push(Effect::SetOutput(ModeOutput::Starting, false));
        },
        OperationsStates::Running => v.push(Effect::SetOutput(ModeOutput::Running, false)),
        OperationsStates::Stopping => {
            v.push(Effect::CancelTimeout(TimedEvent::StoppingTimeout));
            v.push(Effect::SetOutput(ModeOutput::Stopping, false));
        },
        OperationsStates::Cleaning => v.push(Effect::SetOutput(ModeOutput::Cleaning, false)),
        OperationsStates::Emergency => v.push(Effect::SetOutput(ModeOutput::Emergency, false)),
        OperationsStates::Fault => v.push(Effect::SetOutput(ModeOutput::Fault, false)),
        OperationsStates::Maintenance => v.push(Effect::SetOutput(ModeOutput::Maintenance, false)),
    }
}

fn push_entry_effects(v: &mut Vec<Effect>, s: OperationsStates)
    ensures
        final(v)@ == old(v)@ + spec_entry_effects(s),
{
    match s {
        OperationsStates::Init => {},
        OperationsStates::Stopped => v.push(Effect::SetOutput(ModeOutput::Stopped, true)),
        OperationsStates::Starting => {
            v.push(Effect::SetOutput(ModeOutput::Starting, true));
            v.push(Effect::ScheduleTimeout(TimedEvent::StartingTimeout));
        },
        OperationsStates::Running => v.push(Effect::SetOutput(ModeOutput::Running, true)),
        OperationsStates::Stopping => {
            v.push(Effect::SetOutput(ModeOutput::Stopping, true));
            v.push(Effect::ScheduleTimeout(TimedEvent::StoppingTimeout));
        },
        OperationsStates::Cleaning => v.push(Effect::SetOutput(ModeOutput::Cleaning, true)),
        OperationsStates::Emergency => v.push(Effect::SetOutput(ModeOutput::Emergency, true)),
        OperationsStates::Fault => v.push(Effect::SetOutput(ModeOutput::Fault, true)),
        OperationsStates::Maintenance => v.push(Effect::SetOutput(ModeOutput::Maintenance, true)),
    }
}

/// The state the machine moves to from `s` on `e`, if any.
pub fn next_state(s: OperationsStates, e: &OperationsEvents, is_fault: bool) -> (r: Option<
    OperationsStates,
>)
    ensures
        r == spec_next_state(s, *e, is_fault),
{
    match e {
        OperationsEvents::SetEmergency | OperationsEvents::EmergencyOn => Some(
            OperationsStates::Emergency,
        ),
        OperationsEvents::SetStopped(_) => match s {
            OperationsStates::Init => Some(OperationsStates::Stopped),
            OperationsStates::Starting => Some(OperationsStates::Stopped),
            OperationsStates::Running => Some(OperationsStates::Stopping),
            OperationsStates::Cleaning => Some(OperationsStates::Stopped),
            OperationsStates::Maintenance => Some(OperationsStates::Stopped),
            _ => None,
        },
        OperationsEvents::SetStarting => match s {
            OperationsStates::Stopped => Some(OperationsStates::Starting),
            _ => None,
        },
        OperationsEvents::RunButton => match s {
            OperationsStates::Stopped => Some(OperationsStates::Starting),
            OperationsStates::Starting => Some(OperationsStates::Stopped),
            OperationsStates::Running => Some(OperationsStates::Stopping),
            _ => None,
        },
        OperationsEvents::StartingTimeout | OperationsEvents::StartingFinished => match s {
            OperationsStates::Starting => Some(OperationsStates::Running),
            _ => None,
        },
        OperationsEvents::StoppingTimeout | OperationsEvents::StoppingFinished => match s {
            OperationsStates::Stopping => Some(OperationsStates::Stopped),
            _ => None,
        },
        OperationsEvents::CleaningButton => match s {
            OperationsStates::Stopped => Some(OperationsStates::Cleaning),
            OperationsStates::Cleaning => Some(OperationsStates::Stopped),
            _ => None,
        },
        OperationsEvents::SetCleaning => match s {
            OperationsStates::Stopped => Some(OperationsStates::Cleaning),
            _ => None,
        },
        OperationsEvents::EmergencyOff => match s {
            OperationsStates::Emergency => if is_fault {
                Some(OperationsStates::Fault)
            } else {
                Some(OperationsStates::Stopped)
            },
            _ => None,
        },
        OperationsEvents::FaultOn | OperationsEvents::SetFault => match s {
            OperationsStates::Stopped => Some(OperationsStates::Fault),
            OperationsStates::Running => Some(OperationsStates::Fault),
            _ => None,
        },
        OperationsEvents::FaultOff => match s {
            OperationsStates::Fault => Some(OperationsStates::Stopped),
            _ => None,
        },
        OperationsEvents::MaintenanceButton => match s {
            OperationsStates::Stopped => Some(OperationsStates::Maintenance),
            OperationsStates::Maintenance => Some(OperationsStates::Stopped),
            _ => None,
        },
        OperationsEvents::SetMaintenance => match s {
            OperationsStates::Stopped => Some(OperationsStates::Maintenance),
            _ => None,
        },
    }
}

impl OperationsStateMachine {
    /// A machine in its initial state.
    pub fn new() -> (m: OperationsStateMachine)
        ensures
            m.spec_state() == OperationsStates::Init,
    {
        OperationsStateMachine { state: OperationsStates::Init }
    }

    pub closed spec fn spec_state(&self) -> OperationsStates {
        self.state
    }

    /// The current state.
    pub fn state(&self) -> (s: OperationsStates)
        ensures
            s == self.spec_state(),
    {
        self.state
    }

    /// Feeds an event to the machine; `is_fault` is the fault input, read by
    /// the guard of `Emergency + EmergencyOff`. An accepted event moves the
    /// machine and returns what the transition asks for; a refused one leaves
    /// the machine as it was.
    pub fn process_event(&mut self, event: OperationsEvents, is_fault: bool) -> (r: Result<
        Transition,
        OperationsError,
    >)
        ensures
            match spec_next_state(old(self).spec_state(), event, is_fault) {
                Some(to) => r matches Ok(t) && final(self).spec_state() == to && t.effects@
                    == spec_transition_effects(old(self).spec_state(), to) && t.stop_reason@
                    == spec_stop_reason(event),
                None => r == Err::<Transition, OperationsError>(OperationsError::InvalidEvent)
                    && final(self).spec_state() == old(self).spec_state(),
            },
    {
        let from = self.state;
        match next_state(from, &event, is_fault) {
            None => Err(OperationsError::InvalidEvent),
            Some(to) => {
                let mut effects: Vec<Effect> = Vec::new();
                if from != to {
                    push_exit_effects(&mut effects, from);
                    effects.push(
                        Effect::PublishMode(
                            OperationsUpdate { old_mode: mode_of(&from), new_mode: mode_of(&to) },
                        ),
                    );
                    push_entry_effects(&mut effects, to);
                }
                self.state = to;
                let stop_reason = match event {
                    OperationsEvents::SetStopped(r) => r,
                    _ => String::from_str(""),
                };
                Ok(Transition { effects, stop_reason })
            },
        }
    }
}

/// Emergency pre-empts every state: `SetEmergency` and `EmergencyOn` are
/// accepted in any state and lead to `Emergency`.
pub proof fn lemma_emergency_from_any_state(s: OperationsStates, is_fault: bool)
    ensures
        spec_next_state(s, OperationsEvents::SetEmergency, is_fault) == Some(
            OperationsStates::Emergency,
        ),
        spec_next_state(s, OperationsEvents::EmergencyOn, is_fault) == Some(
            OperationsStates::Emergency,
        ),
{
}

/// The machine leaves `Emergency` only through `EmergencyOff`, to `Fault`
/// when the fault input is set and to `Stopped` otherwise.
pub proof fn lemma_emergency_exit(e: OperationsEvents, is_fault: bool)
    ensures
        match spec_next_state(OperationsStates::Emergency, e, is_fault) {
            Some(to) => to == OperationsStates::Emergency || (e is EmergencyOff && to == (if is_fault {
                OperationsStates::Fault
            } else {
                OperationsStates::Stopped
            })),
            None => !(e is EmergencyOff),
        },
{
}

/// `Running` is entered only from `Starting`.
pub proof fn lemma_running_only_after_starting(
    s: OperationsStates,
    e: OperationsEvents,
    is_fault: bool,
)
    requires
        spec_next_state(s, e, is_fault) == Some(OperationsStates::Running),
    ensures
        s == OperationsStates::Starting,
{
}

/// A fault is left only to `Stopped` through `FaultOff`, or to `Emergency`.
pub proof fn lemma_fault_exit(e: OperationsEvents, is_fault: bool)
    ensures
        match spec_next_state(OperationsStates::Fault, e, is_fault) {
            Some(to) => (e is FaultOff && to == OperationsStates::Stopped) || to
                == OperationsStates::Emergency,
            None => true,
        },
{
}

/// Once initialized the machine never returns to `Init`, and every state but
/// `Init` shows a known mode.
pub proof fn lemma_init_never_reentered(s: OperationsStates, e: OperationsEvents, is_fault: bool)
    ensures
        spec_next_state(s, e, is_fault) != Some(OperationsStates::Init),
        (spec_mode_of(s) == OperationMode::Unknown) <==> (s == OperationsStates::Init),
{
}

/// Every change of state publishes the mode it leaves and the mode it
/// enters, after the effects of leaving and before those of entering; an
/// event that keeps the state asks for nothing.
pub proof fn lemma_transition_publishes_mode(from: OperationsStates, to: OperationsStates)
    ensures
        from != to ==> spec_transition_effects(from, to)[spec_exit_effects(from).len() as int]
            == Effect::PublishMode(
            OperationsUpdate { old_mode: spec_mode_of(from), new_mode: spec_mode_of(to) },
        ),
        from != to ==> spec_transition_effects(from, to).len() == spec_exit_effects(from).len() + 1
            + spec_entry_effects(to).len(),
        from == to ==> spec_transition_effects(from, to).len() == 0,
{
}

/// A repeated emergency keeps the machine in `Emergency` and asks for nothing.
pub proof fn lemma_repeated_emergency_is_quiet(is_fault: bool)
    ensures
        spec_next_state(OperationsStates::Emergency, OperationsEvents::SetEmergency, is_fault)
            == Some(OperationsStates::Emergency),
        spec_next_state(OperationsStates::Emergency, OperationsEvents::EmergencyOn, is_fault)
            == Some(OperationsStates::Emergency),
        spec_transition_effects(OperationsStates::Emergency, OperationsStates::Emergency).len() == 0,
{
}

/// The transition table of the machine, row by row, whatever the stop
/// reason and (but for the emergency's end) the fault input:
/// `Init + SetStopped = Stopped`; `Stopped + SetStarting | RunButton =
/// Starting`; `Starting + StartingTimeout | StartingFinished = Running`;
/// `Starting + RunButton | SetStopped = Stopped`; `Running + RunButton |
/// SetStopped = Stopping`; `Stopping + StoppingTimeout | StoppingFinished =
/// Stopped`; `Stopped + CleaningButton | SetCleaning = Cleaning`; `Cleaning +
/// CleaningButton | SetStopped = Stopped`; `any + SetEmergency | EmergencyOn =
/// Emergency`; `Emergency + EmergencyOff = Fault` with the fault input set and
/// `Stopped` without; `Stopped | Running + FaultOn | SetFault = Fault`;
/// `Fault + FaultOff = Stopped`; `Stopped + MaintenanceButton |
/// SetMaintenance = Maintenance`; `Maintenance + MaintenanceButton |
/// SetStopped = Stopped`.
pub proof fn lemma_transition_table(reason: String, is_fault: bool)
    ensures
        spec_next_state(OperationsStates::Init, OperationsEvents::SetStopped(reason), is_fault)
            == Some(OperationsStates::Stopped),
        spec_next_state(OperationsStates::Stopped, OperationsEvents::SetStarting, is_fault) == Some(
            OperationsStates::Starting,
        ),
        spec_next_state(OperationsStates::Stopped, OperationsEvents::RunButton, is_fault) == Some(
            OperationsStates::Starting,
        ),
        spec_next_state(OperationsStates::Starting, OperationsEvents::StartingTimeout, is_fault)
            == Some(OperationsStates::Running),
        spec_next_state(OperationsStates::Starting, OperationsEvents::StartingFinished, is_fault)
            == Some(OperationsStates::Running),
        spec_next_state(OperationsStates::Starting, OperationsEvents::RunButton, is_fault) == Some(
            OperationsStates::Stopped,
        ),
        spec_next_state(OperationsStates::Starting, OperationsEvents::SetStopped(reason), is_fault)
            == Some(OperationsStates::Stopped),
        spec_next_state(OperationsStates::Running, OperationsEvents::RunButton, is_fault) == Some(
            OperationsStates::Stopping,
        ),
        spec_next_state(OperationsStates::Running, OperationsEvents::SetStopped(reason), is_fault)
            == Some(OperationsStates::Stopping),
        spec_next_state(OperationsStates::Stopping, OperationsEvents::StoppingTimeout, is_fault)
            == Some(OperationsStates::Stopped),
        spec_next_state(OperationsStates::Stopping, OperationsEvents::StoppingFinished, is_fault)
            == Some(OperationsStates::Stopped),
        spec_next_state(OperationsStates::Stopped, OperationsEvents::CleaningButton, is_fault)
            == Some(OperationsStates::Cleaning),
        spec_next_state(OperationsStates::Stopped, OperationsEvents::SetCleaning, is_fault) == Some(
            OperationsStates::Cleaning,
        ),
        spec_next_state(OperationsStates::Cleaning, OperationsEvents::CleaningButton, is_fault)
            == Some(OperationsStates::Stopped),
        spec_next_state(OperationsStates::Cleaning, OperationsEvents::SetStopped(reason), is_fault)
            == Some(OperationsStates::Stopped),
        spec_next_state(OperationsStates::Emergency, OperationsEvents::EmergencyOff, true) == Some(
            OperationsStates::Fault,
        ),
        spec_next_state(OperationsStates::Emergency, OperationsEvents::EmergencyOff, false) == Some(
            OperationsStates::Stopped,
        ),
        spec_next_state(OperationsStates::Stopped, OperationsEvents::FaultOn, is_fault) == Some(
            OperationsStates::Fault,
        ),
        spec_next_state(OperationsStates::Stopped, OperationsEvents::SetFault, is_fault) == Some(
            OperationsStates::Fault,
        ),
        spec_next_state(OperationsStates::Running, OperationsEvents::FaultOn, is_fault) == Some(
            OperationsStates::Fault,
        ),
        spec_next_state(OperationsStates::Running, OperationsEvents::SetFault, is_fault) == Some(
            OperationsStates::Fault,
        ),
        spec_next_state(OperationsStates::Fault, OperationsEvents::FaultOff, is_fault) == Some(
            OperationsStates::Stopped,
        ),
        spec_next_state(OperationsStates::Stopped, OperationsEvents::MaintenanceButton, is_fault)
            == Some(OperationsStates::Maintenance),
        spec_next_state(OperationsStates::Stopped, OperationsEvents::SetMaintenance, is_fault)
            == Some(OperationsStates::Maintenance),
        spec_next_state(OperationsStates::Maintenance, OperationsEvents::MaintenanceButton, is_fault)
            == Some(OperationsStates::Stopped),
        spec_next_state(OperationsStates::Maintenance, OperationsEvents::SetStopped(reason), is_fault)
            == Some(OperationsStates::Stopped),
        forall|s: OperationsStates|
            spec_next_state(s, OperationsEvents::SetEmergency, is_fault) == Some(
                OperationsStates::Emergency,
            ) && spec_next_state(s, OperationsEvents::EmergencyOn, is_fault) == Some(
                OperationsStates::Emergency,
            ),
{
}

/// Only the rows of the table are accepted: an event in a state that has no
/// row for it is refused.
pub proof fn lemma_only_table_rows(s: OperationsStates, e: OperationsEvents, is_fault: bool)
    ensures
        spec_next_state(s, e, is_fault) is Some <==> {
            ||| e is SetEmergency || e is EmergencyOn
            ||| s == OperationsStates::Init && e is SetStopped
            ||| s == OperationsStates::Stopped && (e is SetStarting || e is RunButton || e is CleaningButton
                || e is SetCleaning || e is FaultOn || e is SetFault || e is MaintenanceButton
                || e is SetMaintenance)
            ||| s == OperationsStates::Starting && (e is StartingTimeout || e is StartingFinished
                || e is RunButton || e is SetStopped)
            ||| s == OperationsStates::Running && (e is RunButton || e is SetStopped || e is FaultOn
                || e is SetFault)
            ||| s == OperationsStates::Stopping && (e is StoppingTimeout || e is StoppingFinished)
            ||| s == OperationsStates::Cleaning && (e is CleaningButton || e is SetStopped)
            ||| s == OperationsStates::Emergency && e is EmergencyOff
            ||| s == OperationsStates::Fault && e is FaultOff
            ||| s == OperationsStates::Maintenance && (e is MaintenanceButton || e is SetStopped)
        },
{
}

/// The output that tells whether the machine is in state `s` (`Init` has none).
pub open spec fn output_of(s: OperationsStates) -> Option<ModeOutput> {
    match s {
        OperationsStates::Init => None,
        OperationsStates::Stopped => Some(ModeOutput::Stopped),
        OperationsStates::Starting => Some(ModeOutput::Starting),
        OperationsStates::Running => Some(ModeOutput::Running),
        OperationsStates::Stopping => Some(ModeOutput::Stopping),
        OperationsStates::Cleaning => Some(ModeOutput::Cleaning),
        OperationsStates::Emergency => Some(ModeOutput::Emergency),
        OperationsStates::Fault => Some(ModeOutput::Fault),
        OperationsStates::Maintenance => Some(ModeOutput::Maintenance),
    }
}

proof fn lemma_short_contains(s: Seq<Effect>, e: Effect)
    requires
        s.len() <= 2,
    ensures
        s.contains(e) <==> (s.len() > 0 && s[0] == e) || (s.len() > 1 && s[1] == e),
{
    if s.contains(e) {
        let i = choose|i: int| 0 <= i < s.len() && s[i] == e;
        assert(i == 0 || i == 1);
    }
    if s.len() > 0 && s[0] == e {
        assert(s.contains(e));
    }
    if s.len() > 1 && s[1] == e {
        assert(s.contains(e));
    }
}

/// A change of state clears the output of the state it leaves and sets the
/// output of the state it enters, and writes no other output; it schedules
/// the starting (stopping) timeout exactly when it enters `Starting`
/// (`Stopping`) and cancels it exactly when it leaves that state; and it
/// clears the stop reason exactly when it leaves `Stopped`.
pub proof fn lemma_transition_outputs(from: OperationsStates, to: OperationsStates)
    requires
        from != to,
    ensures
        ({
            let t = spec_transition_effects(from, to);
            &&& forall|o: ModeOutput|
                #[trigger] t.contains(Effect::SetOutput(o, true)) <==> output_of(to) == Some(o)
            &&& forall|o: ModeOutput|
                #[trigger] t.contains(Effect::SetOutput(o, false)) <==> output_of(from) == Some(o)
            &&& t.contains(Effect::ScheduleTimeout(TimedEvent::StartingTimeout)) <==> to
                == OperationsStates::Starting
            &&& t.contains(Effect::ScheduleTimeout(TimedEvent::StoppingTimeout)) <==> to
                == OperationsStates::Stopping
            &&& t.contains(Effect::CancelTimeout(TimedEvent::StartingTimeout)) <==> from
                == OperationsStates::Starting
            &&& t.contains(Effect::CancelTimeout(TimedEvent::StoppingTimeout)) <==> from
                == OperationsStates::Stopping
            &&& t.contains(Effect::ClearStopReason) <==> from == OperationsStates::Stopped
        }),
{
    let t = spec_transition_effects(from, to);
    let x = spec_exit_effects(from);
    let p = seq![
        Effect::PublishMode(OperationsUpdate { old_mode: spec_mode_of(from), new_mode: spec_mode_of(to) }),
    ];
    let n = spec_entry_effects(to);
    assert(t == x + p + n);
    assert(x.len() <= 2 && n.len() <= 2);
    assert forall|e: Effect| #[trigger] t.contains(e) <==> (x.contains(e) || p[0] == e || n.contains(e)) by {
        lemma_short_contains(x, e);
        lemma_short_contains(n, e);
        if t.contains(e) {
            let i = choose|i: int| 0 <= i < t.len() && t[i] == e;
            if i < x.len() {
                assert(x[i] == e);
            } else if i < x.len() + 1 {
                assert(p[i - x.len()] == e);
            } else {
                assert(n[i - x.len() - 1] == e);
            }
        }
        if x.contains(e) {
            let i = choose|i: int| 0 <= i < x.len() && x[i] == e;
            assert(t[i] == e);
        }
        if p[0] == e {
            assert(t[x.len() as int] == e);
        }
        if n.contains(e) {
            let i = choose|i: int| 0 <= i < n.len() && n[i] == e;
            assert(t[x.len() + 1 + i] == e);
        }
    }
    assert forall|e: Effect| #[trigger] x.contains(e) <==> (x.len() > 0 && x[0] == e) || (x.len() > 1
        && x[1] == e) by {
        lemma_short_contains(x, e);
    }
    assert forall|e: Effect| #[trigger] n.contains(e) <==> (n.len() > 0 && n[0] == e) || (n.len() > 1
        && n[1] == e) by {
        lemma_short_contains(n, e);
    }
}

} // verus!
