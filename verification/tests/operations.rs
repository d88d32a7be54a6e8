use tfc::operations::common::{OperationMode, OperationsUpdate};
use tfc::operations::machine::{
    mode_of, Effect, ModeOutput, OperationsError, OperationsEvents, OperationsStateMachine,
    OperationsStates, TimedEvent,
};
use tfc::operations::service::{
    accept_update, enters_mode, event_for_mode, exits_mode, set_mode_request, stop_with_reason,
    SetModeError, Storage, timeout_delay, input_event, OperationsInput,
};

fn run(sm: &mut OperationsStateMachine, e: OperationsEvents) -> Result<OperationsStates, OperationsError> {
    sm.process_event(e, false).map(|_| sm.state())
}

#[test]
fn test_running_and_stopped() {
    let mut sm = OperationsStateMachine::new();
    assert_eq!(run(&mut sm, OperationsEvents::SetStopped("init".to_string())), Ok(OperationsStates::Stopped));
    // set_mode(Running) asks for a start; the start timer then runs it
    let e = set_mode_request("running").unwrap();
    assert_eq!(run(&mut sm, e), Ok(OperationsStates::Starting));
    assert_eq!(run(&mut sm, OperationsEvents::StartingTimeout), Ok(OperationsStates::Running));
    assert_eq!(mode_of(&sm.state()), OperationMode::Running);
    // set_mode(Stopped) stops it through stopping
    let e = set_mode_request("Stopped").unwrap();
    assert_eq!(run(&mut sm, e), Ok(OperationsStates::Stopping));
    assert_eq!(run(&mut sm, OperationsEvents::StoppingTimeout), Ok(OperationsStates::Stopped));
    assert_eq!(mode_of(&sm.state()), OperationMode::Stopped);
}

#[test]
fn transition_effects_and_stop_reason() {
    let mut sm = OperationsStateMachine::new();
    let t = sm
        .process_event(OperationsEvents::SetStopped("init".to_string()), false)
        .unwrap();
    assert_eq!(t.stop_reason, "init");
    assert_eq!(
        t.effects,
        vec![
            Effect::PublishMode(OperationsUpdate {
                old_mode: OperationMode::Unknown,
                new_mode: OperationMode::Stopped
            }),
            Effect::SetOutput(ModeOutput::Stopped, true),
        ]
    );
    let t = sm.process_event(OperationsEvents::RunButton, false).unwrap();
    assert_eq!(t.stop_reason, "");
    assert_eq!(
        t.effects,
        vec![
            Effect::SetOutput(ModeOutput::Stopped, false),
            Effect::ClearStopReason,
            Effect::PublishMode(OperationsUpdate {
                old_mode: OperationMode::Stopped,
                new_mode: OperationMode::Starting
            }),
            Effect::SetOutput(ModeOutput::Starting, true),
            Effect::ScheduleTimeout(TimedEvent::StartingTimeout),
        ]
    );
}

#[test]
fn refused_events_leave_the_state() {
    let mut sm = OperationsStateMachine::new();
    assert_eq!(run(&mut sm, OperationsEvents::RunButton).err(), Some(OperationsError::InvalidEvent));
    assert_eq!(sm.state(), OperationsStates::Init);
    run(&mut sm, OperationsEvents::SetStopped("x".to_string())).unwrap();
    assert_eq!(run(&mut sm, OperationsEvents::FaultOff).err(), Some(OperationsError::InvalidEvent));
    assert_eq!(sm.state(), OperationsStates::Stopped);
}

#[test]
fn emergency_and_fault() {
    let mut sm = OperationsStateMachine::new();
    assert_eq!(run(&mut sm, OperationsEvents::EmergencyOn), Ok(OperationsStates::Emergency));
    assert_eq!(run(&mut sm, OperationsEvents::RunButton).err(), Some(OperationsError::InvalidEvent));
    // leaving emergency with the fault input set goes to fault
    assert!(sm.process_event(OperationsEvents::EmergencyOff, true).is_ok());
    assert_eq!(sm.state(), OperationsStates::Fault);
    assert_eq!(run(&mut sm, OperationsEvents::FaultOff), Ok(OperationsStates::Stopped));
    assert_eq!(run(&mut sm, OperationsEvents::SetEmergency), Ok(OperationsStates::Emergency));
    assert_eq!(run(&mut sm, OperationsEvents::EmergencyOff), Ok(OperationsStates::Stopped));
    assert_eq!(run(&mut sm, OperationsEvents::SetFault), Ok(OperationsStates::Fault));
}

#[test]
fn cleaning_maintenance_and_starting_cancel() {
    let mut sm = OperationsStateMachine::new();
    run(&mut sm, OperationsEvents::SetStopped("init".to_string())).unwrap();
    assert_eq!(run(&mut sm, OperationsEvents::CleaningButton), Ok(OperationsStates::Cleaning));
    assert_eq!(run(&mut sm, OperationsEvents::CleaningButton), Ok(OperationsStates::Stopped));
    assert_eq!(run(&mut sm, OperationsEvents::SetMaintenance), Ok(OperationsStates::Maintenance));
    assert_eq!(run(&mut sm, OperationsEvents::SetStopped("m".to_string())), Ok(OperationsStates::Stopped));
    assert_eq!(run(&mut sm, OperationsEvents::SetStarting), Ok(OperationsStates::Starting));
    assert_eq!(run(&mut sm, OperationsEvents::RunButton), Ok(OperationsStates::Stopped));
}

#[test]
fn mode_names_and_requests() {
    assert_eq!(OperationMode::from_str("MAINTENANCE"), Ok(OperationMode::Maintenance));
    assert_eq!(OperationMode::from_str("nonsense"), Err(()));
    assert_eq!(OperationMode::from_lowercase("fault"), Ok(OperationMode::Fault));
    assert_eq!(OperationMode::from_lowercase("Fault"), Err(()));
    assert_eq!(OperationMode::Cleaning.to_string(), "cleaning");
    assert_eq!(OperationMode::Maintenance.code(), 8);
    assert_eq!(set_mode_request("unknown").err(), Some(SetModeError::InvalidMode));
    assert_eq!(set_mode_request("bogus").err(), Some(SetModeError::InvalidMode));
    assert_eq!(event_for_mode(OperationMode::Unknown).err(), Some(SetModeError::InvalidMode));
    match set_mode_request("stopping").unwrap() {
        OperationsEvents::SetStopped(r) => assert_eq!(r, "manual"),
        other => panic!("unexpected {:?}", other),
    }
    assert!(matches!(event_for_mode(OperationMode::Emergency), Ok(OperationsEvents::SetEmergency)));
    match stop_with_reason("door open") {
        OperationsEvents::SetStopped(r) => assert_eq!(r, "door open"),
        other => panic!("unexpected {:?}", other),
    }
}

#[test]
fn client_update_filtering() {
    let u = OperationsUpdate { new_mode: OperationMode::Running, old_mode: OperationMode::Starting };
    assert!(accept_update(&u));
    assert!(enters_mode(&u, OperationMode::Running));
    assert!(exits_mode(&u, OperationMode::Starting));
    assert!(!accept_update(&OperationsUpdate::default()));
    assert!(!accept_update(&OperationsUpdate { new_mode: OperationMode::Unknown, old_mode: OperationMode::Running }));
    assert!(!accept_update(&OperationsUpdate { new_mode: OperationMode::Fault, old_mode: OperationMode::Fault }));
}

#[test]
fn timed_event_delays() {
    let s = Storage::default();
    let d = timeout_delay(&s, TimedEvent::StartingTimeout).unwrap();
    assert_eq!(d.as_secs(), 0);
    assert_eq!(d.subsec_nanos(), 0);
    let none = Storage { startup_time: None, stopping_time: None };
    assert!(timeout_delay(&none, TimedEvent::StoppingTimeout).is_none());
}

fn event_name(e: Option<OperationsEvents>) -> String {
    match e {
        None => "none".to_string(),
        Some(e) => format!("{:?}", e),
    }
}

#[test]
fn inputs_send_their_events() {
    assert_eq!(event_name(input_event(OperationsInput::RunButton, true)), "RunButton");
    assert_eq!(event_name(input_event(OperationsInput::RunButton, false)), "none");
    assert_eq!(event_name(input_event(OperationsInput::StartingFinished, true)), "StartingFinished");
    assert_eq!(event_name(input_event(OperationsInput::StoppingFinished, false)), "none");
    assert_eq!(event_name(input_event(OperationsInput::CleaningButton, true)), "CleaningButton");
    assert_eq!(event_name(input_event(OperationsInput::MaintenanceButton, true)), "MaintenanceButton");
    assert_eq!(event_name(input_event(OperationsInput::Emergency, true)), "EmergencyOn");
    assert_eq!(event_name(input_event(OperationsInput::Emergency, false)), "EmergencyOff");
    assert_eq!(event_name(input_event(OperationsInput::Fault, true)), "FaultOn");
    assert_eq!(event_name(input_event(OperationsInput::Fault, false)), "FaultOff");
}

#[test]
fn emergency_input_preempts_every_state() {
    let mut sm = OperationsStateMachine::new();
    run(&mut sm, OperationsEvents::SetStopped("init".to_string())).unwrap();
    run(&mut sm, OperationsEvents::RunButton).unwrap();
    assert_eq!(sm.state(), OperationsStates::Starting);
    let e = input_event(OperationsInput::Emergency, true).unwrap();
    assert_eq!(run(&mut sm, e), Ok(OperationsStates::Emergency));
    let e = input_event(OperationsInput::Emergency, false).unwrap();
    assert_eq!(sm.process_event(e, true).map(|_| sm.state()), Ok(OperationsStates::Fault));
}

#[test]
fn startup_shows_everything_off_then_stops_for_init() {
    let s = tfc::operations::service::startup();
    let expected = vec![
        Effect::SetOutput(ModeOutput::Starting, false),
        Effect::SetOutput(ModeOutput::Stopping, false),
        Effect::SetOutput(ModeOutput::Cleaning, false),
        Effect::SetOutput(ModeOutput::Emergency, false),
        Effect::SetOutput(ModeOutput::Fault, false),
        Effect::SetOutput(ModeOutput::Maintenance, false),
        Effect::SetOutput(ModeOutput::Running, false),
        Effect::SetOutput(ModeOutput::Stopped, false),
        Effect::ShowMode(OperationMode::Unknown),
        Effect::ClearStopReason,
    ];
    assert_eq!(s.effects, expected);
    let mut sm = OperationsStateMachine::new();
    match &s.first_event {
        OperationsEvents::SetStopped(r) => assert_eq!(r, "init"),
        other => panic!("unexpected first event {:?}", other),
    }
    assert_eq!(run(&mut sm, s.first_event), Ok(OperationsStates::Stopped));
}

#[test]
fn repeated_emergency_stays_quiet() {
    let mut sm = OperationsStateMachine::new();
    let t = sm.process_event(OperationsEvents::EmergencyOn, false).unwrap();
    assert!(!t.effects.is_empty());
    assert_eq!(sm.state(), OperationsStates::Emergency);
    let t = sm.process_event(OperationsEvents::SetEmergency, false).unwrap();
    assert!(t.effects.is_empty());
    assert_eq!(t.stop_reason, "");
    let t = sm.process_event(OperationsEvents::EmergencyOn, true).unwrap();
    assert!(t.effects.is_empty());
    assert_eq!(sm.state(), OperationsStates::Emergency);
}
