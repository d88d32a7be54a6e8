use tfc::ethercat::devices::Index;
use tfc::ethercat::i550::{AnalogInput1, RatedMainsVoltage};
use tfc::ethercat::bus::{check_subdevice_count, check_working_counter, device_cycle, BusConfig, BusError};
use tfc::ethercat::cia402::{transition, ControlWord, State, StatusWord, TransitionAction};
use tfc::ethercat::devices::{channel_name, identify, needs_new_device, prefix, DeviceKind};
use tfc::ethercat::el2xxx::{El2008, El2809, OutputError};
use tfc::ethercat::el3356::{
    calibrate_finish_writes, calibrate_next, calibrate_writes, command_done, zero_calibrate_writes,
    CalibrateEvents, CalibrateStates, ControlWord as ScaleControl, Filter, StatusWord as ScaleStatus,
};
use tfc::ethercat::i550::{drive_command, setup_writes, I550Config, I550Inputs, SdoValue, SdoWrite};
use tfc::ethercat::i550_error::I550Error;

#[test]
fn control_words_have_the_profile_values() {
    assert_eq!(ControlWord::state_shutdown().to_u16(), 0x0006);
    assert_eq!(ControlWord::state_switch_on().to_u16(), 0x0007);
    assert_eq!(ControlWord::state_enable_operation().to_u16(), 0x000F);
    assert_eq!(ControlWord::state_disable_operation().to_u16(), 0x0007);
    assert_eq!(ControlWord::disable_voltage().to_u16(), 0x0000);
    assert_eq!(ControlWord::quick_stop().to_u16(), 0x0002);
    assert_eq!(ControlWord::fault_reset().to_u16(), 0x0080);
    assert_eq!(ControlWord::state_enable_operation().to_bytes(), [0x0F, 0x00]);
}

#[test]
fn status_words_parse_to_states() {
    let s = |w: u16| StatusWord::from_u16(w).parse_state();
    assert_eq!(s(0x0000), State::NotReadyToSwitchOn);
    assert_eq!(s(0x0040), State::SwitchOnDisabled);
    assert_eq!(s(0x0021), State::ReadyToSwitchOn);
    assert_eq!(s(0x0033), State::SwitchedOn);
    assert_eq!(s(0x0037), State::OperationEnabled);
    assert_eq!(s(0x0017), State::QuickStopActive);
    assert_eq!(s(0x000F), State::FaultReactionActive);
    assert_eq!(s(0x0008), State::Fault);
    assert_eq!(StatusWord::from_bytes([0x37, 0x02]).parse_state(), State::OperationEnabled);
    assert!(StatusWord::from_u16(0x0200).remote);
    assert_eq!(State::Fault.code(), 8);
}

#[test]
fn transitions_follow_the_profile() {
    assert_eq!(transition(State::SwitchOnDisabled, TransitionAction::Run, false), ControlWord::state_shutdown());
    assert_eq!(transition(State::ReadyToSwitchOn, TransitionAction::Run, false), ControlWord::state_enable_operation());
    assert_eq!(transition(State::SwitchedOn, TransitionAction::Stop, false), ControlWord::state_disable_operation());
    assert_eq!(transition(State::OperationEnabled, TransitionAction::QuickStop, false), ControlWord::quick_stop());
    assert_eq!(transition(State::OperationEnabled, TransitionAction::FreewheelStop, false), ControlWord::disable_voltage());
    assert_eq!(transition(State::OperationEnabled, TransitionAction::NoAction, false), ControlWord::state_disable_operation());
    assert_eq!(transition(State::OperationEnabled, TransitionAction::Run, false), ControlWord::state_enable_operation());
    assert_eq!(transition(State::Fault, TransitionAction::Run, false), ControlWord::state_shutdown());
    assert_eq!(transition(State::Fault, TransitionAction::Reset, false), ControlWord::fault_reset());
    assert_eq!(transition(State::Fault, TransitionAction::Run, true), ControlWord::fault_reset());
    assert_eq!(transition(State::QuickStopActive, TransitionAction::QuickStop, false), ControlWord::quick_stop());
    assert_eq!(transition(State::QuickStopActive, TransitionAction::Run, false), ControlWord::disable_voltage());
    assert_eq!(transition(State::NotReadyToSwitchOn, TransitionAction::Run, false), ControlWord::state_shutdown());
    assert_eq!(transition(State::FaultReactionActive, TransitionAction::Reset, true), ControlWord::disable_voltage());
}

#[test]
fn devices_are_identified() {
    assert_eq!(identify(0x2, 0x44c2c52), DeviceKind::Ek1100);
    assert_eq!(identify(0x3b, 0x69055000), DeviceKind::I550);
    assert_eq!(identify(0x2, 0x0d1c3052), DeviceKind::El3356);
    assert_eq!(identify(0x2, 0xaf93052), DeviceKind::El2809);
    assert_eq!(identify(0x2, 0x1), DeviceKind::Unimplemented);
    assert!(needs_new_device(DeviceKind::Unimplemented, 0x2, 0x44c2c52));
    assert!(!needs_new_device(DeviceKind::Ek1100, 0x2, 0x44c2c52));
    assert_eq!(prefix("el3356_", "el3356_alias_", 3, 0), "el3356_3");
    assert_eq!(prefix("el3356_", "el3356_alias_", 3, 1001), "el3356_alias_1001");
    assert_eq!(channel_name("i550/0", "/DI", 7), "i550/0/DI7");
}

#[test]
fn output_terminal_names_and_bits() {
    assert_eq!(
        El2008::slot_names(2, 0),
        vec!["el2008/2/in1", "el2008/2/in5", "el2008/2/in2", "el2008/2/in6", "el2008/2/in3", "el2008/2/in7", "el2008/2/in4", "el2008/2/in8"]
    );
    assert_eq!(El2809::slot_names(0, 12)[15], "el2809/alias/12/in16");
    let mut t = El2008::new();
    let mut image = [0u8; 1];
    let bits = [true, false, true, false, false, false, false, true];
    assert_eq!(t.process_data(&mut image, &bits), Ok(()));
    assert_eq!(image[0], 0b1000_0101);
    let mut wrong = [0u8; 2];
    assert!(!t.error());
    assert_eq!(t.process_data(&mut wrong, &bits), Err(OutputError::LengthMismatch));
    assert_eq!(wrong, [0, 0]);
    assert!(t.error());
    // the next write after a refusal goes ahead
    assert_eq!(t.process_data(&mut wrong, &bits), Ok(()));
    assert_eq!(wrong, [0b1000_0101, 0]);
    let mut t16 = El2809::new();
    let mut img = [0xffu8, 0xff];
    let mut bits16 = [false; 16];
    bits16[9] = true;
    assert_eq!(t16.process_data(&mut img, &bits16), Ok(()));
    assert_eq!(img, [0x00, 0x02]);
}

#[test]
fn i550_errors() {
    assert_eq!(I550Error::from_code(0x2250), Some(I550Error::ContinuousOverCurrent));
    assert_eq!(I550Error::from_code(0), Some(I550Error::NoError));
    assert_eq!(I550Error::from_code(0x1234), None);
    assert_eq!(I550Error::AutoTuningCancelled.code(), 0xFF87);
    assert_eq!(I550Error::I2tOverload.description(), "CiA: i²*t overload (thermal state) Fault 0x2D4B:003 (P308.03)");
    assert_eq!(I550Error::Warning.description(), "Warning Warning 0xFF72");
    assert_eq!(I550Error::NoError.description(), "None");
}

#[test]
fn i550_setup_and_cycle() {
    let writes = setup_writes(&I550Config::default());
    assert_eq!(writes.len(), 32);
    assert_eq!(writes[0], SdoWrite { index: 0x2631, subindex: 4, value: SdoValue::U8(1) });
    assert_eq!(writes[22], SdoWrite { index: 0x2540, subindex: 1, value: SdoValue::U8(1) });
    assert_eq!(writes[26], SdoWrite { index: 0x6046, subindex: 2, value: SdoValue::U32(6075) });
    assert_eq!(writes[31], SdoWrite { index: 0x2636, subindex: 10, value: SdoValue::U8(0) });
    let mut c = I550Config::default();
    c.stator_resistance = Some(1100);
    c.stator_leakage_inductance = Some(61000);
    let writes = setup_writes(&c);
    assert_eq!(writes.len(), 34);
    assert_eq!(writes[30], SdoWrite { index: 0x2C01, subindex: 2, value: SdoValue::U32(1100) });
    assert_eq!(writes[31], SdoWrite { index: 0x2C01, subindex: 3, value: SdoValue::U32(61000) });

    assert_eq!(drive_command(State::SwitchedOn, 100, true), ControlWord::state_enable_operation());
    assert_eq!(drive_command(State::SwitchedOn, 0, true), ControlWord::state_disable_operation());
    assert_eq!(drive_command(State::Fault, 100, false), ControlWord::fault_reset());

    let mut inputs = I550Inputs::new();
    let mut input = [0u8; 16];
    input[0] = 0x33; // switched on
    input[12] = 0b0000_0101;
    let mut output = [0u8; 4];
    let changes = inputs.process_data(&input, &mut output, -2, true).unwrap();
    assert_eq!(output, [0x0F, 0x00, 0xFE, 0xFF]);
    assert_eq!(changes, vec![(0, true), (1, false), (2, true), (3, false), (4, false), (5, false), (6, false)]);
    input[12] = 0b0000_0100;
    let changes = inputs.process_data(&input, &mut output, 0, true).unwrap();
    assert_eq!(changes, vec![(0, false)]);
    assert_eq!(output, [0x07, 0x00, 0x00, 0x00]);
    let mut short = [9u8; 3];
    assert!(inputs.process_data(&input, &mut short, 0, true).is_none());
    assert_eq!(short, [9, 9, 9]);
}

#[test]
fn el3356_words_and_calibration() {
    let s = ScaleStatus::from_bytes([0b0000_0010, 0b1000_0001]);
    assert!(s.over_range && s.steady_state && s.tx_pdo);
    assert!(!s.data_invalid && !s.sync_error);
    let c = ScaleControl { start_calibration: true, disable_calibration: false, input_freeze: false, sample_mode: true, tare: true };
    assert_eq!(c.to_bytes(), [0b0001_1001, 0]);
    assert_eq!(Filter::IIR8.code(), 9);
    assert_eq!(calibrate_next(CalibrateStates::Idle, CalibrateEvents::SetZeroCalibration), Some(CalibrateStates::ZeroCalibration));
    assert_eq!(calibrate_next(CalibrateStates::Idle, CalibrateEvents::SetCalibration), None);
    assert_eq!(calibrate_next(CalibrateStates::Calibration, CalibrateEvents::SetIdle), Some(CalibrateStates::Idle));
    let z = zero_calibrate_writes(5.0f32.to_bits());
    assert_eq!(z.len(), 7);
    assert_eq!(z[1], SdoWrite { index: 0x8000, subindex: 0x27, value: SdoValue::U32(1.0f32.to_bits()) });
    assert_eq!(z[5], SdoWrite { index: 0x8000, subindex: 0x24, value: SdoValue::U32(5.0f32.to_bits()) });
    let c = calibrate_writes(2.5f32.to_bits());
    assert_eq!(c[1], SdoWrite { index: 0xFB00, subindex: 1, value: SdoValue::U16(0x0102) });
    let f = calibrate_finish_writes(Filter::IIR2);
    assert_eq!(f[1], SdoWrite { index: 0x8000, subindex: 0x11, value: SdoValue::U16(3) });
    assert!(command_done(0, 0));
    assert!(!command_done(1, 0));
}

#[test]
fn bus_decisions() {
    assert_eq!(check_subdevice_count(0, 1), Err(BusError::NotEnoughSubdevices { expected: 1, got: 0 }));
    assert_eq!(check_subdevice_count(3, 1), Ok(()));
    assert_eq!(check_working_counter(3, 2), Err(BusError::WorkingCounterMismatch { expected: 3, got: 2 }));
    assert_eq!(device_cycle(false, false), (true, true));
    assert_eq!(device_cycle(true, false), (true, false));
    assert_eq!(device_cycle(true, true), (false, false));
    let c = BusConfig::default();
    assert_eq!(c.interface, "eth0");
    assert_eq!(c.cycle_time.to_units(), 1000);
}

#[test]
fn i550_descriptions_are_distinct_and_not_empty() {
    let mut seen = std::collections::HashSet::new();
    let mut count = 0;
    for code in 0..=u16::MAX {
        if let Some(e) = I550Error::from_code(code) {
            let d = e.description();
            assert!(!d.is_empty());
            assert!(seen.insert(d));
            count += 1;
        }
    }
    assert_eq!(count, 112);
}

#[test]
fn configured_objects_have_their_indices() {
    assert_eq!((RatedMainsVoltage::index(), RatedMainsVoltage::subindex()), (0x2540, 0x01));
    assert_eq!((AnalogInput1::index(), AnalogInput1::subindex()), (0x2636, 0x01));
    assert_eq!((Filter::index(), Filter::subindex()), (0x8000, 0x11));
}
