use tfc::button::{step, ButtonEvent, ButtonInput, ButtonPhase};
use tfc::confman::{initial_content, ConfMan};
use tfc::filter::{process, Filter, FilterError, FilterVariant, NewState};
use tfc::ipc::{endpoint, path, Base};
use tfc::progbase::{
    config_directory, exe_name, log_lvl, make_config_file_name, parse_log_level, proc_name, stdout,
    LogLevel, Options, Opts,
};
use tfc::text::{decimal, join, str_eq};
use tfc::time::{DurationType, MicroDuration, MilliDuration, NanoDuration, SecDuration};

fn options() -> Options {
    let mut o = Opts::default();
    o.id = "def".to_string();
    o.log_level = "debug".to_string();
    Options::new(o, "framework-rs".to_string())
}

#[test]
fn init_test() {
    let o = options();
    assert_eq!(exe_name(&o), "framework-rs");
    assert_eq!(proc_name(&o), "def");
    assert_eq!(log_lvl(&o), LogLevel::Debug);
    assert!(!stdout(&o));
    assert_eq!(parse_log_level("bogus"), LogLevel::Info);
    assert_eq!(parse_log_level("trace"), LogLevel::Trace);
    assert_eq!(Options::initial().log_level, LogLevel::Info);
}

#[test]
fn config_file_names() {
    let o = options();
    assert_eq!(config_directory(None), "/etc/tfc/");
    assert_eq!(config_directory(Some("/tmp/x".to_string())), "/tmp/x");
    assert_eq!(make_config_file_name("/etc/tfc/", &o, "key", "json"), "/etc/tfc/framework-rs/def/key.json");
    assert_eq!(make_config_file_name("/tmp/x", &o, "bus", "json"), "/tmp/x/framework-rs/def/bus.json");
    assert_eq!(join("", "a"), "a");
    assert_eq!(join("/a", "/b"), "/b");
    assert_eq!(decimal(0), "0");
    assert_eq!(decimal(18446744073709551615), "18446744073709551615");
    assert!(str_eq("abc", "abc"));
    assert!(!str_eq("abc", "abd"));
}

#[test]
fn base_names() {
    let o = options();
    let b: Base<bool> = Base::new("run_button", Some("Run button pressed"));
    assert_eq!(b.log_key, "bool/run_button");
    assert_eq!(b.full_name(&o), "framework-rs.def.bool.run_button");
    assert_eq!(path(None), "/var/run/tfc/");
    assert_eq!(b.endpoint(&o, "/var/run/tfc/"), "ipc:///var/run/tfc/framework-rs.def.bool.run_button");
    assert_eq!(b.path(&o, "/run"), "/run/framework-rs.def.bool.run_button");
    assert_eq!(endpoint("/r", "x"), "ipc:///r/x");
    assert_eq!(Base::<u64>::type_and_name("mode"), "u64/mode");
    let c = b.copy();
    assert_eq!(c.description.as_deref(), Some("Run button pressed"));
}

#[test]
fn durations() {
    let d = MilliDuration::new(2, 500_000_000);
    assert_eq!(d.to_units(), 2500);
    assert_eq!(NanoDuration::new(1, 5).to_units(), 1_000_000_005);
    assert_eq!(MicroDuration::new(0, 1_999).to_units(), 1);
    assert_eq!(SecDuration::new(7, 999_999_999).to_units(), 7);
    let back = MilliDuration::from_units(2500);
    assert_eq!((back.as_secs(), back.subsec_nanos()), (2, 500_000_000));
    let wrapped = SecDuration::from_units((1u128 << 64) + 3);
    assert_eq!(wrapped.as_secs(), 3);
    assert_eq!(MicroDuration::schema_name(), "GenericDuration<µs>");
    assert_eq!(DurationType::from(2), DurationType::Milli);
    assert_eq!(DurationType::Sec.to_string(), "s");
}

#[test]
fn filters_and_buttons() {
    let f = NewState {};
    assert_eq!(Filter::<u64>::filter(&f, 5, None), Ok(5));
    assert_eq!(Filter::<u64>::filter(&f, 5, Some(&5)), Err(FilterError::SameAsLastValue));
    assert_eq!(Filter::<u64>::filter(&f, 6, Some(&5)), Ok(6));
    let chain = vec![FilterVariant::NewState(NewState {}), FilterVariant::NewState(NewState {})];
    assert_eq!(process(&chain, true, Some(&true)), Err(FilterError::SameAsLastValue));
    assert_eq!(process(&Vec::new(), true, Some(&true)), Ok(true));

    let s = step(ButtonPhase::Press, ButtonInput::Value(true));
    assert_eq!((s.phase, s.event, s.timeout_ms), (ButtonPhase::Release, None, Some(1000)));
    let s = step(ButtonPhase::Release, ButtonInput::Timeout);
    assert_eq!(s.event, Some(ButtonEvent::LongTap));
    let s = step(ButtonPhase::Release, ButtonInput::Value(false));
    assert_eq!((s.phase, s.timeout_ms), (ButtonPhase::Second, Some(400)));
    assert_eq!(step(ButtonPhase::Second, ButtonInput::Timeout).event, Some(ButtonEvent::Tap));
    assert_eq!(step(ButtonPhase::Second, ButtonInput::Value(true)).event, Some(ButtonEvent::DoubleTap));
    assert_eq!(ButtonEvent::DoubleTap.name(), "DoubleTap");
}

#[derive(Debug, PartialEq)]
struct MyStruct {
    my_int: i32,
    my_bool: bool,
}

#[test]
fn struct_test() {
    let config = ConfMan::new_test(MyStruct { my_int: 5, my_bool: true }, "/tmp/key1.json".to_string(), "key1");
    assert_eq!(config.value().my_int, 5);
    assert_eq!(config.file(), "/tmp/key1.json");
}

#[test]
fn change_param() {
    let mut config = ConfMan::new_test(MyStruct { my_int: 5, my_bool: true }, "/tmp/key.json".to_string(), "key");
    config.make_change().value_mut().my_int = 42;
    assert_eq!(config.value().my_int, 42);
    assert_eq!(initial_content(String::new(), "{}".to_string()), "{}");
    assert_eq!(initial_content("{\"a\":1}".to_string(), "{}".to_string()), "{\"a\":1}");
}

#[test]
fn configuration_file_and_key_never_change() {
    let mut c = ConfMan::new_test(1u32, "/etc/tfc/exe/def/key.json".to_string(), "key");
    c.set_value(2);
    *c.value_mut() = 3;
    *c.make_change().value_mut() = 4;
    c.set_value(5);
    assert_eq!(*c.value(), 5);
    assert_eq!(c.file(), "/etc/tfc/exe/def/key.json");
    assert_eq!(c.key(), "key");
}

#[test]
fn new_state_filter_compares_strings_by_text() {
    let f = NewState {};
    let old = "idle".to_string();
    assert_eq!(
        Filter::<String>::filter(&f, "idle".to_string(), Some(&old)),
        Err(FilterError::SameAsLastValue)
    );
    assert_eq!(Filter::<String>::filter(&f, "busy".to_string(), Some(&old)), Ok("busy".to_string()));
    let chain = vec![FilterVariant::NewState(NewState {})];
    assert_eq!(process(&chain, "idle".to_string(), Some(&old)), Err(FilterError::SameAsLastValue));
    assert_eq!(process(&chain, "busy".to_string(), None), Ok("busy".to_string()));
}
