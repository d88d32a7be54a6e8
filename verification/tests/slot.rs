use tfc::filter::{FilterError, FilterVariant, NewState};
use tfc::ipc::codec::DeserializeError;
use tfc::ipc::packet::SerializePacket;
use tfc::ipc::slot::{receive, Delivery};

fn packet_i64(v: i64) -> Vec<u8> {
    let mut buf = Vec::new();
    SerializePacket::new(&v).serialize(&mut buf);
    buf
}

#[test]
fn new_state_filter_takes_changes_and_holds_repeats() {
    let filters = vec![FilterVariant::NewState(NewState {})];
    let mut last: Option<i64> = None;
    assert_eq!(receive(&filters, &packet_i64(5), &mut last), Ok(Delivery::Taken));
    assert_eq!(last, Some(5));
    assert_eq!(
        receive(&filters, &packet_i64(5), &mut last),
        Ok(Delivery::Held(FilterError::SameAsLastValue))
    );
    assert_eq!(last, Some(5));
    assert_eq!(receive(&filters, &packet_i64(-6), &mut last), Ok(Delivery::Taken));
    assert_eq!(last, Some(-6));
}

#[test]
fn without_filters_every_value_is_taken() {
    let filters: Vec<FilterVariant> = Vec::new();
    let mut last: Option<i64> = Some(7);
    assert_eq!(receive(&filters, &packet_i64(7), &mut last), Ok(Delivery::Taken));
    assert_eq!(last, Some(7));
}

#[test]
fn broken_messages_leave_the_slot_alone() {
    let filters = vec![FilterVariant::NewState(NewState {})];
    let mut last: Option<i64> = Some(3);
    let bytes = packet_i64(9);
    assert_eq!(
        receive(&filters, &bytes[..12], &mut last),
        Err(DeserializeError::UnexpectedEof)
    );
    let mut bool_packet = Vec::new();
    SerializePacket::new(&true).serialize(&mut bool_packet);
    assert_eq!(
        receive(&filters, &bool_packet, &mut last),
        Err(DeserializeError::InvalidType)
    );
    let mut bad_version = bytes.clone();
    bad_version[0] = 2;
    assert_eq!(
        receive(&filters, &bad_version, &mut last),
        Err(DeserializeError::InvalidVersion)
    );
    assert_eq!(last, Some(3));
}

#[test]
fn string_slots_hold_back_the_same_text() {
    let filters = vec![FilterVariant::NewState(NewState {})];
    let packet = |s: &str| {
        let mut buf = Vec::new();
        SerializePacket::new(&s.to_string()).serialize(&mut buf);
        buf
    };
    let mut last: Option<String> = None;
    assert_eq!(receive(&filters, &packet("on"), &mut last), Ok(Delivery::Taken));
    assert_eq!(
        receive(&filters, &packet("on"), &mut last),
        Ok(Delivery::Held(FilterError::SameAsLastValue))
    );
    assert_eq!(receive(&filters, &packet("off"), &mut last), Ok(Delivery::Taken));
    assert_eq!(last, Some("off".to_string()));
}
