use tfc::ipc::codec::DoubleBits;
use tfc::ipc::opcua::{
    DataTypeId, Direction, OpcuaSupportedTypes, ToDataTypeId, Variant, VariantError, ROOT_FOLDER,
};

#[test]
fn value_types_map_to_data_types() {
    assert_eq!(bool::to_data_type_id(), DataTypeId::Boolean);
    assert_eq!(i8::to_data_type_id(), DataTypeId::SByte);
    assert_eq!(u8::to_data_type_id(), DataTypeId::Byte);
    assert_eq!(i16::to_data_type_id(), DataTypeId::Int16);
    assert_eq!(u16::to_data_type_id(), DataTypeId::UInt16);
    assert_eq!(i32::to_data_type_id(), DataTypeId::Int32);
    assert_eq!(u32::to_data_type_id(), DataTypeId::UInt32);
    assert_eq!(i64::to_data_type_id(), DataTypeId::Int64);
    assert_eq!(u64::to_data_type_id(), DataTypeId::UInt64);
    assert_eq!(DoubleBits::to_data_type_id(), DataTypeId::Double);
    assert_eq!(String::to_data_type_id(), DataTypeId::String);
}

#[test]
fn written_values_are_taken_by_type() {
    let r: Result<i64, VariantError> = Variant::Int64(-5).from_variant();
    assert_eq!(r, Ok(-5));
    let r: Result<bool, VariantError> = Variant::Boolean(true).from_variant();
    assert_eq!(r, Ok(true));
    let r: Result<u16, VariantError> = Variant::UInt16(512).from_variant();
    assert_eq!(r, Ok(512));
    let bits = 2.5f64.to_bits();
    let r: Result<DoubleBits, VariantError> = Variant::Double(DoubleBits { bits }).from_variant();
    assert_eq!(r, Ok(DoubleBits { bits }));
}

#[test]
fn written_values_of_another_type_are_refused() {
    let r: Result<i64, VariantError> = Variant::Int32(-5).from_variant();
    assert_eq!(r, Err(VariantError::InvalidVariantType));
    let r: Result<bool, VariantError> = Variant::Empty.from_variant();
    assert_eq!(r, Err(VariantError::InvalidVariantType));
    let r: Result<u8, VariantError> = Variant::String("7".to_string()).from_variant();
    assert_eq!(r, Err(VariantError::InvalidVariantType));
}

#[test]
fn node_names_and_folders() {
    assert_eq!(ROOT_FOLDER, "TFC");
    assert_eq!(Direction::Signal.folder(), "Signal");
    assert_eq!(Direction::Slot.folder(), "Slot");
    assert_eq!(Direction::Signal.type_folder::<bool>(), "Signal/bool");
    assert_eq!(Direction::Slot.type_folder::<i64>(), "Slot/i64");
    assert_eq!(Direction::Signal.node_name::<bool>("run"), "Signal/bool/run");
    assert_eq!(Direction::Slot.node_name::<u64>("speed"), "Slot/u64/speed");
}
