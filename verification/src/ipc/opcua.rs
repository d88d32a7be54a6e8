//! How signals and slots appear in an OPC UA address space: the node names
//! and folders they are placed in, the OPC UA data type of each value type,
//! and how a written OPC UA value is taken back as a value of the slot's type.
use crate::ipc::codec::{DoubleBits, TypeName};
use crate::ipc::spec_type_and_name;
use vstd::prelude::*;

verus! {

/// The OPC UA built-in data types that values are exposed as.
#[derive(Clone, Copy, Debug, PartialEq, Eq, Structural)]
pub enum DataTypeId {
    Boolean,
    SByte,
    Byte,
    Int16,
    UInt16,
    Int32,
    UInt32,
    Int64,
    UInt64,
    Float,
    Double,
    String,
}

/// A value type with an OPC UA data type.
pub trait ToDataTypeId {
    spec fn spec_data_type_id() -> DataTypeId;

    fn to_data_type_id() -> (id: DataTypeId)
        ensures
            id == Self::spec_data_type_id(),
    ;
}

impl ToDataTypeId for bool {
    open spec fn spec_data_type_id() -> DataTypeId {
        DataTypeId::Boolean
    }

    fn to_data_type_id() -> (id: DataTypeId) {
        DataTypeId::Boolean
    }
}

impl ToDataTypeId for i8 {
    open spec fn spec_data_type_id() -> DataTypeId {
        DataTypeId::SByte
    }

    fn to_data_type_id() -> (id: DataTypeId) {
        DataTypeId::SByte
    }
}

impl ToDataTypeId for u8 {
    open spec fn spec_data_type_id() -> DataTypeId {
        DataTypeId::Byte
    }

    fn to_data_type_id() -> (id: DataTypeId) {
        DataTypeId::Byte
    }
}

impl ToDataTypeId for i16 {
    open spec fn spec_data_type_id() -> DataTypeId {
        DataTypeId::Int16
    }

    fn to_data_type_id() -> (id: DataTypeId) {
        DataTypeId::Int16
    }
}

impl ToDataTypeId for u16 {
    open spec fn spec_data_type_id() -> DataTypeId {
        DataTypeId::UInt16
    }

    fn to_data_type_id() -> (id: DataTypeId) {
        DataTypeId::UInt16
    }
}

impl ToDataTypeId for i32 {
    open spec fn spec_data_type_id() -> DataTypeId {
        DataTypeId::Int32
    }

    fn to_data_type_id() -> (id: DataTypeId) {
        DataTypeId::Int32
    }
}

impl ToDataTypeId for u32 {
    open spec fn spec_data_type_id() -> DataTypeId {
        DataTypeId::UInt32
    }

    fn to_data_type_id() -> (id: DataTypeId) {
        DataTypeId::UInt32
    }
}

impl ToDataTypeId for i64 {
    open spec fn spec_data_type_id() -> DataTypeId {
        DataTypeId::Int64
    }

    fn to_data_type_id() -> (id: DataTypeId) {
        DataTypeId::Int64
    }
}

impl ToDataTypeId for u64 {
    open spec fn spec_data_type_id() -> DataTypeId {
        DataTypeId::UInt64
    }

    fn to_data_type_id() -> (id: DataTypeId) {
        DataTypeId::UInt64
    }
}

impl ToDataTypeId for DoubleBits {
    open spec fn spec_data_type_id() -> DataTypeId {
        DataTypeId::Double
    }

    fn to_data_type_id() -> (id: DataTypeId) {
        DataTypeId::Double
    }
}

impl ToDataTypeId for String {
    open spec fn spec_data_type_id() -> DataTypeId {
        DataTypeId::String
    }

    fn to_data_type_id() -> (id: DataTypeId) {
        DataTypeId::String
    }
}

/// An OPC UA value as written by a client.
#[derive(Clone, Debug, PartialEq, Eq)]
pub enum Variant {
    Empty,
    Boolean(bool),
    SByte(i8),
    Byte(u8),
    Int16(i16),
    UInt16(u16),
    Int32(i32),
    UInt32(u32),
    Int64(i64),
    UInt64(u64),
    Double(DoubleBits),
    String(String),
}

/// A written OPC UA value is not of the slot's type.
#[derive(Clone, Copy, Debug, PartialEq, Eq, Structural)]
pub enum VariantError {
    InvalidVariantType,
}

/// Value types that can be taken from an OPC UA value.
pub trait OpcuaSupportedTypes<T> {
    /// The value of type `T` held, if the variant is the one for `T`.
    spec fn spec_from_variant(&self) -> Option<T>;

    fn from_variant(&self) -> (r: Result<T, VariantError>)
        ensures
            match self.spec_from_variant() {
                Some(v) => r == Ok::<T, VariantError>(v),
                None => r == Err::<T, VariantError>(VariantError::InvalidVariantType),
            },
    ;
}

impl OpcuaSupportedTypes<bool> for Variant {
    open spec fn spec_from_variant(&self) -> Option<bool> {
        match self {
            Variant::Boolean(v) => Some(*v),
            _ => None,
        }
    }

    fn from_variant(&self) -> (r: Result<bool, VariantError>) {
        match self {
            Variant::Boolean(v) => Ok(*v),
            _ => Err(VariantError::InvalidVariantType),
        }
    }
}

impl OpcuaSupportedTypes<i8> for Variant {
    open spec fn spec_from_variant(&self) -> Option<i8> {
        match self {
            Variant::SByte(v) => Some(*v),
            _ => None,
        }
    }

    fn from_variant(&self) -> (r: Result<i8, VariantError>) {
        match self {
            Variant::SByte(v) => Ok(*v),
            _ => Err(VariantError::InvalidVariantType),
        }
    }
}

impl OpcuaSupportedTypes<u8> for Variant {
    open spec fn spec_from_variant(&self) -> Option<u8> {
        match self {
            Variant::Byte(v) => Some(*v),
            _ => None,
        }
    }

    fn from_variant(&self) -> (r: Result<u8, VariantError>) {
        match self {
            Variant::Byte(v) => Ok(*v),
            _ => Err(VariantError::InvalidVariantType),
        }
    }
}

impl OpcuaSupportedTypes<i16> for Variant {
    open spec fn spec_from_variant(&self) -> Option<i16> {
        match self {
            Variant::Int16(v) => Some(*v),
            _ => None,
        }
    }

    fn from_variant(&self) -> (r: Result<i16, VariantError>) {
        match self {
            Variant::Int16(v) => Ok(*v),
            _ => Err(VariantError::InvalidVariantType),
        }
    }
}

impl OpcuaSupportedTypes<u16> for Variant {
    open spec fn spec_from_variant(&self) -> Option<u16> {
        match self {
            Variant::UInt16(v) => Some(*v),
            _ => None,
        }
    }

    fn from_variant(&self) -> (r: Result<u16, VariantError>) {
        match self {
            Variant::UInt16(v) => Ok(*v),
            _ => Err(VariantError::InvalidVariantType),
        }
    }
}

impl OpcuaSupportedTypes<i32> for Variant {
    open spec fn spec_from_variant(&self) -> Option<i32> {
        match self {
            Variant::Int32(v) => Some(*v),
            _ => None,
        }
    }

    fn from_variant(&self) -> (r: Result<i32, VariantError>) {
        match self {
            Variant::Int32(v) => Ok(*v),
            _ => Err(VariantError::InvalidVariantType),
        }
    }
}

impl OpcuaSupportedTypes<u32> for Variant {
    open spec fn spec_from_variant(&self) -> Option<u32> {
        match self {
            Variant::UInt32(v) => Some(*v),
            _ => None,
        }
    }

    fn from_variant(&self) -> (r: Result<u32, VariantError>) {
        match self {
            Variant::UInt32(v) => Ok(*v),
            _ => Err(VariantError::InvalidVariantType),
        }
    }
}

impl OpcuaSupportedTypes<i64> for Variant {
    open spec fn spec_from_variant(&self) -> Option<i64> {
        match self {
            Variant::Int64(v) => Some(*v),
            _ => None,
        }
    }

    fn from_variant(&self) -> (r: Result<i64, VariantError>) {
        match self {
            Variant::Int64(v) => Ok(*v),
            _ => Err(VariantError::InvalidVariantType),
        }
    }
}

impl OpcuaSupportedTypes<u64> for Variant {
    open spec fn spec_from_variant(&self) -> Option<u64> {
        match self {
            Variant::UInt64(v) => Some(*v),
            _ => None,
        }
    }

    fn from_variant(&self) -> (r: Result<u64, VariantError>) {
        match self {
            Variant::UInt64(v) => Ok(*v),
            _ => Err(VariantError::InvalidVariantType),
        }
    }
}

impl OpcuaSupportedTypes<DoubleBits> for Variant {
    open spec fn spec_from_variant(&self) -> Option<DoubleBits> {
        match self {
            Variant::Double(v) => Some(*v),
            _ => None,
        }
    }

    fn from_variant(&self) -> (r: Result<DoubleBits, VariantError>) {
        match self {
            Variant::Double(v) => Ok(*v),
            _ => Err(VariantError::InvalidVariantType),
        }
    }
}

/// Whether a node stands for a signal (published) or a slot (written).
#[derive(Clone, Copy, Debug, PartialEq, Eq, Structural)]
pub enum Direction {
    Signal,
    Slot,
}

/// "Signal" or "Slot".
pub open spec fn spec_direction_name(direction: Direction) -> Seq<char> {
    match direction {
        Direction::Signal => "Signal"@,
        Direction::Slot => "Slot"@,
    }
}

/// The name of the root folder of all nodes.
pub const ROOT_FOLDER: &'static str = "TFC";

impl Direction {
    /// The folder under the root that holds the nodes of this direction.
    pub fn folder(self) -> (s: &'static str)
        ensures
            s@ == spec_direction_name(self),
    {
        proof {
            reveal_strlit("Signal");
            reveal_strlit("Slot");
        }
        match self {
            Direction::Signal => "Signal",
            Direction::Slot => "Slot",
        }
    }

    /// `<direction>/<type name>`: the folder holding the nodes of values of
    /// type `T`, unless a parent node is given.
    pub fn type_folder<T: TypeName>(self) -> (s: String)
        ensures
            s@ == spec_direction_name(self) + "/"@ + T::spec_type_name(),
    {
        let s = String::from_str(self.folder());
        let s = s.concat("/");
        s.concat(T::wire_name())
    }

    /// `<direction>/<type name>/<name>`: the node of the value named `name`.
    pub fn node_name<T: TypeName>(self, name: &str) -> (s: String)
        ensures
            s@ == spec_direction_name(self) + "/"@ + spec_type_and_name::<T>(name@),
    {
        let s = String::from_str(self.folder());
        let s = s.concat("/");
        let s = s.concat(T::wire_name());
        let s = s.concat("/");
        let s = s.concat(name);
        proof {
            assert(s@ =~= spec_direction_name(self) + "/"@ + spec_type_and_name::<T>(name@));
        }
        s
    }
}

} // verus!
