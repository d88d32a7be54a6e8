//! The wire format of IPC values.
//!
//! A packet is a header followed by the value:
//!
//! ```text
//! | version: u8 | type id: u8 | value size: u64 LE | value bytes ... |
//! ```
//!
//! Integers travel little-endian, a `bool` as one byte, a string as its UTF-8
//! bytes up to the end of the packet, a double as the little-endian bytes of
//! its IEEE-754 bit pattern.
use crate::filter::SameValue;
use vstd::bytes::*;
use vstd::prelude::*;
use vstd::slice::*;
use vstd::utf8::*;

verus! {

broadcast use vstd::slice::group_slice_axioms;

/// Why a byte sequence could not be read as a value or a packet.
#[derive(Clone, Copy, Debug, PartialEq, Eq, Structural)]
pub enum DeserializeError {
    /// The bytes ended before the value did.
    UnexpectedEof,
    /// The header's version byte is neither 0 nor 1.
    InvalidVersion,
    /// The header names another type than the one asked for.
    InvalidType,
    /// A string's bytes are not UTF-8.
    InvalidUtf8,
    /// The status byte of a mass reading is neither 0 nor 1.
    InvalidStatusByte,
}

/// The name under which a value type is published ("bool", "i64", ...).
pub trait TypeName {
    spec fn spec_type_name() -> Seq<char>;

    fn wire_name() -> (r: &'static str)
        ensures
            r@ == Self::spec_type_name(),
    ;
}

/// The numeric identifier of a value type on the wire.
pub trait TypeIdentifier {
    spec fn spec_type_identifier() -> u8;

    fn type_identifier() -> (r: u8)
        ensures
            r == Self::spec_type_identifier(),
    ;
}

/// Values that can be written as bytes.
pub trait Serialize: View {
    /// The bytes that stand for a value.
    spec fn spec_serialize(v: Self::V) -> Seq<u8>;

    /// Appends the bytes of `self` to `writer`.
    fn serialize(&self, writer: &mut Vec<u8>)
        ensures
            final(writer)@ == old(writer)@ + Self::spec_serialize(self@),
    ;
}

/// Values that know the length of their own bytes.
pub trait SerializeSize: Serialize {
    fn serialize_size(&self) -> (r: usize)
        ensures
            r as int == Self::spec_serialize(self@).len(),
    ;
}

/// Whether an executable read `r`, started at `pos`, agrees with the
/// specified read `s` of the bytes from `pos` on.
pub open spec fn read_agrees<T: View>(
    r: Result<(T, usize), DeserializeError>,
    s: Result<(T::V, nat), DeserializeError>,
    pos: usize,
) -> bool {
    match r {
        Ok((v, end)) => s matches Ok((w, n)) && v@ == w && end == pos + n,
        Err(e) => s == Err::<(T::V, nat), DeserializeError>(e),
    }
}

/// Values that can be read back from bytes.
pub trait Deserialize: View + Sized {
    /// The value at the front of `bytes` and how many bytes it takes, or why there is none.
    spec fn spec_deserialize(bytes: Seq<u8>) -> Result<(Self::V, nat), DeserializeError>;

    /// Reads a value from `bytes` starting at `pos`; on success also returns
    /// the position just after it.
    fn deserialize(bytes: &[u8], pos: usize) -> (r: Result<(Self, usize), DeserializeError>)
        requires
            pos <= bytes@.len(),
        ensures
            read_agrees(r, Self::spec_deserialize(bytes@.skip(pos as int)), pos),
            r matches Ok((_, end)) ==> end <= bytes@.len(),
    ;
}

/// Value types whose bytes read back as the same value.
pub trait WireValue: TypeIdentifier + SerializeSize + Deserialize {
    /// Reading the bytes of `v` gives back `v`, having used all of them.
    proof fn lemma_deserialize_serialize(v: <Self as View>::V)
        ensures
            Self::spec_deserialize(Self::spec_serialize(v)) == Ok::<
                (<Self as View>::V, nat),
                DeserializeError,
            >((v, Self::spec_serialize(v).len())),
    ;
}

/// Reads `n` bytes at `pos`, or reports that the input ended first.
fn take_bytes(bytes: &[u8], pos: usize, n: usize) -> (r: Result<&[u8], DeserializeError>)
    requires
        pos <= bytes@.len(),
        n <= 16,
    ensures
        match r {
            Ok(s) => pos + n <= bytes@.len() && pos + n <= usize::MAX && s@ == bytes@.subrange(pos as int, pos + n),
            Err(e) => pos + n > bytes@.len() && e == DeserializeError::UnexpectedEof,
        },
{
    if bytes.len() - pos < n {
        Err(DeserializeError::UnexpectedEof)
    } else {
        Ok(slice_subrange(bytes, pos, pos + n))
    }
}

// ------------------------------------------------------------------ bool

impl TypeName for bool {
    open spec fn spec_type_name() -> Seq<char> {
        "bool"@
    }

    fn wire_name() -> (r: &'static str) {
        "bool"
    }
}

impl TypeIdentifier for bool {
    open spec fn spec_type_identifier() -> u8 {
        1
    }

    fn type_identifier() -> (r: u8) {
        1
    }
}

impl Serialize for bool {
    open spec fn spec_serialize(v: bool) -> Seq<u8> {
        seq![if v { 1u8 } else { 0u8 }]
    }

    fn serialize(&self, writer: &mut Vec<u8>) {
        writer.push(if *self { 1u8 } else { 0u8 });
    }
}

impl SerializeSize for bool {
    fn serialize_size(&self) -> (r: usize) {
        1
    }
}

impl Deserialize for bool {
    open spec fn spec_deserialize(bytes: Seq<u8>) -> Result<(bool, nat), DeserializeError> {
        if bytes.len() < 1 {
            Err(DeserializeError::UnexpectedEof)
        } else {
            Ok((bytes[0] != 0, 1))
        }
    }

    fn deserialize(bytes: &[u8], pos: usize) -> (r: Result<(bool, usize), DeserializeError>) {
        let s = take_bytes(bytes, pos, 1)?;
        Ok((s[0] != 0, pos + 1))
    }
}

impl WireValue for bool {
    proof fn lemma_deserialize_serialize(v: bool) {
    }
}

// ------------------------------------------------------------------ u64

impl TypeName for u64 {
    open spec fn spec_type_name() -> Seq<char> {
        "u64"@
    }

    fn wire_name() -> (r: &'static str) {
        "u64"
    }
}

impl TypeIdentifier for u64 {
    open spec fn spec_type_identifier() -> u8 {
        3
    }

    fn type_identifier() -> (r: u8) {
        3
    }
}

impl Serialize for u64 {
    open spec fn spec_serialize(v: u64) -> Seq<u8> {
        spec_u64_to_le_bytes(v)
    }

    fn serialize(&self, writer: &mut Vec<u8>) {
        let mut b = u64_to_le_bytes(*self);
        writer.append(&mut b);
    }
}

impl SerializeSize for u64 {
    fn serialize_size(&self) -> (r: usize) {
        proof {
            lemma_auto_spec_u64_to_from_le_bytes();
        }
        8
    }
}

impl Deserialize for u64 {
    open spec fn spec_deserialize(bytes: Seq<u8>) -> Result<(u64, nat), DeserializeError> {
        if bytes.len() < 8 {
            Err(DeserializeError::UnexpectedEof)
        } else {
            Ok((spec_u64_from_le_bytes(bytes.subrange(0, 8)), 8))
        }
    }

    fn deserialize(bytes: &[u8], pos: usize) -> (r: Result<(u64, usize), DeserializeError>) {
        let s = take_bytes(bytes, pos, 8)?;
        assert(s@ == bytes@.skip(pos as int).subrange(0, 8));
        Ok((u64_from_le_bytes(s), pos + 8))
    }
}

impl WireValue for u64 {
    proof fn lemma_deserialize_serialize(v: u64) {
        lemma_auto_spec_u64_to_from_le_bytes();
        assert(spec_u64_to_le_bytes(v).subrange(0, 8) == spec_u64_to_le_bytes(v));
    }
}

// ------------------------------------------------------------------ i64

impl TypeName for i64 {
    open spec fn spec_type_name() -> Seq<char> {
        "i64"@
    }

    fn wire_name() -> (r: &'static str) {
        "i64"
    }
}

impl TypeIdentifier for i64 {
    open spec fn spec_type_identifier() -> u8 {
        2
    }

    fn type_identifier() -> (r: u8) {
        2
    }
}

impl Serialize for i64 {
    open spec fn spec_serialize(v: i64) -> Seq<u8> {
        spec_u64_to_le_bytes(v as u64)
    }

    fn serialize(&self, writer: &mut Vec<u8>) {
        let mut b = u64_to_le_bytes(*self as u64);
        writer.append(&mut b);
    }
}

impl SerializeSize for i64 {
    fn serialize_size(&self) -> (r: usize) {
        proof {
            lemma_auto_spec_u64_to_from_le_bytes();
        }
        8
    }
}

impl Deserialize for i64 {
    open spec fn spec_deserialize(bytes: Seq<u8>) -> Result<(i64, nat), DeserializeError> {
        if bytes.len() < 8 {
            Err(DeserializeError::UnexpectedEof)
        } else {
            Ok((spec_u64_from_le_bytes(bytes.subrange(0, 8)) as i64, 8))
        }
    }

    fn deserialize(bytes: &[u8], pos: usize) -> (r: Result<(i64, usize), DeserializeError>) {
        let s = take_bytes(bytes, pos, 8)?;
        assert(s@ == bytes@.skip(pos as int).subrange(0, 8));
        Ok((u64_from_le_bytes(s) as i64, pos + 8))
    }
}

impl WireValue for i64 {
    proof fn lemma_deserialize_serialize(v: i64) {
        lemma_auto_spec_u64_to_from_le_bytes();
        let u = v as u64;
        assert(spec_u64_to_le_bytes(u).subrange(0, 8) == spec_u64_to_le_bytes(u));
        assert((u as i64) == v) by (bit_vector)
            requires
                u == v as u64,
        ;
    }
}

// ------------------------------------------------------------------ String

/// `String::from_utf8` with its error dropped.
///
/// Trusted: std documents that `String::from_utf8` succeeds exactly when the
/// bytes are valid UTF-8 and then holds the characters they encode; the
/// contract states that over vstd's UTF-8 model.
#[verifier::external_body]
fn string_from_utf8(bytes: Vec<u8>) -> (r: Option<String>)
    ensures
        r is Some <==> valid_utf8(bytes@),
        r matches Some(s) ==> s@ == decode_utf8(bytes@),
{
    String::from_utf8(bytes).ok()
}

impl TypeName for String {
    open spec fn spec_type_name() -> Seq<char> {
        "string"@
    }

    fn wire_name() -> (r: &'static str) {
        "string"
    }
}

impl TypeIdentifier for String {
    open spec fn spec_type_identifier() -> u8 {
        5
    }

    fn type_identifier() -> (r: u8) {
        5
    }
}

impl Serialize for String {
    open spec fn spec_serialize(v: Seq<char>) -> Seq<u8> {
        encode_utf8(v)
    }

    fn serialize(&self, writer: &mut Vec<u8>) {
        let b = self.as_str().as_bytes();
        let mut v = slice_to_vec(b);
        writer.append(&mut v);
    }
}

impl SerializeSize for String {
    fn serialize_size(&self) -> (r: usize) {
        self.as_str().as_bytes().len()
    }
}

impl Deserialize for String {
    open spec fn spec_deserialize(bytes: Seq<u8>) -> Result<(Seq<char>, nat), DeserializeError> {
        if valid_utf8(bytes) {
            Ok((decode_utf8(bytes), bytes.len()))
        } else {
            Err(DeserializeError::InvalidUtf8)
        }
    }

    fn deserialize(bytes: &[u8], pos: usize) -> (r: Result<(String, usize), DeserializeError>) {
        let rest = slice_subrange(bytes, pos, bytes.len());
        let v = slice_to_vec(rest);
        assert(v@ == bytes@.skip(pos as int));
        match string_from_utf8(v) {
            Some(s) => Ok((s, bytes.len())),
            None => Err(DeserializeError::InvalidUtf8),
        }
    }
}

impl WireValue for String {
    proof fn lemma_deserialize_serialize(v: Seq<char>) {
        encode_utf8_valid_utf8(v);
        encode_utf8_decode_utf8(v);
    }
}

// ------------------------------------------------------------------ double

/// A double-precision float carried by its IEEE-754 bit pattern
/// (`f64::to_bits`); its bytes on the wire are those of the float.
#[derive(Clone, Copy, Debug, PartialEq, Eq, Structural)]
pub struct DoubleBits {
    pub bits: u64,
}

impl SameValue for DoubleBits {
    fn same(&self, other: &Self) -> (r: bool) {
        self.bits == other.bits
    }
}

impl View for DoubleBits {
    type V = u64;

    open spec fn view(&self) -> u64 {
        self.bits
    }
}

impl TypeName for DoubleBits {
    open spec fn spec_type_name() -> Seq<char> {
        "double"@
    }

    fn wire_name() -> (r: &'static str) {
        "double"
    }
}

impl TypeIdentifier for DoubleBits {
    open spec fn spec_type_identifier() -> u8 {
        4
    }

    fn type_identifier() -> (r: u8) {
        4
    }
}

impl Serialize for DoubleBits {
    open spec fn spec_serialize(v: u64) -> Seq<u8> {
        spec_u64_to_le_bytes(v)
    }

    fn serialize(&self, writer: &mut Vec<u8>) {
        let mut b = u64_to_le_bytes(self.bits);
        writer.append(&mut b);
    }
}

impl SerializeSize for DoubleBits {
    fn serialize_size(&self) -> (r: usize) {
        proof {
            lemma_auto_spec_u64_to_from_le_bytes();
        }
        8
    }
}

impl Deserialize for DoubleBits {
    open spec fn spec_deserialize(bytes: Seq<u8>) -> Result<(u64, nat), DeserializeError> {
        if bytes.len() < 8 {
            Err(DeserializeError::UnexpectedEof)
        } else {
            Ok((spec_u64_from_le_bytes(bytes.subrange(0, 8)), 8))
        }
    }

    fn deserialize(bytes: &[u8], pos: usize) -> (r: Result<(DoubleBits, usize), DeserializeError>) {
        let s = take_bytes(bytes, pos, 8)?;
        assert(s@ == bytes@.skip(pos as int).subrange(0, 8));
        Ok((DoubleBits { bits: u64_from_le_bytes(s) }, pos + 8))
    }
}

impl WireValue for DoubleBits {
    proof fn lemma_deserialize_serialize(v: u64) {
        lemma_auto_spec_u64_to_from_le_bytes();
        assert(spec_u64_to_le_bytes(v).subrange(0, 8) == spec_u64_to_le_bytes(v));
    }
}

// ------------------------------------------------------------------ mass

/// A load-cell reading: a mass in milligrams (the bit pattern of its
/// double-precision amount) or an error code.
#[derive(Clone, Copy, Debug, PartialEq, Eq, Structural)]
pub enum MassReading {
    Milligrams(u64),
    Error(i32),
}

impl SameValue for MassReading {
    fn same(&self, other: &Self) -> (r: bool) {
        *self == *other
    }
}

impl View for MassReading {
    type V = MassReading;

    open spec fn view(&self) -> MassReading {
        *self
    }
}

impl TypeIdentifier for MassReading {
    open spec fn spec_type_identifier() -> u8 {
        7
    }

    fn type_identifier() -> (r: u8) {
        7
    }
}

impl Serialize for MassReading {
    /// A status byte (1 for a mass, 0 for an error) and then the amount or the code.
    open spec fn spec_serialize(v: MassReading) -> Seq<u8> {
        match v {
            MassReading::Milligrams(b) => seq![1u8] + spec_u64_to_le_bytes(b),
            MassReading::Error(e) => seq![0u8] + spec_u32_to_le_bytes(e as u32),
        }
    }

    fn serialize(&self, writer: &mut Vec<u8>) {
        match self {
            MassReading::Milligrams(b) => {
                writer.push(1u8);
                let mut v = u64_to_le_bytes(*b);
                writer.append(&mut v);
            },
            MassReading::Error(e) => {
                writer.push(0u8);
                let mut v = u32_to_le_bytes(*e as u32);
                writer.append(&mut v);
            },
        }
    }
}

impl SerializeSize for MassReading {
    fn serialize_size(&self) -> (r: usize) {
        proof {
            lemma_auto_spec_u64_to_from_le_bytes();
            lemma_auto_spec_u32_to_from_le_bytes();
        }
        match self {
            MassReading::Milligrams(_) => 9,
            MassReading::Error(_) => 5,
        }
    }
}

impl Deserialize for MassReading {
    open spec fn spec_deserialize(bytes: Seq<u8>) -> Result<(MassReading, nat), DeserializeError> {
        if bytes.len() < 1 {
            Err(DeserializeError::UnexpectedEof)
        } else if bytes[0] == 1 {
            if bytes.len() < 9 {
                Err(DeserializeError::UnexpectedEof)
            } else {
                Ok((MassReading::Milligrams(spec_u64_from_le_bytes(bytes.subrange(1, 9))), 9))
            }
        } else if bytes[0] == 0 {
            if bytes.len() < 5 {
                Err(DeserializeError::UnexpectedEof)
            } else {
                Ok((MassReading::Error(spec_u32_from_le_bytes(bytes.subrange(1, 5)) as i32), 5))
            }
        } else {
            Err(DeserializeError::InvalidStatusByte)
        }
    }

    fn deserialize(bytes: &[u8], pos: usize) -> (r: Result<(MassReading, usize), DeserializeError>) {
        let status = take_bytes(bytes, pos, 1)?;
        let status = status[0];
        if status == 1 {
            let s = take_bytes(bytes, pos + 1, 8)?;
            assert(s@ == bytes@.skip(pos as int).subrange(1, 9));
            Ok((MassReading::Milligrams(u64_from_le_bytes(s)), pos + 9))
        } else if status == 0 {
            let s = take_bytes(bytes, pos + 1, 4)?;
            assert(s@ == bytes@.skip(pos as int).subrange(1, 5));
            Ok((MassReading::Error(u32_from_le_bytes(s) as i32), pos + 5))
        } else {
            Err(DeserializeError::InvalidStatusByte)
        }
    }
}

impl WireValue for MassReading {
    proof fn lemma_deserialize_serialize(v: MassReading) {
        lemma_auto_spec_u64_to_from_le_bytes();
        lemma_auto_spec_u32_to_from_le_bytes();
        match v {
            MassReading::Milligrams(b) => {
                let s = MassReading::spec_serialize(v);
                assert(s.subrange(1, 9) == spec_u64_to_le_bytes(b));
            },
            MassReading::Error(e) => {
                let s = MassReading::spec_serialize(v);
                let u = e as u32;
                assert(s.subrange(1, 5) == spec_u32_to_le_bytes(u));
                assert((u as i32) == e) by (bit_vector)
                    requires
                        u == e as u32,
                ;
            },
        }
    }
}

} // verus!
