//! Packets: a header that names the version, the type and the size of a
//! value, followed by the value's bytes.
use crate::ipc::codec::{Deserialize, DeserializeError, SerializeSize, TypeIdentifier, WireValue};
use vstd::bytes::*;
use vstd::prelude::*;
use vstd::slice::*;

verus! {

broadcast use vstd::slice::group_slice_axioms;

/// Protocol version of a packet.
#[derive(Clone, Copy, Debug, PartialEq, Eq, Structural)]
pub enum Version {
    Unknown,
    V0,
}

impl Version {
    /// The version byte on the wire.
    pub open spec fn spec_code(self) -> u8 {
        match self {
            Version::Unknown => 0,
            Version::V0 => 1,
        }
    }

    pub fn code(&self) -> (r: u8)
        ensures
            r == self.spec_code(),
    {
        match self {
            Version::Unknown => 0,
            Version::V0 => 1,
        }
    }
}

/// The header of a packet. The value size is written as eight little-endian
/// bytes, the width of `usize` on the 64-bit targets the framework runs on.
#[derive(Clone, Copy, Debug, PartialEq, Eq, Structural)]
pub struct Header {
    pub version: Version,
    pub type_id: u8,
    pub value_size: u64,
}

/// Length of a header on the wire.
pub const HEADER_LEN: usize = 10;

/// The bytes of a header.
pub open spec fn spec_header_bytes(h: Header) -> Seq<u8> {
    seq![h.version.spec_code(), h.type_id] + spec_u64_to_le_bytes(h.value_size)
}

/// The header read from the front of `bytes` for a value of type id `type_id`.
/// A version byte of 0 or 1 is accepted and the header read is of version `V0`.
pub open spec fn spec_deserialize_header(bytes: Seq<u8>, type_id: u8) -> Result<
    Header,
    DeserializeError,
> {
    if bytes.len() < 1 {
        Err(DeserializeError::UnexpectedEof)
    } else if bytes[0] > 1 {
        Err(DeserializeError::InvalidVersion)
    } else if bytes.len() < 10 {
        Err(DeserializeError::UnexpectedEof)
    } else if bytes[1] != type_id {
        Err(DeserializeError::InvalidType)
    } else {
        Ok(
            Header {
                version: Version::V0,
                type_id,
                value_size: spec_u64_from_le_bytes(bytes.subrange(2, 10)),
            },
        )
    }
}

impl Header {
    /// A version `V0` header for a value of type `T` whose bytes number `value_size`.
    pub fn new<T: TypeIdentifier>(value_size: u64) -> (h: Header)
        ensures
            h == (Header { version: Version::V0, type_id: T::spec_type_identifier(), value_size }),
    {
        Header { version: Version::V0, type_id: T::type_identifier(), value_size }
    }

    /// Appends the header's bytes to `writer`.
    pub fn serialize(&self, writer: &mut Vec<u8>)
        ensures
            final(writer)@ == old(writer)@ + spec_header_bytes(*self),
    {
        writer.push(self.version.code());
        writer.push(self.type_id);
        let mut b = u64_to_le_bytes(self.value_size);
        writer.append(&mut b);
    }

    /// Reads a header for a value of type `T` from the front of `bytes`.
    pub fn deserialize<T: TypeIdentifier>(bytes: &[u8]) -> (r: Result<Header, DeserializeError>)
        ensures
            r == spec_deserialize_header(bytes@, T::spec_type_identifier()),
    {
        if bytes.len() < 1 {
            return Err(DeserializeError::UnexpectedEof);
        }
        if bytes[0] > 1 {
            return Err(DeserializeError::InvalidVersion);
        }
        if bytes.len() < 10 {
            return Err(DeserializeError::UnexpectedEof);
        }
        let type_id = bytes[1];
        let size = u64_from_le_bytes(slice_subrange(bytes, 2, 10));
        if type_id != T::type_identifier() {
            return Err(DeserializeError::InvalidType);
        }
        Ok(Header::new::<T>(size))
    }
}

/// The bytes of the packet that carries the value `v` of type `V`.
pub open spec fn spec_packet_bytes<V: SerializeSize + TypeIdentifier>(v: V::V) -> Seq<u8> {
    spec_header_bytes(
        Header {
            version: Version::V0,
            type_id: V::spec_type_identifier(),
            value_size: V::spec_serialize(v).len() as u64,
        },
    ) + V::spec_serialize(v)
}

/// The header and the value read from a packet for a value of type `V`.
/// Bytes after the value are not looked at.
pub open spec fn spec_deserialize_packet<V: Deserialize + TypeIdentifier>(bytes: Seq<u8>) -> Result<
    (Header, V::V),
    DeserializeError,
> {
    match spec_deserialize_header(bytes, V::spec_type_identifier()) {
        Err(e) => Err(e),
        Ok(h) => match V::spec_deserialize(bytes.skip(10)) {
            Err(e) => Err(e),
            Ok((v, _)) => Ok((h, v)),
        },
    }
}

/// A packet to be written, referring to its value.
pub struct SerializePacket<'a, V> {
    pub header: Header,
    pub value: &'a V,
}

impl<'a, V: SerializeSize + TypeIdentifier> SerializePacket<'a, V> {
    /// The packet for `value`, its header naming `V` and the size of the value's bytes.
    pub fn new(value: &'a V) -> (p: Self)
        ensures
            p.header == (Header {
                version: Version::V0,
                type_id: V::spec_type_identifier(),
                value_size: V::spec_serialize(value@).len() as u64,
            }),
            p.value == value,
    {
        let size = value.serialize_size();
        SerializePacket { header: Header::new::<V>(size as u64), value }
    }

    /// Appends the packet's bytes, header then value, to `writer`.
    pub fn serialize(&self, writer: &mut Vec<u8>)
        ensures
            final(writer)@ == old(writer)@ + spec_header_bytes(self.header) + V::spec_serialize(
                self.value@,
            ),
    {
        self.header.serialize(writer);
        self.value.serialize(writer);
    }
}

/// A packet that was read.
pub struct DeserializePacket<V> {
    pub header: Header,
    pub value: V,
}

impl<V: Deserialize + TypeIdentifier> DeserializePacket<V> {
    /// Reads a packet for a value of type `V` from `bytes`.
    pub fn deserialize(bytes: &[u8]) -> (r: Result<Self, DeserializeError>)
        ensures
            match r {
                Ok(p) => spec_deserialize_packet::<V>(bytes@) == Ok::<
                    (Header, V::V),
                    DeserializeError,
                >((p.header, p.value@)),
                Err(e) => spec_deserialize_packet::<V>(bytes@) == Err::<
                    (Header, V::V),
                    DeserializeError,
                >(e),
            },
    {
        let header = Header::deserialize::<V>(bytes)?;
        let (value, _) = V::deserialize(bytes, HEADER_LEN)?;
        Ok(DeserializePacket { header, value })
    }
}

/// Reading a packet back gives the header it was written with and the value
/// it carries.
pub proof fn lemma_packet_roundtrip<V: WireValue>(v: <V as View>::V)
    requires
        V::spec_serialize(v).len() <= u64::MAX,
    ensures
        spec_deserialize_packet::<V>(spec_packet_bytes::<V>(v)) == Ok::<
            (Header, <V as View>::V),
            DeserializeError,
        >(
            (
                Header {
                    version: Version::V0,
                    type_id: V::spec_type_identifier(),
                    value_size: V::spec_serialize(v).len() as u64,
                },
                v,
            ),
        ),
{
    let enc = V::spec_serialize(v);
    let h = Header {
        version: Version::V0,
        type_id: V::spec_type_identifier(),
        value_size: enc.len() as u64,
    };
    let bytes = spec_packet_bytes::<V>(v);
    lemma_auto_spec_u64_to_from_le_bytes();
    assert(bytes.subrange(2, 10) == spec_u64_to_le_bytes(h.value_size));
    assert(bytes.skip(10) == enc);
    V::lemma_deserialize_serialize(v);
}

} // verus!
