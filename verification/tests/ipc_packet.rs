use tfc::ipc::codec::{
    Deserialize, DeserializeError, DoubleBits, MassReading, Serialize, SerializeSize,
    TypeIdentifier, TypeName,
};
use tfc::ipc::packet::{DeserializePacket, Header, SerializePacket, Version};

fn packet_serialize_deserialize<T>(value: T)
where
    T: TypeIdentifier + SerializeSize + Serialize + Deserialize + PartialEq + std::fmt::Debug,
{
    let packet = SerializePacket::new(&value);

    let mut buffer = Vec::new();
    packet.serialize(&mut buffer);

    let deserialized_packet =
        DeserializePacket::<T>::deserialize(&buffer).expect("Deserialization failed");

    assert_eq!(*packet.value, deserialized_packet.value);
    assert_eq!(packet.header.value_size, deserialized_packet.header.value_size);
    assert_eq!(packet.header.type_id, deserialized_packet.header.type_id);
}

fn double(v: f64) -> DoubleBits {
    DoubleBits { bits: v.to_bits() }
}

#[test]
fn test_packet_serialize_deserialize_fundamentals() {
    packet_serialize_deserialize(std::i64::MAX);
    packet_serialize_deserialize(std::i64::MIN);
    packet_serialize_deserialize(1337 as i64);

    packet_serialize_deserialize(std::u64::MAX);
    packet_serialize_deserialize(std::u64::MIN);
    packet_serialize_deserialize(1337 as u64);

    packet_serialize_deserialize(double(std::f64::MAX));
    packet_serialize_deserialize(double(std::f64::MIN));
    packet_serialize_deserialize(double(13.37 as f64));

    packet_serialize_deserialize(true);
    packet_serialize_deserialize(false);
}

#[test]
fn test_packet_serialize_deserialize_string() {
    packet_serialize_deserialize("false".to_string());

    let size = 1024 * 1024;
    let mut long_string = String::with_capacity(size);
    let mut state: u32 = 12345;
    for _ in 0..size {
        state = state.wrapping_mul(1103515245).wrapping_add(12345);
        long_string.push((b'a' + ((state >> 16) % 26) as u8) as char);
    }
    packet_serialize_deserialize(long_string);
    packet_serialize_deserialize("µs and ümlauts".to_string());
}

#[test]
fn test_packet_serialize_deserialize_mass() {
    for amount in [10.0f64, 1333333337.0, -1333333337.0, 13333.33337, -13333.33337] {
        packet_serialize_deserialize(MassReading::Milligrams(amount.to_bits()));
    }
    packet_serialize_deserialize(MassReading::Error(-1));
}

#[test]
fn packet_bytes_are_the_documented_layout() {
    let value: u64 = 0x0102030405060708;
    let packet = SerializePacket::new(&value);
    let mut buffer = Vec::new();
    packet.serialize(&mut buffer);
    assert_eq!(
        buffer,
        vec![1, 3, 8, 0, 0, 0, 0, 0, 0, 0, 8, 7, 6, 5, 4, 3, 2, 1]
    );
    let mut b = Vec::new();
    true.serialize(&mut b);
    assert_eq!(b, vec![1]);
    let mut s = Vec::new();
    "héllo".to_string().serialize(&mut s);
    assert_eq!(s, "héllo".as_bytes().to_vec());
    assert_eq!("héllo".to_string().serialize_size(), 6);
    let mut m = Vec::new();
    MassReading::Error(-2).serialize(&mut m);
    assert_eq!(m, vec![0, 0xfe, 0xff, 0xff, 0xff]);
}

#[test]
fn packet_errors() {
    // wrong type
    let mut buffer = Vec::new();
    SerializePacket::new(&5u64).serialize(&mut buffer);
    assert_eq!(
        DeserializePacket::<i64>::deserialize(&buffer).err(),
        Some(DeserializeError::InvalidType)
    );
    // bad version
    let mut bad = buffer.clone();
    bad[0] = 2;
    assert_eq!(
        DeserializePacket::<u64>::deserialize(&bad).err(),
        Some(DeserializeError::InvalidVersion)
    );
    // version 0 is accepted and read as V0
    let mut v0 = buffer.clone();
    v0[0] = 0;
    let p = DeserializePacket::<u64>::deserialize(&v0).unwrap();
    assert_eq!(p.header.version, Version::V0);
    assert_eq!(p.value, 5);
    // short value
    assert_eq!(
        DeserializePacket::<u64>::deserialize(&buffer[..12]).err(),
        Some(DeserializeError::UnexpectedEof)
    );
    // short header
    assert_eq!(
        DeserializePacket::<u64>::deserialize(&buffer[..5]).err(),
        Some(DeserializeError::UnexpectedEof)
    );
    assert_eq!(
        DeserializePacket::<u64>::deserialize(&[]).err(),
        Some(DeserializeError::UnexpectedEof)
    );
    // invalid utf-8
    let mut sbuf = Vec::new();
    Header::new::<String>(2).serialize(&mut sbuf);
    sbuf.extend_from_slice(&[0xff, 0xfe]);
    assert_eq!(
        DeserializePacket::<String>::deserialize(&sbuf).err(),
        Some(DeserializeError::InvalidUtf8)
    );
    // invalid status byte
    let mut mbuf = Vec::new();
    Header::new::<MassReading>(5).serialize(&mut mbuf);
    mbuf.extend_from_slice(&[7, 0, 0, 0, 0]);
    assert_eq!(
        DeserializePacket::<MassReading>::deserialize(&mbuf).err(),
        Some(DeserializeError::InvalidStatusByte)
    );
}

#[test]
fn type_names_and_identifiers() {
    assert_eq!(bool::wire_name(), "bool");
    assert_eq!(i64::wire_name(), "i64");
    assert_eq!(u64::wire_name(), "u64");
    assert_eq!(DoubleBits::wire_name(), "double");
    assert_eq!(String::wire_name(), "string");
    assert_eq!(bool::type_identifier(), 1);
    assert_eq!(i64::type_identifier(), 2);
    assert_eq!(u64::type_identifier(), 3);
    assert_eq!(DoubleBits::type_identifier(), 4);
    assert_eq!(String::type_identifier(), 5);
    assert_eq!(MassReading::type_identifier(), 7);
}
