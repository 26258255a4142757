use node_types::{DecodeError, NodeLocation, Slot, SlotKind};

fn london() -> NodeLocation {
    NodeLocation {
        latitude: 51.5074f32.to_bits(),
        longitude: (-0.1278f32).to_bits(),
        city: String::from("London"),
    }
}

#[test]
fn location_encodes_as_latitude_longitude_city() {
    assert_eq!(
        london().serialize(),
        vec![
            Slot::F32(51.5074f32.to_bits()),
            Slot::F32((-0.1278f32).to_bits()),
            Slot::Text(String::from("London")),
        ]
    );
}

#[test]
fn location_round_trip() {
    let location = london();
    assert_eq!(NodeLocation::deserialize(&location.serialize()), Ok(location));
}

#[test]
fn location_round_trip_gives_the_same_floats() {
    let decoded = NodeLocation::deserialize(&london().serialize()).unwrap();
    assert_eq!(f32::from_bits(decoded.latitude), 51.5074f32);
    assert_eq!(f32::from_bits(decoded.longitude), -0.1278f32);
    assert_eq!(decoded.city, "London");
}

#[test]
fn location_round_trip_keeps_every_bit_pattern() {
    for bits in [
        0.0f32.to_bits(),
        (-0.0f32).to_bits(),
        f32::NAN.to_bits(),
        0x7fc0_0001,
        0xffff_ffff,
        f32::INFINITY.to_bits(),
        f32::NEG_INFINITY.to_bits(),
        f32::MIN_POSITIVE.to_bits(),
        1,
    ] {
        let location = NodeLocation { latitude: bits, longitude: !bits, city: String::new() };
        let decoded = NodeLocation::deserialize(&location.serialize()).unwrap();
        assert_eq!(decoded.latitude, bits);
        assert_eq!(decoded.longitude, !bits);
        assert_eq!(decoded, location);
    }
}

#[test]
fn location_round_trip_keeps_the_city_as_written() {
    for city in ["", " ", "São Paulo", "東京", "a\u{0}b", "New\nYork"] {
        let location = NodeLocation { latitude: 0, longitude: 0, city: String::from(city) };
        let decoded = NodeLocation::deserialize(&location.serialize()).unwrap();
        assert_eq!(decoded.city, city);
    }
}

#[test]
fn locations_differ_when_a_field_differs() {
    let mut other = london();
    other.city = String::from("Londres");
    assert_ne!(other, london());
    let mut other = london();
    other.latitude = 51.5075f32.to_bits();
    assert_ne!(other, london());
    let mut other = london();
    other.longitude = 0.1278f32.to_bits();
    assert_ne!(other, london());
    assert_eq!(london(), london());
}

#[test]
fn a_copy_of_a_location_is_equal_to_it() {
    let copy = london().clone();
    assert_eq!(copy, london());
    assert_eq!(copy.city, "London");
    assert_eq!(copy.latitude, 51.5074f32.to_bits());
    assert_eq!(copy.longitude, (-0.1278f32).to_bits());
}

#[test]
fn location_rejects_a_tuple_of_two() {
    let wire = vec![Slot::F32(0), Slot::F32(0)];
    assert_eq!(
        NodeLocation::deserialize(&wire),
        Err(DecodeError::Arity { expected: 3, found: 2 })
    );
}

#[test]
fn location_rejects_a_tuple_of_four() {
    let wire = vec![Slot::F32(0), Slot::F32(0), Slot::Text(String::new()), Slot::U64(0)];
    assert_eq!(
        NodeLocation::deserialize(&wire),
        Err(DecodeError::Arity { expected: 3, found: 4 })
    );
}

#[test]
fn location_does_not_take_an_integer_for_a_float() {
    let wire = vec![Slot::F32(0), Slot::U64(0), Slot::Text(String::new())];
    assert_eq!(
        NodeLocation::deserialize(&wire),
        Err(DecodeError::Kind { index: 1, expected: SlotKind::F32, found: SlotKind::U64 })
    );
}

#[test]
fn location_does_not_take_a_float_for_the_city() {
    let wire = vec![Slot::F32(0), Slot::F32(0), Slot::F32(0)];
    assert_eq!(
        NodeLocation::deserialize(&wire),
        Err(DecodeError::Kind { index: 2, expected: SlotKind::Text, found: SlotKind::F32 })
    );
}

#[test]
fn location_does_not_take_the_city_first() {
    let wire = vec![Slot::Text(String::from("London")), Slot::F32(0), Slot::F32(0)];
    assert_eq!(
        NodeLocation::deserialize(&wire),
        Err(DecodeError::Kind { index: 0, expected: SlotKind::F32, found: SlotKind::Text })
    );
}

#[test]
fn location_does_not_take_a_digest_for_a_float() {
    let wire = vec![Slot::F32Seq(vec![0]), Slot::F32(0), Slot::Text(String::new())];
    assert_eq!(
        NodeLocation::deserialize(&wire),
        Err(DecodeError::Kind { index: 0, expected: SlotKind::F32, found: SlotKind::F32Seq })
    );
}
