use std::time::{SystemTime, UNIX_EPOCH};

use node_types::clock::{now, timestamp_from};
use node_types::{Block, BlockDetails, BlockHash, ClockError, DecodeError, Slot, SlotKind};

fn some_hash() -> BlockHash {
    let mut bytes = [0u8; 32];
    for (i, byte) in bytes.iter_mut().enumerate() {
        *byte = 0xa0 + i as u8;
    }
    BlockHash::from(bytes)
}

fn some_details() -> BlockDetails {
    BlockDetails {
        block: Block { hash: some_hash(), height: 5 },
        block_time: 2,
        block_timestamp: 1000,
        propagation_time: Some(7),
    }
}

fn millis_now() -> u64 {
    SystemTime::now().duration_since(UNIX_EPOCH).unwrap().as_millis() as u64
}

#[test]
fn zero_block_has_height_zero_and_a_hash_of_32_zero_bytes() {
    let zero = Block::zero();
    assert_eq!(zero.height, 0);
    assert_eq!(zero.hash.as_bytes().len(), 32);
    assert_eq!(zero.hash.to_fixed_bytes(), [0u8; 32]);
    assert_eq!(zero.hash, BlockHash::zero());
}

#[test]
fn zero_block_is_the_same_each_time() {
    assert_eq!(Block::zero(), Block::zero());
    assert_ne!(Block::zero(), Block { hash: some_hash(), height: 0 });
    assert_ne!(Block::zero(), Block { hash: BlockHash::zero(), height: 1 });
}

#[test]
fn details_encode_with_height_and_hash_first() {
    assert_eq!(
        some_details().serialize(),
        vec![
            Slot::U64(5),
            Slot::Hash(some_hash()),
            Slot::U64(2),
            Slot::U64(1000),
            Slot::OptionalU64(Some(7)),
        ]
    );
}

#[test]
fn details_encode_an_absent_propagation_time_in_its_slot() {
    let mut details = some_details();
    details.propagation_time = None;
    let wire = details.serialize();
    assert_eq!(wire.len(), 5);
    assert_eq!(wire[4], Slot::OptionalU64(None));
}

#[test]
fn details_round_trip() {
    let details = some_details();
    assert_eq!(BlockDetails::deserialize(&details.serialize()), Ok(details));
}

#[test]
fn details_round_trip_without_propagation_time() {
    let mut details = some_details();
    details.propagation_time = None;
    assert_eq!(BlockDetails::deserialize(&details.serialize()), Ok(details));
}

#[test]
fn details_round_trip_at_the_extremes() {
    let details = BlockDetails {
        block: Block { hash: BlockHash::from([0xff; 32]), height: u64::MAX },
        block_time: u64::MAX,
        block_timestamp: u64::MAX,
        propagation_time: Some(u64::MAX),
    };
    assert_eq!(BlockDetails::deserialize(&details.serialize()), Ok(details));
    let details = BlockDetails {
        block: Block::zero(),
        block_time: 0,
        block_timestamp: 0,
        propagation_time: Some(0),
    };
    assert_eq!(BlockDetails::deserialize(&details.serialize()), Ok(details));
}

#[test]
fn details_decode_puts_the_block_together_again() {
    let wire = vec![
        Slot::U64(5),
        Slot::Hash(some_hash()),
        Slot::U64(2),
        Slot::U64(1000),
        Slot::OptionalU64(Some(7)),
    ];
    let details = BlockDetails::deserialize(&wire).unwrap();
    assert_eq!(details.block, Block { hash: some_hash(), height: 5 });
    assert_eq!(details.block.hash.to_fixed_bytes()[0], 0xa0);
    assert_eq!(details.block.hash.to_fixed_bytes()[31], 0xbf);
    assert_eq!(details.block_time, 2);
    assert_eq!(details.block_timestamp, 1000);
    assert_eq!(details.propagation_time, Some(7));
}

#[test]
fn details_keep_times_apart() {
    let mut details = some_details();
    details.block_time = 11;
    details.block_timestamp = 22;
    details.propagation_time = Some(33);
    let wire = details.serialize();
    assert_eq!(wire[2], Slot::U64(11));
    assert_eq!(wire[3], Slot::U64(22));
    assert_eq!(wire[4], Slot::OptionalU64(Some(33)));
}

#[test]
fn details_reject_a_tuple_of_four() {
    let mut wire = some_details().serialize();
    wire.pop();
    assert_eq!(
        BlockDetails::deserialize(&wire),
        Err(DecodeError::Arity { expected: 5, found: 4 })
    );
}

#[test]
fn details_reject_a_tuple_of_six() {
    let mut wire = some_details().serialize();
    wire.push(Slot::U64(0));
    assert_eq!(
        BlockDetails::deserialize(&wire),
        Err(DecodeError::Arity { expected: 5, found: 6 })
    );
}

#[test]
fn details_do_not_take_the_hash_first() {
    let mut wire = some_details().serialize();
    wire.swap(0, 1);
    assert_eq!(
        BlockDetails::deserialize(&wire),
        Err(DecodeError::Kind { index: 0, expected: SlotKind::U64, found: SlotKind::Hash })
    );
}

#[test]
fn details_do_not_take_the_block_behind_the_times() {
    let hash = some_hash();
    let wire = vec![
        Slot::U64(2),
        Slot::U64(1000),
        Slot::OptionalU64(Some(7)),
        Slot::U64(5),
        Slot::Hash(hash),
    ];
    assert_eq!(
        BlockDetails::deserialize(&wire),
        Err(DecodeError::Kind { index: 1, expected: SlotKind::Hash, found: SlotKind::U64 })
    );
}

#[test]
fn details_do_not_take_an_integer_for_the_optional_time() {
    let mut wire = some_details().serialize();
    wire[4] = Slot::U64(7);
    assert_eq!(
        BlockDetails::deserialize(&wire),
        Err(DecodeError::Kind {
            index: 4,
            expected: SlotKind::OptionalU64,
            found: SlotKind::U64,
        })
    );
}

#[test]
fn details_do_not_take_a_string_for_the_hash() {
    let mut wire = some_details().serialize();
    wire[1] = Slot::Text(String::from("0xa0a1"));
    assert_eq!(
        BlockDetails::deserialize(&wire),
        Err(DecodeError::Kind { index: 1, expected: SlotKind::Hash, found: SlotKind::Text })
    );
}

#[test]
fn details_do_not_take_an_optional_integer_for_a_time() {
    let mut wire = some_details().serialize();
    wire[3] = Slot::OptionalU64(Some(1000));
    assert_eq!(
        BlockDetails::deserialize(&wire),
        Err(DecodeError::Kind {
            index: 3,
            expected: SlotKind::U64,
            found: SlotKind::OptionalU64,
        })
    );
}

#[test]
fn details_to_start_from() {
    let details = BlockDetails::default_at(1234);
    assert_eq!(details.block, Block::zero());
    assert_eq!(details.block_time, 0);
    assert_eq!(details.block_timestamp, 1234);
    assert_eq!(details.propagation_time, None);
}

#[test]
fn details_to_start_from_encode_like_any_other() {
    assert_eq!(
        BlockDetails::default_at(9).serialize(),
        vec![
            Slot::U64(0),
            Slot::Hash(BlockHash::zero()),
            Slot::U64(0),
            Slot::U64(9),
            Slot::OptionalU64(None),
        ]
    );
}

#[test]
fn details_to_start_from_are_stamped_by_the_clock() {
    let before = millis_now();
    let details = BlockDetails::try_default().unwrap();
    let after = millis_now();
    assert!(before <= details.block_timestamp + 1000);
    assert!(details.block_timestamp <= after + 1000);
    assert_eq!(details.block, Block::zero());
    assert_eq!(details.block_time, 0);
    assert_eq!(details.propagation_time, None);
}

#[test]
fn the_clock_reads_milliseconds_since_the_unix_epoch() {
    let before = millis_now();
    let read = now().unwrap();
    let after = millis_now();
    assert!(before <= read + 1000);
    assert!(read <= after + 1000);
}

#[test]
fn a_reading_in_range_is_its_own_timestamp() {
    assert_eq!(timestamp_from(Some(0)), Ok(0));
    assert_eq!(timestamp_from(Some(1_600_000_000_000)), Ok(1_600_000_000_000));
    assert_eq!(timestamp_from(Some(u64::MAX as u128)), Ok(u64::MAX));
}

#[test]
fn a_reading_past_64_bits_has_no_timestamp() {
    assert_eq!(timestamp_from(Some(u64::MAX as u128 + 1)), Err(ClockError::OutOfRange));
    assert_eq!(timestamp_from(Some(u128::MAX)), Err(ClockError::OutOfRange));
}

#[test]
fn a_clock_before_the_epoch_has_no_timestamp() {
    assert_eq!(timestamp_from(None), Err(ClockError::BeforeUnixEpoch));
}

#[test]
fn details_to_start_from_take_the_timestamp_of_the_reading() {
    let details = BlockDetails::default_from(Ok(1234)).unwrap();
    assert_eq!(details, BlockDetails::default_at(1234));
    assert_eq!(details.block, Block::zero());
    assert_eq!(details.block_time, 0);
    assert_eq!(details.block_timestamp, 1234);
    assert_eq!(details.propagation_time, None);
}

#[test]
fn details_to_start_from_hand_on_the_error_of_the_clock() {
    assert_eq!(
        BlockDetails::default_from(Err(ClockError::BeforeUnixEpoch)),
        Err(ClockError::BeforeUnixEpoch)
    );
    assert_eq!(
        BlockDetails::default_from(Err(ClockError::OutOfRange)),
        Err(ClockError::OutOfRange)
    );
}

#[test]
fn details_to_start_from_round_trip() {
    let details = BlockDetails::default_at(77);
    assert_eq!(BlockDetails::deserialize(&details.serialize()), Ok(details));
}

#[test]
fn details_differ_when_a_field_differs() {
    let details = some_details();
    assert_eq!(details, some_details());
    let mut other = some_details();
    other.block.height = 6;
    assert_ne!(other, details);
    let mut other = some_details();
    other.block.hash = BlockHash::zero();
    assert_ne!(other, details);
    let mut other = some_details();
    other.block_time = 3;
    assert_ne!(other, details);
    let mut other = some_details();
    other.block_timestamp = 1001;
    assert_ne!(other, details);
    let mut other = some_details();
    other.propagation_time = None;
    assert_ne!(other, details);
    let mut other = some_details();
    other.propagation_time = Some(8);
    assert_ne!(other, details);
}

#[test]
fn hashes_are_equal_when_their_bytes_are() {
    let mut bytes = [0u8; 32];
    bytes[31] = 1;
    let left = Block { hash: BlockHash::from(bytes), height: 1 };
    let right = Block { hash: BlockHash::from(bytes), height: 1 };
    assert_eq!(left, right);
    bytes[0] = 1;
    let other = Block { hash: BlockHash::from(bytes), height: 1 };
    assert_ne!(left, other);
}

#[test]
fn a_copy_of_the_details_holds_the_same_hash() {
    let details = some_details();
    let copy = Clone::clone(&details);
    assert_eq!(copy.block.hash, some_hash());
    assert_eq!(copy, details);
}
