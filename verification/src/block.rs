//! Where a chain stands: its best block, and when that block was seen.

use vstd::prelude::*;

use crate::clock::{now, ClockError, Timestamp};
use crate::hash::{hash_bytes, hash_eq, hash_from_bytes, BlockHash};
use crate::read::{expect_arity, read_hash, read_optional_u64, read_u64};
use crate::wire::{conforms, shape_error, DecodeError, Slot, SlotKind, SlotView};

verus! {

/// The height of a block in its chain.
pub type BlockNumber = u64;

/// Concise block details.
#[derive(Debug, Clone, Copy)]
pub struct Block {
    pub hash: BlockHash,
    pub height: BlockNumber,
}

/// A block as a mathematical value: the bytes of its hash, and its height.
pub ghost struct BlockView {
    pub hash: Seq<u8>,
    pub height: u64,
}

impl BlockView {
    /// The block that stands for "no block seen yet": height 0, and a hash
    /// of 32 zero bytes.
    pub open spec fn zero() -> BlockView {
        BlockView { hash: Seq::new(32, |i: int| 0u8), height: 0 }
    }
}

impl View for Block {
    type V = BlockView;

    open spec fn view(&self) -> BlockView {
        BlockView { hash: hash_bytes(self.hash), height: self.height }
    }
}

impl PartialEq for Block {
    /// Two blocks are equal when they are at the same height and their
    /// hashes hold the same bytes.
    fn eq(&self, other: &Block) -> (equal: bool) {
        hash_eq(&self.hash, &other.hash) && self.height == other.height
    }
}

impl vstd::std_specs::cmp::PartialEqSpecImpl for Block {
    open spec fn obeys_eq_spec() -> bool {
        true
    }

    open spec fn eq_spec(&self, other: &Block) -> bool {
        self@ == other@
    }
}

impl Block {
    /// The block that stands for "no block seen yet".
    pub fn zero() -> (block: Block)
        ensures
            block.height == 0,
            hash_bytes(block.hash).len() == 32,
            forall|i: int| 0 <= i < 32 ==> hash_bytes(block.hash)[i] == 0,
            block@ == BlockView::zero(),
    {
        let block = Block { hash: hash_from_bytes([0u8; 32]), height: 0 };
        assert(hash_bytes(block.hash) =~= BlockView::zero().hash);
        block
    }
}

/// Verbose block details.
#[derive(Debug, Clone, Copy)]
pub struct BlockDetails {
    pub block: Block,
    /// How long the block took to build.
    pub block_time: u64,
    /// The wall-clock time at which the block was seen.
    pub block_timestamp: Timestamp,
    /// How long the block took to arrive, if that is known.
    pub propagation_time: Option<u64>,
}

/// Block details as a mathematical value.
pub ghost struct BlockDetailsView {
    pub block: BlockView,
    pub block_time: u64,
    pub block_timestamp: Timestamp,
    pub propagation_time: Option<u64>,
}

impl BlockDetailsView {
    /// The details of a chain on which no block has been seen yet, as
    /// observed at the time `now`.
    pub open spec fn initial(now: Timestamp) -> BlockDetailsView {
        BlockDetailsView {
            block: BlockView::zero(),
            block_time: 0,
            block_timestamp: now,
            propagation_time: None,
        }
    }
}

impl View for BlockDetails {
    type V = BlockDetailsView;

    open spec fn view(&self) -> BlockDetailsView {
        BlockDetailsView {
            block: self.block@,
            block_time: self.block_time,
            block_timestamp: self.block_timestamp,
            propagation_time: self.propagation_time,
        }
    }
}

impl PartialEq for BlockDetails {
    /// Two details are equal when they are the same field for field.
    fn eq(&self, other: &BlockDetails) -> (equal: bool) {
        self.block == other.block && self.block_time == other.block_time
            && self.block_timestamp == other.block_timestamp && self.propagation_time
            == other.propagation_time
    }
}

impl vstd::std_specs::cmp::PartialEqSpecImpl for BlockDetails {
    open spec fn obeys_eq_spec() -> bool {
        true
    }

    open spec fn eq_spec(&self, other: &BlockDetails) -> bool {
        self@ == other@
    }
}

impl BlockDetails {
    /// The details to start from, for an observer whose clock reads `now`:
    /// the zero block, no build time, no propagation time.
    pub fn default_at(now: Timestamp) -> (details: BlockDetails)
        ensures
            details@ == BlockDetailsView::initial(now),
    {
        BlockDetails {
            block: Block::zero(),
            block_timestamp: now,
            block_time: 0,
            propagation_time: None,
        }
    }

    /// The details to start from, stamped with the wall clock as it reads
    /// now. The clock is read once. If it cannot be read there are no
    /// details to start from, and its error is handed on.
    pub fn try_default() -> (r: Result<BlockDetails, ClockError>)
        ensures
            r matches Ok(details) ==> details@ == BlockDetailsView::initial(
                details.block_timestamp,
            ),
    {
        Self::default_from(now())
    }

    /// The details to start from, for what a reading of the clock gave:
    /// stamped with the timestamp where there is one, and else the error of
    /// the clock, unchanged.
    pub fn default_from(reading: Result<Timestamp, ClockError>) -> (r: Result<
        BlockDetails,
        ClockError,
    >)
        ensures
            match reading {
                Ok(now) => r matches Ok(details) && details@ == BlockDetailsView::initial(now),
                Err(e) => r == Err::<BlockDetails, ClockError>(e),
            },
    {
        match reading {
            Ok(now) => Ok(Self::default_at(now)),
            Err(e) => Err(e),
        }
    }

    /// The kinds of the five slots:
    /// `(height, hash, block_time, block_timestamp, propagation_time)`.
    ///
    /// Height and hash come first, ahead of the times, although the record
    /// holds them inside its block.
    pub open spec fn shape() -> Seq<SlotKind> {
        seq![
            SlotKind::U64,
            SlotKind::Hash,
            SlotKind::U64,
            SlotKind::U64,
            SlotKind::OptionalU64,
        ]
    }

    /// The wire tuple of `details`.
    pub open spec fn wire_tuple(details: BlockDetailsView) -> Seq<SlotView> {
        seq![
            SlotView::U64(details.block.height),
            SlotView::Hash(details.block.hash),
            SlotView::U64(details.block_time),
            SlotView::U64(details.block_timestamp),
            SlotView::OptionalU64(details.propagation_time),
        ]
    }

    /// What a tuple decodes to.
    pub open spec fn parse(wire: Seq<SlotView>) -> Result<BlockDetailsView, DecodeError> {
        match shape_error(wire, Self::shape()) {
            Some(e) => Err(e),
            None => Ok(
                BlockDetailsView {
                    block: BlockView { hash: wire[1]->Hash_0, height: wire[0]->U64_0 },
                    block_time: wire[2]->U64_0,
                    block_timestamp: wire[3]->U64_0,
                    propagation_time: wire[4]->OptionalU64_0,
                },
            ),
        }
    }

    /// Flattens the details into their wire tuple.
    pub fn serialize(&self) -> (wire: Vec<Slot>)
        ensures
            wire.deep_view() == Self::wire_tuple(self@),
            conforms(wire.deep_view(), Self::shape()),
    {
        let wire = vec![
            Slot::U64(self.block.height),
            Slot::Hash(self.block.hash),
            Slot::U64(self.block_time),
            Slot::U64(self.block_timestamp),
            Slot::OptionalU64(self.propagation_time),
        ];
        assert(wire.deep_view() =~= Self::wire_tuple(self@));
        wire
    }

    /// Reads block details back from a wire tuple, putting height and hash
    /// together again as the block.
    ///
    /// A tuple of the five kinds of [`BlockDetails::shape`] is accepted, and
    /// no other: a tuple of another length or with a slot of another kind
    /// is rejected as [`shape_error`] says, and is neither cut nor converted
    /// to fit.
    pub fn deserialize(wire: &[Slot]) -> (r: Result<BlockDetails, DecodeError>)
        ensures
            r is Ok <==> conforms(wire.deep_view(), Self::shape()),
            match r {
                Ok(details) => Self::parse(wire.deep_view()) == Ok::<
                    BlockDetailsView,
                    DecodeError,
                >(details@),
                Err(e) => Self::parse(wire.deep_view()) == Err::<BlockDetailsView, DecodeError>(e),
            },
    {
        let ghost shape = Self::shape();
        expect_arity(wire, 5, Ghost(shape))?;
        let height = read_u64(wire, 0, Ghost(shape))?;
        let hash = read_hash(wire, 1, Ghost(shape))?;
        let block_time = read_u64(wire, 2, Ghost(shape))?;
        let block_timestamp = read_u64(wire, 3, Ghost(shape))?;
        let propagation_time = read_optional_u64(wire, 4, Ghost(shape))?;
        Ok(
            BlockDetails {
                block: Block { hash, height },
                block_time,
                block_timestamp,
                propagation_time,
            },
        )
    }

    /// Decoding the encoding of any block details gives the same details
    /// back, the block put together again from the first two slots.
    pub proof fn lemma_round_trip(details: BlockDetailsView)
        ensures
            Self::parse(Self::wire_tuple(details)) == Ok::<BlockDetailsView, DecodeError>(
                details,
            ),
    {
    }

    /// A tuple that decodes to some details is the encoding of those
    /// details, slot for slot: decoding neither drops nor converts a slot.
    pub proof fn lemma_accepted_is_encoding(wire: Seq<SlotView>, details: BlockDetailsView)
        requires
            Self::parse(wire) == Ok::<BlockDetailsView, DecodeError>(details),
        ensures
            wire == Self::wire_tuple(details),
    {
        assert(wire =~= Self::wire_tuple(details));
    }
}

} // verus!
