//! Live counters of a node.

use vstd::prelude::*;

use crate::read::{expect_arity, read_u64};
use crate::wire::{conforms, shape_error, DecodeError, Slot, SlotKind, SlotView};

verus! {

/// A couple of node statistics.
#[derive(Debug, Clone, Copy, PartialEq, Eq, Structural)]
pub struct NodeStats {
    pub peers: u64,
    pub txcount: u64,
}

impl Default for NodeStats {
    /// Both counters at zero.
    fn default() -> (stats: NodeStats)
        ensures
            stats == (NodeStats { peers: 0, txcount: 0 }),
    {
        NodeStats { peers: 0, txcount: 0 }
    }
}

impl NodeStats {
    /// The kinds of the two slots: `(peers, txcount)`.
    pub open spec fn shape() -> Seq<SlotKind> {
        seq![SlotKind::U64, SlotKind::U64]
    }

    /// The wire tuple of `stats`.
    pub open spec fn wire_tuple(stats: NodeStats) -> Seq<SlotView> {
        seq![SlotView::U64(stats.peers), SlotView::U64(stats.txcount)]
    }

    /// What a tuple decodes to.
    pub open spec fn parse(wire: Seq<SlotView>) -> Result<NodeStats, DecodeError> {
        match shape_error(wire, Self::shape()) {
            Some(e) => Err(e),
            None => Ok(NodeStats { peers: wire[0]->U64_0, txcount: wire[1]->U64_0 }),
        }
    }

    /// Flattens the counters into their wire tuple.
    pub fn serialize(&self) -> (wire: Vec<Slot>)
        ensures
            wire.deep_view() == Self::wire_tuple(*self),
            conforms(wire.deep_view(), Self::shape()),
    {
        let wire = vec![Slot::U64(self.peers), Slot::U64(self.txcount)];
        assert(wire.deep_view() =~= Self::wire_tuple(*self));
        wire
    }

    /// Reads the counters back from a wire tuple.
    ///
    /// A tuple of two integers is accepted, and no other: a tuple of
    /// another length or with a slot of another kind is rejected as
    /// [`shape_error`] says, and is neither cut nor converted to fit.
    pub fn deserialize(wire: &[Slot]) -> (r: Result<NodeStats, DecodeError>)
        ensures
            r is Ok <==> conforms(wire.deep_view(), Self::shape()),
            r == Self::parse(wire.deep_view()),
    {
        let ghost shape = Self::shape();
        expect_arity(wire, 2, Ghost(shape))?;
        let peers = read_u64(wire, 0, Ghost(shape))?;
        let txcount = read_u64(wire, 1, Ghost(shape))?;
        Ok(NodeStats { peers, txcount })
    }

    /// Decoding the encoding of any counters gives the same counters back.
    pub proof fn lemma_round_trip(stats: NodeStats)
        ensures
            Self::parse(Self::wire_tuple(stats)) == Ok::<NodeStats, DecodeError>(stats),
    {
    }

    /// A tuple that decodes to some counters is the encoding of it, slot for
    /// slot: decoding neither drops nor converts a slot.
    pub proof fn lemma_accepted_is_encoding(wire: Seq<SlotView>, stats: NodeStats)
        requires
            Self::parse(wire) == Ok::<NodeStats, DecodeError>(stats),
        ensures
            wire == Self::wire_tuple(stats),
    {
        assert(wire =~= Self::wire_tuple(stats));
    }
}

} // verus!
