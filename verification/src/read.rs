//! Reading a wire tuple slot by slot, against the shape of a record.
//!
//! A reader takes the slots in their order. It first checks their number,
//! then reads one slot after another, each as the kind that the shape has
//! at its place. The first slot of another kind ends the reading, with the
//! error by which the whole tuple is rejected.

use vstd::prelude::*;

use crate::hash::{hash_bytes, BlockHash};
use crate::wire::{
    conforms_before, lemma_rejected_at, shape_error, DecodeError, Slot, SlotKind, SlotView,
};

verus! {

/// The reading of `wire` against `shape` has come to the slot at `index`:
/// the number of slots is right, the slots before `index` were of the right
/// kinds, and the slot at `index` is to be of the kind `kind`.
pub open spec fn next_slot_is(
    wire: Seq<SlotView>,
    shape: Seq<SlotKind>,
    index: int,
    kind: SlotKind,
) -> bool {
    &&& wire.len() == shape.len()
    &&& 0 <= index < shape.len()
    &&& shape[index] == kind
    &&& conforms_before(wire, shape, index)
}

/// Checks that `wire` has as many slots as the shape: `arity`.
pub(crate) fn expect_arity(
    wire: &[Slot],
    arity: usize,
    Ghost(shape): Ghost<Seq<SlotKind>>,
) -> (r: Result<(), DecodeError>)
    requires
        shape.len() == arity,
    ensures
        match r {
            Ok(_) => wire.deep_view().len() == shape.len(),
            Err(e) => shape_error(wire.deep_view(), shape) == Some(e),
        },
{
    if wire.len() == arity {
        Ok(())
    } else {
        Err(DecodeError::Arity { expected: arity, found: wire.len() })
    }
}

/// The error for the slot at `index`, which is not of the kind `expected`
/// that the shape has there.
fn wrong_kind(
    wire: &[Slot],
    index: usize,
    expected: SlotKind,
    Ghost(shape): Ghost<Seq<SlotKind>>,
) -> (e: DecodeError)
    requires
        next_slot_is(wire.deep_view(), shape, index as int, expected),
        wire.deep_view()[index as int].kind() != expected,
    ensures
        shape_error(wire.deep_view(), shape) == Some(e),
{
    proof {
        lemma_rejected_at(wire.deep_view(), shape, index as int);
    }
    DecodeError::Kind { index, expected, found: wire[index].kind() }
}

/// Reads the integer in the slot at `index`.
pub(crate) fn read_u64(
    wire: &[Slot],
    index: usize,
    Ghost(shape): Ghost<Seq<SlotKind>>,
) -> (r: Result<u64, DecodeError>)
    requires
        next_slot_is(wire.deep_view(), shape, index as int, SlotKind::U64),
    ensures
        match r {
            Ok(value) => wire.deep_view()[index as int] == SlotView::U64(value),
            Err(e) => shape_error(wire.deep_view(), shape) == Some(e),
        },
{
    match &wire[index] {
        Slot::U64(value) => Ok(*value),
        _ => Err(wrong_kind(wire, index, SlotKind::U64, Ghost(shape))),
    }
}

/// Reads the integer, or its absence, in the slot at `index`.
pub(crate) fn read_optional_u64(
    wire: &[Slot],
    index: usize,
    Ghost(shape): Ghost<Seq<SlotKind>>,
) -> (r: Result<Option<u64>, DecodeError>)
    requires
        next_slot_is(wire.deep_view(), shape, index as int, SlotKind::OptionalU64),
    ensures
        match r {
            Ok(value) => wire.deep_view()[index as int] == SlotView::OptionalU64(value),
            Err(e) => shape_error(wire.deep_view(), shape) == Some(e),
        },
{
    match &wire[index] {
        Slot::OptionalU64(value) => Ok(*value),
        _ => Err(wrong_kind(wire, index, SlotKind::OptionalU64, Ghost(shape))),
    }
}

/// Reads the bits of the 32-bit number in the slot at `index`.
pub(crate) fn read_f32(
    wire: &[Slot],
    index: usize,
    Ghost(shape): Ghost<Seq<SlotKind>>,
) -> (r: Result<u32, DecodeError>)
    requires
        next_slot_is(wire.deep_view(), shape, index as int, SlotKind::F32),
    ensures
        match r {
            Ok(bits) => wire.deep_view()[index as int] == SlotView::F32(bits),
            Err(e) => shape_error(wire.deep_view(), shape) == Some(e),
        },
{
    match &wire[index] {
        Slot::F32(bits) => Ok(*bits),
        _ => Err(wrong_kind(wire, index, SlotKind::F32, Ghost(shape))),
    }
}

/// Reads the string in the slot at `index`.
pub(crate) fn read_text(
    wire: &[Slot],
    index: usize,
    Ghost(shape): Ghost<Seq<SlotKind>>,
) -> (r: Result<String, DecodeError>)
    requires
        next_slot_is(wire.deep_view(), shape, index as int, SlotKind::Text),
    ensures
        match r {
            Ok(text) => wire.deep_view()[index as int] == SlotView::Text(text@),
            Err(e) => shape_error(wire.deep_view(), shape) == Some(e),
        },
{
    match &wire[index] {
        Slot::Text(text) => Ok(text.clone()),
        _ => Err(wrong_kind(wire, index, SlotKind::Text, Ghost(shape))),
    }
}

/// Reads the hash in the slot at `index`.
pub(crate) fn read_hash(
    wire: &[Slot],
    index: usize,
    Ghost(shape): Ghost<Seq<SlotKind>>,
) -> (r: Result<BlockHash, DecodeError>)
    requires
        next_slot_is(wire.deep_view(), shape, index as int, SlotKind::Hash),
    ensures
        match r {
            Ok(hash) => wire.deep_view()[index as int] == SlotView::Hash(hash_bytes(hash)),
            Err(e) => shape_error(wire.deep_view(), shape) == Some(e),
        },
{
    match &wire[index] {
        Slot::Hash(hash) => Ok(*hash),
        _ => Err(wrong_kind(wire, index, SlotKind::Hash, Ghost(shape))),
    }
}

} // verus!
