//! Wire tuples: the ordered slots that a record is flattened into.
//!
//! A tuple carries no field names. What a slot means is given by its place
//! alone, so a record and its reader agree on a *shape*: how many slots
//! there are and of which kind each one is.

use vstd::prelude::*;

use crate::hash::{hash_bytes, hash_eq, BlockHash};

verus! {

/// The kind of value that a slot holds.
#[derive(Clone, Copy, Debug, PartialEq, Eq, Structural)]
pub enum SlotKind {
    /// A 64-bit unsigned integer.
    U64,
    /// A 64-bit unsigned integer that may be absent.
    OptionalU64,
    /// A 32-bit IEEE 754 number.
    F32,
    /// A string.
    Text,
    /// A 256-bit hash.
    Hash,
    /// A sequence of 32-bit IEEE 754 numbers.
    F32Seq,
    /// A sequence of 64-bit IEEE 754 numbers.
    F64Seq,
}

/// One slot of a wire tuple.
///
/// IEEE 754 numbers are held by their bit patterns, so that a slot is moved
/// without rounding and two slots are equal exactly when their bits are.
#[derive(Debug)]
pub enum Slot {
    U64(u64),
    OptionalU64(Option<u64>),
    F32(u32),
    Text(String),
    Hash(BlockHash),
    F32Seq(Vec<u32>),
    F64Seq(Vec<u64>),
}

/// What a slot holds, as a mathematical value.
pub ghost enum SlotView {
    U64(u64),
    OptionalU64(Option<u64>),
    F32(u32),
    Text(Seq<char>),
    Hash(Seq<u8>),
    F32Seq(Seq<u32>),
    F64Seq(Seq<u64>),
}

impl SlotView {
    pub open spec fn kind(self) -> SlotKind {
        match self {
            SlotView::U64(_) => SlotKind::U64,
            SlotView::OptionalU64(_) => SlotKind::OptionalU64,
            SlotView::F32(_) => SlotKind::F32,
            SlotView::Text(_) => SlotKind::Text,
            SlotView::Hash(_) => SlotKind::Hash,
            SlotView::F32Seq(_) => SlotKind::F32Seq,
            SlotView::F64Seq(_) => SlotKind::F64Seq,
        }
    }
}

impl View for Slot {
    type V = SlotView;

    open spec fn view(&self) -> SlotView {
        match *self {
            Slot::U64(value) => SlotView::U64(value),
            Slot::OptionalU64(value) => SlotView::OptionalU64(value),
            Slot::F32(bits) => SlotView::F32(bits),
            Slot::Text(text) => SlotView::Text(text@),
            Slot::Hash(hash) => SlotView::Hash(hash_bytes(hash)),
            Slot::F32Seq(bits) => SlotView::F32Seq(bits@),
            Slot::F64Seq(bits) => SlotView::F64Seq(bits@),
        }
    }
}

impl DeepView for Slot {
    type V = SlotView;

    open spec fn deep_view(&self) -> SlotView {
        self@
    }
}

impl Clone for Slot {
    /// A slot of the same kind that holds the same value.
    fn clone(&self) -> (copy: Slot)
        ensures
            copy@ == self@,
    {
        match self {
            Slot::U64(value) => Slot::U64(*value),
            Slot::OptionalU64(value) => Slot::OptionalU64(*value),
            Slot::F32(bits) => Slot::F32(*bits),
            Slot::Text(text) => Slot::Text(text.clone()),
            Slot::Hash(hash) => Slot::Hash(*hash),
            Slot::F32Seq(bits) => Slot::F32Seq(bits.clone()),
            Slot::F64Seq(bits) => Slot::F64Seq(bits.clone()),
        }
    }
}

impl PartialEq for Slot {
    /// Two slots are equal when they are of the same kind and hold the same
    /// value; numbers are the same when their bits are.
    fn eq(&self, other: &Slot) -> (equal: bool) {
        match (self, other) {
            (Slot::U64(left), Slot::U64(right)) => *left == *right,
            (Slot::OptionalU64(left), Slot::OptionalU64(right)) => *left == *right,
            (Slot::F32(left), Slot::F32(right)) => *left == *right,
            (Slot::Text(left), Slot::Text(right)) => *left == *right,
            (Slot::Hash(left), Slot::Hash(right)) => hash_eq(left, right),
            (Slot::F32Seq(left), Slot::F32Seq(right)) => {
                let equal = *left == *right;
                assert(equal == (left@ =~= right@));
                equal
            },
            (Slot::F64Seq(left), Slot::F64Seq(right)) => {
                let equal = *left == *right;
                assert(equal == (left@ =~= right@));
                equal
            },
            _ => false,
        }
    }
}

impl vstd::std_specs::cmp::PartialEqSpecImpl for Slot {
    open spec fn obeys_eq_spec() -> bool {
        true
    }

    open spec fn eq_spec(&self, other: &Slot) -> bool {
        self@ == other@
    }
}

impl Eq for Slot {

}

impl Slot {
    /// The kind of this slot.
    pub fn kind(&self) -> (kind: SlotKind)
        ensures
            kind == self@.kind(),
    {
        match self {
            Slot::U64(_) => SlotKind::U64,
            Slot::OptionalU64(_) => SlotKind::OptionalU64,
            Slot::F32(_) => SlotKind::F32,
            Slot::Text(_) => SlotKind::Text,
            Slot::Hash(_) => SlotKind::Hash,
            Slot::F32Seq(_) => SlotKind::F32Seq,
            Slot::F64Seq(_) => SlotKind::F64Seq,
        }
    }
}

/// Why a tuple was not accepted as the encoding of a record.
#[derive(Clone, Copy, Debug, PartialEq, Eq, Structural)]
#[allow(inconsistent_fields)]
pub enum DecodeError {
    /// The tuple has `found` slots where the record has `expected`.
    Arity { expected: usize, found: usize },
    /// The tuple has the right number of slots, and the slot at `index` is
    /// the first that is not of the kind the record has there.
    Kind { index: usize, expected: SlotKind, found: SlotKind },
}

/// Every slot of `wire` is of the kind that `shape` has at its place, and
/// there are neither more nor fewer slots than kinds.
pub open spec fn conforms(wire: Seq<SlotView>, shape: Seq<SlotKind>) -> bool {
    &&& wire.len() == shape.len()
    &&& conforms_before(wire, shape, wire.len() as int)
}

/// The slots of `wire` before `index` are of the kinds that `shape` has at
/// their places.
pub open spec fn conforms_before(wire: Seq<SlotView>, shape: Seq<SlotKind>, index: int) -> bool {
    forall|i: int| 0 <= i < index ==> (#[trigger] wire[i]).kind() == shape[i]
}

/// The slot at `index` is not of the kind that `shape` has there, and every
/// slot before it is of the kind that `shape` has at its place.
pub open spec fn first_mismatch(wire: Seq<SlotView>, shape: Seq<SlotKind>, index: int) -> bool {
    &&& 0 <= index < wire.len()
    &&& index < shape.len()
    &&& wire[index].kind() != shape[index]
    &&& conforms_before(wire, shape, index)
}

/// The error that reports a slot of a wrong kind at `index`.
pub open spec fn kind_error(wire: Seq<SlotView>, shape: Seq<SlotKind>, index: int) -> DecodeError {
    DecodeError::Kind {
        index: index as usize,
        expected: shape[index],
        found: wire[index].kind(),
    }
}

/// How a tuple is judged against a shape: `None` when it conforms, else the
/// one error that is reported. The number of slots is judged first; among
/// slots of a wrong kind, the first is reported.
pub open spec fn shape_error(wire: Seq<SlotView>, shape: Seq<SlotKind>) -> Option<DecodeError> {
    if wire.len() != shape.len() {
        Some(DecodeError::Arity { expected: shape.len() as usize, found: wire.len() as usize })
    } else if conforms(wire, shape) {
        None
    } else {
        Some(kind_error(wire, shape, choose|i: int| first_mismatch(wire, shape, i)))
    }
}

/// At most one slot is the first of a wrong kind.
pub proof fn lemma_first_mismatch_unique(
    wire: Seq<SlotView>,
    shape: Seq<SlotKind>,
    i: int,
    j: int,
)
    requires
        first_mismatch(wire, shape, i),
        first_mismatch(wire, shape, j),
    ensures
        i == j,
{
    if i < j {
        assert(wire[i].kind() == shape[i]);
    } else if j < i {
        assert(wire[j].kind() == shape[j]);
    }
}

/// A tuple is accepted exactly when it conforms to the shape.
pub proof fn lemma_accepted_iff_conforms(wire: Seq<SlotView>, shape: Seq<SlotKind>)
    ensures
        shape_error(wire, shape) is None <==> conforms(wire, shape),
{
}

/// A tuple with more or fewer slots than the shape is rejected for its
/// number of slots, whatever the slots hold.
pub proof fn lemma_rejected_for_arity(wire: Seq<SlotView>, shape: Seq<SlotKind>)
    requires
        wire.len() != shape.len(),
    ensures
        shape_error(wire, shape) == Some(
            DecodeError::Arity { expected: shape.len() as usize, found: wire.len() as usize },
        ),
{
}

/// A tuple with the right number of slots whose first slot of a wrong kind
/// is at `index` is rejected with the error that names `index`.
pub proof fn lemma_rejected_at(wire: Seq<SlotView>, shape: Seq<SlotKind>, index: int)
    requires
        wire.len() == shape.len(),
        first_mismatch(wire, shape, index),
    ensures
        shape_error(wire, shape) == Some(kind_error(wire, shape, index)),
{
    let chosen = choose|i: int| first_mismatch(wire, shape, i);
    lemma_first_mismatch_unique(wire, shape, chosen, index);
}

/// Walks up from `from`, before which every slot is of the right kind, to
/// the first slot of a wrong kind. There is one, since `wrong` is one.
proof fn lemma_find_first_mismatch(
    wire: Seq<SlotView>,
    shape: Seq<SlotKind>,
    from: int,
    wrong: int,
) -> (index: int)
    requires
        wire.len() == shape.len(),
        0 <= from <= wrong < wire.len(),
        conforms_before(wire, shape, from),
        wire[wrong].kind() != shape[wrong],
    ensures
        first_mismatch(wire, shape, index),
    decreases wrong - from,
{
    if wire[from].kind() != shape[from] {
        from
    } else {
        lemma_find_first_mismatch(wire, shape, from + 1, wrong)
    }
}

/// A tuple with the right number of slots that does not conform is
/// rejected for a slot of a wrong kind, and for the first such slot.
pub proof fn lemma_rejected_for_first_mismatch(
    wire: Seq<SlotView>,
    shape: Seq<SlotKind>,
) -> (index: int)
    requires
        wire.len() == shape.len(),
        !conforms(wire, shape),
    ensures
        first_mismatch(wire, shape, index),
        shape_error(wire, shape) == Some(kind_error(wire, shape, index)),
{
    let wrong = choose|i: int| 0 <= i < wire.len() && (#[trigger] wire[i]).kind() != shape[i];
    let index = lemma_find_first_mismatch(wire, shape, 0, wrong);
    lemma_rejected_at(wire, shape, index);
    index
}

} // verus!
