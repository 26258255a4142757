//! Where a node is.

use vstd::prelude::*;

use crate::read::{expect_arity, read_f32, read_text};
use crate::wire::{conforms, shape_error, DecodeError, Slot, SlotKind, SlotView};

verus! {

/// Node location details.
///
/// The coordinates are 32-bit IEEE 754 numbers, held by their bit patterns:
/// the codec moves them and never computes with them. Two locations are
/// equal when their coordinates have the same bits and they name the same
/// city.
#[derive(Debug)]
pub struct NodeLocation {
    /// Bits of the latitude.
    pub latitude: u32,
    /// Bits of the longitude.
    pub longitude: u32,
    pub city: String,
}

/// A location as a mathematical value.
pub ghost struct NodeLocationView {
    pub latitude: u32,
    pub longitude: u32,
    pub city: Seq<char>,
}

impl View for NodeLocation {
    type V = NodeLocationView;

    open spec fn view(&self) -> NodeLocationView {
        NodeLocationView { latitude: self.latitude, longitude: self.longitude, city: self.city@ }
    }
}

impl Clone for NodeLocation {
    /// The same location.
    fn clone(&self) -> (copy: NodeLocation)
        ensures
            copy@ == self@,
    {
        NodeLocation {
            latitude: self.latitude,
            longitude: self.longitude,
            city: self.city.clone(),
        }
    }
}

impl PartialEq for NodeLocation {
    /// Two locations are equal when they are the same field for field.
    fn eq(&self, other: &NodeLocation) -> (equal: bool) {
        self.latitude == other.latitude && self.longitude == other.longitude && self.city
            == other.city
    }
}

impl vstd::std_specs::cmp::PartialEqSpecImpl for NodeLocation {
    open spec fn obeys_eq_spec() -> bool {
        true
    }

    open spec fn eq_spec(&self, other: &NodeLocation) -> bool {
        self@ == other@
    }
}

impl Eq for NodeLocation {

}

impl NodeLocation {
    /// The kinds of the three slots: `(latitude, longitude, city)`.
    pub open spec fn shape() -> Seq<SlotKind> {
        seq![SlotKind::F32, SlotKind::F32, SlotKind::Text]
    }

    /// The wire tuple of `location`.
    pub open spec fn wire_tuple(location: NodeLocationView) -> Seq<SlotView> {
        seq![
            SlotView::F32(location.latitude),
            SlotView::F32(location.longitude),
            SlotView::Text(location.city),
        ]
    }

    /// What a tuple decodes to.
    pub open spec fn parse(wire: Seq<SlotView>) -> Result<NodeLocationView, DecodeError> {
        match shape_error(wire, Self::shape()) {
            Some(e) => Err(e),
            None => Ok(
                NodeLocationView {
                    latitude: wire[0]->F32_0,
                    longitude: wire[1]->F32_0,
                    city: wire[2]->Text_0,
                },
            ),
        }
    }

    /// Flattens the location into its wire tuple.
    pub fn serialize(&self) -> (wire: Vec<Slot>)
        ensures
            wire.deep_view() == Self::wire_tuple(self@),
            conforms(wire.deep_view(), Self::shape()),
    {
        let wire = vec![
            Slot::F32(self.latitude),
            Slot::F32(self.longitude),
            Slot::Text(self.city.clone()),
        ];
        assert(wire.deep_view() =~= Self::wire_tuple(self@));
        wire
    }

    /// Reads a location back from a wire tuple.
    ///
    /// A tuple of two 32-bit numbers and a string is accepted, and no
    /// other: a tuple of another length or with a slot of another kind is
    /// rejected as [`shape_error`] says, and is neither cut nor converted to
    /// fit.
    pub fn deserialize(wire: &[Slot]) -> (r: Result<NodeLocation, DecodeError>)
        ensures
            r is Ok <==> conforms(wire.deep_view(), Self::shape()),
            match r {
                Ok(location) => Self::parse(wire.deep_view()) == Ok::<
                    NodeLocationView,
                    DecodeError,
                >(location@),
                Err(e) => Self::parse(wire.deep_view()) == Err::<NodeLocationView, DecodeError>(e),
            },
    {
        let ghost shape = Self::shape();
        expect_arity(wire, 3, Ghost(shape))?;
        let latitude = read_f32(wire, 0, Ghost(shape))?;
        let longitude = read_f32(wire, 1, Ghost(shape))?;
        let city = read_text(wire, 2, Ghost(shape))?;
        Ok(NodeLocation { latitude, longitude, city })
    }

    /// Decoding the encoding of any location gives the same location back:
    /// the same bits in both coordinates and the same city.
    pub proof fn lemma_round_trip(location: NodeLocationView)
        ensures
            Self::parse(Self::wire_tuple(location)) == Ok::<NodeLocationView, DecodeError>(
                location,
            ),
    {
    }

    /// A tuple that decodes to some location is the encoding of it, slot for
    /// slot: decoding neither drops nor converts a slot.
    pub proof fn lemma_accepted_is_encoding(wire: Seq<SlotView>, location: NodeLocationView)
        requires
            Self::parse(wire) == Ok::<NodeLocationView, DecodeError>(location),
        ensures
            wire == Self::wire_tuple(location),
    {
        assert(wire =~= Self::wire_tuple(location));
    }
}

} // verus!
