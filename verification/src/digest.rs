//! Records that carry the digests of rolling sample collectors.
//!
//! A collector is fed samples over time and keeps a compacted history of
//! them: its digest, oldest entry first. A digest cannot be turned back
//! into the collector that made it, so these records are encoded and never
//! decoded: there is no function here that reads one from a wire tuple.
//!
//! The entries of a digest are IEEE 754 numbers, held by their bit
//! patterns.

use vstd::prelude::*;

use crate::wire::{conforms, Slot, SlotKind, SlotView};

verus! {

/// Node IO details.
#[derive(Debug)]
pub struct NodeIO {
    /// Digest of the state cache size, in 32-bit numbers.
    pub used_state_cache_size: Vec<u32>,
}

/// Node IO details as a mathematical value.
pub ghost struct NodeIOView {
    pub used_state_cache_size: Seq<u32>,
}

impl View for NodeIO {
    type V = NodeIOView;

    open spec fn view(&self) -> NodeIOView {
        NodeIOView { used_state_cache_size: self.used_state_cache_size@ }
    }
}

impl Default for NodeIO {
    /// The details of a node of which no sample has been taken.
    fn default() -> (io: NodeIO)
        ensures
            io@.used_state_cache_size == Seq::<u32>::empty(),
    {
        NodeIO { used_state_cache_size: Vec::new() }
    }
}

impl NodeIO {
    /// The kind of the one slot: `(used_state_cache_size)`.
    pub open spec fn shape() -> Seq<SlotKind> {
        seq![SlotKind::F32Seq]
    }

    /// The wire tuple of `io`.
    pub open spec fn wire_tuple(io: NodeIOView) -> Seq<SlotView> {
        seq![SlotView::F32Seq(io.used_state_cache_size)]
    }

    /// Flattens the details into their wire tuple: the digest as it stands,
    /// entry for entry.
    pub fn serialize(&self) -> (wire: Vec<Slot>)
        ensures
            wire.deep_view() == Self::wire_tuple(self@),
            conforms(wire.deep_view(), Self::shape()),
    {
        let wire = vec![Slot::F32Seq(self.used_state_cache_size.clone())];
        assert(wire.deep_view() =~= Self::wire_tuple(self@));
        wire
    }
}

/// Node hardware details.
#[derive(Debug)]
pub struct NodeHardware {
    /// Digest of the upload rate, in 64-bit numbers.
    pub upload: Vec<u64>,
    /// Digest of the download rate, in 64-bit numbers.
    pub download: Vec<u64>,
    /// Digest of the chart stamps, in 64-bit numbers.
    pub chart_stamps: Vec<u64>,
}

/// Node hardware details as a mathematical value.
pub ghost struct NodeHardwareView {
    pub upload: Seq<u64>,
    pub download: Seq<u64>,
    pub chart_stamps: Seq<u64>,
}

impl View for NodeHardware {
    type V = NodeHardwareView;

    open spec fn view(&self) -> NodeHardwareView {
        NodeHardwareView {
            upload: self.upload@,
            download: self.download@,
            chart_stamps: self.chart_stamps@,
        }
    }
}

impl Default for NodeHardware {
    /// The details of a node of which no sample has been taken.
    fn default() -> (hardware: NodeHardware)
        ensures
            hardware@.upload == Seq::<u64>::empty(),
            hardware@.download == Seq::<u64>::empty(),
            hardware@.chart_stamps == Seq::<u64>::empty(),
    {
        NodeHardware { upload: Vec::new(), download: Vec::new(), chart_stamps: Vec::new() }
    }
}

impl NodeHardware {
    /// The kinds of the three slots: `(upload, download, chart_stamps)`.
    pub open spec fn shape() -> Seq<SlotKind> {
        seq![SlotKind::F64Seq, SlotKind::F64Seq, SlotKind::F64Seq]
    }

    /// The wire tuple of `hardware`.
    pub open spec fn wire_tuple(hardware: NodeHardwareView) -> Seq<SlotView> {
        seq![
            SlotView::F64Seq(hardware.upload),
            SlotView::F64Seq(hardware.download),
            SlotView::F64Seq(hardware.chart_stamps),
        ]
    }

    /// Flattens the details into their wire tuple: upload, then download,
    /// then the stamps, each digest as it stands, whatever it holds.
    pub fn serialize(&self) -> (wire: Vec<Slot>)
        ensures
            wire.deep_view() == Self::wire_tuple(self@),
            conforms(wire.deep_view(), Self::shape()),
    {
        let wire = vec![
            Slot::F64Seq(self.upload.clone()),
            Slot::F64Seq(self.download.clone()),
            Slot::F64Seq(self.chart_stamps.clone()),
        ];
        assert(wire.deep_view() =~= Self::wire_tuple(self@));
        wire
    }
}

} // verus!
