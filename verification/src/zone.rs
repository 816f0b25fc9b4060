//! A zone: one labelled polygon of the diagram.

use vstd::prelude::*;
use crate::ring::Vertex;

verus! {

/// One labelled polygon: a full circle, an annulus with one hole, or a wedge.
#[derive(Clone, Debug)]
pub struct Zone {
    pub label: String,
    /// The outer boundary, closed.
    pub ring: Vec<Vertex>,
    /// The inner boundaries, each closed.
    pub holes: Vec<Vec<Vertex>>,
}

/// What a zone holds, as mathematical sequences.
pub struct ZoneView {
    pub label: Seq<char>,
    pub ring: Seq<Vertex>,
    pub holes: Seq<Seq<Vertex>>,
}

/// The rings of a list of holes.
pub open spec fn holes_view(holes: Seq<Vec<Vertex>>) -> Seq<Seq<Vertex>> {
    Seq::new(holes.len(), |i: int| holes[i]@)
}

impl View for Zone {
    type V = ZoneView;

    open spec fn view(&self) -> ZoneView {
        ZoneView { label: self.label@, ring: self.ring@, holes: holes_view(self.holes@) }
    }
}

impl ZoneView {
    /// The ring ends on the vertex it starts from.
    pub open spec fn ring_closed(ring: Seq<Vertex>) -> bool {
        ring.len() >= 2 && ring.first() == ring.last()
    }

    /// The outer boundary and every hole end where they start.
    pub open spec fn is_closed(self) -> bool {
        &&& Self::ring_closed(self.ring)
        &&& forall|h: int| 0 <= h < self.holes.len() ==> Self::ring_closed(#[trigger] self.holes[h])
    }
}

/// The views of a list of zones.
pub open spec fn zones_view(zones: Seq<Zone>) -> Seq<ZoneView> {
    Seq::new(zones.len(), |i: int| zones[i]@)
}

} // verus!
