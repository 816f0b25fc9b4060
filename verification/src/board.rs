//! The assembler: from a configuration to the ordered list of labelled zones.

use vstd::prelude::*;
use vstd::arithmetic::div_mod::lemma_fundamental_div_mod_converse;
use crate::error::ClockboardError;
use crate::laws::lemma_zones_closed;
use crate::label::{
    letter_of, make_ring_label, make_wedge_label, ring_label, ring_letter, wedge_label,
};
use crate::params::{CoordinateModel, Params};
use crate::ring::{circle_ring, clock_polygon, lay_circle, wedge_ring, Vertex};
use crate::scalar::Point;
use crate::zone::{zones_view, Zone, ZoneView};

verus! {

/// A generated diagram: the zones in their order, and what is needed to turn
/// their vertices into coordinates.
#[derive(Clone, Debug)]
pub struct Clockboard {
    /// The point around which the zones lie.
    pub center: Point,
    /// The coordinate model that the configuration selected.
    pub model: CoordinateModel,
    /// The number of decimal places to keep in the coordinates.
    pub precision: usize,
    /// The zones, innermost first, the wedges of a ring in ascending order.
    pub zones: Vec<Zone>,
}

/// What a diagram holds, as mathematical values.
pub struct ClockboardView {
    pub center: Point,
    pub model: CoordinateModel,
    pub precision: usize,
    pub zones: Seq<ZoneView>,
}

impl View for Clockboard {
    type V = ClockboardView;

    open spec fn view(&self) -> ClockboardView {
        ClockboardView {
            center: self.center,
            model: self.model,
            precision: self.precision,
            zones: zones_view(self.zones@),
        }
    }
}

impl Params {
    /// The number of zones that one ring around the innermost circle is cut
    /// into: a single segment leaves the ring whole.
    pub open spec fn zones_per_ring(&self) -> int {
        if self.num_segments == 1 {
            1
        } else {
            self.num_segments as int
        }
    }

    /// The number of zones of the diagram: the innermost circle and the zones
    /// of every ring around it.
    pub open spec fn zone_count(&self) -> int {
        1 + self.num_rings() * self.zones_per_ring()
    }

    /// The ring that zone `i` lies in; the innermost circle is ring zero.
    pub open spec fn ring_of(&self, i: int) -> int {
        if i <= 0 {
            0
        } else {
            (i - 1) / self.zones_per_ring() + 1
        }
    }

    /// The position of zone `i` among the zones of its ring, from zero.
    pub open spec fn segment_of(&self, i: int) -> int {
        if i <= 0 {
            0
        } else {
            (i - 1) % self.zones_per_ring()
        }
    }

    /// The zone that follows zone `i` around its ring: the next zone of the
    /// diagram, but after the last zone of a ring the first zone of that ring.
    pub open spec fn next_in_ring(&self, i: int) -> int {
        if self.segment_of(i) + 1 == self.zones_per_ring() {
            i + 1 - self.zones_per_ring()
        } else {
            i + 1
        }
    }

    /// Zone `i` of the diagram of a valid configuration.
    pub open spec fn zone(&self, i: int) -> ZoneView {
        let n = self.circle_vertices() as usize;
        let ring = self.ring_of(i);
        if ring == 0 {
            ZoneView {
                label: ring_label(0),
                ring: circle_ring(self.distances@[0], n),
                holes: Seq::empty(),
            }
        } else if self.num_segments == 1 {
            ZoneView {
                label: ring_label(ring),
                ring: circle_ring(self.distances@[ring], n),
                holes: seq![circle_ring(self.distances@[ring - 1], n)],
            }
        } else {
            ZoneView {
                label: wedge_label(ring, self.segment_of(i) as nat),
                ring: wedge_ring(
                    self.distances@[ring],
                    self.distances@[ring - 1],
                    self.num_vertices_arc,
                    self.num_segments,
                    self.segment_of(i) as usize,
                ),
                holes: Seq::empty(),
            }
        }
    }

    /// The zones of the diagram of a valid configuration, in their order.
    pub open spec fn zones(&self) -> Seq<ZoneView> {
        Seq::new(self.zone_count() as nat, |i: int| self.zone(i))
    }

    /// The diagram of a valid configuration around `center`.
    pub open spec fn board(&self, center: Point) -> ClockboardView {
        ClockboardView {
            center,
            model: self.model(),
            precision: self.precision,
            zones: self.zones(),
        }
    }
}

/// Zone number `1 + (ring - 1) * per + segment` is segment `segment` of ring
/// `ring`.
proof fn lemma_zone_position(params: &Params, ring: int, segment: int)
    requires
        params.num_segments >= 1,
        ring >= 1,
        0 <= segment < params.zones_per_ring(),
    ensures
        1 + (ring - 1) * params.zones_per_ring() + segment >= 1,
        params.ring_of(1 + (ring - 1) * params.zones_per_ring() + segment) == ring,
        params.segment_of(1 + (ring - 1) * params.zones_per_ring() + segment) == segment,
{
    let per = params.zones_per_ring();
    assert((ring - 1) * per >= 0) by (nonlinear_arith)
        requires
            ring >= 1,
            per >= 1,
    ;
    lemma_fundamental_div_mod_converse((ring - 1) * per + segment, per, ring - 1, segment);
}

/// The zone of a ring that is left whole: the circle at its outer distance
/// with the circle at its inner distance as a hole.
fn make_annulus(params: &Params, ring: usize, letter: char, n: usize) -> (zone: Zone)
    requires
        params.is_valid(),
        1 <= ring < params.distances@.len(),
        params.num_segments == 1,
        n == params.circle_vertices(),
        letter == letter_of(ring as int),
    ensures
        zone@ == params.zone(1 + (ring - 1) * params.zones_per_ring()),
{
    proof {
        lemma_zone_position(params, ring as int, 0);
    }
    let outer = lay_circle(params.distances[ring], n);
    let inner = lay_circle(params.distances[ring - 1], n);
    let mut holes: Vec<Vec<Vertex>> = Vec::new();
    holes.push(inner);
    let zone = Zone { label: make_ring_label(letter), ring: outer, holes };
    assert(zone@.holes =~= seq![circle_ring(params.distances@[ring - 1], n)]);
    zone
}

/// Generates a clockboard around `center`: the innermost circle, then ring by
/// ring outwards the zones of each ring in ascending order.
///
/// A configuration that breaks a rule is turned down with the first rule it
/// breaks, before any zone is built.
pub fn clockboard(center: Point, params: Params) -> (made: Result<Clockboard, ClockboardError>)
    ensures
        made is Ok <==> params.is_valid(),
        made matches Ok(board) ==> board@ == params.board(center),
        made matches Ok(board) ==> board.zones@.len() == params.zone_count(),
        made matches Ok(board) ==> board.precision == params.precision,
        made matches Ok(board) ==> forall|i: int|
            0 <= i < board@.zones.len() ==> (#[trigger] board@.zones[i]).is_closed(),
        made matches Err(e) ==> params.rejection() == Some(e),
{
    match params.validate() {
        Err(e) => {
            return Err(e);
        },
        Ok(_) => {},
    }
    let n: usize = params.num_vertices_arc * params.num_segments;
    let rings: usize = params.distances.len();
    let mut zones: Vec<Zone> = Vec::new();

    // The innermost zone is a full circle.
    let holes: Vec<Vec<Vertex>> = Vec::new();
    let innermost = Zone {
        label: make_ring_label('A'),
        ring: lay_circle(params.distances[0], n),
        holes,
    };
    assert(innermost@.holes =~= Seq::empty());
    zones.push(innermost);

    let mut ring: usize = 1;
    while ring < rings
        invariant
            params.is_valid(),
            rings == params.distances@.len(),
            n == params.circle_vertices(),
            1 <= ring <= rings,
            zones@.len() == 1 + (ring - 1) * params.zones_per_ring(),
            forall|i: int| 0 <= i < zones@.len() ==> (#[trigger] zones@[i])@ == params.zone(i),
        decreases rings - ring,
    {
        let letter = match ring_letter(ring) {
            Some(c) => c,
            // A valid configuration has a letter for each of its rings.
            None => {
                return Err(ClockboardError::TooManyRings);
            },
        };
        let ghost per = params.zones_per_ring();
        assert((ring - 1) * per + per == (ring + 1 - 1) * per) by (nonlinear_arith);
        if params.num_segments == 1 {
            let zone = make_annulus(&params, ring, letter, n);
            zones.push(zone);
        } else {
            let mut seg: usize = 0;
            while seg < params.num_segments
                invariant
                    params.is_valid(),
                    params.num_segments != 1,
                    per == params.zones_per_ring(),
                    rings == params.distances@.len(),
                    n == params.circle_vertices(),
                    1 <= ring < rings,
                    letter == letter_of(ring as int),
                    seg <= params.num_segments,
                    zones@.len() == 1 + (ring - 1) * per + seg,
                    forall|i: int|
                        0 <= i < zones@.len() ==> (#[trigger] zones@[i])@ == params.zone(i),
                decreases params.num_segments - seg,
            {
                proof {
                    lemma_zone_position(&params, ring as int, seg as int);
                    assert(params.distances@[ring - 1].is_positive_finite());
                    assert(params.distances@[ring as int].is_positive_finite());
                }
                let wedge = clock_polygon(
                    params.distances[ring],
                    params.distances[ring - 1],
                    params.num_vertices_arc,
                    params.num_segments,
                    seg,
                );
                let holes: Vec<Vec<Vertex>> = Vec::new();
                let zone = Zone { label: make_wedge_label(letter, seg), ring: wedge, holes };
                assert(zone@.holes =~= Seq::empty());
                zones.push(zone);
                seg = seg + 1;
            }
        }
        ring = ring + 1;
    }
    let board = Clockboard {
        center,
        model: params.coordinate_model(),
        precision: params.precision,
        zones,
    };
    assert(board@.zones =~= params.zones());
    assert forall|i: int| 0 <= i < board@.zones.len() implies (#[trigger] board@.zones[i])
        .is_closed() by {
        lemma_zones_closed(params, i);
    }
    Ok(board)
}

} // verus!
