//! What holds of every diagram, proved from the definitions of its zones.

use vstd::prelude::*;
use vstd::arithmetic::div_mod::{
    lemma_fundamental_div_mod, lemma_fundamental_div_mod_converse, lemma_mod_self_0,
    lemma_small_mod,
};
use crate::label::{lemma_two_digits_value, letter_of, two_digits};
use crate::params::Params;
use crate::ring::{circle_ring, lemma_wedge_meets_next, next_wedge, turn_of, wedge_ring};
use crate::scalar::{Point, Scalar};
use crate::zone::ZoneView;

verus! {

/// Closure: a full circle ends on the vertex it starts from.
pub proof fn lemma_circle_closed(radius: Scalar, num_vertices: usize)
    requires
        num_vertices >= 1,
    ensures
        ZoneView::ring_closed(circle_ring(radius, num_vertices)),
{
}

/// Closure: the ring of a wedge ends on the vertex it starts from, whichever
/// wedge it is and however the circle is divided.
pub proof fn lemma_wedge_closed(
    radius_outer: Scalar,
    radius_inner: Scalar,
    num_vertices_arc: usize,
    num_segments: usize,
    seg: usize,
)
    ensures
        ZoneView::ring_closed(
            wedge_ring(radius_outer, radius_inner, num_vertices_arc, num_segments, seg),
        ),
{
}

/// The vertices of a full circle start at angle zero and lie one step of the
/// full turn apart.
pub proof fn lemma_circle_evenly_spaced(radius: Scalar, num_vertices: usize, i: int)
    requires
        0 <= i,
        i + 1 < num_vertices,
    ensures
        ({
            let ring = circle_ring(radius, num_vertices);
            &&& ring[0].angle_numerator() == 0
            &&& ring[i].angle_denominator() == num_vertices
            &&& ring[i + 1].angle_denominator() == num_vertices
            &&& ring[i + 1].angle_numerator() == ring[i].angle_numerator() + 1
        }),
{
}

/// The steps of the vertices of a wedge: the outer arc starts on the step
/// where the wedge starts and goes on step by step, and after as many steps as
/// an arc has, which is one segment of the full turn, it ends where the next
/// wedge starts; the inner arc goes the same way back.
pub proof fn lemma_wedge_spans_one_segment(
    radius_outer: Scalar,
    radius_inner: Scalar,
    num_vertices_arc: usize,
    num_segments: usize,
    seg: usize,
    i: int,
)
    requires
        num_vertices_arc >= 1,
        num_segments >= 1,
        seg < num_segments,
        0 <= i < num_vertices_arc,
    ensures
        ({
            let ring = wedge_ring(radius_outer, radius_inner, num_vertices_arc, num_segments, seg);
            let end = num_vertices_arc as int;
            let turn = turn_of(num_vertices_arc, num_segments);
            &&& num_vertices_arc * num_segments == turn
            &&& ring[i].turn == turn
            &&& ring[i].step == seg * num_vertices_arc + i
            &&& ring[i].step < turn
            &&& ring[end].step == next_wedge(num_segments, seg) * num_vertices_arc
            &&& ring[end + 1 + i].step == ring[end - i].step
            &&& ring[2 * end + 1].step == ring[0].step
            &&& ring[i].angle_denominator() == 2 * num_segments * turn
        }),
{
    let nva = num_vertices_arc as int;
    let ns = num_segments as int;
    let turn = turn_of(num_vertices_arc, num_segments);
    let first = seg * nva;
    assert(0 <= first && first + nva <= turn && turn <= u128::MAX) by (nonlinear_arith)
        requires
            first == seg * nva,
            turn == nva * ns,
            0 <= seg < ns,
            nva >= 1,
            ns <= 0xFFFF_FFFF_FFFF_FFFF,
            nva <= 0xFFFF_FFFF_FFFF_FFFF,
    ;
    lemma_small_mod((first + i) as nat, turn as nat);
    lemma_small_mod(first as nat, turn as nat);
    if i > 0 {
        lemma_small_mod((first + nva - i) as nat, turn as nat);
    }
    if seg + 1 == num_segments {
        assert(first + nva == turn) by (nonlinear_arith)
            requires
                first == seg * nva,
                seg + 1 == ns,
                turn == nva * ns,
        ;
        assert(0 * nva == 0) by (nonlinear_arith);
        lemma_mod_self_0(turn);
    } else {
        assert((seg + 1) * nva == first + nva && first + nva < turn) by (nonlinear_arith)
            requires
                first == seg * nva,
                seg + 1 < ns,
                turn == nva * ns,
                nva >= 1,
        ;
        lemma_small_mod((first + nva) as nat, turn as nat);
    }
}

/// The first wedge of a ring has north in its middle: its arcs start as far
/// before north as they end after it.
pub proof fn lemma_first_wedge_centred_on_north(
    radius_outer: Scalar,
    radius_inner: Scalar,
    num_vertices_arc: usize,
    num_segments: usize,
)
    requires
        num_vertices_arc >= 1,
        num_segments >= 2,
    ensures
        ({
            let ring = wedge_ring(radius_outer, radius_inner, num_vertices_arc, num_segments, 0);
            let end = num_vertices_arc as int;
            &&& ring[0].angle_denominator() == ring[end].angle_denominator()
            &&& ring[0].angle_denominator() > 0
            &&& ring[0].angle_numerator() == -ring[end].angle_numerator()
            &&& ring[end].angle_numerator() == num_vertices_arc * num_segments
        }),
{
    let nva = num_vertices_arc as int;
    let ns = num_segments as int;
    lemma_wedge_spans_one_segment(radius_outer, radius_inner, num_vertices_arc, num_segments, 0, 0);
    let ring = wedge_ring(radius_outer, radius_inner, num_vertices_arc, num_segments, 0);
    assert(0 * nva == 0 && 1 * nva == nva && 2 * ns * 0 == 0) by (nonlinear_arith);
    assert(ring[0].step == 0);
    assert(ring[nva].step == nva);
    assert(2 * ns * nva - nva * ns == nva * ns && 2 * ns * (nva * ns) > 0) by (nonlinear_arith)
        requires
            nva >= 1,
            ns >= 2,
    ;
}

/// Every zone of a valid configuration lies in one of its rings, and within
/// the ring at one of its positions.
pub proof fn lemma_zone_place(params: Params, i: int)
    requires
        params.is_valid(),
        0 <= i < params.zone_count(),
    ensures
        0 <= params.ring_of(i) <= params.num_rings(),
        0 <= params.segment_of(i) < params.zones_per_ring(),
        i == 0 <==> params.ring_of(i) == 0,
        i > 0 ==> i == 1 + (params.ring_of(i) - 1) * params.zones_per_ring() + params.segment_of(i),
{
    if i > 0 {
        let per = params.zones_per_ring();
        let q = (i - 1) / per;
        lemma_fundamental_div_mod(i - 1, per);
        assert(per * q == q * per) by (nonlinear_arith);
        assert(q >= 0 && q < params.num_rings()) by (nonlinear_arith)
            requires
                per >= 1,
                0 <= i - 1 < params.num_rings() * per,
                i - 1 == q * per + (i - 1) % per,
                0 <= (i - 1) % per < per,
        ;
    }
}

/// Closure: in the diagram of a valid configuration the outer boundary of
/// every zone, and every hole, ends on the vertex it starts from.
pub proof fn lemma_zones_closed(params: Params, i: int)
    requires
        params.is_valid(),
        0 <= i < params.zone_count(),
    ensures
        params.zones()[i].is_closed(),
{
    lemma_zone_place(params, i);
}

/// Neighbouring wedges share their boundary: where the outer arc of a wedge
/// ends, the outer arc of the next wedge of the same ring starts, on the very
/// same vertex; and the inner arc of the next wedge ends where the inner arc
/// of the first starts. The next wedge after the last of a ring is the first
/// of that ring, so the wedges of a ring leave no gap and do not overlap.
pub proof fn lemma_adjacent_wedges_share_boundary(params: Params, i: int)
    requires
        params.is_valid(),
        params.num_segments > 1,
        1 <= i < params.zone_count(),
    ensures
        1 <= params.next_in_ring(i) < params.zone_count(),
        params.ring_of(params.next_in_ring(i)) == params.ring_of(i),
        params.segment_of(params.next_in_ring(i)) == next_wedge(
            params.num_segments,
            params.segment_of(i) as usize,
        ),
        params.zones()[i].ring[params.num_vertices_arc as int] == params.zones()[params.next_in_ring(
            i,
        )].ring[0],
        params.zones()[i].ring[params.num_vertices_arc + 1] == params.zones()[params.next_in_ring(
            i,
        )].ring[2 * params.num_vertices_arc + 1],
{
    let per = params.zones_per_ring();
    let ring = params.ring_of(i);
    let seg = params.segment_of(i);
    let j = params.next_in_ring(i);
    let next = next_wedge(params.num_segments, seg as usize) as int;
    lemma_zone_place(params, i);
    assert((ring - 1) * per >= 0 && (ring - 1) * per + per <= params.num_rings() * per)
        by (nonlinear_arith)
        requires
            1 <= ring <= params.num_rings(),
            per >= 1,
    ;
    assert(j == (ring - 1) * per + next + 1);
    lemma_fundamental_div_mod_converse(j - 1, per, ring - 1, next);
    lemma_wedge_meets_next(
        params.distances@[ring],
        params.distances@[ring - 1],
        params.num_vertices_arc,
        params.num_segments,
        seg as usize,
    );
}

/// No label is used twice: two zones of the diagram of a valid configuration
/// that have the same label are the same zone.
pub proof fn lemma_labels_distinct(params: Params, i: int, j: int)
    requires
        params.is_valid(),
        0 <= i < params.zone_count(),
        0 <= j < params.zone_count(),
        params.zones()[i].label == params.zones()[j].label,
    ensures
        i == j,
{
    lemma_zone_place(params, i);
    lemma_zone_place(params, j);
    let a = params.zones()[i].label;
    let b = params.zones()[j].label;
    let ri = params.ring_of(i);
    let rj = params.ring_of(j);
    lemma_two_digits_value((params.segment_of(i) + 1) as nat);
    lemma_two_digits_value((params.segment_of(j) + 1) as nat);
    assert(a[0] == letter_of(ri));
    assert(b[0] == letter_of(rj));
    assert(ri == rj);
    if ri > 0 && params.num_segments != 1 {
        let da = two_digits((params.segment_of(i) + 1) as nat);
        let db = two_digits((params.segment_of(j) + 1) as nat);
        assert(da =~= a.subrange(1, a.len() as int));
        assert(db =~= b.subrange(1, b.len() as int));
    }
}

/// Two configurations that differ in nothing but `projected` are turned down
/// alike, and give the same zones: as many, with the same labels, rings and
/// holes. Only the coordinate model differs.
pub proof fn lemma_projection_keeps_zones(a: Params, b: Params, center: Point)
    requires
        a.num_segments == b.num_segments,
        a.distances@ == b.distances@,
        a.num_vertices_arc == b.num_vertices_arc,
        a.precision == b.precision,
    ensures
        a.rejection() == b.rejection(),
        a.zone_count() == b.zone_count(),
        a.zones() == b.zones(),
        a.board(center).precision == b.board(center).precision,
        a.board(center).model == b.board(center).model <==> a.projected == b.projected,
{
    assert(a.zones() =~= b.zones());
}

} // verus!
