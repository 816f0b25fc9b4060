//! The vertex sequences of full circles and of wedges.
//!
//! A vertex is described, not computed: at which radius it lies and how many
//! steps around the full turn. The steps are counted modulo the full turn, so
//! that a vertex of a circle has one description from whichever wedge it is
//! reached. Vertices with the same description are the same point, whatever
//! coordinate model turns them into numbers.

use vstd::prelude::*;
use vstd::arithmetic::div_mod::{lemma_mod_self_0, lemma_small_mod};
use crate::error::ClockboardError;
use crate::scalar::Scalar;

verus! {

/// The fewest vertices that bound an area.
pub const MIN_CIRCLE_VERTICES: usize = 3;

/// From where the steps of a vertex are counted.
#[derive(Clone, Copy, Debug, PartialEq, Eq, Structural)]
pub enum Sweep {
    /// The convention of full circles: step zero lies at angle zero, which
    /// is the direction of the x axis in the plane and north on the
    /// ellipsoid.
    Circle,
    /// The convention of wedges: a bearing clockwise from north, turned back
    /// by half the width of one of `segments` equal segments, so that the
    /// first segment has north in its middle.
    Clock { segments: usize },
}

/// A point at `radius` from the centre, `step` steps of a full turn of `turn`
/// equal steps away from where `sweep` starts. Both counts are wide enough
/// for the product of two machine words, so that no number of segments and of
/// steps along an arc is too large for them.
#[derive(Clone, Copy, Debug, PartialEq, Eq, Structural)]
pub struct Vertex {
    pub radius: Scalar,
    pub step: u128,
    pub turn: u128,
    pub sweep: Sweep,
}

impl Vertex {
    /// The denominator of the angle of the vertex: the angle is
    /// `angle_numerator` parts of a full turn cut into this many.
    pub open spec fn angle_denominator(self) -> int {
        match self.sweep {
            Sweep::Circle => self.turn as int,
            Sweep::Clock { segments } => 2 * segments * self.turn,
        }
    }

    /// The numerator of the angle of the vertex: `step` steps of `turn`, for
    /// a wedge less half a segment.
    pub open spec fn angle_numerator(self) -> int {
        match self.sweep {
            Sweep::Circle => self.step as int,
            Sweep::Clock { segments } => 2 * segments * self.step - self.turn,
        }
    }
}

/// Vertex `step` of a full circle of `num_vertices` vertices.
pub open spec fn circle_vertex(radius: Scalar, num_vertices: usize, step: int) -> Vertex {
    Vertex { radius, step: step as u128, turn: num_vertices as u128, sweep: Sweep::Circle }
}

/// A full circle: `num_vertices` vertices at equal steps from step zero, and
/// the first of them once more at the end, which closes the ring.
pub open spec fn circle_ring(radius: Scalar, num_vertices: usize) -> Seq<Vertex> {
    Seq::new(
        num_vertices as nat + 1,
        |i: int| circle_vertex(radius, num_vertices, if i < num_vertices { i } else { 0 }),
    )
}

/// The number of steps of the full turn of a circle that `num_segments`
/// segments of `num_vertices_arc` steps each divide.
pub open spec fn turn_of(num_vertices_arc: usize, num_segments: usize) -> int {
    num_vertices_arc * num_segments
}

/// The vertex `step` steps around a circle that `num_segments` segments of
/// `num_vertices_arc` steps each divide. A full turn leads back to the vertex
/// it started from: the steps count modulo the turn.
pub open spec fn arc_vertex(
    radius: Scalar,
    num_vertices_arc: usize,
    num_segments: usize,
    step: int,
) -> Vertex {
    Vertex {
        radius,
        step: (step % turn_of(num_vertices_arc, num_segments)) as u128,
        turn: turn_of(num_vertices_arc, num_segments) as u128,
        sweep: Sweep::Clock { segments: num_segments },
    }
}

/// How many vertices the ring of a wedge has: both arcs with their boundary
/// vertices, and the closing vertex.
pub open spec fn wedge_len(num_vertices_arc: usize) -> nat {
    2 * (num_vertices_arc as nat + 1) + 1
}

/// The ring of wedge `seg`: the outer arc from the wedge's first step to its
/// last, both included, then the inner arc over the same steps backwards, then
/// the first vertex once more.
pub open spec fn wedge_ring(
    radius_outer: Scalar,
    radius_inner: Scalar,
    num_vertices_arc: usize,
    num_segments: usize,
    seg: usize,
) -> Seq<Vertex> {
    let first = seg * num_vertices_arc;
    let last = first + num_vertices_arc;
    Seq::new(
        wedge_len(num_vertices_arc),
        |i: int|
            if i <= num_vertices_arc {
                arc_vertex(radius_outer, num_vertices_arc, num_segments, first + i)
            } else if i <= 2 * num_vertices_arc + 1 {
                arc_vertex(
                    radius_inner,
                    num_vertices_arc,
                    num_segments,
                    last - (i - (num_vertices_arc + 1)),
                )
            } else {
                arc_vertex(radius_outer, num_vertices_arc, num_segments, first)
            },
    )
}

/// The wedge that follows wedge `seg` around a circle of `num_segments`
/// wedges: after the last one comes the first.
pub open spec fn next_wedge(num_segments: usize, seg: usize) -> usize {
    if seg + 1 == num_segments {
        0
    } else {
        (seg + 1) as usize
    }
}

/// A wedge ends where the next wedge around the circle starts: the last vertex
/// of its outer arc is the first vertex of the outer arc of the next wedge,
/// and the first vertex of its inner arc is the last vertex of the inner arc
/// of the next wedge. This holds of the last wedge and the first as of any
/// two neighbours, so that the wedges of a ring leave no gap and do not
/// overlap.
pub proof fn lemma_wedge_meets_next(
    radius_outer: Scalar,
    radius_inner: Scalar,
    num_vertices_arc: usize,
    num_segments: usize,
    seg: usize,
)
    requires
        num_vertices_arc >= 1,
        num_segments >= 1,
        seg < num_segments,
    ensures
        ({
            let this = wedge_ring(radius_outer, radius_inner, num_vertices_arc, num_segments, seg);
            let next = wedge_ring(
                radius_outer,
                radius_inner,
                num_vertices_arc,
                num_segments,
                next_wedge(num_segments, seg),
            );
            &&& this[num_vertices_arc as int] == next[0]
            &&& this[num_vertices_arc + 1] == next[2 * num_vertices_arc + 1]
        }),
{
    let nva = num_vertices_arc as int;
    let ns = num_segments as int;
    let turn = turn_of(num_vertices_arc, num_segments);
    assert(turn >= 1) by (nonlinear_arith)
        requires
            turn == nva * ns,
            nva >= 1,
            ns >= 1,
    ;
    assert((seg + 1) * nva == seg * nva + nva) by (nonlinear_arith);
    if seg + 1 == num_segments {
        assert(seg * nva + nva == turn) by (nonlinear_arith)
            requires
                seg + 1 == ns,
                turn == nva * ns,
        ;
        assert(0 * nva == 0) by (nonlinear_arith);
        lemma_mod_self_0(turn);
        lemma_small_mod(0, turn as nat);
    }
}

/// The product of two machine words, and a machine word more, fit 128 bits.
proof fn lemma_words_fit(a: usize, b: usize, c: usize)
    ensures
        a * b + c <= u128::MAX,
        0 <= a * b,
{
    assert(a * b <= 0xFFFF_FFFF_FFFF_FFFF * 0xFFFF_FFFF_FFFF_FFFF) by (nonlinear_arith)
        requires
            0 <= a <= 0xFFFF_FFFF_FFFF_FFFF,
            0 <= b <= 0xFFFF_FFFF_FFFF_FFFF,
    ;
    assert(0 <= a * b) by (nonlinear_arith)
        requires
            0 <= a,
            0 <= b,
    ;
}

/// Lays out a full circle, whatever the number of its vertices.
pub(crate) fn lay_circle(radius: Scalar, num_vertices: usize) -> (ring: Vec<Vertex>)
    ensures
        ring@ == circle_ring(radius, num_vertices),
{
    let turn: u128 = num_vertices as u128;
    let mut ring: Vec<Vertex> = Vec::new();
    let mut step: usize = 0;
    while step < num_vertices
        invariant
            step <= num_vertices,
            turn == num_vertices,
            ring@.len() == step,
            forall|i: int|
                0 <= i < step ==> ring@[i] == #[trigger] circle_ring(radius, num_vertices)[i],
        decreases num_vertices - step,
    {
        ring.push(Vertex { radius, step: step as u128, turn, sweep: Sweep::Circle });
        step = step + 1;
    }
    ring.push(Vertex { radius, step: 0, turn, sweep: Sweep::Circle });
    assert(ring@ =~= circle_ring(radius, num_vertices));
    ring
}

/// Lays out a full circle of `num_vertices` vertices at `radius`, as a closed
/// ring. Fewer than three vertices bound no area and are turned down.
pub fn make_circle(radius: Scalar, num_vertices: usize) -> (made: Result<
    Vec<Vertex>,
    ClockboardError,
>)
    ensures
        made is Ok <==> num_vertices >= MIN_CIRCLE_VERTICES,
        made matches Ok(ring) ==> ring@ == circle_ring(radius, num_vertices),
        made matches Ok(ring) ==> ring@.first() == ring@.last(),
        made matches Err(e) ==> e == ClockboardError::TooFewVertices,
{
    if num_vertices < MIN_CIRCLE_VERTICES {
        Err(ClockboardError::TooFewVertices)
    } else {
        Ok(lay_circle(radius, num_vertices))
    }
}

/// Lays out the ring of wedge `seg` between the circles at `radius_inner` and
/// `radius_outer`. The wedges are counted around the circle, so that wedge
/// `num_segments` is wedge zero once more.
pub fn clock_polygon(
    radius_outer: Scalar,
    radius_inner: Scalar,
    num_vertices_arc: usize,
    num_segments: usize,
    seg: usize,
) -> (ring: Vec<Vertex>)
    requires
        radius_inner.below(radius_outer),
        num_vertices_arc >= 1,
        num_segments >= 1,
    ensures
        ring@ == wedge_ring(radius_outer, radius_inner, num_vertices_arc, num_segments, seg),
        ring@.len() == wedge_len(num_vertices_arc),
        ring@.first() == ring@.last(),
        seg < num_segments ==> ring@[num_vertices_arc as int] == wedge_ring(
            radius_outer,
            radius_inner,
            num_vertices_arc,
            num_segments,
            next_wedge(num_segments, seg),
        )[0],
        seg < num_segments ==> ring@[num_vertices_arc + 1] == wedge_ring(
            radius_outer,
            radius_inner,
            num_vertices_arc,
            num_segments,
            next_wedge(num_segments, seg),
        )[2 * num_vertices_arc + 1],
{
    proof {
        if seg < num_segments {
            lemma_wedge_meets_next(radius_outer, radius_inner, num_vertices_arc, num_segments, seg);
        }
        lemma_words_fit(num_vertices_arc, num_segments, 0);
        lemma_words_fit(seg, num_vertices_arc, num_vertices_arc);
        assert(turn_of(num_vertices_arc, num_segments) >= 1) by (nonlinear_arith)
            requires
                num_vertices_arc >= 1,
                num_segments >= 1,
        ;
    }
    let turn: u128 = (num_vertices_arc as u128) * (num_segments as u128);
    let sweep = Sweep::Clock { segments: num_segments };
    let first: u128 = (seg as u128) * (num_vertices_arc as u128);
    let last: u128 = first + num_vertices_arc as u128;
    let ghost want = wedge_ring(radius_outer, radius_inner, num_vertices_arc, num_segments, seg);
    let mut ring: Vec<Vertex> = Vec::new();

    let mut along: usize = 0;
    while along < num_vertices_arc
        invariant
            along <= num_vertices_arc,
            last == first + num_vertices_arc,
            first == seg * num_vertices_arc,
            turn == turn_of(num_vertices_arc, num_segments),
            turn >= 1,
            sweep == (Sweep::Clock { segments: num_segments }),
            want == wedge_ring(radius_outer, radius_inner, num_vertices_arc, num_segments, seg),
            ring@.len() == along,
            forall|i: int| 0 <= i < ring@.len() ==> ring@[i] == #[trigger] want[i],
        decreases num_vertices_arc - along,
    {
        ring.push(Vertex { radius: radius_outer, step: (first + along as u128) % turn, turn, sweep });
        along = along + 1;
    }
    ring.push(Vertex { radius: radius_outer, step: last % turn, turn, sweep });

    let mut back: usize = 0;
    while back < num_vertices_arc
        invariant
            back <= num_vertices_arc,
            last == first + num_vertices_arc,
            first == seg * num_vertices_arc,
            turn == turn_of(num_vertices_arc, num_segments),
            turn >= 1,
            sweep == (Sweep::Clock { segments: num_segments }),
            want == wedge_ring(radius_outer, radius_inner, num_vertices_arc, num_segments, seg),
            ring@.len() == num_vertices_arc + 1 + back,
            forall|i: int| 0 <= i < ring@.len() ==> ring@[i] == #[trigger] want[i],
        decreases num_vertices_arc - back,
    {
        ring.push(Vertex { radius: radius_inner, step: (last - back as u128) % turn, turn, sweep });
        back = back + 1;
    }
    ring.push(Vertex { radius: radius_inner, step: first % turn, turn, sweep });
    ring.push(Vertex { radius: radius_outer, step: first % turn, turn, sweep });
    assert(ring@ =~= want);
    ring
}

} // verus!
