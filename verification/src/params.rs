//! The configuration of a clockboard and the rules it has to meet.

use vstd::prelude::*;
use crate::error::ClockboardError;
use crate::label::RING_LETTERS;
use crate::ring::MIN_CIRCLE_VERTICES;
use crate::scalar::{lemma_order_of_patterns, lemma_whole_order, lemma_whole_positive, Scalar};
use crate::sequence::{lemma_triangular_grows, triangular, triangular_sequence};

verus! {

/// The two ways of turning a radius and an angle into a coordinate pair.
#[derive(Clone, Copy, Debug, PartialEq, Eq, Structural)]
pub enum CoordinateModel {
    /// Trigonometry in the flat plane; distances are in the plane's units.
    Planar,
    /// The direct geodesic problem on the WGS84 ellipsoid; distances are in
    /// kilometres and coordinates are (longitude, latitude).
    Geodesic,
}

/// Configures a clockboard diagram.
#[derive(Clone, Debug)]
pub struct Params {
    /// The number of radial segments of each ring.
    pub num_segments: usize,
    /// The distances of the ring boundaries from the centre, innermost first.
    pub distances: Vec<Scalar>,
    /// The number of steps along the arc of one segment.
    pub num_vertices_arc: usize,
    /// The number of decimal places kept in the coordinates; any number.
    pub precision: usize,
    /// Whether the centre is given in a flat, projected plane.
    pub projected: bool,
}

/// Every distance is a finite number greater than zero.
pub open spec fn all_positive_finite(distances: Seq<Scalar>) -> bool {
    forall|i: int| 0 <= i < distances.len() ==> (#[trigger] distances[i]).is_positive_finite()
}

/// Every distance but the first is greater than the one before it.
pub open spec fn strictly_increasing(distances: Seq<Scalar>) -> bool {
    forall|i: int|
        0 < i < distances.len() ==> distances[i - 1].magnitude() < (
        #[trigger] distances[i]).magnitude()
}

/// Tells whether every distance is a finite number greater than zero.
fn check_positive_finite(distances: &Vec<Scalar>) -> (ok: bool)
    ensures
        ok == all_positive_finite(distances@),
{
    let mut i: usize = 0;
    while i < distances.len()
        invariant
            i <= distances.len(),
            all_positive_finite(distances@.take(i as int)),
        decreases distances.len() - i,
    {
        if !distances[i].positive_finite() {
            return false;
        }
        assert forall|j: int| 0 <= j < i + 1 implies (#[trigger] distances@.take(i + 1)[j])
            .is_positive_finite() by {
            if j < i {
                assert(distances@.take(i as int)[j].is_positive_finite());
            }
        }
        i = i + 1;
    }
    assert(distances@.take(i as int) =~= distances@);
    true
}

/// Tells whether the distances grow from each to the next.
fn check_strictly_increasing(distances: &Vec<Scalar>) -> (ok: bool)
    requires
        all_positive_finite(distances@),
    ensures
        ok == strictly_increasing(distances@),
{
    if distances.len() == 0 {
        return true;
    }
    let mut i: usize = 1;
    while i < distances.len()
        invariant
            1 <= i <= distances.len(),
            all_positive_finite(distances@),
            strictly_increasing(distances@.take(i as int)),
        decreases distances.len() - i,
    {
        proof {
            assert(distances@[i - 1].is_positive_finite());
            assert(distances@[i as int].is_positive_finite());
            lemma_order_of_patterns(distances@[i - 1], distances@[i as int]);
        }
        if distances[i - 1].bits >= distances[i].bits {
            return false;
        }
        assert forall|j: int| 0 < j < i + 1 implies distances@.take(i + 1)[j - 1].magnitude() < (
        #[trigger] distances@.take(i + 1)[j]).magnitude() by {
            if j < i {
                assert(distances@.take(i as int)[j - 1].magnitude() < distances@.take(
                    i as int,
                )[j].magnitude());
            }
        }
        i = i + 1;
    }
    assert(distances@.take(i as int) =~= distances@);
    true
}

/// Each distance is the whole number that is the triangular number of its
/// place, counted from one: 1, 3, 6, 10, 15, ...
pub open spec fn triangular_distances(distances: Seq<Scalar>) -> bool {
    forall|i: int|
        0 <= i < distances.len() ==> (#[trigger] distances[i]).is_whole(triangular((i + 1) as nat))
}

/// Distances that are the triangular numbers are numbers greater than zero
/// and grow from each to the next.
pub proof fn lemma_triangular_distances_valid(distances: Seq<Scalar>)
    requires
        triangular_distances(distances),
    ensures
        all_positive_finite(distances),
        strictly_increasing(distances),
{
    assert forall|i: int| 0 <= i < distances.len() implies (#[trigger] distances[i])
        .is_positive_finite() by {
        lemma_triangular_grows(1, (i + 1) as nat);
        lemma_whole_positive(distances[i], triangular((i + 1) as nat));
    }
    assert forall|i: int| 0 < i < distances.len() implies distances[i - 1].magnitude() < (
    #[trigger] distances[i]).magnitude() by {
        lemma_triangular_grows(i as nat, (i + 1) as nat);
        lemma_whole_order(
            distances[i - 1],
            triangular(i as nat),
            distances[i],
            triangular((i + 1) as nat),
        );
    }
}

impl Default for Params {
    /// Twelve segments like the hours on a clock, ring boundaries at the first
    /// five triangular numbers, ten steps along each arc, six decimal places,
    /// and the geodesic model.
    fn default() -> (params: Params)
        ensures
            params.num_segments == 12,
            params.distances@.len() == 5,
            triangular_distances(params.distances@),
            params.num_vertices_arc == 10,
            params.precision == 6,
            !params.projected,
            params.is_valid(),
    {
        let distances = triangular_sequence(5);
        proof {
            lemma_triangular_distances_valid(distances@);
        }
        Params {
            num_segments: 12,
            distances,
            num_vertices_arc: 10,
            precision: 6,
            projected: false,
        }
    }
}

impl Params {
    /// The number of rings around the innermost circle.
    pub open spec fn num_rings(&self) -> int {
        self.distances@.len() - 1
    }

    /// The number of vertices of a full circle.
    pub open spec fn circle_vertices(&self) -> int {
        self.num_vertices_arc * self.num_segments
    }

    /// The first rule that the configuration breaks, if it breaks one.
    pub open spec fn rejection(&self) -> Option<ClockboardError> {
        if self.num_segments == 0 {
            Some(ClockboardError::NoSegments)
        } else if self.num_vertices_arc == 0 {
            Some(ClockboardError::NoArcVertices)
        } else if self.distances@.len() == 0 {
            Some(ClockboardError::NoDistances)
        } else if !all_positive_finite(self.distances@) {
            Some(ClockboardError::InvalidDistance)
        } else if !strictly_increasing(self.distances@) {
            Some(ClockboardError::DistancesNotIncreasing)
        } else if self.num_rings() >= RING_LETTERS {
            Some(ClockboardError::TooManyRings)
        } else if self.circle_vertices() > usize::MAX {
            Some(ClockboardError::TooManyVertices)
        } else if self.circle_vertices() < MIN_CIRCLE_VERTICES {
            Some(ClockboardError::TooFewVertices)
        } else {
            None
        }
    }

    /// The configuration breaks no rule.
    pub open spec fn is_valid(&self) -> bool {
        self.rejection() is None
    }

    /// The coordinate model that the configuration selects.
    pub open spec fn model(&self) -> CoordinateModel {
        if self.projected {
            CoordinateModel::Planar
        } else {
            CoordinateModel::Geodesic
        }
    }

    /// Holds the configuration to the rules, and names the first that it
    /// breaks.
    pub fn validate(&self) -> (checked: Result<(), ClockboardError>)
        ensures
            checked is Ok <==> self.is_valid(),
            checked matches Err(e) ==> self.rejection() == Some(e),
    {
        if self.num_segments == 0 {
            return Err(ClockboardError::NoSegments);
        }
        if self.num_vertices_arc == 0 {
            return Err(ClockboardError::NoArcVertices);
        }
        if self.distances.len() == 0 {
            return Err(ClockboardError::NoDistances);
        }
        if !check_positive_finite(&self.distances) {
            return Err(ClockboardError::InvalidDistance);
        }
        if !check_strictly_increasing(&self.distances) {
            return Err(ClockboardError::DistancesNotIncreasing);
        }
        if self.distances.len() - 1 >= RING_LETTERS {
            return Err(ClockboardError::TooManyRings);
        }
        match self.num_vertices_arc.checked_mul(self.num_segments) {
            None => {
                return Err(ClockboardError::TooManyVertices);
            },
            Some(n) => {
                if n < MIN_CIRCLE_VERTICES {
                    return Err(ClockboardError::TooFewVertices);
                }
            },
        }
        Ok(())
    }

    /// Resolves the coordinate model, once for the whole generation.
    pub fn coordinate_model(&self) -> (model: CoordinateModel)
        ensures
            model == self.model(),
    {
        if self.projected {
            CoordinateModel::Planar
        } else {
            CoordinateModel::Geodesic
        }
    }
}

} // verus!
