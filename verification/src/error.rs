//! Why a clockboard cannot be generated.

use vstd::prelude::*;

verus! {

/// The reasons for which a configuration is turned down. Each is found before
/// any zone is built.
#[derive(Clone, Copy, Debug, PartialEq, Eq, Structural)]
pub enum ClockboardError {
    /// `num_segments` is zero.
    NoSegments,
    /// `num_vertices_arc` is zero.
    NoArcVertices,
    /// `distances` is empty.
    NoDistances,
    /// A distance is not a finite number greater than zero.
    InvalidDistance,
    /// A distance is not greater than the one before it.
    DistancesNotIncreasing,
    /// There are more rings around the innermost circle than letters to name
    /// them.
    TooManyRings,
    /// A full circle would have fewer than three vertices.
    TooFewVertices,
    /// The number of vertices of a full circle does not fit the machine word.
    TooManyVertices,
}

impl ClockboardError {
    /// The reason in words.
    pub open spec fn description(self) -> Seq<char> {
        match self {
            ClockboardError::NoSegments => "the number of segments is zero"@,
            ClockboardError::NoArcVertices => "the number of vertices per arc is zero"@,
            ClockboardError::NoDistances => "no distances are given"@,
            ClockboardError::InvalidDistance => "a distance is not a finite number above zero"@,
            ClockboardError::DistancesNotIncreasing => "the distances do not increase"@,
            ClockboardError::TooManyRings => "there are more rings than letters to name them"@,
            ClockboardError::TooFewVertices => "a circle needs at least three vertices"@,
            ClockboardError::TooManyVertices => "there are too many vertices in a circle"@,
        }
    }

    /// Says in words why the configuration was turned down.
    pub fn describe(self) -> (text: &'static str)
        ensures
            text@ == self.description(),
    {
        match self {
            ClockboardError::NoSegments => "the number of segments is zero",
            ClockboardError::NoArcVertices => "the number of vertices per arc is zero",
            ClockboardError::NoDistances => "no distances are given",
            ClockboardError::InvalidDistance => "a distance is not a finite number above zero",
            ClockboardError::DistancesNotIncreasing => "the distances do not increase",
            ClockboardError::TooManyRings => "there are more rings than letters to name them",
            ClockboardError::TooFewVertices => "a circle needs at least three vertices",
            ClockboardError::TooManyVertices => "there are too many vertices in a circle",
        }
    }
}

} // verus!
