//! Clockboard zoning: concentric rings around a centre, each ring cut into
//! equal angular segments like the face of a clock, every zone labelled.
//!
//! The library holds the configuration to its rules, decides which vertices
//! make up every zone and in what order, names the zones and gives each the
//! properties it carries into a feature collection. A vertex is held as an
//! exact description (its radius, its step around the full turn, and the
//! convention its angle is measured by), so that all of this is integer logic
//! with verified contracts. Turning a vertex into a pair of coordinates is
//! arithmetic on binary floating point numbers and is left to the caller.

pub mod board;
pub mod error;
pub mod label;
pub mod laws;
pub mod params;
pub mod precision;
pub mod properties;
pub mod ring;
pub mod scalar;
pub mod sequence;
pub mod zone;

pub use board::{clockboard, Clockboard};
pub use error::ClockboardError;
pub use params::{CoordinateModel, Params};
pub use ring::{Sweep, Vertex};
pub use scalar::{Point, Scalar};
pub use sequence::triangular_sequence;
pub use zone::Zone;
