//! A small spatial-geometry kernel.
//!
//! Points and directions in 3D space are carried in two interchangeable
//! representations: cartesian triples ([`vectors::Vector`]) and canonical
//! polar triples ([`polar_vector::PolarVec`]).  Frames of reference form a
//! singly-rooted tree ([`coordinate_system::CoordinateSystem`]); a vector
//! expressed relative to a local frame is resolved into the shared world
//! frame by walking the parent chain and accumulating origin offsets.
//!
//! All components are exact integers: lengths in metres and angles in whole
//! degrees, with azimuth `phi` in `[0, 360)` and polar angle `theta` in
//! `[0, 180)` — except for the one canonical triple naming the negative
//! polar axis, `(r, 180, 180)`, which normalization produces from a negative
//! radius whose wrapped `theta` is 0.  Equality on polar vectors is exact
//! component equality on the canonical triple; no tolerance is involved
//! anywhere.

pub mod constants;
pub mod coordinate_system;
pub mod ordering;
pub mod polar_vector;
pub mod vector_points;
pub mod vectors;
