//! Points bound to a frame.
//!
//! A point in space is a vector together with the coordinate system the
//! vector is expressed in.  The pairing is purely notational: any vector is
//! accepted for any frame, and nothing is transformed until the caller asks
//! the frame to resolve the vector.  Equality composes both fields: two
//! points are equal only if frame and vector both are.

use vstd::prelude::*;

verus! {

use crate::coordinate_system::CoordinateSystem;
use crate::polar_vector::PolarVec;
use crate::vectors::Vector;

/// A point described by a cartesian vector in a given coordinate system.
#[derive(Debug, PartialEq, Eq)]
pub struct VectorPoint {
    pub cord_sys: CoordinateSystem,
    pub vector: Vector,
}

impl VectorPoint {
    /// Pairs a coordinate system with a cartesian vector; no validation is
    /// involved.
    pub fn new(cord_sys: CoordinateSystem, vector: Vector) -> (p: VectorPoint)
        ensures
            p.cord_sys == cord_sys,
            p.vector == vector,
    {
        VectorPoint { cord_sys, vector }
    }

    /// The coordinate system in which this point is expressed.
    pub fn get_cord_sys(&self) -> (r: &CoordinateSystem)
        ensures
            *r == self.cord_sys,
    {
        &self.cord_sys
    }

    /// The vector that defines the point.
    pub fn get_vector(&self) -> (r: &Vector)
        ensures
            *r == self.vector,
    {
        &self.vector
    }
}

impl Clone for VectorPoint {
    /// A clone equals the original, frame and vector included.
    fn clone(&self) -> (r: Self)
        ensures
            r == *self,
    {
        VectorPoint { cord_sys: self.cord_sys.clone(), vector: self.vector }
    }
}

/// A point described by a polar vector in a given coordinate system.
#[derive(Debug, PartialEq, Eq)]
pub struct PolarVectorPoint {
    pub cord_sys: CoordinateSystem,
    pub vector: PolarVec,
}

impl PolarVectorPoint {
    /// Pairs a coordinate system with a polar vector; no validation is
    /// involved.
    pub fn new(cord_sys: CoordinateSystem, vector: PolarVec) -> (p: PolarVectorPoint)
        ensures
            p.cord_sys == cord_sys,
            p.vector == vector,
    {
        PolarVectorPoint { cord_sys, vector }
    }

    /// The coordinate system in which this point is expressed.
    pub fn get_cord_sys(&self) -> (r: &CoordinateSystem)
        ensures
            *r == self.cord_sys,
    {
        &self.cord_sys
    }

    /// The vector that defines the point.
    pub fn get_vector(&self) -> (r: &PolarVec)
        ensures
            *r == self.vector,
    {
        &self.vector
    }
}

impl Clone for PolarVectorPoint {
    /// A clone equals the original, frame and vector included.
    fn clone(&self) -> (r: Self)
        ensures
            r == *self,
    {
        PolarVectorPoint { cord_sys: self.cord_sys.clone(), vector: self.vector }
    }
}

} // verus!
