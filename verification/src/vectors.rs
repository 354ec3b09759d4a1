//! Cartesian vectors.
//!
//! A [`Vector`] is an unconstrained triple of whole-metre components; any
//! triple is valid, equality is exact component equality, and the total
//! order compares `x`, then `y`, then `z`.

use vstd::prelude::*;

verus! {

use core::cmp::Ordering;
use crate::constants::{WORLD_ORIGIN_X, WORLD_ORIGIN_Y, WORLD_ORIGIN_Z};
use crate::ordering::{lex3_cmp, lemma_lex3_antisymmetric, lemma_lex3_equal_iff,
    lemma_lex3_transitive};
use vstd::std_specs::cmp::PartialOrdSpec;

/// Whether a mathematical integer is representable as an `i64` component.
pub open spec fn fits_i64(v: int) -> bool {
    i64::MIN <= v <= i64::MAX
}

/// A cartesian vector: `x` points east, `y` north, `z` up, all in metres.
#[derive(Clone, Copy, Debug, PartialEq, Eq, Structural)]
pub struct Vector {
    pub x: i64,
    pub y: i64,
    pub z: i64,
}

impl Vector {
    /// The comparison key: the components in axis order.
    pub open spec fn key(self) -> (int, int, int) {
        (self.x as int, self.y as int, self.z as int)
    }

    /// Builds a vector from its components; no validation is involved.
    pub fn new(x: i64, y: i64, z: i64) -> (v: Vector)
        ensures
            v == (Vector { x, y, z }),
    {
        Vector { x, y, z }
    }

    /// The world origin as a cartesian vector.
    pub fn get_world_origin() -> (v: Vector)
        ensures
            v == (Vector { x: WORLD_ORIGIN_X, y: WORLD_ORIGIN_Y, z: WORLD_ORIGIN_Z }),
    {
        Vector { x: WORLD_ORIGIN_X, y: WORLD_ORIGIN_Y, z: WORLD_ORIGIN_Z }
    }

    /// The east component.
    pub fn get_x(&self) -> (r: i64)
        ensures
            r == self.x,
    {
        self.x
    }

    /// The north component.
    pub fn get_y(&self) -> (r: i64)
        ensures
            r == self.y,
    {
        self.y
    }

    /// The up component.
    pub fn get_z(&self) -> (r: i64)
        ensures
            r == self.z,
    {
        self.z
    }

    /// Component-wise sum.
    pub fn add(&self, other: &Self) -> (r: Vector)
        requires
            i64::MIN <= self.x + other.x <= i64::MAX,
            i64::MIN <= self.y + other.y <= i64::MAX,
            i64::MIN <= self.z + other.z <= i64::MAX,
        ensures
            r.x == self.x + other.x,
            r.y == self.y + other.y,
            r.z == self.z + other.z,
    {
        Vector { x: self.x + other.x, y: self.y + other.y, z: self.z + other.z }
    }

    /// Component-wise difference.
    pub fn sub(&self, other: &Self) -> (r: Vector)
        requires
            i64::MIN <= self.x - other.x <= i64::MAX,
            i64::MIN <= self.y - other.y <= i64::MAX,
            i64::MIN <= self.z - other.z <= i64::MAX,
        ensures
            r.x == self.x - other.x,
            r.y == self.y - other.y,
            r.z == self.z - other.z,
    {
        Vector { x: self.x - other.x, y: self.y - other.y, z: self.z - other.z }
    }

    /// Component-wise difference, under its older name.
    pub fn subtract(&self, other: &Self) -> (r: Vector)
        requires
            i64::MIN <= self.x - other.x <= i64::MAX,
            i64::MIN <= self.y - other.y <= i64::MAX,
            i64::MIN <= self.z - other.z <= i64::MAX,
        ensures
            r.x == self.x - other.x,
            r.y == self.y - other.y,
            r.z == self.z - other.z,
    {
        self.sub(other)
    }

    /// Total comparison: equality first, then `x`, `y`, `z` in turn.
    pub fn cmp(&self, other: &Self) -> (r: Ordering)
        ensures
            r == lex3_cmp(self.key(), other.key()),
    {
        if *self == *other {
            Ordering::Equal
        } else if self.x != other.x {
            if self.x > other.x {
                Ordering::Greater
            } else {
                Ordering::Less
            }
        } else if self.y != other.y {
            if self.y > other.y {
                Ordering::Greater
            } else {
                Ordering::Less
            }
        } else {
            if self.z > other.z {
                Ordering::Greater
            } else {
                Ordering::Less
            }
        }
    }
}

impl PartialOrd for Vector {
    /// Agrees with [`Vector::cmp`] on every pair of vectors.
    fn partial_cmp(&self, other: &Self) -> (r: Option<Ordering>) {
        Some(self.cmp(other))
    }
}

impl vstd::std_specs::cmp::PartialOrdSpecImpl for Vector {
    open spec fn obeys_partial_cmp_spec() -> bool {
        true
    }

    open spec fn partial_cmp_spec(&self, other: &Self) -> Option<Ordering> {
        Some(lex3_cmp(self.key(), other.key()))
    }
}

/// `cmp` and `partial_cmp` agree: on any two vectors, `partial_cmp` is
/// bound by its contract to return `Some` of exactly the ordering that
/// `cmp` returns.
pub proof fn lemma_vector_cmp_partial_cmp_agree(a: Vector, b: Vector)
    ensures
        Vector::obeys_partial_cmp_spec(),
        a.partial_cmp_spec(&b) == Some(lex3_cmp(a.key(), b.key())),
{
}

/// The comparison reports `Equal` exactly on equal vectors.
pub proof fn lemma_vector_cmp_equal_iff(a: Vector, b: Vector)
    ensures
        lex3_cmp(a.key(), b.key()) == Ordering::Equal <==> a == b,
{
    lemma_lex3_equal_iff(a.key(), b.key());
}

/// Antisymmetry of the vector order.
pub proof fn lemma_vector_cmp_antisymmetric(a: Vector, b: Vector)
    ensures
        lex3_cmp(a.key(), b.key()) == Ordering::Less <==> lex3_cmp(b.key(), a.key())
            == Ordering::Greater,
{
    lemma_lex3_antisymmetric(a.key(), b.key());
}

/// Transitivity of the vector order.
pub proof fn lemma_vector_cmp_transitive(a: Vector, b: Vector, c: Vector)
    requires
        lex3_cmp(a.key(), b.key()) == Ordering::Less,
        lex3_cmp(b.key(), c.key()) == Ordering::Less,
    ensures
        lex3_cmp(a.key(), c.key()) == Ordering::Less,
{
    lemma_lex3_transitive(a.key(), b.key(), c.key());
}

} // verus!
