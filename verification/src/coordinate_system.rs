//! The hierarchy of coordinate frames.
//!
//! Frames form a singly-rooted tree: the unique [`WorldCoordSystem`] root,
//! and [`GeneralCoordSystem`] frames each defined by an origin offset
//! expressed in the space of exactly one parent frame.  A frame owns its
//! parent, so every parent chain is finite and acyclic by construction.
//!
//! Resolving a vector expressed in a local frame into world coordinates
//! walks the chain from the frame to the root, adding each origin offset on
//! the way; frames differ only by translation, so the whole resolution is a
//! translation by the chain's accumulated offset
//! ([`lemma_resolve_is_translation`]).

use vstd::prelude::*;

verus! {

use crate::constants::{WORLD_ORIGIN_X, WORLD_ORIGIN_Y, WORLD_ORIGIN_Z};
use crate::vectors::{fits_i64, Vector};

/// A frame of reference: the world root, or a frame defined relative to a
/// parent.
#[derive(Debug, PartialEq, Eq)]
pub enum CoordinateSystem {
    World(WorldCoordSystem),
    General(GeneralCoordSystem),
}

/// The unique root frame.  Its origin is the world origin and it has no
/// parent; world coordinates are the fixed point of frame resolution.
#[derive(Debug, PartialEq, Eq)]
pub struct WorldCoordSystem {
    pub id: String,
    pub origin: Vector,
}

/// A named frame with an origin offset expressed in its parent's space and
/// exactly one parent, itself either the root or another general frame.
#[derive(Debug, PartialEq, Eq)]
pub struct GeneralCoordSystem {
    pub id: String,
    pub parent_coord_system: Box<CoordinateSystem>,
    pub origin: Vector,
}

/// World coordinates of the point whose coordinates in `cs` are
/// `(x, y, z)`: each frame on the chain up to the root adds its origin
/// offset.
pub open spec fn resolve_spec(cs: CoordinateSystem, x: int, y: int, z: int) -> (int, int, int)
    decreases cs,
{
    match cs {
        CoordinateSystem::World(_) => (x, y, z),
        CoordinateSystem::General(g) => resolve_spec(
            *g.parent_coord_system,
            x + g.origin.x,
            y + g.origin.y,
            z + g.origin.z,
        ),
    }
}

/// Whether every partial sum met while resolving `(x, y, z)` through `cs`
/// stays representable in `i64` components.
pub open spec fn resolve_fits(cs: CoordinateSystem, x: int, y: int, z: int) -> bool
    decreases cs,
{
    match cs {
        CoordinateSystem::World(_) => true,
        CoordinateSystem::General(g) => {
            let xx = x + g.origin.x;
            let yy = y + g.origin.y;
            let zz = z + g.origin.z;
            fits_i64(xx) && fits_i64(yy) && fits_i64(zz) && resolve_fits(
                *g.parent_coord_system,
                xx,
                yy,
                zz,
            )
        },
    }
}

/// The accumulated origin offset of a frame's whole parent chain.
pub open spec fn total_offset(cs: CoordinateSystem) -> (int, int, int)
    decreases cs,
{
    match cs {
        CoordinateSystem::World(_) => (0int, 0int, 0int),
        CoordinateSystem::General(g) => {
            let p = total_offset(*g.parent_coord_system);
            (p.0 + g.origin.x, p.1 + g.origin.y, p.2 + g.origin.z)
        },
    }
}

/// Frame resolution is a pure translation: resolving any vector through a
/// frame adds the frame's accumulated offset, independently of the vector.
pub proof fn lemma_resolve_is_translation(cs: CoordinateSystem, x: int, y: int, z: int)
    ensures
        resolve_spec(cs, x, y, z) == (
            x + total_offset(cs).0,
            y + total_offset(cs).1,
            z + total_offset(cs).2,
        ),
    decreases cs,
{
    match cs {
        CoordinateSystem::World(_) => {},
        CoordinateSystem::General(g) => {
            lemma_resolve_is_translation(
                *g.parent_coord_system,
                x + g.origin.x,
                y + g.origin.y,
                z + g.origin.z,
            );
        },
    }
}

/// Root fixed point: a vector already expressed in the world frame resolves
/// to itself.
pub proof fn lemma_world_fixed_point(w: WorldCoordSystem, x: int, y: int, z: int)
    ensures
        resolve_spec(CoordinateSystem::World(w), x, y, z) == (x, y, z),
{
}

impl Clone for CoordinateSystem {
    /// A clone equals the original, the whole parent chain included, so one
    /// frame can serve as the parent of any number of children.
    fn clone(&self) -> (r: Self)
        ensures
            r == *self,
        decreases self,
    {
        match self {
            CoordinateSystem::World(w) => CoordinateSystem::World(w.clone()),
            CoordinateSystem::General(g) => CoordinateSystem::General(g.clone()),
        }
    }
}

impl WorldCoordSystem {
    /// Builds the root frame, with its fixed id `"world"` and the world
    /// origin.
    pub fn new() -> (w: WorldCoordSystem)
        ensures
            w.id@ == "world"@,
            w.origin == (Vector { x: WORLD_ORIGIN_X, y: WORLD_ORIGIN_Y, z: WORLD_ORIGIN_Z }),
    {
        WorldCoordSystem { id: String::from_str("world"), origin: Vector::get_world_origin() }
    }

    /// The frame's stable name.
    pub fn get_id(&self) -> (r: &String)
        ensures
            r@ == self.id@,
    {
        &self.id
    }

    /// The frame's origin: for the root, the world origin itself.
    pub fn get_origin(&self) -> (r: &Vector)
        ensures
            *r == self.origin,
    {
        &self.origin
    }

    /// The root has no parent.
    pub fn get_parent_coord_system(&self) -> (r: Option<&CoordinateSystem>)
        ensures
            r is None,
    {
        None
    }

    /// World coordinates are already world coordinates.
    pub fn transform_vector_into_world_coords(&self, vec: &Vector) -> (r: Vector)
        ensures
            r == *vec,
    {
        *vec
    }
}

impl Clone for WorldCoordSystem {
    /// A clone equals the original.
    fn clone(&self) -> (r: Self)
        ensures
            r == *self,
    {
        WorldCoordSystem { id: self.id.clone(), origin: self.origin }
    }
}

impl GeneralCoordSystem {
    /// Builds a named frame over its (already constructed, owned) parent,
    /// with an origin offset expressed in the parent's space.
    pub fn new(id: String, parent_coord_system: CoordinateSystem, origin: Vector) -> (g:
        GeneralCoordSystem)
        ensures
            g.id@ == id@,
            *g.parent_coord_system == parent_coord_system,
            g.origin == origin,
    {
        GeneralCoordSystem { id, parent_coord_system: Box::new(parent_coord_system), origin }
    }

    /// The frame's stable name.
    pub fn get_id(&self) -> (r: &String)
        ensures
            r@ == self.id@,
    {
        &self.id
    }

    /// The frame's origin offset, expressed in the parent's space.
    pub fn get_origin(&self) -> (r: &Vector)
        ensures
            *r == self.origin,
    {
        &self.origin
    }

    /// The parent frame; a general frame always has one.
    pub fn get_parent_coord_system(&self) -> (r: Option<&CoordinateSystem>)
        ensures
            r matches Some(p) && *p == *self.parent_coord_system,
    {
        Some(&self.parent_coord_system)
    }

    /// Translates a vector expressed in this frame into the parent's space
    /// by adding this frame's origin offset.
    pub fn transform_vector_into_parent_coords(&self, vec: &Vector) -> (r: Vector)
        requires
            fits_i64(vec.x + self.origin.x),
            fits_i64(vec.y + self.origin.y),
            fits_i64(vec.z + self.origin.z),
        ensures
            r.x == vec.x + self.origin.x,
            r.y == vec.y + self.origin.y,
            r.z == vec.z + self.origin.z,
    {
        let x = self.origin.get_x() + vec.get_x();
        let y = self.origin.get_y() + vec.get_y();
        let z = self.origin.get_z() + vec.get_z();
        Vector::new(x, y, z)
    }

    /// Resolves a vector expressed in this frame into world coordinates by
    /// translating into the parent's space and recursing up the chain.
    pub fn transform_vector_into_world_coords(&self, vec: &Vector) -> (r: Vector)
        requires
            resolve_fits(
                CoordinateSystem::General(*self),
                vec.x as int,
                vec.y as int,
                vec.z as int,
            ),
        ensures
            (r.x as int, r.y as int, r.z as int) == resolve_spec(
                CoordinateSystem::General(*self),
                vec.x as int,
                vec.y as int,
                vec.z as int,
            ),
        decreases *self,
    {
        let temp_vec = self.transform_vector_into_parent_coords(vec);
        self.parent_coord_system.transform_vector_into_world_coords(&temp_vec)
    }
}

impl Clone for GeneralCoordSystem {
    /// A clone equals the original, the whole parent chain included.
    fn clone(&self) -> (r: Self)
        ensures
            r == *self,
        decreases self,
    {
        GeneralCoordSystem {
            id: self.id.clone(),
            parent_coord_system: Box::new((&*self.parent_coord_system).clone()),
            origin: self.origin,
        }
    }
}

impl CoordinateSystem {
    /// The frame's stable name.
    pub fn get_id(&self) -> (r: &String)
        ensures
            r@ == self.id_spec(),
    {
        match self {
            CoordinateSystem::World(w) => w.get_id(),
            CoordinateSystem::General(g) => g.get_id(),
        }
    }

    /// The name of whichever variant this frame is.
    pub open spec fn id_spec(&self) -> Seq<char> {
        match *self {
            CoordinateSystem::World(w) => w.id@,
            CoordinateSystem::General(g) => g.id@,
        }
    }

    /// The frame's origin offset (the world origin itself for the root).
    pub fn get_origin(&self) -> (r: &Vector)
        ensures
            *r == self.origin_spec(),
    {
        match self {
            CoordinateSystem::World(w) => w.get_origin(),
            CoordinateSystem::General(g) => g.get_origin(),
        }
    }

    /// The origin offset of whichever variant this frame is.
    pub open spec fn origin_spec(&self) -> Vector {
        match *self {
            CoordinateSystem::World(w) => w.origin,
            CoordinateSystem::General(g) => g.origin,
        }
    }

    /// The parent frame, or `None` exactly for the root.
    pub fn get_parent_coord_system(&self) -> (r: Option<&CoordinateSystem>)
        ensures
            match *self {
                CoordinateSystem::World(_) => r is None,
                CoordinateSystem::General(g) => r matches Some(p) && *p == *g.parent_coord_system,
            },
    {
        match self {
            CoordinateSystem::World(w) => w.get_parent_coord_system(),
            CoordinateSystem::General(g) => g.get_parent_coord_system(),
        }
    }

    /// Resolves a vector expressed in this frame into world coordinates.
    pub fn transform_vector_into_world_coords(&self, vec: &Vector) -> (r: Vector)
        requires
            resolve_fits(*self, vec.x as int, vec.y as int, vec.z as int),
        ensures
            (r.x as int, r.y as int, r.z as int) == resolve_spec(
                *self,
                vec.x as int,
                vec.y as int,
                vec.z as int,
            ),
        decreases *self,
    {
        match self {
            CoordinateSystem::World(w) => w.transform_vector_into_world_coords(vec),
            CoordinateSystem::General(g) => g.transform_vector_into_world_coords(vec),
        }
    }
}

} // verus!
