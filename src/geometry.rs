//! Body and collider descriptors, and the append-only world they are registered into.
use vstd::prelude::*;

verus! {

/// Number of fixed-point steps in one world unit.
pub const UNIT: i64 = 1000;

/// Density of every body this library creates: 1.0, in thousandths.
pub const UNIT_DENSITY: u64 = 1000;

/// Whether the physics engine moves a body.
#[derive(Clone, Copy, Debug, PartialEq, Eq, Structural)]
pub enum BodyKind {
    Static,
    Dynamic,
}

/// Orientation of a body; the scene only ever uses an upright or a quarter-turned cuboid.
#[derive(Clone, Copy, Debug, PartialEq, Eq, Structural)]
pub enum Rotation {
    Upright,
    /// Rotated by pi / 2 radians.
    QuarterTurn,
}

/// A point in world space, in thousandths of a unit.
#[derive(Clone, Copy, Debug, PartialEq, Eq, Structural)]
pub struct Point {
    pub x: i64,
    pub y: i64,
}

#[derive(Clone, Copy, Debug, PartialEq, Eq, Structural)]
pub struct RigidBodyDescriptor {
    pub kind: BodyKind,
    pub position: Point,
    pub rotation: Rotation,
}

/// An axis-aligned cuboid collider (before the body's rotation is applied).
#[derive(Clone, Copy, Debug, PartialEq, Eq, Structural)]
pub struct ColliderDescriptor {
    pub half_width: i64,
    pub half_height: i64,
    /// In thousandths; meaningful for dynamic bodies only.
    pub density: u64,
}

/// A body together with its collision shape, as handed to the physics engine.
#[derive(Clone, Copy, Debug, PartialEq, Eq, Structural)]
pub struct Body {
    pub body: RigidBodyDescriptor,
    pub collider: ColliderDescriptor,
}

/// A dynamic unit-density cuboid of the given half extents at `position`.
pub open spec fn dynamic_cuboid(position: Point, half_width: int, half_height: int) -> Body {
    Body {
        body: RigidBodyDescriptor { kind: BodyKind::Dynamic, position, rotation: Rotation::Upright },
        collider: ColliderDescriptor {
            half_width: half_width as i64,
            half_height: half_height as i64,
            density: UNIT_DENSITY,
        },
    }
}

/// A static cuboid; static bodies carry no density.
pub open spec fn static_cuboid(
    position: Point,
    rotation: Rotation,
    half_width: int,
    half_height: int,
) -> Body {
    Body {
        body: RigidBodyDescriptor { kind: BodyKind::Static, position, rotation },
        collider: ColliderDescriptor {
            half_width: half_width as i64,
            half_height: half_height as i64,
            density: 0,
        },
    }
}

pub fn make_dynamic_cuboid(position: Point, half_width: i64, half_height: i64) -> (r: Body)
    ensures
        r == dynamic_cuboid(position, half_width as int, half_height as int),
{
    Body {
        body: RigidBodyDescriptor { kind: BodyKind::Dynamic, position, rotation: Rotation::Upright },
        collider: ColliderDescriptor { half_width, half_height, density: UNIT_DENSITY },
    }
}

pub fn make_static_cuboid(position: Point, rotation: Rotation, half_width: i64, half_height: i64) -> (r: Body)
    ensures
        r == static_cuboid(position, rotation, half_width as int, half_height as int),
{
    Body {
        body: RigidBodyDescriptor { kind: BodyKind::Static, position, rotation },
        collider: ColliderDescriptor { half_width, half_height, density: 0 },
    }
}

/// Every body registered with the physics engine, in registration order.
/// Bodies are only ever appended.
pub struct World {
    bodies: Vec<Body>,
}

impl View for World {
    type V = Seq<Body>;

    closed spec fn view(&self) -> Seq<Body> {
        self.bodies@
    }
}

impl World {
    pub fn new() -> (w: World)
        ensures
            w@ == Seq::<Body>::empty(),
    {
        World { bodies: Vec::new() }
    }

    /// Hands one body and its collider to the world.
    pub fn register_body(&mut self, body: RigidBodyDescriptor, collider: ColliderDescriptor)
        ensures
            final(self)@ == old(self)@.push(Body { body, collider }),
    {
        self.bodies.push(Body { body, collider });
    }

    pub fn len(&self) -> (n: usize)
        ensures
            n == self@.len(),
    {
        self.bodies.len()
    }

    /// The body registered `i`-th.
    pub fn get(&self, i: usize) -> (b: Body)
        requires
            i < self@.len(),
        ensures
            b == self@[i as int],
    {
        self.bodies[i]
    }

    /// A copy of every registered body, in registration order.
    pub fn bodies(&self) -> (v: Vec<Body>)
        ensures
            v@ == self@,
    {
        self.bodies.clone()
    }
}

} // verus!
