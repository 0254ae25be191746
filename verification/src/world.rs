//! Records of the bodies the simulation owns, and their render snapshots.
//!
//! Every body the simulation creates carries exactly one [`BodyRecord`];
//! bodies without a record (the static boundary) are never reported as
//! simulation entities. A [`Body`] is the plain-value snapshot of a record
//! that the render, audio and particle collaborators consume.

use vstd::prelude::*;
use crate::characters::Character;
use crate::geometry::{Triangle, Vec2};

verus! {

/// Largest coordinate or extent a body record may hold, in thousandths of a
/// world unit; comfortably inside [`crate::geometry::COORD_LIMIT`] so sums
/// of a position and an extent stay in bounds.
pub const WORLD_LIMIT: i64 = 100_000_000;

/// An axis-aligned rectangle in screen space, in pixels: `x`, `y` is the
/// top-left corner.
#[derive(Debug, Clone, Copy, PartialEq, Eq, Structural)]
pub struct ScreenRect {
    pub x: i64,
    pub y: i64,
    pub width: i64,
    pub height: i64,
}

/// A passive sprite entity: its display name and the character it depicts.
#[derive(Debug, Clone)]
pub struct AlphanumericBody {
    pub name: String,
    pub alphanumeric: char,
}

impl AlphanumericBody {
    pub fn new(name: String, alphanumeric: char) -> (r: AlphanumericBody)
        ensures
            r.name == name,
            r.alphanumeric == alphanumeric,
    {
        AlphanumericBody { name, alphanumeric }
    }
}

/// What a recorded body is.
#[derive(Debug, Clone)]
pub enum BodyType {
    Unknown,
    Alphanumeric(AlphanumericBody),
    Character(Character),
}

impl BodyType {
    pub open spec fn wf(self) -> bool {
        match self {
            BodyType::Character(c) => c.wf(),
            _ => true,
        }
    }

    /// Whether this is an autonomous character.
    pub open spec fn is_character(self) -> bool {
        self is Character
    }
}

/// An exact copy of a body kind (the derived clone carries no
/// specification).
pub fn clone_body_type(b: &BodyType) -> (r: BodyType)
    ensures
        r == *b,
{
    match b {
        BodyType::Unknown => BodyType::Unknown,
        BodyType::Alphanumeric(a) => BodyType::Alphanumeric(
            AlphanumericBody { name: a.name.clone(), alphanumeric: a.alphanumeric },
        ),
        BodyType::Character(c) => BodyType::Character(*c),
    }
}

impl Default for BodyType {
    fn default() -> (r: BodyType)
        ensures
            r is Unknown,
    {
        BodyType::Unknown
    }
}

/// One convex render piece of a passive body, in body-local space.
#[derive(Debug, Clone, Copy, PartialEq, Eq, Structural)]
pub struct FixtureRecord {
    pub id: u128,
    pub triangle: Triangle,
}

/// The simulation's record of one live body: identity, footprint, kind,
/// whether the body is still enabled in the engine, and its last reported
/// transform.
#[derive(Debug, Clone)]
pub struct BodyRecord {
    pub id: u128,
    /// Full width of the footprint, in thousandths of a world unit.
    pub width: i64,
    /// Full height of the footprint, in thousandths of a world unit.
    pub height: i64,
    pub body_type: BodyType,
    pub enabled: bool,
    pub position: Vec2,
    pub angle_deg: u32,
    pub polygons: Vec<FixtureRecord>,
}

impl BodyRecord {
    pub open spec fn wf(self) -> bool {
        &&& 0 < self.width <= WORLD_LIMIT
        &&& 0 < self.height <= WORLD_LIMIT
        &&& 0 <= self.position.x <= WORLD_LIMIT
        &&& 0 <= self.position.y <= WORLD_LIMIT
        &&& self.body_type.wf()
    }

    /// The world-space box the body's footprint covers.
    pub open spec fn spec_aabb(self) -> crate::geometry::Aabb {
        crate::geometry::Aabb {
            lo: Vec2 {
                x: (self.position.x - self.width / 2) as i64,
                y: (self.position.y - self.height / 2) as i64,
            },
            hi: Vec2 {
                x: (self.position.x + self.width / 2) as i64,
                y: (self.position.y + self.height / 2) as i64,
            },
        }
    }

    pub fn aabb(&self) -> (r: crate::geometry::Aabb)
        requires
            self.wf(),
        ensures
            r == self.spec_aabb(),
            r.wf(),
    {
        crate::geometry::Aabb {
            lo: Vec2 { x: self.position.x - self.width / 2, y: self.position.y - self.height / 2 },
            hi: Vec2 { x: self.position.x + self.width / 2, y: self.position.y + self.height / 2 },
        }
    }
}

/// The snapshot of one recorded body handed to the collaborators: identity,
/// screen-space box, facing angle in degrees, the render triangles in
/// body-local space, and the body's kind.
#[derive(Debug, Clone)]
pub struct Body {
    pub id: u128,
    pub aabb: ScreenRect,
    pub angle_deg: u32,
    pub polygons: Vec<Triangle>,
    pub body_type: BodyType,
}

/// The screen-space box of a record under a pixels-per-unit scale, centred
/// on the body's position as the renderer expects.
pub open spec fn spec_screen_rect(r: BodyRecord, pixels_per_meter: i64) -> ScreenRect {
    let cx = r.position.x * pixels_per_meter / 1000;
    let cy = r.position.y * pixels_per_meter / 1000;
    let w = r.width * pixels_per_meter / 1000;
    let h = r.height * pixels_per_meter / 1000;
    ScreenRect {
        x: (cx - w / 2) as i64,
        y: (cy - h / 2) as i64,
        width: w as i64,
        height: h as i64,
    }
}

/// Whether a snapshot faithfully reproduces a record: same identity, kind
/// and angle, the record's triangles in order, and the screen box of the
/// record's footprint.
pub open spec fn body_matches(b: Body, r: BodyRecord, pixels_per_meter: i64) -> bool {
    &&& b.id == r.id
    &&& b.angle_deg == r.angle_deg
    &&& b.body_type == r.body_type
    &&& b.polygons@ == r.polygons@.map_values(|f: FixtureRecord| f.triangle)
    &&& b.aabb == spec_screen_rect(r, pixels_per_meter)
}

/// Build the snapshot of one record.
pub fn body_of(r: &BodyRecord, pixels_per_meter: i64) -> (b: Body)
    requires
        r.wf(),
        1 <= pixels_per_meter <= 100_000,
    ensures
        body_matches(b, *r, pixels_per_meter),
{
    proof {
        assert(0 <= r.position.x * pixels_per_meter <= 10_000_000_000_000 && 0 <= r.position.y
            * pixels_per_meter <= 10_000_000_000_000 && 0 <= r.width * pixels_per_meter
            <= 10_000_000_000_000 && 0 <= r.height * pixels_per_meter <= 10_000_000_000_000)
            by (nonlinear_arith)
            requires
                0 <= r.position.x <= WORLD_LIMIT,
                0 <= r.position.y <= WORLD_LIMIT,
                0 < r.width <= WORLD_LIMIT,
                0 < r.height <= WORLD_LIMIT,
                1 <= pixels_per_meter <= 100_000,
        ;
    }
    let cx: i64 = r.position.x * pixels_per_meter / 1000;
    let cy: i64 = r.position.y * pixels_per_meter / 1000;
    let w: i64 = r.width * pixels_per_meter / 1000;
    let h: i64 = r.height * pixels_per_meter / 1000;
    let aabb = ScreenRect { x: cx - w / 2, y: cy - h / 2, width: w, height: h };
    let mut polygons: Vec<Triangle> = Vec::new();
    let mut i: usize = 0;
    while i < r.polygons.len()
        invariant
            i <= r.polygons@.len(),
            polygons@ == r.polygons@.take(i as int).map_values(|f: FixtureRecord| f.triangle),
        decreases r.polygons@.len() - i,
    {
        polygons.push(r.polygons[i].triangle);
        proof {
            assert(r.polygons@.take(i + 1).map_values(|f: FixtureRecord| f.triangle)
                =~= r.polygons@.take(i as int).map_values(|f: FixtureRecord| f.triangle).push(
                r.polygons@[i as int].triangle,
            ));
        }
        i = i + 1;
    }
    proof {
        assert(r.polygons@.take(r.polygons@.len() as int) =~= r.polygons@);
    }
    Body { id: r.id, aabb, angle_deg: r.angle_deg, polygons, body_type: clone_body_type(&r.body_type) }
}

} // verus!
