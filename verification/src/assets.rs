//! Renderable sprite geometry, as plain integer values.
//!
//! A sprite asset names a sprite, the character it depicts, its pixel
//! rectangle in the sheet, and its triangulated convex pieces. Triangle
//! coordinates are fixed-point: thousandths of a sprite unit, where one
//! unit is the larger side of the sprite's rectangle.

use vstd::prelude::*;
use crate::geometry::Rgb;

verus! {

/// A point in sprite space, in thousandths of a sprite unit.
#[derive(Debug, Clone, Copy, PartialEq, Eq, Structural)]
pub struct SpritePoint {
    pub x: i64,
    pub y: i64,
}

impl SpritePoint {
    pub fn new(x: i64, y: i64) -> (r: SpritePoint)
        ensures
            r == (SpritePoint { x, y }),
    {
        SpritePoint { x, y }
    }

    pub fn y(&self) -> (r: i64)
        ensures
            r == self.y,
    {
        self.y
    }
}

/// One triangulated convex piece of a sprite, with its fill color.
#[derive(Debug, Clone, Copy, PartialEq, Eq, Structural)]
pub struct SpriteTriangle {
    pub a: SpritePoint,
    pub b: SpritePoint,
    pub c: SpritePoint,
    pub color: Rgb,
}

impl SpriteTriangle {
    pub fn new(a: SpritePoint, b: SpritePoint, c: SpritePoint, color: Rgb) -> (r: SpriteTriangle)
        ensures
            r == (SpriteTriangle { a, b, c, color }),
    {
        SpriteTriangle { a, b, c, color }
    }

    pub fn color(&self) -> (r: Rgb)
        ensures
            r == self.color,
    {
        self.color
    }

    /// Coordinates bounded by one sprite unit on each axis.
    pub open spec fn wf(self) -> bool {
        &&& -1000 <= self.a.x <= 1000 && -1000 <= self.a.y <= 1000
        &&& -1000 <= self.b.x <= 1000 && -1000 <= self.b.y <= 1000
        &&& -1000 <= self.c.x <= 1000 && -1000 <= self.c.y <= 1000
    }
}

/// A rectangle in sprite-sheet space, in pixels.
#[derive(Debug, Clone, Copy, Eq, PartialEq, Structural)]
pub struct SpriteSnip {
    pub x: u32,
    pub y: u32,
    pub width: u32,
    pub height: u32,
}

impl SpriteSnip {
    pub fn new(x: u32, y: u32, width: u32, height: u32) -> (r: SpriteSnip)
        ensures
            r == (SpriteSnip { x, y, width, height }),
    {
        SpriteSnip { x, y, width, height }
    }

    /// The rectangle between two corners; the first must not lie below or
    /// right of the second.
    pub fn from_corners(c1: (u32, u32), c2: (u32, u32)) -> (r: SpriteSnip)
        requires
            c1.0 <= c2.0,
            c1.1 <= c2.1,
        ensures
            r == (SpriteSnip {
                x: c1.0,
                y: c1.1,
                width: (c2.0 - c1.0) as u32,
                height: (c2.1 - c1.1) as u32,
            }),
    {
        SpriteSnip::new(c1.0, c1.1, c2.0 - c1.0, c2.1 - c1.1)
    }

    pub fn bottom_right(&self) -> (r: (u32, u32))
        requires
            self.x + self.width <= u32::MAX,
            self.y + self.height <= u32::MAX,
        ensures
            r.0 == self.x + self.width,
            r.1 == self.y + self.height,
    {
        (self.x + self.width, self.y + self.height)
    }

    pub fn center(&self) -> (r: (u32, u32))
        requires
            self.x + self.width <= u32::MAX,
            self.y + self.height <= u32::MAX,
        ensures
            r.0 == self.x + self.width / 2,
            r.1 == self.y + self.height / 2,
    {
        (self.x + self.width / 2, self.y + self.height / 2)
    }

    /// Whether `other` lies entirely inside this rectangle.
    pub fn contains(&self, other: &SpriteSnip) -> (r: bool)
        requires
            self.x + self.width <= u32::MAX,
            self.y + self.height <= u32::MAX,
            other.x + other.width <= u32::MAX,
            other.y + other.height <= u32::MAX,
        ensures
            r == (other.x >= self.x && other.x + other.width <= self.x + self.width && other.y
                >= self.y && other.y + other.height <= self.y + self.height),
    {
        let (self_x2, self_y2) = self.bottom_right();
        let (other_x2, other_y2) = other.bottom_right();
        other.x >= self.x && other_x2 <= self_x2 && other.y >= self.y && other_y2 <= self_y2
    }

    pub fn x(&self) -> (r: u32)
        ensures
            r == self.x,
    {
        self.x
    }

    pub fn y(&self) -> (r: u32)
        ensures
            r == self.y,
    {
        self.y
    }

    pub fn width(&self) -> (r: u32)
        ensures
            r == self.width,
    {
        self.width
    }

    pub fn height(&self) -> (r: u32)
        ensures
            r == self.height,
    {
        self.height
    }
}

/// A named, triangulated sprite.
#[derive(Debug, Clone)]
pub struct SpriteAsset {
    pub name: String,
    pub character: char,
    pub snip: SpriteSnip,
    pub triangles: Vec<SpriteTriangle>,
}

impl SpriteAsset {
    /// A usable sprite: a nonempty pixel rectangle and bounded triangles.
    pub open spec fn wf(self) -> bool {
        &&& 1 <= self.snip.width <= 100_000
        &&& 1 <= self.snip.height <= 100_000
        &&& forall|i: int| 0 <= i < self.triangles@.len() ==> self.triangles@[i].wf()
    }

    /// Test the bounds [`Self::wf`] asks for, so an unverified caller can
    /// reject an unusable sprite before handing it to the simulation.
    pub fn check_wf(&self) -> (r: bool)
        ensures
            r == self.wf(),
    {
        if !(1 <= self.snip.width && self.snip.width <= 100_000) {
            return false;
        }
        if !(1 <= self.snip.height && self.snip.height <= 100_000) {
            return false;
        }
        let mut i: usize = 0;
        let n = self.triangles.len();
        while i < n
            invariant
                n == self.triangles@.len(),
                i <= n,
                forall|j: int| 0 <= j < i ==> (#[trigger] self.triangles@[j]).wf(),
            decreases n - i,
        {
            let t = self.triangles[i];
            let ok = -1000 <= t.a.x && t.a.x <= 1000 && -1000 <= t.a.y && t.a.y <= 1000 && -1000
                <= t.b.x && t.b.x <= 1000 && -1000 <= t.b.y && t.b.y <= 1000 && -1000 <= t.c.x
                && t.c.x <= 1000 && -1000 <= t.c.y && t.c.y <= 1000;
            if !ok {
                return false;
            }
            i = i + 1;
        }
        true
    }

    pub fn new(name: String, character: char, snip: SpriteSnip, triangles: Vec<SpriteTriangle>) -> (r:
        SpriteAsset)
        ensures
            r.name == name,
            r.character == character,
            r.snip == snip,
            r.triangles == triangles,
    {
        SpriteAsset { name, character, snip, triangles }
    }

    pub fn name(&self) -> (r: &str)
        ensures
            r@ == self.name@,
    {
        self.name.as_str()
    }

    pub fn character(&self) -> (r: char)
        ensures
            r == self.character,
    {
        self.character
    }

    pub fn snip(&self) -> (r: SpriteSnip)
        ensures
            r == self.snip,
    {
        self.snip
    }

    pub fn triangles(&self) -> (r: &Vec<SpriteTriangle>)
        ensures
            r == self.triangles,
    {
        &self.triangles
    }

    /// The footprint of the sprite in sprite units, in thousandths: the
    /// larger side is one unit, the other side in proportion.
    pub fn unit_scale(&self) -> (r: (i64, i64))
        requires
            self.wf(),
        ensures
            r == self.spec_unit_scale(),
            1 <= r.0 <= 1000,
            1 <= r.1 <= 1000,
    {
        let w = self.snip.width as i64;
        let h = self.snip.height as i64;
        let m = if w > h {
            w
        } else {
            h
        };
        proof {
            assert((w as int * 1000) / (m as int) <= 1000 && (h as int * 1000) / (m as int) <= 1000
                && (w as int * 1000) / (m as int) >= 0 && (h as int * 1000) / (m as int) >= 0)
                by (nonlinear_arith)
                requires
                    1 <= w as int <= m as int,
                    1 <= h as int <= m as int,
            ;
        }
        let uw: i64 = (w * 1000) / m;
        let uh: i64 = (h * 1000) / m;
        (
            if uw == 0 {
                1
            } else {
                uw
            },
            if uh == 0 {
                1
            } else {
                uh
            },
        )
    }

    /// The proportional footprint, floored at one thousandth so a sprite
    /// never collapses to a zero extent.
    pub open spec fn spec_unit_scale(self) -> (i64, i64) {
        let w = self.snip.width as int;
        let h = self.snip.height as int;
        let m = if w > h {
            w
        } else {
            h
        };
        let uw = (w * 1000) / m;
        let uh = (h * 1000) / m;
        (
            (if uw == 0 {
                1
            } else {
                uw
            }) as i64,
            (if uh == 0 {
                1
            } else {
                uh
            }) as i64,
        )
    }
}

/// A set of sprites packed in one sheet.
#[derive(Debug, Clone)]
pub struct SpriteAssetSheet {
    pub sprites: Vec<SpriteAsset>,
}

impl SpriteAssetSheet {
    pub fn new(sprites: Vec<SpriteAsset>) -> (r: SpriteAssetSheet)
        ensures
            r.sprites == sprites,
    {
        SpriteAssetSheet { sprites }
    }

    pub fn into_sprites(self) -> (r: Vec<SpriteAsset>)
        ensures
            r == self.sprites,
    {
        self.sprites
    }
}

} // verus!
