//! Geometry and colour values shared by every part of the toolkit.
//!
//! All coordinates are integers in layout units.  Sizes are kept inside
//! `0 ..= MAX_EXTENT` and positions inside `-MAX_COORD ..= MAX_COORD`, so the
//! arithmetic of the layout engine can never leave the range of `i64`.
use vstd::prelude::*;

verus! {

/// The largest width or height a box can have.
pub const MAX_EXTENT: i64 = 1_073_741_824;

/// The largest absolute value of a coordinate.
pub const MAX_COORD: i64 = 1_099_511_627_776;

/// `v` limited to the closed interval `lo ..= hi`.
pub open spec fn clamp(v: int, lo: int, hi: int) -> int {
    if v < lo {
        lo
    } else if v > hi {
        hi
    } else {
        v
    }
}

/// A size: negative values become zero, large ones become `MAX_EXTENT`.
pub open spec fn extent(v: int) -> int {
    clamp(v, 0, MAX_EXTENT as int)
}

/// A signed offset such as a margin, limited to `-MAX_EXTENT ..= MAX_EXTENT`.
pub open spec fn offset(v: int) -> int {
    clamp(v, -(MAX_EXTENT as int), MAX_EXTENT as int)
}

/// A coordinate, limited to `-MAX_COORD ..= MAX_COORD`.
pub open spec fn coord(v: int) -> int {
    clamp(v, -(MAX_COORD as int), MAX_COORD as int)
}

pub(crate) fn clamp_i64(v: i64, lo: i64, hi: i64) -> (r: i64)
    requires
        lo <= hi,
    ensures
        r == clamp(v as int, lo as int, hi as int),
        lo <= r <= hi,
{
    if v < lo {
        lo
    } else if v > hi {
        hi
    } else {
        v
    }
}

pub fn to_extent(v: i64) -> (r: i64)
    ensures
        r == extent(v as int),
        0 <= r <= MAX_EXTENT,
{
    clamp_i64(v, 0, MAX_EXTENT)
}

pub fn to_offset(v: i64) -> (r: i64)
    ensures
        r == offset(v as int),
        -MAX_EXTENT <= r <= MAX_EXTENT,
{
    clamp_i64(v, -MAX_EXTENT, MAX_EXTENT)
}

pub fn to_coord(v: i64) -> (r: i64)
    ensures
        r == coord(v as int),
        -MAX_COORD <= r <= MAX_COORD,
{
    clamp_i64(v, -MAX_COORD, MAX_COORD)
}

/// The quotient of `n` by a positive `d`, rounded towards minus infinity.
pub(crate) fn div_floor(n: i64, d: i64) -> (q: i64)
    requires
        d > 0,
        n > i64::MIN,
    ensures
        q == n as int / d as int,
{
    if n >= 0 {
        n / d
    } else {
        let m = -n;
        let up = (m - 1) / d + 1;
        assert(n as int / d as int == -(up as int)) by (nonlinear_arith)
            requires
                n < 0,
                d > 0,
                m == -n,
                up as int == (m as int - 1) / (d as int) + 1,
        ;
        -up
    }
}

/// The quotient of `n` by a positive `d`, rounded to the nearest whole
/// number, a half away from zero.
pub open spec fn rounded(n: int, d: int) -> int {
    if n >= 0 {
        (2 * n + d) / (2 * d)
    } else {
        -((2 * (-n) + d) / (2 * d))
    }
}

/// The rounded quotient is the whole number nearest to the exact one: it
/// lies no more than a half from it, and a quotient that ends in a half
/// is rounded away from zero.
pub proof fn lemma_rounded_is_nearest(n: int, d: int)
    requires
        d > 0,
    ensures
        -d <= 2 * n - 2 * d * rounded(n, d) <= d,
        n >= 0 ==> 2 * n - 2 * d * rounded(n, d) < d,
        n <= 0 ==> -d < 2 * n - 2 * d * rounded(n, d),
        rounded(-n, d) == -rounded(n, d),
{
    let m = if n >= 0 { n } else { -n };
    let q = (2 * m + d) / (2 * d);
    assert(0 <= 2 * m + d - (2 * d) * q < 2 * d) by (nonlinear_arith)
        requires
            d > 0,
            q == (2 * m + d) / (2 * d),
    ;
    assert(2 * d * q == (2 * d) * q) by (nonlinear_arith);
    assert(2 * d * (-q) == -((2 * d) * q)) by (nonlinear_arith);
    if n == 0 {
        assert(d / (2 * d) == 0) by (nonlinear_arith)
            requires
                d > 0,
        ;
    }
}

/// The quotient of `n` by a positive `d`, rounded to the nearest.
pub(crate) fn round_div(n: i128, d: i128) -> (q: i128)
    requires
        0 < d <= 0x1_0000_0000_0000_0000,
        -0x1_0000_0000_0000_0000_0000_0000 <= n <= 0x1_0000_0000_0000_0000_0000_0000,
    ensures
        q == rounded(n as int, d as int),
{
    if n >= 0 {
        (2 * n + d) / (2 * d)
    } else {
        let m: i128 = -n;
        let up: i128 = (2 * m + d) / (2 * d);
        assert(0 <= up <= 2 * m + d) by (nonlinear_arith)
            requires
                up == (2 * m + d) / (2 * d),
                m >= 0,
                d > 0,
        ;
        -up
    }
}

/// A point of the plane.
#[derive(Clone, Copy, Debug, PartialEq, Eq, Structural)]
pub struct Point {
    pub x: i64,
    pub y: i64,
}

impl Point {
    pub fn new(x: i64, y: i64) -> (r: Point)
        ensures
            r == (Point { x, y }),
    {
        Point { x, y }
    }

    pub open spec fn in_range(self) -> bool {
        -MAX_COORD <= self.x <= MAX_COORD && -MAX_COORD <= self.y <= MAX_COORD
    }
}

/// A position with a depth: larger `z` is nearer to the viewer.
#[derive(Clone, Copy, Debug, PartialEq, Eq, Structural)]
pub struct Pos {
    pub x: i64,
    pub y: i64,
    pub z: i64,
}

impl Pos {
    pub fn new(x: i64, y: i64, z: i64) -> (r: Pos)
        ensures
            r == (Pos { x, y, z }),
    {
        Pos { x, y, z }
    }

    pub open spec fn in_range(self) -> bool {
        &&& -MAX_COORD <= self.x <= MAX_COORD
        &&& -MAX_COORD <= self.y <= MAX_COORD
        &&& -MAX_COORD <= self.z <= MAX_COORD
    }
}

/// A width and a height.
#[derive(Clone, Copy, Debug, PartialEq, Eq, Structural)]
pub struct Scale {
    pub width: i64,
    pub height: i64,
}

impl Scale {
    pub fn new(width: i64, height: i64) -> (r: Scale)
        ensures
            r == (Scale { width, height }),
    {
        Scale { width, height }
    }

    pub open spec fn in_range(self) -> bool {
        0 <= self.width <= MAX_EXTENT && 0 <= self.height <= MAX_EXTENT
    }
}

/// An axis-aligned box: the resolved position and size of a node.
#[derive(Clone, Copy, Debug, PartialEq, Eq, Structural)]
pub struct AABB {
    pub pos: Pos,
    pub size: Scale,
}

impl AABB {
    /// A box is valid when its size and position are in range.
    pub open spec fn wf(self) -> bool {
        self.pos.in_range() && self.size.in_range()
    }

    pub open spec fn spec_new(pos: Pos, size: Scale) -> AABB {
        AABB {
            pos: Pos {
                x: coord(pos.x as int) as i64,
                y: coord(pos.y as int) as i64,
                z: coord(pos.z as int) as i64,
            },
            size: Scale {
                width: extent(size.width as int) as i64,
                height: extent(size.height as int) as i64,
            },
        }
    }

    /// The box at `pos` with size `size`, both brought into range.
    pub fn new(pos: Pos, size: Scale) -> (r: AABB)
        ensures
            r == AABB::spec_new(pos, size),
            r.wf(),
    {
        AABB {
            pos: Pos { x: to_coord(pos.x), y: to_coord(pos.y), z: to_coord(pos.z) },
            size: Scale { width: to_extent(size.width), height: to_extent(size.height) },
        }
    }

    pub open spec fn zero() -> AABB {
        AABB { pos: Pos { x: 0, y: 0, z: 0 }, size: Scale { width: 0, height: 0 } }
    }

    pub fn empty() -> (r: AABB)
        ensures
            r == AABB::zero(),
            r.wf(),
    {
        AABB { pos: Pos { x: 0, y: 0, z: 0 }, size: Scale { width: 0, height: 0 } }
    }

    pub fn width(&self) -> (r: i64)
        ensures
            r == self.size.width,
    {
        self.size.width
    }

    pub fn height(&self) -> (r: i64)
        ensures
            r == self.size.height,
    {
        self.size.height
    }

    pub fn size(&self) -> (r: Scale)
        ensures
            r == self.size,
    {
        self.size
    }

    /// Replaces the size and keeps the position.
    pub fn set_scale(&mut self, width: i64, height: i64)
        ensures
            final(self).pos == old(self).pos,
            final(self).size.width == extent(width as int),
            final(self).size.height == extent(height as int),
    {
        self.size = Scale { width: to_extent(width), height: to_extent(height) };
    }

    /// The box in physical units: every length times the scale factor,
    /// brought into range.  A scale factor below one counts as one.
    pub open spec fn scaled(self, scale_factor: i64) -> AABB {
        let f: int = if scale_factor < 1 {
            1
        } else if scale_factor > 1024 {
            1024
        } else {
            scale_factor as int
        };
        AABB {
            pos: Pos {
                x: coord(coord(self.pos.x as int) * f) as i64,
                y: coord(coord(self.pos.y as int) * f) as i64,
                z: self.pos.z,
            },
            size: Scale {
                width: extent(extent(self.size.width as int) * f) as i64,
                height: extent(extent(self.size.height as int) * f) as i64,
            },
        }
    }

    pub fn physical(&self, scale_factor: i64) -> (r: AABB)
        ensures
            r == self.scaled(scale_factor),
    {
        let f = clamp_i64(scale_factor, 1, 1024);
        let x = to_coord(self.pos.x);
        let y = to_coord(self.pos.y);
        let w = to_extent(self.size.width);
        let h = to_extent(self.size.height);
        assert(-0x4_0000_0000_0000 <= x * f <= 0x4_0000_0000_0000 && -0x4_0000_0000_0000 <= y * f
            <= 0x4_0000_0000_0000 && 0 <= w * f <= 0x4_0000_0000_0000 && 0 <= h * f
            <= 0x4_0000_0000_0000) by (nonlinear_arith)
            requires
                1 <= f <= 1024,
                -0x100_0000_0000 <= x <= 0x100_0000_0000,
                -0x100_0000_0000 <= y <= 0x100_0000_0000,
                0 <= w <= 0x4000_0000,
                0 <= h <= 0x4000_0000,
        ;
        AABB {
            pos: Pos { x: to_coord(x * f), y: to_coord(y * f), z: self.pos.z },
            size: Scale { width: to_extent(w * f), height: to_extent(h * f) },
        }
    }

    /// Whether the box covers `p`: the left and top edges belong to the box,
    /// the right and bottom edges do not.
    pub open spec fn contains(self, p: Point) -> bool {
        &&& self.pos.x <= p.x < self.pos.x + self.size.width
        &&& self.pos.y <= p.y < self.pos.y + self.size.height
    }

    pub fn is_under(&self, p: Point) -> (r: bool)
        ensures
            r == self.contains(p),
    {
        let right = self.pos.x as i128 + self.size.width as i128;
        let bottom = self.pos.y as i128 + self.size.height as i128;
        self.pos.x <= p.x && (p.x as i128) < right && self.pos.y <= p.y && (p.y as i128) < bottom
    }
}

/// A colour with 8-bit channels.
#[derive(Clone, Copy, Debug, PartialEq, Eq, Structural)]
pub struct Color {
    pub r: u8,
    pub g: u8,
    pub b: u8,
    pub a: u8,
}

impl Color {
    pub open spec fn transparent() -> Color {
        Color { r: 0, g: 0, b: 0, a: 0 }
    }

    pub fn rgb(r: u8, g: u8, b: u8) -> (c: Color)
        ensures
            c == (Color { r, g, b, a: 255 }),
    {
        Color { r, g, b, a: 255 }
    }

    pub fn rgba(r: u8, g: u8, b: u8, a: u8) -> (c: Color)
        ensures
            c == (Color { r, g, b, a }),
    {
        Color { r, g, b, a }
    }

    pub fn clear() -> (c: Color)
        ensures
            c == Color::transparent(),
    {
        Color { r: 0, g: 0, b: 0, a: 0 }
    }
}

/// The size of a surface in whole pixels.
#[derive(Clone, Copy, Debug, PartialEq, Eq, Structural)]
pub struct PixelSize {
    pub width: u32,
    pub height: u32,
}

} // verus!
