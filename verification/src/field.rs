//! The arena: a resizable rectangle whose origin is derived from its size,
//! and the grid of background tiles that covers it.

use vstd::prelude::*;
use crate::num::div_floor;
use crate::vec2::Vec2;

verus! {

/// Machine limit on field dimensions and tile sizes, in world units.
pub const DIM_LIMIT: i64 = 1_000_000;

/// Edge length of a background tile when none is given.
pub const DEFAULT_TILE_SIZE: i64 = 64;

/// Ceiling of `a / b` for a positive divisor.
pub open spec fn ceil_div_spec(a: int, b: int) -> int {
    (a + b - 1) / b
}

/// The origin derived from a field's size: its top-left corner,
/// `(-width / 2, height / 2)`.
pub open spec fn origin_spec(width: int, height: int) -> (int, int) {
    (-(width / 2), height / 2)
}

/// How many tiles of edge `tile` cover a span of `extent` units, one row
/// of overhang included.
pub open spec fn tiles_spec(extent: int, tile: int) -> int {
    ceil_div_spec(extent, tile) + 1
}

/// The simulation arena. `origin` is never stored stale: it is recomputed
/// from `width` and `height` whenever they change.
#[derive(Clone, Copy, Debug, PartialEq)]
pub struct Field {
    pub width: i64,
    pub height: i64,
    pub origin: (i64, i64),
}

/// A field whose dimensions are within the machine limit and whose origin
/// matches its size.
pub open spec fn field_valid(f: Field) -> bool {
    &&& -DIM_LIMIT <= f.width <= DIM_LIMIT
    &&& -DIM_LIMIT <= f.height <= DIM_LIMIT
    &&& (f.origin.0 as int, f.origin.1 as int) == origin_spec(f.width as int, f.height as int)
}

/// The tile edge a caller picked, or the default.
pub open spec fn tile_or_default(tile: Option<i64>) -> int {
    match tile {
        Option::Some(t) => t as int,
        Option::None => DEFAULT_TILE_SIZE as int,
    }
}

/// A usable tile edge: positive and within the machine limit.
pub open spec fn tile_arg_valid(tile: Option<i64>) -> bool {
    0 < tile_or_default(tile) <= DIM_LIMIT
}

impl Field {
    /// Build a field of the given size with its derived origin.
    pub fn new(width: i64, height: i64) -> (f: Field)
        requires
            -DIM_LIMIT <= width <= DIM_LIMIT,
            -DIM_LIMIT <= height <= DIM_LIMIT,
        ensures
            f.width == width,
            f.height == height,
            field_valid(f),
    {
        let ox = div_floor(width, 2);
        let oy = div_floor(height, 2);
        Field { width, height, origin: (-ox, oy) }
    }

    /// Replace the size; width, height and origin all reflect the new
    /// snapshot together.
    pub fn update_size(&mut self, width: i64, height: i64)
        requires
            -DIM_LIMIT <= width <= DIM_LIMIT,
            -DIM_LIMIT <= height <= DIM_LIMIT,
        ensures
            final(self).width == width,
            final(self).height == height,
            field_valid(*final(self)),
    {
        let ox = div_floor(width, 2);
        let oy = div_floor(height, 2);
        self.width = width;
        self.height = height;
        self.origin = (-ox, oy);
    }

    /// How many tile columns cover the width.
    pub fn width_in_tiles(&self, tile_width: Option<i64>) -> (n: i32)
        requires
            -DIM_LIMIT <= self.width <= DIM_LIMIT,
            tile_arg_valid(tile_width),
        ensures
            n as int == tiles_spec(self.width as int, tile_or_default(tile_width)),
    {
        let tile_width: i64 = match tile_width {
            Some(tw) => tw,
            None => DEFAULT_TILE_SIZE,
        };
        proof {
            lemma_tiles_in_range(self.width as int, tile_width as int);
        }
        let n = div_floor(self.width + tile_width - 1, tile_width) + 1;
        n as i32
    }

    /// How many tile rows cover the height.
    pub fn height_in_tiles(&self, tile_height: Option<i64>) -> (n: i32)
        requires
            -DIM_LIMIT <= self.height <= DIM_LIMIT,
            tile_arg_valid(tile_height),
        ensures
            n as int == tiles_spec(self.height as int, tile_or_default(tile_height)),
    {
        let tile_height: i64 = match tile_height {
            Some(th) => th,
            None => DEFAULT_TILE_SIZE,
        };
        proof {
            lemma_tiles_in_range(self.height as int, tile_height as int);
        }
        let n = div_floor(self.height + tile_height - 1, tile_height) + 1;
        n as i32
    }
}

/// Machine bound on tile offsets and tile origins, in world units.
pub const OFFSET_LIMIT: i64 = 4_000_000_000_000;

/// How far the tile grid overhangs the field on one axis.
pub open spec fn overhang_spec(extent: int, tile: int) -> int {
    tiles_spec(extent, tile) * tile - extent
}

/// The offset that centers the tile grid's overhang on one axis.
pub open spec fn tile_offset_spec(extent: int, tile: int) -> int {
    -(overhang_spec(extent, tile) / 2)
}

/// The corner the tile grid starts from: the field origin shifted by the
/// centering offset.
pub open spec fn tile_origin_spec(f: Field, tw: int, th: int) -> (int, int) {
    (
        f.origin.0 + tile_offset_spec(f.width as int, tw),
        f.origin.1 - tile_offset_spec(f.height as int, th),
    )
}

/// A tile count clamped to zero when the field degenerates.
pub open spec fn count_or_zero(n: int) -> int {
    if n > 0 {
        n
    } else {
        0
    }
}

/// The position of the `k`-th tile in a grid of `h` rows laid out column
/// by column from `corner`, one default tile apart.
pub open spec fn tile_at(corner: (int, int), h: int, k: int) -> Vec2 {
    Vec2 { x: (corner.0 + 64 * (k / h)) as i64, y: (corner.1 - 64 * (k % h)) as i64 }
}

impl Field {
    /// The offset that centers the tile grid over the field, so that the
    /// overhang is split evenly between the two sides of each axis.
    pub fn tile_offset(&self, tile_width: Option<i64>, tile_height: Option<i64>) -> (off: (
        i64,
        i64,
    ))
        requires
            -DIM_LIMIT <= self.width <= DIM_LIMIT,
            -DIM_LIMIT <= self.height <= DIM_LIMIT,
            tile_arg_valid(tile_width),
            tile_arg_valid(tile_height),
        ensures
            off.0 as int == tile_offset_spec(self.width as int, tile_or_default(tile_width)),
            off.1 as int == tile_offset_spec(self.height as int, tile_or_default(tile_height)),
            -OFFSET_LIMIT <= off.0 <= OFFSET_LIMIT,
            -OFFSET_LIMIT <= off.1 <= OFFSET_LIMIT,
    {
        let tile_height: i64 = match tile_height {
            Some(th) => th,
            None => DEFAULT_TILE_SIZE,
        };
        let tile_width: i64 = match tile_width {
            Some(tw) => tw,
            None => DEFAULT_TILE_SIZE,
        };
        proof {
            lemma_tiles_in_range(self.width as int, tile_width as int);
            lemma_tiles_in_range(self.height as int, tile_height as int);
        }
        let n_w = self.width_in_tiles(Some(tile_width));
        let n_h = self.height_in_tiles(Some(tile_height));
        proof {
            assert(-3_000_000_000_000 <= (n_w as i64) * tile_width <= 3_000_000_000_000)
                by (nonlinear_arith)
                requires
                    -3_000_000 <= n_w <= 3_000_000,
                    0 < tile_width <= 1_000_000,
            ;
            assert(-3_000_000_000_000 <= (n_h as i64) * tile_height <= 3_000_000_000_000)
                by (nonlinear_arith)
                requires
                    -3_000_000 <= n_h <= 3_000_000,
                    0 < tile_height <= 1_000_000,
            ;
        }
        let overhang_x = (n_w as i64) * tile_width - self.width;
        let overhang_y = (n_h as i64) * tile_height - self.height;
        proof {
            crate::num::lemma_div_floor_bounds(overhang_x as int, 2);
            crate::num::lemma_div_floor_bounds(overhang_y as int, 2);
        }
        let off_x = div_floor(overhang_x, 2);
        let off_y = div_floor(overhang_y, 2);
        (-off_x, -off_y)
    }

    /// The corner of the field's tile grid: the origin shifted by the
    /// centering offset.
    pub fn tile_origin(&self, tile_width: Option<i64>, tile_height: Option<i64>) -> (corner: (
        i64,
        i64,
    ))
        requires
            field_valid(*self),
            tile_arg_valid(tile_width),
            tile_arg_valid(tile_height),
        ensures
            (corner.0 as int, corner.1 as int) == tile_origin_spec(
                *self,
                tile_or_default(tile_width),
                tile_or_default(tile_height),
            ),
            -OFFSET_LIMIT - DIM_LIMIT <= corner.0 <= OFFSET_LIMIT + DIM_LIMIT,
            -OFFSET_LIMIT - DIM_LIMIT <= corner.1 <= OFFSET_LIMIT + DIM_LIMIT,
    {
        let (x, y) = self.tile_offset(tile_width, tile_height);
        (self.origin.0 + x, self.origin.1 - y)
    }

    /// The positions of all tiles covering the field, default tile size,
    /// column by column: tile `(i, j)` sits one tile right of column
    /// `i - 1` and one tile below row `j - 1`, starting from the grid
    /// corner.
    pub fn tile_positions(&self) -> (v: Vec<Vec2>)
        requires
            field_valid(*self),
        ensures
            ({
                let w = count_or_zero(tiles_spec(self.width as int, DEFAULT_TILE_SIZE as int));
                let h = count_or_zero(tiles_spec(self.height as int, DEFAULT_TILE_SIZE as int));
                let corner = tile_origin_spec(
                    *self,
                    DEFAULT_TILE_SIZE as int,
                    DEFAULT_TILE_SIZE as int,
                );
                &&& v.len() == w * h
                &&& forall|k: int| 0 <= k < v.len() ==> v[k] == tile_at(corner, h, k)
            }),
    {
        let ghost w_spec = count_or_zero(tiles_spec(self.width as int, DEFAULT_TILE_SIZE as int));
        let ghost h_spec = count_or_zero(tiles_spec(self.height as int, DEFAULT_TILE_SIZE as int));
        let (ox, oy) = self.tile_origin(None, None);
        let wc = self.width_in_tiles(None);
        let hc = self.height_in_tiles(None);
        let w: usize = if wc <= 0 {
            0
        } else {
            wc as usize
        };
        let h: usize = if hc <= 0 {
            0
        } else {
            hc as usize
        };
        let ghost corner = tile_origin_spec(
            *self,
            DEFAULT_TILE_SIZE as int,
            DEFAULT_TILE_SIZE as int,
        );
        let mut v: Vec<Vec2> = Vec::new();
        let mut i: usize = 0;
        while i < w
            invariant
                w == w_spec,
                h == h_spec,
                w <= 3 * DIM_LIMIT,
                h <= 3 * DIM_LIMIT,
                corner == (ox as int, oy as int),
                -OFFSET_LIMIT - DIM_LIMIT <= ox <= OFFSET_LIMIT + DIM_LIMIT,
                -OFFSET_LIMIT - DIM_LIMIT <= oy <= OFFSET_LIMIT + DIM_LIMIT,
                i <= w,
                v.len() == i * h,
                forall|k: int| 0 <= k < v.len() ==> v[k] == tile_at(corner, h as int, k),
            decreases w - i,
        {
            let x = ox + 64 * (i as i64);
            let mut j: usize = 0;
            while j < h
                invariant
                    w == w_spec,
                    h == h_spec,
                    w <= 3 * DIM_LIMIT,
                    h <= 3 * DIM_LIMIT,
                    corner == (ox as int, oy as int),
                    -OFFSET_LIMIT - DIM_LIMIT <= ox <= OFFSET_LIMIT + DIM_LIMIT,
                    -OFFSET_LIMIT - DIM_LIMIT <= oy <= OFFSET_LIMIT + DIM_LIMIT,
                    i < w,
                    x == ox + 64 * i,
                    j <= h,
                    v.len() == i * h + j,
                    forall|k: int| 0 <= k < v.len() ==> v[k] == tile_at(corner, h as int, k),
                decreases h - j,
            {
                let y = oy - 64 * (j as i64);
                proof {
                    vstd::arithmetic::div_mod::lemma_fundamental_div_mod_converse(
                        i * h + j,
                        h as int,
                        i as int,
                        j as int,
                    );
                }
                v.push(Vec2 { x, y });
                j = j + 1;
            }
            proof {
                assert((i + 1) * h == i * h + h) by (nonlinear_arith);
            }
            i = i + 1;
        }
        proof {
            assert(i == w);
            assert(v.len() == w_spec * h_spec) by (nonlinear_arith)
                requires
                    v.len() == i * h,
                    i == w,
                    w == w_spec,
                    h == h_spec,
            ;
        }
        v
    }
}

/// The tile count of a bounded extent fits comfortably in `i32`.
proof fn lemma_tiles_in_range(extent: int, tile: int)
    requires
        -DIM_LIMIT <= extent <= DIM_LIMIT,
        0 < tile <= DIM_LIMIT,
    ensures
        -3 * DIM_LIMIT <= tiles_spec(extent, tile) <= 3 * DIM_LIMIT,
{
    let a = extent + tile - 1;
    vstd::arithmetic::div_mod::lemma_fundamental_div_mod(a, tile);
    vstd::arithmetic::div_mod::lemma_mod_division_less_than_divisor(a, tile);
    let q = a / tile;
    if q < 0 {
        assert(tile * q <= q) by (nonlinear_arith)
            requires
                q < 0,
                1 <= tile,
        ;
    } else {
        assert(q <= tile * q) by (nonlinear_arith)
            requires
                0 <= q,
                1 <= tile,
        ;
    }
}

} // verus!
