//! The tile grid, the intersection box in its middle, and integer distances.

use vstd::prelude::*;

verus! {

/// Position units in one pixel.
pub const UNITS_PER_PIXEL: i32 = 1_000_000;

/// Edge length of a tile, which is also the width of a lane: a road holds
/// three lanes each way.
pub const TILE_SIZE: i32 = 30_000_000;

/// Number of tiles from an edge of the playfield to its middle.
pub const HALF_GRID: i32 = 15;

/// Number of tiles along each side of the playfield.
pub const GRID_TILES: i32 = 2 * HALF_GRID;

/// Edge length of the playfield.
pub const FIELD_SIZE: i32 = GRID_TILES * TILE_SIZE;

/// The middle of the playfield, where the center lines of the roads cross.
pub const CENTER: i32 = HALF_GRID * TILE_SIZE;

/// How far past the playfield a vehicle may be before it counts as gone.
pub const MARGIN: i32 = 100_000_000;

/// Number of tiles the intersection box reaches from the middle of the
/// grid to each side: the lanes of one direction.
pub const BOX_HALF_WIDTH: i32 = 3;

/// First tile index inside the intersection box.
pub const BOX_MIN: i32 = HALF_GRID - BOX_HALF_WIDTH;

/// Last tile index inside the intersection box.
pub const BOX_MAX: i32 = HALF_GRID + BOX_HALF_WIDTH - 1;

/// Coordinate at which the zone for turning begins: the near edge of the
/// intersection box.
pub const TURN_MIN: i32 = CENTER - BOX_HALF_WIDTH * TILE_SIZE;

/// Coordinate at which the zone for turning ends: the far edge of the
/// intersection box.
pub const TURN_MAX: i32 = CENTER + BOX_HALF_WIDTH * TILE_SIZE;

/// Smallest tile index whose center is representable.
pub const MIN_TILE: i32 = -72;

/// Largest tile index whose center is representable.
pub const MAX_TILE: i32 = 71;

/// A point in position units. Waypoints and position snapshots are points.
#[derive(Clone, Copy, Debug, PartialEq, Eq, Structural)]
pub struct Point {
    pub x: i32,
    pub y: i32,
}

/// A cell of the grid, by column and row.
#[derive(Clone, Copy, Debug, PartialEq, Eq, Structural)]
pub struct Tile {
    pub col: i32,
    pub row: i32,
}

/// Coordinate of the middle of the tile with the given index.
pub open spec fn tile_center_spec(tile: int) -> int {
    tile * TILE_SIZE + TILE_SIZE / 2
}

/// Index of the tile that a coordinate falls into.
pub open spec fn tile_of_spec(coord: int) -> int {
    coord / (TILE_SIZE as int)
}

/// The middle of a tile as a point.
pub open spec fn center_of(tile: Tile) -> Point {
    Point {
        x: tile_center_spec(tile.col as int) as i32,
        y: tile_center_spec(tile.row as int) as i32,
    }
}

/// Whether a tile index lies inside the intersection box.
pub open spec fn in_box(tile: int) -> bool {
    BOX_MIN <= tile <= BOX_MAX
}

/// A coordinate in whole pixels, with the fraction of a pixel dropped:
/// rounded toward zero.
pub open spec fn to_pixels_spec(units: int) -> int {
    if units >= 0 {
        units / (UNITS_PER_PIXEL as int)
    } else {
        -((-units) / (UNITS_PER_PIXEL as int))
    }
}

/// Whether the tile under a position lies inside the intersection box.
pub open spec fn in_intersection_spec(x: int, y: int) -> bool {
    in_box(tile_of_spec(x)) && in_box(tile_of_spec(y))
}

/// Whether a position lies past the playfield by more than the margin.
pub open spec fn out_of_bounds_spec(x: int, y: int) -> bool {
    x < -MARGIN || x > FIELD_SIZE + MARGIN || y < -MARGIN || y > FIELD_SIZE + MARGIN
}

/// Absolute value.
pub open spec fn abs_spec(v: int) -> int {
    if v >= 0 {
        v
    } else {
        -v
    }
}

/// Squared Euclidean distance between two positions.
pub open spec fn dist_sq_spec(ax: int, ay: int, bx: int, by: int) -> int {
    (bx - ax) * (bx - ax) + (by - ay) * (by - ay)
}

/// `r` is the square root of `n`, rounded down.
pub open spec fn is_sqrt_floor(r: int, n: int) -> bool {
    0 <= r && r * r <= n && n < (r + 1) * (r + 1)
}

/// The square root of `n`, rounded down.
pub open spec fn sqrt_floor(n: int) -> int {
    choose|r: int| is_sqrt_floor(r, n)
}

/// The square root of `n`, rounded up.
pub open spec fn sqrt_ceil(n: int) -> int {
    if sqrt_floor(n) * sqrt_floor(n) == n {
        sqrt_floor(n)
    } else {
        sqrt_floor(n) + 1
    }
}

/// Every natural number has a rounded-down square root.
pub proof fn lemma_sqrt_floor_exists(n: int)
    requires
        n >= 0,
    ensures
        is_sqrt_floor(sqrt_floor(n), n),
    decreases n,
{
    if n == 0 {
        assert(is_sqrt_floor(0, 0));
    } else {
        lemma_sqrt_floor_exists(n - 1);
        let r = sqrt_floor(n - 1);
        if (r + 1) * (r + 1) <= n {
            assert(is_sqrt_floor(r + 1, n)) by (nonlinear_arith)
                requires
                    r >= 0,
                    (r + 1) * (r + 1) <= n,
                    n - 1 < (r + 1) * (r + 1),
            ;
        } else {
            assert(is_sqrt_floor(r, n));
        }
    }
}

/// The rounded-down square root is the only number between whose square and
/// whose successor's square `n` lies.
pub proof fn lemma_sqrt_floor_unique(r: int, n: int)
    requires
        is_sqrt_floor(r, n),
    ensures
        sqrt_floor(n) == r,
{
    assert(n >= 0) by (nonlinear_arith)
        requires
            r * r <= n,
    ;
    lemma_sqrt_floor_exists(n);
    let s = sqrt_floor(n);
    assert(s == r) by (nonlinear_arith)
        requires
            0 <= r,
            r * r <= n,
            n < (r + 1) * (r + 1),
            0 <= s,
            s * s <= n,
            n < (s + 1) * (s + 1),
    ;
}

/// A number is below a square exactly when its rounded-down root is below
/// the square's root.
pub proof fn lemma_sqrt_floor_below(n: int, s: int)
    requires
        n >= 0,
        s >= 0,
    ensures
        sqrt_floor(n) < s <==> n < s * s,
{
    lemma_sqrt_floor_exists(n);
    let r = sqrt_floor(n);
    assert(r < s <==> n < s * s) by (nonlinear_arith)
        requires
            0 <= r,
            0 <= s,
            r * r <= n,
            n < (r + 1) * (r + 1),
    ;
}

/// The rounded-up root is the least number whose square reaches `n`.
pub proof fn lemma_sqrt_ceil(n: int)
    requires
        n >= 0,
    ensures
        sqrt_ceil(n) >= 0,
        sqrt_ceil(n) * sqrt_ceil(n) >= n,
        sqrt_floor(n) <= sqrt_ceil(n) <= sqrt_floor(n) + 1,
        n > 0 ==> sqrt_ceil(n) > 0 && (sqrt_ceil(n) - 1) * (sqrt_ceil(n) - 1) < n,
{
    lemma_sqrt_floor_exists(n);
    let r = sqrt_floor(n);
    if r * r != n {
        assert((r + 1) * (r + 1) >= n);
        assert(((r + 1) - 1) * ((r + 1) - 1) < n);
    } else if n > 0 {
        assert(r > 0 && (r - 1) * (r - 1) < n) by (nonlinear_arith)
            requires
                r >= 0,
                r * r == n,
                n > 0,
        ;
    }
}

/// Coordinate of the middle of a tile.
pub fn tile_center(tile: i32) -> (c: i32)
    requires
        MIN_TILE <= tile <= MAX_TILE,
    ensures
        c == tile_center_spec(tile as int),
{
    let size: i64 = TILE_SIZE as i64;
    assert(tile * size == tile * 30_000_000);
    let edge: i64 = tile as i64 * size;
    (edge + size / 2) as i32
}

/// A coordinate in whole pixels, with the fraction of a pixel dropped.
pub fn to_pixels(units: i32) -> (pixels: i32)
    ensures
        pixels == to_pixels_spec(units as int),
{
    units / UNITS_PER_PIXEL
}

/// Index of the tile under a coordinate; tiles left of or above the
/// playfield have negative indices.
pub fn tile_of(coord: i32) -> (tile: i32)
    ensures
        tile == tile_of_spec(coord as int),
{
    if coord >= 0 {
        coord / TILE_SIZE
    } else {
        let below: i32 = -(coord + 1);
        -1 - below / TILE_SIZE
    }
}

/// Whether the tile under the position lies inside the intersection box.
pub fn in_intersection(x: i32, y: i32) -> (inside: bool)
    ensures
        inside == in_intersection_spec(x as int, y as int),
{
    let col: i32 = tile_of(x);
    let row: i32 = tile_of(y);
    BOX_MIN <= col && col <= BOX_MAX && BOX_MIN <= row && row <= BOX_MAX
}

/// Whether the position lies past the playfield by more than the margin on
/// any side.
pub fn out_of_bounds(x: i32, y: i32) -> (out: bool)
    ensures
        out == out_of_bounds_spec(x as int, y as int),
{
    x < -MARGIN || x > FIELD_SIZE + MARGIN || y < -MARGIN || y > FIELD_SIZE + MARGIN
}

/// Absolute value.
pub fn magnitude(delta: i64) -> (m: u64)
    ensures
        m == abs_spec(delta as int),
{
    if delta >= 0 {
        delta as u64
    } else {
        (-(delta as i128)) as u64
    }
}

/// The intersection box is the square between the edges of the zone for
/// turning, the near edge included and the far edge not.
pub proof fn lemma_box_is_the_turn_zone(x: int, y: int)
    ensures
        in_intersection_spec(x, y) <==> TURN_MIN <= x < TURN_MAX && TURN_MIN <= y < TURN_MAX,
{
}

/// Squared Euclidean distance between two points.
pub fn dist_sq(a: Point, b: Point) -> (d: u128)
    ensures
        d == dist_sq_spec(a.x as int, a.y as int, b.x as int, b.y as int),
{
    let dx: i64 = b.x as i64 - a.x as i64;
    let dy: i64 = b.y as i64 - a.y as i64;
    let ax: u128 = magnitude(dx) as u128;
    let ay: u128 = magnitude(dy) as u128;
    assert(ax * ax == dx * dx && ax * ax <= 0x1_0000_0000 * 0x1_0000_0000) by (nonlinear_arith)
        requires
            ax == dx || ax == -dx,
            ax <= 0x1_0000_0000,
    ;
    assert(ay * ay == dy * dy && ay * ay <= 0x1_0000_0000 * 0x1_0000_0000) by (nonlinear_arith)
        requires
            ay == dy || ay == -dy,
            ay <= 0x1_0000_0000,
    ;
    ax * ax + ay * ay
}

/// Square root rounded down.
pub fn isqrt(n: u128) -> (r: u64)
    ensures
        r == sqrt_floor(n as int),
        is_sqrt_floor(r as int, n as int),
{
    let mut lo: u128 = 0;
    let mut hi: u128 = 0x1_0000_0000_0000_0000;
    assert(n < hi * hi) by (nonlinear_arith)
        requires
            hi == 0x1_0000_0000_0000_0000,
            n <= u128::MAX,
    ;
    while hi - lo > 1
        invariant
            lo < hi <= 0x1_0000_0000_0000_0000,
            lo * lo <= n,
            n < hi * hi,
        decreases hi - lo,
    {
        let mid: u128 = lo + (hi - lo) / 2;
        assert(mid * mid <= u128::MAX) by (nonlinear_arith)
            requires
                mid < 0x1_0000_0000_0000_0000,
        ;
        if mid * mid <= n {
            lo = mid;
        } else {
            hi = mid;
        }
    }
    proof {
        lemma_sqrt_floor_unique(lo as int, n as int);
    }
    lo as u64
}

} // verus!
