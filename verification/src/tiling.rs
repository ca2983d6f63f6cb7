//! The two-column tiling that the Wayland backend applies to the views of
//! an output.
//!
//! Views are placed in pairs, one pair per row: the view with an even index
//! takes the right half of its row, the next one the left half. When the
//! number of views is odd, the last view has a row of its own and is given
//! the output's whole width (it still starts at the middle of the output).
use vstd::prelude::*;

verus! {

/// A position on an output, in pixels.
#[derive(Clone, Copy, Debug, PartialEq, Eq, Structural)]
pub struct Point {
    pub x: i32,
    pub y: i32,
}

/// A width and a height, in pixels.
#[derive(Clone, Copy, Debug, PartialEq, Eq, Structural)]
pub struct Size {
    pub w: u32,
    pub h: u32,
}

/// The rectangle that a view is given: its top-left corner and its size.
#[derive(Clone, Copy, Debug, PartialEq, Eq, Structural)]
pub struct Geometry {
    pub origin: Point,
    pub size: Size,
}

/// The number of rows that `n` views are laid out in: `max((n + 1) / 2, 1)`.
pub open spec fn rows(n: nat) -> int {
    if (n + 1) / 2 > 1 {
        ((n + 1) / 2) as int
    } else {
        1
    }
}

/// The height of one row: the output's height divided by the row count,
/// the row count being cast to `u32` as the backend does.
pub open spec fn row_height(resolution: Size, n: nat) -> u32 {
    (resolution.h / (rows(n) as u32)) as u32
}

/// The vertical step between two rows, as the `i32` it is added to the
/// running `y` coordinate with.
pub open spec fn row_step(resolution: Size, n: nat) -> int {
    (row_height(resolution, n) as i32) as int
}

/// Whether `n` views can be laid out on an output of the given size without
/// the arithmetic of the layout failing: the row count must not be zero once
/// cast to `u32`, and the running `y` coordinate must stay within `i32`.
pub open spec fn renderable(resolution: Size, n: nat) -> bool {
    n > 0 ==> {
        &&& n < usize::MAX
        &&& (rows(n) as u32) != 0
        &&& i32::MIN <= (n / 2) * row_step(resolution, n) <= i32::MAX
    }
}

/// The rectangle given to the view at index `i` out of `n`.
pub open spec fn tile(resolution: Size, n: nat, i: nat) -> Geometry {
    let w = resolution.w / 2;
    Geometry {
        origin: Point {
            x: if i % 2 == 0 { w as i32 } else { 0i32 },
            y: ((i / 2) * row_step(resolution, n)) as i32,
        },
        size: Size {
            w: if i % 2 == 0 && i + 1 == n { resolution.w } else { w as u32 },
            h: row_height(resolution, n),
        },
    }
}

/// Whether two rectangles share a point: `[x, x + w) x [y, y + h)` for each.
pub open spec fn overlap(a: Geometry, b: Geometry) -> bool {
    &&& a.origin.x < b.origin.x + b.size.w
    &&& b.origin.x < a.origin.x + a.size.w
    &&& a.origin.y < b.origin.y + b.size.h
    &&& b.origin.y < a.origin.y + a.size.h
}

/// Whether `views` views can be laid out on an output of the given size:
/// exactly when `render_output` may be called with them.
pub fn can_render(resolution: Size, views: usize) -> (b: bool)
    ensures
        b == renderable(resolution, views as nat),
{
    if views == 0 {
        return true;
    }
    if views == usize::MAX {
        return false;
    }
    let half_rounded_up: usize = (views + 1) / 2;
    let row_count: usize = if half_rounded_up > 1 { half_rounded_up } else { 1 };
    let row_count_u32: u32 = #[verifier::truncate] (row_count as u32);
    if row_count_u32 == 0 {
        return false;
    }
    let h: u32 = resolution.h / row_count_u32;
    let step: i32 = #[verifier::truncate] (h as i32);
    let pairs: u64 = (views / 2) as u64;
    assert(pairs * step <= 0x1_0000_0000_0000_0000 * 0x8000_0000) by (nonlinear_arith)
        requires
            0 <= pairs <= 0xffff_ffff_ffff_ffff,
            -0x8000_0000 <= step <= 0x7fff_ffff,
    ;
    assert(pairs * step >= -0x1_0000_0000_0000_0000 * 0x8000_0000) by (nonlinear_arith)
        requires
            0 <= pairs <= 0xffff_ffff_ffff_ffff,
            -0x8000_0000 <= step <= 0x7fff_ffff,
    ;
    let total: i128 = (pairs as i128) * (step as i128);
    i32::MIN as i128 <= total && total <= i32::MAX as i128
}

/// Lays out `views` views on an output of the given resolution: the result
/// holds the geometry of each view, in the order of the views.
pub fn render_output(resolution: Size, views: usize) -> (tiles: Vec<Geometry>)
    requires
        renderable(resolution, views as nat),
    ensures
        tiles@.len() == views,
        forall|i: int| 0 <= i < views ==> #[trigger] tiles@[i] == tile(resolution, views as nat, i as nat),
        forall|i: int|
            0 <= i < views ==> {
                &&& (#[trigger] tiles@[i]).size.h == resolution.h / ((if (views + 1) / 2 > 1 {
                    (views + 1) / 2
                } else {
                    1
                }) as u32)
                &&& tiles@[i].origin.x == if i % 2 == 0 {
                    (resolution.w / 2) as i32
                } else {
                    0i32
                }
                &&& tiles@[i].size.w == if i % 2 == 0 && i == views - 1 {
                    resolution.w
                } else {
                    resolution.w / 2
                }
                &&& tiles@[i].origin.y as int == (i / 2) * ((tiles@[i].size.h as i32) as int)
            },
{
    let mut tiles: Vec<Geometry> = Vec::new();
    if views == 0 {
        return tiles;
    }
    let mut toggle = false;
    let mut y: i32 = 0;
    let full_width: u32 = resolution.w;
    let w: u32 = full_width / 2;
    let half_rounded_up: usize = (views + 1) / 2;
    let row_count: usize = if half_rounded_up > 1 { half_rounded_up } else { 1 };
    let h: u32 = resolution.h / (#[verifier::truncate] (row_count as u32));
    let ghost step = row_step(resolution, views as nat);
    assert(h == row_height(resolution, views as nat));
    assert((w as i32) as int == w) by (bit_vector)
        requires
            w == full_width / 2,
    ;
    let mut i: usize = 0;
    while i < views
        invariant
            0 < views < usize::MAX,
            i <= views,
            w == resolution.w / 2,
            h == row_height(resolution, views as nat),
            step == row_step(resolution, views as nat),
            i32::MIN <= (views / 2) * step <= i32::MAX,
            toggle == (i % 2 == 1),
            y as int == (i / 2) * step,
            tiles@.len() == i,
            forall|k: int| 0 <= k < i ==> #[trigger] tiles@[k] == tile(resolution, views as nat, k as nat),
        decreases views - i,
    {
        let geometry = Geometry {
            origin: Point { x: if !toggle { w as i32 } else { 0 }, y: y },
            size: Size { w: if !toggle && i == views - 1 { resolution.w } else { w }, h: h },
        };
        tiles.push(geometry);
        proof {
            let k = (i / 2) as int;
            let m = (views / 2) as int;
            if toggle {
                assert(k + 1 <= m);
                assert(0 <= k + 1);
                lemma_between_products(k + 1, m, step);
                assert(k * step + step == (k + 1) * step) by (nonlinear_arith);
                assert((i + 1) / 2 == k + 1);
            } else {
                assert((i + 1) / 2 == k);
            }
        }
        y = y + if toggle { #[verifier::truncate] (h as i32) } else { 0 };
        toggle = !toggle;
        i = i + 1;
    }
    proof {
        assert forall|k: int| 0 <= k < views implies {
            &&& (#[trigger] tiles@[k]).size.h == resolution.h / ((if (views + 1) / 2 > 1 {
                (views + 1) / 2
            } else {
                1
            }) as u32)
            &&& tiles@[k].origin.x == if k % 2 == 0 {
                (resolution.w / 2) as i32
            } else {
                0i32
            }
            &&& tiles@[k].size.w == if k % 2 == 0 && k == views - 1 {
                resolution.w
            } else {
                resolution.w / 2
            }
            &&& tiles@[k].origin.y as int == (k / 2) * ((tiles@[k].size.h as i32) as int)
        } by {
            lemma_tile_coordinates(resolution, views as nat, k as nat);
            assert(tiles@[k] == tile(resolution, views as nat, k as nat));
        }
    }
    tiles
}

/// The `y` coordinate of a view is its row index times the row step, with no
/// wrap-around, and its `x` coordinate is half the output's width or zero.
proof fn lemma_tile_coordinates(resolution: Size, n: nat, i: nat)
    requires
        renderable(resolution, n),
        i < n,
    ensures
        tile(resolution, n, i).origin.y as int == (i / 2) * row_step(resolution, n),
        tile(resolution, n, i).origin.x as int == if i % 2 == 0 {
            (resolution.w / 2) as int
        } else {
            0int
        },
{
    let step = row_step(resolution, n);
    lemma_between_products((i / 2) as int, (n / 2) as int, step);
    let w: u32 = resolution.w / 2;
    assert((w as i32) as int == w) by (bit_vector)
        requires
            w <= 0x7fff_ffffu32,
    ;
}

/// What the row arithmetic gives when there are more than two views: either
/// the rows have no height, or the row count is cast to `u32` unchanged, the
/// step between rows is the row height, and all rows fit in the output.
proof fn lemma_row_facts(resolution: Size, n: nat)
    requires
        renderable(resolution, n),
        n > 2,
    ensures
        row_height(resolution, n) == 0 || {
            &&& row_step(resolution, n) == row_height(resolution, n) as int
            &&& rows(n) * row_height(resolution, n) <= resolution.h
        },
{
    let r = rows(n);
    let h = row_height(resolution, n);
    let step = row_step(resolution, n);
    let m = (n / 2) as int;
    assert(r == (n + 1) / 2);
    assert(r >= 2);
    if r > u32::MAX {
        assert(m >= 0xffff_ffff);
        if step > 0 {
            assert(m * step >= m) by (nonlinear_arith)
                requires
                    step >= 1,
                    m >= 0,
            ;
        } else if step < 0 {
            assert(m * step <= -m) by (nonlinear_arith)
                requires
                    step <= -1,
                    m >= 0,
            ;
        }
        assert(step == 0);
        assert(h == 0) by (bit_vector)
            requires
                (h as i32) as int == 0,
        ;
    } else {
        let hh: u32 = resolution.h;
        let ru: u32 = r as u32;
        assert(ru as int == r);
        assert(h == hh / ru);
        assert(h <= hh / 2) by (nonlinear_arith)
            requires
                h == hh / ru,
                ru >= 2,
        ;
        assert((h as i32) as int == h) by (bit_vector)
            requires
                h <= 0x7fff_ffffu32,
        ;
        assert(r * h <= hh) by (nonlinear_arith)
            requires
                h == hh / ru,
                ru as int == r,
                r >= 2,
        ;
    }
}

/// No two views of an output share a point: the tiles are pairwise disjoint.
pub proof fn lemma_tiles_disjoint(resolution: Size, n: nat, i: nat, j: nat)
    requires
        renderable(resolution, n),
        i < n,
        j < n,
        i != j,
    ensures
        !overlap(tile(resolution, n, i), tile(resolution, n, j)),
{
    lemma_tile_coordinates(resolution, n, i);
    lemma_tile_coordinates(resolution, n, j);
    let a = tile(resolution, n, i);
    let b = tile(resolution, n, j);
    let h = row_height(resolution, n);
    if i / 2 == j / 2 {
        assert(i % 2 != j % 2);
    } else {
        assert(n > 2);
        lemma_row_facts(resolution, n);
        if h != 0 {
            let (lo, hi) = if i / 2 < j / 2 { (i / 2, j / 2) } else { (j / 2, i / 2) };
            assert((lo + 1) * (h as int) <= hi * (h as int)) by (nonlinear_arith)
                requires
                    lo + 1 <= hi,
                    h >= 0,
            ;
            assert(lo * (h as int) + h == (lo + 1) * (h as int)) by (nonlinear_arith);
        }
    }
}

/// Every view lies within the output's height: its top edge is at or below
/// the output's top and its bottom edge at or above the output's bottom.
pub proof fn lemma_tile_within_height(resolution: Size, n: nat, i: nat)
    requires
        renderable(resolution, n),
        i < n,
    ensures
        0 <= tile(resolution, n, i).origin.y,
        tile(resolution, n, i).origin.y + tile(resolution, n, i).size.h <= resolution.h,
{
    lemma_tile_coordinates(resolution, n, i);
    let h = row_height(resolution, n);
    let k = (i / 2) as int;
    if n <= 2 {
        assert(k == 0);
        assert(rows(n) == 1);
        assert((rows(n) as u32) == 1u32);
        let hh: u32 = resolution.h;
        assert(h == hh / 1u32);
        assert(hh / 1u32 == hh) by (nonlinear_arith);
        let step = row_step(resolution, n);
        assert(k * step == 0) by (nonlinear_arith)
            requires
                k == 0,
        ;
    } else {
        lemma_row_facts(resolution, n);
        if h == 0 {
            assert((h as i32) == 0i32) by (bit_vector)
                requires
                    h == 0u32,
            ;
            let step = row_step(resolution, n);
            assert(step == 0);
            assert(k * step == 0) by (nonlinear_arith)
                requires
                    step == 0,
            ;
        } else {
            assert(k + 1 <= rows(n));
            assert(0 <= k * (h as int)) by (nonlinear_arith)
                requires
                    k >= 0,
                    h >= 0,
            ;
            assert(k * (h as int) + h <= rows(n) * (h as int)) by (nonlinear_arith)
                requires
                    k + 1 <= rows(n),
                    h >= 0,
            ;
        }
    }
}

/// Every view but a lone last one (the last view when their number is odd)
/// lies within the output's width.
pub proof fn lemma_tile_within_width(resolution: Size, n: nat, i: nat)
    requires
        renderable(resolution, n),
        i < n,
        !(i % 2 == 0 && i + 1 == n),
    ensures
        0 <= tile(resolution, n, i).origin.x,
        tile(resolution, n, i).origin.x + tile(resolution, n, i).size.w <= resolution.w,
{
    lemma_tile_coordinates(resolution, n, i);
}

/// A lone last view (the last one when the number of views is odd) starts at
/// the middle of the output and is as wide as the whole output.
pub proof fn lemma_lone_tile_spans_from_middle(resolution: Size, n: nat)
    requires
        renderable(resolution, n),
        n % 2 == 1,
    ensures
        tile(resolution, n, (n - 1) as nat).origin.x == resolution.w / 2,
        tile(resolution, n, (n - 1) as nat).size.w == resolution.w,
{
    lemma_tile_coordinates(resolution, n, (n - 1) as nat);
}

/// The rows fill the output's height: every view is as high as the output's
/// height divided by the number of rows, rounded down, so the rows together
/// cover the output but for less than one pixel per row.
pub proof fn lemma_rows_cover_height(resolution: Size, n: nat, i: nat)
    requires
        renderable(resolution, n),
        i < n,
        rows(n) <= u32::MAX,
    ensures
        tile(resolution, n, i).size.h as int == resolution.h as int / (if (n + 1) / 2 > 1 {
            ((n + 1) / 2) as int
        } else {
            1int
        }),
        rows(n) * tile(resolution, n, i).size.h <= resolution.h,
        resolution.h < rows(n) * (tile(resolution, n, i).size.h + 1),
{
    let r = rows(n);
    let hh: u32 = resolution.h;
    let ru: u32 = r as u32;
    assert(ru as int == r);
    let h = tile(resolution, n, i).size.h;
    assert(h == hh / ru);
    assert(r * h <= hh && hh < r * (h + 1)) by (nonlinear_arith)
        requires
            h == hh / ru,
            ru as int == r,
            r >= 1,
    ;
}

/// For `0 <= k <= m`, the product `k * s` lies between `0` and `m * s`.
proof fn lemma_between_products(k: int, m: int, s: int)
    by (nonlinear_arith)
    requires
        0 <= k <= m,
    ensures
        s >= 0 ==> 0 <= k * s <= m * s,
        s < 0 ==> m * s <= k * s <= 0,
{
}

} // verus!
