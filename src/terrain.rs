use crate::entity::Position;
use vstd::prelude::*;

verus! {

/// Side of one terrain square, in millimetres.
pub const SCALE: i64 = 25_000;

/// The most squares a terrain may have along one side.
pub const MAX_TERRAIN_SIZE: usize = 4096;

/// The largest side of a square that may be asked about, in millimetres.
pub const MAX_QUERY_SIDE: i64 = 4_000_000_000_000;

/// A square grid of land and water centred on the world's origin.
///
/// Square `(i, j)` covers the `x` coordinates from `origin() + i * SCALE` (included)
/// to `origin() + (i + 1) * SCALE` (excluded), and likewise the `y` coordinates for
/// `j`. It is land when `land[i * size + j]` holds. Everything off the grid is water.
pub struct Terrain {
    pub size: usize,
    pub land: Vec<bool>,
}

/// Whether the stretch of terrain squares number `i` meets the closed interval
/// `[lo, hi]`, for a grid whose square zero starts at `origin`.
pub open spec fn spans(origin: int, i: int, lo: int, hi: int) -> bool {
    origin + i * SCALE <= hi && lo < origin + (i + 1) * SCALE
}

/// Square `i` meets `[origin + l, origin + h]` exactly when `i` lies between the
/// squares that hold each end.
proof fn lemma_spans(origin: int, i: int, l: int, h: int)
    ensures
        spans(origin, i, origin + l, origin + h) <==> (l / (SCALE as int) <= i && i <= h / (SCALE as int)),
{
    let s = SCALE as int;
    assert(l == s * (l / s) + l % s && 0 <= l % s < s) by (nonlinear_arith)
        requires
            s > 0,
    ;
    assert(h == s * (h / s) + h % s && 0 <= h % s < s) by (nonlinear_arith)
        requires
            s > 0,
    ;
    assert((i * s <= h && l < (i + 1) * s) <==> (l / s <= i && i <= h / s)) by (nonlinear_arith)
        requires
            s > 0,
            l == s * (l / s) + l % s,
            0 <= l % s < s,
            h == s * (h / s) + h % s,
            0 <= h % s < s,
    ;
}

impl Terrain {
    /// The grid's shape matches its size, and the size is in range.
    pub open spec fn wf(&self) -> bool {
        &&& self.size <= MAX_TERRAIN_SIZE
        &&& self.land@.len() == self.size * self.size
    }

    /// The `x` (or `y`) coordinate where square zero starts.
    pub open spec fn origin(&self) -> int {
        -((self.size / 2) * SCALE)
    }

    /// Whether square `(i, j)` is on the grid and is land.
    pub open spec fn is_land(&self, i: int, j: int) -> bool {
        &&& 0 <= i < self.size
        &&& 0 <= j < self.size
        &&& self.land@[i * self.size + j]
    }

    /// Whether any land square meets the axis-aligned square of side `side` centred on
    /// `c` (its half side rounded down).
    pub open spec fn spec_land_in_square(&self, c: Position, side: int) -> bool {
        let h = side / 2;
        exists|i: int, j: int|
            #![trigger self.is_land(i, j)]
            self.is_land(i, j) && spans(self.origin(), i, c.x - h, c.x + h) && spans(
                self.origin(),
                j,
                c.y - h,
                c.y + h,
            )
    }

    /// A terrain of all water with `size` squares along each side.
    pub fn water(size: usize) -> (r: Terrain)
        requires
            size <= MAX_TERRAIN_SIZE,
        ensures
            r.wf(),
            r.size == size,
            forall|i: int, j: int| !r.is_land(i, j),
    {
        let mut land: Vec<bool> = Vec::new();
        proof {
            assert(size * size <= 4096 * 4096) by (nonlinear_arith)
                requires
                    size <= 4096,
            ;
        }
        let n = size * size;
        while land.len() < n
            invariant
                land@.len() <= n,
                n == size * size,
                forall|k: int| 0 <= k < land@.len() ==> !land@[k],
            decreases n - land@.len(),
        {
            land.push(false);
        }
        let r = Terrain { size, land };
        proof {
            assert forall|i: int, j: int| !r.is_land(i, j) by {
                if 0 <= i < size && 0 <= j < size {
                    lemma_grid_index(size as int, i, j);
                }
            }
        }
        r
    }

    /// Makes square `(i, j)` land or water.
    pub fn set_land(&mut self, i: usize, j: usize, is_land: bool)
        requires
            old(self).wf(),
            i < old(self).size,
            j < old(self).size,
        ensures
            final(self).wf(),
            final(self).size == old(self).size,
            final(self).is_land(i as int, j as int) == is_land,
            forall|a: int, b: int|
                (a, b) != (i as int, j as int) ==> final(self).is_land(a, b) == old(self).is_land(a, b),
    {
        proof {
            lemma_grid_index(self.size as int, i as int, j as int);
        }
        let k = i * self.size + j;
        self.land.set(k, is_land);
        proof {
            assert forall|a: int, b: int|
                (a, b) != (i as int, j as int) implies self.is_land(a, b) == old(self).is_land(a, b) by {
                if 0 <= a < self.size && 0 <= b < self.size {
                    lemma_grid_index(self.size as int, a, b);
                    lemma_grid_index_distinct(self.size as int, a, b, i as int, j as int);
                }
            }
        }
    }

    /// Whether any land square meets the axis-aligned square of side `side` centred
    /// on `c`.
    pub fn land_in_square(&self, c: Position, side: i64) -> (r: bool)
        requires
            self.wf(),
            0 <= side <= MAX_QUERY_SIDE,
        ensures
            r == self.spec_land_in_square(c, side as int),
    {
        let half = side / 2;
        let origin = -((self.size / 2) as i64 * SCALE);
        let size = self.size;
        if size == 0 {
            return false;
        }
        let lx = c.x as i64 - half - origin;
        let hx = c.x as i64 + half - origin;
        let ly = c.y as i64 - half - origin;
        let hy = c.y as i64 + half - origin;
        if hx < 0 || hy < 0 {
            proof {
                assert forall|i: int, j: int| #[trigger] self.is_land(i, j) implies !(spans(
                    self.origin(),
                    i,
                    c.x - half,
                    c.x + half,
                ) && spans(self.origin(), j, c.y - half, c.y + half)) by {
                    lemma_spans(self.origin(), i, lx as int, hx as int);
                    lemma_spans(self.origin(), j, ly as int, hy as int);
                }
            }
            return false;
        }
        let i_lo: usize = if lx < 0 {
            0
        } else {
            (lx / SCALE) as usize
        };
        let j_lo: usize = if ly < 0 {
            0
        } else {
            (ly / SCALE) as usize
        };
        let i_hi: usize = if hx / SCALE < size as i64 {
            (hx / SCALE) as usize + 1
        } else {
            size
        };
        let j_hi: usize = if hy / SCALE < size as i64 {
            (hy / SCALE) as usize + 1
        } else {
            size
        };
        proof {
            assert(lx < 0 ==> lx / SCALE < 0);
        }
        let mut i = i_lo;
        while i < i_hi
            invariant
                self.wf(),
                size == self.size,
                origin == self.origin(),
                half as int == (side as int) / 2,
                lx == c.x - half - origin,
                hx == c.x + half - origin,
                ly == c.y - half - origin,
                hy == c.y + half - origin,
                i_lo <= i,
                i_hi <= size,
                lx < 0 ==> i_lo == 0 && lx / SCALE < 0,
                lx >= 0 ==> i_lo == lx / SCALE,
                hx / SCALE < size ==> i_hi == hx / SCALE + 1,
                hx / SCALE >= size ==> i_hi == size,
                ly < 0 ==> j_lo == 0 && ly / SCALE < 0,
                ly >= 0 ==> j_lo == ly / SCALE,
                hy / SCALE < size ==> j_hi == hy / SCALE + 1,
                hy / SCALE >= size ==> j_hi == size,
                forall|a: int, b: int|
                    i_lo <= a < i && j_lo <= b < j_hi ==> !(#[trigger] self.is_land(a, b)),
            decreases i_hi - i,
        {
            let mut j = j_lo;
            while j < j_hi
                invariant
                    self.wf(),
                    size == self.size,
                    i < i_hi <= size,
                    i_lo <= i,
                    j_lo <= j,
                    j_hi <= size,
                    origin == self.origin(),
                    half as int == (side as int) / 2,
                    lx == c.x - half - origin,
                    hx == c.x + half - origin,
                    ly == c.y - half - origin,
                    hy == c.y + half - origin,
                    lx < 0 ==> i_lo == 0 && lx / SCALE < 0,
                    lx >= 0 ==> i_lo == lx / SCALE,
                    hx / SCALE < size ==> i_hi == hx / SCALE + 1,
                    hx / SCALE >= size ==> i_hi == size,
                    ly < 0 ==> j_lo == 0 && ly / SCALE < 0,
                    ly >= 0 ==> j_lo == ly / SCALE,
                    hy / SCALE < size ==> j_hi == hy / SCALE + 1,
                    hy / SCALE >= size ==> j_hi == size,
                    forall|a: int, b: int|
                        i_lo <= a < i && j_lo <= b < j_hi ==> !(#[trigger] self.is_land(a, b)),
                    forall|b: int| j_lo <= b < j ==> !(#[trigger] self.is_land(i as int, b)),
                decreases j_hi - j,
            {
                proof {
                    lemma_grid_index(size as int, i as int, j as int);
                }
                if self.land[i * size + j] {
                    proof {
                        let sc = SCALE as int;
                        assert((lx as int) / sc <= i <= (hx as int) / sc);
                        assert((ly as int) / sc <= j <= (hy as int) / sc);
                        lemma_spans(self.origin(), i as int, lx as int, hx as int);
                        lemma_spans(self.origin(), j as int, ly as int, hy as int);
                        assert(spans(self.origin(), i as int, c.x - half, c.x + half));
                        assert(spans(self.origin(), j as int, c.y - half, c.y + half));
                        assert(self.is_land(i as int, j as int));
                    }
                    return true;
                }
                j = j + 1;
            }
            i = i + 1;
        }
        proof {
            assert forall|a: int, b: int| #[trigger] self.is_land(a, b) implies !(spans(
                self.origin(),
                a,
                c.x - half,
                c.x + half,
            ) && spans(self.origin(), b, c.y - half, c.y + half)) by {
                lemma_spans(self.origin(), a, lx as int, hx as int);
                lemma_spans(self.origin(), b, ly as int, hy as int);
            }
        }
        false
    }
}

/// Square `(i, j)` of a grid with `n` squares a side has a place in its list.
proof fn lemma_grid_index(n: int, i: int, j: int)
    requires
        0 <= i < n <= MAX_TERRAIN_SIZE,
        0 <= j < n,
    ensures
        0 <= i * n <= i * n + j < n * n <= MAX_TERRAIN_SIZE * MAX_TERRAIN_SIZE,
{
    assert(0 <= i * n <= i * n + j < n * n <= 4096 * 4096) by (nonlinear_arith)
        requires
            0 <= i < n <= 4096,
            0 <= j < n,
    ;
}

/// Distinct squares have distinct places in the list.
proof fn lemma_grid_index_distinct(n: int, a: int, b: int, i: int, j: int)
    requires
        0 <= a < n,
        0 <= b < n,
        0 <= i < n,
        0 <= j < n,
        (a, b) != (i, j),
    ensures
        a * n + b != i * n + j,
{
    if a == i {
        assert(a * n == i * n);
    } else if a < i {
        assert(a * n + b < i * n + j) by (nonlinear_arith)
            requires
                a < i,
                0 <= b < n,
                0 <= j,
        ;
    } else {
        assert(i * n + j < a * n + b) by (nonlinear_arith)
            requires
                i < a,
                0 <= j < n,
                0 <= b,
        ;
    }
}

} // verus!
