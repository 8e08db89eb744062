//! The paint operator: stamps a solid color into a disc of cells.
//!
//! The stamp sweeps the `2 radius`-sided bounding box of the disc row by
//! row, tests each offset against the discretized disc inequality and writes
//! the color through the torus wrap, so a disc near an edge continues on the
//! opposite edge.

use crate::lattice::lemma_index_decompose;
use crate::lattice::lemma_index_in_bounds;
use crate::lattice::lemma_index_injective;
use crate::lattice::spec_cell_at;
use crate::lattice::Cell;
use crate::lattice::Lattice;
use crate::torus_topology::modulo_robust;
use crate::torus_topology::wrap_spec;
use vstd::prelude::*;

verus! {

/// Offset `(r, s)` of the stamp's bounding box lies inside the discretized
/// disc: its distance to the box center `(radius, radius)` is at most
/// `radius`.
pub open spec fn disc_offset_hits(r: int, s: int, radius: int) -> bool {
    (r - radius) * (r - radius) + (s - radius) * (s - radius) <= radius * radius
}

/// Position `(i, j)` is hit when a disc of radius `radius` is painted around
/// `(cx, cy)` on a `width x height` torus: some in-disc offset of the
/// bounding box wraps onto it.
pub open spec fn in_paint_disc(
    i: int,
    j: int,
    cx: int,
    cy: int,
    radius: int,
    width: int,
    height: int,
) -> bool {
    exists|r: int, s: int|
        0 <= r < 2 * radius && 0 <= s < 2 * radius && #[trigger] disc_offset_hits(r, s, radius)
            && i == wrap_spec(cx + r - radius, width) && j == wrap_spec(cy + s - radius, height)
}

/// Like [`in_paint_disc`], restricted to the offsets the stamp has already
/// visited: those lexicographically before `(r, s)` in its row-major sweep of
/// the bounding box.
spec fn painted_before(
    i: int,
    j: int,
    cx: int,
    cy: int,
    radius: int,
    width: int,
    height: int,
    r: int,
    s: int,
) -> bool {
    exists|r2: int, s2: int|
        0 <= r2 < 2 * radius && 0 <= s2 < 2 * radius && (r2 < r || (r2 == r && s2 < s))
            && #[trigger] disc_offset_hits(r2, s2, radius)
            && i == wrap_spec(cx + r2 - radius, width)
            && j == wrap_spec(cy + s2 - radius, height)
}

/// The painted buffer as a whole: each in-disc cell becomes `color`, every
/// other cell keeps its value.
pub open spec fn spec_paint_view(
    cells: Seq<Cell>,
    width: int,
    height: int,
    cx: int,
    cy: int,
    radius: int,
    color: Cell,
) -> Seq<Cell> {
    Seq::new(
        cells.len(),
        |k: int|
            if in_paint_disc(k % width, k / width, cx, cy, radius, width, height) {
                color
            } else {
                cells[k]
            },
    )
}

/// Visiting an offset that misses the disc, or one that wraps onto some other
/// cell, does not change whether `(i, j)` has been painted.
proof fn lemma_painted_before_untouched(
    i: int,
    j: int,
    cx: int,
    cy: int,
    radius: int,
    width: int,
    height: int,
    r: int,
    s: int,
)
    requires
        !(disc_offset_hits(r, s, radius) && i == wrap_spec(cx + r - radius, width) && j
            == wrap_spec(cy + s - radius, height)),
    ensures
        painted_before(i, j, cx, cy, radius, width, height, r, s + 1) == painted_before(
            i,
            j,
            cx,
            cy,
            radius,
            width,
            height,
            r,
            s,
        ),
{
    if painted_before(i, j, cx, cy, radius, width, height, r, s + 1) {
        let (r2, s2) = choose|r2: int, s2: int|
            0 <= r2 < 2 * radius && 0 <= s2 < 2 * radius && (r2 < r || (r2 == r && s2 < s + 1))
                && #[trigger] disc_offset_hits(r2, s2, radius)
                && i == wrap_spec(cx + r2 - radius, width)
                && j == wrap_spec(cy + s2 - radius, height);
        assert(!(r2 == r && s2 == s));
        assert(painted_before(i, j, cx, cy, radius, width, height, r, s));
    }
    if painted_before(i, j, cx, cy, radius, width, height, r, s) {
        let (r2, s2) = choose|r2: int, s2: int|
            0 <= r2 < 2 * radius && 0 <= s2 < 2 * radius && (r2 < r || (r2 == r && s2 < s))
                && #[trigger] disc_offset_hits(r2, s2, radius)
                && i == wrap_spec(cx + r2 - radius, width)
                && j == wrap_spec(cy + s2 - radius, height);
        assert(painted_before(i, j, cx, cy, radius, width, height, r, s + 1));
    }
}

/// Stepping past an in-disc offset paints exactly the cell it wraps onto.
proof fn lemma_painted_before_hit(
    cx: int,
    cy: int,
    radius: int,
    width: int,
    height: int,
    r: int,
    s: int,
)
    requires
        0 <= r < 2 * radius,
        0 <= s < 2 * radius,
        disc_offset_hits(r, s, radius),
    ensures
        painted_before(
            wrap_spec(cx + r - radius, width),
            wrap_spec(cy + s - radius, height),
            cx,
            cy,
            radius,
            width,
            height,
            r,
            s + 1,
        ),
{
    assert(disc_offset_hits(r, s, radius));
}

/// Finishing a row of the bounding box and starting the next one visits no
/// offset in between.
proof fn lemma_painted_before_row(
    i: int,
    j: int,
    cx: int,
    cy: int,
    radius: int,
    width: int,
    height: int,
    r: int,
)
    ensures
        painted_before(i, j, cx, cy, radius, width, height, r + 1, 0) == painted_before(
            i,
            j,
            cx,
            cy,
            radius,
            width,
            height,
            r,
            2 * radius,
        ),
{
    if painted_before(i, j, cx, cy, radius, width, height, r + 1, 0) {
        let (r2, s2) = choose|r2: int, s2: int|
            0 <= r2 < 2 * radius && 0 <= s2 < 2 * radius && (r2 < r + 1 || (r2 == r + 1 && s2 < 0))
                && #[trigger] disc_offset_hits(r2, s2, radius)
                && i == wrap_spec(cx + r2 - radius, width)
                && j == wrap_spec(cy + s2 - radius, height);
        assert(painted_before(i, j, cx, cy, radius, width, height, r, 2 * radius));
    }
    if painted_before(i, j, cx, cy, radius, width, height, r, 2 * radius) {
        let (r2, s2) = choose|r2: int, s2: int|
            0 <= r2 < 2 * radius && 0 <= s2 < 2 * radius && (r2 < r || (r2 == r && s2 < 2 * radius))
                && #[trigger] disc_offset_hits(r2, s2, radius)
                && i == wrap_spec(cx + r2 - radius, width)
                && j == wrap_spec(cy + s2 - radius, height);
        assert(painted_before(i, j, cx, cy, radius, width, height, r + 1, 0));
    }
}

/// After the full sweep the painted set is exactly the discretized disc.
proof fn lemma_painted_before_complete(
    i: int,
    j: int,
    cx: int,
    cy: int,
    radius: int,
    width: int,
    height: int,
)
    ensures
        painted_before(i, j, cx, cy, radius, width, height, 2 * radius, 0) == in_paint_disc(
            i,
            j,
            cx,
            cy,
            radius,
            width,
            height,
        ),
{
    if painted_before(i, j, cx, cy, radius, width, height, 2 * radius, 0) {
        let (r2, s2) = choose|r2: int, s2: int|
            0 <= r2 < 2 * radius && 0 <= s2 < 2 * radius && (r2 < 2 * radius || (r2 == 2 * radius
                && s2 < 0)) && #[trigger] disc_offset_hits(r2, s2, radius)
                && i == wrap_spec(cx + r2 - radius, width)
                && j == wrap_spec(cy + s2 - radius, height);
        assert(in_paint_disc(i, j, cx, cy, radius, width, height));
    }
    if in_paint_disc(i, j, cx, cy, radius, width, height) {
        let (r2, s2) = choose|r2: int, s2: int|
            0 <= r2 < 2 * radius && 0 <= s2 < 2 * radius && #[trigger] disc_offset_hits(
                r2,
                s2,
                radius,
            ) && i == wrap_spec(cx + r2 - radius, width) && j == wrap_spec(cy + s2 - radius, height);
        assert(painted_before(i, j, cx, cy, radius, width, height, 2 * radius, 0));
    }
}

/// Stamps `color` into every cell of the discretized disc of radius `radius`
/// around `(cx, cy)`, wrapping over the torus edges; every other cell keeps
/// its value. The disc is tested offset by offset over the bounding box of
/// side `2 * radius`.
#[verifier::loop_isolation(false)]
pub fn paint_lattice(lat: &mut Lattice, cx: usize, cy: usize, radius: usize, color: Cell)
    requires
        old(lat).wf(),
        cx < old(lat).width,
        cy < old(lat).height,
        radius <= old(lat).width,
        radius <= old(lat).height,
    ensures
        final(lat).wf(),
        final(lat).width == old(lat).width,
        final(lat).height == old(lat).height,
        forall|i: int, j: int|
            0 <= i < old(lat).width && 0 <= j < old(lat).height ==> final(lat).spec_cell(i, j) == (
            if in_paint_disc(
                i,
                j,
                cx as int,
                cy as int,
                radius as int,
                old(lat).width as int,
                old(lat).height as int,
            ) {
                color
            } else {
                old(lat).spec_cell(i, j)
            }),
        final(lat).cells@ == spec_paint_view(
            old(lat).cells@,
            old(lat).width as int,
            old(lat).height as int,
            cx as int,
            cy as int,
            radius as int,
            color,
        ),
{
    let w = lat.width;
    let h = lat.height;
    let ghost wi = w as int;
    let ghost hi = h as int;
    let ghost cxi = cx as int;
    let ghost cyi = cy as int;
    let ghost radi = radius as int;
    let ghost orig = lat.cells@;
    let mut r: usize = 0;
    while r < 2 * radius
        invariant
            lat.wf(),
            lat.width == w,
            lat.height == h,
            w == old(lat).width,
            h == old(lat).height,
            orig == old(lat).cells@,
            cx < w,
            cy < h,
            radius <= w,
            radius <= h,
            r <= 2 * radius,
            forall|i: int, j: int|
                0 <= i < wi && 0 <= j < hi ==> lat.spec_cell(i, j) == (if painted_before(
                    i,
                    j,
                    cxi,
                    cyi,
                    radi,
                    wi,
                    hi,
                    r as int,
                    0,
                ) {
                    color
                } else {
                    spec_cell_at(orig, wi, i, j)
                }),
        decreases 2 * radius - r,
    {
        let mut s: usize = 0;
        while s < 2 * radius
            invariant
                lat.wf(),
                lat.width == w,
                lat.height == h,
                w == old(lat).width,
                h == old(lat).height,
                orig == old(lat).cells@,
                cx < w,
                cy < h,
                radius <= w,
                radius <= h,
                r < 2 * radius,
                s <= 2 * radius,
                forall|i: int, j: int|
                    0 <= i < wi && 0 <= j < hi ==> lat.spec_cell(i, j) == (if painted_before(
                        i,
                        j,
                        cxi,
                        cyi,
                        radi,
                        wi,
                        hi,
                        r as int,
                        s as int,
                    ) {
                        color
                    } else {
                        spec_cell_at(orig, wi, i, j)
                    }),
            decreases 2 * radius - s,
        {
            let dr = r as i64 - radius as i64;
            let ds = s as i64 - radius as i64;
            let rad64 = radius as i64;
            proof {
                assert(0 <= dr * dr <= 4096 * 4096 && 0 <= ds * ds <= 4096 * 4096 && 0 <= rad64
                    * rad64 <= 4096 * 4096) by (nonlinear_arith)
                    requires
                        -4096 <= dr <= 4096,
                        -4096 <= ds <= 4096,
                        0 <= rad64 <= 4096,
                ;
            }
            if dr * dr + ds * ds <= rad64 * rad64 {
                let wx = modulo_robust(cx as i32 + r as i32 - radius as i32, w as i32);
                let wy = modulo_robust(cy as i32 + s as i32 - radius as i32, h as i32);
                let ghost prelat = *lat;
                lat.set(wx, wy, color);
                proof {
                    let wxi = wx as int;
                    let wyi = wy as int;
                    lemma_index_in_bounds(wi, hi, wxi, wyi);
                    assert(disc_offset_hits(r as int, s as int, radi));
                    lemma_painted_before_hit(cxi, cyi, radi, wi, hi, r as int, s as int);
                    assert forall|i: int, j: int| 0 <= i < wi && 0 <= j < hi implies lat.spec_cell(
                        i,
                        j,
                    ) == (if painted_before(i, j, cxi, cyi, radi, wi, hi, r as int, s as int + 1) {
                        color
                    } else {
                        spec_cell_at(orig, wi, i, j)
                    }) by {
                        lemma_index_in_bounds(wi, hi, i, j);
                        assert(prelat.spec_cell(i, j) == (if painted_before(
                            i,
                            j,
                            cxi,
                            cyi,
                            radi,
                            wi,
                            hi,
                            r as int,
                            s as int,
                        ) {
                            color
                        } else {
                            spec_cell_at(orig, wi, i, j)
                        }));
                        if i == wxi && j == wyi {
                            assert(lat.spec_cell(i, j) == color);
                        } else {
                            if i + wi * j == wxi + wi * wyi {
                                lemma_index_injective(wi, i, j, wxi, wyi);
                            }
                            assert(lat.spec_cell(i, j) == prelat.spec_cell(i, j));
                            lemma_painted_before_untouched(
                                i,
                                j,
                                cxi,
                                cyi,
                                radi,
                                wi,
                                hi,
                                r as int,
                                s as int,
                            );
                        }
                    }
                }
            } else {
                proof {
                    assert(!disc_offset_hits(r as int, s as int, radi));
                    assert forall|i: int, j: int| 0 <= i < wi && 0 <= j < hi implies lat.spec_cell(
                        i,
                        j,
                    ) == (if painted_before(i, j, cxi, cyi, radi, wi, hi, r as int, s as int + 1) {
                        color
                    } else {
                        spec_cell_at(orig, wi, i, j)
                    }) by {
                        lemma_painted_before_untouched(
                            i,
                            j,
                            cxi,
                            cyi,
                            radi,
                            wi,
                            hi,
                            r as int,
                            s as int,
                        );
                    }
                }
            }
            s = s + 1;
        }
        proof {
            assert forall|i: int, j: int| 0 <= i < wi && 0 <= j < hi implies lat.spec_cell(i, j)
                == (if painted_before(i, j, cxi, cyi, radi, wi, hi, r as int + 1, 0) {
                color
            } else {
                spec_cell_at(orig, wi, i, j)
            }) by {
                assert(lat.spec_cell(i, j) == (if painted_before(
                    i,
                    j,
                    cxi,
                    cyi,
                    radi,
                    wi,
                    hi,
                    r as int,
                    2 * radi,
                ) {
                    color
                } else {
                    spec_cell_at(orig, wi, i, j)
                }));
                lemma_painted_before_row(i, j, cxi, cyi, radi, wi, hi, r as int);
            }
        }
        r = r + 1;
    }
    proof {
        assert forall|i: int, j: int| 0 <= i < wi && 0 <= j < hi implies lat.spec_cell(i, j) == (
        if in_paint_disc(i, j, cxi, cyi, radi, wi, hi) {
            color
        } else {
            spec_cell_at(orig, wi, i, j)
        }) by {
            lemma_painted_before_complete(i, j, cxi, cyi, radi, wi, hi);
        }
        assert(lat.cells@ =~= spec_paint_view(orig, wi, hi, cxi, cyi, radi, color)) by {
            assert forall|k: int| 0 <= k < orig.len() implies lat.cells@[k] == spec_paint_view(
                orig,
                wi,
                hi,
                cxi,
                cyi,
                radi,
                color,
            )[k] by {
                lemma_index_decompose(wi, hi, k);
                let i = k % wi;
                let j = k / wi;
                assert(lat.spec_cell(i, j) == lat.cells@[k]);
            }
        }
    }
}

} // verus!
