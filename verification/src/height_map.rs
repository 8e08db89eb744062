//! The height-field builder: turns one channel of the lattice into a
//! renderable surface.
//!
//! Each cell becomes one vertex whose height is the selected channel (or the
//! channel average), two triangles span every grid quad of the regular
//! `(width-1) x (height-1)` mesh, and per-vertex normals come from central
//! height differences taken over the torus, so wraparound neighbors
//! contribute. When only cell values change, heights and normals are
//! recomputed in place and the triangle topology is reused untouched.

use crate::lattice::lemma_index_in_bounds;
use crate::lattice::Cell;
use crate::lattice::Lattice;
use crate::lattice::MAX_DIM;
use crate::step::lemma_div_bound;
use crate::torus_topology::modulo_robust;
use crate::torus_topology::wrap_spec;
use vstd::arithmetic::div_mod::lemma_fundamental_div_mod_converse;
use vstd::prelude::*;

verus! {

/// The mesh projection failed because the supplied lattice does not have the
/// dimensions the mesh topology was built for; this signals a caller bug, not
/// a runtime condition.
#[derive(Clone, Copy, Debug, PartialEq, Eq, Structural)]
pub enum MeshError {
    DimensionMismatch,
}

/// The central height differences at one vertex: `dx` between the left and
/// right torus neighbors, `dy` between the two vertical ones. The renderer
/// completes them with its constant depth factor and normalizes.
#[derive(Clone, Copy, Debug, PartialEq, Eq, Structural)]
pub struct NormalDiff {
    pub dx: i16,
    pub dy: i16,
}

/// The geometry derived from a lattice: one height and one normal per cell,
/// plus the triangle index topology of the regular grid mesh.
pub struct HeightMapMeshData {
    pub heights: Vec<u8>,
    pub normals: Vec<NormalDiff>,
    pub indices: Vec<u32>,
    pub width: usize,
    pub height: usize,
}

/// The vertex height a cell projects to: channel 0, 1 or 2 directly, any
/// other selector the unweighted channel average.
pub open spec fn spec_height_value(c: Cell, render_channel: int) -> int {
    if render_channel == 0 {
        c.r as int
    } else if render_channel == 1 {
        c.g as int
    } else if render_channel == 2 {
        c.b as int
    } else {
        (c.r as int + c.g as int + c.b as int) / 3
    }
}

/// The height buffer of a whole cell buffer under one render channel.
pub open spec fn spec_heights(cells: Seq<Cell>, render_channel: int) -> Seq<u8> {
    Seq::new(cells.len(), |k: int| spec_height_value(cells[k], render_channel) as u8)
}

/// The central-difference normal data at `(x, y)`, neighbors wrapped onto the
/// torus.
pub open spec fn spec_normal(heights: Seq<u8>, width: int, height: int, x: int, y: int) -> NormalDiff {
    let h_l = heights[wrap_spec(x - 1, width) + width * y] as int;
    let h_r = heights[wrap_spec(x + 1, width) + width * y] as int;
    let h_d = heights[x + width * wrap_spec(y - 1, height)] as int;
    let h_u = heights[x + width * wrap_spec(y + 1, height)] as int;
    NormalDiff { dx: (h_l - h_r) as i16, dy: (h_d - h_u) as i16 }
}

/// The six vertex indices of grid quad `q` stand in the index buffer as two
/// consistently wound triangles. Quads are swept column by column, so
/// `q = x * (height - 1) + y`.
pub open spec fn spec_quad_ok(indices: Seq<u32>, width: int, height: int, q: int) -> bool {
    let x = q / (height - 1);
    let y = q % (height - 1);
    let base = y * width + x;
    &&& indices[6 * q] as int == base
    &&& indices[6 * q + 1] as int == base + width
    &&& indices[6 * q + 2] as int == base + 1
    &&& indices[6 * q + 3] as int == base + 1
    &&& indices[6 * q + 4] as int == base + width
    &&& indices[6 * q + 5] as int == base + width + 1
}

/// Projects one cell to its vertex height under the render channel.
pub fn height_value(c: Cell, render_channel: usize) -> (r: u8)
    ensures
        r as int == spec_height_value(c, render_channel as int),
{
    if render_channel == 0 {
        c.r
    } else if render_channel == 1 {
        c.g
    } else if render_channel == 2 {
        c.b
    } else {
        let sum: u32 = c.r as u32 + c.g as u32 + c.b as u32;
        proof {
            lemma_div_bound(sum as int, 765, 3);
        }
        (sum / 3) as u8
    }
}

/// Builds the triangle index buffer of the regular `(width-1) x (height-1)`
/// quad mesh: always `6 * (width-1) * (height-1)` indices, two triangles per
/// quad, independent of any cell value.
#[verifier::loop_isolation(false)]
pub fn height_map_triangle_indices(width: usize, height: usize) -> (r: Vec<u32>)
    requires
        1 <= width <= MAX_DIM,
        1 <= height <= MAX_DIM,
    ensures
        r.len() == 6 * (width - 1) * (height - 1),
        forall|q: int|
            0 <= q < (width - 1) * (height - 1) ==> spec_quad_ok(
                r@,
                width as int,
                height as int,
                q,
            ),
{
    let mut indexlist: Vec<u32> = Vec::new();
    let mut x: usize = 0;
    while x < width - 1
        invariant
            x <= width - 1,
            indexlist.len() == 6 * (x * (height - 1)),
            forall|q: int|
                0 <= q < x * (height - 1) ==> spec_quad_ok(
                    indexlist@,
                    width as int,
                    height as int,
                    q,
                ),
        decreases width - 1 - x,
    {
        let mut y: usize = 0;
        while y < height - 1
            invariant
                x < width - 1,
                y <= height - 1,
                indexlist.len() == 6 * (x * (height - 1) + y),
                forall|q: int|
                    0 <= q < x * (height - 1) + y ==> spec_quad_ok(
                        indexlist@,
                        width as int,
                        height as int,
                        q,
                    ),
            decreases height - 1 - y,
        {
            proof {
                lemma_index_in_bounds(width as int, height as int, x as int, y as int);
                assert((x * (height - 1) + y) * 6 + 6 <= 6 * ((width - 1) * (height - 1))
                    && x * (height - 1) + y < (width - 1) * (height - 1)
                    && y * width + x + width + 1 <= width * height
                    && width * height <= MAX_DIM * MAX_DIM) by (nonlinear_arith)
                    requires
                        0 <= x < width,
                        0 <= y < height - 1,
                        1 <= width <= MAX_DIM,
                        1 <= height <= MAX_DIM,
                        x < width - 1,
                ;
            }
            let ghost pre = indexlist@;
            let base: usize = y * width + x;
            indexlist.push(base as u32);
            indexlist.push((base + width) as u32);
            indexlist.push((base + 1) as u32);
            indexlist.push((base + 1) as u32);
            indexlist.push((base + width) as u32);
            indexlist.push((base + width + 1) as u32);
            proof {
                let q = (x * (height - 1) + y) as int;
                lemma_fundamental_div_mod_converse(q, (height - 1) as int, x as int, y as int);
                assert forall|q2: int| 0 <= q2 < q + 1 implies spec_quad_ok(
                    indexlist@,
                    width as int,
                    height as int,
                    q2,
                ) by {
                    if q2 < q {
                        assert(spec_quad_ok(pre, width as int, height as int, q2));
                    }
                }
            }
            y = y + 1;
        }
        proof {
            assert((x + 1) * (height - 1) == x * (height - 1) + (height - 1)) by (nonlinear_arith);
        }
        x = x + 1;
    }
    proof {
        assert(6 * ((width - 1) * (height - 1)) == 6 * (width - 1) * (height - 1))
            by (nonlinear_arith);
    }
    indexlist
}

/// Computes the central-difference normal data of every vertex from a height
/// buffer, wrapping neighbor lookups onto the torus.
#[verifier::loop_isolation(false)]
pub fn calculate_normals(heights: &Vec<u8>, width: usize, height: usize) -> (r: Vec<NormalDiff>)
    requires
        1 <= width <= MAX_DIM,
        1 <= height <= MAX_DIM,
        heights.len() == width * height,
    ensures
        r.len() == width * height,
        forall|k: int|
            0 <= k < width * height ==> r[k] == spec_normal(
                heights@,
                width as int,
                height as int,
                k % width as int,
                k / width as int,
            ),
{
    let mut normalslist: Vec<NormalDiff> = Vec::new();
    let mut y: usize = 0;
    while y < height
        invariant
            y <= height,
            normalslist.len() == y * width,
            forall|k: int|
                0 <= k < y * width ==> normalslist[k] == spec_normal(
                    heights@,
                    width as int,
                    height as int,
                    k % width as int,
                    k / width as int,
                ),
        decreases height - y,
    {
        let mut x: usize = 0;
        while x < width
            invariant
                y < height,
                x <= width,
                normalslist.len() == y * width + x,
                forall|k: int|
                    0 <= k < y * width + x ==> normalslist[k] == spec_normal(
                        heights@,
                        width as int,
                        height as int,
                        k % width as int,
                        k / width as int,
                    ),
            decreases width - x,
        {
            let wxl = modulo_robust(x as i32 - 1, width as i32);
            let wxr = modulo_robust(x as i32 + 1, width as i32);
            let wyd = modulo_robust(y as i32 - 1, height as i32);
            let wyu = modulo_robust(y as i32 + 1, height as i32);
            proof {
                lemma_index_in_bounds(width as int, height as int, wxl as int, y as int);
                lemma_index_in_bounds(width as int, height as int, wxr as int, y as int);
                lemma_index_in_bounds(width as int, height as int, x as int, wyd as int);
                lemma_index_in_bounds(width as int, height as int, x as int, wyu as int);
                lemma_index_in_bounds(width as int, height as int, x as int, y as int);
            }
            let h_l = heights[wxl + width * y];
            let h_r = heights[wxr + width * y];
            let h_d = heights[x + width * wyd];
            let h_u = heights[x + width * wyu];
            let n = NormalDiff { dx: h_l as i16 - h_r as i16, dy: h_d as i16 - h_u as i16 };
            normalslist.push(n);
            proof {
                lemma_fundamental_div_mod_converse(
                    (y * width + x) as int,
                    width as int,
                    y as int,
                    x as int,
                );
            }
            x = x + 1;
        }
        proof {
            assert((y + 1) * width == y * width + width) by (nonlinear_arith);
        }
        y = y + 1;
    }
    proof {
        assert(height * width == width * height) by (nonlinear_arith);
    }
    normalslist
}

/// Builds the full mesh data of a lattice under a render channel: exactly
/// `width * height` vertex heights and normals and
/// `6 * (width-1) * (height-1)` triangle indices, whatever the channel
/// selector and the cell values.
#[verifier::loop_isolation(false)]
pub fn height_map(lattice: &Lattice, render_channel: usize) -> (r: HeightMapMeshData)
    requires
        lattice.wf(),
    ensures
        r.width == lattice.width,
        r.height == lattice.height,
        r.heights.len() == lattice.width * lattice.height,
        r.normals.len() == lattice.width * lattice.height,
        r.indices.len() == 6 * (lattice.width - 1) * (lattice.height - 1),
        r.heights@ == spec_heights(lattice.cells@, render_channel as int),
        forall|k: int|
            0 <= k < lattice.width * lattice.height ==> r.normals[k] == spec_normal(
                r.heights@,
                lattice.width as int,
                lattice.height as int,
                k % lattice.width as int,
                k / lattice.width as int,
            ),
        forall|q: int|
            0 <= q < (lattice.width - 1) * (lattice.height - 1) ==> spec_quad_ok(
                r.indices@,
                lattice.width as int,
                lattice.height as int,
                q,
            ),
{
    let width = lattice.width;
    let height = lattice.height;
    let n = lattice.cells.len();
    let mut heights: Vec<u8> = Vec::new();
    let mut k: usize = 0;
    while k < n
        invariant
            k <= n,
            heights.len() == k,
            forall|k2: int|
                0 <= k2 < k ==> heights[k2] as int == spec_height_value(
                    lattice.cells@[k2],
                    render_channel as int,
                ),
        decreases n - k,
    {
        heights.push(height_value(lattice.cells[k], render_channel));
        k = k + 1;
    }
    proof {
        assert(heights@ =~= spec_heights(lattice.cells@, render_channel as int));
    }
    let indices = height_map_triangle_indices(width, height);
    let normals = calculate_normals(&heights, width, height);
    HeightMapMeshData { heights, normals, indices, width, height }
}

/// Recomputes heights and normals of an existing mesh in place from the
/// lattice, reusing the triangle topology untouched: the per-tick update
/// path. Fails fast with [`MeshError::DimensionMismatch`], changing nothing,
/// exactly when the lattice dimensions differ from those the mesh was built
/// for.
pub fn update_heightmap(
    mesh: &mut HeightMapMeshData,
    lattice: &Lattice,
    render_channel: usize,
) -> (r: Result<(), MeshError>)
    requires
        lattice.wf(),
    ensures
        r is Ok <==> (old(mesh).width == lattice.width && old(mesh).height == lattice.height),
        r is Err ==> r == Result::<(), MeshError>::Err(MeshError::DimensionMismatch)
            && *final(mesh) == *old(mesh),
        r is Ok ==> {
            &&& final(mesh).width == old(mesh).width
            &&& final(mesh).height == old(mesh).height
            &&& final(mesh).indices == old(mesh).indices
            &&& final(mesh).heights@ == spec_heights(lattice.cells@, render_channel as int)
            &&& final(mesh).normals.len() == lattice.width * lattice.height
            &&& forall|k: int|
                0 <= k < lattice.width * lattice.height ==> final(mesh).normals[k] == spec_normal(
                    final(mesh).heights@,
                    lattice.width as int,
                    lattice.height as int,
                    k % lattice.width as int,
                    k / lattice.width as int,
                )
        },
{
    if mesh.width != lattice.width || mesh.height != lattice.height {
        return Err(MeshError::DimensionMismatch);
    }
    let width = lattice.width;
    let height = lattice.height;
    let n = lattice.cells.len();
    let mut heights: Vec<u8> = Vec::new();
    let mut k: usize = 0;
    while k < n
        invariant
            lattice.wf(),
            n == lattice.cells.len(),
            k <= n,
            heights.len() == k,
            forall|k2: int|
                0 <= k2 < k ==> heights[k2] as int == spec_height_value(
                    lattice.cells@[k2],
                    render_channel as int,
                ),
        decreases n - k,
    {
        heights.push(height_value(lattice.cells[k], render_channel));
        k = k + 1;
    }
    proof {
        assert(heights@ =~= spec_heights(lattice.cells@, render_channel as int));
    }
    let normals = calculate_normals(&heights, width, height);
    mesh.heights = heights;
    mesh.normals = normals;
    Ok(())
}

} // verus!
