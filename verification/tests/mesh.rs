use cellular_automata::height_map::{
    calculate_normals, height_map, height_map_triangle_indices, height_value, update_heightmap,
    MeshError, NormalDiff,
};
use cellular_automata::lattice::{Cell, Lattice};

#[test]
fn height_value_selects_channels() {
    let c = Cell { r: 10, g: 20, b: 40 };
    assert_eq!(height_value(c, 0), 10);
    assert_eq!(height_value(c, 1), 20);
    assert_eq!(height_value(c, 2), 40);
    // every other selector is the truncated channel average
    assert_eq!(height_value(c, 3), 23);
    assert_eq!(height_value(c, 7), 23);
    assert_eq!(height_value(Cell { r: 255, g: 255, b: 255 }, 3), 255);
    assert_eq!(height_value(Cell { r: 128, g: 128, b: 129 }, 3), 128);
}

#[test]
fn vertex_and_index_counts() {
    // width*height vertices and 6*(width-1)*(height-1) indices, whatever the
    // channel or the cell values.
    for (w, h) in [(4usize, 4usize), (7, 5), (1, 1), (2, 9), (160, 160)] {
        for channel in [0usize, 1, 2, 3] {
            let lat = Lattice::new(w, h, Cell { r: 3, g: 250, b: 77 });
            let mesh = height_map(&lat, channel);
            assert_eq!(mesh.heights.len(), w * h);
            assert_eq!(mesh.normals.len(), w * h);
            assert_eq!(mesh.indices.len(), 6 * (w - 1) * (h - 1));
            assert_eq!(mesh.width, w);
            assert_eq!(mesh.height, h);
        }
    }
}

#[test]
fn triangle_indices_of_a_single_quad() {
    // One quad of a 2x2 grid: two triangles with consistent winding.
    let indices = height_map_triangle_indices(2, 2);
    assert_eq!(indices, vec![0, 2, 1, 1, 2, 3]);
}

#[test]
fn triangle_indices_sweep_columns() {
    // Quads are swept column by column: quad q = x*(height-1) + y.
    let w = 3usize;
    let indices = height_map_triangle_indices(w, 3);
    assert_eq!(indices.len(), 24);
    let quad = |x: usize, y: usize| {
        let base = (y * w + x) as u32;
        vec![
            base,
            base + w as u32,
            base + 1,
            base + 1,
            base + w as u32,
            base + w as u32 + 1,
        ]
    };
    assert_eq!(indices[0..6].to_vec(), quad(0, 0));
    assert_eq!(indices[6..12].to_vec(), quad(0, 1));
    assert_eq!(indices[12..18].to_vec(), quad(1, 0));
    assert_eq!(indices[18..24].to_vec(), quad(1, 1));
    // every index addresses a vertex
    assert!(indices.iter().all(|&i| (i as usize) < 9));
}

#[test]
fn normals_flat_field_and_slope() {
    // A uniform height field has zero central differences everywhere.
    let flat = vec![40u8; 12];
    for n in calculate_normals(&flat, 4, 3) {
        assert_eq!(n, NormalDiff { dx: 0, dy: 0 });
    }
    // A single bump: at the cell left of the bump, the right neighbor is
    // high, so dx = 0 - 9 = -9; the torus closes the seams.
    let mut heights = vec![0u8; 16];
    heights[1 + 4 * 1] = 9;
    let normals = calculate_normals(&heights, 4, 4);
    assert_eq!(normals[0 + 4 * 1], NormalDiff { dx: -9, dy: 0 });
    assert_eq!(normals[2 + 4 * 1], NormalDiff { dx: 9, dy: 0 });
    assert_eq!(normals[1 + 4 * 0], NormalDiff { dx: 0, dy: -9 });
    assert_eq!(normals[1 + 4 * 2], NormalDiff { dx: 0, dy: 9 });
    assert_eq!(normals[1 + 4 * 1], NormalDiff { dx: 0, dy: 0 });
}

#[test]
fn normals_wrap_around_the_torus() {
    // On a 1-row-high strip the vertical neighbors of every cell wrap back to
    // the cell itself, and the horizontal seam joins the two ends.
    let heights = vec![10u8, 30u8];
    let normals = calculate_normals(&heights, 2, 1);
    // left of cell 0 is cell 1, right of cell 0 is cell 1: dx = 30 - 30 = 0
    assert_eq!(normals[0], NormalDiff { dx: 0, dy: 0 });
    assert_eq!(normals[1], NormalDiff { dx: 0, dy: 0 });

    let heights = vec![10u8, 20u8, 40u8];
    let normals = calculate_normals(&heights, 3, 1);
    assert_eq!(normals[0], NormalDiff { dx: 40 - 20, dy: 0 });
    assert_eq!(normals[1], NormalDiff { dx: 10 - 40, dy: 0 });
    assert_eq!(normals[2], NormalDiff { dx: 20 - 10, dy: 0 });
}

#[test]
fn mesh_heights_follow_the_render_channel() {
    let mut lat = Lattice::new(2, 2, Cell { r: 0, g: 100, b: 200 });
    lat.set(1, 1, Cell { r: 50, g: 60, b: 70 });
    let mesh = height_map(&lat, 1);
    assert_eq!(mesh.heights, vec![100, 100, 100, 60]);
    let avg = height_map(&lat, 3);
    assert_eq!(avg.heights, vec![100, 100, 100, 60]);
    let blue = height_map(&lat, 2);
    assert_eq!(blue.heights, vec![200, 200, 200, 70]);
}

#[test]
fn update_reuses_topology() {
    // The per-tick path recomputes heights and normals in place and leaves
    // the index buffer untouched.
    let lat = Lattice::new(4, 4, Cell { r: 10, g: 0, b: 0 });
    let mut mesh = height_map(&lat, 0);
    let indices_before = mesh.indices.clone();
    let brighter = Lattice::new(4, 4, Cell { r: 200, g: 0, b: 0 });
    let result = update_heightmap(&mut mesh, &brighter, 0);
    assert_eq!(result, Ok(()));
    assert_eq!(mesh.indices, indices_before);
    assert_eq!(mesh.heights, vec![200u8; 16]);
    assert_eq!(mesh.normals.len(), 16);
}

#[test]
fn update_rejects_dimension_mismatch() {
    // Projecting a lattice against a mesh built for other dimensions fails
    // fast and changes nothing.
    let lat = Lattice::new(4, 4, Cell { r: 10, g: 0, b: 0 });
    let mut mesh = height_map(&lat, 0);
    let heights_before = mesh.heights.clone();
    let other = Lattice::new(5, 4, Cell { r: 200, g: 0, b: 0 });
    let result = update_heightmap(&mut mesh, &other, 0);
    assert_eq!(result, Err(MeshError::DimensionMismatch));
    assert_eq!(mesh.heights, heights_before);
    assert_eq!(mesh.width, 4);
    assert_eq!(mesh.height, 4);
}
