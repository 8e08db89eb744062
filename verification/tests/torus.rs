use cellular_automata::lattice::{Cell, Lattice};
use cellular_automata::torus_topology::{modulo_robust, sum_neighbour_channel};

#[test]
fn wrap_identity_in_range() {
    assert_eq!(modulo_robust(0, 160), 0);
    assert_eq!(modulo_robust(7, 160), 7);
    assert_eq!(modulo_robust(159, 160), 159);
}

#[test]
fn wrap_negative_coordinates() {
    assert_eq!(modulo_robust(-1, 160), 159);
    assert_eq!(modulo_robust(-160, 160), 0);
    assert_eq!(modulo_robust(-3, 7), 4);
}

#[test]
fn wrap_above_extent() {
    assert_eq!(modulo_robust(160, 160), 0);
    assert_eq!(modulo_robust(319, 160), 159);
    assert_eq!(modulo_robust(10, 7), 3);
}

#[test]
fn wrap_period_and_range() {
    // For coordinates in [-extent, 2*extent), the result is in [0, extent)
    // and shifting by a full extent lands on the same cell.
    for extent in [1i32, 2, 5, 160] {
        for coord in -extent..extent {
            let w = modulo_robust(coord, extent);
            assert!(w < extent as usize);
            assert_eq!(w, modulo_robust(coord + extent, extent));
        }
    }
}

fn uniform_lattice(w: usize, h: usize, v: u8) -> Lattice {
    Lattice::new(w, h, Cell { r: v, g: v, b: v })
}

#[test]
fn neighbour_sum_uniform_field() {
    // On a uniform field the weighted sum is v * (4 + 4/sqrt(2)) at every
    // cell, in fixed-point units: 100 * 683688.
    let lat = uniform_lattice(8, 8, 100);
    for x in 0..8 {
        for y in 0..8 {
            for channel in 0..3 {
                assert_eq!(sum_neighbour_channel(&lat, x, y, channel), 68_368_800);
            }
        }
    }
}

#[test]
fn neighbour_sum_corner_wraps() {
    // A single hot cell is seen by its 8 torus neighbors: diagonally from
    // (0, 0) across the wrap, orthogonally from (1, 0).
    let mut lat = uniform_lattice(3, 3, 0);
    lat.set(1, 1, Cell { r: 100, g: 0, b: 0 });
    assert_eq!(sum_neighbour_channel(&lat, 0, 0, 0), 7_092_200);
    assert_eq!(sum_neighbour_channel(&lat, 1, 0, 0), 10_000_000);
    // the hot cell itself is not its own neighbor
    assert_eq!(sum_neighbour_channel(&lat, 1, 1, 0), 0);
    // green and blue channels are unaffected
    assert_eq!(sum_neighbour_channel(&lat, 0, 0, 1), 0);
    assert_eq!(sum_neighbour_channel(&lat, 0, 0, 2), 0);
}
