use cellular_automata::field::{channel_parameters_from_units, initial_system, random_channel_parameters};
use cellular_automata::lattice::{Cell, Lattice};
use cellular_automata::params::ChannelParameters;
use cellular_automata::state::{next_iteration, CellularSystemState};
use cellular_automata::step::{clamp_channel, diffusion, norm_channel, reaction_red};

fn quiet_state(lattice: Lattice) -> CellularSystemState {
    CellularSystemState {
        iterating: false,
        painting: false,
        paint_x: 0,
        paint_y: 0,
        paint_radius: 0,
        paint_color: Cell { r: 0, g: 0, b: 0 },
        resetting: false,
        render_channel: 3,
        lattice,
        red: ChannelParameters::default(),
        green: ChannelParameters::default(),
        blue: ChannelParameters::default(),
    }
}

#[test]
fn pause_is_idempotent() {
    // iterating = false and no paint/reset pending: a tick changes nothing.
    let mut state = quiet_state(Lattice::new(5, 7, Cell { r: 9, g: 130, b: 201 }));
    let before = state.lattice.cells.clone();
    next_iteration(&mut state);
    assert_eq!(state.lattice.cells, before);
    assert_eq!(state.lattice.width, 5);
    assert_eq!(state.lattice.height, 7);
    next_iteration(&mut state);
    assert_eq!(state.lattice.cells, before);
}

#[test]
fn reset_replaces_state() {
    // After request_reset and one tick the dimensions are unchanged but the
    // content differs: the generated field is zero along its gradient axes,
    // so it can never be all-255.
    let mut state = quiet_state(Lattice::new(160, 160, Cell { r: 255, g: 255, b: 255 }));
    state.request_reset();
    assert!(state.resetting);
    next_iteration(&mut state);
    assert!(!state.resetting);
    assert_eq!(state.lattice.width, 160);
    assert_eq!(state.lattice.height, 160);
    let all_white = state
        .lattice
        .cells
        .iter()
        .all(|c| *c == Cell { r: 255, g: 255, b: 255 });
    assert!(!all_white);
}

#[test]
fn reset_wins_over_step() {
    // A pending reset skips the reaction-diffusion computation: with wild
    // coefficients a step would change every cell, but the reset branch
    // regenerates instead, and the generated field keeps its gradient zeros.
    let mut state = quiet_state(Lattice::new(8, 8, Cell { r: 200, g: 200, b: 200 }));
    state.iterating = true;
    state.resetting = true;
    next_iteration(&mut state);
    for x in 0..8 {
        assert_eq!(state.lattice.get(x, 0).r, 0);
    }
    for y in 0..8 {
        assert_eq!(state.lattice.get(0, y).b, 0);
    }
}

#[test]
fn paint_locality() {
    // Painting (10,10) radius 3 with red on an all-zero 160x160 lattice sets
    // exactly the discretized disc and nothing at Chebyshev distance > 4.
    let mut state = quiet_state(Lattice::new(160, 160, Cell { r: 0, g: 0, b: 0 }));
    state.paint_x = 10;
    state.paint_y = 10;
    state.paint_radius = 3;
    state.paint_color = Cell { r: 255, g: 0, b: 0 };
    state.paint();

    let red = Cell { r: 255, g: 0, b: 0 };
    let zero = Cell { r: 0, g: 0, b: 0 };
    for i in 0..160usize {
        for j in 0..160usize {
            let mut in_disc = false;
            for r in 0..6i64 {
                for s in 0..6i64 {
                    if (r - 3) * (r - 3) + (s - 3) * (s - 3) <= 9
                        && i as i64 == 10 + r - 3
                        && j as i64 == 10 + s - 3
                    {
                        in_disc = true;
                    }
                }
            }
            let expected = if in_disc { red } else { zero };
            assert_eq!(state.lattice.get(i, j), expected, "cell ({}, {})", i, j);
        }
    }
    // spot checks: the center is painted, far cells are not
    assert_eq!(state.lattice.get(10, 10), red);
    assert_eq!(state.lattice.get(20, 20), zero);
    assert_eq!(state.lattice.get(0, 0), zero);
}

#[test]
fn paint_wraps_over_the_edge() {
    // A disc near the origin continues on the opposite edges of the torus.
    let mut state = quiet_state(Lattice::new(16, 16, Cell { r: 0, g: 0, b: 0 }));
    state.paint_x = 0;
    state.paint_y = 0;
    state.paint_radius = 2;
    state.paint_color = Cell { r: 0, g: 255, b: 0 };
    state.paint();
    let green = Cell { r: 0, g: 255, b: 0 };
    // offset (r, s) = (0, 2): (-2)^2 + 0 <= 4 -> cell (0 - 2, 0) wraps to (14, 0)
    assert_eq!(state.lattice.get(14, 0), green);
    assert_eq!(state.lattice.get(0, 14), green);
    assert_eq!(state.lattice.get(0, 0), green);
    // a cell far from the wrapped disc stays untouched
    assert_eq!(state.lattice.get(5, 5), Cell { r: 0, g: 0, b: 0 });
}

#[test]
fn paint_forces_a_step_while_paused() {
    // A pending paint keeps the simulation live: the tick paints, steps and
    // consumes the request.
    let mut state = quiet_state(Lattice::new(8, 8, Cell { r: 0, g: 0, b: 0 }));
    state.request_paint(4, 4, 2, Cell { r: 255, g: 255, b: 255 });
    assert!(state.painting);
    let before = state.lattice.cells.clone();
    next_iteration(&mut state);
    assert!(!state.painting);
    assert_ne!(state.lattice.cells, before);
}

#[test]
fn golden_uniform_step() {
    // 4x4 lattice, all channels 128, diffusion 0.02, growth 0.9, interaction,
    // saturation and feedback 0. In fixed point: the neighbor sum is
    // 128 * 683688 = 87512064; diffusion gives 12800000 - 1750272 + 1750241 =
    // 12799969; the normalized value is 50196 and the logistic term
    // (90000 * 50196 / 100000) * 49804 / 100000 = 22499; the combined update
    // 12799969 + 255 * 22499 = 18537214 truncates to channel value 185.
    let params = ChannelParameters {
        diffusion_coefficient: 2000,
        growth_rate: 90_000,
        interaction_coefficient: 0,
        saturation_constant: 0,
        feedback_coefficient: 0,
    };
    let mut state = quiet_state(Lattice::new(4, 4, Cell { r: 128, g: 128, b: 128 }));
    state.iterating = true;
    state.red = params;
    state.green = params;
    state.blue = params;
    next_iteration(&mut state);
    for x in 0..4 {
        for y in 0..4 {
            assert_eq!(state.lattice.get(x, y), Cell { r: 185, g: 185, b: 185 });
        }
    }
}

#[test]
fn step_arithmetic_pieces() {
    assert_eq!(norm_channel(0), 0);
    assert_eq!(norm_channel(128), 50_196);
    assert_eq!(norm_channel(255), 100_000);
    assert_eq!(diffusion(128, 87_512_064, 2000), 12_799_969);
    assert_eq!(diffusion(7, 0, 0), 700_000);
    let params = ChannelParameters {
        diffusion_coefficient: 2000,
        growth_rate: 90_000,
        interaction_coefficient: 0,
        saturation_constant: 0,
        feedback_coefficient: 0,
    };
    assert_eq!(reaction_red(50_196, 50_196, 50_196, &params), 22_499);
    assert_eq!(clamp_channel(-5), 0);
    assert_eq!(clamp_channel(0), 0);
    assert_eq!(clamp_channel(18_537_214), 185);
    assert_eq!(clamp_channel(25_500_000), 255);
    assert_eq!(clamp_channel(9_999_999_999), 255);
}

#[test]
fn generated_field_keeps_gradient_zeros() {
    // Channel red scales with y, blue with x and green with x*y, so the first
    // row and column are forced to zero whatever the draws.
    let lat = initial_system(12, 9);
    assert_eq!(lat.width, 12);
    assert_eq!(lat.height, 9);
    assert_eq!(lat.cells.len(), 12 * 9);
    for x in 0..12 {
        assert_eq!(lat.get(x, 0).r, 0);
        assert_eq!(lat.get(x, 0).g, 0);
    }
    for y in 0..9 {
        assert_eq!(lat.get(0, y).b, 0);
        assert_eq!(lat.get(0, y).g, 0);
    }
}

#[test]
fn parameters_from_units_hit_their_ranges() {
    let p = channel_parameters_from_units(50_000, 50_000, 100_000, 0, 100_000);
    assert_eq!(p.diffusion_coefficient, 5_000);
    assert_eq!(p.growth_rate, 85_000);
    assert_eq!(p.interaction_coefficient, 500_000);
    assert_eq!(p.saturation_constant, 0);
    assert_eq!(p.feedback_coefficient, 300_000);

    let lo = channel_parameters_from_units(0, 0, 0, 0, 0);
    assert_eq!(lo.diffusion_coefficient, 0);
    assert_eq!(lo.growth_rate, 70_000);

    for _ in 0..32 {
        let p = random_channel_parameters();
        assert!(p.diffusion_coefficient <= 10_000);
        assert!((70_000..=100_000).contains(&p.growth_rate));
        assert!(p.interaction_coefficient <= 500_000);
        assert!(p.saturation_constant <= 300_000);
        assert!(p.feedback_coefficient <= 300_000);
    }
}

#[test]
fn default_state_matches_presets() {
    let state = CellularSystemState::default();
    assert!(state.iterating);
    assert!(!state.resetting);
    assert!(!state.painting);
    assert_eq!(state.render_channel, 3);
    assert_eq!(state.lattice.width, 160);
    assert_eq!(state.lattice.height, 160);
    assert_eq!(state.paint_radius, 20);
    assert_eq!(state.red.diffusion_coefficient, 2_248);
    assert_eq!(state.red.growth_rate, 98_204);
    assert_eq!(state.green.interaction_coefficient, 466_600);
    assert_eq!(state.blue.feedback_coefficient, 72_700);
}

#[test]
fn configure_takes_effect() {
    let mut state = quiet_state(Lattice::new(4, 4, Cell { r: 1, g: 2, b: 3 }));
    let p = channel_parameters_from_units(0, 100_000, 0, 0, 0);
    state.configure(p, p, p);
    assert_eq!(state.red.growth_rate, 100_000);
    assert_eq!(state.green.growth_rate, 100_000);
    assert_eq!(state.blue.growth_rate, 100_000);
}
