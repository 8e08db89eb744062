//! A toroidal reaction-diffusion cellular automaton.
//!
//! The simulation state is a 2D lattice of three-channel cells on a torus:
//! every tick each channel diffuses into its 8-connected Moore neighborhood
//! and reacts with the other two channels of the same cell. A height-field
//! mesh is derived from one channel (or the channel average) of the lattice.
//!
//! All arithmetic is deterministic fixed-point integer arithmetic with
//! `FIXED_ONE` units to the unit, so every update is stated and proved
//! exactly.

pub mod field;
pub mod height_map;
pub mod lattice;
pub mod paint;
pub mod params;
pub mod rng;
pub mod state;
pub mod step;
pub mod torus_topology;
