//! Lattice Boltzmann fluid simulation: the integer side of the simulation
//! set-up (lattice geometry, the D2Q9 stencil, GPU work sizing, buffer
//! wiring and per-frame scheduling), stated and proved.
use vstd::prelude::*;

pub mod collide_stream;
pub mod d2q9;
pub mod frame;
pub mod grid;
pub mod ink;
pub mod lattice;
pub mod obstacle_row;
pub mod particles;
pub mod setup;
pub mod shader;

verus! {

/// The kind of flow a lattice is set up for.
#[derive(Clone, Copy, PartialEq, Eq, Structural, Debug)]
pub enum FlowType {
    /// Channel flow driven by an inflow on the left, with obstacles.
    Poiseuille,
    /// Square cavity whose top wall moves.
    LidDrivenCavity,
    /// Pigment injected from the top edge and diffused.
    PigmentsDiffuse,
    /// Ink painted into a closed box by touch.
    Ink,
}

} // verus!
