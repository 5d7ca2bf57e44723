//! A 3×3×3 twisty puzzle: six faces of nine coloured cells, the turns that
//! permute them, and the usual notation for sequences of turns.
//!
//! Every executable function carries a contract over the spec functions of
//! the type it belongs to. What holds of every face, every cube and every
//! side is stated and proved beside them:
//!
//! - [`face_laws`]: quarter turns of a face undo each other and come round
//!   after four; the four lines of a face share its corners.
//! - [`turn_laws`]: turns of a side add up, undo each other and come round
//!   after four; sequences of moves can be undone.
//! - [`census`]: no turn changes how often a colour occurs.
//! - [`pieces`]: every turn moves the corner and edge pieces as wholes.

pub mod algorithm;
pub mod census;
pub mod colour;
pub mod cube;
pub mod face;
pub mod face_laws;
pub mod pieces;
pub mod render;
pub mod text;
pub mod turn_laws;
