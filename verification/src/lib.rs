//! The rules of a two-paddle ball game, kept apart from the window and the
//! graphics device that show it.
//!
//! Every length is an integer count of billionths of the court's half-width
//! and every angle an integer count of millionths of a degree, so that each
//! frame of the simulation is exact and can be stated and proved.

pub mod court;
pub mod entropy;
pub mod event;
pub mod geometry;
pub mod keys;
pub mod layout;
pub mod render;
pub mod state;
pub mod units;
