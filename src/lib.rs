//! Per-frame control logic of a small 2D physics game: input edges, the
//! player's movement and jump decisions, shape-driven draw dispatch, and the
//! frame loop's state machine. The physics engine, the window and the
//! graphics API stay outside; they hand this library plain values.
pub mod input;
pub mod controller;
pub mod render;
pub mod frame;
