//! The parts of a humanoid character model, their conversion into the
//! vertices that a renderer draws, and the merging of depth-encoded render
//! passes into ordered layers.
//!
//! Coordinates are exact: positions, sizes, angles and texture coordinates
//! count fixed sub-units (see [`vector::UNIT`]), and an accumulated rotation
//! is kept as the list of rotations it is made of. A renderer turns both
//! into floating point numbers when it draws.
//!
//! Every function carries a contract over a mathematical model of its data,
//! and Verus proves that the function meets it. The few functions that call
//! into other crates state what those crates promise.

pub mod vector;
pub mod uv;
pub mod types;
pub mod part;
pub mod primitives;

pub mod sequences;
pub mod pixel;
pub mod sorting;
pub mod compositor;
pub mod encoding;

pub mod groups;
pub mod passes;
pub mod naming;
pub mod render_mode;

pub mod hex;
pub mod blockbench;
pub mod config;
pub mod error;
pub mod mojang;
