//! Conway's Game of Life on a bounded grid: the cell buffer, the synchronous
//! transition rule, brush painting and the per-frame decisions of an
//! interactive session, each with a verified contract.

pub mod brush;
pub mod cell;
pub mod grid;
pub mod life;
pub mod patterns;
pub mod seed;
pub mod session;
