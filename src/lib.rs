//! A minimal 2D immediate-mode rendering core: frame-synchronised keyboard
//! state, per-frame vertex batching with triangle tessellation order, colour
//! channels as exact fractions, and integer vectors.
pub mod batch;
pub mod colors;
pub mod input;
pub mod vector2int;
