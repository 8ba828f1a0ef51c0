//! Wire shapes of the Amazon model family.

pub mod canvas;
pub mod nova;
