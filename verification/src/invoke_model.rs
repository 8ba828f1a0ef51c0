//! Wire shapes of direct model invocation, one module per model family.

pub mod amazon;
