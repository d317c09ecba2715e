//! Arithmetic with a plain number on the left: `2 + column`. The number becomes a literal operand.
pub mod float;
pub mod signed;
pub mod unsigned;
