//! Diagonal inertia tensors of solid primitives for robot-description files:
//! the shapes and the values each one asks for, the dialogue that collects
//! them, and the text block that shows the resulting matrix.
//!
//! The library decides and lays out; it never reads or prints. A front end
//! hands it each line that was typed and carries out the actions it answers
//! with.

pub mod matrix;
pub mod session;
pub mod shape;
pub mod text;
