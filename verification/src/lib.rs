//! Finite-dimensional algebras given by a tensor of structure constants, and
//! vectors over them with componentwise addition and the bilinear product that
//! the tensor defines.

pub mod algebra;
pub mod laws;
pub mod model;
pub mod scalar;
