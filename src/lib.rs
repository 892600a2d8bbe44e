//! Constraint synthesis for two small relations over a prime field: a sum
//! `a + b = c` with hidden summands, and a prefix relation between a public
//! sequence and a hidden longer one. Circuits lower themselves into a rank-1
//! constraint system whose satisfiability is decided by verified code.
pub mod circuit;
pub mod field;
pub mod laws;
pub mod r1cs;
pub mod session;
