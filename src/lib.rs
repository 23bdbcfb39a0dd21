//! A simulator for the RV32I base integer instruction subset: a typed
//! instruction model, a loader that lays a program into instruction memory,
//! and a step function over the architectural state.

pub mod ast;
pub mod literal;
pub mod simulator;
pub mod laws;
