//! Typed access to memory-mapped peripheral registers, and the discipline for
//! state shared between the main program and interrupt handlers.
pub mod critical;
pub mod field;
pub mod gmac;
pub mod register;
pub mod session;
pub mod shared;
