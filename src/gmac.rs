//! Registers of the Ethernet controller.
pub mod tbfr127;
