//! Periodic-table lookup with verified electron subshell configurations.
//!
//! The library resolves a chemical element by atomic number, name or symbol
//! against a fixed 118-entry directory, and computes the element's idealized
//! electron subshell configuration by the Madelung filling order.

pub mod element;
pub mod subshell;

