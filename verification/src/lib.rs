//! Address and type reconciliation for calibration descriptions.
//!
//! A calibration description names measurement and calibration variables of a
//! compiled program. This library reconciles those objects against the
//! program's debug information: it resolves every object's symbol to its
//! runtime address, normalizes pointer and array shapes into address-class
//! and dimension metadata, rewrites the objects, removes or preserves the
//! ones whose symbols cannot be found, and prunes dangling references from
//! the rest of the module.

pub mod typegraph;
pub mod symbols;
pub mod objects;
pub mod resolve;
pub mod cleanup;
pub mod update;
