//! Validated configuration layer for a quantized vector index.
//!
//! Two independent builders prepare the fully-resolved parameter records that
//! an external index engine consumes: one for index construction (memory
//! layout, element and distance typing) and one for index build (hierarchical
//! clustering and rotation-optimization hyperparameters). Invalid
//! combinations are rejected eagerly, before any expensive work begins, and
//! every derivation and validation rule is stated as a contract and proved.

pub mod build_params;
pub mod construction;
pub mod decimal;
pub mod element;
pub mod error;
mod sealed;
pub mod tags;
