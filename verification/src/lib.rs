//! Checkout customization decision functions.
//!
//! Three independent, stateless decision functions for an e-commerce
//! checkout pipeline: an order-discount calculator, a payment-method
//! visibility filter, and a delivery-option visibility filter. Each
//! maps a snapshot of cart state plus an optional merchant
//! configuration blob to a list of operations, with no side effects.

use vstd::prelude::*;

pub mod delivery;
pub mod discount;
pub mod payment;

verus! {

/// The merchant configuration text was present but could not be decoded
/// into its declared shape. This is fatal for the invocation: no default
/// configuration is ever substituted.
#[derive(Clone, Copy, Debug, PartialEq, Eq, Structural)]
pub struct ConfigError;

} // verus!
