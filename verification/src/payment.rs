//! What is asked of the payment gateway, and what it answers.

use vstd::prelude::*;
use crate::identity::Identity;

verus! {

/// What the payment gateway is asked to do: move `amount` of the smallest
/// currency unit from one identity to another, as a unit.
#[derive(Clone, Copy, Debug, PartialEq, Eq)]
pub struct PaymentRequest {
    pub from: Identity,
    pub to: Identity,
    pub amount: u64,
}

/// What the payment gateway answered.
#[derive(Clone, Copy, Debug, PartialEq, Eq, Structural)]
pub enum PaymentOutcome {
    Success,
    Failure,
}

} // verus!
