//! The closed set of loss kinds. A loss holds no state; its arithmetic runs
//! over the float buffers that the caller owns.
use vstd::prelude::*;

verus! {

/// Squared error: `sum (pred - target)^2`, with gradient `2 (pred - target)`.
#[derive(Clone, Copy, Debug, PartialEq, Eq)]
pub struct Mse {}

impl Mse {
    pub fn new() -> (m: Mse) {
        Mse {}
    }
}

/// Softmax cross-entropy over raw scores, with gradient
/// `softmax(pred) - target`; it must read the network's last layer directly.
#[derive(Clone, Copy, Debug, PartialEq, Eq)]
pub struct CrossEntropy {}

impl CrossEntropy {
    pub fn new() -> (c: CrossEntropy) {
        CrossEntropy {}
    }
}

/// The loss a trainer applies to the network's output.
#[derive(Clone, Copy, Debug, PartialEq, Eq)]
pub enum Loss {
    Mse(Mse),
    CrossEntropy(CrossEntropy),
}

} // verus!
