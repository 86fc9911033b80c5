//! Residual blocks: one cost function, an optional loss function, and the
//! parameter blocks they read.

use crate::cost::{CostFunction, CostFunctionView};
use vstd::prelude::*;

verus! {

/// Identifies a residual block of a problem: its position in the order in
/// which blocks were added.
#[derive(Debug, Clone, Copy, PartialEq, Eq, Hash)]
pub struct ResidualBlockId(pub usize);

/// What a residual block holds.
pub struct ResidualBlockView<C, L> {
    pub cost: CostFunctionView<C>,
    pub loss: Option<L>,
    pub parameter_indices: Seq<usize>,
}

/// A residual block registered with a problem.
pub struct ResidualBlock<C, L> {
    cost: CostFunction<C>,
    loss: Option<L>,
    parameter_indices: Vec<usize>,
}

impl<C, L> View for ResidualBlock<C, L> {
    type V = ResidualBlockView<C, L>;

    closed spec fn view(&self) -> ResidualBlockView<C, L> {
        ResidualBlockView {
            cost: self.cost@,
            loss: self.loss,
            parameter_indices: self.parameter_indices@,
        }
    }
}

impl<C, L> ResidualBlock<C, L> {
    pub(crate) fn new(cost: CostFunction<C>, loss: Option<L>, parameter_indices: Vec<usize>) -> (r: Self)
        ensures
            r@ == (ResidualBlockView { cost: cost@, loss, parameter_indices: parameter_indices@ }),
    {
        ResidualBlock { cost, loss, parameter_indices }
    }

    /// The cost function.
    pub fn cost(&self) -> (r: &CostFunction<C>)
        ensures
            r@ == self@.cost,
    {
        &self.cost
    }

    /// The storage indices of the parameter blocks, in the order the cost
    /// function takes them.
    pub fn parameter_indices(&self) -> (r: &[usize])
        ensures
            r@ == self@.parameter_indices,
    {
        self.parameter_indices.as_slice()
    }

    /// Gives back the cost function, the loss function and the parameter indices.
    pub fn into_parts(self) -> (r: (CostFunction<C>, Option<L>, Vec<usize>))
        ensures
            r.0@ == self@.cost,
            r.1 == self@.loss,
            r.2@ == self@.parameter_indices,
    {
        (self.cost, self.loss, self.parameter_indices)
    }
}

} // verus!
