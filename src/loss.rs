//! Loss functions for [NllsProblem](crate::nlls_problem::NllsProblem) and
//! [CurveFitProblem1D](crate::curve_fit::CurveFitProblem1D).
//!
//! A loss function transforms the squared norm of a residual block, which
//! makes the solver less sensitive to outliers. It is either a custom
//! callable, which writes the loss value and its first and second
//! derivatives, or one of the native engine's stock losses with one or two
//! scale parameters.

use vstd::prelude::*;

verus! {

/// Which loss a [LossFunction] is, with its scale parameters.
#[derive(Debug, Clone, Copy, PartialEq, Eq)]
pub enum LossFunctionKind<T, F> {
    Custom(F),
    Huber(T),
    SoftLOne(T),
    Cauchy(T),
    Arctan(T),
    Tolerant(T, T),
    Tukey(T),
}

/// Loss function of a residual block.
pub struct LossFunction<T, F>(LossFunctionKind<T, F>);

impl<T, F> View for LossFunction<T, F> {
    type V = LossFunctionKind<T, F>;

    closed spec fn view(&self) -> LossFunctionKind<T, F> {
        self.0
    }
}

impl<T, F> LossFunction<T, F> {
    /// A custom loss: `func` takes the squared norm and writes the loss, its
    /// first and its second derivative.
    pub fn custom(func: F) -> (r: Self)
        ensures
            r@ == LossFunctionKind::<T, F>::Custom(func),
    {
        LossFunction(LossFunctionKind::Custom(func))
    }

    /// Huber loss with scale `a`.
    pub fn huber(a: T) -> (r: Self)
        ensures
            r@ == LossFunctionKind::<T, F>::Huber(a),
    {
        LossFunction(LossFunctionKind::Huber(a))
    }

    /// Soft L1 loss with scale `a`.
    pub fn soft_l1(a: T) -> (r: Self)
        ensures
            r@ == LossFunctionKind::<T, F>::SoftLOne(a),
    {
        LossFunction(LossFunctionKind::SoftLOne(a))
    }

    /// Cauchy loss, `log(1 + s)`, with scale `a`.
    pub fn cauchy(a: T) -> (r: Self)
        ensures
            r@ == LossFunctionKind::<T, F>::Cauchy(a),
    {
        LossFunction(LossFunctionKind::Cauchy(a))
    }

    /// Arctangent loss with scale `a`.
    pub fn arctan(a: T) -> (r: Self)
        ensures
            r@ == LossFunctionKind::<T, F>::Arctan(a),
    {
        LossFunction(LossFunctionKind::Arctan(a))
    }

    /// Tolerant loss with scales `a` and `b`.
    pub fn tolerant(a: T, b: T) -> (r: Self)
        ensures
            r@ == LossFunctionKind::<T, F>::Tolerant(a, b),
    {
        LossFunction(LossFunctionKind::Tolerant(a, b))
    }

    /// Tukey loss with scale `a`.
    pub fn tukey(a: T) -> (r: Self)
        ensures
            r@ == LossFunctionKind::<T, F>::Tukey(a),
    {
        LossFunction(LossFunctionKind::Tukey(a))
    }

    /// Which loss this is.
    pub fn into_inner(self) -> (r: LossFunctionKind<T, F>)
        ensures
            r == self@,
    {
        self.0
    }
}

} // verus!
