//! One-dimensional curve fitting on top of [NllsProblem].
//!
//! A curve fit is a problem with one residual block: its cost is the model
//! function with the data points ([CurveFitModel]), with one residual per
//! data point, and each fitted parameter is a parameter block of one
//! component. Evaluating the model on the data is the embedding
//! application's part: it turns a [CurveFitModel] into the cost callable.

use crate::error::CurveFitProblemBuildError;
use crate::error::ParameterBlockStorageError;
use crate::nlls_problem::{
    bound_calls, NllsProblem, NllsProblemSolution, NllsProblemView, ProblemCall, SolveRequest,
};
use crate::parameter_block::{
    item_resolves, len_before, new_blocks, opt_vec_view,
    resolved_index, ParameterBlock, ParameterBlockOrIndex, ParameterBlockView,
};
use crate::residual_block::ResidualBlockId;
use crate::solver::{SolverOptions, SolverSummary};
use vstd::prelude::*;

verus! {

/// What a curve model holds.
pub struct CurveFitModelView<T, F> {
    pub func: F,
    pub x: Seq<T>,
    pub y: Seq<T>,
    pub inverse_error: Option<Seq<T>>,
}

/// The model function of a curve fit with its data points and, optionally,
/// their inverse errors (unity where absent).
pub struct CurveFitModel<T, F> {
    func: F,
    x: Vec<T>,
    y: Vec<T>,
    inverse_error: Option<Vec<T>>,
}

impl<T, F> View for CurveFitModel<T, F> {
    type V = CurveFitModelView<T, F>;

    closed spec fn view(&self) -> CurveFitModelView<T, F> {
        CurveFitModelView {
            func: self.func,
            x: self.x@,
            y: self.y@,
            inverse_error: opt_vec_view(self.inverse_error),
        }
    }
}

impl<T, F> CurveFitModel<T, F> {
    /// Gives back the model function, `x`, `y` and the inverse errors.
    pub fn into_parts(self) -> (r: (F, Vec<T>, Vec<T>, Option<Vec<T>>))
        ensures
            r.0 == self@.func,
            r.1@ == self@.x,
            r.2@ == self@.y,
            opt_vec_view(r.3) == self@.inverse_error,
    {
        (self.func, self.x, self.y, self.inverse_error)
    }
}

/// The one-component block of parameter `i`, bounded where `lower` or
/// `upper` give a bound for it.
pub open spec fn curve_block<T>(
    parameters: Seq<T>,
    lower: Option<Seq<Option<T>>>,
    upper: Option<Seq<Option<T>>>,
    i: int,
) -> ParameterBlockView<T> {
    ParameterBlockView {
        values: seq![parameters[i]],
        lower_bounds: component_bound(lower, i),
        upper_bounds: component_bound(upper, i),
    }
}

/// The bounds of a one-component block from the bound of parameter `i`.
pub open spec fn component_bound<T>(bounds: Option<Seq<Option<T>>>, i: int) -> Option<Seq<Option<T>>> {
    match bounds {
        Some(b) => match b[i] {
            Some(v) => Some(seq![Some(v)]),
            None => None,
        },
        None => None,
    }
}

/// One block per parameter.
pub open spec fn curve_blocks<T>(
    parameters: Seq<T>,
    lower: Option<Seq<Option<T>>>,
    upper: Option<Seq<Option<T>>>,
) -> Seq<ParameterBlockView<T>> {
    Seq::new(parameters.len(), |i: int| curve_block(parameters, lower, upper, i))
}

/// The indices `0..n`.
pub open spec fn first_indices(n: nat) -> Seq<usize> {
    Seq::new(n, |i: int| i as usize)
}

/// The problem a curve fit builds: the blocks of its parameters, one
/// residual block over all of them, and the calls that add it, bound the
/// parameters and fix the `constants`.
pub open spec fn is_curve_fit_problem<T, F, L>(
    p: NllsProblemView<T, CurveFitModel<T, F>, L>,
    model: CurveFitModelView<T, F>,
    parameters: Seq<T>,
    lower: Option<Seq<Option<T>>>,
    upper: Option<Seq<Option<T>>>,
    loss: Option<L>,
    constants: Seq<usize>,
) -> bool {
    let blocks = curve_blocks(parameters, lower, upper);
    let indices = first_indices(parameters.len());
    &&& p.blocks == blocks
    &&& p.residual_blocks.len() == 1
    &&& p.residual_blocks[0].cost.func@ == model
    &&& p.residual_blocks[0].cost.num_residuals == model.x.len()
    &&& p.residual_blocks[0].cost.parameter_sizes == Seq::new(parameters.len(), |i: int| 1usize)
    &&& p.residual_blocks[0].loss == loss
    &&& p.residual_blocks[0].parameter_indices == indices
    &&& p.calls == seq![ProblemCall::AddResidualBlock(ResidualBlockId(0))] + bound_calls(
        false,
        blocks,
        indices,
    ) + bound_calls(true, blocks, indices) + constants.map_values(
        |c: usize| ProblemCall::SetParameterBlockConstant(c),
    )
}

/// The first of `indices` that is not below `n`, if any.
pub open spec fn first_out_of_range(indices: Seq<usize>, n: nat) -> Option<usize>
    decreases indices.len(),
{
    if indices.len() == 0 {
        None
    } else if indices[0] >= n {
        Some(indices[0])
    } else {
        first_out_of_range(indices.drop_first(), n)
    }
}

/// A 1-D curve fit problem.
pub struct CurveFitProblem1D<T, F, L>(NllsProblem<T, CurveFitModel<T, F>, L>);

impl<T, F, L> View for CurveFitProblem1D<T, F, L> {
    type V = NllsProblemView<T, CurveFitModel<T, F>, L>;

    closed spec fn view(&self) -> NllsProblemView<T, CurveFitModel<T, F>, L> {
        self.0@
    }
}

/// Items that are all new blocks stand for the indices that follow the
/// stored ones, in order.
proof fn lemma_all_blocks<T>(items: Seq<ParameterBlockOrIndex<T>>, blocks: Seq<ParameterBlockView<T>>)
    requires
        items.len() == blocks.len(),
        forall|i: int|
            0 <= i < items.len() ==> (#[trigger] items[i] matches ParameterBlockOrIndex::Block(b)
                && b@ == blocks[i]),
    ensures
        new_blocks(items) == blocks,
        forall|i: int| 0 <= i <= items.len() ==> #[trigger] new_blocks(items.take(i)).len() == i,
    decreases items.len(),
{
    if items.len() > 0 {
        let prefix = items.drop_last();
        assert forall|i: int| 0 <= i < prefix.len() implies (#[trigger] prefix[i] matches ParameterBlockOrIndex::Block(b)
            && b@ == blocks.drop_last()[i]) by {
            assert(prefix[i] == items[i]);
        }
        lemma_all_blocks(prefix, blocks.drop_last());
        assert(new_blocks(items) =~= blocks);
        assert forall|i: int| 0 <= i <= items.len() implies #[trigger] new_blocks(items.take(i)).len() == i by {
            if i < items.len() {
                assert(items.take(i) =~= prefix.take(i));
            } else {
                assert(items.take(i) =~= items);
            }
        }
    } else {
        assert(items.take(0) =~= items);
    }
}

impl<T: Copy, F, L> CurveFitProblem1D<T, F, L> {
    /// A curve fit of `func` to the points `(x[i], y[i])` from the initial
    /// guess `parameters`, with unity errors, the trivial loss and no bounds.
    pub fn new(func: F, x: Vec<T>, y: Vec<T>, parameters: &[T]) -> (r: Self)
        requires
            x@.len() == y@.len(),
            parameters@.len() > 0,
        ensures
            is_curve_fit_problem(
                r@,
                CurveFitModelView { func, x: x@, y: y@, inverse_error: None },
                parameters@,
                None,
                None,
                None,
                Seq::empty(),
            ),
    {
        let builder = CurveFitProblem1DBuilder::new().func(func).x(x).y(y).parameters(parameters);
        match builder.build() {
            Ok(problem) => problem,
            Err(_) => {
                proof {
                    assert(false);
                }
                CurveFitProblem1D(NllsProblem::new())
            },
        }
    }
}

impl<T, F, L> CurveFitProblem1D<T, F, L> {
    /// A builder with nothing set.
    pub fn builder() -> (r: CurveFitProblem1DBuilder<T, F, L>)
        ensures
            r.is_empty(),
    {
        CurveFitProblem1DBuilder::new()
    }

    /// The underlying problem.
    pub fn problem(&self) -> (r: &NllsProblem<T, CurveFitModel<T, F>, L>)
        ensures
            r@ == self@,
    {
        &self.0
    }

    /// Solves the problem: hands it, with `options`, to the native engine.
    pub fn solve(self, options: &SolverOptions) -> (r: SolveRequest<'_, T, CurveFitModel<T, F>, L>)
        requires
            self@.residual_blocks.len() > 0,
        ensures
            r.problem@ == self@,
            r.options == options,
    {
        match self.0.solve(options) {
            Ok(request) => request,
            Err(_) => {
                proof {
                    assert(false);
                }
                SolveRequest { problem: NllsProblem::new(), options }
            },
        }
    }
}

/// A solution of a [CurveFitProblem1D].
pub struct CurveFitProblemSolution<T> {
    /// The fitted parameters.
    pub parameters: Vec<T>,
    /// Solver summary.
    pub summary: SolverSummary,
}

impl<T: Copy> CurveFitProblemSolution<T> {
    /// Collects the one component of every parameter block of `solution`.
    pub fn from_nlls(solution: NllsProblemSolution<T>) -> (r: Self)
        requires
            forall|i: int|
                0 <= i < solution.parameters@.len() ==> (#[trigger] solution.parameters@[i])@.len()
                    > 0,
        ensures
            r.parameters@.len() == solution.parameters@.len(),
            forall|i: int|
                0 <= i < r.parameters@.len() ==> #[trigger] r.parameters@[i]
                    == solution.parameters@[i]@[0],
            r.summary == solution.summary,
    {
        let NllsProblemSolution { parameters: blocks, summary } = solution;
        let mut parameters: Vec<T> = Vec::new();
        let mut i: usize = 0;
        while i < blocks.len()
            invariant
                forall|a: int| 0 <= a < blocks@.len() ==> (#[trigger] blocks@[a])@.len() > 0,
                i <= blocks@.len(),
                parameters@.len() == i,
                forall|a: int| 0 <= a < i ==> #[trigger] parameters@[a] == blocks@[a]@[0],
            decreases blocks@.len() - i,
        {
            parameters.push(blocks[i][0]);
            i += 1;
        }
        CurveFitProblemSolution { parameters, summary }
    }
}

/// Builder for [CurveFitProblem1D].
pub struct CurveFitProblem1DBuilder<T, F, L> {
    /// Model function.
    pub func: Option<F>,
    /// Independent coordinates of the data points.
    pub x: Option<Vec<T>>,
    /// Values of the data points.
    pub y: Option<Vec<T>>,
    /// Optional inverse errors, the square roots of the point weights.
    pub inverse_error: Option<Vec<T>>,
    /// Initial guess of the parameters.
    pub parameters: Option<Vec<T>>,
    /// Optional lower bounds of the parameters.
    pub lower_bounds: Option<Vec<Option<T>>>,
    /// Optional upper bounds of the parameters.
    pub upper_bounds: Option<Vec<Option<T>>>,
    /// Indices of the parameters that are not fitted.
    pub constant_parameters: Option<Vec<usize>>,
    /// Optional loss function.
    pub loss: Option<L>,
}

impl<T, F, L> CurveFitProblem1DBuilder<T, F, L> {
    /// Nothing is set.
    pub open spec fn is_empty(&self) -> bool {
        &&& self.func is None
        &&& self.x is None
        &&& self.y is None
        &&& self.inverse_error is None
        &&& self.parameters is None
        &&& self.lower_bounds is None
        &&& self.upper_bounds is None
        &&& self.constant_parameters is None
        &&& self.loss is None
    }

    /// A builder with nothing set.
    pub fn new() -> (r: Self)
        ensures
            r.is_empty(),
    {
        CurveFitProblem1DBuilder {
            func: None,
            x: None,
            y: None,
            inverse_error: None,
            parameters: None,
            lower_bounds: None,
            upper_bounds: None,
            constant_parameters: None,
            loss: None,
        }
    }

    /// Sets the model function.
    pub fn func(self, func: F) -> (r: Self)
        ensures
            r == (CurveFitProblem1DBuilder { func: Some(func), ..self }),
    {
        let mut s = self;
        s.func = Some(func);
        s
    }

    /// Sets the independent coordinates of the data points.
    pub fn x(self, x: Vec<T>) -> (r: Self)
        ensures
            r == (CurveFitProblem1DBuilder { x: Some(x), ..self }),
    {
        let mut s = self;
        s.x = Some(x);
        s
    }

    /// Sets the values of the data points.
    pub fn y(self, y: Vec<T>) -> (r: Self)
        ensures
            r == (CurveFitProblem1DBuilder { y: Some(y), ..self }),
    {
        let mut s = self;
        s.y = Some(y);
        s
    }

    /// Sets the inverse errors of the data points; the residual of a point
    /// is `(y - model(x)) * inverse_error`.
    pub fn inverse_error(self, inv_err: Vec<T>) -> (r: Self)
        ensures
            r == (CurveFitProblem1DBuilder { inverse_error: Some(inv_err), ..self }),
    {
        let mut s = self;
        s.inverse_error = Some(inv_err);
        s
    }

    /// Sets the lower bounds of the parameters, `None` for an unbounded one.
    pub fn lower_bounds(self, lower_bounds: Vec<Option<T>>) -> (r: Self)
        ensures
            r == (CurveFitProblem1DBuilder { lower_bounds: Some(lower_bounds), ..self }),
    {
        let mut s = self;
        s.lower_bounds = Some(lower_bounds);
        s
    }

    /// Sets the upper bounds of the parameters, `None` for an unbounded one.
    pub fn upper_bounds(self, upper_bounds: Vec<Option<T>>) -> (r: Self)
        ensures
            r == (CurveFitProblem1DBuilder { upper_bounds: Some(upper_bounds), ..self }),
    {
        let mut s = self;
        s.upper_bounds = Some(upper_bounds);
        s
    }

    /// Sets the indices of the parameters that are not fitted.
    pub fn constant(self, indexes: Vec<usize>) -> (r: Self)
        ensures
            r == (CurveFitProblem1DBuilder { constant_parameters: Some(indexes), ..self }),
    {
        let mut s = self;
        s.constant_parameters = Some(indexes);
        s
    }

    /// Sets the loss function.
    pub fn loss(self, loss: L) -> (r: Self)
        ensures
            r == (CurveFitProblem1DBuilder { loss: Some(loss), ..self }),
    {
        let mut s = self;
        s.loss = Some(loss);
        s
    }
}

impl<T, F, L> CurveFitProblem1DBuilder<T, F, L> {
    /// The first check that the builder fails, in the order in which
    /// [CurveFitProblem1DBuilder::build] makes them, if any.
    pub open spec fn build_error(&self) -> Option<CurveFitProblemBuildError> {
        let n = match self.parameters {
            Some(p) => p@.len(),
            None => 0,
        };
        if self.func is None {
            Some(CurveFitProblemBuildError::FuncMissed)
        } else if self.x is None {
            Some(CurveFitProblemBuildError::XMissed)
        } else if self.y is None {
            Some(CurveFitProblemBuildError::YMissed)
        } else if self.x.unwrap()@.len() != self.y.unwrap()@.len() {
            Some(CurveFitProblemBuildError::DataSizesDontMatch)
        } else if self.inverse_error matches Some(e) && e@.len() != self.x.unwrap()@.len() {
            Some(CurveFitProblemBuildError::DataSizesDontMatch)
        } else if n == 0 {
            Some(CurveFitProblemBuildError::ParametersMissed)
        } else if self.lower_bounds matches Some(l) && l@.len() != n {
            Some(CurveFitProblemBuildError::LowerBoundarySizeMismatch)
        } else if self.upper_bounds matches Some(u) && u@.len() != n {
            Some(CurveFitProblemBuildError::UpperBoundarySizeMismatch)
        } else {
            let constants = match self.constant_parameters {
                Some(c) => c@,
                None => Seq::empty(),
            };
            match first_out_of_range(constants, n) {
                Some(index) => Some(
                    CurveFitProblemBuildError::ParameterBlockStorageError(
                        ParameterBlockStorageError::IndexOutOfBounds { index, len: n as usize },
                    ),
                ),
                None => None,
            }
        }
    }
}

impl<T: Copy, F, L> CurveFitProblem1DBuilder<T, F, L> {
    /// Builds the problem, or fails at the first check that fails: the
    /// model function, `x`, `y` and the initial parameters must be set, the
    /// data arrays must have one length, the bounds one entry per parameter,
    /// and the constant indices must name parameters.
    pub fn build(self) -> (r: Result<CurveFitProblem1D<T, F, L>, CurveFitProblemBuildError>)
        ensures
            match self.build_error() {
                Some(e) => r matches Err(e2) && e2 == e,
                None => r matches Ok(p) && is_curve_fit_problem(
                    p@,
                    CurveFitModelView {
                        func: self.func.unwrap(),
                        x: self.x.unwrap()@,
                        y: self.y.unwrap()@,
                        inverse_error: opt_vec_view(self.inverse_error),
                    },
                    self.parameters.unwrap()@,
                    opt_vec_view(self.lower_bounds),
                    opt_vec_view(self.upper_bounds),
                    self.loss,
                    match self.constant_parameters {
                        Some(c) => c@,
                        None => Seq::empty(),
                    },
                ),
            },
    {
        let ghost old_self = self;
        let CurveFitProblem1DBuilder {
            func,
            x,
            y,
            inverse_error,
            parameters,
            lower_bounds,
            upper_bounds,
            constant_parameters,
            loss,
        } = self;
        let func = match func {
            Some(f) => f,
            None => return Err(CurveFitProblemBuildError::FuncMissed),
        };
        let x = match x {
            Some(x) => x,
            None => return Err(CurveFitProblemBuildError::XMissed),
        };
        let y = match y {
            Some(y) => y,
            None => return Err(CurveFitProblemBuildError::YMissed),
        };
        let n_obs = x.len();
        if n_obs != y.len() {
            return Err(CurveFitProblemBuildError::DataSizesDontMatch);
        }
        match &inverse_error {
            Some(e) => {
                if e.len() != n_obs {
                    return Err(CurveFitProblemBuildError::DataSizesDontMatch);
                }
            },
            None => {},
        }
        let parameters = match parameters {
            Some(p) => p,
            None => return Err(CurveFitProblemBuildError::ParametersMissed),
        };
        let n = parameters.len();
        if n == 0 {
            return Err(CurveFitProblemBuildError::ParametersMissed);
        }
        match &lower_bounds {
            Some(l) => {
                if l.len() != n {
                    return Err(CurveFitProblemBuildError::LowerBoundarySizeMismatch);
                }
            },
            None => {},
        }
        match &upper_bounds {
            Some(u) => {
                if u.len() != n {
                    return Err(CurveFitProblemBuildError::UpperBoundarySizeMismatch);
                }
            },
            None => {},
        }
        let ghost lower = opt_vec_view(lower_bounds);
        let ghost upper = opt_vec_view(upper_bounds);
        let ghost blocks = curve_blocks(parameters@, lower, upper);
        let mut items: Vec<ParameterBlockOrIndex<T>> = Vec::new();
        let mut i: usize = 0;
        while i < n
            invariant
                n == parameters@.len(),
                lower == opt_vec_view(lower_bounds),
                upper == opt_vec_view(upper_bounds),
                lower_bounds matches Some(l) ==> l@.len() == n,
                upper_bounds matches Some(u) ==> u@.len() == n,
                blocks == curve_blocks(parameters@, lower, upper),
                i <= n,
                items@.len() == i,
                forall|a: int|
                    0 <= a < i ==> (#[trigger] items@[a] matches ParameterBlockOrIndex::Block(b)
                        && b@ == blocks[a]),
            decreases n - i,
        {
            let mut block = ParameterBlock::new(vec![parameters[i]]);
            match &lower_bounds {
                Some(l) => match l[i] {
                    Some(v) => block.set_lower_bounds(vec![Some(v)]),
                    None => {},
                },
                None => {},
            }
            match &upper_bounds {
                Some(u) => match u[i] {
                    Some(v) => block.set_upper_bounds(vec![Some(v)]),
                    None => {},
                },
                None => {},
            }
            assert(block@.values =~= blocks[i as int].values);
            assert(block@.lower_bounds == blocks[i as int].lower_bounds);
            assert(block@.upper_bounds == blocks[i as int].upper_bounds);
            items.push(ParameterBlockOrIndex::Block(block));
            i += 1;
        }
        proof {
            lemma_all_blocks(items@, blocks);
            assert forall|a: int| 0 <= a < items@.len() implies item_resolves(0, items@, a) by {}
            assert forall|a: int| 0 <= a < items@.len() implies (#[trigger] items@[a] matches ParameterBlockOrIndex::Block(b) ==> b@.wf()) by {}
        }
        let ghost items_view = items@;
        let model = CurveFitModel { func, x, y, inverse_error };
        let mut builder = NllsProblem::new().residual_block_builder().set_cost(model, n_obs);
        match loss {
            Some(l) => {
                builder = builder.set_loss(l);
            },
            None => {},
        }
        let built = builder.set_parameters(items).build_into_problem();
        let mut problem = match built {
            Ok((p, _id)) => p,
            Err(_) => {
                proof {
                    assert(false);
                }
                return Err(CurveFitProblemBuildError::ParametersMissed);
            },
        };
        let ghost indices = first_indices(n as nat);
        proof {
            assert forall|a: int| 0 <= a < n implies resolved_index(0, items_view, a) == a by {
                assert(len_before(0, items_view, a) == a);
            }
            assert(problem@.residual_blocks[0].parameter_indices =~= indices);
            assert(problem@.blocks =~= blocks);
            assert(problem@.residual_blocks[0].cost.parameter_sizes =~= Seq::new(n as nat, |k: int| 1usize));
        }
        let ghost base = problem@;
        let constants = match constant_parameters {
            Some(c) => c,
            None => Vec::new(),
        };
        let mut k: usize = 0;
        assert(constants@.skip(0) =~= constants@);
        assert(old_self.build_error() == match first_out_of_range(constants@, n as nat) {
                    Some(index) => Some(
                        CurveFitProblemBuildError::ParameterBlockStorageError(
                            ParameterBlockStorageError::IndexOutOfBounds { index, len: n },
                        ),
                    ),
                    None => None,
                });
        while k < constants.len()
            invariant
                old_self == self,
                n == base.blocks.len(),
                constants@ == match old_self.constant_parameters {
                    Some(c) => c@,
                    None => Seq::<usize>::empty(),
                },
                old_self.build_error() == match first_out_of_range(constants@, n as nat) {
                    Some(index) => Some(
                        CurveFitProblemBuildError::ParameterBlockStorageError(
                            ParameterBlockStorageError::IndexOutOfBounds { index, len: n },
                        ),
                    ),
                    None => None,
                },
                k <= constants@.len(),
                first_out_of_range(constants@, n as nat) == first_out_of_range(constants@.skip(k as int), n as nat),
                problem@ == (NllsProblemView {
                    calls: base.calls + constants@.take(k as int).map_values(|c: usize| ProblemCall::SetParameterBlockConstant(c)),
                    ..base
                }),
            decreases constants@.len() - k,
        {
            assert(constants@.skip(k as int).drop_first() =~= constants@.skip(k + 1));
            assert(constants@.skip(k as int)[0] == constants@[k as int]);
            match problem.set_parameter_block_constant(constants[k]) {
                Ok(()) => {},
                Err(e) => {
                    assert(first_out_of_range(constants@.skip(k as int), n as nat) == Some(constants@[k as int]));
                    assert(e == ParameterBlockStorageError::IndexOutOfBounds { index: constants@[k as int], len: n });
                    assert(old_self.build_error() == Some(CurveFitProblemBuildError::ParameterBlockStorageError(e)));
                    return Err(CurveFitProblemBuildError::ParameterBlockStorageError(e));
                },
            }
            k += 1;
            assert(problem@.calls =~= base.calls + constants@.take(k as int).map_values(|c: usize| ProblemCall::SetParameterBlockConstant(c)));
        }
        proof {
            assert(constants@.take(k as int) =~= constants@);
            assert(constants@.skip(k as int) =~= Seq::<usize>::empty());
        }
        Ok(CurveFitProblem1D(problem))
    }

    /// Sets the initial guess of the parameters.
    pub fn parameters(self, parameters: &[T]) -> (r: Self)
        ensures
            r.parameters matches Some(p) && p@ == parameters@,
            r == (CurveFitProblem1DBuilder { parameters: r.parameters, ..self }),
    {
        let mut p: Vec<T> = Vec::new();
        let mut i: usize = 0;
        while i < parameters.len()
            invariant
                i <= parameters@.len(),
                p@ == parameters@.take(i as int),
            decreases parameters@.len() - i,
        {
            p.push(parameters[i]);
            i += 1;
            assert(p@ =~= parameters@.take(i as int));
        }
        assert(parameters@.take(i as int) =~= parameters@);
        let mut s = self;
        s.parameters = Some(p);
        s
    }
}

} // verus!
