//! Non-linear least squares problems.
//!
//! A problem owns its parameter blocks and its residual blocks and records,
//! in order, every call that configures the native problem: adding a
//! residual block, bounding a parameter component, fixing or freeing a
//! parameter block. Solving consumes the problem and yields a
//! [SolveRequest]: everything the native engine needs for one run, or an
//! error when there is nothing to solve, in which case the engine is never
//! reached.

use crate::cost::{CostFunction, CostFunctionView};
use crate::error::{NllsProblemError, ParameterBlockStorageError, ResidualBlockBuildingError};
use crate::parameter_block::{
    all_resolve, first_unresolved, is_first_unresolved, item_resolves, items_wf, len_before,
    lemma_new_blocks_step, new_blocks, resolved_index, ParameterBlock, ParameterBlockOrIndex,
    ParameterBlockStorage, ParameterBlockView,
};
use crate::residual_block::{ResidualBlock, ResidualBlockId, ResidualBlockView};
use crate::solver::{SolverOptions, SolverSummary};
use vstd::prelude::*;

verus! {

/// A call that configures the native problem.
#[derive(Debug, Clone, Copy, PartialEq, Eq)]
pub enum ProblemCall<T> {
    AddResidualBlock(ResidualBlockId),
    SetParameterLowerBound { block: usize, component: usize, value: T },
    SetParameterUpperBound { block: usize, component: usize, value: T },
    SetParameterBlockConstant(usize),
    SetParameterBlockVariable(usize),
}

/// The call that bounds component `component` of parameter block `block`.
pub open spec fn bound_call<T>(upper: bool, block: usize, component: usize, value: T) -> ProblemCall<T> {
    if upper {
        ProblemCall::SetParameterUpperBound { block, component, value }
    } else {
        ProblemCall::SetParameterLowerBound { block, component, value }
    }
}

/// One call per bounded component of `bounds`, in component order.
pub open spec fn block_bound_calls<T>(upper: bool, block: usize, bounds: Seq<Option<T>>) -> Seq<
    ProblemCall<T>,
>
    decreases bounds.len(),
{
    if bounds.len() == 0 {
        Seq::empty()
    } else {
        block_bound_calls(upper, block, bounds.drop_last()) + match bounds.last() {
            Some(v) => seq![bound_call(upper, block, (bounds.len() - 1) as usize, v)],
            None => Seq::empty(),
        }
    }
}

/// The bound calls for the blocks at `indices`, in that order.
pub open spec fn bound_calls<T>(
    upper: bool,
    blocks: Seq<ParameterBlockView<T>>,
    indices: Seq<usize>,
) -> Seq<ProblemCall<T>>
    decreases indices.len(),
{
    if indices.len() == 0 {
        Seq::empty()
    } else {
        bound_calls(upper, blocks, indices.drop_last()) + block_bound_calls(
            upper,
            indices.last(),
            blocks[indices.last() as int].bounds(upper),
        )
    }
}

/// Whether the last of `calls` that fixes or frees block `block` fixes it.
pub open spec fn is_constant_after<T>(calls: Seq<ProblemCall<T>>, block: usize) -> bool
    decreases calls.len(),
{
    if calls.len() == 0 {
        false
    } else {
        match calls.last() {
            ProblemCall::SetParameterBlockConstant(b) if b == block => true,
            ProblemCall::SetParameterBlockVariable(b) if b == block => false,
            _ => is_constant_after(calls.drop_last(), block),
        }
    }
}

/// What a problem holds.
pub struct NllsProblemView<T, C, L> {
    pub blocks: Seq<ParameterBlockView<T>>,
    pub residual_blocks: Seq<ResidualBlockView<C, L>>,
    pub calls: Seq<ProblemCall<T>>,
}

/// The storage indices that `items` stand for against `len` stored blocks.
pub open spec fn resolved_indices<T>(len: nat, items: Seq<ParameterBlockOrIndex<T>>) -> Seq<usize> {
    Seq::new(items.len(), |i: int| resolved_index(len, items, i) as usize)
}

/// The sizes of the blocks at `indices`.
pub open spec fn block_sizes<T>(blocks: Seq<ParameterBlockView<T>>, indices: Seq<usize>) -> Seq<usize> {
    indices.map_values(|k: usize| blocks[k as int].values.len() as usize)
}

impl<T, C, L> NllsProblemView<T, C, L> {
    /// Every parameter block is well formed, and every residual block takes
    /// a non-empty list of stored blocks, with the cost function declaring
    /// exactly their sizes.
    pub open spec fn wf(self) -> bool {
        &&& forall|i: int| 0 <= i < self.blocks.len() ==> (#[trigger] self.blocks[i]).wf()
        &&& forall|r: int|
            0 <= r < self.residual_blocks.len() ==> {
                let rb = #[trigger] self.residual_blocks[r];
                &&& rb.parameter_indices.len() > 0
                &&& forall|k: int|
                    0 <= k < rb.parameter_indices.len() ==> #[trigger] rb.parameter_indices[k]
                        < self.blocks.len()
                &&& rb.cost.parameter_sizes == block_sizes(self.blocks, rb.parameter_indices)
            }
    }

    /// The problem after a residual block with cost `func` of `num_residuals`
    /// residuals, loss `loss` and parameters `items` was added: new blocks
    /// are appended, the residual block is appended, and the calls record its
    /// addition and then every lower and every upper bound of the blocks it
    /// takes.
    pub open spec fn with_residual_block(
        self,
        func: C,
        num_residuals: usize,
        loss: Option<L>,
        items: Seq<ParameterBlockOrIndex<T>>,
    ) -> NllsProblemView<T, C, L> {
        let blocks = self.blocks + new_blocks(items);
        let indices = resolved_indices(self.blocks.len(), items);
        NllsProblemView {
            blocks,
            residual_blocks: self.residual_blocks.push(
                ResidualBlockView {
                    cost: CostFunctionView {
                        func,
                        parameter_sizes: block_sizes(blocks, indices),
                        num_residuals,
                    },
                    loss,
                    parameter_indices: indices,
                },
            ),
            calls: self.calls + seq![
                ProblemCall::AddResidualBlock(ResidualBlockId(self.residual_blocks.len() as usize)),
            ] + bound_calls(false, blocks, indices) + bound_calls(true, blocks, indices),
        }
    }
}

/// Non-linear least squares problem.
pub struct NllsProblem<T, C, L> {
    parameter_storage: ParameterBlockStorage<T>,
    residual_blocks: Vec<ResidualBlock<C, L>>,
    calls: Vec<ProblemCall<T>>,
}

impl<T, C, L> View for NllsProblem<T, C, L> {
    type V = NllsProblemView<T, C, L>;

    closed spec fn view(&self) -> NllsProblemView<T, C, L> {
        NllsProblemView {
            blocks: self.parameter_storage@,
            residual_blocks: self.residual_blocks@.map_values(|rb: ResidualBlock<C, L>| rb@),
            calls: self.calls@,
        }
    }
}

/// A problem handed to the native engine for one run, with its options.
pub struct SolveRequest<'a, T, C, L> {
    pub problem: NllsProblem<T, C, L>,
    pub options: &'a SolverOptions,
}

/// Solution of a non-linear least squares problem.
pub struct NllsProblemSolution<T> {
    /// Values of the parameter blocks, in the order they were added.
    pub parameters: Vec<Vec<T>>,
    /// Summary of the solver run.
    pub summary: SolverSummary,
}

impl<T, C, L> NllsProblem<T, C, L> {
    /// A problem with no parameter blocks, no residual blocks and no calls.
    pub fn new() -> (r: Self)
        ensures
            r@ == (NllsProblemView::<T, C, L> {
                blocks: Seq::empty(),
                residual_blocks: Seq::empty(),
                calls: Seq::empty(),
            }),
            r@.wf(),
    {
        let r = NllsProblem {
            parameter_storage: ParameterBlockStorage::new(),
            residual_blocks: Vec::new(),
            calls: Vec::new(),
        };
        assert(r@.residual_blocks =~= Seq::<ResidualBlockView<C, L>>::empty());
        r
    }

    /// Hands the problem to a builder of a new residual block.
    pub fn residual_block_builder(self) -> (r: ResidualBlockBuilder<T, C, L>)
        ensures
            r@ == (ResidualBlockBuilderView::<T, C, L> {
                problem: self@,
                cost: None,
                loss: None,
                parameters: Seq::empty(),
            }),
    {
        ResidualBlockBuilder { problem: self, cost: None, loss: None, parameters: Vec::new() }
    }

    /// The parameter blocks, in the order of their indices.
    pub fn parameter_blocks(&self) -> (r: &[ParameterBlock<T>])
        ensures
            r@.len() == self@.blocks.len(),
            forall|i: int| 0 <= i < r@.len() ==> (#[trigger] r@[i])@ == self@.blocks[i],
    {
        self.parameter_storage.blocks()
    }

    /// The residual blocks, in the order they were added.
    pub fn residual_blocks(&self) -> (r: &[ResidualBlock<C, L>])
        ensures
            r@.len() == self@.residual_blocks.len(),
            forall|i: int| 0 <= i < r@.len() ==> (#[trigger] r@[i])@ == self@.residual_blocks[i],
    {
        self.residual_blocks.as_slice()
    }

    /// The calls that configure the native problem, in order.
    pub fn calls(&self) -> (r: &[ProblemCall<T>])
        ensures
            r@ == self@.calls,
    {
        self.calls.as_slice()
    }

    /// Gives back the parameter storage, the residual blocks and the calls.
    pub fn into_parts(self) -> (r: (ParameterBlockStorage<T>, Vec<ResidualBlock<C, L>>, Vec<ProblemCall<T>>))
        ensures
            r.0@ == self@.blocks,
            r.1@.map_values(|rb: ResidualBlock<C, L>| rb@) == self@.residual_blocks,
            r.2@ == self@.calls,
    {
        (self.parameter_storage, self.residual_blocks, self.calls)
    }

    /// Fixes parameter block `block_index` during the optimization.
    pub fn set_parameter_block_constant(&mut self, block_index: usize) -> (r: Result<
        (),
        ParameterBlockStorageError,
    >)
        ensures
            match r {
                Ok(()) => block_index < old(self)@.blocks.len() && final(self)@ == (NllsProblemView {
                    calls: old(self)@.calls.push(ProblemCall::SetParameterBlockConstant(block_index)),
                    ..old(self)@
                }),
                Err(e) => block_index >= old(self)@.blocks.len() && *final(self) == *old(self)
                    && e == ParameterBlockStorageError::IndexOutOfBounds {
                    index: block_index,
                    len: old(self)@.blocks.len() as usize,
                },
            },
    {
        match self.parameter_storage.get_block(block_index) {
            Ok(_) => {
                self.calls.push(ProblemCall::SetParameterBlockConstant(block_index));
                Ok(())
            },
            Err(e) => Err(e),
        }
    }

    /// Lets parameter block `block_index` vary during the optimization.
    pub fn set_parameter_block_variable(&mut self, block_index: usize) -> (r: Result<
        (),
        ParameterBlockStorageError,
    >)
        ensures
            match r {
                Ok(()) => block_index < old(self)@.blocks.len() && final(self)@ == (NllsProblemView {
                    calls: old(self)@.calls.push(ProblemCall::SetParameterBlockVariable(block_index)),
                    ..old(self)@
                }),
                Err(e) => block_index >= old(self)@.blocks.len() && *final(self) == *old(self)
                    && e == ParameterBlockStorageError::IndexOutOfBounds {
                    index: block_index,
                    len: old(self)@.blocks.len() as usize,
                },
            },
    {
        match self.parameter_storage.get_block(block_index) {
            Ok(_) => {
                self.calls.push(ProblemCall::SetParameterBlockVariable(block_index));
                Ok(())
            },
            Err(e) => Err(e),
        }
    }

    /// Whether parameter block `block_index` is fixed: whether the last call
    /// that fixed or freed it fixed it.
    pub fn is_parameter_block_constant(&self, block_index: usize) -> (r: Result<
        bool,
        ParameterBlockStorageError,
    >)
        ensures
            match r {
                Ok(c) => block_index < self@.blocks.len() && c == is_constant_after(
                    self@.calls,
                    block_index,
                ),
                Err(e) => block_index >= self@.blocks.len()
                    && e == ParameterBlockStorageError::IndexOutOfBounds {
                    index: block_index,
                    len: self@.blocks.len() as usize,
                },
            },
    {
        match self.parameter_storage.get_block(block_index) {
            Ok(_) => {
                let mut i: usize = self.calls.len();
                assert(self.calls@.take(i as int) =~= self.calls@);
                while i > 0
                    invariant
                        block_index < self@.blocks.len(),
                        i <= self.calls@.len(),
                        is_constant_after(self.calls@, block_index) == is_constant_after(
                            self.calls@.take(i as int),
                            block_index,
                        ),
                    decreases i,
                {
                    assert(self.calls@.take(i as int).drop_last() =~= self.calls@.take(i - 1));
                    assert(self.calls@.take(i as int).last() == self.calls@[i - 1]);
                    match self.calls[i - 1] {
                        ProblemCall::SetParameterBlockConstant(b) => {
                            if b == block_index {
                                return Ok(true);
                            }
                        },
                        ProblemCall::SetParameterBlockVariable(b) => {
                            if b == block_index {
                                return Ok(false);
                            }
                        },
                        _ => {},
                    }
                    i -= 1;
                }
                Ok(false)
            },
            Err(e) => Err(e),
        }
    }

    /// Solves the problem: hands it, with `options`, to the native engine,
    /// or fails when it holds no residual block.
    pub fn solve(self, options: &SolverOptions) -> (r: Result<SolveRequest<'_, T, C, L>, NllsProblemError>)
        ensures
            r is Err <==> self@.residual_blocks.len() == 0,
            match r {
                Ok(request) => request.problem@ == self@ && request.options == options,
                Err(e) => e == NllsProblemError::NoResidualBlocks,
            },
    {
        if self.residual_blocks.len() == 0 {
            return Err(NllsProblemError::NoResidualBlocks);
        }
        Ok(SolveRequest { problem: self, options })
    }
}

impl<T, C, L> Default for NllsProblem<T, C, L> {
    fn default() -> (r: Self)
        ensures
            r@.blocks.len() == 0,
            r@.residual_blocks.len() == 0,
            r@.calls.len() == 0,
    {
        Self::new()
    }
}

/// What a residual block builder holds.
pub struct ResidualBlockBuilderView<T, C, L> {
    pub problem: NllsProblemView<T, C, L>,
    pub cost: Option<(C, usize)>,
    pub loss: Option<L>,
    pub parameters: Seq<ParameterBlockOrIndex<T>>,
}

/// Builder of a new residual block. It holds the problem and gives it back
/// from [ResidualBlockBuilder::build_into_problem].
pub struct ResidualBlockBuilder<T, C, L> {
    problem: NllsProblem<T, C, L>,
    cost: Option<(C, usize)>,
    loss: Option<L>,
    parameters: Vec<ParameterBlockOrIndex<T>>,
}

impl<T, C, L> View for ResidualBlockBuilder<T, C, L> {
    type V = ResidualBlockBuilderView<T, C, L>;

    closed spec fn view(&self) -> ResidualBlockBuilderView<T, C, L> {
        ResidualBlockBuilderView {
            problem: self.problem@,
            cost: self.cost,
            loss: self.loss,
            parameters: self.parameters@,
        }
    }
}

impl<T, C, L> ResidualBlockBuilder<T, C, L> {
    /// Sets the cost function and its number of residuals.
    pub fn set_cost(self, func: C, num_residuals: usize) -> (r: Self)
        ensures
            r@ == (ResidualBlockBuilderView { cost: Some((func, num_residuals)), ..self@ }),
    {
        let mut s = self;
        s.cost = Some((func, num_residuals));
        s
    }

    /// Sets the loss function.
    pub fn set_loss(self, loss: L) -> (r: Self)
        ensures
            r@ == (ResidualBlockBuilderView { loss: Some(loss), ..self@ }),
    {
        let mut s = self;
        s.loss = Some(loss);
        s
    }

    /// Sets the parameters: each a new block or the index of a stored one.
    pub fn set_parameters(self, parameters: Vec<ParameterBlockOrIndex<T>>) -> (r: Self)
        ensures
            r@ == (ResidualBlockBuilderView { parameters: parameters@, ..self@ }),
    {
        let mut s = self;
        s.parameters = parameters;
        s
    }

    /// Adds one parameter: a new block or the index of a stored one.
    pub fn add_parameter(self, parameter_block: ParameterBlockOrIndex<T>) -> (r: Self)
        ensures
            r@ == (ResidualBlockBuilderView { parameters: self@.parameters.push(parameter_block), ..self@ }),
    {
        let mut s = self;
        s.parameters.push(parameter_block);
        s
    }
}

impl<T: Copy, C, L> ResidualBlockBuilder<T, C, L> {
    /// Builds the residual block into the problem and gives the problem back
    /// with the block's id. Fails, in this order, when no cost function is
    /// set, when no parameter is set, or at the first parameter index that
    /// names no block stored by then.
    pub fn build_into_problem(self) -> (r: Result<
        (NllsProblem<T, C, L>, ResidualBlockId),
        ResidualBlockBuildingError,
    >)
        requires
            self@.problem.wf(),
            items_wf(self@.parameters),
        ensures
            self@.cost is None ==> r matches Err(ResidualBlockBuildingError::MissingCost),
            self@.cost is Some && self@.parameters.len() == 0 ==> r matches Err(
                ResidualBlockBuildingError::MissingParameters,
            ),
            self@.parameters.len() > 0 ==> match self@.cost {
                None => true,
                Some((func, num_residuals)) => {
                let len = self@.problem.blocks.len();
                let items = self@.parameters;
                match r {
                    Ok((problem, id)) => {
                        &&& all_resolve(len, items)
                        &&& problem@ == self@.problem.with_residual_block(
                            func,
                            num_residuals,
                            self@.loss,
                            items,
                        )
                        &&& problem@.wf()
                        &&& id == ResidualBlockId(self@.problem.residual_blocks.len() as usize)
                    },
                    Err(
                        ResidualBlockBuildingError::ParameterBlockStorageError(
                            ParameterBlockStorageError::IndexOutOfBounds { index, len: at_len },
                        ),
                    ) => {
                        let i = first_unresolved(len, items);
                        &&& !all_resolve(len, items)
                        &&& is_first_unresolved(len, items, i)
                        &&& items[i] == ParameterBlockOrIndex::<T>::Index(index)
                        &&& at_len == len_before(len, items, i)
                    },
                    _ => false,
                }
            }},
    {
        let ResidualBlockBuilder { problem, cost, loss, parameters } = self;
        let (func, num_residuals) = match cost {
            Some(c) => c,
            None => return Err(ResidualBlockBuildingError::MissingCost),
        };
        if parameters.len() == 0 {
            return Err(ResidualBlockBuildingError::MissingParameters);
        }
        let NllsProblem { mut parameter_storage, mut residual_blocks, mut calls } = problem;
        let ghost items = parameters@;
        let ghost old_blocks = parameter_storage@;
        let ghost len = old_blocks.len();
        proof {
            assert(self@.problem.blocks == parameter_storage@);
            assert forall|i: int| 0 <= i < parameter_storage@.len() implies (#[trigger] parameter_storage@[i]).wf() by {
                assert(self@.problem.blocks[i].wf());
            }
        }
        let indices = match parameter_storage.extend(parameters) {
            Ok(ix) => ix,
            Err(e) => {
                proof {
                    let ParameterBlockStorageError::IndexOutOfBounds { index, len: at_len } = e;
                    assert(!all_resolve(len, items));
                }
                return Err(ResidualBlockBuildingError::ParameterBlockStorageError(e));
            },
        };
        let ghost blocks = parameter_storage@;
        assert(indices@ =~= resolved_indices(len, items));
        proof {
            assert forall|k: int| 0 <= k < indices@.len() implies #[trigger] indices@[k] < blocks.len() by {
                lemma_resolved_in_range(len, items, k);
            }
        }
        let sizes = block_sizes_of(&parameter_storage, &indices);
        let id = ResidualBlockId(residual_blocks.len());
        let ghost calls_before = calls@;
        calls.push(ProblemCall::AddResidualBlock(id));
        push_bound_calls(&mut calls, &parameter_storage, &indices, false);
        push_bound_calls(&mut calls, &parameter_storage, &indices, true);
        let ghost rbs_before = residual_blocks@;
        let cost_function = CostFunction::new(func, sizes, num_residuals);
        residual_blocks.push(ResidualBlock::new(cost_function, loss, indices));
        let problem = NllsProblem { parameter_storage, residual_blocks, calls };
        proof {
            assert(problem@.residual_blocks =~= rbs_before.map_values(|rb: ResidualBlock<C, L>| rb@).push(
                problem@.residual_blocks.last(),
            ));
            assert(problem@.calls =~= calls_before + seq![ProblemCall::AddResidualBlock(id)]
                + bound_calls(false, blocks, indices@) + bound_calls(true, blocks, indices@));
            let expected = self@.problem.with_residual_block(func, num_residuals, self@.loss, items);
            assert(problem@.residual_blocks =~= expected.residual_blocks);
            assert(problem@ == expected);
            assert forall|r: int| 0 <= r < problem@.residual_blocks.len() implies {
                let rb = #[trigger] problem@.residual_blocks[r];
                &&& rb.parameter_indices.len() > 0
                &&& forall|k: int|
                    0 <= k < rb.parameter_indices.len() ==> #[trigger] rb.parameter_indices[k]
                        < problem@.blocks.len()
                &&& rb.cost.parameter_sizes == block_sizes(problem@.blocks, rb.parameter_indices)
            } by {
                if r < rbs_before.len() {
                    let rb = problem@.residual_blocks[r];
                    assert(rb == self@.problem.residual_blocks[r]);
                    assert(block_sizes(problem@.blocks, rb.parameter_indices) =~= block_sizes(
                        self@.problem.blocks,
                        rb.parameter_indices,
                    ));
                }
            }
        }
        Ok((problem, id))
    }
}

/// A parameter given by index adds no block: when a second residual block
/// names, by index, a block that a first one took, both residual blocks read
/// that one stored block, and the storage grows only by the new blocks.
pub proof fn lemma_shared_parameter_block<T, C, L>(
    p: NllsProblemView<T, C, L>,
    func1: C,
    num_residuals1: usize,
    loss1: Option<L>,
    items1: Seq<ParameterBlockOrIndex<T>>,
    i: int,
    func2: C,
    num_residuals2: usize,
    loss2: Option<L>,
    items2: Seq<ParameterBlockOrIndex<T>>,
    j: int,
)
    requires
        0 <= i < items1.len(),
        0 <= j < items2.len(),
        items2[j] == ParameterBlockOrIndex::<T>::Index(
            resolved_indices(p.blocks.len(), items1)[i],
        ),
    ensures
        ({
            let q = p.with_residual_block(func1, num_residuals1, loss1, items1);
            let r = q.with_residual_block(func2, num_residuals2, loss2, items2);
            &&& r.residual_blocks[r.residual_blocks.len() - 2].parameter_indices[i]
                == r.residual_blocks[r.residual_blocks.len() - 1].parameter_indices[j]
            &&& r.blocks.len() == p.blocks.len() + new_blocks(items1).len() + new_blocks(
                items2,
            ).len()
        }),
{
    let q = p.with_residual_block(func1, num_residuals1, loss1, items1);
    let r = q.with_residual_block(func2, num_residuals2, loss2, items2);
    assert(r.residual_blocks[r.residual_blocks.len() - 2] == q.residual_blocks[q.residual_blocks.len() - 1]);
}

proof fn lemma_resolved_in_range<T>(len: nat, items: Seq<ParameterBlockOrIndex<T>>, k: int)
    requires
        all_resolve(len, items),
        0 <= k < items.len(),
    ensures
        resolved_index(len, items, k) < len + new_blocks(items).len(),
        resolved_index(len, items, k) >= 0,
{
    assert(item_resolves(len, items, k));
    lemma_new_blocks_prefix_len(items, k);
    lemma_new_blocks_prefix_len(items, k + 1);
    lemma_new_blocks_step(items, k);
}

proof fn lemma_new_blocks_prefix_len<T>(items: Seq<ParameterBlockOrIndex<T>>, i: int)
    requires
        0 <= i <= items.len(),
    ensures
        new_blocks(items.take(i)).len() <= new_blocks(items).len(),
    decreases items.len() - i,
{
    if i < items.len() {
        lemma_new_blocks_prefix_len(items, i + 1);
        lemma_new_blocks_step(items, i);
    } else {
        assert(items.take(i) =~= items);
    }
}

/// The sizes of the stored blocks at `indices`.
fn block_sizes_of<T>(storage: &ParameterBlockStorage<T>, indices: &Vec<usize>) -> (r: Vec<usize>)
    requires
        forall|k: int| 0 <= k < indices@.len() ==> #[trigger] indices@[k] < storage@.len(),
    ensures
        r@ == block_sizes(storage@, indices@),
{
    let blocks = storage.blocks();
    let mut sizes: Vec<usize> = Vec::new();
    let mut k: usize = 0;
    while k < indices.len()
        invariant
            forall|a: int| 0 <= a < indices@.len() ==> #[trigger] indices@[a] < storage@.len(),
            blocks@.len() == storage@.len(),
            forall|a: int| 0 <= a < blocks@.len() ==> (#[trigger] blocks@[a])@ == storage@[a],
            k <= indices@.len(),
            sizes@ == block_sizes(storage@, indices@.take(k as int)),
        decreases indices@.len() - k,
    {
        let n = blocks[indices[k]].len();
        sizes.push(n);
        k += 1;
        assert(sizes@ =~= block_sizes(storage@, indices@.take(k as int)));
    }
    assert(indices@.take(k as int) =~= indices@);
    sizes
}

/// Appends the bound calls for the blocks at `indices`.
fn push_bound_calls<T: Copy>(
    calls: &mut Vec<ProblemCall<T>>,
    storage: &ParameterBlockStorage<T>,
    indices: &Vec<usize>,
    upper: bool,
)
    requires
        storage.wf(),
        forall|k: int| 0 <= k < indices@.len() ==> #[trigger] indices@[k] < storage@.len(),
    ensures
        final(calls)@ == old(calls)@ + bound_calls(upper, storage@, indices@),
{
    let blocks = storage.blocks();
    let ghost start = calls@;
    let mut k: usize = 0;
    while k < indices.len()
        invariant
            forall|a: int| 0 <= a < indices@.len() ==> #[trigger] indices@[a] < storage@.len(),
            blocks@.len() == storage@.len(),
            forall|a: int| 0 <= a < blocks@.len() ==> (#[trigger] blocks@[a])@ == storage@[a],
            k <= indices@.len(),
            calls@ == start + bound_calls(upper, storage@, indices@.take(k as int)),
        decreases indices@.len() - k,
    {
        let index = indices[k];
        let block = &blocks[index];
        let bounds = if upper {
            block.upper_bounds()
        } else {
            block.lower_bounds()
        };
        let ghost mid = calls@;
        assert(indices@.take(k + 1).drop_last() =~= indices@.take(k as int));
        match bounds {
            None => {
                assert(block_bound_calls(upper, index, storage@[index as int].bounds(upper)) =~= Seq::<ProblemCall<T>>::empty());
            },
            Some(b) => {
                let mut c: usize = 0;
                while c < b.len()
                    invariant
                        c <= b@.len(),
                        calls@ == mid + block_bound_calls(upper, index, b@.take(c as int)),
                    decreases b@.len() - c,
                {
                    assert(b@.take(c + 1).drop_last() =~= b@.take(c as int));
                    match b[c] {
                        Some(v) => {
                            if upper {
                                calls.push(ProblemCall::SetParameterUpperBound { block: index, component: c, value: v });
                            } else {
                                calls.push(ProblemCall::SetParameterLowerBound { block: index, component: c, value: v });
                            }
                        },
                        None => {},
                    }
                    c += 1;
                    assert(calls@ =~= mid + block_bound_calls(upper, index, b@.take(c as int)));
                }
                assert(b@.take(c as int) =~= b@);
            },
        }
        k += 1;
        assert(calls@ =~= start + bound_calls(upper, storage@, indices@.take(k as int)));
    }
    assert(indices@.take(k as int) =~= indices@);
}

} // verus!
