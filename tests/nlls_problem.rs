use ceres_solver::error::{NllsProblemError, ParameterBlockStorageError, ResidualBlockBuildingError};
use ceres_solver::loss::LossFunction;
use ceres_solver::nlls_problem::{NllsProblem, ProblemCall};
use ceres_solver::parameter_block::{ParameterBlock, ParameterBlockOrIndex};
use ceres_solver::residual_block::ResidualBlockId;
use ceres_solver::solver::SolverOptions;

type Jacobians<'a> = Option<&'a mut [Option<&'a mut [&'a mut [f64]]>]>;
type Cost = Box<dyn Fn(&[&[f64]], &mut [f64], Jacobians<'_>) -> bool>;
type Loss = LossFunction<f64, Box<dyn Fn(f64, &mut [f64; 3])>>;
type Problem = NllsProblem<f64, Cost, Loss>;

fn cost() -> Cost {
    Box::new(|parameters: &[&[f64]], residuals: &mut [f64], _jacobians: Jacobians<'_>| {
        residuals[0] = parameters[0][0] - 2.0;
        true
    })
}

fn block(values: Vec<f64>) -> ParameterBlockOrIndex<f64> {
    ParameterBlockOrIndex::Block(ParameterBlock::new(values))
}

#[test]
fn build_without_cost_fails_with_missing_cost() {
    let err = Problem::new()
        .residual_block_builder()
        .set_parameters(vec![block(vec![0.0])])
        .build_into_problem()
        .err()
        .unwrap();
    assert_eq!(err, ResidualBlockBuildingError::MissingCost);
}

#[test]
fn build_without_parameters_fails_with_missing_parameters() {
    let err = Problem::new()
        .residual_block_builder()
        .set_cost(cost(), 1)
        .build_into_problem()
        .err()
        .unwrap();
    assert_eq!(err, ResidualBlockBuildingError::MissingParameters);
}

#[test]
fn missing_cost_is_reported_before_missing_parameters() {
    let err = Problem::new()
        .residual_block_builder()
        .build_into_problem()
        .err()
        .unwrap();
    assert_eq!(err, ResidualBlockBuildingError::MissingCost);
}

#[test]
fn build_rejects_index_of_unregistered_block() {
    let err = Problem::new()
        .residual_block_builder()
        .set_cost(cost(), 1)
        .set_parameters(vec![block(vec![0.0]), ParameterBlockOrIndex::Index(1)])
        .build_into_problem()
        .err()
        .unwrap();
    assert_eq!(
        err,
        ResidualBlockBuildingError::ParameterBlockStorageError(
            ParameterBlockStorageError::IndexOutOfBounds { index: 1, len: 1 }
        )
    );
}

#[test]
fn build_records_block_and_bounds() {
    let mut b = ParameterBlock::new(vec![3.0]);
    b.with_lower_bounds(vec![Some(0.0)]).with_upper_bounds(vec![Some(3.0)]);
    let (problem, id) = Problem::new()
        .residual_block_builder()
        .set_cost(cost(), 1)
        .add_parameter(ParameterBlockOrIndex::Block(b))
        .build_into_problem()
        .ok()
        .unwrap();
    assert_eq!(id, ResidualBlockId(0));
    assert_eq!(
        problem.calls(),
        &[
            ProblemCall::AddResidualBlock(ResidualBlockId(0)),
            ProblemCall::SetParameterLowerBound { block: 0, component: 0, value: 0.0 },
            ProblemCall::SetParameterUpperBound { block: 0, component: 0, value: 3.0 },
        ]
    );
    assert_eq!(problem.residual_blocks().len(), 1);
    assert_eq!(problem.residual_blocks()[0].parameter_indices(), &[0]);
    assert_eq!(problem.residual_blocks()[0].cost().num_residuals(), 1);
}

#[test]
fn unbounded_block_records_no_bound_calls() {
    let (problem, _) = Problem::new()
        .residual_block_builder()
        .set_cost(cost(), 1)
        .set_parameters(vec![block(vec![0.0, 1.0])])
        .build_into_problem()
        .ok()
        .unwrap();
    assert_eq!(problem.calls(), &[ProblemCall::AddResidualBlock(ResidualBlockId(0))]);
}

#[test]
fn declared_sizes_match_block_sizes() {
    for _ in 0..2 {
        let (problem, _) = Problem::new()
            .residual_block_builder()
            .set_cost(cost(), 3)
            .set_parameters(vec![block(vec![0.0, 1.0]), block(vec![2.0])])
            .build_into_problem()
            .ok()
            .unwrap();
        let rb = &problem.residual_blocks()[0];
        assert_eq!(rb.cost().parameter_sizes(), &[2, 1]);
        assert_eq!(rb.parameter_indices(), &[0, 1]);
    }
}

#[test]
fn shared_parameter_block_is_stored_once() {
    let mut shared = ParameterBlock::new(vec![1.0]);
    shared.with_lower_bounds(vec![Some(-1.0)]);
    let (problem, first) = Problem::new()
        .residual_block_builder()
        .set_cost(cost(), 1)
        .set_parameters(vec![ParameterBlockOrIndex::Block(shared)])
        .build_into_problem()
        .ok()
        .unwrap();
    let (problem, second) = problem
        .residual_block_builder()
        .set_cost(cost(), 1)
        .set_loss(Loss::cauchy(5.0))
        .set_parameters(vec![ParameterBlockOrIndex::Index(0), block(vec![4.0])])
        .build_into_problem()
        .ok()
        .unwrap();
    assert_eq!(first, ResidualBlockId(0));
    assert_eq!(second, ResidualBlockId(1));
    assert_eq!(problem.parameter_blocks().len(), 2);
    assert_eq!(problem.residual_blocks()[0].parameter_indices(), &[0]);
    assert_eq!(problem.residual_blocks()[1].parameter_indices(), &[0, 1]);
    // the bound of the shared block is recorded for both residual blocks
    assert_eq!(
        problem.calls(),
        &[
            ProblemCall::AddResidualBlock(ResidualBlockId(0)),
            ProblemCall::SetParameterLowerBound { block: 0, component: 0, value: -1.0 },
            ProblemCall::AddResidualBlock(ResidualBlockId(1)),
            ProblemCall::SetParameterLowerBound { block: 0, component: 0, value: -1.0 },
        ]
    );
}

#[test]
fn constancy_follows_the_last_call() {
    let (mut problem, _) = Problem::new()
        .residual_block_builder()
        .set_cost(cost(), 1)
        .set_parameters(vec![block(vec![0.0]), block(vec![1.0])])
        .build_into_problem()
        .ok()
        .unwrap();
    assert_eq!(problem.is_parameter_block_constant(1), Ok(false));
    problem.set_parameter_block_constant(1).unwrap();
    assert_eq!(problem.is_parameter_block_constant(1), Ok(true));
    assert_eq!(problem.is_parameter_block_constant(0), Ok(false));
    problem.set_parameter_block_variable(1).unwrap();
    assert_eq!(problem.is_parameter_block_constant(1), Ok(false));
    let err = ParameterBlockStorageError::IndexOutOfBounds { index: 2, len: 2 };
    assert_eq!(problem.set_parameter_block_constant(2), Err(err));
    assert_eq!(problem.set_parameter_block_variable(2), Err(err));
    assert_eq!(problem.is_parameter_block_constant(2), Err(err));
}

#[test]
fn solve_without_residual_blocks_fails() {
    let options = SolverOptions::default();
    let result = Problem::new().solve(&options);
    assert!(matches!(result, Err(NllsProblemError::NoResidualBlocks)));
}

#[test]
fn solve_hands_over_the_problem() {
    let options = SolverOptions::default();
    let (problem, _) = Problem::new()
        .residual_block_builder()
        .set_cost(cost(), 1)
        .set_parameters(vec![block(vec![0.0])])
        .build_into_problem()
        .ok()
        .unwrap();
    let request = problem.solve(&options).ok().unwrap();
    assert!(std::ptr::eq(request.options, &options));
    let (storage, residual_blocks, calls) = request.problem.into_parts();
    assert_eq!(residual_blocks.len(), 1);
    assert_eq!(calls.len(), 1);
    assert_eq!(storage.to_values(), vec![vec![0.0]]);
}
