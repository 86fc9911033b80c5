use ceres_solver::curve_fit::{CurveFitProblem1D, CurveFitProblemSolution};
use ceres_solver::error::{CurveFitProblemBuildError, ParameterBlockStorageError};
use ceres_solver::loss::LossFunction;
use ceres_solver::nlls_problem::{NllsProblemSolution, ProblemCall};
use ceres_solver::residual_block::ResidualBlockId;
use ceres_solver::solver::{SolverOptions, SolverSummary};

type Model = fn(f64, &[f64], &mut f64, Option<&mut [Option<f64>]>) -> bool;
type Loss = LossFunction<f64, fn(f64, &mut [f64; 3])>;
type Fit = CurveFitProblem1D<f64, Model, Loss>;

fn line(x: f64, parameters: &[f64], y: &mut f64, jacobians: Option<&mut [Option<f64>]>) -> bool {
    *y = parameters[0] * x + parameters[1];
    if let Some(jacobians) = jacobians {
        if let Some(d) = jacobians[0].as_mut() {
            *d = x;
        }
        if let Some(d) = jacobians[1].as_mut() {
            *d = 1.0;
        }
    }
    true
}

fn model() -> Model {
    line
}

fn build_error(builder: ceres_solver::curve_fit::CurveFitProblem1DBuilder<f64, Model, Loss>) -> CurveFitProblemBuildError {
    match builder.build() {
        Ok(_) => panic!("expected an error"),
        Err(e) => e,
    }
}

#[test]
fn build_checks_mandatory_fields_in_order() {
    assert_eq!(build_error(Fit::builder()), CurveFitProblemBuildError::FuncMissed);
    assert_eq!(build_error(Fit::builder().func(model())), CurveFitProblemBuildError::XMissed);
    assert_eq!(
        build_error(Fit::builder().func(model()).x(vec![0.0])),
        CurveFitProblemBuildError::YMissed
    );
    assert_eq!(
        build_error(Fit::builder().func(model()).x(vec![0.0]).y(vec![1.0])),
        CurveFitProblemBuildError::ParametersMissed
    );
}

#[test]
fn build_checks_data_sizes() {
    assert_eq!(
        build_error(Fit::builder().func(model()).x(vec![0.0, 1.0]).y(vec![1.0]).parameters(&[1.0, 0.0])),
        CurveFitProblemBuildError::DataSizesDontMatch
    );
    assert_eq!(
        build_error(
            Fit::builder()
                .func(model())
                .x(vec![0.0, 1.0])
                .y(vec![1.0, 2.0])
                .inverse_error(vec![1.0])
                .parameters(&[1.0, 0.0])
        ),
        CurveFitProblemBuildError::DataSizesDontMatch
    );
}

#[test]
fn build_checks_bound_sizes() {
    let base = || Fit::builder().func(model()).x(vec![0.0, 1.0]).y(vec![1.0, 3.0]).parameters(&[1.0, 0.0]);
    assert_eq!(
        build_error(base().lower_bounds(vec![Some(0.0)])),
        CurveFitProblemBuildError::LowerBoundarySizeMismatch
    );
    assert_eq!(
        build_error(base().upper_bounds(vec![Some(0.0), None, None])),
        CurveFitProblemBuildError::UpperBoundarySizeMismatch
    );
}

#[test]
fn build_checks_constant_indices() {
    let err = build_error(
        Fit::builder()
            .func(model())
            .x(vec![0.0, 1.0])
            .y(vec![1.0, 3.0])
            .parameters(&[1.0, 0.0])
            .constant(vec![1, 5, 7]),
    );
    assert_eq!(
        err,
        CurveFitProblemBuildError::ParameterBlockStorageError(
            ParameterBlockStorageError::IndexOutOfBounds { index: 5, len: 2 }
        )
    );
}

#[test]
fn build_makes_one_block_per_parameter() {
    let fit = Fit::builder()
        .func(model())
        .x(vec![0.0, 1.0, 2.0])
        .y(vec![1.0, 3.0, 5.0])
        .parameters(&[1.0, 0.0])
        .lower_bounds(vec![None, Some(-1.0)])
        .upper_bounds(vec![Some(10.0), None])
        .constant(vec![1])
        .loss(Loss::cauchy(5.0))
        .build()
        .ok()
        .unwrap();
    let problem = fit.problem();
    assert_eq!(problem.parameter_blocks().len(), 2);
    assert_eq!(problem.parameter_blocks()[0].values(), &[1.0]);
    assert_eq!(problem.parameter_blocks()[1].values(), &[0.0]);
    let rb = &problem.residual_blocks()[0];
    assert_eq!(rb.parameter_indices(), &[0, 1]);
    assert_eq!(rb.cost().parameter_sizes(), &[1, 1]);
    assert_eq!(rb.cost().num_residuals(), 3);
    assert_eq!(
        problem.calls(),
        &[
            ProblemCall::AddResidualBlock(ResidualBlockId(0)),
            ProblemCall::SetParameterLowerBound { block: 1, component: 0, value: -1.0 },
            ProblemCall::SetParameterUpperBound { block: 0, component: 0, value: 10.0 },
            ProblemCall::SetParameterBlockConstant(1),
        ]
    );
    assert_eq!(problem.is_parameter_block_constant(1), Ok(true));
}

#[test]
fn new_matches_the_builder() {
    let x = vec![0.0, 1.0];
    let y = vec![1.0, 3.0];
    let fit = Fit::new(model(), x.clone(), y.clone(), &[1.0, 0.0]);
    let built = Fit::builder().func(model()).x(x).y(y).parameters(&[1.0, 0.0]).build().ok().unwrap();
    assert_eq!(fit.problem().calls(), built.problem().calls());
    assert_eq!(fit.problem().parameter_blocks().len(), built.problem().parameter_blocks().len());
    let options = SolverOptions::default();
    let request = fit.solve(&options);
    assert_eq!(request.problem.residual_blocks().len(), 1);
}

#[test]
fn solution_takes_one_value_per_block() {
    let solution = NllsProblemSolution {
        parameters: vec![vec![0.3], vec![0.1]],
        summary: SolverSummary::new(),
    };
    let fit = CurveFitProblemSolution::from_nlls(solution);
    assert_eq!(fit.parameters, vec![0.3, 0.1]);
}
