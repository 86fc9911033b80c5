use ceres_solver::error::SolverOptionsBuildingError;
use ceres_solver::residual_block::ResidualBlockId;
use ceres_solver::solver::{
    LinearSolverType, LoggingType, MinimizerType, SolverOptions, SolverOptionsBuilder,
    SolverSummary,
};

#[test]
fn builder_silences_logging_and_leaves_the_rest_to_the_engine() {
    let builder = SolverOptions::builder();
    let s = builder.settings();
    assert_eq!(s.logging_type, Some(LoggingType::SILENT));
    assert_eq!(s.max_num_iterations, None);
    assert_eq!(s.minimizer_type, None);
    assert_eq!(s.residual_blocks_for_subset_preconditioner, None);
}

#[test]
fn setters_record_their_setting_only() {
    let builder = SolverOptionsBuilder::new()
        .max_num_iterations(100)
        .minimizer_type(MinimizerType::TRUST_REGION)
        .linear_solver_type(LinearSolverType::DENSE_QR)
        .num_threads(4)
        .residual_blocks_for_subset_preconditioner(&[ResidualBlockId(0), ResidualBlockId(2)])
        .trust_region_minimizer_iterations_to_dump(&[1, 5])
        .logging_type(LoggingType::PER_MINIMIZER_ITERATION);
    let s = builder.settings();
    assert_eq!(s.max_num_iterations, Some(100));
    assert_eq!(s.minimizer_type, Some(MinimizerType::TRUST_REGION));
    assert_eq!(s.linear_solver_type, Some(LinearSolverType::DENSE_QR));
    assert_eq!(s.num_threads, Some(4));
    assert_eq!(
        s.residual_blocks_for_subset_preconditioner,
        Some(vec![ResidualBlockId(0), ResidualBlockId(2)])
    );
    assert_eq!(s.trust_region_minimizer_iterations_to_dump, Some(vec![1, 5]));
    assert_eq!(s.logging_type, Some(LoggingType::PER_MINIMIZER_ITERATION));
    assert_eq!(s.check_gradients, None);
}

#[test]
fn build_follows_the_native_verdict() {
    let builder = SolverOptionsBuilder::new().max_num_iterations(-1);
    assert!(!builder.is_valid(Err("max_num_iterations is negative".to_string())));
    assert!(builder.is_valid(Ok(())));
    match builder.build(Err("max_num_iterations is negative".to_string())) {
        Err(SolverOptionsBuildingError::Invalid(msg)) => {
            assert_eq!(msg, "max_num_iterations is negative")
        }
        Ok(_) => panic!("expected an error"),
    }
    let options = SolverOptionsBuilder::new()
        .max_num_iterations(10)
        .build(Ok(()))
        .ok()
        .unwrap();
    assert_eq!(options.settings().max_num_iterations, Some(10));
}

#[test]
fn default_options_use_initial_settings() {
    let options = SolverOptions::default();
    assert_eq!(options.settings().logging_type, Some(LoggingType::SILENT));
    assert_eq!(options.settings().num_threads, None);
}

#[test]
fn summary_reports_what_it_was_given() {
    let empty = SolverSummary::new();
    assert!(!empty.is_solution_usable());
    assert_eq!(empty.brief_report(), "");
    let summary = SolverSummary::from_report(
        "brief".to_string(),
        "full".to_string(),
        true,
        7,
        2,
        0,
        3,
    );
    assert_eq!(summary.brief_report(), "brief");
    assert_eq!(summary.full_report(), "full");
    assert!(summary.is_solution_usable());
    assert_eq!(summary.num_successful_steps(), 7);
    assert_eq!(summary.num_unsuccessful_steps(), 2);
    assert_eq!(summary.num_inner_iteration_steps(), 0);
    assert_eq!(summary.num_line_search_steps(), 3);
}
