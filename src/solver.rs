//! Solver configuration and report.
//!
//! The options are recorded as overrides: a setting that was never set is
//! `None` and keeps the native engine's own default. The native engine
//! validates the options and fills the summary; the results of both are
//! handed to this module as plain values.

use crate::error::SolverOptionsBuildingError;
use crate::residual_block::ResidualBlockId;
use vstd::prelude::*;

verus! {
#[allow(non_camel_case_types)]
#[derive(Debug, Clone, Copy, PartialEq, Eq, Structural)]
pub enum MinimizerType {
    LINE_SEARCH,
    TRUST_REGION,
}
#[allow(non_camel_case_types)]
#[derive(Debug, Clone, Copy, PartialEq, Eq, Structural)]
pub enum LineSearchDirectionType {
    STEEPEST_DESCENT,
    NONLINEAR_CONJUGATE_GRADIENT,
    LBFGS,
    BFGS,
}
#[allow(non_camel_case_types)]
#[derive(Debug, Clone, Copy, PartialEq, Eq, Structural)]
pub enum LineSearchType {
    ARMIJO,
    WOLFE,
}
#[allow(non_camel_case_types)]
#[derive(Debug, Clone, Copy, PartialEq, Eq, Structural)]
pub enum NonlinearConjugateGradientType {
    FLETCHER_REEVES,
    POLAK_RIBIERE,
    HESTENES_STIEFEL,
}
#[allow(non_camel_case_types)]
#[derive(Debug, Clone, Copy, PartialEq, Eq, Structural)]
pub enum LineSearchInterpolationType {
    BISECTION,
    QUADRATIC,
    CUBIC,
}
#[allow(non_camel_case_types)]
#[derive(Debug, Clone, Copy, PartialEq, Eq, Structural)]
pub enum TrustRegionStrategyType {
    LEVENBERG_MARQUARDT,
    DOGLEG,
}
#[allow(non_camel_case_types)]
#[derive(Debug, Clone, Copy, PartialEq, Eq, Structural)]
pub enum DoglegType {
    TRADITIONAL_DOGLEG,
    SUBSPACE_DOGLEG,
}
#[allow(non_camel_case_types)]
#[derive(Debug, Clone, Copy, PartialEq, Eq, Structural)]
pub enum LinearSolverType {
    DENSE_NORMAL_CHOLESKY,
    DENSE_QR,
    SPARSE_NORMAL_CHOLESKY,
    DENSE_SCHUR,
    SPARSE_SCHUR,
    ITERATIVE_SCHUR,
    CGNR,
}
#[allow(non_camel_case_types)]
#[derive(Debug, Clone, Copy, PartialEq, Eq, Structural)]
pub enum PreconditionerType {
    IDENTITY,
    JACOBI,
    SCHUR_JACOBI,
    SCHUR_POWER_SERIES_EXPANSION,
    CLUSTER_JACOBI,
    CLUSTER_TRIDIAGONAL,
    SUBSET,
}
#[allow(non_camel_case_types)]
#[derive(Debug, Clone, Copy, PartialEq, Eq, Structural)]
pub enum VisibilityClusteringType {
    CANONICAL_VIEWS,
    SINGLE_LINKAGE,
}
#[allow(non_camel_case_types)]
#[derive(Debug, Clone, Copy, PartialEq, Eq, Structural)]
pub enum DenseLinearAlgebraLibraryType {
    EIGEN,
    LAPACK,
    CUDA,
}
#[allow(non_camel_case_types)]
#[derive(Debug, Clone, Copy, PartialEq, Eq, Structural)]
pub enum SparseLinearAlgebraLibraryType {
    SUITE_SPARSE,
    EIGEN_SPARSE,
    ACCELERATE_SPARSE,
    CUDA_SPARSE,
    NO_SPARSE,
}
#[allow(non_camel_case_types)]
#[derive(Debug, Clone, Copy, PartialEq, Eq, Structural)]
pub enum LoggingType {
    SILENT,
    PER_MINIMIZER_ITERATION,
}
#[allow(non_camel_case_types)]
#[derive(Debug, Clone, Copy, PartialEq, Eq, Structural)]
pub enum DumpFormatType {
    CONSOLE,
    TEXTFILE,
}
/// The settings of a solver run; `None` leaves the native default.
pub struct SolverSettings {
    pub minimizer_type: Option<MinimizerType>,
    pub line_search_direction_type: Option<LineSearchDirectionType>,
    pub line_search_type: Option<LineSearchType>,
    pub nonlinear_conjugate_gradient_type: Option<NonlinearConjugateGradientType>,
    pub max_lbfgs_rank: Option<i32>,
    pub use_approximate_eigenvalue_bfgs_scaling: Option<bool>,
    pub line_search_interpolation_type: Option<LineSearchInterpolationType>,
    pub max_num_line_search_direction_restarts: Option<i32>,
    pub trust_region_strategy_type: Option<TrustRegionStrategyType>,
    pub dogleg_type: Option<DoglegType>,
    pub use_nonmonotonic_steps: Option<bool>,
    pub max_consecutive_nonmonotonic_steps: Option<i32>,
    pub max_num_iterations: Option<i32>,
    pub num_threads: Option<i32>,
    pub max_num_consecutive_invalid_steps: Option<i32>,
    pub linear_solver_type: Option<LinearSolverType>,
    pub preconditioner_type: Option<PreconditionerType>,
    pub visibility_clustering_type: Option<VisibilityClusteringType>,
    pub residual_blocks_for_subset_preconditioner: Option<Vec<ResidualBlockId>>,
    pub dense_linear_algebra_library_type: Option<DenseLinearAlgebraLibraryType>,
    pub sparse_linear_algebra_library_type: Option<SparseLinearAlgebraLibraryType>,
    pub logging_type: Option<LoggingType>,
    pub minimizer_progress_to_stdout: Option<bool>,
    pub trust_region_minimizer_iterations_to_dump: Option<Vec<i32>>,
    pub trust_region_problem_dump_directory: Option<String>,
    pub trust_region_problem_dump_format_type: Option<DumpFormatType>,
    pub check_gradients: Option<bool>,
    pub update_state_every_iteration: Option<bool>,
}
/// The settings that [SolverOptionsBuilder::new] starts from: every one
/// left to the native engine but logging, which is silenced.
pub open spec fn initial_settings() -> SolverSettings {
    SolverSettings {
        minimizer_type: None,
        line_search_direction_type: None,
        line_search_type: None,
        nonlinear_conjugate_gradient_type: None,
        max_lbfgs_rank: None,
        use_approximate_eigenvalue_bfgs_scaling: None,
        line_search_interpolation_type: None,
        max_num_line_search_direction_restarts: None,
        trust_region_strategy_type: None,
        dogleg_type: None,
        use_nonmonotonic_steps: None,
        max_consecutive_nonmonotonic_steps: None,
        max_num_iterations: None,
        num_threads: None,
        max_num_consecutive_invalid_steps: None,
        linear_solver_type: None,
        preconditioner_type: None,
        visibility_clustering_type: None,
        residual_blocks_for_subset_preconditioner: None,
        dense_linear_algebra_library_type: None,
        sparse_linear_algebra_library_type: None,
        logging_type: Some(LoggingType::SILENT),
        minimizer_progress_to_stdout: None,
        trust_region_minimizer_iterations_to_dump: None,
        trust_region_problem_dump_directory: None,
        trust_region_problem_dump_format_type: None,
        check_gradients: None,
        update_state_every_iteration: None,
    }
}
fn copy_slice<X: Copy>(s: &[X]) -> (r: Vec<X>)
    ensures
        r@ == s@,
{
    let mut r: Vec<X> = Vec::new();
    let mut i: usize = 0;
    while i < s.len()
        invariant
            i <= s@.len(),
            r@ == s@.take(i as int),
        decreases s@.len() - i,
    {
        r.push(s[i]);
        i += 1;
        assert(r@ =~= s@.take(i as int));
    }
    assert(s@.take(i as int) =~= s@);
    r
}

/// Validated solver options.
pub struct SolverOptions {
    settings: SolverSettings,
}

impl View for SolverOptions {
    type V = SolverSettings;

    closed spec fn view(&self) -> SolverSettings {
        self.settings
    }
}

impl SolverOptions {
    /// A builder starting from the initial settings.
    pub fn builder() -> (r: SolverOptionsBuilder)
        ensures
            r@ == initial_settings(),
    {
        SolverOptionsBuilder::new()
    }

    /// The settings to apply to the native options.
    pub fn settings(&self) -> (r: &SolverSettings)
        ensures
            *r == self@,
    {
        &self.settings
    }
}

impl Default for SolverOptions {
    /// Options with the initial settings.
    fn default() -> (r: Self)
        ensures
            r@ == initial_settings(),
    {
        SolverOptions { settings: SolverOptionsBuilder::new().settings }
    }
}

/// Builder of [SolverOptions].
pub struct SolverOptionsBuilder {
    settings: SolverSettings,
}

impl View for SolverOptionsBuilder {
    type V = SolverSettings;

    closed spec fn view(&self) -> SolverSettings {
        self.settings
    }
}

impl SolverOptionsBuilder {
    /// A builder with every setting left to the native engine, but logging,
    /// which is silenced.
    pub fn new() -> (r: Self)
        ensures
            r@ == initial_settings(),
    {
        SolverOptionsBuilder {
            settings: SolverSettings {
                minimizer_type: None,
                line_search_direction_type: None,
                line_search_type: None,
                nonlinear_conjugate_gradient_type: None,
                max_lbfgs_rank: None,
                use_approximate_eigenvalue_bfgs_scaling: None,
                line_search_interpolation_type: None,
                max_num_line_search_direction_restarts: None,
                trust_region_strategy_type: None,
                dogleg_type: None,
                use_nonmonotonic_steps: None,
                max_consecutive_nonmonotonic_steps: None,
                max_num_iterations: None,
                num_threads: None,
                max_num_consecutive_invalid_steps: None,
                linear_solver_type: None,
                preconditioner_type: None,
                visibility_clustering_type: None,
                residual_blocks_for_subset_preconditioner: None,
                dense_linear_algebra_library_type: None,
                sparse_linear_algebra_library_type: None,
                logging_type: Some(LoggingType::SILENT),
                minimizer_progress_to_stdout: None,
                trust_region_minimizer_iterations_to_dump: None,
                trust_region_problem_dump_directory: None,
                trust_region_problem_dump_format_type: None,
                check_gradients: None,
                update_state_every_iteration: None,
            },
        }
    }

    /// The settings to hand to the native validation.
    pub fn settings(&self) -> (r: &SolverSettings)
        ensures
            *r == self@,
    {
        &self.settings
    }

    /// The options, if the native validation of these settings, given as
    /// `verdict`, accepted them; else its message.
    pub fn build(self, verdict: Result<(), String>) -> (r: Result<SolverOptions, SolverOptionsBuildingError>)
        ensures
            match verdict {
                Ok(()) => r matches Ok(o) && o@ == self@,
                Err(msg) => r == Err::<SolverOptions, _>(SolverOptionsBuildingError::Invalid(msg)),
            },
    {
        match self.validate(verdict) {
            Ok(()) => Ok(SolverOptions { settings: self.settings }),
            Err(e) => Err(e),
        }
    }

    /// Turns the native validation's `verdict` on these settings into this
    /// library's error.
    pub fn validate(&self, verdict: Result<(), String>) -> (r: Result<(), SolverOptionsBuildingError>)
        ensures
            match verdict {
                Ok(()) => r == Ok::<(), SolverOptionsBuildingError>(()),
                Err(msg) => r == Err::<(), _>(SolverOptionsBuildingError::Invalid(msg)),
            },
    {
        match verdict {
            Ok(()) => Ok(()),
            Err(msg) => Err(SolverOptionsBuildingError::Invalid(msg)),
        }
    }

    /// Whether the native validation's `verdict` accepts these settings.
    pub fn is_valid(&self, verdict: Result<(), String>) -> (r: bool)
        ensures
            r == verdict is Ok,
    {
        self.validate(verdict).is_ok()
    }

    /// Chooses between line search and trust region minimization.
    pub fn minimizer_type(self, minimizer_type: MinimizerType) -> (r: Self)
        ensures
            r@ == (SolverSettings { minimizer_type: Some(minimizer_type), ..self@ }),
    {
        let mut s = self;
        s.settings.minimizer_type = Some(minimizer_type);
        s
    }

    /// Direction of the line search minimizer.
    pub fn line_search_direction_type(self, line_search_direction_type: LineSearchDirectionType) -> (r: Self)
        ensures
            r@ == (SolverSettings { line_search_direction_type: Some(line_search_direction_type), ..self@ }),
    {
        let mut s = self;
        s.settings.line_search_direction_type = Some(line_search_direction_type);
        s
    }

    /// Step size condition of the line search minimizer.
    pub fn line_search_type(self, line_search_type: LineSearchType) -> (r: Self)
        ensures
            r@ == (SolverSettings { line_search_type: Some(line_search_type), ..self@ }),
    {
        let mut s = self;
        s.settings.line_search_type = Some(line_search_type);
        s
    }

    /// Variant of the nonlinear conjugate gradient direction.
    pub fn nonlinear_conjugate_gradient_type(self, nonlinear_conjugate_gradient_type: NonlinearConjugateGradientType) -> (r: Self)
        ensures
            r@ == (SolverSettings { nonlinear_conjugate_gradient_type: Some(nonlinear_conjugate_gradient_type), ..self@ }),
    {
        let mut s = self;
        s.settings.nonlinear_conjugate_gradient_type = Some(nonlinear_conjugate_gradient_type);
        s
    }

    /// Rank of the L-BFGS Hessian approximation.
    pub fn max_lbfgs_rank(self, max_lbfgs_rank: i32) -> (r: Self)
        ensures
            r@ == (SolverSettings { max_lbfgs_rank: Some(max_lbfgs_rank), ..self@ }),
    {
        let mut s = self;
        s.settings.max_lbfgs_rank = Some(max_lbfgs_rank);
        s
    }

    /// Whether (L-)BFGS scales its initial Hessian approximation.
    pub fn use_approximate_eigenvalue_bfgs_scaling(self, use_approximate_eigenvalue_bfgs_scaling: bool) -> (r: Self)
        ensures
            r@ == (SolverSettings { use_approximate_eigenvalue_bfgs_scaling: Some(use_approximate_eigenvalue_bfgs_scaling), ..self@ }),
    {
        let mut s = self;
        s.settings.use_approximate_eigenvalue_bfgs_scaling = Some(use_approximate_eigenvalue_bfgs_scaling);
        s
    }

    /// Polynomial used to pick line search step sizes.
    pub fn line_search_interpolation_type(self, line_search_interpolation_type: LineSearchInterpolationType) -> (r: Self)
        ensures
            r@ == (SolverSettings { line_search_interpolation_type: Some(line_search_interpolation_type), ..self@ }),
    {
        let mut s = self;
        s.settings.line_search_interpolation_type = Some(line_search_interpolation_type);
        s
    }

    /// Number of times the line search direction may be restarted.
    pub fn max_num_line_search_direction_restarts(self, max_num_line_search_direction_restarts: i32) -> (r: Self)
        ensures
            r@ == (SolverSettings { max_num_line_search_direction_restarts: Some(max_num_line_search_direction_restarts), ..self@ }),
    {
        let mut s = self;
        s.settings.max_num_line_search_direction_restarts = Some(max_num_line_search_direction_restarts);
        s
    }

    /// Strategy of the trust region minimizer.
    pub fn trust_region_strategy_type(self, trust_region_strategy_type: TrustRegionStrategyType) -> (r: Self)
        ensures
            r@ == (SolverSettings { trust_region_strategy_type: Some(trust_region_strategy_type), ..self@ }),
    {
        let mut s = self;
        s.settings.trust_region_strategy_type = Some(trust_region_strategy_type);
        s
    }

    /// Variant of the dogleg strategy.
    pub fn dogleg_type(self, dogleg_type: DoglegType) -> (r: Self)
        ensures
            r@ == (SolverSettings { dogleg_type: Some(dogleg_type), ..self@ }),
    {
        let mut s = self;
        s.settings.dogleg_type = Some(dogleg_type);
        s
    }

    /// Whether the trust region minimizer may accept non-monotonic steps.
    pub fn use_nonmonotonic_steps(self, use_nonmonotonic_steps: bool) -> (r: Self)
        ensures
            r@ == (SolverSettings { use_nonmonotonic_steps: Some(use_nonmonotonic_steps), ..self@ }),
    {
        let mut s = self;
        s.settings.use_nonmonotonic_steps = Some(use_nonmonotonic_steps);
        s
    }

    /// Window of the non-monotonic step rule.
    pub fn max_consecutive_nonmonotonic_steps(self, max_consecutive_nonmonotonic_steps: i32) -> (r: Self)
        ensures
            r@ == (SolverSettings { max_consecutive_nonmonotonic_steps: Some(max_consecutive_nonmonotonic_steps), ..self@ }),
    {
        let mut s = self;
        s.settings.max_consecutive_nonmonotonic_steps = Some(max_consecutive_nonmonotonic_steps);
        s
    }

    /// Iteration budget of the minimizer.
    pub fn max_num_iterations(self, max_num_iterations: i32) -> (r: Self)
        ensures
            r@ == (SolverSettings { max_num_iterations: Some(max_num_iterations), ..self@ }),
    {
        let mut s = self;
        s.settings.max_num_iterations = Some(max_num_iterations);
        s
    }

    /// Number of threads the native engine may use.
    pub fn num_threads(self, num_threads: i32) -> (r: Self)
        ensures
            r@ == (SolverSettings { num_threads: Some(num_threads), ..self@ }),
    {
        let mut s = self;
        s.settings.num_threads = Some(num_threads);
        s
    }

    /// Number of invalid steps tolerated in a row.
    pub fn max_num_consecutive_invalid_steps(self, max_num_consecutive_invalid_steps: i32) -> (r: Self)
        ensures
            r@ == (SolverSettings { max_num_consecutive_invalid_steps: Some(max_num_consecutive_invalid_steps), ..self@ }),
    {
        let mut s = self;
        s.settings.max_num_consecutive_invalid_steps = Some(max_num_consecutive_invalid_steps);
        s
    }

    /// Linear solver used for each step.
    pub fn linear_solver_type(self, linear_solver_type: LinearSolverType) -> (r: Self)
        ensures
            r@ == (SolverSettings { linear_solver_type: Some(linear_solver_type), ..self@ }),
    {
        let mut s = self;
        s.settings.linear_solver_type = Some(linear_solver_type);
        s
    }

    /// Preconditioner of the iterative linear solvers.
    pub fn preconditioner_type(self, preconditioner_type: PreconditionerType) -> (r: Self)
        ensures
            r@ == (SolverSettings { preconditioner_type: Some(preconditioner_type), ..self@ }),
    {
        let mut s = self;
        s.settings.preconditioner_type = Some(preconditioner_type);
        s
    }

    /// Clustering used by the cluster preconditioners.
    pub fn visibility_clustering_type(self, visibility_clustering_type: VisibilityClusteringType) -> (r: Self)
        ensures
            r@ == (SolverSettings { visibility_clustering_type: Some(visibility_clustering_type), ..self@ }),
    {
        let mut s = self;
        s.settings.visibility_clustering_type = Some(visibility_clustering_type);
        s
    }

    /// Residual blocks whose Jacobian forms the subset preconditioner.
    pub fn residual_blocks_for_subset_preconditioner(self, residual_blocks_for_subset_preconditioner: &[ResidualBlockId]) -> (r: Self)
        ensures
            r@.residual_blocks_for_subset_preconditioner matches Some(v) && v@ == residual_blocks_for_subset_preconditioner@,
            r@ == (SolverSettings { residual_blocks_for_subset_preconditioner: r@.residual_blocks_for_subset_preconditioner, ..self@ }),
    {
        let mut s = self;
        s.settings.residual_blocks_for_subset_preconditioner = Some(copy_slice(residual_blocks_for_subset_preconditioner));
        s
    }

    /// Library for dense linear algebra.
    pub fn dense_linear_algebra_library_type(self, dense_linear_algebra_library_type: DenseLinearAlgebraLibraryType) -> (r: Self)
        ensures
            r@ == (SolverSettings { dense_linear_algebra_library_type: Some(dense_linear_algebra_library_type), ..self@ }),
    {
        let mut s = self;
        s.settings.dense_linear_algebra_library_type = Some(dense_linear_algebra_library_type);
        s
    }

    /// Library for sparse linear algebra.
    pub fn sparse_linear_algebra_library_type(self, sparse_linear_algebra_library_type: SparseLinearAlgebraLibraryType) -> (r: Self)
        ensures
            r@ == (SolverSettings { sparse_linear_algebra_library_type: Some(sparse_linear_algebra_library_type), ..self@ }),
    {
        let mut s = self;
        s.settings.sparse_linear_algebra_library_type = Some(sparse_linear_algebra_library_type);
        s
    }

    /// How much the native engine logs.
    pub fn logging_type(self, logging_type: LoggingType) -> (r: Self)
        ensures
            r@ == (SolverSettings { logging_type: Some(logging_type), ..self@ }),
    {
        let mut s = self;
        s.settings.logging_type = Some(logging_type);
        s
    }

    /// Whether the minimizer reports its progress on standard output.
    pub fn minimizer_progress_to_stdout(self, minimizer_progress_to_stdout: bool) -> (r: Self)
        ensures
            r@ == (SolverSettings { minimizer_progress_to_stdout: Some(minimizer_progress_to_stdout), ..self@ }),
    {
        let mut s = self;
        s.settings.minimizer_progress_to_stdout = Some(minimizer_progress_to_stdout);
        s
    }

    /// Iterations at which the trust region problem is dumped.
    pub fn trust_region_minimizer_iterations_to_dump(self, trust_region_minimizer_iterations_to_dump: &[i32]) -> (r: Self)
        ensures
            r@.trust_region_minimizer_iterations_to_dump matches Some(v) && v@ == trust_region_minimizer_iterations_to_dump@,
            r@ == (SolverSettings { trust_region_minimizer_iterations_to_dump: r@.trust_region_minimizer_iterations_to_dump, ..self@ }),
    {
        let mut s = self;
        s.settings.trust_region_minimizer_iterations_to_dump = Some(copy_slice(trust_region_minimizer_iterations_to_dump));
        s
    }

    /// Directory that the dumps are written to.
    pub fn trust_region_problem_dump_directory(self, trust_region_problem_dump_directory: String) -> (r: Self)
        ensures
            r@ == (SolverSettings { trust_region_problem_dump_directory: Some(trust_region_problem_dump_directory), ..self@ }),
    {
        let mut s = self;
        s.settings.trust_region_problem_dump_directory = Some(trust_region_problem_dump_directory);
        s
    }

    /// Format of the trust region problem dumps.
    pub fn trust_region_problem_dump_format_type(self, trust_region_problem_dump_format_type: DumpFormatType) -> (r: Self)
        ensures
            r@ == (SolverSettings { trust_region_problem_dump_format_type: Some(trust_region_problem_dump_format_type), ..self@ }),
    {
        let mut s = self;
        s.settings.trust_region_problem_dump_format_type = Some(trust_region_problem_dump_format_type);
        s
    }

    /// Whether user derivatives are checked against finite differences.
    pub fn check_gradients(self, check_gradients: bool) -> (r: Self)
        ensures
            r@ == (SolverSettings { check_gradients: Some(check_gradients), ..self@ }),
    {
        let mut s = self;
        s.settings.check_gradients = Some(check_gradients);
        s
    }

    /// Whether parameter buffers are updated after every iteration.
    pub fn update_state_every_iteration(self, update_state_every_iteration: bool) -> (r: Self)
        ensures
            r@ == (SolverSettings { update_state_every_iteration: Some(update_state_every_iteration), ..self@ }),
    {
        let mut s = self;
        s.settings.update_state_every_iteration = Some(update_state_every_iteration);
        s
    }
}

impl Default for SolverOptionsBuilder {
    fn default() -> (r: Self)
        ensures
            r@ == initial_settings(),
    {
        Self::new()
    }
}

/// What the native engine reports of a run.
pub struct SolverSummaryView {
    pub brief_report: Seq<char>,
    pub full_report: Seq<char>,
    pub is_solution_usable: bool,
    pub num_successful_steps: i32,
    pub num_unsuccessful_steps: i32,
    pub num_inner_iteration_steps: i32,
    pub num_line_search_steps: i32,
}

/// Report of a solver run.
pub struct SolverSummary {
    brief_report: String,
    full_report: String,
    is_solution_usable: bool,
    num_successful_steps: i32,
    num_unsuccessful_steps: i32,
    num_inner_iteration_steps: i32,
    num_line_search_steps: i32,
}

impl View for SolverSummary {
    type V = SolverSummaryView;

    closed spec fn view(&self) -> SolverSummaryView {
        SolverSummaryView {
            brief_report: self.brief_report@,
            full_report: self.full_report@,
            is_solution_usable: self.is_solution_usable,
            num_successful_steps: self.num_successful_steps,
            num_unsuccessful_steps: self.num_unsuccessful_steps,
            num_inner_iteration_steps: self.num_inner_iteration_steps,
            num_line_search_steps: self.num_line_search_steps,
        }
    }
}

impl SolverSummary {
    /// The summary of no run: empty reports, no usable solution, no steps.
    pub fn new() -> (r: Self)
        ensures
            r@ == (SolverSummaryView {
                brief_report: Seq::empty(),
                full_report: Seq::empty(),
                is_solution_usable: false,
                num_successful_steps: 0,
                num_unsuccessful_steps: 0,
                num_inner_iteration_steps: 0,
                num_line_search_steps: 0,
            }),
    {
        SolverSummary {
            brief_report: String::new(),
            full_report: String::new(),
            is_solution_usable: false,
            num_successful_steps: 0,
            num_unsuccessful_steps: 0,
            num_inner_iteration_steps: 0,
            num_line_search_steps: 0,
        }
    }

    /// The summary that the native engine reported.
    pub fn from_report(
        brief_report: String,
        full_report: String,
        is_solution_usable: bool,
        num_successful_steps: i32,
        num_unsuccessful_steps: i32,
        num_inner_iteration_steps: i32,
        num_line_search_steps: i32,
    ) -> (r: Self)
        ensures
            r@ == (SolverSummaryView {
                brief_report: brief_report@,
                full_report: full_report@,
                is_solution_usable,
                num_successful_steps,
                num_unsuccessful_steps,
                num_inner_iteration_steps,
                num_line_search_steps,
            }),
    {
        SolverSummary {
            brief_report,
            full_report,
            is_solution_usable,
            num_successful_steps,
            num_unsuccessful_steps,
            num_inner_iteration_steps,
            num_line_search_steps,
        }
    }

    /// One-line report.
    pub fn brief_report(&self) -> (r: String)
        ensures
            r@ == self@.brief_report,
    {
        self.brief_report.clone()
    }

    /// Full report.
    pub fn full_report(&self) -> (r: String)
        ensures
            r@ == self@.full_report,
    {
        self.full_report.clone()
    }

    /// Whether the solution can be used.
    pub fn is_solution_usable(&self) -> (r: bool)
        ensures
            r == self@.is_solution_usable,
    {
        self.is_solution_usable
    }

    /// Number of steps that decreased the cost.
    pub fn num_successful_steps(&self) -> (r: i32)
        ensures
            r == self@.num_successful_steps,
    {
        self.num_successful_steps
    }

    /// Number of rejected steps.
    pub fn num_unsuccessful_steps(&self) -> (r: i32)
        ensures
            r == self@.num_unsuccessful_steps,
    {
        self.num_unsuccessful_steps
    }

    /// Number of inner iteration steps.
    pub fn num_inner_iteration_steps(&self) -> (r: i32)
        ensures
            r == self@.num_inner_iteration_steps,
    {
        self.num_inner_iteration_steps
    }

    /// Number of line search steps.
    pub fn num_line_search_steps(&self) -> (r: i32)
        ensures
            r == self@.num_line_search_steps,
    {
        self.num_line_search_steps
    }
}

impl Default for SolverSummary {
    fn default() -> (r: Self)
        ensures
            r@ == (SolverSummaryView {
                brief_report: Seq::empty(),
                full_report: Seq::empty(),
                is_solution_usable: false,
                num_successful_steps: 0,
                num_unsuccessful_steps: 0,
                num_inner_iteration_steps: 0,
                num_line_search_steps: 0,
            }),
    {
        Self::new()
    }
}

} // verus!
