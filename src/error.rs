//! Error enums.

use vstd::prelude::*;

verus! {

/// Any error of this library.
#[derive(Debug, Clone, PartialEq, Eq)]
pub enum Error {
    ResidualBlockBuildingError(ResidualBlockBuildingError),
    SolverOptionsBuildingError(SolverOptionsBuildingError),
    CurveFitProblemBuildError(CurveFitProblemBuildError),
    NllsProblemError(NllsProblemError),
}

/// Failure to build a residual block.
#[derive(Debug, Clone, PartialEq, Eq)]
pub enum ResidualBlockBuildingError {
    MissingCost,
    MissingParameters,
    ParameterBlockStorageError(ParameterBlockStorageError),
}

/// A parameter block index that does not name a stored block.
#[derive(Debug, Clone, Copy, PartialEq, Eq)]
pub enum ParameterBlockStorageError {
    IndexOutOfBounds { index: usize, len: usize },
}

/// Solver options rejected by the native validation.
#[derive(Debug, Clone, PartialEq, Eq)]
pub enum SolverOptionsBuildingError {
    Invalid(String),
}

/// Error for [crate::curve_fit::CurveFitProblem1DBuilder].
#[derive(Debug, Clone, PartialEq, Eq)]
pub enum CurveFitProblemBuildError {
    DataSizesDontMatch,
    FuncMissed,
    XMissed,
    YMissed,
    ParametersMissed,
    LowerBoundarySizeMismatch,
    UpperBoundarySizeMismatch,
    ParameterBlockStorageError(ParameterBlockStorageError),
}

/// Error for [crate::nlls_problem::NllsProblem].
#[derive(Debug, Clone, Copy, PartialEq, Eq)]
pub enum NllsProblemError {
    NoResidualBlocks,
}

impl From<ParameterBlockStorageError> for ResidualBlockBuildingError {
    fn from(e: ParameterBlockStorageError) -> (r: Self) {
        ResidualBlockBuildingError::ParameterBlockStorageError(e)
    }
}

impl vstd::std_specs::convert::FromSpecImpl<ParameterBlockStorageError> for ResidualBlockBuildingError {
    open spec fn obeys_from_spec() -> bool {
        true
    }

    open spec fn from_spec(e: ParameterBlockStorageError) -> Self {
        ResidualBlockBuildingError::ParameterBlockStorageError(e)
    }
}

impl From<ParameterBlockStorageError> for CurveFitProblemBuildError {
    fn from(e: ParameterBlockStorageError) -> (r: Self) {
        CurveFitProblemBuildError::ParameterBlockStorageError(e)
    }
}

impl vstd::std_specs::convert::FromSpecImpl<ParameterBlockStorageError> for CurveFitProblemBuildError {
    open spec fn obeys_from_spec() -> bool {
        true
    }

    open spec fn from_spec(e: ParameterBlockStorageError) -> Self {
        CurveFitProblemBuildError::ParameterBlockStorageError(e)
    }
}

impl From<ResidualBlockBuildingError> for Error {
    fn from(e: ResidualBlockBuildingError) -> (r: Self) {
        Error::ResidualBlockBuildingError(e)
    }
}

impl vstd::std_specs::convert::FromSpecImpl<ResidualBlockBuildingError> for Error {
    open spec fn obeys_from_spec() -> bool {
        true
    }

    open spec fn from_spec(e: ResidualBlockBuildingError) -> Self {
        Error::ResidualBlockBuildingError(e)
    }
}

impl From<SolverOptionsBuildingError> for Error {
    fn from(e: SolverOptionsBuildingError) -> (r: Self) {
        Error::SolverOptionsBuildingError(e)
    }
}

impl vstd::std_specs::convert::FromSpecImpl<SolverOptionsBuildingError> for Error {
    open spec fn obeys_from_spec() -> bool {
        true
    }

    open spec fn from_spec(e: SolverOptionsBuildingError) -> Self {
        Error::SolverOptionsBuildingError(e)
    }
}

impl From<CurveFitProblemBuildError> for Error {
    fn from(e: CurveFitProblemBuildError) -> (r: Self) {
        Error::CurveFitProblemBuildError(e)
    }
}

impl vstd::std_specs::convert::FromSpecImpl<CurveFitProblemBuildError> for Error {
    open spec fn obeys_from_spec() -> bool {
        true
    }

    open spec fn from_spec(e: CurveFitProblemBuildError) -> Self {
        Error::CurveFitProblemBuildError(e)
    }
}

impl From<NllsProblemError> for Error {
    fn from(e: NllsProblemError) -> (r: Self) {
        Error::NllsProblemError(e)
    }
}

impl vstd::std_specs::convert::FromSpecImpl<NllsProblemError> for Error {
    open spec fn obeys_from_spec() -> bool {
        true
    }

    open spec fn from_spec(e: NllsProblemError) -> Self {
        Error::NllsProblemError(e)
    }
}

} // verus!
