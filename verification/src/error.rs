use crate::generics::DependencyClass;
use crate::opt::AsyncStrategy;
use crate::text::Text;
use vstd::prelude::*;

verus! {

/// Why nothing was generated. Each error names the function it was found at
/// by its place in declaration order and by its name.
#[derive(Debug, PartialEq, Eq)]
pub enum GenerationError {
    /// The function's dependency does not go with that of the group.
    ConflictingDependencyMode {
        fn_index: usize,
        function: String,
        found: DependencyClass,
        expected: DependencyClass,
    },
    /// The function declares a generic parameter that an earlier function
    /// declared otherwise: with other bounds, or as a constant of another
    /// type, or as a constant where it was none.
    ConflictingGenericBounds { fn_index: usize, function: String, parameter: String },
    /// The function asks for another representation of asynchronous methods
    /// than the one that the group already has.
    MixedAsyncStrategy {
        fn_index: usize,
        function: String,
        requested: AsyncStrategy,
        established: AsyncStrategy,
    },
    /// A parameter that has to be forwarded by its name has no simple name.
    MalformedParameterPattern { fn_index: usize, function: String, param_index: usize },
}

/// Why nothing was generated, as a value.
pub enum ErrorView {
    ConflictingDependencyMode {
        fn_index: int,
        function: Text,
        found: DependencyClass,
        expected: DependencyClass,
    },
    ConflictingGenericBounds { fn_index: int, function: Text, parameter: Text },
    MixedAsyncStrategy {
        fn_index: int,
        function: Text,
        requested: AsyncStrategy,
        established: AsyncStrategy,
    },
    MalformedParameterPattern { fn_index: int, function: Text, param_index: int },
}

impl View for GenerationError {
    type V = ErrorView;

    open spec fn view(&self) -> ErrorView {
        match self {
            GenerationError::ConflictingDependencyMode { fn_index, function, found, expected } =>
                ErrorView::ConflictingDependencyMode {
                    fn_index: *fn_index as int,
                    function: function@,
                    found: *found,
                    expected: *expected,
                },
            GenerationError::ConflictingGenericBounds { fn_index, function, parameter } =>
                ErrorView::ConflictingGenericBounds {
                    fn_index: *fn_index as int,
                    function: function@,
                    parameter: parameter@,
                },
            GenerationError::MixedAsyncStrategy { fn_index, function, requested, established } =>
                ErrorView::MixedAsyncStrategy {
                    fn_index: *fn_index as int,
                    function: function@,
                    requested: *requested,
                    established: *established,
                },
            GenerationError::MalformedParameterPattern { fn_index, function, param_index } =>
                ErrorView::MalformedParameterPattern {
                    fn_index: *fn_index as int,
                    function: function@,
                    param_index: *param_index as int,
                },
        }
    }
}

} // verus!
