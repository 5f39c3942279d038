//! Errors of resolution and of schema construction.

use vstd::prelude::*;

verus! {

/// Why resolving a configuration failed: exactly one failing variable.
#[derive(Clone, Debug, PartialEq, Eq)]
pub enum FromEnvError {
    /// A required variable, with no default, was absent.
    MissingEnvVar { var_name: String },
    /// A variable (or the default standing for it) did not parse as its type.
    ParsingFailure { var_name: String, expected_type: String, str_value: String },
}

/// The mathematical meaning of a [`FromEnvError`].
pub enum ErrorView {
    MissingEnvVar { var_name: Seq<char> },
    ParsingFailure { var_name: Seq<char>, expected_type: Seq<char>, str_value: Seq<char> },
}

impl View for FromEnvError {
    type V = ErrorView;

    open spec fn view(&self) -> ErrorView {
        match self {
            FromEnvError::MissingEnvVar { var_name } => ErrorView::MissingEnvVar {
                var_name: var_name@,
            },
            FromEnvError::ParsingFailure { var_name, expected_type, str_value } =>
                ErrorView::ParsingFailure {
                var_name: var_name@,
                expected_type: expected_type@,
                str_value: str_value@,
            },
        }
    }
}

impl ErrorView {
    /// The human-readable description of the error.
    pub open spec fn message(self) -> Seq<char> {
        match self {
            ErrorView::MissingEnvVar { var_name } => "missing required environment variable: "@
                + var_name,
            ErrorView::ParsingFailure { var_name, expected_type, .. } =>
                "failed to parse environment variable "@ + var_name + " as "@ + expected_type,
        }
    }
}

impl FromEnvError {
    /// The human-readable description of the error.
    pub fn message(&self) -> (r: String)
        ensures
            r@ == self@.message(),
    {
        match self {
            FromEnvError::MissingEnvVar { var_name } => {
                "missing required environment variable: ".to_string().concat(var_name.as_str())
            },
            FromEnvError::ParsingFailure { var_name, expected_type, .. } => {
                "failed to parse environment variable ".to_string().concat(
                    var_name.as_str(),
                ).concat(" as ").concat(expected_type.as_str())
            },
        }
    }
}

/// An attribute combination that a schema may not hold. Each names the field
/// that carries it.
#[derive(Clone, Debug, PartialEq, Eq)]
pub enum SchemaError {
    /// `default` on an optional field.
    DefaultOnOptional { field: String },
    /// `default` on a nested field.
    DefaultOnNested { field: String },
    /// `var` on a nested field.
    VarOnNested { field: String },
}

/// The mathematical meaning of a [`SchemaError`].
pub enum SchemaErrorView {
    DefaultOnOptional { field: Seq<char> },
    DefaultOnNested { field: Seq<char> },
    VarOnNested { field: Seq<char> },
}

impl View for SchemaError {
    type V = SchemaErrorView;

    open spec fn view(&self) -> SchemaErrorView {
        match self {
            SchemaError::DefaultOnOptional { field } => SchemaErrorView::DefaultOnOptional {
                field: field@,
            },
            SchemaError::DefaultOnNested { field } => SchemaErrorView::DefaultOnNested {
                field: field@,
            },
            SchemaError::VarOnNested { field } => SchemaErrorView::VarOnNested { field: field@ },
        }
    }
}

} // verus!
