//! The closed set of failure kinds the task runner produces, and the error
//! value that carries one kind together with a human-readable message.

use vstd::prelude::*;

verus! {

use vstd::string::StringExecFns;

/// Every way a run can fail, as a closed enumeration.
#[derive(Debug, PartialEq, Eq, Clone, Copy)]
pub enum AlchemistErrorType {
    /// No configuration file was found at all.
    NoConfigFileError,
    /// A task definition was unparsable or matched no task shape.
    ConfigParseError,
    /// A serial or parallel group named a task absent from the registry.
    UnknownSubtaskError,
    /// A command or shell binary could not be started.
    SpawnFailureError,
    /// A process started but exited with a non-zero status.
    ExecutionFailureError,
    /// One or more concurrent units inside a parallel group failed.
    AggregateFailureError,
}

impl AlchemistErrorType {
    /// The stable name of the failure kind.
    pub fn to_string(&self) -> (r: String)
        ensures
            r@ == self.name_view(),
    {
        match self {
            AlchemistErrorType::NoConfigFileError => String::from_str("NoConfigFileError"),
            AlchemistErrorType::ConfigParseError => String::from_str("ConfigParseError"),
            AlchemistErrorType::UnknownSubtaskError => String::from_str("UnknownSubtaskError"),
            AlchemistErrorType::SpawnFailureError => String::from_str("SpawnFailureError"),
            AlchemistErrorType::ExecutionFailureError => String::from_str("ExecutionFailureError"),
            AlchemistErrorType::AggregateFailureError => String::from_str("AggregateFailureError"),
        }
    }

    /// What `to_string` returns for each kind.
    pub open spec fn name_view(&self) -> Seq<char> {
        match self {
            AlchemistErrorType::NoConfigFileError => "NoConfigFileError"@,
            AlchemistErrorType::ConfigParseError => "ConfigParseError"@,
            AlchemistErrorType::UnknownSubtaskError => "UnknownSubtaskError"@,
            AlchemistErrorType::SpawnFailureError => "SpawnFailureError"@,
            AlchemistErrorType::ExecutionFailureError => "ExecutionFailureError"@,
            AlchemistErrorType::AggregateFailureError => "AggregateFailureError"@,
        }
    }
}

/// A failure: its kind, and the message shown to the user.
#[derive(Debug, PartialEq, Eq)]
pub struct AlchemistError {
    pub error_type: AlchemistErrorType,
    pub error_message: String,
}

impl AlchemistError {
    pub fn new(error_type: AlchemistErrorType, error_message: String) -> (r: AlchemistError)
        ensures
            r.error_type == error_type,
            r.error_message@ == error_message@,
    {
        AlchemistError { error_type, error_message }
    }
}

} // verus!
