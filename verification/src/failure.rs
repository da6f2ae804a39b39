//! How an operation fails when its answer is not one of its own errors.
use vstd::prelude::*;
use vstd::string::*;

verus! {

/// A failure of the plugin itself.
#[derive(Clone, Debug, PartialEq, Eq)]
pub enum Failure {
    /// The configuration cannot be used.
    InvalidResolvedPlan { detail: String },
    /// The plugin could not do its work.
    PluginFailure { detail: String },
}

/// What a [`Failure`] says.
pub enum FailureView {
    InvalidResolvedPlan { detail: Seq<char> },
    PluginFailure { detail: Seq<char> },
}

impl View for Failure {
    type V = FailureView;

    open spec fn view(&self) -> FailureView {
        match self {
            Failure::InvalidResolvedPlan { detail } => FailureView::InvalidResolvedPlan {
                detail: detail@,
            },
            Failure::PluginFailure { detail } => FailureView::PluginFailure { detail: detail@ },
        }
    }
}

/// `lenso_kernel::RuntimeFailure`: a failure that the kernel reports, carried on as it came.
#[verifier::external_type_specification]
#[verifier::external_body]
pub struct ExRuntimeFailure(lenso_kernel::RuntimeFailure);

/// A failure of the plugin, or one of the kernel that it hands on.
#[derive(Debug, PartialEq)]
pub enum RelayedFailure {
    Plugin(Failure),
    Kernel(lenso_kernel::RuntimeFailure),
}

/// The failure of a plugin that is asked before it was activated.
pub open spec fn unprepared() -> FailureView {
    FailureView::PluginFailure { detail: "Search Plugin is not prepared"@ }
}

/// The failure of the database operation called `operation`.
pub open spec fn database_failed(operation: Seq<char>) -> FailureView {
    FailureView::PluginFailure { detail: "PostgreSQL operation `"@ + operation + "` failed"@ }
}

/// The failure of a plugin that is asked before it was activated.
pub fn not_prepared() -> (failure: Failure)
    ensures
        failure@ == unprepared(),
{
    Failure::PluginFailure { detail: "Search Plugin is not prepared".to_owned() }
}

/// The failure of the database operation called `operation`.
pub fn database_failure(operation: &str) -> (failure: Failure)
    ensures
        failure@ == database_failed(operation@),
{
    let detail = "PostgreSQL operation `".to_owned().concat(operation).concat("` failed");
    Failure::PluginFailure { detail }
}

/// A failure says what it holds, and the plugin's own failures read so.
pub proof fn failures_read_so(failure: Failure, operation: Seq<char>)
    ensures
        match failure {
            Failure::InvalidResolvedPlan { detail } => failure@ == (
            FailureView::InvalidResolvedPlan { detail: detail@ }),
            Failure::PluginFailure { detail } => failure@ == (FailureView::PluginFailure {
                detail: detail@,
            }),
        },
        unprepared() == (FailureView::PluginFailure { detail: "Search Plugin is not prepared"@ }),
        database_failed(operation) == (FailureView::PluginFailure {
            detail: "PostgreSQL operation `"@ + operation + "` failed"@,
        }),
{
}

} // verus!
