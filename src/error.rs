use vstd::prelude::*;

verus! {

/// Why a request to the text-generation endpoint gave no summary.
#[derive(Debug, PartialEq, Eq)]
pub enum SummaryError {
    /// The endpoint answered with a status outside 2xx; its body is kept whole.
    Endpoint { status: u16, body: String },
    /// The endpoint answered 2xx with no choice in it.
    EmptyChoices,
    /// The endpoint answered 2xx with a body of another shape; the parser's words.
    Malformed(String),
    /// No answer came: the connection or the transfer failed.
    Transport(String),
}

/// Why a run stopped. Each is final: there is no retry.
#[derive(Debug, PartialEq, Eq)]
pub enum PipelineError {
    RepositoryUnavailable(String),
    TraversalError(String),
    DiffComputationError(String),
    CredentialMissing,
    Summary(SummaryError),
    /// An event came that the run was not waiting for.
    OutOfOrder,
}

} // verus!
