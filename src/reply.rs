use vstd::prelude::*;
use crate::error::SummaryError;

verus! {

/// What came back for one request, as the transport saw it.
pub enum Reply {
    /// A status outside 2xx, with the body as text.
    Rejected { status: u16, body: String },
    /// A 2xx answer of the expected shape: the content of each choice, in order.
    Choices(Vec<String>),
    /// A 2xx answer whose body has another shape; the parser's words.
    Unparsable(String),
    /// No answer: the transport's words.
    Unreachable(String),
}

/// The summary a reply carries: the first choice's content, or the error.
pub open spec fn reply_summary(rp: Reply) -> Result<Seq<char>, SummaryError> {
    match rp {
        Reply::Rejected { status, body } => Err(SummaryError::Endpoint { status, body }),
        Reply::Choices(v) => if v@.len() == 0 {
            Err(SummaryError::EmptyChoices)
        } else {
            Ok(v@[0]@)
        },
        Reply::Unparsable(e) => Err(SummaryError::Malformed(e)),
        Reply::Unreachable(e) => Err(SummaryError::Transport(e)),
    }
}

/// Whether an HTTP status counts as success.
pub fn is_success(status: u16) -> (r: bool)
    ensures
        r == (200 <= status < 300),
{
    200 <= status && status < 300
}

/// Takes the summary out of a reply: the first choice's content, or the
/// error that the reply stands for.
pub fn summary_of(rp: Reply) -> (r: Result<String, SummaryError>)
    ensures
        match r {
            Ok(t) => reply_summary(rp) == Ok::<Seq<char>, SummaryError>(t@),
            Err(e) => reply_summary(rp) == Err::<Seq<char>, SummaryError>(e),
        },
{
    match rp {
        Reply::Rejected { status, body } => Err(SummaryError::Endpoint { status, body }),
        Reply::Choices(v) => {
            if v.len() == 0 {
                Err(SummaryError::EmptyChoices)
            } else {
                Ok(v[0].clone())
            }
        },
        Reply::Unparsable(e) => Err(SummaryError::Malformed(e)),
        Reply::Unreachable(e) => Err(SummaryError::Transport(e)),
    }
}

} // verus!
