use vstd::prelude::*;

verus! {

/// The model every request names.
pub const MODEL: &'static str = "gpt-3.5-turbo";

/// The sampling temperature of every request, in tenths.
pub const TEMPERATURE_TENTHS: u8 = 7;

/// Placed between the texts of a batch when they are sent together.
pub const DELIMITER: &'static str = "\n\n---\n\n";

pub const PROJECT_INSTRUCTION: &'static str = "You are an AI assistant that provides concise project descriptions. Based on the README content and other information provided, give a brief, clear description of what this project is about in plain English. Keep it under 100 words.";

pub const COMMIT_INSTRUCTION: &'static str = "You are an AI assistant that explains git commits in plain language. For each commit, explain what changes were made in simple terms that anyone can understand. Focus on the practical impact of the changes rather than technical details.";

pub const EDIT_INSTRUCTION: &'static str = "You are an AI assistant that explains code changes in plain language. For each edit, explain what was changed and why it might have been changed. Focus on the functional impact rather than listing every line change. Make it understandable to non-technical people.";

/// Which of the three questions a request asks.
#[derive(Clone, Copy, Debug, PartialEq, Eq, Structural)]
pub enum PromptKind {
    ProjectDescription,
    CommitExplanation,
    EditExplanation,
}

/// One request to the text-generation endpoint: a system instruction, the
/// user's content, the model and the temperature.
pub struct PromptRequest {
    pub model: String,
    pub system: String,
    pub user: String,
    pub temperature_tenths: u8,
}

/// The canned instruction of each kind of request.
pub open spec fn instruction_text(kind: PromptKind) -> Seq<char> {
    match kind {
        PromptKind::ProjectDescription => PROJECT_INSTRUCTION@,
        PromptKind::CommitExplanation => COMMIT_INSTRUCTION@,
        PromptKind::EditExplanation => EDIT_INSTRUCTION@,
    }
}

/// `q` is the request of kind `kind` over `content`.
pub open spec fn is_request(q: PromptRequest, kind: PromptKind, content: Seq<char>) -> bool {
    &&& q.model@ == MODEL@
    &&& q.system@ == instruction_text(kind)
    &&& q.user@ == content
    &&& q.temperature_tenths == TEMPERATURE_TENTHS
}

/// The texts of `parts` in order, with `sep` between each two of them.
pub open spec fn joined(parts: Seq<Seq<char>>, sep: Seq<char>) -> Seq<char>
    decreases parts.len(),
{
    if parts.len() == 0 {
        seq![]
    } else if parts.len() == 1 {
        parts[0]
    } else {
        joined(parts.drop_last(), sep) + sep + parts.last()
    }
}

/// The views of a vector of strings.
pub open spec fn texts(v: Seq<String>) -> Seq<Seq<char>> {
    v.map_values(|s: String| s@)
}

/// Joins `parts` with `sep` between each two of them.
pub fn join_texts(parts: &Vec<String>, sep: &str) -> (r: String)
    ensures
        r@ == joined(texts(parts@), sep@),
{
    let ghost all = texts(parts@);
    let mut out = String::new();
    let mut i: usize = 0;
    while i < parts.len()
        invariant
            i <= parts.len(),
            all == texts(parts@),
            out@ == joined(all.take(i as int), sep@),
        decreases parts.len() - i,
    {
        assert(all.take(i + 1).drop_last() =~= all.take(i as int));
        if i > 0 {
            out.append(sep);
        }
        out.append(parts[i].as_str());
        i = i + 1;
        assert(all.take(i as int).last() == parts@[i - 1]@);
    }
    assert(all.take(i as int) =~= all);
    out
}

/// The instruction of a kind of request.
pub fn instruction(kind: PromptKind) -> (r: &'static str)
    ensures
        r@ == instruction_text(kind),
{
    match kind {
        PromptKind::ProjectDescription => PROJECT_INSTRUCTION,
        PromptKind::CommitExplanation => COMMIT_INSTRUCTION,
        PromptKind::EditExplanation => EDIT_INSTRUCTION,
    }
}

/// Builds the request of kind `kind` over `content`, which is passed on whole.
pub fn compose(kind: PromptKind, content: String) -> (r: PromptRequest)
    ensures
        is_request(r, kind, content@),
{
    PromptRequest {
        model: String::from_str(MODEL),
        system: String::from_str(instruction(kind)),
        user: content,
        temperature_tenths: TEMPERATURE_TENTHS,
    }
}

} // verus!
