//! Turns a repository's recent history into requests for a text-generation
//! endpoint, and decides from the replies what to report.
//!
//! Everything here is pure: reading the repository, sending requests and
//! printing are left to the caller, which feeds the results back as values.

mod commit;
mod credential;
mod error;
mod history;
mod pipeline;
mod prompt;
mod reply;

pub use commit::{
    CommitRecord, NO_MESSAGE, UNKNOWN_AUTHOR, commit_text, contains_text, decimal, format_commit,
    lemma_placeholders_shown, write_decimal,
};
pub use history::{
    WalkedCommit, batch_len, diff_targets, lemma_single_parent_positions, parent_counts,
    single_parent_positions, take_batch,
};
pub use prompt::{
    COMMIT_INSTRUCTION, DELIMITER, EDIT_INSTRUCTION, MODEL, PROJECT_INSTRUCTION, PromptKind,
    PromptRequest, TEMPERATURE_TENTHS, compose, instruction, instruction_text, is_request, join_texts,
    joined, texts,
};
pub use error::{PipelineError, SummaryError};
pub use reply::{Reply, is_success, reply_summary, summary_of};
pub use credential::{KEY_PREFIX, api_key, key_value, starts_with};
pub use pipeline::{
    Action, Event, NO_README, ONE_COMMIT_NOTICE, Pipeline, Report, Stage, aborts, commit_payload,
    commit_texts, diff_payload, format_batch, keeps, lemma_diff_request_within_batch,
    lemma_empty_history_sends_nothing, lemma_single_commit_needs_no_edit_request, readme_text, reports,
    steps_to,
};
