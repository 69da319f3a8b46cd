use vstd::prelude::*;
use crate::commit::{commit_text, format_commit};
use crate::error::PipelineError;
use crate::history::{
    WalkedCommit, diff_targets, lemma_single_parent_positions, parent_counts,
    single_parent_positions, take_batch,
};
use crate::prompt::{
    DELIMITER, PromptKind, PromptRequest, compose, is_request, join_texts, joined, texts,
};
use crate::reply::{Reply, reply_summary, summary_of};

verus! {

/// Sent in place of a README that the repository does not hold.
pub const NO_README: &'static str = "No README.md found";

/// Reported in place of an edit summary when only one commit was walked.
pub const ONE_COMMIT_NOTICE: &'static str = "Repository has only one commit, so there are no previous versions to compare changes against.";

/// Where a run stands: what it waits for next.
#[derive(Clone, Copy, Debug, PartialEq, Eq, Structural)]
pub enum Stage {
    AwaitHistory,
    AwaitReadme,
    AwaitProject,
    AwaitCommits,
    AwaitDiffs,
    AwaitEdits,
    Finished,
}

/// A run: from the commits walked to the three summaries.
pub struct Pipeline {
    /// How many commits were asked for.
    pub requested: usize,
    /// The commits kept, head first.
    pub batch: Vec<WalkedCommit>,
    /// The project description, once it came.
    pub project: String,
    /// The commit summary, once it came.
    pub commits: String,
    pub stage: Stage,
}

/// What the caller hands back after doing what an action asked.
pub enum Event {
    /// The commits reachable from head, head first (at most the count asked for).
    History(Vec<WalkedCommit>),
    /// The README at head, if there is one.
    Readme(Option<String>),
    /// The endpoint's answer to the last request.
    Reply(Reply),
    /// The patch of each commit asked for, in the order asked.
    Diffs(Vec<String>),
    /// The caller's own step failed.
    Failed(PipelineError),
}

/// The three results of a run, in the order they are shown.
pub struct Report {
    pub requested: usize,
    pub project: String,
    pub commits: String,
    pub edits: String,
}

/// What the caller is to do next.
pub enum Action {
    /// Walk history from head, keeping at most this many commits.
    Walk(usize),
    /// Read the README at head.
    ReadReadme,
    /// Send this request to the endpoint.
    Send(PromptRequest),
    /// Compute the patch of each commit at these positions of the batch
    /// against its parent.
    ExtractDiffs(Vec<usize>),
    /// There are no commits: end successfully with no request made.
    NoCommits,
    /// Show the report and end successfully.
    Finish(Report),
    /// Show the error and end with failure.
    Abort(PipelineError),
}

/// The README text sent, or its placeholder.
pub open spec fn readme_text(r: Option<String>) -> Seq<char> {
    match r {
        Some(s) => s@,
        None => NO_README@,
    }
}

/// The text records of the commits of a batch, in order.
pub open spec fn commit_texts(batch: Seq<WalkedCommit>) -> Seq<Seq<char>> {
    batch.map_values(|c: WalkedCommit| commit_text(c.record))
}

/// The content of the commit-explanation request.
pub open spec fn commit_payload(batch: Seq<WalkedCommit>) -> Seq<char> {
    joined(commit_texts(batch), DELIMITER@)
}

/// The content of the edit-explanation request.
pub open spec fn diff_payload(diffs: Seq<String>) -> Seq<char> {
    joined(texts(diffs), DELIMITER@)
}

/// The run ends on error `e`.
pub open spec fn aborts(post: Pipeline, action: Action, e: PipelineError) -> bool {
    post.stage == Stage::Finished && action == Action::Abort(e)
}

/// The run ends with a report of these three texts.
pub open spec fn reports(
    pre: Pipeline,
    post: Pipeline,
    action: Action,
    project: Seq<char>,
    commits: Seq<char>,
    edits: Seq<char>,
) -> bool {
    &&& post.stage == Stage::Finished
    &&& action matches Action::Finish(rep)
    &&& rep.requested == pre.requested
    &&& rep.project@ == project
    &&& rep.commits@ == commits
    &&& rep.edits@ == edits
}

/// The run keeps what it has gathered.
pub open spec fn keeps(pre: Pipeline, post: Pipeline) -> bool {
    &&& post.requested == pre.requested
    &&& post.batch@ == pre.batch@
    &&& post.project@ == pre.project@
    &&& post.commits@ == pre.commits@
}

/// One step of a run: from `pre`, on `event`, the run moves to `post` and
/// asks for `action`. Any failure ends the run; so does an event that the
/// stage does not wait for.
pub open spec fn steps_to(pre: Pipeline, event: Event, post: Pipeline, action: Action) -> bool {
    match event {
        Event::Failed(e) => if pre.stage == Stage::Finished {
            aborts(post, action, PipelineError::OutOfOrder)
        } else {
            aborts(post, action, e)
        },
        Event::History(h) => if pre.stage == Stage::AwaitHistory {
            let n = if pre.requested < h@.len() { pre.requested as int } else { h@.len() as int };
            &&& post.requested == pre.requested
            &&& post.batch@ == h@.take(n)
            &&& if n == 0 {
                post.stage == Stage::Finished && action is NoCommits
            } else {
                post.stage == Stage::AwaitReadme && action is ReadReadme
            }
        } else {
            aborts(post, action, PipelineError::OutOfOrder)
        },
        Event::Readme(r) => if pre.stage == Stage::AwaitReadme {
            &&& keeps(pre, post)
            &&& post.stage == Stage::AwaitProject
            &&& action matches Action::Send(q)
            &&& is_request(q, PromptKind::ProjectDescription, readme_text(r))
        } else {
            aborts(post, action, PipelineError::OutOfOrder)
        },
        Event::Reply(rp) => if pre.stage == Stage::AwaitProject {
            match reply_summary(rp) {
                Ok(t) => {
                    &&& post.requested == pre.requested
                    &&& post.batch@ == pre.batch@
                    &&& post.project@ == t
                    &&& post.stage == Stage::AwaitCommits
                    &&& action matches Action::Send(q)
                    &&& is_request(q, PromptKind::CommitExplanation, commit_payload(pre.batch@))
                },
                Err(e) => aborts(post, action, PipelineError::Summary(e)),
            }
        } else if pre.stage == Stage::AwaitCommits {
            match reply_summary(rp) {
                Ok(t) => if pre.batch@.len() > 1 {
                    &&& post.requested == pre.requested
                    &&& post.batch@ == pre.batch@
                    &&& post.project@ == pre.project@
                    &&& post.commits@ == t
                    &&& post.stage == Stage::AwaitDiffs
                    &&& action matches Action::ExtractDiffs(ix)
                    &&& ix@ == single_parent_positions(parent_counts(pre.batch@))
                } else {
                    reports(pre, post, action, pre.project@, t, ONE_COMMIT_NOTICE@)
                },
                Err(e) => aborts(post, action, PipelineError::Summary(e)),
            }
        } else if pre.stage == Stage::AwaitEdits {
            match reply_summary(rp) {
                Ok(t) => reports(pre, post, action, pre.project@, pre.commits@, t),
                Err(e) => aborts(post, action, PipelineError::Summary(e)),
            }
        } else {
            aborts(post, action, PipelineError::OutOfOrder)
        },
        Event::Diffs(d) => if pre.stage == Stage::AwaitDiffs {
            &&& keeps(pre, post)
            &&& post.stage == Stage::AwaitEdits
            &&& action matches Action::Send(q)
            &&& is_request(q, PromptKind::EditExplanation, diff_payload(d@))
        } else {
            aborts(post, action, PipelineError::OutOfOrder)
        },
    }
}

/// A history with no commits, or a request for none, ends the run at once and
/// successfully: no request is sent then, nor on any later event.
pub proof fn lemma_empty_history_sends_nothing(
    pre: Pipeline,
    h: Vec<WalkedCommit>,
    post: Pipeline,
    action: Action,
    later: Event,
    last: Pipeline,
    last_action: Action,
)
    requires
        pre.stage == Stage::AwaitHistory,
        h@.len() == 0 || pre.requested == 0,
        steps_to(pre, Event::History(h), post, action),
        steps_to(post, later, last, last_action),
    ensures
        action is NoCommits,
        post.stage == Stage::Finished,
        post.batch@.len() == 0,
        last_action !is Send,
        last.stage == Stage::Finished,
{
}

/// When a single commit was walked, the commit summary ends the run: the
/// edit summary is the fixed notice and no third request is sent.
pub proof fn lemma_single_commit_needs_no_edit_request(
    pre: Pipeline,
    rp: Reply,
    post: Pipeline,
    action: Action,
)
    requires
        pre.stage == Stage::AwaitCommits,
        pre.batch@.len() <= 1,
        steps_to(pre, Event::Reply(rp), post, action),
    ensures
        action !is Send,
        post.stage == Stage::Finished,
        reply_summary(rp) is Ok ==> (action matches Action::Finish(rep) && rep.edits@ == ONE_COMMIT_NOTICE@),
{
}

/// The patches asked for name only commits of the batch with a single
/// parent, each once, and are never more than the commits walked.
pub proof fn lemma_diff_request_within_batch(
    pre: Pipeline,
    rp: Reply,
    post: Pipeline,
    ix: Vec<usize>,
)
    requires
        pre.stage == Stage::AwaitCommits,
        pre.batch@.len() <= usize::MAX,
        steps_to(pre, Event::Reply(rp), post, Action::ExtractDiffs(ix)),
    ensures
        ix@.len() <= post.batch@.len(),
        post.batch@ == pre.batch@,
        forall|k: int| 0 <= k < ix@.len() ==> ix@[k] < post.batch@.len() && post.batch@[ix@[k] as int].parent_count == 1,
        forall|a: int, b: int| 0 <= a < b < ix@.len() ==> ix@[a] < ix@[b],
{
    let counts = parent_counts(pre.batch@);
    lemma_single_parent_positions(counts);
    assert forall|k: int| 0 <= k < ix@.len() implies ix@[k] < post.batch@.len() && post.batch@[ix@[k] as int].parent_count == 1 by {
        let j = single_parent_positions(counts)[k];
        assert(counts[j as int] == 1);
    }
}

/// The text record of each commit of a batch, in order.
pub fn format_batch(batch: &Vec<WalkedCommit>) -> (r: Vec<String>)
    ensures
        texts(r@) == commit_texts(batch@),
{
    let mut r: Vec<String> = Vec::new();
    let mut i: usize = 0;
    while i < batch.len()
        invariant
            i <= batch.len(),
            r@.len() == i,
            texts(r@) =~= commit_texts(batch@).take(i as int),
        decreases batch.len() - i,
    {
        let t = format_commit(&batch[i].record);
        let ghost before = r@;
        r.push(t);
        assert(r@ == before.push(t));
        assert(t@ == commit_text(batch@[i as int].record));
        assert(texts(r@)[i as int] == t@);
        i = i + 1;
        assert(texts(r@) =~= commit_texts(batch@).take(i as int));
    }
    assert(commit_texts(batch@).take(i as int) =~= commit_texts(batch@));
    r
}

impl Pipeline {
    /// A run that will look at up to `requested` commits, and its first
    /// action: to walk history.
    pub fn new(requested: usize) -> (r: (Pipeline, Action))
        ensures
            r.0.requested == requested,
            r.0.stage == Stage::AwaitHistory,
            r.0.batch@.len() == 0,
            r.1 == Action::Walk(requested),
    {
        let p = Pipeline {
            requested,
            batch: Vec::new(),
            project: String::new(),
            commits: String::new(),
            stage: Stage::AwaitHistory,
        };
        (p, Action::Walk(requested))
    }

    fn abort(&mut self, e: PipelineError) -> (r: Action)
        ensures
            aborts(*final(self), r, e),
    {
        self.stage = Stage::Finished;
        Action::Abort(e)
    }

    /// Moves the run on by one event and says what to do next.
    pub fn step(&mut self, event: Event) -> (r: Action)
        ensures
            steps_to(*old(self), event, *final(self), r),
    {
        let ghost ev = event;
        match event {
            Event::Failed(e) => {
                if self.stage == Stage::Finished {
                    self.abort(PipelineError::OutOfOrder)
                } else {
                    self.abort(e)
                }
            },
            Event::History(h) => {
                if self.stage != Stage::AwaitHistory {
                    return self.abort(PipelineError::OutOfOrder);
                }
                self.batch = take_batch(h, self.requested);
                if self.batch.len() == 0 {
                    self.stage = Stage::Finished;
                    Action::NoCommits
                } else {
                    self.stage = Stage::AwaitReadme;
                    Action::ReadReadme
                }
            },
            Event::Readme(r) => {
                if self.stage != Stage::AwaitReadme {
                    return self.abort(PipelineError::OutOfOrder);
                }
                let text = match r {
                    Some(s) => s,
                    None => String::from_str(NO_README),
                };
                self.stage = Stage::AwaitProject;
                Action::Send(compose(PromptKind::ProjectDescription, text))
            },
            Event::Reply(rp) => {
                if self.stage != Stage::AwaitProject && self.stage != Stage::AwaitCommits
                    && self.stage != Stage::AwaitEdits {
                    return self.abort(PipelineError::OutOfOrder);
                }
                let t = match summary_of(rp) {
                    Ok(t) => t,
                    Err(e) => {
                        return self.abort(PipelineError::Summary(e));
                    },
                };
                if self.stage == Stage::AwaitProject {
                    self.project = t;
                    self.stage = Stage::AwaitCommits;
                    let payload = join_texts(&format_batch(&self.batch), DELIMITER);
                    Action::Send(compose(PromptKind::CommitExplanation, payload))
                } else if self.stage == Stage::AwaitCommits {
                    if self.batch.len() > 1 {
                        self.commits = t;
                        self.stage = Stage::AwaitDiffs;
                        Action::ExtractDiffs(diff_targets(&self.batch))
                    } else {
                        self.stage = Stage::Finished;
                        Action::Finish(Report {
                            requested: self.requested,
                            project: self.project.clone(),
                            commits: t,
                            edits: String::from_str(ONE_COMMIT_NOTICE),
                        })
                    }
                } else {
                    self.stage = Stage::Finished;
                    Action::Finish(Report {
                        requested: self.requested,
                        project: self.project.clone(),
                        commits: self.commits.clone(),
                        edits: t,
                    })
                }
            },
            Event::Diffs(d) => {
                if self.stage != Stage::AwaitDiffs {
                    return self.abort(PipelineError::OutOfOrder);
                }
                self.stage = Stage::AwaitEdits;
                let payload = join_texts(&d, DELIMITER);
                Action::Send(compose(PromptKind::EditExplanation, payload))
            },
        }
    }
}

} // verus!
