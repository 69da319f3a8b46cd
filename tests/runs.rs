use wtf::{
    Action, CommitRecord, DELIMITER, EDIT_INSTRUCTION, Event, NO_README, ONE_COMMIT_NOTICE,
    PROJECT_INSTRUCTION, Pipeline, PipelineError, Reply, Stage, SummaryError, WalkedCommit,
    format_commit,
};

fn walked(id: &str, parents: usize) -> WalkedCommit {
    WalkedCommit {
        record: CommitRecord {
            id: id.to_string(),
            author: Some("Ann".to_string()),
            time: 1000,
            message: Some(format!("change {}", id)),
        },
        parent_count: parents,
    }
}

fn reply(text: &str) -> Event {
    Event::Reply(Reply::Choices(vec![text.to_string()]))
}

fn sent(a: &Action) -> Option<(String, String)> {
    match a {
        Action::Send(q) => Some((q.system.clone(), q.user.clone())),
        _ => None,
    }
}

#[test]
fn empty_repository_sends_nothing() {
    let (mut p, first) = Pipeline::new(5);
    assert!(matches!(first, Action::Walk(5)));
    let a = p.step(Event::History(Vec::new()));
    assert!(matches!(a, Action::NoCommits));
    assert_eq!(p.stage, Stage::Finished);
    let late = p.step(reply("late"));
    assert!(matches!(late, Action::Abort(PipelineError::OutOfOrder)));
}

#[test]
fn zero_requested_sends_nothing() {
    let (mut p, _) = Pipeline::new(0);
    let a = p.step(Event::History(vec![walked("a", 1)]));
    assert!(matches!(a, Action::NoCommits));
}

#[test]
fn single_commit_run_has_two_requests() {
    let (mut p, _) = Pipeline::new(5);
    let a = p.step(Event::History(vec![walked("root", 0)]));
    assert!(matches!(a, Action::ReadReadme));
    assert_eq!(p.batch.len(), 1);
    let a = p.step(Event::Readme(None));
    assert_eq!(sent(&a), Some((PROJECT_INSTRUCTION.to_string(), NO_README.to_string())));
    let a = p.step(reply("A tool."));
    let (_, user) = sent(&a).unwrap();
    assert_eq!(user, format_commit(&walked("root", 0).record));
    let a = p.step(reply("One commit."));
    match a {
        Action::Finish(rep) => {
            assert_eq!(rep.requested, 5);
            assert_eq!(rep.project, "A tool.");
            assert_eq!(rep.commits, "One commit.");
            assert_eq!(rep.edits, ONE_COMMIT_NOTICE);
        },
        _ => panic!("expected the report"),
    }
}

#[test]
fn ten_commits_three_requested() {
    let history: Vec<WalkedCommit> = (0..10)
        .map(|i| walked(&format!("c{}", i), if i == 1 { 2 } else { 1 }))
        .collect();
    let (mut p, _) = Pipeline::new(3);
    p.step(Event::History(history));
    assert_eq!(p.batch.len(), 3);
    let a = p.step(Event::Readme(Some("# Tool\n".to_string())));
    assert_eq!(sent(&a).unwrap().1, "# Tool\n");
    let a = p.step(reply("P"));
    let expected = format!(
        "{}{}{}{}{}",
        format_commit(&walked("c0", 1).record),
        DELIMITER,
        format_commit(&walked("c1", 2).record),
        DELIMITER,
        format_commit(&walked("c2", 1).record)
    );
    assert_eq!(sent(&a).unwrap().1, expected);
    let a = p.step(reply("C"));
    match a {
        Action::ExtractDiffs(ix) => assert_eq!(ix, vec![0, 2]),
        _ => panic!("expected a diff request"),
    }
    let a = p.step(Event::Diffs(vec!["+a\n".to_string(), "-b\n".to_string()]));
    assert_eq!(sent(&a), Some((EDIT_INSTRUCTION.to_string(), "+a\n\n\n---\n\n-b\n".to_string())));
    let a = p.step(reply("E"));
    match a {
        Action::Finish(rep) => {
            assert_eq!((rep.project.as_str(), rep.commits.as_str(), rep.edits.as_str()), ("P", "C", "E"));
            assert_eq!(rep.requested, 3);
        },
        _ => panic!("expected the report"),
    }
}

#[test]
fn endpoint_error_aborts_the_run() {
    let (mut p, _) = Pipeline::new(2);
    p.step(Event::History(vec![walked("a", 1), walked("b", 0)]));
    p.step(Event::Readme(None));
    let a = p.step(Event::Reply(Reply::Rejected { status: 401, body: "denied".to_string() }));
    match a {
        Action::Abort(e) => assert_eq!(
            e,
            PipelineError::Summary(SummaryError::Endpoint { status: 401, body: "denied".to_string() })
        ),
        _ => panic!("expected an abort"),
    }
    assert_eq!(p.stage, Stage::Finished);
}

#[test]
fn empty_choices_abort_the_run() {
    let (mut p, _) = Pipeline::new(2);
    p.step(Event::History(vec![walked("a", 1)]));
    p.step(Event::Readme(None));
    let a = p.step(Event::Reply(Reply::Choices(Vec::new())));
    assert!(matches!(a, Action::Abort(PipelineError::Summary(SummaryError::EmptyChoices))));
}

#[test]
fn failures_and_stray_events_abort() {
    let (mut p, _) = Pipeline::new(2);
    let a = p.step(Event::Failed(PipelineError::RepositoryUnavailable("no repo".to_string())));
    assert!(matches!(a, Action::Abort(PipelineError::RepositoryUnavailable(_))));
    let (mut q, _) = Pipeline::new(2);
    let b = q.step(Event::Readme(None));
    assert!(matches!(b, Action::Abort(PipelineError::OutOfOrder)));
    let (mut r, _) = Pipeline::new(2);
    let c = r.step(Event::Diffs(Vec::new()));
    assert!(matches!(c, Action::Abort(PipelineError::OutOfOrder)));
}
