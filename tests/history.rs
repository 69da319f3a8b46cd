use wtf::{CommitRecord, WalkedCommit, batch_len, diff_targets, take_batch};

fn walked(id: &str, parents: usize) -> WalkedCommit {
    WalkedCommit {
        record: CommitRecord {
            id: id.to_string(),
            author: Some("Ann".to_string()),
            time: 100,
            message: Some("m".to_string()),
        },
        parent_count: parents,
    }
}

fn ids(batch: &[WalkedCommit]) -> Vec<String> {
    batch.iter().map(|c| c.record.id.clone()).collect()
}

#[test]
fn batch_len_is_the_smaller_bound() {
    assert_eq!(batch_len(5, 1), 1);
    assert_eq!(batch_len(3, 10), 3);
    assert_eq!(batch_len(0, 10), 0);
    assert_eq!(batch_len(7, 0), 0);
    assert_eq!(batch_len(usize::MAX, usize::MAX), usize::MAX);
}

#[test]
fn take_batch_keeps_head_first() {
    let history: Vec<WalkedCommit> = (0..10).map(|i| walked(&format!("c{}", i), 1)).collect();
    let batch = take_batch(history, 3);
    assert_eq!(ids(&batch), vec!["c0", "c1", "c2"]);
}

#[test]
fn take_batch_with_fewer_commits_keeps_all() {
    let batch = take_batch(vec![walked("only", 0)], 5);
    assert_eq!(ids(&batch), vec!["only"]);
    let none = take_batch(Vec::new(), 5);
    assert!(none.is_empty());
    let zero = take_batch(vec![walked("a", 1)], 0);
    assert!(zero.is_empty());
}

#[test]
fn diff_targets_skip_roots_and_merges() {
    let batch = vec![walked("a", 1), walked("merge", 2), walked("b", 1), walked("root", 0)];
    assert_eq!(diff_targets(&batch), vec![0, 2]);
}

#[test]
fn diff_targets_of_empty_batch() {
    assert!(diff_targets(&Vec::new()).is_empty());
    assert!(diff_targets(&vec![walked("root", 0)]).is_empty());
    assert_eq!(diff_targets(&vec![walked("m", 3), walked("n", 1)]), vec![1]);
}
