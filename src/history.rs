use vstd::prelude::*;
use crate::commit::CommitRecord;

verus! {

/// A commit met on the walk from head, with the number of its parents.
pub struct WalkedCommit {
    pub record: CommitRecord,
    pub parent_count: usize,
}

/// The parent counts of a sequence of walked commits, in order.
pub open spec fn parent_counts(batch: Seq<WalkedCommit>) -> Seq<usize> {
    batch.map_values(|c: WalkedCommit| c.parent_count)
}

/// The positions, in increasing order, of the commits that have exactly one
/// parent: those whose change against that parent is described.
pub open spec fn single_parent_positions(counts: Seq<usize>) -> Seq<usize>
    decreases counts.len(),
{
    if counts.len() == 0 {
        seq![]
    } else {
        let before = single_parent_positions(counts.drop_last());
        if counts.last() == 1 {
            before.push((counts.len() - 1) as usize)
        } else {
            before
        }
    }
}

/// How many commits a walk keeps: the requested count, or all that are there
/// when there are fewer.
pub fn batch_len(requested: usize, available: usize) -> (r: usize)
    ensures
        r == if requested < available { requested } else { available },
{
    if requested < available { requested } else { available }
}

/// Keeps the first `requested` commits of a head-first history, or all of
/// them when there are fewer.
pub fn take_batch(history: Vec<WalkedCommit>, requested: usize) -> (r: Vec<WalkedCommit>)
    ensures
        r.len() == if requested < history.len() { requested } else { history.len() },
        r@ == history@.take(r.len() as int),
{
    let n = batch_len(requested, history.len());
    let mut batch = history;
    batch.truncate(n);
    assert(batch@ =~= history@.take(n as int));
    batch
}

/// The positions in `batch` of the commits with exactly one parent, in order.
/// Root commits and merges are left out.
pub fn diff_targets(batch: &Vec<WalkedCommit>) -> (r: Vec<usize>)
    ensures
        r@ == single_parent_positions(parent_counts(batch@)),
{
    let ghost counts = parent_counts(batch@);
    let mut r: Vec<usize> = Vec::new();
    let mut i: usize = 0;
    while i < batch.len()
        invariant
            i <= batch.len(),
            counts == parent_counts(batch@),
            r@ == single_parent_positions(counts.take(i as int)),
        decreases batch.len() - i,
    {
        assert(counts.take(i + 1).drop_last() =~= counts.take(i as int));
        if batch[i].parent_count == 1 {
            r.push(i);
        }
        i = i + 1;
    }
    assert(counts.take(i as int) =~= counts);
    r
}

/// Each commit of a batch is described at most once, and exactly when it has
/// a single parent: the positions are increasing, each names a commit with
/// one parent, every such commit is named, and there are no more of them than
/// commits.
pub proof fn lemma_single_parent_positions(counts: Seq<usize>)
    requires
        counts.len() <= usize::MAX,
    ensures
        single_parent_positions(counts).len() <= counts.len(),
        forall|k: int| 0 <= k < single_parent_positions(counts).len() ==> {
            let j = #[trigger] single_parent_positions(counts)[k];
            j < counts.len() && counts[j as int] == 1
        },
        forall|a: int, b: int| 0 <= a < b < single_parent_positions(counts).len()
            ==> single_parent_positions(counts)[a] < single_parent_positions(counts)[b],
        forall|j: int| 0 <= j < counts.len() && counts[j] == 1
            ==> #[trigger] single_parent_positions(counts).contains(j as usize),
    decreases counts.len(),
{
    if counts.len() > 0 {
        let prefix = counts.drop_last();
        lemma_single_parent_positions(prefix);
        let before = single_parent_positions(prefix);
        let all = single_parent_positions(counts);
        assert forall|k: int| 0 <= k < before.len() implies all[k] == before[k] by {}
        assert forall|j: int| 0 <= j < counts.len() && counts[j] == 1 implies #[trigger] all.contains(j as usize) by {
            if j < counts.len() - 1 {
                assert(prefix[j] == counts[j]);
                assert(before.contains(j as usize));
                let k = choose|k: int| 0 <= k < before.len() && before[k] == j as usize;
                assert(all[k] == j as usize);
            } else {
                assert(all[all.len() - 1] == j as usize);
            }
        }
    }
}

} // verus!
