//! Splitting a sequence into maximal runs of consecutive elements with equal keys,
//! as `Itertools::chunk_by` does.
use vstd::prelude::*;

verus! {

/// `runs` splits `keys` into its maximal runs of equal, consecutive keys:
/// each run is a non-empty half-open range of positions, the runs follow each
/// other without gaps from the first position to the last, all keys of a run
/// are equal, and two neighbouring runs have different keys.
pub open spec fn is_runs_of(keys: Seq<i64>, runs: Seq<(usize, usize)>) -> bool {
    &&& (runs.len() == 0 <==> keys.len() == 0)
    &&& runs.len() > 0 ==> runs[0].0 == 0 && runs.last().1 == keys.len()
    &&& forall|r: int| 0 <= r < runs.len() ==> #[trigger] runs[r].0 < runs[r].1 <= keys.len()
    &&& forall|r: int| 0 <= r < runs.len() - 1 ==> #[trigger] runs[r].1 == runs[r + 1].0
    &&& forall|r: int, i: int|
        0 <= r < runs.len() && runs[r].0 <= i < runs[r].1 ==> #[trigger] keys[i] == #[trigger] keys[runs[r].0 as int]
    &&& forall|r: int| 0 <= r < runs.len() - 1 ==> #[trigger] keys[runs[r].1 - 1] != keys[runs[r + 1].0 as int]
}

/// The maximal runs of equal, consecutive keys, as ranges of positions.
pub fn runs_of_equal_keys(keys: &[i64]) -> (runs: Vec<(usize, usize)>)
    ensures
        is_runs_of(keys@, runs@),
{
    let mut runs: Vec<(usize, usize)> = Vec::new();
    if keys.len() == 0 {
        return runs;
    }
    let mut start: usize = 0;
    let mut i: usize = 1;
    while i < keys.len()
        invariant
            0 <= start < i <= keys@.len(),
            runs@.len() == 0 ==> start == 0,
            runs@.len() > 0 ==> runs@[0].0 == 0 && runs@.last().1 == start,
            forall|r: int| 0 <= r < runs@.len() ==> #[trigger] runs@[r].0 < runs@[r].1 <= keys@.len(),
            forall|r: int| 0 <= r < runs@.len() - 1 ==> #[trigger] runs@[r].1 == runs@[r + 1].0,
            forall|r: int, j: int|
                0 <= r < runs@.len() && runs@[r].0 <= j < runs@[r].1 ==> #[trigger] keys@[j] == #[trigger] keys@[runs@[r].0 as int],
            forall|r: int| 0 <= r < runs@.len() - 1 ==> #[trigger] keys@[runs@[r].1 - 1] != keys@[runs@[r + 1].0 as int],
            runs@.len() > 0 ==> keys@[start - 1] != keys@[start as int],
            forall|j: int| start <= j < i ==> keys@[j] == keys@[start as int],
        decreases keys@.len() - i,
    {
        if keys[i] != keys[start] {
            let ghost before = runs@;
            runs.push((start, i));
            assert(runs@[runs@.len() - 1] == (start, i));
            assert forall|r: int, j: int|
                0 <= r < runs@.len() && runs@[r].0 <= j < runs@[r].1 implies #[trigger] keys@[j] == #[trigger] keys@[runs@[r].0 as int] by {
                if r < before.len() {
                    assert(runs@[r] == before[r]);
                }
            }
            assert forall|r: int| 0 <= r < runs@.len() - 1 implies #[trigger] keys@[runs@[r].1 - 1] != keys@[runs@[r + 1].0 as int] by {
                if r < before.len() - 1 {
                    assert(runs@[r] == before[r] && runs@[r + 1] == before[r + 1]);
                } else {
                    assert(runs@[r] == before[r]);
                    assert(runs@[r + 1] == (start, i));
                }
            }
            start = i;
        }
        i = i + 1;
    }
    let ghost before = runs@;
    runs.push((start, keys.len()));
    assert forall|r: int, j: int|
        0 <= r < runs@.len() && runs@[r].0 <= j < runs@[r].1 implies #[trigger] keys@[j] == #[trigger] keys@[runs@[r].0 as int] by {
        if r < before.len() {
            assert(runs@[r] == before[r]);
        }
    }
    assert forall|r: int| 0 <= r < runs@.len() - 1 implies #[trigger] keys@[runs@[r].1 - 1] != keys@[runs@[r + 1].0 as int] by {
        if r < before.len() - 1 {
            assert(runs@[r] == before[r] && runs@[r + 1] == before[r + 1]);
        } else {
            assert(runs@[r] == before[r]);
        }
    }
    runs
}

/// Every position lies in some run.
pub proof fn lemma_runs_cover(keys: Seq<i64>, runs: Seq<(usize, usize)>, i: int)
    requires
        is_runs_of(keys, runs),
        0 <= i < keys.len(),
    ensures
        exists|r: int| 0 <= r < runs.len() && #[trigger] runs[r].0 <= i < runs[r].1,
{
    lemma_find_run(runs, i, runs.len() - 1);
}

proof fn lemma_find_run(runs: Seq<(usize, usize)>, i: int, hi: int)
    requires
        0 <= hi < runs.len(),
        runs[0].0 == 0,
        0 <= i < runs[hi].1,
        forall|r: int| 0 <= r < runs.len() - 1 ==> #[trigger] runs[r].1 == runs[r + 1].0,
    ensures
        exists|r: int| 0 <= r < runs.len() && #[trigger] runs[r].0 <= i < runs[r].1,
    decreases hi,
{
    if runs[hi].0 <= i {
        assert(runs[hi].0 <= i < runs[hi].1);
    } else {
        assert(runs[hi - 1].1 == runs[hi].0);
        lemma_find_run(runs, i, hi - 1);
    }
}

/// A later run starts no earlier than an earlier run ends.
proof fn lemma_runs_ordered(keys: Seq<i64>, runs: Seq<(usize, usize)>, g: int, h: int)
    requires
        is_runs_of(keys, runs),
        0 <= g < h < runs.len(),
    ensures
        runs[g].1 <= runs[h].0,
    decreases h - g,
{
    if g + 1 < h {
        lemma_runs_ordered(keys, runs, g + 1, h);
        assert(runs[g].1 == runs[g + 1].0);
        assert(runs[g + 1].0 < runs[g + 1].1);
    } else {
        assert(runs[g].1 == runs[g + 1].0);
    }
}

/// Where the keys never increase, each run has a smaller key than every run before it.
pub proof fn lemma_runs_decrease(keys: Seq<i64>, runs: Seq<(usize, usize)>)
    requires
        is_runs_of(keys, runs),
        forall|a: int, b: int| 0 <= a <= b < keys.len() ==> #[trigger] keys[b] <= #[trigger] keys[a],
    ensures
        forall|g: int, h: int| 0 <= g < h < runs.len() ==> keys[runs[h].0 as int] < keys[runs[g].0 as int],
{
    assert forall|g: int, h: int| 0 <= g < h < runs.len() implies keys[runs[h].0 as int] < keys[runs[g].0 as int] by {
        let last = runs[g].1 - 1;
        assert(runs[g].0 < runs[g].1 <= keys.len());
        assert(runs[g].0 <= last < runs[g].1);
        assert(keys[last] == keys[runs[g].0 as int]);
        assert(runs[g].1 == runs[g + 1].0);
        assert(keys[last] != keys[runs[g + 1].0 as int]);
        assert(runs[h].0 < runs[h].1 <= keys.len());
        if g + 1 < h {
            lemma_runs_ordered(keys, runs, g + 1, h);
            assert(runs[g + 1].0 < runs[g + 1].1);
        }
        assert(keys[runs[h].0 as int] <= keys[runs[g + 1].0 as int]);
        assert(keys[runs[g + 1].0 as int] <= keys[last]);
    }
}

} // verus!
