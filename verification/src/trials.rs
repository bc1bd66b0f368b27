//! The plan of the trial blocks: which video each block shows, and whether it
//! is the lie or the truth of that video.
//!
//! Videos are drawn from a pool without replacement. The two buckets, lie and
//! truth, are filled as evenly as the number of blocks allows: a draw for a
//! bucket that is used up falls to the other.

use vstd::prelude::*;
use vstd::string::*;
use crate::chance::{choose_index, draw_up_to};

verus! {

/// The video and the bucket of one block.
#[derive(Clone, Copy, PartialEq, Eq, Debug, Structural)]
pub struct TrialAssignment {
    /// The id of the video's folder.
    pub video: u32,
    /// Zero for the lie, one for the truth.
    pub bucket: usize,
}

/// How many blocks each bucket still has to get.
#[derive(Clone, Copy, PartialEq, Eq, Debug, Structural)]
pub struct Split {
    pub lie: usize,
    pub truth: usize,
}

/// One pair of random draws: a position in the pool and a bucket.
pub struct Draw {
    pub index: int,
    pub bucket: int,
}

/// The state of a plan in the making.
pub struct Plan {
    /// The videos not yet used.
    pub pool: Seq<u32>,
    pub remaining: Split,
    /// The blocks assigned so far.
    pub trials: Seq<TrialAssignment>,
}

/// The split of `num` blocks into two buckets of equal size; the odd one goes
/// to the lie.
pub open spec fn even_split(num: usize) -> Split {
    Split { lie: (num / 2 + num % 2) as usize, truth: (num / 2) as usize }
}

/// The bucket that a draw of `drawn` settles on: the drawn one, unless it is
/// used up.
pub open spec fn settled_bucket(remaining: Split, drawn: int) -> int {
    if drawn == 0 {
        if remaining.lie > 0 {
            0
        } else {
            1
        }
    } else {
        if remaining.truth > 0 {
            1
        } else {
            0
        }
    }
}

/// `remaining` with one block less in `bucket`.
pub open spec fn taken_from(remaining: Split, bucket: int) -> Split {
    if bucket == 0 {
        Split { lie: (remaining.lie - 1) as usize, ..remaining }
    } else {
        Split { truth: (remaining.truth - 1) as usize, ..remaining }
    }
}

/// `pool` without the item at `index`: the last item takes its place.
pub open spec fn pool_without(pool: Seq<u32>, index: int) -> Seq<u32> {
    pool.update(index, pool.last()).drop_last()
}

impl Plan {
    /// The plan before the first draw.
    pub open spec fn start(ids: Seq<u32>, split: Split) -> Plan {
        Plan { pool: ids, remaining: split, trials: Seq::empty() }
    }

    /// Whether `draw` can be applied: it points into the pool, names a
    /// bucket, and some bucket has a block left.
    pub open spec fn admits(self, draw: Draw) -> bool {
        &&& 0 <= draw.index < self.pool.len()
        &&& 0 <= draw.bucket <= 1
        &&& self.remaining.lie + self.remaining.truth > 0
    }

    /// The plan after one more block is assigned by `draw`.
    pub open spec fn assigned(self, draw: Draw) -> Plan {
        let bucket = settled_bucket(self.remaining, draw.bucket);
        Plan {
            pool: pool_without(self.pool, draw.index),
            remaining: taken_from(self.remaining, bucket),
            trials: self.trials.push(
                TrialAssignment { video: self.pool[draw.index], bucket: bucket as usize },
            ),
        }
    }

    /// The plan after the blocks assigned by `draws`, in order.
    pub open spec fn drawn(self, draws: Seq<Draw>) -> Plan
        decreases draws.len(),
    {
        if draws.len() == 0 {
            self
        } else {
            self.drawn(draws.drop_last()).assigned(draws.last())
        }
    }

    /// Whether each of `draws` can be applied in its turn.
    pub open spec fn admits_all(self, draws: Seq<Draw>) -> bool
        decreases draws.len(),
    {
        draws.len() == 0 || (self.admits_all(draws.drop_last()) && self.drawn(
            draws.drop_last(),
        ).admits(draws.last()))
    }
}

/// How many of `trials` are in `bucket`.
pub open spec fn count_in_bucket(trials: Seq<TrialAssignment>, bucket: int) -> nat
    decreases trials.len(),
{
    if trials.len() == 0 {
        0
    } else {
        count_in_bucket(trials.drop_last(), bucket) + if trials.last().bucket == bucket {
            1nat
        } else {
            0nat
        }
    }
}

/// The split of `num` blocks into two buckets.
pub fn split_evenly(num: usize) -> (split: Split)
    ensures
        split == even_split(num),
        split.lie + split.truth == num,
{
    Split { lie: num / 2 + num % 2, truth: num / 2 }
}

/// Assigns one block: takes the video at `index` out of `pool` and one block
/// off the bucket that `bucket` settles on.
pub fn assign_trial(pool: &mut Vec<u32>, remaining: &mut Split, index: usize, bucket: usize) -> (trial:
    TrialAssignment)
    requires
        index < old(pool).len(),
        bucket <= 1,
        old(remaining).lie + old(remaining).truth > 0,
    ensures
        trial.video == old(pool)@[index as int],
        trial.bucket == settled_bucket(*old(remaining), bucket as int),
        final(pool)@ == pool_without(old(pool)@, index as int),
        *final(remaining) == taken_from(*old(remaining), trial.bucket as int),
{
    let video = pool.swap_remove(index);
    let mut settled = bucket;
    if settled == 0 {
        if remaining.lie == 0 {
            settled = 1;
        }
    } else {
        if remaining.truth == 0 {
            settled = 0;
        }
    }
    if settled == 0 {
        remaining.lie = remaining.lie - 1;
    } else {
        remaining.truth = remaining.truth - 1;
    }
    TrialAssignment { video, bucket: settled }
}

/// The plan of `draws.len()` blocks over the videos `ids`, as the pairs of
/// `draws` decide it: each pair holds a position in the pool and a bucket.
/// There is no plan if one of the pairs points outside what is left of the
/// pool or names no bucket.
pub fn plan_trials(ids: &Vec<u32>, draws: &Vec<(usize, usize)>) -> (trials: Option<
    Vec<TrialAssignment>,
>)
    ensures
        trials is Some <==> Plan::start(ids@, even_split(draws.len())).admits_all(
            draws_of(draws@),
        ),
        trials matches Some(t) ==> t@ == Plan::start(ids@, even_split(draws.len())).drawn(
            draws_of(draws@),
        ).trials,
{
    let mut pool = copy_ids(ids);
    let mut remaining = split_evenly(draws.len());
    let mut trials: Vec<TrialAssignment> = Vec::new();
    let ghost start = Plan::start(ids@, even_split(draws.len()));
    let ghost all = draws_of(draws@);
    let mut i: usize = 0;
    while i < draws.len()
        invariant
            i <= draws.len(),
            all == draws_of(draws@),
            all.len() == draws.len(),
            start == Plan::start(ids@, even_split(draws.len())),
            start.admits_all(all.take(i as int)),
            start.drawn(all.take(i as int)) == (Plan {
                pool: pool@,
                remaining,
                trials: trials@,
            }),
        decreases draws.len() - i,
    {
        let (index, bucket) = draws[i];
        proof {
            assert(all.take(i as int + 1).drop_last() =~= all.take(i as int));
            assert(all.take(i as int + 1).last() == all[i as int]);
            assert(all[i as int] == Draw { index: index as int, bucket: bucket as int });
            if start.admits_all(all) {
                lemma_admits_prefix(start, all, i as int + 1);
                assert(start.drawn(all.take(i as int)).admits(all[i as int]));
            }
        }
        if index >= pool.len() || bucket > 1 || (remaining.lie == 0 && remaining.truth == 0) {
            return None;
        }
        let trial = assign_trial(&mut pool, &mut remaining, index, bucket);
        trials.push(trial);
        i = i + 1;
    }
    assert(all.take(draws.len() as int) =~= all);
    Some(trials)
}

/// The draws that the pairs of `pairs` stand for.
pub open spec fn draws_of(pairs: Seq<(usize, usize)>) -> Seq<Draw> {
    Seq::new(pairs.len(), |i: int| Draw { index: pairs[i].0 as int, bucket: pairs[i].1 as int })
}

/// Whether `trials` is the plan of `num` blocks over the videos `ids` that
/// the draws of `draws` decide.
pub open spec fn results_from(
    ids: Seq<u32>,
    num: usize,
    draws: Seq<Draw>,
    trials: Seq<TrialAssignment>,
) -> bool {
    &&& draws.len() == num
    &&& Plan::start(ids, even_split(num)).admits_all(draws)
    &&& Plan::start(ids, even_split(num)).drawn(draws).trials == trials
}

/// A plan of `num` blocks over the videos `ids`, drawn at random: the plan
/// that some sequence of draws decides.
pub fn draw_trials(ids: &Vec<u32>, num: usize) -> (trials: Vec<TrialAssignment>)
    requires
        num <= ids.len(),
    ensures
        exists|draws: Seq<Draw>| results_from(ids@, num, draws, trials@),
{
    let mut pool = copy_ids(ids);
    let mut remaining = split_evenly(num);
    let mut trials: Vec<TrialAssignment> = Vec::new();
    let ghost start = Plan::start(ids@, even_split(num));
    let ghost mut draws: Seq<Draw> = Seq::empty();
    let mut i: usize = 0;
    while i < num
        invariant
            i <= num <= ids.len(),
            draws.len() == i,
            pool.len() == ids.len() - i,
            remaining.lie + remaining.truth == num - i,
            start.admits_all(draws),
            start.drawn(draws) == (Plan { pool: pool@, remaining, trials: trials@ }),
        decreases num - i,
    {
        let index = choose_index(pool.len()).unwrap();
        let bucket = draw_up_to(1);
        let ghost draw = Draw { index: index as int, bucket: bucket as int };
        proof {
            assert(draws.push(draw).drop_last() =~= draws);
            draws = draws.push(draw);
        }
        let trial = assign_trial(&mut pool, &mut remaining, index, bucket);
        trials.push(trial);
        i = i + 1;
    }
    assert(results_from(ids@, num, draws, trials@));
    trials
}

/// A copy of `ids`.
fn copy_ids(ids: &Vec<u32>) -> (copy: Vec<u32>)
    ensures
        copy@ == ids@,
{
    let mut copy: Vec<u32> = Vec::new();
    let mut i: usize = 0;
    while i < ids.len()
        invariant
            i <= ids.len(),
            copy@ == ids@.take(i as int),
        decreases ids.len() - i,
    {
        copy.push(ids[i]);
        i = i + 1;
        assert(copy@ =~= ids@.take(i as int));
    }
    assert(ids@.take(ids@.len() as int) =~= ids@);
    copy
}

/// If all of `draws` can be applied, so can the first `k` of them.
pub proof fn lemma_admits_prefix(plan: Plan, draws: Seq<Draw>, k: int)
    requires
        plan.admits_all(draws),
        0 <= k <= draws.len(),
    ensures
        plan.admits_all(draws.take(k)),
    decreases draws.len(),
{
    if k == draws.len() {
        assert(draws.take(k) =~= draws);
    } else {
        lemma_admits_prefix(plan, draws.drop_last(), k);
        assert(draws.drop_last().take(k) =~= draws.take(k));
    }
}

/// How often the video `video` occurs in `pool`.
pub open spec fn occurrences(pool: Seq<u32>, video: u32) -> nat
    decreases pool.len(),
{
    if pool.len() == 0 {
        0
    } else {
        occurrences(pool.drop_last(), video) + if pool.last() == video {
            1nat
        } else {
            0nat
        }
    }
}

/// How many of `trials` show the video `video`.
pub open spec fn shown_times(trials: Seq<TrialAssignment>, video: u32) -> nat
    decreases trials.len(),
{
    if trials.len() == 0 {
        0
    } else {
        shown_times(trials.drop_last(), video) + if trials.last().video == video {
            1nat
        } else {
            0nat
        }
    }
}

proof fn lemma_occurrences_update(pool: Seq<u32>, index: int, value: u32, video: u32)
    requires
        0 <= index < pool.len(),
    ensures
        occurrences(pool.update(index, value), video) + (if pool[index] == video {
            1nat
        } else {
            0nat
        }) == occurrences(pool, video) + (if value == video {
            1nat
        } else {
            0nat
        }),
    decreases pool.len(),
{
    let changed = pool.update(index, value);
    if index == pool.len() - 1 {
        assert(changed.drop_last() =~= pool.drop_last());
    } else {
        lemma_occurrences_update(pool.drop_last(), index, value, video);
        assert(changed.drop_last() =~= pool.drop_last().update(index, value));
    }
}

/// Taking an item out of the pool takes away one occurrence of its video and
/// none of any other.
pub proof fn lemma_pool_without(pool: Seq<u32>, index: int, video: u32)
    requires
        0 <= index < pool.len(),
    ensures
        pool_without(pool, index).len() == pool.len() - 1,
        occurrences(pool_without(pool, index), video) + (if pool[index] == video {
            1nat
        } else {
            0nat
        }) == occurrences(pool, video),
{
    lemma_occurrences_update(pool, index, pool.last(), video);
    assert(pool.update(index, pool.last()).last() == pool.last());
}

/// What every sequence of draws keeps: the blocks assigned and the blocks
/// left add up to the split, bucket by bucket, and the videos shown and the
/// videos left add up to the pool, video by video.
pub proof fn lemma_plan_keeps_account(ids: Seq<u32>, split: Split, draws: Seq<Draw>, video: u32)
    requires
        Plan::start(ids, split).admits_all(draws),
    ensures
        ({
            let plan = Plan::start(ids, split).drawn(draws);
            &&& plan.trials.len() == draws.len()
            &&& plan.pool.len() + draws.len() == ids.len()
            &&& count_in_bucket(plan.trials, 0) + plan.remaining.lie == split.lie
            &&& count_in_bucket(plan.trials, 1) + plan.remaining.truth == split.truth
            &&& shown_times(plan.trials, video) + occurrences(plan.pool, video) == occurrences(
                ids,
                video,
            )
            &&& forall|k: int| 0 <= k < plan.trials.len() ==> 0 <= #[trigger] plan.trials[k].bucket <= 1
        }),
    decreases draws.len(),
{
    if draws.len() > 0 {
        lemma_plan_keeps_account(ids, split, draws.drop_last(), video);
        let before = Plan::start(ids, split).drawn(draws.drop_last());
        let after = before.assigned(draws.last());
        lemma_pool_without(before.pool, draws.last().index, video);
        assert(after.trials.drop_last() =~= before.trials);
    }
}

/// A plan with as many blocks as the split holds gives each bucket exactly
/// its share, whatever the draws: a draw for a bucket that is used up falls
/// to the other.
pub proof fn lemma_buckets_fill_exactly(ids: Seq<u32>, split: Split, draws: Seq<Draw>)
    requires
        Plan::start(ids, split).admits_all(draws),
        draws.len() == split.lie + split.truth,
    ensures
        count_in_bucket(Plan::start(ids, split).drawn(draws).trials, 0) == split.lie,
        count_in_bucket(Plan::start(ids, split).drawn(draws).trials, 1) == split.truth,
{
    lemma_plan_keeps_account(ids, split, draws, 0);
    let plan = Plan::start(ids, split).drawn(draws);
    lemma_counts_cover(plan.trials);
}

/// Whatever the draws, a plan of `num` blocks has the lie in half of them,
/// and in one more if `num` is odd, and the truth in the others.
pub proof fn lemma_even_split_is_met(ids: Seq<u32>, num: usize, draws: Seq<Draw>)
    requires
        draws.len() == num <= ids.len(),
        forall|k: int|
            0 <= k < draws.len() ==> 0 <= (#[trigger] draws[k]).index < ids.len() - k && 0
                <= draws[k].bucket <= 1,
    ensures
        count_in_bucket(Plan::start(ids, even_split(num)).drawn(draws).trials, 0) == num / 2 + num
            % 2,
        count_in_bucket(Plan::start(ids, even_split(num)).drawn(draws).trials, 1) == num / 2,
{
    lemma_draws_admitted(ids, num, draws);
    lemma_buckets_fill_exactly(ids, even_split(num), draws);
}

/// No video is shown more often than the pool holds it: videos are drawn
/// without replacement.
pub proof fn lemma_videos_not_replaced(ids: Seq<u32>, split: Split, draws: Seq<Draw>, video: u32)
    requires
        Plan::start(ids, split).admits_all(draws),
    ensures
        shown_times(Plan::start(ids, split).drawn(draws).trials, video) <= occurrences(ids, video),
{
    lemma_plan_keeps_account(ids, split, draws, video);
}

proof fn lemma_counts_cover(trials: Seq<TrialAssignment>)
    requires
        forall|k: int| 0 <= k < trials.len() ==> 0 <= #[trigger] trials[k].bucket <= 1,
    ensures
        count_in_bucket(trials, 0) + count_in_bucket(trials, 1) == trials.len(),
    decreases trials.len(),
{
    if trials.len() > 0 {
        lemma_counts_cover(trials.drop_last());
    }
}

/// Draws admit a whole plan whenever each points into what is left of the
/// pool and names a bucket, and the pool holds a video for every block.
pub proof fn lemma_draws_admitted(ids: Seq<u32>, num: usize, draws: Seq<Draw>)
    requires
        draws.len() == num <= ids.len(),
        forall|k: int|
            0 <= k < draws.len() ==> 0 <= (#[trigger] draws[k]).index < ids.len() - k && 0
                <= draws[k].bucket <= 1,
    ensures
        Plan::start(ids, even_split(num)).admits_all(draws),
{
    lemma_prefix_admitted(ids, num, draws, draws.len() as int);
    assert(draws.take(draws.len() as int) =~= draws);
}

proof fn lemma_prefix_admitted(ids: Seq<u32>, num: usize, draws: Seq<Draw>, n: int)
    requires
        draws.len() == num <= ids.len(),
        0 <= n <= draws.len(),
        forall|k: int|
            0 <= k < draws.len() ==> 0 <= (#[trigger] draws[k]).index < ids.len() - k && 0
                <= draws[k].bucket <= 1,
    ensures
        Plan::start(ids, even_split(num)).admits_all(draws.take(n)),
    decreases n,
{
    if n > 0 {
        lemma_prefix_admitted(ids, num, draws, n - 1);
        assert(draws.take(n).drop_last() =~= draws.take(n - 1));
        lemma_plan_keeps_account(ids, even_split(num), draws.take(n - 1), 0);
        let before = Plan::start(ids, even_split(num)).drawn(draws.take(n - 1));
        lemma_counts_cover(before.trials);
        assert(draws.take(n).last() == draws[n - 1]);
    }
}

} // verus!
