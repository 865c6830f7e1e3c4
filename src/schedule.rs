//! Progressive rendering: a sample budget is spent in batches of at most a
//! given size, and a progress report follows every batch.

use vstd::prelude::*;

verus! {

/// Size of the next batch: what is left of the budget, capped at the interval.
pub open spec fn batch_size_spec(num_samples: nat, completed: nat, interval: nat) -> nat {
    if num_samples - completed < interval {
        (num_samples - completed) as nat
    } else {
        interval
    }
}

/// The sizes of the batches that remain once `completed` samples are done.
pub open spec fn batch_sequence(num_samples: nat, interval: nat, completed: nat) -> Seq<nat>
    decreases num_samples - completed,
{
    if completed >= num_samples || interval == 0 {
        Seq::empty()
    } else {
        let step = batch_size_spec(num_samples, completed, interval);
        seq![step] + batch_sequence(num_samples, interval, completed + step)
    }
}

/// Sum of a sequence of batch sizes.
pub open spec fn total(s: Seq<nat>) -> nat
    decreases s.len(),
{
    if s.len() == 0 {
        0
    } else {
        s[0] + total(s.drop_first())
    }
}

/// State of a progressive render: the budget, the report interval and the
/// number of samples already taken.
#[derive(Clone, Copy, Debug, PartialEq, Eq, Structural)]
pub struct Progress {
    pub num_samples: u32,
    pub callback_interval: u32,
    pub completed: u32,
}

impl Progress {
    pub open spec fn wf(&self) -> bool {
        self.completed <= self.num_samples
    }

    /// The batches that are still to come.
    pub open spec fn remaining(&self) -> Seq<nat> {
        batch_sequence(
            self.num_samples as nat,
            self.callback_interval as nat,
            self.completed as nat,
        )
    }

    /// A render with nothing sampled yet.
    pub fn new(num_samples: u32, callback_interval: u32) -> (r: Progress)
        ensures
            r.wf(),
            r.num_samples == num_samples,
            r.callback_interval == callback_interval,
            r.completed == 0,
    {
        Progress { num_samples, callback_interval, completed: 0 }
    }

    /// Whether the whole budget has been sampled.
    pub fn is_done(&self) -> (r: bool)
        requires
            self.wf(),
        ensures
            r == (self.completed == self.num_samples),
    {
        self.completed == self.num_samples
    }

    /// Decides the next batch. Returns its size and counts it as done, or
    /// `None` once the budget is spent. A zero interval yields empty batches
    /// and never finishes a non-empty budget.
    pub fn next_batch(&mut self) -> (r: Option<u32>)
        requires
            old(self).wf(),
        ensures
            final(self).wf(),
            final(self).num_samples == old(self).num_samples,
            final(self).callback_interval == old(self).callback_interval,
            old(self).completed == old(self).num_samples ==> r is None && *final(self) == *old(
                self,
            ),
            old(self).completed < old(self).num_samples ==> {
                &&& r == Some(
                    batch_size_spec(
                        old(self).num_samples as nat,
                        old(self).completed as nat,
                        old(self).callback_interval as nat,
                    ) as u32,
                )
                &&& final(self).completed == old(self).completed + r->Some_0
            },
            old(self).completed < old(self).num_samples && old(self).callback_interval > 0
                ==> old(self).remaining() == seq![r->Some_0 as nat] + final(self).remaining(),
    {
        if self.completed == self.num_samples {
            return None;
        }
        let left = self.num_samples - self.completed;
        let steps = if left < self.callback_interval {
            left
        } else {
            self.callback_interval
        };
        self.completed = self.completed + steps;
        Some(steps)
    }
}

/// Every batch but the last is a full interval, so the batches number
/// `ceil((num_samples - completed) / interval)`; each holds between one
/// sample and the interval, and together they spend exactly the rest of the
/// budget.
pub proof fn lemma_batches_spend_budget(num_samples: nat, interval: nat, completed: nat)
    requires
        interval > 0,
        completed <= num_samples,
    ensures
        total(batch_sequence(num_samples, interval, completed)) == num_samples - completed,
        batch_sequence(num_samples, interval, completed).len() == (num_samples - completed
            + interval - 1) / interval as int,
        forall|i: int|
            0 <= i < batch_sequence(num_samples, interval, completed).len() ==> 1 <= #[trigger] batch_sequence(
                num_samples,
                interval,
                completed,
            )[i] <= interval,
    decreases num_samples - completed,
{
    let s = batch_sequence(num_samples, interval, completed);
    assert((interval - 1) / interval as int == 0) by (nonlinear_arith)
        requires
            interval > 0,
    ;
    if completed < num_samples {
        let step = batch_size_spec(num_samples, completed, interval);
        lemma_batches_spend_budget(num_samples, interval, completed + step);
        let rest = batch_sequence(num_samples, interval, completed + step);
        assert(s.drop_first() =~= rest);
        let left = num_samples - completed;
        if left < interval {
            assert((left + interval - 1) / interval as int == 1) by (nonlinear_arith)
                requires
                    0 < left < interval,
            ;
        } else {
            assert((left + interval - 1) / interval as int == 1 + (left - interval + interval - 1)
                / interval as int) by (nonlinear_arith)
                requires
                    interval > 0,
                    left >= interval,
            ;
        }
        assert forall|i: int| 0 <= i < s.len() implies 1 <= #[trigger] s[i] <= interval by {
            if i > 0 {
                assert(s[i] == rest[i - 1]);
            }
        }
    }
}

/// Driving a render to the end reports strictly increasing sample counts, the
/// last of which is the whole budget: the count after each batch is the
/// budget minus what the remaining batches still hold.
pub proof fn lemma_report_reaches_budget(p: Progress, q: Progress, step: u32)
    requires
        p.wf(),
        p.callback_interval > 0,
        p.completed < p.num_samples,
        q.wf(),
        q.num_samples == p.num_samples,
        q.callback_interval == p.callback_interval,
        q.completed == p.completed + step,
        p.remaining() == seq![step as nat] + q.remaining(),
    ensures
        q.completed > p.completed,
        q.completed + total(q.remaining()) == q.num_samples,
        q.remaining().len() == 0 <==> q.completed == q.num_samples,
{
    lemma_batches_spend_budget(p.num_samples as nat, p.callback_interval as nat, p.completed as nat);
    lemma_batches_spend_budget(q.num_samples as nat, q.callback_interval as nat, q.completed as nat);
    assert(p.remaining()[0] == step as nat);
}

} // verus!
