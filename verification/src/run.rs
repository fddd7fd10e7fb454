//! The heart of the pipeline: a state machine that sequences every
//! enabled stage over every work item, strictly one invocation at a
//! time.  The machine only decides; whoever drives it performs the
//! external invocation it asks for and reports back whether it worked.
//!
//! Per item the stages run in their fixed order.  A stage failure ends
//! that item; whether the rest of the batch still runs is the force
//! policy: with force off the whole run halts on the first failure,
//! with force on the failed item is recorded and the next item starts.
//! Cancellation is only honoured between items, never mid-stage.

use vstd::prelude::*;

use crate::steps::Stage;

verus! {

/// The per-run options: continue past per-item failure, tag converted
/// models with the marker suffix, skip inputs already carrying it, and
/// pass the flat-shade flag through to the compile stage.
#[derive(Clone, Copy, Debug, PartialEq, Eq, Structural)]
pub struct S2GOptions {
    pub force: bool,
    pub add_suffix: bool,
    pub ignore_converted: bool,
    pub flatshade: bool,
}

impl Default for S2GOptions {
    /// Every option is off by default.
    fn default() -> (r: Self)
        ensures
            !r.force && !r.add_suffix && !r.ignore_converted && !r.flatshade,
    {
        S2GOptions { force: false, add_suffix: false, ignore_converted: false, flatshade: false }
    }
}

/// A failed stage invocation: which stage failed, and the diagnostic
/// text captured from the external tool.
#[derive(Debug)]
pub struct StageError {
    pub stage: Stage,
    pub message: String,
}

impl Clone for StageError {
    fn clone(&self) -> (r: Self)
        ensures
            r == *self,
    {
        StageError { stage: self.stage, message: self.message.clone() }
    }
}

/// How one work item ended.
#[derive(Debug)]
pub enum ItemOutcome {
    Succeeded,
    Failed(StageError),
}

impl Clone for ItemOutcome {
    fn clone(&self) -> (r: Self)
        ensures
            r == *self,
    {
        match self {
            ItemOutcome::Succeeded => ItemOutcome::Succeeded,
            ItemOutcome::Failed(e) => ItemOutcome::Failed(e.clone()),
        }
    }
}

/// The state of one batch run.  `items` and `steps` never change for
/// the run's life; `outcomes` holds one entry per finished item, in
/// item order; `running` is true exactly while an invocation is still
/// owed.  `cancel_requested` is the caller-visible cancellation flag;
/// `cancelled` records that the run actually stopped early because of
/// it, which can only happen at an item boundary.
pub struct S2GRun {
    pub items: Vec<String>,
    pub steps: Vec<Stage>,
    pub force: bool,
    pub cur_item: usize,
    pub cur_stage: usize,
    pub outcomes: Vec<ItemOutcome>,
    pub running: bool,
    pub cancel_requested: bool,
    pub cancelled: bool,
}

impl S2GRun {
    /// Everything the run promises about its own shape, preserved by
    /// every transition.
    pub open spec fn wf(self) -> bool {
        &&& self.outcomes@.len() == self.cur_item as int
        &&& self.cur_item <= self.items@.len()
        &&& self.running ==> self.cur_item < self.items@.len() && (self.cur_stage as int)
            < self.steps@.len()
        &&& !self.running ==> self.cur_stage == 0
        &&& self.cancelled ==> !self.running
        &&& !self.force ==> forall|i: int|
            0 <= i < self.outcomes@.len() ==> ((#[trigger] self.outcomes@[i]) is Failed ==> (i
                == self.outcomes@.len() - 1 && !self.running))
        &&& self.force ==> (!self.running ==> (self.cancelled || self.cur_item
            == self.items@.len()))
        &&& !self.force ==> (!self.running ==> (self.cancelled || self.cur_item
            == self.items@.len() || (self.outcomes@.len() > 0
            && self.outcomes@.last() is Failed)))
        &&& forall|i: int|
            0 <= i < self.outcomes@.len() ==> ((#[trigger] self.outcomes@[i]) matches
                ItemOutcome::Failed(e) ==> self.steps@.contains(e.stage))
    }

    /// The invocation the run asks for next, if any: the current item's
    /// index together with the stage to invoke on it.
    pub open spec fn spec_next_action(self) -> Option<(int, Stage)> {
        if self.running {
            Some((self.cur_item as int, self.steps@[self.cur_stage as int]))
        } else {
            None
        }
    }

    /// Starts a run over `items` with the effective `steps`.  An empty
    /// batch, or a policy that enables no stage at all, completes on the
    /// spot: with nothing to invoke, every item trivially succeeds.
    pub fn new(items: Vec<String>, steps: Vec<Stage>, force: bool) -> (r: S2GRun)
        ensures
            r.wf(),
            r.items == items,
            r.steps == steps,
            r.force == force,
            !r.cancel_requested,
            !r.cancelled,
            steps@.len() > 0 && items@.len() > 0 ==> r.running && r.cur_item == 0 && r.cur_stage
                == 0 && r.outcomes@.len() == 0,
            steps@.len() == 0 ==> !r.running && r.outcomes@.len() == items@.len() && forall|i: int|
                0 <= i < items@.len() ==> (#[trigger] r.outcomes@[i]) is Succeeded,
            items@.len() == 0 ==> !r.running && r.outcomes@.len() == 0,
    {
        if steps.len() == 0 {
            let mut outcomes: Vec<ItemOutcome> = Vec::new();
            let mut i: usize = 0;
            let n: usize = items.len();
            while i < n
                invariant
                    i <= n,
                    n == items@.len(),
                    outcomes@.len() == i as int,
                    forall|j: int| 0 <= j < i ==> (#[trigger] outcomes@[j]) is Succeeded,
                decreases n - i,
            {
                outcomes.push(ItemOutcome::Succeeded);
                i += 1;
            }
            S2GRun {
                items,
                steps,
                force,
                cur_item: n,
                cur_stage: 0,
                outcomes,
                running: false,
                cancel_requested: false,
                cancelled: false,
            }
        } else if items.len() == 0 {
            S2GRun {
                items,
                steps,
                force,
                cur_item: 0,
                cur_stage: 0,
                outcomes: Vec::new(),
                running: false,
                cancel_requested: false,
                cancelled: false,
            }
        } else {
            S2GRun {
                items,
                steps,
                force,
                cur_item: 0,
                cur_stage: 0,
                outcomes: Vec::new(),
                running: true,
                cancel_requested: false,
                cancelled: false,
            }
        }
    }

    /// The invocation the driver must perform next, or nothing when the
    /// run is over.
    pub fn next_action(&self) -> (r: Option<(usize, Stage)>)
        requires
            self.wf(),
        ensures
            r is Some <==> self.spec_next_action() is Some,
            r matches Some(p) ==> self.spec_next_action() == Some((p.0 as int, p.1)),
    {
        if self.running {
            Some((self.cur_item, self.steps[self.cur_stage]))
        } else {
            None
        }
    }

    /// Asks the run to stop.  Takes effect at the next item boundary:
    /// the stage already in flight, and the rest of its item's stages,
    /// still run to completion.
    pub fn request_cancel(&mut self)
        requires
            old(self).wf(),
        ensures
            final(self).wf(),
            *final(self) == (S2GRun { cancel_requested: true, ..*old(self) }),
    {
        self.cancel_requested = true;
    }

    /// Reports the outcome of the invocation `next_action` asked for:
    /// `ok` for a clean exit, otherwise `message` is the captured
    /// diagnostic text.  On success the item advances to its next stage
    /// or, after its last stage, is recorded as succeeded.  On failure
    /// the item is recorded as failed at the current stage; the run
    /// halts there unless force is on.
    pub fn apply(&mut self, ok: bool, message: String)
        requires
            old(self).wf(),
            old(self).running,
        ensures
            final(self).wf(),
            final(self).items == old(self).items,
            final(self).steps == old(self).steps,
            final(self).force == old(self).force,
            final(self).cancel_requested == old(self).cancel_requested,
            ok && old(self).cur_stage + 1 < old(self).steps@.len() ==> final(self).running
                && final(self).cur_item == old(self).cur_item
                && final(self).cur_stage == old(self).cur_stage + 1
                && final(self).outcomes == old(self).outcomes
                && final(self).cancelled == old(self).cancelled,
            (!ok || old(self).cur_stage + 1 == old(self).steps@.len()) ==> final(self).cur_item
                == old(self).cur_item + 1 && final(self).cur_stage == 0 && final(self).outcomes@
                == old(self).outcomes@.push(
                if ok {
                    ItemOutcome::Succeeded
                } else {
                    ItemOutcome::Failed(
                        StageError { stage: old(self).steps@[old(self).cur_stage as int], message },
                    )
                },
            ),
            !ok && !old(self).force ==> !final(self).running
                && final(self).cancelled == old(self).cancelled,
            (ok || old(self).force) && (!ok || old(self).cur_stage + 1 == old(self).steps@.len())
                ==> {
                if old(self).cur_item + 1 == old(self).items@.len() {
                    !final(self).running && final(self).cancelled == old(self).cancelled
                } else if old(self).cancel_requested {
                    !final(self).running && final(self).cancelled
                } else {
                    final(self).running && final(self).cancelled == old(self).cancelled
                }
            },
    {
        proof {
            assert(self.steps@.contains(self.steps@[self.cur_stage as int]));
        }
        let n_steps = self.steps.len();
        let n_items = self.items.len();
        if ok && self.cur_stage < n_steps - 1 {
            self.cur_stage = self.cur_stage + 1;
        } else {
            let outcome = if ok {
                ItemOutcome::Succeeded
            } else {
                let stage = self.steps[self.cur_stage];
                ItemOutcome::Failed(StageError { stage, message })
            };
            self.outcomes.push(outcome);
            self.cur_item = self.cur_item + 1;
            self.cur_stage = 0;
            if !ok && !self.force {
                self.running = false;
            } else if self.cur_item == n_items {
                self.running = false;
            } else if self.cancel_requested {
                self.running = false;
                self.cancelled = true;
            }
        }
    }

    /// True exactly when the run has ended on some path: completion,
    /// halt on failure, or cancellation.
    pub fn is_done(&self) -> (r: bool)
        ensures
            r == !self.running,
    {
        !self.running
    }

    /// The final tally: one `(path, outcome)` pair per finished item, in
    /// item order.  Only available once the run has ended.
    pub fn result(&self) -> (r: Vec<(String, ItemOutcome)>)
        requires
            self.wf(),
            !self.running,
        ensures
            r@.len() == self.outcomes@.len(),
            forall|i: int|
                0 <= i < r@.len() ==> (#[trigger] r@[i]).0 == self.items@[i] && r@[i].1
                    == self.outcomes@[i],
    {
        let mut r: Vec<(String, ItemOutcome)> = Vec::new();
        let mut i: usize = 0;
        let n: usize = self.outcomes.len();
        while i < n
            invariant
                i <= n,
                n == self.outcomes@.len(),
                self.outcomes@.len() <= self.items@.len(),
                r@.len() == i as int,
                forall|j: int|
                    0 <= j < i ==> (#[trigger] r@[j]).0 == self.items@[j] && r@[j].1
                        == self.outcomes@[j],
            decreases n - i,
        {
            let path = self.items[i].clone();
            let outcome = self.outcomes[i].clone();
            r.push((path, outcome));
            i += 1;
        }
        r
    }
}

/// With force off, a failure ends the whole run at once: the failed
/// item's outcome is the last one recorded, every item before it
/// succeeded, the machine asks for no further invocation, and the items
/// after the failed one are never attempted.
pub proof fn lemma_no_force_halts_on_failure(s: S2GRun, i: int)
    requires
        s.wf(),
        !s.force,
        0 <= i < s.outcomes@.len(),
        s.outcomes@[i] is Failed,
    ensures
        i == s.outcomes@.len() - 1,
        !s.running,
        s.spec_next_action() is None,
        forall|j: int| 0 <= j < i ==> (#[trigger] s.outcomes@[j]) is Succeeded,
{
    assert forall|j: int| 0 <= j < i implies (#[trigger] s.outcomes@[j]) is Succeeded by {
        if s.outcomes@[j] is Failed {
            assert(j == s.outcomes@.len() - 1);
        }
    }
}

/// With force on, a run that ended without being cancelled has recorded
/// an outcome for every single item: a bad item never blocks the batch.
pub proof fn lemma_force_covers_all_items(s: S2GRun)
    requires
        s.wf(),
        s.force,
        !s.running,
        !s.cancelled,
    ensures
        s.outcomes@.len() == s.items@.len(),
{
}

/// Every recorded failure is tagged with a stage that the run actually
/// executes.
pub proof fn lemma_failure_stage_among_steps(s: S2GRun, i: int)
    requires
        s.wf(),
        0 <= i < s.outcomes@.len(),
        s.outcomes@[i] is Failed,
    ensures
        s.steps@.contains((s.outcomes@[i])->Failed_0.stage),
{
}

/// The running flag tracks the machine's liveness exactly: it is true
/// precisely while an invocation is still owed.  Since `apply` demands
/// a running machine and is the only transition that clears the flag,
/// the flag flips to false exactly once per run and then stays false,
/// however often the driver polls `is_done`.
pub proof fn lemma_running_iff_action_pending(s: S2GRun)
    requires
        s.wf(),
    ensures
        s.running <==> s.spec_next_action() is Some,
{
}

} // verus!
