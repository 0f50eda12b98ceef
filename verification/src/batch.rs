//! The Batch Orchestrator's shared state: one task state per manifest
//! entry, plus the admission controller.
//!
//! The orchestrator admits each entry through the admission controller,
//! runs its task to `Satisfied`, and declares the batch complete only when
//! every task is terminal. This module keeps the bookkeeping the batch
//! shares across tasks and proves its two invariants: free slots plus
//! running tasks always equal the configured limit, and no more than the
//! limit are ever mid-transfer.

use vstd::prelude::*;

use crate::admission::{lemma_admission_invariant, lemma_running_bounded, AdmissionSlots};
use crate::task::{task_step, TaskEvent, TaskState};

verus! {

/// One where a task counts as running: it holds an admission slot.
pub open spec fn active_weight(s: TaskState) -> nat {
    if s is Verifying || s is Downloading {
        1
    } else {
        0
    }
}

/// One where a task is mid-transfer.
pub open spec fn downloading_weight(s: TaskState) -> nat {
    if s is Downloading {
        1
    } else {
        0
    }
}

/// How many tasks are running (verifying or downloading).
pub open spec fn count_active(states: Seq<TaskState>) -> nat
    decreases states.len(),
{
    if states.len() == 0 {
        0
    } else {
        count_active(states.drop_last()) + active_weight(states.last())
    }
}

/// How many tasks are mid-transfer.
pub open spec fn count_downloading(states: Seq<TaskState>) -> nat
    decreases states.len(),
{
    if states.len() == 0 {
        0
    } else {
        count_downloading(states.drop_last()) + downloading_weight(states.last())
    }
}

/// Whether every task of the batch has reached its terminal state.
pub open spec fn all_satisfied(states: Seq<TaskState>) -> bool {
    forall|i: int| 0 <= i < states.len() ==> states[i] is Satisfied
}

proof fn lemma_count_active_update(states: Seq<TaskState>, i: int, v: TaskState)
    requires
        0 <= i < states.len(),
    ensures
        count_active(states.update(i, v)) == count_active(states) - active_weight(states[i])
            + active_weight(v),
    decreases states.len(),
{
    let updated = states.update(i, v);
    if i == states.len() - 1 {
        assert(updated.drop_last() =~= states.drop_last());
        assert(updated.last() == v);
    } else {
        assert(updated.drop_last() =~= states.drop_last().update(i, v));
        assert(updated.last() == states.last());
        lemma_count_active_update(states.drop_last(), i, v);
    }
}

proof fn lemma_count_active_member(states: Seq<TaskState>, i: int)
    requires
        0 <= i < states.len(),
    ensures
        count_active(states) >= active_weight(states[i]),
    decreases states.len(),
{
    if i < states.len() - 1 {
        lemma_count_active_member(states.drop_last(), i);
    }
}

/// Mid-transfer tasks are a subset of the running ones: at most as many
/// tasks are downloading as hold an admission slot.
pub proof fn lemma_downloading_le_active(states: Seq<TaskState>)
    ensures
        count_downloading(states) <= count_active(states),
    decreases states.len(),
{
    if states.len() > 0 {
        lemma_downloading_le_active(states.drop_last());
    }
}

/// The state the orchestrator shares across one batch run.
pub struct BatchState {
    slots: AdmissionSlots,
    states: Vec<TaskState>,
}

impl BatchState {
    /// The task states, one per manifest entry.
    pub closed spec fn spec_states(&self) -> Seq<TaskState> {
        self.states@
    }

    /// The number of admission slots still free.
    pub closed spec fn spec_free(&self) -> nat {
        self.slots.spec_counter()
    }

    /// The configured concurrency limit.
    pub closed spec fn spec_limit(&self) -> nat {
        self.slots.spec_limit()
    }

    /// The batch invariant: the admission controller is well formed and its
    /// running count is exactly the number of tasks that are verifying or
    /// downloading.
    pub closed spec fn wf(&self) -> bool {
        &&& self.slots.wf()
        &&& self.slots.spec_running() == count_active(self.states@)
    }

    /// Set up a batch of `entries` tasks, none started, with `limit`
    /// admission slots free.
    pub fn new(entries: usize, limit: usize) -> (b: Self)
        ensures
            b.wf(),
            b.spec_limit() == limit,
            b.spec_free() == limit,
            b.spec_states().len() == entries,
            forall|i: int| 0 <= i < entries ==> b.spec_states()[i] is Pending,
    {
        let mut states: Vec<TaskState> = Vec::new();
        let mut k: usize = 0;
        while k < entries
            invariant
                k <= entries,
                states@.len() == k,
                forall|i: int| 0 <= i < k ==> states@[i] is Pending,
                count_active(states@) == 0,
            decreases entries - k,
        {
            let ghost before = states@;
            states.push(TaskState::Pending);
            proof {
                assert(states@.drop_last() =~= before);
            }
            k = k + 1;
        }
        BatchState { slots: AdmissionSlots::new(limit), states }
    }

    /// How many entries the batch tracks.
    pub fn len(&self) -> (n: usize)
        ensures
            n == self.spec_states().len(),
    {
        self.states.len()
    }

    /// The current state of entry `i`'s task.
    pub fn state_of(&self, i: usize) -> (s: TaskState)
        requires
            i < self.spec_states().len(),
        ensures
            s == self.spec_states()[i as int],
    {
        self.states[i]
    }

    /// Number of admission slots still free.
    pub fn available(&self) -> (n: usize)
        ensures
            n == self.spec_free(),
    {
        self.slots.available()
    }

    /// Try to admit pending entry `i`: claim a slot and start its task.
    ///
    /// Succeeds exactly when a slot is free; the task then begins its first
    /// verification. When no slot is free nothing changes and the caller
    /// polls again. No other entry's state is touched either way.
    pub fn try_admit(&mut self, i: usize) -> (ok: bool)
        requires
            old(self).wf(),
            i < old(self).spec_states().len(),
            old(self).spec_states()[i as int] is Pending,
        ensures
            final(self).wf(),
            final(self).spec_limit() == old(self).spec_limit(),
            ok == (old(self).spec_free() > 0),
            ok ==> final(self).spec_states() == old(self).spec_states().update(
                i as int,
                TaskState::Verifying,
            ) && final(self).spec_free() == old(self).spec_free() - 1,
            !ok ==> *final(self) == *old(self),
    {
        if self.slots.try_acquire() {
            proof {
                lemma_count_active_update(self.states@, i as int, TaskState::Verifying);
            }
            self.states[i] = TaskState::Verifying;
            true
        } else {
            false
        }
    }

    /// Record the outcome of entry `i`'s verification pass.
    ///
    /// A satisfied pass is terminal: the task reaches `Satisfied` and its
    /// admission slot is released — the one release for its one admission.
    /// An unsatisfied pass sends the task to `Downloading`; the slot stays
    /// held. No other entry's state is touched.
    pub fn on_verified(&mut self, i: usize, satisfied: bool)
        requires
            old(self).wf(),
            i < old(self).spec_states().len(),
            old(self).spec_states()[i as int] is Verifying,
        ensures
            final(self).wf(),
            final(self).spec_limit() == old(self).spec_limit(),
            final(self).spec_states() == old(self).spec_states().update(
                i as int,
                task_step(TaskState::Verifying, TaskEvent::Verified { satisfied }),
            ),
            satisfied ==> final(self).spec_free() == old(self).spec_free() + 1,
            !satisfied ==> final(self).spec_free() == old(self).spec_free(),
    {
        proof {
            lemma_count_active_member(self.states@, i as int);
        }
        if satisfied {
            proof {
                lemma_count_active_update(self.states@, i as int, TaskState::Satisfied);
            }
            self.states[i] = TaskState::Satisfied;
            self.slots.release();
        } else {
            proof {
                lemma_count_active_update(self.states@, i as int, TaskState::Downloading);
            }
            self.states[i] = TaskState::Downloading;
        }
    }

    /// Record the outcome of entry `i`'s transfer attempt. Success or
    /// failure, the task re-verifies what is now on disk; the slot stays
    /// held. No other entry's state is touched.
    pub fn on_transferred(&mut self, i: usize, ok: bool)
        requires
            old(self).wf(),
            i < old(self).spec_states().len(),
            old(self).spec_states()[i as int] is Downloading,
        ensures
            final(self).wf(),
            final(self).spec_limit() == old(self).spec_limit(),
            final(self).spec_free() == old(self).spec_free(),
            final(self).spec_states() == old(self).spec_states().update(
                i as int,
                task_step(TaskState::Downloading, TaskEvent::Transferred { ok }),
            ),
    {
        proof {
            lemma_count_active_update(self.states@, i as int, TaskState::Verifying);
        }
        self.states[i] = TaskState::Verifying;
    }

    /// Whether the batch is complete: every task has reached `Satisfied`.
    /// There is no partial success — the batch either reports this or is
    /// still running.
    pub fn is_complete(&self) -> (r: bool)
        ensures
            r == all_satisfied(self.spec_states()),
    {
        let n = self.states.len();
        let mut i: usize = 0;
        while i < n
            invariant
                n == self.spec_states().len(),
                i <= n,
                forall|j: int| 0 <= j < i ==> self.spec_states()[j] is Satisfied,
            decreases n - i,
        {
            if !matches!(self.states[i], TaskState::Satisfied) {
                return false;
            }
            i = i + 1;
        }
        true
    }

    /// The admission counter invariant at the batch level: free slots plus
    /// running tasks equal the configured limit at every observation point
    /// at which the batch invariant holds.
    pub proof fn lemma_admission_invariant(&self)
        requires
            self.wf(),
        ensures
            self.spec_free() + count_active(self.spec_states()) == self.spec_limit(),
    {
        lemma_admission_invariant(&self.slots);
    }

    /// The concurrency bound: at no observation point at which the batch
    /// invariant holds are more than `limit` tasks mid-transfer.
    pub proof fn lemma_downloading_bounded(&self)
        requires
            self.wf(),
        ensures
            count_downloading(self.spec_states()) <= self.spec_limit(),
    {
        lemma_running_bounded(&self.slots);
        lemma_downloading_le_active(self.states@);
    }
}

} // verus!
