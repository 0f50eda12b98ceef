//! The per-entry task: a retrying verify/download state machine.
//!
//! Each manifest entry runs one task. The task first verifies the local
//! file; a satisfied verification is terminal. Otherwise it downloads and
//! verifies again, looping without a retry cap until a verification pass
//! succeeds. Transfer errors are folded into the loop: a failed download
//! simply leads back to verification, which will find the file unsatisfied
//! and download again.

use vstd::prelude::*;

use crate::progress::{Indicator, ProgressAggregator};
use crate::verification::{entry_ok, local_ok, verify_local};

verus! {

/// The states of one entry's task. `Satisfied` is the only terminal state;
/// there is no failure terminal: a persistently failing source keeps the
/// task looping between `Verifying` and `Downloading`.
#[derive(Clone, Copy, Debug, PartialEq, Eq, Structural)]
pub enum TaskState {
    /// Created, admission slot held, work not begun.
    Pending,
    /// Hashing the local file against the expected digest.
    Verifying,
    /// Transferring bytes from the source to the destination.
    Downloading,
    /// The local file's hash equals the expected hash.
    Satisfied,
}

/// What a task observes: the outcome of a verification pass, or of a
/// transfer attempt.
#[derive(Clone, Copy, Debug, PartialEq, Eq, Structural)]
pub enum TaskEvent {
    /// A verification pass ended; `satisfied` tells whether the local file
    /// matched the expected hash.
    Verified { satisfied: bool },
    /// A transfer attempt ended; `ok` tells whether it completed without
    /// error. Either way the task re-verifies what is on disk.
    Transferred { ok: bool },
}

/// Which event a state can consume: a task verifies while `Verifying` and
/// transfers while `Downloading`; `Pending` and `Satisfied` consume nothing.
pub open spec fn event_fits(s: TaskState, e: TaskEvent) -> bool {
    match e {
        TaskEvent::Verified { .. } => s is Verifying,
        TaskEvent::Transferred { .. } => s is Downloading,
    }
}

/// The transition relation of the task state machine.
///
/// - `Verifying` on a satisfied verification reaches `Satisfied`;
///   on an unsatisfied one it falls to `Downloading`.
/// - `Downloading` returns to `Verifying` whether or not the transfer
///   succeeded: what counts is the re-verification of what is on disk.
/// - An event that does not fit the state leaves it unchanged.
pub open spec fn task_step(s: TaskState, e: TaskEvent) -> TaskState {
    match (s, e) {
        (TaskState::Verifying, TaskEvent::Verified { satisfied }) => if satisfied {
            TaskState::Satisfied
        } else {
            TaskState::Downloading
        },
        (TaskState::Downloading, TaskEvent::Transferred { .. }) => TaskState::Verifying,
        _ => s,
    }
}

/// The state after consuming `events` in order, starting from `s`.
pub open spec fn run_task(s: TaskState, events: Seq<TaskEvent>) -> TaskState
    decreases events.len(),
{
    if events.len() == 0 {
        s
    } else {
        run_task(task_step(s, events[0]), events.skip(1))
    }
}

/// Whether every event of a trace fits the state that consumes it.
pub open spec fn valid_trace(s: TaskState, events: Seq<TaskEvent>) -> bool
    decreases events.len(),
{
    events.len() == 0 || (event_fits(s, events[0]) && valid_trace(
        task_step(s, events[0]),
        events.skip(1),
    ))
}

/// Begin work on a pending entry: the task moves to its first verification.
pub fn start_task(s: TaskState) -> (s2: TaskState)
    requires
        s is Pending,
    ensures
        s2 is Verifying,
{
    TaskState::Verifying
}

/// Consume one observed event.
pub fn on_event(s: TaskState, e: TaskEvent) -> (s2: TaskState)
    ensures
        s2 == task_step(s, e),
{
    match (s, e) {
        (TaskState::Verifying, TaskEvent::Verified { satisfied }) => if satisfied {
            TaskState::Satisfied
        } else {
            TaskState::Downloading
        },
        (TaskState::Downloading, TaskEvent::Transferred { .. }) => TaskState::Verifying,
        _ => s,
    }
}

/// Run a verification pass over what a local read produced and report the
/// event it yields: satisfied exactly when the bytes hash to the expected
/// digest; an unreadable file is never satisfied.
pub fn observe_verification(expected_hash: &str, content: Option<&Vec<u8>>) -> (e: TaskEvent)
    ensures
        e == (TaskEvent::Verified {
            satisfied: local_ok(
                expected_hash@,
                match content {
                    Some(bytes) => Some(bytes@),
                    None => None,
                },
            ),
        }),
{
    TaskEvent::Verified { satisfied: verify_local(expected_hash, content) }
}

/// One verification step of the task on concrete local content: the task
/// reaches `Satisfied` exactly when the content's hash equals the expected
/// hash; otherwise it falls to `Downloading`.
pub fn verify_step(s: TaskState, expected_hash: &str, content: Option<&Vec<u8>>) -> (s2: TaskState)
    requires
        s is Verifying,
    ensures
        s2 == task_step(
            s,
            TaskEvent::Verified {
                satisfied: local_ok(
                    expected_hash@,
                    match content {
                        Some(bytes) => Some(bytes@),
                        None => None,
                    },
                ),
            },
        ),
        s2 is Satisfied <==> (match content {
            Some(bytes) => entry_ok(expected_hash@, bytes@),
            None => false,
        }),
        !(s2 is Satisfied) ==> s2 is Downloading,
{
    let e = observe_verification(expected_hash, content);
    on_event(s, e)
}

/// The whole verifying phase of a task, progress included: hash the local
/// read's outcome against the expected digest, advance the task's own
/// indicator to the full expected size while doing so, and mark it finished
/// exactly on entering `Satisfied`. No other task's indicator is touched.
pub fn verifying_phase(
    s: TaskState,
    expected_hash: &str,
    expected_size: u64,
    content: Option<&Vec<u8>>,
    mp: &mut ProgressAggregator,
    h: usize,
) -> (s2: TaskState)
    requires
        s is Verifying,
        old(mp).wf_handle(h),
    ensures
        s2 == task_step(
            s,
            TaskEvent::Verified {
                satisfied: local_ok(
                    expected_hash@,
                    match content {
                        Some(bytes) => Some(bytes@),
                        None => None,
                    },
                ),
            },
        ),
        s2 is Satisfied <==> (match content {
            Some(bytes) => entry_ok(expected_hash@, bytes@),
            None => false,
        }),
        !(s2 is Satisfied) ==> s2 is Downloading,
        final(mp).spec_bars().len() == old(mp).spec_bars().len(),
        s2 is Satisfied ==> final(mp).spec_bars()[h as int] == (Indicator {
            length: old(mp).spec_bars()[h as int].length,
            position: old(mp).spec_bars()[h as int].length,
            finished: true,
        }),
        !(s2 is Satisfied) ==> final(mp).spec_bars()[h as int] == (Indicator {
            position: expected_size,
            ..old(mp).spec_bars()[h as int]
        }),
        forall|j: int|
            0 <= j < old(mp).spec_bars().len() && j != h ==> final(mp).spec_bars()[j] == old(
                mp,
            ).spec_bars()[j],
{
    mp.set_position(h, expected_size);
    let s2 = verify_step(s, expected_hash, content);
    if matches!(s2, TaskState::Satisfied) {
        mp.finish(h);
    }
    s2
}

/// `Satisfied` is terminal: no event moves the task out of it.
pub proof fn lemma_satisfied_terminal(e: TaskEvent)
    ensures
        task_step(TaskState::Satisfied, e) == TaskState::Satisfied,
{
}

/// A satisfied task stays satisfied under any further events.
pub proof fn lemma_satisfied_stays(events: Seq<TaskEvent>)
    ensures
        run_task(TaskState::Satisfied, events) == TaskState::Satisfied,
    decreases events.len(),
{
    if events.len() > 0 {
        lemma_satisfied_stays(events.skip(1));
    }
}

/// Short circuit: a task whose first verification pass is satisfied never
/// passes through `Downloading` — no fetch happens for an entry whose
/// destination file already has the correct hash.
pub proof fn lemma_satisfied_first_no_download(events: Seq<TaskEvent>, i: int)
    requires
        events.len() > 0,
        events[0] == (TaskEvent::Verified { satisfied: true }),
        0 <= i <= events.len(),
    ensures
        run_task(TaskState::Verifying, events.take(i)) != TaskState::Downloading,
{
    if i == 0 {
        assert(events.take(0).len() == 0);
    } else {
        let prefix = events.take(i);
        assert(prefix[0] == events[0]);
        assert(task_step(TaskState::Verifying, prefix[0]) == TaskState::Satisfied);
        lemma_satisfied_stays(prefix.skip(1));
    }
}

/// A task that starts verifying and ends satisfied got there through a
/// satisfied verification: the last event of any valid trace that reaches
/// `Satisfied` is a verification pass that found the expected hash.
pub proof fn lemma_satisfied_needs_verified(s: TaskState, events: Seq<TaskEvent>)
    requires
        valid_trace(s, events),
        !(s is Satisfied),
        run_task(s, events) == TaskState::Satisfied,
    ensures
        events.len() > 0,
        events.last() == (TaskEvent::Verified { satisfied: true }),
    decreases events.len(),
{
    let s1 = task_step(s, events[0]);
    if events.len() == 1 {
        assert(events.last() == events[0]);
    } else {
        if s1 is Satisfied {
            // a valid trace sends no further event to a terminal task:
            // `event_fits` rejects every event in `Satisfied`
            assert(valid_trace(s1, events.skip(1)));
            assert(events.skip(1).len() > 0);
            assert(event_fits(s1, events.skip(1)[0]));
            assert(false);
        } else {
            lemma_satisfied_needs_verified(s1, events.skip(1));
            assert(events.skip(1).last() == events.last());
        }
    }
}

} // verus!
