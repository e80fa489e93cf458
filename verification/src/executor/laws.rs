//! Each task's action is handed out at most once, and only after the task
//! has reported completion.
//!
//! Tasks and actions are plain values, and two of them may look alike. To
//! speak of "the action of a task", each is given a label: `task_id` names
//! the task, `action_id` names the task that an action belongs to. A poll
//! that keeps these labels, as every honest poll does, is all that the laws
//! below ask for.

use crate::executor::{pending_after_spawn, queue_after_spawn, still_pending, yielded, Polled};
use vstd::prelude::*;

verus! {

/// A poll keeps the identity of the task: the task that comes back pending
/// is the one that was polled, and the action that it resolves to is its own.
pub open spec fn keeps_identity<T, A>(
    task: T,
    outcome: Polled<T, A>,
    task_id: spec_fn(T) -> nat,
    action_id: spec_fn(A) -> nat,
) -> bool {
    match outcome {
        Polled::Pending(suspended) => task_id(suspended) == task_id(task),
        Polled::Ready(Some(action)) => action_id(action) == task_id(task),
        Polled::Ready(None) => true,
    }
}

/// No task is in the executor twice, no action of a task that is still in it
/// has been handed out, and none that waits in the queue belongs to a task
/// that is still pending or has been handed out before.
///
/// `handed_out` holds the labels of the actions that ticks have returned so
/// far.
pub open spec fn each_task_once(
    pending_ids: Seq<nat>,
    queued_ids: Seq<nat>,
    handed_out: Set<nat>,
) -> bool {
    &&& pending_ids.no_duplicates()
    &&& queued_ids.no_duplicates()
    &&& forall|id: nat| !(pending_ids.contains(id) && queued_ids.contains(id))
    &&& forall|id: nat| pending_ids.contains(id) || queued_ids.contains(id) ==> !handed_out.contains(id)
}

proof fn lemma_push_contains<X>(s: Seq<X>, x: X, y: X)
    ensures
        s.push(x).contains(y) <==> s.contains(y) || y == x,
{
    if s.push(x).contains(y) {
        let i = choose|i: int| 0 <= i < s.push(x).len() && s.push(x)[i] == y;
        if i < s.len() {
            assert(s[i] == y);
        }
    }
    if s.contains(y) {
        let i = choose|i: int| 0 <= i < s.len() && s[i] == y;
        assert(s.push(x)[i] == y);
    }
    if y == x {
        assert(s.push(x)[s.len() as int] == y);
    }
}

proof fn lemma_push_no_duplicates<X>(s: Seq<X>, x: X)
    requires
        s.no_duplicates(),
        !s.contains(x),
    ensures
        s.push(x).no_duplicates(),
{
    assert forall|i: int, j: int|
        0 <= i < s.push(x).len() && 0 <= j < s.push(x).len() && i != j implies s.push(x)[i]
        != s.push(x)[j] by {
        if i < s.len() && j < s.len() {
        } else if i < s.len() {
            assert(s.contains(s[i]));
        } else {
            assert(s.contains(s[j]));
        }
    }
}

/// One round of polls, seen through the labels: every label that is pending
/// or yielded afterwards is the label of a task that was polled, the task of
/// a yielded action has resolved and is not pending any more, and no label
/// comes out twice.
proof fn lemma_round_keeps_tasks_apart<T, A>(
    tasks: Seq<T>,
    outcomes: Seq<Polled<T, A>>,
    task_id: spec_fn(T) -> nat,
    action_id: spec_fn(A) -> nat,
)
    requires
        outcomes.len() == tasks.len(),
        forall|i: int|
            0 <= i < tasks.len() ==> keeps_identity(tasks[i], #[trigger] outcomes[i], task_id, action_id),
        tasks.map_values(task_id).no_duplicates(),
    ensures
        still_pending(outcomes).map_values(task_id).no_duplicates(),
        yielded(outcomes).map_values(action_id).no_duplicates(),
        forall|id: nat|
            !(still_pending(outcomes).map_values(task_id).contains(id) && yielded(
                outcomes,
            ).map_values(action_id).contains(id)),
        forall|id: nat|
            still_pending(outcomes).map_values(task_id).contains(id) ==> exists|i: int|
                0 <= i < tasks.len() && task_id(tasks[i]) == id && #[trigger] outcomes[i] is Pending,
        forall|id: nat|
            yielded(outcomes).map_values(action_id).contains(id) ==> exists|i: int|
                0 <= i < tasks.len() && task_id(tasks[i]) == id && #[trigger] outcomes[i] is Ready,
    decreases outcomes.len(),
{
    let ids = tasks.map_values(task_id);
    let after_p = still_pending(outcomes).map_values(task_id);
    let after_y = yielded(outcomes).map_values(action_id);
    if outcomes.len() == 0 {
        assert(after_p =~= Seq::<nat>::empty());
        assert(after_y =~= Seq::<nat>::empty());
    } else {
        let n = outcomes.len() - 1;
        let earlier = tasks.drop_last();
        let before = outcomes.drop_last();
        let before_p = still_pending(before).map_values(task_id);
        let before_y = yielded(before).map_values(action_id);
        assert(earlier.map_values(task_id).no_duplicates()) by {
            assert forall|i: int, j: int|
                0 <= i < earlier.len() && 0 <= j < earlier.len() && i != j implies earlier.map_values(
                task_id,
            )[i] != earlier.map_values(task_id)[j] by {
                assert(ids[i] != ids[j]);
            }
        }
        assert forall|i: int| 0 <= i < earlier.len() implies keeps_identity(
            earlier[i],
            #[trigger] before[i],
            task_id,
            action_id,
        ) by {
            assert(before[i] == outcomes[i]);
        }
        lemma_round_keeps_tasks_apart(earlier, before, task_id, action_id);
        let newest = task_id(tasks[n]);
        assert(keeps_identity(tasks[n], outcomes[n], task_id, action_id));
        assert(!before_p.contains(newest)) by {
            if before_p.contains(newest) {
                let i = choose|i: int|
                    0 <= i < earlier.len() && task_id(earlier[i]) == newest && #[trigger] before[i] is Pending;
                assert(ids[i] == ids[n]);
            }
        }
        assert(!before_y.contains(newest)) by {
            if before_y.contains(newest) {
                let i = choose|i: int|
                    0 <= i < earlier.len() && task_id(earlier[i]) == newest && #[trigger] before[i] is Ready;
                assert(ids[i] == ids[n]);
            }
        }
        assert forall|id: nat| #[trigger] before_p.contains(id) implies exists|i: int|
            0 <= i < tasks.len() && task_id(tasks[i]) == id && #[trigger] outcomes[i] is Pending by {
            let i = choose|i: int|
                0 <= i < earlier.len() && task_id(earlier[i]) == id && #[trigger] before[i] is Pending;
            assert(outcomes[i] is Pending && task_id(tasks[i]) == id);
        }
        assert forall|id: nat| #[trigger] before_y.contains(id) implies exists|i: int|
            0 <= i < tasks.len() && task_id(tasks[i]) == id && #[trigger] outcomes[i] is Ready by {
            let i = choose|i: int|
                0 <= i < earlier.len() && task_id(earlier[i]) == id && #[trigger] before[i] is Ready;
            assert(outcomes[i] is Ready && task_id(tasks[i]) == id);
        }
        match outcomes.last() {
            Polled::Pending(suspended) => {
                assert(after_p =~= before_p.push(newest));
                assert(after_y == before_y);
                lemma_push_no_duplicates(before_p, newest);
                assert forall|id: nat| after_p.contains(id) <==> before_p.contains(id) || id
                    == newest by {
                    lemma_push_contains(before_p, newest, id);
                }
                assert(outcomes[n] is Pending);
            },
            Polled::Ready(Some(action)) => {
                assert(after_y =~= before_y.push(newest));
                assert(after_p == before_p);
                lemma_push_no_duplicates(before_y, newest);
                assert forall|id: nat| after_y.contains(id) <==> before_y.contains(id) || id
                    == newest by {
                    lemma_push_contains(before_y, newest, id);
                }
                assert(outcomes[n] is Ready);
            },
            Polled::Ready(None) => {
                assert(after_p == before_p);
                assert(after_y == before_y);
            },
        }
    }
}

/// Spawning a task that is not yet known keeps every task apart from every
/// other: whatever its first poll gave, `each_task_once` holds afterwards, of
/// the same set of actions handed out.
pub proof fn lemma_spawn_keeps_each_task_once<T, A>(
    pending: Seq<T>,
    queue: Seq<A>,
    handed_out: Set<nat>,
    task: T,
    deferred: bool,
    outcome: Polled<T, A>,
    task_id: spec_fn(T) -> nat,
    action_id: spec_fn(A) -> nat,
)
    requires
        each_task_once(pending.map_values(task_id), queue.map_values(action_id), handed_out),
        !pending.map_values(task_id).contains(task_id(task)),
        !queue.map_values(action_id).contains(task_id(task)),
        !handed_out.contains(task_id(task)),
        !deferred ==> keeps_identity(task, outcome, task_id, action_id),
    ensures
        each_task_once(
            pending_after_spawn(pending, task, deferred, outcome).map_values(task_id),
            queue_after_spawn(queue, deferred, outcome).map_values(action_id),
            handed_out,
        ),
{
    let pending_ids = pending.map_values(task_id);
    let queue_ids = queue.map_values(action_id);
    let fresh = task_id(task);
    let after_p = pending_after_spawn(pending, task, deferred, outcome).map_values(task_id);
    let after_q = queue_after_spawn(queue, deferred, outcome).map_values(action_id);
    assert forall|id: nat| pending_ids.push(fresh).contains(id) <==> pending_ids.contains(id) || id
        == fresh by {
        lemma_push_contains(pending_ids, fresh, id);
    }
    assert forall|id: nat| queue_ids.push(fresh).contains(id) <==> queue_ids.contains(id) || id
        == fresh by {
        lemma_push_contains(queue_ids, fresh, id);
    }
    lemma_push_no_duplicates(pending_ids, fresh);
    lemma_push_no_duplicates(queue_ids, fresh);
    if deferred {
        assert(after_p =~= pending_ids.push(fresh));
        assert(after_q == queue_ids);
    } else {
        match outcome {
            Polled::Pending(suspended) => {
                assert(after_p =~= pending_ids.push(fresh));
                assert(after_q == queue_ids);
            },
            Polled::Ready(Some(action)) => {
                assert(after_p == pending_ids);
                assert(after_q =~= queue_ids.push(fresh));
            },
            Polled::Ready(None) => {
                assert(after_p == pending_ids);
                assert(after_q == queue_ids);
            },
        }
    }
}

/// A tick hands each action out at most once, and only after its task has
/// reported completion.
///
/// Of an executor in which every task is there once (`each_task_once`), and
/// for polls that keep the identity of the task, the actions that a tick
/// returns are pairwise different, none of them was handed out by an earlier
/// tick, and each one that comes from this round belongs to a task whose poll
/// has just been `Ready`. That task is not pending afterwards, and
/// `each_task_once` holds again with these actions added to those handed
/// out: so it holds after any sequence of spawns and ticks.
pub proof fn lemma_tick_hands_each_action_out_once<T, A>(
    pending: Seq<T>,
    queue: Seq<A>,
    handed_out: Set<nat>,
    outcomes: Seq<Polled<T, A>>,
    task_id: spec_fn(T) -> nat,
    action_id: spec_fn(A) -> nat,
)
    requires
        each_task_once(pending.map_values(task_id), queue.map_values(action_id), handed_out),
        outcomes.len() == pending.len(),
        forall|i: int|
            0 <= i < pending.len() ==> keeps_identity(
                pending[i],
                #[trigger] outcomes[i],
                task_id,
                action_id,
            ),
    ensures
        (queue + yielded(outcomes)).map_values(action_id).no_duplicates(),
        forall|id: nat|
            (queue + yielded(outcomes)).map_values(action_id).contains(id) ==> !handed_out.contains(
                id,
            ),
        forall|id: nat|
            yielded(outcomes).map_values(action_id).contains(id) ==> exists|i: int|
                0 <= i < pending.len() && task_id(pending[i]) == id && #[trigger] outcomes[i] is Ready,
        forall|id: nat|
            (queue + yielded(outcomes)).map_values(action_id).contains(id) ==> !still_pending(
                outcomes,
            ).map_values(task_id).contains(id),
        each_task_once(
            still_pending(outcomes).map_values(task_id),
            Seq::<nat>::empty(),
            handed_out.union((queue + yielded(outcomes)).map_values(action_id).to_set()),
        ),
{
    let pending_ids = pending.map_values(task_id);
    let queue_ids = queue.map_values(action_id);
    let after_p = still_pending(outcomes).map_values(task_id);
    let fresh = yielded(outcomes).map_values(action_id);
    let returned = (queue + yielded(outcomes)).map_values(action_id);
    lemma_round_keeps_tasks_apart(pending, outcomes, task_id, action_id);
    assert(returned =~= queue_ids + fresh);
    assert forall|id: nat| fresh.contains(id) implies pending_ids.contains(id) by {
        let i = choose|i: int|
            0 <= i < pending.len() && task_id(pending[i]) == id && #[trigger] outcomes[i] is Ready;
        assert(pending_ids[i] == id);
    }
    assert forall|id: nat| after_p.contains(id) implies pending_ids.contains(id) by {
        let i = choose|i: int|
            0 <= i < pending.len() && task_id(pending[i]) == id && #[trigger] outcomes[i] is Pending;
        assert(pending_ids[i] == id);
    }
    assert forall|i: int, j: int| 0 <= i < queue_ids.len() && 0 <= j < fresh.len() implies queue_ids[i]
        != fresh[j] by {
        assert(queue_ids.contains(queue_ids[i]));
        assert(fresh.contains(fresh[j]));
    }
    vstd::seq_lib::lemma_no_dup_in_concat(queue_ids, fresh);
    assert forall|id: nat| returned.contains(id) <==> queue_ids.contains(id) || fresh.contains(
        id,
    ) by {
        if returned.contains(id) {
            let i = choose|i: int| 0 <= i < returned.len() && returned[i] == id;
            if i < queue_ids.len() {
                assert(queue_ids[i] == id);
            } else {
                assert(fresh[i - queue_ids.len()] == id);
            }
        }
        if queue_ids.contains(id) {
            let i = choose|i: int| 0 <= i < queue_ids.len() && queue_ids[i] == id;
            assert(returned[i] == id);
        }
        if fresh.contains(id) {
            let i = choose|i: int| 0 <= i < fresh.len() && fresh[i] == id;
            assert(returned[queue_ids.len() + i] == id);
        }
    }
    assert forall|id: nat| after_p.contains(id) implies !handed_out.union(
        returned.to_set(),
    ).contains(id) by {
        assert(pending_ids.contains(id));
        assert(!returned.contains(id));
    }
}

/// One thing that is done with an executor, together with what the polls
/// that it made gave.
pub enum Step<T, A> {
    /// `spawn(task, deferred, ..)`; `outcome` is what the poll gave, if one
    /// was made.
    Spawn { task: T, deferred: bool, outcome: Polled<T, A> },
    /// `tick(..)`; `outcomes` are what the polls gave, in order.
    Tick { outcomes: Seq<Polled<T, A>> },
}

/// Where a sequence of spawns and ticks has led: what the executor holds, and
/// every action that the ticks have returned, in order.
pub struct Ledger<T, A> {
    pub pending: Seq<T>,
    pub queue: Seq<A>,
    pub handed_out: Seq<A>,
}

/// The ledger after one more step.
pub open spec fn ledger_after<T, A>(before: Ledger<T, A>, step: Step<T, A>) -> Ledger<T, A> {
    match step {
        Step::Spawn { task, deferred, outcome } => Ledger {
            pending: pending_after_spawn(before.pending, task, deferred, outcome),
            queue: queue_after_spawn(before.queue, deferred, outcome),
            handed_out: before.handed_out,
        },
        Step::Tick { outcomes } => Ledger {
            pending: still_pending(outcomes),
            queue: Seq::empty(),
            handed_out: before.handed_out + (before.queue + yielded(outcomes)),
        },
    }
}

/// The ledger of a new executor after `steps`.
pub open spec fn ledger_of<T, A>(steps: Seq<Step<T, A>>) -> Ledger<T, A>
    decreases steps.len(),
{
    if steps.len() == 0 {
        Ledger { pending: Seq::empty(), queue: Seq::empty(), handed_out: Seq::empty() }
    } else {
        ledger_after(ledger_of(steps.drop_last()), steps.last())
    }
}

/// The step can be taken from `before`: a tick polls each pending task once,
/// a spawn brings a task that was not seen before, and every poll keeps the
/// identity of its task.
pub open spec fn step_fits<T, A>(
    before: Ledger<T, A>,
    step: Step<T, A>,
    task_id: spec_fn(T) -> nat,
    action_id: spec_fn(A) -> nat,
) -> bool {
    match step {
        Step::Spawn { task, deferred, outcome } => {
            &&& !before.pending.map_values(task_id).contains(task_id(task))
            &&& !before.queue.map_values(action_id).contains(task_id(task))
            &&& !before.handed_out.map_values(action_id).contains(task_id(task))
            &&& !deferred ==> keeps_identity(task, outcome, task_id, action_id)
        },
        Step::Tick { outcomes } => {
            &&& outcomes.len() == before.pending.len()
            &&& forall|i: int|
                0 <= i < before.pending.len() ==> keeps_identity(
                    before.pending[i],
                    #[trigger] outcomes[i],
                    task_id,
                    action_id,
                )
        },
    }
}

/// Every step of `steps` can be taken where it stands.
pub open spec fn steps_fit<T, A>(
    steps: Seq<Step<T, A>>,
    task_id: spec_fn(T) -> nat,
    action_id: spec_fn(A) -> nat,
) -> bool
    decreases steps.len(),
{
    steps.len() == 0 || (steps_fit(steps.drop_last(), task_id, action_id) && step_fits(
        ledger_of(steps.drop_last()),
        steps.last(),
        task_id,
        action_id,
    ))
}

proof fn lemma_concat_contains<X>(a: Seq<X>, b: Seq<X>, x: X)
    ensures
        (a + b).contains(x) <==> a.contains(x) || b.contains(x),
{
    if (a + b).contains(x) {
        let i = choose|i: int| 0 <= i < (a + b).len() && (a + b)[i] == x;
        if i < a.len() {
            assert(a[i] == x);
        } else {
            assert(b[i - a.len()] == x);
        }
    }
    if a.contains(x) {
        let i = choose|i: int| 0 <= i < a.len() && a[i] == x;
        assert((a + b)[i] == x);
    }
    if b.contains(x) {
        let i = choose|i: int| 0 <= i < b.len() && b[i] == x;
        assert((a + b)[a.len() + i] == x);
    }
}

/// For any interleaving of spawns and ticks, each task's action is handed
/// out at most once.
///
/// Whatever sequence of spawns and ticks a new executor goes through, with
/// polls that keep the identity of their tasks and no task spawned twice,
/// no two of the actions that its ticks have returned belong to the same
/// task, and none of them belongs to a task that the executor still holds.
/// That an action is handed out only after its task has reported completion
/// is [`lemma_tick_hands_each_action_out_once`].
pub proof fn lemma_each_action_is_handed_out_at_most_once<T, A>(
    steps: Seq<Step<T, A>>,
    task_id: spec_fn(T) -> nat,
    action_id: spec_fn(A) -> nat,
)
    requires
        steps_fit(steps, task_id, action_id),
    ensures
        ledger_of(steps).handed_out.map_values(action_id).no_duplicates(),
        each_task_once(
            ledger_of(steps).pending.map_values(task_id),
            ledger_of(steps).queue.map_values(action_id),
            ledger_of(steps).handed_out.map_values(action_id).to_set(),
        ),
    decreases steps.len(),
{
    let after = ledger_of(steps);
    if steps.len() == 0 {
        assert(after.pending.map_values(task_id) =~= Seq::<nat>::empty());
        assert(after.queue.map_values(action_id) =~= Seq::<nat>::empty());
        assert(after.handed_out.map_values(action_id) =~= Seq::<nat>::empty());
    } else {
        let before = ledger_of(steps.drop_last());
        lemma_each_action_is_handed_out_at_most_once(steps.drop_last(), task_id, action_id);
        let handed_before = before.handed_out.map_values(action_id);
        match steps.last() {
            Step::Spawn { task, deferred, outcome } => {
                lemma_spawn_keeps_each_task_once(
                    before.pending,
                    before.queue,
                    handed_before.to_set(),
                    task,
                    deferred,
                    outcome,
                    task_id,
                    action_id,
                );
            },
            Step::Tick { outcomes } => {
                lemma_tick_hands_each_action_out_once(
                    before.pending,
                    before.queue,
                    handed_before.to_set(),
                    outcomes,
                    task_id,
                    action_id,
                );
                let returned = (before.queue + yielded(outcomes)).map_values(action_id);
                let handed_after = after.handed_out.map_values(action_id);
                assert(handed_after =~= handed_before + returned);
                assert forall|i: int, j: int|
                    0 <= i < handed_before.len() && 0 <= j < returned.len() implies handed_before[i]
                    != returned[j] by {
                    assert(handed_before.contains(handed_before[i]));
                    assert(handed_before.to_set().contains(handed_before[i]));
                    assert(returned.contains(returned[j]));
                }
                vstd::seq_lib::lemma_no_dup_in_concat(handed_before, returned);
                assert forall|id: nat| handed_after.to_set().contains(id) <==> handed_before.to_set().union(
                    returned.to_set(),
                ).contains(id) by {
                    lemma_concat_contains(handed_before, returned, id);
                }
                assert(handed_after.to_set() =~= handed_before.to_set().union(returned.to_set()));
                assert(after.queue.map_values(action_id) =~= Seq::<nat>::empty());
            },
        }
    }
}

} // verus!
