//! A single-threaded cooperative executor for tasks that end in a mutation
//! action.
//!
//! A task is any suspendable computation `T`; what it finally resolves to is
//! an optional action `A`, a one-shot function that the UI loop applies to the
//! state it owns. The executor never runs an action: it hands them out, in
//! order, and the caller applies them outside of any lock on the executor, so
//! that an action may itself spawn a task.
//!
//! How a task is polled is up to the caller, who passes the polling function
//! in. Polling takes the task and either gives it back, still pending, or
//! gives what it resolved to. A task that has resolved is gone: there is no
//! value left that could be polled again.

pub mod laws;

use vstd::prelude::*;

verus! {

/// What one poll of a task gives.
pub enum Polled<T, A> {
    /// Not finished yet: the task comes back, to be polled again later.
    Pending(T),
    /// Finished, resolving to a mutation action or to none.
    Ready(Option<A>),
}

/// The tasks that stay pending after a round of polls with these outcomes, in
/// the order in which they were polled.
pub open spec fn still_pending<T, A>(outcomes: Seq<Polled<T, A>>) -> Seq<T>
    decreases outcomes.len(),
{
    if outcomes.len() == 0 {
        Seq::empty()
    } else {
        let before = still_pending(outcomes.drop_last());
        match outcomes.last() {
            Polled::Pending(task) => before.push(task),
            Polled::Ready(_) => before,
        }
    }
}

/// The actions that a round of polls with these outcomes yields, in the order
/// in which the tasks were polled.
pub open spec fn yielded<T, A>(outcomes: Seq<Polled<T, A>>) -> Seq<A>
    decreases outcomes.len(),
{
    if outcomes.len() == 0 {
        Seq::empty()
    } else {
        let before = yielded(outcomes.drop_last());
        match outcomes.last() {
            Polled::Ready(Some(action)) => before.push(action),
            _ => before,
        }
    }
}

/// A round that is one poll longer: the poll adds its task to those still
/// pending, or its action to those yielded, or nothing.
pub proof fn lemma_round_extended<T, A>(outcomes: Seq<Polled<T, A>>, outcome: Polled<T, A>)
    ensures
        still_pending(outcomes.push(outcome)) == (match outcome {
            Polled::Pending(task) => still_pending(outcomes).push(task),
            Polled::Ready(_) => still_pending(outcomes),
        }),
        yielded(outcomes.push(outcome)) == (match outcome {
            Polled::Ready(Some(action)) => yielded(outcomes).push(action),
            _ => yielded(outcomes),
        }),
{
    assert(outcomes.push(outcome).drop_last() =~= outcomes);
    assert(outcomes.push(outcome).last() == outcome);
}

/// The pending tasks after a spawn: one more if the task was deferred or its
/// first poll did not finish it, and the same otherwise.
pub open spec fn pending_after_spawn<T, A>(
    pending: Seq<T>,
    task: T,
    deferred: bool,
    outcome: Polled<T, A>,
) -> Seq<T> {
    if deferred {
        pending.push(task)
    } else {
        match outcome {
            Polled::Pending(suspended) => pending.push(suspended),
            Polled::Ready(_) => pending,
        }
    }
}

/// The queue after a spawn: one more action if the task was polled at once
/// and resolved to one, and the same otherwise.
pub open spec fn queue_after_spawn<T, A>(queue: Seq<A>, deferred: bool, outcome: Polled<T, A>) -> Seq<
    A,
> {
    match outcome {
        Polled::Ready(Some(action)) if !deferred => queue.push(action),
        _ => queue,
    }
}

/// `outcomes` is what polling each of `tasks` once, in order, may give.
pub open spec fn polled_once<T, A, F: Fn(T) -> Polled<T, A>>(
    poll: F,
    tasks: Seq<T>,
    outcomes: Seq<Polled<T, A>>,
) -> bool {
    &&& outcomes.len() == tasks.len()
    &&& forall|i: int| 0 <= i < tasks.len() ==> call_ensures(poll, (tasks[i],), #[trigger] outcomes[i])
}

/// The executor: the tasks that are pending, and the actions of tasks that
/// resolved as soon as they were spawned and wait for the next tick.
pub struct TaskExecutor<T, A> {
    run_tasks: Vec<T>,
    queued: Vec<A>,
}

impl<T, A> TaskExecutor<T, A> {
    /// The pending tasks, in the order in which they will be polled.
    pub closed spec fn pending(&self) -> Seq<T> {
        self.run_tasks@
    }

    /// The actions that the next tick hands out first.
    pub closed spec fn queue(&self) -> Seq<A> {
        self.queued@
    }

    /// An executor with nothing to do.
    pub fn new() -> (executor: Self)
        ensures
            executor.pending() == Seq::<T>::empty(),
            executor.queue() == Seq::<A>::empty(),
    {
        TaskExecutor { run_tasks: Vec::new(), queued: Vec::new() }
    }

    /// The number of pending tasks.
    pub fn num_pending(&self) -> (n: usize)
        ensures
            n == self.pending().len(),
    {
        self.run_tasks.len()
    }

    /// The number of actions that wait for the next tick.
    pub fn num_queued(&self) -> (n: usize)
        ensures
            n == self.queue().len(),
    {
        self.queued.len()
    }

    /// Registers a task.
    ///
    /// With `defer_to_next_cycle` the task is not polled now: it becomes
    /// pending. Without, it is polled once, at once. If that poll finishes
    /// it, its action, if any, goes to the queue and the task never becomes
    /// pending; if not, the task as the poll gave it back becomes pending.
    ///
    /// Returns whether a repaint is to be requested, which is whenever a task
    /// became pending: only a new frame will poll it.
    pub fn spawn<F: FnOnce(T) -> Polled<T, A>>(
        &mut self,
        task: T,
        defer_to_next_cycle: bool,
        poll: F,
    ) -> (repaint: bool)
        requires
            !defer_to_next_cycle ==> call_requires(poll, (task,)),
        ensures
            exists|outcome: Polled<T, A>|
                {
                    &&& !defer_to_next_cycle ==> call_ensures(poll, (task,), outcome)
                    &&& repaint == (defer_to_next_cycle || outcome is Pending)
                    &&& final(self).pending() == #[trigger] pending_after_spawn(
                        old(self).pending(),
                        task,
                        defer_to_next_cycle,
                        outcome,
                    )
                    &&& final(self).queue() == queue_after_spawn(
                        old(self).queue(),
                        defer_to_next_cycle,
                        outcome,
                    )
                },
    {
        if defer_to_next_cycle {
            let ghost witness: Polled<T, A> = Polled::Pending(task);
            self.run_tasks.push(task);
            assert(self.pending() == pending_after_spawn(
                old(self).pending(),
                task,
                defer_to_next_cycle,
                witness,
            ));
            assert(self.queue() == queue_after_spawn(
                old(self).queue(),
                defer_to_next_cycle,
                witness,
            ));
            true
        } else {
            let outcome = poll(task);
            let ghost witness = outcome;
            let repaint = match outcome {
                Polled::Pending(suspended) => {
                    self.run_tasks.push(suspended);
                    true
                },
                Polled::Ready(Some(action)) => {
                    self.queued.push(action);
                    false
                },
                Polled::Ready(None) => false,
            };
            assert(call_ensures(poll, (task,), witness));
            assert(repaint == (witness is Pending));
            assert(self.pending() == pending_after_spawn(
                old(self).pending(),
                task,
                defer_to_next_cycle,
                witness,
            ));
            assert(self.queue() == queue_after_spawn(
                old(self).queue(),
                defer_to_next_cycle,
                witness,
            ));
            repaint
        }
    }

    /// Polls every pending task exactly once, in order, and returns the
    /// actions to apply: first those that were queued, then those of the
    /// tasks that this round finished. The tasks that are not finished stay
    /// pending, as the polls gave them back; the queue is empty afterwards.
    ///
    /// No action is run here.
    pub fn tick<F: Fn(T) -> Polled<T, A>>(&mut self, poll: F) -> (actions: Vec<A>)
        requires
            forall|i: int|
                0 <= i < old(self).pending().len() ==> call_requires(
                    poll,
                    (#[trigger] old(self).pending()[i],),
                ),
        ensures
            exists|outcomes: Seq<Polled<T, A>>|
                {
                    &&& polled_once(poll, old(self).pending(), outcomes)
                    &&& final(self).pending() == still_pending(outcomes)
                    &&& actions@ == old(self).queue() + yielded(outcomes)
                },
            final(self).queue() == Seq::<A>::empty(),
            old(self).pending().len() == 0 ==> final(self).pending() == old(self).pending()
                && actions@ == old(self).queue(),
    {
        let mut tasks: Vec<T> = Vec::new();
        let mut actions: Vec<A> = Vec::new();
        std::mem::swap(&mut self.run_tasks, &mut tasks);
        std::mem::swap(&mut self.queued, &mut actions);
        let ghost before = tasks@;
        let ghost queued = actions@;
        let ghost mut outcomes: Seq<Polled<T, A>> = Seq::empty();
        assert(before == old(self).pending());
        assert forall|i: int| 0 <= i < before.len() implies call_requires(
            poll,
            (#[trigger] before[i],),
        ) by {
            assert(call_requires(poll, (old(self).pending()[i],)));
        }
        for task in iter: tasks
            invariant
                before == old(self).pending(),
                iter.seq() == before,
                forall|i: int| 0 <= i < before.len() ==> call_requires(poll, (#[trigger] before[i],)),
                polled_once(poll, before.take(iter.index() as int), outcomes),
                self.run_tasks@ == still_pending(outcomes),
                self.queued@ == Seq::<A>::empty(),
                actions@ == queued + yielded(outcomes),
        {
            let outcome = poll(task);
            proof {
                lemma_round_extended(outcomes, outcome);
                assert(before.take(iter.index() + 1) =~= before.take(iter.index() as int).push(
                    task,
                ));
                outcomes = outcomes.push(outcome);
            }
            match outcome {
                Polled::Pending(task) => {
                    self.run_tasks.push(task);
                },
                Polled::Ready(Some(action)) => {
                    actions.push(action);
                },
                Polled::Ready(None) => {},
            }
        }
        proof {
            assert(before.take(before.len() as int) =~= before);
            if before.len() == 0 {
                assert(still_pending(outcomes) =~= before);
                assert(actions@ =~= queued);
            }
        }
        actions
    }
}

} // verus!
