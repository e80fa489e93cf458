use ntscrs::executor::{Polled, TaskExecutor};
use std::cell::Cell;

/// A task that needs a number of polls before it resolves.
#[derive(Debug, PartialEq)]
struct Countdown {
    id: u32,
    polls_left: u32,
    action: Option<&'static str>,
}

fn countdown(id: u32, polls_left: u32, action: Option<&'static str>) -> Countdown {
    Countdown { id, polls_left, action }
}

fn poll(task: Countdown) -> Polled<Countdown, &'static str> {
    if task.polls_left == 0 {
        Polled::Ready(task.action)
    } else {
        Polled::Pending(Countdown { polls_left: task.polls_left - 1, ..task })
    }
}

#[test]
fn new_executor_is_idle() {
    let executor: TaskExecutor<Countdown, &'static str> = TaskExecutor::new();
    assert_eq!(executor.num_pending(), 0);
    assert_eq!(executor.num_queued(), 0);
}

#[test]
fn tick_without_tasks_returns_nothing_and_changes_nothing() {
    let mut executor: TaskExecutor<Countdown, &'static str> = TaskExecutor::new();
    let polls = Cell::new(0u32);
    for _ in 0..3 {
        let actions = executor.tick(|task| {
            polls.set(polls.get() + 1);
            poll(task)
        });
        assert!(actions.is_empty());
        assert_eq!(executor.num_pending(), 0);
        assert_eq!(executor.num_queued(), 0);
    }
    assert_eq!(polls.get(), 0);
}

#[test]
fn synchronous_completion_is_visible_without_a_tick() {
    let mut executor = TaskExecutor::new();
    let repaint = executor.spawn(countdown(1, 0, Some("save")), false, poll);
    assert!(!repaint);
    assert_eq!(executor.num_queued(), 1);
    assert_eq!(executor.num_pending(), 0);
    let actions = executor.tick(poll);
    assert_eq!(actions, vec!["save"]);
    assert_eq!(executor.num_queued(), 0);
    assert!(executor.tick(poll).is_empty());
}

#[test]
fn synchronous_completion_without_an_action_leaves_no_trace() {
    let mut executor = TaskExecutor::new();
    let repaint = executor.spawn(countdown(1, 0, None), false, poll);
    assert!(!repaint);
    assert_eq!(executor.num_queued(), 0);
    assert_eq!(executor.num_pending(), 0);
    assert!(executor.tick(poll).is_empty());
}

#[test]
fn deferred_task_is_not_polled_by_spawn() {
    let mut executor = TaskExecutor::new();
    let polls = Cell::new(0u32);
    let repaint = executor.spawn(countdown(1, 0, Some("done")), true, |task| {
        polls.set(polls.get() + 1);
        poll(task)
    });
    assert!(repaint);
    assert_eq!(polls.get(), 0);
    assert_eq!(executor.num_pending(), 1);
    assert_eq!(executor.num_queued(), 0);
    let actions = executor.tick(|task| {
        polls.set(polls.get() + 1);
        poll(task)
    });
    assert_eq!(polls.get(), 1);
    assert_eq!(actions, vec!["done"]);
    assert_eq!(executor.num_pending(), 0);
}

#[test]
fn task_that_is_not_ready_becomes_pending_and_asks_for_a_repaint() {
    let mut executor = TaskExecutor::new();
    let repaint = executor.spawn(countdown(1, 2, Some("late")), false, poll);
    assert!(repaint);
    assert_eq!(executor.num_pending(), 1);
    assert_eq!(executor.num_queued(), 0);
    assert!(executor.tick(poll).is_empty());
    assert_eq!(executor.num_pending(), 1);
    assert_eq!(executor.tick(poll), vec!["late"]);
    assert_eq!(executor.num_pending(), 0);
    assert!(executor.tick(poll).is_empty());
}

#[test]
fn tick_polls_every_pending_task_exactly_once() {
    let mut executor = TaskExecutor::new();
    for id in 0..5 {
        executor.spawn(countdown(id, id, Some("x")), true, poll);
    }
    let seen = std::cell::RefCell::new(Vec::new());
    let actions = executor.tick(|task: Countdown| {
        seen.borrow_mut().push(task.id);
        poll(task)
    });
    assert_eq!(*seen.borrow(), vec![0, 1, 2, 3, 4]);
    assert_eq!(actions.len(), 1);
    assert_eq!(executor.num_pending(), 4);
    seen.borrow_mut().clear();
    let actions = executor.tick(|task: Countdown| {
        seen.borrow_mut().push(task.id);
        poll(task)
    });
    assert_eq!(*seen.borrow(), vec![1, 2, 3, 4]);
    assert_eq!(actions.len(), 1);
    assert_eq!(executor.num_pending(), 3);
}

#[test]
fn queued_actions_come_before_those_of_the_round() {
    let mut executor = TaskExecutor::new();
    executor.spawn(countdown(1, 0, Some("pending first")), true, poll);
    executor.spawn(countdown(2, 0, Some("queued")), false, poll);
    executor.spawn(countdown(3, 1, Some("not yet")), true, poll);
    executor.spawn(countdown(4, 0, Some("pending second")), true, poll);
    assert_eq!(executor.tick(poll), vec!["queued", "pending first", "pending second"]);
    assert_eq!(executor.tick(poll), vec!["not yet"]);
}

#[test]
fn each_action_is_handed_out_once_over_any_mix_of_spawns_and_ticks() {
    let mut executor: TaskExecutor<(u32, u32), u32> = TaskExecutor::new();
    let poll = |(id, polls_left): (u32, u32)| {
        if polls_left == 0 {
            Polled::Ready(Some(id))
        } else {
            Polled::Pending((id, polls_left - 1))
        }
    };
    let mut handed_out = Vec::new();
    let mut next_id = 0u32;
    for round in 0..20u32 {
        for k in 0..3u32 {
            executor.spawn((next_id, (round + k) % 4), k % 2 == 0, poll);
            next_id += 1;
        }
        if round % 3 != 0 {
            handed_out.extend(executor.tick(poll));
        }
    }
    for _ in 0..5 {
        handed_out.extend(executor.tick(poll));
    }
    assert_eq!(executor.num_pending(), 0);
    assert_eq!(executor.num_queued(), 0);
    let mut sorted = handed_out.clone();
    sorted.sort();
    sorted.dedup();
    assert_eq!(sorted.len(), handed_out.len());
    assert_eq!(sorted, (0..next_id).collect::<Vec<u32>>());
}

#[test]
fn an_action_may_spawn_a_task_that_the_next_tick_of_the_frame_reflects() {
    let mut executor = TaskExecutor::new();
    executor.spawn(countdown(1, 0, Some("spawns")), true, poll);
    let mut applied = Vec::new();
    let mut ticks = 0;
    loop {
        let actions = executor.tick(poll);
        ticks += 1;
        if actions.is_empty() {
            break;
        }
        for action in actions {
            if action == "spawns" {
                executor.spawn(countdown(2, 0, Some("spawned")), false, poll);
            }
            applied.push(action);
        }
    }
    assert_eq!(applied, vec!["spawns", "spawned"]);
    assert_eq!(ticks, 3);
}
