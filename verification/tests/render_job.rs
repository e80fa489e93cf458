use ntscrs::executor::{Polled, TaskExecutor};
use ntscrs::pipeline::{BusEvent, BusMessage, GraphState, MessageSource};
use ntscrs::render_job::{mirrored, RenderJobState, RenderReaction};
use std::cell::{Cell, RefCell};

type State = RenderJobState<String>;

fn from_graph(event: BusEvent<String>) -> BusMessage<String> {
    BusMessage { source: MessageSource::Pipeline, event }
}

fn from_element(event: BusEvent<String>) -> BusMessage<String> {
    BusMessage { source: MessageSource::Element, event }
}

fn changed(current: GraphState, pending: GraphState) -> BusMessage<String> {
    from_graph(BusEvent::StateChanged { previous: GraphState::Ready, current, pending })
}

fn error(text: &str) -> BusEvent<String> {
    BusEvent::Error(text.to_string())
}

fn idle() -> RenderReaction {
    RenderReaction { repaint: false, schedule_completion: None }
}

fn repaint() -> RenderReaction {
    RenderReaction { repaint: true, schedule_completion: None }
}

#[test]
fn job_mirrors_the_graph() {
    let mut state = State::Waiting;
    assert_eq!(state.on_message(changed(GraphState::Paused, GraphState::VoidPending), 5), repaint());
    assert_eq!(state, State::Paused);
    assert_eq!(state.on_message(changed(GraphState::Playing, GraphState::VoidPending), 6), repaint());
    assert_eq!(state, State::Rendering);
    assert_eq!(state.on_message(changed(GraphState::Paused, GraphState::VoidPending), 7), repaint());
    assert_eq!(state, State::Paused);
    assert_eq!(state.on_message(changed(GraphState::Null, GraphState::VoidPending), 8), repaint());
    assert_eq!(state, State::Complete { end_time: 8 });
}

#[test]
fn graph_heading_for_shutdown_completes_the_job() {
    let mut state = State::Rendering;
    assert_eq!(state.on_message(changed(GraphState::Paused, GraphState::Null), 42), repaint());
    assert_eq!(state, State::Complete { end_time: 42 });
}

#[test]
fn moves_that_the_lifecycle_does_not_admit_are_not_taken() {
    let mut state = State::Waiting;
    state.on_message(changed(GraphState::Null, GraphState::VoidPending), 1);
    assert_eq!(state, State::Waiting);
    state.on_message(changed(GraphState::Ready, GraphState::Null), 1);
    assert_eq!(state, State::Waiting);
    let mut state = State::Rendering;
    state.on_message(changed(GraphState::Ready, GraphState::VoidPending), 1);
    assert_eq!(state, State::Rendering);
    state.on_message(changed(GraphState::VoidPending, GraphState::VoidPending), 1);
    assert_eq!(state, State::Rendering);
    let mut state = State::Paused;
    state.on_message(changed(GraphState::Ready, GraphState::Paused), 1);
    assert_eq!(state, State::Paused);
}

#[test]
fn try_advance_follows_the_table_of_moves() {
    let all = || {
        vec![
            State::Waiting,
            State::Rendering,
            State::Paused,
            State::Complete { end_time: 9 },
            State::Error("e".to_string()),
        ]
    };
    let admitted = [
        [false, true, true, false, true],
        [false, false, true, true, true],
        [false, true, false, true, true],
        [false, false, false, false, false],
        [false, false, false, false, false],
    ];
    for (i, from) in all().into_iter().enumerate() {
        for (j, to) in all().into_iter().enumerate() {
            let mut state = from.clone();
            let moved = state.try_advance(to.clone());
            assert_eq!(moved, admitted[i][j], "{:?} -> {:?}", from, to);
            assert_eq!(state, if moved { to } else { from.clone() });
            assert_eq!(from.terminal(), i >= 3);
        }
    }
}

#[test]
fn messages_of_elements_and_of_no_one_do_not_move_the_job() {
    let mut state = State::Waiting;
    let msg = from_element(BusEvent::StateChanged {
        previous: GraphState::Ready,
        current: GraphState::Playing,
        pending: GraphState::VoidPending,
    });
    assert_eq!(state.on_message(msg, 3), idle());
    assert_eq!(state.on_message(from_element(BusEvent::EndOfStream), 3), idle());
    assert_eq!(state.on_message(from_graph(BusEvent::Other), 3), idle());
    let unknown = BusMessage { source: MessageSource::Unknown, event: error("lost") };
    assert_eq!(state.on_message(unknown, 3), idle());
    assert_eq!(state, State::Waiting);
}

#[test]
fn error_from_any_source_fails_a_running_job() {
    for start in [State::Waiting, State::Rendering, State::Paused] {
        let mut state = start.clone();
        assert_eq!(state.on_message(from_element(error("encoder")), 3), repaint());
        assert_eq!(state, State::Error("encoder".to_string()));
        let mut state = start;
        assert_eq!(state.on_message(from_graph(error("graph")), 3), repaint());
        assert_eq!(state, State::Error("graph".to_string()));
    }
}

#[test]
fn second_error_changes_neither_the_text_nor_asks_for_a_repaint() {
    let mut state = State::Rendering;
    assert_eq!(state.on_message(from_element(error("first")), 10), repaint());
    assert_eq!(state, State::Error("first".to_string()));
    assert_eq!(state.on_message(from_element(error("second")), 11), idle());
    assert_eq!(state, State::Error("first".to_string()));
    assert_eq!(state.on_message(from_graph(error("third")), 12), idle());
    assert_eq!(state, State::Error("first".to_string()));
}

#[test]
fn terminal_states_are_never_left() {
    let events = || {
        vec![
            from_graph(error("late")),
            from_element(error("late")),
            from_graph(BusEvent::EndOfStream),
            changed(GraphState::Paused, GraphState::VoidPending),
            changed(GraphState::Playing, GraphState::VoidPending),
            changed(GraphState::Ready, GraphState::VoidPending),
            changed(GraphState::Null, GraphState::VoidPending),
            changed(GraphState::Playing, GraphState::Null),
            from_graph(BusEvent::Other),
        ]
    };
    for terminal in [State::Complete { end_time: 77 }, State::Error("boom".to_string())] {
        for msg in events() {
            let mut state = terminal.clone();
            let reaction = state.on_message(msg.clone(), 100);
            assert_eq!(state, terminal, "{:?}", msg);
            if let BusEvent::Error(_) = msg.event {
                assert!(!reaction.repaint);
            }
        }
        let mut state = terminal.clone();
        assert!(!state.complete(100));
        assert_eq!(state, terminal);
        assert!(state.terminal());
    }
}

#[test]
fn end_of_stream_schedules_the_completion_and_leaves_the_state() {
    let mut state = State::Rendering;
    let reaction = state.on_message(from_graph(BusEvent::EndOfStream), 1234);
    assert_eq!(reaction, RenderReaction { repaint: false, schedule_completion: Some(1234) });
    assert_eq!(state, State::Rendering);
}

#[test]
fn completion_is_only_for_a_job_that_renders_or_is_paused() {
    let mut state = State::Waiting;
    assert!(!state.complete(5));
    assert_eq!(state, State::Waiting);
    let mut state = State::Paused;
    assert!(state.complete(5));
    assert_eq!(state, State::Complete { end_time: 5 });
    let mut state = State::Rendering;
    assert!(state.complete(-5));
    assert_eq!(state, State::Complete { end_time: -5 });
}

#[test]
fn several_ends_of_stream_before_a_tick_stop_the_graph_once() {
    let state = RefCell::new(State::Rendering);
    let stops = Cell::new(0u32);
    let mut executor: TaskExecutor<i64, ()> = TaskExecutor::new();
    let run = |end_time: i64| -> Polled<i64, ()> {
        if state.borrow_mut().complete(end_time) {
            stops.set(stops.get() + 1);
        }
        Polled::Ready(None)
    };
    for now in [5000i64, 5001, 5002] {
        let reaction = state.borrow_mut().on_message(from_graph(BusEvent::EndOfStream), now);
        let end_time = reaction.schedule_completion.unwrap();
        assert!(executor.spawn(end_time, true, run));
    }
    assert_eq!(*state.borrow(), State::Rendering);
    assert_eq!(stops.get(), 0);
    assert_eq!(executor.num_pending(), 3);
    assert!(executor.tick(run).is_empty());
    assert_eq!(stops.get(), 1);
    assert_eq!(*state.borrow(), State::Complete { end_time: 5000 });
    assert_eq!(executor.num_pending(), 0);
    assert!(executor.tick(run).is_empty());
    assert_eq!(stops.get(), 1);
}

#[test]
fn mirrored_reads_the_graph_state() {
    assert_eq!(mirrored::<String>(GraphState::Paused, GraphState::VoidPending, 1), Some(State::Paused));
    assert_eq!(mirrored::<String>(GraphState::Playing, GraphState::Paused, 1), Some(State::Rendering));
    assert_eq!(mirrored::<String>(GraphState::Ready, GraphState::VoidPending, 1), Some(State::Waiting));
    assert_eq!(
        mirrored::<String>(GraphState::Null, GraphState::VoidPending, 1),
        Some(State::Complete { end_time: 1 })
    );
    assert_eq!(
        mirrored::<String>(GraphState::Playing, GraphState::Null, 2),
        Some(State::Complete { end_time: 2 })
    );
    assert_eq!(mirrored::<String>(GraphState::VoidPending, GraphState::VoidPending, 1), None);
}
