use ntscrs::pipeline::{
    toggle_playing, BusEvent, BusMessage, FrameAction, GraphState, MessageSource, PipelineState,
    PlaybackCommand, PreviewReaction,
};

type State = PipelineState<String>;

fn from_graph(event: BusEvent<String>) -> BusMessage<String> {
    BusMessage { source: MessageSource::Pipeline, event }
}

fn from_element(event: BusEvent<String>) -> BusMessage<String> {
    BusMessage { source: MessageSource::Element, event }
}

fn changed(previous: GraphState, current: GraphState) -> BusEvent<String> {
    BusEvent::StateChanged { previous, current, pending: GraphState::VoidPending }
}

fn error(text: &str) -> BusEvent<String> {
    BusEvent::Error(text.to_string())
}

const IDLE: PreviewReaction =
    PreviewReaction { repaint: false, reached_end: false, refresh_metadata: false };

#[test]
fn preview_is_loaded_when_the_graph_starts() {
    for current in [GraphState::Paused, GraphState::Playing] {
        for previous in [GraphState::Ready, GraphState::Null, GraphState::VoidPending] {
            let mut state = State::Loading;
            let reaction = state.on_message(from_graph(changed(previous, current)));
            assert_eq!(state, State::Loaded);
            assert_eq!(
                reaction,
                PreviewReaction { repaint: true, reached_end: false, refresh_metadata: true }
            );
        }
    }
}

#[test]
fn a_restart_of_a_loaded_graph_only_refreshes_the_metadata() {
    let mut state = State::Loaded;
    let reaction = state.on_message(from_graph(changed(GraphState::Ready, GraphState::Paused)));
    assert_eq!(state, State::Loaded);
    assert_eq!(
        reaction,
        PreviewReaction { repaint: false, reached_end: false, refresh_metadata: true }
    );
}

#[test]
fn other_state_changes_do_not_load_the_preview() {
    let cases = [
        (GraphState::Paused, GraphState::Playing),
        (GraphState::Playing, GraphState::Paused),
        (GraphState::Null, GraphState::Ready),
        (GraphState::Paused, GraphState::Ready),
    ];
    for (previous, current) in cases {
        let mut state = State::Loading;
        assert_eq!(state.on_message(from_graph(changed(previous, current))), IDLE);
        assert_eq!(state, State::Loading);
    }
    let mut state = State::Loading;
    let msg = from_element(changed(GraphState::Ready, GraphState::Paused));
    assert_eq!(state.on_message(msg), IDLE);
    assert_eq!(state, State::Loading);
    let unknown = BusMessage {
        source: MessageSource::Unknown,
        event: changed(GraphState::Ready, GraphState::Paused),
    };
    assert_eq!(state.on_message(unknown), IDLE);
    assert_eq!(state, State::Loading);
}

#[test]
fn end_of_stream_raises_the_flag_and_leaves_the_state() {
    let mut state = State::Loaded;
    let reaction = state.on_message(from_graph(BusEvent::EndOfStream));
    assert_eq!(
        reaction,
        PreviewReaction { repaint: true, reached_end: true, refresh_metadata: false }
    );
    assert_eq!(state, State::Loaded);
    assert_eq!(state.on_message(from_element(BusEvent::EndOfStream)), IDLE);
}

#[test]
fn runtime_error_is_latched() {
    let mut state = State::Loaded;
    let reaction = state.on_message(from_element(error("decoder")));
    assert_eq!(
        reaction,
        PreviewReaction { repaint: true, reached_end: false, refresh_metadata: false }
    );
    assert_eq!(state, State::Error("decoder".to_string()));
    assert!(state.is_error());
    assert_eq!(state.on_message(from_element(error("again"))), IDLE);
    assert_eq!(state, State::Error("decoder".to_string()));
    assert_eq!(state.on_message(from_graph(changed(GraphState::Ready, GraphState::Paused))), IDLE);
    assert_eq!(state, State::Error("decoder".to_string()));
    assert!(!state.on_build_finished(Err("build".to_string())));
    assert_eq!(state, State::Error("decoder".to_string()));
    assert!(!state.latch_error("direct".to_string()));
    assert_eq!(state, State::Error("decoder".to_string()));
}

#[test]
fn error_without_a_source_is_ignored() {
    let mut state = State::Loading;
    let unknown = BusMessage { source: MessageSource::Unknown, event: error("lost") };
    assert_eq!(state.on_message(unknown), IDLE);
    assert_eq!(state, State::Loading);
    assert!(!state.is_error());
}

#[test]
fn build_failure_is_latched_and_later_errors_do_not_replace_it() {
    let mut state = State::Loading;
    assert!(state.on_build_finished(Err("no decoder".to_string())));
    assert_eq!(state, State::Error("no decoder".to_string()));
    assert_eq!(state.on_message(from_graph(error("runtime"))), IDLE);
    assert_eq!(state, State::Error("no decoder".to_string()));
}

#[test]
fn build_success_changes_nothing() {
    let mut state = State::Loading;
    assert!(!state.on_build_finished(Ok(())));
    assert_eq!(state, State::Loading);
}

#[test]
fn latch_error_reports_the_first_failure_only() {
    let mut state = State::Loaded;
    assert!(state.latch_error("a".to_string()));
    assert!(!state.latch_error("b".to_string()));
    assert_eq!(state, State::Error("a".to_string()));
}

#[test]
fn frame_pauses_a_loaded_preview_at_the_end_and_takes_the_flag_down() {
    let mut at_eos = true;
    assert_eq!(State::Loaded.poll_frame(&mut at_eos), FrameAction::Pause);
    assert!(!at_eos);
    assert_eq!(State::Loaded.poll_frame(&mut at_eos), FrameAction::Idle);
    assert!(!at_eos);
}

#[test]
fn frame_leaves_a_loading_preview_and_tears_a_failed_one_down() {
    let mut at_eos = true;
    assert_eq!(State::Loading.poll_frame(&mut at_eos), FrameAction::Idle);
    assert!(at_eos);
    assert_eq!(State::Error("x".to_string()).poll_frame(&mut at_eos), FrameAction::TearDown);
    assert!(at_eos);
    let mut at_eos = false;
    assert_eq!(State::Error("x".to_string()).poll_frame(&mut at_eos), FrameAction::TearDown);
    assert!(!at_eos);
}

#[test]
fn graph_is_active_when_paused_or_playing() {
    assert!(GraphState::Paused.active());
    assert!(GraphState::Playing.active());
    assert!(!GraphState::Ready.active());
    assert!(!GraphState::Null.active());
    assert!(!GraphState::VoidPending.active());
}

#[test]
fn toggle_plays_pauses_and_restarts_at_the_end() {
    let play = PlaybackCommand { restart: false, target: Some(GraphState::Playing) };
    let replay = PlaybackCommand { restart: true, target: Some(GraphState::Playing) };
    let pause = PlaybackCommand { restart: false, target: Some(GraphState::Paused) };
    let nothing = PlaybackCommand { restart: false, target: None };
    assert_eq!(toggle_playing(GraphState::Paused, Some(3), Some(10)), play);
    assert_eq!(toggle_playing(GraphState::Paused, Some(10), Some(10)), replay);
    assert_eq!(toggle_playing(GraphState::Ready, Some(0), Some(0)), replay);
    assert_eq!(toggle_playing(GraphState::Paused, None, Some(10)), play);
    assert_eq!(toggle_playing(GraphState::Paused, Some(10), None), play);
    assert_eq!(toggle_playing(GraphState::Paused, None, None), play);
    assert_eq!(toggle_playing(GraphState::Playing, Some(10), Some(10)), pause);
    assert_eq!(toggle_playing(GraphState::Null, Some(10), Some(10)), nothing);
    assert_eq!(toggle_playing(GraphState::VoidPending, None, None), nothing);
}
