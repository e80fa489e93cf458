//! Lifecycle of the preview pipeline.
//!
//! The media graph reports what happens to it through bus messages, which
//! arrive on the graph's own threads. The functions here decide what such a
//! message does to the shared lifecycle cell and which reactions the caller
//! owes (a repaint request, raising the end-of-stream flag, re-reading the
//! stream's metadata). They never touch the graph themselves.
//!
//! The error details `E` are carried through without being looked at.

use vstd::prelude::*;

verus! {

/// State of the media graph as its runtime reports it.
#[derive(Debug, Clone, Copy, PartialEq, Eq, Structural)]
pub enum GraphState {
    VoidPending,
    Null,
    Ready,
    Paused,
    Playing,
}

impl GraphState {
    /// The graph holds data and is either paused or playing.
    pub open spec fn is_active(self) -> bool {
        self is Paused || self is Playing
    }

    pub fn active(&self) -> (b: bool)
        ensures
            b == self.is_active(),
    {
        match self {
            GraphState::Paused | GraphState::Playing => true,
            _ => false,
        }
    }
}

/// Who posted a bus message.
#[derive(Debug, Clone, Copy, PartialEq, Eq, Structural)]
pub enum MessageSource {
    /// The message names no source; such messages are ignored altogether.
    Unknown,
    /// Some element inside the graph.
    Element,
    /// The graph as a whole.
    Pipeline,
}

/// What a bus message says, reduced to what the lifecycle depends on.
#[derive(Debug, Clone, PartialEq, Eq)]
pub enum BusEvent<E> {
    /// Something failed while the graph was running.
    Error(E),
    /// The stream has been played to its end.
    EndOfStream,
    /// The sender went from `previous` to `current` and is heading for `pending`.
    StateChanged { previous: GraphState, current: GraphState, pending: GraphState },
    /// Anything else.
    Other,
}

/// One message from the graph's bus.
#[derive(Debug, Clone, PartialEq, Eq)]
pub struct BusMessage<E> {
    pub source: MessageSource,
    pub event: BusEvent<E>,
}

/// Lifecycle of a pipeline that is being previewed.
///
/// `Error` is a latch: no event leads out of it.
#[derive(Debug, Clone, PartialEq, Eq)]
pub enum PipelineState<E> {
    Loading,
    Loaded,
    Error(E),
}

/// What the caller owes after a message was handled.
#[derive(Debug, Clone, Copy, PartialEq, Eq, Structural)]
pub struct PreviewReaction {
    /// Ask the UI thread to redraw.
    pub repaint: bool,
    /// Raise the end-of-stream flag; the UI thread pauses the graph when it
    /// next sees it, because the graph cannot be paused from inside message
    /// dispatch.
    pub reached_end: bool,
    /// The graph has started: read its metadata again.
    pub refresh_metadata: bool,
}

/// What the UI thread does with the preview at the start of a frame.
#[derive(Debug, Clone, Copy, PartialEq, Eq, Structural)]
pub enum FrameAction {
    /// Leave the pipeline alone.
    Idle,
    /// Pause the graph: the stream ran to its end since the last frame.
    Pause,
    /// Remove the pipeline and show its error.
    TearDown,
}

/// The message reports that the graph itself left a state without data for
/// one in which it is paused or playing.
pub open spec fn starts_graph<E>(msg: BusMessage<E>) -> bool {
    msg.source is Pipeline && (msg.event matches BusEvent::StateChanged { previous, current, .. }
        && !previous.is_active() && current.is_active())
}

/// The lifecycle after `msg`, seen from `state`.
pub open spec fn preview_next<E>(state: PipelineState<E>, msg: BusMessage<E>) -> PipelineState<E> {
    if state is Error || msg.source is Unknown {
        state
    } else {
        match msg.event {
            BusEvent::Error(details) => PipelineState::Error(details),
            _ => if starts_graph(msg) {
                PipelineState::Loaded
            } else {
                state
            },
        }
    }
}

/// The lifecycle after the graph builder has reported `outcome`: a failure is
/// latched, unless one is latched already; success changes nothing.
pub open spec fn build_next<E>(state: PipelineState<E>, outcome: Result<(), E>) -> PipelineState<E> {
    match outcome {
        Err(details) if !(state is Error) => PipelineState::Error(details),
        _ => state,
    }
}

/// The reactions owed for `msg`, seen from `state`.
pub open spec fn preview_reaction<E>(state: PipelineState<E>, msg: BusMessage<E>) -> PreviewReaction {
    let reached_end = msg.source is Pipeline && msg.event is EndOfStream;
    let refresh_metadata = starts_graph(msg) && !(state is Error);
    let latched = !(msg.source is Unknown) && msg.event is Error && !(state is Error);
    PreviewReaction {
        repaint: latched || reached_end || (starts_graph(msg) && state is Loading),
        reached_end,
        refresh_metadata,
    }
}

impl<E> PipelineState<E> {
    pub fn is_error(&self) -> (b: bool)
        ensures
            b == (*self is Error),
    {
        match self {
            PipelineState::Error(_) => true,
            _ => false,
        }
    }

    /// Records a failure unless one is recorded already.
    ///
    /// Returns whether the state changed, which is when a repaint is owed.
    pub fn latch_error(&mut self, details: E) -> (changed: bool)
        ensures
            changed == !(*old(self) is Error),
            *final(self) == (if *old(self) is Error {
                *old(self)
            } else {
                PipelineState::Error(details)
            }),
    {
        if self.is_error() {
            false
        } else {
            *self = PipelineState::Error(details);
            true
        }
    }

    /// Takes in the outcome of building the graph, which arrives at most once
    /// and off the UI thread. A failure is latched; success changes nothing,
    /// since the graph announces on the bus when it has started.
    ///
    /// Returns whether a repaint is owed.
    pub fn on_build_finished(&mut self, outcome: Result<(), E>) -> (repaint: bool)
        ensures
            *final(self) == build_next(*old(self), outcome),
            repaint == (outcome is Err && !(*old(self) is Error)),
    {
        match outcome {
            Ok(_) => false,
            Err(details) => self.latch_error(details),
        }
    }

    /// Handles one bus message of a previewed pipeline.
    pub fn on_message(&mut self, msg: BusMessage<E>) -> (reaction: PreviewReaction)
        ensures
            *final(self) == preview_next(*old(self), msg),
            reaction == preview_reaction(*old(self), msg),
    {
        let idle = PreviewReaction { repaint: false, reached_end: false, refresh_metadata: false };
        let from_graph = match msg.source {
            MessageSource::Unknown => {
                return idle;
            },
            MessageSource::Element => false,
            MessageSource::Pipeline => true,
        };
        match msg.event {
            BusEvent::Error(details) => {
                let changed = self.latch_error(details);
                PreviewReaction { repaint: changed, reached_end: false, refresh_metadata: false }
            },
            BusEvent::EndOfStream => {
                PreviewReaction { repaint: from_graph, reached_end: from_graph, refresh_metadata: false }
            },
            BusEvent::StateChanged { previous, current, pending: _ } => {
                if from_graph && !previous.active() && current.active() && !self.is_error() {
                    let first = match self {
                        PipelineState::Loading => true,
                        _ => false,
                    };
                    *self = PipelineState::Loaded;
                    PreviewReaction { repaint: first, reached_end: false, refresh_metadata: true }
                } else {
                    idle
                }
            },
            BusEvent::Other => idle,
        }
    }

    /// Decides, once per frame and on the UI thread, what to do with the
    /// preview. A raised end-of-stream flag is taken down when it is acted on.
    pub fn poll_frame(&self, at_eos: &mut bool) -> (action: FrameAction)
        ensures
            action == (match *self {
                PipelineState::Loading => FrameAction::Idle,
                PipelineState::Loaded => if *old(at_eos) {
                    FrameAction::Pause
                } else {
                    FrameAction::Idle
                },
                PipelineState::Error(_) => FrameAction::TearDown,
            }),
            *final(at_eos) == (*old(at_eos) && !(*self is Loaded)),
    {
        match self {
            PipelineState::Loading => FrameAction::Idle,
            PipelineState::Loaded => {
                if *at_eos {
                    *at_eos = false;
                    FrameAction::Pause
                } else {
                    FrameAction::Idle
                }
            },
            PipelineState::Error(_) => FrameAction::TearDown,
        }
    }
}

/// What pressing "play / pause" asks of the graph.
#[derive(Debug, Clone, Copy, PartialEq, Eq, Structural)]
pub struct PlaybackCommand {
    /// Seek back to the start first: the stream stands at its end.
    pub restart: bool,
    /// The state to put the graph in, if any.
    pub target: Option<GraphState>,
}

/// The command for a graph in state `current` that stands at `position` of
/// `duration`: a paused or idle graph is set playing, from the start if it
/// stands exactly at its end; a playing one is paused; any other is left
/// alone.
pub open spec fn toggle_command(
    current: GraphState,
    position: Option<u64>,
    duration: Option<u64>,
) -> PlaybackCommand {
    match current {
        GraphState::Paused | GraphState::Ready => PlaybackCommand {
            restart: position is Some && position == duration,
            target: Some(GraphState::Playing),
        },
        GraphState::Playing => PlaybackCommand { restart: false, target: Some(GraphState::Paused) },
        _ => PlaybackCommand { restart: false, target: None },
    }
}

/// Computes [`toggle_command`].
pub fn toggle_playing(current: GraphState, position: Option<u64>, duration: Option<u64>) -> (command:
    PlaybackCommand)
    ensures
        command == toggle_command(current, position, duration),
{
    match current {
        GraphState::Paused | GraphState::Ready => {
            let restart = match (position, duration) {
                (Some(at), Some(end)) => at == end,
                _ => false,
            };
            PlaybackCommand { restart, target: Some(GraphState::Playing) }
        },
        GraphState::Playing => PlaybackCommand { restart: false, target: Some(GraphState::Paused) },
        _ => PlaybackCommand { restart: false, target: None },
    }
}

/// Latch: once a pipeline has failed, neither a message nor the builder's
/// report changes its state, and a further failure asks for no repaint.
pub proof fn lemma_error_is_latched<E>(
    state: PipelineState<E>,
    msg: BusMessage<E>,
    outcome: Result<(), E>,
)
    requires
        state is Error,
    ensures
        preview_next(state, msg) == state,
        build_next(state, outcome) == state,
        msg.event is Error ==> !preview_reaction(state, msg).repaint,
        !preview_reaction(state, msg).refresh_metadata,
{
}

} // verus!
