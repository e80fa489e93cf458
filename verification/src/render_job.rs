//! Lifecycle of an export ("render") job.
//!
//! A job waits for its graph, then renders, possibly with pauses, and ends
//! either complete or failed. Both endings are final. Timestamps are in
//! milliseconds on the UI clock.

use crate::pipeline::{BusEvent, BusMessage, GraphState, MessageSource};
use vstd::prelude::*;

verus! {

/// Where a render job stands.
#[derive(Debug, Clone, PartialEq, Eq)]
pub enum RenderJobState<E> {
    Waiting,
    Rendering,
    Paused,
    Complete { end_time: i64 },
    Error(E),
}

/// What the caller owes after a message of a render job was handled.
#[derive(Debug, Clone, Copy, PartialEq, Eq, Structural)]
pub struct RenderReaction {
    /// Ask the UI thread to redraw.
    pub repaint: bool,
    /// The stream ended at this time: hand the executor a deferred task that
    /// calls [`RenderJobState::complete`] with it. The graph cannot be
    /// stopped from inside message dispatch.
    pub schedule_completion: Option<i64>,
}

impl<E> RenderJobState<E> {
    /// The job has ended, one way or the other.
    pub open spec fn is_terminal(self) -> bool {
        self is Complete || self is Error
    }

    /// The moves that the lifecycle admits: out of `Waiting` to `Rendering`,
    /// `Paused` or `Error`; between `Rendering` and `Paused`; from either of
    /// these to `Complete` or `Error`; none out of `Complete` or `Error`.
    pub open spec fn admits(self, next: Self) -> bool {
        match self {
            RenderJobState::Waiting => next is Rendering || next is Paused || next is Error,
            RenderJobState::Rendering => next is Paused || next is Complete || next is Error,
            RenderJobState::Paused => next is Rendering || next is Complete || next is Error,
            RenderJobState::Complete { .. } => false,
            RenderJobState::Error(_) => false,
        }
    }

    /// Moves to `next` where the lifecycle admits it, and stays otherwise.
    pub open spec fn advance(self, next: Self) -> Self {
        if self.admits(next) {
            next
        } else {
            self
        }
    }

    pub fn terminal(&self) -> (b: bool)
        ensures
            b == self.is_terminal(),
    {
        match self {
            RenderJobState::Complete { .. } | RenderJobState::Error(_) => true,
            _ => false,
        }
    }

    /// Moves to `next` if the lifecycle admits that move, and says whether it
    /// did.
    pub fn try_advance(&mut self, next: Self) -> (moved: bool)
        ensures
            moved == old(self).admits(next),
            *final(self) == old(self).advance(next),
    {
        let admitted = match self {
            RenderJobState::Waiting => match next {
                RenderJobState::Rendering | RenderJobState::Paused | RenderJobState::Error(_) => true,
                _ => false,
            },
            RenderJobState::Rendering => match next {
                RenderJobState::Paused
                | RenderJobState::Complete { .. }
                | RenderJobState::Error(_) => true,
                _ => false,
            },
            RenderJobState::Paused => match next {
                RenderJobState::Rendering
                | RenderJobState::Complete { .. }
                | RenderJobState::Error(_) => true,
                _ => false,
            },
            RenderJobState::Complete { .. } => false,
            RenderJobState::Error(_) => false,
        };
        if admitted {
            *self = next;
        }
        admitted
    }

    /// Handles one bus message of the job's graph; `now` is the time at which
    /// it arrived.
    pub fn on_message(&mut self, msg: BusMessage<E>, now: i64) -> (reaction: RenderReaction)
        ensures
            *final(self) == render_next(*old(self), msg, now),
            reaction == render_reaction(*old(self), msg, now),
    {
        let idle = RenderReaction { repaint: false, schedule_completion: None };
        let from_graph = match msg.source {
            MessageSource::Unknown => {
                return idle;
            },
            MessageSource::Element => false,
            MessageSource::Pipeline => true,
        };
        match msg.event {
            BusEvent::Error(details) => {
                let moved = self.try_advance(RenderJobState::Error(details));
                RenderReaction { repaint: moved, schedule_completion: None }
            },
            BusEvent::EndOfStream => {
                if from_graph {
                    RenderReaction { repaint: false, schedule_completion: Some(now) }
                } else {
                    idle
                }
            },
            BusEvent::StateChanged { previous: _, current, pending } => {
                if from_graph {
                    match mirrored(current, pending, now) {
                        Some(next) => {
                            self.try_advance(next);
                        },
                        None => {},
                    }
                    RenderReaction { repaint: true, schedule_completion: None }
                } else {
                    idle
                }
            },
            BusEvent::Other => idle,
        }
    }

    /// The body of the deferred task that ends a job whose stream has run
    /// out: the job becomes `Complete` with the given end time if it was
    /// rendering or paused, and stays as it is otherwise.
    ///
    /// Returns whether the caller must now stop the graph. However many such
    /// tasks were scheduled for one job, only the first to run is told so.
    pub fn complete(&mut self, end_time: i64) -> (stop_graph: bool)
        ensures
            stop_graph == (*old(self) is Rendering || *old(self) is Paused),
            *final(self) == old(self).advance(RenderJobState::Complete { end_time }),
            stop_graph ==> *final(self) == (RenderJobState::<E>::Complete { end_time }),
            !stop_graph ==> *final(self) == *old(self),
    {
        self.try_advance(RenderJobState::Complete { end_time })
    }
}

/// The job state that mirrors what the graph reports of itself: a graph that
/// is shutting down or has shut down has finished at `now`, a paused one is
/// `Paused`, a playing one is `Rendering`, an idle one is `Waiting`.
pub open spec fn mirror_of<E>(current: GraphState, pending: GraphState, now: i64) -> Option<
    RenderJobState<E>,
> {
    if pending is Null {
        Some(RenderJobState::Complete { end_time: now })
    } else {
        match current {
            GraphState::Paused => Some(RenderJobState::Paused),
            GraphState::Playing => Some(RenderJobState::Rendering),
            GraphState::Ready => Some(RenderJobState::Waiting),
            GraphState::Null => Some(RenderJobState::Complete { end_time: now }),
            GraphState::VoidPending => None,
        }
    }
}

/// Computes [`mirror_of`].
pub fn mirrored<E>(current: GraphState, pending: GraphState, now: i64) -> (next: Option<
    RenderJobState<E>,
>)
    ensures
        next == mirror_of::<E>(current, pending, now),
{
    match pending {
        GraphState::Null => Some(RenderJobState::Complete { end_time: now }),
        _ => match current {
            GraphState::Paused => Some(RenderJobState::Paused),
            GraphState::Playing => Some(RenderJobState::Rendering),
            GraphState::Ready => Some(RenderJobState::Waiting),
            GraphState::Null => Some(RenderJobState::Complete { end_time: now }),
            GraphState::VoidPending => None,
        },
    }
}

/// The job state after `msg`, which arrived at `now`, seen from `state`.
pub open spec fn render_next<E>(state: RenderJobState<E>, msg: BusMessage<E>, now: i64) -> RenderJobState<E> {
    if msg.source is Unknown {
        state
    } else {
        match msg.event {
            BusEvent::Error(details) => state.advance(RenderJobState::Error(details)),
            BusEvent::StateChanged { current, pending, .. } => if msg.source is Pipeline {
                match mirror_of::<E>(current, pending, now) {
                    Some(next) => state.advance(next),
                    None => state,
                }
            } else {
                state
            },
            _ => state,
        }
    }
}

/// The reactions owed for `msg`, which arrived at `now`, seen from `state`.
pub open spec fn render_reaction<E>(state: RenderJobState<E>, msg: BusMessage<E>, now: i64) -> RenderReaction {
    RenderReaction {
        repaint: (!(msg.source is Unknown) && msg.event is Error && !state.is_terminal()) || (
        msg.source is Pipeline && msg.event is StateChanged),
        schedule_completion: if msg.source is Pipeline && msg.event is EndOfStream {
            Some(now)
        } else {
            None
        },
    }
}

/// Latch: once a job has failed, no message and no completion task changes
/// it, and a further error asks for no repaint.
pub proof fn lemma_error_is_latched<E>(
    state: RenderJobState<E>,
    msg: BusMessage<E>,
    now: i64,
    end_time: i64,
)
    requires
        state is Error,
    ensures
        render_next(state, msg, now) == state,
        state.advance(RenderJobState::Complete { end_time }) == state,
        msg.event is Error ==> !render_reaction(state, msg, now).repaint,
{
}

/// Terminal: a job that is `Complete` or `Error` stays exactly as it is under
/// every message and under every completion task, and no such task asks for
/// the graph to be stopped again.
pub proof fn lemma_terminal_is_absorbing<E>(
    state: RenderJobState<E>,
    msg: BusMessage<E>,
    now: i64,
    end_time: i64,
)
    requires
        state.is_terminal(),
    ensures
        render_next(state, msg, now) == state,
        state.advance(RenderJobState::Complete { end_time }) == state,
        !state.admits(RenderJobState::Complete { end_time }),
{
}

/// Every message either leaves the job where it is or takes one of the moves
/// that the lifecycle admits.
pub proof fn lemma_steps_are_admitted<E>(state: RenderJobState<E>, msg: BusMessage<E>, now: i64)
    ensures
        render_next(state, msg, now) == state || state.admits(render_next(state, msg, now)),
{
}

} // verus!
