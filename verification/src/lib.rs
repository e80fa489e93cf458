//! The coordination core of an interactive NTSC video-effect editor, and the
//! settings of the effect.
//!
//! * [`executor`]: the cooperative executor whose tasks end in mutation
//!   actions, and the laws on handing those out.
//! * [`pipeline`]: the lifecycle of the preview pipeline under the messages
//!   of the media graph.
//! * [`render_job`]: the lifecycle of an export job.
//! * [`render_settings`]: the codecs of an export and what each is built from.
//! * [`estimator`]: the progress of an export job and the estimate of its
//!   completion time.
//! * [`error_slot`]: the place where the last error is shown.
//! * [`settings`] and [`yiq_fielding`]: what can be set on the effect, and
//!   how the settings are laid out for editing.
//!
//! Everything here works on plain values. Threads, locks, the media graph and
//! the repaint primitive belong to the embedding application, which feeds
//! events in and carries out the reactions that come back.

pub mod error_slot;
pub mod estimator;
pub mod executor;
pub mod pipeline;
pub mod render_job;
pub mod render_settings;
pub mod settings;
pub mod yiq_fielding;
