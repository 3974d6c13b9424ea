//! Per-iteration decisions of the platform observer loops.
//!
//! Each platform driver runs one dedicated thread that polls its native
//! change-notification mechanism. The decisions of every iteration are made
//! here: whether to stop, to sleep until the next poll, to resolve the new
//! snapshot, or — when the notification mechanism itself failed — to
//! publish one final monitor error and terminate permanently.

use vstd::prelude::*;

use std::sync::Arc;

use crate::body::Body;
use crate::error::{ClipboardError, ClipboardResult, ErrorModel};
use crate::policy::{Resolution, ResolutionModel};

verus! {

/// What one poll of the native change-notification mechanism reported.
pub enum PollEvent {
    /// The clipboard content was replaced since the last poll.
    Change,
    /// Nothing happened; the pasteboard variants also report this for any
    /// notification that does not concern the clipboard.
    NoChange,
    /// The notification mechanism itself failed; the message describes the
    /// native failure.
    MonitorError(String),
}

/// Mathematical model of a [`PollEvent`].
pub enum PollEventModel {
    Change,
    NoChange,
    MonitorError(Seq<char>),
}

impl View for PollEvent {
    type V = PollEventModel;

    open spec fn view(&self) -> PollEventModel {
        match self {
            PollEvent::Change => PollEventModel::Change,
            PollEvent::NoChange => PollEventModel::NoChange,
            PollEvent::MonitorError(m) => PollEventModel::MonitorError(m@),
        }
    }
}

/// What the observer does with one iteration.
#[derive(Debug)]
pub enum LoopAction {
    /// The stop flag was set: leave the loop without touching the clipboard.
    Stop,
    /// A change was detected: build the catalog, run the extraction policy
    /// and publish its outcome.
    ResolveChange,
    /// Nothing to do: sleep for the configured interval, then poll again.
    Sleep,
    /// The notification mechanism failed: publish this error once to every
    /// subscriber, then leave the loop permanently.
    PublishFatal(ClipboardError),
}

/// The decision of one observer iteration. The stop flag wins over
/// everything; a change triggers resolution; a monitor failure is fatal
/// and carried to the subscribers as `MonitorFailed`.
pub fn observer_step(stop_requested: bool, event: PollEvent) -> (r: LoopAction)
    ensures
        stop_requested ==> r is Stop,
        !stop_requested ==> match event@ {
            PollEventModel::Change => r is ResolveChange,
            PollEventModel::NoChange => r is Sleep,
            PollEventModel::MonitorError(m) => r matches LoopAction::PublishFatal(e) && e@
                == ErrorModel::MonitorFailed(m),
        },
{
    if stop_requested {
        LoopAction::Stop
    } else {
        match event {
            PollEvent::Change => LoopAction::ResolveChange,
            PollEvent::NoChange => LoopAction::Sleep,
            PollEvent::MonitorError(m) => LoopAction::PublishFatal(
                ClipboardError::MonitorFailed(m),
            ),
        }
    }
}

/// Change detection for the pasteboard variant, which has no push
/// notification: the provider polls a monotonically increasing change
/// counter, and any difference from the last observed value is a change.
pub fn counter_poll_event(last_count: i64, current_count: i64) -> (r: PollEvent)
    ensures
        r is Change <==> last_count != current_count,
        r is Change || r is NoChange,
{
    if current_count != last_count {
        PollEvent::Change
    } else {
        PollEvent::NoChange
    }
}

/// What one resolution outcome publishes: a body is shared, reference
/// counted, across every subscriber queue; a soft skip publishes nothing;
/// a failure is published as this cycle's error.
pub fn publish_decision(resolution: Resolution) -> (r: Option<ClipboardResult>)
    ensures
        match resolution@ {
            ResolutionModel::Publish(bm) => r matches Some(Ok(a)) && a@ == bm,
            ResolutionModel::Skip => r is None,
            ResolutionModel::Fail(em) => r matches Some(Err(e)) && e@ == em,
        },
{
    match resolution {
        Resolution::Publish(body) => Some(Ok(Arc::<Body>::new(body))),
        Resolution::Skip => None,
        Resolution::Fail(e) => Some(Err(e)),
    }
}

} // verus!
