//! What the recorder's bus observer makes of the pipeline's messages.
//!
//! The pipeline itself lives outside this library; the observer hands each
//! bus message to [`RecorderState::observe`], which updates the recorder's
//! state and tells the observer what to do next.

use vstd::prelude::*;

verus! {

/// The states a media pipeline can be in.
#[derive(Clone, Copy, Debug, PartialEq, Eq, Structural)]
pub enum PipelineState {
    VoidPending,
    Null,
    Ready,
    Paused,
    Playing,
    /// A state value the library has no name for, kept as its number.
    Unknown(i32),
}

/// What is known of the recording: the pipeline's last reported state, and
/// the output file and duration once they are known.
#[derive(Debug, PartialEq, Eq)]
pub struct RecorderState {
    pub state: Option<PipelineState>,
    pub file: Option<String>,
    pub duration: Option<std::time::Duration>,
}

/// The recorder's state as mathematical values.
pub struct RecorderView {
    pub state: Option<PipelineState>,
    pub file: Option<Seq<char>>,
    pub duration: Option<std::time::Duration>,
}

impl View for RecorderState {
    type V = RecorderView;

    open spec fn view(&self) -> RecorderView {
        RecorderView {
            state: self.state,
            file: match self.file {
                Some(f) => Some(f@),
                None => None,
            },
            duration: self.duration,
        }
    }
}

/// The recorder's state before any message has been read.
pub open spec fn fresh_recorder() -> RecorderView {
    RecorderView { state: None, file: None, duration: None }
}

/// A message read from the pipeline's bus, as far as the observer reads it.
#[derive(Clone, Copy, Debug, PartialEq, Eq, Structural)]
pub enum BusEvent {
    /// An element reported an error.
    Error,
    /// An object changed state; `from_pipeline` tells whether it was the
    /// pipeline itself, `current` is the state it is now in.
    StateChanged { from_pipeline: bool, current: PipelineState },
    /// The stream ended.
    EndOfStream,
    /// Any other message.
    Other,
}

/// What the observer does after a message.
#[derive(Clone, Copy, Debug, PartialEq, Eq, Structural)]
pub enum ObserverAction {
    /// Go on reading the bus.
    Continue,
    /// Put the pipeline into the ready state, then go on reading.
    SetPipelineReady,
    /// Stop reading the bus.
    StopObserving,
}

/// The pipeline state recorded after `event`, given the one before.
pub open spec fn state_after(before: Option<PipelineState>, event: BusEvent) -> Option<PipelineState> {
    match event {
        BusEvent::StateChanged { from_pipeline, current } => if from_pipeline {
            Some(current)
        } else {
            before
        },
        _ => before,
    }
}

/// The recorder's state after taking in `event`.
pub open spec fn observe_step(v: RecorderView, event: BusEvent) -> RecorderView {
    RecorderView { state: state_after(v.state, event), ..v }
}

/// The observer's next move after `event`.
pub open spec fn action_after(event: BusEvent) -> ObserverAction {
    match event {
        BusEvent::Error => ObserverAction::StopObserving,
        BusEvent::EndOfStream => ObserverAction::SetPipelineReady,
        _ => ObserverAction::Continue,
    }
}

/// The recorder's state after the observer has read `events` in order: each
/// message is taken in, and reading ends with the first message after which
/// the observer stops.
pub open spec fn observe_run(v: RecorderView, events: Seq<BusEvent>) -> RecorderView
    decreases events.len(),
{
    if events.len() == 0 {
        v
    } else {
        let next = observe_step(v, events[0]);
        if action_after(events[0]) == ObserverAction::StopObserving {
            next
        } else {
            observe_run(next, events.drop_first())
        }
    }
}

/// The state carried by the last message among `events` in which the
/// pipeline itself reported a state change, or `before` if there is none.
pub open spec fn last_pipeline_state(before: Option<PipelineState>, events: Seq<BusEvent>) -> Option<
    PipelineState,
>
    decreases events.len(),
{
    if events.len() == 0 {
        before
    } else {
        match events.last() {
            BusEvent::StateChanged { from_pipeline, current } => if from_pipeline {
                Some(current)
            } else {
                last_pipeline_state(before, events.drop_last())
            },
            _ => last_pipeline_state(before, events.drop_last()),
        }
    }
}

impl RecorderState {
    /// A recorder state with nothing known yet.
    pub fn new() -> (rs: RecorderState)
        ensures
            rs.state is None,
            rs.file is None,
            rs.duration is None,
            rs@ == fresh_recorder(),
    {
        RecorderState { state: None, file: None, duration: None }
    }

    /// Takes in one bus message: a state change of the pipeline itself is
    /// recorded; an error ends the observation; the end of the stream asks
    /// for the pipeline to be put back into the ready state.
    pub fn observe(&mut self, event: BusEvent) -> (action: ObserverAction)
        ensures
            final(self).state == state_after(old(self).state, event),
            final(self).file == old(self).file,
            final(self).duration == old(self).duration,
            action == action_after(event),
            final(self)@ == observe_step(old(self)@, event),
            event is StateChanged ==> action == ObserverAction::Continue,
            (action == ObserverAction::SetPipelineReady) == (event == BusEvent::EndOfStream),
            (action == ObserverAction::StopObserving) == (event == BusEvent::Error),
            event matches BusEvent::StateChanged { from_pipeline, current } ==> (from_pipeline
                ==> final(self).state == Some(current)) && (!from_pipeline ==> final(self).state
                == old(self).state),
            !(event is StateChanged) ==> final(self).state == old(self).state,
    {
        match event {
            BusEvent::Error => ObserverAction::StopObserving,
            BusEvent::StateChanged { from_pipeline, current } => {
                if from_pipeline {
                    self.state = Some(current);
                }
                ObserverAction::Continue
            },
            BusEvent::EndOfStream => ObserverAction::SetPipelineReady,
            BusEvent::Other => ObserverAction::Continue,
        }
    }
}

} // verus!
