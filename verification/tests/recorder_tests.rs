use nano_recorder::recorder::{BusEvent, ObserverAction, PipelineState, RecorderState};

#[test]
fn test_new_recorder_state() {
    let rs = RecorderState::new();
    assert_eq!(rs, RecorderState { state: None, file: None, duration: None });
}

#[test]
fn observer_records_pipeline_state_changes() {
    let mut rs = RecorderState::new();
    let a = rs.observe(BusEvent::StateChanged { from_pipeline: true, current: PipelineState::Playing });
    assert_eq!(a, ObserverAction::Continue);
    assert_eq!(rs.state, Some(PipelineState::Playing));

    let a = rs.observe(BusEvent::StateChanged { from_pipeline: false, current: PipelineState::Paused });
    assert_eq!(a, ObserverAction::Continue);
    assert_eq!(rs.state, Some(PipelineState::Playing));
}

#[test]
fn observer_end_of_stream_and_error() {
    let mut rs = RecorderState::new();
    assert_eq!(rs.observe(BusEvent::EndOfStream), ObserverAction::SetPipelineReady);
    assert_eq!(rs.observe(BusEvent::Other), ObserverAction::Continue);
    assert_eq!(rs.observe(BusEvent::Error), ObserverAction::StopObserving);
    assert_eq!(rs, RecorderState::new());
}

// Feeds messages to the observer as the bus loop does, stopping when told to.
fn run(rs: &mut RecorderState, events: &[BusEvent]) -> usize {
    let mut handled = 0;
    for e in events {
        handled += 1;
        if rs.observe(*e) == ObserverAction::StopObserving {
            break;
        }
    }
    handled
}

#[test]
fn observer_keeps_last_pipeline_state_and_stops_at_error() {
    let mut rs = RecorderState::new();
    let events = [
        BusEvent::StateChanged { from_pipeline: true, current: PipelineState::Ready },
        BusEvent::StateChanged { from_pipeline: false, current: PipelineState::Paused },
        BusEvent::StateChanged { from_pipeline: true, current: PipelineState::Playing },
        BusEvent::Other,
        BusEvent::Error,
        BusEvent::StateChanged { from_pipeline: true, current: PipelineState::Null },
    ];
    assert_eq!(run(&mut rs, &events), 5);
    assert_eq!(rs.state, Some(PipelineState::Playing));
    assert_eq!(rs.file, None);
    assert_eq!(rs.duration, None);
}
