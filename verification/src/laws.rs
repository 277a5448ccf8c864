//! Properties of the pairing protocol that span several requests.

use vstd::prelude::*;

use crate::client_handlers::{
    RecorderCommand, StatusCode, TimerCommand, authorized, pair_next, pair_reply, start_next,
    start_recorder, start_reply, start_timer, stop_next, stop_recorder, stop_reply, stop_timer,
    unpair_next, unpair_reply, unpair_timer, held_after, running_after, stopwatch_held_nanos,
    stopwatch_running,
};
use crate::models::{HostView, idle_host};
use crate::utils::is_valid_key;
use crate::recorder::{
    BusEvent, ObserverAction, PipelineState, RecorderView, action_after, fresh_recorder, last_pipeline_state, observe_run, observe_step,
    state_after,
};

verus! {

/// The invariant every reachable host satisfies: a recording runs only for
/// a paired client, an unpaired host holds no key, and a paired host holds
/// a key of the generated shape.
pub open spec fn well_formed(h: HostView) -> bool {
    &&& h.is_recording ==> h.is_paired
    &&& !h.is_paired ==> h.pair_key.len() == 0
    &&& h.is_paired ==> is_valid_key(h.pair_key)
}

/// The starting host is well formed.
pub proof fn lemma_idle_well_formed()
    ensures
        well_formed(idle_host()),
{
}

/// Every request keeps the host well formed, pairing included as long as
/// the key handed out has the generated shape (which `pair` ensures).
pub proof fn lemma_requests_keep_well_formed(h: HostView, fresh: Seq<char>, key: Seq<char>)
    requires
        well_formed(h),
        is_valid_key(fresh),
    ensures
        well_formed(pair_next(h, fresh)),
        well_formed(unpair_next(h, key)),
        well_formed(start_next(h, key)),
        well_formed(stop_next(h, key)),
{
}

/// Pairing a host that had nobody paired answers with the key that from
/// then on authorizes requests, and unpairing with that same key brings the
/// host back to the starting state.
pub proof fn lemma_pair_then_unpair(h: HostView, key: Seq<char>)
    requires
        !h.is_paired,
    ensures
        pair_reply(h, key) == (StatusCode::Success, key),
        authorized(pair_next(h, key), key),
        unpair_reply(pair_next(h, key), key) == (StatusCode::Success, "Disconnected"@),
        unpair_next(pair_next(h, key), key) == idle_host(),
{
}

/// While a client is paired, a further pairing request is refused and
/// changes nothing.
pub proof fn lemma_pair_refused_while_paired(h: HostView, key: Seq<char>)
    requires
        h.is_paired,
    ensures
        pair_next(h, key) == h,
        pair_reply(h, key) == (StatusCode::Unauthorized, "Error"@),
{
}

/// A request whose key is not the paired client's is refused: the host is
/// unchanged, the answer is "Error" with status Unauthorized, and neither the
/// stopwatch nor the recorder is touched.
pub proof fn lemma_unauthorized_requests_change_nothing(h: HostView, key: Seq<char>)
    requires
        !authorized(h, key),
    ensures
        unpair_next(h, key) == h,
        start_next(h, key) == h,
        stop_next(h, key) == h,
        unpair_reply(h, key) == (StatusCode::Unauthorized, "Error"@),
        start_reply(h, key) == (StatusCode::Unauthorized, "Error"@),
        stop_reply(h, key) == (StatusCode::Unauthorized, "Error"@),
        unpair_timer(h, key) == TimerCommand::Leave,
        start_timer(h, key) == TimerCommand::Leave,
        stop_timer(h, key) == TimerCommand::Leave,
        start_recorder(h, key) == RecorderCommand::Nothing,
        stop_recorder(h, key) == RecorderCommand::Nothing,
{
}

/// Starting and then stopping a recording, both by the paired client, puts
/// the host back where it was, having asked the recorder to record and then
/// to stop, and the stopwatch to restart and then to stop.
pub proof fn lemma_start_then_stop(h: HostView, key: Seq<char>)
    requires
        authorized(h, key),
        !h.is_recording,
    ensures
        stop_next(start_next(h, key), key) == h,
        start_recorder(h, key) == RecorderCommand::Record,
        stop_recorder(start_next(h, key), key) == RecorderCommand::Stop,
        start_timer(h, key) == TimerCommand::ResetAndStart,
        stop_timer(start_next(h, key), key) == TimerCommand::Stop,
        start_reply(h, key) == (StatusCode::Success, "Success"@),
        stop_reply(start_next(h, key), key) == (StatusCode::Success, "Success"@),
{
}

/// A second start request changes nothing and is answered "Recording
/// Already Started"; likewise a second stop request is answered "Recording
/// Already Stopped".
pub proof fn lemma_repeated_start_and_stop(h: HostView, key: Seq<char>)
    requires
        authorized(h, key),
    ensures
        start_next(start_next(h, key), key) == start_next(h, key),
        start_reply(start_next(h, key), key) == (
            StatusCode::AlreadyReported,
            "Recording Already Started"@,
        ),
        start_recorder(start_next(h, key), key) == RecorderCommand::Nothing,
        stop_next(stop_next(h, key), key) == stop_next(h, key),
        stop_reply(stop_next(h, key), key) == (
            StatusCode::AlreadyReported,
            "Recording Already Stopped"@,
        ),
        stop_recorder(stop_next(h, key), key) == RecorderCommand::Nothing,
{
}

/// Unpairing also ends a running recording's bookkeeping: after the paired
/// client unpairs, the host is not recording and a start request with the
/// old key is refused.
pub proof fn lemma_unpair_revokes_key(h: HostView, key: Seq<char>)
    requires
        authorized(h, key),
    ensures
        !unpair_next(h, key).is_recording,
        !authorized(unpair_next(h, key), key),
        start_reply(unpair_next(h, key), key) == (StatusCode::Unauthorized, "Error"@),
{
}

// ---------------------------------------------------------------------------
// what each request does to the stopwatch

/// The stopwatch `after` is what the command `cmd` makes of `before`, as far
/// as the stopwatch's running flag and held time show.
pub open spec fn stopwatch_moved(
    before: stopwatch::Stopwatch,
    after: stopwatch::Stopwatch,
    cmd: TimerCommand,
) -> bool {
    &&& stopwatch_running(after) == running_after(stopwatch_running(before), cmd)
    &&& held_after(before, after, cmd)
}

/// Unpairing by the paired client resets the stopwatch: whatever it held and
/// whether or not it ran, it ends stopped with no time held, so the time of
/// an earlier recording is not carried over.
pub proof fn lemma_unpair_resets_stopwatch(
    h: HostView,
    key: Seq<char>,
    before: stopwatch::Stopwatch,
    after: stopwatch::Stopwatch,
)
    requires
        authorized(h, key),
        stopwatch_moved(before, after, unpair_timer(h, key)),
    ensures
        !stopwatch_running(after),
        stopwatch_held_nanos(after) == 0,
{
}

/// Starting a recording restarts the stopwatch from zero: it ends running
/// with no time held, whatever it held before.
pub proof fn lemma_start_restarts_stopwatch(
    h: HostView,
    key: Seq<char>,
    before: stopwatch::Stopwatch,
    after: stopwatch::Stopwatch,
)
    requires
        authorized(h, key),
        !h.is_recording,
        stopwatch_moved(before, after, start_timer(h, key)),
    ensures
        stopwatch_running(after),
        stopwatch_held_nanos(after) == 0,
{
}

/// Stopping a recording stops the stopwatch and keeps the time it held:
/// the held time never goes down.
pub proof fn lemma_stop_keeps_stopwatch_time(
    h: HostView,
    key: Seq<char>,
    before: stopwatch::Stopwatch,
    after: stopwatch::Stopwatch,
)
    requires
        authorized(h, key),
        h.is_recording,
        stopwatch_moved(before, after, stop_timer(h, key)),
    ensures
        !stopwatch_running(after),
        stopwatch_held_nanos(after) >= stopwatch_held_nanos(before),
{
}

/// A request that is refused or answered "already" does not touch the
/// stopwatch: its timer command is to leave it alone.
pub proof fn lemma_other_requests_leave_stopwatch(h: HostView, key: Seq<char>)
    ensures
        !authorized(h, key) ==> unpair_timer(h, key) == TimerCommand::Leave,
        !(authorized(h, key) && !h.is_recording) ==> start_timer(h, key) == TimerCommand::Leave,
        !(authorized(h, key) && h.is_recording) ==> stop_timer(h, key) == TimerCommand::Leave,
{
}

// ---------------------------------------------------------------------------
// sequences of requests

/// A request to the host, with the key it carries (for a pairing request,
/// the fresh key that would be handed out).
pub enum Request {
    Pair(Seq<char>),
    Unpair(Seq<char>),
    Start(Seq<char>),
    Stop(Seq<char>),
}

/// The host after one request.
pub open spec fn host_after(h: HostView, r: Request) -> HostView {
    match r {
        Request::Pair(k) => pair_next(h, k),
        Request::Unpair(k) => unpair_next(h, k),
        Request::Start(k) => start_next(h, k),
        Request::Stop(k) => stop_next(h, k),
    }
}

/// The answer to one request.
pub open spec fn reply_to(h: HostView, r: Request) -> (StatusCode, Seq<char>) {
    match r {
        Request::Pair(k) => pair_reply(h, k),
        Request::Unpair(k) => unpair_reply(h, k),
        Request::Start(k) => start_reply(h, k),
        Request::Stop(k) => stop_reply(h, k),
    }
}

/// The host after the requests `rs`, handled in order.
pub open spec fn host_after_all(h: HostView, rs: Seq<Request>) -> HostView
    decreases rs.len(),
{
    if rs.len() == 0 {
        h
    } else {
        host_after_all(host_after(h, rs[0]), rs.drop_first())
    }
}

/// `rs` holds no pairing request.
pub open spec fn no_pairing(rs: Seq<Request>) -> bool {
    forall|i: int| 0 <= i < rs.len() ==> !(#[trigger] rs[i] is Pair)
}

proof fn lemma_unpaired_fixed(h: HostView, rs: Seq<Request>)
    requires
        !h.is_paired,
        no_pairing(rs),
    ensures
        host_after_all(h, rs) == h,
    decreases rs.len(),
{
    if rs.len() > 0 {
        assert(!(rs[0] is Pair));
        assert(host_after(h, rs[0]) == h);
        let rest = rs.drop_first();
        assert forall|i: int| 0 <= i < rest.len() implies !(#[trigger] rest[i] is Pair) by {
            assert(rest[i] == rs[i + 1]);
        }
        lemma_unpaired_fixed(h, rest);
    }
}

/// A host with nobody paired refuses every request other than pairing:
/// however many unpairing, start and stop requests come, with whatever keys,
/// each is answered "Error" with status Unauthorized and the host never
/// changes.
pub proof fn lemma_unpaired_host_refuses_until_paired(h: HostView, rs: Seq<Request>)
    requires
        !h.is_paired,
        no_pairing(rs),
    ensures
        forall|i: int| 0 <= i <= rs.len() ==> #[trigger] host_after_all(h, rs.take(i)) == h,
        forall|i: int|
            0 <= i < rs.len() ==> #[trigger] reply_to(host_after_all(h, rs.take(i)), rs[i]) == (
                StatusCode::Unauthorized,
                "Error"@,
            ),
{
    assert forall|i: int| 0 <= i <= rs.len() implies #[trigger] host_after_all(h, rs.take(i)) == h by {
        let pre = rs.take(i);
        assert forall|j: int| 0 <= j < pre.len() implies !(#[trigger] pre[j] is Pair) by {
            assert(pre[j] == rs[j]);
        }
        lemma_unpaired_fixed(h, pre);
    }
    assert forall|i: int| 0 <= i < rs.len() implies #[trigger] reply_to(
        host_after_all(h, rs.take(i)),
        rs[i],
    ) == (StatusCode::Unauthorized, "Error"@) by {
        assert(host_after_all(h, rs.take(i)) == h);
        assert(!(rs[i] is Pair));
    }
}

/// Once the paired client has unpaired, its key stays revoked until the next
/// pairing: after any further requests other than pairing, the host is in
/// its starting state and the old key is refused for starting, stopping and
/// unpairing.
pub proof fn lemma_key_stays_revoked(h: HostView, key: Seq<char>, rs: Seq<Request>)
    requires
        !h.is_paired,
        no_pairing(rs),
    ensures
        host_after_all(unpair_next(pair_next(h, key), key), rs) == idle_host(),
        start_reply(host_after_all(unpair_next(pair_next(h, key), key), rs), key) == (
            StatusCode::Unauthorized,
            "Error"@,
        ),
        stop_reply(host_after_all(unpair_next(pair_next(h, key), key), rs), key) == (
            StatusCode::Unauthorized,
            "Error"@,
        ),
        unpair_reply(host_after_all(unpair_next(pair_next(h, key), key), rs), key) == (
            StatusCode::Unauthorized,
            "Error"@,
        ),
{
    lemma_unpaired_fixed(idle_host(), rs);
}

// ---------------------------------------------------------------------------
// sequences of bus messages

/// The observer keeps reading after every message except two: it stops only
/// on an error, and it asks for the pipeline to be put back into the ready
/// state only at the end of the stream. A state change, of the pipeline or of
/// any of its elements and into whatever state, never does either.
pub proof fn lemma_observer_actions(event: BusEvent)
    ensures
        (action_after(event) == ObserverAction::StopObserving) == (event == BusEvent::Error),
        (action_after(event) == ObserverAction::SetPipelineReady) == (event
            == BusEvent::EndOfStream),
        (action_after(event) == ObserverAction::Continue) == (event is StateChanged || event
            is Other),
        forall|from_pipeline: bool, current: PipelineState|
            #[trigger] action_after(BusEvent::StateChanged { from_pipeline, current })
                == ObserverAction::Continue,
{
}

/// Only a state change reported by the pipeline itself changes the recorded
/// state, and it records exactly the state reported.
pub proof fn lemma_observer_records_only_pipeline_changes(
    before: Option<PipelineState>,
    event: BusEvent,
)
    ensures
        event matches BusEvent::StateChanged { from_pipeline, current } ==> (from_pipeline
            ==> state_after(before, event) == Some(current)) && (!from_pipeline ==> state_after(
            before,
            event,
        ) == before),
        !(event is StateChanged) ==> state_after(before, event) == before,
{
}

/// Reading bus messages never touches the recorder's file or duration; in
/// particular a fresh recorder keeps both empty whatever the bus delivers.
pub proof fn lemma_observing_keeps_file_and_duration(v: RecorderView, events: Seq<BusEvent>)
    ensures
        observe_run(v, events).file == v.file,
        observe_run(v, events).duration == v.duration,
        observe_run(fresh_recorder(), events).file is None,
        observe_run(fresh_recorder(), events).duration is None,
    decreases events.len(),
{
    if events.len() > 0 {
        lemma_observing_keeps_file_and_duration(observe_step(v, events[0]), events.drop_first());
        lemma_observing_keeps_file_and_duration(
            observe_step(fresh_recorder(), events[0]),
            events.drop_first(),
        );
    }
}

proof fn lemma_last_state_first_step(before: Option<PipelineState>, events: Seq<BusEvent>)
    requires
        events.len() > 0,
    ensures
        last_pipeline_state(before, events) == last_pipeline_state(
            state_after(before, events[0]),
            events.drop_first(),
        ),
    decreases events.len(),
{
    let rest = events.drop_first();
    if events.len() == 1 {
        assert(events.last() == events[0]);
        assert(events.drop_last().len() == 0);
        assert(rest.len() == 0);
        assert(last_pipeline_state(state_after(before, events[0]), rest) == state_after(before, events[0]));
        assert(last_pipeline_state(before, events.drop_last()) == before);
        match events[0] {
            BusEvent::StateChanged { from_pipeline, current } => {
                assert(last_pipeline_state(before, events) == state_after(before, events[0]));
            }
            _ => {
                assert(last_pipeline_state(before, events) == before);
            }
        }
    } else {
        let init = events.drop_last();
        lemma_last_state_first_step(before, init);
        assert(init[0] == events[0]);
        assert(init.drop_first() =~= rest.drop_last());
        assert(rest.last() == events.last());
        assert(last_pipeline_state(before, init) == last_pipeline_state(
            state_after(before, events[0]),
            rest.drop_last(),
        ));
    }
}

/// As long as no error has come, the recorded state is the one carried by
/// the last state change the pipeline itself reported; state changes of the
/// pipeline's elements never count.
pub proof fn lemma_observed_state_is_last_reported(v: RecorderView, events: Seq<BusEvent>)
    requires
        forall|i: int| 0 <= i < events.len() ==> #[trigger] events[i] != BusEvent::Error,
    ensures
        observe_run(v, events).state == last_pipeline_state(v.state, events),
    decreases events.len(),
{
    if events.len() > 0 {
        assert(events[0] != BusEvent::Error);
        let rest = events.drop_first();
        assert forall|i: int| 0 <= i < rest.len() implies #[trigger] rest[i] != BusEvent::Error by {
            assert(rest[i] == events[i + 1]);
        }
        lemma_observed_state_is_last_reported(observe_step(v, events[0]), rest);
        lemma_last_state_first_step(v.state, events);
    }
}

/// Nothing is taken in after an error: the recorder ends as it was when the
/// first error arrived, whatever messages follow it.
pub proof fn lemma_nothing_handled_after_error(v: RecorderView, events: Seq<BusEvent>, i: int)
    requires
        0 <= i < events.len(),
        events[i] == BusEvent::Error,
    ensures
        observe_run(v, events) == observe_run(v, events.take(i)),
    decreases i,
{
    if i == 0 {
        assert(events.take(0).len() == 0);
    } else {
        let rest = events.drop_first();
        assert(rest[i - 1] == events[i]);
        if events[0] == BusEvent::Error {
            lemma_nothing_handled_after_error(v, events, 0);
        }
        lemma_nothing_handled_after_error(observe_step(v, events[0]), rest, i - 1);
        assert(events.take(i)[0] == events[0]);
        assert(events.take(i).drop_first() == rest.take(i - 1));
    }
}

} // verus!
