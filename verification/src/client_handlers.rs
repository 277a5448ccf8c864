//! The request handlers: how the host answers pairing, start, stop and
//! unpairing requests, and what it asks of the stopwatch and the recorder.

use vstd::prelude::*;

use crate::models::{Client, Host, HostView, Response, idle_host};
use crate::utils::{generate, is_valid_key};

verus! {

/// The HTTP status an answer carries.
#[derive(Clone, Copy, Debug, PartialEq, Eq, Structural)]
pub enum StatusCode {
    Success,
    Unauthorized,
    AlreadyReported,
}

/// An answer to a request: a status and a message body.
pub struct Reply {
    pub status: StatusCode,
    pub body: Response,
}

impl View for Reply {
    type V = (StatusCode, Seq<char>);

    open spec fn view(&self) -> (StatusCode, Seq<char>) {
        (self.status, self.body.msg@)
    }
}

/// What a request does to the stopwatch that times the recording.
#[derive(Clone, Copy, Debug, PartialEq, Eq, Structural)]
pub enum TimerCommand {
    Leave,
    Reset,
    ResetAndStart,
    Stop,
}

/// What a request asks of the video recorder.
#[derive(Clone, Copy, Debug, PartialEq, Eq, Structural)]
pub enum RecorderCommand {
    Nothing,
    Record,
    Stop,
}

/// The full decision taken on a request, apart from the new host state.
pub struct Outcome {
    pub reply: Reply,
    pub timer: TimerCommand,
    pub recorder: RecorderCommand,
}

/// A request carrying `key` comes from the paired client.
pub open spec fn authorized(h: HostView, key: Seq<char>) -> bool {
    h.is_paired && h.pair_key == key
}

// ---------------------------------------------------------------------------
// pairing

/// The host after a pairing request that offered the fresh key `key`.
pub open spec fn pair_next(h: HostView, key: Seq<char>) -> HostView {
    if !h.is_paired {
        HostView { is_paired: true, pair_key: key, is_recording: h.is_recording }
    } else {
        h
    }
}

/// The answer to a pairing request that offered the fresh key `key`: the
/// key itself when nobody was paired, else a refusal.
pub open spec fn pair_reply(h: HostView, key: Seq<char>) -> (StatusCode, Seq<char>) {
    if !h.is_paired {
        (StatusCode::Success, key)
    } else {
        (StatusCode::Unauthorized, "Error"@)
    }
}

// ---------------------------------------------------------------------------
// unpairing

/// The host after an unpairing request carrying `key`.
pub open spec fn unpair_next(h: HostView, key: Seq<char>) -> HostView {
    if authorized(h, key) {
        idle_host()
    } else {
        h
    }
}

/// The answer to an unpairing request carrying `key`.
pub open spec fn unpair_reply(h: HostView, key: Seq<char>) -> (StatusCode, Seq<char>) {
    if authorized(h, key) {
        (StatusCode::Success, "Disconnected"@)
    } else {
        (StatusCode::Unauthorized, "Error"@)
    }
}

/// What an unpairing request carrying `key` does to the stopwatch.
pub open spec fn unpair_timer(h: HostView, key: Seq<char>) -> TimerCommand {
    if authorized(h, key) {
        TimerCommand::Reset
    } else {
        TimerCommand::Leave
    }
}

// ---------------------------------------------------------------------------
// starting a recording

/// The host after a start request carrying `key`.
pub open spec fn start_next(h: HostView, key: Seq<char>) -> HostView {
    if authorized(h, key) && !h.is_recording {
        HostView { is_recording: true, ..h }
    } else {
        h
    }
}

/// The answer to a start request carrying `key`.
pub open spec fn start_reply(h: HostView, key: Seq<char>) -> (StatusCode, Seq<char>) {
    if authorized(h, key) && !h.is_recording {
        (StatusCode::Success, "Success"@)
    } else if authorized(h, key) {
        (StatusCode::AlreadyReported, "Recording Already Started"@)
    } else {
        (StatusCode::Unauthorized, "Error"@)
    }
}

/// What a start request carrying `key` does to the stopwatch.
pub open spec fn start_timer(h: HostView, key: Seq<char>) -> TimerCommand {
    if authorized(h, key) && !h.is_recording {
        TimerCommand::ResetAndStart
    } else {
        TimerCommand::Leave
    }
}

/// What a start request carrying `key` asks of the recorder.
pub open spec fn start_recorder(h: HostView, key: Seq<char>) -> RecorderCommand {
    if authorized(h, key) && !h.is_recording {
        RecorderCommand::Record
    } else {
        RecorderCommand::Nothing
    }
}

// ---------------------------------------------------------------------------
// stopping a recording

/// The host after a stop request carrying `key`.
pub open spec fn stop_next(h: HostView, key: Seq<char>) -> HostView {
    if authorized(h, key) && h.is_recording {
        HostView { is_recording: false, ..h }
    } else {
        h
    }
}

/// The answer to a stop request carrying `key`.
pub open spec fn stop_reply(h: HostView, key: Seq<char>) -> (StatusCode, Seq<char>) {
    if authorized(h, key) && h.is_recording {
        (StatusCode::Success, "Success"@)
    } else if authorized(h, key) {
        (StatusCode::AlreadyReported, "Recording Already Stopped"@)
    } else {
        (StatusCode::Unauthorized, "Error"@)
    }
}

/// What a stop request carrying `key` does to the stopwatch.
pub open spec fn stop_timer(h: HostView, key: Seq<char>) -> TimerCommand {
    if authorized(h, key) && h.is_recording {
        TimerCommand::Stop
    } else {
        TimerCommand::Leave
    }
}

/// What a stop request carrying `key` asks of the recorder.
pub open spec fn stop_recorder(h: HostView, key: Seq<char>) -> RecorderCommand {
    if authorized(h, key) && h.is_recording {
        RecorderCommand::Stop
    } else {
        RecorderCommand::Nothing
    }
}

// ---------------------------------------------------------------------------
// executable decisions

fn reply(status: StatusCode, msg: &str) -> (r: Reply)
    ensures
        r@ == (status, msg@),
{
    Reply { status, body: Response { msg: msg.to_owned() } }
}

fn is_authorized(state: &Host, key: &String) -> (b: bool)
    ensures
        b == authorized(state@, key@),
{
    state.pair_key == *key && state.is_paired
}

/// Decides a pairing request, given the fresh key that would be handed out:
/// when nobody is paired the host pairs with `key` and answers with it;
/// otherwise it refuses and stays as it was.
pub fn pair_with_key(state: &mut Host, key: String) -> (r: Reply)
    ensures
        final(state)@ == pair_next(old(state)@, key@),
        r@ == pair_reply(old(state)@, key@),
{
    if state.is_paired == false {
        state.is_paired = true;
        let msg = key.clone();
        state.pair_key = key;
        Reply { status: StatusCode::Success, body: Response { msg } }
    } else {
        reply(StatusCode::Unauthorized, "Error")
    }
}

/// Handles `GET /nano/pair`: when nobody is paired, pairs with a freshly
/// generated key and answers with it; otherwise refuses.
pub fn pair(state: &mut Host) -> (r: Reply)
    ensures
        old(state).is_paired ==> final(state)@ == old(state)@ && r@ == (
            StatusCode::Unauthorized,
            "Error"@,
        ),
        !old(state).is_paired ==> {
            &&& is_valid_key(final(state).pair_key@)
            &&& final(state)@ == pair_next(old(state)@, final(state).pair_key@)
            &&& r@ == pair_reply(old(state)@, final(state).pair_key@)
        },
{
    if state.is_paired == false {
        let key = generate();
        pair_with_key(state, key)
    } else {
        reply(StatusCode::Unauthorized, "Error")
    }
}

/// Decides an unpairing request carrying `key`: the paired client is let go
/// and the host returns to its starting state.
pub fn unpair_step(state: &mut Host, key: &String) -> (out: Outcome)
    ensures
        final(state)@ == unpair_next(old(state)@, key@),
        out.reply@ == unpair_reply(old(state)@, key@),
        out.timer == unpair_timer(old(state)@, key@),
        out.recorder == RecorderCommand::Nothing,
        authorized(old(state)@, key@) ==> out.timer == TimerCommand::Reset,
        !authorized(old(state)@, key@) ==> out.timer == TimerCommand::Leave,
{
    if is_authorized(state, key) {
        state.is_recording = false;
        state.pair_key = String::new();
        state.is_paired = false;
        Outcome {
            reply: reply(StatusCode::Success, "Disconnected"),
            timer: TimerCommand::Reset,
            recorder: RecorderCommand::Nothing,
        }
    } else {
        Outcome {
            reply: reply(StatusCode::Unauthorized, "Error"),
            timer: TimerCommand::Leave,
            recorder: RecorderCommand::Nothing,
        }
    }
}

/// Decides a start request carrying `key`: the paired client starts a
/// recording if none is running.
pub fn start_step(state: &mut Host, key: &String) -> (out: Outcome)
    ensures
        final(state)@ == start_next(old(state)@, key@),
        out.reply@ == start_reply(old(state)@, key@),
        out.timer == start_timer(old(state)@, key@),
        out.recorder == start_recorder(old(state)@, key@),
        authorized(old(state)@, key@) && !old(state).is_recording ==> out.timer
            == TimerCommand::ResetAndStart && out.recorder == RecorderCommand::Record,
        !(authorized(old(state)@, key@) && !old(state).is_recording) ==> out.timer
            == TimerCommand::Leave && out.recorder == RecorderCommand::Nothing,
{
    let ok = is_authorized(state, key);
    if ok && state.is_recording == false {
        state.is_recording = true;
        Outcome {
            reply: reply(StatusCode::Success, "Success"),
            timer: TimerCommand::ResetAndStart,
            recorder: RecorderCommand::Record,
        }
    } else if ok && state.is_recording == true {
        Outcome {
            reply: reply(StatusCode::AlreadyReported, "Recording Already Started"),
            timer: TimerCommand::Leave,
            recorder: RecorderCommand::Nothing,
        }
    } else {
        Outcome {
            reply: reply(StatusCode::Unauthorized, "Error"),
            timer: TimerCommand::Leave,
            recorder: RecorderCommand::Nothing,
        }
    }
}

/// Decides a stop request carrying `key`: the paired client stops the
/// running recording.
pub fn stop_step(state: &mut Host, key: &String) -> (out: Outcome)
    ensures
        final(state)@ == stop_next(old(state)@, key@),
        out.reply@ == stop_reply(old(state)@, key@),
        out.timer == stop_timer(old(state)@, key@),
        out.recorder == stop_recorder(old(state)@, key@),
        authorized(old(state)@, key@) && old(state).is_recording ==> out.timer == TimerCommand::Stop
            && out.recorder == RecorderCommand::Stop,
        !(authorized(old(state)@, key@) && old(state).is_recording) ==> out.timer
            == TimerCommand::Leave && out.recorder == RecorderCommand::Nothing,
{
    let ok = is_authorized(state, key);
    if ok && state.is_recording == true {
        state.is_recording = false;
        Outcome {
            reply: reply(StatusCode::Success, "Success"),
            timer: TimerCommand::Stop,
            recorder: RecorderCommand::Stop,
        }
    } else if ok && state.is_recording == false {
        Outcome {
            reply: reply(StatusCode::AlreadyReported, "Recording Already Stopped"),
            timer: TimerCommand::Leave,
            recorder: RecorderCommand::Nothing,
        }
    } else {
        Outcome {
            reply: reply(StatusCode::Unauthorized, "Error"),
            timer: TimerCommand::Leave,
            recorder: RecorderCommand::Nothing,
        }
    }
}

// ---------------------------------------------------------------------------
// the stopwatch

#[verifier::external_type_specification]
#[verifier::external_body]
pub struct ExStopwatch(stopwatch::Stopwatch);

/// Whether `sw` is running: the value `Stopwatch::is_running` returns for it,
/// which the crate's source computes from the stopwatch's own fields alone
/// (whether a start instant is held).
pub uninterp spec fn stopwatch_running(sw: stopwatch::Stopwatch) -> bool;

/// The time `sw` holds as elapsed, in nanoseconds: its stored duration, which
/// is what `Stopwatch::elapsed` returns while the stopwatch is stopped. It is
/// a function of the stopwatch's own fields alone; the time of a period that
/// is still running is not part of it.
pub uninterp spec fn stopwatch_held_nanos(sw: stopwatch::Stopwatch) -> nat;

/// Calls `Stopwatch::reset`, which sets the held time to zero and drops the
/// start instant, so the stopwatch is stopped afterwards.
#[verifier::external_body]
fn stopwatch_reset(sw: &mut stopwatch::Stopwatch)
    ensures
        !stopwatch_running(*final(sw)),
        stopwatch_held_nanos(*final(sw)) == 0,
{
    sw.reset()
}

/// Calls `Stopwatch::start`, which records the current instant as the start
/// of a running period, so the stopwatch is running afterwards; the held
/// time is not touched.
#[verifier::external_body]
fn stopwatch_start(sw: &mut stopwatch::Stopwatch)
    ensures
        stopwatch_running(*final(sw)),
        stopwatch_held_nanos(*final(sw)) == stopwatch_held_nanos(*old(sw)),
{
    sw.start()
}

/// Calls `Stopwatch::stop`, which adds the running period (if any) to the
/// held time and drops the start instant, so the stopwatch is stopped
/// afterwards. The held time never shrinks, and is unchanged when the
/// stopwatch was not running; how much a running period adds depends on the
/// clock and is not stated.
#[verifier::external_body]
fn stopwatch_stop(sw: &mut stopwatch::Stopwatch)
    ensures
        !stopwatch_running(*final(sw)),
        stopwatch_held_nanos(*final(sw)) >= stopwatch_held_nanos(*old(sw)),
        !stopwatch_running(*old(sw)) ==> stopwatch_held_nanos(*final(sw))
            == stopwatch_held_nanos(*old(sw)),
{
    sw.stop()
}

/// Whether the stopwatch runs after `cmd`, given whether it ran before.
pub open spec fn running_after(before: bool, cmd: TimerCommand) -> bool {
    match cmd {
        TimerCommand::Leave => before,
        TimerCommand::Reset => false,
        TimerCommand::ResetAndStart => true,
        TimerCommand::Stop => false,
    }
}

/// How the held time of a stopwatch may go from `before` to `after` under
/// `cmd`: a reset, alone or followed by a start, clears it; a stop keeps it
/// (adding whatever a running period lasted); leaving the stopwatch alone
/// keeps it exactly.
pub open spec fn held_after(before: stopwatch::Stopwatch, after: stopwatch::Stopwatch, cmd: TimerCommand) -> bool {
    match cmd {
        TimerCommand::Leave => stopwatch_held_nanos(after) == stopwatch_held_nanos(before),
        TimerCommand::Reset => stopwatch_held_nanos(after) == 0,
        TimerCommand::ResetAndStart => stopwatch_held_nanos(after) == 0,
        TimerCommand::Stop => {
            &&& stopwatch_held_nanos(after) >= stopwatch_held_nanos(before)
            &&& !stopwatch_running(before) ==> stopwatch_held_nanos(after) == stopwatch_held_nanos(
                before,
            )
        },
    }
}

/// Carries out a timer command on the stopwatch: leaving it alone keeps it
/// exactly as it was; a reset leaves it stopped at zero; a reset followed
/// by a start leaves it running from zero; a stop leaves it stopped with its
/// held time kept.
fn apply_timer(sw: &mut stopwatch::Stopwatch, cmd: TimerCommand)
    ensures
        cmd == TimerCommand::Leave ==> *final(sw) == *old(sw),
        stopwatch_running(*final(sw)) == running_after(stopwatch_running(*old(sw)), cmd),
        held_after(*old(sw), *final(sw), cmd),
{
    match cmd {
        TimerCommand::Leave => {},
        TimerCommand::Reset => stopwatch_reset(sw),
        TimerCommand::ResetAndStart => {
            stopwatch_reset(sw);
            stopwatch_start(sw);
        },
        TimerCommand::Stop => stopwatch_stop(sw),
    }
}

// ---------------------------------------------------------------------------
// the handlers

/// Handles `POST /nano/unpair`: the paired client, identified by its key,
/// is disconnected, the recording flag is cleared and the stopwatch reset;
/// any other request is refused with no change.
pub fn unpair(state: &mut Host, sw: &mut stopwatch::Stopwatch, info: &Client) -> (r: Reply)
    ensures
        final(state)@ == unpair_next(old(state)@, info.key@),
        r@ == unpair_reply(old(state)@, info.key@),
        stopwatch_running(*final(sw)) == running_after(
            stopwatch_running(*old(sw)),
            unpair_timer(old(state)@, info.key@),
        ),
        unpair_timer(old(state)@, info.key@) == TimerCommand::Leave ==> *final(sw) == *old(sw),
        held_after(*old(sw), *final(sw), unpair_timer(old(state)@, info.key@)),
        authorized(old(state)@, info.key@) ==> !stopwatch_running(*final(sw))
            && stopwatch_held_nanos(*final(sw)) == 0,
        !authorized(old(state)@, info.key@) ==> *final(sw) == *old(sw),
{
    let out = unpair_step(state, &info.key);
    apply_timer(sw, out.timer);
    out.reply
}

/// Handles `POST /nano/start`: the paired client starts a recording; the
/// stopwatch is reset and started, and the caller is asked to start the
/// recorder. A second start is answered "already reported", a wrong key is
/// refused.
pub fn start(state: &mut Host, sw: &mut stopwatch::Stopwatch, info: &Client) -> (r: (
    Reply,
    RecorderCommand,
))
    ensures
        final(state)@ == start_next(old(state)@, info.key@),
        r.0@ == start_reply(old(state)@, info.key@),
        stopwatch_running(*final(sw)) == running_after(
            stopwatch_running(*old(sw)),
            start_timer(old(state)@, info.key@),
        ),
        start_timer(old(state)@, info.key@) == TimerCommand::Leave ==> *final(sw) == *old(sw),
        held_after(*old(sw), *final(sw), start_timer(old(state)@, info.key@)),
        authorized(old(state)@, info.key@) && !old(state).is_recording ==> stopwatch_running(
            *final(sw),
        ) && stopwatch_held_nanos(*final(sw)) == 0,
        !(authorized(old(state)@, info.key@) && !old(state).is_recording) ==> *final(sw)
            == *old(sw),
        r.1 == start_recorder(old(state)@, info.key@),
{
    let out = start_step(state, &info.key);
    apply_timer(sw, out.timer);
    (out.reply, out.recorder)
}

/// Handles `POST /nano/stop`: the paired client stops the running
/// recording; the stopwatch is stopped and the caller is asked to stop the
/// recorder. A stop with nothing running is answered "already reported", a
/// wrong key is refused.
pub fn stop(state: &mut Host, sw: &mut stopwatch::Stopwatch, info: &Client) -> (r: (
    Reply,
    RecorderCommand,
))
    ensures
        final(state)@ == stop_next(old(state)@, info.key@),
        r.0@ == stop_reply(old(state)@, info.key@),
        stopwatch_running(*final(sw)) == running_after(
            stopwatch_running(*old(sw)),
            stop_timer(old(state)@, info.key@),
        ),
        stop_timer(old(state)@, info.key@) == TimerCommand::Leave ==> *final(sw) == *old(sw),
        held_after(*old(sw), *final(sw), stop_timer(old(state)@, info.key@)),
        authorized(old(state)@, info.key@) && old(state).is_recording ==> !stopwatch_running(
            *final(sw),
        ) && stopwatch_held_nanos(*final(sw)) >= stopwatch_held_nanos(*old(sw)),
        !(authorized(old(state)@, info.key@) && old(state).is_recording) ==> *final(sw)
            == *old(sw),
        r.1 == stop_recorder(old(state)@, info.key@),
{
    let out = stop_step(state, &info.key);
    apply_timer(sw, out.timer);
    (out.reply, out.recorder)
}

} // verus!
