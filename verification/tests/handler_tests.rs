use nano_recorder::client_handlers::{
    pair, pair_with_key, start, start_step, stop, stop_step, unpair, unpair_step,
    RecorderCommand, StatusCode, TimerCommand,
};
use nano_recorder::models::{index, Client, Host};
use stopwatch::Stopwatch;

fn host(is_paired: bool, key: &str, is_recording: bool) -> Host {
    Host { is_paired, pair_key: key.to_string(), is_recording }
}

fn client(key: &str) -> Client {
    Client { key: key.to_string() }
}

fn same(a: &Host, b: &Host) -> bool {
    a.is_paired == b.is_paired && a.pair_key == b.pair_key && a.is_recording == b.is_recording
}

#[test]
fn testcase1() {
    let mut state = host(false, "", false);
    let mut sw = Stopwatch::new();

    let resp = pair(&mut state);
    assert_eq!(resp.status, StatusCode::Success);

    let client = Client { key: resp.body.msg };
    let (resp, cmd) = start(&mut state, &mut sw, &client);
    assert_eq!(resp.status, StatusCode::Success);
    assert_eq!(resp.body.msg, "Success");
    assert_eq!(cmd, RecorderCommand::Record);
    assert!(sw.is_running());
}

#[test]
fn index_reports_up() {
    assert_eq!(index().status, "UP");
}

#[test]
fn new_host_is_idle() {
    let h = Host::new();
    assert!(same(&h, &host(false, "", false)));
}

#[test]
fn pair_hands_out_the_key_it_stores() {
    let mut state = Host::new();
    let resp = pair(&mut state);
    assert_eq!(resp.status, StatusCode::Success);
    assert!(state.is_paired);
    assert!(!state.is_recording);
    assert_eq!(resp.body.msg, state.pair_key);
    assert_eq!(state.pair_key.len(), 30);
}

#[test]
fn pair_refused_when_paired() {
    let mut state = host(true, "abc", true);
    let resp = pair(&mut state);
    assert_eq!(resp.status, StatusCode::Unauthorized);
    assert_eq!(resp.body.msg, "Error");
    assert!(same(&state, &host(true, "abc", true)));
}

#[test]
fn pair_with_key_exact() {
    let mut state = Host::new();
    let resp = pair_with_key(&mut state, "k1".to_string());
    assert_eq!(resp.status, StatusCode::Success);
    assert_eq!(resp.body.msg, "k1");
    assert!(same(&state, &host(true, "k1", false)));

    let resp = pair_with_key(&mut state, "k2".to_string());
    assert_eq!(resp.status, StatusCode::Unauthorized);
    assert_eq!(resp.body.msg, "Error");
    assert!(same(&state, &host(true, "k1", false)));
}

#[test]
fn unpair_with_key_resets_everything() {
    let mut state = host(true, "k", true);
    let mut sw = Stopwatch::start_new();
    let resp = unpair(&mut state, &mut sw, &client("k"));
    assert_eq!(resp.status, StatusCode::Success);
    assert_eq!(resp.body.msg, "Disconnected");
    assert!(same(&state, &host(false, "", false)));
    assert!(!sw.is_running());
    assert_eq!(sw.elapsed_ms(), 0);
}

#[test]
fn unpair_with_wrong_key_is_refused() {
    let mut state = host(true, "k", true);
    let mut sw = Stopwatch::start_new();
    let resp = unpair(&mut state, &mut sw, &client("x"));
    assert_eq!(resp.status, StatusCode::Unauthorized);
    assert_eq!(resp.body.msg, "Error");
    assert!(same(&state, &host(true, "k", true)));
    assert!(sw.is_running());
}

#[test]
fn unpair_when_unpaired_is_refused_even_with_empty_key() {
    let mut state = host(false, "", false);
    let out = unpair_step(&mut state, &"".to_string());
    assert_eq!(out.reply.status, StatusCode::Unauthorized);
    assert_eq!(out.timer, TimerCommand::Leave);
    assert!(same(&state, &host(false, "", false)));
}

#[test]
fn start_step_outcomes() {
    let mut state = host(true, "k", false);
    let out = start_step(&mut state, &"k".to_string());
    assert_eq!(out.reply.status, StatusCode::Success);
    assert_eq!(out.reply.body.msg, "Success");
    assert_eq!(out.timer, TimerCommand::ResetAndStart);
    assert_eq!(out.recorder, RecorderCommand::Record);
    assert!(same(&state, &host(true, "k", true)));

    let out = start_step(&mut state, &"k".to_string());
    assert_eq!(out.reply.status, StatusCode::AlreadyReported);
    assert_eq!(out.reply.body.msg, "Recording Already Started");
    assert_eq!(out.timer, TimerCommand::Leave);
    assert_eq!(out.recorder, RecorderCommand::Nothing);
    assert!(same(&state, &host(true, "k", true)));

    let out = start_step(&mut state, &"nope".to_string());
    assert_eq!(out.reply.status, StatusCode::Unauthorized);
    assert_eq!(out.reply.body.msg, "Error");
    assert!(same(&state, &host(true, "k", true)));
}

#[test]
fn start_when_unpaired_is_refused() {
    let mut state = host(false, "", false);
    let mut sw = Stopwatch::new();
    let (resp, cmd) = start(&mut state, &mut sw, &client(""));
    assert_eq!(resp.status, StatusCode::Unauthorized);
    assert_eq!(cmd, RecorderCommand::Nothing);
    assert!(!sw.is_running());
    assert!(same(&state, &host(false, "", false)));
}

#[test]
fn stop_step_outcomes() {
    let mut state = host(true, "k", true);
    let out = stop_step(&mut state, &"k".to_string());
    assert_eq!(out.reply.status, StatusCode::Success);
    assert_eq!(out.reply.body.msg, "Success");
    assert_eq!(out.timer, TimerCommand::Stop);
    assert_eq!(out.recorder, RecorderCommand::Stop);
    assert!(same(&state, &host(true, "k", false)));

    let out = stop_step(&mut state, &"k".to_string());
    assert_eq!(out.reply.status, StatusCode::AlreadyReported);
    assert_eq!(out.reply.body.msg, "Recording Already Stopped");
    assert_eq!(out.recorder, RecorderCommand::Nothing);
    assert!(same(&state, &host(true, "k", false)));

    let out = stop_step(&mut state, &"other".to_string());
    assert_eq!(out.reply.status, StatusCode::Unauthorized);
    assert_eq!(out.reply.body.msg, "Error");
}

#[test]
fn start_then_stop_runs_the_stopwatch() {
    let mut state = host(true, "k", false);
    let mut sw = Stopwatch::new();
    let (_, cmd) = start(&mut state, &mut sw, &client("k"));
    assert_eq!(cmd, RecorderCommand::Record);
    assert!(sw.is_running());
    let (resp, cmd) = stop(&mut state, &mut sw, &client("k"));
    assert_eq!(resp.status, StatusCode::Success);
    assert_eq!(cmd, RecorderCommand::Stop);
    assert!(!sw.is_running());
    assert!(same(&state, &host(true, "k", false)));
}

#[test]
fn stop_keeps_the_elapsed_time_and_start_resets_it() {
    let mut state = host(true, "k", false);
    let mut sw = Stopwatch::new();
    start(&mut state, &mut sw, &client("k"));
    while sw.elapsed_ms() < 20 {}
    stop(&mut state, &mut sw, &client("k"));
    assert!(!sw.is_running());
    let kept = sw.elapsed_ms();
    assert!(kept >= 20);
    // a refused stop leaves the kept time alone
    stop(&mut state, &mut sw, &client("k"));
    assert_eq!(sw.elapsed_ms(), kept);
    // a new recording starts from zero
    start(&mut state, &mut sw, &client("k"));
    assert!(sw.is_running());
    assert!(sw.elapsed_ms() < kept);
    // unpairing leaves it stopped at zero
    unpair(&mut state, &mut sw, &client("k"));
    assert!(!sw.is_running());
    assert_eq!(sw.elapsed_ms(), 0);
}
