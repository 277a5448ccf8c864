//! The records that the host keeps and exchanges with its clients.

use vstd::prelude::*;

verus! {

/// Health report of the service.
pub struct Status {
    pub status: String,
}

/// What the host knows about its single client: whether one is paired,
/// the key it was given, and whether a recording is running.
pub struct Host {
    pub is_paired: bool,
    pub pair_key: String,
    pub is_recording: bool,
}

/// The body a client sends with a request: the key it was paired with.
pub struct Client {
    pub key: String,
}

/// The body of every answer: one message.
pub struct Response {
    pub msg: String,
}

/// The host's state as mathematical values.
pub struct HostView {
    pub is_paired: bool,
    pub pair_key: Seq<char>,
    pub is_recording: bool,
}

impl View for Host {
    type V = HostView;

    open spec fn view(&self) -> HostView {
        HostView { is_paired: self.is_paired, pair_key: self.pair_key@, is_recording: self.is_recording }
    }
}

/// The state a host starts in: nobody paired, no key, not recording.
pub open spec fn idle_host() -> HostView {
    HostView { is_paired: false, pair_key: Seq::empty(), is_recording: false }
}

impl Host {
    /// A host in its starting state.
    pub fn new() -> (host: Host)
        ensures
            host@ == idle_host(),
    {
        Host { is_paired: false, pair_key: String::new(), is_recording: false }
    }
}

/// The health report that the service's root answers with: status "UP".
pub fn index() -> (s: Status)
    ensures
        s.status@ == "UP"@,
{
    Status { status: "UP".to_owned() }
}

} // verus!
