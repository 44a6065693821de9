//! What the window host decides: what the window is built from, and how the
//! event loop answers each event.
//!
//! Of the configuration only the title, the size and the port reach the
//! window. The presentation flags and the size bounds are carried by the
//! configuration and reserved: nothing is built from them.

use vstd::prelude::*;
use crate::config::AppConfig;
use crate::decimal::{decimal_string, decimal_text, lemma_parse_of_text, parse_unsigned};

verus! {

/// The address that the window loads for `port`.
pub open spec fn window_url(port: u16) -> Seq<char> {
    "http://localhost:"@ + decimal_text(port as nat)
}

/// The port that a loopback address names: what follows `http://localhost:`,
/// read as a 16-bit number.
pub open spec fn url_port(url: Seq<char>) -> Option<nat> {
    let prefix = "http://localhost:"@;
    if url.len() >= prefix.len() && url.take(prefix.len() as int) == prefix {
        parse_unsigned(url.skip(prefix.len() as int), u16::MAX as nat)
    } else {
        None
    }
}

/// The address that the window loads names the port it was made for.
pub proof fn lemma_url_names_port(port: u16)
    ensures
        url_port(window_url(port)) == Some(port as nat),
{
    let prefix = "http://localhost:"@;
    let digits = decimal_text(port as nat);
    let url = window_url(port);
    assert(url.take(prefix.len() as int) == prefix);
    assert(url.skip(prefix.len() as int) == digits);
    lemma_parse_of_text(port as nat, u16::MAX as nat);
}

/// What a window is built from.
#[derive(Debug, Clone)]
pub struct WindowPlan {
    /// Window title.
    pub title: String,
    /// Inner width, in logical pixels.
    pub width: u32,
    /// Inner height, in logical pixels.
    pub height: u32,
    /// Address that the embedded view loads.
    pub url: String,
}

/// The window that `cfg` asks for.
pub fn plan_window(cfg: &AppConfig) -> (out: WindowPlan)
    ensures
        out.title@ == cfg.title@,
        out.width == cfg.width,
        out.height == cfg.height,
        out.url@ == window_url(cfg.port),
{
    let mut url = String::from_str("http://localhost:");
    let digits = decimal_string(cfg.port as u32);
    url.append(digits.as_str());
    WindowPlan { title: cfg.title.clone(), width: cfg.width, height: cfg.height, url }
}

/// Where the window host is in its life.
#[derive(Debug, Clone, Copy, PartialEq, Eq, Structural)]
pub enum HostState {
    /// The window is being built; the loop has not started.
    Initializing,
    /// The loop runs and the window is open.
    Running,
    /// The user asked to close the window; the loop is leaving.
    Closing,
    /// The loop has ended.
    Terminated,
}

/// What the platform reports to the host.
#[derive(Debug, Clone, Copy, PartialEq, Eq, Structural)]
pub enum HostEvent {
    /// The loop has started.
    Started,
    /// The user asked to close the window.
    CloseRequested,
    /// The loop has been torn down. It is the last event of a loop.
    Destroyed,
    /// Anything else.
    Other,
}

/// What the loop does after an event.
#[derive(Debug, Clone, Copy, PartialEq, Eq, Structural)]
pub enum Flow {
    /// Sleep until the next event.
    Wait,
    /// Leave the loop.
    Exit,
}

/// How far a state is along the host's life.
pub open spec fn stage(state: HostState) -> nat {
    match state {
        HostState::Initializing => 0,
        HostState::Running => 1,
        HostState::Closing => 2,
        HostState::Terminated => 3,
    }
}

/// The state after `event` arrives in `state`.
///
/// Three things move the host: the start of the loop opens the window, a
/// request to close it makes the host leave, and the teardown of the loop ends
/// a host that is leaving. Every other event, in every state, is seen and
/// ignored; so is the teardown while the window is still open.
pub open spec fn next_state(state: HostState, event: HostEvent) -> HostState {
    match (state, event) {
        (HostState::Initializing, HostEvent::Started) => HostState::Running,
        (HostState::Initializing, HostEvent::CloseRequested) => HostState::Closing,
        (HostState::Running, HostEvent::CloseRequested) => HostState::Closing,
        (HostState::Closing, HostEvent::Destroyed) => HostState::Terminated,
        (_, _) => state,
    }
}

/// What the loop does in `state`: it waits while the window is open and
/// leaves once it is closing.
pub open spec fn flow_in(state: HostState) -> Flow {
    match state {
        HostState::Initializing => Flow::Wait,
        HostState::Running => Flow::Wait,
        HostState::Closing => Flow::Exit,
        HostState::Terminated => Flow::Exit,
    }
}

/// Handles one event: the state to go on in, and what the loop does next.
pub fn on_event(state: HostState, event: HostEvent) -> (out: (HostState, Flow))
    ensures
        out.0 == next_state(state, event),
        out.1 == flow_in(out.0),
{
    let next = match state {
        HostState::Initializing => match event {
            HostEvent::Started => HostState::Running,
            HostEvent::CloseRequested => HostState::Closing,
            _ => HostState::Initializing,
        },
        HostState::Running => match event {
            HostEvent::CloseRequested => HostState::Closing,
            _ => HostState::Running,
        },
        HostState::Closing => match event {
            HostEvent::Destroyed => HostState::Terminated,
            _ => HostState::Closing,
        },
        HostState::Terminated => HostState::Terminated,
    };
    let flow = match next {
        HostState::Closing => Flow::Exit,
        HostState::Terminated => Flow::Exit,
        _ => Flow::Wait,
    };
    (next, flow)
}

/// The host never goes back: an event leaves it where it is or moves it on.
pub proof fn lemma_host_advances(state: HostState, event: HostEvent)
    ensures
        stage(state) <= stage(next_state(state, event)),
{
}

/// While the window is open, the loop is told to leave exactly when the close
/// of the window is requested. Every other event leaves it waiting, and none
/// of them changes the state but the start of the loop, which opens the
/// window.
pub proof fn lemma_exit_on_close(state: HostState, event: HostEvent)
    requires
        state == HostState::Initializing || state == HostState::Running,
    ensures
        flow_in(next_state(state, event)) == Flow::Exit <==> event == HostEvent::CloseRequested,
        event == HostEvent::CloseRequested ==> next_state(state, event) == HostState::Closing,
        event != HostEvent::CloseRequested && !(state == HostState::Initializing && event
            == HostEvent::Started) ==> next_state(state, event) == state,
        state == HostState::Initializing && event == HostEvent::Started ==> next_state(
            state,
            event,
        ) == HostState::Running,
{
}

/// The host ends only by the teardown of a loop that is leaving: no event
/// takes an open window to its end in one step.
pub proof fn lemma_end_follows_close(state: HostState, event: HostEvent)
    requires
        state != HostState::Terminated,
    ensures
        next_state(state, event) == HostState::Terminated <==> (state == HostState::Closing
            && event == HostEvent::Destroyed),
{
}

/// Once the loop was told to leave, it is told so after every further event.
pub proof fn lemma_exit_is_final(state: HostState, event: HostEvent)
    requires
        flow_in(state) == Flow::Exit,
    ensures
        flow_in(next_state(state, event)) == Flow::Exit,
{
}

} // verus!
