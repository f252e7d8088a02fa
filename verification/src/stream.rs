//! The lifecycle of one streaming connection: the shared termination flag,
//! and the decision the background loop takes at each checkpoint. The runner
//! performs the network calls, reports what it observed, and carries out the
//! action decided here; network failures never escape the loop — every exit
//! path other than a cleared flag ends in a fixed backoff and a fresh attempt.

use vstd::prelude::*;
use crate::config::AppConfig;
use crate::router::{decode_frame, json_parses};
use crate::url::{derive_stream_url, stream_url};

verus! {

/// The fixed interval between a failure or disconnect and the next attempt,
/// in seconds.
pub const BACKOFF_SECONDS: u64 = 5;

/// What the runner observed since the last decision.
pub enum LoopEvent {
    /// the loop is at the top of an iteration: its start, or a backoff that
    /// elapsed
    CycleBegin,
    /// the stream opened
    ConnectSucceeded,
    /// the connect attempt failed
    ConnectFailed,
    /// a text frame arrived
    TextFrame(String),
    /// a non-text, non-close frame arrived
    OtherFrame,
    /// the server closed the stream
    CloseFrame,
    /// reading the next frame failed
    ReadError,
    /// the stream ended without a close frame
    StreamEnded,
}

/// What the loop does next.
pub enum LoopAction {
    /// terminate; a terminal state — only a fresh start makes a new loop
    Exit,
    /// wait this many seconds, then report `CycleBegin`
    Backoff(u64),
    /// try to open the stream at this URL
    Connect(String),
    /// await the next frame
    ReadNext,
    /// forward this event to the sink, then await the next frame
    Forward(serde_json::Value),
}

/// The shape of an action, with its payload left aside.
pub enum ActionKind {
    Exit,
    Backoff,
    Connect,
    ReadNext,
    Forward,
}

/// The shape of `a`.
pub open spec fn kind_of(a: LoopAction) -> ActionKind {
    match a {
        LoopAction::Exit => ActionKind::Exit,
        LoopAction::Backoff(_) => ActionKind::Backoff,
        LoopAction::Connect(_) => ActionKind::Connect,
        LoopAction::ReadNext => ActionKind::ReadNext,
        LoopAction::Forward(_) => ActionKind::Forward,
    }
}

/// The decision the loop takes: from the termination flag and the observed
/// event to the shape of the next action. A cleared flag always terminates;
/// an empty credential only backs off, never connects; a frame that is not
/// well-formed JSON is dropped and the next frame read; a close, a read error
/// or an ended stream back off and retry.
pub open spec fn decision(token: Seq<char>, running: bool, event: LoopEvent) -> ActionKind {
    if !running {
        ActionKind::Exit
    } else {
        match event {
            LoopEvent::CycleBegin => if token.len() == 0 {
                ActionKind::Backoff
            } else {
                ActionKind::Connect
            },
            LoopEvent::ConnectSucceeded => ActionKind::ReadNext,
            LoopEvent::ConnectFailed => ActionKind::Backoff,
            LoopEvent::TextFrame(t) => if json_parses(t@) {
                ActionKind::Forward
            } else {
                ActionKind::ReadNext
            },
            LoopEvent::OtherFrame => ActionKind::ReadNext,
            LoopEvent::CloseFrame => ActionKind::Backoff,
            LoopEvent::ReadError => ActionKind::Backoff,
            LoopEvent::StreamEnded => ActionKind::Backoff,
        }
    }
}

/// One decision of the background loop. The action's shape follows
/// `decision`; a backoff always waits the fixed interval, and a connect
/// always goes to the derived stream URL.
pub fn loop_step(config: &AppConfig, running: bool, event: LoopEvent) -> (r: LoopAction)
    ensures
        kind_of(r) == decision(config.token@, running, event),
        (r matches LoopAction::Backoff(s) ==> s == BACKOFF_SECONDS),
        (r matches LoopAction::Connect(u) ==> u@ == stream_url(config.server_url@, config.token@)),
{
    if !running {
        return LoopAction::Exit;
    }
    match event {
        LoopEvent::CycleBegin => {
            if config.token.as_str().is_empty() {
                LoopAction::Backoff(BACKOFF_SECONDS)
            } else {
                LoopAction::Connect(
                    derive_stream_url(config.server_url.as_str(), config.token.as_str()),
                )
            }
        },
        LoopEvent::ConnectSucceeded => LoopAction::ReadNext,
        LoopEvent::ConnectFailed => LoopAction::Backoff(BACKOFF_SECONDS),
        LoopEvent::TextFrame(text) => match decode_frame(text.as_str()) {
            Some(event_value) => LoopAction::Forward(event_value),
            None => LoopAction::ReadNext,
        },
        LoopEvent::OtherFrame => LoopAction::ReadNext,
        LoopEvent::CloseFrame => LoopAction::Backoff(BACKOFF_SECONDS),
        LoopEvent::ReadError => LoopAction::Backoff(BACKOFF_SECONDS),
        LoopEvent::StreamEnded => LoopAction::Backoff(BACKOFF_SECONDS),
    }
}

/// With an empty credential the loop never attempts a connect: whatever the
/// flag and the observed event, the decision is never a connect attempt —
/// at the top of an iteration it only backs off and re-checks.
pub proof fn lemma_empty_token_never_connects(token: Seq<char>, running: bool, event: LoopEvent)
    requires
        token.len() == 0,
    ensures
        decision(token, running, event) != ActionKind::Connect,
{
}

/// After a failed connect attempt with the flag still set, the loop backs
/// off, and the first decision once the backoff elapses is a single fresh
/// connect attempt: one retry per failure, only after the interval.
pub proof fn lemma_single_retry_after_backoff(token: Seq<char>)
    requires
        token.len() > 0,
    ensures
        decision(token, true, LoopEvent::ConnectFailed) == ActionKind::Backoff,
        decision(token, true, LoopEvent::CycleBegin) == ActionKind::Connect,
{
}

/// One logical connection: its endpoint and the shared flag the runner polls.
/// The supervisor clears the flag; the loop observes it and exits.
#[derive(Debug)]
pub struct GotifyConnection {
    pub config: AppConfig,
    pub running: bool,
}

impl GotifyConnection {
    /// A fresh connection for `config`, not yet started.
    pub fn new(config: AppConfig) -> (c: Self)
        ensures
            c.config == config,
            !c.running,
    {
        GotifyConnection { config, running: false }
    }

    /// Requests the background loop: sets the flag and says whether a loop
    /// must be spawned. Idempotent — on an already running connection nothing
    /// changes and no second loop is asked for.
    pub fn start(&mut self) -> (spawn: bool)
        ensures
            final(self).running,
            final(self).config == old(self).config,
            spawn == !old(self).running,
    {
        let was_running = self.running;
        self.running = true;
        !was_running
    }

    /// Requests termination: clears the flag and returns. The loop observes
    /// the flag at its next checkpoint and exits; a caller that needs the
    /// loop fully stopped awaits its exit.
    pub fn stop(&mut self)
        ensures
            !final(self).running,
            final(self).config == old(self).config,
    {
        self.running = false;
    }
}

} // verus!
