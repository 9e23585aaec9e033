//! What the user interface is told.
use vstd::prelude::*;

use crate::text::join2;

verus! {

/// Which way speech is translated.
#[derive(Clone, Copy, Debug, PartialEq, Eq, Structural)]
pub enum Direction {
    /// The user's own speech, for the other side.
    Outgoing,
    /// The other side's speech, for the user.
    Incoming,
}

/// Whose words a transcript holds.
#[derive(Clone, Copy, Debug, PartialEq, Eq, Structural)]
pub enum Speech {
    /// What was said.
    Source,
    /// What it was translated to.
    Translated,
}

/// A change of one direction's session.
#[derive(Clone, Debug)]
pub struct StatusUpdate {
    /// "outgoing" or "incoming".
    pub direction: String,
    pub running: bool,
    pub target: Option<String>,
    pub message: Option<String>,
}

/// A piece of a transcript.
#[derive(Clone, Debug)]
pub struct TranscriptUpdate {
    /// "outgoing" or "incoming".
    pub direction: String,
    /// "source" or "translated".
    pub kind: String,
    pub delta: String,
    pub done: bool,
}

/// Which directions have a session.
#[derive(Clone, Copy, Debug, PartialEq, Eq, Structural)]
pub struct StatusSnapshot {
    pub outgoing: bool,
    pub incoming: bool,
}

/// The meaning of a [`StatusUpdate`].
pub struct StatusView {
    pub direction: Seq<char>,
    pub running: bool,
    pub target: Option<Seq<char>>,
    pub message: Option<Seq<char>>,
}

/// The meaning of a [`TranscriptUpdate`].
pub struct TranscriptView {
    pub direction: Seq<char>,
    pub kind: Seq<char>,
    pub delta: Seq<char>,
    pub done: bool,
}

impl View for StatusUpdate {
    type V = StatusView;

    open spec fn view(&self) -> StatusView {
        StatusView {
            direction: self.direction@,
            running: self.running,
            target: crate::text::opt_view(self.target),
            message: crate::text::opt_view(self.message),
        }
    }
}

impl View for TranscriptUpdate {
    type V = TranscriptView;

    open spec fn view(&self) -> TranscriptView {
        TranscriptView {
            direction: self.direction@,
            kind: self.kind@,
            delta: self.delta@,
            done: self.done,
        }
    }
}

/// The name of a direction.
pub open spec fn direction_name(direction: Direction) -> Seq<char> {
    match direction {
        Direction::Outgoing => "outgoing"@,
        Direction::Incoming => "incoming"@,
    }
}

/// The name of a transcript's side.
pub open spec fn speech_name(speech: Speech) -> Seq<char> {
    match speech {
        Speech::Source => "source"@,
        Speech::Translated => "translated"@,
    }
}

/// A session that runs.
pub open spec fn running_status(direction: Direction, target: Seq<char>) -> StatusView {
    StatusView {
        direction: direction_name(direction),
        running: true,
        target: Some(target),
        message: None,
    }
}

/// A session that was stopped.
pub open spec fn stopped_status(direction: Direction) -> StatusView {
    StatusView {
        direction: direction_name(direction),
        running: false,
        target: None,
        message: None,
    }
}

/// A session that does not run, and why.
pub open spec fn failed_status(direction: Direction, message: Seq<char>) -> StatusView {
    StatusView {
        direction: direction_name(direction),
        running: false,
        target: None,
        message: Some(message),
    }
}

/// What is said of a session that could not start.
pub open spec fn start_failure(direction: Direction, error: Seq<char>) -> Seq<char> {
    match direction {
        Direction::Outgoing => "Failed to start outgoing: "@ + error,
        Direction::Incoming => "Failed to start incoming: "@ + error,
    }
}

/// What is said of a session that broke off.
pub open spec fn session_failure(direction: Direction, error: Seq<char>) -> Seq<char> {
    match direction {
        Direction::Outgoing => "Session error: "@ + error,
        Direction::Incoming => "Incoming session error: "@ + error,
    }
}

/// A piece of a transcript that goes on.
pub open spec fn transcript_piece(
    direction: Direction,
    speech: Speech,
    delta: Seq<char>,
) -> TranscriptView {
    TranscriptView {
        direction: direction_name(direction),
        kind: speech_name(speech),
        delta,
        done: false,
    }
}

/// The end of a transcript.
pub open spec fn transcript_end(direction: Direction, speech: Speech) -> TranscriptView {
    TranscriptView {
        direction: direction_name(direction),
        kind: speech_name(speech),
        delta: Seq::empty(),
        done: true,
    }
}

impl Direction {
    /// The name of the direction.
    pub fn name(self) -> (r: String)
        ensures
            r@ == direction_name(self),
    {
        match self {
            Direction::Outgoing => "outgoing".to_owned(),
            Direction::Incoming => "incoming".to_owned(),
        }
    }
}

impl Speech {
    /// The name of the side.
    pub fn name(self) -> (r: String)
        ensures
            r@ == speech_name(self),
    {
        match self {
            Speech::Source => "source".to_owned(),
            Speech::Translated => "translated".to_owned(),
        }
    }
}

impl StatusUpdate {
    /// A session runs.
    pub fn running(direction: Direction, target: String) -> (r: StatusUpdate)
        ensures
            r@ == running_status(direction, target@),
    {
        StatusUpdate { direction: direction.name(), running: true, target: Some(target), message: None }
    }

    /// A session was stopped.
    pub fn stopped(direction: Direction) -> (r: StatusUpdate)
        ensures
            r@ == stopped_status(direction),
    {
        StatusUpdate { direction: direction.name(), running: false, target: None, message: None }
    }

    /// A session could not start.
    pub fn start_failed(direction: Direction, error: &str) -> (r: StatusUpdate)
        ensures
            r@ == failed_status(direction, start_failure(direction, error@)),
    {
        let lead: &str = match direction {
            Direction::Outgoing => "Failed to start outgoing: ",
            Direction::Incoming => "Failed to start incoming: ",
        };
        StatusUpdate {
            direction: direction.name(),
            running: false,
            target: None,
            message: Some(join2(lead, error)),
        }
    }

    /// A session broke off.
    pub fn session_failed(direction: Direction, error: &str) -> (r: StatusUpdate)
        ensures
            r@ == failed_status(direction, session_failure(direction, error@)),
    {
        let lead: &str = match direction {
            Direction::Outgoing => "Session error: ",
            Direction::Incoming => "Incoming session error: ",
        };
        StatusUpdate {
            direction: direction.name(),
            running: false,
            target: None,
            message: Some(join2(lead, error)),
        }
    }
}

impl TranscriptUpdate {
    /// A piece of a transcript that goes on.
    pub fn piece(direction: Direction, speech: Speech, delta: String) -> (r: TranscriptUpdate)
        ensures
            r@ == transcript_piece(direction, speech, delta@),
    {
        TranscriptUpdate { direction: direction.name(), kind: speech.name(), delta, done: false }
    }

    /// The end of a transcript.
    pub fn end(direction: Direction, speech: Speech) -> (r: TranscriptUpdate)
        ensures
            r@ == transcript_end(direction, speech),
    {
        TranscriptUpdate {
            direction: direction.name(),
            kind: speech.name(),
            delta: String::new(),
            done: true,
        }
    }
}

/// What is said of a direction bears its name; a running session names its language, one that
/// does not run names none, and a failure is told with its cause.
pub proof fn law_statuses_tell_of_their_session(target: Seq<char>, error: Seq<char>)
    ensures
        running_status(Direction::Outgoing, target) == (StatusView {
            direction: "outgoing"@,
            running: true,
            target: Some(target),
            message: None,
        }),
        running_status(Direction::Incoming, target) == (StatusView {
            direction: "incoming"@,
            running: true,
            target: Some(target),
            message: None,
        }),
        stopped_status(Direction::Outgoing) == (StatusView {
            direction: "outgoing"@,
            running: false,
            target: None,
            message: None,
        }),
        stopped_status(Direction::Incoming) == (StatusView {
            direction: "incoming"@,
            running: false,
            target: None,
            message: None,
        }),
        failed_status(Direction::Outgoing, start_failure(Direction::Outgoing, error)) == (
        StatusView {
            direction: "outgoing"@,
            running: false,
            target: None,
            message: Some("Failed to start outgoing: "@ + error),
        }),
        failed_status(Direction::Incoming, start_failure(Direction::Incoming, error)) == (
        StatusView {
            direction: "incoming"@,
            running: false,
            target: None,
            message: Some("Failed to start incoming: "@ + error),
        }),
        failed_status(Direction::Outgoing, session_failure(Direction::Outgoing, error)) == (
        StatusView {
            direction: "outgoing"@,
            running: false,
            target: None,
            message: Some("Session error: "@ + error),
        }),
        failed_status(Direction::Incoming, session_failure(Direction::Incoming, error)) == (
        StatusView {
            direction: "incoming"@,
            running: false,
            target: None,
            message: Some("Incoming session error: "@ + error),
        }),
{
}

} // verus!
