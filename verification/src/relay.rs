//! The decisions of a relay session: when to start copying, when to stop, and
//! which error a failure is reported as.

use vstd::prelude::*;

verus! {

/// Why a relay session failed.
#[derive(Clone, Copy, Debug, PartialEq, Eq, Structural)]
pub enum RelayError {
    /// The connection to the downstream service could not be opened.
    DownstreamUnreachable,
    /// Copying from the client to the downstream service failed.
    ClientIOError,
    /// Copying from the downstream service to the client failed.
    DownstreamIOError,
}

/// One of the two directions in which a session copies bytes.
#[derive(Clone, Copy, Debug, PartialEq, Eq, Structural)]
pub enum Direction {
    ClientToDownstream,
    DownstreamToClient,
}

/// What happened outside the session.
#[derive(Clone, Copy, Debug, PartialEq, Eq, Structural)]
pub enum RelayEvent {
    /// The downstream connection was opened.
    Connected,
    /// The downstream connection could not be opened.
    ConnectFailed,
    /// The copy in one direction reached the end of its input.
    CopyEnded(Direction),
    /// The copy in one direction met an I/O error.
    CopyFailed(Direction),
}

/// What the caller is to do next.
#[derive(Clone, Copy, Debug, PartialEq, Eq)]
pub enum RelayAction {
    /// Start both copies, to run concurrently.
    StartCopies,
    /// Abandon whatever copy still runs, close both connections, and report
    /// this result.
    CloseBoth(Result<(), RelayError>),
    /// The event does not belong to the current phase and was ignored.
    Nothing,
}

/// How far a relay session has come.
#[derive(Clone, Copy, Debug, PartialEq, Eq, Structural)]
pub enum RelayPhase {
    /// The downstream connection is being opened.
    Connecting,
    /// Both copies run.
    Relaying,
    /// The session has ended and both connections are closed.
    Closed,
}

/// The error that a failed copy in direction `d` is reported as.
pub open spec fn spec_error_of(d: Direction) -> RelayError {
    match d {
        Direction::ClientToDownstream => RelayError::ClientIOError,
        Direction::DownstreamToClient => RelayError::DownstreamIOError,
    }
}

/// The phase and the action that follow `event` in `phase`.
///
/// A failed connect ends the session as unreachable. The first copy to end or
/// fail ends the session for both directions. A closed session stays closed.
pub open spec fn spec_step(phase: RelayPhase, event: RelayEvent) -> (RelayPhase, RelayAction) {
    match (phase, event) {
        (RelayPhase::Connecting, RelayEvent::Connected) => (
            RelayPhase::Relaying,
            RelayAction::StartCopies,
        ),
        (RelayPhase::Connecting, RelayEvent::ConnectFailed) => (
            RelayPhase::Closed,
            RelayAction::CloseBoth(Err(RelayError::DownstreamUnreachable)),
        ),
        (RelayPhase::Relaying, RelayEvent::CopyEnded(_)) => (
            RelayPhase::Closed,
            RelayAction::CloseBoth(Ok(())),
        ),
        (RelayPhase::Relaying, RelayEvent::CopyFailed(d)) => (
            RelayPhase::Closed,
            RelayAction::CloseBoth(Err(spec_error_of(d))),
        ),
        _ => (phase, RelayAction::Nothing),
    }
}

/// The phase that a session is in after a run of events, from `phase` on.
pub open spec fn spec_run(phase: RelayPhase, events: Seq<RelayEvent>) -> RelayPhase
    decreases events.len(),
{
    if events.len() == 0 {
        phase
    } else {
        spec_run(spec_step(phase, events[0]).0, events.skip(1))
    }
}

/// The error that a failed copy in direction `d` is reported as.
pub fn error_of(d: Direction) -> (e: RelayError)
    ensures
        e == spec_error_of(d),
{
    match d {
        Direction::ClientToDownstream => RelayError::ClientIOError,
        Direction::DownstreamToClient => RelayError::DownstreamIOError,
    }
}

/// One relay session.
pub struct Relay {
    pub phase: RelayPhase,
}

impl Relay {
    /// A session that is about to open its downstream connection.
    pub fn new() -> (r: Relay)
        ensures
            r.phase == RelayPhase::Connecting,
    {
        Relay { phase: RelayPhase::Connecting }
    }

    /// The phase the session is in.
    pub fn phase(&self) -> (p: RelayPhase)
        ensures
            p == self.phase,
    {
        self.phase
    }

    /// Takes an event and says what to do next.
    pub fn on_event(&mut self, event: RelayEvent) -> (action: RelayAction)
        ensures
            (final(self).phase, action) == spec_step(old(self).phase, event),
    {
        let (next, action) = match (self.phase, event) {
            (RelayPhase::Connecting, RelayEvent::Connected) => (
                RelayPhase::Relaying,
                RelayAction::StartCopies,
            ),
            (RelayPhase::Connecting, RelayEvent::ConnectFailed) => (
                RelayPhase::Closed,
                RelayAction::CloseBoth(Err(RelayError::DownstreamUnreachable)),
            ),
            (RelayPhase::Relaying, RelayEvent::CopyEnded(_)) => (
                RelayPhase::Closed,
                RelayAction::CloseBoth(Ok(())),
            ),
            (RelayPhase::Relaying, RelayEvent::CopyFailed(d)) => (
                RelayPhase::Closed,
                RelayAction::CloseBoth(Err(error_of(d))),
            ),
            (phase, _) => (phase, RelayAction::Nothing),
        };
        self.phase = next;
        action
    }
}

/// The event that the end of a copy is reported as: ended where it reached
/// the end of its input, failed where it met an I/O error.
pub fn copy_finished(d: Direction, failed: bool) -> (event: RelayEvent)
    ensures
        event == if failed {
            RelayEvent::CopyFailed(d)
        } else {
            RelayEvent::CopyEnded(d)
        },
{
    if failed {
        RelayEvent::CopyFailed(d)
    } else {
        RelayEvent::CopyEnded(d)
    }
}

/// Where the downstream cannot be reached, the session closes at once, as
/// unreachable, and no copy is ever started.
pub proof fn unreachable_downstream_closes()
    ensures
        spec_step(RelayPhase::Connecting, RelayEvent::ConnectFailed) == (
            RelayPhase::Closed,
            RelayAction::CloseBoth(Err(RelayError::DownstreamUnreachable)),
        ),
{
}

/// When either copy of a running session ends or fails, the session closes
/// both connections in that very step.
pub proof fn either_side_closing_closes_both(event: RelayEvent)
    requires
        event is CopyEnded || event is CopyFailed,
    ensures
        spec_step(RelayPhase::Relaying, event).0 == RelayPhase::Closed,
        spec_step(RelayPhase::Relaying, event).1 is CloseBoth,
{
}

/// A closed session stays closed and asks for nothing more, whatever events
/// still arrive.
pub proof fn closed_stays_closed(events: Seq<RelayEvent>)
    ensures
        spec_run(RelayPhase::Closed, events) == RelayPhase::Closed,
        events.len() > 0 ==> spec_step(RelayPhase::Closed, events[0]).1 == RelayAction::Nothing,
    decreases events.len(),
{
    if events.len() > 0 {
        closed_stays_closed(events.skip(1));
    }
}

/// A session is told to close at most once, and to start its copies at most
/// once: after a step that closes, no later step asks for anything.
pub proof fn closes_once(phase: RelayPhase, first: RelayEvent, later: RelayEvent)
    requires
        spec_step(phase, first).1 is CloseBoth,
    ensures
        spec_step(spec_step(phase, first).0, later).1 == RelayAction::Nothing,
{
}

} // verus!
