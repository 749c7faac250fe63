use vstd::prelude::*;

use crate::forward::{ForwardError, ForwardingOutcome};
use crate::ticket::{
    decode, has_unknown_version, ticket_text, ticket_wf, Ticket, TicketError, TicketView,
};

verus! {

/// Why a connect command failed.
#[derive(Clone, Copy, Debug, PartialEq, Eq, Structural)]
pub enum ConnectError {
    /// The ticket could not be decoded.
    InvalidTicket(TicketError),
    /// No path to the peer was found before the deadline.
    Unreachable,
    /// The session was established but no stream could be opened on it.
    StreamOpenFailed,
    /// Forwarding over the stream ended with an I/O error.
    Forward(ForwardError),
}

/// Decodes the ticket a connector was given.
pub fn read_ticket(text: &str) -> (r: Result<Ticket, ConnectError>)
    ensures
        match r {
            Ok(t) => ticket_wf(t@) && text@ == ticket_text(t@),
            Err(ConnectError::InvalidTicket(TicketError::UnknownVersion)) => has_unknown_version(
                text@,
            ),
            Err(ConnectError::InvalidTicket(TicketError::Malformed)) => !has_unknown_version(text@)
                && forall|t: TicketView| ticket_wf(t) ==> text@ != #[trigger] ticket_text(t),
            Err(_) => false,
        },
{
    match decode(text) {
        Ok(t) => Ok(t),
        Err(e) => Err(ConnectError::InvalidTicket(e)),
    }
}

/// Where a connect command stands.
#[derive(Clone, Copy, Debug, PartialEq, Eq, Structural)]
pub enum ConnectPhase {
    /// Waiting for the session to the peer.
    Establishing,
    /// Waiting for the stream on the session.
    Opening,
    /// Forwarding standard input and output over the stream.
    Forwarding,
    /// Done; the result says how.
    Finished,
}

/// What the I/O around a connect command reports.
#[derive(Clone, Copy, Debug)]
pub enum ConnectEvent {
    /// The session to the peer is up; the time is in milliseconds.
    SessionEstablished { now_ms: u64 },
    /// The transport gave up on every path to the peer.
    SessionFailed,
    /// The clock, while waiting; in milliseconds.
    Tick { now_ms: u64 },
    /// The stream was opened.
    StreamOpened,
    /// The stream could not be opened.
    StreamOpenFailed,
    /// Forwarding over the stream ended.
    ForwardDone(Result<ForwardingOutcome, ForwardError>),
}

/// What the connect command must do next.
#[derive(Clone, Copy, Debug, PartialEq, Eq, Structural)]
pub enum ConnectAction {
    /// Open one stream on the session.
    OpenStream,
    /// Forward standard input and output over the stream.
    StartForwarding,
    /// Stop: the result is final.
    Finish,
    /// Keep waiting.
    Wait,
}

/// The decisions of one connect command.
#[derive(Clone, Copy, Debug)]
pub struct Connector {
    pub phase: ConnectPhase,
    pub started_ms: u64,
    pub timeout_ms: u64,
    pub result: Option<Result<(), ConnectError>>,
}

/// Whether the time for establishing the session is up.
pub open spec fn deadline_passed(started_ms: u64, now_ms: u64, timeout_ms: u64) -> bool {
    now_ms >= started_ms && now_ms - started_ms >= timeout_ms
}

pub open spec fn finished(c: Connector, r: Result<(), ConnectError>) -> Connector {
    Connector { phase: ConnectPhase::Finished, result: Some(r), ..c }
}

/// The state after one event; events that do not belong to the phase change
/// nothing.
pub open spec fn connect_next(c: Connector, e: ConnectEvent) -> Connector {
    match (c.phase, e) {
        (ConnectPhase::Establishing, ConnectEvent::SessionEstablished { now_ms }) => if deadline_passed(
            c.started_ms,
            now_ms,
            c.timeout_ms,
        ) {
            finished(c, Err(ConnectError::Unreachable))
        } else {
            Connector { phase: ConnectPhase::Opening, ..c }
        },
        (ConnectPhase::Establishing, ConnectEvent::SessionFailed) => finished(
            c,
            Err(ConnectError::Unreachable),
        ),
        (ConnectPhase::Establishing, ConnectEvent::Tick { now_ms }) => if deadline_passed(
            c.started_ms,
            now_ms,
            c.timeout_ms,
        ) {
            finished(c, Err(ConnectError::Unreachable))
        } else {
            c
        },
        (ConnectPhase::Opening, ConnectEvent::StreamOpened) => Connector {
            phase: ConnectPhase::Forwarding,
            ..c
        },
        (ConnectPhase::Opening, ConnectEvent::StreamOpenFailed) => finished(
            c,
            Err(ConnectError::StreamOpenFailed),
        ),
        (ConnectPhase::Forwarding, ConnectEvent::ForwardDone(Ok(_))) => finished(c, Ok(())),
        (ConnectPhase::Forwarding, ConnectEvent::ForwardDone(Err(fe))) => finished(
            c,
            Err(ConnectError::Forward(fe)),
        ),
        _ => c,
    }
}

/// The action for one event.
pub open spec fn connect_action(c: Connector, e: ConnectEvent) -> ConnectAction {
    let n = connect_next(c, e);
    if c.phase != ConnectPhase::Finished && n.phase == ConnectPhase::Finished {
        ConnectAction::Finish
    } else if c.phase == ConnectPhase::Establishing && n.phase == ConnectPhase::Opening {
        ConnectAction::OpenStream
    } else if c.phase == ConnectPhase::Opening && n.phase == ConnectPhase::Forwarding {
        ConnectAction::StartForwarding
    } else {
        ConnectAction::Wait
    }
}

fn deadline_passed_exec(started_ms: u64, now_ms: u64, timeout_ms: u64) -> (r: bool)
    ensures
        r == deadline_passed(started_ms, now_ms, timeout_ms),
{
    now_ms >= started_ms && now_ms - started_ms >= timeout_ms
}

impl Connector {
    /// A connect command that starts establishing its session at `started_ms`
    /// and gives up after `timeout_ms`.
    pub fn new(started_ms: u64, timeout_ms: u64) -> (r: Connector)
        ensures
            r.phase == ConnectPhase::Establishing,
            r.started_ms == started_ms,
            r.timeout_ms == timeout_ms,
            r.result is None,
    {
        Connector { phase: ConnectPhase::Establishing, started_ms, timeout_ms, result: None }
    }

    fn finish(&mut self, r: Result<(), ConnectError>) -> (a: ConnectAction)
        ensures
            *final(self) == finished(*old(self), r),
            a == ConnectAction::Finish,
    {
        self.phase = ConnectPhase::Finished;
        self.result = Some(r);
        ConnectAction::Finish
    }

    /// Takes one event and says what to do about it.
    pub fn step(&mut self, e: ConnectEvent) -> (r: ConnectAction)
        ensures
            *final(self) == connect_next(*old(self), e),
            r == connect_action(*old(self), e),
    {
        match (self.phase, e) {
            (ConnectPhase::Establishing, ConnectEvent::SessionEstablished { now_ms }) => {
                if deadline_passed_exec(self.started_ms, now_ms, self.timeout_ms) {
                    self.finish(Err(ConnectError::Unreachable))
                } else {
                    self.phase = ConnectPhase::Opening;
                    ConnectAction::OpenStream
                }
            },
            (ConnectPhase::Establishing, ConnectEvent::SessionFailed) => {
                self.finish(Err(ConnectError::Unreachable))
            },
            (ConnectPhase::Establishing, ConnectEvent::Tick { now_ms }) => {
                if deadline_passed_exec(self.started_ms, now_ms, self.timeout_ms) {
                    self.finish(Err(ConnectError::Unreachable))
                } else {
                    ConnectAction::Wait
                }
            },
            (ConnectPhase::Opening, ConnectEvent::StreamOpened) => {
                self.phase = ConnectPhase::Forwarding;
                ConnectAction::StartForwarding
            },
            (ConnectPhase::Opening, ConnectEvent::StreamOpenFailed) => {
                self.finish(Err(ConnectError::StreamOpenFailed))
            },
            (ConnectPhase::Forwarding, ConnectEvent::ForwardDone(Ok(_))) => self.finish(Ok(())),
            (ConnectPhase::Forwarding, ConnectEvent::ForwardDone(Err(fe))) => {
                self.finish(Err(ConnectError::Forward(fe)))
            },
            _ => ConnectAction::Wait,
        }
    }
}

/// The exit status of a command: 0 when it ended cleanly, 1 on an error.
pub fn exit_code(r: &Result<(), ConnectError>) -> (code: i32)
    ensures
        code == (if r is Ok {
            0i32
        } else {
            1i32
        }),
{
    match r {
        Ok(()) => 0,
        Err(_) => 1,
    }
}

/// While the session is being established, the command gives up with
/// `Unreachable` on the first clock reading at or past the deadline, so it
/// never waits longer than its timeout.
pub proof fn lemma_unreachable_by_deadline(c: Connector, now_ms: u64)
    requires
        c.phase == ConnectPhase::Establishing,
        deadline_passed(c.started_ms, now_ms, c.timeout_ms),
    ensures
        connect_next(c, ConnectEvent::Tick { now_ms }).result == Some(
            Err::<(), ConnectError>(ConnectError::Unreachable),
        ),
        connect_next(c, ConnectEvent::SessionEstablished { now_ms }).result == Some(
            Err::<(), ConnectError>(ConnectError::Unreachable),
        ),
        connect_action(c, ConnectEvent::Tick { now_ms }) == ConnectAction::Finish,
{
}

} // verus!
