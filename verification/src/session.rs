//! The processing loop as a state machine.
//!
//! A session decides; its driver reads and writes. The driver reports what
//! the input or the output did as an [`Event`], and [`Session::step`] answers
//! with the next [`Action`]. Requests are handled strictly one after the
//! other: a session reads again only when the line before was written, the
//! node's counter moves only then, and the first failure ends the session.

use vstd::prelude::*;
use crate::decode::{decode, decoded, DecodeError};
use crate::json::Json;
use crate::node::{is_line, reply_line, EchoNode};

verus! {

/// Where a session stands.
#[derive(Debug, Clone, Copy, PartialEq, Eq)]
pub enum Phase {
    /// Waiting for the next value from the input.
    AwaitingInput,
    /// A reply was handed out and is being written.
    Handling,
    /// Over; a session does not leave this phase.
    Terminated,
}

/// Why a session ended before the input did.
#[derive(Debug, Clone, Copy, PartialEq, Eq)]
pub enum Failure {
    /// The input held something that is no request.
    Decode(DecodeError),
    /// The output did not take a reply.
    Write,
}

/// What the driver reports to the session.
#[derive(Debug, PartialEq, Eq)]
pub enum Event {
    /// The input held another JSON value; this is it.
    Arrived(Json),
    /// The input held bytes that are no JSON value, or ended inside one.
    Garbled,
    /// The input ended between two values.
    Ended,
    /// The output took the whole line.
    Written,
    /// The output refused the line.
    Refused,
}

/// What the session asks of the driver.
#[derive(Debug, PartialEq, Eq)]
pub enum Action {
    /// Read the next value from the input and report it.
    Read,
    /// Write this line to the output and report what became of it.
    Write(String),
    /// Stop: the input is exhausted and every request was answered.
    Finish,
    /// Stop and report the failure.
    Fail(Failure),
}

/// The mathematical content of an [`Action`].
pub enum ActionView {
    Read,
    Write(Seq<char>),
    Finish,
    Fail(Failure),
}

impl View for Action {
    type V = ActionView;

    open spec fn view(&self) -> ActionView {
        match *self {
            Action::Read => ActionView::Read,
            Action::Write(line) => ActionView::Write(line@),
            Action::Finish => ActionView::Finish,
            Action::Fail(failure) => ActionView::Fail(failure),
        }
    }
}

/// A node and the phase of the loop around it.
#[derive(Debug, PartialEq, Eq)]
pub struct Session {
    pub node: EchoNode,
    pub phase: Phase,
}

/// What a step comes to: the phase and the counter after it, and the action
/// that it asks for.
pub struct Step {
    pub phase: Phase,
    pub id: u64,
    pub action: ActionView,
}

/// Whether a session in `phase` takes `event`: news of the input while it
/// awaits input, news of the output while a reply is being written, and
/// nothing once it is over.
pub open spec fn expects(phase: Phase, event: Event) -> bool {
    match phase {
        Phase::AwaitingInput => event is Arrived || event is Garbled || event is Ended,
        Phase::Handling => event is Written || event is Refused,
        Phase::Terminated => false,
    }
}

/// The step that a session whose node's counter stands at `id` takes on an
/// event that it expects.
pub open spec fn stepped(id: u64, event: Event) -> Step {
    match event {
        Event::Arrived(document) => match decoded(document) {
            Ok(request) => Step {
                phase: Phase::Handling,
                id,
                action: ActionView::Write(reply_line(id, request)),
            },
            Err(e) => Step {
                phase: Phase::Terminated,
                id,
                action: ActionView::Fail(Failure::Decode(e)),
            },
        },
        Event::Garbled => Step {
            phase: Phase::Terminated,
            id,
            action: ActionView::Fail(Failure::Decode(DecodeError::Syntax)),
        },
        Event::Ended => Step { phase: Phase::Terminated, id, action: ActionView::Finish },
        Event::Written => Step {
            phase: Phase::AwaitingInput,
            id: (id + 1) as u64,
            action: ActionView::Read,
        },
        Event::Refused => Step {
            phase: Phase::Terminated,
            id,
            action: ActionView::Fail(Failure::Write),
        },
    }
}

/// A session writes only in answer to a document that holds a request, and
/// then exactly the line of its node's reply; whatever else arrives, it
/// writes nothing. A document that holds no request never reaches the node:
/// it ends the session.
pub proof fn writes_only_replies(id: u64, event: Event)
    ensures
        stepped(id, event).action is Write <==> (event matches Event::Arrived(document)
            && decoded(document) is Ok),
        stepped(id, event).action matches ActionView::Write(line) ==> (
        event matches Event::Arrived(document) && decoded(document) matches Ok(request) && line
            == reply_line(id, request)),
        event matches Event::Arrived(document) ==> (decoded(document) matches Err(e) ==> stepped(
            id,
            event,
        ).phase is Terminated && stepped(id, event).action == ActionView::Fail(
            Failure::Decode(e),
        )),
{
}

/// The counter moves exactly when a line was written, and then by one. Only
/// then does a session read again; a reply that is handed out puts it into
/// the phase in which it waits for the output, and every other event ends it.
pub proof fn one_id_per_written_reply(id: u64, event: Event)
    requires
        id < u64::MAX,
    ensures
        event is Written ==> stepped(id, event).id == id + 1,
        !(event is Written) ==> stepped(id, event).id == id,
        stepped(id, event).action is Read <==> event is Written,
        stepped(id, event).phase is AwaitingInput <==> event is Written,
        stepped(id, event).phase is Handling <==> stepped(id, event).action is Write,
        !(event is Written) && !(stepped(id, event).action is Write) ==> stepped(id, event).phase
            is Terminated,
{
}

impl Session {
    /// A session with a new node, waiting for input: its driver starts by
    /// reading.
    pub fn new() -> (session: Session)
        ensures
            session.node.id == 0,
            session.phase == Phase::AwaitingInput,
    {
        Session { node: EchoNode::new(), phase: Phase::AwaitingInput }
    }

    /// Whether the session takes the event in the phase in which it stands.
    pub fn accepts(&self, event: &Event) -> (yes: bool)
        ensures
            yes == expects(self.phase, *event),
    {
        match self.phase {
            Phase::AwaitingInput => match event {
                Event::Arrived(_) => true,
                Event::Garbled => true,
                Event::Ended => true,
                _ => false,
            },
            Phase::Handling => match event {
                Event::Written => true,
                Event::Refused => true,
                _ => false,
            },
            Phase::Terminated => false,
        }
    }

    /// Takes one event and says what the driver is to do next.
    ///
    /// The event must be one that the session expects in its phase. Where a
    /// line was written, the node's counter must not stand at its last
    /// value.
    pub fn step(&mut self, event: Event) -> (action: Action)
        requires
            expects(old(self).phase, event),
            event is Written ==> old(self).node.id < u64::MAX,
        ensures
            final(self).phase == stepped(old(self).node.id, event).phase,
            final(self).node.id == stepped(old(self).node.id, event).id,
            action@ == stepped(old(self).node.id, event).action,
            action matches Action::Write(line) ==> is_line(line@),
    {
        match event {
            Event::Arrived(document) => match decode(&document) {
                Ok(request) => {
                    let line = self.node.respond(request);
                    self.phase = Phase::Handling;
                    Action::Write(line)
                },
                Err(e) => {
                    self.phase = Phase::Terminated;
                    Action::Fail(Failure::Decode(e))
                },
            },
            Event::Garbled => {
                self.phase = Phase::Terminated;
                Action::Fail(Failure::Decode(DecodeError::Syntax))
            },
            Event::Ended => {
                self.phase = Phase::Terminated;
                Action::Finish
            },
            Event::Written => {
                self.node.commit();
                self.phase = Phase::AwaitingInput;
                Action::Read
            },
            Event::Refused => {
                self.phase = Phase::Terminated;
                Action::Fail(Failure::Write)
            },
        }
    }
}

} // verus!
