//! One session between a capturing and an injecting host, past the TLS
//! handshake: the version gate, what the injecting side does with a
//! message, when the capturing side sends a keep-alive, and which errors of
//! a reconnecting client are logged.

use vstd::prelude::*;

use crate::codec::check_version;
use crate::codec::Message;
use crate::codec::ProtocolError;
use crate::codec::MESSAGE_TIMEOUT_MILLIS;
use crate::codec::PROTOCOL_VERSION;
use crate::event::Event;
use crate::writer::WriterAction;
use crate::writer::WriterManager;

verus! {

/// Milliseconds without an event after which the capturing side sends a
/// keep-alive: half of the time after which the other side gives up.
pub const KEEP_ALIVE_MILLIS: u64 = MESSAGE_TIMEOUT_MILLIS / 2;

/// Milliseconds that a client waits before it connects again.
pub const RECONNECT_DELAY_MILLIS: u64 = 1000;

/// What the capturing side found when it waited for the next event of a
/// peer's queue.
#[derive(Clone, Debug, PartialEq, Eq)]
pub enum Polled {
    /// The next event.
    Event(Event),
    /// The queue is closed: the session is over.
    Closed,
    /// No event came within the keep-alive interval.
    TimedOut,
}

/// The capturing side of a session whose peer has announced this library's
/// version. There is no such value for a peer that announced another one,
/// so nothing is ever sent to such a peer.
#[derive(Debug)]
pub struct ServerSession {
    version: u16,
}

impl ServerSession {
    /// The version that the peer announced.
    pub closed spec fn peer_version(&self) -> u16 {
        self.version
    }

    /// The session with a peer that announced the version `got`, or the
    /// mismatch where that is not this library's version.
    pub fn open(got: u16) -> (opened: Result<ServerSession, ProtocolError>)
        ensures
            match opened {
                Ok(session) => got == PROTOCOL_VERSION && session.peer_version() == got,
                Err(error) => got != PROTOCOL_VERSION && error == (ProtocolError::VersionMismatch {
                    got,
                    expected: PROTOCOL_VERSION,
                }),
            },
    {
        match check_version(got) {
            Ok(()) => Ok(ServerSession { version: got }),
            Err(error) => Err(error),
        }
    }

    /// What is sent next to the peer: the event that came, or a keep-alive
    /// where none came in time; nothing once the queue is closed, which
    /// ends the session.
    pub fn outbound(&self, polled: Polled) -> (message: Option<Message>)
        ensures
            message == match polled {
                Polled::Event(event) => Some(Message::Event(event)),
                Polled::TimedOut => Some(Message::KeepAlive),
                Polled::Closed => None,
            },
    {
        match polled {
            Polled::Event(event) => Some(Message::Event(event)),
            Polled::TimedOut => Some(Message::KeepAlive),
            Polled::Closed => None,
        }
    }
}

/// The injecting side of a session whose peer has announced this library's
/// version. There is no such value for a peer that announced another one,
/// so no message of such a peer is ever taken.
pub struct ClientSession {
    pub writers: WriterManager,
}

impl ClientSession {
    /// The session with a peer that announced the version `got`: one with
    /// no virtual device yet if that is this library's version, and the
    /// mismatch otherwise.
    pub fn open(got: u16) -> (opened: Result<ClientSession, ProtocolError>)
        ensures
            match opened {
                Ok(session) => got == PROTOCOL_VERSION && session.writers.wf()
                    && session.writers.writers@ == Map::<u16, crate::writer::EventWriter>::empty(),
                Err(error) => got != PROTOCOL_VERSION && error == (ProtocolError::VersionMismatch {
                    got,
                    expected: PROTOCOL_VERSION,
                }),
            },
    {
        match check_version(got) {
            Ok(()) => Ok(ClientSession { writers: WriterManager::new() }),
            Err(error) => Err(error),
        }
    }

    /// Takes what the payload of one frame of the peer was decoded to. A
    /// payload that is no message, `None`, breaks the protocol. An event
    /// goes to the virtual devices, and a keep-alive asks for nothing.
    pub fn receive(&mut self, decoded: Option<Message>) -> (action: Result<
        WriterAction,
        ProtocolError,
    >)
        requires
            old(self).writers.wf(),
        ensures
            final(self).writers.wf(),
            match decoded {
                None => action == Err::<WriterAction, ProtocolError>(ProtocolError::Malformed)
                    && final(self).writers.writers@ == old(self).writers.writers@,
                Some(Message::KeepAlive) => action == Ok::<WriterAction, ProtocolError>(
                    WriterAction::Nothing,
                ) && final(self).writers.writers@ == old(self).writers.writers@,
                Some(Message::Event(event)) => action matches Ok(todo) && old(self).writers.written(
                    event,
                    final(self).writers,
                    todo,
                ),
            },
    {
        match decoded {
            None => Err(ProtocolError::Malformed),
            Some(Message::KeepAlive) => Ok(WriterAction::Nothing),
            Some(Message::Event(event)) => Ok(self.writers.write(event)),
        }
    }
}

/// Which errors of a client that connects again and again are logged: an
/// error is logged where the attempt before it failed with the same words.
pub struct ErrorLog {
    last: Option<String>,
}

impl ErrorLog {
    /// The words of the last error.
    pub closed spec fn last(&self) -> Option<Seq<char>> {
        match self.last {
            Some(words) => Some(words@),
            None => None,
        }
    }

    /// A log that has seen no error.
    pub fn new() -> (log: Self)
        ensures
            log.last().is_none(),
    {
        ErrorLog { last: None }
    }

    /// Takes the words of an error and says whether to log them.
    pub fn report(&mut self, words: String) -> (logged: bool)
        ensures
            logged == (old(self).last() == Some(words@)),
            final(self).last() == Some(words@),
    {
        let logged = match &self.last {
            Some(last) => *last == words,
            None => false,
        };
        self.last = Some(words);
        logged
    }
}

} // verus!
