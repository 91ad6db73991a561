//! One connection's session: read, decode, respond, and read again.
//!
//! A session owns no socket. Its owner asks [`Client::poll`] at the top of
//! every cycle whether to read, performs the read, hands the outcome to
//! [`Client::handle`], writes what that returns, and reports the outcome of
//! the write to [`Client::complete`]. An event that the session is not
//! waiting for is ignored: it changes nothing and asks for nothing.

use crate::codec::{wire_decoding, wire_encoding, DecodeFailure, EchoMessage};
use vstd::prelude::*;

verus! {

/// The most bytes that one read may bring.
pub const READ_CAPACITY: usize = 512;

/// How a read or a write failed.
#[derive(Clone, Copy, Debug, PartialEq, Eq, Structural)]
pub enum IoFault {
    /// The peer reset the connection: an expected way for it to leave.
    ConnectionReset,
    /// Any other failure.
    Other,
}

/// What a read on the connection gave.
#[derive(Debug, PartialEq, Eq)]
pub enum ReadOutcome {
    /// The bytes that arrived; none where the peer has closed its side.
    Data(Vec<u8>),
    /// The read failed.
    Fault(IoFault),
}

/// What writing and flushing a reply gave.
#[derive(Clone, Copy, Debug, PartialEq, Eq, Structural)]
pub enum WriteOutcome {
    /// Every byte was written and flushed.
    Done,
    /// The write or the flush failed.
    Fault(IoFault),
}

/// Where a session stands.
#[derive(Clone, Copy, Debug, PartialEq, Eq, Structural)]
pub enum SessionState {
    /// Waiting for the next read.
    Reading,
    /// Bytes have arrived and are with the decoder.
    Decoding,
    /// A reply is being written.
    Responding,
    /// Over: the peer left, or the server is stopping.
    Closed,
    /// Over: the connection failed.
    Failed,
}

impl IoFault {
    /// The state in which a session ends after this fault.
    pub open spec fn end_state(self) -> SessionState {
        match self {
            IoFault::ConnectionReset => SessionState::Closed,
            IoFault::Other => SessionState::Failed,
        }
    }
}

impl ReadOutcome {
    /// The bytes that go to the decoder: those of a read that brought some.
    pub open spec fn payload(self) -> Option<Seq<u8>> {
        match self {
            ReadOutcome::Data(bytes) => if bytes@.len() == 0 {
                None
            } else {
                Some(bytes@)
            },
            ReadOutcome::Fault(_) => None,
        }
    }

    /// The reply owed to this read: the encoding of the message that its
    /// bytes decode to, where they decode.
    pub open spec fn reply(self) -> Option<Seq<u8>> {
        match self.payload() {
            Some(bytes) => match wire_decoding(bytes) {
                Some(content) => Some(wire_encoding(content)),
                None => None,
            },
            None => None,
        }
    }
}

impl SessionState {
    /// Whether the session is over.
    pub open spec fn is_terminal(self) -> bool {
        self == SessionState::Closed || self == SessionState::Failed
    }

    /// The state after the run flag was observed at the top of a cycle.
    pub open spec fn polled(self, running: bool) -> SessionState {
        if self == SessionState::Reading && !running {
            SessionState::Closed
        } else {
            self
        }
    }

    /// The state after a read came back, before anything is decoded.
    pub open spec fn received(self, read: ReadOutcome) -> SessionState {
        if self == SessionState::Reading {
            match read {
                ReadOutcome::Data(bytes) => if bytes@.len() == 0 {
                    SessionState::Closed
                } else {
                    SessionState::Decoding
                },
                ReadOutcome::Fault(fault) => fault.end_state(),
            }
        } else {
            self
        }
    }

    /// The state after the decoder gave its verdict; `decoded` says whether
    /// it found a message.
    pub open spec fn responded(self, decoded: bool) -> SessionState {
        if self == SessionState::Decoding {
            if decoded {
                SessionState::Responding
            } else {
                SessionState::Reading
            }
        } else {
            self
        }
    }

    /// The state after a read came back and its bytes, if any, were decoded.
    pub open spec fn handled(self, read: ReadOutcome) -> SessionState {
        if self == SessionState::Reading {
            self.received(read).responded(read.reply() is Some)
        } else {
            self
        }
    }

    /// The state after the write of a reply came back.
    pub open spec fn completed(self, write: WriteOutcome) -> SessionState {
        if self == SessionState::Responding {
            match write {
                WriteOutcome::Done => SessionState::Reading,
                WriteOutcome::Fault(fault) => fault.end_state(),
            }
        } else {
            self
        }
    }

    /// The state after one whole cycle in which the server runs and the
    /// reply, where one is owed, is written in full.
    pub open spec fn cycled(self, read: ReadOutcome) -> SessionState {
        self.polled(true).handled(read).completed(WriteOutcome::Done)
    }

    /// The state after one such cycle for each of `reads`, in order.
    pub open spec fn served(self, reads: Seq<ReadOutcome>) -> SessionState
        decreases reads.len(),
    {
        if reads.len() == 0 {
            self
        } else {
            self.served(reads.drop_last()).cycled(reads.last())
        }
    }
}

/// The session of one client.
#[derive(Debug)]
pub struct Client {
    state: SessionState,
}

impl Client {
    /// The state of the session, in contracts.
    pub closed spec fn spec_state(&self) -> SessionState {
        self.state
    }

    /// A session on a freshly accepted connection.
    pub fn new() -> (client: Client)
        ensures
            client.spec_state() == SessionState::Reading,
    {
        Client { state: SessionState::Reading }
    }

    /// The state of the session.
    #[verifier::when_used_as_spec(spec_state)]
    pub fn state(&self) -> (state: SessionState)
        ensures
            state == self.spec_state(),
    {
        self.state
    }

    /// Whether the session is over.
    pub fn is_finished(&self) -> (finished: bool)
        ensures
            finished == self.spec_state().is_terminal(),
    {
        match self.state {
            SessionState::Closed | SessionState::Failed => true,
            _ => false,
        }
    }

    /// The top of a cycle. `running` is the run flag as just observed. A
    /// session that waits to read and sees the flag down closes, without a
    /// word to the peer. The result is the capacity of the read to perform,
    /// or `None` where no read is due.
    pub fn poll(&mut self, running: bool) -> (capacity: Option<usize>)
        ensures
            final(self).spec_state() == old(self).spec_state().polled(running),
            capacity == if final(self).spec_state() == SessionState::Reading {
                Some(READ_CAPACITY)
            } else {
                None
            },
    {
        match self.state {
            SessionState::Reading => {
                if running {
                    Some(READ_CAPACITY)
                } else {
                    self.state = SessionState::Closed;
                    None
                }
            },
            _ => None,
        }
    }

    /// Takes in the outcome of a read. A read without bytes is the peer's
    /// orderly close; a fault ends the session as [`IoFault::end_state`]
    /// says. The result is the bytes to decode: the whole of what arrived,
    /// as one unit.
    pub fn receive(&mut self, read: ReadOutcome) -> (payload: Option<Vec<u8>>)
        ensures
            final(self).spec_state() == old(self).spec_state().received(read),
            match payload {
                Some(bytes) => old(self).spec_state() == SessionState::Reading && read.payload()
                    == Some(bytes@),
                None => old(self).spec_state() != SessionState::Reading || read.payload() is None,
            },
    {
        match self.state {
            SessionState::Reading => match read {
                ReadOutcome::Data(bytes) => {
                    if bytes.len() == 0 {
                        self.state = SessionState::Closed;
                        None
                    } else {
                        self.state = SessionState::Decoding;
                        Some(bytes)
                    }
                },
                ReadOutcome::Fault(IoFault::ConnectionReset) => {
                    self.state = SessionState::Closed;
                    None
                },
                ReadOutcome::Fault(IoFault::Other) => {
                    self.state = SessionState::Failed;
                    None
                },
            },
            _ => None,
        }
    }

    /// Takes in the decoder's verdict. A message is answered with its own
    /// encoding, and the session turns to writing it. A failure is not the
    /// connection's end: the session goes back to reading.
    pub fn respond(&mut self, decoded: Result<EchoMessage, DecodeFailure>) -> (reply: Option<
        Vec<u8>,
    >)
        ensures
            final(self).spec_state() == old(self).spec_state().responded(decoded is Ok),
            match reply {
                Some(bytes) => old(self).spec_state() == SessionState::Decoding && decoded is Ok
                    && bytes@ == wire_encoding(decoded->Ok_0@),
                None => old(self).spec_state() != SessionState::Decoding || decoded is Err,
            },
    {
        match self.state {
            SessionState::Decoding => match decoded {
                Ok(message) => {
                    self.state = SessionState::Responding;
                    Some(message.encode_to_vec())
                },
                Err(_) => {
                    self.state = SessionState::Reading;
                    None
                },
            },
            _ => None,
        }
    }

    /// One cycle's work between the read and the write: takes in the outcome
    /// of the read, decodes what arrived and returns the reply to write and
    /// flush, if one is owed.
    pub fn handle(&mut self, read: ReadOutcome) -> (reply: Option<Vec<u8>>)
        ensures
            final(self).spec_state() == old(self).spec_state().handled(read),
            match reply {
                Some(bytes) => old(self).spec_state() == SessionState::Reading && read.reply()
                    == Some(bytes@),
                None => old(self).spec_state() != SessionState::Reading || read.reply() is None,
            },
    {
        match self.receive(read) {
            Some(bytes) => {
                let decoded = EchoMessage::decode(bytes.as_slice());
                self.respond(decoded)
            },
            None => None,
        }
    }

    /// Takes in the outcome of writing a reply. After a full write the
    /// session reads again; a fault ends it.
    pub fn complete(&mut self, write: WriteOutcome)
        ensures
            final(self).spec_state() == old(self).spec_state().completed(write),
    {
        match self.state {
            SessionState::Responding => match write {
                WriteOutcome::Done => {
                    self.state = SessionState::Reading;
                },
                WriteOutcome::Fault(IoFault::ConnectionReset) => {
                    self.state = SessionState::Closed;
                },
                WriteOutcome::Fault(IoFault::Other) => {
                    self.state = SessionState::Failed;
                },
            },
            _ => {},
        }
    }
}

/// Every message that decodes is answered with exactly its re-encoding, and
/// with nothing else: the reply to bytes that decode to `content` is the
/// encoding of `content`, and the session turns to writing it.
pub proof fn lemma_echo_is_reencoding(read: ReadOutcome, content: Seq<char>)
    requires
        read.payload() is Some,
        wire_decoding(read.payload()->Some_0) == Some(content),
    ensures
        read.reply() == Some(wire_encoding(content)),
        SessionState::Reading.handled(read) == SessionState::Responding,
        SessionState::Responding.completed(WriteOutcome::Done) == SessionState::Reading,
{
}

/// A read without bytes ends the session cleanly and for good: no reply is
/// owed, the session is closed and not failed, and nothing that arrives
/// later, nor the run flag, brings it back or draws a reply from it.
pub proof fn lemma_empty_read_closes(read: ReadOutcome, later: ReadOutcome, running: bool)
    requires
        read matches ReadOutcome::Data(bytes) && bytes@.len() == 0,
    ensures
        read.reply() is None,
        SessionState::Reading.handled(read) == SessionState::Closed,
        SessionState::Closed.polled(running) == SessionState::Closed,
        SessionState::Closed.handled(later) == SessionState::Closed,
{
}

/// Bytes that do not decode cost nothing but themselves: after them the
/// session is reading again, still reads while the server runs, and answers
/// the next message that decodes as a fresh session would.
pub proof fn lemma_decode_failure_is_recoverable(bad: ReadOutcome, good: ReadOutcome)
    requires
        bad.payload() is Some,
        wire_decoding(bad.payload()->Some_0) is None,
        good.reply() is Some,
    ensures
        bad.reply() is None,
        SessionState::Reading.handled(bad) == SessionState::Reading,
        SessionState::Reading.handled(bad).polled(true) == SessionState::Reading,
        SessionState::Reading.handled(bad).polled(true).handled(good)
            == SessionState::Responding,
        SessionState::Reading.handled(bad).polled(true).handled(good)
            == SessionState::Reading.handled(good),
{
}

/// No traffic ends a session: as long as every read brings bytes, whether
/// they decode or not, the session is reading again after each cycle, so
/// each read in turn is answered as a fresh session would answer it.
pub proof fn lemma_session_outlives_traffic(reads: Seq<ReadOutcome>, served: int)
    requires
        forall|i: int| 0 <= i < reads.len() ==> (#[trigger] reads[i]).payload() is Some,
        0 <= served <= reads.len(),
    ensures
        SessionState::Reading.served(reads.take(served)) == SessionState::Reading,
    decreases served,
{
    if served > 0 {
        lemma_session_outlives_traffic(reads, served - 1);
        assert(reads.take(served).drop_last() == reads.take(served - 1));
        assert(reads.take(served).last() == reads[served - 1]);
    }
}

/// A session that has ended never leaves its state, whatever it is told.
pub proof fn lemma_terminal_is_final(
    state: SessionState,
    running: bool,
    read: ReadOutcome,
    decoded: bool,
    write: WriteOutcome,
)
    requires
        state.is_terminal(),
    ensures
        state.polled(running) == state,
        state.received(read) == state,
        state.responded(decoded) == state,
        state.handled(read) == state,
        state.completed(write) == state,
{
}

/// Stopping the server does not reach into a cycle that is under way: what
/// a session makes of a read does not depend on the run flag, which it sees
/// only at the top of its next cycle, where it then closes.
pub proof fn lemma_stop_ends_session_at_cycle_top(state: SessionState)
    requires
        !state.is_terminal(),
    ensures
        state.polled(false) == if state == SessionState::Reading {
            SessionState::Closed
        } else {
            state
        },
        state.polled(true) == state,
{
}

} // verus!
