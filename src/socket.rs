use vstd::prelude::*;

use crate::error::{ConnectionError, RecvError, SendError};
use crate::message::SocketMessage;

verus! {

/// The ready state that a transport reports for itself.
#[derive(Debug, Clone, Copy, PartialEq, Eq, Structural)]
pub enum ReadyState {
    Connecting,
    Open,
    Closing,
    Closed,
}

/// The ready state that a browser socket reports under the numeric `code`.
pub open spec fn ready_of_code(code: u16) -> Option<ReadyState> {
    if code == 0 {
        Some(ReadyState::Connecting)
    } else if code == 1 {
        Some(ReadyState::Open)
    } else if code == 2 {
        Some(ReadyState::Closing)
    } else if code == 3 {
        Some(ReadyState::Closed)
    } else {
        None
    }
}

impl ReadyState {
    /// Reads the numeric ready state of a browser socket (0 to 3).
    pub fn from_code(code: u16) -> (r: Option<ReadyState>)
        ensures
            r == ready_of_code(code),
    {
        if code == 0 {
            Some(ReadyState::Connecting)
        } else if code == 1 {
            Some(ReadyState::Open)
        } else if code == 2 {
            Some(ReadyState::Closing)
        } else if code == 3 {
            Some(ReadyState::Closed)
        } else {
            None
        }
    }
}

/// What the caller of a send must do with the message.
#[derive(Debug)]
pub enum SendAction {
    /// The transport is open: hand this message to it now.
    Deliver(SocketMessage),
    /// The message waits in the pending queue until the transport opens.
    Deferred,
}

/// The state of one connection: the pending-send queue, the inbound buffer,
/// whether the open transition has happened, and the two terminal flags.
pub struct Socket {
    queued: Vec<SocketMessage>,
    received: Vec<SocketMessage>,
    opened: bool,
    disconnected: bool,
    errored: bool,
}

/// The mathematical model of a `Socket`.
pub struct SocketView {
    pub queued: Seq<SocketMessage>,
    pub received: Seq<SocketMessage>,
    pub opened: bool,
    pub disconnected: bool,
    pub errored: bool,
}

impl View for Socket {
    type V = SocketView;

    closed spec fn view(&self) -> SocketView {
        SocketView {
            queued: self.queued@,
            received: self.received@,
            opened: self.opened,
            disconnected: self.disconnected,
            errored: self.errored,
        }
    }
}

/// What a send of `m` returns while the transport reports `ready`.
pub open spec fn send_outcome(m: SocketMessage, ready: ReadyState) -> Result<SendAction, SendError> {
    match ready {
        ReadyState::Open => Ok(SendAction::Deliver(m)),
        ReadyState::Connecting => Ok(SendAction::Deferred),
        _ => Err(SendError::Closed),
    }
}

impl SocketView {
    /// A connection that has been created and has not opened yet.
    pub open spec fn fresh() -> SocketView {
        SocketView {
            queued: Seq::empty(),
            received: Seq::empty(),
            opened: false,
            disconnected: false,
            errored: false,
        }
    }

    /// Closed or failed: no drain succeeds any more.
    pub open spec fn terminal(self) -> bool {
        self.disconnected || self.errored
    }

    /// The state after a send of `m` while the transport reports `ready`.
    pub open spec fn after_send(self, m: SocketMessage, ready: ReadyState) -> SocketView {
        if ready == ReadyState::Connecting {
            SocketView { queued: self.queued.push(m), ..self }
        } else {
            self
        }
    }

    /// What the open transition hands to the transport: the pending queue,
    /// the first time only.
    pub open spec fn flushed(self) -> Seq<SocketMessage> {
        if self.opened {
            Seq::empty()
        } else {
            self.queued
        }
    }

    /// The state after the open transition.
    pub open spec fn after_open(self) -> SocketView {
        if self.opened {
            self
        } else {
            SocketView { queued: Seq::empty(), opened: true, ..self }
        }
    }

    /// The state after `m` arrived from the transport.
    pub open spec fn after_arrival(self, m: SocketMessage) -> SocketView {
        SocketView { received: self.received.push(m), ..self }
    }

    /// The state after the transport reported a failure.
    pub open spec fn after_error(self) -> SocketView {
        SocketView { errored: true, ..self }
    }

    /// The state after the transport closed.
    pub open spec fn after_close(self) -> SocketView {
        SocketView { disconnected: true, ..self }
    }

    /// The state after a drain.
    pub open spec fn after_drain(self) -> SocketView {
        if self.terminal() {
            self
        } else {
            SocketView { received: Seq::empty(), ..self }
        }
    }

    /// What a drain returns.
    pub open spec fn drained(self) -> Result<Seq<SocketMessage>, RecvError> {
        if self.terminal() {
            Err(RecvError::Terminal)
        } else {
            Ok(self.received)
        }
    }
}

impl Socket {
    /// Makes the state of a connection whose transport was just created.
    /// `created` says whether the transport could be started at all.
    pub fn new(created: bool) -> (r: Result<Socket, ConnectionError>)
        ensures
            created <==> r is Ok,
            r matches Ok(s) ==> s@ == SocketView::fresh(),
            r matches Err(e) ==> e == ConnectionError::CreationFailed,
    {
        if created {
            let s = Socket {
                queued: Vec::new(),
                received: Vec::new(),
                opened: false,
                disconnected: false,
                errored: false,
            };
            proof {
                assert(s@.queued =~= Seq::<SocketMessage>::empty());
                assert(s@.received =~= Seq::<SocketMessage>::empty());
            }
            Ok(s)
        } else {
            Err(ConnectionError::CreationFailed)
        }
    }

    /// Whether the connection has closed or failed.
    pub fn is_terminal(&self) -> (r: bool)
        ensures
            r == self@.terminal(),
    {
        self.disconnected || self.errored
    }

    /// The ready state that this connection's own record implies: closed once
    /// terminal, open after the open transition, connecting before it.
    pub fn ready_state(&self) -> (r: ReadyState)
        ensures
            r == (if self@.terminal() {
                ReadyState::Closed
            } else if self@.opened {
                ReadyState::Open
            } else {
                ReadyState::Connecting
            }),
    {
        if self.disconnected || self.errored {
            ReadyState::Closed
        } else if self.opened {
            ReadyState::Open
        } else {
            ReadyState::Connecting
        }
    }

    fn submit(&mut self, m: SocketMessage, ready: ReadyState) -> (r: Result<SendAction, SendError>)
        ensures
            final(self)@ == old(self)@.after_send(m, ready),
            r == send_outcome(m, ready),
    {
        match ready {
            ReadyState::Open => Ok(SendAction::Deliver(m)),
            ReadyState::Connecting => {
                self.queued.push(m);
                Ok(SendAction::Deferred)
            },
            _ => Err(SendError::Closed),
        }
    }

    /// Sends a text message while the transport reports `ready`: delivered at
    /// once when open, queued while connecting, refused when closing or closed.
    pub fn send(&mut self, data: String, ready: ReadyState) -> (r: Result<SendAction, SendError>)
        ensures
            final(self)@ == old(self)@.after_send(SocketMessage::Text(data), ready),
            r == send_outcome(SocketMessage::Text(data), ready),
    {
        self.submit(SocketMessage::Text(data), ready)
    }

    /// Sends a binary message; see `send`.
    pub fn send_binary(&mut self, data: Vec<u8>, ready: ReadyState) -> (r: Result<SendAction, SendError>)
        ensures
            final(self)@ == old(self)@.after_send(SocketMessage::Binary(data), ready),
            r == send_outcome(SocketMessage::Binary(data), ready),
    {
        self.submit(SocketMessage::Binary(data), ready)
    }

    /// The open transition: returns the pending queue, in the order of the
    /// sends, for delivery, and leaves it empty. Only the first call flushes.
    pub fn on_open(&mut self) -> (r: Vec<SocketMessage>)
        ensures
            r@ == old(self)@.flushed(),
            final(self)@ == old(self)@.after_open(),
    {
        if self.opened {
            Vec::new()
        } else {
            let mut out: Vec<SocketMessage> = Vec::new();
            std::mem::swap(&mut out, &mut self.queued);
            self.opened = true;
            proof {
                assert(self@.queued =~= Seq::<SocketMessage>::empty());
                assert(self@ == old(self)@.after_open());
            }
            out
        }
    }

    /// A message arrived from the transport: it joins the inbound buffer.
    pub fn on_message(&mut self, m: SocketMessage)
        ensures
            final(self)@ == old(self)@.after_arrival(m),
    {
        self.received.push(m);
    }

    /// The transport reported a failure.
    pub fn on_error(&mut self)
        ensures
            final(self)@ == old(self)@.after_error(),
    {
        self.errored = true;
    }

    /// The transport closed.
    pub fn on_close(&mut self)
        ensures
            final(self)@ == old(self)@.after_close(),
    {
        self.disconnected = true;
    }

    /// Drains the inbound buffer: every message received since the last
    /// drain, in arrival order, or `Terminal` once the connection closed or
    /// failed. Never waits for data.
    pub fn recv_all(&mut self) -> (r: Result<Vec<SocketMessage>, RecvError>)
        ensures
            r is Err <==> old(self)@.terminal(),
            r matches Ok(v) ==> old(self)@.drained() == Ok::<Seq<SocketMessage>, RecvError>(v@),
            r matches Err(e) ==> old(self)@.drained() == Err::<Seq<SocketMessage>, RecvError>(e),
            final(self)@ == old(self)@.after_drain(),
    {
        if self.disconnected || self.errored {
            Err(RecvError::Terminal)
        } else {
            let mut out: Vec<SocketMessage> = Vec::new();
            std::mem::swap(&mut out, &mut self.received);
            proof {
                assert(self@.received =~= Seq::<SocketMessage>::empty());
                assert(self@ == old(self)@.after_drain());
            }
            Ok(out)
        }
    }
}

} // verus!
