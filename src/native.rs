use vstd::prelude::*;

use crate::error::RecvError;
use crate::message::SocketMessage;
use crate::socket::Socket;

verus! {

/// One outcome of a non-blocking read on a native transport.
#[derive(Debug)]
pub enum Frame {
    Text(String),
    Binary(Vec<u8>),
    Ping(Vec<u8>),
    Pong(Vec<u8>),
    /// The peer sent a close frame.
    Close,
    /// Nothing more is ready to be read now.
    WouldBlock,
    /// The read failed for any other reason.
    Failed,
}

/// What the reading loop does after a frame.
#[derive(Debug)]
pub enum FrameAction {
    /// Read the next frame.
    Continue,
    /// Answer with a pong that carries this payload, then read on.
    Reply(Vec<u8>),
    /// Stop reading; this is the drain's result.
    Done(Result<Vec<SocketMessage>, RecvError>),
}

impl Socket {
    /// Takes one frame read during a drain. Data frames join the inbound
    /// buffer; a ping is answered and never buffered; a close or a failed read
    /// ends the connection; "would block" ends the drain with everything
    /// buffered so far. A terminal connection takes no frame.
    pub fn on_frame(&mut self, f: Frame) -> (r: FrameAction)
        ensures
            old(self)@.terminal() ==> final(self)@ == old(self)@ && r == FrameAction::Done(
                Err(RecvError::Terminal),
            ),
            !old(self)@.terminal() ==> match f {
                Frame::Text(t) => final(self)@ == old(self)@.after_arrival(SocketMessage::Text(t))
                    && r is Continue,
                Frame::Binary(b) => final(self)@ == old(self)@.after_arrival(
                    SocketMessage::Binary(b),
                ) && r is Continue,
                Frame::Ping(d) => final(self)@ == old(self)@ && r == FrameAction::Reply(d),
                Frame::Pong(_) => final(self)@ == old(self)@ && r == FrameAction::Done(
                    Err(RecvError::Unsupported),
                ),
                Frame::Close => final(self)@ == old(self)@.after_close() && r == FrameAction::Done(
                    Err(RecvError::Terminal),
                ),
                Frame::Failed => final(self)@ == old(self)@.after_error() && r == FrameAction::Done(
                    Err(RecvError::Terminal),
                ),
                Frame::WouldBlock => final(self)@ == old(self)@.after_drain() && (r matches FrameAction::Done(Ok(v)) && v@ == old(self)@.received),
            },
    {
        if self.is_terminal() {
            return FrameAction::Done(Err(RecvError::Terminal));
        }
        match f {
            Frame::Text(t) => {
                self.on_message(SocketMessage::Text(t));
                FrameAction::Continue
            },
            Frame::Binary(b) => {
                self.on_message(SocketMessage::Binary(b));
                FrameAction::Continue
            },
            Frame::Ping(d) => FrameAction::Reply(d),
            Frame::Pong(_) => FrameAction::Done(Err(RecvError::Unsupported)),
            Frame::Close => {
                self.on_close();
                FrameAction::Done(Err(RecvError::Terminal))
            },
            Frame::Failed => {
                self.on_error();
                FrameAction::Done(Err(RecvError::Terminal))
            },
            Frame::WouldBlock => FrameAction::Done(self.recv_all()),
        }
    }
}

} // verus!
