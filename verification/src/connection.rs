//! The duplex transport handed to the RPC layer: one send half and one
//! receive half of a single bidirectional stream, passed through untouched.

use vstd::prelude::*;

verus! {

/// Failures of one duplex stream.
#[derive(Debug)]
pub enum StreamError {
    /// A write after this side stopped sending.
    SendClosed,
    /// The substrate reported a failure; its words are attached.
    Network(String),
}

/// The same failure over sequences of characters.
pub enum StreamErrorView {
    SendClosed,
    Network(Seq<char>),
}

impl View for StreamError {
    type V = StreamErrorView;

    open spec fn view(&self) -> StreamErrorView {
        match self {
            StreamError::SendClosed => StreamErrorView::SendClosed,
            StreamError::Network(m) => StreamErrorView::Network(m@),
        }
    }
}

/// What a duplex transport is: the tokens of its two halves and whether
/// each half is still open.
pub struct DuplexView {
    pub send_stream: u64,
    pub recv_stream: u64,
    pub send_open: bool,
    pub recv_open: bool,
}

impl DuplexView {
    /// Both halves of a stream pair, open.
    pub open spec fn wrap(send_stream: u64, recv_stream: u64) -> DuplexView {
        DuplexView { send_stream, recv_stream, send_open: true, recv_open: true }
    }

    /// After this side stopped sending: the receive half is as it was.
    pub open spec fn send_finished(self) -> DuplexView {
        DuplexView { send_open: false, ..self }
    }

    /// After the peer's end of stream was seen: the send half is as it was.
    pub open spec fn recv_ended(self) -> DuplexView {
        DuplexView { recv_open: false, ..self }
    }

    /// The transport after the substrate answered a read with `received`:
    /// only an end of stream changes it.
    pub open spec fn after_read(self, received: Result<Option<Seq<u8>>, Seq<char>>) -> DuplexView {
        if self.recv_open && received == Ok::<Option<Seq<u8>>, Seq<char>>(None) {
            self.recv_ended()
        } else {
            self
        }
    }

    /// What a read hands upward: the substrate's bytes as they came, its
    /// failure as a stream failure, and end of stream once the receive half
    /// has ended.
    pub open spec fn read_result(self, received: Result<Option<Seq<u8>>, Seq<char>>) -> Result<
        Option<Seq<u8>>,
        StreamErrorView,
    > {
        if !self.recv_open {
            Ok(None)
        } else {
            match received {
                Ok(chunk) => Ok(chunk),
                Err(reason) => Err(StreamErrorView::Network(reason)),
            }
        }
    }

    /// What a write hands downward: the caller's bytes as they are, while
    /// the send half is open.
    pub open spec fn write_result(self, data: Seq<u8>) -> Result<Seq<u8>, StreamErrorView> {
        if self.send_open {
            Ok(data)
        } else {
            Err(StreamErrorView::SendClosed)
        }
    }
}

/// The bytes of an optional chunk.
pub open spec fn chunk_view(chunk: Option<Vec<u8>>) -> Option<Seq<u8>> {
    match chunk {
        Some(bytes) => Some(bytes@),
        None => None,
    }
}

/// A substrate's answer to a read, over sequences.
pub open spec fn received_view(received: Result<Option<Vec<u8>>, String>) -> Result<
    Option<Seq<u8>>,
    Seq<char>,
> {
    match received {
        Ok(chunk) => Ok(chunk_view(chunk)),
        Err(reason) => Err(reason@),
    }
}

/// What a read returned, over sequences.
pub open spec fn read_view(result: Result<Option<Vec<u8>>, StreamError>) -> Result<
    Option<Seq<u8>>,
    StreamErrorView,
> {
    match result {
        Ok(chunk) => Ok(chunk_view(chunk)),
        Err(e) => Err(e@),
    }
}

/// What a write returned, over sequences.
pub open spec fn write_view(result: Result<Vec<u8>, StreamError>) -> Result<
    Seq<u8>,
    StreamErrorView,
> {
    match result {
        Ok(bytes) => Ok(bytes@),
        Err(e) => Err(e@),
    }
}

/// One bidirectional stream as a single duplex object. It adds no bytes,
/// keeps none back and frames nothing.
#[derive(Debug)]
pub struct IrohConnectionWithStreams {
    send_stream: u64,
    recv_stream: u64,
    send_open: bool,
    recv_open: bool,
}

impl View for IrohConnectionWithStreams {
    type V = DuplexView;

    closed spec fn view(&self) -> DuplexView {
        DuplexView {
            send_stream: self.send_stream,
            recv_stream: self.recv_stream,
            send_open: self.send_open,
            recv_open: self.recv_open,
        }
    }
}

impl IrohConnectionWithStreams {
    /// Wraps the two halves of a freshly opened or accepted stream.
    pub fn new(send_stream: u64, recv_stream: u64) -> (duplex: IrohConnectionWithStreams)
        ensures
            duplex@ == DuplexView::wrap(send_stream, recv_stream),
    {
        IrohConnectionWithStreams { send_stream, recv_stream, send_open: true, recv_open: true }
    }

    /// Token of the half that bytes are written to.
    pub fn send_stream(&self) -> (token: u64)
        ensures
            token == self@.send_stream,
    {
        self.send_stream
    }

    /// Token of the half that bytes are read from.
    pub fn recv_stream(&self) -> (token: u64)
        ensures
            token == self@.recv_stream,
    {
        self.recv_stream
    }

    /// Whether this side may still send.
    pub fn can_send(&self) -> (open: bool)
        ensures
            open == self@.send_open,
    {
        self.send_open
    }

    /// Whether the peer may still have bytes for this side.
    pub fn can_receive(&self) -> (open: bool)
        ensures
            open == self@.recv_open,
    {
        self.recv_open
    }

    /// The bytes to put on the send half for a write of `data`: `data`
    /// itself, or a failure once this side has stopped sending.
    pub fn write(&self, data: Vec<u8>) -> (result: Result<Vec<u8>, StreamError>)
        ensures
            write_view(result) == self@.write_result(data@),
    {
        if self.send_open {
            Ok(data)
        } else {
            Err(StreamError::SendClosed)
        }
    }

    /// Stops sending. Receiving goes on as before.
    pub fn shutdown_send(&mut self)
        ensures
            final(self)@ == old(self)@.send_finished(),
    {
        self.send_open = false;
    }

    /// Hands upward what the substrate answered to a read on the receive
    /// half: a chunk as it came, `None` at end of stream, a failure as a
    /// stream failure.
    pub fn read(&mut self, received: Result<Option<Vec<u8>>, String>) -> (result: Result<
        Option<Vec<u8>>,
        StreamError,
    >)
        ensures
            read_view(result) == old(self)@.read_result(received_view(received)),
            final(self)@ == old(self)@.after_read(received_view(received)),
    {
        if !self.recv_open {
            return Ok(None);
        }
        match received {
            Ok(Some(bytes)) => Ok(Some(bytes)),
            Ok(None) => {
                self.recv_open = false;
                Ok(None)
            },
            Err(reason) => Err(StreamError::Network(reason)),
        }
    }
}

} // verus!
