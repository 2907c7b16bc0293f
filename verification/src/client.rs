//! The dialing side, and the transport that both sides hand upward.

use crate::config::IrohConfig;
use crate::connection::DuplexView;
use crate::connection::IrohConnectionWithStreams;
use crate::error::prefixed;
use crate::error::TransportError;
use crate::error::TransportErrorView;
use vstd::prelude::*;

verus! {

/// What the substrate answered when asked for a bidirectional stream: the
/// tokens of the send and the receive half, or its reason for failing.
pub open spec fn stream_outcome_view(outcome: Result<(u64, u64), String>) -> Result<
    (u64, u64),
    Seq<char>,
> {
    match outcome {
        Ok(pair) => Ok(pair),
        Err(reason) => Err(reason@),
    }
}

/// What the substrate answered to a dial: the token of the connection, or
/// its reason for failing.
pub open spec fn dial_outcome_view(outcome: Result<u64, String>) -> Result<u64, Seq<char>> {
    match outcome {
        Ok(connection) => Ok(connection),
        Err(reason) => Err(reason@),
    }
}

/// The client's result for a dial.
pub open spec fn dial_result(outcome: Result<u64, Seq<char>>) -> Result<u64, TransportErrorView> {
    match outcome {
        Ok(connection) => Ok(connection),
        Err(reason) => Err(TransportErrorView::Dial("Failed to connect: "@ + reason)),
    }
}

/// The client's result for opening its one stream.
pub open spec fn open_result(outcome: Result<(u64, u64), Seq<char>>) -> Result<
    DuplexView,
    TransportErrorView,
> {
    match outcome {
        Ok(pair) => Ok(DuplexView::wrap(pair.0, pair.1)),
        Err(reason) => Err(
            TransportErrorView::StreamOpen("Failed to open bidirectional stream: "@ + reason),
        ),
    }
}

/// The server's result for accepting a connection's first stream.
pub open spec fn accept_result(outcome: Result<(u64, u64), Seq<char>>) -> Result<
    DuplexView,
    TransportErrorView,
> {
    match outcome {
        Ok(pair) => Ok(DuplexView::wrap(pair.0, pair.1)),
        Err(reason) => Err(
            TransportErrorView::ConnectionAccept(
                "Failed to open bidirectional stream: "@ + reason,
            ),
        ),
    }
}

/// A transport or a failure, over plain values.
pub open spec fn transport_view(result: Result<IrohClientTransport, TransportError>) -> Result<
    DuplexView,
    TransportErrorView,
> {
    match result {
        Ok(transport) => Ok(transport@),
        Err(e) => Err(e@),
    }
}

/// A dialed connection or a failure, over plain values.
pub open spec fn dialed_view(result: Result<u64, TransportError>) -> Result<
    u64,
    TransportErrorView,
> {
    match result {
        Ok(connection) => Ok(connection),
        Err(e) => Err(e@),
    }
}

/// What the client asks of the substrate first: to reach `remote` under the
/// protocol identifier of its settings.
#[derive(Debug)]
pub struct DialRequest {
    pub remote: String,
    pub protocol_id: Vec<u8>,
}

/// One established duplex transport, whichever side opened the stream.
#[derive(Debug)]
pub struct IrohClientTransport {
    connection: IrohConnectionWithStreams,
}

impl View for IrohClientTransport {
    type V = DuplexView;

    closed spec fn view(&self) -> DuplexView {
        self.connection@
    }
}

impl IrohClientTransport {
    /// The transport over an already wrapped stream pair.
    pub fn from_connection_with_streams(connection: IrohConnectionWithStreams) -> (transport:
        IrohClientTransport)
        ensures
            transport@ == connection@,
    {
        IrohClientTransport { connection }
    }

    /// Gives the duplex stream to the layer above.
    pub fn into_connection(self) -> (connection: IrohConnectionWithStreams)
        ensures
            connection@ == self@,
    {
        self.connection
    }

    /// Start of `connect`: the dial to make, to the peer `remote` and under
    /// the configured protocol identifier.
    pub fn dial_request(config: &IrohConfig, remote: String) -> (request: DialRequest)
        ensures
            request.remote == remote,
            request.protocol_id@ == config.protocol_id@,
    {
        DialRequest { remote, protocol_id: config.protocol_id.clone() }
    }

    /// First step of `connect`: judges the substrate's answer to the dial.
    /// A connection goes on to the stream step; a failure ends the attempt.
    pub fn dialed(outcome: Result<u64, String>) -> (result: Result<u64, TransportError>)
        ensures
            dialed_view(result) == dial_result(dial_outcome_view(outcome)),
    {
        match outcome {
            Ok(connection) => Ok(connection),
            Err(reason) => Err(TransportError::Dial(prefixed("Failed to connect: ", reason.as_str()))),
        }
    }

    /// Second step of `connect`: wraps the one stream opened on the dialed
    /// connection, or ends the attempt with the substrate's reason.
    pub fn opened(outcome: Result<(u64, u64), String>) -> (result: Result<
        IrohClientTransport,
        TransportError,
    >)
        ensures
            transport_view(result) == open_result(stream_outcome_view(outcome)),
    {
        match outcome {
            Ok(pair) => Ok(
                IrohClientTransport::from_connection_with_streams(
                    IrohConnectionWithStreams::new(pair.0, pair.1),
                ),
            ),
            Err(reason) => Err(
                TransportError::StreamOpen(
                    prefixed("Failed to open bidirectional stream: ", reason.as_str()),
                ),
            ),
        }
    }

    /// The acceptor's counterpart of `opened`: wraps the first stream that
    /// a queued connection gave, or reports a failure that concerns this
    /// connection alone.
    pub fn accepted(outcome: Result<(u64, u64), String>) -> (result: Result<
        IrohClientTransport,
        TransportError,
    >)
        ensures
            transport_view(result) == accept_result(stream_outcome_view(outcome)),
    {
        match outcome {
            Ok(pair) => Ok(
                IrohClientTransport::from_connection_with_streams(
                    IrohConnectionWithStreams::new(pair.0, pair.1),
                ),
            ),
            Err(reason) => Err(
                TransportError::ConnectionAccept(
                    prefixed("Failed to open bidirectional stream: ", reason.as_str()),
                ),
            ),
        }
    }
}

/// A dialed stream and an accepted stream are wrapped alike: over the same
/// pair of halves both sides hold the same transport, with both halves open,
/// so the layer above cannot tell initiator from acceptor.
pub proof fn lemma_initiator_and_acceptor_alike(send_stream: u64, recv_stream: u64)
    ensures
        open_result(Ok((send_stream, recv_stream))) == accept_result(
            Ok((send_stream, recv_stream)),
        ),
        open_result(Ok((send_stream, recv_stream))) == Ok::<DuplexView, TransportErrorView>(
            DuplexView::wrap(send_stream, recv_stream),
        ),
        DuplexView::wrap(send_stream, recv_stream).send_open,
        DuplexView::wrap(send_stream, recv_stream).recv_open,
        forall|data: Seq<u8>| #[trigger]
            DuplexView::wrap(send_stream, recv_stream).write_result(data) == Ok::<
                Seq<u8>,
                crate::connection::StreamErrorView,
            >(data),
        DuplexView::wrap(send_stream, recv_stream).send_finished().recv_open,
{
}

} // verus!
