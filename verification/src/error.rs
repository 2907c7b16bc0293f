//! Failures that the adapter reports to the layer above.

use vstd::prelude::*;

verus! {

/// What went wrong, with the substrate's own words attached.
#[derive(Debug)]
pub enum TransportError {
    /// The endpoint could not be bound or configured; fatal to `start`.
    Initialization(String),
    /// One connection's first bidirectional stream could not be accepted.
    ConnectionAccept(String),
    /// The remote peer could not be reached.
    Dial(String),
    /// The connection stands, but no bidirectional stream could be opened.
    StreamOpen(String),
    /// The handler offered a connection while no open queue was there.
    QueueUnavailable(String),
}

/// The same failure over sequences of characters.
pub enum TransportErrorView {
    Initialization(Seq<char>),
    ConnectionAccept(Seq<char>),
    Dial(Seq<char>),
    StreamOpen(Seq<char>),
    QueueUnavailable(Seq<char>),
}

impl View for TransportError {
    type V = TransportErrorView;

    open spec fn view(&self) -> TransportErrorView {
        match self {
            TransportError::Initialization(m) => TransportErrorView::Initialization(m@),
            TransportError::ConnectionAccept(m) => TransportErrorView::ConnectionAccept(m@),
            TransportError::Dial(m) => TransportErrorView::Dial(m@),
            TransportError::StreamOpen(m) => TransportErrorView::StreamOpen(m@),
            TransportError::QueueUnavailable(m) => TransportErrorView::QueueUnavailable(m@),
        }
    }
}

impl TransportErrorView {
    /// The text carried by the failure, whatever its kind.
    pub open spec fn message(self) -> Seq<char> {
        match self {
            TransportErrorView::Initialization(m) => m,
            TransportErrorView::ConnectionAccept(m) => m,
            TransportErrorView::Dial(m) => m,
            TransportErrorView::StreamOpen(m) => m,
            TransportErrorView::QueueUnavailable(m) => m,
        }
    }
}

impl TransportError {
    /// The text carried by the failure, whatever its kind.
    pub fn message(&self) -> (text: String)
        ensures
            text@ == self@.message(),
    {
        match self {
            TransportError::Initialization(m) => m.clone(),
            TransportError::ConnectionAccept(m) => m.clone(),
            TransportError::Dial(m) => m.clone(),
            TransportError::StreamOpen(m) => m.clone(),
            TransportError::QueueUnavailable(m) => m.clone(),
        }
    }

    /// True for the one kind that ends `start`; every other kind is scoped
    /// to a single connection or a single attempt.
    pub fn is_fatal_to_server(&self) -> (fatal: bool)
        ensures
            fatal == (self@ is Initialization),
    {
        match self {
            TransportError::Initialization(_) => true,
            _ => false,
        }
    }
}

/// `prefix` followed by `detail`.
pub fn prefixed(prefix: &str, detail: &str) -> (text: String)
    ensures
        text@ == prefix@ + detail@,
{
    let mut text = String::from_str(prefix);
    text.append(detail);
    text
}

} // verus!
