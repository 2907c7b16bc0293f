//! The queue between the handler that the substrate calls for each inbound
//! connection and the single consumer that pulls them.

use futures::channel::mpsc::UnboundedReceiver;
use futures::channel::mpsc::UnboundedSender;
use vstd::prelude::*;

verus! {

/// What a queue holds: the connections not yet pulled, oldest first, and
/// whether the producing side has gone for good.
pub struct QueueView {
    pub pending: Seq<u64>,
    pub closed: bool,
}

impl QueueView {
    /// An open queue with nothing in it.
    pub open spec fn fresh() -> QueueView {
        QueueView { pending: Seq::empty(), closed: false }
    }

    /// Whether an offer is taken: the queue is open, and the count of what
    /// is pending is below what the machine can hold.
    pub open spec fn takes(self) -> bool {
        !self.closed && self.pending.len() < usize::MAX / 2
    }

    /// The queue after the producer offered `connection`: appended at the
    /// back where the offer is taken, refused otherwise.
    pub open spec fn offered(self, connection: u64) -> QueueView {
        if self.takes() {
            QueueView { pending: self.pending.push(connection), closed: false }
        } else {
            self
        }
    }

    /// The connection that the next take hands out, if any.
    pub open spec fn front(self) -> Option<u64> {
        if self.pending.len() > 0 {
            Some(self.pending[0])
        } else {
            None
        }
    }

    /// The queue after one take: the oldest connection is gone, or nothing
    /// has changed where none was pending.
    pub open spec fn taken(self) -> QueueView {
        if self.pending.len() > 0 {
            QueueView {
                pending: self.pending.subrange(1, self.pending.len() as int),
                closed: self.closed,
            }
        } else {
            self
        }
    }

    /// The same pending connections, with the producing side gone.
    pub open spec fn shut(self) -> QueueView {
        QueueView { pending: self.pending, closed: true }
    }

    /// Closed and empty: nothing will ever come out again.
    pub open spec fn drained(self) -> bool {
        self.closed && self.pending.len() == 0
    }
}

/// The sending half of an unbounded channel of the `futures` crate.
#[verifier::external_type_specification]
#[verifier::external_body]
#[verifier::reject_recursive_types(T)]
pub struct ExUnboundedSender<T>(UnboundedSender<T>);

/// The receiving half of an unbounded channel of the `futures` crate.
#[verifier::external_type_specification]
#[verifier::external_body]
#[verifier::reject_recursive_types(T)]
pub struct ExUnboundedReceiver<T>(UnboundedReceiver<T>);

/// The messages that a channel holds for its receiver, oldest first.
pub uninterp spec fn queued(receiver: UnboundedReceiver<u64>) -> Seq<u64>;

/// Whether the channel of this receiver was closed.
pub uninterp spec fn shut(receiver: UnboundedReceiver<u64>) -> bool;

/// Whether the two halves were made together, as one channel.
pub uninterp spec fn feeds(sender: UnboundedSender<u64>, receiver: UnboundedReceiver<u64>) -> bool;

/// `futures::channel::mpsc::unbounded`: the two halves of a new channel,
/// which is open and holds nothing.
#[verifier::external_body]
fn channel() -> (halves: (UnboundedSender<u64>, UnboundedReceiver<u64>))
    ensures
        feeds(halves.0, halves.1),
        queued(halves.1) == Seq::<u64>::empty(),
        !shut(halves.1),
{
    futures::channel::mpsc::unbounded()
}

/// `UnboundedSender::unbounded_send` on the only sender of a channel, with
/// the receiver borrowed so that the contract can speak of what the channel
/// holds. An open channel puts the message behind those it holds; a closed
/// one refuses it. The call panics on a channel that holds `usize::MAX / 2`
/// messages, which `requires` leaves out.
#[verifier::external_body]
fn send(sender: &UnboundedSender<u64>, receiver: &mut UnboundedReceiver<u64>, message: u64) -> (sent:
    bool)
    requires
        feeds(*sender, *old(receiver)),
        queued(*old(receiver)).len() < usize::MAX / 2,
    ensures
        sent == !shut(*old(receiver)),
        sent ==> queued(*final(receiver)) == queued(*old(receiver)).push(message),
        !sent ==> queued(*final(receiver)) == queued(*old(receiver)),
        shut(*final(receiver)) == shut(*old(receiver)),
        feeds(*sender, *final(receiver)),
    no_unwind
{
    sender.unbounded_send(message).is_ok()
}

/// `UnboundedReceiver::try_recv`: the oldest message, which then is gone
/// from the channel, or `None` where the channel holds nothing.
#[verifier::external_body]
fn receive(receiver: &mut UnboundedReceiver<u64>) -> (message: Option<u64>)
    ensures
        match message {
            Some(m) => {
                &&& queued(*old(receiver)).len() > 0
                &&& m == queued(*old(receiver))[0]
                &&& queued(*final(receiver)) == queued(*old(receiver)).subrange(
                    1,
                    queued(*old(receiver)).len() as int,
                )
            },
            None => {
                &&& queued(*old(receiver)).len() == 0
                &&& queued(*final(receiver)) == queued(*old(receiver))
            },
        },
        shut(*final(receiver)) == shut(*old(receiver)),
        forall|sender: UnboundedSender<u64>|
            feeds(sender, *old(receiver)) ==> #[trigger] feeds(sender, *final(receiver)),
    no_unwind
{
    receiver.try_recv().ok()
}

/// `UnboundedReceiver::close`: the channel is closed and keeps what it
/// holds.
#[verifier::external_body]
fn close_channel(receiver: &mut UnboundedReceiver<u64>)
    ensures
        shut(*final(receiver)),
        queued(*final(receiver)) == queued(*old(receiver)),
        forall|sender: UnboundedSender<u64>|
            feeds(sender, *old(receiver)) ==> #[trigger] feeds(sender, *final(receiver)),
    no_unwind
{
    receiver.close()
}

/// `UnboundedSender::is_closed` on the sender of `receiver`'s channel:
/// whether the channel was closed.
#[verifier::external_body]
fn channel_is_closed(sender: &UnboundedSender<u64>, receiver: &UnboundedReceiver<u64>) -> (closed:
    bool)
    requires
        feeds(*sender, *receiver),
    ensures
        closed == shut(*receiver),
{
    sender.is_closed()
}

/// `UnboundedSender::len` on the sender of `receiver`'s channel: the number
/// of messages that the channel holds.
#[verifier::external_body]
fn channel_len(sender: &UnboundedSender<u64>, receiver: &UnboundedReceiver<u64>) -> (n: usize)
    requires
        feeds(*sender, *receiver),
    ensures
        n == queued(*receiver).len(),
{
    sender.len()
}

/// The connection that was looked at and not yet taken, as a sequence.
pub open spec fn held(front: Option<u64>) -> Seq<u64> {
    match front {
        Some(connection) => seq![connection],
        None => Seq::empty(),
    }
}

/// Unbounded first-in first-out queue of connection tokens. Any number of
/// accept events feed it; one owner takes from it. It keeps both halves of
/// one channel, so that nothing reaches the channel but through it, and
/// beside them the connection that was looked at and not yet taken.
#[derive(Debug)]
pub struct PendingConnectionQueue {
    sender: UnboundedSender<u64>,
    receiver: UnboundedReceiver<u64>,
    front: Option<u64>,
}

impl View for PendingConnectionQueue {
    type V = QueueView;

    closed spec fn view(&self) -> QueueView {
        QueueView {
            pending: held(self.front) + queued(self.receiver),
            closed: shut(self.receiver),
        }
    }
}

impl PendingConnectionQueue {
    #[verifier::type_invariant]
    spec fn halves_belong_together(self) -> bool {
        &&& feeds(self.sender, self.receiver)
        &&& queued(self.receiver).len() <= usize::MAX / 2
    }

    /// An open, empty queue.
    pub fn new() -> (queue: PendingConnectionQueue)
        ensures
            queue@ == QueueView::fresh(),
    {
        let (sender, receiver) = channel();
        let queue = PendingConnectionQueue { sender, receiver, front: None };
        assert(queue@.pending =~= Seq::<u64>::empty());
        queue
    }

    /// Offers a connection at the back. Returns whether the queue took it.
    pub fn push(&mut self, connection: u64) -> (accepted: bool)
        ensures
            accepted == old(self)@.takes(),
            final(self)@ == old(self)@.offered(connection),
    {
        proof {
            use_type_invariant(&*self);
        }
        let in_channel = channel_len(&self.sender, &self.receiver);
        let full = match self.front {
            Some(_) => in_channel >= usize::MAX / 2 - 1,
            None => in_channel >= usize::MAX / 2,
        };
        if full {
            false
        } else {
            let sent = send(&self.sender, &mut self.receiver, connection);
            proof {
                if sent {
                    assert(self@.pending =~= old(self)@.pending.push(connection));
                }
            }
            sent
        }
    }

    /// Looks at the oldest pending connection and leaves it pending: the
    /// next look and the next take see the same one.
    pub fn front(&mut self) -> (connection: Option<u64>)
        ensures
            connection == old(self)@.front(),
            final(self)@ == old(self)@,
    {
        proof {
            use_type_invariant(&*self);
        }
        match self.front {
            Some(connection) => Some(connection),
            None => {
                let received = receive(&mut self.receiver);
                self.front = received;
                proof {
                    assert(self@.pending =~= old(self)@.pending);
                }
                received
            },
        }
    }

    /// Takes the oldest pending connection, if there is one. A closed queue
    /// still hands out what was pending when it closed.
    pub fn pop(&mut self) -> (connection: Option<u64>)
        ensures
            connection == old(self)@.front(),
            final(self)@ == old(self)@.taken(),
    {
        proof {
            use_type_invariant(&*self);
        }
        match self.front {
            Some(connection) => {
                self.front = None;
                proof {
                    assert(self@.pending =~= old(self)@.pending.subrange(
                        1,
                        old(self)@.pending.len() as int,
                    ));
                }
                Some(connection)
            },
            None => {
                let received = receive(&mut self.receiver);
                proof {
                    assert(old(self)@.pending =~= queued(old(self).receiver));
                    assert(self@.pending =~= queued(self.receiver));
                }
                received
            },
        }
    }

    /// Marks the producing side as gone. Pending connections stay.
    pub fn close(&mut self)
        ensures
            final(self)@ == old(self)@.shut(),
    {
        proof {
            use_type_invariant(&*self);
        }
        close_channel(&mut self.receiver);
    }

    /// Number of connections waiting to be pulled.
    pub fn len(&self) -> (n: usize)
        ensures
            n == self@.pending.len(),
    {
        proof {
            use_type_invariant(self);
        }
        let in_channel = channel_len(&self.sender, &self.receiver);
        match self.front {
            Some(_) => in_channel + 1,
            None => in_channel,
        }
    }

    /// Whether no connection is waiting.
    pub fn is_empty(&self) -> (empty: bool)
        ensures
            empty == (self@.pending.len() == 0),
    {
        self.len() == 0
    }

    /// Whether the producing side has gone.
    pub fn is_closed(&self) -> (closed: bool)
        ensures
            closed == self@.closed,
    {
        proof {
            use_type_invariant(self);
        }
        channel_is_closed(&self.sender, &self.receiver)
    }

    /// Whether the queue is closed and empty.
    pub fn is_drained(&self) -> (drained: bool)
        ensures
            drained == self@.drained(),
    {
        self.is_closed() && self.len() == 0
    }
}

} // verus!
