//! The accepting side: its lifecycle, the queue that the substrate's
//! handler fills, and the pull that hands connections upward one by one.

use crate::address::AddressDiscoveryWaiter;
use crate::address::AddressView;
use crate::address::ResolvedPeerAddress;
use crate::address::WaiterView;
use crate::client::accept_result;
use crate::client::stream_outcome_view;
use crate::client::transport_view;
use crate::client::IrohClientTransport;
use crate::config::rsocket_alpn_bytes;
use crate::config::IrohConfig;
use crate::error::prefixed;
use crate::error::TransportError;
use crate::error::TransportErrorView;
use crate::queue::PendingConnectionQueue;
use crate::queue::QueueView;
use vstd::prelude::*;

verus! {

/// What the caller of `start` has to do before it can finish.
#[derive(Clone, Copy, Debug, PartialEq, Eq, Structural)]
pub enum StartAction {
    /// Build and bind the endpoint, register the handler, then report back.
    BuildEndpoint,
    /// The server was started before: nothing is to be built.
    Nothing,
}

/// What the caller of `start` hands to the substrate: where to bind, what
/// to take part in, and the identifier under which the one handler is
/// registered.
#[derive(Debug)]
pub struct StartRequest {
    pub bind_addr: Option<String>,
    pub enable_discovery: bool,
    pub enable_relay: bool,
    pub protocol_id: Vec<u8>,
}

/// What one pull decided.
#[derive(Clone, Copy, Debug, PartialEq, Eq, Structural)]
pub enum PullAction {
    /// Nothing is queued and more may come: suspend until the handler or a
    /// close wakes the consumer, then pull again. Nothing was taken.
    Wait,
    /// This connection is the oldest queued: accept its first
    /// bidirectional stream and finish the pull with what comes of it.
    AcceptStream(u64),
    /// No connection will come.
    Terminal,
}

/// A server over plain values.
pub enum ServerView {
    NotStarted,
    Started { node_id: Seq<char>, queue: QueueView },
    Exhausted { node_id: Seq<char> },
}

/// What building the endpoint gave, over sequences: the identity of the
/// endpoint, or the reason for which it could not be built.
pub open spec fn built_view(built: Result<String, String>) -> Result<Seq<char>, Seq<char>> {
    match built {
        Ok(node_id) => Ok(node_id@),
        Err(reason) => Err(reason@),
    }
}

/// The result of a lifecycle step over plain values.
pub open spec fn unit_result_view(result: Result<(), TransportError>) -> Result<
    (),
    TransportErrorView,
> {
    match result {
        Ok(()) => Ok(()),
        Err(e) => Err(e@),
    }
}

/// The text with which the handler refuses a connection.
pub open spec fn refusal_text() -> Seq<char> {
    "Failed to send connection: "@ + "send failed because receiver is gone"@
}

impl ServerView {
    /// What `start` asks of its caller.
    pub open spec fn start_action(self) -> StartAction {
        match self {
            ServerView::NotStarted => StartAction::BuildEndpoint,
            _ => StartAction::Nothing,
        }
    }

    /// The server after `start` finished with `built`: started with an empty
    /// open queue where it was not started and the endpoint stands;
    /// otherwise as before.
    pub open spec fn started_with(self, built: Result<Seq<char>, Seq<char>>) -> ServerView {
        match (self, built) {
            (ServerView::NotStarted, Ok(node_id)) => ServerView::Started {
                node_id,
                queue: QueueView::fresh(),
            },
            _ => self,
        }
    }

    /// What `start` returns when it finishes with `built`: the failure to
    /// build the endpoint where one was to be built, success otherwise.
    pub open spec fn start_result(self, built: Result<Seq<char>, Seq<char>>) -> Result<
        (),
        TransportErrorView,
    > {
        match (self, built) {
            (ServerView::NotStarted, Err(reason)) => Err(
                TransportErrorView::Initialization("Failed to create endpoint: "@ + reason),
            ),
            _ => Ok(()),
        }
    }

    /// Whether the handler's next connection is taken: the server is
    /// started and its queue takes offers.
    pub open spec fn takes_connections(self) -> bool {
        match self {
            ServerView::Started { node_id, queue } => queue.takes(),
            _ => false,
        }
    }

    /// The server after the handler offered `connection`.
    pub open spec fn offered(self, connection: u64) -> ServerView {
        match self {
            ServerView::Started { node_id, queue } => ServerView::Started {
                node_id,
                queue: queue.offered(connection),
            },
            _ => self,
        }
    }

    /// The server after the handler offered each of `connections` in turn.
    pub open spec fn offered_all(self, connections: Seq<u64>) -> ServerView
        decreases connections.len(),
    {
        if connections.len() == 0 {
            self
        } else {
            self.offered_all(connections.drop_last()).offered(connections.last())
        }
    }

    /// The server after the substrate let go of the handler.
    pub open spec fn producers_gone(self) -> ServerView {
        match self {
            ServerView::Started { node_id, queue } => ServerView::Started {
                node_id,
                queue: queue.shut(),
            },
            _ => self,
        }
    }

    /// What the next pull decides.
    pub open spec fn pull_action(self) -> PullAction {
        match self {
            ServerView::Started { node_id, queue } => match queue.front() {
                Some(connection) => PullAction::AcceptStream(connection),
                None => if queue.closed {
                    PullAction::Terminal
                } else {
                    PullAction::Wait
                },
            },
            _ => PullAction::Terminal,
        }
    }

    /// The server after one whole pull: the oldest connection is gone from the
    /// queue; a drained queue leaves the server exhausted; a wait changes
    /// nothing.
    pub open spec fn pulled(self) -> ServerView {
        match self {
            ServerView::Started { node_id, queue } => if queue.drained() {
                ServerView::Exhausted { node_id }
            } else {
                ServerView::Started { node_id, queue: queue.taken() }
            },
            _ => self,
        }
    }

    /// The server after the first step of a pull, which decides: a
    /// connection to accept stays at the head of the queue until the pull
    /// is finished; a drained queue leaves the server exhausted.
    pub open spec fn asked(self) -> ServerView {
        if self.pull_action() is AcceptStream {
            self
        } else {
            self.pulled()
        }
    }

    /// The server after the second step of a pull, which takes the
    /// connection at the head of the queue; with none there, nothing
    /// changes.
    pub open spec fn finished(self) -> ServerView {
        if self.pull_action() is AcceptStream {
            self.pulled()
        } else {
            self
        }
    }

    /// The server after `n` pulls in a row.
    pub open spec fn pulled_times(self, n: nat) -> ServerView
        decreases n,
    {
        if n == 0 {
            self
        } else {
            self.pulled_times((n - 1) as nat).pulled()
        }
    }

    /// The identity of the endpoint, once there is one.
    pub open spec fn node_id(self) -> Option<Seq<char>> {
        match self {
            ServerView::NotStarted => None,
            ServerView::Started { node_id, queue } => Some(node_id),
            ServerView::Exhausted { node_id } => Some(node_id),
        }
    }

    /// The connections waiting to be pulled, oldest first.
    pub open spec fn pending(self) -> Seq<u64> {
        match self {
            ServerView::Started { node_id, queue } => queue.pending,
            _ => Seq::empty(),
        }
    }

    /// The address that a resolution gives for this server's endpoint.
    pub open spec fn address(self, waiter: WaiterView) -> Option<AddressView> {
        match self.node_id() {
            Some(node_id) => Some(waiter.resolved(node_id)),
            None => None,
        }
    }
}

/// An optional string over sequences.
pub open spec fn text_view(text: Option<String>) -> Option<Seq<char>> {
    match text {
        Some(s) => Some(s@),
        None => None,
    }
}

/// An optional address over sequences.
pub open spec fn address_view(address: Option<ResolvedPeerAddress>) -> Option<AddressView> {
    match address {
        Some(a) => Some(a@),
        None => None,
    }
}

/// An optional description over sequences.
pub open spec fn described_view(address: Option<AddressView>) -> Option<Seq<char>> {
    match address {
        Some(a) => Some(a.described()),
        None => None,
    }
}

#[derive(Debug)]
enum ServerState {
    NotStarted,
    Started { node_id: String, queue: PendingConnectionQueue },
    Exhausted { node_id: String },
}

/// The accepting side of the transport. It is started once, takes the
/// connections that the substrate's handler offers, and hands them out in
/// the order in which they came.
#[derive(Debug)]
pub struct IrohServerTransport {
    config: IrohConfig,
    state: ServerState,
}

impl View for IrohServerTransport {
    type V = ServerView;

    closed spec fn view(&self) -> ServerView {
        match self.state {
            ServerState::NotStarted => ServerView::NotStarted,
            ServerState::Started { node_id, queue } => ServerView::Started {
                node_id: node_id@,
                queue: queue@,
            },
            ServerState::Exhausted { node_id } => ServerView::Exhausted { node_id: node_id@ },
        }
    }
}

impl IrohServerTransport {
    /// The settings that the server was made with.
    pub closed spec fn settings(&self) -> IrohConfig {
        self.config
    }

    /// The server that `config` gives before it is started.
    pub closed spec fn unstarted(config: IrohConfig) -> IrohServerTransport {
        IrohServerTransport { config, state: ServerState::NotStarted }
    }

    /// A server that has not been started.
    pub fn new(config: IrohConfig) -> (server: IrohServerTransport)
        ensures
            server == IrohServerTransport::unstarted(config),
            server@ == ServerView::NotStarted,
            server.settings() == config,
    {
        IrohServerTransport { config, state: ServerState::NotStarted }
    }

    /// The settings that the server was made with.
    pub fn config(&self) -> (config: &IrohConfig)
        ensures
            *config == self.settings(),
    {
        &self.config
    }

    /// The identity of the endpoint as text: there once the server was
    /// started, and not before.
    pub fn node_id(&self) -> (id: Option<String>)
        ensures
            text_view(id) == self@.node_id(),
    {
        match &self.state {
            ServerState::NotStarted => None,
            ServerState::Started { node_id, queue } => Some(node_id.clone()),
            ServerState::Exhausted { node_id } => Some(node_id.clone()),
        }
    }

    /// The endpoint's address as the resolution `waiter` gathered it: there
    /// once the server was started, whatever the waits gave, and not before.
    pub fn node_addr(&self, waiter: AddressDiscoveryWaiter) -> (address: Option<
        ResolvedPeerAddress,
    >)
        ensures
            address_view(address) == self@.address(waiter@),
    {
        match self.node_id() {
            Some(node_id) => Some(waiter.into_address(node_id)),
            None => None,
        }
    }

    /// The one-line description of the endpoint's address as the resolution
    /// `waiter` gathered it; `None` before the server was started.
    pub fn node_addr_string(&self, waiter: AddressDiscoveryWaiter) -> (text: Option<String>)
        ensures
            text_view(text) == described_view(self@.address(waiter@)),
    {
        match self.node_addr(waiter) {
            Some(address) => Some(address.describe()),
            None => None,
        }
    }

    /// Whether an endpoint stands.
    pub fn is_started(&self) -> (started: bool)
        ensures
            started == !(self@ is NotStarted),
    {
        match &self.state {
            ServerState::NotStarted => false,
            _ => true,
        }
    }

    /// Whether the queue has closed for good and was emptied.
    pub fn is_exhausted(&self) -> (exhausted: bool)
        ensures
            exhausted == (self@ is Exhausted),
    {
        match &self.state {
            ServerState::Exhausted { node_id } => true,
            _ => false,
        }
    }

    /// Number of connections waiting to be pulled.
    pub fn pending_len(&self) -> (n: usize)
        ensures
            n == self@.pending().len(),
    {
        match &self.state {
            ServerState::Started { node_id, queue } => queue.len(),
            _ => 0,
        }
    }

    /// First half of `start`: says whether an endpoint is to be built.
    pub fn start_action(&self) -> (action: StartAction)
        ensures
            action == self@.start_action(),
    {
        match &self.state {
            ServerState::NotStarted => StartAction::BuildEndpoint,
            _ => StartAction::Nothing,
        }
    }

    /// Second half of `start`: takes what building the endpoint gave, its
    /// identity or the reason of the failure. On a server that was started
    /// before this changes nothing and succeeds.
    pub fn finish_start(&mut self, built: Result<String, String>) -> (result: Result<
        (),
        TransportError,
    >)
        ensures
            unit_result_view(result) == old(self)@.start_result(built_view(built)),
            final(self)@ == old(self)@.started_with(built_view(built)),
            final(self).settings() == old(self).settings(),
    {
        match &self.state {
            ServerState::NotStarted => {},
            _ => {
                return Ok(());
            },
        }
        match built {
            Ok(node_id) => {
                self.state = ServerState::Started { node_id, queue: PendingConnectionQueue::new() };
                Ok(())
            },
            Err(reason) => Err(
                TransportError::Initialization(
                    prefixed("Failed to create endpoint: ", reason.as_str()),
                ),
            ),
        }
    }

    /// The handler's part: offers an inbound connection to the queue. It is
    /// taken exactly while the server is started and its queue takes offers.
    pub fn accept(&mut self, connection: u64) -> (result: Result<(), TransportError>)
        ensures
            (result is Ok) == old(self)@.takes_connections(),
            result is Err ==> result->Err_0@ == TransportErrorView::QueueUnavailable(
                refusal_text(),
            ),
            final(self)@ == old(self)@.offered(connection),
            final(self).settings() == old(self).settings(),
    {
        let taken = match &mut self.state {
            ServerState::Started { node_id, queue } => queue.push(connection),
            _ => false,
        };
        if taken {
            Ok(())
        } else {
            Err(
                TransportError::QueueUnavailable(
                    prefixed("Failed to send connection: ", "send failed because receiver is gone"),
                ),
            )
        }
    }

    /// Notes that the substrate let go of the handler: no connection will be
    /// offered again. What is queued stays to be pulled.
    pub fn close_queue(&mut self)
        ensures
            final(self)@ == old(self)@.producers_gone(),
            final(self).settings() == old(self).settings(),
    {
        match &mut self.state {
            ServerState::Started { node_id, queue } => {
                queue.close();
            },
            _ => {},
        }
    }

    /// First step of a pull: decides. With a connection queued it names the
    /// oldest one and leaves it queued, so that a pull given up here loses
    /// nothing; it asks the caller to wait, taking nothing, where none is
    /// queued and more may come; and it is terminal before the start, on a
    /// drained queue and ever after.
    pub fn next(&mut self) -> (action: PullAction)
        ensures
            action == old(self)@.pull_action(),
            final(self)@ == old(self)@.asked(),
            final(self).settings() == old(self).settings(),
    {
        let (action, drained) = match &mut self.state {
            ServerState::Started { node_id, queue } => {
                let drained = queue.is_drained();
                match queue.front() {
                    Some(connection) => (PullAction::AcceptStream(connection), false),
                    None => if drained {
                        (PullAction::Terminal, true)
                    } else {
                        (PullAction::Wait, false)
                    },
                }
            },
            _ => (PullAction::Terminal, false),
        };
        if drained {
            match self.node_id() {
                Some(node_id) => {
                    self.state = ServerState::Exhausted { node_id };
                },
                None => {},
            }
        }
        action
    }

    /// Second step of a pull: takes the connection that `next` named, now
    /// that the accept of its first stream has ended with `outcome`, and
    /// hands on the transport or the failure, which concerns this
    /// connection alone. The connection leaves the queue once, whatever
    /// the outcome. With no connection queued nothing is taken and nothing
    /// handed on.
    pub fn finish_pull(&mut self, outcome: Result<(u64, u64), String>) -> (result: Option<
        Result<IrohClientTransport, TransportError>,
    >)
        ensures
            final(self)@ == old(self)@.finished(),
            (result is Some) == (old(self)@.pull_action() is AcceptStream),
            result is Some ==> transport_view(result->Some_0) == accept_result(
                stream_outcome_view(outcome),
            ),
            final(self).settings() == old(self).settings(),
    {
        let taken = match &mut self.state {
            ServerState::Started { node_id, queue } => queue.pop(),
            _ => None,
        };
        match taken {
            Some(_) => Some(IrohClientTransport::accepted(outcome)),
            None => None,
        }
    }

    /// What a start asks of the substrate: to bind as the settings say and
    /// to register the handler under the settings' protocol identifier.
    pub fn start_request(&self) -> (request: StartRequest)
        ensures
            request.bind_addr == self.settings().bind_addr,
            request.enable_discovery == self.settings().enable_discovery,
            request.enable_relay == self.settings().enable_relay,
            request.protocol_id@ == self.settings().protocol_id@,
    {
        let bind_addr = match &self.config.bind_addr {
            Some(addr) => Some(addr.clone()),
            None => None,
        };
        StartRequest {
            bind_addr,
            enable_discovery: self.config.enable_discovery,
            enable_relay: self.config.enable_relay,
            protocol_id: self.config.protocol_id.clone(),
        }
    }
}

impl Default for IrohServerTransport {
    /// A server with the default settings, not started.
    fn default() -> (server: IrohServerTransport)
        ensures
            server@ == ServerView::NotStarted,
            server.settings().bind_addr is None,
            server.settings().enable_discovery,
            server.settings().enable_relay,
            server.settings().protocol_id@ == rsocket_alpn_bytes(),
    {
        IrohServerTransport::new(IrohConfig::default())
    }
}

impl From<IrohConfig> for IrohServerTransport {
    /// A server with the given settings, not started.
    fn from(config: IrohConfig) -> (server: IrohServerTransport)
        ensures
            server@ == ServerView::NotStarted,
            server.settings() == config,
    {
        IrohServerTransport::new(config)
    }
}

impl vstd::std_specs::convert::FromSpecImpl<IrohConfig> for IrohServerTransport {
    open spec fn obeys_from_spec() -> bool {
        true
    }

    open spec fn from_spec(config: IrohConfig) -> IrohServerTransport {
        IrohServerTransport::unstarted(config)
    }
}

/// Offering connections to a started server with an open queue appends them
/// to what is pending, in the order in which they were offered, as long as
/// the machine can hold their count.
pub proof fn lemma_offers_append(server: ServerView, connections: Seq<u64>)
    requires
        server is Started,
        !server->Started_queue.closed,
        server.pending().len() + connections.len() <= usize::MAX / 2,
    ensures
        server.offered_all(connections) is Started,
        !server.offered_all(connections)->Started_queue.closed,
        server.offered_all(connections).node_id() == server.node_id(),
        server.offered_all(connections).pending() == server.pending() + connections,
    decreases connections.len(),
{
    if connections.len() == 0 {
        assert(server.pending() + connections =~= server.pending());
    } else {
        lemma_offers_append(server, connections.drop_last());
        assert(server.pending() + connections =~= (server.pending()
            + connections.drop_last()).push(connections.last()));
    }
}

/// Pulling `n` times from a started server with at least `n` connections
/// pending takes the `n` oldest and leaves the rest as they were.
pub proof fn lemma_pulls_take_oldest(server: ServerView, n: nat)
    requires
        server is Started,
        n <= server.pending().len(),
    ensures
        server.pulled_times(n) == (ServerView::Started {
            node_id: server->Started_node_id,
            queue: QueueView {
                pending: server.pending().subrange(n as int, server.pending().len() as int),
                closed: server->Started_queue.closed,
            },
        }),
    decreases n,
{
    let all = server.pending();
    if n == 0 {
        assert(all.subrange(0, all.len() as int) =~= all);
    } else {
        lemma_pulls_take_oldest(server, (n - 1) as nat);
        let rest = all.subrange(n - 1, all.len() as int);
        assert(rest.subrange(1, rest.len() as int) =~= all.subrange(n as int, all.len() as int));
    }
}

/// First in, first out: after the handler offered `connections` to a started
/// server with an open queue, the pulls hand out what was pending and then
/// `connections`, each once and in the order of the offers, and the pull
/// after the last one waits. Each transport handed on wraps the stream pair
/// that its own accept gave. The count of what is pending stays one that
/// the queue takes.
pub proof fn lemma_pulls_follow_offer_order(server: ServerView, connections: Seq<u64>, i: int)
    requires
        server is Started,
        !server->Started_queue.closed,
        server.pending().len() + connections.len() <= usize::MAX / 2,
        0 <= i <= server.pending().len() + connections.len(),
    ensures
        i < server.pending().len() + connections.len() ==> server.offered_all(
            connections,
        ).pulled_times(i as nat).pull_action() == PullAction::AcceptStream(
            (server.pending() + connections)[i],
        ),
        i == server.pending().len() + connections.len() ==> server.offered_all(
            connections,
        ).pulled_times(i as nat).pull_action() == PullAction::Wait,
        forall|send_stream: u64, recv_stream: u64| #[trigger]
            accept_result(Ok((send_stream, recv_stream))) == Ok::<
                crate::connection::DuplexView,
                TransportErrorView,
            >(crate::connection::DuplexView::wrap(send_stream, recv_stream)),
{
    lemma_offers_append(server, connections);
    let filled = server.offered_all(connections);
    lemma_pulls_take_oldest(filled, i as nat);
}

/// One offer to a started server whose queue takes it is put behind what is
/// pending; nothing pending is lost, doubled or moved.
pub proof fn lemma_offer_goes_to_the_back(server: ServerView, connection: u64)
    requires
        server.takes_connections(),
    ensures
        server.offered(connection).pending() == server.pending().push(connection),
        server.offered(connection).node_id() == server.node_id(),
        server.offered(connection) is Started,
{
}

/// Starting twice is starting once: after a `start` that succeeded, another
/// asks for no endpoint, succeeds whatever it is handed, and leaves the
/// server, its endpoint and its queue as they are.
pub proof fn lemma_start_is_idempotent(
    server: ServerView,
    first: Result<Seq<char>, Seq<char>>,
    second: Result<Seq<char>, Seq<char>>,
)
    requires
        server.start_result(first) is Ok,
    ensures
        server.started_with(first).start_action() == StartAction::Nothing,
        server.started_with(first).start_result(second) == Ok::<(), TransportErrorView>(()),
        server.started_with(first).started_with(second) == server.started_with(first),
{
}

/// Acceptance begins with the start: a server that was just started has an
/// empty queue that takes the handler's connections before any pull, and
/// its first pull waits.
pub proof fn lemma_acceptance_begins_at_start(node_id: Seq<char>)
    ensures
        ServerView::NotStarted.started_with(Ok(node_id)).takes_connections(),
        ServerView::NotStarted.started_with(Ok(node_id)).pending().len() == 0,
        ServerView::NotStarted.started_with(Ok(node_id)).node_id() == Some(node_id),
        ServerView::NotStarted.started_with(Ok(node_id)).pull_action() == PullAction::Wait,
{
}

/// A queue that closed with nothing pending ends the server: the next pull
/// is terminal, and so is every pull after it.
pub proof fn lemma_terminal_is_final(server: ServerView, n: nat)
    requires
        server is Started,
        server->Started_queue.drained(),
    ensures
        server.pull_action() == PullAction::Terminal,
        server.pulled_times(n).pull_action() == PullAction::Terminal,
        n > 0 ==> server.pulled_times(n) == (ServerView::Exhausted {
            node_id: server->Started_node_id,
        }),
    decreases n,
{
    if n > 0 {
        lemma_terminal_is_final(server, (n - 1) as nat);
    }
}

/// Nothing brings an exhausted server back: no offer, no close, no start
/// and no pull changes it, it takes no connection, and its pulls are
/// terminal.
pub proof fn lemma_exhausted_stays(
    server: ServerView,
    connection: u64,
    built: Result<Seq<char>, Seq<char>>,
)
    requires
        server is Exhausted,
    ensures
        server.offered(connection) == server,
        !server.takes_connections(),
        server.producers_gone() == server,
        server.started_with(built) == server,
        server.pulled() == server,
        server.pull_action() == PullAction::Terminal,
{
}

/// A pull that is given up takes nothing: after its first step, whether it
/// asked to wait or named a connection to accept, the queue holds what it
/// held, and the next pull decides as this one did.
pub proof fn lemma_abandoned_pull_takes_nothing(server: ServerView)
    requires
        server.pull_action() != PullAction::Terminal,
    ensures
        server.asked() == server,
        server.asked().pull_action() == server.pull_action(),
{
    if server.pull_action() == PullAction::Wait {
        assert(server->Started_queue.taken() == server->Started_queue);
    }
}

/// The two steps of a pull, one after the other, are one whole pull, and
/// the second step takes exactly the connection that the first one named.
pub proof fn lemma_two_steps_are_one_pull(server: ServerView)
    ensures
        server.asked().finished() == server.pulled(),
        server.pull_action() is AcceptStream ==> server.pending().len() > 0
            && server.pull_action() == PullAction::AcceptStream(server.pending()[0])
            && server.finished().pending() == server.pending().subrange(
            1,
            server.pending().len() as int,
        ),
{
}

/// A failure to accept one connection's first stream concerns that
/// connection alone: finishing the pull with the failure gives one failure
/// of that kind and takes the connection once, the server is left started
/// as after any pull, and the next pull goes on to the connection queued
/// behind it.
pub proof fn lemma_accept_failure_is_isolated(server: ServerView, reason: Seq<char>)
    requires
        server is Started,
        server.pending().len() >= 2,
    ensures
        server.pull_action() == PullAction::AcceptStream(server.pending()[0]),
        accept_result(Err(reason)) == Err::<crate::connection::DuplexView, TransportErrorView>(
            TransportErrorView::ConnectionAccept("Failed to open bidirectional stream: "@ + reason),
        ),
        server.asked().finished() is Started,
        server.asked().finished().pending() == server.pending().subrange(
            1,
            server.pending().len() as int,
        ),
        server.asked().finished().pull_action() == PullAction::AcceptStream(server.pending()[1]),
{
}

/// A started server always has an address: whatever the waits of a
/// resolution gave, the result is there, and with no direct address and no
/// relay it is the identity alone.
pub proof fn lemma_started_server_resolves(server: ServerView, waiter: WaiterView)
    requires
        !(server is NotStarted),
    ensures
        server.address(waiter) is Some,
        server.address(waiter)->Some_0.node_id == server.node_id()->Some_0,
        waiter.direct_addresses.len() == 0 && waiter.relay_url is None ==> server.address(waiter)
            == Some(AddressView::identity_only(server.node_id()->Some_0)),
{
    if waiter.direct_addresses.len() == 0 {
        assert(waiter.direct_addresses =~= Seq::<Seq<char>>::empty());
    }
}

} // verus!
