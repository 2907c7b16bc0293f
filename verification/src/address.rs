//! Where a started endpoint can be reached: the three waits that gather its
//! addresses, and the snapshot they give.

use vstd::prelude::*;

verus! {

/// A peer's reachable address over sequences of characters.
pub struct AddressView {
    pub node_id: Seq<char>,
    pub relay_url: Option<Seq<char>>,
    pub direct_addresses: Seq<Seq<char>>,
}

/// The character sequences of a list of strings.
pub open spec fn texts(strings: Seq<String>) -> Seq<Seq<char>> {
    strings.map_values(|s: String| s@)
}

/// The character sequence of an optional string.
pub open spec fn optional_text(string: Option<String>) -> Option<Seq<char>> {
    match string {
        Some(s) => Some(s@),
        None => None,
    }
}

/// `parts` written one after the other with `separator` between neighbours.
pub open spec fn joined(parts: Seq<Seq<char>>, separator: Seq<char>) -> Seq<char>
    decreases parts.len(),
{
    if parts.len() == 0 {
        Seq::empty()
    } else if parts.len() == 1 {
        parts[0]
    } else {
        joined(parts.drop_last(), separator) + separator + parts.last()
    }
}

impl AddressView {
    /// Nothing but the peer's identity.
    pub open spec fn identity_only(node_id: Seq<char>) -> AddressView {
        AddressView { node_id, relay_url: None, direct_addresses: Seq::empty() }
    }

    /// One line for people: the identity, then the relay if there is one,
    /// then the direct addresses if there are any, parted by ` | `.
    pub open spec fn described(self) -> Seq<char> {
        let identity = "NodeId: "@ + self.node_id;
        let with_relay = match self.relay_url {
            Some(relay) => identity + " | Relay: "@ + relay,
            None => identity,
        };
        if self.direct_addresses.len() > 0 {
            with_relay + " | Direct: ["@ + joined(self.direct_addresses, ", "@) + "]"@
        } else {
            with_relay
        }
    }
}

/// Writes `parts` one after the other with `separator` between neighbours.
pub fn join(parts: &Vec<String>, separator: &str) -> (text: String)
    ensures
        text@ == joined(texts(parts@), separator@),
{
    let mut text = String::new();
    let mut i: usize = 0;
    while i < parts.len()
        invariant
            i <= parts.len(),
            text@ == joined(texts(parts@).take(i as int), separator@),
        decreases parts.len() - i,
    {
        let ghost before = texts(parts@).take(i as int);
        let ghost now = texts(parts@).take(i + 1);
        assert(now.drop_last() =~= before);
        assert(now.last() == parts@[i as int]@);
        if i > 0 {
            text.append(separator);
        } else {
            assert(text@ + parts@[i as int]@ =~= parts@[i as int]@);
        }
        text.append(parts[i].as_str());
        i += 1;
    }
    assert(texts(parts@).take(parts.len() as int) =~= texts(parts@));
    text
}

/// A peer's identity with the addresses known for it at one moment: any
/// number of direct addresses, and a relay through which it may be met.
#[derive(Debug)]
pub struct ResolvedPeerAddress {
    pub node_id: String,
    pub relay_url: Option<String>,
    pub direct_addresses: Vec<String>,
}

impl View for ResolvedPeerAddress {
    type V = AddressView;

    open spec fn view(&self) -> AddressView {
        AddressView {
            node_id: self.node_id@,
            relay_url: optional_text(self.relay_url),
            direct_addresses: texts(self.direct_addresses@),
        }
    }
}

impl ResolvedPeerAddress {
    /// The one-line description of this address.
    pub fn describe(&self) -> (text: String)
        ensures
            text@ == self@.described(),
    {
        let mut text = String::from_str("NodeId: ");
        text.append(self.node_id.as_str());
        match &self.relay_url {
            Some(relay) => {
                text.append(" | Relay: ");
                text.append(relay.as_str());
            },
            None => {},
        }
        if self.direct_addresses.len() > 0 {
            let list = join(&self.direct_addresses, ", ");
            text.append(" | Direct: [");
            text.append(list.as_str());
            text.append("]");
        }
        text
    }

    /// Whether nothing but the identity is known.
    pub fn is_identity_only(&self) -> (bare: bool)
        ensures
            bare == (self@ == AddressView::identity_only(self.node_id@)),
    {
        let bare = self.relay_url.is_none() && self.direct_addresses.len() == 0;
        proof {
            assert(self@.direct_addresses.len() == self.direct_addresses@.len());
            if bare {
                assert(self@.direct_addresses =~= Seq::<Seq<char>>::empty());
            }
        }
        bare
    }
}

/// The waits of one address resolution, in the order in which they run.
#[derive(Clone, Copy, Debug, PartialEq, Eq, Structural)]
pub enum DiscoveryPhase {
    /// Until the endpoint knows its direct addresses.
    DirectAddresses,
    /// Until the endpoint has a home relay.
    HomeRelay,
    /// Until the endpoint publishes its full address.
    Snapshot,
    /// Nothing is left to wait for.
    Done,
}

/// How long each wait may take, in milliseconds.
#[derive(Clone, Copy, Debug, PartialEq, Eq, Structural)]
pub struct PhaseTimeouts {
    pub direct_ms: u64,
    pub relay_ms: u64,
    pub snapshot_ms: u64,
}

impl Default for PhaseTimeouts {
    /// Ten seconds for each wait.
    fn default() -> (timeouts: PhaseTimeouts)
        ensures
            timeouts == (PhaseTimeouts { direct_ms: 10_000, relay_ms: 10_000, snapshot_ms: 10_000 }),
    {
        PhaseTimeouts { direct_ms: 10_000, relay_ms: 10_000, snapshot_ms: 10_000 }
    }
}

impl PhaseTimeouts {
    /// The bound of `phase`; none once nothing is left to wait for.
    pub open spec fn bound(self, phase: DiscoveryPhase) -> Option<u64> {
        match phase {
            DiscoveryPhase::DirectAddresses => Some(self.direct_ms),
            DiscoveryPhase::HomeRelay => Some(self.relay_ms),
            DiscoveryPhase::Snapshot => Some(self.snapshot_ms),
            DiscoveryPhase::Done => None,
        }
    }
}

/// A resolution in progress over plain values: the wait that is due, what
/// the finished waits gave, and which of them failed.
pub struct WaiterView {
    pub phase: DiscoveryPhase,
    pub timeouts: PhaseTimeouts,
    pub direct_addresses: Seq<Seq<char>>,
    pub relay_url: Option<Seq<char>>,
    pub warnings: Seq<DiscoveryPhase>,
}

impl WaiterView {
    /// Before the first wait: nothing known, nothing failed.
    pub open spec fn fresh(timeouts: PhaseTimeouts) -> WaiterView {
        WaiterView {
            phase: DiscoveryPhase::DirectAddresses,
            timeouts,
            direct_addresses: Seq::empty(),
            relay_url: None,
            warnings: Seq::empty(),
        }
    }

    /// After the wait for direct addresses ended with `outcome` (`None`: it
    /// timed out or failed). Out of turn the outcome is ignored.
    pub open spec fn after_direct(self, outcome: Option<Seq<Seq<char>>>) -> WaiterView {
        if self.phase != DiscoveryPhase::DirectAddresses {
            self
        } else {
            match outcome {
                Some(found) => WaiterView {
                    phase: DiscoveryPhase::HomeRelay,
                    direct_addresses: found,
                    ..self
                },
                None => WaiterView {
                    phase: DiscoveryPhase::HomeRelay,
                    warnings: self.warnings.push(DiscoveryPhase::DirectAddresses),
                    ..self
                },
            }
        }
    }

    /// After the wait for the home relay ended with `outcome` (`None`: it
    /// timed out or failed). Out of turn the outcome is ignored.
    pub open spec fn after_relay(self, outcome: Option<Option<Seq<char>>>) -> WaiterView {
        if self.phase != DiscoveryPhase::HomeRelay {
            self
        } else {
            match outcome {
                Some(relay) => WaiterView {
                    phase: DiscoveryPhase::Snapshot,
                    relay_url: relay,
                    ..self
                },
                None => WaiterView {
                    phase: DiscoveryPhase::Snapshot,
                    warnings: self.warnings.push(DiscoveryPhase::HomeRelay),
                    ..self
                },
            }
        }
    }

    /// After the wait for the published address ended with `outcome`
    /// (`None`: it timed out or failed, and what the earlier waits gave
    /// stands). Out of turn the outcome is ignored.
    pub open spec fn after_snapshot(
        self,
        outcome: Option<(Seq<Seq<char>>, Option<Seq<char>>)>,
    ) -> WaiterView {
        if self.phase != DiscoveryPhase::Snapshot {
            self
        } else {
            match outcome {
                Some(published) => WaiterView {
                    phase: DiscoveryPhase::Done,
                    direct_addresses: published.0,
                    relay_url: published.1,
                    ..self
                },
                None => WaiterView {
                    phase: DiscoveryPhase::Done,
                    warnings: self.warnings.push(DiscoveryPhase::Snapshot),
                    ..self
                },
            }
        }
    }

    /// The address of the peer `node_id` as far as it is known: what failed
    /// or was not waited for is left out.
    pub open spec fn resolved(self, node_id: Seq<char>) -> AddressView {
        AddressView {
            node_id,
            relay_url: self.relay_url,
            direct_addresses: self.direct_addresses,
        }
    }
}

/// The outcome of the wait for direct addresses, over sequences.
pub open spec fn direct_outcome_view(outcome: Option<Vec<String>>) -> Option<Seq<Seq<char>>> {
    match outcome {
        Some(found) => Some(texts(found@)),
        None => None,
    }
}

/// The outcome of the wait for the home relay, over sequences.
pub open spec fn relay_outcome_view(outcome: Option<Option<String>>) -> Option<Option<Seq<char>>> {
    match outcome {
        Some(relay) => Some(optional_text(relay)),
        None => None,
    }
}

/// The outcome of the wait for the published address, over sequences.
pub open spec fn snapshot_outcome_view(outcome: Option<(Vec<String>, Option<String>)>) -> Option<
    (Seq<Seq<char>>, Option<Seq<char>>),
> {
    match outcome {
        Some(published) => Some((texts(published.0@), optional_text(published.1))),
        None => None,
    }
}

/// Gathers an endpoint's addresses in three waits that follow one another:
/// direct addresses, home relay, published address. A wait that fails is
/// noted and the resolution goes on without its part.
#[derive(Debug)]
pub struct AddressDiscoveryWaiter {
    phase: DiscoveryPhase,
    timeouts: PhaseTimeouts,
    direct_addresses: Vec<String>,
    relay_url: Option<String>,
    warnings: Vec<DiscoveryPhase>,
}

impl View for AddressDiscoveryWaiter {
    type V = WaiterView;

    closed spec fn view(&self) -> WaiterView {
        WaiterView {
            phase: self.phase,
            timeouts: self.timeouts,
            direct_addresses: texts(self.direct_addresses@),
            relay_url: optional_text(self.relay_url),
            warnings: self.warnings@,
        }
    }
}

impl AddressDiscoveryWaiter {
    /// A resolution that has not waited for anything yet.
    pub fn new(timeouts: PhaseTimeouts) -> (waiter: AddressDiscoveryWaiter)
        ensures
            waiter@ == WaiterView::fresh(timeouts),
    {
        let waiter = AddressDiscoveryWaiter {
            phase: DiscoveryPhase::DirectAddresses,
            timeouts,
            direct_addresses: Vec::new(),
            relay_url: None,
            warnings: Vec::new(),
        };
        assert(waiter@.direct_addresses =~= Seq::<Seq<char>>::empty());
        waiter
    }

    /// The wait that is due.
    pub fn phase(&self) -> (phase: DiscoveryPhase)
        ensures
            phase == self@.phase,
    {
        self.phase
    }

    /// The bound in milliseconds of the wait that is due; `None` once
    /// nothing is left to wait for.
    pub fn timeout_ms(&self) -> (bound: Option<u64>)
        ensures
            bound == self@.timeouts.bound(self@.phase),
    {
        match self.phase {
            DiscoveryPhase::DirectAddresses => Some(self.timeouts.direct_ms),
            DiscoveryPhase::HomeRelay => Some(self.timeouts.relay_ms),
            DiscoveryPhase::Snapshot => Some(self.timeouts.snapshot_ms),
            DiscoveryPhase::Done => None,
        }
    }

    /// Whether every wait has ended.
    pub fn is_done(&self) -> (done: bool)
        ensures
            done == (self@.phase == DiscoveryPhase::Done),
    {
        match self.phase {
            DiscoveryPhase::Done => true,
            _ => false,
        }
    }

    /// The waits that failed so far, in the order in which they ran.
    pub fn warnings(&self) -> (failed: Vec<DiscoveryPhase>)
        ensures
            failed@ == self@.warnings,
    {
        self.warnings.clone()
    }

    /// Takes the outcome of the wait for direct addresses; `None` says that
    /// it timed out or failed. Returns whether that wait was due.
    pub fn on_direct_addresses(&mut self, outcome: Option<Vec<String>>) -> (due: bool)
        ensures
            due == (old(self)@.phase == DiscoveryPhase::DirectAddresses),
            final(self)@ == old(self)@.after_direct(direct_outcome_view(outcome)),
    {
        match self.phase {
            DiscoveryPhase::DirectAddresses => {
                match outcome {
                    Some(found) => {
                        self.direct_addresses = found;
                    },
                    None => {
                        self.warnings.push(DiscoveryPhase::DirectAddresses);
                    },
                }
                self.phase = DiscoveryPhase::HomeRelay;
                true
            },
            _ => false,
        }
    }

    /// Takes the outcome of the wait for the home relay; `None` says that it
    /// timed out or failed, `Some(None)` that the endpoint has no relay.
    /// Returns whether that wait was due.
    pub fn on_home_relay(&mut self, outcome: Option<Option<String>>) -> (due: bool)
        ensures
            due == (old(self)@.phase == DiscoveryPhase::HomeRelay),
            final(self)@ == old(self)@.after_relay(relay_outcome_view(outcome)),
    {
        match self.phase {
            DiscoveryPhase::HomeRelay => {
                match outcome {
                    Some(relay) => {
                        self.relay_url = relay;
                    },
                    None => {
                        self.warnings.push(DiscoveryPhase::HomeRelay);
                    },
                }
                self.phase = DiscoveryPhase::Snapshot;
                true
            },
            _ => false,
        }
    }

    /// Takes the outcome of the wait for the published address, which
    /// replaces what the earlier waits gave; `None` says that it timed out
    /// or failed. Returns whether that wait was due.
    pub fn on_snapshot(&mut self, outcome: Option<(Vec<String>, Option<String>)>) -> (due: bool)
        ensures
            due == (old(self)@.phase == DiscoveryPhase::Snapshot),
            final(self)@ == old(self)@.after_snapshot(snapshot_outcome_view(outcome)),
    {
        match self.phase {
            DiscoveryPhase::Snapshot => {
                match outcome {
                    Some(published) => {
                        self.direct_addresses = published.0;
                        self.relay_url = published.1;
                    },
                    None => {
                        self.warnings.push(DiscoveryPhase::Snapshot);
                    },
                }
                self.phase = DiscoveryPhase::Done;
                true
            },
            _ => false,
        }
    }

    /// The address of the peer `node_id` as far as this resolution got.
    /// It never fails: a part that is missing is left out.
    pub fn into_address(self, node_id: String) -> (address: ResolvedPeerAddress)
        ensures
            address@ == self@.resolved(node_id@),
    {
        ResolvedPeerAddress {
            node_id,
            relay_url: self.relay_url,
            direct_addresses: self.direct_addresses,
        }
    }
}

/// However the three waits end, the resolution ends: after one outcome for
/// each it is done, with one warning for each wait that failed and none for
/// the others.
pub proof fn lemma_three_waits_finish(
    timeouts: PhaseTimeouts,
    direct: Option<Seq<Seq<char>>>,
    relay: Option<Option<Seq<char>>>,
    snapshot: Option<(Seq<Seq<char>>, Option<Seq<char>>)>,
)
    ensures
        ({
            let end = WaiterView::fresh(timeouts).after_direct(direct).after_relay(
                relay,
            ).after_snapshot(snapshot);
            &&& end.phase == DiscoveryPhase::Done
            &&& end.warnings.len() == (if direct is None { 1int } else { 0 }) + (if relay is None {
                1int
            } else {
                0
            }) + (if snapshot is None { 1int } else { 0 })
            &&& end.warnings.contains(DiscoveryPhase::DirectAddresses) <==> direct is None
            &&& end.warnings.contains(DiscoveryPhase::HomeRelay) <==> relay is None
            &&& end.warnings.contains(DiscoveryPhase::Snapshot) <==> snapshot is None
        }),
{
    let a = WaiterView::fresh(timeouts).after_direct(direct);
    let b = a.after_relay(relay);
    let end = b.after_snapshot(snapshot);
    assert forall|p: DiscoveryPhase| #[trigger] end.warnings.contains(p) <==> ((p
        == DiscoveryPhase::DirectAddresses && direct is None) || (p == DiscoveryPhase::HomeRelay
        && relay is None) || (p == DiscoveryPhase::Snapshot && snapshot is None)) by {
        if direct is None {
            assert(a.warnings[0] == DiscoveryPhase::DirectAddresses);
            assert(end.warnings[0] == DiscoveryPhase::DirectAddresses);
        }
        if relay is None {
            assert(b.warnings[b.warnings.len() - 1] == DiscoveryPhase::HomeRelay);
            assert(end.warnings[b.warnings.len() - 1] == DiscoveryPhase::HomeRelay);
        }
        if snapshot is None {
            assert(end.warnings[end.warnings.len() - 1] == DiscoveryPhase::Snapshot);
        }
    }
}

/// With no direct address and no relay the address is the identity alone,
/// whichever waits failed, and its description is the identity's line.
pub proof fn lemma_identity_only_address(waiter: WaiterView, node_id: Seq<char>)
    requires
        waiter.direct_addresses.len() == 0,
        waiter.relay_url is None,
    ensures
        waiter.resolved(node_id) == AddressView::identity_only(node_id),
        waiter.resolved(node_id).described() == "NodeId: "@ + node_id,
{
    assert(waiter.direct_addresses =~= Seq::<Seq<char>>::empty());
}

} // verus!
