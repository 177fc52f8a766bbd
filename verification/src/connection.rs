//! Connection requests awaiting an operator's decision, and active connections.
use std::collections::HashMap;
use std::time::Instant;
use tokio::sync::oneshot::Sender;
use vstd::prelude::*;

use crate::addr::SocketAddress;
use crate::proxy::protocol::ProxyTarget;
use crate::runtime::{instant_now, is_v4_uuid, new_v4_id};

verus! {

broadcast use vstd::std_specs::hash::group_hash_axioms;

/// Where a connection request stands.
#[derive(Debug, Clone, Copy, PartialEq, Eq, Structural)]
pub enum ConnectionState {
    Pending,
    Approved,
    Rejected,
    Active,
    Closed,
}

/// What a client asks the proxy for.
#[derive(Debug, Clone, PartialEq, Eq)]
pub enum ConnectionType {
    /// Forward proxy (client -> proxy -> target server).
    Forward { target: ProxyTarget, protocol: ProxyProtocol },
    /// Reverse tunnel (the client asks the proxy to expose a local service);
    /// `None` lets the proxy pick the port.
    ReverseTunnel { service_type: ServiceType, listen_port: Option<u16> },
}

/// Protocols a forwarded connection may carry.
#[derive(Debug, Clone, PartialEq, Eq)]
pub enum ProxyProtocol {
    Http,
    Https,
    Socks5,
    Tcp,
    Ssh,
    Custom(String),
}

/// Kinds of services a reverse tunnel can expose.
#[derive(Debug, Clone, PartialEq, Eq)]
pub enum ServiceType {
    Database(DbType),
    WebService,
    SshService,
    Custom(String),
}

/// Database flavours of a database service.
#[derive(Debug, Clone, PartialEq, Eq)]
pub enum DbType {
    Postgres,
    MySQL,
    Redis,
    MongoDB,
    Custom(String),
}

/// The operator's answer to a connection request.
#[derive(Debug, Clone, PartialEq, Eq)]
pub enum ConnectionApproval {
    Approved,
    /// Approved, with the port assigned to a reverse tunnel.
    ApprovedWithPort(u16),
    /// Rejected, with the reason.
    Rejected(String),
}

/// `tokio::sync::oneshot::Sender`, the channel on which a request's decision is delivered.
#[verifier::external_type_specification]
#[verifier::external_body]
#[verifier::reject_recursive_types(T)]
pub struct ExOneshotSender<T>(Sender<T>);

/// `tokio::sync::oneshot::Sender::send`: hands the decision to the task waiting
/// on the other end. When that task has gone the value is dropped; the outcome
/// is ignored, so nothing is claimed.
#[verifier::external_body]
fn deliver_decision(tx: Sender<ConnectionApproval>, decision: ConnectionApproval) {
    let _ = tx.send(decision);
}

/// A decision that is owed to a client: the channel of its request and what
/// is to be sent on it.
#[derive(Debug)]
pub struct DecisionDelivery {
    pub channel: Sender<ConnectionApproval>,
    pub decision: ConnectionApproval,
}

impl DecisionDelivery {
    /// Sends the decision on the request's channel; a client that has gone
    /// away is not an error.
    pub fn send(self) {
        deliver_decision(self.channel, self.decision);
    }
}

/// The delivery owed when a request whose channel is `tx` gets `decision`:
/// none when the request came without a channel.
pub open spec fn delivery_for(
    tx: Option<Sender<ConnectionApproval>>,
    decision: ConnectionApproval,
) -> Option<DecisionDelivery> {
    match tx {
        Some(channel) => Some(DecisionDelivery { channel, decision }),
        None => None,
    }
}

/// A client's request, identified by a random version-4 UUID (as its 128-bit value).
#[derive(Debug)]
pub struct ConnectionRequest {
    pub id: u128,
    pub client_addr: SocketAddress,
    pub connection_type: ConnectionType,
    pub state: ConnectionState,
    pub decision_tx: Option<Sender<ConnectionApproval>>,
}

impl ConnectionRequest {
    /// A new pending request with a fresh random identifier; `None` when no
    /// random identifier could be drawn.
    pub fn new(
        client_addr: SocketAddress,
        connection_type: ConnectionType,
        decision_tx: Option<Sender<ConnectionApproval>>,
    ) -> (r: Option<Self>)
        ensures
            r matches Some(req) ==> {
                &&& req.client_addr == client_addr
                &&& req.connection_type == connection_type
                &&& req.state == ConnectionState::Pending
                &&& req.decision_tx == decision_tx
                &&& is_v4_uuid(req.id)
            },
    {
        match new_v4_id() {
            Some(id) => Some(
                ConnectionRequest {
                    id,
                    client_addr,
                    connection_type,
                    decision_tx,
                    state: ConnectionState::Pending,
                },
            ),
            None => None,
        }
    }
}

/// Why an operation on a connection failed.
#[derive(Debug, Clone, Copy, PartialEq, Eq, Structural)]
pub enum ConnectionError {
    NotFound,
    InvalidState,
}

/// Abstract state of a [`ConnectionManager`]: pending requests by identifier,
/// and the activation time of each active connection.
pub struct ConnectionManagerView {
    pub pending: Map<u128, ConnectionRequest>,
    pub active: Map<u128, Instant>,
}

impl ConnectionManagerView {
    /// Each pending request is filed under its own identifier.
    pub open spec fn wf(self) -> bool {
        forall|k: u128| #[trigger] self.pending.contains_key(k) ==> self.pending[k].id == k
    }
}

/// State and result of `add_pending(request)`.
pub open spec fn add_pending_spec(m: ConnectionManagerView, request: ConnectionRequest) -> ConnectionManagerView {
    ConnectionManagerView { pending: m.pending.insert(request.id, request), ..m }
}

/// State and result of `approve_connection(id)`: a pending request becomes
/// approved, its decision channel is used up, and the approval is owed on it.
pub open spec fn approve_spec(m: ConnectionManagerView, id: u128) -> (
    ConnectionManagerView,
    Result<Option<DecisionDelivery>, ConnectionError>,
) {
    if !m.pending.contains_key(id) {
        (m, Err(ConnectionError::NotFound))
    } else if m.pending[id].state != ConnectionState::Pending {
        (m, Err(ConnectionError::InvalidState))
    } else {
        (
            ConnectionManagerView {
                pending: m.pending.insert(
                    id,
                    ConnectionRequest {
                        state: ConnectionState::Approved,
                        decision_tx: None,
                        ..m.pending[id]
                    },
                ),
                ..m
            },
            Ok(delivery_for(m.pending[id].decision_tx, ConnectionApproval::Approved)),
        )
    }
}

/// State and result of `reject_connection(id, reason)`: the request leaves the
/// pending set whenever it was there, also when it was no longer pending; a
/// pending one is owed the rejection with `reason` on its channel.
pub open spec fn reject_spec(m: ConnectionManagerView, id: u128, reason: String) -> (
    ConnectionManagerView,
    Result<Option<DecisionDelivery>, ConnectionError>,
) {
    if !m.pending.contains_key(id) {
        (m, Err(ConnectionError::NotFound))
    } else {
        (
            ConnectionManagerView { pending: m.pending.remove(id), ..m },
            if m.pending[id].state != ConnectionState::Pending {
                Err(ConnectionError::InvalidState)
            } else {
                Ok(delivery_for(m.pending[id].decision_tx, ConnectionApproval::Rejected(reason)))
            },
        )
    }
}

/// State and result of `activate_connection(id)` when the clock reads `now`:
/// the request leaves the pending set whenever it was there, and only an
/// approved one becomes active.
pub open spec fn activate_spec(m: ConnectionManagerView, id: u128, now: Instant) -> (
    ConnectionManagerView,
    Result<(), ConnectionError>,
) {
    if !m.pending.contains_key(id) {
        (m, Err(ConnectionError::NotFound))
    } else if m.pending[id].state != ConnectionState::Approved {
        (ConnectionManagerView { pending: m.pending.remove(id), ..m }, Err(ConnectionError::InvalidState))
    } else {
        (
            ConnectionManagerView { pending: m.pending.remove(id), active: m.active.insert(id, now) },
            Ok(()),
        )
    }
}

/// State and result of `close_connection(id)`.
pub open spec fn close_spec(m: ConnectionManagerView, id: u128) -> (
    ConnectionManagerView,
    Result<(), ConnectionError>,
) {
    if m.active.contains_key(id) {
        (ConnectionManagerView { active: m.active.remove(id), ..m }, Ok(()))
    } else {
        (m, Err(ConnectionError::NotFound))
    }
}


/// A new pending request, once filed, can be approved, then activated, then
/// closed, each step succeeding; approving it hands the approval to its
/// channel, and afterwards it is neither pending nor active.
pub proof fn lemma_request_lifecycle(m: ConnectionManagerView, request: ConnectionRequest, now: Instant)
    requires
        m.wf(),
        request.state == ConnectionState::Pending,
    ensures
        ({
            let id = request.id;
            let m1 = add_pending_spec(m, request);
            let (m2, r2) = approve_spec(m1, id);
            let (m3, r3) = activate_spec(m2, id, now);
            let (m4, r4) = close_spec(m3, id);
            &&& m1.wf() && m2.wf() && m3.wf() && m4.wf()
            &&& r2 == Ok::<Option<DecisionDelivery>, ConnectionError>(
                delivery_for(request.decision_tx, ConnectionApproval::Approved),
            )
            &&& m2.pending[id].state == ConnectionState::Approved
            &&& r3 is Ok && m3.active.contains_key(id) && !m3.pending.contains_key(id)
            &&& r4 is Ok && !m4.active.contains_key(id) && !m4.pending.contains_key(id)
        }),
{
    let id = request.id;
    let m1 = add_pending_spec(m, request);
    assert(m1.pending[id] == request);
}

/// A request can be approved only once: approving it again fails with
/// `InvalidState`, changes nothing and owes no second decision.
pub proof fn lemma_approve_once(m: ConnectionManagerView, id: u128)
    requires
        m.wf(),
        approve_spec(m, id).1 is Ok,
    ensures
        ({
            let m1 = approve_spec(m, id).0;
            approve_spec(m1, id) == (m1, Err::<Option<DecisionDelivery>, ConnectionError>(
                ConnectionError::InvalidState,
            ))
        }),
{
}

/// Rejecting a pending request that came with a channel owes exactly the
/// rejection with the given reason on that channel; afterwards the request
/// can no longer be approved, rejected or activated: it is gone.
pub proof fn lemma_rejected_request_is_gone(
    m: ConnectionManagerView,
    id: u128,
    reason: String,
    later_reason: String,
    now: Instant,
)
    requires
        m.wf(),
        m.pending.contains_key(id),
    ensures
        ({
            let (m1, r) = reject_spec(m, id, reason);
            &&& m.pending[id].state == ConnectionState::Pending ==> r == Ok::<
                Option<DecisionDelivery>,
                ConnectionError,
            >(delivery_for(m.pending[id].decision_tx, ConnectionApproval::Rejected(reason)))
            &&& approve_spec(m1, id).1 == Err::<Option<DecisionDelivery>, ConnectionError>(
                ConnectionError::NotFound,
            )
            &&& reject_spec(m1, id, later_reason).1 == Err::<Option<DecisionDelivery>, ConnectionError>(
                ConnectionError::NotFound,
            )
            &&& activate_spec(m1, id, now).1 == Err::<(), ConnectionError>(ConnectionError::NotFound)
        }),
{
}

/// Pending connection requests and active connections.
#[derive(Debug)]
pub struct ConnectionManager {
    pending: HashMap<u128, ConnectionRequest>,
    active: HashMap<u128, Instant>,
}

impl View for ConnectionManager {
    type V = ConnectionManagerView;

    closed spec fn view(&self) -> ConnectionManagerView {
        ConnectionManagerView { pending: self.pending@, active: self.active@ }
    }
}

impl ConnectionManager {
    /// A manager with no requests and no active connections.
    pub fn new() -> (r: Self)
        ensures
            r@.wf(),
            r@.pending == Map::<u128, ConnectionRequest>::empty(),
            r@.active == Map::<u128, Instant>::empty(),
    {
        ConnectionManager { pending: HashMap::new(), active: HashMap::new() }
    }

    /// Files a request under its identifier (replacing one filed there before).
    pub fn add_pending(&mut self, request: ConnectionRequest)
        requires
            old(self)@.wf(),
        ensures
            final(self)@.wf(),
            final(self)@ == add_pending_spec(old(self)@, request),
    {
        let id = request.id;
        self.pending.insert(id, request);
    }

    /// Approves a pending request. The approval owed to its client comes back
    /// with the request's channel, to be sent with [`DecisionDelivery::send`].
    pub fn approve_connection(&mut self, id: u128) -> (r: Result<Option<DecisionDelivery>, ConnectionError>)
        requires
            old(self)@.wf(),
        ensures
            final(self)@.wf(),
            (final(self)@, r) == approve_spec(old(self)@, id),
    {
        let ghost old_m = self@;
        if !self.pending.contains_key(&id) {
            return Err(ConnectionError::NotFound);
        }
        let mut request = self.pending.remove(&id).unwrap();
        let is_pending = match request.state {
            ConnectionState::Pending => true,
            _ => false,
        };
        if !is_pending {
            self.pending.insert(id, request);
            proof {
                assert(self@.pending =~= old_m.pending);
            }
            return Err(ConnectionError::InvalidState);
        }
        request.state = ConnectionState::Approved;
        let tx = request.decision_tx.take();
        self.pending.insert(id, request);
        proof {
            assert(self@.pending =~= approve_spec(old_m, id).0.pending);
        }
        match tx {
            Some(channel) => Ok(Some(DecisionDelivery { channel, decision: ConnectionApproval::Approved })),
            None => Ok(None),
        }
    }

    /// Rejects a request. The request is removed whenever it was filed, also
    /// when it was no longer pending; for a pending one the rejection with
    /// `rejection_reason` comes back with its channel, to be sent with
    /// [`DecisionDelivery::send`].
    pub fn reject_connection(&mut self, id: u128, rejection_reason: String) -> (r: Result<
        Option<DecisionDelivery>,
        ConnectionError,
    >)
        requires
            old(self)@.wf(),
        ensures
            final(self)@.wf(),
            (final(self)@, r) == reject_spec(old(self)@, id, rejection_reason),
    {
        if !self.pending.contains_key(&id) {
            return Err(ConnectionError::NotFound);
        }
        let mut request = self.pending.remove(&id).unwrap();
        let is_pending = match request.state {
            ConnectionState::Pending => true,
            _ => false,
        };
        if !is_pending {
            return Err(ConnectionError::InvalidState);
        }
        request.state = ConnectionState::Rejected;
        match request.decision_tx.take() {
            Some(channel) => Ok(
                Some(
                    DecisionDelivery {
                        channel,
                        decision: ConnectionApproval::Rejected(rejection_reason),
                    },
                ),
            ),
            None => Ok(None),
        }
    }

    /// Moves an approved request to the active connections, stamped with the
    /// current time. The request is removed whenever it was filed.
    pub fn activate_connection(&mut self, id: u128) -> (r: Result<(), ConnectionError>)
        requires
            old(self)@.wf(),
        ensures
            final(self)@.wf(),
            (final(self)@, r) == activate_spec(old(self)@, id, final(self)@.active[id]),
    {
        if !self.pending.contains_key(&id) {
            return Err(ConnectionError::NotFound);
        }
        let request = self.pending.remove(&id).unwrap();
        let is_approved = match request.state {
            ConnectionState::Approved => true,
            _ => false,
        };
        if !is_approved {
            return Err(ConnectionError::InvalidState);
        }
        self.active.insert(id, instant_now());
        Ok(())
    }

    /// Closes an active connection.
    pub fn close_connection(&mut self, id: u128) -> (r: Result<(), ConnectionError>)
        requires
            old(self)@.wf(),
        ensures
            final(self)@.wf(),
            (final(self)@, r) == close_spec(old(self)@, id),
    {
        if self.active.contains_key(&id) {
            self.active.remove(&id);
            Ok(())
        } else {
            Err(ConnectionError::NotFound)
        }
    }
}

} // verus!
