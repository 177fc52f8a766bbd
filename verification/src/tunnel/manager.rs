//! Bookkeeping of reverse tunnels: which port serves which client.
use std::collections::HashMap;
use vstd::prelude::*;

use crate::addr::SocketAddress;
use crate::connection::ServiceType;
use crate::runtime::{is_v4_uuid, new_v4_id, utc_now_micros};
use crate::text::{chars_to_string, push_text};
use super::error::{TunnelError, tunnel_error_of};
use super::port_allocator::{
    PortAllocError,
    PortAllocator,
    PortAllocatorView,
    allocate_port_spec,
    port_range,
    release_port_spec,
};

verus! {

broadcast use vstd::std_specs::hash::group_hash_axioms;

/// A reverse tunnel listening on `listen_port` for `target_addr`.
#[derive(Debug)]
pub struct ActiveTunnel {
    pub tunnel_id: u128,
    pub client_id: u128,
    pub listen_port: u16,
    pub target_addr: SocketAddress,
    pub service_type: ServiceType,
    /// Creation time, in microseconds since the Unix epoch.
    pub created_at: i64,
}

/// Abstract state of a [`TunnelManager`].
pub struct TunnelManagerView {
    pub tunnels: Map<u16, ActiveTunnel>,
    pub ports: PortAllocatorView,
}

impl TunnelManagerView {
    /// The allocator is consistent and every open tunnel sits on an allocated
    /// port, filed under that port.
    pub open spec fn wf(self) -> bool {
        &&& self.ports.wf()
        &&& forall|p: u16| #[trigger]
            self.tunnels.contains_key(p) ==> self.ports.allocated.contains(p)
                && self.tunnels[p].listen_port == p
    }
}

/// What a new tunnel is stamped with: its identifiers (random version-4
/// UUIDs, as 128-bit values) and its creation time in microseconds since the
/// Unix epoch.
#[derive(Debug, Clone, Copy, PartialEq, Eq, Structural)]
pub struct TunnelStamp {
    pub tunnel_id: u128,
    pub client_id: u128,
    pub created_at: i64,
}

/// The message of the `OperationFailed` error given when a tunnel cannot be
/// stamped.
pub open spec fn stamp_failure_text() -> Seq<char> {
    "could not draw a tunnel identifier or read the clock"@
}

/// `after` is `before` with a new tunnel on the free port `port`, for
/// `client_addr` and `service_type`, and every other tunnel kept.
pub open spec fn reverse_tunnel_recorded(
    before: TunnelManagerView,
    after: TunnelManagerView,
    port: u16,
    client_addr: SocketAddress,
    service_type: ServiceType,
) -> bool {
    &&& !before.tunnels.contains_key(port)
    &&& after.tunnels.dom() == before.tunnels.dom().insert(port)
    &&& forall|p: u16|
        p != port && #[trigger] before.tunnels.contains_key(p) ==> after.tunnels[p]
            == before.tunnels[p]
    &&& after.tunnels[port].listen_port == port
    &&& after.tunnels[port].target_addr == client_addr
    &&& after.tunnels[port].service_type == service_type
}

/// Open reverse tunnels and the allocator of their ports.
pub struct TunnelManager {
    active_tunnels: HashMap<u16, ActiveTunnel>,
    port_allocator: PortAllocator,
}

impl View for TunnelManager {
    type V = TunnelManagerView;

    closed spec fn view(&self) -> TunnelManagerView {
        TunnelManagerView { tunnels: self.active_tunnels@, ports: self.port_allocator@ }
    }
}

impl TunnelManager {
    /// A manager with no tunnels, allocating from `start_port..=end_port`.
    /// (The range must be non-empty and must not contain port 0.)
    pub fn new(start_port: u16, end_port: u16) -> (r: Self)
        requires
            start_port > 0,
            start_port <= end_port,
        ensures
            r@.wf(),
            r@.tunnels == Map::<u16, ActiveTunnel>::empty(),
            r@.ports.min_port == start_port,
            r@.ports.max_port == end_port,
            r@.ports.allocated == Set::<u16>::empty(),
            r@.ports.available == port_range(start_port, end_port),
            r@.ports.next_port == start_port,
    {
        TunnelManager {
            active_tunnels: HashMap::new(),
            port_allocator: PortAllocator::new(start_port, end_port),
        }
    }

    /// Allocates a port (the preferred one if given) and records a tunnel on
    /// it for `client_addr`, with fresh random identifiers and the current
    /// time. An allocation that cannot succeed is reported as its error; when
    /// it could but no identifier or no clock reading can be had, the result
    /// is `OperationFailed`. On failure nothing changes. The outcome is that of
    /// [`Self::create_reverse_tunnel_with_stamp`] for what was drawn.
    pub fn create_reverse_tunnel(
        &mut self,
        service_type: ServiceType,
        preferred_port: Option<u16>,
        client_addr: SocketAddress,
    ) -> (r: Result<u16, TunnelError>)
        requires
            old(self)@.wf(),
        ensures
            final(self)@.wf(),
            ({
                let (ports, res) = allocate_port_spec(old(self)@.ports, preferred_port);
                match r {
                    Ok(port) => {
                        &&& res == Ok::<u16, PortAllocError>(port)
                        &&& final(self)@.ports == ports
                        &&& reverse_tunnel_recorded(old(self)@, final(self)@, port, client_addr, service_type)
                        &&& is_v4_uuid(final(self)@.tunnels[port].tunnel_id)
                        &&& is_v4_uuid(final(self)@.tunnels[port].client_id)
                        &&& final(self)@.tunnels[port].created_at >= 0
                    },
                    Err(e) => {
                        &&& final(self)@ == old(self)@
                        &&& res is Err ==> tunnel_error_of(res->Err_0, e)
                        &&& res is Ok ==> e is OperationFailed
                    },
                }
            }),
    {
        let stamp = match (new_v4_id(), new_v4_id(), utc_now_micros()) {
            (Some(tunnel_id), Some(client_id), Some(created_at)) => Some(
                TunnelStamp { tunnel_id, client_id, created_at },
            ),
            _ => None,
        };
        self.create_reverse_tunnel_with_stamp(stamp, service_type, preferred_port, client_addr)
    }

    /// The bookkeeping of [`Self::create_reverse_tunnel`] once its identifiers
    /// and creation time have been drawn (`None` when they could not be): an
    /// allocation that cannot succeed is reported as its error first; without
    /// a stamp it then fails with `OperationFailed`; with one it allocates the
    /// port and records a tunnel carrying the stamp. On failure nothing
    /// changes.
    pub fn create_reverse_tunnel_with_stamp(
        &mut self,
        stamp: Option<TunnelStamp>,
        service_type: ServiceType,
        preferred_port: Option<u16>,
        client_addr: SocketAddress,
    ) -> (r: Result<u16, TunnelError>)
        requires
            old(self)@.wf(),
        ensures
            final(self)@.wf(),
            match stamp {
                None => {
                    &&& final(self)@ == old(self)@
                    &&& r is Err
                    &&& match allocate_port_spec(old(self)@.ports, preferred_port).1 {
                        Err(ae) => tunnel_error_of(ae, r->Err_0),
                        Ok(_) => r matches Err(TunnelError::OperationFailed(m)) && m@
                            == stamp_failure_text(),
                    }
                },
                Some(st) => {
                    let (ports, res) = allocate_port_spec(old(self)@.ports, preferred_port);
                    match r {
                        Ok(port) => {
                            &&& res == Ok::<u16, PortAllocError>(port)
                            &&& final(self)@.ports == ports
                            &&& reverse_tunnel_recorded(old(self)@, final(self)@, port, client_addr, service_type)
                            &&& final(self)@.tunnels[port].tunnel_id == st.tunnel_id
                            &&& final(self)@.tunnels[port].client_id == st.client_id
                            &&& final(self)@.tunnels[port].created_at == st.created_at
                        },
                        Err(e) => {
                            &&& res is Err
                            &&& tunnel_error_of(res->Err_0, e)
                            &&& final(self)@ == old(self)@
                        },
                    }
                },
            },
    {
        let st = match stamp {
            Some(st) => st,
            None => {
                if let Some(e) = self.port_allocator.allocation_refusal(preferred_port) {
                    return Err(TunnelError::from_alloc_error(e));
                }
                let mut v: Vec<char> = Vec::new();
                push_text(&mut v, "could not draw a tunnel identifier or read the clock");
                proof {
                    assert(v@ == stamp_failure_text());
                }
                return Err(TunnelError::OperationFailed(chars_to_string(&v)));
            },
        };
        let port = match self.port_allocator.allocate_port(preferred_port) {
            Ok(port) => port,
            Err(e) => return Err(TunnelError::from_alloc_error(e)),
        };
        let ghost before = self@;
        let tunnel = ActiveTunnel {
            tunnel_id: st.tunnel_id,
            client_id: st.client_id,
            listen_port: port,
            target_addr: client_addr,
            service_type,
            created_at: st.created_at,
        };
        proof {
            assert(!before.tunnels.contains_key(port));
        }
        self.active_tunnels.insert(port, tunnel);
        proof {
            assert(self@.tunnels.dom() =~= before.tunnels.dom().insert(port));
        }
        Ok(port)
    }

    /// Closes the tunnel on `port` and releases the port.
    pub fn close_tunnel(&mut self, port: u16) -> (r: Result<(), TunnelError>)
        requires
            old(self)@.wf(),
        ensures
            final(self)@.wf(),
            old(self)@.tunnels.contains_key(port) ==> {
                &&& r is Ok
                &&& final(self)@.tunnels == old(self)@.tunnels.remove(port)
                &&& release_port_spec(old(self)@.ports, port).1 is Ok
                &&& final(self)@.ports == release_port_spec(old(self)@.ports, port).0
            },
            !old(self)@.tunnels.contains_key(port) ==> {
                &&& r matches Err(TunnelError::TunnelNotFound(p)) && p == port
                &&& final(self)@ == old(self)@
            },
    {
        if !self.active_tunnels.contains_key(&port) {
            return Err(TunnelError::TunnelNotFound(port));
        }
        self.active_tunnels.remove(&port);
        match self.port_allocator.release_port(port) {
            Ok(()) => Ok(()),
            Err(e) => Err(TunnelError::PortReleaseError(port, e.message())),
        }
    }

    /// Forgets every tunnel. Their ports stay allocated.
    pub fn shutdown(&mut self)
        requires
            old(self)@.wf(),
        ensures
            final(self)@.wf(),
            final(self)@.tunnels == Map::<u16, ActiveTunnel>::empty(),
            final(self)@.ports == old(self)@.ports,
    {
        self.active_tunnels.clear();
    }
}

} // verus!
