use crabby_proxy::addr::SocketAddress;
use crabby_proxy::connection::{
    ConnectionApproval, ConnectionError, ConnectionManager, ConnectionRequest, ConnectionState,
    ConnectionType, ProxyProtocol, ServiceType,
};
use crabby_proxy::proxy::protocol::ProxyTarget;
use tokio::sync::oneshot;

fn addr() -> SocketAddress {
    SocketAddress::V4 { ip: [10, 0, 0, 2], port: 40000 }
}

fn forward() -> ConnectionType {
    ConnectionType::Forward {
        target: ProxyTarget { host: "example.com".to_string(), port: 443 },
        protocol: ProxyProtocol::Https,
    }
}

#[test]
fn new_request_is_pending_with_v4_id() {
    let r = ConnectionRequest::new(addr(), forward(), None).unwrap();
    assert_eq!(r.state, ConnectionState::Pending);
    assert_eq!(r.client_addr, addr());
    assert_eq!((r.id >> 76) & 0xf, 4);
    assert_eq!((r.id >> 62) & 0x3, 2);
    let s = ConnectionRequest::new(addr(), forward(), None).unwrap();
    assert_ne!(r.id, s.id);
}

#[test]
fn approve_sends_decision_and_allows_activation() {
    let (tx, mut rx) = oneshot::channel();
    let r = ConnectionRequest::new(addr(), forward(), Some(tx)).unwrap();
    let id = r.id;
    let mut m = ConnectionManager::new();
    m.add_pending(r);
    let delivery = m.approve_connection(id).unwrap().expect("the request has a channel");
    assert_eq!(delivery.decision, ConnectionApproval::Approved);
    assert!(rx.try_recv().is_err());
    delivery.send();
    assert_eq!(rx.try_recv().unwrap(), ConnectionApproval::Approved);
    assert!(matches!(m.approve_connection(id), Err(ConnectionError::InvalidState)));
    assert_eq!(m.activate_connection(id), Ok(()));
    assert_eq!(m.activate_connection(id), Err(ConnectionError::NotFound));
    assert_eq!(m.close_connection(id), Ok(()));
    assert_eq!(m.close_connection(id), Err(ConnectionError::NotFound));
}

#[test]
fn reject_sends_reason_and_removes_request() {
    let (tx, mut rx) = oneshot::channel();
    let r = ConnectionRequest::new(
        addr(),
        ConnectionType::ReverseTunnel { service_type: ServiceType::WebService, listen_port: None },
        Some(tx),
    )
    .unwrap();
    let id = r.id;
    let mut m = ConnectionManager::new();
    m.add_pending(r);
    let delivery = m.reject_connection(id, "not today".to_string()).unwrap().unwrap();
    assert_eq!(delivery.decision, ConnectionApproval::Rejected("not today".to_string()));
    delivery.send();
    assert_eq!(rx.try_recv().unwrap(), ConnectionApproval::Rejected("not today".to_string()));
    assert!(matches!(m.reject_connection(id, "again".to_string()), Err(ConnectionError::NotFound)));
    assert!(matches!(m.approve_connection(id), Err(ConnectionError::NotFound)));
    assert_eq!(m.activate_connection(id), Err(ConnectionError::NotFound));
}

#[test]
fn unknown_ids_are_not_found() {
    let mut m = ConnectionManager::new();
    assert!(matches!(m.approve_connection(1), Err(ConnectionError::NotFound)));
    assert!(matches!(m.reject_connection(1, String::new()), Err(ConnectionError::NotFound)));
    assert_eq!(m.activate_connection(1), Err(ConnectionError::NotFound));
    assert_eq!(m.close_connection(1), Err(ConnectionError::NotFound));
}

#[test]
fn activating_unapproved_request_fails_and_drops_it() {
    let r = ConnectionRequest::new(addr(), forward(), None).unwrap();
    let id = r.id;
    let mut m = ConnectionManager::new();
    m.add_pending(r);
    assert_eq!(m.activate_connection(id), Err(ConnectionError::InvalidState));
    // the request was taken out of the pending set
    assert!(matches!(m.approve_connection(id), Err(ConnectionError::NotFound)));
}

#[test]
fn rejecting_approved_request_fails_and_drops_it() {
    let r = ConnectionRequest::new(addr(), forward(), None).unwrap();
    let id = r.id;
    let mut m = ConnectionManager::new();
    m.add_pending(r);
    assert!(matches!(m.approve_connection(id), Ok(None)));
    assert!(matches!(m.reject_connection(id, "late".to_string()), Err(ConnectionError::InvalidState)));
    assert_eq!(m.activate_connection(id), Err(ConnectionError::NotFound));
}

#[test]
fn approval_without_channel_still_approves() {
    let r = ConnectionRequest::new(addr(), forward(), None).unwrap();
    let id = r.id;
    let mut m = ConnectionManager::new();
    m.add_pending(r);
    assert!(matches!(m.approve_connection(id), Ok(None)));
    assert_eq!(m.activate_connection(id), Ok(()));
}

#[test]
fn delivery_to_a_departed_client_is_harmless() {
    let (tx, rx) = oneshot::channel();
    let r = ConnectionRequest::new(addr(), forward(), Some(tx)).unwrap();
    let id = r.id;
    let mut m = ConnectionManager::new();
    m.add_pending(r);
    drop(rx);
    m.approve_connection(id).unwrap().unwrap().send();
    assert_eq!(m.activate_connection(id), Ok(()));
}

#[test]
fn rejecting_without_channel_owes_nothing() {
    let r = ConnectionRequest::new(addr(), forward(), None).unwrap();
    let id = r.id;
    let mut m = ConnectionManager::new();
    m.add_pending(r);
    assert!(matches!(m.reject_connection(id, "no".to_string()), Ok(None)));
}
