use crabby_proxy::addr::SocketAddress;
use crabby_proxy::connection::{DbType, ServiceType};
use crabby_proxy::tunnel::error::TunnelError;
use crabby_proxy::tunnel::manager::{TunnelManager, TunnelStamp};

fn client() -> SocketAddress {
    SocketAddress::V4 { ip: [127, 0, 0, 1], port: 5432 }
}

#[test]
fn create_and_close_tunnel() {
    let mut m = TunnelManager::new(20000, 20002);
    let p = m
        .create_reverse_tunnel(ServiceType::Database(DbType::Postgres), None, client())
        .unwrap();
    assert_eq!(p, 20000);
    let q = m.create_reverse_tunnel(ServiceType::WebService, Some(20002), client()).unwrap();
    assert_eq!(q, 20002);
    assert!(m.close_tunnel(20000).is_ok());
    assert!(matches!(m.close_tunnel(20000), Err(TunnelError::TunnelNotFound(20000))));
    // the released port is free again
    let r = m.create_reverse_tunnel(ServiceType::SshService, Some(20000), client()).unwrap();
    assert_eq!(r, 20000);
}

#[test]
fn create_reports_allocation_errors() {
    let mut m = TunnelManager::new(30000, 30000);
    assert!(matches!(
        m.create_reverse_tunnel(ServiceType::WebService, Some(29999), client()),
        Err(TunnelError::PortOutOfRange(29999, 30000, 30000))
    ));
    assert_eq!(m.create_reverse_tunnel(ServiceType::WebService, None, client()).unwrap(), 30000);
    assert!(matches!(
        m.create_reverse_tunnel(ServiceType::WebService, Some(30000), client()),
        Err(TunnelError::PortInUse(30000))
    ));
    assert!(matches!(
        m.create_reverse_tunnel(ServiceType::Custom("x".to_string()), None, client()),
        Err(TunnelError::NoPortsAvailable(30000, 30000))
    ));
}

#[test]
fn shutdown_forgets_tunnels_but_keeps_ports() {
    let mut m = TunnelManager::new(40000, 40001);
    assert_eq!(m.create_reverse_tunnel(ServiceType::WebService, None, client()).unwrap(), 40000);
    m.shutdown();
    assert!(matches!(m.close_tunnel(40000), Err(TunnelError::TunnelNotFound(40000))));
    // port 40000 stays allocated after shutdown
    assert!(matches!(
        m.create_reverse_tunnel(ServiceType::WebService, Some(40000), client()),
        Err(TunnelError::PortInUse(40000))
    ));
    assert_eq!(m.create_reverse_tunnel(ServiceType::WebService, None, client()).unwrap(), 40001);
}

#[test]
fn unstamped_tunnel_fails_and_keeps_the_port_free() {
    let mut m = TunnelManager::new(41000, 41001);
    match m.create_reverse_tunnel_with_stamp(None, ServiceType::WebService, None, client()) {
        Err(TunnelError::OperationFailed(msg)) => {
            assert_eq!(msg, "could not draw a tunnel identifier or read the clock")
        }
        other => panic!("unexpected {:?}", other),
    }
    // nothing was allocated: the first port is still handed out first
    assert_eq!(m.create_reverse_tunnel(ServiceType::WebService, None, client()).unwrap(), 41000);
}

#[test]
fn allocation_errors_come_before_a_missing_stamp() {
    let mut m = TunnelManager::new(42000, 42000);
    let stamp = TunnelStamp { tunnel_id: 1, client_id: 2, created_at: 3 };
    assert_eq!(
        m.create_reverse_tunnel_with_stamp(Some(stamp), ServiceType::WebService, Some(42000), client())
            .unwrap(),
        42000
    );
    assert!(matches!(
        m.create_reverse_tunnel_with_stamp(Some(stamp), ServiceType::WebService, None, client()),
        Err(TunnelError::NoPortsAvailable(42000, 42000))
    ));
    assert!(matches!(
        m.create_reverse_tunnel_with_stamp(None, ServiceType::WebService, None, client()),
        Err(TunnelError::NoPortsAvailable(42000, 42000))
    ));
    assert!(matches!(
        m.create_reverse_tunnel_with_stamp(None, ServiceType::WebService, Some(1), client()),
        Err(TunnelError::PortOutOfRange(1, 42000, 42000))
    ));
}
