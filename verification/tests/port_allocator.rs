use crabby_proxy::tunnel::error::TunnelError;
use crabby_proxy::tunnel::port_allocator::{PortAllocError, PortAllocator};

#[test]
fn new_allocator_has_whole_range_free() {
    let a = PortAllocator::new(9000, 9004);
    assert_eq!(a.available_count(), 5);
    assert_eq!(a.allocated_count(), 0);
    assert!(a.is_in_range(9000));
    assert!(a.is_in_range(9004));
    assert!(!a.is_in_range(8999));
    assert!(!a.is_in_range(9005));
    assert!(!a.is_allocated(9002));
}

#[test]
fn allocate_next_hands_out_ports_in_order() {
    let mut a = PortAllocator::new(100, 102);
    assert_eq!(a.allocate_next(), Ok(100));
    assert_eq!(a.allocate_next(), Ok(101));
    assert_eq!(a.allocate_next(), Ok(102));
    assert_eq!(a.allocate_next(), Err(PortAllocError::NoPortsAvailable(100, 102)));
    assert_eq!(a.allocated_count(), 3);
    assert_eq!(a.available_count(), 0);
}

#[test]
fn allocate_specific_checks_range_and_use() {
    let mut a = PortAllocator::new(100, 110);
    assert_eq!(a.allocate_specific(99), Err(PortAllocError::PortOutOfRange(99, 100, 110)));
    assert_eq!(a.allocate_specific(111), Err(PortAllocError::PortOutOfRange(111, 100, 110)));
    assert_eq!(a.allocate_specific(105), Ok(105));
    assert_eq!(a.allocate_specific(105), Err(PortAllocError::PortUnavailable(105)));
    assert!(a.is_allocated(105));
    assert_eq!(a.available_count(), 10);
    // the specific port left the free queue: next allocations skip it
    for expected in [100u16, 101, 102, 103, 104, 106] {
        assert_eq!(a.allocate_next(), Ok(expected));
    }
}

#[test]
fn allocate_port_prefers_requested_port() {
    let mut a = PortAllocator::new(100, 110);
    assert_eq!(a.allocate_port(Some(107)), Ok(107));
    assert_eq!(a.allocate_port(None), Ok(100));
    assert_eq!(a.allocate_port(Some(107)), Err(PortAllocError::PortUnavailable(107)));
}

#[test]
fn release_port_requires_allocation() {
    let mut a = PortAllocator::new(100, 110);
    assert_eq!(a.release_port(100), Err(PortAllocError::PortNotAllocated(100)));
    assert_eq!(a.release_port(5000), Err(PortAllocError::PortNotAllocated(5000)));
}

#[test]
fn counts_always_cover_the_range() {
    let mut a = PortAllocator::new(1, 4);
    let _ = a.allocate_next();
    let _ = a.allocate_specific(3);
    assert_eq!(a.available_count() + a.allocated_count(), 4);
    let _ = a.release_port(1);
    assert_eq!(a.available_count() + a.allocated_count(), 4);
}

#[test]
fn release_after_next_puts_port_back_in_front() {
    let mut a = PortAllocator::new(100, 103);
    assert_eq!(a.allocate_next(), Ok(100));
    assert_eq!(a.release_port(100), Ok(()));
    assert!(!a.is_allocated(100));
    assert_eq!(a.allocate_next(), Ok(100));
}

#[test]
fn release_of_top_port_goes_to_the_back() {
    let mut a = PortAllocator::new(100, 101);
    assert_eq!(a.allocate_next(), Ok(100));
    assert_eq!(a.allocate_next(), Ok(101));
    // the cursor wrapped to 100, so 101 is not below it: it goes to the back
    assert_eq!(a.release_port(101), Ok(()));
    assert_eq!(a.release_port(100), Ok(()));
    assert_eq!(a.allocate_next(), Ok(101));
    assert_eq!(a.allocate_next(), Ok(100));
}

#[test]
fn allocate_specific_then_release_restores_counts() {
    let mut a = PortAllocator::new(10, 20);
    assert_eq!(a.allocate_specific(15), Ok(15));
    assert_eq!(a.release_port(15), Ok(()));
    assert_eq!(a.allocated_count(), 0);
    assert_eq!(a.available_count(), 11);
    assert!(!a.is_allocated(15));
}

#[test]
fn exhaustion_reported_only_when_all_allocated() {
    let mut a = PortAllocator::new(7, 8);
    assert_eq!(a.allocate_specific(8), Ok(8));
    assert_eq!(a.allocate_next(), Ok(7));
    assert_eq!(a.allocate_port(None), Err(PortAllocError::NoPortsAvailable(7, 8)));
}

#[test]
fn single_port_range() {
    let mut a = PortAllocator::new(65535, 65535);
    assert_eq!(a.allocate_next(), Ok(65535));
    assert_eq!(a.allocate_next(), Err(PortAllocError::NoPortsAvailable(65535, 65535)));
    assert_eq!(a.release_port(65535), Ok(()));
    assert_eq!(a.allocate_next(), Ok(65535));
}

#[test]
fn alloc_error_messages() {
    assert_eq!(
        PortAllocError::PortOutOfRange(5, 10, 20).message(),
        "Port 5 is out of allowed range (10-20)"
    );
    assert_eq!(PortAllocError::PortUnavailable(80).message(), "Port 80 is already allocated");
    assert_eq!(
        PortAllocError::NoPortsAvailable(1, 65535).message(),
        "No available ports in the range 1-65535"
    );
    assert_eq!(PortAllocError::PortNotAllocated(0).message(), "Port 0 is not currently allocated");
}

#[test]
fn alloc_errors_become_tunnel_errors() {
    assert!(matches!(
        TunnelError::from_alloc_error(PortAllocError::PortOutOfRange(1, 2, 3)),
        TunnelError::PortOutOfRange(1, 2, 3)
    ));
    assert!(matches!(
        TunnelError::from_alloc_error(PortAllocError::PortUnavailable(9)),
        TunnelError::PortInUse(9)
    ));
    assert!(matches!(
        TunnelError::from_alloc_error(PortAllocError::NoPortsAvailable(4, 5)),
        TunnelError::NoPortsAvailable(4, 5)
    ));
    match TunnelError::from_alloc_error(PortAllocError::PortNotAllocated(42)) {
        TunnelError::AllocationError(m) => assert_eq!(m, "Port 42 is not currently allocated"),
        other => panic!("unexpected {:?}", other),
    }
}

#[test]
fn refusal_is_found_without_allocating() {
    let mut a = PortAllocator::new(50000, 50001);
    assert_eq!(a.allocation_refusal(Some(49999)), Some(PortAllocError::PortOutOfRange(49999, 50000, 50001)));
    assert_eq!(a.allocation_refusal(Some(50001)), None);
    assert_eq!(a.allocation_refusal(None), None);
    assert_eq!(a.allocate_port(Some(50001)), Ok(50001));
    assert_eq!(a.allocation_refusal(Some(50001)), Some(PortAllocError::PortUnavailable(50001)));
    assert_eq!(a.allocate_port(None), Ok(50000));
    assert_eq!(a.allocation_refusal(None), Some(PortAllocError::NoPortsAvailable(50000, 50001)));
}
