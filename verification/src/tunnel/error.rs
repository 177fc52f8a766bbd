//! Errors of tunnel operations.
use vstd::prelude::*;

use super::port_allocator::{PortAllocError, port_alloc_error_text};

verus! {

/// `std::io::Error`, carried opaquely by [`TunnelError::IoError`].
#[verifier::external_type_specification]
#[verifier::external_body]
pub struct ExIoError(std::io::Error);

/// Errors that can occur during tunnel operations.
#[derive(Debug)]
pub enum TunnelError {
    /// Failed to bind to tunnel port.
    BindError(u16, String),
    /// Failed to connect to client for tunneling.
    ClientConnectionError(String, String),
    /// Port allocation failure.
    AllocationError(String),
    /// Requested port is already in use.
    PortInUse(u16),
    /// Requested port is outside allowed range (port, min, max).
    PortOutOfRange(u16, u16, u16),
    /// No ports available in allocation range (min, max).
    NoPortsAvailable(u16, u16),
    /// Tunnel not found when attempting to close.
    TunnelNotFound(u16),
    /// Failed to release tunnel port.
    PortReleaseError(u16, String),
    /// Error during tunnel data transfer.
    DataTransferError(String),
    /// I/O error during tunnel operation.
    IoError(std::io::Error),
    /// General tunnel operation failure.
    OperationFailed(String),
}

/// How an allocation error is reported as a tunnel error.
pub open spec fn tunnel_error_of(err: PortAllocError, t: TunnelError) -> bool {
    match err {
        PortAllocError::PortOutOfRange(port, min, max) => t matches TunnelError::PortOutOfRange(
            p,
            lo,
            hi,
        ) && p == port && lo == min && hi == max,
        PortAllocError::PortUnavailable(port) => t matches TunnelError::PortInUse(p) && p == port,
        PortAllocError::NoPortsAvailable(min, max) => t matches TunnelError::NoPortsAvailable(
            lo,
            hi,
        ) && lo == min && hi == max,
        PortAllocError::PortNotAllocated(_) => t matches TunnelError::AllocationError(m) && m@
            == port_alloc_error_text(err),
    }
}

impl TunnelError {
    /// Converts an allocation error into the corresponding tunnel error; an
    /// error without a counterpart is carried as its message.
    pub fn from_alloc_error(err: PortAllocError) -> (r: Self)
        ensures
            tunnel_error_of(err, r),
    {
        match err {
            PortAllocError::PortOutOfRange(port, min, max) => TunnelError::PortOutOfRange(
                port,
                min,
                max,
            ),
            PortAllocError::PortUnavailable(port) => TunnelError::PortInUse(port),
            PortAllocError::NoPortsAvailable(min, max) => TunnelError::NoPortsAvailable(min, max),
            e => TunnelError::AllocationError(e.message()),
        }
    }
}

} // verus!
