//! Reverse tunnels: port allocation, tunnel bookkeeping and their errors.

pub mod error;
pub mod manager;
pub mod port_allocator;
