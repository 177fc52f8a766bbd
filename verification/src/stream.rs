//! The bookkeeping of one direction of a relayed tunnel.
use vstd::prelude::*;

verus! {

/// What the relay loop does after a read of `n` bytes.
#[derive(Debug, Clone, Copy, PartialEq, Eq, Structural)]
pub enum RelayStep {
    /// The source reached its end: shut the sink down and report the total.
    Finish { total: u64 },
    /// Write the bytes read to the sink; the running total becomes `total`.
    Forward { bytes: usize, total: u64 },
}

/// Decides the relay's next step after reading `n` bytes with `total` bytes
/// relayed so far: a read of zero bytes ends the relay.
pub fn relay_step(total: u64, n: usize) -> (r: RelayStep)
    requires
        (total as int) + (n as int) <= (u64::MAX as int),
    ensures
        n == 0 ==> r == (RelayStep::Finish { total }),
        n > 0 ==> r == (RelayStep::Forward { bytes: n, total: (total + n) as u64 }),
{
    if n == 0 {
        return RelayStep::Finish { total };
    }
    RelayStep::Forward { bytes: n, total: total + n as u64 }
}

} // verus!
