//! Allocation of listening ports for reverse tunnels within a fixed range.
use std::collections::HashSet;
use std::collections::VecDeque;
use vstd::prelude::*;

use crate::text::{decimal, push_decimal, push_text, chars_to_string};

verus! {

broadcast use vstd::std_specs::hash::group_hash_axioms;

/// Why a port could not be allocated or released.
#[derive(Debug, Clone, Copy, PartialEq, Eq, Structural)]
pub enum PortAllocError {
    /// The port lies outside `min..=max` (port, min, max).
    PortOutOfRange(u16, u16, u16),
    /// The port is already allocated.
    PortUnavailable(u16),
    /// Every port of the range `min..=max` is allocated (min, max).
    NoPortsAvailable(u16, u16),
    /// The port was not allocated.
    PortNotAllocated(u16),
}

/// Human-readable text of an allocation error.
pub open spec fn port_alloc_error_text(e: PortAllocError) -> Seq<char> {
    match e {
        PortAllocError::PortOutOfRange(p, lo, hi) => "Port "@ + decimal(p as nat)
            + " is out of allowed range ("@ + decimal(lo as nat) + "-"@ + decimal(hi as nat)
            + ")"@,
        PortAllocError::PortUnavailable(p) => "Port "@ + decimal(p as nat)
            + " is already allocated"@,
        PortAllocError::NoPortsAvailable(lo, hi) => "No available ports in the range "@
            + decimal(lo as nat) + "-"@ + decimal(hi as nat),
        PortAllocError::PortNotAllocated(p) => "Port "@ + decimal(p as nat)
            + " is not currently allocated"@,
    }
}

impl PortAllocError {
    /// The error's message, as its `Display` renders it.
    pub fn message(&self) -> (r: String)
        ensures
            r@ == port_alloc_error_text(*self),
    {
        let mut v: Vec<char> = Vec::new();
        match *self {
            PortAllocError::PortOutOfRange(p, lo, hi) => {
                push_text(&mut v, "Port ");
                push_decimal(p as u64, &mut v);
                push_text(&mut v, " is out of allowed range (");
                push_decimal(lo as u64, &mut v);
                push_text(&mut v, "-");
                push_decimal(hi as u64, &mut v);
                push_text(&mut v, ")");
            },
            PortAllocError::PortUnavailable(p) => {
                push_text(&mut v, "Port ");
                push_decimal(p as u64, &mut v);
                push_text(&mut v, " is already allocated");
            },
            PortAllocError::NoPortsAvailable(lo, hi) => {
                push_text(&mut v, "No available ports in the range ");
                push_decimal(lo as u64, &mut v);
                push_text(&mut v, "-");
                push_decimal(hi as u64, &mut v);
            },
            PortAllocError::PortNotAllocated(p) => {
                push_text(&mut v, "Port ");
                push_decimal(p as u64, &mut v);
                push_text(&mut v, " is not currently allocated");
            },
        }
        proof {
            assert(v@ == port_alloc_error_text(*self));
        }
        chars_to_string(&v)
    }
}

/// Abstract state of a [`PortAllocator`].
pub struct PortAllocatorView {
    pub min_port: u16,
    pub max_port: u16,
    /// Ports handed out and not yet released.
    pub allocated: Set<u16>,
    /// Ports free for allocation, in the order `allocate_next` hands them out.
    pub available: Seq<u16>,
    /// Where the round-robin cursor stands.
    pub next_port: u16,
}

/// The ports `min..=max` in increasing order.
pub open spec fn port_range(min: u16, max: u16) -> Seq<u16> {
    Seq::new((max - min + 1) as nat, |i: int| (min + i) as u16)
}

impl PortAllocatorView {
    /// The allocator's invariant: allocated and available ports partition the
    /// range, the queue holds no port twice, and the cursor stays in the range.
    pub open spec fn wf(self) -> bool {
        &&& 0 < self.min_port <= self.max_port
        &&& self.allocated.finite()
        &&& self.available.no_duplicates()
        &&& forall|p: u16|
            #![trigger self.allocated.contains(p)]
            #![trigger self.available.contains(p)]
            (self.allocated.contains(p) || self.available.contains(p)) <==> (self.min_port <= p
                <= self.max_port)
        &&& forall|p: u16|
            #![trigger self.allocated.contains(p)]
            #![trigger self.available.contains(p)]
            self.allocated.contains(p) ==> !self.available.contains(p)
        &&& self.min_port <= self.next_port <= self.max_port
        &&& self.allocated.len() + self.available.len() == self.max_port - self.min_port + 1
    }

    pub open spec fn in_range(self, port: u16) -> bool {
        self.min_port <= port <= self.max_port
    }
}

/// State and result of `allocate_specific(port)`.
pub open spec fn allocate_specific_spec(v: PortAllocatorView, port: u16) -> (
    PortAllocatorView,
    Result<u16, PortAllocError>,
) {
    if port < v.min_port || port > v.max_port {
        (v, Err(PortAllocError::PortOutOfRange(port, v.min_port, v.max_port)))
    } else if v.allocated.contains(port) {
        (v, Err(PortAllocError::PortUnavailable(port)))
    } else {
        (
            PortAllocatorView {
                allocated: v.allocated.insert(port),
                available: v.available.remove(v.available.index_of(port)),
                ..v
            },
            Ok(port),
        )
    }
}

/// State and result of `allocate_next()`.
pub open spec fn allocate_next_spec(v: PortAllocatorView) -> (
    PortAllocatorView,
    Result<u16, PortAllocError>,
) {
    if v.available.len() > 0 {
        let port = v.available[0];
        (
            PortAllocatorView {
                allocated: v.allocated.insert(port),
                available: v.available.drop_first(),
                next_port: if port == v.max_port {
                    v.min_port
                } else {
                    (port + 1) as u16
                },
                ..v
            },
            Ok(port),
        )
    } else {
        (v, Err(PortAllocError::NoPortsAvailable(v.min_port, v.max_port)))
    }
}

/// State and result of `allocate_port(preferred)`.
pub open spec fn allocate_port_spec(v: PortAllocatorView, preferred: Option<u16>) -> (
    PortAllocatorView,
    Result<u16, PortAllocError>,
) {
    match preferred {
        Some(port) => allocate_specific_spec(v, port),
        None => allocate_next_spec(v),
    }
}

/// State and result of `release_port(port)`.
pub open spec fn release_port_spec(v: PortAllocatorView, port: u16) -> (
    PortAllocatorView,
    Result<(), PortAllocError>,
) {
    if !v.allocated.contains(port) {
        (v, Err(PortAllocError::PortNotAllocated(port)))
    } else {
        (
            PortAllocatorView {
                allocated: v.allocated.remove(port),
                available: if port < v.next_port {
                    seq![port] + v.available
                } else {
                    v.available.push(port)
                },
                ..v
            },
            Ok(()),
        )
    }
}


/// Every port of the range is either allocated or free, never both, and the
/// number of allocated ports plus the number of free ports is the size of the range.
pub proof fn lemma_ports_partition_range(v: PortAllocatorView, p: u16)
    requires
        v.wf(),
    ensures
        v.allocated.len() + v.available.len() == v.max_port - v.min_port + 1,
        v.in_range(p) <==> (v.allocated.contains(p) || v.available.contains(p)),
        !(v.allocated.contains(p) && v.available.contains(p)),
{
}

/// A port handed out by `allocate_port` lay in the range and was free before
/// the call, and is allocated after it; a preferred port is handed out as asked.
pub proof fn lemma_allocated_port_was_free(v: PortAllocatorView, preferred: Option<u16>)
    requires
        v.wf(),
        allocate_port_spec(v, preferred).1 is Ok,
    ensures
        ({
            let (after, r) = allocate_port_spec(v, preferred);
            let p = r->Ok_0;
            &&& v.in_range(p)
            &&& !v.allocated.contains(p)
            &&& after.allocated.contains(p)
            &&& after.allocated.len() == v.allocated.len() + 1
            &&& after.available.len() == v.available.len() - 1
            &&& (preferred matches Some(q) ==> p == q)
        }),
{
    let (after, r) = allocate_port_spec(v, preferred);
    let p = r->Ok_0;
    match preferred {
        Some(q) => {
            assert(v.available.contains(q));
        },
        None => {
            assert(v.available.contains(v.available[0]));
        },
    }
}

/// `allocate_next` fails exactly when every port of the range is allocated.
pub proof fn lemma_next_fails_iff_exhausted(v: PortAllocatorView)
    requires
        v.wf(),
    ensures
        (allocate_next_spec(v).1 is Err) <==> (forall|p: u16|
            v.in_range(p) ==> #[trigger] v.allocated.contains(p)),
{
    if v.available.len() > 0 {
        let p = v.available[0];
        assert(v.available.contains(p));
        assert(v.in_range(p) && !v.allocated.contains(p));
    } else {
        assert forall|p: u16| v.in_range(p) implies #[trigger] v.allocated.contains(p) by {
            if !v.allocated.contains(p) {
                assert(v.available.contains(p));
                let j = choose|j: int| 0 <= j < v.available.len() && v.available[j] == p;
            }
        }
    }
}

/// `allocate_specific(port)` succeeds exactly when the port lies in the range
/// and is not allocated. It then moves the port from the free queue to the
/// allocated set and changes nothing else: in particular the round-robin
/// cursor stays where it was. When it fails, nothing changes.
pub proof fn lemma_allocate_specific_keeps_cursor(v: PortAllocatorView, port: u16)
    requires
        v.wf(),
    ensures
        ({
            let (w, r) = allocate_specific_spec(v, port);
            &&& (r == Ok::<u16, PortAllocError>(port)) <==> (v.min_port <= port <= v.max_port
                && !v.allocated.contains(port))
            &&& r is Ok ==> {
                &&& w.next_port == v.next_port
                &&& w.min_port == v.min_port && w.max_port == v.max_port
                &&& w.allocated == v.allocated.insert(port)
                &&& !w.available.contains(port)
                &&& forall|q: u16| q != port ==> (#[trigger] w.available.contains(q) <==> v.available.contains(q))
                &&& w.available.len() + 1 == v.available.len()
            }
            &&& r is Err ==> w == v
        }),
{
    let (w, r) = allocate_specific_spec(v, port);
    if r is Ok {
        assert(v.available.contains(port));
        let idx = v.available.index_of(port);
        assert(0 <= idx < v.available.len() && v.available[idx] == port);
        let rest = v.available.remove(idx);
        assert(w.available == rest);
        assert forall|q: u16| rest.contains(q) <==> (v.available.contains(q) && q != port) by {
            if rest.contains(q) {
                let j = choose|j: int| 0 <= j < rest.len() && rest[j] == q;
                if j < idx {
                    assert(v.available[j] == q);
                    assert(j != idx);
                } else {
                    assert(v.available[j + 1] == q);
                    assert(j + 1 != idx);
                }
            }
            if v.available.contains(q) && q != port {
                let j = choose|j: int| 0 <= j < v.available.len() && v.available[j] == q;
                if j < idx {
                    assert(rest[j] == q);
                } else {
                    assert(j != idx);
                    assert(rest[j - 1] == q);
                }
            }
        }
    }
}

/// A port taken with `allocate_specific` and released again goes back to the
/// free queue on the side the unchanged cursor decides: at the back when it
/// lies at or after the cursor, so the next `allocate_next` hands out the
/// ports in order first; at the front when it lies before the cursor.
pub proof fn lemma_allocate_specific_release_order(v: PortAllocatorView, port: u16)
    requires
        v.wf(),
        allocate_specific_spec(v, port).1 is Ok,
    ensures
        ({
            let a = allocate_specific_spec(v, port).0;
            let b = release_port_spec(a, port).0;
            &&& b.next_port == v.next_port
            &&& port >= v.next_port ==> b.available.len() > 0 && b.available.last() == port
            &&& port < v.next_port ==> b.available.len() > 0 && b.available[0] == port
        }),
{
    lemma_allocate_specific_keeps_cursor(v, port);
}

/// Releasing a port right after `allocate_specific` allocated it succeeds and
/// restores the allocated set and the set of free ports.
pub proof fn lemma_allocate_specific_then_release(v: PortAllocatorView, port: u16)
    requires
        v.wf(),
        allocate_specific_spec(v, port).1 is Ok,
    ensures
        ({
            let a = allocate_specific_spec(v, port).0;
            let (b, r) = release_port_spec(a, port);
            &&& r is Ok
            &&& b.allocated == v.allocated
            &&& b.available.to_set() == v.available.to_set()
            &&& b.available.len() == v.available.len()
        }),
{
    let a = allocate_specific_spec(v, port).0;
    let (b, r) = release_port_spec(a, port);
    assert(v.available.contains(port));
    let idx = v.available.index_of(port);
    assert(0 <= idx < v.available.len() && v.available[idx] == port);
    let rest = v.available.remove(idx);
    assert(a.available == rest);
    assert(b.allocated =~= v.allocated);
    assert forall|q: u16| rest.contains(q) <==> (v.available.contains(q) && q != port) by {
        if rest.contains(q) {
            let j = choose|j: int| 0 <= j < rest.len() && rest[j] == q;
            if j < idx {
                assert(v.available[j] == q);
            } else {
                assert(v.available[j + 1] == q);
                assert(j + 1 != idx);
            }
        }
        if v.available.contains(q) && q != port {
            let j = choose|j: int| 0 <= j < v.available.len() && v.available[j] == q;
            if j < idx {
                assert(rest[j] == q);
            } else {
                assert(j != idx);
                assert(rest[j - 1] == q);
            }
        }
    }
    assert forall|q: u16| b.available.contains(q) <==> v.available.contains(q) by {
        if port < a.next_port {
            assert(b.available == seq![port] + rest);
            if b.available.contains(q) && q != port {
                let j = choose|j: int| 0 <= j < b.available.len() && b.available[j] == q;
                assert(rest[j - 1] == q);
            }
            if rest.contains(q) {
                let j = choose|j: int| 0 <= j < rest.len() && rest[j] == q;
                assert(b.available[j + 1] == q);
            }
            assert(b.available[0] == port);
        } else {
            assert(b.available == rest.push(port));
            if b.available.contains(q) && q != port {
                let j = choose|j: int| 0 <= j < b.available.len() && b.available[j] == q;
                assert(rest[j] == q);
            }
            if rest.contains(q) {
                let j = choose|j: int| 0 <= j < rest.len() && rest[j] == q;
                assert(b.available[j] == q);
            }
            assert(b.available[rest.len() as int] == port);
        }
    }
    assert(b.available.to_set() =~= v.available.to_set());
}

/// Releasing the port that `allocate_next` just handed out puts it back at the
/// front of the queue, so the queue is as before, unless that port was the top
/// of the range (the cursor then wraps and the port goes to the back).
pub proof fn lemma_allocate_next_then_release(v: PortAllocatorView)
    requires
        v.wf(),
        allocate_next_spec(v).1 is Ok,
    ensures
        ({
            let (a, r) = allocate_next_spec(v);
            let p = r->Ok_0;
            let (b, r2) = release_port_spec(a, p);
            &&& r2 is Ok
            &&& b.allocated == v.allocated
            &&& (p != v.max_port ==> b.available == v.available)
            &&& (p == v.max_port ==> b.available == v.available.drop_first().push(p))
        }),
{
    let (a, r) = allocate_next_spec(v);
    let p = r->Ok_0;
    assert(v.available.contains(p));
    let (b, r2) = release_port_spec(a, p);
    assert(b.allocated =~= v.allocated);
    if p != v.max_port {
        assert(b.available =~= v.available);
    }
}

/// Manages port allocation within a specified range.
pub struct PortAllocator {
    min_port: u16,
    max_port: u16,
    allocated_ports: HashSet<u16>,
    available_ports: VecDeque<u16>,
    next_port: u16,
}

impl View for PortAllocator {
    type V = PortAllocatorView;

    closed spec fn view(&self) -> PortAllocatorView {
        PortAllocatorView {
            min_port: self.min_port,
            max_port: self.max_port,
            allocated: self.allocated_ports@,
            available: self.available_ports@,
            next_port: self.next_port,
        }
    }
}

impl PortAllocator {
    /// Creates an allocator for the ports `min_port..=max_port`, all free.
    /// (The range must be non-empty and must not contain port 0.)
    pub fn new(min_port: u16, max_port: u16) -> (r: Self)
        requires
            min_port > 0,
            min_port <= max_port,
        ensures
            r@.wf(),
            r@.min_port == min_port,
            r@.max_port == max_port,
            r@.allocated == Set::<u16>::empty(),
            r@.available == port_range(min_port, max_port),
            r@.next_port == min_port,
    {
        let mut all_ports: VecDeque<u16> = VecDeque::new();
        let mut p: u32 = min_port as u32;
        while p <= max_port as u32
            invariant
                min_port <= p <= max_port as u32 + 1,
                all_ports@ == Seq::new((p - min_port) as nat, |i: int| (min_port + i) as u16),
            decreases max_port as u32 + 1 - p,
        {
            all_ports.push_back(p as u16);
            proof {
                assert(all_ports@ == Seq::new(
                    (p + 1 - min_port) as nat,
                    |i: int| (min_port + i) as u16,
                ));
            }
            p = p + 1;
        }
        let r = PortAllocator {
            min_port,
            max_port,
            allocated_ports: HashSet::new(),
            available_ports: all_ports,
            next_port: min_port,
        };
        proof {
            let v = r@;
            assert(v.available == port_range(min_port, max_port));
            assert forall|q: u16|
                (#[trigger] v.allocated.contains(q) || v.available.contains(q)) <==> (min_port
                    <= q <= max_port) by {
                if min_port <= q <= max_port {
                    assert(v.available[q - min_port] == q);
                }
            }
        }
        r
    }

    /// Allocates a port, preferring the requested port if one is given.
    pub fn allocate_port(&mut self, preferred: Option<u16>) -> (r: Result<u16, PortAllocError>)
        requires
            old(self)@.wf(),
        ensures
            final(self)@.wf(),
            (final(self)@, r) == allocate_port_spec(old(self)@, preferred),
            preferred is Some ==> final(self)@.next_port == old(self)@.next_port,
    {
        if let Some(port) = preferred {
            return self.allocate_specific(port);
        }
        self.allocate_next()
    }

    /// The error that `allocate_port(preferred)` would report, found without
    /// allocating anything; `None` when the allocation would succeed.
    pub fn allocation_refusal(&self, preferred: Option<u16>) -> (r: Option<PortAllocError>)
        requires
            self@.wf(),
        ensures
            match allocate_port_spec(self@, preferred).1 {
                Ok(_) => r is None,
                Err(e) => r == Some(e),
            },
    {
        match preferred {
            Some(port) => {
                if port < self.min_port || port > self.max_port {
                    Some(PortAllocError::PortOutOfRange(port, self.min_port, self.max_port))
                } else if self.allocated_ports.contains(&port) {
                    Some(PortAllocError::PortUnavailable(port))
                } else {
                    None
                }
            },
            None => {
                if self.available_ports.len() > 0 {
                    None
                } else {
                    Some(PortAllocError::NoPortsAvailable(self.min_port, self.max_port))
                }
            },
        }
    }

    /// Position of `port` in the queue of free ports.
    fn position_available(&self, port: u16) -> (idx: usize)
        requires
            self@.available.contains(port),
        ensures
            idx < self@.available.len(),
            self@.available[idx as int] == port,
    {
        let mut i: usize = 0;
        while i < self.available_ports.len()
            invariant
                i <= self@.available.len(),
                self@.available.contains(port),
                forall|j: int| 0 <= j < i ==> self@.available[j] != port,
            decreases self@.available.len() - i,
        {
            if self.available_ports[i] == port {
                return i;
            }
            i = i + 1;
        }
        proof {
            let j = choose|j: int| 0 <= j < self@.available.len() && self@.available[j] == port;
            assert(self@.available[j] == port);
        }
        0
    }

    /// Allocates a specific port if it is in range and free.
    pub fn allocate_specific(&mut self, port: u16) -> (r: Result<u16, PortAllocError>)
        requires
            old(self)@.wf(),
        ensures
            final(self)@.wf(),
            (final(self)@, r) == allocate_specific_spec(old(self)@, port),
            final(self)@.next_port == old(self)@.next_port,
            (r == Ok::<u16, PortAllocError>(port)) <==> (old(self)@.min_port <= port
                <= old(self)@.max_port && !old(self)@.allocated.contains(port)),
    {
        if port < self.min_port || port > self.max_port {
            return Err(PortAllocError::PortOutOfRange(port, self.min_port, self.max_port));
        }
        if self.allocated_ports.contains(&port) {
            return Err(PortAllocError::PortUnavailable(port));
        }
        let ghost old_v = self@;
        let idx = self.position_available(port);
        proof {
            assert(old_v.available.index_of(port) == idx as int) by {
                let k = old_v.available.index_of(port);
                assert(old_v.available.contains(port));
                assert(0 <= k < old_v.available.len() && old_v.available[k] == port);
            }
        }
        self.allocated_ports.insert(port);
        self.available_ports.remove(idx);
        proof {
            let v = self@;
            let a = old_v.available;
            assert(v.available == a.remove(idx as int));
            assert(v.available.len() == a.len() - 1);
            assert forall|j: int| 0 <= j < v.available.len() implies #[trigger] v.available[j]
                == (if j < idx {
                a[j]
            } else {
                a[j + 1]
            }) by {}
            assert forall|q: u16| v.available.contains(q) <==> (a.contains(q) && q != port) by {
                if v.available.contains(q) {
                    let j = choose|j: int| 0 <= j < v.available.len() && v.available[j] == q;
                    if j < idx {
                        assert(a[j] == q);
                    } else {
                        assert(a[j + 1] == q);
                    }
                }
                if a.contains(q) && q != port {
                    let j = choose|j: int| 0 <= j < a.len() && a[j] == q;
                    if j < idx {
                        assert(v.available[j] == q);
                    } else {
                        assert(j != idx);
                        assert(v.available[j - 1] == q);
                    }
                }
            }
            assert(v.available.no_duplicates()) by {
                assert forall|i: int, j: int|
                    0 <= i < v.available.len() && 0 <= j < v.available.len() && i != j implies
                    v.available[i] != v.available[j] by {
                    let ii = if i < idx { i } else { i + 1 };
                    let jj = if j < idx { j } else { j + 1 };
                    assert(v.available[i] == a[ii]);
                    assert(v.available[j] == a[jj]);
                }
            }
            assert(v.allocated.len() == old_v.allocated.len() + 1);
        }
        Ok(port)
    }

    /// Allocates the port at the front of the free queue.
    pub fn allocate_next(&mut self) -> (r: Result<u16, PortAllocError>)
        requires
            old(self)@.wf(),
        ensures
            final(self)@.wf(),
            (final(self)@, r) == allocate_next_spec(old(self)@),
    {
        let ghost old_v = self@;
        if let Some(port) = self.available_ports.pop_front() {
            proof {
                assert(old_v.available.contains(port)) by {
                    assert(old_v.available[0] == port);
                }
            }
            self.allocated_ports.insert(port);
            self.next_port = if port == self.max_port {
                self.min_port
            } else {
                port + 1
            };
            proof {
                let v = self@;
                let a = old_v.available;
                assert(v.available == a.drop_first());
                assert forall|q: u16| v.available.contains(q) <==> (a.contains(q) && q != port) by {
                    if v.available.contains(q) {
                        let j = choose|j: int| 0 <= j < v.available.len() && v.available[j] == q;
                        assert(a[j + 1] == q);
                    }
                    if a.contains(q) && q != port {
                        let j = choose|j: int| 0 <= j < a.len() && a[j] == q;
                        assert(j != 0);
                        assert(v.available[j - 1] == q);
                    }
                }
                assert(v.available.no_duplicates()) by {
                    assert forall|i: int, j: int|
                        0 <= i < v.available.len() && 0 <= j < v.available.len() && i != j implies
                        v.available[i] != v.available[j] by {
                        assert(v.available[i] == a[i + 1]);
                        assert(v.available[j] == a[j + 1]);
                    }
                }
                assert(v.allocated.len() == old_v.allocated.len() + 1);
            }
            return Ok(port);
        }
        Err(PortAllocError::NoPortsAvailable(self.min_port, self.max_port))
    }

    /// Releases a previously allocated port, returning it to the free queue:
    /// at the front when it lies below the cursor, at the back otherwise.
    pub fn release_port(&mut self, port: u16) -> (r: Result<(), PortAllocError>)
        requires
            old(self)@.wf(),
        ensures
            final(self)@.wf(),
            (final(self)@, r) == release_port_spec(old(self)@, port),
    {
        if !self.allocated_ports.contains(&port) {
            return Err(PortAllocError::PortNotAllocated(port));
        }
        let ghost old_v = self@;
        self.allocated_ports.remove(&port);
        if port < self.next_port {
            self.available_ports.push_front(port);
        } else {
            self.available_ports.push_back(port);
        }
        proof {
            let v = self@;
            let a = old_v.available;
            assert(!a.contains(port));
            if port < old_v.next_port {
                assert(v.available == seq![port] + a);
                assert forall|q: u16| v.available.contains(q) <==> (a.contains(q) || q == port) by {
                    if v.available.contains(q) && q != port {
                        let j = choose|j: int| 0 <= j < v.available.len() && v.available[j] == q;
                        assert(a[j - 1] == q);
                    }
                    if a.contains(q) {
                        let j = choose|j: int| 0 <= j < a.len() && a[j] == q;
                        assert(v.available[j + 1] == q);
                    }
                    if q == port {
                        assert(v.available[0] == q);
                    }
                }
                assert(v.available.no_duplicates()) by {
                    assert forall|i: int, j: int|
                        0 <= i < v.available.len() && 0 <= j < v.available.len() && i != j implies
                        v.available[i] != v.available[j] by {
                        if i > 0 {
                            assert(v.available[i] == a[i - 1]);
                        }
                        if j > 0 {
                            assert(v.available[j] == a[j - 1]);
                        }
                    }
                }
            } else {
                assert(v.available == a.push(port));
                assert forall|q: u16| v.available.contains(q) <==> (a.contains(q) || q == port) by {
                    if v.available.contains(q) && q != port {
                        let j = choose|j: int| 0 <= j < v.available.len() && v.available[j] == q;
                        assert(a[j] == q);
                    }
                    if a.contains(q) {
                        let j = choose|j: int| 0 <= j < a.len() && a[j] == q;
                        assert(v.available[j] == q);
                    }
                    if q == port {
                        assert(v.available[a.len() as int] == q);
                    }
                }
                assert(v.available.no_duplicates()) by {
                    assert forall|i: int, j: int|
                        0 <= i < v.available.len() && 0 <= j < v.available.len() && i != j implies
                        v.available[i] != v.available[j] by {
                        if i < a.len() {
                            assert(v.available[i] == a[i]);
                        }
                        if j < a.len() {
                            assert(v.available[j] == a[j]);
                        }
                    }
                }
            }
            assert(v.allocated.len() == old_v.allocated.len() - 1);
        }
        Ok(())
    }

    /// Whether `port` is currently allocated.
    pub fn is_allocated(&self, port: u16) -> (r: bool)
        ensures
            r == self@.allocated.contains(port),
    {
        self.allocated_ports.contains(&port)
    }

    /// Whether `port` lies within the allocator's range.
    pub fn is_in_range(&self, port: u16) -> (r: bool)
        ensures
            r == self@.in_range(port),
    {
        port >= self.min_port && port <= self.max_port
    }

    /// Number of ports free for allocation.
    pub fn available_count(&self) -> (r: usize)
        ensures
            r == self@.available.len(),
    {
        self.available_ports.len()
    }

    /// Number of ports currently allocated.
    pub fn allocated_count(&self) -> (r: usize)
        ensures
            r == self@.allocated.len(),
    {
        self.allocated_ports.len()
    }
}

} // verus!
