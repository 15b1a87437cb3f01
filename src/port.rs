use vstd::prelude::*;

verus! {

/// First port of the cyclic pool.
pub const PORT_LOW: u16 = 12500;

/// One past the last port of the cyclic pool.
pub const PORT_HIGH: u16 = 12700;

/// The port handed out after `p`: the next one, wrapping at the top of the pool.
pub open spec fn next_port(p: u16) -> u16 {
    if p + 1 >= PORT_HIGH {
        PORT_LOW
    } else {
        (p + 1) as u16
    }
}

/// The port handed out by the `k`-th allocation (counting from zero) of a fresh pool.
pub open spec fn nth_port(k: nat) -> u16 {
    (PORT_LOW + k % ((PORT_HIGH - PORT_LOW) as nat)) as u16
}

/// A cyclic pool of loopback ports, one per instance.
#[derive(Debug)]
pub struct PortPool {
    next: u16,
}

impl PortPool {
    /// The port the next allocation hands out.
    pub closed spec fn peek(&self) -> u16 {
        self.next
    }

    pub closed spec fn wf(&self) -> bool {
        PORT_LOW <= self.next < PORT_HIGH
    }

    /// A pool whose first allocation is the lowest port.
    pub fn new() -> (r: PortPool)
        ensures
            r.wf(),
            r.peek() == PORT_LOW,
    {
        PortPool { next: PORT_LOW }
    }

    /// Hands out the next port and advances, wrapping back to the lowest port
    /// after the highest.
    pub fn allocate(&mut self) -> (r: u16)
        requires
            old(self).wf(),
        ensures
            final(self).wf(),
            r == old(self).peek(),
            PORT_LOW <= r < PORT_HIGH,
            final(self).peek() == next_port(r),
    {
        let r = self.next;
        if self.next + 1 >= PORT_HIGH {
            self.next = PORT_LOW;
        } else {
            self.next = self.next + 1;
        }
        r
    }
}

/// The state of a fresh pool after `k` allocations.
pub open spec fn port_after(k: nat) -> u16
    decreases k,
{
    if k == 0 {
        PORT_LOW
    } else {
        next_port(port_after((k - 1) as nat))
    }
}

/// The `k`-th allocation of a fresh pool hands out `PORT_LOW + k mod 200`.
pub proof fn lemma_port_after(k: nat)
    ensures
        port_after(k) == nth_port(k),
    decreases k,
{
    if k > 0 {
        let m = (k - 1) as nat;
        lemma_port_after(m);
        assert(m % 200 + 1 == 200 ==> k % 200 == 0) by (nonlinear_arith)
            requires
                k == m + 1,
        ;
        assert(m % 200 + 1 < 200 ==> k % 200 == m % 200 + 1) by (nonlinear_arith)
            requires
                k == m + 1,
        ;
    }
}

/// Allocations from a fresh pool rise strictly within one cycle of the pool,
/// so no port repeats within a cycle, and the allocation that completes a
/// cycle starts again at the lowest port.
pub proof fn lemma_port_cycle(i: nat, j: nat)
    requires
        i < j,
        i / 200 == j / 200,
    ensures
        port_after(i) < port_after(j),
        port_after(i) != port_after(j),
        port_after(200 * (j / 200 + 1)) == PORT_LOW,
{
    lemma_port_after(i);
    lemma_port_after(j);
    lemma_port_after(200 * (j / 200 + 1));
    assert(i % 200 < j % 200) by (nonlinear_arith)
        requires
            i < j,
            i / 200 == j / 200,
    ;
    assert((200 * (j / 200 + 1)) % 200 == 0) by (nonlinear_arith);
}

} // verus!
