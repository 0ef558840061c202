//! Packet buffer pool.
//!
//! A small free-list of byte buffers reused across bulk-endpoint
//! reads, so that the packet-assembly loop allocates nothing in the
//! steady state.  A buffer is checked out with `acquire`, filled by
//! the transport, and handed back with `release`, which clears it;
//! every buffer coming out of the pool is empty.

use vstd::prelude::*;

verus! {

/// A free-list of reusable byte buffers for bulk-endpoint reads.
pub struct PacketBufferPool {
    free: Vec<Vec<u8>>,
    packet_size: usize,
}

impl PacketBufferPool {
    /// How many buffers sit in the free list.
    pub closed spec fn pooled(&self) -> int {
        self.free@.len() as int
    }

    /// The capacity hint new buffers are allocated with: the bulk
    /// endpoint's maximum packet size.
    pub closed spec fn packet_size(&self) -> int {
        self.packet_size as int
    }

    /// An empty pool for packets of the given maximum size.
    pub fn new(packet_size: usize) -> (p: PacketBufferPool)
        ensures
            p.pooled() == 0,
            p.packet_size() == packet_size,
    {
        PacketBufferPool { free: Vec::new(), packet_size }
    }

    /// Checks a buffer out: pops one from the free list, or allocates
    /// a fresh one when the pool is empty.  The buffer is always empty.
    pub fn acquire(&mut self) -> (b: Vec<u8>)
        ensures
            b@ == Seq::<u8>::empty(),
            final(self).packet_size() == old(self).packet_size(),
            final(self).pooled() == if old(self).pooled() > 0 {
                old(self).pooled() - 1
            } else {
                0
            },
    {
        match self.free.pop() {
            Some(mut b) => {
                b.clear();
                assert(b@ =~= Seq::<u8>::empty());
                b
            },
            None => {
                let b = Vec::with_capacity(self.packet_size);
                assert(b@ =~= Seq::<u8>::empty());
                b
            },
        }
    }

    /// Returns a buffer to the free list, cleared for the next read.
    pub fn release(&mut self, b: Vec<u8>)
        ensures
            final(self).packet_size() == old(self).packet_size(),
            final(self).pooled() == old(self).pooled() + 1,
    {
        let mut b = b;
        b.clear();
        self.free.push(b);
    }

    /// The capacity hint new buffers are allocated with.
    pub fn packet_capacity(&self) -> (n: usize)
        ensures
            n == self.packet_size(),
    {
        self.packet_size
    }

    /// How many buffers sit in the free list.
    pub fn pooled_count(&self) -> (n: usize)
        ensures
            n == self.pooled(),
    {
        self.free.len()
    }
}

} // verus!
