//! Descriptor-table and available-ring bookkeeping of the
//! submission path.
//!
//! A transaction hands the device a chain of buffer descriptors:
//! request buffers the device reads, then one response buffer the
//! device writes. Submitting means writing the chain's head index
//! into the available ring at slot `avail_idx mod queue_size` and
//! then incrementing `avail_idx`; the transaction is complete once
//! the device's used-ring index reaches the incremented value.
//!
//! The memory barriers, the queue-select/queue-enable register
//! writes, the device notification and the polling of the used ring
//! are the transport's work and happen outside this crate; the
//! functions here decide exactly what is written into the shared
//! structures and when the wait is over.

use vstd::prelude::*;

verus! {

/// The descriptor flag marking a buffer the device writes to.
pub const VIRTQ_DESC_F_WRITE: u16 = 2;

/// One buffer descriptor: a guest address, a byte length, flags, and
/// the index of the next descriptor of the chain.
#[derive(Clone, Copy, PartialEq, Eq, Structural, Debug)]
pub struct Descriptor {
    pub addr: u64,
    pub len: u32,
    pub flags: u16,
    pub next: u16,
}

/// The driver-written half of one virtqueue: the descriptor table
/// and the available ring with its running index.
pub struct VirtQueue {
    pub qsz: u16,
    pub desc: Vec<Descriptor>,
    pub avail_ring: Vec<u16>,
    pub avail_idx: u16,
}

impl VirtQueue {
    /// The table and the ring both have exactly `qsz` slots.
    pub open spec fn wf(self) -> bool {
        self.qsz > 0 && self.desc.len() == self.qsz && self.avail_ring.len() == self.qsz
    }

    /// A fresh queue of `qsz` slots, all descriptors zeroed.
    pub fn new(qsz: u16) -> (q: VirtQueue)
        requires
            qsz > 0,
        ensures
            q.wf(),
            q.qsz == qsz,
            q.avail_idx == 0,
            forall|i: int| 0 <= i < qsz ==> q.desc[i] == (Descriptor {
                addr: 0,
                len: 0,
                flags: 0,
                next: 0,
            }),
    {
        let mut desc: Vec<Descriptor> = Vec::new();
        let mut avail_ring: Vec<u16> = Vec::new();
        let mut i: usize = 0;
        while i < qsz as usize
            invariant
                i <= qsz,
                desc.len() == i,
                avail_ring.len() == i,
                forall|j: int| 0 <= j < i ==> desc[j] == (Descriptor {
                    addr: 0,
                    len: 0,
                    flags: 0,
                    next: 0,
                }),
            decreases qsz - i,
        {
            desc.push(Descriptor { addr: 0, len: 0, flags: 0, next: 0 });
            avail_ring.push(0);
            i = i + 1;
        }
        VirtQueue { qsz, desc, avail_ring, avail_idx: 0 }
    }

    /// Fills a two-descriptor read-write chain: the request buffer,
    /// read-only for the device, linked to the response buffer,
    /// device-writable. Only the two named slots change, and a slot's
    /// prior flags are kept, as the chain allocator owns them.
    pub fn write_chain_rw(
        &mut self,
        d0: u16,
        d1: u16,
        req_addr: u64,
        req_len: u32,
        resp_addr: u64,
        resp_len: u32,
    )
        requires
            old(self).wf(),
            d0 < old(self).qsz,
            d1 < old(self).qsz,
            d0 != d1,
        ensures
            final(self).wf(),
            final(self).qsz == old(self).qsz,
            final(self).avail_ring == old(self).avail_ring,
            final(self).avail_idx == old(self).avail_idx,
            final(self).desc@ == old(self).desc@.update(d0 as int, Descriptor {
                addr: req_addr,
                len: req_len,
                flags: old(self).desc[d0 as int].flags,
                next: d1,
            }).update(d1 as int, Descriptor {
                addr: resp_addr,
                len: resp_len,
                flags: old(self).desc[d1 as int].flags | VIRTQ_DESC_F_WRITE,
                next: 0,
            }),
    {
        let f0 = self.desc[d0 as usize].flags;
        self.desc[d0 as usize] = Descriptor { addr: req_addr, len: req_len, flags: f0, next: d1 };
        let f1 = self.desc[d1 as usize].flags;
        self.desc[d1 as usize] = Descriptor {
            addr: resp_addr,
            len: resp_len,
            flags: f1 | VIRTQ_DESC_F_WRITE,
            next: 0,
        };
    }

    /// Fills a three-descriptor read-read-write chain: the request
    /// buffer, a further read-only buffer (such as a memory-entry
    /// list), then the device-writable response buffer.
    pub fn write_chain_rrw(
        &mut self,
        d0: u16,
        d1: u16,
        d2: u16,
        req_addr: u64,
        req_len: u32,
        more_addr: u64,
        more_len: u32,
        resp_addr: u64,
        resp_len: u32,
    )
        requires
            old(self).wf(),
            d0 < old(self).qsz,
            d1 < old(self).qsz,
            d2 < old(self).qsz,
            d0 != d1,
            d0 != d2,
            d1 != d2,
        ensures
            final(self).wf(),
            final(self).qsz == old(self).qsz,
            final(self).avail_ring == old(self).avail_ring,
            final(self).avail_idx == old(self).avail_idx,
            final(self).desc@ == old(self).desc@.update(d0 as int, Descriptor {
                addr: req_addr,
                len: req_len,
                flags: old(self).desc[d0 as int].flags,
                next: d1,
            }).update(d1 as int, Descriptor {
                addr: more_addr,
                len: more_len,
                flags: old(self).desc[d1 as int].flags,
                next: d2,
            }).update(d2 as int, Descriptor {
                addr: resp_addr,
                len: resp_len,
                flags: old(self).desc[d2 as int].flags | VIRTQ_DESC_F_WRITE,
                next: 0,
            }),
    {
        let f0 = self.desc[d0 as usize].flags;
        self.desc[d0 as usize] = Descriptor { addr: req_addr, len: req_len, flags: f0, next: d1 };
        let f1 = self.desc[d1 as usize].flags;
        self.desc[d1 as usize] = Descriptor { addr: more_addr, len: more_len, flags: f1, next: d2 };
        let f2 = self.desc[d2 as usize].flags;
        self.desc[d2 as usize] = Descriptor {
            addr: resp_addr,
            len: resp_len,
            flags: f2 | VIRTQ_DESC_F_WRITE,
            next: 0,
        };
    }

    /// Pushes a chain's head descriptor index onto the available ring
    /// and advances the ring index (wrapping at 2^16, as the device
    /// expects). Returns the used-ring value that signals completion:
    /// the advanced index.
    pub fn push_avail(&mut self, didx: u16) -> (wait_idx: u16)
        requires
            old(self).wf(),
        ensures
            final(self).wf(),
            final(self).qsz == old(self).qsz,
            final(self).desc == old(self).desc,
            final(self).avail_ring@ == old(self).avail_ring@.update(
                old(self).avail_idx as int % old(self).qsz as int,
                didx,
            ),
            final(self).avail_idx == (old(self).avail_idx + 1) % 0x10000,
            wait_idx == final(self).avail_idx,
    {
        let slot = (self.avail_idx % self.qsz) as usize;
        self.avail_ring[slot] = didx;
        self.avail_idx = if self.avail_idx == u16::MAX {
            0
        } else {
            self.avail_idx + 1
        };
        self.avail_idx
    }
}

/// Picks, from the features the device offers, the ones this driver
/// will use: none. The optional 3D and extended-display-info features
/// are declined, whatever the device supports.
#[allow(unused_variables)]
pub fn select_features(features: u64) -> (accepted: u64)
    ensures
        accepted == 0,
{
    0
}

/// The busy-poll's completion test: a submitted transaction is done
/// exactly when the device's used-ring index has reached the value
/// [`VirtQueue::push_avail`] returned.
pub fn transaction_complete(used_idx: u16, wait_idx: u16) -> (r: bool)
    ensures
        r == (used_idx == wait_idx),
{
    used_idx == wait_idx
}

} // verus!
