use virtio_gpu::virtq::{transaction_complete, Descriptor, VirtQueue, VIRTQ_DESC_F_WRITE};

#[test]
fn fresh_queue_is_zeroed() {
    let q = VirtQueue::new(8);
    assert_eq!(q.qsz, 8);
    assert_eq!(q.desc.len(), 8);
    assert_eq!(q.avail_ring.len(), 8);
    assert_eq!(q.avail_idx, 0);
    assert_eq!(q.desc[3], Descriptor { addr: 0, len: 0, flags: 0, next: 0 });
}

#[test]
fn read_write_chain_links_request_to_response() {
    let mut q = VirtQueue::new(8);
    q.write_chain_rw(2, 5, 0x1000, 24, 0x2000, 408);
    assert_eq!(q.desc[2], Descriptor { addr: 0x1000, len: 24, flags: 0, next: 5 });
    assert_eq!(
        q.desc[5],
        Descriptor { addr: 0x2000, len: 408, flags: VIRTQ_DESC_F_WRITE, next: 0 }
    );
    // untouched slots stay untouched
    assert_eq!(q.desc[0], Descriptor { addr: 0, len: 0, flags: 0, next: 0 });
}

#[test]
fn read_read_write_chain_carries_the_extra_buffer() {
    let mut q = VirtQueue::new(4);
    q.write_chain_rrw(0, 1, 2, 0x10, 32, 0x20, 16, 0x30, 24);
    assert_eq!(q.desc[0], Descriptor { addr: 0x10, len: 32, flags: 0, next: 1 });
    assert_eq!(q.desc[1], Descriptor { addr: 0x20, len: 16, flags: 0, next: 2 });
    assert_eq!(
        q.desc[2],
        Descriptor { addr: 0x30, len: 24, flags: VIRTQ_DESC_F_WRITE, next: 0 }
    );
}

#[test]
fn chains_keep_the_allocators_flags() {
    let mut q = VirtQueue::new(4);
    q.desc[0].flags = 1;
    q.desc[1].flags = 1;
    q.write_chain_rw(0, 1, 0x10, 8, 0x20, 8);
    assert_eq!(q.desc[0].flags, 1);
    assert_eq!(q.desc[1].flags, 1 | VIRTQ_DESC_F_WRITE);
}

#[test]
fn push_avail_writes_the_slot_and_advances() {
    let mut q = VirtQueue::new(4);
    let wait = q.push_avail(3);
    assert_eq!(q.avail_ring[0], 3);
    assert_eq!(q.avail_idx, 1);
    assert_eq!(wait, 1);
    let wait2 = q.push_avail(1);
    assert_eq!(q.avail_ring[1], 1);
    assert_eq!(wait2, 2);
}

#[test]
fn push_avail_wraps_both_the_slot_and_the_index() {
    let mut q = VirtQueue::new(4);
    q.avail_idx = u16::MAX;
    let wait = q.push_avail(2);
    // slot 0xFFFF mod 4 = 3; the running index wraps to zero
    assert_eq!(q.avail_ring[3], 2);
    assert_eq!(q.avail_idx, 0);
    assert_eq!(wait, 0);
}

#[test]
fn completion_is_reaching_the_pushed_index() {
    assert!(transaction_complete(7, 7));
    assert!(!transaction_complete(6, 7));
    assert!(!transaction_complete(8, 7));
}
