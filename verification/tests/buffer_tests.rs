use tb_rs::buffer::{BufferPool, OwnedBuf};

#[test]
fn test_owned_buf() {
    let mut buf = OwnedBuf::with_capacity(1024);
    assert_eq!(buf.capacity(), 1024);
    assert_eq!(buf.len(), 0);

    buf.as_mut_slice()[..5].copy_from_slice(b"hello");
    buf.set_len(5);
    assert_eq!(buf.as_slice(), b"hello");
}

#[test]
fn test_buffer_pool() {
    let mut pool = BufferPool::new(2, 1024);

    let buf1 = pool.acquire().unwrap();
    let buf2 = pool.acquire().unwrap();
    assert_eq!(buf1.capacity(), 1024);
    assert_eq!(buf2.capacity(), 1024);

    pool.release(buf1);
    pool.release(buf2);
}

#[test]
fn test_poisoned_buffer() {
    let mut pool = BufferPool::new(1, 1024);

    let mut buf = pool.acquire().unwrap();
    buf.poison();
    pool.release(buf);

    // The poisoned buffer stays in quarantine; a fresh clean buffer is
    // allocated in its place.
    let buf2 = pool.acquire().unwrap();
    assert!(!buf2.is_poisoned());
}

#[test]
fn test_quarantine_not_reused_before_drain() {
    let mut pool = BufferPool::new(1, 16);
    let mut held = pool.acquire().unwrap();
    held.as_mut_slice()[0] = 0xAB;
    held.poison();
    pool.release(held);

    // While a cancelled submission may still write into the quarantined
    // buffer it must not be handed out again: a fresh zero-filled buffer
    // arrives instead.
    let mut fresh = pool.acquire().unwrap();
    assert!(!fresh.is_poisoned());
    assert_eq!(fresh.capacity(), 16);
    fresh.set_len(1);
    assert_eq!(fresh.as_slice()[0], 0x00);

    // Only the close-time drain returns the quarantined buffer — the very
    // same storage, reset.
    pool.clear_quarantine();
    let mut back = pool.acquire().unwrap();
    assert!(!back.is_poisoned());
    back.set_len(1);
    assert_eq!(back.as_slice()[0], 0xAB);
}

#[test]
fn test_quarantine_drained_at_close() {
    let mut pool = BufferPool::new(2, 64);
    let mut a = pool.acquire().unwrap();
    let b = pool.acquire().unwrap();
    a.poison();
    pool.release(a);
    pool.release(b);
    // One clean buffer and one in quarantine; a fresh acquire drains
    // nothing yet, but clearing the quarantine returns both to use.
    pool.clear_quarantine();
    let c = pool.acquire().unwrap();
    let d = pool.acquire().unwrap();
    assert!(!c.is_poisoned());
    assert!(!d.is_poisoned());
}
