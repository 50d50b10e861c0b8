use guilible::flag::ReadyFlag;
use guilible::pool::BufferPool;
use guilible::stage::{supply_storage, Supply};

#[test]
fn empty_pool_has_nothing_to_hand_out() {
    let mut pool: BufferPool<u32> = BufferPool::new(1024, true);
    assert_eq!(pool.buffer_size(), 1024);
    assert_eq!(pool.len(), 0);
    assert!(pool.request(None).is_none());
    assert!(pool.request(Some(512)).is_none());
    assert_eq!(pool.buffer_size(), 1024);
}

#[test]
fn adopted_buffer_is_held_and_kept() {
    let mut pool: BufferPool<u32> = BufferPool::new(1024, true);
    let b = pool.adopt(7);
    assert_eq!(b.buffer, 7);
    assert_eq!(b.size, 1024);
    assert!(!b.ready.is_ready());
    assert_eq!(pool.len(), 1);
    // still held: not handed out again
    assert!(pool.request(None).is_none());
    b.ready.release();
    let again = pool.request(Some(1000)).unwrap();
    assert_eq!(again.buffer, 7);
    assert_eq!(again.size, 1024);
    assert!(!b.ready.is_ready());
    assert!(pool.request(None).is_none());
}

#[test]
fn request_takes_first_free_buffer() {
    let mut pool: BufferPool<u32> = BufferPool::new(64, true);
    let a = pool.adopt(1);
    let b = pool.adopt(2);
    assert_eq!(pool.len(), 2);
    b.ready.release();
    assert_eq!(pool.request(None).unwrap().buffer, 2);
    a.ready.release();
    b.ready.release();
    assert_eq!(pool.request(None).unwrap().buffer, 1);
    assert_eq!(pool.request(None).unwrap().buffer, 2);
    assert!(pool.request(None).is_none());
}

#[test]
fn growth_doubles_and_drops_kept_buffers() {
    let mut pool: BufferPool<u32> = BufferPool::new(1024, true);
    let a = pool.adopt(1);
    a.ready.release();
    assert!(pool.request(Some(1025)).is_none());
    assert_eq!(pool.buffer_size(), 2048);
    assert_eq!(pool.len(), 0);
    pool.check_size(Some(5000));
    assert_eq!(pool.buffer_size(), 8192);
    pool.check_size(None);
    pool.check_size(Some(3));
    assert_eq!(pool.buffer_size(), 8192);
}

#[test]
fn buffer_size_never_shrinks() {
    let mut pool: BufferPool<u32> = BufferPool::new(4096, true);
    let mut last = pool.buffer_size();
    for m in [Some(1u64), None, Some(4096), Some(4097), Some(100), Some(70_000), None] {
        let _ = pool.request(m);
        assert!(pool.buffer_size() >= last);
        if let Some(m) = m {
            assert!(pool.buffer_size() >= m);
        }
        last = pool.buffer_size();
    }
    assert_eq!(last, 131_072);
}

#[test]
fn growth_ramp_reaches_a_million_quads() {
    let mut pool: BufferPool<u32> = BufferPool::new(1024, true);
    let expected = [1024u64, 2048, 8192, 131_072, 33_554_432];
    let mut prev = pool.buffer_size();
    for (k, want) in [32u64, 64, 256, 4096, 1_000_000].iter().zip(expected.iter()) {
        let m = 32 * k;
        let got = match pool.request(Some(m)) {
            Some(b) => b.size,
            None => pool.adopt(0).size,
        };
        assert!(got >= m);
        assert_eq!(pool.buffer_size(), *want);
        // never past one doubling beyond what the request needs
        assert!(pool.buffer_size() == prev || pool.buffer_size() < 2 * m);
        prev = pool.buffer_size();
    }
    assert!(pool.buffer_size() >= 32 * 1_000_000);
}

#[test]
fn size_for_reports_overflow() {
    let pool: BufferPool<u32> = BufferPool::new(1024, true);
    assert_eq!(pool.size_for(None), Some(1024));
    assert_eq!(pool.size_for(Some(1000)), Some(1024));
    assert_eq!(pool.size_for(Some(1025)), Some(2048));
    assert_eq!(pool.size_for(Some(1u64 << 63)), Some(1u64 << 63));
    assert_eq!(pool.size_for(Some((1u64 << 63) + 1)), None);
    assert_eq!(pool.size_for(Some(u64::MAX)), None);
    let odd: BufferPool<u32> = BufferPool::new(3, true);
    assert_eq!(odd.size_for(Some(3u64 << 62)), Some(3u64 << 62));
    assert_eq!(odd.size_for(Some((3u64 << 62) + 1)), None);
    assert_eq!(odd.size_for(Some(u64::MAX)), None);
}

#[test]
fn one_shot_pool_keeps_nothing() {
    let mut pool: BufferPool<u32> = BufferPool::new(256, false);
    let a = pool.adopt(9);
    assert_eq!(a.size, 256);
    assert_eq!(pool.len(), 0);
    a.ready.release();
    assert!(pool.request(None).is_none());
}

#[test]
fn supply_uses_large_enough_buffer() {
    let mut pool: BufferPool<u32> = BufferPool::new(1024, false);
    let held = pool.adopt(3);
    match supply_storage(&mut pool, held, 1024) {
        Supply::Ready(b) => {
            assert_eq!(b.buffer, 3);
            assert!(!b.ready.is_ready());
        }
        Supply::Allocate(_) => panic!("expected the held buffer"),
    }
    assert_eq!(pool.buffer_size(), 1024);
}

#[test]
fn supply_grows_for_larger_message() {
    let mut pool: BufferPool<u32> = BufferPool::new(1024, true);
    let held = pool.adopt(3);
    let flag: ReadyFlag = held.ready.clone();
    match supply_storage(&mut pool, held, 3000) {
        Supply::Allocate(size) => assert_eq!(size, 4096),
        Supply::Ready(_) => panic!("nothing of 4096 bytes exists yet"),
    }
    assert_eq!(pool.buffer_size(), 4096);
    assert_eq!(pool.len(), 0);
    // the small buffer was handed back
    assert!(flag.is_ready());
    assert_eq!(pool.adopt(4).size, 4096);
}
