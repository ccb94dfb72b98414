use k1::memory::{Arena, Pool, PoolHandle, RingBuffer};

#[test]
fn pool_hands_out_slots_from_the_top() {
    let mut p: Pool<u32, 4> = Pool::new();
    assert_eq!(p.capacity(), 4);
    assert_eq!(p.available(), 4);
    assert_eq!(p.used(), 0);
    let a = p.allocate().unwrap();
    let b = p.allocate().unwrap();
    assert_ne!(a, b);
    assert_eq!(p.used(), 2);
    assert_eq!(p.available(), 2);
}

#[test]
fn pool_exhausts_after_capacity() {
    let mut p: Pool<u8, 2> = Pool::new();
    assert!(p.allocate().is_some());
    assert!(p.allocate().is_some());
    assert!(p.allocate().is_none());
    assert_eq!(p.used(), 2);
    assert_eq!(p.available(), 0);
}

#[test]
fn pool_free_undoes_allocate() {
    let mut p: Pool<u8, 3> = Pool::new();
    let h = p.allocate().unwrap();
    p.free(h);
    assert_eq!(p.used(), 0);
    assert_eq!(p.available(), 3);
    assert_eq!(p.allocate().unwrap(), h);
}

#[test]
fn pool_is_last_in_first_out() {
    let mut p: Pool<u8, 3> = Pool::new();
    let a = p.allocate().unwrap();
    let b = p.allocate().unwrap();
    p.free(a);
    assert_eq!(p.allocate().unwrap(), a);
    p.free(b);
    assert_eq!(p.allocate().unwrap(), b);
}

#[test]
fn pool_ignores_null_handle() {
    let mut p: Pool<u8, 2> = Pool::new();
    let _ = p.allocate().unwrap();
    p.free(PoolHandle::null());
    assert_eq!(p.used(), 1);
    assert!(PoolHandle::null().is_null());
    assert!(!p.allocate().unwrap().is_null());
}

#[test]
fn pool_slots_hold_values() {
    let mut p: Pool<u32, 2> = Pool::new();
    let h = p.allocate().unwrap();
    assert_eq!(p.get(h), Some(&0));
    *p.get_uninit_mut(h).unwrap() = 7;
    assert_eq!(p.get(h), Some(&7));
    *p.get_mut(h).unwrap() = 9;
    assert_eq!(p.get(h), Some(&9));
    assert!(p.get(PoolHandle::null()).is_none());
    assert!(p.get_uninit_mut(PoolHandle::null()).is_none());
}

#[test]
fn arena_aligns_and_bumps() {
    let mut a: Arena<64> = Arena::new();
    assert_eq!(a.capacity(), 64);
    let s = a.allocate(3, 1).unwrap();
    assert_eq!(s.len(), 3);
    s[0] = 42;
    assert_eq!(a.used(), 3);
    let t = a.allocate(8, 8).unwrap();
    assert_eq!(t.len(), 8);
    assert_eq!(a.used(), 16);
}

#[test]
fn arena_refuses_what_does_not_fit() {
    let mut a: Arena<16> = Arena::new();
    assert!(a.allocate(10, 1).is_some());
    assert!(a.allocate(8, 1).is_none());
    assert_eq!(a.used(), 10);
    assert!(a.allocate(6, 1).is_some());
    assert_eq!(a.used(), 16);
}

#[test]
fn arena_reset_starts_over() {
    let mut a: Arena<16> = Arena::new();
    a.allocate(5, 4).unwrap()[0] = 1;
    a.reset();
    assert_eq!(a.used(), 0);
    let s = a.allocate(4, 8).unwrap();
    assert_eq!(s[0], 1);
    assert_eq!(a.used(), 4);
}

#[test]
fn ring_read_gives_back_write() {
    let mut r: RingBuffer<8> = RingBuffer::new();
    assert!(r.write(&[1, 2, 3]));
    assert_eq!(r.read(3).unwrap(), &[1, 2, 3]);
}

#[test]
fn ring_write_wraps_around() {
    let mut r: RingBuffer<4> = RingBuffer::new();
    assert!(r.write(&[1, 2, 3]));
    assert!(r.write(&[4, 5]));
    assert_eq!(r.read(4).unwrap(), &[5, 2, 3, 4]);
}

#[test]
fn ring_refuses_oversized() {
    let mut r: RingBuffer<4> = RingBuffer::new();
    assert!(!r.write(&[1, 2, 3, 4, 5]));
    assert!(r.read(5).is_none());
    assert_eq!(r.read(4).unwrap(), &[0, 0, 0, 0]);
}

#[test]
fn pool_handouts_are_distinct_and_not_null() {
    let mut p: Pool<u8, 3> = Pool::new();
    let a = p.allocate().unwrap();
    let b = p.allocate().unwrap();
    let c = p.allocate().unwrap();
    assert!(!a.is_null() && !b.is_null() && !c.is_null());
    assert!(a != b && b != c && a != c);
    p.free(b);
    assert_eq!(p.allocate().unwrap(), b);
    assert!(p.allocate().is_none());
}

#[test]
fn pool_get_returns_what_was_written() {
    let mut p: Pool<u32, 3> = Pool::new();
    let h = p.allocate().unwrap();
    let other = p.allocate().unwrap();
    *p.get_uninit_mut(h).unwrap() = 11;
    assert_eq!(p.get(h), Some(&11));
    assert_eq!(p.get(other), Some(&0));
    assert_eq!(p.get(PoolHandle::null()), None);
    assert_eq!(p.used(), 2);
}

#[test]
fn arena_power_of_two_alignment_rounds_up() {
    let mut a: Arena<64> = Arena::new();
    assert_eq!(a.allocate(1, 1).unwrap().len(), 1);
    assert_eq!(a.allocate(2, 16).unwrap().len(), 2);
    assert_eq!(a.used(), 18);
    assert_eq!(a.allocate(4, 4).unwrap().len(), 4);
    assert_eq!(a.used(), 24);
    assert!(a.used() <= a.capacity());
}

#[test]
fn ring_read_has_requested_length() {
    let mut r: RingBuffer<6> = RingBuffer::new();
    assert!(r.write(&[9, 8]));
    assert_eq!(r.read(2).unwrap().len(), 2);
    assert_eq!(r.read(4).unwrap(), &[0, 0, 0, 0]);
    assert_eq!(r.read(6).unwrap().len(), 6);
}

#[test]
fn pool_get_does_not_check_liveness() {
    let mut p: Pool<u32, 2> = Pool::new();
    let h = p.allocate().unwrap();
    *p.get_mut(h).unwrap() = 5;
    p.free(h);
    assert_eq!(p.get(h), Some(&5));
    assert_eq!(p.available(), 2);
}
