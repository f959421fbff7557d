use rsfchat::scrollback::DroppingBuf;

#[test]
fn insert_keeps_most_recent() {
    let mut buf: DroppingBuf<u32> = DroppingBuf::with_capacity(3);
    for i in 1..=5u32 {
        buf.insert(i);
    }
    assert_eq!(buf.len(), 3);
    assert_eq!(*buf.get(0), 5);
    assert_eq!(*buf.get(1), 4);
    assert_eq!(*buf.get(2), 3);
}

#[test]
fn insert_below_capacity_keeps_everything() {
    let mut buf: DroppingBuf<u32> = DroppingBuf::with_capacity(4);
    buf.insert(10);
    buf.insert(20);
    assert_eq!(buf.len(), 2);
    assert_eq!(*buf.get(0), 20);
    assert_eq!(*buf.get(1), 10);
}

#[test]
fn zero_capacity_retains_nothing() {
    let mut buf: DroppingBuf<u32> = DroppingBuf::with_capacity(0);
    buf.insert(1);
    buf.insert(2);
    assert_eq!(buf.len(), 0);
}

#[test]
fn resize_shrink_keeps_newest_in_order() {
    let mut buf: DroppingBuf<u32> = DroppingBuf::with_capacity(5);
    for i in 1..=4u32 {
        buf.insert(i);
    }
    buf.resize(2);
    assert_eq!(buf.len(), 2);
    assert_eq!(*buf.get(0), 4);
    assert_eq!(*buf.get(1), 3);
}

#[test]
fn resize_grow_preserves_content() {
    let mut buf: DroppingBuf<u32> = DroppingBuf::with_capacity(2);
    buf.insert(1);
    buf.insert(2);
    buf.insert(3);
    buf.resize(4);
    assert_eq!(buf.len(), 2);
    assert_eq!(*buf.get(0), 3);
    assert_eq!(*buf.get(1), 2);
    buf.insert(4);
    buf.insert(5);
    assert_eq!(buf.len(), 4);
    assert_eq!(*buf.get(0), 5);
    assert_eq!(*buf.get(3), 2);
}

#[test]
fn resize_to_same_size_is_a_noop() {
    let mut buf: DroppingBuf<u32> = DroppingBuf::with_capacity(3);
    buf.insert(7);
    buf.insert(8);
    buf.resize(3);
    assert_eq!(buf.len(), 2);
    assert_eq!(*buf.get(0), 8);
    assert_eq!(*buf.get(1), 7);
}

#[test]
fn resize_to_zero_clears() {
    let mut buf: DroppingBuf<u32> = DroppingBuf::with_capacity(3);
    buf.insert(7);
    buf.insert(8);
    buf.resize(0);
    assert_eq!(buf.len(), 0);
}

#[test]
fn eviction_wraps_around_many_times() {
    let mut buf: DroppingBuf<u32> = DroppingBuf::with_capacity(2);
    for i in 0..100u32 {
        buf.insert(i);
    }
    assert_eq!(buf.len(), 2);
    assert_eq!(*buf.get(0), 99);
    assert_eq!(*buf.get(1), 98);
}
