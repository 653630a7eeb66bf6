use otter_solana::pool::{Pool, CAP};

#[test]
fn supplied_resources_come_back_in_order() {
    for n in 0..=CAP {
        let mut pool: Pool<u64> = Pool::init();
        for i in 0..n {
            assert!(pool.can_supply());
            pool.expect_unpack(100 + i as u64);
        }
        for i in 0..n {
            assert!(pool.can_take());
            assert_eq!(pool.get_next(), 100 + i as u64);
        }
        assert!(!pool.can_take());
        assert_eq!(pool.num_used(), n);
    }
}

#[test]
fn full_pool_takes_no_more() {
    let mut pool: Pool<u8> = Pool::init();
    for i in 0..CAP {
        pool.expect_unpack(i as u8);
    }
    assert!(!pool.can_supply());
}

#[test]
fn repack_only_after_take() {
    let mut pool: Pool<u32> = Pool::init();
    pool.expect_unpack(1);
    pool.expect_unpack(2);
    assert!(!pool.can_repack());
    let first = pool.get_next();
    assert!(pool.can_repack());
    pool.repack(first + 10);
    assert!(!pool.can_repack());
    assert_eq!(pool.num_packed(), 1);
}

#[test]
fn packed_values_are_the_repacked_ones() {
    let mut pool: Pool<u32> = Pool::init();
    pool.expect_unpack(5);
    pool.expect_unpack(6);
    pool.expect_unpack(7);
    let a = pool.get_next();
    let b = pool.get_next();
    pool.repack(a * 2);
    let c = pool.get_next();
    pool.repack(b * 2);
    pool.repack(c * 2);
    assert_eq!(pool.num_packed(), 3);
    assert_eq!(pool.get_packed(0), 10);
    assert_eq!(pool.get_packed(1), 12);
    assert_eq!(pool.get_packed(2), 14);
    assert_eq!(pool.num_used(), 3);
}

#[test]
fn supply_after_repack_keeps_packed_values() {
    let mut pool: Pool<u32> = Pool::init();
    pool.expect_unpack(1);
    assert_eq!(pool.get_next(), 1);
    pool.repack(9);
    pool.expect_unpack(2);
    assert_eq!(pool.get_packed(0), 9);
    assert_eq!(pool.get_next(), 2);
}
