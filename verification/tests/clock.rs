use otter_solana::program::clock::{Clock, NOW};
use std::time::{SystemTime, UNIX_EPOCH};

#[test]
fn test_time() {
    let x = SystemTime::now()
        .duration_since(UNIX_EPOCH)
        .unwrap()
        .as_secs();
    println!("{:?}", x);
}

#[test]
fn clock_stands_still() {
    let first = Clock::get().unwrap();
    let second = Clock::get().unwrap();
    assert_eq!(first.unix_timestamp, 1697536229);
    assert_eq!(first, second);
    assert_eq!(NOW, 1697536229);
    assert_eq!(Clock::default().unix_timestamp, 0);
}
