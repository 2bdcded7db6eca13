use multi_test::block::{next_block, BlockInfo};

fn block(height: u64, time: u64) -> BlockInfo {
    BlockInfo { height, time, chain_id: "cosmos-testnet-14002".to_string() }
}

#[test]
fn next_block_adds_one_height_and_five_seconds() {
    let mut b = block(12_345, 1_571_797_419_879_305_533);
    next_block(&mut b);
    assert_eq!(b.height, 12_346);
    assert_eq!(b.time, 1_571_797_424_879_305_533);
    assert_eq!(b.chain_id, "cosmos-testnet-14002");
}

#[test]
fn next_block_from_genesis() {
    let mut b = block(0, 0);
    next_block(&mut b);
    next_block(&mut b);
    assert_eq!(b.height, 2);
    assert_eq!(b.time, 10_000_000_000);
}

#[test]
fn next_block_up_to_the_last_time() {
    let mut b = block(7, u64::MAX - 5_000_000_000);
    next_block(&mut b);
    assert_eq!(b.time, u64::MAX);
    assert_eq!(b.height, 8);
}

#[test]
fn duplicate_copies_every_field() {
    let b = block(3, 4);
    let c = b.duplicate();
    assert_eq!((c.height, c.time, c.chain_id.as_str()), (3, 4, "cosmos-testnet-14002"));
}

#[test]
fn next_block_repeated_n_times() {
    let mut b = block(100, 1_000);
    for _ in 0..10 {
        let (h, t) = (b.height, b.time);
        next_block(&mut b);
        assert!(b.height > h && b.time > t);
    }
    assert_eq!(b.height, 110);
    assert_eq!(b.time, 1_000 + 10 * 5_000_000_000);
    assert_eq!(b.chain_id, "cosmos-testnet-14002");
}
