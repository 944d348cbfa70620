use rand::Rng;
use rand::SeedableRng;
use traffic_harness::transfer::generate_transfers;
use traffic_harness::transfer::take_batch;
use traffic_harness::transfer::INPUT_AMOUNT;
use traffic_harness::transfer::TRANSFER_AMOUNT;

#[test]
fn same_seed_same_sequence() {
    let a = generate_transfers(2322, 40);
    let b = generate_transfers(2322, 40);
    assert_eq!(a, b);
}

#[test]
fn prefix_agrees_across_counts() {
    let long = generate_transfers(7, 30);
    let short = generate_transfers(7, 5);
    assert_eq!(&long[..5], &short[..]);
}

#[test]
fn different_seeds_differ() {
    let a = generate_transfers(1, 3);
    let b = generate_transfers(2, 3);
    assert_ne!(a, b);
}

#[test]
fn zero_count_is_empty() {
    let ts = generate_transfers(99, 0);
    assert!(ts.is_empty());
}

#[test]
fn matches_raw_rand_stream() {
    // The generator must replay the exact draw sequence of rand's StdRng:
    // six 32-byte blocks per transfer, in field order.
    let ts = generate_transfers(41, 2);
    let mut rng = rand::rngs::StdRng::seed_from_u64(41);
    for t in &ts {
        let secret0: [u8; 32] = rng.gen();
        let utxo0: [u8; 32] = rng.gen();
        let secret1: [u8; 32] = rng.gen();
        let utxo1: [u8; 32] = rng.gen();
        let recipient: [u8; 32] = rng.gen();
        let change_to: [u8; 32] = rng.gen();
        assert_eq!(t.input0.secret, secret0);
        assert_eq!(t.input0.utxo_tx_id, utxo0);
        assert_eq!(
            t.input0.utxo_index,
            (utxo0[0] as u16) * 256 + (utxo0[1] as u16)
        );
        assert_eq!(t.input1.secret, secret1);
        assert_eq!(t.input1.utxo_tx_id, utxo1);
        assert_eq!(
            t.input1.utxo_index,
            (utxo1[0] as u16) * 256 + (utxo1[1] as u16)
        );
        assert_eq!(t.recipient, recipient);
        assert_eq!(t.change_to, change_to);
    }
}

#[test]
fn fixed_amounts() {
    let ts = generate_transfers(13, 4);
    for t in &ts {
        assert_eq!(t.input0.amount, INPUT_AMOUNT);
        assert_eq!(t.input1.amount, INPUT_AMOUNT);
        assert_eq!(t.transfer_amount, TRANSFER_AMOUNT);
        // The declared outputs never exceed the inputs.
        assert!(t.transfer_amount <= t.input0.amount + t.input1.amount);
    }
}

#[test]
fn batches_partition_the_sequence() {
    let ts = generate_transfers(2322, 20);
    let first = take_batch(&ts, 0, 5);
    let last = take_batch(&ts, 3, 5);
    assert_eq!(&first[..], &ts[0..5]);
    assert_eq!(&last[..], &ts[15..20]);
    assert_eq!(first.len(), 5);
}
