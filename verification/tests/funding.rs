use traffic_harness::genesis::genesis_coins;
use traffic_harness::transfer::generate_transfers;

#[test]
fn two_coins_per_transfer() {
    let ts = generate_transfers(2322, 12);
    let coins = genesis_coins(&ts);
    assert_eq!(coins.len(), 24);
}

#[test]
fn every_input_is_funded() {
    let ts = generate_transfers(5, 8);
    let coins = genesis_coins(&ts);
    for t in &ts {
        for input in [&t.input0, &t.input1] {
            let funded = coins.iter().any(|c| {
                c.owner_key == input.secret
                    && c.utxo_tx_id == input.utxo_tx_id
                    && c.utxo_index == input.utxo_index
                    && c.amount >= input.amount
            });
            assert!(funded);
        }
    }
}

#[test]
fn coins_keep_transfer_order() {
    let ts = generate_transfers(9, 3);
    let coins = genesis_coins(&ts);
    for (i, t) in ts.iter().enumerate() {
        assert_eq!(coins[2 * i].owner_key, t.input0.secret);
        assert_eq!(coins[2 * i].amount, t.input0.amount);
        assert_eq!(coins[2 * i + 1].owner_key, t.input1.secret);
        assert_eq!(coins[2 * i + 1].utxo_tx_id, t.input1.utxo_tx_id);
    }
}

#[test]
fn empty_set_needs_no_funding() {
    let ts = generate_transfers(1, 0);
    let coins = genesis_coins(&ts);
    assert!(coins.is_empty());
}
