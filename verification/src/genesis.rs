//! Genesis funding derived from the generated transfer set.
//!
//! Before either node starts, every coin that any generated transfer spends
//! must already exist in the genesis state, with the right owner key, coin
//! identifier and amount. This module computes that funding set and proves it
//! covers every input of every transfer.

use vstd::prelude::*;
use crate::transfer::CoinInputModel;
use crate::transfer::Transfer;
use crate::transfer::TransferModel;

verus! {

/// One genesis coin: the key that owns it, the coin identifier under which
/// the chain stores it, and its balance.
#[derive(Clone, Copy, Debug, PartialEq, Eq)]
pub struct GenesisCoin {
    /// The raw signing key whose derived address owns the coin.
    pub owner_key: [u8; 32],
    /// Transaction id part of the coin's identifier.
    pub utxo_tx_id: [u8; 32],
    /// Output index part of the coin's identifier.
    pub utxo_index: u16,
    /// Balance the coin starts with.
    pub amount: u64,
}

/// Mathematical model of a genesis coin.
pub struct GenesisCoinModel {
    pub owner_key: Seq<u8>,
    pub utxo_tx_id: Seq<u8>,
    pub utxo_index: u16,
    pub amount: u64,
}

impl View for GenesisCoin {
    type V = GenesisCoinModel;

    open spec fn view(&self) -> GenesisCoinModel {
        GenesisCoinModel {
            owner_key: self.owner_key@,
            utxo_tx_id: self.utxo_tx_id@,
            utxo_index: self.utxo_index,
            amount: self.amount,
        }
    }
}

/// The genesis coin that funds one coin input.
pub open spec fn spec_coin_for(input: CoinInputModel) -> GenesisCoinModel {
    GenesisCoinModel {
        owner_key: input.secret,
        utxo_tx_id: input.utxo_tx_id,
        utxo_index: input.utxo_index,
        amount: input.amount,
    }
}

/// Whether a genesis coin makes `input` spendable: same owner key, same coin
/// identifier, and a sufficient balance.
pub open spec fn funds(coin: GenesisCoinModel, input: CoinInputModel) -> bool {
    &&& coin.owner_key == input.secret
    &&& coin.utxo_tx_id == input.utxo_tx_id
    &&& coin.utxo_index == input.utxo_index
    &&& coin.amount >= input.amount
}

/// The funding set for a transfer sequence: one coin per input, in transfer
/// order.
pub open spec fn spec_genesis_coins(transfers: Seq<TransferModel>) -> Seq<GenesisCoinModel> {
    Seq::new(
        2 * transfers.len(),
        |j: int| if j % 2 == 0 {
            spec_coin_for(transfers[j / 2].input0)
        } else {
            spec_coin_for(transfers[j / 2].input1)
        },
    )
}

/// Derives the genesis funding set from the full transfer sequence: two coins
/// per transfer, one for each of its inputs.
pub fn genesis_coins(transfers: &Vec<Transfer>) -> (r: Vec<GenesisCoin>)
    ensures
        r@.len() == 2 * transfers@.len(),
        forall|j: int| 0 <= j < r@.len() ==> (#[trigger] r@[j])@ == spec_genesis_coins(
            transfers@.map_values(|t: Transfer| t@),
        )[j],
        r@.map_values(|c: GenesisCoin| c@) == spec_genesis_coins(
            transfers@.map_values(|t: Transfer| t@),
        ),
{
    let ghost models = transfers@.map_values(|t: Transfer| t@);
    let mut out: Vec<GenesisCoin> = Vec::new();
    let mut k: usize = 0;
    while k < transfers.len()
        invariant
            models == transfers@.map_values(|t: Transfer| t@),
            k <= transfers@.len(),
            out@.len() == 2 * k,
            forall|j: int| 0 <= j < out@.len() ==> (#[trigger] out@[j])@ == spec_genesis_coins(
                models,
            )[j],
        decreases transfers@.len() - k,
    {
        let t = &transfers[k];
        out.push(GenesisCoin {
            owner_key: t.input0.secret,
            utxo_tx_id: t.input0.utxo_tx_id,
            utxo_index: t.input0.utxo_index,
            amount: t.input0.amount,
        });
        out.push(GenesisCoin {
            owner_key: t.input1.secret,
            utxo_tx_id: t.input1.utxo_tx_id,
            utxo_index: t.input1.utxo_index,
            amount: t.input1.amount,
        });
        k = k + 1;
    }
    proof {
        assert(out@.map_values(|c: GenesisCoin| c@) =~= spec_genesis_coins(models));
    }
    out
}

/// Whether some coin of the funding set makes `input` spendable.
pub open spec fn covered(coins: Seq<GenesisCoinModel>, input: CoinInputModel) -> bool {
    exists|j: int| 0 <= j < coins.len() && funds(#[trigger] coins[j], input)
}

/// Self-funding: in a funding set derived from a transfer sequence, every
/// input of every transfer is covered by some genesis coin with the same
/// owner key, the same coin identifier, and a sufficient balance.
pub proof fn lemma_self_funding(transfers: Seq<TransferModel>, coins: Seq<GenesisCoinModel>)
    requires
        coins == spec_genesis_coins(transfers),
    ensures
        forall|i: int| 0 <= i < transfers.len() ==> covered(
            coins,
            (#[trigger] transfers[i]).input0,
        ),
        forall|i: int| 0 <= i < transfers.len() ==> covered(
            coins,
            (#[trigger] transfers[i]).input1,
        ),
{
    assert forall|i: int| 0 <= i < transfers.len() implies covered(
        coins,
        (#[trigger] transfers[i]).input0,
    ) && covered(coins, transfers[i].input1) by {
        assert(coins[2 * i] == spec_coin_for(transfers[i].input0));
        assert(funds(coins[2 * i], transfers[i].input0));
        assert(coins[2 * i + 1] == spec_coin_for(transfers[i].input1));
        assert(funds(coins[2 * i + 1], transfers[i].input1));
    }
}

} // verus!
