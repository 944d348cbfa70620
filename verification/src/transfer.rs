//! The transfer-transaction model and its deterministic generator.
//!
//! A transfer spends two freshly keyed coin inputs of a fixed amount and
//! produces a fixed payment output plus a change output. The whole sequence
//! of transfers for a run is derived from one seeded random stream, six
//! 32-byte blocks per transfer, so the sequence is a pure function of the
//! seed and the count.

use vstd::prelude::*;
use crate::rng::SeededRng;
use crate::rng::block_at;

verus! {

/// Amount carried by every generated coin input.
pub const INPUT_AMOUNT: u64 = 1000;
/// Amount of the payment output of every transfer.
pub const TRANSFER_AMOUNT: u64 = 50;
/// Declared amount of the change output (the executing node computes the
/// actual change).
pub const CHANGE_AMOUNT: u64 = 0;
/// Execution budget of every transfer.
pub const SCRIPT_GAS_LIMIT: u64 = 10000;
/// Fixed minimal non-zero priority fee, so the transfer is always admissible.
pub const TIP_AMOUNT: u64 = 1;

/// Blocks of the random stream consumed per generated transfer.
pub const BLOCKS_PER_TRANSFER: u64 = 6;

/// A coin input: a single-use signing key, the coin it spends, and the amount.
#[derive(Clone, Copy, Debug, PartialEq, Eq)]
pub struct CoinInput {
    /// The raw signing key whose derived address owns the coin.
    pub secret: [u8; 32],
    /// Transaction id part of the spent coin's identifier.
    pub utxo_tx_id: [u8; 32],
    /// Output index part of the spent coin's identifier.
    pub utxo_index: u16,
    /// Amount the input provides.
    pub amount: u64,
}

/// Mathematical model of a coin input.
pub struct CoinInputModel {
    pub secret: Seq<u8>,
    pub utxo_tx_id: Seq<u8>,
    pub utxo_index: u16,
    pub amount: u64,
}

impl View for CoinInput {
    type V = CoinInputModel;

    open spec fn view(&self) -> CoinInputModel {
        CoinInputModel {
            secret: self.secret@,
            utxo_tx_id: self.utxo_tx_id@,
            utxo_index: self.utxo_index,
            amount: self.amount,
        }
    }
}

/// A self-funded transfer: two keyed inputs, a payment output and a change
/// output.
#[derive(Clone, Copy, Debug, PartialEq, Eq)]
pub struct Transfer {
    pub input0: CoinInput,
    pub input1: CoinInput,
    /// Recipient of the payment output.
    pub recipient: [u8; 32],
    /// Amount of the payment output.
    pub transfer_amount: u64,
    /// Address the change output returns the remainder to.
    pub change_to: [u8; 32],
}

/// Mathematical model of a transfer.
pub struct TransferModel {
    pub input0: CoinInputModel,
    pub input1: CoinInputModel,
    pub recipient: Seq<u8>,
    pub transfer_amount: u64,
    pub change_to: Seq<u8>,
}

impl View for Transfer {
    type V = TransferModel;

    open spec fn view(&self) -> TransferModel {
        TransferModel {
            input0: self.input0@,
            input1: self.input1@,
            recipient: self.recipient@,
            transfer_amount: self.transfer_amount,
            change_to: self.change_to@,
        }
    }
}

impl TransferModel {
    /// The builder's invariant: the declared outputs never exceed the inputs,
    /// so a generated transfer is always admissible.
    pub open spec fn wf(self) -> bool {
        self.transfer_amount + CHANGE_AMOUNT <= self.input0.amount + self.input1.amount
    }
}

/// The output index carried in a coin identifier, read from the first two
/// bytes of a drawn block.
pub open spec fn spec_index_from_block(b: Seq<u8>) -> u16
    recommends
        b.len() >= 2,
{
    (b[0] * 256 + b[1]) as u16
}

/// The coin input derived from the blocks at positions `d` and `d + 1` of the
/// stream for `seed`.
pub open spec fn spec_coin_input(seed: u64, d: nat) -> CoinInputModel {
    CoinInputModel {
        secret: block_at(seed, d),
        utxo_tx_id: block_at(seed, d + 1),
        utxo_index: spec_index_from_block(block_at(seed, d + 1)),
        amount: INPUT_AMOUNT,
    }
}

/// The `i`-th transfer of the stream for `seed`: it consumes the six blocks
/// at positions `6 * i` through `6 * i + 5`.
pub open spec fn spec_transfer(seed: u64, i: nat) -> TransferModel {
    TransferModel {
        input0: spec_coin_input(seed, (BLOCKS_PER_TRANSFER * i) as nat),
        input1: spec_coin_input(seed, (BLOCKS_PER_TRANSFER * i + 2) as nat),
        recipient: block_at(seed, (BLOCKS_PER_TRANSFER * i + 4) as nat),
        transfer_amount: TRANSFER_AMOUNT,
        change_to: block_at(seed, (BLOCKS_PER_TRANSFER * i + 5) as nat),
    }
}

/// The whole generated sequence for a seed and a count.
pub open spec fn spec_transfers(seed: u64, count: nat) -> Seq<TransferModel> {
    Seq::new(count, |i: int| spec_transfer(seed, i as nat))
}

/// Draws the next coin input (two blocks) from the stream.
fn next_coin_input(rng: &mut SeededRng) -> (r: CoinInput)
    ensures
        final(rng).seed() == old(rng).seed(),
        final(rng).drawn() == old(rng).drawn() + 2,
        r@ == spec_coin_input(old(rng).seed(), old(rng).drawn()),
{
    let secret = rng.draw_block();
    let utxo_tx_id = rng.draw_block();
    let utxo_index: u16 = (utxo_tx_id[0] as u16) * 256 + (utxo_tx_id[1] as u16);
    CoinInput { secret, utxo_tx_id, utxo_index, amount: INPUT_AMOUNT }
}

/// Draws the next transfer (six blocks) from the stream.
fn next_transfer(rng: &mut SeededRng) -> (r: Transfer)
    ensures
        final(rng).seed() == old(rng).seed(),
        final(rng).drawn() == old(rng).drawn() + BLOCKS_PER_TRANSFER,
        old(rng).drawn() % (BLOCKS_PER_TRANSFER as nat) == 0 ==> r@ == spec_transfer(
            old(rng).seed(),
            old(rng).drawn() / (BLOCKS_PER_TRANSFER as nat),
        ),
{
    let input0 = next_coin_input(rng);
    let input1 = next_coin_input(rng);
    let recipient = rng.draw_block();
    let change_to = rng.draw_block();
    Transfer { input0, input1, recipient, transfer_amount: TRANSFER_AMOUNT, change_to }
}

/// Generates the whole ordered transfer sequence for a run: `count`
/// transfers, each a pure function of `seed` and its position.
pub fn generate_transfers(seed: u64, count: usize) -> (r: Vec<Transfer>)
    ensures
        r@.len() == count,
        forall|i: int| 0 <= i < count ==> (#[trigger] r@[i])@ == spec_transfer(seed, i as nat),
        r@.map_values(|t: Transfer| t@) == spec_transfers(seed, count as nat),
{
    let mut rng = SeededRng::new(seed);
    let mut out: Vec<Transfer> = Vec::new();
    let mut k: usize = 0;
    while k < count
        invariant
            rng.seed() == seed,
            rng.drawn() == BLOCKS_PER_TRANSFER * k,
            out@.len() == k,
            k <= count,
            forall|i: int| 0 <= i < k ==> (#[trigger] out@[i])@ == spec_transfer(seed, i as nat),
        decreases count - k,
    {
        proof {
            assert((BLOCKS_PER_TRANSFER * k) as nat % (BLOCKS_PER_TRANSFER as nat) == 0
                && (BLOCKS_PER_TRANSFER * k) as nat / (BLOCKS_PER_TRANSFER as nat) == k as nat)
                by (nonlinear_arith);
        }
        let t = next_transfer(&mut rng);
        out.push(t);
        k = k + 1;
    }
    proof {
        assert(out@.map_values(|t: Transfer| t@) =~= spec_transfers(seed, count as nat));
    }
    out
}

/// The `i`-th batch of the pre-generated sequence: the `size` transfers from
/// position `i * size` on, in order. Batch `i` is what the harness submits
/// before it asks for the block at height `i + 1`.
pub fn take_batch(transfers: &Vec<Transfer>, i: usize, size: usize) -> (r: Vec<Transfer>)
    requires
        (i + 1) * size <= transfers@.len(),
    ensures
        r@ == transfers@.subrange((i * size) as int, (i * size + size) as int),
{
    let n: usize = transfers.len();
    proof {
        assert(i * size + size == (i + 1) * size) by (nonlinear_arith);
        assert(i * size >= 0) by (nonlinear_arith);
        assert(i * size + size <= n);
    }
    let start: usize = i * size;
    let mut out: Vec<Transfer> = Vec::new();
    let mut k: usize = 0;
    while k < size
        invariant
            start == i * size,
            n == transfers@.len(),
            start + size <= n,
            k <= size,
            out@.len() == k,
            forall|j: int| 0 <= j < k ==> #[trigger] out@[j] == transfers@[start + j],
        decreases size - k,
    {
        out.push(transfers[start + k]);
        k = k + 1;
    }
    proof {
        assert(out@ =~= transfers@.subrange((i * size) as int, (i * size + size) as int));
    }
    out
}

/// Determinism: two generated sequences with the same seed and count are the
/// same sequence. The inputs are exactly what `generate_transfers` ensures of
/// its result, so any two independent runs agree element for element.
pub proof fn lemma_generation_deterministic(
    a: Seq<TransferModel>,
    b: Seq<TransferModel>,
    seed: u64,
    count: nat,
)
    requires
        a.len() == count,
        b.len() == count,
        forall|i: int| 0 <= i < count ==> #[trigger] a[i] == spec_transfer(seed, i as nat),
        forall|i: int| 0 <= i < count ==> #[trigger] b[i] == spec_transfer(seed, i as nat),
    ensures
        a == b,
{
    assert(a =~= b);
}

/// Every generated transfer meets the builder's invariant: its declared
/// outputs never exceed its inputs.
pub proof fn lemma_generated_transfer_wf(seed: u64, i: nat)
    ensures
        spec_transfer(seed, i).wf(),
{
}

} // verus!
