//! Assembling a generated transfer into the node library's signed
//! transaction.
//!
//! The node library owns the transaction wire format, its content-addressed
//! id and the signature scheme, so each builder call stands behind one
//! trusted wrapper. An in-progress builder carries a ghost model of
//! everything fed into it so far; each wrapper states exactly how its call
//! extends that content, and sealing is named `assembled_from`: signing is
//! deterministic (RFC6979), so the sealed transaction is a pure function of
//! the builder's content. The verified code sequences the wrappers and proves
//! the content it fed equals `spec_assembly` of the transfer, which pins the
//! assembled transaction to the transfer alone. The builder itself sits
//! inside an opaque holder because its type, `TransactionBuilder<Script>`, is
//! instantiated at types that fuel_tx does not export by name, so it cannot
//! be declared to the verifier directly.
//!
//! A transfer whose drawn key bytes are not a valid scalar is refused here
//! with an exact contract, where a generator drawing keys through the crypto
//! library would silently resample (the case has probability about 2^-128
//! per key); refusal keeps the generated sequence a pure function of the
//! stream.

use vstd::prelude::*;
use crate::transfer::CHANGE_AMOUNT;
use crate::transfer::CoinInputModel;
use crate::transfer::SCRIPT_GAS_LIMIT;
use crate::transfer::TIP_AMOUNT;
use crate::transfer::Transfer;
use crate::transfer::TransferModel;
use fuel_core_types::fuel_crypto::SecretKey;
use fuel_core_types::fuel_tx::Output;
use fuel_core_types::fuel_tx::Script;
use fuel_core_types::fuel_tx::Transaction;
use fuel_core_types::fuel_tx::TransactionBuilder;

verus! {

#[verifier::external_type_specification]
#[verifier::external_body]
pub struct ExTransaction(Transaction);

/// An output as fed into the builder.
#[verifier::ext_equal]
pub enum OutputModel {
    /// A payment output of the base asset.
    Coin { to: Seq<u8>, amount: u64 },
    /// A change output of the base asset.
    Change { to: Seq<u8>, amount: u64 },
}

/// Everything fed into an in-progress builder, in order: the execution
/// budget, the priority fee (`None` while the tip policy was never set, which
/// the node library distinguishes from a tip of zero), and the input and
/// output lists. Inputs and outputs are always of the base asset with default
/// pointer metadata, as the wrappers below fix.
#[verifier::ext_equal]
pub struct BuilderContent {
    pub gas_limit: u64,
    pub tip: Option<u64>,
    pub inputs: Seq<CoinInputModel>,
    pub outputs: Seq<OutputModel>,
}

/// The content of a fresh script builder: an empty program with no data, no
/// inputs, no outputs, and no policies beyond the builder's fixed baseline.
pub open spec fn fresh_content() -> BuilderContent {
    BuilderContent { gas_limit: 0, tip: None, inputs: Seq::empty(), outputs: Seq::empty() }
}

/// Opaque holder of the node library's script-transaction builder.
#[verifier::external_body]
struct BuilderHolder {
    builder: TransactionBuilder<Script>,
}

/// An in-progress script transaction, with a ghost model of everything fed
/// into it. The holder is private and touched only by the trusted wrappers
/// below, which keep the content model in step with the real builder.
pub struct ScriptBuilder {
    inner: BuilderHolder,
    content: Ghost<BuilderContent>,
}

impl ScriptBuilder {
    /// Everything fed into this builder so far.
    pub closed spec fn content(self) -> BuilderContent {
        self.content@
    }
}

/// Whether 32 raw bytes are a valid signing key, that is, a valid non-zero
/// scalar of the signature curve. A pure function of the bytes.
pub uninterp spec fn valid_secret(bytes: Seq<u8>) -> bool;

/// The sealed transaction that the builder yields for a given content:
/// signing is RFC6979-deterministic, so it is a pure function of everything
/// fed into the builder.
pub uninterp spec fn assembled_from(content: BuilderContent) -> Transaction;

/// Relies on fuel_crypto's `SecretKey::try_from` for `&[u8]`: on 32 bytes it
/// succeeds exactly when they are a valid non-zero curve scalar, named
/// `valid_secret` here.
#[verifier::external_body]
fn secret_is_valid(bytes: &[u8; 32]) -> (r: bool)
    ensures
        r == valid_secret(bytes@),
{
    SecretKey::try_from(&bytes[..]).is_ok()
}

/// Relies on fuel_tx's `TransactionBuilder::script`: a fresh builder for a
/// script transaction with an empty program and no data.
#[verifier::external_body]
fn holder_new() -> BuilderHolder {
    BuilderHolder { builder: TransactionBuilder::script(vec![], vec![]) }
}

/// A fresh script builder with empty content.
fn builder_new() -> (r: ScriptBuilder)
    ensures
        r.content() == fresh_content(),
{
    ScriptBuilder { inner: holder_new(), content: Ghost(fresh_content()) }
}

/// Relies on fuel_tx's `TransactionBuilder::script_gas_limit`: sets the
/// transaction's execution budget.
#[verifier::external_body]
fn builder_script_gas_limit(sb: &mut ScriptBuilder, gas_limit: u64)
    ensures
        final(sb).content() == (BuilderContent { gas_limit, ..old(sb).content() }),
{
    sb.inner.builder.script_gas_limit(gas_limit);
}

/// Relies on fuel_tx's `TransactionBuilder::tip`: sets the transaction's
/// priority-fee policy.
#[verifier::external_body]
fn builder_tip(sb: &mut ScriptBuilder, tip: u64)
    ensures
        final(sb).content() == (BuilderContent { tip: Some(tip), ..old(sb).content() }),
{
    sb.inner.builder.tip(tip);
}

/// Relies on fuel_tx's `TransactionBuilder::add_unsigned_coin_input`: appends
/// a coin input spending the given coin of the base asset, owned by the key,
/// and schedules a witness signature by that key. The key itself is rebuilt
/// from the raw bytes by `SecretKey::try_from`, which the first precondition
/// keeps from failing. The builder panics once the accumulated witnesses
/// exceed the standard parameters' bound of 255, and each added input brings
/// at most one witness, so the second precondition keeps that unreachable.
#[verifier::external_body]
fn builder_add_coin_input(
    sb: &mut ScriptBuilder,
    secret: &[u8; 32],
    utxo_tx_id: &[u8; 32],
    utxo_index: u16,
    amount: u64,
)
    requires
        valid_secret(secret@),
        old(sb).content().inputs.len() < 255,
    ensures
        final(sb).content() == (BuilderContent {
            inputs: old(sb).content().inputs.push(
                CoinInputModel { secret: secret@, utxo_tx_id: utxo_tx_id@, utxo_index, amount },
            ),
            ..old(sb).content()
        }),
{
    let key = SecretKey::try_from(&secret[..]).expect("a valid curve scalar");
    sb.inner.builder.add_unsigned_coin_input(
        key,
        fuel_core_types::fuel_tx::UtxoId::new((*utxo_tx_id).into(), utxo_index),
        amount,
        fuel_core_types::fuel_types::AssetId::default(),
        fuel_core_types::fuel_tx::TxPointer::default(),
    );
}

/// Relies on fuel_tx's `TransactionBuilder::add_output`: appends a payment
/// output of the base asset, built one-for-one by `Output::coin`.
#[verifier::external_body]
fn builder_add_output_coin(sb: &mut ScriptBuilder, to: &[u8; 32], amount: u64)
    ensures
        final(sb).content() == (BuilderContent {
            outputs: old(sb).content().outputs.push(OutputModel::Coin { to: to@, amount }),
            ..old(sb).content()
        }),
{
    sb.inner.builder.add_output(
        Output::coin((*to).into(), amount, fuel_core_types::fuel_types::AssetId::default()),
    );
}

/// Relies on fuel_tx's `TransactionBuilder::add_output`: appends a change
/// output of the base asset, built one-for-one by `Output::change`.
#[verifier::external_body]
fn builder_add_output_change(sb: &mut ScriptBuilder, to: &[u8; 32], amount: u64)
    ensures
        final(sb).content() == (BuilderContent {
            outputs: old(sb).content().outputs.push(OutputModel::Change { to: to@, amount }),
            ..old(sb).content()
        }),
{
    sb.inner.builder.add_output(
        Output::change((*to).into(), amount, fuel_core_types::fuel_types::AssetId::default()),
    );
}

/// Relies on fuel_tx's `TransactionBuilder::finalize_as_transaction`:
/// computes the transaction id, signs it with every registered key (RFC6979,
/// so deterministically), and yields the sealed transaction — a pure function
/// of the builder's content, named `assembled_from`.
#[verifier::external_body]
fn builder_finalize(sb: &mut ScriptBuilder) -> (r: Transaction)
    ensures
        r == assembled_from(old(sb).content()),
        final(sb).content() == old(sb).content(),
{
    sb.inner.builder.finalize_as_transaction()
}

/// The exact content the assembly feeds the builder for a transfer: the fixed
/// gas budget and tip, the transfer's two coin inputs in order, then its
/// payment and change outputs.
pub open spec fn spec_assembly(t: TransferModel) -> BuilderContent {
    BuilderContent {
        gas_limit: SCRIPT_GAS_LIMIT,
        tip: Some(TIP_AMOUNT),
        inputs: seq![t.input0, t.input1],
        outputs: seq![
            OutputModel::Coin { to: t.recipient, amount: t.transfer_amount },
            OutputModel::Change { to: t.change_to, amount: CHANGE_AMOUNT },
        ],
    }
}

/// Assembles one generated transfer into the node library's signed
/// transaction. Succeeds exactly when both drawn keys are valid curve
/// scalars, and the result is then the sealed form of exactly this transfer's
/// content under the fixed gas budget and tip.
pub fn build_transaction(t: &Transfer) -> (r: Option<Transaction>)
    ensures
        r is Some <==> (valid_secret(t.input0.secret@) && valid_secret(t.input1.secret@)),
        r matches Some(tx) ==> tx == assembled_from(spec_assembly(t@)),
{
    if !secret_is_valid(&t.input0.secret) {
        return None;
    }
    if !secret_is_valid(&t.input1.secret) {
        return None;
    }
    let mut sb = builder_new();
    builder_script_gas_limit(&mut sb, SCRIPT_GAS_LIMIT);
    builder_tip(&mut sb, TIP_AMOUNT);
    builder_add_coin_input(&mut sb, &t.input0.secret, &t.input0.utxo_tx_id, t.input0.utxo_index, t.input0.amount);
    builder_add_coin_input(&mut sb, &t.input1.secret, &t.input1.utxo_tx_id, t.input1.utxo_index, t.input1.amount);
    builder_add_output_coin(&mut sb, &t.recipient, t.transfer_amount);
    builder_add_output_change(&mut sb, &t.change_to, CHANGE_AMOUNT);
    proof {
        assert(sb.content() =~= spec_assembly(t@));
    }
    Some(builder_finalize(&mut sb))
}

/// Assembles a whole transfer sequence in order. Succeeds exactly when every
/// transfer's keys are valid; the result then holds, position by position,
/// the sealed form of each transfer.
pub fn build_transactions(transfers: &Vec<Transfer>) -> (r: Option<Vec<Transaction>>)
    ensures
        r is Some <==> (forall|i: int| 0 <= i < transfers@.len() ==> valid_secret(
            (#[trigger] transfers@[i]).input0.secret@,
        ) && valid_secret(transfers@[i].input1.secret@)),
        r matches Some(txs) ==> txs@.len() == transfers@.len(),
        r matches Some(txs) ==> forall|i: int| 0 <= i < transfers@.len() ==> #[trigger] txs@[i]
            == assembled_from(spec_assembly(transfers@[i]@)),
{
    let mut out: Vec<Transaction> = Vec::new();
    let mut k: usize = 0;
    while k < transfers.len()
        invariant
            k <= transfers@.len(),
            out@.len() == k,
            forall|i: int| 0 <= i < k ==> valid_secret((#[trigger] transfers@[i]).input0.secret@)
                && valid_secret(transfers@[i].input1.secret@),
            forall|i: int| 0 <= i < k ==> #[trigger] out@[i] == assembled_from(
                spec_assembly(transfers@[i]@),
            ),
        decreases transfers@.len() - k,
    {
        match build_transaction(&transfers[k]) {
            Some(tx) => out.push(tx),
            None => {
                return None;
            },
        }
        k = k + 1;
    }
    Some(out)
}

} // verus!
