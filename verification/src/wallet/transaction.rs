//! Strategies for building and signing transactions.
//!
//! A strategy says which kinds of coin it takes as inputs, builds a
//! transaction from what the caller wants, and later installs the unlock
//! proofs that the wallet's signer produced. Whatever the strategy, building
//! spends none but the coins it takes, and signing leaves what the
//! transaction pays untouched.

use crate::fee::FeeRate;
use crate::tx::{Transaction, TransactionView, TxInView};
use crate::wallet::api::{Coin, UTXOSpendInfo, Utxo, Wallet};
use crate::wallet::coins::{lemma_spendable_coins, spendable_coins, spending_input, total_value};
use crate::wallet::direct_send::{
    lemma_inputs_spend_spendable_coins, result_is, spend_effect, Destination, SendAmount,
    UnsignedSpend,
};
use crate::wallet::error::{Upstream, WalletError};
use vstd::prelude::*;

verus! {

/// What the caller wants built.
#[derive(Debug)]
pub struct BuildTxParams {
    pub fee_rate: FeeRate,
    pub amount: SendAmount,
    pub destination: Destination,
    pub coins_to_spend: Vec<Coin>,
}

/// One input of a transaction to be signed: the coin it spends, how that
/// coin is spent, and the unlock proof that the wallet's signer produced for
/// it.
#[derive(Debug)]
pub struct TxInput {
    pub utxo: Utxo,
    pub spend_info: UTXOSpendInfo,
    pub witness: Vec<Vec<u8>>,
}

/// Whether `after` is `before` with nothing changed but the unlock proofs of
/// its inputs.
pub open spec fn differs_in_proofs_only(before: TransactionView, after: TransactionView) -> bool {
    &&& after.version == before.version
    &&& after.lock_time == before.lock_time
    &&& after.output == before.output
    &&& after.input.len() == before.input.len()
    &&& forall|i: int|
        0 <= i < before.input.len() ==> {
            &&& (#[trigger] after.input[i]).previous_output == before.input[i].previous_output
            &&& after.input[i].sequence == before.input[i].sequence
            &&& after.input[i].script_sig == before.input[i].script_sig
        }
}

/// Whether `input` is the unsigned input that spends one of the `coins` that
/// satisfy `eligible`.
pub open spec fn spends_eligible_coin(
    input: TxInView,
    coins: Seq<Coin>,
    eligible: spec_fn(UTXOSpendInfo) -> bool,
) -> bool {
    exists|k: int| 0 <= k < coins.len() && eligible(coins[k].1) && input == spending_input(#[trigger] coins[k])
}

/// A strategy for building a transaction and installing its unlock proofs.
pub trait TransactionBuilder {
    /// The kinds of coin that this strategy takes as inputs.
    spec fn eligible(&self, info: UTXOSpendInfo) -> bool;

    /// Builds the transaction that `params` asks for, unsigned. It spends
    /// none but eligible coins among those offered, and takes nothing from
    /// the wallet but internal addresses.
    fn build_tx(&self, wallet: &mut Wallet, params: BuildTxParams) -> (r: Result<
        UnsignedSpend,
        WalletError,
    >)
        requires
            total_value(params.coins_to_spend@.filter(|c: Coin| self.eligible(c.1))) <= u64::MAX,
        ensures
            final(wallet).network == old(wallet).network,
            final(wallet).chain_height == old(wallet).chain_height,
            final(wallet).internal_addresses == old(wallet).internal_addresses,
            final(wallet).next_internal >= old(wallet).next_internal,
            r matches Ok(spend) ==> forall|i: int|
                0 <= i < spend.tx@.input.len() ==> spends_eligible_coin(
                    #[trigger] spend.tx@.input[i],
                    params.coins_to_spend@,
                    |info: UTXOSpendInfo| self.eligible(info),
                ),
    ;

    /// Installs the unlock proofs of `inputs` in the inputs of `tx`. What
    /// the transaction spends and pays stays as it was; on failure the whole
    /// transaction does.
    fn sign_tx(&self, tx: &mut Transaction, inputs: &[TxInput]) -> (r: Result<(), WalletError>)
        ensures
            r is Ok ==> differs_in_proofs_only(old(tx)@, final(tx)@),
            r is Err ==> final(tx)@ == old(tx)@,
    ;
}

/// The strategy for ordinary spends of seed coins and swap coins.
#[derive(Debug, Clone, Copy, PartialEq, Eq)]
pub struct BasicTxBuilder;

/// Names the strategy that creates fidelity bonds, which locks an output
/// under a timelocked script. It has no rule for building or signing yet.
#[derive(Debug, Clone, Copy, PartialEq, Eq)]
pub struct FidelityTxBuilder;

/// Names the strategy that spends the hashlock and timelock contracts of
/// swaps in flight. It has no rule for building or signing yet.
#[derive(Debug, Clone, Copy, PartialEq, Eq)]
pub struct ContractTxBuilder;

/// Whether every one of `inputs` is of a kind that an ordinary spend signs.
pub open spec fn all_spendable(inputs: Seq<TxInput>) -> bool {
    forall|i: int| 0 <= i < inputs.len() ==> (#[trigger] inputs[i]).spend_info.is_spendable()
}

/// Copies a byte string.
pub fn clone_bytes(bytes: &Vec<u8>) -> (r: Vec<u8>)
    ensures
        r@ == bytes@,
{
    let mut copy: Vec<u8> = Vec::new();
    let mut i: usize = 0;
    while i < bytes.len()
        invariant
            i <= bytes@.len(),
            copy@ == bytes@.take(i as int),
        decreases bytes@.len() - i,
    {
        copy.push(bytes[i]);
        assert(bytes@.take(i + 1) =~= bytes@.take(i as int).push(bytes@[i as int]));
        i += 1;
    }
    assert(bytes@.take(i as int) =~= bytes@);
    copy
}

/// Copies an unlock proof.
pub fn clone_witness(witness: &Vec<Vec<u8>>) -> (r: Vec<Vec<u8>>)
    ensures
        r.deep_view() == witness.deep_view(),
{
    let mut copy: Vec<Vec<u8>> = Vec::new();
    let mut i: usize = 0;
    while i < witness.len()
        invariant
            i <= witness@.len(),
            copy@.len() == i,
            forall|j: int| 0 <= j < i ==> (#[trigger] copy@[j])@ == witness@[j]@,
        decreases witness@.len() - i,
    {
        copy.push(clone_bytes(&witness[i]));
        i += 1;
    }
    assert(copy.deep_view() =~= witness.deep_view());
    copy
}

impl TransactionBuilder for BasicTxBuilder {
    open spec fn eligible(&self, info: UTXOSpendInfo) -> bool {
        info.is_spendable()
    }

    /// Builds a direct send, as [`Wallet::spend_from_wallet`] does.
    fn build_tx(&self, wallet: &mut Wallet, params: BuildTxParams) -> (r: Result<
        UnsignedSpend,
        WalletError,
    >)
        ensures
            result_is(
                r,
                spend_effect(
                    *old(wallet),
                    params.fee_rate,
                    params.amount,
                    params.destination,
                    params.coins_to_spend@,
                ).outcome,
            ),
            final(wallet).next_internal == old(wallet).next_internal + spend_effect(
                *old(wallet),
                params.fee_rate,
                params.amount,
                params.destination,
                params.coins_to_spend@,
            ).consumed,
    {
        let ghost coins = params.coins_to_spend@;
        proof {
            assert((|c: Coin| self.eligible(c.1)) =~= (|c: Coin| c.1.is_spendable()));
            lemma_inputs_spend_spendable_coins(
                *wallet,
                params.fee_rate,
                params.amount,
                params.destination,
                coins,
            );
            lemma_spendable_coins(coins);
        }
        let r = wallet.spend_from_wallet(
            params.fee_rate,
            params.amount,
            params.destination,
            params.coins_to_spend.as_slice(),
        );
        proof {
            if r is Ok {
                let spend = r->Ok_0;
                assert forall|i: int| 0 <= i < spend.tx@.input.len() implies spends_eligible_coin(
                    #[trigger] spend.tx@.input[i],
                    coins,
                    |info: UTXOSpendInfo| self.eligible(info),
                ) by {
                    let spent = spendable_coins(coins)[i];
                    assert(coins.contains(spent));
                    let k = choose|k: int| 0 <= k < coins.len() && coins[k] == spent;
                    assert(spend.tx@.input[i] == spending_input(coins[k]));
                }
            }
        }
        r
    }

    /// Installs the unlock proofs of an ordinary spend: one for each input of
    /// the transaction, in order, each for a seed coin or a swap coin. When
    /// the inputs handed in are not as many as the transaction has, or one
    /// of them is of a kind that an ordinary spend cannot sign, nothing is
    /// installed and the signing failure is reported.
    fn sign_tx(&self, tx: &mut Transaction, inputs: &[TxInput]) -> (r: Result<(), WalletError>)
        ensures
            r is Ok == (inputs@.len() == old(tx)@.input.len() && all_spendable(inputs@)),
            r is Err ==> r matches Err(WalletError::UpstreamFailure(Upstream::Signing)),
            r is Ok ==> forall|i: int|
                0 <= i < inputs@.len() ==> (#[trigger] final(tx)@.input[i]).witness
                    == inputs@[i].witness.deep_view(),
    {
        let count = tx.input.len();
        if inputs.len() != count {
            return Err(WalletError::UpstreamFailure(Upstream::Signing));
        }
        let mut k: usize = 0;
        while k < count
            invariant
                k <= count == inputs@.len(),
                forall|j: int| 0 <= j < k ==> (#[trigger] inputs@[j]).spend_info.is_spendable(),
            decreases count - k,
        {
            if inputs[k].spend_info.witness_size().is_none() {
                return Err(WalletError::UpstreamFailure(Upstream::Signing));
            }
            k += 1;
        }
        let ghost before = tx@;
        let mut i: usize = 0;
        while i < count
            invariant
                i <= count == inputs@.len(),
                count == tx.input@.len(),
                before.input.len() == count,
                differs_in_proofs_only(before, tx@),
                forall|j: int| 0 <= j < i ==> (#[trigger] tx@.input[j]).witness == inputs@[j].witness.deep_view(),
            decreases count - i,
        {
            let proof_stack = clone_witness(&inputs[i].witness);
            let ghost previous = tx@;
            tx.input[i].witness = proof_stack;
            assert forall|j: int| 0 <= j < count implies {
                &&& (#[trigger] tx@.input[j]).previous_output == previous.input[j].previous_output
                &&& tx@.input[j].sequence == previous.input[j].sequence
                &&& tx@.input[j].script_sig == previous.input[j].script_sig
                &&& j != i ==> tx@.input[j].witness == previous.input[j].witness
            } by {}
            i += 1;
        }
        Ok(())
    }
}

} // verus!
