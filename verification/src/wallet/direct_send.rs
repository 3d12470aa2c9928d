//! Send regular payments from the wallet's coins.
//!
//! A direct send keeps the coins that an ordinary spend may consume, builds
//! one input for each, pays the destination, prices the transaction from its
//! estimated virtual size, and adds a change output when what is left over is
//! worth more than dust. The transaction leaves here unsigned, together with
//! the virtual size that it must measure once signed.

use crate::address::{
    address_script, address_valid_for, is_address, Address, MAX_ADDRESS_SCRIPT_LEN,
};
use crate::amount::{decimal_u64, Amount, Btc};
use crate::fee::{estimate_virtual_size, virtual_size, FeeRate, MAX_VIRTUAL_SIZE};
use crate::network::Network;
use crate::tx::{
    lock_time_at_height, minimal_non_dust, script_minimal_non_dust, tx_base_size, tx_vsize,
    Transaction, TransactionView, TxInView, TxOut, TxOutView, LOCK_TIME_THRESHOLD, TX_VERSION,
};
use crate::wallet::api::{Coin, Wallet};
use crate::wallet::coins::{
    build_inputs, coins_of, lemma_excluded_coin_ignored, lemma_spendable_coins, retain_spendable, select_spendable,
    spendable_coins, spending_input, spending_inputs, sum_values, sum_witness_sizes, total_value,
    total_witness_size,
};
use crate::wallet::error::{Upstream, WalletError};
use vstd::prelude::*;

verus! {

/// The amount to send.
#[derive(Debug, Clone, Copy, PartialEq, Eq, Structural)]
pub enum SendAmount {
    /// Everything the eligible coins hold, less the fee.
    Max,
    /// Exactly this much.
    Amount(Amount),
}

/// Where to send.
#[derive(Debug, Clone, PartialEq, Eq)]
pub enum Destination {
    /// A fresh internal address of the wallet itself.
    Wallet,
    /// An address supplied from outside.
    Address(Address),
}

impl std::str::FromStr for SendAmount {
    type Err = std::num::ParseIntError;

    /// Reads a send amount: the word `max`, or a number of satoshis in
    /// decimal.
    fn from_str(s: &str) -> (r: Result<Self, Self::Err>)
        ensures
            s@ == "max"@ ==> r matches Ok(SendAmount::Max),
            s@ != "max"@ ==> {
                &&& r.is_ok() == decimal_u64(s@).is_some()
                &&& r matches Ok(a) ==> a matches SendAmount::Amount(v) && decimal_u64(s@) == Some(v.sat)
            },
    {
        if s.to_owned() == "max".to_owned() {
            Ok(SendAmount::Max)
        } else {
            match Amount::from_str_in_sat(s) {
                Ok(amount) => Ok(SendAmount::Amount(amount)),
                Err(e) => Err(e),
            }
        }
    }
}

impl std::str::FromStr for Destination {
    type Err = bitcoin::address::ParseError;

    /// Reads a destination: the word `wallet`, or an address.
    fn from_str(s: &str) -> (r: Result<Self, Self::Err>)
        ensures
            s@ == "wallet"@ ==> r matches Ok(Destination::Wallet),
            s@ != "wallet"@ ==> {
                &&& r.is_ok() == is_address(s@)
                &&& r matches Ok(d) ==> d matches Destination::Address(a) && a@ == s@
            },
    {
        if s.to_owned() == "wallet".to_owned() {
            Ok(Destination::Wallet)
        } else {
            match Address::from_str(s) {
                Ok(address) => Ok(Destination::Address(address)),
                Err(e) => Err(e),
            }
        }
    }
}

/// An assembled transaction that awaits its signatures.
#[derive(Debug, PartialEq, Eq)]
pub struct UnsignedSpend {
    /// The transaction: every output value filled in, every input still
    /// without its unlock proof.
    pub tx: Transaction,
    /// The virtual size that the fee was computed for. The signed transaction
    /// must measure exactly this.
    pub vsize: u128,
    /// The fee that the output values were computed with.
    pub fee: Amount,
}

impl UnsignedSpend {
    /// Whether the transaction, as it stands now, measures the virtual size
    /// that its fee was computed for. Asked once the unlock proofs are in
    /// place, this tells whether the fee that was charged is the fee that is
    /// paid; a signed transaction for which it does not hold must not leave
    /// the wallet. The witnesses must be small enough to be measured, which
    /// [`Transaction::witnesses_fit`] tells.
    pub fn measures_as_priced(&self) -> (r: bool)
        requires
            self.tx@.witnesses_fit(),
        ensures
            r == (tx_vsize(self.tx@) == self.vsize),
    {
        self.tx.vsize() as u128 == self.vsize
    }
}

/// Whether a wallet on `network` takes an address as a destination, given
/// what the address is valid for: it must be valid for the wallet's own
/// network, except that a wallet on Testnet or Signet also takes an address
/// of the other of the two.
pub open spec fn address_accepted(
    network: Network,
    valid_here: bool,
    valid_on_testnet: bool,
    valid_on_signet: bool,
) -> bool {
    valid_here || ((valid_on_testnet || valid_on_signet) && network.shares_test_encoding())
}

/// Whether a wallet on `network` takes the address written `encoded` as a
/// destination.
pub open spec fn destination_accepted(encoded: Seq<char>, network: Network) -> bool {
    address_accepted(
        network,
        address_valid_for(encoded, network),
        address_valid_for(encoded, Network::Testnet),
        address_valid_for(encoded, Network::Signet),
    )
}

/// Decides [`address_accepted`].
pub fn accepts_address(
    network: Network,
    valid_here: bool,
    valid_on_testnet: bool,
    valid_on_signet: bool,
) -> (r: bool)
    ensures
        r == address_accepted(network, valid_here, valid_on_testnet, valid_on_signet),
{
    valid_here || ((valid_on_testnet || valid_on_signet) && network.is_testnet_or_signet())
}

/// What resolving a destination comes to.
pub enum Resolution {
    /// The output script to pay to, and how many internal addresses finding
    /// it consumed.
    Script { script: Seq<u8>, consumed: nat },
    /// The wallet had no internal address left.
    AddressDerivation,
    /// The address cannot receive funds on the wallet's network.
    Invalid { address: Seq<char>, network: Network },
}

/// The output script that a destination stands for. Sending to the wallet
/// takes its next internal address; sending to an address takes the address
/// as it is, once it is found to suit the wallet's network.
pub open spec fn resolution(wallet: Wallet, destination: Destination) -> Resolution {
    match destination {
        Destination::Wallet => if wallet.has_internal(1) {
            Resolution::Script { script: address_script(wallet.upcoming_internal(0)), consumed: 1 }
        } else {
            Resolution::AddressDerivation
        },
        Destination::Address(a) => if destination_accepted(a@, wallet.network) {
            Resolution::Script { script: address_script(a@), consumed: 0 }
        } else {
            Resolution::Invalid { address: a@, network: wallet.network }
        },
    }
}

/// The value of the change output, if there is to be one: what is left of the
/// inputs after the amount sent and the fee of the transaction with the
/// change output, provided that this is strictly more than the least value
/// worth holding.
pub open spec fn change_value(
    total_input: nat,
    amount: nat,
    fee_with_change: nat,
    minimal_non_dust: nat,
) -> Option<nat> {
    if total_input - amount - fee_with_change > minimal_non_dust {
        Some((total_input - amount - fee_with_change) as nat)
    } else {
        None
    }
}

/// Decides [`change_value`].
pub fn decide_change(
    total_input: Amount,
    amount: Amount,
    fee_with_change: u128,
    minimal_non_dust: Amount,
) -> (r: Option<Amount>)
    ensures
        match change_value(total_input@, amount@, fee_with_change as nat, minimal_non_dust@) {
            Some(v) => r matches Some(a) && a@ == v,
            None => r is None,
        },
{
    let total = total_input.to_sat();
    let sent = amount.to_sat();
    if sent > total {
        return None;
    }
    let left: u64 = total - sent;
    if fee_with_change > left as u128 {
        return None;
    }
    let remaining: u64 = left - fee_with_change as u64;
    if remaining > minimal_non_dust.to_sat() {
        Some(Amount::from_sat(remaining))
    } else {
        None
    }
}

/// A transaction of the engine's version with the given lock time, inputs and
/// outputs.
pub open spec fn assembled(lock_time: u32, input: Seq<TxInView>, output: Seq<TxOutView>) -> TransactionView {
    TransactionView { version: TX_VERSION, lock_time, input, output }
}

/// How a direct send ends.
pub enum SpendOutcome {
    /// The chain height cannot be written as a lock time.
    Locktime,
    /// The wallet had no internal address left when one was needed.
    AddressDerivation,
    /// The destination address cannot receive funds on the wallet's network.
    InvalidDestination { address: Seq<char>, network: Network },
    /// The eligible coins hold `available` satoshis, and `required` were needed.
    InsufficientFunds { available: nat, required: nat },
    /// The transaction was assembled.
    Built { tx: TransactionView, vsize: nat, fee: nat },
}

/// How a direct send ends, and how many internal addresses it took from the
/// wallet on the way.
pub struct SpendEffect {
    pub outcome: SpendOutcome,
    pub consumed: nat,
}

/// What the change policy comes to.
pub enum ChangeStep {
    /// The wallet had no internal address left for the change candidate.
    AddressDerivation,
    /// The change output was added: the transaction with it, and the virtual
    /// size and fee that now hold for the transaction.
    Added { tx: TransactionView, vsize: nat, fee: nat },
    /// The change candidate was discarded and the transaction stays as it was.
    Skipped,
}

/// The change policy for the transaction `tx`, which pays `amount` out of
/// inputs worth `total_input`.
///
/// The wallet's next internal address but `skip` is the change candidate.
/// The transaction is priced anew with a change output to the candidate,
/// since the output adds to its size and so to its fee. What is left after
/// that fee becomes the change output if it exceeds the least value worth
/// holding for the candidate's script; otherwise there is none.
pub open spec fn change_step(
    wallet: Wallet,
    skip: nat,
    tx: TransactionView,
    total_input: nat,
    amount: nat,
    fee_rate: FeeRate,
    witness_size: nat,
) -> ChangeStep {
    if !wallet.has_internal(skip + 1) {
        ChangeStep::AddressDerivation
    } else {
        let change_script = address_script(wallet.upcoming_internal(skip as int));
        let trial = tx.with_output(TxOutView { value: 0, script_pubkey: change_script });
        let vsize = virtual_size(tx_base_size(trial), witness_size);
        let fee = fee_rate.fee(vsize);
        match change_value(total_input, amount, fee, script_minimal_non_dust(change_script)) {
            Some(remaining) => ChangeStep::Added {
                tx: tx.with_output(TxOutView { value: remaining, script_pubkey: change_script }),
                vsize,
                fee,
            },
            None => ChangeStep::Skipped,
        }
    }
}

/// The transaction that spends `selected` and pays `value` to `script` in
/// its only output.
pub open spec fn single_payment(
    lock_time: u32,
    selected: Seq<Coin>,
    script: Seq<u8>,
    value: nat,
) -> TransactionView {
    assembled(lock_time, spending_inputs(selected), seq![TxOutView { value, script_pubkey: script }])
}

/// The virtual size estimated for the transaction that spends `selected` and
/// pays to `script` alone. It is measured while the output's value is still
/// the placeholder zero.
pub open spec fn estimated_vsize(lock_time: u32, selected: Seq<Coin>, script: Seq<u8>) -> nat {
    virtual_size(
        tx_base_size(single_payment(lock_time, selected, script, 0)),
        total_witness_size(selected),
    )
}

/// What paying `send_amount` to `script` out of the coins `selected` comes
/// to, after finding the script took `consumed` internal addresses.
///
/// The fee is the fee rate applied to [`estimated_vsize`]. A send of
/// everything pays the input value less the fee and has no other output. A
/// send of a fixed amount pays that amount and may add a change output, see
/// [`change_step`]. Either fails when the inputs do not cover what is sent
/// and the fee.
pub open spec fn payment_effect(
    wallet: Wallet,
    consumed: nat,
    lock_time: u32,
    selected: Seq<Coin>,
    script: Seq<u8>,
    fee_rate: FeeRate,
    send_amount: SendAmount,
) -> SpendEffect {
    let total_input = total_value(selected);
    let vsize = estimated_vsize(lock_time, selected, script);
    let fee = fee_rate.fee(vsize);
    match send_amount {
        SendAmount::Max => if fee > total_input {
            SpendEffect {
                outcome: SpendOutcome::InsufficientFunds { available: total_input, required: fee },
                consumed,
            }
        } else {
            SpendEffect {
                outcome: SpendOutcome::Built {
                    tx: single_payment(lock_time, selected, script, (total_input - fee) as nat),
                    vsize,
                    fee,
                },
                consumed,
            }
        },
        SendAmount::Amount(amount) => if amount@ + fee > total_input {
            SpendEffect {
                outcome: SpendOutcome::InsufficientFunds {
                    available: total_input,
                    required: amount@ + fee,
                },
                consumed,
            }
        } else {
            let tx = single_payment(lock_time, selected, script, amount@);
            match change_step(
                wallet,
                consumed,
                tx,
                total_input,
                amount@,
                fee_rate,
                total_witness_size(selected),
            ) {
                ChangeStep::AddressDerivation => SpendEffect {
                    outcome: SpendOutcome::AddressDerivation,
                    consumed,
                },
                ChangeStep::Added { tx: with_change, vsize: vsize_with_change, fee: fee_with_change } => SpendEffect {
                    outcome: SpendOutcome::Built {
                        tx: with_change,
                        vsize: vsize_with_change,
                        fee: fee_with_change,
                    },
                    consumed: consumed + 1,
                },
                ChangeStep::Skipped => SpendEffect {
                    outcome: SpendOutcome::Built { tx, vsize, fee },
                    consumed: consumed + 1,
                },
            }
        },
    }
}

/// What a direct send of `send_amount` to `destination` from `coins` comes
/// to, for a wallet in the state `wallet`.
///
/// The lock time is the chain height. Only the spendable coins count: they
/// alone become inputs, and they alone make up the input value and the
/// witness size. The destination is resolved before anything is priced, so
/// an internal address that it takes stays taken when the funds turn out not
/// to suffice.
pub open spec fn spend_effect(
    wallet: Wallet,
    fee_rate: FeeRate,
    send_amount: SendAmount,
    destination: Destination,
    coins: Seq<Coin>,
) -> SpendEffect {
    if wallet.chain_height >= LOCK_TIME_THRESHOLD {
        SpendEffect { outcome: SpendOutcome::Locktime, consumed: 0 }
    } else {
        match resolution(wallet, destination) {
            Resolution::AddressDerivation => SpendEffect {
                outcome: SpendOutcome::AddressDerivation,
                consumed: 0,
            },
            Resolution::Invalid { address, network } => SpendEffect {
                outcome: SpendOutcome::InvalidDestination { address, network },
                consumed: 0,
            },
            Resolution::Script { script, consumed } => payment_effect(
                wallet,
                consumed,
                wallet.chain_height as u32,
                spendable_coins(coins),
                script,
                fee_rate,
                send_amount,
            ),
        }
    }
}

/// Whether the result `r` of a direct send is the outcome `outcome`.
pub open spec fn result_is(r: Result<UnsignedSpend, WalletError>, outcome: SpendOutcome) -> bool {
    match outcome {
        SpendOutcome::Locktime => r matches Err(WalletError::Locktime(_)),
        SpendOutcome::AddressDerivation => r matches Err(
            WalletError::UpstreamFailure(Upstream::AddressDerivation),
        ),
        SpendOutcome::InvalidDestination { address, network } => {
            &&& r matches Err(WalletError::InvalidDestination { address: a, network: n })
            &&& a@ == address
            &&& n == network
        },
        SpendOutcome::InsufficientFunds { available, required } => {
            &&& r matches Err(WalletError::InsufficientFunds { available: a, required: q })
            &&& a == Btc::of_sats(available)
            &&& q == Btc::of_sats(required)
        },
        SpendOutcome::Built { tx, vsize, fee } => {
            &&& r matches Ok(spend)
            &&& spend.tx@ == tx
            &&& spend.vsize == vsize
            &&& spend.fee@ == fee
        },
    }
}

/// Testnet and Signet stand in for each other: an address valid for either
/// is accepted by a wallet on the other. Apart from that, an address that is
/// not valid for the wallet's network is rejected; so one valid for Mainnet
/// alone is rejected by a wallet on Testnet.
pub proof fn lemma_destination_networks(encoded: Seq<char>, network: Network)
    ensures
        address_valid_for(encoded, Network::Testnet) ==> destination_accepted(encoded, Network::Signet),
        address_valid_for(encoded, Network::Signet) ==> destination_accepted(encoded, Network::Testnet),
        address_valid_for(encoded, network) ==> destination_accepted(encoded, network),
        !address_valid_for(encoded, Network::Testnet) && !address_valid_for(encoded, Network::Signet)
            ==> !destination_accepted(encoded, Network::Testnet) && !destination_accepted(encoded, Network::Signet),
        !network.shares_test_encoding() ==> destination_accepted(encoded, network) == address_valid_for(encoded, network),
{
}

/// A change output is added only when what is left over is strictly more
/// than the least value worth holding, never when it is equal to it or
/// less; and when it is added, it holds all that is left over.
pub proof fn lemma_change_above_dust_only(
    total_input: nat,
    amount: nat,
    fee_with_change: nat,
    minimal_non_dust: nat,
)
    ensures
        total_input - amount - fee_with_change == minimal_non_dust ==> change_value(
            total_input,
            amount,
            fee_with_change,
            minimal_non_dust,
        ) is None,
        change_value(total_input, amount, fee_with_change, minimal_non_dust) is Some <==> total_input
            - amount - fee_with_change > minimal_non_dust,
        change_value(total_input, amount, fee_with_change, minimal_non_dust) matches Some(v) ==> v
            == total_input - amount - fee_with_change,
{
}

/// Coins that the filter excludes do not bear on a direct send: with such a
/// coin anywhere in the list or without it, the send comes to the same. Its
/// value is in no input total and in no output.
pub proof fn lemma_excluded_coin_never_spent(
    wallet: Wallet,
    fee_rate: FeeRate,
    send_amount: SendAmount,
    destination: Destination,
    before: Seq<Coin>,
    coin: Coin,
    after: Seq<Coin>,
)
    requires
        !coin.1.is_spendable(),
    ensures
        spend_effect(wallet, fee_rate, send_amount, destination, before.push(coin) + after)
            == spend_effect(wallet, fee_rate, send_amount, destination, before + after),
{
    lemma_excluded_coin_ignored(before, coin, after);
}

/// Two lists that hold the same spendable coins in the same order come to the
/// same, whatever else they hold: the same failure, or the same transaction,
/// and the same number of internal addresses taken.
pub proof fn lemma_same_spendable_coins_same_effect(
    wallet: Wallet,
    fee_rate: FeeRate,
    send_amount: SendAmount,
    destination: Destination,
    first: Seq<Coin>,
    second: Seq<Coin>,
)
    requires
        spendable_coins(first) == spendable_coins(second),
    ensures
        spend_effect(wallet, fee_rate, send_amount, destination, first) == spend_effect(
            wallet,
            fee_rate,
            send_amount,
            destination,
            second,
        ),
{
}

/// A send to an address checks the address before anything else but the
/// lock time. A wallet on Testnet or Signet takes an address valid for
/// either, as it takes any address valid for its own network: the send then
/// never fails for the destination and pays to the address's own script. It
/// takes no internal address for the destination; the one it may take is the
/// change candidate of a fixed amount. An address that is valid neither for
/// the wallet's network nor by that exception stops the send with the
/// address and the network in the failure, and with nothing taken from the
/// wallet.
pub proof fn lemma_spend_checks_destination(
    wallet: Wallet,
    fee_rate: FeeRate,
    send_amount: SendAmount,
    address: Address,
    coins: Seq<Coin>,
)
    requires
        wallet.chain_height < LOCK_TIME_THRESHOLD,
    ensures
        ({
            let effect = spend_effect(
                wallet,
                fee_rate,
                send_amount,
                Destination::Address(address),
                coins,
            );
            let by_exception = wallet.network.shares_test_encoding() && (address_valid_for(
                address@,
                Network::Testnet,
            ) || address_valid_for(address@, Network::Signet));
            let accepted = address_valid_for(address@, wallet.network) || by_exception;
            &&& accepted ==> {
                &&& !(effect.outcome is InvalidDestination)
                &&& effect.outcome matches SpendOutcome::Built { tx, .. } ==> tx.output[0].script_pubkey
                    == address_script(address@)
                &&& effect.consumed <= 1
                &&& effect.consumed == 1 ==> send_amount is Amount && effect.outcome is Built
            }
            &&& !accepted ==> effect == (SpendEffect {
                outcome: SpendOutcome::InvalidDestination {
                    address: address@,
                    network: wallet.network,
                },
                consumed: 0,
            })
        }),
{
}

/// The two ways a send of a fixed amount ends once the funds cover the
/// amount and the fee without change, and the wallet has a change candidate
/// to offer. Either way the first output pays exactly the amount to the
/// destination. If what is left after the fee of the transaction with change
/// exceeds the least value worth holding for the candidate's script, the
/// second output holds exactly that and the transaction is priced with it.
/// If not, there is no second output and the transaction is priced without.
pub proof fn lemma_fixed_send_change_paths(
    wallet: Wallet,
    fee_rate: FeeRate,
    amount: Amount,
    destination: Destination,
    coins: Seq<Coin>,
)
    requires
        wallet.chain_height < LOCK_TIME_THRESHOLD,
        resolution(wallet, destination) is Script,
        wallet.has_internal(resolution(wallet, destination)->consumed + 1),
        amount@ + fee_rate.fee(
            estimated_vsize(
                wallet.chain_height as u32,
                spendable_coins(coins),
                resolution(wallet, destination)->script,
            ),
        ) <= total_value(spendable_coins(coins)),
    ensures
        ({
            let effect = spend_effect(wallet, fee_rate, SendAmount::Amount(amount), destination, coins);
            let lock_time = wallet.chain_height as u32;
            let selected = spendable_coins(coins);
            let script = resolution(wallet, destination)->script;
            let consumed = resolution(wallet, destination)->consumed;
            let change_script = address_script(wallet.upcoming_internal(consumed as int));
            let paid = single_payment(lock_time, selected, script, amount@);
            let vsize = estimated_vsize(lock_time, selected, script);
            let vsize_with_change = virtual_size(
                tx_base_size(paid.with_output(TxOutView { value: 0, script_pubkey: change_script })),
                total_witness_size(selected),
            );
            let left = total_value(selected) - amount@ - fee_rate.fee(vsize_with_change);
            &&& effect.consumed == consumed + 1
            &&& left > script_minimal_non_dust(change_script) ==> effect.outcome == SpendOutcome::Built {
                tx: paid.with_output(TxOutView { value: left as nat, script_pubkey: change_script }),
                vsize: vsize_with_change,
                fee: fee_rate.fee(vsize_with_change),
            }
            &&& left <= script_minimal_non_dust(change_script) ==> effect.outcome == SpendOutcome::Built {
                tx: paid,
                vsize,
                fee: fee_rate.fee(vsize),
            }
            &&& effect.outcome matches SpendOutcome::Built { tx, .. } && tx.output[0] == (TxOutView {
                value: amount@,
                script_pubkey: script,
            })
        }),
{
}

/// The inputs of an assembled transaction spend the spendable coins, one
/// input for each, in the order offered, and nothing else.
pub proof fn lemma_inputs_spend_spendable_coins(
    wallet: Wallet,
    fee_rate: FeeRate,
    send_amount: SendAmount,
    destination: Destination,
    coins: Seq<Coin>,
)
    ensures
        spend_effect(wallet, fee_rate, send_amount, destination, coins).outcome matches SpendOutcome::Built {
            tx,
            ..
        } ==> {
            &&& tx.input == spending_inputs(spendable_coins(coins))
            &&& tx.input.len() == spendable_coins(coins).len()
            &&& forall|i: int|
                0 <= i < tx.input.len() ==> {
                    let spent = #[trigger] spendable_coins(coins)[i];
                    &&& tx.input[i] == spending_input(spent)
                    &&& spent.1.is_spendable()
                    &&& coins.contains(spent)
                }
            &&& tx.version == TX_VERSION
            &&& tx.lock_time == wallet.chain_height
        },
{
    lemma_spendable_coins(coins);
}

/// A send of everything that succeeds has exactly one output. It holds the
/// value of the spendable coins less the fee, the fee being the fee rate
/// applied to the estimated virtual size. There is no change output, and no
/// internal address is taken for one.
pub proof fn lemma_max_send_single_output(
    wallet: Wallet,
    fee_rate: FeeRate,
    destination: Destination,
    coins: Seq<Coin>,
)
    ensures
        ({
            let effect = spend_effect(wallet, fee_rate, SendAmount::Max, destination, coins);
            let total_input = total_value(spendable_coins(coins));
            &&& effect.outcome matches SpendOutcome::Built { tx, vsize, fee } ==> {
                &&& tx.output.len() == 1
                &&& tx.output[0].value == total_input - fee
                &&& fee == fee_rate.fee(vsize)
                &&& fee <= total_input
                &&& resolution(wallet, destination) matches Resolution::Script { script, consumed }
                &&& tx.output[0].script_pubkey == script
                &&& effect.consumed == consumed
                &&& vsize == estimated_vsize(wallet.chain_height as u32, spendable_coins(coins), script)
            }
            &&& effect.outcome matches SpendOutcome::InsufficientFunds { available, required } ==> {
                &&& available == total_input
                &&& required > available
            }
        }),
{
}

/// A send of a fixed amount fails for want of funds exactly when the amount
/// and the fee of the transaction without change together exceed the value
/// of the spendable coins. The failure reports that value and that sum.
pub proof fn lemma_fixed_send_insufficient(
    wallet: Wallet,
    fee_rate: FeeRate,
    amount: Amount,
    destination: Destination,
    coins: Seq<Coin>,
)
    requires
        wallet.chain_height < LOCK_TIME_THRESHOLD,
        resolution(wallet, destination) is Script,
    ensures
        ({
            let effect = spend_effect(wallet, fee_rate, SendAmount::Amount(amount), destination, coins);
            let selected = spendable_coins(coins);
            let script = resolution(wallet, destination)->script;
            let fee = fee_rate.fee(estimated_vsize(wallet.chain_height as u32, selected, script));
            &&& amount@ + fee > total_value(selected) ==> effect.outcome == SpendOutcome::InsufficientFunds {
                available: total_value(selected),
                required: amount@ + fee,
            }
            &&& amount@ + fee <= total_value(selected) ==> !(effect.outcome is InsufficientFunds)
        }),
{
}

/// A send of a fixed amount that succeeds pays exactly that amount in its
/// first output. It has a second output, the change, exactly when the change
/// policy adds one; the change then holds what the inputs leave after the
/// amount and the fee, so that nothing is lost and nothing made up.
pub proof fn lemma_fixed_send_outputs(
    wallet: Wallet,
    fee_rate: FeeRate,
    amount: Amount,
    destination: Destination,
    coins: Seq<Coin>,
)
    ensures
        spend_effect(wallet, fee_rate, SendAmount::Amount(amount), destination, coins).outcome matches SpendOutcome::Built {
            tx,
            vsize,
            fee,
        } ==> {
            let total_input = total_value(spendable_coins(coins));
            &&& 1 <= tx.output.len() <= 2
            &&& tx.output[0].value == amount@
            &&& amount@ + fee <= total_input
            &&& fee == fee_rate.fee(vsize)
            &&& tx.output.len() == 2 ==> tx.output[0].value + tx.output[1].value + fee == total_input
        },
{
}

impl Wallet {
    /// Turns a destination into the output script to pay to.
    ///
    /// Sending to the wallet takes the wallet's next internal address.
    /// Sending to an address checks the address against the wallet's network
    /// and hands back the address in the error if it does not suit.
    pub fn resolve_destination(&mut self, destination: Destination) -> (r: Result<Vec<u8>, WalletError>)
        ensures
            final(self).network == old(self).network,
            final(self).chain_height == old(self).chain_height,
            final(self).internal_addresses == old(self).internal_addresses,
            match resolution(*old(self), destination) {
                Resolution::Script { script, consumed } => {
                    &&& r matches Ok(s)
                    &&& s@ == script
                    &&& s@.len() <= MAX_ADDRESS_SCRIPT_LEN
                    &&& final(self).next_internal == old(self).next_internal + consumed
                },
                Resolution::AddressDerivation => {
                    &&& r matches Err(WalletError::UpstreamFailure(Upstream::AddressDerivation))
                    &&& final(self).next_internal == old(self).next_internal
                },
                Resolution::Invalid { address, network } => {
                    &&& r matches Err(WalletError::InvalidDestination { address: a, network: n })
                    &&& a@ == address
                    &&& n == network
                    &&& final(self).next_internal == old(self).next_internal
                },
            },
    {
        match destination {
            Destination::Wallet => match self.get_next_internal_addresses(1) {
                Ok(addresses) => Ok(addresses[0].script_pubkey()),
                Err(e) => Err(e),
            },
            Destination::Address(address) => {
                let valid_here = address.is_valid_for_network(self.network);
                let valid_on_testnet = address.is_valid_for_network(Network::Testnet);
                let valid_on_signet = address.is_valid_for_network(Network::Signet);
                if accepts_address(self.network, valid_here, valid_on_testnet, valid_on_signet) {
                    Ok(address.script_pubkey())
                } else {
                    Err(WalletError::InvalidDestination { address, network: self.network })
                }
            },
        }
    }

    /// Decides whether the transaction gets a change output, and adds it if
    /// so. Takes one internal address from the wallet as the candidate; the
    /// address stays taken when the candidate is discarded.
    ///
    /// Returns the virtual size and fee of the transaction with its change
    /// output, or `None` when the transaction is left as it was.
    pub fn maybe_add_change(
        &mut self,
        tx: &mut Transaction,
        total_input: Amount,
        amount: Amount,
        fee_rate: FeeRate,
        witness_size: u128,
    ) -> (r: Result<Option<(u128, Amount)>, WalletError>)
        requires
            witness_size <= MAX_VIRTUAL_SIZE,
        ensures
            final(self).network == old(self).network,
            final(self).chain_height == old(self).chain_height,
            final(self).internal_addresses == old(self).internal_addresses,
            match change_step(
                *old(self),
                0,
                old(tx)@,
                total_input@,
                amount@,
                fee_rate,
                witness_size as nat,
            ) {
                ChangeStep::AddressDerivation => {
                    &&& r matches Err(WalletError::UpstreamFailure(Upstream::AddressDerivation))
                    &&& final(tx)@ == old(tx)@
                    &&& final(self).next_internal == old(self).next_internal
                },
                ChangeStep::Added { tx: with_change, vsize, fee } => {
                    &&& r matches Ok(Some((v, f)))
                    &&& v == vsize
                    &&& f@ == fee
                    &&& final(tx)@ == with_change
                    &&& final(self).next_internal == old(self).next_internal + 1
                },
                ChangeStep::Skipped => {
                    &&& r matches Ok(None)
                    &&& final(tx)@ == old(tx)@
                    &&& final(self).next_internal == old(self).next_internal + 1
                },
            },
    {
        let change_script = match self.get_next_internal_addresses(1) {
            Ok(addresses) => addresses[0].script_pubkey(),
            Err(e) => {
                return Err(e);
            },
        };
        let dust = minimal_non_dust(&change_script);
        let ghost before = tx@;
        tx.push_output(TxOut { value: Amount::zero(), script_pubkey: change_script });
        let vsize = estimate_virtual_size(tx, witness_size);
        let fee = fee_rate.fee_for(vsize);
        match decide_change(total_input, amount, fee, dust) {
            Some(remaining) => {
                let index = tx.output.len() - 1;
                tx.set_output_value(index, remaining);
                assert(tx@.output =~= before.with_output(
                    TxOutView { value: remaining@, script_pubkey: change_script@ },
                ).output);
                Ok(Some((vsize, Amount::from_sat(fee as u64))))
            },
            None => {
                let candidate = tx.pop_output();
                assert(tx@.output =~= before.output) by {
                    assert(tx@.output.push(candidate@).drop_last() =~= tx@.output);
                    assert(before.output.push(candidate@).drop_last() =~= before.output);
                }
                Ok(None)
            },
        }
    }

    /// Assembles the transaction that sends `send_amount` to `destination`
    /// out of the spendable coins among `coins_to_spend`; fidelity bonds and
    /// contract coins among them are left alone. The transaction comes back
    /// unsigned, with the virtual size it must measure once signed.
    ///
    /// With nothing spendable among the coins and a fee rate above zero,
    /// there is no transaction: the fee alone is more than the inputs hold.
    ///
    /// The values of the spendable coins must add up to a 64-bit amount.
    pub fn spend_coins(
        &mut self,
        fee_rate: FeeRate,
        send_amount: SendAmount,
        destination: Destination,
        coins_to_spend: &Vec<&Coin>,
    ) -> (r: Result<UnsignedSpend, WalletError>)
        requires
            total_value(spendable_coins(coins_of(coins_to_spend@))) <= u64::MAX,
        ensures
            result_is(
                r,
                spend_effect(*old(self), fee_rate, send_amount, destination, coins_of(coins_to_spend@)).outcome,
            ),
            final(self).next_internal == old(self).next_internal + spend_effect(
                *old(self),
                fee_rate,
                send_amount,
                destination,
                coins_of(coins_to_spend@),
            ).consumed,
            spendable_coins(coins_of(coins_to_spend@)).len() == 0 && fee_rate.spec_sats() > 0 ==> r is Err,
            final(self).network == old(self).network,
            final(self).chain_height == old(self).chain_height,
            final(self).internal_addresses == old(self).internal_addresses,
    {
        let lock_time = match lock_time_at_height(self.chain_height) {
            Ok(lock_time) => lock_time,
            Err(e) => {
                return Err(WalletError::Locktime(e));
            },
        };
        let valid_coins = retain_spendable(coins_to_spend);
        let total: u128 = sum_values(&valid_coins);
        let witness_size: u128 = sum_witness_sizes(&valid_coins);
        let input = build_inputs(&valid_coins);
        let ghost selected = spendable_coins(coins_of(coins_to_spend@));
        let total_input = Amount::from_sat(total as u64);

        let script = match self.resolve_destination(destination) {
            Ok(script) => script,
            Err(e) => {
                return Err(e);
            },
        };
        let ghost script_view = script@;
        let mut tx = Transaction { version: TX_VERSION, lock_time, input, output: Vec::new() };
        tx.push_output(TxOut { value: Amount::zero(), script_pubkey: script });
        assert(tx@.output =~= seq![TxOutView { value: 0, script_pubkey: script_view }]);
        assert(tx@ == single_payment(lock_time, selected, script_view, 0));

        let vsize = estimate_virtual_size(&tx, witness_size);
        let fee = fee_rate.fee_for(vsize);

        match send_amount {
            SendAmount::Max => {
                if fee > total {
                    return Err(
                        WalletError::InsufficientFunds {
                            available: Btc::from_sat(total),
                            required: Btc::from_sat(fee),
                        },
                    );
                }
                let value = Amount::from_sat((total - fee) as u64);
                tx.set_output_value(0, value);
                assert(tx@.output =~= seq![TxOutView { value: value@, script_pubkey: script_view }]);
                Ok(UnsignedSpend { tx, vsize, fee: Amount::from_sat(fee as u64) })
            },
            SendAmount::Amount(amount) => {
                if amount.to_sat() as u128 + fee > total {
                    return Err(
                        WalletError::InsufficientFunds {
                            available: Btc::from_sat(total),
                            required: Btc::from_sat(amount.to_sat() as u128 + fee),
                        },
                    );
                }
                tx.set_output_value(0, amount);
                assert(tx@.output =~= seq![TxOutView { value: amount@, script_pubkey: script_view }]);
                match self.maybe_add_change(&mut tx, total_input, amount, fee_rate, witness_size) {
                    Ok(Some((vsize_with_change, fee_with_change))) => Ok(
                        UnsignedSpend { tx, vsize: vsize_with_change, fee: fee_with_change },
                    ),
                    Ok(None) => Ok(UnsignedSpend { tx, vsize, fee: Amount::from_sat(fee as u64) }),
                    Err(e) => Err(e),
                }
            },
        }
    }

    /// Assembles the transaction that sends `send_amount` to `destination`
    /// out of the wallet's coins `coins_to_spend`.
    ///
    /// Fidelity bonds and contract coins (hashlock or timelock) are never
    /// spent this way: they are skipped, whatever else the list holds.
    /// Sending [`SendAmount::Max`] pays everything the spendable coins hold,
    /// less the fee, in one output. Sending a fixed amount pays that amount
    /// and returns the rest to the wallet as change, if it is worth it.
    pub fn spend_from_wallet(
        &mut self,
        fee_rate: FeeRate,
        send_amount: SendAmount,
        destination: Destination,
        coins_to_spend: &[Coin],
    ) -> (r: Result<UnsignedSpend, WalletError>)
        requires
            total_value(spendable_coins(coins_to_spend@)) <= u64::MAX,
        ensures
            result_is(
                r,
                spend_effect(*old(self), fee_rate, send_amount, destination, coins_to_spend@).outcome,
            ),
            final(self).next_internal == old(self).next_internal + spend_effect(
                *old(self),
                fee_rate,
                send_amount,
                destination,
                coins_to_spend@,
            ).consumed,
            spendable_coins(coins_to_spend@).len() == 0 && fee_rate.spec_sats() > 0 ==> r is Err,
            final(self).network == old(self).network,
            final(self).chain_height == old(self).chain_height,
            final(self).internal_addresses == old(self).internal_addresses,
    {
        let coins = select_spendable(coins_to_spend);
        proof {
            lemma_spendable_coins(coins_to_spend@);
        }
        self.spend_coins(fee_rate, send_amount, destination, &coins)
    }
}


} // verus!
