//! Which of the offered coins a direct send may consume, and what they add
//! up to.

use crate::amount::Amount;
use crate::fee::MAX_VIRTUAL_SIZE;
use crate::tx::{inputs_view, OutPoint, TxIn, TxInView};
use crate::wallet::api::{Coin, P2WSH_MULTISIG_2OF2_WITNESS_SIZE};
use vstd::prelude::*;

verus! {

/// The coins behind a list of references.
pub open spec fn coins_of(refs: Seq<&Coin>) -> Seq<Coin> {
    refs.map_values(|c: &Coin| *c)
}

/// The coins that a direct send may consume: the seed coins and swap coins
/// among `coins`, in the order given.
pub open spec fn spendable_coins(coins: Seq<Coin>) -> Seq<Coin> {
    coins.filter(|c: Coin| c.1.is_spendable())
}

/// The coins that a direct send leaves alone.
pub open spec fn excluded_coins(coins: Seq<Coin>) -> Seq<Coin> {
    coins.filter(|c: Coin| !c.1.is_spendable())
}

/// The value of all of `coins` together, in satoshis.
pub open spec fn total_value(coins: Seq<Coin>) -> nat
    decreases coins.len(),
{
    if coins.len() == 0 {
        0
    } else {
        total_value(coins.drop_last()) + coins.last().0.amount@
    }
}

/// The bytes assumed for the witnesses that unlock all of `coins`.
pub open spec fn total_witness_size(coins: Seq<Coin>) -> nat
    decreases coins.len(),
{
    if coins.len() == 0 {
        0
    } else {
        total_witness_size(coins.drop_last()) + match coins.last().1.spec_witness_size() {
            Some(n) => n,
            None => 0,
        }
    }
}

/// The unsigned input that spends `coin`: its outpoint, sequence number zero,
/// and nothing yet to unlock it.
pub open spec fn spending_input(coin: Coin) -> TxInView {
    TxInView {
        previous_output: OutPoint { txid: coin.0.txid, vout: coin.0.vout },
        script_sig: Seq::empty(),
        sequence: 0,
        witness: Seq::empty(),
    }
}

/// One unsigned input for each of `coins`, in order.
pub open spec fn spending_inputs(coins: Seq<Coin>) -> Seq<TxInView> {
    coins.map_values(|c: Coin| spending_input(c))
}

/// Keeps the coins that a direct send may consume.
pub fn select_spendable<'a>(coins: &'a [Coin]) -> (r: Vec<&'a Coin>)
    ensures
        coins_of(r@) == spendable_coins(coins@),
        forall|i: int| 0 <= i < r@.len() ==> (#[trigger] r@[i]).1.is_spendable(),
{
    let mut kept: Vec<&'a Coin> = Vec::new();
    let mut i: usize = 0;
    assert(coins@.take(0) =~= Seq::empty());
    assert(coins_of(kept@) =~= Seq::empty());
    while i < coins.len()
        invariant
            i <= coins@.len(),
            coins_of(kept@) == spendable_coins(coins@.take(i as int)),
        decreases coins@.len() - i,
    {
        let coin = &coins[i];
        proof {
            let pred = |c: Coin| c.1.is_spendable();
            assert(coins@.take(i + 1) =~= coins@.take(i as int).push(coins@[i as int]));
            coins@.take(i as int).lemma_filter_push(coins@[i as int], pred);
        }
        if coin.1.witness_size().is_some() {
            let ghost before = kept@;
            kept.push(coin);
            assert(coins_of(kept@) =~= coins_of(before).push(*coin));
        }
        i += 1;
    }
    assert(coins@.take(i as int) =~= coins@);
    proof {
        lemma_spendable_coins(coins@);
        assert forall|i: int| 0 <= i < kept@.len() implies (#[trigger] kept@[i]).1.is_spendable() by {
            assert(coins_of(kept@)[i] == *kept@[i]);
        }
    }
    kept
}

/// Keeps, of coins held by reference, those that a direct send may consume.
pub fn retain_spendable<'a>(coins: &Vec<&'a Coin>) -> (r: Vec<&'a Coin>)
    ensures
        coins_of(r@) == spendable_coins(coins_of(coins@)),
{
    let ghost all = coins_of(coins@);
    let mut kept: Vec<&'a Coin> = Vec::new();
    let mut i: usize = 0;
    assert(all.take(0) =~= Seq::empty());
    assert(coins_of(kept@) =~= Seq::empty());
    while i < coins.len()
        invariant
            i <= coins@.len(),
            all == coins_of(coins@),
            coins_of(kept@) == spendable_coins(all.take(i as int)),
        decreases coins@.len() - i,
    {
        let coin = coins[i];
        proof {
            let pred = |c: Coin| c.1.is_spendable();
            assert(all.take(i + 1) =~= all.take(i as int).push(all[i as int]));
            all.take(i as int).lemma_filter_push(all[i as int], pred);
        }
        if coin.1.witness_size().is_some() {
            let ghost before = kept@;
            kept.push(coin);
            assert(coins_of(kept@) =~= coins_of(before).push(*coin));
        }
        i += 1;
    }
    assert(all.take(i as int) =~= all);
    kept
}

/// Collects the coins that a direct send leaves alone, so that the caller can
/// report each of them.
pub fn select_excluded<'a>(coins: &Vec<&'a Coin>) -> (r: Vec<&'a Coin>)
    ensures
        coins_of(r@) == excluded_coins(coins_of(coins@)),
{
    let ghost all = coins_of(coins@);
    let mut skipped: Vec<&'a Coin> = Vec::new();
    let mut i: usize = 0;
    assert(all.take(0) =~= Seq::empty());
    assert(coins_of(skipped@) =~= Seq::empty());
    while i < coins.len()
        invariant
            i <= coins@.len(),
            all == coins_of(coins@),
            coins_of(skipped@) == excluded_coins(all.take(i as int)),
        decreases coins@.len() - i,
    {
        let coin = coins[i];
        proof {
            let pred = |c: Coin| !c.1.is_spendable();
            assert(all.take(i + 1) =~= all.take(i as int).push(all[i as int]));
            all.take(i as int).lemma_filter_push(all[i as int], pred);
        }
        if coin.1.witness_size().is_none() {
            let ghost before = skipped@;
            skipped.push(coin);
            assert(coins_of(skipped@) =~= coins_of(before).push(*coin));
        }
        i += 1;
    }
    assert(all.take(i as int) =~= all);
    skipped
}

/// Adds up the values of `coins`.
pub fn sum_values(coins: &Vec<&Coin>) -> (r: u128)
    ensures
        r == total_value(coins_of(coins@)),
{
    let ghost all = coins_of(coins@);
    let mut sum: u128 = 0;
    let mut i: usize = 0;
    assert(all.take(0) =~= Seq::empty());
    while i < coins.len()
        invariant
            i <= coins@.len(),
            all == coins_of(coins@),
            sum == total_value(all.take(i as int)),
            sum <= i * 0xFFFF_FFFF_FFFF_FFFF,
        decreases coins@.len() - i,
    {
        proof {
            assert(all.take(i + 1).drop_last() =~= all.take(i as int));
            assert(all.take(i + 1).last() == *coins@[i as int]);
        }
        sum = sum + coins[i].0.amount.to_sat() as u128;
        i += 1;
    }
    assert(all.take(i as int) =~= all);
    sum
}

/// The value of `coins` together as an amount, if 64 bits hold it.
pub fn checked_total_value(coins: &Vec<&Coin>) -> (r: Option<Amount>)
    ensures
        r is Some == (total_value(coins_of(coins@)) <= u64::MAX),
        r matches Some(a) ==> a@ == total_value(coins_of(coins@)),
{
    let sum = sum_values(coins);
    if sum <= u64::MAX as u128 {
        Some(Amount::from_sat(sum as u64))
    } else {
        None
    }
}

/// Adds up the witness sizes assumed for `coins`.
pub fn sum_witness_sizes(coins: &Vec<&Coin>) -> (r: u128)
    ensures
        r == total_witness_size(coins_of(coins@)),
        r <= coins@.len() * P2WSH_MULTISIG_2OF2_WITNESS_SIZE,
        r <= MAX_VIRTUAL_SIZE,
{
    let ghost all = coins_of(coins@);
    let mut sum: u128 = 0;
    let mut i: usize = 0;
    assert(all.take(0) =~= Seq::empty());
    while i < coins.len()
        invariant
            i <= coins@.len(),
            all == coins_of(coins@),
            sum == total_witness_size(all.take(i as int)),
            sum <= i * P2WSH_MULTISIG_2OF2_WITNESS_SIZE,
        decreases coins@.len() - i,
    {
        proof {
            assert(all.take(i + 1).drop_last() =~= all.take(i as int));
            assert(all.take(i + 1).last() == *coins@[i as int]);
        }
        match coins[i].1.witness_size() {
            Some(n) => {
                sum = sum + n as u128;
            },
            None => {},
        }
        i += 1;
    }
    assert(all.take(i as int) =~= all);
    sum
}

/// Builds the unsigned inputs that spend `coins`, one for each, in order.
pub fn build_inputs(coins: &Vec<&Coin>) -> (r: Vec<TxIn>)
    ensures
        inputs_view(r@) == spending_inputs(coins_of(coins@)),
{
    let mut input: Vec<TxIn> = Vec::new();
    let mut i: usize = 0;
    while i < coins.len()
        invariant
            i <= coins@.len(),
            input@.len() == i,
            forall|j: int| 0 <= j < i ==> (#[trigger] input@[j])@ == spending_input(*coins@[j]),
        decreases coins@.len() - i,
    {
        let utxo = &coins[i].0;
        let txin = TxIn {
            previous_output: OutPoint { txid: utxo.txid, vout: utxo.vout },
            script_sig: Vec::new(),
            sequence: 0,
            witness: Vec::new(),
        };
        assert(txin.witness.deep_view() =~= Seq::empty());
        input.push(txin);
        i += 1;
    }
    assert(inputs_view(input@) =~= spending_inputs(coins_of(coins@)));
    input
}

/// Whatever the list holds, in whatever order and however often: no fidelity
/// bond, hashlock contract or timelock contract passes the filter. What
/// passes is a seed coin or a swap coin that was offered, and filtering
/// again changes nothing.
pub proof fn lemma_spendable_coins(coins: Seq<Coin>)
    ensures
        forall|i: int| 0 <= i < spendable_coins(coins).len() ==> (#[trigger] spendable_coins(coins)[i]).1.is_spendable(),
        forall|i: int|
            0 <= i < spendable_coins(coins).len() ==> {
                let info = (#[trigger] spendable_coins(coins)[i]).1;
                !(info is FidelityBondCoin) && !(info is HashlockContract) && !(info is TimelockContract)
            },
        forall|i: int| 0 <= i < spendable_coins(coins).len() ==> coins.contains(#[trigger] spendable_coins(coins)[i]),
        spendable_coins(coins).len() <= coins.len(),
        spendable_coins(spendable_coins(coins)) == spendable_coins(coins),
{
    let pred = |c: Coin| c.1.is_spendable();
    let kept = spendable_coins(coins);
    coins.lemma_filter_len(pred);
    assert forall|i: int| 0 <= i < kept.len() implies (#[trigger] kept[i]).1.is_spendable()
        && coins.contains(kept[i]) by {
        coins.lemma_filter_pred(pred, i);
        assert(kept.contains(kept[i]));
        coins.lemma_filter_contains_rev(pred, kept[i]);
    }
    lemma_filter_all(kept);
}

/// A coin that the filter excludes leaves no trace, wherever in the list it
/// stands: with it or without it, the same coins are kept.
pub proof fn lemma_excluded_coin_ignored(before: Seq<Coin>, coin: Coin, after: Seq<Coin>)
    requires
        !coin.1.is_spendable(),
    ensures
        spendable_coins(before.push(coin) + after) == spendable_coins(before + after),
        total_value(spendable_coins(before.push(coin) + after)) == total_value(spendable_coins(before + after)),
{
    let pred = |c: Coin| c.1.is_spendable();
    Seq::filter_distributes_over_add(before.push(coin), after, pred);
    Seq::filter_distributes_over_add(before, after, pred);
    before.lemma_filter_push(coin, pred);
}

/// A list of spendable coins passes the filter unchanged.
pub proof fn lemma_filter_all(coins: Seq<Coin>)
    requires
        forall|i: int| 0 <= i < coins.len() ==> (#[trigger] coins[i]).1.is_spendable(),
    ensures
        spendable_coins(coins) == coins,
    decreases coins.len(),
{
    let pred = |c: Coin| c.1.is_spendable();
    if coins.len() == 0 {
        assert(coins.filter(pred) =~= coins);
    } else {
        lemma_filter_all(coins.drop_last());
        assert(coins =~= coins.drop_last().push(coins.last()));
        coins.drop_last().lemma_filter_push(coins.last(), pred);
    }
}

} // verus!
