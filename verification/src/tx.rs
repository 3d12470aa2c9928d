//! Transactions as plain data, and their measured sizes.
//!
//! The engine assembles a transaction field by field, so the fields are held
//! as integers and byte strings. How many bytes a transaction serialises to is
//! the `bitcoin` crate's business: the two size functions hand the fields to
//! that crate and report what it measures. That crate cannot hold a witness
//! of more than 2^32 - 1 bytes, so the virtual size is measured only of
//! transactions whose witnesses stay within that.

use crate::amount::Amount;
use bitcoin::absolute::LockTime;
use bitcoin::hashes::Hash as _;
use bitcoin::transaction::Version;
use bitcoin::{
    Amount as BtcAmount, OutPoint as BtcOutPoint, ScriptBuf, Sequence,
    Transaction as BtcTransaction, TxIn as BtcTxIn, TxOut as BtcTxOut, Witness,
};
use vstd::prelude::*;

verus! {

/// The version number of the transactions that the engine builds.
pub const TX_VERSION: i32 = 2;

/// Lock times below this value are block heights.
pub const LOCK_TIME_THRESHOLD: u32 = 500_000_000;

/// A reference to an output of an earlier transaction.
#[derive(Debug, Clone, Copy, PartialEq, Eq)]
pub struct OutPoint {
    pub txid: [u8; 32],
    pub vout: u32,
}

/// A transaction input.
#[derive(Debug, PartialEq, Eq)]
pub struct TxIn {
    pub previous_output: OutPoint,
    pub script_sig: Vec<u8>,
    pub sequence: u32,
    /// The unlock proof: a stack of byte strings, empty until the input is signed.
    pub witness: Vec<Vec<u8>>,
}

/// A transaction output.
#[derive(Debug, PartialEq, Eq)]
pub struct TxOut {
    pub value: Amount,
    pub script_pubkey: Vec<u8>,
}

/// A transaction.
#[derive(Debug, PartialEq, Eq)]
pub struct Transaction {
    pub version: i32,
    pub lock_time: u32,
    pub input: Vec<TxIn>,
    pub output: Vec<TxOut>,
}

/// The mathematical content of a [`TxIn`].
pub struct TxInView {
    pub previous_output: OutPoint,
    pub script_sig: Seq<u8>,
    pub sequence: u32,
    pub witness: Seq<Seq<u8>>,
}

/// The mathematical content of a [`TxOut`].
pub struct TxOutView {
    pub value: nat,
    pub script_pubkey: Seq<u8>,
}

/// The mathematical content of a [`Transaction`].
pub struct TransactionView {
    pub version: i32,
    pub lock_time: u32,
    pub input: Seq<TxInView>,
    pub output: Seq<TxOutView>,
}

impl View for TxIn {
    type V = TxInView;

    open spec fn view(&self) -> TxInView {
        TxInView {
            previous_output: self.previous_output,
            script_sig: self.script_sig@,
            sequence: self.sequence,
            witness: self.witness.deep_view(),
        }
    }
}

impl View for TxOut {
    type V = TxOutView;

    open spec fn view(&self) -> TxOutView {
        TxOutView { value: self.value@, script_pubkey: self.script_pubkey@ }
    }
}

/// The contents of a list of inputs.
pub open spec fn inputs_view(input: Seq<TxIn>) -> Seq<TxInView> {
    input.map_values(|i: TxIn| i@)
}

/// The contents of a list of outputs.
pub open spec fn outputs_view(output: Seq<TxOut>) -> Seq<TxOutView> {
    output.map_values(|o: TxOut| o@)
}

impl View for Transaction {
    type V = TransactionView;

    open spec fn view(&self) -> TransactionView {
        TransactionView {
            version: self.version,
            lock_time: self.lock_time,
            input: inputs_view(self.input@),
            output: outputs_view(self.output@),
        }
    }
}

/// The size in bytes of a transaction serialised without its witness data,
/// as `bitcoin::Transaction::base_size` measures it.
pub uninterp spec fn tx_base_size(tx: TransactionView) -> nat;

/// The virtual size of a transaction, as `bitcoin::Transaction::vsize`
/// measures it.
pub uninterp spec fn tx_vsize(tx: TransactionView) -> nat;

/// The least value that an output locked by `script` should hold to be
/// relayed, in satoshis, as `bitcoin::Script::minimal_non_dust` computes it.
pub uninterp spec fn script_minimal_non_dust(script: Seq<u8>) -> nat;

/// The longest script that [`minimal_non_dust`] takes: 2^52 bytes. The
/// `bitcoin` crate computes the value in 64 bits and cannot go much further.
pub const MAX_SCRIPT_SIZE: u64 = 0x10_0000_0000_0000;

/// The base size of a transaction without inputs and outputs: version, two
/// counts and lock time. No transaction has a smaller one.
pub const MIN_BASE_SIZE: usize = 10;

/// The largest size of a witness that can be measured: what 32 bits count.
pub const MAX_WITNESS_SIZE: u64 = 0xFFFF_FFFF;

/// The bytes that the length prefix of an item of `len` bytes takes.
pub open spec fn length_prefix_size(len: nat) -> nat {
    if len <= 0xFC {
        1
    } else if len <= 0xFFFF {
        3
    } else if len <= 0xFFFF_FFFF {
        5
    } else {
        9
    }
}

/// The bytes that the items of a witness take together, each counted with
/// its length prefix.
pub open spec fn witness_content_size(witness: Seq<Seq<u8>>) -> nat
    decreases witness.len(),
{
    if witness.len() == 0 {
        0
    } else {
        witness_content_size(witness.drop_last()) + length_prefix_size(witness.last().len())
            + witness.last().len()
    }
}

/// The `bitcoin` crate's refusal of a number as a lock time. It is carried to
/// the caller unread.
#[verifier::external_type_specification]
#[verifier::external_body]
pub struct ExConversionError(bitcoin::absolute::ConversionError);

/// Calls `bitcoin::absolute::LockTime::from_height` and hands out the lock
/// time's consensus encoding. A height below 500,000,000 is accepted and is
/// its own encoding; any other is refused.
#[verifier::external_body]
fn lock_time_from_height(height: u32) -> (r: Result<u32, bitcoin::absolute::ConversionError>)
    ensures
        r.is_ok() == (height < LOCK_TIME_THRESHOLD),
        r matches Ok(t) ==> t == height,
{
    match bitcoin::absolute::LockTime::from_height(height) {
        Ok(lock_time) => Ok(lock_time.to_consensus_u32()),
        Err(e) => Err(e),
    }
}

/// Rebuilds `tx` as a `bitcoin::Transaction` and calls
/// `bitcoin::Transaction::base_size` on it. Every field is carried over but
/// the witnesses, which stay empty: the base size is the size without
/// witness data, and the outside function never reads them. The size counts
/// four bytes for the version, four for the lock time, and one or more for
/// each of the two counts, whatever else the transaction holds.
#[verifier::external_body]
fn measure_base_size(tx: &Transaction) -> (r: usize)
    ensures
        r == tx_base_size(tx@),
        r >= MIN_BASE_SIZE,
{
    let lock_time = LockTime::from_consensus(tx.lock_time);
    let mut t = BtcTransaction { version: Version(tx.version), lock_time, input: vec![], output: vec![] };
    for i in &tx.input {
        t.input.push(BtcTxIn {
            previous_output: BtcOutPoint::new(bitcoin::Txid::from_byte_array(i.previous_output.txid), i.previous_output.vout),
            script_sig: ScriptBuf::from_bytes(i.script_sig.clone()),
            sequence: Sequence(i.sequence),
            witness: Witness::new(),
        });
    }
    for o in &tx.output {
        let script_pubkey = ScriptBuf::from_bytes(o.script_pubkey.clone());
        t.output.push(BtcTxOut { value: BtcAmount::from_sat(o.value.sat), script_pubkey });
    }
    t.base_size()
}

/// Rebuilds `tx` as a `bitcoin::Transaction`, field for field, and calls
/// `bitcoin::Transaction::vsize` on it. The outside crate keeps a witness as
/// one buffer, each item behind its length prefix, and records where each
/// item starts as a 32-bit number; it panics on a start that does not fit.
/// So every witness must fit 32 bits when laid out that way.
#[verifier::external_body]
fn measure_vsize(tx: &Transaction) -> (r: usize)
    requires
        tx@.witnesses_fit(),
    ensures
        r == tx_vsize(tx@),
{
    let lock_time = LockTime::from_consensus(tx.lock_time);
    let mut t = BtcTransaction { version: Version(tx.version), lock_time, input: vec![], output: vec![] };
    for i in &tx.input {
        t.input.push(BtcTxIn {
            previous_output: BtcOutPoint::new(bitcoin::Txid::from_byte_array(i.previous_output.txid), i.previous_output.vout),
            script_sig: ScriptBuf::from_bytes(i.script_sig.clone()),
            sequence: Sequence(i.sequence),
            witness: Witness::from_slice(&i.witness),
        });
    }
    for o in &tx.output {
        let script_pubkey = ScriptBuf::from_bytes(o.script_pubkey.clone());
        t.output.push(BtcTxOut { value: BtcAmount::from_sat(o.value.sat), script_pubkey });
    }
    t.vsize()
}

/// Calls `bitcoin::Script::minimal_non_dust` on the script with these bytes.
/// That function multiplies the script's length, plus less than 200, by 3000
/// in 64 bits and panics if the product overflows, which it does from about
/// 2^52.4 bytes on; the lengths admitted here stay below that.
#[verifier::external_body]
fn measure_minimal_non_dust(script: &Vec<u8>) -> (r: u64)
    requires
        script@.len() <= MAX_SCRIPT_SIZE,
    ensures
        r == script_minimal_non_dust(script@),
{
    bitcoin::Script::from_bytes(script.as_slice()).minimal_non_dust().to_sat()
}

/// The least value that an output locked by `script` should hold, below which
/// it would cost more to spend than it is worth.
pub fn minimal_non_dust(script: &Vec<u8>) -> (r: Amount)
    requires
        script@.len() <= MAX_SCRIPT_SIZE,
    ensures
        r@ == script_minimal_non_dust(script@),
{
    Amount::from_sat(measure_minimal_non_dust(script))
}

/// The bytes that the length prefix of an item of `len` bytes takes.
pub fn prefix_size(len: usize) -> (r: u64)
    ensures
        r == length_prefix_size(len as nat),
{
    if len <= 0xFC {
        1
    } else if len <= 0xFFFF {
        3
    } else if len <= 0xFFFF_FFFF {
        5
    } else {
        9
    }
}

/// Whether the items of `witness`, each counted with its length prefix, take
/// no more bytes than 32 bits count.
pub fn witness_fits(witness: &Vec<Vec<u8>>) -> (r: bool)
    ensures
        r == (witness_content_size(witness.deep_view()) <= MAX_WITNESS_SIZE),
{
    let ghost items = witness.deep_view();
    let mut size: u64 = 0;
    let mut i: usize = 0;
    assert(items.take(0) =~= Seq::empty());
    while i < witness.len()
        invariant
            i <= witness@.len(),
            items == witness.deep_view(),
            items.len() == witness@.len(),
            size == witness_content_size(items.take(i as int)),
            size <= MAX_WITNESS_SIZE,
        decreases witness@.len() - i,
    {
        let len = witness[i].len();
        proof {
            assert(items.take(i + 1).drop_last() =~= items.take(i as int));
            assert(items.take(i + 1).last() == witness@[i as int]@);
            lemma_witness_size_grows(items, i + 1);
        }
        if len > 0xFFFF_FFFF {
            return false;
        }
        let next: u64 = size + prefix_size(len) + len as u64;
        if next > MAX_WITNESS_SIZE {
            return false;
        }
        size = next;
        i += 1;
    }
    assert(items.take(i as int) =~= items);
    true
}

/// The first items of a witness take no more bytes than all of them.
pub proof fn lemma_witness_size_grows(witness: Seq<Seq<u8>>, n: int)
    requires
        0 <= n <= witness.len(),
    ensures
        witness_content_size(witness.take(n)) <= witness_content_size(witness),
    decreases witness.len() - n,
{
    if n < witness.len() {
        lemma_witness_size_grows(witness, n + 1);
        assert(witness.take(n + 1).drop_last() =~= witness.take(n));
    } else {
        assert(witness.take(n) =~= witness);
    }
}

/// The lock time that names block `height`, or the refusal of a height that
/// no lock time can name.
pub fn lock_time_at_height(height: u64) -> (r: Result<u32, bitcoin::absolute::ConversionError>)
    ensures
        r.is_ok() == (height < LOCK_TIME_THRESHOLD),
        r matches Ok(t) ==> t == height,
{
    let clipped: u32 = if height > 0xFFFF_FFFF {
        0xFFFF_FFFF
    } else {
        height as u32
    };
    lock_time_from_height(clipped)
}

impl TransactionView {
    /// Whether the witness of every input is small enough to be measured.
    pub open spec fn witnesses_fit(self) -> bool {
        forall|i: int|
            0 <= i < self.input.len() ==> witness_content_size((#[trigger] self.input[i]).witness)
                <= MAX_WITNESS_SIZE
    }

    /// This transaction with `out` added behind its outputs.
    pub open spec fn with_output(self, out: TxOutView) -> TransactionView {
        TransactionView { output: self.output.push(out), ..self }
    }

    /// This transaction with the value of output `index` replaced.
    pub open spec fn with_output_value(self, index: int, value: nat) -> TransactionView {
        TransactionView {
            output: self.output.update(
                index,
                TxOutView { value, script_pubkey: self.output[index].script_pubkey },
            ),
            ..self
        }
    }
}

impl Transaction {
    /// Adds `out` behind the outputs.
    pub fn push_output(&mut self, out: TxOut)
        ensures
            final(self)@ == old(self)@.with_output(out@),
            final(self).output@.len() == old(self).output@.len() + 1,
    {
        self.output.push(out);
        assert(outputs_view(self.output@) =~= outputs_view(old(self).output@).push(out@));
    }

    /// Takes the last output away again.
    pub fn pop_output(&mut self) -> (r: TxOut)
        requires
            old(self).output@.len() > 0,
        ensures
            old(self)@ == final(self)@.with_output(r@),
            final(self).output@.len() == old(self).output@.len() - 1,
    {
        let out = self.output.pop().unwrap();
        assert(outputs_view(old(self).output@) =~= outputs_view(self.output@).push(out@));
        out
    }

    /// Fills in the value of output `index`.
    pub fn set_output_value(&mut self, index: usize, value: Amount)
        requires
            index < old(self).output@.len(),
        ensures
            final(self)@ == old(self)@.with_output_value(index as int, value@),
            final(self).output@.len() == old(self).output@.len(),
    {
        self.output[index].value = value;
        assert(outputs_view(self.output@) =~= old(self)@.with_output_value(index as int, value@).output);
    }

    /// The size in bytes of this transaction without its witness data.
    pub fn base_size(&self) -> (r: usize)
        ensures
            r == tx_base_size(self@),
            r >= MIN_BASE_SIZE,
    {
        measure_base_size(self)
    }

    /// The virtual size of this transaction. Its witnesses must be small
    /// enough to be measured, which [`Transaction::witnesses_fit`] tells.
    pub fn vsize(&self) -> (r: usize)
        requires
            self@.witnesses_fit(),
        ensures
            r == tx_vsize(self@),
    {
        measure_vsize(self)
    }

    /// Whether the witness of every input is small enough to be measured.
    pub fn witnesses_fit(&self) -> (r: bool)
        ensures
            r == self@.witnesses_fit(),
    {
        let mut i: usize = 0;
        while i < self.input.len()
            invariant
                i <= self.input@.len(),
                forall|j: int|
                    0 <= j < i ==> witness_content_size((#[trigger] self@.input[j]).witness)
                        <= MAX_WITNESS_SIZE,
            decreases self.input@.len() - i,
        {
            if !witness_fits(&self.input[i].witness) {
                assert(self@.input[i as int].witness == self.input@[i as int].witness.deep_view());
                return false;
            }
            assert(self@.input[i as int].witness == self.input@[i as int].witness.deep_view());
            i += 1;
        }
        true
    }
}

} // verus!
