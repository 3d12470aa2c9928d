use coinswap::address::Address;
use coinswap::amount::Amount;
use coinswap::fee::FeeRate;
use coinswap::maker::MakerError;
use coinswap::network::Network;
use coinswap::protocol::error::ContractError;
use coinswap::tx::{OutPoint, Transaction, TxIn, TxOut};
use coinswap::wallet::error::Upstream;
use coinswap::wallet::{
    BasicTxBuilder, BuildTxParams, ContractTxBuilder, Destination, FidelityTxBuilder, SendAmount,
    TransactionBuilder, TxInput, UTXOSpendInfo, Utxo, Wallet, WalletError,
};

const DESTINATION: &str = "132F25rTsvBdp9JzLLBHP5mvGY66i1xdiM";
const CHANGE: &str = "bc1qar0srrr7xfkvy5l643lydnw9re59gtzzwf5mdq";

fn wallet_with_change_address() -> Wallet {
    Wallet {
        network: Network::Bitcoin,
        chain_height: 840_000,
        internal_addresses: vec![Address::from_str(CHANGE).unwrap()],
        next_internal: 0,
    }
}

fn seed_utxo(n: u8, sats: u64) -> Utxo {
    Utxo { txid: [n; 32], vout: 0, amount: Amount::from_sat(sats), script_pub_key: vec![] }
}

fn seed_info(sats: u64) -> UTXOSpendInfo {
    UTXOSpendInfo::SeedCoin { path: String::from("m/84'/0'/0'/1/0"), input_value: Amount::from_sat(sats) }
}

fn bond_info(sats: u64) -> UTXOSpendInfo {
    UTXOSpendInfo::FidelityBondCoin { index: 1, input_value: Amount::from_sat(sats) }
}

fn single_signature() -> Vec<Vec<u8>> {
    vec![vec![0x30; 71], vec![0x02; 33]]
}

fn two_signatures() -> Vec<Vec<u8>> {
    vec![vec![], vec![0x30; 72], vec![0x30; 72], vec![0x52; 71]]
}

fn params(amount: SendAmount) -> BuildTxParams {
    BuildTxParams {
        fee_rate: FeeRate::from_sat_per_vb(10).unwrap(),
        amount,
        destination: Destination::Address(Address::from_str(DESTINATION).unwrap()),
        coins_to_spend: vec![
            (seed_utxo(1, 100_000), seed_info(100_000)),
            (seed_utxo(2, 1_000_000), bond_info(1_000_000)),
            (seed_utxo(3, 50_000), seed_info(50_000)),
        ],
    }
}

#[test]
fn basic_builder_builds_a_direct_send() {
    let mut wallet = wallet_with_change_address();
    let built = BasicTxBuilder
        .build_tx(&mut wallet, params(SendAmount::Amount(Amount::from_sat(120_000))))
        .unwrap();
    let mut same_wallet = wallet_with_change_address();
    let request = params(SendAmount::Amount(Amount::from_sat(120_000)));
    let direct = same_wallet
        .spend_from_wallet(request.fee_rate, request.amount, request.destination, &request.coins_to_spend)
        .unwrap();
    assert_eq!(built, direct);
    assert_eq!(wallet.next_internal, 1);
    assert_eq!(built.tx.input.len(), 2);
    assert_eq!(built.tx.input[0].previous_output, OutPoint { txid: [1; 32], vout: 0 });
    assert_eq!(built.tx.input[1].previous_output, OutPoint { txid: [3; 32], vout: 0 });
    assert_eq!(built.tx.output[0].value, Amount::from_sat(120_000));
    assert_eq!(built.tx.output[1].value, Amount::from_sat(27_900));
    assert_eq!(built.vsize, 210);
}

#[test]
fn basic_builder_reports_what_the_send_reports() {
    let mut wallet = wallet_with_change_address();
    wallet.network = Network::Regtest;
    let outcome = BasicTxBuilder.build_tx(&mut wallet, params(SendAmount::Max));
    assert_eq!(
        outcome,
        Err(WalletError::InvalidDestination {
            address: Address::from_str(DESTINATION).unwrap(),
            network: Network::Regtest,
        })
    );
}

#[test]
fn signing_installs_the_proofs_and_nothing_else() {
    let mut wallet = wallet_with_change_address();
    let mut spend = BasicTxBuilder.build_tx(&mut wallet, params(SendAmount::Max)).unwrap();
    let unsigned = Transaction {
        version: 2,
        lock_time: 840_000,
        input: vec![
            TxIn { previous_output: OutPoint { txid: [1; 32], vout: 0 }, script_sig: vec![], sequence: 0, witness: vec![] },
            TxIn { previous_output: OutPoint { txid: [3; 32], vout: 0 }, script_sig: vec![], sequence: 0, witness: vec![] },
        ],
        output: vec![TxOut {
            value: Amount::from_sat(150_000 - 1_790),
            script_pubkey: Address::from_str(DESTINATION).unwrap().script_pubkey(),
        }],
    };
    assert_eq!(spend.tx, unsigned);
    let inputs = vec![
        TxInput { utxo: seed_utxo(1, 100_000), spend_info: seed_info(100_000), witness: single_signature() },
        TxInput {
            utxo: seed_utxo(3, 50_000),
            spend_info: UTXOSpendInfo::SwapCoin { multisig_redeemscript: vec![0x52; 71] },
            witness: two_signatures(),
        },
    ];
    assert_eq!(BasicTxBuilder.sign_tx(&mut spend.tx, &inputs), Ok(()));
    let mut signed = unsigned;
    signed.input[0].witness = single_signature();
    signed.input[1].witness = two_signatures();
    assert_eq!(spend.tx, signed);
}

#[test]
fn signing_refuses_inputs_that_do_not_fit() {
    let mut wallet = wallet_with_change_address();
    let mut spend = BasicTxBuilder.build_tx(&mut wallet, params(SendAmount::Max)).unwrap();
    let unsigned = Transaction {
        version: spend.tx.version,
        lock_time: spend.tx.lock_time,
        input: vec![
            TxIn { previous_output: OutPoint { txid: [1; 32], vout: 0 }, script_sig: vec![], sequence: 0, witness: vec![] },
            TxIn { previous_output: OutPoint { txid: [3; 32], vout: 0 }, script_sig: vec![], sequence: 0, witness: vec![] },
        ],
        output: vec![TxOut { value: Amount::from_sat(148_210), script_pubkey: spend.tx.output[0].script_pubkey.clone() }],
    };
    let failure = Err(WalletError::UpstreamFailure(Upstream::Signing));

    let too_few =
        vec![TxInput { utxo: seed_utxo(1, 100_000), spend_info: seed_info(100_000), witness: single_signature() }];
    assert_eq!(BasicTxBuilder.sign_tx(&mut spend.tx, &too_few), failure);
    assert_eq!(spend.tx, unsigned);

    assert_eq!(BasicTxBuilder.sign_tx(&mut spend.tx, &[]), failure);
    assert_eq!(spend.tx, unsigned);

    let with_a_bond = vec![
        TxInput { utxo: seed_utxo(1, 100_000), spend_info: seed_info(100_000), witness: single_signature() },
        TxInput { utxo: seed_utxo(2, 1_000_000), spend_info: bond_info(1_000_000), witness: single_signature() },
    ];
    assert_eq!(BasicTxBuilder.sign_tx(&mut spend.tx, &with_a_bond), failure);
    assert_eq!(spend.tx, unsigned);
}

#[test]
fn signed_size_is_measured_not_assumed() {
    let mut wallet = wallet_with_change_address();
    let request = BuildTxParams {
        fee_rate: FeeRate::from_sat_per_vb(10).unwrap(),
        amount: SendAmount::Max,
        destination: Destination::Address(Address::from_str(DESTINATION).unwrap()),
        coins_to_spend: vec![(seed_utxo(1, 100_000), seed_info(100_000))],
    };
    let mut spend = BasicTxBuilder.build_tx(&mut wallet, request).unwrap();
    // Priced at (340 + 107) / 4 = 111 virtual bytes. Unsigned, it measures
    // its 85 base bytes.
    assert_eq!(spend.vsize, 111);
    assert_eq!(spend.tx.vsize(), 85);
    assert!(!spend.measures_as_priced());
    let inputs =
        vec![TxInput { utxo: seed_utxo(1, 100_000), spend_info: seed_info(100_000), witness: single_signature() }];
    BasicTxBuilder.sign_tx(&mut spend.tx, &inputs).unwrap();
    // With a witness of exactly 107 bytes, marker and flag, the weight is
    // 449 and the transaction measures 113 virtual bytes.
    assert_eq!(spend.tx.vsize(), 113);
    assert!(!spend.measures_as_priced());
    spend.vsize = 113;
    assert!(spend.measures_as_priced());
    // A witness of 99 bytes brings the weight to 441: 111 virtual bytes.
    spend.tx.input[0].witness = vec![vec![0x30; 63], vec![0x02; 33]];
    spend.vsize = 111;
    assert!(spend.measures_as_priced());
}

#[test]
fn strategies_are_plain_markers() {
    assert_eq!(BasicTxBuilder, BasicTxBuilder);
    assert_eq!(format!("{:?}", FidelityTxBuilder), "FidelityTxBuilder");
    assert_eq!(format!("{:?}", ContractTxBuilder), "ContractTxBuilder");
}

#[test]
fn maker_error_says_where_a_failure_came_from() {
    let io = std::io::Error::new(std::io::ErrorKind::UnexpectedEof, "short read");
    assert!(matches!(MakerError::from(io), MakerError::IO(e) if e.kind() == std::io::ErrorKind::UnexpectedEof));

    let cbor = serde_cbor::from_slice::<u8>(&[0xff]).unwrap_err();
    assert!(matches!(MakerError::from(cbor), MakerError::Deserialize(_)));

    let secp = bitcoin::secp256k1::Error::InvalidSignature;
    assert!(matches!(MakerError::from(secp), MakerError::Secp(bitcoin::secp256k1::Error::InvalidSignature)));

    let contract = ContractError::Protocol("contract amount too low");
    assert!(matches!(
        MakerError::from(contract),
        MakerError::ContractError(ContractError::Protocol("contract amount too low"))
    ));

    let wallet = WalletError::UpstreamFailure(Upstream::AddressDerivation);
    assert!(matches!(
        MakerError::from(wallet),
        MakerError::Wallet(WalletError::UpstreamFailure(Upstream::AddressDerivation))
    ));
}

#[test]
fn poisoned_locks_become_one_error() {
    let mutex = std::sync::Mutex::new(5u8);
    let poisoned = std::sync::PoisonError::new(mutex.lock().unwrap());
    assert!(matches!(MakerError::from(poisoned), MakerError::MutexPossion));
    let lock = std::sync::RwLock::new(5u8);
    let poisoned = std::sync::PoisonError::new(lock.read().unwrap());
    assert!(matches!(MakerError::from(poisoned), MakerError::MutexPossion));
    let poisoned = std::sync::PoisonError::new(lock.write().unwrap());
    assert!(matches!(MakerError::from(poisoned), MakerError::MutexPossion));
}
