use bitcoin::hashes::Hash as _;
use coinswap::address::Address;
use coinswap::amount::Amount;
use coinswap::network::Network;
use coinswap::tx::{OutPoint, TxIn};
use coinswap::wallet::coins::{
    build_inputs, checked_total_value, retain_spendable, sum_values, sum_witness_sizes,
};
use coinswap::wallet::error::Upstream;
use coinswap::wallet::{Destination, UTXOSpendInfo, Utxo, Wallet, WalletError};

fn coin_of(n: u8, sats: u64, info: UTXOSpendInfo) -> (Utxo, UTXOSpendInfo) {
    (Utxo { txid: [n; 32], vout: n as u32 + 1, amount: Amount::from_sat(sats), script_pub_key: vec![n] }, info)
}

fn seed(n: u8, sats: u64) -> (Utxo, UTXOSpendInfo) {
    coin_of(n, sats, UTXOSpendInfo::SeedCoin { path: String::from("m/0"), input_value: Amount::from_sat(sats) })
}

fn swap(n: u8, sats: u64) -> (Utxo, UTXOSpendInfo) {
    coin_of(n, sats, UTXOSpendInfo::SwapCoin { multisig_redeemscript: vec![1, 2, 3] })
}

fn bond(n: u8, sats: u64) -> (Utxo, UTXOSpendInfo) {
    coin_of(n, sats, UTXOSpendInfo::FidelityBondCoin { index: 4, input_value: Amount::from_sat(sats) })
}

fn hashlock(n: u8, sats: u64) -> (Utxo, UTXOSpendInfo) {
    let info = UTXOSpendInfo::HashlockContract {
        swapcoin_multisig_redeemscript: vec![9],
        input_value: Amount::from_sat(sats),
    };
    coin_of(n, sats, info)
}

fn timelock(n: u8, sats: u64) -> (Utxo, UTXOSpendInfo) {
    let info = UTXOSpendInfo::TimelockContract {
        swapcoin_multisig_redeemscript: vec![9],
        input_value: Amount::from_sat(sats),
    };
    coin_of(n, sats, info)
}

fn address_number(n: u8) -> Address {
    let hash = bitcoin::WPubkeyHash::from_byte_array([n; 20]);
    let script = bitcoin::ScriptBuf::new_p2wpkh(&hash);
    let address = bitcoin::Address::from_script(&script, bitcoin::Network::Signet).unwrap();
    Address::from_str(&address.to_string()).unwrap()
}

#[test]
fn witness_size_table() {
    assert_eq!(seed(1, 1).1.witness_size(), Some(107));
    assert_eq!(swap(1, 1).1.witness_size(), Some(222));
    assert_eq!(bond(1, 1).1.witness_size(), None);
    assert_eq!(hashlock(1, 1).1.witness_size(), None);
    assert_eq!(timelock(1, 1).1.witness_size(), None);
}

#[test]
fn retained_coins_are_spendable_ones_in_order() {
    let coins = vec![timelock(1, 1), swap(2, 2), bond(3, 3), seed(4, 4), hashlock(5, 5), swap(2, 2)];
    let refs: Vec<&(Utxo, UTXOSpendInfo)> = coins.iter().collect();
    assert_eq!(retain_spendable(&refs), vec![&coins[1], &coins[3], &coins[5]]);
    let locked = vec![&coins[0], &coins[2], &coins[4], &coins[2]];
    assert!(retain_spendable(&locked).is_empty());
    let kept = retain_spendable(&refs);
    assert_eq!(retain_spendable(&kept), kept);
}

#[test]
fn values_and_witness_sizes_add_up() {
    let coins = vec![seed(1, 100_000), swap(2, 50_000), seed(3, 7)];
    let refs: Vec<&(Utxo, UTXOSpendInfo)> = coins.iter().collect();
    assert_eq!(sum_values(&refs), 150_007);
    assert_eq!(sum_witness_sizes(&refs), 107 + 222 + 107);
    assert_eq!(checked_total_value(&refs), Some(Amount::from_sat(150_007)));
    let none: Vec<&(Utxo, UTXOSpendInfo)> = vec![];
    assert_eq!(sum_values(&none), 0);
    assert_eq!(sum_witness_sizes(&none), 0);
    assert_eq!(checked_total_value(&none), Some(Amount::from_sat(0)));
}

#[test]
fn total_value_beyond_64_bits_is_told() {
    let coins = vec![seed(1, u64::MAX), seed(2, 1)];
    let refs: Vec<&(Utxo, UTXOSpendInfo)> = coins.iter().collect();
    assert_eq!(sum_values(&refs), 1 << 64);
    assert_eq!(checked_total_value(&refs), None);
    assert_eq!(checked_total_value(&vec![&coins[0]]), Some(Amount::from_sat(u64::MAX)));
}

#[test]
fn inputs_point_at_the_coins() {
    let coins = vec![seed(1, 10), swap(2, 20)];
    let refs: Vec<&(Utxo, UTXOSpendInfo)> = coins.iter().collect();
    assert_eq!(
        build_inputs(&refs),
        vec![
            TxIn { previous_output: OutPoint { txid: [1; 32], vout: 2 }, script_sig: vec![], sequence: 0, witness: vec![] },
            TxIn { previous_output: OutPoint { txid: [2; 32], vout: 3 }, script_sig: vec![], sequence: 0, witness: vec![] },
        ]
    );
    assert!(build_inputs(&vec![]).is_empty());
}

#[test]
fn internal_addresses_are_handed_out_once_and_in_order() {
    let mut wallet = Wallet {
        network: Network::Signet,
        chain_height: 5,
        internal_addresses: vec![address_number(1), address_number(2), address_number(3)],
        next_internal: 0,
    };
    assert_eq!(wallet.get_next_internal_addresses(0), Ok(vec![]));
    assert_eq!(wallet.next_internal, 0);
    assert_eq!(wallet.get_next_internal_addresses(1), Ok(vec![address_number(1)]));
    assert_eq!(wallet.next_internal, 1);
    assert_eq!(
        wallet.get_next_internal_addresses(3),
        Err(WalletError::UpstreamFailure(Upstream::AddressDerivation))
    );
    assert_eq!(wallet.next_internal, 1);
    assert_eq!(
        wallet.get_next_internal_addresses(2),
        Ok(vec![address_number(2), address_number(3)])
    );
    assert_eq!(wallet.next_internal, 3);
    assert_eq!(wallet.get_next_internal_addresses(0), Ok(vec![]));
    assert_eq!(
        wallet.get_next_internal_addresses(1),
        Err(WalletError::UpstreamFailure(Upstream::AddressDerivation))
    );
    assert_eq!(wallet.internal_addresses.len(), 3);
    wallet.next_internal = 10;
    assert_eq!(
        wallet.get_next_internal_addresses(usize::MAX),
        Err(WalletError::UpstreamFailure(Upstream::AddressDerivation))
    );
    assert_eq!(wallet.next_internal, 10);
}

#[test]
fn destination_resolves_to_a_script() {
    let mut wallet = Wallet {
        network: Network::Signet,
        chain_height: 5,
        internal_addresses: vec![address_number(1)],
        next_internal: 0,
    };
    let mut first = vec![0u8, 20];
    first.extend_from_slice(&[1; 20]);
    assert_eq!(wallet.resolve_destination(Destination::Wallet), Ok(first));
    assert_eq!(wallet.next_internal, 1);
    assert_eq!(
        wallet.resolve_destination(Destination::Wallet),
        Err(WalletError::UpstreamFailure(Upstream::AddressDerivation))
    );
    let mut seventh = vec![0u8, 20];
    seventh.extend_from_slice(&[7; 20]);
    assert_eq!(wallet.resolve_destination(Destination::Address(address_number(7))), Ok(seventh));
    let mainnet = Address::from_str("bc1qar0srrr7xfkvy5l643lydnw9re59gtzzwf5mdq").unwrap();
    assert_eq!(
        wallet.resolve_destination(Destination::Address(mainnet.clone())),
        Err(WalletError::InvalidDestination { address: mainnet, network: Network::Signet })
    );
    assert_eq!(wallet.next_internal, 1);
}
