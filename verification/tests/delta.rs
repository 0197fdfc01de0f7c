//! Tests of the balance delta calculator.

use wallet_activity::address::Address;
use wallet_activity::delta::compute_delta;
use wallet_activity::delta::find_account_index;
use wallet_activity::types::AccountKeys;
use wallet_activity::types::ParsedAccount;
use wallet_activity::types::TransactionDetail;
use wallet_activity::types::TransactionMeta;

/// Base-58 form of the 32-byte all-zero public key.
const ZERO_ADDRESS: &str = "11111111111111111111111111111111";

fn queried_address() -> Address {
    Address::parse(ZERO_ADDRESS).expect("a 32-byte base-58 address must parse")
}

fn raw_keys(entries: &[&str]) -> AccountKeys {
    AccountKeys::Raw(entries.iter().map(|s| s.to_string()).collect())
}

fn parsed_keys(entries: &[&str]) -> AccountKeys {
    AccountKeys::Parsed(
        entries
            .iter()
            .map(|s| ParsedAccount { pubkey: s.to_string() })
            .collect(),
    )
}

fn detail(keys: AccountKeys, pre: &[u64], post: &[u64]) -> TransactionDetail {
    TransactionDetail {
        account_keys: Some(keys),
        meta: Some(TransactionMeta {
            fee: 5000,
            pre_balances: pre.to_vec(),
            post_balances: post.to_vec(),
        }),
    }
}

#[test]
fn delta_round_trip_at_position_two() {
    let addr = queried_address();
    let tx = detail(
        raw_keys(&["senderSender", "feePayerPayer", ZERO_ADDRESS, "otherOther"]),
        &[1, 2, 5_000_000_000, 4],
        &[1, 2, 3_000_000_000, 4],
    );
    let delta = compute_delta(&tx, &addr);
    assert_eq!(delta, Some(-2_000_000_000));
    let sol = delta.unwrap() as f64 / 1_000_000_000.0;
    assert_eq!(sol, -2.0);
}

#[test]
fn delta_swapping_balances_negates_it() {
    let addr = queried_address();
    let tx = detail(
        raw_keys(&["senderSender", "feePayerPayer", ZERO_ADDRESS, "otherOther"]),
        &[1, 2, 5_000_000_000, 4],
        &[1, 2, 3_000_000_000, 4],
    );
    let swapped = detail(
        raw_keys(&["senderSender", "feePayerPayer", ZERO_ADDRESS, "otherOther"]),
        &[1, 2, 3_000_000_000, 4],
        &[1, 2, 5_000_000_000, 4],
    );
    assert_eq!(compute_delta(&tx, &addr), Some(-2_000_000_000));
    assert_eq!(compute_delta(&swapped, &addr), Some(2_000_000_000));
}

#[test]
fn delta_unknown_when_address_absent() {
    let addr = queried_address();
    let tx = detail(
        raw_keys(&["senderSender", "feePayerPayer"]),
        &[5_000_000_000, 1],
        &[3_000_000_000, 1],
    );
    assert_eq!(compute_delta(&tx, &addr), None);
}

#[test]
fn delta_unknown_when_pre_balances_too_short() {
    let addr = queried_address();
    let tx = detail(
        raw_keys(&["senderSender", "feePayerPayer", ZERO_ADDRESS]),
        &[1, 2],
        &[1, 2, 3_000_000_000],
    );
    assert_eq!(compute_delta(&tx, &addr), None);
}

#[test]
fn delta_unknown_when_post_balances_too_short() {
    let addr = queried_address();
    let tx = detail(
        raw_keys(&["senderSender", ZERO_ADDRESS]),
        &[1, 5_000_000_000],
        &[1],
    );
    assert_eq!(compute_delta(&tx, &addr), None);
}

#[test]
fn delta_survives_extreme_balances() {
    let addr = queried_address();
    let gained = detail(raw_keys(&[ZERO_ADDRESS]), &[0], &[u64::MAX]);
    assert_eq!(compute_delta(&gained, &addr), Some(u64::MAX as i128));
    let lost = detail(raw_keys(&[ZERO_ADDRESS]), &[u64::MAX], &[0]);
    assert_eq!(compute_delta(&lost, &addr), Some(-(u64::MAX as i128)));
}

#[test]
fn delta_unknown_without_metadata() {
    let addr = queried_address();
    let tx = TransactionDetail {
        account_keys: Some(raw_keys(&[ZERO_ADDRESS])),
        meta: None,
    };
    assert_eq!(compute_delta(&tx, &addr), None);
}

#[test]
fn delta_unknown_without_account_list() {
    let addr = queried_address();
    let tx = TransactionDetail {
        account_keys: None,
        meta: Some(TransactionMeta {
            fee: 5000,
            pre_balances: vec![5_000_000_000],
            post_balances: vec![3_000_000_000],
        }),
    };
    assert_eq!(compute_delta(&tx, &addr), None);
}

#[test]
fn delta_through_mapping_style_account_list() {
    let addr = queried_address();
    let tx = detail(
        parsed_keys(&["senderSender", ZERO_ADDRESS]),
        &[9, 1_500_000_000],
        &[9, 2_500_000_000],
    );
    assert_eq!(compute_delta(&tx, &addr), Some(1_000_000_000));
}

#[test]
fn find_index_takes_first_occurrence() {
    let keys = raw_keys(&["aaa", "bbb", "aaa"]);
    let target = "aaa".to_string();
    assert_eq!(find_account_index(&keys, &target), Some(0));
    let absent = "zzz".to_string();
    assert_eq!(find_account_index(&keys, &absent), None);
}

#[test]
fn find_index_in_parsed_list() {
    let keys = parsed_keys(&["aaa", "bbb", "ccc"]);
    let target = "ccc".to_string();
    assert_eq!(find_account_index(&keys, &target), Some(2));
}
