use kiln::envelope::{PaginatedData, Pagination, ReturnedData};
use kiln::text::{bool_to_text, decimal_text, join_numbers, join_values, query_string, QueryParam};
use kiln::types::{StakePermissionKind, StakingOperationType};

#[test]
fn empty_list_keeps_key() {
    assert_eq!(join_values(&vec![]), "");
    let q = query_string(&vec![
        QueryParam::new("validators", join_values(&vec![])),
        QueryParam::new("delegators", join_values(&vec!["d".to_string()])),
    ]);
    assert_eq!(q, "validators=&delegators=d");
}

#[test]
fn lists_join_with_commas() {
    assert_eq!(join_values(&vec!["a".to_string()]), "a");
    assert_eq!(join_values(&vec!["a".to_string(), "".to_string(), "c".to_string()]), "a,,c");
    assert_eq!(join_numbers(&vec![0, 42, u64::MAX]), "0,42,18446744073709551615");
}

#[test]
fn decimal_and_bool_texts() {
    assert_eq!(decimal_text(0), "0");
    assert_eq!(decimal_text(9), "9");
    assert_eq!(decimal_text(10), "10");
    assert_eq!(decimal_text(1234567890), "1234567890");
    assert_eq!(bool_to_text(true), "true");
    assert_eq!(bool_to_text(false), "false");
}

#[test]
fn operation_casings_name_one_kind() {
    assert_eq!(StakingOperationType::from_wire("Staking.MsgDelegate"), Some(StakingOperationType::Delegate));
    assert_eq!(StakingOperationType::from_wire("staking.MsgDelegate"), Some(StakingOperationType::Delegate));
    assert_eq!(StakingOperationType::from_wire("staking.MsgUndelegate"), Some(StakingOperationType::Undelegate));
    assert_eq!(
        StakingOperationType::from_wire("distribution.MsgWithdrawDelegatorReward"),
        Some(StakingOperationType::WithdrawDelegatorReward)
    );
    assert_eq!(StakingOperationType::from_wire("STAKING.MSGDELEGATE"), None);
    assert_eq!(StakingOperationType::normalize("Staking.MsgBeginRedelegate"), Some("staking.MsgBeginRedelegate"));
    assert_eq!(StakingOperationType::normalize("Distribution.MsgWithdrawDelegatorReward"), Some("distr.MsgWithdrawDelegatorReward"));
    assert_eq!(StakingOperationType::Grant.canonical_name(), "auth.grant");
}

#[test]
fn permission_kind_from_wire() {
    assert!(matches!(StakePermissionKind::from_wire("Staking.MsgDelegate"), Some(StakePermissionKind::Delegate)));
    assert!(StakePermissionKind::from_wire("staking.MsgDelegate").is_none());
}

#[test]
fn envelopes_hold_data() {
    let r = ReturnedData::new(vec![1u64, 2]);
    assert_eq!(r.into_data(), vec![1, 2]);
    let p = Pagination {
        current_page: 1,
        next_page: 2,
        previous_page: 0,
        page_size: 10,
        total_pages: 3,
        total_entries: 25,
    };
    let d = PaginatedData::new("x".to_string(), p);
    assert_eq!(d.pagination, p);
    assert_eq!(d.into_data(), "x");
}
