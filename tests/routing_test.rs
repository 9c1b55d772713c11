use miden_amm::error::SettlementError;
use miden_amm::routing::{network_executes, routing_tag, Routing};

// Identifiers laid out as version 0 account ids: prefix in the high 64 bits with the
// storage mode in bits 6 and 7 of the prefix.
const PUBLIC_ACCOUNT: u128 = 0xaa00_0000_0000_bb00_0000_cc00_0000_dd00;
const NETWORK_ACCOUNT: u128 = 0xaa00_0000_0000_cc40_0000_bb00_0000_dd00;
const BAD_STORAGE_MODE: u128 = 0xaa00_0000_0000_00c0_0000_0000_0000_0000;

#[test]
fn use_case_tag_lays_out_use_case_and_payload() {
    let tag = routing_tag(Routing::UseCase { use_case_id: 3, payload: 7 }).unwrap();
    assert_eq!(tag, 0xc000_0000 | (3 << 16) | 7);
    assert!(!network_executes(tag));
}

#[test]
fn use_case_of_fourteen_bits_is_refused() {
    let r = routing_tag(Routing::UseCase { use_case_id: 1 << 14, payload: 0 });
    assert_eq!(r, Err(SettlementError::InvalidTag));
    assert!(routing_tag(Routing::UseCase { use_case_id: (1 << 14) - 1, payload: 0 }).is_ok());
}

#[test]
fn local_account_tag_keeps_top_fourteen_bits() {
    let tag = routing_tag(Routing::Account { account_id: PUBLIC_ACCOUNT }).unwrap();
    assert_eq!(tag, 0xea80_0000);
    assert!(!network_executes(tag));
}

#[test]
fn network_account_tag_keeps_top_thirty_bits() {
    let tag = routing_tag(Routing::Account { account_id: NETWORK_ACCOUNT }).unwrap();
    assert_eq!(tag, 0x2a80_0000);
    assert!(network_executes(tag));
}

#[test]
fn malformed_account_id_has_no_tag() {
    let r = routing_tag(Routing::Account { account_id: BAD_STORAGE_MODE });
    assert_eq!(r, Err(SettlementError::InvalidTag));
}
