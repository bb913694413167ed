use block_engine::auth::{AuthServiceImpl, ACCESS_TOKEN_TTL_SECS, REFRESHED_TOKEN_TTL_SECS};
use block_engine::client::{airdrop_wait_step, all_confirmed, AirdropWait};
use block_engine::event::packet_from_bytes;
use block_engine::fee::FeeInfoProvider;

#[test]
fn packet_from_bytes_records_payload_and_size() {
    let packet = packet_from_bytes(b"abcde".to_vec());
    assert_eq!(packet.data, b"abcde".to_vec());
    let meta = packet.meta.expect("metadata is always set");
    assert_eq!(meta.size, 5);
    assert_eq!(meta.port, 0);
    assert_eq!(meta.sender_stake, 0);
}

#[test]
fn packet_from_empty_bytes_has_size_zero() {
    let packet = packet_from_bytes(Vec::new());
    assert_eq!(packet.data.len(), 0);
    assert_eq!(packet.meta.expect("metadata is always set").size, 0);
}

#[test]
fn fee_info_returns_configured_values() {
    let provider = FeeInfoProvider::new("11111111111111111111111111111111".to_string(), 5);
    assert_eq!(provider.identity(), "11111111111111111111111111111111");
    assert_eq!(provider.commission(), 5);
}

#[test]
fn token_expiry_is_exactly_issue_time_plus_lifetime() {
    assert_eq!(
        AuthServiceImpl::token_expiry_seconds(1_000, ACCESS_TOKEN_TTL_SECS),
        Some(1_000 + 24 * 60 * 60)
    );
    assert_eq!(
        AuthServiceImpl::token_expiry_seconds(1_000, REFRESHED_TOKEN_TTL_SECS),
        Some(1_000 + 30 * 60)
    );
}

#[test]
fn token_expiry_refuses_out_of_range_sums() {
    assert_eq!(AuthServiceImpl::token_expiry_seconds(u64::MAX, 1), None);
    assert_eq!(AuthServiceImpl::token_expiry_seconds(i64::MAX as u64, 1), None);
    assert_eq!(AuthServiceImpl::token_expiry_seconds(i64::MAX as u64, 0), Some(i64::MAX));
}

#[test]
fn auth_service_constructs() {
    let _svc = AuthServiceImpl::new();
}

#[test]
fn auth_challenge_is_the_fixed_value() {
    assert_eq!(block_engine::auth::generate_auth_challenge(), "generate_auth_challenge");
}

#[test]
fn all_confirmed_requires_every_signature() {
    assert!(all_confirmed(&vec![]));
    assert!(all_confirmed(&vec![true, true, true]));
    assert!(!all_confirmed(&vec![true, false, true]));
}

#[test]
fn airdrop_wait_decides_each_step() {
    assert_eq!(airdrop_wait_step(&vec![true, true], 0, 20), AirdropWait::Confirmed);
    assert_eq!(airdrop_wait_step(&vec![true, true], 25, 20), AirdropWait::Confirmed);
    assert_eq!(airdrop_wait_step(&vec![true, false], 5, 20), AirdropWait::Poll);
    assert_eq!(airdrop_wait_step(&vec![true, false], 20, 20), AirdropWait::TimedOut);
}
