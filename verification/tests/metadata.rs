use armory_staking::account::AccountId;
use armory_staking::error::StakingError;
use armory_staking::metadata::{parse_nft_id, verify_collection, CreatorInfo};

fn acct(n: u64) -> AccountId {
    AccountId { w0: n, w1: 0, w2: 0, w3: 0 }
}

fn chars(s: &str) -> Vec<char> {
    s.chars().collect()
}

#[test]
fn parses_id_after_hash() {
    assert_eq!(parse_nft_id(&chars("Bear #123")), Ok(123));
    assert_eq!(parse_nft_id(&chars("#1")), Ok(1));
    assert_eq!(parse_nft_id(&chars("Armory Bear #10000")), Ok(10000));
}

#[test]
fn parse_stops_at_nul() {
    let mut label = chars("Bear #42");
    label.push('\0');
    label.push('9');
    assert_eq!(parse_nft_id(&label), Ok(42));
}

#[test]
fn parse_rejects_label_without_hash() {
    assert_eq!(parse_nft_id(&chars("Bear 123")), Err(StakingError::MetadataParseError));
    assert_eq!(parse_nft_id(&chars("")), Err(StakingError::MetadataParseError));
}

#[test]
fn parse_rejects_trailing_hash() {
    assert_eq!(parse_nft_id(&chars("Bear #")), Err(StakingError::MetadataParseError));
}

#[test]
fn parse_rejects_non_numeric_token() {
    assert_eq!(parse_nft_id(&chars("Bear #12b")), Err(StakingError::MetadataParseError));
    // A later '#' lands inside the token and spoils it.
    assert_eq!(parse_nft_id(&chars("a#1#2")), Err(StakingError::MetadataParseError));
}

#[test]
fn parse_rejects_empty_token() {
    let mut label = chars("Bear #");
    label.push('\0');
    assert_eq!(parse_nft_id(&label), Err(StakingError::MetadataParseError));
}

#[test]
fn parse_rejects_overflowing_value() {
    assert_eq!(parse_nft_id(&chars("#18446744073709551615")), Ok(u64::MAX));
    assert_eq!(
        parse_nft_id(&chars("#18446744073709551616")),
        Err(StakingError::MetadataParseError)
    );
}

#[test]
fn collection_check_accepts_verified_creator() {
    let allowed = acct(42);
    let creators = vec![
        CreatorInfo { address: acct(9), verified: true },
        CreatorInfo { address: allowed, verified: true },
    ];
    assert!(verify_collection(Some(&creators), &allowed).is_ok());
}

#[test]
fn collection_check_rejects_unverified_creator() {
    let allowed = acct(42);
    let creators = vec![CreatorInfo { address: allowed, verified: false }];
    assert_eq!(
        verify_collection(Some(&creators), &allowed),
        Err(StakingError::UnknownOrNotAllowedCollection)
    );
}

#[test]
fn collection_check_rejects_foreign_creators() {
    let allowed = acct(42);
    let creators = vec![CreatorInfo { address: acct(9), verified: true }];
    assert_eq!(
        verify_collection(Some(&creators), &allowed),
        Err(StakingError::UnknownOrNotAllowedCollection)
    );
}

#[test]
fn collection_check_rejects_missing_creator_list() {
    assert_eq!(
        verify_collection(None, &acct(42)),
        Err(StakingError::MetadataParseError)
    );
}
