use auth_service::data_stores::BannedTokenStore;
use auth_service::hashset_banned_token_store::HashsetBannedTokenStore;

const JWT: &str = "TEST_JWT";

#[test]
fn hashset_banned_token_store_test_ban_token() {
    let mut hashset_banned_token_store = HashsetBannedTokenStore::default();

    hashset_banned_token_store.ban_token(JWT.to_owned());

    assert!(hashset_banned_token_store.is_banned(JWT));
}

#[test]
fn hashset_banned_token_store_test_is_banned() {
    let mut hashset_banned_token_store = HashsetBannedTokenStore::default();

    hashset_banned_token_store.ban_token(JWT.to_owned());

    assert!(hashset_banned_token_store.is_banned(JWT));
    assert!(!hashset_banned_token_store.is_banned("OTHER_JWT"));
}

#[test]
fn fresh_store_bans_nothing() {
    let hashset_banned_token_store = HashsetBannedTokenStore::default();
    assert!(!hashset_banned_token_store.is_banned(JWT));
    assert!(!hashset_banned_token_store.is_banned(""));
}
