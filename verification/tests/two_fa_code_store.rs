use auth_service::data_stores::{LoginAttemptId, TwoFACode, TwoFACodeStore, TwoFACodeStoreError};
use auth_service::email::Email;
use auth_service::hashmap_two_fa_code_store::HashmapTwoFACodeStore;

#[test]
fn add_code() {
    let mut store = HashmapTwoFACodeStore::default();
    let login_attempt_id = LoginAttemptId::default();
    let two_facode = TwoFACode::default();
    let _ = store.add_code(
        Email::parse("test@email.com").unwrap(),
        login_attempt_id.clone(),
        two_facode.clone(),
    );

    assert_eq!(
        store
            .get_code(&Email::parse("test@email.com").unwrap())
            .unwrap(),
        (login_attempt_id, two_facode)
    );
}

#[test]
fn get_code_found() {
    let mut store = HashmapTwoFACodeStore::default();
    let login_attempt_id = LoginAttemptId::default();
    let two_facode = TwoFACode::default();
    let email = Email::parse("test@email.com").unwrap();

    let _ = store.add_code(email.clone(), login_attempt_id.clone(), two_facode.clone());

    assert_eq!(
        store.get_code(&email).unwrap(),
        (login_attempt_id, two_facode)
    );
}

#[test]
fn get_code_not_found() {
    let mut store = HashmapTwoFACodeStore::default();
    let login_attempt_id = LoginAttemptId::default();
    let two_facode = TwoFACode::default();
    let email = Email::parse("test@email.com").unwrap();

    let _ = store.add_code(email.clone(), login_attempt_id.clone(), two_facode.clone());

    assert_eq!(
        store.get_code(&Email::parse("not_test@email.com").unwrap()),
        Err(TwoFACodeStoreError::LoginAttemptIdNotFound)
    );
}

#[test]
fn remove_code() {
    let mut store = HashmapTwoFACodeStore::default();
    let login_attempt_id = LoginAttemptId::default();
    let two_facode = TwoFACode::default();
    let email = Email::parse("test@email.com").unwrap();

    let _ = store.add_code(email.clone(), login_attempt_id.clone(), two_facode.clone());

    assert_eq!(
        store
            .get_code(&Email::parse("test@email.com").unwrap())
            .unwrap(),
        (login_attempt_id, two_facode)
    );

    let _ = store.remove_code(&email);

    assert_eq!(
        store.get_code(&Email::parse("test@email.com").unwrap()),
        Err(TwoFACodeStoreError::LoginAttemptIdNotFound)
    );
}

#[test]
fn add_code_overwrites_pending_challenge() {
    let mut store = HashmapTwoFACodeStore::default();
    let email = Email::parse("test@email.com").unwrap();
    let first_id = LoginAttemptId::default();
    let first_code = TwoFACode::parse("111111".to_owned()).unwrap();
    let second_id = LoginAttemptId::default();
    let second_code = TwoFACode::parse("222222".to_owned()).unwrap();

    let _ = store.add_code(email.clone(), first_id, first_code);
    let _ = store.add_code(email.clone(), second_id.clone(), second_code.clone());

    assert_eq!(store.get_code(&email).unwrap(), (second_id, second_code));
}
