use auth_service::data_stores::{UserStore, UserStoreError};
use auth_service::email::Email;
use auth_service::hashmap_user_store::HashmapUserStore;
use auth_service::password::Password;
use auth_service::user::User;

fn test_user() -> User {
    User::new(
        Email::parse("abc@test.com").unwrap(),
        Password::parse("MySecretPassword".to_owned()).unwrap(),
        false,
    )
}

#[test]
fn test_add_user() {
    let mut hashmap_user_store = HashmapUserStore::default();

    assert!(hashmap_user_store.add_user(test_user()) == Ok(()));

    assert!(
        test_user()
            == hashmap_user_store
                .get_user(Email::parse("abc@test.com").unwrap())
                .unwrap()
    );
}

#[test]
fn test_get_user() {
    let mut hashmap_user_store = HashmapUserStore::default();
    hashmap_user_store.add_user(test_user()).unwrap();
    assert!(
        test_user()
            == hashmap_user_store
                .get_user(Email::parse("abc@test.com").unwrap())
                .unwrap()
    );
    assert!(matches!(
        hashmap_user_store.get_user(Email::parse("not_found@test.com").unwrap()),
        Err(UserStoreError::UserNotFound)
    ));
}

#[test]
fn test_validate_user() {
    let mut hashmap_user_store = HashmapUserStore::default();
    hashmap_user_store.add_user(test_user()).unwrap();

    assert_eq!(
        Ok::<(), UserStoreError>(()),
        hashmap_user_store.validate_user(
            Email::parse("abc@test.com").unwrap(),
            Password::parse("MySecretPassword".to_owned()).unwrap()
        )
    );
    assert_eq!(
        Err(UserStoreError::InvalidCredentials),
        hashmap_user_store.validate_user(
            Email::parse("abc@test.com").unwrap(),
            Password::parse("NotMySecretPassword".to_owned()).unwrap()
        )
    );
}

#[test]
fn duplicate_add_fails_as_already_exists() {
    let mut hashmap_user_store = HashmapUserStore::default();
    assert_eq!(hashmap_user_store.add_user(test_user()), Ok(()));
    assert_eq!(
        Err(UserStoreError::UserAlreadyExists),
        hashmap_user_store.add_user(test_user())
    );
    // a record under another email still goes in
    let other = User::new(
        Email::parse("other@test.com").unwrap(),
        Password::parse("MySecretPassword".to_owned()).unwrap(),
        true,
    );
    assert_eq!(Ok(()), hashmap_user_store.add_user(other));
}
