use auth_service::domain::{
    conceal_unknown_user, BreachCheck, Email, Password as MyPassword, User, UserStore,
    UserStoreError,
};
use auth_service::services::hashmap_user_store::HashmapUserStore;
use fake::faker::internet::en::{Password, SafeEmail};
use fake::Fake;

fn random_email() -> Email {
    Email::parse(SafeEmail().fake()).unwrap()
}

fn random_password() -> MyPassword {
    let text: String = Password(10..12).fake();
    MyPassword::parse(&text, BreachCheck::Clear).unwrap()
}

// A store that holds one user under the address "email".
fn store_with_email_entry() -> HashmapUserStore {
    let mut store = HashmapUserStore::new();
    let user = User {
        email: Email {
            address: "email".to_owned(),
        },
        password: random_password(),
        requires_2fa: true,
    };
    store.add_user(user).unwrap();
    store
}

#[test]
fn should_add_unique_user() {
    let email = random_email();
    let password = random_password();
    let user = User {
        email,
        password,
        requires_2fa: true,
    };
    let mut store = HashmapUserStore::new();

    let result = store.add_user(user);

    assert_eq!(result.unwrap(), ());
}

#[test]
fn should_refuse_to_add_duplicate_user() {
    let email = random_email();
    let password = random_password();
    let user = User {
        email: email.clone(),
        password: password.clone(),
        requires_2fa: true,
    };
    let mut store = HashmapUserStore::new();
    store
        .add_user(User {
            email,
            password,
            requires_2fa: true,
        })
        .unwrap();

    let result = store.add_user(user);

    assert_eq!(result.unwrap_err(), UserStoreError::UserAlreadyExists);
}

#[test]
fn should_get_existing_user() {
    let store = store_with_email_entry();

    let result = store.get_user("email");

    assert_eq!(result.is_ok(), true);
}

#[test]
fn should_refuse_to_get_missing_user() {
    let store = store_with_email_entry();

    let result = store.get_user("id");

    assert_eq!(result.unwrap_err(), UserStoreError::UserNotFound);
}

#[test]
fn should_refuse_to_validate_unknown_user() {
    let store = store_with_email_entry();

    let result = store.validate_user("unknown", "password");

    assert_eq!(result.unwrap_err(), UserStoreError::UserNotFound);
}

#[test]
fn should_refuse_to_validate_user_with_incorrect_creds() {
    let store = store_with_email_entry();

    let result = store.validate_user("email", "password");

    assert_eq!(result.unwrap_err(), UserStoreError::InvalidCredentials);
}

fn user(address: &str, password: &str, requires_2fa: bool) -> User {
    User::new(
        Email::parse_str(address).unwrap(),
        MyPassword::parse(password, BreachCheck::Clear).unwrap(),
        requires_2fa,
    )
}

#[test]
fn new_store_is_empty() {
    let store = HashmapUserStore::new();
    assert_eq!(store.len(), 0);
    assert_eq!(
        store.get_user("user@example.com").unwrap_err(),
        UserStoreError::UserNotFound
    );
    assert_eq!(HashmapUserStore::default().len(), 0);
}

#[test]
fn adding_twice_grows_the_store_by_one() {
    let mut store = HashmapUserStore::new();
    store.add_user(user("first@example.com", "c0rrect-h0rse", false)).unwrap();
    assert_eq!(store.len(), 1);

    assert_eq!(store.add_user(user("user@example.com", "c0rrect-h0rse", true)), Ok(()));
    assert_eq!(store.len(), 2);
    assert_eq!(
        store.add_user(user("user@example.com", "another-passw0rd", false)),
        Err(UserStoreError::UserAlreadyExists)
    );
    assert_eq!(store.len(), 2);

    // the refused call did not overwrite the first user
    let kept = store.get_user("user@example.com").unwrap();
    assert_eq!(kept.password.password, "c0rrect-h0rse");
    assert_eq!(kept.requires_2fa, true);
}

#[test]
fn get_returns_what_was_added() {
    let mut store = HashmapUserStore::new();
    store.add_user(user("user@example.com", "c0rrect-h0rse", true)).unwrap();
    store.add_user(user("other@example.com", "0ther-passw0rd", false)).unwrap();

    let found = store.get_user("user@example.com").unwrap();
    assert_eq!(found.email.address, "user@example.com");
    assert_eq!(found.password.password, "c0rrect-h0rse");
    assert_eq!(found.requires_2fa, true);

    let other = store.get_user("other@example.com").unwrap();
    assert_eq!(other.email.address, "other@example.com");
    assert_eq!(other.password.password, "0ther-passw0rd");
    assert_eq!(other.requires_2fa, false);

    assert_eq!(
        store.get_user("never@example.com").unwrap_err(),
        UserStoreError::UserNotFound
    );
    // the lookup is exact
    assert_eq!(
        store.get_user("User@example.com").unwrap_err(),
        UserStoreError::UserNotFound
    );
}

#[test]
fn returned_user_is_a_copy() {
    let mut store = HashmapUserStore::new();
    store.add_user(user("user@example.com", "c0rrect-h0rse", true)).unwrap();

    let mut copy = store.get_user("user@example.com").unwrap();
    copy.password.password = "changed-outside".to_owned();
    copy.requires_2fa = false;

    let again = store.get_user("user@example.com").unwrap();
    assert_eq!(again.password.password, "c0rrect-h0rse");
    assert_eq!(again.requires_2fa, true);
}

#[test]
fn validate_user_tells_the_three_cases_apart() {
    let mut store = HashmapUserStore::new();
    store.add_user(user("user@example.com", "c0rrect-h0rse", false)).unwrap();

    assert_eq!(store.validate_user("user@example.com", "c0rrect-h0rse"), Ok(()));
    assert_eq!(
        store.validate_user("user@example.com", "c0rrect-h0rsE"),
        Err(UserStoreError::InvalidCredentials)
    );
    assert_eq!(
        store.validate_user("user@example.com", ""),
        Err(UserStoreError::InvalidCredentials)
    );
    assert_eq!(
        store.validate_user("nobody@example.com", "c0rrect-h0rse"),
        Err(UserStoreError::UserNotFound)
    );
}

#[test]
fn many_adds_of_one_address_give_one_success() {
    let mut store = HashmapUserStore::new();
    let mut succeeded = 0;
    let mut refused = 0;
    for i in 0..16 {
        let password = format!("passw0rd-number-{}", i);
        match store.add_user(user("same@example.com", &password, false)) {
            Ok(()) => succeeded += 1,
            Err(UserStoreError::UserAlreadyExists) => refused += 1,
            Err(other) => panic!("unexpected answer: {:?}", other),
        }
    }
    assert_eq!(succeeded, 1);
    assert_eq!(refused, 15);
    assert_eq!(store.len(), 1);
    assert_eq!(
        store.get_user("same@example.com").unwrap().password.password,
        "passw0rd-number-0"
    );
}

#[test]
fn concealed_answers_do_not_tell_unknown_from_wrong() {
    let mut store = HashmapUserStore::new();
    store.add_user(user("user@example.com", "c0rrect-h0rse", false)).unwrap();

    assert_eq!(
        conceal_unknown_user(store.validate_user("user@example.com", "c0rrect-h0rse")),
        Ok(())
    );
    assert_eq!(
        conceal_unknown_user(store.validate_user("user@example.com", "wrong")),
        Err(UserStoreError::InvalidCredentials)
    );
    assert_eq!(
        conceal_unknown_user(store.validate_user("nobody@example.com", "c0rrect-h0rse")),
        Err(UserStoreError::InvalidCredentials)
    );
    assert_eq!(
        conceal_unknown_user(Err(UserStoreError::UnexpectedError)),
        Err(UserStoreError::UnexpectedError)
    );
    assert_eq!(
        conceal_unknown_user(Err(UserStoreError::UserAlreadyExists)),
        Err(UserStoreError::UserAlreadyExists)
    );
}
