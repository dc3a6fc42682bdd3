use auth_service::domain::{AuthAPIError, BreachCheck, UserStore, UserStoreError};
use auth_service::routes::{
    begin_signup, complete_signup, signup_response, SignupRequest, SignupResponse,
};
use auth_service::services::hashmap_user_store::HashmapUserStore;

fn request(email: &str, password: &str, requires_2fa: bool) -> SignupRequest {
    SignupRequest {
        email: email.to_owned(),
        password: password.to_owned(),
        requires_2fa,
    }
}

#[test]
fn signup_then_lookup_then_validate() {
    let mut store = HashmapUserStore::new();

    let pending = begin_signup(request("new@example.com", "password123", true)).unwrap();
    assert_eq!(pending.email.address, "new@example.com");
    assert_eq!(pending.password, "password123");
    assert_eq!(pending.requires_2fa, true);

    let response = complete_signup(&mut store, pending, BreachCheck::Clear).unwrap();
    assert_eq!(
        response,
        SignupResponse {
            message: "User created successfully!".to_owned()
        }
    );

    let user = store.get_user("new@example.com").unwrap();
    assert_eq!(user.email.address, "new@example.com");
    assert_eq!(user.password.password, "password123");
    assert_eq!(user.requires_2fa, true);

    assert_eq!(store.validate_user("new@example.com", "password123"), Ok(()));
    assert_eq!(
        store.validate_user("new@example.com", "wrong"),
        Err(UserStoreError::InvalidCredentials)
    );
}

#[test]
fn signup_rejects_invalid_input_before_any_lookup() {
    let test_cases = [
        request("invalid", "password123", true),
        request("", "password123", true),
        request("user@example.com", "short", true),
        request("user@example.com", "", true),
    ];
    for test_case in test_cases {
        assert_eq!(
            begin_signup(test_case).unwrap_err(),
            AuthAPIError::InvalidCredentials
        );
    }
}

#[test]
fn signup_rejects_uncleared_password_and_leaves_the_store() {
    let answers = [BreachCheck::Compromised, BreachCheck::Unavailable];
    for answer in answers {
        let mut store = HashmapUserStore::new();
        let pending = begin_signup(request("user@example.com", "password123", false)).unwrap();
        assert_eq!(
            complete_signup(&mut store, pending, answer).unwrap_err(),
            AuthAPIError::InvalidCredentials
        );
        assert_eq!(store.len(), 0);
    }
}

#[test]
fn second_signup_with_one_address_is_refused() {
    let mut store = HashmapUserStore::new();
    let first = begin_signup(request("user@example.com", "password123", true)).unwrap();
    assert!(complete_signup(&mut store, first, BreachCheck::Clear).is_ok());

    let second = begin_signup(request("user@example.com", "0ther-passw0rd", false)).unwrap();
    assert_eq!(
        complete_signup(&mut store, second, BreachCheck::Clear).unwrap_err(),
        AuthAPIError::UserAlreadyExists
    );
    assert_eq!(store.len(), 1);
    assert_eq!(store.validate_user("user@example.com", "password123"), Ok(()));
}

#[test]
fn store_answers_map_to_signup_answers() {
    assert_eq!(
        signup_response(Ok(())).unwrap().message,
        "User created successfully!"
    );
    assert_eq!(
        signup_response(Err(UserStoreError::UserAlreadyExists)).unwrap_err(),
        AuthAPIError::UserAlreadyExists
    );
    let others = [
        UserStoreError::UserNotFound,
        UserStoreError::InvalidCredentials,
        UserStoreError::UnexpectedError,
    ];
    for other in others {
        assert_eq!(
            signup_response(Err(other)).unwrap_err(),
            AuthAPIError::UnexpectedError
        );
        assert_eq!(
            AuthAPIError::from_add_user_error(other),
            AuthAPIError::UnexpectedError
        );
    }
}
