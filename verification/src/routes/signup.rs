use vstd::prelude::*;
use vstd::string::StringExecFns;
use crate::domain::data_stores::{UserStore, UserStoreError};
use crate::domain::email::{email_syntax_ok, Email};
use crate::domain::error::AuthAPIError;
use crate::domain::password::{BreachCheck, Password, MIN_PASSWORD_LENGTH};
use crate::domain::user::{User, UserView};

verus! {

/// The fields of a signup request, as they came in.
#[derive(Debug)]
pub struct SignupRequest {
    pub email: String,
    pub password: String,
    pub requires_2fa: bool,
}

/// The body of the answer to a successful signup.
#[derive(Debug)]
pub struct SignupResponse {
    pub message: String,
}

impl PartialEq for SignupResponse {
    fn eq(&self, other: &Self) -> (same: bool) {
        self.message == other.message
    }
}

impl vstd::std_specs::cmp::PartialEqSpecImpl for SignupResponse {
    open spec fn obeys_eq_spec() -> bool {
        true
    }

    open spec fn eq_spec(&self, other: &Self) -> bool {
        self.message@ == other.message@
    }
}

/// A signup whose address is valid and whose password is long enough, and
/// which now waits for the breach lookup on `password`.
#[derive(Debug)]
pub struct PendingSignup {
    pub email: Email,
    pub password: String,
    pub requires_2fa: bool,
}

impl PendingSignup {
    /// The user that this signup adds once the lookup has cleared it.
    pub open spec fn user(&self) -> UserView {
        UserView {
            email: self.email.address@,
            password: self.password@,
            requires_2fa: self.requires_2fa,
        }
    }
}

/// Whether a request passes the checks that need no lookup.
pub open spec fn request_acceptable(request: SignupRequest) -> bool {
    email_syntax_ok(request.email@) && request.password@.len() >= MIN_PASSWORD_LENGTH
}

/// The message of a successful signup.
pub open spec fn created_message() -> Seq<char> {
    "User created successfully!"@
}

/// The local half of a signup: validates the address, then the password's
/// length. Either fails with `InvalidCredentials`, before any lookup.
pub fn begin_signup(request: SignupRequest) -> (r: Result<PendingSignup, AuthAPIError>)
    ensures
        match r {
            Ok(pending) => request_acceptable(request) && pending.email.wf()
                && pending.email.address@ == request.email@ && pending.password@
                == request.password@ && pending.requires_2fa == request.requires_2fa,
            Err(e) => !request_acceptable(request) && e == AuthAPIError::InvalidCredentials,
        },
{
    let SignupRequest { email, password, requires_2fa } = request;
    let email = match Email::parse(email) {
        Ok(email) => email,
        Err(_) => {
            return Err(AuthAPIError::InvalidCredentials);
        },
    };
    if Password::check_length(password.as_str()).is_err() {
        return Err(AuthAPIError::InvalidCredentials);
    }
    Ok(PendingSignup { email, password, requires_2fa })
}

/// The answer to a signup, given what `add_user` said.
pub open spec fn signup_response_result(added: Result<(), UserStoreError>) -> Result<
    Seq<char>,
    AuthAPIError,
> {
    match added {
        Ok(()) => Ok(created_message()),
        Err(e) => Err(AuthAPIError::of_add_user_error(e)),
    }
}

/// Turns the store's answer into the answer of the signup.
pub fn signup_response(added: Result<(), UserStoreError>) -> (r: Result<
    SignupResponse,
    AuthAPIError,
>)
    ensures
        match r {
            Ok(response) => signup_response_result(added) == Ok::<Seq<char>, AuthAPIError>(
                response.message@,
            ),
            Err(e) => signup_response_result(added) == Err::<Seq<char>, AuthAPIError>(e),
        },
{
    match added {
        Ok(()) => Ok(SignupResponse { message: String::from_str("User created successfully!") }),
        Err(e) => Err(AuthAPIError::from_add_user_error(e)),
    }
}

/// The second half of a signup, once the breach lookup has answered.
///
/// A password that the lookup did not clear is `InvalidCredentials` and the
/// store is not touched. Otherwise the user is added: a taken address is
/// `UserAlreadyExists`, a store that could not do its work is
/// `UnexpectedError`, and in both cases the store is as it was. With a
/// store that never fails nothing else can happen: a cleared password and
/// a free address give the user created.
pub fn complete_signup<S: UserStore>(
    store: &mut S,
    pending: PendingSignup,
    breach: BreachCheck,
) -> (r: Result<SignupResponse, AuthAPIError>)
    ensures
        Password::parse_result(pending.password@, breach) is Err ==> r == Err::<
            SignupResponse,
            AuthAPIError,
        >(AuthAPIError::InvalidCredentials),
        match r {
            Ok(response) => {
                &&& Password::parse_result(pending.password@, breach) is Ok
                &&& !old(store).users().contains_key(pending.email.address@)
                &&& final(store).users() == old(store).users().insert(
                    pending.email.address@,
                    pending.user(),
                )
                &&& response.message@ == created_message()
            },
            Err(AuthAPIError::InvalidCredentials) => {
                &&& Password::parse_result(pending.password@, breach) is Err
                &&& final(store).users() == old(store).users()
            },
            Err(AuthAPIError::UserAlreadyExists) => {
                &&& Password::parse_result(pending.password@, breach) is Ok
                &&& old(store).users().contains_key(pending.email.address@)
                &&& final(store).users() == old(store).users()
            },
            Err(AuthAPIError::UnexpectedError) => {
                &&& Password::parse_result(pending.password@, breach) is Ok
                &&& final(store).users() == old(store).users()
                &&& !S::infallible()
            },
        },
{
    let PendingSignup { email, password, requires_2fa } = pending;
    let password = match Password::parse(password.as_str(), breach) {
        Ok(password) => password,
        Err(_) => {
            return Err(AuthAPIError::InvalidCredentials);
        },
    };
    let user = User::new(email, password, requires_2fa);
    let added = store.add_user(user);
    signup_response(added)
}

} // verus!
