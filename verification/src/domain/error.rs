use vstd::prelude::*;
use crate::domain::data_stores::UserStoreError;

verus! {

/// What a request handler reports to its caller.
#[derive(Clone, Copy, Debug, PartialEq, Eq, Structural)]
pub enum AuthAPIError {
    UserAlreadyExists,
    InvalidCredentials,
    UnexpectedError,
}

impl AuthAPIError {
    /// The error that stands for a failed `add_user`: a duplicate is named
    /// as such, every other failure is unexpected.
    pub open spec fn of_add_user_error(e: UserStoreError) -> AuthAPIError {
        if e == UserStoreError::UserAlreadyExists {
            AuthAPIError::UserAlreadyExists
        } else {
            AuthAPIError::UnexpectedError
        }
    }

    pub fn from_add_user_error(e: UserStoreError) -> (r: AuthAPIError)
        ensures
            r == Self::of_add_user_error(e),
    {
        match e {
            UserStoreError::UserAlreadyExists => AuthAPIError::UserAlreadyExists,
            _ => AuthAPIError::UnexpectedError,
        }
    }
}

} // verus!
