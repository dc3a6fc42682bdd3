//! Credential domain of an authentication service: validated e-mail
//! addresses and passwords, the user entity, the user-store capability with
//! its in-memory implementation, and the decisions of the signup flow.

pub mod domain;
pub mod routes;
pub mod services;

pub use domain::{
    BreachCheck, Email, EmailValidationError, Password, PasswordValidationError, User, UserStore,
    UserStoreError, UserView,
};
pub use services::hashmap_user_store::HashmapUserStore;
