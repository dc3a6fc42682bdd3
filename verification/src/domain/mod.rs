pub mod data_stores;
pub mod email;
pub mod error;
pub mod password;
pub mod user;

pub use data_stores::{conceal_unknown_user, UserStore, UserStoreError};
pub use email::{Email, EmailValidationError};
pub use error::AuthAPIError;
pub use password::{BreachCheck, Password, PasswordValidationError};
pub use user::{User, UserView};
