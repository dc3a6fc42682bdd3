pub mod signup;

pub use signup::{begin_signup, complete_signup, signup_response, PendingSignup, SignupRequest, SignupResponse};
