use vstd::prelude::*;
use crate::domain::email::Email;
use crate::domain::password::Password;

verus! {

/// A user as contracts see it: the texts and the flag.
pub struct UserView {
    pub email: Seq<char>,
    pub password: Seq<char>,
    pub requires_2fa: bool,
}

/// A user: a validated address, a validated password and the 2FA flag.
#[derive(Debug)]
pub struct User {
    pub email: Email,
    pub password: Password,
    pub requires_2fa: bool,
}

impl View for User {
    type V = UserView;

    open spec fn view(&self) -> UserView {
        UserView {
            email: self.email.address@,
            password: self.password.password@,
            requires_2fa: self.requires_2fa,
        }
    }
}

impl Clone for User {
    fn clone(&self) -> (copy: Self)
        ensures
            copy@ == self@,
    {
        User {
            email: self.email.clone(),
            password: self.password.clone(),
            requires_2fa: self.requires_2fa,
        }
    }
}

impl User {
    /// Both parts are valid.
    pub open spec fn wf(&self) -> bool {
        self.email.wf() && self.password.wf()
    }

    /// Puts the three parts together.
    pub fn new(email: Email, password: Password, requires_2fa: bool) -> (user: Self)
        ensures
            user.email == email,
            user.password == password,
            user.requires_2fa == requires_2fa,
            user.wf() == (email.wf() && password.wf()),
    {
        User { email, password, requires_2fa }
    }
}

} // verus!
