use vstd::prelude::*;

verus! {

/// The least number of characters a password may have.
pub const MIN_PASSWORD_LENGTH: u64 = 8;

/// The answer of the breach lookup for one candidate password.
#[derive(Clone, Copy, Debug, PartialEq, Eq, Structural)]
pub enum BreachCheck {
    /// The lookup answered and does not know the password.
    Clear,
    /// The lookup answered and knows the password as compromised.
    Compromised,
    /// The lookup gave no answer.
    Unavailable,
}

/// Why a password was turned down.
#[derive(Clone, Copy, Debug, PartialEq, Eq, Structural)]
pub enum PasswordValidationError {
    /// Fewer characters than `MIN_PASSWORD_LENGTH`.
    Length,
    /// Known as compromised, or the lookup gave no answer.
    Hibp,
}

impl PasswordValidationError {
    /// The field marker by which a caller tells the two failures apart.
    pub fn field(&self) -> (name: &'static str)
        ensures
            name@ == (match *self {
                PasswordValidationError::Length => "password"@,
                PasswordValidationError::Hibp => "hibp"@,
            }),
    {
        match self {
            PasswordValidationError::Length => "password",
            PasswordValidationError::Hibp => "hibp",
        }
    }

    /// The code that goes with the field marker.
    pub fn code(&self) -> (code: &'static str)
        ensures
            code@ == (match *self {
                PasswordValidationError::Length => "length"@,
                PasswordValidationError::Hibp => "Vulnerable or common password"@,
            }),
    {
        match self {
            PasswordValidationError::Length => "length",
            PasswordValidationError::Hibp => "Vulnerable or common password",
        }
    }
}

/// Calls `validator::ValidateLength::validate_length` on the text with a
/// lower bound and nothing else.
///
/// Trusted: the crate counts the characters of the text and accepts it when
/// the count is at least `min`.
#[verifier::external_body]
fn validate_min_length(text: &str, min: u64) -> (ok: bool)
    ensures
        ok == (text@.len() >= min),
{
    validator::ValidateLength::validate_length(text, Some(min), None, None)
}

/// A password that passed validation when it was parsed.
#[derive(Debug)]
pub struct Password {
    pub password: String,
}

impl Clone for Password {
    fn clone(&self) -> (copy: Self)
        ensures
            copy.password@ == self.password@,
    {
        Password { password: self.password.clone() }
    }
}

impl Password {
    /// The part of a password's invariant that the text alone shows.
    pub open spec fn wf(&self) -> bool {
        self.password@.len() >= MIN_PASSWORD_LENGTH
    }

    /// The outcome of the length check on `input`.
    pub open spec fn length_result(input: Seq<char>) -> Result<(), PasswordValidationError> {
        if input.len() < MIN_PASSWORD_LENGTH {
            Err(PasswordValidationError::Length)
        } else {
            Ok(())
        }
    }

    /// What parsing `input` gives when the breach lookup answered `breach`.
    /// The length decides first: for a short input the lookup's answer does
    /// not matter. No answer counts as a compromised password.
    pub open spec fn parse_result(input: Seq<char>, breach: BreachCheck) -> Result<
        Seq<char>,
        PasswordValidationError,
    > {
        if Self::length_result(input) is Err {
            Err(PasswordValidationError::Length)
        } else if breach != BreachCheck::Clear {
            Err(PasswordValidationError::Hibp)
        } else {
            Ok(input)
        }
    }

    /// The local step of validation, which needs no lookup: fails exactly on
    /// inputs of fewer than `MIN_PASSWORD_LENGTH` characters. A caller asks
    /// the breach lookup only after this returned `Ok`.
    pub fn check_length(input: &str) -> (r: Result<(), PasswordValidationError>)
        ensures
            r == Self::length_result(input@),
    {
        if validate_min_length(input, MIN_PASSWORD_LENGTH) {
            Ok(())
        } else {
            Err(PasswordValidationError::Length)
        }
    }

    /// Validates `input` given the breach lookup's answer for it.
    pub fn parse(input: &str, breach: BreachCheck) -> (r: Result<Password, PasswordValidationError>)
        ensures
            match r {
                Ok(password) => Self::parse_result(input@, breach) == Ok::<
                    Seq<char>,
                    PasswordValidationError,
                >(password.password@) && password.wf(),
                Err(e) => Self::parse_result(input@, breach) == Err::<
                    Seq<char>,
                    PasswordValidationError,
                >(e),
            },
            input@.len() < MIN_PASSWORD_LENGTH ==> r == Err::<Password, PasswordValidationError>(
                PasswordValidationError::Length,
            ),
            input@.len() >= MIN_PASSWORD_LENGTH && breach != BreachCheck::Clear ==> r == Err::<
                Password,
                PasswordValidationError,
            >(PasswordValidationError::Hibp),
            input@.len() >= MIN_PASSWORD_LENGTH && breach == BreachCheck::Clear ==> r is Ok,
    {
        match Self::check_length(input) {
            Err(e) => Err(e),
            Ok(()) => match breach {
                BreachCheck::Clear => Ok(Password { password: input.to_owned() }),
                BreachCheck::Compromised => Err(PasswordValidationError::Hibp),
                BreachCheck::Unavailable => Err(PasswordValidationError::Hibp),
            },
        }
    }

    /// The password as text.
    pub fn as_ref(&self) -> (text: &str)
        ensures
            text@ == self.password@,
    {
        self.password.as_str()
    }
}

} // verus!
