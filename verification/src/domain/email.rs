use vstd::prelude::*;

verus! {

/// Whether the `validator` crate accepts the text as an e-mail address.
///
/// The crate follows the HTML5 grammar for addresses: a local part, an `@`,
/// and a domain that is a host name, an IP literal or an internationalised
/// name. The grammar itself is not restated here.
pub uninterp spec fn email_syntax_ok(address: Seq<char>) -> bool;

/// The part of the grammar that can be said in one line: an address is not
/// empty and holds an `@`.
pub open spec fn has_at_sign(address: Seq<char>) -> bool {
    address.len() > 0 && address.contains('@')
}

/// Calls `validator::ValidateEmail::validate_email` on the text.
///
/// Trusted: the answer is the crate's verdict on the text, and the crate
/// turns down the empty string and every string without an `@` before it
/// looks at anything else.
#[verifier::external_body]
fn validate_email(address: &str) -> (ok: bool)
    ensures
        ok == email_syntax_ok(address@),
        ok ==> has_at_sign(address@),
{
    validator::ValidateEmail::validate_email(&address)
}

/// Why an address was turned down.
#[derive(Clone, Copy, Debug, PartialEq, Eq, Structural)]
pub enum EmailValidationError {
    Invalid,
}

/// An e-mail address that passed validation when it was parsed.
#[derive(Debug)]
pub struct Email {
    pub address: String,
}

impl Clone for Email {
    fn clone(&self) -> (copy: Self)
        ensures
            copy.address@ == self.address@,
    {
        Email { address: self.address.clone() }
    }
}

impl PartialEq for Email {
    fn eq(&self, other: &Self) -> (same: bool) {
        self.address == other.address
    }
}

impl Eq for Email {

}

impl vstd::std_specs::cmp::PartialEqSpecImpl for Email {
    open spec fn obeys_eq_spec() -> bool {
        true
    }

    open spec fn eq_spec(&self, other: &Self) -> bool {
        self.address@ == other.address@
    }
}

impl Email {
    /// The invariant of a parsed address: its text is a valid address.
    pub open spec fn wf(&self) -> bool {
        email_syntax_ok(self.address@)
    }

    /// What parsing `input` gives: the text itself, or `Invalid`.
    pub open spec fn parse_result(input: Seq<char>) -> Result<Seq<char>, EmailValidationError> {
        Self::validated_result(input, email_syntax_ok(input))
    }

    /// What the validator's verdict `accepted` on `input` leads to.
    pub open spec fn validated_result(input: Seq<char>, accepted: bool) -> Result<
        Seq<char>,
        EmailValidationError,
    > {
        if accepted {
            Ok(input)
        } else {
            Err(EmailValidationError::Invalid)
        }
    }

    /// Builds the result of a parse from the validator's verdict on `input`.
    pub fn from_validated(input: String, accepted: bool) -> (r: Result<Email, EmailValidationError>)
        ensures
            match r {
                Ok(email) => Self::validated_result(input@, accepted) == Ok::<
                    Seq<char>,
                    EmailValidationError,
                >(email.address@),
                Err(e) => Self::validated_result(input@, accepted) == Err::<
                    Seq<char>,
                    EmailValidationError,
                >(e),
            },
    {
        if accepted {
            Ok(Email { address: input })
        } else {
            Err(EmailValidationError::Invalid)
        }
    }

    /// Validates `input` and wraps it. A valid address is kept letter for
    /// letter; anything else, the empty string and a string without `@`
    /// among them, is `Invalid`.
    pub fn parse(input: String) -> (r: Result<Email, EmailValidationError>)
        ensures
            match r {
                Ok(email) => Self::parse_result(input@) == Ok::<Seq<char>, EmailValidationError>(
                    email.address@,
                ) && email.wf(),
                Err(e) => Self::parse_result(input@) == Err::<Seq<char>, EmailValidationError>(e),
            },
            !has_at_sign(input@) ==> r is Err,
            email_syntax_ok(input@) ==> r is Ok,
    {
        let accepted = validate_email(input.as_str());
        Self::from_validated(input, accepted)
    }

    /// As `parse`, for borrowed text.
    pub fn parse_str(input: &str) -> (r: Result<Email, EmailValidationError>)
        ensures
            match r {
                Ok(email) => Self::parse_result(input@) == Ok::<Seq<char>, EmailValidationError>(
                    email.address@,
                ) && email.wf(),
                Err(e) => Self::parse_result(input@) == Err::<Seq<char>, EmailValidationError>(e),
            },
            !has_at_sign(input@) ==> r is Err,
            email_syntax_ok(input@) ==> r is Ok,
    {
        Self::parse(input.to_owned())
    }

    /// The address as text.
    pub fn as_ref(&self) -> (text: &str)
        ensures
            text@ == self.address@,
    {
        self.address.as_str()
    }
}

} // verus!
