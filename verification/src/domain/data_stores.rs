use vstd::prelude::*;
use crate::domain::user::{User, UserView};

verus! {

/// How a store operation can fail.
#[derive(Clone, Copy, Debug, PartialEq, Eq, Structural)]
pub enum UserStoreError {
    UserAlreadyExists,
    UserNotFound,
    InvalidCredentials,
    UnexpectedError,
}

/// What a store holds, as contracts see it: users by address.
pub type Users = Map<Seq<char>, UserView>;

/// Every user stands under its own address, and there are finitely many.
pub open spec fn keyed_by_email(users: Users) -> bool {
    &&& users.dom().finite()
    &&& forall|address: Seq<char>| #[trigger]
        users.contains_key(address) ==> users[address].email == address
}

/// The answer of `add_user`: a taken address is refused.
pub open spec fn add_user_result(users: Users, user: UserView) -> Result<(), UserStoreError> {
    if users.contains_key(user.email) {
        Err(UserStoreError::UserAlreadyExists)
    } else {
        Ok(())
    }
}

/// The store after `add_user`: the user under its address if that was free,
/// the store as it was otherwise.
pub open spec fn add_user_state(users: Users, user: UserView) -> Users {
    if users.contains_key(user.email) {
        users
    } else {
        users.insert(user.email, user)
    }
}

/// The answer of `get_user`: the user under exactly that address.
pub open spec fn get_user_result(users: Users, email: Seq<char>) -> Result<
    UserView,
    UserStoreError,
> {
    if users.contains_key(email) {
        Ok(users[email])
    } else {
        Err(UserStoreError::UserNotFound)
    }
}

/// The answer of `validate_user`. An unknown address and a wrong password
/// give different errors.
pub open spec fn validate_user_result(
    users: Users,
    email: Seq<char>,
    password: Seq<char>,
) -> Result<(), UserStoreError> {
    if !users.contains_key(email) {
        Err(UserStoreError::UserNotFound)
    } else if users[email].password != password {
        Err(UserStoreError::InvalidCredentials)
    } else {
        Ok(())
    }
}

/// An answer of `validate_user` with the unknown address concealed: it
/// reads as wrong credentials, so that the answer does not tell which
/// addresses the store knows.
pub open spec fn concealed(answer: Result<(), UserStoreError>) -> Result<(), UserStoreError> {
    if answer == Err::<(), UserStoreError>(UserStoreError::UserNotFound) {
        Err(UserStoreError::InvalidCredentials)
    } else {
        answer
    }
}

/// Conceals an unknown address in an answer of `validate_user`, for a
/// caller that must not tell it from a wrong password.
pub fn conceal_unknown_user(answer: Result<(), UserStoreError>) -> (r: Result<(), UserStoreError>)
    ensures
        r == concealed(answer),
{
    match answer {
        Err(UserStoreError::UserNotFound) => Err(UserStoreError::InvalidCredentials),
        other => other,
    }
}

/// The store and the answers after adding `users` one after the other, each
/// call complete before the next begins.
pub open spec fn add_all(start: Users, users: Seq<UserView>) -> (Users, Seq<Result<(), UserStoreError>>)
    decreases users.len(),
{
    if users.len() == 0 {
        (start, Seq::empty())
    } else {
        let before = add_all(start, users.drop_last());
        (
            add_user_state(before.0, users.last()),
            before.1.push(add_user_result(before.0, users.last())),
        )
    }
}

/// The capability of a user store, whatever holds the users.
///
/// Each operation either does what the model says or, where the store could
/// not do its work, answers `UnexpectedError` and changes nothing.
pub trait UserStore {
    /// The users that the store holds.
    spec fn users(&self) -> Users;

    /// Whether stores of this kind always do their work, so that they never
    /// answer `UnexpectedError`.
    spec fn infallible() -> bool;

    /// Adds `user` under its address, unless the address is taken.
    fn add_user(&mut self, user: User) -> (r: Result<(), UserStoreError>)
        ensures
            r != Err::<(), UserStoreError>(UserStoreError::UnexpectedError) ==> r
                == add_user_result(old(self).users(), user@) && final(self).users()
                == add_user_state(old(self).users(), user@),
            r == Err::<(), UserStoreError>(UserStoreError::UnexpectedError) ==> final(self).users()
                == old(self).users() && !Self::infallible(),
    ;

    /// A copy of the user under exactly the address `email`.
    fn get_user(&self, email: &str) -> (r: Result<User, UserStoreError>)
        ensures
            match r {
                Ok(user) => get_user_result(self.users(), email@) == Ok::<UserView, UserStoreError>(
                    user@,
                ),
                Err(e) => if e == UserStoreError::UnexpectedError {
                    !Self::infallible()
                } else {
                    get_user_result(self.users(), email@) == Err::<UserView, UserStoreError>(e)
                },
            },
    ;

    /// Whether `password` is the password of the user under `email`.
    fn validate_user(&self, email: &str, password: &str) -> (r: Result<(), UserStoreError>)
        ensures
            if r == Err::<(), UserStoreError>(UserStoreError::UnexpectedError) {
                !Self::infallible()
            } else {
                r == validate_user_result(self.users(), email@, password@)
            },
    ;
}

/// Adding a user twice: the first call succeeds on a free address, the
/// second is refused and changes nothing, and the store has grown by
/// exactly one user.
pub proof fn lemma_add_user_twice(users: Users, user: UserView)
    requires
        users.dom().finite(),
        !users.contains_key(user.email),
    ensures
        add_user_result(users, user) == Ok::<(), UserStoreError>(()),
        add_user_result(add_user_state(users, user), user) == Err::<(), UserStoreError>(
            UserStoreError::UserAlreadyExists,
        ),
        add_user_state(add_user_state(users, user), user) == add_user_state(users, user),
        add_user_state(users, user).len() == users.len() + 1,
{
}

/// A refused `add_user` leaves the store as it was; a successful one adds
/// exactly one user and touches no other address.
pub proof fn lemma_add_user_frame(users: Users, user: UserView, other: Seq<char>)
    requires
        users.dom().finite(),
    ensures
        add_user_result(users, user) is Err ==> add_user_state(users, user) == users,
        add_user_result(users, user) is Ok ==> add_user_state(users, user).len() == users.len() + 1,
        other != user.email ==> get_user_result(add_user_state(users, user), other)
            == get_user_result(users, other),
        add_user_state(users, user).dom().finite(),
{
}

/// `add_user` keeps every user under its own address.
pub proof fn lemma_add_user_keeps_keys(users: Users, user: UserView)
    requires
        keyed_by_email(users),
    ensures
        keyed_by_email(add_user_state(users, user)),
{
}

/// After a successful `add_user`, `get_user` with the same address gives
/// the user that was added.
pub proof fn lemma_get_after_add(users: Users, user: UserView)
    requires
        add_user_result(users, user) is Ok,
    ensures
        get_user_result(add_user_state(users, user), user.email) == Ok::<UserView, UserStoreError>(
            user,
        ),
{
}

/// An address that was never added is not found: not in the empty store,
/// and not after adding users under other addresses.
pub proof fn lemma_get_never_added(users: Seq<UserView>, email: Seq<char>)
    requires
        forall|i: int| 0 <= i < users.len() ==> (#[trigger] users[i]).email != email,
    ensures
        get_user_result(add_all(Map::empty(), users).0, email) == Err::<UserView, UserStoreError>(
            UserStoreError::UserNotFound,
        ),
    decreases users.len(),
{
    if users.len() > 0 {
        let rest = users.drop_last();
        assert forall|i: int| 0 <= i < rest.len() implies (#[trigger] rest[i]).email != email by {
            assert(rest[i] == users[i]);
        }
        lemma_get_never_added(rest, email);
        assert(users.last() == users[users.len() - 1]);
    }
}

/// The three answers of `validate_user`: the right password of a known
/// address passes, a wrong one is `InvalidCredentials`, and an unknown
/// address is `UserNotFound` whatever the password.
pub proof fn lemma_validate_user_cases(users: Users, email: Seq<char>, password: Seq<char>)
    ensures
        users.contains_key(email) && users[email].password == password ==> validate_user_result(
            users,
            email,
            password,
        ) == Ok::<(), UserStoreError>(()),
        users.contains_key(email) && users[email].password != password ==> validate_user_result(
            users,
            email,
            password,
        ) == Err::<(), UserStoreError>(UserStoreError::InvalidCredentials),
        !users.contains_key(email) ==> validate_user_result(users, email, password) == Err::<
            (),
            UserStoreError,
        >(UserStoreError::UserNotFound),
{
}

/// With the unknown address concealed, `validate_user` has two answers
/// only: success for the right password of a known address, and
/// `InvalidCredentials` for everything else.
pub proof fn lemma_concealed_validate(users: Users, email: Seq<char>, password: Seq<char>)
    ensures
        concealed(validate_user_result(users, email, password)) == (if users.contains_key(email)
            && users[email].password == password {
            Ok::<(), UserStoreError>(())
        } else {
            Err::<(), UserStoreError>(UserStoreError::InvalidCredentials)
        }),
{
}

/// After a successful `add_user`, the user's own password validates and
/// every other password is `InvalidCredentials`.
pub proof fn lemma_validate_after_add(users: Users, user: UserView, password: Seq<char>)
    requires
        add_user_result(users, user) is Ok,
    ensures
        validate_user_result(add_user_state(users, user), user.email, password) == (if password
            == user.password {
            Ok::<(), UserStoreError>(())
        } else {
            Err::<(), UserStoreError>(UserStoreError::InvalidCredentials)
        }),
{
}

/// The number of successful answers among `answers`.
pub open spec fn count_ok(answers: Seq<Result<(), UserStoreError>>) -> nat
    decreases answers.len(),
{
    if answers.len() == 0 {
        0
    } else {
        count_ok(answers.drop_last()) + (if answers.last() is Ok {
            1nat
        } else {
            0nat
        })
    }
}

/// Any number of `add_user` calls with one address, in whatever order they
/// come to hold the store: on a store where the address is free, the first
/// succeeds and every later one is `UserAlreadyExists`, so exactly one
/// succeeds; the store then holds the first caller's user under that
/// address and has grown by one.
pub proof fn lemma_same_email_adds(start: Users, users: Seq<UserView>, email: Seq<char>)
    requires
        start.dom().finite(),
        !start.contains_key(email),
        users.len() > 0,
        forall|i: int| 0 <= i < users.len() ==> (#[trigger] users[i]).email == email,
    ensures
        add_all(start, users).0 == start.insert(email, users[0]),
        add_all(start, users).0.len() == start.len() + 1,
        add_all(start, users).1.len() == users.len(),
        add_all(start, users).1[0] == Ok::<(), UserStoreError>(()),
        forall|i: int|
            1 <= i < users.len() ==> #[trigger] add_all(start, users).1[i] == Err::<
                (),
                UserStoreError,
            >(UserStoreError::UserAlreadyExists),
        count_ok(add_all(start, users).1) == 1,
    decreases users.len(),
{
    let rest = users.drop_last();
    if rest.len() == 0 {
        assert(add_all(start, rest).0 == start);
        assert(add_all(start, rest).1 == Seq::<Result<(), UserStoreError>>::empty());
        assert(users.last() == users[0]);
        assert(add_all(start, users).1.drop_last() == add_all(start, rest).1);
        assert(count_ok(add_all(start, rest).1) == 0);
    } else {
        assert forall|i: int| 0 <= i < rest.len() implies (#[trigger] rest[i]).email == email by {
            assert(rest[i] == users[i]);
        }
        lemma_same_email_adds(start, rest, email);
        assert(rest[0] == users[0]);
        assert(users.last() == users[users.len() - 1]);
        assert(add_all(start, rest).0.contains_key(email));
        assert(add_all(start, users).1.drop_last() == add_all(start, rest).1);
    }
}

} // verus!
