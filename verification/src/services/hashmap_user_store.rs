use vstd::prelude::*;
use vstd::hash_map::StringHashMap;
use crate::domain::data_stores::{
    add_user_result, add_user_state, get_user_result, validate_user_result,
    UserStore, UserStoreError, Users,
};
use crate::domain::user::{User, UserView};

verus! {

/// The user store that keeps its users in memory, in a hash map from
/// address to user.
pub struct HashmapUserStore {
    users: StringHashMap<User>,
}

impl HashmapUserStore {
    #[verifier::type_invariant]
    spec fn inv(&self) -> bool {
        &&& self.users@.dom().finite()
        &&& forall|address: Seq<char>| #[trigger]
            self.users@.contains_key(address) ==> self.users@[address].email.address@ == address
    }

    /// The users held, by address.
    pub closed spec fn held(&self) -> Users {
        Map::new(
            |address: Seq<char>| self.users@.contains_key(address),
            |address: Seq<char>| self.users@[address]@,
        )
    }

    /// An empty store.
    pub fn new() -> (store: Self)
        ensures
            store.users() == Map::<Seq<char>, UserView>::empty(),
    {
        let store = HashmapUserStore { users: StringHashMap::new() };
        assert(store.held() =~= Map::<Seq<char>, UserView>::empty());
        store
    }

    /// The number of users held.
    pub fn len(&self) -> (n: usize)
        ensures
            n == self.users().len(),
            self.users().dom().finite(),
    {
        proof {
            use_type_invariant(self);
            assert(self.held().dom() =~= self.users@.dom());
        }
        self.users.len()
    }
}

impl Default for HashmapUserStore {
    fn default() -> (store: Self)
        ensures
            store.users() == Map::<Seq<char>, UserView>::empty(),
    {
        HashmapUserStore::new()
    }
}

impl UserStore for HashmapUserStore {
    open spec fn users(&self) -> Users {
        self.held()
    }

    open spec fn infallible() -> bool {
        true
    }

    /// Never answers `UnexpectedError`: the answer and the store afterwards
    /// are exactly what the model says.
    fn add_user(&mut self, user: User) -> (r: Result<(), UserStoreError>)
        ensures
            r == add_user_result(old(self).users(), user@),
            final(self).users() == add_user_state(old(self).users(), user@),
    {
        proof {
            use_type_invariant(&*self);
        }
        let id = user.email.address.clone();
        if self.users.contains_key(id.as_str()) {
            return Err(UserStoreError::UserAlreadyExists);
        }
        // The map leaves the store for the insertion and comes back with
        // the user in it.
        let mut users = StringHashMap::new();
        std::mem::swap(&mut self.users, &mut users);
        users.insert(id, user);
        std::mem::swap(&mut self.users, &mut users);
        proof {
            assert(self.held() =~= add_user_state(old(self).held(), user@));
        }
        Ok(())
    }

    /// Never answers `UnexpectedError`. The user handed out stands under
    /// the address that was asked for.
    fn get_user(&self, email: &str) -> (r: Result<User, UserStoreError>)
        ensures
            match r {
                Ok(user) => get_user_result(self.users(), email@) == Ok::<UserView, UserStoreError>(
                    user@,
                ) && user@.email == email@,
                Err(e) => get_user_result(self.users(), email@) == Err::<UserView, UserStoreError>(
                    e,
                ),
            },
    {
        proof {
            use_type_invariant(self);
        }
        match self.users.get(email) {
            Some(user) => Ok(user.clone()),
            None => Err(UserStoreError::UserNotFound),
        }
    }

    /// Never answers `UnexpectedError`.
    fn validate_user(&self, email: &str, password: &str) -> (r: Result<(), UserStoreError>)
        ensures
            r == validate_user_result(self.users(), email@, password@),
    {
        match self.get_user(email) {
            Err(e) => Err(e),
            Ok(user) => {
                let given = password.to_owned();
                if user.password.password != given {
                    return Err(UserStoreError::InvalidCredentials);
                }
                Ok(())
            },
        }
    }
}

} // verus!
