//! The directory: which usernames exist, and the credential of each.

use crate::errors::AppError;
use vstd::hash_map::StringHashMap;
use vstd::prelude::*;

verus! {

/// Usernames and their credentials. A username is registered at most once and
/// its credential never changes afterwards.
pub struct Directory {
    users: StringHashMap<String>,
}

impl View for Directory {
    type V = Map<Seq<char>, Seq<char>>;

    closed spec fn view(&self) -> Map<Seq<char>, Seq<char>> {
        Map::new(
            |name: Seq<char>| self.users@.contains_key(name),
            |name: Seq<char>| self.users@[name]@,
        )
    }
}

impl Directory {
    /// A directory without users.
    pub fn new() -> (made: Directory)
        ensures
            made@ == Map::<Seq<char>, Seq<char>>::empty(),
    {
        let made = Directory { users: StringHashMap::new() };
        assert(made@ =~= Map::<Seq<char>, Seq<char>>::empty());
        made
    }

    /// Registers `username` with `credential`, unless the name is taken.
    pub fn register(&mut self, username: String, credential: String) -> (outcome: Result<
        (),
        AppError,
    >)
        ensures
            old(self)@.contains_key(username@) ==> outcome == Err::<(), AppError>(
                AppError::UsernameTaken,
            ) && final(self)@ == old(self)@,
            !old(self)@.contains_key(username@) ==> outcome is Ok && final(self)@
                == old(self)@.insert(username@, credential@),
    {
        if self.users.contains_key(username.as_str()) {
            return Err(AppError::UsernameTaken);
        }
        self.users.insert(username, credential);
        assert(self@ =~= old(self)@.insert(username@, credential@));
        Ok(())
    }

    /// Checks `credential` against the one registered for `username`.
    pub fn authenticate(&self, username: &String, credential: &String) -> (outcome: Result<
        (),
        AppError,
    >)
        ensures
            !self@.contains_key(username@) ==> outcome == Err::<(), AppError>(
                AppError::UserNotFound,
            ),
            self@.contains_key(username@) && self@[username@] != credential@ ==> outcome == Err::<
                (),
                AppError,
            >(AppError::InvalidCredentials),
            self@.contains_key(username@) && self@[username@] == credential@ ==> outcome is Ok,
    {
        match self.users.get(username.as_str()) {
            None => Err(AppError::UserNotFound),
            Some(stored) => {
                if *stored == *credential {
                    Ok(())
                } else {
                    Err(AppError::InvalidCredentials)
                }
            },
        }
    }
}

} // verus!
