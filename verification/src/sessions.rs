//! The session registry: which usernames are signed in right now.

use vstd::hash_set::StringHashSet;
use vstd::prelude::*;

verus! {

/// The set of usernames with an active session.
pub struct SessionRegistry {
    active: StringHashSet,
}

impl View for SessionRegistry {
    type V = Set<Seq<char>>;

    closed spec fn view(&self) -> Set<Seq<char>> {
        self.active@
    }
}

impl SessionRegistry {
    /// A registry with nobody signed in.
    pub fn new() -> (made: SessionRegistry)
        ensures
            made@ == Set::<Seq<char>>::empty(),
    {
        SessionRegistry { active: StringHashSet::new() }
    }

    /// Marks `username` as signed in. Doing so twice changes nothing.
    pub fn mark_active(&mut self, username: String)
        ensures
            final(self)@ == old(self)@.insert(username@),
            old(self)@.contains(username@) ==> final(self)@ == old(self)@,
    {
        self.active.insert(username);
        assert(old(self)@.contains(username@) ==> old(self)@.insert(username@) =~= old(self)@);
    }

    /// Marks `username` as signed out. Doing so for a user who is not signed
    /// in changes nothing.
    pub fn mark_inactive(&mut self, username: &String)
        ensures
            final(self)@ == old(self)@.remove(username@),
            !old(self)@.contains(username@) ==> final(self)@ == old(self)@,
    {
        self.active.remove(username.as_str());
        assert(!old(self)@.contains(username@) ==> old(self)@.remove(username@) =~= old(self)@);
    }

    /// Whether `username` is signed in.
    pub fn is_active(&self, username: &String) -> (active: bool)
        ensures
            active == self@.contains(username@),
    {
        self.active.contains(username.as_str())
    }
}

} // verus!
