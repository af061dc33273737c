//! The in-memory list of registered users. The service keeps one store
//! behind a lock; every read and write of it goes through these methods.
use vstd::prelude::*;
use vstd::string::*;

use crate::models::{User, UserView};

verus! {

/// Registered users in the order they registered. Usernames are not
/// required to be unique; a lookup takes the first match.
pub struct UserStore {
    users: Vec<User>,
}

impl View for UserStore {
    type V = Seq<UserView>;

    closed spec fn view(&self) -> Seq<UserView> {
        self.users@.map_values(|u: User| u@)
    }
}

/// The store's contents after `added` were registered one at a time, in
/// that order, into a store holding `start`.
pub open spec fn registered_after(start: Seq<UserView>, added: Seq<UserView>) -> Seq<UserView>
    decreases added.len(),
{
    if added.len() == 0 {
        start
    } else {
        registered_after(start, added.drop_last()).push(added.last())
    }
}

/// Registrations never lose an entry: after any number of registrations,
/// applied one at a time under the store's lock in whatever order the
/// requests arrived, the store holds what it held before followed by every
/// registered user, and its size has grown by their number.
pub proof fn lemma_registrations_kept(start: Seq<UserView>, added: Seq<UserView>)
    ensures
        registered_after(start, added).len() == start.len() + added.len(),
        registered_after(start, added) == start + added,
    decreases added.len(),
{
    if added.len() > 0 {
        lemma_registrations_kept(start, added.drop_last());
        assert(start + added =~= (start + added.drop_last()).push(added.last()));
    } else {
        assert(start + added =~= start);
    }
}

impl UserStore {
    /// An empty store, as at startup.
    pub fn new() -> (r: UserStore)
        ensures
            r@ == Seq::<UserView>::empty(),
    {
        let r = UserStore { users: Vec::new() };
        assert(r@ =~= Seq::<UserView>::empty());
        r
    }

    /// The number of registered users.
    pub fn len(&self) -> (r: usize)
        ensures
            r == self@.len(),
    {
        self.users.len()
    }

    /// Appends `user` to the store.
    pub fn add(&mut self, user: User)
        ensures
            final(self)@ == old(self)@.push(user@),
            final(self)@ == registered_after(old(self)@, seq![user@]),
    {
        let ghost u = user@;
        self.users.push(user);
        assert(self@ =~= old(self)@.push(u));
        assert(seq![u].drop_last() =~= Seq::<UserView>::empty());
        assert(registered_after(old(self)@, Seq::<UserView>::empty()) == old(self)@);
        assert(registered_after(old(self)@, seq![u]) == old(self)@.push(u));
    }

    /// The user at position `i`, in registration order.
    pub fn user_at(&self, i: usize) -> (r: &User)
        requires
            i < self@.len(),
        ensures
            r@ == self@[i as int],
    {
        &self.users[i]
    }

    /// The position of the first user named `username`, if any.
    pub fn find_by_username(&self, username: &str) -> (r: Option<usize>)
        ensures
            match r {
                Some(i) => i < self@.len() && self@[i as int].username == username@ && forall|
                    j: int,
                | 0 <= j < i ==> (#[trigger] self@[j]).username != username@,
                None => forall|j: int| 0 <= j < self@.len() ==> (#[trigger] self@[j]).username
                    != username@,
            },
    {
        let name = String::from_str(username);
        let mut i: usize = 0;
        while i < self.users.len()
            invariant
                i <= self.users@.len(),
                name@ == username@,
                forall|j: int| 0 <= j < i ==> (#[trigger] self@[j]).username != username@,
            decreases self.users@.len() - i,
        {
            if self.users[i].username == name {
                return Some(i);
            }
            i = i + 1;
        }
        None
    }
}

} // verus!
