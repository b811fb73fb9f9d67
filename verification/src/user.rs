//! Application users and the directory that maps a verified identity to one.

use vstd::prelude::*;

verus! {

/// An application user.
#[derive(Debug, Clone, PartialEq, Eq)]
pub struct User {
    pub id: String,
    /// The principal name under which the directory knows the user.
    pub upn: String,
}

/// What a `User` holds, as plain values.
pub struct UserView {
    pub id: Seq<char>,
    pub upn: Seq<char>,
}

impl View for User {
    type V = UserView;

    open spec fn view(&self) -> UserView {
        UserView { id: self.id@, upn: self.upn@ }
    }
}

impl User {
    pub fn new(id: String, upn: String) -> (user: User)
        ensures
            user@ == (UserView { id: id@, upn: upn@ }),
    {
        User { id, upn }
    }

    /// A copy of this user.
    pub fn duplicate(&self) -> (copy: User)
        ensures
            copy@ == self@,
    {
        User { id: self.id.clone(), upn: self.upn.clone() }
    }
}

/// The views of a list of users.
pub open spec fn user_views(users: Seq<User>) -> Seq<UserView> {
    users.map_values(|u: User| u@)
}

/// The first user of `users` whose principal name is `principal`.
pub open spec fn first_user_named(users: Seq<UserView>, principal: Seq<char>) -> Option<UserView>
    decreases users.len(),
{
    if users.len() == 0 {
        None
    } else if users[0].upn == principal {
        Some(users[0])
    } else {
        first_user_named(users.drop_first(), principal)
    }
}

/// A user that was found is one of the users and carries the principal name.
pub proof fn lemma_found_user_is_member(users: Seq<UserView>, principal: Seq<char>)
    ensures
        match first_user_named(users, principal) {
            Some(user) => users.contains(user) && user.upn == principal,
            None => forall|k: int| 0 <= k < users.len() ==> (#[trigger] users[k]).upn != principal,
        },
    decreases users.len(),
{
    if users.len() > 0 {
        if users[0].upn == principal {
            assert(users.contains(users[0]));
        } else {
            let rest = users.drop_first();
            lemma_found_user_is_member(rest, principal);
            match first_user_named(rest, principal) {
                Some(user) => {
                    let at = choose|k: int| 0 <= k < rest.len() && rest[k] == user;
                    assert(users[at + 1] == user);
                },
                None => {
                    assert forall|k: int| 0 <= k < users.len() implies (#[trigger] users[k]).upn
                        != principal by {
                        if k > 0 {
                            assert(rest[k - 1] == users[k]);
                        }
                    }
                },
            }
        }
    }
}

/// An in-memory user directory.
#[derive(Debug, Clone)]
pub struct UserDirectory {
    pub users: Vec<User>,
}

impl View for UserDirectory {
    type V = Seq<UserView>;

    open spec fn view(&self) -> Seq<UserView> {
        user_views(self.users@)
    }
}

impl UserDirectory {
    /// A directory holding `users`, searched in the order given.
    pub fn new(users: Vec<User>) -> (directory: UserDirectory)
        ensures
            directory@ == user_views(users@),
    {
        UserDirectory { users }
    }

    /// Looks a user up by principal name. Where several users share the
    /// name, the first one is returned.
    pub fn lookup(&self, principal: &str) -> (found: Option<User>)
        ensures
            match found {
                Some(user) => first_user_named(self@, principal@) == Some(user@),
                None => first_user_named(self@, principal@) is None,
            },
    {
        let wanted: String = principal.to_owned();
        let n: usize = self.users.len();
        let mut i: usize = 0;
        assert(self@.skip(0) =~= self@);
        while i < n
            invariant
                0 <= i <= n,
                n == self.users@.len(),
                wanted@ == principal@,
                first_user_named(self@, principal@) == first_user_named(
                    self@.skip(i as int),
                    principal@,
                ),
            decreases n - i,
        {
            let ghost rest = self@.skip(i as int);
            assert(rest[0] == self.users@[i as int]@);
            assert(rest.drop_first() =~= self@.skip(i + 1));
            if self.users[i].upn == wanted {
                return Some(self.users[i].duplicate());
            }
            i = i + 1;
        }
        None
    }
}

} // verus!
