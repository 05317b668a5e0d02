//! The persistent store as registration sees it. The store itself lives
//! outside this library; what is here is its mathematical model, and the one
//! failure that crosses the boundary.

use vstd::prelude::*;

verus! {

/// The store could not be read or written.
#[derive(Clone, Copy, Debug, PartialEq, Eq, Structural)]
pub struct StoreFailure;

/// What the store holds: each registered identity with its numeric id, and
/// each issued challenge with the id of the user it was issued to.
pub struct StoreModel {
    pub users: Map<Seq<char>, int>,
    pub challenges: Set<(int, Seq<char>)>,
}

impl StoreModel {
    /// The id of the user registered under `email`, if there is one.
    pub open spec fn get_user(self, email: Seq<char>) -> Option<int> {
        if self.users.dom().contains(email) {
            Some(self.users[email])
        } else {
            None
        }
    }

    /// The store after the user `email` was created under `id`.
    pub open spec fn insert_user(self, email: Seq<char>, id: int) -> StoreModel {
        StoreModel { users: self.users.insert(email, id), challenges: self.challenges }
    }

    /// The store after `challenge` was recorded for the user `user_id`.
    pub open spec fn insert_user_challenge(self, user_id: int, challenge: Seq<char>) -> StoreModel {
        StoreModel { users: self.users, challenges: self.challenges.insert((user_id, challenge)) }
    }

    /// Whether `challenge` was issued to the user registered under `email`.
    pub open spec fn user_challenge_exists(self, challenge: Seq<char>, email: Seq<char>) -> bool {
        self.users.dom().contains(email) && self.challenges.contains((self.users[email], challenge))
    }

    /// Whether no challenge at all was issued to `email`.
    pub open spec fn never_issued(self, email: Seq<char>) -> bool {
        forall|challenge: Seq<char>| !self.user_challenge_exists(challenge, email)
    }

    /// Whether `id` is the id of no user yet.
    pub open spec fn is_unused_id(self, id: int) -> bool {
        forall|email: Seq<char>| self.users.dom().contains(email) ==> #[trigger] self.users[email] != id
    }
}

} // verus!
