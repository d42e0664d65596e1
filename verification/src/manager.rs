use vstd::prelude::*;
use crate::user::User;
use crate::user::valid_user_view;

verus! {

/// The number of valid users in a sequence.
pub open spec fn count_valid(users: Seq<User>) -> nat
    decreases users.len(),
{
    if users.len() == 0 {
        0
    } else {
        count_valid(users.drop_last()) + (if valid_user_view(users.last()@) {
            1nat
        } else {
            0nat
        })
    }
}

/// The valid count counts exactly the valid stored users: it equals the
/// length of the subsequence of users that are valid.
pub proof fn lemma_count_valid_is_filter_len(users: Seq<User>)
    ensures
        count_valid(users) == users.filter(|u: User| valid_user_view(u@)).len(),
    decreases users.len(),
{
    reveal(Seq::filter);
    if users.len() > 0 {
        lemma_count_valid_is_filter_len(users.drop_last());
    }
}

/// Position `i` holds the first user in `users` whose id is `user_id`.
pub open spec fn first_match_at(users: Seq<User>, user_id: u32, i: int) -> bool {
    &&& 0 <= i < users.len()
    &&& users[i].id == user_id
    &&& forall|j: int| 0 <= j < i ==> users[j].id != user_id
}

/// At most one position holds the first user with a given id, so a lookup
/// result described through [`first_match_at`] is unique.
pub proof fn lemma_first_match_unique(users: Seq<User>, user_id: u32, i: int, j: int)
    requires
        first_match_at(users, user_id, i),
        first_match_at(users, user_id, j),
    ensures
        i == j,
{
}

/// Summary counts over a manager's collection: how many users it stores,
/// and how many of those are valid.
#[derive(Clone, Copy, Debug, PartialEq, Eq)]
pub struct UserStats {
    pub total_users: usize,
    pub valid_users: usize,
}

/// An ordered collection of users. Insertion order is preserved, duplicate
/// ids are permitted, and nothing is ever removed: the collection grows
/// only through [`UserManager::add_user`].
pub struct UserManager {
    users: Vec<User>,
}

impl View for UserManager {
    type V = Seq<User>;

    closed spec fn view(&self) -> Seq<User> {
        self.users@
    }
}

impl UserManager {
    /// Constructs a manager with an empty collection.
    pub fn new() -> (manager: Self)
        ensures
            manager@ == Seq::<User>::empty(),
    {
        UserManager { users: Vec::new() }
    }

    /// Appends `user` to the end of the collection and returns the new
    /// total count. Always succeeds: no duplicate-id check and no
    /// validation gate stand in the way.
    pub fn add_user(&mut self, user: User) -> (count: usize)
        ensures
            final(self)@ == old(self)@.push(user),
            count == old(self)@.len() + 1,
    {
        self.users.push(user);
        self.users.len()
    }

    /// Returns an independent copy of the stored collection, in insertion
    /// order. Mutating the returned vector does not affect the manager.
    pub fn get_users(&self) -> (users: Vec<User>)
        ensures
            users@ == self@,
    {
        let mut result: Vec<User> = Vec::new();
        let mut i: usize = 0;
        while i < self.users.len()
            invariant
                i <= self.users@.len(),
                result@ == self.users@.subrange(0, i as int),
            decreases self.users@.len() - i,
        {
            proof {
                assert(self.users@.subrange(0, i as int).push(self.users@[i as int])
                    =~= self.users@.subrange(0, i + 1));
            }
            result.push(self.users[i].clone());
            i = i + 1;
        }
        proof {
            assert(self.users@.subrange(0, self.users@.len() as int) =~= self.users@);
        }
        result
    }

    /// Returns a reference to the first stored user whose id equals
    /// `user_id`, in insertion order, or `None` when no user has that id.
    pub fn find_user_by_id(&self, user_id: u32) -> (found: Option<&User>)
        ensures
            match found {
                Some(user) => exists|i: int|
                    first_match_at(self@, user_id, i) && self@[i] == *user,
                None => forall|i: int| 0 <= i < self@.len() ==> self@[i].id != user_id,
            },
    {
        let mut i: usize = 0;
        while i < self.users.len()
            invariant
                i <= self.users@.len(),
                forall|j: int| 0 <= j < i ==> self.users@[j].id != user_id,
            decreases self.users@.len() - i,
        {
            if self.users[i].id == user_id {
                let found_user: &User = &self.users[i];
                proof {
                    assert(first_match_at(self@, user_id, i as int)
                        && self@[i as int] == *found_user);
                }
                return Some(found_user);
            }
            i = i + 1;
        }
        None
    }

    /// Returns the total number of stored users and the number of those
    /// that are valid.
    pub fn get_stats(&self) -> (stats: UserStats)
        ensures
            stats.total_users == self@.len(),
            stats.valid_users == count_valid(self@),
            stats.valid_users <= stats.total_users,
    {
        let mut valid: usize = 0;
        let mut i: usize = 0;
        while i < self.users.len()
            invariant
                i <= self.users@.len(),
                valid <= i,
                valid == count_valid(self.users@.subrange(0, i as int)),
            decreases self.users@.len() - i,
        {
            proof {
                assert(self.users@.subrange(0, i + 1).drop_last()
                    =~= self.users@.subrange(0, i as int));
                assert(self.users@.subrange(0, i + 1).last() == self.users@[i as int]);
            }
            if self.users[i].is_valid() {
                valid = valid + 1;
            }
            i = i + 1;
        }
        proof {
            assert(self.users@.subrange(0, self.users@.len() as int) =~= self.users@);
        }
        UserStats { total_users: self.users.len(), valid_users: valid }
    }
}

/// Adding a user appends it at the end: the count rises by one, the new
/// user stands last, and every earlier user keeps its place.
pub proof fn lemma_add_keeps_order(users: Seq<User>, user: User)
    ensures
        users.push(user).len() == users.len() + 1,
        users.push(user)[users.len() as int] == user,
        forall|j: int| 0 <= j < users.len() ==> users.push(user)[j] == users[j],
{
}

} // verus!
