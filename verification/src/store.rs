//! The credential store: the registered users, no two of them with the same
//! identifier or the same e-mail address.

use vstd::prelude::*;

use crate::error::AuthError;
use crate::user::{StoredUser, StoredUserView};

verus! {

/// Some record holds this e-mail address.
pub open spec fn has_email(users: Seq<StoredUserView>, email: Seq<char>) -> bool {
    exists|i: int| 0 <= i < users.len() && (#[trigger] users[i]).email == email
}

/// Some record holds this identifier.
pub open spec fn has_id(users: Seq<StoredUserView>, id: Seq<char>) -> bool {
    exists|i: int| 0 <= i < users.len() && (#[trigger] users[i]).id == id
}

/// Record `i` is the first one with this e-mail address.
pub open spec fn is_first_with_email(users: Seq<StoredUserView>, email: Seq<char>, i: int) -> bool {
    &&& 0 <= i < users.len()
    &&& users[i].email == email
    &&& forall|j: int| 0 <= j < i ==> (#[trigger] users[j]).email != email
}

/// The first record with this e-mail address, if there is one.
pub open spec fn find_email(
    users: Seq<StoredUserView>,
    email: Seq<char>,
) -> Option<StoredUserView> {
    if exists|i: int| is_first_with_email(users, email, i) {
        Some(users[choose|i: int| is_first_with_email(users, email, i)])
    } else {
        None
    }
}

/// How many records hold this e-mail address.
pub open spec fn count_email(users: Seq<StoredUserView>, email: Seq<char>) -> nat
    decreases users.len(),
{
    if users.len() == 0 {
        0
    } else {
        count_email(users.drop_last(), email) + if users.last().email == email {
            1nat
        } else {
            0nat
        }
    }
}

/// No identifier and no e-mail address occurs twice.
pub open spec fn consistent(users: Seq<StoredUserView>) -> bool {
    forall|i: int, j: int|
        0 <= i < j < users.len() ==> (#[trigger] users[i]).id != (#[trigger] users[j]).id
            && users[i].email != users[j].email
}

/// Where the record with this identifier stands.
pub open spec fn position_of_id(users: Seq<StoredUserView>, id: Seq<char>) -> int {
    choose|i: int| 0 <= i < users.len() && (#[trigger] users[i]).id == id
}

/// The records after `user` was written under its identifier: it takes the
/// place of the record that had the identifier, or is added at the end.
pub open spec fn with_user(
    users: Seq<StoredUserView>,
    user: StoredUserView,
) -> Seq<StoredUserView> {
    if has_id(users, user.id) {
        users.update(position_of_id(users, user.id), user)
    } else {
        users.push(user)
    }
}

/// What writing `user` comes to: refused while another record holds its
/// e-mail address, else written under its identifier.
pub open spec fn insert_outcome(users: Seq<StoredUserView>, user: StoredUserView) -> Result<
    Seq<StoredUserView>,
    AuthError,
> {
    if has_email(users, user.email) {
        Err(AuthError::EmailTaken)
    } else {
        Ok(with_user(users, user))
    }
}

/// The registered users, kept for as long as the store lives.
pub struct CredentialStore {
    users: Vec<StoredUser>,
}

/// The text of an optional record.
pub open spec fn record_of(found: Option<&StoredUser>) -> Option<StoredUserView> {
    match found {
        Some(user) => Some(user@),
        None => None,
    }
}

impl View for CredentialStore {
    type V = Seq<StoredUserView>;

    closed spec fn view(&self) -> Seq<StoredUserView> {
        self.users@.map_values(|u: StoredUser| u@)
    }
}

impl CredentialStore {
    /// In every store no identifier and no e-mail address occurs twice.
    #[verifier::type_invariant]
    pub(crate) open spec fn inv(self) -> bool {
        consistent(self@)
    }

    /// An empty store.
    pub fn new() -> (store: CredentialStore)
        ensures
            store@ == Seq::<StoredUserView>::empty(),
    {
        CredentialStore { users: Vec::new() }
    }

    /// The number of registered users.
    pub fn len(&self) -> (n: usize)
        ensures
            n == self@.len(),
            consistent(self@),
    {
        proof {
            use_type_invariant(&*self);
        }
        self.users.len()
    }

    /// The user registered under `email`, if any. The address is compared
    /// as it stands, letter case included.
    pub fn find_by_email(&self, email: &str) -> (found: Option<&StoredUser>)
        ensures
            record_of(found) == find_email(self@, email@),
            consistent(self@),
    {
        proof {
            use_type_invariant(&*self);
        }
        let wanted: String = email.to_owned();
        let n: usize = self.users.len();
        let mut i: usize = 0;
        while i < n
            invariant
                i <= n,
                n == self.users.len(),
                wanted@ == email@,
                consistent(self@),
                forall|j: int| 0 <= j < i ==> (#[trigger] self@[j]).email != email@,
            decreases n - i,
        {
            if self.users[i].email == wanted {
                assert(is_first_with_email(self@, email@, i as int));
                return Some(&self.users[i]);
            }
            i = i + 1;
        }
        None
    }

    /// Whether a user is registered under `email`.
    pub fn contains_email(&self, email: &str) -> (held: bool)
        ensures
            held == has_email(self@, email@),
            consistent(self@),
    {
        let found = self.find_by_email(email);
        proof {
            lemma_find_email(self@, email@);
        }
        found.is_some()
    }

    /// Writes `user` into the store, unless its e-mail address is taken.
    /// The test and the write are one step: the store is held alone while
    /// both are made, so nothing can come between them.
    pub fn insert(&mut self, user: StoredUser) -> (r: Result<(), AuthError>)
        ensures
            consistent(old(self)@),
            consistent(final(self)@),
            match insert_outcome(old(self)@, user@) {
                Ok(users) => r == Ok::<(), AuthError>(()) && final(self)@ == users,
                Err(e) => r == Err::<(), AuthError>(e) && final(self)@ == old(self)@,
            },
    {
        if self.contains_email(user.email.as_str()) {
            return Err(AuthError::EmailTaken);
        }
        let ghost before = self@;
        let mut users: Vec<StoredUser> = Vec::new();
        std::mem::swap(&mut users, &mut self.users);
        assert(users@.map_values(|u: StoredUser| u@) == before);
        let n: usize = users.len();
        let mut place: Option<usize> = None;
        let mut i: usize = 0;
        while i < n && place.is_none()
            invariant
                i <= n,
                n == users.len(),
                users@.map_values(|u: StoredUser| u@) == before,
                place is None ==> forall|j: int|
                    0 <= j < i ==> (#[trigger] before[j]).id != user@.id,
                place matches Some(p) ==> p < n && before[p as int].id == user@.id,
            decreases n - i + if place is None { 1int } else { 0int },
        {
            if users[i].id == user.id {
                place = Some(i);
            } else {
                i = i + 1;
            }
        }
        match place {
            Some(p) => {
                proof {
                    lemma_with_user(before, user@, p as int);
                }
                users.set(p, user);
                assert(users@.map_values(|u: StoredUser| u@) =~= before.update(p as int, user@));
            },
            None => {
                proof {
                    lemma_with_new_user(before, user@);
                }
                users.push(user);
                assert(users@.map_values(|u: StoredUser| u@) =~= before.push(user@));
            },
        }
        self.users = users;
        Ok(())
    }
}

/// `find_email` finds a record exactly when one holds the address, and
/// the record it finds holds it.
pub proof fn lemma_find_email(users: Seq<StoredUserView>, email: Seq<char>)
    ensures
        find_email(users, email) is Some <==> has_email(users, email),
        find_email(users, email) matches Some(u) ==> u.email == email && users.contains(u),
{
    if has_email(users, email) {
        let k = choose|i: int| 0 <= i < users.len() && (#[trigger] users[i]).email == email;
        lemma_first_exists(users, email, k);
    }
    if exists|i: int| is_first_with_email(users, email, i) {
        let f = choose|i: int| is_first_with_email(users, email, i);
        assert(users[f].email == email);
    }
}

proof fn lemma_first_exists(users: Seq<StoredUserView>, email: Seq<char>, k: int)
    requires
        0 <= k < users.len(),
        users[k].email == email,
    ensures
        exists|i: int| is_first_with_email(users, email, i),
    decreases k,
{
    if exists|j: int| 0 <= j < k && (#[trigger] users[j]).email == email {
        let j = choose|j: int| 0 <= j < k && (#[trigger] users[j]).email == email;
        lemma_first_exists(users, email, j);
    } else {
        assert(is_first_with_email(users, email, k));
    }
}

/// In a consistent store where record `i` has the identifier of `user` and
/// nobody holds its e-mail address, writing `user` replaces record `i`.
proof fn lemma_with_user(users: Seq<StoredUserView>, user: StoredUserView, i: int)
    requires
        consistent(users),
        0 <= i < users.len(),
        users[i].id == user.id,
        !has_email(users, user.email),
    ensures
        with_user(users, user) == users.update(i, user),
        consistent(users.update(i, user)),
{
    assert(has_id(users, user.id));
    let p = position_of_id(users, user.id);
    assert(p == i) by {
        if p < i {
            assert(users[p].id != users[i].id);
        } else if i < p {
            assert(users[i].id != users[p].id);
        }
    }
    let after = users.update(i, user);
    assert forall|a: int, b: int| 0 <= a < b < after.len() implies (#[trigger] after[a]).id != (
    #[trigger] after[b]).id && after[a].email != after[b].email by {
        assert(users[a].id != users[b].id);
        assert(users[a].email != user.email);
        assert(users[b].email != user.email);
    }
}

/// In a consistent store where nobody has the identifier or the e-mail
/// address of `user`, writing `user` adds it at the end.
proof fn lemma_with_new_user(users: Seq<StoredUserView>, user: StoredUserView)
    requires
        consistent(users),
        forall|j: int| 0 <= j < users.len() ==> (#[trigger] users[j]).id != user.id,
        !has_email(users, user.email),
    ensures
        with_user(users, user) == users.push(user),
        consistent(users.push(user)),
{
    let after = users.push(user);
    assert forall|a: int, b: int| 0 <= a < b < after.len() implies (#[trigger] after[a]).id != (
    #[trigger] after[b]).id && after[a].email != after[b].email by {
        assert(users[a].email != user.email);
        if b < users.len() {
            assert(users[a].id != users[b].id);
        }
    }
}

/// Record `p` of `after` is `user`, and every other record of `after` is a
/// record of `users` with another e-mail address.
spec fn stands_alone(
    users: Seq<StoredUserView>,
    after: Seq<StoredUserView>,
    user: StoredUserView,
    p: int,
) -> bool {
    &&& 0 <= p < after.len()
    &&& after[p] == user
    &&& forall|j: int|
        0 <= j < after.len() && j != p ==> (#[trigger] after[j]).email != user.email
}

proof fn lemma_written_stands_alone(users: Seq<StoredUserView>, user: StoredUserView) -> (p: int)
    requires
        consistent(users),
        !has_email(users, user.email),
    ensures
        consistent(with_user(users, user)),
        stands_alone(users, with_user(users, user), user, p),
{
    if has_id(users, user.id) {
        let i = position_of_id(users, user.id);
        lemma_with_user(users, user, i);
        let after = users.update(i, user);
        assert forall|j: int| 0 <= j < after.len() && j != i implies (#[trigger] after[j]).email
            != user.email by {
            assert(users[j].email != user.email);
        }
        i
    } else {
        lemma_with_new_user(users, user);
        let after = users.push(user);
        assert forall|j: int| 0 <= j < after.len() && j != users.len() implies (
        #[trigger] after[j]).email != user.email by {
            assert(users[j].email != user.email);
        }
        users.len() as int
    }
}

/// No record holds an e-mail address exactly when the count of its
/// records is zero.
pub proof fn lemma_count_zero(users: Seq<StoredUserView>, email: Seq<char>)
    ensures
        count_email(users, email) == 0 <==> !has_email(users, email),
    decreases users.len(),
{
    if users.len() > 0 {
        let init = users.drop_last();
        lemma_count_zero(init, email);
        if has_email(users, email) {
            let k = choose|k: int| 0 <= k < users.len() && (#[trigger] users[k]).email == email;
            if k < init.len() {
                assert(init[k].email == email);
            }
        }
        if has_email(init, email) {
            let k = choose|k: int| 0 <= k < init.len() && (#[trigger] init[k]).email == email;
            assert(users[k].email == email);
        }
        if users.last().email == email {
            assert(users[users.len() - 1].email == email);
        }
    }
}

/// In a consistent store an e-mail address has one record or none.
pub proof fn lemma_count_at_most_one(users: Seq<StoredUserView>, email: Seq<char>)
    requires
        consistent(users),
    ensures
        count_email(users, email) == if has_email(users, email) {
            1nat
        } else {
            0nat
        },
    decreases users.len(),
{
    lemma_count_zero(users, email);
    if users.len() > 0 {
        let init = users.drop_last();
        assert(consistent(init)) by {
            assert forall|i: int, j: int| 0 <= i < j < init.len() implies (#[trigger] init[i]).id
                != (#[trigger] init[j]).id && init[i].email != init[j].email by {
                assert(users[i].id != users[j].id);
            }
        }
        lemma_count_at_most_one(init, email);
        lemma_count_zero(init, email);
        if users.last().email == email && has_email(init, email) {
            let k = choose|k: int| 0 <= k < init.len() && (#[trigger] init[k]).email == email;
            assert(users[k].email != users[users.len() - 1].email);
        }
    }
}

/// A write into a consistent store, for an e-mail address that nobody
/// holds, goes through. Afterwards the store is consistent, holds exactly
/// one record for the address, namely the one written, and refuses every
/// further write for the address, which then changes nothing.
pub proof fn lemma_insert_claims_email(users: Seq<StoredUserView>, user: StoredUserView)
    requires
        consistent(users),
        !has_email(users, user.email),
    ensures
        insert_outcome(users, user) == Ok::<Seq<StoredUserView>, AuthError>(with_user(users, user)),
        consistent(with_user(users, user)),
        has_email(with_user(users, user), user.email),
        count_email(with_user(users, user), user.email) == 1,
        find_email(with_user(users, user), user.email) == Some(user),
        forall|other: StoredUserView|
            other.email == user.email ==> #[trigger] insert_outcome(with_user(users, user), other)
                == Err::<Seq<StoredUserView>, AuthError>(AuthError::EmailTaken),
{
    let after = with_user(users, user);
    let p = lemma_written_stands_alone(users, user);
    assert(after[p].email == user.email);
    assert(has_email(after, user.email));
    lemma_count_at_most_one(after, user.email);
    assert(is_first_with_email(after, user.email, p));
    let f = choose|i: int| is_first_with_email(after, user.email, i);
    assert(f == p);
}

/// What a series of writes leaves behind.
pub struct Tally {
    /// The records after the last write.
    pub users: Seq<StoredUserView>,
    /// How many writes went through.
    pub accepted: nat,
    /// How many writes were refused because the e-mail address was taken.
    pub refused: nat,
}

/// Makes the writes of `attempts` one after the other, each of them whole
/// before the next begins, and keeps count.
pub open spec fn insert_all(users: Seq<StoredUserView>, attempts: Seq<StoredUserView>) -> Tally
    decreases attempts.len(),
{
    if attempts.len() == 0 {
        Tally { users, accepted: 0, refused: 0 }
    } else {
        let before = insert_all(users, attempts.drop_last());
        match insert_outcome(before.users, attempts.last()) {
            Ok(after) => Tally {
                users: after,
                accepted: before.accepted + 1,
                refused: before.refused,
            },
            Err(_) => Tally {
                users: before.users,
                accepted: before.accepted,
                refused: before.refused + 1,
            },
        }
    }
}

proof fn lemma_insert_all(
    users: Seq<StoredUserView>,
    attempts: Seq<StoredUserView>,
    email: Seq<char>,
)
    requires
        consistent(users),
        forall|i: int| 0 <= i < attempts.len() ==> (#[trigger] attempts[i]).email == email,
    ensures
        consistent(insert_all(users, attempts).users),
        has_email(insert_all(users, attempts).users, email) <==> has_email(users, email)
            || attempts.len() > 0,
        insert_all(users, attempts).accepted + insert_all(users, attempts).refused
            == attempts.len(),
        insert_all(users, attempts).accepted == if has_email(users, email) || attempts.len() == 0 {
            0nat
        } else {
            1nat
        },
    decreases attempts.len(),
{
    if attempts.len() > 0 {
        let earlier = attempts.drop_last();
        assert forall|i: int| 0 <= i < earlier.len() implies (#[trigger] earlier[i]).email
            == email by {
            assert(attempts[i].email == email);
        }
        lemma_insert_all(users, earlier, email);
        let before = insert_all(users, earlier);
        let next = attempts.last();
        assert(next.email == email) by {
            assert(attempts[attempts.len() - 1].email == email);
        }
        if !has_email(before.users, email) {
            lemma_insert_claims_email(before.users, next);
        }
    }
}

/// However many writes for one e-mail address are made, and in whatever
/// order they come to the store, exactly one goes through where the address
/// was free, and every other one is refused as a conflict. The store ends
/// with one record for the address.
pub proof fn lemma_one_write_wins(
    users: Seq<StoredUserView>,
    attempts: Seq<StoredUserView>,
    email: Seq<char>,
)
    requires
        consistent(users),
        !has_email(users, email),
        attempts.len() > 0,
        forall|i: int| 0 <= i < attempts.len() ==> (#[trigger] attempts[i]).email == email,
    ensures
        insert_all(users, attempts).accepted == 1,
        insert_all(users, attempts).refused == attempts.len() - 1,
        consistent(insert_all(users, attempts).users),
        count_email(insert_all(users, attempts).users, email) == 1,
{
    lemma_insert_all(users, attempts, email);
    lemma_count_at_most_one(insert_all(users, attempts).users, email);
}

} // verus!
