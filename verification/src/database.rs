//! The store: the table of users, keyed by e-mail address, and the table of
//! pending confirmations, keyed by token.
use crate::models::{Confirmation, ConfirmationView, User, UserView};
use crate::table::{
    has_key, keys_distinct, lemma_table_at, lemma_table_len, lemma_table_push,
    lemma_table_remove, lemma_table_update, table,
};
use vstd::prelude::*;

verus! {

/// The key of a user row: its e-mail address.
pub open spec fn user_key() -> spec_fn(User) -> Seq<char> {
    |u: User| u@.email
}

/// What a user row holds.
pub open spec fn user_val() -> spec_fn(User) -> UserView {
    |u: User| u@
}

/// The key of a pending confirmation: its token.
pub open spec fn confirmation_key() -> spec_fn(Confirmation) -> Seq<char> {
    |c: Confirmation| c@.uuid
}

/// What a pending confirmation holds.
pub open spec fn confirmation_val() -> spec_fn(Confirmation) -> ConfirmationView {
    |c: Confirmation| c@
}

/// The store as two maps, each from a key to the row filed under it.
pub struct StoreView {
    pub users: Map<Seq<char>, UserView>,
    pub confirmations: Map<Seq<char>, ConfirmationView>,
}

impl StoreView {
    /// Every row is filed under the key that it carries, so each e-mail
    /// address has at most one user and each token at most one confirmation.
    pub open spec fn wf(self) -> bool {
        &&& forall|k: Seq<char>| #[trigger]
            self.users.contains_key(k) ==> self.users[k].email == k
        &&& forall|k: Seq<char>| #[trigger]
            self.confirmations.contains_key(k) ==> self.confirmations[k].uuid == k
    }
}

/// The two tables.
pub struct Store {
    users: Vec<User>,
    confirmations: Vec<Confirmation>,
}

impl View for Store {
    type V = StoreView;

    closed spec fn view(&self) -> StoreView {
        StoreView {
            users: table(self.users@, user_key(), user_val()),
            confirmations: table(self.confirmations@, confirmation_key(), confirmation_val()),
        }
    }
}

impl Store {
    /// No two user rows share an e-mail address and no two pending
    /// confirmations share a token.
    pub closed spec fn wf(&self) -> bool {
        &&& keys_distinct(self.users@, user_key())
        &&& keys_distinct(self.confirmations@, confirmation_key())
    }

    /// The user rows, in the order in which they are held.
    pub closed spec fn user_rows(&self) -> Seq<UserView> {
        self.users@.map_values(user_val())
    }

    /// How many users the store holds.
    pub fn user_count(&self) -> (n: usize)
        requires
            self.wf(),
        ensures
            self@.users.dom().finite(),
            n == self@.users.len(),
            n == self.user_rows().len(),
    {
        proof {
            lemma_table_len(self.users@, user_key(), user_val());
        }
        self.users.len()
    }

    /// How many confirmations are pending.
    pub fn confirmation_count(&self) -> (n: usize)
        requires
            self.wf(),
        ensures
            self@.confirmations.dom().finite(),
            n == self@.confirmations.len(),
    {
        proof {
            lemma_table_len(self.confirmations@, confirmation_key(), confirmation_val());
        }
        self.confirmations.len()
    }

    /// In a well-formed store no two user rows carry the same e-mail address,
    /// and the rows are exactly what the map of users holds.
    pub proof fn lemma_one_user_per_email(&self)
        requires
            self.wf(),
        ensures
            forall|i: int, j: int|
                0 <= i < self.user_rows().len() && 0 <= j < self.user_rows().len()
                    && #[trigger] self.user_rows()[i].email == #[trigger] self.user_rows()[j].email
                    ==> i == j,
            forall|i: int|
                0 <= i < self.user_rows().len() ==> self@.users.contains_key(
                    #[trigger] self.user_rows()[i].email,
                ) && self@.users[self.user_rows()[i].email] == self.user_rows()[i],
            forall|k: Seq<char>| #[trigger]
                self@.users.contains_key(k) ==> exists|i: int|
                    0 <= i < self.user_rows().len() && #[trigger] self.user_rows()[i].email == k,
    {
        let rows = self.users@;
        assert forall|i: int, j: int|
            0 <= i < self.user_rows().len() && 0 <= j < self.user_rows().len()
                && #[trigger] self.user_rows()[i].email == #[trigger] self.user_rows()[j].email
                implies i == j by {
            if i < j {
                assert(user_key()(rows[i]) != user_key()(rows[j]));
            } else if j < i {
                assert(user_key()(rows[j]) != user_key()(rows[i]));
            }
        }
        assert forall|i: int| 0 <= i < self.user_rows().len() implies self@.users.contains_key(
            #[trigger] self.user_rows()[i].email,
        ) && self@.users[self.user_rows()[i].email] == self.user_rows()[i] by {
            lemma_table_at(rows, user_key(), user_val(), i);
        }
        assert forall|k: Seq<char>| #[trigger] self@.users.contains_key(k) implies exists|i: int|
            0 <= i < self.user_rows().len() && #[trigger] self.user_rows()[i].email == k by {
            let i = choose|i: int| 0 <= i < rows.len() && user_key()(#[trigger] rows[i]) == k;
            assert(self.user_rows()[i].email == k);
        }
    }

    /// The maps of a well-formed store file every row under its own key.
    pub proof fn lemma_view_wf(&self)
        requires
            self.wf(),
        ensures
            self@.wf(),
    {
        let users = self.users@;
        let pending = self.confirmations@;
        assert forall|k: Seq<char>| #[trigger] self@.users.contains_key(k) implies self@.users[k].email
            == k by {
            let i = choose|i: int| 0 <= i < users.len() && user_key()(#[trigger] users[i]) == k;
            lemma_table_at(users, user_key(), user_val(), i);
        }
        assert forall|k: Seq<char>| #[trigger]
            self@.confirmations.contains_key(k) implies self@.confirmations[k].uuid == k by {
            let i = choose|i: int|
                0 <= i < pending.len() && confirmation_key()(#[trigger] pending[i]) == k;
            lemma_table_at(pending, confirmation_key(), confirmation_val(), i);
        }
    }
}

/// An empty store: both tables exist and hold nothing.
pub fn init() -> (store: Store)
    ensures
        store.wf(),
        store@.users == Map::<Seq<char>, UserView>::empty(),
        store@.confirmations == Map::<Seq<char>, ConfirmationView>::empty(),
{
    let store = Store { users: Vec::new(), confirmations: Vec::new() };
    assert(store@.users =~= Map::<Seq<char>, UserView>::empty());
    assert(store@.confirmations =~= Map::<Seq<char>, ConfirmationView>::empty());
    store
}

fn find_user(rows: &Vec<User>, email: &String) -> (r: Option<usize>)
    ensures
        match r {
            Some(i) => i < rows.len() && rows[i as int]@.email == email@,
            None => !has_key(rows@, user_key(), email@),
        },
{
    let mut i: usize = 0;
    while i < rows.len()
        invariant
            i <= rows.len(),
            forall|j: int| 0 <= j < i ==> user_key()(#[trigger] rows@[j]) != email@,
        decreases rows.len() - i,
    {
        if rows[i].email().eq(email) {
            return Some(i);
        }
        i += 1;
    }
    None
}

fn find_confirmation(rows: &Vec<Confirmation>, uuid: &String) -> (r: Option<usize>)
    ensures
        match r {
            Some(i) => i < rows.len() && rows[i as int]@.uuid == uuid@,
            None => !has_key(rows@, confirmation_key(), uuid@),
        },
{
    let mut i: usize = 0;
    while i < rows.len()
        invariant
            i <= rows.len(),
            forall|j: int| 0 <= j < i ==> confirmation_key()(#[trigger] rows@[j]) != uuid@,
        decreases rows.len() - i,
    {
        if rows[i].uuid().eq(uuid) {
            return Some(i);
        }
        i += 1;
    }
    None
}

/// Files the user under its e-mail address; a user already filed under that
/// address is replaced.
pub fn add_user(store: &mut Store, user: &User)
    requires
        old(store).wf(),
    ensures
        final(store).wf(),
        final(store)@.users == old(store)@.users.insert(user@.email, user@),
        final(store)@.confirmations == old(store)@.confirmations,
{
    let row = user.clone();
    match find_user(&store.users, user.email()) {
        Some(i) => {
            proof {
                lemma_table_update(old(store).users@, user_key(), user_val(), i as int, row);
            }
            store.users.set(i, row);
        },
        None => {
            proof {
                lemma_table_push(old(store).users@, user_key(), user_val(), row);
            }
            store.users.push(row);
        },
    }
}

/// The user filed under the e-mail address, if there is one.
pub fn get_user(store: &Store, email: &str) -> (r: Option<User>)
    requires
        store.wf(),
    ensures
        match r {
            Some(u) => store@.users.contains_key(email@) && u@ == store@.users[email@],
            None => !store@.users.contains_key(email@),
        },
{
    let key = String::from_str(email);
    match find_user(&store.users, &key) {
        Some(i) => {
            proof {
                lemma_table_at(store.users@, user_key(), user_val(), i as int);
            }
            Some(store.users[i].clone())
        },
        None => None,
    }
}

/// Files the confirmation under its token, and says whether it did. A
/// confirmation that is pending under that token already stays as it is: a
/// pending row is never changed, only taken out.
pub fn add_confirmation(store: &mut Store, confirmation: &Confirmation) -> (written: bool)
    requires
        old(store).wf(),
    ensures
        final(store).wf(),
        final(store)@.users == old(store)@.users,
        written == !old(store)@.confirmations.contains_key(confirmation@.uuid),
        final(store)@.confirmations == if written {
            old(store)@.confirmations.insert(confirmation@.uuid, confirmation@)
        } else {
            old(store)@.confirmations
        },
{
    match find_confirmation(&store.confirmations, confirmation.uuid()) {
        Some(i) => {
            proof {
                lemma_table_at(
                    store.confirmations@,
                    confirmation_key(),
                    confirmation_val(),
                    i as int,
                );
            }
            false
        },
        None => {
            let row = confirmation.clone();
            proof {
                lemma_table_push(
                    old(store).confirmations@,
                    confirmation_key(),
                    confirmation_val(),
                    row,
                );
            }
            store.confirmations.push(row);
            true
        },
    }
}

/// The confirmation pending under the token, if there is one.
pub fn get_confirmation(store: &Store, uuid: &str) -> (r: Option<Confirmation>)
    requires
        store.wf(),
    ensures
        match r {
            Some(c) => store@.confirmations.contains_key(uuid@) && c@
                == store@.confirmations[uuid@],
            None => !store@.confirmations.contains_key(uuid@),
        },
{
    let key = String::from_str(uuid);
    match find_confirmation(&store.confirmations, &key) {
        Some(i) => {
            proof {
                lemma_table_at(
                    store.confirmations@,
                    confirmation_key(),
                    confirmation_val(),
                    i as int,
                );
            }
            Some(store.confirmations[i].clone())
        },
        None => None,
    }
}

/// Takes out the confirmation pending under the token. Where none is
/// pending the store stays as it is.
pub fn delete_confirmation(store: &mut Store, uuid: &str)
    requires
        old(store).wf(),
    ensures
        final(store).wf(),
        final(store)@.users == old(store)@.users,
        final(store)@.confirmations == old(store)@.confirmations.remove(uuid@),
{
    let key = String::from_str(uuid);
    match find_confirmation(&store.confirmations, &key) {
        Some(i) => {
            proof {
                lemma_table_remove(
                    old(store).confirmations@,
                    confirmation_key(),
                    confirmation_val(),
                    i as int,
                );
            }
            store.confirmations.remove(i);
        },
        None => {
            assert(store@.confirmations =~= old(store)@.confirmations.remove(uuid@));
        },
    }
}

} // verus!
