use vstd::prelude::*;
use crate::error::AuthError;
use crate::flow::Event;
use crate::model::{clashes, identity_taken, store_insert, UserKey};

verus! {

/// Body of a Register request.
#[derive(Debug)]
pub struct HTTPUserRegister {
    pub username: String,
    pub password: String,
    pub birth_date: String,
    pub email: String,
}

/// Body of a Login request: a username or an email, and a password.
#[derive(Debug)]
pub struct HTTPUserLogin {
    pub identity: String,
    pub password: String,
}

/// A user row of the credential store.
#[derive(Debug)]
pub struct UserRecord {
    pub user_id: String,
    pub username: String,
    pub email: String,
    pub password_hash: String,
    pub birth_date: String,
}

impl UserRecord {
    pub open spec fn key(self) -> UserKey {
        UserKey { username: self.username@, email: self.email@ }
    }

    /// The row that a Register request creates, with its id and password hash.
    pub fn from_registration(req: &HTTPUserRegister, user_id: String, password_hash: String) -> (r: UserRecord)
        ensures
            r.user_id == user_id,
            r.username@ == req.username@,
            r.email@ == req.email@,
            r.password_hash == password_hash,
            r.birth_date@ == req.birth_date@,
    {
        UserRecord {
            user_id,
            username: req.username.clone(),
            email: req.email.clone(),
            password_hash,
            birth_date: req.birth_date.clone(),
        }
    }
}

/// Whether `identity` names the row, as its username or as its email.
pub open spec fn names_row(r: UserRecord, identity: Seq<char>) -> bool {
    r.username@ == identity || r.email@ == identity
}

/// An in-process credential store: rows in insertion order, no two of which
/// share a username or an email.
pub struct UserTable {
    rows: Vec<UserRecord>,
}

impl View for UserTable {
    type V = Seq<UserRecord>;

    closed spec fn view(&self) -> Seq<UserRecord> {
        self.rows@
    }
}

/// The unique fields of each row.
pub open spec fn keys_of(rows: Seq<UserRecord>) -> Seq<UserKey> {
    rows.map_values(|r: UserRecord| r.key())
}

impl UserTable {
    /// No two rows share a username or an email.
    pub open spec fn wf(&self) -> bool {
        forall|i: int, j: int|
            0 <= i < j < self@.len() ==> !clashes(#[trigger] self@[i].key(), #[trigger] self@[j].key())
    }

    pub fn new() -> (r: UserTable)
        ensures
            r@ == Seq::<UserRecord>::empty(),
            r.wf(),
    {
        UserTable { rows: Vec::new() }
    }

    pub fn len(&self) -> (r: usize)
        ensures
            r == self@.len(),
    {
        self.rows.len()
    }

    /// Whether a row shares its username or its email with `rec`.
    fn clash_at(&self, rec: &UserRecord) -> (r: bool)
        ensures
            r == identity_taken(keys_of(self@), rec.key()),
    {
        let mut i: usize = 0;
        while i < self.rows.len()
            invariant
                0 <= i <= self@.len(),
                forall|k: int| 0 <= k < i ==> !clashes(#[trigger] self@[k].key(), rec.key()),
            decreases self@.len() - i,
        {
            let row = &self.rows[i];
            if row.username == rec.username || row.email == rec.email {
                proof {
                    assert(keys_of(self@)[i as int] == self@[i as int].key());
                }
                return true;
            }
            i = i + 1;
        }
        proof {
            assert forall|k: int| 0 <= k < keys_of(self@).len() implies !clashes(
                #[trigger] keys_of(self@)[k],
                rec.key(),
            ) by {
                assert(keys_of(self@)[k] == self@[k].key());
            }
        }
        false
    }

    /// Inserts `rec` unless its username or email is already held, in which
    /// case the table is unchanged and the result is `IdentityTaken`.
    pub fn insert_user(&mut self, rec: UserRecord) -> (r: Result<(), AuthError>)
        requires
            old(self).wf(),
        ensures
            final(self).wf(),
            r is Err <==> identity_taken(keys_of(old(self)@), rec.key()),
            r matches Err(e) ==> e == AuthError::IdentityTaken && final(self)@ == old(self)@,
            r is Ok ==> final(self)@ == old(self)@.push(rec),
            keys_of(final(self)@) == store_insert(keys_of(old(self)@), rec.key()).0,
            (r is Ok) == (store_insert(keys_of(old(self)@), rec.key()).1 == Event::Inserted),
    {
        if self.clash_at(&rec) {
            return Err(AuthError::IdentityTaken);
        }
        proof {
            assert forall|k: int| 0 <= k < self@.len() implies !clashes(self@[k].key(), rec.key()) by {
                assert(keys_of(self@)[k] == self@[k].key());
            }
        }
        let ghost k = rec.key();
        self.rows.push(rec);
        proof {
            assert(keys_of(self@) =~= keys_of(old(self)@).push(k));
        }
        Ok(())
    }

    /// The password hash of the first row that `identity` names, as username
    /// or as email.
    pub fn find_by_identity(&self, identity: &str) -> (r: Option<String>)
        ensures
            r is None <==> forall|i: int| 0 <= i < self@.len() ==> !names_row(#[trigger] self@[i], identity@),
            r matches Some(h) ==> exists|i: int|
                0 <= i < self@.len() && names_row(#[trigger] self@[i], identity@)
                    && h@ == self@[i].password_hash@
                    && forall|j: int| 0 <= j < i ==> !names_row(#[trigger] self@[j], identity@),
    {
        let id = String::from_str(identity);
        let mut i: usize = 0;
        while i < self.rows.len()
            invariant
                0 <= i <= self@.len(),
                id@ == identity@,
                forall|k: int| 0 <= k < i ==> !names_row(#[trigger] self@[k], id@),
            decreases self@.len() - i,
        {
            let row = &self.rows[i];
            if row.username == id || row.email == id {
                assert(names_row(self@[i as int], identity@));
                return Some(row.password_hash.clone());
            }
            i = i + 1;
        }
        None
    }
}

} // verus!
