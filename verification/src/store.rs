//! The in-memory credential store.
//!
//! A persistence gateway for username/digest records: single-record lookup,
//! insert and update, with usernames and user ids unique across all records.
//! The store also carries the precomputed decoy digest that the validator
//! substitutes for the expected digest when a username is unknown, so that
//! both paths pay the same verification cost.

use vstd::prelude::*;

use crate::authentication::UserId;
use crate::domain::NewUser;
use crate::error::ChainedError;
use crate::hashing::ARGON2_M_COST;
use crate::hashing::ARGON2_P_COST;
use crate::hashing::ARGON2_T_COST;
use crate::hashing::argon2_hash;
use crate::hashing::argon2_verify_code;
use crate::hashing::password_within_hash_bound;
use crate::hashing::phc_parse_ok;
use crate::secret::SecretString;
use crate::text::str_eq;

verus! {

/// One stored credential record: a unique identifier, a unique username and
/// a PHC-format password digest.
pub struct StoredCredentialRecord {
    pub user_id: UserId,
    pub username: String,
    pub password_hash: SecretString,
}

/// The failure `insert_user` reports: the store already holds the username
/// or the user id.
#[derive(Clone, Copy, Debug, PartialEq, Eq, Structural)]
pub enum CredentialInsertError {
    UniquenessViolation,
}

/// The credential store.
pub struct CredentialStore {
    records: Vec<StoredCredentialRecord>,
    decoy_hash: SecretString,
}

impl CredentialStore {
    /// The records the store holds, in insertion order.
    pub closed spec fn spec_records(self) -> Seq<StoredCredentialRecord> {
        self.records@
    }

    /// The precomputed valid-format decoy digest.
    pub closed spec fn spec_decoy(self) -> Seq<char> {
        self.decoy_hash@
    }

    /// Well-formedness: usernames and user ids are unique across all
    /// records, and the decoy digest is checkable against any candidate
    /// within the hashing length bound without a processing failure.
    pub open spec fn wf(self) -> bool {
        &&& forall|i: int, j: int|
            0 <= i < j < self.spec_records().len() ==> {
                &&& #[trigger] self.spec_records()[i].username@
                    != #[trigger] self.spec_records()[j].username@
                &&& self.spec_records()[i].user_id != self.spec_records()[j].user_id
            }
        &&& phc_parse_ok(self.spec_decoy())
        &&& forall|p: Seq<char>|
            password_within_hash_bound(p) ==> #[trigger] argon2_verify_code(p, self.spec_decoy())
                != 2
    }

    /// Whether some record holds the username.
    pub open spec fn contains_username(self, username: Seq<char>) -> bool {
        exists|i: int|
            0 <= i < self.spec_records().len() && #[trigger] self.spec_records()[i].username@
                == username
    }

    /// The index of the record holding the username.
    pub open spec fn index_of_username(self, username: Seq<char>) -> int {
        choose|i: int|
            0 <= i < self.spec_records().len() && #[trigger] self.spec_records()[i].username@
                == username
    }

    /// Whether some record holds the user id.
    pub open spec fn contains_user_id(self, user_id: UserId) -> bool {
        exists|i: int|
            0 <= i < self.spec_records().len() && #[trigger] self.spec_records()[i].user_id
                == user_id
    }

    /// The index of the record holding the user id.
    pub open spec fn index_of_user_id(self, user_id: UserId) -> int {
        choose|i: int|
            0 <= i < self.spec_records().len() && #[trigger] self.spec_records()[i].user_id
                == user_id
    }

    /// What a lookup by username yields: the matching record's user id and
    /// digest, or nothing.
    pub open spec fn spec_lookup(self, username: Seq<char>) -> Option<(UserId, Seq<char>)> {
        if self.contains_username(username) {
            let rec = self.spec_records()[self.index_of_username(username)];
            Option::Some((rec.user_id, rec.password_hash@))
        } else {
            Option::None
        }
    }

    /// The username of the record holding the user id.
    pub open spec fn spec_username_of(self, user_id: UserId) -> Seq<char> {
        self.spec_records()[self.index_of_user_id(user_id)].username@
    }

    /// The digest of the record holding the user id.
    pub open spec fn spec_hash_of(self, user_id: UserId) -> Seq<char> {
        self.spec_records()[self.index_of_user_id(user_id)].password_hash@
    }

    /// In a well-formed store, any index holding a username is the index the
    /// lookup speaks of.
    pub proof fn lemma_username_index(self, i: int)
        requires
            self.wf(),
            0 <= i < self.spec_records().len(),
        ensures
            self.contains_username(self.spec_records()[i].username@),
            self.index_of_username(self.spec_records()[i].username@) == i,
    {
        let u = self.spec_records()[i].username@;
        assert(self.contains_username(u));
        let j = self.index_of_username(u);
        if j < i {
            assert(self.spec_records()[j].username@ != self.spec_records()[i].username@);
        } else if i < j {
            assert(self.spec_records()[i].username@ != self.spec_records()[j].username@);
        }
    }

    /// In a well-formed store, any index holding a user id is the index the
    /// id-keyed accessors speak of.
    pub proof fn lemma_user_id_index(self, i: int)
        requires
            self.wf(),
            0 <= i < self.spec_records().len(),
        ensures
            self.contains_user_id(self.spec_records()[i].user_id),
            self.index_of_user_id(self.spec_records()[i].user_id) == i,
    {
        let id = self.spec_records()[i].user_id;
        assert(self.contains_user_id(id));
        let j = self.index_of_user_id(id);
        if j < i {
            assert(self.spec_records()[j].username@ != self.spec_records()[i].username@);
            assert(self.spec_records()[j].user_id != self.spec_records()[i].user_id);
        } else if i < j {
            assert(self.spec_records()[i].username@ != self.spec_records()[j].username@);
            assert(self.spec_records()[i].user_id != self.spec_records()[j].user_id);
        }
    }

    /// Looking up the username stored for an identity finds exactly that
    /// identity's record.
    pub proof fn lemma_lookup_by_username_of(self, user_id: UserId)
        requires
            self.wf(),
            self.contains_user_id(user_id),
        ensures
            self.spec_lookup(self.spec_username_of(user_id)) == Option::Some(
                (user_id, self.spec_hash_of(user_id)),
            ),
    {
        let i = self.index_of_user_id(user_id);
        assert(0 <= i < self.spec_records().len() && self.spec_records()[i].user_id == user_id);
        self.lemma_username_index(i);
    }

    /// Creates an empty store, precomputing the decoy digest from an
    /// arbitrary constant placeholder password with the same cost
    /// parameters as every real digest. The placeholder is well within the
    /// hashing length bound, so construction always succeeds.
    pub fn new() -> (r: Result<CredentialStore, ChainedError>)
        ensures
            r is Ok,
            r matches Ok(store) ==> store.wf() && store.spec_records().len() == 0,
    {
        proof {
            reveal_strlit("placeholder-password");
        }
        match argon2_hash("placeholder-password", ARGON2_M_COST, ARGON2_T_COST, ARGON2_P_COST) {
            Option::Some(phc) => Ok(
                CredentialStore { records: Vec::new(), decoy_hash: SecretString::new(phc) },
            ),
            Option::None => Err(
                ChainedError::new("Failed to precompute the decoy digest".to_owned()),
            ),
        }
    }

    /// The decoy digest, for the validator's unknown-username path.
    pub(crate) fn decoy(&self) -> (r: SecretString)
        ensures
            r@ == self.spec_decoy(),
    {
        self.decoy_hash.clone()
    }

    /// Looks the username up; absence is not an error.
    pub fn lookup(&self, username: &str) -> (r: Option<(UserId, SecretString)>)
        requires
            self.wf(),
        ensures
            (r is Some) == self.contains_username(username@),
            r matches Some(found) ==> (self.spec_lookup(username@) matches Some(spec_found)
                && found.0 == spec_found.0 && found.1@ == spec_found.1),
    {
        let n = self.records.len();
        let mut i: usize = 0;
        while i < n
            invariant
                0 <= i <= n,
                n == self.spec_records().len(),
                self.wf(),
                forall|j: int| 0 <= j < i ==> #[trigger] self.spec_records()[j].username@
                    != username@,
            decreases n - i,
        {
            let rec = &self.records[i];
            if str_eq(rec.username.as_str(), username) {
                proof {
                    self.lemma_username_index(i as int);
                }
                return Some((rec.user_id, rec.password_hash.clone()));
            }
            i += 1;
        }
        None
    }
}

/// Inserts the new user's record, refusing a username or user id the store
/// already holds.
pub fn insert_user(store: &mut CredentialStore, new_user: &NewUser) -> (r: Result<
    (),
    CredentialInsertError,
>)
    requires
        old(store).wf(),
    ensures
        final(store).wf(),
        final(store).spec_decoy() == old(store).spec_decoy(),
        (r is Ok) == (!old(store).contains_username(new_user.username@)
            && !old(store).contains_user_id(new_user.user_id)),
        r is Ok ==> {
            &&& final(store).spec_records().len() == old(store).spec_records().len() + 1
            &&& final(store).spec_records().drop_last() == old(store).spec_records()
            &&& final(store).spec_records().last().user_id == new_user.user_id
            &&& final(store).spec_records().last().username@ == new_user.username@
            &&& final(store).spec_records().last().password_hash@ == new_user.password_hash@
        },
        r is Err ==> *final(store) == *old(store),
{
    let n = store.records.len();
    let mut i: usize = 0;
    while i < n
        invariant
            0 <= i <= n,
            n == store.spec_records().len(),
            store.wf(),
            forall|j: int| 0 <= j < i ==> #[trigger] store.spec_records()[j].username@
                != new_user.username@,
            forall|j: int| 0 <= j < i ==> #[trigger] store.spec_records()[j].user_id
                != new_user.user_id,
        decreases n - i,
    {
        let rec = &store.records[i];
        if str_eq(rec.username.as_str(), new_user.username.as_ref()) {
            return Err(CredentialInsertError::UniquenessViolation);
        }
        if rec.user_id == new_user.user_id {
            return Err(CredentialInsertError::UniquenessViolation);
        }
        i += 1;
    }
    let record = StoredCredentialRecord {
        user_id: new_user.user_id,
        username: new_user.username.as_ref().to_owned(),
        password_hash: new_user.password_hash.clone(),
    };
    store.records.push(record);
    proof {
        assert(final(store).spec_records().drop_last() =~= old(store).spec_records());
    }
    Ok(())
}

/// Returns the username stored for an already-authenticated identity.
pub fn get_username(store: &CredentialStore, user_id: UserId) -> (r: Result<String, ChainedError>)
    requires
        store.wf(),
    ensures
        (r is Ok) == store.contains_user_id(user_id),
        r matches Ok(username) ==> username@ == store.spec_username_of(user_id),
        r matches Err(e) ==> e.message@ == "Failed to retrieve the username"@,
{
    let n = store.records.len();
    let mut i: usize = 0;
    while i < n
        invariant
            0 <= i <= n,
            n == store.spec_records().len(),
            store.wf(),
            forall|j: int| 0 <= j < i ==> #[trigger] store.spec_records()[j].user_id != user_id,
        decreases n - i,
    {
        let rec = &store.records[i];
        if rec.user_id == user_id {
            proof {
                store.lemma_user_id_index(i as int);
            }
            return Ok(rec.username.clone());
        }
        i += 1;
    }
    Err(ChainedError::new("Failed to retrieve the username".to_owned()))
}

impl CredentialStore {
    /// Rewrites the digest stored for an already-authenticated identity,
    /// leaving every other record untouched.
    pub fn update_password_hash(&mut self, user_id: UserId, new_hash: SecretString)
        requires
            old(self).wf(),
            old(self).contains_user_id(user_id),
        ensures
            final(self).wf(),
            final(self).spec_decoy() == old(self).spec_decoy(),
            final(self).spec_records().len() == old(self).spec_records().len(),
            final(self).contains_user_id(user_id),
            final(self).spec_hash_of(user_id) == new_hash@,
            forall|i: int|
                0 <= i < old(self).spec_records().len() ==> {
                    &&& #[trigger] final(self).spec_records()[i].user_id
                        == old(self).spec_records()[i].user_id
                    &&& final(self).spec_records()[i].username@
                        == old(self).spec_records()[i].username@
                    &&& old(self).spec_records()[i].user_id != user_id
                        ==> final(self).spec_records()[i].password_hash@
                        == old(self).spec_records()[i].password_hash@
                },
    {
        let n = self.records.len();
        let mut i: usize = 0;
        while i < n
            invariant
                0 <= i <= n,
                n == self.spec_records().len(),
                self.wf(),
                self == old(self),
                forall|j: int| 0 <= j < i ==> #[trigger] self.spec_records()[j].user_id != user_id,
            decreases n - i,
        {
            if self.records[i].user_id == user_id {
                proof {
                    self.lemma_user_id_index(i as int);
                }
                let username = self.records[i].username.clone();
                self.records[i] = StoredCredentialRecord {
                    user_id,
                    username,
                    password_hash: new_hash,
                };
                proof {
                    assert forall|a: int, b: int|
                        0 <= a < b < self.spec_records().len() implies {
                        &&& self.spec_records()[a].username@ != self.spec_records()[b].username@
                        &&& self.spec_records()[a].user_id != self.spec_records()[b].user_id
                    } by {
                        assert(old(self).spec_records()[a].username@
                            != old(self).spec_records()[b].username@);
                    }
                    self.lemma_user_id_index(i as int);
                }
                return ;
            }
            i += 1;
        }
        proof {
            assert(!old(self).contains_user_id(user_id));
        }
    }
}

} // verus!
