use vstd::prelude::*;
use crate::oid::{UserId, valid_oid_hex, decode_oid};
use crate::user::{User, UserView, clone_user};

verus! {

/// The uniform failure kinds of the repository: a malformed identifier,
/// a well-formed identifier that matches no record, and the catch-all
/// storage failure.
#[derive(Clone, Copy, PartialEq, Eq, Structural, Debug)]
pub enum RepoError {
    InvalidIdentifier,
    NotFound,
    StorageError,
}

/// What an update reports: how many records the identifier matched
/// (0 or 1, since identifiers are unique).
#[derive(Debug)]
pub struct UpdateReport {
    pub matched_count: u64,
}

/// What a delete reports: how many records were removed (0 or 1).
#[derive(Debug)]
pub struct DeleteReport {
    pub deleted_count: u64,
}

/// The records of a collection, by value.
pub open spec fn views_of(l: Seq<User>) -> Seq<UserView> {
    l.map_values(|u: User| u@)
}

/// The value a record takes when it is stored under an identifier: the
/// engine-assigned identifier replaces whatever the request carried, and
/// the three text fields are taken as given.
pub open spec fn stored_view(u: UserView, id: Seq<u8>) -> UserView {
    UserView { id: Some(id), name: u.name, location: u.location, title: u.title }
}

/// A well-formed collection: every record carries an identifier, and no
/// two records carry the same one.
pub open spec fn store_wf(s: Seq<UserView>) -> bool {
    &&& forall|i: int| 0 <= i < s.len() ==> (#[trigger] s[i].id) is Some
    &&& forall|i: int, j: int|
        #![trigger s[i].id, s[j].id]
        0 <= i < s.len() && 0 <= j < s.len() && i != j ==> s[i].id != s[j].id
}

/// Some record carries the identifier.
pub open spec fn has_id(s: Seq<UserView>, id: Seq<u8>) -> bool {
    exists|i: int| 0 <= i < s.len() && (#[trigger] s[i].id) == Some(id)
}

/// The position of the record that carries the identifier (meaningful
/// when `has_id` holds; unique in a well-formed collection).
pub open spec fn idx_of(s: Seq<UserView>, id: Seq<u8>) -> int {
    choose|i: int| 0 <= i < s.len() && (#[trigger] s[i].id) == Some(id)
}

/// The record a read of the identifier yields, if any.
pub open spec fn lookup(s: Seq<UserView>, id: Seq<u8>) -> Option<UserView> {
    if has_id(s, id) {
        Some(s[idx_of(s, id)])
    } else {
        None
    }
}

/// What a create leaves behind: the new record appended at the end.
pub open spec fn insert_effect(s: Seq<UserView>, id: Seq<u8>, u: UserView) -> Seq<UserView> {
    s.push(stored_view(u, id))
}

/// What an update leaves behind: the matched record overwritten in
/// place, all three text fields unconditionally, the identifier kept;
/// nothing if no record matches.
pub open spec fn update_effect(s: Seq<UserView>, id: Seq<u8>, u: UserView) -> Seq<UserView> {
    if has_id(s, id) {
        s.update(idx_of(s, id), stored_view(u, id))
    } else {
        s
    }
}

/// What a delete leaves behind: the matched record removed; nothing if
/// no record matches.
pub open spec fn delete_effect(s: Seq<UserView>, id: Seq<u8>) -> Seq<UserView> {
    if has_id(s, id) {
        s.remove(idx_of(s, id))
    } else {
        s
    }
}

/// In a well-formed collection, a record that carries an identifier is
/// the one `idx_of` picks.
pub proof fn lemma_index_of_id(s: Seq<UserView>, id: Seq<u8>, i: int)
    requires
        store_wf(s),
        0 <= i < s.len(),
        s[i].id == Some(id),
    ensures
        has_id(s, id),
        idx_of(s, id) == i,
{
    assert(has_id(s, id));
    let j = idx_of(s, id);
    assert(0 <= j < s.len() && s[j].id == Some(id));
}

/// The repository: one in-memory collection of user records, the model
/// of a single document-database collection.
pub struct UserStore {
    users: Vec<User>,
}

impl View for UserStore {
    type V = Seq<UserView>;

    closed spec fn view(&self) -> Seq<UserView> {
        views_of(self.users@)
    }
}

impl UserStore {
    /// Every stored record carries a unique identifier.
    pub open spec fn wf(&self) -> bool {
        store_wf(self@)
    }

    /// An empty collection.
    pub fn new() -> (s: UserStore)
        ensures
            s@ == Seq::<UserView>::empty(),
            s.wf(),
    {
        let s = UserStore { users: Vec::new() };
        proof {
            assert(s@ =~= Seq::<UserView>::empty());
        }
        s
    }

    /// The position of the record carrying the identifier, if any.
    fn find_index(&self, id: &UserId) -> (r: Option<usize>)
        ensures
            (r matches Some(i) ==> i < self@.len() && self@[i as int].id == Some(id@)),
            r is None ==> !has_id(self@, id@),
    {
        let mut i: usize = 0;
        while i < self.users.len()
            invariant
                i <= self.users.len(),
                forall|j: int| 0 <= j < i ==> (#[trigger] self@[j].id) != Some(id@),
            decreases self.users.len() - i,
        {
            match &self.users[i].id {
                Some(uid) => {
                    if uid.eq_id(id) {
                        return Some(i);
                    }
                }
                None => {},
            }
            i += 1;
        }
        None
    }

    /// Inserts a new record under the given engine-assigned identifier.
    /// Any identifier the request carried is discarded. Fails with
    /// `StorageError` when the identifier is already taken (the one
    /// driver-level failure the model can exhibit).
    pub fn create_user(&mut self, new_user: &User, id: &UserId) -> (r: Result<UserId, RepoError>)
        requires
            old(self).wf(),
        ensures
            final(self).wf(),
            (!has_id(old(self)@, id@) ==> (r matches Ok(rid) && rid@ == id@ && final(self)@
                == insert_effect(old(self)@, id@, new_user@))),
            (has_id(old(self)@, id@) ==> r == Err::<UserId, RepoError>(RepoError::StorageError)
                && final(self)@ == old(self)@),
    {
        match self.find_index(id) {
            Some(i) => {
                proof {
                    assert(has_id(self@, id@)) by {
                        assert(self@[i as int].id == Some(id@));
                    }
                }
                Err(RepoError::StorageError)
            },
            None => {
                let stored = User {
                    id: Some(*id),
                    name: new_user.name.clone(),
                    location: new_user.location.clone(),
                    title: new_user.title.clone(),
                };
                self.users.push(stored);
                proof {
                    assert(self@ =~= insert_effect(old(self)@, id@, new_user@));
                }
                Ok(*id)
            },
        }
    }

    /// Reads the record the textual identifier names. Fails with
    /// `InvalidIdentifier` when the text is not a well-formed identifier,
    /// and with `NotFound` when no record carries it.
    pub fn get_user(&self, id: &str) -> (r: Result<User, RepoError>)
        requires
            self.wf(),
        ensures
            (!valid_oid_hex(id@) ==> r == Err::<User, RepoError>(RepoError::InvalidIdentifier)),
            (valid_oid_hex(id@) && !has_id(self@, decode_oid(id@)) ==> r == Err::<User, RepoError>(
                RepoError::NotFound,
            )),
            (valid_oid_hex(id@) && has_id(self@, decode_oid(id@)) ==> (r matches Ok(u) && u@
                == self@[idx_of(self@, decode_oid(id@))])),
    {
        match UserId::parse_str(id) {
            None => Err(RepoError::InvalidIdentifier),
            Some(oid) => match self.find_index(&oid) {
                None => Err(RepoError::NotFound),
                Some(i) => {
                    proof {
                        lemma_index_of_id(self@, oid@, i as int);
                    }
                    Ok(clone_user(&self.users[i]))
                },
            },
        }
    }

    /// Overwrites the three text fields of the record the textual
    /// identifier names, keeping its identifier, and reports how many
    /// records matched: 0 when none does, 1 on success. Fails with
    /// `InvalidIdentifier` when the text is not a well-formed identifier.
    pub fn update_user(&mut self, id: &str, new_user: &User) -> (r: Result<
        UpdateReport,
        RepoError,
    >)
        requires
            old(self).wf(),
        ensures
            final(self).wf(),
            (!valid_oid_hex(id@) ==> (r matches Err(e) && e == RepoError::InvalidIdentifier
                && final(self)@ == old(self)@)),
            (valid_oid_hex(id@) ==> ({
                let oid = decode_oid(id@);
                &&& final(self)@ == update_effect(old(self)@, oid, new_user@)
                &&& (!has_id(old(self)@, oid) ==> (r matches Ok(rep) && rep.matched_count == 0))
                &&& (has_id(old(self)@, oid) ==> (r matches Ok(rep) && rep.matched_count == 1))
            })),
    {
        match UserId::parse_str(id) {
            None => Err(RepoError::InvalidIdentifier),
            Some(oid) => match self.find_index(&oid) {
                None => Ok(UpdateReport { matched_count: 0 }),
                Some(i) => {
                    proof {
                        lemma_index_of_id(self@, oid@, i as int);
                    }
                    let stored = User {
                        id: Some(oid),
                        name: new_user.name.clone(),
                        location: new_user.location.clone(),
                        title: new_user.title.clone(),
                    };
                    let _replaced = self.users.remove(i);
                    self.users.insert(i, stored);
                    proof {
                        assert(self@ =~= update_effect(old(self)@, oid@, new_user@));
                    }
                    Ok(UpdateReport { matched_count: 1 })
                },
            },
        }
    }

    /// Removes the record the textual identifier names and reports how
    /// many records were removed: 0 when none matches, 1 on success.
    /// Fails with `InvalidIdentifier` when the text is not a well-formed
    /// identifier.
    pub fn delete_user(&mut self, id: &str) -> (r: Result<DeleteReport, RepoError>)
        requires
            old(self).wf(),
        ensures
            final(self).wf(),
            (!valid_oid_hex(id@) ==> (r matches Err(e) && e == RepoError::InvalidIdentifier
                && final(self)@ == old(self)@)),
            (valid_oid_hex(id@) ==> ({
                let oid = decode_oid(id@);
                &&& final(self)@ == delete_effect(old(self)@, oid)
                &&& (!has_id(old(self)@, oid) ==> (r matches Ok(rep) && rep.deleted_count == 0))
                &&& (has_id(old(self)@, oid) ==> (r matches Ok(rep) && rep.deleted_count == 1))
            })),
    {
        match UserId::parse_str(id) {
            None => Err(RepoError::InvalidIdentifier),
            Some(oid) => match self.find_index(&oid) {
                None => Ok(DeleteReport { deleted_count: 0 }),
                Some(i) => {
                    proof {
                        lemma_index_of_id(self@, oid@, i as int);
                    }
                    let _removed = self.users.remove(i);
                    proof {
                        assert(self@ =~= delete_effect(old(self)@, oid@));
                    }
                    Ok(DeleteReport { deleted_count: 1 })
                },
            },
        }
    }

    /// Every stored record, in storage order, as owned copies.
    pub fn get_all_users(&self) -> (r: Result<Vec<User>, RepoError>)
        requires
            self.wf(),
        ensures
            r matches Ok(l) && views_of(l@) == self@,
    {
        let mut out: Vec<User> = Vec::new();
        let mut i: usize = 0;
        while i < self.users.len()
            invariant
                i <= self.users.len(),
                views_of(out@) == self@.subrange(0, i as int),
            decreases self.users.len() - i,
        {
            let c = clone_user(&self.users[i]);
            proof {
                assert(c@ == self@[i as int]);
            }
            let ghost pre = out@;
            out.push(c);
            proof {
                assert(views_of(pre).len() == pre.len());
                assert(pre.len() == i as int);
                assert(out@ == pre.push(c));
                assert forall|j: int| 0 <= j < i as int + 1 implies views_of(out@)[j] == self@[j] by {
                    if j < i as int {
                        assert(out@[j] == pre[j]);
                        assert(views_of(pre)[j] == self@.subrange(0, i as int)[j]);
                    } else {
                        assert(out@[j] == c);
                    }
                }
                assert(views_of(out@) =~= self@.subrange(0, i as int + 1));
            }
            i += 1;
        }
        proof {
            assert(self@.subrange(0, self@.len() as int) =~= self@);
        }
        Ok(out)
    }
}

} // verus!
