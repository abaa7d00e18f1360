use vstd::prelude::*;
use crate::oid::{UserId, valid_oid_hex, decode_oid};
use crate::user::User;
use crate::store::{
    UserStore, RepoError, has_id, idx_of, stored_view, insert_effect, update_effect,
    delete_effect, views_of,
};
use crate::laws::lemma_update_then_get;

verus! {

/// The HTTP-style statuses a handler answers with on failure.
#[derive(Clone, Copy, PartialEq, Eq, Structural, Debug)]
pub enum ApiStatus {
    BadRequest,
    NotFound,
    InternalServerError,
}

/// Create handler: inserts the request's field values as a new record
/// under the engine-assigned identifier and answers with that
/// identifier; any repository failure (here: an identifier collision)
/// answers with the internal-error status.
pub fn create_user(db: &mut UserStore, new_user: &User, id: &UserId) -> (r: Result<
    UserId,
    ApiStatus,
>)
    requires
        old(db).wf(),
    ensures
        final(db).wf(),
        (!has_id(old(db)@, id@) ==> (r matches Ok(rid) && rid@ == id@ && final(db)@
            == insert_effect(old(db)@, id@, new_user@))),
        (has_id(old(db)@, id@) ==> r == Err::<UserId, ApiStatus>(ApiStatus::InternalServerError)
            && final(db)@ == old(db)@),
{
    match db.create_user(new_user, id) {
        Ok(rid) => Ok(rid),
        Err(_) => Err(ApiStatus::InternalServerError),
    }
}

/// Read handler: an empty identifier answers with the bad-request
/// status before the repository is touched; every repository failure —
/// a malformed identifier as much as a missing record — collapses into
/// the internal-error status; otherwise the record comes back.
pub fn get_user(db: &UserStore, path: &str) -> (r: Result<User, ApiStatus>)
    requires
        db.wf(),
    ensures
        path@.len() == 0 ==> r == Err::<User, ApiStatus>(ApiStatus::BadRequest),
        (path@.len() != 0 && !valid_oid_hex(path@) ==> r == Err::<User, ApiStatus>(
            ApiStatus::InternalServerError,
        )),
        (valid_oid_hex(path@) && !has_id(db@, decode_oid(path@)) ==> r == Err::<User, ApiStatus>(
            ApiStatus::InternalServerError,
        )),
        (valid_oid_hex(path@) && has_id(db@, decode_oid(path@)) ==> (r matches Ok(u) && u@
            == db@[idx_of(db@, decode_oid(path@))])),
{
    if path.is_empty() {
        return Err(ApiStatus::BadRequest);
    }
    match db.get_user(path) {
        Ok(u) => Ok(u),
        Err(_) => Err(ApiStatus::InternalServerError),
    }
}

/// Update handler: an empty or malformed identifier answers with the
/// bad-request status; an identifier that matches no record answers
/// with the not-found status; otherwise all three text fields are
/// overwritten and the record is re-read and returned.
pub fn update_user(db: &mut UserStore, path: &str, new_user: &User) -> (r: Result<
    User,
    ApiStatus,
>)
    requires
        old(db).wf(),
    ensures
        final(db).wf(),
        (path@.len() == 0 ==> r == Err::<User, ApiStatus>(ApiStatus::BadRequest) && final(db)@
            == old(db)@),
        (path@.len() != 0 && !valid_oid_hex(path@) ==> r == Err::<User, ApiStatus>(
            ApiStatus::BadRequest,
        ) && final(db)@ == old(db)@),
        (valid_oid_hex(path@) && !has_id(old(db)@, decode_oid(path@)) ==> r == Err::<
            User,
            ApiStatus,
        >(ApiStatus::NotFound) && final(db)@ == old(db)@),
        (valid_oid_hex(path@) && has_id(old(db)@, decode_oid(path@)) ==> ({
            let oid = decode_oid(path@);
            &&& final(db)@ == update_effect(old(db)@, oid, new_user@)
            &&& (r matches Ok(u) && u@ == stored_view(new_user@, oid))
        })),
{
    if path.is_empty() {
        return Err(ApiStatus::BadRequest);
    }
    match db.update_user(path, new_user) {
        Err(RepoError::InvalidIdentifier) => Err(ApiStatus::BadRequest),
        Err(_) => Err(ApiStatus::InternalServerError),
        Ok(rep) => {
            if rep.matched_count == 1 {
                proof {
                    lemma_update_then_get(old(db)@, decode_oid(path@), new_user@);
                }
                match db.get_user(path) {
                    Ok(u) => Ok(u),
                    Err(_) => Err(ApiStatus::InternalServerError),
                }
            } else {
                Err(ApiStatus::NotFound)
            }
        },
    }
}

/// Delete handler: an empty or malformed identifier answers with the
/// bad-request status; an identifier that matches no record answers
/// with the not-found status; otherwise the record is removed and a
/// fixed confirmation message comes back.
pub fn delete_user(db: &mut UserStore, path: &str) -> (r: Result<&'static str, ApiStatus>)
    requires
        old(db).wf(),
    ensures
        final(db).wf(),
        (path@.len() == 0 ==> r == Err::<&'static str, ApiStatus>(ApiStatus::BadRequest)
            && final(db)@ == old(db)@),
        (path@.len() != 0 && !valid_oid_hex(path@) ==> r == Err::<&'static str, ApiStatus>(
            ApiStatus::BadRequest,
        ) && final(db)@ == old(db)@),
        (valid_oid_hex(path@) && !has_id(old(db)@, decode_oid(path@)) ==> r == Err::<
            &'static str,
            ApiStatus,
        >(ApiStatus::NotFound) && final(db)@ == old(db)@),
        (valid_oid_hex(path@) && has_id(old(db)@, decode_oid(path@)) ==> (r matches Ok(m) && m@
            == "User successfully deleted!"@ && final(db)@ == delete_effect(
            old(db)@,
            decode_oid(path@),
        ))),
{
    if path.is_empty() {
        return Err(ApiStatus::BadRequest);
    }
    match db.delete_user(path) {
        Err(RepoError::InvalidIdentifier) => Err(ApiStatus::BadRequest),
        Err(_) => Err(ApiStatus::InternalServerError),
        Ok(rep) => {
            if rep.deleted_count == 1 {
                Ok("User successfully deleted!")
            } else {
                Err(ApiStatus::NotFound)
            }
        },
    }
}

/// List handler: answers with every stored record, in storage order.
pub fn get_all_users(db: &UserStore) -> (r: Result<Vec<User>, ApiStatus>)
    requires
        db.wf(),
    ensures
        r matches Ok(l) && views_of(l@) == db@,
{
    match db.get_all_users() {
        Ok(l) => Ok(l),
        Err(_) => Err(ApiStatus::InternalServerError),
    }
}

} // verus!
