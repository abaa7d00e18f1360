use user_service::handlers::{self, ApiStatus};
use user_service::oid::UserId;
use user_service::store::{RepoError, UserStore};
use user_service::user::User;

const ID_A: &str = "0102030405060708090a0b0c";
const ID_B: &str = "aaaaaaaaaaaaaaaaaaaaaaaa";
const ID_C: &str = "ffffffffffffffffffffffff";

fn user(name: &str, location: &str, title: &str) -> User {
    User {
        id: None,
        name: name.to_string(),
        location: location.to_string(),
        title: title.to_string(),
    }
}

fn id_of(hex: &str) -> UserId {
    UserId::parse_str(hex).expect("well-formed identifier")
}

#[test]
fn parse_decodes_hex() {
    let id = id_of(ID_A);
    assert_eq!(id.to_bytes(), [1, 2, 3, 4, 5, 6, 7, 8, 9, 10, 11, 12]);
}

#[test]
fn parse_accepts_both_cases() {
    let lower = id_of("0a0b0c0d0e0f0a0b0c0d0e0f");
    let upper = id_of("0A0B0C0D0E0F0A0B0C0D0E0F");
    assert!(lower.eq_id(&upper));
}

#[test]
fn parse_rejects_malformed() {
    assert!(UserId::parse_str("").is_none());
    assert!(UserId::parse_str("0102030405060708090a0b0").is_none()); // 23 digits
    assert!(UserId::parse_str("0102030405060708090a0b0c0").is_none()); // 25 digits
    assert!(UserId::parse_str("0102030405060708090a0b0g").is_none()); // non-hex digit
    assert!(UserId::parse_str("01020304-5060708090a0b0c").is_none());
}

#[test]
fn create_then_get_returns_same_fields() {
    let mut db = UserStore::new();
    let created = handlers::create_user(&mut db, &user("A", "B", "C"), &id_of(ID_A));
    let rid = created.expect("create succeeds on a fresh identifier");
    assert_eq!(rid.to_bytes(), id_of(ID_A).to_bytes());

    let got = handlers::get_user(&db, ID_A).expect("created record is readable");
    assert_eq!(got.name, "A");
    assert_eq!(got.location, "B");
    assert_eq!(got.title, "C");
    let got_id = got.id.expect("stored record carries its identifier");
    assert!(got_id.eq_id(&rid));
}

#[test]
fn create_discards_request_identifier() {
    let mut db = UserStore::new();
    let mut u = user("A", "B", "C");
    u.id = Some(id_of(ID_B));
    handlers::create_user(&mut db, &u, &id_of(ID_A)).expect("create succeeds");
    let got = handlers::get_user(&db, ID_A).expect("record stands under the assigned identifier");
    assert!(got.id.expect("identifier present").eq_id(&id_of(ID_A)));
    assert_eq!(handlers::get_user(&db, ID_B).unwrap_err(), ApiStatus::InternalServerError);
}

#[test]
fn create_on_taken_identifier_fails() {
    let mut db = UserStore::new();
    handlers::create_user(&mut db, &user("A", "B", "C"), &id_of(ID_A)).expect("first create");
    let second = handlers::create_user(&mut db, &user("X", "Y", "Z"), &id_of(ID_A));
    assert_eq!(second.unwrap_err(), ApiStatus::InternalServerError);
    let err = db.create_user(&user("X", "Y", "Z"), &id_of(ID_A)).unwrap_err();
    assert_eq!(err, RepoError::StorageError);
}

#[test]
fn get_empty_identifier_is_bad_request() {
    let db = UserStore::new();
    assert_eq!(handlers::get_user(&db, "").unwrap_err(), ApiStatus::BadRequest);
}

#[test]
fn get_missing_identifier_is_storage_failure() {
    let db = UserStore::new();
    assert_eq!(handlers::get_user(&db, ID_A).unwrap_err(), ApiStatus::InternalServerError);
    assert_eq!(db.get_user(ID_A).unwrap_err(), RepoError::NotFound);
}

#[test]
fn get_malformed_identifier_is_storage_failure() {
    let db = UserStore::new();
    assert_eq!(handlers::get_user(&db, "not-hex").unwrap_err(), ApiStatus::InternalServerError);
    assert_eq!(db.get_user("not-hex").unwrap_err(), RepoError::InvalidIdentifier);
}

#[test]
fn update_missing_identifier_is_not_found() {
    let mut db = UserStore::new();
    let r = handlers::update_user(&mut db, ID_A, &user("X", "Y", "Z"));
    assert_eq!(r.unwrap_err(), ApiStatus::NotFound);
    let rep = db.update_user(ID_A, &user("X", "Y", "Z")).expect("update reports a count");
    assert_eq!(rep.matched_count, 0);
}

#[test]
fn update_overwrites_all_fields() {
    let mut db = UserStore::new();
    handlers::create_user(&mut db, &user("A", "B", "C"), &id_of(ID_A)).expect("create");
    let updated = handlers::update_user(&mut db, ID_A, &user("X", "Y", "Z"))
        .expect("update succeeds on an existing identifier");
    assert_eq!(updated.name, "X");
    assert_eq!(updated.location, "Y");
    assert_eq!(updated.title, "Z");
    let got = handlers::get_user(&db, ID_A).expect("record still readable");
    assert_eq!(got.name, "X");
    assert_eq!(got.location, "Y");
    assert_eq!(got.title, "Z");
    assert!(got.id.expect("identifier kept").eq_id(&id_of(ID_A)));
}

#[test]
fn update_empty_and_malformed_identifiers_are_bad_requests() {
    let mut db = UserStore::new();
    let r = handlers::update_user(&mut db, "", &user("X", "Y", "Z"));
    assert_eq!(r.unwrap_err(), ApiStatus::BadRequest);
    let r = handlers::update_user(&mut db, "not-hex", &user("X", "Y", "Z"));
    assert_eq!(r.unwrap_err(), ApiStatus::BadRequest);
    let err = db.update_user("not-hex", &user("X", "Y", "Z")).unwrap_err();
    assert_eq!(err, RepoError::InvalidIdentifier);
}

#[test]
fn delete_succeeds_exactly_once() {
    let mut db = UserStore::new();
    handlers::create_user(&mut db, &user("A", "B", "C"), &id_of(ID_A)).expect("create");
    let msg = handlers::delete_user(&mut db, ID_A).expect("first delete succeeds");
    assert_eq!(msg, "User successfully deleted!");
    let second = handlers::delete_user(&mut db, ID_A);
    assert_eq!(second.unwrap_err(), ApiStatus::NotFound);
    let rep = db.delete_user(ID_A).expect("delete reports a count");
    assert_eq!(rep.deleted_count, 0);
}

#[test]
fn delete_empty_and_malformed_identifiers_are_bad_requests() {
    let mut db = UserStore::new();
    assert_eq!(handlers::delete_user(&mut db, "").unwrap_err(), ApiStatus::BadRequest);
    assert_eq!(handlers::delete_user(&mut db, "zz").unwrap_err(), ApiStatus::BadRequest);
}

#[test]
fn list_returns_each_record_exactly_once() {
    let mut db = UserStore::new();
    handlers::create_user(&mut db, &user("A1", "L1", "T1"), &id_of(ID_A)).expect("create");
    handlers::create_user(&mut db, &user("A2", "L2", "T2"), &id_of(ID_B)).expect("create");
    handlers::create_user(&mut db, &user("A3", "L3", "T3"), &id_of(ID_C)).expect("create");
    handlers::delete_user(&mut db, ID_B).expect("delete");

    let all = handlers::get_all_users(&db).expect("list succeeds");
    assert_eq!(all.len(), 2);
    let mut names: Vec<String> = all.iter().map(|u| u.name.clone()).collect();
    names.sort();
    assert_eq!(names, vec!["A1".to_string(), "A3".to_string()]);
    for u in &all {
        assert!(u.id.is_some());
    }
}

#[test]
fn list_of_empty_store_is_empty() {
    let db = UserStore::new();
    let all = handlers::get_all_users(&db).expect("list succeeds");
    assert!(all.is_empty());
}

#[test]
fn identifier_matching_is_case_insensitive() {
    let mut db = UserStore::new();
    let id = id_of("0a0b0c0d0e0f0a0b0c0d0e0f");
    handlers::create_user(&mut db, &user("A", "B", "C"), &id).expect("create");
    let got = handlers::get_user(&db, "0A0B0C0D0E0F0A0B0C0D0E0F")
        .expect("the upper-case spelling names the same record");
    assert_eq!(got.name, "A");
}
