use vstd::prelude::*;
use crate::oid::UserId;

verus! {

/// The one persisted entity: three free-form text fields and an optional
/// identifier. The identifier is absent on a create request and present
/// on every stored record.
#[derive(Debug)]
pub struct User {
    pub id: Option<UserId>,
    pub name: String,
    pub location: String,
    pub title: String,
}

/// The mathematical value of a record: the identifier as its bytes, the
/// text fields as their character sequences.
pub ghost struct UserView {
    pub id: Option<Seq<u8>>,
    pub name: Seq<char>,
    pub location: Seq<char>,
    pub title: Seq<char>,
}

impl View for User {
    type V = UserView;

    open spec fn view(&self) -> UserView {
        UserView {
            id: match self.id {
                Some(i) => Some(i@),
                None => None,
            },
            name: self.name@,
            location: self.location@,
            title: self.title@,
        }
    }
}

/// An owned copy of a record, equal to it in value.
pub fn clone_user(u: &User) -> (r: User)
    ensures
        r@ == u@,
{
    User {
        id: u.id,
        name: u.name.clone(),
        location: u.location.clone(),
        title: u.title.clone(),
    }
}

} // verus!
