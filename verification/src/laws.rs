use vstd::prelude::*;
use crate::user::UserView;
use crate::store::{
    store_wf, has_id, idx_of, lookup, stored_view, insert_effect, update_effect, delete_effect,
    lemma_index_of_id,
};

verus! {

/// Law: creating a record under a fresh identifier keeps the collection
/// well formed, and a read of that identifier then yields exactly the
/// field values that were sent, under that identifier.
pub proof fn lemma_create_then_get(s: Seq<UserView>, id: Seq<u8>, u: UserView)
    requires
        store_wf(s),
        !has_id(s, id),
    ensures
        store_wf(insert_effect(s, id, u)),
        lookup(insert_effect(s, id, u), id) == Some(stored_view(u, id)),
{
    let t = insert_effect(s, id, u);
    assert forall|i: int| 0 <= i < t.len() implies (#[trigger] t[i].id) is Some by {
        if i < s.len() {
            assert(t[i] == s[i]);
        } else {
            assert(t[i] == stored_view(u, id));
        }
    }
    assert forall|i: int, j: int|
        0 <= i < t.len() && 0 <= j < t.len() && i != j implies (#[trigger] t[i].id) != (
    #[trigger] t[j].id) by {
        if i < s.len() && j < s.len() {
            assert(s[i].id != s[j].id);
        } else if i < s.len() {
            assert(s[i].id != Some(id));
        } else if j < s.len() {
            assert(s[j].id != Some(id));
        }
    }
    assert(t[s.len() as int].id == Some(id));
    lemma_index_of_id(t, id, s.len() as int);
}

/// Law: updating an existing record keeps the collection well formed,
/// overwrites all three text fields, keeps the identifier, and a read of
/// that identifier then yields exactly the new field values.
pub proof fn lemma_update_then_get(s: Seq<UserView>, id: Seq<u8>, u: UserView)
    requires
        store_wf(s),
        has_id(s, id),
    ensures
        store_wf(update_effect(s, id, u)),
        update_effect(s, id, u).len() == s.len(),
        lookup(update_effect(s, id, u), id) == Some(stored_view(u, id)),
{
    let k = idx_of(s, id);
    assert(0 <= k < s.len() && s[k].id == Some(id));
    let t = update_effect(s, id, u);
    assert(forall|i: int| 0 <= i < t.len() ==> (#[trigger] t[i].id) == s[i].id);
    lemma_index_of_id(t, id, k);
}

/// Law: deleting an existing record removes exactly that one record, so
/// the identifier matches nothing afterwards, and a second delete of the
/// same identifier leaves the collection untouched.
pub proof fn lemma_delete_then_delete(s: Seq<UserView>, id: Seq<u8>)
    requires
        store_wf(s),
        has_id(s, id),
    ensures
        store_wf(delete_effect(s, id)),
        delete_effect(s, id).len() == s.len() - 1,
        !has_id(delete_effect(s, id), id),
        delete_effect(delete_effect(s, id), id) == delete_effect(s, id),
{
    let k = idx_of(s, id);
    assert(0 <= k < s.len() && s[k].id == Some(id));
    let t = s.remove(k);
    s.remove_ensures(k);
    assert forall|i: int| 0 <= i < t.len() implies (#[trigger] t[i].id) is Some && t[i].id
        != Some(id) by {
        if i < k {
            assert(t[i] == s[i]);
            assert(s[i].id != s[k].id);
        } else {
            assert(t[i] == s[i + 1]);
            assert(s[i + 1].id != s[k].id);
        }
    }
    assert forall|i: int, j: int|
        0 <= i < t.len() && 0 <= j < t.len() && i != j implies (#[trigger] t[i].id) != (
    #[trigger] t[j].id) by {
        let si: int = if i < k {
            i
        } else {
            i + 1
        };
        let sj: int = if j < k {
            j
        } else {
            j + 1
        };
        assert(t[i] == s[si]);
        assert(t[j] == s[sj]);
        assert(s[si].id != s[sj].id);
    }
    assert(!has_id(t, id));
}

/// Law: a listing of a well-formed collection carries no duplicates:
/// records at two distinct positions never share an identifier, so every
/// stored record appears exactly once.
pub proof fn lemma_list_each_once(s: Seq<UserView>, i: int, j: int)
    requires
        store_wf(s),
        0 <= i < s.len(),
        0 <= j < s.len(),
        s[i].id == s[j].id,
    ensures
        i == j,
{
}

} // verus!
