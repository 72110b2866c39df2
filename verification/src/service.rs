//! The per-request pipeline over the reference store, one verified step per
//! operation: Validator → Persistence Port → Error Classifier → Envelope
//! Builder. Nothing is ever persisted that failed validation, and every
//! reply carries the status and shape the outcome is owed.

use vstd::prelude::*;

use crate::handlers::{create_user, delete_user, get_user, get_users, update_user};
use crate::models::{same_user, CreateUser, User};
use crate::response::{
    build_error, envelope_err, envelope_ok, envelope_well_formed, msg_bad_email, msg_duplicate,
    msg_not_found, msg_required, Envelope, Reply,
};
use crate::store::{email_taken_by_other, has_email, has_id, ModelStore};
use crate::validate::{spec_valid_input, validate_create};

verus! {

/// Serves "list all users": always 200 with the whole table, in order.
pub fn serve_list(store: &ModelStore) -> (r: Reply<Vec<User>>)
    ensures
        r.status == 200,
        envelope_well_formed(r.body),
        r.body matches Envelope::Data(m) && m.data@.len() == store.users@.len() && (forall|i: int|
            0 <= i < m.data@.len() ==> same_user(m.data@[i], store.users@[i])),
{
    get_users(Ok(store.list()))
}

/// Serves "get one user": 200 with the record when the id exists, else 400
/// "user not found".
pub fn serve_get(store: &ModelStore, id: i32) -> (r: Reply<User>)
    ensures
        envelope_well_formed(r.body),
        has_id(store.users@, id) ==> r.status == 200 && (r.body matches Envelope::Data(m)
            && m.data.id == id && exists|i: int|
            0 <= i < store.users@.len() && store.users@[i].id == id && same_user(
                m.data,
                store.users@[i],
            )),
        !has_id(store.users@, id) ==> r.status == 400 && envelope_err(r.body, msg_not_found()),
{
    get_user(store.get(id))
}

/// Serves a creation request: validation gates the store, a taken email is
/// refused without touching the table, and only a fresh, valid input is
/// persisted — under a fresh id, answered 201.
pub fn serve_create(store: &mut ModelStore, input: &CreateUser) -> (r: Reply<User>)
    requires
        old(store).wf(),
        old(store).next_id < i32::MAX,
    ensures
        final (store).wf(),
        envelope_well_formed(r.body),
        !spec_valid_input(input.name@, input.email@) ==> *final (store) == *old(store)
            && r.status == 400,
        (input.name@.len() == 0 || input.email@.len() == 0) ==> envelope_err(
            r.body,
            msg_required(),
        ),
        (input.name@.len() > 0 && input.email@.len() > 0 && !input.email@.contains('@'))
            ==> envelope_err(r.body, msg_bad_email()),
        r.status != 201 ==> *final (store) == *old(store),
        spec_valid_input(input.name@, input.email@) && has_email(old(store).users@, input.email@)
            ==> *final (store) == *old(store) && r.status == 400 && envelope_err(
            r.body,
            msg_duplicate(),
        ),
        spec_valid_input(input.name@, input.email@) && !has_email(old(store).users@, input.email@)
            ==> {
            &&& r.status == 201
            &&& final (store).next_id == old(store).next_id + 1
            &&& final (store).users@.len() == old(store).users@.len() + 1
            &&& (forall|i: int|
                0 <= i < old(store).users@.len() ==> final (store).users@[i] == old(
                    store,
                ).users@[i])
            &&& (r.body matches Envelope::Data(m) && m.data.id == old(store).next_id
                && m.data.name@ == input.name@ && m.data.email@ == input.email@ && same_user(
                final (store).users@[old(store).users@.len() as int],
                m.data,
            ))
        },
{
    match validate_create(input) {
        Err(e) => build_error(&e),
        Ok(()) => {
            let outcome = store.insert(input.name.clone(), input.email.clone());
            create_user(outcome)
        },
    }
}

/// Serves an update request: validation first, then the rewrite; a missing
/// id and an email held by another record are both refused without touching
/// the table.
pub fn serve_update(store: &mut ModelStore, id: i32, input: &CreateUser) -> (r: Reply<User>)
    requires
        old(store).wf(),
    ensures
        final (store).wf(),
        envelope_well_formed(r.body),
        !spec_valid_input(input.name@, input.email@) ==> *final (store) == *old(store)
            && r.status == 400,
        (input.name@.len() == 0 || input.email@.len() == 0) ==> envelope_err(
            r.body,
            msg_required(),
        ),
        (input.name@.len() > 0 && input.email@.len() > 0 && !input.email@.contains('@'))
            ==> envelope_err(r.body, msg_bad_email()),
        spec_valid_input(input.name@, input.email@) && !has_id(old(store).users@, id) ==> *final (
        store) == *old(store) && r.status == 400 && envelope_err(r.body, msg_not_found()),
        spec_valid_input(input.name@, input.email@) && has_id(old(store).users@, id)
            && email_taken_by_other(old(store).users@, id, input.email@) ==> *final (store)
            == *old(store) && r.status == 400 && envelope_err(r.body, msg_duplicate()),
        spec_valid_input(input.name@, input.email@) && has_id(old(store).users@, id)
            && !email_taken_by_other(old(store).users@, id, input.email@) ==> {
            &&& r.status == 200
            &&& final (store).users@.len() == old(store).users@.len()
            &&& (r.body matches Envelope::Data(m) && m.data.id == id && m.data.name@
                == input.name@ && m.data.email@ == input.email@)
            &&& exists|i: int|
                0 <= i < old(store).users@.len() && old(store).users@[i].id == id && final (
                store).users@[i].id == id && final (store).users@[i].name@ == input.name@
                    && final (store).users@[i].email@ == input.email@ && (forall|j: int|
                    0 <= j < old(store).users@.len() && j != i ==> final (store).users@[j] == old(
                        store,
                    ).users@[j])
        },
{
    match validate_create(input) {
        Err(e) => build_error(&e),
        Ok(()) => {
            let outcome = store.update(id, input.name.clone(), input.email.clone());
            update_user(outcome)
        },
    }
}

/// Serves a deletion request: 200 with an empty payload when the id existed,
/// else 400 "user not found"; either way the id is absent afterwards, so a
/// repeated deletion of the same id is answered 400.
pub fn serve_delete(store: &mut ModelStore, id: i32) -> (r: Reply<()>)
    requires
        old(store).wf(),
    ensures
        final (store).wf(),
        envelope_well_formed(r.body),
        !has_id(final (store).users@, id),
        has_id(old(store).users@, id) ==> r.status == 200 && envelope_ok(r.body, ()) && final (
        store).users@.len() + 1 == old(store).users@.len(),
        !has_id(old(store).users@, id) ==> r.status == 400 && envelope_err(r.body, msg_not_found())
            && *final (store) == *old(store),
{
    let rows = store.delete(id);
    delete_user(Ok(rows))
}

} // verus!
