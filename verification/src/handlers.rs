//! One handler per CRUD operation: each takes the Persistence Port's
//! classified outcome as a value and is owed the matching reply, whatever the
//! port answered. Validation runs before the port is called and lives in
//! `validate`; `service` ties both together over the reference store.

use vstd::prelude::*;

use crate::models::User;
use crate::response::{
    build_error, build_success, classify, envelope_err, envelope_ok, envelope_well_formed,
    msg_duplicate, msg_not_found, reply_is_error, spec_classify, AppError, Failure, Reply,
};

verus! {

/// Lists every user: the listing is wrapped as-is (possibly empty) under 200;
/// a failure is classified.
pub fn get_users(outcome: Result<Vec<User>, Failure>) -> (r: Reply<Vec<User>>)
    ensures
        envelope_well_formed(r.body),
        match outcome {
            Ok(users) => r.status == 200 && envelope_ok(r.body, users),
            Err(f) => reply_is_error(r, spec_classify(f)),
        },
        r.status == 200 <==> outcome matches Ok(_),
{
    match outcome {
        Ok(users) => build_success(false, users),
        Err(f) => build_error(&classify(&f)),
    }
}

/// Fetches one user: a found record is wrapped under 200; a missing id is
/// answered 400 "user not found" — never 404, never 500.
pub fn get_user(outcome: Result<User, Failure>) -> (r: Reply<User>)
    ensures
        envelope_well_formed(r.body),
        match outcome {
            Ok(u) => r.status == 200 && envelope_ok(r.body, u),
            Err(f) => reply_is_error(r, spec_classify(f)),
        },
        outcome matches Err(Failure::NotFound) ==> r.status == 400 && envelope_err(
            r.body,
            msg_not_found(),
        ),
        r.status == 200 || r.status == 400 || r.status == 500,
        r.status == 200 <==> outcome matches Ok(_),
{
    match outcome {
        Ok(u) => build_success(false, u),
        Err(f) => build_error(&classify(&f)),
    }
}

/// Finishes a creation: only a successful insert is answered 201 with the
/// new record; a duplicate email is answered 400 "email already registered".
pub fn create_user(outcome: Result<User, Failure>) -> (r: Reply<User>)
    ensures
        envelope_well_formed(r.body),
        match outcome {
            Ok(u) => r.status == 201 && envelope_ok(r.body, u),
            Err(f) => reply_is_error(r, spec_classify(f)),
        },
        outcome matches Err(Failure::UniqueViolation(_)) ==> r.status == 400 && envelope_err(
            r.body,
            msg_duplicate(),
        ),
        r.status == 201 <==> outcome matches Ok(_),
{
    match outcome {
        Ok(u) => build_success(true, u),
        Err(f) => build_error(&classify(&f)),
    }
}

/// Finishes an update: the rewritten record is wrapped under 200; a missing
/// id and a duplicate email both go through the same classification.
pub fn update_user(outcome: Result<User, Failure>) -> (r: Reply<User>)
    ensures
        envelope_well_formed(r.body),
        match outcome {
            Ok(u) => r.status == 200 && envelope_ok(r.body, u),
            Err(f) => reply_is_error(r, spec_classify(f)),
        },
        outcome matches Err(Failure::NotFound) ==> r.status == 400 && envelope_err(
            r.body,
            msg_not_found(),
        ),
        outcome matches Err(Failure::UniqueViolation(_)) ==> r.status == 400 && envelope_err(
            r.body,
            msg_duplicate(),
        ),
        r.status == 200 <==> outcome matches Ok(_),
{
    match outcome {
        Ok(u) => build_success(false, u),
        Err(f) => build_error(&classify(&f)),
    }
}

/// Finishes a deletion: one affected row is success with an empty payload
/// under 200; zero affected rows is treated exactly as not-found.
pub fn delete_user(outcome: Result<u64, Failure>) -> (r: Reply<()>)
    ensures
        envelope_well_formed(r.body),
        match outcome {
            Ok(rows) => if rows > 0 {
                r.status == 200 && envelope_ok(r.body, ())
            } else {
                r.status == 400 && envelope_err(r.body, msg_not_found())
            },
            Err(f) => reply_is_error(r, spec_classify(f)),
        },
        r.status == 200 <==> (outcome matches Ok(rows) && rows > 0),
{
    match outcome {
        Ok(rows) => {
            if rows > 0 {
                build_success(false, ())
            } else {
                build_error(&AppError::Invalid { err: "user not found" })
            }
        },
        Err(f) => build_error(&classify(&f)),
    }
}

} // verus!
