//! Field-level validation of inbound payloads, run before any persistence
//! call is attempted. Pure and deterministic; the checks short-circuit on the
//! first failure.

use vstd::prelude::*;

use crate::models::CreateUser;
use crate::response::{is_invalid_msg, msg_bad_email, msg_required, AppError};

verus! {

/// The input passes every field check: both fields non-empty and the email
/// contains an `@`.
pub open spec fn spec_valid_input(name: Seq<char>, email: Seq<char>) -> bool {
    name.len() > 0 && email.len() > 0 && email.contains('@')
}

/// What validation returns, rule by rule and in order: missing fields first,
/// then the email format.
pub open spec fn spec_validate(name: Seq<char>, email: Seq<char>) -> Result<(), AppError> {
    if name.len() == 0 || email.len() == 0 {
        Err(AppError::Invalid { err: "name and email are required" })
    } else if !email.contains('@') {
        Err(AppError::Invalid { err: "invalid email format" })
    } else {
        Ok(())
    }
}

/// Whether `s` holds the character `c` anywhere.
pub fn str_contains_char(s: &str, c: char) -> (b: bool)
    ensures
        b == s@.contains(c),
{
    let n: usize = s.unicode_len();
    let mut i: usize = 0;
    while i < n
        invariant
            n == s@.len(),
            i <= n,
            forall|j: int| 0 <= j < i ==> s@[j] != c,
        decreases n - i,
    {
        if s.get_char(i) == c {
            proof {
                assert(s@[i as int] == c);
            }
            return true;
        }
        i += 1;
    }
    proof {
        assert(forall|j: int| 0 <= j < s@.len() ==> s@[j] != c);
    }
    false
}

/// Checks a creation (or update) payload against the field rules, in order,
/// stopping at the first violation. Succeeds exactly on valid input.
pub fn validate_create(input: &CreateUser) -> (r: Result<(), AppError>)
    ensures
        r == spec_validate(input.name@, input.email@),
        r matches Ok(_) <==> spec_valid_input(input.name@, input.email@),
        (input.name@.len() == 0 || input.email@.len() == 0) ==> (r matches Err(e)
            && is_invalid_msg(e, msg_required())),
        (input.name@.len() > 0 && input.email@.len() > 0 && !input.email@.contains('@')) ==> (
        r matches Err(e) && is_invalid_msg(e, msg_bad_email())),
{
    if input.name.as_str().is_empty() || input.email.as_str().is_empty() {
        return Err(AppError::Invalid { err: "name and email are required" });
    }
    if !str_contains_char(input.email.as_str(), '@') {
        return Err(AppError::Invalid { err: "invalid email format" });
    }
    Ok(())
}

} // verus!
