//! Domain records exchanged with the persistence layer and with clients.

use vstd::prelude::*;

verus! {

/// A persisted user record. The store assigns `id`; `name` and `email` have
/// passed validation before the record was ever persisted.
#[derive(Debug, Clone, PartialEq)]
pub struct User {
    pub id: i32,
    pub name: String,
    pub email: String,
}

/// Payload of a creation request: both fields are validated before any
/// persistence call is attempted.
#[derive(Debug, Clone, PartialEq)]
pub struct CreateUser {
    pub name: String,
    pub email: String,
}

/// Payload of a partial-update request.
#[derive(Debug, Clone, PartialEq)]
pub struct UpdateUser {
    pub name: Option<String>,
    pub email: Option<String>,
}

/// Payload addressing a record by id.
#[derive(Debug, Clone, PartialEq)]
pub struct DeleteUser {
    pub id: i32,
}

/// Two records agree on every field, by content.
pub open spec fn same_user(a: User, b: User) -> bool {
    a.id == b.id && a.name@ == b.name@ && a.email@ == b.email@
}

} // verus!
