//! Reference model of the Persistence Port: an in-memory user table with
//! store-assigned ids, unique emails, and the same classified failures the
//! core expects from any concrete store.
//!
//! The handlers never depend on *which* store answered them — they take the
//! port's outcome as a value — but this model pins down what a conforming
//! store does, lets the cross-call guarantees (a rejected insert changes
//! nothing; a deleted id stays gone) be proved, and drives end-to-end tests.

use vstd::prelude::*;

use crate::models::{same_user, User};
use crate::response::Failure;
use crate::validate::spec_valid_input;

verus! {

/// `users` holds a record with this id.
pub open spec fn has_id(users: Seq<User>, id: i32) -> bool {
    exists|i: int| 0 <= i < users.len() && users[i].id == id
}

/// `users` holds a record with this email.
pub open spec fn has_email(users: Seq<User>, email: Seq<char>) -> bool {
    exists|i: int| 0 <= i < users.len() && users[i].email@ == email
}

/// Some record other than the one addressed by `id` holds this email.
pub open spec fn email_taken_by_other(users: Seq<User>, id: i32, email: Seq<char>) -> bool {
    exists|i: int| 0 <= i < users.len() && users[i].id != id && users[i].email@ == email
}

/// The in-memory user table. `next_id` is the id the next insertion gets.
pub struct ModelStore {
    pub users: Vec<User>,
    pub next_id: i32,
}

impl ModelStore {
    /// Well-formedness: ids unique and below `next_id`, emails unique, and
    /// every persisted record passed validation.
    pub open spec fn wf(&self) -> bool {
        &&& forall|i: int, j: int|
            0 <= i < j < self.users@.len() ==> self.users@[i].id != self.users@[j].id
        &&& forall|i: int, j: int|
            0 <= i < j < self.users@.len() ==> self.users@[i].email@ != self.users@[j].email@
        &&& forall|i: int| 0 <= i < self.users@.len() ==> self.users@[i].id < self.next_id
        &&& forall|i: int|
            0 <= i < self.users@.len() ==> spec_valid_input(
                self.users@[i].name@,
                self.users@[i].email@,
            )
    }

    /// An empty table; ids start at 1, as a serial column would.
    pub fn new() -> (s: ModelStore)
        ensures
            s.wf(),
            s.users@.len() == 0,
            s.next_id == 1,
    {
        ModelStore { users: Vec::new(), next_id: 1 }
    }

    /// Lists every record, in insertion order.
    pub fn list(&self) -> (r: Vec<User>)
        ensures
            r@.len() == self.users@.len(),
            forall|i: int| 0 <= i < r@.len() ==> same_user(r@[i], self.users@[i]),
    {
        let mut out: Vec<User> = Vec::new();
        let mut i: usize = 0;
        while i < self.users.len()
            invariant
                i <= self.users@.len(),
                out@.len() == i,
                forall|j: int| 0 <= j < i ==> same_user(out@[j], self.users@[j]),
            decreases self.users@.len() - i,
        {
            let u = &self.users[i];
            out.push(User { id: u.id, name: u.name.clone(), email: u.email.clone() });
            i += 1;
        }
        out
    }

    /// Finds a record by id; answers `NotFound` exactly when no record has
    /// the id.
    pub fn get(&self, id: i32) -> (r: Result<User, Failure>)
        ensures
            match r {
                Ok(u) => u.id == id && exists|i: int|
                    0 <= i < self.users@.len() && self.users@[i].id == id && same_user(
                        u,
                        self.users@[i],
                    ),
                Err(f) => f == Failure::NotFound && !has_id(self.users@, id),
            },
    {
        let mut i: usize = 0;
        while i < self.users.len()
            invariant
                i <= self.users@.len(),
                forall|j: int| 0 <= j < i ==> self.users@[j].id != id,
            decreases self.users@.len() - i,
        {
            let u = &self.users[i];
            if u.id == id {
                return Ok(User { id: u.id, name: u.name.clone(), email: u.email.clone() });
            }
            i += 1;
        }
        Err(Failure::NotFound)
    }

    /// Inserts a validated record under a fresh id; refuses an email that is
    /// already registered, leaving the table untouched.
    pub fn insert(&mut self, name: String, email: String) -> (r: Result<User, Failure>)
        requires
            old(self).wf(),
            old(self).next_id < i32::MAX,
            spec_valid_input(name@, email@),
        ensures
            final (self).wf(),
            match r {
                Ok(u) => {
                    &&& !has_email(old(self).users@, email@)
                    &&& u.id == old(self).next_id && u.name@ == name@ && u.email@ == email@
                    &&& final (self).users@.len() == old(self).users@.len() + 1
                    &&& forall|i: int|
                        0 <= i < old(self).users@.len() ==> final (self).users@[i] == old(
                            self,
                        ).users@[i]
                    &&& same_user(final (self).users@[old(self).users@.len() as int], u)
                    &&& final (self).next_id == old(self).next_id + 1
                },
                Err(f) => {
                    &&& f matches Failure::UniqueViolation(_)
                    &&& has_email(old(self).users@, email@)
                    &&& *final (self) == *old(self)
                },
            },
    {
        let mut i: usize = 0;
        while i < self.users.len()
            invariant
                *self == *old(self),
                old(self).wf(),
                i <= self.users@.len(),
                forall|j: int| 0 <= j < i ==> self.users@[j].email@ != email@,
            decreases self.users@.len() - i,
        {
            if self.users[i].email == email {
                proof {
                    assert(self.users@[i as int].email@ == email@);
                }
                return Err(Failure::UniqueViolation(String::from_str("email")));
            }
            i += 1;
        }
        let id = self.next_id;
        let ghost gname = name@;
        let ghost gemail = email@;
        let ghost prev = self.users@;
        let ret = User { id, name: name.clone(), email: email.clone() };
        self.users.push(User { id, name, email });
        self.next_id = id + 1;
        proof {
            let cur = self.users@;
            let prevlen = prev.len() as int;
            assert(cur.len() == prevlen + 1);
            assert(cur[prevlen].id == id && cur[prevlen].name@ == gname && cur[prevlen].email@
                == gemail);
            assert forall|a: int, b: int| 0 <= a < b < cur.len() implies cur[a].id != cur[b].id by {
                if b == prevlen {
                    assert(cur[a] == prev[a]);
                    assert(prev[a].id < id);
                } else {
                    assert(cur[a] == prev[a] && cur[b] == prev[b]);
                }
            }
            assert forall|a: int, b: int|
                0 <= a < b < cur.len() implies cur[a].email@ != cur[b].email@ by {
                if b == prevlen {
                    assert(cur[a] == prev[a]);
                    assert(prev[a].email@ != gemail);
                } else {
                    assert(cur[a] == prev[a] && cur[b] == prev[b]);
                }
            }
            assert forall|a: int|
                0 <= a < cur.len() implies cur[a].id < self.next_id && spec_valid_input(
                cur[a].name@,
                cur[a].email@,
            ) by {
                if a < prevlen {
                    assert(cur[a] == prev[a]);
                }
            }
        }
        Ok(ret)
    }

    /// Rewrites the record addressed by `id` with validated fields; answers
    /// `NotFound` when the id is absent and refuses an email held by another
    /// record, in both cases leaving the table untouched.
    pub fn update(&mut self, id: i32, name: String, email: String) -> (r: Result<User, Failure>)
        requires
            old(self).wf(),
            spec_valid_input(name@, email@),
        ensures
            final (self).wf(),
            final (self).next_id == old(self).next_id,
            final (self).users@.len() == old(self).users@.len(),
            match r {
                Ok(u) => {
                    &&& has_id(old(self).users@, id)
                    &&& !email_taken_by_other(old(self).users@, id, email@)
                    &&& u.id == id && u.name@ == name@ && u.email@ == email@
                    &&& exists|i: int|
                        0 <= i < old(self).users@.len() && old(self).users@[i].id == id
                            && same_user(final (self).users@[i], u) && (forall|j: int|
                            0 <= j < old(self).users@.len() && j != i ==> final (self).users@[j]
                                == old(self).users@[j])
                },
                Err(f) => {
                    &&& *final (self) == *old(self)
                    &&& match f {
                        Failure::NotFound => !has_id(old(self).users@, id),
                        Failure::UniqueViolation(_) => has_id(old(self).users@, id)
                            && email_taken_by_other(old(self).users@, id, email@),
                        Failure::Other(_) => false,
                    }
                },
            },
    {
        let n = self.users.len();
        let mut k: usize = 0;
        while k < n
            invariant
                *self == *old(self),
                old(self).wf(),
                n == self.users@.len(),
                k <= n,
                forall|j: int| 0 <= j < k ==> !(self.users@[j].id != id && self.users@[j].email@ == email@),
            decreases n - k,
        {
            let u = &self.users[k];
            if u.id != id && u.email == email {
                proof {
                    assert(self.users@[k as int].id != id && self.users@[k as int].email@
                        == email@);
                }
                if self.has_record(id) {
                    return Err(Failure::UniqueViolation(String::from_str("email")));
                } else {
                    return Err(Failure::NotFound);
                }
            }
            k += 1;
        }
        let ghost gname = name@;
        let ghost gemail = email@;
        let mut i: usize = 0;
        while i < n
            invariant
                *self == *old(self),
                old(self).wf(),
                gname == name@,
                gemail == email@,
                spec_valid_input(gname, gemail),
                forall|j: int|
                    0 <= j < n ==> !(self.users@[j].id != id && self.users@[j].email@ == gemail),
                n == self.users@.len(),
                i <= n,
                forall|j: int| 0 <= j < i ==> self.users@[j].id != id,
            decreases n - i,
        {
            let u = &self.users[i];
            if u.id == id {
                let ret = User { id, name: name.clone(), email: email.clone() };
                let ghost prev = self.users@;
                self.users[i] = User { id, name, email };
                proof {
                    let cur = self.users@;
                    let wi = i as int;
                    assert(cur == prev.update(wi, cur[wi]));
                    assert(cur[wi].id == id && cur[wi].name@ == gname && cur[wi].email@ == gemail);
                    assert(forall|j: int| 0 <= j < prev.len() && j != wi ==> cur[j] == prev[j]);
                    assert(same_user(cur[wi], ret));
                    // the addressed record exists, so the handler is owed success
                    assert(prev[wi].id == id);
                    assert(has_id(prev, id));
                    // the first scan found no other holder of the email
                    assert forall|j: int|
                        0 <= j < prev.len() && j != wi implies prev[j].email@ != gemail by {
                        assert(prev[j].id != id || prev[j].email@ != gemail);
                        if wi < j {
                            assert(prev[wi].id != prev[j].id);
                        } else {
                            assert(prev[j].id != prev[wi].id);
                        }
                    }
                    assert(!email_taken_by_other(prev, id, gemail));
                    // well-formedness is preserved
                    assert forall|a: int, b: int|
                        0 <= a < b < cur.len() implies cur[a].id != cur[b].id by {
                        if a != wi && b != wi {
                            assert(cur[a] == prev[a] && cur[b] == prev[b]);
                        } else if a == wi {
                            assert(cur[b] == prev[b] && prev[wi].id == id);
                        } else {
                            assert(cur[a] == prev[a] && prev[wi].id == id);
                        }
                    }
                    assert forall|a: int, b: int|
                        0 <= a < b < cur.len() implies cur[a].email@ != cur[b].email@ by {
                        if a != wi && b != wi {
                            assert(cur[a] == prev[a] && cur[b] == prev[b]);
                        } else if a == wi {
                            assert(cur[b] == prev[b] && prev[b].email@ != gemail);
                        } else {
                            assert(cur[a] == prev[a] && prev[a].email@ != gemail);
                        }
                    }
                    assert forall|a: int|
                        0 <= a < cur.len() implies cur[a].id < self.next_id && spec_valid_input(
                        cur[a].name@,
                        cur[a].email@,
                    ) by {
                        if a != wi {
                            assert(cur[a] == prev[a]);
                        } else {
                            assert(prev[wi].id == id);
                        }
                    }
                    // witness for the frame clause of the contract
                    assert(0 <= wi < prev.len() && prev[wi].id == id && same_user(cur[wi], ret)
                        && (forall|j: int|
                        0 <= j < prev.len() && j != wi ==> cur[j] == prev[j]));
                }
                return Ok(ret);
            }
            i += 1;
        }
        Err(Failure::NotFound)
    }

    /// Whether a record with this id exists.
    pub fn has_record(&self, id: i32) -> (b: bool)
        ensures
            b == has_id(self.users@, id),
    {
        let mut i: usize = 0;
        while i < self.users.len()
            invariant
                i <= self.users@.len(),
                forall|j: int| 0 <= j < i ==> self.users@[j].id != id,
            decreases self.users@.len() - i,
        {
            if self.users[i].id == id {
                proof {
                    assert(self.users@[i as int].id == id);
                }
                return true;
            }
            i += 1;
        }
        false
    }

    /// Removes the record addressed by `id`, answering how many rows were
    /// affected: one when the id existed — and it exists no longer — zero
    /// when it did not, the table then unchanged.
    pub fn delete(&mut self, id: i32) -> (rows: u64)
        requires
            old(self).wf(),
        ensures
            final (self).wf(),
            final (self).next_id == old(self).next_id,
            rows <= 1,
            rows == 1 <==> has_id(old(self).users@, id),
            !has_id(final (self).users@, id),
            rows == 0 ==> *final (self) == *old(self),
            rows == 1 ==> final (self).users@.len() + 1 == old(self).users@.len() && exists|
                i: int,
            |
                0 <= i < old(self).users@.len() && old(self).users@[i].id == id && final (
                self).users@ == old(self).users@.remove(i),
    {
        let n = self.users.len();
        let mut i: usize = 0;
        while i < n
            invariant
                *self == *old(self),
                old(self).wf(),
                n == self.users@.len(),
                i <= n,
                forall|j: int| 0 <= j < i ==> self.users@[j].id != id,
            decreases n - i,
        {
            if self.users[i].id == id {
                let ghost prev = self.users@;
                self.users.remove(i);
                proof {
                    let cur = self.users@;
                    let wi = i as int;
                    assert(prev[wi].id == id);
                    assert(has_id(prev, id));
                    assert(cur == prev.remove(wi));
                    prev.remove_ensures(wi);
                    assert forall|j: int| 0 <= j < cur.len() implies cur[j].id != id by {
                        if j < wi {
                            assert(cur[j] == prev[j]);
                        } else {
                            assert(cur[j] == prev[j + 1]);
                            assert(prev[wi].id != prev[j + 1].id);
                        }
                    }
                    assert forall|a: int, b: int|
                        0 <= a < b < cur.len() implies cur[a].id != cur[b].id && cur[a].email@
                            != cur[b].email@ by {
                        let pa = if a < wi { a } else { a + 1 };
                        let pb = if b < wi { b } else { b + 1 };
                        assert(cur[a] == prev[pa]);
                        assert(cur[b] == prev[pb]);
                        assert(0 <= pa < pb < prev.len());
                    }
                    assert forall|a: int|
                        0 <= a < cur.len() implies cur[a].id < self.next_id && spec_valid_input(
                        cur[a].name@,
                        cur[a].email@,
                    ) by {
                        let pa = if a < wi { a } else { a + 1 };
                        assert(cur[a] == prev[pa]);
                    }
                    assert(0 <= wi < prev.len() && prev[wi].id == id && cur == prev.remove(wi));
                }
                return 1;
            }
            i += 1;
        }
        0
    }
}

} // verus!
