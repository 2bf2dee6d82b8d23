//! User operations against the store: count, paginated list, and insert.
//!
//! Every fallible statement takes the persistence layer's verdict for
//! that statement as an `outcome` argument: `None` means the statement
//! was carried out, `Some` carries the failure the layer reported. A
//! failed statement leaves the store unchanged.

use vstd::prelude::*;

use crate::db::{unique_user_ids, user_with_id, Database};
use crate::dto::{page_spec, PaginationDTO};
use crate::error::Error;
use crate::model::{email_format_ok, fresh_id, is_email, NewUser, User};
use crate::rows::exists_where;

verus! {

/// The index of the first user row with the given id, if any.
pub(crate) fn find_user_index(rows: &Vec<User>, id: u128) -> (r: Option<usize>)
    ensures
        match r {
            Some(i) => i < rows@.len() && rows@[i as int].id == id && (forall|j: int|
                0 <= j < i ==> rows@[j].id != id),
            None => !exists_where(rows@, user_with_id(id)),
        },
{
    let mut i: usize = 0;
    while i < rows.len()
        invariant
            i <= rows@.len(),
            forall|j: int| 0 <= j < i ==> rows@[j].id != id,
        decreases rows@.len() - i,
    {
        if rows[i].id == id {
            return Some(i);
        }
        i += 1;
    }
    proof {
        assert forall|k: int| !(0 <= k < rows@.len() && user_with_id(id)(rows@[k])) by {
            if 0 <= k < rows@.len() {
                assert(rows@[k].id != id);
            }
        }
    }
    None
}

/// Total number of users, counted independently of any page bounds.
pub fn count_users(db: &Database, outcome: Option<Error>) -> (r: Result<i64, Error>)
    requires
        db.users@.len() <= i64::MAX,
    ensures
        outcome matches Some(e) ==> r == Err::<i64, Error>(e),
        outcome is None ==> r == Ok::<i64, Error>(db.users@.len() as i64),
{
    match outcome {
        Some(e) => Err(e),
        None => Ok(db.users.len() as i64),
    }
}

/// The page of users selected by the pagination request, in table order.
/// A request with a negative bound is rejected as a bad request.
pub fn list_all_users(pagination: &PaginationDTO, db: &Database, outcome: Option<Error>) -> (r:
    Result<Vec<User>, Error>)
    ensures
        !pagination.valid() ==> (r matches Err(e) && e matches Error::BadRequest(s) && s@
            == "invalid-pagination"@),
        pagination.valid() ==> (outcome matches Some(e) ==> r == Err::<Vec<User>, Error>(e)),
        pagination.valid() && outcome is None ==> (r matches Ok(items) && items@ == page_spec(
            db.users@,
            pagination.page_size as int,
            pagination.offset as int,
        )),
{
    if pagination.page_size < 0 || pagination.offset < 0 {
        return Err(Error::BadRequest("invalid-pagination".to_string()));
    }
    match outcome {
        Some(e) => {
            return Err(e);
        },
        None => {},
    }
    let page_size = pagination.page_size as usize;
    let offset = pagination.offset as usize;
    let mut items: Vec<User> = Vec::new();
    if offset >= db.users.len() || page_size == 0 {
        proof {
            assert(page_spec(db.users@, pagination.page_size as int, pagination.offset as int)
                =~= Seq::<User>::empty());
        }
        return Ok(items);
    }
    let mut i: usize = offset;
    while i < db.users.len() && items.len() < page_size
        invariant
            offset <= i <= db.users@.len(),
            offset < db.users@.len(),
            page_size >= 1,
            i - offset <= page_size,
            items@ == db.users@.subrange(offset as int, i as int),
        decreases db.users@.len() - i,
    {
        let u = db.users[i].clone();
        items.push(u);
        proof {
            assert(db.users@.subrange(offset as int, i as int + 1) =~= db.users@.subrange(
                offset as int,
                i as int,
            ).push(db.users@[i as int]));
        }
        i += 1;
    }
    proof {
        assert(items@ =~= page_spec(
            db.users@,
            pagination.page_size as int,
            pagination.offset as int,
        ));
    }
    Ok(items)
}

impl NewUser {
    /// Validates the email format, then persists a new user under a
    /// freshly drawn id and returns the persisted entity; the submitted
    /// password is not part of the persisted user. A malformed email is
    /// rejected before anything is persisted. The id is drawn at random;
    /// in the unlikely case that it collides with an existing row the
    /// insert is refused as a duplication failure and the store is left
    /// unchanged.
    pub fn add_user(self, db: &mut Database, outcome: Option<Error>) -> (r: Result<User, Error>)
        requires
            old(db).wf(),
        ensures
            final(db).wf(),
            final(db).teams@ == old(db).teams@,
            final(db).auth_users@ == old(db).auth_users@,
            final(db).members@ == old(db).members@,
            !is_email(self.email@) ==> (r matches Err(e) && e matches Error::BadRequest(s) && s@
                == "email-format-error"@ && final(db).users@ == old(db).users@),
            is_email(self.email@) ==> (outcome matches Some(e) ==> r == Err::<User, Error>(e)
                && final(db).users@ == old(db).users@),
            is_email(self.email@) && outcome is None ==> match r {
                Ok(u) => {
                    &&& u.email == self.email
                    &&& u.name == self.name
                    &&& !exists_where(old(db).users@, user_with_id(u.id))
                    &&& final(db).users@ == old(db).users@.push(u)
                },
                Err(e) => e == Error::DuplicationError && final(db).users@ == old(db).users@,
            },
    {
        if !email_format_ok(self.email.as_str()) {
            return Err(Error::BadRequest("email-format-error".to_string()));
        }
        match outcome {
            Some(e) => {
                return Err(e);
            },
            None => {},
        }
        let id = fresh_id();
        match find_user_index(&db.users, id) {
            Some(_) => Err(Error::DuplicationError),
            None => {
                let user = User { id, email: self.email, name: self.name };
                let persisted = user.clone();
                db.users.push(persisted);
                proof {
                    lemma_push_fresh_keeps_unique(old(db).users@, db.users@, id);
                }
                Ok(user)
            },
        }
    }
}

/// Pushing one row whose id is absent keeps the table's ids unique.
proof fn lemma_push_fresh_keeps_unique(rows: Seq<User>, pushed: Seq<User>, id: u128)
    requires
        unique_user_ids(rows),
        !exists_where(rows, user_with_id(id)),
        pushed.len() == rows.len() + 1,
        forall|j: int| 0 <= j < rows.len() ==> pushed[j] == rows[j],
        pushed[rows.len() as int].id == id,
    ensures
        unique_user_ids(pushed),
{
    assert forall|a: int, b: int| 0 <= a < b < pushed.len() implies pushed[a].id != pushed[b].id by {
        if b < rows.len() {
        } else {
            assert(pushed[a] == rows[a]);
            if rows[a].id == id {
                assert(user_with_id(id)(rows[a]));
                assert(exists_where(rows, user_with_id(id)));
            }
        }
    }
}

} // verus!
