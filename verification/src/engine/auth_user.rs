//! Auth-user operations against the store: count, paginated list, insert
//! (single and bulk), delete (single and all), and lookup by id. Auth
//! users are the primary entities of the cascading-delete relationship.
//!
//! Every fallible statement takes the persistence layer's verdict for
//! that statement as an `outcome` argument: `None` means the statement
//! was carried out, `Some` carries the failure the layer reported. A
//! failed statement leaves the store unchanged.

use vstd::prelude::*;

use crate::db::{auth_user_with_id, unique_auth_user_ids, Database};
use crate::dto::{page_spec, PaginationDTO};
use crate::error::Error;
use crate::model::{email_format_ok, fresh_id, is_email, AuthUser, NewUser};
use crate::rows::{
    exists_where, find_first_where, lemma_find_first_at, lemma_find_first_none,
    lemma_remove_first_absent, lemma_remove_first_at, lemma_remove_first_none_left,
    remove_first_where,
};

verus! {

/// The index of the first auth-user row with the given id, if any.
pub(crate) fn find_auth_user_index(rows: &Vec<AuthUser>, id: u128) -> (r: Option<usize>)
    ensures
        match r {
            Some(i) => i < rows@.len() && rows@[i as int].id == id && (forall|j: int|
                0 <= j < i ==> rows@[j].id != id),
            None => !exists_where(rows@, auth_user_with_id(id)),
        },
{
    let mut i: usize = 0;
    while i < rows.len()
        invariant
            i <= rows@.len(),
            forall|j: int| 0 <= j < i ==> rows@[j].id != id,
        decreases rows@.len() - i,
    {
        if rows[i].id == id {
            return Some(i);
        }
        i += 1;
    }
    proof {
        assert forall|k: int| !(0 <= k < rows@.len() && auth_user_with_id(id)(rows@[k])) by {
            if 0 <= k < rows@.len() {
                assert(rows@[k].id != id);
            }
        }
    }
    None
}

/// Total number of auth users, counted independently of any page bounds.
pub fn count_auth_users(db: &Database, outcome: Option<Error>) -> (r: Result<i64, Error>)
    requires
        db.auth_users@.len() <= i64::MAX,
    ensures
        outcome matches Some(e) ==> r == Err::<i64, Error>(e),
        outcome is None ==> r == Ok::<i64, Error>(db.auth_users@.len() as i64),
{
    match outcome {
        Some(e) => Err(e),
        None => Ok(db.auth_users.len() as i64),
    }
}

/// The page of auth users selected by the pagination request, in table
/// order. A request with a negative bound is rejected as a bad request.
pub fn list_all_auth_users(pagination: &PaginationDTO, db: &Database, outcome: Option<Error>) -> (r:
    Result<Vec<AuthUser>, Error>)
    ensures
        !pagination.valid() ==> (r matches Err(e) && e matches Error::BadRequest(s) && s@
            == "invalid-pagination"@),
        pagination.valid() ==> (outcome matches Some(e) ==> r == Err::<Vec<AuthUser>, Error>(e)),
        pagination.valid() && outcome is None ==> (r matches Ok(items) && items@ == page_spec(
            db.auth_users@,
            pagination.page_size as int,
            pagination.offset as int,
        )),
{
    if pagination.page_size < 0 || pagination.offset < 0 {
        return Err(Error::BadRequest("invalid-pagination".to_string()));
    }
    match outcome {
        Some(e) => {
            return Err(e);
        },
        None => {},
    }
    let page_size = pagination.page_size as usize;
    let offset = pagination.offset as usize;
    let mut items: Vec<AuthUser> = Vec::new();
    if offset >= db.auth_users.len() || page_size == 0 {
        proof {
            assert(page_spec(db.auth_users@, pagination.page_size as int, pagination.offset as int)
                =~= Seq::<AuthUser>::empty());
        }
        return Ok(items);
    }
    let mut i: usize = offset;
    while i < db.auth_users.len() && items.len() < page_size
        invariant
            offset <= i <= db.auth_users@.len(),
            offset < db.auth_users@.len(),
            page_size >= 1,
            i - offset <= page_size,
            items@ == db.auth_users@.subrange(offset as int, i as int),
        decreases db.auth_users@.len() - i,
    {
        let u = db.auth_users[i].clone();
        items.push(u);
        proof {
            assert(db.auth_users@.subrange(offset as int, i as int + 1) =~= db.auth_users@.subrange(
                offset as int,
                i as int,
            ).push(db.auth_users@[i as int]));
        }
        i += 1;
    }
    proof {
        assert(items@ =~= page_spec(
            db.auth_users@,
            pagination.page_size as int,
            pagination.offset as int,
        ));
    }
    Ok(items)
}

impl NewUser {
    /// Validates the email format, then persists a new auth user under a
    /// freshly drawn id and returns the persisted entity. A malformed
    /// email is rejected before anything is persisted. The id is drawn at
    /// random; in the unlikely case that it collides with an existing row
    /// the insert is refused as a duplication failure and the store is
    /// left unchanged.
    pub fn add_auth_user(self, db: &mut Database, outcome: Option<Error>) -> (r: Result<
        AuthUser,
        Error,
    >)
        requires
            old(db).wf(),
        ensures
            final(db).wf(),
            final(db).teams@ == old(db).teams@,
            final(db).users@ == old(db).users@,
            final(db).members@ == old(db).members@,
            !is_email(self.email@) ==> (r matches Err(e) && e matches Error::BadRequest(s) && s@
                == "email-format-error"@ && final(db).auth_users@ == old(db).auth_users@),
            is_email(self.email@) ==> (outcome matches Some(e) ==> r == Err::<AuthUser, Error>(e)
                && final(db).auth_users@ == old(db).auth_users@),
            is_email(self.email@) && outcome is None ==> match r {
                Ok(u) => {
                    &&& u.email == self.email
                    &&& u.name == self.name
                    &&& u.password == self.password
                    &&& !exists_where(old(db).auth_users@, auth_user_with_id(u.id))
                    &&& final(db).auth_users@ == old(db).auth_users@.push(u)
                },
                Err(e) => e == Error::DuplicationError && final(db).auth_users@ == old(
                    db,
                ).auth_users@,
            },
    {
        if !email_format_ok(self.email.as_str()) {
            return Err(Error::BadRequest("email-format-error".to_string()));
        }
        match outcome {
            Some(e) => {
                return Err(e);
            },
            None => {},
        }
        let id = fresh_id();
        match find_auth_user_index(&db.auth_users, id) {
            Some(_) => Err(Error::DuplicationError),
            None => {
                let user = AuthUser {
                    id,
                    email: self.email,
                    name: self.name,
                    password: self.password,
                };
                let persisted = user.clone();
                db.auth_users.push(persisted);
                proof {
                    lemma_push_fresh_keeps_unique(old(db).auth_users@, db.auth_users@, id);
                }
                Ok(user)
            },
        }
    }
}

/// Pushing one row whose id is absent keeps the table's ids unique.
proof fn lemma_push_fresh_keeps_unique(rows: Seq<AuthUser>, pushed: Seq<AuthUser>, id: u128)
    requires
        unique_auth_user_ids(rows),
        !exists_where(rows, auth_user_with_id(id)),
        pushed.len() == rows.len() + 1,
        forall|j: int| 0 <= j < rows.len() ==> pushed[j] == rows[j],
        pushed[rows.len() as int].id == id,
    ensures
        unique_auth_user_ids(pushed),
{
    assert forall|a: int, b: int| 0 <= a < b < pushed.len() implies pushed[a].id != pushed[b].id by {
        if b < rows.len() {
        } else {
            assert(pushed[a] == rows[a]);
            if rows[a].id == id {
                assert(auth_user_with_id(id)(rows[a]));
                assert(exists_where(rows, auth_user_with_id(id)));
            }
        }
    }
}

/// Whether a batch can be inserted as a whole: its ids are unique among
/// themselves and absent from the table.
pub open spec fn auth_user_batch_insertable(batch: Seq<AuthUser>, rows: Seq<AuthUser>) -> bool {
    unique_auth_user_ids(batch) && (forall|i: int, j: int|
        0 <= i < batch.len() && 0 <= j < rows.len() ==> batch[i].id != rows[j].id)
}

/// Whether the batch can be inserted into the current auth-user table.
fn check_auth_user_batch(batch: &Vec<AuthUser>, rows: &Vec<AuthUser>) -> (r: bool)
    ensures
        r == auth_user_batch_insertable(batch@, rows@),
{
    let mut i: usize = 0;
    while i < batch.len()
        invariant
            i <= batch@.len(),
            forall|a: int, b: int| 0 <= a < b < i ==> batch@[a].id != batch@[b].id,
            forall|a: int, j: int|
                0 <= a < i && 0 <= j < rows@.len() ==> batch@[a].id != rows@[j].id,
        decreases batch@.len() - i,
    {
        match find_auth_user_index(rows, batch[i].id) {
            Some(ix) => {
                proof {
                    assert(batch@[i as int].id == rows@[ix as int].id);
                    assert(!auth_user_batch_insertable(batch@, rows@));
                }
                return false;
            },
            None => {},
        }
        let mut a: usize = 0;
        while a < i
            invariant
                a <= i,
                i < batch@.len(),
                forall|x: int| 0 <= x < a ==> batch@[x].id != batch@[i as int].id,
            decreases i - a,
        {
            if batch[a].id == batch[i].id {
                proof {
                    assert(!unique_auth_user_ids(batch@));
                }
                return false;
            }
            a += 1;
        }
        i += 1;
    }
    true
}

/// Inserts a batch of auth users as a whole, ids included, and returns
/// the persisted rows: this is how a captured set is replayed during
/// compensation. The batch goes in if and only if the statement is
/// carried out and no id in the batch collides, within the batch or with
/// the table; a collision is refused as a duplication failure, leaving
/// the store unchanged.
pub fn insert_bulk_auth_users(auth_users: &Vec<AuthUser>, db: &mut Database, outcome: Option<
    Error,
>) -> (r: Result<Vec<AuthUser>, Error>)
    requires
        old(db).wf(),
    ensures
        final(db).wf(),
        final(db).teams@ == old(db).teams@,
        final(db).users@ == old(db).users@,
        final(db).members@ == old(db).members@,
        outcome matches Some(e) ==> r == Err::<Vec<AuthUser>, Error>(e) && final(db).auth_users@
            == old(db).auth_users@,
        outcome is None ==> if auth_user_batch_insertable(auth_users@, old(db).auth_users@) {
            r matches Ok(inserted) && inserted@ == auth_users@ && final(db).auth_users@ == old(
                db,
            ).auth_users@ + auth_users@
        } else {
            r == Err::<Vec<AuthUser>, Error>(Error::DuplicationError) && final(db).auth_users@
                == old(db).auth_users@
        },
{
    match outcome {
        Some(e) => {
            return Err(e);
        },
        None => {},
    }
    if !check_auth_user_batch(auth_users, &db.auth_users) {
        return Err(Error::DuplicationError);
    }
    let ghost orig = db.auth_users@;
    let mut k: usize = 0;
    while k < auth_users.len()
        invariant
            k <= auth_users@.len(),
            db.auth_users@ == orig + auth_users@.take(k as int),
            db.teams@ == old(db).teams@,
            db.users@ == old(db).users@,
            db.members@ == old(db).members@,
        decreases auth_users@.len() - k,
    {
        db.auth_users.push(auth_users[k].clone());
        proof {
            assert(orig + auth_users@.take(k as int + 1) =~= (orig + auth_users@.take(
                k as int,
            )).push(auth_users@[k as int]));
        }
        k += 1;
    }
    proof {
        assert(auth_users@.take(auth_users@.len() as int) =~= auth_users@);
        assert forall|a: int, b: int| 0 <= a < b < db.auth_users@.len() implies db.auth_users@[a].id
            != db.auth_users@[b].id by {
            if b < orig.len() {
                assert(db.auth_users@[a] == orig[a] && db.auth_users@[b] == orig[b]);
            } else if a < orig.len() {
                assert(db.auth_users@[a] == orig[a]);
                assert(db.auth_users@[b] == auth_users@[b - orig.len()]);
            } else {
                assert(db.auth_users@[a] == auth_users@[a - orig.len()]);
                assert(db.auth_users@[b] == auth_users@[b - orig.len()]);
            }
        }
    }
    let mut inserted: Vec<AuthUser> = Vec::new();
    let mut k2: usize = 0;
    while k2 < auth_users.len()
        invariant
            k2 <= auth_users@.len(),
            inserted@ == auth_users@.take(k2 as int),
        decreases auth_users@.len() - k2,
    {
        inserted.push(auth_users[k2].clone());
        proof {
            assert(auth_users@.take(k2 as int + 1) =~= auth_users@.take(k2 as int).push(
                auth_users@[k2 as int],
            ));
        }
        k2 += 1;
    }
    proof {
        assert(inserted@ =~= auth_users@);
    }
    Ok(inserted)
}

/// Whether at most one auth-user row carries the given id.
pub open spec fn at_most_one_auth_user_id(rows: Seq<AuthUser>, id: u128) -> bool {
    crate::rows::at_most_one_where(rows, auth_user_with_id(id))
}

/// On a table with unique ids, at most one row carries a given id.
proof fn at_most_one_auth_user_id_holds(rows: Seq<AuthUser>, id: u128)
    requires
        unique_auth_user_ids(rows),
    ensures
        at_most_one_auth_user_id(rows, id),
{
    assert forall|i: int, j: int|
        0 <= i < rows.len() && 0 <= j < rows.len() && auth_user_with_id(id)(rows[i])
            && auth_user_with_id(id)(rows[j]) implies i == j by {
        if i < j {
            assert(rows[i].id != rows[j].id);
        } else if j < i {
            assert(rows[j].id != rows[i].id);
        }
    }
}

/// Removing one row keeps the table's ids unique.
proof fn lemma_remove_keeps_unique(rows: Seq<AuthUser>, removed: Seq<AuthUser>, i: int)
    requires
        unique_auth_user_ids(rows),
        0 <= i < rows.len(),
        removed == rows.remove(i),
    ensures
        unique_auth_user_ids(removed),
{
    assert forall|a: int, b: int| 0 <= a < b < removed.len() implies removed[a].id
        != removed[b].id by {
        let oa = if a < i { a } else { a + 1 };
        let ob = if b < i { b } else { b + 1 };
        assert(removed[a] == rows[oa]);
        assert(removed[b] == rows[ob]);
    }
}

/// Removes the auth user with the given id, if it is there: the result
/// says whether a row was removed. Deleting the same id twice returns
/// `true` then `false`: after the first call no row with the id remains.
pub fn delete_auth_user_by_id(auth_user_id: &u128, db: &mut Database) -> (r: bool)
    requires
        old(db).wf(),
    ensures
        final(db).wf(),
        final(db).teams@ == old(db).teams@,
        final(db).users@ == old(db).users@,
        final(db).members@ == old(db).members@,
        r == exists_where(old(db).auth_users@, auth_user_with_id(*auth_user_id)),
        final(db).auth_users@ == remove_first_where(
            old(db).auth_users@,
            auth_user_with_id(*auth_user_id),
        ),
        !exists_where(final(db).auth_users@, auth_user_with_id(*auth_user_id)),
{
    proof {
        at_most_one_auth_user_id_holds(old(db).auth_users@, *auth_user_id);
        lemma_remove_first_none_left(old(db).auth_users@, auth_user_with_id(*auth_user_id));
    }
    match find_auth_user_index(&db.auth_users, *auth_user_id) {
        Some(i) => {
            proof {
                assert(auth_user_with_id(*auth_user_id)(db.auth_users@[i as int]));
                lemma_remove_first_at(db.auth_users@, auth_user_with_id(*auth_user_id), i as int);
            }
            let _ = db.auth_users.remove(i);
            proof {
                lemma_remove_keeps_unique(old(db).auth_users@, db.auth_users@, i as int);
            }
            true
        },
        None => {
            proof {
                lemma_remove_first_absent(db.auth_users@, auth_user_with_id(*auth_user_id));
            }
            false
        },
    }
}

/// Empties the auth-user table and returns the removed rows, in table
/// order, so that the caller can replay them if a later step fails.
pub fn delete_all_auth_users(db: &mut Database, outcome: Option<Error>) -> (r: Result<
    Vec<AuthUser>,
    Error,
>)
    requires
        old(db).wf(),
    ensures
        final(db).wf(),
        final(db).teams@ == old(db).teams@,
        final(db).users@ == old(db).users@,
        final(db).members@ == old(db).members@,
        outcome matches Some(e) ==> r == Err::<Vec<AuthUser>, Error>(e) && final(db).auth_users@
            == old(db).auth_users@,
        outcome is None ==> (r matches Ok(deleted) && deleted@ == old(db).auth_users@
            && final(db).auth_users@ == Seq::<AuthUser>::empty()),
{
    match outcome {
        Some(e) => {
            return Err(e);
        },
        None => {},
    }
    let deleted = db.auth_users.clone();
    proof {
        assert forall|k: int| 0 <= k < deleted@.len() implies deleted@[k] == db.auth_users@[k] by {
            assert(vstd::pervasive::cloned(db.auth_users@[k], deleted@[k]));
        }
        assert(deleted@ =~= db.auth_users@);
    }
    db.auth_users.clear();
    Ok(deleted)
}

/// Looks an auth user up by id: the found row, or a not-found persistence
/// failure when no row carries the id.
pub fn find_auth_user_by_id(auth_user_id: &u128, db: &Database, outcome: Option<Error>) -> (r:
    Result<AuthUser, Error>)
    ensures
        outcome matches Some(e) ==> r == Err::<AuthUser, Error>(e),
        outcome is None ==> match find_first_where(
            db.auth_users@,
            auth_user_with_id(*auth_user_id),
        ) {
            Some(u) => r == Ok::<AuthUser, Error>(u),
            None => r == Err::<AuthUser, Error>(
                Error::DBError(crate::error::PersistenceError::NotFound),
            ),
        },
{
    match outcome {
        Some(e) => {
            return Err(e);
        },
        None => {},
    }
    match find_auth_user_index(&db.auth_users, *auth_user_id) {
        Some(i) => {
            proof {
                assert(auth_user_with_id(*auth_user_id)(db.auth_users@[i as int]));
                lemma_find_first_at(db.auth_users@, auth_user_with_id(*auth_user_id), i as int);
            }
            Ok(db.auth_users[i].clone())
        },
        None => {
            proof {
                assert forall|j: int| 0 <= j < db.auth_users@.len() implies !auth_user_with_id(
                    *auth_user_id,
                )(db.auth_users@[j]) by {
                    if auth_user_with_id(*auth_user_id)(db.auth_users@[j]) {
                        assert(exists_where(db.auth_users@, auth_user_with_id(*auth_user_id)));
                    }
                }
                lemma_find_first_none(db.auth_users@, auth_user_with_id(*auth_user_id));
            }
            Err(Error::DBError(crate::error::PersistenceError::NotFound))
        },
    }
}

} // verus!
