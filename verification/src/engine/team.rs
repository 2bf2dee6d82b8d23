//! Team operations against the store: count, paginated list, insert
//! (single and bulk), delete (single and all), and lookup by id.
//!
//! Every fallible statement takes the persistence layer's verdict for
//! that statement as an `outcome` argument: `None` means the statement
//! was carried out, `Some` carries the failure the layer reported. A
//! failed statement leaves the store unchanged.

use vstd::prelude::*;

use crate::db::{team_with_id, unique_team_ids, Database};
use crate::dto::{page_spec, PaginationDTO};
use crate::error::Error;
use crate::model::{fresh_id, NewTeam, Team};
use crate::rows::{
    exists_where, find_first_where, lemma_find_first_at, lemma_find_first_none,
    lemma_remove_first_absent, lemma_remove_first_at, lemma_remove_first_none_left,
    remove_first_where,
};

verus! {

/// The index of the first team row with the given id, if any.
pub(crate) fn find_team_index(rows: &Vec<Team>, id: u128) -> (r: Option<usize>)
    ensures
        match r {
            Some(i) => i < rows@.len() && rows@[i as int].id == id && (forall|j: int|
                0 <= j < i ==> rows@[j].id != id),
            None => !exists_where(rows@, team_with_id(id)),
        },
{
    let mut i: usize = 0;
    while i < rows.len()
        invariant
            i <= rows@.len(),
            forall|j: int| 0 <= j < i ==> rows@[j].id != id,
        decreases rows@.len() - i,
    {
        if rows[i].id == id {
            return Some(i);
        }
        i += 1;
    }
    proof {
        assert forall|k: int| !(0 <= k < rows@.len() && team_with_id(id)(rows@[k])) by {
            if 0 <= k < rows@.len() {
                assert(rows@[k].id != id);
            }
        }
    }
    None
}

/// Total number of teams, counted independently of any page bounds.
pub fn count_teams(db: &Database, outcome: Option<Error>) -> (r: Result<i64, Error>)
    requires
        db.teams@.len() <= i64::MAX,
    ensures
        outcome matches Some(e) ==> r == Err::<i64, Error>(e),
        outcome is None ==> r == Ok::<i64, Error>(db.teams@.len() as i64),
{
    match outcome {
        Some(e) => Err(e),
        None => Ok(db.teams.len() as i64),
    }
}

/// The page of teams selected by the pagination request, in table order.
/// A request with a negative bound is rejected as a bad request.
pub fn list_all_teams(pagination: &PaginationDTO, db: &Database, outcome: Option<Error>) -> (r:
    Result<Vec<Team>, Error>)
    ensures
        !pagination.valid() ==> (r matches Err(e) && e matches Error::BadRequest(s) && s@
            == "invalid-pagination"@),
        pagination.valid() ==> (outcome matches Some(e) ==> r == Err::<Vec<Team>, Error>(e)),
        pagination.valid() && outcome is None ==> (r matches Ok(items) && items@ == page_spec(
            db.teams@,
            pagination.page_size as int,
            pagination.offset as int,
        )),
{
    if pagination.page_size < 0 || pagination.offset < 0 {
        return Err(Error::BadRequest("invalid-pagination".to_string()));
    }
    match outcome {
        Some(e) => {
            return Err(e);
        },
        None => {},
    }
    let page_size = pagination.page_size as usize;
    let offset = pagination.offset as usize;
    let mut items: Vec<Team> = Vec::new();
    if offset >= db.teams.len() || page_size == 0 {
        proof {
            assert(page_spec(db.teams@, pagination.page_size as int, pagination.offset as int)
                =~= Seq::<Team>::empty());
        }
        return Ok(items);
    }
    let mut i: usize = offset;
    while i < db.teams.len() && items.len() < page_size
        invariant
            offset <= i <= db.teams@.len(),
            offset < db.teams@.len(),
            page_size >= 1,
            i - offset <= page_size,
            items@ == db.teams@.subrange(offset as int, i as int),
        decreases db.teams@.len() - i,
    {
        let t = db.teams[i].clone();
        items.push(t);
        proof {
            assert(db.teams@.subrange(offset as int, i as int + 1) =~= db.teams@.subrange(
                offset as int,
                i as int,
            ).push(db.teams@[i as int]));
        }
        i += 1;
    }
    proof {
        assert(items@ =~= page_spec(
            db.teams@,
            pagination.page_size as int,
            pagination.offset as int,
        ));
    }
    Ok(items)
}

impl NewTeam {
    /// Persists a new team under a freshly drawn id and returns the
    /// persisted entity. The id is drawn at random; in the unlikely case
    /// that it collides with an existing row the insert is refused as a
    /// duplication failure and the store is left unchanged.
    pub fn insert_team(self, db: &mut Database, outcome: Option<Error>) -> (r: Result<Team, Error>)
        requires
            old(db).wf(),
        ensures
            final(db).wf(),
            final(db).auth_users@ == old(db).auth_users@,
            final(db).users@ == old(db).users@,
            final(db).members@ == old(db).members@,
            outcome matches Some(e) ==> r == Err::<Team, Error>(e) && final(db).teams@ == old(
                db,
            ).teams@,
            outcome is None ==> match r {
                Ok(t) => {
                    &&& t.name == self.name
                    &&& t.description == self.description
                    &&& !exists_where(old(db).teams@, team_with_id(t.id))
                    &&& final(db).teams@ == old(db).teams@.push(t)
                },
                Err(e) => e == Error::DuplicationError && final(db).teams@ == old(db).teams@,
            },
    {
        match outcome {
            Some(e) => {
                return Err(e);
            },
            None => {},
        }
        let id = fresh_id();
        match find_team_index(&db.teams, id) {
            Some(_) => Err(Error::DuplicationError),
            None => {
                let team = Team { id, name: self.name, description: self.description };
                let persisted = team.clone();
                db.teams.push(persisted);
                proof {
                    lemma_push_fresh_keeps_unique(old(db).teams@, db.teams@, id);
                }
                Ok(team)
            },
        }
    }
}

/// Pushing one row whose id is absent keeps the table's ids unique.
proof fn lemma_push_fresh_keeps_unique(rows: Seq<Team>, pushed: Seq<Team>, id: u128)
    requires
        unique_team_ids(rows),
        !exists_where(rows, team_with_id(id)),
        pushed.len() == rows.len() + 1,
        forall|j: int| 0 <= j < rows.len() ==> pushed[j] == rows[j],
        pushed[rows.len() as int].id == id,
    ensures
        unique_team_ids(pushed),
{
    assert forall|a: int, b: int| 0 <= a < b < pushed.len() implies pushed[a].id != pushed[b].id by {
        if b < rows.len() {
        } else {
            assert(pushed[a] == rows[a]);
            if rows[a].id == id {
                assert(team_with_id(id)(rows[a]));
                assert(exists_where(rows, team_with_id(id)));
            }
        }
    }
}

/// Whether a batch can be inserted as a whole: its ids are unique among
/// themselves and absent from the table.
pub open spec fn team_batch_insertable(batch: Seq<Team>, rows: Seq<Team>) -> bool {
    unique_team_ids(batch) && (forall|i: int, j: int|
        0 <= i < batch.len() && 0 <= j < rows.len() ==> batch[i].id != rows[j].id)
}

/// Whether the batch can be inserted into the current team table.
fn check_team_batch(batch: &Vec<Team>, rows: &Vec<Team>) -> (r: bool)
    ensures
        r == team_batch_insertable(batch@, rows@),
{
    let mut i: usize = 0;
    while i < batch.len()
        invariant
            i <= batch@.len(),
            forall|a: int, b: int| 0 <= a < b < i ==> batch@[a].id != batch@[b].id,
            forall|a: int, j: int|
                0 <= a < i && 0 <= j < rows@.len() ==> batch@[a].id != rows@[j].id,
        decreases batch@.len() - i,
    {
        match find_team_index(rows, batch[i].id) {
            Some(ix) => {
                proof {
                    assert(batch@[i as int].id == rows@[ix as int].id);
                    assert(!team_batch_insertable(batch@, rows@));
                }
                return false;
            },
            None => {},
        }
        let mut a: usize = 0;
        while a < i
            invariant
                a <= i,
                i < batch@.len(),
                forall|x: int| 0 <= x < a ==> batch@[x].id != batch@[i as int].id,
            decreases i - a,
        {
            if batch[a].id == batch[i].id {
                proof {
                    assert(!unique_team_ids(batch@));
                }
                return false;
            }
            a += 1;
        }
        i += 1;
    }
    true
}

/// Inserts a batch of teams as a whole and returns the persisted rows.
/// The batch goes in if and only if the statement is carried out and no
/// id in the batch collides, within the batch or with the table; a
/// collision is refused as a duplication failure, leaving the store
/// unchanged.
pub fn insert_bulk_team(teams: &Vec<Team>, db: &mut Database, outcome: Option<Error>) -> (r: Result<
    Vec<Team>,
    Error,
>)
    requires
        old(db).wf(),
    ensures
        final(db).wf(),
        final(db).auth_users@ == old(db).auth_users@,
        final(db).users@ == old(db).users@,
        final(db).members@ == old(db).members@,
        outcome matches Some(e) ==> r == Err::<Vec<Team>, Error>(e) && final(db).teams@ == old(
            db,
        ).teams@,
        outcome is None ==> if team_batch_insertable(teams@, old(db).teams@) {
            r matches Ok(inserted) && inserted@ == teams@ && final(db).teams@ == old(db).teams@
                + teams@
        } else {
            r == Err::<Vec<Team>, Error>(Error::DuplicationError) && final(db).teams@ == old(
                db,
            ).teams@
        },
{
    match outcome {
        Some(e) => {
            return Err(e);
        },
        None => {},
    }
    if !check_team_batch(teams, &db.teams) {
        return Err(Error::DuplicationError);
    }
    let ghost orig = db.teams@;
    let mut k: usize = 0;
    while k < teams.len()
        invariant
            k <= teams@.len(),
            db.teams@ == orig + teams@.take(k as int),
            db.auth_users@ == old(db).auth_users@,
            db.users@ == old(db).users@,
            db.members@ == old(db).members@,
        decreases teams@.len() - k,
    {
        db.teams.push(teams[k].clone());
        proof {
            assert(orig + teams@.take(k as int + 1) =~= (orig + teams@.take(k as int)).push(
                teams@[k as int],
            ));
        }
        k += 1;
    }
    proof {
        assert(teams@.take(teams@.len() as int) =~= teams@);
        assert forall|a: int, b: int| 0 <= a < b < db.teams@.len() implies db.teams@[a].id
            != db.teams@[b].id by {
            if b < orig.len() {
                assert(db.teams@[a] == orig[a] && db.teams@[b] == orig[b]);
            } else if a < orig.len() {
                assert(db.teams@[a] == orig[a]);
                assert(db.teams@[b] == teams@[b - orig.len()]);
            } else {
                assert(db.teams@[a] == teams@[a - orig.len()]);
                assert(db.teams@[b] == teams@[b - orig.len()]);
            }
        }
    }
    let mut inserted: Vec<Team> = Vec::new();
    let mut k2: usize = 0;
    while k2 < teams.len()
        invariant
            k2 <= teams@.len(),
            inserted@ == teams@.take(k2 as int),
        decreases teams@.len() - k2,
    {
        inserted.push(teams[k2].clone());
        proof {
            assert(teams@.take(k2 as int + 1) =~= teams@.take(k2 as int).push(teams@[k2 as int]));
        }
        k2 += 1;
    }
    proof {
        assert(inserted@ =~= teams@);
    }
    Ok(inserted)
}

/// Removes the team with the given id, if it is there: the result says
/// whether a row was removed. Deleting the same id twice returns `true`
/// then `false`: after the first call no row with the id remains.
pub fn delete_team_by_id(team_id: &u128, db: &mut Database) -> (r: bool)
    requires
        old(db).wf(),
    ensures
        final(db).wf(),
        final(db).auth_users@ == old(db).auth_users@,
        final(db).users@ == old(db).users@,
        final(db).members@ == old(db).members@,
        r == exists_where(old(db).teams@, team_with_id(*team_id)),
        final(db).teams@ == remove_first_where(old(db).teams@, team_with_id(*team_id)),
        !exists_where(final(db).teams@, team_with_id(*team_id)),
{
    proof {
        at_most_one_team_id_holds(old(db).teams@, *team_id);
        lemma_remove_first_none_left(old(db).teams@, team_with_id(*team_id));
    }
    match find_team_index(&db.teams, *team_id) {
        Some(i) => {
            proof {
                assert(team_with_id(*team_id)(db.teams@[i as int]));
                lemma_remove_first_at(db.teams@, team_with_id(*team_id), i as int);
            }
            let _ = db.teams.remove(i);
            proof {
                lemma_remove_keeps_unique(old(db).teams@, db.teams@, i as int);
            }
            true
        },
        None => {
            proof {
                lemma_remove_first_absent(db.teams@, team_with_id(*team_id));
            }
            false
        },
    }
}

/// On a table with unique ids, at most one row carries a given id.
proof fn at_most_one_team_id_holds(rows: Seq<Team>, id: u128)
    requires
        unique_team_ids(rows),
    ensures
        at_most_one_team_id(rows, id),
{
    assert forall|i: int, j: int|
        0 <= i < rows.len() && 0 <= j < rows.len() && team_with_id(id)(rows[i]) && team_with_id(
            id,
        )(rows[j]) implies i == j by {
        if i < j {
            assert(rows[i].id != rows[j].id);
        } else if j < i {
            assert(rows[j].id != rows[i].id);
        }
    }
}

/// Whether at most one team row carries the given id.
pub open spec fn at_most_one_team_id(rows: Seq<Team>, id: u128) -> bool {
    crate::rows::at_most_one_where(rows, team_with_id(id))
}

/// Removing one row keeps the table's ids unique.
proof fn lemma_remove_keeps_unique(rows: Seq<Team>, removed: Seq<Team>, i: int)
    requires
        unique_team_ids(rows),
        0 <= i < rows.len(),
        removed == rows.remove(i),
    ensures
        unique_team_ids(removed),
{
    assert forall|a: int, b: int| 0 <= a < b < removed.len() implies removed[a].id
        != removed[b].id by {
        let oa = if a < i { a } else { a + 1 };
        let ob = if b < i { b } else { b + 1 };
        assert(removed[a] == rows[oa]);
        assert(removed[b] == rows[ob]);
    }
}

/// Empties the team table and returns the removed rows, in table order,
/// so that a caller can replay them.
pub fn delete_all_teams(db: &mut Database, outcome: Option<Error>) -> (r: Result<Vec<Team>, Error>)
    requires
        old(db).wf(),
    ensures
        final(db).wf(),
        final(db).auth_users@ == old(db).auth_users@,
        final(db).users@ == old(db).users@,
        final(db).members@ == old(db).members@,
        outcome matches Some(e) ==> r == Err::<Vec<Team>, Error>(e) && final(db).teams@ == old(
            db,
        ).teams@,
        outcome is None ==> (r matches Ok(deleted) && deleted@ == old(db).teams@
            && final(db).teams@ == Seq::<Team>::empty()),
{
    match outcome {
        Some(e) => {
            return Err(e);
        },
        None => {},
    }
    let deleted = db.teams.clone();
    proof {
        assert forall|k: int| 0 <= k < deleted@.len() implies deleted@[k] == db.teams@[k] by {
            assert(vstd::pervasive::cloned(db.teams@[k], deleted@[k]));
        }
        assert(deleted@ =~= db.teams@);
    }
    db.teams.clear();
    Ok(deleted)
}

/// Looks a team up by id: the found row, or a not-found persistence
/// failure when no row carries the id.
pub fn find_team_by_id(team_id: &u128, db: &Database, outcome: Option<Error>) -> (r: Result<
    Team,
    Error,
>)
    ensures
        outcome matches Some(e) ==> r == Err::<Team, Error>(e),
        outcome is None ==> match find_first_where(db.teams@, team_with_id(*team_id)) {
            Some(t) => r == Ok::<Team, Error>(t),
            None => r == Err::<Team, Error>(
                Error::DBError(crate::error::PersistenceError::NotFound),
            ),
        },
{
    match outcome {
        Some(e) => {
            return Err(e);
        },
        None => {},
    }
    match find_team_index(&db.teams, *team_id) {
        Some(i) => {
            proof {
                assert(team_with_id(*team_id)(db.teams@[i as int]));
                lemma_find_first_at(db.teams@, team_with_id(*team_id), i as int);
            }
            Ok(db.teams[i].clone())
        },
        None => {
            proof {
                assert forall|j: int| 0 <= j < db.teams@.len() implies !team_with_id(*team_id)(
                    db.teams@[j],
                ) by {
                    if team_with_id(*team_id)(db.teams@[j]) {
                        assert(exists_where(db.teams@, team_with_id(*team_id)));
                    }
                }
                lemma_find_first_none(db.teams@, team_with_id(*team_id));
            }
            Err(Error::DBError(crate::error::PersistenceError::NotFound))
        },
    }
}

} // verus!
