//! Member operations against the store. Members are the dependent
//! entities of the cascading-delete relationship; within this scope the
//! only statement against them removes them all.
//!
//! The fallible statement takes the persistence layer's verdict as an
//! `outcome` argument: `None` means the statement was carried out, `Some`
//! carries the failure the layer reported. A failed statement leaves the
//! store unchanged.

use vstd::prelude::*;

use crate::db::Database;
use crate::error::Error;
use crate::model::Member;

verus! {

/// Empties the member table and returns the removed rows, in table order.
pub fn delete_all_members(db: &mut Database, outcome: Option<Error>) -> (r: Result<
    Vec<Member>,
    Error,
>)
    requires
        old(db).wf(),
    ensures
        final(db).wf(),
        final(db).teams@ == old(db).teams@,
        final(db).users@ == old(db).users@,
        final(db).auth_users@ == old(db).auth_users@,
        outcome matches Some(e) ==> r == Err::<Vec<Member>, Error>(e) && final(db).members@ == old(
            db,
        ).members@,
        outcome is None ==> (r matches Ok(deleted) && deleted@ == old(db).members@
            && final(db).members@ == Seq::<Member>::empty()),
{
    match outcome {
        Some(e) => {
            return Err(e);
        },
        None => {},
    }
    let deleted = db.members.clone();
    proof {
        assert forall|k: int| 0 <= k < deleted@.len() implies deleted@[k] == db.members@[k] by {
            assert(vstd::pervasive::cloned(db.members@[k], deleted@[k]));
        }
        assert(deleted@ =~= db.members@);
    }
    db.members.clear();
    Ok(deleted)
}

} // verus!
