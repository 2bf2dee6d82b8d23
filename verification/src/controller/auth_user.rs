//! The auth-user operations as the transport layer invokes them,
//! including the one multi-step workflow in the core: the cascading
//! delete of all auth users with a compensating reinsert on partial
//! failure.

use vstd::prelude::*;

use crate::db::{auth_user_with_id, Database};
use crate::dto::{page_spec, PaginatedResponseDTO, PaginationDTO, SuccessResponse};
use crate::engine::auth_user::{
    auth_user_batch_insertable, count_auth_users, delete_all_auth_users, delete_auth_user_by_id,
    find_auth_user_by_id, insert_bulk_auth_users, list_all_auth_users,
};
use crate::engine::member::delete_all_members;
use crate::error::{classified, codes_view, Error, ErrorCodesWrapper, ServerErrorResponse};
use crate::model::{is_email, AuthUser, Member, NewUser};
use crate::rows::{exists_where, find_first_where, remove_first_where};

verus! {

/// Lists auth users: first the total count, then the page the request
/// selects; the count is computed independently of the page bounds. If
/// counting fails, the page is never fetched and the count failure is
/// surfaced; if listing fails, the listing failure is surfaced.
pub fn list_auth_users_api(
    pagination: &PaginationDTO,
    db: &Database,
    count_outcome: Option<Error>,
    list_outcome: Option<Error>,
) -> (r: Result<SuccessResponse<PaginatedResponseDTO<AuthUser>>, ServerErrorResponse>)
    requires
        db.auth_users@.len() <= i64::MAX,
    ensures
        count_outcome matches Some(e) ==> (r matches Err(resp) && classified(e, resp)),
        count_outcome is None && !pagination.valid() ==> (r matches Err(resp) && resp
            matches ServerErrorResponse::BadReq(cs) && codes_view(cs@) == seq![
            "invalid-pagination"@,
        ]),
        count_outcome is None && pagination.valid() ==> (list_outcome matches Some(e) ==> (r
            matches Err(resp) && classified(e, resp))),
        count_outcome is None && pagination.valid() && list_outcome is None ==> (r matches Ok(s) && {
            &&& s.message@ == "Successfully retrieved all auth users."@
            &&& s.data.count == db.auth_users@.len() as i64
            &&& s.data.paginated_list@ == page_spec(
                db.auth_users@,
                pagination.page_size as int,
                pagination.offset as int,
            )
            &&& s.data.paginated_list@.len() <= pagination.page_size
        }),
{
    let count = match count_auth_users(db, count_outcome) {
        Ok(c) => c,
        Err(e) => {
            return Err(ServerErrorResponse::classify(e));
        },
    };
    match list_all_auth_users(pagination, db, list_outcome) {
        Ok(paginated_list) => {
            proof {
                crate::dto::lemma_page_spec_len(
                    db.auth_users@,
                    pagination.page_size as int,
                    pagination.offset as int,
                );
            }
            Ok(
                SuccessResponse {
                    message: "Successfully retrieved all auth users.".to_string(),
                    data: PaginatedResponseDTO { paginated_list, count },
                },
            )
        },
        Err(e) => Err(ServerErrorResponse::classify(e)),
    }
}

/// Creates one auth user from its writable fields and returns the
/// persisted entity in the success envelope. A malformed email is
/// rejected with the email-format code and nothing is persisted.
pub fn insert_auth_user_api(new_user: NewUser, db: &mut Database, outcome: Option<Error>) -> (r:
    Result<SuccessResponse<AuthUser>, ServerErrorResponse>)
    requires
        old(db).wf(),
    ensures
        final(db).wf(),
        final(db).users@ == old(db).users@,
        final(db).teams@ == old(db).teams@,
        final(db).members@ == old(db).members@,
        !is_email(new_user.email@) ==> (r matches Err(resp) && resp
            matches ServerErrorResponse::BadReq(cs) && codes_view(cs@) == seq![
            "email-format-error"@,
        ] && final(db).auth_users@ == old(db).auth_users@),
        is_email(new_user.email@) ==> (outcome matches Some(e) ==> (r matches Err(resp)
            && classified(e, resp) && final(db).auth_users@ == old(db).auth_users@)),
        is_email(new_user.email@) && outcome is None ==> match r {
            Ok(s) => {
                &&& s.message@ == "Successfully added the new Auth User."@
                &&& s.data.email == new_user.email
                &&& s.data.name == new_user.name
                &&& s.data.password == new_user.password
                &&& !exists_where(old(db).auth_users@, auth_user_with_id(s.data.id))
                &&& final(db).auth_users@ == old(db).auth_users@.push(s.data)
            },
            Err(resp) => resp matches ServerErrorResponse::InternalServerError(cs) && codes_view(
                cs@,
            ) == seq!["duplication-error"@] && final(db).auth_users@ == old(db).auth_users@,
        },
{
    match new_user.add_auth_user(db, outcome) {
        Ok(inserted_auth_user) => Ok(
            SuccessResponse {
                message: "Successfully added the new Auth User.".to_string(),
                data: inserted_auth_user,
            },
        ),
        Err(e) => Err(ServerErrorResponse::classify(e)),
    }
}

/// Removes one auth user by id. A missing id is reported as a generic
/// database failure, exactly as a failed delete statement would be.
pub fn remove_auth_user_api(auth_user_id: &u128, db: &mut Database) -> (r: Result<
    SuccessResponse<bool>,
    ServerErrorResponse,
>)
    requires
        old(db).wf(),
    ensures
        final(db).wf(),
        final(db).users@ == old(db).users@,
        final(db).teams@ == old(db).teams@,
        final(db).members@ == old(db).members@,
        final(db).auth_users@ == remove_first_where(
            old(db).auth_users@,
            auth_user_with_id(*auth_user_id),
        ),
        !exists_where(final(db).auth_users@, auth_user_with_id(*auth_user_id)),
        exists_where(old(db).auth_users@, auth_user_with_id(*auth_user_id)) ==> (r matches Ok(s)
            && s.message@ == "Successfully deleted the auth_user."@ && s.data == true),
        !exists_where(old(db).auth_users@, auth_user_with_id(*auth_user_id)) ==> (r
            matches Err(resp) && resp matches ServerErrorResponse::InternalServerError(cs)
            && codes_view(cs@) == seq!["db-error"@]),
{
    if !delete_auth_user_by_id(auth_user_id, db) {
        Err(
            ServerErrorResponse::from_codes(
                ErrorCodesWrapper::from_code("db-error").get_error_codes(),
            ),
        )
    } else {
        Ok(
            SuccessResponse {
                message: "Successfully deleted the auth_user.".to_string(),
                data: true,
            },
        )
    }
}

/// Finds one auth user by id. A missing id is classified as a not-found
/// response carrying the not-found persistence code.
pub fn find_auth_user_by_id_api(auth_user_id: &u128, db: &Database, outcome: Option<Error>) -> (r:
    Result<SuccessResponse<AuthUser>, ServerErrorResponse>)
    ensures
        outcome matches Some(e) ==> (r matches Err(resp) && classified(e, resp)),
        outcome is None ==> match find_first_where(
            db.auth_users@,
            auth_user_with_id(*auth_user_id),
        ) {
            Some(u) => r matches Ok(s) && s.message@ == "Successfully found the Auth User."@
                && s.data == u,
            None => r matches Err(resp) && resp matches ServerErrorResponse::NotFound(c) && c.code@
                == "object-not-found"@,
        },
{
    match find_auth_user_by_id(auth_user_id, db, outcome) {
        Ok(found_auth_user) => Ok(
            SuccessResponse {
                message: "Successfully found the Auth User.".to_string(),
                data: found_auth_user,
            },
        ),
        Err(e) => Err(ServerErrorResponse::classify(e)),
    }
}

/// The terminal states of the delete-all-auth-users workflow.
#[derive(Debug)]
pub enum DeleteAllOutcome {
    /// Both layers were removed.
    Done,
    /// Primary deletion failed: nothing was removed, the carried failure
    /// is surfaced.
    CountError(Error),
    /// Dependent deletion failed and the captured primaries were
    /// reinserted: the store is back in its prior state.
    Compensated,
    /// Dependent deletion failed and the reinsertion failed too: the
    /// primaries are missing while the dependents are intact, and the
    /// reinsertion's own failure is surfaced.
    Uncompensated(Error),
}

/// The cascading delete with compensation: removes all auth users,
/// capturing the removed rows; then removes all members; if the member
/// deletion fails, reinserts the captured rows — ids and fields identical
/// to what was deleted, no id is regenerated — to restore the prior
/// state.
pub fn delete_all_auth_users_workflow(
    db: &mut Database,
    primary_outcome: Option<Error>,
    dependents_outcome: Option<Error>,
    reinsert_outcome: Option<Error>,
) -> (r: DeleteAllOutcome)
    requires
        old(db).wf(),
    ensures
        final(db).wf(),
        final(db).users@ == old(db).users@,
        final(db).teams@ == old(db).teams@,
        primary_outcome matches Some(e) ==> (r == DeleteAllOutcome::CountError(e) && final(db).auth_users@ == old(db).auth_users@ && final(db).members@ == old(db).members@),
        primary_outcome is None && dependents_outcome is None ==> (r == DeleteAllOutcome::Done
            && final(db).auth_users@ == Seq::<AuthUser>::empty() && final(db).members@ == Seq::<
            Member,
        >::empty()),
        primary_outcome is None && dependents_outcome is Some && reinsert_outcome is None ==> (r
            == DeleteAllOutcome::Compensated && final(db).auth_users@ == old(db).auth_users@
            && final(db).members@ == old(db).members@),
        primary_outcome is None && dependents_outcome is Some ==> (reinsert_outcome
            matches Some(e2) ==> (r == DeleteAllOutcome::Uncompensated(e2) && final(db).auth_users@
            == Seq::<AuthUser>::empty() && final(db).members@ == old(db).members@)),
{
    match delete_all_auth_users(db, primary_outcome) {
        Err(e) => DeleteAllOutcome::CountError(e),
        Ok(deleted_auth_users) => {
            match delete_all_members(db, dependents_outcome) {
                Ok(_) => DeleteAllOutcome::Done,
                Err(_) => {
                    proof {
                        assert(auth_user_batch_insertable(deleted_auth_users@, db.auth_users@));
                    }
                    match insert_bulk_auth_users(&deleted_auth_users, db, reinsert_outcome) {
                        Ok(_) => {
                            proof {
                                assert(Seq::<AuthUser>::empty() + deleted_auth_users@ =~= old(
                                    db,
                                ).auth_users@);
                            }
                            DeleteAllOutcome::Compensated
                        },
                        Err(e2) => DeleteAllOutcome::Uncompensated(e2),
                    }
                },
            }
        },
    }
}

/// Removes all auth users and all members, compensating on partial
/// failure: if the member deletion fails after the auth users were
/// removed, the captured auth users are reinserted and the whole
/// operation is reported as a generic database failure, leaving the
/// store as it was; if even the reinsertion fails, that failure is
/// surfaced instead and the auth users stay missing.
pub fn remove_all_auth_users_api(
    db: &mut Database,
    primary_outcome: Option<Error>,
    dependents_outcome: Option<Error>,
    reinsert_outcome: Option<Error>,
) -> (r: Result<SuccessResponse<bool>, ServerErrorResponse>)
    requires
        old(db).wf(),
    ensures
        final(db).wf(),
        final(db).users@ == old(db).users@,
        final(db).teams@ == old(db).teams@,
        primary_outcome matches Some(e) ==> (r matches Err(resp) && classified(e, resp) && final(db).auth_users@ == old(db).auth_users@ && final(db).members@ == old(db).members@),
        primary_outcome is None && dependents_outcome is None ==> (r matches Ok(s) && s.message@
            == "Successfully deleted all auth_users."@ && s.data == true && final(db).auth_users@
            == Seq::<AuthUser>::empty() && final(db).members@ == Seq::<Member>::empty()),
        primary_outcome is None && dependents_outcome is Some && reinsert_outcome is None ==> (r
            matches Err(resp) && resp matches ServerErrorResponse::InternalServerError(cs)
            && codes_view(cs@) == seq!["db-error"@] && final(db).auth_users@ == old(db).auth_users@
            && final(db).members@ == old(db).members@),
        primary_outcome is None && dependents_outcome is Some ==> (reinsert_outcome
            matches Some(e2) ==> (r matches Err(resp) && classified(e2, resp) && final(db).auth_users@ == Seq::<AuthUser>::empty() && final(db).members@ == old(db).members@)),
{
    match delete_all_auth_users_workflow(db, primary_outcome, dependents_outcome, reinsert_outcome) {
        DeleteAllOutcome::Done => Ok(
            SuccessResponse {
                message: "Successfully deleted all auth_users.".to_string(),
                data: true,
            },
        ),
        DeleteAllOutcome::CountError(e) => Err(ServerErrorResponse::classify(e)),
        DeleteAllOutcome::Compensated => Err(
            ServerErrorResponse::from_codes(
                ErrorCodesWrapper::from_code("db-error").get_error_codes(),
            ),
        ),
        DeleteAllOutcome::Uncompensated(e2) => Err(ServerErrorResponse::classify(e2)),
    }
}

/// Compensation invariant: after a compensated delete-all failure the
/// store holds the original auth users, so a subsequent list returns the
/// same page, whatever the bounds, as one taken before the attempt.
pub proof fn lemma_compensated_listing_unchanged(
    before: Database,
    after: Database,
    page_size: int,
    offset: int,
)
    requires
        after.auth_users@ == before.auth_users@,
    ensures
        page_spec(after.auth_users@, page_size, offset) == page_spec(
            before.auth_users@,
            page_size,
            offset,
        ),
{
}

/// Round trip: an auth-user table that does not hold an id, extended by
/// an entity under that id, returns exactly that entity from a lookup by
/// the id — the inserted and the fetched entity agree field for field.
pub proof fn lemma_auth_user_insert_find_round_trip(rows: Seq<AuthUser>, u: AuthUser)
    requires
        !exists_where(rows, auth_user_with_id(u.id)),
    ensures
        find_first_where(rows.push(u), auth_user_with_id(u.id)) == Some(u),
{
    assert forall|j: int| 0 <= j < rows.len() implies !auth_user_with_id(u.id)(rows[j]) by {
        if auth_user_with_id(u.id)(rows[j]) {
            assert(exists_where(rows, auth_user_with_id(u.id)));
        }
    }
    assert(auth_user_with_id(u.id)(u));
    crate::rows::lemma_find_first_pushed(rows, u, auth_user_with_id(u.id));
}

} // verus!
