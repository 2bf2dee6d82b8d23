//! The user operations as the transport layer invokes them.

use vstd::prelude::*;

use crate::db::{user_with_id, Database};
use crate::dto::{page_spec, PaginatedResponseDTO, PaginationDTO, SuccessResponse};
use crate::engine::user::{count_users, list_all_users};
use crate::error::{classified, codes_view, Error, ServerErrorResponse};
use crate::model::{is_email, NewUser, User};
use crate::rows::exists_where;

verus! {

/// Lists users: first the total count, then the page the request
/// selects; the count is computed independently of the page bounds. If
/// counting fails, the page is never fetched and the count failure is
/// surfaced; if listing fails, the listing failure is surfaced.
pub fn list_users_api(
    pagination: &PaginationDTO,
    db: &Database,
    count_outcome: Option<Error>,
    list_outcome: Option<Error>,
) -> (r: Result<SuccessResponse<PaginatedResponseDTO<User>>, ServerErrorResponse>)
    requires
        db.users@.len() <= i64::MAX,
    ensures
        count_outcome matches Some(e) ==> (r matches Err(resp) && classified(e, resp)),
        count_outcome is None && !pagination.valid() ==> (r matches Err(resp) && resp
            matches ServerErrorResponse::BadReq(cs) && codes_view(cs@) == seq![
            "invalid-pagination"@,
        ]),
        count_outcome is None && pagination.valid() ==> (list_outcome matches Some(e) ==> (r
            matches Err(resp) && classified(e, resp))),
        count_outcome is None && pagination.valid() && list_outcome is None ==> (r matches Ok(s) && {
            &&& s.message@ == "Successfully retrieved all users."@
            &&& s.data.count == db.users@.len() as i64
            &&& s.data.paginated_list@ == page_spec(
                db.users@,
                pagination.page_size as int,
                pagination.offset as int,
            )
            &&& s.data.paginated_list@.len() <= pagination.page_size
        }),
{
    let count = match count_users(db, count_outcome) {
        Ok(c) => c,
        Err(e) => {
            return Err(ServerErrorResponse::classify(e));
        },
    };
    match list_all_users(pagination, db, list_outcome) {
        Ok(paginated_list) => {
            proof {
                crate::dto::lemma_page_spec_len(
                    db.users@,
                    pagination.page_size as int,
                    pagination.offset as int,
                );
            }
            Ok(
                SuccessResponse {
                    message: "Successfully retrieved all users.".to_string(),
                    data: PaginatedResponseDTO { paginated_list, count },
                },
            )
        },
        Err(e) => Err(ServerErrorResponse::classify(e)),
    }
}

/// Creates one user from its writable fields and returns the persisted
/// entity in the success envelope. A malformed email is rejected with
/// the email-format code and nothing is persisted.
pub fn insert_user_api(new_user: NewUser, db: &mut Database, outcome: Option<Error>) -> (r: Result<
    SuccessResponse<User>,
    ServerErrorResponse,
>)
    requires
        old(db).wf(),
    ensures
        final(db).wf(),
        final(db).auth_users@ == old(db).auth_users@,
        final(db).teams@ == old(db).teams@,
        final(db).members@ == old(db).members@,
        !is_email(new_user.email@) ==> (r matches Err(resp) && resp
            matches ServerErrorResponse::BadReq(cs) && codes_view(cs@) == seq![
            "email-format-error"@,
        ] && final(db).users@ == old(db).users@),
        is_email(new_user.email@) ==> (outcome matches Some(e) ==> (r matches Err(resp)
            && classified(e, resp) && final(db).users@ == old(db).users@)),
        is_email(new_user.email@) && outcome is None ==> match r {
            Ok(s) => {
                &&& s.message@ == "Successfully added the new User."@
                &&& s.data.email == new_user.email
                &&& s.data.name == new_user.name
                &&& !exists_where(old(db).users@, user_with_id(s.data.id))
                &&& final(db).users@ == old(db).users@.push(s.data)
            },
            Err(resp) => resp matches ServerErrorResponse::InternalServerError(cs) && codes_view(
                cs@,
            ) == seq!["duplication-error"@] && final(db).users@ == old(db).users@,
        },
{
    match new_user.add_user(db, outcome) {
        Ok(inserted_user) => Ok(
            SuccessResponse {
                message: "Successfully added the new User.".to_string(),
                data: inserted_user,
            },
        ),
        Err(e) => Err(ServerErrorResponse::classify(e)),
    }
}

} // verus!
