//! The team operations as the transport layer invokes them: each takes
//! the store and, for every fallible persistence statement, the layer's
//! verdict for that statement, and returns either the success envelope or
//! a classified error response.

use vstd::prelude::*;

use crate::db::{team_with_id, Database};
use crate::dto::{page_spec, PaginatedResponseDTO, PaginationDTO, SuccessResponse};
use crate::engine::team::{
    count_teams, delete_all_teams, delete_team_by_id, find_team_by_id, insert_bulk_team,
    list_all_teams, team_batch_insertable,
};
use crate::error::{classified, codes_view, Error, ErrorCodesWrapper, ServerErrorResponse};
use crate::model::{fresh_id, NewTeam, Team};
use crate::rows::{exists_where, find_first_where, remove_first_where};

verus! {

/// Lists teams: first the total count, then the page the request
/// selects; the count is computed independently of the page bounds. If
/// counting fails, the page is never fetched and the count failure is
/// surfaced; if listing fails, the listing failure is surfaced.
pub fn list_teams_api(
    pagination: &PaginationDTO,
    db: &Database,
    count_outcome: Option<Error>,
    list_outcome: Option<Error>,
) -> (r: Result<SuccessResponse<PaginatedResponseDTO<Team>>, ServerErrorResponse>)
    requires
        db.teams@.len() <= i64::MAX,
    ensures
        count_outcome matches Some(e) ==> (r matches Err(resp) && classified(e, resp)),
        count_outcome is None && !pagination.valid() ==> (r matches Err(resp) && resp
            matches ServerErrorResponse::BadReq(cs) && codes_view(cs@) == seq![
            "invalid-pagination"@,
        ]),
        count_outcome is None && pagination.valid() ==> (list_outcome matches Some(e) ==> (r
            matches Err(resp) && classified(e, resp))),
        count_outcome is None && pagination.valid() && list_outcome is None ==> (r matches Ok(s) && {
            &&& s.message@ == "Successfully retrieved all teams."@
            &&& s.data.count == db.teams@.len() as i64
            &&& s.data.paginated_list@ == page_spec(
                db.teams@,
                pagination.page_size as int,
                pagination.offset as int,
            )
            &&& s.data.paginated_list@.len() <= pagination.page_size
        }),
{
    let count = match count_teams(db, count_outcome) {
        Ok(c) => c,
        Err(e) => {
            return Err(ServerErrorResponse::classify(e));
        },
    };
    match list_all_teams(pagination, db, list_outcome) {
        Ok(paginated_list) => {
            proof {
                crate::dto::lemma_page_spec_len(
                    db.teams@,
                    pagination.page_size as int,
                    pagination.offset as int,
                );
            }
            Ok(
                SuccessResponse {
                    message: "Successfully retrieved all teams.".to_string(),
                    data: PaginatedResponseDTO { paginated_list, count },
                },
            )
        },
        Err(e) => Err(ServerErrorResponse::classify(e)),
    }
}

/// Creates one team from its writable fields and returns the persisted
/// entity in the success envelope.
pub fn insert_team_api(new_team: NewTeam, db: &mut Database, outcome: Option<Error>) -> (r: Result<
    SuccessResponse<Team>,
    ServerErrorResponse,
>)
    requires
        old(db).wf(),
    ensures
        final(db).wf(),
        final(db).auth_users@ == old(db).auth_users@,
        final(db).users@ == old(db).users@,
        final(db).members@ == old(db).members@,
        outcome matches Some(e) ==> (r matches Err(resp) && classified(e, resp) && final(db).teams@
            == old(db).teams@),
        outcome is None ==> match r {
            Ok(s) => {
                &&& s.message@ == "Successfully added the new Team."@
                &&& s.data.name == new_team.name
                &&& s.data.description == new_team.description
                &&& !exists_where(old(db).teams@, team_with_id(s.data.id))
                &&& final(db).teams@ == old(db).teams@.push(s.data)
            },
            Err(resp) => resp matches ServerErrorResponse::InternalServerError(cs) && codes_view(
                cs@,
            ) == seq!["duplication-error"@] && final(db).teams@ == old(db).teams@,
        },
{
    match new_team.insert_team(db, outcome) {
        Ok(inserted_team) => Ok(
            SuccessResponse {
                message: "Successfully added the new Team.".to_string(),
                data: inserted_team,
            },
        ),
        Err(e) => Err(ServerErrorResponse::classify(e)),
    }
}

/// Creates a batch of teams, assigning each a freshly drawn id, and
/// persists them as a whole; the persisted batch comes back in the
/// success envelope, in submission order.
pub fn insert_bulk_teams_api(new_teams: &Vec<NewTeam>, db: &mut Database, outcome: Option<
    Error,
>) -> (r: Result<SuccessResponse<Vec<Team>>, ServerErrorResponse>)
    requires
        old(db).wf(),
    ensures
        final(db).wf(),
        final(db).auth_users@ == old(db).auth_users@,
        final(db).users@ == old(db).users@,
        final(db).members@ == old(db).members@,
        outcome matches Some(e) ==> (r matches Err(resp) && classified(e, resp) && final(db).teams@
            == old(db).teams@),
        outcome is None ==> match r {
            Ok(s) => {
                &&& s.message@ == "Successfully added the bulk of Teams."@
                &&& s.data@.len() == new_teams@.len()
                &&& forall|k: int|
                    0 <= k < new_teams@.len() ==> (#[trigger] s.data@[k].name == new_teams@[k].name
                        && s.data@[k].description == new_teams@[k].description)
                &&& team_batch_insertable(s.data@, old(db).teams@)
                &&& final(db).teams@ == old(db).teams@ + s.data@
            },
            Err(resp) => resp matches ServerErrorResponse::InternalServerError(cs) && codes_view(
                cs@,
            ) == seq!["duplication-error"@] && final(db).teams@ == old(db).teams@,
        },
{
    let mut teams: Vec<Team> = Vec::new();
    let mut i: usize = 0;
    while i < new_teams.len()
        invariant
            i <= new_teams@.len(),
            teams@.len() == i,
            forall|k: int|
                0 <= k < i ==> (#[trigger] teams@[k].name == new_teams@[k].name
                    && teams@[k].description == new_teams@[k].description),
        decreases new_teams@.len() - i,
    {
        let team = Team {
            id: fresh_id(),
            name: new_teams[i].name.clone(),
            description: new_teams[i].description.clone(),
        };
        teams.push(team);
        i += 1;
    }
    match insert_bulk_team(&teams, db, outcome) {
        Ok(inserted_teams) => Ok(
            SuccessResponse {
                message: "Successfully added the bulk of Teams.".to_string(),
                data: inserted_teams,
            },
        ),
        Err(e) => Err(ServerErrorResponse::classify(e)),
    }
}

/// Removes one team by id. A missing id is reported as a generic
/// database failure, exactly as a failed delete statement would be.
pub fn remove_team_api(team_id: &u128, db: &mut Database) -> (r: Result<
    SuccessResponse<bool>,
    ServerErrorResponse,
>)
    requires
        old(db).wf(),
    ensures
        final(db).wf(),
        final(db).auth_users@ == old(db).auth_users@,
        final(db).users@ == old(db).users@,
        final(db).members@ == old(db).members@,
        final(db).teams@ == remove_first_where(old(db).teams@, team_with_id(*team_id)),
        !exists_where(final(db).teams@, team_with_id(*team_id)),
        exists_where(old(db).teams@, team_with_id(*team_id)) ==> (r matches Ok(s) && s.message@
            == "Successfully deleted the team."@ && s.data == true),
        !exists_where(old(db).teams@, team_with_id(*team_id)) ==> (r matches Err(resp) && resp
            matches ServerErrorResponse::InternalServerError(cs) && codes_view(cs@) == seq![
            "db-error"@,
        ]),
{
    if !delete_team_by_id(team_id, db) {
        Err(
            ServerErrorResponse::from_codes(
                ErrorCodesWrapper::from_code("db-error").get_error_codes(),
            ),
        )
    } else {
        Ok(
            SuccessResponse {
                message: "Successfully deleted the team.".to_string(),
                data: true,
            },
        )
    }
}

/// Removes all teams. Any persistence failure is reported as the generic
/// database failure code.
pub fn remove_all_teams_api(db: &mut Database, outcome: Option<Error>) -> (r: Result<
    SuccessResponse<bool>,
    ServerErrorResponse,
>)
    requires
        old(db).wf(),
    ensures
        final(db).wf(),
        final(db).auth_users@ == old(db).auth_users@,
        final(db).users@ == old(db).users@,
        final(db).members@ == old(db).members@,
        outcome is Some ==> (r matches Err(resp) && resp
            matches ServerErrorResponse::InternalServerError(cs) && codes_view(cs@) == seq![
            "db-error"@,
        ] && final(db).teams@ == old(db).teams@),
        outcome is None ==> (r matches Ok(s) && s.message@ == "Successfully deleted all teams."@
            && s.data == true && final(db).teams@ == Seq::<Team>::empty()),
{
    if delete_all_teams(db, outcome).is_ok() {
        Ok(
            SuccessResponse {
                message: "Successfully deleted all teams.".to_string(),
                data: true,
            },
        )
    } else {
        Err(
            ServerErrorResponse::from_codes(
                ErrorCodesWrapper::from_code("db-error").get_error_codes(),
            ),
        )
    }
}

/// Finds one team by id. A missing id is classified as a not-found
/// response carrying the not-found persistence code.
pub fn find_team_by_id_api(team_id: &u128, db: &Database, outcome: Option<Error>) -> (r: Result<
    SuccessResponse<Team>,
    ServerErrorResponse,
>)
    ensures
        outcome matches Some(e) ==> (r matches Err(resp) && classified(e, resp)),
        outcome is None ==> match find_first_where(db.teams@, team_with_id(*team_id)) {
            Some(t) => r matches Ok(s) && s.message@ == "Successfully found the Team."@ && s.data
                == t,
            None => r matches Err(resp) && resp matches ServerErrorResponse::NotFound(c) && c.code@
                == "object-not-found"@,
        },
{
    match find_team_by_id(team_id, db, outcome) {
        Ok(found_team) => Ok(
            SuccessResponse {
                message: "Successfully found the Team.".to_string(),
                data: found_team,
            },
        ),
        Err(e) => Err(ServerErrorResponse::classify(e)),
    }
}

/// Round trip: a team table that does not hold an id, extended by an
/// entity under that id, returns exactly that entity from a lookup by
/// the id — the inserted and the fetched entity agree field for field.
pub proof fn lemma_team_insert_find_round_trip(rows: Seq<Team>, t: Team)
    requires
        !exists_where(rows, team_with_id(t.id)),
    ensures
        find_first_where(rows.push(t), team_with_id(t.id)) == Some(t),
{
    assert forall|j: int| 0 <= j < rows.len() implies !team_with_id(t.id)(rows[j]) by {
        if team_with_id(t.id)(rows[j]) {
            assert(exists_where(rows, team_with_id(t.id)));
        }
    }
    assert(team_with_id(t.id)(t));
    crate::rows::lemma_find_first_pushed(rows, t, team_with_id(t.id));
}

} // verus!
