use team_registry::controller::team::{insert_team_api, list_teams_api};
use team_registry::db::Database;
use team_registry::dto::PaginationDTO;
use team_registry::error::{Error, PersistenceError, ServerErrorResponse};
use team_registry::model::NewTeam;

fn seeded_teams(n: usize) -> Database {
    let mut db = Database::new();
    let mut k = 0;
    while k < n {
        let new_team = NewTeam {
            name: format!("team-{}", k),
            description: format!("desc-{}", k),
        };
        let r = insert_team_api(new_team, &mut db, None);
        assert!(r.is_ok());
        k += 1;
    }
    db
}

#[test]
fn five_teams_page_two_offset_four() {
    let db = seeded_teams(5);
    let pagination = PaginationDTO { page_size: 2, offset: 4 };
    let s = list_teams_api(&pagination, &db, None, None).unwrap();
    assert_eq!(s.data.paginated_list.len(), 1);
    assert_eq!(s.data.count, 5);
    assert_eq!(s.data.paginated_list[0].name, "team-4");
    assert_eq!(s.message, "Successfully retrieved all teams.");
}

#[test]
fn page_size_zero_gives_empty_page_with_count() {
    let db = seeded_teams(3);
    let pagination = PaginationDTO { page_size: 0, offset: 0 };
    let s = list_teams_api(&pagination, &db, None, None).unwrap();
    assert_eq!(s.data.paginated_list.len(), 0);
    assert_eq!(s.data.count, 3);
}

#[test]
fn offset_beyond_total_gives_empty_page_with_count() {
    let db = seeded_teams(3);
    let pagination = PaginationDTO { page_size: 10, offset: 7 };
    let s = list_teams_api(&pagination, &db, None, None).unwrap();
    assert_eq!(s.data.paginated_list.len(), 0);
    assert_eq!(s.data.count, 3);
}

#[test]
fn negative_bounds_are_rejected_as_bad_request() {
    let db = seeded_teams(2);
    let pagination = PaginationDTO { page_size: -1, offset: 0 };
    let r = list_teams_api(&pagination, &db, None, None);
    match r {
        Err(ServerErrorResponse::BadReq(codes)) => {
            assert_eq!(codes.len(), 1);
            assert_eq!(codes[0].code, "invalid-pagination");
        }
        _ => panic!("expected a bad-request response"),
    }
    let pagination = PaginationDTO { page_size: 1, offset: -3 };
    assert!(matches!(
        list_teams_api(&pagination, &db, None, None),
        Err(ServerErrorResponse::BadReq(_))
    ));
}

#[test]
fn pagination_defaults_to_zero() {
    let d = PaginationDTO::default();
    assert_eq!(d.page_size, 0);
    assert_eq!(d.offset, 0);
    let db = seeded_teams(4);
    let s = list_teams_api(&d, &db, None, None).unwrap();
    assert_eq!(s.data.paginated_list.len(), 0);
    assert_eq!(s.data.count, 4);
}

#[test]
fn count_failure_aborts_before_listing() {
    let db = seeded_teams(2);
    let pagination = PaginationDTO { page_size: 1, offset: 0 };
    let fault = Error::DBError(PersistenceError::DatabaseError);
    let r = list_teams_api(&pagination, &db, Some(fault), None);
    match r {
        Err(ServerErrorResponse::InternalServerError(codes)) => {
            assert_eq!(codes.len(), 1);
            assert_eq!(codes[0].code, "database-error");
        }
        _ => panic!("expected an internal-server-error response"),
    }
}

#[test]
fn list_failure_is_surfaced() {
    let db = seeded_teams(2);
    let pagination = PaginationDTO { page_size: 1, offset: 0 };
    let fault = Error::DBError(PersistenceError::SerializationError("boom".to_string()));
    let r = list_teams_api(&pagination, &db, None, Some(fault));
    match r {
        Err(ServerErrorResponse::InternalServerError(codes)) => {
            assert_eq!(codes[0].code, "serialization-error boom.");
        }
        _ => panic!("expected an internal-server-error response"),
    }
}

#[test]
fn page_never_exceeds_page_size_and_count_is_independent() {
    let db = seeded_teams(5);
    let mut page_size = 0;
    while page_size < 7 {
        let mut offset = 0;
        while offset < 7 {
            let pagination = PaginationDTO { page_size, offset };
            let s = list_teams_api(&pagination, &db, None, None).unwrap();
            assert!(s.data.paginated_list.len() <= page_size as usize);
            assert_eq!(s.data.count, 5);
            offset += 1;
        }
        page_size += 1;
    }
}
