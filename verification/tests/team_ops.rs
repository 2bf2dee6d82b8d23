use team_registry::controller::team::{
    find_team_by_id_api, insert_bulk_teams_api, insert_team_api, remove_all_teams_api,
    remove_team_api,
};
use team_registry::db::Database;
use team_registry::error::{Error, PersistenceError, ServerErrorResponse};
use team_registry::model::NewTeam;

#[test]
fn insert_then_find_returns_equal_fields_with_new_id() {
    let mut db = Database::new();
    let new_team = NewTeam {
        name: "platform".to_string(),
        description: "owns the build".to_string(),
    };
    let s = insert_team_api(new_team, &mut db, None).unwrap();
    assert_eq!(s.message, "Successfully added the new Team.");
    let id = s.data.id;
    let found = find_team_by_id_api(&id, &db, None).unwrap();
    assert_eq!(found.message, "Successfully found the Team.");
    assert_eq!(found.data.id, id);
    assert_eq!(found.data.name, "platform");
    assert_eq!(found.data.description, "owns the build");
}

#[test]
fn inserted_ids_are_distinct() {
    let mut db = Database::new();
    let a = insert_team_api(
        NewTeam { name: "a".to_string(), description: "a".to_string() },
        &mut db,
        None,
    )
    .unwrap();
    let b = insert_team_api(
        NewTeam { name: "b".to_string(), description: "b".to_string() },
        &mut db,
        None,
    )
    .unwrap();
    assert_ne!(a.data.id, b.data.id);
}

#[test]
fn bulk_insert_keeps_submission_order() {
    let mut db = Database::new();
    let new_teams = vec![
        NewTeam { name: "one".to_string(), description: "first".to_string() },
        NewTeam { name: "two".to_string(), description: "second".to_string() },
        NewTeam { name: "three".to_string(), description: "third".to_string() },
    ];
    let s = insert_bulk_teams_api(&new_teams, &mut db, None).unwrap();
    assert_eq!(s.message, "Successfully added the bulk of Teams.");
    assert_eq!(s.data.len(), 3);
    assert_eq!(s.data[0].name, "one");
    assert_eq!(s.data[1].name, "two");
    assert_eq!(s.data[2].name, "three");
    assert_eq!(s.data[2].description, "third");
    assert_ne!(s.data[0].id, s.data[1].id);
    assert_ne!(s.data[1].id, s.data[2].id);
    assert_eq!(db.teams.len(), 3);
}

#[test]
fn bulk_insert_fault_leaves_store_unchanged() {
    let mut db = Database::new();
    let new_teams = vec![NewTeam { name: "x".to_string(), description: "y".to_string() }];
    let fault = Error::DBError(PersistenceError::DatabaseError);
    let r = insert_bulk_teams_api(&new_teams, &mut db, Some(fault));
    match r {
        Err(ServerErrorResponse::InternalServerError(codes)) => {
            assert_eq!(codes[0].code, "database-error");
        }
        _ => panic!("expected an internal-server-error response"),
    }
    assert_eq!(db.teams.len(), 0);
}

#[test]
fn delete_by_id_twice_succeeds_then_reports_db_error() {
    let mut db = Database::new();
    let s = insert_team_api(
        NewTeam { name: "gone".to_string(), description: "soon".to_string() },
        &mut db,
        None,
    )
    .unwrap();
    let id = s.data.id;
    let first = remove_team_api(&id, &mut db).unwrap();
    assert_eq!(first.message, "Successfully deleted the team.");
    assert!(first.data);
    let second = remove_team_api(&id, &mut db);
    match second {
        Err(ServerErrorResponse::InternalServerError(codes)) => {
            assert_eq!(codes.len(), 1);
            assert_eq!(codes[0].code, "db-error");
        }
        _ => panic!("expected an internal-server-error response"),
    }
}

#[test]
fn find_missing_team_is_not_found() {
    let db = Database::new();
    let id: u128 = 42;
    let r = find_team_by_id_api(&id, &db, None);
    match r {
        Err(ServerErrorResponse::NotFound(code)) => {
            assert_eq!(code.code, "object-not-found");
        }
        _ => panic!("expected a not-found response"),
    }
}

#[test]
fn remove_all_teams_empties_the_table() {
    let mut db = Database::new();
    insert_team_api(
        NewTeam { name: "a".to_string(), description: "a".to_string() },
        &mut db,
        None,
    )
    .unwrap();
    insert_team_api(
        NewTeam { name: "b".to_string(), description: "b".to_string() },
        &mut db,
        None,
    )
    .unwrap();
    let s = remove_all_teams_api(&mut db, None).unwrap();
    assert_eq!(s.message, "Successfully deleted all teams.");
    assert!(s.data);
    assert_eq!(db.teams.len(), 0);
}

#[test]
fn remove_all_teams_fault_reports_db_error_and_keeps_rows() {
    let mut db = Database::new();
    insert_team_api(
        NewTeam { name: "kept".to_string(), description: "kept".to_string() },
        &mut db,
        None,
    )
    .unwrap();
    let fault = Error::DBError(PersistenceError::RollbackTransaction);
    let r = remove_all_teams_api(&mut db, Some(fault));
    match r {
        Err(ServerErrorResponse::InternalServerError(codes)) => {
            assert_eq!(codes[0].code, "db-error");
        }
        _ => panic!("expected an internal-server-error response"),
    }
    assert_eq!(db.teams.len(), 1);
}

#[test]
fn find_fault_is_classified() {
    let db = Database::new();
    let id: u128 = 7;
    let fault = Error::NotFound("missing-team".to_string());
    let r = find_team_by_id_api(&id, &db, Some(fault));
    match r {
        Err(ServerErrorResponse::NotFound(code)) => {
            assert_eq!(code.code, "missing-team");
        }
        _ => panic!("expected a not-found response"),
    }
}
