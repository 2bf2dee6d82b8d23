use team_registry::controller::auth_user::{
    delete_all_auth_users_workflow, find_auth_user_by_id_api, insert_auth_user_api,
    list_auth_users_api, remove_all_auth_users_api, remove_auth_user_api, DeleteAllOutcome,
};
use team_registry::controller::user::insert_user_api;
use team_registry::db::Database;
use team_registry::dto::PaginationDTO;
use team_registry::error::{Error, PersistenceError, ServerErrorResponse};
use team_registry::model::{Member, NewUser};

fn new_user(email: &str, name: &str) -> NewUser {
    NewUser {
        email: email.to_string(),
        name: name.to_string(),
        password: "pw-0000".to_string(),
    }
}

fn member(id: u128) -> Member {
    Member {
        id,
        team_id: 1,
        user_id: 2,
        name: format!("member-{}", id),
        identity_num: format!("id-{}", id),
        role: "engineer".to_string(),
        assigned_at: 1_700_000_000,
        expired_at: None,
        modification_date: Some(1_700_000_100),
    }
}

#[test]
fn insert_auth_user_keeps_all_fields() {
    let mut db = Database::new();
    let s = insert_auth_user_api(new_user("ada@example.com", "Ada"), &mut db, None).unwrap();
    assert_eq!(s.message, "Successfully added the new Auth User.");
    assert_eq!(s.data.email, "ada@example.com");
    assert_eq!(s.data.name, "Ada");
    assert_eq!(s.data.password, "pw-0000");
    assert_eq!(db.auth_users.len(), 1);
}

#[test]
fn malformed_email_is_rejected_and_nothing_is_persisted() {
    let mut db = Database::new();
    let r = insert_user_api(new_user("not-an-email", "Eve"), &mut db, None);
    match r {
        Err(ServerErrorResponse::BadReq(codes)) => {
            assert_eq!(codes.len(), 1);
            assert_eq!(codes[0].code, "email-format-error");
        }
        _ => panic!("expected a bad-request response"),
    }
    assert_eq!(db.users.len(), 0);
    let r = insert_auth_user_api(new_user("not-an-email", "Eve"), &mut db, None);
    assert!(matches!(r, Err(ServerErrorResponse::BadReq(_))));
    assert_eq!(db.auth_users.len(), 0);
}

#[test]
fn well_formed_email_creates_user_without_password() {
    let mut db = Database::new();
    let s = insert_user_api(new_user("bob@example.com", "Bob"), &mut db, None).unwrap();
    assert_eq!(s.message, "Successfully added the new User.");
    assert_eq!(s.data.email, "bob@example.com");
    assert_eq!(s.data.name, "Bob");
    assert_eq!(db.users.len(), 1);
}

#[test]
fn insert_then_find_auth_user_round_trip() {
    let mut db = Database::new();
    let s = insert_auth_user_api(new_user("carol@example.com", "Carol"), &mut db, None).unwrap();
    let id = s.data.id;
    let found = find_auth_user_by_id_api(&id, &db, None).unwrap();
    assert_eq!(found.message, "Successfully found the Auth User.");
    assert_eq!(found.data.id, id);
    assert_eq!(found.data.email, "carol@example.com");
    assert_eq!(found.data.name, "Carol");
}

#[test]
fn delete_auth_user_twice_succeeds_then_reports_db_error() {
    let mut db = Database::new();
    let s = insert_auth_user_api(new_user("dan@example.com", "Dan"), &mut db, None).unwrap();
    let id = s.data.id;
    let first = remove_auth_user_api(&id, &mut db).unwrap();
    assert_eq!(first.message, "Successfully deleted the auth_user.");
    assert!(first.data);
    let second = remove_auth_user_api(&id, &mut db);
    match second {
        Err(ServerErrorResponse::InternalServerError(codes)) => {
            assert_eq!(codes[0].code, "db-error");
        }
        _ => panic!("expected an internal-server-error response"),
    }
    assert_eq!(db.auth_users.len(), 0);
}

#[test]
fn delete_all_succeeds_when_both_layers_are_removed() {
    let mut db = Database::new();
    insert_auth_user_api(new_user("a@example.com", "A"), &mut db, None).unwrap();
    insert_auth_user_api(new_user("b@example.com", "B"), &mut db, None).unwrap();
    db.members.push(member(10));
    db.members.push(member(11));
    let s = remove_all_auth_users_api(&mut db, None, None, None).unwrap();
    assert_eq!(s.message, "Successfully deleted all auth_users.");
    assert!(s.data);
    assert_eq!(db.auth_users.len(), 0);
    assert_eq!(db.members.len(), 0);
}

#[test]
fn compensated_failure_restores_the_original_rows() {
    let mut db = Database::new();
    insert_auth_user_api(new_user("a@example.com", "A"), &mut db, None).unwrap();
    insert_auth_user_api(new_user("b@example.com", "B"), &mut db, None).unwrap();
    insert_auth_user_api(new_user("c@example.com", "C"), &mut db, None).unwrap();
    db.members.push(member(20));
    let before: Vec<(u128, String, String)> = db
        .auth_users
        .iter()
        .map(|u| (u.id, u.email.clone(), u.name.clone()))
        .collect();

    let dependent_fault = Error::DBError(PersistenceError::DatabaseError);
    let r = remove_all_auth_users_api(&mut db, None, Some(dependent_fault), None);
    match r {
        Err(ServerErrorResponse::InternalServerError(codes)) => {
            assert_eq!(codes.len(), 1);
            assert_eq!(codes[0].code, "db-error");
        }
        _ => panic!("expected an internal-server-error response"),
    }

    assert_eq!(db.auth_users.len(), 3);
    assert_eq!(db.members.len(), 1);
    for (k, u) in db.auth_users.iter().enumerate() {
        assert_eq!(u.id, before[k].0);
        assert_eq!(u.email, before[k].1);
        assert_eq!(u.name, before[k].2);
    }

    let pagination = PaginationDTO { page_size: 10, offset: 0 };
    let listed = list_auth_users_api(&pagination, &db, None, None).unwrap();
    assert_eq!(listed.data.count, 3);
    assert_eq!(listed.data.paginated_list.len(), 3);
    assert_eq!(listed.data.paginated_list[0].id, before[0].0);
}

#[test]
fn uncompensated_failure_surfaces_the_reinsert_error() {
    let mut db = Database::new();
    insert_auth_user_api(new_user("a@example.com", "A"), &mut db, None).unwrap();
    db.members.push(member(30));
    let dependent_fault = Error::DBError(PersistenceError::DatabaseError);
    let reinsert_fault = Error::DBError(PersistenceError::SerializationError("x".to_string()));
    let r = remove_all_auth_users_api(&mut db, None, Some(dependent_fault), Some(reinsert_fault));
    match r {
        Err(ServerErrorResponse::InternalServerError(codes)) => {
            assert_eq!(codes[0].code, "serialization-error x.");
        }
        _ => panic!("expected an internal-server-error response"),
    }
    assert_eq!(db.auth_users.len(), 0);
    assert_eq!(db.members.len(), 1);
}

#[test]
fn primary_failure_removes_nothing() {
    let mut db = Database::new();
    insert_auth_user_api(new_user("a@example.com", "A"), &mut db, None).unwrap();
    db.members.push(member(40));
    let primary_fault = Error::DBError(PersistenceError::AlreadyInTransaction);
    let r = remove_all_auth_users_api(&mut db, Some(primary_fault), None, None);
    match r {
        Err(ServerErrorResponse::InternalServerError(codes)) => {
            assert_eq!(codes[0].code, "already-in-transaction.");
        }
        _ => panic!("expected an internal-server-error response"),
    }
    assert_eq!(db.auth_users.len(), 1);
    assert_eq!(db.members.len(), 1);
}

#[test]
fn workflow_reaches_each_terminal_state() {
    let mut db = Database::new();
    insert_auth_user_api(new_user("a@example.com", "A"), &mut db, None).unwrap();
    let outcome = delete_all_auth_users_workflow(&mut db, None, None, None);
    assert!(matches!(outcome, DeleteAllOutcome::Done));

    let mut db = Database::new();
    insert_auth_user_api(new_user("a@example.com", "A"), &mut db, None).unwrap();
    let outcome = delete_all_auth_users_workflow(
        &mut db,
        Some(Error::DBError(PersistenceError::DatabaseError)),
        None,
        None,
    );
    assert!(matches!(outcome, DeleteAllOutcome::CountError(_)));
    assert_eq!(db.auth_users.len(), 1);

    let outcome = delete_all_auth_users_workflow(
        &mut db,
        None,
        Some(Error::DBError(PersistenceError::DatabaseError)),
        None,
    );
    assert!(matches!(outcome, DeleteAllOutcome::Compensated));
    assert_eq!(db.auth_users.len(), 1);

    let outcome = delete_all_auth_users_workflow(
        &mut db,
        None,
        Some(Error::DBError(PersistenceError::DatabaseError)),
        Some(Error::DBError(PersistenceError::RollbackTransaction)),
    );
    assert!(matches!(outcome, DeleteAllOutcome::Uncompensated(_)));
    assert_eq!(db.auth_users.len(), 0);
}
