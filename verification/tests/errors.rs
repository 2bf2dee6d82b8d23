use team_registry::error::{
    Error, ErrorCode, ErrorCodesWrapper, FieldViolation, PersistenceError, ServerErrorResponse,
    ValidationKind,
};
use team_registry::model::NewUser;

fn codes_of(err: Error) -> Vec<String> {
    ErrorCodesWrapper::from_error(err)
        .get_error_codes()
        .into_iter()
        .map(|c| c.code)
        .collect()
}

#[test]
fn each_persistence_kind_maps_to_its_code() {
    assert_eq!(
        codes_of(Error::DBError(PersistenceError::InvalidCString("nul at 3".to_string()))),
        vec!["invalid-CString nul at 3.".to_string()]
    );
    assert_eq!(
        codes_of(Error::DBError(PersistenceError::DatabaseError)),
        vec!["database-error".to_string()]
    );
    assert_eq!(
        codes_of(Error::DBError(PersistenceError::NotFound)),
        vec!["object-not-found".to_string()]
    );
    assert_eq!(
        codes_of(Error::DBError(PersistenceError::QueryBuilderError("no changes".to_string()))),
        vec!["query-builder-error no changes.".to_string()]
    );
    assert_eq!(
        codes_of(Error::DBError(PersistenceError::DeserializationError("bad date".to_string()))),
        vec!["deserialization-error bad date.".to_string()]
    );
    assert_eq!(
        codes_of(Error::DBError(PersistenceError::SerializationError("bad value".to_string()))),
        vec!["serialization-error bad value.".to_string()]
    );
    assert_eq!(
        codes_of(Error::DBError(PersistenceError::RollbackTransaction)),
        vec!["rollback-transaction.".to_string()]
    );
    assert_eq!(
        codes_of(Error::DBError(PersistenceError::AlreadyInTransaction)),
        vec!["already-in-transaction.".to_string()]
    );
    assert_eq!(
        codes_of(Error::DBError(PersistenceError::Other)),
        vec!["non-exhaustive.".to_string()]
    );
}

#[test]
fn ad_hoc_reasons_become_their_own_code() {
    assert_eq!(codes_of(Error::BadRequest("db-error".to_string())), vec!["db-error".to_string()]);
    assert_eq!(
        codes_of(Error::InternalServerError("boom".to_string())),
        vec!["boom".to_string()]
    );
    assert_eq!(codes_of(Error::NotFound("gone".to_string())), vec!["gone".to_string()]);
    assert_eq!(codes_of(Error::HttpRequest("timeout".to_string())), vec!["timeout".to_string()]);
    assert_eq!(codes_of(Error::DuplicationError), vec!["duplication-error".to_string()]);
    assert_eq!(
        codes_of(Error::DeletedDuplicationError),
        vec!["deleted-duplication-error".to_string()]
    );
}

#[test]
fn diesel_failures_are_classified_by_kind() {
    let translated = Error::from_diesel(diesel::result::Error::NotFound);
    assert_eq!(codes_of(translated), vec!["object-not-found".to_string()]);
    let translated = Error::from_diesel(diesel::result::Error::RollbackTransaction);
    assert_eq!(codes_of(translated), vec!["rollback-transaction.".to_string()]);
    let translated = Error::from_diesel(diesel::result::Error::AlreadyInTransaction);
    assert_eq!(codes_of(translated), vec!["already-in-transaction.".to_string()]);
    let translated = Error::from_diesel(diesel::result::Error::NotInTransaction);
    assert_eq!(codes_of(translated), vec!["non-exhaustive.".to_string()]);
}

#[test]
fn from_code_wraps_one_code() {
    let wrapper = ErrorCodesWrapper::from_code("db-error");
    let codes = wrapper.get_error_codes();
    assert_eq!(codes.len(), 1);
    assert_eq!(codes[0].code, "db-error");
}

#[test]
fn classification_sends_each_failure_to_its_class() {
    match ServerErrorResponse::classify(Error::NotFound("missing".to_string())) {
        ServerErrorResponse::NotFound(c) => assert_eq!(c.code, "missing"),
        _ => panic!("expected the not-found class"),
    }
    match ServerErrorResponse::classify(Error::DBError(PersistenceError::NotFound)) {
        ServerErrorResponse::NotFound(c) => assert_eq!(c.code, "object-not-found"),
        _ => panic!("expected the not-found class"),
    }
    match ServerErrorResponse::classify(Error::BadRequest("email-format-error".to_string())) {
        ServerErrorResponse::BadReq(cs) => {
            assert_eq!(cs.len(), 1);
            assert_eq!(cs[0].code, "email-format-error");
        }
        _ => panic!("expected the bad-request class"),
    }
    match ServerErrorResponse::classify(Error::DuplicationError) {
        ServerErrorResponse::InternalServerError(cs) => {
            assert_eq!(cs[0].code, "duplication-error");
        }
        _ => panic!("expected the internal-server-error class"),
    }
    match ServerErrorResponse::classify(Error::DBError(PersistenceError::DatabaseError)) {
        ServerErrorResponse::InternalServerError(cs) => {
            assert_eq!(cs[0].code, "database-error");
        }
        _ => panic!("expected the internal-server-error class"),
    }
}

#[test]
fn from_codes_defaults_to_internal_server_error() {
    let codes = vec![ErrorCode { code: "db-error".to_string() }];
    match ServerErrorResponse::from_codes(codes) {
        ServerErrorResponse::InternalServerError(cs) => assert_eq!(cs[0].code, "db-error"),
        _ => panic!("expected the internal-server-error class"),
    }
}

#[test]
fn display_messages_are_fixed_per_class() {
    let ise = ServerErrorResponse::InternalServerError(Vec::new());
    assert_eq!(ise.display_message(), "Internal Server Error Display.");
    let bad = ServerErrorResponse::BadReq(Vec::new());
    assert_eq!(bad.display_message(), "Bas Request Display.");
    let nf = ServerErrorResponse::NotFound(ErrorCode { code: "x".to_string() });
    assert_eq!(nf.display_message(), "Not Found Display.");
}

#[test]
fn graphql_parts_name_the_failure() {
    let (name, kind) = Error::DBError(PersistenceError::NotFound).graphql_error_parts();
    assert_eq!(name, "gql_diesel_error");
    assert_eq!(kind, "NotFound");
    let (name, kind) = Error::DBError(PersistenceError::InvalidCString("x".to_string()))
        .graphql_error_parts();
    assert_eq!(name, "gql_diesel_error");
    assert_eq!(kind, "InvalidCString");
    let (name, kind) = Error::DBError(PersistenceError::Other).graphql_error_parts();
    assert_eq!(name, "gql_diesel_error");
    assert_eq!(kind, "__Nonexhaustive");
    let (name, kind) = Error::DuplicationError.graphql_error_parts();
    assert_eq!(name, "gql_bad_request");
    assert_eq!(kind, "DuplicationError");
    let (name, kind) = Error::HttpRequest("x".to_string()).graphql_error_parts();
    assert_eq!(name, "gql_bad_request");
    assert_eq!(kind, "HttpRequest");
}

#[test]
fn validation_report_yields_one_code_per_field_violation() {
    let report = vec![
        ValidationKind::Struct,
        ValidationKind::Field(vec![
            FieldViolation { field: "email".to_string(), code: "email-format-error".to_string() },
            FieldViolation { field: "name".to_string(), code: "length-error".to_string() },
        ]),
        ValidationKind::List,
        ValidationKind::Field(vec![FieldViolation {
            field: "role".to_string(),
            code: "role-error".to_string(),
        }]),
    ];
    let mut errors: Vec<ErrorCode> = Vec::new();
    ErrorCode::validate_errors(&report, &mut errors);
    let codes: Vec<String> = errors.into_iter().map(|c| c.code).collect();
    assert_eq!(
        codes,
        vec![
            "email-format-error".to_string(),
            "length-error".to_string(),
            "role-error".to_string()
        ]
    );
}

#[test]
fn new_user_validation_flags_only_malformed_emails() {
    let bad = NewUser {
        email: "not-an-email".to_string(),
        name: "Eve".to_string(),
        password: "pw-0000".to_string(),
    };
    let report = bad.validate();
    assert_eq!(report.len(), 1);
    match &report[0] {
        ValidationKind::Field(violations) => {
            assert_eq!(violations.len(), 1);
            assert_eq!(violations[0].field, "email");
            assert_eq!(violations[0].code, "email-format-error");
        }
        _ => panic!("expected a field-shaped entry"),
    }

    let good = NewUser {
        email: "eve@example.com".to_string(),
        name: "Eve".to_string(),
        password: "pw-0000".to_string(),
    };
    assert_eq!(good.validate().len(), 0);
}
