//! The error taxonomy: stable machine-readable error codes, the closed
//! set of persistence-failure kinds, translation of failures into code
//! lists, and the three response classes surfaced to clients.

use vstd::prelude::*;
use vstd::string::StringExecFns;
use diesel::result::Error as DieselError;

verus! {

/// Declares diesel's error type so that the classification wrapper can
/// take it; the value stays opaque to verified code.
#[verifier::external_type_specification]
#[verifier::external_body]
pub struct ExDieselError(DieselError);

/// One discrete failure reason, as a stable machine-readable code.
#[derive(Debug)]
pub struct ErrorCode {
    pub code: String,
}

impl Clone for ErrorCode {
    fn clone(&self) -> (res: Self)
        ensures
            res == *self,
    {
        ErrorCode { code: self.code.clone() }
    }
}

/// A persistence-layer failure, tagged with its kind. The taxonomy is
/// closed: a kind the taxonomy does not track arrives as `Other`. Kinds
/// that carry a detail keep the collaborator's own message.
#[derive(Debug)]
pub enum PersistenceError {
    InvalidCString(String),
    DatabaseError,
    NotFound,
    QueryBuilderError(String),
    DeserializationError(String),
    SerializationError(String),
    RollbackTransaction,
    AlreadyInTransaction,
    Other,
}

/// The code string for each persistence-failure kind.
pub open spec fn persistence_code(e: PersistenceError) -> Seq<char> {
    match e {
        PersistenceError::InvalidCString(d) => "invalid-CString "@ + d@ + "."@,
        PersistenceError::DatabaseError => "database-error"@,
        PersistenceError::NotFound => "object-not-found"@,
        PersistenceError::QueryBuilderError(d) => "query-builder-error "@ + d@ + "."@,
        PersistenceError::DeserializationError(d) => "deserialization-error "@ + d@ + "."@,
        PersistenceError::SerializationError(d) => "serialization-error "@ + d@ + "."@,
        PersistenceError::RollbackTransaction => "rollback-transaction."@,
        PersistenceError::AlreadyInTransaction => "already-in-transaction."@,
        PersistenceError::Other => "non-exhaustive."@,
    }
}

/// Every failure an operation can surface: a kind-tagged persistence
/// failure, an ad-hoc reason string classified by response class, or one
/// of the duplication failures.
#[derive(Debug)]
pub enum Error {
    DBError(PersistenceError),
    BadRequest(String),
    InternalServerError(String),
    NotFound(String),
    HttpRequest(String),
    DuplicationError,
    DeletedDuplicationError,
}

/// The non-empty ordered code list that a failure translates to. A
/// persistence failure gives exactly one code naming its kind; an ad-hoc
/// reason is surfaced as its own code.
pub open spec fn error_codes_spec(e: Error) -> Seq<Seq<char>> {
    match e {
        Error::DBError(p) => seq![persistence_code(p)],
        Error::BadRequest(s) => seq![s@],
        Error::InternalServerError(s) => seq![s@],
        Error::NotFound(s) => seq![s@],
        Error::HttpRequest(s) => seq![s@],
        Error::DuplicationError => seq!["duplication-error"@],
        Error::DeletedDuplicationError => seq!["deleted-duplication-error"@],
    }
}

/// The code strings of a code list, in order.
pub open spec fn codes_view(codes: Seq<ErrorCode>) -> Seq<Seq<char>> {
    codes.map_values(|c: ErrorCode| c.code@)
}

impl Error {
    /// Relies on diesel::result::Error: each variant tags one failure
    /// kind, and the boxed sources are rendered with `format!`. Variants
    /// this taxonomy does not track arrive as `Other`.
    #[verifier::external_body]
    pub fn from_diesel(err: DieselError) -> (r: Error)
        ensures
            r is DBError,
    {
        match err {
            DieselError::InvalidCString(e) => Error::DBError(PersistenceError::InvalidCString(format!("{}", e))),
            DieselError::DatabaseError(_, _) => Error::DBError(PersistenceError::DatabaseError),
            DieselError::NotFound => Error::DBError(PersistenceError::NotFound),
            DieselError::QueryBuilderError(e) => Error::DBError(PersistenceError::QueryBuilderError(format!("{}", e))),
            DieselError::DeserializationError(e) => Error::DBError(PersistenceError::DeserializationError(format!("{}", e))),
            DieselError::SerializationError(e) => Error::DBError(PersistenceError::SerializationError(format!("{}", e))),
            DieselError::RollbackTransaction => Error::DBError(PersistenceError::RollbackTransaction),
            DieselError::AlreadyInTransaction => Error::DBError(PersistenceError::AlreadyInTransaction),
            _ => Error::DBError(PersistenceError::Other),
        }
    }
}

/// An ordered list of error codes, ready to be surfaced to a client.
#[derive(Debug)]
pub struct ErrorCodesWrapper {
    error_codes: Vec<ErrorCode>,
}

impl View for ErrorCodesWrapper {
    type V = Seq<Seq<char>>;

    closed spec fn view(&self) -> Seq<Seq<char>> {
        codes_view(self.error_codes@)
    }
}

/// Renders one code that interpolates a detail: `prefix`, then the
/// detail, then a closing period.
fn interpolated_code(prefix: &str, detail: &String) -> (r: String)
    ensures
        r@ == prefix@ + detail@ + "."@,
{
    let mut s = prefix.to_string();
    s.append(detail.as_str());
    s.append(".");
    s
}

impl ErrorCodesWrapper {
    /// A single-code list from an ad-hoc reason string.
    pub fn from_code(code: &str) -> (r: ErrorCodesWrapper)
        ensures
            r@ == seq![code@],
    {
        let codes = vec![ErrorCode { code: code.to_string() }];
        let r = ErrorCodesWrapper { error_codes: codes };
        proof {
            assert(r@ =~= seq![code@]);
        }
        r
    }

    /// A single-code list holding exactly the given code string.
    fn from_code_string(code: String) -> (r: ErrorCodesWrapper)
        ensures
            r@ == seq![code@],
    {
        let ghost v = code@;
        let codes = vec![ErrorCode { code }];
        let r = ErrorCodesWrapper { error_codes: codes };
        proof {
            assert(r@ =~= seq![v]);
        }
        r
    }

    /// Translates a failure into its code list: one code per persistence
    /// failure, naming the failure's kind; an ad-hoc reason becomes its
    /// own code.
    pub fn from_error(err: Error) -> (r: ErrorCodesWrapper)
        ensures
            r@ == error_codes_spec(err),
    {
        match err {
            Error::DBError(p) => {
                match p {
                    PersistenceError::InvalidCString(d) => Self::from_code_string(
                        interpolated_code("invalid-CString ", &d),
                    ),
                    PersistenceError::DatabaseError => Self::from_code("database-error"),
                    PersistenceError::NotFound => Self::from_code("object-not-found"),
                    PersistenceError::QueryBuilderError(d) => Self::from_code_string(
                        interpolated_code("query-builder-error ", &d),
                    ),
                    PersistenceError::DeserializationError(d) => Self::from_code_string(
                        interpolated_code("deserialization-error ", &d),
                    ),
                    PersistenceError::SerializationError(d) => Self::from_code_string(
                        interpolated_code("serialization-error ", &d),
                    ),
                    PersistenceError::RollbackTransaction => Self::from_code("rollback-transaction."),
                    PersistenceError::AlreadyInTransaction => Self::from_code("already-in-transaction."),
                    PersistenceError::Other => Self::from_code("non-exhaustive."),
                }
            },
            Error::BadRequest(s) => Self::from_code_string(s),
            Error::InternalServerError(s) => Self::from_code_string(s),
            Error::NotFound(s) => Self::from_code_string(s),
            Error::HttpRequest(s) => Self::from_code_string(s),
            Error::DuplicationError => Self::from_code("duplication-error"),
            Error::DeletedDuplicationError => Self::from_code("deleted-duplication-error"),
        }
    }

    /// The codes held by the wrapper, in order.
    pub fn get_error_codes(&self) -> (r: Vec<ErrorCode>)
        ensures
            codes_view(r@) == self@,
    {
        let r = self.error_codes.clone();
        proof {
            assert forall|i: int| 0 <= i < r@.len() implies r@[i] == self.error_codes@[i] by {
                assert(vstd::pervasive::cloned(self.error_codes@[i], r@[i]));
            }
            assert(codes_view(r@) =~= codes_view(self.error_codes@));
        }
        r
    }
}

/// The error name the GraphQL transport reports for a failure: one name
/// for persistence failures, one for everything else.
pub open spec fn graphql_error_name(e: Error) -> Seq<char> {
    match e {
        Error::DBError(_) => "gql_diesel_error"@,
        _ => "gql_bad_request"@,
    }
}

/// The kind tag the GraphQL transport attaches to a failure.
pub open spec fn graphql_error_kind(e: Error) -> Seq<char> {
    match e {
        Error::DBError(p) => match p {
            PersistenceError::InvalidCString(_) => "InvalidCString"@,
            PersistenceError::DatabaseError => "DatabaseError"@,
            PersistenceError::NotFound => "NotFound"@,
            PersistenceError::QueryBuilderError(_) => "QueryBuilderError"@,
            PersistenceError::DeserializationError(_) => "DeserializationError"@,
            PersistenceError::SerializationError(_) => "SerializationError"@,
            PersistenceError::RollbackTransaction => "RollbackTransaction"@,
            PersistenceError::AlreadyInTransaction => "AlreadyInTransaction"@,
            PersistenceError::Other => "__Nonexhaustive"@,
        },
        Error::BadRequest(_) => "BadRequest"@,
        Error::InternalServerError(_) => "InternalServerError"@,
        Error::NotFound(_) => "NotFound"@,
        Error::HttpRequest(_) => "HttpRequest"@,
        Error::DuplicationError => "DuplicationError"@,
        Error::DeletedDuplicationError => "DeletedDuplicationError"@,
    }
}

impl Error {
    /// The pair the GraphQL transport builds its field error from: the
    /// error name, and the kind tag attached under the `type` key.
    pub fn graphql_error_parts(&self) -> (r: (String, String))
        ensures
            r.0@ == graphql_error_name(*self),
            r.1@ == graphql_error_kind(*self),
    {
        match self {
            Error::DBError(p) => {
                let kind = match p {
                    PersistenceError::InvalidCString(_) => "InvalidCString",
                    PersistenceError::DatabaseError => "DatabaseError",
                    PersistenceError::NotFound => "NotFound",
                    PersistenceError::QueryBuilderError(_) => "QueryBuilderError",
                    PersistenceError::DeserializationError(_) => "DeserializationError",
                    PersistenceError::SerializationError(_) => "SerializationError",
                    PersistenceError::RollbackTransaction => "RollbackTransaction",
                    PersistenceError::AlreadyInTransaction => "AlreadyInTransaction",
                    PersistenceError::Other => "__Nonexhaustive",
                };
                ("gql_diesel_error".to_string(), kind.to_string())
            },
            Error::BadRequest(_) => ("gql_bad_request".to_string(), "BadRequest".to_string()),
            Error::InternalServerError(_) => (
                "gql_bad_request".to_string(),
                "InternalServerError".to_string(),
            ),
            Error::NotFound(_) => ("gql_bad_request".to_string(), "NotFound".to_string()),
            Error::HttpRequest(_) => ("gql_bad_request".to_string(), "HttpRequest".to_string()),
            Error::DuplicationError => (
                "gql_bad_request".to_string(),
                "DuplicationError".to_string(),
            ),
            Error::DeletedDuplicationError => (
                "gql_bad_request".to_string(),
                "DeletedDuplicationError".to_string(),
            ),
        }
    }
}

/// A single field-validation failure: the field that failed and the
/// violated rule's code.
#[derive(Debug)]
pub struct FieldViolation {
    pub field: String,
    pub code: String,
}

/// One entry of a validation report: a flat field failure carrying its
/// violations, or a nested struct- or list-shaped failure.
#[derive(Debug)]
pub enum ValidationKind {
    Struct,
    List,
    Field(Vec<FieldViolation>),
}

/// The code strings of a list of field violations, in order.
pub open spec fn violation_codes(v: Seq<FieldViolation>) -> Seq<Seq<char>> {
    v.map_values(|f: FieldViolation| f.code@)
}

/// The codes of one report entry: one per field violation. Struct- and
/// list-shaped entries contribute none.
pub open spec fn kind_codes(k: ValidationKind) -> Seq<Seq<char>> {
    match k {
        ValidationKind::Field(v) => violation_codes(v@),
        _ => Seq::empty(),
    }
}

/// The codes of a whole validation report, in order.
pub open spec fn validation_codes(kinds: Seq<ValidationKind>) -> Seq<Seq<char>>
    decreases kinds.len(),
{
    if kinds.len() == 0 {
        Seq::empty()
    } else {
        validation_codes(kinds.drop_last()) + kind_codes(kinds.last())
    }
}

impl ErrorCode {
    /// Appends one `ErrorCode` per violated field rule to `errors`, in
    /// report order. Struct- and list-shaped entries are dropped.
    pub fn validate_errors(error: &Vec<ValidationKind>, errors: &mut Vec<ErrorCode>)
        ensures
            codes_view(final(errors)@) == codes_view(old(errors)@) + validation_codes(error@),
    {
        let mut i: usize = 0;
        while i < error.len()
            invariant
                i <= error@.len(),
                codes_view(errors@) == codes_view(old(errors)@) + validation_codes(
                    error@.take(i as int),
                ),
            decreases error@.len() - i,
        {
            match &error[i] {
                ValidationKind::Field(violations) => {
                    let ghost before = errors@;
                    let mut j: usize = 0;
                    while j < violations.len()
                        invariant
                            j <= violations@.len(),
                            codes_view(errors@) == codes_view(before) + violation_codes(
                                violations@.take(j as int),
                            ),
                        decreases violations@.len() - j,
                    {
                        let code = violations[j].code.clone();
                        let ghost cv = code@;
                        let ghost ecs = errors@;
                        errors.push(ErrorCode { code });
                        proof {
                            assert(codes_view(errors@) =~= codes_view(ecs).push(cv));
                            assert(violations@.take(j as int + 1) =~= violations@.take(
                                j as int,
                            ).push(violations@[j as int]));
                            assert(violation_codes(violations@.take(j as int + 1))
                                =~= violation_codes(violations@.take(j as int)).push(cv));
                            assert(codes_view(errors@) =~= codes_view(before) + violation_codes(
                                violations@.take(j as int + 1),
                            ));
                        }
                        j += 1;
                    }
                    proof {
                        assert(violations@.take(violations@.len() as int) =~= violations@);
                    }
                },
                _ => {},
            }
            proof {
                assert(error@.take(i as int + 1).drop_last() =~= error@.take(i as int));
                assert(error@.take(i as int + 1).last() == error@[i as int]);
                assert(codes_view(errors@) =~= codes_view(old(errors)@) + validation_codes(
                    error@.take(i as int + 1),
                ));
            }
            i += 1;
        }
        proof {
            assert(error@.take(error@.len() as int) =~= error@);
        }
    }
}

/// The three response classes a failure is surfaced in. Each carries the
/// translated codes, serialized by the transport layer as a JSON array.
#[derive(Debug)]
pub enum ServerErrorResponse {
    InternalServerError(Vec<ErrorCode>),
    BadReq(Vec<ErrorCode>),
    NotFound(ErrorCode),
}

/// How a failure is classified into a response class: a not-found failure
/// maps to the not-found class, a bad request to the bad-request class,
/// and every other failure to the internal-server-error class. In every
/// class the carried codes are the failure's translated codes.
pub open spec fn classified(err: Error, r: ServerErrorResponse) -> bool {
    match err {
        Error::NotFound(s) => r matches ServerErrorResponse::NotFound(c) && c.code@ == s@,
        Error::DBError(PersistenceError::NotFound) => r
            matches ServerErrorResponse::NotFound(c) && c.code@ == "object-not-found"@,
        Error::BadRequest(s) => r matches ServerErrorResponse::BadReq(cs) && codes_view(cs@)
            == seq![s@],
        _ => r matches ServerErrorResponse::InternalServerError(cs) && codes_view(cs@)
            == error_codes_spec(err),
    }
}

impl ServerErrorResponse {
    /// The default class for a translated code list.
    pub fn from_codes(error_codes: Vec<ErrorCode>) -> (r: Self)
        ensures
            r == ServerErrorResponse::InternalServerError(error_codes),
    {
        ServerErrorResponse::InternalServerError(error_codes)
    }

    /// Classifies a failure into its response class, carrying the
    /// failure's translated codes.
    pub fn classify(err: Error) -> (r: Self)
        ensures
            classified(err, r),
    {
        match err {
            Error::NotFound(s) => ServerErrorResponse::NotFound(ErrorCode { code: s }),
            Error::DBError(PersistenceError::NotFound) => ServerErrorResponse::NotFound(
                ErrorCode { code: "object-not-found".to_string() },
            ),
            Error::BadRequest(s) => {
                let codes = vec![ErrorCode { code: s }];
                proof {
                    assert(codes_view(codes@) =~= seq![codes@[0].code@]);
                }
                ServerErrorResponse::BadReq(codes)
            },
            other => ServerErrorResponse::InternalServerError(
                ErrorCodesWrapper::from_error(other).get_error_codes(),
            ),
        }
    }

    /// The fixed human-readable line for each response class.
    pub fn display_message(&self) -> (r: String)
        ensures
            self is InternalServerError ==> r@ == "Internal Server Error Display."@,
            self is BadReq ==> r@ == "Bas Request Display."@,
            self is NotFound ==> r@ == "Not Found Display."@,
    {
        match self {
            ServerErrorResponse::InternalServerError(_) => "Internal Server Error Display.".to_string(),
            ServerErrorResponse::BadReq(_) => "Bas Request Display.".to_string(),
            ServerErrorResponse::NotFound(_) => "Not Found Display.".to_string(),
        }
    }
}

} // verus!
