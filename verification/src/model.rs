//! The data model: the persisted entities, their writable `New…`
//! variants, and the trusted sources the model depends on (server-
//! generated ids, email-format validation). Identifiers are 128-bit
//! UUID values; temporal fields are UTC timestamps in seconds.

use vstd::prelude::*;

use crate::error::{FieldViolation, ValidationKind};

verus! {

/// An auth user: the primary entity of the cascading-delete relationship.
#[derive(Debug)]
pub struct AuthUser {
    pub id: u128,
    pub email: String,
    pub name: String,
    pub password: String,
}

impl Clone for AuthUser {
    fn clone(&self) -> (res: Self)
        ensures
            res == *self,
    {
        AuthUser {
            id: self.id,
            email: self.email.clone(),
            name: self.name.clone(),
            password: self.password.clone(),
        }
    }
}

/// A user as the REST surface presents it.
#[derive(Debug)]
pub struct User {
    pub id: u128,
    pub email: String,
    pub name: String,
}

impl Clone for User {
    fn clone(&self) -> (res: Self)
        ensures
            res == *self,
    {
        User { id: self.id, email: self.email.clone(), name: self.name.clone() }
    }
}

/// The writable subset of a user, submitted at creation time. The email
/// field is format-validated before the entity is persisted.
#[derive(Debug)]
pub struct NewUser {
    pub email: String,
    pub name: String,
    pub password: String,
}

/// A team.
#[derive(Debug)]
pub struct Team {
    pub id: u128,
    pub name: String,
    pub description: String,
}

impl Clone for Team {
    fn clone(&self) -> (res: Self)
        ensures
            res == *self,
    {
        Team { id: self.id, name: self.name.clone(), description: self.description.clone() }
    }
}

/// The writable subset of a team.
#[derive(Debug)]
pub struct NewTeam {
    pub name: String,
    pub description: String,
}

/// A membership: the dependent entity referencing a team and a user, with
/// a temporal validity window and a soft modification timestamp.
#[derive(Debug)]
pub struct Member {
    pub id: u128,
    pub team_id: u128,
    pub user_id: u128,
    pub name: String,
    pub identity_num: String,
    pub role: String,
    pub assigned_at: i64,
    pub expired_at: Option<i64>,
    pub modification_date: Option<i64>,
}

impl Clone for Member {
    fn clone(&self) -> (res: Self)
        ensures
            res == *self,
    {
        Member {
            id: self.id,
            team_id: self.team_id,
            user_id: self.user_id,
            name: self.name.clone(),
            identity_num: self.identity_num.clone(),
            role: self.role.clone(),
            assigned_at: self.assigned_at,
            expired_at: self.expired_at,
            modification_date: self.modification_date,
        }
    }
}

/// The writable subset of a membership.
#[derive(Debug)]
pub struct NewMember {
    pub team_id: u128,
    pub user_id: u128,
    pub name: String,
    pub identity_num: String,
    pub role: String,
    pub expired_at: Option<i64>,
}

/// A bare name row, as name-projection queries return it.
#[derive(Debug)]
pub struct Name {
    pub name: String,
}

/// Whether a string is a well-formed email address, as the validation
/// rule judges it.
pub uninterp spec fn is_email(s: Seq<char>) -> bool;

/// Relies on validator's `ValidateEmail` for `str`: the verdict is a
/// function of the characters of the string alone.
#[verifier::external_body]
pub(crate) fn email_format_ok(email: &str) -> (r: bool)
    ensures
        r == is_email(email@),
{
    validator::ValidateEmail::validate_email(&email)
}

/// Relies on uuid's `Uuid::new_v4`: a freshly drawn random version-4
/// UUID, as a 128-bit value. The draw is random, so nothing holds of the
/// result; callers check uniqueness against the rows they hold.
#[verifier::external_body]
pub(crate) fn fresh_id() -> u128 {
    uuid::Uuid::new_v4().as_u128()
}

impl NewUser {
    /// The validation report for a new user: one flat field failure with
    /// code `email-format-error` when the email is malformed, an empty
    /// report otherwise.
    pub fn validate(&self) -> (r: Vec<ValidationKind>)
        ensures
            crate::error::validation_codes(r@) == if is_email(self.email@) {
                Seq::<Seq<char>>::empty()
            } else {
                seq!["email-format-error"@]
            },
            r@.len() == 0 <==> is_email(self.email@),
    {
        if email_format_ok(self.email.as_str()) {
            let r: Vec<ValidationKind> = Vec::new();
            proof {
                assert(crate::error::validation_codes(r@) =~= Seq::<Seq<char>>::empty());
            }
            r
        } else {
            let violation = FieldViolation {
                field: "email".to_string(),
                code: "email-format-error".to_string(),
            };
            let violations = vec![violation];
            let ghost vcodes = crate::error::violation_codes(violations@);
            let r = vec![ValidationKind::Field(violations)];
            proof {
                assert(r@.drop_last() =~= Seq::<ValidationKind>::empty());
                assert(crate::error::validation_codes(Seq::<ValidationKind>::empty())
                    =~= Seq::<Seq<char>>::empty());
                assert(crate::error::validation_codes(r@) =~= vcodes);
                assert(vcodes =~= seq!["email-format-error"@]);
            }
            r
        }
    }
}

} // verus!
