//! The model of the persistence layer's state: one table per entity,
//! each holding rows with unique server-assigned ids. The engine
//! operations read and update this store; the transport layer owns one
//! store per deployment and passes it into every operation.

use vstd::prelude::*;

use crate::model::{AuthUser, Member, Team, User};

verus! {

/// The rows whose id is `id`, as a predicate on auth users.
pub open spec fn auth_user_with_id(id: u128) -> spec_fn(AuthUser) -> bool {
    |u: AuthUser| u.id == id
}

/// The rows whose id is `id`, as a predicate on users.
pub open spec fn user_with_id(id: u128) -> spec_fn(User) -> bool {
    |u: User| u.id == id
}

/// The rows whose id is `id`, as a predicate on teams.
pub open spec fn team_with_id(id: u128) -> spec_fn(Team) -> bool {
    |t: Team| t.id == id
}

/// No two auth-user rows share an id.
pub open spec fn unique_auth_user_ids(rows: Seq<AuthUser>) -> bool {
    forall|i: int, j: int| 0 <= i < j < rows.len() ==> rows[i].id != rows[j].id
}

/// No two user rows share an id.
pub open spec fn unique_user_ids(rows: Seq<User>) -> bool {
    forall|i: int, j: int| 0 <= i < j < rows.len() ==> rows[i].id != rows[j].id
}

/// No two team rows share an id.
pub open spec fn unique_team_ids(rows: Seq<Team>) -> bool {
    forall|i: int, j: int| 0 <= i < j < rows.len() ==> rows[i].id != rows[j].id
}

/// No two member rows share an id.
pub open spec fn unique_member_ids(rows: Seq<Member>) -> bool {
    forall|i: int, j: int| 0 <= i < j < rows.len() ==> rows[i].id != rows[j].id
}

/// The store: one table per entity.
#[derive(Debug)]
pub struct Database {
    pub auth_users: Vec<AuthUser>,
    pub users: Vec<User>,
    pub teams: Vec<Team>,
    pub members: Vec<Member>,
}

impl Database {
    /// The store's invariant: every persisted row keeps a unique id,
    /// assigned at creation time and never reassigned.
    pub open spec fn wf(self) -> bool {
        &&& unique_auth_user_ids(self.auth_users@)
        &&& unique_user_ids(self.users@)
        &&& unique_team_ids(self.teams@)
        &&& unique_member_ids(self.members@)
    }

    /// Checks the store invariant at run time, for callers that did not
    /// build the store through this library's operations alone.
    pub fn check_wf(&self) -> (r: bool)
        ensures
            r == self.wf(),
    {
        let a = auth_user_ids_unique(&self.auth_users);
        let b = user_ids_unique(&self.users);
        let c = team_ids_unique(&self.teams);
        let d = member_ids_unique(&self.members);
        a && b && c && d
    }

    /// An empty store.
    pub fn new() -> (r: Database)
        ensures
            r.wf(),
            r.auth_users@ == Seq::<AuthUser>::empty(),
            r.users@ == Seq::<User>::empty(),
            r.teams@ == Seq::<Team>::empty(),
            r.members@ == Seq::<Member>::empty(),
    {
        Database {
            auth_users: Vec::new(),
            users: Vec::new(),
            teams: Vec::new(),
            members: Vec::new(),
        }
    }
}

/// Whether no two auth-user rows share an id, checked row by row.
fn auth_user_ids_unique(rows: &Vec<AuthUser>) -> (r: bool)
    ensures
        r == unique_auth_user_ids(rows@),
{
    let mut i: usize = 0;
    while i < rows.len()
        invariant
            i <= rows@.len(),
            forall|a: int, b: int| 0 <= a < b < i ==> rows@[a].id != rows@[b].id,
        decreases rows@.len() - i,
    {
        let mut a: usize = 0;
        while a < i
            invariant
                a <= i,
                i < rows@.len(),
                forall|x: int| 0 <= x < a ==> rows@[x].id != rows@[i as int].id,
            decreases i - a,
        {
            if rows[a].id == rows[i].id {
                proof {
                    assert(!unique_auth_user_ids(rows@));
                }
                return false;
            }
            a += 1;
        }
        i += 1;
    }
    true
}

/// Whether no two user rows share an id, checked row by row.
fn user_ids_unique(rows: &Vec<User>) -> (r: bool)
    ensures
        r == unique_user_ids(rows@),
{
    let mut i: usize = 0;
    while i < rows.len()
        invariant
            i <= rows@.len(),
            forall|a: int, b: int| 0 <= a < b < i ==> rows@[a].id != rows@[b].id,
        decreases rows@.len() - i,
    {
        let mut a: usize = 0;
        while a < i
            invariant
                a <= i,
                i < rows@.len(),
                forall|x: int| 0 <= x < a ==> rows@[x].id != rows@[i as int].id,
            decreases i - a,
        {
            if rows[a].id == rows[i].id {
                proof {
                    assert(!unique_user_ids(rows@));
                }
                return false;
            }
            a += 1;
        }
        i += 1;
    }
    true
}

/// Whether no two team rows share an id, checked row by row.
fn team_ids_unique(rows: &Vec<Team>) -> (r: bool)
    ensures
        r == unique_team_ids(rows@),
{
    let mut i: usize = 0;
    while i < rows.len()
        invariant
            i <= rows@.len(),
            forall|a: int, b: int| 0 <= a < b < i ==> rows@[a].id != rows@[b].id,
        decreases rows@.len() - i,
    {
        let mut a: usize = 0;
        while a < i
            invariant
                a <= i,
                i < rows@.len(),
                forall|x: int| 0 <= x < a ==> rows@[x].id != rows@[i as int].id,
            decreases i - a,
        {
            if rows[a].id == rows[i].id {
                proof {
                    assert(!unique_team_ids(rows@));
                }
                return false;
            }
            a += 1;
        }
        i += 1;
    }
    true
}

/// Whether no two member rows share an id, checked row by row.
fn member_ids_unique(rows: &Vec<Member>) -> (r: bool)
    ensures
        r == unique_member_ids(rows@),
{
    let mut i: usize = 0;
    while i < rows.len()
        invariant
            i <= rows@.len(),
            forall|a: int, b: int| 0 <= a < b < i ==> rows@[a].id != rows@[b].id,
        decreases rows@.len() - i,
    {
        let mut a: usize = 0;
        while a < i
            invariant
                a <= i,
                i < rows@.len(),
                forall|x: int| 0 <= x < a ==> rows@[x].id != rows@[i as int].id,
            decreases i - a,
        {
            if rows[a].id == rows[i].id {
                proof {
                    assert(!unique_member_ids(rows@));
                }
                return false;
            }
            a += 1;
        }
        i += 1;
    }
    true
}

} // verus!
