//! The role store: entries granting a role to a user, their filters, and
//! the access rule of the role service — superusers may do anything, other
//! callers may only view their own roles.

use crate::acl::{AclEngine, AclVerdict, SystemACL};
use crate::connection::Row;
use crate::error::Action;
use crate::repo::{DbRepoImpl, Filter, FromRow, Inserter, Updater};
use crate::routes::Role;
use crate::statement::{
    insert_entry, ArgView, ComparisonMode, FilteredOperationBuilder, FilteredOperationBuilderView,
    InsertBuilder, InsertBuilderView, Range, UpdateBuilder, UpdateBuilderView,
};
use vstd::prelude::*;

verus! {

/// One stored role grant.
#[derive(Clone, Debug, PartialEq, Eq, Structural)]
pub struct RoleEntry {
    pub id: i64,
    pub user_id: i64,
    pub role: Role,
}

impl RoleEntry {
    /// The entry a malformed row decodes to.
    pub open spec fn fallback() -> RoleEntry {
        RoleEntry { id: 0, user_id: 0, role: Role::User }
    }
}

/// Whether a row has the shape of a role entry: an id, a user id, and a
/// known role name.
pub open spec fn role_row_ok(row: Seq<ArgView>) -> bool {
    &&& row.len() == 3
    &&& row[0] is Int
    &&& row[1] is Int
    &&& row[2] is Text
    &&& Role::from_str_spec(row[2]->Text_0) is Some
}

impl FromRow for RoleEntry {
    /// A well-shaped row decodes to its fields; anything else decodes to
    /// the fallback entry.
    open spec fn row_rel(row: Seq<ArgView>, t: Self) -> bool {
        if role_row_ok(row) {
            t.id == row[0]->Int_0 && t.user_id == row[1]->Int_0 && Some(t.role)
                == Role::from_str_spec(row[2]->Text_0)
        } else {
            t == RoleEntry::fallback()
        }
    }

    fn from_row(row: Row) -> (t: Self) {
        if row.cols.len() == 3 {
            let id: i64 = match &row.cols[0] {
                crate::statement::Arg::Int(v) => *v,
                _ => {
                    return RoleEntry { id: 0, user_id: 0, role: Role::User };
                },
            };
            let user_id: i64 = match &row.cols[1] {
                crate::statement::Arg::Int(v) => *v,
                _ => {
                    return RoleEntry { id: 0, user_id: 0, role: Role::User };
                },
            };
            match &row.cols[2] {
                crate::statement::Arg::Text(s) => match Role::from_str(s.as_str()) {
                    Some(role) => RoleEntry { id, user_id, role },
                    None => RoleEntry { id: 0, user_id: 0, role: Role::User },
                },
                _ => RoleEntry { id: 0, user_id: 0, role: Role::User },
            }
        } else {
            RoleEntry { id: 0, user_id: 0, role: Role::User }
        }
    }
}

impl Inserter for RoleEntry {
    open spec fn insert_view(self, table: Seq<char>) -> InsertBuilderView {
        InsertBuilderView {
            table,
            extra: Seq::<char>::empty(),
            values: insert_entry(
                insert_entry(
                    insert_entry(
                        Seq::<(Seq<char>, ArgView)>::empty(),
                        "id"@,
                        ArgView::Int(self.id),
                    ),
                    "user_id"@,
                    ArgView::Int(self.user_id),
                ),
                "name"@,
                ArgView::Text(self.role.as_str_spec()),
            ),
        }
    }

    fn into_insert_builder(self, table: &str) -> (b: InsertBuilder) {
        InsertBuilder::new(table).with_arg("id", self.id).with_arg("user_id", self.user_id)
            .with_arg("name", String::from_str(self.role.as_str()))
    }
}

/// A filter over stored role grants; absent fields do not filter.
#[derive(Clone, Debug, PartialEq, Eq, Structural)]
pub struct RoleFilter {
    pub id: Option<i64>,
    pub user_id: Option<i64>,
    pub role: Option<Role>,
}

impl Default for RoleFilter {
    fn default() -> (r: Self)
        ensures
            r.id is None,
            r.user_id is None,
            r.role is None,
    {
        RoleFilter { id: None, user_id: None, role: None }
    }
}

impl Filter for RoleFilter {
    open spec fn filter_view(self, table: Seq<char>) -> FilteredOperationBuilderView {
        let f0 = Seq::<(Seq<char>, Seq<(ComparisonMode, ArgView)>)>::empty();
        let f1 = if self.id is Some {
            insert_entry(f0, "id"@, seq![(ComparisonMode::EQ, ArgView::Int(self.id->0))])
        } else {
            f0
        };
        let f2 = if self.user_id is Some {
            insert_entry(
                f1,
                "user_id"@,
                seq![(ComparisonMode::EQ, ArgView::Int(self.user_id->0))],
            )
        } else {
            f1
        };
        let f3 = if self.role is Some {
            insert_entry(
                f2,
                "name"@,
                seq![(ComparisonMode::EQ, ArgView::Text(self.role->0.as_str_spec()))],
            )
        } else {
            f2
        };
        FilteredOperationBuilderView {
            table,
            extra: Seq::<char>::empty(),
            filters: f3,
            limit: None,
        }
    }

    fn into_filtered_operation_builder(self, table: &str) -> (b: FilteredOperationBuilder) {
        let mut b = FilteredOperationBuilder::new(table);
        if let Some(id) = self.id {
            b = b.with_filter("id", Range::Exact(id));
        }
        if let Some(user_id) = self.user_id {
            b = b.with_filter("user_id", Range::Exact(user_id));
        }
        if let Some(role) = self.role {
            b = b.with_filter("name", Range::Exact(String::from_str(role.as_str())));
        }
        b
    }
}

/// A search request over role grants: by entry id, or by user and optional
/// role.
#[derive(Debug, PartialEq, Eq)]
pub enum RoleSearchTerms {
    Id(i64),
    Meta((i64, Option<Role>)),
}

impl From<RoleSearchTerms> for RoleFilter {
    fn from(v: RoleSearchTerms) -> (r: Self) {
        match v {
            RoleSearchTerms::Id(id) => RoleFilter { id: Some(id), user_id: None, role: None },
            RoleSearchTerms::Meta((user_id, role)) => RoleFilter {
                id: None,
                user_id: Some(user_id),
                role,
            },
        }
    }
}

impl vstd::std_specs::convert::FromSpecImpl<RoleSearchTerms> for RoleFilter {
    open spec fn obeys_from_spec() -> bool {
        true
    }

    open spec fn from_spec(v: RoleSearchTerms) -> Self {
        match v {
            RoleSearchTerms::Id(id) => RoleFilter { id: Some(id), user_id: None, role: None },
            RoleSearchTerms::Meta(p) => RoleFilter { id: None, user_id: Some(p.0), role: p.1 },
        }
    }
}

/// An updater the role store never uses: roles are granted and revoked,
/// never updated in place. It renders to the degraded empty update.
#[derive(Clone, Copy, Debug)]
pub struct DummyRoleUpdater;

impl Updater for DummyRoleUpdater {
    open spec fn update_view(self, table: Seq<char>) -> UpdateBuilderView {
        UpdateBuilderView {
            extra: Seq::<char>::empty(),
            values: Seq::<(Seq<char>, ArgView)>::empty(),
            filters: FilteredOperationBuilderView {
                table,
                extra: Seq::<char>::empty(),
                filters: Seq::<(Seq<char>, Seq<(ComparisonMode, ArgView)>)>::empty(),
                limit: None,
            },
        }
    }

    fn into_update_builder(self, table: &str) -> (b: UpdateBuilder) {
        UpdateBuilder::from(FilteredOperationBuilder::new(table))
    }
}

/// Who is calling the role service.
#[derive(Clone, Debug)]
pub enum RepoLogin {
    Anonymous,
    User { caller_id: i64, caller_roles: Vec<RoleEntry> },
}

/// The access rule of the role service: anonymous callers may do nothing,
/// superusers may do anything, and any other caller may only select their
/// own role entries.
/// Whether any of the roles is the superuser role.
pub open spec fn has_su(roles: Seq<RoleEntry>) -> bool {
    exists|i: int| 0 <= i < roles.len() && (#[trigger] roles[i].role) is Superuser
}

pub open spec fn check_acl_spec(login: RepoLogin, entry: RoleEntry, action: Action) -> bool {
    match login {
        RepoLogin::Anonymous => false,
        RepoLogin::User { caller_id, caller_roles } => has_su(caller_roles@) || (action is Select
            && caller_id == entry.user_id),
    }
}

/// Decide the access rule for one entry and the action that produced it.
pub fn check_acl(login: &RepoLogin, entry: &RoleEntry, action: Action) -> (r: bool)
    ensures
        r == check_acl_spec(*login, *entry, action),
{
    match login {
        RepoLogin::Anonymous => false,
        RepoLogin::User { caller_id, caller_roles } => {
            let mut i: usize = 0;
            while i < caller_roles.len()
                invariant
                    0 <= i <= caller_roles@.len(),
                    *login == (RepoLogin::User {
                        caller_id: *caller_id,
                        caller_roles: *caller_roles,
                    }),
                    forall|j: int|
                        0 <= j < i ==> !((#[trigger] caller_roles@[j].role) is Superuser),
                decreases caller_roles@.len() - i,
            {
                match caller_roles[i].role {
                    Role::Superuser => {
                        proof {
                            assert(has_su(caller_roles@)) by {
                                assert((caller_roles@[i as int].role) is Superuser);
                            }
                        }
                        return true;
                    },
                    _ => {},
                }
                i += 1;
            }
            proof {
                assert(!has_su(caller_roles@));
            }
            match action {
                Action::Select => *caller_id == entry.user_id,
                _ => false,
            }
        },
    }
}

/// The post-operation engine of the role service: it applies
/// [`check_acl`] to every produced entry, never mutating the context.
pub struct LoginACL {
    pub login: RepoLogin,
}

impl AclEngine<(RoleEntry, Action)> for LoginACL {
    open spec fn pre(&self, ctx: (RoleEntry, Action)) -> bool {
        true
    }

    open spec fn post(&self, ctx: (RoleEntry, Action), out: AclVerdict<(RoleEntry, Action)>) -> bool {
        out == (AclVerdict::Decided {
            allowed: check_acl_spec(self.login, ctx.0, ctx.1),
            ctx,
        })
    }

    fn allows(&self, ctx: (RoleEntry, Action)) -> (out: AclVerdict<(RoleEntry, Action)>) {
        let (entry, action) = ctx;
        let allowed = check_acl(&self.login, &entry, action);
        AclVerdict::Decided { allowed, ctx: (entry, action) }
    }
}

/// A role repository with full access, for system use.
pub fn make_su_repo() -> (r: DbRepoImpl<SystemACL, SystemACL, SystemACL, SystemACL, SystemACL>)
    ensures
        r.table@ == "roles"@,
{
    DbRepoImpl::new("roles")
}

/// A role repository for `login`: full access to issue statements, with
/// every produced entry checked against the role service's access rule.
/// No access for anonymous users.
pub fn make_repo(login: RepoLogin) -> (r: DbRepoImpl<
    SystemACL,
    SystemACL,
    SystemACL,
    SystemACL,
    LoginACL,
>)
    ensures
        r.table@ == "roles"@,
        r.afterop_acl_engine == (LoginACL { login }),
{
    make_su_repo().with_afterop_acl_engine(LoginACL { login })
}

} // verus!
