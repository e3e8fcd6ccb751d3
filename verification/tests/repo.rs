use stq_core::acl::ForbiddenACL;
use stq_core::connection::{ConnResult, QueryReply, Row, ScriptedConnection};
use stq_core::error::{Action, MultipleOperationError, RepoError};
use stq_core::roles::{make_repo, make_su_repo, RepoLogin, RoleEntry, RoleFilter};
use stq_core::statement::Arg;

use stq_core::routes::Role;

fn role_row(id: i64, user_id: i64, role: &str) -> Row {
    Row {
        cols: vec![
            Arg::Int(id),
            Arg::Int(user_id),
            Arg::Text(String::from(role)),
        ],
    }
}

fn entry(id: i64, user_id: i64, role: Role) -> RoleEntry {
    RoleEntry { id, user_id, role }
}

fn empty_filter() -> RoleFilter {
    RoleFilter {
        id: None,
        user_id: None,
        role: None,
    }
}

#[test]
fn insert_issues_the_rendered_statement() {
    let conn = ScriptedConnection::new(vec![QueryReply::Rows(vec![role_row(1, 7, "user")])]);
    let repo = make_su_repo();
    let r: ConnResult<Vec<RoleEntry>, ScriptedConnection> =
        repo.insert(conn, entry(1, 7, Role::User));
    let (rows, conn) = r.expect("insert should succeed");
    assert_eq!(rows, vec![entry(1, 7, Role::User)]);
    assert_eq!(conn.issued_count(), 1);
    assert_eq!(
        conn.log[0].0,
        "INSERT INTO roles (id, name, user_id) VALUES ($1, $2, $3) RETURNING *;"
    );
    assert_eq!(
        conn.log[0].1,
        vec![
            Arg::Int(1),
            Arg::Text(String::from("user")),
            Arg::Int(7)
        ]
    );
}

#[test]
fn three_records_fail_exactly_one_with_extra_data() {
    let conn = ScriptedConnection::new(vec![QueryReply::Rows(vec![
        role_row(1, 7, "user"),
        role_row(2, 7, "user"),
        role_row(3, 7, "user"),
    ])]);
    let repo = make_su_repo();
    let r: ConnResult<RoleEntry, ScriptedConnection> =
        repo.insert_exactly_one(conn, entry(1, 7, Role::User));
    match r {
        Err((e, _conn)) => assert_eq!(
            e,
            RepoError::Multiple(MultipleOperationError::ExtraData { extra: 2 })
        ),
        Ok(_) => panic!("three rows must not satisfy exactly-one"),
    }
}

#[test]
fn zero_rows_fail_exactly_one_with_no_data() {
    let conn = ScriptedConnection::new(vec![QueryReply::Rows(vec![])]);
    let repo = make_su_repo();
    let r: ConnResult<RoleEntry, ScriptedConnection> =
        repo.insert_exactly_one(conn, entry(1, 7, Role::User));
    match r {
        Err((e, _conn)) => assert_eq!(e, RepoError::Multiple(MultipleOperationError::NoData)),
        Ok(_) => panic!("zero rows must not satisfy exactly-one"),
    }
}

#[test]
fn two_rows_fail_exactly_one_with_extra_data_one() {
    let conn = ScriptedConnection::new(vec![QueryReply::Rows(vec![
        role_row(1, 7, "user"),
        role_row(2, 7, "user"),
    ])]);
    let repo = make_su_repo();
    let r: ConnResult<RoleEntry, ScriptedConnection> =
        repo.insert_exactly_one(conn, entry(1, 7, Role::User));
    match r {
        Err((e, _conn)) => assert_eq!(
            e,
            RepoError::Multiple(MultipleOperationError::ExtraData { extra: 1 })
        ),
        Ok(_) => panic!("two rows must not satisfy exactly-one"),
    }
}

#[test]
fn one_row_satisfies_exactly_one() {
    let conn = ScriptedConnection::new(vec![QueryReply::Rows(vec![role_row(4, 9, "superuser")])]);
    let repo = make_su_repo();
    let r: ConnResult<RoleEntry, ScriptedConnection> =
        repo.insert_exactly_one(conn, entry(4, 9, Role::Superuser));
    let (got, _conn) = r.expect("one row satisfies exactly-one");
    assert_eq!(got, entry(4, 9, Role::Superuser));
}

#[test]
fn denied_preop_issues_no_sql_and_returns_the_connection() {
    let conn = ScriptedConnection::new(vec![QueryReply::Rows(vec![role_row(1, 7, "user")])]);
    let repo = make_su_repo().with_insert_acl_engine(ForbiddenACL);
    let r: ConnResult<Vec<RoleEntry>, ScriptedConnection> =
        repo.insert(conn, entry(1, 7, Role::User));
    match r {
        Err((e, conn)) => {
            assert_eq!(
                e,
                RepoError::Operation {
                    action: Action::Insert,
                    inner: Box::new(RepoError::Unauthorized),
                }
            );
            assert_eq!(conn.issued_count(), 0);
            assert_eq!(conn.commit_count(), 0);
            assert_eq!(conn.rollback_count(), 0);
        },
        Ok(_) => panic!("a denied insert must fail"),
    }
}

#[test]
fn denied_afterop_fails_after_the_sql_ran() {
    let conn = ScriptedConnection::new(vec![QueryReply::Rows(vec![role_row(1, 7, "user")])]);
    let repo = make_su_repo().with_afterop_acl_engine(ForbiddenACL);
    let r: ConnResult<Vec<RoleEntry>, ScriptedConnection> =
        repo.insert(conn, entry(1, 7, Role::User));
    match r {
        Err((e, conn)) => {
            assert_eq!(
                e,
                RepoError::Operation {
                    action: Action::Insert,
                    inner: Box::new(RepoError::Unauthorized),
                }
            );
            assert_eq!(conn.issued_count(), 1);
        },
        Ok(_) => panic!("a denied afterop check must fail the operation"),
    }
}

#[test]
fn select_renders_filters_and_decodes_rows() {
    let conn = ScriptedConnection::new(vec![QueryReply::Rows(vec![role_row(1, 7, "user")])]);
    let repo = make_su_repo();
    let filter = RoleFilter {
        id: None,
        user_id: Some(7),
        role: None,
    };
    let r: ConnResult<Vec<RoleEntry>, ScriptedConnection> = repo.select(conn, filter);
    let (rows, conn) = r.expect("select should succeed");
    assert_eq!(rows, vec![entry(1, 7, Role::User)]);
    assert_eq!(conn.log[0].0, "SELECT * FROM roles WHERE user_id = $1;");
    assert_eq!(conn.log[0].1, vec![Arg::Int(7)]);
}

#[test]
fn select_with_limit_below_one_is_rejected_before_any_sql() {
    let conn = ScriptedConnection::new(vec![QueryReply::Rows(vec![])]);
    let repo = make_su_repo();
    let r: ConnResult<Vec<RoleEntry>, ScriptedConnection> =
        repo.select_full(conn, empty_filter(), Some(0), None);
    match r {
        Err((e, conn)) => {
            assert_eq!(
                e,
                RepoError::Operation {
                    action: Action::Select,
                    inner: Box::new(RepoError::InvalidLimit { limit: 0 }),
                }
            );
            assert_eq!(conn.issued_count(), 0);
        },
        Ok(_) => panic!("limit 0 must be rejected"),
    }
}

#[test]
fn database_failures_carry_the_query_and_its_arguments() {
    let conn = ScriptedConnection::new(vec![QueryReply::Failure(String::from("boom"))]);
    let repo = make_su_repo();
    let filter = RoleFilter {
        id: Some(3),
        user_id: None,
        role: None,
    };
    let r: ConnResult<Vec<RoleEntry>, ScriptedConnection> = repo.select(conn, filter);
    match r {
        Err((e, conn)) => {
            assert_eq!(
                e,
                RepoError::Operation {
                    action: Action::Select,
                    inner: Box::new(RepoError::Query {
                        query: String::from("SELECT * FROM roles WHERE id = $1;"),
                        args: vec![Arg::Int(3)],
                        inner: Box::new(RepoError::Database {
                            message: String::from("boom"),
                        }),
                    }),
                }
            );
            assert_eq!(conn.issued_count(), 1);
        },
        Ok(_) => panic!("a scripted failure must fail the select"),
    }
}

#[test]
fn update_renders_set_before_where() {
    let conn = ScriptedConnection::new(vec![QueryReply::Rows(vec![])]);
    let repo = make_su_repo();
    let r: ConnResult<Vec<RoleEntry>, ScriptedConnection> =
        repo.update(conn, stq_core::roles::DummyRoleUpdater);
    let (rows, conn) = r.expect("the degraded update still runs");
    assert!(rows.is_empty());
    assert_eq!(conn.log[0].0, "SELECT * FROM roles;");
}

#[test]
fn delete_renders_returning() {
    let conn = ScriptedConnection::new(vec![QueryReply::Rows(vec![role_row(1, 7, "user")])]);
    let repo = make_su_repo();
    let filter = RoleFilter {
        id: Some(1),
        user_id: None,
        role: None,
    };
    let r: ConnResult<Vec<RoleEntry>, ScriptedConnection> = repo.delete(conn, filter);
    let (rows, conn) = r.expect("delete should succeed");
    assert_eq!(rows.len(), 1);
    assert_eq!(conn.log[0].0, "DELETE FROM roles WHERE id = $1 RETURNING *;");
}

#[test]
fn malformed_rows_decode_to_the_fallback_entry() {
    let conn = ScriptedConnection::new(vec![QueryReply::Rows(vec![Row {
        cols: vec![Arg::Flag(true)],
    }])]);
    let repo = make_su_repo();
    let r: ConnResult<Vec<RoleEntry>, ScriptedConnection> = repo.select(conn, empty_filter());
    let (rows, _conn) = r.expect("select should succeed");
    assert_eq!(rows, vec![entry(0, 0, Role::User)]);
}

#[test]
fn login_acl_lets_a_user_see_only_their_roles() {
    let login = RepoLogin::User {
        caller_id: 7,
        caller_roles: vec![],
    };
    let repo = make_repo(login);

    let conn = ScriptedConnection::new(vec![QueryReply::Rows(vec![role_row(1, 7, "user")])]);
    let r: ConnResult<Vec<RoleEntry>, ScriptedConnection> = repo.select(conn, empty_filter());
    let (rows, _conn) = r.expect("a user may select their own roles");
    assert_eq!(rows, vec![entry(1, 7, Role::User)]);

    let conn = ScriptedConnection::new(vec![QueryReply::Rows(vec![role_row(2, 8, "user")])]);
    let r: ConnResult<Vec<RoleEntry>, ScriptedConnection> = repo.select(conn, empty_filter());
    match r {
        Err((e, _conn)) => assert_eq!(
            e,
            RepoError::Operation {
                action: Action::Select,
                inner: Box::new(RepoError::Unauthorized),
            }
        ),
        Ok(_) => panic!("another user's role must not be visible"),
    }
}

#[test]
fn anonymous_logins_see_nothing() {
    let repo = make_repo(RepoLogin::Anonymous);
    let conn = ScriptedConnection::new(vec![QueryReply::Rows(vec![role_row(1, 7, "user")])]);
    let r: ConnResult<Vec<RoleEntry>, ScriptedConnection> = repo.select(conn, empty_filter());
    assert!(r.is_err());
}

#[test]
fn superusers_can_do_anything() {
    let login = RepoLogin::User {
        caller_id: 99,
        caller_roles: vec![entry(1, 99, Role::Superuser)],
    };
    let repo = make_repo(login);
    let conn = ScriptedConnection::new(vec![QueryReply::Rows(vec![role_row(5, 7, "user")])]);
    let r: ConnResult<Vec<RoleEntry>, ScriptedConnection> =
        repo.insert(conn, entry(5, 7, Role::User));
    assert!(r.is_ok());
}
