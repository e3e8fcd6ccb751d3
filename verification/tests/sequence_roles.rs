use stq_core::connection::{ConnResult, QueryReply, Row, ScriptedConnection};
use stq_core::error::{Action, RepoError};
use stq_core::roles::{check_acl, RepoLogin, RoleEntry, RoleFilter, RoleSearchTerms};
use stq_core::routes::Role;
use stq_core::sequence::SequenceImpl;
use stq_core::statement::Arg;

#[test]
fn next_val_reads_the_counter() {
    let conn = ScriptedConnection::new(vec![QueryReply::Rows(vec![Row {
        cols: vec![Arg::Int(42)],
    }])]);
    let seq = SequenceImpl::new("orders_id_seq");
    let r: ConnResult<i64, ScriptedConnection> = seq.next_val(conn);
    let (v, conn) = r.expect("next_val should succeed");
    assert_eq!(v, 42);
    assert_eq!(conn.log[0].0, "SELECT nextval('orders_id_seq');");
    assert!(conn.log[0].1.is_empty());
}

#[test]
fn next_val_without_rows_fails() {
    let conn = ScriptedConnection::new(vec![QueryReply::Rows(vec![])]);
    let seq = SequenceImpl::new("orders_id_seq");
    let r: ConnResult<i64, ScriptedConnection> = seq.next_val(conn);
    match r {
        Err((e, _conn)) => assert_eq!(
            e,
            RepoError::Database {
                message: String::from("No rows returned"),
            }
        ),
        Ok(_) => panic!("an empty reply must fail next_val"),
    }
}

#[test]
fn reset_renders_the_restart_statement() {
    let conn = ScriptedConnection::new(vec![QueryReply::Rows(vec![])]);
    let seq = SequenceImpl::new("orders_id_seq");
    let r: ConnResult<(), ScriptedConnection> = seq.reset(conn, Some(10));
    let (_u, conn) = r.expect("reset should succeed");
    assert_eq!(conn.log[0].0, "ALTER SEQUENCE orders_id_seq RESTART WITH 10;");

    let conn = ScriptedConnection::new(vec![QueryReply::Rows(vec![])]);
    let r: ConnResult<(), ScriptedConnection> = seq.reset(conn, None);
    let (_u, conn) = r.expect("reset should succeed");
    assert_eq!(conn.log[0].0, "ALTER SEQUENCE orders_id_seq RESTART;");
}

#[test]
fn search_terms_become_filters() {
    let by_id: RoleFilter = RoleSearchTerms::Id(4).into();
    assert_eq!(
        by_id,
        RoleFilter {
            id: Some(4),
            user_id: None,
            role: None,
        }
    );
    let by_meta: RoleFilter = RoleSearchTerms::Meta((7, Some(Role::User))).into();
    assert_eq!(
        by_meta,
        RoleFilter {
            id: None,
            user_id: Some(7),
            role: Some(Role::User),
        }
    );
}

#[test]
fn the_role_access_rule_is_exact() {
    let entry = RoleEntry {
        id: 1,
        user_id: 7,
        role: Role::User,
    };
    assert!(!check_acl(&RepoLogin::Anonymous, &entry, Action::Select));
    let own = RepoLogin::User {
        caller_id: 7,
        caller_roles: vec![],
    };
    assert!(check_acl(&own, &entry, Action::Select));
    assert!(!check_acl(&own, &entry, Action::Delete));
    let other = RepoLogin::User {
        caller_id: 8,
        caller_roles: vec![],
    };
    assert!(!check_acl(&other, &entry, Action::Select));
    let su = RepoLogin::User {
        caller_id: 8,
        caller_roles: vec![RoleEntry {
            id: 2,
            user_id: 8,
            role: Role::Superuser,
        }],
    };
    assert!(check_acl(&su, &entry, Action::Delete));
}
