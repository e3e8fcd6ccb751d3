use stq_core::acl::{
    AclEngine, AclVerdict, AsyncACLFn, ForbiddenACL, InfallibleSyncACLFn, SyncACLFn, SystemACL,
};
use stq_core::connection::{ConnResult, QueryReply, Row, ScriptedConnection};
use stq_core::error::RepoError;
use stq_core::pool::run_transaction;
use stq_core::roles::{make_su_repo, RoleEntry, RoleFilter};
use stq_core::routes::Role;
use stq_core::statement::Arg;

fn role_row_of(id: i64, user_id: i64, role: &str) -> Row {
    Row {
        cols: vec![
            Arg::Int(id),
            Arg::Int(user_id),
            Arg::Text(String::from(role)),
        ],
    }
}

#[test]
fn a_successful_unit_of_work_commits_exactly_once() {
    let conn = ScriptedConnection::new(vec![QueryReply::Rows(vec![role_row_of(1, 7, "user")])]);
    let repo = make_su_repo();
    let r: ConnResult<Vec<RoleEntry>, ScriptedConnection> = run_transaction(conn, |conn| {
        repo.select(
            conn,
            RoleFilter {
                id: None,
                user_id: Some(7),
                role: None,
            },
        )
    });
    let (rows, conn) = r.expect("the unit of work should succeed");
    assert_eq!(rows.len(), 1);
    assert_eq!(conn.commit_count(), 1);
    assert_eq!(conn.rollback_count(), 0);
}

#[test]
fn a_failing_unit_of_work_rolls_back_exactly_once() {
    let conn = ScriptedConnection::new(vec![QueryReply::Failure(String::from("down"))]);
    let repo = make_su_repo();
    let r: ConnResult<Vec<RoleEntry>, ScriptedConnection> = run_transaction(conn, |conn| {
        repo.select(
            conn,
            RoleFilter {
                id: None,
                user_id: None,
                role: None,
            },
        )
    });
    match r {
        Err((_e, conn)) => {
            assert_eq!(conn.commit_count(), 0);
            assert_eq!(conn.rollback_count(), 1);
        },
        Ok(_) => panic!("a failing step must fail the unit of work"),
    }
}

#[test]
fn a_chain_of_operations_settles_once() {
    let conn = ScriptedConnection::new(vec![
        QueryReply::Rows(vec![role_row_of(1, 7, "user")]),
        QueryReply::Rows(vec![role_row_of(1, 7, "user")]),
    ]);
    let repo = make_su_repo();
    let r: ConnResult<Vec<RoleEntry>, ScriptedConnection> = run_transaction(conn, |conn| {
        let entry = RoleEntry {
            id: 1,
            user_id: 7,
            role: Role::User,
        };
        let (first, conn): (Vec<RoleEntry>, ScriptedConnection) =
            match repo.insert(conn, entry) {
                Ok(v) => v,
                Err(e) => {
                    return Err(e);
                },
            };
        assert_eq!(first.len(), 1);
        repo.select(
            conn,
            RoleFilter {
                id: None,
                user_id: Some(7),
                role: None,
            },
        )
    });
    let (_rows, conn) = r.expect("the chain should succeed");
    assert_eq!(conn.issued_count(), 2);
    assert_eq!(conn.commit_count() + conn.rollback_count(), 1);
    assert_eq!(conn.commit_count(), 1);
}

#[test]
fn system_acl_allows_and_returns_the_context() {
    match SystemACL.allows(41i64) {
        AclVerdict::Decided { allowed, ctx } => {
            assert!(allowed);
            assert_eq!(ctx, 41);
        },
        AclVerdict::Failed { .. } => panic!("the system engine never fails"),
    }
    assert_eq!(SystemACL.ensure_access(41i64), Ok(41));
}

#[test]
fn forbidden_acl_denies_and_returns_the_context() {
    match ForbiddenACL.allows(41i64) {
        AclVerdict::Decided { allowed, ctx } => {
            assert!(!allowed);
            assert_eq!(ctx, 41);
        },
        AclVerdict::Failed { .. } => panic!("the deny-all engine never fails"),
    }
    assert_eq!(
        ForbiddenACL.ensure_access(41i64),
        Err((RepoError::Unauthorized, 41))
    );
}

#[test]
fn predicate_engines_wrap_their_functions() {
    let even = InfallibleSyncACLFn(|v: i64| (v % 2 == 0, v));
    assert_eq!(even.ensure_access(4), Ok(4));
    assert_eq!(even.ensure_access(3), Err((RepoError::Unauthorized, 3)));

    let fallible = SyncACLFn(|v: i64| {
        if v < 0 {
            Err((
                RepoError::Database {
                    message: String::from("negative"),
                },
                v,
            ))
        } else {
            Ok((v > 10, v))
        }
    });
    assert_eq!(fallible.ensure_access(11), Ok(11));
    assert_eq!(
        fallible.ensure_access(5),
        Err((RepoError::Unauthorized, 5))
    );
    assert!(matches!(
        fallible.ensure_access(-1),
        Err((RepoError::Database { .. }, -1))
    ));

    let verdicts = AsyncACLFn(|v: i64| AclVerdict::Decided {
        allowed: v == 0,
        ctx: v,
    });
    assert_eq!(verdicts.ensure_access(0), Ok(0));
    assert!(verdicts.ensure_access(2).is_err());
}
