//! The transaction runner: hand a unit of work one transactional connection,
//! then settle — commit when the work succeeded, roll back when it failed —
//! and return the connection in every outcome.

use crate::connection::{conn_of, sat_inc, ConnResult, Connection};
use vstd::prelude::*;

verus! {

/// How a finished unit of work is settled: its own outcome decides between
/// commit and rollback, and exactly one of the two is invoked. A failing
/// unit keeps its error when the rollback goes through; a failing rollback
/// reports its own error. The connection survives every path.
pub open spec fn settle_post<C: Connection, T>(mid: ConnResult<T, C>, r: ConnResult<T, C>) -> bool {
    match mid {
        Ok(p) => {
            let c = p.1;
            &&& conn_of(r).committed() == sat_inc(c.committed())
            &&& conn_of(r).rolled_back() == c.rolled_back()
            &&& conn_of(r).issued() == c.issued()
            &&& conn_of(r).replies() == c.replies()
            &&& (c.commit_ok() ==> (r matches Ok(q) && q.0 == p.0))
            &&& (!c.commit_ok() ==> (r is Err))
        },
        Err(p) => {
            let c = p.1;
            &&& conn_of(r).committed() == c.committed()
            &&& conn_of(r).rolled_back() == sat_inc(c.rolled_back())
            &&& conn_of(r).issued() == c.issued()
            &&& conn_of(r).replies() == c.replies()
            &&& (r is Err)
            &&& (c.rollback_ok() ==> (r matches Err(q) && q.0 == p.0))
        },
    }
}

/// Run one unit of work inside a transaction over `conn`. On success of the
/// whole chain the transaction is committed; on failure anywhere it is
/// rolled back and the original error propagates. Either way the connection
/// comes back to the caller.
pub fn run_transaction<C: Connection, T, F: FnOnce(C) -> ConnResult<T, C>>(conn: C, work: F) -> (r:
    ConnResult<T, C>)
    requires
        call_requires(work, (conn,)),
    ensures
        exists|mid: ConnResult<T, C>|
            #[trigger] call_ensures(work, (conn,), mid) && settle_post(mid, r),
{
    let mid = work(conn);
    let ghost m = mid;
    match mid {
        Ok((v, c)) => {
            match c.commit() {
                Ok((_u, c2)) => {
                    let r = Ok((v, c2));
                    proof {
                        assert(call_ensures(work, (conn,), m) && settle_post(m, r));
                    }
                    r
                },
                Err((e, c2)) => {
                    let r = Err((e, c2));
                    proof {
                        assert(call_ensures(work, (conn,), m) && settle_post(m, r));
                    }
                    r
                },
            }
        },
        Err((e, c)) => {
            match c.rollback() {
                Ok((_u, c2)) => {
                    let r = Err((e, c2));
                    proof {
                        assert(call_ensures(work, (conn,), m) && settle_post(m, r));
                    }
                    r
                },
                Err((e2, c2)) => {
                    let r = Err((e2, c2));
                    proof {
                        assert(call_ensures(work, (conn,), m) && settle_post(m, r));
                    }
                    r
                },
            }
        },
    }
}

/// Law: settling one unit of work invokes exactly one of commit and
/// rollback — never both, never neither. A successful unit commits; a unit
/// that failed at any step rolls back.
pub proof fn lemma_transaction_settles<C: Connection, T>(
    pre: C,
    mid: ConnResult<T, C>,
    r: ConnResult<T, C>,
)
    requires
        settle_post(mid, r),
        conn_of(mid).committed() == pre.committed(),
        conn_of(mid).rolled_back() == pre.rolled_back(),
        pre.committed() < u64::MAX as nat,
        pre.rolled_back() < u64::MAX as nat,
    ensures
        conn_of(r).committed() + conn_of(r).rolled_back() == pre.committed() + pre.rolled_back()
            + 1,
        mid is Ok ==> conn_of(r).committed() == pre.committed() + 1 && conn_of(r).rolled_back()
            == pre.rolled_back(),
        mid is Err ==> conn_of(r).rolled_back() == pre.rolled_back() + 1 && conn_of(r).committed()
            == pre.committed(),
{
}

} // verus!
