//! A thin helper over a database sequence counter: read the next value,
//! or reset the counter.

use crate::connection::{ConnResult, Connection, ReplyView};
use crate::error::{annotate_query, query_view, RepoError, RepoErrorView};
use crate::repo::{conn_after_stmt, conn_after_unanswered_stmt, conn_unchanged};
use crate::statement::{Arg, ArgView};
use crate::strutil::int_dec_of;
use vstd::prelude::*;

verus! {

/// The statement that advances a sequence and returns its next value.
pub open spec fn nextval_sql(sequence: Seq<char>) -> Seq<char> {
    "SELECT nextval('"@ + sequence + "');"@
}

/// The statement that resets a sequence, optionally to a given value.
pub open spec fn reset_sql(sequence: Seq<char>, to: Option<i64>) -> Seq<char> {
    "ALTER SEQUENCE "@ + sequence + " RESTART"@ + (match to {
        Some(v) => " WITH "@ + int_dec_of(v as int),
        None => Seq::<char>::empty(),
    }) + ";"@
}

/// The counter value carried by a reply: the first column of the last
/// returned row, when it is an integer.
pub open spec fn sequence_row_value(rvs: Seq<Seq<ArgView>>) -> Option<i64> {
    if rvs.len() == 0 {
        None
    } else if rvs.last().len() > 0 && rvs.last()[0] is Int {
        Some(rvs.last()[0]->Int_0)
    } else {
        None
    }
}

/// What reading the next value does: the statement is issued and the front
/// reply decides; a reply without an integer row fails.
pub open spec fn next_val_post<C: Connection>(sequence: Seq<char>, pre: C, r: ConnResult<
    i64,
    C,
>) -> bool {
    let sql = nextval_sql(sequence);
    if !pre.prepare_ok(sql) {
        r matches Err(p) && conn_unchanged(pre, p.1)
    } else if pre.replies().len() == 0 {
        r matches Err(p) && conn_after_unanswered_stmt(pre, p.1, sql, Seq::empty())
    } else {
        match pre.replies()[0] {
            ReplyView::Failure(msg) => r matches Err(p) && conn_after_stmt(
                pre,
                p.1,
                sql,
                Seq::empty(),
            ) && p.0@ == query_view(
                sql,
                Seq::empty(),
                RepoErrorView::Database { message: msg },
            ),
            ReplyView::Rows(rvs) => match sequence_row_value(rvs) {
                Some(v) => r matches Ok(p) && p.0 == v && conn_after_stmt(
                    pre,
                    p.1,
                    sql,
                    Seq::empty(),
                ),
                None => r matches Err(p) && conn_after_stmt(pre, p.1, sql, Seq::empty()) && p.0@
                    == (RepoErrorView::Database { message: "No rows returned"@ }),
            },
        }
    }
}

/// What resetting does: the statement is issued; any rows reply counts as
/// success.
pub open spec fn reset_post<C: Connection>(sequence: Seq<char>, to: Option<i64>, pre: C, r:
    ConnResult<(), C>) -> bool {
    let sql = reset_sql(sequence, to);
    if !pre.prepare_ok(sql) {
        r matches Err(p) && conn_unchanged(pre, p.1)
    } else if pre.replies().len() == 0 {
        r matches Err(p) && conn_after_unanswered_stmt(pre, p.1, sql, Seq::empty())
    } else {
        match pre.replies()[0] {
            ReplyView::Failure(msg) => r matches Err(p) && conn_after_stmt(
                pre,
                p.1,
                sql,
                Seq::empty(),
            ) && p.0@ == query_view(
                sql,
                Seq::empty(),
                RepoErrorView::Database { message: msg },
            ),
            ReplyView::Rows(rvs) => r matches Ok(p) && conn_after_stmt(
                pre,
                p.1,
                sql,
                Seq::empty(),
            ),
        }
    }
}

/// A handle on one named database sequence.
pub struct SequenceImpl {
    pub sequence: String,
}

impl SequenceImpl {
    pub fn new(sequence: &str) -> (r: Self)
        ensures
            r.sequence@ == sequence@,
    {
        SequenceImpl { sequence: String::from_str(sequence) }
    }

    /// Advance the sequence and return its next value.
    pub fn next_val<C: Connection>(&self, conn: C) -> (r: ConnResult<i64, C>)
        ensures
            next_val_post(self.sequence@, conn, r),
    {
        proof {
            reveal_strlit("SELECT nextval('");
            reveal_strlit("');");
            reveal_strlit("No rows returned");
        }
        let mut sql = String::from_str("SELECT nextval('");
        sql.append(self.sequence.as_str());
        sql.append("');");
        let ghost sqlv = sql@;
        proof {
            assert(sqlv == nextval_sql(self.sequence@));
        }
        match conn.prepare(sql.as_str()) {
            Err((e, c)) => Err((e, c)),
            Ok((stmt, c)) => {
                let ghost qargs = Seq::<ArgView>::empty();
                let args: Vec<Arg> = Vec::new();
                proof {
                    assert(args.deep_view() =~= qargs);
                }
                match c.query(&stmt, args) {
                    Err((e, c2)) => Err((annotate_query(sql, Vec::new(), e), c2)),
                    Ok((mut rows, c2)) => {
                        match rows.pop() {
                            None => Err(
                                (
                                    RepoError::Database {
                                        message: String::from_str("No rows returned"),
                                    },
                                    c2,
                                ),
                            ),
                            Some(row) => {
                                if row.cols.len() == 0 {
                                    return Err(
                                        (
                                            RepoError::Database {
                                                message: String::from_str("No rows returned"),
                                            },
                                            c2,
                                        ),
                                    );
                                }
                                match &row.cols[0] {
                                    Arg::Int(v) => Ok((*v, c2)),
                                    _ => Err(
                                        (
                                            RepoError::Database {
                                                message: String::from_str("No rows returned"),
                                            },
                                            c2,
                                        ),
                                    ),
                                }
                            },
                        }
                    },
                }
            },
        }
    }

    /// Reset the sequence, optionally to `to`.
    pub fn reset<C: Connection>(&self, conn: C, to: Option<i64>) -> (r: ConnResult<(), C>)
        ensures
            reset_post(self.sequence@, to, conn, r),
    {
        proof {
            reveal_strlit("ALTER SEQUENCE ");
            reveal_strlit(" RESTART");
            reveal_strlit(" WITH ");
            reveal_strlit(";");
        }
        let mut sql = String::from_str("ALTER SEQUENCE ");
        sql.append(self.sequence.as_str());
        sql.append(" RESTART");
        if let Some(v) = to {
            sql.append(" WITH ");
            let n = crate::strutil::i64_to_string(v);
            sql.append(n.as_str());
        }
        sql.append(";");
        let ghost sqlv = sql@;
        proof {
            assert(sqlv =~= reset_sql(self.sequence@, to));
        }
        match conn.prepare(sql.as_str()) {
            Err((e, c)) => Err((e, c)),
            Ok((stmt, c)) => {
                let args: Vec<Arg> = Vec::new();
                proof {
                    assert(args.deep_view() =~= Seq::<ArgView>::empty());
                }
                match c.query(&stmt, args) {
                    Err((e, c2)) => Err((annotate_query(sql, Vec::new(), e), c2)),
                    Ok((_rows, c2)) => Ok(((), c2)),
                }
            },
        }
    }
}

} // verus!
