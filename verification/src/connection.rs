//! The transactional database connection as a linearly-owned resource.
//!
//! Every operation consumes the connection and hands it back next to its
//! result — on success and on failure alike — so a caller can always recover
//! the connection to commit or roll back. The trait models the connection's
//! observable history (statements issued, commits and rollbacks attempted)
//! and the replies the database will give, so that code built on top can be
//! verified against an exact account of every round trip.

use crate::error::{RepoError, RepoErrorView};
use crate::statement::{Arg, ArgView};
use vstd::prelude::*;

verus! {

/// A prepared statement; the model keeps the SQL text it was prepared from.
pub struct Statement {
    pub sql: String,
}

impl View for Statement {
    type V = Seq<char>;

    open spec fn view(&self) -> Seq<char> {
        self.sql@
    }
}

/// One returned row: a list of column values.
#[derive(Debug, PartialEq)]
pub struct Row {
    pub cols: Vec<Arg>,
}

impl View for Row {
    type V = Seq<ArgView>;

    open spec fn view(&self) -> Seq<ArgView> {
        self.cols.deep_view()
    }
}

impl DeepView for Row {
    type V = Seq<ArgView>;

    open spec fn deep_view(&self) -> Seq<ArgView> {
        self.view()
    }
}

/// The outcome of one connection step: the value with the connection, or the
/// error with the connection. The connection is never lost.
pub type ConnResult<T, C> = Result<(T, C), (RepoError, C)>;

/// The connection carried by either outcome.
pub open spec fn conn_of<T, C>(r: ConnResult<T, C>) -> C {
    match r {
        Ok(p) => p.1,
        Err(p) => p.1,
    }
}

/// One reply of the database to a query: rows, or a failure message.
pub enum ReplyView {
    Rows(Seq<Seq<ArgView>>),
    Failure(Seq<char>),
}

/// A counter that saturates at the width of its machine word.
pub open spec fn sat_inc(n: nat) -> nat {
    if n < u64::MAX as nat {
        n + 1
    } else {
        n
    }
}

/// A transactional connection, linearly owned.
///
/// The spec functions expose the model of the connection: how often commit
/// and rollback were invoked, which statements were sent, which replies the
/// database will give to coming queries, and whether the next prepare,
/// commit or rollback goes through. Every method returns the connection in
/// both outcomes.
pub trait Connection: Sized {
    /// How many times commit was invoked.
    open spec fn committed(&self) -> nat {
        0
    }

    /// How many times rollback was invoked.
    open spec fn rolled_back(&self) -> nat {
        0
    }

    /// The statements sent to the database with their arguments, in order.
    open spec fn issued(&self) -> Seq<(Seq<char>, Seq<ArgView>)> {
        Seq::empty()
    }

    /// The replies the database gives to coming queries, in order.
    open spec fn replies(&self) -> Seq<ReplyView> {
        Seq::empty()
    }

    /// Whether preparing this text goes through.
    open spec fn prepare_ok(&self, sql: Seq<char>) -> bool {
        true
    }

    /// Whether a commit goes through.
    open spec fn commit_ok(&self) -> bool {
        true
    }

    /// Whether a rollback goes through.
    open spec fn rollback_ok(&self) -> bool {
        true
    }

    /// Prepare a statement. Nothing is sent to the database's data stream:
    /// counters, the issue log and the scripted replies stay as they are.
    fn prepare(self, query: &str) -> (r: ConnResult<Statement, Self>)
        ensures
            conn_of(r).committed() == self.committed(),
            conn_of(r).rolled_back() == self.rolled_back(),
            conn_of(r).issued() == self.issued(),
            conn_of(r).replies() == self.replies(),
            conn_of(r).prepare_ok(query@) == self.prepare_ok(query@),
            self.prepare_ok(query@) ==> (r matches Ok(p) && p.0@ == query@),
            !self.prepare_ok(query@) ==> (r is Err),
    ;

    /// Execute a prepared statement. The statement and its arguments are
    /// appended to the issue log; the front scripted reply decides the
    /// outcome and is consumed. A query past the end of the script fails
    /// without consuming anything.
    fn query(self, statement: &Statement, params: Vec<Arg>) -> (r: ConnResult<Vec<Row>, Self>)
        ensures
            conn_of(r).committed() == self.committed(),
            conn_of(r).rolled_back() == self.rolled_back(),
            conn_of(r).issued() == self.issued().push((statement@, params.deep_view())),
            self.replies().len() == 0 ==> (r matches Err(p) && p.0@ matches RepoErrorView::Database
                { .. } && conn_of(r).replies() == self.replies()),
            self.replies().len() > 0 ==> conn_of(r).replies() == self.replies().skip(1) && match self.replies()[0] {
                ReplyView::Rows(rvs) => r matches Ok(p) && p.0.deep_view() == rvs,
                ReplyView::Failure(msg) => r matches Err(p) && p.0@ == (RepoErrorView::Database {
                    message: msg,
                }),
            },
    ;

    /// Commit the transaction. Counts as one commit invocation whatever the
    /// outcome.
    fn commit(self) -> (r: ConnResult<(), Self>)
        ensures
            conn_of(r).committed() == sat_inc(self.committed()),
            conn_of(r).rolled_back() == self.rolled_back(),
            conn_of(r).issued() == self.issued(),
            conn_of(r).replies() == self.replies(),
            self.commit_ok() ==> (r is Ok),
            !self.commit_ok() ==> (r is Err),
    ;

    /// Roll the transaction back. Counts as one rollback invocation whatever
    /// the outcome.
    fn rollback(self) -> (r: ConnResult<(), Self>)
        ensures
            conn_of(r).committed() == self.committed(),
            conn_of(r).rolled_back() == sat_inc(self.rolled_back()),
            conn_of(r).issued() == self.issued(),
            conn_of(r).replies() == self.replies(),
            self.rollback_ok() ==> (r is Ok),
            !self.rollback_ok() ==> (r is Err),
    ;
}

/// One scripted reply of a [`ScriptedConnection`].
#[derive(Debug)]
pub enum QueryReply {
    Rows(Vec<Row>),
    Failure(String),
}

impl View for QueryReply {
    type V = ReplyView;

    open spec fn view(&self) -> ReplyView {
        match self {
            QueryReply::Rows(rows) => ReplyView::Rows(rows.deep_view()),
            QueryReply::Failure(msg) => ReplyView::Failure(msg@),
        }
    }
}

impl DeepView for QueryReply {
    type V = ReplyView;

    open spec fn deep_view(&self) -> ReplyView {
        self.view()
    }
}

/// A connection whose replies follow a script, and which counts what is done
/// to it: the statements issued and every commit and rollback invocation.
/// It backs tests of the repository stack and stands in for a live
/// transaction in the resource model.
#[derive(Debug)]
pub struct ScriptedConnection {
    pub script: Vec<QueryReply>,
    pub commits: u64,
    pub rollbacks: u64,
    pub log: Vec<(String, Vec<Arg>)>,
}

impl ScriptedConnection {
    /// A fresh connection that will answer queries from `script`, front
    /// first.
    pub fn new(script: Vec<QueryReply>) -> (r: Self)
        ensures
            r.committed() == 0,
            r.rolled_back() == 0,
            r.issued() == Seq::<(Seq<char>, Seq<ArgView>)>::empty(),
            r.replies() == script.deep_view(),
    {
        let r = ScriptedConnection { script, commits: 0, rollbacks: 0, log: Vec::new() };
        proof {
            assert(r.issued() =~= Seq::<(Seq<char>, Seq<ArgView>)>::empty());
        }
        r
    }

    /// How many commit invocations the connection has seen.
    pub fn commit_count(&self) -> (r: u64)
        ensures
            r as nat == self.committed(),
    {
        self.commits
    }

    /// How many rollback invocations the connection has seen.
    pub fn rollback_count(&self) -> (r: u64)
        ensures
            r as nat == self.rolled_back(),
    {
        self.rollbacks
    }

    /// How many statements were issued.
    pub fn issued_count(&self) -> (r: usize)
        ensures
            r as nat == self.issued().len(),
    {
        self.log.len()
    }
}

impl Connection for ScriptedConnection {
    open spec fn committed(&self) -> nat {
        self.commits as nat
    }

    open spec fn rolled_back(&self) -> nat {
        self.rollbacks as nat
    }

    open spec fn issued(&self) -> Seq<(Seq<char>, Seq<ArgView>)> {
        self.log@.map_values(|e: (String, Vec<Arg>)| (e.0@, e.1.deep_view()))
    }

    open spec fn replies(&self) -> Seq<ReplyView> {
        self.script.deep_view()
    }

    open spec fn prepare_ok(&self, sql: Seq<char>) -> bool {
        true
    }

    open spec fn commit_ok(&self) -> bool {
        true
    }

    open spec fn rollback_ok(&self) -> bool {
        true
    }

    fn prepare(self, query: &str) -> (r: ConnResult<Statement, Self>) {
        Ok((Statement { sql: String::from_str(query) }, self))
    }

    fn query(self, statement: &Statement, params: Vec<Arg>) -> (r: ConnResult<Vec<Row>, Self>) {
        let mut conn = self;
        let ghost log0 = conn.issued();
        let ghost script0 = conn.replies();
        conn.log.push((statement.sql.clone(), params));
        proof {
            assert(conn.issued() =~= log0.push((statement@, conn.log@.last().1.deep_view())));
        }
        if conn.script.len() == 0 {
            proof {
                reveal_strlit("the reply script is exhausted");
            }
            Err((
                RepoError::Database { message: String::from_str("the reply script is exhausted") },
                conn,
            ))
        } else {
            let reply = conn.script.remove(0);
            proof {
                assert(conn.script.deep_view() =~= script0.skip(1));
                assert(script0[0] == reply@);
            }
            match reply {
                QueryReply::Rows(rows) => Ok((rows, conn)),
                QueryReply::Failure(msg) => Err((RepoError::Database { message: msg }, conn)),
            }
        }
    }

    fn commit(self) -> (r: ConnResult<(), Self>) {
        let mut conn = self;
        conn.commits = if conn.commits < u64::MAX {
            conn.commits + 1
        } else {
            conn.commits
        };
        Ok(((), conn))
    }

    fn rollback(self) -> (r: ConnResult<(), Self>) {
        let mut conn = self;
        conn.rollbacks = if conn.rollbacks < u64::MAX {
            conn.rollbacks + 1
        } else {
            conn.rollbacks
        };
        Ok(((), conn))
    }
}

} // verus!
