//! The generic CRUD repository: one typed intent becomes one database round
//! trip with access control enforced on both sides.
//!
//! Every call runs the pre-operation engine over the payload (a denial
//! aborts before any SQL is built), renders the payload through the
//! statement builders, executes it over the connection, turns the returned
//! rows into entities, and re-checks each entity against the post-operation
//! engine, first failure winning. Every failure is annotated with the query
//! that caused it and the stage that ran, and the connection is returned to
//! the caller in every outcome.

use crate::acl::{verdict_to_access, AclEngine, AclVerdict};
use crate::connection::{conn_of, ConnResult, Connection, ReplyView, Row};
use crate::error::{
    annotate_query, query_view, stage_error, staged_view, Action, MultipleOperationError,
    RepoError, RepoErrorView,
};
use crate::statement::{
    args_of, filtered_sql, flat_pairs, insert_sql, set_args, update_sql, Arg, ArgView,
    FilteredOperation, FilteredOperationBuilder, FilteredOperationBuilderView, InsertBuilder,
    InsertBuilderView, SelectOperation, UpdateBuilder, UpdateBuilderView,
};
use vstd::prelude::*;

verus! {

/// An entity constructible from one returned row.
pub trait FromRow: Sized {
    /// Which entities a row may produce.
    spec fn row_rel(row: Seq<ArgView>, t: Self) -> bool;

    fn from_row(row: Row) -> (t: Self)
        ensures
            Self::row_rel(row@, t),
    ;
}

/// A payload that renders itself into an insert builder for a table.
pub trait Inserter: Sized {
    /// The builder contents the payload renders to.
    spec fn insert_view(self, table: Seq<char>) -> InsertBuilderView;

    fn into_insert_builder(self, table: &str) -> (b: InsertBuilder)
        ensures
            b@ == self.insert_view(table@),
    ;
}

/// A payload that renders itself into a filtered operation builder.
pub trait Filter: Sized {
    /// The builder contents the payload renders to.
    spec fn filter_view(self, table: Seq<char>) -> FilteredOperationBuilderView;

    fn into_filtered_operation_builder(self, table: &str) -> (b: FilteredOperationBuilder)
        ensures
            b@ == self.filter_view(table@),
    ;
}

/// A payload that renders itself into an update builder.
pub trait Updater: Sized {
    /// The builder contents the payload renders to.
    spec fn update_view(self, table: Seq<char>) -> UpdateBuilderView;

    fn into_update_builder(self, table: &str) -> (b: UpdateBuilder)
        ensures
            b@ == self.update_view(table@),
    ;
}

/// The connection is exactly as it was: nothing issued, nothing settled, no
/// reply consumed.
pub open spec fn conn_unchanged<C: Connection>(pre: C, post: C) -> bool {
    &&& post.committed() == pre.committed()
    &&& post.rolled_back() == pre.rolled_back()
    &&& post.issued() == pre.issued()
    &&& post.replies() == pre.replies()
}

/// The connection after exactly one statement was sent and one reply
/// consumed; the transaction is still unsettled.
pub open spec fn conn_after_stmt<C: Connection>(
    pre: C,
    post: C,
    sql: Seq<char>,
    args: Seq<ArgView>,
) -> bool {
    &&& post.committed() == pre.committed()
    &&& post.rolled_back() == pre.rolled_back()
    &&& post.issued() == pre.issued().push((sql, args))
    &&& post.replies() == pre.replies().skip(1)
}

/// The engine grants `(item, action)` and hands back `out` as the
/// (possibly-mutated) entity.
pub open spec fn granted<T, AP: AclEngine<(T, Action)>>(
    engine: AP,
    item: T,
    action: Action,
    out: T,
) -> bool {
    exists|a2: Action|
        #[trigger] engine.post(
            (item, action),
            AclVerdict::Decided { allowed: true, ctx: (out, a2) },
        )
}

/// Some (possibly-mutated) entity comes out of a granted check of `item`.
pub open spec fn some_grant<T, AP: AclEngine<(T, Action)>>(
    engine: AP,
    item: T,
    action: Action,
) -> bool {
    exists|out: T| granted(engine, item, action, out)
}

/// Every item before `j` passes the engine.
pub open spec fn bulk_granted_prefix<T, AP: AclEngine<(T, Action)>>(
    engine: AP,
    items: Seq<T>,
    action: Action,
    j: int,
) -> bool {
    forall|i: int| 0 <= i < j ==> #[trigger] some_grant(engine, items[i], action)
}

/// The post-operation check of one result batch: every entity is checked
/// with the action that produced it; the first failure fails the whole
/// batch with that failure's error.
pub open spec fn bulk_post<T, AP: AclEngine<(T, Action)>>(
    engine: AP,
    items: Seq<T>,
    action: Action,
    r: Result<Vec<T>, RepoError>,
) -> bool {
    match r {
        Ok(out) => out@.len() == items.len() && forall|i: int|
            0 <= i < items.len() ==> #[trigger] granted(engine, items[i], action, out@[i]),
        Err(err) => exists|j: int|
            0 <= j < items.len() && #[trigger] bulk_granted_prefix(engine, items, action, j) && (
            (exists|c2: (T, Action)|
                engine.post(
                    (items[j], action),
                    AclVerdict::Decided { allowed: false, ctx: c2 },
                ) && err == RepoError::Unauthorized) || (exists|e0: RepoError, c2: (T, Action)|
                engine.post((items[j], action), AclVerdict::Failed { err: e0, ctx: c2 }) && err
                    == e0)),
    }
}

/// Check every entity of a batch against the post-operation engine,
/// tagged with the action that produced it. First failure wins; no partial
/// results are returned.
fn bulk_ensure_access<T, AP: AclEngine<(T, Action)>>(
    engine: &AP,
    items: Vec<T>,
    Ghost(items0): Ghost<Seq<T>>,
    action: Action,
) -> (r: Result<Vec<T>, RepoError>)
    requires
        items@ == items0,
        forall|t: T| #[trigger] engine.pre((t, action)),
    ensures
        bulk_post(*engine, items0, action, r),
{
    let mut rest = items;
    let mut out: Vec<T> = Vec::new();
    while rest.len() > 0
        invariant
            out@.len() + rest@.len() == items0.len(),
            rest@ =~= items0.skip(out@.len() as int),
            forall|i: int|
                0 <= i < out@.len() ==> #[trigger] granted(*engine, items0[i], action, out@[i]),
            forall|t: T| #[trigger] engine.pre((t, action)),
        decreases rest.len(),
    {
        let ghost k = out@.len() as int;
        let item = rest.remove(0);
        proof {
            assert(items0.skip(k)[0] == items0[k]);
            assert(item == items0[k]);
            assert(items0.skip(k).skip(1) =~= items0.skip(k + 1));
        }
        let res = engine.ensure_access((item, action));
        let ghost rr = res;
        match res {
            Ok(ctx) => {
                let (t, _a) = ctx;
                out.push(t);
                proof {
                    let o = choose|o: AclVerdict<(T, Action)>|
                        #[trigger] engine.post((item, action), o) && rr == verdict_to_access(o);
                    assert(engine.post((item, action), o));
                    match o {
                        AclVerdict::Decided { allowed, ctx: c2 } => {
                            assert(allowed);
                            assert(c2 == (t, _a));
                            assert(granted(*engine, items0[k], action, t));
                        },
                        AclVerdict::Failed { .. } => {
                            assert(false);
                        },
                    }
                }
            },
            Err((e, _ctx)) => {
                proof {
                    let o = choose|o: AclVerdict<(T, Action)>|
                        #[trigger] engine.post((item, action), o) && rr == verdict_to_access(o);
                    assert(engine.post((item, action), o));
                    assert forall|i: int| 0 <= i < k implies #[trigger] some_grant(
                        *engine,
                        items0[i],
                        action,
                    ) by {
                        assert(granted(*engine, items0[i], action, out@[i]));
                    }
                    assert(bulk_granted_prefix(*engine, items0, action, k));
                    match o {
                        AclVerdict::Decided { allowed, ctx: c2 } => {
                            assert(!allowed);
                            assert(e == RepoError::Unauthorized);
                            assert(engine.post(
                                (items0[k], action),
                                AclVerdict::Decided { allowed: false, ctx: c2 },
                            ));
                        },
                        AclVerdict::Failed { err, ctx: c2 } => {
                            assert(e == err);
                            assert(engine.post(
                                (items0[k], action),
                                AclVerdict::Failed { err, ctx: c2 },
                            ));
                        },
                    }
                    assert(bulk_post(*engine, items0, action, Err(e)));
                }
                return Err(e);
            },
        }
    }
    proof {
        assert(out@.len() == items0.len());
    }
    Ok(out)
}

/// Copy an argument list; the copy binds the same values.
fn clone_args(v: &Vec<Arg>) -> (r: Vec<Arg>)
    ensures
        r.deep_view() == v.deep_view(),
{
    let mut out: Vec<Arg> = Vec::new();
    let mut i: usize = 0;
    while i < v.len()
        invariant
            0 <= i <= v@.len(),
            out@.len() == i as int,
            forall|j: int| 0 <= j < i ==> out@[j]@ == v@[j]@,
        decreases v@.len() - i,
    {
        out.push(v[i].clone());
        i += 1;
    }
    proof {
        assert(out.deep_view() =~= v.deep_view());
    }
    out
}

/// Turn every returned row into an entity, in order.
fn rows_to_entities<T: FromRow>(rows: Vec<Row>, Ghost(rows0): Ghost<Seq<Seq<ArgView>>>) -> (r: Vec<
    T,
>)
    requires
        rows.deep_view() == rows0,
    ensures
        r@.len() == rows0.len(),
        forall|i: int| 0 <= i < rows0.len() ==> T::row_rel(rows0[i], #[trigger] r@[i]),
{
    let mut rest = rows;
    let mut out: Vec<T> = Vec::new();
    while rest.len() > 0
        invariant
            out@.len() + rest@.len() == rows0.len(),
            rest.deep_view() =~= rows0.skip(out@.len() as int),
            forall|i: int| 0 <= i < out@.len() ==> T::row_rel(rows0[i], #[trigger] out@[i]),
        decreases rest.len(),
    {
        let ghost k = out@.len() as int;
        let row = rest.remove(0);
        proof {
            assert(rest.deep_view().len() == rest@.len());
            assert(rows0.skip(k)[0] == rows0[k]);
            assert(row@ == rows0[k]);
            assert(rows0.skip(k).skip(1) =~= rows0.skip(k + 1));
        }
        let t = T::from_row(row);
        out.push(t);
    }
    out
}

/// What executing one rendered statement does to the connection and what it
/// returns: nothing on a failed prepare; otherwise the statement is issued
/// and the database's front reply decides between rows and a failure
/// annotated with the query.
pub open spec fn stmt_post<C: Connection>(
    pre: C,
    sql: Seq<char>,
    args: Seq<ArgView>,
    r: ConnResult<Vec<Row>, C>,
) -> bool {
    if !pre.prepare_ok(sql) {
        r matches Err(p) && conn_unchanged(pre, p.1)
    } else if pre.replies().len() == 0 {
        r matches Err(p) && p.1.committed() == pre.committed() && p.1.rolled_back()
            == pre.rolled_back() && p.1.issued() == pre.issued().push((sql, args)) && p.1.replies()
            == pre.replies() && exists|msg: Seq<char>|
            p.0@ == query_view(sql, args, RepoErrorView::Database { message: msg })
    } else {
        match pre.replies()[0] {
            ReplyView::Failure(msg) => r matches Err(p) && conn_after_stmt(pre, p.1, sql, args)
                && p.0@ == query_view(sql, args, RepoErrorView::Database { message: msg }),
            ReplyView::Rows(rvs) => r matches Ok(p) && conn_after_stmt(pre, p.1, sql, args)
                && p.0.deep_view() == rvs,
        }
    }
}

/// The operation was denied before any SQL was built: the staged
/// authorization error comes back with the untouched connection.
pub open spec fn denied_post<C: Connection, T>(action: Action, pre: C, r: ConnResult<
    Vec<T>,
    C,
>) -> bool {
    r matches Err(p) && p.0@ == staged_view(action, RepoErrorView::Unauthorized) && conn_unchanged(
        pre,
        p.1,
    )
}

/// The pre-operation check itself failed: its error comes back staged, with
/// the untouched connection.
pub open spec fn engine_failed_post<C: Connection, T>(
    action: Action,
    pre: C,
    err: RepoError,
    r: ConnResult<Vec<T>, C>,
) -> bool {
    r matches Err(p) && p.0@ == staged_view(action, err@) && conn_unchanged(pre, p.1)
}

/// The connection after a statement was sent but answered with nothing: the
/// statement is logged, no reply was consumed, the transaction is
/// unsettled.
pub open spec fn conn_after_unanswered_stmt<C: Connection>(
    pre: C,
    post: C,
    sql: Seq<char>,
    args: Seq<ArgView>,
) -> bool {
    &&& post.committed() == pre.committed()
    &&& post.rolled_back() == pre.rolled_back()
    &&& post.issued() == pre.issued().push((sql, args))
    &&& post.replies() == pre.replies()
}

/// The result batch and the post-operation check, after the statement went
/// through and the database answered rows.
pub open spec fn after_bulk<C: Connection, T, AP: AclEngine<(T, Action)>>(
    afterop: AP,
    action: Action,
    pre: C,
    sql: Seq<char>,
    args: Seq<ArgView>,
    items: Seq<T>,
    r: ConnResult<Vec<T>, C>,
) -> bool {
    match r {
        Ok(p) => conn_after_stmt(pre, p.1, sql, args) && bulk_post(afterop, items, action, Ok(p.0)),
        Err(p) => conn_after_stmt(pre, p.1, sql, args) && exists|e0: RepoError|
            #[trigger] bulk_post(afterop, items, action, Err(e0)) && p.0@ == staged_view(
                action,
                e0@,
            ),
    }
}

/// What one granted CRUD call produces once its statement is rendered:
/// either the prepare fails (nothing is issued), or the statement is issued
/// and the database's reply decides between an annotated failure and a
/// result batch that still has to pass the post-operation check.
pub open spec fn granted_stmt_post<C: Connection, T: FromRow, AP: AclEngine<(T, Action)>>(
    afterop: AP,
    action: Action,
    pre: C,
    sql: Seq<char>,
    args: Seq<ArgView>,
    r: ConnResult<Vec<T>, C>,
) -> bool {
    if !pre.prepare_ok(sql) {
        r matches Err(p) && conn_unchanged(pre, p.1) && (p.0@ matches RepoErrorView::Operation {
            action: a2,
            inner: _,
        } && a2 == action)
    } else if pre.replies().len() == 0 {
        r matches Err(p) && conn_after_unanswered_stmt(pre, p.1, sql, args) && exists|
            msg: Seq<char>,
        |
            p.0@ == staged_view(
                action,
                query_view(sql, args, RepoErrorView::Database { message: msg }),
            )
    } else {
        match pre.replies()[0] {
            ReplyView::Failure(msg) => r matches Err(p) && conn_after_stmt(pre, p.1, sql, args)
                && p.0@ == staged_view(
                action,
                query_view(sql, args, RepoErrorView::Database { message: msg }),
            ),
            ReplyView::Rows(rvs) => exists|items: Seq<T>|
                #![trigger after_bulk(afterop, action, pre, sql, args, items, r)]
                items.len() == rvs.len() && (forall|i: int|
                    0 <= i < rvs.len() ==> T::row_rel(rvs[i], #[trigger] items[i])) && after_bulk(
                    afterop,
                    action,
                    pre,
                    sql,
                    args,
                    items,
                    r,
                ),
        }
    }
}

/// Prepare and execute one rendered statement, annotating a query failure
/// with the query text and its arguments.
fn execute_statement<C: Connection>(conn: C, sql: String, args: Vec<Arg>) -> (r: ConnResult<
    Vec<Row>,
    C,
>)
    ensures
        stmt_post(conn, sql@, args.deep_view(), r),
{
    let ghost sqlv = sql@;
    let ghost argsv = args.deep_view();
    match conn.prepare(sql.as_str()) {
        Err((e, c)) => Err((e, c)),
        Ok((stmt, c)) => {
            let params = clone_args(&args);
            match c.query(&stmt, params) {
                Err((e, c2)) => {
                    let ghost ev = e@;
                    let err = annotate_query(sql, args, e);
                    proof {
                        if conn.replies().len() == 0 {
                            match ev {
                                RepoErrorView::Database { message } => {
                                    assert(err@ == query_view(
                                        sqlv,
                                        argsv,
                                        RepoErrorView::Database { message },
                                    ));
                                },
                                _ => {
                                    assert(false);
                                },
                            }
                        }
                    }
                    Err((err, c2))
                },
                Ok((rows, c2)) => Ok((rows, c2)),
            }
        },
    }
}

/// The `extra` count of an `ExtraData` failure over `len` rows, clamped at
/// the width of the counter.
pub open spec fn exactly_one_extra(len: nat) -> u32 {
    if len - 1 > u32::MAX as nat {
        u32::MAX
    } else {
        (len - 1) as u32
    }
}

/// What an exactly-one helper makes of a bulk outcome: zero rows fail with
/// `NoData`, more than one with `ExtraData`, exactly one row is unwrapped.
/// A failed bulk operation passes through.
pub open spec fn exactly_one_of<T, C>(r0: ConnResult<Vec<T>, C>) -> ConnResult<T, C> {
    match r0 {
        Err(p) => Err(p),
        Ok(p) => if p.0@.len() > 1 {
            Err(
                (
                    RepoError::Multiple(
                        MultipleOperationError::ExtraData {
                            extra: exactly_one_extra(p.0@.len() as nat),
                        },
                    ),
                    p.1,
                ),
            )
        } else if p.0@.len() == 0 {
            Err((RepoError::Multiple(MultipleOperationError::NoData), p.1))
        } else {
            Ok((p.0@[0], p.1))
        },
    }
}

/// Enforce that a bulk outcome affected exactly one row.
fn exactly_one<T, C>(res: ConnResult<Vec<T>, C>) -> (r: ConnResult<T, C>)
    ensures
        r == exactly_one_of(res),
{
    let ghost r0 = res;
    match res {
        Err((e, c)) => Err((e, c)),
        Ok((mut data, c)) => {
            if data.len() > 1 {
                let extra: u32 = if data.len() - 1 > u32::MAX as usize {
                    u32::MAX
                } else {
                    (data.len() - 1) as u32
                };
                Err((RepoError::Multiple(MultipleOperationError::ExtraData { extra }), c))
            } else if data.len() == 0 {
                Err((RepoError::Multiple(MultipleOperationError::NoData), c))
            } else {
                let t = data.remove(0);
                Ok((t, c))
            }
        },
    }
}

/// What an insert returns, as decided by the verdict of the pre-operation
/// engine over the inserter and by the connection's replies.
pub open spec fn insert_post<
    C: Connection,
    I: Inserter,
    T: FromRow,
    AI: AclEngine<I>,
    AP: AclEngine<(T, Action)>,
>(
    pre_engine: AI,
    afterop: AP,
    table: Seq<char>,
    conn: C,
    inserter: I,
    r: ConnResult<Vec<T>, C>,
) -> bool {
    exists|v: AclVerdict<I>|
        #[trigger] pre_engine.post(inserter, v) && match v {
            AclVerdict::Decided { allowed: false, ctx: _ } => denied_post(
                Action::Insert,
                conn,
                r,
            ),
            AclVerdict::Failed { err, ctx: _ } => engine_failed_post(Action::Insert, conn, err, r),
            AclVerdict::Decided { allowed: true, ctx } => ({
                let bv = ctx.insert_view(table);
                granted_stmt_post(
                    afterop,
                    Action::Insert,
                    conn,
                    insert_sql(bv.table, bv.extra, bv.values),
                    set_args(bv.values),
                    r,
                )
            }),
        }
}

/// What a select returns: the verdict of the pre-operation engine, then the
/// limit validation, then the rendered select over the connection.
pub open spec fn select_post<
    C: Connection,
    F: Filter,
    T: FromRow,
    AS: AclEngine<F>,
    AP: AclEngine<(T, Action)>,
>(
    pre_engine: AS,
    afterop: AP,
    table: Seq<char>,
    conn: C,
    filter: F,
    limit: Option<i32>,
    op: Option<SelectOperation>,
    r: ConnResult<Vec<T>, C>,
) -> bool {
    exists|v: AclVerdict<F>|
        #[trigger] pre_engine.post(filter, v) && match v {
            AclVerdict::Decided { allowed: false, ctx: _ } => denied_post(
                Action::Select,
                conn,
                r,
            ),
            AclVerdict::Failed { err, ctx: _ } => engine_failed_post(Action::Select, conn, err, r),
            AclVerdict::Decided { allowed: true, ctx } => {
                if limit matches Some(l) && l < 1 {
                    r matches Err(p) && p.0@ == staged_view(
                        Action::Select,
                        RepoErrorView::InvalidLimit { limit: limit->0 },
                    ) && conn_unchanged(conn, p.1)
                } else {
                    let bv = ctx.filter_view(table);
                    granted_stmt_post(
                        afterop,
                        Action::Select,
                        conn,
                        filtered_sql(
                            bv.table,
                            bv.extra,
                            flat_pairs(bv.filters),
                            (FilteredOperation::Select { op, limit }),
                        ),
                        args_of(flat_pairs(bv.filters)),
                        r,
                    )
                }
            },
        }
}

/// What a delete returns: like a select, over the delete rendering.
pub open spec fn delete_post<
    C: Connection,
    F: Filter,
    T: FromRow,
    AD: AclEngine<F>,
    AP: AclEngine<(T, Action)>,
>(
    pre_engine: AD,
    afterop: AP,
    table: Seq<char>,
    conn: C,
    filter: F,
    r: ConnResult<Vec<T>, C>,
) -> bool {
    exists|v: AclVerdict<F>|
        #[trigger] pre_engine.post(filter, v) && match v {
            AclVerdict::Decided { allowed: false, ctx: _ } => denied_post(
                Action::Delete,
                conn,
                r,
            ),
            AclVerdict::Failed { err, ctx: _ } => engine_failed_post(Action::Delete, conn, err, r),
            AclVerdict::Decided { allowed: true, ctx } => ({
                let bv = ctx.filter_view(table);
                granted_stmt_post(
                    afterop,
                    Action::Delete,
                    conn,
                    filtered_sql(bv.table, bv.extra, flat_pairs(bv.filters), FilteredOperation::Delete),
                    args_of(flat_pairs(bv.filters)),
                    r,
                )
            }),
        }
}

/// The statement and arguments an update renders: a real `UPDATE` when
/// values were set, the degraded plain select otherwise.
pub open spec fn update_render(uv: UpdateBuilderView) -> (Seq<char>, Seq<ArgView>) {
    if uv.values.len() == 0 {
        (
            filtered_sql(
                uv.filters.table,
                uv.filters.extra,
                flat_pairs(uv.filters.filters),
                (FilteredOperation::Select { op: None, limit: None }),
            ),
            args_of(flat_pairs(uv.filters.filters)),
        )
    } else {
        (
            update_sql(uv.filters.table, uv.extra, uv.values, flat_pairs(uv.filters.filters)),
            set_args(uv.values) + args_of(flat_pairs(uv.filters.filters)),
        )
    }
}

/// What an update returns: the verdict of the pre-operation engine, then the
/// update rendering over the connection.
pub open spec fn update_post<
    C: Connection,
    U: Updater,
    T: FromRow,
    AU: AclEngine<U>,
    AP: AclEngine<(T, Action)>,
>(
    pre_engine: AU,
    afterop: AP,
    table: Seq<char>,
    conn: C,
    updater: U,
    r: ConnResult<Vec<T>, C>,
) -> bool {
    exists|v: AclVerdict<U>|
        #[trigger] pre_engine.post(updater, v) && match v {
            AclVerdict::Decided { allowed: false, ctx: _ } => denied_post(
                Action::Update,
                conn,
                r,
            ),
            AclVerdict::Failed { err, ctx: _ } => engine_failed_post(Action::Update, conn, err, r),
            AclVerdict::Decided { allowed: true, ctx } => ({
                let rendered = update_render(ctx.update_view(table));
                granted_stmt_post(afterop, Action::Update, conn, rendered.0, rendered.1, r)
            }),
        }
}

/// Law: an exactly-one helper fails a bulk outcome of zero rows with
/// `NoData`, fails `1 + extra` rows with `ExtraData { extra }`, and unwraps
/// a single row.
pub proof fn lemma_exactly_one_cardinality<T, C>(data: Vec<T>, c: C)
    ensures
        data@.len() == 0 ==> exactly_one_of(Ok((data, c))) == Err::<(T, C), (RepoError, C)>(
            (RepoError::Multiple(MultipleOperationError::NoData), c),
        ),
        1 < data@.len() <= u32::MAX as nat + 1 ==> exactly_one_of(Ok((data, c))) == Err::<
            (T, C),
            (RepoError, C),
        >(
            (
                RepoError::Multiple(
                    MultipleOperationError::ExtraData { extra: (data@.len() - 1) as u32 },
                ),
                c,
            ),
        ),
        data@.len() == 1 ==> exactly_one_of(Ok((data, c))) == Ok::<(T, C), (RepoError, C)>(
            (data@[0], c),
        ),
{
}

/// Law: with the deny-all engine wired before an insert, no SQL is ever
/// issued — the connection comes back untouched, carrying the staged
/// authorization error.
pub proof fn lemma_denied_preop_issues_no_sql<
    C: Connection,
    I: Inserter,
    T: FromRow,
    AP: AclEngine<(T, Action)>,
>(
    afterop: AP,
    table: Seq<char>,
    conn: C,
    inserter: I,
    r: ConnResult<Vec<T>, C>,
)
    requires
        insert_post(crate::acl::ForbiddenACL, afterop, table, conn, inserter, r),
    ensures
        r matches Err(p) && p.0@ == staged_view(Action::Insert, RepoErrorView::Unauthorized)
            && conn_unchanged(conn, p.1),
        conn_of(r).issued() == conn.issued(),
{
    let forbidden = crate::acl::ForbiddenACL;
    let v = choose|v: AclVerdict<I>|
        #[trigger] forbidden.post(inserter, v) && match v {
            AclVerdict::Decided { allowed: false, ctx: _ } => denied_post(
                Action::Insert,
                conn,
                r,
            ),
            AclVerdict::Failed { err, ctx: _ } => engine_failed_post(Action::Insert, conn, err, r),
            AclVerdict::Decided { allowed: true, ctx } => ({
                let bv = ctx.insert_view(table);
                granted_stmt_post(
                    afterop,
                    Action::Insert,
                    conn,
                    insert_sql(bv.table, bv.extra, bv.values),
                    set_args(bv.values),
                    r,
                )
            }),
        };
    assert(v == (AclVerdict::Decided { allowed: false, ctx: inserter }));
}

/// Law: with the deny-all engine wired before a select, no SQL is ever
/// issued — the connection comes back untouched, carrying the staged
/// authorization error.
pub proof fn lemma_denied_preop_select_issues_no_sql<
    C: Connection,
    F: Filter,
    T: FromRow,
    AP: AclEngine<(T, Action)>,
>(
    afterop: AP,
    table: Seq<char>,
    conn: C,
    filter: F,
    limit: Option<i32>,
    op: Option<SelectOperation>,
    r: ConnResult<Vec<T>, C>,
)
    requires
        select_post(crate::acl::ForbiddenACL, afterop, table, conn, filter, limit, op, r),
    ensures
        r matches Err(p) && p.0@ == staged_view(Action::Select, RepoErrorView::Unauthorized)
            && conn_unchanged(conn, p.1),
        conn_of(r).issued() == conn.issued(),
{
    let forbidden = crate::acl::ForbiddenACL;
    let v = choose|v: AclVerdict<F>|
        #[trigger] forbidden.post(filter, v) && match v {
            AclVerdict::Decided { allowed: false, ctx: _ } => denied_post(
                Action::Select,
                conn,
                r,
            ),
            AclVerdict::Failed { err, ctx: _ } => engine_failed_post(Action::Select, conn, err, r),
            AclVerdict::Decided { allowed: true, ctx } => {
                if limit matches Some(l) && l < 1 {
                    r matches Err(p) && p.0@ == staged_view(
                        Action::Select,
                        RepoErrorView::InvalidLimit { limit: limit->0 },
                    ) && conn_unchanged(conn, p.1)
                } else {
                    let bv = ctx.filter_view(table);
                    granted_stmt_post(
                        afterop,
                        Action::Select,
                        conn,
                        filtered_sql(
                            bv.table,
                            bv.extra,
                            flat_pairs(bv.filters),
                            (FilteredOperation::Select { op, limit }),
                        ),
                        args_of(flat_pairs(bv.filters)),
                        r,
                    )
                }
            },
        };
    assert(v == (AclVerdict::Decided { allowed: false, ctx: filter }));
}

/// Law: with the deny-all engine wired before a delete, no SQL is ever
/// issued — the connection comes back untouched, carrying the staged
/// authorization error.
pub proof fn lemma_denied_preop_delete_issues_no_sql<
    C: Connection,
    F: Filter,
    T: FromRow,
    AP: AclEngine<(T, Action)>,
>(
    afterop: AP,
    table: Seq<char>,
    conn: C,
    filter: F,
    r: ConnResult<Vec<T>, C>,
)
    requires
        delete_post(crate::acl::ForbiddenACL, afterop, table, conn, filter, r),
    ensures
        r matches Err(p) && p.0@ == staged_view(Action::Delete, RepoErrorView::Unauthorized)
            && conn_unchanged(conn, p.1),
        conn_of(r).issued() == conn.issued(),
{
    let forbidden = crate::acl::ForbiddenACL;
    let v = choose|v: AclVerdict<F>|
        #[trigger] forbidden.post(filter, v) && match v {
            AclVerdict::Decided { allowed: false, ctx: _ } => denied_post(
                Action::Delete,
                conn,
                r,
            ),
            AclVerdict::Failed { err, ctx: _ } => engine_failed_post(Action::Delete, conn, err, r),
            AclVerdict::Decided { allowed: true, ctx } => ({
                let bv = ctx.filter_view(table);
                granted_stmt_post(
                    afterop,
                    Action::Delete,
                    conn,
                    filtered_sql(bv.table, bv.extra, flat_pairs(bv.filters), FilteredOperation::Delete),
                    args_of(flat_pairs(bv.filters)),
                    r,
                )
            }),
        };
    assert(v == (AclVerdict::Decided { allowed: false, ctx: filter }));
}

/// Law: with the deny-all engine wired before an update, no SQL is ever
/// issued — the connection comes back untouched, carrying the staged
/// authorization error.
pub proof fn lemma_denied_preop_update_issues_no_sql<
    C: Connection,
    U: Updater,
    T: FromRow,
    AP: AclEngine<(T, Action)>,
>(
    afterop: AP,
    table: Seq<char>,
    conn: C,
    updater: U,
    r: ConnResult<Vec<T>, C>,
)
    requires
        update_post(crate::acl::ForbiddenACL, afterop, table, conn, updater, r),
    ensures
        r matches Err(p) && p.0@ == staged_view(Action::Update, RepoErrorView::Unauthorized)
            && conn_unchanged(conn, p.1),
        conn_of(r).issued() == conn.issued(),
{
    let forbidden = crate::acl::ForbiddenACL;
    let v = choose|v: AclVerdict<U>|
        #[trigger] forbidden.post(updater, v) && match v {
            AclVerdict::Decided { allowed: false, ctx: _ } => denied_post(
                Action::Update,
                conn,
                r,
            ),
            AclVerdict::Failed { err, ctx: _ } => engine_failed_post(Action::Update, conn, err, r),
            AclVerdict::Decided { allowed: true, ctx } => ({
                let rendered = update_render(ctx.update_view(table));
                granted_stmt_post(afterop, Action::Update, conn, rendered.0, rendered.1, r)
            }),
        };
    assert(v == (AclVerdict::Decided { allowed: false, ctx: updater }));
}

/// Law: with an allow-all engine before an insert and the deny-all engine
/// after it, the SQL still executes — one statement is issued — but the
/// whole operation fails with the staged authorization error whenever at
/// least one row came back.
pub proof fn lemma_denied_afterop_still_fails<C: Connection, I: Inserter, T: FromRow>(
    table: Seq<char>,
    conn: C,
    inserter: I,
    r: ConnResult<Vec<T>, C>,
)
    requires
        insert_post(
            crate::acl::SystemACL,
            crate::acl::ForbiddenACL,
            table,
            conn,
            inserter,
            r,
        ),
        ({
            let bv = inserter.insert_view(table);
            conn.prepare_ok(insert_sql(bv.table, bv.extra, bv.values))
        }),
        conn.replies().len() > 0,
        conn.replies()[0] matches ReplyView::Rows(rvs) && rvs.len() > 0,
    ensures
        r matches Err(p) && p.0@ == staged_view(Action::Insert, RepoErrorView::Unauthorized),
        conn_of(r).issued().len() == conn.issued().len() + 1,
{
    let system = crate::acl::SystemACL;
    let forbidden = crate::acl::ForbiddenACL;
    let bv = inserter.insert_view(table);
    let sql = insert_sql(bv.table, bv.extra, bv.values);
    let args = set_args(bv.values);
    let v = choose|v: AclVerdict<I>|
        #[trigger] system.post(inserter, v) && match v {
            AclVerdict::Decided { allowed: false, ctx: _ } => denied_post(
                Action::Insert,
                conn,
                r,
            ),
            AclVerdict::Failed { err, ctx: _ } => engine_failed_post(Action::Insert, conn, err, r),
            AclVerdict::Decided { allowed: true, ctx } => ({
                let bv2 = ctx.insert_view(table);
                granted_stmt_post(
                    forbidden,
                    Action::Insert,
                    conn,
                    insert_sql(bv2.table, bv2.extra, bv2.values),
                    set_args(bv2.values),
                    r,
                )
            }),
        };
    assert(v == (AclVerdict::Decided { allowed: true, ctx: inserter }));
    assert(granted_stmt_post(forbidden, Action::Insert, conn, sql, args, r));
    let rvs = conn.replies()[0]->Rows_0;
    let items = choose|items: Seq<T>|
        #![trigger after_bulk(forbidden, Action::Insert, conn, sql, args, items, r)]
        items.len() == rvs.len() && (forall|i: int|
            0 <= i < rvs.len() ==> T::row_rel(rvs[i], #[trigger] items[i])) && after_bulk(
            forbidden,
            Action::Insert,
            conn,
            sql,
            args,
            items,
            r,
        );
    assert(items.len() > 0);
    match r {
        Ok(p) => {
            assert(bulk_post(forbidden, items, Action::Insert, Ok(p.0)));
            assert(granted(forbidden, items[0], Action::Insert, p.0@[0]));
            let a2 = choose|a2: Action|
                #[trigger] forbidden.post(
                    (items[0], Action::Insert),
                    AclVerdict::Decided { allowed: true, ctx: (p.0@[0], a2) },
                );
            assert(false);
        },
        Err(p) => {
            let e0 = choose|e0: RepoError|
                #[trigger] bulk_post(forbidden, items, Action::Insert, Err(e0)) && p.0@
                    == staged_view(Action::Insert, e0@);
            let j = choose|j: int|
                0 <= j < items.len() && #[trigger] bulk_granted_prefix(
                    forbidden,
                    items,
                    Action::Insert,
                    j,
                ) && ((exists|c2: (T, Action)|
                    forbidden.post(
                        (items[j], Action::Insert),
                        AclVerdict::Decided { allowed: false, ctx: c2 },
                    ) && e0 == RepoError::Unauthorized) || (exists|e1: RepoError, c2: (T, Action)|
                    forbidden.post((items[j], Action::Insert), AclVerdict::Failed { err: e1, ctx: c2 })
                        && e0 == e1));
            assert(e0 == RepoError::Unauthorized) by {
                if exists|e1: RepoError, c2: (T, Action)|
                    forbidden.post(
                        (items[j], Action::Insert),
                        AclVerdict::Failed { err: e1, ctx: c2 },
                    ) && e0 == e1 {
                    let (e1, c2) = choose|e1: RepoError, c2: (T, Action)|
                        forbidden.post(
                            (items[j], Action::Insert),
                            AclVerdict::Failed { err: e1, ctx: c2 },
                        ) && e0 == e1;
                    assert(false);
                }
            }
        },
    }
}

/// The generic repository: one table, one access-control engine per
/// operation kind, and one post-operation engine over the produced
/// entities.
pub struct DbRepoImpl<AI, AS, AD, AU, AP> {
    pub table: String,
    pub insert_acl_engine: AI,
    pub select_acl_engine: AS,
    pub delete_acl_engine: AD,
    pub update_acl_engine: AU,
    pub afterop_acl_engine: AP,
}

impl DbRepoImpl<
    crate::acl::SystemACL,
    crate::acl::SystemACL,
    crate::acl::SystemACL,
    crate::acl::SystemACL,
    crate::acl::SystemACL,
> {
    /// A repository over `table` whose every engine allows everything.
    pub fn new(table: &str) -> (r: Self)
        ensures
            r.table@ == table@,
    {
        DbRepoImpl {
            table: String::from_str(table),
            insert_acl_engine: crate::acl::SystemACL,
            select_acl_engine: crate::acl::SystemACL,
            delete_acl_engine: crate::acl::SystemACL,
            update_acl_engine: crate::acl::SystemACL,
            afterop_acl_engine: crate::acl::SystemACL,
        }
    }
}

impl<AI, AS, AD, AU, AP> DbRepoImpl<AI, AS, AD, AU, AP> {
    /// Replace the engine checked before inserts.
    pub fn with_insert_acl_engine<E2>(self, acl_engine: E2) -> (r: DbRepoImpl<E2, AS, AD, AU, AP>)
        ensures
            r.table@ == self.table@,
            r.insert_acl_engine == acl_engine,
            r.select_acl_engine == self.select_acl_engine,
            r.delete_acl_engine == self.delete_acl_engine,
            r.update_acl_engine == self.update_acl_engine,
            r.afterop_acl_engine == self.afterop_acl_engine,
    {
        DbRepoImpl {
            table: self.table,
            insert_acl_engine: acl_engine,
            select_acl_engine: self.select_acl_engine,
            delete_acl_engine: self.delete_acl_engine,
            update_acl_engine: self.update_acl_engine,
            afterop_acl_engine: self.afterop_acl_engine,
        }
    }

    /// Replace the engine checked before selects.
    pub fn with_select_acl_engine<E2>(self, acl_engine: E2) -> (r: DbRepoImpl<AI, E2, AD, AU, AP>)
        ensures
            r.table@ == self.table@,
            r.select_acl_engine == acl_engine,
            r.insert_acl_engine == self.insert_acl_engine,
            r.delete_acl_engine == self.delete_acl_engine,
            r.update_acl_engine == self.update_acl_engine,
            r.afterop_acl_engine == self.afterop_acl_engine,
    {
        DbRepoImpl {
            table: self.table,
            insert_acl_engine: self.insert_acl_engine,
            select_acl_engine: acl_engine,
            delete_acl_engine: self.delete_acl_engine,
            update_acl_engine: self.update_acl_engine,
            afterop_acl_engine: self.afterop_acl_engine,
        }
    }

    /// Replace the engine checked before deletes.
    pub fn with_delete_acl_engine<E2>(self, acl_engine: E2) -> (r: DbRepoImpl<AI, AS, E2, AU, AP>)
        ensures
            r.table@ == self.table@,
            r.delete_acl_engine == acl_engine,
            r.insert_acl_engine == self.insert_acl_engine,
            r.select_acl_engine == self.select_acl_engine,
            r.update_acl_engine == self.update_acl_engine,
            r.afterop_acl_engine == self.afterop_acl_engine,
    {
        DbRepoImpl {
            table: self.table,
            insert_acl_engine: self.insert_acl_engine,
            select_acl_engine: self.select_acl_engine,
            delete_acl_engine: acl_engine,
            update_acl_engine: self.update_acl_engine,
            afterop_acl_engine: self.afterop_acl_engine,
        }
    }

    /// Replace the engine checked before updates.
    pub fn with_update_acl_engine<E2>(self, acl_engine: E2) -> (r: DbRepoImpl<AI, AS, AD, E2, AP>)
        ensures
            r.table@ == self.table@,
            r.update_acl_engine == acl_engine,
            r.insert_acl_engine == self.insert_acl_engine,
            r.select_acl_engine == self.select_acl_engine,
            r.delete_acl_engine == self.delete_acl_engine,
            r.afterop_acl_engine == self.afterop_acl_engine,
    {
        DbRepoImpl {
            table: self.table,
            insert_acl_engine: self.insert_acl_engine,
            select_acl_engine: self.select_acl_engine,
            delete_acl_engine: self.delete_acl_engine,
            update_acl_engine: acl_engine,
            afterop_acl_engine: self.afterop_acl_engine,
        }
    }

    /// Insert the rows the `inserter` renders to, returning the inserted
    /// entities after they passed the post-operation check.
    pub fn insert<C: Connection, I: Inserter, T: FromRow>(&self, conn: C, inserter: I) -> (r:
        ConnResult<Vec<T>, C>) where AI: AclEngine<I>, AP: AclEngine<(T, Action)>
        requires
            self.insert_acl_engine.pre(inserter),
            forall|t: T| #[trigger] self.afterop_acl_engine.pre((t, Action::Insert)),
        ensures
            insert_post(
                self.insert_acl_engine,
                self.afterop_acl_engine,
                self.table@,
                conn,
                inserter,
                r,
            ),
            conn_of(r).committed() == conn.committed(),
            conn_of(r).rolled_back() == conn.rolled_back(),
    {
        let ghost conn0 = conn;
        let ghost ins0 = inserter;
        let res0 = self.insert_acl_engine.ensure_access(inserter);
        let ghost rr = res0;
        match res0 {
            Err((e, _ctx)) => {
                let ghost ev = e@;
                let err = stage_error(Action::Insert, e);
                let r = Err((err, conn));
                proof {
                    let o = choose|o: AclVerdict<I>|
                        #[trigger] self.insert_acl_engine.post(ins0, o) && rr == verdict_to_access(
                            o,
                        );
                    assert(self.insert_acl_engine.post(ins0, o));
                    match o {
                        AclVerdict::Decided { allowed, ctx } => {
                            assert(!allowed);
                            assert(denied_post(Action::Insert, conn0, r));
                        },
                        AclVerdict::Failed { err: e0, ctx } => {
                            assert(e == e0);
                            assert(engine_failed_post(Action::Insert, conn0, e0, r));
                        },
                    }
                }
                r
            },
            Ok(payload) => {
                let ghost p0 = payload;
                proof {
                    let o = choose|o: AclVerdict<I>|
                        #[trigger] self.insert_acl_engine.post(ins0, o) && rr == verdict_to_access(
                            o,
                        );
                    assert(o == (AclVerdict::Decided { allowed: true, ctx: p0 }));
                }
                let b = payload.into_insert_builder(self.table.as_str());
                let ghost bv = b@;
                let (sql, args) = b.build();
                let ghost sqlv = sql@;
                let ghost argsv = args.deep_view();
                proof {
                    assert(sqlv == insert_sql(bv.table, bv.extra, bv.values));
                    assert(argsv == set_args(bv.values));
                }
                let res1 = execute_statement(conn, sql, args);
                match res1 {
                    Err((e, c)) => {
                        let ghost ev = e@;
                        let err = stage_error(Action::Insert, e);
                        let r = Err((err, c));
                        proof {
                            if conn0.prepare_ok(sqlv) && conn0.replies().len() == 0 {
                                let msg = choose|m: Seq<char>|
                                    ev == query_view(
                                        sqlv,
                                        argsv,
                                        RepoErrorView::Database { message: m },
                                    );
                                assert(err@ == staged_view(
                                    Action::Insert,
                                    query_view(sqlv, argsv, RepoErrorView::Database { message: msg }),
                                ));
                            }
                            assert(granted_stmt_post(
                                self.afterop_acl_engine,
                                Action::Insert,
                                conn0,
                                sqlv,
                                argsv,
                                r,
                            ));
                            assert(self.insert_acl_engine.post(
                                ins0,
                                AclVerdict::Decided { allowed: true, ctx: p0 },
                            ));
                        }
                        r
                    },
                    Ok((rows, c)) => {
                        let ghost rvs = rows.deep_view();
                        let ents: Vec<T> = rows_to_entities(rows, Ghost(rvs));
                        let ghost items = ents@;
                        let res2 = bulk_ensure_access(
                            &self.afterop_acl_engine,
                            ents,
                            Ghost(items),
                            Action::Insert,
                        );
                        match res2 {
                            Ok(out) => {
                                let r = Ok((out, c));
                                proof {
                                    assert(after_bulk(
                                        self.afterop_acl_engine,
                                        Action::Insert,
                                        conn0,
                                        sqlv,
                                        argsv,
                                        items,
                                        r,
                                    ));
                                    assert(granted_stmt_post(
                                        self.afterop_acl_engine,
                                        Action::Insert,
                                        conn0,
                                        sqlv,
                                        argsv,
                                        r,
                                    ));
                                    assert(self.insert_acl_engine.post(
                                        ins0,
                                        AclVerdict::Decided { allowed: true, ctx: p0 },
                                    ));
                                }
                                r
                            },
                            Err(e0) => {
                                let ghost e0g = e0;
                                let err = stage_error(Action::Insert, e0);
                                let r = Err((err, c));
                                proof {
                                    assert(bulk_post(
                                        self.afterop_acl_engine,
                                        items,
                                        Action::Insert,
                                        Err(e0g),
                                    ));
                                    assert(after_bulk(
                                        self.afterop_acl_engine,
                                        Action::Insert,
                                        conn0,
                                        sqlv,
                                        argsv,
                                        items,
                                        r,
                                    ));
                                    assert(granted_stmt_post(
                                        self.afterop_acl_engine,
                                        Action::Insert,
                                        conn0,
                                        sqlv,
                                        argsv,
                                        r,
                                    ));
                                    assert(self.insert_acl_engine.post(
                                        ins0,
                                        AclVerdict::Decided { allowed: true, ctx: p0 },
                                    ));
                                }
                                r
                            },
                        }
                    },
                }
            },
        }
    }

    /// Select the entities the `filter` matches, with an optional aggregate
    /// and an optional limit. A limit below one is rejected before any SQL
    /// is built.
    pub fn select_full<C: Connection, F: Filter, T: FromRow>(
        &self,
        conn: C,
        filter: F,
        limit: Option<i32>,
        op: Option<SelectOperation>,
    ) -> (r: ConnResult<Vec<T>, C>) where AS: AclEngine<F>, AP: AclEngine<(T, Action)>
        requires
            self.select_acl_engine.pre(filter),
            forall|t: T| #[trigger] self.afterop_acl_engine.pre((t, Action::Select)),
        ensures
            select_post(
                self.select_acl_engine,
                self.afterop_acl_engine,
                self.table@,
                conn,
                filter,
                limit,
                op,
                r,
            ),
            conn_of(r).committed() == conn.committed(),
            conn_of(r).rolled_back() == conn.rolled_back(),
    {
        let ghost conn0 = conn;
        let ghost f0 = filter;
        let res0 = self.select_acl_engine.ensure_access(filter);
        let ghost rr = res0;
        match res0 {
            Err((e, _ctx)) => {
                let err = stage_error(Action::Select, e);
                let r = Err((err, conn));
                proof {
                    let o = choose|o: AclVerdict<F>|
                        #[trigger] self.select_acl_engine.post(f0, o) && rr == verdict_to_access(
                            o,
                        );
                    assert(self.select_acl_engine.post(f0, o));
                    match o {
                        AclVerdict::Decided { allowed, ctx } => {
                            assert(denied_post(Action::Select, conn0, r));
                        },
                        AclVerdict::Failed { err: e0, ctx } => {
                            assert(engine_failed_post(Action::Select, conn0, e0, r));
                        },
                    }
                }
                r
            },
            Ok(payload) => {
                let ghost p0 = payload;
                proof {
                    let o = choose|o: AclVerdict<F>|
                        #[trigger] self.select_acl_engine.post(f0, o) && rr == verdict_to_access(
                            o,
                        );
                    assert(o == (AclVerdict::Decided { allowed: true, ctx: p0 }));
                }
                if let Some(l) = limit {
                    if l < 1 {
                        let err = stage_error(Action::Select, RepoError::InvalidLimit { limit: l });
                        let r = Err((err, conn));
                        proof {
                            assert(self.select_acl_engine.post(
                                f0,
                                AclVerdict::Decided { allowed: true, ctx: p0 },
                            ));
                        }
                        return r;
                    }
                }
                let b = payload.into_filtered_operation_builder(self.table.as_str());
                let ghost bv = b@;
                let (sql, args) = b.build(FilteredOperation::Select { op, limit });
                let ghost sqlv = sql@;
                let ghost argsv = args.deep_view();
                let res1 = execute_statement(conn, sql, args);
                match res1 {
                    Err((e, c)) => {
                        let ghost ev = e@;
                        let err = stage_error(Action::Select, e);
                        let r = Err((err, c));
                        proof {
                            if conn0.prepare_ok(sqlv) && conn0.replies().len() == 0 {
                                let msg = choose|m: Seq<char>|
                                    ev == query_view(
                                        sqlv,
                                        argsv,
                                        RepoErrorView::Database { message: m },
                                    );
                                assert(err@ == staged_view(
                                    Action::Select,
                                    query_view(sqlv, argsv, RepoErrorView::Database { message: msg }),
                                ));
                            }
                            assert(granted_stmt_post(
                                self.afterop_acl_engine,
                                Action::Select,
                                conn0,
                                sqlv,
                                argsv,
                                r,
                            ));
                            assert(self.select_acl_engine.post(
                                f0,
                                AclVerdict::Decided { allowed: true, ctx: p0 },
                            ));
                        }
                        r
                    },
                    Ok((rows, c)) => {
                        let ghost rvs = rows.deep_view();
                        let ents: Vec<T> = rows_to_entities(rows, Ghost(rvs));
                        let ghost items = ents@;
                        let res2 = bulk_ensure_access(
                            &self.afterop_acl_engine,
                            ents,
                            Ghost(items),
                            Action::Select,
                        );
                        match res2 {
                            Ok(out) => {
                                let r = Ok((out, c));
                                proof {
                                    assert(after_bulk(
                                        self.afterop_acl_engine,
                                        Action::Select,
                                        conn0,
                                        sqlv,
                                        argsv,
                                        items,
                                        r,
                                    ));
                                    assert(granted_stmt_post(
                                        self.afterop_acl_engine,
                                        Action::Select,
                                        conn0,
                                        sqlv,
                                        argsv,
                                        r,
                                    ));
                                    assert(self.select_acl_engine.post(
                                        f0,
                                        AclVerdict::Decided { allowed: true, ctx: p0 },
                                    ));
                                }
                                r
                            },
                            Err(e0) => {
                                let ghost e0g = e0;
                                let err = stage_error(Action::Select, e0);
                                let r = Err((err, c));
                                proof {
                                    assert(bulk_post(
                                        self.afterop_acl_engine,
                                        items,
                                        Action::Select,
                                        Err(e0g),
                                    ));
                                    assert(after_bulk(
                                        self.afterop_acl_engine,
                                        Action::Select,
                                        conn0,
                                        sqlv,
                                        argsv,
                                        items,
                                        r,
                                    ));
                                    assert(granted_stmt_post(
                                        self.afterop_acl_engine,
                                        Action::Select,
                                        conn0,
                                        sqlv,
                                        argsv,
                                        r,
                                    ));
                                    assert(self.select_acl_engine.post(
                                        f0,
                                        AclVerdict::Decided { allowed: true, ctx: p0 },
                                    ));
                                }
                                r
                            },
                        }
                    },
                }
            },
        }
    }

    /// Select the entities the `filter` matches, plainly: no aggregate, no
    /// limit.
    pub fn select<C: Connection, F: Filter, T: FromRow>(&self, conn: C, filter: F) -> (r:
        ConnResult<Vec<T>, C>) where AS: AclEngine<F>, AP: AclEngine<(T, Action)>
        requires
            self.select_acl_engine.pre(filter),
            forall|t: T| #[trigger] self.afterop_acl_engine.pre((t, Action::Select)),
        ensures
            select_post(
                self.select_acl_engine,
                self.afterop_acl_engine,
                self.table@,
                conn,
                filter,
                None,
                None,
                r,
            ),
            conn_of(r).committed() == conn.committed(),
            conn_of(r).rolled_back() == conn.rolled_back(),
    {
        self.select_full(conn, filter, None, None)
    }

    /// Delete the rows the `filter` matches and return the deleted entities
    /// after they passed the post-operation check.
    pub fn delete<C: Connection, F: Filter, T: FromRow>(&self, conn: C, filter: F) -> (r:
        ConnResult<Vec<T>, C>) where AD: AclEngine<F>, AP: AclEngine<(T, Action)>
        requires
            self.delete_acl_engine.pre(filter),
            forall|t: T| #[trigger] self.afterop_acl_engine.pre((t, Action::Delete)),
        ensures
            delete_post(
                self.delete_acl_engine,
                self.afterop_acl_engine,
                self.table@,
                conn,
                filter,
                r,
            ),
            conn_of(r).committed() == conn.committed(),
            conn_of(r).rolled_back() == conn.rolled_back(),
    {
        let ghost conn0 = conn;
        let ghost f0 = filter;
        let res0 = self.delete_acl_engine.ensure_access(filter);
        let ghost rr = res0;
        match res0 {
            Err((e, _ctx)) => {
                let err = stage_error(Action::Delete, e);
                let r = Err((err, conn));
                proof {
                    let o = choose|o: AclVerdict<F>|
                        #[trigger] self.delete_acl_engine.post(f0, o) && rr == verdict_to_access(
                            o,
                        );
                    assert(self.delete_acl_engine.post(f0, o));
                    match o {
                        AclVerdict::Decided { allowed, ctx } => {
                            assert(denied_post(Action::Delete, conn0, r));
                        },
                        AclVerdict::Failed { err: e0, ctx } => {
                            assert(engine_failed_post(Action::Delete, conn0, e0, r));
                        },
                    }
                }
                r
            },
            Ok(payload) => {
                let ghost p0 = payload;
                proof {
                    let o = choose|o: AclVerdict<F>|
                        #[trigger] self.delete_acl_engine.post(f0, o) && rr == verdict_to_access(
                            o,
                        );
                    assert(o == (AclVerdict::Decided { allowed: true, ctx: p0 }));
                }
                let b = payload.into_filtered_operation_builder(self.table.as_str());
                let ghost bv = b@;
                let (sql, args) = b.build(FilteredOperation::Delete);
                let ghost sqlv = sql@;
                let ghost argsv = args.deep_view();
                let res1 = execute_statement(conn, sql, args);
                match res1 {
                    Err((e, c)) => {
                        let ghost ev = e@;
                        let err = stage_error(Action::Delete, e);
                        let r = Err((err, c));
                        proof {
                            if conn0.prepare_ok(sqlv) && conn0.replies().len() == 0 {
                                let msg = choose|m: Seq<char>|
                                    ev == query_view(
                                        sqlv,
                                        argsv,
                                        RepoErrorView::Database { message: m },
                                    );
                                assert(err@ == staged_view(
                                    Action::Delete,
                                    query_view(sqlv, argsv, RepoErrorView::Database { message: msg }),
                                ));
                            }
                            assert(granted_stmt_post(
                                self.afterop_acl_engine,
                                Action::Delete,
                                conn0,
                                sqlv,
                                argsv,
                                r,
                            ));
                            assert(self.delete_acl_engine.post(
                                f0,
                                AclVerdict::Decided { allowed: true, ctx: p0 },
                            ));
                        }
                        r
                    },
                    Ok((rows, c)) => {
                        let ghost rvs = rows.deep_view();
                        let ents: Vec<T> = rows_to_entities(rows, Ghost(rvs));
                        let ghost items = ents@;
                        let res2 = bulk_ensure_access(
                            &self.afterop_acl_engine,
                            ents,
                            Ghost(items),
                            Action::Delete,
                        );
                        match res2 {
                            Ok(out) => {
                                let r = Ok((out, c));
                                proof {
                                    assert(after_bulk(
                                        self.afterop_acl_engine,
                                        Action::Delete,
                                        conn0,
                                        sqlv,
                                        argsv,
                                        items,
                                        r,
                                    ));
                                    assert(granted_stmt_post(
                                        self.afterop_acl_engine,
                                        Action::Delete,
                                        conn0,
                                        sqlv,
                                        argsv,
                                        r,
                                    ));
                                    assert(self.delete_acl_engine.post(
                                        f0,
                                        AclVerdict::Decided { allowed: true, ctx: p0 },
                                    ));
                                }
                                r
                            },
                            Err(e0) => {
                                let ghost e0g = e0;
                                let err = stage_error(Action::Delete, e0);
                                let r = Err((err, c));
                                proof {
                                    assert(bulk_post(
                                        self.afterop_acl_engine,
                                        items,
                                        Action::Delete,
                                        Err(e0g),
                                    ));
                                    assert(after_bulk(
                                        self.afterop_acl_engine,
                                        Action::Delete,
                                        conn0,
                                        sqlv,
                                        argsv,
                                        items,
                                        r,
                                    ));
                                    assert(granted_stmt_post(
                                        self.afterop_acl_engine,
                                        Action::Delete,
                                        conn0,
                                        sqlv,
                                        argsv,
                                        r,
                                    ));
                                    assert(self.delete_acl_engine.post(
                                        f0,
                                        AclVerdict::Decided { allowed: true, ctx: p0 },
                                    ));
                                }
                                r
                            },
                        }
                    },
                }
            },
        }
    }

    /// Update the rows the `updater`'s filters match with its values,
    /// returning the updated entities after they passed the post-operation
    /// check. An updater without values degrades to the plain select over
    /// the same filters.
    pub fn update<C: Connection, U: Updater, T: FromRow>(&self, conn: C, updater: U) -> (r:
        ConnResult<Vec<T>, C>) where AU: AclEngine<U>, AP: AclEngine<(T, Action)>
        requires
            self.update_acl_engine.pre(updater),
            forall|t: T| #[trigger] self.afterop_acl_engine.pre((t, Action::Update)),
            forall|u2: U|
                ({
                    let uv = #[trigger] u2.update_view(self.table@);
                    uv.values.len() + flat_pairs(uv.filters.filters).len() < usize::MAX
                }),
        ensures
            update_post(
                self.update_acl_engine,
                self.afterop_acl_engine,
                self.table@,
                conn,
                updater,
                r,
            ),
            conn_of(r).committed() == conn.committed(),
            conn_of(r).rolled_back() == conn.rolled_back(),
    {
        let ghost conn0 = conn;
        let ghost u0 = updater;
        let res0 = self.update_acl_engine.ensure_access(updater);
        let ghost rr = res0;
        match res0 {
            Err((e, _ctx)) => {
                let err = stage_error(Action::Update, e);
                let r = Err((err, conn));
                proof {
                    let o = choose|o: AclVerdict<U>|
                        #[trigger] self.update_acl_engine.post(u0, o) && rr == verdict_to_access(
                            o,
                        );
                    assert(self.update_acl_engine.post(u0, o));
                    match o {
                        AclVerdict::Decided { allowed, ctx } => {
                            assert(denied_post(Action::Update, conn0, r));
                        },
                        AclVerdict::Failed { err: e0, ctx } => {
                            assert(engine_failed_post(Action::Update, conn0, e0, r));
                        },
                    }
                }
                r
            },
            Ok(payload) => {
                let ghost p0 = payload;
                proof {
                    let o = choose|o: AclVerdict<U>|
                        #[trigger] self.update_acl_engine.post(u0, o) && rr == verdict_to_access(
                            o,
                        );
                    assert(o == (AclVerdict::Decided { allowed: true, ctx: p0 }));
                }
                let b = payload.into_update_builder(self.table.as_str());
                let ghost bv = b@;
                let (sql, args) = b.build();
                let ghost sqlv = sql@;
                let ghost argsv = args.deep_view();
                proof {
                    assert(sqlv == update_render(bv).0);
                    assert(argsv == update_render(bv).1);
                }
                let res1 = execute_statement(conn, sql, args);
                match res1 {
                    Err((e, c)) => {
                        let ghost ev = e@;
                        let err = stage_error(Action::Update, e);
                        let r = Err((err, c));
                        proof {
                            if conn0.prepare_ok(sqlv) && conn0.replies().len() == 0 {
                                let msg = choose|m: Seq<char>|
                                    ev == query_view(
                                        sqlv,
                                        argsv,
                                        RepoErrorView::Database { message: m },
                                    );
                                assert(err@ == staged_view(
                                    Action::Update,
                                    query_view(sqlv, argsv, RepoErrorView::Database { message: msg }),
                                ));
                            }
                            assert(granted_stmt_post(
                                self.afterop_acl_engine,
                                Action::Update,
                                conn0,
                                sqlv,
                                argsv,
                                r,
                            ));
                            assert(self.update_acl_engine.post(
                                u0,
                                AclVerdict::Decided { allowed: true, ctx: p0 },
                            ));
                        }
                        r
                    },
                    Ok((rows, c)) => {
                        let ghost rvs = rows.deep_view();
                        let ents: Vec<T> = rows_to_entities(rows, Ghost(rvs));
                        let ghost items = ents@;
                        let res2 = bulk_ensure_access(
                            &self.afterop_acl_engine,
                            ents,
                            Ghost(items),
                            Action::Update,
                        );
                        match res2 {
                            Ok(out) => {
                                let r = Ok((out, c));
                                proof {
                                    assert(after_bulk(
                                        self.afterop_acl_engine,
                                        Action::Update,
                                        conn0,
                                        sqlv,
                                        argsv,
                                        items,
                                        r,
                                    ));
                                    assert(granted_stmt_post(
                                        self.afterop_acl_engine,
                                        Action::Update,
                                        conn0,
                                        sqlv,
                                        argsv,
                                        r,
                                    ));
                                    assert(self.update_acl_engine.post(
                                        u0,
                                        AclVerdict::Decided { allowed: true, ctx: p0 },
                                    ));
                                }
                                r
                            },
                            Err(e0) => {
                                let ghost e0g = e0;
                                let err = stage_error(Action::Update, e0);
                                let r = Err((err, c));
                                proof {
                                    assert(bulk_post(
                                        self.afterop_acl_engine,
                                        items,
                                        Action::Update,
                                        Err(e0g),
                                    ));
                                    assert(after_bulk(
                                        self.afterop_acl_engine,
                                        Action::Update,
                                        conn0,
                                        sqlv,
                                        argsv,
                                        items,
                                        r,
                                    ));
                                    assert(granted_stmt_post(
                                        self.afterop_acl_engine,
                                        Action::Update,
                                        conn0,
                                        sqlv,
                                        argsv,
                                        r,
                                    ));
                                    assert(self.update_acl_engine.post(
                                        u0,
                                        AclVerdict::Decided { allowed: true, ctx: p0 },
                                    ));
                                }
                                r
                            },
                        }
                    },
                }
            },
        }
    }

    /// Insert and demand exactly one resulting row.
    pub fn insert_exactly_one<C: Connection, I: Inserter, T: FromRow>(
        &self,
        conn: C,
        inserter: I,
    ) -> (r: ConnResult<T, C>) where AI: AclEngine<I>, AP: AclEngine<(T, Action)>
        requires
            self.insert_acl_engine.pre(inserter),
            forall|t: T| #[trigger] self.afterop_acl_engine.pre((t, Action::Insert)),
        ensures
            exists|r0: ConnResult<Vec<T>, C>|
                #[trigger] insert_post(
                    self.insert_acl_engine,
                    self.afterop_acl_engine,
                    self.table@,
                    conn,
                    inserter,
                    r0,
                ) && r == exactly_one_of(r0),
            conn_of(r).committed() == conn.committed(),
            conn_of(r).rolled_back() == conn.rolled_back(),
    {
        let res = self.insert(conn, inserter);
        let ghost r0 = res;
        let r = exactly_one(res);
        proof {
            assert(r == exactly_one_of(r0));
        }
        r
    }

    /// Select and demand exactly one matching row.
    pub fn select_exactly_one<C: Connection, F: Filter, T: FromRow>(&self, conn: C, filter: F) -> (r:
        ConnResult<T, C>) where AS: AclEngine<F>, AP: AclEngine<(T, Action)>
        requires
            self.select_acl_engine.pre(filter),
            forall|t: T| #[trigger] self.afterop_acl_engine.pre((t, Action::Select)),
        ensures
            exists|r0: ConnResult<Vec<T>, C>|
                #[trigger] select_post(
                    self.select_acl_engine,
                    self.afterop_acl_engine,
                    self.table@,
                    conn,
                    filter,
                    None,
                    None,
                    r0,
                ) && r == exactly_one_of(r0),
            conn_of(r).committed() == conn.committed(),
            conn_of(r).rolled_back() == conn.rolled_back(),
    {
        let res = self.select(conn, filter);
        let ghost r0 = res;
        let r = exactly_one(res);
        proof {
            assert(r == exactly_one_of(r0));
        }
        r
    }

    /// Update and demand exactly one resulting row.
    pub fn update_exactly_one<C: Connection, U: Updater, T: FromRow>(&self, conn: C, updater: U) -> (r:
        ConnResult<T, C>) where AU: AclEngine<U>, AP: AclEngine<(T, Action)>
        requires
            self.update_acl_engine.pre(updater),
            forall|t: T| #[trigger] self.afterop_acl_engine.pre((t, Action::Update)),
            forall|u2: U|
                ({
                    let uv = #[trigger] u2.update_view(self.table@);
                    uv.values.len() + flat_pairs(uv.filters.filters).len() < usize::MAX
                }),
        ensures
            exists|r0: ConnResult<Vec<T>, C>|
                #[trigger] update_post(
                    self.update_acl_engine,
                    self.afterop_acl_engine,
                    self.table@,
                    conn,
                    updater,
                    r0,
                ) && r == exactly_one_of(r0),
            conn_of(r).committed() == conn.committed(),
            conn_of(r).rolled_back() == conn.rolled_back(),
    {
        let res = self.update(conn, updater);
        let ghost r0 = res;
        let r = exactly_one(res);
        proof {
            assert(r == exactly_one_of(r0));
        }
        r
    }

    /// Delete and demand exactly one deleted row.
    pub fn delete_exactly_one<C: Connection, F: Filter, T: FromRow>(&self, conn: C, filter: F) -> (r:
        ConnResult<T, C>) where AD: AclEngine<F>, AP: AclEngine<(T, Action)>
        requires
            self.delete_acl_engine.pre(filter),
            forall|t: T| #[trigger] self.afterop_acl_engine.pre((t, Action::Delete)),
        ensures
            exists|r0: ConnResult<Vec<T>, C>|
                #[trigger] delete_post(
                    self.delete_acl_engine,
                    self.afterop_acl_engine,
                    self.table@,
                    conn,
                    filter,
                    r0,
                ) && r == exactly_one_of(r0),
            conn_of(r).committed() == conn.committed(),
            conn_of(r).rolled_back() == conn.rolled_back(),
    {
        let res = self.delete(conn, filter);
        let ghost r0 = res;
        let r = exactly_one(res);
        proof {
            assert(r == exactly_one_of(r0));
        }
        r
    }

    /// Replace the engine checked over every produced entity.
    pub fn with_afterop_acl_engine<E2>(self, acl_engine: E2) -> (r: DbRepoImpl<AI, AS, AD, AU, E2>)
        ensures
            r.table@ == self.table@,
            r.afterop_acl_engine == acl_engine,
            r.insert_acl_engine == self.insert_acl_engine,
            r.select_acl_engine == self.select_acl_engine,
            r.delete_acl_engine == self.delete_acl_engine,
            r.update_acl_engine == self.update_acl_engine,
    {
        DbRepoImpl {
            table: self.table,
            insert_acl_engine: self.insert_acl_engine,
            select_acl_engine: self.select_acl_engine,
            delete_acl_engine: self.delete_acl_engine,
            update_acl_engine: self.update_acl_engine,
            afterop_acl_engine: acl_engine,
        }
    }
}

} // verus!
