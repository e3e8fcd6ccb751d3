//! The SQL statement builders: filtered SELECT/DELETE, INSERT and UPDATE.
//!
//! Every builder renders a parameterized statement as a pair of the SQL text
//! and the ordered list of bound arguments. Placeholders are positional
//! (`$1`, `$2`, ...), assigned contiguously in the order the arguments are
//! emitted. Columns are kept sorted by name with map semantics: a later
//! entry for the same column replaces the earlier one.

use crate::strutil::{count_char, dec_of, int_dec_of, seq_char_lt, str_eq, str_lt, u64_to_string};
use vstd::prelude::*;
use vstd::std_specs::vec::spec_vec_len;

verus! {

/// A value bound to one SQL placeholder.
///
/// The platform binds a closed set of value shapes: integers, text, flags,
/// and homogeneous lists (a list is bound as a single array argument, used
/// by `in` filters).
#[derive(Debug, PartialEq)]
pub enum Arg {
    Int(i64),
    Text(String),
    Flag(bool),
    IntList(Vec<i64>),
    TextList(Vec<String>),
    FlagList(Vec<bool>),
}

/// The mathematical shape of an [`Arg`]: text becomes a character sequence,
/// lists become sequences.
pub enum ArgView {
    Int(i64),
    Text(Seq<char>),
    Flag(bool),
    IntList(Seq<i64>),
    TextList(Seq<Seq<char>>),
    FlagList(Seq<bool>),
}

impl View for Arg {
    type V = ArgView;

    open spec fn view(&self) -> ArgView {
        match self {
            Arg::Int(v) => ArgView::Int(*v),
            Arg::Text(s) => ArgView::Text(s@),
            Arg::Flag(b) => ArgView::Flag(*b),
            Arg::IntList(vs) => ArgView::IntList(vs@),
            Arg::TextList(vs) => ArgView::TextList(vs@.map_values(|s: String| s@)),
            Arg::FlagList(vs) => ArgView::FlagList(vs@),
        }
    }
}

impl DeepView for Arg {
    type V = ArgView;

    open spec fn deep_view(&self) -> ArgView {
        self.view()
    }
}

impl Clone for Arg {
    fn clone(&self) -> (r: Self)
        ensures
            r@ == self@,
    {
        match self {
            Arg::Int(v) => Arg::Int(*v),
            Arg::Text(s) => Arg::Text(s.clone()),
            Arg::Flag(b) => Arg::Flag(*b),
            Arg::IntList(vs) => Arg::IntList(vs.clone()),
            Arg::TextList(vs) => {
                let mut out: Vec<String> = Vec::new();
                let mut i: usize = 0;
                while i < vs.len()
                    invariant
                        0 <= i <= vs.len(),
                        out@.len() == i as int,
                        forall|j: int| 0 <= j < i ==> out@[j]@ == vs@[j]@,
                    decreases vs.len() - i,
                {
                    out.push(vs[i].clone());
                    i += 1;
                }
                proof {
                    assert(out@.map_values(|s: String| s@) =~= vs@.map_values(|s: String| s@));
                }
                Arg::TextList(out)
            },
            Arg::FlagList(vs) => Arg::FlagList(vs.clone()),
        }
    }
}

/// A Rust value that can be bound as one SQL argument.
pub trait SqlValue: Sized {
    /// What the value binds as.
    spec fn arg_view(self) -> ArgView;

    /// What a list of such values binds as (one array argument).
    spec fn list_view(vs: Seq<Self>) -> ArgView;

    fn into_arg(self) -> (a: Arg)
        ensures
            a@ == self.arg_view(),
    ;

    fn vec_into_arg(vs: Vec<Self>) -> (a: Arg)
        ensures
            a@ == Self::list_view(vs@),
    ;
}

impl SqlValue for i64 {
    open spec fn arg_view(self) -> ArgView {
        ArgView::Int(self)
    }

    open spec fn list_view(vs: Seq<i64>) -> ArgView {
        ArgView::IntList(vs)
    }

    fn into_arg(self) -> (a: Arg) {
        Arg::Int(self)
    }

    fn vec_into_arg(vs: Vec<i64>) -> (a: Arg) {
        Arg::IntList(vs)
    }
}

impl SqlValue for i32 {
    open spec fn arg_view(self) -> ArgView {
        ArgView::Int(self as i64)
    }

    open spec fn list_view(vs: Seq<i32>) -> ArgView {
        ArgView::IntList(vs.map_values(|v: i32| v as i64))
    }

    fn into_arg(self) -> (a: Arg) {
        Arg::Int(self as i64)
    }

    fn vec_into_arg(vs: Vec<i32>) -> (a: Arg) {
        let mut out: Vec<i64> = Vec::new();
        let mut i: usize = 0;
        while i < vs.len()
            invariant
                0 <= i <= vs.len(),
                out@ =~= vs@.take(i as int).map_values(|v: i32| v as i64),
            decreases vs.len() - i,
        {
            out.push(vs[i] as i64);
            proof {
                assert(vs@.take(i + 1).drop_last() =~= vs@.take(i as int));
                assert(vs@.take(i + 1).map_values(|v: i32| v as i64) =~= vs@.take(
                    i as int,
                ).map_values(|v: i32| v as i64).push(vs@[i as int] as i64));
            }
            i += 1;
        }
        proof {
            assert(vs@.take(vs@.len() as int) =~= vs@);
        }
        Arg::IntList(out)
    }
}

impl SqlValue for String {
    open spec fn arg_view(self) -> ArgView {
        ArgView::Text(self@)
    }

    open spec fn list_view(vs: Seq<String>) -> ArgView {
        ArgView::TextList(vs.map_values(|s: String| s@))
    }

    fn into_arg(self) -> (a: Arg) {
        Arg::Text(self)
    }

    fn vec_into_arg(vs: Vec<String>) -> (a: Arg) {
        Arg::TextList(vs)
    }
}

impl SqlValue for bool {
    open spec fn arg_view(self) -> ArgView {
        ArgView::Flag(self)
    }

    open spec fn list_view(vs: Seq<bool>) -> ArgView {
        ArgView::FlagList(vs)
    }

    fn into_arg(self) -> (a: Arg) {
        Arg::Flag(self)
    }

    fn vec_into_arg(vs: Vec<bool>) -> (a: Arg) {
        Arg::FlagList(vs)
    }
}

/// The aggregate of a `SELECT`.
#[derive(Clone, Copy, Debug, PartialEq, Eq, Structural)]
pub enum SelectOperation {
    Count,
}

impl SelectOperation {
    /// The SQL name of the aggregate.
    pub fn to_sql(self) -> (r: &'static str)
        ensures
            r@ == select_operation_sql(self),
    {
        match self {
            SelectOperation::Count => "count",
        }
    }
}

/// The SQL name of a [`SelectOperation`].
pub open spec fn select_operation_sql(op: SelectOperation) -> Seq<char> {
    match op {
        SelectOperation::Count => "count"@,
    }
}

/// A filtering operation: a select (optionally aggregated and limited) or a delete.
#[derive(Clone, Copy, Debug, PartialEq, Eq, Structural)]
pub enum FilteredOperation {
    Select { op: Option<SelectOperation>, limit: Option<i32> },
    Delete,
}

/// How one filter value is compared against its column.
#[derive(Clone, Copy, Debug, PartialEq, Eq, Hash, Structural)]
pub enum ComparisonMode {
    LT,
    LTE,
    EQ,
    GTE,
    GT,
    IN,
}

/// The SQL operator text of a comparison mode.
pub open spec fn comparison_sql(m: ComparisonMode) -> Seq<char> {
    match m {
        ComparisonMode::LT => "<"@,
        ComparisonMode::LTE => "<="@,
        ComparisonMode::EQ => "="@,
        ComparisonMode::GTE => ">="@,
        ComparisonMode::GT => ">"@,
        ComparisonMode::IN => "in"@,
    }
}

/// The rendering of a comparison against placeholder number `n`:
/// `in` becomes `= any($n)`, every other mode becomes `<op> $n`.
pub open spec fn comparison_arg(m: ComparisonMode, n: nat) -> Seq<char> {
    if m is IN {
        "= any($"@ + dec_of(n) + ")"@
    } else {
        comparison_sql(m) + " $"@ + dec_of(n)
    }
}

impl ComparisonMode {
    /// Render this comparison against placeholder number `arg_number`.
    pub fn arg(&self, arg_number: usize) -> (r: String)
        ensures
            r@ == comparison_arg(*self, arg_number as nat),
    {
        proof {
            reveal_strlit("= any($");
            reveal_strlit(")");
            reveal_strlit("<");
            reveal_strlit("<=");
            reveal_strlit("=");
            reveal_strlit(">=");
            reveal_strlit(">");
            reveal_strlit("in");
            reveal_strlit(" $");
        }
        let n = u64_to_string(arg_number as u64);
        match self {
            ComparisonMode::IN => {
                let mut s = String::from_str("= any($");
                s.append(n.as_str());
                s.append(")");
                s
            },
            _ => {
                let mut s = match self {
                    ComparisonMode::LT => String::from_str("<"),
                    ComparisonMode::LTE => String::from_str("<="),
                    ComparisonMode::EQ => String::from_str("="),
                    ComparisonMode::GTE => String::from_str(">="),
                    ComparisonMode::GT => String::from_str(">"),
                    ComparisonMode::IN => String::from_str("in"),
                };
                s.append(" $");
                s.append(n.as_str());
                s
            },
        }
    }
}

/// One of the two possible range limits.
#[derive(Clone, Debug, PartialEq)]
pub struct RangeLimit<T> {
    pub value: T,
    pub inclusive: bool,
}

impl<T> RangeLimit<T> {
    /// Convert the carried value into another type.
    pub fn convert<U>(self) -> (r: RangeLimit<U>) where U: From<T>
        ensures
            r.inclusive == self.inclusive,
            call_ensures(<U as From<T>>::from, (self.value,), r.value),
    {
        RangeLimit { value: U::from(self.value), inclusive: self.inclusive }
    }
}

/// Range specifier to be used for filtering.
#[derive(Debug, PartialEq)]
pub enum Range<T> {
    Exact(T),
    From(RangeLimit<T>),
    To(RangeLimit<T>),
    Between((RangeLimit<T>, RangeLimit<T>)),
    In(Vec<T>),
}

impl<T> Range<T> {
    /// Convert the carried values into another type.
    pub fn convert<U>(self) -> (r: Range<U>) where U: From<T>
        ensures
            match (self, r) {
                (Range::Exact(v), Range::Exact(w)) => call_ensures(
                    <U as From<T>>::from,
                    (v,),
                    w,
                ),
                (Range::From(l), Range::From(m)) => m.inclusive == l.inclusive && call_ensures(
                    <U as From<T>>::from,
                    (l.value,),
                    m.value,
                ),
                (Range::To(l), Range::To(m)) => m.inclusive == l.inclusive && call_ensures(
                    <U as From<T>>::from,
                    (l.value,),
                    m.value,
                ),
                (Range::Between(l), Range::Between(m)) => m.0.inclusive == l.0.inclusive
                    && m.1.inclusive == l.1.inclusive && call_ensures(
                    <U as From<T>>::from,
                    (l.0.value,),
                    m.0.value,
                ) && call_ensures(<U as From<T>>::from, (l.1.value,), m.1.value),
                (Range::In(vs), Range::In(ws)) => ws.len() == vs.len() && forall|i: int|
                    0 <= i < vs@.len() ==> call_ensures(
                        <U as From<T>>::from,
                        (vs@[i],),
                        #[trigger] ws@[i],
                    ),
                _ => false,
            },
    {
        match self {
            Range::Exact(v) => Range::Exact(U::from(v)),
            Range::From(from) => Range::From(from.convert::<U>()),
            Range::To(to) => Range::To(to.convert::<U>()),
            Range::Between((from, to)) => Range::Between(
                (from.convert::<U>(), to.convert::<U>()),
            ),
            Range::In(values) => {
                let mut rest = values;
                let ghost orig = rest@;
                let mut out: Vec<U> = Vec::new();
                while rest.len() > 0
                    invariant
                        out@.len() + rest@.len() == orig.len(),
                        rest@ =~= orig.skip(out@.len() as int),
                        forall|i: int|
                            0 <= i < out@.len() ==> call_ensures(
                                <U as From<T>>::from,
                                (orig[i],),
                                #[trigger] out@[i],
                            ),
                    decreases rest.len(),
                {
                    let v = rest.remove(0);
                    proof {
                        assert(orig.skip(out@.len() as int)[0] == orig[out@.len() as int]);
                        assert(orig.skip(out@.len() as int).skip(1) =~= orig.skip(
                            out@.len() + 1int,
                        ));
                    }
                    out.push(U::from(v));
                }
                Range::In(out)
            },
        }
    }
}

// ---------------------------------------------------------------------------
// Sorted column maps
//
// Builders keep their columns as vectors of (name, value) entries, strictly
// sorted by name. Inserting under an existing name replaces the entry, so
// the vector behaves as a map ordered by column name.
// ---------------------------------------------------------------------------
/// The (name view, value) pairs of an entry vector.
pub open spec fn entry_views<V>(s: Seq<(String, V)>) -> Seq<(Seq<char>, V)> {
    s.map_values(|e: (String, V)| (e.0@, e.1))
}

/// Entry names are strictly increasing (hence unique).
pub open spec fn entries_sorted<V>(s: Seq<(Seq<char>, V)>) -> bool {
    forall|i: int, j: int| 0 <= i < j < s.len() ==> seq_char_lt(s[i].0, s[j].0)
}

/// Insertion into a name-sorted entry sequence, replacing an equal name.
pub open spec fn insert_entry<V>(s: Seq<(Seq<char>, V)>, name: Seq<char>, v: V) -> Seq<
    (Seq<char>, V),
>
    decreases s.len(),
{
    if s.len() == 0 {
        seq![(name, v)]
    } else if seq_char_lt(name, s[0].0) {
        seq![(name, v)] + s
    } else if name == s[0].0 {
        seq![(name, v)] + s.skip(1)
    } else {
        seq![s[0]] + insert_entry(s.skip(1), name, v)
    }
}

proof fn lemma_insert_entry_keys<V>(s: Seq<(Seq<char>, V)>, name: Seq<char>, v: V)
    ensures
        forall|i: int|
            0 <= i < insert_entry(s, name, v).len() ==> (#[trigger] insert_entry(s, name, v)[i].0
                == name || exists|j: int| 0 <= j < s.len() && s[j].0 == insert_entry(s, name, v)[i].0),
    decreases s.len(),
{
    if s.len() == 0 {
    } else if seq_char_lt(name, s[0].0) {
    } else if name == s[0].0 {
        assert forall|i: int| 0 <= i < insert_entry(s, name, v).len() implies (
        #[trigger] insert_entry(s, name, v)[i].0 == name || exists|j: int|
            0 <= j < s.len() && s[j].0 == insert_entry(s, name, v)[i].0) by {
            if i > 0 {
                assert(insert_entry(s, name, v)[i] == s[i]);
            }
        }
    } else {
        lemma_insert_entry_keys(s.skip(1), name, v);
        assert forall|i: int| 0 <= i < insert_entry(s, name, v).len() implies (
        #[trigger] insert_entry(s, name, v)[i].0 == name || exists|j: int|
            0 <= j < s.len() && s[j].0 == insert_entry(s, name, v)[i].0) by {
            if i > 0 {
                let rest = insert_entry(s.skip(1), name, v);
                assert(insert_entry(s, name, v)[i] == rest[i - 1]);
                if rest[i - 1].0 != name {
                    let j = choose|j: int| 0 <= j < s.skip(1).len() && s.skip(1)[j].0 == rest[i
                        - 1].0;
                    assert(s[j + 1].0 == rest[i - 1].0);
                }
            }
        }
    }
}

/// Insertion preserves strict sortedness.
pub proof fn lemma_insert_entry_sorted<V>(s: Seq<(Seq<char>, V)>, name: Seq<char>, v: V)
    requires
        entries_sorted(s),
    ensures
        entries_sorted(insert_entry(s, name, v)),
    decreases s.len(),
{
    let out = insert_entry(s, name, v);
    if s.len() == 0 {
    } else if seq_char_lt(name, s[0].0) {
        assert forall|i: int, j: int| 0 <= i < j < out.len() implies seq_char_lt(
            out[i].0,
            out[j].0,
        ) by {
            if i == 0 {
                if j > 1 {
                    crate::strutil::lemma_seq_char_lt_trans(name, s[0].0, s[j - 1].0);
                }
            } else {
                assert(out[i] == s[i - 1]);
                assert(out[j] == s[j - 1]);
            }
        }
    } else if name == s[0].0 {
        assert forall|i: int, j: int| 0 <= i < j < out.len() implies seq_char_lt(
            out[i].0,
            out[j].0,
        ) by {
            if i == 0 {
                assert(out[j] == s.skip(1)[j - 1]);
                assert(s.skip(1)[j - 1] == s[j]);
            } else {
                assert(out[i] == s[i]);
                assert(out[j] == s[j]);
            }
        }
    } else {
        crate::strutil::lemma_seq_char_lt_trichotomy(name, s[0].0);
        assert(entries_sorted(s.skip(1))) by {
            assert forall|i: int, j: int| 0 <= i < j < s.skip(1).len() implies seq_char_lt(
                s.skip(1)[i].0,
                s.skip(1)[j].0,
            ) by {
                assert(s.skip(1)[i] == s[i + 1]);
                assert(s.skip(1)[j] == s[j + 1]);
            }
        }
        lemma_insert_entry_sorted(s.skip(1), name, v);
        lemma_insert_entry_keys(s.skip(1), name, v);
        let rest = insert_entry(s.skip(1), name, v);
        assert forall|i: int, j: int| 0 <= i < j < out.len() implies seq_char_lt(
            out[i].0,
            out[j].0,
        ) by {
            if i == 0 {
                assert(out[j] == rest[j - 1]);
                if rest[j - 1].0 == name {
                    assert(seq_char_lt(s[0].0, name));
                } else {
                    let k = choose|k: int|
                        0 <= k < s.skip(1).len() && s.skip(1)[k].0 == rest[j - 1].0;
                    assert(s.skip(1)[k] == s[k + 1]);
                    assert(seq_char_lt(s[0].0, s[k + 1].0));
                }
            } else {
                assert(out[i] == rest[i - 1]);
                assert(out[j] == rest[j - 1]);
            }
        }
    }
}

/// Insert `(name, v)` into a vector sorted by name, replacing an equal name.
fn insert_sorted<V>(entries: Vec<(String, V)>, name: String, v: V) -> (r: Vec<(String, V)>)
    ensures
        entry_views(r@) == insert_entry(entry_views(entries@), name@, v),
    decreases entries.len(),
{
    let mut entries = entries;
    let ghost s = entry_views(entries@);
    if entries.len() == 0 {
        entries.push((name, v));
        proof {
            assert(entry_views(entries@) =~= seq![(name@, v)]);
        }
        entries
    } else {
        proof {
            assert(s[0] == (entries@[0].0@, entries@[0].1));
        }
        if str_lt(name.as_str(), entries[0].0.as_str()) {
            entries.insert(0, (name, v));
            proof {
                assert(entry_views(entries@) =~= seq![(name@, v)] + s);
            }
            entries
        } else if str_eq(name.as_str(), entries[0].0.as_str()) {
            entries.remove(0);
            entries.insert(0, (name, v));
            proof {
                assert(entry_views(entries@) =~= seq![(name@, v)] + s.skip(1));
            }
            entries
        } else {
            let head = entries.remove(0);
            proof {
                assert(entry_views(entries@) =~= s.skip(1));
            }
            let mut rest = insert_sorted(entries, name, v);
            rest.insert(0, head);
            proof {
                assert(entry_views(rest@) =~= seq![s[0]] + insert_entry(s.skip(1), name@, v));
            }
            rest
        }
    }
}

// ---------------------------------------------------------------------------
// Rendering specifications
// ---------------------------------------------------------------------------
/// The view of one column's filter list.
pub open spec fn pairs_view(ps: Seq<(ComparisonMode, Arg)>) -> Seq<(ComparisonMode, ArgView)> {
    ps.map_values(|p: (ComparisonMode, Arg)| (p.0, p.1@))
}

/// The view of a filter entry vector.
pub open spec fn deep_filters(s: Seq<(String, Vec<(ComparisonMode, Arg)>)>) -> Seq<
    (Seq<char>, Seq<(ComparisonMode, ArgView)>),
> {
    s.map_values(|e: (String, Vec<(ComparisonMode, Arg)>)| (e.0@, pairs_view(e.1@)))
}

/// One column's filters, flattened to (column, mode, value) triples.
pub open spec fn col_pairs(e: (Seq<char>, Seq<(ComparisonMode, ArgView)>)) -> Seq<
    (Seq<char>, ComparisonMode, ArgView),
> {
    e.1.map_values(|p: (ComparisonMode, ArgView)| (e.0, p.0, p.1))
}

/// All filters of all columns, flattened in entry order.
pub open spec fn flat_pairs(s: Seq<(Seq<char>, Seq<(ComparisonMode, ArgView)>)>) -> Seq<
    (Seq<char>, ComparisonMode, ArgView),
>
    decreases s.len(),
{
    if s.len() == 0 {
        Seq::empty()
    } else {
        flat_pairs(s.drop_last()) + col_pairs(s.last())
    }
}

/// The bound arguments of a flattened filter list, in placeholder order.
pub open spec fn args_of(ps: Seq<(Seq<char>, ComparisonMode, ArgView)>) -> Seq<ArgView> {
    ps.map_values(|p: (Seq<char>, ComparisonMode, ArgView)| p.2)
}

/// One rendered filter: `<column> <comparison against $n>`.
pub open spec fn filter_frag(col: Seq<char>, m: ComparisonMode, n: nat) -> Seq<char> {
    col + " "@ + comparison_arg(m, n)
}

/// The rendered `WHERE` body for `ps`, placeholders numbered from `start`,
/// fragments joined by ` AND `.
pub open spec fn where_text(ps: Seq<(Seq<char>, ComparisonMode, ArgView)>, start: nat) -> Seq<
    char,
>
    decreases ps.len(),
{
    if ps.len() == 0 {
        Seq::empty()
    } else {
        where_text(ps.drop_last(), start) + (if ps.len() == 1 {
            Seq::<char>::empty()
        } else {
            " AND "@
        }) + filter_frag(ps.last().0, ps.last().1, (start + ps.len() - 1) as nat)
    }
}

/// The full `WHERE` clause, absent when there are no filters.
pub open spec fn where_part(ps: Seq<(Seq<char>, ComparisonMode, ArgView)>, start: nat) -> Seq<
    char,
> {
    if ps.len() == 0 {
        Seq::empty()
    } else {
        " WHERE "@ + where_text(ps, start)
    }
}

/// The trailing extra fragment, absent when empty.
pub open spec fn extra_part(extra: Seq<char>) -> Seq<char> {
    if extra.len() == 0 {
        Seq::empty()
    } else {
        " "@ + extra
    }
}

/// The head of a filtered statement.
pub open spec fn head_text(op: FilteredOperation) -> Seq<char> {
    match op {
        FilteredOperation::Select { op: None, .. } => "SELECT *"@,
        FilteredOperation::Select { op: Some(SelectOperation::Count), .. } => "SELECT count(*)"@,
        FilteredOperation::Delete => "DELETE"@,
    }
}

/// The tail of a filtered statement: deletions return their rows, selects
/// render their limit.
pub open spec fn tail_text(op: FilteredOperation) -> Seq<char> {
    match op {
        FilteredOperation::Delete => " RETURNING *"@,
        FilteredOperation::Select { limit: Some(v), .. } => " LIMIT "@ + int_dec_of(v as int),
        FilteredOperation::Select { limit: None, .. } => Seq::empty(),
    }
}

/// The full text of a filtered statement.
pub open spec fn filtered_sql(
    table: Seq<char>,
    extra: Seq<char>,
    ps: Seq<(Seq<char>, ComparisonMode, ArgView)>,
    op: FilteredOperation,
) -> Seq<char> {
    head_text(op) + " FROM "@ + table + where_part(ps, 1) + extra_part(extra) + tail_text(op)
        + ";"@
}

// ---------------------------------------------------------------------------
// FilteredOperationBuilder
// ---------------------------------------------------------------------------
/// The mathematical contents of a [`FilteredOperationBuilder`].
pub struct FilteredOperationBuilderView {
    pub table: Seq<char>,
    pub extra: Seq<char>,
    pub filters: Seq<(Seq<char>, Seq<(ComparisonMode, ArgView)>)>,
    pub limit: Option<i32>,
}

/// Construct a simple select or delete query.
pub struct FilteredOperationBuilder {
    pub table: String,
    pub extra: String,
    pub filters: Vec<(String, Vec<(ComparisonMode, Arg)>)>,
    pub limit: Option<i32>,
}

impl View for FilteredOperationBuilder {
    type V = FilteredOperationBuilderView;

    open spec fn view(&self) -> FilteredOperationBuilderView {
        FilteredOperationBuilderView {
            table: self.table@,
            extra: self.extra@,
            filters: deep_filters(self.filters@),
            limit: self.limit,
        }
    }
}

/// What one range contributes as (mode, value) filters for its column.
pub open spec fn range_pairs<T: SqlValue>(r: Range<T>) -> Seq<(ComparisonMode, ArgView)> {
    match r {
        Range::Exact(v) => seq![(ComparisonMode::EQ, v.arg_view())],
        Range::From(l) => seq![
            (
                if l.inclusive {
                    ComparisonMode::GTE
                } else {
                    ComparisonMode::GT
                },
                l.value.arg_view(),
            ),
        ],
        Range::To(l) => seq![
            (
                if l.inclusive {
                    ComparisonMode::LTE
                } else {
                    ComparisonMode::LT
                },
                l.value.arg_view(),
            ),
        ],
        Range::Between(p) => seq![
            (
                if p.0.inclusive {
                    ComparisonMode::GTE
                } else {
                    ComparisonMode::GT
                },
                p.0.value.arg_view(),
            ),
            (
                if p.1.inclusive {
                    ComparisonMode::LTE
                } else {
                    ComparisonMode::LT
                },
                p.1.value.arg_view(),
            ),
        ],
        Range::In(vs) => seq![(ComparisonMode::IN, T::list_view(vs@))],
    }
}

/// Lift filter entries whose values are still executable vectors to the
/// fully mathematical view.
pub open spec fn lift_filter_entries(s: Seq<(Seq<char>, Vec<(ComparisonMode, Arg)>)>) -> Seq<
    (Seq<char>, Seq<(ComparisonMode, ArgView)>),
> {
    s.map_values(|e: (Seq<char>, Vec<(ComparisonMode, Arg)>)| (e.0, pairs_view(e.1@)))
}

proof fn lemma_deep_filters_lift(s: Seq<(String, Vec<(ComparisonMode, Arg)>)>)
    ensures
        deep_filters(s) == lift_filter_entries(entry_views(s)),
{
    assert(deep_filters(s) =~= lift_filter_entries(entry_views(s)));
}

proof fn lemma_lift_insert(
    ev: Seq<(Seq<char>, Vec<(ComparisonMode, Arg)>)>,
    name: Seq<char>,
    v: Vec<(ComparisonMode, Arg)>,
)
    ensures
        lift_filter_entries(insert_entry(ev, name, v)) == insert_entry(
            lift_filter_entries(ev),
            name,
            pairs_view(v@),
        ),
    decreases ev.len(),
{
    let lv = lift_filter_entries(ev);
    if ev.len() == 0 {
        assert(lift_filter_entries(seq![(name, v)]) =~= seq![(name, pairs_view(v@))]);
    } else {
        assert(lv[0] == (ev[0].0, pairs_view(ev[0].1@)));
        if seq_char_lt(name, ev[0].0) {
            assert(lift_filter_entries(seq![(name, v)] + ev) =~= seq![(name, pairs_view(v@))]
                + lv);
        } else if name == ev[0].0 {
            assert(lift_filter_entries(seq![(name, v)] + ev.skip(1)) =~= seq![
                (name, pairs_view(v@)),
            ] + lv.skip(1));
        } else {
            lemma_lift_insert(ev.skip(1), name, v);
            assert(lift_filter_entries(ev.skip(1)) =~= lv.skip(1));
            assert(lift_filter_entries(seq![ev[0]] + insert_entry(ev.skip(1), name, v)) =~= seq![
                lv[0],
            ] + lift_filter_entries(insert_entry(ev.skip(1), name, v)));
            assert(insert_entry(lv, name, pairs_view(v@)) == seq![lv[0]] + insert_entry(
                lv.skip(1),
                name,
                pairs_view(v@),
            ));
        }
    }
}

impl FilteredOperationBuilder {
    /// Create a new builder for `table`.
    pub fn new(table: &str) -> (r: Self)
        ensures
            r@.table == table@,
            r@.extra == Seq::<char>::empty(),
            r@.filters == Seq::<(Seq<char>, Seq<(ComparisonMode, ArgView)>)>::empty(),
            r@.limit is None,
    {
        let r = FilteredOperationBuilder {
            table: String::from_str(table),
            extra: String::new(),
            filters: Vec::new(),
            limit: None,
        };
        proof {
            assert(deep_filters(r.filters@) =~= Seq::<
                (Seq<char>, Seq<(ComparisonMode, ArgView)>),
            >::empty());
        }
        r
    }

    /// Add filtering arguments for one column, replacing any earlier entry
    /// for the same column.
    pub fn with_filter<T: SqlValue>(self, column: &str, range: Range<T>) -> (r: Self)
        ensures
            r@.table == self@.table,
            r@.extra == self@.extra,
            r@.limit == self@.limit,
            r@.filters == insert_entry(self@.filters, column@, range_pairs(range)),
            entries_sorted(self@.filters) ==> entries_sorted(r@.filters),
    {
        let ghost rv = range;
        let mut pairs: Vec<(ComparisonMode, Arg)> = Vec::new();
        match range {
            Range::Exact(v) => {
                pairs.push((ComparisonMode::EQ, v.into_arg()));
            },
            Range::From(l) => {
                let m = if l.inclusive {
                    ComparisonMode::GTE
                } else {
                    ComparisonMode::GT
                };
                pairs.push((m, l.value.into_arg()));
            },
            Range::To(l) => {
                let m = if l.inclusive {
                    ComparisonMode::LTE
                } else {
                    ComparisonMode::LT
                };
                pairs.push((m, l.value.into_arg()));
            },
            Range::Between(p) => {
                let (from, to) = p;
                let mf = if from.inclusive {
                    ComparisonMode::GTE
                } else {
                    ComparisonMode::GT
                };
                pairs.push((mf, from.value.into_arg()));
                let mt = if to.inclusive {
                    ComparisonMode::LTE
                } else {
                    ComparisonMode::LT
                };
                pairs.push((mt, to.value.into_arg()));
            },
            Range::In(vs) => {
                pairs.push((ComparisonMode::IN, T::vec_into_arg(vs)));
            },
        }
        proof {
            assert(pairs_view(pairs@) =~= range_pairs(rv));
        }
        let ghost old_filters = self.filters@;
        let name = String::from_str(column);
        let filters = insert_sorted(self.filters, name, pairs);
        let r = FilteredOperationBuilder {
            table: self.table,
            extra: self.extra,
            filters,
            limit: self.limit,
        };
        proof {
            lemma_deep_filters_lift(old_filters);
            lemma_deep_filters_lift(r.filters@);
            lemma_lift_insert(entry_views(old_filters), column@, pairs);
            if entries_sorted(deep_filters(old_filters)) {
                lemma_insert_entry_sorted(deep_filters(old_filters), column@, range_pairs(rv));
            }
        }
        r
    }

    /// Record a limit on the builder. The limit used when rendering a select
    /// is the one carried by the [`FilteredOperation`] handed to `build`.
    pub fn with_limit(self, limit: Option<i32>) -> (r: Self)
        ensures
            r@ == (FilteredOperationBuilderView { limit, ..self@ }),
    {
        FilteredOperationBuilder {
            table: self.table,
            extra: self.extra,
            filters: self.filters,
            limit,
        }
    }

    /// Add additional statements before the semicolon.
    pub fn with_extra(self, extra: &str) -> (r: Self)
        ensures
            r@ == (FilteredOperationBuilderView { extra: extra@, ..self@ }),
    {
        FilteredOperationBuilder {
            table: self.table,
            extra: String::from_str(extra),
            filters: self.filters,
            limit: self.limit,
        }
    }

    /// Build the query: the SQL text and its bound arguments in placeholder
    /// order. The limit rendered is the one carried by `op`.
    pub fn build(self, op: FilteredOperation) -> (r: (String, Vec<Arg>))
        ensures
            r.0@ == filtered_sql(self@.table, self@.extra, flat_pairs(self@.filters), op),
            r.1.deep_view() == args_of(flat_pairs(self@.filters)),
    {
        let flat = flatten_filters(&self.filters);
        proof {
            assert(flat@.len() == spec_vec_len(&flat)) by {
                vstd::std_specs::vec::axiom_spec_len(&flat);
            }
        }
        let (where_str, args) = render_where(&flat, 1);
        let mut sql = match op {
            FilteredOperation::Select { op: None, .. } => String::from_str("SELECT *"),
            FilteredOperation::Select { op: Some(SelectOperation::Count), .. } => String::from_str(
                "SELECT count(*)",
            ),
            FilteredOperation::Delete => String::from_str("DELETE"),
        };
        proof {
            reveal_strlit("SELECT *");
            reveal_strlit("SELECT count(*)");
            reveal_strlit("DELETE");
            reveal_strlit(" FROM ");
            reveal_strlit(" WHERE ");
            reveal_strlit(" ");
            reveal_strlit(" RETURNING *");
            reveal_strlit(" LIMIT ");
            reveal_strlit(";");
        }
        assert(sql@ == head_text(op));
        sql.append(" FROM ");
        sql.append(self.table.as_str());
        let ghost ps = flat_pairs(self@.filters);
        if flat.len() > 0 {
            sql.append(" WHERE ");
            sql.append(where_str.as_str());
            assert(sql@ =~= head_text(op) + " FROM "@ + self@.table + where_part(ps, 1));
        } else {
            assert(sql@ =~= head_text(op) + " FROM "@ + self@.table + where_part(ps, 1));
        }
        if !self.extra.as_str().is_empty() {
            sql.append(" ");
            sql.append(self.extra.as_str());
        }
        assert(sql@ =~= head_text(op) + " FROM "@ + self@.table + where_part(ps, 1) + extra_part(
            self@.extra,
        ));
        match op {
            FilteredOperation::Delete => {
                sql.append(" RETURNING *");
            },
            FilteredOperation::Select { limit, .. } => {
                if let Some(v) = limit {
                    sql.append(" LIMIT ");
                    let n = crate::strutil::i64_to_string(v as i64);
                    sql.append(n.as_str());
                }
            },
        }
        assert(sql@ =~= head_text(op) + " FROM "@ + self@.table + where_part(ps, 1) + extra_part(
            self@.extra,
        ) + tail_text(op));
        sql.append(";");
        proof {
            assert(sql@ =~= filtered_sql(self@.table, self@.extra, ps, op));
        }
        (sql, args)
    }
}

/// The view of a flattened (column, mode, value) vector.
pub open spec fn flat_views(s: Seq<(String, ComparisonMode, Arg)>) -> Seq<
    (Seq<char>, ComparisonMode, ArgView),
> {
    s.map_values(|p: (String, ComparisonMode, Arg)| (p.0@, p.1, p.2@))
}

/// Flatten a filter entry vector into (column, mode, value) triples in order.
fn flatten_filters(filters: &Vec<(String, Vec<(ComparisonMode, Arg)>)>) -> (r: Vec<
    (String, ComparisonMode, Arg),
>)
    ensures
        flat_views(r@) == flat_pairs(deep_filters(filters@)),
{
    let ghost dv = deep_filters(filters@);
    let mut out: Vec<(String, ComparisonMode, Arg)> = Vec::new();
    let mut j: usize = 0;
    while j < filters.len()
        invariant
            0 <= j <= filters.len(),
            dv == deep_filters(filters@),
            dv.len() == filters@.len(),
            flat_views(out@) =~= flat_pairs(dv.take(j as int)),
        decreases filters.len() - j,
    {
        let ghost out0 = flat_views(out@);
        let mut k: usize = 0;
        proof {
            assert(dv[j as int] == (filters@[j as int].0@, pairs_view(filters@[j as int].1@)));
            assert(col_pairs(dv[j as int]).take(0) =~= Seq::<
                (Seq<char>, ComparisonMode, ArgView),
            >::empty());
            assert(flat_views(out@) =~= out0 + col_pairs(dv[j as int]).take(0));
        }
        while k < filters[j].1.len()
            invariant
                0 <= j < filters.len(),
                0 <= k <= filters@[j as int].1.len(),
                dv == deep_filters(filters@),
                dv.len() == filters@.len(),
                dv[j as int] == (filters@[j as int].0@, pairs_view(filters@[j as int].1@)),
                out0 == flat_pairs(dv.take(j as int)),
                flat_views(out@) =~= out0 + col_pairs(dv[j as int]).take(k as int),
            decreases filters@[j as int].1.len() - k,
        {
            let ghost prev = flat_views(out@);
            let name = filters[j].0.clone();
            let mode = filters[j].1[k].0;
            let value = filters[j].1[k].1.clone();
            out.push((name, mode, value));
            proof {
                assert(flat_views(out@) =~= prev.push(
                    (filters@[j as int].0@, mode, filters@[j as int].1@[k as int].1@),
                ));
                assert(col_pairs(dv[j as int])[k as int] == (
                    dv[j as int].0,
                    filters@[j as int].1@[k as int].0,
                    filters@[j as int].1@[k as int].1@,
                ));
                assert(col_pairs(dv[j as int]).take(k + 1) =~= col_pairs(dv[j as int]).take(
                    k as int,
                ).push(col_pairs(dv[j as int])[k as int]));
                assert(flat_views(out@) =~= out0 + col_pairs(dv[j as int]).take(k + 1));
            }
            k += 1;
        }
        proof {
            assert(col_pairs(dv[j as int]).take(filters@[j as int].1.len() as int) =~= col_pairs(
                dv[j as int],
            ));
            assert(dv.take(j + 1).drop_last() =~= dv.take(j as int));
            assert(dv.take(j + 1).last() == dv[j as int]);
            assert(flat_pairs(dv.take(j + 1)) == flat_pairs(dv.take(j as int)) + col_pairs(
                dv[j as int],
            ));
        }
        j += 1;
    }
    proof {
        assert(dv.take(filters@.len() as int) =~= dv);
    }
    out
}

/// Render the `WHERE` body of `flat`, placeholders numbered from `start`,
/// and collect the bound arguments in the same order.
fn render_where(flat: &Vec<(String, ComparisonMode, Arg)>, start: usize) -> (r: (String, Vec<Arg>))
    requires
        start >= 1,
        start as int + flat@.len() <= usize::MAX as int + 1,
    ensures
        r.0@ == where_text(flat_views(flat@), start as nat),
        r.1.deep_view() == args_of(flat_views(flat@)),
{
    let ghost fv = flat_views(flat@);
    let mut sql = String::new();
    let mut args: Vec<Arg> = Vec::new();
    let mut k: usize = 0;
    proof {
        reveal_strlit(" AND ");
        reveal_strlit(" ");
    }
    while k < flat.len()
        invariant
            0 <= k <= flat.len(),
            start >= 1,
            start as int + flat@.len() <= usize::MAX as int + 1,
            fv == flat_views(flat@),
            fv.len() == flat@.len(),
            sql@ =~= where_text(fv.take(k as int), start as nat),
            args.deep_view() =~= args_of(fv.take(k as int)),
            " AND "@.len() == 5,
        decreases flat.len() - k,
    {
        let ghost prev_args = args.deep_view();
        if k > 0 {
            sql.append(" AND ");
        }
        sql.append(flat[k].0.as_str());
        sql.append(" ");
        let frag = flat[k].1.arg(start + k);
        sql.append(frag.as_str());
        args.push(flat[k].2.clone());
        proof {
            assert(fv[k as int] == (flat@[k as int].0@, flat@[k as int].1, flat@[k as int].2@));
            assert(fv.take(k + 1).drop_last() =~= fv.take(k as int));
            assert(fv.take(k + 1).last() == fv[k as int]);
            assert(sql@ =~= where_text(fv.take(k + 1), start as nat));
            assert(args.deep_view() =~= prev_args.push(flat@[k as int].2@));
            assert(args_of(fv.take(k + 1)) =~= args_of(fv.take(k as int)).push(fv[k as int].2));
            assert(args.deep_view() =~= args_of(fv.take(k + 1)));
        }
        k += 1;
    }
    proof {
        assert(fv.take(flat@.len() as int) =~= fv);
    }
    (sql, args)
}

// ---------------------------------------------------------------------------
// Placeholder accounting
// ---------------------------------------------------------------------------
proof fn lemma_comparison_arg_dollar(m: ComparisonMode, n: nat)
    ensures
        count_char(comparison_arg(m, n), '$') == 1,
{
    reveal_strlit("= any($");
    reveal_strlit(")");
    reveal_strlit("<");
    reveal_strlit("<=");
    reveal_strlit("=");
    reveal_strlit(">=");
    reveal_strlit(">");
    reveal_strlit("in");
    reveal_strlit(" $");
    reveal_with_fuel(count_char, 10);
    crate::strutil::lemma_dec_of_digits(n, '$');
    if m is IN {
        crate::strutil::lemma_count_char_concat("= any($"@, dec_of(n), '$');
        crate::strutil::lemma_count_char_concat("= any($"@ + dec_of(n), ")"@, '$');
    } else {
        crate::strutil::lemma_count_char_concat(comparison_sql(m), " $"@, '$');
        crate::strutil::lemma_count_char_concat(comparison_sql(m) + " $"@, dec_of(n), '$');
    }
}

proof fn lemma_where_text_dollars(ps: Seq<(Seq<char>, ComparisonMode, ArgView)>, start: nat)
    requires
        forall|i: int| 0 <= i < ps.len() ==> count_char(#[trigger] ps[i].0, '$') == 0,
    ensures
        count_char(where_text(ps, start), '$') == ps.len(),
    decreases ps.len(),
{
    reveal_strlit(" AND ");
    reveal_strlit(" ");
    reveal_with_fuel(count_char, 10);
    if ps.len() > 0 {
        lemma_where_text_dollars(ps.drop_last(), start);
        let sep: Seq<char> = if ps.len() == 1 {
            Seq::<char>::empty()
        } else {
            " AND "@
        };
        let frag = filter_frag(ps.last().0, ps.last().1, (start + ps.len() - 1) as nat);
        lemma_comparison_arg_dollar(ps.last().1, (start + ps.len() - 1) as nat);
        crate::strutil::lemma_count_char_concat(ps.last().0, " "@, '$');
        crate::strutil::lemma_count_char_concat(ps.last().0 + " "@, comparison_arg(ps.last().1, (start + ps.len() - 1) as nat), '$');
        crate::strutil::lemma_count_char_concat(where_text(ps.drop_last(), start), sep, '$');
        crate::strutil::lemma_count_char_concat(where_text(ps.drop_last(), start) + sep, frag, '$');
    }
}

/// Law: in a rendered filtered statement over `$`-free identifiers, the
/// number of `$` placeholders equals the number of bound arguments, the
/// placeholders being numbered contiguously from one in argument order by
/// construction.
#[verifier::rlimit(60)]
pub proof fn lemma_filtered_sql_placeholders(
    table: Seq<char>,
    extra: Seq<char>,
    ps: Seq<(Seq<char>, ComparisonMode, ArgView)>,
    op: FilteredOperation,
)
    requires
        count_char(table, '$') == 0,
        count_char(extra, '$') == 0,
        forall|i: int| 0 <= i < ps.len() ==> count_char(#[trigger] ps[i].0, '$') == 0,
    ensures
        count_char(filtered_sql(table, extra, ps, op), '$') == args_of(ps).len(),
{
    reveal_strlit("SELECT *");
    reveal_strlit("SELECT count(*)");
    reveal_strlit("DELETE");
    reveal_strlit(" FROM ");
    reveal_strlit(" WHERE ");
    reveal_strlit(" ");
    reveal_strlit(" RETURNING *");
    reveal_strlit(" LIMIT ");
    reveal_strlit(";");
    crate::strutil::lemma_count_char_zero("SELECT *"@, '$');
    crate::strutil::lemma_count_char_zero("SELECT count(*)"@, '$');
    crate::strutil::lemma_count_char_zero("DELETE"@, '$');
    crate::strutil::lemma_count_char_zero(" FROM "@, '$');
    crate::strutil::lemma_count_char_zero(" WHERE "@, '$');
    crate::strutil::lemma_count_char_zero(" "@, '$');
    crate::strutil::lemma_count_char_zero(" RETURNING *"@, '$');
    crate::strutil::lemma_count_char_zero(" LIMIT "@, '$');
    crate::strutil::lemma_count_char_zero(";"@, '$');
    lemma_where_text_dollars(ps, 1);
    assert(count_char(where_part(ps, 1), '$') == ps.len()) by {
        if ps.len() > 0 {
            crate::strutil::lemma_count_char_concat(" WHERE "@, where_text(ps, 1), '$');
        }
    }
    assert(count_char(extra_part(extra), '$') == 0) by {
        if extra.len() > 0 {
            crate::strutil::lemma_count_char_concat(" "@, extra, '$');
        }
    }
    assert(count_char(tail_text(op), '$') == 0) by {
        match op {
            FilteredOperation::Select { limit: Some(v), .. } => {
                if v >= 0 {
                    crate::strutil::lemma_dec_of_digits(v as nat, '$');
                } else {
                    crate::strutil::lemma_dec_of_digits((-(v as int)) as nat, '$');
                    crate::strutil::lemma_count_char_single('-', '$');
                    assert(seq!['-'].drop_last() =~= Seq::<char>::empty());
                    crate::strutil::lemma_count_char_concat(
                        seq!['-'],
                        dec_of((-(v as int)) as nat),
                        '$',
                    );
                }
                crate::strutil::lemma_count_char_concat(" LIMIT "@, int_dec_of(v as int), '$');
            },
            _ => {},
        }
    }
    let a = head_text(op) + " FROM "@;
    let b = a + table;
    let c = b + where_part(ps, 1);
    let d = c + extra_part(extra);
    let e = d + tail_text(op);
    crate::strutil::lemma_count_char_concat(head_text(op), " FROM "@, '$');
    crate::strutil::lemma_count_char_concat(a, table, '$');
    crate::strutil::lemma_count_char_concat(b, where_part(ps, 1), '$');
    crate::strutil::lemma_count_char_concat(c, extra_part(extra), '$');
    crate::strutil::lemma_count_char_concat(d, tail_text(op), '$');
    crate::strutil::lemma_count_char_concat(e, ";"@, '$');
}

// ---------------------------------------------------------------------------
// InsertBuilder
// ---------------------------------------------------------------------------
/// The view of a value entry vector.
pub open spec fn deep_values(s: Seq<(String, Arg)>) -> Seq<(Seq<char>, ArgView)> {
    s.map_values(|e: (String, Arg)| (e.0@, e.1@))
}

/// Lift value entries whose values are still executable to the view.
pub open spec fn lift_value_entries(s: Seq<(Seq<char>, Arg)>) -> Seq<(Seq<char>, ArgView)> {
    s.map_values(|e: (Seq<char>, Arg)| (e.0, e.1@))
}

proof fn lemma_deep_values_lift(s: Seq<(String, Arg)>)
    ensures
        deep_values(s) == lift_value_entries(entry_views(s)),
{
    assert(deep_values(s) =~= lift_value_entries(entry_views(s)));
}

proof fn lemma_lift_value_insert(ev: Seq<(Seq<char>, Arg)>, name: Seq<char>, v: Arg)
    ensures
        lift_value_entries(insert_entry(ev, name, v)) == insert_entry(
            lift_value_entries(ev),
            name,
            v@,
        ),
    decreases ev.len(),
{
    let lv = lift_value_entries(ev);
    if ev.len() == 0 {
        assert(lift_value_entries(seq![(name, v)]) =~= seq![(name, v@)]);
    } else {
        assert(lv[0] == (ev[0].0, ev[0].1@));
        if seq_char_lt(name, ev[0].0) {
            assert(lift_value_entries(seq![(name, v)] + ev) =~= seq![(name, v@)] + lv);
        } else if name == ev[0].0 {
            assert(lift_value_entries(seq![(name, v)] + ev.skip(1)) =~= seq![(name, v@)]
                + lv.skip(1));
        } else {
            lemma_lift_value_insert(ev.skip(1), name, v);
            assert(lift_value_entries(ev.skip(1)) =~= lv.skip(1));
            assert(lift_value_entries(seq![ev[0]] + insert_entry(ev.skip(1), name, v)) =~= seq![
                lv[0],
            ] + lift_value_entries(insert_entry(ev.skip(1), name, v)));
            assert(insert_entry(lv, name, v@) == seq![lv[0]] + insert_entry(
                lv.skip(1),
                name,
                v@,
            ));
        }
    }
}

/// The comma-joined column names of a value entry sequence.
pub open spec fn cols_text(vs: Seq<(Seq<char>, ArgView)>) -> Seq<char>
    decreases vs.len(),
{
    if vs.len() == 0 {
        Seq::empty()
    } else {
        cols_text(vs.drop_last()) + (if vs.len() == 1 {
            Seq::<char>::empty()
        } else {
            ", "@
        }) + vs.last().0
    }
}

/// The comma-joined placeholders `$1, ..., $n`.
pub open spec fn placeholders_text(n: nat) -> Seq<char>
    decreases n,
{
    if n == 0 {
        Seq::empty()
    } else {
        placeholders_text((n - 1) as nat) + (if n == 1 {
            Seq::<char>::empty()
        } else {
            ", "@
        }) + "$"@ + dec_of(n)
    }
}

/// The values of a value entry sequence, in entry order.
pub open spec fn set_args(vs: Seq<(Seq<char>, ArgView)>) -> Seq<ArgView> {
    vs.map_values(|e: (Seq<char>, ArgView)| e.1)
}

/// The full text of an insert statement.
pub open spec fn insert_sql(table: Seq<char>, extra: Seq<char>, vs: Seq<(Seq<char>, ArgView)>) -> Seq<
    char,
> {
    "INSERT INTO "@ + table + " ("@ + cols_text(vs) + ") VALUES ("@ + placeholders_text(vs.len())
        + ")"@ + extra_part(extra) + " RETURNING *;"@
}

/// The mathematical contents of an [`InsertBuilder`].
pub struct InsertBuilderView {
    pub table: Seq<char>,
    pub extra: Seq<char>,
    pub values: Seq<(Seq<char>, ArgView)>,
}

/// Construct a simple insert query.
pub struct InsertBuilder {
    pub table: String,
    pub extra: String,
    pub values: Vec<(String, Arg)>,
}

impl View for InsertBuilder {
    type V = InsertBuilderView;

    open spec fn view(&self) -> InsertBuilderView {
        InsertBuilderView {
            table: self.table@,
            extra: self.extra@,
            values: deep_values(self.values@),
        }
    }
}

impl InsertBuilder {
    /// Create a new builder for `table`.
    pub fn new(table: &str) -> (r: Self)
        ensures
            r@.table == table@,
            r@.extra == Seq::<char>::empty(),
            r@.values == Seq::<(Seq<char>, ArgView)>::empty(),
    {
        let r = InsertBuilder {
            table: String::from_str(table),
            extra: String::new(),
            values: Vec::new(),
        };
        proof {
            assert(deep_values(r.values@) =~= Seq::<(Seq<char>, ArgView)>::empty());
        }
        r
    }

    /// Add one column value, replacing any earlier entry for the same column.
    pub fn with_arg<V: SqlValue>(self, k: &str, v: V) -> (r: Self)
        ensures
            r@.table == self@.table,
            r@.extra == self@.extra,
            r@.values == insert_entry(self@.values, k@, v.arg_view()),
            entries_sorted(self@.values) ==> entries_sorted(r@.values),
    {
        let ghost vv = v;
        let arg = v.into_arg();
        let ghost old_values = self.values@;
        let name = String::from_str(k);
        let values = insert_sorted(self.values, name, arg);
        let r = InsertBuilder { table: self.table, extra: self.extra, values };
        proof {
            lemma_deep_values_lift(old_values);
            lemma_deep_values_lift(r.values@);
            lemma_lift_value_insert(entry_views(old_values), k@, arg);
            if entries_sorted(deep_values(old_values)) {
                lemma_insert_entry_sorted(deep_values(old_values), k@, vv.arg_view());
            }
        }
        r
    }

    /// Add additional statements before the semicolon.
    pub fn with_extra(self, extra: &str) -> (r: Self)
        ensures
            r@ == (InsertBuilderView { extra: extra@, ..self@ }),
    {
        InsertBuilder { table: self.table, extra: String::from_str(extra), values: self.values }
    }

    /// Build the query: the SQL text and its bound arguments in column order.
    pub fn build(self) -> (r: (String, Vec<Arg>))
        ensures
            r.0@ == insert_sql(self@.table, self@.extra, self@.values),
            r.1.deep_view() == set_args(self@.values),
    {
        proof {
            reveal_strlit("INSERT INTO ");
            reveal_strlit(" (");
            reveal_strlit(") VALUES (");
            reveal_strlit(")");
            reveal_strlit(" ");
            reveal_strlit(" RETURNING *;");
            reveal_strlit(", ");
            reveal_strlit("$");
        }
        let ghost vv = self@.values;
        let mut cols = String::new();
        let mut phs = String::new();
        let mut args: Vec<Arg> = Vec::new();
        let mut k: usize = 0;
        proof {
            vstd::std_specs::vec::axiom_spec_len(&self.values);
        }
        while k < self.values.len()
            invariant
                0 <= k <= self.values@.len(),
                self.values@.len() <= usize::MAX,
                vv == deep_values(self.values@),
                vv.len() == self.values@.len(),
                cols@ =~= cols_text(vv.take(k as int)),
                phs@ =~= placeholders_text(k as nat),
                args.deep_view() =~= set_args(vv.take(k as int)),
            decreases self.values@.len() - k,
        {
            let ghost prev_args = args.deep_view();
            if k > 0 {
                cols.append(", ");
                phs.append(", ");
            }
            cols.append(self.values[k].0.as_str());
            phs.append("$");
            let n = u64_to_string((k as u64) + 1);
            phs.append(n.as_str());
            args.push(self.values[k].1.clone());
            proof {
                assert(vv[k as int] == (self.values@[k as int].0@, self.values@[k as int].1@));
                assert(vv.take(k + 1).drop_last() =~= vv.take(k as int));
                assert(vv.take(k + 1).last() == vv[k as int]);
                assert(cols@ =~= cols_text(vv.take(k + 1)));
                assert(phs@ =~= placeholders_text((k + 1) as nat));
                assert(args.deep_view() =~= prev_args.push(self.values@[k as int].1@));
                assert(set_args(vv.take(k + 1)) =~= set_args(vv.take(k as int)).push(
                    vv[k as int].1,
                ));
            }
            k += 1;
        }
        proof {
            assert(vv.take(self.values@.len() as int) =~= vv);
        }
        let mut sql = String::from_str("INSERT INTO ");
        sql.append(self.table.as_str());
        sql.append(" (");
        sql.append(cols.as_str());
        sql.append(") VALUES (");
        sql.append(phs.as_str());
        sql.append(")");
        if !self.extra.as_str().is_empty() {
            sql.append(" ");
            sql.append(self.extra.as_str());
        }
        sql.append(" RETURNING *;");
        proof {
            assert(sql@ =~= insert_sql(self@.table, self@.extra, vv));
        }
        (sql, args)
    }
}

proof fn lemma_placeholders_text_dollars(n: nat)
    ensures
        count_char(placeholders_text(n), '$') == n,
    decreases n,
{
    reveal_strlit(", ");
    reveal_strlit("$");
    if n > 0 {
        lemma_placeholders_text_dollars((n - 1) as nat);
        crate::strutil::lemma_dec_of_digits(n, '$');
        crate::strutil::lemma_count_char_zero(", "@, '$');
        assert(("$"@) =~= seq!['$']);
        crate::strutil::lemma_count_char_single('$', '$');
        let sep: Seq<char> = if n == 1 {
            Seq::<char>::empty()
        } else {
            ", "@
        };
        crate::strutil::lemma_count_char_zero(Seq::<char>::empty(), '$');
        crate::strutil::lemma_count_char_concat(placeholders_text((n - 1) as nat), sep, '$');
        crate::strutil::lemma_count_char_concat(
            placeholders_text((n - 1) as nat) + sep,
            "$"@,
            '$',
        );
        crate::strutil::lemma_count_char_concat(
            placeholders_text((n - 1) as nat) + sep + "$"@,
            dec_of(n),
            '$',
        );
    }
}

proof fn lemma_cols_text_dollars(vs: Seq<(Seq<char>, ArgView)>)
    requires
        forall|i: int| 0 <= i < vs.len() ==> count_char(#[trigger] vs[i].0, '$') == 0,
    ensures
        count_char(cols_text(vs), '$') == 0,
    decreases vs.len(),
{
    reveal_strlit(", ");
    if vs.len() > 0 {
        lemma_cols_text_dollars(vs.drop_last());
        crate::strutil::lemma_count_char_zero(", "@, '$');
        crate::strutil::lemma_count_char_zero(Seq::<char>::empty(), '$');
        let sep: Seq<char> = if vs.len() == 1 {
            Seq::<char>::empty()
        } else {
            ", "@
        };
        crate::strutil::lemma_count_char_concat(cols_text(vs.drop_last()), sep, '$');
        crate::strutil::lemma_count_char_concat(cols_text(vs.drop_last()) + sep, vs.last().0, '$');
    }
}

/// Law: in a rendered insert over `$`-free identifiers, the number of `$`
/// placeholders equals the number of bound arguments, numbered contiguously
/// from one by construction.
pub proof fn lemma_insert_sql_placeholders(
    table: Seq<char>,
    extra: Seq<char>,
    vs: Seq<(Seq<char>, ArgView)>,
)
    requires
        count_char(table, '$') == 0,
        count_char(extra, '$') == 0,
        forall|i: int| 0 <= i < vs.len() ==> count_char(#[trigger] vs[i].0, '$') == 0,
    ensures
        count_char(insert_sql(table, extra, vs), '$') == set_args(vs).len(),
{
    reveal_strlit("INSERT INTO ");
    reveal_strlit(" (");
    reveal_strlit(") VALUES (");
    reveal_strlit(")");
    reveal_strlit(" ");
    reveal_strlit(" RETURNING *;");
    crate::strutil::lemma_count_char_zero("INSERT INTO "@, '$');
    crate::strutil::lemma_count_char_zero(" ("@, '$');
    crate::strutil::lemma_count_char_zero(") VALUES ("@, '$');
    crate::strutil::lemma_count_char_zero(")"@, '$');
    crate::strutil::lemma_count_char_zero(" "@, '$');
    crate::strutil::lemma_count_char_zero(" RETURNING *;"@, '$');
    crate::strutil::lemma_count_char_zero(Seq::<char>::empty(), '$');
    lemma_cols_text_dollars(vs);
    lemma_placeholders_text_dollars(vs.len());
    if extra.len() > 0 {
        crate::strutil::lemma_count_char_concat(" "@, extra, '$');
    }
    let a = "INSERT INTO "@ + table;
    let b = a + " ("@;
    let c = b + cols_text(vs);
    let d = c + ") VALUES ("@;
    let e = d + placeholders_text(vs.len());
    let f = e + ")"@;
    let g = f + extra_part(extra);
    crate::strutil::lemma_count_char_concat("INSERT INTO "@, table, '$');
    crate::strutil::lemma_count_char_concat(a, " ("@, '$');
    crate::strutil::lemma_count_char_concat(b, cols_text(vs), '$');
    crate::strutil::lemma_count_char_concat(c, ") VALUES ("@, '$');
    crate::strutil::lemma_count_char_concat(d, placeholders_text(vs.len()), '$');
    crate::strutil::lemma_count_char_concat(e, ")"@, '$');
    crate::strutil::lemma_count_char_concat(f, extra_part(extra), '$');
    crate::strutil::lemma_count_char_concat(g, " RETURNING *;"@, '$');
}

// ---------------------------------------------------------------------------
// UpdateBuilder
// ---------------------------------------------------------------------------
/// The rendered `SET` clause: `SET c1 = $1, c2 = $2, ...`, empty when no
/// values are present.
pub open spec fn set_text(vs: Seq<(Seq<char>, ArgView)>) -> Seq<char>
    decreases vs.len(),
{
    if vs.len() == 0 {
        Seq::empty()
    } else {
        set_text(vs.drop_last()) + (if vs.len() == 1 {
            "SET "@
        } else {
            ", "@
        }) + vs.last().0 + " = $"@ + dec_of(vs.len())
    }
}

/// The full text of an update statement with at least one value.
pub open spec fn update_sql(
    table: Seq<char>,
    extra: Seq<char>,
    vs: Seq<(Seq<char>, ArgView)>,
    ps: Seq<(Seq<char>, ComparisonMode, ArgView)>,
) -> Seq<char> {
    "UPDATE "@ + table + " "@ + set_text(vs) + where_part(ps, (vs.len() + 1) as nat)
        + extra_part(extra) + " RETURNING *;"@
}

/// The mathematical contents of an [`UpdateBuilder`].
pub struct UpdateBuilderView {
    pub extra: Seq<char>,
    pub values: Seq<(Seq<char>, ArgView)>,
    pub filters: FilteredOperationBuilderView,
}

/// Construct a simple update query over the filters of a
/// [`FilteredOperationBuilder`].
pub struct UpdateBuilder {
    pub extra: String,
    pub values: Vec<(String, Arg)>,
    pub filters: FilteredOperationBuilder,
}

impl View for UpdateBuilder {
    type V = UpdateBuilderView;

    open spec fn view(&self) -> UpdateBuilderView {
        UpdateBuilderView {
            extra: self.extra@,
            values: deep_values(self.values@),
            filters: self.filters@,
        }
    }
}

impl UpdateBuilder {
    /// Take over the filters (and extra) of a filtered builder.
    pub fn from(v: FilteredOperationBuilder) -> (r: Self)
        ensures
            r@.extra == v@.extra,
            r@.values == Seq::<(Seq<char>, ArgView)>::empty(),
            r@.filters == v@,
    {
        let extra = v.extra.clone();
        let r = UpdateBuilder { extra, values: Vec::new(), filters: v };
        proof {
            assert(deep_values(r.values@) =~= Seq::<(Seq<char>, ArgView)>::empty());
        }
        r
    }

    /// Add one value to set, replacing any earlier entry for the same column.
    pub fn with_value<V: SqlValue>(self, column: &str, value: V) -> (r: Self)
        ensures
            r@.extra == self@.extra,
            r@.filters == self@.filters,
            r@.values == insert_entry(self@.values, column@, value.arg_view()),
            entries_sorted(self@.values) ==> entries_sorted(r@.values),
    {
        let ghost vv = value;
        let arg = value.into_arg();
        let ghost old_values = self.values@;
        let name = String::from_str(column);
        let values = insert_sorted(self.values, name, arg);
        let r = UpdateBuilder { extra: self.extra, values, filters: self.filters };
        proof {
            lemma_deep_values_lift(old_values);
            lemma_deep_values_lift(r.values@);
            lemma_lift_value_insert(entry_views(old_values), column@, arg);
            if entries_sorted(deep_values(old_values)) {
                lemma_insert_entry_sorted(deep_values(old_values), column@, vv.arg_view());
            }
        }
        r
    }

    /// Add additional statements before the semicolon.
    pub fn with_extra(self, extra: &str) -> (r: Self)
        ensures
            r@ == (UpdateBuilderView { extra: extra@, ..self@ }),
    {
        UpdateBuilder {
            extra: String::from_str(extra),
            values: self.values,
            filters: self.filters,
        }
    }

    /// Build an `UPDATE` query if values were set; otherwise degrade to the
    /// plain select over the same filters. `SET` placeholders are numbered
    /// first, `WHERE` placeholders continue after them.
    pub fn build(self) -> (r: (String, Vec<Arg>))
        requires
            self@.values.len() + flat_pairs(self@.filters.filters).len() < usize::MAX,
        ensures
            self@.values.len() == 0 ==> r.0@ == filtered_sql(
                self@.filters.table,
                self@.filters.extra,
                flat_pairs(self@.filters.filters),
                (FilteredOperation::Select { op: None, limit: None }),
            ) && r.1.deep_view() == args_of(flat_pairs(self@.filters.filters)),
            self@.values.len() > 0 ==> r.0@ == update_sql(
                self@.filters.table,
                self@.extra,
                self@.values,
                flat_pairs(self@.filters.filters),
            ) && r.1.deep_view() == set_args(self@.values) + args_of(
                flat_pairs(self@.filters.filters),
            ),
    {
        if self.values.len() == 0 {
            return self.filters.build(FilteredOperation::Select { op: None, limit: None });
        }
        proof {
            reveal_strlit("UPDATE ");
            reveal_strlit(" ");
            reveal_strlit("SET ");
            reveal_strlit(", ");
            reveal_strlit(" = $");
            reveal_strlit(" WHERE ");
            reveal_strlit(" RETURNING *;");
        }
        let ghost vv = self@.values;
        let mut set_str = String::new();
        let mut args: Vec<Arg> = Vec::new();
        let mut k: usize = 0;
        proof {
            vstd::std_specs::vec::axiom_spec_len(&self.values);
        }
        while k < self.values.len()
            invariant
                0 <= k <= self.values@.len(),
                self.values@.len() <= usize::MAX,
                vv == deep_values(self.values@),
                vv.len() == self.values@.len(),
                set_str@ =~= set_text(vv.take(k as int)),
                args.deep_view() =~= set_args(vv.take(k as int)),
            decreases self.values@.len() - k,
        {
            let ghost prev_args = args.deep_view();
            if k == 0 {
                set_str.append("SET ");
            } else {
                set_str.append(", ");
            }
            set_str.append(self.values[k].0.as_str());
            set_str.append(" = $");
            let n = u64_to_string((k as u64) + 1);
            set_str.append(n.as_str());
            args.push(self.values[k].1.clone());
            proof {
                assert(vv[k as int] == (self.values@[k as int].0@, self.values@[k as int].1@));
                assert(vv.take(k + 1).drop_last() =~= vv.take(k as int));
                assert(vv.take(k + 1).last() == vv[k as int]);
                assert(set_str@ =~= set_text(vv.take(k + 1)));
                assert(args.deep_view() =~= prev_args.push(self.values@[k as int].1@));
                assert(set_args(vv.take(k + 1)) =~= set_args(vv.take(k as int)).push(
                    vv[k as int].1,
                ));
            }
            k += 1;
        }
        proof {
            assert(vv.take(self.values@.len() as int) =~= vv);
        }
        let flat = flatten_filters(&self.filters.filters);
        proof {
            vstd::std_specs::vec::axiom_spec_len(&flat);
        }
        let (where_str, mut wargs) = render_where(&flat, self.values.len() + 1);
        let ghost ps = flat_pairs(self@.filters.filters);
        let ghost set_part = args.deep_view();
        args.append(&mut wargs);
        proof {
            assert(args.deep_view() =~= set_part + args_of(ps));
        }
        let mut sql = String::from_str("UPDATE ");
        sql.append(self.filters.table.as_str());
        sql.append(" ");
        sql.append(set_str.as_str());
        if flat.len() > 0 {
            sql.append(" WHERE ");
            sql.append(where_str.as_str());
        }
        proof {
            assert(sql@ =~= "UPDATE "@ + self@.filters.table + " "@ + set_text(vv) + where_part(
                ps,
                (vv.len() + 1) as nat,
            ));
        }
        if !self.extra.as_str().is_empty() {
            sql.append(" ");
            sql.append(self.extra.as_str());
        }
        sql.append(" RETURNING *;");
        proof {
            assert(sql@ =~= update_sql(self@.filters.table, self@.extra, vv, ps));
        }
        (sql, args)
    }
}

proof fn lemma_set_text_dollars(vs: Seq<(Seq<char>, ArgView)>)
    requires
        forall|i: int| 0 <= i < vs.len() ==> count_char(#[trigger] vs[i].0, '$') == 0,
    ensures
        count_char(set_text(vs), '$') == vs.len(),
    decreases vs.len(),
{
    reveal_strlit("SET ");
    reveal_strlit(", ");
    reveal_strlit(" = $");
    if vs.len() > 0 {
        lemma_set_text_dollars(vs.drop_last());
        crate::strutil::lemma_count_char_zero("SET "@, '$');
        crate::strutil::lemma_count_char_zero(", "@, '$');
        assert((" = $"@) =~= seq![' ', '=', ' ', '$']);
        assert(seq![' ', '=', ' ', '$'].drop_last() =~= seq![' ', '=', ' ']);
        crate::strutil::lemma_count_char_zero(seq![' ', '=', ' '], '$');
        assert(count_char(" = $"@, '$') == 1);
        crate::strutil::lemma_dec_of_digits(vs.len(), '$');
        let sep: Seq<char> = if vs.len() == 1 {
            "SET "@
        } else {
            ", "@
        };
        let a = set_text(vs.drop_last());
        let b = a + sep;
        let c = b + vs.last().0;
        let d = c + " = $"@;
        crate::strutil::lemma_count_char_concat(a, sep, '$');
        crate::strutil::lemma_count_char_concat(b, vs.last().0, '$');
        crate::strutil::lemma_count_char_concat(c, " = $"@, '$');
        crate::strutil::lemma_count_char_concat(d, dec_of(vs.len()), '$');
    }
}

/// Law: in a rendered update over `$`-free identifiers, the number of `$`
/// placeholders equals the number of bound arguments — the values first,
/// numbered from one, the filters continuing after them, contiguously by
/// construction.
pub proof fn lemma_update_sql_placeholders(
    table: Seq<char>,
    extra: Seq<char>,
    vs: Seq<(Seq<char>, ArgView)>,
    ps: Seq<(Seq<char>, ComparisonMode, ArgView)>,
)
    requires
        count_char(table, '$') == 0,
        count_char(extra, '$') == 0,
        forall|i: int| 0 <= i < vs.len() ==> count_char(#[trigger] vs[i].0, '$') == 0,
        forall|i: int| 0 <= i < ps.len() ==> count_char(#[trigger] ps[i].0, '$') == 0,
    ensures
        count_char(update_sql(table, extra, vs, ps), '$') == set_args(vs).len() + args_of(
            ps,
        ).len(),
{
    reveal_strlit("UPDATE ");
    reveal_strlit(" ");
    reveal_strlit(" WHERE ");
    reveal_strlit(" RETURNING *;");
    crate::strutil::lemma_count_char_zero("UPDATE "@, '$');
    crate::strutil::lemma_count_char_zero(" "@, '$');
    crate::strutil::lemma_count_char_zero(" WHERE "@, '$');
    crate::strutil::lemma_count_char_zero(" RETURNING *;"@, '$');
    crate::strutil::lemma_count_char_zero(Seq::<char>::empty(), '$');
    lemma_set_text_dollars(vs);
    lemma_where_text_dollars(ps, (vs.len() + 1) as nat);
    if ps.len() > 0 {
        crate::strutil::lemma_count_char_concat(
            " WHERE "@,
            where_text(ps, (vs.len() + 1) as nat),
            '$',
        );
    }
    if extra.len() > 0 {
        crate::strutil::lemma_count_char_concat(" "@, extra, '$');
    }
    let a = "UPDATE "@ + table;
    let b = a + " "@;
    let c = b + set_text(vs);
    let d = c + where_part(ps, (vs.len() + 1) as nat);
    let e = d + extra_part(extra);
    crate::strutil::lemma_count_char_concat("UPDATE "@, table, '$');
    crate::strutil::lemma_count_char_concat(a, " "@, '$');
    crate::strutil::lemma_count_char_concat(b, set_text(vs), '$');
    crate::strutil::lemma_count_char_concat(c, where_part(ps, (vs.len() + 1) as nat), '$');
    crate::strutil::lemma_count_char_concat(d, extra_part(extra), '$');
    crate::strutil::lemma_count_char_concat(e, " RETURNING *;"@, '$');
}

} // verus!
