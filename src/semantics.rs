//! What a query returns from a database: the rows of its tables, combined by
//! its joins and kept by its `WHERE` condition.
use vstd::prelude::*;

verus! {

use crate::expr::{holds, Expr, Row, Tuple};
use crate::query::{JoinKind, Query, Source, Table};

/// The stored rows of each table, by table identifier.
pub type Database = Map<u64, Seq<Row>>;

/// The rows of table `id`; none for a table that the database lacks.
pub open spec fn table_rows(db: Database, id: u64) -> Seq<Row> {
    if db.contains_key(id) {
        db[id]
    } else {
        Seq::empty()
    }
}

/// A row of `t` alone in scope.
pub open spec fn single(t: Table, r: Row) -> Tuple {
    Map::empty().insert(t.id, Some(r))
}

/// The condition `e` as a predicate on tuples.
pub open spec fn passes(e: Expr) -> spec_fn(Tuple) -> bool {
    |x: Tuple| holds(e, x)
}

/// The conjunction of two predicates.
pub open spec fn both<A>(a: spec_fn(A) -> bool, b: spec_fn(A) -> bool) -> spec_fn(A) -> bool {
    |x: A| a(x) && b(x)
}

/// The tuple `lt` extended by each row of `rhs`, where `on` holds.
pub open spec fn matching(db: Database, lt: Tuple, rhs: Table, on: Expr) -> Seq<Tuple> {
    table_rows(db, rhs.id).map_values(|r: Row| lt.insert(rhs.id, Some(r))).filter(passes(on))
}

/// What a join makes of one row `lt` of its left side: the matching rows, or,
/// for a left join without a match, `lt` with no row of `rhs`.
pub open spec fn join_row(db: Database, lt: Tuple, rhs: Table, kind: JoinKind, on: Expr) -> Seq<
    Tuple,
> {
    let m = matching(db, lt, rhs, on);
    if kind == JoinKind::LeftOuter && m.len() == 0 {
        seq![lt.insert(rhs.id, None)]
    } else {
        m
    }
}

/// The rows of a `FROM` clause, in order.
pub open spec fn source_rows(db: Database, s: Source) -> Seq<Tuple>
    decreases s,
{
    match s {
        Source::Table(t) => table_rows(db, t.id).map_values(|r: Row| single(t, r)),
        Source::Join(l, rhs, kind, on) => source_rows(db, *l).map_values(
            |lt: Tuple| join_row(db, lt, rhs, kind, on),
        ).flatten(),
    }
}

/// The rows that a query returns, in order.
pub open spec fn query_rows(db: Database, q: Query) -> Seq<Tuple> {
    match q.where_clause {
        Some(w) => source_rows(db, q.from).filter(passes(w)),
        None => source_rows(db, q.from),
    }
}

/// Filtering twice is filtering once by both conditions.
pub proof fn lemma_filter_filter<A>(s: Seq<A>, a: spec_fn(A) -> bool, b: spec_fn(A) -> bool)
    ensures
        s.filter(a).filter(b) == s.filter(both(a, b)),
    decreases s.len(),
{
    reveal(Seq::filter);
    if s.len() > 0 {
        lemma_filter_filter(s.drop_last(), a, b);
        let fa = s.drop_last().filter(a);
        if a(s.last()) {
            assert(fa.push(s.last()).drop_last() =~= fa);
        }
        assert(both(a, b)(s.last()) == (a(s.last()) && b(s.last())));
    }
}

/// Filters by conditions that agree everywhere agree.
pub proof fn lemma_filter_same<A>(s: Seq<A>, a: spec_fn(A) -> bool, b: spec_fn(A) -> bool)
    requires
        forall|x: A| #[trigger] a(x) == b(x),
    ensures
        s.filter(a) == s.filter(b),
{
    assert(a =~= b);
}

/// An element of a filtered sequence is in the sequence and meets the condition.
pub proof fn lemma_filter_member<A>(s: Seq<A>, p: spec_fn(A) -> bool, x: A)
    ensures
        s.filter(p).contains(x) <==> s.contains(x) && p(x),
{
    #[allow(deprecated)]
    s.filter_lemma(p);
    if s.filter(p).contains(x) {
        s.lemma_filter_contains_rev(p, x);
    }
    if s.contains(x) && p(x) {
        let i = choose|i: int| 0 <= i < s.len() && s[i] == x;
        s.lemma_filter_contains(p, i);
    }
}

/// What one of the sequences holds, their concatenation holds.
pub proof fn lemma_flatten_member<A>(ss: Seq<Seq<A>>, i: int, x: A)
    requires
        0 <= i < ss.len(),
        ss[i].contains(x),
    ensures
        ss.flatten().contains(x),
    decreases i,
{
    let rest = ss.drop_first().flatten();
    if i == 0 {
        let j = choose|j: int| 0 <= j < ss[0].len() && ss[0][j] == x;
        assert((ss[0] + rest)[j] == x);
    } else {
        lemma_flatten_member(ss.drop_first(), i - 1, x);
        let j = choose|j: int| 0 <= j < rest.len() && rest[j] == x;
        assert((ss[0] + rest)[ss[0].len() + j] == x);
    }
}

/// A tuple matches a row of `rhs` where it is `lt` extended by a row of `rhs`
/// that meets `on`.
pub proof fn lemma_matching_member(db: Database, lt: Tuple, rhs: Table, on: Expr, x: Tuple)
    ensures
        matching(db, lt, rhs, on).contains(x) <==> exists|r: Row|
            #[trigger] table_rows(db, rhs.id).contains(r) && x == lt.insert(rhs.id, Some(r))
                && holds(on, x),
{
    let rows = table_rows(db, rhs.id);
    let base = rows.map_values(|r: Row| lt.insert(rhs.id, Some(r)));
    lemma_filter_member(base, passes(on), x);
    if base.contains(x) {
        let i = choose|i: int| 0 <= i < base.len() && base[i] == x;
        assert(rows.contains(rows[i]));
    }
    if exists|r: Row| #[trigger] rows.contains(r) && x == lt.insert(rhs.id, Some(r)) && holds(on, x) {
        let r = choose|r: Row| #[trigger] rows.contains(r) && x == lt.insert(rhs.id, Some(r)) && holds(on, x);
        let i = choose|i: int| 0 <= i < rows.len() && rows[i] == r;
        assert(base[i] == x);
    }
}

} // verus!
