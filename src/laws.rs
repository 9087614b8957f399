//! What soft scoping does to the rows that a query returns.
use vstd::prelude::*;

verus! {

use crate::expr::{
    and, column_value, eval, holds, lemma_and_holds, lemma_not_deleted_holds, not_deleted, Column, Expr,
    Row, Tuple, Value,
};
use crate::query::{column_of, filtered, join_on, key_is, root, JoinKind, Query, Source, Table};
use crate::query_source::soft_joined;
use crate::semantics::{
    both, join_row, lemma_filter_filter, lemma_filter_member, lemma_filter_same,
    lemma_flatten_member, lemma_matching_member, matching, passes, query_rows, single, source_rows,
    table_rows, Database,
};
use crate::SoftDelete;

/// The tuples whose deleted flag in column `c` is false.
pub open spec fn active(c: Column) -> spec_fn(Tuple) -> bool {
    |x: Tuple| column_value(x, c) == Value::Bool(false)
}

/// Adding a condition to a query keeps, of its rows, those that meet the condition.
pub proof fn lemma_filtered_rows(db: Database, q: Query, p: Expr)
    ensures
        query_rows(db, filtered(q, p)) == query_rows(db, q).filter(passes(p)),
{
    let s = source_rows(db, q.from);
    match q.where_clause {
        Some(w) => {
            lemma_filter_filter(s, passes(w), passes(p));
            assert forall|x: Tuple| #[trigger]
                passes(and(w, p))(x) == both(passes(w), passes(p))(x) by {
                lemma_and_holds(w, p, x);
            }
            lemma_filter_same(s, passes(and(w, p)), both(passes(w), passes(p)));
        },
        None => {},
    }
}

/// A soft-scoped query returns exactly the rows of the query whose deleted flag is false.
pub proof fn lemma_soft_deleted_rows(db: Database, q: Query)
    ensures
        query_rows(db, filtered(q, not_deleted(q.deleted_column()))) == query_rows(db, q).filter(
            active(q.deleted_column()),
        ),
{
    let d = q.deleted_column();
    lemma_filtered_rows(db, q, not_deleted(d));
    assert forall|x: Tuple| #[trigger] passes(not_deleted(d))(x) == active(d)(x) by {
        lemma_not_deleted_holds(d, x);
    }
    lemma_filter_same(query_rows(db, q), passes(not_deleted(d)), active(d));
}

/// Soft scoping a query that is already soft-scoped changes none of its rows.
pub proof fn lemma_soft_deleted_idempotent(db: Database, q: Query)
    ensures
        ({
            let s = filtered(q, not_deleted(q.deleted_column()));
            query_rows(db, filtered(s, not_deleted(s.deleted_column()))) == query_rows(db, s)
        }),
{
    let d = not_deleted(q.deleted_column());
    let s = filtered(q, d);
    lemma_filtered_rows(db, s, d);
    lemma_filtered_rows(db, q, d);
    let base = query_rows(db, q);
    lemma_filter_filter(base, passes(d), passes(d));
    assert forall|x: Tuple| #[trigger] both(passes(d), passes(d))(x) == passes(d)(x) by {}
    lemma_filter_same(base, both(passes(d), passes(d)), passes(d));
}

/// `soft_find` then `soft_filter`, or `soft_filter` then `soft_find`: either
/// way the query returns the same rows, those of the key that meet the
/// predicate and are not marked deleted.
pub proof fn lemma_soft_find_filter_commute(db: Database, q: Query, k: i64, p: Expr)
    ensures
        ({
            let d = not_deleted(q.deleted_column());
            let found = filtered(filtered(q, key_is(q.from, k)), d);
            let kept = filtered(filtered(q, p), d);
            let expected = query_rows(db, q).filter(
                both(both(passes(key_is(q.from, k)), passes(p)), active(q.deleted_column())),
            );
            &&& query_rows(db, filtered(filtered(found, p), not_deleted(found.deleted_column())))
                == expected
            &&& query_rows(
                db,
                filtered(filtered(kept, key_is(kept.from, k)), not_deleted(kept.deleted_column())),
            ) == expected
        }),
{
    let c = q.deleted_column();
    let d = not_deleted(c);
    let kk = key_is(q.from, k);
    let base = query_rows(db, q);
    let goal = both(both(passes(kk), passes(p)), active(c));
    assert forall|x: Tuple| #[trigger] passes(d)(x) == active(c)(x) by {
        lemma_not_deleted_holds(c, x);
    }
    // soft_find, then soft_filter
    let f1 = filtered(q, kk);
    let f2 = filtered(f1, d);
    let f3 = filtered(f2, p);
    lemma_filtered_rows(db, q, kk);
    lemma_filtered_rows(db, f1, d);
    lemma_filtered_rows(db, f2, p);
    lemma_filtered_rows(db, f3, d);
    lemma_filter_filter(base, passes(kk), passes(d));
    lemma_filter_filter(base, both(passes(kk), passes(d)), passes(p));
    lemma_filter_filter(base, both(both(passes(kk), passes(d)), passes(p)), passes(d));
    lemma_filter_same(base, both(both(both(passes(kk), passes(d)), passes(p)), passes(d)), goal);
    // soft_filter, then soft_find
    let g1 = filtered(q, p);
    let g2 = filtered(g1, d);
    let g3 = filtered(g2, kk);
    lemma_filtered_rows(db, q, p);
    lemma_filtered_rows(db, g1, d);
    lemma_filtered_rows(db, g2, kk);
    lemma_filtered_rows(db, g3, d);
    lemma_filter_filter(base, passes(p), passes(d));
    lemma_filter_filter(base, both(passes(p), passes(d)), passes(kk));
    lemma_filter_filter(base, both(both(passes(p), passes(d)), passes(kk)), passes(d));
    lemma_filter_same(base, both(both(both(passes(p), passes(d)), passes(kk)), passes(d)), goal);
}

/// `soft_find` on a table returns a row of the table exactly when the row has
/// the key and is not marked deleted; it returns nothing else.
pub proof fn lemma_soft_find_row(db: Database, t: Table, k: i64, r: Row)
    requires
        table_rows(db, t.id).contains(r),
    ensures
        ({
            let q = Query { from: Source::Table(t), where_clause: None };
            let found = filtered(filtered(q, key_is(q.from, k)), not_deleted(t.deleted_column()));
            let pk = column_of(t, t.primary_key);
            &&& query_rows(db, found).contains(single(t, r)) <==> (column_value(single(t, r), pk)
                == Value::Int(k) && column_value(single(t, r), t.deleted_column()) == Value::Bool(
                false,
            ))
            &&& forall|x: Tuple| #[trigger]
                query_rows(db, found).contains(x) ==> column_value(x, pk) == Value::Int(k)
                    && column_value(x, t.deleted_column()) == Value::Bool(false)
        }),
{
    let q = Query { from: Source::Table(t), where_clause: None };
    let c = t.deleted_column();
    let d = not_deleted(c);
    let pk = column_of(t, t.primary_key);
    let kk = key_is(q.from, k);
    let base = query_rows(db, q);
    let f1 = filtered(q, kk);
    lemma_filtered_rows(db, q, kk);
    lemma_filtered_rows(db, f1, d);
    lemma_filter_filter(base, passes(kk), passes(d));
    assert forall|x: Tuple|
        #[trigger] both(passes(kk), passes(d))(x) == (column_value(x, pk) == Value::Int(k)
            && column_value(x, c) == Value::Bool(false)) by {
        lemma_not_deleted_holds(c, x);
        assert(eval(Expr::Column(pk), x) == column_value(x, pk));
        assert(eval(Expr::Int(k), x) == Value::Int(k));
    }
    assert forall|x: Tuple| #[trigger]
        query_rows(db, filtered(f1, d)).contains(x) implies column_value(x, pk) == Value::Int(k)
            && column_value(x, c) == Value::Bool(false) by {
        lemma_filter_member(base, both(passes(kk), passes(d)), x);
    }
    let rows = table_rows(db, t.id);
    let i = choose|i: int| 0 <= i < rows.len() && rows[i] == r;
    assert(base[i] == single(t, r));
    lemma_filter_member(base, both(passes(kk), passes(d)), single(t, r));
}

/// Every row of `rhs` that meets `on` next to `lt` is marked deleted.
pub open spec fn all_related_deleted(db: Database, lt: Tuple, rhs: Table, on: Expr) -> bool {
    forall|r: Row|
        #[trigger] table_rows(db, rhs.id).contains(r) && holds_on(on, lt, rhs, r) ==> column_value(
            lt.insert(rhs.id, Some(r)),
            rhs.deleted_column(),
        ) == Value::Bool(true)
}

/// `on` holds of `lt` next to the row `r` of `rhs`.
pub open spec fn holds_on(on: Expr, lt: Tuple, rhs: Table, r: Row) -> bool {
    passes(on)(lt.insert(rhs.id, Some(r)))
}

/// A left join on `on AND NOT deleted` keeps each row `lt` of its left side: it
/// gives `lt` with an active related row, or `lt` with none; and where every
/// related row is deleted, exactly `lt` with none.
pub proof fn lemma_soft_left_join_keeps_primary(db: Database, lt: Tuple, rhs: Table, on: Expr)
    ensures
        ({
            let s = join_row(
                db,
                lt,
                rhs,
                JoinKind::LeftOuter,
                and(on, not_deleted(rhs.deleted_column())),
            );
            &&& s.len() > 0
            &&& forall|i: int|
                0 <= i < s.len() ==> s[i] == lt.insert(rhs.id, None) || (exists|r: Row|
                    table_rows(db, rhs.id).contains(r) && #[trigger] s[i] == lt.insert(
                        rhs.id,
                        Some(r),
                    ) && column_value(s[i], rhs.deleted_column()) == Value::Bool(false))
            &&& all_related_deleted(db, lt, rhs, on) ==> s == seq![lt.insert(rhs.id, None)]
        }),
{
    let c = rhs.deleted_column();
    let son = and(on, not_deleted(c));
    let m = matching(db, lt, rhs, son);
    assert forall|i: int| 0 <= i < m.len() implies (exists|r: Row|
        table_rows(db, rhs.id).contains(r) && #[trigger] m[i] == lt.insert(rhs.id, Some(r))
            && column_value(m[i], c) == Value::Bool(false)) && holds_on(on, lt, rhs, m[i][rhs.id]->Some_0) by {
        assert(m.contains(m[i]));
        lemma_matching_member(db, lt, rhs, son, m[i]);
        lemma_and_holds(on, not_deleted(c), m[i]);
        lemma_not_deleted_holds(c, m[i]);
    }
    if all_related_deleted(db, lt, rhs, on) && m.len() > 0 {
        let r = choose|r: Row|
            table_rows(db, rhs.id).contains(r) && #[trigger] m[0] == lt.insert(rhs.id, Some(r))
                && column_value(m[0], c) == Value::Bool(false);
        assert(m[0][rhs.id]->Some_0 == r);
        assert(false);
    }
}

/// `soft_left_join` keeps every row of the query it is applied to: each one
/// comes out at least once, extended by an active related row or by none; a
/// row whose related rows are all deleted comes out with none.
pub proof fn lemma_soft_left_join_rows(db: Database, q: Query, rhs: Table)
    requires
        soft_joined(q, rhs, JoinKind::LeftOuter) is Some,
    ensures
        ({
            let j = soft_joined(q, rhs, JoinKind::LeftOuter)->Some_0;
            let on = join_on(root(q.from), rhs)->Some_0;
            forall|lt: Tuple| #[trigger]
                source_rows(db, q.from).contains(lt) ==> (exists|y: Tuple|
                    source_rows(db, j.from).contains(y) && y == lt.insert(rhs.id, y[rhs.id]))
                    && (all_related_deleted(db, lt, rhs, on) ==> source_rows(db, j.from).contains(
                    lt.insert(rhs.id, None),
                ))
        }),
{
    let j = soft_joined(q, rhs, JoinKind::LeftOuter)->Some_0;
    let on = join_on(root(q.from), rhs)->Some_0;
    let son = and(on, not_deleted(rhs.deleted_column()));
    let left = source_rows(db, q.from);
    let parts = left.map_values(|lt: Tuple| join_row(db, lt, rhs, JoinKind::LeftOuter, son));
    assert(source_rows(db, j.from) == parts.flatten());
    assert forall|lt: Tuple| #[trigger] left.contains(lt) implies (exists|y: Tuple|
        source_rows(db, j.from).contains(y) && y == lt.insert(rhs.id, y[rhs.id])) && (
    all_related_deleted(db, lt, rhs, on) ==> source_rows(db, j.from).contains(
        lt.insert(rhs.id, None),
    )) by {
        let i = choose|i: int| 0 <= i < left.len() && left[i] == lt;
        let s = join_row(db, lt, rhs, JoinKind::LeftOuter, son);
        assert(parts[i] == s);
        lemma_soft_left_join_keeps_primary(db, lt, rhs, on);
        assert(s.contains(s[0]));
        lemma_flatten_member(parts, i, s[0]);
        if s[0] != lt.insert(rhs.id, None) {
            let r = choose|r: Row|
                table_rows(db, rhs.id).contains(r) && #[trigger] s[0] == lt.insert(rhs.id, Some(r))
                    && column_value(s[0], rhs.deleted_column()) == Value::Bool(false);
            assert(s[0] == lt.insert(rhs.id, s[0][rhs.id]));
        } else {
            assert(s[0] == lt.insert(rhs.id, s[0][rhs.id]));
        }
    }
}

/// A plain left join keeps a related row that is marked deleted; the soft left
/// join leaves it out.
pub proof fn lemma_left_join_keeps_deleted(db: Database, lt: Tuple, rhs: Table, on: Expr, r: Row)
    requires
        table_rows(db, rhs.id).contains(r),
        holds_on(on, lt, rhs, r),
        column_value(lt.insert(rhs.id, Some(r)), rhs.deleted_column()) == Value::Bool(true),
    ensures
        join_row(db, lt, rhs, JoinKind::LeftOuter, on).contains(lt.insert(rhs.id, Some(r))),
        !join_row(
            db,
            lt,
            rhs,
            JoinKind::LeftOuter,
            and(on, not_deleted(rhs.deleted_column())),
        ).contains(lt.insert(rhs.id, Some(r))),
{
    let c = rhs.deleted_column();
    let son = and(on, not_deleted(c));
    let y = lt.insert(rhs.id, Some(r));
    lemma_matching_member(db, lt, rhs, on, y);
    lemma_matching_member(db, lt, rhs, son, y);
    lemma_and_holds(on, not_deleted(c), y);
    lemma_not_deleted_holds(c, y);
    assert(y[rhs.id] != lt.insert(rhs.id, None)[rhs.id]);
    let s = join_row(db, lt, rhs, JoinKind::LeftOuter, son);
    if matching(db, lt, rhs, son).len() == 0 {
        assert(s == seq![lt.insert(rhs.id, None)]);
        if s.contains(y) {
            let i = choose|i: int| 0 <= i < s.len() && s[i] == y;
            assert(s[i] == lt.insert(rhs.id, None));
        }
    }
}

/// For an inner join, `NOT deleted` in the `ON` condition gives the same rows
/// as a filter by `NOT deleted` after the join: only outer joins tell the two apart.
pub proof fn lemma_soft_inner_join_is_filter(db: Database, lt: Tuple, rhs: Table, on: Expr)
    ensures
        join_row(db, lt, rhs, JoinKind::Inner, and(on, not_deleted(rhs.deleted_column())))
            == join_row(db, lt, rhs, JoinKind::Inner, on).filter(
            passes(not_deleted(rhs.deleted_column())),
        ),
{
    let d = not_deleted(rhs.deleted_column());
    let base = table_rows(db, rhs.id).map_values(|r: Row| lt.insert(rhs.id, Some(r)));
    lemma_filter_filter(base, passes(on), passes(d));
    assert forall|x: Tuple| #[trigger] passes(and(on, d))(x) == both(passes(on), passes(d))(x) by {
        lemma_and_holds(on, d, x);
    }
    lemma_filter_same(base, passes(and(on, d)), both(passes(on), passes(d)));
}

/// Filtering by `NOT deleted` after a left join, instead of in its `ON`
/// condition, drops a left row whose related rows are all deleted.
pub proof fn lemma_filter_after_left_join_drops_primary(
    db: Database,
    lt: Tuple,
    rhs: Table,
    on: Expr,
)
    requires
        all_related_deleted(db, lt, rhs, on),
    ensures
        join_row(db, lt, rhs, JoinKind::LeftOuter, on).filter(
            passes(not_deleted(rhs.deleted_column())),
        ).len() == 0,
{
    let c = rhs.deleted_column();
    let s = join_row(db, lt, rhs, JoinKind::LeftOuter, on);
    let f = s.filter(passes(not_deleted(c)));
    if f.len() > 0 {
        let x = f[0];
        assert(f.contains(x));
        lemma_filter_member(s, passes(not_deleted(c)), x);
        lemma_not_deleted_holds(c, x);
        lemma_matching_member(db, lt, rhs, on, x);
        if matching(db, lt, rhs, on).len() == 0 {
            let i = choose|i: int| 0 <= i < s.len() && s[i] == x;
            assert(x == lt.insert(rhs.id, None));
        } else {
            let r = choose|r: Row|
                #[trigger] table_rows(db, rhs.id).contains(r) && x == lt.insert(rhs.id, Some(r))
                    && holds(on, x);
        }
    }
}

} // verus!
