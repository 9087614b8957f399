//! Joins whose `ON` condition leaves out the deleted rows of the joined table.
use vstd::prelude::*;

verus! {

use crate::expr::{and, not_deleted, Expr};
use crate::query::{join_on, joined, root, IntoQuery, JoinKind, Query, Table};
use crate::SoftDelete;

/// The implicit `ON` condition that joins `rhs` to `lhs`, with `AND NOT deleted`
/// on the deleted flag of `rhs`; `None` where neither table references the other.
pub open spec fn soft_join_on(lhs: Table, rhs: Table) -> Option<Expr> {
    match join_on(lhs, rhs) {
        Some(on) => Some(and(on, not_deleted(rhs.deleted_column()))),
        None => None,
    }
}

/// The query `q` with `rhs` joined on the soft `ON` condition.
pub open spec fn soft_joined(q: Query, rhs: Table, kind: JoinKind) -> Option<Query> {
    match soft_join_on(root(q.from), rhs) {
        Some(on) => Some(joined(q, rhs, kind, on)),
        None => None,
    }
}

/// Tables that can be joined without an explicit `ON` condition, while leaving
/// out the deleted rows of the joined table.
pub trait SoftJoinTo: IntoQuery {
    /// The table to join and its `ON` condition.
    fn soft_join_target(&self, rhs: Table) -> (r: Option<(Table, Expr)>)
        ensures
            match soft_join_on(root(self.query_view().from), rhs) {
                Some(on) => r == Some((rhs, on)),
                None => r is None,
            },
    ;
}

impl<T: IntoQuery> SoftJoinTo for T {
    fn soft_join_target(&self, rhs: Table) -> (r: Option<(Table, Expr)>) {
        let deleted = rhs.deleted_col();
        match self.root_table().join_on(&rhs) {
            Some(on) => Some((rhs, on.and(Expr::not_column(deleted)))),
            None => None,
        }
    }
}

/// A join of a given kind on the soft `ON` condition.
pub trait SoftJoin: SoftJoinTo {
    fn soft_join(self, rhs: Table, kind: JoinKind) -> (r: Option<Query>)
        ensures
            r == soft_joined(self.query_view(), rhs, kind),
    ;
}

impl<T: IntoQuery> SoftJoin for T {
    fn soft_join(self, rhs: Table, kind: JoinKind) -> (r: Option<Query>) {
        match self.soft_join_target(rhs) {
            Some((from, on)) => Some(self.into_query().join(from, kind, on)),
            None => None,
        }
    }
}

} // verus!
