//! Soft-scoped selection, lookup and filtering.
use vstd::prelude::*;

verus! {

use crate::expr::{not_deleted, Expr};
use crate::query::{filtered, key_is, IntoQuery, Query};
use crate::SoftDelete;

/// The `soft_deleted` method: the rows that are not marked deleted.
pub trait SoftDeleteDsl: SoftDelete + IntoQuery {
    /// The query filtered by `NOT deleted`.
    fn soft_deleted(self) -> (r: Query)
        ensures
            r == filtered(self.query_view(), not_deleted(self.deleted_column())),
    ;
}

impl<T: SoftDelete + IntoQuery> SoftDeleteDsl for T {
    fn soft_deleted(self) -> (r: Query) {
        let deleted = self.deleted_col();
        self.into_query().filter(Expr::not_column(deleted))
    }
}

/// The `soft_find` method: the row with a given primary key, unless it is marked deleted.
pub trait SoftFindDsl: SoftDelete + IntoQuery {
    /// The query filtered by the key, then by `NOT deleted`.
    fn soft_find(self, id: i64) -> (r: Query)
        ensures
            r == filtered(
                filtered(self.query_view(), key_is(self.query_view().from, id)),
                not_deleted(self.deleted_column()),
            ),
    ;
}

impl<T: SoftDelete + IntoQuery> SoftFindDsl for T {
    fn soft_find(self, id: i64) -> (r: Query) {
        let deleted = self.deleted_col();
        self.into_query().find(id).filter(Expr::not_column(deleted))
    }
}

/// The `soft_filter` method: a filter that also leaves out the rows marked deleted.
///
/// It needs to be applied once per query. On a query with a left join, the
/// deleted flag of the joined table is better handled by
/// [`soft_left_join`](crate::query_dsl::SoftJoinDsl::soft_left_join), which
/// keeps the primary rows whose related rows are deleted.
pub trait SoftFilterDsl: SoftDelete + IntoQuery {
    /// The query filtered by `predicate`, then by `NOT deleted`.
    fn soft_filter(self, predicate: Expr) -> (r: Query)
        ensures
            r == filtered(
                filtered(self.query_view(), predicate),
                not_deleted(self.deleted_column()),
            ),
    ;
}

impl<T: SoftDelete + IntoQuery> SoftFilterDsl for T {
    fn soft_filter(self, predicate: Expr) -> (r: Query) {
        let deleted = self.deleted_col();
        self.into_query().filter(predicate).filter(Expr::not_column(deleted))
    }
}

} // verus!
