//! Soft delete for relational queries.
//!
//! Tables carry a boolean "deleted" column instead of losing rows. The
//! query methods of this crate attach `NOT deleted` to a query: as a `WHERE`
//! condition for lookups and filters, and inside the `ON` condition for joins,
//! so that an outer join still keeps its primary rows.
use vstd::prelude::*;

pub mod expr;
pub mod laws;
pub mod methods;
pub mod query;
pub mod query_dsl;
pub mod query_source;
pub mod semantics;

verus! {

use crate::expr::Column;

/// A table (or a query over one) that marks deleted rows with a boolean column.
pub trait SoftDelete {
    /// The column that holds the deleted flag.
    spec fn deleted_column(&self) -> Column;

    fn deleted_col(&self) -> (r: Column)
        ensures
            r == self.deleted_column(),
    ;
}

} // verus!
