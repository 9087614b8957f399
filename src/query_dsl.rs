//! The soft join methods of the query builder.
use vstd::prelude::*;

verus! {

use crate::query::{IntoQuery, JoinKind, Query, Table};
use crate::query_source::{soft_joined, SoftJoin};

/// The `soft_inner_join` and `soft_left_join` methods.
pub trait SoftJoinDsl: SoftJoin {
    /// An inner join that leaves out the deleted rows of `rhs`.
    fn soft_inner_join(self, rhs: Table) -> (r: Option<Query>)
        ensures
            r == soft_joined(self.query_view(), rhs, JoinKind::Inner),
    {
        self.soft_join(rhs, JoinKind::Inner)
    }

    /// A left join that leaves out the deleted rows of `rhs`: a primary row
    /// whose related rows are all deleted is kept, with no related row.
    fn soft_left_join(self, rhs: Table) -> (r: Option<Query>)
        ensures
            r == soft_joined(self.query_view(), rhs, JoinKind::LeftOuter),
    {
        self.soft_join(rhs, JoinKind::LeftOuter)
    }
}

impl<T: IntoQuery> SoftJoinDsl for T {}

} // verus!
