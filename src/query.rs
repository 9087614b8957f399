//! Tables and the select statements built over them.
use vstd::prelude::*;

verus! {

use crate::expr::{and, Column, Expr};
use crate::SoftDelete;

/// A column of a table that holds the primary key of another table.
#[derive(Clone, Copy, Debug, PartialEq, Eq, Structural)]
pub struct ForeignKey {
    pub column: usize,
    pub parent: u64,
}

/// A table: its identifier, the position of its primary key and of its
/// deleted flag, and the tables that it references.
#[derive(Debug, PartialEq, Eq)]
pub struct Table {
    pub id: u64,
    pub primary_key: usize,
    pub deleted: usize,
    pub foreign_keys: Vec<ForeignKey>,
}

/// How the rows of a joined table are combined with the rows on its left.
#[derive(Clone, Copy, Debug, PartialEq, Eq, Structural)]
pub enum JoinKind {
    Inner,
    LeftOuter,
}

/// The `FROM` clause of a query: a table, or a source joined to a table on a condition.
#[derive(Debug, PartialEq, Eq)]
pub enum Source {
    Table(Table),
    Join(Box<Source>, Table, JoinKind, Expr),
}

/// A select statement: its `FROM` clause and its `WHERE` condition, if any.
#[derive(Debug, PartialEq, Eq)]
pub struct Query {
    pub from: Source,
    pub where_clause: Option<Expr>,
}

/// The column of `t` at `index`.
pub open spec fn column_of(t: Table, index: usize) -> Column {
    Column { table: t.id, index }
}

impl Table {
    /// The primary key column.
    pub fn primary_key_col(&self) -> (r: Column)
        ensures
            r == column_of(*self, self.primary_key),
    {
        Column { table: self.id, index: self.primary_key }
    }
}

impl SoftDelete for Table {
    open spec fn deleted_column(&self) -> Column {
        column_of(*self, self.deleted)
    }

    fn deleted_col(&self) -> (r: Column) {
        Column { table: self.id, index: self.deleted }
    }
}

/// The leftmost table of a `FROM` clause: the one that lookups by key address.
pub open spec fn root(s: Source) -> Table
    decreases s,
{
    match s {
        Source::Table(t) => t,
        Source::Join(l, _, _, _) => root(*l),
    }
}

impl Source {
    /// The leftmost table.
    pub fn root(&self) -> (r: &Table)
        ensures
            *r == root(*self),
        decreases self,
    {
        match self {
            Source::Table(t) => t,
            Source::Join(l, _, _, _) => l.root(),
        }
    }
}

/// The query with `p` added to its `WHERE` condition by `AND`.
pub open spec fn filtered(q: Query, p: Expr) -> Query {
    Query {
        from: q.from,
        where_clause: Some(
            match q.where_clause {
                Some(w) => and(w, p),
                None => p,
            },
        ),
    }
}

/// The condition that selects the row with primary key `key` of the root table.
pub open spec fn key_is(s: Source, key: i64) -> Expr {
    Expr::Eq(
        Box::new(Expr::Column(column_of(root(s), root(s).primary_key))),
        Box::new(Expr::Int(key)),
    )
}

/// The query with `rhs` joined to its `FROM` clause; the `WHERE` condition stays.
pub open spec fn joined(q: Query, rhs: Table, kind: JoinKind, on: Expr) -> Query {
    Query { from: Source::Join(Box::new(q.from), rhs, kind, on), where_clause: q.where_clause }
}

/// The column of the first foreign key in `fks`, from position `i` on, that
/// references `parent`.
pub open spec fn first_reference(fks: Seq<ForeignKey>, parent: u64, i: int) -> Option<usize>
    decreases fks.len() - i,
{
    if i < 0 || i >= fks.len() {
        None
    } else if fks[i].parent == parent {
        Some(fks[i].column)
    } else {
        first_reference(fks, parent, i + 1)
    }
}

/// The implicit `ON` condition that joins `rhs` to `lhs`: a foreign key of `rhs`
/// that references `lhs` equals the primary key of `lhs`, or else a foreign key
/// of `lhs` that references `rhs` equals the primary key of `rhs`. `None` where
/// neither table references the other.
pub open spec fn join_on(lhs: Table, rhs: Table) -> Option<Expr> {
    match first_reference(rhs.foreign_keys@, lhs.id, 0) {
        Some(c) => Some(
            Expr::Eq(
                Box::new(Expr::Column(column_of(rhs, c))),
                Box::new(Expr::Column(column_of(lhs, lhs.primary_key))),
            ),
        ),
        None => match first_reference(lhs.foreign_keys@, rhs.id, 0) {
            Some(c) => Some(
                Expr::Eq(
                    Box::new(Expr::Column(column_of(lhs, c))),
                    Box::new(Expr::Column(column_of(rhs, rhs.primary_key))),
                ),
            ),
            None => None,
        },
    }
}

impl Table {
    /// The column of the first foreign key of this table that references `parent`.
    pub fn reference_to(&self, parent: u64) -> (r: Option<usize>)
        ensures
            r == first_reference(self.foreign_keys@, parent, 0),
    {
        let mut i: usize = 0;
        while i < self.foreign_keys.len()
            invariant
                i <= self.foreign_keys@.len(),
                first_reference(self.foreign_keys@, parent, i as int) == first_reference(
                    self.foreign_keys@,
                    parent,
                    0,
                ),
            decreases self.foreign_keys@.len() - i,
        {
            if self.foreign_keys[i].parent == parent {
                return Some(self.foreign_keys[i].column);
            }
            i = i + 1;
        }
        None
    }

    /// The implicit `ON` condition that joins `rhs` to this table, if either
    /// references the other.
    pub fn join_on(&self, rhs: &Table) -> (r: Option<Expr>)
        ensures
            r == join_on(*self, *rhs),
    {
        match rhs.reference_to(self.id) {
            Some(c) => Some(
                Expr::columns_equal(
                    Column { table: rhs.id, index: c },
                    self.primary_key_col(),
                ),
            ),
            None => match self.reference_to(rhs.id) {
                Some(c) => Some(
                    Expr::columns_equal(
                        Column { table: self.id, index: c },
                        rhs.primary_key_col(),
                    ),
                ),
                None => None,
            },
        }
    }
}

impl Query {
    /// Adds `p` to the `WHERE` condition by `AND`.
    pub fn filter(self, p: Expr) -> (r: Query)
        ensures
            r == filtered(self, p),
    {
        let where_clause = match self.where_clause {
            Some(w) => w.and(p),
            None => p,
        };
        Query { from: self.from, where_clause: Some(where_clause) }
    }

    /// Keeps the row whose primary key, in the root table, is `key`.
    pub fn find(self, key: i64) -> (r: Query)
        ensures
            r == filtered(self, key_is(self.from, key)),
    {
        let pk = self.from.root().primary_key_col();
        self.filter(Expr::column_is(pk, key))
    }

    /// Joins `rhs` on `on`, with the given kind; the `WHERE` condition stays.
    pub fn join(self, rhs: Table, kind: JoinKind, on: Expr) -> (r: Query)
        ensures
            r == joined(self, rhs, kind, on),
    {
        Query { from: Source::Join(Box::new(self.from), rhs, kind, on), where_clause: self.where_clause }
    }
}

impl SoftDelete for Query {
    /// A query's deleted flag is that of its root table.
    open spec fn deleted_column(&self) -> Column {
        root(self.from).deleted_column()
    }

    fn deleted_col(&self) -> (r: Column) {
        self.from.root().deleted_col()
    }
}

/// A value that stands for a select statement: a table (all its rows) or a query.
pub trait IntoQuery: Sized {
    spec fn query_view(&self) -> Query;

    fn into_query(self) -> (r: Query)
        ensures
            r == self.query_view(),
    ;

    /// The root table of the query that this value stands for.
    fn root_table(&self) -> (r: &Table)
        ensures
            *r == root(self.query_view().from),
    ;
}

impl IntoQuery for Table {
    open spec fn query_view(&self) -> Query {
        Query { from: Source::Table(*self), where_clause: None }
    }

    fn into_query(self) -> (r: Query) {
        Query { from: Source::Table(self), where_clause: None }
    }

    fn root_table(&self) -> (r: &Table) {
        self
    }
}

impl IntoQuery for Query {
    open spec fn query_view(&self) -> Query {
        *self
    }

    fn into_query(self) -> (r: Query) {
        self
    }

    fn root_table(&self) -> (r: &Table) {
        self.from.root()
    }
}

} // verus!
