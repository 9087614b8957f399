//! Boolean and scalar expressions over the columns of the tables in a query,
//! with SQL's three-valued logic.
use vstd::prelude::*;

verus! {

/// A column of a table: the table's identifier and the column's position in its rows.
#[derive(Clone, Copy, Debug, PartialEq, Eq, Structural)]
pub struct Column {
    pub table: u64,
    pub index: usize,
}

/// A value stored in a row, or produced by an expression.
#[derive(Clone, Copy, Debug, PartialEq, Eq, Structural)]
pub enum Value {
    Null,
    Bool(bool),
    Int(i64),
}

/// An expression tree, as it stands in a `WHERE` or `ON` clause.
#[derive(Debug, PartialEq, Eq)]
pub enum Expr {
    Column(Column),
    Int(i64),
    Bool(bool),
    Eq(Box<Expr>, Box<Expr>),
    Not(Box<Expr>),
    And(Box<Expr>, Box<Expr>),
}

/// A row of a table.
pub type Row = Seq<Value>;

/// A row of a query: for each table in scope, its row, or `None` where an
/// outer join found no match.
pub type Tuple = Map<u64, Option<Row>>;

/// What a column holds in a tuple; `NULL` for a table out of scope or unmatched.
pub open spec fn column_value(t: Tuple, c: Column) -> Value {
    if t.contains_key(c.table) {
        match t[c.table] {
            Some(r) => if c.index < r.len() { r[c.index as int] } else { Value::Null },
            None => Value::Null,
        }
    } else {
        Value::Null
    }
}

/// The value of an expression on a tuple. `NULL` propagates through `=` and
/// `NOT`; `AND` is false as soon as one side is false.
pub open spec fn eval(e: Expr, t: Tuple) -> Value
    decreases e,
{
    match e {
        Expr::Column(c) => column_value(t, c),
        Expr::Int(i) => Value::Int(i),
        Expr::Bool(b) => Value::Bool(b),
        Expr::Eq(a, b) => {
            let (x, y) = (eval(*a, t), eval(*b, t));
            if x is Null || y is Null {
                Value::Null
            } else {
                Value::Bool(x == y)
            }
        },
        Expr::Not(a) => match eval(*a, t) {
            Value::Bool(b) => Value::Bool(!b),
            _ => Value::Null,
        },
        Expr::And(a, b) => {
            let (x, y) = (eval(*a, t), eval(*b, t));
            if x == Value::Bool(false) || y == Value::Bool(false) {
                Value::Bool(false)
            } else if x == Value::Bool(true) && y == Value::Bool(true) {
                Value::Bool(true)
            } else {
                Value::Null
            }
        },
    }
}

/// A tuple passes a condition only where the condition is true (not false, not `NULL`).
pub open spec fn holds(e: Expr, t: Tuple) -> bool {
    eval(e, t) == Value::Bool(true)
}

/// The condition `NOT c`: the row is not marked deleted.
pub open spec fn not_deleted(c: Column) -> Expr {
    Expr::Not(Box::new(Expr::Column(c)))
}

/// `a AND b`.
pub open spec fn and(a: Expr, b: Expr) -> Expr {
    Expr::And(Box::new(a), Box::new(b))
}

impl Expr {
    /// `NOT c` for a boolean column.
    pub fn not_column(c: Column) -> (r: Expr)
        ensures
            r == not_deleted(c),
    {
        Expr::Not(Box::new(Expr::Column(c)))
    }

    /// `self AND other`.
    pub fn and(self, other: Expr) -> (r: Expr)
        ensures
            r == and(self, other),
    {
        Expr::And(Box::new(self), Box::new(other))
    }

    /// `a = b` for two columns.
    pub fn columns_equal(a: Column, b: Column) -> (r: Expr)
        ensures
            r == Expr::Eq(Box::new(Expr::Column(a)), Box::new(Expr::Column(b))),
    {
        Expr::Eq(Box::new(Expr::Column(a)), Box::new(Expr::Column(b)))
    }

    /// `c = k` for a column and an integer.
    pub fn column_is(c: Column, k: i64) -> (r: Expr)
        ensures
            r == Expr::Eq(Box::new(Expr::Column(c)), Box::new(Expr::Int(k))),
    {
        Expr::Eq(Box::new(Expr::Column(c)), Box::new(Expr::Int(k)))
    }
}

/// Holding `a AND b` is holding both.
pub proof fn lemma_and_holds(a: Expr, b: Expr, t: Tuple)
    ensures
        holds(and(a, b), t) <==> holds(a, t) && holds(b, t),
{
}

/// `NOT c` holds exactly on tuples where the column is false.
pub proof fn lemma_not_deleted_holds(c: Column, t: Tuple)
    ensures
        holds(not_deleted(c), t) <==> column_value(t, c) == Value::Bool(false),
{
    assert(eval(Expr::Column(c), t) == column_value(t, c));
}

} // verus!
