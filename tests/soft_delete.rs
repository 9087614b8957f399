use softdelete::expr::{Column, Expr};
use softdelete::methods::{SoftDeleteDsl, SoftFilterDsl, SoftFindDsl};
use softdelete::query::{ForeignKey, IntoQuery, JoinKind, Query, Source, Table};
use softdelete::query_dsl::SoftJoinDsl;
use softdelete::query_source::{SoftJoin, SoftJoinTo};
use softdelete::SoftDelete;

const USER: u64 = 1;
const POST: u64 = 2;
const COMMENT: u64 = 3;

// user(id, name, deleted)
fn user() -> Table {
    Table { id: USER, primary_key: 0, deleted: 2, foreign_keys: vec![] }
}

// post(id, user_id, title, deleted)
fn post() -> Table {
    Table {
        id: POST,
        primary_key: 0,
        deleted: 3,
        foreign_keys: vec![ForeignKey { column: 1, parent: USER }],
    }
}

// comment(id, user_id, post_id, content, deleted)
fn comment() -> Table {
    Table {
        id: COMMENT,
        primary_key: 0,
        deleted: 4,
        foreign_keys: vec![
            ForeignKey { column: 1, parent: USER },
            ForeignKey { column: 2, parent: POST },
        ],
    }
}

fn col(table: u64, index: usize) -> Expr {
    Expr::Column(Column { table, index })
}

fn not(e: Expr) -> Expr {
    Expr::Not(Box::new(e))
}

fn and(a: Expr, b: Expr) -> Expr {
    Expr::And(Box::new(a), Box::new(b))
}

fn eq(a: Expr, b: Expr) -> Expr {
    Expr::Eq(Box::new(a), Box::new(b))
}

#[test]
fn deleted_col_of_table_and_query() {
    assert_eq!(user().deleted_col(), Column { table: USER, index: 2 });
    assert_eq!(comment().deleted_col(), Column { table: COMMENT, index: 4 });
    let q = user().soft_left_join(post()).unwrap();
    assert_eq!(q.deleted_col(), Column { table: USER, index: 2 });
}

#[test]
fn soft_deleted_on_table() {
    let q = user().soft_deleted();
    assert_eq!(q.from, Source::Table(user()));
    assert_eq!(q.where_clause, Some(not(col(USER, 2))));
}

#[test]
fn soft_deleted_on_filtered_query() {
    let q = user().into_query().filter(eq(col(USER, 1), Expr::Int(7))).soft_deleted();
    assert_eq!(q.where_clause, Some(and(eq(col(USER, 1), Expr::Int(7)), not(col(USER, 2)))));
}

#[test]
fn soft_deleted_twice() {
    let q = post().soft_deleted().soft_deleted();
    assert_eq!(q.where_clause, Some(and(not(col(POST, 3)), not(col(POST, 3)))));
}

#[test]
fn plain_find() {
    let q = user().into_query().find(42);
    assert_eq!(q.where_clause, Some(eq(col(USER, 0), Expr::Int(42))));
}

#[test]
fn soft_find_on_table() {
    let q = user().soft_find(42);
    assert_eq!(q.from, Source::Table(user()));
    assert_eq!(q.where_clause, Some(and(eq(col(USER, 0), Expr::Int(42)), not(col(USER, 2)))));
}

#[test]
fn soft_find_negative_key() {
    let q = post().soft_find(-3);
    assert_eq!(q.where_clause, Some(and(eq(col(POST, 0), Expr::Int(-3)), not(col(POST, 3)))));
}

#[test]
fn soft_filter_on_table() {
    let q = user().soft_filter(eq(col(USER, 1), Expr::Int(5)));
    assert_eq!(q.where_clause, Some(and(eq(col(USER, 1), Expr::Int(5)), not(col(USER, 2)))));
}

#[test]
fn soft_filter_after_soft_find() {
    let q = user().soft_find(1).soft_filter(Expr::Bool(true));
    let found = and(eq(col(USER, 0), Expr::Int(1)), not(col(USER, 2)));
    assert_eq!(q.where_clause, Some(and(and(found, Expr::Bool(true)), not(col(USER, 2)))));
}

#[test]
fn soft_find_after_soft_filter() {
    let q = user().soft_filter(Expr::Bool(true)).soft_find(1);
    let kept = and(Expr::Bool(true), not(col(USER, 2)));
    assert_eq!(
        q.where_clause,
        Some(and(and(kept, eq(col(USER, 0), Expr::Int(1))), not(col(USER, 2))))
    );
}

#[test]
fn join_on_child_references_parent() {
    assert_eq!(user().join_on(&post()), Some(eq(col(POST, 1), col(USER, 0))));
}

#[test]
fn join_on_parent_referenced_by_child() {
    assert_eq!(post().join_on(&user()), Some(eq(col(POST, 1), col(USER, 0))));
}

#[test]
fn join_on_unrelated_tables() {
    let other = Table { id: 9, primary_key: 0, deleted: 1, foreign_keys: vec![] };
    assert_eq!(user().join_on(&other), None);
    assert_eq!(user().soft_left_join(other), None);
}

#[test]
fn reference_to_takes_first_match() {
    let t = Table {
        id: 5,
        primary_key: 0,
        deleted: 1,
        foreign_keys: vec![
            ForeignKey { column: 2, parent: POST },
            ForeignKey { column: 3, parent: USER },
            ForeignKey { column: 4, parent: USER },
        ],
    };
    assert_eq!(t.reference_to(USER), Some(3));
    assert_eq!(t.reference_to(POST), Some(2));
    assert_eq!(t.reference_to(COMMENT), None);
}

#[test]
fn soft_join_target_adds_not_deleted() {
    let target = user().soft_join_target(post());
    let on = and(eq(col(POST, 1), col(USER, 0)), not(col(POST, 3)));
    assert_eq!(target, Some((post(), on)));
}

#[test]
fn soft_left_join_puts_flag_in_on_clause() {
    let q = user().soft_find(7).soft_left_join(post()).unwrap();
    let on = and(eq(col(POST, 1), col(USER, 0)), not(col(POST, 3)));
    let expected_from =
        Source::Join(Box::new(Source::Table(user())), post(), JoinKind::LeftOuter, on);
    assert_eq!(q.from, expected_from);
    // the WHERE condition is that of the lookup alone
    assert_eq!(q.where_clause, Some(and(eq(col(USER, 0), Expr::Int(7)), not(col(USER, 2)))));
}

#[test]
fn soft_inner_join_puts_flag_in_on_clause() {
    let q = user().soft_find(7).soft_inner_join(post()).unwrap();
    let on = and(eq(col(POST, 1), col(USER, 0)), not(col(POST, 3)));
    let expected_from = Source::Join(Box::new(Source::Table(user())), post(), JoinKind::Inner, on);
    assert_eq!(q.from, expected_from);
}

#[test]
fn soft_join_towards_parent() {
    let q = post().soft_join(user(), JoinKind::LeftOuter).unwrap();
    let on = and(eq(col(POST, 1), col(USER, 0)), not(col(USER, 2)));
    let expected = Query {
        from: Source::Join(Box::new(Source::Table(post())), user(), JoinKind::LeftOuter, on),
        where_clause: None,
    };
    assert_eq!(q, expected);
}

#[test]
fn plain_left_join_keeps_on_clause() {
    let on = eq(col(POST, 1), col(USER, 0));
    let q = user().into_query().join(post(), JoinKind::LeftOuter, eq(col(POST, 1), col(USER, 0)));
    assert_eq!(q.from, Source::Join(Box::new(Source::Table(user())), post(), JoinKind::LeftOuter, on));
    assert_eq!(q.where_clause, None);
}

#[test]
fn second_soft_join_uses_root_table() {
    let q = user().soft_left_join(post()).unwrap().soft_left_join(comment()).unwrap();
    assert_eq!(q.from.root(), &user());
    match q.from {
        Source::Join(_, rhs, kind, on) => {
            assert_eq!(rhs, comment());
            assert_eq!(kind, JoinKind::LeftOuter);
            assert_eq!(on, and(eq(col(COMMENT, 1), col(USER, 0)), not(col(COMMENT, 4))));
        }
        Source::Table(_) => panic!("expected a join"),
    }
}

#[test]
fn expression_builders() {
    let c = Column { table: USER, index: 2 };
    assert_eq!(Expr::not_column(c), not(col(USER, 2)));
    assert_eq!(Expr::Bool(true).and(Expr::Int(1)), and(Expr::Bool(true), Expr::Int(1)));
    assert_eq!(Expr::column_is(c, 3), eq(col(USER, 2), Expr::Int(3)));
    assert_eq!(Expr::columns_equal(c, c), eq(col(USER, 2), col(USER, 2)));
    assert_eq!(user().primary_key_col(), Column { table: USER, index: 0 });
}
