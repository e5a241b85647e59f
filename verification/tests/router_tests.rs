//! Lexical statement routing: the leading token alone decides read or
//! write, ignoring ASCII case and leading whitespace.

use sqlworkbench::router::{classify_statement, query_error, StatementKind};
use sqlworkbench::values::DbError;

#[test]
fn select_is_read() {
    assert_eq!(classify_statement("select * from my_table"), StatementKind::Read);
}

#[test]
fn pragma_is_read() {
    assert_eq!(classify_statement("pragma table_info(my_table)"), StatementKind::Read);
}

#[test]
fn explain_is_read() {
    assert_eq!(
        classify_statement("explain query plan select rowid,* from my_table"),
        StatementKind::Read
    );
}

#[test]
fn classification_ignores_case() {
    assert_eq!(classify_statement("SELECT 1"), StatementKind::Read);
    assert_eq!(classify_statement("PrAgMa user_version"), StatementKind::Read);
    assert_eq!(classify_statement("EXPLAIN select 1"), StatementKind::Read);
    assert_eq!(classify_statement("INSERT into t values (1)"), StatementKind::Write);
}

#[test]
fn classification_ignores_leading_whitespace() {
    assert_eq!(classify_statement("   select 1"), StatementKind::Read);
    assert_eq!(classify_statement("\t\r\n select 1"), StatementKind::Read);
    assert_eq!(classify_statement("  \n delete from t"), StatementKind::Write);
}

#[test]
fn classification_ignores_unicode_whitespace() {
    // The whitespace skipped is the full Unicode White_Space set, the same
    // characters `str::trim` removes: a no-break space, an ideographic
    // space or a line separator ahead of the keyword does not hide a read.
    assert_eq!(classify_statement("\u{a0}select 1"), StatementKind::Read);
    assert_eq!(classify_statement("\u{3000}\u{2003}PRAGMA user_version"), StatementKind::Read);
    assert_eq!(classify_statement("\u{2028}explain select 1"), StatementKind::Read);
    assert_eq!(classify_statement("\u{85}\u{1680}delete from t"), StatementKind::Write);
    for lead in ["\u{a0}", "\u{1680}", "\u{2000}", "\u{200a}", "\u{202f}", "\u{205f}"] {
        let stmt = format!("{}select 1", lead);
        assert!(stmt.trim().to_lowercase().starts_with("select"));
        assert_eq!(classify_statement(&stmt), StatementKind::Read);
    }
}

#[test]
fn query_error_carries_the_offending_statement() {
    let e = query_error("select * from absent", "no such table: absent");
    assert_eq!(
        e,
        DbError::QueryError(
            "no such table: absent (statement: select * from absent)".to_string()
        )
    );
}

#[test]
fn writes_and_other_statements_are_writes() {
    assert_eq!(classify_statement("insert into my_table(id,name) values(3,'a')"), StatementKind::Write);
    assert_eq!(classify_statement("update t set x = 1"), StatementKind::Write);
    assert_eq!(classify_statement("delete from t where rowid = 3"), StatementKind::Write);
    assert_eq!(
        classify_statement("create table if not exists t(id integer)"),
        StatementKind::Write
    );
    assert_eq!(classify_statement(""), StatementKind::Write);
    assert_eq!(classify_statement("   "), StatementKind::Write);
    assert_eq!(classify_statement("selec"), StatementKind::Write);
}

#[test]
fn classification_is_purely_lexical() {
    // A read hidden behind a common-table-expression keyword is treated as
    // a write, and a keyword prefix without a word boundary still counts:
    // both are documented limits of the lexical router.
    assert_eq!(
        classify_statement("with t as (select 1) select * from t"),
        StatementKind::Write
    );
    assert_eq!(classify_statement("selection"), StatementKind::Read);
}
