//! The planned SQL and the edit protocol, run against a real embedded
//! engine through an in-memory database.

use rusqlite::types::Value;
use rusqlite::Connection;

use sqlworkbench::edits::{plan_edits, EditAction, EditRequest, EditSession, RowUpdate};
use sqlworkbench::router::{classify_statement, StatementKind};
use sqlworkbench::rows::plan_row_query;
use sqlworkbench::schema::SqliteMeta;
use sqlworkbench::values::{DbError, RowField, ScalarValue};

fn to_engine_value(v: &ScalarValue) -> Value {
    match v {
        ScalarValue::Null => Value::Null,
        ScalarValue::Integer(i) => Value::Integer(*i),
        ScalarValue::Real(bits) => Value::Real(f64::from_bits(*bits)),
        ScalarValue::Text(s) => Value::Text(s.clone()),
        ScalarValue::Blob(b) => Value::Blob(b.clone()),
    }
}

/// Drive one batch edit against the engine exactly as the shell does: one
/// session action at a time, every engine outcome reported back.
fn apply_edit(conn: &Connection, req: EditRequest) -> (Result<(), DbError>, bool) {
    let plan = plan_edits(req);
    let mut session = EditSession::new(plan);
    conn.execute_batch("begin").unwrap();
    loop {
        match session.action() {
            EditAction::ExecuteStatement(_) => {
                let stmt = session.current_statement();
                let args: Vec<Value> = stmt.args.iter().map(to_engine_value).collect();
                let outcome = conn.execute(&stmt.sql, rusqlite::params_from_iter(args));
                match outcome {
                    Ok(_) => session.statement_succeeded(),
                    Err(e) => session.statement_failed(e.to_string()),
                }
            }
            EditAction::Commit => {
                let committed = conn.execute_batch("commit").is_ok();
                session.commit_finished(committed);
            }
            EditAction::Rollback => {
                let rolled_back = conn.execute_batch("rollback").is_ok();
                session.rollback_finished(rolled_back);
            }
            EditAction::Done => {
                return (session.outcome(), session.rolled_back_cleanly());
            }
        }
    }
}

fn seeded_connection() -> Connection {
    let conn = Connection::open_in_memory().unwrap();
    conn.execute_batch("create table my_table (id text, name text, etime integer)").unwrap();
    for i in 1..=10 {
        conn.execute(
            "insert into my_table (id, name, etime) values (?, ?, ?)",
            rusqlite::params_from_iter(vec![
                Value::Text(format!("id{}", i)),
                Value::Text(format!("name{}", i)),
                Value::Integer(300000 + i),
            ]),
        )
        .unwrap();
    }
    conn
}

fn table_dump(conn: &Connection) -> Vec<(i64, String, String)> {
    let mut stmt = conn
        .prepare("select rowid, id, name from my_table order by rowid")
        .unwrap();
    let rows = stmt
        .query_map([], |r| Ok((r.get(0)?, r.get(1)?, r.get(2)?)))
        .unwrap();
    rows.map(|r| r.unwrap()).collect()
}

fn count(conn: &Connection, sql: &str) -> i64 {
    conn.query_row(sql, [], |r| r.get(0)).unwrap()
}

#[test]
fn batch_edit_applies_all_three_phases_atomically() {
    let conn = seeded_connection();
    let before = count(&conn, "select count(*) from my_table");
    let req = EditRequest {
        table_name: "my_table".to_string(),
        key: None,
        delete_set: Some(vec!["5".to_string(), "6".to_string()]),
        update_set: Some(vec![RowUpdate {
            rowid: "7".to_string(),
            cols: vec![RowField {
                name: "name".to_string(),
                value: ScalarValue::Text("x".to_string()),
            }],
        }]),
        insert_set: Some(vec![vec![RowField {
            name: "name".to_string(),
            value: ScalarValue::Text("y".to_string()),
        }]]),
    };
    let (outcome, _) = apply_edit(&conn, req);
    assert_eq!(outcome, Ok(()));
    assert_eq!(count(&conn, "select count(*) from my_table where rowid in (5,6)"), 0);
    let name7: String = conn
        .query_row("select name from my_table where rowid = 7", [], |r| r.get(0))
        .unwrap();
    assert_eq!(name7, "x");
    assert_eq!(count(&conn, "select count(*) from my_table where name = 'y'"), 1);
    let after = count(&conn, "select count(*) from my_table");
    assert_eq!(after, before - 2 + 1);
}

#[test]
fn failing_statement_rolls_the_whole_edit_back() {
    let conn = Connection::open_in_memory().unwrap();
    conn.execute_batch("create table my_table (id text, name text unique, etime integer)")
        .unwrap();
    for i in 1..=4 {
        conn.execute(
            "insert into my_table (id, name, etime) values (?, ?, ?)",
            rusqlite::params_from_iter(vec![
                Value::Text(format!("id{}", i)),
                Value::Text(format!("name{}", i)),
                Value::Integer(i),
            ]),
        )
        .unwrap();
    }
    let before = table_dump(&conn);
    let req = EditRequest {
        table_name: "my_table".to_string(),
        key: None,
        delete_set: Some(vec!["2".to_string()]),
        update_set: Some(vec![RowUpdate {
            rowid: "3".to_string(),
            cols: vec![RowField {
                name: "etime".to_string(),
                value: ScalarValue::Integer(999),
            }],
        }]),
        // The insert repeats an existing name and violates the uniqueness
        // constraint: the delete and the update must not survive either.
        insert_set: Some(vec![vec![RowField {
            name: "name".to_string(),
            value: ScalarValue::Text("name1".to_string()),
        }]]),
    };
    let (outcome, rolled_back) = apply_edit(&conn, req);
    assert!(matches!(outcome, Err(DbError::TransactionError(_))));
    assert!(rolled_back);
    assert_eq!(table_dump(&conn), before);
}

#[test]
fn page_query_returns_min_of_rows_and_limit() {
    let conn = seeded_connection();
    let catalog = vec![SqliteMeta {
        obj_type: Some("table".to_string()),
        name: Some("my_table".to_string()),
        tbl_name: Some("my_table".to_string()),
        rootpage: Some(2),
        sql: None,
    }];
    for (limit, expected) in [(3u64, 3usize), (10, 10), (25, 10)] {
        let q = plan_row_query(&catalog, &"my_table".to_string(), limit).unwrap();
        let mut stmt = conn.prepare(&q.sql).unwrap();
        let rows: Vec<i64> = stmt
            .query_map([Value::Integer(q.limit as i64)], |r| r.get(0))
            .unwrap()
            .map(|r| r.unwrap())
            .collect();
        assert_eq!(rows.len(), expected);
    }
}

#[test]
fn table_rows_carry_rowid_and_view_rows_do_not() {
    let conn = seeded_connection();
    conn.execute_batch("create view v_my_table as select id,name from my_table").unwrap();
    let catalog = vec![
        SqliteMeta {
            obj_type: Some("table".to_string()),
            name: Some("my_table".to_string()),
            tbl_name: Some("my_table".to_string()),
            rootpage: Some(2),
            sql: None,
        },
        SqliteMeta {
            obj_type: Some("view".to_string()),
            name: Some("v_my_table".to_string()),
            tbl_name: Some("v_my_table".to_string()),
            rootpage: Some(0),
            sql: None,
        },
    ];

    let q = plan_row_query(&catalog, &"my_table".to_string(), 5).unwrap();
    let stmt = conn.prepare(&q.sql).unwrap();
    assert!(q.include_rowid);
    assert!(stmt.column_names().contains(&"rowid"));

    let q = plan_row_query(&catalog, &"v_my_table".to_string(), 5).unwrap();
    let stmt = conn.prepare(&q.sql).unwrap();
    assert!(!q.include_rowid);
    assert!(!stmt.column_names().contains(&"rowid"));
}

#[test]
fn routed_statements_run_as_classified() {
    let conn = seeded_connection();
    let read = "select rowid, * from my_table";
    assert_eq!(classify_statement(read), StatementKind::Read);
    let n = count(&conn, "select count(*) from my_table");
    assert_eq!(n, 10);

    let write = "insert into my_table(id,name) values('3','lisi')";
    assert_eq!(classify_statement(write), StatementKind::Write);
    let affected = conn.execute(write, []).unwrap();
    assert_eq!(affected, 1);
}
