//! Row-page planning and column extraction.

use sqlworkbench::rows::{columns_from_table_info, plan_row_query};
use sqlworkbench::schema::SqliteMeta;
use sqlworkbench::values::{DbError, RowField, ScalarValue, TableInfo};

fn field(name: &str, value: ScalarValue) -> RowField {
    RowField { name: name.to_string(), value }
}

fn catalog() -> Vec<SqliteMeta> {
    vec![
        SqliteMeta {
            obj_type: Some("table".to_string()),
            name: Some("my_table".to_string()),
            tbl_name: Some("my_table".to_string()),
            rootpage: Some(2),
            sql: Some("create table my_table (id text, name text)".to_string()),
        },
        SqliteMeta {
            obj_type: Some("view".to_string()),
            name: Some("v_my_table".to_string()),
            tbl_name: Some("v_my_table".to_string()),
            rootpage: Some(0),
            sql: Some("create view v_my_table as select id,name from my_table".to_string()),
        },
    ]
}

#[test]
fn columns_are_extracted_in_order() {
    let rows = vec![
        vec![
            field("cid", ScalarValue::Integer(0)),
            field("name", ScalarValue::Text("id".to_string())),
            field("type", ScalarValue::Text("TEXT".to_string())),
        ],
        vec![
            field("cid", ScalarValue::Integer(1)),
            field("name", ScalarValue::Text("etime".to_string())),
            field("type", ScalarValue::Text("INTEGER".to_string())),
        ],
    ];
    let cols = columns_from_table_info(&rows);
    assert_eq!(
        cols,
        vec![
            TableInfo { data_type: "TEXT".to_string(), name: "id".to_string() },
            TableInfo { data_type: "INTEGER".to_string(), name: "etime".to_string() },
        ]
    );
}

#[test]
fn missing_or_non_text_metadata_yields_empty_strings() {
    let rows = vec![vec![
        field("name", ScalarValue::Integer(7)),
        field("notnull", ScalarValue::Integer(0)),
    ]];
    let cols = columns_from_table_info(&rows);
    assert_eq!(cols, vec![TableInfo { data_type: "".to_string(), name: "".to_string() }]);
}

#[test]
fn table_page_query_selects_rowid() {
    let q = plan_row_query(&catalog(), &"my_table".to_string(), 10).unwrap();
    assert_eq!(q.sql, "select rowid, * from my_table limit ?".to_string());
    assert!(q.include_rowid);
    assert_eq!(q.limit, 10);
}

#[test]
fn view_page_query_omits_rowid() {
    let q = plan_row_query(&catalog(), &"v_my_table".to_string(), 10).unwrap();
    assert_eq!(q.sql, "select * from v_my_table limit ?".to_string());
    assert!(!q.include_rowid);
}

#[test]
fn zero_limit_is_a_query_error() {
    let r = plan_row_query(&catalog(), &"my_table".to_string(), 0);
    assert_eq!(
        r,
        Err(DbError::QueryError("limit must be a positive integer".to_string()))
    );
}

#[test]
fn unknown_object_is_not_found() {
    let r = plan_row_query(&catalog(), &"absent".to_string(), 5);
    assert_eq!(r, Err(DbError::NotFound("no such object: absent".to_string())));
}
