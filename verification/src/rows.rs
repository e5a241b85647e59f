//! The row reader: plans the bounded page query for a table or view, and
//! turns the engine's per-column metadata into the column list.
//!
//! A table exposes the engine's stable row identifier, so its page query
//! selects `rowid` ahead of the user columns; a view has no stable
//! identifier and its query omits it.  The page size is bound as a
//! parameter, never interpolated.

use vstd::prelude::*;

use crate::schema::{spec_find_object, spec_not_found_message, find_object, SqliteMeta};
use crate::values::{DbError, RowField, ScalarValue, TableInfo};

verus! {

/// One page of a table or view: the column list and the rows, each row the
/// plain fields the engine produced.
#[derive(Clone, Debug, PartialEq, Eq)]
pub struct TableData {
    pub cols: Vec<TableInfo>,
    pub rows: Vec<Vec<RowField>>,
}

/// The planned page query for one table or view: the statement text, the
/// page size to bind to its one parameter, and whether its rows carry the
/// engine's row identifier.
#[derive(Clone, Debug, PartialEq, Eq)]
pub struct RowQuery {
    pub sql: String,
    pub limit: u64,
    pub include_rowid: bool,
}

/// The text of a page query: `rowid` is selected exactly for a table.
pub open spec fn spec_row_query_sql(table: Seq<char>, with_rowid: bool) -> Seq<char> {
    if with_rowid {
        "select rowid, * from "@ + table + " limit ?"@
    } else {
        "select * from "@ + table + " limit ?"@
    }
}

/// Whether a catalog row describes a table (as opposed to a view or any
/// other object kind).
pub open spec fn meta_is_table(m: SqliteMeta) -> bool {
    match m.obj_type {
        Some(t) => t@ == "table"@,
        None => false,
    }
}

/// The text of the first `Text` cell stored under the given field name,
/// empty when the row has no such cell.
pub open spec fn spec_field_text(row: Seq<RowField>, key: Seq<char>) -> Seq<char>
    decreases row.len(),
{
    if row.len() == 0 {
        Seq::empty()
    } else if row[0].name@ == key {
        match row[0].value {
            ScalarValue::Text(t) => t@,
            _ => Seq::empty(),
        }
    } else {
        spec_field_text(row.drop_first(), key)
    }
}

/// Scanning from position `i` finds the same cell text as scanning from
/// the front, provided no cell before `i` carries the field name.
proof fn lemma_field_text_skip(row: Seq<RowField>, key: Seq<char>, i: int)
    requires
        0 <= i <= row.len(),
        forall|j: int| 0 <= j < i ==> row[j].name@ != key,
    ensures
        spec_field_text(row, key) == spec_field_text(row.skip(i), key),
    decreases i,
{
    if i == 0 {
        assert(row.skip(0) =~= row);
    } else {
        let rest = row.drop_first();
        assert(row[0].name@ != key);
        assert(spec_field_text(row, key) == spec_field_text(rest, key));
        assert(forall|j: int| 0 <= j < i - 1 ==> rest[j].name@ != key);
        lemma_field_text_skip(rest, key, i - 1);
        assert(rest.skip(i - 1) =~= row.skip(i));
    }
}

/// The text of the first `Text` cell stored under the given field name,
/// empty when the row has no such cell.
fn field_text(row: &Vec<RowField>, key: &String) -> (r: String)
    ensures
        r@ == spec_field_text(row@, key@),
{
    let n = row.len();
    for i in 0..n
        invariant
            n == row@.len(),
            forall|j: int| 0 <= j < i ==> row@[j].name@ != key@,
    {
        if row[i].name == *key {
            proof {
                lemma_field_text_skip(row@, key@, i as int);
                assert(row@.skip(i as int)[0] == row@[i as int]);
            }
            return match &row[i].value {
                ScalarValue::Text(t) => t.clone(),
                _ => String::new(),
            };
        }
    }
    proof {
        lemma_field_text_skip(row@, key@, n as int);
        assert(row@.skip(n as int) =~= Seq::<RowField>::empty());
    }
    String::new()
}

/// The column list of a table, from the engine's per-column metadata: one
/// entry per metadata row, carrying that row's `name` and `type` texts, in
/// the table's physical column order.
pub fn columns_from_table_info(rows: &Vec<Vec<RowField>>) -> (r: Vec<TableInfo>)
    ensures
        r@.len() == rows@.len(),
        forall|i: int|
            0 <= i < rows@.len() ==> (#[trigger] r@[i]).name@ == spec_field_text(
                rows@[i]@,
                "name"@,
            ) && r@[i].data_type@ == spec_field_text(rows@[i]@, "type"@),
{
    let name_key = String::from_str("name");
    let type_key = String::from_str("type");
    let mut out: Vec<TableInfo> = Vec::new();
    let n = rows.len();
    for i in 0..n
        invariant
            n == rows@.len(),
            name_key@ == "name"@,
            type_key@ == "type"@,
            out@.len() == i,
            forall|j: int|
                0 <= j < i ==> (#[trigger] out@[j]).name@ == spec_field_text(rows@[j]@, "name"@)
                    && out@[j].data_type@ == spec_field_text(rows@[j]@, "type"@),
    {
        let name = field_text(&rows[i], &name_key);
        let data_type = field_text(&rows[i], &type_key);
        out.push(TableInfo { data_type, name });
    }
    out
}

/// Plan the bounded page query for a named table or view.
///
/// The page size must be a positive integer: zero is rejected as a
/// `QueryError`.  A name the catalog does not hold is rejected as
/// `NotFound`.  Otherwise the query selects the engine's row identifier
/// exactly when the object is a table.
pub fn plan_row_query(metas: &Vec<SqliteMeta>, table_name: &String, limit: u64) -> (r: Result<
    RowQuery,
    DbError,
>)
    ensures
        limit == 0 ==> (r matches Err(DbError::QueryError(m)) && m@
            == "limit must be a positive integer"@),
        limit > 0 ==> match spec_find_object(metas@, table_name@) {
            Some(meta) => r matches Ok(q) && q.include_rowid == meta_is_table(meta) && q.sql@
                == spec_row_query_sql(table_name@, meta_is_table(meta)) && q.limit == limit,
            None => r matches Err(DbError::NotFound(m)) && m@ == spec_not_found_message(
                table_name@,
            ),
        },
{
    if limit == 0 {
        return Err(DbError::QueryError(String::from_str("limit must be a positive integer")));
    }
    let table_kind = String::from_str("table");
    match find_object(metas, table_name) {
        None => {
            let mut message = String::from_str("no such object: ");
            message.append(table_name.as_str());
            Err(DbError::NotFound(message))
        },
        Some(meta) => {
            let include_rowid = match &meta.obj_type {
                Some(t) => *t == table_kind,
                None => false,
            };
            let mut sql = if include_rowid {
                String::from_str("select rowid, * from ")
            } else {
                String::from_str("select * from ")
            };
            sql.append(table_name.as_str());
            sql.append(" limit ?");
            Ok(RowQuery { sql, limit, include_rowid })
        },
    }
}

} // verus!
