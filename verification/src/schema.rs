//! The schema inspector: partitions a catalog snapshot into table and view
//! name lists, and looks up the defining statement of a named object.
//!
//! A catalog snapshot is the engine's object list — one [`SqliteMeta`] row
//! per table, view, index or trigger — fetched fresh on every call by the
//! shell and handed in as plain values.

use vstd::prelude::*;

use crate::values::DbError;

verus! {

/// One row of the engine's system catalog: the object kind, the object
/// name, the owning table's name, the root page and the defining statement,
/// each as the engine reported it.
#[derive(Clone, Debug, PartialEq, Eq)]
pub struct SqliteMeta {
    pub obj_type: Option<String>,
    pub name: Option<String>,
    pub tbl_name: Option<String>,
    pub rootpage: Option<i64>,
    pub sql: Option<String>,
}

/// The outcome of opening a database: the path and key it was opened with,
/// and the table and view names found in its catalog.  An absent list means
/// no objects of that kind exist — absence is emptiness, not an error.
#[derive(Clone, Debug, PartialEq, Eq)]
pub struct MetaResult {
    pub db_path: String,
    pub table_names: Option<Vec<String>>,
    pub view_names: Option<Vec<String>>,
    pub key: Option<String>,
}

/// Whether a catalog row is a named object of the given kind.
pub open spec fn meta_is_kind(m: SqliteMeta, kind: Seq<char>) -> bool {
    match m.obj_type {
        Some(t) => t@ == kind && m.name is Some,
        None => false,
    }
}

/// The name of a catalog row, empty when the engine reported none.
pub open spec fn meta_name_view(m: SqliteMeta) -> Seq<char> {
    match m.name {
        Some(n) => n@,
        None => Seq::empty(),
    }
}

/// The names of the catalog's objects of one kind, in catalog order.
pub open spec fn names_of_kind(metas: Seq<SqliteMeta>, kind: Seq<char>) -> Seq<Seq<char>>
    decreases metas.len(),
{
    if metas.len() == 0 {
        Seq::empty()
    } else {
        names_of_kind(metas.drop_last(), kind) + (if meta_is_kind(metas.last(), kind) {
            seq![meta_name_view(metas.last())]
        } else {
            Seq::empty()
        })
    }
}

/// Whether a catalog row carries the given name.
pub open spec fn meta_named(m: SqliteMeta, name: Seq<char>) -> bool {
    match m.name {
        Some(n) => n@ == name,
        None => false,
    }
}

/// The first catalog row carrying the given name, if any.
pub open spec fn spec_find_object(metas: Seq<SqliteMeta>, name: Seq<char>) -> Option<SqliteMeta>
    decreases metas.len(),
{
    if metas.len() == 0 {
        None
    } else if meta_named(metas[0], name) {
        Some(metas[0])
    } else {
        spec_find_object(metas.drop_first(), name)
    }
}

/// The message carried by the error for a name the catalog does not hold.
pub open spec fn spec_not_found_message(name: Seq<char>) -> Seq<char> {
    "no such object: "@ + name
}

/// Scanning from position `i` finds the same object as scanning from the
/// front, provided no row before `i` carries the name.
proof fn lemma_find_object_skip(metas: Seq<SqliteMeta>, name: Seq<char>, i: int)
    requires
        0 <= i <= metas.len(),
        forall|j: int| 0 <= j < i ==> !meta_named(metas[j], name),
    ensures
        spec_find_object(metas, name) == spec_find_object(metas.skip(i), name),
    decreases i,
{
    if i == 0 {
        assert(metas.skip(0) =~= metas);
    } else {
        let rest = metas.drop_first();
        assert(!meta_named(metas[0], name));
        assert(spec_find_object(metas, name) == spec_find_object(rest, name));
        assert(forall|j: int| 0 <= j < i - 1 ==> !meta_named(rest[j], name));
        lemma_find_object_skip(rest, name, i - 1);
        assert(rest.skip(i - 1) =~= metas.skip(i));
    }
}

/// The first catalog row carrying the given name, if any.
pub fn find_object<'a>(metas: &'a Vec<SqliteMeta>, name: &String) -> (r: Option<&'a SqliteMeta>)
    ensures
        match r {
            Some(m) => spec_find_object(metas@, name@) == Some(*m),
            None => spec_find_object(metas@, name@) is None,
        },
{
    let n = metas.len();
    for i in 0..n
        invariant
            n == metas@.len(),
            forall|j: int| 0 <= j < i ==> !meta_named(metas@[j], name@),
    {
        let matched = match &metas[i].name {
            Some(candidate) => *candidate == *name,
            None => false,
        };
        proof {
            assert(matched == meta_named(metas@[i as int], name@));
        }
        if matched {
            proof {
                lemma_find_object_skip(metas@, name@, i as int);
                assert(metas@.skip(i as int)[0] == metas@[i as int]);
            }
            return Some(&metas[i]);
        }
    }
    proof {
        lemma_find_object_skip(metas@, name@, n as int);
        assert(metas@.skip(n as int) =~= Seq::<SqliteMeta>::empty());
    }
    None
}

/// The names of the catalog's objects of one kind, in catalog order,
/// skipping rows the engine reported without a name.
fn collect_names_of_kind(metas: &Vec<SqliteMeta>, kind: &String) -> (r: Vec<String>)
    ensures
        r.deep_view() == names_of_kind(metas@, kind@),
{
    let mut out: Vec<String> = Vec::new();
    let n = metas.len();
    for i in 0..n
        invariant
            n == metas@.len(),
            out.deep_view() =~~= names_of_kind(metas@.take(i as int), kind@),
    {
        let m = &metas[i];
        let matched = match (&m.obj_type, &m.name) {
            (Some(t), Some(_)) => *t == *kind,
            _ => false,
        };
        proof {
            assert(matched == meta_is_kind(metas@[i as int], kind@));
        }
        if matched {
            match &m.name {
                Some(object_name) => out.push(object_name.clone()),
                None => {},
            }
        }
        proof {
            assert(metas@.take(i + 1).drop_last() =~= metas@.take(i as int));
            assert(metas@.take(i + 1).last() == metas@[i as int]);
            assert(out.deep_view() =~~= names_of_kind(metas@.take(i + 1), kind@));
        }
    }
    proof {
        assert(metas@.take(n as int) =~= metas@);
    }
    out
}

/// Partition a catalog snapshot into table names and view names, in
/// catalog order, leaving a list absent when the catalog holds no object
/// of that kind.
pub fn list_objects(db_path: String, key: Option<String>, metas: &Vec<SqliteMeta>) -> (r:
    MetaResult)
    ensures
        r.db_path == db_path,
        r.key == key,
        match r.table_names {
            Some(v) => v.deep_view() == names_of_kind(metas@, "table"@) && v@.len() > 0,
            None => names_of_kind(metas@, "table"@).len() == 0,
        },
        match r.view_names {
            Some(v) => v.deep_view() == names_of_kind(metas@, "view"@) && v@.len() > 0,
            None => names_of_kind(metas@, "view"@).len() == 0,
        },
{
    let table_kind = String::from_str("table");
    let view_kind = String::from_str("view");
    let tables = collect_names_of_kind(metas, &table_kind);
    let views = collect_names_of_kind(metas, &view_kind);
    let mut result = MetaResult { db_path, table_names: None, view_names: None, key };
    if tables.len() > 0 {
        result.table_names = Some(tables);
    }
    if views.len() > 0 {
        result.view_names = Some(views);
    }
    result
}

/// The literal defining statement of the named object, or `NotFound` when
/// no object of that name exists, or when the engine holds no statement
/// for it.
pub fn get_object_definition(metas: &Vec<SqliteMeta>, object_name: &String) -> (r: Result<
    String,
    DbError,
>)
    ensures
        match spec_find_object(metas@, object_name@) {
            Some(m) => match m.sql {
                Some(s) => r matches Ok(text) && text@ == s@,
                None => r matches Err(DbError::NotFound(msg)) && msg@ == spec_not_found_message(
                    object_name@,
                ),
            },
            None => r matches Err(DbError::NotFound(msg)) && msg@ == spec_not_found_message(
                object_name@,
            ),
        },
{
    match find_object(metas, object_name) {
        Some(m) => match &m.sql {
            Some(s) => Ok(s.clone()),
            None => Err(not_found_error(object_name)),
        },
        None => Err(not_found_error(object_name)),
    }
}

/// The `NotFound` error for a name the catalog does not hold.
fn not_found_error(object_name: &String) -> (e: DbError)
    ensures
        e matches DbError::NotFound(msg) && msg@ == spec_not_found_message(object_name@),
{
    let mut message = String::from_str("no such object: ");
    message.append(object_name.as_str());
    DbError::NotFound(message)
}

} // verus!
