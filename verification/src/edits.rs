//! The batch editor: one logical edit of a table — a delete-set, an
//! update-set and an insert-set — turned into a sequence of SQL statements
//! and applied through a transactional protocol that commits only if every
//! statement succeeded and otherwise rolls the whole edit back.
//!
//! The statements are generated here with their text pinned down exactly;
//! the engine work (begin, execute, commit, rollback) is performed outside,
//! one [`EditAction`] at a time, and every outcome is reported back into
//! the [`EditSession`], which decides the next action.

use vstd::prelude::*;

use crate::text::{append_placeholders, join_with, seq_join_with, spec_placeholders, views_of};
use crate::values::{DbError, RowField, ScalarValue, SqlStatement};

verus! {

/// The new cell values for one existing row, addressed by its row
/// identifier.
#[derive(Clone, Debug, PartialEq, Eq)]
pub struct RowUpdate {
    pub rowid: String,
    pub cols: Vec<RowField>,
}

/// One logical edit of a table.  All three parts are optional and
/// independent; a request with none of them plans no statements and
/// succeeds as a no-op.
#[derive(Debug)]
pub struct EditRequest {
    pub table_name: String,
    pub key: Option<String>,
    pub delete_set: Option<Vec<String>>,
    pub update_set: Option<Vec<RowUpdate>>,
    pub insert_set: Option<Vec<Vec<RowField>>>,
}

/// The names of a row's cells, in order.
pub open spec fn field_names(cols: Seq<RowField>) -> Seq<Seq<char>> {
    cols.map_values(|f: RowField| f.name@)
}

/// The values of a row's cells, in order.
pub open spec fn field_values(cols: Seq<RowField>) -> Seq<ScalarValue> {
    cols.map_values(|f: RowField| f.value)
}

/// The text of the delete statement: the identifiers joined with commas
/// into one `in` list.
pub open spec fn spec_delete_sql(table: Seq<char>, ids: Seq<Seq<char>>) -> Seq<char> {
    "delete from "@ + table + " where rowid in ("@ + seq_join_with(ids, ","@) + ")"@
}

/// The assignment list of an update statement: each column name followed
/// by `=?`.
pub open spec fn spec_assignments(names: Seq<Seq<char>>) -> Seq<Seq<char>> {
    names.map_values(|n: Seq<char>| n + "=?"@)
}

/// The text of the update statement for one row: the assignments joined
/// with commas, the row identifier interpolated as a literal.
pub open spec fn spec_update_sql(table: Seq<char>, rowid: Seq<char>, names: Seq<Seq<char>>) -> Seq<
    char,
> {
    "update "@ + table + " set "@ + seq_join_with(spec_assignments(names), ","@)
        + " where rowid = "@ + rowid
}

/// The text of the insert statement for one row: the row's own column
/// names, and one bound-parameter mark per column.
pub open spec fn spec_insert_sql(table: Seq<char>, names: Seq<Seq<char>>) -> Seq<char> {
    "insert into "@ + table + " ("@ + seq_join_with(names, ","@) + ") values ("@
        + spec_placeholders(names.len()) + ")"@
}

/// A statement reduced to its mathematical content: the text and the bound
/// values.
pub open spec fn stmt_model(s: SqlStatement) -> (Seq<char>, Seq<ScalarValue>) {
    (s.sql@, s.args@)
}

/// The models of a sequence of statements.
pub open spec fn models_of(stmts: Seq<SqlStatement>) -> Seq<(Seq<char>, Seq<ScalarValue>)> {
    stmts.map_values(|s: SqlStatement| stmt_model(s))
}

/// The delete phase of a plan: one statement when a non-empty delete-set
/// is present, nothing otherwise.
pub open spec fn spec_delete_part(table: Seq<char>, del: Option<Vec<String>>) -> Seq<
    (Seq<char>, Seq<ScalarValue>),
> {
    match del {
        Some(ids) => if ids@.len() > 0 {
            seq![(spec_delete_sql(table, views_of(ids@)), Seq::<ScalarValue>::empty())]
        } else {
            Seq::empty()
        },
        None => Seq::empty(),
    }
}

/// The update phase of a plan: one statement per updated row, in order.
pub open spec fn spec_update_part(table: Seq<char>, ups: Option<Vec<RowUpdate>>) -> Seq<
    (Seq<char>, Seq<ScalarValue>),
> {
    match ups {
        Some(rows) => rows@.map_values(
            |u: RowUpdate| (spec_update_sql(table, u.rowid@, field_names(u.cols@)), field_values(
                u.cols@,
            )),
        ),
        None => Seq::empty(),
    }
}

/// The insert phase of a plan: one statement per inserted row, in order,
/// each built from that row's own column set.
pub open spec fn spec_insert_part(table: Seq<char>, ins: Option<Vec<Vec<RowField>>>) -> Seq<
    (Seq<char>, Seq<ScalarValue>),
> {
    match ins {
        Some(rows) => rows@.map_values(
            |row: Vec<RowField>| (spec_insert_sql(table, field_names(row@)), field_values(row@)),
        ),
        None => Seq::empty(),
    }
}

/// The whole plan of an edit request: deletes, then updates, then inserts.
pub open spec fn spec_plan(req: EditRequest) -> Seq<(Seq<char>, Seq<ScalarValue>)> {
    spec_delete_part(req.table_name@, req.delete_set) + spec_update_part(
        req.table_name@,
        req.update_set,
    ) + spec_insert_part(req.table_name@, req.insert_set)
}

/// Build the delete statement for a set of row identifiers.
pub fn build_delete_statement(table: &String, ids: &Vec<String>) -> (r: SqlStatement)
    ensures
        r.sql@ == spec_delete_sql(table@, views_of(ids@)),
        r.args@ == Seq::<ScalarValue>::empty(),
{
    let mut sql = String::new();
    sql.append("delete from ");
    sql.append(table.as_str());
    sql.append(" where rowid in (");
    let joined = join_with(ids, ",");
    sql.append(joined.as_str());
    sql.append(")");
    SqlStatement { sql, args: Vec::new() }
}

/// Build the update statement for one row: the row's new cell values are
/// bound as parameters, the row identifier is interpolated as a literal.
pub fn build_update_statement(table: &String, rowid: &String, cols: Vec<RowField>) -> (r:
    SqlStatement)
    ensures
        r.sql@ == spec_update_sql(table@, rowid@, field_names(cols@)),
        r.args@ == field_values(cols@),
{
    let ghost cs = cols@;
    let mut assignments: Vec<String> = Vec::new();
    let mut args: Vec<ScalarValue> = Vec::new();
    let mut rest = cols;
    let total = rest.len();
    let mut done: usize = 0;
    while rest.len() > 0
        invariant
            cs.len() == total,
            done + rest@.len() == cs.len(),
            rest@ =~= cs.skip(done as int),
            assignments@.len() == done,
            args@.len() == done,
            forall|i: int| #![auto] 0 <= i < done ==> assignments@[i]@ == cs[i].name@ + "=?"@,
            forall|i: int| #![auto] 0 <= i < done ==> args@[i] == cs[i].value,
        decreases rest@.len(),
    {
        let f = rest.remove(0);
        proof {
            assert(f == cs[done as int]);
            assert(cs.skip(done as int).remove(0) =~= cs.skip(done + 1));
        }
        let mut assignment = String::new();
        assignment.append(f.name.as_str());
        assignment.append("=?");
        proof {
            assert(assignment@ =~= f.name@ + "=?"@);
        }
        assignments.push(assignment);
        args.push(f.value);
        done = done + 1;
    }
    proof {
        assert(views_of(assignments@) =~~= spec_assignments(field_names(cs)));
        assert(args@ =~= field_values(cs));
    }
    let mut sql = String::new();
    sql.append("update ");
    sql.append(table.as_str());
    sql.append(" set ");
    let joined = join_with(&assignments, ",");
    sql.append(joined.as_str());
    sql.append(" where rowid = ");
    sql.append(rowid.as_str());
    SqlStatement { sql, args }
}

/// Build the insert statement for one row from the row's own column set.
pub fn build_insert_statement(table: &String, row: Vec<RowField>) -> (r: SqlStatement)
    ensures
        r.sql@ == spec_insert_sql(table@, field_names(row@)),
        r.args@ == field_values(row@),
{
    let ghost cs = row@;
    let mut names: Vec<String> = Vec::new();
    let mut args: Vec<ScalarValue> = Vec::new();
    let mut rest = row;
    let total = rest.len();
    let mut done: usize = 0;
    while rest.len() > 0
        invariant
            cs.len() == total,
            done + rest@.len() == cs.len(),
            rest@ =~= cs.skip(done as int),
            names@.len() == done,
            args@.len() == done,
            forall|i: int| #![auto] 0 <= i < done ==> names@[i]@ == cs[i].name@,
            forall|i: int| #![auto] 0 <= i < done ==> args@[i] == cs[i].value,
        decreases rest@.len(),
    {
        let f = rest.remove(0);
        proof {
            assert(f == cs[done as int]);
            assert(cs.skip(done as int).remove(0) =~= cs.skip(done + 1));
        }
        names.push(f.name);
        args.push(f.value);
        done = done + 1;
    }
    proof {
        assert(views_of(names@) =~~= field_names(cs));
        assert(args@ =~= field_values(cs));
    }
    let count = names.len();
    let mut sql = String::new();
    sql.append("insert into ");
    sql.append(table.as_str());
    sql.append(" (");
    let joined = join_with(&names, ",");
    sql.append(joined.as_str());
    sql.append(") values (");
    append_placeholders(&mut sql, count);
    sql.append(")");
    SqlStatement { sql, args }
}

/// Turn an edit request into its statement plan: the delete statement (if
/// a non-empty delete-set is present), one update statement per updated
/// row, then one insert statement per inserted row.
pub fn plan_edits(req: EditRequest) -> (r: Vec<SqlStatement>)
    ensures
        models_of(r@) == spec_plan(req),
{
    let ghost table_view = req.table_name@;
    let EditRequest { table_name, key: _, delete_set, update_set, insert_set } = req;
    let mut stmts: Vec<SqlStatement> = Vec::new();

    match &delete_set {
        Some(ids) => {
            if ids.len() > 0 {
                let s = build_delete_statement(&table_name, ids);
                stmts.push(s);
            }
        },
        None => {},
    }
    proof {
        assert(models_of(stmts@) =~~= spec_delete_part(table_view, req.delete_set));
    }
    let ghost after_delete = models_of(stmts@);
    let ghost upart = spec_update_part(table_view, req.update_set);

    match update_set {
        Some(rows) => {
            let ghost all = rows@;
            let mut rest = rows;
            let total = rest.len();
            let mut done: usize = 0;
            while rest.len() > 0
                invariant
                    all.len() == total,
                    done + rest@.len() == all.len(),
                    rest@ =~= all.skip(done as int),
                    upart == all.map_values(
                        |u: RowUpdate| (
                            spec_update_sql(table_view, u.rowid@, field_names(u.cols@)),
                            field_values(u.cols@),
                        ),
                    ),
                    table_name@ == table_view,
                    models_of(stmts@) =~~= after_delete + upart.take(done as int),
                decreases rest@.len(),
            {
                let u = rest.remove(0);
                proof {
                    assert(u == all[done as int]);
                    assert(all.skip(done as int).remove(0) =~= all.skip(done + 1));
                }
                let ghost prev = stmts@;
                let RowUpdate { rowid, cols } = u;
                let s = build_update_statement(&table_name, &rowid, cols);
                stmts.push(s);
                done = done + 1;
                proof {
                    assert(models_of(prev.push(s)) =~~= models_of(prev).push(stmt_model(s)));
                    assert(stmt_model(s) == upart[done - 1]);
                    assert(upart.take(done as int).drop_last() =~= upart.take(done - 1));
                    assert(models_of(stmts@) =~~= after_delete + upart.take(done as int));
                }
            }
            proof {
                assert(upart.take(all.len() as int) =~~= upart);
            }
        },
        None => {},
    }
    proof {
        assert(models_of(stmts@) =~~= after_delete + upart);
    }
    let ghost after_update = models_of(stmts@);
    let ghost ipart = spec_insert_part(table_view, req.insert_set);

    match insert_set {
        Some(rows) => {
            let ghost all = rows@;
            let mut rest = rows;
            let total = rest.len();
            let mut done: usize = 0;
            while rest.len() > 0
                invariant
                    all.len() == total,
                    done + rest@.len() == all.len(),
                    rest@ =~= all.skip(done as int),
                    ipart == all.map_values(
                        |row: Vec<RowField>| (
                            spec_insert_sql(table_view, field_names(row@)),
                            field_values(row@),
                        ),
                    ),
                    table_name@ == table_view,
                    models_of(stmts@) =~~= after_update + ipart.take(done as int),
                decreases rest@.len(),
            {
                let row = rest.remove(0);
                proof {
                    assert(row == all[done as int]);
                    assert(all.skip(done as int).remove(0) =~= all.skip(done + 1));
                }
                let ghost prev = stmts@;
                let s = build_insert_statement(&table_name, row);
                stmts.push(s);
                done = done + 1;
                proof {
                    assert(models_of(prev.push(s)) =~~= models_of(prev).push(stmt_model(s)));
                    assert(stmt_model(s) == ipart[done - 1]);
                    assert(ipart.take(done as int).drop_last() =~= ipart.take(done - 1));
                    assert(models_of(stmts@) =~~= after_update + ipart.take(done as int));
                }
            }
            proof {
                assert(ipart.take(all.len() as int) =~~= ipart);
            }
        },
        None => {},
    }
    proof {
        assert(models_of(stmts@) =~~= after_update + ipart);
        assert(models_of(stmts@) =~~= spec_plan(req));
    }
    stmts
}

/// Where a batch edit stands inside its transaction.
#[derive(Clone, Debug, PartialEq, Eq)]
pub enum EditPhase {
    /// Statements are being executed; none has failed so far.
    Executing,
    /// The statement at the current position failed with this message; the
    /// transaction must be rolled back.
    Failed(String),
    /// The transaction was rolled back after the recorded failure: the
    /// table is exactly as it was before the edit.
    RolledBack(String),
    /// The rollback after the recorded failure itself failed: the table's
    /// state is undefined and must be re-read before further edits.
    RollbackFailed(String),
    /// Every statement succeeded and the engine confirmed the commit.
    Committed,
    /// Every statement succeeded but the engine reported that the commit
    /// did not happen.
    CommitRefused,
}

/// The next piece of engine work a batch edit asks for.
#[derive(Clone, Copy, Debug, PartialEq, Eq, Structural)]
pub enum EditAction {
    /// Execute the planned statement at this position inside the
    /// transaction.
    ExecuteStatement(usize),
    /// Commit the transaction.
    Commit,
    /// Roll the transaction back.
    Rollback,
    /// Nothing remains: read the outcome.
    Done,
}

/// The transactional protocol of one batch edit.
///
/// The session holds the planned statements and decides, from what has been
/// reported back so far, the next engine action.  It commits only when
/// every statement has succeeded; after any failure the only action it
/// ever asks for is a rollback, and then nothing.
#[derive(Debug)]
pub struct EditSession {
    pub stmts: Vec<SqlStatement>,
    pub executed: usize,
    pub phase: EditPhase,
}

impl EditSession {
    /// Well-formedness: the position never passes the end of the plan.
    pub open spec fn wf(self) -> bool {
        self.executed <= self.stmts@.len()
    }

    /// The next action: the first unexecuted statement while all have
    /// succeeded, the commit once all have, the rollback after a failure.
    pub open spec fn spec_action(self) -> EditAction {
        match self.phase {
            EditPhase::Executing => if self.executed < self.stmts@.len() {
                EditAction::ExecuteStatement(self.executed)
            } else {
                EditAction::Commit
            },
            EditPhase::Failed(_) => EditAction::Rollback,
            _ => EditAction::Done,
        }
    }

    /// Whether a statement failure has been observed.
    pub open spec fn has_failed(self) -> bool {
        ||| self.phase matches EditPhase::Failed(_)
        ||| self.phase matches EditPhase::RolledBack(_)
        ||| self.phase matches EditPhase::RollbackFailed(_)
    }

    /// One step of the protocol: what a single reported engine outcome may
    /// do to the session.
    pub open spec fn spec_step(pre: EditSession, post: EditSession) -> bool {
        ||| {
            &&& pre.spec_action() matches EditAction::ExecuteStatement(_)
            &&& post.stmts == pre.stmts
            &&& post.executed == pre.executed + 1
            &&& post.phase == EditPhase::Executing
        }
        ||| {
            &&& pre.spec_action() matches EditAction::ExecuteStatement(_)
            &&& post.stmts == pre.stmts
            &&& post.executed == pre.executed
            &&& post.phase matches EditPhase::Failed(_)
        }
        ||| {
            &&& pre.spec_action() == EditAction::Rollback
            &&& post.stmts == pre.stmts
            &&& post.executed == pre.executed
            &&& match pre.phase {
                EditPhase::Failed(m) => post.phase == EditPhase::RolledBack(m) || post.phase
                    == EditPhase::RollbackFailed(m),
                _ => false,
            }
        }
        ||| {
            &&& pre.spec_action() == EditAction::Commit
            &&& post.stmts == pre.stmts
            &&& post.executed == pre.executed
            &&& (post.phase == EditPhase::Committed || post.phase == EditPhase::CommitRefused)
        }
    }

    /// Start the protocol over a plan of statements.
    pub fn new(stmts: Vec<SqlStatement>) -> (s: EditSession)
        ensures
            s.wf(),
            s.stmts == stmts,
            s.executed == 0,
            s.phase == EditPhase::Executing,
    {
        EditSession { stmts, executed: 0, phase: EditPhase::Executing }
    }

    /// The next engine action.
    pub fn action(&self) -> (a: EditAction)
        ensures
            a == self.spec_action(),
    {
        match &self.phase {
            EditPhase::Executing => if self.executed < self.stmts.len() {
                EditAction::ExecuteStatement(self.executed)
            } else {
                EditAction::Commit
            },
            EditPhase::Failed(_) => EditAction::Rollback,
            _ => EditAction::Done,
        }
    }

    /// The statement the session asks to have executed next.
    pub fn current_statement(&self) -> (r: &SqlStatement)
        requires
            self.wf(),
            self.spec_action() matches EditAction::ExecuteStatement(_),
        ensures
            *r == self.stmts@[self.executed as int],
    {
        &self.stmts[self.executed]
    }

    /// Report that the current statement succeeded.
    pub fn statement_succeeded(&mut self)
        requires
            old(self).wf(),
            old(self).spec_action() matches EditAction::ExecuteStatement(_),
        ensures
            final(self).wf(),
            final(self).stmts == old(self).stmts,
            final(self).executed == old(self).executed + 1,
            final(self).phase == EditPhase::Executing,
            Self::spec_step(*old(self), *final(self)),
    {
        let n = self.stmts.len();
        proof {
            assert(self.executed < n);
        }
        self.executed = self.executed + 1;
    }

    /// Report that the current statement failed, with the engine's message.
    pub fn statement_failed(&mut self, message: String)
        requires
            old(self).wf(),
            old(self).spec_action() matches EditAction::ExecuteStatement(_),
        ensures
            final(self).wf(),
            final(self).stmts == old(self).stmts,
            final(self).executed == old(self).executed,
            final(self).phase == EditPhase::Failed(message),
            final(self).has_failed(),
            Self::spec_step(*old(self), *final(self)),
    {
        self.phase = EditPhase::Failed(message);
    }

    /// Report whether the rollback requested after a failure completed.
    pub fn rollback_finished(&mut self, rollback_ok: bool)
        requires
            old(self).wf(),
            old(self).spec_action() == EditAction::Rollback,
        ensures
            final(self).wf(),
            final(self).stmts == old(self).stmts,
            final(self).executed == old(self).executed,
            old(self).phase matches EditPhase::Failed(m) && final(self).phase == (if rollback_ok {
                EditPhase::RolledBack(m)
            } else {
                EditPhase::RollbackFailed(m)
            }),
            final(self).has_failed(),
            final(self).spec_action() == EditAction::Done,
            Self::spec_step(*old(self), *final(self)),
    {
        let message = match &self.phase {
            EditPhase::Failed(m) => m.clone(),
            _ => String::new(),
        };
        self.phase = if rollback_ok {
            EditPhase::RolledBack(message)
        } else {
            EditPhase::RollbackFailed(message)
        };
    }

    /// Report whether the engine confirmed the commit.  A refused commit is
    /// a failure of the edit even though no statement raised an error.
    pub fn commit_finished(&mut self, committed: bool)
        requires
            old(self).wf(),
            old(self).spec_action() == EditAction::Commit,
        ensures
            final(self).wf(),
            final(self).stmts == old(self).stmts,
            final(self).executed == old(self).executed,
            final(self).phase == (if committed {
                EditPhase::Committed
            } else {
                EditPhase::CommitRefused
            }),
            final(self).spec_action() == EditAction::Done,
            Self::spec_step(*old(self), *final(self)),
    {
        self.phase = if committed {
            EditPhase::Committed
        } else {
            EditPhase::CommitRefused
        };
    }

    /// The outcome of a finished edit: success after a confirmed commit,
    /// and a transaction error otherwise, carrying the failing statement's
    /// message, or naming the refused commit or failed rollback.
    pub fn outcome(&self) -> (r: Result<(), DbError>)
        requires
            self.spec_action() == EditAction::Done,
        ensures
            match self.phase {
                EditPhase::Committed => r is Ok,
                EditPhase::CommitRefused => r matches Err(DbError::TransactionError(m)) && m@
                    == "commit failed"@,
                EditPhase::RolledBack(msg) => r matches Err(DbError::TransactionError(m)) && m@
                    == msg@,
                EditPhase::RollbackFailed(msg) => r matches Err(DbError::TransactionError(m)) && m@
                    == "rollback failed: "@ + msg@,
                _ => false,
            },
    {
        match &self.phase {
            EditPhase::Committed => Ok(()),
            EditPhase::CommitRefused => Err(
                DbError::TransactionError(String::from_str("commit failed")),
            ),
            EditPhase::RolledBack(m) => Err(DbError::TransactionError(m.clone())),
            EditPhase::RollbackFailed(m) => {
                let mut text = String::from_str("rollback failed: ");
                text.append(m.as_str());
                Err(DbError::TransactionError(text))
            },
            _ => Err(DbError::TransactionError(String::new())),
        }
    }

    /// Whether a failed edit was cleanly rolled back, so that the table is
    /// exactly as it was before the call.
    pub fn rolled_back_cleanly(&self) -> (b: bool)
        ensures
            b == (self.phase matches EditPhase::RolledBack(_)),
    {
        match &self.phase {
            EditPhase::RolledBack(_) => true,
            _ => false,
        }
    }
}

/// Law: the protocol offers the commit only when every planned statement
/// has been executed and none has failed.
pub proof fn lemma_commit_only_when_complete(s: EditSession)
    requires
        s.wf(),
        s.spec_action() == EditAction::Commit,
    ensures
        s.executed == s.stmts@.len(),
        s.phase == EditPhase::Executing,
        !s.has_failed(),
{
}

/// Law: once a statement has failed, no step of the protocol ever executes
/// another statement or commits; the failure can only proceed to the
/// rollback and then to the finished, failed outcome.
pub proof fn lemma_failure_is_final(pre: EditSession, post: EditSession)
    requires
        pre.wf(),
        pre.has_failed(),
        EditSession::spec_step(pre, post),
    ensures
        post.has_failed(),
        !(post.spec_action() matches EditAction::ExecuteStatement(_)),
        post.spec_action() != EditAction::Commit,
{
}

} // verus!
