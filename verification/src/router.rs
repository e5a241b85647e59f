//! The statement router: decides, by the leading token alone, whether a raw
//! statement is treated as a read (returning rows) or as a write (returning
//! a mutation summary).
//!
//! Classification is purely lexical: leading whitespace is skipped and the
//! first token is matched, ignoring ASCII case, against `select`, `pragma`
//! and `explain`.  The statement is not parsed: a write hidden behind a
//! leading comment or a common-table-expression keyword is misclassified,
//! a documented limitation of this design.

use vstd::prelude::*;

use crate::values::DbError;

verus! {

/// How a raw statement is to be executed.
#[derive(Clone, Copy, Debug, PartialEq, Eq, Structural)]
pub enum StatementKind {
    /// Execute as a query and return the rows it produces.
    Read,
    /// Execute as a mutation and return the engine's summary.
    Write,
}

/// The whitespace skipped ahead of the leading token: the characters with
/// the Unicode `White_Space` property, exactly what `str::trim` removes.
pub open spec fn is_statement_whitespace(c: char) -> bool {
    ||| c == ' ' || c == '\t' || c == '\n' || c == '\r' || c == '\u{b}' || c == '\u{c}'
    ||| c == '\u{85}' || c == '\u{a0}' || c == '\u{1680}'
    ||| 0x2000 <= c as u32 <= 0x200a
    ||| c == '\u{2028}' || c == '\u{2029}' || c == '\u{202f}' || c == '\u{205f}'
    ||| c == '\u{3000}'
}

/// The statement with its leading whitespace removed.
pub open spec fn spec_trim_leading(s: Seq<char>) -> Seq<char>
    decreases s.len(),
{
    if s.len() > 0 && is_statement_whitespace(s[0]) {
        spec_trim_leading(s.drop_first())
    } else {
        s
    }
}

/// Whether `c` matches `k` ignoring ASCII case, for a lowercase `k`: either
/// `c` is `k` itself, or `c` is the uppercase ASCII letter whose code point
/// is 32 below `k`'s.
pub open spec fn lower_matches(c: char, k: char) -> bool {
    c == k || (65 <= c as u32 <= 90 && c as u32 + 32 == k as u32)
}

/// Whether `s` begins with the keyword `kw`, ignoring ASCII case.
pub open spec fn spec_starts_with_keyword(s: Seq<char>, kw: Seq<char>) -> bool {
    s.len() >= kw.len() && forall|j: int| 0 <= j < kw.len() ==> lower_matches(s[j], kw[j])
}

/// Whether a raw statement is routed as a read: after leading whitespace,
/// it begins with `select`, `pragma` or `explain`, ignoring ASCII case.
pub open spec fn spec_is_read_statement(s: Seq<char>) -> bool {
    ||| spec_starts_with_keyword(spec_trim_leading(s), "select"@)
    ||| spec_starts_with_keyword(spec_trim_leading(s), "pragma"@)
    ||| spec_starts_with_keyword(spec_trim_leading(s), "explain"@)
}

/// The routing decision for a raw statement.
pub open spec fn spec_classify(s: Seq<char>) -> StatementKind {
    if spec_is_read_statement(s) {
        StatementKind::Read
    } else {
        StatementKind::Write
    }
}

/// Skipping a fully-whitespace prefix does not change what trimming leaves.
proof fn lemma_trim_skip(s: Seq<char>, i: int)
    requires
        0 <= i <= s.len(),
        forall|j: int| 0 <= j < i ==> is_statement_whitespace(s[j]),
    ensures
        spec_trim_leading(s) == spec_trim_leading(s.skip(i)),
    decreases i,
{
    if i == 0 {
        assert(s.skip(0) =~= s);
    } else {
        assert(is_statement_whitespace(s[0]));
        assert(spec_trim_leading(s) == spec_trim_leading(s.drop_first()));
        let rest = s.drop_first();
        assert(forall|j: int| 0 <= j < i - 1 ==> is_statement_whitespace(rest[j]));
        lemma_trim_skip(rest, i - 1);
        assert(rest.skip(i - 1) =~= s.skip(i));
    }
}

/// Whether the character at `i` is statement whitespace.
fn is_whitespace_at(sql: &str, i: usize) -> (b: bool)
    requires
        i < sql@.len(),
    ensures
        b == is_statement_whitespace(sql@[i as int]),
{
    let c = sql.get_char(i);
    let code = c as u32;
    c == ' ' || c == '\t' || c == '\n' || c == '\r' || c == '\u{b}' || c == '\u{c}' || c
        == '\u{85}' || c == '\u{a0}' || c == '\u{1680}' || (0x2000 <= code && code <= 0x200a) || c
        == '\u{2028}' || c == '\u{2029}' || c == '\u{202f}' || c == '\u{205f}' || c == '\u{3000}'
}

/// Whether the statement, from position `start` on, begins with the
/// lowercase keyword `kw`, ignoring ASCII case.
fn starts_with_keyword(sql: &str, start: usize, kw: &str) -> (b: bool)
    requires
        start <= sql@.len(),
    ensures
        b == spec_starts_with_keyword(sql@.skip(start as int), kw@),
{
    let klen = kw.unicode_len();
    let slen = sql.unicode_len();
    if slen - start < klen {
        return false;
    }
    for j in 0..klen
        invariant
            start + klen <= slen,
            slen == sql@.len(),
            klen == kw@.len(),
            forall|t: int| 0 <= t < j ==> lower_matches(sql@.skip(start as int)[t], kw@[t]),
    {
        let cj = sql.get_char(start + j);
        let kj = kw.get_char(j);
        let cjc = cj as u32;
        let kjc = kj as u32;
        let matched = cj == kj || (65 <= cjc && cjc <= 90 && cjc + 32 == kjc);
        proof {
            assert(sql@.skip(start as int)[j as int] == sql@[start + j]);
        }
        if !matched {
            assert(!lower_matches(sql@.skip(start as int)[j as int], kw@[j as int]));
            return false;
        }
    }
    true
}

/// Classify a raw statement by its leading token, ignoring ASCII case and
/// leading whitespace: `select`, `pragma` and `explain` are reads, every
/// other statement is a write.
pub fn classify_statement(sql: &str) -> (k: StatementKind)
    ensures
        k == spec_classify(sql@),
        k == StatementKind::Read <==> spec_is_read_statement(sql@),
{
    let n = sql.unicode_len();
    let mut start: usize = 0;
    while start < n && is_whitespace_at(sql, start)
        invariant
            start <= n,
            n == sql@.len(),
            forall|j: int| 0 <= j < start ==> is_statement_whitespace(sql@[j]),
        decreases n - start,
    {
        start = start + 1;
    }
    proof {
        lemma_trim_skip(sql@, start as int);
        if start < n {
            assert(sql@.skip(start as int)[0] == sql@[start as int]);
            assert(spec_trim_leading(sql@.skip(start as int)) == sql@.skip(start as int));
        } else {
            assert(sql@.skip(start as int) =~= Seq::<char>::empty());
        }
        assert(spec_trim_leading(sql@) == sql@.skip(start as int));
    }
    let is_read = starts_with_keyword(sql, start, "select") || starts_with_keyword(
        sql,
        start,
        "pragma",
    ) || starts_with_keyword(sql, start, "explain");
    if is_read {
        StatementKind::Read
    } else {
        StatementKind::Write
    }
}

/// The message carried by the error for a statement the engine refused:
/// the engine's own message verbatim, annotated with the offending
/// statement.
pub open spec fn spec_query_error_message(sql: Seq<char>, engine: Seq<char>) -> Seq<char> {
    engine + " (statement: "@ + sql + ")"@
}

/// The `QueryError` for a statement the engine refused, carrying the
/// engine's message annotated with the offending statement.
pub fn query_error(sql: &str, engine_message: &str) -> (e: DbError)
    ensures
        e matches DbError::QueryError(m) && m@ == spec_query_error_message(
            sql@,
            engine_message@,
        ),
{
    let mut message = String::from_str(engine_message);
    message.append(" (statement: ");
    message.append(sql);
    message.append(")");
    DbError::QueryError(message)
}

} // verus!
