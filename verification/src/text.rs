//! Text assembly for generated SQL: joining name lists and building
//! placeholder lists, with the resulting character sequences pinned down
//! exactly.

use vstd::prelude::*;

verus! {

/// The views of a sequence of strings.
pub open spec fn views_of(parts: Seq<String>) -> Seq<Seq<char>> {
    parts.map_values(|p: String| p@)
}

/// `parts` joined by `sep`: empty for no parts, otherwise the parts in
/// order with one separator between neighbours.
pub open spec fn seq_join_with(parts: Seq<Seq<char>>, sep: Seq<char>) -> Seq<char>
    decreases parts.len(),
{
    if parts.len() == 0 {
        Seq::empty()
    } else if parts.len() == 1 {
        parts[0]
    } else {
        seq_join_with(parts.drop_last(), sep) + sep + parts.last()
    }
}

/// A list of `n` bound-parameter marks: empty for none, otherwise `?`
/// repeated with commas between.
pub open spec fn spec_placeholders(n: nat) -> Seq<char>
    decreases n,
{
    if n == 0 {
        Seq::empty()
    } else if n == 1 {
        "?"@
    } else {
        spec_placeholders((n - 1) as nat) + ",?"@
    }
}

/// Join the strings in `parts` with the separator `sep`.
pub fn join_with(parts: &Vec<String>, sep: &str) -> (r: String)
    ensures
        r@ == seq_join_with(views_of(parts@), sep@),
{
    let mut r = String::new();
    let n = parts.len();
    for i in 0..n
        invariant
            n == parts@.len(),
            r@ == seq_join_with(views_of(parts@).take(i as int), sep@),
    {
        if i > 0 {
            r.append(sep);
        }
        r.append(parts[i].as_str());
        proof {
            let vs = views_of(parts@);
            assert(vs.take(i + 1).drop_last() =~= vs.take(i as int));
            assert(vs.take(i + 1).last() == vs[i as int]);
        }
    }
    proof {
        assert(views_of(parts@).take(n as int) =~= views_of(parts@));
    }
    r
}

/// Append `n` bound-parameter marks, comma separated, to `out`.
pub fn append_placeholders(out: &mut String, n: usize)
    ensures
        final(out)@ == old(out)@ + spec_placeholders(n as nat),
{
    let ghost prefix = out@;
    for i in 0..n
        invariant
            out@ == prefix + spec_placeholders(i as nat),
    {
        if i > 0 {
            out.append(",?");
        } else {
            out.append("?");
        }
    }
}

} // verus!
