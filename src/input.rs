//! The URL list as read from the input: one URL per line, blank lines skipped.

use vstd::prelude::*;

verus! {

/// The texts held by a sequence of strings.
pub open spec fn texts(v: Seq<String>) -> Seq<Seq<char>> {
    v.map_values(|s: String| s@)
}

/// The lines that are not blank, in their order.
pub open spec fn non_blank_of(lines: Seq<Seq<char>>) -> Seq<Seq<char>> {
    lines.filter(|l: Seq<char>| l.len() > 0)
}

/// The URLs of an input: its non-empty lines, in order.
pub fn non_blank_lines(lines: &Vec<String>) -> (r: Vec<String>)
    ensures
        texts(r@) == non_blank_of(texts(lines@)),
{
    let mut out: Vec<String> = Vec::new();
    let mut i: usize = 0;
    while i < lines.len()
        invariant
            i <= lines.len(),
            texts(out@) == non_blank_of(texts(lines@.subrange(0, i as int))),
        decreases lines.len() - i,
    {
        let ghost prefix = texts(lines@.subrange(0, i as int + 1));
        assert(prefix.drop_last() =~= texts(lines@.subrange(0, i as int)));
        assert(prefix.last() == lines@[i as int]@);
        proof {
            reveal(Seq::filter);
        }
        if !lines[i].as_str().is_empty() {
            out.push(lines[i].clone());
            assert(texts(out@) =~= non_blank_of(prefix));
        } else {
            assert(texts(out@) =~= non_blank_of(prefix));
        }
        i = i + 1;
    }
    assert(lines@.subrange(0, i as int) =~= lines@);
    out
}

} // verus!
