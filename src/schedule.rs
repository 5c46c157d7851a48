//! Partitioning the URL list into chunks and pacing between them.

use vstd::prelude::*;

verus! {

/// One step of a run.
#[derive(Clone, Copy, Debug, PartialEq, Eq, Structural)]
pub enum Step {
    /// Process the URLs at indices `start..end` together.
    Run { start: usize, end: usize },
    /// Wait the configured delay before the next chunk.
    Pause,
}

/// A configuration the run cannot start with.
#[derive(Clone, Copy, Debug, PartialEq, Eq, Structural)]
pub enum ConfigError {
    ZeroChunkSize,
}

/// The steps for URLs `start..n` in chunks of `size`: each chunk holds `size`
/// URLs but the last, which holds what is left; a pause stands between two
/// chunks, none after the last.
pub open spec fn plan_from(start: int, n: int, size: int) -> Seq<Step>
    decreases n - start,
{
    if size <= 0 || start >= n {
        Seq::empty()
    } else if n - start <= size {
        seq![Step::Run { start: start as usize, end: n as usize }]
    } else {
        seq![Step::Run { start: start as usize, end: (start + size) as usize }, Step::Pause]
            + plan_from(start + size, n, size)
    }
}

/// Walks `steps` from position `pos`: each chunk must start where the last
/// one ended and be non-empty. The position reached, or `None`.
pub open spec fn covered(steps: Seq<Step>, pos: int) -> Option<int>
    decreases steps.len(),
{
    if steps.len() == 0 {
        Some(pos)
    } else {
        match steps[0] {
            Step::Run { start, end } => if start == pos && pos < end {
                covered(steps.drop_first(), end as int)
            } else {
                None
            },
            Step::Pause => covered(steps.drop_first(), pos),
        }
    }
}

/// The chunks of a plan follow each other without gap or overlap and end
/// exactly at the end of the list.
pub proof fn plan_covers_all(start: int, n: int, size: int)
    requires
        0 <= start <= n <= usize::MAX,
        size >= 1,
    ensures
        covered(plan_from(start, n, size), start) == Some(n),
    decreases n - start,
{
    let p = plan_from(start, n, size);
    if start < n {
        if n - start <= size {
            assert(p.drop_first() =~= Seq::<Step>::empty());
            assert(covered(p.drop_first(), n) == Some(n));
        } else {
            plan_covers_all(start + size, n, size);
            assert(p.drop_first().drop_first() =~= plan_from(start + size, n, size));
            assert(p.drop_first()[0] == Step::Pause);
            assert(covered(p.drop_first(), start + size) == covered(
                p.drop_first().drop_first(),
                start + size,
            ));
        }
    }
}

/// No chunk of a plan is longer than the chunk size.
pub proof fn plan_chunks_bounded(start: int, n: int, size: int, k: int)
    requires
        0 <= start <= n <= usize::MAX,
        size >= 1,
        0 <= k < plan_from(start, n, size).len(),
    ensures
        plan_from(start, n, size)[k] matches Step::Run { start: a, end: b } ==> start <= a < b
            <= n && b - a <= size,
    decreases n - start,
{
    if start < n && n - start > size && k >= 2 {
        plan_chunks_bounded(start + size, n, size, k - 2);
    }
}

/// The plan for `n` URLs in chunks of `chunk_size`; an error when the chunk
/// size is zero.
pub fn plan(n: usize, chunk_size: usize) -> (r: Result<Vec<Step>, ConfigError>)
    ensures
        chunk_size == 0 <==> r is Err,
        r matches Err(e) ==> e == ConfigError::ZeroChunkSize,
        r matches Ok(steps) ==> steps@ == plan_from(0, n as int, chunk_size as int),
{
    if chunk_size == 0 {
        return Err(ConfigError::ZeroChunkSize);
    }
    let mut steps: Vec<Step> = Vec::new();
    let mut start: usize = 0;
    while start < n
        invariant
            chunk_size >= 1,
            start <= n,
            steps@ + plan_from(start as int, n as int, chunk_size as int) == plan_from(
                0,
                n as int,
                chunk_size as int,
            ),
        decreases n - start,
    {
        let ghost before = steps@;
        if n - start <= chunk_size {
            steps.push(Step::Run { start, end: n });
            assert(before + plan_from(start as int, n as int, chunk_size as int) =~= steps@
                + plan_from(n as int, n as int, chunk_size as int));
            start = n;
        } else {
            let end = start + chunk_size;
            steps.push(Step::Run { start, end });
            steps.push(Step::Pause);
            assert(before + plan_from(start as int, n as int, chunk_size as int) =~= steps@
                + plan_from(end as int, n as int, chunk_size as int));
            start = end;
        }
    }
    assert(steps@ =~= steps@ + plan_from(start as int, n as int, chunk_size as int));
    Ok(steps)
}

} // verus!
