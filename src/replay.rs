//! The whole pipeline run against recorded responses: for each URL, in
//! input order, the line that the strategy selection gives when the page
//! fetches and metadata lookups answer as recorded.

use vstd::prelude::*;
use crate::input::{non_blank_of, texts};
use crate::label::{LookupError, VideoMeta, page_line, page_line_of};
use crate::schedule::{ConfigError, Step, covered, plan, plan_covers_all};
use crate::selector::{
    Action,
    Next,
    Strategy,
    after_lookup,
    first_action,
    lookup_id_of,
    lookup_line_of,
    strategy_of,
};
use crate::video::video_id_of;

verus! {

/// Recorded answers: page bodies keyed by URL, lookup outcomes keyed by video
/// identifier. Where a key appears twice the first entry counts. A page that
/// is not recorded failed to fetch; a lookup that is not recorded failed with
/// `Unavailable`.
#[derive(Debug)]
pub struct Recording {
    pub pages: Vec<(String, String)>,
    pub lookups: Vec<(String, Result<VideoMeta, LookupError>)>,
}

/// The first index at or after `i` whose key is `key`.
pub open spec fn first_key_from<V>(entries: Seq<(String, V)>, key: Seq<char>, i: int) -> Option<
    int,
>
    decreases entries.len() - i,
{
    if i < 0 || i >= entries.len() {
        None
    } else if entries[i].0@ == key {
        Some(i)
    } else {
        first_key_from(entries, key, i + 1)
    }
}

/// The recorded body of `url`; `None` for a failed fetch.
pub open spec fn page_of(rec: Recording, url: Seq<char>) -> Option<Seq<char>> {
    match first_key_from(rec.pages@, url, 0) {
        Some(i) => Some(rec.pages@[i].1@),
        None => None,
    }
}

/// The recorded lookup outcome for `id`.
pub open spec fn lookup_of(rec: Recording, id: Seq<char>) -> Result<VideoMeta, LookupError> {
    match first_key_from(rec.lookups@, id, 0) {
        Some(i) => rec.lookups@[i].1,
        None => Err(LookupError::Unavailable),
    }
}

/// The line for one URL: the video line when the URL is a video URL with a
/// readable identifier whose lookup gives a complete record, the generic
/// line of its page otherwise.
pub open spec fn recorded_line(url: Seq<char>, marker: Seq<char>, rec: Recording) -> Seq<char> {
    let fallback = page_line_of(url, page_of(rec, url));
    match lookup_id_of(url, marker) {
        Some(id) => match lookup_line_of(url, lookup_of(rec, id)) {
            Some(line) => line,
            None => fallback,
        },
        None => fallback,
    }
}

/// One line per URL, in the order of the URLs.
pub open spec fn recorded_output(urls: Seq<Seq<char>>, marker: Seq<char>, rec: Recording) -> Seq<
    Seq<char>,
> {
    urls.map_values(|u: Seq<char>| recorded_line(u, marker, rec))
}

/// What a run over recorded responses returns.
pub open spec fn replay_result(
    urls: Seq<String>,
    chunk_size: usize,
    marker: Seq<char>,
    rec: Recording,
    r: Result<Vec<String>, ConfigError>,
) -> bool {
    match r {
        Ok(lines) => chunk_size >= 1 && texts(lines@) == recorded_output(texts(urls), marker, rec),
        Err(e) => chunk_size == 0 && e == ConfigError::ZeroChunkSize,
    }
}

fn find_key<V>(entries: &Vec<(String, V)>, key: &String) -> (r: Option<usize>)
    ensures
        r matches Some(i) ==> first_key_from(entries@, key@, 0) == Some(i as int) && i
            < entries@.len(),
        r is None ==> first_key_from(entries@, key@, 0) is None,
{
    let mut i: usize = 0;
    while i < entries.len()
        invariant
            i <= entries@.len(),
            first_key_from(entries@, key@, 0) == first_key_from(entries@, key@, i as int),
        decreases entries.len() - i,
    {
        if entries[i].0 == *key {
            return Some(i);
        }
        i = i + 1;
    }
    None
}

fn recorded_page_line(url: &String, rec: &Recording) -> (r: String)
    ensures
        r@ == page_line_of(url@, page_of(*rec, url@)),
{
    match find_key(&rec.pages, url) {
        Some(i) => page_line(url.as_str(), Some(rec.pages[i].1.as_str())),
        None => page_line(url.as_str(), None),
    }
}

/// The line for one URL against recorded responses.
pub fn replay_line(url: &String, marker: &str, rec: &Recording) -> (r: String)
    ensures
        r@ == recorded_line(url@, marker@, *rec),
{
    match first_action(url.as_str(), marker) {
        Action::Lookup(id) => {
            let unrecorded: Result<VideoMeta, LookupError> = Err(LookupError::Unavailable);
            let outcome = match find_key(&rec.lookups, &id) {
                Some(i) => &rec.lookups[i].1,
                None => &unrecorded,
            };
            match after_lookup(url.as_str(), outcome) {
                Next::Done(line) => line,
                Next::Fetch => recorded_page_line(url, rec),
            }
        },
        Action::Fetch => recorded_page_line(url, rec),
    }
}

proof fn lemma_covered_grows(steps: Seq<Step>, pos: int)
    ensures
        covered(steps, pos) matches Some(q) ==> pos <= q,
    decreases steps.len(),
{
    if steps.len() > 0 {
        match steps[0] {
            Step::Run { start, end } => lemma_covered_grows(steps.drop_first(), end as int),
            Step::Pause => lemma_covered_grows(steps.drop_first(), pos),
        }
    }
}

/// Runs the pipeline over `urls` in chunks of `chunk_size` against recorded
/// responses, and returns the lines in input order. A zero chunk size is
/// refused before any URL is looked at.
pub fn run_recorded(urls: &Vec<String>, chunk_size: usize, marker: &str, rec: &Recording) -> (r:
    Result<Vec<String>, ConfigError>)
    ensures
        replay_result(urls@, chunk_size, marker@, *rec, r),
{
    let n = urls.len();
    let steps = match plan(n, chunk_size) {
        Ok(steps) => steps,
        Err(e) => return Err(e),
    };
    proof {
        plan_covers_all(0, n as int, chunk_size as int);
        assert(steps@.subrange(0, steps@.len() as int) =~= steps@);
    }
    let mut out: Vec<String> = Vec::new();
    let mut k: usize = 0;
    while k < steps.len()
        invariant
            n == urls@.len(),
            k <= steps@.len(),
            out@.len() <= n,
            covered(steps@.subrange(k as int, steps@.len() as int), out@.len() as int) == Some(
                n as int,
            ),
            forall|j: int|
                0 <= j < out@.len() ==> #[trigger] out@[j]@ == recorded_line(
                    urls@[j]@,
                    marker@,
                    *rec,
                ),
        decreases steps@.len() - k,
    {
        let ghost rest = steps@.subrange(k as int, steps@.len() as int);
        assert(rest.drop_first() =~= steps@.subrange(k as int + 1, steps@.len() as int));
        match steps[k] {
            Step::Run { start, end } => {
                proof {
                    lemma_covered_grows(rest.drop_first(), end as int);
                }
                let mut i: usize = start;
                while i < end
                    invariant
                        n == urls@.len(),
                        start <= i <= end <= n,
                        out@.len() == i,
                        forall|j: int|
                            0 <= j < out@.len() ==> #[trigger] out@[j]@ == recorded_line(
                                urls@[j]@,
                                marker@,
                                *rec,
                            ),
                    decreases end - i,
                {
                    let line = replay_line(&urls[i], marker, rec);
                    out.push(line);
                    i = i + 1;
                }
            },
            Step::Pause => {},
        }
        k = k + 1;
    }
    assert(texts(out@) =~= recorded_output(texts(urls@), marker@, *rec));
    Ok(out)
}

/// Completeness: run over the non-blank lines of an input, the pipeline emits
/// exactly one line per non-blank line.
pub proof fn one_line_per_non_blank_line(
    lines: Seq<String>,
    urls: Seq<String>,
    chunk_size: usize,
    marker: Seq<char>,
    rec: Recording,
    r: Result<Vec<String>, ConfigError>,
)
    requires
        chunk_size >= 1,
        texts(urls) == non_blank_of(texts(lines)),
        replay_result(urls, chunk_size, marker, rec, r),
    ensures
        r is Ok,
        r->Ok_0@.len() == non_blank_of(texts(lines)).len(),
{
    let out = r->Ok_0;
    assert(texts(out@).len() == out@.len());
    assert(recorded_output(texts(urls), marker, rec).len() == urls.len());
}

/// Order: for every chunk size of at least one, the i-th emitted line is the
/// line of the i-th URL, so two chunk sizes give the same output.
pub proof fn output_in_input_order(
    urls: Seq<String>,
    size_a: usize,
    size_b: usize,
    marker: Seq<char>,
    rec: Recording,
    ra: Result<Vec<String>, ConfigError>,
    rb: Result<Vec<String>, ConfigError>,
)
    requires
        size_a >= 1,
        size_b >= 1,
        replay_result(urls, size_a, marker, rec, ra),
        replay_result(urls, size_b, marker, rec, rb),
    ensures
        ra is Ok,
        rb is Ok,
        ra->Ok_0@.len() == urls.len(),
        forall|i: int|
            0 <= i < urls.len() ==> #[trigger] ra->Ok_0@[i]@ == recorded_line(
                urls[i]@,
                marker,
                rec,
            ),
        texts(ra->Ok_0@) == texts(rb->Ok_0@),
{
    let out = ra->Ok_0;
    assert(texts(out@).len() == out@.len());
    assert(recorded_output(texts(urls), marker, rec).len() == urls.len());
    assert forall|i: int| 0 <= i < urls.len() implies #[trigger] out@[i]@ == recorded_line(
        urls[i]@,
        marker,
        rec,
    ) by {
        assert(texts(out@)[i] == out@[i]@);
    }
}

/// Idempotence: two runs on the same input against the same recorded
/// responses give identical results.
pub proof fn replay_is_repeatable(
    urls: Seq<String>,
    chunk_size: usize,
    marker: Seq<char>,
    rec: Recording,
    r1: Result<Vec<String>, ConfigError>,
    r2: Result<Vec<String>, ConfigError>,
)
    requires
        replay_result(urls, chunk_size, marker, rec, r1),
        replay_result(urls, chunk_size, marker, rec, r2),
    ensures
        match (r1, r2) {
            (Ok(a), Ok(b)) => texts(a@) == texts(b@),
            (Err(x), Err(y)) => x == y,
            _ => false,
        },
{
}

/// A video URL without a readable identifier gets the generic line of its page.
pub proof fn unreadable_id_falls_back(url: Seq<char>, marker: Seq<char>, rec: Recording)
    requires
        strategy_of(url, marker) == Strategy::Video,
        video_id_of(url) is None,
    ensures
        recorded_line(url, marker, rec) == page_line_of(url, page_of(rec, url)),
{
}

/// A video URL whose lookup fails, with any error, gets the generic line of
/// its page.
pub proof fn failed_lookup_falls_back(
    url: Seq<char>,
    marker: Seq<char>,
    rec: Recording,
    id: Seq<char>,
    e: LookupError,
)
    requires
        lookup_id_of(url, marker) == Some(id),
        lookup_of(rec, id) == Err::<VideoMeta, LookupError>(e),
    ensures
        recorded_line(url, marker, rec) == page_line_of(url, page_of(rec, url)),
{
}

} // verus!
