//! Recognising video URLs and reading the video identifier out of them.

use vstd::prelude::*;
use crate::text::{contains, contains_seq};

verus! {

/// A URL is a video URL when the host marker occurs anywhere in it.
pub open spec fn is_video_url_spec(url: Seq<char>, marker: Seq<char>) -> bool {
    contains_seq(url, marker)
}

/// Index `i` starts a `v=` query parameter: `?v=` or `&v=` with the `v` at `i`.
pub open spec fn id_marker_at(s: Seq<char>, i: int) -> bool {
    1 <= i && i + 2 <= s.len() && (s[i - 1] == '?' || s[i - 1] == '&') && s[i] == 'v' && s[i
        + 1] == '='
}

/// The first index at or after `i` that starts a `v=` query parameter.
pub open spec fn first_id_marker_from(s: Seq<char>, i: int) -> Option<int>
    decreases s.len() - i,
{
    if i < 0 || i >= s.len() {
        None
    } else if id_marker_at(s, i) {
        Some(i)
    } else {
        first_id_marker_from(s, i + 1)
    }
}

/// The first index at or after `j` that holds `&`, or the length of `s`.
pub open spec fn param_end_from(s: Seq<char>, j: int) -> int
    decreases s.len() - j,
{
    if j < 0 || j >= s.len() {
        s.len() as int
    } else if s[j] == '&' {
        j
    } else {
        param_end_from(s, j + 1)
    }
}

/// The value of the first `v=` query parameter, if there is one and it is
/// not empty.
pub open spec fn video_id_of(s: Seq<char>) -> Option<Seq<char>> {
    match first_id_marker_from(s, 0) {
        None => None,
        Some(i) => {
            let e = param_end_from(s, i + 2);
            if e > i + 2 {
                Some(s.subrange(i + 2, e))
            } else {
                None
            }
        },
    }
}

/// Whether `url` is to be treated as a video URL.
pub fn is_video_url(url: &str, marker: &str) -> (r: bool)
    ensures
        r == is_video_url_spec(url@, marker@),
{
    contains(url, marker)
}

/// Reads the video identifier: the value of the first `v=` query parameter,
/// up to the next `&` or the end of the URL. `None` when there is no such
/// parameter or its value is empty.
pub fn video_id(url: &str) -> (r: Option<String>)
    ensures
        r matches Some(id) ==> video_id_of(url@) == Some(id@),
        r is None ==> video_id_of(url@) is None,
{
    let n = url.unicode_len();
    let mut i: usize = 0;
    let mut found = false;
    while i < n && !found
        invariant
            n == url@.len(),
            i <= n,
            found ==> i < n && id_marker_at(url@, i as int),
            first_id_marker_from(url@, 0) == if found {
                Some(i as int)
            } else {
                first_id_marker_from(url@, i as int)
            },
        decreases n - i + (if found { 0int } else { 1int }),
    {
        if i >= 1 && 2 <= n - i && (url.get_char(i - 1) == '?' || url.get_char(i - 1) == '&')
            && url.get_char(i) == 'v' && url.get_char(i + 1) == '=' {
            found = true;
        } else {
            i = i + 1;
        }
    }
    if !found {
        assert(first_id_marker_from(url@, i as int) is None);
        return None;
    }
    let start = i + 2;
    let mut e: usize = start;
    while e < n && url.get_char(e) != '&'
        invariant
            n == url@.len(),
            start <= e <= n,
            param_end_from(url@, start as int) == param_end_from(url@, e as int),
        decreases n - e,
    {
        e = e + 1;
    }
    assert(param_end_from(url@, e as int) == e);
    if e > start {
        Some(url.substring_char(start, e).to_owned())
    } else {
        None
    }
}

} // verus!
