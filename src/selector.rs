//! Per-URL strategy selection: try the video lookup where it applies, and fall
//! back to the page title whenever it does not give a complete record.
//!
//! The caller performs the outside work: it asks `first_action` what to do,
//! hands a lookup outcome to `after_lookup`, and a fetched body to
//! `label::page_line`.

use vstd::prelude::*;
use crate::label::{LookupError, VideoMeta, meta_line_of, video_line};
use crate::video::{is_video_url, is_video_url_spec, video_id, video_id_of};

verus! {

/// Which extraction a URL is meant for.
#[derive(Clone, Copy, Debug, PartialEq, Eq, Structural)]
pub enum Strategy {
    Generic,
    Video,
}

/// The first step for one URL.
#[derive(Debug)]
pub enum Action {
    /// Look up the video with this identifier.
    Lookup(String),
    /// Fetch the page and use its title.
    Fetch,
}

/// The step after a lookup.
#[derive(Debug)]
pub enum Next {
    /// The lookup gave a complete record: this is the line.
    Done(String),
    /// Fall back to fetching the page.
    Fetch,
}

pub open spec fn strategy_of(url: Seq<char>, marker: Seq<char>) -> Strategy {
    if is_video_url_spec(url, marker) {
        Strategy::Video
    } else {
        Strategy::Generic
    }
}

/// The identifier to look up first, if any: only for a video URL whose
/// identifier can be read.
pub open spec fn lookup_id_of(url: Seq<char>, marker: Seq<char>) -> Option<Seq<char>> {
    if strategy_of(url, marker) == Strategy::Video {
        video_id_of(url)
    } else {
        None
    }
}

/// The video line a lookup outcome gives, if it gives a complete record.
pub open spec fn lookup_line_of(url: Seq<char>, outcome: Result<VideoMeta, LookupError>) -> Option<
    Seq<char>,
> {
    match outcome {
        Ok(meta) => meta_line_of(url, meta),
        Err(_) => None,
    }
}

/// Classifies `url` by the host marker.
pub fn classify(url: &str, marker: &str) -> (r: Strategy)
    ensures
        r == strategy_of(url@, marker@),
{
    if is_video_url(url, marker) {
        Strategy::Video
    } else {
        Strategy::Generic
    }
}

/// The first step for `url`: a lookup for a video URL with a readable
/// identifier, a page fetch for everything else.
pub fn first_action(url: &str, marker: &str) -> (r: Action)
    ensures
        r matches Action::Lookup(id) ==> lookup_id_of(url@, marker@) == Some(id@),
        r is Fetch ==> lookup_id_of(url@, marker@) is None,
{
    match classify(url, marker) {
        Strategy::Video => match video_id(url) {
            Some(id) => Action::Lookup(id),
            None => Action::Fetch,
        },
        Strategy::Generic => Action::Fetch,
    }
}

/// The step after a lookup: the video line when the outcome is a complete
/// record, a page fetch on any error or missing field.
pub fn after_lookup(url: &str, outcome: &Result<VideoMeta, LookupError>) -> (r: Next)
    ensures
        r matches Next::Done(s) ==> lookup_line_of(url@, *outcome) == Some(s@),
        r is Fetch ==> lookup_line_of(url@, *outcome) is None,
{
    match outcome {
        Ok(meta) => match video_line(url, meta) {
            Some(s) => Next::Done(s),
            None => Next::Fetch,
        },
        Err(_) => Next::Fetch,
    }
}

} // verus!
