//! The two output line formats, and what feeds them.

use vstd::prelude::*;

verus! {

/// Why a video metadata lookup gave no usable answer.
#[derive(Clone, Copy, Debug, PartialEq, Eq, Structural)]
pub enum LookupError {
    Timeout,
    NotFound,
    MalformedResponse,
    Unavailable,
}

/// What a metadata lookup reported for one video. A field the service left
/// out is `None`; a record with a field missing yields no video line.
#[derive(Debug)]
pub struct VideoMeta {
    pub channel: Option<String>,
    pub date: Option<String>,
    pub title: Option<String>,
}

/// `<channel> (<date>) <url> -- <title>`
pub open spec fn video_line_of(
    url: Seq<char>,
    channel: Seq<char>,
    date: Seq<char>,
    title: Seq<char>,
) -> Seq<char> {
    channel + " ("@ + date + ") "@ + url + " -- "@ + title
}

/// The video line for `meta`, when it has all three fields.
pub open spec fn meta_line_of(url: Seq<char>, meta: VideoMeta) -> Option<Seq<char>> {
    match (meta.channel, meta.date, meta.title) {
        (Some(c), Some(d), Some(t)) => Some(video_line_of(url, c@, d@, t@)),
        _ => None,
    }
}

/// `<url> --- <title>`, or `<url> --- Title not found` without a title.
pub open spec fn generic_line_of(url: Seq<char>, title: Option<Seq<char>>) -> Seq<char> {
    url + " --- "@ + match title {
        Some(t) => t,
        None => "Title not found"@,
    }
}

/// The text of the first `<title>` element of an HTML document, as the HTML
/// parser reads it; `None` when the document has no such element.
pub uninterp spec fn html_title_of(html: Seq<char>) -> Option<Seq<char>>;

/// The generic line for a page whose fetch gave `body` (`None`: the fetch failed).
pub open spec fn page_line_of(url: Seq<char>, body: Option<Seq<char>>) -> Seq<char> {
    match body {
        Some(b) => generic_line_of(url, html_title_of(b)),
        None => generic_line_of(url, None),
    }
}

/// Relies on select's `Document::from(&str)`, `Document::find(Name("title"))`
/// and `Node::text`: parses `html` and returns the text of the first `title`
/// element in document order, or `None` when there is none.
#[verifier::external_body]
fn first_title(html: &str) -> (r: Option<String>)
    ensures
        r matches Some(t) ==> html_title_of(html@) == Some(t@),
        r is None ==> html_title_of(html@) is None,
{
    let document = select::document::Document::from(html);
    match document.find(select::predicate::Name("title")).next() {
        Some(node) => Some(node.text()),
        None => None,
    }
}

/// Builds the generic line from an already extracted title.
pub fn generic_line(url: &str, title: Option<&str>) -> (r: String)
    ensures
        r@ == generic_line_of(
            url@,
            match title {
                Some(t) => Some(t@),
                None => None,
            },
        ),
{
    let mut line = String::new();
    line.append(url);
    line.append(" --- ");
    match title {
        Some(t) => line.append(t),
        None => line.append("Title not found"),
    }
    line
}

/// The generic line for a page: its HTML title when the fetch gave a body
/// holding one, the placeholder otherwise.
pub fn page_line(url: &str, body: Option<&str>) -> (r: String)
    ensures
        r@ == page_line_of(
            url@,
            match body {
                Some(b) => Some(b@),
                None => None,
            },
        ),
{
    match body {
        Some(b) => {
            let title = first_title(b);
            match title {
                Some(t) => generic_line(url, Some(t.as_str())),
                None => generic_line(url, None),
            }
        },
        None => generic_line(url, None),
    }
}

/// The video line for `meta`, or `None` when one of its fields is missing.
pub fn video_line(url: &str, meta: &VideoMeta) -> (r: Option<String>)
    ensures
        r matches Some(s) ==> meta_line_of(url@, *meta) == Some(s@),
        r is None ==> meta_line_of(url@, *meta) is None,
{
    match (&meta.channel, &meta.date, &meta.title) {
        (Some(c), Some(d), Some(t)) => {
            let mut line = String::new();
            line.append(c.as_str());
            line.append(" (");
            line.append(d.as_str());
            line.append(") ");
            line.append(url);
            line.append(" -- ");
            line.append(t.as_str());
            Some(line)
        },
        _ => None,
    }
}

} // verus!
