//! Turning a selected entry into displayed text: the body markup is converted
//! to plain text at a fixed large width (so the converter forces no wrapping
//! of its own), and placeholders stand in for fields the wire format omitted.
//! Piping the converted text through an optional external formatting command
//! is process work outside this library; `App::set_rendered_text` takes that
//! command's output back in.

use vstd::prelude::*;
use crate::feed::{Entry, EntryView, FeedWithCustom, FeedWithCustomView};

verus! {

/// Width handed to the markup converter: large enough that the converter
/// itself forces no line wrapping; actual wrapping is the display widget's.
pub const RENDER_WIDTH: usize = 5000;

/// The text, if any, that converting body markup to plain text at the given
/// width yields. A function of the markup text and the width alone.
pub uninterp spec fn html_rendered(html: Seq<char>, width: int) -> Option<Seq<char>>;

/// Relies on html2text::from_read: whether the conversion succeeds, and the
/// text it yields, depend on the markup text and the width alone.
#[verifier::external_body]
fn html_to_text(html: &str, width: usize) -> (r: Option<String>)
    ensures
        (r is Some) == (html_rendered(html@, width as int) is Some),
        (r matches Some(t) ==> Some(t@) == html_rendered(html@, width as int)),
{
    html2text::from_read(html.as_bytes(), width).ok()
}

/// The rendered text of an entry: its body markup converted at the fixed
/// width; nothing when the entry has no body or the conversion fails.
pub open spec fn rendered_of(e: EntryView) -> Option<Seq<char>> {
    match e.body {
        Some(b) => html_rendered(b, RENDER_WIDTH as int),
        None => None,
    }
}

/// Convert an entry's body markup into the text the article screen shows;
/// `None` — shown as a failure notice — when the entry has no body or the
/// conversion fails.
pub fn render_entry_body(e: &Entry) -> (r: Option<String>)
    ensures
        r.deep_view() == rendered_of(e.deep_view()),
{
    match &e.body {
        Some(b) => html_to_text(b.as_str(), RENDER_WIDTH),
        None => None,
    }
}

/// An entry's title for display: the title itself, or a placeholder when the
/// wire format omitted it.
pub open spec fn title_text(e: EntryView) -> Seq<char> {
    match e.title {
        Some(t) => t,
        None => "untitled"@,
    }
}

/// The title line of an entry, with a placeholder for a missing title.
pub fn entry_title_text(e: &Entry) -> (r: String)
    ensures
        r@ == title_text(e.deep_view()),
{
    match &e.title {
        Some(t) => t.clone(),
        None => "untitled".to_owned(),
    }
}

/// An entry's update day for display, or a placeholder when the wire format
/// omitted it.
pub open spec fn date_text(e: EntryView) -> Seq<char> {
    match e.updated {
        Some(d) => d,
        None => "unknown date"@,
    }
}

/// The date of an entry, with a placeholder for a missing date.
pub fn entry_date_text(e: &Entry) -> (r: String)
    ensures
        r@ == date_text(e.deep_view()),
{
    match &e.updated {
        Some(d) => d.clone(),
        None => "unknown date".to_owned(),
    }
}

/// A feed's heading: the configured display name when one is set, else the
/// parsed feed's own title, else a placeholder.
pub open spec fn heading_text(f: FeedWithCustomView) -> Seq<char> {
    match f.name {
        Some(n) => n,
        None => match f.feed.title {
            Some(t) => t,
            None => "untitled feed"@,
        },
    }
}

/// The heading of a loaded feed.
pub fn feed_heading_text(f: &FeedWithCustom) -> (r: String)
    ensures
        r@ == heading_text(f.deep_view()),
{
    match &f.name {
        Some(n) => n.clone(),
        None => match &f.feed.title {
            Some(t) => t.clone(),
            None => "untitled feed".to_owned(),
        },
    }
}

} // verus!
