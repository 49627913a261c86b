//! Assembling fetched bodies into display-ready feeds. Each fetched body is
//! parsed into a feed; a feed whose source has a title-filter pattern keeps
//! only the entries whose title matches it. Every step is per slot: a fetch,
//! parse, or filter failure marks that slot alone, and the slot order always
//! follows the configured source order.

use vstd::prelude::*;
use crate::guard::{body_is_tame, body_tame};

verus! {

/// One article of a feed: its title, the day it was updated, and its body
/// markup, each of which the wire format may omit.
#[derive(Debug)]
pub struct Entry {
    pub title: Option<String>,
    pub updated: Option<String>,
    pub body: Option<String>,
}

/// The spec-level value of an entry.
pub ghost struct EntryView {
    pub title: Option<Seq<char>>,
    pub updated: Option<Seq<char>>,
    pub body: Option<Seq<char>>,
}

impl DeepView for Entry {
    type V = EntryView;

    open spec fn deep_view(&self) -> EntryView {
        EntryView {
            title: self.title.deep_view(),
            updated: self.updated.deep_view(),
            body: self.body.deep_view(),
        }
    }
}

/// Copy an optional string; the copy holds the same text.
pub fn clone_opt_string(o: &Option<String>) -> (r: Option<String>)
    ensures
        r.deep_view() == o.deep_view(),
{
    match o {
        Some(s) => Some(s.clone()),
        None => None,
    }
}

impl Clone for Entry {
    fn clone(&self) -> (r: Self)
        ensures
            r.deep_view() == self.deep_view(),
    {
        Entry {
            title: clone_opt_string(&self.title),
            updated: clone_opt_string(&self.updated),
            body: clone_opt_string(&self.body),
        }
    }
}

/// A parsed feed: its own title and its entries, in wire order.
#[derive(Debug, Clone)]
pub struct ParsedFeed {
    pub title: Option<String>,
    pub entries: Vec<Entry>,
}

/// The spec-level value of a parsed feed.
pub ghost struct ParsedFeedView {
    pub title: Option<Seq<char>>,
    pub entries: Seq<EntryView>,
}

impl DeepView for ParsedFeed {
    type V = ParsedFeedView;

    open spec fn deep_view(&self) -> ParsedFeedView {
        ParsedFeedView { title: self.title.deep_view(), entries: self.entries.deep_view() }
    }
}

/// The outcome of one retrieval: the body when the fetch succeeded, plus the
/// originating source's URL, filter pattern, and display name.
#[derive(Debug)]
pub struct FetchOutcome {
    pub body: Option<String>,
    pub url: String,
    pub filter: Option<String>,
    pub name: Option<String>,
}

/// The spec-level value of a fetch outcome.
pub ghost struct FetchOutcomeView {
    pub body: Option<Seq<char>>,
    pub url: Seq<char>,
    pub filter: Option<Seq<char>>,
    pub name: Option<Seq<char>>,
}

impl DeepView for FetchOutcome {
    type V = FetchOutcomeView;

    open spec fn deep_view(&self) -> FetchOutcomeView {
        FetchOutcomeView {
            body: self.body.deep_view(),
            url: self.url.deep_view(),
            filter: self.filter.deep_view(),
            name: self.name.deep_view(),
        }
    }
}

/// One feed as the user sees it: the parsed feed, the entries its filter
/// kept, and the configured display name.
#[derive(Debug, Clone)]
pub struct FeedWithCustom {
    pub feed: ParsedFeed,
    pub filtered_entries: Vec<Entry>,
    pub name: Option<String>,
}

/// The spec-level value of a display-ready feed.
pub ghost struct FeedWithCustomView {
    pub feed: ParsedFeedView,
    pub filtered_entries: Seq<EntryView>,
    pub name: Option<Seq<char>>,
}

impl DeepView for FeedWithCustom {
    type V = FeedWithCustomView;

    open spec fn deep_view(&self) -> FeedWithCustomView {
        FeedWithCustomView {
            feed: self.feed.deep_view(),
            filtered_entries: self.filtered_entries.deep_view(),
            name: self.name.deep_view(),
        }
    }
}

/// One slot of the feed collection, index-aligned with the configured
/// sources: the feed where everything went well, `Unavailable` when the fetch
/// or the parse failed, and `InvalidFilter` when the source's filter pattern
/// does not compile.
#[derive(Debug)]
pub enum FeedSlot {
    Loaded(FeedWithCustom),
    Unavailable,
    InvalidFilter,
}

/// The spec-level value of a slot.
pub ghost enum FeedSlotView {
    Loaded(FeedWithCustomView),
    Unavailable,
    InvalidFilter,
}

impl DeepView for FeedSlot {
    type V = FeedSlotView;

    open spec fn deep_view(&self) -> FeedSlotView {
        match self {
            FeedSlot::Loaded(f) => FeedSlotView::Loaded(f.deep_view()),
            FeedSlot::Unavailable => FeedSlotView::Unavailable,
            FeedSlot::InvalidFilter => FeedSlotView::InvalidFilter,
        }
    }
}

/// The feed, if any, that parsing a body yields. Parsing is a function of the
/// body text alone.
pub uninterp spec fn feed_parse(body: Seq<char>) -> Option<ParsedFeedView>;

/// Whether a filter pattern compiles. A function of the pattern text alone.
pub uninterp spec fn pattern_valid(pattern: Seq<char>) -> bool;

/// Whether a compiled filter pattern matches a title. A function of the two
/// texts alone.
pub uninterp spec fn pattern_match(pattern: Seq<char>, title: Seq<char>) -> bool;

/// Relies on feed_rs::parser::parse: whether a body parses, and the feed it
/// parses to — title, entry titles, update days, and entry bodies — depend on
/// the body text alone. The parser's media-duration handling unwraps integer
/// parses of digit runs captured in duration fields, so it can abort on a
/// body that places an overlong or non-ASCII digit run in that text — whether
/// written literally (the parser coalesces character data across comments,
/// processing instructions and CDATA delimiters, so split runs rejoin), built
/// from numeric character references, or produced by re-decoding the stream
/// under a declared non-UTF-8 encoding; `body_tame` admits only bodies on
/// which none of these can arise.
#[verifier::external_body]
fn parse_feed_body(body: &str) -> (r: Option<ParsedFeed>)
    requires
        body_tame(body@),
    ensures
        (r is Some) == (feed_parse(body@) is Some),
        (r matches Some(f) ==> Some(f.deep_view()) == feed_parse(body@)),
{
    let feed = feed_rs::parser::parse(body.as_bytes()).ok()?;
    Some(ParsedFeed {
        title: feed.title.map(|t| t.content),
        entries: feed
            .entries
            .into_iter()
            .map(|e| Entry {
                title: e.title.map(|t| t.content),
                updated: e.updated.map(|d| d.date_naive().to_string()),
                body: e.content.and_then(|c| c.body),
            })
            .collect(),
    })
}

/// Relies on regex::Regex::new: whether a pattern compiles depends on the
/// pattern text alone.
#[verifier::external_body]
fn pattern_compiles(pattern: &str) -> (r: bool)
    ensures
        r == pattern_valid(pattern@),
{
    regex::Regex::new(pattern).is_ok()
}

/// Relies on regex::Regex::new and regex::Regex::is_match: whether the
/// pattern compiles, and whether it then matches the title, depend on the two
/// texts alone.
#[verifier::external_body]
fn title_match(pattern: &str, title: &str) -> (r: Option<bool>)
    ensures
        (r is Some) == pattern_valid(pattern@),
        (r matches Some(b) ==> b == pattern_match(pattern@, title@)),
{
    regex::Regex::new(pattern).ok().map(|re| re.is_match(title))
}

/// Whether a feed's filter keeps an entry: with no pattern every entry is
/// kept; with a pattern, only an entry that has a title, and whose title
/// matches, is kept.
pub open spec fn entry_kept(e: EntryView, pattern: Option<Seq<char>>) -> bool {
    match pattern {
        None => true,
        Some(p) => match e.title {
            Some(t) => pattern_match(p, t),
            None => false,
        },
    }
}

/// The entries a feed's filter keeps, in their original order.
pub open spec fn filtered_of(entries: Seq<EntryView>, pattern: Option<Seq<char>>) -> Seq<
    EntryView,
> {
    entries.filter(|e: EntryView| entry_kept(e, pattern))
}

/// Keep the entries that the filter pattern admits, in order. With no
/// pattern, every entry is kept; an entry with no title is dropped whenever a
/// pattern exists.
pub fn filter_entries(entries: &Vec<Entry>, pattern: &Option<String>) -> (r: Vec<Entry>)
    requires
        (*pattern) matches Some(p) ==> pattern_valid(p@),
    ensures
        r.deep_view() == filtered_of(entries.deep_view(), pattern.deep_view()),
{
    broadcast use vstd::seq_lib::group_seq_properties;

    let ghost pat = pattern.deep_view();
    let mut r: Vec<Entry> = Vec::new();
    let mut i: usize = 0;
    proof {
        assert(entries.deep_view().take(0) =~= Seq::<EntryView>::empty());
        assert(filtered_of(Seq::<EntryView>::empty(), pat) =~= Seq::<EntryView>::empty()) by {
            reveal(Seq::filter);
        }
    }
    while i < entries.len()
        invariant
            i <= entries.len(),
            (*pattern) matches Some(p) ==> pattern_valid(p@),
            pat == pattern.deep_view(),
            r.deep_view() == filtered_of(entries.deep_view().take(i as int), pat),
        decreases entries.len() - i,
    {
        let e = &entries[i];
        let keep = match pattern {
            None => true,
            Some(p) => match &e.title {
                Some(t) => match title_match(p.as_str(), t.as_str()) {
                    Some(b) => b,
                    None => unreached(),
                },
                None => false,
            },
        };
        proof {
            assert(keep == entry_kept(entries.deep_view()[i as int], pat));
        }
        if keep {
            r.push(e.clone());
        }
        proof {
            let dv = entries.deep_view();
            assert(dv.take(i + 1) =~= dv.take(i as int).push(dv[i as int]));
            Seq::lemma_filter_push(
                dv.take(i as int),
                dv[i as int],
                |ev: EntryView| entry_kept(ev, pat),
            );
        }
        i += 1;
    }
    proof {
        assert(entries.deep_view().take(entries.deep_view().len() as int) =~= entries.deep_view());
    }
    r
}

/// The slot a single fetch outcome assembles to: `Unavailable` when the fetch
/// failed, when the body is one the parser cannot safely process, or when the
/// parse failed; `InvalidFilter` when the source's pattern does not compile;
/// else the parsed feed with its filtered entries and the source's display
/// name.
pub open spec fn assemble_slot_spec(o: FetchOutcomeView) -> FeedSlotView {
    match o.body {
        None => FeedSlotView::Unavailable,
        Some(b) => if !body_tame(b) {
            FeedSlotView::Unavailable
        } else {
            match feed_parse(b) {
                None => FeedSlotView::Unavailable,
                Some(f) => if o.filter matches Some(p) && !pattern_valid(p) {
                    FeedSlotView::InvalidFilter
                } else {
                    FeedSlotView::Loaded(
                        FeedWithCustomView {
                            feed: f,
                            filtered_entries: filtered_of(f.entries, o.filter),
                            name: o.name,
                        },
                    )
                },
            }
        },
    }
}

/// Assemble one fetch outcome into its slot.
pub fn assemble_feed(outcome: &FetchOutcome) -> (r: FeedSlot)
    ensures
        r.deep_view() == assemble_slot_spec(outcome.deep_view()),
{
    match &outcome.body {
        None => FeedSlot::Unavailable,
        Some(b) => {
            if !body_is_tame(b.as_str()) {
                return FeedSlot::Unavailable;
            }
            match parse_feed_body(b.as_str()) {
                None => FeedSlot::Unavailable,
                Some(feed) => {
                    let filter_ok = match &outcome.filter {
                        Some(p) => pattern_compiles(p.as_str()),
                        None => true,
                    };
                    if !filter_ok {
                        FeedSlot::InvalidFilter
                    } else {
                        let filtered = filter_entries(&feed.entries, &outcome.filter);
                        FeedSlot::Loaded(
                            FeedWithCustom {
                                feed,
                                filtered_entries: filtered,
                                name: clone_opt_string(&outcome.name),
                            },
                        )
                    }
                },
            }
        },
    }
}

/// Assemble every outcome into its slot, keeping the order: slot `i` of the
/// result comes from outcome `i` and from it alone.
pub fn assemble_feeds(outcomes: &Vec<FetchOutcome>) -> (r: Vec<FeedSlot>)
    ensures
        r.deep_view().len() == outcomes.deep_view().len(),
        forall|i: int|
            0 <= i < r.deep_view().len() ==> r.deep_view()[i] == assemble_slot_spec(
                outcomes.deep_view()[i],
            ),
{
    let mut r: Vec<FeedSlot> = Vec::new();
    let mut i: usize = 0;
    while i < outcomes.len()
        invariant
            i <= outcomes.len(),
            r.deep_view().len() == i,
            forall|j: int|
                0 <= j < i ==> r.deep_view()[j] == assemble_slot_spec(outcomes.deep_view()[j]),
        decreases outcomes.len() - i,
    {
        let slot = assemble_feed(&outcomes[i]);
        let ghost prev = r.deep_view();
        r.push(slot);
        proof {
            assert forall|j: int| 0 <= j <= i implies r.deep_view()[j] == assemble_slot_spec(
                outcomes.deep_view()[j],
            ) by {
                if j < i {
                    assert(r.deep_view()[j] == prev[j]);
                }
            }
        }
        i += 1;
    }
    r
}

/// With no filter pattern configured, filtering keeps every entry unchanged.
pub proof fn lemma_no_pattern_keeps_all(entries: Seq<EntryView>)
    ensures
        filtered_of(entries, None) == entries,
    decreases entries.len(),
{
    reveal(Seq::filter);
    if entries.len() == 0 {
        assert(filtered_of(entries, None) =~= entries);
    } else {
        lemma_no_pattern_keeps_all(entries.drop_last());
        assert(filtered_of(entries, None) =~= entries);
    }
}

/// Isolation law: a slot depends on its own outcome alone. If two rounds of
/// outcomes differ only at index `k`, every other slot assembles the same;
/// and an outcome whose fetch failed always assembles to an unavailable slot.
pub proof fn lemma_feed_isolation(a: Seq<FetchOutcomeView>, b: Seq<FetchOutcomeView>, k: int)
    requires
        a.len() == b.len(),
        forall|i: int| 0 <= i < a.len() && i != k ==> a[i] == b[i],
    ensures
        forall|i: int|
            0 <= i < a.len() && i != k ==> assemble_slot_spec(a[i]) == assemble_slot_spec(b[i]),
        0 <= k < a.len() && a[k].body is None ==> assemble_slot_spec(a[k])
            is Unavailable,
{
}

} // verus!
