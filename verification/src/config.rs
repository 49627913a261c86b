//! Configuration data for the reader: feed sources, theme colors, list
//! formatting, the optional external renderer command, and scroll step
//! settings. Loading and parsing the configuration file is outside this
//! library; these types hold the values it yields.

use vstd::prelude::*;

verus! {

/// One configured feed source: an optional display name, the endpoint URL,
/// whether the feed is enabled, and an optional title-filter pattern.
#[derive(Debug, Clone)]
pub struct FeedConfigEntry {
    pub name: Option<String>,
    pub url: String,
    pub enabled: bool,
    pub filter: Option<String>,
}

/// The spec-level value of a feed source.
pub ghost struct FeedConfigEntryView {
    pub name: Option<Seq<char>>,
    pub url: Seq<char>,
    pub enabled: bool,
    pub filter: Option<Seq<char>>,
}

impl DeepView for FeedConfigEntry {
    type V = FeedConfigEntryView;

    open spec fn deep_view(&self) -> FeedConfigEntryView {
        FeedConfigEntryView {
            name: self.name.deep_view(),
            url: self.url.deep_view(),
            enabled: self.enabled,
            filter: self.filter.deep_view(),
        }
    }
}

impl Default for FeedConfigEntry {
    /// A source with no name, an empty URL, enabled, and no filter.
    fn default() -> (r: Self)
        ensures
            r.name is None,
            r.url@.len() == 0,
            r.enabled,
            r.filter is None,
    {
        Self { name: None, url: String::new(), enabled: true, filter: None }
    }
}

/// One RGB color.
#[derive(Debug, Clone, PartialEq, Eq, Structural)]
pub struct ColorConfiguration {
    pub red: u8,
    pub green: u8,
    pub blue: u8,
}

impl Default for ColorConfiguration {
    fn default() -> (r: Self)
        ensures
            r == (ColorConfiguration { red: 0, green: 0, blue: 0 }),
    {
        Self { red: 0, green: 0, blue: 0 }
    }
}

/// The three theme colors: accent, text, and error.
#[derive(Debug, Clone, PartialEq, Eq, Structural)]
pub struct ThemeConfiguration {
    pub accent: ColorConfiguration,
    pub text: ColorConfiguration,
    pub error: ColorConfiguration,
}

impl Default for ThemeConfiguration {
    fn default() -> (r: Self)
        ensures
            r.error == (ColorConfiguration { red: 255, green: 0, blue: 0 }),
            r.accent == (ColorConfiguration { red: 83, green: 117, blue: 252 }),
            r.text == (ColorConfiguration { red: 0xFF, green: 0xFF, blue: 0xFF }),
    {
        Self {
            error: ColorConfiguration { red: 255, green: 0, blue: 0 },
            accent: ColorConfiguration { red: 83, green: 117, blue: 252 },
            text: ColorConfiguration { red: 0xFF, green: 0xFF, blue: 0xFF },
        }
    }
}

/// How a feed's entry list is laid out: one line per entry, or spread over
/// several lines.
#[derive(Debug, Clone, PartialEq, Eq, Structural)]
pub enum ListFormat {
    Compact,
    Extended,
}

impl Default for ListFormat {
    fn default() -> (r: Self)
        ensures
            r is Compact,
    {
        Self::Compact
    }
}

/// The optional external renderer: a binary and its arguments, which the
/// article text is piped through before display.
#[derive(Debug, Clone)]
pub struct RendererConfiguration {
    pub enabled: Option<bool>,
    pub binary: String,
    pub args: Option<Vec<String>>,
}

/// Initial scroll offsets and step multipliers for the two axes.
#[derive(Debug, Clone, PartialEq, Eq, Structural)]
pub struct ScrollingConfiguration {
    pub x_factor: u16,
    pub x_lines: u16,
    pub y_factor: u16,
    pub y_lines: u16,
}

impl Default for ScrollingConfiguration {
    fn default() -> (r: Self)
        ensures
            r == (ScrollingConfiguration { x_factor: 1, x_lines: 1, y_factor: 1, y_lines: 1 }),
    {
        Self { x_factor: 1, x_lines: 1, y_factor: 1, y_lines: 1 }
    }
}

/// Text alignments the display layer supports.
#[derive(Debug, Clone, PartialEq, Eq, Structural)]
pub enum SupportedAlignment {
    Left,
    Right,
    Center,
}

impl Default for SupportedAlignment {
    fn default() -> (r: Self)
        ensures
            r is Left,
    {
        Self::Left
    }
}

/// Which alignment the article text uses.
#[derive(Debug, Clone, PartialEq, Eq, Structural)]
pub struct AlignmentConfiguration {
    pub article: SupportedAlignment,
}

impl Default for AlignmentConfiguration {
    fn default() -> (r: Self)
        ensures
            r.article is Left,
    {
        Self { article: SupportedAlignment::Left }
    }
}

/// The whole configuration.
#[derive(Debug, Clone)]
pub struct Config {
    pub nerd_fonts: bool,
    pub list_format: ListFormat,
    pub feeds: Option<Vec<FeedConfigEntry>>,
    pub theme: ThemeConfiguration,
    pub renderer: Option<RendererConfiguration>,
    pub scrolling: ScrollingConfiguration,
    pub alignment: AlignmentConfiguration,
}

impl Default for Config {
    fn default() -> (r: Self)
        ensures
            r.feeds is None,
            r.nerd_fonts,
            r.list_format is Compact,
            r.theme.error == (ColorConfiguration { red: 255, green: 0, blue: 0 }),
            r.theme.accent == (ColorConfiguration { red: 83, green: 117, blue: 252 }),
            r.theme.text == (ColorConfiguration { red: 0xFF, green: 0xFF, blue: 0xFF }),
            r.renderer is None,
            r.scrolling == (ScrollingConfiguration { x_factor: 1, x_lines: 1, y_factor: 1, y_lines: 1 }),
            r.alignment.article is Left,
    {
        Self {
            feeds: None,
            nerd_fonts: true,
            list_format: ListFormat::Compact,
            theme: ThemeConfiguration::default(),
            renderer: None,
            scrolling: ScrollingConfiguration::default(),
            alignment: AlignmentConfiguration::default(),
        }
    }
}

/// The sources used when explicit URLs are given: each URL becomes a source
/// with no name, no filter, and enabled.
pub open spec fn sources_from_urls(urls: Seq<Seq<char>>) -> Seq<FeedConfigEntryView> {
    urls.map_values(
        |u: Seq<char>| FeedConfigEntryView { name: None, url: u, enabled: true, filter: None },
    )
}

/// The enabled sources of the configuration, in their configured order.
pub open spec fn enabled_sources(sources: Seq<FeedConfigEntryView>) -> Seq<FeedConfigEntryView> {
    sources.filter(|f: FeedConfigEntryView| f.enabled)
}

/// Which sources are fetched. Explicit URLs always win: each becomes an
/// unnamed, unfiltered, enabled source, bypassing the configuration. With no
/// explicit URL, the configuration's enabled feeds are used, in order; `None`
/// when the configuration names no feeds either — there is then nothing to
/// display, which the caller must treat as fatal before the interactive loop.
pub fn select_feed_sources(cli_feeds: &Vec<String>, config_feeds: Option<Vec<FeedConfigEntry>>) -> (r:
    Option<Vec<FeedConfigEntry>>)
    ensures
        cli_feeds@.len() > 0 ==> (r matches Some(v) && v.deep_view() == sources_from_urls(
            cli_feeds.deep_view(),
        )),
        cli_feeds@.len() == 0 ==> (match config_feeds {
            Some(feeds) => r matches Some(v) && v.deep_view() == enabled_sources(
                feeds.deep_view(),
            ),
            None => r is None,
        }),
{
    if cli_feeds.len() > 0 {
        let mut out: Vec<FeedConfigEntry> = Vec::new();
        let mut i: usize = 0;
        proof {
            assert(cli_feeds.deep_view().take(0) =~= Seq::<Seq<char>>::empty());
            assert(sources_from_urls(Seq::<Seq<char>>::empty()) =~= Seq::<
                FeedConfigEntryView,
            >::empty());
        }
        while i < cli_feeds.len()
            invariant
                i <= cli_feeds@.len(),
                out.deep_view() == sources_from_urls(cli_feeds.deep_view().take(i as int)),
            decreases cli_feeds@.len() - i,
        {
            let ghost prev = out.deep_view();
            let entry = FeedConfigEntry {
                name: None,
                url: cli_feeds[i].clone(),
                enabled: true,
                filter: None,
            };
            out.push(entry);
            proof {
                let dv = cli_feeds.deep_view();
                assert(dv.take(i + 1) =~= dv.take(i as int).push(dv[i as int]));
                assert(out.deep_view() =~= prev.push(entry.deep_view()));
                assert(sources_from_urls(dv.take(i + 1)) =~= sources_from_urls(
                    dv.take(i as int),
                ).push(entry.deep_view()));
            }
            i += 1;
        }
        proof {
            assert(cli_feeds.deep_view().take(cli_feeds.deep_view().len() as int)
                =~= cli_feeds.deep_view());
        }
        Some(out)
    } else {
        match config_feeds {
            None => None,
            Some(feeds) => {
                let ghost original = feeds.deep_view();
                let mut rest = feeds;
                let mut out: Vec<FeedConfigEntry> = Vec::new();
                let n = rest.len();
                let mut i: usize = 0;
                proof {
                    assert(original.skip(0) =~= original);
                    assert(original.take(0) =~= Seq::<FeedConfigEntryView>::empty());
                    assert(enabled_sources(Seq::<FeedConfigEntryView>::empty()) =~= Seq::<
                        FeedConfigEntryView,
                    >::empty()) by {
                        reveal(Seq::filter);
                    }
                }
                while i < n
                    invariant
                        i <= n,
                        n == original.len(),
                        rest@.len() == n - i,
                        rest.deep_view() == original.skip(i as int),
                        out.deep_view() == enabled_sources(original.take(i as int)),
                    decreases n - i,
                {
                    let ghost before = rest.deep_view();
                    let entry = rest.remove(0);
                    proof {
                        assert(entry.deep_view() == before[0]);
                        assert(before[0] == original[i as int]);
                        assert(rest.deep_view() =~= before.skip(1));
                        assert(before.skip(1) =~= original.skip(i + 1));
                    }
                    let ghost prev = out.deep_view();
                    let keep = entry.enabled;
                    if keep {
                        out.push(entry);
                        proof {
                            assert(out.deep_view() =~= prev.push(original[i as int]));
                        }
                    }
                    proof {
                        assert(original.take(i + 1) =~= original.take(i as int).push(
                            original[i as int],
                        ));
                        Seq::lemma_filter_push(
                            original.take(i as int),
                            original[i as int],
                            |f: FeedConfigEntryView| f.enabled,
                        );
                    }
                    i += 1;
                }
                proof {
                    assert(original.take(original.len() as int) =~= original);
                }
                Some(out)
            },
        }
    }
}

} // verus!
