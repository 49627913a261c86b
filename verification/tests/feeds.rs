use feedtui::app::{App, Key};
use feedtui::config::{select_feed_sources, Config, FeedConfigEntry};
use feedtui::feed::{assemble_feed, assemble_feeds, filter_entries, Entry, FeedSlot, FetchOutcome};
use feedtui::fetch::FetchCollector;
use feedtui::guard::body_is_tame;
use feedtui::render::{entry_date_text, entry_title_text, feed_heading_text, render_entry_body};

fn atom_body(feed_title: &str, entries: &[(&str, &str)]) -> String {
    let mut body = String::new();
    body.push_str("<?xml version=\"1.0\" encoding=\"utf-8\"?>");
    body.push_str("<feed xmlns=\"http://www.w3.org/2005/Atom\">");
    body.push_str(&format!("<title>{}</title>", feed_title));
    body.push_str("<id>urn:feed</id><updated>2019-01-02T03:04:05Z</updated>");
    for (i, (title, content)) in entries.iter().enumerate() {
        body.push_str("<entry>");
        body.push_str(&format!("<id>urn:e{}</id>", i));
        body.push_str(&format!("<title>{}</title>", title));
        body.push_str("<updated>2019-01-02T03:04:05Z</updated>");
        body.push_str(&format!("<content type=\"html\">{}</content>", content));
        body.push_str("</entry>");
    }
    body.push_str("</feed>");
    body
}

fn outcome(url: &str, body: Option<String>, filter: Option<&str>, name: Option<&str>) -> FetchOutcome {
    FetchOutcome {
        body,
        url: url.to_string(),
        filter: filter.map(|f| f.to_string()),
        name: name.map(|n| n.to_string()),
    }
}

fn titled(title: Option<&str>) -> Entry {
    Entry {
        title: title.map(|t| t.to_string()),
        updated: None,
        body: None,
    }
}

#[test]
fn filter_keeps_matching_titles_only() {
    let entries = vec![titled(Some("Alpha")), titled(None), titled(Some("Beta"))];
    let kept = filter_entries(&entries, &Some("A.*".to_string()));
    assert_eq!(kept.len(), 1);
    assert_eq!(kept[0].title.as_deref(), Some("Alpha"));
}

#[test]
fn filter_without_pattern_keeps_everything() {
    let entries = vec![titled(Some("Alpha")), titled(None), titled(Some("Beta"))];
    let kept = filter_entries(&entries, &None);
    assert_eq!(kept.len(), 3);
    assert_eq!(kept[0].title.as_deref(), Some("Alpha"));
    assert_eq!(kept[1].title, None);
    assert_eq!(kept[2].title.as_deref(), Some("Beta"));
}

#[test]
fn filter_is_case_sensitive() {
    let entries = vec![titled(Some("alpha"))];
    let kept = filter_entries(&entries, &Some("A.*".to_string()));
    assert_eq!(kept.len(), 0);
}

#[test]
fn assemble_parses_entries_and_dates() {
    let body = atom_body("My Feed", &[("Hello", "&lt;p&gt;world&lt;/p&gt;")]);
    let slot = assemble_feed(&outcome("u", Some(body), None, None));
    match slot {
        FeedSlot::Loaded(f) => {
            assert_eq!(f.feed.title.as_deref(), Some("My Feed"));
            assert_eq!(f.filtered_entries.len(), 1);
            let e = &f.filtered_entries[0];
            assert_eq!(e.title.as_deref(), Some("Hello"));
            assert_eq!(e.updated.as_deref(), Some("2019-01-02"));
            assert_eq!(e.body.as_deref(), Some("<p>world</p>"));
        }
        other => panic!("expected a loaded slot, got {:?}", other),
    }
}

#[test]
fn assemble_applies_feed_filter() {
    let body = atom_body("F", &[("Alpha", "x"), ("Beta", "y")]);
    let slot = assemble_feed(&outcome("u", Some(body), Some("^B"), None));
    match slot {
        FeedSlot::Loaded(f) => {
            assert_eq!(f.feed.entries.len(), 2);
            assert_eq!(f.filtered_entries.len(), 1);
            assert_eq!(f.filtered_entries[0].title.as_deref(), Some("Beta"));
        }
        other => panic!("expected a loaded slot, got {:?}", other),
    }
}

#[test]
fn unparsable_body_yields_unavailable() {
    let slot = assemble_feed(&outcome("u", Some("this is not a feed".to_string()), None, None));
    assert!(matches!(slot, FeedSlot::Unavailable));
}

#[test]
fn fetch_failure_yields_unavailable() {
    let slot = assemble_feed(&outcome("u", None, None, None));
    assert!(matches!(slot, FeedSlot::Unavailable));
}

#[test]
fn invalid_filter_pattern_yields_its_own_slot() {
    let body = atom_body("F", &[("Alpha", "x")]);
    let slot = assemble_feed(&outcome("u", Some(body), Some("("), None));
    assert!(matches!(slot, FeedSlot::InvalidFilter));
}

#[test]
fn overlong_digit_run_yields_unavailable() {
    // A duration whose digit run would overflow the parser's integer parsing
    // is refused up front instead of reaching the parser.
    let mut body = String::new();
    body.push_str("<rss version=\"2.0\" xmlns:itunes=\"http://www.itunes.com/dtds/podcast-1.0.dtd\">");
    body.push_str("<channel><title>t</title><item><title>e</title>");
    body.push_str("<itunes:duration>99999999999999999999</itunes:duration>");
    body.push_str("</item></channel></rss>");
    let slot = assemble_feed(&outcome("u", Some(body), None, None));
    assert!(matches!(slot, FeedSlot::Unavailable));
}

#[test]
fn non_ascii_digit_yields_unavailable() {
    let body = atom_body("F", &[("Alpha \u{0661}", "x")]);
    let slot = assemble_feed(&outcome("u", Some(body), None, None));
    assert!(matches!(slot, FeedSlot::Unavailable));
}

#[test]
fn digit_character_reference_yields_unavailable() {
    let body = atom_body("F", &[("A&#49;B", "x")]);
    let slot = assemble_feed(&outcome("u", Some(body), None, None));
    assert!(matches!(slot, FeedSlot::Unavailable));
}

#[test]
fn harmless_character_reference_still_loads() {
    let body = atom_body("F", &[("it&#8217;s fine", "x")]);
    let slot = assemble_feed(&outcome("u", Some(body), None, None));
    match slot {
        FeedSlot::Loaded(f) => {
            assert_eq!(f.filtered_entries.len(), 1);
            assert_eq!(f.filtered_entries[0].title.as_deref(), Some("it\u{2019}s fine"));
        }
        other => panic!("expected a loaded slot, got {:?}", other),
    }
}

#[test]
fn comment_split_digit_run_yields_unavailable() {
    // The parser coalesces character data across comments, so the two short
    // runs would rejoin into one overlong run inside the duration field.
    let mut body = String::new();
    body.push_str("<rss xmlns:itunes=\"http://www.itunes.com/dtds/podcast-1.0.dtd\" version=\"2.0\">");
    body.push_str("<channel><title>t</title><item>");
    body.push_str("<itunes:duration>999999999999999<!---->999999</itunes:duration>");
    body.push_str("</item></channel></rss>");
    let slot = assemble_feed(&outcome("u", Some(body), None, None));
    assert!(matches!(slot, FeedSlot::Unavailable));
}

#[test]
fn foreign_encoding_declaration_yields_unavailable() {
    let mut body = atom_body("F", &[("Alpha", "x")]);
    body = body.replace("encoding=\"utf-8\"", "encoding=\"utf-16\"");
    let slot = assemble_feed(&outcome("u", Some(body), None, None));
    assert!(matches!(slot, FeedSlot::Unavailable));
}

#[test]
fn tameness_of_ordinary_and_hostile_bodies() {
    assert!(body_is_tame(&atom_body("My Feed", &[("Hello", "x")])));
    assert!(body_is_tame("plain text with 123456789012345 digits"));
    assert!(!body_is_tame("a run of 1234567890123456 digits"));
    assert!(!body_is_tame("a reference &#1632; here"));
    assert!(!body_is_tame("a hex reference &#x30; here"));
    assert!(body_is_tame("it&#8217;s a harmless reference"));
    assert!(body_is_tame("hex too: &#x2019;"));
    assert!(!body_is_tame("<?xml version=\"1.0\" encoding=\"latin1\"?><feed/>"));
    assert!(body_is_tame("<?xml version=\"1.0\" encoding='UTF-8'?><feed/>"));
    assert!(!body_is_tame("an Arabic-Indic digit \u{0661}"));
    // Character data rejoins across comments, instructions and CDATA
    // delimiters; inside a comment the digits never reach the text at all.
    assert!(!body_is_tame("join 99999999<!-- -->99999999"));
    assert!(!body_is_tame("join 99999999<?pi?>99999999"));
    assert!(!body_is_tame("join 99999999<![CDATA[99999999]]>"));
    assert!(body_is_tame("<!--12345678901234567890-->"));
    assert!(body_is_tame("split by a tag: 99999999<b>99999999</b>"));
    // An attribute value cannot hide a comment opener from the scanner.
    assert!(!body_is_tame("<a b=\"<!--\">99999999<!-- -->99999999"));
    // A document type declaration's extent follows unmodeled quoting rules.
    assert!(!body_is_tame("<!DOCTYPE html>"));
}

#[test]
fn failure_is_isolated_to_its_slot() {
    let good = || atom_body("F", &[("Alpha", "x")]);
    let all_good = vec![
        outcome("a", Some(good()), None, None),
        outcome("b", Some(good()), None, None),
        outcome("c", Some(good()), None, None),
    ];
    let one_bad = vec![
        outcome("a", Some(good()), None, None),
        outcome("b", None, None, None),
        outcome("c", Some(good()), None, None),
    ];
    let slots_good = assemble_feeds(&all_good);
    let slots_bad = assemble_feeds(&one_bad);
    assert_eq!(slots_bad.len(), 3);
    assert!(matches!(slots_bad[1], FeedSlot::Unavailable));
    for i in [0usize, 2] {
        match (&slots_good[i], &slots_bad[i]) {
            (FeedSlot::Loaded(a), FeedSlot::Loaded(b)) => {
                assert_eq!(a.feed.title, b.feed.title);
                assert_eq!(a.filtered_entries.len(), b.filtered_entries.len());
            }
            other => panic!("expected loaded slots, got {:?}", other),
        }
    }
}

#[test]
fn collector_aligns_results_to_source_order() {
    let mut collector = FetchCollector::new(3);
    assert_eq!(collector.len(), 3);
    // Completion order 2, 0, 1 — nothing like the source order.
    collector.record(2, outcome("url2", None, None, None));
    assert!(!collector.is_complete());
    collector.record(0, outcome("url0", None, None, None));
    collector.record(1, outcome("url1", None, None, None));
    assert!(collector.is_complete());
    let outcomes = collector.into_outcomes().expect("all slots filled");
    let urls: Vec<&str> = outcomes.iter().map(|o| o.url.as_str()).collect();
    assert_eq!(urls, vec!["url0", "url1", "url2"]);
}

#[test]
fn collector_with_missing_slot_hands_nothing_out() {
    let mut collector = FetchCollector::new(2);
    collector.record(1, outcome("url1", None, None, None));
    assert!(!collector.is_complete());
    assert!(collector.into_outcomes().is_none());
}

#[test]
fn three_feeds_one_failure_end_to_end() {
    let good = |t: &str| atom_body(t, &[("Item", "x")]);
    let outcomes = vec![
        outcome("a", Some(good("Feed A")), None, None),
        outcome("b", None, None, None),
        outcome("c", Some(good("Feed C")), None, None),
    ];
    let slots = assemble_feeds(&outcomes);
    assert!(matches!(slots[0], FeedSlot::Loaded(_)));
    assert!(matches!(slots[1], FeedSlot::Unavailable));
    assert!(matches!(slots[2], FeedSlot::Loaded(_)));

    let mut app = App::new(slots, Config::default());
    // Navigation moves freely across all three indices, error slot included.
    app.handle_key(Key::Right);
    assert_eq!(app.selected_feed_idx, 1);
    assert!(matches!(app.feeds[app.selected_feed_idx], FeedSlot::Unavailable));
    // The failed slot shows an empty list: the cursor stays away.
    app.handle_key(Key::Down);
    assert_eq!(app.list_selection, None);
    app.handle_key(Key::Right);
    assert_eq!(app.selected_feed_idx, 2);
    app.handle_key(Key::Left);
    app.handle_key(Key::Left);
    assert_eq!(app.selected_feed_idx, 0);
}

#[test]
fn render_converts_markup() {
    let e = Entry {
        title: Some("t".to_string()),
        updated: None,
        body: Some("<b>bold</b> plain".to_string()),
    };
    let text = render_entry_body(&e).expect("conversion succeeds");
    assert!(text.contains("bold"));
    assert!(text.contains("plain"));
    assert!(!text.contains("<b>"));
}

#[test]
fn render_without_body_yields_nothing() {
    let e = titled(Some("t"));
    assert!(render_entry_body(&e).is_none());
}

#[test]
fn display_placeholders_for_missing_fields() {
    let e = titled(None);
    assert_eq!(entry_title_text(&e), "untitled");
    assert_eq!(entry_date_text(&e), "unknown date");
    let e2 = Entry {
        title: Some("real".to_string()),
        updated: Some("2019-01-02".to_string()),
        body: None,
    };
    assert_eq!(entry_title_text(&e2), "real");
    assert_eq!(entry_date_text(&e2), "2019-01-02");
}

#[test]
fn heading_prefers_configured_name() {
    let body = atom_body("Wire Title", &[("e", "x")]);
    let named = assemble_feed(&outcome("u", Some(body.clone()), None, Some("Custom")));
    match named {
        FeedSlot::Loaded(f) => assert_eq!(feed_heading_text(&f), "Custom"),
        other => panic!("expected a loaded slot, got {:?}", other),
    }
    let unnamed = assemble_feed(&outcome("u", Some(body), None, None));
    match unnamed {
        FeedSlot::Loaded(f) => assert_eq!(feed_heading_text(&f), "Wire Title"),
        other => panic!("expected a loaded slot, got {:?}", other),
    }
}

#[test]
fn explicit_urls_bypass_configuration() {
    let cli = vec!["http://x/feed".to_string(), "http://y/feed".to_string()];
    let config_feeds = Some(vec![FeedConfigEntry {
        name: Some("cfg".to_string()),
        url: "http://cfg/feed".to_string(),
        enabled: true,
        filter: Some("f".to_string()),
    }]);
    let picked = select_feed_sources(&cli, config_feeds).expect("urls given");
    assert_eq!(picked.len(), 2);
    assert_eq!(picked[0].url, "http://x/feed");
    assert_eq!(picked[0].name, None);
    assert_eq!(picked[0].filter, None);
    assert!(picked[0].enabled);
    assert_eq!(picked[1].url, "http://y/feed");
}

#[test]
fn configuration_feeds_filtered_by_enabled() {
    let mk = |url: &str, enabled: bool| FeedConfigEntry {
        name: None,
        url: url.to_string(),
        enabled,
        filter: None,
    };
    let picked = select_feed_sources(
        &Vec::new(),
        Some(vec![mk("a", true), mk("b", false), mk("c", true)]),
    )
    .expect("config feeds given");
    let urls: Vec<&str> = picked.iter().map(|f| f.url.as_str()).collect();
    assert_eq!(urls, vec!["a", "c"]);
}

#[test]
fn no_sources_at_all() {
    assert!(select_feed_sources(&Vec::new(), None).is_none());
}

#[test]
fn default_configuration_values() {
    let c = Config::default();
    assert!(c.nerd_fonts);
    assert!(c.feeds.is_none());
    assert!(c.renderer.is_none());
    assert_eq!(c.scrolling.x_factor, 1);
    assert_eq!(c.scrolling.y_factor, 1);
    assert_eq!(c.theme.error.red, 255);
    assert_eq!(c.theme.accent.blue, 252);
    let d = FeedConfigEntry::default();
    assert!(d.enabled);
    assert_eq!(d.url, "");
}
