use feedtui::app::{App, CurrentScreen, Key};
use feedtui::config::Config;
use feedtui::feed::{Entry, FeedSlot, FeedWithCustom, ParsedFeed};
use feedtui::scroll::{
    ScrollDirectionVertical, ScrollState, ScrollUnitHorizontal, ScrollUnitVertical, ScrollableUnit,
};

fn entry(title: &str, body: Option<&str>) -> Entry {
    Entry {
        title: Some(title.to_string()),
        updated: Some("2019-01-01".to_string()),
        body: body.map(|b| b.to_string()),
    }
}

fn loaded_feed(titles: &[&str]) -> FeedSlot {
    let entries: Vec<Entry> = titles
        .iter()
        .map(|t| entry(t, Some("<p>text</p>")))
        .collect();
    FeedSlot::Loaded(FeedWithCustom {
        feed: ParsedFeed {
            title: Some("feed".to_string()),
            entries: entries.iter().map(|e| e.clone()).collect(),
        },
        filtered_entries: entries,
        name: None,
    })
}

fn three_feed_app() -> App {
    let feeds = vec![
        loaded_feed(&["a1", "a2"]),
        loaded_feed(&["b1"]),
        loaded_feed(&["c1", "c2", "c3"]),
    ];
    App::new(feeds, Config::default())
}

#[test]
fn scroll_geometric_growth() {
    let mut axis = ScrollUnitVertical { value: 0, factor: 2 };
    assert!(axis.scroll(1, ScrollDirectionVertical::Down).is_ok());
    assert_eq!(axis.value, 2);
    assert!(axis.scroll(1, ScrollDirectionVertical::Down).is_ok());
    assert_eq!(axis.value, 6);
    assert!(axis.scroll(1, ScrollDirectionVertical::Down).is_ok());
    assert_eq!(axis.value, 14);
}

#[test]
fn scroll_down_then_reset() {
    let mut axis = ScrollUnitVertical { value: 0, factor: 1 };
    assert!(axis.scroll(1, ScrollDirectionVertical::Down).is_ok());
    assert_eq!(axis.value, 1);
    axis.reset();
    assert_eq!(axis.value, 0);
}

#[test]
fn scroll_up_at_zero_is_refused() {
    let mut axis = ScrollUnitVertical { value: 0, factor: 3 };
    assert!(axis.scroll(1, ScrollDirectionVertical::Up).is_err());
    assert_eq!(axis.value, 0);
}

#[test]
fn scroll_step_that_leaves_range_is_refused() {
    let mut axis = ScrollUnitVertical { value: 40000, factor: 2 };
    // (40000 + 1) * 2 does not fit in u16: the offset must stay put.
    assert!(axis.scroll(1, ScrollDirectionVertical::Down).is_err());
    assert_eq!(axis.value, 40000);
}

#[test]
fn scroll_state_reset_keeps_factors() {
    let mut scroll = ScrollState {
        vertical: ScrollUnitVertical { value: 7, factor: 2 },
        horizontal: ScrollUnitHorizontal { value: 3, factor: 5 },
    };
    scroll.reset();
    assert_eq!(scroll.offsets(), (0, 0));
    assert_eq!(scroll.vertical.factor, 2);
    assert_eq!(scroll.horizontal.factor, 5);
}

#[test]
fn left_at_first_feed_stays() {
    let mut app = three_feed_app();
    assert_eq!(app.selected_feed_idx, 0);
    app.handle_key_selection(Key::Left);
    assert_eq!(app.selected_feed_idx, 0);
}

#[test]
fn right_at_last_feed_stays() {
    let mut app = three_feed_app();
    app.handle_key_selection(Key::Right);
    app.handle_key_selection(Key::Right);
    assert_eq!(app.selected_feed_idx, 2);
    app.handle_key_selection(Key::Right);
    assert_eq!(app.selected_feed_idx, 2);
}

#[test]
fn moving_feeds_clears_cursor() {
    let mut app = three_feed_app();
    app.handle_key_selection(Key::Down);
    assert_eq!(app.list_selection, Some(0));
    app.handle_key_selection(Key::Right);
    assert_eq!(app.list_selection, None);
    assert_eq!(app.selected_feed_idx, 1);
}

#[test]
fn cursor_clamps_at_list_bounds() {
    let mut app = three_feed_app();
    app.handle_key_selection(Key::Down);
    app.handle_key_selection(Key::Down);
    app.handle_key_selection(Key::Down);
    assert_eq!(app.list_selection, Some(1));
    app.handle_key_selection(Key::Up);
    app.handle_key_selection(Key::Up);
    app.handle_key_selection(Key::Up);
    assert_eq!(app.list_selection, Some(0));
}

#[test]
fn cursor_up_with_no_selection_goes_last() {
    let mut app = three_feed_app();
    app.handle_key_selection(Key::Up);
    assert_eq!(app.list_selection, Some(1));
}

#[test]
fn reset_key_clears_cursor() {
    let mut app = three_feed_app();
    app.handle_key_selection(Key::Down);
    assert_eq!(app.list_selection, Some(0));
    app.handle_key_selection(Key::Reset);
    assert_eq!(app.list_selection, None);
}

#[test]
fn quit_on_selection_raises_exit() {
    let mut app = three_feed_app();
    assert!(!app.exit);
    app.handle_key(Key::Quit);
    assert!(app.exit);
}

#[test]
fn enter_without_selection_is_noop() {
    let mut app = three_feed_app();
    app.handle_key_selection(Key::Enter);
    assert_eq!(app.screen, CurrentScreen::Selection);
    assert!(app.selected_entry.is_none());
}

#[test]
fn enter_moves_to_article_and_captures_entry() {
    let mut app = three_feed_app();
    app.handle_key_selection(Key::Down);
    app.handle_key(Key::Enter);
    assert_eq!(app.screen, CurrentScreen::SingleArticle);
    let captured = app.selected_entry.as_ref().expect("entry captured");
    assert_eq!(captured.title.as_deref(), Some("a1"));
    let text = app.buffered_render.as_ref().expect("body rendered");
    assert!(text.contains("text"));
    assert!(!text.contains("<p>"));
    // The scroll state stays whatever it was (default configuration: 1, 1).
    assert_eq!(app.scroll_number.offsets(), (1, 1));
}

#[test]
fn escape_returns_to_selection_and_resets_scroll() {
    let mut app = three_feed_app();
    app.handle_key_selection(Key::Down);
    app.handle_key(Key::Enter);
    app.handle_key(Key::Down);
    assert_eq!(app.scroll_number.offsets().0, 2);
    app.handle_key(Key::Quit);
    assert_eq!(app.screen, CurrentScreen::Selection);
    assert!(app.selected_entry.is_none());
    assert_eq!(app.scroll_number.offsets(), (0, 0));
    assert!(!app.exit);
}

#[test]
fn article_reset_zeroes_scroll_in_place() {
    let mut app = three_feed_app();
    app.handle_key_selection(Key::Down);
    app.handle_key(Key::Enter);
    app.handle_key(Key::PageDown);
    assert_ne!(app.scroll_number.offsets().0, 0);
    app.handle_key(Key::Reset);
    assert_eq!(app.scroll_number.offsets(), (0, 0));
    assert_eq!(app.screen, CurrentScreen::SingleArticle);
}

#[test]
fn article_page_keys_scroll_by_ten() {
    let mut app = three_feed_app();
    app.handle_key_selection(Key::Down);
    app.handle_key(Key::Enter);
    app.handle_key(Key::Reset);
    app.handle_key(Key::PageDown);
    // factor 1 from the default configuration: (0 + 10) * 1
    assert_eq!(app.scroll_number.offsets().0, 10);
    app.handle_key(Key::PageUp);
    assert_eq!(app.scroll_number.offsets().0, 0);
}

#[test]
fn article_horizontal_scroll() {
    let mut app = three_feed_app();
    app.handle_key_selection(Key::Down);
    app.handle_key(Key::Enter);
    app.handle_key(Key::Reset);
    app.handle_key(Key::Right);
    assert_eq!(app.scroll_number.offsets().1, 1);
    app.handle_key(Key::Left);
    assert_eq!(app.scroll_number.offsets().1, 0);
    app.handle_key(Key::Left);
    assert_eq!(app.scroll_number.offsets().1, 0);
}

#[test]
fn set_rendered_text_replaces_buffer() {
    let mut app = three_feed_app();
    app.handle_key_selection(Key::Down);
    app.handle_key(Key::Enter);
    app.set_rendered_text("formatted".to_string());
    assert_eq!(app.buffered_render.as_deref(), Some("formatted"));
}
