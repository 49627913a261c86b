//! The application controller: which screen is shown, which feed and entry
//! are selected, the scroll offsets, and how each key event moves that state.
//! Key handling is a pure step function of the current state and the key; the
//! draw/input loop around it, and the terminal itself, live outside this
//! library.

use vstd::prelude::*;
use crate::config::Config;
use crate::feed::{Entry, EntryView, FeedSlot, FeedSlotView};
use crate::render::{render_entry_body, rendered_of};
use crate::scroll::{
    scroll_step, ScrollableUnit, ScrollDirectionHorizontal, ScrollDirectionVertical, ScrollState,
    ScrollUnitHorizontal, ScrollUnitVertical,
};

verus! {

/// The two screens: browsing feeds and their entry lists, or reading one
/// article.
#[derive(Debug, PartialEq, Eq, Structural)]
pub enum CurrentScreen {
    Selection,
    SingleArticle,
}

/// A key event, already reduced to the actions the reader knows. Only "key
/// pressed" events reach the handlers; release and repeat events are dropped
/// at the terminal boundary, as is any key outside this set (`Other`).
#[derive(Debug, Clone, Copy, PartialEq, Eq, Structural)]
pub enum Key {
    Quit,
    Up,
    Down,
    Left,
    Right,
    PageUp,
    PageDown,
    Reset,
    Enter,
    Other,
}

/// The spec-level value of both scroll axes.
pub ghost struct ScrollView {
    pub v_value: int,
    pub v_factor: int,
    pub h_value: int,
    pub h_factor: int,
}

/// The spec-level state of the controller.
pub ghost struct AppView {
    pub screen: CurrentScreen,
    pub selected_feed_idx: int,
    pub feeds: Seq<FeedSlotView>,
    pub exit: bool,
    pub scroll: ScrollView,
    pub list_selection: Option<int>,
    pub selected_entry: Option<EntryView>,
    pub buffered_render: Option<Seq<char>>,
}

/// The application controller's state.
#[derive(Debug)]
pub struct App {
    pub config: Config,
    pub screen: CurrentScreen,
    pub selected_feed_idx: usize,
    pub feeds: Vec<FeedSlot>,
    pub exit: bool,
    pub scroll_number: ScrollState,
    pub list_selection: Option<usize>,
    pub selected_entry: Option<Entry>,
    pub buffered_render: Option<String>,
}

impl View for App {
    type V = AppView;

    open spec fn view(&self) -> AppView {
        AppView {
            screen: self.screen,
            selected_feed_idx: self.selected_feed_idx as int,
            feeds: self.feeds.deep_view(),
            exit: self.exit,
            scroll: ScrollView {
                v_value: self.scroll_number.vertical.value as int,
                v_factor: self.scroll_number.vertical.factor as int,
                h_value: self.scroll_number.horizontal.value as int,
                h_factor: self.scroll_number.horizontal.factor as int,
            },
            list_selection: match self.list_selection {
                Some(i) => Some(i as int),
                None => None,
            },
            selected_entry: self.selected_entry.deep_view(),
            buffered_render: self.buffered_render.deep_view(),
        }
    }
}

/// Well-formedness of the controller state: the selected feed index is a
/// valid index into the (non-empty) feed collection, and a highlighted entry
/// is a valid index into the selected feed's filtered entries.
pub open spec fn wf(v: AppView) -> bool {
    &&& 0 < v.feeds.len()
    &&& 0 <= v.selected_feed_idx < v.feeds.len()
    &&& match v.list_selection {
        Some(i) => match v.feeds[v.selected_feed_idx] {
            FeedSlotView::Loaded(f) => 0 <= i < f.filtered_entries.len(),
            _ => false,
        },
        None => true,
    }
}

/// How many entries the selected feed's list shows: its filtered entries when
/// it is loaded, none when its slot is unavailable or a filter error.
pub open spec fn current_entry_count(v: AppView) -> int {
    if 0 <= v.selected_feed_idx < v.feeds.len() {
        match v.feeds[v.selected_feed_idx] {
            FeedSlotView::Loaded(f) => f.filtered_entries.len() as int,
            _ => 0,
        }
    } else {
        0
    }
}

/// The list cursor after an "up" press: one entry back, clamped at the top;
/// with no cursor yet, the last entry. An empty list keeps the cursor away.
pub open spec fn cursor_up(v: AppView) -> Option<int> {
    let n = current_entry_count(v);
    if n == 0 {
        None
    } else {
        match v.list_selection {
            None => Some(n - 1),
            Some(i) => Some(if i == 0 { 0int } else { i - 1 }),
        }
    }
}

/// The list cursor after a "down" press: one entry forward, clamped at the
/// bottom; with no cursor yet, the first entry. An empty list keeps the
/// cursor away.
pub open spec fn cursor_down(v: AppView) -> Option<int> {
    let n = current_entry_count(v);
    if n == 0 {
        None
    } else {
        match v.list_selection {
            None => Some(0int),
            Some(i) => Some(if i + 1 < n { i + 1 } else { n - 1 }),
        }
    }
}

/// Both scroll offsets returned to zero; the multipliers are kept.
pub open spec fn scroll_zeroed(s: ScrollView) -> ScrollView {
    ScrollView { v_value: 0, h_value: 0, ..s }
}

/// The vertical axis after a scroll of magnitude `m`; a step that would leave
/// the `u16` range changes nothing.
pub open spec fn vertical_scrolled(s: ScrollView, m: int, increase: bool) -> ScrollView {
    match scroll_step(s.v_value, s.v_factor, m, increase) {
        Some(nv) => ScrollView { v_value: nv, ..s },
        None => s,
    }
}

/// The horizontal axis after a scroll of magnitude `m`; a step that would
/// leave the `u16` range changes nothing.
pub open spec fn horizontal_scrolled(s: ScrollView, m: int, increase: bool) -> ScrollView {
    match scroll_step(s.h_value, s.h_factor, m, increase) {
        Some(nv) => ScrollView { h_value: nv, ..s },
        None => s,
    }
}

/// One step of the selection screen: quit raises the exit flag; up and down
/// move the list cursor, clamped at the list bounds; left and right move to
/// the neighbouring feed when one exists and clear the cursor; the reset key
/// clears the cursor; enter, with an entry highlighted, switches to the
/// article screen, captures that entry, and renders its body.
pub open spec fn selection_step(pre: AppView, key: Key) -> AppView {
    match key {
        Key::Quit => AppView { exit: true, ..pre },
        Key::Up => AppView { list_selection: cursor_up(pre), ..pre },
        Key::Down => AppView { list_selection: cursor_down(pre), ..pre },
        Key::Left => if pre.selected_feed_idx == 0 {
            pre
        } else {
            AppView {
                selected_feed_idx: pre.selected_feed_idx - 1,
                list_selection: None,
                ..pre
            }
        },
        Key::Right => if pre.selected_feed_idx + 1 >= pre.feeds.len() {
            pre
        } else {
            AppView {
                selected_feed_idx: pre.selected_feed_idx + 1,
                list_selection: None,
                ..pre
            }
        },
        Key::Reset => AppView { list_selection: None, ..pre },
        Key::Enter => match pre.list_selection {
            Some(i) => match pre.feeds[pre.selected_feed_idx] {
                FeedSlotView::Loaded(f) => {
                    let entry = f.filtered_entries[i];
                    AppView {
                        screen: CurrentScreen::SingleArticle,
                        selected_entry: Some(entry),
                        buffered_render: rendered_of(entry),
                        ..pre
                    }
                },
                _ => pre,
            },
            None => pre,
        },
        _ => pre,
    }
}

/// One step of the article screen: quit returns to the selection screen,
/// clears the captured entry, and returns both scroll offsets to zero; the
/// reset key returns the offsets to zero in place; the arrow keys scroll by
/// one unit and the page keys by ten, each step reapplying the axis factor.
pub open spec fn article_step(pre: AppView, key: Key) -> AppView {
    match key {
        Key::Quit => AppView {
            screen: CurrentScreen::Selection,
            selected_entry: None,
            scroll: scroll_zeroed(pre.scroll),
            ..pre
        },
        Key::Reset => AppView { scroll: scroll_zeroed(pre.scroll), ..pre },
        Key::PageUp => AppView { scroll: vertical_scrolled(pre.scroll, 10, false), ..pre },
        Key::PageDown => AppView { scroll: vertical_scrolled(pre.scroll, 10, true), ..pre },
        Key::Up => AppView { scroll: vertical_scrolled(pre.scroll, 1, false), ..pre },
        Key::Down => AppView { scroll: vertical_scrolled(pre.scroll, 1, true), ..pre },
        Key::Left => AppView { scroll: horizontal_scrolled(pre.scroll, 1, false), ..pre },
        Key::Right => AppView { scroll: horizontal_scrolled(pre.scroll, 1, true), ..pre },
        _ => pre,
    }
}

impl App {
    /// A fresh controller over a non-empty feed collection: selection screen,
    /// first feed selected, no cursor, no captured entry, scroll axes taken
    /// from the configuration's line and factor values.
    pub fn new(feeds: Vec<FeedSlot>, config: Config) -> (r: App)
        requires
            feeds@.len() > 0,
        ensures
            wf(r@),
            r.feeds == feeds,
            r.config == config,
            r@.screen is Selection,
            r@.selected_feed_idx == 0,
            !r@.exit,
            r@.list_selection is None,
            r@.selected_entry is None,
            r@.buffered_render is None,
            r@.scroll == (ScrollView {
                v_value: config.scrolling.y_lines as int,
                v_factor: config.scrolling.y_factor as int,
                h_value: config.scrolling.x_lines as int,
                h_factor: config.scrolling.x_factor as int,
            }),
    {
        let scroll_number = ScrollState {
            vertical: ScrollUnitVertical {
                value: config.scrolling.y_lines,
                factor: config.scrolling.y_factor,
            },
            horizontal: ScrollUnitHorizontal {
                value: config.scrolling.x_lines,
                factor: config.scrolling.x_factor,
            },
        };
        App {
            feeds,
            exit: false,
            screen: CurrentScreen::Selection,
            selected_feed_idx: 0,
            list_selection: None,
            selected_entry: None,
            scroll_number,
            buffered_render: None,
            config,
        }
    }

    /// How many entries the selected feed's list shows.
    pub fn current_entry_count(&self) -> (r: usize)
        requires
            wf(self@),
        ensures
            r == current_entry_count(self@),
    {
        match &self.feeds[self.selected_feed_idx] {
            FeedSlot::Loaded(f) => f.filtered_entries.len(),
            _ => 0,
        }
    }

    /// Handle one key on the selection screen.
    pub fn handle_key_selection(&mut self, key: Key)
        requires
            wf(old(self)@),
            old(self)@.screen is Selection,
        ensures
            wf(final(self)@),
            final(self)@ == selection_step(old(self)@, key),
            final(self).feeds == old(self).feeds,
            final(self).config == old(self).config,
    {
        match key {
            Key::Quit => {
                self.exit = true;
            },
            Key::Up => {
                let n = self.current_entry_count();
                if n > 0 {
                    let ns: usize = match self.list_selection {
                        None => n - 1,
                        Some(idx) => if idx == 0 {
                            0
                        } else {
                            idx - 1
                        },
                    };
                    self.list_selection = Some(ns);
                }
            },
            Key::Down => {
                let n = self.current_entry_count();
                if n > 0 {
                    let ns: usize = match self.list_selection {
                        None => 0,
                        Some(idx) => if idx + 1 < n {
                            idx + 1
                        } else {
                            n - 1
                        },
                    };
                    self.list_selection = Some(ns);
                }
            },
            Key::Left => {
                if self.selected_feed_idx > 0 {
                    self.list_selection = None;
                    self.selected_feed_idx = self.selected_feed_idx - 1;
                }
            },
            Key::Right => {
                let last = self.feeds.len() - 1;
                if self.selected_feed_idx < last {
                    self.list_selection = None;
                    self.selected_feed_idx = self.selected_feed_idx + 1;
                }
            },
            Key::Reset => {
                self.list_selection = None;
            },
            Key::Enter => {
                match self.list_selection {
                    Some(i) => {
                        let entry = match &self.feeds[self.selected_feed_idx] {
                            FeedSlot::Loaded(f) => f.filtered_entries[i].clone(),
                            _ => unreached(),
                        };
                        self.screen = CurrentScreen::SingleArticle;
                        self.buffered_render = render_entry_body(&entry);
                        self.selected_entry = Some(entry);
                    },
                    None => {},
                }
            },
            _ => {},
        }
    }

    /// Handle one key on the article screen.
    pub fn handle_key_article(&mut self, key: Key)
        requires
            wf(old(self)@),
            old(self)@.screen is SingleArticle,
        ensures
            wf(final(self)@),
            final(self)@ == article_step(old(self)@, key),
            final(self).feeds == old(self).feeds,
            final(self).config == old(self).config,
    {
        match key {
            Key::Quit => {
                self.screen = CurrentScreen::Selection;
                self.selected_entry = None;
                self.scroll_number.reset();
            },
            Key::Reset => {
                self.scroll_number.reset();
            },
            Key::PageUp => {
                let _ = self.scroll_number.vertical.scroll(10, ScrollDirectionVertical::Up);
            },
            Key::PageDown => {
                let _ = self.scroll_number.vertical.scroll(10, ScrollDirectionVertical::Down);
            },
            Key::Up => {
                let _ = self.scroll_number.vertical.scroll(1, ScrollDirectionVertical::Up);
            },
            Key::Down => {
                let _ = self.scroll_number.vertical.scroll(1, ScrollDirectionVertical::Down);
            },
            Key::Left => {
                let _ = self.scroll_number.horizontal.scroll(1, ScrollDirectionHorizontal::Left);
            },
            Key::Right => {
                let _ = self.scroll_number.horizontal.scroll(1, ScrollDirectionHorizontal::Right);
            },
            _ => {},
        }
    }

    /// Dispatch one key to the handler of the current screen.
    pub fn handle_key(&mut self, key: Key)
        requires
            wf(old(self)@),
        ensures
            wf(final(self)@),
            old(self)@.screen is Selection ==> final(self)@ == selection_step(old(self)@, key),
            old(self)@.screen is SingleArticle ==> final(self)@ == article_step(old(self)@, key),
            final(self).feeds == old(self).feeds,
            final(self).config == old(self).config,
    {
        match self.screen {
            CurrentScreen::Selection => self.handle_key_selection(key),
            CurrentScreen::SingleArticle => self.handle_key_article(key),
        }
    }

    /// Store the external formatter's output as the displayed text. The
    /// library renders the unpiped text itself; the process around it pipes
    /// that text through the configured renderer command and hands the result
    /// back here, leaving the fallback in place when the command fails.
    pub fn set_rendered_text(&mut self, text: String)
        ensures
            final(self)@ == (AppView { buffered_render: Some(text@), ..old(self)@ }),
            final(self).feeds == old(self).feeds,
            final(self).config == old(self).config,
            wf(old(self)@) ==> wf(final(self)@),
    {
        self.buffered_render = Some(text);
    }
}

/// Navigation clamping law: on the selection screen, "left" at the first feed
/// and "right" at the last feed leave the selected index unchanged.
pub proof fn lemma_navigation_clamping(pre: AppView)
    ensures
        pre.selected_feed_idx == 0 ==> selection_step(pre, Key::Left).selected_feed_idx == 0,
        pre.selected_feed_idx == pre.feeds.len() - 1 ==> selection_step(
            pre,
            Key::Right,
        ).selected_feed_idx == pre.selected_feed_idx,
{
}

/// Screen transition law, entering: with an entry highlighted, "enter" moves
/// to the article screen, captures exactly the highlighted entry, renders its
/// body, and leaves the scroll state as it was.
pub proof fn lemma_enter_transition(pre: AppView, i: int)
    requires
        wf(pre),
        pre.list_selection == Some(i),
    ensures
        selection_step(pre, Key::Enter).screen is SingleArticle,
        pre.feeds[pre.selected_feed_idx] matches FeedSlotView::Loaded(f) && selection_step(
            pre,
            Key::Enter,
        ).selected_entry == Some(f.filtered_entries[i]),
        selection_step(pre, Key::Enter).scroll == pre.scroll,
        selection_step(pre, Key::Enter).selected_feed_idx == pre.selected_feed_idx,
{
}

/// Screen transition law, leaving: "quit"/"escape" on the article screen
/// returns to the selection screen, clears the captured entry, and returns
/// both scroll offsets to zero, keeping the factors.
pub proof fn lemma_escape_transition(pre: AppView)
    ensures
        article_step(pre, Key::Quit).screen is Selection,
        article_step(pre, Key::Quit).selected_entry is None,
        article_step(pre, Key::Quit).scroll.v_value == 0,
        article_step(pre, Key::Quit).scroll.h_value == 0,
        article_step(pre, Key::Quit).scroll.v_factor == pre.scroll.v_factor,
        article_step(pre, Key::Quit).scroll.h_factor == pre.scroll.h_factor,
{
}

} // verus!
