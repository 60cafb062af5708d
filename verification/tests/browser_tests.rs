use std::cell::RefCell;

use icy_browser::engines::{BrowserEngine, EngineLog};
use icy_browser::input::{
    Event, Interaction, Key, KeyboardEvent, Location, Modifiers, MouseEvent, NamedKey, Point,
    ScrollDelta, Size,
};
use icy_browser::shortcut::{Shortcut, ShortcutModifier};
use icy_browser::widgets::{
    HomepageType, IcyBrowser, Message, ResultType, TabSelectionType, Task,
};
use icy_browser::{Bookmark, PixelFormat, Tab, TabInfo, Tabs, Url};

struct FakeInfo {
    url: String,
    title: String,
}

impl TabInfo for FakeInfo {
    // The library states the tab's contract over these functions; no code calls them.
    fn reports_url(&self, _url: String) -> bool {
        unreachable!()
    }

    fn reports_title(&self, _title: String) -> bool {
        unreachable!()
    }

    fn url(&self) -> String {
        self.url.clone()
    }

    fn title(&self) -> String {
        self.title.clone()
    }
}

/// An engine that opens pages instantly and records where it was sent.
struct FakeEngine {
    tabs: Tabs<FakeInfo>,
    visited: RefCell<Vec<String>>,
    refreshed: RefCell<u32>,
    size: Size,
}

impl BrowserEngine for FakeEngine {
    type Info = FakeInfo;

    // The library states the engine's contract over these functions; no code calls them.
    fn spec_tabs(&self) -> Tabs<FakeInfo> {
        unreachable!()
    }

    // Likewise for the log of requests and the pixels the engine may give.
    fn spec_log(&self) -> EngineLog {
        unreachable!()
    }

    fn renders(&self, _buffer: (PixelFormat, Vec<u8>)) -> bool {
        unreachable!()
    }

    fn new() -> Self {
        FakeEngine {
            tabs: Tabs::new(),
            visited: RefCell::new(Vec::new()),
            refreshed: RefCell::new(0),
            size: Size::new(0, 0),
        }
    }

    fn do_work(&self) {}

    fn need_render(&self) -> bool {
        true
    }

    fn force_need_render(&self) {}

    fn render(&mut self) {}

    fn size(&self) -> (u32, u32) {
        (self.size.width, self.size.height)
    }

    fn resize(&mut self, size: Size) {
        self.size = size;
    }

    fn pixel_buffer(&mut self) -> (PixelFormat, Vec<u8>) {
        (PixelFormat::Bgra, vec![1, 2, 3, 4])
    }

    fn get_cursor(&self) -> Interaction {
        Interaction::Idle
    }

    fn goto_url(&mut self, url: &Url) {
        self.visited.borrow_mut().push(url.as_str().to_string());
    }

    fn has_loaded(&self) -> bool {
        true
    }

    fn new_tab(&mut self, url: Url, _size: Size) -> Tab<FakeInfo> {
        Tab::new(FakeInfo { url: url.as_str().to_string(), title: "page".to_string() })
    }

    fn get_tabs(&self) -> &Tabs<FakeInfo> {
        &self.tabs
    }

    fn get_tabs_mut(&mut self) -> &mut Tabs<FakeInfo> {
        &mut self.tabs
    }

    fn refresh(&mut self) {
        *self.refreshed.borrow_mut() += 1;
    }

    fn go_forward(&mut self) {}

    fn go_back(&mut self) {}

    fn focus(&self) {}

    fn unfocus(&self) {}

    fn scroll(&self, _delta: ScrollDelta) {}

    fn handle_keyboard_event(&mut self, _event: KeyboardEvent) {}

    fn handle_mouse_event(&mut self, _point: Point, _event: MouseEvent) {}
}

fn browser() -> IcyBrowser<FakeEngine> {
    IcyBrowser::<FakeEngine>::new().build()
}

fn pressed(key: Key, modifiers: Modifiers, text: Option<&str>) -> KeyboardEvent {
    KeyboardEvent::KeyPressed {
        key: key.clone(),
        modified_key: key,
        location: Location::Standard,
        modifiers,
        text: text.map(|t| t.to_string()),
    }
}

fn palette_key(b: &mut IcyBrowser<FakeEngine>, key: Key, text: Option<&str>) -> Task {
    b.update(Message::CommandPaletteKeyboardEvent(Some(pressed(key, Modifiers::default(), text))))
}

#[test]
fn browser_new_has_defaults() {
    let b = IcyBrowser::<FakeEngine>::new();
    assert_eq!(b.home().as_str(), "https://google.com/");
    assert_eq!(b.nav_url(), "");
    assert!(!b.tab_bar_shown());
    assert!(!b.nav_bar_shown());
    assert!(!b.bookmark_bar_shown());
    assert!(!b.overlay_shown());
    assert!(b.bookmark_list().is_none());
    assert_eq!(b.view_size(), Size::new(800, 800));
    assert_eq!(b.engine().get_tabs().tabs().len(), 0);
    assert_eq!(b.palette().possible_results.len(), 16);
}

#[test]
fn browser_build_opens_home_tab() {
    let b = browser();
    let tabs = b.engine().get_tabs();
    assert_eq!(tabs.tabs().len(), 1);
    assert_eq!(tabs.get_current().url(), "https://google.com/");
    assert_eq!(b.nav_url(), "https://google.com/");
    assert_eq!(b.engine().visited.borrow().as_slice(), ["https://google.com/".to_string()]);
    // the first render shows the engine's pixels with red and blue swapped
    assert_eq!(tabs.get_current().get_view().pixels, vec![3, 2, 1, 4]);
    // the engine is sized like the view
    assert_eq!(b.engine().size(), (800, 800));
}

#[test]
fn browser_homepage_and_builders() {
    let b = IcyBrowser::<FakeEngine>::new()
        .with_homepage(HomepageType::Url("https://example.org"))
        .with_tab_bar()
        .with_nav_bar()
        .with_bookmark_bar()
        .bookmarks(&[Bookmark::new("https://rust-lang.org", "rust")]);
    assert_eq!(b.home().as_str(), "https://example.org/");
    assert!(b.tab_bar_shown() && b.nav_bar_shown() && b.bookmark_bar_shown());
    assert_eq!(b.bookmark_list().unwrap().len(), 1);
    assert_eq!(b.palette().possible_results.len(), 17);
    let b = b.build();
    assert_eq!(b.nav_url(), "https://example.org/");
}

#[test]
fn browser_try_with_homepage_refuses_bad_input() {
    let b = IcyBrowser::<FakeEngine>::new();
    let b = match b.try_with_homepage(HomepageType::Custom("<h1>hi</h1>")) {
        Ok(_) => panic!("html is no url"),
        Err(b) => b,
    };
    let b = match b.try_with_homepage(HomepageType::Url("not a url")) {
        Ok(_) => panic!("a relative path is no url"),
        Err(b) => b,
    };
    assert_eq!(b.home().as_str(), "https://google.com/");
    let b = match b.try_with_homepage(HomepageType::Url("https://a.org")) {
        Ok(b) => b,
        Err(_) => panic!("a full url parses"),
    };
    assert_eq!(b.home().as_str(), "https://a.org/");
}

#[test]
fn browser_toggles_twice_restore() {
    let mut b = browser();
    assert_eq!(b.update(Message::ToggleTabBar), Task::Nothing);
    assert!(b.tab_bar_shown());
    b.update(Message::ToggleTabBar);
    assert!(!b.tab_bar_shown());
    b.update(Message::ShowNavBar);
    assert!(b.nav_bar_shown());
    b.update(Message::ToggleNavBar);
    assert!(!b.nav_bar_shown());
    b.update(Message::ShowBookmarkBar);
    b.update(Message::HideBookmarkBar);
    assert!(!b.bookmark_bar_shown());
}

#[test]
fn browser_overlay_messages() {
    let mut b = browser();
    assert_eq!(b.update(Message::ToggleOverlay), Task::Done(Message::ShowOverlay));
    assert_eq!(b.update(Message::ShowOverlay), Task::FocusNext);
    assert!(b.overlay_shown());
    assert_eq!(b.update(Message::ToggleOverlay), Task::Done(Message::HideOverlay));
    assert_eq!(b.update(Message::HideOverlay), Task::FocusNext);
    assert!(!b.overlay_shown());
}

#[test]
fn browser_create_change_and_close_tabs() {
    let mut b = browser();
    let first = b.engine().get_tabs().get_current_id();
    b.update(Message::CreateTab);
    let second = b.engine().get_tabs().get_current_id();
    assert_eq!(b.engine().get_tabs().tabs().len(), 2);
    assert_ne!(first, second);
    b.update(Message::ChangeTab(TabSelectionType::Index(0)));
    assert_eq!(b.engine().get_tabs().get_current_id(), first);
    assert_eq!(
        b.update(Message::CloseCurrentTab),
        Task::Done(Message::CloseTab(TabSelectionType::Id(first)))
    );
    b.update(Message::CloseTab(TabSelectionType::Id(first)));
    assert_eq!(b.engine().get_tabs().tabs().len(), 1);
    assert_eq!(b.engine().get_tabs().get_current_id(), second);
}

#[test]
fn browser_closing_last_tab_opens_a_new_one() {
    let mut b = browser();
    let only = b.engine().get_tabs().get_current_id();
    b.update(Message::CloseTab(TabSelectionType::Id(only)));
    let tabs = b.engine().get_tabs();
    assert_eq!(tabs.tabs().len(), 1);
    assert_ne!(tabs.get_current_id(), only);
    assert_eq!(tabs.get_current().url(), "https://google.com/");
}

#[test]
fn browser_navigation_messages() {
    let mut b = browser();
    b.update(Message::GoToUrl("example.com".to_string()));
    b.update(Message::GoHome);
    b.update(Message::Refresh);
    assert_eq!(
        b.engine().visited.borrow().as_slice(),
        [
            "https://google.com/".to_string(),
            "https://example.com/".to_string(),
            "https://google.com/".to_string()
        ]
    );
    assert_eq!(*b.engine().refreshed.borrow(), 1);
    b.update(Message::UrlChanged("typed".to_string()));
    assert_eq!(b.nav_url(), "typed");
    b.update(Message::UpdateUrl);
    assert_eq!(b.nav_url(), "https://google.com/");
}

#[test]
fn browser_view_size_follows_window() {
    let mut b = browser();
    assert_eq!(b.update(Message::UpdateViewSize(Size::new(300, 200))), Task::Nothing);
    assert_eq!(b.view_size(), Size::new(300, 200));
    assert_eq!(b.engine().size(), (300, 200));
    assert_eq!(b.force_update(), Task::Nothing);
    assert_eq!(b.engine().get_tabs().get_current().get_view().pixels, vec![3, 2, 1, 4]);
}

#[test]
fn browser_palette_typing_and_submit() {
    let mut b = browser();
    assert_eq!(
        palette_key(&mut b, Key::Character("r".into()), Some("r")),
        Task::Done(Message::CommandPaletteQueryChanged)
    );
    assert_eq!(
        palette_key(&mut b, Key::Character("e".into()), Some("e")),
        Task::Done(Message::CommandPaletteQueryChanged)
    );
    b.update(Message::CommandPaletteQueryChanged);
    assert_eq!(b.palette().query, "re");
    // "Refresh", the tab and the url "https://re/" match "re"
    assert!(b.palette().filtered_results.contains(&ResultType::Command(Message::Refresh)));
    assert_eq!(palette_key(&mut b, Key::Named(NamedKey::ArrowDown), None), Task::Nothing);
    let selected = b.palette().selected_item.clone();
    assert!(selected.is_some());
    assert_eq!(palette_key(&mut b, Key::Named(NamedKey::Backspace), None),
        Task::Done(Message::CommandPaletteQueryChanged));
    assert_eq!(b.palette().query, "r");
    assert_eq!(palette_key(&mut b, Key::Named(NamedKey::Space), None),
        Task::Done(Message::CommandPaletteQueryChanged));
    assert_eq!(b.palette().query, "r ");
}

#[test]
fn browser_palette_enter_runs_selected_command() {
    let mut b = browser();
    palette_key(&mut b, Key::Named(NamedKey::ArrowDown), None);
    let task = palette_key(&mut b, Key::Named(NamedKey::Enter), None);
    assert_eq!(task, Task::Batch(vec![Message::GoBackward, Message::HideOverlay]));
    assert_eq!(b.palette().query, "");
    assert!(b.palette().selected_item.is_none());
}

#[test]
fn browser_palette_enter_without_selection_is_an_error() {
    let mut b = browser();
    assert_eq!(palette_key(&mut b, Key::Named(NamedKey::Enter), None), Task::Nothing);
    assert!(b.palette().has_error);
    palette_key(&mut b, Key::Character("x".into()), Some("x"));
    assert!(!b.palette().has_error);
}

#[test]
fn browser_palette_escape_hides() {
    let mut b = browser();
    palette_key(&mut b, Key::Character("x".into()), Some("x"));
    assert_eq!(
        palette_key(&mut b, Key::Named(NamedKey::Escape), None),
        Task::Done(Message::HideOverlay)
    );
    assert_eq!(b.palette().query, "");
}

#[test]
fn browser_window_events_trigger_shortcuts() {
    let shortcuts = vec![Shortcut::new(Message::ToggleTabBar, ShortcutModifier::Ctrl, "t")];
    let mut b = IcyBrowser::<FakeEngine>::new().with_custom_shortcuts(shortcuts).build();
    let ctrl = Modifiers { control: true, ..Modifiers::default() };
    let t = Event::Keyboard(pressed(Key::Character("t".into()), ctrl, Some("t")));
    assert_eq!(b.update(Message::IcedEvent(Some(t))), Task::Done(Message::ToggleTabBar));
    let r = Event::Keyboard(pressed(Key::Character("r".into()), ctrl, Some("r")));
    assert_eq!(b.update(Message::IcedEvent(Some(r))), Task::Done(Message::Refresh));
    let plain = Event::Keyboard(pressed(Key::Character("t".into()), Modifiers::default(), Some("t")));
    assert_eq!(b.update(Message::IcedEvent(Some(plain))), Task::Nothing);
    b.update(Message::ShowOverlay);
    let esc = Event::Keyboard(pressed(Key::Named(NamedKey::Escape), Modifiers::default(), None));
    assert_eq!(b.update(Message::IcedEvent(Some(esc))), Task::Done(Message::HideOverlay));
    assert_eq!(b.update(Message::IcedEvent(None)), Task::Nothing);
}

#[test]
fn browser_palette_hide_shortcut() {
    let shortcuts = vec![Shortcut::new(Message::ToggleOverlay, ShortcutModifier::Ctrl, "e")];
    let mut b = IcyBrowser::<FakeEngine>::new().with_custom_shortcuts(shortcuts).build();
    palette_key(&mut b, Key::Character("q".into()), Some("q"));
    let task = b.update(Message::CommandPaletteKeyboardEvent(Some(pressed(
        Key::Character("e".into()),
        Modifiers { control: true, ..Modifiers::default() },
        Some("e"),
    ))));
    assert_eq!(task, Task::Done(Message::HideOverlay));
    assert_eq!(b.palette().query, "");
}

#[test]
fn browser_ignores_a_url_that_does_not_parse() {
    let mut b = browser();
    assert_eq!(b.update(Message::GoToUrl("http://[::1".to_string())), Task::Nothing);
    assert_eq!(b.engine().visited.borrow().as_slice(), ["https://google.com/".to_string()]);
}

#[test]
fn browser_tabs_ready_checks() {
    let b = IcyBrowser::<FakeEngine>::new();
    assert!(!b.engine().get_tabs().current_is_open());
    assert!(b.engine().get_tabs().history_is_open());
    let mut b = b.build();
    assert!(b.engine().get_tabs().current_is_open());
    b.update(Message::CreateTab);
    b.update(Message::ChangeTab(TabSelectionType::Index(0)));
    assert!(b.engine().get_tabs().history_is_open());
}

#[test]
fn browser_window_shortcut_needs_no_tab() {
    let shortcuts = vec![Shortcut::new(Message::ToggleTabBar, ShortcutModifier::Ctrl, "t")];
    let mut b = IcyBrowser::<FakeEngine>::new().with_custom_shortcuts(shortcuts);
    let ctrl = Modifiers { control: true, ..Modifiers::default() };
    let t = Event::Keyboard(pressed(Key::Character("t".into()), ctrl, Some("t")));
    assert_eq!(b.update(Message::IcedEvent(Some(t))), Task::Done(Message::ToggleTabBar));
    // the modifier alone fires nothing
    let c = Event::Keyboard(pressed(Key::Named(NamedKey::Control), ctrl, None));
    let mut built = b.build();
    assert_eq!(built.update(Message::IcedEvent(Some(c))), Task::Nothing);
}
