use icy_browser::command_palette::{CommandPaletteState as GenericPalette, PaletteEntry, Status};
use icy_browser::engines::DisplayTab;
use icy_browser::input::{Event, Key, KeyboardEvent, Location, Modifiers, NamedKey};
use icy_browser::selection::{list_rows, next_selected, previous_selected, ListRow};
use icy_browser::widgets::command_palette::{palette_title, results_rows, CommandPaletteState, ResultType};
use icy_browser::widgets::command_window::results::{results_list, ResultType as ListedResult};
use icy_browser::widgets::command_window::{CommandWindowState, ResultType as WindowResult};
use icy_browser::widgets::Message;
use icy_browser::Bookmark;

fn names(v: &[&str]) -> Vec<String> {
    v.iter().map(|s| s.to_string()).collect()
}

#[test]
fn selection_moves_through_names() {
    let n = names(&["a", "b", "c"]);
    assert_eq!(next_selected(&n, &None), Some("a".to_string()));
    assert_eq!(next_selected(&n, &Some("a".into())), Some("b".to_string()));
    assert_eq!(next_selected(&n, &Some("c".into())), Some("c".to_string()));
    assert_eq!(next_selected(&n, &Some("zz".into())), None);
    assert_eq!(previous_selected(&n, &Some("b".into())), Some("a".to_string()));
    assert_eq!(previous_selected(&n, &Some("a".into())), Some("a".to_string()));
    assert_eq!(previous_selected(&n, &None), Some("a".to_string()));
    assert_eq!(previous_selected(&n, &Some("zz".into())), None);
    assert_eq!(next_selected(&vec![], &Some("q".into())), Some("q".to_string()));
}

#[test]
fn rows_have_one_header_per_category() {
    let rows = list_rows(&names(&["C", "C", "B"]), &names(&["x", "y", "z"]), &Some("y".into()));
    assert_eq!(
        rows,
        vec![
            ListRow::Header("C".into()),
            ListRow::Entry { text: "   x".into(), selected: false },
            ListRow::Entry { text: "   y".into(), selected: true },
            ListRow::Header("B".into()),
            ListRow::Entry { text: "   z".into(), selected: false },
        ]
    );
}

#[test]
fn result_names_and_categories() {
    let b = Bookmark::new("https://www.rust-lang.org", "rust-lang.org");
    assert_eq!(ResultType::Bookmark(b.clone()).inner_name(), "rust-lang.org -> https://www.rust-lang.org/");
    assert_eq!(ResultType::Bookmark(b).to_string(), "Bookmarks");
    assert_eq!(ResultType::Command(Message::GoHome).inner_name(), "Go Home (Home)");
    assert_eq!(ResultType::Command(Message::GoHome).to_string(), "Commands");
    let t = DisplayTab { id: 1, title: "Rust".into(), url: "https://r.org/".into() };
    assert_eq!(ResultType::Tab(t).inner_name(), "Rust -> https://r.org/");
    assert_eq!(ResultType::Url("https://x.org/".into()).to_string(), "Url");
    assert_eq!(Message::GoToUrl("x".into()).to_string(), "Go To Url");
    assert_eq!(Message::UrlChanged("x".into()).to_string(), "UrlChanged");
    assert_eq!(Message::CreateTab.to_string(), "New Tab");
}

#[test]
fn new_palette_lists_commands_then_bookmarks() {
    let b = Bookmark::new("https://docs.rs/", "docs");
    let p = CommandPaletteState::new(Some(vec![b.clone()]));
    assert_eq!(p.possible_results.len(), 17);
    assert_eq!(p.possible_results[0], ResultType::Command(Message::GoBackward));
    assert_eq!(p.possible_results[15], ResultType::Command(Message::HideBookmarkBar));
    assert_eq!(p.possible_results[16], ResultType::Bookmark(b));
    assert_eq!(p.filtered_results, p.possible_results);
    assert_eq!(p.selected_item, None);
    assert!(!p.has_error);
    assert_eq!(CommandPaletteState::default().possible_results.len(), 16);
}

#[test]
fn palette_navigation() {
    let mut p = CommandPaletteState::new(None);
    p.previous_item();
    assert_eq!(p.selected_item.as_deref(), Some("Go Backward (Back)"));
    p.next_item();
    assert_eq!(p.selected_item.as_deref(), Some("Go Forward (Forward)"));
    p.previous_item();
    assert_eq!(p.selected_item.as_deref(), Some("Go Backward (Back)"));
    p.selected_item = Some("Hide Bookmark Bar".into());
    p.next_item();
    assert_eq!(p.selected_item.as_deref(), Some("Hide Bookmark Bar"));
    p.selected_item = Some("nothing".into());
    p.next_item();
    assert_eq!(p.selected_item, None);
}

#[test]
fn palette_filters_by_query() {
    let mut p = CommandPaletteState::new(None);
    p.query = "tab bar".into();
    p.update_filtered_results(vec![]);
    let shown: Vec<String> = p.filtered_results.iter().map(|r| r.inner_name()).collect();
    assert_eq!(shown, vec!["Toggle Tab Bar", "Show Tab Bar", "Hide Tab Bar"]);
    assert_eq!(p.selected_item.as_deref(), Some("Toggle Tab Bar"));
}

#[test]
fn palette_filter_adds_tabs_and_url() {
    let mut p = CommandPaletteState::new(None);
    p.query = "rust".into();
    let tabs = vec![
        DisplayTab { id: 1, title: "Rust".into(), url: "https://rust-lang.org/".into() },
        DisplayTab { id: 2, title: "Iced".into(), url: "https://iced.rs/".into() },
    ];
    p.update_filtered_results(tabs);
    assert_eq!(p.filtered_results.len(), 2);
    assert_eq!(p.filtered_results[0].to_string(), "Tabs");
    assert_eq!(p.filtered_results[1], ResultType::Url("https://rust/".into()));
    assert_eq!(p.selected_item.as_deref(), Some("Rust -> https://rust-lang.org/"));
}

#[test]
fn palette_category_matches_whole_group() {
    let mut p = CommandPaletteState::new(None);
    p.query = "COMMANDS".into();
    p.update_filtered_results(vec![]);
    // every command matches by its category, and the query also parses as a URL
    assert_eq!(p.filtered_results.len(), 17);
    assert_eq!(p.filtered_results[16], ResultType::Url("https://commands/".into()));
}

#[test]
fn palette_reset_and_submitted() {
    let mut p = CommandPaletteState::new(None);
    p.query = "x".into();
    p.has_error = true;
    p.filtered_results.clear();
    p.reset();
    assert_eq!(p.query, "");
    assert_eq!(p.filtered_results, p.possible_results);
    assert!(!p.has_error);
    assert!(p.submitted().is_none());
    p.first_item();
    assert_eq!(p.submitted(), Some(&ResultType::Command(Message::GoBackward)));
    assert_eq!(palette_title(&String::new()), "Command Palette");
    assert_eq!(palette_title(&"abc".to_string()), "abc");
}

#[test]
fn palette_rows() {
    let p = CommandPaletteState::new(Some(vec![Bookmark::new("https://a.org", "a")]));
    let rows = results_rows(&p.filtered_results, &Some("a -> https://a.org/".into()));
    assert_eq!(rows.len(), 17 + 2);
    assert_eq!(rows[0], ListRow::Header("Commands".into()));
    assert_eq!(rows[17], ListRow::Header("Bookmarks".into()));
    assert_eq!(rows[18], ListRow::Entry { text: "   a -> https://a.org/".into(), selected: true });
}

fn key(k: Key, text: Option<&str>) -> Event {
    Event::Keyboard(KeyboardEvent::KeyPressed {
        key: k.clone(),
        modified_key: k,
        location: Location::Standard,
        modifiers: Modifiers::default(),
        text: text.map(|t| t.to_string()),
    })
}

#[test]
fn generic_palette_handles_keys() {
    let mut p: GenericPalette<Message> =
        GenericPalette::new(vec![Message::GoHome, Message::Refresh], Some(vec![Bookmark::new("https://a.org", "a")]));
    assert_eq!(p.on_event(key(Key::Named(NamedKey::ArrowDown), None)), Status::Captured);
    assert_eq!(p.submitted(), PaletteEntry::Command(Message::GoHome));
    assert_eq!(p.on_event(key(Key::Named(NamedKey::ArrowDown), None)), Status::Captured);
    assert_eq!(p.submitted(), PaletteEntry::Command(Message::Refresh));
    assert_eq!(p.on_event(key(Key::Named(NamedKey::ArrowUp), None)), Status::Captured);
    assert_eq!(p.submitted(), PaletteEntry::Command(Message::GoHome));
    assert_eq!(p.on_event(key(Key::Character("g".into()), Some("g"))), Status::Captured);
    assert_eq!(p.query(), "g");
    assert_eq!(p.on_event(key(Key::Named(NamedKey::Enter), None)), Status::Ignored);
    assert_eq!(p.on_event(Event::Other), Status::Ignored);
    p.reset();
    assert_eq!(p.query(), "");
    let rows = p.rows();
    assert_eq!(rows.len(), 2 + 1 + 2);
}

#[test]
fn generic_palette_entry_names() {
    let e: PaletteEntry<Message> = PaletteEntry::Tab("T".into(), "https://t.org/".into());
    assert_eq!(e.inner_name(), "T: https://t.org/");
    assert_eq!(e.to_string(), "Tabs");
    let e: PaletteEntry<Message> = PaletteEntry::Empty;
    assert_eq!(e.inner_name(), "");
    assert_eq!(e.duplicate(), PaletteEntry::Empty);
}

#[test]
fn command_window_navigation() {
    let mut w = CommandWindowState::new(Some(vec![Bookmark::new("https://a.org", "a")]));
    assert_eq!(w.possible_results.len(), 6);
    assert_eq!(w.possible_results[5], WindowResult::Bookmarks(Bookmark::new("https://a.org", "a")));
    w.next_item();
    assert_eq!(w.selected_item.as_deref(), Some("Go Backward (Back)"));
    w.selected_item = Some("Close Tab".into());
    w.next_item();
    assert_eq!(w.selected_item.as_deref(), Some("Go to: https://a.org/"));
    w.next_item();
    assert_eq!(w.selected_item.as_deref(), Some("Go to: https://a.org/"));
    w.previous_item();
    assert_eq!(w.selected_item.as_deref(), Some("Close Tab"));
    assert_eq!(CommandWindowState::default().possible_results.len(), 5);
}

#[test]
fn listed_results_use_bookmark_names() {
    let results = vec![
        ListedResult::Commands(Message::Refresh),
        ListedResult::Bookmarks(Bookmark::new("https://a.org", "a")),
    ];
    assert_eq!(results[1].inner_name(), "Go to: https://a.org/");
    let rows = results_list(&results, &Some("a".into()));
    assert_eq!(rows[3], ListRow::Entry { text: "   a".into(), selected: true });
}

#[test]
fn palette_paste_sets_the_query() {
    let mut p = CommandPaletteState::new(None);
    p.query = "old".into();
    assert!(!p.paste(None));
    assert_eq!(p.query, "old");
    assert!(p.paste(Some("https://rust-lang.org".into())));
    assert_eq!(p.query, "https://rust-lang.org");
    assert_eq!(p.filtered_results.len(), 16);
}
