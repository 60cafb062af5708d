use icy_browser::engines::{Tab, TabInfo, Tabs};
use icy_browser::tab_bar::{active_tab, active_tab_advanced};
use icy_browser::ImageInfo;

struct Info(&'static str, &'static str);

impl TabInfo for Info {
    // The library states the tab's contract over these functions; no code calls them.
    fn reports_url(&self, _url: String) -> bool {
        unreachable!()
    }
    fn reports_title(&self, _title: String) -> bool {
        unreachable!()
    }
    fn url(&self) -> String {
        self.0.to_string()
    }
    fn title(&self) -> String {
        self.1.to_string()
    }
}

fn tab(id: u32) -> Tab<Info> {
    Tab::with_id(id, Info("https://a.org/", "A"))
}

#[test]
fn tab_with_id_shows_white_image() {
    let t = tab(7);
    assert_eq!(t.id(), 7);
    assert_eq!(t.url(), "https://a.org/");
    assert_eq!(t.title(), "A");
    assert_eq!(t.get_view().width, 800);
    assert_eq!(t.get_view().pixels.len(), 800 * 800 * 4);
}

#[test]
fn tab_set_view_keeps_id() {
    let mut t = tab(3);
    t.set_view(ImageInfo { pixels: vec![1, 2, 3, 4], width: 1, height: 1 });
    assert_eq!(t.id(), 3);
    assert_eq!(t.get_view().pixels, vec![1, 2, 3, 4]);
}

#[test]
fn new_tab_gets_some_id() {
    let t = Tab::new(Info("u", "t"));
    assert_eq!(t.title(), "t");
    let _ = t.id();
}

#[test]
fn insert_then_get() {
    let mut tabs: Tabs<Info> = Tabs::new();
    assert_eq!(tabs.insert(tab(10)), 10);
    assert_eq!(tabs.insert(tab(20)), 20);
    assert_eq!(tabs.tabs().len(), 2);
    assert_eq!(tabs.get(20).id(), 20);
    assert_eq!(tabs.id_to_index(20), 1);
    assert_eq!(tabs.index_to_id(0), 10);
}

#[test]
fn current_is_last_set() {
    let mut tabs: Tabs<Info> = Tabs::default();
    tabs.insert(tab(1));
    tabs.insert(tab(2));
    tabs.set_current_id(1);
    assert_eq!(tabs.get_current_id(), 1);
    tabs.set_current_id(2);
    assert_eq!(tabs.get_current_id(), 2);
    assert_eq!(tabs.get_current().id(), 2);
    assert_eq!(active_tab(&tabs), 1);
}

#[test]
fn remove_returns_previous_current() {
    let mut tabs: Tabs<Info> = Tabs::new();
    tabs.insert(tab(1));
    tabs.insert(tab(2));
    tabs.insert(tab(3));
    tabs.set_current_id(1);
    tabs.set_current_id(3);
    tabs.set_current_id(2);
    assert_eq!(tabs.remove(2), 3);
    assert_eq!(tabs.tabs().len(), 2);
    assert_eq!(tabs.index_to_id(0), 1);
    assert_eq!(tabs.index_to_id(1), 3);
    assert_eq!(tabs.remove(3), 1);
    assert_eq!(tabs.tabs().len(), 1);
    assert!(!tabs.has_other_than(1));
}

#[test]
fn remove_closes_every_tab_with_the_id() {
    let mut tabs: Tabs<Info> = Tabs::new();
    tabs.insert(tab(5));
    tabs.insert(tab(6));
    tabs.insert(tab(5));
    tabs.set_current_id(6);
    tabs.set_current_id(5);
    assert!(tabs.has_other_than(5));
    assert_eq!(tabs.remove(5), 6);
    assert_eq!(tabs.tabs().len(), 1);
    assert_eq!(tabs.index_to_id(0), 6);
}

#[test]
fn get_mut_and_current_mut_change_the_tab() {
    let mut tabs: Tabs<Info> = Tabs::new();
    tabs.insert(tab(1));
    tabs.insert(tab(2));
    tabs.set_current_id(2);
    tabs.get_current_mut().set_view(ImageInfo { pixels: vec![0; 4], width: 1, height: 1 });
    assert_eq!(tabs.get(2).get_view().width, 1);
    tabs.get_mut(1).set_view(ImageInfo { pixels: vec![], width: 0, height: 0 });
    assert_eq!(tabs.get(1).get_view().height, 0);
}

#[test]
fn display_tabs_lists_titles_and_urls() {
    let mut tabs: Tabs<Info> = Tabs::new();
    tabs.insert(tab(4));
    tabs.insert(Tab::with_id(9, Info("https://b.org/", "B")));
    let shown = tabs.display_tabs();
    assert_eq!(shown.len(), 2);
    assert_eq!(shown[1].id, 9);
    assert_eq!(shown[1].title, "B");
    assert_eq!(shown[1].url, "https://b.org/");
    assert_eq!(shown[0].duplicate(), shown[0]);
}

#[test]
fn advanced_tab_bar_finds_active() {
    let tabs = vec![(3, String::from("x")), (8, String::from("y")), (8, String::from("z"))];
    assert_eq!(active_tab_advanced(&tabs, 8), (8, String::from("y")));
}
