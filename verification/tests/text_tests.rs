use icy_browser::nav_bar::is_secure;
use icy_browser::tab_bar::{tab_title, tab_titles, active_tab_basic};
use icy_browser::text::{contains_lowercase, str_contains, str_eq, to_chars};

#[test]
fn substring_search() {
    assert!(str_contains("Go Home (Home)", "Home"));
    assert!(str_contains("abc", ""));
    assert!(!str_contains("abc", "abcd"));
    assert!(!str_contains("abc", "ac"));
    assert!(str_contains("ééa", "éa"));
}

#[test]
fn case_insensitive_search() {
    assert!(contains_lowercase("Toggle Tab Bar", "tab"));
    assert!(contains_lowercase("commands", "COMM"));
    assert!(!contains_lowercase("Bookmarks", "tabs"));
    assert!(contains_lowercase("ÀB", "àb"));
}

#[test]
fn string_equality_and_chars() {
    assert!(str_eq("r", "r"));
    assert!(!str_eq("r", "R"));
    assert!(!str_eq("ab", "a"));
    assert_eq!(to_chars("héllo"), vec!['h', 'é', 'l', 'l', 'o']);
}

#[test]
fn secure_urls_have_https() {
    assert!(is_secure("https://google.com"));
    assert!(!is_secure("http://google.com"));
}

#[test]
fn tab_labels() {
    assert_eq!(tab_title(&String::new()), "New Tab");
    assert_eq!(tab_title(&String::from("Rust")), "Rust");
    assert_eq!(
        tab_titles(&vec![String::new(), String::from("a")]),
        vec![String::from("New Tab"), String::from("a")]
    );
    assert_eq!(active_tab_basic(&vec![String::from("x"), String::from("y")], 1), (1, String::from("y")));
    assert_eq!(active_tab_basic(&vec![String::new()], 0), (0, String::from("New Tab")));
}
