use icy_browser::browser_widgets::nav_bar::{nav_bar_update, Event};
use icy_browser::browser_widgets::{Config, NavCommand};
use icy_browser::threaded_widgets::nav_bar::{nav_bar_update as threaded_update, Event as ThreadedEvent};
use icy_browser::threaded_widgets::Config as ThreadedConfig;

#[test]
fn config_defaults_to_google() {
    assert_eq!(Config::default().start_page, "https://google.com");
    assert_eq!(ThreadedConfig::default().start_page, "https://google.com");
}

#[test]
fn nav_bar_buttons_leave_the_url() {
    let config = Config { start_page: "https://start.org".into() };
    let mut url = String::from("https://now.org");
    assert_eq!(nav_bar_update(&mut url, &config, Event::Backward), NavCommand::GoBack);
    assert_eq!(nav_bar_update(&mut url, &config, Event::Forward), NavCommand::GoForward);
    assert_eq!(nav_bar_update(&mut url, &config, Event::Refresh), NavCommand::Refresh);
    assert_eq!(
        nav_bar_update(&mut url, &config, Event::Home),
        NavCommand::GoTo("https://start.org".into())
    );
    assert_eq!(url, "https://now.org");
}

#[test]
fn nav_bar_edit_then_submit() {
    let config = Config::default();
    let mut url = String::new();
    assert_eq!(nav_bar_update(&mut url, &config, Event::UrlEdited("rust-lang.org".into())), NavCommand::Stay);
    assert_eq!(url, "rust-lang.org");
    assert_eq!(
        nav_bar_update(&mut url, &config, Event::UrlChanged("docs.rs".into())),
        NavCommand::GoTo("docs.rs".into())
    );
    assert_eq!(url, "rust-lang.org");
}

#[test]
fn threaded_nav_bar_paste_and_submit() {
    let config = ThreadedConfig { start_page: "https://home.org".into() };
    let mut url = String::from("a");
    assert_eq!(threaded_update(&mut url, &config, ThreadedEvent::UrlChanged("b".into())), NavCommand::Stay);
    assert_eq!(url, "b");
    assert_eq!(threaded_update(&mut url, &config, ThreadedEvent::UrlSubmitted), NavCommand::GoTo("b".into()));
    assert_eq!(
        threaded_update(&mut url, &config, ThreadedEvent::UrlPasted("c".into())),
        NavCommand::GoTo("c".into())
    );
    assert_eq!(url, "c");
    assert_eq!(
        threaded_update(&mut url, &config, ThreadedEvent::Home),
        NavCommand::GoTo("https://home.org".into())
    );
    assert_eq!(threaded_update(&mut url, &config, ThreadedEvent::Backward), NavCommand::GoBack);
    assert_eq!(threaded_update(&mut url, &config, ThreadedEvent::Forward), NavCommand::GoForward);
    assert_eq!(threaded_update(&mut url, &config, ThreadedEvent::Refresh), NavCommand::Refresh);
    assert_eq!(url, "c");
}
