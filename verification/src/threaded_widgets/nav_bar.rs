//! The navigation bar: back, forward, home, refresh, and a url to edit, paste and submit.
use vstd::prelude::*;

use super::Config;
use crate::browser_widgets::NavCommand;

verus! {

/// The events of the navigation bar.
#[derive(Debug, Clone)]
pub enum Event {
    Backward,
    Forward,
    Refresh,
    Home,
    UrlChanged(String),
    UrlPasted(String),
    UrlSubmitted,
}

/// Handles an event of the navigation bar, whose url is `url`: the buttons ask the
/// engine to go back, forward, refresh or to the start page; an edit changes the url; a
/// pasted url is gone to and shown; submitting goes to the url shown.
pub fn nav_bar_update(url: &mut String, config: &Config, event: Event) -> (res: NavCommand)
    ensures
        match event {
            Event::Backward => res == NavCommand::GoBack && *final(url) == *old(url),
            Event::Forward => res == NavCommand::GoForward && *final(url) == *old(url),
            Event::Refresh => res == NavCommand::Refresh && *final(url) == *old(url),
            Event::Home => res == NavCommand::GoTo(config.start_page) && *final(url) == *old(url),
            Event::UrlChanged(u) => res == NavCommand::Stay && *final(url) == u,
            Event::UrlPasted(u) => res == NavCommand::GoTo(u) && *final(url) == u,
            Event::UrlSubmitted => res == NavCommand::GoTo(*old(url)) && *final(url) == *old(url),
        },
{
    match event {
        Event::Backward => NavCommand::GoBack,
        Event::Forward => NavCommand::GoForward,
        Event::Refresh => NavCommand::Refresh,
        Event::Home => NavCommand::GoTo(config.start_page.clone()),
        Event::UrlChanged(u) => {
            *url = u;
            NavCommand::Stay
        },
        Event::UrlPasted(u) => {
            *url = u.clone();
            NavCommand::GoTo(u)
        },
        Event::UrlSubmitted => NavCommand::GoTo(url.clone()),
    }
}

} // verus!
