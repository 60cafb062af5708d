//! The navigation bar: back, forward, home, refresh, and a url to edit and go to.
use vstd::prelude::*;

use super::{Config, NavCommand};

verus! {

/// The events of the navigation bar.
#[derive(Debug, Clone)]
pub enum Event {
    Backward,
    Forward,
    Refresh,
    Home,
    UrlEdited(String),
    UrlChanged(String),
}

/// Handles an event of the navigation bar, whose edited url is `url`: the buttons ask the
/// engine to go back, forward, refresh or to the start page; an edit changes the url; a
/// submitted url is gone to.
pub fn nav_bar_update(url: &mut String, config: &Config, event: Event) -> (res: NavCommand)
    ensures
        match event {
            Event::Backward => res == NavCommand::GoBack && *final(url) == *old(url),
            Event::Forward => res == NavCommand::GoForward && *final(url) == *old(url),
            Event::Refresh => res == NavCommand::Refresh && *final(url) == *old(url),
            Event::Home => res == NavCommand::GoTo(config.start_page) && *final(url) == *old(url),
            Event::UrlEdited(u) => res == NavCommand::Stay && *final(url) == u,
            Event::UrlChanged(u) => res == NavCommand::GoTo(u) && *final(url) == *old(url),
        },
{
    match event {
        Event::Backward => NavCommand::GoBack,
        Event::Forward => NavCommand::GoForward,
        Event::Refresh => NavCommand::Refresh,
        Event::Home => NavCommand::GoTo(config.start_page.clone()),
        Event::UrlEdited(u) => {
            *url = u;
            NavCommand::Stay
        },
        Event::UrlChanged(u) => NavCommand::GoTo(u),
    }
}

} // verus!
