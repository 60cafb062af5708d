//! The browser widgets whose engine works on a background thread: their configuration
//! and the navigation bar's decisions.
use vstd::prelude::*;

pub mod nav_bar;

verus! {

/// Configures the browser widget.
#[derive(Debug, Clone)]
pub struct Config {
    pub start_page: String,
}

impl Default for Config {
    fn default() -> (res: Self)
        ensures
            res.start_page@ == crate::browser_widgets::default_start_page(),
    {
        Self { start_page: String::from_str("https://google.com") }
    }
}

} // verus!
