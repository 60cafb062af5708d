//! The browser widgets that share one engine: their configuration and the navigation
//! bar's decisions.
use vstd::prelude::*;

pub mod nav_bar;

verus! {

/// Configures the browser widget.
#[derive(Debug, Clone)]
pub struct Config {
    pub start_page: String,
}

/// The page a new browser starts on.
pub open spec fn default_start_page() -> Seq<char> {
    "https://google.com"@
}

impl Default for Config {
    fn default() -> (res: Self)
        ensures
            res.start_page@ == default_start_page(),
    {
        Self { start_page: String::from_str("https://google.com") }
    }
}

/// What the navigation bar asks of the engine.
#[derive(Debug, Clone, PartialEq)]
pub enum NavCommand {
    GoBack,
    GoForward,
    Refresh,
    GoTo(String),
    /// Nothing.
    Stay,
}

} // verus!
