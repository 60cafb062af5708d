//! A library of browser widgets: tabs, bookmarks, a command palette, keyboard shortcuts
//! and the state machine that drives a browser engine.
pub mod browser_widgets;
pub mod command_palette;
pub mod engines;
pub mod helpers;
pub mod input;
pub mod laws;
pub mod nav_bar;
pub mod selection;
pub mod shortcut;
pub mod tab_bar;
pub mod text;
pub mod threaded_widgets;

pub use engines::{DisplayTab, PixelFormat, Tab, TabInfo, Tabs};
pub use helpers::{to_url, Bookmark, Bookmarks, ImageInfo, Url, UrlParseError};
pub use shortcut::{shortcut_pressed, Shortcut, ShortcutModifier};
pub mod widgets;
