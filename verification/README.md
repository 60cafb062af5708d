# icy_browser

Browser widgets for iced: tabs, a navigation bar, a bookmark bar, a command palette and
keyboard shortcuts around a browser engine.

The library in `src/` is verified with Verus: each public function states what it does
in its `requires` and `ensures`, over plain values (`Seq`, integers, the views of the
library's types).

- `engines/`: the tabs of an engine, with their history; the `BrowserEngine` trait an
  engine implements; for an Ultralight engine, the translation of keys, mouse events and
  cursors.
- `widgets/`: the browser widget (`IcyBrowser`), its messages and its update function,
  the command palette and the command window.
- `helpers.rs`: urls (parsed with the `url` crate), bookmarks, images.
- `selection.rs`, `text.rs`: moving a selection through a list, string search.
- `shortcut.rs`, `input.rs`: keyboard shortcuts and the input events they read.
- `browser_widgets/`, `threaded_widgets/`, `nav_bar.rs`, `tab_bar.rs`: the navigation
  and tab bars' decisions.
- `laws.rs`: properties that relate several calls.

`app/` holds the iced front end: it converts window events into the library's input
values, draws the widgets and turns the library's tasks into iced tasks.
