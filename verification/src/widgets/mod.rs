//! The browser widget: its messages and the state machine that drives an engine.
use vstd::prelude::*;

use clipboard_rs::Clipboard;

use crate::engines::{
    ids_of, law_insert_keeps_history_open, law_insert_select_keeps_tabs_in_history,
    law_remove_keeps_history_open, law_remove_keeps_tabs_in_history,
    law_select_keeps_history_open, law_select_keeps_tabs_in_history, lemma_ids_of_filter, lemma_ids_of_update, other_than,
    without, BrowserEngine, DisplayTab, EngineRequest, PixelFormat, Tabs,
};
use crate::helpers::{parse_url, spec_parse_url, spec_to_url, to_url, Bookmark, Bookmarks, ImageInfo, Url};
use crate::input::{
    duplicate_key_event, Event, Key, KeyboardEvent, Modifiers, MouseEvent, NamedKey, Point, Size,
};
use crate::selection::{next_selection, previous_selection};
use crate::shortcut::Shortcut;
use crate::text::str_eq;

use command_palette::{filtered_for, reset_of, submission};

pub mod command_palette;
pub mod command_window;
pub mod nav_bar;

pub use command_palette::{CommandPaletteState, ResultType};
pub use nav_bar::NavBarState;

verus! {

/// How a tab is picked: by its id or by its position in the tab bar.
#[derive(Debug, Clone, Copy, PartialEq, Eq, Structural)]
pub enum TabSelectionType {
    Id(u32),
    Index(usize),
}

/// The messages of the browser widget.
#[derive(Debug, Clone, PartialEq)]
pub enum Message {
    // Commands visible to the user, through shortcuts and the command palette
    GoBackward,
    GoForward,
    Refresh,
    GoHome,
    GoToUrl(String),
    ChangeTab(TabSelectionType),
    CloseTab(TabSelectionType),
    CloseCurrentTab,
    CreateTab,
    ToggleOverlay,
    ShowOverlay,
    HideOverlay,
    ToggleTabBar,
    ShowTabBar,
    HideTabBar,
    ToggleNavBar,
    ShowNavBar,
    HideNavBar,
    ToggleBookmarkBar,
    ShowBookmarkBar,
    HideBookmarkBar,
    // Internal, for the widgets
    Update,
    UrlChanged(String),
    UpdateUrl,
    CommandPaletteQueryChanged,
    CommandPaletteKeyboardEvent(Option<KeyboardEvent>),
    SendKeyboardEvent(Option<KeyboardEvent>),
    SendMouseEvent(Point, Option<MouseEvent>),
    UpdateViewSize(Size),
    IcedEvent(Option<Event>),
}

impl Message {
    /// How the message is named to the user.
    pub open spec fn display_name(self) -> Seq<char> {
        match self {
            Message::GoBackward => "Go Backward (Back)"@,
            Message::GoForward => "Go Forward (Forward)"@,
            Message::Refresh => "Refresh"@,
            Message::GoHome => "Go Home (Home)"@,
            Message::GoToUrl(_) => "Go To Url"@,
            Message::ChangeTab(_) => "Change Tab"@,
            Message::CloseTab(_) => "Close Tab"@,
            Message::CloseCurrentTab => "Close Tab"@,
            Message::CreateTab => "New Tab"@,
            Message::ToggleOverlay => "Toggle Command Palette"@,
            Message::ShowOverlay => "Show Command Palette"@,
            Message::HideOverlay => "Hide Command Palette"@,
            Message::ToggleTabBar => "Toggle Tab Bar"@,
            Message::ShowTabBar => "Show Tab Bar"@,
            Message::HideTabBar => "Hide Tab Bar"@,
            Message::ToggleNavBar => "Toggle Nav Bar"@,
            Message::ShowNavBar => "Show Nav Bar"@,
            Message::HideNavBar => "Hide Nav Bar"@,
            Message::ToggleBookmarkBar => "Toggle Bookmark Bar"@,
            Message::ShowBookmarkBar => "Show Bookmark Bar"@,
            Message::HideBookmarkBar => "Hide Bookmark Bar"@,
            Message::Update => "Update"@,
            Message::UrlChanged(_) => "UrlChanged"@,
            Message::UpdateUrl => "UpdateUrl"@,
            Message::CommandPaletteQueryChanged => "CommandPaletteQueryChanged"@,
            Message::CommandPaletteKeyboardEvent(_) => "CommandPaletteKeyboardEvent"@,
            Message::SendKeyboardEvent(_) => "SendKeyboardEvent"@,
            Message::SendMouseEvent(_, _) => "SendMouseEvent"@,
            Message::UpdateViewSize(_) => "UpdateViewSize"@,
            Message::IcedEvent(_) => "IcedEvent"@,
        }
    }

    /// How the message is named to the user.
    pub fn to_string(&self) -> (res: String)
        ensures
            res@ == self.display_name(),
    {
        match self {
            Message::GoBackward => String::from_str("Go Backward (Back)"),
            Message::GoForward => String::from_str("Go Forward (Forward)"),
            Message::Refresh => String::from_str("Refresh"),
            Message::GoHome => String::from_str("Go Home (Home)"),
            Message::GoToUrl(_) => String::from_str("Go To Url"),
            Message::ChangeTab(_) => String::from_str("Change Tab"),
            Message::CloseTab(_) => String::from_str("Close Tab"),
            Message::CloseCurrentTab => String::from_str("Close Tab"),
            Message::CreateTab => String::from_str("New Tab"),
            Message::ToggleOverlay => String::from_str("Toggle Command Palette"),
            Message::ShowOverlay => String::from_str("Show Command Palette"),
            Message::HideOverlay => String::from_str("Hide Command Palette"),
            Message::ToggleTabBar => String::from_str("Toggle Tab Bar"),
            Message::ShowTabBar => String::from_str("Show Tab Bar"),
            Message::HideTabBar => String::from_str("Hide Tab Bar"),
            Message::ToggleNavBar => String::from_str("Toggle Nav Bar"),
            Message::ShowNavBar => String::from_str("Show Nav Bar"),
            Message::HideNavBar => String::from_str("Hide Nav Bar"),
            Message::ToggleBookmarkBar => String::from_str("Toggle Bookmark Bar"),
            Message::ShowBookmarkBar => String::from_str("Show Bookmark Bar"),
            Message::HideBookmarkBar => String::from_str("Hide Bookmark Bar"),
            Message::Update => String::from_str("Update"),
            Message::UrlChanged(_) => String::from_str("UrlChanged"),
            Message::UpdateUrl => String::from_str("UpdateUrl"),
            Message::CommandPaletteQueryChanged => String::from_str("CommandPaletteQueryChanged"),
            Message::CommandPaletteKeyboardEvent(_) => String::from_str("CommandPaletteKeyboardEvent"),
            Message::SendKeyboardEvent(_) => String::from_str("SendKeyboardEvent"),
            Message::SendMouseEvent(_, _) => String::from_str("SendMouseEvent"),
            Message::UpdateViewSize(_) => String::from_str("UpdateViewSize"),
            Message::IcedEvent(_) => String::from_str("IcedEvent"),
        }
    }

    /// A copy of the message.
    pub fn duplicate(&self) -> (res: Message)
        ensures
            res == *self,
    {
        match self {
            Message::GoBackward => Message::GoBackward,
            Message::GoForward => Message::GoForward,
            Message::Refresh => Message::Refresh,
            Message::GoHome => Message::GoHome,
            Message::GoToUrl(s) => Message::GoToUrl(s.clone()),
            Message::ChangeTab(t) => Message::ChangeTab(*t),
            Message::CloseTab(t) => Message::CloseTab(*t),
            Message::CloseCurrentTab => Message::CloseCurrentTab,
            Message::CreateTab => Message::CreateTab,
            Message::ToggleOverlay => Message::ToggleOverlay,
            Message::ShowOverlay => Message::ShowOverlay,
            Message::HideOverlay => Message::HideOverlay,
            Message::ToggleTabBar => Message::ToggleTabBar,
            Message::ShowTabBar => Message::ShowTabBar,
            Message::HideTabBar => Message::HideTabBar,
            Message::ToggleNavBar => Message::ToggleNavBar,
            Message::ShowNavBar => Message::ShowNavBar,
            Message::HideNavBar => Message::HideNavBar,
            Message::ToggleBookmarkBar => Message::ToggleBookmarkBar,
            Message::ShowBookmarkBar => Message::ShowBookmarkBar,
            Message::HideBookmarkBar => Message::HideBookmarkBar,
            Message::Update => Message::Update,
            Message::UrlChanged(s) => Message::UrlChanged(s.clone()),
            Message::UpdateUrl => Message::UpdateUrl,
            Message::CommandPaletteQueryChanged => Message::CommandPaletteQueryChanged,
            Message::CommandPaletteKeyboardEvent(e) => Message::CommandPaletteKeyboardEvent(duplicate_key_event(e)),
            Message::SendKeyboardEvent(e) => Message::SendKeyboardEvent(duplicate_key_event(e)),
            Message::SendMouseEvent(p, e) => Message::SendMouseEvent(*p, *e),
            Message::UpdateViewSize(s) => Message::UpdateViewSize(*s),
            Message::IcedEvent(e) => Message::IcedEvent(match e {
                Some(x) => Some(x.duplicate()),
                None => None,
            }),
        }
    }
}

/// The keyboard shortcuts of the browser widget.
pub type Shortcuts = Vec<Shortcut<'static, Message>>;

/// The homepage of the browser.
pub enum HomepageType<'a> {
    Url(&'a str),
    /// A page of html. The browser has no way yet to show one as its homepage:
    /// `with_homepage` does not take it and `try_with_homepage` gives it back.
    Custom(&'a str),
}


/// What the browser asks its runtime to do after a message.
#[derive(Debug, Clone, PartialEq)]
pub enum Task {
    /// Nothing.
    Nothing,
    /// Send the message.
    Done(Message),
    /// Send the messages, in order.
    Batch(Vec<Message>),
    /// Move the keyboard focus to the next widget.
    FocusNext,
}

/// The state of the browser widget apart from the engine, as plain values.
pub struct BrowserUi {
    pub home: Seq<char>,
    pub nav_url: Seq<char>,
    pub palette: CommandPaletteState,
    pub with_tab_bar: bool,
    pub with_nav_bar: bool,
    pub with_bookmark_bar: bool,
    pub bookmarks: Option<Seq<Bookmark>>,
    pub show_overlay: bool,
    pub shortcuts: Seq<Shortcut<'static, Message>>,
    pub view_size: Size,
}


/// The tab that a selection names among the open ids.
pub open spec fn selected_id(ids: Seq<u32>, sel: TabSelectionType) -> u32 {
    match sel {
        TabSelectionType::Id(id) => id,
        TabSelectionType::Index(i) => ids[i as int],
    }
}

/// The selection names an open tab.
pub open spec fn valid_selection(ids: Seq<u32>, sel: TabSelectionType) -> bool {
    match sel {
        TabSelectionType::Id(id) => ids.contains(id),
        TabSelectionType::Index(i) => i < ids.len(),
    }
}

/// `after` holds the ids and history left when the tab that `sel` names is closed among
/// `ids` with history `history`; when no other tab would be current, nothing is closed.
pub open spec fn closed_tab<Info: crate::engines::TabInfo>(
    ids: Seq<u32>,
    history: Seq<u32>,
    after: Tabs<Info>,
    sel: TabSelectionType,
) -> bool {
    let id = selected_id(ids, sel);
    if without(history, id).len() > 0 {
        after.history_list() == without(history, id) && after.ids() == ids.filter(other_than(id))
    } else {
        after.history_list() == history && after.ids() == ids
    }
}

/// Whether a shortcut that hides the palette (its action hides or toggles the palette)
/// fires for the key and modifiers.
pub open spec fn hide_shortcut_fires(
    shortcuts: Seq<Shortcut<'static, Message>>,
    key: Key,
    modifiers: Modifiers,
) -> bool {
    exists|i: int|
        0 <= i < shortcuts.len() && (shortcuts[i].spec_action() == Message::HideOverlay
            || shortcuts[i].spec_action() == Message::ToggleOverlay) && #[trigger] shortcuts[i].fires(
            key,
            modifiers,
        )
}

/// Whether some shortcut fires for the key and modifiers.
pub open spec fn some_shortcut_fires(
    shortcuts: Seq<Shortcut<'static, Message>>,
    key: Key,
    modifiers: Modifiers,
) -> bool {
    exists|i: int| 0 <= i < shortcuts.len() && #[trigger] shortcuts[i].fires(key, modifiers)
}

/// The position of the first shortcut that fires for the key and modifiers.
pub open spec fn first_firing(
    shortcuts: Seq<Shortcut<'static, Message>>,
    key: Key,
    modifiers: Modifiers,
) -> int {
    choose|i: int|
        0 <= i < shortcuts.len() && shortcuts[i].fires(key, modifiers) && forall|k: int|
            0 <= k < i ==> !(#[trigger] shortcuts[k].fires(key, modifiers))
}

/// The message that submitting an entry of the command palette sends: the command
/// itself, a url to go to for a bookmark or a url, a change of tab for a tab.
pub open spec fn submits(r: ResultType, m: Message) -> bool {
    match r {
        ResultType::Command(c) => m == c,
        ResultType::Bookmark(b) => m is GoToUrl && m->GoToUrl_0@ == b.spec_url(),
        ResultType::Url(u) => m is GoToUrl && m->GoToUrl_0@ == u@,
        ResultType::Tab(t) => m == Message::ChangeTab(TabSelectionType::Id(t.id)),
    }
}

/// `after` is `before` with only its palette changed.
pub open spec fn only_palette_changed(before: BrowserUi, after: BrowserUi) -> bool {
    after == (BrowserUi { palette: after.palette, ..before })
}

/// The palette keeps everything but the selection.
pub open spec fn keeps_all_but_selection(
    before: CommandPaletteState,
    after: CommandPaletteState,
) -> bool {
    &&& after.query == before.query
    &&& after.possible_results == before.possible_results
    &&& after.filtered_results == before.filtered_results
    &&& after.has_error == before.has_error
}

/// The palette keeps its entries and selection and has no error.
pub open spec fn keeps_entries_clears_error(
    before: CommandPaletteState,
    after: CommandPaletteState,
) -> bool {
    &&& after.possible_results == before.possible_results
    &&& after.filtered_results == before.filtered_results
    &&& after.selected_item == before.selected_item
    &&& !after.has_error
}

/// Ctrl+V in the palette with `text` from the clipboard: with text, the query becomes it
/// and the palette filters again; without, nothing changes.
pub open spec fn pasted(
    before: CommandPaletteState,
    after: CommandPaletteState,
    text: Option<String>,
    res: Task,
) -> bool {
    match text {
        Some(t) => after.query == t && res == Task::Done(Message::CommandPaletteQueryChanged),
        None => after.query == before.query && res == Task::Nothing,
    }
}

/// Whether a message is answered before the engine is touched: a window event that
/// triggers a task, or, in the command palette, a key of a shortcut that hides it or Enter
/// on an entry that is found.
pub open spec fn leaves_engine(ui: BrowserUi, event: Message) -> bool {
    match event {
        Message::IcedEvent(e) => !(event_task(ui, e) is Nothing),
        Message::CommandPaletteKeyboardEvent(Some(KeyboardEvent::KeyPressed { key, modifiers, .. })) => {
            ||| hide_shortcut_fires(ui.shortcuts, key, modifiers)
            ||| key == Key::Named(NamedKey::Enter) && submission(ui.palette) is Some
        },
        _ => false,
    }
}

/// What a key pressed in the command palette does, to the state apart from the engine
/// and as the task returned.
pub open spec fn palette_key_effect(
    before: BrowserUi,
    after: BrowserUi,
    event: Option<KeyboardEvent>,
    res: Task,
) -> bool {
    match event {
        Some(KeyboardEvent::KeyPressed { key, modifiers, .. }) => {
            &&& only_palette_changed(before, after)
            &&& if hide_shortcut_fires(before.shortcuts, key, modifiers) {
                reset_of(before.palette, after.palette) && res == Task::Done(Message::HideOverlay)
            } else {
                match key {
                    Key::Named(NamedKey::Escape) => reset_of(before.palette, after.palette) && res
                        == Task::Done(Message::HideOverlay),
                    Key::Named(NamedKey::ArrowDown) => {
                        &&& after.palette.selected_item.deep_view() == next_selection(
                            before.palette.shown_names(),
                            before.palette.selected_item.deep_view(),
                        )
                        &&& keeps_all_but_selection(before.palette, after.palette)
                        &&& res == Task::Nothing
                    },
                    Key::Named(NamedKey::ArrowUp) => {
                        &&& after.palette.selected_item.deep_view() == previous_selection(
                            before.palette.shown_names(),
                            before.palette.selected_item.deep_view(),
                        )
                        &&& keeps_all_but_selection(before.palette, after.palette)
                        &&& res == Task::Nothing
                    },
                    Key::Named(NamedKey::Backspace) => {
                        &&& keeps_entries_clears_error(before.palette, after.palette)
                        &&& if before.palette.query@.len() > 0 {
                            after.palette.query@ == before.palette.query@.drop_last() && res
                                == Task::Done(Message::CommandPaletteQueryChanged)
                        } else {
                            after.palette.query == before.palette.query && res == Task::Nothing
                        }
                    },
                    Key::Named(NamedKey::Space) => {
                        &&& keeps_entries_clears_error(before.palette, after.palette)
                        &&& after.palette.query@ == before.palette.query@.push(' ')
                        &&& res == Task::Done(Message::CommandPaletteQueryChanged)
                    },
                    Key::Character(c) => {
                        &&& keeps_entries_clears_error(before.palette, after.palette)
                        &&& if modifiers.control && c@ == "v"@ {
                            exists|text: Option<String>|
                                #[trigger] pasted(before.palette, after.palette, text, res)
                        } else {
                            after.palette.query@ == before.palette.query@ + c@ && res
                                == Task::Done(Message::CommandPaletteQueryChanged)
                        }
                    },
                    Key::Named(NamedKey::Enter) => match submission(before.palette) {
                        Some(r) => {
                            &&& reset_of(before.palette, after.palette)
                            &&& res is Batch
                            &&& res->Batch_0@.len() == 2
                            &&& submits(r, res->Batch_0@[0])
                            &&& res->Batch_0@[1] == Message::HideOverlay
                        },
                        None => {
                            &&& after.palette == (CommandPaletteState {
                                has_error: true,
                                ..before.palette
                            })
                            &&& res == Task::Nothing
                        },
                    },
                    _ => after == before && res == Task::Nothing,
                }
            }
        },
        _ => after == before && res == Task::Nothing,
    }
}

/// The task that an event of the window triggers: hide the palette on Escape while it
/// is shown, refresh on Ctrl+R, otherwise the action of the first shortcut that fires.
pub open spec fn event_task(before: BrowserUi, event: Option<Event>) -> Task {
    match event {
        Some(Event::Keyboard(KeyboardEvent::KeyPressed { key, modifiers, .. })) => {
            if before.show_overlay && key == Key::Named(NamedKey::Escape) {
                Task::Done(Message::HideOverlay)
            } else if modifiers.control && key is Character && key->Character_0@ == "r"@ {
                Task::Done(Message::Refresh)
            } else if some_shortcut_fires(before.shortcuts, key, modifiers) {
                Task::Done(
                    before.shortcuts[first_firing(
                        before.shortcuts,
                        key,
                        modifiers,
                    )].spec_action(),
                )
            } else {
                Task::Nothing
            }
        },
        _ => Task::Nothing,
    }
}

/// What a message does to the state apart from the engine, and the task it returns.
pub open spec fn ui_effect<Info: crate::engines::TabInfo>(
    before: BrowserUi,
    after: BrowserUi,
    tabs: Tabs<Info>,
    event: Message,
    res: Task,
) -> bool {
    match event {
        Message::UpdateViewSize(size) => after == (BrowserUi { view_size: size, ..before }) && res
            == Task::Nothing,
        Message::ChangeTab(_) | Message::CloseTab(_) | Message::GoBackward | Message::GoForward
        | Message::UpdateUrl => after == (BrowserUi { nav_url: after.nav_url, ..before }) && res
            == Task::Nothing,
        Message::CloseCurrentTab => after == before && res == Task::Done(
            Message::CloseTab(TabSelectionType::Id(tabs.current())),
        ),
        Message::CreateTab => after == (BrowserUi { nav_url: before.home, ..before }) && res
            == Task::Nothing,
        Message::UrlChanged(url) => after == (BrowserUi { nav_url: url@, ..before }) && res
            == Task::Nothing,
        Message::ToggleTabBar => after == (BrowserUi {
            with_tab_bar: !before.with_tab_bar,
            ..before
        }) && res == Task::Nothing,
        Message::ShowTabBar => after == (BrowserUi { with_tab_bar: true, ..before }) && res
            == Task::Nothing,
        Message::HideTabBar => after == (BrowserUi { with_tab_bar: false, ..before }) && res
            == Task::Nothing,
        Message::ToggleNavBar => after == (BrowserUi {
            with_nav_bar: !before.with_nav_bar,
            ..before
        }) && res == Task::Nothing,
        Message::ShowNavBar => after == (BrowserUi { with_nav_bar: true, ..before }) && res
            == Task::Nothing,
        Message::HideNavBar => after == (BrowserUi { with_nav_bar: false, ..before }) && res
            == Task::Nothing,
        Message::ToggleBookmarkBar => after == (BrowserUi {
            with_bookmark_bar: !before.with_bookmark_bar,
            ..before
        }) && res == Task::Nothing,
        Message::ShowBookmarkBar => after == (BrowserUi { with_bookmark_bar: true, ..before })
            && res == Task::Nothing,
        Message::HideBookmarkBar => after == (BrowserUi { with_bookmark_bar: false, ..before })
            && res == Task::Nothing,
        Message::CommandPaletteQueryChanged => {
            &&& only_palette_changed(before, after)
            &&& res == Task::Nothing
            &&& exists|shown: Seq<DisplayTab>|
                crate::engines::displays(shown, tabs) && #[trigger] filtered_for(
                    before.palette,
                    after.palette,
                    shown,
                )
        },
        Message::CommandPaletteKeyboardEvent(e) => palette_key_effect(before, after, e, res),
        Message::ToggleOverlay => after == before && res == (if before.show_overlay {
            Task::Done(Message::HideOverlay)
        } else {
            Task::Done(Message::ShowOverlay)
        }),
        Message::ShowOverlay => after == (BrowserUi { show_overlay: true, ..before }) && res
            == Task::FocusNext,
        Message::HideOverlay => after == (BrowserUi { show_overlay: false, ..before }) && res
            == Task::FocusNext,
        Message::IcedEvent(e) => after == before && res == event_task(before, e),
        _ => after == before && res == Task::Nothing,
    }
}


/// The system clipboard of `clipboard_rs`, carried through opaque.
#[verifier::external_type_specification]
#[verifier::external_body]
pub struct ExClipboardContext(clipboard_rs::ClipboardContext);

/// Calls `clipboard_rs::ClipboardContext::new`, which opens the system clipboard: none
/// when it cannot be opened. That depends on the system, so nothing is stated of it.
#[verifier::external_body]
fn open_clipboard() -> Option<clipboard_rs::ClipboardContext> {
    clipboard_rs::ClipboardContext::new().ok()
}

/// Calls `Clipboard::get_text` on an open clipboard: the text it holds, none when it
/// holds no text. That depends on the system, so nothing is stated of it.
#[verifier::external_body]
fn clipboard_get_text(ctx: &clipboard_rs::ClipboardContext) -> Option<String> {
    ctx.get_text().ok()
}

/// The text on the system clipboard, if it can be opened and holds text.
fn clipboard_text() -> Option<String> {
    match open_clipboard() {
        Some(ctx) => clipboard_get_text(&ctx),
        None => None,
    }
}

/// The message that submitting an entry sends (see `submits`).
pub fn submit_message(r: &ResultType) -> (res: Message)
    ensures
        submits(*r, res),
{
    match r {
        ResultType::Command(message) => message.duplicate(),
        ResultType::Bookmark(bookmark) => Message::GoToUrl(bookmark.url().to_string()),
        ResultType::Url(url) => Message::GoToUrl(url.clone()),
        ResultType::Tab(tab) => Message::ChangeTab(TabSelectionType::Id(tab.id)),
    }
}

/// The first firing shortcut is the one before which none fires.
pub proof fn lemma_first_firing(
    shortcuts: Seq<Shortcut<'static, Message>>,
    key: Key,
    modifiers: Modifiers,
    i: int,
)
    requires
        0 <= i < shortcuts.len(),
        shortcuts[i].fires(key, modifiers),
        forall|k: int| 0 <= k < i ==> !(#[trigger] shortcuts[k].fires(key, modifiers)),
    ensures
        first_firing(shortcuts, key, modifiers) == i,
{
    let j = first_firing(shortcuts, key, modifiers);
    assert(0 <= j < shortcuts.len() && shortcuts[j].fires(key, modifiers) && forall|k: int|
        0 <= k < j ==> !(#[trigger] shortcuts[k].fires(key, modifiers)));
    if j < i {
        assert(!shortcuts[j].fires(key, modifiers));
    }
    if i < j {
        assert(!shortcuts[i].fires(key, modifiers));
    }
}

/// Pixels in the given byte order, as red-green-blue-alpha.
pub open spec fn rgba_pixels(format: PixelFormat, pixels: Seq<u8>) -> Seq<u8> {
    match format {
        PixelFormat::Rgba => pixels,
        PixelFormat::Bgra => crate::helpers::swap_red_blue(pixels),
    }
}

/// `after` is `before` with the current tab showing `view`: the same tabs, in the same
/// order and with the same ids and engine information, and the same history.
pub open spec fn shows_in_current<Info: crate::engines::TabInfo>(
    before: Tabs<Info>,
    after: Tabs<Info>,
    view: ImageInfo,
) -> bool {
    let i = crate::engines::first_index_of(before.ids(), before.current());
    &&& after.history_list() == before.history_list()
    &&& after.tab_list().len() == before.tab_list().len()
    &&& forall|k: int|
        0 <= k < before.tab_list().len() && k != i ==> #[trigger] after.tab_list()[k]
            == before.tab_list()[k]
    &&& after.tab_list()[i].spec_id() == before.tab_list()[i].spec_id()
    &&& after.tab_list()[i].spec_info() == before.tab_list()[i].spec_info()
    &&& after.tab_list()[i].spec_view() == view
}

/// The requests that opening a tab makes of the engine: a tab on the homepage, sized a
/// little wider and a little lower than the view (the new tab gets the id `id`), the
/// views resized to the view, and the homepage loaded in the new tab, which is current.
pub open spec fn create_requests(ui: BrowserUi, id: u32) -> Seq<EngineRequest> {
    seq![
        EngineRequest::NewTab {
            url: ui.home,
            size: Size { width: (ui.view_size.width + 10) as u32, height: (ui.view_size.height - 10) as u32 },
            id,
        },
        EngineRequest::Resize(ui.view_size),
        EngineRequest::GoTo { url: ui.home, tab: id },
    ]
}

/// The requests that a message other than opening or closing a tab makes of the engine.
pub open spec fn engine_requests<Info: crate::engines::TabInfo>(
    ui: BrowserUi,
    tabs: Tabs<Info>,
    event: Message,
) -> Seq<EngineRequest> {
    match event {
        Message::UpdateViewSize(size) => seq![EngineRequest::Resize(size)],
        Message::SendKeyboardEvent(Some(e)) => seq![EngineRequest::Keyboard(e)],
        Message::SendMouseEvent(p, Some(e)) => seq![EngineRequest::Mouse(p, e)],
        Message::GoBackward => seq![EngineRequest::GoBack],
        Message::GoForward => seq![EngineRequest::GoForward],
        Message::Refresh => seq![EngineRequest::Refresh],
        Message::GoHome => seq![EngineRequest::GoTo { url: ui.home, tab: tabs.current() }],
        Message::GoToUrl(u) => match spec_to_url(u@) {
            Some(url) => seq![EngineRequest::GoTo { url, tab: tabs.current() }],
            None => Seq::<EngineRequest>::empty(),
        },
        _ => Seq::<EngineRequest>::empty(),
    }
}

/// `url` is a url that the current tab reports.
pub open spec fn current_reports_url<Info: crate::engines::TabInfo>(
    tabs: Tabs<Info>,
    url: Seq<char>,
) -> bool {
    exists|s: String|
        s@ == url && #[trigger] tabs.tab_list()[crate::engines::first_index_of(
            tabs.ids(),
            tabs.current(),
        )].spec_info().reports_url(s)
}

/// Showing an image in the current tab keeps what that tab reports.
pub proof fn lemma_current_reports_kept<Info: crate::engines::TabInfo>(
    before: Tabs<Info>,
    after: Tabs<Info>,
    view: ImageInfo,
    url: Seq<char>,
)
    requires
        current_reports_url(before, url),
        after.ids() == before.ids(),
        shows_in_current(before, after, view),
    ensures
        current_reports_url(after, url),
{
    let s = choose|s: String|
        s@ == url && #[trigger] before.tab_list()[crate::engines::first_index_of(
            before.ids(),
            before.current(),
        )].spec_info().reports_url(s);
    let i = crate::engines::first_index_of(before.ids(), before.current());
    assert(after.current() == before.current());
    assert(crate::engines::first_index_of(after.ids(), after.current()) == i);
    assert(after.tab_list()[i].spec_info() == before.tab_list()[i].spec_info());
    assert(after.tab_list()[i].spec_info().reports_url(s));
    assert(s@ == url);
}

/// The browser widget: an engine, the bars around it and the command palette.
pub struct IcyBrowser<Engine: BrowserEngine> {
    engine: Engine,
    home: Url,
    nav_bar_state: NavBarState,
    command_palette_state: CommandPaletteState,
    with_tab_bar: bool,
    with_nav_bar: bool,
    with_bookmark_bar: bool,
    bookmarks: Option<Bookmarks>,
    show_overlay: bool,
    shortcuts: Shortcuts,
    view_size: Size,
}

/// The homepage of a new browser.
pub open spec fn default_home() -> Seq<char> {
    "https://google.com"@
}

impl<Engine: BrowserEngine> IcyBrowser<Engine> {
    /// The state apart from the engine.
    pub closed spec fn ui(&self) -> BrowserUi {
        BrowserUi {
            home: self.home@,
            nav_url: self.nav_bar_state.0@,
            palette: self.command_palette_state,
            with_tab_bar: self.with_tab_bar,
            with_nav_bar: self.with_nav_bar,
            with_bookmark_bar: self.with_bookmark_bar,
            bookmarks: match self.bookmarks {
                Some(b) => Some(b@),
                None => None,
            },
            show_overlay: self.show_overlay,
            shortcuts: self.shortcuts@,
            view_size: self.view_size,
        }
    }

    /// The engine.
    pub closed spec fn spec_engine(&self) -> Engine {
        self.engine
    }

    /// The requests the engine has been given.
    pub open spec fn requests(&self) -> Seq<EngineRequest> {
        self.spec_engine().spec_log()@
    }

    /// The engine's tabs.
    pub open spec fn tabs(&self) -> Tabs<Engine::Info> {
        self.spec_engine().spec_tabs()
    }

    /// The engine has a current tab, and every tab in its history is open.
    pub open spec fn ready(&self) -> bool {
        self.tabs().has_current() && self.tabs().history_open()
    }

    /// The open tabs and the history of `self` and `other` have the same ids.
    pub open spec fn same_tab_ids(&self, other: &Self) -> bool {
        &&& self.tabs().ids() == other.tabs().ids()
        &&& self.tabs().history_list() == other.tabs().history_list()
    }

    /// A tab can be created: the view size leaves room for the new tab's size.
    pub open spec fn can_create_tab(&self) -> bool {
        self.ui().view_size.width + 10 <= u32::MAX && self.ui().view_size.height >= 10
    }

    /// A browser with a new engine, the default homepage, no bars, no bookmarks and no
    /// shortcuts.
    pub fn new() -> (res: Self)
        ensures
            spec_parse_url(default_home()) is Ok ==> res.ui().home == spec_parse_url(
                default_home(),
            )->Ok_0,
            spec_parse_url(default_home()) is Err ==> res.ui().home == default_home(),
            res.ui().nav_url == Seq::<char>::empty(),
            res.ui().palette.possible_results@ == command_palette::initial_results(None),
            res.ui().palette.filtered_results@ == res.ui().palette.possible_results@,
            res.ui().palette.selected_item is None,
            res.ui().palette.query@ == Seq::<char>::empty(),
            !res.ui().palette.has_error,
            !res.ui().with_tab_bar,
            !res.ui().with_nav_bar,
            !res.ui().with_bookmark_bar,
            res.ui().bookmarks is None,
            !res.ui().show_overlay,
            res.ui().shortcuts.len() == 0,
            res.ui().view_size == (Size { width: 800, height: 800 }),
            res.tabs().tab_list().len() == 0,
            res.tabs().history_list().len() == 0,
            res.tabs().history_open(),
            res.tabs().tabs_in_history(),
            res.requests() == Seq::<EngineRequest>::empty(),
    {
        let home = match parse_url("https://google.com") {
            Ok(url) => url,
            Err(_) => Url::unparsed("https://google.com"),
        };
        Self {
            engine: Engine::new(),
            home,
            nav_bar_state: NavBarState::new(),
            command_palette_state: CommandPaletteState::new(None),
            with_tab_bar: false,
            with_nav_bar: false,
            with_bookmark_bar: false,
            bookmarks: None,
            show_overlay: false,
            shortcuts: Vec::new(),
            view_size: Size::new(800, 800),
        }
    }

    /// Sets the homepage; it must be a url that parses.
    pub fn with_homepage(self, homepage: HomepageType) -> (res: Self)
        requires
            (homepage matches HomepageType::Url(u) && spec_parse_url(u@) is Ok),
        ensures
            res.ui() == (BrowserUi {
                home: spec_parse_url(homepage->Url_0@)->Ok_0,
                ..self.ui()
            }),
            res.spec_engine() == self.spec_engine(),
    {
        let mut b = self;
        match homepage {
            HomepageType::Url(url) => {
                match parse_url(url) {
                    Ok(u) => {
                        b.home = u;
                    },
                    Err(_) => {},
                }
            },
            HomepageType::Custom(_) => {},
        }
        b
    }

    /// Sets the homepage when it is a url that parses; otherwise gives the browser back
    /// unchanged, as the error.
    pub fn try_with_homepage(self, homepage: HomepageType) -> (res: Result<Self, Self>)
        ensures
            (homepage matches HomepageType::Url(u) && spec_parse_url(u@) is Ok) <==> (res is Ok),
            (res matches Ok(r) ==> r.ui() == (BrowserUi {
                home: spec_parse_url(homepage->Url_0@)->Ok_0,
                ..self.ui()
            }) && r.spec_engine() == self.spec_engine()),
            (res matches Err(r) ==> r.ui() == self.ui() && r.spec_engine() == self.spec_engine()),
    {
        match homepage {
            HomepageType::Url(url) => match parse_url(url) {
                Ok(_) => Ok(self.with_homepage(HomepageType::Url(url))),
                Err(_) => Err(self),
            },
            HomepageType::Custom(_) => Err(self),
        }
    }

    /// Shows the tab bar.
    pub fn with_tab_bar(self) -> (res: Self)
        ensures
            res.ui() == (BrowserUi { with_tab_bar: true, ..self.ui() }),
            res.spec_engine() == self.spec_engine(),
    {
        let mut b = self;
        b.with_tab_bar = true;
        b
    }

    /// Shows the navigation bar, with no url in it.
    pub fn with_nav_bar(self) -> (res: Self)
        ensures
            res.ui() == (BrowserUi {
                with_nav_bar: true,
                nav_url: Seq::<char>::empty(),
                ..self.ui()
            }),
            res.spec_engine() == self.spec_engine(),
    {
        let mut b = self;
        b.with_nav_bar = true;
        b.nav_bar_state = NavBarState::new();
        b
    }

    /// Sets the bookmarks, and a command palette that offers them.
    pub fn bookmarks(self, bookmarks: &[Bookmark]) -> (res: Self)
        ensures
            res.ui().bookmarks == Some(bookmarks@),
            res.ui().palette.possible_results@ == command_palette::initial_results(
                Some(bookmarks@),
            ),
            res.ui().palette.filtered_results@ == res.ui().palette.possible_results@,
            res.ui().palette.selected_item is None,
            res.ui().palette.query@ == Seq::<char>::empty(),
            !res.ui().palette.has_error,
            res.ui().home == self.ui().home,
            res.ui().nav_url == self.ui().nav_url,
            res.ui().with_tab_bar == self.ui().with_tab_bar,
            res.ui().with_nav_bar == self.ui().with_nav_bar,
            res.ui().with_bookmark_bar == self.ui().with_bookmark_bar,
            res.ui().show_overlay == self.ui().show_overlay,
            res.ui().shortcuts == self.ui().shortcuts,
            res.ui().view_size == self.ui().view_size,
            res.spec_engine() == self.spec_engine(),
    {
        let mut b = self;
        let mut list: Vec<Bookmark> = Vec::new();
        let mut copy: Vec<Bookmark> = Vec::new();
        let mut i: usize = 0;
        while i < bookmarks.len()
            invariant
                i <= bookmarks@.len(),
                list@ == bookmarks@.take(i as int),
                copy@ == bookmarks@.take(i as int),
            decreases bookmarks@.len() - i,
        {
            list.push(bookmarks[i].duplicate());
            copy.push(bookmarks[i].duplicate());
            i = i + 1;
            assert(list@ =~= bookmarks@.take(i as int));
            assert(copy@ =~= bookmarks@.take(i as int));
        }
        assert(bookmarks@.take(bookmarks@.len() as int) =~= bookmarks@);
        b.bookmarks = Some(list);
        b.command_palette_state = CommandPaletteState::new(Some(copy));
        b
    }

    /// Shows the bookmark bar.
    pub fn with_bookmark_bar(self) -> (res: Self)
        ensures
            res.ui() == (BrowserUi { with_bookmark_bar: true, ..self.ui() }),
            res.spec_engine() == self.spec_engine(),
    {
        let mut b = self;
        b.with_bookmark_bar = true;
        b
    }

    /// Sets the keyboard shortcuts.
    pub fn with_custom_shortcuts(self, shortcuts: Shortcuts) -> (res: Self)
        ensures
            res.ui() == (BrowserUi { shortcuts: shortcuts@, ..self.ui() }),
            res.spec_engine() == self.spec_engine(),
    {
        let mut b = self;
        b.shortcuts = shortcuts;
        b
    }

    /// Opens the first tab, on the homepage.
    pub fn build(self) -> (res: Self)
        requires
            self.can_create_tab(),
        ensures
            res.tabs().has_current(),
            self.tabs().history_open() ==> res.ready(),
            self.tabs().tabs_in_history() ==> res.tabs().tabs_in_history(),
            exists|id: u32|
                res.tabs().ids() == self.tabs().ids().push(id) && res.tabs().history_list()
                    == self.tabs().history_list().push(id) && res.requests() == self.requests()
                    + create_requests(self.ui(), id),
            res.ui() == (BrowserUi { nav_url: self.ui().home, ..self.ui() }),
    {
        let mut build = self;
        let _ = build.update(Message::CreateTab);
        build
    }

    /// The homepage.
    pub fn home(&self) -> (res: &Url)
        ensures
            res@ == self.ui().home,
    {
        &self.home
    }

    /// The url shown in the navigation bar.
    pub fn nav_url(&self) -> (res: &str)
        ensures
            res@ == self.ui().nav_url,
    {
        self.nav_bar_state.0.as_str()
    }

    /// The command palette.
    pub fn palette(&self) -> (res: &CommandPaletteState)
        ensures
            *res == self.ui().palette,
    {
        &self.command_palette_state
    }

    /// Whether the tab bar is shown.
    pub fn tab_bar_shown(&self) -> (res: bool)
        ensures
            res == self.ui().with_tab_bar,
    {
        self.with_tab_bar
    }

    /// Whether the navigation bar is shown.
    pub fn nav_bar_shown(&self) -> (res: bool)
        ensures
            res == self.ui().with_nav_bar,
    {
        self.with_nav_bar
    }

    /// Whether the bookmark bar is shown.
    pub fn bookmark_bar_shown(&self) -> (res: bool)
        ensures
            res == self.ui().with_bookmark_bar,
    {
        self.with_bookmark_bar
    }

    /// The bookmarks, if any were set.
    pub fn bookmark_list(&self) -> (res: Option<&[Bookmark]>)
        ensures
            match res {
                Some(b) => self.ui().bookmarks == Some(b@),
                None => self.ui().bookmarks is None,
            },
    {
        match &self.bookmarks {
            Some(b) => Some(b.as_slice()),
            None => None,
        }
    }

    /// Whether the command palette is shown over the page.
    pub fn overlay_shown(&self) -> (res: bool)
        ensures
            res == self.ui().show_overlay,
    {
        self.show_overlay
    }

    /// The size of the page view.
    pub fn view_size(&self) -> (res: Size)
        ensures
            res == self.ui().view_size,
    {
        self.view_size
    }

    /// The engine, for custom widgets.
    pub fn engine(&self) -> (res: &Engine)
        ensures
            *res == self.spec_engine(),
    {
        &self.engine
    }

    /// The engine, to change, for custom widgets.
    pub fn mut_engine(&mut self) -> (res: &mut Engine)
        ensures
            *res == old(self).spec_engine(),
            final(self).spec_engine() == *final(res),
            final(self).ui() == old(self).ui(),
    {
        &mut self.engine
    }

    /// Lets the engine work, then shows the current tab's pixels: the new ones when the
    /// page has loaded and needs a repaint, a white image when it is still loading.
    /// Which of the three happens the engine decides: the tabs stay as they were (loaded,
    /// no repaint), or the current tab alone shows a new image of the view's size, which
    /// is white while the page loads.
    fn update_engine(&mut self)
        requires
            old(self).tabs().has_current(),
        ensures
            final(self).ui() == old(self).ui(),
            final(self).same_tab_ids(old(self)),
            final(self).requests() == old(self).requests(),
            ({
                ||| final(self).tabs() == old(self).tabs()
                ||| exists|view: ImageInfo, buffer: (PixelFormat, Vec<u8>)|
                    #[trigger] shows_in_current(old(self).tabs(), final(self).tabs(), view)
                        && #[trigger] old(self).spec_engine().renders(buffer) && view.pixels@
                        == rgba_pixels(buffer.0, buffer.1@) && view.width == old(
                        self,
                    ).ui().view_size.width && view.height == old(self).ui().view_size.height
                ||| exists|view: ImageInfo|
                    #[trigger] shows_in_current(old(self).tabs(), final(self).tabs(), view)
                        && view.width == old(self).ui().view_size.width && view.height == old(
                        self,
                    ).ui().view_size.height && view.pixels@.len() == 800 * 800 * 4 && forall|
                        i: int,
                    | 0 <= i < view.pixels@.len() ==> view.pixels@[i] == 255
            }),
    {
        self.engine.do_work();
        if self.engine.has_loaded() {
            if self.engine.need_render() {
                let buffer = self.engine.pixel_buffer();
                let ghost b = buffer;
                let (format, image_data) = buffer;
                let view = ImageInfo::new(
                    image_data,
                    format,
                    self.view_size.width,
                    self.view_size.height,
                );
                self.show_in_current_tab(view);
                assert(shows_in_current(old(self).tabs(), self.tabs(), view) && old(
                    self,
                ).spec_engine().renders(b) && view.pixels@ == rgba_pixels(b.0, b.1@));
            }
        } else {
            let mut view = ImageInfo::default();
            view.width = self.view_size.width;
            view.height = self.view_size.height;
            self.show_in_current_tab(view);
            assert(shows_in_current(old(self).tabs(), self.tabs(), view));
        }
    }

    /// Shows an image in the current tab.
    fn show_in_current_tab(&mut self, view: ImageInfo)
        requires
            old(self).tabs().has_current(),
        ensures
            final(self).ui() == old(self).ui(),
            final(self).same_tab_ids(old(self)),
            final(self).requests() == old(self).requests(),
            shows_in_current(old(self).tabs(), final(self).tabs(), view),
    {
        let ghost before = self.engine.spec_tabs();
        proof {
            let j = choose|j: int| 0 <= j < before.ids().len() && before.ids()[j] == before.current();
            crate::engines::lemma_first_index_exists(before.ids(), before.current(), j);
        }
        let tabs = self.engine.get_tabs_mut();
        let tab = tabs.get_current_mut();
        tab.set_view(view);
        proof {
            lemma_ids_of_update(
                before.tab_list(),
                crate::engines::first_index_of(before.ids(), before.current()),
                *tab,
            );
        }
    }

    /// Lets the engine work and shows the current tab's pixels; used to update the
    /// browser view periodically.
    pub fn force_update(&mut self) -> (res: Task)
        requires
            old(self).tabs().has_current(),
        ensures
            final(self).ui() == old(self).ui(),
            final(self).same_tab_ids(old(self)),
            final(self).requests() == old(self).requests(),
            exists|view: ImageInfo, buffer: (PixelFormat, Vec<u8>)|
                #[trigger] shows_in_current(old(self).tabs(), final(self).tabs(), view)
                    && #[trigger] old(self).spec_engine().renders(buffer) && view.pixels@ == rgba_pixels(
                    buffer.0,
                    buffer.1@,
                ) && view.width == old(self).ui().view_size.width && view.height == old(
                    self,
                ).ui().view_size.height,
            res == Task::Nothing,
    {
        self.engine.do_work();
        let buffer = self.engine.pixel_buffer();
        let ghost b = buffer;
        let (format, image_data) = buffer;
        let view = ImageInfo::new(image_data, format, self.view_size.width, self.view_size.height);
        self.show_in_current_tab(view);
        assert(shows_in_current(old(self).tabs(), self.tabs(), view) && old(self).spec_engine().renders(b)
            && view.pixels@ == rgba_pixels(b.0, b.1@));
        Task::Nothing
    }

    /// Opens a tab on the homepage and makes it current.
    fn create_tab(&mut self)
        requires
            old(self).can_create_tab(),
        ensures
            final(self).tabs().has_current(),
            old(self).tabs().history_open() ==> final(self).tabs().history_open(),
            old(self).tabs().tabs_in_history() ==> final(self).tabs().tabs_in_history(),
            exists|id: u32|
                final(self).tabs().ids() == old(self).tabs().ids().push(id)
                    && final(self).tabs().history_list() == old(self).tabs().history_list().push(id)
                    && final(self).requests() == old(self).requests() + create_requests(
                    old(self).ui(),
                    id,
                ),
            final(self).ui() == (BrowserUi { nav_url: old(self).ui().home, ..old(self).ui() }),
    {
        let ghost r0 = self.requests();
        let ghost ui0 = self.ui();
        self.nav_bar_state.0 = self.home.to_string();
        let home = self.home.duplicate();
        let bounds = self.view_size;
        let tab = self.engine.new_tab(
            home.duplicate(),
            Size::new(bounds.width + 10, bounds.height - 10),
        );
        let ghost t0 = self.engine.spec_tabs();
        let id = self.engine.get_tabs_mut().insert(tab);
        let ghost t1 = self.engine.spec_tabs();
        self.engine.get_tabs_mut().set_current_id(id);
        let ghost t2 = self.engine.spec_tabs();
        proof {
            assert(t1.ids() =~= t0.ids().push(id));
            assert(t2.ids() == t1.ids());
            assert(t2.ids()[t0.ids().len() as int] == id);
            assert(t2.ids().contains(id));
            if t0.history_open() {
                law_insert_keeps_history_open(t0, t1, tab);
                law_select_keeps_history_open(t1, t2, id);
            }
            if t0.tabs_in_history() {
                law_insert_select_keeps_tabs_in_history(t0, t2, tab);
            }
        }
        self.engine.force_need_render();
        self.engine.resize(bounds);
        self.engine.goto_url(&home);
        proof {
            assert(self.requests() =~= r0 + create_requests(ui0, id));
            assert(self.tabs().ids() == old(self).tabs().ids().push(id));
            assert(self.tabs().history_list() == old(self).tabs().history_list().push(id));
        }
    }
}


impl<Engine: BrowserEngine> IcyBrowser<Engine> {
    /// Whether a shortcut that hides the palette fires.
    fn hide_shortcut_pressed(&self, key: &Key, modifiers: &Modifiers) -> (res: bool)
        ensures
            res == hide_shortcut_fires(self.ui().shortcuts, *key, *modifiers),
    {
        let ghost sc = self.shortcuts@;
        let mut i: usize = 0;
        while i < self.shortcuts.len()
            invariant
                sc == self.shortcuts@,
                sc == self.ui().shortcuts,
                i <= sc.len(),
                forall|k: int|
                    0 <= k < i ==> !((sc[k].spec_action() == Message::HideOverlay
                        || sc[k].spec_action() == Message::ToggleOverlay) && #[trigger] sc[k].fires(
                        *key,
                        *modifiers,
                    )),
            decreases sc.len() - i,
        {
            let shortcut = &self.shortcuts[i];
            let hides = match shortcut.action() {
                Message::HideOverlay => true,
                Message::ToggleOverlay => true,
                _ => false,
            };
            if hides && shortcut.is_pressed(key, modifiers) {
                assert(sc[i as int].fires(*key, *modifiers));
                return true;
            }
            i = i + 1;
        }
        false
    }

    /// The position of the first shortcut that fires, if one does.
    fn firing_shortcut(&self, key: &Key, modifiers: &Modifiers) -> (res: Option<usize>)
        ensures
            res is Some <==> some_shortcut_fires(self.ui().shortcuts, *key, *modifiers),
            res matches Some(i) ==> i == first_firing(self.ui().shortcuts, *key, *modifiers) && i
                < self.ui().shortcuts.len(),
    {
        let ghost sc = self.shortcuts@;
        let mut i: usize = 0;
        while i < self.shortcuts.len()
            invariant
                sc == self.shortcuts@,
                sc == self.ui().shortcuts,
                i <= sc.len(),
                forall|k: int| 0 <= k < i ==> !(#[trigger] sc[k].fires(*key, *modifiers)),
            decreases sc.len() - i,
        {
            if self.shortcuts[i].is_pressed(key, modifiers) {
                proof {
                    lemma_first_firing(sc, *key, *modifiers, i as int);
                }
                return Some(i);
            }
            i = i + 1;
        }
        None
    }

    /// The task that an event of the window triggers (see `event_task`).
    fn event_task_of(&self, event: &Option<Event>) -> (res: Task)
        ensures
            res == event_task(self.ui(), *event),
    {
        match event {
            Some(Event::Keyboard(KeyboardEvent::KeyPressed { key, modifiers, .. })) => {
                let is_escape = match key {
                    Key::Named(NamedKey::Escape) => true,
                    _ => false,
                };
                if self.show_overlay && is_escape {
                    return Task::Done(Message::HideOverlay);
                }
                let is_r = match key {
                    Key::Character(c) => str_eq(c.as_str(), "r"),
                    _ => false,
                };
                if modifiers.control() && is_r {
                    return Task::Done(Message::Refresh);
                }
                match self.firing_shortcut(key, modifiers) {
                    Some(i) => Task::Done(self.shortcuts[i].action().duplicate()),
                    None => Task::Nothing,
                }
            },
            _ => Task::Nothing,
        }
    }

    /// Handles a key pressed in the command palette; the flag says whether the engine
    /// is left alone afterwards.
    fn palette_key(&mut self, event: Option<KeyboardEvent>) -> (res: (Task, bool))
        ensures
            palette_key_effect(old(self).ui(), final(self).ui(), event, res.0),
            res.1 == leaves_engine(old(self).ui(), Message::CommandPaletteKeyboardEvent(event)),
            final(self).spec_engine() == old(self).spec_engine(),
    {
        match event {
            Some(KeyboardEvent::KeyPressed { key, modified_key: _, location: _, modifiers, text: _ }) => {
                if self.hide_shortcut_pressed(&key, &modifiers) {
                    self.command_palette_state.reset();
                    return (Task::Done(Message::HideOverlay), true);
                }
                match key {
                    Key::Named(NamedKey::Escape) => {
                        self.command_palette_state.reset();
                        (Task::Done(Message::HideOverlay), false)
                    },
                    Key::Named(NamedKey::ArrowDown) => {
                        self.command_palette_state.next_item();
                        (Task::Nothing, false)
                    },
                    Key::Named(NamedKey::ArrowUp) => {
                        self.command_palette_state.previous_item();
                        (Task::Nothing, false)
                    },
                    Key::Named(NamedKey::Backspace) => {
                        self.command_palette_state.has_error = false;
                        let n = self.command_palette_state.query.as_str().unicode_len();
                        if n > 0 {
                            let shorter = String::from_str(
                                self.command_palette_state.query.as_str().substring_char(0, n - 1),
                            );
                            self.command_palette_state.query = shorter;
                            (Task::Done(Message::CommandPaletteQueryChanged), false)
                        } else {
                            (Task::Nothing, false)
                        }
                    },
                    Key::Named(NamedKey::Space) => {
                        self.command_palette_state.has_error = false;
                        let ghost q = self.command_palette_state.query@;
                        self.command_palette_state.query.append(" ");
                        proof {
                            reveal_strlit(" ");
                            assert(self.command_palette_state.query@ =~= q.push(' '));
                        }
                        (Task::Done(Message::CommandPaletteQueryChanged), false)
                    },
                    Key::Character(c) => {
                        self.command_palette_state.has_error = false;
                        // paste instead of typing the character
                        if modifiers.control() && str_eq(c.as_str(), "v") {
                            let text = clipboard_text();
                            let ghost t = text;
                            if self.command_palette_state.paste(text) {
                                assert(pasted(old(self).ui().palette, self.ui().palette, t, Task::Done(Message::CommandPaletteQueryChanged)));
                                (Task::Done(Message::CommandPaletteQueryChanged), false)
                            } else {
                                assert(pasted(old(self).ui().palette, self.ui().palette, t, Task::Nothing));
                                (Task::Nothing, false)
                            }
                        } else {
                            self.command_palette_state.query.append(c.as_str());
                            (Task::Done(Message::CommandPaletteQueryChanged), false)
                        }
                    },
                    Key::Named(NamedKey::Enter) => {
                        let found = match self.command_palette_state.submitted() {
                            Some(r) => Some(submit_message(r)),
                            None => None,
                        };
                        match found {
                            Some(message) => {
                                self.command_palette_state.reset();
                                let mut tasks: Vec<Message> = Vec::new();
                                tasks.push(message);
                                tasks.push(Message::HideOverlay);
                                (Task::Batch(tasks), true)
                            },
                            None => {
                                self.command_palette_state.has_error = true;
                                (Task::Nothing, false)
                            },
                        }
                    },
                    _ => (Task::Nothing, false),
                }
            },
            _ => (Task::Nothing, false),
        }
    }

    /// Closes the tab that the selection names; a new tab on the homepage is opened first
    /// when it is the only one, so that one always stays open.
    fn close_tab(&mut self, index_type: TabSelectionType)
        requires
            old(self).ready(),
            old(self).tabs().tab_list().len() == 1 ==> old(self).can_create_tab(),
            (index_type matches TabSelectionType::Index(i) ==> i < if old(self).tabs().tab_list().len()
                == 1 {
                2
            } else {
                old(self).tabs().tab_list().len()
            }),
        ensures
            final(self).ready(),
            old(self).tabs().tabs_in_history() ==> final(self).tabs().tabs_in_history(),
            final(self).ui() == (BrowserUi { nav_url: final(self).ui().nav_url, ..old(self).ui() }),
            current_reports_url(final(self).tabs(), final(self).ui().nav_url)
                || final(self).ui().nav_url == (if old(self).tabs().tab_list().len() == 1 {
                old(self).ui().home
            } else {
                old(self).ui().nav_url
            }),
            old(self).tabs().tab_list().len() == 1 ==> exists|r: u32|
                #[trigger] closed_tab(
                    old(self).tabs().ids().push(r),
                    old(self).tabs().history_list().push(r),
                    final(self).tabs(),
                    index_type,
                ) && final(self).requests() == old(self).requests() + create_requests(
                    old(self).ui(),
                    r,
                ),
            old(self).tabs().tab_list().len() != 1 ==> closed_tab(
                old(self).tabs().ids(),
                old(self).tabs().history_list(),
                final(self).tabs(),
                index_type,
            ) && final(self).requests() == old(self).requests(),
    {
        let ghost t0 = self.tabs();
        let ghost ui0 = self.ui();
        let ghost r0 = self.requests();
        if self.engine.get_tabs().tabs().len() == 1 {
            self.create_tab();
            self.update_engine();
        }
        let ghost t1 = self.tabs();
        let ghost r1 = self.requests();
        let id = match index_type {
            TabSelectionType::Id(id) => id,
            TabSelectionType::Index(index) => self.engine.get_tabs().index_to_id(index),
        };
        if self.engine.get_tabs().has_other_than(id) {
            self.engine.get_tabs_mut().remove(id);
            let ghost t2 = self.tabs();
            proof {
                lemma_ids_of_filter(t1.tab_list(), id);
                if t1.tabs_in_history() {
                    law_remove_keeps_tabs_in_history(t1, t2, id);
                }
                law_remove_keeps_history_open(t1, t2, id);
                assert(t2.history_open());
                let last = t2.history_list().len() - 1;
                assert(t2.ids().contains(t2.history_list()[last]));
            }
            let url = self.engine.get_tabs().get_current().url();
            self.nav_bar_state.0 = url;
            assert(current_reports_url(self.tabs(), self.ui().nav_url));
        }
        proof {
            assert(self.requests() == r1);
            if t0.tab_list().len() == 1 {
                let r = choose|r: u32|
                    t1.ids() == t0.ids().push(r) && t1.history_list() == t0.history_list().push(r)
                        && r1 == r0 + create_requests(ui0, r);
                assert(closed_tab(t0.ids().push(r), t0.history_list().push(r), self.tabs(), index_type));
            }
        }
    }

    /// Passes a message that asks something of the engine on to it: a size, an event,
    /// going back or forward, a reload, or a url to load (none when it does not parse).
    fn send_to_engine(&mut self, event: Message) -> (res: Task)
        requires
            old(self).tabs().has_current(),
            event is UpdateViewSize || event is SendKeyboardEvent || event is SendMouseEvent
                || event is GoBackward || event is GoForward || event is Refresh || event is GoHome
                || event is GoToUrl,
            (event matches Message::SendKeyboardEvent(e) ==> e is Some),
            (event matches Message::SendMouseEvent(_, e) ==> e is Some),
        ensures
            ui_effect(old(self).ui(), final(self).ui(), old(self).tabs(), event, res),
            final(self).tabs() == old(self).tabs(),
            (event is GoBackward || event is GoForward) ==> current_reports_url(
                final(self).tabs(),
                final(self).ui().nav_url,
            ),
            final(self).requests() == old(self).requests() + engine_requests(
                old(self).ui(),
                old(self).tabs(),
                event,
            ),
    {
        let ghost r0 = self.requests();
        match event {
            Message::UpdateViewSize(size) => {
                self.view_size = size;
                self.engine.resize(size);
            },
            Message::SendKeyboardEvent(e) => {
                match e {
                    Some(e) => self.engine.handle_keyboard_event(e),
                    None => {},
                }
            },
            Message::SendMouseEvent(point, e) => {
                match e {
                    Some(e) => self.engine.handle_mouse_event(point, e),
                    None => {},
                }
            },
            Message::GoBackward => {
                self.engine.go_back();
                let url = self.engine.get_tabs().get_current().url();
                self.nav_bar_state.0 = url;
                assert(current_reports_url(self.tabs(), self.ui().nav_url));
            },
            Message::GoForward => {
                self.engine.go_forward();
                let url = self.engine.get_tabs().get_current().url();
                self.nav_bar_state.0 = url;
                assert(current_reports_url(self.tabs(), self.ui().nav_url));
            },
            Message::Refresh => {
                self.engine.refresh();
            },
            Message::GoHome => {
                self.engine.goto_url(&self.home);
            },
            Message::GoToUrl(url) => {
                match to_url(url.as_str()) {
                    Some(u) => self.engine.goto_url(&u),
                    None => {},
                }
            },
            _ => {},
        }
        proof {
            assert(self.requests() =~= r0 + engine_requests(old(self).ui(), old(self).tabs(), event));
        }
        Task::Nothing
    }

    /// Makes the tab that the selection names current.
    fn change_tab(&mut self, index_type: TabSelectionType)
        requires
            valid_selection(old(self).tabs().ids(), index_type),
        ensures
            final(self).tabs().has_current(),
            old(self).tabs().history_open() ==> final(self).tabs().history_open(),
            old(self).tabs().tabs_in_history() ==> final(self).tabs().tabs_in_history(),
            final(self).tabs().ids() == old(self).tabs().ids(),
            final(self).tabs().history_list() == old(self).tabs().history_list().push(
                selected_id(old(self).tabs().ids(), index_type),
            ),
            final(self).requests() == old(self).requests(),
            final(self).ui() == (BrowserUi { nav_url: final(self).ui().nav_url, ..old(self).ui() }),
            current_reports_url(final(self).tabs(), final(self).ui().nav_url),
    {
        let id = match index_type {
            TabSelectionType::Id(id) => id,
            TabSelectionType::Index(index) => self.engine.get_tabs().index_to_id(index),
        };
        let ghost t0 = self.tabs();
        self.engine.get_tabs_mut().set_current_id(id);
        proof {
            assert(t0.ids().contains(id));
            crate::engines::law_current_after_set(t0, self.tabs(), id);
            if t0.history_open() {
                law_select_keeps_history_open(t0, self.tabs(), id);
            }
            if t0.tabs_in_history() {
                law_select_keeps_tabs_in_history(t0, self.tabs(), id);
            }
        }
        let url = self.engine.get_tabs().get_current().url();
        self.nav_bar_state.0 = url;
        assert(current_reports_url(self.tabs(), self.ui().nav_url));
    }

    /// The update function: handles a message, lets the engine work, and returns the
    /// task that follows.
    ///
    /// A `GoToUrl` whose text does not parse as a url, even behind `https://`, asks
    /// nothing of the engine, so that a mistyped address leaves the page as it is.
    pub fn update(&mut self, event: Message) -> (res: Task)
        requires
            old(self).tabs().has_current() || event is CreateTab || leaves_engine(
                old(self).ui(),
                event,
            ),
            event is CloseTab ==> old(self).tabs().history_open(),
            (event is CreateTab || (event is CloseTab && old(self).tabs().tab_list().len() == 1))
                ==> old(self).can_create_tab(),
            (event matches Message::SendKeyboardEvent(e) ==> e is Some),
            (event matches Message::SendMouseEvent(_, e) ==> e is Some),
            (event matches Message::ChangeTab(sel) ==> valid_selection(old(self).tabs().ids(), sel)),
            (event matches Message::CloseTab(TabSelectionType::Index(i)) ==> i < if old(
                self,
            ).tabs().tab_list().len() == 1 {
                2
            } else {
                old(self).tabs().tab_list().len()
            }),
        ensures
            old(self).tabs().has_current() || event is CreateTab ==> final(self).tabs().has_current(),
            old(self).tabs().has_current() && old(self).tabs().history_open() || event is CreateTab
                && old(self).tabs().history_open() ==> final(self).ready(),
            old(self).tabs().tabs_in_history() ==> final(self).tabs().tabs_in_history(),
            ui_effect(old(self).ui(), final(self).ui(), old(self).tabs(), event, res),
            match event {
                Message::ChangeTab(_) | Message::GoBackward | Message::GoForward
                | Message::UpdateUrl => current_reports_url(final(self).tabs(), final(self).ui().nav_url),
                Message::CloseTab(_) => current_reports_url(final(self).tabs(), final(self).ui().nav_url)
                    || final(self).ui().nav_url == (if old(self).tabs().tab_list().len() == 1 {
                    old(self).ui().home
                } else {
                    old(self).ui().nav_url
                }),
                _ => true,
            },
            ({
                let before = old(self).tabs();
                let after = final(self).tabs();
                let asked = old(self).requests();
                let now = final(self).requests();
                match event {
                    Message::ChangeTab(sel) => after.ids() == before.ids() && after.history_list()
                        == before.history_list().push(selected_id(before.ids(), sel)) && now
                        == asked,
                    Message::CloseTab(sel) => if before.tab_list().len() == 1 {
                        exists|r: u32|
                            #[trigger] closed_tab(
                                before.ids().push(r),
                                before.history_list().push(r),
                                after,
                                sel,
                            ) && now == asked + create_requests(old(self).ui(), r)
                    } else {
                        closed_tab(before.ids(), before.history_list(), after, sel) && now == asked
                    },
                    Message::CreateTab => exists|r: u32|
                        after.ids() == #[trigger] before.ids().push(r) && after.history_list()
                            == before.history_list().push(r) && now == asked + create_requests(
                            old(self).ui(),
                            r,
                        ),
                    _ => after.ids() == before.ids() && after.history_list()
                        == before.history_list() && now == asked + engine_requests(
                        old(self).ui(),
                        before,
                        event,
                    ),
                }
            }),
    {
        let task = match event {
            Message::Update => self.force_update(),
            Message::UpdateViewSize(size) => self.send_to_engine(Message::UpdateViewSize(size)),
            Message::SendKeyboardEvent(e) => self.send_to_engine(Message::SendKeyboardEvent(e)),
            Message::SendMouseEvent(point, e) => self.send_to_engine(
                Message::SendMouseEvent(point, e),
            ),
            Message::ChangeTab(index_type) => {
                self.change_tab(index_type);
                Task::Nothing
            },
            Message::CloseCurrentTab => Task::Done(
                Message::CloseTab(TabSelectionType::Id(self.engine.get_tabs().get_current_id())),
            ),
            Message::CloseTab(index_type) => {
                self.close_tab(index_type);
                Task::Nothing
            },
            Message::CreateTab => {
                self.create_tab();
                Task::Nothing
            },
            Message::GoBackward => self.send_to_engine(Message::GoBackward),
            Message::GoForward => self.send_to_engine(Message::GoForward),
            Message::Refresh => self.send_to_engine(Message::Refresh),
            Message::GoHome => self.send_to_engine(Message::GoHome),
            Message::GoToUrl(url) => self.send_to_engine(Message::GoToUrl(url)),
            Message::UpdateUrl => {
                let url = self.engine.get_tabs().get_current().url();
                self.nav_bar_state.0 = url;
                assert(current_reports_url(self.tabs(), self.ui().nav_url));
                Task::Nothing
            },
            Message::UrlChanged(url) => {
                self.nav_bar_state.0 = url;
                Task::Nothing
            },
            Message::ToggleTabBar => {
                self.with_tab_bar = !self.with_tab_bar;
                Task::Nothing
            },
            Message::ShowTabBar => {
                self.with_tab_bar = true;
                Task::Nothing
            },
            Message::HideTabBar => {
                self.with_tab_bar = false;
                Task::Nothing
            },
            Message::ToggleNavBar => {
                self.with_nav_bar = !self.with_nav_bar;
                Task::Nothing
            },
            Message::ShowNavBar => {
                self.with_nav_bar = true;
                Task::Nothing
            },
            Message::HideNavBar => {
                self.with_nav_bar = false;
                Task::Nothing
            },
            Message::ToggleBookmarkBar => {
                self.with_bookmark_bar = !self.with_bookmark_bar;
                Task::Nothing
            },
            Message::ShowBookmarkBar => {
                self.with_bookmark_bar = true;
                Task::Nothing
            },
            Message::HideBookmarkBar => {
                self.with_bookmark_bar = false;
                Task::Nothing
            },
            Message::CommandPaletteQueryChanged => {
                let tabs = self.engine.get_tabs().display_tabs();
                let ghost shown = tabs@;
                self.command_palette_state.update_filtered_results(tabs);
                proof {
                }
                Task::Nothing
            },
            Message::CommandPaletteKeyboardEvent(event) => {
                let (task, leave_engine) = self.palette_key(event);
                if leave_engine {
                    return task;
                }
                task
            },
            Message::ToggleOverlay => {
                if self.show_overlay {
                    Task::Done(Message::HideOverlay)
                } else {
                    Task::Done(Message::ShowOverlay)
                }
            },
            Message::ShowOverlay => {
                self.show_overlay = true;
                Task::FocusNext
            },
            Message::HideOverlay => {
                self.show_overlay = false;
                Task::FocusNext
            },
            Message::IcedEvent(event) => {
                let task = self.event_task_of(&event);
                match task {
                    Task::Nothing => Task::Nothing,
                    _ => {
                        return task;
                    },
                }
            },
        };
        let ghost mid = self.tabs();
        let ghost asked_mid = self.requests();
        let ghost nav_mid = self.ui().nav_url;
        self.update_engine();
        proof {
            if current_reports_url(mid, nav_mid) && self.tabs() != mid {
                assert(exists|view: ImageInfo| #[trigger] shows_in_current(mid, self.tabs(), view));
                let view = choose|view: ImageInfo| #[trigger] shows_in_current(mid, self.tabs(), view);
                lemma_current_reports_kept(mid, self.tabs(), view, nav_mid);
            }
            let before = old(self).tabs();
            let asked = old(self).requests();
            if event is CloseTab && before.tab_list().len() == 1 {
                let sel = event->CloseTab_0;
                let r = choose|r: u32|
                    #[trigger] closed_tab(before.ids().push(r), before.history_list().push(r), mid, sel)
                        && asked_mid == asked + create_requests(old(self).ui(), r);
                assert(closed_tab(before.ids().push(r), before.history_list().push(r), self.tabs(), sel));
            }
            if event is CreateTab {
                let r = choose|r: u32|
                    mid.ids() == #[trigger] before.ids().push(r) && mid.history_list()
                        == before.history_list().push(r) && asked_mid == asked + create_requests(
                        old(self).ui(),
                        r,
                    );
                assert(self.tabs().ids() == before.ids().push(r));
            }
        }
        task
    }
}

} // verus!
