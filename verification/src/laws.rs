//! Properties that relate several calls of the library.
use vstd::prelude::*;

use crate::engines::{BrowserEngine, TabInfo, Tabs};
use crate::helpers::swap_red_blue;
use crate::selection::{next_selection, previous_selection};
use crate::text::lemma_first_position;
use crate::widgets::command_palette::{filtered_for, matches_query, tab_results, CommandPaletteState};
use crate::widgets::{
    engine_requests, event_task, ui_effect, BrowserUi, IcyBrowser, Message, Task,
};
use crate::engines::EngineRequest;
use crate::engines::ultralight::named_key_code;
use crate::input::{Event, Key, KeyboardEvent, Location, Modifiers, NamedKey};
use crate::shortcut::{Shortcut, ShortcutModifier};

verus! {

/// Turning blue-green-red-alpha pixels into red-green-blue-alpha ones twice gives the
/// pixels back (`bgr_to_rgb` is its own inverse).
pub proof fn law_swap_red_blue_twice(pixels: Seq<u8>)
    requires
        pixels.len() % 4 == 0,
    ensures
        swap_red_blue(swap_red_blue(pixels)) == pixels,
{
    assert(swap_red_blue(swap_red_blue(pixels)) =~= pixels);
}

/// A browser that is ready shows at least one tab: there is always a tab open.
pub proof fn law_ready_has_a_tab<Engine: BrowserEngine>(browser: IcyBrowser<Engine>)
    requires
        browser.ready(),
    ensures
        browser.tabs().tab_list().len() > 0,
{
}

/// Toggling a bar (tab, navigation or bookmark bar) twice leaves the browser as it was,
/// and neither toggle asks for anything.
pub proof fn law_toggle_twice<Info: TabInfo>(
    first: BrowserUi,
    second: BrowserUi,
    third: BrowserUi,
    tabs1: Tabs<Info>,
    tabs2: Tabs<Info>,
    event: Message,
    res1: Task,
    res2: Task,
)
    requires
        event is ToggleTabBar || event is ToggleNavBar || event is ToggleBookmarkBar,
        ui_effect(first, second, tabs1, event, res1),
        ui_effect(second, third, tabs2, event, res2),
    ensures
        third == first,
        res1 == Task::Nothing,
        res2 == Task::Nothing,
{
}

/// Showing the command palette and then hiding it leaves the palette hidden, the rest
/// as it was; each asks for the focus to move on.
pub proof fn law_show_then_hide_overlay<Info: TabInfo>(
    first: BrowserUi,
    second: BrowserUi,
    third: BrowserUi,
    tabs1: Tabs<Info>,
    tabs2: Tabs<Info>,
    res1: Task,
    res2: Task,
)
    requires
        ui_effect(first, second, tabs1, Message::ShowOverlay, res1),
        ui_effect(second, third, tabs2, Message::HideOverlay, res2),
    ensures
        third == (BrowserUi { show_overlay: false, ..first }),
        res1 == Task::FocusNext,
        res2 == Task::FocusNext,
{
}

/// Moving the selection down and then up comes back to the selected entry, when the
/// names shown are distinct and the selected one is shown but not last.
pub proof fn law_next_then_previous(names: Seq<Seq<char>>, selected: Seq<char>)
    requires
        names.no_duplicates(),
        names.contains(selected),
        selected != names.last(),
    ensures
        previous_selection(names, next_selection(names, Some(selected))) == Some(selected),
{
    let j = choose|j: int| 0 <= j < names.len() && names[j] == selected;
    lemma_first_position(names, selected, j);
    let p = crate::text::first_position(names, selected);
    assert(p + 1 < names.len()) by {
        if p + 1 >= names.len() {
            assert(names[names.len() - 1] == selected);
        }
    }
    let n = names[p + 1];
    assert(names[p + 1] != names[p]);
    lemma_first_position(names, n, p + 1);
    let q = crate::text::first_position(names, n);
    assert(q == p + 1) by {
        if q < p + 1 {
            assert(names[q] == n);
        }
    }
    assert(n != names[0]) by {
        if n == names[0] {
            assert(names[0] == names[p + 1]);
        }
    }
}

/// Moving the selection down or up keeps it on a shown entry, once there is one.
pub proof fn law_selection_stays_shown(names: Seq<Seq<char>>, selected: Option<Seq<char>>)
    requires
        names.len() > 0,
        selected matches Some(s) ==> names.contains(s),
    ensures
        next_selection(names, selected) matches Some(s) && names.contains(s),
        previous_selection(names, selected) matches Some(s) && names.contains(s),
{
    match selected {
        None => {
            assert(names.contains(names[0]));
        },
        Some(s) => {
            let j = choose|j: int| 0 <= j < names.len() && names[j] == s;
            lemma_first_position(names, s, j);
            let p = crate::text::first_position(names, s);
            if s != names.last() {
                if p + 1 >= names.len() {
                    assert(names[names.len() - 1] == s);
                }
                assert(names.contains(names[p + 1]));
            }
            if s != names[0] {
                if p == 0 {
                    assert(names[0] == s);
                }
                assert(names.contains(names[p - 1]));
            }
        },
    }
}

/// Every entry the command palette shows after the query changes matches the query,
/// ignoring case, in its category or its name.
pub proof fn law_filtered_entries_match(
    before: CommandPaletteState,
    after: CommandPaletteState,
    tabs: Seq<crate::engines::DisplayTab>,
    i: int,
)
    requires
        filtered_for(before, after, tabs),
        0 <= i < after.filtered_results@.len(),
    ensures
        matches_query(before.query@)(after.filtered_results@[i]),
{
    broadcast use vstd::seq_lib::group_filter_ensures;

    let kept = (before.possible_results@ + tab_results(tabs)).filter(matches_query(before.query@));
    if i < kept.len() {
        assert(after.filtered_results@[i] == kept[i]);
    }
}


/// In the command palette, a step down (`next_item`) and then a step up
/// (`previous_item`) give back the selected entry, when the names shown are distinct and
/// the selected one is shown but not last; the entries shown stay as they were.
pub proof fn law_palette_down_then_up(
    first: CommandPaletteState,
    second: CommandPaletteState,
    third: CommandPaletteState,
)
    requires
        first.shown_names().no_duplicates(),
        first.selected_item.deep_view() matches Some(s) && first.shown_names().contains(s)
            && s != first.shown_names().last(),
        second.selected_item.deep_view() == next_selection(
            first.shown_names(),
            first.selected_item.deep_view(),
        ),
        second.filtered_results == first.filtered_results,
        third.selected_item.deep_view() == previous_selection(
            second.shown_names(),
            second.selected_item.deep_view(),
        ),
        third.filtered_results == second.filtered_results,
    ensures
        third.selected_item.deep_view() == first.selected_item.deep_view(),
        third.filtered_results == first.filtered_results,
{
    let s = first.selected_item.deep_view()->0;
    law_next_then_previous(first.shown_names(), s);
}


/// The Back command asks the engine to go back, and only that; the Forward command asks
/// it to go forward, and only that: the two never ask for the same thing. Refresh asks
/// for a reload, and Home for the homepage in the current tab.
pub proof fn law_back_and_forward_requests<Info: TabInfo>(ui: BrowserUi, tabs: Tabs<Info>)
    ensures
        engine_requests(ui, tabs, Message::GoBackward) == seq![EngineRequest::GoBack],
        engine_requests(ui, tabs, Message::GoForward) == seq![EngineRequest::GoForward],
        engine_requests(ui, tabs, Message::GoBackward) != engine_requests(
            ui,
            tabs,
            Message::GoForward,
        ),
        engine_requests(ui, tabs, Message::Refresh) == seq![EngineRequest::Refresh],
        engine_requests(ui, tabs, Message::GoHome) == seq![
            EngineRequest::GoTo { url: ui.home, tab: tabs.current() },
        ],
{
    assert(seq![EngineRequest::GoBack][0] != seq![EngineRequest::GoForward][0]);
}

/// In the command palette, with distinct names shown and the entry at position `j`
/// selected, ArrowDown selects the entry right after it (when there is one) and ArrowUp
/// the entry right before it (when there is one); nothing else of the browser changes.
pub proof fn law_palette_arrows_move_by_one<Info: TabInfo>(
    before: BrowserUi,
    after: BrowserUi,
    tabs: Tabs<Info>,
    down: bool,
    location: Location,
    modifiers: Modifiers,
    text: Option<String>,
    j: int,
    res: Task,
)
    requires
        before.palette.shown_names().no_duplicates(),
        0 <= j < before.palette.shown_names().len(),
        before.palette.selected_item.deep_view() == Some(before.palette.shown_names()[j]),
        down ==> j + 1 < before.palette.shown_names().len(),
        !down ==> j > 0,
        ui_effect(
            before,
            after,
            tabs,
            Message::CommandPaletteKeyboardEvent(
                Some(
                    KeyboardEvent::KeyPressed {
                        key: Key::Named(if down { NamedKey::ArrowDown } else { NamedKey::ArrowUp }),
                        modified_key: Key::Named(
                            if down { NamedKey::ArrowDown } else { NamedKey::ArrowUp },
                        ),
                        location,
                        modifiers,
                        text,
                    },
                ),
            ),
            res,
        ),
    ensures
        down ==> after.palette.selected_item.deep_view() == Some(
            before.palette.shown_names()[j + 1],
        ),
        !down ==> after.palette.selected_item.deep_view() == Some(
            before.palette.shown_names()[j - 1],
        ),
        after.palette.filtered_results == before.palette.filtered_results,
        after.palette.query == before.palette.query,
        res == Task::Nothing,
{
    let names = before.palette.shown_names();
    let key = Key::Named(if down { NamedKey::ArrowDown } else { NamedKey::ArrowUp });
    // a named key fires no shortcut
    assert forall|i: int| 0 <= i < before.shortcuts.len() implies !(
    #[trigger] before.shortcuts[i].fires(key, modifiers)) by {}
    let s = names[j];
    lemma_first_position(names, s, j);
    let p = crate::text::first_position(names, s);
    assert(p == j) by {
        if p < j {
            assert(names[p] == names[j]);
        }
    }
    if down {
        assert(s != names.last()) by {
            assert(names[names.len() - 1] != names[j]);
        }
    } else {
        assert(s != names[0]) by {
            assert(names[0] != names[j]);
        }
    }
}

/// A key pressed in the window, with no custom shortcuts, gives a task only for Escape
/// while the palette is shown (it hides it) and for Ctrl+R (it refreshes); a key pressed
/// without Control, other than that Escape, gives nothing, whatever the key.
pub proof fn law_window_keys_without_shortcuts(
    ui: BrowserUi,
    key: Key,
    modified_key: Key,
    location: Location,
    modifiers: Modifiers,
    text: Option<String>,
)
    requires
        ui.shortcuts.len() == 0,
    ensures
        ({
            let e = Some(
                Event::Keyboard(
                    KeyboardEvent::KeyPressed { key, modified_key, location, modifiers, text },
                ),
            );
            &&& (ui.show_overlay && key == Key::Named(NamedKey::Escape)) ==> event_task(ui, e)
                == Task::Done(Message::HideOverlay)
            &&& !(ui.show_overlay && key == Key::Named(NamedKey::Escape)) && modifiers.control
                && key is Character && key->Character_0@ == "r"@ ==> event_task(ui, e)
                == Task::Done(Message::Refresh)
            &&& !(ui.show_overlay && key == Key::Named(NamedKey::Escape)) && !modifiers.control
                ==> event_task(ui, e) == Task::Nothing
        }),
{
}

/// Every named key that the engine knows gets a virtual key code, a Windows code and a
/// Unix code of its own: two different keys never share one (so Backspace, which is
/// `Back`, is never taken for Delete).
pub proof fn law_named_key_codes_distinct(k1: NamedKey, k2: NamedKey)
    requires
        k1 != k2,
        named_key_code(k1) is Some,
        named_key_code(k2) is Some,
    ensures
        ({
            let a = named_key_code(k1)->0;
            let b = named_key_code(k2)->0;
            a.0 != b.0 && a.1 != b.1 && a.2 != b.2
        }),
{
}

/// A shortcut never fires on another character key, and fires on its own exactly when
/// its own modifier is held: Shift by the shift flag, Ctrl by the control flag, Alt by
/// the alt flag; the other modifiers play no part.
pub proof fn law_shortcut_modifier_flags(
    shortcut: Shortcut<'static, Message>,
    c: String,
    modifiers: Modifiers,
)
    ensures
        c@ != shortcut.spec_key() ==> !shortcut.fires(Key::Character(c), modifiers),
        c@ == shortcut.spec_key() && shortcut.spec_modifier() == ShortcutModifier::Shift ==> (
        shortcut.fires(Key::Character(c), modifiers) <==> modifiers.shift),
        c@ == shortcut.spec_key() && shortcut.spec_modifier() == ShortcutModifier::Ctrl ==> (
        shortcut.fires(Key::Character(c), modifiers) <==> modifiers.control),
        c@ == shortcut.spec_key() && shortcut.spec_modifier() == ShortcutModifier::Alt ==> (
        shortcut.fires(Key::Character(c), modifiers) <==> modifiers.alt),
{
}

} // verus!
