//! The command palette of the browser widget: commands, bookmarks, tabs and a url,
//! filtered by a query, with one of them selected.
use vstd::prelude::*;

use super::Message;
use crate::engines::DisplayTab;
use crate::helpers::{spec_to_url, to_url, Bookmark};
use crate::selection::{
    first_of, first_selection, list_rows, next_selected, next_selection, previous_selected,
    previous_selection, rows_spec, row_view, ListRow,
};
use crate::text::{contains_ignoring_case, contains_lowercase};

verus! {

/// An entry of the command palette.
#[derive(Clone, Debug, PartialEq)]
pub enum ResultType {
    Command(Message),
    Bookmark(Bookmark),
    Tab(DisplayTab),
    Url(String),
}

impl ResultType {
    /// The category the entry is listed under.
    pub open spec fn category(self) -> Seq<char> {
        match self {
            ResultType::Command(_) => "Commands"@,
            ResultType::Bookmark(_) => "Bookmarks"@,
            ResultType::Tab(_) => "Tabs"@,
            ResultType::Url(_) => "Url"@,
        }
    }

    /// The entry's name: a command's name, `name -> url` for a bookmark,
    /// `title -> url` for a tab, the url itself for a url.
    pub open spec fn name(self) -> Seq<char> {
        match self {
            ResultType::Command(m) => m.display_name(),
            ResultType::Bookmark(b) => b.spec_name() + " -> "@ + b.spec_url(),
            ResultType::Url(u) => u@,
            ResultType::Tab(t) => t.title@ + " -> "@ + t.url@,
        }
    }

    /// The category the entry is listed under.
    pub fn to_string(&self) -> (res: String)
        ensures
            res@ == self.category(),
    {
        match self {
            ResultType::Command(_) => String::from_str("Commands"),
            ResultType::Bookmark(_) => String::from_str("Bookmarks"),
            ResultType::Tab(_) => String::from_str("Tabs"),
            ResultType::Url(_) => String::from_str("Url"),
        }
    }

    /// The entry's name.
    pub fn inner_name(&self) -> (res: String)
        ensures
            res@ == self.name(),
    {
        match self {
            ResultType::Command(command) => command.to_string(),
            ResultType::Bookmark(bookmark) => {
                let mut s = bookmark.name().clone();
                s.append(" -> ");
                s.append(bookmark.url().as_str());
                s
            },
            ResultType::Url(url) => url.clone(),
            ResultType::Tab(tab) => {
                let mut s = tab.title.clone();
                s.append(" -> ");
                s.append(tab.url.as_str());
                s
            },
        }
    }

    /// A copy of the entry.
    pub fn duplicate(&self) -> (res: ResultType)
        ensures
            res == *self,
    {
        match self {
            ResultType::Command(m) => ResultType::Command(m.duplicate()),
            ResultType::Bookmark(b) => ResultType::Bookmark(b.duplicate()),
            ResultType::Tab(t) => ResultType::Tab(t.duplicate()),
            ResultType::Url(u) => ResultType::Url(u.clone()),
        }
    }
}

/// The names of a list of entries.
pub open spec fn names_of(results: Seq<ResultType>) -> Seq<Seq<char>> {
    results.map_values(|r: ResultType| r.name())
}

/// The categories of a list of entries.
pub open spec fn categories_of(results: Seq<ResultType>) -> Seq<Seq<char>> {
    results.map_values(|r: ResultType| r.category())
}

/// The names of a list of entries.
pub fn result_names(results: &Vec<ResultType>) -> (res: Vec<String>)
    ensures
        res.deep_view() == names_of(results@),
        res.len() == results.len(),
{
    let mut res: Vec<String> = Vec::new();
    let mut i: usize = 0;
    while i < results.len()
        invariant
            i <= results.len(),
            res.deep_view() == names_of(results@.take(i as int)),
            res.len() == i,
        decreases results.len() - i,
    {
        let ghost before = res.deep_view();
        let s = results[i].inner_name();
        res.push(s);
        proof {
            assert(res.deep_view() =~= before.push(s@));
            assert(names_of(results@.take(i + 1)) =~= names_of(results@.take(i as int)).push(s@));
        }
        i = i + 1;
    }
    assert(results@.take(results.len() as int) =~= results@);
    res
}

/// The categories of a list of entries.
pub fn result_categories(results: &Vec<ResultType>) -> (res: Vec<String>)
    ensures
        res.deep_view() == categories_of(results@),
        res.len() == results.len(),
{
    let mut res: Vec<String> = Vec::new();
    let mut i: usize = 0;
    while i < results.len()
        invariant
            i <= results.len(),
            res.deep_view() == categories_of(results@.take(i as int)),
            res.len() == i,
        decreases results.len() - i,
    {
        let ghost before = res.deep_view();
        let s = results[i].to_string();
        res.push(s);
        proof {
            assert(res.deep_view() =~= before.push(s@));
            assert(categories_of(results@.take(i + 1)) =~= categories_of(results@.take(i as int)).push(s@));
        }
        i = i + 1;
    }
    assert(results@.take(results.len() as int) =~= results@);
    res
}

/// A copy of a list of entries.
pub fn duplicate_results(results: &Vec<ResultType>) -> (res: Vec<ResultType>)
    ensures
        res@ == results@,
{
    let mut res: Vec<ResultType> = Vec::new();
    let mut i: usize = 0;
    while i < results.len()
        invariant
            i <= results.len(),
            res@ == results@.take(i as int),
        decreases results.len() - i,
    {
        res.push(results[i].duplicate());
        i = i + 1;
        assert(res@ =~= results@.take(i as int));
    }
    assert(results@.take(results.len() as int) =~= results@);
    res
}

/// The rows that show a list of entries (see `rows_spec`).
pub fn results_rows(results: &Vec<ResultType>, selected_item: &Option<String>) -> (res: Vec<ListRow>)
    ensures
        res@.map_values(|r: ListRow| row_view(r)) == rows_spec(
            categories_of(results@),
            names_of(results@),
            selected_item.deep_view(),
        ),
{
    let categories = result_categories(results);
    let names = result_names(results);
    list_rows(&categories, &names, selected_item)
}

/// The commands the palette offers, in order.
pub open spec fn palette_commands() -> Seq<Message> {
    seq![
        Message::GoBackward,
        Message::GoForward,
        Message::Refresh,
        Message::GoHome,
        Message::CloseCurrentTab,
        Message::CreateTab,
        Message::HideOverlay,
        Message::ToggleTabBar,
        Message::ShowTabBar,
        Message::HideTabBar,
        Message::ToggleNavBar,
        Message::ShowNavBar,
        Message::HideNavBar,
        Message::ToggleBookmarkBar,
        Message::ShowBookmarkBar,
        Message::HideBookmarkBar,
    ]
}

/// The entries of a new palette: the commands, then the bookmarks.
pub open spec fn initial_results(bookmarks: Option<Seq<Bookmark>>) -> Seq<ResultType> {
    palette_commands().map_values(|m: Message| ResultType::Command(m)) + match bookmarks {
        Some(b) => b.map_values(|b: Bookmark| ResultType::Bookmark(b)),
        None => Seq::<ResultType>::empty(),
    }
}

/// The entries for a list of tabs.
pub open spec fn tab_results(tabs: Seq<DisplayTab>) -> Seq<ResultType> {
    tabs.map_values(|t: DisplayTab| ResultType::Tab(t))
}

/// Whether an entry matches the query: its category or its name contains the query,
/// ignoring case.
pub open spec fn matches_query(query: Seq<char>) -> spec_fn(ResultType) -> bool {
    |r: ResultType|
        contains_ignoring_case(r.category(), query) || contains_ignoring_case(r.name(), query)
}

/// The state of the command palette.
pub struct CommandPaletteState {
    pub query: String,
    pub possible_results: Vec<ResultType>,
    pub filtered_results: Vec<ResultType>,
    pub selected_item: Option<String>,
    pub has_error: bool,
}

impl CommandPaletteState {
    /// The names of the entries shown.
    pub open spec fn shown_names(&self) -> Seq<Seq<char>> {
        names_of(self.filtered_results@)
    }

    /// A palette with the commands and the bookmarks, all shown, none selected.
    pub fn new(bookmarks: Option<Vec<Bookmark>>) -> (res: Self)
        ensures
            res.query@ == Seq::<char>::empty(),
            res.possible_results@ == initial_results(
                match bookmarks {
                    Some(b) => Some(b@),
                    None => None,
                },
            ),
            res.filtered_results@ == res.possible_results@,
            res.selected_item is None,
            !res.has_error,
    {
        let mut results: Vec<ResultType> = Vec::new();
        results.push(ResultType::Command(Message::GoBackward));
        results.push(ResultType::Command(Message::GoForward));
        results.push(ResultType::Command(Message::Refresh));
        results.push(ResultType::Command(Message::GoHome));
        results.push(ResultType::Command(Message::CloseCurrentTab));
        results.push(ResultType::Command(Message::CreateTab));
        results.push(ResultType::Command(Message::HideOverlay));
        results.push(ResultType::Command(Message::ToggleTabBar));
        results.push(ResultType::Command(Message::ShowTabBar));
        results.push(ResultType::Command(Message::HideTabBar));
        results.push(ResultType::Command(Message::ToggleNavBar));
        results.push(ResultType::Command(Message::ShowNavBar));
        results.push(ResultType::Command(Message::HideNavBar));
        results.push(ResultType::Command(Message::ToggleBookmarkBar));
        results.push(ResultType::Command(Message::ShowBookmarkBar));
        results.push(ResultType::Command(Message::HideBookmarkBar));
        let ghost commands = results@;
        assert(commands =~= palette_commands().map_values(|m: Message| ResultType::Command(m)));
        match bookmarks {
            Some(bookmarks) => {
                let ghost b = bookmarks@;
                let total = bookmarks.len();
                assert(b.len() == total);
                let mut bookmarks = bookmarks;
                let mut i: usize = 0;
                while bookmarks.len() > 0
                    invariant
                        bookmarks@ == b.subrange(i as int, b.len() as int),
                        i <= b.len(),
                        b.len() <= usize::MAX,
                        results@ == commands + b.take(i as int).map_values(
                            |b: Bookmark| ResultType::Bookmark(b),
                        ),
                    decreases bookmarks@.len(),
                {
                    let bookmark = bookmarks.remove(0);
                    results.push(ResultType::Bookmark(bookmark));
                    proof {
                        assert(bookmark == b[i as int]);
                    }
                    i = i + 1;
                    assert(bookmarks@ =~= b.subrange(i as int, b.len() as int));
                    assert(results@ =~= commands + b.take(i as int).map_values(
                        |b: Bookmark| ResultType::Bookmark(b),
                    ));
                }
                assert(b.take(i as int) =~= b);
            },
            None => {
                assert(results@ =~= commands + Seq::<ResultType>::empty());
            },
        }
        let possible = duplicate_results(&results);
        Self {
            query: String::new(),
            possible_results: possible,
            filtered_results: results,
            selected_item: None,
            has_error: false,
        }
    }

    /// Puts text from the clipboard in place of the query: with text, the query becomes
    /// it and `true` comes back; without, nothing changes and `false` comes back.
    pub fn paste(&mut self, text: Option<String>) -> (res: bool)
        ensures
            res == text is Some,
            match text {
                Some(t) => final(self).query == t,
                None => final(self).query == old(self).query,
            },
            final(self).possible_results == old(self).possible_results,
            final(self).filtered_results == old(self).filtered_results,
            final(self).selected_item == old(self).selected_item,
            final(self).has_error == old(self).has_error,
    {
        match text {
            Some(t) => {
                self.query = t;
                true
            },
            None => false,
        }
    }

    /// Clears the query, shows every entry and selects none.
    pub fn reset(&mut self)
        ensures
            reset_of(*old(self), *final(self)),
            final(self).query@ == Seq::<char>::empty(),
            final(self).possible_results@ == old(self).possible_results@,
            final(self).filtered_results@ == old(self).possible_results@,
            final(self).selected_item is None,
            !final(self).has_error,
    {
        self.query = String::new();
        self.filtered_results = duplicate_results(&self.possible_results);
        self.selected_item = None;
        self.has_error = false;
    }

    /// Selects the first entry shown, if there is one.
    pub fn first_item(&mut self)
        ensures
            final(self).selected_item.deep_view() == first_selection(old(self).shown_names()),
            final(self).query == old(self).query,
            final(self).possible_results == old(self).possible_results,
            final(self).filtered_results == old(self).filtered_results,
            final(self).has_error == old(self).has_error,
    {
        let names = result_names(&self.filtered_results);
        self.selected_item = first_of(&names);
    }

    /// Moves the selection down (see `next_selection`).
    pub fn next_item(&mut self)
        ensures
            final(self).selected_item.deep_view() == next_selection(
                old(self).shown_names(),
                old(self).selected_item.deep_view(),
            ),
            final(self).query == old(self).query,
            final(self).possible_results == old(self).possible_results,
            final(self).filtered_results == old(self).filtered_results,
            final(self).has_error == old(self).has_error,
    {
        let names = result_names(&self.filtered_results);
        self.selected_item = next_selected(&names, &self.selected_item);
    }

    /// Moves the selection up (see `previous_selection`).
    pub fn previous_item(&mut self)
        ensures
            final(self).selected_item.deep_view() == previous_selection(
                old(self).shown_names(),
                old(self).selected_item.deep_view(),
            ),
            final(self).query == old(self).query,
            final(self).possible_results == old(self).possible_results,
            final(self).filtered_results == old(self).filtered_results,
            final(self).has_error == old(self).has_error,
    {
        let names = result_names(&self.filtered_results);
        self.selected_item = previous_selected(&names, &self.selected_item);
    }

    /// Shows the entries that match the query: the palette's own entries, then the given
    /// tabs, then the query as a url when it parses as one; and selects the first.
    pub fn update_filtered_results(&mut self, tabs: Vec<DisplayTab>)
        ensures
            filtered_for(*old(self), *final(self), tabs@),
    {
        let ghost q = self.query@;
        let ghost p = matches_query(q);
        let ghost all = self.possible_results@ + tab_results(tabs@);
        let mut filtered: Vec<ResultType> = Vec::new();
        let mut i: usize = 0;
        while i < self.possible_results.len()
            invariant
                q == self.query@,
                p == matches_query(q),
                all == self.possible_results@ + tab_results(tabs@),
                i <= self.possible_results.len(),
                filtered@ == all.take(i as int).filter(p),
            decreases self.possible_results.len() - i,
        {
            let r = &self.possible_results[i];
            let category = r.to_string();
            let name = r.inner_name();
            let keep = contains_lowercase(category.as_str(), self.query.as_str())
                || contains_lowercase(name.as_str(), self.query.as_str());
            proof {
                assert(all[i as int] == *r);
                all.take(i as int).lemma_filter_push(*r, p);
                assert(all.take(i as int).push(*r) =~= all.take(i + 1));
            }
            if keep {
                filtered.push(r.duplicate());
            }
            i = i + 1;
        }
        let n = self.possible_results.len();
        let mut tabs = tabs;
        let ghost t = tabs@;
        let total = tabs.len();
        assert(t.len() == total);
        let mut j: usize = 0;
        while tabs.len() > 0
            invariant
                q == self.query@,
                p == matches_query(q),
                all == self.possible_results@ + tab_results(t),
                n == self.possible_results@.len(),
                j <= t.len(),
                t.len() <= usize::MAX,
                tabs@ == t.subrange(j as int, t.len() as int),
                filtered@ == all.take(n + j).filter(p),
            decreases tabs@.len(),
        {
            let tab = tabs.remove(0);
            let r = ResultType::Tab(tab);
            let category = r.to_string();
            let name = r.inner_name();
            let keep = contains_lowercase(category.as_str(), self.query.as_str())
                || contains_lowercase(name.as_str(), self.query.as_str());
            proof {
                assert(t[j as int] == tab);
                assert(all[n + j] == r);
                all.take(n + j).lemma_filter_push(r, p);
                assert(all.take(n + j).push(r) =~= all.take(n + j + 1));
            }
            if keep {
                filtered.push(r);
            }
            j = j + 1;
            assert(tabs@ =~= t.subrange(j as int, t.len() as int));
        }
        assert(all.take(all.len() as int) =~= all);
        match to_url(self.query.as_str()) {
            Some(url) => {
                let r = ResultType::Url(url.to_string());
                let category = r.to_string();
                let name = r.inner_name();
                if contains_lowercase(category.as_str(), self.query.as_str()) || contains_lowercase(
                    name.as_str(),
                    self.query.as_str(),
                ) {
                    let ghost before = filtered@;
                    filtered.push(r);
                    assert(filtered@.take(before.len() as int) =~= before);
                }
            },
            None => {},
        }
        self.filtered_results = filtered;
        self.first_item();
    }
}


/// `after` is `before` with the entries shown that match the query: the palette's own
/// entries, then the given tabs, then the query as a url when it parses as one; and with
/// the first of them selected.
pub open spec fn filtered_for(
    before: CommandPaletteState,
    after: CommandPaletteState,
    tabs: Seq<DisplayTab>,
) -> bool {
    let q = before.query@;
    let kept = (before.possible_results@ + tab_results(tabs)).filter(matches_query(q));
    &&& match spec_to_url(q) {
        Some(u) => if contains_ignoring_case("Url"@, q) || contains_ignoring_case(u, q) {
            &&& after.filtered_results@.len() == kept.len() + 1
            &&& after.filtered_results@.take(kept.len() as int) == kept
            &&& after.filtered_results@.last() is Url
            &&& after.filtered_results@.last()->Url_0@ == u
        } else {
            after.filtered_results@ == kept
        },
        None => after.filtered_results@ == kept,
    }
    &&& after.selected_item.deep_view() == first_selection(after.shown_names())
    &&& after.query == before.query
    &&& after.possible_results == before.possible_results
    &&& after.has_error == before.has_error
}

/// `after` is `before` reset: no query, every entry shown, none selected, no error.
pub open spec fn reset_of(before: CommandPaletteState, after: CommandPaletteState) -> bool {
    &&& after.query@ == Seq::<char>::empty()
    &&& after.possible_results@ == before.possible_results@
    &&& after.filtered_results@ == before.possible_results@
    &&& after.selected_item is None
    &&& !after.has_error
}

/// The entry that Enter submits: the first shown entry whose name is the selected one.
pub open spec fn submission(p: CommandPaletteState) -> Option<ResultType> {
    match p.selected_item {
        Some(s) => if p.shown_names().contains(s@) {
            Some(p.filtered_results@[crate::text::first_position(p.shown_names(), s@)])
        } else {
            None
        },
        None => None,
    }
}

impl CommandPaletteState {
    /// The entry that Enter submits (see `submission`).
    pub fn submitted(&self) -> (res: Option<&ResultType>)
        ensures
            res matches Some(r) ==> submission(*self) == Some(*r),
            res is None ==> submission(*self) is None,
    {
        match &self.selected_item {
            Some(selected) => {
                let names = result_names(&self.filtered_results);
                match crate::selection::position_of(&names, selected) {
                    Some(pos) => Some(&self.filtered_results[pos]),
                    None => None,
                }
            },
            None => None,
        }
    }
}

/// The text at the top of the palette: the query, or `Command Palette` while it is empty.
pub fn palette_title(query: &String) -> (res: String)
    ensures
        res@ == if query@.len() == 0 {
            "Command Palette"@
        } else {
            query@
        },
{
    if query.as_str().unicode_len() == 0 {
        String::from_str("Command Palette")
    } else {
        query.clone()
    }
}

impl Default for CommandPaletteState {
    fn default() -> (res: Self)
        ensures
            res.query@ == Seq::<char>::empty(),
            res.possible_results@ == initial_results(None),
            res.filtered_results@ == res.possible_results@,
            res.selected_item is None,
            !res.has_error,
    {
        Self::new(None)
    }
}

} // verus!
