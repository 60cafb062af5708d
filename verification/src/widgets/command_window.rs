//! The command window: the browser's commands and bookmarks, with one selected.
use vstd::prelude::*;

use super::Message;
use crate::helpers::Bookmark;
use crate::selection::{next_selected, next_selection, previous_selected, previous_selection};

pub mod results;

verus! {

/// An entry of the command window.
#[derive(Clone, Debug, PartialEq)]
pub enum ResultType {
    Commands(Message),
    Bookmarks(Bookmark),
}

impl ResultType {
    /// The category the entry is listed under.
    pub open spec fn category(self) -> Seq<char> {
        match self {
            ResultType::Commands(_) => "Commands"@,
            ResultType::Bookmarks(_) => "Bookmarks"@,
        }
    }

    /// The entry's name: a command's name, or `Go to: url` for a bookmark.
    pub open spec fn name(self) -> Seq<char> {
        match self {
            ResultType::Commands(m) => m.display_name(),
            ResultType::Bookmarks(b) => "Go to: "@ + b.spec_url(),
        }
    }

    /// The category the entry is listed under.
    pub fn to_string(&self) -> (res: String)
        ensures
            res@ == self.category(),
    {
        match self {
            ResultType::Commands(_) => String::from_str("Commands"),
            ResultType::Bookmarks(_) => String::from_str("Bookmarks"),
        }
    }

    /// The entry's name.
    pub fn inner_name(&self) -> (res: String)
        ensures
            res@ == self.name(),
    {
        match self {
            ResultType::Commands(command) => command.to_string(),
            ResultType::Bookmarks(bookmark) => {
                let mut s = String::from_str("Go to: ");
                s.append(bookmark.url().as_str());
                s
            },
        }
    }

    /// A copy of the entry.
    pub fn duplicate(&self) -> (res: ResultType)
        ensures
            res == *self,
    {
        match self {
            ResultType::Commands(m) => ResultType::Commands(m.duplicate()),
            ResultType::Bookmarks(b) => ResultType::Bookmarks(b.duplicate()),
        }
    }
}

/// The names of a list of entries.
pub open spec fn window_names(results: Seq<ResultType>) -> Seq<Seq<char>> {
    results.map_values(|r: ResultType| r.name())
}

/// The names of a list of entries.
pub fn names_of_results(results: &Vec<ResultType>) -> (res: Vec<String>)
    ensures
        res.deep_view() == window_names(results@),
        res.len() == results.len(),
{
    let mut res: Vec<String> = Vec::new();
    let mut i: usize = 0;
    while i < results.len()
        invariant
            i <= results.len(),
            res.deep_view() == window_names(results@.take(i as int)),
            res.len() == i,
        decreases results.len() - i,
    {
        let ghost before = res.deep_view();
        let s = results[i].inner_name();
        res.push(s);
        proof {
            assert(res.deep_view() =~= before.push(s@));
            assert(window_names(results@.take(i + 1)) =~= window_names(results@.take(i as int)).push(
                s@,
            ));
        }
        i = i + 1;
    }
    assert(results@.take(results.len() as int) =~= results@);
    res
}

/// The commands the window offers, in order.
pub open spec fn window_commands() -> Seq<Message> {
    seq![
        Message::GoBackward,
        Message::GoForward,
        Message::Refresh,
        Message::GoHome,
        Message::CloseCurrentTab,
    ]
}

/// The entries of a new window: the commands, then the bookmarks.
pub open spec fn window_results(bookmarks: Option<Seq<Bookmark>>) -> Seq<ResultType> {
    window_commands().map_values(|m: Message| ResultType::Commands(m)) + match bookmarks {
        Some(b) => b.map_values(|b: Bookmark| ResultType::Bookmarks(b)),
        None => Seq::<ResultType>::empty(),
    }
}

/// The selected name can be moved from: nothing is selected, or the name is in the
/// list, or it is the one the move stops at (the last going down, the first going up).
pub open spec fn can_move(names: Seq<Seq<char>>, selected: Option<Seq<char>>, down: bool) -> bool {
    match selected {
        None => true,
        Some(s) => names.len() == 0 || names.contains(s) || (down && s == names.last()) || (!down
            && s == names[0]),
    }
}

/// The state of the command window.
pub struct CommandWindowState {
    pub query: String,
    pub possible_results: Vec<ResultType>,
    pub filtered_results: Vec<ResultType>,
    pub selected_item: Option<String>,
}

impl CommandWindowState {
    /// The names of the entries shown.
    pub open spec fn shown_names(&self) -> Seq<Seq<char>> {
        window_names(self.filtered_results@)
    }

    /// A window with the commands and the bookmarks, all shown, none selected.
    pub fn new(bookmarks: Option<Vec<Bookmark>>) -> (res: Self)
        ensures
            res.query@ == Seq::<char>::empty(),
            res.possible_results@ == window_results(
                match bookmarks {
                    Some(b) => Some(b@),
                    None => None,
                },
            ),
            res.filtered_results@ == res.possible_results@,
            res.selected_item is None,
    {
        let mut results: Vec<ResultType> = Vec::new();
        results.push(ResultType::Commands(Message::GoBackward));
        results.push(ResultType::Commands(Message::GoForward));
        results.push(ResultType::Commands(Message::Refresh));
        results.push(ResultType::Commands(Message::GoHome));
        results.push(ResultType::Commands(Message::CloseCurrentTab));
        let ghost commands = results@;
        assert(commands =~= window_commands().map_values(|m: Message| ResultType::Commands(m)));
        match bookmarks {
            Some(bookmarks) => {
                let ghost b = bookmarks@;
                let total = bookmarks.len();
                assert(b.len() == total);
                let mut bookmarks = bookmarks;
                let mut i: usize = 0;
                while bookmarks.len() > 0
                    invariant
                        bookmarks@ == b.subrange(i as int, b.len() as int),
                        i <= b.len(),
                        b.len() <= usize::MAX,
                        results@ == commands + b.take(i as int).map_values(
                            |b: Bookmark| ResultType::Bookmarks(b),
                        ),
                    decreases bookmarks@.len(),
                {
                    let bookmark = bookmarks.remove(0);
                    results.push(ResultType::Bookmarks(bookmark));
                    proof {
                        assert(bookmark == b[i as int]);
                    }
                    i = i + 1;
                    assert(bookmarks@ =~= b.subrange(i as int, b.len() as int));
                    assert(results@ =~= commands + b.take(i as int).map_values(
                        |b: Bookmark| ResultType::Bookmarks(b),
                    ));
                }
                assert(b.take(i as int) =~= b);
            },
            None => {
                assert(results@ =~= commands + Seq::<ResultType>::empty());
            },
        }
        let mut possible: Vec<ResultType> = Vec::new();
        let mut k: usize = 0;
        while k < results.len()
            invariant
                k <= results.len(),
                possible@ == results@.take(k as int),
            decreases results.len() - k,
        {
            possible.push(results[k].duplicate());
            k = k + 1;
            assert(possible@ =~= results@.take(k as int));
        }
        assert(results@.take(results.len() as int) =~= results@);
        Self { query: String::new(), possible_results: possible, filtered_results: results, selected_item: None }
    }

    /// Moves the selection down (see `next_selection`); a selected name that is not the
    /// last must be in the list.
    pub fn next_item(&mut self)
        requires
            can_move(old(self).shown_names(), old(self).selected_item.deep_view(), true),
        ensures
            final(self).selected_item.deep_view() == next_selection(
                old(self).shown_names(),
                old(self).selected_item.deep_view(),
            ),
            final(self).query == old(self).query,
            final(self).possible_results == old(self).possible_results,
            final(self).filtered_results == old(self).filtered_results,
    {
        let names = names_of_results(&self.filtered_results);
        self.selected_item = next_selected(&names, &self.selected_item);
    }

    /// Moves the selection up (see `previous_selection`); a selected name that is not
    /// the first must be in the list.
    pub fn previous_item(&mut self)
        requires
            can_move(old(self).shown_names(), old(self).selected_item.deep_view(), false),
        ensures
            final(self).selected_item.deep_view() == previous_selection(
                old(self).shown_names(),
                old(self).selected_item.deep_view(),
            ),
            final(self).query == old(self).query,
            final(self).possible_results == old(self).possible_results,
            final(self).filtered_results == old(self).filtered_results,
    {
        let names = names_of_results(&self.filtered_results);
        self.selected_item = previous_selected(&names, &self.selected_item);
    }
}

impl Default for CommandWindowState {
    fn default() -> (res: Self)
        ensures
            res.query@ == Seq::<char>::empty(),
            res.possible_results@ == window_results(None),
            res.filtered_results@ == res.possible_results@,
            res.selected_item is None,
    {
        Self::new(None)
    }
}

} // verus!
