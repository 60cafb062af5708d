//! Entries listed by their display text: a command's name or a bookmark's name.
use vstd::prelude::*;

use super::super::Message;
use crate::helpers::Bookmark;
use crate::selection::{list_rows, row_view, rows_spec, ListRow};

verus! {

/// An entry of a results list.
#[derive(Clone, Debug, PartialEq)]
pub enum ResultType {
    Commands(Message),
    Bookmarks(Bookmark),
}

impl ResultType {
    /// The category the entry is listed under.
    pub open spec fn category(self) -> Seq<char> {
        match self {
            ResultType::Commands(_) => "Commands"@,
            ResultType::Bookmarks(_) => "Bookmarks"@,
        }
    }

    /// The entry's name: a command's name, or `Go to: url` for a bookmark.
    pub open spec fn name(self) -> Seq<char> {
        match self {
            ResultType::Commands(m) => m.display_name(),
            ResultType::Bookmarks(b) => "Go to: "@ + b.spec_url(),
        }
    }

    /// How the entry is shown in the list: a command's name, or a bookmark's name.
    pub open spec fn shown_text(self) -> Seq<char> {
        match self {
            ResultType::Commands(m) => m.display_name(),
            ResultType::Bookmarks(b) => b.spec_name(),
        }
    }

    /// The category the entry is listed under.
    pub fn to_string(&self) -> (res: String)
        ensures
            res@ == self.category(),
    {
        match self {
            ResultType::Commands(_) => String::from_str("Commands"),
            ResultType::Bookmarks(_) => String::from_str("Bookmarks"),
        }
    }

    /// The entry's name.
    pub fn inner_name(&self) -> (res: String)
        ensures
            res@ == self.name(),
    {
        match self {
            ResultType::Commands(command) => command.to_string(),
            ResultType::Bookmarks(bookmark) => {
                let mut s = String::from_str("Go to: ");
                s.append(bookmark.url().as_str());
                s
            },
        }
    }

    /// How the entry is shown in the list.
    pub fn result_text(&self) -> (res: String)
        ensures
            res@ == self.shown_text(),
    {
        match self {
            ResultType::Commands(command) => command.to_string(),
            ResultType::Bookmarks(bookmark) => bookmark.to_string(),
        }
    }
}

/// The rows that show a list of entries, by category and shown text; an entry is
/// selected when its shown text is the selected one.
pub fn results_list(results: &Vec<ResultType>, selected_item: &Option<String>) -> (res: Vec<ListRow>)
    ensures
        res@.map_values(|r: ListRow| row_view(r)) == rows_spec(
            results@.map_values(|r: ResultType| r.category()),
            results@.map_values(|r: ResultType| r.shown_text()),
            selected_item.deep_view(),
        ),
{
    let mut categories: Vec<String> = Vec::new();
    let mut texts: Vec<String> = Vec::new();
    let mut i: usize = 0;
    while i < results.len()
        invariant
            i <= results.len(),
            categories.len() == i,
            texts.len() == i,
            categories.deep_view() == results@.take(i as int).map_values(
                |r: ResultType| r.category(),
            ),
            texts.deep_view() == results@.take(i as int).map_values(|r: ResultType| r.shown_text()),
        decreases results.len() - i,
    {
        let ghost c0 = categories.deep_view();
        let ghost t0 = texts.deep_view();
        let c = results[i].to_string();
        let t = results[i].result_text();
        categories.push(c);
        texts.push(t);
        proof {
            assert(categories.deep_view() =~= c0.push(c@));
            assert(texts.deep_view() =~= t0.push(t@));
            assert(results@.take(i + 1).map_values(|r: ResultType| r.category()) =~= results@.take(
                i as int,
            ).map_values(|r: ResultType| r.category()).push(c@));
            assert(results@.take(i + 1).map_values(|r: ResultType| r.shown_text()) =~= results@.take(
                i as int,
            ).map_values(|r: ResultType| r.shown_text()).push(t@));
        }
        i = i + 1;
    }
    assert(results@.take(results.len() as int) =~= results@);
    list_rows(&categories, &texts, selected_item)
}

} // verus!
