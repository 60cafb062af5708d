//! A command palette over the caller's own messages: commands, bookmarks and tabs,
//! with one of them selected, moved by the arrow keys and searched by typing.
use vstd::prelude::*;

use crate::helpers::Bookmark;
use crate::input::{Event, Key, KeyboardEvent, NamedKey};
use crate::selection::{
    first_of, first_selection, list_rows, next_selected, next_selection, previous_selected,
    previous_selection, row_view, rows_spec, ListRow,
};

verus! {

/// A message that the palette can offer as a command: it has a name to show.
pub trait PaletteCommand {
    /// The name shown for the command.
    spec fn command_name(&self) -> Seq<char>;

    /// The name shown for the command.
    fn to_string(&self) -> (res: String)
        ensures
            res@ == self.command_name(),
    ;
}

impl PaletteCommand for crate::widgets::Message {
    open spec fn command_name(&self) -> Seq<char> {
        self.display_name()
    }

    fn to_string(&self) -> (res: String) {
        crate::widgets::Message::to_string(self)
    }
}

/// The entry types for command palette.
#[derive(Clone, Debug, PartialEq)]
pub enum PaletteEntry<Message> {
    /// No entry; listed under `None`.
    Empty,
    Command(Message),
    Bookmark(Bookmark),
    /// title, url
    Tab(String, String),
}

impl<Message: PaletteCommand> PaletteEntry<Message> {
    /// The category the entry is listed under.
    pub open spec fn category(&self) -> Seq<char> {
        match self {
            PaletteEntry::Empty => "None"@,
            PaletteEntry::Command(_) => "Commands"@,
            PaletteEntry::Bookmark(_) => "Bookmarks"@,
            PaletteEntry::Tab(_, _) => "Tabs"@,
        }
    }

    /// The entry's name: a command's name, `name -> url` for a bookmark, `title: url`
    /// for a tab, nothing for none.
    pub open spec fn name(&self) -> Seq<char> {
        match self {
            PaletteEntry::Command(c) => c.command_name(),
            PaletteEntry::Bookmark(b) => b.spec_name() + " -> "@ + b.spec_url(),
            PaletteEntry::Tab(title, url) => title@ + ": "@ + url@,
            PaletteEntry::Empty => Seq::<char>::empty(),
        }
    }

    /// The category the entry is listed under.
    pub fn to_string(&self) -> (res: String)
        ensures
            res@ == self.category(),
    {
        match self {
            PaletteEntry::Empty => String::from_str("None"),
            PaletteEntry::Command(_) => String::from_str("Commands"),
            PaletteEntry::Bookmark(_) => String::from_str("Bookmarks"),
            PaletteEntry::Tab(_, _) => String::from_str("Tabs"),
        }
    }

    /// The entry's name.
    pub fn inner_name(&self) -> (res: String)
        ensures
            res@ == self.name(),
    {
        match self {
            PaletteEntry::Command(command) => command.to_string(),
            PaletteEntry::Bookmark(bookmark) => {
                let mut s = bookmark.name().clone();
                s.append(" -> ");
                s.append(bookmark.url().as_str());
                s
            },
            PaletteEntry::Tab(title, url) => {
                let mut s = title.clone();
                s.append(": ");
                s.append(url.as_str());
                s
            },
            PaletteEntry::Empty => String::new(),
        }
    }
}

/// The names of a list of entries.
pub open spec fn entry_names<Message: PaletteCommand>(entries: Seq<PaletteEntry<Message>>) -> Seq<
    Seq<char>,
> {
    entries.map_values(|e: PaletteEntry<Message>| e.name())
}

/// The categories of a list of entries.
pub open spec fn entry_categories<Message: PaletteCommand>(
    entries: Seq<PaletteEntry<Message>>,
) -> Seq<Seq<char>> {
    entries.map_values(|e: PaletteEntry<Message>| e.category())
}

/// The names of a list of entries.
pub fn names_of_entries<Message: PaletteCommand>(entries: &Vec<PaletteEntry<Message>>) -> (res: Vec<
    String,
>)
    ensures
        res.deep_view() == entry_names(entries@),
        res.len() == entries.len(),
{
    let mut res: Vec<String> = Vec::new();
    let mut i: usize = 0;
    while i < entries.len()
        invariant
            i <= entries.len(),
            res.deep_view() == entry_names(entries@.take(i as int)),
            res.len() == i,
        decreases entries.len() - i,
    {
        let ghost before = res.deep_view();
        let s = entries[i].inner_name();
        res.push(s);
        proof {
            assert(res.deep_view() =~= before.push(s@));
            assert(entry_names(entries@.take(i + 1)) =~= entry_names(entries@.take(i as int)).push(
                s@,
            ));
        }
        i = i + 1;
    }
    assert(entries@.take(entries.len() as int) =~= entries@);
    res
}

/// The categories of a list of entries.
pub fn categories_of_entries<Message: PaletteCommand>(entries: &Vec<PaletteEntry<Message>>) -> (res:
    Vec<String>)
    ensures
        res.deep_view() == entry_categories(entries@),
        res.len() == entries.len(),
{
    let mut res: Vec<String> = Vec::new();
    let mut i: usize = 0;
    while i < entries.len()
        invariant
            i <= entries.len(),
            res.deep_view() == entry_categories(entries@.take(i as int)),
            res.len() == i,
        decreases entries.len() - i,
    {
        let ghost before = res.deep_view();
        let s = entries[i].to_string();
        res.push(s);
        proof {
            assert(res.deep_view() =~= before.push(s@));
            assert(entry_categories(entries@.take(i + 1)) =~= entry_categories(
                entries@.take(i as int),
            ).push(s@));
        }
        i = i + 1;
    }
    assert(entries@.take(entries.len() as int) =~= entries@);
    res
}

/// The rows that show a list of entries (see `rows_spec`).
pub fn results_list<Message: PaletteCommand>(
    results: &Vec<PaletteEntry<Message>>,
    selected_item: &Option<String>,
) -> (res: Vec<ListRow>)
    ensures
        res@.map_values(|r: ListRow| row_view(r)) == rows_spec(
            entry_categories(results@),
            entry_names(results@),
            selected_item.deep_view(),
        ),
{
    let categories = categories_of_entries(results);
    let names = names_of_entries(results);
    list_rows(&categories, &names, selected_item)
}

/// Whether an event was used.
#[derive(Debug, Clone, Copy, PartialEq, Eq, Structural)]
pub enum Status {
    Captured,
    Ignored,
}

/// The state of the command palette.
pub struct CommandPaletteState<Message: PaletteCommand> {
    query: String,
    possible_results: Vec<PaletteEntry<Message>>,
    filtered_results: Vec<PaletteEntry<Message>>,
    selected_item: Option<String>,
}

/// The entries of a new palette: the commands, then the bookmarks.
pub open spec fn entries_for<Message>(commands: Seq<Message>, bookmarks: Option<Seq<Bookmark>>) -> Seq<
    PaletteEntry<Message>,
> {
    commands.map_values(|m: Message| PaletteEntry::Command(m)) + match bookmarks {
        Some(b) => b.map_values(|b: Bookmark| PaletteEntry::Bookmark(b)),
        None => Seq::<PaletteEntry<Message>>::empty(),
    }
}

/// `b` is a copy of `a`: the same entry, with the command cloned.
pub open spec fn entry_cloned<Message: Clone>(a: PaletteEntry<Message>, b: PaletteEntry<Message>) -> bool {
    match (a, b) {
        (PaletteEntry::Command(x), PaletteEntry::Command(y)) => cloned(x, y),
        _ => a == b,
    }
}

/// `b` is a copy of `a`, entry by entry.
pub open spec fn entries_cloned<Message: Clone>(
    a: Seq<PaletteEntry<Message>>,
    b: Seq<PaletteEntry<Message>>,
) -> bool {
    a.len() == b.len() && forall|i: int| 0 <= i < a.len() ==> entry_cloned(a[i], #[trigger] b[i])
}

impl<Message: Clone> PaletteEntry<Message> {
    /// A copy of the entry, with the command cloned.
    pub fn duplicate(&self) -> (res: Self)
        ensures
            entry_cloned(*self, res),
    {
        match self {
            PaletteEntry::Empty => PaletteEntry::Empty,
            PaletteEntry::Command(m) => PaletteEntry::Command(m.clone()),
            PaletteEntry::Bookmark(b) => PaletteEntry::Bookmark(b.duplicate()),
            PaletteEntry::Tab(t, u) => PaletteEntry::Tab(t.clone(), u.clone()),
        }
    }
}

/// Copies of a list of entries.
pub fn duplicate_entries<Message: Clone>(entries: &Vec<PaletteEntry<Message>>) -> (res: Vec<
    PaletteEntry<Message>,
>)
    ensures
        entries_cloned(entries@, res@),
{
    let mut res: Vec<PaletteEntry<Message>> = Vec::new();
    let mut i: usize = 0;
    while i < entries.len()
        invariant
            i <= entries.len(),
            res@.len() == i,
            forall|k: int| 0 <= k < i ==> entry_cloned(entries@[k], #[trigger] res@[k]),
        decreases entries.len() - i,
    {
        res.push(entries[i].duplicate());
        i = i + 1;
    }
    res
}

impl<Message: PaletteCommand + Clone> CommandPaletteState<Message> {
    pub closed spec fn spec_query(&self) -> Seq<char> {
        self.query@
    }

    /// Every entry.
    pub closed spec fn possible(&self) -> Seq<PaletteEntry<Message>> {
        self.possible_results@
    }

    /// The entries shown.
    pub closed spec fn filtered(&self) -> Seq<PaletteEntry<Message>> {
        self.filtered_results@
    }

    /// The name of the selected entry.
    pub closed spec fn selected(&self) -> Option<Seq<char>> {
        self.selected_item.deep_view()
    }

    /// The names of the entries shown.
    pub open spec fn shown_names(&self) -> Seq<Seq<char>> {
        entry_names(self.filtered())
    }

    /// A palette with the commands and the bookmarks, every one shown, none selected.
    pub fn new(commands: Vec<Message>, bookmarks: Option<Vec<Bookmark>>) -> (res: Self)
        ensures
            res.spec_query() == Seq::<char>::empty(),
            res.filtered() == entries_for(
                commands@,
                match bookmarks {
                    Some(b) => Some(b@),
                    None => None,
                },
            ),
            entries_cloned(res.filtered(), res.possible()),
            res.selected() is None,
    {
        let mut results: Vec<PaletteEntry<Message>> = Vec::new();
        let ghost c = commands@;
        let total = commands.len();
        assert(c.len() == total);
        let mut commands = commands;
        let mut i: usize = 0;
        while commands.len() > 0
            invariant
                commands@ == c.subrange(i as int, c.len() as int),
                i <= c.len(),
                c.len() <= usize::MAX,
                results@ == c.take(i as int).map_values(|m: Message| PaletteEntry::Command(m)),
            decreases commands@.len(),
        {
            let m = commands.remove(0);
            results.push(PaletteEntry::Command(m));
            proof {
                assert(m == c[i as int]);
            }
            i = i + 1;
            assert(commands@ =~= c.subrange(i as int, c.len() as int));
            assert(results@ =~= c.take(i as int).map_values(|m: Message| PaletteEntry::Command(m)));
        }
        assert(c.take(i as int) =~= c);
        let ghost with_commands = results@;
        match bookmarks {
            Some(bookmarks) => {
                let ghost b = bookmarks@;
                let n = bookmarks.len();
                assert(b.len() == n);
                let mut bookmarks = bookmarks;
                let mut j: usize = 0;
                while bookmarks.len() > 0
                    invariant
                        bookmarks@ == b.subrange(j as int, b.len() as int),
                        j <= b.len(),
                        b.len() <= usize::MAX,
                        results@ == with_commands + b.take(j as int).map_values(
                            |b: Bookmark| PaletteEntry::Bookmark(b),
                        ),
                    decreases bookmarks@.len(),
                {
                    let bookmark = bookmarks.remove(0);
                    results.push(PaletteEntry::Bookmark(bookmark));
                    proof {
                        assert(bookmark == b[j as int]);
                    }
                    j = j + 1;
                    assert(bookmarks@ =~= b.subrange(j as int, b.len() as int));
                    assert(results@ =~= with_commands + b.take(j as int).map_values(
                        |b: Bookmark| PaletteEntry::Bookmark(b),
                    ));
                }
                assert(b.take(j as int) =~= b);
            },
            None => {
                assert(results@ =~= with_commands + Seq::<PaletteEntry<Message>>::empty());
            },
        }
        let copies = duplicate_entries(&results);
        Self { query: String::new(), possible_results: copies, filtered_results: results, selected_item: None }
    }
    /// Clears the query, shows a copy of every entry and selects none.
    pub fn reset(&mut self)
        ensures
            final(self).spec_query() == Seq::<char>::empty(),
            final(self).possible() == old(self).possible(),
            entries_cloned(old(self).possible(), final(self).filtered()),
            final(self).selected() is None,
    {
        self.query = String::new();
        self.filtered_results = duplicate_entries(&self.possible_results);
        self.selected_item = None;
    }

    /// Selects the first entry shown, if there is one.
    pub fn first_item(&mut self)
        ensures
            final(self).selected() == first_selection(old(self).shown_names()),
            final(self).spec_query() == old(self).spec_query(),
            final(self).possible() == old(self).possible(),
            final(self).filtered() == old(self).filtered(),
    {
        let names = names_of_entries(&self.filtered_results);
        self.selected_item = first_of(&names);
    }

    /// Moves the selection down (see `next_selection`).
    pub fn next_item(&mut self)
        ensures
            final(self).selected() == next_selection(old(self).shown_names(), old(self).selected()),
            final(self).spec_query() == old(self).spec_query(),
            final(self).possible() == old(self).possible(),
            final(self).filtered() == old(self).filtered(),
    {
        let names = names_of_entries(&self.filtered_results);
        self.selected_item = next_selected(&names, &self.selected_item);
    }

    /// Moves the selection up (see `previous_selection`).
    pub fn previous_item(&mut self)
        ensures
            final(self).selected() == previous_selection(
                old(self).shown_names(),
                old(self).selected(),
            ),
            final(self).spec_query() == old(self).spec_query(),
            final(self).possible() == old(self).possible(),
            final(self).filtered() == old(self).filtered(),
    {
        let names = names_of_entries(&self.filtered_results);
        self.selected_item = previous_selected(&names, &self.selected_item);
    }

    /// A copy of the first shown entry whose name is the selected one; an entry must be
    /// selected, and shown.
    pub fn submitted(&self) -> (res: PaletteEntry<Message>)
        requires
            self.selected() matches Some(s) && self.shown_names().contains(s),
        ensures
            entry_cloned(
                self.filtered()[crate::text::first_position(
                    self.shown_names(),
                    self.selected()->0,
                )],
                res,
            ),
    {
        let names = names_of_entries(&self.filtered_results);
        match &self.selected_item {
            Some(selected) => match crate::selection::position_of(&names, selected) {
                Some(pos) => self.filtered_results[pos].duplicate(),
                None => PaletteEntry::Empty,
            },
            None => PaletteEntry::Empty,
        }
    }

    /// The rows that show the palette's entries.
    pub fn rows(&self) -> (res: Vec<ListRow>)
        ensures
            res@.map_values(|r: ListRow| row_view(r)) == rows_spec(
                entry_categories(self.filtered()),
                self.shown_names(),
                self.selected(),
            ),
    {
        results_list(&self.filtered_results, &self.selected_item)
    }

    /// The query typed so far.
    pub fn query(&self) -> (res: &String)
        ensures
            res@ == self.spec_query(),
    {
        &self.query
    }

    /// Handles an event: the arrow keys move the selection, a key that types text adds
    /// it to the query; everything else is left alone.
    pub fn on_event(&mut self, event: Event) -> (res: Status)
        ensures
            match event {
                Event::Keyboard(KeyboardEvent::KeyPressed { key, text, .. }) => {
                    if key == Key::Named(NamedKey::ArrowUp) {
                        &&& res == Status::Captured
                        &&& final(self).selected() == previous_selection(
                            old(self).shown_names(),
                            old(self).selected(),
                        )
                        &&& final(self).spec_query() == old(self).spec_query()
                    } else if key == Key::Named(NamedKey::ArrowDown) {
                        &&& res == Status::Captured
                        &&& final(self).selected() == next_selection(
                            old(self).shown_names(),
                            old(self).selected(),
                        )
                        &&& final(self).spec_query() == old(self).spec_query()
                    } else if text matches Some(t) && t@.len() > 0 {
                        &&& res == Status::Captured
                        &&& final(self).spec_query() == old(self).spec_query() + text->0@
                        &&& final(self).selected() == old(self).selected()
                    } else {
                        res == Status::Ignored && final(self).spec_query() == old(
                            self,
                        ).spec_query() && final(self).selected() == old(self).selected()
                    }
                },
                _ => res == Status::Ignored && final(self).spec_query() == old(self).spec_query()
                    && final(self).selected() == old(self).selected(),
            },
            final(self).possible() == old(self).possible(),
            final(self).filtered() == old(self).filtered(),
    {
        match event {
            Event::Keyboard(KeyboardEvent::KeyPressed { key, text, .. }) => {
                match key {
                    Key::Named(NamedKey::ArrowUp) => {
                        self.previous_item();
                        return Status::Captured;
                    },
                    Key::Named(NamedKey::ArrowDown) => {
                        self.next_item();
                        return Status::Captured;
                    },
                    _ => {},
                }
                match text {
                    Some(text) => {
                        if text.as_str().unicode_len() > 0 {
                            self.query.append(text.as_str());
                            Status::Captured
                        } else {
                            Status::Ignored
                        }
                    },
                    None => Status::Ignored,
                }
            },
            _ => Status::Ignored,
        }
    }
}

} // verus!
