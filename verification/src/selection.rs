//! Moving a selection through a list of named results, and the rows that show the list.
use vstd::prelude::*;

use crate::text::{first_position, lemma_first_position};

verus! {

/// The first name of the list, if there is one.
pub open spec fn first_selection(names: Seq<Seq<char>>) -> Option<Seq<char>> {
    if names.len() > 0 {
        Some(names[0])
    } else {
        None
    }
}

/// The selection after moving down: the first name when nothing is selected; the name
/// after the selected one; the same name when it is the last (or the list is empty);
/// nothing when the selected name is not in the list.
pub open spec fn next_selection(names: Seq<Seq<char>>, selected: Option<Seq<char>>) -> Option<
    Seq<char>,
> {
    match selected {
        None => first_selection(names),
        Some(s) => if names.len() == 0 || s == names.last() {
            Some(s)
        } else if names.contains(s) {
            Some(names[first_position(names, s) + 1])
        } else {
            None
        },
    }
}

/// The selection after moving up: the first name when nothing is selected; the name
/// before the selected one; the same name when it is the first (or the list is empty);
/// nothing when the selected name is not in the list.
pub open spec fn previous_selection(names: Seq<Seq<char>>, selected: Option<Seq<char>>) -> Option<
    Seq<char>,
> {
    match selected {
        None => first_selection(names),
        Some(s) => if names.len() == 0 || s == names[0] {
            Some(s)
        } else if names.contains(s) {
            Some(names[first_position(names, s) - 1])
        } else {
            None
        },
    }
}

/// The position of the first name equal to `s`, if any.
pub fn position_of(names: &Vec<String>, s: &String) -> (res: Option<usize>)
    ensures
        res is Some <==> names.deep_view().contains(s@),
        res is Some ==> res->0 == first_position(names.deep_view(), s@) && res->0 < names.len()
            && names.deep_view()[res->0 as int] == s@,
{
    let ghost v = names.deep_view();
    let mut i: usize = 0;
    while i < names.len()
        invariant
            v == names.deep_view(),
            v.len() == names.len(),
            i <= names.len(),
            forall|k: int| 0 <= k < i ==> v[k] != s@,
        decreases names.len() - i,
    {
        if names[i] == *s {
            proof {
                assert(v[i as int] == s@);
                lemma_first_position(v, s@, i as int);
            }
            return Some(i);
        }
        i = i + 1;
    }
    assert forall|k: int| 0 <= k < v.len() implies v[k] != s@ by {}
    None
}

/// The first name of the list, if there is one.
pub fn first_of(names: &Vec<String>) -> (res: Option<String>)
    ensures
        res.deep_view() == first_selection(names.deep_view()),
{
    if names.len() > 0 {
        Some(names[0].clone())
    } else {
        None
    }
}

/// The selection after moving down the list (see `next_selection`).
pub fn next_selected(names: &Vec<String>, selected: &Option<String>) -> (res: Option<String>)
    ensures
        res.deep_view() == next_selection(names.deep_view(), selected.deep_view()),
{
    let ghost v = names.deep_view();
    match selected {
        None => first_of(names),
        Some(s) => {
            if names.len() == 0 || names[names.len() - 1] == *s {
                Some(s.clone())
            } else {
                match position_of(names, s) {
                    Some(pos) => {
                        proof {
                            if pos + 1 >= v.len() {
                                assert(v[v.len() - 1] == s@);
                            }
                        }
                        Some(names[pos + 1].clone())
                    },
                    None => None,
                }
            }
        },
    }
}

/// The selection after moving up the list (see `previous_selection`).
pub fn previous_selected(names: &Vec<String>, selected: &Option<String>) -> (res: Option<String>)
    ensures
        res.deep_view() == previous_selection(names.deep_view(), selected.deep_view()),
{
    let ghost v = names.deep_view();
    match selected {
        None => first_of(names),
        Some(s) => {
            if names.len() == 0 || names[0] == *s {
                Some(s.clone())
            } else {
                match position_of(names, s) {
                    Some(pos) => {
                        proof {
                            if pos == 0 {
                                assert(v[0] == s@);
                            }
                        }
                        Some(names[pos - 1].clone())
                    },
                    None => None,
                }
            }
        },
    }
}

/// A row of a results list: a category header, or an entry that may be selected.
#[derive(Debug, Clone, PartialEq)]
pub enum ListRow {
    Header(String),
    Entry { text: String, selected: bool },
}

/// A row as plain values: whether it is a header, its text, whether it is selected.
pub open spec fn row_view(r: ListRow) -> (bool, Seq<char>, bool) {
    match r {
        ListRow::Header(t) => (true, t@, false),
        ListRow::Entry { text, selected } => (false, text@, selected),
    }
}

/// What an entry is shown behind.
pub open spec fn indent() -> Seq<char> {
    seq![' ', ' ', ' ']
}

/// The rows that show a list of results: each result as an indented entry, selected
/// when its name is the selected one, and before it a header with its category when no
/// earlier result has that category.
pub open spec fn rows_spec(
    categories: Seq<Seq<char>>,
    names: Seq<Seq<char>>,
    selected: Option<Seq<char>>,
) -> Seq<(bool, Seq<char>, bool)>
    decreases categories.len(),
{
    if categories.len() == 0 {
        seq![]
    } else {
        let n = categories.len() - 1;
        let before = rows_spec(categories.take(n), names.take(n), selected);
        let header = if categories.take(n).contains(categories[n]) {
            Seq::<(bool, Seq<char>, bool)>::empty()
        } else {
            seq![(true, categories[n], false)]
        };
        before + header + seq![(false, indent() + names[n], selected == Some(names[n]))]
    }
}

/// Whether `s` is among the first `n` strings of `v`.
fn seen_before(v: &Vec<String>, n: usize, s: &String) -> (res: bool)
    requires
        n <= v.len(),
    ensures
        res == v.deep_view().take(n as int).contains(s@),
{
    let ghost d = v.deep_view().take(n as int);
    let mut i: usize = 0;
    while i < n
        invariant
            n <= v.len(),
            d == v.deep_view().take(n as int),
            i <= n,
            forall|k: int| 0 <= k < i ==> d[k] != s@,
        decreases n - i,
    {
        if v[i] == *s {
            assert(d[i as int] == s@);
            return true;
        }
        i = i + 1;
    }
    false
}

/// The rows that show a list of results (see `rows_spec`).
pub fn list_rows(categories: &Vec<String>, names: &Vec<String>, selected: &Option<String>) -> (res:
    Vec<ListRow>)
    requires
        categories.len() == names.len(),
    ensures
        res@.map_values(|r: ListRow| row_view(r)) == rows_spec(
            categories.deep_view(),
            names.deep_view(),
            selected.deep_view(),
        ),
{
    let ghost cats = categories.deep_view();
    let ghost nms = names.deep_view();
    let ghost sel = selected.deep_view();
    let mut rows: Vec<ListRow> = Vec::new();
    let mut i: usize = 0;
    while i < categories.len()
        invariant
            categories.len() == names.len(),
            cats == categories.deep_view(),
            nms == names.deep_view(),
            sel == selected.deep_view(),
            i <= categories.len(),
            rows@.map_values(|r: ListRow| row_view(r)) == rows_spec(
                cats.take(i as int),
                nms.take(i as int),
                sel,
            ),
        decreases categories.len() - i,
    {
        let ghost before = rows@.map_values(|r: ListRow| row_view(r));
        let seen = seen_before(categories, i, &categories[i]);
        proof {
            assert(cats[i as int] == categories@[i as int]@);
            assert(nms[i as int] == names@[i as int]@);
        }
        if !seen {
            rows.push(ListRow::Header(categories[i].clone()));
        }
        let ghost with_header = rows@.map_values(|r: ListRow| row_view(r));
        proof {
            if !seen {
                assert(with_header =~= before + seq![(true, cats[i as int], false)]);
            } else {
                assert(with_header =~= before);
            }
        }
        let mut text = String::from_str("   ");
        proof {
            reveal_strlit("   ");
            assert("   "@ =~= indent());
        }
        text.append(names[i].as_str());
        let is_selected = match selected {
            Some(s) => names[i] == *s,
            None => false,
        };
        rows.push(ListRow::Entry { text, selected: is_selected });
        proof {
            let c = cats.take(i + 1);
            let m = nms.take(i + 1);
            assert(c.take(i as int) =~= cats.take(i as int));
            assert(m.take(i as int) =~= nms.take(i as int));
            assert(c[i as int] == cats[i as int]);
            assert(m[i as int] == nms[i as int]);
            assert(rows@.map_values(|r: ListRow| row_view(r)) =~= with_header + seq![
                (false, indent() + nms[i as int], sel == Some(nms[i as int])),
            ]);
            assert(rows@.map_values(|r: ListRow| row_view(r)) =~= rows_spec(c, m, sel));
        }
        i = i + 1;
    }
    assert(cats.take(categories.len() as int) =~= cats);
    assert(nms.take(names.len() as int) =~= nms);
    rows
}

} // verus!
