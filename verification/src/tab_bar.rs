//! The tab bar: a label for each tab and the active one.
use vstd::prelude::*;

use crate::engines::{first_index_of, TabInfo, Tabs};

verus! {

/// The label of a tab: its title, or `New Tab` when it has none.
pub open spec fn tab_label(title: Seq<char>) -> Seq<char> {
    if title.len() == 0 {
        "New Tab"@
    } else {
        title
    }
}

/// The label of a tab with the given title.
pub fn tab_title(title: &String) -> (res: String)
    ensures
        res@ == tab_label(title@),
{
    if title.as_str().unicode_len() == 0 {
        String::from_str("New Tab")
    } else {
        title.clone()
    }
}

/// The labels of tabs with the given titles.
pub fn tab_titles(titles: &Vec<String>) -> (res: Vec<String>)
    ensures
        res.len() == titles.len(),
        forall|i: int| 0 <= i < titles.len() ==> #[trigger] res@[i]@ == tab_label(titles@[i]@),
{
    let mut res: Vec<String> = Vec::new();
    let mut i: usize = 0;
    while i < titles.len()
        invariant
            i <= titles.len(),
            res.len() == i,
            forall|k: int| 0 <= k < i ==> #[trigger] res@[k]@ == tab_label(titles@[k]@),
        decreases titles.len() - i,
    {
        res.push(tab_title(&titles[i]));
        i = i + 1;
    }
    res
}

/// The position of the current tab in the tab bar.
pub fn active_tab<Info: TabInfo>(tabs: &Tabs<Info>) -> (res: usize)
    requires
        tabs.has_current(),
    ensures
        res == first_index_of(tabs.ids(), tabs.current()),
        res < tabs.tab_list().len(),
{
    tabs.id_to_index(tabs.get_current_id())
}

/// The active tab of a basic tab bar, as the bar keys its tabs: its position and its
/// label (`New Tab` for an empty title); the position must be that of a tab.
pub fn active_tab_basic(tabs: &Vec<String>, active_tab: u32) -> (res: (u32, String))
    requires
        active_tab < tabs.len(),
    ensures
        res.0 == active_tab,
        res.1@ == tab_label(tabs@[active_tab as int]@),
{
    (active_tab, tab_title(&tabs[active_tab as usize]))
}

/// The active tab of a tab bar whose tabs carry ids: the first tab with the active id;
/// there must be one.
pub fn active_tab_advanced(tabs: &Vec<(u32, String)>, active_tab: u32) -> (res: (u32, String))
    requires
        exists|i: int| 0 <= i < tabs.len() && tabs@[i].0 == active_tab,
    ensures
        ({
            let k = choose|k: int|
                0 <= k < tabs.len() && tabs@[k].0 == active_tab && forall|j: int|
                    0 <= j < k ==> tabs@[j].0 != active_tab;
            res == tabs@[k]
        }),
{
    let mut i: usize = 0;
    while i < tabs.len()
        invariant
            i <= tabs.len(),
            exists|i: int| 0 <= i < tabs.len() && tabs@[i].0 == active_tab,
            forall|j: int| 0 <= j < i ==> tabs@[j].0 != active_tab,
        decreases tabs.len() - i,
    {
        if tabs[i].0 == active_tab {
            proof {
                let k = choose|k: int|
                    0 <= k < tabs.len() && tabs@[k].0 == active_tab && forall|j: int|
                        0 <= j < k ==> tabs@[j].0 != active_tab;
                assert(0 <= i < tabs.len() && tabs@[i as int].0 == active_tab && forall|j: int|
                    0 <= j < i ==> tabs@[j].0 != active_tab);
                if k < i {
                    assert(tabs@[k].0 != active_tab);
                }
                if i < k {
                    assert(tabs@[i as int].0 != active_tab);
                }
            }
            return (tabs[i].0, tabs[i].1.clone());
        }
        i = i + 1;
    }
    (0, String::new())
}

} // verus!
