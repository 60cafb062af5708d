//! Browser engines and the tabs they hold.
use vstd::prelude::*;

use crate::helpers::{ImageInfo, Url};
use crate::input::{Interaction, KeyboardEvent, MouseEvent, Point, ScrollDelta, Size};

pub mod ultralight;

verus! {

/// The byte order of an engine's pixels.
#[derive(Debug, Clone, Copy, PartialEq, Eq, Structural)]
pub enum PixelFormat {
    Rgba,
    Bgra,
}


/// Engine specific tab information.
///
/// An engine says which urls and titles a tab may report; an engine whose pages change
/// behind its back (while it works on its own) may allow any.
pub trait TabInfo {
    /// Whether the tab may report `url` as the url of the page it shows.
    spec fn reports_url(&self, url: String) -> bool;

    /// Whether the tab may report `title` as the title of the page it shows.
    spec fn reports_title(&self, title: String) -> bool;

    fn url(&self) -> (res: String)
        ensures
            self.reports_url(res),
    ;

    fn title(&self) -> (res: String)
        ensures
            self.reports_title(res),
    ;
}

/// Calls `rand::random::<u32>()` for a new tab's id. The result rests on chance, so
/// nothing is stated of it.
#[verifier::external_body]
fn random_tab_id() -> (res: u32) {
    rand::random::<u32>()
}

/// A tab: an id, the image it shows and the engine's information on it.
pub struct Tab<Info: TabInfo> {
    id: u32,
    view: ImageInfo,
    info: Info,
}

impl<Info: TabInfo> Tab<Info> {
    pub closed spec fn spec_id(&self) -> u32 {
        self.id
    }

    pub closed spec fn spec_view(&self) -> ImageInfo {
        self.view
    }

    pub closed spec fn spec_info(&self) -> Info {
        self.info
    }

    /// A tab with a random id that shows a white image.
    pub fn new(info: Info) -> (res: Self)
        ensures
            res.spec_info() == info,
            res.spec_view().width == 800,
            res.spec_view().height == 800,
            res.spec_view().pixels@.len() == 800 * 800 * 4,
            forall|i: int|
                0 <= i < res.spec_view().pixels@.len() ==> res.spec_view().pixels@[i] == 255,
    {
        let id = random_tab_id();
        Self::with_id(id, info)
    }

    /// A tab with the given id that shows a white image.
    pub fn with_id(id: u32, info: Info) -> (res: Self)
        ensures
            res.spec_id() == id,
            res.spec_info() == info,
            res.spec_view().width == 800,
            res.spec_view().height == 800,
            res.spec_view().pixels@.len() == 800 * 800 * 4,
            forall|i: int|
                0 <= i < res.spec_view().pixels@.len() ==> res.spec_view().pixels@[i] == 255,
    {
        Self { id, view: ImageInfo::default(), info }
    }

    pub fn get_view(&self) -> (res: &ImageInfo)
        ensures
            *res == self.spec_view(),
    {
        &self.view
    }

    pub fn set_view(&mut self, view: ImageInfo)
        ensures
            final(self).spec_view() == view,
            final(self).spec_id() == old(self).spec_id(),
            final(self).spec_info() == old(self).spec_info(),
    {
        self.view = view;
    }

    pub fn id(&self) -> (res: u32)
        ensures
            res == self.spec_id(),
    {
        self.id
    }

    /// The tab's url, as the engine reports it.
    pub fn url(&self) -> (res: String)
        ensures
            self.spec_info().reports_url(res),
    {
        self.info.url()
    }

    /// The tab's title, as the engine reports it.
    pub fn title(&self) -> (res: String)
        ensures
            self.spec_info().reports_title(res),
    {
        self.info.title()
    }
}

/// The title and url of a tab, as they are shown in lists.
#[derive(Debug, Clone, PartialEq)]
pub struct DisplayTab {
    pub id: u32,
    pub title: String,
    pub url: String,
}

impl DisplayTab {
    /// A copy of the entry.
    pub fn duplicate(&self) -> (res: DisplayTab)
        ensures
            res == *self,
    {
        DisplayTab { id: self.id, title: self.title.clone(), url: self.url.clone() }
    }
}

/// `d` shows the tab: its id, and a title and url the tab reports.
pub open spec fn displays_tab<Info: TabInfo>(d: DisplayTab, tab: Tab<Info>) -> bool {
    &&& d.id == tab.spec_id()
    &&& tab.spec_info().reports_title(d.title)
    &&& tab.spec_info().reports_url(d.url)
}

/// `shown` lists the open tabs, in order (see `displays_tab`).
pub open spec fn displays<Info: TabInfo>(shown: Seq<DisplayTab>, tabs: Tabs<Info>) -> bool {
    &&& shown.len() == tabs.tab_list().len()
    &&& forall|i: int| 0 <= i < shown.len() ==> #[trigger] displays_tab(shown[i], tabs.tab_list()[i])
}

/// The ids of a list of tabs, in order.
pub open spec fn ids_of<Info: TabInfo>(tabs: Seq<Tab<Info>>) -> Seq<u32> {
    Seq::new(tabs.len(), |i: int| tabs[i].spec_id())
}

/// The position of the first tab with the given id.
pub open spec fn first_index_of(ids: Seq<u32>, id: u32) -> int {
    choose|i: int| 0 <= i < ids.len() && ids[i] == id && forall|k: int| 0 <= k < i ==> ids[k] != id
}

/// Keeps the entries of `s` other than `id`.
pub open spec fn without(s: Seq<u32>, id: u32) -> Seq<u32> {
    s.filter(other_than(id))
}

/// The ids other than `id`.
pub open spec fn other_than(id: u32) -> spec_fn(u32) -> bool {
    |x: u32| x != id
}

/// The tabs whose id is not `id`.
pub open spec fn tab_other_than<Info: TabInfo>(id: u32) -> spec_fn(Tab<Info>) -> bool {
    |t: Tab<Info>| t.spec_id() != id
}

/// The open tabs, in order, and the ids of the tabs made current, oldest first.
pub struct Tabs<Info: TabInfo> {
    tabs: Vec<Tab<Info>>,
    history: Vec<u32>,
}

impl<Info: TabInfo> Tabs<Info> {
    /// The open tabs, in order.
    pub closed spec fn tab_list(&self) -> Seq<Tab<Info>> {
        self.tabs@
    }

    /// The ids made current, oldest first; the last is the current tab.
    pub closed spec fn history_list(&self) -> Seq<u32> {
        self.history@
    }

    /// The ids of the open tabs, in order.
    pub open spec fn ids(&self) -> Seq<u32> {
        ids_of(self.tab_list())
    }

    /// The current tab's id.
    pub open spec fn current(&self) -> u32 {
        self.history_list().last()
    }

    /// There is a current tab and it is open.
    pub open spec fn has_current(&self) -> bool {
        self.history_list().len() > 0 && self.ids().contains(self.current())
    }

    /// Every id in the history is that of an open tab.
    pub open spec fn history_open(&self) -> bool {
        forall|i: int|
            0 <= i < self.history_list().len() ==> self.ids().contains(
                #[trigger] self.history_list()[i],
            )
    }

    /// Every open tab has been current at some time: its id is in the history.
    pub open spec fn tabs_in_history(&self) -> bool {
        forall|i: int| 0 <= i < self.ids().len() ==> self.history_list().contains(#[trigger] self.ids()[i])
    }

    /// Whether there is a current tab and it is open.
    pub fn current_is_open(&self) -> (res: bool)
        ensures
            res == self.has_current(),
    {
        if self.history.len() == 0 {
            return false;
        }
        let id = self.history[self.history.len() - 1];
        let mut i: usize = 0;
        while i < self.tabs.len()
            invariant
                i <= self.tabs.len(),
                self.history_list().len() > 0,
                id == self.current(),
                forall|k: int| 0 <= k < i ==> self.ids()[k] != id,
            decreases self.tabs.len() - i,
        {
            if self.tabs[i].id == id {
                assert(self.ids()[i as int] == id);
                assert(id == self.current());
                assert(self.ids().contains(self.current()));
                return true;
            }
            i = i + 1;
        }
        false
    }

    /// Whether every id in the history is that of an open tab.
    pub fn history_is_open(&self) -> (res: bool)
        ensures
            res == self.history_open(),
    {
        let mut j: usize = 0;
        while j < self.history.len()
            invariant
                j <= self.history.len(),
                forall|k: int| 0 <= k < j ==> self.ids().contains(#[trigger] self.history_list()[k]),
            decreases self.history.len() - j,
        {
            let h = self.history[j];
            let mut i: usize = 0;
            let mut found = false;
            while i < self.tabs.len() && !found
                invariant
                    i <= self.tabs.len(),
                    h == self.history_list()[j as int],
                    found ==> self.ids().contains(h),
                    !found ==> forall|k: int| 0 <= k < i ==> self.ids()[k] != h,
                decreases self.tabs.len() - i,
            {
                if self.tabs[i].id == h {
                    assert(self.ids()[i as int] == h);
                    found = true;
                }
                i = i + 1;
            }
            if !found {
                assert(!self.ids().contains(h));
                return false;
            }
            j = j + 1;
        }
        true
    }

    pub fn new() -> (res: Self)
        ensures
            res.tab_list() == Seq::<Tab<Info>>::empty(),
            res.history_list() == Seq::<u32>::empty(),
    {
        Self { tabs: Vec::new(), history: Vec::new() }
    }

    /// The position of the first tab with the given id.
    pub fn id_to_index(&self, id: u32) -> (res: usize)
        requires
            self.ids().contains(id),
        ensures
            res == first_index_of(self.ids(), id),
            res < self.tab_list().len(),
            self.ids()[res as int] == id,
            forall|k: int| 0 <= k < res ==> self.ids()[k] != id,
    {
        let mut idx: usize = 0;
        while idx < self.tabs.len()
            invariant
                self.ids().contains(id),
                idx <= self.tabs.len(),
                forall|k: int| 0 <= k < idx ==> self.ids()[k] != id,
            decreases self.tabs.len() - idx,
        {
            if self.tabs[idx].id == id {
                proof {
                    lemma_first_index_unique(self.ids(), id, idx as int);
                }
                return idx;
            }
            idx = idx + 1;
        }
        assert(false);
        0
    }

    /// The id of the tab at the given position.
    pub fn index_to_id(&self, index: usize) -> (res: u32)
        requires
            index < self.tab_list().len(),
        ensures
            res == self.ids()[index as int],
    {
        self.tabs[index].id
    }

    /// The current tab's id: the last one made current.
    pub fn get_current_id(&self) -> (res: u32)
        requires
            self.history_list().len() > 0,
        ensures
            res == self.current(),
    {
        self.history[self.history.len() - 1]
    }

    /// Makes a tab current.
    pub fn set_current_id(&mut self, id: u32)
        ensures
            final(self).history_list() == old(self).history_list().push(id),
            final(self).tab_list() == old(self).tab_list(),
    {
        self.history.push(id)
    }

    pub fn tabs(&self) -> (res: &Vec<Tab<Info>>)
        ensures
            res@ == self.tab_list(),
    {
        &self.tabs
    }

    /// Adds a tab at the end and returns its id.
    pub fn insert(&mut self, tab: Tab<Info>) -> (res: u32)
        ensures
            res == tab.spec_id(),
            final(self).tab_list() == old(self).tab_list().push(tab),
            final(self).history_list() == old(self).history_list(),
    {
        let id = tab.id;
        self.tabs.push(tab);
        id
    }

    /// Closes every tab with the given id, forgets it in the history, and returns the
    /// newly current tab.
    pub fn remove(&mut self, id: u32) -> (res: u32)
        requires
            without(old(self).history_list(), id).len() > 0,
        ensures
            final(self).history_list() == without(old(self).history_list(), id),
            final(self).tab_list() == old(self).tab_list().filter(tab_other_than(id)),
            res == final(self).current(),
    {
        let ghost old_history = self.history@;
        let ghost old_tabs = self.tabs@;
        let mut history: Vec<u32> = Vec::new();
        let mut i: usize = 0;
        while i < self.history.len()
            invariant
                self.history@ == old_history,
                i <= self.history.len(),
                history@ == without(old_history.subrange(0, i as int), id),
            decreases self.history.len() - i,
        {
            let h = self.history[i];
            proof {
                old_history.subrange(0, i as int).lemma_filter_push(h, other_than(id));
                assert(old_history.subrange(0, i as int).push(h) =~= old_history.subrange(
                    0,
                    i + 1,
                ));
            }
            if h != id {
                history.push(h);
            }
            i = i + 1;
        }
        assert(old_history.subrange(0, old_history.len() as int) =~= old_history);
        self.history = history;

        let mut tabs: Vec<Tab<Info>> = Vec::new();
        let mut old_list: Vec<Tab<Info>> = Vec::new();
        std::mem::swap(&mut old_list, &mut self.tabs);
        // Move the tabs over one by one, from the front.
        while old_list.len() > 0
            invariant
                old_list@.len() <= old_tabs.len(),
                old_list@ == old_tabs.subrange(
                    old_tabs.len() - old_list@.len(),
                    old_tabs.len() as int,
                ),
                tabs@ == old_tabs.subrange(0, old_tabs.len() - old_list@.len()).filter(tab_other_than(id)),
            decreases old_list@.len(),
        {
            let ghost k = old_tabs.len() - old_list@.len();
            let t = old_list.remove(0);
            proof {
                assert(old_tabs[k] == t);
                assert(old_list@ =~= old_tabs.subrange(k + 1, old_tabs.len() as int));
                old_tabs.subrange(0, k).lemma_filter_push(t, tab_other_than(id));
                assert(old_tabs.subrange(0, k).push(t) =~= old_tabs.subrange(0, k + 1));
            }
            if t.id != id {
                tabs.push(t);
            }
        }
        assert(old_tabs.subrange(0, old_tabs.len() as int) =~= old_tabs);
        self.tabs = tabs;
        self.get_current_id()
    }

    /// The current tab.
    pub fn get_current(&self) -> (res: &Tab<Info>)
        requires
            self.has_current(),
        ensures
            *res == self.tab_list()[first_index_of(self.ids(), self.current())],
    {
        self.get(self.get_current_id())
    }

    /// The current tab, to change.
    pub fn get_current_mut(&mut self) -> (res: &mut Tab<Info>)
        requires
            old(self).has_current(),
        ensures
            *res == old(self).tab_list()[first_index_of(old(self).ids(), old(self).current())],
            final(self).tab_list() == old(self).tab_list().update(
                first_index_of(old(self).ids(), old(self).current()),
                *final(res),
            ),
            final(self).history_list() == old(self).history_list(),
    {
        let id = self.get_current_id();
        self.get_mut(id)
    }

    /// The first tab with the given id.
    pub fn get(&self, id: u32) -> (res: &Tab<Info>)
        requires
            self.ids().contains(id),
        ensures
            *res == self.tab_list()[first_index_of(self.ids(), id)],
    {
        let idx = self.id_to_index(id);
        &self.tabs[idx]
    }

    /// The first tab with the given id, to change.
    pub fn get_mut(&mut self, id: u32) -> (res: &mut Tab<Info>)
        requires
            old(self).ids().contains(id),
        ensures
            *res == old(self).tab_list()[first_index_of(old(self).ids(), id)],
            final(self).tab_list() == old(self).tab_list().update(
                first_index_of(old(self).ids(), id),
                *final(res),
            ),
            final(self).history_list() == old(self).history_list(),
    {
        let idx = self.id_to_index(id);
        &mut self.tabs[idx]
    }
}

/// The first position of an id is the one before which the id does not occur.
pub proof fn lemma_first_index_unique(ids: Seq<u32>, id: u32, i: int)
    requires
        0 <= i < ids.len(),
        ids[i] == id,
        forall|k: int| 0 <= k < i ==> ids[k] != id,
    ensures
        first_index_of(ids, id) == i,
{
    let j = first_index_of(ids, id);
    assert(0 <= j < ids.len() && ids[j] == id && forall|k: int| 0 <= k < j ==> ids[k] != id);
    if j < i {
        assert(ids[j] != id);
    }
    if i < j {
        assert(ids[i] != id);
    }
}


impl<Info: TabInfo> Tabs<Info> {
    /// The title and url of every open tab, in order.
    pub fn display_tabs(&self) -> (res: Vec<DisplayTab>)
        ensures
            displays(res@, *self),
    {
        let mut res: Vec<DisplayTab> = Vec::new();
        let mut i: usize = 0;
        while i < self.tabs.len()
            invariant
                i <= self.tabs.len(),
                res@.len() == i,
                forall|k: int| 0 <= k < i ==> #[trigger] displays_tab(res@[k], self.tab_list()[k]),
            decreases self.tabs.len() - i,
        {
            let tab = &self.tabs[i];
            res.push(DisplayTab { id: tab.id, title: tab.title(), url: tab.url() });
            i = i + 1;
        }
        res
    }
}


impl<Info: TabInfo> Tabs<Info> {
    /// Whether the history holds an id other than `id`: closing `id` leaves a current tab.
    pub fn has_other_than(&self, id: u32) -> (res: bool)
        ensures
            res == (without(self.history_list(), id).len() > 0),
    {
        let mut i: usize = 0;
        while i < self.history.len()
            invariant
                i <= self.history.len(),
                forall|k: int| 0 <= k < i ==> self.history@[k] == id,
            decreases self.history.len() - i,
        {
            if self.history[i] != id {
                proof {
                    self.history@.lemma_filter_contains(other_than(id), i as int);
                }
                return true;
            }
            i = i + 1;
        }
        proof {
            if without(self.history@, id).len() > 0 {
                self.history@.lemma_filter_pred(other_than(id), 0);
                let x = without(self.history@, id)[0];
                self.history@.lemma_filter_contains_rev(other_than(id), x);
                assert(without(self.history@, id).contains(x));
            }
        }
        false
    }
}

impl<Info: TabInfo> Default for Tabs<Info> {
    fn default() -> (res: Self)
        ensures
            res.tab_list() == Seq::<Tab<Info>>::empty(),
            res.history_list() == Seq::<u32>::empty(),
    {
        Self::new()
    }
}

/// Making a tab current and then asking for the current tab gives that tab
/// (`set_current_id` followed by `get_current_id`).
pub proof fn law_current_after_set<Info: TabInfo>(before: Tabs<Info>, after: Tabs<Info>, id: u32)
    requires
        after.history_list() == before.history_list().push(id),
        after.tab_list() == before.tab_list(),
    ensures
        after.history_list().len() > 0,
        after.current() == id,
        before.ids().contains(id) ==> after.has_current(),
{
}

/// A tab inserted under a fresh id is the one found under that id afterwards
/// (`insert` followed by `get`), and the tabs before it keep their places.
pub proof fn law_get_after_insert<Info: TabInfo>(
    before: Tabs<Info>,
    after: Tabs<Info>,
    tab: Tab<Info>,
)
    requires
        !before.ids().contains(tab.spec_id()),
        after.tab_list() == before.tab_list().push(tab),
    ensures
        after.ids() == before.ids().push(tab.spec_id()),
        after.ids().contains(tab.spec_id()),
        first_index_of(after.ids(), tab.spec_id()) == before.tab_list().len(),
        after.tab_list()[first_index_of(after.ids(), tab.spec_id())] == tab,
{
    assert(after.ids() =~= before.ids().push(tab.spec_id()));
    let n = before.tab_list().len() as int;
    assert(after.ids()[n] == tab.spec_id());
    assert forall|k: int| 0 <= k < n implies after.ids()[k] != tab.spec_id() by {
        assert(after.ids()[k] == before.ids()[k]);
    }
    lemma_first_index_unique(after.ids(), tab.spec_id(), n);
}

/// After a tab is closed (`remove`), no open tab and no history entry has its id, the
/// other tabs stay open in the same order, and the current tab is the most recent
/// other one in the history.
pub proof fn law_remove_forgets<Info: TabInfo>(before: Tabs<Info>, after: Tabs<Info>, id: u32)
    requires
        after.history_list() == without(before.history_list(), id),
        after.tab_list() == before.tab_list().filter(tab_other_than(id)),
    ensures
        !after.ids().contains(id),
        !after.history_list().contains(id),
        forall|i: int|
            0 <= i < before.tab_list().len() && before.ids()[i] != id ==> after.tab_list().contains(
                #[trigger] before.tab_list()[i],
            ),
        after.tab_list().len() <= before.tab_list().len(),
{
    broadcast use vstd::seq_lib::group_filter_ensures;

    let f = tab_other_than::<Info>(id);
    assert forall|i: int| 0 <= i < after.ids().len() implies after.ids()[i] != id by {
        assert(f(after.tab_list()[i]));
    }
    assert forall|i: int| 0 <= i < after.history_list().len() implies after.history_list()[i]
        != id by {
        assert(other_than(id)(after.history_list()[i]));
    }
    assert forall|i: int|
        0 <= i < before.tab_list().len() && before.ids()[i] != id implies after.tab_list().contains(
        #[trigger] before.tab_list()[i],
    ) by {
        assert(f(before.tab_list()[i]));
    }
}

/// Every id in the history stays the id of an open tab when a tab is added (`insert`).
pub proof fn law_insert_keeps_history_open<Info: TabInfo>(
    before: Tabs<Info>,
    after: Tabs<Info>,
    tab: Tab<Info>,
)
    requires
        before.history_open(),
        after.tab_list() == before.tab_list().push(tab),
        after.history_list() == before.history_list(),
    ensures
        after.history_open(),
{
    assert forall|i: int| 0 <= i < after.history_list().len() implies after.ids().contains(
        #[trigger] after.history_list()[i],
    ) by {
        let h = after.history_list()[i];
        assert(before.ids().contains(h));
        let j = choose|j: int| 0 <= j < before.ids().len() && before.ids()[j] == h;
        assert(after.ids()[j] == h);
    }
}

/// Every id in the history stays the id of an open tab when a tab is closed (`remove`).
pub proof fn law_remove_keeps_history_open<Info: TabInfo>(
    before: Tabs<Info>,
    after: Tabs<Info>,
    id: u32,
)
    requires
        before.history_open(),
        after.history_list() == without(before.history_list(), id),
        after.tab_list() == before.tab_list().filter(tab_other_than(id)),
    ensures
        after.history_open(),
{
    broadcast use vstd::seq_lib::group_filter_ensures;

    assert forall|i: int| 0 <= i < after.history_list().len() implies after.ids().contains(
        #[trigger] after.history_list()[i],
    ) by {
        let h = after.history_list()[i];
        assert(other_than(id)(h));
        assert(after.history_list().contains(h));
        before.history_list().lemma_filter_contains_rev(other_than(id), h);
        let hi = choose|hi: int|
            0 <= hi < before.history_list().len() && before.history_list()[hi] == h;
        assert(before.ids().contains(before.history_list()[hi]));
        let j = choose|j: int| 0 <= j < before.ids().len() && before.ids()[j] == h;
        let t = before.tab_list()[j];
        assert(tab_other_than::<Info>(id)(t));
        assert(after.tab_list().contains(t));
        let r = choose|r: int| 0 <= r < after.tab_list().len() && after.tab_list()[r] == t;
        assert(after.ids()[r] == h);
    }
}

/// Every id in the history stays the id of an open tab when an open tab is made
/// current (`set_current_id`).
pub proof fn law_select_keeps_history_open<Info: TabInfo>(
    before: Tabs<Info>,
    after: Tabs<Info>,
    id: u32,
)
    requires
        before.history_open(),
        before.ids().contains(id),
        after.history_list() == before.history_list().push(id),
        after.tab_list() == before.tab_list(),
    ensures
        after.history_open(),
        after.has_current(),
{
    assert forall|i: int| 0 <= i < after.history_list().len() implies after.ids().contains(
        #[trigger] after.history_list()[i],
    ) by {
        if i < before.history_list().len() {
            assert(after.history_list()[i] == before.history_list()[i]);
        }
    }
}

/// Every open tab stays in the history when a tab is added and made current (`insert`
/// then `set_current_id` with its id).
pub proof fn law_insert_select_keeps_tabs_in_history<Info: TabInfo>(
    before: Tabs<Info>,
    after: Tabs<Info>,
    tab: Tab<Info>,
)
    requires
        before.tabs_in_history(),
        after.tab_list() == before.tab_list().push(tab),
        after.history_list() == before.history_list().push(tab.spec_id()),
    ensures
        after.tabs_in_history(),
{
    assert forall|i: int| 0 <= i < after.ids().len() implies after.history_list().contains(
        #[trigger] after.ids()[i],
    ) by {
        if i < before.ids().len() {
            assert(after.ids()[i] == before.ids()[i]);
            assert(before.history_list().contains(before.ids()[i]));
            let k = choose|k: int|
                0 <= k < before.history_list().len() && before.history_list()[k] == before.ids()[i];
            assert(after.history_list()[k] == before.ids()[i]);
        } else {
            assert(after.history_list()[before.history_list().len() as int] == tab.spec_id());
        }
    }
}

/// Every open tab stays in the history when a tab is made current (`set_current_id`).
pub proof fn law_select_keeps_tabs_in_history<Info: TabInfo>(
    before: Tabs<Info>,
    after: Tabs<Info>,
    id: u32,
)
    requires
        before.tabs_in_history(),
        after.tab_list() == before.tab_list(),
        after.history_list() == before.history_list().push(id),
    ensures
        after.tabs_in_history(),
{
    assert forall|i: int| 0 <= i < after.ids().len() implies after.history_list().contains(
        #[trigger] after.ids()[i],
    ) by {
        assert(before.history_list().contains(before.ids()[i]));
        let k = choose|k: int|
            0 <= k < before.history_list().len() && before.history_list()[k] == before.ids()[i];
        assert(after.history_list()[k] == before.ids()[i]);
    }
}

/// Every open tab stays in the history when a tab is closed (`remove`).
pub proof fn law_remove_keeps_tabs_in_history<Info: TabInfo>(
    before: Tabs<Info>,
    after: Tabs<Info>,
    id: u32,
)
    requires
        before.tabs_in_history(),
        after.history_list() == without(before.history_list(), id),
        after.tab_list() == before.tab_list().filter(tab_other_than(id)),
    ensures
        after.tabs_in_history(),
{
    broadcast use vstd::seq_lib::group_filter_ensures;

    assert forall|i: int| 0 <= i < after.ids().len() implies after.history_list().contains(
        #[trigger] after.ids()[i],
    ) by {
        let t = after.tab_list()[i];
        assert(after.tab_list().contains(t));
        before.tab_list().lemma_filter_contains_rev(tab_other_than(id), t);
        assert(tab_other_than::<Info>(id)(t));
        let j = choose|j: int| 0 <= j < before.tab_list().len() && before.tab_list()[j] == t;
        assert(before.ids()[j] == t.spec_id());
        assert(before.history_list().contains(before.ids()[j]));
        let k = choose|k: int|
            0 <= k < before.history_list().len() && before.history_list()[k] == t.spec_id();
        before.history_list().lemma_filter_contains(other_than(id), k);
        assert(after.ids()[i] == t.spec_id());
    }
}

/// Looking up the position of an open id and then the id at that position gives the id
/// back (`id_to_index` then `index_to_id`); the other way round gives the position
/// back when no two open tabs share an id.
pub proof fn law_index_id_round_trip(ids: Seq<u32>, id: u32, index: int)
    requires
        ids.contains(id),
        0 <= index < ids.len(),
    ensures
        0 <= first_index_of(ids, id) < ids.len(),
        ids[first_index_of(ids, id)] == id,
        first_index_of(ids, ids[index]) <= index,
        ids.no_duplicates() ==> first_index_of(ids, ids[index]) == index,
{
    let j = choose|j: int| 0 <= j < ids.len() && ids[j] == id;
    lemma_first_index_exists(ids, id, j);
    lemma_first_index_exists(ids, ids[index], index);
    let f = first_index_of(ids, ids[index]);
    if ids.no_duplicates() && f != index {
        assert(ids[f] == ids[index]);
    }
}

/// An id that occurs at position `j` has a first position, no later than `j`.
pub proof fn lemma_first_index_exists(ids: Seq<u32>, id: u32, j: int)
    requires
        0 <= j < ids.len(),
        ids[j] == id,
    ensures
        0 <= first_index_of(ids, id) <= j,
        ids[first_index_of(ids, id)] == id,
        forall|k: int| 0 <= k < first_index_of(ids, id) ==> ids[k] != id,
    decreases j,
{
    if exists|k: int| 0 <= k < j && ids[k] == id {
        let k = choose|k: int| 0 <= k < j && ids[k] == id;
        lemma_first_index_exists(ids, id, k);
    } else {
        lemma_first_index_unique(ids, id, j);
    }
}


/// A request that the browser makes of its engine.
pub enum EngineRequest {
    /// Make a tab on the url, at the size; the tab made has the id.
    NewTab { url: Seq<char>, size: Size, id: u32 },
    /// Load the url in the tab with the id, the current one.
    GoTo { url: Seq<char>, tab: u32 },
    /// Resize the views.
    Resize(Size),
    /// Reload the current page.
    Refresh,
    /// Go back in the current tab's history.
    GoBack,
    /// Go forward in the current tab's history.
    GoForward,
    /// Pass a keyboard event to the current page.
    Keyboard(KeyboardEvent),
    /// Pass a mouse event, at a point of the view, to the current page.
    Mouse(Point, MouseEvent),
}

/// The requests an engine has been given, oldest first.
pub struct EngineLog {
    pub requests: Ghost<Seq<EngineRequest>>,
}

impl View for EngineLog {
    type V = Seq<EngineRequest>;

    open spec fn view(&self) -> Seq<EngineRequest> {
        self.requests@
    }
}

/// A browser engine: it holds tabs, loads urls in the current one and renders it.
///
/// Implementations promise what the `ensures` clauses say; the methods that work on
/// the current tab are only called while there is one. Each request the engine is given
/// (a url to load, a tab to make, a size, an event) is kept in its log, so that
/// contracts can say which requests a caller made, in which order.
pub trait BrowserEngine: Sized {
    type Info: TabInfo;

    /// The engine's tabs.
    spec fn spec_tabs(&self) -> Tabs<Self::Info>;

    /// The requests the engine has been given.
    spec fn spec_log(&self) -> EngineLog;

    /// Whether the engine, as it is, may give `buffer` as the current tab's pixels; an
    /// engine whose pages render on their own may allow any buffer.
    spec fn renders(&self, buffer: (PixelFormat, Vec<u8>)) -> bool;

    /// A new engine, with no tabs, that has been given no request.
    fn new() -> (res: Self)
        ensures
            res.spec_tabs().tab_list().len() == 0,
            res.spec_tabs().history_list().len() == 0,
            res.spec_log()@ == Seq::<EngineRequest>::empty(),
    ;

    fn do_work(&self);

    fn need_render(&self) -> bool
        requires
            self.spec_tabs().has_current(),
    ;

    fn force_need_render(&self)
        requires
            self.spec_tabs().has_current(),
    ;

    fn render(&mut self)
        ensures
            final(self).spec_tabs() == old(self).spec_tabs(),
            final(self).spec_log() == old(self).spec_log(),
    ;

    fn size(&self) -> (u32, u32)
        requires
            self.spec_tabs().has_current(),
    ;

    fn resize(&mut self, size: Size)
        ensures
            final(self).spec_tabs() == old(self).spec_tabs(),
            final(self).spec_log()@ == old(self).spec_log()@.push(EngineRequest::Resize(size)),
    ;

    /// The current tab's pixels, four bytes per pixel.
    fn pixel_buffer(&mut self) -> (res: (PixelFormat, Vec<u8>))
        requires
            old(self).spec_tabs().has_current(),
        ensures
            res.1.len() % 4 == 0,
            old(self).renders(res),
            final(self).spec_tabs() == old(self).spec_tabs(),
            final(self).spec_log() == old(self).spec_log(),
    ;

    fn get_cursor(&self) -> Interaction
        requires
            self.spec_tabs().has_current(),
    ;

    /// Loads the url in the current tab.
    fn goto_url(&mut self, url: &Url)
        requires
            old(self).spec_tabs().has_current(),
        ensures
            final(self).spec_tabs() == old(self).spec_tabs(),
            final(self).spec_log()@ == old(self).spec_log()@.push(
                EngineRequest::GoTo { url: url@, tab: old(self).spec_tabs().current() },
            ),
    ;

    fn has_loaded(&self) -> bool
        requires
            self.spec_tabs().has_current(),
    ;

    /// A new tab on the url, at the size, which the caller adds to the tabs.
    fn new_tab(&mut self, url: Url, size: Size) -> (res: Tab<Self::Info>)
        ensures
            final(self).spec_tabs() == old(self).spec_tabs(),
            final(self).spec_log()@ == old(self).spec_log()@.push(
                EngineRequest::NewTab { url: url@, size, id: res.spec_id() },
            ),
    ;

    fn get_tabs(&self) -> (res: &Tabs<Self::Info>)
        ensures
            *res == self.spec_tabs(),
    ;

    fn get_tabs_mut(&mut self) -> (res: &mut Tabs<Self::Info>)
        ensures
            *res == old(self).spec_tabs(),
            final(self).spec_tabs() == *final(res),
            final(self).spec_log() == old(self).spec_log(),
    ;

    fn refresh(&mut self)
        requires
            old(self).spec_tabs().has_current(),
        ensures
            final(self).spec_tabs() == old(self).spec_tabs(),
            final(self).spec_log()@ == old(self).spec_log()@.push(EngineRequest::Refresh),
    ;

    fn go_forward(&mut self)
        requires
            old(self).spec_tabs().has_current(),
        ensures
            final(self).spec_tabs() == old(self).spec_tabs(),
            final(self).spec_log()@ == old(self).spec_log()@.push(EngineRequest::GoForward),
    ;

    fn go_back(&mut self)
        requires
            old(self).spec_tabs().has_current(),
        ensures
            final(self).spec_tabs() == old(self).spec_tabs(),
            final(self).spec_log()@ == old(self).spec_log()@.push(EngineRequest::GoBack),
    ;

    fn focus(&self)
        requires
            self.spec_tabs().has_current(),
    ;

    fn unfocus(&self)
        requires
            self.spec_tabs().has_current(),
    ;

    fn scroll(&self, delta: ScrollDelta)
        requires
            self.spec_tabs().has_current(),
    ;

    fn handle_keyboard_event(&mut self, event: KeyboardEvent)
        requires
            old(self).spec_tabs().has_current(),
        ensures
            final(self).spec_tabs() == old(self).spec_tabs(),
            final(self).spec_log()@ == old(self).spec_log()@.push(EngineRequest::Keyboard(event)),
    ;

    fn handle_mouse_event(&mut self, point: Point, event: MouseEvent)
        requires
            old(self).spec_tabs().has_current(),
        ensures
            final(self).spec_tabs() == old(self).spec_tabs(),
            final(self).spec_log()@ == old(self).spec_log()@.push(
                EngineRequest::Mouse(point, event),
            ),
    ;
}

/// Closing the tabs of an id and keeping the ids of the others are the same thing.
pub proof fn lemma_ids_of_filter<Info: TabInfo>(tabs: Seq<Tab<Info>>, id: u32)
    ensures
        ids_of(tabs.filter(tab_other_than(id))) == ids_of(tabs).filter(other_than(id)),
    decreases tabs.len(),
{
    reveal(Seq::filter);
    if tabs.len() > 0 {
        let prev = tabs.drop_last();
        lemma_ids_of_filter(prev, id);
        assert(ids_of(tabs).drop_last() =~= ids_of(prev));
        let t = tabs.last();
        if tab_other_than::<Info>(id)(t) {
            assert(ids_of(prev.filter(tab_other_than(id)).push(t)) =~= ids_of(
                prev.filter(tab_other_than(id)),
            ).push(t.spec_id()));
        }
    } else {
        assert(ids_of(tabs.filter(tab_other_than(id))) =~= ids_of(tabs).filter(other_than(id)));
    }
}

/// Replacing a tab by one with the same id keeps the ids.
pub proof fn lemma_ids_of_update<Info: TabInfo>(tabs: Seq<Tab<Info>>, i: int, t: Tab<Info>)
    requires
        0 <= i < tabs.len(),
        t.spec_id() == tabs[i].spec_id(),
    ensures
        ids_of(tabs.update(i, t)) == ids_of(tabs),
{
    assert(ids_of(tabs.update(i, t)) =~= ids_of(tabs));
}

} // verus!
