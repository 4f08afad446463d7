//! Which window a selector picks, and how the windows are shown.
use crate::state::{State, StateView, Toplevel, ToplevelView};
use crate::text::{contains, contains_text, law_contains_text, texts};
use vstd::prelude::*;

verus! {

impl ToplevelView {
    /// Whether the application's name or the title is the selector.
    pub open spec fn equals(self, selector: Seq<char>) -> bool {
        self.app_id == selector || self.title == selector
    }

    /// Whether the selector occurs in the title or in the application's name.
    pub open spec fn mentions(self, selector: Seq<char>) -> bool {
        contains_text(self.title, selector) || contains_text(self.app_id, selector)
    }

    /// The window as a line of the listing.
    pub open spec fn line(self) -> Seq<char> {
        self.app_id + "\t"@ + self.title
    }

    /// The window as it is named while it is captured.
    pub open spec fn description(self) -> Seq<char> {
        self.app_id + " / "@ + self.title
    }
}

/// Whether the selector picks window `i`: the first that equals it, or, where none does, the
/// first that mentions it.
pub open spec fn picks(
    toplevels: Seq<(u64, ToplevelView)>,
    selector: Seq<char>,
    i: int,
) -> bool {
    &&& 0 <= i < toplevels.len()
    &&& if exists|k: int| 0 <= k < toplevels.len() && (#[trigger] toplevels[k]).1.equals(selector) {
        &&& toplevels[i].1.equals(selector)
        &&& forall|j: int| 0 <= j < i ==> !(#[trigger] toplevels[j]).1.equals(selector)
    } else {
        &&& toplevels[i].1.mentions(selector)
        &&& forall|j: int| 0 <= j < i ==> !(#[trigger] toplevels[j]).1.mentions(selector)
    }
}

/// The place of the window that the selector picks, if there is one.
pub open spec fn picked(toplevels: Seq<(u64, ToplevelView)>, selector: Seq<char>) -> Option<int> {
    if exists|i: int| picks(toplevels, selector, i) {
        Some(choose|i: int| picks(toplevels, selector, i))
    } else {
        None
    }
}

impl StateView {
    /// The listing: one line for each window, in the order of the list.
    pub open spec fn listing(self) -> Seq<Seq<char>> {
        self.toplevels.map_values(|entry: (u64, ToplevelView)| entry.1.line())
    }
}

/// A selector picks at most one window.
pub proof fn law_pick_is_unique(
    toplevels: Seq<(u64, ToplevelView)>,
    selector: Seq<char>,
    i: int,
    j: int,
)
    requires
        picks(toplevels, selector, i),
        picks(toplevels, selector, j),
    ensures
        i == j,
{
}

/// Of the windows up to `k`, the first with a property that window `k` has.
proof fn lemma_first(
    toplevels: Seq<(u64, ToplevelView)>,
    holds: spec_fn(ToplevelView) -> bool,
    k: int,
) -> (first: int)
    requires
        0 <= k < toplevels.len(),
        holds(toplevels[k].1),
    ensures
        0 <= first <= k,
        holds(toplevels[first].1),
        forall|j: int| 0 <= j < first ==> !holds((#[trigger] toplevels[j]).1),
    decreases k,
{
    if exists|j: int| 0 <= j < k && holds((#[trigger] toplevels[j]).1) {
        let j = choose|j: int| 0 <= j < k && holds((#[trigger] toplevels[j]).1);
        lemma_first(toplevels, holds, j)
    } else {
        k
    }
}

impl Toplevel {
    fn equals_selector(&self, selector: &String) -> (yes: bool)
        ensures
            yes == self@.equals(selector@),
    {
        self.app_id == *selector || self.title == *selector
    }

    fn mentions_selector(&self, selector: &String) -> (yes: bool)
        ensures
            yes == self@.mentions(selector@),
    {
        contains(self.title.as_str(), selector.as_str()) || contains(
            self.app_id.as_str(),
            selector.as_str(),
        )
    }

    /// The window as a line of the listing.
    pub fn listing_line(&self) -> (text: String)
        ensures
            text@ == self@.line(),
    {
        let mut text = self.app_id.clone();
        text.append("\t");
        text.append(self.title.as_str());
        text
    }

    /// The window as it is named while it is captured.
    pub fn describe(&self) -> (text: String)
        ensures
            text@ == self@.description(),
    {
        let mut text = self.app_id.clone();
        text.append(" / ");
        text.append(self.title.as_str());
        text
    }
}

impl State {
    /// The place of the window that the selector picks, if there is one.
    pub fn find_toplevel(&self, selector: &String) -> (found: Option<usize>)
        ensures
            found matches Some(i) ==> picks(self@.toplevels, selector@, i as int),
            (match found {
                Some(i) => Some(i as int),
                None => None::<int>,
            }) == picked(self@.toplevels, selector@),
    {
        let ghost list = self@.toplevels;
        let mut i: usize = 0;
        while i < self.toplevels.len()
            invariant
                i <= self.toplevels@.len(),
                list == self@.toplevels,
                forall|j: int| 0 <= j < i ==> !(#[trigger] list[j]).1.equals(selector@),
            decreases self.toplevels@.len() - i,
        {
            assert(list[i as int] == (self.toplevels@[i as int].0, self.toplevels@[i as int].1@));
            if self.toplevels[i].1.equals_selector(selector) {
                proof {
                    assert(picks(list, selector@, i as int));
                    law_pick_is_unique(list, selector@, i as int, picked(list, selector@)->0);
                }
                return Some(i);
            }
            i = i + 1;
        }
        let mut i: usize = 0;
        while i < self.toplevels.len()
            invariant
                i <= self.toplevels@.len(),
                list == self@.toplevels,
                forall|j: int| 0 <= j < list.len() ==> !(#[trigger] list[j]).1.equals(selector@),
                forall|j: int| 0 <= j < i ==> !(#[trigger] list[j]).1.mentions(selector@),
            decreases self.toplevels@.len() - i,
        {
            assert(list[i as int] == (self.toplevels@[i as int].0, self.toplevels@[i as int].1@));
            if self.toplevels[i].1.mentions_selector(selector) {
                proof {
                    assert(picks(list, selector@, i as int));
                    law_pick_is_unique(list, selector@, i as int, picked(list, selector@)->0);
                }
                return Some(i);
            }
            i = i + 1;
        }
        None
    }

    /// The listing: one line for each window, in the order of the list.
    pub fn listing(&self) -> (lines: Vec<String>)
        ensures
            texts(lines@) == self@.listing(),
    {
        let mut lines: Vec<String> = Vec::new();
        let mut i: usize = 0;
        while i < self.toplevels.len()
            invariant
                i <= self.toplevels@.len(),
                lines@.len() == i,
                forall|j: int| 0 <= j < i ==> (#[trigger] lines@[j])@ == self.toplevels@[j].1@.line(),
            decreases self.toplevels@.len() - i,
        {
            lines.push(self.toplevels[i].1.listing_line());
            i = i + 1;
        }
        assert(texts(lines@) =~= self@.listing());
        lines
    }
}

/// A window that equals the selector is never passed over for one that only mentions it: where
/// there is such a window, the one that is picked equals the selector.
pub proof fn law_exact_match_wins(
    toplevels: Seq<(u64, ToplevelView)>,
    selector: Seq<char>,
    k: int,
)
    requires
        0 <= k < toplevels.len(),
        toplevels[k].1.equals(selector),
    ensures
        picked(toplevels, selector) matches Some(i) && 0 <= i <= k && toplevels[i].1.equals(
            selector,
        ),
{
    let i = lemma_first(toplevels, |t: ToplevelView| t.equals(selector), k);
    assert(picks(toplevels, selector, i));
    law_pick_is_unique(toplevels, selector, i, picked(toplevels, selector)->0);
}

/// A window is picked exactly where one equals the selector or mentions it.
pub proof fn law_pick_exists(toplevels: Seq<(u64, ToplevelView)>, selector: Seq<char>)
    ensures
        picked(toplevels, selector) is Some <==> exists|k: int|
            0 <= k < toplevels.len() && ((#[trigger] toplevels[k]).1.equals(selector)
                || toplevels[k].1.mentions(selector)),
{
    if exists|k: int| 0 <= k < toplevels.len() && (#[trigger] toplevels[k]).1.equals(selector) {
        let k = choose|k: int|
            0 <= k < toplevels.len() && (#[trigger] toplevels[k]).1.equals(selector);
        law_exact_match_wins(toplevels, selector, k);
    } else if exists|k: int|
        0 <= k < toplevels.len() && (#[trigger] toplevels[k]).1.mentions(selector) {
        let k = choose|k: int|
            0 <= k < toplevels.len() && (#[trigger] toplevels[k]).1.mentions(selector);
        let i = lemma_first(toplevels, |t: ToplevelView| t.mentions(selector), k);
        assert(picks(toplevels, selector, i));
    }
}

/// Where a window's application's name or title is the selector, the first such window is picked.
pub proof fn law_first_exact_match_is_picked(
    toplevels: Seq<(u64, ToplevelView)>,
    selector: Seq<char>,
    k: int,
)
    requires
        0 <= k < toplevels.len(),
        toplevels[k].1.app_id == selector || toplevels[k].1.title == selector,
    ensures
        ({
            &&& picked(toplevels, selector) matches Some(i)
            &&& 0 <= i <= k
            &&& toplevels[i].1.app_id == selector || toplevels[i].1.title == selector
            &&& forall|j: int|
                0 <= j < i ==> (#[trigger] toplevels[j]).1.app_id != selector && toplevels[j].1.title
                    != selector
        }),
{
    law_exact_match_wins(toplevels, selector, k);
    assert(toplevels[k].1.equals(selector));
    let i = picked(toplevels, selector)->0;
    assert(picks(toplevels, selector, i));
    assert forall|j: int| 0 <= j < i implies (#[trigger] toplevels[j]).1.app_id != selector
        && toplevels[j].1.title != selector by {
        assert(!toplevels[j].1.equals(selector));
    }
}

/// Where no window's application's name or title is the selector, and the selector stands
/// somewhere in the title or in the application's name of a window, the first window with it in
/// either of the two is picked.
pub proof fn law_first_substring_match_is_picked(
    toplevels: Seq<(u64, ToplevelView)>,
    selector: Seq<char>,
    k: int,
    before: Seq<char>,
    after: Seq<char>,
)
    requires
        forall|j: int|
            0 <= j < toplevels.len() ==> (#[trigger] toplevels[j]).1.app_id != selector
                && toplevels[j].1.title != selector,
        0 <= k < toplevels.len(),
        toplevels[k].1.title == before + selector + after || toplevels[k].1.app_id == before
            + selector + after,
    ensures
        ({
            &&& picked(toplevels, selector) matches Some(i)
            &&& 0 <= i <= k
            &&& contains_text(toplevels[i].1.title, selector) || contains_text(
                toplevels[i].1.app_id,
                selector,
            )
            &&& forall|j: int|
                0 <= j < i ==> !contains_text((#[trigger] toplevels[j]).1.title, selector)
                    && !contains_text(toplevels[j].1.app_id, selector)
        }),
{
    law_contains_text(toplevels[k].1.title, selector);
    law_contains_text(toplevels[k].1.app_id, selector);
    assert(toplevels[k].1.mentions(selector));
    assert forall|j: int| 0 <= j < toplevels.len() implies !(#[trigger] toplevels[j]).1.equals(
        selector,
    ) by {}
    let first = lemma_first(toplevels, |t: ToplevelView| t.mentions(selector), k);
    assert(picks(toplevels, selector, first));
    let i = picked(toplevels, selector)->0;
    law_pick_is_unique(toplevels, selector, first, i);
    assert forall|j: int| 0 <= j < i implies !contains_text(
        (#[trigger] toplevels[j]).1.title,
        selector,
    ) && !contains_text(toplevels[j].1.app_id, selector) by {
        assert(!toplevels[j].1.mentions(selector));
    }
}

/// Where the selector stands nowhere in the names of the windows, no window is picked.
pub proof fn law_no_match_picks_nothing(toplevels: Seq<(u64, ToplevelView)>, selector: Seq<char>)
    requires
        forall|j: int|
            0 <= j < toplevels.len() ==> !contains_text((#[trigger] toplevels[j]).1.title, selector)
                && !contains_text(toplevels[j].1.app_id, selector),
    ensures
        picked(toplevels, selector) is None,
{
    assert forall|j: int| 0 <= j < toplevels.len() implies !(#[trigger] toplevels[j]).1.equals(
        selector,
    ) && !toplevels[j].1.mentions(selector) by {
        law_contains_text(toplevels[j].1.title, selector);
        law_contains_text(toplevels[j].1.app_id, selector);
        assert(selector =~= Seq::<char>::empty() + selector + Seq::<char>::empty());
    }
    law_pick_exists(toplevels, selector);
}

/// The listing has one line for each window, in their order. A line is as long as both names and a
/// tab; it begins with the whole of the application's name, then comes the tab, and the rest is
/// the whole of the title.
pub proof fn law_listing_lines(state: StateView, i: int)
    requires
        0 <= i < state.toplevels.len(),
    ensures
        state.listing().len() == state.toplevels.len(),
        ({
            let window = state.toplevels[i].1;
            let line = state.listing()[i];
            let n = window.app_id.len() as int;
            &&& window.line() == line
            &&& line.len() == n + 1 + window.title.len()
            &&& line.take(n) == window.app_id
            &&& line[n] == '\t'
            &&& line.skip(n + 1) == window.title
        }),
{
    reveal_strlit("\t");
    let window = state.toplevels[i].1;
    let line = state.listing()[i];
    let n = window.app_id.len() as int;
    assert(line == window.line());
    assert(line.take(n) =~= window.app_id);
    assert(line.skip(n + 1) =~= window.title);
}

/// While it is captured a window is named by the whole of its application's name, a slash between
/// spaces, and the whole of its title.
pub proof fn law_description(window: ToplevelView)
    ensures
        ({
            let text = window.description();
            let n = window.app_id.len() as int;
            &&& text.len() == n + 3 + window.title.len()
            &&& text.take(n) == window.app_id
            &&& text[n] == ' ' && text[n + 1] == '/' && text[n + 2] == ' '
            &&& text.skip(n + 3) == window.title
        }),
{
    reveal_strlit(" / ");
    let text = window.description();
    let n = window.app_id.len() as int;
    assert(text.take(n) =~= window.app_id);
    assert(text.skip(n + 3) =~= window.title);
}

} // verus!
