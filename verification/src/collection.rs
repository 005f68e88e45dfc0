//! The ordered tab sequence of one window, with its active index.
//!
//! The collection is never empty while the window exists, and the active
//! index always points inside the sequence. Every mutation re-derives the
//! active index so that it keeps pointing at the same logical tab:
//! [`lemma_reorder_preserves_multiset`] and [`lemma_active_follows_reorder`]
//! state that of every reorder, [`lemma_last_tab_guard`] that the sole
//! remaining tab can never leave.

use vstd::prelude::*;

use crate::tabs::Tab;
use crate::tabs::empty_tab;
use crate::tabs::is_file_backed_spec;

verus! {

/// When a reorder request actually moves a tab: both indices in range (the
/// destination may equal the length, meaning "move to the end") and distinct.
pub open spec fn reorder_applies(len: int, from: int, to: int) -> bool {
    from != to && 0 <= from < len && 0 <= to <= len
}

/// The position a moved tab lands on: the requested destination, corrected
/// for the gap its own removal leaves when it moves forward.
pub open spec fn reorder_insert_index(from: int, to: int) -> int {
    if from < to {
        to - 1
    } else {
        to
    }
}

/// The sequence after moving the item at `from` to destination `to`.
pub open spec fn reordered_seq<T>(s: Seq<T>, from: int, to: int) -> Seq<T> {
    s.remove(from).insert(reorder_insert_index(from, to), s[from])
}

/// The active index after a move of the tab at `from` to final position
/// `pos`: the active tab follows its own move, and otherwise shifts by one
/// exactly when the move crosses it.
pub open spec fn rebased_active(active: int, from: int, pos: int) -> int {
    if active == from {
        pos
    } else if from < active && active <= pos {
        active - 1
    } else if pos <= active && active < from {
        active + 1
    } else {
        active
    }
}

/// The active index after closing the tab at `index`, for a collection whose
/// new length is `new_len`: tabs before the closed one keep their index, the
/// rest shift left, and an active index on the closed tab stays in place when
/// it can, else moves to the new last tab.
pub open spec fn active_after_close(active: int, index: int, new_len: int) -> int {
    if active > index {
        active - 1
    } else if active < index {
        active
    } else if index < new_len {
        index
    } else {
        new_len - 1
    }
}

/// A tab may leave its window only when it is file-backed and not the sole
/// remaining tab (a window never drops to zero tabs).
pub open spec fn transferable_spec(c: TabCollection, index: int) -> bool {
    &&& 0 <= index < c.tabs@.len()
    &&& is_file_backed_spec(c.tabs@[index])
    &&& c.tabs@.len() > 1
}

/// The ordered tabs of one window and the index of the active one.
#[derive(Debug)]
pub struct TabCollection {
    pub tabs: Vec<Tab>,
    pub active_tab: usize,
}

impl TabCollection {
    /// The collection's invariant: at least one tab, active index in range.
    pub open spec fn wf(self) -> bool {
        self.tabs@.len() >= 1 && self.active_tab < self.tabs@.len()
    }

    /// A fresh window's collection: one empty placeholder tab, active.
    pub fn new() -> (r: Self)
        ensures
            r.wf(),
            r.tabs@ =~= seq![empty_tab()],
            r.active_tab == 0,
    {
        let mut tabs: Vec<Tab> = Vec::new();
        tabs.push(Tab::empty());
        TabCollection { tabs, active_tab: 0 }
    }

    /// How many tabs the window holds.
    pub fn len(&self) -> (r: usize)
        ensures
            r == self.tabs@.len(),
    {
        self.tabs.len()
    }

    /// A value-copy of the tab at `index`, if there is one.
    pub fn get_tab(&self, index: usize) -> (r: Option<Tab>)
        ensures
            index < self.tabs@.len() ==> r == Some(self.tabs@[index as int]),
            index >= self.tabs@.len() ==> r is None,
    {
        if index < self.tabs.len() {
            Some(self.tabs[index].duplicate())
        } else {
            None
        }
    }

    /// A value-copy of the active tab.
    pub fn current_tab(&self) -> (r: Option<Tab>)
        requires
            self.wf(),
        ensures
            r == Some(self.tabs@[self.active_tab as int]),
    {
        Some(self.tabs[self.active_tab].duplicate())
    }

    /// Make the tab at `index` the active one; a stale index is ignored.
    pub fn switch_to_tab(&mut self, index: usize)
        requires
            old(self).wf(),
        ensures
            final(self).wf(),
            final(self).tabs == old(self).tabs,
            final(self).active_tab == if index < old(self).tabs@.len() {
                index as int
            } else {
                old(self).active_tab as int
            },
    {
        if index < self.tabs.len() {
            self.active_tab = index;
        }
    }

    /// Append an empty placeholder tab, activating it when asked to.
    pub fn add_empty_tab(&mut self, activate: bool)
        requires
            old(self).wf(),
        ensures
            final(self).wf(),
            final(self).tabs@ == old(self).tabs@.push(empty_tab()),
            final(self).active_tab == if activate {
                old(self).tabs@.len() as int
            } else {
                old(self).active_tab as int
            },
    {
        self.tabs.push(Tab::empty());
        if activate {
            self.active_tab = self.tabs.len() - 1;
        }
    }

    /// Whether the tab at `index` may move to another window: only
    /// file-backed content, and never the sole remaining tab.
    pub fn is_transferable(&self, index: usize) -> (r: bool)
        ensures
            r == transferable_spec(*self, index as int),
    {
        if index < self.tabs.len() {
            self.tabs[index].is_file_backed() && self.tabs.len() > 1
        } else {
            false
        }
    }

    /// Close the tab at `index`. A stale index is ignored; closing the sole
    /// remaining tab replaces it with an empty placeholder, so the window
    /// never drops to zero tabs.
    pub fn close_tab(&mut self, index: usize)
        requires
            old(self).wf(),
        ensures
            final(self).wf(),
            index >= old(self).tabs@.len() ==> *final(self) == *old(self),
            index < old(self).tabs@.len() && old(self).tabs@.len() == 1 ==> final(self).tabs@
                =~= seq![empty_tab()] && final(self).active_tab == 0,
            index < old(self).tabs@.len() && old(self).tabs@.len() > 1 ==> final(self).tabs@
                == old(self).tabs@.remove(index as int) && final(self).active_tab
                == active_after_close(
                old(self).active_tab as int,
                index as int,
                old(self).tabs@.len() - 1,
            ),
    {
        if index >= self.tabs.len() {
            return ;
        }
        if self.tabs.len() == 1 {
            let _ = self.tabs.remove(0);
            self.tabs.push(Tab::empty());
            self.active_tab = 0;
            proof {
                assert(self.tabs@ =~= seq![empty_tab()]);
            }
            return ;
        }
        let _ = self.tabs.remove(index);
        let new_len = self.tabs.len();
        if self.active_tab > index {
            self.active_tab = self.active_tab - 1;
        } else if self.active_tab == index && index >= new_len {
            self.active_tab = new_len - 1;
        }
    }
}

/// Law: the sole remaining tab of a window is never transferable, whatever
/// it holds — a window never drops to zero tabs.
pub proof fn lemma_last_tab_guard(c: TabCollection, index: int)
    requires
        c.tabs@.len() == 1,
    ensures
        !transferable_spec(c, index),
{
}

/// Law: a reorder that applies keeps the length and the multiset of items of
/// the sequence — tabs are neither duplicated nor lost, only moved.
pub proof fn lemma_reorder_preserves_multiset<T>(s: Seq<T>, from: int, to: int)
    requires
        reorder_applies(s.len() as int, from, to),
    ensures
        reordered_seq(s, from, to).len() == s.len(),
        reordered_seq(s, from, to).to_multiset() == s.to_multiset(),
{
    broadcast use vstd::seq_lib::group_to_multiset_ensures;

    let ins = reorder_insert_index(from, to);
    let removed = s.remove(from);
    assert(removed.to_multiset() == s.to_multiset().remove(s[from]));
    assert(removed.insert(ins, s[from]).to_multiset() == removed.to_multiset().insert(s[from]));
    assert(s.contains(s[from]));
    assert(s.to_multiset().remove(s[from]).insert(s[from]) =~= s.to_multiset());
}

/// Law: after a reorder that applies, the rebased active index is in range
/// and points at the very tab that was active before the move — whether or
/// not the active tab is the one that moved.
pub proof fn lemma_active_follows_reorder<T>(s: Seq<T>, from: int, to: int, active: int)
    requires
        reorder_applies(s.len() as int, from, to),
        0 <= active < s.len(),
    ensures
        0 <= rebased_active(active, from, reorder_insert_index(from, to)) < s.len(),
        reordered_seq(s, from, to)[rebased_active(active, from, reorder_insert_index(from, to))]
            == s[active],
{
    let ins = reorder_insert_index(from, to);
    let removed = s.remove(from);
    s.remove_ensures(from);
    removed.insert_ensures(ins, s[from]);
    let na = rebased_active(active, from, ins);
    if active == from {
    } else if from < active && active <= ins {
        assert(reordered_seq(s, from, to)[na] == removed[active - 1]);
    } else if ins <= active && active < from {
        assert(reordered_seq(s, from, to)[active + 1] == removed[active]);
    } else if active < from && active < ins {
        assert(reordered_seq(s, from, to)[na] == removed[active]);
    } else {
        assert(reordered_seq(s, from, to)[active] == removed[active - 1]);
    }
}

/// Move the tab at `from_index` so that it lands at destination `to_index`
/// (which may equal the length, meaning "after the last tab"), and re-derive
/// the active index so it tracks the same logical tab. Returns the moved
/// tab's new index, or `None` — with the collection byte-for-byte unchanged —
/// when the indices are equal or out of range (stale requests from the
/// interface are expected and are not an error).
///
/// A move that applies keeps the tabs' multiset and length
/// ([`lemma_reorder_preserves_multiset`]), and the re-derived active index
/// points at the tab that was active before ([`lemma_active_follows_reorder`]).
pub fn handle_tab_reorder(state: &mut TabCollection, from_index: usize, to_index: usize) -> (r:
    Option<usize>)
    requires
        old(state).wf(),
    ensures
        final(state).wf(),
        !reorder_applies(old(state).tabs@.len() as int, from_index as int, to_index as int)
            ==> r is None && *final(state) == *old(state),
        reorder_applies(old(state).tabs@.len() as int, from_index as int, to_index as int) ==> {
            &&& r == Some(reorder_insert_index(from_index as int, to_index as int) as usize)
            &&& final(state).tabs@ == reordered_seq(
                old(state).tabs@,
                from_index as int,
                to_index as int,
            )
            &&& final(state).active_tab == rebased_active(
                old(state).active_tab as int,
                from_index as int,
                reorder_insert_index(from_index as int, to_index as int),
            )
        },
{
    if from_index == to_index {
        return None;
    }
    let len = state.tabs.len();
    if from_index >= len || to_index > len {
        return None;
    }
    let tab = state.tabs.remove(from_index);
    let insert_index = if from_index < to_index {
        to_index - 1
    } else {
        to_index
    };
    state.tabs.insert(insert_index, tab);
    let current_active = state.active_tab;
    let new_active = if current_active == from_index {
        insert_index
    } else if from_index < current_active && current_active <= insert_index {
        current_active - 1
    } else if insert_index <= current_active && current_active < from_index {
        current_active + 1
    } else {
        current_active
    };
    state.active_tab = new_active;
    Some(insert_index)
}

} // verus!
