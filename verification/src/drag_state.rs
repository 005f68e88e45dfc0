//! Per-window drag-session state machine.
//!
//! Tracks an in-progress pointer-drag gesture for one window: which local tab
//! index is being dragged, where the visual insertion marker currently sits,
//! and whether a settle animation is in flight. The session is idle exactly
//! when no dragged index is recorded. It never mutates the tab collection:
//! the drop itself is carried out by the reorder operation or by the transfer
//! protocol, after which the caller ends the session.

use vstd::prelude::*;

verus! {

/// Ephemeral drag state of one window. Created at drag-start, reset at
/// drag-end, never persisted.
#[derive(Debug, Clone, Copy, PartialEq, Eq, Structural)]
pub struct TabDragState {
    pub dragging_tab_index: Option<usize>,
    pub drop_target_index: Option<usize>,
    pub animating: bool,
}

impl TabDragState {
    /// Whether a drag gesture is in progress in this window.
    pub open spec fn is_dragging(self) -> bool {
        self.dragging_tab_index is Some
    }

    /// A fresh, idle session: nothing dragged, no drop marker, no animation.
    pub fn new() -> (r: Self)
        ensures
            r.dragging_tab_index is None,
            r.drop_target_index is None,
            !r.animating,
    {
        TabDragState { dragging_tab_index: None, drop_target_index: None, animating: false }
    }

    /// Begin a drag of the tab at `index`: records the dragged index and
    /// clears both the drop marker and the settle flag. A new drag always
    /// supersedes whatever state was left behind.
    pub fn start_drag(&mut self, index: usize)
        ensures
            final(self).dragging_tab_index == Some(index),
            final(self).drop_target_index is None,
            !final(self).animating,
    {
        self.dragging_tab_index = Some(index);
        self.drop_target_index = None;
        self.animating = false;
    }

    /// Move the visual insertion marker while dragging; meaningful only
    /// during a drag. Does not touch the tab collection.
    pub fn update_drop_target(&mut self, index: Option<usize>)
        requires
            old(self).is_dragging(),
        ensures
            final(self).drop_target_index == index,
            final(self).dragging_tab_index == old(self).dragging_tab_index,
            final(self).animating == old(self).animating,
    {
        self.drop_target_index = index;
    }

    /// End the gesture: clears the dragged index and the drop marker. The
    /// reorder or transfer that the drop caused has already been performed by
    /// the caller.
    pub fn end_drag(&mut self)
        ensures
            final(self).dragging_tab_index is None,
            final(self).drop_target_index is None,
            final(self).animating == old(self).animating,
    {
        self.dragging_tab_index = None;
        self.drop_target_index = None;
    }

    /// Raise the settle-animation flag. The flag is pure presentation
    /// feedback: a timer owned by the embedding clears it again after a fixed
    /// duration via [`Self::finish_animation`].
    pub fn trigger_animation(&mut self)
        ensures
            final(self).animating,
            final(self).dragging_tab_index == old(self).dragging_tab_index,
            final(self).drop_target_index == old(self).drop_target_index,
    {
        self.animating = true;
    }

    /// Clear the settle-animation flag once its fixed duration has elapsed.
    pub fn finish_animation(&mut self)
        ensures
            !final(self).animating,
            final(self).dragging_tab_index == old(self).dragging_tab_index,
            final(self).drop_target_index == old(self).drop_target_index,
    {
        self.animating = false;
    }
}

impl Default for TabDragState {
    /// Same as [`TabDragState::new`]: an idle session.
    fn default() -> (r: Self)
        ensures
            r.dragging_tab_index is None,
            r.drop_target_index is None,
            !r.animating,
    {
        TabDragState { dragging_tab_index: None, drop_target_index: None, animating: false }
    }
}

} // verus!
