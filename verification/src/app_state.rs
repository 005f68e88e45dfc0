//! Core per-window state: the window's tab collection, its drag session,
//! and its root directory — the context hint that a cross-window transfer
//! carries along with the tab.
//!
//! Presentation concerns of a window (theme, zoom, geometry, sidebar) and
//! their persistence live with the embedding, not here.

use vstd::prelude::*;

use crate::collection::TabCollection;
use crate::drag_state::TabDragState;
use crate::tabs::empty_tab;

verus! {

/// The verified state of one window.
#[derive(Debug)]
pub struct AppState {
    pub tabs: TabCollection,
    pub directory: Option<String>,
    pub tab_drag_state: TabDragState,
}

impl AppState {
    /// The window state's invariant: its collection is well formed.
    pub open spec fn wf(self) -> bool {
        self.tabs.wf()
    }

    /// Set the window's root directory.
    pub fn set_root_directory(&mut self, path: String)
        ensures
            final(self).directory == Some(path),
            final(self).tabs == old(self).tabs,
            final(self).tab_drag_state == old(self).tab_drag_state,
            old(self).wf() ==> final(self).wf(),
    {
        self.directory = Some(path);
    }
}

impl Default for AppState {
    /// A fresh window: one empty placeholder tab, no directory, idle drag
    /// session.
    fn default() -> (r: Self)
        ensures
            r.wf(),
            r.tabs.tabs@ =~= seq![empty_tab()],
            r.tabs.active_tab == 0,
            r.directory is None,
            r.tab_drag_state.dragging_tab_index is None,
            r.tab_drag_state.drop_target_index is None,
            !r.tab_drag_state.animating,
    {
        AppState { tabs: TabCollection::new(), directory: None, tab_drag_state: TabDragState::new() }
    }
}

} // verus!
