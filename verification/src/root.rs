//! What lies over a window's content: one drawer and any number of modals.
//!
//! A [`Root`] keeps track of which overlays are open and of where the focus
//! was before the first of them took it, so that closing an overlay can hand
//! the focus back. Drawing the overlays and moving the focus are left to the
//! front end: it tells the root what had the focus, and is told what to
//! focus next.

use std::collections::BTreeMap;
use vstd::prelude::*;

verus! {

/// Names a modal among the modals of one window.
pub type ModalId = u64;

/// The overlays of one window. `H` is the front end's handle on what can
/// have the focus, `D` what it draws a drawer with, and `M` what it draws a
/// modal with.
pub struct Root<H, D, M> {
    /// What had the focus before an overlay was opened, until the focus has
    /// been handed back.
    pub previous_focus_handle: Option<H>,
    /// The open drawer, if there is one.
    pub active_drawer: Option<D>,
    /// The open modals. They are drawn in the order of their names.
    pub active_modals: BTreeMap<ModalId, M>,
}

impl<H, D, M> Root<H, D, M> {
    /// A root without overlays.
    pub fn new() -> (root: Self)
        ensures
            root.previous_focus_handle is None,
            root.active_drawer is None,
            root.active_modals@ == Map::<ModalId, M>::empty(),
    {
        Root { previous_focus_handle: None, active_drawer: None, active_modals: BTreeMap::new() }
    }

    /// Opens the drawer that `build` draws, in place of the open drawer if
    /// there is one. `focused` is what has the focus now.
    pub fn open_drawer(&mut self, focused: Option<H>, build: D)
        ensures
            final(self).previous_focus_handle == focused,
            final(self).active_drawer == Some(build),
            final(self).active_modals@ == old(self).active_modals@,
    {
        self.previous_focus_handle = focused;
        self.active_drawer = Some(build);
    }

    /// Whether a drawer is open.
    pub fn has_active_drawer(&self) -> (yes: bool)
        ensures
            yes == (self.active_drawer is Some),
    {
        self.active_drawer.is_some()
    }

    /// Hands back what had the focus before the overlays took it, once.
    pub fn focus_back(&mut self) -> (focus: Option<H>)
        ensures
            focus == old(self).previous_focus_handle,
            final(self).previous_focus_handle is None,
            final(self).active_drawer == old(self).active_drawer,
            final(self).active_modals@ == old(self).active_modals@,
    {
        self.previous_focus_handle.take()
    }

    /// Closes the drawer. Returns what the front end is to focus now.
    pub fn close_drawer(&mut self) -> (focus: Option<H>)
        ensures
            focus == old(self).previous_focus_handle,
            final(self).previous_focus_handle is None,
            final(self).active_drawer is None,
            final(self).active_modals@ == old(self).active_modals@,
    {
        self.active_drawer = None;
        self.focus_back()
    }

    /// Opens the modal `id` that `build` draws, in place of the open modal
    /// of that name if there is one. `focused` is what has the focus now.
    pub fn open_modal(&mut self, focused: Option<H>, id: ModalId, build: M)
        ensures
            final(self).previous_focus_handle == focused,
            final(self).active_drawer == old(self).active_drawer,
            final(self).active_modals@ == old(self).active_modals@.insert(id, build),
    {
        self.previous_focus_handle = focused;
        self.active_modals.remove(&id);
        self.active_modals.insert(id, build);
    }

    /// Whether a modal is open.
    pub fn has_active_modal(&self) -> (yes: bool)
        ensures
            yes == (self.active_modals@.len() > 0),
    {
        self.active_modals.len() > 0
    }

    /// Closes the modal `id`, if it is open. Returns what the front end is
    /// to focus now.
    pub fn close_modal(&mut self, id: ModalId) -> (focus: Option<H>)
        ensures
            focus == old(self).previous_focus_handle,
            final(self).previous_focus_handle is None,
            final(self).active_drawer == old(self).active_drawer,
            final(self).active_modals@ == old(self).active_modals@.remove(id),
    {
        self.active_modals.remove(&id);
        self.focus_back()
    }

    /// Closes every modal. Returns what the front end is to focus now.
    pub fn close_all_modals(&mut self) -> (focus: Option<H>)
        ensures
            focus == old(self).previous_focus_handle,
            final(self).previous_focus_handle is None,
            final(self).active_drawer == old(self).active_drawer,
            final(self).active_modals@ == Map::<ModalId, M>::empty(),
    {
        self.active_modals.clear();
        self.focus_back()
    }
}

} // verus!
