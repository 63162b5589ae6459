//! Headless core of a dockable-panel user interface kit.
//!
//! The crate keeps the decisions of the kit apart from any window system:
//! how a dock layout is described, stored and rebuilt into live panels, how
//! a contextual menu tracks its entries and its selection, which overlays
//! lie over a window, where a popover hangs, and what a picker lists. Every
//! function here is verified against its contract.

pub mod dock;
pub mod picker;
pub mod popover;
pub mod popup_menu;
pub mod root;
