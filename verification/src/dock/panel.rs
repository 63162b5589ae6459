//! What a panel must be able to do to take part in a dock.
//!
//! A concrete panel type implements [`Panel`]. The dock itself deals with
//! panels through [`PanelView`] only, so that panels of unrelated types can
//! be children of one container. [`PanelAdapter`] carries every `Panel` over
//! to `PanelView`, and a boxed `PanelView` is a `PanelView` again: the boxed
//! trait object is the handle under which a dock holds a panel whose type it
//! does not know.

use crate::dock::layout::DockItemInfo;
use crate::dock::layout::DockItemInfoView;
use crate::dock::layout::DockItemState;
use crate::dock::layout::DockItemStateView;
use crate::popup_menu::PopupMenu;
use vstd::prelude::*;

verus! {

/// What a panel tells its dock about.
#[derive(Clone, Copy, Debug, PartialEq, Eq, Hash, Structural)]
pub enum PanelEvent {
    ZoomIn,
    ZoomOut,
    LayoutChanged,
}

/// A colour by hue, saturation, lightness and opacity. Each channel is kept
/// as the bit pattern of its single-precision value; the library carries
/// colours and never computes with them.
#[derive(Clone, Copy, Debug, PartialEq, Eq, Hash)]
pub struct Hsla {
    pub h: u32,
    pub s: u32,
    pub l: u32,
    pub a: u32,
}

/// The colours of a panel's title.
#[derive(Clone, Copy, Debug, PartialEq, Eq, Hash)]
pub struct TitleStyle {
    pub background: Hsla,
    pub foreground: Hsla,
}

/// The title of a panel.
#[derive(Debug, PartialEq, Eq)]
pub enum PanelTitle {
    /// The panel has no title of its own. The front end shows its generic
    /// label for such a panel, in the reader's language.
    Unnamed,
    /// The panel's own title.
    Text(String),
}

/// A concrete kind of panel.
///
/// Every method but `panel_name` and `dump` has a default.
pub trait Panel<C> {
    /// The name of the panel kind. A stored layout is rebuilt by it, so it
    /// must never change once layouts with the panel have been stored.
    fn panel_name(&self) -> &'static str;

    /// The panel's title. Without an override the panel is unnamed.
    fn title(&self, cx: &C) -> (title: PanelTitle)
        default_ensures
            title == PanelTitle::Unnamed,
    {
        PanelTitle::Unnamed
    }

    /// The colours of the panel's title. Without an override the title
    /// follows the theme.
    fn title_style(&self, cx: &C) -> (style: Option<TitleStyle>)
        default_ensures
            style is None,
    {
        None
    }

    /// Whether the panel can be closed. Without an override it can.
    fn closeable(&self, cx: &C) -> (yes: bool)
        default_ensures
            yes,
    {
        true
    }

    /// Lets the panel add entries to its contextual menu. Without an
    /// override the menu comes back as it is.
    fn popup_menu(&self, this: PopupMenu, cx: &C) -> (menu: PopupMenu)
        default_ensures
            menu == this,
    {
        this
    }

    /// The stored description of the panel: a node with the panel's name and
    /// layout data, and without children. The container that holds the panel
    /// adds the children.
    fn dump(&self, cx: &C) -> DockItemState;
}

/// A panel as its dock sees it.
pub trait PanelView<C> {
    /// The panel's title.
    fn title(&self, cx: &C) -> PanelTitle;

    /// The colours of the panel's title, if it has its own.
    fn title_style(&self, cx: &C) -> Option<TitleStyle>;

    /// Whether the panel can be closed.
    fn closeable(&self, cx: &C) -> bool;

    /// Lets the panel add entries to its contextual menu.
    fn popup_menu(&self, menu: PopupMenu, cx: &C) -> PopupMenu;

    /// The stored description of the panel, without children.
    fn dump(&self, cx: &C) -> DockItemState;
}

/// Carries a concrete panel over to [`PanelView`]: each method hands the
/// call on to the panel and returns what the panel returned.
pub struct PanelAdapter<T> {
    pub panel: T,
}

impl<C, T: Panel<C>> PanelView<C> for PanelAdapter<T> {
    fn title(&self, cx: &C) -> (title: PanelTitle)
        ensures
            call_ensures(T::title, (&self.panel, cx), title),
    {
        self.panel.title(cx)
    }

    fn title_style(&self, cx: &C) -> (style: Option<TitleStyle>)
        ensures
            call_ensures(T::title_style, (&self.panel, cx), style),
    {
        self.panel.title_style(cx)
    }

    fn closeable(&self, cx: &C) -> (yes: bool)
        ensures
            call_ensures(T::closeable, (&self.panel, cx), yes),
    {
        self.panel.closeable(cx)
    }

    fn popup_menu(&self, menu: PopupMenu, cx: &C) -> (out: PopupMenu)
        ensures
            call_ensures(T::popup_menu, (&self.panel, menu, cx), out),
    {
        self.panel.popup_menu(menu, cx)
    }

    fn dump(&self, cx: &C) -> (state: DockItemState)
        ensures
            call_ensures(T::dump, (&self.panel, cx), state),
    {
        self.panel.dump(cx)
    }
}

impl<C, T: PanelView<C> + ?Sized> PanelView<C> for Box<T> {
    fn title(&self, cx: &C) -> (title: PanelTitle)
        ensures
            call_ensures(T::title, (&**self, cx), title),
    {
        (**self).title(cx)
    }

    fn title_style(&self, cx: &C) -> (style: Option<TitleStyle>)
        ensures
            call_ensures(T::title_style, (&**self, cx), style),
    {
        (**self).title_style(cx)
    }

    fn closeable(&self, cx: &C) -> (yes: bool)
        ensures
            call_ensures(T::closeable, (&**self, cx), yes),
    {
        (**self).closeable(cx)
    }

    fn popup_menu(&self, menu: PopupMenu, cx: &C) -> (out: PopupMenu)
        ensures
            call_ensures(T::popup_menu, (&**self, menu, cx), out),
    {
        (**self).popup_menu(menu, cx)
    }

    fn dump(&self, cx: &C) -> (state: DockItemState)
        ensures
            call_ensures(T::dump, (&**self, cx), state),
    {
        (**self).dump(cx)
    }
}

/// A panel without content of its own. It holds the place of a panel kind
/// in a layout and keeps the layout data it was made with, so that storing
/// the layout again loses nothing.
pub struct Placeholder {
    name: &'static str,
    info: DockItemInfo,
}

impl Placeholder {
    /// The name of the panel kind whose place this panel holds.
    pub open spec fn spec_name(&self) -> Seq<char> {
        self.spec_panel_name()@
    }

    /// The layout data the panel was made with.
    pub closed spec fn spec_info(&self) -> DockItemInfoView {
        self.info@
    }

    /// A placeholder for the panel kind `name` with the layout data `info`.
    pub fn new(name: &'static str, info: DockItemInfo) -> (panel: Self)
        ensures
            panel.spec_panel_name() == name,
            panel.spec_info() == info@,
    {
        Placeholder { name, info }
    }

    /// The name of the panel kind whose place this panel holds.
    pub fn name(&self) -> (name: &'static str)
        ensures
            name == self.spec_panel_name(),
    {
        self.name
    }
}

impl<C> Panel<C> for Placeholder {
    fn panel_name(&self) -> (name: &'static str)
        returns
            self.spec_panel_name(),
    {
        self.name()
    }

    fn dump(&self, cx: &C) -> (state: DockItemState)
        ensures
            state@ == DockItemStateView::leaf(self.spec_name(), self.spec_info()),
    {
        let state = DockItemState {
            panel_name: self.name.to_owned(),
            children: Vec::new(),
            info: self.info.clone(),
        };
        assert(state@.children =~= Seq::empty());
        state
    }
}

impl Placeholder {
    /// The text that names the panel kind whose place this panel holds: the
    /// name that the placeholder was made with.
    pub closed spec fn spec_panel_name(&self) -> &'static str {
        self.name
    }
}

/// A placeholder behind an adapter shows what a panel shows that overrides
/// nothing: no title and no colours of its own, it can be closed, and it
/// leaves its menu as it is.
pub proof fn lemma_placeholder_defaults<C>(
    view: PanelAdapter<Placeholder>,
    cx: C,
    title: PanelTitle,
    style: Option<TitleStyle>,
    yes: bool,
    menu: PopupMenu,
    out: PopupMenu,
)
    ensures
        call_ensures(PanelAdapter::<Placeholder>::title, (&view, &cx), title) ==> title
            == PanelTitle::Unnamed,
        call_ensures(PanelAdapter::<Placeholder>::title_style, (&view, &cx), style)
            ==> style is None,
        call_ensures(PanelAdapter::<Placeholder>::closeable, (&view, &cx), yes) ==> yes,
        call_ensures(PanelAdapter::<Placeholder>::popup_menu, (&view, menu, &cx), out) ==> out
            == menu,
{
}

} // verus!
