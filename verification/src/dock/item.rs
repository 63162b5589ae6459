//! Live dock trees, and how one is stored.

use crate::dock::layout::Axis;
use crate::dock::layout::DockItemState;
use crate::dock::layout::DockItemStateView;
use crate::dock::layout::Pixels;
use crate::dock::panel::PanelView;
use vstd::prelude::*;

verus! {

/// How a live container lays out its items.
#[derive(Debug, PartialEq, Eq)]
pub enum DockItemLayout {
    /// The items share the container's space along `axis`; item `i` starts
    /// with the extent `sizes[i]`, or with an extent of the container's
    /// choice where that is `None`.
    Split { axis: Axis, sizes: Vec<Option<Pixels>> },
    /// The items are tabs, of which `active_ix` is shown at first.
    Tabs { active_ix: usize },
}

/// A node of a live dock tree: a panel, the containers below it, and how
/// those are laid out. `P` is the handle under which the tree holds its
/// panels.
#[derive(Debug)]
pub struct DockItem<P> {
    /// The panel of this node.
    pub panel: P,
    /// The nodes below this one, in layout order.
    pub items: Vec<DockItem<P>>,
    /// How the items are laid out.
    pub layout: DockItemLayout,
}

impl<P> DockItem<P> {
    /// A container whose items share its space along `axis`, item `i`
    /// starting with the extent `sizes[i]`.
    pub fn split_with_sizes(
        panel: P,
        axis: Axis,
        items: Vec<DockItem<P>>,
        sizes: Vec<Option<Pixels>>,
    ) -> (item: Self)
        ensures
            item.panel == panel,
            item.items == items,
            item.layout == (DockItemLayout::Split { axis, sizes }),
    {
        DockItem { panel, items, layout: DockItemLayout::Split { axis, sizes } }
    }

    /// A container whose items are tabs. The tab `active_ix` is shown at
    /// first, or the first tab where none is given.
    pub fn tabs(panel: P, items: Vec<DockItem<P>>, active_ix: Option<usize>) -> (item: Self)
        ensures
            item.panel == panel,
            item.items == items,
            item.layout == (DockItemLayout::Tabs {
                active_ix: match active_ix {
                    Some(ix) => ix,
                    None => 0,
                },
            }),
    {
        let active_ix: usize = match active_ix {
            Some(ix) => ix,
            None => 0,
        };
        DockItem { panel, items, layout: DockItemLayout::Tabs { active_ix } }
    }

    /// Whether `state` is a stored description of this live tree in the
    /// context `cx`: `state` without its last children, as many as the tree
    /// has items, is a node that the panel dumps, and those last children
    /// are stored descriptions of the items, in their order.
    pub open spec fn dumps_to<C>(self, cx: C, state: DockItemStateView) -> bool where
        P: PanelView<C>,

        decreases self,
    {
        let own: int = state.children.len() - self.items@.len();
        &&& own >= 0
        &&& exists|fragment: DockItemState| #[trigger]
            call_ensures(P::dump, (&self.panel, &cx), fragment) && fragment@ == (
            DockItemStateView { children: state.children.take(own), ..state })
        &&& forall|i: int|
            0 <= i < self.items@.len() ==> (#[trigger] self.items@[i]).dumps_to(
                cx,
                state.children[own + i],
            )
    }

    /// The stored description of this live tree: what the panel dumps, with
    /// the stored descriptions of the items added as children, in their
    /// order.
    pub fn dump<C>(&self, cx: &C) -> (state: DockItemState) where P: PanelView<C>
        ensures
            self.dumps_to(*cx, state@),
        decreases self,
    {
        let mut state = self.panel.dump(cx);
        let ghost fragment = state;
        let ghost own = fragment@.children.len() as int;
        let mut i: usize = 0;
        while i < self.items.len()
            invariant
                i <= self.items@.len(),
                own == fragment@.children.len(),
                state@.panel_name == fragment@.panel_name,
                state@.info == fragment@.info,
                state@.children.len() == own + i,
                state@.children.take(own) == fragment@.children,
                forall|j: int|
                    0 <= j < i ==> (#[trigger] self.items@[j]).dumps_to(
                        *cx,
                        state@.children[own + j],
                    ),
            decreases self.items@.len() - i,
        {
            let child = self.items[i].dump(cx);
            let ghost before = state@;
            state.add_child(child);
            proof {
                assert forall|j: int| 0 <= j < i + 1 implies (#[trigger] self.items@[j]).dumps_to(
                    *cx,
                    state@.children[own + j],
                ) by {
                    if j < i {
                        assert(state@.children[own + j] == before.children[own + j]);
                    }
                }
            }
            i = i + 1;
        }
        proof {
            assert(fragment@ == (DockItemStateView {
                children: state@.children.take(own),
                ..state@
            }));
        }
        state
    }
}

} // verus!
