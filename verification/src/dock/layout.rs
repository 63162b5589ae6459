//! The stored description of a dock layout.
//!
//! A layout is a tree of [`DockItemState`] nodes. Each node names the kind of
//! panel that sits there, lists its children in order, and says through its
//! [`DockItemInfo`] how the children are laid out. Nothing here checks that a
//! node's layout data fits its children: a description is plain data, and its
//! shape is judged when a live tree is built from it.

use itertools::Itertools;
use vstd::prelude::*;

verus! {

/// A length in logical pixels.
///
/// The library never computes with lengths; it only carries them from a
/// description to a live container and back. The length is therefore kept as
/// the bit pattern of its single-precision value, which a front end turns
/// into its own unit without loss. Two lengths are equal if their bit
/// patterns are.
#[derive(Clone, Copy, Debug, PartialEq, Eq, Hash)]
pub struct Pixels {
    pub bits: u32,
}

/// The direction along which a stack lays out its children.
#[derive(Clone, Copy, Debug, PartialEq, Eq, Hash, Structural)]
pub enum Axis {
    Horizontal,
    Vertical,
}

impl Axis {
    /// The number under which the axis is stored: 0 for horizontal, 1 for
    /// vertical.
    pub open spec fn spec_index(self) -> nat {
        match self {
            Axis::Horizontal => 0,
            Axis::Vertical => 1,
        }
    }

    /// The axis that a stored number stands for. Zero is horizontal; every
    /// other number is read as vertical.
    pub open spec fn spec_from_index(index: nat) -> Axis {
        if index == 0 {
            Axis::Horizontal
        } else {
            Axis::Vertical
        }
    }

    /// The number under which the axis is stored.
    pub fn index(self) -> (index: usize)
        ensures
            index == self.spec_index(),
    {
        match self {
            Axis::Horizontal => 0,
            Axis::Vertical => 1,
        }
    }

    /// Reads an axis back from its stored number.
    pub fn from_index(index: usize) -> (axis: Axis)
        ensures
            axis == Axis::spec_from_index(index as nat),
    {
        if index == 0 {
            Axis::Horizontal
        } else {
            Axis::Vertical
        }
    }

    /// Storing an axis and reading it back gives the same axis.
    pub proof fn lemma_index_round_trip(axis: Axis)
        ensures
            Axis::spec_from_index(axis.spec_index()) == axis,
    {
    }
}

/// Trusted: `serde_json::Value`, a JSON document. The library carries such
/// a document in a node with layout data of the caller's own kind and never
/// looks into it, so nothing is claimed of what it holds.
#[verifier::external_type_specification]
#[verifier::external_body]
pub struct ExJsonValue(serde_json::Value);

/// Trusted: `Clone` is derived for `serde_json::Value`, so a clone holds the
/// same JSON document as the value it was made from.
pub assume_specification[ <serde_json::Value as Clone>::clone ](
    value: &serde_json::Value,
) -> (res: serde_json::Value)
    ensures
        res == *value,
;

/// How a node lays out its children.
#[derive(Debug, PartialEq)]
pub enum DockItemInfo {
    /// The children share the node's space along `axis`. `sizes[i]` is the
    /// extent of child `i`; `None` leaves the extent of that child to the
    /// container.
    Stack { sizes: Vec<Option<Pixels>>, axis: Axis },
    /// The children are tabs, of which `active_index` is shown.
    Tabs { active_index: usize },
    /// Data of a container kind that this library does not model.
    Custom(serde_json::Value),
}

/// The mathematical value of a [`DockItemInfo`].
pub ghost enum DockItemInfoView {
    Stack { sizes: Seq<Option<Pixels>>, axis: Axis },
    Tabs { active_index: nat },
    Custom(serde_json::Value),
}

impl View for DockItemInfo {
    type V = DockItemInfoView;

    open spec fn view(&self) -> DockItemInfoView {
        match *self {
            DockItemInfo::Stack { sizes, axis } => DockItemInfoView::Stack { sizes: sizes@, axis },
            DockItemInfo::Tabs { active_index } => DockItemInfoView::Tabs {
                active_index: active_index as nat,
            },
            DockItemInfo::Custom(value) => DockItemInfoView::Custom(value),
        }
    }
}

/// Collects given extents into the optional extents of a stack.
///
/// Trusted: the body hands the extents, each wrapped in `Some`, to
/// `Itertools::collect_vec`, which collects an iterator into a `Vec` and
/// keeps the order of the items. The contract claims exactly that: the
/// result has one entry per extent, in the same order, each of them `Some`.
#[verifier::external_body]
fn collect_definite(sizes: Vec<Pixels>) -> (out: Vec<Option<Pixels>>)
    ensures
        out@ == sizes@.map_values(|size: Pixels| Some(size)),
{
    sizes.into_iter().map(|size| Some(size)).collect_vec()
}

/// A copy of the extents of a stack.
pub(crate) fn copy_sizes(sizes: &Vec<Option<Pixels>>) -> (copy: Vec<Option<Pixels>>)
    ensures
        copy@ == sizes@,
{
    let mut copy: Vec<Option<Pixels>> = Vec::new();
    let mut i: usize = 0;
    while i < sizes.len()
        invariant
            i <= sizes@.len(),
            copy@ == sizes@.take(i as int),
        decreases sizes@.len() - i,
    {
        copy.push(sizes[i]);
        i = i + 1;
    }
    copy
}

impl Clone for DockItemInfo {
    /// A copy with the same layout data.
    fn clone(&self) -> (res: Self)
        ensures
            res@ == self@,
    {
        match self {
            DockItemInfo::Stack { sizes, axis } => DockItemInfo::Stack {
                sizes: copy_sizes(sizes),
                axis: *axis,
            },
            DockItemInfo::Tabs { active_index } => DockItemInfo::Tabs {
                active_index: *active_index,
            },
            DockItemInfo::Custom(value) => DockItemInfo::Custom(value.clone()),
        }
    }
}

impl DockItemInfo {
    /// A stack along `axis` in which child `i` gets the extent `sizes[i]`.
    pub fn stack(sizes: Vec<Pixels>, axis: Axis) -> (info: Self)
        ensures
            info@ == (DockItemInfoView::Stack {
                sizes: sizes@.map_values(|size: Pixels| Some(size)),
                axis,
            }),
    {
        DockItemInfo::Stack { sizes: collect_definite(sizes), axis }
    }

    /// Tabs of which `active_index` is shown.
    pub fn tabs(active_index: usize) -> (info: Self)
        ensures
            info@ == (DockItemInfoView::Tabs { active_index: active_index as nat }),
    {
        DockItemInfo::Tabs { active_index }
    }

    /// Data of a container kind of the caller's own.
    pub fn custom(value: serde_json::Value) -> (info: Self)
        ensures
            info@ == DockItemInfoView::Custom(value),
    {
        DockItemInfo::Custom(value)
    }
}

/// One node of a stored layout.
#[derive(Debug, PartialEq)]
pub struct DockItemState {
    /// Names the kind of panel at this node. The name is what a stored layout
    /// is rebuilt by, so a panel keeps it for good.
    pub panel_name: String,
    /// The nodes below this one, in layout order.
    pub children: Vec<DockItemState>,
    /// How the children are laid out.
    pub info: DockItemInfo,
}

/// The mathematical value of a [`DockItemState`]: the whole subtree.
pub ghost struct DockItemStateView {
    pub panel_name: Seq<char>,
    pub children: Seq<DockItemStateView>,
    pub info: DockItemInfoView,
}

impl DockItemStateView {
    /// A node without children.
    pub open spec fn leaf(panel_name: Seq<char>, info: DockItemInfoView) -> DockItemStateView {
        DockItemStateView { panel_name, children: Seq::empty(), info }
    }
}

impl DockItemState {
    /// The subtree below and including this node, as a mathematical value.
    pub open spec fn tree(self) -> DockItemStateView
        decreases self,
    {
        DockItemStateView {
            panel_name: self.panel_name@,
            children: Seq::new(
                self.children@.len(),
                |i: int|
                    if 0 <= i < self.children@.len() {
                        self.children@[i].tree()
                    } else {
                        arbitrary()
                    },
            ),
            info: self.info@,
        }
    }
}

impl View for DockItemState {
    type V = DockItemStateView;

    open spec fn view(&self) -> DockItemStateView {
        self.tree()
    }
}

impl Clone for DockItemState {
    /// A copy of the whole subtree.
    fn clone(&self) -> (res: Self)
        ensures
            res@ == self@,
        decreases self,
    {
        let mut children: Vec<DockItemState> = Vec::new();
        let mut i: usize = 0;
        while i < self.children.len()
            invariant
                i <= self.children@.len(),
                children@.len() == i,
                forall|k: int| 0 <= k < i ==> children@[k]@ == self.children@[k]@,
            decreases self.children@.len() - i,
        {
            let child = self.children[i].clone();
            children.push(child);
            i = i + 1;
        }
        let res = DockItemState {
            panel_name: self.panel_name.clone(),
            children,
            info: self.info.clone(),
        };
        assert(res@.children =~= self@.children);
        res
    }
}

impl DockItemState {
    /// A node for the panel kind `panel_name`, without children and with the
    /// layout of a fresh node: tabs, the first of them shown.
    pub fn new(panel_name: &str) -> (state: Self)
        ensures
            state@ == DockItemStateView::leaf(
                panel_name@,
                DockItemInfoView::Tabs { active_index: 0 },
            ),
    {
        let state = DockItemState {
            panel_name: panel_name.to_owned(),
            children: Vec::new(),
            info: DockItemInfo::Tabs { active_index: 0 },
        };
        assert(state@.children =~= Seq::empty());
        state
    }

    /// Appends `panel` as the last child. The node's layout data is left as
    /// it is, whether or not it still fits the children.
    pub fn add_child(&mut self, panel: DockItemState)
        ensures
            final(self)@ == (DockItemStateView {
                children: old(self)@.children.push(panel@),
                ..old(self)@
            }),
    {
        self.children.push(panel);
        assert(self@.children =~= old(self)@.children.push(panel@));
    }
}

} // verus!
