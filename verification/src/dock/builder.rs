//! Rebuilding a live dock tree from a stored layout.
//!
//! [`DockItemState::to_item`] walks a stored layout, asks the registry for
//! the factory of each node, and puts the containers together. It succeeds
//! on the layouts that are [`sound`]; what it returns is fixed by
//! [`DockItem::built_from`] and, where it fails, by [`rebuild_error`]. The
//! laws further down relate a rebuilt tree to the layout it is stored as.

use crate::dock::error::DockError;
use crate::dock::error::DockErrorView;
use crate::dock::item::DockItem;
use crate::dock::item::DockItemLayout;
use crate::dock::layout::copy_sizes;
use crate::dock::layout::DockItemInfo;
use crate::dock::layout::DockItemInfoView;
use crate::dock::layout::DockItemState;
use crate::dock::layout::DockItemStateView;
use crate::dock::panel::PanelAdapter;
use crate::dock::panel::PanelView;
use crate::dock::panel::Placeholder;
use crate::dock::registry::PanelRegistry;
use vstd::prelude::*;

verus! {

impl DockItemLayout {
    /// Whether this is the layout that the stored layout data `info` asks
    /// for in a container of `count` items.
    pub open spec fn fits(self, info: DockItemInfoView, count: nat) -> bool {
        match info {
            DockItemInfoView::Stack { sizes, axis } => {
                &&& sizes.len() == count
                &&& self matches DockItemLayout::Split { axis: live_axis, sizes: live_sizes }
                &&& live_axis == axis
                &&& live_sizes@ == sizes
            },
            DockItemInfoView::Tabs { active_index } => {
                &&& count == 0 || active_index < count
                &&& self matches DockItemLayout::Tabs { active_ix }
                &&& active_ix == active_index
            },
            DockItemInfoView::Custom(_) => false,
        }
    }
}

/// The error, if any, that the layout data `info` of a node with `count`
/// children stops a rebuild with.
pub open spec fn shape_error(info: DockItemInfoView, count: nat) -> Option<DockErrorView> {
    match info {
        DockItemInfoView::Stack { sizes, axis } => {
            if sizes.len() != count {
                Some(DockErrorView::CorruptLayout)
            } else {
                None
            }
        },
        DockItemInfoView::Tabs { active_index } => {
            if count > 0 && active_index >= count {
                Some(DockErrorView::CorruptLayout)
            } else {
                None
            }
        },
        DockItemInfoView::Custom(_) => Some(DockErrorView::UnsupportedLayoutKind),
    }
}

/// The first error in a list of results, if there is one.
pub open spec fn first_error(results: Seq<Option<DockErrorView>>) -> Option<DockErrorView>
    decreases results.len(),
{
    if results.len() == 0 {
        None
    } else if results[0] is Some {
        results[0]
    } else {
        first_error(results.drop_first())
    }
}

/// The error, if any, that rebuilding the stored layout `state` ends with
/// when the panel kinds `names` are registered.
///
/// A node is rebuilt before its children and the children in their order;
/// whether a node's layout data fits its children is judged once all of them
/// are rebuilt. The first failure on that way is the one reported.
pub open spec fn rebuild_error(state: DockItemStateView, names: Set<Seq<char>>) -> Option<
    DockErrorView,
>
    decreases state, 1int,
{
    if !names.contains(state.panel_name) {
        Some(DockErrorView::UnknownPanel { panel_name: state.panel_name })
    } else {
        match first_error(rebuild_errors(state.children, names)) {
            Some(e) => Some(e),
            None => shape_error(state.info, state.children.len()),
        }
    }
}

/// For each of `children`, the error that rebuilding it ends with.
pub open spec fn rebuild_errors(children: Seq<DockItemStateView>, names: Set<Seq<char>>) -> Seq<
    Option<DockErrorView>,
>
    decreases children, 0int,
{
    Seq::new(
        children.len(),
        |i: int|
            if 0 <= i < children.len() {
                rebuild_error(children[i], names)
            } else {
                None
            },
    )
}

/// Whether the stored layout `state` is sound when the panel kinds `names`
/// are registered: every name in it is registered, and the layout data of
/// every node fits the node's children.
pub open spec fn sound(state: DockItemStateView, names: Set<Seq<char>>) -> bool
    decreases state,
{
    &&& names.contains(state.panel_name)
    &&& shape_error(state.info, state.children.len()) is None
    &&& forall|i: int|
        0 <= i < state.children.len() ==> sound(#[trigger] state.children[i], names)
}

/// A stored layout is rebuilt exactly if it is sound.
pub proof fn lemma_rebuilt_iff_sound(state: DockItemStateView, names: Set<Seq<char>>)
    ensures
        rebuild_error(state, names) is None <==> sound(state, names),
    decreases state,
{
    let below = rebuild_errors(state.children, names);
    assert forall|i: int| 0 <= i < state.children.len() implies (below[i] is None <==> sound(
        #[trigger] state.children[i],
        names,
    )) by {
        lemma_rebuilt_iff_sound(state.children[i], names);
    }
    if forall|i: int| 0 <= i < below.len() ==> below[i] is None {
        lemma_first_error(below, below.len() as int);
    } else {
        let i: int = choose|i: int| 0 <= i < below.len() && !(below[i] is None);
        lemma_first_error_found(below, i);
    }
}

/// Where the results before `i` are all good, the first error of the list
/// is the first error from `i` on.
proof fn lemma_first_error(results: Seq<Option<DockErrorView>>, i: int)
    requires
        0 <= i <= results.len(),
        forall|j: int| 0 <= j < i ==> results[j] is None,
    ensures
        i < results.len() && results[i] is Some ==> first_error(results) == results[i],
        i == results.len() ==> first_error(results) is None,
    decreases results.len(),
{
    if results.len() > 0 && i > 0 {
        let rest = results.drop_first();
        assert forall|j: int| 0 <= j < i - 1 implies rest[j] is None by {
            assert(rest[j] == results[j + 1]);
        }
        lemma_first_error(rest, i - 1);
    }
}

impl<P> DockItem<P> {
    /// Whether this live tree is a rebuild of the stored layout `state` with
    /// the factories of `registry` on behalf of `owner`: node for node, the
    /// panel is one that the factory registered under the node's name makes
    /// of the owner and the node's layout data, the items are rebuilds of
    /// the node's children in their order, and the layout is the one that
    /// the node's layout data asks for.
    pub open spec fn built_from<W, C, F: Fn(&W, &DockItemInfo, &mut C) -> P>(
        self,
        state: DockItemState,
        registry: PanelRegistry<F>,
        owner: W,
    ) -> bool
        decreases self,
    {
        &&& registry@.dom().contains(state.panel_name@)
        &&& exists|cx: &mut C| #[trigger]
            call_ensures(registry@[state.panel_name@], (&owner, &state.info, cx), self.panel)
        &&& self.items@.len() == state.children@.len()
        &&& forall|i: int|
            0 <= i < self.items@.len() ==> (#[trigger] self.items@[i]).built_from::<W, C, F>(
                state.children@[i],
                registry,
                owner,
            )
        &&& self.layout.fits(state.info@, state.children@.len())
    }
}

impl<F> PanelRegistry<F> {
    /// Whether every registered factory may be called on behalf of `owner`,
    /// whatever layout data it is given.
    pub open spec fn serves<W, C, P>(self, owner: W) -> bool where
        F: Fn(&W, &DockItemInfo, &mut C) -> P,
     {
        forall|name: Seq<char>, info: DockItemInfo, cx: &mut C|
            self@.dom().contains(name) ==> #[trigger] call_requires(
                self@[name],
                (&owner, &info, cx),
            )
    }
}

impl DockItemState {
    /// Judges this stored layout without making a panel: whether a rebuild
    /// with the factories of `registry` would succeed, and with which
    /// failure it would end if not.
    pub fn check<F>(&self, registry: &PanelRegistry<F>) -> (res: Result<(), DockError>)
        ensures
            res is Ok <==> sound(self@, registry@.dom()),
            res matches Err(e) ==> rebuild_error(self@, registry@.dom()) == Some(e@),
        decreases self,
    {
        proof {
            lemma_rebuilt_iff_sound(self@, registry@.dom());
        }
        match registry.lookup(self.panel_name.as_str()) {
            Ok(_) => {},
            Err(e) => {
                return Err(e);
            },
        }
        let ghost names = registry@.dom();
        let ghost below = rebuild_errors(self@.children, names);
        let mut i: usize = 0;
        while i < self.children.len()
            invariant
                i <= self.children@.len(),
                names == registry@.dom(),
                names.contains(self.panel_name@),
                below == rebuild_errors(self@.children, names),
                forall|j: int| 0 <= j < i ==> below[j] is None,
            decreases self.children@.len() - i,
        {
            match self.children[i].check(registry) {
                Ok(()) => {
                    proof {
                        lemma_rebuilt_iff_sound(self.children@[i as int]@, names);
                    }
                },
                Err(e) => {
                    proof {
                        lemma_first_error(below, i as int);
                    }
                    return Err(e);
                },
            }
            i = i + 1;
        }
        proof {
            lemma_first_error(below, i as int);
        }
        match &self.info {
            DockItemInfo::Stack { sizes, .. } => {
                if sizes.len() != self.children.len() {
                    Err(DockError::CorruptLayout)
                } else {
                    Ok(())
                }
            },
            DockItemInfo::Tabs { active_index } => {
                if self.children.len() > 0 && *active_index >= self.children.len() {
                    Err(DockError::CorruptLayout)
                } else {
                    Ok(())
                }
            },
            DockItemInfo::Custom(_) => Err(DockError::UnsupportedLayoutKind),
        }
    }

    /// Rebuilds the live tree that this stored layout describes, with the
    /// factories of `registry` and on behalf of the container `dock_area`.
    ///
    /// Each node's factory is looked up by the node's name and called with
    /// `dock_area`, the node's layout data and the context `cx`; then the
    /// children are rebuilt in their order, and at last the node's container
    /// is put together. The rebuild succeeds exactly if the layout is sound,
    /// and else ends with the first failure on its way. A layout whose first
    /// node is of an unknown kind is turned down before anything is made:
    /// the context is then as it was.
    pub fn to_item<W, C, P, F: Fn(&W, &DockItemInfo, &mut C) -> P>(
        &self,
        registry: &PanelRegistry<F>,
        dock_area: &W,
        cx: &mut C,
    ) -> (res: Result<DockItem<P>, DockError>)
        requires
            registry.serves::<W, C, P>(*dock_area),
        ensures
            res is Ok <==> sound(self@, registry@.dom()),
            !registry@.dom().contains(self.panel_name@) ==> *final(cx) == *old(cx),
            match res {
                Ok(item) => item.built_from::<W, C, F>(*self, *registry, *dock_area),
                Err(e) => rebuild_error(self@, registry@.dom()) == Some(e@),
            },
        decreases self,
    {
        proof {
            lemma_rebuilt_iff_sound(self@, registry@.dom());
        }
        let factory = match registry.lookup(self.panel_name.as_str()) {
            Ok(factory) => factory,
            Err(e) => {
                return Err(e);
            },
        };
        let panel = factory(dock_area, &self.info, cx);
        let ghost names = registry@.dom();
        let ghost below = rebuild_errors(self@.children, names);
        let mut items: Vec<DockItem<P>> = Vec::new();
        let mut i: usize = 0;
        while i < self.children.len()
            invariant
                i <= self.children@.len(),
                items@.len() == i,
                names == registry@.dom(),
                names.contains(self.panel_name@),
                below == rebuild_errors(self@.children, names),
                registry.serves::<W, C, P>(*dock_area),
                forall|j: int| 0 <= j < i ==> below[j] is None,
                forall|j: int|
                    0 <= j < i ==> (#[trigger] items@[j]).built_from::<W, C, F>(
                        self.children@[j],
                        *registry,
                        *dock_area,
                    ),
            decreases self.children@.len() - i,
        {
            match self.children[i].to_item(registry, dock_area, cx) {
                Ok(item) => {
                    proof {
                        lemma_rebuilt_iff_sound(self.children@[i as int]@, names);
                    }
                    items.push(item);
                },
                Err(e) => {
                    proof {
                        lemma_first_error(below, i as int);
                    }
                    return Err(e);
                },
            }
            i = i + 1;
        }
        proof {
            lemma_first_error(below, i as int);
        }
        match &self.info {
            DockItemInfo::Stack { sizes, axis } => {
                if sizes.len() != self.children.len() {
                    Err(DockError::CorruptLayout)
                } else {
                    Ok(DockItem::split_with_sizes(panel, *axis, items, copy_sizes(sizes)))
                }
            },
            DockItemInfo::Tabs { active_index } => {
                if self.children.len() > 0 && *active_index >= self.children.len() {
                    Err(DockError::CorruptLayout)
                } else {
                    Ok(DockItem::tabs(panel, items, Some(*active_index)))
                }
            },
            DockItemInfo::Custom(_) => Err(DockError::UnsupportedLayoutKind),
        }
    }
}

impl<F> PanelRegistry<F> {
    /// Whether every panel that a registered factory makes on behalf of
    /// `owner` reflects what it was made from: whatever such a panel dumps,
    /// in whatever context, is the node without children that carries the
    /// name the factory is registered under and the layout data the factory
    /// was given.
    pub open spec fn reflects<W, C, P: PanelView<C>>(self, owner: W) -> bool where
        F: Fn(&W, &DockItemInfo, &mut C) -> P,
     {
        forall|
            name: Seq<char>,
            info: DockItemInfo,
            made_in: &mut C,
            panel: P,
            cx: C,
            fragment: DockItemState,
        |
            self@.dom().contains(name) && #[trigger] call_ensures(
                self@[name],
                (&owner, &info, made_in),
                panel,
            ) && #[trigger] call_ensures(P::dump, (&panel, &cx), fragment) ==> fragment@
                == DockItemStateView::leaf(name, info@)
    }
}

/// Storing a rebuilt tree gives back the layout it was rebuilt from.
///
/// Let `item` be a rebuild of the stored layout `state` with the factories
/// of `registry`, and let every panel of those factories reflect what it was
/// made from. Then every stored description of `item` is `state`: the same
/// names, the same children in the same order, the same layout data.
pub proof fn lemma_dump_of_rebuilt<W, C, P: PanelView<C>, F: Fn(&W, &DockItemInfo, &mut C) -> P>(
    item: DockItem<P>,
    state: DockItemState,
    registry: PanelRegistry<F>,
    owner: W,
    cx: C,
    dumped: DockItemStateView,
)
    requires
        item.built_from::<W, C, F>(state, registry, owner),
        registry.reflects::<W, C, P>(owner),
        item.dumps_to(cx, dumped),
    ensures
        dumped == state@,
    decreases item,
{
    let own: int = dumped.children.len() - item.items@.len();
    let fragment = choose|fragment: DockItemState| #[trigger]
        call_ensures(P::dump, (&item.panel, &cx), fragment) && fragment@ == (DockItemStateView {
            children: dumped.children.take(own),
            ..dumped
        });
    let made_in = choose|made_in: &mut C| #[trigger]
        call_ensures(registry@[state.panel_name@], (&owner, &state.info, made_in), item.panel);
    assert(call_ensures(
        registry@[state.panel_name@],
        (&owner, &state.info, made_in),
        item.panel,
    ));
    assert(dumped.children.take(own).len() == 0);
    assert forall|i: int| 0 <= i < dumped.children.len() implies dumped.children[i]
        == state@.children[i] by {
        lemma_dump_of_rebuilt::<W, C, P, F>(
            item.items@[i],
            state.children@[i],
            registry,
            owner,
            cx,
            dumped.children[i],
        );
    }
    assert(dumped.children =~= state@.children);
}

/// A registry of placeholders reflects what its panels are made from.
///
/// Let every registered factory make a placeholder, behind an adapter, for
/// the name it is registered under and with the layout data it is given.
/// Then every panel of the registry reflects what it was made from.
pub proof fn lemma_placeholders_reflect<W, C, F: Fn(&W, &DockItemInfo, &mut C) -> PanelAdapter<
    Placeholder,
>>(registry: PanelRegistry<F>, owner: W)
    requires
        forall|name: Seq<char>, info: DockItemInfo, made_in: &mut C, panel: PanelAdapter<Placeholder>|
            registry@.dom().contains(name) && #[trigger] call_ensures(
                registry@[name],
                (&owner, &info, made_in),
                panel,
            ) ==> panel.panel.spec_name() == name && panel.panel.spec_info() == info@,
    ensures
        registry.reflects::<W, C, PanelAdapter<Placeholder>>(owner),
{
}

/// A layout whose first node names a panel kind that is not registered is
/// turned down with that name, whatever else it holds; and a node with
/// layout data of a kind of the caller's own is never rebuilt.
pub proof fn lemma_unknown_or_unsupported(state: DockItemStateView, names: Set<Seq<char>>)
    ensures
        !names.contains(state.panel_name) ==> rebuild_error(state, names) == Some(
            DockErrorView::UnknownPanel { panel_name: state.panel_name },
        ),
        state.info is Custom ==> rebuild_error(state, names) is Some,
{
}

/// A stack is rebuilt exactly if it has one size for each child.
///
/// A stack with another number of sizes than children is never rebuilt.
/// Where the stack's name is registered and its children are rebuilt, the
/// failure is [`DockError::CorruptLayout`], and a stack with one size for
/// each child is rebuilt.
pub proof fn lemma_stack_rebuild(state: DockItemStateView, names: Set<Seq<char>>)
    requires
        state.info is Stack,
    ensures
        state.info->sizes.len() != state.children.len() ==> rebuild_error(state, names) is Some,
        names.contains(state.panel_name) && (forall|i: int|
            0 <= i < state.children.len() ==> rebuild_error(#[trigger] state.children[i], names)
                is None) ==> rebuild_error(state, names) == (if state.info->sizes.len()
            != state.children.len() {
            Some(DockErrorView::CorruptLayout)
        } else {
            None
        }),
{
    let below = rebuild_errors(state.children, names);
    if forall|i: int|
        0 <= i < state.children.len() ==> rebuild_error(#[trigger] state.children[i], names)
            is None {
        lemma_first_error(below, below.len() as int);
    }
}

/// A rebuilt stack lays its items out along the stored axis and gives item
/// `i` the stored size `i`.
pub proof fn lemma_stack_layout<W, C, P, F: Fn(&W, &DockItemInfo, &mut C) -> P>(
    item: DockItem<P>,
    state: DockItemState,
    registry: PanelRegistry<F>,
    owner: W,
)
    requires
        item.built_from::<W, C, F>(state, registry, owner),
        state.info is Stack,
    ensures
        item.layout matches DockItemLayout::Split { axis, sizes } && axis == state.info->axis
            && sizes@ == state.info->sizes@ && sizes@.len() == item.items@.len(),
{
}

/// Tabs with children are rebuilt exactly if the active index points at one
/// of them.
///
/// Tabs with children whose active index points past the last child are
/// never rebuilt. Where the name of the tabs is registered and the children
/// are rebuilt, the failure is [`DockError::CorruptLayout`], and tabs whose
/// active index points at a child are rebuilt.
pub proof fn lemma_tabs_rebuild(state: DockItemStateView, names: Set<Seq<char>>)
    requires
        state.info is Tabs,
        state.children.len() > 0,
    ensures
        state.info->active_index >= state.children.len() ==> rebuild_error(state, names) is Some,
        names.contains(state.panel_name) && (forall|i: int|
            0 <= i < state.children.len() ==> rebuild_error(#[trigger] state.children[i], names)
                is None) ==> rebuild_error(state, names) == (if state.info->active_index
            >= state.children.len() {
            Some(DockErrorView::CorruptLayout)
        } else {
            None
        }),
{
    let below = rebuild_errors(state.children, names);
    if forall|i: int|
        0 <= i < state.children.len() ==> rebuild_error(#[trigger] state.children[i], names)
            is None {
        lemma_first_error(below, below.len() as int);
    }
}

/// Rebuilt tabs show the stored active index at first.
pub proof fn lemma_tabs_layout<W, C, P, F: Fn(&W, &DockItemInfo, &mut C) -> P>(
    item: DockItem<P>,
    state: DockItemState,
    registry: PanelRegistry<F>,
    owner: W,
)
    requires
        item.built_from::<W, C, F>(state, registry, owner),
        state.info is Tabs,
    ensures
        item.layout matches DockItemLayout::Tabs { active_ix } && active_ix
            == state.info->active_index,
        item.items@.len() > 0 ==> state.info->active_index < item.items@.len(),
{
}

/// The layout data `info` of a node with `count` children, with the active
/// index of tabs set to the first tab where it points past the last one.
pub open spec fn clamped_info(info: DockItemInfoView, count: nat) -> DockItemInfoView {
    match info {
        DockItemInfoView::Tabs { active_index } => if count > 0 && active_index >= count {
            DockItemInfoView::Tabs { active_index: 0 }
        } else {
            info
        },
        _ => info,
    }
}

/// The stored layout `state` with every active index that points past the
/// last tab set to the first tab.
pub open spec fn clamped_tree(state: DockItemStateView) -> DockItemStateView
    decreases state,
{
    DockItemStateView {
        panel_name: state.panel_name,
        children: Seq::new(
            state.children.len(),
            |i: int|
                if 0 <= i < state.children.len() {
                    clamped_tree(state.children[i])
                } else {
                    arbitrary()
                },
        ),
        info: clamped_info(state.info, state.children.len()),
    }
}

impl DockItemState {
    /// A copy of this stored layout in which every active index that points
    /// past the last tab is set to the first tab. A caller who would rather
    /// show the first tab than turn such a layout down rebuilds the copy.
    pub fn clamped(&self) -> (res: DockItemState)
        ensures
            res@ == clamped_tree(self@),
        decreases self,
    {
        let mut children: Vec<DockItemState> = Vec::new();
        let mut i: usize = 0;
        while i < self.children.len()
            invariant
                i <= self.children@.len(),
                children@.len() == i,
                forall|k: int| 0 <= k < i ==> children@[k]@ == clamped_tree(self.children@[k]@),
            decreases self.children@.len() - i,
        {
            let child = self.children[i].clamped();
            children.push(child);
            i = i + 1;
        }
        let info = match &self.info {
            DockItemInfo::Tabs { active_index } => {
                if self.children.len() > 0 && *active_index >= self.children.len() {
                    DockItemInfo::Tabs { active_index: 0 }
                } else {
                    DockItemInfo::Tabs { active_index: *active_index }
                }
            },
            other => other.clone(),
        };
        let res = DockItemState { panel_name: self.panel_name.clone(), children, info };
        assert(res@.children =~= clamped_tree(self@).children);
        res
    }
}

/// Clamping leaves a layout that can be rebuilt as it is, and a clamped
/// layout is never turned down for the active index of its tabs.
pub proof fn lemma_clamped(state: DockItemStateView, names: Set<Seq<char>>)
    ensures
        rebuild_error(state, names) is None ==> clamped_tree(state) == state,
        clamped_tree(state).info is Tabs ==> shape_error(
            clamped_tree(state).info,
            clamped_tree(state).children.len(),
        ) is None,
    decreases state,
{
    if rebuild_error(state, names) is None {
        let below = rebuild_errors(state.children, names);
        assert forall|i: int| 0 <= i < state.children.len() implies clamped_tree(
            state.children[i],
        ) == state.children[i] by {
            if below[i] is Some {
                lemma_first_error_found(below, i);
            }
            lemma_clamped(state.children[i], names);
        }
        assert(clamped_tree(state).children =~= state.children);
    }
}

/// A list of results with an error in it has a first error.
proof fn lemma_first_error_found(results: Seq<Option<DockErrorView>>, i: int)
    requires
        0 <= i < results.len(),
        results[i] is Some,
    ensures
        first_error(results) is Some,
    decreases results.len(),
{
    if results[0] is None {
        lemma_first_error_found(results.drop_first(), i - 1);
    }
}

} // verus!
