//! The registry of panel factories.
//!
//! A stored layout names the kind of each panel. The registry maps such a
//! name to the factory that makes a panel of that kind, so that the code
//! which rebuilds a layout never learns the concrete panel types. A registry
//! is an ordinary value: it is filled while the program starts and handed to
//! whoever rebuilds a layout.

use crate::dock::error::DockError;
use crate::dock::error::DockErrorView;
use vstd::prelude::*;

verus! {

/// One registration: a panel kind's name and the factory for it.
pub struct Registration<F> {
    name: String,
    factory: F,
}

/// The map that a list of registrations describes. A name that occurs again
/// later in the list does not replace the earlier registration.
pub closed spec fn registered<F>(items: Seq<Registration<F>>) -> Map<Seq<char>, F>
    decreases items.len(),
{
    if items.len() == 0 {
        Map::empty()
    } else {
        let earlier = registered(items.drop_last());
        let last = items.last();
        if earlier.dom().contains(last.name@) {
            earlier
        } else {
            earlier.insert(last.name@, last.factory)
        }
    }
}

/// A name is registered exactly if some registration carries it, and it then
/// maps to the factory of the first registration that does.
proof fn lemma_registered<F>(items: Seq<Registration<F>>, name: Seq<char>)
    ensures
        registered(items).dom().contains(name) <==> exists|i: int|
            0 <= i < items.len() && (#[trigger] items[i]).name@ == name,
        forall|i: int|
            0 <= i < items.len() && (#[trigger] items[i]).name@ == name
                && (forall|j: int| 0 <= j < i ==> (#[trigger] items[j]).name@ != name)
                ==> registered(items)[name] == items[i].factory,
    decreases items.len(),
{
    if items.len() > 0 {
        let front = items.drop_last();
        lemma_registered(front, name);
        assert forall|i: int| 0 <= i < front.len() implies front[i] == items[i] by {}
        if registered(front).dom().contains(name) {
            let first: int = choose|i: int|
                0 <= i < front.len() && (#[trigger] front[i]).name@ == name;
            assert(items[first].name@ == name);
        }
    }
}

/// The factories of the panel kinds that a program knows, by name.
///
/// `F` is the type of the factories. It is mostly a plain function type, so
/// that factories of unrelated panel kinds can stand side by side.
pub struct PanelRegistry<F> {
    items: Vec<Registration<F>>,
}

impl<F> View for PanelRegistry<F> {
    type V = Map<Seq<char>, F>;

    /// The registered factories by name.
    closed spec fn view(&self) -> Map<Seq<char>, F> {
        registered(self.items@)
    }
}

impl<F> PanelRegistry<F> {
    /// No name is registered twice.
    #[verifier::type_invariant]
    spec fn distinct(self) -> bool {
        forall|i: int, j: int|
            0 <= i < j < self.items@.len()
                ==> (#[trigger] self.items@[i]).name@ != (#[trigger] self.items@[j]).name@
    }

    /// A registry without registrations.
    pub fn new() -> (registry: Self)
        ensures
            registry@ == Map::<Seq<char>, F>::empty(),
    {
        PanelRegistry { items: Vec::new() }
    }

    /// Where `panel_name` is registered, if it is.
    fn position(&self, panel_name: &str) -> (found: Option<usize>)
        ensures
            match found {
                Some(i) => i < self.items@.len()
                    && self.items@[i as int].name@ == panel_name@
                    && self@.dom().contains(panel_name@)
                    && self@[panel_name@] == self.items@[i as int].factory,
                None => !self@.dom().contains(panel_name@),
            },
    {
        let key = panel_name.to_owned();
        let mut i: usize = 0;
        while i < self.items.len()
            invariant
                i <= self.items@.len(),
                key@ == panel_name@,
                forall|j: int| 0 <= j < i ==> (#[trigger] self.items@[j]).name@ != panel_name@,
            decreases self.items@.len() - i,
        {
            if self.items[i].name == key {
                proof {
                    lemma_registered(self.items@, panel_name@);
                }
                return Some(i);
            }
            i = i + 1;
        }
        proof {
            lemma_registered(self.items@, panel_name@);
        }
        None
    }

    /// The factory registered under `panel_name`.
    ///
    /// Fails with [`DockError::UnknownPanel`] exactly if none is.
    pub fn lookup(&self, panel_name: &str) -> (res: Result<&F, DockError>)
        ensures
            match res {
                Ok(factory) => self@.dom().contains(panel_name@) && *factory == self@[panel_name@],
                Err(e) => !self@.dom().contains(panel_name@)
                    && e@ == (DockErrorView::UnknownPanel { panel_name: panel_name@ }),
            },
    {
        match self.position(panel_name) {
            Some(i) => Ok(&self.items[i].factory),
            None => Err(DockError::UnknownPanel { panel_name: panel_name.to_owned() }),
        }
    }

    /// Registers `factory` under `panel_name`.
    ///
    /// Fails with [`DockError::DuplicatePanel`] exactly if the name is taken;
    /// the registry is then left as it was.
    pub fn register(&mut self, panel_name: &str, factory: F) -> (res: Result<(), DockError>)
        ensures
            match res {
                Ok(()) => !old(self)@.dom().contains(panel_name@)
                    && final(self)@ == old(self)@.insert(panel_name@, factory),
                Err(e) => old(self)@.dom().contains(panel_name@)
                    && e@ == (DockErrorView::DuplicatePanel { panel_name: panel_name@ })
                    && final(self)@ == old(self)@,
            },
    {
        proof {
            use_type_invariant(&*self);
        }
        match self.position(panel_name) {
            Some(_) => Err(DockError::DuplicatePanel { panel_name: panel_name.to_owned() }),
            None => {
                proof {
                    lemma_registered(self.items@, panel_name@);
                }
                let ghost before = self.items@;
                let mut items: Vec<Registration<F>> = Vec::new();
                core::mem::swap(&mut self.items, &mut items);
                items.push(Registration { name: panel_name.to_owned(), factory });
                proof {
                    assert(items@.drop_last() =~= before);
                }
                core::mem::swap(&mut self.items, &mut items);
                Ok(())
            },
        }
    }
}

/// Registers the factory `deserialize` for the panel kind `panel_name`.
///
/// Fails with [`DockError::DuplicatePanel`] exactly if the name is taken;
/// the registry is then left as it was.
pub fn register_panel<F>(
    registry: &mut PanelRegistry<F>,
    panel_name: &str,
    deserialize: F,
) -> (res: Result<(), DockError>)
    ensures
        match res {
            Ok(()) => !old(registry)@.dom().contains(panel_name@)
                && final(registry)@ == old(registry)@.insert(panel_name@, deserialize),
            Err(e) => old(registry)@.dom().contains(panel_name@)
                && e@ == (DockErrorView::DuplicatePanel { panel_name: panel_name@ })
                && final(registry)@ == old(registry)@,
        },
{
    registry.register(panel_name, deserialize)
}

/// A name that was registered is found, and cannot be registered again.
///
/// Let `after` be a registry's factories once `factory` was registered under
/// the new name `panel_name`. Then a lookup of the name finds `factory`, the
/// name is taken, and every other name maps to what it mapped to before.
pub proof fn lemma_register_then_lookup<F>(
    before: Map<Seq<char>, F>,
    after: Map<Seq<char>, F>,
    panel_name: Seq<char>,
    factory: F,
)
    requires
        !before.dom().contains(panel_name),
        after == before.insert(panel_name, factory),
    ensures
        after.dom().contains(panel_name),
        after[panel_name] == factory,
        forall|other: Seq<char>|
            other != panel_name ==> {
                &&& after.dom().contains(other) <==> before.dom().contains(other)
                &&& before.dom().contains(other) ==> after[other] == before[other]
            },
{
}

} // verus!
