use vstd::prelude::*;

use crate::archive::FileModel;
use crate::component::{Component, ComponentModel};

verus! {

/// A named group of components that share a path prefix in the archive.
pub struct Namespace {
    pub name: String,
    pub components: Vec<Component>,
}

/// A namespace as the archive sees it: its name and its components, in the
/// order in which they were added.
pub ghost struct NamespaceModel {
    pub name: Seq<char>,
    pub components: Seq<ComponentModel>,
}

impl NamespaceModel {
    /// One archive entry for each component, in the order of the components:
    /// the entry's path and the bytes of the payload.
    pub open spec fn entries(self) -> Seq<FileModel> {
        self.components.map_values(|c: ComponentModel| (c.entry_path(self.name), c.content))
    }
}

/// The models of a run of components, one for one.
pub open spec fn component_models(components: Seq<Component>) -> Seq<ComponentModel> {
    components.map_values(|c: Component| c@)
}

/// The models of a run of namespaces, one for one.
pub open spec fn namespace_models(namespaces: Seq<Namespace>) -> Seq<NamespaceModel> {
    namespaces.map_values(|n: Namespace| n@)
}

impl View for Namespace {
    type V = NamespaceModel;

    open spec fn view(&self) -> NamespaceModel {
        NamespaceModel { name: self.name@, components: component_models(self.components@) }
    }
}

impl Namespace {
    /// A namespace without components. The name is used as it is for a
    /// segment of every entry path.
    pub fn new(name: &str) -> (r: Self)
        ensures
            r@ == (NamespaceModel { name: name@, components: Seq::empty() }),
    {
        let r = Self { name: name.to_string(), components: Vec::new() };
        assert(r@.components =~= Seq::empty());
        r
    }

    /// Adds a component after those that are there. Nothing is checked: a
    /// path that is already taken is taken again.
    pub fn add_component(&mut self, component: Component) -> (r: &mut Self)
        ensures
            r@ == (NamespaceModel {
                name: old(self)@.name,
                components: old(self)@.components.push(component@),
            }),
            *final(self) == *final(r),
    {
        self.components.push(component);
        assert(self@.components =~= old(self)@.components.push(component@));
        self
    }
}

impl Clone for Namespace {
    fn clone(&self) -> (r: Self)
        ensures
            r@ == self@,
    {
        let mut components: Vec<Component> = Vec::new();
        let mut i: usize = 0;
        while i < self.components.len()
            invariant
                i <= self.components.len(),
                component_models(components@) == component_models(self.components@.take(i as int)),
            decreases self.components.len() - i,
        {
            components.push(self.components[i].clone());
            assert(component_models(components@) =~= component_models(
                self.components@.take(i + 1),
            )) by {
                let before = component_models(self.components@.take(i as int));
                assert(component_models(components@) =~= before.push(self.components@[i as int]@));
            }
            i += 1;
        }
        assert(self.components@.take(i as int) =~= self.components@);
        Self { name: self.name.clone(), components }
    }
}

} // verus!
