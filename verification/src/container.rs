//! The aggregate node: an ordered collection of child handles.

use crate::children::Children;
use crate::facade::{
    facade_mut_final, facade_mut_tag, facade_mut_value, facade_tag, facade_value, Facade, FacadeMut,
};
use crate::handle::Handle;
use crate::list::List;
use crate::tag::{same_tag, tag_of};
use std::any::TypeId;
use vstd::prelude::*;

verus! {

/// A node that keeps the handles linked to it, in the order of linking.
pub struct Container {
    pub lists: Vec<Handle>,
}

impl Container {
    /// A container without children.
    pub fn new() -> (container: Container)
        ensures
            container.lists@ == Seq::<Handle>::empty(),
    {
        Container { lists: Vec::new() }
    }

    /// The child at `index`, as the container holds it now: one step of an
    /// enumeration that looks at the container anew each time.
    pub fn child_at(&self, index: usize) -> (child: Option<Handle>)
        ensures
            index < self.lists@.len() ==> child == Some(self.lists@[index as int]),
            index >= self.lists@.len() ==> child.is_none(),
    {
        if index < self.lists.len() {
            Some(self.lists[index].clone())
        } else {
            None
        }
    }
}

impl List for Container {
    open spec fn children(&self) -> Seq<Handle> {
        self.lists@
    }

    open spec fn supports(&self, typeid: TypeId) -> bool {
        typeid == tag_of::<Container>()
    }

    open spec fn shows(&self, facade: Facade<'_>) -> bool {
        facade_tag(facade) == tag_of::<Container>() && facade_value::<Container>(facade) == *self
    }

    open spec fn lends(&self, facade: FacadeMut<'_>) -> bool {
        facade_mut_tag(facade) == tag_of::<Container>() && facade_mut_value::<Container>(facade)
            == *self
    }

    open spec fn regains(&self, facade: FacadeMut<'_>) -> bool {
        facade_mut_final::<Container>(facade) == *self
    }

    /// Enumerates a copy of the handles that the container holds now. The
    /// copy is the enumeration's own: a later `link` does not reach it.
    fn access(&self) -> (children: Children)
        ensures
            children.remaining() == self.lists@,
    {
        let mut items: Vec<Handle> = Vec::new();
        let mut i: usize = 0;
        while i < self.lists.len()
            invariant
                i <= self.lists.len(),
                items@ == self.lists@.take(i as int),
            decreases self.lists.len() - i,
        {
            items.push(self.lists[i].clone());
            i = i + 1;
        }
        Children::new(items)
    }

    /// Appends `other`, whatever it refers to: nothing is looked for, neither
    /// a handle that is there already nor one that leads back to the container.
    fn link(&mut self, other: Handle)
        ensures
            final(self).lists@ == old(self).lists@.push(other),
    {
        self.lists.push(other);
    }

    /// The container itself under its own tag, and nothing under any other.
    fn acquire(&self, typeid: TypeId) -> (facade: Option<Facade<'_>>)
        ensures
            typeid != tag_of::<Container>() ==> facade is None,
            typeid == tag_of::<Container>() ==> (facade matches Some(f) && facade_tag(f)
                == tag_of::<Container>() && facade_value::<Container>(f) == *self),
    {
        let own = TypeId::of::<Container>();
        if same_tag(&own, &typeid) {
            Some(Facade::of(self))
        } else {
            None
        }
    }

    /// The container itself, to be changed, under its own tag, and nothing
    /// under any other. What is written through the facade is what the
    /// container holds afterwards.
    fn acquire_mut(&mut self, typeid: TypeId) -> (facade: Option<FacadeMut<'_>>)
        ensures
            typeid != tag_of::<Container>() ==> facade is None && *final(self) == *old(self),
            typeid == tag_of::<Container>() ==> (facade matches Some(f) && facade_mut_tag(f)
                == tag_of::<Container>() && facade_mut_value::<Container>(f) == *old(self)
                && facade_mut_final::<Container>(f) == *final(self)),
    {
        let own = TypeId::of::<Container>();
        if same_tag(&own, &typeid) {
            Some(FacadeMut::of(self))
        } else {
            None
        }
    }
}

} // verus!
