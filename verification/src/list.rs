//! The capability interface that every node offers.

use crate::children::Children;
use crate::facade::{facade_mut_tag, facade_tag, Facade, FacadeMut};
use crate::handle::Handle;
use std::any::TypeId;
use vstd::prelude::*;

verus! {

/// Whether two references hold the same value.
pub open spec fn same<T: ?Sized>(a: &T, b: &T) -> bool {
    a == b
}

/// The one primitive: a node that can be looked into, linked to, and asked
/// for a facade.
///
/// The five spec functions say what a node is; a node that does not define
/// one leaves it open. `acquire` and `acquire_mut` promise that what they hand
/// out under a tag is of the type that the tag names: `Intercast` relies on it.
pub trait List {
    /// The node's children as `access` would enumerate them now.
    open spec fn children(&self) -> Seq<Handle> {
        arbitrary()
    }

    /// Whether the node offers a facade under `typeid`.
    open spec fn supports(&self, typeid: TypeId) -> bool {
        arbitrary()
    }

    /// Whether `facade` is what the node shows under the facade's tag.
    open spec fn shows(&self, facade: Facade<'_>) -> bool {
        arbitrary()
    }

    /// Whether `facade` is what the node lends out under the facade's tag.
    open spec fn lends(&self, facade: FacadeMut<'_>) -> bool {
        arbitrary()
    }

    /// Whether the node is what `facade` leaves behind once its borrow has ended.
    open spec fn regains(&self, facade: FacadeMut<'_>) -> bool {
        arbitrary()
    }

    /// Enumerates the children that the node has at the moment of the call.
    fn access(&self) -> (children: Children)
        ensures
            children.remaining() == self.children(),
    ;

    /// Links `other` to this node. What a node does with it is its own affair.
    fn link(&mut self, other: Handle);

    /// The node seen under `typeid`, where it offers that facade.
    fn acquire(&self, typeid: TypeId) -> (facade: Option<Facade<'_>>)
        ensures
            facade.is_some() == self.supports(typeid),
            facade matches Some(f) ==> facade_tag(f) == typeid && self.shows(f),
    ;

    /// The node lent out under `typeid`, where it offers that facade. A node
    /// that does not offer it stays as it was.
    fn acquire_mut(&mut self, typeid: TypeId) -> (facade: Option<FacadeMut<'_>>)
        ensures
            facade.is_some() == old(self).supports(typeid),
            facade matches Some(f) ==> facade_mut_tag(f) == typeid && old(self).lends(f)
                && final(self).regains(f),
            facade is None ==> same(&*final(self), &*old(self)),
    ;
}

} // verus!
