//! Typed access to facades, for every node alike.

use crate::facade::{
    facade_mut_final, facade_mut_tag, facade_mut_value, facade_tag, facade_value, Facade, FacadeMut,
};
use crate::list::{same, List};
use crate::tag::tag_of;
use std::any::TypeId;
use vstd::prelude::*;

verus! {

/// What every node offers on top of its four operations.
pub trait Intercast: List {
    /// The node as a `T`, where it offers that facade: found exactly when the
    /// node offers a facade under the tag of `T`, and then what the node shows
    /// under that tag.
    ///
    /// A node that keeps the promise of `acquire` is never caught at the
    /// cast, which is known to succeed. One that breaks it, which only a node
    /// that was never verified can do, ends the program there.
    fn downcast_ref<T: 'static>(&self) -> (found: Option<&T>)
        ensures
            found.is_some() == self.supports(tag_of::<T>()),
            found matches Some(value) ==> exists|f: Facade<'_>|
                self.shows(f) && facade_tag(f) == tag_of::<T>() && facade_value::<T>(f) == *value,
    {
        match self.acquire(TypeId::of::<T>()) {
            Some(facade) => Some(
                facade.downcast_ref::<T>().expect("acquire() didn't provide the correct type"),
            ),
            None => None,
        }
    }

    /// The node as a `T` that can be changed, where it offers that facade. A
    /// node that does not offer it stays as it was; otherwise what is written
    /// through the result is what the node regains. The cast is guarded as in
    /// `downcast_ref`.
    fn downcast_mut<T: 'static>(&mut self) -> (found: Option<&mut T>)
        ensures
            found.is_some() == old(self).supports(tag_of::<T>()),
            found is None ==> same(&*final(self), &*old(self)),
            found matches Some(value) ==> exists|f: FacadeMut<'_>|
                old(self).lends(f) && final(self).regains(f) && facade_mut_tag(f) == tag_of::<T>()
                    && facade_mut_value::<T>(f) == *value
                    && facade_mut_final::<T>(f) == *final(value),
    {
        match self.acquire_mut(TypeId::of::<T>()) {
            Some(facade) => Some(
                facade.downcast_mut::<T>().expect("acquire_mut() didn't provide the correct type"),
            ),
            None => None,
        }
    }

    /// Calls `f` on the facade under `typeid`, where the node offers it, and
    /// does nothing otherwise.
    fn attempt<F: FnOnce(Facade<'_>)>(&self, typeid: TypeId, f: F)
        requires
            forall|facade: Facade<'_>|
                self.shows(facade) && facade_tag(facade) == typeid ==> f.requires((facade,)),
        ensures
            self.supports(typeid) ==> exists|facade: Facade<'_>|
                self.shows(facade) && facade_tag(facade) == typeid && f.ensures((facade,), ()),
    {
        match self.acquire(typeid) {
            Some(facade) => f(facade),
            None => {},
        }
    }

    /// Calls `f` on the exclusive facade under `typeid`, where the node offers
    /// it, and does nothing otherwise.
    fn attempt_mut<F: FnOnce(FacadeMut<'_>)>(&mut self, typeid: TypeId, f: F)
        requires
            forall|facade: FacadeMut<'_>|
                old(self).lends(facade) && facade_mut_tag(facade) == typeid ==> f.requires(
                    (facade,),
                ),
        ensures
            !old(self).supports(typeid) ==> same(&*final(self), &*old(self)),
            old(self).supports(typeid) ==> exists|facade: FacadeMut<'_>|
                old(self).lends(facade) && final(self).regains(facade) && facade_mut_tag(facade)
                    == typeid && f.ensures((facade,), ()),
    {
        match self.acquire_mut(typeid) {
            Some(facade) => f(facade),
            None => {},
        }
    }
}

impl<N: List + ?Sized> Intercast for N {

}

} // verus!
