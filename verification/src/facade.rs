//! Facades: a node seen as a value of one concrete type, with the type erased.

use crate::tag::tag_of;
use std::any::Any;
use std::any::TypeId;
use vstd::prelude::*;

verus! {

/// A shared reference to a value whose type is known only by its tag.
#[verifier::external_body]
pub struct Facade<'a> {
    any: &'a dyn Any,
}

/// The tag of the concrete type behind a facade.
pub uninterp spec fn facade_tag(facade: Facade<'_>) -> TypeId;

/// The value behind a facade, read as a `T`. It says something only where
/// `T` is the type that `facade_tag` names.
pub closed spec fn facade_value<T>(facade: Facade<'_>) -> T {
    arbitrary::<spec_fn(Facade<'_>) -> T>()(facade)
}

impl<'a> Facade<'a> {
    /// The unsizing of `&T` to `&dyn Any`: a facade of `value` under the tag
    /// of `T`.
    #[verifier::external_body]
    pub fn of<T: 'static>(value: &'a T) -> (facade: Facade<'a>)
        ensures
            facade_tag(facade) == tag_of::<T>(),
            facade_value::<T>(facade) == *value,
    {
        Facade { any: value }
    }

    /// `<dyn Any>::downcast_ref`: the value behind the facade, if and only if
    /// its type is `T`.
    #[verifier::external_body]
    pub fn downcast_ref<T: 'static>(self) -> (found: Option<&'a T>)
        ensures
            found.is_some() <==> facade_tag(self) == tag_of::<T>(),
            found matches Some(value) ==> *value == facade_value::<T>(self),
    {
        self.any.downcast_ref::<T>()
    }
}

/// An exclusive reference to a value whose type is known only by its tag.
#[verifier::external_body]
pub struct FacadeMut<'a> {
    any: &'a mut dyn Any,
}

/// The tag of the concrete type behind an exclusive facade.
pub uninterp spec fn facade_mut_tag(facade: FacadeMut<'_>) -> TypeId;

/// The value behind an exclusive facade at the time the facade was made, read
/// as a `T`.
pub closed spec fn facade_mut_value<T>(facade: FacadeMut<'_>) -> T {
    arbitrary::<spec_fn(FacadeMut<'_>) -> (T, T)>()(facade).0
}

/// The value that an exclusive facade leaves behind once its borrow has
/// ended, read as a `T`.
pub closed spec fn facade_mut_final<T>(facade: FacadeMut<'_>) -> T {
    arbitrary::<spec_fn(FacadeMut<'_>) -> (T, T)>()(facade).1
}

impl<'a> FacadeMut<'a> {
    /// The unsizing of `&mut T` to `&mut dyn Any`: an exclusive facade of
    /// `value` under the tag of `T`. What the facade leaves behind is what
    /// `value` holds in the end.
    #[verifier::external_body]
    pub fn of<T: 'static>(value: &'a mut T) -> (facade: FacadeMut<'a>)
        ensures
            facade_mut_tag(facade) == tag_of::<T>(),
            facade_mut_value::<T>(facade) == *old(value),
            facade_mut_final::<T>(facade) == *final(value),
    {
        FacadeMut { any: value }
    }

    /// `<dyn Any>::downcast_mut`: the value behind the facade, if and only if
    /// its type is `T`. What is written through the result is what the facade
    /// leaves behind.
    #[verifier::external_body]
    pub fn downcast_mut<T: 'static>(self) -> (found: Option<&'a mut T>)
        ensures
            found.is_some() <==> facade_mut_tag(self) == tag_of::<T>(),
            found matches Some(value) ==> *value == facade_mut_value::<T>(self) && *final(value)
                == facade_mut_final::<T>(self),
    {
        self.any.downcast_mut::<T>()
    }
}

} // verus!
