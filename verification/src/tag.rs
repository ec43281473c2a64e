//! Type tags: the value by which a facade is asked for.

use std::any::TypeId;
use vstd::prelude::*;

verus! {

/// `std::any::TypeId`, carried through as an opaque value: two tags are equal
/// exactly when they identify the same type.
#[verifier::external_type_specification]
#[verifier::external_body]
pub struct ExTypeId(TypeId);

/// The tag of `T`: one fixed value for each type, of which nothing more is
/// known. In particular nothing here says that two types have different tags.
pub closed spec fn tag_of<T: ?Sized>() -> TypeId {
    arbitrary::<(TypeId, Ghost<Box<T>>)>().0
}

/// `TypeId::of` returns the tag of the type it is called for.
pub assume_specification<T: ?Sized + 'static>[ TypeId::of::<T> ]() -> (tag: TypeId)
    ensures
        tag == tag_of::<T>(),
;

/// `TypeId`'s `==`: whether two tags identify the same type.
#[verifier::external_body]
pub(crate) fn same_tag(a: &TypeId, b: &TypeId) -> (same: bool)
    ensures
        same == (*a == *b),
{
    a == b
}

} // verus!
