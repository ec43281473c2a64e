//! What holds of containers, facades and enumerations, whatever they hold.

use crate::children::Children;
use crate::container::Container;
use crate::facade::{facade_tag, facade_value, Facade};
use crate::handle::Handle;
use crate::list::List;
use crate::tag::tag_of;
use std::any::TypeId;
use vstd::prelude::*;

verus! {

/// A child that was just linked is the last one that `access` hands out, and
/// the children that were there before come first, as they were.
pub proof fn link_puts_child_last(
    before: Container,
    child: Handle,
    after: Container,
    seen: Children,
)
    requires
        after.children() == before.children().push(child),
        seen.remaining() == after.children(),
    ensures
        seen.remaining().len() == before.children().len() + 1,
        seen.remaining().last() == child,
        seen.remaining().drop_last() == before.children(),
{
}

/// Children come out in the order in which they were linked.
pub proof fn links_keep_order(
    empty: Container,
    first: Handle,
    one: Container,
    second: Handle,
    two: Container,
    third: Handle,
    three: Container,
    seen: Children,
)
    requires
        empty.children().len() == 0,
        one.children() == empty.children().push(first),
        two.children() == one.children().push(second),
        three.children() == two.children().push(third),
        seen.remaining() == three.children(),
    ensures
        seen.remaining() == seq![first, second, third],
{
}

/// A container offers a facade under its own tag and under no other.
pub proof fn container_offers_only_itself(container: Container, typeid: TypeId)
    ensures
        container.supports(typeid) <==> typeid == tag_of::<Container>(),
        container.supports(tag_of::<Container>()),
{
}

/// A container offers no facade of a type whose tag is not its own.
pub proof fn container_is_no_other_type<T>(container: Container)
    requires
        tag_of::<T>() != tag_of::<Container>(),
    ensures
        !container.supports(tag_of::<T>()),
{
}

/// The facade that a container shows is the container itself.
pub proof fn container_shows_itself(container: Container, facade: Facade<'_>)
    requires
        container.shows(facade),
    ensures
        facade_tag(facade) == tag_of::<Container>(),
        facade_value::<Container>(facade) == container,
{
}

/// Any handle can be linked, one to the container itself as well: it is then
/// among the children.
pub proof fn any_handle_can_be_linked(before: Container, handle: Handle, after: Container)
    requires
        after.children() == before.children().push(handle),
    ensures
        after.children().contains(handle),
{
    assert(after.children()[before.children().len() as int] == handle);
}

/// An enumeration that was begun before a link goes on with the children of
/// that time, whatever was consumed of it; one begun afterwards has the new
/// child as well.
pub proof fn snapshot_outlives_link(
    before: Container,
    begun: Children,
    consumed: int,
    child: Handle,
    after: Container,
    fresh: Children,
)
    requires
        0 <= consumed <= before.children().len(),
        begun.remaining() == before.children().skip(consumed),
        after.children() == before.children().push(child),
        fresh.remaining() == after.children(),
    ensures
        before.children().take(consumed) + begun.remaining() == before.children(),
        fresh.remaining() == before.children().take(consumed) + begun.remaining() + seq![child],
{
    assert(before.children().take(consumed) + before.children().skip(consumed)
        =~= before.children());
    assert(before.children().push(child) =~= before.children() + seq![child]);
}

} // verus!
