//! Shared handles: reference-counted, interior-mutable cells that hold a node.

use crate::list::List;
use scell::SCell;
use vstd::prelude::*;

verus! {

/// `scell::SCell`, carried through as an opaque value.
#[verifier::external_type_specification]
#[verifier::external_body]
#[verifier::reject_recursive_types(T)]
pub struct ExSCell<T: ?Sized>(SCell<T>);

/// A shared handle to a node: a cell that holds the node in a box. Every
/// clone refers to the same node, and two handles are equal exactly when they
/// refer to the same node. What the node holds is no part of the handle's
/// value, since it changes behind the handle.
#[verifier::external_body]
pub struct Handle {
    cell: SCell<Box<dyn List>>,
}

impl Handle {
    /// `SCell::new`: puts `node` into a new cell of its own.
    #[verifier::external_body]
    pub fn new<T: List + 'static>(node: T) -> (handle: Handle) {
        Handle { cell: SCell::new(Box::new(node)) }
    }

    /// The cell behind the handle, through which the node is borrowed. The
    /// cell checks its borrows as the program runs.
    #[verifier::external_body]
    pub fn cell(&self) -> (cell: &SCell<Box<dyn List>>) {
        &self.cell
    }
}

impl Clone for Handle {
    /// `SCell::clone`: one more reference to the same node.
    #[verifier::external_body]
    fn clone(&self) -> (handle: Handle)
        ensures
            handle == *self,
    {
        Handle { cell: self.cell.clone() }
    }
}

} // verus!
