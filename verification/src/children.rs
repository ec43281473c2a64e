//! The enumeration that `access` hands out.

use crate::handle::Handle;
use vstd::prelude::*;

verus! {

/// A snapshot of a node's children, handed out one by one. It owns its
/// handles, so nothing that happens to the node afterwards reaches it.
pub struct Children {
    items: Vec<Handle>,
    position: usize,
}

impl Children {
    #[verifier::type_invariant]
    spec fn wf(&self) -> bool {
        self.position <= self.items.len()
    }

    /// The handles that are still to come, in order.
    pub closed spec fn remaining(&self) -> Seq<Handle> {
        self.items@.skip(self.position as int)
    }

    /// An enumeration of `items`, first to last.
    pub fn new(items: Vec<Handle>) -> (children: Children)
        ensures
            children.remaining() == items@,
    {
        Children { items, position: 0 }
    }

    /// Hands out the next handle, if one is left.
    pub fn next(&mut self) -> (handle: Option<Handle>)
        ensures
            old(self).remaining().len() == 0 ==> handle.is_none() && final(self).remaining()
                == old(self).remaining(),
            old(self).remaining().len() > 0 ==> handle == Some(old(self).remaining().first())
                && final(self).remaining() == old(self).remaining().drop_first(),
    {
        proof {
            use_type_invariant(&*self);
        }
        if self.position < self.items.len() {
            let handle = self.items[self.position].clone();
            self.position = self.position + 1;
            Some(handle)
        } else {
            None
        }
    }
}

} // verus!
