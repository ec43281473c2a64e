//! Lists that hold lists: one kind of node, which is looked into, linked to and
//! asked for the typed facades it offers.

pub mod tag;
pub mod facade;
pub mod handle;
pub mod children;
pub mod list;
pub mod container;
pub mod intercast;
pub mod laws;

pub use crate::children::Children;
pub use crate::container::Container;
pub use crate::facade::{Facade, FacadeMut};
pub use crate::handle::Handle;
pub use crate::intercast::Intercast;
pub use crate::list::List;
