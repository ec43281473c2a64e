use quac::{Children, Container, Facade, FacadeMut, Handle, Intercast, List};
use std::any::TypeId;

/// A node with two facades: itself, and the container it keeps.
struct Shelf {
    label: u32,
    inner: Container,
}

impl List for Shelf {
    fn access(&self) -> Children {
        self.inner.access()
    }

    fn link(&mut self, other: Handle) {
        self.label += 1;
        self.inner.link(other);
    }

    fn acquire(&self, typeid: TypeId) -> Option<Facade<'_>> {
        if typeid == TypeId::of::<Shelf>() {
            Some(Facade::of(self))
        } else if typeid == TypeId::of::<Container>() {
            Some(Facade::of(&self.inner))
        } else {
            None
        }
    }

    fn acquire_mut(&mut self, typeid: TypeId) -> Option<FacadeMut<'_>> {
        if typeid == TypeId::of::<Shelf>() {
            Some(FacadeMut::of(self))
        } else if typeid == TypeId::of::<Container>() {
            Some(FacadeMut::of(&mut self.inner))
        } else {
            None
        }
    }
}

/// A node that answers every tag with a number.
struct Liar {
    number: u32,
}

impl List for Liar {
    fn access(&self) -> Children {
        Children::new(Vec::new())
    }

    fn link(&mut self, _other: Handle) {}

    fn acquire(&self, _typeid: TypeId) -> Option<Facade<'_>> {
        Some(Facade::of(&self.number))
    }

    fn acquire_mut(&mut self, _typeid: TypeId) -> Option<FacadeMut<'_>> {
        Some(FacadeMut::of(&mut self.number))
    }
}

#[test]
fn facade_casts_to_its_own_type_only() {
    let number: u32 = 7;
    assert_eq!(Facade::of(&number).downcast_ref::<u32>(), Some(&7));
    assert!(Facade::of(&number).downcast_ref::<u64>().is_none());
    assert!(Facade::of(&number).downcast_ref::<Container>().is_none());
    let container = Container::new();
    assert!(Facade::of(&container).downcast_ref::<Container>().is_some());
    assert!(Facade::of(&container).downcast_ref::<u32>().is_none());
}

#[test]
fn exclusive_facade_casts_to_its_own_type_only() {
    let mut number: u32 = 7;
    assert!(FacadeMut::of(&mut number).downcast_mut::<u64>().is_none());
    assert!(FacadeMut::of(&mut number).downcast_mut::<Container>().is_none());
    *FacadeMut::of(&mut number).downcast_mut::<u32>().unwrap() = 9;
    assert_eq!(number, 9);
}

#[test]
fn node_with_two_facades_shows_both() {
    let mut shelf = Shelf { label: 3, inner: Container::new() };
    shelf.link(Handle::new(Container::new()));
    assert_eq!(shelf.downcast_ref::<Shelf>().unwrap().label, 4);
    assert_eq!(shelf.downcast_ref::<Container>().unwrap().lists.len(), 1);
    assert!(shelf.downcast_ref::<u32>().is_none());
    shelf.downcast_mut::<Shelf>().unwrap().label = 10;
    assert_eq!(shelf.label, 10);
    shelf.downcast_mut::<Container>().unwrap().link(Handle::new(Container::new()));
    assert_eq!(shelf.inner.lists.len(), 2);
    assert_eq!(shelf.label, 10);
    assert!(shelf.downcast_mut::<u32>().is_none());
}

#[test]
fn node_with_two_facades_behind_a_handle() {
    let handle = Handle::new(Shelf { label: 0, inner: Container::new() });
    handle.cell().borrow_mut().link(Handle::new(Container::new()));
    assert_eq!(handle.cell().borrow().downcast_ref::<Shelf>().unwrap().label, 1);
    handle.cell().borrow_mut().downcast_mut::<Shelf>().unwrap().label = 5;
    assert_eq!(handle.cell().borrow().downcast_ref::<Shelf>().unwrap().label, 5);
    assert_eq!(handle.cell().borrow().downcast_ref::<Container>().unwrap().lists.len(), 1);
    assert!(handle.cell().borrow().downcast_ref::<Liar>().is_none());
}

#[test]
fn broken_promise_is_caught_at_the_cast() {
    let mut liar = Liar { number: 1 };
    let facade = liar.acquire(TypeId::of::<Container>()).unwrap();
    assert!(facade.downcast_ref::<Container>().is_none());
    let facade = liar.acquire(TypeId::of::<Liar>()).unwrap();
    assert!(facade.downcast_ref::<Liar>().is_none());
    let facade = liar.acquire_mut(TypeId::of::<Container>()).unwrap();
    assert!(facade.downcast_mut::<Container>().is_none());
    assert_eq!(liar.downcast_ref::<u32>(), Some(&1));
}

#[test]
fn kept_promise_always_casts() {
    let mut shelf = Shelf { label: 0, inner: Container::new() };
    let facade = shelf.acquire(TypeId::of::<Shelf>()).unwrap();
    assert!(facade.downcast_ref::<Shelf>().is_some());
    let facade = shelf.acquire(TypeId::of::<Container>()).unwrap();
    assert!(facade.downcast_ref::<Container>().is_some());
    let facade = shelf.acquire_mut(TypeId::of::<Shelf>()).unwrap();
    assert!(facade.downcast_mut::<Shelf>().is_some());
    let mut container = Container::new();
    let facade = container.acquire(TypeId::of::<Container>()).unwrap();
    assert!(facade.downcast_ref::<Container>().is_some());
    let facade = container.acquire_mut(TypeId::of::<Container>()).unwrap();
    assert!(facade.downcast_mut::<Container>().is_some());
}

#[test]
fn attempt_calls_back_on_success_only() {
    let mut container = Container::new();
    container.link(Handle::new(Container::new()));
    let mut seen: Option<usize> = None;
    container.attempt(TypeId::of::<Container>(), |facade| {
        seen = facade.downcast_ref::<Container>().map(|found| found.lists.len());
    });
    assert_eq!(seen, Some(1));
    let mut called = false;
    container.attempt(TypeId::of::<u32>(), |_facade| {
        called = true;
    });
    assert!(!called);
}

#[test]
fn attempt_mut_calls_back_on_success_only() {
    let mut container = Container::new();
    let child = Handle::new(Container::new());
    container.attempt_mut(TypeId::of::<Container>(), |facade| {
        facade.downcast_mut::<Container>().unwrap().link(child.clone());
    });
    assert_eq!(container.lists.len(), 1);
    let mut called = false;
    container.attempt_mut(TypeId::of::<String>(), |_facade| {
        called = true;
    });
    assert!(!called);
    assert_eq!(container.lists.len(), 1);
}

#[test]
fn attempt_reaches_each_facade_of_a_node() {
    let mut shelf = Shelf { label: 2, inner: Container::new() };
    let mut label = 0;
    shelf.attempt(TypeId::of::<Shelf>(), |facade| {
        label = facade.downcast_ref::<Shelf>().unwrap().label;
    });
    assert_eq!(label, 2);
    shelf.attempt_mut(TypeId::of::<Container>(), |facade| {
        facade.downcast_mut::<Container>().unwrap().link(Handle::new(Container::new()));
    });
    assert_eq!(shelf.inner.lists.len(), 1);
    assert_eq!(shelf.label, 2);
}

#[test]
fn link_may_do_more_than_append() {
    let handle = Handle::new(Shelf { label: 0, inner: Container::new() });
    handle.cell().borrow_mut().link(Handle::new(Container::new()));
    handle.cell().borrow_mut().link(Handle::new(Container::new()));
    let node = handle.cell().borrow();
    assert_eq!(node.downcast_ref::<Shelf>().unwrap().label, 2);
    let mut children = node.access();
    assert!(children.next().is_some());
    assert!(children.next().is_some());
    assert!(children.next().is_none());
}
