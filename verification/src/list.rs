//! Doubly linked lists whose links are positions in an arena.

use vstd::prelude::*;

verus! {

/// The links of one element: the positions of its neighbours.
#[derive(Clone, Copy, Debug, PartialEq, Eq, Structural)]
pub struct Link {
    pub prev: usize,
    pub next: usize,
}

/// The arena after the element at `elem` was taken out of its list: its
/// predecessor points past it, then its successor points back past it. The
/// element keeps its own links.
pub open spec fn unlinked(arena: Seq<Link>, elem: int) -> Seq<Link> {
    let link = arena[elem];
    let first = arena.update(link.prev as int, Link { prev: arena[link.prev as int].prev, next: link.next });
    first.update(link.next as int, Link { prev: link.prev, next: first[link.next as int].next })
}

/// Takes the element at `elem` out of its list.
pub fn remove(arena: &mut Vec<Link>, elem: usize)
    requires
        elem < old(arena)@.len(),
        old(arena)@[elem as int].prev < old(arena)@.len(),
        old(arena)@[elem as int].next < old(arena)@.len(),
    ensures
        final(arena)@ == unlinked(old(arena)@, elem as int),
{
    let link = arena[elem];
    let before = arena[link.prev];
    arena.set(link.prev, Link { prev: before.prev, next: link.next });
    let after = arena[link.next];
    arena.set(link.next, Link { prev: link.prev, next: after.next });
}

} // verus!
