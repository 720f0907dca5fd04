use vstd::prelude::*;

verus! {

/// One element slot: a value and ownership of the rest of the chain.
#[derive(Debug, PartialEq, Eq)]
pub struct Node<T> {
    pub elem: T,
    pub next: Link<T>,
}

/// The "next node" relation, encoded as a nullable owning reference:
/// `None` ends the chain, `Some` owns exactly one successor node.
pub type Link<T> = Option<Box<Node<T>>>;

/// The elements reachable from a link, in chain order (head first).
pub open spec fn link_view<T>(link: Link<T>) -> Seq<T>
    decreases link,
{
    match link {
        None => Seq::empty(),
        Some(node) => seq![node.elem] + link_view(node.next),
    }
}

/// The elements a whole node holds: its own value followed by everything
/// reachable through its `next` link.
pub open spec fn node_view<T>(node: Node<T>) -> Seq<T> {
    seq![node.elem] + link_view(node.next)
}

/// A LIFO stack owning its head link and, through it, every reachable node.
#[derive(Debug, PartialEq, Eq)]
pub struct List<T> {
    pub head: Link<T>,
}

impl<T> View for List<T> {
    type V = Seq<T>;

    open spec fn view(&self) -> Seq<T> {
        link_view(self.head)
    }
}

impl<T> List<T> {
    /// An empty list: the head link is `None`.
    pub fn new() -> (r: Self)
        ensures
            r@ == Seq::<T>::empty(),
    {
        Self { head: None }
    }

    /// Insert `elem` at the head and return the list itself, so that calls
    /// can be chained. The new node takes ownership of the old head chain.
    pub fn push(&mut self, elem: T) -> (r: &mut Self)
        ensures
            (*r)@ == seq![elem] + old(self)@,
            *final(self) == *final(r),
    {
        let new_node = Box::new(Node { elem, next: self.head.take() });
        self.head = Some(new_node);
        self
    }

    /// Remove and return the head element, promoting its successor to be the
    /// new head; `None` exactly when the list is empty, which leaves it empty.
    pub fn pop(&mut self) -> (r: Option<T>)
        ensures
            old(self)@.len() == 0 ==> r is None && *final(self) == *old(self),
            old(self)@.len() > 0 ==> r == Some(old(self)@[0]) && final(self)@ == old(self)@.skip(1),
    {
        match self.head.take() {
            None => None,
            Some(head_node) => {
                let Node { elem, next } = *head_node;
                self.head = next;
                proof {
                    assert(old(self)@.skip(1) =~= link_view(self.head));
                }
                Some(elem)
            },
        }
    }

    /// A read-only view of the head element, without touching the chain;
    /// `None` exactly when the list is empty.
    pub fn peek(&self) -> (r: Option<&T>)
        ensures
            self@.len() == 0 ==> r is None,
            self@.len() > 0 ==> r is Some && *r.unwrap() == self@[0],
    {
        match &self.head {
            None => None,
            Some(node) => Some(&node.elem),
        }
    }

    /// Write access to the head element in place, without altering the chain
    /// structure: whatever the caller writes through the returned reference
    /// becomes the new head element. `None` exactly when the list is empty.
    pub fn peek_mut(&mut self) -> (r: Option<&mut T>)
        ensures
            old(self)@.len() == 0 ==> r is None && *final(self) == *old(self),
            old(self)@.len() > 0 ==> r is Some && *r.unwrap() == old(self)@[0]
                && final(self)@ == old(self)@.update(0, *final(r.unwrap())),
    {
        match &mut self.head {
            None => None,
            Some(node) => Some(&mut node.elem),
        }
    }

    /// A consuming iterator over the list: it owns the list and yields the
    /// elements in chain order by repeated `pop`.
    pub fn into_iter(self) -> (r: IntoIter<T>)
        ensures
            r@ == self@,
    {
        IntoIter(self)
    }
}

/// A consuming iterator: wraps an owned list and steps by `pop`.
pub struct IntoIter<T>(pub List<T>);

impl<T> View for IntoIter<T> {
    type V = Seq<T>;

    open spec fn view(&self) -> Seq<T> {
        self.0@
    }
}

impl<T> IntoIter<T> {
    /// Yield the next element, in chain order, by popping the wrapped list;
    /// `None` exactly when the remaining sequence is exhausted.
    pub fn next(&mut self) -> (r: Option<T>)
        ensures
            old(self)@.len() == 0 ==> r is None && *final(self) == *old(self),
            old(self)@.len() > 0 ==> r == Some(old(self)@[0]) && final(self)@ == old(self)@.skip(1),
    {
        self.0.pop()
    }
}

/// A borrowing iterator: a cursor holding a read-only reference to the next
/// node to visit, or nothing once the chain is exhausted. Several may coexist
/// over one list.
pub struct Iter<'a, T> {
    pub next: Option<&'a Node<T>>,
}

impl<'a, T> View for Iter<'a, T> {
    type V = Seq<T>;

    open spec fn view(&self) -> Seq<T> {
        match self.next {
            None => Seq::empty(),
            Some(node) => seq![node.elem] + link_view(node.next),
        }
    }
}

impl<'a, T> Iter<'a, T> {
    /// Yield a reference to the next element, in chain order, and advance the
    /// cursor to its successor; `None` exactly when the remainder is empty.
    pub fn next(&mut self) -> (r: Option<&'a T>)
        ensures
            old(self)@.len() == 0 ==> r is None && *final(self) == *old(self),
            old(self)@.len() > 0 ==> r is Some && *r.unwrap() == old(self)@[0]
                && final(self)@ == old(self)@.skip(1),
    {
        match self.next {
            None => None,
            Some(node) => {
                self.next = match &node.next {
                    None => None,
                    Some(next_node) => Some(&**next_node),
                };
                proof {
                    assert(old(self)@.skip(1) =~= self@);
                }
                Some(&node.elem)
            },
        }
    }
}

impl<T> List<T> {
    /// A borrowing iterator positioned at the head: it walks the chain
    /// without mutating it and yields a reference to each element in order.
    pub fn iter<'a>(&'a self) -> (r: Iter<'a, T>)
        ensures
            r@ == self@,
    {
        Iter {
            next: match &self.head {
                None => None,
                Some(node) => Some(&**node),
            },
        }
    }
}

/// A mutably borrowing iterator: a cursor holding, at most, one live mutable
/// reference into the chain. Each step takes that reference out before
/// following it, so no two live mutable references into the chain ever exist
/// at once.
pub struct IterMut<'a, T> {
    pub next: Option<&'a mut Node<T>>,
}

impl<'a, T> View for IterMut<'a, T> {
    type V = Seq<T>;

    open spec fn view(&self) -> Seq<T> {
        match self.next {
            None => Seq::empty(),
            Some(node) => seq![(*node).elem] + link_view((*node).next),
        }
    }
}

impl<'a, T> IterMut<'a, T> {
    /// Yield a mutable reference to the next element, in chain order, and
    /// advance the cursor to its successor; `None` exactly when the remainder
    /// is empty. Writes through the yielded reference land in the element's
    /// slot in the chain, which the cursor no longer covers: once every
    /// reference this iterator hands out is resolved, the part of the chain
    /// the entry cursor covered holds the written element followed by
    /// whatever the advanced cursor's part comes to hold.
    pub fn next(&mut self) -> (r: Option<&'a mut T>)
        ensures
            old(self)@.len() == 0 ==> r is None && *final(self) == *old(self),
            old(self)@.len() > 0 ==> r is Some && *r.unwrap() == old(self)@[0]
                && final(self)@ == old(self)@.skip(1)
                && old(self).next is Some
                && node_view(*final(old(self).next.unwrap())) == seq![*final(r.unwrap())]
                    + (match final(self).next {
                        None => Seq::<T>::empty(),
                        Some(next_node) => node_view(*final(next_node)),
                    }),
    {
        match self.next.take() {
            None => None,
            Some(node) => {
                let Node { elem, next } = node;
                self.next = match next {
                    None => None,
                    Some(next_node) => Some(&mut **next_node),
                };
                Some(elem)
            },
        }
    }
}

impl<T> List<T> {
    /// A mutably borrowing iterator positioned at the head: it walks the
    /// chain and yields write access to each element in order, leaving the
    /// chain structure itself untouched.
    pub fn iter_mut<'a>(&'a mut self) -> (r: IterMut<'a, T>)
        ensures
            r@ == old(self)@,
            old(self)@.len() == 0 ==> r.next is None && final(self)@ == Seq::<T>::empty(),
            old(self)@.len() > 0 ==> r.next is Some
                && final(self)@ == node_view(*final(r.next.unwrap())),
    {
        IterMut {
            next: match &mut self.head {
                None => None,
                Some(node) => Some(&mut **node),
            },
        }
    }
}

impl<T> Drop for List<T> {
    /// Tear the chain down with an explicit loop instead of letting each
    /// node's destructor recurse into its successor: each step detaches the
    /// head node's `next`, discards the node, and goes on with the remainder,
    /// so the work per step is bounded whatever the chain's length.
    fn drop(&mut self)
        opens_invariants none
        no_unwind
    {
        let mut cur_link_node: Link<T> = None;
        core::mem::swap(&mut cur_link_node, &mut self.head);
        loop
            decreases cur_link_node,
        {
            match cur_link_node {
                None => {
                    break;
                },
                Some(boxed_node) => {
                    let Node { elem: _, next } = *boxed_node;
                    cur_link_node = next;
                },
            }
        }
    }
}

} // verus!
