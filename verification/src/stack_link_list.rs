use vstd::prelude::*;

verus! {

/// One element slot: a value and ownership of the rest of the chain.
#[derive(Debug, PartialEq, Eq)]
pub struct Node<T> {
    pub elem: T,
    pub next: Link<T>,
}

/// The "next node" relation, written as an explicit two-variant tag:
/// a chain either ends here or goes on through exactly one owned node.
#[derive(Debug, PartialEq, Eq)]
pub enum Link<T> {
    Empty,
    More(Box<Node<T>>),
}

/// The elements reachable from a link, in chain order (head first).
pub open spec fn link_view<T>(link: Link<T>) -> Seq<T>
    decreases link,
{
    match link {
        Link::Empty => Seq::empty(),
        Link::More(node) => seq![node.elem] + link_view(node.next),
    }
}

/// A LIFO stack owning its head link and, through it, every reachable node.
#[derive(Debug, PartialEq, Eq)]
pub struct List<T> {
    pub head: Link<T>,
}

impl<T> View for List<T> {
    type V = Seq<T>;

    open spec fn view(&self) -> Seq<T> {
        link_view(self.head)
    }
}

impl<T> List<T> {
    /// An empty list: the head link is `Empty`.
    pub fn new() -> (r: Self)
        ensures
            r@ == Seq::<T>::empty(),
    {
        Self { head: Link::Empty }
    }

    /// Insert `elem` at the head. The new node takes ownership of the old
    /// head chain; the list afterwards holds `elem` followed by what it held.
    pub fn push(&mut self, elem: T)
        ensures
            final(self)@ == seq![elem] + old(self)@,
    {
        let mut taken = Link::Empty;
        core::mem::swap(&mut taken, &mut self.head);
        let new_node = Box::new(Node { elem, next: taken });
        self.head = Link::More(new_node);
    }

    /// Remove and return the head element, promoting its successor to be the
    /// new head; `None` exactly when the list is empty, which leaves it empty.
    pub fn pop(&mut self) -> (r: Option<T>)
        ensures
            old(self)@.len() == 0 ==> r is None && *final(self) == *old(self),
            old(self)@.len() > 0 ==> r == Some(old(self)@[0]) && final(self)@ == old(self)@.skip(1),
    {
        let mut taken = Link::Empty;
        core::mem::swap(&mut taken, &mut self.head);
        match taken {
            Link::Empty => None,
            Link::More(node) => {
                let Node { elem, next } = *node;
                self.head = next;
                proof {
                    assert(old(self)@.skip(1) =~= link_view(self.head));
                }
                Some(elem)
            }
        }
    }
}

impl<T> Drop for List<T> {
    /// Tear the chain down with an explicit loop instead of letting each
    /// node's destructor recurse into its successor: each step detaches the
    /// head node's `next`, discards the node, and goes on with the remainder,
    /// so the work per step is bounded whatever the chain's length.
    fn drop(&mut self)
        opens_invariants none
        no_unwind
    {
        let mut cur = Link::Empty;
        core::mem::swap(&mut cur, &mut self.head);
        loop
            decreases cur,
        {
            match cur {
                Link::Empty => {
                    break;
                },
                Link::More(node) => {
                    let Node { elem: _, next } = *node;
                    cur = next;
                },
            }
        }
    }
}

} // verus!
