use vstd::prelude::*;

use crate::laws::{after_pop, after_write_top, top};

verus! {

/// One link of the chain: a value and the exclusively owned rest of the
/// chain below it.
struct Node<T> {
    val: T,
    next: Option<Box<Node<T>>>,
}

impl<T> Node<T> {
    /// The values held by the chain starting at `link`, from bottom to top.
    spec fn values(link: Option<Box<Node<T>>>) -> Seq<T>
        decreases link,
    {
        match link {
            None => Seq::empty(),
            Some(node) => Self::values(node.next).push(node.val),
        }
    }
}

/// A last-in-first-out stack.
///
/// Its view is the sequence of elements from the bottom (index 0) to the
/// top (the last index).
pub struct Stack<T> {
    head: Option<Box<Node<T>>>,
    size: usize,
}

impl<T> View for Stack<T> {
    type V = Seq<T>;

    closed spec fn view(&self) -> Seq<T> {
        Node::values(self.head)
    }
}

impl<T> Stack<T> {
    /// The stored count agrees with the length of the chain.
    pub closed spec fn wf(&self) -> bool {
        self.size as nat == self@.len()
    }

    /// Creates an empty stack.
    pub fn new() -> (s: Self)
        ensures
            s.wf(),
            s@ == Seq::<T>::empty(),
    {
        Stack { head: None, size: 0 }
    }

    /// Puts `val` on top of the stack.
    pub fn push(&mut self, val: T)
        requires
            old(self).wf(),
            old(self)@.len() < usize::MAX,
        ensures
            final(self).wf(),
            final(self)@ == old(self)@.push(val),
    {
        let below = self.head.take();
        self.head = Some(Box::new(Node { val, next: below }));
        self.size = self.size + 1;
    }

    /// Removes the top element and returns it, or returns `None` and leaves
    /// the stack unchanged when it is empty.
    pub fn pop(&mut self) -> (r: Option<T>)
        requires
            old(self).wf(),
        ensures
            final(self).wf(),
            r == top(old(self)@),
            final(self)@ == after_pop(old(self)@),
    {
        match self.head.take() {
            None => None,
            Some(node) => {
                let Node { val, next } = *node;
                self.head = next;
                self.size = self.size - 1;
                Some(val)
            },
        }
    }

    /// Returns a reference to the top element, or `None` when the stack is
    /// empty.
    pub fn peek(&self) -> (r: Option<&T>)
        ensures
            r.is_some() == (self@.len() > 0),
            r.is_some() ==> top(self@) == Some(*r.unwrap()),
    {
        match &self.head {
            None => None,
            Some(node) => Some(&node.val),
        }
    }

    /// Returns a mutable reference to the top element, or `None` when the
    /// stack is empty. A value written through it replaces the top element.
    pub fn peek_mut(&mut self) -> (r: Option<&mut T>)
        requires
            old(self).wf(),
        ensures
            r.is_some() == (old(self)@.len() > 0),
            r.is_none() ==> *final(self) == *old(self),
            r.is_some() ==> top(old(self)@) == Some(*r.unwrap()),
            r.is_some() ==> final(self)@ == after_write_top(old(self)@, *final(r.unwrap())),
            final(self).wf(),
    {
        match &mut self.head {
            None => None,
            Some(node) => Some(&mut node.val),
        }
    }

    /// Returns the number of elements in the stack.
    pub fn size(&self) -> (n: usize)
        requires
            self.wf(),
        ensures
            n as nat == self@.len(),
    {
        self.size
    }
}

impl<T> Default for Stack<T> {
    /// Creates an empty stack, as `new` does.
    fn default() -> (s: Self)
        ensures
            s.wf(),
            s@ == Seq::<T>::empty(),
    {
        Self::new()
    }
}

impl<T: Clone> Clone for Stack<T> {
    /// Copies the whole chain node by node, with two loops and no recursion:
    /// the first collects clones of the elements from the top down, the
    /// second pushes them back from the bottom up.
    fn clone(&self) -> (r: Self)
        ensures
            r.wf(),
            r@.len() == self@.len(),
            forall|k: int| 0 <= k < self@.len() ==> cloned::<T>(#[trigger] self@[k], r@[k]),
    {
        let ghost n = self@.len();
        let mut items: Vec<T> = Vec::new();
        let mut cur: &Option<Box<Node<T>>> = &self.head;
        while cur.is_some()
            invariant
                n == self@.len(),
                Node::values(*cur).len() + items@.len() == n,
                Node::values(*cur) == self@.subrange(0, Node::values(*cur).len() as int),
                forall|k: int|
                    0 <= k < items@.len() ==> cloned::<T>(#[trigger] self@[n - 1 - k], items@[k]),
            decreases Node::values(*cur).len(),
        {
            let node = cur.as_ref().unwrap();
            let v = node.val.clone();
            proof {
                let len = Node::values(*cur).len();
                assert(self@.subrange(0, len as int)[len - 1] == node.val);
                assert(Node::values(node.next) == self@.subrange(0, len - 1));
            }
            items.push(v);
            assert(items@[items@.len() - 1] == v);
            cur = &node.next;
        }
        let total = items.len();
        assert(n == total);
        let mut r: Stack<T> = Stack::new();
        while items.len() > 0
            invariant
                n == self@.len(),
                n <= usize::MAX,
                r.wf(),
                items@.len() + r@.len() == n,
                forall|k: int|
                    0 <= k < items@.len() ==> cloned::<T>(#[trigger] self@[n - 1 - k], items@[k]),
                forall|k: int| 0 <= k < r@.len() ==> cloned::<T>(#[trigger] self@[k], r@[k]),
            decreases items@.len(),
        {
            let ghost remaining = items@;
            let v = items.pop().unwrap();
            let ghost below = r@;
            assert(cloned::<T>(self@[n - 1 - (remaining.len() - 1)], remaining.last()));
            r.push(v);
            assert(r@[below.len() as int] == v);
        }
        r
    }
}

impl<T> Drop for Stack<T> {
    /// Releases the chain one node at a time, so that dropping a long stack
    /// never recurses through its nodes.
    fn drop(&mut self)
        opens_invariants none
        no_unwind
    {
        let mut link: Option<Box<Node<T>>> = None;
        core::mem::swap(&mut link, &mut self.head);
        self.size = 0;
        loop
            decreases Node::values(link).len(),
        {
            match link {
                None => {
                    break;
                },
                Some(node) => {
                    link = node.next;
                },
            }
        }
    }
}

} // verus!
