//! Immutable shared lists, the sequences of the syntax tree.

use vstd::prelude::*;
use std::rc::Rc;

verus! {

/// A singly linked list whose cells are shared, so that a tail can be held
/// on to without copying.
#[derive(Debug)]
pub enum List<T> {
    Nil,
    Cons(Rc<Node<T>>),
}

/// One cell of a [`List`].
#[derive(Debug)]
pub struct Node<T> {
    pub head: T,
    pub tail: List<T>,
}

impl<T> View for List<T> {
    type V = Seq<T>;

    /// The elements, first to last.
    open spec fn view(&self) -> Seq<T>
        decreases self,
    {
        match self {
            List::Nil => Seq::empty(),
            List::Cons(n) => seq![n.head] + n.tail.view(),
        }
    }
}

impl<T> List<T> {
    /// The list that holds the elements of `s`, in order.
    pub open spec fn of(s: Seq<T>) -> List<T>
        decreases s.len(),
    {
        if s.len() == 0 {
            List::Nil
        } else {
            List::Cons(Rc::new(Node { head: s[0], tail: List::of(s.drop_first()) }))
        }
    }

    /// `List::of` and the view are inverse to each other.
    pub proof fn lemma_of_view(s: Seq<T>)
        ensures
            List::of(s)@ == s,
        decreases s.len(),
    {
        if s.len() > 0 {
            Self::lemma_of_view(s.drop_first());
            assert(seq![s[0]] + s.drop_first() =~= s);
        } else {
            assert(List::<T>::of(s)@ =~= s);
        }
    }

    /// A list is the list of its own elements.
    pub proof fn lemma_view_of(list: &List<T>)
        ensures
            List::of(list@) == *list,
        decreases list,
    {
        match list {
            List::Nil => {},
            List::Cons(n) => {
                Self::lemma_view_of(&n.tail);
                assert((seq![n.head] + n.tail@).drop_first() =~= n.tail@);
            },
        }
    }

    /// What the view of a list is, one cell deep.
    pub proof fn lemma_view(list: &List<T>)
        ensures
            match *list {
                List::Nil => list@.len() == 0,
                List::Cons(node) => {
                    &&& list@.len() == node.tail@.len() + 1
                    &&& list@[0] == node.head
                    &&& list@.drop_first() == node.tail@
                    &&& list@ == seq![node.head] + node.tail@
                },
            },
    {
        match list {
            List::Nil => {
                assert(list@ =~= Seq::empty());
            },
            List::Cons(node) => {
                assert(list@ =~= seq![node.head] + node.tail@);
                assert(list@.drop_first() =~= node.tail@);
            },
        }
    }

    /// Another handle on the same list.
    pub fn share(&self) -> (r: Self)
        ensures
            r == *self,
    {
        match self {
            List::Nil => List::Nil,
            List::Cons(n) => List::Cons(n.clone()),
        }
    }

    /// The list with `head` in front of `tail`.
    pub fn cons(head: T, tail: List<T>) -> (r: Self)
        ensures
            r == List::Cons(Rc::new(Node { head, tail })),
            r@ == seq![head] + tail@,
    {
        List::Cons(Rc::new(Node { head, tail }))
    }

    /// The list of the elements of `v`, in order.
    pub fn from_vec(v: Vec<T>) -> (r: Self)
        ensures
            r == List::of(v@),
            r@ == v@,
    {
        let mut v = v;
        let mut out: List<T> = List::Nil;
        let ghost all = v@;
        while v.len() > 0
            invariant
                v@.len() <= all.len(),
                v@ == all.take(v@.len() as int),
                out == List::of(all.skip(v@.len() as int)),
            decreases v.len(),
        {
            let ghost k = v@.len() as int;
            let head = v.pop().unwrap();
            proof {
                let rest = all.skip(k - 1);
                assert(rest[0] == head);
                assert(rest.drop_first() =~= all.skip(k));
                assert(v@ =~= all.take(k - 1));
            }
            out = List::Cons(Rc::new(Node { head, tail: out }));
        }
        proof {
            assert(all.skip(0) =~= all);
            Self::lemma_of_view(all);
        }
        out
    }

    /// The elements, first to last.
    pub fn items(&self) -> (v: Vec<&T>)
        ensures
            v@.len() == self@.len(),
            forall|i: int| 0 <= i < v@.len() ==> *v@[i] == self@[i],
    {
        let mut v: Vec<&T> = Vec::new();
        let mut cursor = self;
        proof {
            assert(self@.skip(0) =~= self@);
        }
        loop
            invariant
                v@.len() <= self@.len(),
                cursor@ == self@.skip(v@.len() as int),
                forall|i: int| 0 <= i < v@.len() ==> *v@[i] == self@[i],
            ensures
                v@.len() == self@.len(),
                forall|i: int| 0 <= i < v@.len() ==> *v@[i] == self@[i],
            decreases self@.len() - v@.len(),
        {
            proof {
                List::lemma_view(cursor);
            }
            match cursor {
                List::Nil => {
                    break ;
                },
                List::Cons(node) => {
                    let ghost k = v@.len() as int;
                    proof {
                        assert(self@.skip(k)[0] == self@[k]);
                        assert(self@.skip(k).drop_first() =~= self@.skip(k + 1));
                    }
                    v.push(&node.head);
                    cursor = &node.tail;
                },
            }
        }
        v
    }
}

} // verus!
