//! A singly linked list whose equality is element-wise.
use crate::label::Duplicate;
use vstd::prelude::*;

verus! {

/// A linked list. Unlike a vector, two lists with the same elements are the same value, so a
/// contract can say what a list is by writing it down.
#[derive(Debug, PartialEq)]
pub enum List<T> {
    Nil,
    Cons { head: Box<T>, tail: Box<List<T>> },
}

impl<T> List<T> {
    /// The elements, first to last.
    pub open spec fn seq(self) -> Seq<T>
        decreases self,
    {
        match self {
            List::Nil => Seq::empty(),
            List::Cons { head, tail } => seq![*head] + tail.seq(),
        }
    }

    /// The list of the elements of a sequence.
    pub open spec fn of_seq(elements: Seq<T>) -> List<T>
        decreases elements.len(),
    {
        if elements.len() == 0 {
            List::Nil
        } else {
            List::Cons {
                head: Box::new(elements[0]),
                tail: Box::new(List::of_seq(elements.drop_first())),
            }
        }
    }

    /// This list with `element` behind its last element.
    pub open spec fn with(self, element: T) -> List<T>
        decreases self,
    {
        match self {
            List::Nil => List::Cons { head: Box::new(element), tail: Box::new(List::Nil) },
            List::Cons { head, tail } => List::Cons {
                head,
                tail: Box::new(tail.with(element)),
            },
        }
    }

    /// This list followed by another.
    pub open spec fn then_list(self, other: List<T>) -> List<T>
        decreases self,
    {
        match self {
            List::Nil => other,
            List::Cons { head, tail } => List::Cons {
                head,
                tail: Box::new(tail.then_list(other)),
            },
        }
    }

    /// The list of one element.
    pub fn one(element: T) -> (list: List<T>)
        ensures
            list == List::Nil.with(element),
    {
        List::Cons { head: Box::new(element), tail: Box::new(List::Nil) }
    }

    /// Adds an element behind the last one.
    pub fn push(self, element: T) -> (list: List<T>)
        ensures
            list == self.with(element),
        decreases self,
    {
        match self {
            List::Nil => List::Cons { head: Box::new(element), tail: Box::new(List::Nil) },
            List::Cons { head, tail } => List::Cons {
                head,
                tail: Box::new((*tail).push(element)),
            },
        }
    }

    /// Adds all elements of another list behind the last one.
    pub fn append(self, other: List<T>) -> (list: List<T>)
        ensures
            list == self.then_list(other),
        decreases self,
    {
        match self {
            List::Nil => other,
            List::Cons { head, tail } => List::Cons {
                head,
                tail: Box::new((*tail).append(other)),
            },
        }
    }

    /// The list of the elements of a vector.
    pub fn from_vec(elements: Vec<T>) -> (list: List<T>)
        ensures
            list == List::of_seq(elements@),
    {
        let mut rest = elements;
        let mut list: List<T> = List::Nil;
        let ghost mut done: Seq<T> = Seq::empty();
        proof {
            assert(elements@ =~= rest@ + done);
        }
        while rest.len() > 0
            invariant
                elements@ == rest@ + done,
                list == List::of_seq(done),
            decreases rest.len(),
        {
            let ghost before = rest@;
            match rest.pop() {
                Some(element) => {
                    proof {
                        let longer = seq![element] + done;
                        assert(longer.drop_first() =~= done);
                        assert(before =~= rest@.push(element));
                        assert(elements@ =~= rest@ + longer);
                        done = longer;
                    }
                    list = List::Cons { head: Box::new(element), tail: Box::new(list) };
                },
                None => {},
            }
        }
        proof {
            assert(elements@ =~= done);
        }
        list
    }

    /// Whether another list has as many elements as this one.
    pub fn same_len<U>(&self, other: &List<U>) -> (same: bool)
        ensures
            same == (self.seq().len() == other.seq().len()),
        decreases self,
    {
        match (self, other) {
            (List::Nil, List::Nil) => true,
            (List::Cons { tail, .. }, List::Cons { tail: other_tail, .. }) => tail.same_len(
                other_tail,
            ),
            _ => false,
        }
    }

    /// Whether the list has no element.
    pub fn is_empty(&self) -> (empty: bool)
        ensures
            empty == (self.seq().len() == 0),
            empty == (*self is Nil),
    {
        match self {
            List::Nil => true,
            List::Cons { .. } => false,
        }
    }
}

impl<T: Duplicate> Duplicate for List<T> {
    fn duplicate(&self) -> (copy: List<T>)
        decreases self,
    {
        match self {
            List::Nil => List::Nil,
            List::Cons { head, tail } => List::Cons {
                head: Box::new((**head).duplicate()),
                tail: Box::new((**tail).duplicate()),
            },
        }
    }
}

/// The elements of a list made from a sequence are the elements of that sequence.
pub proof fn lemma_of_seq<T>(elements: Seq<T>)
    ensures
        List::of_seq(elements).seq() == elements,
    decreases elements.len(),
{
    if elements.len() > 0 {
        lemma_of_seq(elements.drop_first());
        assert(seq![elements[0]] + elements.drop_first() =~= elements);
    } else {
        assert(elements =~= Seq::empty());
    }
}

/// A list is determined by its elements.
pub proof fn lemma_seq_of<T>(list: List<T>)
    ensures
        List::of_seq(list.seq()) == list,
    decreases list,
{
    match list {
        List::Nil => {},
        List::Cons { head, tail } => {
            lemma_seq_of(*tail);
            assert(list.seq().drop_first() =~= tail.seq());
        },
    }
}

/// Pushing adds one element at the end.
pub proof fn lemma_with<T>(list: List<T>, element: T)
    ensures
        list.with(element).seq() == list.seq().push(element),
    decreases list,
{
    match list {
        List::Nil => {
            assert(List::<T>::Nil.seq() =~= Seq::empty());
            reveal_with_fuel(List::seq, 2);
        },
        List::Cons { head, tail } => {
            lemma_with(*tail, element);
            assert(seq![*head] + tail.seq().push(element) =~= (seq![*head] + tail.seq()).push(
                element,
            ));
        },
    }
}

/// Appending puts the elements of the second list behind those of the first.
pub proof fn lemma_then_list<T>(list: List<T>, other: List<T>)
    ensures
        list.then_list(other).seq() == list.seq() + other.seq(),
    decreases list,
{
    match list {
        List::Nil => {
            assert(List::<T>::Nil.seq() + other.seq() =~= other.seq());
        },
        List::Cons { head, tail } => {
            lemma_then_list(*tail, other);
            assert(seq![*head] + (tail.seq() + other.seq()) =~= (seq![*head] + tail.seq())
                + other.seq());
        },
    }
}

} // verus!
