//! Fixed lists: tuples of values of one type.
use crate::list::{FixedList, MapFixedList, TupleAppend, TupleConcat, TuplePrepend};
use vstd::prelude::*;

verus! {

impl<T> FixedList<T> for () {
    open spec fn items(&self) -> Seq<T> {
        Seq::empty()
    }

    fn len(&self) -> (len: usize) {
        0
    }

    fn get(&self, index: usize) -> (item: Option<&T>) {
        None
    }
}

impl<T> TupleAppend<T> for () {
    type Output = (T,);

    fn append(self, value: T) -> (list: (T,)) {
        let list = (value,);
        proof {
            assert(list.items() =~= self.items().push(value));
        }
        list
    }
}

impl<T> TuplePrepend<T> for () {
    type Output = (T,);

    fn prepend(self, value: T) -> (list: (T,)) {
        let list = (value,);
        proof {
            assert(list.items() =~= seq![value] + self.items());
        }
        list
    }
}

impl<T, U> MapFixedList<T, U> for () {
    type Output = ();

    fn map_list<F: Fn(T) -> U>(self, f: F) -> (list: ()) {
    }
}

impl<T, Rhs: FixedList<T>> TupleConcat<T, Rhs> for () {
    type Output = Rhs;

    fn concat(self, rhs: Rhs) -> (list: Rhs) {
        proof {
            assert(self.items() + rhs.items() =~= rhs.items());
        }
        rhs
    }
}

impl<T> FixedList<T> for (T,) {
    open spec fn items(&self) -> Seq<T> {
        seq![self.0]
    }

    fn len(&self) -> (len: usize) {
        1
    }

    fn get(&self, index: usize) -> (item: Option<&T>) {
        match index {
            0 => Some(&self.0),
            _ => None,
        }
    }
}

impl<T> TupleAppend<T> for (T,) {
    type Output = (T, T);

    fn append(self, value: T) -> (list: (T, T)) {
        let list = (self.0, value);
        proof {
            assert(list.items() =~= self.items().push(value));
        }
        list
    }
}

impl<T> TuplePrepend<T> for (T,) {
    type Output = (T, T);

    fn prepend(self, value: T) -> (list: (T, T)) {
        let list = (value, self.0);
        proof {
            assert(list.items() =~= seq![value] + self.items());
        }
        list
    }
}

impl<T, U> MapFixedList<T, U> for (T,) {
    type Output = (U,);

    fn map_list<F: Fn(T) -> U>(self, f: F) -> (list: (U,)) {
        proof {
            assert(call_requires(f, (self.items()[0],)));
        }
        (f(self.0),)
    }
}

impl<T, Rhs: FixedList<T>> TupleConcat<T, Rhs> for (T,) where
    (): TupleConcat<T, Rhs>,
    <() as TupleConcat<T, Rhs>>::Output: TuplePrepend<T>,
 {
    type Output = <<() as TupleConcat<T, Rhs>>::Output as TuplePrepend<T>>::Output;

    fn concat(self, rhs: Rhs) -> (list: Self::Output) {
        let ghost all = self.items() + rhs.items();
        let ghost more = rhs.items();
        let rest = ();
        proof {
            assert(all =~= seq![self.0] + (rest.items() + more));
        }
        rest.concat(rhs).prepend(self.0)
    }
}

impl<T> FixedList<T> for (T, T) {
    open spec fn items(&self) -> Seq<T> {
        seq![self.0, self.1]
    }

    fn len(&self) -> (len: usize) {
        2
    }

    fn get(&self, index: usize) -> (item: Option<&T>) {
        match index {
            0 => Some(&self.0),
            1 => Some(&self.1),
            _ => None,
        }
    }
}

impl<T> TupleAppend<T> for (T, T) {
    type Output = (T, T, T);

    fn append(self, value: T) -> (list: (T, T, T)) {
        let list = (self.0, self.1, value);
        proof {
            assert(list.items() =~= self.items().push(value));
        }
        list
    }
}

impl<T> TuplePrepend<T> for (T, T) {
    type Output = (T, T, T);

    fn prepend(self, value: T) -> (list: (T, T, T)) {
        let list = (value, self.0, self.1);
        proof {
            assert(list.items() =~= seq![value] + self.items());
        }
        list
    }
}

impl<T, U> MapFixedList<T, U> for (T, T) {
    type Output = (U, U);

    fn map_list<F: Fn(T) -> U>(self, f: F) -> (list: (U, U)) {
        proof {
            assert(call_requires(f, (self.items()[0],)));
            assert(call_requires(f, (self.items()[1],)));
        }
        (f(self.0), f(self.1))
    }
}

impl<T, Rhs: FixedList<T>> TupleConcat<T, Rhs> for (T, T) where
    (T,): TupleConcat<T, Rhs>,
    <(T,) as TupleConcat<T, Rhs>>::Output: TuplePrepend<T>,
 {
    type Output = <<(T,) as TupleConcat<T, Rhs>>::Output as TuplePrepend<T>>::Output;

    fn concat(self, rhs: Rhs) -> (list: Self::Output) {
        let ghost all = self.items() + rhs.items();
        let ghost more = rhs.items();
        let rest = (self.1,);
        proof {
            assert(all =~= seq![self.0] + (rest.items() + more));
        }
        rest.concat(rhs).prepend(self.0)
    }
}

impl<T> FixedList<T> for (T, T, T) {
    open spec fn items(&self) -> Seq<T> {
        seq![self.0, self.1, self.2]
    }

    fn len(&self) -> (len: usize) {
        3
    }

    fn get(&self, index: usize) -> (item: Option<&T>) {
        match index {
            0 => Some(&self.0),
            1 => Some(&self.1),
            2 => Some(&self.2),
            _ => None,
        }
    }
}

impl<T> TupleAppend<T> for (T, T, T) {
    type Output = (T, T, T, T);

    fn append(self, value: T) -> (list: (T, T, T, T)) {
        let list = (self.0, self.1, self.2, value);
        proof {
            assert(list.items() =~= self.items().push(value));
        }
        list
    }
}

impl<T> TuplePrepend<T> for (T, T, T) {
    type Output = (T, T, T, T);

    fn prepend(self, value: T) -> (list: (T, T, T, T)) {
        let list = (value, self.0, self.1, self.2);
        proof {
            assert(list.items() =~= seq![value] + self.items());
        }
        list
    }
}

impl<T, U> MapFixedList<T, U> for (T, T, T) {
    type Output = (U, U, U);

    fn map_list<F: Fn(T) -> U>(self, f: F) -> (list: (U, U, U)) {
        proof {
            assert(call_requires(f, (self.items()[0],)));
            assert(call_requires(f, (self.items()[1],)));
            assert(call_requires(f, (self.items()[2],)));
        }
        (f(self.0), f(self.1), f(self.2))
    }
}

impl<T, Rhs: FixedList<T>> TupleConcat<T, Rhs> for (T, T, T) where
    (T, T): TupleConcat<T, Rhs>,
    <(T, T) as TupleConcat<T, Rhs>>::Output: TuplePrepend<T>,
 {
    type Output = <<(T, T) as TupleConcat<T, Rhs>>::Output as TuplePrepend<T>>::Output;

    fn concat(self, rhs: Rhs) -> (list: Self::Output) {
        let ghost all = self.items() + rhs.items();
        let ghost more = rhs.items();
        let rest = (self.1, self.2);
        proof {
            assert(all =~= seq![self.0] + (rest.items() + more));
        }
        rest.concat(rhs).prepend(self.0)
    }
}

impl<T> FixedList<T> for (T, T, T, T) {
    open spec fn items(&self) -> Seq<T> {
        seq![self.0, self.1, self.2, self.3]
    }

    fn len(&self) -> (len: usize) {
        4
    }

    fn get(&self, index: usize) -> (item: Option<&T>) {
        match index {
            0 => Some(&self.0),
            1 => Some(&self.1),
            2 => Some(&self.2),
            3 => Some(&self.3),
            _ => None,
        }
    }
}

impl<T> TupleAppend<T> for (T, T, T, T) {
    type Output = (T, T, T, T, T);

    fn append(self, value: T) -> (list: (T, T, T, T, T)) {
        let list = (self.0, self.1, self.2, self.3, value);
        proof {
            assert(list.items() =~= self.items().push(value));
        }
        list
    }
}

impl<T> TuplePrepend<T> for (T, T, T, T) {
    type Output = (T, T, T, T, T);

    fn prepend(self, value: T) -> (list: (T, T, T, T, T)) {
        let list = (value, self.0, self.1, self.2, self.3);
        proof {
            assert(list.items() =~= seq![value] + self.items());
        }
        list
    }
}

impl<T, U> MapFixedList<T, U> for (T, T, T, T) {
    type Output = (U, U, U, U);

    fn map_list<F: Fn(T) -> U>(self, f: F) -> (list: (U, U, U, U)) {
        proof {
            assert(call_requires(f, (self.items()[0],)));
            assert(call_requires(f, (self.items()[1],)));
            assert(call_requires(f, (self.items()[2],)));
            assert(call_requires(f, (self.items()[3],)));
        }
        (f(self.0), f(self.1), f(self.2), f(self.3))
    }
}

impl<T, Rhs: FixedList<T>> TupleConcat<T, Rhs> for (T, T, T, T) where
    (T, T, T): TupleConcat<T, Rhs>,
    <(T, T, T) as TupleConcat<T, Rhs>>::Output: TuplePrepend<T>,
 {
    type Output = <<(T, T, T) as TupleConcat<T, Rhs>>::Output as TuplePrepend<T>>::Output;

    fn concat(self, rhs: Rhs) -> (list: Self::Output) {
        let ghost all = self.items() + rhs.items();
        let ghost more = rhs.items();
        let rest = (self.1, self.2, self.3);
        proof {
            assert(all =~= seq![self.0] + (rest.items() + more));
        }
        rest.concat(rhs).prepend(self.0)
    }
}

impl<T> FixedList<T> for (T, T, T, T, T) {
    open spec fn items(&self) -> Seq<T> {
        seq![self.0, self.1, self.2, self.3, self.4]
    }

    fn len(&self) -> (len: usize) {
        5
    }

    fn get(&self, index: usize) -> (item: Option<&T>) {
        match index {
            0 => Some(&self.0),
            1 => Some(&self.1),
            2 => Some(&self.2),
            3 => Some(&self.3),
            4 => Some(&self.4),
            _ => None,
        }
    }
}

impl<T> TupleAppend<T> for (T, T, T, T, T) {
    type Output = (T, T, T, T, T, T);

    fn append(self, value: T) -> (list: (T, T, T, T, T, T)) {
        let list = (self.0, self.1, self.2, self.3, self.4, value);
        proof {
            assert(list.items() =~= self.items().push(value));
        }
        list
    }
}

impl<T> TuplePrepend<T> for (T, T, T, T, T) {
    type Output = (T, T, T, T, T, T);

    fn prepend(self, value: T) -> (list: (T, T, T, T, T, T)) {
        let list = (value, self.0, self.1, self.2, self.3, self.4);
        proof {
            assert(list.items() =~= seq![value] + self.items());
        }
        list
    }
}

impl<T, U> MapFixedList<T, U> for (T, T, T, T, T) {
    type Output = (U, U, U, U, U);

    fn map_list<F: Fn(T) -> U>(self, f: F) -> (list: (U, U, U, U, U)) {
        proof {
            assert(call_requires(f, (self.items()[0],)));
            assert(call_requires(f, (self.items()[1],)));
            assert(call_requires(f, (self.items()[2],)));
            assert(call_requires(f, (self.items()[3],)));
            assert(call_requires(f, (self.items()[4],)));
        }
        (f(self.0), f(self.1), f(self.2), f(self.3), f(self.4))
    }
}

impl<T, Rhs: FixedList<T>> TupleConcat<T, Rhs> for (T, T, T, T, T) where
    (T, T, T, T): TupleConcat<T, Rhs>,
    <(T, T, T, T) as TupleConcat<T, Rhs>>::Output: TuplePrepend<T>,
 {
    type Output = <<(T, T, T, T) as TupleConcat<T, Rhs>>::Output as TuplePrepend<T>>::Output;

    fn concat(self, rhs: Rhs) -> (list: Self::Output) {
        let ghost all = self.items() + rhs.items();
        let ghost more = rhs.items();
        let rest = (self.1, self.2, self.3, self.4);
        proof {
            assert(all =~= seq![self.0] + (rest.items() + more));
        }
        rest.concat(rhs).prepend(self.0)
    }
}

impl<T> FixedList<T> for (T, T, T, T, T, T) {
    open spec fn items(&self) -> Seq<T> {
        seq![self.0, self.1, self.2, self.3, self.4, self.5]
    }

    fn len(&self) -> (len: usize) {
        6
    }

    fn get(&self, index: usize) -> (item: Option<&T>) {
        match index {
            0 => Some(&self.0),
            1 => Some(&self.1),
            2 => Some(&self.2),
            3 => Some(&self.3),
            4 => Some(&self.4),
            5 => Some(&self.5),
            _ => None,
        }
    }
}

impl<T> TupleAppend<T> for (T, T, T, T, T, T) {
    type Output = (T, T, T, T, T, T, T);

    fn append(self, value: T) -> (list: (T, T, T, T, T, T, T)) {
        let list = (self.0, self.1, self.2, self.3, self.4, self.5, value);
        proof {
            assert(list.items() =~= self.items().push(value));
        }
        list
    }
}

impl<T> TuplePrepend<T> for (T, T, T, T, T, T) {
    type Output = (T, T, T, T, T, T, T);

    fn prepend(self, value: T) -> (list: (T, T, T, T, T, T, T)) {
        let list = (value, self.0, self.1, self.2, self.3, self.4, self.5);
        proof {
            assert(list.items() =~= seq![value] + self.items());
        }
        list
    }
}

impl<T, U> MapFixedList<T, U> for (T, T, T, T, T, T) {
    type Output = (U, U, U, U, U, U);

    fn map_list<F: Fn(T) -> U>(self, f: F) -> (list: (U, U, U, U, U, U)) {
        proof {
            assert(call_requires(f, (self.items()[0],)));
            assert(call_requires(f, (self.items()[1],)));
            assert(call_requires(f, (self.items()[2],)));
            assert(call_requires(f, (self.items()[3],)));
            assert(call_requires(f, (self.items()[4],)));
            assert(call_requires(f, (self.items()[5],)));
        }
        (f(self.0), f(self.1), f(self.2), f(self.3), f(self.4), f(self.5))
    }
}

impl<T, Rhs: FixedList<T>> TupleConcat<T, Rhs> for (T, T, T, T, T, T) where
    (T, T, T, T, T): TupleConcat<T, Rhs>,
    <(T, T, T, T, T) as TupleConcat<T, Rhs>>::Output: TuplePrepend<T>,
 {
    type Output = <<(T, T, T, T, T) as TupleConcat<T, Rhs>>::Output as TuplePrepend<T>>::Output;

    fn concat(self, rhs: Rhs) -> (list: Self::Output) {
        let ghost all = self.items() + rhs.items();
        let ghost more = rhs.items();
        let rest = (self.1, self.2, self.3, self.4, self.5);
        proof {
            assert(all =~= seq![self.0] + (rest.items() + more));
        }
        rest.concat(rhs).prepend(self.0)
    }
}

impl<T> FixedList<T> for (T, T, T, T, T, T, T) {
    open spec fn items(&self) -> Seq<T> {
        seq![self.0, self.1, self.2, self.3, self.4, self.5, self.6]
    }

    fn len(&self) -> (len: usize) {
        7
    }

    fn get(&self, index: usize) -> (item: Option<&T>) {
        match index {
            0 => Some(&self.0),
            1 => Some(&self.1),
            2 => Some(&self.2),
            3 => Some(&self.3),
            4 => Some(&self.4),
            5 => Some(&self.5),
            6 => Some(&self.6),
            _ => None,
        }
    }
}

impl<T> TupleAppend<T> for (T, T, T, T, T, T, T) {
    type Output = (T, T, T, T, T, T, T, T);

    fn append(self, value: T) -> (list: (T, T, T, T, T, T, T, T)) {
        let list = (self.0, self.1, self.2, self.3, self.4, self.5, self.6, value);
        proof {
            assert(list.items() =~= self.items().push(value));
        }
        list
    }
}

impl<T> TuplePrepend<T> for (T, T, T, T, T, T, T) {
    type Output = (T, T, T, T, T, T, T, T);

    fn prepend(self, value: T) -> (list: (T, T, T, T, T, T, T, T)) {
        let list = (value, self.0, self.1, self.2, self.3, self.4, self.5, self.6);
        proof {
            assert(list.items() =~= seq![value] + self.items());
        }
        list
    }
}

impl<T, U> MapFixedList<T, U> for (T, T, T, T, T, T, T) {
    type Output = (U, U, U, U, U, U, U);

    fn map_list<F: Fn(T) -> U>(self, f: F) -> (list: (U, U, U, U, U, U, U)) {
        proof {
            assert(call_requires(f, (self.items()[0],)));
            assert(call_requires(f, (self.items()[1],)));
            assert(call_requires(f, (self.items()[2],)));
            assert(call_requires(f, (self.items()[3],)));
            assert(call_requires(f, (self.items()[4],)));
            assert(call_requires(f, (self.items()[5],)));
            assert(call_requires(f, (self.items()[6],)));
        }
        (f(self.0), f(self.1), f(self.2), f(self.3), f(self.4), f(self.5), f(self.6))
    }
}

impl<T, Rhs: FixedList<T>> TupleConcat<T, Rhs> for (T, T, T, T, T, T, T) where
    (T, T, T, T, T, T): TupleConcat<T, Rhs>,
    <(T, T, T, T, T, T) as TupleConcat<T, Rhs>>::Output: TuplePrepend<T>,
 {
    type Output = <<(T, T, T, T, T, T) as TupleConcat<T, Rhs>>::Output as TuplePrepend<T>>::Output;

    fn concat(self, rhs: Rhs) -> (list: Self::Output) {
        let ghost all = self.items() + rhs.items();
        let ghost more = rhs.items();
        let rest = (self.1, self.2, self.3, self.4, self.5, self.6);
        proof {
            assert(all =~= seq![self.0] + (rest.items() + more));
        }
        rest.concat(rhs).prepend(self.0)
    }
}

impl<T> FixedList<T> for (T, T, T, T, T, T, T, T) {
    open spec fn items(&self) -> Seq<T> {
        seq![self.0, self.1, self.2, self.3, self.4, self.5, self.6, self.7]
    }

    fn len(&self) -> (len: usize) {
        8
    }

    fn get(&self, index: usize) -> (item: Option<&T>) {
        match index {
            0 => Some(&self.0),
            1 => Some(&self.1),
            2 => Some(&self.2),
            3 => Some(&self.3),
            4 => Some(&self.4),
            5 => Some(&self.5),
            6 => Some(&self.6),
            7 => Some(&self.7),
            _ => None,
        }
    }
}

impl<T> TupleAppend<T> for (T, T, T, T, T, T, T, T) {
    type Output = (T, T, T, T, T, T, T, T, T);

    fn append(self, value: T) -> (list: (T, T, T, T, T, T, T, T, T)) {
        let list = (self.0, self.1, self.2, self.3, self.4, self.5, self.6, self.7, value);
        proof {
            assert(list.items() =~= self.items().push(value));
        }
        list
    }
}

impl<T> TuplePrepend<T> for (T, T, T, T, T, T, T, T) {
    type Output = (T, T, T, T, T, T, T, T, T);

    fn prepend(self, value: T) -> (list: (T, T, T, T, T, T, T, T, T)) {
        let list = (value, self.0, self.1, self.2, self.3, self.4, self.5, self.6, self.7);
        proof {
            assert(list.items() =~= seq![value] + self.items());
        }
        list
    }
}

impl<T, U> MapFixedList<T, U> for (T, T, T, T, T, T, T, T) {
    type Output = (U, U, U, U, U, U, U, U);

    fn map_list<F: Fn(T) -> U>(self, f: F) -> (list: (U, U, U, U, U, U, U, U)) {
        proof {
            assert(call_requires(f, (self.items()[0],)));
            assert(call_requires(f, (self.items()[1],)));
            assert(call_requires(f, (self.items()[2],)));
            assert(call_requires(f, (self.items()[3],)));
            assert(call_requires(f, (self.items()[4],)));
            assert(call_requires(f, (self.items()[5],)));
            assert(call_requires(f, (self.items()[6],)));
            assert(call_requires(f, (self.items()[7],)));
        }
        (f(self.0), f(self.1), f(self.2), f(self.3), f(self.4), f(self.5), f(self.6), f(self.7))
    }
}

impl<T, Rhs: FixedList<T>> TupleConcat<T, Rhs> for (T, T, T, T, T, T, T, T) where
    (T, T, T, T, T, T, T): TupleConcat<T, Rhs>,
    <(T, T, T, T, T, T, T) as TupleConcat<T, Rhs>>::Output: TuplePrepend<T>,
 {
    type Output = <<(T, T, T, T, T, T, T) as TupleConcat<T, Rhs>>::Output as TuplePrepend<T>>::Output;

    fn concat(self, rhs: Rhs) -> (list: Self::Output) {
        let ghost all = self.items() + rhs.items();
        let ghost more = rhs.items();
        let rest = (self.1, self.2, self.3, self.4, self.5, self.6, self.7);
        proof {
            assert(all =~= seq![self.0] + (rest.items() + more));
        }
        rest.concat(rhs).prepend(self.0)
    }
}

impl<T> FixedList<T> for (T, T, T, T, T, T, T, T, T) {
    open spec fn items(&self) -> Seq<T> {
        seq![self.0, self.1, self.2, self.3, self.4, self.5, self.6, self.7, self.8]
    }

    fn len(&self) -> (len: usize) {
        9
    }

    fn get(&self, index: usize) -> (item: Option<&T>) {
        match index {
            0 => Some(&self.0),
            1 => Some(&self.1),
            2 => Some(&self.2),
            3 => Some(&self.3),
            4 => Some(&self.4),
            5 => Some(&self.5),
            6 => Some(&self.6),
            7 => Some(&self.7),
            8 => Some(&self.8),
            _ => None,
        }
    }
}

impl<T> TupleAppend<T> for (T, T, T, T, T, T, T, T, T) {
    type Output = (T, T, T, T, T, T, T, T, T, T);

    fn append(self, value: T) -> (list: (T, T, T, T, T, T, T, T, T, T)) {
        let list = (self.0, self.1, self.2, self.3, self.4, self.5, self.6, self.7, self.8, value);
        proof {
            assert(list.items() =~= self.items().push(value));
        }
        list
    }
}

impl<T> TuplePrepend<T> for (T, T, T, T, T, T, T, T, T) {
    type Output = (T, T, T, T, T, T, T, T, T, T);

    fn prepend(self, value: T) -> (list: (T, T, T, T, T, T, T, T, T, T)) {
        let list = (value, self.0, self.1, self.2, self.3, self.4, self.5, self.6, self.7, self.8);
        proof {
            assert(list.items() =~= seq![value] + self.items());
        }
        list
    }
}

impl<T, U> MapFixedList<T, U> for (T, T, T, T, T, T, T, T, T) {
    type Output = (U, U, U, U, U, U, U, U, U);

    fn map_list<F: Fn(T) -> U>(self, f: F) -> (list: (U, U, U, U, U, U, U, U, U)) {
        proof {
            assert(call_requires(f, (self.items()[0],)));
            assert(call_requires(f, (self.items()[1],)));
            assert(call_requires(f, (self.items()[2],)));
            assert(call_requires(f, (self.items()[3],)));
            assert(call_requires(f, (self.items()[4],)));
            assert(call_requires(f, (self.items()[5],)));
            assert(call_requires(f, (self.items()[6],)));
            assert(call_requires(f, (self.items()[7],)));
            assert(call_requires(f, (self.items()[8],)));
        }
        (f(self.0), f(self.1), f(self.2), f(self.3), f(self.4), f(self.5), f(self.6), f(self.7), f(self.8))
    }
}

impl<T, Rhs: FixedList<T>> TupleConcat<T, Rhs> for (T, T, T, T, T, T, T, T, T) where
    (T, T, T, T, T, T, T, T): TupleConcat<T, Rhs>,
    <(T, T, T, T, T, T, T, T) as TupleConcat<T, Rhs>>::Output: TuplePrepend<T>,
 {
    type Output = <<(T, T, T, T, T, T, T, T) as TupleConcat<T, Rhs>>::Output as TuplePrepend<T>>::Output;

    fn concat(self, rhs: Rhs) -> (list: Self::Output) {
        let ghost all = self.items() + rhs.items();
        let ghost more = rhs.items();
        let rest = (self.1, self.2, self.3, self.4, self.5, self.6, self.7, self.8);
        proof {
            assert(all =~= seq![self.0] + (rest.items() + more));
        }
        rest.concat(rhs).prepend(self.0)
    }
}

impl<T> FixedList<T> for (T, T, T, T, T, T, T, T, T, T) {
    open spec fn items(&self) -> Seq<T> {
        seq![self.0, self.1, self.2, self.3, self.4, self.5, self.6, self.7, self.8, self.9]
    }

    fn len(&self) -> (len: usize) {
        10
    }

    fn get(&self, index: usize) -> (item: Option<&T>) {
        match index {
            0 => Some(&self.0),
            1 => Some(&self.1),
            2 => Some(&self.2),
            3 => Some(&self.3),
            4 => Some(&self.4),
            5 => Some(&self.5),
            6 => Some(&self.6),
            7 => Some(&self.7),
            8 => Some(&self.8),
            9 => Some(&self.9),
            _ => None,
        }
    }
}

impl<T> TupleAppend<T> for (T, T, T, T, T, T, T, T, T, T) {
    type Output = (T, T, T, T, T, T, T, T, T, T, T);

    fn append(self, value: T) -> (list: (T, T, T, T, T, T, T, T, T, T, T)) {
        let list = (self.0, self.1, self.2, self.3, self.4, self.5, self.6, self.7, self.8, self.9, value);
        proof {
            assert(list.items() =~= self.items().push(value));
        }
        list
    }
}

impl<T> TuplePrepend<T> for (T, T, T, T, T, T, T, T, T, T) {
    type Output = (T, T, T, T, T, T, T, T, T, T, T);

    fn prepend(self, value: T) -> (list: (T, T, T, T, T, T, T, T, T, T, T)) {
        let list = (value, self.0, self.1, self.2, self.3, self.4, self.5, self.6, self.7, self.8, self.9);
        proof {
            assert(list.items() =~= seq![value] + self.items());
        }
        list
    }
}

impl<T, U> MapFixedList<T, U> for (T, T, T, T, T, T, T, T, T, T) {
    type Output = (U, U, U, U, U, U, U, U, U, U);

    fn map_list<F: Fn(T) -> U>(self, f: F) -> (list: (U, U, U, U, U, U, U, U, U, U)) {
        proof {
            assert(call_requires(f, (self.items()[0],)));
            assert(call_requires(f, (self.items()[1],)));
            assert(call_requires(f, (self.items()[2],)));
            assert(call_requires(f, (self.items()[3],)));
            assert(call_requires(f, (self.items()[4],)));
            assert(call_requires(f, (self.items()[5],)));
            assert(call_requires(f, (self.items()[6],)));
            assert(call_requires(f, (self.items()[7],)));
            assert(call_requires(f, (self.items()[8],)));
            assert(call_requires(f, (self.items()[9],)));
        }
        (f(self.0), f(self.1), f(self.2), f(self.3), f(self.4), f(self.5), f(self.6), f(self.7), f(self.8), f(self.9))
    }
}

impl<T, Rhs: FixedList<T>> TupleConcat<T, Rhs> for (T, T, T, T, T, T, T, T, T, T) where
    (T, T, T, T, T, T, T, T, T): TupleConcat<T, Rhs>,
    <(T, T, T, T, T, T, T, T, T) as TupleConcat<T, Rhs>>::Output: TuplePrepend<T>,
 {
    type Output = <<(T, T, T, T, T, T, T, T, T) as TupleConcat<T, Rhs>>::Output as TuplePrepend<T>>::Output;

    fn concat(self, rhs: Rhs) -> (list: Self::Output) {
        let ghost all = self.items() + rhs.items();
        let ghost more = rhs.items();
        let rest = (self.1, self.2, self.3, self.4, self.5, self.6, self.7, self.8, self.9);
        proof {
            assert(all =~= seq![self.0] + (rest.items() + more));
        }
        rest.concat(rhs).prepend(self.0)
    }
}

impl<T> FixedList<T> for (T, T, T, T, T, T, T, T, T, T, T) {
    open spec fn items(&self) -> Seq<T> {
        seq![self.0, self.1, self.2, self.3, self.4, self.5, self.6, self.7, self.8, self.9, self.10]
    }

    fn len(&self) -> (len: usize) {
        11
    }

    fn get(&self, index: usize) -> (item: Option<&T>) {
        match index {
            0 => Some(&self.0),
            1 => Some(&self.1),
            2 => Some(&self.2),
            3 => Some(&self.3),
            4 => Some(&self.4),
            5 => Some(&self.5),
            6 => Some(&self.6),
            7 => Some(&self.7),
            8 => Some(&self.8),
            9 => Some(&self.9),
            10 => Some(&self.10),
            _ => None,
        }
    }
}

impl<T> TupleAppend<T> for (T, T, T, T, T, T, T, T, T, T, T) {
    type Output = (T, T, T, T, T, T, T, T, T, T, T, T);

    fn append(self, value: T) -> (list: (T, T, T, T, T, T, T, T, T, T, T, T)) {
        let list = (self.0, self.1, self.2, self.3, self.4, self.5, self.6, self.7, self.8, self.9, self.10, value);
        proof {
            assert(list.items() =~= self.items().push(value));
        }
        list
    }
}

impl<T> TuplePrepend<T> for (T, T, T, T, T, T, T, T, T, T, T) {
    type Output = (T, T, T, T, T, T, T, T, T, T, T, T);

    fn prepend(self, value: T) -> (list: (T, T, T, T, T, T, T, T, T, T, T, T)) {
        let list = (value, self.0, self.1, self.2, self.3, self.4, self.5, self.6, self.7, self.8, self.9, self.10);
        proof {
            assert(list.items() =~= seq![value] + self.items());
        }
        list
    }
}

impl<T, U> MapFixedList<T, U> for (T, T, T, T, T, T, T, T, T, T, T) {
    type Output = (U, U, U, U, U, U, U, U, U, U, U);

    fn map_list<F: Fn(T) -> U>(self, f: F) -> (list: (U, U, U, U, U, U, U, U, U, U, U)) {
        proof {
            assert(call_requires(f, (self.items()[0],)));
            assert(call_requires(f, (self.items()[1],)));
            assert(call_requires(f, (self.items()[2],)));
            assert(call_requires(f, (self.items()[3],)));
            assert(call_requires(f, (self.items()[4],)));
            assert(call_requires(f, (self.items()[5],)));
            assert(call_requires(f, (self.items()[6],)));
            assert(call_requires(f, (self.items()[7],)));
            assert(call_requires(f, (self.items()[8],)));
            assert(call_requires(f, (self.items()[9],)));
            assert(call_requires(f, (self.items()[10],)));
        }
        (f(self.0), f(self.1), f(self.2), f(self.3), f(self.4), f(self.5), f(self.6), f(self.7), f(self.8), f(self.9), f(self.10))
    }
}

impl<T, Rhs: FixedList<T>> TupleConcat<T, Rhs> for (T, T, T, T, T, T, T, T, T, T, T) where
    (T, T, T, T, T, T, T, T, T, T): TupleConcat<T, Rhs>,
    <(T, T, T, T, T, T, T, T, T, T) as TupleConcat<T, Rhs>>::Output: TuplePrepend<T>,
 {
    type Output = <<(T, T, T, T, T, T, T, T, T, T) as TupleConcat<T, Rhs>>::Output as TuplePrepend<T>>::Output;

    fn concat(self, rhs: Rhs) -> (list: Self::Output) {
        let ghost all = self.items() + rhs.items();
        let ghost more = rhs.items();
        let rest = (self.1, self.2, self.3, self.4, self.5, self.6, self.7, self.8, self.9, self.10);
        proof {
            assert(all =~= seq![self.0] + (rest.items() + more));
        }
        rest.concat(rhs).prepend(self.0)
    }
}

impl<T> FixedList<T> for (T, T, T, T, T, T, T, T, T, T, T, T) {
    open spec fn items(&self) -> Seq<T> {
        seq![self.0, self.1, self.2, self.3, self.4, self.5, self.6, self.7, self.8, self.9, self.10, self.11]
    }

    fn len(&self) -> (len: usize) {
        12
    }

    fn get(&self, index: usize) -> (item: Option<&T>) {
        match index {
            0 => Some(&self.0),
            1 => Some(&self.1),
            2 => Some(&self.2),
            3 => Some(&self.3),
            4 => Some(&self.4),
            5 => Some(&self.5),
            6 => Some(&self.6),
            7 => Some(&self.7),
            8 => Some(&self.8),
            9 => Some(&self.9),
            10 => Some(&self.10),
            11 => Some(&self.11),
            _ => None,
        }
    }
}

impl<T> TupleAppend<T> for (T, T, T, T, T, T, T, T, T, T, T, T) {
    type Output = (T, T, T, T, T, T, T, T, T, T, T, T, T);

    fn append(self, value: T) -> (list: (T, T, T, T, T, T, T, T, T, T, T, T, T)) {
        let list = (self.0, self.1, self.2, self.3, self.4, self.5, self.6, self.7, self.8, self.9, self.10, self.11, value);
        proof {
            assert(list.items() =~= self.items().push(value));
        }
        list
    }
}

impl<T> TuplePrepend<T> for (T, T, T, T, T, T, T, T, T, T, T, T) {
    type Output = (T, T, T, T, T, T, T, T, T, T, T, T, T);

    fn prepend(self, value: T) -> (list: (T, T, T, T, T, T, T, T, T, T, T, T, T)) {
        let list = (value, self.0, self.1, self.2, self.3, self.4, self.5, self.6, self.7, self.8, self.9, self.10, self.11);
        proof {
            assert(list.items() =~= seq![value] + self.items());
        }
        list
    }
}

impl<T, U> MapFixedList<T, U> for (T, T, T, T, T, T, T, T, T, T, T, T) {
    type Output = (U, U, U, U, U, U, U, U, U, U, U, U);

    fn map_list<F: Fn(T) -> U>(self, f: F) -> (list: (U, U, U, U, U, U, U, U, U, U, U, U)) {
        proof {
            assert(call_requires(f, (self.items()[0],)));
            assert(call_requires(f, (self.items()[1],)));
            assert(call_requires(f, (self.items()[2],)));
            assert(call_requires(f, (self.items()[3],)));
            assert(call_requires(f, (self.items()[4],)));
            assert(call_requires(f, (self.items()[5],)));
            assert(call_requires(f, (self.items()[6],)));
            assert(call_requires(f, (self.items()[7],)));
            assert(call_requires(f, (self.items()[8],)));
            assert(call_requires(f, (self.items()[9],)));
            assert(call_requires(f, (self.items()[10],)));
            assert(call_requires(f, (self.items()[11],)));
        }
        (f(self.0), f(self.1), f(self.2), f(self.3), f(self.4), f(self.5), f(self.6), f(self.7), f(self.8), f(self.9), f(self.10), f(self.11))
    }
}

impl<T, Rhs: FixedList<T>> TupleConcat<T, Rhs> for (T, T, T, T, T, T, T, T, T, T, T, T) where
    (T, T, T, T, T, T, T, T, T, T, T): TupleConcat<T, Rhs>,
    <(T, T, T, T, T, T, T, T, T, T, T) as TupleConcat<T, Rhs>>::Output: TuplePrepend<T>,
 {
    type Output = <<(T, T, T, T, T, T, T, T, T, T, T) as TupleConcat<T, Rhs>>::Output as TuplePrepend<T>>::Output;

    fn concat(self, rhs: Rhs) -> (list: Self::Output) {
        let ghost all = self.items() + rhs.items();
        let ghost more = rhs.items();
        let rest = (self.1, self.2, self.3, self.4, self.5, self.6, self.7, self.8, self.9, self.10, self.11);
        proof {
            assert(all =~= seq![self.0] + (rest.items() + more));
        }
        rest.concat(rhs).prepend(self.0)
    }
}

impl<T> FixedList<T> for (T, T, T, T, T, T, T, T, T, T, T, T, T) {
    open spec fn items(&self) -> Seq<T> {
        seq![self.0, self.1, self.2, self.3, self.4, self.5, self.6, self.7, self.8, self.9, self.10, self.11, self.12]
    }

    fn len(&self) -> (len: usize) {
        13
    }

    fn get(&self, index: usize) -> (item: Option<&T>) {
        match index {
            0 => Some(&self.0),
            1 => Some(&self.1),
            2 => Some(&self.2),
            3 => Some(&self.3),
            4 => Some(&self.4),
            5 => Some(&self.5),
            6 => Some(&self.6),
            7 => Some(&self.7),
            8 => Some(&self.8),
            9 => Some(&self.9),
            10 => Some(&self.10),
            11 => Some(&self.11),
            12 => Some(&self.12),
            _ => None,
        }
    }
}

impl<T> TupleAppend<T> for (T, T, T, T, T, T, T, T, T, T, T, T, T) {
    type Output = (T, T, T, T, T, T, T, T, T, T, T, T, T, T);

    fn append(self, value: T) -> (list: (T, T, T, T, T, T, T, T, T, T, T, T, T, T)) {
        let list = (self.0, self.1, self.2, self.3, self.4, self.5, self.6, self.7, self.8, self.9, self.10, self.11, self.12, value);
        proof {
            assert(list.items() =~= self.items().push(value));
        }
        list
    }
}

impl<T> TuplePrepend<T> for (T, T, T, T, T, T, T, T, T, T, T, T, T) {
    type Output = (T, T, T, T, T, T, T, T, T, T, T, T, T, T);

    fn prepend(self, value: T) -> (list: (T, T, T, T, T, T, T, T, T, T, T, T, T, T)) {
        let list = (value, self.0, self.1, self.2, self.3, self.4, self.5, self.6, self.7, self.8, self.9, self.10, self.11, self.12);
        proof {
            assert(list.items() =~= seq![value] + self.items());
        }
        list
    }
}

impl<T, U> MapFixedList<T, U> for (T, T, T, T, T, T, T, T, T, T, T, T, T) {
    type Output = (U, U, U, U, U, U, U, U, U, U, U, U, U);

    fn map_list<F: Fn(T) -> U>(self, f: F) -> (list: (U, U, U, U, U, U, U, U, U, U, U, U, U)) {
        proof {
            assert(call_requires(f, (self.items()[0],)));
            assert(call_requires(f, (self.items()[1],)));
            assert(call_requires(f, (self.items()[2],)));
            assert(call_requires(f, (self.items()[3],)));
            assert(call_requires(f, (self.items()[4],)));
            assert(call_requires(f, (self.items()[5],)));
            assert(call_requires(f, (self.items()[6],)));
            assert(call_requires(f, (self.items()[7],)));
            assert(call_requires(f, (self.items()[8],)));
            assert(call_requires(f, (self.items()[9],)));
            assert(call_requires(f, (self.items()[10],)));
            assert(call_requires(f, (self.items()[11],)));
            assert(call_requires(f, (self.items()[12],)));
        }
        (f(self.0), f(self.1), f(self.2), f(self.3), f(self.4), f(self.5), f(self.6), f(self.7), f(self.8), f(self.9), f(self.10), f(self.11), f(self.12))
    }
}

impl<T, Rhs: FixedList<T>> TupleConcat<T, Rhs> for (T, T, T, T, T, T, T, T, T, T, T, T, T) where
    (T, T, T, T, T, T, T, T, T, T, T, T): TupleConcat<T, Rhs>,
    <(T, T, T, T, T, T, T, T, T, T, T, T) as TupleConcat<T, Rhs>>::Output: TuplePrepend<T>,
 {
    type Output = <<(T, T, T, T, T, T, T, T, T, T, T, T) as TupleConcat<T, Rhs>>::Output as TuplePrepend<T>>::Output;

    fn concat(self, rhs: Rhs) -> (list: Self::Output) {
        let ghost all = self.items() + rhs.items();
        let ghost more = rhs.items();
        let rest = (self.1, self.2, self.3, self.4, self.5, self.6, self.7, self.8, self.9, self.10, self.11, self.12);
        proof {
            assert(all =~= seq![self.0] + (rest.items() + more));
        }
        rest.concat(rhs).prepend(self.0)
    }
}

impl<T> FixedList<T> for (T, T, T, T, T, T, T, T, T, T, T, T, T, T) {
    open spec fn items(&self) -> Seq<T> {
        seq![self.0, self.1, self.2, self.3, self.4, self.5, self.6, self.7, self.8, self.9, self.10, self.11, self.12, self.13]
    }

    fn len(&self) -> (len: usize) {
        14
    }

    fn get(&self, index: usize) -> (item: Option<&T>) {
        match index {
            0 => Some(&self.0),
            1 => Some(&self.1),
            2 => Some(&self.2),
            3 => Some(&self.3),
            4 => Some(&self.4),
            5 => Some(&self.5),
            6 => Some(&self.6),
            7 => Some(&self.7),
            8 => Some(&self.8),
            9 => Some(&self.9),
            10 => Some(&self.10),
            11 => Some(&self.11),
            12 => Some(&self.12),
            13 => Some(&self.13),
            _ => None,
        }
    }
}

impl<T> TupleAppend<T> for (T, T, T, T, T, T, T, T, T, T, T, T, T, T) {
    type Output = (T, T, T, T, T, T, T, T, T, T, T, T, T, T, T);

    fn append(self, value: T) -> (list: (T, T, T, T, T, T, T, T, T, T, T, T, T, T, T)) {
        let list = (self.0, self.1, self.2, self.3, self.4, self.5, self.6, self.7, self.8, self.9, self.10, self.11, self.12, self.13, value);
        proof {
            assert(list.items() =~= self.items().push(value));
        }
        list
    }
}

impl<T> TuplePrepend<T> for (T, T, T, T, T, T, T, T, T, T, T, T, T, T) {
    type Output = (T, T, T, T, T, T, T, T, T, T, T, T, T, T, T);

    fn prepend(self, value: T) -> (list: (T, T, T, T, T, T, T, T, T, T, T, T, T, T, T)) {
        let list = (value, self.0, self.1, self.2, self.3, self.4, self.5, self.6, self.7, self.8, self.9, self.10, self.11, self.12, self.13);
        proof {
            assert(list.items() =~= seq![value] + self.items());
        }
        list
    }
}

impl<T, U> MapFixedList<T, U> for (T, T, T, T, T, T, T, T, T, T, T, T, T, T) {
    type Output = (U, U, U, U, U, U, U, U, U, U, U, U, U, U);

    fn map_list<F: Fn(T) -> U>(self, f: F) -> (list: (U, U, U, U, U, U, U, U, U, U, U, U, U, U)) {
        proof {
            assert(call_requires(f, (self.items()[0],)));
            assert(call_requires(f, (self.items()[1],)));
            assert(call_requires(f, (self.items()[2],)));
            assert(call_requires(f, (self.items()[3],)));
            assert(call_requires(f, (self.items()[4],)));
            assert(call_requires(f, (self.items()[5],)));
            assert(call_requires(f, (self.items()[6],)));
            assert(call_requires(f, (self.items()[7],)));
            assert(call_requires(f, (self.items()[8],)));
            assert(call_requires(f, (self.items()[9],)));
            assert(call_requires(f, (self.items()[10],)));
            assert(call_requires(f, (self.items()[11],)));
            assert(call_requires(f, (self.items()[12],)));
            assert(call_requires(f, (self.items()[13],)));
        }
        (f(self.0), f(self.1), f(self.2), f(self.3), f(self.4), f(self.5), f(self.6), f(self.7), f(self.8), f(self.9), f(self.10), f(self.11), f(self.12), f(self.13))
    }
}

impl<T, Rhs: FixedList<T>> TupleConcat<T, Rhs> for (T, T, T, T, T, T, T, T, T, T, T, T, T, T) where
    (T, T, T, T, T, T, T, T, T, T, T, T, T): TupleConcat<T, Rhs>,
    <(T, T, T, T, T, T, T, T, T, T, T, T, T) as TupleConcat<T, Rhs>>::Output: TuplePrepend<T>,
 {
    type Output = <<(T, T, T, T, T, T, T, T, T, T, T, T, T) as TupleConcat<T, Rhs>>::Output as TuplePrepend<T>>::Output;

    fn concat(self, rhs: Rhs) -> (list: Self::Output) {
        let ghost all = self.items() + rhs.items();
        let ghost more = rhs.items();
        let rest = (self.1, self.2, self.3, self.4, self.5, self.6, self.7, self.8, self.9, self.10, self.11, self.12, self.13);
        proof {
            assert(all =~= seq![self.0] + (rest.items() + more));
        }
        rest.concat(rhs).prepend(self.0)
    }
}

impl<T> FixedList<T> for (T, T, T, T, T, T, T, T, T, T, T, T, T, T, T) {
    open spec fn items(&self) -> Seq<T> {
        seq![self.0, self.1, self.2, self.3, self.4, self.5, self.6, self.7, self.8, self.9, self.10, self.11, self.12, self.13, self.14]
    }

    fn len(&self) -> (len: usize) {
        15
    }

    fn get(&self, index: usize) -> (item: Option<&T>) {
        match index {
            0 => Some(&self.0),
            1 => Some(&self.1),
            2 => Some(&self.2),
            3 => Some(&self.3),
            4 => Some(&self.4),
            5 => Some(&self.5),
            6 => Some(&self.6),
            7 => Some(&self.7),
            8 => Some(&self.8),
            9 => Some(&self.9),
            10 => Some(&self.10),
            11 => Some(&self.11),
            12 => Some(&self.12),
            13 => Some(&self.13),
            14 => Some(&self.14),
            _ => None,
        }
    }
}

impl<T> TupleAppend<T> for (T, T, T, T, T, T, T, T, T, T, T, T, T, T, T) {
    type Output = (T, T, T, T, T, T, T, T, T, T, T, T, T, T, T, T);

    fn append(self, value: T) -> (list: (T, T, T, T, T, T, T, T, T, T, T, T, T, T, T, T)) {
        let list = (self.0, self.1, self.2, self.3, self.4, self.5, self.6, self.7, self.8, self.9, self.10, self.11, self.12, self.13, self.14, value);
        proof {
            assert(list.items() =~= self.items().push(value));
        }
        list
    }
}

impl<T> TuplePrepend<T> for (T, T, T, T, T, T, T, T, T, T, T, T, T, T, T) {
    type Output = (T, T, T, T, T, T, T, T, T, T, T, T, T, T, T, T);

    fn prepend(self, value: T) -> (list: (T, T, T, T, T, T, T, T, T, T, T, T, T, T, T, T)) {
        let list = (value, self.0, self.1, self.2, self.3, self.4, self.5, self.6, self.7, self.8, self.9, self.10, self.11, self.12, self.13, self.14);
        proof {
            assert(list.items() =~= seq![value] + self.items());
        }
        list
    }
}

impl<T, U> MapFixedList<T, U> for (T, T, T, T, T, T, T, T, T, T, T, T, T, T, T) {
    type Output = (U, U, U, U, U, U, U, U, U, U, U, U, U, U, U);

    fn map_list<F: Fn(T) -> U>(self, f: F) -> (list: (U, U, U, U, U, U, U, U, U, U, U, U, U, U, U)) {
        proof {
            assert(call_requires(f, (self.items()[0],)));
            assert(call_requires(f, (self.items()[1],)));
            assert(call_requires(f, (self.items()[2],)));
            assert(call_requires(f, (self.items()[3],)));
            assert(call_requires(f, (self.items()[4],)));
            assert(call_requires(f, (self.items()[5],)));
            assert(call_requires(f, (self.items()[6],)));
            assert(call_requires(f, (self.items()[7],)));
            assert(call_requires(f, (self.items()[8],)));
            assert(call_requires(f, (self.items()[9],)));
            assert(call_requires(f, (self.items()[10],)));
            assert(call_requires(f, (self.items()[11],)));
            assert(call_requires(f, (self.items()[12],)));
            assert(call_requires(f, (self.items()[13],)));
            assert(call_requires(f, (self.items()[14],)));
        }
        (f(self.0), f(self.1), f(self.2), f(self.3), f(self.4), f(self.5), f(self.6), f(self.7), f(self.8), f(self.9), f(self.10), f(self.11), f(self.12), f(self.13), f(self.14))
    }
}

impl<T, Rhs: FixedList<T>> TupleConcat<T, Rhs> for (T, T, T, T, T, T, T, T, T, T, T, T, T, T, T) where
    (T, T, T, T, T, T, T, T, T, T, T, T, T, T): TupleConcat<T, Rhs>,
    <(T, T, T, T, T, T, T, T, T, T, T, T, T, T) as TupleConcat<T, Rhs>>::Output: TuplePrepend<T>,
 {
    type Output = <<(T, T, T, T, T, T, T, T, T, T, T, T, T, T) as TupleConcat<T, Rhs>>::Output as TuplePrepend<T>>::Output;

    fn concat(self, rhs: Rhs) -> (list: Self::Output) {
        let ghost all = self.items() + rhs.items();
        let ghost more = rhs.items();
        let rest = (self.1, self.2, self.3, self.4, self.5, self.6, self.7, self.8, self.9, self.10, self.11, self.12, self.13, self.14);
        proof {
            assert(all =~= seq![self.0] + (rest.items() + more));
        }
        rest.concat(rhs).prepend(self.0)
    }
}

impl<T> FixedList<T> for (T, T, T, T, T, T, T, T, T, T, T, T, T, T, T, T) {
    open spec fn items(&self) -> Seq<T> {
        seq![self.0, self.1, self.2, self.3, self.4, self.5, self.6, self.7, self.8, self.9, self.10, self.11, self.12, self.13, self.14, self.15]
    }

    fn len(&self) -> (len: usize) {
        16
    }

    fn get(&self, index: usize) -> (item: Option<&T>) {
        match index {
            0 => Some(&self.0),
            1 => Some(&self.1),
            2 => Some(&self.2),
            3 => Some(&self.3),
            4 => Some(&self.4),
            5 => Some(&self.5),
            6 => Some(&self.6),
            7 => Some(&self.7),
            8 => Some(&self.8),
            9 => Some(&self.9),
            10 => Some(&self.10),
            11 => Some(&self.11),
            12 => Some(&self.12),
            13 => Some(&self.13),
            14 => Some(&self.14),
            15 => Some(&self.15),
            _ => None,
        }
    }
}

impl<T> TupleAppend<T> for (T, T, T, T, T, T, T, T, T, T, T, T, T, T, T, T) {
    type Output = (T, T, T, T, T, T, T, T, T, T, T, T, T, T, T, T, T);

    fn append(self, value: T) -> (list: (T, T, T, T, T, T, T, T, T, T, T, T, T, T, T, T, T)) {
        let list = (self.0, self.1, self.2, self.3, self.4, self.5, self.6, self.7, self.8, self.9, self.10, self.11, self.12, self.13, self.14, self.15, value);
        proof {
            assert(list.items() =~= self.items().push(value));
        }
        list
    }
}

impl<T> TuplePrepend<T> for (T, T, T, T, T, T, T, T, T, T, T, T, T, T, T, T) {
    type Output = (T, T, T, T, T, T, T, T, T, T, T, T, T, T, T, T, T);

    fn prepend(self, value: T) -> (list: (T, T, T, T, T, T, T, T, T, T, T, T, T, T, T, T, T)) {
        let list = (value, self.0, self.1, self.2, self.3, self.4, self.5, self.6, self.7, self.8, self.9, self.10, self.11, self.12, self.13, self.14, self.15);
        proof {
            assert(list.items() =~= seq![value] + self.items());
        }
        list
    }
}

impl<T, U> MapFixedList<T, U> for (T, T, T, T, T, T, T, T, T, T, T, T, T, T, T, T) {
    type Output = (U, U, U, U, U, U, U, U, U, U, U, U, U, U, U, U);

    fn map_list<F: Fn(T) -> U>(self, f: F) -> (list: (U, U, U, U, U, U, U, U, U, U, U, U, U, U, U, U)) {
        proof {
            assert(call_requires(f, (self.items()[0],)));
            assert(call_requires(f, (self.items()[1],)));
            assert(call_requires(f, (self.items()[2],)));
            assert(call_requires(f, (self.items()[3],)));
            assert(call_requires(f, (self.items()[4],)));
            assert(call_requires(f, (self.items()[5],)));
            assert(call_requires(f, (self.items()[6],)));
            assert(call_requires(f, (self.items()[7],)));
            assert(call_requires(f, (self.items()[8],)));
            assert(call_requires(f, (self.items()[9],)));
            assert(call_requires(f, (self.items()[10],)));
            assert(call_requires(f, (self.items()[11],)));
            assert(call_requires(f, (self.items()[12],)));
            assert(call_requires(f, (self.items()[13],)));
            assert(call_requires(f, (self.items()[14],)));
            assert(call_requires(f, (self.items()[15],)));
        }
        (f(self.0), f(self.1), f(self.2), f(self.3), f(self.4), f(self.5), f(self.6), f(self.7), f(self.8), f(self.9), f(self.10), f(self.11), f(self.12), f(self.13), f(self.14), f(self.15))
    }
}

impl<T, Rhs: FixedList<T>> TupleConcat<T, Rhs> for (T, T, T, T, T, T, T, T, T, T, T, T, T, T, T, T) where
    (T, T, T, T, T, T, T, T, T, T, T, T, T, T, T): TupleConcat<T, Rhs>,
    <(T, T, T, T, T, T, T, T, T, T, T, T, T, T, T) as TupleConcat<T, Rhs>>::Output: TuplePrepend<T>,
 {
    type Output = <<(T, T, T, T, T, T, T, T, T, T, T, T, T, T, T) as TupleConcat<T, Rhs>>::Output as TuplePrepend<T>>::Output;

    fn concat(self, rhs: Rhs) -> (list: Self::Output) {
        let ghost all = self.items() + rhs.items();
        let ghost more = rhs.items();
        let rest = (self.1, self.2, self.3, self.4, self.5, self.6, self.7, self.8, self.9, self.10, self.11, self.12, self.13, self.14, self.15);
        proof {
            assert(all =~= seq![self.0] + (rest.items() + more));
        }
        rest.concat(rhs).prepend(self.0)
    }
}

impl<T> FixedList<T> for (T, T, T, T, T, T, T, T, T, T, T, T, T, T, T, T, T) {
    open spec fn items(&self) -> Seq<T> {
        seq![self.0, self.1, self.2, self.3, self.4, self.5, self.6, self.7, self.8, self.9, self.10, self.11, self.12, self.13, self.14, self.15, self.16]
    }

    fn len(&self) -> (len: usize) {
        17
    }

    fn get(&self, index: usize) -> (item: Option<&T>) {
        match index {
            0 => Some(&self.0),
            1 => Some(&self.1),
            2 => Some(&self.2),
            3 => Some(&self.3),
            4 => Some(&self.4),
            5 => Some(&self.5),
            6 => Some(&self.6),
            7 => Some(&self.7),
            8 => Some(&self.8),
            9 => Some(&self.9),
            10 => Some(&self.10),
            11 => Some(&self.11),
            12 => Some(&self.12),
            13 => Some(&self.13),
            14 => Some(&self.14),
            15 => Some(&self.15),
            16 => Some(&self.16),
            _ => None,
        }
    }
}

impl<T> TupleAppend<T> for (T, T, T, T, T, T, T, T, T, T, T, T, T, T, T, T, T) {
    type Output = (T, T, T, T, T, T, T, T, T, T, T, T, T, T, T, T, T, T);

    fn append(self, value: T) -> (list: (T, T, T, T, T, T, T, T, T, T, T, T, T, T, T, T, T, T)) {
        let list = (self.0, self.1, self.2, self.3, self.4, self.5, self.6, self.7, self.8, self.9, self.10, self.11, self.12, self.13, self.14, self.15, self.16, value);
        proof {
            assert(list.items() =~= self.items().push(value));
        }
        list
    }
}

impl<T> TuplePrepend<T> for (T, T, T, T, T, T, T, T, T, T, T, T, T, T, T, T, T) {
    type Output = (T, T, T, T, T, T, T, T, T, T, T, T, T, T, T, T, T, T);

    fn prepend(self, value: T) -> (list: (T, T, T, T, T, T, T, T, T, T, T, T, T, T, T, T, T, T)) {
        let list = (value, self.0, self.1, self.2, self.3, self.4, self.5, self.6, self.7, self.8, self.9, self.10, self.11, self.12, self.13, self.14, self.15, self.16);
        proof {
            assert(list.items() =~= seq![value] + self.items());
        }
        list
    }
}

impl<T, U> MapFixedList<T, U> for (T, T, T, T, T, T, T, T, T, T, T, T, T, T, T, T, T) {
    type Output = (U, U, U, U, U, U, U, U, U, U, U, U, U, U, U, U, U);

    fn map_list<F: Fn(T) -> U>(self, f: F) -> (list: (U, U, U, U, U, U, U, U, U, U, U, U, U, U, U, U, U)) {
        proof {
            assert(call_requires(f, (self.items()[0],)));
            assert(call_requires(f, (self.items()[1],)));
            assert(call_requires(f, (self.items()[2],)));
            assert(call_requires(f, (self.items()[3],)));
            assert(call_requires(f, (self.items()[4],)));
            assert(call_requires(f, (self.items()[5],)));
            assert(call_requires(f, (self.items()[6],)));
            assert(call_requires(f, (self.items()[7],)));
            assert(call_requires(f, (self.items()[8],)));
            assert(call_requires(f, (self.items()[9],)));
            assert(call_requires(f, (self.items()[10],)));
            assert(call_requires(f, (self.items()[11],)));
            assert(call_requires(f, (self.items()[12],)));
            assert(call_requires(f, (self.items()[13],)));
            assert(call_requires(f, (self.items()[14],)));
            assert(call_requires(f, (self.items()[15],)));
            assert(call_requires(f, (self.items()[16],)));
        }
        (f(self.0), f(self.1), f(self.2), f(self.3), f(self.4), f(self.5), f(self.6), f(self.7), f(self.8), f(self.9), f(self.10), f(self.11), f(self.12), f(self.13), f(self.14), f(self.15), f(self.16))
    }
}

impl<T, Rhs: FixedList<T>> TupleConcat<T, Rhs> for (T, T, T, T, T, T, T, T, T, T, T, T, T, T, T, T, T) where
    (T, T, T, T, T, T, T, T, T, T, T, T, T, T, T, T): TupleConcat<T, Rhs>,
    <(T, T, T, T, T, T, T, T, T, T, T, T, T, T, T, T) as TupleConcat<T, Rhs>>::Output: TuplePrepend<T>,
 {
    type Output = <<(T, T, T, T, T, T, T, T, T, T, T, T, T, T, T, T) as TupleConcat<T, Rhs>>::Output as TuplePrepend<T>>::Output;

    fn concat(self, rhs: Rhs) -> (list: Self::Output) {
        let ghost all = self.items() + rhs.items();
        let ghost more = rhs.items();
        let rest = (self.1, self.2, self.3, self.4, self.5, self.6, self.7, self.8, self.9, self.10, self.11, self.12, self.13, self.14, self.15, self.16);
        proof {
            assert(all =~= seq![self.0] + (rest.items() + more));
        }
        rest.concat(rhs).prepend(self.0)
    }
}

impl<T> FixedList<T> for (T, T, T, T, T, T, T, T, T, T, T, T, T, T, T, T, T, T) {
    open spec fn items(&self) -> Seq<T> {
        seq![self.0, self.1, self.2, self.3, self.4, self.5, self.6, self.7, self.8, self.9, self.10, self.11, self.12, self.13, self.14, self.15, self.16, self.17]
    }

    fn len(&self) -> (len: usize) {
        18
    }

    fn get(&self, index: usize) -> (item: Option<&T>) {
        match index {
            0 => Some(&self.0),
            1 => Some(&self.1),
            2 => Some(&self.2),
            3 => Some(&self.3),
            4 => Some(&self.4),
            5 => Some(&self.5),
            6 => Some(&self.6),
            7 => Some(&self.7),
            8 => Some(&self.8),
            9 => Some(&self.9),
            10 => Some(&self.10),
            11 => Some(&self.11),
            12 => Some(&self.12),
            13 => Some(&self.13),
            14 => Some(&self.14),
            15 => Some(&self.15),
            16 => Some(&self.16),
            17 => Some(&self.17),
            _ => None,
        }
    }
}

impl<T> TupleAppend<T> for (T, T, T, T, T, T, T, T, T, T, T, T, T, T, T, T, T, T) {
    type Output = (T, T, T, T, T, T, T, T, T, T, T, T, T, T, T, T, T, T, T);

    fn append(self, value: T) -> (list: (T, T, T, T, T, T, T, T, T, T, T, T, T, T, T, T, T, T, T)) {
        let list = (self.0, self.1, self.2, self.3, self.4, self.5, self.6, self.7, self.8, self.9, self.10, self.11, self.12, self.13, self.14, self.15, self.16, self.17, value);
        proof {
            assert(list.items() =~= self.items().push(value));
        }
        list
    }
}

impl<T> TuplePrepend<T> for (T, T, T, T, T, T, T, T, T, T, T, T, T, T, T, T, T, T) {
    type Output = (T, T, T, T, T, T, T, T, T, T, T, T, T, T, T, T, T, T, T);

    fn prepend(self, value: T) -> (list: (T, T, T, T, T, T, T, T, T, T, T, T, T, T, T, T, T, T, T)) {
        let list = (value, self.0, self.1, self.2, self.3, self.4, self.5, self.6, self.7, self.8, self.9, self.10, self.11, self.12, self.13, self.14, self.15, self.16, self.17);
        proof {
            assert(list.items() =~= seq![value] + self.items());
        }
        list
    }
}

impl<T, U> MapFixedList<T, U> for (T, T, T, T, T, T, T, T, T, T, T, T, T, T, T, T, T, T) {
    type Output = (U, U, U, U, U, U, U, U, U, U, U, U, U, U, U, U, U, U);

    fn map_list<F: Fn(T) -> U>(self, f: F) -> (list: (U, U, U, U, U, U, U, U, U, U, U, U, U, U, U, U, U, U)) {
        proof {
            assert(call_requires(f, (self.items()[0],)));
            assert(call_requires(f, (self.items()[1],)));
            assert(call_requires(f, (self.items()[2],)));
            assert(call_requires(f, (self.items()[3],)));
            assert(call_requires(f, (self.items()[4],)));
            assert(call_requires(f, (self.items()[5],)));
            assert(call_requires(f, (self.items()[6],)));
            assert(call_requires(f, (self.items()[7],)));
            assert(call_requires(f, (self.items()[8],)));
            assert(call_requires(f, (self.items()[9],)));
            assert(call_requires(f, (self.items()[10],)));
            assert(call_requires(f, (self.items()[11],)));
            assert(call_requires(f, (self.items()[12],)));
            assert(call_requires(f, (self.items()[13],)));
            assert(call_requires(f, (self.items()[14],)));
            assert(call_requires(f, (self.items()[15],)));
            assert(call_requires(f, (self.items()[16],)));
            assert(call_requires(f, (self.items()[17],)));
        }
        (f(self.0), f(self.1), f(self.2), f(self.3), f(self.4), f(self.5), f(self.6), f(self.7), f(self.8), f(self.9), f(self.10), f(self.11), f(self.12), f(self.13), f(self.14), f(self.15), f(self.16), f(self.17))
    }
}

impl<T, Rhs: FixedList<T>> TupleConcat<T, Rhs> for (T, T, T, T, T, T, T, T, T, T, T, T, T, T, T, T, T, T) where
    (T, T, T, T, T, T, T, T, T, T, T, T, T, T, T, T, T): TupleConcat<T, Rhs>,
    <(T, T, T, T, T, T, T, T, T, T, T, T, T, T, T, T, T) as TupleConcat<T, Rhs>>::Output: TuplePrepend<T>,
 {
    type Output = <<(T, T, T, T, T, T, T, T, T, T, T, T, T, T, T, T, T) as TupleConcat<T, Rhs>>::Output as TuplePrepend<T>>::Output;

    fn concat(self, rhs: Rhs) -> (list: Self::Output) {
        let ghost all = self.items() + rhs.items();
        let ghost more = rhs.items();
        let rest = (self.1, self.2, self.3, self.4, self.5, self.6, self.7, self.8, self.9, self.10, self.11, self.12, self.13, self.14, self.15, self.16, self.17);
        proof {
            assert(all =~= seq![self.0] + (rest.items() + more));
        }
        rest.concat(rhs).prepend(self.0)
    }
}

impl<T> FixedList<T> for (T, T, T, T, T, T, T, T, T, T, T, T, T, T, T, T, T, T, T) {
    open spec fn items(&self) -> Seq<T> {
        seq![self.0, self.1, self.2, self.3, self.4, self.5, self.6, self.7, self.8, self.9, self.10, self.11, self.12, self.13, self.14, self.15, self.16, self.17, self.18]
    }

    fn len(&self) -> (len: usize) {
        19
    }

    fn get(&self, index: usize) -> (item: Option<&T>) {
        match index {
            0 => Some(&self.0),
            1 => Some(&self.1),
            2 => Some(&self.2),
            3 => Some(&self.3),
            4 => Some(&self.4),
            5 => Some(&self.5),
            6 => Some(&self.6),
            7 => Some(&self.7),
            8 => Some(&self.8),
            9 => Some(&self.9),
            10 => Some(&self.10),
            11 => Some(&self.11),
            12 => Some(&self.12),
            13 => Some(&self.13),
            14 => Some(&self.14),
            15 => Some(&self.15),
            16 => Some(&self.16),
            17 => Some(&self.17),
            18 => Some(&self.18),
            _ => None,
        }
    }
}

impl<T> TupleAppend<T> for (T, T, T, T, T, T, T, T, T, T, T, T, T, T, T, T, T, T, T) {
    type Output = (T, T, T, T, T, T, T, T, T, T, T, T, T, T, T, T, T, T, T, T);

    fn append(self, value: T) -> (list: (T, T, T, T, T, T, T, T, T, T, T, T, T, T, T, T, T, T, T, T)) {
        let list = (self.0, self.1, self.2, self.3, self.4, self.5, self.6, self.7, self.8, self.9, self.10, self.11, self.12, self.13, self.14, self.15, self.16, self.17, self.18, value);
        proof {
            assert(list.items() =~= self.items().push(value));
        }
        list
    }
}

impl<T> TuplePrepend<T> for (T, T, T, T, T, T, T, T, T, T, T, T, T, T, T, T, T, T, T) {
    type Output = (T, T, T, T, T, T, T, T, T, T, T, T, T, T, T, T, T, T, T, T);

    fn prepend(self, value: T) -> (list: (T, T, T, T, T, T, T, T, T, T, T, T, T, T, T, T, T, T, T, T)) {
        let list = (value, self.0, self.1, self.2, self.3, self.4, self.5, self.6, self.7, self.8, self.9, self.10, self.11, self.12, self.13, self.14, self.15, self.16, self.17, self.18);
        proof {
            assert(list.items() =~= seq![value] + self.items());
        }
        list
    }
}

impl<T, U> MapFixedList<T, U> for (T, T, T, T, T, T, T, T, T, T, T, T, T, T, T, T, T, T, T) {
    type Output = (U, U, U, U, U, U, U, U, U, U, U, U, U, U, U, U, U, U, U);

    fn map_list<F: Fn(T) -> U>(self, f: F) -> (list: (U, U, U, U, U, U, U, U, U, U, U, U, U, U, U, U, U, U, U)) {
        proof {
            assert(call_requires(f, (self.items()[0],)));
            assert(call_requires(f, (self.items()[1],)));
            assert(call_requires(f, (self.items()[2],)));
            assert(call_requires(f, (self.items()[3],)));
            assert(call_requires(f, (self.items()[4],)));
            assert(call_requires(f, (self.items()[5],)));
            assert(call_requires(f, (self.items()[6],)));
            assert(call_requires(f, (self.items()[7],)));
            assert(call_requires(f, (self.items()[8],)));
            assert(call_requires(f, (self.items()[9],)));
            assert(call_requires(f, (self.items()[10],)));
            assert(call_requires(f, (self.items()[11],)));
            assert(call_requires(f, (self.items()[12],)));
            assert(call_requires(f, (self.items()[13],)));
            assert(call_requires(f, (self.items()[14],)));
            assert(call_requires(f, (self.items()[15],)));
            assert(call_requires(f, (self.items()[16],)));
            assert(call_requires(f, (self.items()[17],)));
            assert(call_requires(f, (self.items()[18],)));
        }
        (f(self.0), f(self.1), f(self.2), f(self.3), f(self.4), f(self.5), f(self.6), f(self.7), f(self.8), f(self.9), f(self.10), f(self.11), f(self.12), f(self.13), f(self.14), f(self.15), f(self.16), f(self.17), f(self.18))
    }
}

impl<T, Rhs: FixedList<T>> TupleConcat<T, Rhs> for (T, T, T, T, T, T, T, T, T, T, T, T, T, T, T, T, T, T, T) where
    (T, T, T, T, T, T, T, T, T, T, T, T, T, T, T, T, T, T): TupleConcat<T, Rhs>,
    <(T, T, T, T, T, T, T, T, T, T, T, T, T, T, T, T, T, T) as TupleConcat<T, Rhs>>::Output: TuplePrepend<T>,
 {
    type Output = <<(T, T, T, T, T, T, T, T, T, T, T, T, T, T, T, T, T, T) as TupleConcat<T, Rhs>>::Output as TuplePrepend<T>>::Output;

    fn concat(self, rhs: Rhs) -> (list: Self::Output) {
        let ghost all = self.items() + rhs.items();
        let ghost more = rhs.items();
        let rest = (self.1, self.2, self.3, self.4, self.5, self.6, self.7, self.8, self.9, self.10, self.11, self.12, self.13, self.14, self.15, self.16, self.17, self.18);
        proof {
            assert(all =~= seq![self.0] + (rest.items() + more));
        }
        rest.concat(rhs).prepend(self.0)
    }
}

impl<T> FixedList<T> for (T, T, T, T, T, T, T, T, T, T, T, T, T, T, T, T, T, T, T, T) {
    open spec fn items(&self) -> Seq<T> {
        seq![self.0, self.1, self.2, self.3, self.4, self.5, self.6, self.7, self.8, self.9, self.10, self.11, self.12, self.13, self.14, self.15, self.16, self.17, self.18, self.19]
    }

    fn len(&self) -> (len: usize) {
        20
    }

    fn get(&self, index: usize) -> (item: Option<&T>) {
        match index {
            0 => Some(&self.0),
            1 => Some(&self.1),
            2 => Some(&self.2),
            3 => Some(&self.3),
            4 => Some(&self.4),
            5 => Some(&self.5),
            6 => Some(&self.6),
            7 => Some(&self.7),
            8 => Some(&self.8),
            9 => Some(&self.9),
            10 => Some(&self.10),
            11 => Some(&self.11),
            12 => Some(&self.12),
            13 => Some(&self.13),
            14 => Some(&self.14),
            15 => Some(&self.15),
            16 => Some(&self.16),
            17 => Some(&self.17),
            18 => Some(&self.18),
            19 => Some(&self.19),
            _ => None,
        }
    }
}

impl<T> TupleAppend<T> for (T, T, T, T, T, T, T, T, T, T, T, T, T, T, T, T, T, T, T, T) {
    type Output = (T, T, T, T, T, T, T, T, T, T, T, T, T, T, T, T, T, T, T, T, T);

    fn append(self, value: T) -> (list: (T, T, T, T, T, T, T, T, T, T, T, T, T, T, T, T, T, T, T, T, T)) {
        let list = (self.0, self.1, self.2, self.3, self.4, self.5, self.6, self.7, self.8, self.9, self.10, self.11, self.12, self.13, self.14, self.15, self.16, self.17, self.18, self.19, value);
        proof {
            assert(list.items() =~= self.items().push(value));
        }
        list
    }
}

impl<T> TuplePrepend<T> for (T, T, T, T, T, T, T, T, T, T, T, T, T, T, T, T, T, T, T, T) {
    type Output = (T, T, T, T, T, T, T, T, T, T, T, T, T, T, T, T, T, T, T, T, T);

    fn prepend(self, value: T) -> (list: (T, T, T, T, T, T, T, T, T, T, T, T, T, T, T, T, T, T, T, T, T)) {
        let list = (value, self.0, self.1, self.2, self.3, self.4, self.5, self.6, self.7, self.8, self.9, self.10, self.11, self.12, self.13, self.14, self.15, self.16, self.17, self.18, self.19);
        proof {
            assert(list.items() =~= seq![value] + self.items());
        }
        list
    }
}

impl<T, U> MapFixedList<T, U> for (T, T, T, T, T, T, T, T, T, T, T, T, T, T, T, T, T, T, T, T) {
    type Output = (U, U, U, U, U, U, U, U, U, U, U, U, U, U, U, U, U, U, U, U);

    fn map_list<F: Fn(T) -> U>(self, f: F) -> (list: (U, U, U, U, U, U, U, U, U, U, U, U, U, U, U, U, U, U, U, U)) {
        proof {
            assert(call_requires(f, (self.items()[0],)));
            assert(call_requires(f, (self.items()[1],)));
            assert(call_requires(f, (self.items()[2],)));
            assert(call_requires(f, (self.items()[3],)));
            assert(call_requires(f, (self.items()[4],)));
            assert(call_requires(f, (self.items()[5],)));
            assert(call_requires(f, (self.items()[6],)));
            assert(call_requires(f, (self.items()[7],)));
            assert(call_requires(f, (self.items()[8],)));
            assert(call_requires(f, (self.items()[9],)));
            assert(call_requires(f, (self.items()[10],)));
            assert(call_requires(f, (self.items()[11],)));
            assert(call_requires(f, (self.items()[12],)));
            assert(call_requires(f, (self.items()[13],)));
            assert(call_requires(f, (self.items()[14],)));
            assert(call_requires(f, (self.items()[15],)));
            assert(call_requires(f, (self.items()[16],)));
            assert(call_requires(f, (self.items()[17],)));
            assert(call_requires(f, (self.items()[18],)));
            assert(call_requires(f, (self.items()[19],)));
        }
        (f(self.0), f(self.1), f(self.2), f(self.3), f(self.4), f(self.5), f(self.6), f(self.7), f(self.8), f(self.9), f(self.10), f(self.11), f(self.12), f(self.13), f(self.14), f(self.15), f(self.16), f(self.17), f(self.18), f(self.19))
    }
}

impl<T, Rhs: FixedList<T>> TupleConcat<T, Rhs> for (T, T, T, T, T, T, T, T, T, T, T, T, T, T, T, T, T, T, T, T) where
    (T, T, T, T, T, T, T, T, T, T, T, T, T, T, T, T, T, T, T): TupleConcat<T, Rhs>,
    <(T, T, T, T, T, T, T, T, T, T, T, T, T, T, T, T, T, T, T) as TupleConcat<T, Rhs>>::Output: TuplePrepend<T>,
 {
    type Output = <<(T, T, T, T, T, T, T, T, T, T, T, T, T, T, T, T, T, T, T) as TupleConcat<T, Rhs>>::Output as TuplePrepend<T>>::Output;

    fn concat(self, rhs: Rhs) -> (list: Self::Output) {
        let ghost all = self.items() + rhs.items();
        let ghost more = rhs.items();
        let rest = (self.1, self.2, self.3, self.4, self.5, self.6, self.7, self.8, self.9, self.10, self.11, self.12, self.13, self.14, self.15, self.16, self.17, self.18, self.19);
        proof {
            assert(all =~= seq![self.0] + (rest.items() + more));
        }
        rest.concat(rhs).prepend(self.0)
    }
}

impl<T> FixedList<T> for (T, T, T, T, T, T, T, T, T, T, T, T, T, T, T, T, T, T, T, T, T) {
    open spec fn items(&self) -> Seq<T> {
        seq![self.0, self.1, self.2, self.3, self.4, self.5, self.6, self.7, self.8, self.9, self.10, self.11, self.12, self.13, self.14, self.15, self.16, self.17, self.18, self.19, self.20]
    }

    fn len(&self) -> (len: usize) {
        21
    }

    fn get(&self, index: usize) -> (item: Option<&T>) {
        match index {
            0 => Some(&self.0),
            1 => Some(&self.1),
            2 => Some(&self.2),
            3 => Some(&self.3),
            4 => Some(&self.4),
            5 => Some(&self.5),
            6 => Some(&self.6),
            7 => Some(&self.7),
            8 => Some(&self.8),
            9 => Some(&self.9),
            10 => Some(&self.10),
            11 => Some(&self.11),
            12 => Some(&self.12),
            13 => Some(&self.13),
            14 => Some(&self.14),
            15 => Some(&self.15),
            16 => Some(&self.16),
            17 => Some(&self.17),
            18 => Some(&self.18),
            19 => Some(&self.19),
            20 => Some(&self.20),
            _ => None,
        }
    }
}

impl<T> TupleAppend<T> for (T, T, T, T, T, T, T, T, T, T, T, T, T, T, T, T, T, T, T, T, T) {
    type Output = (T, T, T, T, T, T, T, T, T, T, T, T, T, T, T, T, T, T, T, T, T, T);

    fn append(self, value: T) -> (list: (T, T, T, T, T, T, T, T, T, T, T, T, T, T, T, T, T, T, T, T, T, T)) {
        let list = (self.0, self.1, self.2, self.3, self.4, self.5, self.6, self.7, self.8, self.9, self.10, self.11, self.12, self.13, self.14, self.15, self.16, self.17, self.18, self.19, self.20, value);
        proof {
            assert(list.items() =~= self.items().push(value));
        }
        list
    }
}

impl<T> TuplePrepend<T> for (T, T, T, T, T, T, T, T, T, T, T, T, T, T, T, T, T, T, T, T, T) {
    type Output = (T, T, T, T, T, T, T, T, T, T, T, T, T, T, T, T, T, T, T, T, T, T);

    fn prepend(self, value: T) -> (list: (T, T, T, T, T, T, T, T, T, T, T, T, T, T, T, T, T, T, T, T, T, T)) {
        let list = (value, self.0, self.1, self.2, self.3, self.4, self.5, self.6, self.7, self.8, self.9, self.10, self.11, self.12, self.13, self.14, self.15, self.16, self.17, self.18, self.19, self.20);
        proof {
            assert(list.items() =~= seq![value] + self.items());
        }
        list
    }
}

impl<T, U> MapFixedList<T, U> for (T, T, T, T, T, T, T, T, T, T, T, T, T, T, T, T, T, T, T, T, T) {
    type Output = (U, U, U, U, U, U, U, U, U, U, U, U, U, U, U, U, U, U, U, U, U);

    fn map_list<F: Fn(T) -> U>(self, f: F) -> (list: (U, U, U, U, U, U, U, U, U, U, U, U, U, U, U, U, U, U, U, U, U)) {
        proof {
            assert(call_requires(f, (self.items()[0],)));
            assert(call_requires(f, (self.items()[1],)));
            assert(call_requires(f, (self.items()[2],)));
            assert(call_requires(f, (self.items()[3],)));
            assert(call_requires(f, (self.items()[4],)));
            assert(call_requires(f, (self.items()[5],)));
            assert(call_requires(f, (self.items()[6],)));
            assert(call_requires(f, (self.items()[7],)));
            assert(call_requires(f, (self.items()[8],)));
            assert(call_requires(f, (self.items()[9],)));
            assert(call_requires(f, (self.items()[10],)));
            assert(call_requires(f, (self.items()[11],)));
            assert(call_requires(f, (self.items()[12],)));
            assert(call_requires(f, (self.items()[13],)));
            assert(call_requires(f, (self.items()[14],)));
            assert(call_requires(f, (self.items()[15],)));
            assert(call_requires(f, (self.items()[16],)));
            assert(call_requires(f, (self.items()[17],)));
            assert(call_requires(f, (self.items()[18],)));
            assert(call_requires(f, (self.items()[19],)));
            assert(call_requires(f, (self.items()[20],)));
        }
        (f(self.0), f(self.1), f(self.2), f(self.3), f(self.4), f(self.5), f(self.6), f(self.7), f(self.8), f(self.9), f(self.10), f(self.11), f(self.12), f(self.13), f(self.14), f(self.15), f(self.16), f(self.17), f(self.18), f(self.19), f(self.20))
    }
}

impl<T, Rhs: FixedList<T>> TupleConcat<T, Rhs> for (T, T, T, T, T, T, T, T, T, T, T, T, T, T, T, T, T, T, T, T, T) where
    (T, T, T, T, T, T, T, T, T, T, T, T, T, T, T, T, T, T, T, T): TupleConcat<T, Rhs>,
    <(T, T, T, T, T, T, T, T, T, T, T, T, T, T, T, T, T, T, T, T) as TupleConcat<T, Rhs>>::Output: TuplePrepend<T>,
 {
    type Output = <<(T, T, T, T, T, T, T, T, T, T, T, T, T, T, T, T, T, T, T, T) as TupleConcat<T, Rhs>>::Output as TuplePrepend<T>>::Output;

    fn concat(self, rhs: Rhs) -> (list: Self::Output) {
        let ghost all = self.items() + rhs.items();
        let ghost more = rhs.items();
        let rest = (self.1, self.2, self.3, self.4, self.5, self.6, self.7, self.8, self.9, self.10, self.11, self.12, self.13, self.14, self.15, self.16, self.17, self.18, self.19, self.20);
        proof {
            assert(all =~= seq![self.0] + (rest.items() + more));
        }
        rest.concat(rhs).prepend(self.0)
    }
}

impl<T> FixedList<T> for (T, T, T, T, T, T, T, T, T, T, T, T, T, T, T, T, T, T, T, T, T, T) {
    open spec fn items(&self) -> Seq<T> {
        seq![self.0, self.1, self.2, self.3, self.4, self.5, self.6, self.7, self.8, self.9, self.10, self.11, self.12, self.13, self.14, self.15, self.16, self.17, self.18, self.19, self.20, self.21]
    }

    fn len(&self) -> (len: usize) {
        22
    }

    fn get(&self, index: usize) -> (item: Option<&T>) {
        match index {
            0 => Some(&self.0),
            1 => Some(&self.1),
            2 => Some(&self.2),
            3 => Some(&self.3),
            4 => Some(&self.4),
            5 => Some(&self.5),
            6 => Some(&self.6),
            7 => Some(&self.7),
            8 => Some(&self.8),
            9 => Some(&self.9),
            10 => Some(&self.10),
            11 => Some(&self.11),
            12 => Some(&self.12),
            13 => Some(&self.13),
            14 => Some(&self.14),
            15 => Some(&self.15),
            16 => Some(&self.16),
            17 => Some(&self.17),
            18 => Some(&self.18),
            19 => Some(&self.19),
            20 => Some(&self.20),
            21 => Some(&self.21),
            _ => None,
        }
    }
}

impl<T> TupleAppend<T> for (T, T, T, T, T, T, T, T, T, T, T, T, T, T, T, T, T, T, T, T, T, T) {
    type Output = (T, T, T, T, T, T, T, T, T, T, T, T, T, T, T, T, T, T, T, T, T, T, T);

    fn append(self, value: T) -> (list: (T, T, T, T, T, T, T, T, T, T, T, T, T, T, T, T, T, T, T, T, T, T, T)) {
        let list = (self.0, self.1, self.2, self.3, self.4, self.5, self.6, self.7, self.8, self.9, self.10, self.11, self.12, self.13, self.14, self.15, self.16, self.17, self.18, self.19, self.20, self.21, value);
        proof {
            assert(list.items() =~= self.items().push(value));
        }
        list
    }
}

impl<T> TuplePrepend<T> for (T, T, T, T, T, T, T, T, T, T, T, T, T, T, T, T, T, T, T, T, T, T) {
    type Output = (T, T, T, T, T, T, T, T, T, T, T, T, T, T, T, T, T, T, T, T, T, T, T);

    fn prepend(self, value: T) -> (list: (T, T, T, T, T, T, T, T, T, T, T, T, T, T, T, T, T, T, T, T, T, T, T)) {
        let list = (value, self.0, self.1, self.2, self.3, self.4, self.5, self.6, self.7, self.8, self.9, self.10, self.11, self.12, self.13, self.14, self.15, self.16, self.17, self.18, self.19, self.20, self.21);
        proof {
            assert(list.items() =~= seq![value] + self.items());
        }
        list
    }
}

impl<T, U> MapFixedList<T, U> for (T, T, T, T, T, T, T, T, T, T, T, T, T, T, T, T, T, T, T, T, T, T) {
    type Output = (U, U, U, U, U, U, U, U, U, U, U, U, U, U, U, U, U, U, U, U, U, U);

    fn map_list<F: Fn(T) -> U>(self, f: F) -> (list: (U, U, U, U, U, U, U, U, U, U, U, U, U, U, U, U, U, U, U, U, U, U)) {
        proof {
            assert(call_requires(f, (self.items()[0],)));
            assert(call_requires(f, (self.items()[1],)));
            assert(call_requires(f, (self.items()[2],)));
            assert(call_requires(f, (self.items()[3],)));
            assert(call_requires(f, (self.items()[4],)));
            assert(call_requires(f, (self.items()[5],)));
            assert(call_requires(f, (self.items()[6],)));
            assert(call_requires(f, (self.items()[7],)));
            assert(call_requires(f, (self.items()[8],)));
            assert(call_requires(f, (self.items()[9],)));
            assert(call_requires(f, (self.items()[10],)));
            assert(call_requires(f, (self.items()[11],)));
            assert(call_requires(f, (self.items()[12],)));
            assert(call_requires(f, (self.items()[13],)));
            assert(call_requires(f, (self.items()[14],)));
            assert(call_requires(f, (self.items()[15],)));
            assert(call_requires(f, (self.items()[16],)));
            assert(call_requires(f, (self.items()[17],)));
            assert(call_requires(f, (self.items()[18],)));
            assert(call_requires(f, (self.items()[19],)));
            assert(call_requires(f, (self.items()[20],)));
            assert(call_requires(f, (self.items()[21],)));
        }
        (f(self.0), f(self.1), f(self.2), f(self.3), f(self.4), f(self.5), f(self.6), f(self.7), f(self.8), f(self.9), f(self.10), f(self.11), f(self.12), f(self.13), f(self.14), f(self.15), f(self.16), f(self.17), f(self.18), f(self.19), f(self.20), f(self.21))
    }
}

impl<T, Rhs: FixedList<T>> TupleConcat<T, Rhs> for (T, T, T, T, T, T, T, T, T, T, T, T, T, T, T, T, T, T, T, T, T, T) where
    (T, T, T, T, T, T, T, T, T, T, T, T, T, T, T, T, T, T, T, T, T): TupleConcat<T, Rhs>,
    <(T, T, T, T, T, T, T, T, T, T, T, T, T, T, T, T, T, T, T, T, T) as TupleConcat<T, Rhs>>::Output: TuplePrepend<T>,
 {
    type Output = <<(T, T, T, T, T, T, T, T, T, T, T, T, T, T, T, T, T, T, T, T, T) as TupleConcat<T, Rhs>>::Output as TuplePrepend<T>>::Output;

    fn concat(self, rhs: Rhs) -> (list: Self::Output) {
        let ghost all = self.items() + rhs.items();
        let ghost more = rhs.items();
        let rest = (self.1, self.2, self.3, self.4, self.5, self.6, self.7, self.8, self.9, self.10, self.11, self.12, self.13, self.14, self.15, self.16, self.17, self.18, self.19, self.20, self.21);
        proof {
            assert(all =~= seq![self.0] + (rest.items() + more));
        }
        rest.concat(rhs).prepend(self.0)
    }
}

impl<T> FixedList<T> for (T, T, T, T, T, T, T, T, T, T, T, T, T, T, T, T, T, T, T, T, T, T, T) {
    open spec fn items(&self) -> Seq<T> {
        seq![self.0, self.1, self.2, self.3, self.4, self.5, self.6, self.7, self.8, self.9, self.10, self.11, self.12, self.13, self.14, self.15, self.16, self.17, self.18, self.19, self.20, self.21, self.22]
    }

    fn len(&self) -> (len: usize) {
        23
    }

    fn get(&self, index: usize) -> (item: Option<&T>) {
        match index {
            0 => Some(&self.0),
            1 => Some(&self.1),
            2 => Some(&self.2),
            3 => Some(&self.3),
            4 => Some(&self.4),
            5 => Some(&self.5),
            6 => Some(&self.6),
            7 => Some(&self.7),
            8 => Some(&self.8),
            9 => Some(&self.9),
            10 => Some(&self.10),
            11 => Some(&self.11),
            12 => Some(&self.12),
            13 => Some(&self.13),
            14 => Some(&self.14),
            15 => Some(&self.15),
            16 => Some(&self.16),
            17 => Some(&self.17),
            18 => Some(&self.18),
            19 => Some(&self.19),
            20 => Some(&self.20),
            21 => Some(&self.21),
            22 => Some(&self.22),
            _ => None,
        }
    }
}

impl<T> TupleAppend<T> for (T, T, T, T, T, T, T, T, T, T, T, T, T, T, T, T, T, T, T, T, T, T, T) {
    type Output = (T, T, T, T, T, T, T, T, T, T, T, T, T, T, T, T, T, T, T, T, T, T, T, T);

    fn append(self, value: T) -> (list: (T, T, T, T, T, T, T, T, T, T, T, T, T, T, T, T, T, T, T, T, T, T, T, T)) {
        let list = (self.0, self.1, self.2, self.3, self.4, self.5, self.6, self.7, self.8, self.9, self.10, self.11, self.12, self.13, self.14, self.15, self.16, self.17, self.18, self.19, self.20, self.21, self.22, value);
        proof {
            assert(list.items() =~= self.items().push(value));
        }
        list
    }
}

impl<T> TuplePrepend<T> for (T, T, T, T, T, T, T, T, T, T, T, T, T, T, T, T, T, T, T, T, T, T, T) {
    type Output = (T, T, T, T, T, T, T, T, T, T, T, T, T, T, T, T, T, T, T, T, T, T, T, T);

    fn prepend(self, value: T) -> (list: (T, T, T, T, T, T, T, T, T, T, T, T, T, T, T, T, T, T, T, T, T, T, T, T)) {
        let list = (value, self.0, self.1, self.2, self.3, self.4, self.5, self.6, self.7, self.8, self.9, self.10, self.11, self.12, self.13, self.14, self.15, self.16, self.17, self.18, self.19, self.20, self.21, self.22);
        proof {
            assert(list.items() =~= seq![value] + self.items());
        }
        list
    }
}

impl<T, U> MapFixedList<T, U> for (T, T, T, T, T, T, T, T, T, T, T, T, T, T, T, T, T, T, T, T, T, T, T) {
    type Output = (U, U, U, U, U, U, U, U, U, U, U, U, U, U, U, U, U, U, U, U, U, U, U);

    fn map_list<F: Fn(T) -> U>(self, f: F) -> (list: (U, U, U, U, U, U, U, U, U, U, U, U, U, U, U, U, U, U, U, U, U, U, U)) {
        proof {
            assert(call_requires(f, (self.items()[0],)));
            assert(call_requires(f, (self.items()[1],)));
            assert(call_requires(f, (self.items()[2],)));
            assert(call_requires(f, (self.items()[3],)));
            assert(call_requires(f, (self.items()[4],)));
            assert(call_requires(f, (self.items()[5],)));
            assert(call_requires(f, (self.items()[6],)));
            assert(call_requires(f, (self.items()[7],)));
            assert(call_requires(f, (self.items()[8],)));
            assert(call_requires(f, (self.items()[9],)));
            assert(call_requires(f, (self.items()[10],)));
            assert(call_requires(f, (self.items()[11],)));
            assert(call_requires(f, (self.items()[12],)));
            assert(call_requires(f, (self.items()[13],)));
            assert(call_requires(f, (self.items()[14],)));
            assert(call_requires(f, (self.items()[15],)));
            assert(call_requires(f, (self.items()[16],)));
            assert(call_requires(f, (self.items()[17],)));
            assert(call_requires(f, (self.items()[18],)));
            assert(call_requires(f, (self.items()[19],)));
            assert(call_requires(f, (self.items()[20],)));
            assert(call_requires(f, (self.items()[21],)));
            assert(call_requires(f, (self.items()[22],)));
        }
        (f(self.0), f(self.1), f(self.2), f(self.3), f(self.4), f(self.5), f(self.6), f(self.7), f(self.8), f(self.9), f(self.10), f(self.11), f(self.12), f(self.13), f(self.14), f(self.15), f(self.16), f(self.17), f(self.18), f(self.19), f(self.20), f(self.21), f(self.22))
    }
}

impl<T, Rhs: FixedList<T>> TupleConcat<T, Rhs> for (T, T, T, T, T, T, T, T, T, T, T, T, T, T, T, T, T, T, T, T, T, T, T) where
    (T, T, T, T, T, T, T, T, T, T, T, T, T, T, T, T, T, T, T, T, T, T): TupleConcat<T, Rhs>,
    <(T, T, T, T, T, T, T, T, T, T, T, T, T, T, T, T, T, T, T, T, T, T) as TupleConcat<T, Rhs>>::Output: TuplePrepend<T>,
 {
    type Output = <<(T, T, T, T, T, T, T, T, T, T, T, T, T, T, T, T, T, T, T, T, T, T) as TupleConcat<T, Rhs>>::Output as TuplePrepend<T>>::Output;

    fn concat(self, rhs: Rhs) -> (list: Self::Output) {
        let ghost all = self.items() + rhs.items();
        let ghost more = rhs.items();
        let rest = (self.1, self.2, self.3, self.4, self.5, self.6, self.7, self.8, self.9, self.10, self.11, self.12, self.13, self.14, self.15, self.16, self.17, self.18, self.19, self.20, self.21, self.22);
        proof {
            assert(all =~= seq![self.0] + (rest.items() + more));
        }
        rest.concat(rhs).prepend(self.0)
    }
}

impl<T> FixedList<T> for (T, T, T, T, T, T, T, T, T, T, T, T, T, T, T, T, T, T, T, T, T, T, T, T) {
    open spec fn items(&self) -> Seq<T> {
        seq![self.0, self.1, self.2, self.3, self.4, self.5, self.6, self.7, self.8, self.9, self.10, self.11, self.12, self.13, self.14, self.15, self.16, self.17, self.18, self.19, self.20, self.21, self.22, self.23]
    }

    fn len(&self) -> (len: usize) {
        24
    }

    fn get(&self, index: usize) -> (item: Option<&T>) {
        match index {
            0 => Some(&self.0),
            1 => Some(&self.1),
            2 => Some(&self.2),
            3 => Some(&self.3),
            4 => Some(&self.4),
            5 => Some(&self.5),
            6 => Some(&self.6),
            7 => Some(&self.7),
            8 => Some(&self.8),
            9 => Some(&self.9),
            10 => Some(&self.10),
            11 => Some(&self.11),
            12 => Some(&self.12),
            13 => Some(&self.13),
            14 => Some(&self.14),
            15 => Some(&self.15),
            16 => Some(&self.16),
            17 => Some(&self.17),
            18 => Some(&self.18),
            19 => Some(&self.19),
            20 => Some(&self.20),
            21 => Some(&self.21),
            22 => Some(&self.22),
            23 => Some(&self.23),
            _ => None,
        }
    }
}

impl<T> TupleAppend<T> for (T, T, T, T, T, T, T, T, T, T, T, T, T, T, T, T, T, T, T, T, T, T, T, T) {
    type Output = (T, T, T, T, T, T, T, T, T, T, T, T, T, T, T, T, T, T, T, T, T, T, T, T, T);

    fn append(self, value: T) -> (list: (T, T, T, T, T, T, T, T, T, T, T, T, T, T, T, T, T, T, T, T, T, T, T, T, T)) {
        let list = (self.0, self.1, self.2, self.3, self.4, self.5, self.6, self.7, self.8, self.9, self.10, self.11, self.12, self.13, self.14, self.15, self.16, self.17, self.18, self.19, self.20, self.21, self.22, self.23, value);
        proof {
            assert(list.items() =~= self.items().push(value));
        }
        list
    }
}

impl<T> TuplePrepend<T> for (T, T, T, T, T, T, T, T, T, T, T, T, T, T, T, T, T, T, T, T, T, T, T, T) {
    type Output = (T, T, T, T, T, T, T, T, T, T, T, T, T, T, T, T, T, T, T, T, T, T, T, T, T);

    fn prepend(self, value: T) -> (list: (T, T, T, T, T, T, T, T, T, T, T, T, T, T, T, T, T, T, T, T, T, T, T, T, T)) {
        let list = (value, self.0, self.1, self.2, self.3, self.4, self.5, self.6, self.7, self.8, self.9, self.10, self.11, self.12, self.13, self.14, self.15, self.16, self.17, self.18, self.19, self.20, self.21, self.22, self.23);
        proof {
            assert(list.items() =~= seq![value] + self.items());
        }
        list
    }
}

impl<T, U> MapFixedList<T, U> for (T, T, T, T, T, T, T, T, T, T, T, T, T, T, T, T, T, T, T, T, T, T, T, T) {
    type Output = (U, U, U, U, U, U, U, U, U, U, U, U, U, U, U, U, U, U, U, U, U, U, U, U);

    fn map_list<F: Fn(T) -> U>(self, f: F) -> (list: (U, U, U, U, U, U, U, U, U, U, U, U, U, U, U, U, U, U, U, U, U, U, U, U)) {
        proof {
            assert(call_requires(f, (self.items()[0],)));
            assert(call_requires(f, (self.items()[1],)));
            assert(call_requires(f, (self.items()[2],)));
            assert(call_requires(f, (self.items()[3],)));
            assert(call_requires(f, (self.items()[4],)));
            assert(call_requires(f, (self.items()[5],)));
            assert(call_requires(f, (self.items()[6],)));
            assert(call_requires(f, (self.items()[7],)));
            assert(call_requires(f, (self.items()[8],)));
            assert(call_requires(f, (self.items()[9],)));
            assert(call_requires(f, (self.items()[10],)));
            assert(call_requires(f, (self.items()[11],)));
            assert(call_requires(f, (self.items()[12],)));
            assert(call_requires(f, (self.items()[13],)));
            assert(call_requires(f, (self.items()[14],)));
            assert(call_requires(f, (self.items()[15],)));
            assert(call_requires(f, (self.items()[16],)));
            assert(call_requires(f, (self.items()[17],)));
            assert(call_requires(f, (self.items()[18],)));
            assert(call_requires(f, (self.items()[19],)));
            assert(call_requires(f, (self.items()[20],)));
            assert(call_requires(f, (self.items()[21],)));
            assert(call_requires(f, (self.items()[22],)));
            assert(call_requires(f, (self.items()[23],)));
        }
        (f(self.0), f(self.1), f(self.2), f(self.3), f(self.4), f(self.5), f(self.6), f(self.7), f(self.8), f(self.9), f(self.10), f(self.11), f(self.12), f(self.13), f(self.14), f(self.15), f(self.16), f(self.17), f(self.18), f(self.19), f(self.20), f(self.21), f(self.22), f(self.23))
    }
}

impl<T, Rhs: FixedList<T>> TupleConcat<T, Rhs> for (T, T, T, T, T, T, T, T, T, T, T, T, T, T, T, T, T, T, T, T, T, T, T, T) where
    (T, T, T, T, T, T, T, T, T, T, T, T, T, T, T, T, T, T, T, T, T, T, T): TupleConcat<T, Rhs>,
    <(T, T, T, T, T, T, T, T, T, T, T, T, T, T, T, T, T, T, T, T, T, T, T) as TupleConcat<T, Rhs>>::Output: TuplePrepend<T>,
 {
    type Output = <<(T, T, T, T, T, T, T, T, T, T, T, T, T, T, T, T, T, T, T, T, T, T, T) as TupleConcat<T, Rhs>>::Output as TuplePrepend<T>>::Output;

    fn concat(self, rhs: Rhs) -> (list: Self::Output) {
        let ghost all = self.items() + rhs.items();
        let ghost more = rhs.items();
        let rest = (self.1, self.2, self.3, self.4, self.5, self.6, self.7, self.8, self.9, self.10, self.11, self.12, self.13, self.14, self.15, self.16, self.17, self.18, self.19, self.20, self.21, self.22, self.23);
        proof {
            assert(all =~= seq![self.0] + (rest.items() + more));
        }
        rest.concat(rhs).prepend(self.0)
    }
}

impl<T> FixedList<T> for (T, T, T, T, T, T, T, T, T, T, T, T, T, T, T, T, T, T, T, T, T, T, T, T, T) {
    open spec fn items(&self) -> Seq<T> {
        seq![self.0, self.1, self.2, self.3, self.4, self.5, self.6, self.7, self.8, self.9, self.10, self.11, self.12, self.13, self.14, self.15, self.16, self.17, self.18, self.19, self.20, self.21, self.22, self.23, self.24]
    }

    fn len(&self) -> (len: usize) {
        25
    }

    fn get(&self, index: usize) -> (item: Option<&T>) {
        match index {
            0 => Some(&self.0),
            1 => Some(&self.1),
            2 => Some(&self.2),
            3 => Some(&self.3),
            4 => Some(&self.4),
            5 => Some(&self.5),
            6 => Some(&self.6),
            7 => Some(&self.7),
            8 => Some(&self.8),
            9 => Some(&self.9),
            10 => Some(&self.10),
            11 => Some(&self.11),
            12 => Some(&self.12),
            13 => Some(&self.13),
            14 => Some(&self.14),
            15 => Some(&self.15),
            16 => Some(&self.16),
            17 => Some(&self.17),
            18 => Some(&self.18),
            19 => Some(&self.19),
            20 => Some(&self.20),
            21 => Some(&self.21),
            22 => Some(&self.22),
            23 => Some(&self.23),
            24 => Some(&self.24),
            _ => None,
        }
    }
}

impl<T> TupleAppend<T> for (T, T, T, T, T, T, T, T, T, T, T, T, T, T, T, T, T, T, T, T, T, T, T, T, T) {
    type Output = (T, T, T, T, T, T, T, T, T, T, T, T, T, T, T, T, T, T, T, T, T, T, T, T, T, T);

    fn append(self, value: T) -> (list: (T, T, T, T, T, T, T, T, T, T, T, T, T, T, T, T, T, T, T, T, T, T, T, T, T, T)) {
        let list = (self.0, self.1, self.2, self.3, self.4, self.5, self.6, self.7, self.8, self.9, self.10, self.11, self.12, self.13, self.14, self.15, self.16, self.17, self.18, self.19, self.20, self.21, self.22, self.23, self.24, value);
        proof {
            assert(list.items() =~= self.items().push(value));
        }
        list
    }
}

impl<T> TuplePrepend<T> for (T, T, T, T, T, T, T, T, T, T, T, T, T, T, T, T, T, T, T, T, T, T, T, T, T) {
    type Output = (T, T, T, T, T, T, T, T, T, T, T, T, T, T, T, T, T, T, T, T, T, T, T, T, T, T);

    fn prepend(self, value: T) -> (list: (T, T, T, T, T, T, T, T, T, T, T, T, T, T, T, T, T, T, T, T, T, T, T, T, T, T)) {
        let list = (value, self.0, self.1, self.2, self.3, self.4, self.5, self.6, self.7, self.8, self.9, self.10, self.11, self.12, self.13, self.14, self.15, self.16, self.17, self.18, self.19, self.20, self.21, self.22, self.23, self.24);
        proof {
            assert(list.items() =~= seq![value] + self.items());
        }
        list
    }
}

impl<T, U> MapFixedList<T, U> for (T, T, T, T, T, T, T, T, T, T, T, T, T, T, T, T, T, T, T, T, T, T, T, T, T) {
    type Output = (U, U, U, U, U, U, U, U, U, U, U, U, U, U, U, U, U, U, U, U, U, U, U, U, U);

    fn map_list<F: Fn(T) -> U>(self, f: F) -> (list: (U, U, U, U, U, U, U, U, U, U, U, U, U, U, U, U, U, U, U, U, U, U, U, U, U)) {
        proof {
            assert(call_requires(f, (self.items()[0],)));
            assert(call_requires(f, (self.items()[1],)));
            assert(call_requires(f, (self.items()[2],)));
            assert(call_requires(f, (self.items()[3],)));
            assert(call_requires(f, (self.items()[4],)));
            assert(call_requires(f, (self.items()[5],)));
            assert(call_requires(f, (self.items()[6],)));
            assert(call_requires(f, (self.items()[7],)));
            assert(call_requires(f, (self.items()[8],)));
            assert(call_requires(f, (self.items()[9],)));
            assert(call_requires(f, (self.items()[10],)));
            assert(call_requires(f, (self.items()[11],)));
            assert(call_requires(f, (self.items()[12],)));
            assert(call_requires(f, (self.items()[13],)));
            assert(call_requires(f, (self.items()[14],)));
            assert(call_requires(f, (self.items()[15],)));
            assert(call_requires(f, (self.items()[16],)));
            assert(call_requires(f, (self.items()[17],)));
            assert(call_requires(f, (self.items()[18],)));
            assert(call_requires(f, (self.items()[19],)));
            assert(call_requires(f, (self.items()[20],)));
            assert(call_requires(f, (self.items()[21],)));
            assert(call_requires(f, (self.items()[22],)));
            assert(call_requires(f, (self.items()[23],)));
            assert(call_requires(f, (self.items()[24],)));
        }
        (f(self.0), f(self.1), f(self.2), f(self.3), f(self.4), f(self.5), f(self.6), f(self.7), f(self.8), f(self.9), f(self.10), f(self.11), f(self.12), f(self.13), f(self.14), f(self.15), f(self.16), f(self.17), f(self.18), f(self.19), f(self.20), f(self.21), f(self.22), f(self.23), f(self.24))
    }
}

impl<T, Rhs: FixedList<T>> TupleConcat<T, Rhs> for (T, T, T, T, T, T, T, T, T, T, T, T, T, T, T, T, T, T, T, T, T, T, T, T, T) where
    (T, T, T, T, T, T, T, T, T, T, T, T, T, T, T, T, T, T, T, T, T, T, T, T): TupleConcat<T, Rhs>,
    <(T, T, T, T, T, T, T, T, T, T, T, T, T, T, T, T, T, T, T, T, T, T, T, T) as TupleConcat<T, Rhs>>::Output: TuplePrepend<T>,
 {
    type Output = <<(T, T, T, T, T, T, T, T, T, T, T, T, T, T, T, T, T, T, T, T, T, T, T, T) as TupleConcat<T, Rhs>>::Output as TuplePrepend<T>>::Output;

    fn concat(self, rhs: Rhs) -> (list: Self::Output) {
        let ghost all = self.items() + rhs.items();
        let ghost more = rhs.items();
        let rest = (self.1, self.2, self.3, self.4, self.5, self.6, self.7, self.8, self.9, self.10, self.11, self.12, self.13, self.14, self.15, self.16, self.17, self.18, self.19, self.20, self.21, self.22, self.23, self.24);
        proof {
            assert(all =~= seq![self.0] + (rest.items() + more));
        }
        rest.concat(rhs).prepend(self.0)
    }
}

impl<T> FixedList<T> for (T, T, T, T, T, T, T, T, T, T, T, T, T, T, T, T, T, T, T, T, T, T, T, T, T, T) {
    open spec fn items(&self) -> Seq<T> {
        seq![self.0, self.1, self.2, self.3, self.4, self.5, self.6, self.7, self.8, self.9, self.10, self.11, self.12, self.13, self.14, self.15, self.16, self.17, self.18, self.19, self.20, self.21, self.22, self.23, self.24, self.25]
    }

    fn len(&self) -> (len: usize) {
        26
    }

    fn get(&self, index: usize) -> (item: Option<&T>) {
        match index {
            0 => Some(&self.0),
            1 => Some(&self.1),
            2 => Some(&self.2),
            3 => Some(&self.3),
            4 => Some(&self.4),
            5 => Some(&self.5),
            6 => Some(&self.6),
            7 => Some(&self.7),
            8 => Some(&self.8),
            9 => Some(&self.9),
            10 => Some(&self.10),
            11 => Some(&self.11),
            12 => Some(&self.12),
            13 => Some(&self.13),
            14 => Some(&self.14),
            15 => Some(&self.15),
            16 => Some(&self.16),
            17 => Some(&self.17),
            18 => Some(&self.18),
            19 => Some(&self.19),
            20 => Some(&self.20),
            21 => Some(&self.21),
            22 => Some(&self.22),
            23 => Some(&self.23),
            24 => Some(&self.24),
            25 => Some(&self.25),
            _ => None,
        }
    }
}

impl<T> TupleAppend<T> for (T, T, T, T, T, T, T, T, T, T, T, T, T, T, T, T, T, T, T, T, T, T, T, T, T, T) {
    type Output = (T, T, T, T, T, T, T, T, T, T, T, T, T, T, T, T, T, T, T, T, T, T, T, T, T, T, T);

    fn append(self, value: T) -> (list: (T, T, T, T, T, T, T, T, T, T, T, T, T, T, T, T, T, T, T, T, T, T, T, T, T, T, T)) {
        let list = (self.0, self.1, self.2, self.3, self.4, self.5, self.6, self.7, self.8, self.9, self.10, self.11, self.12, self.13, self.14, self.15, self.16, self.17, self.18, self.19, self.20, self.21, self.22, self.23, self.24, self.25, value);
        proof {
            assert(list.items() =~= self.items().push(value));
        }
        list
    }
}

impl<T> TuplePrepend<T> for (T, T, T, T, T, T, T, T, T, T, T, T, T, T, T, T, T, T, T, T, T, T, T, T, T, T) {
    type Output = (T, T, T, T, T, T, T, T, T, T, T, T, T, T, T, T, T, T, T, T, T, T, T, T, T, T, T);

    fn prepend(self, value: T) -> (list: (T, T, T, T, T, T, T, T, T, T, T, T, T, T, T, T, T, T, T, T, T, T, T, T, T, T, T)) {
        let list = (value, self.0, self.1, self.2, self.3, self.4, self.5, self.6, self.7, self.8, self.9, self.10, self.11, self.12, self.13, self.14, self.15, self.16, self.17, self.18, self.19, self.20, self.21, self.22, self.23, self.24, self.25);
        proof {
            assert(list.items() =~= seq![value] + self.items());
        }
        list
    }
}

impl<T, U> MapFixedList<T, U> for (T, T, T, T, T, T, T, T, T, T, T, T, T, T, T, T, T, T, T, T, T, T, T, T, T, T) {
    type Output = (U, U, U, U, U, U, U, U, U, U, U, U, U, U, U, U, U, U, U, U, U, U, U, U, U, U);

    fn map_list<F: Fn(T) -> U>(self, f: F) -> (list: (U, U, U, U, U, U, U, U, U, U, U, U, U, U, U, U, U, U, U, U, U, U, U, U, U, U)) {
        proof {
            assert(call_requires(f, (self.items()[0],)));
            assert(call_requires(f, (self.items()[1],)));
            assert(call_requires(f, (self.items()[2],)));
            assert(call_requires(f, (self.items()[3],)));
            assert(call_requires(f, (self.items()[4],)));
            assert(call_requires(f, (self.items()[5],)));
            assert(call_requires(f, (self.items()[6],)));
            assert(call_requires(f, (self.items()[7],)));
            assert(call_requires(f, (self.items()[8],)));
            assert(call_requires(f, (self.items()[9],)));
            assert(call_requires(f, (self.items()[10],)));
            assert(call_requires(f, (self.items()[11],)));
            assert(call_requires(f, (self.items()[12],)));
            assert(call_requires(f, (self.items()[13],)));
            assert(call_requires(f, (self.items()[14],)));
            assert(call_requires(f, (self.items()[15],)));
            assert(call_requires(f, (self.items()[16],)));
            assert(call_requires(f, (self.items()[17],)));
            assert(call_requires(f, (self.items()[18],)));
            assert(call_requires(f, (self.items()[19],)));
            assert(call_requires(f, (self.items()[20],)));
            assert(call_requires(f, (self.items()[21],)));
            assert(call_requires(f, (self.items()[22],)));
            assert(call_requires(f, (self.items()[23],)));
            assert(call_requires(f, (self.items()[24],)));
            assert(call_requires(f, (self.items()[25],)));
        }
        (f(self.0), f(self.1), f(self.2), f(self.3), f(self.4), f(self.5), f(self.6), f(self.7), f(self.8), f(self.9), f(self.10), f(self.11), f(self.12), f(self.13), f(self.14), f(self.15), f(self.16), f(self.17), f(self.18), f(self.19), f(self.20), f(self.21), f(self.22), f(self.23), f(self.24), f(self.25))
    }
}

impl<T, Rhs: FixedList<T>> TupleConcat<T, Rhs> for (T, T, T, T, T, T, T, T, T, T, T, T, T, T, T, T, T, T, T, T, T, T, T, T, T, T) where
    (T, T, T, T, T, T, T, T, T, T, T, T, T, T, T, T, T, T, T, T, T, T, T, T, T): TupleConcat<T, Rhs>,
    <(T, T, T, T, T, T, T, T, T, T, T, T, T, T, T, T, T, T, T, T, T, T, T, T, T) as TupleConcat<T, Rhs>>::Output: TuplePrepend<T>,
 {
    type Output = <<(T, T, T, T, T, T, T, T, T, T, T, T, T, T, T, T, T, T, T, T, T, T, T, T, T) as TupleConcat<T, Rhs>>::Output as TuplePrepend<T>>::Output;

    fn concat(self, rhs: Rhs) -> (list: Self::Output) {
        let ghost all = self.items() + rhs.items();
        let ghost more = rhs.items();
        let rest = (self.1, self.2, self.3, self.4, self.5, self.6, self.7, self.8, self.9, self.10, self.11, self.12, self.13, self.14, self.15, self.16, self.17, self.18, self.19, self.20, self.21, self.22, self.23, self.24, self.25);
        proof {
            assert(all =~= seq![self.0] + (rest.items() + more));
        }
        rest.concat(rhs).prepend(self.0)
    }
}

impl<T> FixedList<T> for (T, T, T, T, T, T, T, T, T, T, T, T, T, T, T, T, T, T, T, T, T, T, T, T, T, T, T) {
    open spec fn items(&self) -> Seq<T> {
        seq![self.0, self.1, self.2, self.3, self.4, self.5, self.6, self.7, self.8, self.9, self.10, self.11, self.12, self.13, self.14, self.15, self.16, self.17, self.18, self.19, self.20, self.21, self.22, self.23, self.24, self.25, self.26]
    }

    fn len(&self) -> (len: usize) {
        27
    }

    fn get(&self, index: usize) -> (item: Option<&T>) {
        match index {
            0 => Some(&self.0),
            1 => Some(&self.1),
            2 => Some(&self.2),
            3 => Some(&self.3),
            4 => Some(&self.4),
            5 => Some(&self.5),
            6 => Some(&self.6),
            7 => Some(&self.7),
            8 => Some(&self.8),
            9 => Some(&self.9),
            10 => Some(&self.10),
            11 => Some(&self.11),
            12 => Some(&self.12),
            13 => Some(&self.13),
            14 => Some(&self.14),
            15 => Some(&self.15),
            16 => Some(&self.16),
            17 => Some(&self.17),
            18 => Some(&self.18),
            19 => Some(&self.19),
            20 => Some(&self.20),
            21 => Some(&self.21),
            22 => Some(&self.22),
            23 => Some(&self.23),
            24 => Some(&self.24),
            25 => Some(&self.25),
            26 => Some(&self.26),
            _ => None,
        }
    }
}

impl<T> TupleAppend<T> for (T, T, T, T, T, T, T, T, T, T, T, T, T, T, T, T, T, T, T, T, T, T, T, T, T, T, T) {
    type Output = (T, T, T, T, T, T, T, T, T, T, T, T, T, T, T, T, T, T, T, T, T, T, T, T, T, T, T, T);

    fn append(self, value: T) -> (list: (T, T, T, T, T, T, T, T, T, T, T, T, T, T, T, T, T, T, T, T, T, T, T, T, T, T, T, T)) {
        let list = (self.0, self.1, self.2, self.3, self.4, self.5, self.6, self.7, self.8, self.9, self.10, self.11, self.12, self.13, self.14, self.15, self.16, self.17, self.18, self.19, self.20, self.21, self.22, self.23, self.24, self.25, self.26, value);
        proof {
            assert(list.items() =~= self.items().push(value));
        }
        list
    }
}

impl<T> TuplePrepend<T> for (T, T, T, T, T, T, T, T, T, T, T, T, T, T, T, T, T, T, T, T, T, T, T, T, T, T, T) {
    type Output = (T, T, T, T, T, T, T, T, T, T, T, T, T, T, T, T, T, T, T, T, T, T, T, T, T, T, T, T);

    fn prepend(self, value: T) -> (list: (T, T, T, T, T, T, T, T, T, T, T, T, T, T, T, T, T, T, T, T, T, T, T, T, T, T, T, T)) {
        let list = (value, self.0, self.1, self.2, self.3, self.4, self.5, self.6, self.7, self.8, self.9, self.10, self.11, self.12, self.13, self.14, self.15, self.16, self.17, self.18, self.19, self.20, self.21, self.22, self.23, self.24, self.25, self.26);
        proof {
            assert(list.items() =~= seq![value] + self.items());
        }
        list
    }
}

impl<T, U> MapFixedList<T, U> for (T, T, T, T, T, T, T, T, T, T, T, T, T, T, T, T, T, T, T, T, T, T, T, T, T, T, T) {
    type Output = (U, U, U, U, U, U, U, U, U, U, U, U, U, U, U, U, U, U, U, U, U, U, U, U, U, U, U);

    fn map_list<F: Fn(T) -> U>(self, f: F) -> (list: (U, U, U, U, U, U, U, U, U, U, U, U, U, U, U, U, U, U, U, U, U, U, U, U, U, U, U)) {
        proof {
            assert(call_requires(f, (self.items()[0],)));
            assert(call_requires(f, (self.items()[1],)));
            assert(call_requires(f, (self.items()[2],)));
            assert(call_requires(f, (self.items()[3],)));
            assert(call_requires(f, (self.items()[4],)));
            assert(call_requires(f, (self.items()[5],)));
            assert(call_requires(f, (self.items()[6],)));
            assert(call_requires(f, (self.items()[7],)));
            assert(call_requires(f, (self.items()[8],)));
            assert(call_requires(f, (self.items()[9],)));
            assert(call_requires(f, (self.items()[10],)));
            assert(call_requires(f, (self.items()[11],)));
            assert(call_requires(f, (self.items()[12],)));
            assert(call_requires(f, (self.items()[13],)));
            assert(call_requires(f, (self.items()[14],)));
            assert(call_requires(f, (self.items()[15],)));
            assert(call_requires(f, (self.items()[16],)));
            assert(call_requires(f, (self.items()[17],)));
            assert(call_requires(f, (self.items()[18],)));
            assert(call_requires(f, (self.items()[19],)));
            assert(call_requires(f, (self.items()[20],)));
            assert(call_requires(f, (self.items()[21],)));
            assert(call_requires(f, (self.items()[22],)));
            assert(call_requires(f, (self.items()[23],)));
            assert(call_requires(f, (self.items()[24],)));
            assert(call_requires(f, (self.items()[25],)));
            assert(call_requires(f, (self.items()[26],)));
        }
        (f(self.0), f(self.1), f(self.2), f(self.3), f(self.4), f(self.5), f(self.6), f(self.7), f(self.8), f(self.9), f(self.10), f(self.11), f(self.12), f(self.13), f(self.14), f(self.15), f(self.16), f(self.17), f(self.18), f(self.19), f(self.20), f(self.21), f(self.22), f(self.23), f(self.24), f(self.25), f(self.26))
    }
}

impl<T, Rhs: FixedList<T>> TupleConcat<T, Rhs> for (T, T, T, T, T, T, T, T, T, T, T, T, T, T, T, T, T, T, T, T, T, T, T, T, T, T, T) where
    (T, T, T, T, T, T, T, T, T, T, T, T, T, T, T, T, T, T, T, T, T, T, T, T, T, T): TupleConcat<T, Rhs>,
    <(T, T, T, T, T, T, T, T, T, T, T, T, T, T, T, T, T, T, T, T, T, T, T, T, T, T) as TupleConcat<T, Rhs>>::Output: TuplePrepend<T>,
 {
    type Output = <<(T, T, T, T, T, T, T, T, T, T, T, T, T, T, T, T, T, T, T, T, T, T, T, T, T, T) as TupleConcat<T, Rhs>>::Output as TuplePrepend<T>>::Output;

    fn concat(self, rhs: Rhs) -> (list: Self::Output) {
        let ghost all = self.items() + rhs.items();
        let ghost more = rhs.items();
        let rest = (self.1, self.2, self.3, self.4, self.5, self.6, self.7, self.8, self.9, self.10, self.11, self.12, self.13, self.14, self.15, self.16, self.17, self.18, self.19, self.20, self.21, self.22, self.23, self.24, self.25, self.26);
        proof {
            assert(all =~= seq![self.0] + (rest.items() + more));
        }
        rest.concat(rhs).prepend(self.0)
    }
}

impl<T> FixedList<T> for (T, T, T, T, T, T, T, T, T, T, T, T, T, T, T, T, T, T, T, T, T, T, T, T, T, T, T, T) {
    open spec fn items(&self) -> Seq<T> {
        seq![self.0, self.1, self.2, self.3, self.4, self.5, self.6, self.7, self.8, self.9, self.10, self.11, self.12, self.13, self.14, self.15, self.16, self.17, self.18, self.19, self.20, self.21, self.22, self.23, self.24, self.25, self.26, self.27]
    }

    fn len(&self) -> (len: usize) {
        28
    }

    fn get(&self, index: usize) -> (item: Option<&T>) {
        match index {
            0 => Some(&self.0),
            1 => Some(&self.1),
            2 => Some(&self.2),
            3 => Some(&self.3),
            4 => Some(&self.4),
            5 => Some(&self.5),
            6 => Some(&self.6),
            7 => Some(&self.7),
            8 => Some(&self.8),
            9 => Some(&self.9),
            10 => Some(&self.10),
            11 => Some(&self.11),
            12 => Some(&self.12),
            13 => Some(&self.13),
            14 => Some(&self.14),
            15 => Some(&self.15),
            16 => Some(&self.16),
            17 => Some(&self.17),
            18 => Some(&self.18),
            19 => Some(&self.19),
            20 => Some(&self.20),
            21 => Some(&self.21),
            22 => Some(&self.22),
            23 => Some(&self.23),
            24 => Some(&self.24),
            25 => Some(&self.25),
            26 => Some(&self.26),
            27 => Some(&self.27),
            _ => None,
        }
    }
}

impl<T> TupleAppend<T> for (T, T, T, T, T, T, T, T, T, T, T, T, T, T, T, T, T, T, T, T, T, T, T, T, T, T, T, T) {
    type Output = (T, T, T, T, T, T, T, T, T, T, T, T, T, T, T, T, T, T, T, T, T, T, T, T, T, T, T, T, T);

    fn append(self, value: T) -> (list: (T, T, T, T, T, T, T, T, T, T, T, T, T, T, T, T, T, T, T, T, T, T, T, T, T, T, T, T, T)) {
        let list = (self.0, self.1, self.2, self.3, self.4, self.5, self.6, self.7, self.8, self.9, self.10, self.11, self.12, self.13, self.14, self.15, self.16, self.17, self.18, self.19, self.20, self.21, self.22, self.23, self.24, self.25, self.26, self.27, value);
        proof {
            assert(list.items() =~= self.items().push(value));
        }
        list
    }
}

impl<T> TuplePrepend<T> for (T, T, T, T, T, T, T, T, T, T, T, T, T, T, T, T, T, T, T, T, T, T, T, T, T, T, T, T) {
    type Output = (T, T, T, T, T, T, T, T, T, T, T, T, T, T, T, T, T, T, T, T, T, T, T, T, T, T, T, T, T);

    fn prepend(self, value: T) -> (list: (T, T, T, T, T, T, T, T, T, T, T, T, T, T, T, T, T, T, T, T, T, T, T, T, T, T, T, T, T)) {
        let list = (value, self.0, self.1, self.2, self.3, self.4, self.5, self.6, self.7, self.8, self.9, self.10, self.11, self.12, self.13, self.14, self.15, self.16, self.17, self.18, self.19, self.20, self.21, self.22, self.23, self.24, self.25, self.26, self.27);
        proof {
            assert(list.items() =~= seq![value] + self.items());
        }
        list
    }
}

impl<T, U> MapFixedList<T, U> for (T, T, T, T, T, T, T, T, T, T, T, T, T, T, T, T, T, T, T, T, T, T, T, T, T, T, T, T) {
    type Output = (U, U, U, U, U, U, U, U, U, U, U, U, U, U, U, U, U, U, U, U, U, U, U, U, U, U, U, U);

    fn map_list<F: Fn(T) -> U>(self, f: F) -> (list: (U, U, U, U, U, U, U, U, U, U, U, U, U, U, U, U, U, U, U, U, U, U, U, U, U, U, U, U)) {
        proof {
            assert(call_requires(f, (self.items()[0],)));
            assert(call_requires(f, (self.items()[1],)));
            assert(call_requires(f, (self.items()[2],)));
            assert(call_requires(f, (self.items()[3],)));
            assert(call_requires(f, (self.items()[4],)));
            assert(call_requires(f, (self.items()[5],)));
            assert(call_requires(f, (self.items()[6],)));
            assert(call_requires(f, (self.items()[7],)));
            assert(call_requires(f, (self.items()[8],)));
            assert(call_requires(f, (self.items()[9],)));
            assert(call_requires(f, (self.items()[10],)));
            assert(call_requires(f, (self.items()[11],)));
            assert(call_requires(f, (self.items()[12],)));
            assert(call_requires(f, (self.items()[13],)));
            assert(call_requires(f, (self.items()[14],)));
            assert(call_requires(f, (self.items()[15],)));
            assert(call_requires(f, (self.items()[16],)));
            assert(call_requires(f, (self.items()[17],)));
            assert(call_requires(f, (self.items()[18],)));
            assert(call_requires(f, (self.items()[19],)));
            assert(call_requires(f, (self.items()[20],)));
            assert(call_requires(f, (self.items()[21],)));
            assert(call_requires(f, (self.items()[22],)));
            assert(call_requires(f, (self.items()[23],)));
            assert(call_requires(f, (self.items()[24],)));
            assert(call_requires(f, (self.items()[25],)));
            assert(call_requires(f, (self.items()[26],)));
            assert(call_requires(f, (self.items()[27],)));
        }
        (f(self.0), f(self.1), f(self.2), f(self.3), f(self.4), f(self.5), f(self.6), f(self.7), f(self.8), f(self.9), f(self.10), f(self.11), f(self.12), f(self.13), f(self.14), f(self.15), f(self.16), f(self.17), f(self.18), f(self.19), f(self.20), f(self.21), f(self.22), f(self.23), f(self.24), f(self.25), f(self.26), f(self.27))
    }
}

impl<T, Rhs: FixedList<T>> TupleConcat<T, Rhs> for (T, T, T, T, T, T, T, T, T, T, T, T, T, T, T, T, T, T, T, T, T, T, T, T, T, T, T, T) where
    (T, T, T, T, T, T, T, T, T, T, T, T, T, T, T, T, T, T, T, T, T, T, T, T, T, T, T): TupleConcat<T, Rhs>,
    <(T, T, T, T, T, T, T, T, T, T, T, T, T, T, T, T, T, T, T, T, T, T, T, T, T, T, T) as TupleConcat<T, Rhs>>::Output: TuplePrepend<T>,
 {
    type Output = <<(T, T, T, T, T, T, T, T, T, T, T, T, T, T, T, T, T, T, T, T, T, T, T, T, T, T, T) as TupleConcat<T, Rhs>>::Output as TuplePrepend<T>>::Output;

    fn concat(self, rhs: Rhs) -> (list: Self::Output) {
        let ghost all = self.items() + rhs.items();
        let ghost more = rhs.items();
        let rest = (self.1, self.2, self.3, self.4, self.5, self.6, self.7, self.8, self.9, self.10, self.11, self.12, self.13, self.14, self.15, self.16, self.17, self.18, self.19, self.20, self.21, self.22, self.23, self.24, self.25, self.26, self.27);
        proof {
            assert(all =~= seq![self.0] + (rest.items() + more));
        }
        rest.concat(rhs).prepend(self.0)
    }
}

impl<T> FixedList<T> for (T, T, T, T, T, T, T, T, T, T, T, T, T, T, T, T, T, T, T, T, T, T, T, T, T, T, T, T, T) {
    open spec fn items(&self) -> Seq<T> {
        seq![self.0, self.1, self.2, self.3, self.4, self.5, self.6, self.7, self.8, self.9, self.10, self.11, self.12, self.13, self.14, self.15, self.16, self.17, self.18, self.19, self.20, self.21, self.22, self.23, self.24, self.25, self.26, self.27, self.28]
    }

    fn len(&self) -> (len: usize) {
        29
    }

    fn get(&self, index: usize) -> (item: Option<&T>) {
        match index {
            0 => Some(&self.0),
            1 => Some(&self.1),
            2 => Some(&self.2),
            3 => Some(&self.3),
            4 => Some(&self.4),
            5 => Some(&self.5),
            6 => Some(&self.6),
            7 => Some(&self.7),
            8 => Some(&self.8),
            9 => Some(&self.9),
            10 => Some(&self.10),
            11 => Some(&self.11),
            12 => Some(&self.12),
            13 => Some(&self.13),
            14 => Some(&self.14),
            15 => Some(&self.15),
            16 => Some(&self.16),
            17 => Some(&self.17),
            18 => Some(&self.18),
            19 => Some(&self.19),
            20 => Some(&self.20),
            21 => Some(&self.21),
            22 => Some(&self.22),
            23 => Some(&self.23),
            24 => Some(&self.24),
            25 => Some(&self.25),
            26 => Some(&self.26),
            27 => Some(&self.27),
            28 => Some(&self.28),
            _ => None,
        }
    }
}

impl<T> TupleAppend<T> for (T, T, T, T, T, T, T, T, T, T, T, T, T, T, T, T, T, T, T, T, T, T, T, T, T, T, T, T, T) {
    type Output = (T, T, T, T, T, T, T, T, T, T, T, T, T, T, T, T, T, T, T, T, T, T, T, T, T, T, T, T, T, T);

    fn append(self, value: T) -> (list: (T, T, T, T, T, T, T, T, T, T, T, T, T, T, T, T, T, T, T, T, T, T, T, T, T, T, T, T, T, T)) {
        let list = (self.0, self.1, self.2, self.3, self.4, self.5, self.6, self.7, self.8, self.9, self.10, self.11, self.12, self.13, self.14, self.15, self.16, self.17, self.18, self.19, self.20, self.21, self.22, self.23, self.24, self.25, self.26, self.27, self.28, value);
        proof {
            assert(list.items() =~= self.items().push(value));
        }
        list
    }
}

impl<T> TuplePrepend<T> for (T, T, T, T, T, T, T, T, T, T, T, T, T, T, T, T, T, T, T, T, T, T, T, T, T, T, T, T, T) {
    type Output = (T, T, T, T, T, T, T, T, T, T, T, T, T, T, T, T, T, T, T, T, T, T, T, T, T, T, T, T, T, T);

    fn prepend(self, value: T) -> (list: (T, T, T, T, T, T, T, T, T, T, T, T, T, T, T, T, T, T, T, T, T, T, T, T, T, T, T, T, T, T)) {
        let list = (value, self.0, self.1, self.2, self.3, self.4, self.5, self.6, self.7, self.8, self.9, self.10, self.11, self.12, self.13, self.14, self.15, self.16, self.17, self.18, self.19, self.20, self.21, self.22, self.23, self.24, self.25, self.26, self.27, self.28);
        proof {
            assert(list.items() =~= seq![value] + self.items());
        }
        list
    }
}

impl<T, U> MapFixedList<T, U> for (T, T, T, T, T, T, T, T, T, T, T, T, T, T, T, T, T, T, T, T, T, T, T, T, T, T, T, T, T) {
    type Output = (U, U, U, U, U, U, U, U, U, U, U, U, U, U, U, U, U, U, U, U, U, U, U, U, U, U, U, U, U);

    fn map_list<F: Fn(T) -> U>(self, f: F) -> (list: (U, U, U, U, U, U, U, U, U, U, U, U, U, U, U, U, U, U, U, U, U, U, U, U, U, U, U, U, U)) {
        proof {
            assert(call_requires(f, (self.items()[0],)));
            assert(call_requires(f, (self.items()[1],)));
            assert(call_requires(f, (self.items()[2],)));
            assert(call_requires(f, (self.items()[3],)));
            assert(call_requires(f, (self.items()[4],)));
            assert(call_requires(f, (self.items()[5],)));
            assert(call_requires(f, (self.items()[6],)));
            assert(call_requires(f, (self.items()[7],)));
            assert(call_requires(f, (self.items()[8],)));
            assert(call_requires(f, (self.items()[9],)));
            assert(call_requires(f, (self.items()[10],)));
            assert(call_requires(f, (self.items()[11],)));
            assert(call_requires(f, (self.items()[12],)));
            assert(call_requires(f, (self.items()[13],)));
            assert(call_requires(f, (self.items()[14],)));
            assert(call_requires(f, (self.items()[15],)));
            assert(call_requires(f, (self.items()[16],)));
            assert(call_requires(f, (self.items()[17],)));
            assert(call_requires(f, (self.items()[18],)));
            assert(call_requires(f, (self.items()[19],)));
            assert(call_requires(f, (self.items()[20],)));
            assert(call_requires(f, (self.items()[21],)));
            assert(call_requires(f, (self.items()[22],)));
            assert(call_requires(f, (self.items()[23],)));
            assert(call_requires(f, (self.items()[24],)));
            assert(call_requires(f, (self.items()[25],)));
            assert(call_requires(f, (self.items()[26],)));
            assert(call_requires(f, (self.items()[27],)));
            assert(call_requires(f, (self.items()[28],)));
        }
        (f(self.0), f(self.1), f(self.2), f(self.3), f(self.4), f(self.5), f(self.6), f(self.7), f(self.8), f(self.9), f(self.10), f(self.11), f(self.12), f(self.13), f(self.14), f(self.15), f(self.16), f(self.17), f(self.18), f(self.19), f(self.20), f(self.21), f(self.22), f(self.23), f(self.24), f(self.25), f(self.26), f(self.27), f(self.28))
    }
}

impl<T, Rhs: FixedList<T>> TupleConcat<T, Rhs> for (T, T, T, T, T, T, T, T, T, T, T, T, T, T, T, T, T, T, T, T, T, T, T, T, T, T, T, T, T) where
    (T, T, T, T, T, T, T, T, T, T, T, T, T, T, T, T, T, T, T, T, T, T, T, T, T, T, T, T): TupleConcat<T, Rhs>,
    <(T, T, T, T, T, T, T, T, T, T, T, T, T, T, T, T, T, T, T, T, T, T, T, T, T, T, T, T) as TupleConcat<T, Rhs>>::Output: TuplePrepend<T>,
 {
    type Output = <<(T, T, T, T, T, T, T, T, T, T, T, T, T, T, T, T, T, T, T, T, T, T, T, T, T, T, T, T) as TupleConcat<T, Rhs>>::Output as TuplePrepend<T>>::Output;

    fn concat(self, rhs: Rhs) -> (list: Self::Output) {
        let ghost all = self.items() + rhs.items();
        let ghost more = rhs.items();
        let rest = (self.1, self.2, self.3, self.4, self.5, self.6, self.7, self.8, self.9, self.10, self.11, self.12, self.13, self.14, self.15, self.16, self.17, self.18, self.19, self.20, self.21, self.22, self.23, self.24, self.25, self.26, self.27, self.28);
        proof {
            assert(all =~= seq![self.0] + (rest.items() + more));
        }
        rest.concat(rhs).prepend(self.0)
    }
}

impl<T> FixedList<T> for (T, T, T, T, T, T, T, T, T, T, T, T, T, T, T, T, T, T, T, T, T, T, T, T, T, T, T, T, T, T) {
    open spec fn items(&self) -> Seq<T> {
        seq![self.0, self.1, self.2, self.3, self.4, self.5, self.6, self.7, self.8, self.9, self.10, self.11, self.12, self.13, self.14, self.15, self.16, self.17, self.18, self.19, self.20, self.21, self.22, self.23, self.24, self.25, self.26, self.27, self.28, self.29]
    }

    fn len(&self) -> (len: usize) {
        30
    }

    fn get(&self, index: usize) -> (item: Option<&T>) {
        match index {
            0 => Some(&self.0),
            1 => Some(&self.1),
            2 => Some(&self.2),
            3 => Some(&self.3),
            4 => Some(&self.4),
            5 => Some(&self.5),
            6 => Some(&self.6),
            7 => Some(&self.7),
            8 => Some(&self.8),
            9 => Some(&self.9),
            10 => Some(&self.10),
            11 => Some(&self.11),
            12 => Some(&self.12),
            13 => Some(&self.13),
            14 => Some(&self.14),
            15 => Some(&self.15),
            16 => Some(&self.16),
            17 => Some(&self.17),
            18 => Some(&self.18),
            19 => Some(&self.19),
            20 => Some(&self.20),
            21 => Some(&self.21),
            22 => Some(&self.22),
            23 => Some(&self.23),
            24 => Some(&self.24),
            25 => Some(&self.25),
            26 => Some(&self.26),
            27 => Some(&self.27),
            28 => Some(&self.28),
            29 => Some(&self.29),
            _ => None,
        }
    }
}

impl<T> TupleAppend<T> for (T, T, T, T, T, T, T, T, T, T, T, T, T, T, T, T, T, T, T, T, T, T, T, T, T, T, T, T, T, T) {
    type Output = (T, T, T, T, T, T, T, T, T, T, T, T, T, T, T, T, T, T, T, T, T, T, T, T, T, T, T, T, T, T, T);

    fn append(self, value: T) -> (list: (T, T, T, T, T, T, T, T, T, T, T, T, T, T, T, T, T, T, T, T, T, T, T, T, T, T, T, T, T, T, T)) {
        let list = (self.0, self.1, self.2, self.3, self.4, self.5, self.6, self.7, self.8, self.9, self.10, self.11, self.12, self.13, self.14, self.15, self.16, self.17, self.18, self.19, self.20, self.21, self.22, self.23, self.24, self.25, self.26, self.27, self.28, self.29, value);
        proof {
            assert(list.items() =~= self.items().push(value));
        }
        list
    }
}

impl<T> TuplePrepend<T> for (T, T, T, T, T, T, T, T, T, T, T, T, T, T, T, T, T, T, T, T, T, T, T, T, T, T, T, T, T, T) {
    type Output = (T, T, T, T, T, T, T, T, T, T, T, T, T, T, T, T, T, T, T, T, T, T, T, T, T, T, T, T, T, T, T);

    fn prepend(self, value: T) -> (list: (T, T, T, T, T, T, T, T, T, T, T, T, T, T, T, T, T, T, T, T, T, T, T, T, T, T, T, T, T, T, T)) {
        let list = (value, self.0, self.1, self.2, self.3, self.4, self.5, self.6, self.7, self.8, self.9, self.10, self.11, self.12, self.13, self.14, self.15, self.16, self.17, self.18, self.19, self.20, self.21, self.22, self.23, self.24, self.25, self.26, self.27, self.28, self.29);
        proof {
            assert(list.items() =~= seq![value] + self.items());
        }
        list
    }
}

impl<T, U> MapFixedList<T, U> for (T, T, T, T, T, T, T, T, T, T, T, T, T, T, T, T, T, T, T, T, T, T, T, T, T, T, T, T, T, T) {
    type Output = (U, U, U, U, U, U, U, U, U, U, U, U, U, U, U, U, U, U, U, U, U, U, U, U, U, U, U, U, U, U);

    fn map_list<F: Fn(T) -> U>(self, f: F) -> (list: (U, U, U, U, U, U, U, U, U, U, U, U, U, U, U, U, U, U, U, U, U, U, U, U, U, U, U, U, U, U)) {
        proof {
            assert(call_requires(f, (self.items()[0],)));
            assert(call_requires(f, (self.items()[1],)));
            assert(call_requires(f, (self.items()[2],)));
            assert(call_requires(f, (self.items()[3],)));
            assert(call_requires(f, (self.items()[4],)));
            assert(call_requires(f, (self.items()[5],)));
            assert(call_requires(f, (self.items()[6],)));
            assert(call_requires(f, (self.items()[7],)));
            assert(call_requires(f, (self.items()[8],)));
            assert(call_requires(f, (self.items()[9],)));
            assert(call_requires(f, (self.items()[10],)));
            assert(call_requires(f, (self.items()[11],)));
            assert(call_requires(f, (self.items()[12],)));
            assert(call_requires(f, (self.items()[13],)));
            assert(call_requires(f, (self.items()[14],)));
            assert(call_requires(f, (self.items()[15],)));
            assert(call_requires(f, (self.items()[16],)));
            assert(call_requires(f, (self.items()[17],)));
            assert(call_requires(f, (self.items()[18],)));
            assert(call_requires(f, (self.items()[19],)));
            assert(call_requires(f, (self.items()[20],)));
            assert(call_requires(f, (self.items()[21],)));
            assert(call_requires(f, (self.items()[22],)));
            assert(call_requires(f, (self.items()[23],)));
            assert(call_requires(f, (self.items()[24],)));
            assert(call_requires(f, (self.items()[25],)));
            assert(call_requires(f, (self.items()[26],)));
            assert(call_requires(f, (self.items()[27],)));
            assert(call_requires(f, (self.items()[28],)));
            assert(call_requires(f, (self.items()[29],)));
        }
        (f(self.0), f(self.1), f(self.2), f(self.3), f(self.4), f(self.5), f(self.6), f(self.7), f(self.8), f(self.9), f(self.10), f(self.11), f(self.12), f(self.13), f(self.14), f(self.15), f(self.16), f(self.17), f(self.18), f(self.19), f(self.20), f(self.21), f(self.22), f(self.23), f(self.24), f(self.25), f(self.26), f(self.27), f(self.28), f(self.29))
    }
}

impl<T, Rhs: FixedList<T>> TupleConcat<T, Rhs> for (T, T, T, T, T, T, T, T, T, T, T, T, T, T, T, T, T, T, T, T, T, T, T, T, T, T, T, T, T, T) where
    (T, T, T, T, T, T, T, T, T, T, T, T, T, T, T, T, T, T, T, T, T, T, T, T, T, T, T, T, T): TupleConcat<T, Rhs>,
    <(T, T, T, T, T, T, T, T, T, T, T, T, T, T, T, T, T, T, T, T, T, T, T, T, T, T, T, T, T) as TupleConcat<T, Rhs>>::Output: TuplePrepend<T>,
 {
    type Output = <<(T, T, T, T, T, T, T, T, T, T, T, T, T, T, T, T, T, T, T, T, T, T, T, T, T, T, T, T, T) as TupleConcat<T, Rhs>>::Output as TuplePrepend<T>>::Output;

    fn concat(self, rhs: Rhs) -> (list: Self::Output) {
        let ghost all = self.items() + rhs.items();
        let ghost more = rhs.items();
        let rest = (self.1, self.2, self.3, self.4, self.5, self.6, self.7, self.8, self.9, self.10, self.11, self.12, self.13, self.14, self.15, self.16, self.17, self.18, self.19, self.20, self.21, self.22, self.23, self.24, self.25, self.26, self.27, self.28, self.29);
        proof {
            assert(all =~= seq![self.0] + (rest.items() + more));
        }
        rest.concat(rhs).prepend(self.0)
    }
}

impl<T> FixedList<T> for (T, T, T, T, T, T, T, T, T, T, T, T, T, T, T, T, T, T, T, T, T, T, T, T, T, T, T, T, T, T, T) {
    open spec fn items(&self) -> Seq<T> {
        seq![self.0, self.1, self.2, self.3, self.4, self.5, self.6, self.7, self.8, self.9, self.10, self.11, self.12, self.13, self.14, self.15, self.16, self.17, self.18, self.19, self.20, self.21, self.22, self.23, self.24, self.25, self.26, self.27, self.28, self.29, self.30]
    }

    fn len(&self) -> (len: usize) {
        31
    }

    fn get(&self, index: usize) -> (item: Option<&T>) {
        match index {
            0 => Some(&self.0),
            1 => Some(&self.1),
            2 => Some(&self.2),
            3 => Some(&self.3),
            4 => Some(&self.4),
            5 => Some(&self.5),
            6 => Some(&self.6),
            7 => Some(&self.7),
            8 => Some(&self.8),
            9 => Some(&self.9),
            10 => Some(&self.10),
            11 => Some(&self.11),
            12 => Some(&self.12),
            13 => Some(&self.13),
            14 => Some(&self.14),
            15 => Some(&self.15),
            16 => Some(&self.16),
            17 => Some(&self.17),
            18 => Some(&self.18),
            19 => Some(&self.19),
            20 => Some(&self.20),
            21 => Some(&self.21),
            22 => Some(&self.22),
            23 => Some(&self.23),
            24 => Some(&self.24),
            25 => Some(&self.25),
            26 => Some(&self.26),
            27 => Some(&self.27),
            28 => Some(&self.28),
            29 => Some(&self.29),
            30 => Some(&self.30),
            _ => None,
        }
    }
}

impl<T> TupleAppend<T> for (T, T, T, T, T, T, T, T, T, T, T, T, T, T, T, T, T, T, T, T, T, T, T, T, T, T, T, T, T, T, T) {
    type Output = (T, T, T, T, T, T, T, T, T, T, T, T, T, T, T, T, T, T, T, T, T, T, T, T, T, T, T, T, T, T, T, T);

    fn append(self, value: T) -> (list: (T, T, T, T, T, T, T, T, T, T, T, T, T, T, T, T, T, T, T, T, T, T, T, T, T, T, T, T, T, T, T, T)) {
        let list = (self.0, self.1, self.2, self.3, self.4, self.5, self.6, self.7, self.8, self.9, self.10, self.11, self.12, self.13, self.14, self.15, self.16, self.17, self.18, self.19, self.20, self.21, self.22, self.23, self.24, self.25, self.26, self.27, self.28, self.29, self.30, value);
        proof {
            assert(list.items() =~= self.items().push(value));
        }
        list
    }
}

impl<T> TuplePrepend<T> for (T, T, T, T, T, T, T, T, T, T, T, T, T, T, T, T, T, T, T, T, T, T, T, T, T, T, T, T, T, T, T) {
    type Output = (T, T, T, T, T, T, T, T, T, T, T, T, T, T, T, T, T, T, T, T, T, T, T, T, T, T, T, T, T, T, T, T);

    fn prepend(self, value: T) -> (list: (T, T, T, T, T, T, T, T, T, T, T, T, T, T, T, T, T, T, T, T, T, T, T, T, T, T, T, T, T, T, T, T)) {
        let list = (value, self.0, self.1, self.2, self.3, self.4, self.5, self.6, self.7, self.8, self.9, self.10, self.11, self.12, self.13, self.14, self.15, self.16, self.17, self.18, self.19, self.20, self.21, self.22, self.23, self.24, self.25, self.26, self.27, self.28, self.29, self.30);
        proof {
            assert(list.items() =~= seq![value] + self.items());
        }
        list
    }
}

impl<T, U> MapFixedList<T, U> for (T, T, T, T, T, T, T, T, T, T, T, T, T, T, T, T, T, T, T, T, T, T, T, T, T, T, T, T, T, T, T) {
    type Output = (U, U, U, U, U, U, U, U, U, U, U, U, U, U, U, U, U, U, U, U, U, U, U, U, U, U, U, U, U, U, U);

    fn map_list<F: Fn(T) -> U>(self, f: F) -> (list: (U, U, U, U, U, U, U, U, U, U, U, U, U, U, U, U, U, U, U, U, U, U, U, U, U, U, U, U, U, U, U)) {
        proof {
            assert(call_requires(f, (self.items()[0],)));
            assert(call_requires(f, (self.items()[1],)));
            assert(call_requires(f, (self.items()[2],)));
            assert(call_requires(f, (self.items()[3],)));
            assert(call_requires(f, (self.items()[4],)));
            assert(call_requires(f, (self.items()[5],)));
            assert(call_requires(f, (self.items()[6],)));
            assert(call_requires(f, (self.items()[7],)));
            assert(call_requires(f, (self.items()[8],)));
            assert(call_requires(f, (self.items()[9],)));
            assert(call_requires(f, (self.items()[10],)));
            assert(call_requires(f, (self.items()[11],)));
            assert(call_requires(f, (self.items()[12],)));
            assert(call_requires(f, (self.items()[13],)));
            assert(call_requires(f, (self.items()[14],)));
            assert(call_requires(f, (self.items()[15],)));
            assert(call_requires(f, (self.items()[16],)));
            assert(call_requires(f, (self.items()[17],)));
            assert(call_requires(f, (self.items()[18],)));
            assert(call_requires(f, (self.items()[19],)));
            assert(call_requires(f, (self.items()[20],)));
            assert(call_requires(f, (self.items()[21],)));
            assert(call_requires(f, (self.items()[22],)));
            assert(call_requires(f, (self.items()[23],)));
            assert(call_requires(f, (self.items()[24],)));
            assert(call_requires(f, (self.items()[25],)));
            assert(call_requires(f, (self.items()[26],)));
            assert(call_requires(f, (self.items()[27],)));
            assert(call_requires(f, (self.items()[28],)));
            assert(call_requires(f, (self.items()[29],)));
            assert(call_requires(f, (self.items()[30],)));
        }
        (f(self.0), f(self.1), f(self.2), f(self.3), f(self.4), f(self.5), f(self.6), f(self.7), f(self.8), f(self.9), f(self.10), f(self.11), f(self.12), f(self.13), f(self.14), f(self.15), f(self.16), f(self.17), f(self.18), f(self.19), f(self.20), f(self.21), f(self.22), f(self.23), f(self.24), f(self.25), f(self.26), f(self.27), f(self.28), f(self.29), f(self.30))
    }
}

impl<T, Rhs: FixedList<T>> TupleConcat<T, Rhs> for (T, T, T, T, T, T, T, T, T, T, T, T, T, T, T, T, T, T, T, T, T, T, T, T, T, T, T, T, T, T, T) where
    (T, T, T, T, T, T, T, T, T, T, T, T, T, T, T, T, T, T, T, T, T, T, T, T, T, T, T, T, T, T): TupleConcat<T, Rhs>,
    <(T, T, T, T, T, T, T, T, T, T, T, T, T, T, T, T, T, T, T, T, T, T, T, T, T, T, T, T, T, T) as TupleConcat<T, Rhs>>::Output: TuplePrepend<T>,
 {
    type Output = <<(T, T, T, T, T, T, T, T, T, T, T, T, T, T, T, T, T, T, T, T, T, T, T, T, T, T, T, T, T, T) as TupleConcat<T, Rhs>>::Output as TuplePrepend<T>>::Output;

    fn concat(self, rhs: Rhs) -> (list: Self::Output) {
        let ghost all = self.items() + rhs.items();
        let ghost more = rhs.items();
        let rest = (self.1, self.2, self.3, self.4, self.5, self.6, self.7, self.8, self.9, self.10, self.11, self.12, self.13, self.14, self.15, self.16, self.17, self.18, self.19, self.20, self.21, self.22, self.23, self.24, self.25, self.26, self.27, self.28, self.29, self.30);
        proof {
            assert(all =~= seq![self.0] + (rest.items() + more));
        }
        rest.concat(rhs).prepend(self.0)
    }
}

impl<T> FixedList<T> for (T, T, T, T, T, T, T, T, T, T, T, T, T, T, T, T, T, T, T, T, T, T, T, T, T, T, T, T, T, T, T, T) {
    open spec fn items(&self) -> Seq<T> {
        seq![self.0, self.1, self.2, self.3, self.4, self.5, self.6, self.7, self.8, self.9, self.10, self.11, self.12, self.13, self.14, self.15, self.16, self.17, self.18, self.19, self.20, self.21, self.22, self.23, self.24, self.25, self.26, self.27, self.28, self.29, self.30, self.31]
    }

    fn len(&self) -> (len: usize) {
        32
    }

    fn get(&self, index: usize) -> (item: Option<&T>) {
        match index {
            0 => Some(&self.0),
            1 => Some(&self.1),
            2 => Some(&self.2),
            3 => Some(&self.3),
            4 => Some(&self.4),
            5 => Some(&self.5),
            6 => Some(&self.6),
            7 => Some(&self.7),
            8 => Some(&self.8),
            9 => Some(&self.9),
            10 => Some(&self.10),
            11 => Some(&self.11),
            12 => Some(&self.12),
            13 => Some(&self.13),
            14 => Some(&self.14),
            15 => Some(&self.15),
            16 => Some(&self.16),
            17 => Some(&self.17),
            18 => Some(&self.18),
            19 => Some(&self.19),
            20 => Some(&self.20),
            21 => Some(&self.21),
            22 => Some(&self.22),
            23 => Some(&self.23),
            24 => Some(&self.24),
            25 => Some(&self.25),
            26 => Some(&self.26),
            27 => Some(&self.27),
            28 => Some(&self.28),
            29 => Some(&self.29),
            30 => Some(&self.30),
            31 => Some(&self.31),
            _ => None,
        }
    }
}

impl<T, U> MapFixedList<T, U> for (T, T, T, T, T, T, T, T, T, T, T, T, T, T, T, T, T, T, T, T, T, T, T, T, T, T, T, T, T, T, T, T) {
    type Output = (U, U, U, U, U, U, U, U, U, U, U, U, U, U, U, U, U, U, U, U, U, U, U, U, U, U, U, U, U, U, U, U);

    fn map_list<F: Fn(T) -> U>(self, f: F) -> (list: (U, U, U, U, U, U, U, U, U, U, U, U, U, U, U, U, U, U, U, U, U, U, U, U, U, U, U, U, U, U, U, U)) {
        proof {
            assert(call_requires(f, (self.items()[0],)));
            assert(call_requires(f, (self.items()[1],)));
            assert(call_requires(f, (self.items()[2],)));
            assert(call_requires(f, (self.items()[3],)));
            assert(call_requires(f, (self.items()[4],)));
            assert(call_requires(f, (self.items()[5],)));
            assert(call_requires(f, (self.items()[6],)));
            assert(call_requires(f, (self.items()[7],)));
            assert(call_requires(f, (self.items()[8],)));
            assert(call_requires(f, (self.items()[9],)));
            assert(call_requires(f, (self.items()[10],)));
            assert(call_requires(f, (self.items()[11],)));
            assert(call_requires(f, (self.items()[12],)));
            assert(call_requires(f, (self.items()[13],)));
            assert(call_requires(f, (self.items()[14],)));
            assert(call_requires(f, (self.items()[15],)));
            assert(call_requires(f, (self.items()[16],)));
            assert(call_requires(f, (self.items()[17],)));
            assert(call_requires(f, (self.items()[18],)));
            assert(call_requires(f, (self.items()[19],)));
            assert(call_requires(f, (self.items()[20],)));
            assert(call_requires(f, (self.items()[21],)));
            assert(call_requires(f, (self.items()[22],)));
            assert(call_requires(f, (self.items()[23],)));
            assert(call_requires(f, (self.items()[24],)));
            assert(call_requires(f, (self.items()[25],)));
            assert(call_requires(f, (self.items()[26],)));
            assert(call_requires(f, (self.items()[27],)));
            assert(call_requires(f, (self.items()[28],)));
            assert(call_requires(f, (self.items()[29],)));
            assert(call_requires(f, (self.items()[30],)));
            assert(call_requires(f, (self.items()[31],)));
        }
        (f(self.0), f(self.1), f(self.2), f(self.3), f(self.4), f(self.5), f(self.6), f(self.7), f(self.8), f(self.9), f(self.10), f(self.11), f(self.12), f(self.13), f(self.14), f(self.15), f(self.16), f(self.17), f(self.18), f(self.19), f(self.20), f(self.21), f(self.22), f(self.23), f(self.24), f(self.25), f(self.26), f(self.27), f(self.28), f(self.29), f(self.30), f(self.31))
    }
}

impl<T, Rhs: FixedList<T>> TupleConcat<T, Rhs> for (T, T, T, T, T, T, T, T, T, T, T, T, T, T, T, T, T, T, T, T, T, T, T, T, T, T, T, T, T, T, T, T) where
    (T, T, T, T, T, T, T, T, T, T, T, T, T, T, T, T, T, T, T, T, T, T, T, T, T, T, T, T, T, T, T): TupleConcat<T, Rhs>,
    <(T, T, T, T, T, T, T, T, T, T, T, T, T, T, T, T, T, T, T, T, T, T, T, T, T, T, T, T, T, T, T) as TupleConcat<T, Rhs>>::Output: TuplePrepend<T>,
 {
    type Output = <<(T, T, T, T, T, T, T, T, T, T, T, T, T, T, T, T, T, T, T, T, T, T, T, T, T, T, T, T, T, T, T) as TupleConcat<T, Rhs>>::Output as TuplePrepend<T>>::Output;

    fn concat(self, rhs: Rhs) -> (list: Self::Output) {
        let ghost all = self.items() + rhs.items();
        let ghost more = rhs.items();
        let rest = (self.1, self.2, self.3, self.4, self.5, self.6, self.7, self.8, self.9, self.10, self.11, self.12, self.13, self.14, self.15, self.16, self.17, self.18, self.19, self.20, self.21, self.22, self.23, self.24, self.25, self.26, self.27, self.28, self.29, self.30, self.31);
        proof {
            assert(all =~= seq![self.0] + (rest.items() + more));
        }
        rest.concat(rhs).prepend(self.0)
    }
}

} // verus!
