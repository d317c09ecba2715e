//! Tuples of nine to thirty-two elements.
use crate::list::{HCons, HList, HNil, ToTuple};
use vstd::prelude::*;

verus! {

impl<T0, T1, T2, T3, T4, T5, T6, T7, T8> ToTuple for HCons<T0, HCons<T1, HCons<T2, HCons<T3, HCons<T4, HCons<T5, HCons<T6, HCons<T7, HCons<T8, HNil>>>>>>>>> {
    type Tuple = (T0, T1, T2, T3, T4, T5, T6, T7, T8);

    open spec fn tuple(self) -> (T0, T1, T2, T3, T4, T5, T6, T7, T8) {
        (self.head, self.tail.head, self.tail.tail.head, self.tail.tail.tail.head, self.tail.tail.tail.tail.head, self.tail.tail.tail.tail.tail.head, self.tail.tail.tail.tail.tail.tail.head, self.tail.tail.tail.tail.tail.tail.tail.head, self.tail.tail.tail.tail.tail.tail.tail.tail.head)
    }

    fn to_tuple(self) -> (tuple: (T0, T1, T2, T3, T4, T5, T6, T7, T8)) {
        (self.head, self.tail.head, self.tail.tail.head, self.tail.tail.tail.head, self.tail.tail.tail.tail.head, self.tail.tail.tail.tail.tail.head, self.tail.tail.tail.tail.tail.tail.head, self.tail.tail.tail.tail.tail.tail.tail.head, self.tail.tail.tail.tail.tail.tail.tail.tail.head)
    }

    proof fn lemma_arity() {
        assert(<HNil as HList>::width() == 0);
        assert(<HCons<T8, HNil> as HList>::width() <= 1);
        assert(<HCons<T7, HCons<T8, HNil>> as HList>::width() <= 2);
        assert(<HCons<T6, HCons<T7, HCons<T8, HNil>>> as HList>::width() <= 3);
        assert(<HCons<T5, HCons<T6, HCons<T7, HCons<T8, HNil>>>> as HList>::width() <= 4);
        assert(<HCons<T4, HCons<T5, HCons<T6, HCons<T7, HCons<T8, HNil>>>>> as HList>::width() <= 5);
        assert(<HCons<T3, HCons<T4, HCons<T5, HCons<T6, HCons<T7, HCons<T8, HNil>>>>>> as HList>::width() <= 6);
        assert(<HCons<T2, HCons<T3, HCons<T4, HCons<T5, HCons<T6, HCons<T7, HCons<T8, HNil>>>>>>> as HList>::width() <= 7);
        assert(<HCons<T1, HCons<T2, HCons<T3, HCons<T4, HCons<T5, HCons<T6, HCons<T7, HCons<T8, HNil>>>>>>>> as HList>::width() <= 8);
        assert(<HCons<T0, HCons<T1, HCons<T2, HCons<T3, HCons<T4, HCons<T5, HCons<T6, HCons<T7, HCons<T8, HNil>>>>>>>>> as HList>::width() <= 9);
    }
}

impl<T0, T1, T2, T3, T4, T5, T6, T7, T8, T9> ToTuple for HCons<T0, HCons<T1, HCons<T2, HCons<T3, HCons<T4, HCons<T5, HCons<T6, HCons<T7, HCons<T8, HCons<T9, HNil>>>>>>>>>> {
    type Tuple = (T0, T1, T2, T3, T4, T5, T6, T7, T8, T9);

    open spec fn tuple(self) -> (T0, T1, T2, T3, T4, T5, T6, T7, T8, T9) {
        (self.head, self.tail.head, self.tail.tail.head, self.tail.tail.tail.head, self.tail.tail.tail.tail.head, self.tail.tail.tail.tail.tail.head, self.tail.tail.tail.tail.tail.tail.head, self.tail.tail.tail.tail.tail.tail.tail.head, self.tail.tail.tail.tail.tail.tail.tail.tail.head, self.tail.tail.tail.tail.tail.tail.tail.tail.tail.head)
    }

    fn to_tuple(self) -> (tuple: (T0, T1, T2, T3, T4, T5, T6, T7, T8, T9)) {
        (self.head, self.tail.head, self.tail.tail.head, self.tail.tail.tail.head, self.tail.tail.tail.tail.head, self.tail.tail.tail.tail.tail.head, self.tail.tail.tail.tail.tail.tail.head, self.tail.tail.tail.tail.tail.tail.tail.head, self.tail.tail.tail.tail.tail.tail.tail.tail.head, self.tail.tail.tail.tail.tail.tail.tail.tail.tail.head)
    }

    proof fn lemma_arity() {
        assert(<HNil as HList>::width() == 0);
        assert(<HCons<T9, HNil> as HList>::width() <= 1);
        assert(<HCons<T8, HCons<T9, HNil>> as HList>::width() <= 2);
        assert(<HCons<T7, HCons<T8, HCons<T9, HNil>>> as HList>::width() <= 3);
        assert(<HCons<T6, HCons<T7, HCons<T8, HCons<T9, HNil>>>> as HList>::width() <= 4);
        assert(<HCons<T5, HCons<T6, HCons<T7, HCons<T8, HCons<T9, HNil>>>>> as HList>::width() <= 5);
        assert(<HCons<T4, HCons<T5, HCons<T6, HCons<T7, HCons<T8, HCons<T9, HNil>>>>>> as HList>::width() <= 6);
        assert(<HCons<T3, HCons<T4, HCons<T5, HCons<T6, HCons<T7, HCons<T8, HCons<T9, HNil>>>>>>> as HList>::width() <= 7);
        assert(<HCons<T2, HCons<T3, HCons<T4, HCons<T5, HCons<T6, HCons<T7, HCons<T8, HCons<T9, HNil>>>>>>>> as HList>::width() <= 8);
        assert(<HCons<T1, HCons<T2, HCons<T3, HCons<T4, HCons<T5, HCons<T6, HCons<T7, HCons<T8, HCons<T9, HNil>>>>>>>>> as HList>::width() <= 9);
        assert(<HCons<T0, HCons<T1, HCons<T2, HCons<T3, HCons<T4, HCons<T5, HCons<T6, HCons<T7, HCons<T8, HCons<T9, HNil>>>>>>>>>> as HList>::width() <= 10);
    }
}

impl<T0, T1, T2, T3, T4, T5, T6, T7, T8, T9, T10> ToTuple for HCons<T0, HCons<T1, HCons<T2, HCons<T3, HCons<T4, HCons<T5, HCons<T6, HCons<T7, HCons<T8, HCons<T9, HCons<T10, HNil>>>>>>>>>>> {
    type Tuple = (T0, T1, T2, T3, T4, T5, T6, T7, T8, T9, T10);

    open spec fn tuple(self) -> (T0, T1, T2, T3, T4, T5, T6, T7, T8, T9, T10) {
        (self.head, self.tail.head, self.tail.tail.head, self.tail.tail.tail.head, self.tail.tail.tail.tail.head, self.tail.tail.tail.tail.tail.head, self.tail.tail.tail.tail.tail.tail.head, self.tail.tail.tail.tail.tail.tail.tail.head, self.tail.tail.tail.tail.tail.tail.tail.tail.head, self.tail.tail.tail.tail.tail.tail.tail.tail.tail.head, self.tail.tail.tail.tail.tail.tail.tail.tail.tail.tail.head)
    }

    fn to_tuple(self) -> (tuple: (T0, T1, T2, T3, T4, T5, T6, T7, T8, T9, T10)) {
        (self.head, self.tail.head, self.tail.tail.head, self.tail.tail.tail.head, self.tail.tail.tail.tail.head, self.tail.tail.tail.tail.tail.head, self.tail.tail.tail.tail.tail.tail.head, self.tail.tail.tail.tail.tail.tail.tail.head, self.tail.tail.tail.tail.tail.tail.tail.tail.head, self.tail.tail.tail.tail.tail.tail.tail.tail.tail.head, self.tail.tail.tail.tail.tail.tail.tail.tail.tail.tail.head)
    }

    proof fn lemma_arity() {
        assert(<HNil as HList>::width() == 0);
        assert(<HCons<T10, HNil> as HList>::width() <= 1);
        assert(<HCons<T9, HCons<T10, HNil>> as HList>::width() <= 2);
        assert(<HCons<T8, HCons<T9, HCons<T10, HNil>>> as HList>::width() <= 3);
        assert(<HCons<T7, HCons<T8, HCons<T9, HCons<T10, HNil>>>> as HList>::width() <= 4);
        assert(<HCons<T6, HCons<T7, HCons<T8, HCons<T9, HCons<T10, HNil>>>>> as HList>::width() <= 5);
        assert(<HCons<T5, HCons<T6, HCons<T7, HCons<T8, HCons<T9, HCons<T10, HNil>>>>>> as HList>::width() <= 6);
        assert(<HCons<T4, HCons<T5, HCons<T6, HCons<T7, HCons<T8, HCons<T9, HCons<T10, HNil>>>>>>> as HList>::width() <= 7);
        assert(<HCons<T3, HCons<T4, HCons<T5, HCons<T6, HCons<T7, HCons<T8, HCons<T9, HCons<T10, HNil>>>>>>>> as HList>::width() <= 8);
        assert(<HCons<T2, HCons<T3, HCons<T4, HCons<T5, HCons<T6, HCons<T7, HCons<T8, HCons<T9, HCons<T10, HNil>>>>>>>>> as HList>::width() <= 9);
        assert(<HCons<T1, HCons<T2, HCons<T3, HCons<T4, HCons<T5, HCons<T6, HCons<T7, HCons<T8, HCons<T9, HCons<T10, HNil>>>>>>>>>> as HList>::width() <= 10);
        assert(<HCons<T0, HCons<T1, HCons<T2, HCons<T3, HCons<T4, HCons<T5, HCons<T6, HCons<T7, HCons<T8, HCons<T9, HCons<T10, HNil>>>>>>>>>>> as HList>::width() <= 11);
    }
}

impl<T0, T1, T2, T3, T4, T5, T6, T7, T8, T9, T10, T11> ToTuple for HCons<T0, HCons<T1, HCons<T2, HCons<T3, HCons<T4, HCons<T5, HCons<T6, HCons<T7, HCons<T8, HCons<T9, HCons<T10, HCons<T11, HNil>>>>>>>>>>>> {
    type Tuple = (T0, T1, T2, T3, T4, T5, T6, T7, T8, T9, T10, T11);

    open spec fn tuple(self) -> (T0, T1, T2, T3, T4, T5, T6, T7, T8, T9, T10, T11) {
        (self.head, self.tail.head, self.tail.tail.head, self.tail.tail.tail.head, self.tail.tail.tail.tail.head, self.tail.tail.tail.tail.tail.head, self.tail.tail.tail.tail.tail.tail.head, self.tail.tail.tail.tail.tail.tail.tail.head, self.tail.tail.tail.tail.tail.tail.tail.tail.head, self.tail.tail.tail.tail.tail.tail.tail.tail.tail.head, self.tail.tail.tail.tail.tail.tail.tail.tail.tail.tail.head, self.tail.tail.tail.tail.tail.tail.tail.tail.tail.tail.tail.head)
    }

    fn to_tuple(self) -> (tuple: (T0, T1, T2, T3, T4, T5, T6, T7, T8, T9, T10, T11)) {
        (self.head, self.tail.head, self.tail.tail.head, self.tail.tail.tail.head, self.tail.tail.tail.tail.head, self.tail.tail.tail.tail.tail.head, self.tail.tail.tail.tail.tail.tail.head, self.tail.tail.tail.tail.tail.tail.tail.head, self.tail.tail.tail.tail.tail.tail.tail.tail.head, self.tail.tail.tail.tail.tail.tail.tail.tail.tail.head, self.tail.tail.tail.tail.tail.tail.tail.tail.tail.tail.head, self.tail.tail.tail.tail.tail.tail.tail.tail.tail.tail.tail.head)
    }

    proof fn lemma_arity() {
        assert(<HNil as HList>::width() == 0);
        assert(<HCons<T11, HNil> as HList>::width() <= 1);
        assert(<HCons<T10, HCons<T11, HNil>> as HList>::width() <= 2);
        assert(<HCons<T9, HCons<T10, HCons<T11, HNil>>> as HList>::width() <= 3);
        assert(<HCons<T8, HCons<T9, HCons<T10, HCons<T11, HNil>>>> as HList>::width() <= 4);
        assert(<HCons<T7, HCons<T8, HCons<T9, HCons<T10, HCons<T11, HNil>>>>> as HList>::width() <= 5);
        assert(<HCons<T6, HCons<T7, HCons<T8, HCons<T9, HCons<T10, HCons<T11, HNil>>>>>> as HList>::width() <= 6);
        assert(<HCons<T5, HCons<T6, HCons<T7, HCons<T8, HCons<T9, HCons<T10, HCons<T11, HNil>>>>>>> as HList>::width() <= 7);
        assert(<HCons<T4, HCons<T5, HCons<T6, HCons<T7, HCons<T8, HCons<T9, HCons<T10, HCons<T11, HNil>>>>>>>> as HList>::width() <= 8);
        assert(<HCons<T3, HCons<T4, HCons<T5, HCons<T6, HCons<T7, HCons<T8, HCons<T9, HCons<T10, HCons<T11, HNil>>>>>>>>> as HList>::width() <= 9);
        assert(<HCons<T2, HCons<T3, HCons<T4, HCons<T5, HCons<T6, HCons<T7, HCons<T8, HCons<T9, HCons<T10, HCons<T11, HNil>>>>>>>>>> as HList>::width() <= 10);
        assert(<HCons<T1, HCons<T2, HCons<T3, HCons<T4, HCons<T5, HCons<T6, HCons<T7, HCons<T8, HCons<T9, HCons<T10, HCons<T11, HNil>>>>>>>>>>> as HList>::width() <= 11);
        assert(<HCons<T0, HCons<T1, HCons<T2, HCons<T3, HCons<T4, HCons<T5, HCons<T6, HCons<T7, HCons<T8, HCons<T9, HCons<T10, HCons<T11, HNil>>>>>>>>>>>> as HList>::width() <= 12);
    }
}

impl<T0, T1, T2, T3, T4, T5, T6, T7, T8, T9, T10, T11, T12> ToTuple for HCons<T0, HCons<T1, HCons<T2, HCons<T3, HCons<T4, HCons<T5, HCons<T6, HCons<T7, HCons<T8, HCons<T9, HCons<T10, HCons<T11, HCons<T12, HNil>>>>>>>>>>>>> {
    type Tuple = (T0, T1, T2, T3, T4, T5, T6, T7, T8, T9, T10, T11, T12);

    open spec fn tuple(self) -> (T0, T1, T2, T3, T4, T5, T6, T7, T8, T9, T10, T11, T12) {
        (self.head, self.tail.head, self.tail.tail.head, self.tail.tail.tail.head, self.tail.tail.tail.tail.head, self.tail.tail.tail.tail.tail.head, self.tail.tail.tail.tail.tail.tail.head, self.tail.tail.tail.tail.tail.tail.tail.head, self.tail.tail.tail.tail.tail.tail.tail.tail.head, self.tail.tail.tail.tail.tail.tail.tail.tail.tail.head, self.tail.tail.tail.tail.tail.tail.tail.tail.tail.tail.head, self.tail.tail.tail.tail.tail.tail.tail.tail.tail.tail.tail.head, self.tail.tail.tail.tail.tail.tail.tail.tail.tail.tail.tail.tail.head)
    }

    fn to_tuple(self) -> (tuple: (T0, T1, T2, T3, T4, T5, T6, T7, T8, T9, T10, T11, T12)) {
        (self.head, self.tail.head, self.tail.tail.head, self.tail.tail.tail.head, self.tail.tail.tail.tail.head, self.tail.tail.tail.tail.tail.head, self.tail.tail.tail.tail.tail.tail.head, self.tail.tail.tail.tail.tail.tail.tail.head, self.tail.tail.tail.tail.tail.tail.tail.tail.head, self.tail.tail.tail.tail.tail.tail.tail.tail.tail.head, self.tail.tail.tail.tail.tail.tail.tail.tail.tail.tail.head, self.tail.tail.tail.tail.tail.tail.tail.tail.tail.tail.tail.head, self.tail.tail.tail.tail.tail.tail.tail.tail.tail.tail.tail.tail.head)
    }

    proof fn lemma_arity() {
        assert(<HNil as HList>::width() == 0);
        assert(<HCons<T12, HNil> as HList>::width() <= 1);
        assert(<HCons<T11, HCons<T12, HNil>> as HList>::width() <= 2);
        assert(<HCons<T10, HCons<T11, HCons<T12, HNil>>> as HList>::width() <= 3);
        assert(<HCons<T9, HCons<T10, HCons<T11, HCons<T12, HNil>>>> as HList>::width() <= 4);
        assert(<HCons<T8, HCons<T9, HCons<T10, HCons<T11, HCons<T12, HNil>>>>> as HList>::width() <= 5);
        assert(<HCons<T7, HCons<T8, HCons<T9, HCons<T10, HCons<T11, HCons<T12, HNil>>>>>> as HList>::width() <= 6);
        assert(<HCons<T6, HCons<T7, HCons<T8, HCons<T9, HCons<T10, HCons<T11, HCons<T12, HNil>>>>>>> as HList>::width() <= 7);
        assert(<HCons<T5, HCons<T6, HCons<T7, HCons<T8, HCons<T9, HCons<T10, HCons<T11, HCons<T12, HNil>>>>>>>> as HList>::width() <= 8);
        assert(<HCons<T4, HCons<T5, HCons<T6, HCons<T7, HCons<T8, HCons<T9, HCons<T10, HCons<T11, HCons<T12, HNil>>>>>>>>> as HList>::width() <= 9);
        assert(<HCons<T3, HCons<T4, HCons<T5, HCons<T6, HCons<T7, HCons<T8, HCons<T9, HCons<T10, HCons<T11, HCons<T12, HNil>>>>>>>>>> as HList>::width() <= 10);
        assert(<HCons<T2, HCons<T3, HCons<T4, HCons<T5, HCons<T6, HCons<T7, HCons<T8, HCons<T9, HCons<T10, HCons<T11, HCons<T12, HNil>>>>>>>>>>> as HList>::width() <= 11);
        assert(<HCons<T1, HCons<T2, HCons<T3, HCons<T4, HCons<T5, HCons<T6, HCons<T7, HCons<T8, HCons<T9, HCons<T10, HCons<T11, HCons<T12, HNil>>>>>>>>>>>> as HList>::width() <= 12);
        assert(<HCons<T0, HCons<T1, HCons<T2, HCons<T3, HCons<T4, HCons<T5, HCons<T6, HCons<T7, HCons<T8, HCons<T9, HCons<T10, HCons<T11, HCons<T12, HNil>>>>>>>>>>>>> as HList>::width() <= 13);
    }
}

impl<T0, T1, T2, T3, T4, T5, T6, T7, T8, T9, T10, T11, T12, T13> ToTuple for HCons<T0, HCons<T1, HCons<T2, HCons<T3, HCons<T4, HCons<T5, HCons<T6, HCons<T7, HCons<T8, HCons<T9, HCons<T10, HCons<T11, HCons<T12, HCons<T13, HNil>>>>>>>>>>>>>> {
    type Tuple = (T0, T1, T2, T3, T4, T5, T6, T7, T8, T9, T10, T11, T12, T13);

    open spec fn tuple(self) -> (T0, T1, T2, T3, T4, T5, T6, T7, T8, T9, T10, T11, T12, T13) {
        (self.head, self.tail.head, self.tail.tail.head, self.tail.tail.tail.head, self.tail.tail.tail.tail.head, self.tail.tail.tail.tail.tail.head, self.tail.tail.tail.tail.tail.tail.head, self.tail.tail.tail.tail.tail.tail.tail.head, self.tail.tail.tail.tail.tail.tail.tail.tail.head, self.tail.tail.tail.tail.tail.tail.tail.tail.tail.head, self.tail.tail.tail.tail.tail.tail.tail.tail.tail.tail.head, self.tail.tail.tail.tail.tail.tail.tail.tail.tail.tail.tail.head, self.tail.tail.tail.tail.tail.tail.tail.tail.tail.tail.tail.tail.head, self.tail.tail.tail.tail.tail.tail.tail.tail.tail.tail.tail.tail.tail.head)
    }

    fn to_tuple(self) -> (tuple: (T0, T1, T2, T3, T4, T5, T6, T7, T8, T9, T10, T11, T12, T13)) {
        (self.head, self.tail.head, self.tail.tail.head, self.tail.tail.tail.head, self.tail.tail.tail.tail.head, self.tail.tail.tail.tail.tail.head, self.tail.tail.tail.tail.tail.tail.head, self.tail.tail.tail.tail.tail.tail.tail.head, self.tail.tail.tail.tail.tail.tail.tail.tail.head, self.tail.tail.tail.tail.tail.tail.tail.tail.tail.head, self.tail.tail.tail.tail.tail.tail.tail.tail.tail.tail.head, self.tail.tail.tail.tail.tail.tail.tail.tail.tail.tail.tail.head, self.tail.tail.tail.tail.tail.tail.tail.tail.tail.tail.tail.tail.head, self.tail.tail.tail.tail.tail.tail.tail.tail.tail.tail.tail.tail.tail.head)
    }

    proof fn lemma_arity() {
        assert(<HNil as HList>::width() == 0);
        assert(<HCons<T13, HNil> as HList>::width() <= 1);
        assert(<HCons<T12, HCons<T13, HNil>> as HList>::width() <= 2);
        assert(<HCons<T11, HCons<T12, HCons<T13, HNil>>> as HList>::width() <= 3);
        assert(<HCons<T10, HCons<T11, HCons<T12, HCons<T13, HNil>>>> as HList>::width() <= 4);
        assert(<HCons<T9, HCons<T10, HCons<T11, HCons<T12, HCons<T13, HNil>>>>> as HList>::width() <= 5);
        assert(<HCons<T8, HCons<T9, HCons<T10, HCons<T11, HCons<T12, HCons<T13, HNil>>>>>> as HList>::width() <= 6);
        assert(<HCons<T7, HCons<T8, HCons<T9, HCons<T10, HCons<T11, HCons<T12, HCons<T13, HNil>>>>>>> as HList>::width() <= 7);
        assert(<HCons<T6, HCons<T7, HCons<T8, HCons<T9, HCons<T10, HCons<T11, HCons<T12, HCons<T13, HNil>>>>>>>> as HList>::width() <= 8);
        assert(<HCons<T5, HCons<T6, HCons<T7, HCons<T8, HCons<T9, HCons<T10, HCons<T11, HCons<T12, HCons<T13, HNil>>>>>>>>> as HList>::width() <= 9);
        assert(<HCons<T4, HCons<T5, HCons<T6, HCons<T7, HCons<T8, HCons<T9, HCons<T10, HCons<T11, HCons<T12, HCons<T13, HNil>>>>>>>>>> as HList>::width() <= 10);
        assert(<HCons<T3, HCons<T4, HCons<T5, HCons<T6, HCons<T7, HCons<T8, HCons<T9, HCons<T10, HCons<T11, HCons<T12, HCons<T13, HNil>>>>>>>>>>> as HList>::width() <= 11);
        assert(<HCons<T2, HCons<T3, HCons<T4, HCons<T5, HCons<T6, HCons<T7, HCons<T8, HCons<T9, HCons<T10, HCons<T11, HCons<T12, HCons<T13, HNil>>>>>>>>>>>> as HList>::width() <= 12);
        assert(<HCons<T1, HCons<T2, HCons<T3, HCons<T4, HCons<T5, HCons<T6, HCons<T7, HCons<T8, HCons<T9, HCons<T10, HCons<T11, HCons<T12, HCons<T13, HNil>>>>>>>>>>>>> as HList>::width() <= 13);
        assert(<HCons<T0, HCons<T1, HCons<T2, HCons<T3, HCons<T4, HCons<T5, HCons<T6, HCons<T7, HCons<T8, HCons<T9, HCons<T10, HCons<T11, HCons<T12, HCons<T13, HNil>>>>>>>>>>>>>> as HList>::width() <= 14);
    }
}

impl<T0, T1, T2, T3, T4, T5, T6, T7, T8, T9, T10, T11, T12, T13, T14> ToTuple for HCons<T0, HCons<T1, HCons<T2, HCons<T3, HCons<T4, HCons<T5, HCons<T6, HCons<T7, HCons<T8, HCons<T9, HCons<T10, HCons<T11, HCons<T12, HCons<T13, HCons<T14, HNil>>>>>>>>>>>>>>> {
    type Tuple = (T0, T1, T2, T3, T4, T5, T6, T7, T8, T9, T10, T11, T12, T13, T14);

    open spec fn tuple(self) -> (T0, T1, T2, T3, T4, T5, T6, T7, T8, T9, T10, T11, T12, T13, T14) {
        (self.head, self.tail.head, self.tail.tail.head, self.tail.tail.tail.head, self.tail.tail.tail.tail.head, self.tail.tail.tail.tail.tail.head, self.tail.tail.tail.tail.tail.tail.head, self.tail.tail.tail.tail.tail.tail.tail.head, self.tail.tail.tail.tail.tail.tail.tail.tail.head, self.tail.tail.tail.tail.tail.tail.tail.tail.tail.head, self.tail.tail.tail.tail.tail.tail.tail.tail.tail.tail.head, self.tail.tail.tail.tail.tail.tail.tail.tail.tail.tail.tail.head, self.tail.tail.tail.tail.tail.tail.tail.tail.tail.tail.tail.tail.head, self.tail.tail.tail.tail.tail.tail.tail.tail.tail.tail.tail.tail.tail.head, self.tail.tail.tail.tail.tail.tail.tail.tail.tail.tail.tail.tail.tail.tail.head)
    }

    fn to_tuple(self) -> (tuple: (T0, T1, T2, T3, T4, T5, T6, T7, T8, T9, T10, T11, T12, T13, T14)) {
        (self.head, self.tail.head, self.tail.tail.head, self.tail.tail.tail.head, self.tail.tail.tail.tail.head, self.tail.tail.tail.tail.tail.head, self.tail.tail.tail.tail.tail.tail.head, self.tail.tail.tail.tail.tail.tail.tail.head, self.tail.tail.tail.tail.tail.tail.tail.tail.head, self.tail.tail.tail.tail.tail.tail.tail.tail.tail.head, self.tail.tail.tail.tail.tail.tail.tail.tail.tail.tail.head, self.tail.tail.tail.tail.tail.tail.tail.tail.tail.tail.tail.head, self.tail.tail.tail.tail.tail.tail.tail.tail.tail.tail.tail.tail.head, self.tail.tail.tail.tail.tail.tail.tail.tail.tail.tail.tail.tail.tail.head, self.tail.tail.tail.tail.tail.tail.tail.tail.tail.tail.tail.tail.tail.tail.head)
    }

    proof fn lemma_arity() {
        assert(<HNil as HList>::width() == 0);
        assert(<HCons<T14, HNil> as HList>::width() <= 1);
        assert(<HCons<T13, HCons<T14, HNil>> as HList>::width() <= 2);
        assert(<HCons<T12, HCons<T13, HCons<T14, HNil>>> as HList>::width() <= 3);
        assert(<HCons<T11, HCons<T12, HCons<T13, HCons<T14, HNil>>>> as HList>::width() <= 4);
        assert(<HCons<T10, HCons<T11, HCons<T12, HCons<T13, HCons<T14, HNil>>>>> as HList>::width() <= 5);
        assert(<HCons<T9, HCons<T10, HCons<T11, HCons<T12, HCons<T13, HCons<T14, HNil>>>>>> as HList>::width() <= 6);
        assert(<HCons<T8, HCons<T9, HCons<T10, HCons<T11, HCons<T12, HCons<T13, HCons<T14, HNil>>>>>>> as HList>::width() <= 7);
        assert(<HCons<T7, HCons<T8, HCons<T9, HCons<T10, HCons<T11, HCons<T12, HCons<T13, HCons<T14, HNil>>>>>>>> as HList>::width() <= 8);
        assert(<HCons<T6, HCons<T7, HCons<T8, HCons<T9, HCons<T10, HCons<T11, HCons<T12, HCons<T13, HCons<T14, HNil>>>>>>>>> as HList>::width() <= 9);
        assert(<HCons<T5, HCons<T6, HCons<T7, HCons<T8, HCons<T9, HCons<T10, HCons<T11, HCons<T12, HCons<T13, HCons<T14, HNil>>>>>>>>>> as HList>::width() <= 10);
        assert(<HCons<T4, HCons<T5, HCons<T6, HCons<T7, HCons<T8, HCons<T9, HCons<T10, HCons<T11, HCons<T12, HCons<T13, HCons<T14, HNil>>>>>>>>>>> as HList>::width() <= 11);
        assert(<HCons<T3, HCons<T4, HCons<T5, HCons<T6, HCons<T7, HCons<T8, HCons<T9, HCons<T10, HCons<T11, HCons<T12, HCons<T13, HCons<T14, HNil>>>>>>>>>>>> as HList>::width() <= 12);
        assert(<HCons<T2, HCons<T3, HCons<T4, HCons<T5, HCons<T6, HCons<T7, HCons<T8, HCons<T9, HCons<T10, HCons<T11, HCons<T12, HCons<T13, HCons<T14, HNil>>>>>>>>>>>>> as HList>::width() <= 13);
        assert(<HCons<T1, HCons<T2, HCons<T3, HCons<T4, HCons<T5, HCons<T6, HCons<T7, HCons<T8, HCons<T9, HCons<T10, HCons<T11, HCons<T12, HCons<T13, HCons<T14, HNil>>>>>>>>>>>>>> as HList>::width() <= 14);
        assert(<HCons<T0, HCons<T1, HCons<T2, HCons<T3, HCons<T4, HCons<T5, HCons<T6, HCons<T7, HCons<T8, HCons<T9, HCons<T10, HCons<T11, HCons<T12, HCons<T13, HCons<T14, HNil>>>>>>>>>>>>>>> as HList>::width() <= 15);
    }
}

impl<T0, T1, T2, T3, T4, T5, T6, T7, T8, T9, T10, T11, T12, T13, T14, T15> ToTuple for HCons<T0, HCons<T1, HCons<T2, HCons<T3, HCons<T4, HCons<T5, HCons<T6, HCons<T7, HCons<T8, HCons<T9, HCons<T10, HCons<T11, HCons<T12, HCons<T13, HCons<T14, HCons<T15, HNil>>>>>>>>>>>>>>>> {
    type Tuple = (T0, T1, T2, T3, T4, T5, T6, T7, T8, T9, T10, T11, T12, T13, T14, T15);

    open spec fn tuple(self) -> (T0, T1, T2, T3, T4, T5, T6, T7, T8, T9, T10, T11, T12, T13, T14, T15) {
        (self.head, self.tail.head, self.tail.tail.head, self.tail.tail.tail.head, self.tail.tail.tail.tail.head, self.tail.tail.tail.tail.tail.head, self.tail.tail.tail.tail.tail.tail.head, self.tail.tail.tail.tail.tail.tail.tail.head, self.tail.tail.tail.tail.tail.tail.tail.tail.head, self.tail.tail.tail.tail.tail.tail.tail.tail.tail.head, self.tail.tail.tail.tail.tail.tail.tail.tail.tail.tail.head, self.tail.tail.tail.tail.tail.tail.tail.tail.tail.tail.tail.head, self.tail.tail.tail.tail.tail.tail.tail.tail.tail.tail.tail.tail.head, self.tail.tail.tail.tail.tail.tail.tail.tail.tail.tail.tail.tail.tail.head, self.tail.tail.tail.tail.tail.tail.tail.tail.tail.tail.tail.tail.tail.tail.head, self.tail.tail.tail.tail.tail.tail.tail.tail.tail.tail.tail.tail.tail.tail.tail.head)
    }

    fn to_tuple(self) -> (tuple: (T0, T1, T2, T3, T4, T5, T6, T7, T8, T9, T10, T11, T12, T13, T14, T15)) {
        (self.head, self.tail.head, self.tail.tail.head, self.tail.tail.tail.head, self.tail.tail.tail.tail.head, self.tail.tail.tail.tail.tail.head, self.tail.tail.tail.tail.tail.tail.head, self.tail.tail.tail.tail.tail.tail.tail.head, self.tail.tail.tail.tail.tail.tail.tail.tail.head, self.tail.tail.tail.tail.tail.tail.tail.tail.tail.head, self.tail.tail.tail.tail.tail.tail.tail.tail.tail.tail.head, self.tail.tail.tail.tail.tail.tail.tail.tail.tail.tail.tail.head, self.tail.tail.tail.tail.tail.tail.tail.tail.tail.tail.tail.tail.head, self.tail.tail.tail.tail.tail.tail.tail.tail.tail.tail.tail.tail.tail.head, self.tail.tail.tail.tail.tail.tail.tail.tail.tail.tail.tail.tail.tail.tail.head, self.tail.tail.tail.tail.tail.tail.tail.tail.tail.tail.tail.tail.tail.tail.tail.head)
    }

    proof fn lemma_arity() {
        assert(<HNil as HList>::width() == 0);
        assert(<HCons<T15, HNil> as HList>::width() <= 1);
        assert(<HCons<T14, HCons<T15, HNil>> as HList>::width() <= 2);
        assert(<HCons<T13, HCons<T14, HCons<T15, HNil>>> as HList>::width() <= 3);
        assert(<HCons<T12, HCons<T13, HCons<T14, HCons<T15, HNil>>>> as HList>::width() <= 4);
        assert(<HCons<T11, HCons<T12, HCons<T13, HCons<T14, HCons<T15, HNil>>>>> as HList>::width() <= 5);
        assert(<HCons<T10, HCons<T11, HCons<T12, HCons<T13, HCons<T14, HCons<T15, HNil>>>>>> as HList>::width() <= 6);
        assert(<HCons<T9, HCons<T10, HCons<T11, HCons<T12, HCons<T13, HCons<T14, HCons<T15, HNil>>>>>>> as HList>::width() <= 7);
        assert(<HCons<T8, HCons<T9, HCons<T10, HCons<T11, HCons<T12, HCons<T13, HCons<T14, HCons<T15, HNil>>>>>>>> as HList>::width() <= 8);
        assert(<HCons<T7, HCons<T8, HCons<T9, HCons<T10, HCons<T11, HCons<T12, HCons<T13, HCons<T14, HCons<T15, HNil>>>>>>>>> as HList>::width() <= 9);
        assert(<HCons<T6, HCons<T7, HCons<T8, HCons<T9, HCons<T10, HCons<T11, HCons<T12, HCons<T13, HCons<T14, HCons<T15, HNil>>>>>>>>>> as HList>::width() <= 10);
        assert(<HCons<T5, HCons<T6, HCons<T7, HCons<T8, HCons<T9, HCons<T10, HCons<T11, HCons<T12, HCons<T13, HCons<T14, HCons<T15, HNil>>>>>>>>>>> as HList>::width() <= 11);
        assert(<HCons<T4, HCons<T5, HCons<T6, HCons<T7, HCons<T8, HCons<T9, HCons<T10, HCons<T11, HCons<T12, HCons<T13, HCons<T14, HCons<T15, HNil>>>>>>>>>>>> as HList>::width() <= 12);
        assert(<HCons<T3, HCons<T4, HCons<T5, HCons<T6, HCons<T7, HCons<T8, HCons<T9, HCons<T10, HCons<T11, HCons<T12, HCons<T13, HCons<T14, HCons<T15, HNil>>>>>>>>>>>>> as HList>::width() <= 13);
        assert(<HCons<T2, HCons<T3, HCons<T4, HCons<T5, HCons<T6, HCons<T7, HCons<T8, HCons<T9, HCons<T10, HCons<T11, HCons<T12, HCons<T13, HCons<T14, HCons<T15, HNil>>>>>>>>>>>>>> as HList>::width() <= 14);
        assert(<HCons<T1, HCons<T2, HCons<T3, HCons<T4, HCons<T5, HCons<T6, HCons<T7, HCons<T8, HCons<T9, HCons<T10, HCons<T11, HCons<T12, HCons<T13, HCons<T14, HCons<T15, HNil>>>>>>>>>>>>>>> as HList>::width() <= 15);
        assert(<HCons<T0, HCons<T1, HCons<T2, HCons<T3, HCons<T4, HCons<T5, HCons<T6, HCons<T7, HCons<T8, HCons<T9, HCons<T10, HCons<T11, HCons<T12, HCons<T13, HCons<T14, HCons<T15, HNil>>>>>>>>>>>>>>>> as HList>::width() <= 16);
    }
}

impl<T0, T1, T2, T3, T4, T5, T6, T7, T8, T9, T10, T11, T12, T13, T14, T15, T16> ToTuple for HCons<T0, HCons<T1, HCons<T2, HCons<T3, HCons<T4, HCons<T5, HCons<T6, HCons<T7, HCons<T8, HCons<T9, HCons<T10, HCons<T11, HCons<T12, HCons<T13, HCons<T14, HCons<T15, HCons<T16, HNil>>>>>>>>>>>>>>>>> {
    type Tuple = (T0, T1, T2, T3, T4, T5, T6, T7, T8, T9, T10, T11, T12, T13, T14, T15, T16);

    open spec fn tuple(self) -> (T0, T1, T2, T3, T4, T5, T6, T7, T8, T9, T10, T11, T12, T13, T14, T15, T16) {
        (self.head, self.tail.head, self.tail.tail.head, self.tail.tail.tail.head, self.tail.tail.tail.tail.head, self.tail.tail.tail.tail.tail.head, self.tail.tail.tail.tail.tail.tail.head, self.tail.tail.tail.tail.tail.tail.tail.head, self.tail.tail.tail.tail.tail.tail.tail.tail.head, self.tail.tail.tail.tail.tail.tail.tail.tail.tail.head, self.tail.tail.tail.tail.tail.tail.tail.tail.tail.tail.head, self.tail.tail.tail.tail.tail.tail.tail.tail.tail.tail.tail.head, self.tail.tail.tail.tail.tail.tail.tail.tail.tail.tail.tail.tail.head, self.tail.tail.tail.tail.tail.tail.tail.tail.tail.tail.tail.tail.tail.head, self.tail.tail.tail.tail.tail.tail.tail.tail.tail.tail.tail.tail.tail.tail.head, self.tail.tail.tail.tail.tail.tail.tail.tail.tail.tail.tail.tail.tail.tail.tail.head, self.tail.tail.tail.tail.tail.tail.tail.tail.tail.tail.tail.tail.tail.tail.tail.tail.head)
    }

    fn to_tuple(self) -> (tuple: (T0, T1, T2, T3, T4, T5, T6, T7, T8, T9, T10, T11, T12, T13, T14, T15, T16)) {
        (self.head, self.tail.head, self.tail.tail.head, self.tail.tail.tail.head, self.tail.tail.tail.tail.head, self.tail.tail.tail.tail.tail.head, self.tail.tail.tail.tail.tail.tail.head, self.tail.tail.tail.tail.tail.tail.tail.head, self.tail.tail.tail.tail.tail.tail.tail.tail.head, self.tail.tail.tail.tail.tail.tail.tail.tail.tail.head, self.tail.tail.tail.tail.tail.tail.tail.tail.tail.tail.head, self.tail.tail.tail.tail.tail.tail.tail.tail.tail.tail.tail.head, self.tail.tail.tail.tail.tail.tail.tail.tail.tail.tail.tail.tail.head, self.tail.tail.tail.tail.tail.tail.tail.tail.tail.tail.tail.tail.tail.head, self.tail.tail.tail.tail.tail.tail.tail.tail.tail.tail.tail.tail.tail.tail.head, self.tail.tail.tail.tail.tail.tail.tail.tail.tail.tail.tail.tail.tail.tail.tail.head, self.tail.tail.tail.tail.tail.tail.tail.tail.tail.tail.tail.tail.tail.tail.tail.tail.head)
    }

    proof fn lemma_arity() {
        assert(<HNil as HList>::width() == 0);
        assert(<HCons<T16, HNil> as HList>::width() <= 1);
        assert(<HCons<T15, HCons<T16, HNil>> as HList>::width() <= 2);
        assert(<HCons<T14, HCons<T15, HCons<T16, HNil>>> as HList>::width() <= 3);
        assert(<HCons<T13, HCons<T14, HCons<T15, HCons<T16, HNil>>>> as HList>::width() <= 4);
        assert(<HCons<T12, HCons<T13, HCons<T14, HCons<T15, HCons<T16, HNil>>>>> as HList>::width() <= 5);
        assert(<HCons<T11, HCons<T12, HCons<T13, HCons<T14, HCons<T15, HCons<T16, HNil>>>>>> as HList>::width() <= 6);
        assert(<HCons<T10, HCons<T11, HCons<T12, HCons<T13, HCons<T14, HCons<T15, HCons<T16, HNil>>>>>>> as HList>::width() <= 7);
        assert(<HCons<T9, HCons<T10, HCons<T11, HCons<T12, HCons<T13, HCons<T14, HCons<T15, HCons<T16, HNil>>>>>>>> as HList>::width() <= 8);
        assert(<HCons<T8, HCons<T9, HCons<T10, HCons<T11, HCons<T12, HCons<T13, HCons<T14, HCons<T15, HCons<T16, HNil>>>>>>>>> as HList>::width() <= 9);
        assert(<HCons<T7, HCons<T8, HCons<T9, HCons<T10, HCons<T11, HCons<T12, HCons<T13, HCons<T14, HCons<T15, HCons<T16, HNil>>>>>>>>>> as HList>::width() <= 10);
        assert(<HCons<T6, HCons<T7, HCons<T8, HCons<T9, HCons<T10, HCons<T11, HCons<T12, HCons<T13, HCons<T14, HCons<T15, HCons<T16, HNil>>>>>>>>>>> as HList>::width() <= 11);
        assert(<HCons<T5, HCons<T6, HCons<T7, HCons<T8, HCons<T9, HCons<T10, HCons<T11, HCons<T12, HCons<T13, HCons<T14, HCons<T15, HCons<T16, HNil>>>>>>>>>>>> as HList>::width() <= 12);
        assert(<HCons<T4, HCons<T5, HCons<T6, HCons<T7, HCons<T8, HCons<T9, HCons<T10, HCons<T11, HCons<T12, HCons<T13, HCons<T14, HCons<T15, HCons<T16, HNil>>>>>>>>>>>>> as HList>::width() <= 13);
        assert(<HCons<T3, HCons<T4, HCons<T5, HCons<T6, HCons<T7, HCons<T8, HCons<T9, HCons<T10, HCons<T11, HCons<T12, HCons<T13, HCons<T14, HCons<T15, HCons<T16, HNil>>>>>>>>>>>>>> as HList>::width() <= 14);
        assert(<HCons<T2, HCons<T3, HCons<T4, HCons<T5, HCons<T6, HCons<T7, HCons<T8, HCons<T9, HCons<T10, HCons<T11, HCons<T12, HCons<T13, HCons<T14, HCons<T15, HCons<T16, HNil>>>>>>>>>>>>>>> as HList>::width() <= 15);
        assert(<HCons<T1, HCons<T2, HCons<T3, HCons<T4, HCons<T5, HCons<T6, HCons<T7, HCons<T8, HCons<T9, HCons<T10, HCons<T11, HCons<T12, HCons<T13, HCons<T14, HCons<T15, HCons<T16, HNil>>>>>>>>>>>>>>>> as HList>::width() <= 16);
        assert(<HCons<T0, HCons<T1, HCons<T2, HCons<T3, HCons<T4, HCons<T5, HCons<T6, HCons<T7, HCons<T8, HCons<T9, HCons<T10, HCons<T11, HCons<T12, HCons<T13, HCons<T14, HCons<T15, HCons<T16, HNil>>>>>>>>>>>>>>>>> as HList>::width() <= 17);
    }
}

impl<T0, T1, T2, T3, T4, T5, T6, T7, T8, T9, T10, T11, T12, T13, T14, T15, T16, T17> ToTuple for HCons<T0, HCons<T1, HCons<T2, HCons<T3, HCons<T4, HCons<T5, HCons<T6, HCons<T7, HCons<T8, HCons<T9, HCons<T10, HCons<T11, HCons<T12, HCons<T13, HCons<T14, HCons<T15, HCons<T16, HCons<T17, HNil>>>>>>>>>>>>>>>>>> {
    type Tuple = (T0, T1, T2, T3, T4, T5, T6, T7, T8, T9, T10, T11, T12, T13, T14, T15, T16, T17);

    open spec fn tuple(self) -> (T0, T1, T2, T3, T4, T5, T6, T7, T8, T9, T10, T11, T12, T13, T14, T15, T16, T17) {
        (self.head, self.tail.head, self.tail.tail.head, self.tail.tail.tail.head, self.tail.tail.tail.tail.head, self.tail.tail.tail.tail.tail.head, self.tail.tail.tail.tail.tail.tail.head, self.tail.tail.tail.tail.tail.tail.tail.head, self.tail.tail.tail.tail.tail.tail.tail.tail.head, self.tail.tail.tail.tail.tail.tail.tail.tail.tail.head, self.tail.tail.tail.tail.tail.tail.tail.tail.tail.tail.head, self.tail.tail.tail.tail.tail.tail.tail.tail.tail.tail.tail.head, self.tail.tail.tail.tail.tail.tail.tail.tail.tail.tail.tail.tail.head, self.tail.tail.tail.tail.tail.tail.tail.tail.tail.tail.tail.tail.tail.head, self.tail.tail.tail.tail.tail.tail.tail.tail.tail.tail.tail.tail.tail.tail.head, self.tail.tail.tail.tail.tail.tail.tail.tail.tail.tail.tail.tail.tail.tail.tail.head, self.tail.tail.tail.tail.tail.tail.tail.tail.tail.tail.tail.tail.tail.tail.tail.tail.head, self.tail.tail.tail.tail.tail.tail.tail.tail.tail.tail.tail.tail.tail.tail.tail.tail.tail.head)
    }

    fn to_tuple(self) -> (tuple: (T0, T1, T2, T3, T4, T5, T6, T7, T8, T9, T10, T11, T12, T13, T14, T15, T16, T17)) {
        (self.head, self.tail.head, self.tail.tail.head, self.tail.tail.tail.head, self.tail.tail.tail.tail.head, self.tail.tail.tail.tail.tail.head, self.tail.tail.tail.tail.tail.tail.head, self.tail.tail.tail.tail.tail.tail.tail.head, self.tail.tail.tail.tail.tail.tail.tail.tail.head, self.tail.tail.tail.tail.tail.tail.tail.tail.tail.head, self.tail.tail.tail.tail.tail.tail.tail.tail.tail.tail.head, self.tail.tail.tail.tail.tail.tail.tail.tail.tail.tail.tail.head, self.tail.tail.tail.tail.tail.tail.tail.tail.tail.tail.tail.tail.head, self.tail.tail.tail.tail.tail.tail.tail.tail.tail.tail.tail.tail.tail.head, self.tail.tail.tail.tail.tail.tail.tail.tail.tail.tail.tail.tail.tail.tail.head, self.tail.tail.tail.tail.tail.tail.tail.tail.tail.tail.tail.tail.tail.tail.tail.head, self.tail.tail.tail.tail.tail.tail.tail.tail.tail.tail.tail.tail.tail.tail.tail.tail.head, self.tail.tail.tail.tail.tail.tail.tail.tail.tail.tail.tail.tail.tail.tail.tail.tail.tail.head)
    }

    proof fn lemma_arity() {
        assert(<HNil as HList>::width() == 0);
        assert(<HCons<T17, HNil> as HList>::width() <= 1);
        assert(<HCons<T16, HCons<T17, HNil>> as HList>::width() <= 2);
        assert(<HCons<T15, HCons<T16, HCons<T17, HNil>>> as HList>::width() <= 3);
        assert(<HCons<T14, HCons<T15, HCons<T16, HCons<T17, HNil>>>> as HList>::width() <= 4);
        assert(<HCons<T13, HCons<T14, HCons<T15, HCons<T16, HCons<T17, HNil>>>>> as HList>::width() <= 5);
        assert(<HCons<T12, HCons<T13, HCons<T14, HCons<T15, HCons<T16, HCons<T17, HNil>>>>>> as HList>::width() <= 6);
        assert(<HCons<T11, HCons<T12, HCons<T13, HCons<T14, HCons<T15, HCons<T16, HCons<T17, HNil>>>>>>> as HList>::width() <= 7);
        assert(<HCons<T10, HCons<T11, HCons<T12, HCons<T13, HCons<T14, HCons<T15, HCons<T16, HCons<T17, HNil>>>>>>>> as HList>::width() <= 8);
        assert(<HCons<T9, HCons<T10, HCons<T11, HCons<T12, HCons<T13, HCons<T14, HCons<T15, HCons<T16, HCons<T17, HNil>>>>>>>>> as HList>::width() <= 9);
        assert(<HCons<T8, HCons<T9, HCons<T10, HCons<T11, HCons<T12, HCons<T13, HCons<T14, HCons<T15, HCons<T16, HCons<T17, HNil>>>>>>>>>> as HList>::width() <= 10);
        assert(<HCons<T7, HCons<T8, HCons<T9, HCons<T10, HCons<T11, HCons<T12, HCons<T13, HCons<T14, HCons<T15, HCons<T16, HCons<T17, HNil>>>>>>>>>>> as HList>::width() <= 11);
        assert(<HCons<T6, HCons<T7, HCons<T8, HCons<T9, HCons<T10, HCons<T11, HCons<T12, HCons<T13, HCons<T14, HCons<T15, HCons<T16, HCons<T17, HNil>>>>>>>>>>>> as HList>::width() <= 12);
        assert(<HCons<T5, HCons<T6, HCons<T7, HCons<T8, HCons<T9, HCons<T10, HCons<T11, HCons<T12, HCons<T13, HCons<T14, HCons<T15, HCons<T16, HCons<T17, HNil>>>>>>>>>>>>> as HList>::width() <= 13);
        assert(<HCons<T4, HCons<T5, HCons<T6, HCons<T7, HCons<T8, HCons<T9, HCons<T10, HCons<T11, HCons<T12, HCons<T13, HCons<T14, HCons<T15, HCons<T16, HCons<T17, HNil>>>>>>>>>>>>>> as HList>::width() <= 14);
        assert(<HCons<T3, HCons<T4, HCons<T5, HCons<T6, HCons<T7, HCons<T8, HCons<T9, HCons<T10, HCons<T11, HCons<T12, HCons<T13, HCons<T14, HCons<T15, HCons<T16, HCons<T17, HNil>>>>>>>>>>>>>>> as HList>::width() <= 15);
        assert(<HCons<T2, HCons<T3, HCons<T4, HCons<T5, HCons<T6, HCons<T7, HCons<T8, HCons<T9, HCons<T10, HCons<T11, HCons<T12, HCons<T13, HCons<T14, HCons<T15, HCons<T16, HCons<T17, HNil>>>>>>>>>>>>>>>> as HList>::width() <= 16);
        assert(<HCons<T1, HCons<T2, HCons<T3, HCons<T4, HCons<T5, HCons<T6, HCons<T7, HCons<T8, HCons<T9, HCons<T10, HCons<T11, HCons<T12, HCons<T13, HCons<T14, HCons<T15, HCons<T16, HCons<T17, HNil>>>>>>>>>>>>>>>>> as HList>::width() <= 17);
        assert(<HCons<T0, HCons<T1, HCons<T2, HCons<T3, HCons<T4, HCons<T5, HCons<T6, HCons<T7, HCons<T8, HCons<T9, HCons<T10, HCons<T11, HCons<T12, HCons<T13, HCons<T14, HCons<T15, HCons<T16, HCons<T17, HNil>>>>>>>>>>>>>>>>>> as HList>::width() <= 18);
    }
}

impl<T0, T1, T2, T3, T4, T5, T6, T7, T8, T9, T10, T11, T12, T13, T14, T15, T16, T17, T18> ToTuple for HCons<T0, HCons<T1, HCons<T2, HCons<T3, HCons<T4, HCons<T5, HCons<T6, HCons<T7, HCons<T8, HCons<T9, HCons<T10, HCons<T11, HCons<T12, HCons<T13, HCons<T14, HCons<T15, HCons<T16, HCons<T17, HCons<T18, HNil>>>>>>>>>>>>>>>>>>> {
    type Tuple = (T0, T1, T2, T3, T4, T5, T6, T7, T8, T9, T10, T11, T12, T13, T14, T15, T16, T17, T18);

    open spec fn tuple(self) -> (T0, T1, T2, T3, T4, T5, T6, T7, T8, T9, T10, T11, T12, T13, T14, T15, T16, T17, T18) {
        (self.head, self.tail.head, self.tail.tail.head, self.tail.tail.tail.head, self.tail.tail.tail.tail.head, self.tail.tail.tail.tail.tail.head, self.tail.tail.tail.tail.tail.tail.head, self.tail.tail.tail.tail.tail.tail.tail.head, self.tail.tail.tail.tail.tail.tail.tail.tail.head, self.tail.tail.tail.tail.tail.tail.tail.tail.tail.head, self.tail.tail.tail.tail.tail.tail.tail.tail.tail.tail.head, self.tail.tail.tail.tail.tail.tail.tail.tail.tail.tail.tail.head, self.tail.tail.tail.tail.tail.tail.tail.tail.tail.tail.tail.tail.head, self.tail.tail.tail.tail.tail.tail.tail.tail.tail.tail.tail.tail.tail.head, self.tail.tail.tail.tail.tail.tail.tail.tail.tail.tail.tail.tail.tail.tail.head, self.tail.tail.tail.tail.tail.tail.tail.tail.tail.tail.tail.tail.tail.tail.tail.head, self.tail.tail.tail.tail.tail.tail.tail.tail.tail.tail.tail.tail.tail.tail.tail.tail.head, self.tail.tail.tail.tail.tail.tail.tail.tail.tail.tail.tail.tail.tail.tail.tail.tail.tail.head, self.tail.tail.tail.tail.tail.tail.tail.tail.tail.tail.tail.tail.tail.tail.tail.tail.tail.tail.head)
    }

    fn to_tuple(self) -> (tuple: (T0, T1, T2, T3, T4, T5, T6, T7, T8, T9, T10, T11, T12, T13, T14, T15, T16, T17, T18)) {
        (self.head, self.tail.head, self.tail.tail.head, self.tail.tail.tail.head, self.tail.tail.tail.tail.head, self.tail.tail.tail.tail.tail.head, self.tail.tail.tail.tail.tail.tail.head, self.tail.tail.tail.tail.tail.tail.tail.head, self.tail.tail.tail.tail.tail.tail.tail.tail.head, self.tail.tail.tail.tail.tail.tail.tail.tail.tail.head, self.tail.tail.tail.tail.tail.tail.tail.tail.tail.tail.head, self.tail.tail.tail.tail.tail.tail.tail.tail.tail.tail.tail.head, self.tail.tail.tail.tail.tail.tail.tail.tail.tail.tail.tail.tail.head, self.tail.tail.tail.tail.tail.tail.tail.tail.tail.tail.tail.tail.tail.head, self.tail.tail.tail.tail.tail.tail.tail.tail.tail.tail.tail.tail.tail.tail.head, self.tail.tail.tail.tail.tail.tail.tail.tail.tail.tail.tail.tail.tail.tail.tail.head, self.tail.tail.tail.tail.tail.tail.tail.tail.tail.tail.tail.tail.tail.tail.tail.tail.head, self.tail.tail.tail.tail.tail.tail.tail.tail.tail.tail.tail.tail.tail.tail.tail.tail.tail.head, self.tail.tail.tail.tail.tail.tail.tail.tail.tail.tail.tail.tail.tail.tail.tail.tail.tail.tail.head)
    }

    proof fn lemma_arity() {
        assert(<HNil as HList>::width() == 0);
        assert(<HCons<T18, HNil> as HList>::width() <= 1);
        assert(<HCons<T17, HCons<T18, HNil>> as HList>::width() <= 2);
        assert(<HCons<T16, HCons<T17, HCons<T18, HNil>>> as HList>::width() <= 3);
        assert(<HCons<T15, HCons<T16, HCons<T17, HCons<T18, HNil>>>> as HList>::width() <= 4);
        assert(<HCons<T14, HCons<T15, HCons<T16, HCons<T17, HCons<T18, HNil>>>>> as HList>::width() <= 5);
        assert(<HCons<T13, HCons<T14, HCons<T15, HCons<T16, HCons<T17, HCons<T18, HNil>>>>>> as HList>::width() <= 6);
        assert(<HCons<T12, HCons<T13, HCons<T14, HCons<T15, HCons<T16, HCons<T17, HCons<T18, HNil>>>>>>> as HList>::width() <= 7);
        assert(<HCons<T11, HCons<T12, HCons<T13, HCons<T14, HCons<T15, HCons<T16, HCons<T17, HCons<T18, HNil>>>>>>>> as HList>::width() <= 8);
        assert(<HCons<T10, HCons<T11, HCons<T12, HCons<T13, HCons<T14, HCons<T15, HCons<T16, HCons<T17, HCons<T18, HNil>>>>>>>>> as HList>::width() <= 9);
        assert(<HCons<T9, HCons<T10, HCons<T11, HCons<T12, HCons<T13, HCons<T14, HCons<T15, HCons<T16, HCons<T17, HCons<T18, HNil>>>>>>>>>> as HList>::width() <= 10);
        assert(<HCons<T8, HCons<T9, HCons<T10, HCons<T11, HCons<T12, HCons<T13, HCons<T14, HCons<T15, HCons<T16, HCons<T17, HCons<T18, HNil>>>>>>>>>>> as HList>::width() <= 11);
        assert(<HCons<T7, HCons<T8, HCons<T9, HCons<T10, HCons<T11, HCons<T12, HCons<T13, HCons<T14, HCons<T15, HCons<T16, HCons<T17, HCons<T18, HNil>>>>>>>>>>>> as HList>::width() <= 12);
        assert(<HCons<T6, HCons<T7, HCons<T8, HCons<T9, HCons<T10, HCons<T11, HCons<T12, HCons<T13, HCons<T14, HCons<T15, HCons<T16, HCons<T17, HCons<T18, HNil>>>>>>>>>>>>> as HList>::width() <= 13);
        assert(<HCons<T5, HCons<T6, HCons<T7, HCons<T8, HCons<T9, HCons<T10, HCons<T11, HCons<T12, HCons<T13, HCons<T14, HCons<T15, HCons<T16, HCons<T17, HCons<T18, HNil>>>>>>>>>>>>>> as HList>::width() <= 14);
        assert(<HCons<T4, HCons<T5, HCons<T6, HCons<T7, HCons<T8, HCons<T9, HCons<T10, HCons<T11, HCons<T12, HCons<T13, HCons<T14, HCons<T15, HCons<T16, HCons<T17, HCons<T18, HNil>>>>>>>>>>>>>>> as HList>::width() <= 15);
        assert(<HCons<T3, HCons<T4, HCons<T5, HCons<T6, HCons<T7, HCons<T8, HCons<T9, HCons<T10, HCons<T11, HCons<T12, HCons<T13, HCons<T14, HCons<T15, HCons<T16, HCons<T17, HCons<T18, HNil>>>>>>>>>>>>>>>> as HList>::width() <= 16);
        assert(<HCons<T2, HCons<T3, HCons<T4, HCons<T5, HCons<T6, HCons<T7, HCons<T8, HCons<T9, HCons<T10, HCons<T11, HCons<T12, HCons<T13, HCons<T14, HCons<T15, HCons<T16, HCons<T17, HCons<T18, HNil>>>>>>>>>>>>>>>>> as HList>::width() <= 17);
        assert(<HCons<T1, HCons<T2, HCons<T3, HCons<T4, HCons<T5, HCons<T6, HCons<T7, HCons<T8, HCons<T9, HCons<T10, HCons<T11, HCons<T12, HCons<T13, HCons<T14, HCons<T15, HCons<T16, HCons<T17, HCons<T18, HNil>>>>>>>>>>>>>>>>>> as HList>::width() <= 18);
        assert(<HCons<T0, HCons<T1, HCons<T2, HCons<T3, HCons<T4, HCons<T5, HCons<T6, HCons<T7, HCons<T8, HCons<T9, HCons<T10, HCons<T11, HCons<T12, HCons<T13, HCons<T14, HCons<T15, HCons<T16, HCons<T17, HCons<T18, HNil>>>>>>>>>>>>>>>>>>> as HList>::width() <= 19);
    }
}

impl<T0, T1, T2, T3, T4, T5, T6, T7, T8, T9, T10, T11, T12, T13, T14, T15, T16, T17, T18, T19> ToTuple for HCons<T0, HCons<T1, HCons<T2, HCons<T3, HCons<T4, HCons<T5, HCons<T6, HCons<T7, HCons<T8, HCons<T9, HCons<T10, HCons<T11, HCons<T12, HCons<T13, HCons<T14, HCons<T15, HCons<T16, HCons<T17, HCons<T18, HCons<T19, HNil>>>>>>>>>>>>>>>>>>>> {
    type Tuple = (T0, T1, T2, T3, T4, T5, T6, T7, T8, T9, T10, T11, T12, T13, T14, T15, T16, T17, T18, T19);

    open spec fn tuple(self) -> (T0, T1, T2, T3, T4, T5, T6, T7, T8, T9, T10, T11, T12, T13, T14, T15, T16, T17, T18, T19) {
        (self.head, self.tail.head, self.tail.tail.head, self.tail.tail.tail.head, self.tail.tail.tail.tail.head, self.tail.tail.tail.tail.tail.head, self.tail.tail.tail.tail.tail.tail.head, self.tail.tail.tail.tail.tail.tail.tail.head, self.tail.tail.tail.tail.tail.tail.tail.tail.head, self.tail.tail.tail.tail.tail.tail.tail.tail.tail.head, self.tail.tail.tail.tail.tail.tail.tail.tail.tail.tail.head, self.tail.tail.tail.tail.tail.tail.tail.tail.tail.tail.tail.head, self.tail.tail.tail.tail.tail.tail.tail.tail.tail.tail.tail.tail.head, self.tail.tail.tail.tail.tail.tail.tail.tail.tail.tail.tail.tail.tail.head, self.tail.tail.tail.tail.tail.tail.tail.tail.tail.tail.tail.tail.tail.tail.head, self.tail.tail.tail.tail.tail.tail.tail.tail.tail.tail.tail.tail.tail.tail.tail.head, self.tail.tail.tail.tail.tail.tail.tail.tail.tail.tail.tail.tail.tail.tail.tail.tail.head, self.tail.tail.tail.tail.tail.tail.tail.tail.tail.tail.tail.tail.tail.tail.tail.tail.tail.head, self.tail.tail.tail.tail.tail.tail.tail.tail.tail.tail.tail.tail.tail.tail.tail.tail.tail.tail.head, self.tail.tail.tail.tail.tail.tail.tail.tail.tail.tail.tail.tail.tail.tail.tail.tail.tail.tail.tail.head)
    }

    fn to_tuple(self) -> (tuple: (T0, T1, T2, T3, T4, T5, T6, T7, T8, T9, T10, T11, T12, T13, T14, T15, T16, T17, T18, T19)) {
        (self.head, self.tail.head, self.tail.tail.head, self.tail.tail.tail.head, self.tail.tail.tail.tail.head, self.tail.tail.tail.tail.tail.head, self.tail.tail.tail.tail.tail.tail.head, self.tail.tail.tail.tail.tail.tail.tail.head, self.tail.tail.tail.tail.tail.tail.tail.tail.head, self.tail.tail.tail.tail.tail.tail.tail.tail.tail.head, self.tail.tail.tail.tail.tail.tail.tail.tail.tail.tail.head, self.tail.tail.tail.tail.tail.tail.tail.tail.tail.tail.tail.head, self.tail.tail.tail.tail.tail.tail.tail.tail.tail.tail.tail.tail.head, self.tail.tail.tail.tail.tail.tail.tail.tail.tail.tail.tail.tail.tail.head, self.tail.tail.tail.tail.tail.tail.tail.tail.tail.tail.tail.tail.tail.tail.head, self.tail.tail.tail.tail.tail.tail.tail.tail.tail.tail.tail.tail.tail.tail.tail.head, self.tail.tail.tail.tail.tail.tail.tail.tail.tail.tail.tail.tail.tail.tail.tail.tail.head, self.tail.tail.tail.tail.tail.tail.tail.tail.tail.tail.tail.tail.tail.tail.tail.tail.tail.head, self.tail.tail.tail.tail.tail.tail.tail.tail.tail.tail.tail.tail.tail.tail.tail.tail.tail.tail.head, self.tail.tail.tail.tail.tail.tail.tail.tail.tail.tail.tail.tail.tail.tail.tail.tail.tail.tail.tail.head)
    }

    proof fn lemma_arity() {
        assert(<HNil as HList>::width() == 0);
        assert(<HCons<T19, HNil> as HList>::width() <= 1);
        assert(<HCons<T18, HCons<T19, HNil>> as HList>::width() <= 2);
        assert(<HCons<T17, HCons<T18, HCons<T19, HNil>>> as HList>::width() <= 3);
        assert(<HCons<T16, HCons<T17, HCons<T18, HCons<T19, HNil>>>> as HList>::width() <= 4);
        assert(<HCons<T15, HCons<T16, HCons<T17, HCons<T18, HCons<T19, HNil>>>>> as HList>::width() <= 5);
        assert(<HCons<T14, HCons<T15, HCons<T16, HCons<T17, HCons<T18, HCons<T19, HNil>>>>>> as HList>::width() <= 6);
        assert(<HCons<T13, HCons<T14, HCons<T15, HCons<T16, HCons<T17, HCons<T18, HCons<T19, HNil>>>>>>> as HList>::width() <= 7);
        assert(<HCons<T12, HCons<T13, HCons<T14, HCons<T15, HCons<T16, HCons<T17, HCons<T18, HCons<T19, HNil>>>>>>>> as HList>::width() <= 8);
        assert(<HCons<T11, HCons<T12, HCons<T13, HCons<T14, HCons<T15, HCons<T16, HCons<T17, HCons<T18, HCons<T19, HNil>>>>>>>>> as HList>::width() <= 9);
        assert(<HCons<T10, HCons<T11, HCons<T12, HCons<T13, HCons<T14, HCons<T15, HCons<T16, HCons<T17, HCons<T18, HCons<T19, HNil>>>>>>>>>> as HList>::width() <= 10);
        assert(<HCons<T9, HCons<T10, HCons<T11, HCons<T12, HCons<T13, HCons<T14, HCons<T15, HCons<T16, HCons<T17, HCons<T18, HCons<T19, HNil>>>>>>>>>>> as HList>::width() <= 11);
        assert(<HCons<T8, HCons<T9, HCons<T10, HCons<T11, HCons<T12, HCons<T13, HCons<T14, HCons<T15, HCons<T16, HCons<T17, HCons<T18, HCons<T19, HNil>>>>>>>>>>>> as HList>::width() <= 12);
        assert(<HCons<T7, HCons<T8, HCons<T9, HCons<T10, HCons<T11, HCons<T12, HCons<T13, HCons<T14, HCons<T15, HCons<T16, HCons<T17, HCons<T18, HCons<T19, HNil>>>>>>>>>>>>> as HList>::width() <= 13);
        assert(<HCons<T6, HCons<T7, HCons<T8, HCons<T9, HCons<T10, HCons<T11, HCons<T12, HCons<T13, HCons<T14, HCons<T15, HCons<T16, HCons<T17, HCons<T18, HCons<T19, HNil>>>>>>>>>>>>>> as HList>::width() <= 14);
        assert(<HCons<T5, HCons<T6, HCons<T7, HCons<T8, HCons<T9, HCons<T10, HCons<T11, HCons<T12, HCons<T13, HCons<T14, HCons<T15, HCons<T16, HCons<T17, HCons<T18, HCons<T19, HNil>>>>>>>>>>>>>>> as HList>::width() <= 15);
        assert(<HCons<T4, HCons<T5, HCons<T6, HCons<T7, HCons<T8, HCons<T9, HCons<T10, HCons<T11, HCons<T12, HCons<T13, HCons<T14, HCons<T15, HCons<T16, HCons<T17, HCons<T18, HCons<T19, HNil>>>>>>>>>>>>>>>> as HList>::width() <= 16);
        assert(<HCons<T3, HCons<T4, HCons<T5, HCons<T6, HCons<T7, HCons<T8, HCons<T9, HCons<T10, HCons<T11, HCons<T12, HCons<T13, HCons<T14, HCons<T15, HCons<T16, HCons<T17, HCons<T18, HCons<T19, HNil>>>>>>>>>>>>>>>>> as HList>::width() <= 17);
        assert(<HCons<T2, HCons<T3, HCons<T4, HCons<T5, HCons<T6, HCons<T7, HCons<T8, HCons<T9, HCons<T10, HCons<T11, HCons<T12, HCons<T13, HCons<T14, HCons<T15, HCons<T16, HCons<T17, HCons<T18, HCons<T19, HNil>>>>>>>>>>>>>>>>>> as HList>::width() <= 18);
        assert(<HCons<T1, HCons<T2, HCons<T3, HCons<T4, HCons<T5, HCons<T6, HCons<T7, HCons<T8, HCons<T9, HCons<T10, HCons<T11, HCons<T12, HCons<T13, HCons<T14, HCons<T15, HCons<T16, HCons<T17, HCons<T18, HCons<T19, HNil>>>>>>>>>>>>>>>>>>> as HList>::width() <= 19);
        assert(<HCons<T0, HCons<T1, HCons<T2, HCons<T3, HCons<T4, HCons<T5, HCons<T6, HCons<T7, HCons<T8, HCons<T9, HCons<T10, HCons<T11, HCons<T12, HCons<T13, HCons<T14, HCons<T15, HCons<T16, HCons<T17, HCons<T18, HCons<T19, HNil>>>>>>>>>>>>>>>>>>>> as HList>::width() <= 20);
    }
}

impl<T0, T1, T2, T3, T4, T5, T6, T7, T8, T9, T10, T11, T12, T13, T14, T15, T16, T17, T18, T19, T20> ToTuple for HCons<T0, HCons<T1, HCons<T2, HCons<T3, HCons<T4, HCons<T5, HCons<T6, HCons<T7, HCons<T8, HCons<T9, HCons<T10, HCons<T11, HCons<T12, HCons<T13, HCons<T14, HCons<T15, HCons<T16, HCons<T17, HCons<T18, HCons<T19, HCons<T20, HNil>>>>>>>>>>>>>>>>>>>>> {
    type Tuple = (T0, T1, T2, T3, T4, T5, T6, T7, T8, T9, T10, T11, T12, T13, T14, T15, T16, T17, T18, T19, T20);

    open spec fn tuple(self) -> (T0, T1, T2, T3, T4, T5, T6, T7, T8, T9, T10, T11, T12, T13, T14, T15, T16, T17, T18, T19, T20) {
        (self.head, self.tail.head, self.tail.tail.head, self.tail.tail.tail.head, self.tail.tail.tail.tail.head, self.tail.tail.tail.tail.tail.head, self.tail.tail.tail.tail.tail.tail.head, self.tail.tail.tail.tail.tail.tail.tail.head, self.tail.tail.tail.tail.tail.tail.tail.tail.head, self.tail.tail.tail.tail.tail.tail.tail.tail.tail.head, self.tail.tail.tail.tail.tail.tail.tail.tail.tail.tail.head, self.tail.tail.tail.tail.tail.tail.tail.tail.tail.tail.tail.head, self.tail.tail.tail.tail.tail.tail.tail.tail.tail.tail.tail.tail.head, self.tail.tail.tail.tail.tail.tail.tail.tail.tail.tail.tail.tail.tail.head, self.tail.tail.tail.tail.tail.tail.tail.tail.tail.tail.tail.tail.tail.tail.head, self.tail.tail.tail.tail.tail.tail.tail.tail.tail.tail.tail.tail.tail.tail.tail.head, self.tail.tail.tail.tail.tail.tail.tail.tail.tail.tail.tail.tail.tail.tail.tail.tail.head, self.tail.tail.tail.tail.tail.tail.tail.tail.tail.tail.tail.tail.tail.tail.tail.tail.tail.head, self.tail.tail.tail.tail.tail.tail.tail.tail.tail.tail.tail.tail.tail.tail.tail.tail.tail.tail.head, self.tail.tail.tail.tail.tail.tail.tail.tail.tail.tail.tail.tail.tail.tail.tail.tail.tail.tail.tail.head, self.tail.tail.tail.tail.tail.tail.tail.tail.tail.tail.tail.tail.tail.tail.tail.tail.tail.tail.tail.tail.head)
    }

    fn to_tuple(self) -> (tuple: (T0, T1, T2, T3, T4, T5, T6, T7, T8, T9, T10, T11, T12, T13, T14, T15, T16, T17, T18, T19, T20)) {
        (self.head, self.tail.head, self.tail.tail.head, self.tail.tail.tail.head, self.tail.tail.tail.tail.head, self.tail.tail.tail.tail.tail.head, self.tail.tail.tail.tail.tail.tail.head, self.tail.tail.tail.tail.tail.tail.tail.head, self.tail.tail.tail.tail.tail.tail.tail.tail.head, self.tail.tail.tail.tail.tail.tail.tail.tail.tail.head, self.tail.tail.tail.tail.tail.tail.tail.tail.tail.tail.head, self.tail.tail.tail.tail.tail.tail.tail.tail.tail.tail.tail.head, self.tail.tail.tail.tail.tail.tail.tail.tail.tail.tail.tail.tail.head, self.tail.tail.tail.tail.tail.tail.tail.tail.tail.tail.tail.tail.tail.head, self.tail.tail.tail.tail.tail.tail.tail.tail.tail.tail.tail.tail.tail.tail.head, self.tail.tail.tail.tail.tail.tail.tail.tail.tail.tail.tail.tail.tail.tail.tail.head, self.tail.tail.tail.tail.tail.tail.tail.tail.tail.tail.tail.tail.tail.tail.tail.tail.head, self.tail.tail.tail.tail.tail.tail.tail.tail.tail.tail.tail.tail.tail.tail.tail.tail.tail.head, self.tail.tail.tail.tail.tail.tail.tail.tail.tail.tail.tail.tail.tail.tail.tail.tail.tail.tail.head, self.tail.tail.tail.tail.tail.tail.tail.tail.tail.tail.tail.tail.tail.tail.tail.tail.tail.tail.tail.head, self.tail.tail.tail.tail.tail.tail.tail.tail.tail.tail.tail.tail.tail.tail.tail.tail.tail.tail.tail.tail.head)
    }

    proof fn lemma_arity() {
        assert(<HNil as HList>::width() == 0);
        assert(<HCons<T20, HNil> as HList>::width() <= 1);
        assert(<HCons<T19, HCons<T20, HNil>> as HList>::width() <= 2);
        assert(<HCons<T18, HCons<T19, HCons<T20, HNil>>> as HList>::width() <= 3);
        assert(<HCons<T17, HCons<T18, HCons<T19, HCons<T20, HNil>>>> as HList>::width() <= 4);
        assert(<HCons<T16, HCons<T17, HCons<T18, HCons<T19, HCons<T20, HNil>>>>> as HList>::width() <= 5);
        assert(<HCons<T15, HCons<T16, HCons<T17, HCons<T18, HCons<T19, HCons<T20, HNil>>>>>> as HList>::width() <= 6);
        assert(<HCons<T14, HCons<T15, HCons<T16, HCons<T17, HCons<T18, HCons<T19, HCons<T20, HNil>>>>>>> as HList>::width() <= 7);
        assert(<HCons<T13, HCons<T14, HCons<T15, HCons<T16, HCons<T17, HCons<T18, HCons<T19, HCons<T20, HNil>>>>>>>> as HList>::width() <= 8);
        assert(<HCons<T12, HCons<T13, HCons<T14, HCons<T15, HCons<T16, HCons<T17, HCons<T18, HCons<T19, HCons<T20, HNil>>>>>>>>> as HList>::width() <= 9);
        assert(<HCons<T11, HCons<T12, HCons<T13, HCons<T14, HCons<T15, HCons<T16, HCons<T17, HCons<T18, HCons<T19, HCons<T20, HNil>>>>>>>>>> as HList>::width() <= 10);
        assert(<HCons<T10, HCons<T11, HCons<T12, HCons<T13, HCons<T14, HCons<T15, HCons<T16, HCons<T17, HCons<T18, HCons<T19, HCons<T20, HNil>>>>>>>>>>> as HList>::width() <= 11);
        assert(<HCons<T9, HCons<T10, HCons<T11, HCons<T12, HCons<T13, HCons<T14, HCons<T15, HCons<T16, HCons<T17, HCons<T18, HCons<T19, HCons<T20, HNil>>>>>>>>>>>> as HList>::width() <= 12);
        assert(<HCons<T8, HCons<T9, HCons<T10, HCons<T11, HCons<T12, HCons<T13, HCons<T14, HCons<T15, HCons<T16, HCons<T17, HCons<T18, HCons<T19, HCons<T20, HNil>>>>>>>>>>>>> as HList>::width() <= 13);
        assert(<HCons<T7, HCons<T8, HCons<T9, HCons<T10, HCons<T11, HCons<T12, HCons<T13, HCons<T14, HCons<T15, HCons<T16, HCons<T17, HCons<T18, HCons<T19, HCons<T20, HNil>>>>>>>>>>>>>> as HList>::width() <= 14);
        assert(<HCons<T6, HCons<T7, HCons<T8, HCons<T9, HCons<T10, HCons<T11, HCons<T12, HCons<T13, HCons<T14, HCons<T15, HCons<T16, HCons<T17, HCons<T18, HCons<T19, HCons<T20, HNil>>>>>>>>>>>>>>> as HList>::width() <= 15);
        assert(<HCons<T5, HCons<T6, HCons<T7, HCons<T8, HCons<T9, HCons<T10, HCons<T11, HCons<T12, HCons<T13, HCons<T14, HCons<T15, HCons<T16, HCons<T17, HCons<T18, HCons<T19, HCons<T20, HNil>>>>>>>>>>>>>>>> as HList>::width() <= 16);
        assert(<HCons<T4, HCons<T5, HCons<T6, HCons<T7, HCons<T8, HCons<T9, HCons<T10, HCons<T11, HCons<T12, HCons<T13, HCons<T14, HCons<T15, HCons<T16, HCons<T17, HCons<T18, HCons<T19, HCons<T20, HNil>>>>>>>>>>>>>>>>> as HList>::width() <= 17);
        assert(<HCons<T3, HCons<T4, HCons<T5, HCons<T6, HCons<T7, HCons<T8, HCons<T9, HCons<T10, HCons<T11, HCons<T12, HCons<T13, HCons<T14, HCons<T15, HCons<T16, HCons<T17, HCons<T18, HCons<T19, HCons<T20, HNil>>>>>>>>>>>>>>>>>> as HList>::width() <= 18);
        assert(<HCons<T2, HCons<T3, HCons<T4, HCons<T5, HCons<T6, HCons<T7, HCons<T8, HCons<T9, HCons<T10, HCons<T11, HCons<T12, HCons<T13, HCons<T14, HCons<T15, HCons<T16, HCons<T17, HCons<T18, HCons<T19, HCons<T20, HNil>>>>>>>>>>>>>>>>>>> as HList>::width() <= 19);
        assert(<HCons<T1, HCons<T2, HCons<T3, HCons<T4, HCons<T5, HCons<T6, HCons<T7, HCons<T8, HCons<T9, HCons<T10, HCons<T11, HCons<T12, HCons<T13, HCons<T14, HCons<T15, HCons<T16, HCons<T17, HCons<T18, HCons<T19, HCons<T20, HNil>>>>>>>>>>>>>>>>>>>> as HList>::width() <= 20);
        assert(<HCons<T0, HCons<T1, HCons<T2, HCons<T3, HCons<T4, HCons<T5, HCons<T6, HCons<T7, HCons<T8, HCons<T9, HCons<T10, HCons<T11, HCons<T12, HCons<T13, HCons<T14, HCons<T15, HCons<T16, HCons<T17, HCons<T18, HCons<T19, HCons<T20, HNil>>>>>>>>>>>>>>>>>>>>> as HList>::width() <= 21);
    }
}

impl<T0, T1, T2, T3, T4, T5, T6, T7, T8, T9, T10, T11, T12, T13, T14, T15, T16, T17, T18, T19, T20, T21> ToTuple for HCons<T0, HCons<T1, HCons<T2, HCons<T3, HCons<T4, HCons<T5, HCons<T6, HCons<T7, HCons<T8, HCons<T9, HCons<T10, HCons<T11, HCons<T12, HCons<T13, HCons<T14, HCons<T15, HCons<T16, HCons<T17, HCons<T18, HCons<T19, HCons<T20, HCons<T21, HNil>>>>>>>>>>>>>>>>>>>>>> {
    type Tuple = (T0, T1, T2, T3, T4, T5, T6, T7, T8, T9, T10, T11, T12, T13, T14, T15, T16, T17, T18, T19, T20, T21);

    open spec fn tuple(self) -> (T0, T1, T2, T3, T4, T5, T6, T7, T8, T9, T10, T11, T12, T13, T14, T15, T16, T17, T18, T19, T20, T21) {
        (self.head, self.tail.head, self.tail.tail.head, self.tail.tail.tail.head, self.tail.tail.tail.tail.head, self.tail.tail.tail.tail.tail.head, self.tail.tail.tail.tail.tail.tail.head, self.tail.tail.tail.tail.tail.tail.tail.head, self.tail.tail.tail.tail.tail.tail.tail.tail.head, self.tail.tail.tail.tail.tail.tail.tail.tail.tail.head, self.tail.tail.tail.tail.tail.tail.tail.tail.tail.tail.head, self.tail.tail.tail.tail.tail.tail.tail.tail.tail.tail.tail.head, self.tail.tail.tail.tail.tail.tail.tail.tail.tail.tail.tail.tail.head, self.tail.tail.tail.tail.tail.tail.tail.tail.tail.tail.tail.tail.tail.head, self.tail.tail.tail.tail.tail.tail.tail.tail.tail.tail.tail.tail.tail.tail.head, self.tail.tail.tail.tail.tail.tail.tail.tail.tail.tail.tail.tail.tail.tail.tail.head, self.tail.tail.tail.tail.tail.tail.tail.tail.tail.tail.tail.tail.tail.tail.tail.tail.head, self.tail.tail.tail.tail.tail.tail.tail.tail.tail.tail.tail.tail.tail.tail.tail.tail.tail.head, self.tail.tail.tail.tail.tail.tail.tail.tail.tail.tail.tail.tail.tail.tail.tail.tail.tail.tail.head, self.tail.tail.tail.tail.tail.tail.tail.tail.tail.tail.tail.tail.tail.tail.tail.tail.tail.tail.tail.head, self.tail.tail.tail.tail.tail.tail.tail.tail.tail.tail.tail.tail.tail.tail.tail.tail.tail.tail.tail.tail.head, self.tail.tail.tail.tail.tail.tail.tail.tail.tail.tail.tail.tail.tail.tail.tail.tail.tail.tail.tail.tail.tail.head)
    }

    fn to_tuple(self) -> (tuple: (T0, T1, T2, T3, T4, T5, T6, T7, T8, T9, T10, T11, T12, T13, T14, T15, T16, T17, T18, T19, T20, T21)) {
        (self.head, self.tail.head, self.tail.tail.head, self.tail.tail.tail.head, self.tail.tail.tail.tail.head, self.tail.tail.tail.tail.tail.head, self.tail.tail.tail.tail.tail.tail.head, self.tail.tail.tail.tail.tail.tail.tail.head, self.tail.tail.tail.tail.tail.tail.tail.tail.head, self.tail.tail.tail.tail.tail.tail.tail.tail.tail.head, self.tail.tail.tail.tail.tail.tail.tail.tail.tail.tail.head, self.tail.tail.tail.tail.tail.tail.tail.tail.tail.tail.tail.head, self.tail.tail.tail.tail.tail.tail.tail.tail.tail.tail.tail.tail.head, self.tail.tail.tail.tail.tail.tail.tail.tail.tail.tail.tail.tail.tail.head, self.tail.tail.tail.tail.tail.tail.tail.tail.tail.tail.tail.tail.tail.tail.head, self.tail.tail.tail.tail.tail.tail.tail.tail.tail.tail.tail.tail.tail.tail.tail.head, self.tail.tail.tail.tail.tail.tail.tail.tail.tail.tail.tail.tail.tail.tail.tail.tail.head, self.tail.tail.tail.tail.tail.tail.tail.tail.tail.tail.tail.tail.tail.tail.tail.tail.tail.head, self.tail.tail.tail.tail.tail.tail.tail.tail.tail.tail.tail.tail.tail.tail.tail.tail.tail.tail.head, self.tail.tail.tail.tail.tail.tail.tail.tail.tail.tail.tail.tail.tail.tail.tail.tail.tail.tail.tail.head, self.tail.tail.tail.tail.tail.tail.tail.tail.tail.tail.tail.tail.tail.tail.tail.tail.tail.tail.tail.tail.head, self.tail.tail.tail.tail.tail.tail.tail.tail.tail.tail.tail.tail.tail.tail.tail.tail.tail.tail.tail.tail.tail.head)
    }

    proof fn lemma_arity() {
        assert(<HNil as HList>::width() == 0);
        assert(<HCons<T21, HNil> as HList>::width() <= 1);
        assert(<HCons<T20, HCons<T21, HNil>> as HList>::width() <= 2);
        assert(<HCons<T19, HCons<T20, HCons<T21, HNil>>> as HList>::width() <= 3);
        assert(<HCons<T18, HCons<T19, HCons<T20, HCons<T21, HNil>>>> as HList>::width() <= 4);
        assert(<HCons<T17, HCons<T18, HCons<T19, HCons<T20, HCons<T21, HNil>>>>> as HList>::width() <= 5);
        assert(<HCons<T16, HCons<T17, HCons<T18, HCons<T19, HCons<T20, HCons<T21, HNil>>>>>> as HList>::width() <= 6);
        assert(<HCons<T15, HCons<T16, HCons<T17, HCons<T18, HCons<T19, HCons<T20, HCons<T21, HNil>>>>>>> as HList>::width() <= 7);
        assert(<HCons<T14, HCons<T15, HCons<T16, HCons<T17, HCons<T18, HCons<T19, HCons<T20, HCons<T21, HNil>>>>>>>> as HList>::width() <= 8);
        assert(<HCons<T13, HCons<T14, HCons<T15, HCons<T16, HCons<T17, HCons<T18, HCons<T19, HCons<T20, HCons<T21, HNil>>>>>>>>> as HList>::width() <= 9);
        assert(<HCons<T12, HCons<T13, HCons<T14, HCons<T15, HCons<T16, HCons<T17, HCons<T18, HCons<T19, HCons<T20, HCons<T21, HNil>>>>>>>>>> as HList>::width() <= 10);
        assert(<HCons<T11, HCons<T12, HCons<T13, HCons<T14, HCons<T15, HCons<T16, HCons<T17, HCons<T18, HCons<T19, HCons<T20, HCons<T21, HNil>>>>>>>>>>> as HList>::width() <= 11);
        assert(<HCons<T10, HCons<T11, HCons<T12, HCons<T13, HCons<T14, HCons<T15, HCons<T16, HCons<T17, HCons<T18, HCons<T19, HCons<T20, HCons<T21, HNil>>>>>>>>>>>> as HList>::width() <= 12);
        assert(<HCons<T9, HCons<T10, HCons<T11, HCons<T12, HCons<T13, HCons<T14, HCons<T15, HCons<T16, HCons<T17, HCons<T18, HCons<T19, HCons<T20, HCons<T21, HNil>>>>>>>>>>>>> as HList>::width() <= 13);
        assert(<HCons<T8, HCons<T9, HCons<T10, HCons<T11, HCons<T12, HCons<T13, HCons<T14, HCons<T15, HCons<T16, HCons<T17, HCons<T18, HCons<T19, HCons<T20, HCons<T21, HNil>>>>>>>>>>>>>> as HList>::width() <= 14);
        assert(<HCons<T7, HCons<T8, HCons<T9, HCons<T10, HCons<T11, HCons<T12, HCons<T13, HCons<T14, HCons<T15, HCons<T16, HCons<T17, HCons<T18, HCons<T19, HCons<T20, HCons<T21, HNil>>>>>>>>>>>>>>> as HList>::width() <= 15);
        assert(<HCons<T6, HCons<T7, HCons<T8, HCons<T9, HCons<T10, HCons<T11, HCons<T12, HCons<T13, HCons<T14, HCons<T15, HCons<T16, HCons<T17, HCons<T18, HCons<T19, HCons<T20, HCons<T21, HNil>>>>>>>>>>>>>>>> as HList>::width() <= 16);
        assert(<HCons<T5, HCons<T6, HCons<T7, HCons<T8, HCons<T9, HCons<T10, HCons<T11, HCons<T12, HCons<T13, HCons<T14, HCons<T15, HCons<T16, HCons<T17, HCons<T18, HCons<T19, HCons<T20, HCons<T21, HNil>>>>>>>>>>>>>>>>> as HList>::width() <= 17);
        assert(<HCons<T4, HCons<T5, HCons<T6, HCons<T7, HCons<T8, HCons<T9, HCons<T10, HCons<T11, HCons<T12, HCons<T13, HCons<T14, HCons<T15, HCons<T16, HCons<T17, HCons<T18, HCons<T19, HCons<T20, HCons<T21, HNil>>>>>>>>>>>>>>>>>> as HList>::width() <= 18);
        assert(<HCons<T3, HCons<T4, HCons<T5, HCons<T6, HCons<T7, HCons<T8, HCons<T9, HCons<T10, HCons<T11, HCons<T12, HCons<T13, HCons<T14, HCons<T15, HCons<T16, HCons<T17, HCons<T18, HCons<T19, HCons<T20, HCons<T21, HNil>>>>>>>>>>>>>>>>>>> as HList>::width() <= 19);
        assert(<HCons<T2, HCons<T3, HCons<T4, HCons<T5, HCons<T6, HCons<T7, HCons<T8, HCons<T9, HCons<T10, HCons<T11, HCons<T12, HCons<T13, HCons<T14, HCons<T15, HCons<T16, HCons<T17, HCons<T18, HCons<T19, HCons<T20, HCons<T21, HNil>>>>>>>>>>>>>>>>>>>> as HList>::width() <= 20);
        assert(<HCons<T1, HCons<T2, HCons<T3, HCons<T4, HCons<T5, HCons<T6, HCons<T7, HCons<T8, HCons<T9, HCons<T10, HCons<T11, HCons<T12, HCons<T13, HCons<T14, HCons<T15, HCons<T16, HCons<T17, HCons<T18, HCons<T19, HCons<T20, HCons<T21, HNil>>>>>>>>>>>>>>>>>>>>> as HList>::width() <= 21);
        assert(<HCons<T0, HCons<T1, HCons<T2, HCons<T3, HCons<T4, HCons<T5, HCons<T6, HCons<T7, HCons<T8, HCons<T9, HCons<T10, HCons<T11, HCons<T12, HCons<T13, HCons<T14, HCons<T15, HCons<T16, HCons<T17, HCons<T18, HCons<T19, HCons<T20, HCons<T21, HNil>>>>>>>>>>>>>>>>>>>>>> as HList>::width() <= 22);
    }
}

impl<T0, T1, T2, T3, T4, T5, T6, T7, T8, T9, T10, T11, T12, T13, T14, T15, T16, T17, T18, T19, T20, T21, T22> ToTuple for HCons<T0, HCons<T1, HCons<T2, HCons<T3, HCons<T4, HCons<T5, HCons<T6, HCons<T7, HCons<T8, HCons<T9, HCons<T10, HCons<T11, HCons<T12, HCons<T13, HCons<T14, HCons<T15, HCons<T16, HCons<T17, HCons<T18, HCons<T19, HCons<T20, HCons<T21, HCons<T22, HNil>>>>>>>>>>>>>>>>>>>>>>> {
    type Tuple = (T0, T1, T2, T3, T4, T5, T6, T7, T8, T9, T10, T11, T12, T13, T14, T15, T16, T17, T18, T19, T20, T21, T22);

    open spec fn tuple(self) -> (T0, T1, T2, T3, T4, T5, T6, T7, T8, T9, T10, T11, T12, T13, T14, T15, T16, T17, T18, T19, T20, T21, T22) {
        (self.head, self.tail.head, self.tail.tail.head, self.tail.tail.tail.head, self.tail.tail.tail.tail.head, self.tail.tail.tail.tail.tail.head, self.tail.tail.tail.tail.tail.tail.head, self.tail.tail.tail.tail.tail.tail.tail.head, self.tail.tail.tail.tail.tail.tail.tail.tail.head, self.tail.tail.tail.tail.tail.tail.tail.tail.tail.head, self.tail.tail.tail.tail.tail.tail.tail.tail.tail.tail.head, self.tail.tail.tail.tail.tail.tail.tail.tail.tail.tail.tail.head, self.tail.tail.tail.tail.tail.tail.tail.tail.tail.tail.tail.tail.head, self.tail.tail.tail.tail.tail.tail.tail.tail.tail.tail.tail.tail.tail.head, self.tail.tail.tail.tail.tail.tail.tail.tail.tail.tail.tail.tail.tail.tail.head, self.tail.tail.tail.tail.tail.tail.tail.tail.tail.tail.tail.tail.tail.tail.tail.head, self.tail.tail.tail.tail.tail.tail.tail.tail.tail.tail.tail.tail.tail.tail.tail.tail.head, self.tail.tail.tail.tail.tail.tail.tail.tail.tail.tail.tail.tail.tail.tail.tail.tail.tail.head, self.tail.tail.tail.tail.tail.tail.tail.tail.tail.tail.tail.tail.tail.tail.tail.tail.tail.tail.head, self.tail.tail.tail.tail.tail.tail.tail.tail.tail.tail.tail.tail.tail.tail.tail.tail.tail.tail.tail.head, self.tail.tail.tail.tail.tail.tail.tail.tail.tail.tail.tail.tail.tail.tail.tail.tail.tail.tail.tail.tail.head, self.tail.tail.tail.tail.tail.tail.tail.tail.tail.tail.tail.tail.tail.tail.tail.tail.tail.tail.tail.tail.tail.head, self.tail.tail.tail.tail.tail.tail.tail.tail.tail.tail.tail.tail.tail.tail.tail.tail.tail.tail.tail.tail.tail.tail.head)
    }

    fn to_tuple(self) -> (tuple: (T0, T1, T2, T3, T4, T5, T6, T7, T8, T9, T10, T11, T12, T13, T14, T15, T16, T17, T18, T19, T20, T21, T22)) {
        (self.head, self.tail.head, self.tail.tail.head, self.tail.tail.tail.head, self.tail.tail.tail.tail.head, self.tail.tail.tail.tail.tail.head, self.tail.tail.tail.tail.tail.tail.head, self.tail.tail.tail.tail.tail.tail.tail.head, self.tail.tail.tail.tail.tail.tail.tail.tail.head, self.tail.tail.tail.tail.tail.tail.tail.tail.tail.head, self.tail.tail.tail.tail.tail.tail.tail.tail.tail.tail.head, self.tail.tail.tail.tail.tail.tail.tail.tail.tail.tail.tail.head, self.tail.tail.tail.tail.tail.tail.tail.tail.tail.tail.tail.tail.head, self.tail.tail.tail.tail.tail.tail.tail.tail.tail.tail.tail.tail.tail.head, self.tail.tail.tail.tail.tail.tail.tail.tail.tail.tail.tail.tail.tail.tail.head, self.tail.tail.tail.tail.tail.tail.tail.tail.tail.tail.tail.tail.tail.tail.tail.head, self.tail.tail.tail.tail.tail.tail.tail.tail.tail.tail.tail.tail.tail.tail.tail.tail.head, self.tail.tail.tail.tail.tail.tail.tail.tail.tail.tail.tail.tail.tail.tail.tail.tail.tail.head, self.tail.tail.tail.tail.tail.tail.tail.tail.tail.tail.tail.tail.tail.tail.tail.tail.tail.tail.head, self.tail.tail.tail.tail.tail.tail.tail.tail.tail.tail.tail.tail.tail.tail.tail.tail.tail.tail.tail.head, self.tail.tail.tail.tail.tail.tail.tail.tail.tail.tail.tail.tail.tail.tail.tail.tail.tail.tail.tail.tail.head, self.tail.tail.tail.tail.tail.tail.tail.tail.tail.tail.tail.tail.tail.tail.tail.tail.tail.tail.tail.tail.tail.head, self.tail.tail.tail.tail.tail.tail.tail.tail.tail.tail.tail.tail.tail.tail.tail.tail.tail.tail.tail.tail.tail.tail.head)
    }

    proof fn lemma_arity() {
        assert(<HNil as HList>::width() == 0);
        assert(<HCons<T22, HNil> as HList>::width() <= 1);
        assert(<HCons<T21, HCons<T22, HNil>> as HList>::width() <= 2);
        assert(<HCons<T20, HCons<T21, HCons<T22, HNil>>> as HList>::width() <= 3);
        assert(<HCons<T19, HCons<T20, HCons<T21, HCons<T22, HNil>>>> as HList>::width() <= 4);
        assert(<HCons<T18, HCons<T19, HCons<T20, HCons<T21, HCons<T22, HNil>>>>> as HList>::width() <= 5);
        assert(<HCons<T17, HCons<T18, HCons<T19, HCons<T20, HCons<T21, HCons<T22, HNil>>>>>> as HList>::width() <= 6);
        assert(<HCons<T16, HCons<T17, HCons<T18, HCons<T19, HCons<T20, HCons<T21, HCons<T22, HNil>>>>>>> as HList>::width() <= 7);
        assert(<HCons<T15, HCons<T16, HCons<T17, HCons<T18, HCons<T19, HCons<T20, HCons<T21, HCons<T22, HNil>>>>>>>> as HList>::width() <= 8);
        assert(<HCons<T14, HCons<T15, HCons<T16, HCons<T17, HCons<T18, HCons<T19, HCons<T20, HCons<T21, HCons<T22, HNil>>>>>>>>> as HList>::width() <= 9);
        assert(<HCons<T13, HCons<T14, HCons<T15, HCons<T16, HCons<T17, HCons<T18, HCons<T19, HCons<T20, HCons<T21, HCons<T22, HNil>>>>>>>>>> as HList>::width() <= 10);
        assert(<HCons<T12, HCons<T13, HCons<T14, HCons<T15, HCons<T16, HCons<T17, HCons<T18, HCons<T19, HCons<T20, HCons<T21, HCons<T22, HNil>>>>>>>>>>> as HList>::width() <= 11);
        assert(<HCons<T11, HCons<T12, HCons<T13, HCons<T14, HCons<T15, HCons<T16, HCons<T17, HCons<T18, HCons<T19, HCons<T20, HCons<T21, HCons<T22, HNil>>>>>>>>>>>> as HList>::width() <= 12);
        assert(<HCons<T10, HCons<T11, HCons<T12, HCons<T13, HCons<T14, HCons<T15, HCons<T16, HCons<T17, HCons<T18, HCons<T19, HCons<T20, HCons<T21, HCons<T22, HNil>>>>>>>>>>>>> as HList>::width() <= 13);
        assert(<HCons<T9, HCons<T10, HCons<T11, HCons<T12, HCons<T13, HCons<T14, HCons<T15, HCons<T16, HCons<T17, HCons<T18, HCons<T19, HCons<T20, HCons<T21, HCons<T22, HNil>>>>>>>>>>>>>> as HList>::width() <= 14);
        assert(<HCons<T8, HCons<T9, HCons<T10, HCons<T11, HCons<T12, HCons<T13, HCons<T14, HCons<T15, HCons<T16, HCons<T17, HCons<T18, HCons<T19, HCons<T20, HCons<T21, HCons<T22, HNil>>>>>>>>>>>>>>> as HList>::width() <= 15);
        assert(<HCons<T7, HCons<T8, HCons<T9, HCons<T10, HCons<T11, HCons<T12, HCons<T13, HCons<T14, HCons<T15, HCons<T16, HCons<T17, HCons<T18, HCons<T19, HCons<T20, HCons<T21, HCons<T22, HNil>>>>>>>>>>>>>>>> as HList>::width() <= 16);
        assert(<HCons<T6, HCons<T7, HCons<T8, HCons<T9, HCons<T10, HCons<T11, HCons<T12, HCons<T13, HCons<T14, HCons<T15, HCons<T16, HCons<T17, HCons<T18, HCons<T19, HCons<T20, HCons<T21, HCons<T22, HNil>>>>>>>>>>>>>>>>> as HList>::width() <= 17);
        assert(<HCons<T5, HCons<T6, HCons<T7, HCons<T8, HCons<T9, HCons<T10, HCons<T11, HCons<T12, HCons<T13, HCons<T14, HCons<T15, HCons<T16, HCons<T17, HCons<T18, HCons<T19, HCons<T20, HCons<T21, HCons<T22, HNil>>>>>>>>>>>>>>>>>> as HList>::width() <= 18);
        assert(<HCons<T4, HCons<T5, HCons<T6, HCons<T7, HCons<T8, HCons<T9, HCons<T10, HCons<T11, HCons<T12, HCons<T13, HCons<T14, HCons<T15, HCons<T16, HCons<T17, HCons<T18, HCons<T19, HCons<T20, HCons<T21, HCons<T22, HNil>>>>>>>>>>>>>>>>>>> as HList>::width() <= 19);
        assert(<HCons<T3, HCons<T4, HCons<T5, HCons<T6, HCons<T7, HCons<T8, HCons<T9, HCons<T10, HCons<T11, HCons<T12, HCons<T13, HCons<T14, HCons<T15, HCons<T16, HCons<T17, HCons<T18, HCons<T19, HCons<T20, HCons<T21, HCons<T22, HNil>>>>>>>>>>>>>>>>>>>> as HList>::width() <= 20);
        assert(<HCons<T2, HCons<T3, HCons<T4, HCons<T5, HCons<T6, HCons<T7, HCons<T8, HCons<T9, HCons<T10, HCons<T11, HCons<T12, HCons<T13, HCons<T14, HCons<T15, HCons<T16, HCons<T17, HCons<T18, HCons<T19, HCons<T20, HCons<T21, HCons<T22, HNil>>>>>>>>>>>>>>>>>>>>> as HList>::width() <= 21);
        assert(<HCons<T1, HCons<T2, HCons<T3, HCons<T4, HCons<T5, HCons<T6, HCons<T7, HCons<T8, HCons<T9, HCons<T10, HCons<T11, HCons<T12, HCons<T13, HCons<T14, HCons<T15, HCons<T16, HCons<T17, HCons<T18, HCons<T19, HCons<T20, HCons<T21, HCons<T22, HNil>>>>>>>>>>>>>>>>>>>>>> as HList>::width() <= 22);
        assert(<HCons<T0, HCons<T1, HCons<T2, HCons<T3, HCons<T4, HCons<T5, HCons<T6, HCons<T7, HCons<T8, HCons<T9, HCons<T10, HCons<T11, HCons<T12, HCons<T13, HCons<T14, HCons<T15, HCons<T16, HCons<T17, HCons<T18, HCons<T19, HCons<T20, HCons<T21, HCons<T22, HNil>>>>>>>>>>>>>>>>>>>>>>> as HList>::width() <= 23);
    }
}

impl<T0, T1, T2, T3, T4, T5, T6, T7, T8, T9, T10, T11, T12, T13, T14, T15, T16, T17, T18, T19, T20, T21, T22, T23> ToTuple for HCons<T0, HCons<T1, HCons<T2, HCons<T3, HCons<T4, HCons<T5, HCons<T6, HCons<T7, HCons<T8, HCons<T9, HCons<T10, HCons<T11, HCons<T12, HCons<T13, HCons<T14, HCons<T15, HCons<T16, HCons<T17, HCons<T18, HCons<T19, HCons<T20, HCons<T21, HCons<T22, HCons<T23, HNil>>>>>>>>>>>>>>>>>>>>>>>> {
    type Tuple = (T0, T1, T2, T3, T4, T5, T6, T7, T8, T9, T10, T11, T12, T13, T14, T15, T16, T17, T18, T19, T20, T21, T22, T23);

    open spec fn tuple(self) -> (T0, T1, T2, T3, T4, T5, T6, T7, T8, T9, T10, T11, T12, T13, T14, T15, T16, T17, T18, T19, T20, T21, T22, T23) {
        (self.head, self.tail.head, self.tail.tail.head, self.tail.tail.tail.head, self.tail.tail.tail.tail.head, self.tail.tail.tail.tail.tail.head, self.tail.tail.tail.tail.tail.tail.head, self.tail.tail.tail.tail.tail.tail.tail.head, self.tail.tail.tail.tail.tail.tail.tail.tail.head, self.tail.tail.tail.tail.tail.tail.tail.tail.tail.head, self.tail.tail.tail.tail.tail.tail.tail.tail.tail.tail.head, self.tail.tail.tail.tail.tail.tail.tail.tail.tail.tail.tail.head, self.tail.tail.tail.tail.tail.tail.tail.tail.tail.tail.tail.tail.head, self.tail.tail.tail.tail.tail.tail.tail.tail.tail.tail.tail.tail.tail.head, self.tail.tail.tail.tail.tail.tail.tail.tail.tail.tail.tail.tail.tail.tail.head, self.tail.tail.tail.tail.tail.tail.tail.tail.tail.tail.tail.tail.tail.tail.tail.head, self.tail.tail.tail.tail.tail.tail.tail.tail.tail.tail.tail.tail.tail.tail.tail.tail.head, self.tail.tail.tail.tail.tail.tail.tail.tail.tail.tail.tail.tail.tail.tail.tail.tail.tail.head, self.tail.tail.tail.tail.tail.tail.tail.tail.tail.tail.tail.tail.tail.tail.tail.tail.tail.tail.head, self.tail.tail.tail.tail.tail.tail.tail.tail.tail.tail.tail.tail.tail.tail.tail.tail.tail.tail.tail.head, self.tail.tail.tail.tail.tail.tail.tail.tail.tail.tail.tail.tail.tail.tail.tail.tail.tail.tail.tail.tail.head, self.tail.tail.tail.tail.tail.tail.tail.tail.tail.tail.tail.tail.tail.tail.tail.tail.tail.tail.tail.tail.tail.head, self.tail.tail.tail.tail.tail.tail.tail.tail.tail.tail.tail.tail.tail.tail.tail.tail.tail.tail.tail.tail.tail.tail.head, self.tail.tail.tail.tail.tail.tail.tail.tail.tail.tail.tail.tail.tail.tail.tail.tail.tail.tail.tail.tail.tail.tail.tail.head)
    }

    fn to_tuple(self) -> (tuple: (T0, T1, T2, T3, T4, T5, T6, T7, T8, T9, T10, T11, T12, T13, T14, T15, T16, T17, T18, T19, T20, T21, T22, T23)) {
        (self.head, self.tail.head, self.tail.tail.head, self.tail.tail.tail.head, self.tail.tail.tail.tail.head, self.tail.tail.tail.tail.tail.head, self.tail.tail.tail.tail.tail.tail.head, self.tail.tail.tail.tail.tail.tail.tail.head, self.tail.tail.tail.tail.tail.tail.tail.tail.head, self.tail.tail.tail.tail.tail.tail.tail.tail.tail.head, self.tail.tail.tail.tail.tail.tail.tail.tail.tail.tail.head, self.tail.tail.tail.tail.tail.tail.tail.tail.tail.tail.tail.head, self.tail.tail.tail.tail.tail.tail.tail.tail.tail.tail.tail.tail.head, self.tail.tail.tail.tail.tail.tail.tail.tail.tail.tail.tail.tail.tail.head, self.tail.tail.tail.tail.tail.tail.tail.tail.tail.tail.tail.tail.tail.tail.head, self.tail.tail.tail.tail.tail.tail.tail.tail.tail.tail.tail.tail.tail.tail.tail.head, self.tail.tail.tail.tail.tail.tail.tail.tail.tail.tail.tail.tail.tail.tail.tail.tail.head, self.tail.tail.tail.tail.tail.tail.tail.tail.tail.tail.tail.tail.tail.tail.tail.tail.tail.head, self.tail.tail.tail.tail.tail.tail.tail.tail.tail.tail.tail.tail.tail.tail.tail.tail.tail.tail.head, self.tail.tail.tail.tail.tail.tail.tail.tail.tail.tail.tail.tail.tail.tail.tail.tail.tail.tail.tail.head, self.tail.tail.tail.tail.tail.tail.tail.tail.tail.tail.tail.tail.tail.tail.tail.tail.tail.tail.tail.tail.head, self.tail.tail.tail.tail.tail.tail.tail.tail.tail.tail.tail.tail.tail.tail.tail.tail.tail.tail.tail.tail.tail.head, self.tail.tail.tail.tail.tail.tail.tail.tail.tail.tail.tail.tail.tail.tail.tail.tail.tail.tail.tail.tail.tail.tail.head, self.tail.tail.tail.tail.tail.tail.tail.tail.tail.tail.tail.tail.tail.tail.tail.tail.tail.tail.tail.tail.tail.tail.tail.head)
    }

    proof fn lemma_arity() {
        assert(<HNil as HList>::width() == 0);
        assert(<HCons<T23, HNil> as HList>::width() <= 1);
        assert(<HCons<T22, HCons<T23, HNil>> as HList>::width() <= 2);
        assert(<HCons<T21, HCons<T22, HCons<T23, HNil>>> as HList>::width() <= 3);
        assert(<HCons<T20, HCons<T21, HCons<T22, HCons<T23, HNil>>>> as HList>::width() <= 4);
        assert(<HCons<T19, HCons<T20, HCons<T21, HCons<T22, HCons<T23, HNil>>>>> as HList>::width() <= 5);
        assert(<HCons<T18, HCons<T19, HCons<T20, HCons<T21, HCons<T22, HCons<T23, HNil>>>>>> as HList>::width() <= 6);
        assert(<HCons<T17, HCons<T18, HCons<T19, HCons<T20, HCons<T21, HCons<T22, HCons<T23, HNil>>>>>>> as HList>::width() <= 7);
        assert(<HCons<T16, HCons<T17, HCons<T18, HCons<T19, HCons<T20, HCons<T21, HCons<T22, HCons<T23, HNil>>>>>>>> as HList>::width() <= 8);
        assert(<HCons<T15, HCons<T16, HCons<T17, HCons<T18, HCons<T19, HCons<T20, HCons<T21, HCons<T22, HCons<T23, HNil>>>>>>>>> as HList>::width() <= 9);
        assert(<HCons<T14, HCons<T15, HCons<T16, HCons<T17, HCons<T18, HCons<T19, HCons<T20, HCons<T21, HCons<T22, HCons<T23, HNil>>>>>>>>>> as HList>::width() <= 10);
        assert(<HCons<T13, HCons<T14, HCons<T15, HCons<T16, HCons<T17, HCons<T18, HCons<T19, HCons<T20, HCons<T21, HCons<T22, HCons<T23, HNil>>>>>>>>>>> as HList>::width() <= 11);
        assert(<HCons<T12, HCons<T13, HCons<T14, HCons<T15, HCons<T16, HCons<T17, HCons<T18, HCons<T19, HCons<T20, HCons<T21, HCons<T22, HCons<T23, HNil>>>>>>>>>>>> as HList>::width() <= 12);
        assert(<HCons<T11, HCons<T12, HCons<T13, HCons<T14, HCons<T15, HCons<T16, HCons<T17, HCons<T18, HCons<T19, HCons<T20, HCons<T21, HCons<T22, HCons<T23, HNil>>>>>>>>>>>>> as HList>::width() <= 13);
        assert(<HCons<T10, HCons<T11, HCons<T12, HCons<T13, HCons<T14, HCons<T15, HCons<T16, HCons<T17, HCons<T18, HCons<T19, HCons<T20, HCons<T21, HCons<T22, HCons<T23, HNil>>>>>>>>>>>>>> as HList>::width() <= 14);
        assert(<HCons<T9, HCons<T10, HCons<T11, HCons<T12, HCons<T13, HCons<T14, HCons<T15, HCons<T16, HCons<T17, HCons<T18, HCons<T19, HCons<T20, HCons<T21, HCons<T22, HCons<T23, HNil>>>>>>>>>>>>>>> as HList>::width() <= 15);
        assert(<HCons<T8, HCons<T9, HCons<T10, HCons<T11, HCons<T12, HCons<T13, HCons<T14, HCons<T15, HCons<T16, HCons<T17, HCons<T18, HCons<T19, HCons<T20, HCons<T21, HCons<T22, HCons<T23, HNil>>>>>>>>>>>>>>>> as HList>::width() <= 16);
        assert(<HCons<T7, HCons<T8, HCons<T9, HCons<T10, HCons<T11, HCons<T12, HCons<T13, HCons<T14, HCons<T15, HCons<T16, HCons<T17, HCons<T18, HCons<T19, HCons<T20, HCons<T21, HCons<T22, HCons<T23, HNil>>>>>>>>>>>>>>>>> as HList>::width() <= 17);
        assert(<HCons<T6, HCons<T7, HCons<T8, HCons<T9, HCons<T10, HCons<T11, HCons<T12, HCons<T13, HCons<T14, HCons<T15, HCons<T16, HCons<T17, HCons<T18, HCons<T19, HCons<T20, HCons<T21, HCons<T22, HCons<T23, HNil>>>>>>>>>>>>>>>>>> as HList>::width() <= 18);
        assert(<HCons<T5, HCons<T6, HCons<T7, HCons<T8, HCons<T9, HCons<T10, HCons<T11, HCons<T12, HCons<T13, HCons<T14, HCons<T15, HCons<T16, HCons<T17, HCons<T18, HCons<T19, HCons<T20, HCons<T21, HCons<T22, HCons<T23, HNil>>>>>>>>>>>>>>>>>>> as HList>::width() <= 19);
        assert(<HCons<T4, HCons<T5, HCons<T6, HCons<T7, HCons<T8, HCons<T9, HCons<T10, HCons<T11, HCons<T12, HCons<T13, HCons<T14, HCons<T15, HCons<T16, HCons<T17, HCons<T18, HCons<T19, HCons<T20, HCons<T21, HCons<T22, HCons<T23, HNil>>>>>>>>>>>>>>>>>>>> as HList>::width() <= 20);
        assert(<HCons<T3, HCons<T4, HCons<T5, HCons<T6, HCons<T7, HCons<T8, HCons<T9, HCons<T10, HCons<T11, HCons<T12, HCons<T13, HCons<T14, HCons<T15, HCons<T16, HCons<T17, HCons<T18, HCons<T19, HCons<T20, HCons<T21, HCons<T22, HCons<T23, HNil>>>>>>>>>>>>>>>>>>>>> as HList>::width() <= 21);
        assert(<HCons<T2, HCons<T3, HCons<T4, HCons<T5, HCons<T6, HCons<T7, HCons<T8, HCons<T9, HCons<T10, HCons<T11, HCons<T12, HCons<T13, HCons<T14, HCons<T15, HCons<T16, HCons<T17, HCons<T18, HCons<T19, HCons<T20, HCons<T21, HCons<T22, HCons<T23, HNil>>>>>>>>>>>>>>>>>>>>>> as HList>::width() <= 22);
        assert(<HCons<T1, HCons<T2, HCons<T3, HCons<T4, HCons<T5, HCons<T6, HCons<T7, HCons<T8, HCons<T9, HCons<T10, HCons<T11, HCons<T12, HCons<T13, HCons<T14, HCons<T15, HCons<T16, HCons<T17, HCons<T18, HCons<T19, HCons<T20, HCons<T21, HCons<T22, HCons<T23, HNil>>>>>>>>>>>>>>>>>>>>>>> as HList>::width() <= 23);
        assert(<HCons<T0, HCons<T1, HCons<T2, HCons<T3, HCons<T4, HCons<T5, HCons<T6, HCons<T7, HCons<T8, HCons<T9, HCons<T10, HCons<T11, HCons<T12, HCons<T13, HCons<T14, HCons<T15, HCons<T16, HCons<T17, HCons<T18, HCons<T19, HCons<T20, HCons<T21, HCons<T22, HCons<T23, HNil>>>>>>>>>>>>>>>>>>>>>>>> as HList>::width() <= 24);
    }
}

impl<T0, T1, T2, T3, T4, T5, T6, T7, T8, T9, T10, T11, T12, T13, T14, T15, T16, T17, T18, T19, T20, T21, T22, T23, T24> ToTuple for HCons<T0, HCons<T1, HCons<T2, HCons<T3, HCons<T4, HCons<T5, HCons<T6, HCons<T7, HCons<T8, HCons<T9, HCons<T10, HCons<T11, HCons<T12, HCons<T13, HCons<T14, HCons<T15, HCons<T16, HCons<T17, HCons<T18, HCons<T19, HCons<T20, HCons<T21, HCons<T22, HCons<T23, HCons<T24, HNil>>>>>>>>>>>>>>>>>>>>>>>>> {
    type Tuple = (T0, T1, T2, T3, T4, T5, T6, T7, T8, T9, T10, T11, T12, T13, T14, T15, T16, T17, T18, T19, T20, T21, T22, T23, T24);

    open spec fn tuple(self) -> (T0, T1, T2, T3, T4, T5, T6, T7, T8, T9, T10, T11, T12, T13, T14, T15, T16, T17, T18, T19, T20, T21, T22, T23, T24) {
        (self.head, self.tail.head, self.tail.tail.head, self.tail.tail.tail.head, self.tail.tail.tail.tail.head, self.tail.tail.tail.tail.tail.head, self.tail.tail.tail.tail.tail.tail.head, self.tail.tail.tail.tail.tail.tail.tail.head, self.tail.tail.tail.tail.tail.tail.tail.tail.head, self.tail.tail.tail.tail.tail.tail.tail.tail.tail.head, self.tail.tail.tail.tail.tail.tail.tail.tail.tail.tail.head, self.tail.tail.tail.tail.tail.tail.tail.tail.tail.tail.tail.head, self.tail.tail.tail.tail.tail.tail.tail.tail.tail.tail.tail.tail.head, self.tail.tail.tail.tail.tail.tail.tail.tail.tail.tail.tail.tail.tail.head, self.tail.tail.tail.tail.tail.tail.tail.tail.tail.tail.tail.tail.tail.tail.head, self.tail.tail.tail.tail.tail.tail.tail.tail.tail.tail.tail.tail.tail.tail.tail.head, self.tail.tail.tail.tail.tail.tail.tail.tail.tail.tail.tail.tail.tail.tail.tail.tail.head, self.tail.tail.tail.tail.tail.tail.tail.tail.tail.tail.tail.tail.tail.tail.tail.tail.tail.head, self.tail.tail.tail.tail.tail.tail.tail.tail.tail.tail.tail.tail.tail.tail.tail.tail.tail.tail.head, self.tail.tail.tail.tail.tail.tail.tail.tail.tail.tail.tail.tail.tail.tail.tail.tail.tail.tail.tail.head, self.tail.tail.tail.tail.tail.tail.tail.tail.tail.tail.tail.tail.tail.tail.tail.tail.tail.tail.tail.tail.head, self.tail.tail.tail.tail.tail.tail.tail.tail.tail.tail.tail.tail.tail.tail.tail.tail.tail.tail.tail.tail.tail.head, self.tail.tail.tail.tail.tail.tail.tail.tail.tail.tail.tail.tail.tail.tail.tail.tail.tail.tail.tail.tail.tail.tail.head, self.tail.tail.tail.tail.tail.tail.tail.tail.tail.tail.tail.tail.tail.tail.tail.tail.tail.tail.tail.tail.tail.tail.tail.head, self.tail.tail.tail.tail.tail.tail.tail.tail.tail.tail.tail.tail.tail.tail.tail.tail.tail.tail.tail.tail.tail.tail.tail.tail.head)
    }

    fn to_tuple(self) -> (tuple: (T0, T1, T2, T3, T4, T5, T6, T7, T8, T9, T10, T11, T12, T13, T14, T15, T16, T17, T18, T19, T20, T21, T22, T23, T24)) {
        (self.head, self.tail.head, self.tail.tail.head, self.tail.tail.tail.head, self.tail.tail.tail.tail.head, self.tail.tail.tail.tail.tail.head, self.tail.tail.tail.tail.tail.tail.head, self.tail.tail.tail.tail.tail.tail.tail.head, self.tail.tail.tail.tail.tail.tail.tail.tail.head, self.tail.tail.tail.tail.tail.tail.tail.tail.tail.head, self.tail.tail.tail.tail.tail.tail.tail.tail.tail.tail.head, self.tail.tail.tail.tail.tail.tail.tail.tail.tail.tail.tail.head, self.tail.tail.tail.tail.tail.tail.tail.tail.tail.tail.tail.tail.head, self.tail.tail.tail.tail.tail.tail.tail.tail.tail.tail.tail.tail.tail.head, self.tail.tail.tail.tail.tail.tail.tail.tail.tail.tail.tail.tail.tail.tail.head, self.tail.tail.tail.tail.tail.tail.tail.tail.tail.tail.tail.tail.tail.tail.tail.head, self.tail.tail.tail.tail.tail.tail.tail.tail.tail.tail.tail.tail.tail.tail.tail.tail.head, self.tail.tail.tail.tail.tail.tail.tail.tail.tail.tail.tail.tail.tail.tail.tail.tail.tail.head, self.tail.tail.tail.tail.tail.tail.tail.tail.tail.tail.tail.tail.tail.tail.tail.tail.tail.tail.head, self.tail.tail.tail.tail.tail.tail.tail.tail.tail.tail.tail.tail.tail.tail.tail.tail.tail.tail.tail.head, self.tail.tail.tail.tail.tail.tail.tail.tail.tail.tail.tail.tail.tail.tail.tail.tail.tail.tail.tail.tail.head, self.tail.tail.tail.tail.tail.tail.tail.tail.tail.tail.tail.tail.tail.tail.tail.tail.tail.tail.tail.tail.tail.head, self.tail.tail.tail.tail.tail.tail.tail.tail.tail.tail.tail.tail.tail.tail.tail.tail.tail.tail.tail.tail.tail.tail.head, self.tail.tail.tail.tail.tail.tail.tail.tail.tail.tail.tail.tail.tail.tail.tail.tail.tail.tail.tail.tail.tail.tail.tail.head, self.tail.tail.tail.tail.tail.tail.tail.tail.tail.tail.tail.tail.tail.tail.tail.tail.tail.tail.tail.tail.tail.tail.tail.tail.head)
    }

    proof fn lemma_arity() {
        assert(<HNil as HList>::width() == 0);
        assert(<HCons<T24, HNil> as HList>::width() <= 1);
        assert(<HCons<T23, HCons<T24, HNil>> as HList>::width() <= 2);
        assert(<HCons<T22, HCons<T23, HCons<T24, HNil>>> as HList>::width() <= 3);
        assert(<HCons<T21, HCons<T22, HCons<T23, HCons<T24, HNil>>>> as HList>::width() <= 4);
        assert(<HCons<T20, HCons<T21, HCons<T22, HCons<T23, HCons<T24, HNil>>>>> as HList>::width() <= 5);
        assert(<HCons<T19, HCons<T20, HCons<T21, HCons<T22, HCons<T23, HCons<T24, HNil>>>>>> as HList>::width() <= 6);
        assert(<HCons<T18, HCons<T19, HCons<T20, HCons<T21, HCons<T22, HCons<T23, HCons<T24, HNil>>>>>>> as HList>::width() <= 7);
        assert(<HCons<T17, HCons<T18, HCons<T19, HCons<T20, HCons<T21, HCons<T22, HCons<T23, HCons<T24, HNil>>>>>>>> as HList>::width() <= 8);
        assert(<HCons<T16, HCons<T17, HCons<T18, HCons<T19, HCons<T20, HCons<T21, HCons<T22, HCons<T23, HCons<T24, HNil>>>>>>>>> as HList>::width() <= 9);
        assert(<HCons<T15, HCons<T16, HCons<T17, HCons<T18, HCons<T19, HCons<T20, HCons<T21, HCons<T22, HCons<T23, HCons<T24, HNil>>>>>>>>>> as HList>::width() <= 10);
        assert(<HCons<T14, HCons<T15, HCons<T16, HCons<T17, HCons<T18, HCons<T19, HCons<T20, HCons<T21, HCons<T22, HCons<T23, HCons<T24, HNil>>>>>>>>>>> as HList>::width() <= 11);
        assert(<HCons<T13, HCons<T14, HCons<T15, HCons<T16, HCons<T17, HCons<T18, HCons<T19, HCons<T20, HCons<T21, HCons<T22, HCons<T23, HCons<T24, HNil>>>>>>>>>>>> as HList>::width() <= 12);
        assert(<HCons<T12, HCons<T13, HCons<T14, HCons<T15, HCons<T16, HCons<T17, HCons<T18, HCons<T19, HCons<T20, HCons<T21, HCons<T22, HCons<T23, HCons<T24, HNil>>>>>>>>>>>>> as HList>::width() <= 13);
        assert(<HCons<T11, HCons<T12, HCons<T13, HCons<T14, HCons<T15, HCons<T16, HCons<T17, HCons<T18, HCons<T19, HCons<T20, HCons<T21, HCons<T22, HCons<T23, HCons<T24, HNil>>>>>>>>>>>>>> as HList>::width() <= 14);
        assert(<HCons<T10, HCons<T11, HCons<T12, HCons<T13, HCons<T14, HCons<T15, HCons<T16, HCons<T17, HCons<T18, HCons<T19, HCons<T20, HCons<T21, HCons<T22, HCons<T23, HCons<T24, HNil>>>>>>>>>>>>>>> as HList>::width() <= 15);
        assert(<HCons<T9, HCons<T10, HCons<T11, HCons<T12, HCons<T13, HCons<T14, HCons<T15, HCons<T16, HCons<T17, HCons<T18, HCons<T19, HCons<T20, HCons<T21, HCons<T22, HCons<T23, HCons<T24, HNil>>>>>>>>>>>>>>>> as HList>::width() <= 16);
        assert(<HCons<T8, HCons<T9, HCons<T10, HCons<T11, HCons<T12, HCons<T13, HCons<T14, HCons<T15, HCons<T16, HCons<T17, HCons<T18, HCons<T19, HCons<T20, HCons<T21, HCons<T22, HCons<T23, HCons<T24, HNil>>>>>>>>>>>>>>>>> as HList>::width() <= 17);
        assert(<HCons<T7, HCons<T8, HCons<T9, HCons<T10, HCons<T11, HCons<T12, HCons<T13, HCons<T14, HCons<T15, HCons<T16, HCons<T17, HCons<T18, HCons<T19, HCons<T20, HCons<T21, HCons<T22, HCons<T23, HCons<T24, HNil>>>>>>>>>>>>>>>>>> as HList>::width() <= 18);
        assert(<HCons<T6, HCons<T7, HCons<T8, HCons<T9, HCons<T10, HCons<T11, HCons<T12, HCons<T13, HCons<T14, HCons<T15, HCons<T16, HCons<T17, HCons<T18, HCons<T19, HCons<T20, HCons<T21, HCons<T22, HCons<T23, HCons<T24, HNil>>>>>>>>>>>>>>>>>>> as HList>::width() <= 19);
        assert(<HCons<T5, HCons<T6, HCons<T7, HCons<T8, HCons<T9, HCons<T10, HCons<T11, HCons<T12, HCons<T13, HCons<T14, HCons<T15, HCons<T16, HCons<T17, HCons<T18, HCons<T19, HCons<T20, HCons<T21, HCons<T22, HCons<T23, HCons<T24, HNil>>>>>>>>>>>>>>>>>>>> as HList>::width() <= 20);
        assert(<HCons<T4, HCons<T5, HCons<T6, HCons<T7, HCons<T8, HCons<T9, HCons<T10, HCons<T11, HCons<T12, HCons<T13, HCons<T14, HCons<T15, HCons<T16, HCons<T17, HCons<T18, HCons<T19, HCons<T20, HCons<T21, HCons<T22, HCons<T23, HCons<T24, HNil>>>>>>>>>>>>>>>>>>>>> as HList>::width() <= 21);
        assert(<HCons<T3, HCons<T4, HCons<T5, HCons<T6, HCons<T7, HCons<T8, HCons<T9, HCons<T10, HCons<T11, HCons<T12, HCons<T13, HCons<T14, HCons<T15, HCons<T16, HCons<T17, HCons<T18, HCons<T19, HCons<T20, HCons<T21, HCons<T22, HCons<T23, HCons<T24, HNil>>>>>>>>>>>>>>>>>>>>>> as HList>::width() <= 22);
        assert(<HCons<T2, HCons<T3, HCons<T4, HCons<T5, HCons<T6, HCons<T7, HCons<T8, HCons<T9, HCons<T10, HCons<T11, HCons<T12, HCons<T13, HCons<T14, HCons<T15, HCons<T16, HCons<T17, HCons<T18, HCons<T19, HCons<T20, HCons<T21, HCons<T22, HCons<T23, HCons<T24, HNil>>>>>>>>>>>>>>>>>>>>>>> as HList>::width() <= 23);
        assert(<HCons<T1, HCons<T2, HCons<T3, HCons<T4, HCons<T5, HCons<T6, HCons<T7, HCons<T8, HCons<T9, HCons<T10, HCons<T11, HCons<T12, HCons<T13, HCons<T14, HCons<T15, HCons<T16, HCons<T17, HCons<T18, HCons<T19, HCons<T20, HCons<T21, HCons<T22, HCons<T23, HCons<T24, HNil>>>>>>>>>>>>>>>>>>>>>>>> as HList>::width() <= 24);
        assert(<HCons<T0, HCons<T1, HCons<T2, HCons<T3, HCons<T4, HCons<T5, HCons<T6, HCons<T7, HCons<T8, HCons<T9, HCons<T10, HCons<T11, HCons<T12, HCons<T13, HCons<T14, HCons<T15, HCons<T16, HCons<T17, HCons<T18, HCons<T19, HCons<T20, HCons<T21, HCons<T22, HCons<T23, HCons<T24, HNil>>>>>>>>>>>>>>>>>>>>>>>>> as HList>::width() <= 25);
    }
}

impl<T0, T1, T2, T3, T4, T5, T6, T7, T8, T9, T10, T11, T12, T13, T14, T15, T16, T17, T18, T19, T20, T21, T22, T23, T24, T25> ToTuple for HCons<T0, HCons<T1, HCons<T2, HCons<T3, HCons<T4, HCons<T5, HCons<T6, HCons<T7, HCons<T8, HCons<T9, HCons<T10, HCons<T11, HCons<T12, HCons<T13, HCons<T14, HCons<T15, HCons<T16, HCons<T17, HCons<T18, HCons<T19, HCons<T20, HCons<T21, HCons<T22, HCons<T23, HCons<T24, HCons<T25, HNil>>>>>>>>>>>>>>>>>>>>>>>>>> {
    type Tuple = (T0, T1, T2, T3, T4, T5, T6, T7, T8, T9, T10, T11, T12, T13, T14, T15, T16, T17, T18, T19, T20, T21, T22, T23, T24, T25);

    open spec fn tuple(self) -> (T0, T1, T2, T3, T4, T5, T6, T7, T8, T9, T10, T11, T12, T13, T14, T15, T16, T17, T18, T19, T20, T21, T22, T23, T24, T25) {
        (self.head, self.tail.head, self.tail.tail.head, self.tail.tail.tail.head, self.tail.tail.tail.tail.head, self.tail.tail.tail.tail.tail.head, self.tail.tail.tail.tail.tail.tail.head, self.tail.tail.tail.tail.tail.tail.tail.head, self.tail.tail.tail.tail.tail.tail.tail.tail.head, self.tail.tail.tail.tail.tail.tail.tail.tail.tail.head, self.tail.tail.tail.tail.tail.tail.tail.tail.tail.tail.head, self.tail.tail.tail.tail.tail.tail.tail.tail.tail.tail.tail.head, self.tail.tail.tail.tail.tail.tail.tail.tail.tail.tail.tail.tail.head, self.tail.tail.tail.tail.tail.tail.tail.tail.tail.tail.tail.tail.tail.head, self.tail.tail.tail.tail.tail.tail.tail.tail.tail.tail.tail.tail.tail.tail.head, self.tail.tail.tail.tail.tail.tail.tail.tail.tail.tail.tail.tail.tail.tail.tail.head, self.tail.tail.tail.tail.tail.tail.tail.tail.tail.tail.tail.tail.tail.tail.tail.tail.head, self.tail.tail.tail.tail.tail.tail.tail.tail.tail.tail.tail.tail.tail.tail.tail.tail.tail.head, self.tail.tail.tail.tail.tail.tail.tail.tail.tail.tail.tail.tail.tail.tail.tail.tail.tail.tail.head, self.tail.tail.tail.tail.tail.tail.tail.tail.tail.tail.tail.tail.tail.tail.tail.tail.tail.tail.tail.head, self.tail.tail.tail.tail.tail.tail.tail.tail.tail.tail.tail.tail.tail.tail.tail.tail.tail.tail.tail.tail.head, self.tail.tail.tail.tail.tail.tail.tail.tail.tail.tail.tail.tail.tail.tail.tail.tail.tail.tail.tail.tail.tail.head, self.tail.tail.tail.tail.tail.tail.tail.tail.tail.tail.tail.tail.tail.tail.tail.tail.tail.tail.tail.tail.tail.tail.head, self.tail.tail.tail.tail.tail.tail.tail.tail.tail.tail.tail.tail.tail.tail.tail.tail.tail.tail.tail.tail.tail.tail.tail.head, self.tail.tail.tail.tail.tail.tail.tail.tail.tail.tail.tail.tail.tail.tail.tail.tail.tail.tail.tail.tail.tail.tail.tail.tail.head, self.tail.tail.tail.tail.tail.tail.tail.tail.tail.tail.tail.tail.tail.tail.tail.tail.tail.tail.tail.tail.tail.tail.tail.tail.tail.head)
    }

    fn to_tuple(self) -> (tuple: (T0, T1, T2, T3, T4, T5, T6, T7, T8, T9, T10, T11, T12, T13, T14, T15, T16, T17, T18, T19, T20, T21, T22, T23, T24, T25)) {
        (self.head, self.tail.head, self.tail.tail.head, self.tail.tail.tail.head, self.tail.tail.tail.tail.head, self.tail.tail.tail.tail.tail.head, self.tail.tail.tail.tail.tail.tail.head, self.tail.tail.tail.tail.tail.tail.tail.head, self.tail.tail.tail.tail.tail.tail.tail.tail.head, self.tail.tail.tail.tail.tail.tail.tail.tail.tail.head, self.tail.tail.tail.tail.tail.tail.tail.tail.tail.tail.head, self.tail.tail.tail.tail.tail.tail.tail.tail.tail.tail.tail.head, self.tail.tail.tail.tail.tail.tail.tail.tail.tail.tail.tail.tail.head, self.tail.tail.tail.tail.tail.tail.tail.tail.tail.tail.tail.tail.tail.head, self.tail.tail.tail.tail.tail.tail.tail.tail.tail.tail.tail.tail.tail.tail.head, self.tail.tail.tail.tail.tail.tail.tail.tail.tail.tail.tail.tail.tail.tail.tail.head, self.tail.tail.tail.tail.tail.tail.tail.tail.tail.tail.tail.tail.tail.tail.tail.tail.head, self.tail.tail.tail.tail.tail.tail.tail.tail.tail.tail.tail.tail.tail.tail.tail.tail.tail.head, self.tail.tail.tail.tail.tail.tail.tail.tail.tail.tail.tail.tail.tail.tail.tail.tail.tail.tail.head, self.tail.tail.tail.tail.tail.tail.tail.tail.tail.tail.tail.tail.tail.tail.tail.tail.tail.tail.tail.head, self.tail.tail.tail.tail.tail.tail.tail.tail.tail.tail.tail.tail.tail.tail.tail.tail.tail.tail.tail.tail.head, self.tail.tail.tail.tail.tail.tail.tail.tail.tail.tail.tail.tail.tail.tail.tail.tail.tail.tail.tail.tail.tail.head, self.tail.tail.tail.tail.tail.tail.tail.tail.tail.tail.tail.tail.tail.tail.tail.tail.tail.tail.tail.tail.tail.tail.head, self.tail.tail.tail.tail.tail.tail.tail.tail.tail.tail.tail.tail.tail.tail.tail.tail.tail.tail.tail.tail.tail.tail.tail.head, self.tail.tail.tail.tail.tail.tail.tail.tail.tail.tail.tail.tail.tail.tail.tail.tail.tail.tail.tail.tail.tail.tail.tail.tail.head, self.tail.tail.tail.tail.tail.tail.tail.tail.tail.tail.tail.tail.tail.tail.tail.tail.tail.tail.tail.tail.tail.tail.tail.tail.tail.head)
    }

    proof fn lemma_arity() {
        assert(<HNil as HList>::width() == 0);
        assert(<HCons<T25, HNil> as HList>::width() <= 1);
        assert(<HCons<T24, HCons<T25, HNil>> as HList>::width() <= 2);
        assert(<HCons<T23, HCons<T24, HCons<T25, HNil>>> as HList>::width() <= 3);
        assert(<HCons<T22, HCons<T23, HCons<T24, HCons<T25, HNil>>>> as HList>::width() <= 4);
        assert(<HCons<T21, HCons<T22, HCons<T23, HCons<T24, HCons<T25, HNil>>>>> as HList>::width() <= 5);
        assert(<HCons<T20, HCons<T21, HCons<T22, HCons<T23, HCons<T24, HCons<T25, HNil>>>>>> as HList>::width() <= 6);
        assert(<HCons<T19, HCons<T20, HCons<T21, HCons<T22, HCons<T23, HCons<T24, HCons<T25, HNil>>>>>>> as HList>::width() <= 7);
        assert(<HCons<T18, HCons<T19, HCons<T20, HCons<T21, HCons<T22, HCons<T23, HCons<T24, HCons<T25, HNil>>>>>>>> as HList>::width() <= 8);
        assert(<HCons<T17, HCons<T18, HCons<T19, HCons<T20, HCons<T21, HCons<T22, HCons<T23, HCons<T24, HCons<T25, HNil>>>>>>>>> as HList>::width() <= 9);
        assert(<HCons<T16, HCons<T17, HCons<T18, HCons<T19, HCons<T20, HCons<T21, HCons<T22, HCons<T23, HCons<T24, HCons<T25, HNil>>>>>>>>>> as HList>::width() <= 10);
        assert(<HCons<T15, HCons<T16, HCons<T17, HCons<T18, HCons<T19, HCons<T20, HCons<T21, HCons<T22, HCons<T23, HCons<T24, HCons<T25, HNil>>>>>>>>>>> as HList>::width() <= 11);
        assert(<HCons<T14, HCons<T15, HCons<T16, HCons<T17, HCons<T18, HCons<T19, HCons<T20, HCons<T21, HCons<T22, HCons<T23, HCons<T24, HCons<T25, HNil>>>>>>>>>>>> as HList>::width() <= 12);
        assert(<HCons<T13, HCons<T14, HCons<T15, HCons<T16, HCons<T17, HCons<T18, HCons<T19, HCons<T20, HCons<T21, HCons<T22, HCons<T23, HCons<T24, HCons<T25, HNil>>>>>>>>>>>>> as HList>::width() <= 13);
        assert(<HCons<T12, HCons<T13, HCons<T14, HCons<T15, HCons<T16, HCons<T17, HCons<T18, HCons<T19, HCons<T20, HCons<T21, HCons<T22, HCons<T23, HCons<T24, HCons<T25, HNil>>>>>>>>>>>>>> as HList>::width() <= 14);
        assert(<HCons<T11, HCons<T12, HCons<T13, HCons<T14, HCons<T15, HCons<T16, HCons<T17, HCons<T18, HCons<T19, HCons<T20, HCons<T21, HCons<T22, HCons<T23, HCons<T24, HCons<T25, HNil>>>>>>>>>>>>>>> as HList>::width() <= 15);
        assert(<HCons<T10, HCons<T11, HCons<T12, HCons<T13, HCons<T14, HCons<T15, HCons<T16, HCons<T17, HCons<T18, HCons<T19, HCons<T20, HCons<T21, HCons<T22, HCons<T23, HCons<T24, HCons<T25, HNil>>>>>>>>>>>>>>>> as HList>::width() <= 16);
        assert(<HCons<T9, HCons<T10, HCons<T11, HCons<T12, HCons<T13, HCons<T14, HCons<T15, HCons<T16, HCons<T17, HCons<T18, HCons<T19, HCons<T20, HCons<T21, HCons<T22, HCons<T23, HCons<T24, HCons<T25, HNil>>>>>>>>>>>>>>>>> as HList>::width() <= 17);
        assert(<HCons<T8, HCons<T9, HCons<T10, HCons<T11, HCons<T12, HCons<T13, HCons<T14, HCons<T15, HCons<T16, HCons<T17, HCons<T18, HCons<T19, HCons<T20, HCons<T21, HCons<T22, HCons<T23, HCons<T24, HCons<T25, HNil>>>>>>>>>>>>>>>>>> as HList>::width() <= 18);
        assert(<HCons<T7, HCons<T8, HCons<T9, HCons<T10, HCons<T11, HCons<T12, HCons<T13, HCons<T14, HCons<T15, HCons<T16, HCons<T17, HCons<T18, HCons<T19, HCons<T20, HCons<T21, HCons<T22, HCons<T23, HCons<T24, HCons<T25, HNil>>>>>>>>>>>>>>>>>>> as HList>::width() <= 19);
        assert(<HCons<T6, HCons<T7, HCons<T8, HCons<T9, HCons<T10, HCons<T11, HCons<T12, HCons<T13, HCons<T14, HCons<T15, HCons<T16, HCons<T17, HCons<T18, HCons<T19, HCons<T20, HCons<T21, HCons<T22, HCons<T23, HCons<T24, HCons<T25, HNil>>>>>>>>>>>>>>>>>>>> as HList>::width() <= 20);
        assert(<HCons<T5, HCons<T6, HCons<T7, HCons<T8, HCons<T9, HCons<T10, HCons<T11, HCons<T12, HCons<T13, HCons<T14, HCons<T15, HCons<T16, HCons<T17, HCons<T18, HCons<T19, HCons<T20, HCons<T21, HCons<T22, HCons<T23, HCons<T24, HCons<T25, HNil>>>>>>>>>>>>>>>>>>>>> as HList>::width() <= 21);
        assert(<HCons<T4, HCons<T5, HCons<T6, HCons<T7, HCons<T8, HCons<T9, HCons<T10, HCons<T11, HCons<T12, HCons<T13, HCons<T14, HCons<T15, HCons<T16, HCons<T17, HCons<T18, HCons<T19, HCons<T20, HCons<T21, HCons<T22, HCons<T23, HCons<T24, HCons<T25, HNil>>>>>>>>>>>>>>>>>>>>>> as HList>::width() <= 22);
        assert(<HCons<T3, HCons<T4, HCons<T5, HCons<T6, HCons<T7, HCons<T8, HCons<T9, HCons<T10, HCons<T11, HCons<T12, HCons<T13, HCons<T14, HCons<T15, HCons<T16, HCons<T17, HCons<T18, HCons<T19, HCons<T20, HCons<T21, HCons<T22, HCons<T23, HCons<T24, HCons<T25, HNil>>>>>>>>>>>>>>>>>>>>>>> as HList>::width() <= 23);
        assert(<HCons<T2, HCons<T3, HCons<T4, HCons<T5, HCons<T6, HCons<T7, HCons<T8, HCons<T9, HCons<T10, HCons<T11, HCons<T12, HCons<T13, HCons<T14, HCons<T15, HCons<T16, HCons<T17, HCons<T18, HCons<T19, HCons<T20, HCons<T21, HCons<T22, HCons<T23, HCons<T24, HCons<T25, HNil>>>>>>>>>>>>>>>>>>>>>>>> as HList>::width() <= 24);
        assert(<HCons<T1, HCons<T2, HCons<T3, HCons<T4, HCons<T5, HCons<T6, HCons<T7, HCons<T8, HCons<T9, HCons<T10, HCons<T11, HCons<T12, HCons<T13, HCons<T14, HCons<T15, HCons<T16, HCons<T17, HCons<T18, HCons<T19, HCons<T20, HCons<T21, HCons<T22, HCons<T23, HCons<T24, HCons<T25, HNil>>>>>>>>>>>>>>>>>>>>>>>>> as HList>::width() <= 25);
        assert(<HCons<T0, HCons<T1, HCons<T2, HCons<T3, HCons<T4, HCons<T5, HCons<T6, HCons<T7, HCons<T8, HCons<T9, HCons<T10, HCons<T11, HCons<T12, HCons<T13, HCons<T14, HCons<T15, HCons<T16, HCons<T17, HCons<T18, HCons<T19, HCons<T20, HCons<T21, HCons<T22, HCons<T23, HCons<T24, HCons<T25, HNil>>>>>>>>>>>>>>>>>>>>>>>>>> as HList>::width() <= 26);
    }
}

impl<T0, T1, T2, T3, T4, T5, T6, T7, T8, T9, T10, T11, T12, T13, T14, T15, T16, T17, T18, T19, T20, T21, T22, T23, T24, T25, T26> ToTuple for HCons<T0, HCons<T1, HCons<T2, HCons<T3, HCons<T4, HCons<T5, HCons<T6, HCons<T7, HCons<T8, HCons<T9, HCons<T10, HCons<T11, HCons<T12, HCons<T13, HCons<T14, HCons<T15, HCons<T16, HCons<T17, HCons<T18, HCons<T19, HCons<T20, HCons<T21, HCons<T22, HCons<T23, HCons<T24, HCons<T25, HCons<T26, HNil>>>>>>>>>>>>>>>>>>>>>>>>>>> {
    type Tuple = (T0, T1, T2, T3, T4, T5, T6, T7, T8, T9, T10, T11, T12, T13, T14, T15, T16, T17, T18, T19, T20, T21, T22, T23, T24, T25, T26);

    open spec fn tuple(self) -> (T0, T1, T2, T3, T4, T5, T6, T7, T8, T9, T10, T11, T12, T13, T14, T15, T16, T17, T18, T19, T20, T21, T22, T23, T24, T25, T26) {
        (self.head, self.tail.head, self.tail.tail.head, self.tail.tail.tail.head, self.tail.tail.tail.tail.head, self.tail.tail.tail.tail.tail.head, self.tail.tail.tail.tail.tail.tail.head, self.tail.tail.tail.tail.tail.tail.tail.head, self.tail.tail.tail.tail.tail.tail.tail.tail.head, self.tail.tail.tail.tail.tail.tail.tail.tail.tail.head, self.tail.tail.tail.tail.tail.tail.tail.tail.tail.tail.head, self.tail.tail.tail.tail.tail.tail.tail.tail.tail.tail.tail.head, self.tail.tail.tail.tail.tail.tail.tail.tail.tail.tail.tail.tail.head, self.tail.tail.tail.tail.tail.tail.tail.tail.tail.tail.tail.tail.tail.head, self.tail.tail.tail.tail.tail.tail.tail.tail.tail.tail.tail.tail.tail.tail.head, self.tail.tail.tail.tail.tail.tail.tail.tail.tail.tail.tail.tail.tail.tail.tail.head, self.tail.tail.tail.tail.tail.tail.tail.tail.tail.tail.tail.tail.tail.tail.tail.tail.head, self.tail.tail.tail.tail.tail.tail.tail.tail.tail.tail.tail.tail.tail.tail.tail.tail.tail.head, self.tail.tail.tail.tail.tail.tail.tail.tail.tail.tail.tail.tail.tail.tail.tail.tail.tail.tail.head, self.tail.tail.tail.tail.tail.tail.tail.tail.tail.tail.tail.tail.tail.tail.tail.tail.tail.tail.tail.head, self.tail.tail.tail.tail.tail.tail.tail.tail.tail.tail.tail.tail.tail.tail.tail.tail.tail.tail.tail.tail.head, self.tail.tail.tail.tail.tail.tail.tail.tail.tail.tail.tail.tail.tail.tail.tail.tail.tail.tail.tail.tail.tail.head, self.tail.tail.tail.tail.tail.tail.tail.tail.tail.tail.tail.tail.tail.tail.tail.tail.tail.tail.tail.tail.tail.tail.head, self.tail.tail.tail.tail.tail.tail.tail.tail.tail.tail.tail.tail.tail.tail.tail.tail.tail.tail.tail.tail.tail.tail.tail.head, self.tail.tail.tail.tail.tail.tail.tail.tail.tail.tail.tail.tail.tail.tail.tail.tail.tail.tail.tail.tail.tail.tail.tail.tail.head, self.tail.tail.tail.tail.tail.tail.tail.tail.tail.tail.tail.tail.tail.tail.tail.tail.tail.tail.tail.tail.tail.tail.tail.tail.tail.head, self.tail.tail.tail.tail.tail.tail.tail.tail.tail.tail.tail.tail.tail.tail.tail.tail.tail.tail.tail.tail.tail.tail.tail.tail.tail.tail.head)
    }

    fn to_tuple(self) -> (tuple: (T0, T1, T2, T3, T4, T5, T6, T7, T8, T9, T10, T11, T12, T13, T14, T15, T16, T17, T18, T19, T20, T21, T22, T23, T24, T25, T26)) {
        (self.head, self.tail.head, self.tail.tail.head, self.tail.tail.tail.head, self.tail.tail.tail.tail.head, self.tail.tail.tail.tail.tail.head, self.tail.tail.tail.tail.tail.tail.head, self.tail.tail.tail.tail.tail.tail.tail.head, self.tail.tail.tail.tail.tail.tail.tail.tail.head, self.tail.tail.tail.tail.tail.tail.tail.tail.tail.head, self.tail.tail.tail.tail.tail.tail.tail.tail.tail.tail.head, self.tail.tail.tail.tail.tail.tail.tail.tail.tail.tail.tail.head, self.tail.tail.tail.tail.tail.tail.tail.tail.tail.tail.tail.tail.head, self.tail.tail.tail.tail.tail.tail.tail.tail.tail.tail.tail.tail.tail.head, self.tail.tail.tail.tail.tail.tail.tail.tail.tail.tail.tail.tail.tail.tail.head, self.tail.tail.tail.tail.tail.tail.tail.tail.tail.tail.tail.tail.tail.tail.tail.head, self.tail.tail.tail.tail.tail.tail.tail.tail.tail.tail.tail.tail.tail.tail.tail.tail.head, self.tail.tail.tail.tail.tail.tail.tail.tail.tail.tail.tail.tail.tail.tail.tail.tail.tail.head, self.tail.tail.tail.tail.tail.tail.tail.tail.tail.tail.tail.tail.tail.tail.tail.tail.tail.tail.head, self.tail.tail.tail.tail.tail.tail.tail.tail.tail.tail.tail.tail.tail.tail.tail.tail.tail.tail.tail.head, self.tail.tail.tail.tail.tail.tail.tail.tail.tail.tail.tail.tail.tail.tail.tail.tail.tail.tail.tail.tail.head, self.tail.tail.tail.tail.tail.tail.tail.tail.tail.tail.tail.tail.tail.tail.tail.tail.tail.tail.tail.tail.tail.head, self.tail.tail.tail.tail.tail.tail.tail.tail.tail.tail.tail.tail.tail.tail.tail.tail.tail.tail.tail.tail.tail.tail.head, self.tail.tail.tail.tail.tail.tail.tail.tail.tail.tail.tail.tail.tail.tail.tail.tail.tail.tail.tail.tail.tail.tail.tail.head, self.tail.tail.tail.tail.tail.tail.tail.tail.tail.tail.tail.tail.tail.tail.tail.tail.tail.tail.tail.tail.tail.tail.tail.tail.head, self.tail.tail.tail.tail.tail.tail.tail.tail.tail.tail.tail.tail.tail.tail.tail.tail.tail.tail.tail.tail.tail.tail.tail.tail.tail.head, self.tail.tail.tail.tail.tail.tail.tail.tail.tail.tail.tail.tail.tail.tail.tail.tail.tail.tail.tail.tail.tail.tail.tail.tail.tail.tail.head)
    }

    proof fn lemma_arity() {
        assert(<HNil as HList>::width() == 0);
        assert(<HCons<T26, HNil> as HList>::width() <= 1);
        assert(<HCons<T25, HCons<T26, HNil>> as HList>::width() <= 2);
        assert(<HCons<T24, HCons<T25, HCons<T26, HNil>>> as HList>::width() <= 3);
        assert(<HCons<T23, HCons<T24, HCons<T25, HCons<T26, HNil>>>> as HList>::width() <= 4);
        assert(<HCons<T22, HCons<T23, HCons<T24, HCons<T25, HCons<T26, HNil>>>>> as HList>::width() <= 5);
        assert(<HCons<T21, HCons<T22, HCons<T23, HCons<T24, HCons<T25, HCons<T26, HNil>>>>>> as HList>::width() <= 6);
        assert(<HCons<T20, HCons<T21, HCons<T22, HCons<T23, HCons<T24, HCons<T25, HCons<T26, HNil>>>>>>> as HList>::width() <= 7);
        assert(<HCons<T19, HCons<T20, HCons<T21, HCons<T22, HCons<T23, HCons<T24, HCons<T25, HCons<T26, HNil>>>>>>>> as HList>::width() <= 8);
        assert(<HCons<T18, HCons<T19, HCons<T20, HCons<T21, HCons<T22, HCons<T23, HCons<T24, HCons<T25, HCons<T26, HNil>>>>>>>>> as HList>::width() <= 9);
        assert(<HCons<T17, HCons<T18, HCons<T19, HCons<T20, HCons<T21, HCons<T22, HCons<T23, HCons<T24, HCons<T25, HCons<T26, HNil>>>>>>>>>> as HList>::width() <= 10);
        assert(<HCons<T16, HCons<T17, HCons<T18, HCons<T19, HCons<T20, HCons<T21, HCons<T22, HCons<T23, HCons<T24, HCons<T25, HCons<T26, HNil>>>>>>>>>>> as HList>::width() <= 11);
        assert(<HCons<T15, HCons<T16, HCons<T17, HCons<T18, HCons<T19, HCons<T20, HCons<T21, HCons<T22, HCons<T23, HCons<T24, HCons<T25, HCons<T26, HNil>>>>>>>>>>>> as HList>::width() <= 12);
        assert(<HCons<T14, HCons<T15, HCons<T16, HCons<T17, HCons<T18, HCons<T19, HCons<T20, HCons<T21, HCons<T22, HCons<T23, HCons<T24, HCons<T25, HCons<T26, HNil>>>>>>>>>>>>> as HList>::width() <= 13);
        assert(<HCons<T13, HCons<T14, HCons<T15, HCons<T16, HCons<T17, HCons<T18, HCons<T19, HCons<T20, HCons<T21, HCons<T22, HCons<T23, HCons<T24, HCons<T25, HCons<T26, HNil>>>>>>>>>>>>>> as HList>::width() <= 14);
        assert(<HCons<T12, HCons<T13, HCons<T14, HCons<T15, HCons<T16, HCons<T17, HCons<T18, HCons<T19, HCons<T20, HCons<T21, HCons<T22, HCons<T23, HCons<T24, HCons<T25, HCons<T26, HNil>>>>>>>>>>>>>>> as HList>::width() <= 15);
        assert(<HCons<T11, HCons<T12, HCons<T13, HCons<T14, HCons<T15, HCons<T16, HCons<T17, HCons<T18, HCons<T19, HCons<T20, HCons<T21, HCons<T22, HCons<T23, HCons<T24, HCons<T25, HCons<T26, HNil>>>>>>>>>>>>>>>> as HList>::width() <= 16);
        assert(<HCons<T10, HCons<T11, HCons<T12, HCons<T13, HCons<T14, HCons<T15, HCons<T16, HCons<T17, HCons<T18, HCons<T19, HCons<T20, HCons<T21, HCons<T22, HCons<T23, HCons<T24, HCons<T25, HCons<T26, HNil>>>>>>>>>>>>>>>>> as HList>::width() <= 17);
        assert(<HCons<T9, HCons<T10, HCons<T11, HCons<T12, HCons<T13, HCons<T14, HCons<T15, HCons<T16, HCons<T17, HCons<T18, HCons<T19, HCons<T20, HCons<T21, HCons<T22, HCons<T23, HCons<T24, HCons<T25, HCons<T26, HNil>>>>>>>>>>>>>>>>>> as HList>::width() <= 18);
        assert(<HCons<T8, HCons<T9, HCons<T10, HCons<T11, HCons<T12, HCons<T13, HCons<T14, HCons<T15, HCons<T16, HCons<T17, HCons<T18, HCons<T19, HCons<T20, HCons<T21, HCons<T22, HCons<T23, HCons<T24, HCons<T25, HCons<T26, HNil>>>>>>>>>>>>>>>>>>> as HList>::width() <= 19);
        assert(<HCons<T7, HCons<T8, HCons<T9, HCons<T10, HCons<T11, HCons<T12, HCons<T13, HCons<T14, HCons<T15, HCons<T16, HCons<T17, HCons<T18, HCons<T19, HCons<T20, HCons<T21, HCons<T22, HCons<T23, HCons<T24, HCons<T25, HCons<T26, HNil>>>>>>>>>>>>>>>>>>>> as HList>::width() <= 20);
        assert(<HCons<T6, HCons<T7, HCons<T8, HCons<T9, HCons<T10, HCons<T11, HCons<T12, HCons<T13, HCons<T14, HCons<T15, HCons<T16, HCons<T17, HCons<T18, HCons<T19, HCons<T20, HCons<T21, HCons<T22, HCons<T23, HCons<T24, HCons<T25, HCons<T26, HNil>>>>>>>>>>>>>>>>>>>>> as HList>::width() <= 21);
        assert(<HCons<T5, HCons<T6, HCons<T7, HCons<T8, HCons<T9, HCons<T10, HCons<T11, HCons<T12, HCons<T13, HCons<T14, HCons<T15, HCons<T16, HCons<T17, HCons<T18, HCons<T19, HCons<T20, HCons<T21, HCons<T22, HCons<T23, HCons<T24, HCons<T25, HCons<T26, HNil>>>>>>>>>>>>>>>>>>>>>> as HList>::width() <= 22);
        assert(<HCons<T4, HCons<T5, HCons<T6, HCons<T7, HCons<T8, HCons<T9, HCons<T10, HCons<T11, HCons<T12, HCons<T13, HCons<T14, HCons<T15, HCons<T16, HCons<T17, HCons<T18, HCons<T19, HCons<T20, HCons<T21, HCons<T22, HCons<T23, HCons<T24, HCons<T25, HCons<T26, HNil>>>>>>>>>>>>>>>>>>>>>>> as HList>::width() <= 23);
        assert(<HCons<T3, HCons<T4, HCons<T5, HCons<T6, HCons<T7, HCons<T8, HCons<T9, HCons<T10, HCons<T11, HCons<T12, HCons<T13, HCons<T14, HCons<T15, HCons<T16, HCons<T17, HCons<T18, HCons<T19, HCons<T20, HCons<T21, HCons<T22, HCons<T23, HCons<T24, HCons<T25, HCons<T26, HNil>>>>>>>>>>>>>>>>>>>>>>>> as HList>::width() <= 24);
        assert(<HCons<T2, HCons<T3, HCons<T4, HCons<T5, HCons<T6, HCons<T7, HCons<T8, HCons<T9, HCons<T10, HCons<T11, HCons<T12, HCons<T13, HCons<T14, HCons<T15, HCons<T16, HCons<T17, HCons<T18, HCons<T19, HCons<T20, HCons<T21, HCons<T22, HCons<T23, HCons<T24, HCons<T25, HCons<T26, HNil>>>>>>>>>>>>>>>>>>>>>>>>> as HList>::width() <= 25);
        assert(<HCons<T1, HCons<T2, HCons<T3, HCons<T4, HCons<T5, HCons<T6, HCons<T7, HCons<T8, HCons<T9, HCons<T10, HCons<T11, HCons<T12, HCons<T13, HCons<T14, HCons<T15, HCons<T16, HCons<T17, HCons<T18, HCons<T19, HCons<T20, HCons<T21, HCons<T22, HCons<T23, HCons<T24, HCons<T25, HCons<T26, HNil>>>>>>>>>>>>>>>>>>>>>>>>>> as HList>::width() <= 26);
        assert(<HCons<T0, HCons<T1, HCons<T2, HCons<T3, HCons<T4, HCons<T5, HCons<T6, HCons<T7, HCons<T8, HCons<T9, HCons<T10, HCons<T11, HCons<T12, HCons<T13, HCons<T14, HCons<T15, HCons<T16, HCons<T17, HCons<T18, HCons<T19, HCons<T20, HCons<T21, HCons<T22, HCons<T23, HCons<T24, HCons<T25, HCons<T26, HNil>>>>>>>>>>>>>>>>>>>>>>>>>>> as HList>::width() <= 27);
    }
}

impl<T0, T1, T2, T3, T4, T5, T6, T7, T8, T9, T10, T11, T12, T13, T14, T15, T16, T17, T18, T19, T20, T21, T22, T23, T24, T25, T26, T27> ToTuple for HCons<T0, HCons<T1, HCons<T2, HCons<T3, HCons<T4, HCons<T5, HCons<T6, HCons<T7, HCons<T8, HCons<T9, HCons<T10, HCons<T11, HCons<T12, HCons<T13, HCons<T14, HCons<T15, HCons<T16, HCons<T17, HCons<T18, HCons<T19, HCons<T20, HCons<T21, HCons<T22, HCons<T23, HCons<T24, HCons<T25, HCons<T26, HCons<T27, HNil>>>>>>>>>>>>>>>>>>>>>>>>>>>> {
    type Tuple = (T0, T1, T2, T3, T4, T5, T6, T7, T8, T9, T10, T11, T12, T13, T14, T15, T16, T17, T18, T19, T20, T21, T22, T23, T24, T25, T26, T27);

    open spec fn tuple(self) -> (T0, T1, T2, T3, T4, T5, T6, T7, T8, T9, T10, T11, T12, T13, T14, T15, T16, T17, T18, T19, T20, T21, T22, T23, T24, T25, T26, T27) {
        (self.head, self.tail.head, self.tail.tail.head, self.tail.tail.tail.head, self.tail.tail.tail.tail.head, self.tail.tail.tail.tail.tail.head, self.tail.tail.tail.tail.tail.tail.head, self.tail.tail.tail.tail.tail.tail.tail.head, self.tail.tail.tail.tail.tail.tail.tail.tail.head, self.tail.tail.tail.tail.tail.tail.tail.tail.tail.head, self.tail.tail.tail.tail.tail.tail.tail.tail.tail.tail.head, self.tail.tail.tail.tail.tail.tail.tail.tail.tail.tail.tail.head, self.tail.tail.tail.tail.tail.tail.tail.tail.tail.tail.tail.tail.head, self.tail.tail.tail.tail.tail.tail.tail.tail.tail.tail.tail.tail.tail.head, self.tail.tail.tail.tail.tail.tail.tail.tail.tail.tail.tail.tail.tail.tail.head, self.tail.tail.tail.tail.tail.tail.tail.tail.tail.tail.tail.tail.tail.tail.tail.head, self.tail.tail.tail.tail.tail.tail.tail.tail.tail.tail.tail.tail.tail.tail.tail.tail.head, self.tail.tail.tail.tail.tail.tail.tail.tail.tail.tail.tail.tail.tail.tail.tail.tail.tail.head, self.tail.tail.tail.tail.tail.tail.tail.tail.tail.tail.tail.tail.tail.tail.tail.tail.tail.tail.head, self.tail.tail.tail.tail.tail.tail.tail.tail.tail.tail.tail.tail.tail.tail.tail.tail.tail.tail.tail.head, self.tail.tail.tail.tail.tail.tail.tail.tail.tail.tail.tail.tail.tail.tail.tail.tail.tail.tail.tail.tail.head, self.tail.tail.tail.tail.tail.tail.tail.tail.tail.tail.tail.tail.tail.tail.tail.tail.tail.tail.tail.tail.tail.head, self.tail.tail.tail.tail.tail.tail.tail.tail.tail.tail.tail.tail.tail.tail.tail.tail.tail.tail.tail.tail.tail.tail.head, self.tail.tail.tail.tail.tail.tail.tail.tail.tail.tail.tail.tail.tail.tail.tail.tail.tail.tail.tail.tail.tail.tail.tail.head, self.tail.tail.tail.tail.tail.tail.tail.tail.tail.tail.tail.tail.tail.tail.tail.tail.tail.tail.tail.tail.tail.tail.tail.tail.head, self.tail.tail.tail.tail.tail.tail.tail.tail.tail.tail.tail.tail.tail.tail.tail.tail.tail.tail.tail.tail.tail.tail.tail.tail.tail.head, self.tail.tail.tail.tail.tail.tail.tail.tail.tail.tail.tail.tail.tail.tail.tail.tail.tail.tail.tail.tail.tail.tail.tail.tail.tail.tail.head, self.tail.tail.tail.tail.tail.tail.tail.tail.tail.tail.tail.tail.tail.tail.tail.tail.tail.tail.tail.tail.tail.tail.tail.tail.tail.tail.tail.head)
    }

    fn to_tuple(self) -> (tuple: (T0, T1, T2, T3, T4, T5, T6, T7, T8, T9, T10, T11, T12, T13, T14, T15, T16, T17, T18, T19, T20, T21, T22, T23, T24, T25, T26, T27)) {
        (self.head, self.tail.head, self.tail.tail.head, self.tail.tail.tail.head, self.tail.tail.tail.tail.head, self.tail.tail.tail.tail.tail.head, self.tail.tail.tail.tail.tail.tail.head, self.tail.tail.tail.tail.tail.tail.tail.head, self.tail.tail.tail.tail.tail.tail.tail.tail.head, self.tail.tail.tail.tail.tail.tail.tail.tail.tail.head, self.tail.tail.tail.tail.tail.tail.tail.tail.tail.tail.head, self.tail.tail.tail.tail.tail.tail.tail.tail.tail.tail.tail.head, self.tail.tail.tail.tail.tail.tail.tail.tail.tail.tail.tail.tail.head, self.tail.tail.tail.tail.tail.tail.tail.tail.tail.tail.tail.tail.tail.head, self.tail.tail.tail.tail.tail.tail.tail.tail.tail.tail.tail.tail.tail.tail.head, self.tail.tail.tail.tail.tail.tail.tail.tail.tail.tail.tail.tail.tail.tail.tail.head, self.tail.tail.tail.tail.tail.tail.tail.tail.tail.tail.tail.tail.tail.tail.tail.tail.head, self.tail.tail.tail.tail.tail.tail.tail.tail.tail.tail.tail.tail.tail.tail.tail.tail.tail.head, self.tail.tail.tail.tail.tail.tail.tail.tail.tail.tail.tail.tail.tail.tail.tail.tail.tail.tail.head, self.tail.tail.tail.tail.tail.tail.tail.tail.tail.tail.tail.tail.tail.tail.tail.tail.tail.tail.tail.head, self.tail.tail.tail.tail.tail.tail.tail.tail.tail.tail.tail.tail.tail.tail.tail.tail.tail.tail.tail.tail.head, self.tail.tail.tail.tail.tail.tail.tail.tail.tail.tail.tail.tail.tail.tail.tail.tail.tail.tail.tail.tail.tail.head, self.tail.tail.tail.tail.tail.tail.tail.tail.tail.tail.tail.tail.tail.tail.tail.tail.tail.tail.tail.tail.tail.tail.head, self.tail.tail.tail.tail.tail.tail.tail.tail.tail.tail.tail.tail.tail.tail.tail.tail.tail.tail.tail.tail.tail.tail.tail.head, self.tail.tail.tail.tail.tail.tail.tail.tail.tail.tail.tail.tail.tail.tail.tail.tail.tail.tail.tail.tail.tail.tail.tail.tail.head, self.tail.tail.tail.tail.tail.tail.tail.tail.tail.tail.tail.tail.tail.tail.tail.tail.tail.tail.tail.tail.tail.tail.tail.tail.tail.head, self.tail.tail.tail.tail.tail.tail.tail.tail.tail.tail.tail.tail.tail.tail.tail.tail.tail.tail.tail.tail.tail.tail.tail.tail.tail.tail.head, self.tail.tail.tail.tail.tail.tail.tail.tail.tail.tail.tail.tail.tail.tail.tail.tail.tail.tail.tail.tail.tail.tail.tail.tail.tail.tail.tail.head)
    }

    proof fn lemma_arity() {
        assert(<HNil as HList>::width() == 0);
        assert(<HCons<T27, HNil> as HList>::width() <= 1);
        assert(<HCons<T26, HCons<T27, HNil>> as HList>::width() <= 2);
        assert(<HCons<T25, HCons<T26, HCons<T27, HNil>>> as HList>::width() <= 3);
        assert(<HCons<T24, HCons<T25, HCons<T26, HCons<T27, HNil>>>> as HList>::width() <= 4);
        assert(<HCons<T23, HCons<T24, HCons<T25, HCons<T26, HCons<T27, HNil>>>>> as HList>::width() <= 5);
        assert(<HCons<T22, HCons<T23, HCons<T24, HCons<T25, HCons<T26, HCons<T27, HNil>>>>>> as HList>::width() <= 6);
        assert(<HCons<T21, HCons<T22, HCons<T23, HCons<T24, HCons<T25, HCons<T26, HCons<T27, HNil>>>>>>> as HList>::width() <= 7);
        assert(<HCons<T20, HCons<T21, HCons<T22, HCons<T23, HCons<T24, HCons<T25, HCons<T26, HCons<T27, HNil>>>>>>>> as HList>::width() <= 8);
        assert(<HCons<T19, HCons<T20, HCons<T21, HCons<T22, HCons<T23, HCons<T24, HCons<T25, HCons<T26, HCons<T27, HNil>>>>>>>>> as HList>::width() <= 9);
        assert(<HCons<T18, HCons<T19, HCons<T20, HCons<T21, HCons<T22, HCons<T23, HCons<T24, HCons<T25, HCons<T26, HCons<T27, HNil>>>>>>>>>> as HList>::width() <= 10);
        assert(<HCons<T17, HCons<T18, HCons<T19, HCons<T20, HCons<T21, HCons<T22, HCons<T23, HCons<T24, HCons<T25, HCons<T26, HCons<T27, HNil>>>>>>>>>>> as HList>::width() <= 11);
        assert(<HCons<T16, HCons<T17, HCons<T18, HCons<T19, HCons<T20, HCons<T21, HCons<T22, HCons<T23, HCons<T24, HCons<T25, HCons<T26, HCons<T27, HNil>>>>>>>>>>>> as HList>::width() <= 12);
        assert(<HCons<T15, HCons<T16, HCons<T17, HCons<T18, HCons<T19, HCons<T20, HCons<T21, HCons<T22, HCons<T23, HCons<T24, HCons<T25, HCons<T26, HCons<T27, HNil>>>>>>>>>>>>> as HList>::width() <= 13);
        assert(<HCons<T14, HCons<T15, HCons<T16, HCons<T17, HCons<T18, HCons<T19, HCons<T20, HCons<T21, HCons<T22, HCons<T23, HCons<T24, HCons<T25, HCons<T26, HCons<T27, HNil>>>>>>>>>>>>>> as HList>::width() <= 14);
        assert(<HCons<T13, HCons<T14, HCons<T15, HCons<T16, HCons<T17, HCons<T18, HCons<T19, HCons<T20, HCons<T21, HCons<T22, HCons<T23, HCons<T24, HCons<T25, HCons<T26, HCons<T27, HNil>>>>>>>>>>>>>>> as HList>::width() <= 15);
        assert(<HCons<T12, HCons<T13, HCons<T14, HCons<T15, HCons<T16, HCons<T17, HCons<T18, HCons<T19, HCons<T20, HCons<T21, HCons<T22, HCons<T23, HCons<T24, HCons<T25, HCons<T26, HCons<T27, HNil>>>>>>>>>>>>>>>> as HList>::width() <= 16);
        assert(<HCons<T11, HCons<T12, HCons<T13, HCons<T14, HCons<T15, HCons<T16, HCons<T17, HCons<T18, HCons<T19, HCons<T20, HCons<T21, HCons<T22, HCons<T23, HCons<T24, HCons<T25, HCons<T26, HCons<T27, HNil>>>>>>>>>>>>>>>>> as HList>::width() <= 17);
        assert(<HCons<T10, HCons<T11, HCons<T12, HCons<T13, HCons<T14, HCons<T15, HCons<T16, HCons<T17, HCons<T18, HCons<T19, HCons<T20, HCons<T21, HCons<T22, HCons<T23, HCons<T24, HCons<T25, HCons<T26, HCons<T27, HNil>>>>>>>>>>>>>>>>>> as HList>::width() <= 18);
        assert(<HCons<T9, HCons<T10, HCons<T11, HCons<T12, HCons<T13, HCons<T14, HCons<T15, HCons<T16, HCons<T17, HCons<T18, HCons<T19, HCons<T20, HCons<T21, HCons<T22, HCons<T23, HCons<T24, HCons<T25, HCons<T26, HCons<T27, HNil>>>>>>>>>>>>>>>>>>> as HList>::width() <= 19);
        assert(<HCons<T8, HCons<T9, HCons<T10, HCons<T11, HCons<T12, HCons<T13, HCons<T14, HCons<T15, HCons<T16, HCons<T17, HCons<T18, HCons<T19, HCons<T20, HCons<T21, HCons<T22, HCons<T23, HCons<T24, HCons<T25, HCons<T26, HCons<T27, HNil>>>>>>>>>>>>>>>>>>>> as HList>::width() <= 20);
        assert(<HCons<T7, HCons<T8, HCons<T9, HCons<T10, HCons<T11, HCons<T12, HCons<T13, HCons<T14, HCons<T15, HCons<T16, HCons<T17, HCons<T18, HCons<T19, HCons<T20, HCons<T21, HCons<T22, HCons<T23, HCons<T24, HCons<T25, HCons<T26, HCons<T27, HNil>>>>>>>>>>>>>>>>>>>>> as HList>::width() <= 21);
        assert(<HCons<T6, HCons<T7, HCons<T8, HCons<T9, HCons<T10, HCons<T11, HCons<T12, HCons<T13, HCons<T14, HCons<T15, HCons<T16, HCons<T17, HCons<T18, HCons<T19, HCons<T20, HCons<T21, HCons<T22, HCons<T23, HCons<T24, HCons<T25, HCons<T26, HCons<T27, HNil>>>>>>>>>>>>>>>>>>>>>> as HList>::width() <= 22);
        assert(<HCons<T5, HCons<T6, HCons<T7, HCons<T8, HCons<T9, HCons<T10, HCons<T11, HCons<T12, HCons<T13, HCons<T14, HCons<T15, HCons<T16, HCons<T17, HCons<T18, HCons<T19, HCons<T20, HCons<T21, HCons<T22, HCons<T23, HCons<T24, HCons<T25, HCons<T26, HCons<T27, HNil>>>>>>>>>>>>>>>>>>>>>>> as HList>::width() <= 23);
        assert(<HCons<T4, HCons<T5, HCons<T6, HCons<T7, HCons<T8, HCons<T9, HCons<T10, HCons<T11, HCons<T12, HCons<T13, HCons<T14, HCons<T15, HCons<T16, HCons<T17, HCons<T18, HCons<T19, HCons<T20, HCons<T21, HCons<T22, HCons<T23, HCons<T24, HCons<T25, HCons<T26, HCons<T27, HNil>>>>>>>>>>>>>>>>>>>>>>>> as HList>::width() <= 24);
        assert(<HCons<T3, HCons<T4, HCons<T5, HCons<T6, HCons<T7, HCons<T8, HCons<T9, HCons<T10, HCons<T11, HCons<T12, HCons<T13, HCons<T14, HCons<T15, HCons<T16, HCons<T17, HCons<T18, HCons<T19, HCons<T20, HCons<T21, HCons<T22, HCons<T23, HCons<T24, HCons<T25, HCons<T26, HCons<T27, HNil>>>>>>>>>>>>>>>>>>>>>>>>> as HList>::width() <= 25);
        assert(<HCons<T2, HCons<T3, HCons<T4, HCons<T5, HCons<T6, HCons<T7, HCons<T8, HCons<T9, HCons<T10, HCons<T11, HCons<T12, HCons<T13, HCons<T14, HCons<T15, HCons<T16, HCons<T17, HCons<T18, HCons<T19, HCons<T20, HCons<T21, HCons<T22, HCons<T23, HCons<T24, HCons<T25, HCons<T26, HCons<T27, HNil>>>>>>>>>>>>>>>>>>>>>>>>>> as HList>::width() <= 26);
        assert(<HCons<T1, HCons<T2, HCons<T3, HCons<T4, HCons<T5, HCons<T6, HCons<T7, HCons<T8, HCons<T9, HCons<T10, HCons<T11, HCons<T12, HCons<T13, HCons<T14, HCons<T15, HCons<T16, HCons<T17, HCons<T18, HCons<T19, HCons<T20, HCons<T21, HCons<T22, HCons<T23, HCons<T24, HCons<T25, HCons<T26, HCons<T27, HNil>>>>>>>>>>>>>>>>>>>>>>>>>>> as HList>::width() <= 27);
        assert(<HCons<T0, HCons<T1, HCons<T2, HCons<T3, HCons<T4, HCons<T5, HCons<T6, HCons<T7, HCons<T8, HCons<T9, HCons<T10, HCons<T11, HCons<T12, HCons<T13, HCons<T14, HCons<T15, HCons<T16, HCons<T17, HCons<T18, HCons<T19, HCons<T20, HCons<T21, HCons<T22, HCons<T23, HCons<T24, HCons<T25, HCons<T26, HCons<T27, HNil>>>>>>>>>>>>>>>>>>>>>>>>>>>> as HList>::width() <= 28);
    }
}

impl<T0, T1, T2, T3, T4, T5, T6, T7, T8, T9, T10, T11, T12, T13, T14, T15, T16, T17, T18, T19, T20, T21, T22, T23, T24, T25, T26, T27, T28> ToTuple for HCons<T0, HCons<T1, HCons<T2, HCons<T3, HCons<T4, HCons<T5, HCons<T6, HCons<T7, HCons<T8, HCons<T9, HCons<T10, HCons<T11, HCons<T12, HCons<T13, HCons<T14, HCons<T15, HCons<T16, HCons<T17, HCons<T18, HCons<T19, HCons<T20, HCons<T21, HCons<T22, HCons<T23, HCons<T24, HCons<T25, HCons<T26, HCons<T27, HCons<T28, HNil>>>>>>>>>>>>>>>>>>>>>>>>>>>>> {
    type Tuple = (T0, T1, T2, T3, T4, T5, T6, T7, T8, T9, T10, T11, T12, T13, T14, T15, T16, T17, T18, T19, T20, T21, T22, T23, T24, T25, T26, T27, T28);

    open spec fn tuple(self) -> (T0, T1, T2, T3, T4, T5, T6, T7, T8, T9, T10, T11, T12, T13, T14, T15, T16, T17, T18, T19, T20, T21, T22, T23, T24, T25, T26, T27, T28) {
        (self.head, self.tail.head, self.tail.tail.head, self.tail.tail.tail.head, self.tail.tail.tail.tail.head, self.tail.tail.tail.tail.tail.head, self.tail.tail.tail.tail.tail.tail.head, self.tail.tail.tail.tail.tail.tail.tail.head, self.tail.tail.tail.tail.tail.tail.tail.tail.head, self.tail.tail.tail.tail.tail.tail.tail.tail.tail.head, self.tail.tail.tail.tail.tail.tail.tail.tail.tail.tail.head, self.tail.tail.tail.tail.tail.tail.tail.tail.tail.tail.tail.head, self.tail.tail.tail.tail.tail.tail.tail.tail.tail.tail.tail.tail.head, self.tail.tail.tail.tail.tail.tail.tail.tail.tail.tail.tail.tail.tail.head, self.tail.tail.tail.tail.tail.tail.tail.tail.tail.tail.tail.tail.tail.tail.head, self.tail.tail.tail.tail.tail.tail.tail.tail.tail.tail.tail.tail.tail.tail.tail.head, self.tail.tail.tail.tail.tail.tail.tail.tail.tail.tail.tail.tail.tail.tail.tail.tail.head, self.tail.tail.tail.tail.tail.tail.tail.tail.tail.tail.tail.tail.tail.tail.tail.tail.tail.head, self.tail.tail.tail.tail.tail.tail.tail.tail.tail.tail.tail.tail.tail.tail.tail.tail.tail.tail.head, self.tail.tail.tail.tail.tail.tail.tail.tail.tail.tail.tail.tail.tail.tail.tail.tail.tail.tail.tail.head, self.tail.tail.tail.tail.tail.tail.tail.tail.tail.tail.tail.tail.tail.tail.tail.tail.tail.tail.tail.tail.head, self.tail.tail.tail.tail.tail.tail.tail.tail.tail.tail.tail.tail.tail.tail.tail.tail.tail.tail.tail.tail.tail.head, self.tail.tail.tail.tail.tail.tail.tail.tail.tail.tail.tail.tail.tail.tail.tail.tail.tail.tail.tail.tail.tail.tail.head, self.tail.tail.tail.tail.tail.tail.tail.tail.tail.tail.tail.tail.tail.tail.tail.tail.tail.tail.tail.tail.tail.tail.tail.head, self.tail.tail.tail.tail.tail.tail.tail.tail.tail.tail.tail.tail.tail.tail.tail.tail.tail.tail.tail.tail.tail.tail.tail.tail.head, self.tail.tail.tail.tail.tail.tail.tail.tail.tail.tail.tail.tail.tail.tail.tail.tail.tail.tail.tail.tail.tail.tail.tail.tail.tail.head, self.tail.tail.tail.tail.tail.tail.tail.tail.tail.tail.tail.tail.tail.tail.tail.tail.tail.tail.tail.tail.tail.tail.tail.tail.tail.tail.head, self.tail.tail.tail.tail.tail.tail.tail.tail.tail.tail.tail.tail.tail.tail.tail.tail.tail.tail.tail.tail.tail.tail.tail.tail.tail.tail.tail.head, self.tail.tail.tail.tail.tail.tail.tail.tail.tail.tail.tail.tail.tail.tail.tail.tail.tail.tail.tail.tail.tail.tail.tail.tail.tail.tail.tail.tail.head)
    }

    fn to_tuple(self) -> (tuple: (T0, T1, T2, T3, T4, T5, T6, T7, T8, T9, T10, T11, T12, T13, T14, T15, T16, T17, T18, T19, T20, T21, T22, T23, T24, T25, T26, T27, T28)) {
        (self.head, self.tail.head, self.tail.tail.head, self.tail.tail.tail.head, self.tail.tail.tail.tail.head, self.tail.tail.tail.tail.tail.head, self.tail.tail.tail.tail.tail.tail.head, self.tail.tail.tail.tail.tail.tail.tail.head, self.tail.tail.tail.tail.tail.tail.tail.tail.head, self.tail.tail.tail.tail.tail.tail.tail.tail.tail.head, self.tail.tail.tail.tail.tail.tail.tail.tail.tail.tail.head, self.tail.tail.tail.tail.tail.tail.tail.tail.tail.tail.tail.head, self.tail.tail.tail.tail.tail.tail.tail.tail.tail.tail.tail.tail.head, self.tail.tail.tail.tail.tail.tail.tail.tail.tail.tail.tail.tail.tail.head, self.tail.tail.tail.tail.tail.tail.tail.tail.tail.tail.tail.tail.tail.tail.head, self.tail.tail.tail.tail.tail.tail.tail.tail.tail.tail.tail.tail.tail.tail.tail.head, self.tail.tail.tail.tail.tail.tail.tail.tail.tail.tail.tail.tail.tail.tail.tail.tail.head, self.tail.tail.tail.tail.tail.tail.tail.tail.tail.tail.tail.tail.tail.tail.tail.tail.tail.head, self.tail.tail.tail.tail.tail.tail.tail.tail.tail.tail.tail.tail.tail.tail.tail.tail.tail.tail.head, self.tail.tail.tail.tail.tail.tail.tail.tail.tail.tail.tail.tail.tail.tail.tail.tail.tail.tail.tail.head, self.tail.tail.tail.tail.tail.tail.tail.tail.tail.tail.tail.tail.tail.tail.tail.tail.tail.tail.tail.tail.head, self.tail.tail.tail.tail.tail.tail.tail.tail.tail.tail.tail.tail.tail.tail.tail.tail.tail.tail.tail.tail.tail.head, self.tail.tail.tail.tail.tail.tail.tail.tail.tail.tail.tail.tail.tail.tail.tail.tail.tail.tail.tail.tail.tail.tail.head, self.tail.tail.tail.tail.tail.tail.tail.tail.tail.tail.tail.tail.tail.tail.tail.tail.tail.tail.tail.tail.tail.tail.tail.head, self.tail.tail.tail.tail.tail.tail.tail.tail.tail.tail.tail.tail.tail.tail.tail.tail.tail.tail.tail.tail.tail.tail.tail.tail.head, self.tail.tail.tail.tail.tail.tail.tail.tail.tail.tail.tail.tail.tail.tail.tail.tail.tail.tail.tail.tail.tail.tail.tail.tail.tail.head, self.tail.tail.tail.tail.tail.tail.tail.tail.tail.tail.tail.tail.tail.tail.tail.tail.tail.tail.tail.tail.tail.tail.tail.tail.tail.tail.head, self.tail.tail.tail.tail.tail.tail.tail.tail.tail.tail.tail.tail.tail.tail.tail.tail.tail.tail.tail.tail.tail.tail.tail.tail.tail.tail.tail.head, self.tail.tail.tail.tail.tail.tail.tail.tail.tail.tail.tail.tail.tail.tail.tail.tail.tail.tail.tail.tail.tail.tail.tail.tail.tail.tail.tail.tail.head)
    }

    proof fn lemma_arity() {
        assert(<HNil as HList>::width() == 0);
        assert(<HCons<T28, HNil> as HList>::width() <= 1);
        assert(<HCons<T27, HCons<T28, HNil>> as HList>::width() <= 2);
        assert(<HCons<T26, HCons<T27, HCons<T28, HNil>>> as HList>::width() <= 3);
        assert(<HCons<T25, HCons<T26, HCons<T27, HCons<T28, HNil>>>> as HList>::width() <= 4);
        assert(<HCons<T24, HCons<T25, HCons<T26, HCons<T27, HCons<T28, HNil>>>>> as HList>::width() <= 5);
        assert(<HCons<T23, HCons<T24, HCons<T25, HCons<T26, HCons<T27, HCons<T28, HNil>>>>>> as HList>::width() <= 6);
        assert(<HCons<T22, HCons<T23, HCons<T24, HCons<T25, HCons<T26, HCons<T27, HCons<T28, HNil>>>>>>> as HList>::width() <= 7);
        assert(<HCons<T21, HCons<T22, HCons<T23, HCons<T24, HCons<T25, HCons<T26, HCons<T27, HCons<T28, HNil>>>>>>>> as HList>::width() <= 8);
        assert(<HCons<T20, HCons<T21, HCons<T22, HCons<T23, HCons<T24, HCons<T25, HCons<T26, HCons<T27, HCons<T28, HNil>>>>>>>>> as HList>::width() <= 9);
        assert(<HCons<T19, HCons<T20, HCons<T21, HCons<T22, HCons<T23, HCons<T24, HCons<T25, HCons<T26, HCons<T27, HCons<T28, HNil>>>>>>>>>> as HList>::width() <= 10);
        assert(<HCons<T18, HCons<T19, HCons<T20, HCons<T21, HCons<T22, HCons<T23, HCons<T24, HCons<T25, HCons<T26, HCons<T27, HCons<T28, HNil>>>>>>>>>>> as HList>::width() <= 11);
        assert(<HCons<T17, HCons<T18, HCons<T19, HCons<T20, HCons<T21, HCons<T22, HCons<T23, HCons<T24, HCons<T25, HCons<T26, HCons<T27, HCons<T28, HNil>>>>>>>>>>>> as HList>::width() <= 12);
        assert(<HCons<T16, HCons<T17, HCons<T18, HCons<T19, HCons<T20, HCons<T21, HCons<T22, HCons<T23, HCons<T24, HCons<T25, HCons<T26, HCons<T27, HCons<T28, HNil>>>>>>>>>>>>> as HList>::width() <= 13);
        assert(<HCons<T15, HCons<T16, HCons<T17, HCons<T18, HCons<T19, HCons<T20, HCons<T21, HCons<T22, HCons<T23, HCons<T24, HCons<T25, HCons<T26, HCons<T27, HCons<T28, HNil>>>>>>>>>>>>>> as HList>::width() <= 14);
        assert(<HCons<T14, HCons<T15, HCons<T16, HCons<T17, HCons<T18, HCons<T19, HCons<T20, HCons<T21, HCons<T22, HCons<T23, HCons<T24, HCons<T25, HCons<T26, HCons<T27, HCons<T28, HNil>>>>>>>>>>>>>>> as HList>::width() <= 15);
        assert(<HCons<T13, HCons<T14, HCons<T15, HCons<T16, HCons<T17, HCons<T18, HCons<T19, HCons<T20, HCons<T21, HCons<T22, HCons<T23, HCons<T24, HCons<T25, HCons<T26, HCons<T27, HCons<T28, HNil>>>>>>>>>>>>>>>> as HList>::width() <= 16);
        assert(<HCons<T12, HCons<T13, HCons<T14, HCons<T15, HCons<T16, HCons<T17, HCons<T18, HCons<T19, HCons<T20, HCons<T21, HCons<T22, HCons<T23, HCons<T24, HCons<T25, HCons<T26, HCons<T27, HCons<T28, HNil>>>>>>>>>>>>>>>>> as HList>::width() <= 17);
        assert(<HCons<T11, HCons<T12, HCons<T13, HCons<T14, HCons<T15, HCons<T16, HCons<T17, HCons<T18, HCons<T19, HCons<T20, HCons<T21, HCons<T22, HCons<T23, HCons<T24, HCons<T25, HCons<T26, HCons<T27, HCons<T28, HNil>>>>>>>>>>>>>>>>>> as HList>::width() <= 18);
        assert(<HCons<T10, HCons<T11, HCons<T12, HCons<T13, HCons<T14, HCons<T15, HCons<T16, HCons<T17, HCons<T18, HCons<T19, HCons<T20, HCons<T21, HCons<T22, HCons<T23, HCons<T24, HCons<T25, HCons<T26, HCons<T27, HCons<T28, HNil>>>>>>>>>>>>>>>>>>> as HList>::width() <= 19);
        assert(<HCons<T9, HCons<T10, HCons<T11, HCons<T12, HCons<T13, HCons<T14, HCons<T15, HCons<T16, HCons<T17, HCons<T18, HCons<T19, HCons<T20, HCons<T21, HCons<T22, HCons<T23, HCons<T24, HCons<T25, HCons<T26, HCons<T27, HCons<T28, HNil>>>>>>>>>>>>>>>>>>>> as HList>::width() <= 20);
        assert(<HCons<T8, HCons<T9, HCons<T10, HCons<T11, HCons<T12, HCons<T13, HCons<T14, HCons<T15, HCons<T16, HCons<T17, HCons<T18, HCons<T19, HCons<T20, HCons<T21, HCons<T22, HCons<T23, HCons<T24, HCons<T25, HCons<T26, HCons<T27, HCons<T28, HNil>>>>>>>>>>>>>>>>>>>>> as HList>::width() <= 21);
        assert(<HCons<T7, HCons<T8, HCons<T9, HCons<T10, HCons<T11, HCons<T12, HCons<T13, HCons<T14, HCons<T15, HCons<T16, HCons<T17, HCons<T18, HCons<T19, HCons<T20, HCons<T21, HCons<T22, HCons<T23, HCons<T24, HCons<T25, HCons<T26, HCons<T27, HCons<T28, HNil>>>>>>>>>>>>>>>>>>>>>> as HList>::width() <= 22);
        assert(<HCons<T6, HCons<T7, HCons<T8, HCons<T9, HCons<T10, HCons<T11, HCons<T12, HCons<T13, HCons<T14, HCons<T15, HCons<T16, HCons<T17, HCons<T18, HCons<T19, HCons<T20, HCons<T21, HCons<T22, HCons<T23, HCons<T24, HCons<T25, HCons<T26, HCons<T27, HCons<T28, HNil>>>>>>>>>>>>>>>>>>>>>>> as HList>::width() <= 23);
        assert(<HCons<T5, HCons<T6, HCons<T7, HCons<T8, HCons<T9, HCons<T10, HCons<T11, HCons<T12, HCons<T13, HCons<T14, HCons<T15, HCons<T16, HCons<T17, HCons<T18, HCons<T19, HCons<T20, HCons<T21, HCons<T22, HCons<T23, HCons<T24, HCons<T25, HCons<T26, HCons<T27, HCons<T28, HNil>>>>>>>>>>>>>>>>>>>>>>>> as HList>::width() <= 24);
        assert(<HCons<T4, HCons<T5, HCons<T6, HCons<T7, HCons<T8, HCons<T9, HCons<T10, HCons<T11, HCons<T12, HCons<T13, HCons<T14, HCons<T15, HCons<T16, HCons<T17, HCons<T18, HCons<T19, HCons<T20, HCons<T21, HCons<T22, HCons<T23, HCons<T24, HCons<T25, HCons<T26, HCons<T27, HCons<T28, HNil>>>>>>>>>>>>>>>>>>>>>>>>> as HList>::width() <= 25);
        assert(<HCons<T3, HCons<T4, HCons<T5, HCons<T6, HCons<T7, HCons<T8, HCons<T9, HCons<T10, HCons<T11, HCons<T12, HCons<T13, HCons<T14, HCons<T15, HCons<T16, HCons<T17, HCons<T18, HCons<T19, HCons<T20, HCons<T21, HCons<T22, HCons<T23, HCons<T24, HCons<T25, HCons<T26, HCons<T27, HCons<T28, HNil>>>>>>>>>>>>>>>>>>>>>>>>>> as HList>::width() <= 26);
        assert(<HCons<T2, HCons<T3, HCons<T4, HCons<T5, HCons<T6, HCons<T7, HCons<T8, HCons<T9, HCons<T10, HCons<T11, HCons<T12, HCons<T13, HCons<T14, HCons<T15, HCons<T16, HCons<T17, HCons<T18, HCons<T19, HCons<T20, HCons<T21, HCons<T22, HCons<T23, HCons<T24, HCons<T25, HCons<T26, HCons<T27, HCons<T28, HNil>>>>>>>>>>>>>>>>>>>>>>>>>>> as HList>::width() <= 27);
        assert(<HCons<T1, HCons<T2, HCons<T3, HCons<T4, HCons<T5, HCons<T6, HCons<T7, HCons<T8, HCons<T9, HCons<T10, HCons<T11, HCons<T12, HCons<T13, HCons<T14, HCons<T15, HCons<T16, HCons<T17, HCons<T18, HCons<T19, HCons<T20, HCons<T21, HCons<T22, HCons<T23, HCons<T24, HCons<T25, HCons<T26, HCons<T27, HCons<T28, HNil>>>>>>>>>>>>>>>>>>>>>>>>>>>> as HList>::width() <= 28);
        assert(<HCons<T0, HCons<T1, HCons<T2, HCons<T3, HCons<T4, HCons<T5, HCons<T6, HCons<T7, HCons<T8, HCons<T9, HCons<T10, HCons<T11, HCons<T12, HCons<T13, HCons<T14, HCons<T15, HCons<T16, HCons<T17, HCons<T18, HCons<T19, HCons<T20, HCons<T21, HCons<T22, HCons<T23, HCons<T24, HCons<T25, HCons<T26, HCons<T27, HCons<T28, HNil>>>>>>>>>>>>>>>>>>>>>>>>>>>>> as HList>::width() <= 29);
    }
}

impl<T0, T1, T2, T3, T4, T5, T6, T7, T8, T9, T10, T11, T12, T13, T14, T15, T16, T17, T18, T19, T20, T21, T22, T23, T24, T25, T26, T27, T28, T29> ToTuple for HCons<T0, HCons<T1, HCons<T2, HCons<T3, HCons<T4, HCons<T5, HCons<T6, HCons<T7, HCons<T8, HCons<T9, HCons<T10, HCons<T11, HCons<T12, HCons<T13, HCons<T14, HCons<T15, HCons<T16, HCons<T17, HCons<T18, HCons<T19, HCons<T20, HCons<T21, HCons<T22, HCons<T23, HCons<T24, HCons<T25, HCons<T26, HCons<T27, HCons<T28, HCons<T29, HNil>>>>>>>>>>>>>>>>>>>>>>>>>>>>>> {
    type Tuple = (T0, T1, T2, T3, T4, T5, T6, T7, T8, T9, T10, T11, T12, T13, T14, T15, T16, T17, T18, T19, T20, T21, T22, T23, T24, T25, T26, T27, T28, T29);

    open spec fn tuple(self) -> (T0, T1, T2, T3, T4, T5, T6, T7, T8, T9, T10, T11, T12, T13, T14, T15, T16, T17, T18, T19, T20, T21, T22, T23, T24, T25, T26, T27, T28, T29) {
        (self.head, self.tail.head, self.tail.tail.head, self.tail.tail.tail.head, self.tail.tail.tail.tail.head, self.tail.tail.tail.tail.tail.head, self.tail.tail.tail.tail.tail.tail.head, self.tail.tail.tail.tail.tail.tail.tail.head, self.tail.tail.tail.tail.tail.tail.tail.tail.head, self.tail.tail.tail.tail.tail.tail.tail.tail.tail.head, self.tail.tail.tail.tail.tail.tail.tail.tail.tail.tail.head, self.tail.tail.tail.tail.tail.tail.tail.tail.tail.tail.tail.head, self.tail.tail.tail.tail.tail.tail.tail.tail.tail.tail.tail.tail.head, self.tail.tail.tail.tail.tail.tail.tail.tail.tail.tail.tail.tail.tail.head, self.tail.tail.tail.tail.tail.tail.tail.tail.tail.tail.tail.tail.tail.tail.head, self.tail.tail.tail.tail.tail.tail.tail.tail.tail.tail.tail.tail.tail.tail.tail.head, self.tail.tail.tail.tail.tail.tail.tail.tail.tail.tail.tail.tail.tail.tail.tail.tail.head, self.tail.tail.tail.tail.tail.tail.tail.tail.tail.tail.tail.tail.tail.tail.tail.tail.tail.head, self.tail.tail.tail.tail.tail.tail.tail.tail.tail.tail.tail.tail.tail.tail.tail.tail.tail.tail.head, self.tail.tail.tail.tail.tail.tail.tail.tail.tail.tail.tail.tail.tail.tail.tail.tail.tail.tail.tail.head, self.tail.tail.tail.tail.tail.tail.tail.tail.tail.tail.tail.tail.tail.tail.tail.tail.tail.tail.tail.tail.head, self.tail.tail.tail.tail.tail.tail.tail.tail.tail.tail.tail.tail.tail.tail.tail.tail.tail.tail.tail.tail.tail.head, self.tail.tail.tail.tail.tail.tail.tail.tail.tail.tail.tail.tail.tail.tail.tail.tail.tail.tail.tail.tail.tail.tail.head, self.tail.tail.tail.tail.tail.tail.tail.tail.tail.tail.tail.tail.tail.tail.tail.tail.tail.tail.tail.tail.tail.tail.tail.head, self.tail.tail.tail.tail.tail.tail.tail.tail.tail.tail.tail.tail.tail.tail.tail.tail.tail.tail.tail.tail.tail.tail.tail.tail.head, self.tail.tail.tail.tail.tail.tail.tail.tail.tail.tail.tail.tail.tail.tail.tail.tail.tail.tail.tail.tail.tail.tail.tail.tail.tail.head, self.tail.tail.tail.tail.tail.tail.tail.tail.tail.tail.tail.tail.tail.tail.tail.tail.tail.tail.tail.tail.tail.tail.tail.tail.tail.tail.head, self.tail.tail.tail.tail.tail.tail.tail.tail.tail.tail.tail.tail.tail.tail.tail.tail.tail.tail.tail.tail.tail.tail.tail.tail.tail.tail.tail.head, self.tail.tail.tail.tail.tail.tail.tail.tail.tail.tail.tail.tail.tail.tail.tail.tail.tail.tail.tail.tail.tail.tail.tail.tail.tail.tail.tail.tail.head, self.tail.tail.tail.tail.tail.tail.tail.tail.tail.tail.tail.tail.tail.tail.tail.tail.tail.tail.tail.tail.tail.tail.tail.tail.tail.tail.tail.tail.tail.head)
    }

    fn to_tuple(self) -> (tuple: (T0, T1, T2, T3, T4, T5, T6, T7, T8, T9, T10, T11, T12, T13, T14, T15, T16, T17, T18, T19, T20, T21, T22, T23, T24, T25, T26, T27, T28, T29)) {
        (self.head, self.tail.head, self.tail.tail.head, self.tail.tail.tail.head, self.tail.tail.tail.tail.head, self.tail.tail.tail.tail.tail.head, self.tail.tail.tail.tail.tail.tail.head, self.tail.tail.tail.tail.tail.tail.tail.head, self.tail.tail.tail.tail.tail.tail.tail.tail.head, self.tail.tail.tail.tail.tail.tail.tail.tail.tail.head, self.tail.tail.tail.tail.tail.tail.tail.tail.tail.tail.head, self.tail.tail.tail.tail.tail.tail.tail.tail.tail.tail.tail.head, self.tail.tail.tail.tail.tail.tail.tail.tail.tail.tail.tail.tail.head, self.tail.tail.tail.tail.tail.tail.tail.tail.tail.tail.tail.tail.tail.head, self.tail.tail.tail.tail.tail.tail.tail.tail.tail.tail.tail.tail.tail.tail.head, self.tail.tail.tail.tail.tail.tail.tail.tail.tail.tail.tail.tail.tail.tail.tail.head, self.tail.tail.tail.tail.tail.tail.tail.tail.tail.tail.tail.tail.tail.tail.tail.tail.head, self.tail.tail.tail.tail.tail.tail.tail.tail.tail.tail.tail.tail.tail.tail.tail.tail.tail.head, self.tail.tail.tail.tail.tail.tail.tail.tail.tail.tail.tail.tail.tail.tail.tail.tail.tail.tail.head, self.tail.tail.tail.tail.tail.tail.tail.tail.tail.tail.tail.tail.tail.tail.tail.tail.tail.tail.tail.head, self.tail.tail.tail.tail.tail.tail.tail.tail.tail.tail.tail.tail.tail.tail.tail.tail.tail.tail.tail.tail.head, self.tail.tail.tail.tail.tail.tail.tail.tail.tail.tail.tail.tail.tail.tail.tail.tail.tail.tail.tail.tail.tail.head, self.tail.tail.tail.tail.tail.tail.tail.tail.tail.tail.tail.tail.tail.tail.tail.tail.tail.tail.tail.tail.tail.tail.head, self.tail.tail.tail.tail.tail.tail.tail.tail.tail.tail.tail.tail.tail.tail.tail.tail.tail.tail.tail.tail.tail.tail.tail.head, self.tail.tail.tail.tail.tail.tail.tail.tail.tail.tail.tail.tail.tail.tail.tail.tail.tail.tail.tail.tail.tail.tail.tail.tail.head, self.tail.tail.tail.tail.tail.tail.tail.tail.tail.tail.tail.tail.tail.tail.tail.tail.tail.tail.tail.tail.tail.tail.tail.tail.tail.head, self.tail.tail.tail.tail.tail.tail.tail.tail.tail.tail.tail.tail.tail.tail.tail.tail.tail.tail.tail.tail.tail.tail.tail.tail.tail.tail.head, self.tail.tail.tail.tail.tail.tail.tail.tail.tail.tail.tail.tail.tail.tail.tail.tail.tail.tail.tail.tail.tail.tail.tail.tail.tail.tail.tail.head, self.tail.tail.tail.tail.tail.tail.tail.tail.tail.tail.tail.tail.tail.tail.tail.tail.tail.tail.tail.tail.tail.tail.tail.tail.tail.tail.tail.tail.head, self.tail.tail.tail.tail.tail.tail.tail.tail.tail.tail.tail.tail.tail.tail.tail.tail.tail.tail.tail.tail.tail.tail.tail.tail.tail.tail.tail.tail.tail.head)
    }

    proof fn lemma_arity() {
        assert(<HNil as HList>::width() == 0);
        assert(<HCons<T29, HNil> as HList>::width() <= 1);
        assert(<HCons<T28, HCons<T29, HNil>> as HList>::width() <= 2);
        assert(<HCons<T27, HCons<T28, HCons<T29, HNil>>> as HList>::width() <= 3);
        assert(<HCons<T26, HCons<T27, HCons<T28, HCons<T29, HNil>>>> as HList>::width() <= 4);
        assert(<HCons<T25, HCons<T26, HCons<T27, HCons<T28, HCons<T29, HNil>>>>> as HList>::width() <= 5);
        assert(<HCons<T24, HCons<T25, HCons<T26, HCons<T27, HCons<T28, HCons<T29, HNil>>>>>> as HList>::width() <= 6);
        assert(<HCons<T23, HCons<T24, HCons<T25, HCons<T26, HCons<T27, HCons<T28, HCons<T29, HNil>>>>>>> as HList>::width() <= 7);
        assert(<HCons<T22, HCons<T23, HCons<T24, HCons<T25, HCons<T26, HCons<T27, HCons<T28, HCons<T29, HNil>>>>>>>> as HList>::width() <= 8);
        assert(<HCons<T21, HCons<T22, HCons<T23, HCons<T24, HCons<T25, HCons<T26, HCons<T27, HCons<T28, HCons<T29, HNil>>>>>>>>> as HList>::width() <= 9);
        assert(<HCons<T20, HCons<T21, HCons<T22, HCons<T23, HCons<T24, HCons<T25, HCons<T26, HCons<T27, HCons<T28, HCons<T29, HNil>>>>>>>>>> as HList>::width() <= 10);
        assert(<HCons<T19, HCons<T20, HCons<T21, HCons<T22, HCons<T23, HCons<T24, HCons<T25, HCons<T26, HCons<T27, HCons<T28, HCons<T29, HNil>>>>>>>>>>> as HList>::width() <= 11);
        assert(<HCons<T18, HCons<T19, HCons<T20, HCons<T21, HCons<T22, HCons<T23, HCons<T24, HCons<T25, HCons<T26, HCons<T27, HCons<T28, HCons<T29, HNil>>>>>>>>>>>> as HList>::width() <= 12);
        assert(<HCons<T17, HCons<T18, HCons<T19, HCons<T20, HCons<T21, HCons<T22, HCons<T23, HCons<T24, HCons<T25, HCons<T26, HCons<T27, HCons<T28, HCons<T29, HNil>>>>>>>>>>>>> as HList>::width() <= 13);
        assert(<HCons<T16, HCons<T17, HCons<T18, HCons<T19, HCons<T20, HCons<T21, HCons<T22, HCons<T23, HCons<T24, HCons<T25, HCons<T26, HCons<T27, HCons<T28, HCons<T29, HNil>>>>>>>>>>>>>> as HList>::width() <= 14);
        assert(<HCons<T15, HCons<T16, HCons<T17, HCons<T18, HCons<T19, HCons<T20, HCons<T21, HCons<T22, HCons<T23, HCons<T24, HCons<T25, HCons<T26, HCons<T27, HCons<T28, HCons<T29, HNil>>>>>>>>>>>>>>> as HList>::width() <= 15);
        assert(<HCons<T14, HCons<T15, HCons<T16, HCons<T17, HCons<T18, HCons<T19, HCons<T20, HCons<T21, HCons<T22, HCons<T23, HCons<T24, HCons<T25, HCons<T26, HCons<T27, HCons<T28, HCons<T29, HNil>>>>>>>>>>>>>>>> as HList>::width() <= 16);
        assert(<HCons<T13, HCons<T14, HCons<T15, HCons<T16, HCons<T17, HCons<T18, HCons<T19, HCons<T20, HCons<T21, HCons<T22, HCons<T23, HCons<T24, HCons<T25, HCons<T26, HCons<T27, HCons<T28, HCons<T29, HNil>>>>>>>>>>>>>>>>> as HList>::width() <= 17);
        assert(<HCons<T12, HCons<T13, HCons<T14, HCons<T15, HCons<T16, HCons<T17, HCons<T18, HCons<T19, HCons<T20, HCons<T21, HCons<T22, HCons<T23, HCons<T24, HCons<T25, HCons<T26, HCons<T27, HCons<T28, HCons<T29, HNil>>>>>>>>>>>>>>>>>> as HList>::width() <= 18);
        assert(<HCons<T11, HCons<T12, HCons<T13, HCons<T14, HCons<T15, HCons<T16, HCons<T17, HCons<T18, HCons<T19, HCons<T20, HCons<T21, HCons<T22, HCons<T23, HCons<T24, HCons<T25, HCons<T26, HCons<T27, HCons<T28, HCons<T29, HNil>>>>>>>>>>>>>>>>>>> as HList>::width() <= 19);
        assert(<HCons<T10, HCons<T11, HCons<T12, HCons<T13, HCons<T14, HCons<T15, HCons<T16, HCons<T17, HCons<T18, HCons<T19, HCons<T20, HCons<T21, HCons<T22, HCons<T23, HCons<T24, HCons<T25, HCons<T26, HCons<T27, HCons<T28, HCons<T29, HNil>>>>>>>>>>>>>>>>>>>> as HList>::width() <= 20);
        assert(<HCons<T9, HCons<T10, HCons<T11, HCons<T12, HCons<T13, HCons<T14, HCons<T15, HCons<T16, HCons<T17, HCons<T18, HCons<T19, HCons<T20, HCons<T21, HCons<T22, HCons<T23, HCons<T24, HCons<T25, HCons<T26, HCons<T27, HCons<T28, HCons<T29, HNil>>>>>>>>>>>>>>>>>>>>> as HList>::width() <= 21);
        assert(<HCons<T8, HCons<T9, HCons<T10, HCons<T11, HCons<T12, HCons<T13, HCons<T14, HCons<T15, HCons<T16, HCons<T17, HCons<T18, HCons<T19, HCons<T20, HCons<T21, HCons<T22, HCons<T23, HCons<T24, HCons<T25, HCons<T26, HCons<T27, HCons<T28, HCons<T29, HNil>>>>>>>>>>>>>>>>>>>>>> as HList>::width() <= 22);
        assert(<HCons<T7, HCons<T8, HCons<T9, HCons<T10, HCons<T11, HCons<T12, HCons<T13, HCons<T14, HCons<T15, HCons<T16, HCons<T17, HCons<T18, HCons<T19, HCons<T20, HCons<T21, HCons<T22, HCons<T23, HCons<T24, HCons<T25, HCons<T26, HCons<T27, HCons<T28, HCons<T29, HNil>>>>>>>>>>>>>>>>>>>>>>> as HList>::width() <= 23);
        assert(<HCons<T6, HCons<T7, HCons<T8, HCons<T9, HCons<T10, HCons<T11, HCons<T12, HCons<T13, HCons<T14, HCons<T15, HCons<T16, HCons<T17, HCons<T18, HCons<T19, HCons<T20, HCons<T21, HCons<T22, HCons<T23, HCons<T24, HCons<T25, HCons<T26, HCons<T27, HCons<T28, HCons<T29, HNil>>>>>>>>>>>>>>>>>>>>>>>> as HList>::width() <= 24);
        assert(<HCons<T5, HCons<T6, HCons<T7, HCons<T8, HCons<T9, HCons<T10, HCons<T11, HCons<T12, HCons<T13, HCons<T14, HCons<T15, HCons<T16, HCons<T17, HCons<T18, HCons<T19, HCons<T20, HCons<T21, HCons<T22, HCons<T23, HCons<T24, HCons<T25, HCons<T26, HCons<T27, HCons<T28, HCons<T29, HNil>>>>>>>>>>>>>>>>>>>>>>>>> as HList>::width() <= 25);
        assert(<HCons<T4, HCons<T5, HCons<T6, HCons<T7, HCons<T8, HCons<T9, HCons<T10, HCons<T11, HCons<T12, HCons<T13, HCons<T14, HCons<T15, HCons<T16, HCons<T17, HCons<T18, HCons<T19, HCons<T20, HCons<T21, HCons<T22, HCons<T23, HCons<T24, HCons<T25, HCons<T26, HCons<T27, HCons<T28, HCons<T29, HNil>>>>>>>>>>>>>>>>>>>>>>>>>> as HList>::width() <= 26);
        assert(<HCons<T3, HCons<T4, HCons<T5, HCons<T6, HCons<T7, HCons<T8, HCons<T9, HCons<T10, HCons<T11, HCons<T12, HCons<T13, HCons<T14, HCons<T15, HCons<T16, HCons<T17, HCons<T18, HCons<T19, HCons<T20, HCons<T21, HCons<T22, HCons<T23, HCons<T24, HCons<T25, HCons<T26, HCons<T27, HCons<T28, HCons<T29, HNil>>>>>>>>>>>>>>>>>>>>>>>>>>> as HList>::width() <= 27);
        assert(<HCons<T2, HCons<T3, HCons<T4, HCons<T5, HCons<T6, HCons<T7, HCons<T8, HCons<T9, HCons<T10, HCons<T11, HCons<T12, HCons<T13, HCons<T14, HCons<T15, HCons<T16, HCons<T17, HCons<T18, HCons<T19, HCons<T20, HCons<T21, HCons<T22, HCons<T23, HCons<T24, HCons<T25, HCons<T26, HCons<T27, HCons<T28, HCons<T29, HNil>>>>>>>>>>>>>>>>>>>>>>>>>>>> as HList>::width() <= 28);
        assert(<HCons<T1, HCons<T2, HCons<T3, HCons<T4, HCons<T5, HCons<T6, HCons<T7, HCons<T8, HCons<T9, HCons<T10, HCons<T11, HCons<T12, HCons<T13, HCons<T14, HCons<T15, HCons<T16, HCons<T17, HCons<T18, HCons<T19, HCons<T20, HCons<T21, HCons<T22, HCons<T23, HCons<T24, HCons<T25, HCons<T26, HCons<T27, HCons<T28, HCons<T29, HNil>>>>>>>>>>>>>>>>>>>>>>>>>>>>> as HList>::width() <= 29);
        assert(<HCons<T0, HCons<T1, HCons<T2, HCons<T3, HCons<T4, HCons<T5, HCons<T6, HCons<T7, HCons<T8, HCons<T9, HCons<T10, HCons<T11, HCons<T12, HCons<T13, HCons<T14, HCons<T15, HCons<T16, HCons<T17, HCons<T18, HCons<T19, HCons<T20, HCons<T21, HCons<T22, HCons<T23, HCons<T24, HCons<T25, HCons<T26, HCons<T27, HCons<T28, HCons<T29, HNil>>>>>>>>>>>>>>>>>>>>>>>>>>>>>> as HList>::width() <= 30);
    }
}

impl<T0, T1, T2, T3, T4, T5, T6, T7, T8, T9, T10, T11, T12, T13, T14, T15, T16, T17, T18, T19, T20, T21, T22, T23, T24, T25, T26, T27, T28, T29, T30> ToTuple for HCons<T0, HCons<T1, HCons<T2, HCons<T3, HCons<T4, HCons<T5, HCons<T6, HCons<T7, HCons<T8, HCons<T9, HCons<T10, HCons<T11, HCons<T12, HCons<T13, HCons<T14, HCons<T15, HCons<T16, HCons<T17, HCons<T18, HCons<T19, HCons<T20, HCons<T21, HCons<T22, HCons<T23, HCons<T24, HCons<T25, HCons<T26, HCons<T27, HCons<T28, HCons<T29, HCons<T30, HNil>>>>>>>>>>>>>>>>>>>>>>>>>>>>>>> {
    type Tuple = (T0, T1, T2, T3, T4, T5, T6, T7, T8, T9, T10, T11, T12, T13, T14, T15, T16, T17, T18, T19, T20, T21, T22, T23, T24, T25, T26, T27, T28, T29, T30);

    open spec fn tuple(self) -> (T0, T1, T2, T3, T4, T5, T6, T7, T8, T9, T10, T11, T12, T13, T14, T15, T16, T17, T18, T19, T20, T21, T22, T23, T24, T25, T26, T27, T28, T29, T30) {
        (self.head, self.tail.head, self.tail.tail.head, self.tail.tail.tail.head, self.tail.tail.tail.tail.head, self.tail.tail.tail.tail.tail.head, self.tail.tail.tail.tail.tail.tail.head, self.tail.tail.tail.tail.tail.tail.tail.head, self.tail.tail.tail.tail.tail.tail.tail.tail.head, self.tail.tail.tail.tail.tail.tail.tail.tail.tail.head, self.tail.tail.tail.tail.tail.tail.tail.tail.tail.tail.head, self.tail.tail.tail.tail.tail.tail.tail.tail.tail.tail.tail.head, self.tail.tail.tail.tail.tail.tail.tail.tail.tail.tail.tail.tail.head, self.tail.tail.tail.tail.tail.tail.tail.tail.tail.tail.tail.tail.tail.head, self.tail.tail.tail.tail.tail.tail.tail.tail.tail.tail.tail.tail.tail.tail.head, self.tail.tail.tail.tail.tail.tail.tail.tail.tail.tail.tail.tail.tail.tail.tail.head, self.tail.tail.tail.tail.tail.tail.tail.tail.tail.tail.tail.tail.tail.tail.tail.tail.head, self.tail.tail.tail.tail.tail.tail.tail.tail.tail.tail.tail.tail.tail.tail.tail.tail.tail.head, self.tail.tail.tail.tail.tail.tail.tail.tail.tail.tail.tail.tail.tail.tail.tail.tail.tail.tail.head, self.tail.tail.tail.tail.tail.tail.tail.tail.tail.tail.tail.tail.tail.tail.tail.tail.tail.tail.tail.head, self.tail.tail.tail.tail.tail.tail.tail.tail.tail.tail.tail.tail.tail.tail.tail.tail.tail.tail.tail.tail.head, self.tail.tail.tail.tail.tail.tail.tail.tail.tail.tail.tail.tail.tail.tail.tail.tail.tail.tail.tail.tail.tail.head, self.tail.tail.tail.tail.tail.tail.tail.tail.tail.tail.tail.tail.tail.tail.tail.tail.tail.tail.tail.tail.tail.tail.head, self.tail.tail.tail.tail.tail.tail.tail.tail.tail.tail.tail.tail.tail.tail.tail.tail.tail.tail.tail.tail.tail.tail.tail.head, self.tail.tail.tail.tail.tail.tail.tail.tail.tail.tail.tail.tail.tail.tail.tail.tail.tail.tail.tail.tail.tail.tail.tail.tail.head, self.tail.tail.tail.tail.tail.tail.tail.tail.tail.tail.tail.tail.tail.tail.tail.tail.tail.tail.tail.tail.tail.tail.tail.tail.tail.head, self.tail.tail.tail.tail.tail.tail.tail.tail.tail.tail.tail.tail.tail.tail.tail.tail.tail.tail.tail.tail.tail.tail.tail.tail.tail.tail.head, self.tail.tail.tail.tail.tail.tail.tail.tail.tail.tail.tail.tail.tail.tail.tail.tail.tail.tail.tail.tail.tail.tail.tail.tail.tail.tail.tail.head, self.tail.tail.tail.tail.tail.tail.tail.tail.tail.tail.tail.tail.tail.tail.tail.tail.tail.tail.tail.tail.tail.tail.tail.tail.tail.tail.tail.tail.head, self.tail.tail.tail.tail.tail.tail.tail.tail.tail.tail.tail.tail.tail.tail.tail.tail.tail.tail.tail.tail.tail.tail.tail.tail.tail.tail.tail.tail.tail.head, self.tail.tail.tail.tail.tail.tail.tail.tail.tail.tail.tail.tail.tail.tail.tail.tail.tail.tail.tail.tail.tail.tail.tail.tail.tail.tail.tail.tail.tail.tail.head)
    }

    fn to_tuple(self) -> (tuple: (T0, T1, T2, T3, T4, T5, T6, T7, T8, T9, T10, T11, T12, T13, T14, T15, T16, T17, T18, T19, T20, T21, T22, T23, T24, T25, T26, T27, T28, T29, T30)) {
        (self.head, self.tail.head, self.tail.tail.head, self.tail.tail.tail.head, self.tail.tail.tail.tail.head, self.tail.tail.tail.tail.tail.head, self.tail.tail.tail.tail.tail.tail.head, self.tail.tail.tail.tail.tail.tail.tail.head, self.tail.tail.tail.tail.tail.tail.tail.tail.head, self.tail.tail.tail.tail.tail.tail.tail.tail.tail.head, self.tail.tail.tail.tail.tail.tail.tail.tail.tail.tail.head, self.tail.tail.tail.tail.tail.tail.tail.tail.tail.tail.tail.head, self.tail.tail.tail.tail.tail.tail.tail.tail.tail.tail.tail.tail.head, self.tail.tail.tail.tail.tail.tail.tail.tail.tail.tail.tail.tail.tail.head, self.tail.tail.tail.tail.tail.tail.tail.tail.tail.tail.tail.tail.tail.tail.head, self.tail.tail.tail.tail.tail.tail.tail.tail.tail.tail.tail.tail.tail.tail.tail.head, self.tail.tail.tail.tail.tail.tail.tail.tail.tail.tail.tail.tail.tail.tail.tail.tail.head, self.tail.tail.tail.tail.tail.tail.tail.tail.tail.tail.tail.tail.tail.tail.tail.tail.tail.head, self.tail.tail.tail.tail.tail.tail.tail.tail.tail.tail.tail.tail.tail.tail.tail.tail.tail.tail.head, self.tail.tail.tail.tail.tail.tail.tail.tail.tail.tail.tail.tail.tail.tail.tail.tail.tail.tail.tail.head, self.tail.tail.tail.tail.tail.tail.tail.tail.tail.tail.tail.tail.tail.tail.tail.tail.tail.tail.tail.tail.head, self.tail.tail.tail.tail.tail.tail.tail.tail.tail.tail.tail.tail.tail.tail.tail.tail.tail.tail.tail.tail.tail.head, self.tail.tail.tail.tail.tail.tail.tail.tail.tail.tail.tail.tail.tail.tail.tail.tail.tail.tail.tail.tail.tail.tail.head, self.tail.tail.tail.tail.tail.tail.tail.tail.tail.tail.tail.tail.tail.tail.tail.tail.tail.tail.tail.tail.tail.tail.tail.head, self.tail.tail.tail.tail.tail.tail.tail.tail.tail.tail.tail.tail.tail.tail.tail.tail.tail.tail.tail.tail.tail.tail.tail.tail.head, self.tail.tail.tail.tail.tail.tail.tail.tail.tail.tail.tail.tail.tail.tail.tail.tail.tail.tail.tail.tail.tail.tail.tail.tail.tail.head, self.tail.tail.tail.tail.tail.tail.tail.tail.tail.tail.tail.tail.tail.tail.tail.tail.tail.tail.tail.tail.tail.tail.tail.tail.tail.tail.head, self.tail.tail.tail.tail.tail.tail.tail.tail.tail.tail.tail.tail.tail.tail.tail.tail.tail.tail.tail.tail.tail.tail.tail.tail.tail.tail.tail.head, self.tail.tail.tail.tail.tail.tail.tail.tail.tail.tail.tail.tail.tail.tail.tail.tail.tail.tail.tail.tail.tail.tail.tail.tail.tail.tail.tail.tail.head, self.tail.tail.tail.tail.tail.tail.tail.tail.tail.tail.tail.tail.tail.tail.tail.tail.tail.tail.tail.tail.tail.tail.tail.tail.tail.tail.tail.tail.tail.head, self.tail.tail.tail.tail.tail.tail.tail.tail.tail.tail.tail.tail.tail.tail.tail.tail.tail.tail.tail.tail.tail.tail.tail.tail.tail.tail.tail.tail.tail.tail.head)
    }

    proof fn lemma_arity() {
        assert(<HNil as HList>::width() == 0);
        assert(<HCons<T30, HNil> as HList>::width() <= 1);
        assert(<HCons<T29, HCons<T30, HNil>> as HList>::width() <= 2);
        assert(<HCons<T28, HCons<T29, HCons<T30, HNil>>> as HList>::width() <= 3);
        assert(<HCons<T27, HCons<T28, HCons<T29, HCons<T30, HNil>>>> as HList>::width() <= 4);
        assert(<HCons<T26, HCons<T27, HCons<T28, HCons<T29, HCons<T30, HNil>>>>> as HList>::width() <= 5);
        assert(<HCons<T25, HCons<T26, HCons<T27, HCons<T28, HCons<T29, HCons<T30, HNil>>>>>> as HList>::width() <= 6);
        assert(<HCons<T24, HCons<T25, HCons<T26, HCons<T27, HCons<T28, HCons<T29, HCons<T30, HNil>>>>>>> as HList>::width() <= 7);
        assert(<HCons<T23, HCons<T24, HCons<T25, HCons<T26, HCons<T27, HCons<T28, HCons<T29, HCons<T30, HNil>>>>>>>> as HList>::width() <= 8);
        assert(<HCons<T22, HCons<T23, HCons<T24, HCons<T25, HCons<T26, HCons<T27, HCons<T28, HCons<T29, HCons<T30, HNil>>>>>>>>> as HList>::width() <= 9);
        assert(<HCons<T21, HCons<T22, HCons<T23, HCons<T24, HCons<T25, HCons<T26, HCons<T27, HCons<T28, HCons<T29, HCons<T30, HNil>>>>>>>>>> as HList>::width() <= 10);
        assert(<HCons<T20, HCons<T21, HCons<T22, HCons<T23, HCons<T24, HCons<T25, HCons<T26, HCons<T27, HCons<T28, HCons<T29, HCons<T30, HNil>>>>>>>>>>> as HList>::width() <= 11);
        assert(<HCons<T19, HCons<T20, HCons<T21, HCons<T22, HCons<T23, HCons<T24, HCons<T25, HCons<T26, HCons<T27, HCons<T28, HCons<T29, HCons<T30, HNil>>>>>>>>>>>> as HList>::width() <= 12);
        assert(<HCons<T18, HCons<T19, HCons<T20, HCons<T21, HCons<T22, HCons<T23, HCons<T24, HCons<T25, HCons<T26, HCons<T27, HCons<T28, HCons<T29, HCons<T30, HNil>>>>>>>>>>>>> as HList>::width() <= 13);
        assert(<HCons<T17, HCons<T18, HCons<T19, HCons<T20, HCons<T21, HCons<T22, HCons<T23, HCons<T24, HCons<T25, HCons<T26, HCons<T27, HCons<T28, HCons<T29, HCons<T30, HNil>>>>>>>>>>>>>> as HList>::width() <= 14);
        assert(<HCons<T16, HCons<T17, HCons<T18, HCons<T19, HCons<T20, HCons<T21, HCons<T22, HCons<T23, HCons<T24, HCons<T25, HCons<T26, HCons<T27, HCons<T28, HCons<T29, HCons<T30, HNil>>>>>>>>>>>>>>> as HList>::width() <= 15);
        assert(<HCons<T15, HCons<T16, HCons<T17, HCons<T18, HCons<T19, HCons<T20, HCons<T21, HCons<T22, HCons<T23, HCons<T24, HCons<T25, HCons<T26, HCons<T27, HCons<T28, HCons<T29, HCons<T30, HNil>>>>>>>>>>>>>>>> as HList>::width() <= 16);
        assert(<HCons<T14, HCons<T15, HCons<T16, HCons<T17, HCons<T18, HCons<T19, HCons<T20, HCons<T21, HCons<T22, HCons<T23, HCons<T24, HCons<T25, HCons<T26, HCons<T27, HCons<T28, HCons<T29, HCons<T30, HNil>>>>>>>>>>>>>>>>> as HList>::width() <= 17);
        assert(<HCons<T13, HCons<T14, HCons<T15, HCons<T16, HCons<T17, HCons<T18, HCons<T19, HCons<T20, HCons<T21, HCons<T22, HCons<T23, HCons<T24, HCons<T25, HCons<T26, HCons<T27, HCons<T28, HCons<T29, HCons<T30, HNil>>>>>>>>>>>>>>>>>> as HList>::width() <= 18);
        assert(<HCons<T12, HCons<T13, HCons<T14, HCons<T15, HCons<T16, HCons<T17, HCons<T18, HCons<T19, HCons<T20, HCons<T21, HCons<T22, HCons<T23, HCons<T24, HCons<T25, HCons<T26, HCons<T27, HCons<T28, HCons<T29, HCons<T30, HNil>>>>>>>>>>>>>>>>>>> as HList>::width() <= 19);
        assert(<HCons<T11, HCons<T12, HCons<T13, HCons<T14, HCons<T15, HCons<T16, HCons<T17, HCons<T18, HCons<T19, HCons<T20, HCons<T21, HCons<T22, HCons<T23, HCons<T24, HCons<T25, HCons<T26, HCons<T27, HCons<T28, HCons<T29, HCons<T30, HNil>>>>>>>>>>>>>>>>>>>> as HList>::width() <= 20);
        assert(<HCons<T10, HCons<T11, HCons<T12, HCons<T13, HCons<T14, HCons<T15, HCons<T16, HCons<T17, HCons<T18, HCons<T19, HCons<T20, HCons<T21, HCons<T22, HCons<T23, HCons<T24, HCons<T25, HCons<T26, HCons<T27, HCons<T28, HCons<T29, HCons<T30, HNil>>>>>>>>>>>>>>>>>>>>> as HList>::width() <= 21);
        assert(<HCons<T9, HCons<T10, HCons<T11, HCons<T12, HCons<T13, HCons<T14, HCons<T15, HCons<T16, HCons<T17, HCons<T18, HCons<T19, HCons<T20, HCons<T21, HCons<T22, HCons<T23, HCons<T24, HCons<T25, HCons<T26, HCons<T27, HCons<T28, HCons<T29, HCons<T30, HNil>>>>>>>>>>>>>>>>>>>>>> as HList>::width() <= 22);
        assert(<HCons<T8, HCons<T9, HCons<T10, HCons<T11, HCons<T12, HCons<T13, HCons<T14, HCons<T15, HCons<T16, HCons<T17, HCons<T18, HCons<T19, HCons<T20, HCons<T21, HCons<T22, HCons<T23, HCons<T24, HCons<T25, HCons<T26, HCons<T27, HCons<T28, HCons<T29, HCons<T30, HNil>>>>>>>>>>>>>>>>>>>>>>> as HList>::width() <= 23);
        assert(<HCons<T7, HCons<T8, HCons<T9, HCons<T10, HCons<T11, HCons<T12, HCons<T13, HCons<T14, HCons<T15, HCons<T16, HCons<T17, HCons<T18, HCons<T19, HCons<T20, HCons<T21, HCons<T22, HCons<T23, HCons<T24, HCons<T25, HCons<T26, HCons<T27, HCons<T28, HCons<T29, HCons<T30, HNil>>>>>>>>>>>>>>>>>>>>>>>> as HList>::width() <= 24);
        assert(<HCons<T6, HCons<T7, HCons<T8, HCons<T9, HCons<T10, HCons<T11, HCons<T12, HCons<T13, HCons<T14, HCons<T15, HCons<T16, HCons<T17, HCons<T18, HCons<T19, HCons<T20, HCons<T21, HCons<T22, HCons<T23, HCons<T24, HCons<T25, HCons<T26, HCons<T27, HCons<T28, HCons<T29, HCons<T30, HNil>>>>>>>>>>>>>>>>>>>>>>>>> as HList>::width() <= 25);
        assert(<HCons<T5, HCons<T6, HCons<T7, HCons<T8, HCons<T9, HCons<T10, HCons<T11, HCons<T12, HCons<T13, HCons<T14, HCons<T15, HCons<T16, HCons<T17, HCons<T18, HCons<T19, HCons<T20, HCons<T21, HCons<T22, HCons<T23, HCons<T24, HCons<T25, HCons<T26, HCons<T27, HCons<T28, HCons<T29, HCons<T30, HNil>>>>>>>>>>>>>>>>>>>>>>>>>> as HList>::width() <= 26);
        assert(<HCons<T4, HCons<T5, HCons<T6, HCons<T7, HCons<T8, HCons<T9, HCons<T10, HCons<T11, HCons<T12, HCons<T13, HCons<T14, HCons<T15, HCons<T16, HCons<T17, HCons<T18, HCons<T19, HCons<T20, HCons<T21, HCons<T22, HCons<T23, HCons<T24, HCons<T25, HCons<T26, HCons<T27, HCons<T28, HCons<T29, HCons<T30, HNil>>>>>>>>>>>>>>>>>>>>>>>>>>> as HList>::width() <= 27);
        assert(<HCons<T3, HCons<T4, HCons<T5, HCons<T6, HCons<T7, HCons<T8, HCons<T9, HCons<T10, HCons<T11, HCons<T12, HCons<T13, HCons<T14, HCons<T15, HCons<T16, HCons<T17, HCons<T18, HCons<T19, HCons<T20, HCons<T21, HCons<T22, HCons<T23, HCons<T24, HCons<T25, HCons<T26, HCons<T27, HCons<T28, HCons<T29, HCons<T30, HNil>>>>>>>>>>>>>>>>>>>>>>>>>>>> as HList>::width() <= 28);
        assert(<HCons<T2, HCons<T3, HCons<T4, HCons<T5, HCons<T6, HCons<T7, HCons<T8, HCons<T9, HCons<T10, HCons<T11, HCons<T12, HCons<T13, HCons<T14, HCons<T15, HCons<T16, HCons<T17, HCons<T18, HCons<T19, HCons<T20, HCons<T21, HCons<T22, HCons<T23, HCons<T24, HCons<T25, HCons<T26, HCons<T27, HCons<T28, HCons<T29, HCons<T30, HNil>>>>>>>>>>>>>>>>>>>>>>>>>>>>> as HList>::width() <= 29);
        assert(<HCons<T1, HCons<T2, HCons<T3, HCons<T4, HCons<T5, HCons<T6, HCons<T7, HCons<T8, HCons<T9, HCons<T10, HCons<T11, HCons<T12, HCons<T13, HCons<T14, HCons<T15, HCons<T16, HCons<T17, HCons<T18, HCons<T19, HCons<T20, HCons<T21, HCons<T22, HCons<T23, HCons<T24, HCons<T25, HCons<T26, HCons<T27, HCons<T28, HCons<T29, HCons<T30, HNil>>>>>>>>>>>>>>>>>>>>>>>>>>>>>> as HList>::width() <= 30);
        assert(<HCons<T0, HCons<T1, HCons<T2, HCons<T3, HCons<T4, HCons<T5, HCons<T6, HCons<T7, HCons<T8, HCons<T9, HCons<T10, HCons<T11, HCons<T12, HCons<T13, HCons<T14, HCons<T15, HCons<T16, HCons<T17, HCons<T18, HCons<T19, HCons<T20, HCons<T21, HCons<T22, HCons<T23, HCons<T24, HCons<T25, HCons<T26, HCons<T27, HCons<T28, HCons<T29, HCons<T30, HNil>>>>>>>>>>>>>>>>>>>>>>>>>>>>>>> as HList>::width() <= 31);
    }
}

impl<T0, T1, T2, T3, T4, T5, T6, T7, T8, T9, T10, T11, T12, T13, T14, T15, T16, T17, T18, T19, T20, T21, T22, T23, T24, T25, T26, T27, T28, T29, T30, T31> ToTuple for HCons<T0, HCons<T1, HCons<T2, HCons<T3, HCons<T4, HCons<T5, HCons<T6, HCons<T7, HCons<T8, HCons<T9, HCons<T10, HCons<T11, HCons<T12, HCons<T13, HCons<T14, HCons<T15, HCons<T16, HCons<T17, HCons<T18, HCons<T19, HCons<T20, HCons<T21, HCons<T22, HCons<T23, HCons<T24, HCons<T25, HCons<T26, HCons<T27, HCons<T28, HCons<T29, HCons<T30, HCons<T31, HNil>>>>>>>>>>>>>>>>>>>>>>>>>>>>>>>> {
    type Tuple = (T0, T1, T2, T3, T4, T5, T6, T7, T8, T9, T10, T11, T12, T13, T14, T15, T16, T17, T18, T19, T20, T21, T22, T23, T24, T25, T26, T27, T28, T29, T30, T31);

    open spec fn tuple(self) -> (T0, T1, T2, T3, T4, T5, T6, T7, T8, T9, T10, T11, T12, T13, T14, T15, T16, T17, T18, T19, T20, T21, T22, T23, T24, T25, T26, T27, T28, T29, T30, T31) {
        (self.head, self.tail.head, self.tail.tail.head, self.tail.tail.tail.head, self.tail.tail.tail.tail.head, self.tail.tail.tail.tail.tail.head, self.tail.tail.tail.tail.tail.tail.head, self.tail.tail.tail.tail.tail.tail.tail.head, self.tail.tail.tail.tail.tail.tail.tail.tail.head, self.tail.tail.tail.tail.tail.tail.tail.tail.tail.head, self.tail.tail.tail.tail.tail.tail.tail.tail.tail.tail.head, self.tail.tail.tail.tail.tail.tail.tail.tail.tail.tail.tail.head, self.tail.tail.tail.tail.tail.tail.tail.tail.tail.tail.tail.tail.head, self.tail.tail.tail.tail.tail.tail.tail.tail.tail.tail.tail.tail.tail.head, self.tail.tail.tail.tail.tail.tail.tail.tail.tail.tail.tail.tail.tail.tail.head, self.tail.tail.tail.tail.tail.tail.tail.tail.tail.tail.tail.tail.tail.tail.tail.head, self.tail.tail.tail.tail.tail.tail.tail.tail.tail.tail.tail.tail.tail.tail.tail.tail.head, self.tail.tail.tail.tail.tail.tail.tail.tail.tail.tail.tail.tail.tail.tail.tail.tail.tail.head, self.tail.tail.tail.tail.tail.tail.tail.tail.tail.tail.tail.tail.tail.tail.tail.tail.tail.tail.head, self.tail.tail.tail.tail.tail.tail.tail.tail.tail.tail.tail.tail.tail.tail.tail.tail.tail.tail.tail.head, self.tail.tail.tail.tail.tail.tail.tail.tail.tail.tail.tail.tail.tail.tail.tail.tail.tail.tail.tail.tail.head, self.tail.tail.tail.tail.tail.tail.tail.tail.tail.tail.tail.tail.tail.tail.tail.tail.tail.tail.tail.tail.tail.head, self.tail.tail.tail.tail.tail.tail.tail.tail.tail.tail.tail.tail.tail.tail.tail.tail.tail.tail.tail.tail.tail.tail.head, self.tail.tail.tail.tail.tail.tail.tail.tail.tail.tail.tail.tail.tail.tail.tail.tail.tail.tail.tail.tail.tail.tail.tail.head, self.tail.tail.tail.tail.tail.tail.tail.tail.tail.tail.tail.tail.tail.tail.tail.tail.tail.tail.tail.tail.tail.tail.tail.tail.head, self.tail.tail.tail.tail.tail.tail.tail.tail.tail.tail.tail.tail.tail.tail.tail.tail.tail.tail.tail.tail.tail.tail.tail.tail.tail.head, self.tail.tail.tail.tail.tail.tail.tail.tail.tail.tail.tail.tail.tail.tail.tail.tail.tail.tail.tail.tail.tail.tail.tail.tail.tail.tail.head, self.tail.tail.tail.tail.tail.tail.tail.tail.tail.tail.tail.tail.tail.tail.tail.tail.tail.tail.tail.tail.tail.tail.tail.tail.tail.tail.tail.head, self.tail.tail.tail.tail.tail.tail.tail.tail.tail.tail.tail.tail.tail.tail.tail.tail.tail.tail.tail.tail.tail.tail.tail.tail.tail.tail.tail.tail.head, self.tail.tail.tail.tail.tail.tail.tail.tail.tail.tail.tail.tail.tail.tail.tail.tail.tail.tail.tail.tail.tail.tail.tail.tail.tail.tail.tail.tail.tail.head, self.tail.tail.tail.tail.tail.tail.tail.tail.tail.tail.tail.tail.tail.tail.tail.tail.tail.tail.tail.tail.tail.tail.tail.tail.tail.tail.tail.tail.tail.tail.head, self.tail.tail.tail.tail.tail.tail.tail.tail.tail.tail.tail.tail.tail.tail.tail.tail.tail.tail.tail.tail.tail.tail.tail.tail.tail.tail.tail.tail.tail.tail.tail.head)
    }

    fn to_tuple(self) -> (tuple: (T0, T1, T2, T3, T4, T5, T6, T7, T8, T9, T10, T11, T12, T13, T14, T15, T16, T17, T18, T19, T20, T21, T22, T23, T24, T25, T26, T27, T28, T29, T30, T31)) {
        (self.head, self.tail.head, self.tail.tail.head, self.tail.tail.tail.head, self.tail.tail.tail.tail.head, self.tail.tail.tail.tail.tail.head, self.tail.tail.tail.tail.tail.tail.head, self.tail.tail.tail.tail.tail.tail.tail.head, self.tail.tail.tail.tail.tail.tail.tail.tail.head, self.tail.tail.tail.tail.tail.tail.tail.tail.tail.head, self.tail.tail.tail.tail.tail.tail.tail.tail.tail.tail.head, self.tail.tail.tail.tail.tail.tail.tail.tail.tail.tail.tail.head, self.tail.tail.tail.tail.tail.tail.tail.tail.tail.tail.tail.tail.head, self.tail.tail.tail.tail.tail.tail.tail.tail.tail.tail.tail.tail.tail.head, self.tail.tail.tail.tail.tail.tail.tail.tail.tail.tail.tail.tail.tail.tail.head, self.tail.tail.tail.tail.tail.tail.tail.tail.tail.tail.tail.tail.tail.tail.tail.head, self.tail.tail.tail.tail.tail.tail.tail.tail.tail.tail.tail.tail.tail.tail.tail.tail.head, self.tail.tail.tail.tail.tail.tail.tail.tail.tail.tail.tail.tail.tail.tail.tail.tail.tail.head, self.tail.tail.tail.tail.tail.tail.tail.tail.tail.tail.tail.tail.tail.tail.tail.tail.tail.tail.head, self.tail.tail.tail.tail.tail.tail.tail.tail.tail.tail.tail.tail.tail.tail.tail.tail.tail.tail.tail.head, self.tail.tail.tail.tail.tail.tail.tail.tail.tail.tail.tail.tail.tail.tail.tail.tail.tail.tail.tail.tail.head, self.tail.tail.tail.tail.tail.tail.tail.tail.tail.tail.tail.tail.tail.tail.tail.tail.tail.tail.tail.tail.tail.head, self.tail.tail.tail.tail.tail.tail.tail.tail.tail.tail.tail.tail.tail.tail.tail.tail.tail.tail.tail.tail.tail.tail.head, self.tail.tail.tail.tail.tail.tail.tail.tail.tail.tail.tail.tail.tail.tail.tail.tail.tail.tail.tail.tail.tail.tail.tail.head, self.tail.tail.tail.tail.tail.tail.tail.tail.tail.tail.tail.tail.tail.tail.tail.tail.tail.tail.tail.tail.tail.tail.tail.tail.head, self.tail.tail.tail.tail.tail.tail.tail.tail.tail.tail.tail.tail.tail.tail.tail.tail.tail.tail.tail.tail.tail.tail.tail.tail.tail.head, self.tail.tail.tail.tail.tail.tail.tail.tail.tail.tail.tail.tail.tail.tail.tail.tail.tail.tail.tail.tail.tail.tail.tail.tail.tail.tail.head, self.tail.tail.tail.tail.tail.tail.tail.tail.tail.tail.tail.tail.tail.tail.tail.tail.tail.tail.tail.tail.tail.tail.tail.tail.tail.tail.tail.head, self.tail.tail.tail.tail.tail.tail.tail.tail.tail.tail.tail.tail.tail.tail.tail.tail.tail.tail.tail.tail.tail.tail.tail.tail.tail.tail.tail.tail.head, self.tail.tail.tail.tail.tail.tail.tail.tail.tail.tail.tail.tail.tail.tail.tail.tail.tail.tail.tail.tail.tail.tail.tail.tail.tail.tail.tail.tail.tail.head, self.tail.tail.tail.tail.tail.tail.tail.tail.tail.tail.tail.tail.tail.tail.tail.tail.tail.tail.tail.tail.tail.tail.tail.tail.tail.tail.tail.tail.tail.tail.head, self.tail.tail.tail.tail.tail.tail.tail.tail.tail.tail.tail.tail.tail.tail.tail.tail.tail.tail.tail.tail.tail.tail.tail.tail.tail.tail.tail.tail.tail.tail.tail.head)
    }

    proof fn lemma_arity() {
        assert(<HNil as HList>::width() == 0);
        assert(<HCons<T31, HNil> as HList>::width() <= 1);
        assert(<HCons<T30, HCons<T31, HNil>> as HList>::width() <= 2);
        assert(<HCons<T29, HCons<T30, HCons<T31, HNil>>> as HList>::width() <= 3);
        assert(<HCons<T28, HCons<T29, HCons<T30, HCons<T31, HNil>>>> as HList>::width() <= 4);
        assert(<HCons<T27, HCons<T28, HCons<T29, HCons<T30, HCons<T31, HNil>>>>> as HList>::width() <= 5);
        assert(<HCons<T26, HCons<T27, HCons<T28, HCons<T29, HCons<T30, HCons<T31, HNil>>>>>> as HList>::width() <= 6);
        assert(<HCons<T25, HCons<T26, HCons<T27, HCons<T28, HCons<T29, HCons<T30, HCons<T31, HNil>>>>>>> as HList>::width() <= 7);
        assert(<HCons<T24, HCons<T25, HCons<T26, HCons<T27, HCons<T28, HCons<T29, HCons<T30, HCons<T31, HNil>>>>>>>> as HList>::width() <= 8);
        assert(<HCons<T23, HCons<T24, HCons<T25, HCons<T26, HCons<T27, HCons<T28, HCons<T29, HCons<T30, HCons<T31, HNil>>>>>>>>> as HList>::width() <= 9);
        assert(<HCons<T22, HCons<T23, HCons<T24, HCons<T25, HCons<T26, HCons<T27, HCons<T28, HCons<T29, HCons<T30, HCons<T31, HNil>>>>>>>>>> as HList>::width() <= 10);
        assert(<HCons<T21, HCons<T22, HCons<T23, HCons<T24, HCons<T25, HCons<T26, HCons<T27, HCons<T28, HCons<T29, HCons<T30, HCons<T31, HNil>>>>>>>>>>> as HList>::width() <= 11);
        assert(<HCons<T20, HCons<T21, HCons<T22, HCons<T23, HCons<T24, HCons<T25, HCons<T26, HCons<T27, HCons<T28, HCons<T29, HCons<T30, HCons<T31, HNil>>>>>>>>>>>> as HList>::width() <= 12);
        assert(<HCons<T19, HCons<T20, HCons<T21, HCons<T22, HCons<T23, HCons<T24, HCons<T25, HCons<T26, HCons<T27, HCons<T28, HCons<T29, HCons<T30, HCons<T31, HNil>>>>>>>>>>>>> as HList>::width() <= 13);
        assert(<HCons<T18, HCons<T19, HCons<T20, HCons<T21, HCons<T22, HCons<T23, HCons<T24, HCons<T25, HCons<T26, HCons<T27, HCons<T28, HCons<T29, HCons<T30, HCons<T31, HNil>>>>>>>>>>>>>> as HList>::width() <= 14);
        assert(<HCons<T17, HCons<T18, HCons<T19, HCons<T20, HCons<T21, HCons<T22, HCons<T23, HCons<T24, HCons<T25, HCons<T26, HCons<T27, HCons<T28, HCons<T29, HCons<T30, HCons<T31, HNil>>>>>>>>>>>>>>> as HList>::width() <= 15);
        assert(<HCons<T16, HCons<T17, HCons<T18, HCons<T19, HCons<T20, HCons<T21, HCons<T22, HCons<T23, HCons<T24, HCons<T25, HCons<T26, HCons<T27, HCons<T28, HCons<T29, HCons<T30, HCons<T31, HNil>>>>>>>>>>>>>>>> as HList>::width() <= 16);
        assert(<HCons<T15, HCons<T16, HCons<T17, HCons<T18, HCons<T19, HCons<T20, HCons<T21, HCons<T22, HCons<T23, HCons<T24, HCons<T25, HCons<T26, HCons<T27, HCons<T28, HCons<T29, HCons<T30, HCons<T31, HNil>>>>>>>>>>>>>>>>> as HList>::width() <= 17);
        assert(<HCons<T14, HCons<T15, HCons<T16, HCons<T17, HCons<T18, HCons<T19, HCons<T20, HCons<T21, HCons<T22, HCons<T23, HCons<T24, HCons<T25, HCons<T26, HCons<T27, HCons<T28, HCons<T29, HCons<T30, HCons<T31, HNil>>>>>>>>>>>>>>>>>> as HList>::width() <= 18);
        assert(<HCons<T13, HCons<T14, HCons<T15, HCons<T16, HCons<T17, HCons<T18, HCons<T19, HCons<T20, HCons<T21, HCons<T22, HCons<T23, HCons<T24, HCons<T25, HCons<T26, HCons<T27, HCons<T28, HCons<T29, HCons<T30, HCons<T31, HNil>>>>>>>>>>>>>>>>>>> as HList>::width() <= 19);
        assert(<HCons<T12, HCons<T13, HCons<T14, HCons<T15, HCons<T16, HCons<T17, HCons<T18, HCons<T19, HCons<T20, HCons<T21, HCons<T22, HCons<T23, HCons<T24, HCons<T25, HCons<T26, HCons<T27, HCons<T28, HCons<T29, HCons<T30, HCons<T31, HNil>>>>>>>>>>>>>>>>>>>> as HList>::width() <= 20);
        assert(<HCons<T11, HCons<T12, HCons<T13, HCons<T14, HCons<T15, HCons<T16, HCons<T17, HCons<T18, HCons<T19, HCons<T20, HCons<T21, HCons<T22, HCons<T23, HCons<T24, HCons<T25, HCons<T26, HCons<T27, HCons<T28, HCons<T29, HCons<T30, HCons<T31, HNil>>>>>>>>>>>>>>>>>>>>> as HList>::width() <= 21);
        assert(<HCons<T10, HCons<T11, HCons<T12, HCons<T13, HCons<T14, HCons<T15, HCons<T16, HCons<T17, HCons<T18, HCons<T19, HCons<T20, HCons<T21, HCons<T22, HCons<T23, HCons<T24, HCons<T25, HCons<T26, HCons<T27, HCons<T28, HCons<T29, HCons<T30, HCons<T31, HNil>>>>>>>>>>>>>>>>>>>>>> as HList>::width() <= 22);
        assert(<HCons<T9, HCons<T10, HCons<T11, HCons<T12, HCons<T13, HCons<T14, HCons<T15, HCons<T16, HCons<T17, HCons<T18, HCons<T19, HCons<T20, HCons<T21, HCons<T22, HCons<T23, HCons<T24, HCons<T25, HCons<T26, HCons<T27, HCons<T28, HCons<T29, HCons<T30, HCons<T31, HNil>>>>>>>>>>>>>>>>>>>>>>> as HList>::width() <= 23);
        assert(<HCons<T8, HCons<T9, HCons<T10, HCons<T11, HCons<T12, HCons<T13, HCons<T14, HCons<T15, HCons<T16, HCons<T17, HCons<T18, HCons<T19, HCons<T20, HCons<T21, HCons<T22, HCons<T23, HCons<T24, HCons<T25, HCons<T26, HCons<T27, HCons<T28, HCons<T29, HCons<T30, HCons<T31, HNil>>>>>>>>>>>>>>>>>>>>>>>> as HList>::width() <= 24);
        assert(<HCons<T7, HCons<T8, HCons<T9, HCons<T10, HCons<T11, HCons<T12, HCons<T13, HCons<T14, HCons<T15, HCons<T16, HCons<T17, HCons<T18, HCons<T19, HCons<T20, HCons<T21, HCons<T22, HCons<T23, HCons<T24, HCons<T25, HCons<T26, HCons<T27, HCons<T28, HCons<T29, HCons<T30, HCons<T31, HNil>>>>>>>>>>>>>>>>>>>>>>>>> as HList>::width() <= 25);
        assert(<HCons<T6, HCons<T7, HCons<T8, HCons<T9, HCons<T10, HCons<T11, HCons<T12, HCons<T13, HCons<T14, HCons<T15, HCons<T16, HCons<T17, HCons<T18, HCons<T19, HCons<T20, HCons<T21, HCons<T22, HCons<T23, HCons<T24, HCons<T25, HCons<T26, HCons<T27, HCons<T28, HCons<T29, HCons<T30, HCons<T31, HNil>>>>>>>>>>>>>>>>>>>>>>>>>> as HList>::width() <= 26);
        assert(<HCons<T5, HCons<T6, HCons<T7, HCons<T8, HCons<T9, HCons<T10, HCons<T11, HCons<T12, HCons<T13, HCons<T14, HCons<T15, HCons<T16, HCons<T17, HCons<T18, HCons<T19, HCons<T20, HCons<T21, HCons<T22, HCons<T23, HCons<T24, HCons<T25, HCons<T26, HCons<T27, HCons<T28, HCons<T29, HCons<T30, HCons<T31, HNil>>>>>>>>>>>>>>>>>>>>>>>>>>> as HList>::width() <= 27);
        assert(<HCons<T4, HCons<T5, HCons<T6, HCons<T7, HCons<T8, HCons<T9, HCons<T10, HCons<T11, HCons<T12, HCons<T13, HCons<T14, HCons<T15, HCons<T16, HCons<T17, HCons<T18, HCons<T19, HCons<T20, HCons<T21, HCons<T22, HCons<T23, HCons<T24, HCons<T25, HCons<T26, HCons<T27, HCons<T28, HCons<T29, HCons<T30, HCons<T31, HNil>>>>>>>>>>>>>>>>>>>>>>>>>>>> as HList>::width() <= 28);
        assert(<HCons<T3, HCons<T4, HCons<T5, HCons<T6, HCons<T7, HCons<T8, HCons<T9, HCons<T10, HCons<T11, HCons<T12, HCons<T13, HCons<T14, HCons<T15, HCons<T16, HCons<T17, HCons<T18, HCons<T19, HCons<T20, HCons<T21, HCons<T22, HCons<T23, HCons<T24, HCons<T25, HCons<T26, HCons<T27, HCons<T28, HCons<T29, HCons<T30, HCons<T31, HNil>>>>>>>>>>>>>>>>>>>>>>>>>>>>> as HList>::width() <= 29);
        assert(<HCons<T2, HCons<T3, HCons<T4, HCons<T5, HCons<T6, HCons<T7, HCons<T8, HCons<T9, HCons<T10, HCons<T11, HCons<T12, HCons<T13, HCons<T14, HCons<T15, HCons<T16, HCons<T17, HCons<T18, HCons<T19, HCons<T20, HCons<T21, HCons<T22, HCons<T23, HCons<T24, HCons<T25, HCons<T26, HCons<T27, HCons<T28, HCons<T29, HCons<T30, HCons<T31, HNil>>>>>>>>>>>>>>>>>>>>>>>>>>>>>> as HList>::width() <= 30);
        assert(<HCons<T1, HCons<T2, HCons<T3, HCons<T4, HCons<T5, HCons<T6, HCons<T7, HCons<T8, HCons<T9, HCons<T10, HCons<T11, HCons<T12, HCons<T13, HCons<T14, HCons<T15, HCons<T16, HCons<T17, HCons<T18, HCons<T19, HCons<T20, HCons<T21, HCons<T22, HCons<T23, HCons<T24, HCons<T25, HCons<T26, HCons<T27, HCons<T28, HCons<T29, HCons<T30, HCons<T31, HNil>>>>>>>>>>>>>>>>>>>>>>>>>>>>>>> as HList>::width() <= 31);
        assert(<HCons<T0, HCons<T1, HCons<T2, HCons<T3, HCons<T4, HCons<T5, HCons<T6, HCons<T7, HCons<T8, HCons<T9, HCons<T10, HCons<T11, HCons<T12, HCons<T13, HCons<T14, HCons<T15, HCons<T16, HCons<T17, HCons<T18, HCons<T19, HCons<T20, HCons<T21, HCons<T22, HCons<T23, HCons<T24, HCons<T25, HCons<T26, HCons<T27, HCons<T28, HCons<T29, HCons<T30, HCons<T31, HNil>>>>>>>>>>>>>>>>>>>>>>>>>>>>>>>> as HList>::width() <= 32);
    }
}

} // verus!
