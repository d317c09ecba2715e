//! Heterogeneous lists: type-level lists of parameter shapes, sources and columns.
use crate::column::{NonNullableColumn, NullableColumn};
use crate::expr::kind::Nullable;
use crate::label::Duplicate;
use core::marker::PhantomData;
use vstd::prelude::*;

pub mod fixed;
pub mod wide;

verus! {

/// The empty heterogeneous list.
#[derive(Clone, Copy, Debug, PartialEq, Eq, Structural)]
pub struct HNil;

/// A non-empty heterogeneous list.
pub struct HCons<Head, Tail> {
    pub head: Head,
    pub tail: Tail,
}

/// A heterogeneous list whose width is known in the type system.
pub trait HList {
    /// The number of entries.
    spec fn width() -> nat;

    /// The number of entries, as the compiled program counts it.
    fn len() -> (len: usize)
        requires
            Self::width() <= usize::MAX,
        ensures
            len == Self::width(),
    ;
}

impl HList for HNil {
    open spec fn width() -> nat {
        0
    }

    fn len() -> (len: usize) {
        0
    }
}

impl<Head, Tail: HList> HList for HCons<Head, Tail> {
    open spec fn width() -> nat {
        Tail::width() + 1
    }

    fn len() -> (len: usize) {
        Tail::len() + 1
    }
}

/// Marker for query trees that contain no runtime parameters: only those can be executed without
/// being prepared first.
pub trait NoRuntimeParams: HList {
    /// There is nothing to supply.
    proof fn lemma_no_params()
        ensures
            Self::width() == 0,
    ;
}

impl NoRuntimeParams for HNil {
    proof fn lemma_no_params() {
    }
}

/// Appends a value to the end of a heterogeneous list.
pub trait PushBack<T>: HList + Sized {
    type Output: HList;

    /// This list with `value` behind its last entry.
    spec fn pushed(self, value: T) -> Self::Output;

    fn push_back(self, value: T) -> (list: Self::Output)
        ensures
            list == self.pushed(value),
    ;

    /// The list is one entry wider.
    proof fn lemma_pushed_width()
        ensures
            <Self::Output as HList>::width() == Self::width() + 1,
    ;
}

impl<T> PushBack<T> for HNil {
    type Output = HCons<T, HNil>;

    open spec fn pushed(self, value: T) -> HCons<T, HNil> {
        HCons { head: value, tail: HNil }
    }

    fn push_back(self, value: T) -> (list: HCons<T, HNil>) {
        HCons { head: value, tail: HNil }
    }

    proof fn lemma_pushed_width() {
    }
}

impl<Head, Tail: PushBack<T>, T> PushBack<T> for HCons<Head, Tail> {
    type Output = HCons<Head, <Tail as PushBack<T>>::Output>;

    open spec fn pushed(self, value: T) -> Self::Output {
        HCons { head: self.head, tail: self.tail.pushed(value) }
    }

    fn push_back(self, value: T) -> (list: Self::Output) {
        HCons { head: self.head, tail: self.tail.push_back(value) }
    }

    proof fn lemma_pushed_width() {
        <Tail as PushBack<T>>::lemma_pushed_width();
    }
}

/// Concatenates two heterogeneous lists.
pub trait HAppend<Rhs: HList>: HList + Sized {
    type Output: HList;

    /// The concatenation is as wide as both lists together.
    proof fn lemma_append_width()
        ensures
            <Self::Output as HList>::width() == Self::width() + Rhs::width(),
    ;
}

impl<Rhs: HList> HAppend<Rhs> for HNil {
    type Output = Rhs;

    proof fn lemma_append_width() {
    }
}

impl<Head, Tail: HAppend<Rhs>, Rhs: HList> HAppend<Rhs> for HCons<Head, Tail> {
    type Output = HCons<Head, <Tail as HAppend<Rhs>>::Output>;

    proof fn lemma_append_width() {
        <Tail as HAppend<Rhs>>::lemma_append_width();
    }
}

/// Converts a heterogeneous list to a tuple of the same order.
pub trait ToTuple: HList + Sized {
    type Tuple;

    /// The tuple of the entries.
    spec fn tuple(self) -> Self::Tuple;

    fn to_tuple(self) -> (tuple: Self::Tuple)
        ensures
            tuple == self.tuple(),
    ;

    /// Tuples are short enough to count.
    proof fn lemma_arity()
        ensures
            Self::width() <= 32,
    ;
}

impl ToTuple for HNil {
    type Tuple = ();

    open spec fn tuple(self) -> () {
        ()
    }

    fn to_tuple(self) -> (tuple: ()) {
    }

    proof fn lemma_arity() {
    }
}

impl<T0> ToTuple for HCons<T0, HNil> {
    type Tuple = (T0,);

    open spec fn tuple(self) -> (T0,) {
        (self.head,)
    }

    fn to_tuple(self) -> (tuple: (T0,)) {
        (self.head,)
    }

    proof fn lemma_arity() {
        assert(<HNil as HList>::width() == 0);
        assert(<HCons<T0, HNil> as HList>::width() <= 1);
    }
}

impl<T0, T1> ToTuple for HCons<T0, HCons<T1, HNil>> {
    type Tuple = (T0, T1);

    open spec fn tuple(self) -> (T0, T1) {
        (self.head, self.tail.head)
    }

    fn to_tuple(self) -> (tuple: (T0, T1)) {
        (self.head, self.tail.head)
    }

    proof fn lemma_arity() {
        assert(<HNil as HList>::width() == 0);
        assert(<HCons<T1, HNil> as HList>::width() <= 1);
        assert(<HCons<T0, HCons<T1, HNil>> as HList>::width() <= 2);
    }
}

impl<T0, T1, T2> ToTuple for HCons<T0, HCons<T1, HCons<T2, HNil>>> {
    type Tuple = (T0, T1, T2);

    open spec fn tuple(self) -> (T0, T1, T2) {
        (self.head, self.tail.head, self.tail.tail.head)
    }

    fn to_tuple(self) -> (tuple: (T0, T1, T2)) {
        (self.head, self.tail.head, self.tail.tail.head)
    }

    proof fn lemma_arity() {
        assert(<HNil as HList>::width() == 0);
        assert(<HCons<T2, HNil> as HList>::width() <= 1);
        assert(<HCons<T1, HCons<T2, HNil>> as HList>::width() <= 2);
        assert(<HCons<T0, HCons<T1, HCons<T2, HNil>>> as HList>::width() <= 3);
    }
}

impl<T0, T1, T2, T3> ToTuple for HCons<T0, HCons<T1, HCons<T2, HCons<T3, HNil>>>> {
    type Tuple = (T0, T1, T2, T3);

    open spec fn tuple(self) -> (T0, T1, T2, T3) {
        (self.head, self.tail.head, self.tail.tail.head, self.tail.tail.tail.head)
    }

    fn to_tuple(self) -> (tuple: (T0, T1, T2, T3)) {
        (self.head, self.tail.head, self.tail.tail.head, self.tail.tail.tail.head)
    }

    proof fn lemma_arity() {
        assert(<HNil as HList>::width() == 0);
        assert(<HCons<T3, HNil> as HList>::width() <= 1);
        assert(<HCons<T2, HCons<T3, HNil>> as HList>::width() <= 2);
        assert(<HCons<T1, HCons<T2, HCons<T3, HNil>>> as HList>::width() <= 3);
        assert(<HCons<T0, HCons<T1, HCons<T2, HCons<T3, HNil>>>> as HList>::width() <= 4);
    }
}

impl<T0, T1, T2, T3, T4> ToTuple for HCons<T0, HCons<T1, HCons<T2, HCons<T3, HCons<T4, HNil>>>>> {
    type Tuple = (T0, T1, T2, T3, T4);

    open spec fn tuple(self) -> (T0, T1, T2, T3, T4) {
        (self.head, self.tail.head, self.tail.tail.head, self.tail.tail.tail.head, self.tail.tail.tail.tail.head)
    }

    fn to_tuple(self) -> (tuple: (T0, T1, T2, T3, T4)) {
        (self.head, self.tail.head, self.tail.tail.head, self.tail.tail.tail.head, self.tail.tail.tail.tail.head)
    }

    proof fn lemma_arity() {
        assert(<HNil as HList>::width() == 0);
        assert(<HCons<T4, HNil> as HList>::width() <= 1);
        assert(<HCons<T3, HCons<T4, HNil>> as HList>::width() <= 2);
        assert(<HCons<T2, HCons<T3, HCons<T4, HNil>>> as HList>::width() <= 3);
        assert(<HCons<T1, HCons<T2, HCons<T3, HCons<T4, HNil>>>> as HList>::width() <= 4);
        assert(<HCons<T0, HCons<T1, HCons<T2, HCons<T3, HCons<T4, HNil>>>>> as HList>::width() <= 5);
    }
}

impl<T0, T1, T2, T3, T4, T5> ToTuple for HCons<T0, HCons<T1, HCons<T2, HCons<T3, HCons<T4, HCons<T5, HNil>>>>>> {
    type Tuple = (T0, T1, T2, T3, T4, T5);

    open spec fn tuple(self) -> (T0, T1, T2, T3, T4, T5) {
        (self.head, self.tail.head, self.tail.tail.head, self.tail.tail.tail.head, self.tail.tail.tail.tail.head, self.tail.tail.tail.tail.tail.head)
    }

    fn to_tuple(self) -> (tuple: (T0, T1, T2, T3, T4, T5)) {
        (self.head, self.tail.head, self.tail.tail.head, self.tail.tail.tail.head, self.tail.tail.tail.tail.head, self.tail.tail.tail.tail.tail.head)
    }

    proof fn lemma_arity() {
        assert(<HNil as HList>::width() == 0);
        assert(<HCons<T5, HNil> as HList>::width() <= 1);
        assert(<HCons<T4, HCons<T5, HNil>> as HList>::width() <= 2);
        assert(<HCons<T3, HCons<T4, HCons<T5, HNil>>> as HList>::width() <= 3);
        assert(<HCons<T2, HCons<T3, HCons<T4, HCons<T5, HNil>>>> as HList>::width() <= 4);
        assert(<HCons<T1, HCons<T2, HCons<T3, HCons<T4, HCons<T5, HNil>>>>> as HList>::width() <= 5);
        assert(<HCons<T0, HCons<T1, HCons<T2, HCons<T3, HCons<T4, HCons<T5, HNil>>>>>> as HList>::width() <= 6);
    }
}

impl<T0, T1, T2, T3, T4, T5, T6> ToTuple for HCons<T0, HCons<T1, HCons<T2, HCons<T3, HCons<T4, HCons<T5, HCons<T6, HNil>>>>>>> {
    type Tuple = (T0, T1, T2, T3, T4, T5, T6);

    open spec fn tuple(self) -> (T0, T1, T2, T3, T4, T5, T6) {
        (self.head, self.tail.head, self.tail.tail.head, self.tail.tail.tail.head, self.tail.tail.tail.tail.head, self.tail.tail.tail.tail.tail.head, self.tail.tail.tail.tail.tail.tail.head)
    }

    fn to_tuple(self) -> (tuple: (T0, T1, T2, T3, T4, T5, T6)) {
        (self.head, self.tail.head, self.tail.tail.head, self.tail.tail.tail.head, self.tail.tail.tail.tail.head, self.tail.tail.tail.tail.tail.head, self.tail.tail.tail.tail.tail.tail.head)
    }

    proof fn lemma_arity() {
        assert(<HNil as HList>::width() == 0);
        assert(<HCons<T6, HNil> as HList>::width() <= 1);
        assert(<HCons<T5, HCons<T6, HNil>> as HList>::width() <= 2);
        assert(<HCons<T4, HCons<T5, HCons<T6, HNil>>> as HList>::width() <= 3);
        assert(<HCons<T3, HCons<T4, HCons<T5, HCons<T6, HNil>>>> as HList>::width() <= 4);
        assert(<HCons<T2, HCons<T3, HCons<T4, HCons<T5, HCons<T6, HNil>>>>> as HList>::width() <= 5);
        assert(<HCons<T1, HCons<T2, HCons<T3, HCons<T4, HCons<T5, HCons<T6, HNil>>>>>> as HList>::width() <= 6);
        assert(<HCons<T0, HCons<T1, HCons<T2, HCons<T3, HCons<T4, HCons<T5, HCons<T6, HNil>>>>>>> as HList>::width() <= 7);
    }
}

impl<T0, T1, T2, T3, T4, T5, T6, T7> ToTuple for HCons<T0, HCons<T1, HCons<T2, HCons<T3, HCons<T4, HCons<T5, HCons<T6, HCons<T7, HNil>>>>>>>> {
    type Tuple = (T0, T1, T2, T3, T4, T5, T6, T7);

    open spec fn tuple(self) -> (T0, T1, T2, T3, T4, T5, T6, T7) {
        (self.head, self.tail.head, self.tail.tail.head, self.tail.tail.tail.head, self.tail.tail.tail.tail.head, self.tail.tail.tail.tail.tail.head, self.tail.tail.tail.tail.tail.tail.head, self.tail.tail.tail.tail.tail.tail.tail.head)
    }

    fn to_tuple(self) -> (tuple: (T0, T1, T2, T3, T4, T5, T6, T7)) {
        (self.head, self.tail.head, self.tail.tail.head, self.tail.tail.tail.head, self.tail.tail.tail.tail.head, self.tail.tail.tail.tail.tail.head, self.tail.tail.tail.tail.tail.tail.head, self.tail.tail.tail.tail.tail.tail.tail.head)
    }

    proof fn lemma_arity() {
        assert(<HNil as HList>::width() == 0);
        assert(<HCons<T7, HNil> as HList>::width() <= 1);
        assert(<HCons<T6, HCons<T7, HNil>> as HList>::width() <= 2);
        assert(<HCons<T5, HCons<T6, HCons<T7, HNil>>> as HList>::width() <= 3);
        assert(<HCons<T4, HCons<T5, HCons<T6, HCons<T7, HNil>>>> as HList>::width() <= 4);
        assert(<HCons<T3, HCons<T4, HCons<T5, HCons<T6, HCons<T7, HNil>>>>> as HList>::width() <= 5);
        assert(<HCons<T2, HCons<T3, HCons<T4, HCons<T5, HCons<T6, HCons<T7, HNil>>>>>> as HList>::width() <= 6);
        assert(<HCons<T1, HCons<T2, HCons<T3, HCons<T4, HCons<T5, HCons<T6, HCons<T7, HNil>>>>>>> as HList>::width() <= 7);
        assert(<HCons<T0, HCons<T1, HCons<T2, HCons<T3, HCons<T4, HCons<T5, HCons<T6, HCons<T7, HNil>>>>>>>> as HList>::width() <= 8);
    }
}

/// Membership witness: the element is at the head of the list.
pub struct Here;

/// Membership witness: the element is in the tail, `Index` away from there.
pub struct There<Index>(PhantomData<Index>);

/// The list contains `T`, at the position that `Index` witnesses. A `SELECT DISTINCT` orders only by
/// what it projects.
pub trait Contains<T, Index> {

}

impl<T, Tail> Contains<T, Here> for HCons<T, Tail> {

}

impl<T, Tail> Contains<T, Here> for HCons<Nullable<T>, Tail> {

}

impl<T, Head, Tail: Contains<T, Index>, Index> Contains<T, There<Index>> for HCons<Head, Tail> {

}

/// The target column list contains the required column `T`, at the position that `Index` witnesses.
pub trait CoversColumn<T, Index> {

}

impl<T, Tail> CoversColumn<T, Here> for HCons<T, Tail> {

}

impl<T, Head, Tail: CoversColumn<T, Index>, Index> CoversColumn<T, There<Index>> for HCons<
    Head,
    Tail,
> {

}

/// A required insert column: its kind and its nullability.
pub struct RequiredCol<K, N>(PhantomData<(K, N)>);

/// Witness that a required column may be left out because it is nullable.
pub struct Omittable;

/// Every column of the list that cannot be null appears in the target column list `Targets`.
pub trait RequiredCovered<Targets, Indices> {

}

impl<Targets> RequiredCovered<Targets, HNil> for HNil {

}

impl<
    Targets: CoversColumn<K, Index>,
    K,
    Tail: RequiredCovered<Targets, RestIndices>,
    Index,
    RestIndices,
> RequiredCovered<Targets, HCons<Index, RestIndices>> for HCons<
    RequiredCol<K, NonNullableColumn>,
    Tail,
> {

}

impl<Targets, K, Tail: RequiredCovered<Targets, RestIndices>, RestIndices> RequiredCovered<
    Targets,
    HCons<Omittable, RestIndices>,
> for HCons<RequiredCol<K, NullableColumn>, Tail> {

}

/// The columns of a source, as an outer join leaves them that may find no row for it.
pub trait IntoNullableExprs: Sized {
    type Output;

    /// These columns, each of which may be missing.
    open spec fn nullable_exprs(self) -> Self::Output {
        arbitrary()
    }

    fn into_nullable_exprs(self) -> (exprs: Self::Output)
        ensures
            exprs == self.nullable_exprs(),
    ;
}

/// The columns of all sources so far, as a `RIGHT` or `FULL JOIN` leaves them.
pub trait NullableSources: HList + Sized {
    type Output: HList;

    /// The sources with nullable columns.
    spec fn nullable_sources(self) -> Self::Output;

    fn into_nullable_sources(self) -> (sources: Self::Output)
        ensures
            sources == self.nullable_sources(),
    ;

    /// No source is lost.
    proof fn lemma_nullable_width()
        ensures
            <Self::Output as HList>::width() == Self::width(),
    ;
}

impl NullableSources for HNil {
    type Output = HNil;

    open spec fn nullable_sources(self) -> HNil {
        self
    }

    fn into_nullable_sources(self) -> (sources: HNil) {
        self
    }

    proof fn lemma_nullable_width() {
    }
}

impl<Head: IntoNullableExprs, Tail: NullableSources> NullableSources for HCons<Head, Tail> {
    type Output = HCons<<Head as IntoNullableExprs>::Output, <Tail as NullableSources>::Output>;

    open spec fn nullable_sources(self) -> Self::Output {
        HCons { head: self.head.nullable_exprs(), tail: self.tail.nullable_sources() }
    }

    fn into_nullable_sources(self) -> (sources: Self::Output) {
        HCons {
            head: self.head.into_nullable_exprs(),
            tail: self.tail.into_nullable_sources(),
        }
    }

    proof fn lemma_nullable_width() {
        <Tail as NullableSources>::lemma_nullable_width();
    }
}

impl Duplicate for HNil {
    fn duplicate(&self) -> (copy: HNil) {
        HNil
    }
}

impl<Head: Duplicate, Tail: Duplicate> Duplicate for HCons<Head, Tail> {
    fn duplicate(&self) -> (copy: Self) {
        HCons { head: self.head.duplicate(), tail: self.tail.duplicate() }
    }
}

/// A fixed list of values of one type.
pub trait FixedList<T>: Sized {
    /// The values, first to last.
    spec fn items(&self) -> Seq<T>;

    fn len(&self) -> (len: usize)
        ensures
            len == self.items().len(),
    ;

    fn is_empty(&self) -> (empty: bool)
        ensures
            empty <==> self.items().len() == 0,
    {
        self.len() == 0
    }

    /// The value at a position.
    fn get(&self, index: usize) -> (item: Option<&T>)
        ensures
            item == (if index < self.items().len() {
                Some(&self.items()[index as int])
            } else {
                None::<&T>
            }),
    ;

    /// Calls `f` with each value in order, up to the first error.
    fn try_for_each<E, F: Fn(&T) -> Result<(), E>>(&self, f: F) -> (result: Result<(), E>)
        requires
            forall|i: int|
                0 <= i < self.items().len() ==> call_requires(f, (&#[trigger] self.items()[i],)),
        ensures
            match result {
                Ok(_) => forall|i: int|
                    0 <= i < self.items().len() ==> call_ensures(
                        f,
                        (&#[trigger] self.items()[i],),
                        Ok::<(), E>(()),
                    ),
                Err(error) => exists|k: int|
                    {
                        &&& 0 <= k < self.items().len()
                        &&& call_ensures(f, (&#[trigger] self.items()[k],), Err::<(), E>(error))
                        &&& forall|i: int|
                            0 <= i < k ==> call_ensures(
                                f,
                                (&#[trigger] self.items()[i],),
                                Ok::<(), E>(()),
                            )
                    },
            },
    {
        let mut index: usize = 0;
        while index < self.len()
            invariant
                index <= self.items().len(),
                forall|i: int|
                    0 <= i < self.items().len() ==> call_requires(
                        f,
                        (&#[trigger] self.items()[i],),
                    ),
                forall|i: int|
                    0 <= i < index ==> call_ensures(
                        f,
                        (&#[trigger] self.items()[i],),
                        Ok::<(), E>(()),
                    ),
            decreases self.items().len() - index,
        {
            if let Some(item) = self.get(index) {
                match f(item) {
                    Ok(done) => {
                        proof {
                            assert(done == ());
                            assert(call_ensures(
                                f,
                                (&self.items()[index as int],),
                                Ok::<(), E>(()),
                            ));
                        }
                    },
                    Err(error) => return Err(error),
                }
            }
            index = index + 1;
        }
        Ok(())
    }
}

/// Appends a value to a fixed list.
pub trait TupleAppend<T>: FixedList<T> {
    type Output: FixedList<T>;

    fn append(self, value: T) -> (list: Self::Output)
        ensures
            list.items() == self.items().push(value),
    ;
}

/// Puts a value in front of a fixed list.
pub trait TuplePrepend<T>: FixedList<T> {
    type Output: FixedList<T>;

    fn prepend(self, value: T) -> (list: Self::Output)
        ensures
            list.items() == seq![value] + self.items(),
    ;
}

/// Concatenates two fixed lists.
pub trait TupleConcat<T, Rhs: FixedList<T>>: FixedList<T> {
    type Output: FixedList<T>;

    fn concat(self, rhs: Rhs) -> (list: Self::Output)
        ensures
            list.items() == self.items() + rhs.items(),
    ;
}

/// Maps a fixed list to one of the same width.
pub trait MapFixedList<T, U>: FixedList<T> {
    type Output: FixedList<U>;

    fn map_list<F: Fn(T) -> U>(self, f: F) -> (list: Self::Output)
        requires
            forall|i: int|
                0 <= i < self.items().len() ==> call_requires(f, (#[trigger] self.items()[i],)),
        ensures
            list.items().len() == self.items().len(),
            forall|i: int|
                0 <= i < self.items().len() ==> call_ensures(
                    f,
                    (self.items()[i],),
                    #[trigger] list.items()[i],
                ),
    ;
}

/// Coerces a value supplied to a prepared statement into the type of its parameter.
pub trait IntoPreparedParam<T>: Sized {
    /// What the parameter becomes.
    spec fn becomes(self, param: T) -> bool;

    fn into_prepared_param(self) -> (param: T)
        ensures
            self.becomes(param),
    ;
}

impl<T> IntoPreparedParam<T> for T {
    open spec fn becomes(self, param: T) -> bool {
        param == self
    }

    fn into_prepared_param(self) -> (param: T) {
        self
    }
}

impl IntoPreparedParam<String> for &str {
    open spec fn becomes(self, param: String) -> bool {
        param@ == self@
    }

    fn into_prepared_param(self) -> (param: String) {
        self.to_owned()
    }
}

impl IntoPreparedParam<String> for &String {
    open spec fn becomes(self, param: String) -> bool {
        param@ == self@
    }

    fn into_prepared_param(self) -> (param: String) {
        self.clone()
    }
}

impl IntoPreparedParam<Option<String>> for Option<&str> {
    open spec fn becomes(self, param: Option<String>) -> bool {
        match (self, param) {
            (Some(text), Some(owned)) => owned@ == text@,
            (None, None) => true,
            _ => false,
        }
    }

    fn into_prepared_param(self) -> (param: Option<String>) {
        match self {
            Some(text) => Some(text.to_owned()),
            None => None,
        }
    }
}

impl IntoPreparedParam<Option<String>> for Option<&String> {
    open spec fn becomes(self, param: Option<String>) -> bool {
        match (self, param) {
            (Some(text), Some(owned)) => owned@ == text@,
            (None, None) => true,
            _ => false,
        }
    }

    fn into_prepared_param(self) -> (param: Option<String>) {
        match self {
            Some(text) => Some(text.clone()),
            None => None,
        }
    }
}

} // verus!
