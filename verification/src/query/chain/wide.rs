//! Grouping keys, conditions and orderings in tuples of nine to sixteen.
use crate::query::chain::{GroupByKeys, HavingPredicates, OrderByTerms};
use vstd::prelude::*;

verus! {

impl<'scope, Base, T0: GroupByKeys<'scope, Base>, T1, T2, T3, T4, T5, T6, T7, T8> GroupByKeys<
    'scope,
    Base,
> for (T0, T1, T2, T3, T4, T5, T6, T7, T8) where
    (T1, T2, T3, T4, T5, T6, T7, T8): GroupByKeys<'scope, <T0 as GroupByKeys<'scope, Base>>::Output>,
 {
    type Output = <(T1, T2, T3, T4, T5, T6, T7, T8) as GroupByKeys<
        'scope,
        <T0 as GroupByKeys<'scope, Base>>::Output,
    >>::Output;

    open spec fn applied(self, base: Base) -> Self::Output {
        GroupByKeys::applied((self.1, self.2, self.3, self.4, self.5, self.6, self.7, self.8), GroupByKeys::applied(self.0, base))
    }

    fn apply(self, base: Base) -> (chain: Self::Output) {
        GroupByKeys::apply((self.1, self.2, self.3, self.4, self.5, self.6, self.7, self.8), GroupByKeys::apply(self.0, base))
    }
}

impl<'scope, Base, T0: GroupByKeys<'scope, Base>, T1, T2, T3, T4, T5, T6, T7, T8, T9> GroupByKeys<
    'scope,
    Base,
> for (T0, T1, T2, T3, T4, T5, T6, T7, T8, T9) where
    (T1, T2, T3, T4, T5, T6, T7, T8, T9): GroupByKeys<'scope, <T0 as GroupByKeys<'scope, Base>>::Output>,
 {
    type Output = <(T1, T2, T3, T4, T5, T6, T7, T8, T9) as GroupByKeys<
        'scope,
        <T0 as GroupByKeys<'scope, Base>>::Output,
    >>::Output;

    open spec fn applied(self, base: Base) -> Self::Output {
        GroupByKeys::applied((self.1, self.2, self.3, self.4, self.5, self.6, self.7, self.8, self.9), GroupByKeys::applied(self.0, base))
    }

    fn apply(self, base: Base) -> (chain: Self::Output) {
        GroupByKeys::apply((self.1, self.2, self.3, self.4, self.5, self.6, self.7, self.8, self.9), GroupByKeys::apply(self.0, base))
    }
}

impl<'scope, Base, T0: GroupByKeys<'scope, Base>, T1, T2, T3, T4, T5, T6, T7, T8, T9, T10> GroupByKeys<
    'scope,
    Base,
> for (T0, T1, T2, T3, T4, T5, T6, T7, T8, T9, T10) where
    (T1, T2, T3, T4, T5, T6, T7, T8, T9, T10): GroupByKeys<'scope, <T0 as GroupByKeys<'scope, Base>>::Output>,
 {
    type Output = <(T1, T2, T3, T4, T5, T6, T7, T8, T9, T10) as GroupByKeys<
        'scope,
        <T0 as GroupByKeys<'scope, Base>>::Output,
    >>::Output;

    open spec fn applied(self, base: Base) -> Self::Output {
        GroupByKeys::applied((self.1, self.2, self.3, self.4, self.5, self.6, self.7, self.8, self.9, self.10), GroupByKeys::applied(self.0, base))
    }

    fn apply(self, base: Base) -> (chain: Self::Output) {
        GroupByKeys::apply((self.1, self.2, self.3, self.4, self.5, self.6, self.7, self.8, self.9, self.10), GroupByKeys::apply(self.0, base))
    }
}

impl<'scope, Base, T0: GroupByKeys<'scope, Base>, T1, T2, T3, T4, T5, T6, T7, T8, T9, T10, T11> GroupByKeys<
    'scope,
    Base,
> for (T0, T1, T2, T3, T4, T5, T6, T7, T8, T9, T10, T11) where
    (T1, T2, T3, T4, T5, T6, T7, T8, T9, T10, T11): GroupByKeys<'scope, <T0 as GroupByKeys<'scope, Base>>::Output>,
 {
    type Output = <(T1, T2, T3, T4, T5, T6, T7, T8, T9, T10, T11) as GroupByKeys<
        'scope,
        <T0 as GroupByKeys<'scope, Base>>::Output,
    >>::Output;

    open spec fn applied(self, base: Base) -> Self::Output {
        GroupByKeys::applied((self.1, self.2, self.3, self.4, self.5, self.6, self.7, self.8, self.9, self.10, self.11), GroupByKeys::applied(self.0, base))
    }

    fn apply(self, base: Base) -> (chain: Self::Output) {
        GroupByKeys::apply((self.1, self.2, self.3, self.4, self.5, self.6, self.7, self.8, self.9, self.10, self.11), GroupByKeys::apply(self.0, base))
    }
}

impl<'scope, Base, T0: GroupByKeys<'scope, Base>, T1, T2, T3, T4, T5, T6, T7, T8, T9, T10, T11, T12> GroupByKeys<
    'scope,
    Base,
> for (T0, T1, T2, T3, T4, T5, T6, T7, T8, T9, T10, T11, T12) where
    (T1, T2, T3, T4, T5, T6, T7, T8, T9, T10, T11, T12): GroupByKeys<'scope, <T0 as GroupByKeys<'scope, Base>>::Output>,
 {
    type Output = <(T1, T2, T3, T4, T5, T6, T7, T8, T9, T10, T11, T12) as GroupByKeys<
        'scope,
        <T0 as GroupByKeys<'scope, Base>>::Output,
    >>::Output;

    open spec fn applied(self, base: Base) -> Self::Output {
        GroupByKeys::applied((self.1, self.2, self.3, self.4, self.5, self.6, self.7, self.8, self.9, self.10, self.11, self.12), GroupByKeys::applied(self.0, base))
    }

    fn apply(self, base: Base) -> (chain: Self::Output) {
        GroupByKeys::apply((self.1, self.2, self.3, self.4, self.5, self.6, self.7, self.8, self.9, self.10, self.11, self.12), GroupByKeys::apply(self.0, base))
    }
}

impl<'scope, Base, T0: GroupByKeys<'scope, Base>, T1, T2, T3, T4, T5, T6, T7, T8, T9, T10, T11, T12, T13> GroupByKeys<
    'scope,
    Base,
> for (T0, T1, T2, T3, T4, T5, T6, T7, T8, T9, T10, T11, T12, T13) where
    (T1, T2, T3, T4, T5, T6, T7, T8, T9, T10, T11, T12, T13): GroupByKeys<'scope, <T0 as GroupByKeys<'scope, Base>>::Output>,
 {
    type Output = <(T1, T2, T3, T4, T5, T6, T7, T8, T9, T10, T11, T12, T13) as GroupByKeys<
        'scope,
        <T0 as GroupByKeys<'scope, Base>>::Output,
    >>::Output;

    open spec fn applied(self, base: Base) -> Self::Output {
        GroupByKeys::applied((self.1, self.2, self.3, self.4, self.5, self.6, self.7, self.8, self.9, self.10, self.11, self.12, self.13), GroupByKeys::applied(self.0, base))
    }

    fn apply(self, base: Base) -> (chain: Self::Output) {
        GroupByKeys::apply((self.1, self.2, self.3, self.4, self.5, self.6, self.7, self.8, self.9, self.10, self.11, self.12, self.13), GroupByKeys::apply(self.0, base))
    }
}

impl<'scope, Base, T0: GroupByKeys<'scope, Base>, T1, T2, T3, T4, T5, T6, T7, T8, T9, T10, T11, T12, T13, T14> GroupByKeys<
    'scope,
    Base,
> for (T0, T1, T2, T3, T4, T5, T6, T7, T8, T9, T10, T11, T12, T13, T14) where
    (T1, T2, T3, T4, T5, T6, T7, T8, T9, T10, T11, T12, T13, T14): GroupByKeys<'scope, <T0 as GroupByKeys<'scope, Base>>::Output>,
 {
    type Output = <(T1, T2, T3, T4, T5, T6, T7, T8, T9, T10, T11, T12, T13, T14) as GroupByKeys<
        'scope,
        <T0 as GroupByKeys<'scope, Base>>::Output,
    >>::Output;

    open spec fn applied(self, base: Base) -> Self::Output {
        GroupByKeys::applied((self.1, self.2, self.3, self.4, self.5, self.6, self.7, self.8, self.9, self.10, self.11, self.12, self.13, self.14), GroupByKeys::applied(self.0, base))
    }

    fn apply(self, base: Base) -> (chain: Self::Output) {
        GroupByKeys::apply((self.1, self.2, self.3, self.4, self.5, self.6, self.7, self.8, self.9, self.10, self.11, self.12, self.13, self.14), GroupByKeys::apply(self.0, base))
    }
}

impl<'scope, Base, T0: GroupByKeys<'scope, Base>, T1, T2, T3, T4, T5, T6, T7, T8, T9, T10, T11, T12, T13, T14, T15> GroupByKeys<
    'scope,
    Base,
> for (T0, T1, T2, T3, T4, T5, T6, T7, T8, T9, T10, T11, T12, T13, T14, T15) where
    (T1, T2, T3, T4, T5, T6, T7, T8, T9, T10, T11, T12, T13, T14, T15): GroupByKeys<'scope, <T0 as GroupByKeys<'scope, Base>>::Output>,
 {
    type Output = <(T1, T2, T3, T4, T5, T6, T7, T8, T9, T10, T11, T12, T13, T14, T15) as GroupByKeys<
        'scope,
        <T0 as GroupByKeys<'scope, Base>>::Output,
    >>::Output;

    open spec fn applied(self, base: Base) -> Self::Output {
        GroupByKeys::applied((self.1, self.2, self.3, self.4, self.5, self.6, self.7, self.8, self.9, self.10, self.11, self.12, self.13, self.14, self.15), GroupByKeys::applied(self.0, base))
    }

    fn apply(self, base: Base) -> (chain: Self::Output) {
        GroupByKeys::apply((self.1, self.2, self.3, self.4, self.5, self.6, self.7, self.8, self.9, self.10, self.11, self.12, self.13, self.14, self.15), GroupByKeys::apply(self.0, base))
    }
}

impl<'scope, Base, T0: HavingPredicates<'scope, Base>, T1, T2, T3, T4, T5, T6, T7, T8> HavingPredicates<
    'scope,
    Base,
> for (T0, T1, T2, T3, T4, T5, T6, T7, T8) where
    (T1, T2, T3, T4, T5, T6, T7, T8): HavingPredicates<'scope, <T0 as HavingPredicates<'scope, Base>>::Output>,
 {
    type Output = <(T1, T2, T3, T4, T5, T6, T7, T8) as HavingPredicates<
        'scope,
        <T0 as HavingPredicates<'scope, Base>>::Output,
    >>::Output;

    open spec fn applied(self, base: Base) -> Self::Output {
        HavingPredicates::applied((self.1, self.2, self.3, self.4, self.5, self.6, self.7, self.8), HavingPredicates::applied(self.0, base))
    }

    fn apply(self, base: Base) -> (chain: Self::Output) {
        HavingPredicates::apply((self.1, self.2, self.3, self.4, self.5, self.6, self.7, self.8), HavingPredicates::apply(self.0, base))
    }
}

impl<'scope, Base, T0: HavingPredicates<'scope, Base>, T1, T2, T3, T4, T5, T6, T7, T8, T9> HavingPredicates<
    'scope,
    Base,
> for (T0, T1, T2, T3, T4, T5, T6, T7, T8, T9) where
    (T1, T2, T3, T4, T5, T6, T7, T8, T9): HavingPredicates<'scope, <T0 as HavingPredicates<'scope, Base>>::Output>,
 {
    type Output = <(T1, T2, T3, T4, T5, T6, T7, T8, T9) as HavingPredicates<
        'scope,
        <T0 as HavingPredicates<'scope, Base>>::Output,
    >>::Output;

    open spec fn applied(self, base: Base) -> Self::Output {
        HavingPredicates::applied((self.1, self.2, self.3, self.4, self.5, self.6, self.7, self.8, self.9), HavingPredicates::applied(self.0, base))
    }

    fn apply(self, base: Base) -> (chain: Self::Output) {
        HavingPredicates::apply((self.1, self.2, self.3, self.4, self.5, self.6, self.7, self.8, self.9), HavingPredicates::apply(self.0, base))
    }
}

impl<'scope, Base, T0: HavingPredicates<'scope, Base>, T1, T2, T3, T4, T5, T6, T7, T8, T9, T10> HavingPredicates<
    'scope,
    Base,
> for (T0, T1, T2, T3, T4, T5, T6, T7, T8, T9, T10) where
    (T1, T2, T3, T4, T5, T6, T7, T8, T9, T10): HavingPredicates<'scope, <T0 as HavingPredicates<'scope, Base>>::Output>,
 {
    type Output = <(T1, T2, T3, T4, T5, T6, T7, T8, T9, T10) as HavingPredicates<
        'scope,
        <T0 as HavingPredicates<'scope, Base>>::Output,
    >>::Output;

    open spec fn applied(self, base: Base) -> Self::Output {
        HavingPredicates::applied((self.1, self.2, self.3, self.4, self.5, self.6, self.7, self.8, self.9, self.10), HavingPredicates::applied(self.0, base))
    }

    fn apply(self, base: Base) -> (chain: Self::Output) {
        HavingPredicates::apply((self.1, self.2, self.3, self.4, self.5, self.6, self.7, self.8, self.9, self.10), HavingPredicates::apply(self.0, base))
    }
}

impl<'scope, Base, T0: HavingPredicates<'scope, Base>, T1, T2, T3, T4, T5, T6, T7, T8, T9, T10, T11> HavingPredicates<
    'scope,
    Base,
> for (T0, T1, T2, T3, T4, T5, T6, T7, T8, T9, T10, T11) where
    (T1, T2, T3, T4, T5, T6, T7, T8, T9, T10, T11): HavingPredicates<'scope, <T0 as HavingPredicates<'scope, Base>>::Output>,
 {
    type Output = <(T1, T2, T3, T4, T5, T6, T7, T8, T9, T10, T11) as HavingPredicates<
        'scope,
        <T0 as HavingPredicates<'scope, Base>>::Output,
    >>::Output;

    open spec fn applied(self, base: Base) -> Self::Output {
        HavingPredicates::applied((self.1, self.2, self.3, self.4, self.5, self.6, self.7, self.8, self.9, self.10, self.11), HavingPredicates::applied(self.0, base))
    }

    fn apply(self, base: Base) -> (chain: Self::Output) {
        HavingPredicates::apply((self.1, self.2, self.3, self.4, self.5, self.6, self.7, self.8, self.9, self.10, self.11), HavingPredicates::apply(self.0, base))
    }
}

impl<'scope, Base, T0: HavingPredicates<'scope, Base>, T1, T2, T3, T4, T5, T6, T7, T8, T9, T10, T11, T12> HavingPredicates<
    'scope,
    Base,
> for (T0, T1, T2, T3, T4, T5, T6, T7, T8, T9, T10, T11, T12) where
    (T1, T2, T3, T4, T5, T6, T7, T8, T9, T10, T11, T12): HavingPredicates<'scope, <T0 as HavingPredicates<'scope, Base>>::Output>,
 {
    type Output = <(T1, T2, T3, T4, T5, T6, T7, T8, T9, T10, T11, T12) as HavingPredicates<
        'scope,
        <T0 as HavingPredicates<'scope, Base>>::Output,
    >>::Output;

    open spec fn applied(self, base: Base) -> Self::Output {
        HavingPredicates::applied((self.1, self.2, self.3, self.4, self.5, self.6, self.7, self.8, self.9, self.10, self.11, self.12), HavingPredicates::applied(self.0, base))
    }

    fn apply(self, base: Base) -> (chain: Self::Output) {
        HavingPredicates::apply((self.1, self.2, self.3, self.4, self.5, self.6, self.7, self.8, self.9, self.10, self.11, self.12), HavingPredicates::apply(self.0, base))
    }
}

impl<'scope, Base, T0: HavingPredicates<'scope, Base>, T1, T2, T3, T4, T5, T6, T7, T8, T9, T10, T11, T12, T13> HavingPredicates<
    'scope,
    Base,
> for (T0, T1, T2, T3, T4, T5, T6, T7, T8, T9, T10, T11, T12, T13) where
    (T1, T2, T3, T4, T5, T6, T7, T8, T9, T10, T11, T12, T13): HavingPredicates<'scope, <T0 as HavingPredicates<'scope, Base>>::Output>,
 {
    type Output = <(T1, T2, T3, T4, T5, T6, T7, T8, T9, T10, T11, T12, T13) as HavingPredicates<
        'scope,
        <T0 as HavingPredicates<'scope, Base>>::Output,
    >>::Output;

    open spec fn applied(self, base: Base) -> Self::Output {
        HavingPredicates::applied((self.1, self.2, self.3, self.4, self.5, self.6, self.7, self.8, self.9, self.10, self.11, self.12, self.13), HavingPredicates::applied(self.0, base))
    }

    fn apply(self, base: Base) -> (chain: Self::Output) {
        HavingPredicates::apply((self.1, self.2, self.3, self.4, self.5, self.6, self.7, self.8, self.9, self.10, self.11, self.12, self.13), HavingPredicates::apply(self.0, base))
    }
}

impl<'scope, Base, T0: HavingPredicates<'scope, Base>, T1, T2, T3, T4, T5, T6, T7, T8, T9, T10, T11, T12, T13, T14> HavingPredicates<
    'scope,
    Base,
> for (T0, T1, T2, T3, T4, T5, T6, T7, T8, T9, T10, T11, T12, T13, T14) where
    (T1, T2, T3, T4, T5, T6, T7, T8, T9, T10, T11, T12, T13, T14): HavingPredicates<'scope, <T0 as HavingPredicates<'scope, Base>>::Output>,
 {
    type Output = <(T1, T2, T3, T4, T5, T6, T7, T8, T9, T10, T11, T12, T13, T14) as HavingPredicates<
        'scope,
        <T0 as HavingPredicates<'scope, Base>>::Output,
    >>::Output;

    open spec fn applied(self, base: Base) -> Self::Output {
        HavingPredicates::applied((self.1, self.2, self.3, self.4, self.5, self.6, self.7, self.8, self.9, self.10, self.11, self.12, self.13, self.14), HavingPredicates::applied(self.0, base))
    }

    fn apply(self, base: Base) -> (chain: Self::Output) {
        HavingPredicates::apply((self.1, self.2, self.3, self.4, self.5, self.6, self.7, self.8, self.9, self.10, self.11, self.12, self.13, self.14), HavingPredicates::apply(self.0, base))
    }
}

impl<'scope, Base, T0: HavingPredicates<'scope, Base>, T1, T2, T3, T4, T5, T6, T7, T8, T9, T10, T11, T12, T13, T14, T15> HavingPredicates<
    'scope,
    Base,
> for (T0, T1, T2, T3, T4, T5, T6, T7, T8, T9, T10, T11, T12, T13, T14, T15) where
    (T1, T2, T3, T4, T5, T6, T7, T8, T9, T10, T11, T12, T13, T14, T15): HavingPredicates<'scope, <T0 as HavingPredicates<'scope, Base>>::Output>,
 {
    type Output = <(T1, T2, T3, T4, T5, T6, T7, T8, T9, T10, T11, T12, T13, T14, T15) as HavingPredicates<
        'scope,
        <T0 as HavingPredicates<'scope, Base>>::Output,
    >>::Output;

    open spec fn applied(self, base: Base) -> Self::Output {
        HavingPredicates::applied((self.1, self.2, self.3, self.4, self.5, self.6, self.7, self.8, self.9, self.10, self.11, self.12, self.13, self.14, self.15), HavingPredicates::applied(self.0, base))
    }

    fn apply(self, base: Base) -> (chain: Self::Output) {
        HavingPredicates::apply((self.1, self.2, self.3, self.4, self.5, self.6, self.7, self.8, self.9, self.10, self.11, self.12, self.13, self.14, self.15), HavingPredicates::apply(self.0, base))
    }
}

impl<'scope, Base, T0: OrderByTerms<'scope, Base>, T1, T2, T3, T4, T5, T6, T7, T8> OrderByTerms<
    'scope,
    Base,
> for (T0, T1, T2, T3, T4, T5, T6, T7, T8) where
    (T1, T2, T3, T4, T5, T6, T7, T8): OrderByTerms<'scope, <T0 as OrderByTerms<'scope, Base>>::Output>,
 {
    type Output = <(T1, T2, T3, T4, T5, T6, T7, T8) as OrderByTerms<
        'scope,
        <T0 as OrderByTerms<'scope, Base>>::Output,
    >>::Output;

    open spec fn applied(self, base: Base) -> Self::Output {
        OrderByTerms::applied((self.1, self.2, self.3, self.4, self.5, self.6, self.7, self.8), OrderByTerms::applied(self.0, base))
    }

    fn apply(self, base: Base) -> (chain: Self::Output) {
        OrderByTerms::apply((self.1, self.2, self.3, self.4, self.5, self.6, self.7, self.8), OrderByTerms::apply(self.0, base))
    }
}

impl<'scope, Base, T0: OrderByTerms<'scope, Base>, T1, T2, T3, T4, T5, T6, T7, T8, T9> OrderByTerms<
    'scope,
    Base,
> for (T0, T1, T2, T3, T4, T5, T6, T7, T8, T9) where
    (T1, T2, T3, T4, T5, T6, T7, T8, T9): OrderByTerms<'scope, <T0 as OrderByTerms<'scope, Base>>::Output>,
 {
    type Output = <(T1, T2, T3, T4, T5, T6, T7, T8, T9) as OrderByTerms<
        'scope,
        <T0 as OrderByTerms<'scope, Base>>::Output,
    >>::Output;

    open spec fn applied(self, base: Base) -> Self::Output {
        OrderByTerms::applied((self.1, self.2, self.3, self.4, self.5, self.6, self.7, self.8, self.9), OrderByTerms::applied(self.0, base))
    }

    fn apply(self, base: Base) -> (chain: Self::Output) {
        OrderByTerms::apply((self.1, self.2, self.3, self.4, self.5, self.6, self.7, self.8, self.9), OrderByTerms::apply(self.0, base))
    }
}

impl<'scope, Base, T0: OrderByTerms<'scope, Base>, T1, T2, T3, T4, T5, T6, T7, T8, T9, T10> OrderByTerms<
    'scope,
    Base,
> for (T0, T1, T2, T3, T4, T5, T6, T7, T8, T9, T10) where
    (T1, T2, T3, T4, T5, T6, T7, T8, T9, T10): OrderByTerms<'scope, <T0 as OrderByTerms<'scope, Base>>::Output>,
 {
    type Output = <(T1, T2, T3, T4, T5, T6, T7, T8, T9, T10) as OrderByTerms<
        'scope,
        <T0 as OrderByTerms<'scope, Base>>::Output,
    >>::Output;

    open spec fn applied(self, base: Base) -> Self::Output {
        OrderByTerms::applied((self.1, self.2, self.3, self.4, self.5, self.6, self.7, self.8, self.9, self.10), OrderByTerms::applied(self.0, base))
    }

    fn apply(self, base: Base) -> (chain: Self::Output) {
        OrderByTerms::apply((self.1, self.2, self.3, self.4, self.5, self.6, self.7, self.8, self.9, self.10), OrderByTerms::apply(self.0, base))
    }
}

impl<'scope, Base, T0: OrderByTerms<'scope, Base>, T1, T2, T3, T4, T5, T6, T7, T8, T9, T10, T11> OrderByTerms<
    'scope,
    Base,
> for (T0, T1, T2, T3, T4, T5, T6, T7, T8, T9, T10, T11) where
    (T1, T2, T3, T4, T5, T6, T7, T8, T9, T10, T11): OrderByTerms<'scope, <T0 as OrderByTerms<'scope, Base>>::Output>,
 {
    type Output = <(T1, T2, T3, T4, T5, T6, T7, T8, T9, T10, T11) as OrderByTerms<
        'scope,
        <T0 as OrderByTerms<'scope, Base>>::Output,
    >>::Output;

    open spec fn applied(self, base: Base) -> Self::Output {
        OrderByTerms::applied((self.1, self.2, self.3, self.4, self.5, self.6, self.7, self.8, self.9, self.10, self.11), OrderByTerms::applied(self.0, base))
    }

    fn apply(self, base: Base) -> (chain: Self::Output) {
        OrderByTerms::apply((self.1, self.2, self.3, self.4, self.5, self.6, self.7, self.8, self.9, self.10, self.11), OrderByTerms::apply(self.0, base))
    }
}

impl<'scope, Base, T0: OrderByTerms<'scope, Base>, T1, T2, T3, T4, T5, T6, T7, T8, T9, T10, T11, T12> OrderByTerms<
    'scope,
    Base,
> for (T0, T1, T2, T3, T4, T5, T6, T7, T8, T9, T10, T11, T12) where
    (T1, T2, T3, T4, T5, T6, T7, T8, T9, T10, T11, T12): OrderByTerms<'scope, <T0 as OrderByTerms<'scope, Base>>::Output>,
 {
    type Output = <(T1, T2, T3, T4, T5, T6, T7, T8, T9, T10, T11, T12) as OrderByTerms<
        'scope,
        <T0 as OrderByTerms<'scope, Base>>::Output,
    >>::Output;

    open spec fn applied(self, base: Base) -> Self::Output {
        OrderByTerms::applied((self.1, self.2, self.3, self.4, self.5, self.6, self.7, self.8, self.9, self.10, self.11, self.12), OrderByTerms::applied(self.0, base))
    }

    fn apply(self, base: Base) -> (chain: Self::Output) {
        OrderByTerms::apply((self.1, self.2, self.3, self.4, self.5, self.6, self.7, self.8, self.9, self.10, self.11, self.12), OrderByTerms::apply(self.0, base))
    }
}

impl<'scope, Base, T0: OrderByTerms<'scope, Base>, T1, T2, T3, T4, T5, T6, T7, T8, T9, T10, T11, T12, T13> OrderByTerms<
    'scope,
    Base,
> for (T0, T1, T2, T3, T4, T5, T6, T7, T8, T9, T10, T11, T12, T13) where
    (T1, T2, T3, T4, T5, T6, T7, T8, T9, T10, T11, T12, T13): OrderByTerms<'scope, <T0 as OrderByTerms<'scope, Base>>::Output>,
 {
    type Output = <(T1, T2, T3, T4, T5, T6, T7, T8, T9, T10, T11, T12, T13) as OrderByTerms<
        'scope,
        <T0 as OrderByTerms<'scope, Base>>::Output,
    >>::Output;

    open spec fn applied(self, base: Base) -> Self::Output {
        OrderByTerms::applied((self.1, self.2, self.3, self.4, self.5, self.6, self.7, self.8, self.9, self.10, self.11, self.12, self.13), OrderByTerms::applied(self.0, base))
    }

    fn apply(self, base: Base) -> (chain: Self::Output) {
        OrderByTerms::apply((self.1, self.2, self.3, self.4, self.5, self.6, self.7, self.8, self.9, self.10, self.11, self.12, self.13), OrderByTerms::apply(self.0, base))
    }
}

impl<'scope, Base, T0: OrderByTerms<'scope, Base>, T1, T2, T3, T4, T5, T6, T7, T8, T9, T10, T11, T12, T13, T14> OrderByTerms<
    'scope,
    Base,
> for (T0, T1, T2, T3, T4, T5, T6, T7, T8, T9, T10, T11, T12, T13, T14) where
    (T1, T2, T3, T4, T5, T6, T7, T8, T9, T10, T11, T12, T13, T14): OrderByTerms<'scope, <T0 as OrderByTerms<'scope, Base>>::Output>,
 {
    type Output = <(T1, T2, T3, T4, T5, T6, T7, T8, T9, T10, T11, T12, T13, T14) as OrderByTerms<
        'scope,
        <T0 as OrderByTerms<'scope, Base>>::Output,
    >>::Output;

    open spec fn applied(self, base: Base) -> Self::Output {
        OrderByTerms::applied((self.1, self.2, self.3, self.4, self.5, self.6, self.7, self.8, self.9, self.10, self.11, self.12, self.13, self.14), OrderByTerms::applied(self.0, base))
    }

    fn apply(self, base: Base) -> (chain: Self::Output) {
        OrderByTerms::apply((self.1, self.2, self.3, self.4, self.5, self.6, self.7, self.8, self.9, self.10, self.11, self.12, self.13, self.14), OrderByTerms::apply(self.0, base))
    }
}

impl<'scope, Base, T0: OrderByTerms<'scope, Base>, T1, T2, T3, T4, T5, T6, T7, T8, T9, T10, T11, T12, T13, T14, T15> OrderByTerms<
    'scope,
    Base,
> for (T0, T1, T2, T3, T4, T5, T6, T7, T8, T9, T10, T11, T12, T13, T14, T15) where
    (T1, T2, T3, T4, T5, T6, T7, T8, T9, T10, T11, T12, T13, T14, T15): OrderByTerms<'scope, <T0 as OrderByTerms<'scope, Base>>::Output>,
 {
    type Output = <(T1, T2, T3, T4, T5, T6, T7, T8, T9, T10, T11, T12, T13, T14, T15) as OrderByTerms<
        'scope,
        <T0 as OrderByTerms<'scope, Base>>::Output,
    >>::Output;

    open spec fn applied(self, base: Base) -> Self::Output {
        OrderByTerms::applied((self.1, self.2, self.3, self.4, self.5, self.6, self.7, self.8, self.9, self.10, self.11, self.12, self.13, self.14, self.15), OrderByTerms::applied(self.0, base))
    }

    fn apply(self, base: Base) -> (chain: Self::Output) {
        OrderByTerms::apply((self.1, self.2, self.3, self.4, self.5, self.6, self.7, self.8, self.9, self.10, self.11, self.12, self.13, self.14, self.15), OrderByTerms::apply(self.0, base))
    }
}

} // verus!
