//! The runtime parameters of a select chain, clause by clause.
use crate::list::{HAppend, HList};
use vstd::prelude::*;

verus! {

/// The parameter shapes of the five clauses of a chain that can hold parameters: its sources, its
/// `WHERE`, its `GROUP BY`, its `HAVING` and its `ORDER BY`.
pub trait ClauseParams: Sized {
    /// How many runtime parameters the sources hold.
    spec fn sources() -> nat;

    spec fn filters() -> nat;

    spec fn groups() -> nat;

    spec fn havings() -> nat;

    spec fn orders() -> nat;
}

impl<Sources: HList, Filters: HList, Groups: HList, Havings: HList, Orders: HList> ClauseParams for (
    Sources,
    Filters,
    Groups,
    Havings,
    Orders,
) {
    open spec fn sources() -> nat {
        Sources::width()
    }

    open spec fn filters() -> nat {
        Filters::width()
    }

    open spec fn groups() -> nat {
        Groups::width()
    }

    open spec fn havings() -> nat {
        Havings::width()
    }

    open spec fn orders() -> nat {
        Orders::width()
    }
}

/// Joins the parameter shapes of the clauses in the order in which the clauses are written, which
/// is not the order in which a chain may add them.
pub trait RenderOrderedParams: ClauseParams {
    type Params: HList;

    /// No parameter is lost between the clauses and the whole.
    proof fn lemma_ordered_width()
        ensures
            <Self::Params as HList>::width() == Self::sources() + Self::filters() + Self::groups()
                + Self::havings() + Self::orders(),
    ;
}

impl<
    Sources: HList + HAppend<Filters>,
    Filters: HList,
    Groups: HList,
    Havings: HList,
    Orders: HList,
> RenderOrderedParams for (Sources, Filters, Groups, Havings, Orders) where
    <Sources as HAppend<Filters>>::Output: HAppend<Groups>,
    <<Sources as HAppend<Filters>>::Output as HAppend<Groups>>::Output: HAppend<Havings>,
    <<<Sources as HAppend<Filters>>::Output as HAppend<Groups>>::Output as HAppend<
        Havings,
    >>::Output: HAppend<Orders>,
 {
    type Params = <<<<Sources as HAppend<Filters>>::Output as HAppend<
        Groups,
    >>::Output as HAppend<Havings>>::Output as HAppend<Orders>>::Output;

    proof fn lemma_ordered_width() {
        <Sources as HAppend<Filters>>::lemma_append_width();
        <<Sources as HAppend<Filters>>::Output as HAppend<Groups>>::lemma_append_width();
        <<<Sources as HAppend<Filters>>::Output as HAppend<Groups>>::Output as HAppend<
            Havings,
        >>::lemma_append_width();
        <<<<Sources as HAppend<Filters>>::Output as HAppend<Groups>>::Output as HAppend<
            Havings,
        >>::Output as HAppend<Orders>>::lemma_append_width();
    }
}

/// The parameter shapes after the sources have got the parameters of `More` at the end.
pub trait AddSources<More: HList>: ClauseParams {
    type Output: RenderOrderedParams;

    proof fn lemma_added()
        ensures
            <Self::Output as ClauseParams>::sources() == Self::sources() + More::width(),
            <Self::Output as ClauseParams>::filters() == Self::filters(),
            <Self::Output as ClauseParams>::groups() == Self::groups(),
            <Self::Output as ClauseParams>::havings() == Self::havings(),
            <Self::Output as ClauseParams>::orders() == Self::orders(),
    ;
}

impl<
    More: HList,
    Sources: HList + HAppend<More>,
    Filters: HList,
    Groups: HList,
    Havings: HList,
    Orders: HList,
> AddSources<More> for (Sources, Filters, Groups, Havings, Orders) where
    (
        <Sources as HAppend<More>>::Output,
        Filters,
        Groups,
        Havings,
        Orders,
    ): RenderOrderedParams,
 {
    type Output = (
        <Sources as HAppend<More>>::Output,
        Filters,
        Groups,
        Havings,
        Orders,
    );

    proof fn lemma_added() {
        <Sources as HAppend<More>>::lemma_append_width();
    }
}

/// The parameter shapes after the `WHERE` clause has got the parameters of `More` at the end.
pub trait AddFilters<More: HList>: ClauseParams {
    type Output: RenderOrderedParams;

    proof fn lemma_added()
        ensures
            <Self::Output as ClauseParams>::sources() == Self::sources(),
            <Self::Output as ClauseParams>::filters() == Self::filters() + More::width(),
            <Self::Output as ClauseParams>::groups() == Self::groups(),
            <Self::Output as ClauseParams>::havings() == Self::havings(),
            <Self::Output as ClauseParams>::orders() == Self::orders(),
    ;
}

impl<
    More: HList,
    Sources: HList,
    Filters: HList + HAppend<More>,
    Groups: HList,
    Havings: HList,
    Orders: HList,
> AddFilters<More> for (Sources, Filters, Groups, Havings, Orders) where
    (
        Sources,
        <Filters as HAppend<More>>::Output,
        Groups,
        Havings,
        Orders,
    ): RenderOrderedParams,
 {
    type Output = (
        Sources,
        <Filters as HAppend<More>>::Output,
        Groups,
        Havings,
        Orders,
    );

    proof fn lemma_added() {
        <Filters as HAppend<More>>::lemma_append_width();
    }
}

/// The parameter shapes after the `GROUP BY` clause has got the parameters of `More` at the end.
pub trait AddGroups<More: HList>: ClauseParams {
    type Output: RenderOrderedParams;

    proof fn lemma_added()
        ensures
            <Self::Output as ClauseParams>::sources() == Self::sources(),
            <Self::Output as ClauseParams>::filters() == Self::filters(),
            <Self::Output as ClauseParams>::groups() == Self::groups() + More::width(),
            <Self::Output as ClauseParams>::havings() == Self::havings(),
            <Self::Output as ClauseParams>::orders() == Self::orders(),
    ;
}

impl<
    More: HList,
    Sources: HList,
    Filters: HList,
    Groups: HList + HAppend<More>,
    Havings: HList,
    Orders: HList,
> AddGroups<More> for (Sources, Filters, Groups, Havings, Orders) where
    (
        Sources,
        Filters,
        <Groups as HAppend<More>>::Output,
        Havings,
        Orders,
    ): RenderOrderedParams,
 {
    type Output = (
        Sources,
        Filters,
        <Groups as HAppend<More>>::Output,
        Havings,
        Orders,
    );

    proof fn lemma_added() {
        <Groups as HAppend<More>>::lemma_append_width();
    }
}

/// The parameter shapes after the `HAVING` clause has got the parameters of `More` at the end.
pub trait AddHavings<More: HList>: ClauseParams {
    type Output: RenderOrderedParams;

    proof fn lemma_added()
        ensures
            <Self::Output as ClauseParams>::sources() == Self::sources(),
            <Self::Output as ClauseParams>::filters() == Self::filters(),
            <Self::Output as ClauseParams>::groups() == Self::groups(),
            <Self::Output as ClauseParams>::havings() == Self::havings() + More::width(),
            <Self::Output as ClauseParams>::orders() == Self::orders(),
    ;
}

impl<
    More: HList,
    Sources: HList,
    Filters: HList,
    Groups: HList,
    Havings: HList + HAppend<More>,
    Orders: HList,
> AddHavings<More> for (Sources, Filters, Groups, Havings, Orders) where
    (
        Sources,
        Filters,
        Groups,
        <Havings as HAppend<More>>::Output,
        Orders,
    ): RenderOrderedParams,
 {
    type Output = (
        Sources,
        Filters,
        Groups,
        <Havings as HAppend<More>>::Output,
        Orders,
    );

    proof fn lemma_added() {
        <Havings as HAppend<More>>::lemma_append_width();
    }
}

/// The parameter shapes after the `ORDER BY` clause has got the parameters of `More` at the end.
pub trait AddOrders<More: HList>: ClauseParams {
    type Output: RenderOrderedParams;

    proof fn lemma_added()
        ensures
            <Self::Output as ClauseParams>::sources() == Self::sources(),
            <Self::Output as ClauseParams>::filters() == Self::filters(),
            <Self::Output as ClauseParams>::groups() == Self::groups(),
            <Self::Output as ClauseParams>::havings() == Self::havings(),
            <Self::Output as ClauseParams>::orders() == Self::orders() + More::width(),
    ;
}

impl<
    More: HList,
    Sources: HList,
    Filters: HList,
    Groups: HList,
    Havings: HList,
    Orders: HList + HAppend<More>,
> AddOrders<More> for (Sources, Filters, Groups, Havings, Orders) where
    (
        Sources,
        Filters,
        Groups,
        Havings,
        <Orders as HAppend<More>>::Output,
    ): RenderOrderedParams,
 {
    type Output = (
        Sources,
        Filters,
        Groups,
        Havings,
        <Orders as HAppend<More>>::Output,
    );

    proof fn lemma_added() {
        <Orders as HAppend<More>>::lemma_append_width();
    }
}

} // verus!
