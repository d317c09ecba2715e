//! What each step of a select chain adds to its query.
use crate::backend::Backend;
use crate::chain;
use crate::connection::QueryBuilder;
use crate::expr::ast::RenderAst;
use crate::expr::class::{
    AstProjectionClass, ExtendOrderClass, HavingTransition, PredicateColumns,
};
use crate::expr::kind::PredicateKind;
use crate::expr::predicate::RenderPredicateAst;
use crate::label::Duplicate;
use crate::list::{HCons, HNil, NullableSources, PushBack, ToTuple};
use crate::projection;
use crate::projection::QuerySource;
use crate::query::clause::{AddFilters, AddGroups, AddHavings, AddOrders, AddSources};
use crate::query::select::{
    Distinct, FromChain, GroupBy, Having, Join, LeftJoin, Limited, NoSources, Offset, OrderBy,
    OuterJoin, RenderSelectAst, RenderSourcedAst, Where,
};
use crate::query::source::{RenderSourceSpec, RootSource};
use crate::tree::{OrderTree, SelectTree};
use vstd::prelude::*;

verus! {

/// A chain starts without any clause.
pub proof fn law_empty_step<
    'conn, 'scope, Conn: QueryBuilder + 'conn, B: Backend,
>(step: NoSources<'conn, Conn>)
    ensures
        ({
            let select = <NoSources<'conn, Conn> as RenderSelectAst<'conn, 'scope, Conn, B>>::body(&step);
            &&& select.sources.seq().len() == 0
            &&& select.projection.seq().len() == 0
            &&& select.filters.seq().len() == 0
            &&& select.groups.seq().len() == 0
            &&& select.havings.seq().len() == 0
            &&& select.orders.seq().len() == 0
            &&& !select.distinct
            &&& select.limit is None
            &&& select.offset is None
            &&& select.row_lock is None
        }),
{
}

/// A chain with a root has that source and no other clause.
pub proof fn law_from_step<
    'conn,
    'scope,
    Conn: QueryBuilder + 'conn,
    Columns: Duplicate,
    S: QuerySource,
    B: Backend,
>(step: FromChain<'conn, 'scope, Conn, HCons<Columns, HNil>, RootSource<S>>)
    ensures
        ({
            let select = <FromChain<'conn, 'scope, Conn, HCons<Columns, HNil>, RootSource<S>> as RenderSelectAst<'conn, 'scope, Conn, B>>::body(&step);
            &&& select.sources.seq().len() == 1
            &&& select.sources.seq()[0].alias == step.source.alias
            &&& select.sources.seq()[0].table == projection::table_of::<S>()
            &&& select.sources.seq()[0].join is Table
            &&& select.projection.seq().len() == 0
            &&& select.filters.seq().len() == 0
            &&& select.groups.seq().len() == 0
            &&& select.havings.seq().len() == 0
            &&& select.orders.seq().len() == 0
            &&& !select.distinct
            &&& select.limit is None
            &&& select.offset is None
            &&& select.row_lock is None
        }),
{
    chain::lemma_with(
        crate::chain::List::Nil,
        <RootSource<S> as RenderSourceSpec<B>>::source_tree(&step.source),
    );
}

/// A condition restricts the rows behind the conditions before it, and changes nothing else.
pub proof fn law_where_step<
    'conn,
    'scope,
    Conn: QueryBuilder + 'conn,
    Base: RenderSelectAst<'conn, 'scope, Conn, B>,
    P: PredicateKind,
    Ast: RenderPredicateAst<B>,
    B: Backend,
>(step: Where<'scope, Base, P, Ast>) where
    Base::Clauses: AddFilters<Ast::Params>,

    ensures
        ({
            let before = RenderSelectAst::<'conn, 'scope, Conn, B>::body(&step.base);
            let after = <Where<'scope, Base, P, Ast> as RenderSelectAst<'conn, 'scope, Conn, B>>::body(&step);
            &&& after.filters.seq() == before.filters.seq().push(step.predicate.ast.condition())
            &&& after == (SelectTree { filters: after.filters, ..before })
        }),
{
    chain::lemma_with(RenderSelectAst::<'conn, 'scope, Conn, B>::body(&step.base).filters, step.predicate.ast.condition());
}

/// A term orders the rows behind the terms before it, in its own direction, and changes nothing else.
pub proof fn law_order_by_step<
    'conn,
    'scope,
    Conn: QueryBuilder + 'conn,
    Base: RenderSelectAst<'conn, 'scope, Conn, B>,
    K,
    Ast: RenderAst<B> + AstProjectionClass,
    B: Backend,
>(step: OrderBy<'scope, Base, K, Ast>) where
    Base::Clauses: AddOrders<Ast::Params>,
    Base::OrderClass: ExtendOrderClass<<Ast as AstProjectionClass>::Class>,

    ensures
        ({
            let before = RenderSelectAst::<'conn, 'scope, Conn, B>::body(&step.base);
            let after = <OrderBy<'scope, Base, K, Ast> as RenderSelectAst<'conn, 'scope, Conn, B>>::body(&step);
            &&& after.orders.seq() == before.orders.seq().push(OrderTree { expr: step.order.ast.tree(), direction: step.order.direction, nulls: None })
            &&& after == (SelectTree { orders: after.orders, ..before })
        }),
{
    chain::lemma_with(RenderSelectAst::<'conn, 'scope, Conn, B>::body(&step.base).orders, OrderTree { expr: step.order.ast.tree(), direction: step.order.direction, nulls: None });
}

/// A key groups the rows behind the keys before it, and changes nothing else.
pub proof fn law_group_by_step<
    'conn,
    'scope,
    Conn: QueryBuilder + 'conn,
    Base: RenderSelectAst<'conn, 'scope, Conn, B>,
    K,
    Ast: RenderAst<B>,
    B: Backend,
>(step: GroupBy<'scope, Base, K, Ast>) where
    Base::Clauses: AddGroups<Ast::Params>,

    ensures
        ({
            let before = RenderSelectAst::<'conn, 'scope, Conn, B>::body(&step.base);
            let after = <GroupBy<'scope, Base, K, Ast> as RenderSelectAst<'conn, 'scope, Conn, B>>::body(&step);
            &&& after.groups.seq() == before.groups.seq().push(step.key.ast.tree())
            &&& after == (SelectTree { groups: after.groups, ..before })
        }),
{
    chain::lemma_with(RenderSelectAst::<'conn, 'scope, Conn, B>::body(&step.base).groups, step.key.ast.tree());
}

/// A condition restricts the groups behind the conditions before it, and changes nothing else.
pub proof fn law_having_step<
    'conn,
    'scope,
    Conn: QueryBuilder + 'conn,
    Base: RenderSelectAst<'conn, 'scope, Conn, B>,
    P: PredicateKind,
    Ast: RenderPredicateAst<B> + PredicateColumns,
    B: Backend,
>(step: Having<'scope, Base, P, Ast>) where
    Base::Clauses: AddHavings<Ast::Params>,
    Base::Grouped: HavingTransition<<Ast as PredicateColumns>::Columns>,

    ensures
        ({
            let before = RenderSelectAst::<'conn, 'scope, Conn, B>::body(&step.base);
            let after = <Having<'scope, Base, P, Ast> as RenderSelectAst<'conn, 'scope, Conn, B>>::body(&step);
            &&& after.havings.seq() == before.havings.seq().push(step.predicate.ast.condition())
            &&& after == (SelectTree { havings: after.havings, ..before })
        }),
{
    chain::lemma_with(RenderSelectAst::<'conn, 'scope, Conn, B>::body(&step.base).havings, step.predicate.ast.condition());
}

/// A limit bounds the rows and changes nothing else.
pub proof fn law_limit_step<
    'conn,
    'scope,
    Conn: QueryBuilder + 'conn,
    Base: RenderSelectAst<'conn, 'scope, Conn, B>,
    B: Backend,
>(step: Limited<Base>)
    ensures
        ({
            let before = RenderSelectAst::<'conn, 'scope, Conn, B>::body(&step.base);
            let after = <Limited<Base> as RenderSelectAst<'conn, 'scope, Conn, B>>::body(&step);
            &&& after.limit == Some(step.rows)
            &&& after == (SelectTree { limit: after.limit, ..before })
        }),
{
}

/// An offset skips rows and changes nothing else.
pub proof fn law_offset_step<
    'conn,
    'scope,
    Conn: QueryBuilder + 'conn,
    Base: RenderSelectAst<'conn, 'scope, Conn, B>,
    B: Backend,
>(step: Offset<Base>)
    ensures
        ({
            let before = RenderSelectAst::<'conn, 'scope, Conn, B>::body(&step.base);
            let after = <Offset<Base> as RenderSelectAst<'conn, 'scope, Conn, B>>::body(&step);
            &&& after.offset == Some(step.rows)
            &&& after == (SelectTree { offset: after.offset, ..before })
        }),
{
}

/// `DISTINCT` makes the rows distinct and changes nothing else.
pub proof fn law_distinct_step<
    'conn,
    'scope,
    Conn: QueryBuilder + 'conn,
    Base: RenderSelectAst<'conn, 'scope, Conn, B>,
    B: Backend,
>(step: Distinct<Base>)
    ensures
        ({
            let before = RenderSelectAst::<'conn, 'scope, Conn, B>::body(&step.base);
            let after = <Distinct<Base> as RenderSelectAst<'conn, 'scope, Conn, B>>::body(&step);
            &&& after.distinct == true
            &&& after == (SelectTree { distinct: after.distinct, ..before })
        }),
{
}

/// A joined source stands behind the sources before it, and nothing else changes.
pub proof fn law_join_step<
    'conn,
    'scope,
    Conn: QueryBuilder + 'conn,
    Base: RenderSourcedAst<'conn, 'scope, Conn, B>,
    Columns: Duplicate,
    Source: RenderSourceSpec<B>,
    B: Backend,
>(step: Join<Base, Columns, Source>) where
    Base::Clauses: AddSources<Source::Params>,
    Base::Exprs: PushBack<Columns>,
    <Base::Exprs as PushBack<Columns>>::Output: Duplicate + ToTuple,

    ensures
        ({
            let before = RenderSelectAst::<'conn, 'scope, Conn, B>::body(&step.base);
            let after = <Join<Base, Columns, Source> as RenderSelectAst<'conn, 'scope, Conn, B>>::body(&step);
            &&& after.sources.seq() == before.sources.seq().push(step.source.source_tree())
            &&& after == (SelectTree { sources: after.sources, ..before })
        }),
{
    chain::lemma_with(RenderSelectAst::<'conn, 'scope, Conn, B>::body(&step.base).sources, step.source.source_tree());
}

/// A left-joined source stands behind the sources before it, and nothing else changes.
pub proof fn law_left_join_step<
    'conn,
    'scope,
    Conn: QueryBuilder + 'conn,
    Base: RenderSourcedAst<'conn, 'scope, Conn, B>,
    Columns: Duplicate,
    Source: RenderSourceSpec<B>,
    B: Backend,
>(step: LeftJoin<Base, Columns, Source>) where
    Base::Clauses: AddSources<Source::Params>,
    Base::Exprs: PushBack<Columns>,
    <Base::Exprs as PushBack<Columns>>::Output: Duplicate + ToTuple,

    ensures
        ({
            let before = RenderSelectAst::<'conn, 'scope, Conn, B>::body(&step.base);
            let after = <LeftJoin<Base, Columns, Source> as RenderSelectAst<'conn, 'scope, Conn, B>>::body(&step);
            &&& after.sources.seq() == before.sources.seq().push(step.source.source_tree())
            &&& after == (SelectTree { sources: after.sources, ..before })
        }),
{
    chain::lemma_with(RenderSelectAst::<'conn, 'scope, Conn, B>::body(&step.base).sources, step.source.source_tree());
}

/// An outer-joined source stands behind the sources before it, and nothing else changes.
pub proof fn law_outer_join_step<
    'conn,
    'scope,
    Conn: QueryBuilder + 'conn,
    Base: RenderSourcedAst<'conn, 'scope, Conn, B>,
    Columns: Duplicate,
    Source: RenderSourceSpec<B>,
    B: Backend,
>(step: OuterJoin<Base, Columns, Source>) where
    Base::Clauses: AddSources<Source::Params>,
    Base::Exprs: NullableSources,
    <Base::Exprs as NullableSources>::Output: PushBack<Columns>,
    <<Base::Exprs as NullableSources>::Output as PushBack<Columns>>::Output: Duplicate + ToTuple,

    ensures
        ({
            let before = RenderSelectAst::<'conn, 'scope, Conn, B>::body(&step.base);
            let after = <OuterJoin<Base, Columns, Source> as RenderSelectAst<'conn, 'scope, Conn, B>>::body(&step);
            &&& after.sources.seq() == before.sources.seq().push(step.source.source_tree())
            &&& after == (SelectTree { sources: after.sources, ..before })
        }),
{
    chain::lemma_with(RenderSelectAst::<'conn, 'scope, Conn, B>::body(&step.base).sources, step.source.source_tree());
}

} // verus!
