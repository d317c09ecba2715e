//! What holds of queries however they are built.
use crate::backend::{Backend, Bound};
use crate::chain;
use crate::chain::List;
use crate::connection::QueryBuilder;
use crate::dialect::Dialect;
use crate::grammar;
use crate::list::{HList, ToTuple};
use crate::ops;
use crate::ops::SourceAlias;
use crate::projection::{QuerySource, RenderProjectable, TableProjection};
use crate::query::assign::RenderInsertRows;
use crate::query::chain::Subqueries;
use crate::query::chain as steps;
use crate::query::select;
use crate::query::select::{ChainShape, FromChain, RenderSelectAst, RootExprs};
use crate::query::source::{RenderSourceSpec, RootSource};
use crate::query::statement::InsertStatement;
use crate::tokens;
use crate::tree::{AssignmentTree, ExprTree, OrderTree, PredicateTree, ProjectionTree, SelectTree, SourceTree};
use vstd::prelude::*;

verus! {

broadcast use crate::tokens::group_tokens;

/// Clauses of different kinds can be added in any order: the query is the same.
pub proof fn law_clauses_commute<L>(
    select: SelectTree<L>,
    source: SourceTree<L>,
    filter: PredicateTree<L>,
    group: ExprTree<L>,
    having: PredicateTree<L>,
    order: OrderTree<L>,
)
    ensures
        select::with_filter(select::with_source(select, source), filter) == select::with_source(
            select::with_filter(select, filter),
            source,
        ),
        select::with_group(select::with_source(select, source), group) == select::with_source(
            select::with_group(select, group),
            source,
        ),
        select::with_having(select::with_source(select, source), having) == select::with_source(
            select::with_having(select, having),
            source,
        ),
        select::with_order(select::with_source(select, source), order) == select::with_source(
            select::with_order(select, order),
            source,
        ),
        select::with_group(select::with_filter(select, filter), group) == select::with_filter(
            select::with_group(select, group),
            filter,
        ),
        select::with_having(select::with_filter(select, filter), having) == select::with_filter(
            select::with_having(select, having),
            filter,
        ),
        select::with_order(select::with_filter(select, filter), order) == select::with_filter(
            select::with_order(select, order),
            filter,
        ),
        select::with_having(select::with_group(select, group), having) == select::with_group(
            select::with_having(select, having),
            group,
        ),
        select::with_order(select::with_group(select, group), order) == select::with_group(
            select::with_order(select, order),
            group,
        ),
        select::with_order(select::with_having(select, having), order) == select::with_having(
            select::with_order(select, order),
            having,
        ),
{
}

/// Bounds and `DISTINCT` can be set before or after any clause.
pub proof fn law_bounds_commute<L>(
    select: SelectTree<L>,
    source: SourceTree<L>,
    filter: PredicateTree<L>,
    group: ExprTree<L>,
    having: PredicateTree<L>,
    order: OrderTree<L>,
    limit: usize,
    offset: usize,
)
    ensures
        select::with_limit(select::with_source(select, source), limit) == select::with_source(
            select::with_limit(select, limit),
            source,
        ),
        select::with_limit(select::with_filter(select, filter), limit) == select::with_filter(
            select::with_limit(select, limit),
            filter,
        ),
        select::with_limit(select::with_group(select, group), limit) == select::with_group(
            select::with_limit(select, limit),
            group,
        ),
        select::with_limit(select::with_having(select, having), limit) == select::with_having(
            select::with_limit(select, limit),
            having,
        ),
        select::with_limit(select::with_order(select, order), limit) == select::with_order(
            select::with_limit(select, limit),
            order,
        ),
        select::with_offset(select::with_source(select, source), offset) == select::with_source(
            select::with_offset(select, offset),
            source,
        ),
        select::with_offset(select::with_filter(select, filter), offset) == select::with_filter(
            select::with_offset(select, offset),
            filter,
        ),
        select::with_offset(select::with_group(select, group), offset) == select::with_group(
            select::with_offset(select, offset),
            group,
        ),
        select::with_offset(select::with_having(select, having), offset) == select::with_having(
            select::with_offset(select, offset),
            having,
        ),
        select::with_offset(select::with_order(select, order), offset) == select::with_order(
            select::with_offset(select, offset),
            order,
        ),
        select::with_offset(select::with_limit(select, limit), offset) == select::with_limit(
            select::with_offset(select, offset),
            limit,
        ),
        select::with_distinct(select::with_source(select, source), true) == select::with_source(
            select::with_distinct(select, true),
            source,
        ),
        select::with_distinct(select::with_filter(select, filter), true) == select::with_filter(
            select::with_distinct(select, true),
            filter,
        ),
        select::with_distinct(select::with_group(select, group), true) == select::with_group(
            select::with_distinct(select, true),
            group,
        ),
        select::with_distinct(select::with_having(select, having), true) == select::with_having(
            select::with_distinct(select, true),
            having,
        ),
        select::with_distinct(select::with_order(select, order), true) == select::with_order(
            select::with_distinct(select, true),
            order,
        ),
        select::with_distinct(select::with_limit(select, limit), true) == select::with_limit(
            select::with_distinct(select, true),
            limit,
        ),
        select::with_distinct(select::with_offset(select, offset), true) == select::with_offset(
            select::with_distinct(select, true),
            offset,
        ),
{
}

/// A later bound replaces an earlier one, and `DISTINCT` twice is `DISTINCT` once.
pub proof fn law_later_bound_wins<L>(select: SelectTree<L>, earlier: usize, later: usize)
    ensures
        select::with_limit(select::with_limit(select, earlier), later) == select::with_limit(select, later),
        select::with_offset(select::with_offset(select, earlier), later) == select::with_offset(select, later),
        select::with_distinct(select::with_distinct(select, true), true) == select::with_distinct(select, true),
{
}

/// Within a clause, what is added later stands later.
pub proof fn law_clause_keeps_order<L>(
    select: SelectTree<L>,
    filter: PredicateTree<L>,
    group: ExprTree<L>,
    having: PredicateTree<L>,
    order: OrderTree<L>,
)
    ensures
        select::with_filter(select, filter).filters.seq() == select.filters.seq().push(filter),
        select::with_group(select, group).groups.seq() == select.groups.seq().push(group),
        select::with_having(select, having).havings.seq() == select.havings.seq().push(having),
        select::with_order(select, order).orders.seq() == select.orders.seq().push(order),
{
    chain::lemma_with(select.filters, filter);
    chain::lemma_with(select.groups, group);
    chain::lemma_with(select.havings, having);
    chain::lemma_with(select.orders, order);
}

/// A step changes its own part of the query and nothing else.
pub proof fn law_step_changes_only_its_part<L>(
    select: SelectTree<L>,
    source: SourceTree<L>,
    filter: PredicateTree<L>,
    group: ExprTree<L>,
    having: PredicateTree<L>,
    order: OrderTree<L>,
    rows: usize,
    distinct: bool,
    projection: List<ProjectionTree<L>>,
)
    ensures
        select::with_source(select, source) == (SelectTree {
            sources: select.sources.with(source),
            ..select
        }),
        select::with_filter(select, filter) == (SelectTree {
            filters: select.filters.with(filter),
            ..select
        }),
        select::with_group(select, group) == (SelectTree {
            groups: select.groups.with(group),
            ..select
        }),
        select::with_having(select, having) == (SelectTree {
            havings: select.havings.with(having),
            ..select
        }),
        select::with_order(select, order) == (SelectTree {
            orders: select.orders.with(order),
            ..select
        }),
        select::with_limit(select, rows) == (SelectTree { limit: Some(rows), ..select }),
        select::with_offset(select, rows) == (SelectTree { offset: Some(rows), ..select }),
        select::with_distinct(select, distinct) == (SelectTree { distinct, ..select }),
        select::with_projection(select, projection) == (SelectTree { projection, ..select }),
{
}

/// Whether the sources are numbered from zero, all at the same depth.
pub open spec fn numbered<L>(sources: Seq<SourceTree<L>>, depth: usize) -> bool {
    forall|i: int|
        0 <= i < sources.len() ==> (#[trigger] sources[i]).alias.depth == depth
            && sources[i].alias.index == i
}

/// The first source of a query has the number zero.
pub proof fn law_root_is_numbered<
    'conn,
    'scope,
    Conn: QueryBuilder + 'conn,
    S: QuerySource,
    B: Backend,
>(connection: &'conn Conn, depth: usize)
    ensures
        numbered(root_body::<Conn, S, B>(connection, depth).sources.seq(), depth),
{
    let chain = select::root_chain::<Conn, S>(connection, depth);
    let root = <RootSource<S> as RenderSourceSpec<B>>::source_tree(&chain.source);
    chain::lemma_with(List::Nil, root);
    assert(List::<SourceTree<Bound<B>>>::Nil.seq().len() == 0);
}

/// The query that starts from `S`.
pub open spec fn root_body<'conn, 'scope, Conn: QueryBuilder + 'conn, S: QuerySource, B: Backend>(
    connection: &'conn Conn,
    depth: usize,
) -> SelectTree<Bound<B>> {
    <FromChain<'conn, 'scope, Conn, RootExprs<'scope, S>, RootSource<S>> as RenderSelectAst<
        'conn,
        'scope,
        Conn,
        B,
    >>::body(&select::root_chain::<Conn, S>(connection, depth))
}

/// A source that a join adds under the next alias continues the numbering, and its alias is spelled
/// unlike those of the sources before it.
pub proof fn law_joined_source_is_fresh<
    'conn,
    'scope,
    Conn: QueryBuilder + 'conn,
    Base: RenderSelectAst<'conn, 'scope, Conn, B>,
    B: Backend,
>(base: Base, source: SourceTree<Bound<B>>, i: int)
    requires
        numbered(base.body().sources.seq(), base.nesting()),
        source.alias == steps::next_alias::<Conn, Base>(base),
        0 <= i < base.body().sources.seq().len(),
    ensures
        numbered(select::with_source(base.body(), source).sources.seq(), base.nesting()),
        base.body().sources.seq()[i].alias.text() != source.alias.text(),
{
    base.lemma_source_count();
    <<Base as ChainShape>::Exprs as ToTuple>::lemma_arity();
    chain::lemma_with(base.body().sources, source);
    if base.body().sources.seq()[i].alias.text() == source.alias.text() {
        ops::law_alias_text_is_unique(base.body().sources.seq()[i].alias, source.alias);
    }
}

/// Sources of queries at different depths are spelled differently: a subquery never hides a source
/// of the query around it.
pub proof fn law_depths_keep_aliases_apart(a: SourceAlias, b: SourceAlias)
    requires
        a.depth != b.depth,
    ensures
        a.text() != b.text(),
{
    if a.text() == b.text() {
        ops::law_alias_text_is_unique(a, b);
    }
}

/// The subqueries of a query are nested deeper than the query, and each deeper than those that the
/// same handle has handed out before.
pub proof fn law_subqueries_nest_deeper<'conn, 'scope, Conn>(
    nesting: usize,
    first: Subqueries<'conn, 'scope, Conn>,
    second: Subqueries<'conn, 'scope, Conn>,
)
    requires
        nesting < usize::MAX,
        first.next_depth < usize::MAX,
        first == steps::subqueries_at::<Conn>(first.connection, (nesting + 1) as usize),
        second == steps::subqueries_at::<Conn>(
            first.connection,
            (first.next_depth + 1) as usize,
        ),
    ensures
        nesting < first.next_depth < second.next_depth,
{
}

/// Rows that all assign as many columns as they should are all written.
proof fn lemma_agreeing_rows<L>(count: nat, rows: List<List<AssignmentTree<L>>>)
    requires
        grammar::rows_agree(count, rows),
    ensures
        grammar::agreeing_rows(count, rows) == rows,
    decreases rows,
{
    match rows {
        List::Nil => {},
        List::Cons { head, tail } => {
            lemma_agreeing_rows(count, *tail);
        },
    }
}

/// An `INSERT` whose rows assign the same columns is written with the runtime parameters of its rows
/// and of what it returns, and no others.
pub proof fn law_insert_params<
    'conn,
    Conn,
    S: TableProjection,
    Rows: RenderInsertRows<B>,
    Returning: RenderProjectable<B>,
    B: Backend,
    D: Dialect,
>(statement: InsertStatement<'conn, Conn, S, Rows, Returning>, dialect: D)
    requires
        statement.uniform(),
    ensures
        tokens::runtimes(grammar::insert_tokens(dialect, statement.insert_tree::<B>()))
            == <Rows::Params as HList>::width() + <Returning::Params as HList>::width(),
{
    let tree = statement.insert_tree::<B>();
    statement.law_uniform_rows_agree::<B>();
    statement.rows.lemma_rows_params(dialect, true);
    statement.returning.lemma_projection_params(dialect, true, " RETURNING "@);
    lemma_agreeing_rows(grammar::insert_columns(tree.rows).seq().len(), tree.rows);
    if grammar::is_default_row(tree.rows) {
        let row = List::<AssignmentTree<Bound<B>>>::Nil;
        assert(grammar::row_values_tokens(dialect, true, row) == Seq::<
            tokens::Token<Bound<B>>,
        >::empty());
        let none = List::<List<AssignmentTree<Bound<B>>>>::Nil;
        assert(grammar::rows_tokens(dialect, false, none) == Seq::<
            tokens::Token<Bound<B>>,
        >::empty());
        assert(tokens::runtimes(grammar::rows_tokens(dialect, true, tree.rows)) == 0);
    }
}

} // verus!
