//! Select chains: what each builder step adds to a query.
use crate::backend::{Backend, Bound};
use crate::chain;
use crate::chain::List;
use crate::connection::QueryBuilder;
use crate::dialect::Dialect;
use crate::expr::ast::{ExprAst, RenderAst};
use crate::expr::class::{
    AstProjectionClass, ExtendOrderClass, GroupState, Grouped, HavingTransition, OrderClass,
    OrderNone, PredicateColumns, Ungrouped,
};
use crate::expr::kind::PredicateKind;
use crate::expr::predicate::{PredicateAst, RenderPredicateAst};
use crate::expr::{Expr, Order, Predicate};
use crate::grammar;
use crate::label::Duplicate;
use crate::list::{HCons, HList, HNil, NullableSources, PushBack, ToTuple};
use crate::ops::{OrderNulls, SourceAlias};
use crate::plain;
use crate::projection::{ProjectionShape, QuerySource};
use crate::query::clause::{
    AddFilters, AddGroups, AddHavings, AddOrders, AddSources, ClauseParams, RenderOrderedParams,
};
use crate::query::source::{RenderSourceSpec, RootSource, SourceSpec};
use crate::query::source;
use crate::tokens;
use crate::tree::{
    CteDef, ExprTree, NullsTree, OrderTree, PredicateTree, ProjectionTree, SelectTree, SourceTree,
};
use core::marker::PhantomData;
use vstd::prelude::*;

verus! {

broadcast use crate::tokens::group_tokens;

/// What the type of a select chain fixes: the columns of its sources, the shapes of its runtime
/// parameters, and how it is ordered and grouped.
pub trait ChainShape: Sized {
    /// The columns of the sources, one entry per source.
    type Exprs: HList + Duplicate + ToTuple;

    /// The runtime parameters in the order in which they are written.
    type Params: HList;

    /// The runtime parameters clause by clause.
    type Clauses: RenderOrderedParams;

    /// Which classes of terms the chain is ordered by.
    type OrderClass: OrderClass;

    /// Whether and how the chain is grouped.
    type Grouped: GroupState;

    /// No parameter is lost between the clauses and the whole.
    proof fn lemma_params_width()
        ensures
            <Self::Params as HList>::width() == <Self::Clauses as ClauseParams>::sources()
                + <Self::Clauses as ClauseParams>::filters()
                + <Self::Clauses as ClauseParams>::groups()
                + <Self::Clauses as ClauseParams>::havings()
                + <Self::Clauses as ClauseParams>::orders(),
    ;
}

/// A select chain: its sources and clauses.
pub trait SelectAst<'conn, 'scope, Conn: QueryBuilder + 'conn>: ChainShape {
    spec fn nesting(&self) -> usize;

    spec fn builder(&self) -> &'conn Conn;

    spec fn columns(&self) -> Self::Exprs;

    /// The common table expressions of the sources, in the order of the sources.
    spec fn chain_ctes(&self) -> Seq<CteDef>;

    /// How deep the query is nested. Its sources are named after it.
    fn depth(&self) -> (depth: usize)
        ensures
            depth == self.nesting(),
    ;

    /// The handle that the query is built against.
    fn connection(&self) -> (connection: &'conn Conn)
        ensures
            connection == self.builder(),
    ;

    /// The columns of the sources.
    fn exprs(&self) -> (exprs: Self::Exprs)
        ensures
            exprs == self.columns(),
    ;

    /// Adds the definitions that the sources need in the query's `WITH` clause.
    fn collect_ctes_into(&self, ctes: &mut Vec<CteDef>)
        ensures
            final(ctes)@ == old(ctes)@ + self.chain_ctes(),
    ;
}

/// How a select chain lowers for a backend.
pub trait RenderSelectAst<'conn, 'scope, Conn: QueryBuilder + 'conn, B: Backend>: SelectAst<
    'conn,
    'scope,
    Conn,
> {
    /// The `SELECT` that the chain describes, before anything is projected.
    spec fn body(&self) -> SelectTree<Bound<B>>;

    fn lower_body(&self) -> (select: SelectTree<Bound<B>>)
        ensures
            select == self.body(),
    ;

    /// There is one entry of columns for each source.
    proof fn lemma_source_count(&self)
        ensures
            self.body().sources.seq().len() == <Self::Exprs as HList>::width(),
    ;

    /// Each clause has one entry in its parameter shape for each runtime parameter that is written.
    proof fn lemma_clause_params<D: Dialect>(&self, dialect: D)
        ensures
            clause_params(
                dialect,
                self.body(),
                <Self::Clauses as ClauseParams>::sources(),
                <Self::Clauses as ClauseParams>::filters(),
                <Self::Clauses as ClauseParams>::groups(),
                <Self::Clauses as ClauseParams>::havings(),
                <Self::Clauses as ClauseParams>::orders(),
            ),
    ;

    /// Without entries in the parameter shapes there is no runtime parameter.
    proof fn lemma_body_plain(&self)
        requires
            <Self::Params as HList>::width() == 0,
        ensures
            plain::plain_select(self.body()),
    ;
}

/// A select chain that has a source.
pub trait RenderSourcedAst<
    'conn,
    'scope,
    Conn: QueryBuilder + 'conn,
    B: Backend,
>: RenderSelectAst<'conn, 'scope, Conn, B> {
    proof fn lemma_rooted(&self)
        ensures
            self.body().sources is Cons,
    ;
}

/// Whether the clauses of `select` are written with these numbers of runtime parameters.
pub open spec fn clause_params<D: Dialect, L>(
    dialect: D,
    select: SelectTree<L>,
    sources: nat,
    filters: nat,
    groups: nat,
    havings: nat,
    orders: nat,
) -> bool {
    &&& tokens::runtimes(grammar::source_list_tokens(dialect, true, select.sources)) == sources
    &&& tokens::runtimes(grammar::predicate_list_tokens(dialect, " WHERE "@, select.filters))
        == filters
    &&& tokens::runtimes(grammar::expr_list_tokens(dialect, false, " GROUP BY "@, select.groups))
        == groups
    &&& tokens::runtimes(grammar::predicate_list_tokens(dialect, " HAVING "@, select.havings))
        == havings
    &&& tokens::runtimes(grammar::order_list_tokens(dialect, " ORDER BY "@, select.orders))
        == orders
}

/// A `SELECT` without any clause.
pub open spec fn bare_select<L>() -> SelectTree<L> {
    SelectTree {
        distinct: false,
        projection: List::Nil,
        sources: List::Nil,
        filters: List::Nil,
        groups: List::Nil,
        havings: List::Nil,
        orders: List::Nil,
        limit: None,
        offset: None,
        row_lock: None,
    }
}

fn bare<L>() -> (select: SelectTree<L>)
    ensures
        select == bare_select::<L>(),
{
    SelectTree {
        distinct: false,
        projection: List::Nil,
        sources: List::Nil,
        filters: List::Nil,
        groups: List::Nil,
        havings: List::Nil,
        orders: List::Nil,
        limit: None,
        offset: None,
        row_lock: None,
    }
}

/// The query with another source.
pub open spec fn with_source<L>(select: SelectTree<L>, source: SourceTree<L>) -> SelectTree<L> {
    SelectTree { sources: select.sources.with(source), ..select }
}

pub(crate) fn push_source<L>(select: SelectTree<L>, source: SourceTree<L>) -> (result: SelectTree<L>)
    ensures
        result == with_source(select, source),
{
    SelectTree {
        distinct: select.distinct,
        projection: select.projection,
        sources: select.sources.push(source),
        filters: select.filters,
        groups: select.groups,
        havings: select.havings,
        orders: select.orders,
        limit: select.limit,
        offset: select.offset,
        row_lock: select.row_lock,
    }
}

/// The query with another `WHERE` condition.
pub open spec fn with_filter<L>(select: SelectTree<L>, filter: PredicateTree<L>) -> SelectTree<L> {
    SelectTree { filters: select.filters.with(filter), ..select }
}

pub(crate) fn push_filter<L>(select: SelectTree<L>, filter: PredicateTree<L>) -> (result: SelectTree<L>)
    ensures
        result == with_filter(select, filter),
{
    SelectTree {
        distinct: select.distinct,
        projection: select.projection,
        sources: select.sources,
        filters: select.filters.push(filter),
        groups: select.groups,
        havings: select.havings,
        orders: select.orders,
        limit: select.limit,
        offset: select.offset,
        row_lock: select.row_lock,
    }
}

/// The query with another `GROUP BY` key.
pub open spec fn with_group<L>(select: SelectTree<L>, group: ExprTree<L>) -> SelectTree<L> {
    SelectTree { groups: select.groups.with(group), ..select }
}

pub(crate) fn push_group<L>(select: SelectTree<L>, group: ExprTree<L>) -> (result: SelectTree<L>)
    ensures
        result == with_group(select, group),
{
    SelectTree {
        distinct: select.distinct,
        projection: select.projection,
        sources: select.sources,
        filters: select.filters,
        groups: select.groups.push(group),
        havings: select.havings,
        orders: select.orders,
        limit: select.limit,
        offset: select.offset,
        row_lock: select.row_lock,
    }
}

/// The query with another `HAVING` condition.
pub open spec fn with_having<L>(select: SelectTree<L>, having: PredicateTree<L>) -> SelectTree<L> {
    SelectTree { havings: select.havings.with(having), ..select }
}

pub(crate) fn push_having<L>(select: SelectTree<L>, having: PredicateTree<L>) -> (result: SelectTree<L>)
    ensures
        result == with_having(select, having),
{
    SelectTree {
        distinct: select.distinct,
        projection: select.projection,
        sources: select.sources,
        filters: select.filters,
        groups: select.groups,
        havings: select.havings.push(having),
        orders: select.orders,
        limit: select.limit,
        offset: select.offset,
        row_lock: select.row_lock,
    }
}

/// The query with another `ORDER BY` term.
pub open spec fn with_order<L>(select: SelectTree<L>, order: OrderTree<L>) -> SelectTree<L> {
    SelectTree { orders: select.orders.with(order), ..select }
}

pub(crate) fn push_order<L>(select: SelectTree<L>, order: OrderTree<L>) -> (result: SelectTree<L>)
    ensures
        result == with_order(select, order),
{
    SelectTree {
        distinct: select.distinct,
        projection: select.projection,
        sources: select.sources,
        filters: select.filters,
        groups: select.groups,
        havings: select.havings,
        orders: select.orders.push(order),
        limit: select.limit,
        offset: select.offset,
        row_lock: select.row_lock,
    }
}

/// The query limited to `rows` rows.
pub open spec fn with_limit<L>(select: SelectTree<L>, rows: usize) -> SelectTree<L> {
    SelectTree { limit: Some(rows), ..select }
}

pub(crate) fn set_limit<L>(select: SelectTree<L>, rows: usize) -> (result: SelectTree<L>)
    ensures
        result == with_limit(select, rows),
{
    SelectTree {
        distinct: select.distinct,
        projection: select.projection,
        sources: select.sources,
        filters: select.filters,
        groups: select.groups,
        havings: select.havings,
        orders: select.orders,
        limit: Some(rows),
        offset: select.offset,
        row_lock: select.row_lock,
    }
}

/// The query without its first `rows` rows.
pub open spec fn with_offset<L>(select: SelectTree<L>, rows: usize) -> SelectTree<L> {
    SelectTree { offset: Some(rows), ..select }
}

pub(crate) fn set_offset<L>(select: SelectTree<L>, rows: usize) -> (result: SelectTree<L>)
    ensures
        result == with_offset(select, rows),
{
    SelectTree {
        distinct: select.distinct,
        projection: select.projection,
        sources: select.sources,
        filters: select.filters,
        groups: select.groups,
        havings: select.havings,
        orders: select.orders,
        limit: select.limit,
        offset: Some(rows),
        row_lock: select.row_lock,
    }
}

/// The query without duplicate rows.
pub open spec fn with_distinct<L>(select: SelectTree<L>, distinct: bool) -> SelectTree<L> {
    SelectTree { distinct: distinct, ..select }
}

pub(crate) fn set_distinct<L>(select: SelectTree<L>, distinct: bool) -> (result: SelectTree<L>)
    ensures
        result == with_distinct(select, distinct),
{
    SelectTree {
        distinct: distinct,
        projection: select.projection,
        sources: select.sources,
        filters: select.filters,
        groups: select.groups,
        havings: select.havings,
        orders: select.orders,
        limit: select.limit,
        offset: select.offset,
        row_lock: select.row_lock,
    }
}

/// The query that selects `projection`.
pub open spec fn with_projection<L>(select: SelectTree<L>, projection: List<ProjectionTree<L>>) -> SelectTree<L> {
    SelectTree { projection: projection, ..select }
}

pub(crate) fn set_projection<L>(select: SelectTree<L>, projection: List<ProjectionTree<L>>) -> (result: SelectTree<L>)
    ensures
        result == with_projection(select, projection),
{
    SelectTree {
        distinct: select.distinct,
        projection: projection,
        sources: select.sources,
        filters: select.filters,
        groups: select.groups,
        havings: select.havings,
        orders: select.orders,
        limit: select.limit,
        offset: select.offset,
        row_lock: select.row_lock,
    }
}

/// Another condition adds its runtime parameters to those of the clause.
proof fn lemma_predicates_with<D: Dialect, L>(
    dialect: D,
    lead: Seq<char>,
    predicates: List<PredicateTree<L>>,
    predicate: PredicateTree<L>,
)
    ensures
        tokens::runtimes(grammar::predicate_list_tokens(dialect, lead, predicates.with(predicate)))
            == tokens::runtimes(grammar::predicate_list_tokens(dialect, lead, predicates))
            + tokens::runtimes(grammar::predicate_tokens(dialect, false, predicate)),
    decreases predicates,
{
    match predicates {
        List::Nil => {
            assert(grammar::predicate_list_tokens::<D, L>(dialect, " AND "@, List::Nil) == Seq::<
                tokens::Token<L>,
            >::empty());
        },
        List::Cons { head, tail } => {
            lemma_predicates_with(dialect, " AND "@, *tail, predicate);
        },
    }
}

/// Another expression adds its runtime parameters to those of the clause.
proof fn lemma_exprs_with<D: Dialect, L>(
    dialect: D,
    lead: Seq<char>,
    exprs: List<ExprTree<L>>,
    expr: ExprTree<L>,
)
    ensures
        tokens::runtimes(grammar::expr_list_tokens(dialect, false, lead, exprs.with(expr)))
            == tokens::runtimes(grammar::expr_list_tokens(dialect, false, lead, exprs))
            + tokens::runtimes(grammar::expr_tokens(dialect, false, expr)),
    decreases exprs,
{
    match exprs {
        List::Nil => {
            assert(grammar::expr_list_tokens::<D, L>(dialect, false, ", "@, List::Nil) == Seq::<
                tokens::Token<L>,
            >::empty());
        },
        List::Cons { head, tail } => {
            lemma_exprs_with(dialect, ", "@, *tail, expr);
        },
    }
}

/// Another term adds its runtime parameters to those of the clause.
proof fn lemma_orders_with<D: Dialect, L>(
    dialect: D,
    lead: Seq<char>,
    orders: List<OrderTree<L>>,
    order: OrderTree<L>,
)
    ensures
        tokens::runtimes(grammar::order_list_tokens(dialect, lead, orders.with(order)))
            == tokens::runtimes(grammar::order_list_tokens(dialect, lead, orders))
            + tokens::runtimes(grammar::order_tokens(dialect, order)),
    decreases orders,
{
    match orders {
        List::Nil => {
            assert(grammar::order_list_tokens::<D, L>(dialect, ", "@, List::Nil) == Seq::<
                tokens::Token<L>,
            >::empty());
        },
        List::Cons { head, tail } => {
            lemma_orders_with(dialect, ", "@, *tail, order);
        },
    }
}

/// Another joined source adds the runtime parameters of its condition.
proof fn lemma_sources_with<D: Dialect, L>(
    dialect: D,
    first: bool,
    sources: List<SourceTree<L>>,
    joined: SourceTree<L>,
)
    requires
        first ==> sources is Cons,
    ensures
        tokens::runtimes(grammar::source_list_tokens(dialect, first, sources.with(joined)))
            == tokens::runtimes(grammar::source_list_tokens(dialect, first, sources))
            + tokens::runtimes(grammar::source_list_tokens(dialect, false, source::only(joined))),
    decreases sources,
{
    match sources {
        List::Nil => {},
        List::Cons { head, tail } => {
            lemma_sources_with(dialect, false, *tail, joined);
        },
    }
}

proof fn lemma_plain_predicates_with<L>(list: List<PredicateTree<L>>, element: PredicateTree<L>)
    ensures
        plain::plain_predicates(list.with(element)) == (plain::plain_predicates(list) && plain::plain_predicate(element)),
    decreases list,
{
    match list {
        List::Nil => {
            assert(plain::plain_predicates(List::<PredicateTree<L>>::Nil));
        },
        List::Cons { head, tail } => {
            lemma_plain_predicates_with(*tail, element);
        },
    }
}

proof fn lemma_plain_exprs_with<L>(list: List<ExprTree<L>>, element: ExprTree<L>)
    ensures
        plain::plain_exprs(list.with(element)) == (plain::plain_exprs(list) && plain::plain_expr(element)),
    decreases list,
{
    match list {
        List::Nil => {
            assert(plain::plain_exprs(List::<ExprTree<L>>::Nil));
        },
        List::Cons { head, tail } => {
            lemma_plain_exprs_with(*tail, element);
        },
    }
}

proof fn lemma_plain_orders_with<L>(list: List<OrderTree<L>>, element: OrderTree<L>)
    ensures
        plain::plain_orders(list.with(element)) == (plain::plain_orders(list) && plain::plain_expr(element.expr)),
    decreases list,
{
    match list {
        List::Nil => {
            assert(plain::plain_orders(List::<OrderTree<L>>::Nil));
        },
        List::Cons { head, tail } => {
            lemma_plain_orders_with(*tail, element);
        },
    }
}

proof fn lemma_plain_sources_with<L>(list: List<SourceTree<L>>, element: SourceTree<L>)
    ensures
        plain::plain_sources(list.with(element)) == (plain::plain_sources(list) && plain::plain_join(element.join)),
    decreases list,
{
    match list {
        List::Nil => {
            assert(plain::plain_sources(List::<SourceTree<L>>::Nil));
        },
        List::Cons { head, tail } => {
            lemma_plain_sources_with(*tail, element);
        },
    }
}

/// The start of a select without sources.
pub struct NoSources<'conn, Conn> {
    pub connection: &'conn Conn,
    pub depth: usize,
}

impl<'conn, Conn> NoSources<'conn, Conn> {
    pub(crate) fn new(connection: &'conn Conn, depth: usize) -> (start: Self)
        ensures
            start == (NoSources { connection, depth }),
    {
        NoSources { connection, depth }
    }
}

impl<'conn, Conn> Duplicate for NoSources<'conn, Conn> {
    fn duplicate(&self) -> (copy: Self) {
        NoSources { connection: self.connection, depth: self.depth }
    }
}

impl<'conn, Conn> ChainShape for NoSources<'conn, Conn> {
    type Exprs = HNil;

    type Params = HNil;

    type Clauses = (HNil, HNil, HNil, HNil, HNil);

    type OrderClass = OrderNone;

    type Grouped = Ungrouped;

    proof fn lemma_params_width() {
        assert(<HNil as HList>::width() == 0);
    }
}

impl<'conn, 'scope, Conn: QueryBuilder + 'conn> SelectAst<'conn, 'scope, Conn> for NoSources<
    'conn,
    Conn,
> {
    open spec fn nesting(&self) -> usize {
        self.depth
    }

    open spec fn builder(&self) -> &'conn Conn {
        self.connection
    }

    open spec fn columns(&self) -> HNil {
        HNil
    }

    open spec fn chain_ctes(&self) -> Seq<CteDef> {
        Seq::empty()
    }

    fn depth(&self) -> (depth: usize) {
        self.depth
    }

    fn connection(&self) -> (connection: &'conn Conn) {
        self.connection
    }

    fn exprs(&self) -> (exprs: HNil) {
        HNil
    }

    fn collect_ctes_into(&self, ctes: &mut Vec<CteDef>) {
        assert(ctes@ + Seq::empty() =~= ctes@);
    }
}

impl<'conn, 'scope, Conn: QueryBuilder + 'conn, B: Backend> RenderSelectAst<
    'conn,
    'scope,
    Conn,
    B,
> for NoSources<'conn, Conn> {
    open spec fn body(&self) -> SelectTree<Bound<B>> {
        bare_select()
    }

    fn lower_body(&self) -> (select: SelectTree<Bound<B>>) {
        bare()
    }

    proof fn lemma_source_count(&self) {
        assert(<HNil as HList>::width() == 0);
    }

    proof fn lemma_clause_params<D: Dialect>(&self, dialect: D) {
        assert(<HNil as HList>::width() == 0);
    }

    proof fn lemma_body_plain(&self) {
    }
}

/// The start of a select chain: its first source.
pub struct FromChain<'conn, 'scope, Conn, Exprs, Source> {
    pub connection: &'conn Conn,
    pub depth: usize,
    pub exprs: Exprs,
    pub source: Source,
    pub _scope: PhantomData<&'scope ()>,
}

/// The columns of a first source.
pub type RootExprs<'scope, S> = HCons<<S as ProjectionShape>::Exprs<'scope>, HNil>;

/// The chain that selects from `S` at the given depth.
pub open spec fn root_chain<'conn, 'scope, Conn, S: QuerySource>(
    connection: &'conn Conn,
    depth: usize,
) -> FromChain<'conn, 'scope, Conn, RootExprs<'scope, S>, RootSource<S>> {
    FromChain {
        connection,
        depth,
        exprs: HCons { head: S::shape_exprs(SourceAlias { depth, index: 0 }), tail: HNil },
        source: RootSource { alias: SourceAlias { depth, index: 0 }, _phantom: PhantomData },
        _scope: PhantomData,
    }
}

impl<'conn, 'scope, Conn, S: QuerySource> FromChain<
    'conn,
    'scope,
    Conn,
    RootExprs<'scope, S>,
    RootSource<S>,
> {
    /// Selects from `S`. The source is the first of its query.
    pub(crate) fn new(connection: &'conn Conn, depth: usize) -> (chain: Self)
        ensures
            chain == root_chain::<Conn, S>(connection, depth),
    {
        let alias = SourceAlias::new(depth, 0);
        FromChain {
            connection,
            depth,
            exprs: HCons { head: S::exprs(alias), tail: HNil },
            source: RootSource { alias, _phantom: PhantomData },
            _scope: PhantomData,
        }
    }
}

impl<'conn, 'scope, Conn, Exprs: Duplicate, Source: Duplicate> Duplicate for FromChain<
    'conn,
    'scope,
    Conn,
    Exprs,
    Source,
> {
    fn duplicate(&self) -> (copy: Self) {
        FromChain {
            connection: self.connection,
            depth: self.depth,
            exprs: self.exprs.duplicate(),
            source: self.source.duplicate(),
            _scope: PhantomData,
        }
    }
}

impl<
    'conn,
    'scope,
    Conn,
    Columns: Duplicate,
    S: QuerySource,
> ChainShape for FromChain<
    'conn,
    'scope,
    Conn,
    HCons<Columns, HNil>,
    RootSource<S>,
> {
    type Exprs = HCons<Columns, HNil>;

    type Params = HNil;

    type Clauses = (HNil, HNil, HNil, HNil, HNil);

    type OrderClass = OrderNone;

    type Grouped = Ungrouped;

    proof fn lemma_params_width() {
        assert(<HNil as HList>::width() == 0);
    }
}

impl<
    'conn,
    'scope,
    Conn: QueryBuilder + 'conn,
    Columns: Duplicate,
    S: QuerySource,
> SelectAst<'conn, 'scope, Conn> for FromChain<
    'conn,
    'scope,
    Conn,
    HCons<Columns, HNil>,
    RootSource<S>,
> {
    open spec fn nesting(&self) -> usize {
        self.depth
    }

    open spec fn builder(&self) -> &'conn Conn {
        self.connection
    }

    open spec fn columns(&self) -> HCons<Columns, HNil> {
        self.exprs
    }

    open spec fn chain_ctes(&self) -> Seq<CteDef> {
        self.source.ctes()
    }

    fn depth(&self) -> (depth: usize) {
        self.depth
    }

    fn connection(&self) -> (connection: &'conn Conn) {
        self.connection
    }

    fn exprs(&self) -> (exprs: HCons<Columns, HNil>) {
        self.exprs.duplicate()
    }

    fn collect_ctes_into(&self, ctes: &mut Vec<CteDef>) {
        self.source.collect_ctes(ctes);
    }
}

impl<
    'conn,
    'scope,
    Conn: QueryBuilder + 'conn,
    Columns: Duplicate,
    S: QuerySource,
    B: Backend,
> RenderSelectAst<'conn, 'scope, Conn, B> for FromChain<
    'conn,
    'scope,
    Conn,
    HCons<Columns, HNil>,
    RootSource<S>,
> {
    open spec fn body(&self) -> SelectTree<Bound<B>> {
        with_source(bare_select(), <RootSource<S> as RenderSourceSpec<B>>::source_tree(&self.source))
    }

    fn lower_body(&self) -> (select: SelectTree<Bound<B>>) {
        push_source(bare(), <RootSource<S> as RenderSourceSpec<B>>::lower_source(&self.source))
    }

    proof fn lemma_source_count(&self) {
        let root = <RootSource<S> as RenderSourceSpec<B>>::source_tree(&self.source);
        chain::lemma_with(List::Nil, root);
        assert(List::<SourceTree<Bound<B>>>::Nil.seq().len() == 0);
        assert(<HNil as HList>::width() == 0);
        assert(<HCons<Columns, HNil> as HList>::width() == 1);
    }

    proof fn lemma_clause_params<D: Dialect>(&self, dialect: D) {
        assert(<HNil as HList>::width() == 0);
        assert(grammar::source_list_tokens::<D, Bound<B>>(dialect, false, List::Nil) == Seq::<
            tokens::Token<Bound<B>>,
        >::empty());
    }

    proof fn lemma_body_plain(&self) {
        let root = <RootSource<S> as RenderSourceSpec<B>>::source_tree(&self.source);
        lemma_plain_sources_with(List::Nil, root);
    }
}

impl<
    'conn,
    'scope,
    Conn: QueryBuilder + 'conn,
    Columns: Duplicate,
    S: QuerySource,
    B: Backend,
> RenderSourcedAst<'conn, 'scope, Conn, B> for FromChain<
    'conn,
    'scope,
    Conn,
    HCons<Columns, HNil>,
    RootSource<S>,
> {
    proof fn lemma_rooted(&self) {
    }
}

/// A chain with another `WHERE` condition.
pub struct Where<'scope, Base, P: PredicateKind, Ast: PredicateAst> {
    pub base: Base,
    pub predicate: Predicate<'scope, P, Ast>,
}

impl<'scope, Base: Duplicate, P: PredicateKind, Ast: PredicateAst> Duplicate for Where<'scope, Base, P, Ast> {
    fn duplicate(&self) -> (copy: Self) {
        Where {
            base: self.base.duplicate(),
            predicate: self.predicate.duplicate(),
        }
    }
}

impl<
    'scope,
    Base: ChainShape,
    P: PredicateKind,
    Ast: PredicateAst,
> ChainShape for Where<'scope, Base, P, Ast> where
    Base::Clauses: AddFilters<Ast::Params>,
 {
    type Exprs = Base::Exprs;

    type Params = <<Base::Clauses as AddFilters<Ast::Params>>::Output as RenderOrderedParams>::Params;

    type Clauses = <Base::Clauses as AddFilters<Ast::Params>>::Output;

    type OrderClass = Base::OrderClass;

    type Grouped = Base::Grouped;

    proof fn lemma_params_width() {
        <Base::Clauses as AddFilters<Ast::Params>>::lemma_added();
        <<Base::Clauses as AddFilters<Ast::Params>>::Output as RenderOrderedParams>::lemma_ordered_width();
    }
}

impl<
    'conn,
    'scope,
    Conn: QueryBuilder + 'conn,
    Base: SelectAst<'conn, 'scope, Conn>,
    P: PredicateKind,
    Ast: PredicateAst,
> SelectAst<'conn, 'scope, Conn> for Where<'scope, Base, P, Ast> where
    Base::Clauses: AddFilters<Ast::Params>,
 {
    open spec fn nesting(&self) -> usize {
        self.base.nesting()
    }

    open spec fn builder(&self) -> &'conn Conn {
        self.base.builder()
    }

    open spec fn columns(&self) -> Self::Exprs {
        self.base.columns()
    }

    open spec fn chain_ctes(&self) -> Seq<CteDef> {
        self.base.chain_ctes()
    }

    fn depth(&self) -> (depth: usize) {
        self.base.depth()
    }

    fn connection(&self) -> (connection: &'conn Conn) {
        self.base.connection()
    }

    fn exprs(&self) -> (exprs: Self::Exprs) {
        self.base.exprs()
    }

    fn collect_ctes_into(&self, ctes: &mut Vec<CteDef>) {
        self.base.collect_ctes_into(ctes);
    }
}

impl<
    'conn,
    'scope,
    Conn: QueryBuilder + 'conn,
    Base: RenderSelectAst<'conn, 'scope, Conn, B>,
    P: PredicateKind,
    Ast: RenderPredicateAst<B>,
    B: Backend,
> RenderSelectAst<'conn, 'scope, Conn, B> for Where<'scope, Base, P, Ast> where
    Base::Clauses: AddFilters<Ast::Params>,
 {
    open spec fn body(&self) -> SelectTree<Bound<B>> {
        with_filter(self.base.body(), self.predicate.ast.condition())
    }

    fn lower_body(&self) -> (select: SelectTree<Bound<B>>) {
        push_filter(self.base.lower_body(), self.predicate.ast.lower_condition())
    }

    proof fn lemma_source_count(&self) {
        self.base.lemma_source_count();
    }

    proof fn lemma_clause_params<D: Dialect>(&self, dialect: D) {
        self.base.lemma_clause_params(dialect);
        <Base::Clauses as AddFilters<Ast::Params>>::lemma_added();
        let condition = self.predicate.ast.condition();
        lemma_predicates_with(dialect, " WHERE "@, self.base.body().filters, condition);
        self.predicate.ast.lemma_condition_params(dialect, false);
    }

    proof fn lemma_body_plain(&self) {
        Base::lemma_params_width();
        <Self as ChainShape>::lemma_params_width();
        <Base::Clauses as AddFilters<Ast::Params>>::lemma_added();
        self.base.lemma_body_plain();
        self.predicate.ast.lemma_condition_plain();
        lemma_plain_predicates_with(self.base.body().filters, self.predicate.ast.condition());
    }
}

impl<
    'conn,
    'scope,
    Conn: QueryBuilder + 'conn,
    Base: RenderSourcedAst<'conn, 'scope, Conn, B>,
    P: PredicateKind,
    Ast: RenderPredicateAst<B>,
    B: Backend,
> RenderSourcedAst<'conn, 'scope, Conn, B> for Where<'scope, Base, P, Ast> where
    Base::Clauses: AddFilters<Ast::Params>,
 {
    proof fn lemma_rooted(&self) {
        self.base.lemma_rooted();
    }
}

/// A chain with another `ORDER BY` term.
pub struct OrderBy<'scope, Base, K, Ast: ExprAst> {
    pub base: Base,
    pub order: Order<'scope, K, Ast>,
}

impl<'scope, Base: Duplicate, K, Ast: ExprAst> Duplicate for OrderBy<'scope, Base, K, Ast> {
    fn duplicate(&self) -> (copy: Self) {
        OrderBy {
            base: self.base.duplicate(),
            order: self.order.duplicate(),
        }
    }
}

impl<
    'scope,
    Base: ChainShape,
    K,
    Ast: ExprAst + AstProjectionClass,
> ChainShape for OrderBy<'scope, Base, K, Ast> where
    Base::Clauses: AddOrders<Ast::Params>,
    Base::OrderClass: ExtendOrderClass<<Ast as AstProjectionClass>::Class>,
 {
    type Exprs = Base::Exprs;

    type Params = <<Base::Clauses as AddOrders<Ast::Params>>::Output as RenderOrderedParams>::Params;

    type Clauses = <Base::Clauses as AddOrders<Ast::Params>>::Output;

    type OrderClass = <Base::OrderClass as ExtendOrderClass<<Ast as AstProjectionClass>::Class>>::Output;

    type Grouped = Base::Grouped;

    proof fn lemma_params_width() {
        <Base::Clauses as AddOrders<Ast::Params>>::lemma_added();
        <<Base::Clauses as AddOrders<Ast::Params>>::Output as RenderOrderedParams>::lemma_ordered_width();
    }
}

impl<
    'conn,
    'scope,
    Conn: QueryBuilder + 'conn,
    Base: SelectAst<'conn, 'scope, Conn>,
    K,
    Ast: ExprAst + AstProjectionClass,
> SelectAst<'conn, 'scope, Conn> for OrderBy<'scope, Base, K, Ast> where
    Base::Clauses: AddOrders<Ast::Params>,
    Base::OrderClass: ExtendOrderClass<<Ast as AstProjectionClass>::Class>,
 {
    open spec fn nesting(&self) -> usize {
        self.base.nesting()
    }

    open spec fn builder(&self) -> &'conn Conn {
        self.base.builder()
    }

    open spec fn columns(&self) -> Self::Exprs {
        self.base.columns()
    }

    open spec fn chain_ctes(&self) -> Seq<CteDef> {
        self.base.chain_ctes()
    }

    fn depth(&self) -> (depth: usize) {
        self.base.depth()
    }

    fn connection(&self) -> (connection: &'conn Conn) {
        self.base.connection()
    }

    fn exprs(&self) -> (exprs: Self::Exprs) {
        self.base.exprs()
    }

    fn collect_ctes_into(&self, ctes: &mut Vec<CteDef>) {
        self.base.collect_ctes_into(ctes);
    }
}

impl<
    'conn,
    'scope,
    Conn: QueryBuilder + 'conn,
    Base: RenderSelectAst<'conn, 'scope, Conn, B>,
    K,
    Ast: RenderAst<B> + AstProjectionClass,
    B: Backend,
> RenderSelectAst<'conn, 'scope, Conn, B> for OrderBy<'scope, Base, K, Ast> where
    Base::Clauses: AddOrders<Ast::Params>,
    Base::OrderClass: ExtendOrderClass<<Ast as AstProjectionClass>::Class>,
 {
    open spec fn body(&self) -> SelectTree<Bound<B>> {
        with_order(self.base.body(), order_tree(self.order))
    }

    fn lower_body(&self) -> (select: SelectTree<Bound<B>>) {
        push_order(self.base.lower_body(), lower_order(&self.order))
    }

    proof fn lemma_source_count(&self) {
        self.base.lemma_source_count();
    }

    proof fn lemma_clause_params<D: Dialect>(&self, dialect: D) {
        self.base.lemma_clause_params(dialect);
        <Base::Clauses as AddOrders<Ast::Params>>::lemma_added();
        let term = order_tree::<B, K, Ast>(self.order);
        lemma_orders_with(dialect, " ORDER BY "@, self.base.body().orders, term);
        self.order.ast.lemma_params(dialect, false);
    }

    proof fn lemma_body_plain(&self) {
        Base::lemma_params_width();
        <Self as ChainShape>::lemma_params_width();
        <Base::Clauses as AddOrders<Ast::Params>>::lemma_added();
        self.base.lemma_body_plain();
        self.order.ast.lemma_plain();
        lemma_plain_orders_with(self.base.body().orders, order_tree::<B, K, Ast>(self.order));
    }
}

impl<
    'conn,
    'scope,
    Conn: QueryBuilder + 'conn,
    Base: RenderSourcedAst<'conn, 'scope, Conn, B>,
    K,
    Ast: RenderAst<B> + AstProjectionClass,
    B: Backend,
> RenderSourcedAst<'conn, 'scope, Conn, B> for OrderBy<'scope, Base, K, Ast> where
    Base::Clauses: AddOrders<Ast::Params>,
    Base::OrderClass: ExtendOrderClass<<Ast as AstProjectionClass>::Class>,
 {
    proof fn lemma_rooted(&self) {
        self.base.lemma_rooted();
    }
}

/// A chain with another `GROUP BY` key.
pub struct GroupBy<'scope, Base, K, Ast: ExprAst> {
    pub base: Base,
    pub key: Expr<'scope, K, Ast>,
}

impl<'scope, Base: Duplicate, K, Ast: ExprAst> Duplicate for GroupBy<'scope, Base, K, Ast> {
    fn duplicate(&self) -> (copy: Self) {
        GroupBy {
            base: self.base.duplicate(),
            key: self.key.duplicate(),
        }
    }
}

impl<'scope, Base: ChainShape, K, Ast: ExprAst> ChainShape for GroupBy<'scope, Base, K, Ast> where
    Base::Clauses: AddGroups<Ast::Params>,
 {
    type Exprs = Base::Exprs;

    type Params = <<Base::Clauses as AddGroups<Ast::Params>>::Output as RenderOrderedParams>::Params;

    type Clauses = <Base::Clauses as AddGroups<Ast::Params>>::Output;

    type OrderClass = Base::OrderClass;

    type Grouped = Grouped;

    proof fn lemma_params_width() {
        <Base::Clauses as AddGroups<Ast::Params>>::lemma_added();
        <<Base::Clauses as AddGroups<Ast::Params>>::Output as RenderOrderedParams>::lemma_ordered_width();
    }
}

impl<
    'conn,
    'scope,
    Conn: QueryBuilder + 'conn,
    Base: SelectAst<'conn, 'scope, Conn>,
    K,
    Ast: ExprAst,
> SelectAst<'conn, 'scope, Conn> for GroupBy<'scope, Base, K, Ast> where
    Base::Clauses: AddGroups<Ast::Params>,
 {
    open spec fn nesting(&self) -> usize {
        self.base.nesting()
    }

    open spec fn builder(&self) -> &'conn Conn {
        self.base.builder()
    }

    open spec fn columns(&self) -> Self::Exprs {
        self.base.columns()
    }

    open spec fn chain_ctes(&self) -> Seq<CteDef> {
        self.base.chain_ctes()
    }

    fn depth(&self) -> (depth: usize) {
        self.base.depth()
    }

    fn connection(&self) -> (connection: &'conn Conn) {
        self.base.connection()
    }

    fn exprs(&self) -> (exprs: Self::Exprs) {
        self.base.exprs()
    }

    fn collect_ctes_into(&self, ctes: &mut Vec<CteDef>) {
        self.base.collect_ctes_into(ctes);
    }
}

impl<
    'conn,
    'scope,
    Conn: QueryBuilder + 'conn,
    Base: RenderSelectAst<'conn, 'scope, Conn, B>,
    K,
    Ast: RenderAst<B>,
    B: Backend,
> RenderSelectAst<'conn, 'scope, Conn, B> for GroupBy<'scope, Base, K, Ast> where
    Base::Clauses: AddGroups<Ast::Params>,
 {
    open spec fn body(&self) -> SelectTree<Bound<B>> {
        with_group(self.base.body(), self.key.ast.tree())
    }

    fn lower_body(&self) -> (select: SelectTree<Bound<B>>) {
        push_group(self.base.lower_body(), self.key.ast.lower())
    }

    proof fn lemma_source_count(&self) {
        self.base.lemma_source_count();
    }

    proof fn lemma_clause_params<D: Dialect>(&self, dialect: D) {
        self.base.lemma_clause_params(dialect);
        <Base::Clauses as AddGroups<Ast::Params>>::lemma_added();
        let key = self.key.ast.tree();
        lemma_exprs_with(dialect, " GROUP BY "@, self.base.body().groups, key);
        self.key.ast.lemma_params(dialect, false);
    }

    proof fn lemma_body_plain(&self) {
        Base::lemma_params_width();
        <Self as ChainShape>::lemma_params_width();
        <Base::Clauses as AddGroups<Ast::Params>>::lemma_added();
        self.base.lemma_body_plain();
        self.key.ast.lemma_plain();
        lemma_plain_exprs_with(self.base.body().groups, self.key.ast.tree());
    }
}

impl<
    'conn,
    'scope,
    Conn: QueryBuilder + 'conn,
    Base: RenderSourcedAst<'conn, 'scope, Conn, B>,
    K,
    Ast: RenderAst<B>,
    B: Backend,
> RenderSourcedAst<'conn, 'scope, Conn, B> for GroupBy<'scope, Base, K, Ast> where
    Base::Clauses: AddGroups<Ast::Params>,
 {
    proof fn lemma_rooted(&self) {
        self.base.lemma_rooted();
    }
}

/// A chain with another `HAVING` condition.
pub struct Having<'scope, Base, P: PredicateKind, Ast: PredicateAst> {
    pub base: Base,
    pub predicate: Predicate<'scope, P, Ast>,
}

impl<'scope, Base: Duplicate, P: PredicateKind, Ast: PredicateAst> Duplicate for Having<'scope, Base, P, Ast> {
    fn duplicate(&self) -> (copy: Self) {
        Having {
            base: self.base.duplicate(),
            predicate: self.predicate.duplicate(),
        }
    }
}

impl<
    'scope,
    Base: ChainShape,
    P: PredicateKind,
    Ast: PredicateAst + PredicateColumns,
> ChainShape for Having<'scope, Base, P, Ast> where
    Base::Clauses: AddHavings<Ast::Params>,
    Base::Grouped: HavingTransition<<Ast as PredicateColumns>::Columns>,
 {
    type Exprs = Base::Exprs;

    type Params = <<Base::Clauses as AddHavings<Ast::Params>>::Output as RenderOrderedParams>::Params;

    type Clauses = <Base::Clauses as AddHavings<Ast::Params>>::Output;

    type OrderClass = Base::OrderClass;

    type Grouped = <Base::Grouped as HavingTransition<<Ast as PredicateColumns>::Columns>>::Output;

    proof fn lemma_params_width() {
        <Base::Clauses as AddHavings<Ast::Params>>::lemma_added();
        <<Base::Clauses as AddHavings<Ast::Params>>::Output as RenderOrderedParams>::lemma_ordered_width();
    }
}

impl<
    'conn,
    'scope,
    Conn: QueryBuilder + 'conn,
    Base: SelectAst<'conn, 'scope, Conn>,
    P: PredicateKind,
    Ast: PredicateAst + PredicateColumns,
> SelectAst<'conn, 'scope, Conn> for Having<'scope, Base, P, Ast> where
    Base::Clauses: AddHavings<Ast::Params>,
    Base::Grouped: HavingTransition<<Ast as PredicateColumns>::Columns>,
 {
    open spec fn nesting(&self) -> usize {
        self.base.nesting()
    }

    open spec fn builder(&self) -> &'conn Conn {
        self.base.builder()
    }

    open spec fn columns(&self) -> Self::Exprs {
        self.base.columns()
    }

    open spec fn chain_ctes(&self) -> Seq<CteDef> {
        self.base.chain_ctes()
    }

    fn depth(&self) -> (depth: usize) {
        self.base.depth()
    }

    fn connection(&self) -> (connection: &'conn Conn) {
        self.base.connection()
    }

    fn exprs(&self) -> (exprs: Self::Exprs) {
        self.base.exprs()
    }

    fn collect_ctes_into(&self, ctes: &mut Vec<CteDef>) {
        self.base.collect_ctes_into(ctes);
    }
}

impl<
    'conn,
    'scope,
    Conn: QueryBuilder + 'conn,
    Base: RenderSelectAst<'conn, 'scope, Conn, B>,
    P: PredicateKind,
    Ast: RenderPredicateAst<B> + PredicateColumns,
    B: Backend,
> RenderSelectAst<'conn, 'scope, Conn, B> for Having<'scope, Base, P, Ast> where
    Base::Clauses: AddHavings<Ast::Params>,
    Base::Grouped: HavingTransition<<Ast as PredicateColumns>::Columns>,
 {
    open spec fn body(&self) -> SelectTree<Bound<B>> {
        with_having(self.base.body(), self.predicate.ast.condition())
    }

    fn lower_body(&self) -> (select: SelectTree<Bound<B>>) {
        push_having(self.base.lower_body(), self.predicate.ast.lower_condition())
    }

    proof fn lemma_source_count(&self) {
        self.base.lemma_source_count();
    }

    proof fn lemma_clause_params<D: Dialect>(&self, dialect: D) {
        self.base.lemma_clause_params(dialect);
        <Base::Clauses as AddHavings<Ast::Params>>::lemma_added();
        let condition = self.predicate.ast.condition();
        lemma_predicates_with(dialect, " HAVING "@, self.base.body().havings, condition);
        self.predicate.ast.lemma_condition_params(dialect, false);
    }

    proof fn lemma_body_plain(&self) {
        Base::lemma_params_width();
        <Self as ChainShape>::lemma_params_width();
        <Base::Clauses as AddHavings<Ast::Params>>::lemma_added();
        self.base.lemma_body_plain();
        self.predicate.ast.lemma_condition_plain();
        lemma_plain_predicates_with(self.base.body().havings, self.predicate.ast.condition());
    }
}

impl<
    'conn,
    'scope,
    Conn: QueryBuilder + 'conn,
    Base: RenderSourcedAst<'conn, 'scope, Conn, B>,
    P: PredicateKind,
    Ast: RenderPredicateAst<B> + PredicateColumns,
    B: Backend,
> RenderSourcedAst<'conn, 'scope, Conn, B> for Having<'scope, Base, P, Ast> where
    Base::Clauses: AddHavings<Ast::Params>,
    Base::Grouped: HavingTransition<<Ast as PredicateColumns>::Columns>,
 {
    proof fn lemma_rooted(&self) {
        self.base.lemma_rooted();
    }
}

/// A chain with a limit. It replaces a limit that the chain has already.
pub struct Limited<Base> {
    pub base: Base,
    pub rows: usize,
}

impl<Base: Duplicate> Duplicate for Limited<Base> {
    fn duplicate(&self) -> (copy: Self) {
        Limited {
            base: self.base.duplicate(),
            rows: self.rows,
        }
    }
}

impl<Base: ChainShape> ChainShape for Limited<Base> {
    type Exprs = Base::Exprs;

    type Params = Base::Params;

    type Clauses = Base::Clauses;

    type OrderClass = Base::OrderClass;

    type Grouped = Base::Grouped;

    proof fn lemma_params_width() {
        Base::lemma_params_width();
    }
}

impl<
    'conn,
    'scope,
    Conn: QueryBuilder + 'conn,
    Base: SelectAst<'conn, 'scope, Conn>,
> SelectAst<'conn, 'scope, Conn> for Limited<Base> {
    open spec fn nesting(&self) -> usize {
        self.base.nesting()
    }

    open spec fn builder(&self) -> &'conn Conn {
        self.base.builder()
    }

    open spec fn columns(&self) -> Self::Exprs {
        self.base.columns()
    }

    open spec fn chain_ctes(&self) -> Seq<CteDef> {
        self.base.chain_ctes()
    }

    fn depth(&self) -> (depth: usize) {
        self.base.depth()
    }

    fn connection(&self) -> (connection: &'conn Conn) {
        self.base.connection()
    }

    fn exprs(&self) -> (exprs: Self::Exprs) {
        self.base.exprs()
    }

    fn collect_ctes_into(&self, ctes: &mut Vec<CteDef>) {
        self.base.collect_ctes_into(ctes);
    }
}

impl<
    'conn,
    'scope,
    Conn: QueryBuilder + 'conn,
    Base: RenderSelectAst<'conn, 'scope, Conn, B>,
    B: Backend,
> RenderSelectAst<'conn, 'scope, Conn, B> for Limited<Base> {
    open spec fn body(&self) -> SelectTree<Bound<B>> {
        with_limit(self.base.body(), self.rows)
    }

    fn lower_body(&self) -> (select: SelectTree<Bound<B>>) {
        set_limit(self.base.lower_body(), self.rows)
    }

    proof fn lemma_source_count(&self) {
        self.base.lemma_source_count();
    }

    proof fn lemma_clause_params<D: Dialect>(&self, dialect: D) {
        self.base.lemma_clause_params(dialect);
    }

    proof fn lemma_body_plain(&self) {
        self.base.lemma_body_plain();
    }
}

impl<
    'conn,
    'scope,
    Conn: QueryBuilder + 'conn,
    Base: RenderSourcedAst<'conn, 'scope, Conn, B>,
    B: Backend,
> RenderSourcedAst<'conn, 'scope, Conn, B> for Limited<Base> {
    proof fn lemma_rooted(&self) {
        self.base.lemma_rooted();
    }
}

/// A chain with an offset. It replaces an offset that the chain has already.
pub struct Offset<Base> {
    pub base: Base,
    pub rows: usize,
}

impl<Base: Duplicate> Duplicate for Offset<Base> {
    fn duplicate(&self) -> (copy: Self) {
        Offset {
            base: self.base.duplicate(),
            rows: self.rows,
        }
    }
}

impl<Base: ChainShape> ChainShape for Offset<Base> {
    type Exprs = Base::Exprs;

    type Params = Base::Params;

    type Clauses = Base::Clauses;

    type OrderClass = Base::OrderClass;

    type Grouped = Base::Grouped;

    proof fn lemma_params_width() {
        Base::lemma_params_width();
    }
}

impl<
    'conn,
    'scope,
    Conn: QueryBuilder + 'conn,
    Base: SelectAst<'conn, 'scope, Conn>,
> SelectAst<'conn, 'scope, Conn> for Offset<Base> {
    open spec fn nesting(&self) -> usize {
        self.base.nesting()
    }

    open spec fn builder(&self) -> &'conn Conn {
        self.base.builder()
    }

    open spec fn columns(&self) -> Self::Exprs {
        self.base.columns()
    }

    open spec fn chain_ctes(&self) -> Seq<CteDef> {
        self.base.chain_ctes()
    }

    fn depth(&self) -> (depth: usize) {
        self.base.depth()
    }

    fn connection(&self) -> (connection: &'conn Conn) {
        self.base.connection()
    }

    fn exprs(&self) -> (exprs: Self::Exprs) {
        self.base.exprs()
    }

    fn collect_ctes_into(&self, ctes: &mut Vec<CteDef>) {
        self.base.collect_ctes_into(ctes);
    }
}

impl<
    'conn,
    'scope,
    Conn: QueryBuilder + 'conn,
    Base: RenderSelectAst<'conn, 'scope, Conn, B>,
    B: Backend,
> RenderSelectAst<'conn, 'scope, Conn, B> for Offset<Base> {
    open spec fn body(&self) -> SelectTree<Bound<B>> {
        with_offset(self.base.body(), self.rows)
    }

    fn lower_body(&self) -> (select: SelectTree<Bound<B>>) {
        set_offset(self.base.lower_body(), self.rows)
    }

    proof fn lemma_source_count(&self) {
        self.base.lemma_source_count();
    }

    proof fn lemma_clause_params<D: Dialect>(&self, dialect: D) {
        self.base.lemma_clause_params(dialect);
    }

    proof fn lemma_body_plain(&self) {
        self.base.lemma_body_plain();
    }
}

impl<
    'conn,
    'scope,
    Conn: QueryBuilder + 'conn,
    Base: RenderSourcedAst<'conn, 'scope, Conn, B>,
    B: Backend,
> RenderSourcedAst<'conn, 'scope, Conn, B> for Offset<Base> {
    proof fn lemma_rooted(&self) {
        self.base.lemma_rooted();
    }
}

/// A chain that selects each row once.
pub struct Distinct<Base> {
    pub base: Base,
}

impl<Base: Duplicate> Duplicate for Distinct<Base> {
    fn duplicate(&self) -> (copy: Self) {
        Distinct {
            base: self.base.duplicate(),
        }
    }
}

impl<Base: ChainShape> ChainShape for Distinct<Base> {
    type Exprs = Base::Exprs;

    type Params = Base::Params;

    type Clauses = Base::Clauses;

    type OrderClass = Base::OrderClass;

    type Grouped = Base::Grouped;

    proof fn lemma_params_width() {
        Base::lemma_params_width();
    }
}

impl<
    'conn,
    'scope,
    Conn: QueryBuilder + 'conn,
    Base: SelectAst<'conn, 'scope, Conn>,
> SelectAst<'conn, 'scope, Conn> for Distinct<Base> {
    open spec fn nesting(&self) -> usize {
        self.base.nesting()
    }

    open spec fn builder(&self) -> &'conn Conn {
        self.base.builder()
    }

    open spec fn columns(&self) -> Self::Exprs {
        self.base.columns()
    }

    open spec fn chain_ctes(&self) -> Seq<CteDef> {
        self.base.chain_ctes()
    }

    fn depth(&self) -> (depth: usize) {
        self.base.depth()
    }

    fn connection(&self) -> (connection: &'conn Conn) {
        self.base.connection()
    }

    fn exprs(&self) -> (exprs: Self::Exprs) {
        self.base.exprs()
    }

    fn collect_ctes_into(&self, ctes: &mut Vec<CteDef>) {
        self.base.collect_ctes_into(ctes);
    }
}

impl<
    'conn,
    'scope,
    Conn: QueryBuilder + 'conn,
    Base: RenderSelectAst<'conn, 'scope, Conn, B>,
    B: Backend,
> RenderSelectAst<'conn, 'scope, Conn, B> for Distinct<Base> {
    open spec fn body(&self) -> SelectTree<Bound<B>> {
        with_distinct(self.base.body(), true)
    }

    fn lower_body(&self) -> (select: SelectTree<Bound<B>>) {
        set_distinct(self.base.lower_body(), true)
    }

    proof fn lemma_source_count(&self) {
        self.base.lemma_source_count();
    }

    proof fn lemma_clause_params<D: Dialect>(&self, dialect: D) {
        self.base.lemma_clause_params(dialect);
    }

    proof fn lemma_body_plain(&self) {
        self.base.lemma_body_plain();
    }
}

impl<
    'conn,
    'scope,
    Conn: QueryBuilder + 'conn,
    Base: RenderSourcedAst<'conn, 'scope, Conn, B>,
    B: Backend,
> RenderSourcedAst<'conn, 'scope, Conn, B> for Distinct<Base> {
    proof fn lemma_rooted(&self) {
        self.base.lemma_rooted();
    }
}

/// A chain with another source whose columns are always there: an inner or a cross join.
pub struct Join<Base, Columns, Source> {
    pub base: Base,
    pub expr: Columns,
    pub source: Source,
}

impl<Base: Duplicate, Columns: Duplicate, Source: Duplicate> Duplicate for Join<Base, Columns, Source> {
    fn duplicate(&self) -> (copy: Self) {
        Join {
            base: self.base.duplicate(),
            expr: self.expr.duplicate(),
            source: self.source.duplicate(),
        }
    }
}

impl<
    Base: ChainShape,
    Columns: Duplicate,
    Source: SourceSpec,
> ChainShape for Join<Base, Columns, Source> where
    Base::Clauses: AddSources<Source::Params>,
    Base::Exprs: PushBack<Columns>,
    <Base::Exprs as PushBack<Columns>>::Output: Duplicate + ToTuple,
 {
    type Exprs = <Base::Exprs as PushBack<Columns>>::Output;

    type Params = <<Base::Clauses as AddSources<Source::Params>>::Output as RenderOrderedParams>::Params;

    type Clauses = <Base::Clauses as AddSources<Source::Params>>::Output;

    type OrderClass = Base::OrderClass;

    type Grouped = Base::Grouped;

    proof fn lemma_params_width() {
        <Base::Clauses as AddSources<Source::Params>>::lemma_added();
        <<Base::Clauses as AddSources<Source::Params>>::Output as RenderOrderedParams>::lemma_ordered_width();
    }
}

impl<
    'conn,
    'scope,
    Conn: QueryBuilder + 'conn,
    Base: SelectAst<'conn, 'scope, Conn>,
    Columns: Duplicate,
    Source: SourceSpec,
> SelectAst<'conn, 'scope, Conn> for Join<Base, Columns, Source> where
    Base::Clauses: AddSources<Source::Params>,
    Base::Exprs: PushBack<Columns>,
    <Base::Exprs as PushBack<Columns>>::Output: Duplicate + ToTuple,
 {
    open spec fn nesting(&self) -> usize {
        self.base.nesting()
    }

    open spec fn builder(&self) -> &'conn Conn {
        self.base.builder()
    }

    open spec fn columns(&self) -> Self::Exprs {
        self.base.columns().pushed(self.expr)
    }

    open spec fn chain_ctes(&self) -> Seq<CteDef> {
        self.base.chain_ctes() + self.source.ctes()
    }

    fn depth(&self) -> (depth: usize) {
        self.base.depth()
    }

    fn connection(&self) -> (connection: &'conn Conn) {
        self.base.connection()
    }

    fn exprs(&self) -> (exprs: Self::Exprs) {
        self.base.exprs().push_back(self.expr.duplicate())
    }

    fn collect_ctes_into(&self, ctes: &mut Vec<CteDef>) {
        self.base.collect_ctes_into(ctes);
        self.source.collect_ctes(ctes);
        assert(ctes@ =~= old(ctes)@ + (self.base.chain_ctes() + self.source.ctes()));
    }
}

impl<
    'conn,
    'scope,
    Conn: QueryBuilder + 'conn,
    Base: RenderSourcedAst<'conn, 'scope, Conn, B>,
    Columns: Duplicate,
    Source: RenderSourceSpec<B>,
    B: Backend,
> RenderSelectAst<'conn, 'scope, Conn, B> for Join<Base, Columns, Source> where
    Base::Clauses: AddSources<Source::Params>,
    Base::Exprs: PushBack<Columns>,
    <Base::Exprs as PushBack<Columns>>::Output: Duplicate + ToTuple,
 {
    open spec fn body(&self) -> SelectTree<Bound<B>> {
        with_source(self.base.body(), self.source.source_tree())
    }

    fn lower_body(&self) -> (select: SelectTree<Bound<B>>) {
        push_source(self.base.lower_body(), self.source.lower_source())
    }

    proof fn lemma_source_count(&self) {
        self.base.lemma_source_count();
        <Base::Exprs as PushBack<Columns>>::lemma_pushed_width();
        let joined = self.source.source_tree();
        chain::lemma_with(self.base.body().sources, joined);
    }

    proof fn lemma_clause_params<D: Dialect>(&self, dialect: D) {
        self.base.lemma_clause_params(dialect);
        <Base::Clauses as AddSources<Source::Params>>::lemma_added();
        self.base.lemma_rooted();
        let joined = self.source.source_tree();
        lemma_sources_with(dialect, true, self.base.body().sources, joined);
        self.source.lemma_source_params(dialect);
    }

    proof fn lemma_body_plain(&self) {
        Base::lemma_params_width();
        <Self as ChainShape>::lemma_params_width();
        <Base::Clauses as AddSources<Source::Params>>::lemma_added();
        self.base.lemma_body_plain();
        self.source.lemma_source_plain();
        lemma_plain_sources_with(self.base.body().sources, self.source.source_tree());
    }
}

impl<
    'conn,
    'scope,
    Conn: QueryBuilder + 'conn,
    Base: RenderSourcedAst<'conn, 'scope, Conn, B>,
    Columns: Duplicate,
    Source: RenderSourceSpec<B>,
    B: Backend,
> RenderSourcedAst<'conn, 'scope, Conn, B> for Join<Base, Columns, Source> where
    Base::Clauses: AddSources<Source::Params>,
    Base::Exprs: PushBack<Columns>,
    <Base::Exprs as PushBack<Columns>>::Output: Duplicate + ToTuple,
 {
    proof fn lemma_rooted(&self) {
        self.base.lemma_rooted();
    }
}

/// A chain with another source whose columns may be missing.
pub struct LeftJoin<Base, Columns, Source> {
    pub base: Base,
    pub expr: Columns,
    pub source: Source,
}

impl<Base: Duplicate, Columns: Duplicate, Source: Duplicate> Duplicate for LeftJoin<Base, Columns, Source> {
    fn duplicate(&self) -> (copy: Self) {
        LeftJoin {
            base: self.base.duplicate(),
            expr: self.expr.duplicate(),
            source: self.source.duplicate(),
        }
    }
}

impl<
    Base: ChainShape,
    Columns: Duplicate,
    Source: SourceSpec,
> ChainShape for LeftJoin<Base, Columns, Source> where
    Base::Clauses: AddSources<Source::Params>,
    Base::Exprs: PushBack<Columns>,
    <Base::Exprs as PushBack<Columns>>::Output: Duplicate + ToTuple,
 {
    type Exprs = <Base::Exprs as PushBack<Columns>>::Output;

    type Params = <<Base::Clauses as AddSources<Source::Params>>::Output as RenderOrderedParams>::Params;

    type Clauses = <Base::Clauses as AddSources<Source::Params>>::Output;

    type OrderClass = Base::OrderClass;

    type Grouped = Base::Grouped;

    proof fn lemma_params_width() {
        <Base::Clauses as AddSources<Source::Params>>::lemma_added();
        <<Base::Clauses as AddSources<Source::Params>>::Output as RenderOrderedParams>::lemma_ordered_width();
    }
}

impl<
    'conn,
    'scope,
    Conn: QueryBuilder + 'conn,
    Base: SelectAst<'conn, 'scope, Conn>,
    Columns: Duplicate,
    Source: SourceSpec,
> SelectAst<'conn, 'scope, Conn> for LeftJoin<Base, Columns, Source> where
    Base::Clauses: AddSources<Source::Params>,
    Base::Exprs: PushBack<Columns>,
    <Base::Exprs as PushBack<Columns>>::Output: Duplicate + ToTuple,
 {
    open spec fn nesting(&self) -> usize {
        self.base.nesting()
    }

    open spec fn builder(&self) -> &'conn Conn {
        self.base.builder()
    }

    open spec fn columns(&self) -> Self::Exprs {
        self.base.columns().pushed(self.expr)
    }

    open spec fn chain_ctes(&self) -> Seq<CteDef> {
        self.base.chain_ctes() + self.source.ctes()
    }

    fn depth(&self) -> (depth: usize) {
        self.base.depth()
    }

    fn connection(&self) -> (connection: &'conn Conn) {
        self.base.connection()
    }

    fn exprs(&self) -> (exprs: Self::Exprs) {
        self.base.exprs().push_back(self.expr.duplicate())
    }

    fn collect_ctes_into(&self, ctes: &mut Vec<CteDef>) {
        self.base.collect_ctes_into(ctes);
        self.source.collect_ctes(ctes);
        assert(ctes@ =~= old(ctes)@ + (self.base.chain_ctes() + self.source.ctes()));
    }
}

impl<
    'conn,
    'scope,
    Conn: QueryBuilder + 'conn,
    Base: RenderSourcedAst<'conn, 'scope, Conn, B>,
    Columns: Duplicate,
    Source: RenderSourceSpec<B>,
    B: Backend,
> RenderSelectAst<'conn, 'scope, Conn, B> for LeftJoin<Base, Columns, Source> where
    Base::Clauses: AddSources<Source::Params>,
    Base::Exprs: PushBack<Columns>,
    <Base::Exprs as PushBack<Columns>>::Output: Duplicate + ToTuple,
 {
    open spec fn body(&self) -> SelectTree<Bound<B>> {
        with_source(self.base.body(), self.source.source_tree())
    }

    fn lower_body(&self) -> (select: SelectTree<Bound<B>>) {
        push_source(self.base.lower_body(), self.source.lower_source())
    }

    proof fn lemma_source_count(&self) {
        self.base.lemma_source_count();
        <Base::Exprs as PushBack<Columns>>::lemma_pushed_width();
        let joined = self.source.source_tree();
        chain::lemma_with(self.base.body().sources, joined);
    }

    proof fn lemma_clause_params<D: Dialect>(&self, dialect: D) {
        self.base.lemma_clause_params(dialect);
        <Base::Clauses as AddSources<Source::Params>>::lemma_added();
        self.base.lemma_rooted();
        let joined = self.source.source_tree();
        lemma_sources_with(dialect, true, self.base.body().sources, joined);
        self.source.lemma_source_params(dialect);
    }

    proof fn lemma_body_plain(&self) {
        Base::lemma_params_width();
        <Self as ChainShape>::lemma_params_width();
        <Base::Clauses as AddSources<Source::Params>>::lemma_added();
        self.base.lemma_body_plain();
        self.source.lemma_source_plain();
        lemma_plain_sources_with(self.base.body().sources, self.source.source_tree());
    }
}

impl<
    'conn,
    'scope,
    Conn: QueryBuilder + 'conn,
    Base: RenderSourcedAst<'conn, 'scope, Conn, B>,
    Columns: Duplicate,
    Source: RenderSourceSpec<B>,
    B: Backend,
> RenderSourcedAst<'conn, 'scope, Conn, B> for LeftJoin<Base, Columns, Source> where
    Base::Clauses: AddSources<Source::Params>,
    Base::Exprs: PushBack<Columns>,
    <Base::Exprs as PushBack<Columns>>::Output: Duplicate + ToTuple,
 {
    proof fn lemma_rooted(&self) {
        self.base.lemma_rooted();
    }
}

/// A chain with another source that may leave the sources before it without a row: a right or a
/// full join.
pub struct OuterJoin<Base, Columns, Source> {
    pub base: Base,
    pub expr: Columns,
    pub source: Source,
}

impl<Base: Duplicate, Columns: Duplicate, Source: Duplicate> Duplicate for OuterJoin<Base, Columns, Source> {
    fn duplicate(&self) -> (copy: Self) {
        OuterJoin {
            base: self.base.duplicate(),
            expr: self.expr.duplicate(),
            source: self.source.duplicate(),
        }
    }
}

impl<
    Base: ChainShape,
    Columns: Duplicate,
    Source: SourceSpec,
> ChainShape for OuterJoin<Base, Columns, Source> where
    Base::Clauses: AddSources<Source::Params>,
    Base::Exprs: NullableSources,
    <Base::Exprs as NullableSources>::Output: PushBack<Columns>,
    <<Base::Exprs as NullableSources>::Output as PushBack<Columns>>::Output: Duplicate + ToTuple,
 {
    type Exprs = <<Base::Exprs as NullableSources>::Output as PushBack<Columns>>::Output;

    type Params = <<Base::Clauses as AddSources<Source::Params>>::Output as RenderOrderedParams>::Params;

    type Clauses = <Base::Clauses as AddSources<Source::Params>>::Output;

    type OrderClass = Base::OrderClass;

    type Grouped = Base::Grouped;

    proof fn lemma_params_width() {
        <Base::Clauses as AddSources<Source::Params>>::lemma_added();
        <<Base::Clauses as AddSources<Source::Params>>::Output as RenderOrderedParams>::lemma_ordered_width();
    }
}

impl<
    'conn,
    'scope,
    Conn: QueryBuilder + 'conn,
    Base: SelectAst<'conn, 'scope, Conn>,
    Columns: Duplicate,
    Source: SourceSpec,
> SelectAst<'conn, 'scope, Conn> for OuterJoin<Base, Columns, Source> where
    Base::Clauses: AddSources<Source::Params>,
    Base::Exprs: NullableSources,
    <Base::Exprs as NullableSources>::Output: PushBack<Columns>,
    <<Base::Exprs as NullableSources>::Output as PushBack<Columns>>::Output: Duplicate + ToTuple,
 {
    open spec fn nesting(&self) -> usize {
        self.base.nesting()
    }

    open spec fn builder(&self) -> &'conn Conn {
        self.base.builder()
    }

    open spec fn columns(&self) -> Self::Exprs {
        self.base.columns().nullable_sources().pushed(self.expr)
    }

    open spec fn chain_ctes(&self) -> Seq<CteDef> {
        self.base.chain_ctes() + self.source.ctes()
    }

    fn depth(&self) -> (depth: usize) {
        self.base.depth()
    }

    fn connection(&self) -> (connection: &'conn Conn) {
        self.base.connection()
    }

    fn exprs(&self) -> (exprs: Self::Exprs) {
        self.base.exprs().into_nullable_sources().push_back(self.expr.duplicate())
    }

    fn collect_ctes_into(&self, ctes: &mut Vec<CteDef>) {
        self.base.collect_ctes_into(ctes);
        self.source.collect_ctes(ctes);
        assert(ctes@ =~= old(ctes)@ + (self.base.chain_ctes() + self.source.ctes()));
    }
}

impl<
    'conn,
    'scope,
    Conn: QueryBuilder + 'conn,
    Base: RenderSourcedAst<'conn, 'scope, Conn, B>,
    Columns: Duplicate,
    Source: RenderSourceSpec<B>,
    B: Backend,
> RenderSelectAst<'conn, 'scope, Conn, B> for OuterJoin<Base, Columns, Source> where
    Base::Clauses: AddSources<Source::Params>,
    Base::Exprs: NullableSources,
    <Base::Exprs as NullableSources>::Output: PushBack<Columns>,
    <<Base::Exprs as NullableSources>::Output as PushBack<Columns>>::Output: Duplicate + ToTuple,
 {
    open spec fn body(&self) -> SelectTree<Bound<B>> {
        with_source(self.base.body(), self.source.source_tree())
    }

    fn lower_body(&self) -> (select: SelectTree<Bound<B>>) {
        push_source(self.base.lower_body(), self.source.lower_source())
    }

    proof fn lemma_source_count(&self) {
        self.base.lemma_source_count();
        <Base::Exprs as NullableSources>::lemma_nullable_width();
        <<Base::Exprs as NullableSources>::Output as PushBack<Columns>>::lemma_pushed_width();
        let joined = self.source.source_tree();
        chain::lemma_with(self.base.body().sources, joined);
    }

    proof fn lemma_clause_params<D: Dialect>(&self, dialect: D) {
        self.base.lemma_clause_params(dialect);
        <Base::Clauses as AddSources<Source::Params>>::lemma_added();
        self.base.lemma_rooted();
        let joined = self.source.source_tree();
        lemma_sources_with(dialect, true, self.base.body().sources, joined);
        self.source.lemma_source_params(dialect);
    }

    proof fn lemma_body_plain(&self) {
        Base::lemma_params_width();
        <Self as ChainShape>::lemma_params_width();
        <Base::Clauses as AddSources<Source::Params>>::lemma_added();
        self.base.lemma_body_plain();
        self.source.lemma_source_plain();
        lemma_plain_sources_with(self.base.body().sources, self.source.source_tree());
    }
}

impl<
    'conn,
    'scope,
    Conn: QueryBuilder + 'conn,
    Base: RenderSourcedAst<'conn, 'scope, Conn, B>,
    Columns: Duplicate,
    Source: RenderSourceSpec<B>,
    B: Backend,
> RenderSourcedAst<'conn, 'scope, Conn, B> for OuterJoin<Base, Columns, Source> where
    Base::Clauses: AddSources<Source::Params>,
    Base::Exprs: NullableSources,
    <Base::Exprs as NullableSources>::Output: PushBack<Columns>,
    <<Base::Exprs as NullableSources>::Output as PushBack<Columns>>::Output: Duplicate + ToTuple,
 {
    proof fn lemma_rooted(&self) {
        self.base.lemma_rooted();
    }
}

/// A typed ordering as an `ORDER BY` term.
pub open spec fn order_tree<'scope, B: Backend, K, Ast: RenderAst<B>>(
    order: Order<'scope, K, Ast>,
) -> OrderTree<Bound<B>> {
    OrderTree { expr: order.ast.tree(), direction: order.direction, nulls: None }
}

/// A typed ordering as an `ORDER BY` term that also says where `NULL`s stand.
pub fn order_with_nulls<'scope, B: Backend, K, Ast: RenderAst<B>>(
    order: &Order<'scope, K, Ast>,
    nulls: OrderNulls,
) -> (term: OrderTree<Bound<B>>)
    ensures
        term.expr == order.ast.tree(),
        term.direction == order.direction,
        term.nulls matches Some(given) && given.nulls == nulls && given.key == term.expr,
{
    OrderTree {
        expr: order.ast.lower(),
        direction: order.direction,
        nulls: Some(NullsTree { nulls, key: order.ast.lower() }),
    }
}

fn lower_order<'scope, B: Backend, K, Ast: RenderAst<B>>(order: &Order<'scope, K, Ast>) -> (term:
    OrderTree<Bound<B>>)
    ensures
        term == order_tree::<B, K, Ast>(*order),
{
    OrderTree { expr: order.ast.lower(), direction: order.direction, nulls: None }
}

} // verus!
