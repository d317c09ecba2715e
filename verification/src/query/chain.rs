//! Building select chains.
use crate::backend::{Backend, Bound, Decode};
use crate::connection::{QueryBuilder, SupportsFullJoin};
use crate::dialect::Dialect;
use crate::expr::ast::{
    ColumnExprAst, ExprAst, RenderSubquery, ScalarSubquery, Subquery,
};
use crate::expr::class::{NonAggregateAst, NonAggregatePredicate, ValidSelect};
use crate::expr::kind::{ExprKind, PredicateKind, ProjectionParams};
use crate::expr::predicate::PredicateAst;
use crate::expr::{ColumnRef, Expr, Order, Predicate};
use crate::grammar;
use crate::label::{Duplicate, Label};
use crate::list::{HAppend, HList, HNil, ToTuple};
use crate::ops::SourceAlias;
use crate::plain;
use crate::projection::{
    Maybe, Projectable, ProjectionShape, QuerySource, RenderProjectable, SchemaTable,
};
use crate::query::select::{
    set_projection, ChainShape, Distinct, FromChain, GroupBy, Having, Join, LeftJoin, Limited,
    Offset, OrderBy, OuterJoin, RenderSelectAst, RootExprs, SelectAst, Where,
};
use crate::query::select;
use crate::query::source::{
    CrossJoinSource, FullJoinSource, InnerJoinSource, LeftJoinSource, RightJoinSource, RootSource,
};
use crate::text::same_text;
use crate::tokens;
use crate::tree::{CteDef, SelectTree};
use core::marker::PhantomData;
use vstd::prelude::*;

pub mod wide;

verus! {

broadcast use crate::tokens::group_tokens;

/// A projection that tells which shape the selected rows have.
pub trait ReturningProjection<'scope>: Projectable {
    type Shape: ProjectionShape;
}

impl<'scope> ReturningProjection<'scope> for () {
    type Shape = ();
}

impl<'scope, K: ExprKind + ProjectionShape, Ast: ExprAst> ReturningProjection<'scope> for Expr<
    'scope,
    K,
    Ast,
> {
    type Shape = K;
}

impl<'scope, K: ExprKind + ProjectionShape> ReturningProjection<'scope> for ColumnRef<'scope, K> {
    type Shape = K;
}

impl<'scope, T: ExprKind<Value = T> + ProjectionShape + Duplicate> ReturningProjection<
    'scope,
> for T {
    type Shape = T;
}

/// A chain with its projection: a finished query.
pub struct Selected<'scope, Base, Shape, Projection> {
    pub base: Base,
    pub projection: Projection,
    pub _shape: PhantomData<(&'scope (), Shape)>,
}

impl<'scope, Base: Duplicate, Shape, Projection: Duplicate> Duplicate for Selected<
    'scope,
    Base,
    Shape,
    Projection,
> {
    fn duplicate(&self) -> (copy: Self) {
        Selected {
            base: self.base.duplicate(),
            projection: self.projection.duplicate(),
            _shape: PhantomData,
        }
    }
}

/// Whether one of `defs` is called `name`.
pub open spec fn has_name(defs: Seq<CteDef>, name: Seq<char>) -> bool {
    exists|i: int| 0 <= i < defs.len() && (#[trigger] defs[i]).name@ == name
}

/// The definitions that are the first of their name, in their order.
pub open spec fn first_named(defs: Seq<CteDef>) -> Seq<CteDef>
    decreases defs.len(),
{
    if defs.len() == 0 {
        Seq::empty()
    } else {
        let before = first_named(defs.drop_last());
        if has_name(defs.drop_last(), defs.last().name@) {
            before
        } else {
            before.push(defs.last())
        }
    }
}

/// Among the definitions that are kept, every name occurs.
pub proof fn law_first_named_keeps_names(defs: Seq<CteDef>, name: Seq<char>)
    ensures
        has_name(first_named(defs), name) == has_name(defs, name),
    decreases defs.len(),
{
    if defs.len() > 0 {
        let rest = defs.drop_last();
        let kept = first_named(rest);
        law_first_named_keeps_names(rest, name);
        law_first_named_keeps_names(rest, defs.last().name@);
        if has_name(defs, name) {
            let i = choose|i: int| 0 <= i < defs.len() && (#[trigger] defs[i]).name@ == name;
            if i < rest.len() {
                assert(rest[i].name@ == name);
                let j = choose|j: int| 0 <= j < kept.len() && (#[trigger] kept[j]).name@ == name;
                assert(first_named(defs)[j].name@ == name);
            } else if !has_name(rest, name) {
                assert(first_named(defs)[kept.len() as int].name@ == name);
            }
        }
        if has_name(first_named(defs), name) {
            let all = first_named(defs);
            let i = choose|i: int| 0 <= i < all.len() && (#[trigger] all[i]).name@ == name;
            if i < kept.len() {
                assert(kept[i].name@ == name);
                let j = choose|j: int| 0 <= j < rest.len() && (#[trigger] rest[j]).name@ == name;
                assert(defs[j].name@ == name);
            } else {
                assert(defs[defs.len() - 1].name@ == name);
            }
        }
    }
}

/// Among the definitions that are kept, no name occurs twice.
pub proof fn law_first_named_is_distinct(defs: Seq<CteDef>, i: int, j: int)
    requires
        0 <= i < j < first_named(defs).len(),
    ensures
        first_named(defs)[i].name@ != first_named(defs)[j].name@,
    decreases defs.len(),
{
    let rest = defs.drop_last();
    let kept = first_named(rest);
    if j < kept.len() {
        law_first_named_is_distinct(rest, i, j);
    } else {
        law_first_named_keeps_names(rest, defs.last().name@);
        assert(first_named(defs)[i] == kept[i]);
    }
}

fn is_named(defs: &Vec<CteDef>, name: &Label) -> (found: bool)
    ensures
        found == has_name(defs@, name@),
{
    let mut i: usize = 0;
    while i < defs.len()
        invariant
            i <= defs.len(),
            forall|j: int| 0 <= j < i ==> (#[trigger] defs@[j]).name@ != name@,
        decreases defs.len() - i,
    {
        if same_text(defs[i].name.as_str(), name.as_str()) {
            assert(defs@[i as int].name@ == name@);
            return true;
        }
        i = i + 1;
    }
    false
}

impl<'scope, Base, Shape, Projection> Selected<'scope, Base, Shape, Projection> {
    fn new(base: Base, projection: Projection) -> (selected: Self)
        ensures
            selected.base == base,
            selected.projection == projection,
    {
        Selected { base, projection, _shape: PhantomData }
    }

    /// The handle that the query is built against.
    pub fn connection<'conn, Conn: QueryBuilder + 'conn>(&self) -> (connection: &'conn Conn) where
        Base: SelectAst<'conn, 'scope, Conn>,

        ensures
            connection == self.base.builder(),
    {
        self.base.connection()
    }

    /// The common table expressions that the query refers to, each name once, at its first
    /// occurrence.
    pub fn collect_ctes<'conn, Conn: QueryBuilder + 'conn>(&self) -> (defs: Vec<CteDef>) where
        Base: SelectAst<'conn, 'scope, Conn>,

        ensures
            defs@ == first_named(self.base.chain_ctes()),
    {
        let mut all: Vec<CteDef> = Vec::new();
        self.base.collect_ctes_into(&mut all);
        assert(all@ =~= self.base.chain_ctes());
        let mut kept: Vec<CteDef> = Vec::new();
        let mut i: usize = 0;
        while i < all.len()
            invariant
                i <= all.len(),
                kept@ == first_named(all@.take(i as int)),
            decreases all.len() - i,
        {
            proof {
                assert(all@.take(i + 1).drop_last() =~= all@.take(i as int));
                law_first_named_keeps_names(all@.take(i as int), all@[i as int].name@);
            }
            if !is_named(&kept, &all[i].name) {
                kept.push(all[i].duplicate());
            }
            i = i + 1;
        }
        assert(all@.take(all@.len() as int) =~= all@);
        kept
    }

    /// The `SELECT` that the query is.
    pub open spec fn select_tree<'conn, Conn: QueryBuilder + 'conn, B: Backend>(
        &self,
    ) -> SelectTree<Bound<B>> where
        Base: RenderSelectAst<'conn, 'scope, Conn, B>,
        Projection: RenderProjectable<B>,
     {
        select::with_projection(self.base.body(), self.projection.items())
    }

    /// Lowers the query: its clauses in the order that SQL prescribes, whatever the order in which
    /// the chain added them.
    pub fn lower<'conn, Conn: QueryBuilder + 'conn, B: Backend>(&self) -> (select: SelectTree<
        Bound<B>,
    >) where Base: RenderSelectAst<'conn, 'scope, Conn, B>, Projection: RenderProjectable<B>
        ensures
            select == self.select_tree::<Conn, B>(),
    {
        set_projection(self.base.lower_body(), self.projection.lower_projection())
    }

    /// The query is written with the runtime parameters of its projection and of its clauses, and
    /// no others.
    pub proof fn law_selected_params<'conn, Conn: QueryBuilder + 'conn, B: Backend, D: Dialect>(
        &self,
        dialect: D,
    ) where
        Base: RenderSelectAst<'conn, 'scope, Conn, B>,
        Projection: RenderProjectable<B>,

        ensures
            tokens::runtimes(grammar::select_tokens(dialect, self.select_tree::<Conn, B>()))
                == <Projection::Params as HList>::width() + <<Base as ChainShape>::Params as HList>::width(),
    {
        let tree = self.select_tree::<Conn, B>();
        self.base.lemma_clause_params(dialect);
        self.projection.lemma_projection_params(dialect, false, Seq::empty());
        <Base as ChainShape>::lemma_params_width();
        assert(grammar::select_tokens(dialect, tree) == grammar::select_head_tokens(dialect, tree)
            + grammar::select_middle_tokens(dialect, tree) + grammar::order_list_tokens(
            dialect,
            " ORDER BY "@,
            tree.orders,
        ) + tokens::chars(grammar::select_bounds_text(dialect, tree)));
    }

    /// A query whose parameter shapes have no entries has no runtime parameter.
    pub proof fn law_selected_plain<'conn, Conn: QueryBuilder + 'conn, B: Backend>(&self) where
        Base: RenderSelectAst<'conn, 'scope, Conn, B>,
        Projection: RenderProjectable<B>,

        requires
            <Projection::Params as HList>::width() == 0,
            <<Base as ChainShape>::Params as HList>::width() == 0,
        ensures
            plain::plain_select(self.select_tree::<Conn, B>()),
    {
        self.base.lemma_body_plain();
        self.projection.lemma_projection_plain();
    }
}

/// A finished query that stands inside another one.
pub struct SubquerySelect<'conn, 'scope, Conn, Base, Shape, Projection> {
    pub selected: Selected<'scope, Base, Shape, Projection>,
    pub _conn: PhantomData<&'conn Conn>,
}

impl<'conn, 'scope, Conn, Base: Duplicate, Shape, Projection: Duplicate> Duplicate
    for SubquerySelect<'conn, 'scope, Conn, Base, Shape, Projection> {
    fn duplicate(&self) -> (copy: Self) {
        SubquerySelect { selected: self.selected.duplicate(), _conn: PhantomData }
    }
}

impl<
    'conn,
    'scope,
    Conn: QueryBuilder + 'conn,
    Base: SelectAst<'conn, 'scope, Conn> + Duplicate,
    Shape: ProjectionShape,
    Projection: Projectable + ProjectionParams,
> Subquery for SubquerySelect<'conn, 'scope, Conn, Base, Shape, Projection> where
    <Projection as ProjectionParams>::Params: HAppend<
        <Base as ChainShape>::Params,
    >,
 {
    type Params = <<Projection as ProjectionParams>::Params as HAppend<
        <Base as ChainShape>::Params,
    >>::Output;
}

impl<
    'conn,
    'scope,
    Conn: QueryBuilder + 'conn,
    Base: SelectAst<'conn, 'scope, Conn> + Duplicate,
    Shape: ProjectionShape + ExprKind,
    Projection: Projectable + ProjectionParams,
> ScalarSubquery for SubquerySelect<'conn, 'scope, Conn, Base, Shape, Projection> where
    <Projection as ProjectionParams>::Params: HAppend<
        <Base as ChainShape>::Params,
    >,
 {
    type OutputKind = Shape;
}

impl<
    'conn,
    'scope,
    Conn: QueryBuilder + 'conn,
    Base: RenderSelectAst<'conn, 'scope, Conn, B> + Duplicate,
    Shape: ProjectionShape,
    Projection: RenderProjectable<B>,
    B: Backend,
> RenderSubquery<B> for SubquerySelect<'conn, 'scope, Conn, Base, Shape, Projection> where
    <Projection as ProjectionParams>::Params: HAppend<
        <Base as ChainShape>::Params,
    >,
 {
    open spec fn select_tree(&self) -> SelectTree<Bound<B>> {
        self.selected.select_tree::<Conn, B>()
    }

    fn lower_select(&self) -> (select: SelectTree<Bound<B>>) {
        self.selected.lower::<Conn, B>()
    }

    proof fn lemma_select_params<D: Dialect>(&self, dialect: D) {
        self.selected.law_selected_params::<Conn, B, D>(dialect);
        <<Projection as ProjectionParams>::Params as HAppend<
            <Base as ChainShape>::Params,
        >>::lemma_append_width();
    }

    proof fn lemma_select_plain(&self) {
        <<Projection as ProjectionParams>::Params as HAppend<
            <Base as ChainShape>::Params,
        >>::lemma_append_width();
        self.selected.law_selected_plain::<Conn, B>();
    }
}

/// Hands out subqueries of one query. Each is nested deeper than the query and than those before
/// it, so that no two of them name a source alike.
pub struct Subqueries<'conn, 'scope, Conn> {
    pub connection: &'conn Conn,
    pub next_depth: usize,
    pub _scope: PhantomData<&'scope ()>,
}

impl<'conn, 'scope, Conn> Subqueries<'conn, 'scope, Conn> {
    fn new(connection: &'conn Conn, depth: usize) -> (subqueries: Self)
        ensures
            subqueries == subqueries_at::<Conn>(connection, depth),
    {
        Subqueries { connection, next_depth: depth, _scope: PhantomData }
    }

    /// Starts a subquery from `S`. It shares the scope of the outer query, whose columns it may use.
    pub fn from<S: QuerySource>(&mut self) -> (chain: FromChain<
        'conn,
        'scope,
        Conn,
        RootExprs<'scope, S>,
        RootSource<S>,
    >)
        requires
            old(self).next_depth < usize::MAX,
        ensures
            chain == select::root_chain::<Conn, S>(old(self).connection, old(self).next_depth),
            *final(self) == subqueries_at::<Conn>(
                old(self).connection,
                (old(self).next_depth + 1) as usize,
            ),
    {
        let depth = self.next_depth;
        self.next_depth = depth + 1;
        FromChain::new(self.connection, depth)
    }
}

/// A handle whose next subquery has the given depth.
pub open spec fn subqueries_at<'conn, 'scope, Conn>(
    connection: &'conn Conn,
    depth: usize,
) -> Subqueries<'conn, 'scope, Conn> {
    Subqueries { connection, next_depth: depth, _scope: PhantomData }
}

/// The number of the source that is joined next.
fn next_source<'conn, 'scope, Conn: QueryBuilder + 'conn, Base: SelectAst<'conn, 'scope, Conn>>(
    base: &Base,
) -> (alias: SourceAlias)
    ensures
        alias == next_alias::<Conn, Base>(*base),
{
    proof {
        <Base::Exprs as ToTuple>::lemma_arity();
    }
    SourceAlias::new(base.depth(), <Base::Exprs as HList>::len())
}

/// The alias of the source that is joined next: sources are numbered as they come.
pub open spec fn next_alias<
    'conn,
    'scope,
    Conn: QueryBuilder + 'conn,
    Base: SelectAst<'conn, 'scope, Conn>,
>(base: Base) -> SourceAlias {
    SourceAlias {
        depth: base.nesting(),
        index: <<Base as ChainShape>::Exprs as HList>::width() as usize,
    }
}

/// One `GROUP BY` key or a tuple of them.
pub trait GroupByKeys<'scope, Base>: Sized {
    type Output;

    /// The chain with all of these added, in their order.
    spec fn applied(self, base: Base) -> Self::Output;

    fn apply(self, base: Base) -> (chain: Self::Output)
        ensures
            chain == self.applied(base),
    ;
}

impl<'scope, Base> GroupByKeys<'scope, Base> for () {
    type Output = Base;

    open spec fn applied(self, base: Base) -> Base {
        base
    }

    fn apply(self, base: Base) -> (chain: Base) {
        base
    }
}

impl<'scope, Base, K: ExprKind, Ast: ExprAst + NonAggregateAst> GroupByKeys<'scope, Base> for Expr<'scope, K, Ast> {
    type Output = GroupBy<'scope, Base, K, Ast>;

    open spec fn applied(self, base: Base) -> Self::Output {
        GroupBy { base, key: self }
    }

    fn apply(self, base: Base) -> (chain: Self::Output) {
        GroupBy { base, key: self }
    }
}

impl<'scope, Base, K: ExprKind> GroupByKeys<'scope, Base> for ColumnRef<'scope, K> {
    type Output = GroupBy<'scope, Base, K, ColumnExprAst<K>>;

    open spec fn applied(self, base: Base) -> Self::Output {
        GroupBy {
            base,
            key: Expr {
                ast: self.ast(),
                project_alias: Label::Static(self.project_alias),
                _phantom: PhantomData,
            },
        }
    }

    fn apply(self, base: Base) -> (chain: Self::Output) {
        GroupBy { base, key: self.into_expr() }
    }
}

impl<'scope, Base, T0: GroupByKeys<'scope, Base>> GroupByKeys<
    'scope,
    Base,
> for (T0,) where
    (): GroupByKeys<'scope, <T0 as GroupByKeys<'scope, Base>>::Output>,
 {
    type Output = <() as GroupByKeys<
        'scope,
        <T0 as GroupByKeys<'scope, Base>>::Output,
    >>::Output;

    open spec fn applied(self, base: Base) -> Self::Output {
        GroupByKeys::applied((), GroupByKeys::applied(self.0, base))
    }

    fn apply(self, base: Base) -> (chain: Self::Output) {
        GroupByKeys::apply((), GroupByKeys::apply(self.0, base))
    }
}

impl<'scope, Base, T0: GroupByKeys<'scope, Base>, T1> GroupByKeys<
    'scope,
    Base,
> for (T0, T1) where
    (T1,): GroupByKeys<'scope, <T0 as GroupByKeys<'scope, Base>>::Output>,
 {
    type Output = <(T1,) as GroupByKeys<
        'scope,
        <T0 as GroupByKeys<'scope, Base>>::Output,
    >>::Output;

    open spec fn applied(self, base: Base) -> Self::Output {
        GroupByKeys::applied((self.1,), GroupByKeys::applied(self.0, base))
    }

    fn apply(self, base: Base) -> (chain: Self::Output) {
        GroupByKeys::apply((self.1,), GroupByKeys::apply(self.0, base))
    }
}

impl<'scope, Base, T0: GroupByKeys<'scope, Base>, T1, T2> GroupByKeys<
    'scope,
    Base,
> for (T0, T1, T2) where
    (T1, T2): GroupByKeys<'scope, <T0 as GroupByKeys<'scope, Base>>::Output>,
 {
    type Output = <(T1, T2) as GroupByKeys<
        'scope,
        <T0 as GroupByKeys<'scope, Base>>::Output,
    >>::Output;

    open spec fn applied(self, base: Base) -> Self::Output {
        GroupByKeys::applied((self.1, self.2), GroupByKeys::applied(self.0, base))
    }

    fn apply(self, base: Base) -> (chain: Self::Output) {
        GroupByKeys::apply((self.1, self.2), GroupByKeys::apply(self.0, base))
    }
}

impl<'scope, Base, T0: GroupByKeys<'scope, Base>, T1, T2, T3> GroupByKeys<
    'scope,
    Base,
> for (T0, T1, T2, T3) where
    (T1, T2, T3): GroupByKeys<'scope, <T0 as GroupByKeys<'scope, Base>>::Output>,
 {
    type Output = <(T1, T2, T3) as GroupByKeys<
        'scope,
        <T0 as GroupByKeys<'scope, Base>>::Output,
    >>::Output;

    open spec fn applied(self, base: Base) -> Self::Output {
        GroupByKeys::applied((self.1, self.2, self.3), GroupByKeys::applied(self.0, base))
    }

    fn apply(self, base: Base) -> (chain: Self::Output) {
        GroupByKeys::apply((self.1, self.2, self.3), GroupByKeys::apply(self.0, base))
    }
}

impl<'scope, Base, T0: GroupByKeys<'scope, Base>, T1, T2, T3, T4> GroupByKeys<
    'scope,
    Base,
> for (T0, T1, T2, T3, T4) where
    (T1, T2, T3, T4): GroupByKeys<'scope, <T0 as GroupByKeys<'scope, Base>>::Output>,
 {
    type Output = <(T1, T2, T3, T4) as GroupByKeys<
        'scope,
        <T0 as GroupByKeys<'scope, Base>>::Output,
    >>::Output;

    open spec fn applied(self, base: Base) -> Self::Output {
        GroupByKeys::applied((self.1, self.2, self.3, self.4), GroupByKeys::applied(self.0, base))
    }

    fn apply(self, base: Base) -> (chain: Self::Output) {
        GroupByKeys::apply((self.1, self.2, self.3, self.4), GroupByKeys::apply(self.0, base))
    }
}

impl<'scope, Base, T0: GroupByKeys<'scope, Base>, T1, T2, T3, T4, T5> GroupByKeys<
    'scope,
    Base,
> for (T0, T1, T2, T3, T4, T5) where
    (T1, T2, T3, T4, T5): GroupByKeys<'scope, <T0 as GroupByKeys<'scope, Base>>::Output>,
 {
    type Output = <(T1, T2, T3, T4, T5) as GroupByKeys<
        'scope,
        <T0 as GroupByKeys<'scope, Base>>::Output,
    >>::Output;

    open spec fn applied(self, base: Base) -> Self::Output {
        GroupByKeys::applied((self.1, self.2, self.3, self.4, self.5), GroupByKeys::applied(self.0, base))
    }

    fn apply(self, base: Base) -> (chain: Self::Output) {
        GroupByKeys::apply((self.1, self.2, self.3, self.4, self.5), GroupByKeys::apply(self.0, base))
    }
}

impl<'scope, Base, T0: GroupByKeys<'scope, Base>, T1, T2, T3, T4, T5, T6> GroupByKeys<
    'scope,
    Base,
> for (T0, T1, T2, T3, T4, T5, T6) where
    (T1, T2, T3, T4, T5, T6): GroupByKeys<'scope, <T0 as GroupByKeys<'scope, Base>>::Output>,
 {
    type Output = <(T1, T2, T3, T4, T5, T6) as GroupByKeys<
        'scope,
        <T0 as GroupByKeys<'scope, Base>>::Output,
    >>::Output;

    open spec fn applied(self, base: Base) -> Self::Output {
        GroupByKeys::applied((self.1, self.2, self.3, self.4, self.5, self.6), GroupByKeys::applied(self.0, base))
    }

    fn apply(self, base: Base) -> (chain: Self::Output) {
        GroupByKeys::apply((self.1, self.2, self.3, self.4, self.5, self.6), GroupByKeys::apply(self.0, base))
    }
}

impl<'scope, Base, T0: GroupByKeys<'scope, Base>, T1, T2, T3, T4, T5, T6, T7> GroupByKeys<
    'scope,
    Base,
> for (T0, T1, T2, T3, T4, T5, T6, T7) where
    (T1, T2, T3, T4, T5, T6, T7): GroupByKeys<'scope, <T0 as GroupByKeys<'scope, Base>>::Output>,
 {
    type Output = <(T1, T2, T3, T4, T5, T6, T7) as GroupByKeys<
        'scope,
        <T0 as GroupByKeys<'scope, Base>>::Output,
    >>::Output;

    open spec fn applied(self, base: Base) -> Self::Output {
        GroupByKeys::applied((self.1, self.2, self.3, self.4, self.5, self.6, self.7), GroupByKeys::applied(self.0, base))
    }

    fn apply(self, base: Base) -> (chain: Self::Output) {
        GroupByKeys::apply((self.1, self.2, self.3, self.4, self.5, self.6, self.7), GroupByKeys::apply(self.0, base))
    }
}

/// One `HAVING` condition or a tuple of them.
pub trait HavingPredicates<'scope, Base>: Sized {
    type Output;

    /// The chain with all of these added, in their order.
    spec fn applied(self, base: Base) -> Self::Output;

    fn apply(self, base: Base) -> (chain: Self::Output)
        ensures
            chain == self.applied(base),
    ;
}

impl<'scope, Base> HavingPredicates<'scope, Base> for () {
    type Output = Base;

    open spec fn applied(self, base: Base) -> Base {
        base
    }

    fn apply(self, base: Base) -> (chain: Base) {
        base
    }
}

impl<'scope, Base, P: PredicateKind, Ast: PredicateAst> HavingPredicates<'scope, Base> for Predicate<'scope, P, Ast> {
    type Output = Having<'scope, Base, P, Ast>;

    open spec fn applied(self, base: Base) -> Self::Output {
        Having { base, predicate: self }
    }

    fn apply(self, base: Base) -> (chain: Self::Output) {
        Having { base, predicate: self }
    }
}

impl<'scope, Base, T0: HavingPredicates<'scope, Base>> HavingPredicates<
    'scope,
    Base,
> for (T0,) where
    (): HavingPredicates<'scope, <T0 as HavingPredicates<'scope, Base>>::Output>,
 {
    type Output = <() as HavingPredicates<
        'scope,
        <T0 as HavingPredicates<'scope, Base>>::Output,
    >>::Output;

    open spec fn applied(self, base: Base) -> Self::Output {
        HavingPredicates::applied((), HavingPredicates::applied(self.0, base))
    }

    fn apply(self, base: Base) -> (chain: Self::Output) {
        HavingPredicates::apply((), HavingPredicates::apply(self.0, base))
    }
}

impl<'scope, Base, T0: HavingPredicates<'scope, Base>, T1> HavingPredicates<
    'scope,
    Base,
> for (T0, T1) where
    (T1,): HavingPredicates<'scope, <T0 as HavingPredicates<'scope, Base>>::Output>,
 {
    type Output = <(T1,) as HavingPredicates<
        'scope,
        <T0 as HavingPredicates<'scope, Base>>::Output,
    >>::Output;

    open spec fn applied(self, base: Base) -> Self::Output {
        HavingPredicates::applied((self.1,), HavingPredicates::applied(self.0, base))
    }

    fn apply(self, base: Base) -> (chain: Self::Output) {
        HavingPredicates::apply((self.1,), HavingPredicates::apply(self.0, base))
    }
}

impl<'scope, Base, T0: HavingPredicates<'scope, Base>, T1, T2> HavingPredicates<
    'scope,
    Base,
> for (T0, T1, T2) where
    (T1, T2): HavingPredicates<'scope, <T0 as HavingPredicates<'scope, Base>>::Output>,
 {
    type Output = <(T1, T2) as HavingPredicates<
        'scope,
        <T0 as HavingPredicates<'scope, Base>>::Output,
    >>::Output;

    open spec fn applied(self, base: Base) -> Self::Output {
        HavingPredicates::applied((self.1, self.2), HavingPredicates::applied(self.0, base))
    }

    fn apply(self, base: Base) -> (chain: Self::Output) {
        HavingPredicates::apply((self.1, self.2), HavingPredicates::apply(self.0, base))
    }
}

impl<'scope, Base, T0: HavingPredicates<'scope, Base>, T1, T2, T3> HavingPredicates<
    'scope,
    Base,
> for (T0, T1, T2, T3) where
    (T1, T2, T3): HavingPredicates<'scope, <T0 as HavingPredicates<'scope, Base>>::Output>,
 {
    type Output = <(T1, T2, T3) as HavingPredicates<
        'scope,
        <T0 as HavingPredicates<'scope, Base>>::Output,
    >>::Output;

    open spec fn applied(self, base: Base) -> Self::Output {
        HavingPredicates::applied((self.1, self.2, self.3), HavingPredicates::applied(self.0, base))
    }

    fn apply(self, base: Base) -> (chain: Self::Output) {
        HavingPredicates::apply((self.1, self.2, self.3), HavingPredicates::apply(self.0, base))
    }
}

impl<'scope, Base, T0: HavingPredicates<'scope, Base>, T1, T2, T3, T4> HavingPredicates<
    'scope,
    Base,
> for (T0, T1, T2, T3, T4) where
    (T1, T2, T3, T4): HavingPredicates<'scope, <T0 as HavingPredicates<'scope, Base>>::Output>,
 {
    type Output = <(T1, T2, T3, T4) as HavingPredicates<
        'scope,
        <T0 as HavingPredicates<'scope, Base>>::Output,
    >>::Output;

    open spec fn applied(self, base: Base) -> Self::Output {
        HavingPredicates::applied((self.1, self.2, self.3, self.4), HavingPredicates::applied(self.0, base))
    }

    fn apply(self, base: Base) -> (chain: Self::Output) {
        HavingPredicates::apply((self.1, self.2, self.3, self.4), HavingPredicates::apply(self.0, base))
    }
}

impl<'scope, Base, T0: HavingPredicates<'scope, Base>, T1, T2, T3, T4, T5> HavingPredicates<
    'scope,
    Base,
> for (T0, T1, T2, T3, T4, T5) where
    (T1, T2, T3, T4, T5): HavingPredicates<'scope, <T0 as HavingPredicates<'scope, Base>>::Output>,
 {
    type Output = <(T1, T2, T3, T4, T5) as HavingPredicates<
        'scope,
        <T0 as HavingPredicates<'scope, Base>>::Output,
    >>::Output;

    open spec fn applied(self, base: Base) -> Self::Output {
        HavingPredicates::applied((self.1, self.2, self.3, self.4, self.5), HavingPredicates::applied(self.0, base))
    }

    fn apply(self, base: Base) -> (chain: Self::Output) {
        HavingPredicates::apply((self.1, self.2, self.3, self.4, self.5), HavingPredicates::apply(self.0, base))
    }
}

impl<'scope, Base, T0: HavingPredicates<'scope, Base>, T1, T2, T3, T4, T5, T6> HavingPredicates<
    'scope,
    Base,
> for (T0, T1, T2, T3, T4, T5, T6) where
    (T1, T2, T3, T4, T5, T6): HavingPredicates<'scope, <T0 as HavingPredicates<'scope, Base>>::Output>,
 {
    type Output = <(T1, T2, T3, T4, T5, T6) as HavingPredicates<
        'scope,
        <T0 as HavingPredicates<'scope, Base>>::Output,
    >>::Output;

    open spec fn applied(self, base: Base) -> Self::Output {
        HavingPredicates::applied((self.1, self.2, self.3, self.4, self.5, self.6), HavingPredicates::applied(self.0, base))
    }

    fn apply(self, base: Base) -> (chain: Self::Output) {
        HavingPredicates::apply((self.1, self.2, self.3, self.4, self.5, self.6), HavingPredicates::apply(self.0, base))
    }
}

impl<'scope, Base, T0: HavingPredicates<'scope, Base>, T1, T2, T3, T4, T5, T6, T7> HavingPredicates<
    'scope,
    Base,
> for (T0, T1, T2, T3, T4, T5, T6, T7) where
    (T1, T2, T3, T4, T5, T6, T7): HavingPredicates<'scope, <T0 as HavingPredicates<'scope, Base>>::Output>,
 {
    type Output = <(T1, T2, T3, T4, T5, T6, T7) as HavingPredicates<
        'scope,
        <T0 as HavingPredicates<'scope, Base>>::Output,
    >>::Output;

    open spec fn applied(self, base: Base) -> Self::Output {
        HavingPredicates::applied((self.1, self.2, self.3, self.4, self.5, self.6, self.7), HavingPredicates::applied(self.0, base))
    }

    fn apply(self, base: Base) -> (chain: Self::Output) {
        HavingPredicates::apply((self.1, self.2, self.3, self.4, self.5, self.6, self.7), HavingPredicates::apply(self.0, base))
    }
}

/// One `ORDER BY` term or a tuple of them.
pub trait OrderByTerms<'scope, Base>: Sized {
    type Output;

    /// The chain with all of these added, in their order.
    spec fn applied(self, base: Base) -> Self::Output;

    fn apply(self, base: Base) -> (chain: Self::Output)
        ensures
            chain == self.applied(base),
    ;
}

impl<'scope, Base> OrderByTerms<'scope, Base> for () {
    type Output = Base;

    open spec fn applied(self, base: Base) -> Base {
        base
    }

    fn apply(self, base: Base) -> (chain: Base) {
        base
    }
}

impl<'scope, Base, K: ExprKind, Ast: ExprAst> OrderByTerms<'scope, Base> for Order<'scope, K, Ast> {
    type Output = OrderBy<'scope, Base, K, Ast>;

    open spec fn applied(self, base: Base) -> Self::Output {
        OrderBy { base, order: self }
    }

    fn apply(self, base: Base) -> (chain: Self::Output) {
        OrderBy { base, order: self }
    }
}

impl<'scope, Base, T0: OrderByTerms<'scope, Base>> OrderByTerms<
    'scope,
    Base,
> for (T0,) where
    (): OrderByTerms<'scope, <T0 as OrderByTerms<'scope, Base>>::Output>,
 {
    type Output = <() as OrderByTerms<
        'scope,
        <T0 as OrderByTerms<'scope, Base>>::Output,
    >>::Output;

    open spec fn applied(self, base: Base) -> Self::Output {
        OrderByTerms::applied((), OrderByTerms::applied(self.0, base))
    }

    fn apply(self, base: Base) -> (chain: Self::Output) {
        OrderByTerms::apply((), OrderByTerms::apply(self.0, base))
    }
}

impl<'scope, Base, T0: OrderByTerms<'scope, Base>, T1> OrderByTerms<
    'scope,
    Base,
> for (T0, T1) where
    (T1,): OrderByTerms<'scope, <T0 as OrderByTerms<'scope, Base>>::Output>,
 {
    type Output = <(T1,) as OrderByTerms<
        'scope,
        <T0 as OrderByTerms<'scope, Base>>::Output,
    >>::Output;

    open spec fn applied(self, base: Base) -> Self::Output {
        OrderByTerms::applied((self.1,), OrderByTerms::applied(self.0, base))
    }

    fn apply(self, base: Base) -> (chain: Self::Output) {
        OrderByTerms::apply((self.1,), OrderByTerms::apply(self.0, base))
    }
}

impl<'scope, Base, T0: OrderByTerms<'scope, Base>, T1, T2> OrderByTerms<
    'scope,
    Base,
> for (T0, T1, T2) where
    (T1, T2): OrderByTerms<'scope, <T0 as OrderByTerms<'scope, Base>>::Output>,
 {
    type Output = <(T1, T2) as OrderByTerms<
        'scope,
        <T0 as OrderByTerms<'scope, Base>>::Output,
    >>::Output;

    open spec fn applied(self, base: Base) -> Self::Output {
        OrderByTerms::applied((self.1, self.2), OrderByTerms::applied(self.0, base))
    }

    fn apply(self, base: Base) -> (chain: Self::Output) {
        OrderByTerms::apply((self.1, self.2), OrderByTerms::apply(self.0, base))
    }
}

impl<'scope, Base, T0: OrderByTerms<'scope, Base>, T1, T2, T3> OrderByTerms<
    'scope,
    Base,
> for (T0, T1, T2, T3) where
    (T1, T2, T3): OrderByTerms<'scope, <T0 as OrderByTerms<'scope, Base>>::Output>,
 {
    type Output = <(T1, T2, T3) as OrderByTerms<
        'scope,
        <T0 as OrderByTerms<'scope, Base>>::Output,
    >>::Output;

    open spec fn applied(self, base: Base) -> Self::Output {
        OrderByTerms::applied((self.1, self.2, self.3), OrderByTerms::applied(self.0, base))
    }

    fn apply(self, base: Base) -> (chain: Self::Output) {
        OrderByTerms::apply((self.1, self.2, self.3), OrderByTerms::apply(self.0, base))
    }
}

impl<'scope, Base, T0: OrderByTerms<'scope, Base>, T1, T2, T3, T4> OrderByTerms<
    'scope,
    Base,
> for (T0, T1, T2, T3, T4) where
    (T1, T2, T3, T4): OrderByTerms<'scope, <T0 as OrderByTerms<'scope, Base>>::Output>,
 {
    type Output = <(T1, T2, T3, T4) as OrderByTerms<
        'scope,
        <T0 as OrderByTerms<'scope, Base>>::Output,
    >>::Output;

    open spec fn applied(self, base: Base) -> Self::Output {
        OrderByTerms::applied((self.1, self.2, self.3, self.4), OrderByTerms::applied(self.0, base))
    }

    fn apply(self, base: Base) -> (chain: Self::Output) {
        OrderByTerms::apply((self.1, self.2, self.3, self.4), OrderByTerms::apply(self.0, base))
    }
}

impl<'scope, Base, T0: OrderByTerms<'scope, Base>, T1, T2, T3, T4, T5> OrderByTerms<
    'scope,
    Base,
> for (T0, T1, T2, T3, T4, T5) where
    (T1, T2, T3, T4, T5): OrderByTerms<'scope, <T0 as OrderByTerms<'scope, Base>>::Output>,
 {
    type Output = <(T1, T2, T3, T4, T5) as OrderByTerms<
        'scope,
        <T0 as OrderByTerms<'scope, Base>>::Output,
    >>::Output;

    open spec fn applied(self, base: Base) -> Self::Output {
        OrderByTerms::applied((self.1, self.2, self.3, self.4, self.5), OrderByTerms::applied(self.0, base))
    }

    fn apply(self, base: Base) -> (chain: Self::Output) {
        OrderByTerms::apply((self.1, self.2, self.3, self.4, self.5), OrderByTerms::apply(self.0, base))
    }
}

impl<'scope, Base, T0: OrderByTerms<'scope, Base>, T1, T2, T3, T4, T5, T6> OrderByTerms<
    'scope,
    Base,
> for (T0, T1, T2, T3, T4, T5, T6) where
    (T1, T2, T3, T4, T5, T6): OrderByTerms<'scope, <T0 as OrderByTerms<'scope, Base>>::Output>,
 {
    type Output = <(T1, T2, T3, T4, T5, T6) as OrderByTerms<
        'scope,
        <T0 as OrderByTerms<'scope, Base>>::Output,
    >>::Output;

    open spec fn applied(self, base: Base) -> Self::Output {
        OrderByTerms::applied((self.1, self.2, self.3, self.4, self.5, self.6), OrderByTerms::applied(self.0, base))
    }

    fn apply(self, base: Base) -> (chain: Self::Output) {
        OrderByTerms::apply((self.1, self.2, self.3, self.4, self.5, self.6), OrderByTerms::apply(self.0, base))
    }
}

impl<'scope, Base, T0: OrderByTerms<'scope, Base>, T1, T2, T3, T4, T5, T6, T7> OrderByTerms<
    'scope,
    Base,
> for (T0, T1, T2, T3, T4, T5, T6, T7) where
    (T1, T2, T3, T4, T5, T6, T7): OrderByTerms<'scope, <T0 as OrderByTerms<'scope, Base>>::Output>,
 {
    type Output = <(T1, T2, T3, T4, T5, T6, T7) as OrderByTerms<
        'scope,
        <T0 as OrderByTerms<'scope, Base>>::Output,
    >>::Output;

    open spec fn applied(self, base: Base) -> Self::Output {
        OrderByTerms::applied((self.1, self.2, self.3, self.4, self.5, self.6, self.7), OrderByTerms::applied(self.0, base))
    }

    fn apply(self, base: Base) -> (chain: Self::Output) {
        OrderByTerms::apply((self.1, self.2, self.3, self.4, self.5, self.6, self.7), OrderByTerms::apply(self.0, base))
    }
}

impl<'scope, T0: ReturningProjection<'scope>> ReturningProjection<'scope> for (T0,) {
    type Shape = (T0::Shape,);
}

impl<'scope, T0: ReturningProjection<'scope>, T1: ReturningProjection<'scope>> ReturningProjection<'scope> for (T0, T1) {
    type Shape = (T0::Shape, T1::Shape);
}

impl<'scope, T0: ReturningProjection<'scope>, T1: ReturningProjection<'scope>, T2: ReturningProjection<'scope>> ReturningProjection<'scope> for (T0, T1, T2) {
    type Shape = (T0::Shape, T1::Shape, T2::Shape);
}

impl<'scope, T0: ReturningProjection<'scope>, T1: ReturningProjection<'scope>, T2: ReturningProjection<'scope>, T3: ReturningProjection<'scope>> ReturningProjection<'scope> for (T0, T1, T2, T3) {
    type Shape = (T0::Shape, T1::Shape, T2::Shape, T3::Shape);
}

impl<'scope, T0: ReturningProjection<'scope>, T1: ReturningProjection<'scope>, T2: ReturningProjection<'scope>, T3: ReturningProjection<'scope>, T4: ReturningProjection<'scope>> ReturningProjection<'scope> for (T0, T1, T2, T3, T4) {
    type Shape = (T0::Shape, T1::Shape, T2::Shape, T3::Shape, T4::Shape);
}

impl<'scope, T0: ReturningProjection<'scope>, T1: ReturningProjection<'scope>, T2: ReturningProjection<'scope>, T3: ReturningProjection<'scope>, T4: ReturningProjection<'scope>, T5: ReturningProjection<'scope>> ReturningProjection<'scope> for (T0, T1, T2, T3, T4, T5) {
    type Shape = (T0::Shape, T1::Shape, T2::Shape, T3::Shape, T4::Shape, T5::Shape);
}

impl<'scope, T0: ReturningProjection<'scope>, T1: ReturningProjection<'scope>, T2: ReturningProjection<'scope>, T3: ReturningProjection<'scope>, T4: ReturningProjection<'scope>, T5: ReturningProjection<'scope>, T6: ReturningProjection<'scope>> ReturningProjection<'scope> for (T0, T1, T2, T3, T4, T5, T6) {
    type Shape = (T0::Shape, T1::Shape, T2::Shape, T3::Shape, T4::Shape, T5::Shape, T6::Shape);
}

impl<'scope, T0: ReturningProjection<'scope>, T1: ReturningProjection<'scope>, T2: ReturningProjection<'scope>, T3: ReturningProjection<'scope>, T4: ReturningProjection<'scope>, T5: ReturningProjection<'scope>, T6: ReturningProjection<'scope>, T7: ReturningProjection<'scope>> ReturningProjection<'scope> for (T0, T1, T2, T3, T4, T5, T6, T7) {
    type Shape = (T0::Shape, T1::Shape, T2::Shape, T3::Shape, T4::Shape, T5::Shape, T6::Shape, T7::Shape);
}

/// The steps that a select chain can take next.
pub trait SourceQuery<'conn, 'scope, Conn: QueryBuilder + 'conn>: SelectAst<'conn, 'scope, Conn> {
    /// Adds a `WHERE` condition. Conditions are joined by `AND`.
    fn where_<
        P: PredicateKind,
        Ast: PredicateAst + NonAggregatePredicate,
        F: FnOnce(<Self::Exprs as ToTuple>::Tuple) -> Predicate<'scope, P, Ast>,
    >(self, predicate: F) -> (chain: Where<'scope, Self, P, Ast>)
        requires
            call_requires(predicate, (self.columns().tuple(),)),
        ensures
            chain.base == self,
            call_ensures(predicate, (self.columns().tuple(),), chain.predicate),
    {
        let predicate = predicate(self.exprs().to_tuple());
        Where { base: self, predicate }
    }

    /// Adds `ORDER BY` terms behind those that the chain has.
    fn order_by<Added: OrderByTerms<'scope, Self>, F: FnOnce(<Self::Exprs as ToTuple>::Tuple) -> Added>(
        self,
        orders: F,
    ) -> (chain: Added::Output)
        requires
            call_requires(orders, (self.columns().tuple(),)),
        ensures
            exists|added: Added|
                call_ensures(orders, (self.columns().tuple(),), added) && chain == added.applied(
                    self,
                ),
    {
        let added = orders(self.exprs().to_tuple());
        added.apply(self)
    }

    /// Adds `GROUP BY` keys behind those that the chain has.
    fn group_by<Added: GroupByKeys<'scope, Self>, F: FnOnce(<Self::Exprs as ToTuple>::Tuple) -> Added>(
        self,
        keys: F,
    ) -> (chain: Added::Output)
        requires
            call_requires(keys, (self.columns().tuple(),)),
        ensures
            exists|added: Added|
                call_ensures(keys, (self.columns().tuple(),), added) && chain == added.applied(
                    self,
                ),
    {
        let added = keys(self.exprs().to_tuple());
        added.apply(self)
    }

    /// Adds `HAVING` conditions, which may use aggregates. Conditions are joined by `AND`.
    fn having<Added: HavingPredicates<'scope, Self>, F: FnOnce(<Self::Exprs as ToTuple>::Tuple) -> Added>(
        self,
        predicates: F,
    ) -> (chain: Added::Output)
        requires
            call_requires(predicates, (self.columns().tuple(),)),
        ensures
            exists|added: Added|
                call_ensures(predicates, (self.columns().tuple(),), added) && chain == added.applied(
                    self,
                ),
    {
        let added = predicates(self.exprs().to_tuple());
        added.apply(self)
    }

    /// Adds a `WHERE` condition that may use subqueries over the columns of this query.
    fn where_correlated<
        P: PredicateKind,
        Ast: PredicateAst + NonAggregatePredicate,
        F: FnOnce(<Self::Exprs as ToTuple>::Tuple, Subqueries<'conn, 'scope, Conn>) -> Predicate<
            'scope,
            P,
            Ast,
        >,
    >(self, predicate: F) -> (chain: Where<'scope, Self, P, Ast>)
        requires
            self.nesting() < usize::MAX,
            call_requires(
                predicate,
                (
                    self.columns().tuple(),
                    subqueries_at(self.builder(), (self.nesting() + 1) as usize),
                ),
            ),
        ensures
            chain.base == self,
            call_ensures(
                predicate,
                (
                    self.columns().tuple(),
                    subqueries_at(self.builder(), (self.nesting() + 1) as usize),
                ),
                chain.predicate,
            ),
    {
        let subqueries = Subqueries::new(self.connection(), self.depth() + 1);
        let predicate = predicate(self.exprs().to_tuple(), subqueries);
        Where { base: self, predicate }
    }

    /// Finishes the chain as a query that can stand inside another one.
    fn select_subquery<
        Projected: ReturningProjection<'scope>,
        F: FnOnce(<Self::Exprs as ToTuple>::Tuple) -> Projected,
    >(self, projection: F) -> (subquery: SubquerySelect<
        'conn,
        'scope,
        Conn,
        Self,
        Projected::Shape,
        Projected,
    >) where Self::Grouped: ValidSelect<Projected, Self::OrderClass>
        requires
            call_requires(projection, (self.columns().tuple(),)),
        ensures
            subquery.selected.base == self,
            call_ensures(projection, (self.columns().tuple(),), subquery.selected.projection),
    {
        let projection = projection(self.exprs().to_tuple());
        SubquerySelect { selected: Selected::new(self, projection), _conn: PhantomData }
    }

    /// Limits the rows. A later limit replaces an earlier one.
    fn limit(self, rows: usize) -> (chain: Limited<Self>)
        ensures
            chain == (Limited { base: self, rows }),
    {
        Limited { base: self, rows }
    }

    /// Skips the first rows. A later offset replaces an earlier one.
    fn offset(self, rows: usize) -> (chain: Offset<Self>)
        ensures
            chain == (Offset { base: self, rows }),
    {
        Offset { base: self, rows }
    }

    /// Selects each row once, wherever in the chain this is called.
    fn distinct(self) -> (chain: Distinct<Self>)
        ensures
            chain == (Distinct { base: self }),
    {
        Distinct { base: self }
    }

    /// Starts an `INNER JOIN` with `S`.
    fn join<S: QuerySource>(self) -> (target: JoinTarget<Self, S>)
        ensures
            target.base == self,
    {
        JoinTarget { base: self, _source: PhantomData }
    }

    /// Starts a `LEFT JOIN` with `S`, whose columns may be missing afterwards.
    fn left_join<S: QuerySource>(self) -> (target: LeftJoinTarget<Self, S>)
        ensures
            target.base == self,
    {
        LeftJoinTarget { base: self, _source: PhantomData }
    }

    /// Starts a `RIGHT JOIN` with `S`. The columns of the sources so far may be missing afterwards.
    fn right_join<S: QuerySource>(self) -> (target: RightJoinTarget<Self, S>)
        ensures
            target.base == self,
    {
        RightJoinTarget { base: self, _source: PhantomData }
    }

    /// Starts a `FULL JOIN` with `S`, after which any column may be missing.
    fn full_join<S: QuerySource>(self) -> (target: FullJoinTarget<Self, S>) where Conn::Backend: SupportsFullJoin
        ensures
            target.base == self,
    {
        FullJoinTarget { base: self, _source: PhantomData }
    }

    /// Joins every row of `S` to every row so far.
    fn cross_join<S: QuerySource>(self) -> (chain: Join<
        Self,
        <S as ProjectionShape>::Exprs<'scope>,
        CrossJoinSource<S>,
    >)
        ensures
            chain.base == self,
            chain.source.alias == next_alias::<Conn, Self>(self),
            chain.expr == S::shape_exprs(next_alias::<Conn, Self>(self)),
    {
        let alias = next_source::<Conn, Self>(&self);
        let right = S::exprs(alias);
        Join { base: self, expr: right, source: CrossJoinSource::new(alias) }
    }

    /// Finishes the chain as a query. What it selects has no runtime parameters: those are bound in
    /// the order in which the clauses of the chain are written.
    fn select<
        Projected: ReturningProjection<'scope> + ProjectionParams<Params = HNil>,
        F: FnOnce(<Self::Exprs as ToTuple>::Tuple) -> Projected,
    >(self, projection: F) -> (selected: Selected<'scope, Self, Projected::Shape, Projected>) where
        Self::Grouped: ValidSelect<Projected, Self::OrderClass>,
        <Projected::Shape as ProjectionShape>::Row: Decode<Conn::Backend>,

        requires
            call_requires(projection, (self.columns().tuple(),)),
        ensures
            selected.base == self,
            call_ensures(projection, (self.columns().tuple(),), selected.projection),
    {
        let projection = projection(self.exprs().to_tuple());
        Selected::new(self, projection)
    }

    /// Finishes the chain as a query that is only lowered, never executed.
    fn project<
        Projected: ReturningProjection<'scope>,
        F: FnOnce(<Self::Exprs as ToTuple>::Tuple) -> Projected,
    >(self, projection: F) -> (selected: Selected<'scope, Self, Projected::Shape, Projected>) where
        Self::Grouped: ValidSelect<Projected, Self::OrderClass>,

        requires
            call_requires(projection, (self.columns().tuple(),)),
        ensures
            selected.base == self,
            call_ensures(projection, (self.columns().tuple(),), selected.projection),
    {
        let projection = projection(self.exprs().to_tuple());
        Selected::new(self, projection)
    }

    /// Finishes the chain as a query whose projection may use subqueries over its columns.
    fn select_correlated<
        Projected: ReturningProjection<'scope> + ProjectionParams<Params = HNil>,
        F: FnOnce(<Self::Exprs as ToTuple>::Tuple, Subqueries<'conn, 'scope, Conn>) -> Projected,
    >(self, projection: F) -> (selected: Selected<'scope, Self, Projected::Shape, Projected>) where
        Self::Grouped: ValidSelect<Projected, Self::OrderClass>,
        <Projected::Shape as ProjectionShape>::Row: Decode<Conn::Backend>,

        requires
            self.nesting() < usize::MAX,
            call_requires(
                projection,
                (
                    self.columns().tuple(),
                    subqueries_at(self.builder(), (self.nesting() + 1) as usize),
                ),
            ),
        ensures
            selected.base == self,
            call_ensures(
                projection,
                (
                    self.columns().tuple(),
                    subqueries_at(self.builder(), (self.nesting() + 1) as usize),
                ),
                selected.projection,
            ),
    {
        let subqueries = Subqueries::new(self.connection(), self.depth() + 1);
        let projection = projection(self.exprs().to_tuple(), subqueries);
        Selected::new(self, projection)
    }
}

impl<
    'conn,
    'scope,
    Conn: QueryBuilder + 'conn,
    Query: SelectAst<'conn, 'scope, Conn>,
> SourceQuery<'conn, 'scope, Conn> for Query {

}

/// An `INNER JOIN` that still needs its condition.
pub struct JoinTarget<Base, S> {
    pub base: Base,
    pub _source: PhantomData<S>,
}

impl<Base, S: QuerySource> JoinTarget<Base, S> {
    /// Finishes the join with its condition, over the sources so far and the new one.
    pub fn on<
        'conn,
        'scope,
        Conn: QueryBuilder + 'conn,
        P: PredicateKind,
        Ast: PredicateAst + NonAggregatePredicate,
        F: FnOnce(
            <Base::Exprs as ToTuple>::Tuple,
            <S as ProjectionShape>::Exprs<'scope>,
        ) -> Predicate<'scope, P, Ast>,
    >(self, on: F) -> (chain: Join<
        Base,
        <S as ProjectionShape>::Exprs<'scope>,
        InnerJoinSource<'scope, S, P, Ast>,
    >) where Base: SelectAst<'conn, 'scope, Conn>
        requires
            call_requires(
                on,
                (
                    self.base.columns().tuple(),
                    S::shape_exprs(next_alias::<Conn, Base>(self.base)),
                ),
            ),
        ensures
            chain.base == self.base,
            chain.expr == S::shape_exprs(next_alias::<Conn, Base>(self.base)),
            chain.source.alias == next_alias::<Conn, Base>(self.base),
            call_ensures(
                on,
                (
                    self.base.columns().tuple(),
                    S::shape_exprs(next_alias::<Conn, Base>(self.base)),
                ),
                chain.source.on,
            ),
    {
        let alias = next_source::<Conn, Base>(&self.base);
        let right = S::exprs(alias);
        let condition = on(self.base.exprs().to_tuple(), right.duplicate());
        Join { base: self.base, expr: right, source: InnerJoinSource::new(alias, condition) }
    }
}

/// A `LEFT JOIN` that still needs its condition.
pub struct LeftJoinTarget<Base, S> {
    pub base: Base,
    pub _source: PhantomData<S>,
}

impl<Base, S: QuerySource + SchemaTable> LeftJoinTarget<Base, S> {
    /// Finishes the join with its condition, over the sources so far and the new one.
    pub fn on<
        'conn,
        'scope,
        Conn: QueryBuilder + 'conn,
        P: PredicateKind,
        Ast: PredicateAst + NonAggregatePredicate,
        F: FnOnce(
            <Base::Exprs as ToTuple>::Tuple,
            <S as ProjectionShape>::Exprs<'scope>,
        ) -> Predicate<'scope, P, Ast>,
    >(self, on: F) -> (chain: LeftJoin<
        Base,
        <Maybe<S> as ProjectionShape>::Exprs<'scope>,
        LeftJoinSource<'scope, S, P, Ast>,
    >) where Base: SelectAst<'conn, 'scope, Conn>
        requires
            call_requires(
                on,
                (
                    self.base.columns().tuple(),
                    S::shape_exprs(next_alias::<Conn, Base>(self.base)),
                ),
            ),
        ensures
            chain.base == self.base,
            chain.expr == Maybe::<S>::shape_exprs(next_alias::<Conn, Base>(self.base)),
            chain.source.alias == next_alias::<Conn, Base>(self.base),
            call_ensures(
                on,
                (
                    self.base.columns().tuple(),
                    S::shape_exprs(next_alias::<Conn, Base>(self.base)),
                ),
                chain.source.on,
            ),
    {
        let alias = next_source::<Conn, Base>(&self.base);
        let joined = S::exprs(alias);
        let projected = Maybe::<S>::exprs(alias);
        let condition = on(self.base.exprs().to_tuple(), joined);
        LeftJoin { base: self.base, expr: projected, source: LeftJoinSource::new(alias, condition) }
    }
}

/// A `RIGHT JOIN` that still needs its condition.
pub struct RightJoinTarget<Base, S> {
    pub base: Base,
    pub _source: PhantomData<S>,
}

impl<Base, S: QuerySource> RightJoinTarget<Base, S> {
    /// Finishes the join with its condition, over the sources so far and the new one.
    pub fn on<
        'conn,
        'scope,
        Conn: QueryBuilder + 'conn,
        P: PredicateKind,
        Ast: PredicateAst + NonAggregatePredicate,
        F: FnOnce(
            <Base::Exprs as ToTuple>::Tuple,
            <S as ProjectionShape>::Exprs<'scope>,
        ) -> Predicate<'scope, P, Ast>,
    >(self, on: F) -> (chain: OuterJoin<
        Base,
        <S as ProjectionShape>::Exprs<'scope>,
        RightJoinSource<'scope, S, P, Ast>,
    >) where Base: SelectAst<'conn, 'scope, Conn>
        requires
            call_requires(
                on,
                (
                    self.base.columns().tuple(),
                    S::shape_exprs(next_alias::<Conn, Base>(self.base)),
                ),
            ),
        ensures
            chain.base == self.base,
            chain.expr == S::shape_exprs(next_alias::<Conn, Base>(self.base)),
            chain.source.alias == next_alias::<Conn, Base>(self.base),
            call_ensures(
                on,
                (
                    self.base.columns().tuple(),
                    S::shape_exprs(next_alias::<Conn, Base>(self.base)),
                ),
                chain.source.on,
            ),
    {
        let alias = next_source::<Conn, Base>(&self.base);
        let right = S::exprs(alias);
        let condition = on(self.base.exprs().to_tuple(), right.duplicate());
        OuterJoin { base: self.base, expr: right, source: RightJoinSource::new(alias, condition) }
    }
}

/// A `FULL JOIN` that still needs its condition.
pub struct FullJoinTarget<Base, S> {
    pub base: Base,
    pub _source: PhantomData<S>,
}

impl<Base, S: QuerySource + SchemaTable> FullJoinTarget<Base, S> {
    /// Finishes the join with its condition, over the sources so far and the new one.
    pub fn on<
        'conn,
        'scope,
        Conn: QueryBuilder + 'conn,
        P: PredicateKind,
        Ast: PredicateAst + NonAggregatePredicate,
        F: FnOnce(
            <Base::Exprs as ToTuple>::Tuple,
            <S as ProjectionShape>::Exprs<'scope>,
        ) -> Predicate<'scope, P, Ast>,
    >(self, on: F) -> (chain: OuterJoin<
        Base,
        <Maybe<S> as ProjectionShape>::Exprs<'scope>,
        FullJoinSource<'scope, S, P, Ast>,
    >) where Base: SelectAst<'conn, 'scope, Conn>
        requires
            call_requires(
                on,
                (
                    self.base.columns().tuple(),
                    S::shape_exprs(next_alias::<Conn, Base>(self.base)),
                ),
            ),
        ensures
            chain.base == self.base,
            chain.expr == Maybe::<S>::shape_exprs(next_alias::<Conn, Base>(self.base)),
            chain.source.alias == next_alias::<Conn, Base>(self.base),
            call_ensures(
                on,
                (
                    self.base.columns().tuple(),
                    S::shape_exprs(next_alias::<Conn, Base>(self.base)),
                ),
                chain.source.on,
            ),
    {
        let alias = next_source::<Conn, Base>(&self.base);
        let joined = S::exprs(alias);
        let projected = Maybe::<S>::exprs(alias);
        let condition = on(self.base.exprs().to_tuple(), joined);
        OuterJoin { base: self.base, expr: projected, source: FullJoinSource::new(alias, condition) }
    }
}

} // verus!
