//! The sources of a query: the table behind `FROM`, and the joins.
use crate::backend::{Backend, Bound};
use crate::chain::List;
use crate::dialect::Dialect;
use crate::expr::kind::PredicateKind;
use crate::expr::predicate::{PredicateAst, RenderPredicateAst};
use crate::expr::Predicate;
use crate::grammar;
use crate::plain;
use crate::label::Duplicate;
use crate::list::{HList, HNil};
use crate::ops::SourceAlias;
use crate::projection::{table_ref, QuerySource};
use crate::projection;
use crate::tokens;
use crate::tree::{CteDef, JoinTree, SourceTree};
use core::marker::PhantomData;
use vstd::prelude::*;

verus! {

broadcast use crate::tokens::group_tokens;

/// A source of a query, with the shape of its runtime parameters.
pub trait SourceSpec: Duplicate {
    type Params: HList;

    /// The common table expressions that the source refers to.
    spec fn ctes(&self) -> Seq<CteDef>;

    /// Adds the definition that the source needs in the query's `WITH` clause, if it needs one.
    fn collect_ctes(&self, ctes: &mut Vec<CteDef>)
        ensures
            final(ctes)@ == old(ctes)@ + self.ctes(),
    ;
}

/// How a source lowers for a backend.
pub trait RenderSourceSpec<B: Backend>: SourceSpec {
    /// The source as it stands in the query.
    spec fn source_tree(&self) -> SourceTree<Bound<B>>;

    fn lower_source(&self) -> (source: SourceTree<Bound<B>>)
        ensures
            source == self.source_tree(),
    ;

    /// The parameter shape has one entry for each runtime parameter of the join condition.
    proof fn lemma_source_params<D: Dialect>(&self, dialect: D)
        ensures
            tokens::runtimes(grammar::source_list_tokens(dialect, false, only(self.source_tree())))
                == <Self::Params as HList>::width(),
    ;

    /// Without entries in the parameter shape there is no runtime parameter.
    proof fn lemma_source_plain(&self)
        requires
            <Self::Params as HList>::width() == 0,
        ensures
            plain::plain_join(self.source_tree().join),
    ;
}

/// The list of one source.
pub open spec fn only<L>(source: SourceTree<L>) -> List<SourceTree<L>> {
    List::Cons { head: Box::new(source), tail: Box::new(List::Nil) }
}

/// The definition that `S` needs, if it is a common table expression.
pub open spec fn source_ctes<S: QuerySource>() -> Seq<CteDef> {
    match S::source_cte() {
        Some(def) => seq![def],
        None => Seq::empty(),
    }
}

fn collect_source_cte<S: QuerySource>(ctes: &mut Vec<CteDef>)
    ensures
        final(ctes)@ == old(ctes)@ + source_ctes::<S>(),
{
    match S::cte_def() {
        Some(def) => {
            ctes.push(def);
            assert(ctes@ =~= old(ctes)@ + source_ctes::<S>());
        },
        None => {
            assert(ctes@ =~= old(ctes)@ + source_ctes::<S>());
        },
    }
}

/// The first source of a query, behind `FROM`.
pub struct RootSource<S> {
    pub alias: SourceAlias,
    pub _phantom: PhantomData<S>,
}

impl<S> RootSource<S> {
    pub fn new(alias: SourceAlias) -> (source: Self)
        ensures
            source.alias == alias,
    {
        RootSource { alias, _phantom: PhantomData }
    }
}

impl<S> Duplicate for RootSource<S> {
    fn duplicate(&self) -> (copy: Self) {
        RootSource { alias: self.alias, _phantom: PhantomData }
    }
}

impl<S: QuerySource> SourceSpec for RootSource<S> {
    type Params = HNil;

    open spec fn ctes(&self) -> Seq<CteDef> {
        source_ctes::<S>()
    }

    fn collect_ctes(&self, ctes: &mut Vec<CteDef>) {
        collect_source_cte::<S>(ctes)
    }
}

impl<S: QuerySource, B: Backend> RenderSourceSpec<B> for RootSource<S> {
    open spec fn source_tree(&self) -> SourceTree<Bound<B>> {
        SourceTree { alias: self.alias, table: projection::table_of::<S>(), join: JoinTree::Table }
    }

    fn lower_source(&self) -> (source: SourceTree<Bound<B>>) {
        SourceTree { alias: self.alias, table: table_ref::<S>(), join: JoinTree::Table }
    }

    proof fn lemma_source_params<D: Dialect>(&self, dialect: D) {
        assert(grammar::source_list_tokens::<D, Bound<B>>(dialect, false, List::Nil) == Seq::<
            tokens::Token<Bound<B>>,
        >::empty());
        assert(<HNil as HList>::width() == 0);
    }

    proof fn lemma_source_plain(&self) {
    }
}

/// A source that an `INNER JOIN` adds.
pub struct InnerJoinSource<'scope, S, P: PredicateKind, Ast: PredicateAst> {
    pub alias: SourceAlias,
    pub on: Predicate<'scope, P, Ast>,
    pub _phantom: PhantomData<S>,
}

impl<'scope, S, P: PredicateKind, Ast: PredicateAst> InnerJoinSource<'scope, S, P, Ast> {
    pub fn new(alias: SourceAlias, on: Predicate<'scope, P, Ast>) -> (source: Self)
        ensures
            source.alias == alias,
            source.on == on,
    {
        InnerJoinSource { alias, on, _phantom: PhantomData }
    }
}

impl<'scope, S, P: PredicateKind, Ast: PredicateAst> Duplicate for InnerJoinSource<'scope, S, P, Ast> {
    fn duplicate(&self) -> (copy: Self) {
        InnerJoinSource { alias: self.alias, on: self.on.duplicate(), _phantom: PhantomData }
    }
}

impl<'scope, S: QuerySource, P: PredicateKind, Ast: PredicateAst> SourceSpec for InnerJoinSource<
    'scope,
    S,
    P,
    Ast,
> {
    type Params = Ast::Params;

    open spec fn ctes(&self) -> Seq<CteDef> {
        source_ctes::<S>()
    }

    fn collect_ctes(&self, ctes: &mut Vec<CteDef>) {
        collect_source_cte::<S>(ctes)
    }
}

impl<
    'scope,
    S: QuerySource,
    P: PredicateKind,
    Ast: RenderPredicateAst<B>,
    B: Backend,
> RenderSourceSpec<B> for InnerJoinSource<'scope, S, P, Ast> {
    open spec fn source_tree(&self) -> SourceTree<Bound<B>> {
        SourceTree {
            alias: self.alias,
            table: projection::table_of::<S>(),
            join: JoinTree::Inner(self.on.ast.condition()),
        }
    }

    fn lower_source(&self) -> (source: SourceTree<Bound<B>>) {
        SourceTree {
            alias: self.alias,
            table: table_ref::<S>(),
            join: JoinTree::Inner(self.on.ast.lower_condition()),
        }
    }

    proof fn lemma_source_params<D: Dialect>(&self, dialect: D) {
        assert(grammar::source_list_tokens::<D, Bound<B>>(dialect, false, List::Nil) == Seq::<
            tokens::Token<Bound<B>>,
        >::empty());
        self.on.ast.lemma_condition_params(dialect, false);
    }

    proof fn lemma_source_plain(&self) {
        self.on.ast.lemma_condition_plain();
    }
}

/// A source that a `LEFT JOIN` adds.
pub struct LeftJoinSource<'scope, S, P: PredicateKind, Ast: PredicateAst> {
    pub alias: SourceAlias,
    pub on: Predicate<'scope, P, Ast>,
    pub _phantom: PhantomData<S>,
}

impl<'scope, S, P: PredicateKind, Ast: PredicateAst> LeftJoinSource<'scope, S, P, Ast> {
    pub fn new(alias: SourceAlias, on: Predicate<'scope, P, Ast>) -> (source: Self)
        ensures
            source.alias == alias,
            source.on == on,
    {
        LeftJoinSource { alias, on, _phantom: PhantomData }
    }
}

impl<'scope, S, P: PredicateKind, Ast: PredicateAst> Duplicate for LeftJoinSource<'scope, S, P, Ast> {
    fn duplicate(&self) -> (copy: Self) {
        LeftJoinSource { alias: self.alias, on: self.on.duplicate(), _phantom: PhantomData }
    }
}

impl<'scope, S: QuerySource, P: PredicateKind, Ast: PredicateAst> SourceSpec for LeftJoinSource<
    'scope,
    S,
    P,
    Ast,
> {
    type Params = Ast::Params;

    open spec fn ctes(&self) -> Seq<CteDef> {
        source_ctes::<S>()
    }

    fn collect_ctes(&self, ctes: &mut Vec<CteDef>) {
        collect_source_cte::<S>(ctes)
    }
}

impl<
    'scope,
    S: QuerySource,
    P: PredicateKind,
    Ast: RenderPredicateAst<B>,
    B: Backend,
> RenderSourceSpec<B> for LeftJoinSource<'scope, S, P, Ast> {
    open spec fn source_tree(&self) -> SourceTree<Bound<B>> {
        SourceTree {
            alias: self.alias,
            table: projection::table_of::<S>(),
            join: JoinTree::Left(self.on.ast.condition()),
        }
    }

    fn lower_source(&self) -> (source: SourceTree<Bound<B>>) {
        SourceTree {
            alias: self.alias,
            table: table_ref::<S>(),
            join: JoinTree::Left(self.on.ast.lower_condition()),
        }
    }

    proof fn lemma_source_params<D: Dialect>(&self, dialect: D) {
        assert(grammar::source_list_tokens::<D, Bound<B>>(dialect, false, List::Nil) == Seq::<
            tokens::Token<Bound<B>>,
        >::empty());
        self.on.ast.lemma_condition_params(dialect, false);
    }

    proof fn lemma_source_plain(&self) {
        self.on.ast.lemma_condition_plain();
    }
}

/// A source that a `RIGHT JOIN` adds.
pub struct RightJoinSource<'scope, S, P: PredicateKind, Ast: PredicateAst> {
    pub alias: SourceAlias,
    pub on: Predicate<'scope, P, Ast>,
    pub _phantom: PhantomData<S>,
}

impl<'scope, S, P: PredicateKind, Ast: PredicateAst> RightJoinSource<'scope, S, P, Ast> {
    pub fn new(alias: SourceAlias, on: Predicate<'scope, P, Ast>) -> (source: Self)
        ensures
            source.alias == alias,
            source.on == on,
    {
        RightJoinSource { alias, on, _phantom: PhantomData }
    }
}

impl<'scope, S, P: PredicateKind, Ast: PredicateAst> Duplicate for RightJoinSource<'scope, S, P, Ast> {
    fn duplicate(&self) -> (copy: Self) {
        RightJoinSource { alias: self.alias, on: self.on.duplicate(), _phantom: PhantomData }
    }
}

impl<'scope, S: QuerySource, P: PredicateKind, Ast: PredicateAst> SourceSpec for RightJoinSource<
    'scope,
    S,
    P,
    Ast,
> {
    type Params = Ast::Params;

    open spec fn ctes(&self) -> Seq<CteDef> {
        source_ctes::<S>()
    }

    fn collect_ctes(&self, ctes: &mut Vec<CteDef>) {
        collect_source_cte::<S>(ctes)
    }
}

impl<
    'scope,
    S: QuerySource,
    P: PredicateKind,
    Ast: RenderPredicateAst<B>,
    B: Backend,
> RenderSourceSpec<B> for RightJoinSource<'scope, S, P, Ast> {
    open spec fn source_tree(&self) -> SourceTree<Bound<B>> {
        SourceTree {
            alias: self.alias,
            table: projection::table_of::<S>(),
            join: JoinTree::Right(self.on.ast.condition()),
        }
    }

    fn lower_source(&self) -> (source: SourceTree<Bound<B>>) {
        SourceTree {
            alias: self.alias,
            table: table_ref::<S>(),
            join: JoinTree::Right(self.on.ast.lower_condition()),
        }
    }

    proof fn lemma_source_params<D: Dialect>(&self, dialect: D) {
        assert(grammar::source_list_tokens::<D, Bound<B>>(dialect, false, List::Nil) == Seq::<
            tokens::Token<Bound<B>>,
        >::empty());
        self.on.ast.lemma_condition_params(dialect, false);
    }

    proof fn lemma_source_plain(&self) {
        self.on.ast.lemma_condition_plain();
    }
}

/// A source that a `FULL JOIN` adds.
pub struct FullJoinSource<'scope, S, P: PredicateKind, Ast: PredicateAst> {
    pub alias: SourceAlias,
    pub on: Predicate<'scope, P, Ast>,
    pub _phantom: PhantomData<S>,
}

impl<'scope, S, P: PredicateKind, Ast: PredicateAst> FullJoinSource<'scope, S, P, Ast> {
    pub fn new(alias: SourceAlias, on: Predicate<'scope, P, Ast>) -> (source: Self)
        ensures
            source.alias == alias,
            source.on == on,
    {
        FullJoinSource { alias, on, _phantom: PhantomData }
    }
}

impl<'scope, S, P: PredicateKind, Ast: PredicateAst> Duplicate for FullJoinSource<'scope, S, P, Ast> {
    fn duplicate(&self) -> (copy: Self) {
        FullJoinSource { alias: self.alias, on: self.on.duplicate(), _phantom: PhantomData }
    }
}

impl<'scope, S: QuerySource, P: PredicateKind, Ast: PredicateAst> SourceSpec for FullJoinSource<
    'scope,
    S,
    P,
    Ast,
> {
    type Params = Ast::Params;

    open spec fn ctes(&self) -> Seq<CteDef> {
        source_ctes::<S>()
    }

    fn collect_ctes(&self, ctes: &mut Vec<CteDef>) {
        collect_source_cte::<S>(ctes)
    }
}

impl<
    'scope,
    S: QuerySource,
    P: PredicateKind,
    Ast: RenderPredicateAst<B>,
    B: Backend,
> RenderSourceSpec<B> for FullJoinSource<'scope, S, P, Ast> {
    open spec fn source_tree(&self) -> SourceTree<Bound<B>> {
        SourceTree {
            alias: self.alias,
            table: projection::table_of::<S>(),
            join: JoinTree::Full(self.on.ast.condition()),
        }
    }

    fn lower_source(&self) -> (source: SourceTree<Bound<B>>) {
        SourceTree {
            alias: self.alias,
            table: table_ref::<S>(),
            join: JoinTree::Full(self.on.ast.lower_condition()),
        }
    }

    proof fn lemma_source_params<D: Dialect>(&self, dialect: D) {
        assert(grammar::source_list_tokens::<D, Bound<B>>(dialect, false, List::Nil) == Seq::<
            tokens::Token<Bound<B>>,
        >::empty());
        self.on.ast.lemma_condition_params(dialect, false);
    }

    proof fn lemma_source_plain(&self) {
        self.on.ast.lemma_condition_plain();
    }
}

/// A source that a `CROSS JOIN` adds.
pub struct CrossJoinSource<S> {
    pub alias: SourceAlias,
    pub _phantom: PhantomData<S>,
}

impl<S> CrossJoinSource<S> {
    pub fn new(alias: SourceAlias) -> (source: Self)
        ensures
            source.alias == alias,
    {
        CrossJoinSource { alias, _phantom: PhantomData }
    }
}

impl<S> Duplicate for CrossJoinSource<S> {
    fn duplicate(&self) -> (copy: Self) {
        CrossJoinSource { alias: self.alias, _phantom: PhantomData }
    }
}

impl<S: QuerySource> SourceSpec for CrossJoinSource<S> {
    type Params = HNil;

    open spec fn ctes(&self) -> Seq<CteDef> {
        source_ctes::<S>()
    }

    fn collect_ctes(&self, ctes: &mut Vec<CteDef>) {
        collect_source_cte::<S>(ctes)
    }
}

impl<S: QuerySource, B: Backend> RenderSourceSpec<B> for CrossJoinSource<S> {
    open spec fn source_tree(&self) -> SourceTree<Bound<B>> {
        SourceTree { alias: self.alias, table: projection::table_of::<S>(), join: JoinTree::Cross }
    }

    fn lower_source(&self) -> (source: SourceTree<Bound<B>>) {
        SourceTree { alias: self.alias, table: table_ref::<S>(), join: JoinTree::Cross }
    }

    proof fn lemma_source_params<D: Dialect>(&self, dialect: D) {
        assert(grammar::source_list_tokens::<D, Bound<B>>(dialect, false, List::Nil) == Seq::<
            tokens::Token<Bound<B>>,
        >::empty());
        assert(<HNil as HList>::width() == 0);
    }

    proof fn lemma_source_plain(&self) {
    }
}

} // verus!
