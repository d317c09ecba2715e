//! Projections: what a query selects, and under which names.
use crate::backend::{Backend, Bound, Encode};
use crate::chain::List;
use crate::dialect::Dialect;
use crate::expr::ast::{ColumnExprAst, ExprAst, RenderAst};
use crate::expr::class::{
    ColumnFree, ProjectionClass, ProjectionColumns, ReturnableProjection, ScalarProjection,
};
use crate::expr::kind::{
    AddExpr, AvgExpr, CountExpr, DivideExpr, ExprKind, MaxExpr, MinExpr, MultiplyExpr, Nullable,
    ProjectionParams, ScalarNullable, SubtractExpr, SumExpr,
};
use crate::expr::{ColumnRef, Expr};
use crate::grammar;
use crate::label::{Duplicate, Label};
use crate::list::{HAppend, HList, HNil};
use crate::meta::{Column, Index, Schema, TablePrimaryKey, TableUnique};
use crate::meta;
use crate::number::{Float32, Float64};
use crate::ops::SourceAlias;
use crate::plain;
use crate::tokens;
use crate::tree::{CteDef, Encoded, ExprTree, ProjectionTree, TableRef};
use core::marker::PhantomData;
use vstd::prelude::*;

pub mod tuples;
pub mod wide;
pub mod wider;

verus! {

broadcast use crate::tokens::group_tokens;

/// A projection shape: it gives the expressions that select it from a source.
pub trait ProjectionShape {
    type Exprs<'scope>: Projectable;

    type ReboundExprs<'scope>;

    /// What one selected row becomes.
    type Row: Send;

    open spec fn shape_exprs<'scope>(alias: SourceAlias) -> Self::Exprs<'scope> {
        arbitrary()
    }

    open spec fn shape_rebound<'scope>(alias: SourceAlias) -> Self::ReboundExprs<'scope> {
        arbitrary()
    }

    /// The expressions that select this shape from the source `alias`.
    fn exprs<'scope>(alias: SourceAlias) -> (exprs: Self::Exprs<'scope>)
        ensures
            exprs == Self::shape_exprs(alias),
    ;

    /// The expressions that select what a subquery `alias` has projected in this shape.
    fn rebound_exprs<'scope>(alias: SourceAlias) -> (exprs: Self::ReboundExprs<'scope>)
        ensures
            exprs == Self::shape_rebound(alias),
    ;
}

/// A value whose expressions can be selected, or bound anew to the alias of a subquery.
pub trait Projectable: Duplicate {
    type Rebound<'scope>;

    /// These expressions as columns of the source `alias`, found under their output names.
    open spec fn rebound<'scope>(&self, alias: SourceAlias) -> Self::Rebound<'scope> {
        arbitrary()
    }

    /// Whether `rebound` is these expressions as columns of the source `alias`, found under their
    /// output names with `prefix` before them.
    open spec fn rebinds_with_prefix<'scope>(
        &self,
        alias: SourceAlias,
        prefix: Seq<char>,
        rebound: Self::Rebound<'scope>,
    ) -> bool {
        arbitrary()
    }

    fn re_alias<'scope>(&self, alias: SourceAlias) -> (rebound: Self::Rebound<'scope>)
        ensures
            rebound == self.rebound(alias),
    ;

    fn re_alias_with_prefix<'scope>(&self, alias: SourceAlias, prefix: &str) -> (rebound:
        Self::Rebound<'scope>)
        ensures
            self.rebinds_with_prefix(alias, prefix@, rebound),
    ;
}

/// How a projection lowers for a backend.
pub trait RenderProjectable<B: Backend>: Projectable + ProjectionParams {
    /// The selected expressions with their output names.
    open spec fn items(&self) -> List<ProjectionTree<Bound<B>>> {
        arbitrary()
    }

    fn lower_projection(&self) -> (items: List<ProjectionTree<Bound<B>>>)
        ensures
            items == self.items(),
    ;

    /// The selected expressions with `prefix` before each output name.
    fn lower_projection_with_prefix(&self, prefix: &str) -> (items: List<
        ProjectionTree<Bound<B>>,
    >)
        ensures
            is_prefixed(self.items(), prefix@, items),
    ;

    /// The parameter shape has one entry for each runtime parameter that is written.
    proof fn lemma_projection_params<D: Dialect>(&self, dialect: D, bare: bool, lead: Seq<char>)
        ensures
            tokens::runtimes(grammar::projection_tokens(dialect, bare, lead, self.items()))
                == <Self::Params as HList>::width(),
    ;

    /// Without entries in the parameter shape there is no runtime parameter.
    proof fn lemma_projection_plain(&self)
        requires
            <Self::Params as HList>::width() == 0,
        ensures
            plain::plain_projection(self.items()),
    ;
}

/// A projection without runtime parameters has none in either part.
pub proof fn lemma_plain_parts<L>(items: List<ProjectionTree<L>>, more: List<ProjectionTree<L>>)
    ensures
        plain::plain_projection(items.then_list(more)) == (plain::plain_projection(items)
            && plain::plain_projection(more)),
    decreases items,
{
    match items {
        List::Nil => {},
        List::Cons { head, tail } => {
            lemma_plain_parts(*tail, more);
        },
    }
}

/// An output name behind a prefix.
pub open spec fn prefixed_name(prefix: Seq<char>, name: Seq<char>) -> Seq<char> {
    prefix + "_"@ + name
}

/// Whether `items` selects what `plain` selects, with `prefix` before each output name.
pub open spec fn is_prefixed<L>(
    plain: List<ProjectionTree<L>>,
    prefix: Seq<char>,
    items: List<ProjectionTree<L>>,
) -> bool
    decreases plain,
{
    match (plain, items) {
        (List::Nil, List::Nil) => true,
        (
            List::Cons { head: plain_head, tail: plain_tail },
            List::Cons { head, tail },
        ) => head.expr == plain_head.expr && head.alias@ == prefixed_name(prefix, plain_head.alias@)
            && is_prefixed(*plain_tail, prefix, *tail),
        _ => false,
    }
}

/// Prefixing a list is prefixing its parts.
pub proof fn lemma_prefixed_parts<L>(
    plain: List<ProjectionTree<L>>,
    more: List<ProjectionTree<L>>,
    prefix: Seq<char>,
    items: List<ProjectionTree<L>>,
    more_items: List<ProjectionTree<L>>,
)
    requires
        is_prefixed(plain, prefix, items),
        is_prefixed(more, prefix, more_items),
    ensures
        is_prefixed(plain.then_list(more), prefix, items.then_list(more_items)),
    decreases plain,
{
    match (plain, items) {
        (
            List::Cons { head: plain_head, tail: plain_tail },
            List::Cons { head, tail },
        ) => {
            lemma_prefixed_parts(*plain_tail, more, prefix, *tail, more_items);
        },
        _ => {},
    }
}

/// A projection of two parts has the runtime parameters of both.
pub proof fn lemma_projection_parts<D: Dialect, L>(
    dialect: D,
    bare: bool,
    lead: Seq<char>,
    items: List<ProjectionTree<L>>,
    more: List<ProjectionTree<L>>,
)
    ensures
        tokens::runtimes(grammar::projection_tokens(dialect, bare, lead, items.then_list(more)))
            == tokens::runtimes(grammar::projection_tokens(dialect, bare, lead, items))
            + tokens::runtimes(
            grammar::projection_tokens(
                dialect,
                bare,
                if items is Nil {
                    lead
                } else {
                    ", "@
                },
                more,
            ),
        ),
    decreases items,
{
    match items {
        List::Nil => {},
        List::Cons { head, tail } => {
            lemma_projection_parts(dialect, bare, ", "@, *tail, more);
        },
    }
}

/// A name behind a prefix, as an owned string.
fn prefix_alias(prefix: &str, alias: &str) -> (name: Label)
    ensures
        name@ == prefixed_name(prefix@, alias@),
{
    let mut text = String::from_str(prefix);
    text.append("_");
    text.append(alias);
    Label::Owned(text)
}

/// A column expression whose output name is the column's.
pub open spec fn named_column<'scope, K>(alias: SourceAlias, name: Label) -> Expr<'scope, K> {
    Expr {
        ast: ColumnExprAst { alias, column: name, _kind: PhantomData },
        project_alias: name,
        _phantom: PhantomData,
    }
}

/// A column reference whose output name is the column's.
pub open spec fn named_reference<'scope, K>(
    alias: SourceAlias,
    name: &'static str,
) -> ColumnRef<'scope, K> {
    ColumnRef { alias, column: name, project_alias: name, _phantom: PhantomData }
}

/// Whether `expr` is the column of `alias` that is named `name` behind `prefix`, selected as `name`.
pub open spec fn is_prefixed_column<'scope, K>(
    alias: SourceAlias,
    prefix: Seq<char>,
    name: Seq<char>,
    expr: Expr<'scope, K>,
) -> bool {
    &&& expr.ast.alias == alias
    &&& expr.ast.column@ == prefixed_name(prefix, name)
    &&& expr.project_alias@ == name
}

pub(crate) fn column_named<'scope, K>(alias: SourceAlias, name: Label) -> (expr: Expr<'scope, K>)
    ensures
        expr == named_column::<K>(alias, name),
{
    let project_alias = name.duplicate();
    Expr {
        ast: ColumnExprAst { alias, column: name, _kind: PhantomData },
        project_alias,
        _phantom: PhantomData,
    }
}

fn column_prefixed<'scope, K>(alias: SourceAlias, prefix: &str, name: Label) -> (expr: Expr<
    'scope,
    K,
>)
    ensures
        is_prefixed_column(alias, prefix@, name@, expr),
{
    let column = prefix_alias(prefix, name.as_str());
    Expr {
        ast: ColumnExprAst { alias, column, _kind: PhantomData },
        project_alias: name,
        _phantom: PhantomData,
    }
}

impl Duplicate for () {
    fn duplicate(&self) -> (copy: ()) {
        ()
    }
}

impl ProjectionShape for () {
    type Exprs<'scope> = ();

    type ReboundExprs<'scope> = ();

    type Row = ();

    open spec fn shape_exprs<'scope>(alias: SourceAlias) -> Self::Exprs<'scope> {
        ()
    }

    open spec fn shape_rebound<'scope>(alias: SourceAlias) -> Self::ReboundExprs<'scope> {
        ()
    }

    fn exprs<'scope>(alias: SourceAlias) -> (exprs: Self::Exprs<'scope>) {
        ()
    }

    fn rebound_exprs<'scope>(alias: SourceAlias) -> (exprs: Self::ReboundExprs<'scope>) {
        ()
    }
}

impl ProjectionShape for i8 {
    type Exprs<'scope> = Expr<'scope, i8>;

    type ReboundExprs<'scope> = Expr<'scope, i8>;

    type Row = i8;

    open spec fn shape_exprs<'scope>(alias: SourceAlias) -> Self::Exprs<'scope> {
        named_column(alias, Label::Static("expr"))
    }

    open spec fn shape_rebound<'scope>(alias: SourceAlias) -> Self::ReboundExprs<'scope> {
        named_column(alias, Label::Static("expr"))
    }

    fn exprs<'scope>(alias: SourceAlias) -> (exprs: Self::Exprs<'scope>) {
        column_named(alias, Label::Static("expr"))
    }

    fn rebound_exprs<'scope>(alias: SourceAlias) -> (exprs: Self::ReboundExprs<'scope>) {
        column_named(alias, Label::Static("expr"))
    }
}

impl ProjectionShape for i16 {
    type Exprs<'scope> = Expr<'scope, i16>;

    type ReboundExprs<'scope> = Expr<'scope, i16>;

    type Row = i16;

    open spec fn shape_exprs<'scope>(alias: SourceAlias) -> Self::Exprs<'scope> {
        named_column(alias, Label::Static("expr"))
    }

    open spec fn shape_rebound<'scope>(alias: SourceAlias) -> Self::ReboundExprs<'scope> {
        named_column(alias, Label::Static("expr"))
    }

    fn exprs<'scope>(alias: SourceAlias) -> (exprs: Self::Exprs<'scope>) {
        column_named(alias, Label::Static("expr"))
    }

    fn rebound_exprs<'scope>(alias: SourceAlias) -> (exprs: Self::ReboundExprs<'scope>) {
        column_named(alias, Label::Static("expr"))
    }
}

impl ProjectionShape for i32 {
    type Exprs<'scope> = Expr<'scope, i32>;

    type ReboundExprs<'scope> = Expr<'scope, i32>;

    type Row = i32;

    open spec fn shape_exprs<'scope>(alias: SourceAlias) -> Self::Exprs<'scope> {
        named_column(alias, Label::Static("expr"))
    }

    open spec fn shape_rebound<'scope>(alias: SourceAlias) -> Self::ReboundExprs<'scope> {
        named_column(alias, Label::Static("expr"))
    }

    fn exprs<'scope>(alias: SourceAlias) -> (exprs: Self::Exprs<'scope>) {
        column_named(alias, Label::Static("expr"))
    }

    fn rebound_exprs<'scope>(alias: SourceAlias) -> (exprs: Self::ReboundExprs<'scope>) {
        column_named(alias, Label::Static("expr"))
    }
}

impl ProjectionShape for i64 {
    type Exprs<'scope> = Expr<'scope, i64>;

    type ReboundExprs<'scope> = Expr<'scope, i64>;

    type Row = i64;

    open spec fn shape_exprs<'scope>(alias: SourceAlias) -> Self::Exprs<'scope> {
        named_column(alias, Label::Static("expr"))
    }

    open spec fn shape_rebound<'scope>(alias: SourceAlias) -> Self::ReboundExprs<'scope> {
        named_column(alias, Label::Static("expr"))
    }

    fn exprs<'scope>(alias: SourceAlias) -> (exprs: Self::Exprs<'scope>) {
        column_named(alias, Label::Static("expr"))
    }

    fn rebound_exprs<'scope>(alias: SourceAlias) -> (exprs: Self::ReboundExprs<'scope>) {
        column_named(alias, Label::Static("expr"))
    }
}

impl<const N: usize> ProjectionShape for [u8; N] {
    type Exprs<'scope> = Expr<'scope, [u8; N]>;

    type ReboundExprs<'scope> = Expr<'scope, [u8; N]>;

    type Row = [u8; N];

    open spec fn shape_exprs<'scope>(alias: SourceAlias) -> Self::Exprs<'scope> {
        named_column(alias, Label::Static("expr"))
    }

    open spec fn shape_rebound<'scope>(alias: SourceAlias) -> Self::ReboundExprs<'scope> {
        named_column(alias, Label::Static("expr"))
    }

    fn exprs<'scope>(alias: SourceAlias) -> (exprs: Self::Exprs<'scope>) {
        column_named(alias, Label::Static("expr"))
    }

    fn rebound_exprs<'scope>(alias: SourceAlias) -> (exprs: Self::ReboundExprs<'scope>) {
        column_named(alias, Label::Static("expr"))
    }
}

impl ProjectionShape for i128 {
    type Exprs<'scope> = Expr<'scope, i128>;

    type ReboundExprs<'scope> = Expr<'scope, i128>;

    type Row = i128;

    open spec fn shape_exprs<'scope>(alias: SourceAlias) -> Self::Exprs<'scope> {
        named_column(alias, Label::Static("expr"))
    }

    open spec fn shape_rebound<'scope>(alias: SourceAlias) -> Self::ReboundExprs<'scope> {
        named_column(alias, Label::Static("expr"))
    }

    fn exprs<'scope>(alias: SourceAlias) -> (exprs: Self::Exprs<'scope>) {
        column_named(alias, Label::Static("expr"))
    }

    fn rebound_exprs<'scope>(alias: SourceAlias) -> (exprs: Self::ReboundExprs<'scope>) {
        column_named(alias, Label::Static("expr"))
    }
}

impl ProjectionShape for isize {
    type Exprs<'scope> = Expr<'scope, isize>;

    type ReboundExprs<'scope> = Expr<'scope, isize>;

    type Row = isize;

    open spec fn shape_exprs<'scope>(alias: SourceAlias) -> Self::Exprs<'scope> {
        named_column(alias, Label::Static("expr"))
    }

    open spec fn shape_rebound<'scope>(alias: SourceAlias) -> Self::ReboundExprs<'scope> {
        named_column(alias, Label::Static("expr"))
    }

    fn exprs<'scope>(alias: SourceAlias) -> (exprs: Self::Exprs<'scope>) {
        column_named(alias, Label::Static("expr"))
    }

    fn rebound_exprs<'scope>(alias: SourceAlias) -> (exprs: Self::ReboundExprs<'scope>) {
        column_named(alias, Label::Static("expr"))
    }
}

impl ProjectionShape for u8 {
    type Exprs<'scope> = Expr<'scope, u8>;

    type ReboundExprs<'scope> = Expr<'scope, u8>;

    type Row = u8;

    open spec fn shape_exprs<'scope>(alias: SourceAlias) -> Self::Exprs<'scope> {
        named_column(alias, Label::Static("expr"))
    }

    open spec fn shape_rebound<'scope>(alias: SourceAlias) -> Self::ReboundExprs<'scope> {
        named_column(alias, Label::Static("expr"))
    }

    fn exprs<'scope>(alias: SourceAlias) -> (exprs: Self::Exprs<'scope>) {
        column_named(alias, Label::Static("expr"))
    }

    fn rebound_exprs<'scope>(alias: SourceAlias) -> (exprs: Self::ReboundExprs<'scope>) {
        column_named(alias, Label::Static("expr"))
    }
}

impl ProjectionShape for u16 {
    type Exprs<'scope> = Expr<'scope, u16>;

    type ReboundExprs<'scope> = Expr<'scope, u16>;

    type Row = u16;

    open spec fn shape_exprs<'scope>(alias: SourceAlias) -> Self::Exprs<'scope> {
        named_column(alias, Label::Static("expr"))
    }

    open spec fn shape_rebound<'scope>(alias: SourceAlias) -> Self::ReboundExprs<'scope> {
        named_column(alias, Label::Static("expr"))
    }

    fn exprs<'scope>(alias: SourceAlias) -> (exprs: Self::Exprs<'scope>) {
        column_named(alias, Label::Static("expr"))
    }

    fn rebound_exprs<'scope>(alias: SourceAlias) -> (exprs: Self::ReboundExprs<'scope>) {
        column_named(alias, Label::Static("expr"))
    }
}

impl ProjectionShape for u32 {
    type Exprs<'scope> = Expr<'scope, u32>;

    type ReboundExprs<'scope> = Expr<'scope, u32>;

    type Row = u32;

    open spec fn shape_exprs<'scope>(alias: SourceAlias) -> Self::Exprs<'scope> {
        named_column(alias, Label::Static("expr"))
    }

    open spec fn shape_rebound<'scope>(alias: SourceAlias) -> Self::ReboundExprs<'scope> {
        named_column(alias, Label::Static("expr"))
    }

    fn exprs<'scope>(alias: SourceAlias) -> (exprs: Self::Exprs<'scope>) {
        column_named(alias, Label::Static("expr"))
    }

    fn rebound_exprs<'scope>(alias: SourceAlias) -> (exprs: Self::ReboundExprs<'scope>) {
        column_named(alias, Label::Static("expr"))
    }
}

impl ProjectionShape for u64 {
    type Exprs<'scope> = Expr<'scope, u64>;

    type ReboundExprs<'scope> = Expr<'scope, u64>;

    type Row = u64;

    open spec fn shape_exprs<'scope>(alias: SourceAlias) -> Self::Exprs<'scope> {
        named_column(alias, Label::Static("expr"))
    }

    open spec fn shape_rebound<'scope>(alias: SourceAlias) -> Self::ReboundExprs<'scope> {
        named_column(alias, Label::Static("expr"))
    }

    fn exprs<'scope>(alias: SourceAlias) -> (exprs: Self::Exprs<'scope>) {
        column_named(alias, Label::Static("expr"))
    }

    fn rebound_exprs<'scope>(alias: SourceAlias) -> (exprs: Self::ReboundExprs<'scope>) {
        column_named(alias, Label::Static("expr"))
    }
}

impl ProjectionShape for u128 {
    type Exprs<'scope> = Expr<'scope, u128>;

    type ReboundExprs<'scope> = Expr<'scope, u128>;

    type Row = u128;

    open spec fn shape_exprs<'scope>(alias: SourceAlias) -> Self::Exprs<'scope> {
        named_column(alias, Label::Static("expr"))
    }

    open spec fn shape_rebound<'scope>(alias: SourceAlias) -> Self::ReboundExprs<'scope> {
        named_column(alias, Label::Static("expr"))
    }

    fn exprs<'scope>(alias: SourceAlias) -> (exprs: Self::Exprs<'scope>) {
        column_named(alias, Label::Static("expr"))
    }

    fn rebound_exprs<'scope>(alias: SourceAlias) -> (exprs: Self::ReboundExprs<'scope>) {
        column_named(alias, Label::Static("expr"))
    }
}

impl ProjectionShape for usize {
    type Exprs<'scope> = Expr<'scope, usize>;

    type ReboundExprs<'scope> = Expr<'scope, usize>;

    type Row = usize;

    open spec fn shape_exprs<'scope>(alias: SourceAlias) -> Self::Exprs<'scope> {
        named_column(alias, Label::Static("expr"))
    }

    open spec fn shape_rebound<'scope>(alias: SourceAlias) -> Self::ReboundExprs<'scope> {
        named_column(alias, Label::Static("expr"))
    }

    fn exprs<'scope>(alias: SourceAlias) -> (exprs: Self::Exprs<'scope>) {
        column_named(alias, Label::Static("expr"))
    }

    fn rebound_exprs<'scope>(alias: SourceAlias) -> (exprs: Self::ReboundExprs<'scope>) {
        column_named(alias, Label::Static("expr"))
    }
}

impl ProjectionShape for Float32 {
    type Exprs<'scope> = Expr<'scope, Float32>;

    type ReboundExprs<'scope> = Expr<'scope, Float32>;

    type Row = Float32;

    open spec fn shape_exprs<'scope>(alias: SourceAlias) -> Self::Exprs<'scope> {
        named_column(alias, Label::Static("expr"))
    }

    open spec fn shape_rebound<'scope>(alias: SourceAlias) -> Self::ReboundExprs<'scope> {
        named_column(alias, Label::Static("expr"))
    }

    fn exprs<'scope>(alias: SourceAlias) -> (exprs: Self::Exprs<'scope>) {
        column_named(alias, Label::Static("expr"))
    }

    fn rebound_exprs<'scope>(alias: SourceAlias) -> (exprs: Self::ReboundExprs<'scope>) {
        column_named(alias, Label::Static("expr"))
    }
}

impl ProjectionShape for Float64 {
    type Exprs<'scope> = Expr<'scope, Float64>;

    type ReboundExprs<'scope> = Expr<'scope, Float64>;

    type Row = Float64;

    open spec fn shape_exprs<'scope>(alias: SourceAlias) -> Self::Exprs<'scope> {
        named_column(alias, Label::Static("expr"))
    }

    open spec fn shape_rebound<'scope>(alias: SourceAlias) -> Self::ReboundExprs<'scope> {
        named_column(alias, Label::Static("expr"))
    }

    fn exprs<'scope>(alias: SourceAlias) -> (exprs: Self::Exprs<'scope>) {
        column_named(alias, Label::Static("expr"))
    }

    fn rebound_exprs<'scope>(alias: SourceAlias) -> (exprs: Self::ReboundExprs<'scope>) {
        column_named(alias, Label::Static("expr"))
    }
}

impl ProjectionShape for String {
    type Exprs<'scope> = Expr<'scope, String>;

    type ReboundExprs<'scope> = Expr<'scope, String>;

    type Row = String;

    open spec fn shape_exprs<'scope>(alias: SourceAlias) -> Self::Exprs<'scope> {
        named_column(alias, Label::Static("expr"))
    }

    open spec fn shape_rebound<'scope>(alias: SourceAlias) -> Self::ReboundExprs<'scope> {
        named_column(alias, Label::Static("expr"))
    }

    fn exprs<'scope>(alias: SourceAlias) -> (exprs: Self::Exprs<'scope>) {
        column_named(alias, Label::Static("expr"))
    }

    fn rebound_exprs<'scope>(alias: SourceAlias) -> (exprs: Self::ReboundExprs<'scope>) {
        column_named(alias, Label::Static("expr"))
    }
}

impl ProjectionShape for bool {
    type Exprs<'scope> = Expr<'scope, bool>;

    type ReboundExprs<'scope> = Expr<'scope, bool>;

    type Row = bool;

    open spec fn shape_exprs<'scope>(alias: SourceAlias) -> Self::Exprs<'scope> {
        named_column(alias, Label::Static("expr"))
    }

    open spec fn shape_rebound<'scope>(alias: SourceAlias) -> Self::ReboundExprs<'scope> {
        named_column(alias, Label::Static("expr"))
    }

    fn exprs<'scope>(alias: SourceAlias) -> (exprs: Self::Exprs<'scope>) {
        column_named(alias, Label::Static("expr"))
    }

    fn rebound_exprs<'scope>(alias: SourceAlias) -> (exprs: Self::ReboundExprs<'scope>) {
        column_named(alias, Label::Static("expr"))
    }
}

impl<L, R> ProjectionShape for AddExpr<L, R> where AddExpr<L, R>: ExprKind, <AddExpr<L, R> as ExprKind>::Value: Send
 {
    type Exprs<'scope> = Expr<'scope, AddExpr<L, R>>;

    type ReboundExprs<'scope> = Expr<'scope, AddExpr<L, R>>;

    type Row = <AddExpr<L, R> as ExprKind>::Value;

    open spec fn shape_exprs<'scope>(alias: SourceAlias) -> Self::Exprs<'scope> {
        named_column(alias, Label::Static("expr"))
    }

    open spec fn shape_rebound<'scope>(alias: SourceAlias) -> Self::ReboundExprs<'scope> {
        named_column(alias, Label::Static("expr"))
    }

    fn exprs<'scope>(alias: SourceAlias) -> (exprs: Self::Exprs<'scope>) {
        column_named(alias, Label::Static("expr"))
    }

    fn rebound_exprs<'scope>(alias: SourceAlias) -> (exprs: Self::ReboundExprs<'scope>) {
        column_named(alias, Label::Static("expr"))
    }
}

impl<L, R> ProjectionShape for SubtractExpr<L, R> where SubtractExpr<L, R>: ExprKind, <SubtractExpr<L, R> as ExprKind>::Value: Send
 {
    type Exprs<'scope> = Expr<'scope, SubtractExpr<L, R>>;

    type ReboundExprs<'scope> = Expr<'scope, SubtractExpr<L, R>>;

    type Row = <SubtractExpr<L, R> as ExprKind>::Value;

    open spec fn shape_exprs<'scope>(alias: SourceAlias) -> Self::Exprs<'scope> {
        named_column(alias, Label::Static("expr"))
    }

    open spec fn shape_rebound<'scope>(alias: SourceAlias) -> Self::ReboundExprs<'scope> {
        named_column(alias, Label::Static("expr"))
    }

    fn exprs<'scope>(alias: SourceAlias) -> (exprs: Self::Exprs<'scope>) {
        column_named(alias, Label::Static("expr"))
    }

    fn rebound_exprs<'scope>(alias: SourceAlias) -> (exprs: Self::ReboundExprs<'scope>) {
        column_named(alias, Label::Static("expr"))
    }
}

impl<L, R> ProjectionShape for MultiplyExpr<L, R> where MultiplyExpr<L, R>: ExprKind, <MultiplyExpr<L, R> as ExprKind>::Value: Send
 {
    type Exprs<'scope> = Expr<'scope, MultiplyExpr<L, R>>;

    type ReboundExprs<'scope> = Expr<'scope, MultiplyExpr<L, R>>;

    type Row = <MultiplyExpr<L, R> as ExprKind>::Value;

    open spec fn shape_exprs<'scope>(alias: SourceAlias) -> Self::Exprs<'scope> {
        named_column(alias, Label::Static("expr"))
    }

    open spec fn shape_rebound<'scope>(alias: SourceAlias) -> Self::ReboundExprs<'scope> {
        named_column(alias, Label::Static("expr"))
    }

    fn exprs<'scope>(alias: SourceAlias) -> (exprs: Self::Exprs<'scope>) {
        column_named(alias, Label::Static("expr"))
    }

    fn rebound_exprs<'scope>(alias: SourceAlias) -> (exprs: Self::ReboundExprs<'scope>) {
        column_named(alias, Label::Static("expr"))
    }
}

impl<L, R> ProjectionShape for DivideExpr<L, R> where DivideExpr<L, R>: ExprKind, <DivideExpr<L, R> as ExprKind>::Value: Send
 {
    type Exprs<'scope> = Expr<'scope, DivideExpr<L, R>>;

    type ReboundExprs<'scope> = Expr<'scope, DivideExpr<L, R>>;

    type Row = <DivideExpr<L, R> as ExprKind>::Value;

    open spec fn shape_exprs<'scope>(alias: SourceAlias) -> Self::Exprs<'scope> {
        named_column(alias, Label::Static("expr"))
    }

    open spec fn shape_rebound<'scope>(alias: SourceAlias) -> Self::ReboundExprs<'scope> {
        named_column(alias, Label::Static("expr"))
    }

    fn exprs<'scope>(alias: SourceAlias) -> (exprs: Self::Exprs<'scope>) {
        column_named(alias, Label::Static("expr"))
    }

    fn rebound_exprs<'scope>(alias: SourceAlias) -> (exprs: Self::ReboundExprs<'scope>) {
        column_named(alias, Label::Static("expr"))
    }
}

impl<K> ProjectionShape for CountExpr<K> where CountExpr<K>: ExprKind, <CountExpr<K> as ExprKind>::Value: Send
 {
    type Exprs<'scope> = Expr<'scope, CountExpr<K>>;

    type ReboundExprs<'scope> = Expr<'scope, CountExpr<K>>;

    type Row = <CountExpr<K> as ExprKind>::Value;

    open spec fn shape_exprs<'scope>(alias: SourceAlias) -> Self::Exprs<'scope> {
        named_column(alias, Label::Static("expr"))
    }

    open spec fn shape_rebound<'scope>(alias: SourceAlias) -> Self::ReboundExprs<'scope> {
        named_column(alias, Label::Static("expr"))
    }

    fn exprs<'scope>(alias: SourceAlias) -> (exprs: Self::Exprs<'scope>) {
        column_named(alias, Label::Static("expr"))
    }

    fn rebound_exprs<'scope>(alias: SourceAlias) -> (exprs: Self::ReboundExprs<'scope>) {
        column_named(alias, Label::Static("expr"))
    }
}

impl<K> ProjectionShape for SumExpr<K> where SumExpr<K>: ExprKind, <SumExpr<K> as ExprKind>::Value: Send
 {
    type Exprs<'scope> = Expr<'scope, SumExpr<K>>;

    type ReboundExprs<'scope> = Expr<'scope, SumExpr<K>>;

    type Row = <SumExpr<K> as ExprKind>::Value;

    open spec fn shape_exprs<'scope>(alias: SourceAlias) -> Self::Exprs<'scope> {
        named_column(alias, Label::Static("expr"))
    }

    open spec fn shape_rebound<'scope>(alias: SourceAlias) -> Self::ReboundExprs<'scope> {
        named_column(alias, Label::Static("expr"))
    }

    fn exprs<'scope>(alias: SourceAlias) -> (exprs: Self::Exprs<'scope>) {
        column_named(alias, Label::Static("expr"))
    }

    fn rebound_exprs<'scope>(alias: SourceAlias) -> (exprs: Self::ReboundExprs<'scope>) {
        column_named(alias, Label::Static("expr"))
    }
}

impl<K> ProjectionShape for AvgExpr<K> where AvgExpr<K>: ExprKind, <AvgExpr<K> as ExprKind>::Value: Send
 {
    type Exprs<'scope> = Expr<'scope, AvgExpr<K>>;

    type ReboundExprs<'scope> = Expr<'scope, AvgExpr<K>>;

    type Row = <AvgExpr<K> as ExprKind>::Value;

    open spec fn shape_exprs<'scope>(alias: SourceAlias) -> Self::Exprs<'scope> {
        named_column(alias, Label::Static("expr"))
    }

    open spec fn shape_rebound<'scope>(alias: SourceAlias) -> Self::ReboundExprs<'scope> {
        named_column(alias, Label::Static("expr"))
    }

    fn exprs<'scope>(alias: SourceAlias) -> (exprs: Self::Exprs<'scope>) {
        column_named(alias, Label::Static("expr"))
    }

    fn rebound_exprs<'scope>(alias: SourceAlias) -> (exprs: Self::ReboundExprs<'scope>) {
        column_named(alias, Label::Static("expr"))
    }
}

impl<K> ProjectionShape for MinExpr<K> where MinExpr<K>: ExprKind, <MinExpr<K> as ExprKind>::Value: Send
 {
    type Exprs<'scope> = Expr<'scope, MinExpr<K>>;

    type ReboundExprs<'scope> = Expr<'scope, MinExpr<K>>;

    type Row = <MinExpr<K> as ExprKind>::Value;

    open spec fn shape_exprs<'scope>(alias: SourceAlias) -> Self::Exprs<'scope> {
        named_column(alias, Label::Static("expr"))
    }

    open spec fn shape_rebound<'scope>(alias: SourceAlias) -> Self::ReboundExprs<'scope> {
        named_column(alias, Label::Static("expr"))
    }

    fn exprs<'scope>(alias: SourceAlias) -> (exprs: Self::Exprs<'scope>) {
        column_named(alias, Label::Static("expr"))
    }

    fn rebound_exprs<'scope>(alias: SourceAlias) -> (exprs: Self::ReboundExprs<'scope>) {
        column_named(alias, Label::Static("expr"))
    }
}

impl<K> ProjectionShape for MaxExpr<K> where MaxExpr<K>: ExprKind, <MaxExpr<K> as ExprKind>::Value: Send
 {
    type Exprs<'scope> = Expr<'scope, MaxExpr<K>>;

    type ReboundExprs<'scope> = Expr<'scope, MaxExpr<K>>;

    type Row = <MaxExpr<K> as ExprKind>::Value;

    open spec fn shape_exprs<'scope>(alias: SourceAlias) -> Self::Exprs<'scope> {
        named_column(alias, Label::Static("expr"))
    }

    open spec fn shape_rebound<'scope>(alias: SourceAlias) -> Self::ReboundExprs<'scope> {
        named_column(alias, Label::Static("expr"))
    }

    fn exprs<'scope>(alias: SourceAlias) -> (exprs: Self::Exprs<'scope>) {
        column_named(alias, Label::Static("expr"))
    }

    fn rebound_exprs<'scope>(alias: SourceAlias) -> (exprs: Self::ReboundExprs<'scope>) {
        column_named(alias, Label::Static("expr"))
    }
}

impl<K: ExprKind> ProjectionShape for Nullable<K> where K::Value: Send
 {
    type Exprs<'scope> = ColumnRef<'scope, Nullable<K>>;

    type ReboundExprs<'scope> = Expr<'scope, Nullable<K>>;

    type Row = Option<K::Value>;

    open spec fn shape_exprs<'scope>(alias: SourceAlias) -> Self::Exprs<'scope> {
        named_reference(alias, "expr")
    }

    open spec fn shape_rebound<'scope>(alias: SourceAlias) -> Self::ReboundExprs<'scope> {
        named_column(alias, Label::Static("expr"))
    }

    fn exprs<'scope>(alias: SourceAlias) -> (exprs: Self::Exprs<'scope>) {
        ColumnRef { alias, column: "expr", project_alias: "expr", _phantom: PhantomData }
    }

    fn rebound_exprs<'scope>(alias: SourceAlias) -> (exprs: Self::ReboundExprs<'scope>) {
        column_named(alias, Label::Static("expr"))
    }
}

impl<K: ExprKind> ProjectionShape for ScalarNullable<K> where K::Value: Send
 {
    type Exprs<'scope> = ColumnRef<'scope, ScalarNullable<K>>;

    type ReboundExprs<'scope> = Expr<'scope, ScalarNullable<K>>;

    type Row = Option<K::Value>;

    open spec fn shape_exprs<'scope>(alias: SourceAlias) -> Self::Exprs<'scope> {
        named_reference(alias, "expr")
    }

    open spec fn shape_rebound<'scope>(alias: SourceAlias) -> Self::ReboundExprs<'scope> {
        named_column(alias, Label::Static("expr"))
    }

    fn exprs<'scope>(alias: SourceAlias) -> (exprs: Self::Exprs<'scope>) {
        ColumnRef { alias, column: "expr", project_alias: "expr", _phantom: PhantomData }
    }

    fn rebound_exprs<'scope>(alias: SourceAlias) -> (exprs: Self::ReboundExprs<'scope>) {
        column_named(alias, Label::Static("expr"))
    }
}

impl Projectable for () {
    type Rebound<'scope> = ();

    open spec fn rebound<'scope>(&self, alias: SourceAlias) -> Self::Rebound<'scope> {
        ()
    }

    open spec fn rebinds_with_prefix<'scope>(
        &self,
        alias: SourceAlias,
        prefix: Seq<char>,
        rebound: Self::Rebound<'scope>,
    ) -> bool {
        true
    }

    fn re_alias<'scope>(&self, alias: SourceAlias) -> (rebound: Self::Rebound<'scope>) {
        ()
    }

    fn re_alias_with_prefix<'scope>(&self, alias: SourceAlias, prefix: &str) -> (rebound:
        Self::Rebound<'scope>) {
        ()
    }
}

impl ProjectionClass for () {
    type Class = ScalarProjection;
}

impl<T: ExprKind<Value = T>> ProjectionClass for T {
    type Class = ScalarProjection;
}

impl ProjectionColumns for () {
    type Columns = ColumnFree;
}

impl<T: ExprKind<Value = T>> ProjectionColumns for T {
    type Columns = ColumnFree;
}

impl ReturnableProjection for () {

}

impl<T: ExprKind<Value = T>> ReturnableProjection for T {

}

impl<B: Backend> RenderProjectable<B> for () {
    open spec fn items(&self) -> List<ProjectionTree<Bound<B>>> {
        List::Nil
    }

    fn lower_projection(&self) -> (items: List<ProjectionTree<Bound<B>>>) {
        List::Nil
    }

    fn lower_projection_with_prefix(&self, prefix: &str) -> (items: List<
        ProjectionTree<Bound<B>>,
    >) {
        List::Nil
    }

    proof fn lemma_projection_params<D: Dialect>(&self, dialect: D, bare: bool, lead: Seq<char>) {
        assert(<HNil as HList>::width() == 0);
    }

    proof fn lemma_projection_plain(&self) {
    }
}

impl<'expr, K: ExprKind, Ast: ExprAst> Projectable for Expr<'expr, K, Ast> {
    type Rebound<'scope> = Expr<'scope, K>;

    open spec fn rebound<'scope>(&self, alias: SourceAlias) -> Self::Rebound<'scope> {
        named_column(alias, self.project_alias)
    }

    open spec fn rebinds_with_prefix<'scope>(
        &self,
        alias: SourceAlias,
        prefix: Seq<char>,
        rebound: Self::Rebound<'scope>,
    ) -> bool {
        is_prefixed_column(alias, prefix, self.project_alias@, rebound)
    }

    fn re_alias<'scope>(&self, alias: SourceAlias) -> (rebound: Self::Rebound<'scope>) {
        column_named(alias, self.project_alias.duplicate())
    }

    fn re_alias_with_prefix<'scope>(&self, alias: SourceAlias, prefix: &str) -> (rebound:
        Self::Rebound<'scope>) {
        column_prefixed(alias, prefix, self.project_alias.duplicate())
    }
}

/// The projection of one expression.
pub open spec fn one_item<L>(expr: ExprTree<L>, alias: Label) -> List<ProjectionTree<L>> {
    List::Cons { head: Box::new(ProjectionTree { expr, alias }), tail: Box::new(List::Nil) }
}

fn single<L>(expr: ExprTree<L>, alias: Label) -> (items: List<ProjectionTree<L>>)
    ensures
        items == one_item(expr, alias),
{
    List::Cons { head: Box::new(ProjectionTree { expr, alias }), tail: Box::new(List::Nil) }
}

fn single_prefixed<L>(expr: ExprTree<L>, prefix: &str, alias: &Label) -> (items: List<
    ProjectionTree<L>,
>)
    ensures
        is_prefixed(one_item(expr, *alias), prefix@, items),
{
    let items = single(expr, prefix_alias(prefix, alias.as_str()));
    proof {
        reveal_with_fuel(is_prefixed, 2);
    }
    items
}

proof fn lemma_single_params<D: Dialect, L>(
    dialect: D,
    bare: bool,
    lead: Seq<char>,
    expr: ExprTree<L>,
    alias: Label,
)
    ensures
        tokens::runtimes(grammar::projection_tokens(dialect, bare, lead, one_item(expr, alias)))
            == tokens::runtimes(grammar::expr_tokens(dialect, bare, expr)),
{
    assert(grammar::projection_tokens::<D, L>(dialect, bare, ", "@, List::Nil) == Seq::<
        tokens::Token<L>,
    >::empty());
}

impl<'expr, K: ExprKind, Ast: RenderAst<B>, B: Backend> RenderProjectable<B> for Expr<
    'expr,
    K,
    Ast,
> {
    open spec fn items(&self) -> List<ProjectionTree<Bound<B>>> {
        one_item(self.ast.tree(), self.project_alias)
    }

    fn lower_projection(&self) -> (items: List<ProjectionTree<Bound<B>>>) {
        single(self.ast.lower(), self.project_alias.duplicate())
    }

    fn lower_projection_with_prefix(&self, prefix: &str) -> (items: List<
        ProjectionTree<Bound<B>>,
    >) {
        single_prefixed(self.ast.lower(), prefix, &self.project_alias)
    }

    proof fn lemma_projection_params<D: Dialect>(&self, dialect: D, bare: bool, lead: Seq<char>) {
        lemma_single_params(dialect, bare, lead, self.ast.tree(), self.project_alias);
        self.ast.lemma_params(dialect, bare);
    }

    proof fn lemma_projection_plain(&self) {
        self.ast.lemma_plain();
        assert(plain::plain_projection(List::<ProjectionTree<Bound<B>>>::Nil));
    }
}

impl<'expr, K: ExprKind> Projectable for ColumnRef<'expr, K> {
    type Rebound<'scope> = Expr<'scope, K>;

    open spec fn rebound<'scope>(&self, alias: SourceAlias) -> Self::Rebound<'scope> {
        named_column(alias, Label::Static(self.project_alias))
    }

    open spec fn rebinds_with_prefix<'scope>(
        &self,
        alias: SourceAlias,
        prefix: Seq<char>,
        rebound: Self::Rebound<'scope>,
    ) -> bool {
        is_prefixed_column(alias, prefix, self.project_alias@, rebound)
    }

    fn re_alias<'scope>(&self, alias: SourceAlias) -> (rebound: Self::Rebound<'scope>) {
        column_named(alias, Label::Static(self.project_alias))
    }

    fn re_alias_with_prefix<'scope>(&self, alias: SourceAlias, prefix: &str) -> (rebound:
        Self::Rebound<'scope>) {
        column_prefixed(alias, prefix, Label::Static(self.project_alias))
    }
}

impl<'expr, K: ExprKind, B: Backend> RenderProjectable<B> for ColumnRef<'expr, K> {
    open spec fn items(&self) -> List<ProjectionTree<Bound<B>>> {
        one_item(
            ExprTree::Column { alias: self.alias, column: Label::Static(self.column) },
            Label::Static(self.project_alias),
        )
    }

    fn lower_projection(&self) -> (items: List<ProjectionTree<Bound<B>>>) {
        single(
            ExprTree::Column { alias: self.alias, column: Label::Static(self.column) },
            Label::Static(self.project_alias),
        )
    }

    fn lower_projection_with_prefix(&self, prefix: &str) -> (items: List<
        ProjectionTree<Bound<B>>,
    >) {
        single_prefixed(
            ExprTree::Column { alias: self.alias, column: Label::Static(self.column) },
            prefix,
            &Label::Static(self.project_alias),
        )
    }

    proof fn lemma_projection_params<D: Dialect>(&self, dialect: D, bare: bool, lead: Seq<char>) {
        lemma_single_params::<D, Bound<B>>(
            dialect,
            bare,
            lead,
            ExprTree::Column { alias: self.alias, column: Label::Static(self.column) },
            Label::Static(self.project_alias),
        );
        assert(<HNil as HList>::width() == 0);
    }

    proof fn lemma_projection_plain(&self) {
        assert(plain::plain_expr::<Bound<B>>(
            ExprTree::Column { alias: self.alias, column: Label::Static(self.column) },
        ));
        assert(plain::plain_projection(List::<ProjectionTree<Bound<B>>>::Nil));
    }
}

impl<T: ExprKind<Value = T> + Duplicate> Projectable for T {
    type Rebound<'scope> = Expr<'scope, T>;

    open spec fn rebound<'scope>(&self, alias: SourceAlias) -> Self::Rebound<'scope> {
        named_column(alias, Label::Static("expr"))
    }

    open spec fn rebinds_with_prefix<'scope>(
        &self,
        alias: SourceAlias,
        prefix: Seq<char>,
        rebound: Self::Rebound<'scope>,
    ) -> bool {
        rebound == self.rebound(alias)
    }

    fn re_alias<'scope>(&self, alias: SourceAlias) -> (rebound: Self::Rebound<'scope>) {
        column_named(alias, Label::Static("expr"))
    }

    fn re_alias_with_prefix<'scope>(&self, alias: SourceAlias, prefix: &str) -> (rebound:
        Self::Rebound<'scope>) {
        self.re_alias(alias)
    }
}

impl<T: ExprKind<Value = T> + Duplicate + Encode<B>, B: Backend> RenderProjectable<B> for T {
    open spec fn items(&self) -> List<ProjectionTree<Bound<B>>> {
        one_item(
            ExprTree::Literal(Encoded { outcome: self.encoded() }),
            Label::Static("expr"),
        )
    }

    fn lower_projection(&self) -> (items: List<ProjectionTree<Bound<B>>>) {
        single(ExprTree::Literal(Encoded { outcome: self.encode() }), Label::Static("expr"))
    }

    fn lower_projection_with_prefix(&self, prefix: &str) -> (items: List<
        ProjectionTree<Bound<B>>,
    >) {
        single_prefixed(
            ExprTree::Literal(Encoded { outcome: self.encode() }),
            prefix,
            &Label::Static("expr"),
        )
    }

    proof fn lemma_projection_params<D: Dialect>(&self, dialect: D, bare: bool, lead: Seq<char>) {
        lemma_single_params::<D, Bound<B>>(
            dialect,
            bare,
            lead,
            ExprTree::Literal(Encoded { outcome: self.encoded() }),
            Label::Static("expr"),
        );
        reveal_with_fuel(tokens::runtimes, 2);
        assert(<HNil as HList>::width() == 0);
    }

    proof fn lemma_projection_plain(&self) {
        assert(plain::plain_expr::<Bound<B>>(
            ExprTree::Literal(Encoded { outcome: self.encoded() }),
        ));
        assert(plain::plain_projection(List::<ProjectionTree<Bound<B>>>::Nil));
    }
}

/// A typed table model that can also project expression columns.
pub trait SchemaTable {
    type Schema: Schema;

    /// The database names of the columns.
    type Names;

    /// The columns as the values of one row.
    type Row: Send;

    /// The columns as the values of one row of an outer join, each `None` where no row matched.
    type NullableRow: Send;

    type Exprs<'scope>: Projectable;

    type NullableExprs<'scope>: Projectable;

    open spec fn table_name() -> &'static str {
        arbitrary()
    }

    open spec fn table_columns() -> List<&'static dyn Column> {
        arbitrary()
    }

    open spec fn table_indexes() -> List<&'static dyn Index> {
        arbitrary()
    }

    open spec fn table_primary_key() -> Option<TablePrimaryKey> {
        arbitrary()
    }

    open spec fn table_uniques() -> List<TableUnique> {
        arbitrary()
    }

    open spec fn names() -> Self::Names {
        arbitrary()
    }

    open spec fn exprs_of<'scope>(alias: SourceAlias, columns: Self::Names) -> Self::Exprs<'scope> {
        arbitrary()
    }

    open spec fn nullable_exprs_of<'scope>(
        alias: SourceAlias,
        columns: Self::Names,
    ) -> Self::NullableExprs<'scope> {
        arbitrary()
    }

    /// The schema that the table lives in, if one is configured.
    fn schema_name() -> (name: Option<&'static str>)
        ensures
            name == Self::Schema::spec_name(),
    {
        Self::Schema::name()
    }

    /// The name of the table without its schema.
    fn name() -> (name: &'static str)
        ensures
            name == Self::table_name(),
    ;

    /// The name of the table, qualified by its schema where it has one.
    fn qualified_name() -> (name: Label)
        ensures
            name@ == meta::qualified_text(Self::Schema::spec_name(), Self::table_name()),
    {
        let name = <Self as SchemaTable>::name();
        match <Self as SchemaTable>::schema_name() {
            Some(schema) => {
                let mut text = String::from_str(schema);
                text.append(".");
                text.append(name);
                Label::Owned(text)
            },
            None => Label::Static(name),
        }
    }

    /// The schema metadata of the columns.
    fn columns() -> (columns: List<&'static dyn Column>)
        ensures
            columns == Self::table_columns(),
    ;

    /// The schema metadata of the indexes.
    fn indexes() -> (indexes: List<&'static dyn Index>)
        ensures
            indexes == Self::table_indexes(),
    ;

    /// The table-level primary key. Columns that are marked one by one are not reported here.
    fn primary_key() -> (key: Option<TablePrimaryKey>)
        ensures
            key == Self::table_primary_key(),
    ;

    /// The table-level unique constraints. Columns that are marked one by one are not reported here.
    fn uniques() -> (uniques: List<TableUnique>)
        ensures
            uniques == Self::table_uniques(),
    ;

    /// The database names of the columns.
    fn column_names() -> (names: Self::Names)
        ensures
            names == Self::names(),
    ;

    /// The columns of the source `alias`.
    fn column_exprs<'scope>(alias: SourceAlias) -> (exprs: Self::Exprs<'scope>)
        ensures
            exprs == Self::exprs_of(alias, Self::names()),
    {
        Self::column_exprs_from(alias, &Self::column_names())
    }

    /// The columns of the source `alias` that have the given names.
    fn column_exprs_from<'scope>(alias: SourceAlias, columns: &Self::Names) -> (exprs: Self::Exprs<
        'scope,
    >)
        ensures
            exprs == Self::exprs_of(alias, *columns),
    ;

    /// The columns of the source `alias`, which may have no row to match.
    fn nullable_column_exprs<'scope>(alias: SourceAlias) -> (exprs: Self::NullableExprs<'scope>)
        ensures
            exprs == Self::nullable_exprs_of(alias, Self::names()),
    {
        Self::nullable_column_exprs_from(alias, &Self::column_names())
    }

    /// The columns of the source `alias` that have the given names, which may have no row to match.
    fn nullable_column_exprs_from<'scope>(alias: SourceAlias, columns: &Self::Names) -> (exprs:
        Self::NullableExprs<'scope>)
        ensures
            exprs == Self::nullable_exprs_of(alias, *columns),
    ;
}

/// A table model whose rows can be inserted.
pub trait InsertableTable: SchemaTable {

}

/// A table model whose rows can be updated and deleted.
pub trait UpdateableTable: SchemaTable {

}

impl<S: SchemaTable> ProjectionShape for S {
    type Exprs<'scope> = <S as SchemaTable>::Exprs<'scope>;

    type ReboundExprs<'scope> = <<S as SchemaTable>::Exprs<'static> as Projectable>::Rebound<
        'scope,
    >;

    type Row = <S as SchemaTable>::Row;

    open spec fn shape_exprs<'scope>(alias: SourceAlias) -> Self::Exprs<'scope> {
        S::exprs_of(alias, S::names())
    }

    open spec fn shape_rebound<'scope>(alias: SourceAlias) -> Self::ReboundExprs<'scope> {
        <<S as SchemaTable>::Exprs<'static> as Projectable>::rebound(
            &S::exprs_of(alias, S::names()),
            alias,
        )
    }

    fn exprs<'scope>(alias: SourceAlias) -> (exprs: Self::Exprs<'scope>) {
        S::column_exprs(alias)
    }

    fn rebound_exprs<'scope>(alias: SourceAlias) -> (exprs: Self::ReboundExprs<'scope>) {
        let exprs: <S as SchemaTable>::Exprs<'static> = S::column_exprs(alias);
        exprs.re_alias(alias)
    }
}

/// The shape of a table that an outer join may leave without a row.
pub enum Maybe<S> {
    _Marker(PhantomData<S>),
}

impl<S: SchemaTable> ProjectionShape for Maybe<S> {
    type Exprs<'scope> = <S as SchemaTable>::NullableExprs<'scope>;

    type ReboundExprs<'scope> = <<S as SchemaTable>::NullableExprs<
        'static,
    > as Projectable>::Rebound<'scope>;

    type Row = <S as SchemaTable>::NullableRow;

    open spec fn shape_exprs<'scope>(alias: SourceAlias) -> Self::Exprs<'scope> {
        S::nullable_exprs_of(alias, S::names())
    }

    open spec fn shape_rebound<'scope>(alias: SourceAlias) -> Self::ReboundExprs<'scope> {
        <<S as SchemaTable>::NullableExprs<'static> as Projectable>::rebound(
            &S::nullable_exprs_of(alias, S::names()),
            alias,
        )
    }

    fn exprs<'scope>(alias: SourceAlias) -> (exprs: Self::Exprs<'scope>) {
        S::nullable_column_exprs(alias)
    }

    fn rebound_exprs<'scope>(alias: SourceAlias) -> (exprs: Self::ReboundExprs<'scope>) {
        let exprs: <S as SchemaTable>::NullableExprs<'static> = S::nullable_column_exprs(alias);
        exprs.re_alias(alias)
    }
}

/// A projection shape that stands for a table of the database.
pub trait TableProjection: ProjectionShape {
    open spec fn source_schema() -> Option<&'static str> {
        arbitrary()
    }

    open spec fn source_name() -> &'static str {
        arbitrary()
    }

    fn qualified_name() -> (name: Label)
        ensures
            name@ == meta::qualified_text(Self::source_schema(), Self::source_name()),
    ;

    fn schema_name() -> (name: Option<&'static str>)
        ensures
            name == Self::source_schema(),
    ;

    fn name() -> (name: &'static str)
        ensures
            name == Self::source_name(),
    ;
}

impl<S: SchemaTable> TableProjection for S {
    open spec fn source_schema() -> Option<&'static str> {
        S::Schema::spec_name()
    }

    open spec fn source_name() -> &'static str {
        S::table_name()
    }

    fn qualified_name() -> (name: Label) {
        <S as SchemaTable>::qualified_name()
    }

    fn schema_name() -> (name: Option<&'static str>) {
        <S as SchemaTable>::schema_name()
    }

    fn name() -> (name: &'static str) {
        <S as SchemaTable>::name()
    }
}

/// What a query can select from: a table, a view or a common table expression.
pub trait QuerySource: TableProjection {
    open spec fn source_cte() -> Option<CteDef> {
        arbitrary()
    }

    /// The definition that the query's `WITH` clause needs for this source. Tables and views need
    /// none.
    fn cte_def() -> (def: Option<CteDef>)
        ensures
            def == Self::source_cte(),
    ;
}

/// The table of a projection shape, as it stands in a query.
pub open spec fn table_of<S: TableProjection>() -> TableRef {
    TableRef {
        schema: match S::source_schema() {
            Some(schema) => Some(Label::Static(schema)),
            None => None,
        },
        name: Label::Static(S::source_name()),
    }
}

pub(crate) fn table_ref<S: TableProjection>() -> (table: TableRef)
    ensures
        table == table_of::<S>(),
{
    let schema = match <S as TableProjection>::schema_name() {
        Some(schema) => Some(Label::Static(schema)),
        None => None,
    };
    TableRef { schema, name: Label::Static(<S as TableProjection>::name()) }
}

impl<T0: Projectable> Projectable for (T0,) {
    type Rebound<'scope> = (T0::Rebound<'scope>,);

    open spec fn rebound<'scope>(&self, alias: SourceAlias) -> Self::Rebound<'scope> {
        (self.0.rebound(alias),)
    }

    open spec fn rebinds_with_prefix<'scope>(
        &self,
        alias: SourceAlias,
        prefix: Seq<char>,
        rebound: Self::Rebound<'scope>,
    ) -> bool {
        &&& self.0.rebinds_with_prefix(alias, prefix, rebound.0)
    }

    fn re_alias<'scope>(&self, alias: SourceAlias) -> (rebound: Self::Rebound<'scope>) {
        (self.0.re_alias(alias),)
    }

    fn re_alias_with_prefix<'scope>(&self, alias: SourceAlias, prefix: &str) -> (rebound:
        Self::Rebound<'scope>) {
        (self.0.re_alias_with_prefix(alias, prefix),)
    }
}

impl<T0: Duplicate> Duplicate for (T0,) {
    fn duplicate(&self) -> (copy: Self) {
        (self.0.duplicate(),)
    }
}

impl<T0: ProjectionShape> ProjectionShape for (T0,) {
    type Exprs<'scope> = (T0::Exprs<'scope>,);

    type ReboundExprs<'scope> = (T0::ReboundExprs<'scope>,);

    type Row = (T0::Row,);

    open spec fn shape_exprs<'scope>(alias: SourceAlias) -> Self::Exprs<'scope> {
        (T0::shape_exprs(alias),)
    }

    open spec fn shape_rebound<'scope>(alias: SourceAlias) -> Self::ReboundExprs<'scope> {
        (T0::shape_rebound(alias),)
    }

    fn exprs<'scope>(alias: SourceAlias) -> (exprs: Self::Exprs<'scope>) {
        (T0::exprs(alias),)
    }

    fn rebound_exprs<'scope>(alias: SourceAlias) -> (exprs: Self::ReboundExprs<'scope>) {
        (T0::rebound_exprs(alias),)
    }
}

impl<T0: ProjectionParams> ProjectionParams for (T0,) {
    type Params = T0::Params;
}

impl<T0: ProjectionClass> ProjectionClass for (T0,) {
    type Class = T0::Class;
}

impl<T0: ReturnableProjection> ReturnableProjection for (T0,) {

}

impl<T0: RenderProjectable<B>, B: Backend> RenderProjectable<B> for (T0,) {
    open spec fn items(&self) -> List<ProjectionTree<Bound<B>>> {
        self.0.items()
    }

    fn lower_projection(&self) -> (items: List<ProjectionTree<Bound<B>>>) {
        self.0.lower_projection()
    }

    fn lower_projection_with_prefix(&self, prefix: &str) -> (items: List<
        ProjectionTree<Bound<B>>,
    >) {
        self.0.lower_projection_with_prefix(prefix)
    }

    proof fn lemma_projection_params<D: Dialect>(&self, dialect: D, bare: bool, lead: Seq<char>) {
        self.0.lemma_projection_params(dialect, bare, lead);
    }

    proof fn lemma_projection_plain(&self) {
        self.0.lemma_projection_plain();
    }
}

impl<T0: Projectable, T1: Projectable> Projectable for (T0, T1) {
    type Rebound<'scope> = (T0::Rebound<'scope>, T1::Rebound<'scope>);

    open spec fn rebound<'scope>(&self, alias: SourceAlias) -> Self::Rebound<'scope> {
        (self.0.rebound(alias), self.1.rebound(alias))
    }

    open spec fn rebinds_with_prefix<'scope>(
        &self,
        alias: SourceAlias,
        prefix: Seq<char>,
        rebound: Self::Rebound<'scope>,
    ) -> bool {
        &&& self.0.rebinds_with_prefix(alias, prefix, rebound.0)
        &&& self.1.rebinds_with_prefix(alias, prefix, rebound.1)
    }

    fn re_alias<'scope>(&self, alias: SourceAlias) -> (rebound: Self::Rebound<'scope>) {
        (self.0.re_alias(alias), self.1.re_alias(alias))
    }

    fn re_alias_with_prefix<'scope>(&self, alias: SourceAlias, prefix: &str) -> (rebound:
        Self::Rebound<'scope>) {
        (self.0.re_alias_with_prefix(alias, prefix), self.1.re_alias_with_prefix(alias, prefix))
    }
}

impl<T0: Duplicate, T1: Duplicate> Duplicate for (T0, T1) {
    fn duplicate(&self) -> (copy: Self) {
        (self.0.duplicate(), self.1.duplicate())
    }
}

impl<T0: ProjectionShape, T1: ProjectionShape> ProjectionShape for (T0, T1) {
    type Exprs<'scope> = (T0::Exprs<'scope>, T1::Exprs<'scope>);

    type ReboundExprs<'scope> = (T0::ReboundExprs<'scope>, T1::ReboundExprs<'scope>);

    type Row = (T0::Row, T1::Row);

    open spec fn shape_exprs<'scope>(alias: SourceAlias) -> Self::Exprs<'scope> {
        (T0::shape_exprs(alias), T1::shape_exprs(alias))
    }

    open spec fn shape_rebound<'scope>(alias: SourceAlias) -> Self::ReboundExprs<'scope> {
        (T0::shape_rebound(alias), T1::shape_rebound(alias))
    }

    fn exprs<'scope>(alias: SourceAlias) -> (exprs: Self::Exprs<'scope>) {
        (T0::exprs(alias), T1::exprs(alias))
    }

    fn rebound_exprs<'scope>(alias: SourceAlias) -> (exprs: Self::ReboundExprs<'scope>) {
        (T0::rebound_exprs(alias), T1::rebound_exprs(alias))
    }
}

impl<T0: ProjectionParams, T1: ProjectionParams> ProjectionParams for (T0, T1) where
    T0::Params: HAppend<T1::Params>,
 {
    type Params = <T0::Params as HAppend<T1::Params>>::Output;
}

impl<T0: ProjectionClass, T1: ProjectionClass<Class = T0::Class>> ProjectionClass for (T0, T1) {
    type Class = T0::Class;
}

impl<T0: ReturnableProjection, T1: ReturnableProjection> ReturnableProjection for (T0, T1) {

}

impl<T0: RenderProjectable<B>, T1: RenderProjectable<B>, B: Backend> RenderProjectable<B> for (T0, T1) where
    T0::Params: HAppend<T1::Params>,
 {
    open spec fn items(&self) -> List<ProjectionTree<Bound<B>>> {
        self.0.items().then_list(self.1.items())
    }

    fn lower_projection(&self) -> (items: List<ProjectionTree<Bound<B>>>) {
        self.0.lower_projection().append(self.1.lower_projection())
    }

    fn lower_projection_with_prefix(&self, prefix: &str) -> (items: List<
        ProjectionTree<Bound<B>>,
    >) {
        let items0 = self.0.lower_projection_with_prefix(prefix);
        let items1 = self.1.lower_projection_with_prefix(prefix);
        proof {
            lemma_prefixed_parts(self.0.items(), self.1.items(), prefix@, items0, items1);
        }
        items0.append(items1)
    }

    proof fn lemma_projection_params<D: Dialect>(&self, dialect: D, bare: bool, lead: Seq<char>) {
        let lead1 = if self.0.items() is Nil { lead } else { ", "@ };
        self.0.lemma_projection_params(dialect, bare, lead);
        lemma_projection_parts(dialect, bare, lead, self.0.items(), self.1.items());
        self.1.lemma_projection_params(dialect, bare, lead1);
        <T0::Params as HAppend<T1::Params>>::lemma_append_width();
    }

    proof fn lemma_projection_plain(&self) {
        <T0::Params as HAppend<T1::Params>>::lemma_append_width();
        self.0.lemma_projection_plain();
        self.1.lemma_projection_plain();
        lemma_plain_parts(self.0.items(), self.1.items());
    }
}

impl<T0: Projectable, T1: Projectable, T2: Projectable> Projectable for (T0, T1, T2) {
    type Rebound<'scope> = (T0::Rebound<'scope>, T1::Rebound<'scope>, T2::Rebound<'scope>);

    open spec fn rebound<'scope>(&self, alias: SourceAlias) -> Self::Rebound<'scope> {
        (self.0.rebound(alias), self.1.rebound(alias), self.2.rebound(alias))
    }

    open spec fn rebinds_with_prefix<'scope>(
        &self,
        alias: SourceAlias,
        prefix: Seq<char>,
        rebound: Self::Rebound<'scope>,
    ) -> bool {
        &&& self.0.rebinds_with_prefix(alias, prefix, rebound.0)
        &&& self.1.rebinds_with_prefix(alias, prefix, rebound.1)
        &&& self.2.rebinds_with_prefix(alias, prefix, rebound.2)
    }

    fn re_alias<'scope>(&self, alias: SourceAlias) -> (rebound: Self::Rebound<'scope>) {
        (self.0.re_alias(alias), self.1.re_alias(alias), self.2.re_alias(alias))
    }

    fn re_alias_with_prefix<'scope>(&self, alias: SourceAlias, prefix: &str) -> (rebound:
        Self::Rebound<'scope>) {
        (self.0.re_alias_with_prefix(alias, prefix), self.1.re_alias_with_prefix(alias, prefix), self.2.re_alias_with_prefix(alias, prefix))
    }
}

impl<T0: Duplicate, T1: Duplicate, T2: Duplicate> Duplicate for (T0, T1, T2) {
    fn duplicate(&self) -> (copy: Self) {
        (self.0.duplicate(), self.1.duplicate(), self.2.duplicate())
    }
}

impl<T0: ProjectionShape, T1: ProjectionShape, T2: ProjectionShape> ProjectionShape for (T0, T1, T2) {
    type Exprs<'scope> = (T0::Exprs<'scope>, T1::Exprs<'scope>, T2::Exprs<'scope>);

    type ReboundExprs<'scope> = (T0::ReboundExprs<'scope>, T1::ReboundExprs<'scope>, T2::ReboundExprs<'scope>);

    type Row = (T0::Row, T1::Row, T2::Row);

    open spec fn shape_exprs<'scope>(alias: SourceAlias) -> Self::Exprs<'scope> {
        (T0::shape_exprs(alias), T1::shape_exprs(alias), T2::shape_exprs(alias))
    }

    open spec fn shape_rebound<'scope>(alias: SourceAlias) -> Self::ReboundExprs<'scope> {
        (T0::shape_rebound(alias), T1::shape_rebound(alias), T2::shape_rebound(alias))
    }

    fn exprs<'scope>(alias: SourceAlias) -> (exprs: Self::Exprs<'scope>) {
        (T0::exprs(alias), T1::exprs(alias), T2::exprs(alias))
    }

    fn rebound_exprs<'scope>(alias: SourceAlias) -> (exprs: Self::ReboundExprs<'scope>) {
        (T0::rebound_exprs(alias), T1::rebound_exprs(alias), T2::rebound_exprs(alias))
    }
}

impl<T0: ProjectionParams, T1: ProjectionParams, T2: ProjectionParams> ProjectionParams for (T0, T1, T2) where
    T1::Params: HAppend<T2::Params>,
    T0::Params: HAppend<<T1::Params as HAppend<T2::Params>>::Output>,
 {
    type Params = <T0::Params as HAppend<<T1::Params as HAppend<T2::Params>>::Output>>::Output;
}

impl<T0: ProjectionClass, T1: ProjectionClass<Class = T0::Class>, T2: ProjectionClass<Class = T0::Class>> ProjectionClass for (T0, T1, T2) {
    type Class = T0::Class;
}

impl<T0: ReturnableProjection, T1: ReturnableProjection, T2: ReturnableProjection> ReturnableProjection for (T0, T1, T2) {

}

impl<T0: RenderProjectable<B>, T1: RenderProjectable<B>, T2: RenderProjectable<B>, B: Backend> RenderProjectable<B> for (T0, T1, T2) where
    T1::Params: HAppend<T2::Params>,
    T0::Params: HAppend<<T1::Params as HAppend<T2::Params>>::Output>,
 {
    open spec fn items(&self) -> List<ProjectionTree<Bound<B>>> {
        self.0.items().then_list(self.1.items().then_list(self.2.items()))
    }

    fn lower_projection(&self) -> (items: List<ProjectionTree<Bound<B>>>) {
        self.0.lower_projection().append(self.1.lower_projection().append(self.2.lower_projection()))
    }

    fn lower_projection_with_prefix(&self, prefix: &str) -> (items: List<
        ProjectionTree<Bound<B>>,
    >) {
        let items0 = self.0.lower_projection_with_prefix(prefix);
        let items1 = self.1.lower_projection_with_prefix(prefix);
        let items2 = self.2.lower_projection_with_prefix(prefix);
        proof {
            lemma_prefixed_parts(self.1.items(), self.2.items(), prefix@, items1, items2);
            lemma_prefixed_parts(self.0.items(), self.1.items().then_list(self.2.items()), prefix@, items0, items1.then_list(items2));
        }
        items0.append(items1.append(items2))
    }

    proof fn lemma_projection_params<D: Dialect>(&self, dialect: D, bare: bool, lead: Seq<char>) {
        let lead1 = if self.0.items() is Nil { lead } else { ", "@ };
        self.0.lemma_projection_params(dialect, bare, lead);
        lemma_projection_parts(dialect, bare, lead, self.0.items(), self.1.items().then_list(self.2.items()));
        let lead2 = if self.1.items() is Nil { lead1 } else { ", "@ };
        self.1.lemma_projection_params(dialect, bare, lead1);
        lemma_projection_parts(dialect, bare, lead1, self.1.items(), self.2.items());
        self.2.lemma_projection_params(dialect, bare, lead2);
        <T0::Params as HAppend<<T1::Params as HAppend<T2::Params>>::Output>>::lemma_append_width();
        <T1::Params as HAppend<T2::Params>>::lemma_append_width();
    }

    proof fn lemma_projection_plain(&self) {
        <T0::Params as HAppend<<T1::Params as HAppend<T2::Params>>::Output>>::lemma_append_width();
        <T1::Params as HAppend<T2::Params>>::lemma_append_width();
        self.0.lemma_projection_plain();
        self.1.lemma_projection_plain();
        self.2.lemma_projection_plain();
        lemma_plain_parts(self.1.items(), self.2.items());
        lemma_plain_parts(self.0.items(), self.1.items().then_list(self.2.items()));
    }
}

impl<T0: Projectable, T1: Projectable, T2: Projectable, T3: Projectable> Projectable for (T0, T1, T2, T3) {
    type Rebound<'scope> = (T0::Rebound<'scope>, T1::Rebound<'scope>, T2::Rebound<'scope>, T3::Rebound<'scope>);

    open spec fn rebound<'scope>(&self, alias: SourceAlias) -> Self::Rebound<'scope> {
        (self.0.rebound(alias), self.1.rebound(alias), self.2.rebound(alias), self.3.rebound(alias))
    }

    open spec fn rebinds_with_prefix<'scope>(
        &self,
        alias: SourceAlias,
        prefix: Seq<char>,
        rebound: Self::Rebound<'scope>,
    ) -> bool {
        &&& self.0.rebinds_with_prefix(alias, prefix, rebound.0)
        &&& self.1.rebinds_with_prefix(alias, prefix, rebound.1)
        &&& self.2.rebinds_with_prefix(alias, prefix, rebound.2)
        &&& self.3.rebinds_with_prefix(alias, prefix, rebound.3)
    }

    fn re_alias<'scope>(&self, alias: SourceAlias) -> (rebound: Self::Rebound<'scope>) {
        (self.0.re_alias(alias), self.1.re_alias(alias), self.2.re_alias(alias), self.3.re_alias(alias))
    }

    fn re_alias_with_prefix<'scope>(&self, alias: SourceAlias, prefix: &str) -> (rebound:
        Self::Rebound<'scope>) {
        (self.0.re_alias_with_prefix(alias, prefix), self.1.re_alias_with_prefix(alias, prefix), self.2.re_alias_with_prefix(alias, prefix), self.3.re_alias_with_prefix(alias, prefix))
    }
}

impl<T0: Duplicate, T1: Duplicate, T2: Duplicate, T3: Duplicate> Duplicate for (T0, T1, T2, T3) {
    fn duplicate(&self) -> (copy: Self) {
        (self.0.duplicate(), self.1.duplicate(), self.2.duplicate(), self.3.duplicate())
    }
}

impl<T0: ProjectionShape, T1: ProjectionShape, T2: ProjectionShape, T3: ProjectionShape> ProjectionShape for (T0, T1, T2, T3) {
    type Exprs<'scope> = (T0::Exprs<'scope>, T1::Exprs<'scope>, T2::Exprs<'scope>, T3::Exprs<'scope>);

    type ReboundExprs<'scope> = (T0::ReboundExprs<'scope>, T1::ReboundExprs<'scope>, T2::ReboundExprs<'scope>, T3::ReboundExprs<'scope>);

    type Row = (T0::Row, T1::Row, T2::Row, T3::Row);

    open spec fn shape_exprs<'scope>(alias: SourceAlias) -> Self::Exprs<'scope> {
        (T0::shape_exprs(alias), T1::shape_exprs(alias), T2::shape_exprs(alias), T3::shape_exprs(alias))
    }

    open spec fn shape_rebound<'scope>(alias: SourceAlias) -> Self::ReboundExprs<'scope> {
        (T0::shape_rebound(alias), T1::shape_rebound(alias), T2::shape_rebound(alias), T3::shape_rebound(alias))
    }

    fn exprs<'scope>(alias: SourceAlias) -> (exprs: Self::Exprs<'scope>) {
        (T0::exprs(alias), T1::exprs(alias), T2::exprs(alias), T3::exprs(alias))
    }

    fn rebound_exprs<'scope>(alias: SourceAlias) -> (exprs: Self::ReboundExprs<'scope>) {
        (T0::rebound_exprs(alias), T1::rebound_exprs(alias), T2::rebound_exprs(alias), T3::rebound_exprs(alias))
    }
}

impl<T0: ProjectionParams, T1: ProjectionParams, T2: ProjectionParams, T3: ProjectionParams> ProjectionParams for (T0, T1, T2, T3) where
    T2::Params: HAppend<T3::Params>,
    T1::Params: HAppend<<T2::Params as HAppend<T3::Params>>::Output>,
    T0::Params: HAppend<<T1::Params as HAppend<<T2::Params as HAppend<T3::Params>>::Output>>::Output>,
 {
    type Params = <T0::Params as HAppend<<T1::Params as HAppend<<T2::Params as HAppend<T3::Params>>::Output>>::Output>>::Output;
}

impl<T0: ProjectionClass, T1: ProjectionClass<Class = T0::Class>, T2: ProjectionClass<Class = T0::Class>, T3: ProjectionClass<Class = T0::Class>> ProjectionClass for (T0, T1, T2, T3) {
    type Class = T0::Class;
}

impl<T0: ReturnableProjection, T1: ReturnableProjection, T2: ReturnableProjection, T3: ReturnableProjection> ReturnableProjection for (T0, T1, T2, T3) {

}

impl<T0: RenderProjectable<B>, T1: RenderProjectable<B>, T2: RenderProjectable<B>, T3: RenderProjectable<B>, B: Backend> RenderProjectable<B> for (T0, T1, T2, T3) where
    T2::Params: HAppend<T3::Params>,
    T1::Params: HAppend<<T2::Params as HAppend<T3::Params>>::Output>,
    T0::Params: HAppend<<T1::Params as HAppend<<T2::Params as HAppend<T3::Params>>::Output>>::Output>,
 {
    open spec fn items(&self) -> List<ProjectionTree<Bound<B>>> {
        self.0.items().then_list(self.1.items().then_list(self.2.items().then_list(self.3.items())))
    }

    fn lower_projection(&self) -> (items: List<ProjectionTree<Bound<B>>>) {
        self.0.lower_projection().append(self.1.lower_projection().append(self.2.lower_projection().append(self.3.lower_projection())))
    }

    fn lower_projection_with_prefix(&self, prefix: &str) -> (items: List<
        ProjectionTree<Bound<B>>,
    >) {
        let items0 = self.0.lower_projection_with_prefix(prefix);
        let items1 = self.1.lower_projection_with_prefix(prefix);
        let items2 = self.2.lower_projection_with_prefix(prefix);
        let items3 = self.3.lower_projection_with_prefix(prefix);
        proof {
            lemma_prefixed_parts(self.2.items(), self.3.items(), prefix@, items2, items3);
            lemma_prefixed_parts(self.1.items(), self.2.items().then_list(self.3.items()), prefix@, items1, items2.then_list(items3));
            lemma_prefixed_parts(self.0.items(), self.1.items().then_list(self.2.items().then_list(self.3.items())), prefix@, items0, items1.then_list(items2.then_list(items3)));
        }
        items0.append(items1.append(items2.append(items3)))
    }

    proof fn lemma_projection_params<D: Dialect>(&self, dialect: D, bare: bool, lead: Seq<char>) {
        let lead1 = if self.0.items() is Nil { lead } else { ", "@ };
        self.0.lemma_projection_params(dialect, bare, lead);
        lemma_projection_parts(dialect, bare, lead, self.0.items(), self.1.items().then_list(self.2.items().then_list(self.3.items())));
        let lead2 = if self.1.items() is Nil { lead1 } else { ", "@ };
        self.1.lemma_projection_params(dialect, bare, lead1);
        lemma_projection_parts(dialect, bare, lead1, self.1.items(), self.2.items().then_list(self.3.items()));
        let lead3 = if self.2.items() is Nil { lead2 } else { ", "@ };
        self.2.lemma_projection_params(dialect, bare, lead2);
        lemma_projection_parts(dialect, bare, lead2, self.2.items(), self.3.items());
        self.3.lemma_projection_params(dialect, bare, lead3);
        <T0::Params as HAppend<<T1::Params as HAppend<<T2::Params as HAppend<T3::Params>>::Output>>::Output>>::lemma_append_width();
        <T1::Params as HAppend<<T2::Params as HAppend<T3::Params>>::Output>>::lemma_append_width();
        <T2::Params as HAppend<T3::Params>>::lemma_append_width();
    }

    proof fn lemma_projection_plain(&self) {
        <T0::Params as HAppend<<T1::Params as HAppend<<T2::Params as HAppend<T3::Params>>::Output>>::Output>>::lemma_append_width();
        <T1::Params as HAppend<<T2::Params as HAppend<T3::Params>>::Output>>::lemma_append_width();
        <T2::Params as HAppend<T3::Params>>::lemma_append_width();
        self.0.lemma_projection_plain();
        self.1.lemma_projection_plain();
        self.2.lemma_projection_plain();
        self.3.lemma_projection_plain();
        lemma_plain_parts(self.2.items(), self.3.items());
        lemma_plain_parts(self.1.items(), self.2.items().then_list(self.3.items()));
        lemma_plain_parts(self.0.items(), self.1.items().then_list(self.2.items().then_list(self.3.items())));
    }
}

impl<T0: Projectable, T1: Projectable, T2: Projectable, T3: Projectable, T4: Projectable> Projectable for (T0, T1, T2, T3, T4) {
    type Rebound<'scope> = (T0::Rebound<'scope>, T1::Rebound<'scope>, T2::Rebound<'scope>, T3::Rebound<'scope>, T4::Rebound<'scope>);

    open spec fn rebound<'scope>(&self, alias: SourceAlias) -> Self::Rebound<'scope> {
        (self.0.rebound(alias), self.1.rebound(alias), self.2.rebound(alias), self.3.rebound(alias), self.4.rebound(alias))
    }

    open spec fn rebinds_with_prefix<'scope>(
        &self,
        alias: SourceAlias,
        prefix: Seq<char>,
        rebound: Self::Rebound<'scope>,
    ) -> bool {
        &&& self.0.rebinds_with_prefix(alias, prefix, rebound.0)
        &&& self.1.rebinds_with_prefix(alias, prefix, rebound.1)
        &&& self.2.rebinds_with_prefix(alias, prefix, rebound.2)
        &&& self.3.rebinds_with_prefix(alias, prefix, rebound.3)
        &&& self.4.rebinds_with_prefix(alias, prefix, rebound.4)
    }

    fn re_alias<'scope>(&self, alias: SourceAlias) -> (rebound: Self::Rebound<'scope>) {
        (self.0.re_alias(alias), self.1.re_alias(alias), self.2.re_alias(alias), self.3.re_alias(alias), self.4.re_alias(alias))
    }

    fn re_alias_with_prefix<'scope>(&self, alias: SourceAlias, prefix: &str) -> (rebound:
        Self::Rebound<'scope>) {
        (self.0.re_alias_with_prefix(alias, prefix), self.1.re_alias_with_prefix(alias, prefix), self.2.re_alias_with_prefix(alias, prefix), self.3.re_alias_with_prefix(alias, prefix), self.4.re_alias_with_prefix(alias, prefix))
    }
}

impl<T0: Duplicate, T1: Duplicate, T2: Duplicate, T3: Duplicate, T4: Duplicate> Duplicate for (T0, T1, T2, T3, T4) {
    fn duplicate(&self) -> (copy: Self) {
        (self.0.duplicate(), self.1.duplicate(), self.2.duplicate(), self.3.duplicate(), self.4.duplicate())
    }
}

impl<T0: ProjectionShape, T1: ProjectionShape, T2: ProjectionShape, T3: ProjectionShape, T4: ProjectionShape> ProjectionShape for (T0, T1, T2, T3, T4) {
    type Exprs<'scope> = (T0::Exprs<'scope>, T1::Exprs<'scope>, T2::Exprs<'scope>, T3::Exprs<'scope>, T4::Exprs<'scope>);

    type ReboundExprs<'scope> = (T0::ReboundExprs<'scope>, T1::ReboundExprs<'scope>, T2::ReboundExprs<'scope>, T3::ReboundExprs<'scope>, T4::ReboundExprs<'scope>);

    type Row = (T0::Row, T1::Row, T2::Row, T3::Row, T4::Row);

    open spec fn shape_exprs<'scope>(alias: SourceAlias) -> Self::Exprs<'scope> {
        (T0::shape_exprs(alias), T1::shape_exprs(alias), T2::shape_exprs(alias), T3::shape_exprs(alias), T4::shape_exprs(alias))
    }

    open spec fn shape_rebound<'scope>(alias: SourceAlias) -> Self::ReboundExprs<'scope> {
        (T0::shape_rebound(alias), T1::shape_rebound(alias), T2::shape_rebound(alias), T3::shape_rebound(alias), T4::shape_rebound(alias))
    }

    fn exprs<'scope>(alias: SourceAlias) -> (exprs: Self::Exprs<'scope>) {
        (T0::exprs(alias), T1::exprs(alias), T2::exprs(alias), T3::exprs(alias), T4::exprs(alias))
    }

    fn rebound_exprs<'scope>(alias: SourceAlias) -> (exprs: Self::ReboundExprs<'scope>) {
        (T0::rebound_exprs(alias), T1::rebound_exprs(alias), T2::rebound_exprs(alias), T3::rebound_exprs(alias), T4::rebound_exprs(alias))
    }
}

impl<T0: ProjectionParams, T1: ProjectionParams, T2: ProjectionParams, T3: ProjectionParams, T4: ProjectionParams> ProjectionParams for (T0, T1, T2, T3, T4) where
    T3::Params: HAppend<T4::Params>,
    T2::Params: HAppend<<T3::Params as HAppend<T4::Params>>::Output>,
    T1::Params: HAppend<<T2::Params as HAppend<<T3::Params as HAppend<T4::Params>>::Output>>::Output>,
    T0::Params: HAppend<<T1::Params as HAppend<<T2::Params as HAppend<<T3::Params as HAppend<T4::Params>>::Output>>::Output>>::Output>,
 {
    type Params = <T0::Params as HAppend<<T1::Params as HAppend<<T2::Params as HAppend<<T3::Params as HAppend<T4::Params>>::Output>>::Output>>::Output>>::Output;
}

impl<T0: ProjectionClass, T1: ProjectionClass<Class = T0::Class>, T2: ProjectionClass<Class = T0::Class>, T3: ProjectionClass<Class = T0::Class>, T4: ProjectionClass<Class = T0::Class>> ProjectionClass for (T0, T1, T2, T3, T4) {
    type Class = T0::Class;
}

impl<T0: ReturnableProjection, T1: ReturnableProjection, T2: ReturnableProjection, T3: ReturnableProjection, T4: ReturnableProjection> ReturnableProjection for (T0, T1, T2, T3, T4) {

}

impl<T0: RenderProjectable<B>, T1: RenderProjectable<B>, T2: RenderProjectable<B>, T3: RenderProjectable<B>, T4: RenderProjectable<B>, B: Backend> RenderProjectable<B> for (T0, T1, T2, T3, T4) where
    T3::Params: HAppend<T4::Params>,
    T2::Params: HAppend<<T3::Params as HAppend<T4::Params>>::Output>,
    T1::Params: HAppend<<T2::Params as HAppend<<T3::Params as HAppend<T4::Params>>::Output>>::Output>,
    T0::Params: HAppend<<T1::Params as HAppend<<T2::Params as HAppend<<T3::Params as HAppend<T4::Params>>::Output>>::Output>>::Output>,
 {
    open spec fn items(&self) -> List<ProjectionTree<Bound<B>>> {
        self.0.items().then_list(self.1.items().then_list(self.2.items().then_list(self.3.items().then_list(self.4.items()))))
    }

    fn lower_projection(&self) -> (items: List<ProjectionTree<Bound<B>>>) {
        self.0.lower_projection().append(self.1.lower_projection().append(self.2.lower_projection().append(self.3.lower_projection().append(self.4.lower_projection()))))
    }

    fn lower_projection_with_prefix(&self, prefix: &str) -> (items: List<
        ProjectionTree<Bound<B>>,
    >) {
        let items0 = self.0.lower_projection_with_prefix(prefix);
        let items1 = self.1.lower_projection_with_prefix(prefix);
        let items2 = self.2.lower_projection_with_prefix(prefix);
        let items3 = self.3.lower_projection_with_prefix(prefix);
        let items4 = self.4.lower_projection_with_prefix(prefix);
        proof {
            lemma_prefixed_parts(self.3.items(), self.4.items(), prefix@, items3, items4);
            lemma_prefixed_parts(self.2.items(), self.3.items().then_list(self.4.items()), prefix@, items2, items3.then_list(items4));
            lemma_prefixed_parts(self.1.items(), self.2.items().then_list(self.3.items().then_list(self.4.items())), prefix@, items1, items2.then_list(items3.then_list(items4)));
            lemma_prefixed_parts(self.0.items(), self.1.items().then_list(self.2.items().then_list(self.3.items().then_list(self.4.items()))), prefix@, items0, items1.then_list(items2.then_list(items3.then_list(items4))));
        }
        items0.append(items1.append(items2.append(items3.append(items4))))
    }

    proof fn lemma_projection_params<D: Dialect>(&self, dialect: D, bare: bool, lead: Seq<char>) {
        let lead1 = if self.0.items() is Nil { lead } else { ", "@ };
        self.0.lemma_projection_params(dialect, bare, lead);
        lemma_projection_parts(dialect, bare, lead, self.0.items(), self.1.items().then_list(self.2.items().then_list(self.3.items().then_list(self.4.items()))));
        let lead2 = if self.1.items() is Nil { lead1 } else { ", "@ };
        self.1.lemma_projection_params(dialect, bare, lead1);
        lemma_projection_parts(dialect, bare, lead1, self.1.items(), self.2.items().then_list(self.3.items().then_list(self.4.items())));
        let lead3 = if self.2.items() is Nil { lead2 } else { ", "@ };
        self.2.lemma_projection_params(dialect, bare, lead2);
        lemma_projection_parts(dialect, bare, lead2, self.2.items(), self.3.items().then_list(self.4.items()));
        let lead4 = if self.3.items() is Nil { lead3 } else { ", "@ };
        self.3.lemma_projection_params(dialect, bare, lead3);
        lemma_projection_parts(dialect, bare, lead3, self.3.items(), self.4.items());
        self.4.lemma_projection_params(dialect, bare, lead4);
        <T0::Params as HAppend<<T1::Params as HAppend<<T2::Params as HAppend<<T3::Params as HAppend<T4::Params>>::Output>>::Output>>::Output>>::lemma_append_width();
        <T1::Params as HAppend<<T2::Params as HAppend<<T3::Params as HAppend<T4::Params>>::Output>>::Output>>::lemma_append_width();
        <T2::Params as HAppend<<T3::Params as HAppend<T4::Params>>::Output>>::lemma_append_width();
        <T3::Params as HAppend<T4::Params>>::lemma_append_width();
    }

    proof fn lemma_projection_plain(&self) {
        <T0::Params as HAppend<<T1::Params as HAppend<<T2::Params as HAppend<<T3::Params as HAppend<T4::Params>>::Output>>::Output>>::Output>>::lemma_append_width();
        <T1::Params as HAppend<<T2::Params as HAppend<<T3::Params as HAppend<T4::Params>>::Output>>::Output>>::lemma_append_width();
        <T2::Params as HAppend<<T3::Params as HAppend<T4::Params>>::Output>>::lemma_append_width();
        <T3::Params as HAppend<T4::Params>>::lemma_append_width();
        self.0.lemma_projection_plain();
        self.1.lemma_projection_plain();
        self.2.lemma_projection_plain();
        self.3.lemma_projection_plain();
        self.4.lemma_projection_plain();
        lemma_plain_parts(self.3.items(), self.4.items());
        lemma_plain_parts(self.2.items(), self.3.items().then_list(self.4.items()));
        lemma_plain_parts(self.1.items(), self.2.items().then_list(self.3.items().then_list(self.4.items())));
        lemma_plain_parts(self.0.items(), self.1.items().then_list(self.2.items().then_list(self.3.items().then_list(self.4.items()))));
    }
}

impl<T0: Projectable, T1: Projectable, T2: Projectable, T3: Projectable, T4: Projectable, T5: Projectable> Projectable for (T0, T1, T2, T3, T4, T5) {
    type Rebound<'scope> = (T0::Rebound<'scope>, T1::Rebound<'scope>, T2::Rebound<'scope>, T3::Rebound<'scope>, T4::Rebound<'scope>, T5::Rebound<'scope>);

    open spec fn rebound<'scope>(&self, alias: SourceAlias) -> Self::Rebound<'scope> {
        (self.0.rebound(alias), self.1.rebound(alias), self.2.rebound(alias), self.3.rebound(alias), self.4.rebound(alias), self.5.rebound(alias))
    }

    open spec fn rebinds_with_prefix<'scope>(
        &self,
        alias: SourceAlias,
        prefix: Seq<char>,
        rebound: Self::Rebound<'scope>,
    ) -> bool {
        &&& self.0.rebinds_with_prefix(alias, prefix, rebound.0)
        &&& self.1.rebinds_with_prefix(alias, prefix, rebound.1)
        &&& self.2.rebinds_with_prefix(alias, prefix, rebound.2)
        &&& self.3.rebinds_with_prefix(alias, prefix, rebound.3)
        &&& self.4.rebinds_with_prefix(alias, prefix, rebound.4)
        &&& self.5.rebinds_with_prefix(alias, prefix, rebound.5)
    }

    fn re_alias<'scope>(&self, alias: SourceAlias) -> (rebound: Self::Rebound<'scope>) {
        (self.0.re_alias(alias), self.1.re_alias(alias), self.2.re_alias(alias), self.3.re_alias(alias), self.4.re_alias(alias), self.5.re_alias(alias))
    }

    fn re_alias_with_prefix<'scope>(&self, alias: SourceAlias, prefix: &str) -> (rebound:
        Self::Rebound<'scope>) {
        (self.0.re_alias_with_prefix(alias, prefix), self.1.re_alias_with_prefix(alias, prefix), self.2.re_alias_with_prefix(alias, prefix), self.3.re_alias_with_prefix(alias, prefix), self.4.re_alias_with_prefix(alias, prefix), self.5.re_alias_with_prefix(alias, prefix))
    }
}

impl<T0: Duplicate, T1: Duplicate, T2: Duplicate, T3: Duplicate, T4: Duplicate, T5: Duplicate> Duplicate for (T0, T1, T2, T3, T4, T5) {
    fn duplicate(&self) -> (copy: Self) {
        (self.0.duplicate(), self.1.duplicate(), self.2.duplicate(), self.3.duplicate(), self.4.duplicate(), self.5.duplicate())
    }
}

impl<T0: ProjectionShape, T1: ProjectionShape, T2: ProjectionShape, T3: ProjectionShape, T4: ProjectionShape, T5: ProjectionShape> ProjectionShape for (T0, T1, T2, T3, T4, T5) {
    type Exprs<'scope> = (T0::Exprs<'scope>, T1::Exprs<'scope>, T2::Exprs<'scope>, T3::Exprs<'scope>, T4::Exprs<'scope>, T5::Exprs<'scope>);

    type ReboundExprs<'scope> = (T0::ReboundExprs<'scope>, T1::ReboundExprs<'scope>, T2::ReboundExprs<'scope>, T3::ReboundExprs<'scope>, T4::ReboundExprs<'scope>, T5::ReboundExprs<'scope>);

    type Row = (T0::Row, T1::Row, T2::Row, T3::Row, T4::Row, T5::Row);

    open spec fn shape_exprs<'scope>(alias: SourceAlias) -> Self::Exprs<'scope> {
        (T0::shape_exprs(alias), T1::shape_exprs(alias), T2::shape_exprs(alias), T3::shape_exprs(alias), T4::shape_exprs(alias), T5::shape_exprs(alias))
    }

    open spec fn shape_rebound<'scope>(alias: SourceAlias) -> Self::ReboundExprs<'scope> {
        (T0::shape_rebound(alias), T1::shape_rebound(alias), T2::shape_rebound(alias), T3::shape_rebound(alias), T4::shape_rebound(alias), T5::shape_rebound(alias))
    }

    fn exprs<'scope>(alias: SourceAlias) -> (exprs: Self::Exprs<'scope>) {
        (T0::exprs(alias), T1::exprs(alias), T2::exprs(alias), T3::exprs(alias), T4::exprs(alias), T5::exprs(alias))
    }

    fn rebound_exprs<'scope>(alias: SourceAlias) -> (exprs: Self::ReboundExprs<'scope>) {
        (T0::rebound_exprs(alias), T1::rebound_exprs(alias), T2::rebound_exprs(alias), T3::rebound_exprs(alias), T4::rebound_exprs(alias), T5::rebound_exprs(alias))
    }
}

impl<T0: ProjectionParams, T1: ProjectionParams, T2: ProjectionParams, T3: ProjectionParams, T4: ProjectionParams, T5: ProjectionParams> ProjectionParams for (T0, T1, T2, T3, T4, T5) where
    T4::Params: HAppend<T5::Params>,
    T3::Params: HAppend<<T4::Params as HAppend<T5::Params>>::Output>,
    T2::Params: HAppend<<T3::Params as HAppend<<T4::Params as HAppend<T5::Params>>::Output>>::Output>,
    T1::Params: HAppend<<T2::Params as HAppend<<T3::Params as HAppend<<T4::Params as HAppend<T5::Params>>::Output>>::Output>>::Output>,
    T0::Params: HAppend<<T1::Params as HAppend<<T2::Params as HAppend<<T3::Params as HAppend<<T4::Params as HAppend<T5::Params>>::Output>>::Output>>::Output>>::Output>,
 {
    type Params = <T0::Params as HAppend<<T1::Params as HAppend<<T2::Params as HAppend<<T3::Params as HAppend<<T4::Params as HAppend<T5::Params>>::Output>>::Output>>::Output>>::Output>>::Output;
}

impl<T0: ProjectionClass, T1: ProjectionClass<Class = T0::Class>, T2: ProjectionClass<Class = T0::Class>, T3: ProjectionClass<Class = T0::Class>, T4: ProjectionClass<Class = T0::Class>, T5: ProjectionClass<Class = T0::Class>> ProjectionClass for (T0, T1, T2, T3, T4, T5) {
    type Class = T0::Class;
}

impl<T0: ReturnableProjection, T1: ReturnableProjection, T2: ReturnableProjection, T3: ReturnableProjection, T4: ReturnableProjection, T5: ReturnableProjection> ReturnableProjection for (T0, T1, T2, T3, T4, T5) {

}

impl<T0: RenderProjectable<B>, T1: RenderProjectable<B>, T2: RenderProjectable<B>, T3: RenderProjectable<B>, T4: RenderProjectable<B>, T5: RenderProjectable<B>, B: Backend> RenderProjectable<B> for (T0, T1, T2, T3, T4, T5) where
    T4::Params: HAppend<T5::Params>,
    T3::Params: HAppend<<T4::Params as HAppend<T5::Params>>::Output>,
    T2::Params: HAppend<<T3::Params as HAppend<<T4::Params as HAppend<T5::Params>>::Output>>::Output>,
    T1::Params: HAppend<<T2::Params as HAppend<<T3::Params as HAppend<<T4::Params as HAppend<T5::Params>>::Output>>::Output>>::Output>,
    T0::Params: HAppend<<T1::Params as HAppend<<T2::Params as HAppend<<T3::Params as HAppend<<T4::Params as HAppend<T5::Params>>::Output>>::Output>>::Output>>::Output>,
 {
    open spec fn items(&self) -> List<ProjectionTree<Bound<B>>> {
        self.0.items().then_list(self.1.items().then_list(self.2.items().then_list(self.3.items().then_list(self.4.items().then_list(self.5.items())))))
    }

    fn lower_projection(&self) -> (items: List<ProjectionTree<Bound<B>>>) {
        self.0.lower_projection().append(self.1.lower_projection().append(self.2.lower_projection().append(self.3.lower_projection().append(self.4.lower_projection().append(self.5.lower_projection())))))
    }

    fn lower_projection_with_prefix(&self, prefix: &str) -> (items: List<
        ProjectionTree<Bound<B>>,
    >) {
        let items0 = self.0.lower_projection_with_prefix(prefix);
        let items1 = self.1.lower_projection_with_prefix(prefix);
        let items2 = self.2.lower_projection_with_prefix(prefix);
        let items3 = self.3.lower_projection_with_prefix(prefix);
        let items4 = self.4.lower_projection_with_prefix(prefix);
        let items5 = self.5.lower_projection_with_prefix(prefix);
        proof {
            lemma_prefixed_parts(self.4.items(), self.5.items(), prefix@, items4, items5);
            lemma_prefixed_parts(self.3.items(), self.4.items().then_list(self.5.items()), prefix@, items3, items4.then_list(items5));
            lemma_prefixed_parts(self.2.items(), self.3.items().then_list(self.4.items().then_list(self.5.items())), prefix@, items2, items3.then_list(items4.then_list(items5)));
            lemma_prefixed_parts(self.1.items(), self.2.items().then_list(self.3.items().then_list(self.4.items().then_list(self.5.items()))), prefix@, items1, items2.then_list(items3.then_list(items4.then_list(items5))));
            lemma_prefixed_parts(self.0.items(), self.1.items().then_list(self.2.items().then_list(self.3.items().then_list(self.4.items().then_list(self.5.items())))), prefix@, items0, items1.then_list(items2.then_list(items3.then_list(items4.then_list(items5)))));
        }
        items0.append(items1.append(items2.append(items3.append(items4.append(items5)))))
    }

    proof fn lemma_projection_params<D: Dialect>(&self, dialect: D, bare: bool, lead: Seq<char>) {
        let lead1 = if self.0.items() is Nil { lead } else { ", "@ };
        self.0.lemma_projection_params(dialect, bare, lead);
        lemma_projection_parts(dialect, bare, lead, self.0.items(), self.1.items().then_list(self.2.items().then_list(self.3.items().then_list(self.4.items().then_list(self.5.items())))));
        let lead2 = if self.1.items() is Nil { lead1 } else { ", "@ };
        self.1.lemma_projection_params(dialect, bare, lead1);
        lemma_projection_parts(dialect, bare, lead1, self.1.items(), self.2.items().then_list(self.3.items().then_list(self.4.items().then_list(self.5.items()))));
        let lead3 = if self.2.items() is Nil { lead2 } else { ", "@ };
        self.2.lemma_projection_params(dialect, bare, lead2);
        lemma_projection_parts(dialect, bare, lead2, self.2.items(), self.3.items().then_list(self.4.items().then_list(self.5.items())));
        let lead4 = if self.3.items() is Nil { lead3 } else { ", "@ };
        self.3.lemma_projection_params(dialect, bare, lead3);
        lemma_projection_parts(dialect, bare, lead3, self.3.items(), self.4.items().then_list(self.5.items()));
        let lead5 = if self.4.items() is Nil { lead4 } else { ", "@ };
        self.4.lemma_projection_params(dialect, bare, lead4);
        lemma_projection_parts(dialect, bare, lead4, self.4.items(), self.5.items());
        self.5.lemma_projection_params(dialect, bare, lead5);
        <T0::Params as HAppend<<T1::Params as HAppend<<T2::Params as HAppend<<T3::Params as HAppend<<T4::Params as HAppend<T5::Params>>::Output>>::Output>>::Output>>::Output>>::lemma_append_width();
        <T1::Params as HAppend<<T2::Params as HAppend<<T3::Params as HAppend<<T4::Params as HAppend<T5::Params>>::Output>>::Output>>::Output>>::lemma_append_width();
        <T2::Params as HAppend<<T3::Params as HAppend<<T4::Params as HAppend<T5::Params>>::Output>>::Output>>::lemma_append_width();
        <T3::Params as HAppend<<T4::Params as HAppend<T5::Params>>::Output>>::lemma_append_width();
        <T4::Params as HAppend<T5::Params>>::lemma_append_width();
    }

    proof fn lemma_projection_plain(&self) {
        <T0::Params as HAppend<<T1::Params as HAppend<<T2::Params as HAppend<<T3::Params as HAppend<<T4::Params as HAppend<T5::Params>>::Output>>::Output>>::Output>>::Output>>::lemma_append_width();
        <T1::Params as HAppend<<T2::Params as HAppend<<T3::Params as HAppend<<T4::Params as HAppend<T5::Params>>::Output>>::Output>>::Output>>::lemma_append_width();
        <T2::Params as HAppend<<T3::Params as HAppend<<T4::Params as HAppend<T5::Params>>::Output>>::Output>>::lemma_append_width();
        <T3::Params as HAppend<<T4::Params as HAppend<T5::Params>>::Output>>::lemma_append_width();
        <T4::Params as HAppend<T5::Params>>::lemma_append_width();
        self.0.lemma_projection_plain();
        self.1.lemma_projection_plain();
        self.2.lemma_projection_plain();
        self.3.lemma_projection_plain();
        self.4.lemma_projection_plain();
        self.5.lemma_projection_plain();
        lemma_plain_parts(self.4.items(), self.5.items());
        lemma_plain_parts(self.3.items(), self.4.items().then_list(self.5.items()));
        lemma_plain_parts(self.2.items(), self.3.items().then_list(self.4.items().then_list(self.5.items())));
        lemma_plain_parts(self.1.items(), self.2.items().then_list(self.3.items().then_list(self.4.items().then_list(self.5.items()))));
        lemma_plain_parts(self.0.items(), self.1.items().then_list(self.2.items().then_list(self.3.items().then_list(self.4.items().then_list(self.5.items())))));
    }
}

impl<T0: Projectable, T1: Projectable, T2: Projectable, T3: Projectable, T4: Projectable, T5: Projectable, T6: Projectable> Projectable for (T0, T1, T2, T3, T4, T5, T6) {
    type Rebound<'scope> = (T0::Rebound<'scope>, T1::Rebound<'scope>, T2::Rebound<'scope>, T3::Rebound<'scope>, T4::Rebound<'scope>, T5::Rebound<'scope>, T6::Rebound<'scope>);

    open spec fn rebound<'scope>(&self, alias: SourceAlias) -> Self::Rebound<'scope> {
        (self.0.rebound(alias), self.1.rebound(alias), self.2.rebound(alias), self.3.rebound(alias), self.4.rebound(alias), self.5.rebound(alias), self.6.rebound(alias))
    }

    open spec fn rebinds_with_prefix<'scope>(
        &self,
        alias: SourceAlias,
        prefix: Seq<char>,
        rebound: Self::Rebound<'scope>,
    ) -> bool {
        &&& self.0.rebinds_with_prefix(alias, prefix, rebound.0)
        &&& self.1.rebinds_with_prefix(alias, prefix, rebound.1)
        &&& self.2.rebinds_with_prefix(alias, prefix, rebound.2)
        &&& self.3.rebinds_with_prefix(alias, prefix, rebound.3)
        &&& self.4.rebinds_with_prefix(alias, prefix, rebound.4)
        &&& self.5.rebinds_with_prefix(alias, prefix, rebound.5)
        &&& self.6.rebinds_with_prefix(alias, prefix, rebound.6)
    }

    fn re_alias<'scope>(&self, alias: SourceAlias) -> (rebound: Self::Rebound<'scope>) {
        (self.0.re_alias(alias), self.1.re_alias(alias), self.2.re_alias(alias), self.3.re_alias(alias), self.4.re_alias(alias), self.5.re_alias(alias), self.6.re_alias(alias))
    }

    fn re_alias_with_prefix<'scope>(&self, alias: SourceAlias, prefix: &str) -> (rebound:
        Self::Rebound<'scope>) {
        (self.0.re_alias_with_prefix(alias, prefix), self.1.re_alias_with_prefix(alias, prefix), self.2.re_alias_with_prefix(alias, prefix), self.3.re_alias_with_prefix(alias, prefix), self.4.re_alias_with_prefix(alias, prefix), self.5.re_alias_with_prefix(alias, prefix), self.6.re_alias_with_prefix(alias, prefix))
    }
}

impl<T0: Duplicate, T1: Duplicate, T2: Duplicate, T3: Duplicate, T4: Duplicate, T5: Duplicate, T6: Duplicate> Duplicate for (T0, T1, T2, T3, T4, T5, T6) {
    fn duplicate(&self) -> (copy: Self) {
        (self.0.duplicate(), self.1.duplicate(), self.2.duplicate(), self.3.duplicate(), self.4.duplicate(), self.5.duplicate(), self.6.duplicate())
    }
}

impl<T0: ProjectionShape, T1: ProjectionShape, T2: ProjectionShape, T3: ProjectionShape, T4: ProjectionShape, T5: ProjectionShape, T6: ProjectionShape> ProjectionShape for (T0, T1, T2, T3, T4, T5, T6) {
    type Exprs<'scope> = (T0::Exprs<'scope>, T1::Exprs<'scope>, T2::Exprs<'scope>, T3::Exprs<'scope>, T4::Exprs<'scope>, T5::Exprs<'scope>, T6::Exprs<'scope>);

    type ReboundExprs<'scope> = (T0::ReboundExprs<'scope>, T1::ReboundExprs<'scope>, T2::ReboundExprs<'scope>, T3::ReboundExprs<'scope>, T4::ReboundExprs<'scope>, T5::ReboundExprs<'scope>, T6::ReboundExprs<'scope>);

    type Row = (T0::Row, T1::Row, T2::Row, T3::Row, T4::Row, T5::Row, T6::Row);

    open spec fn shape_exprs<'scope>(alias: SourceAlias) -> Self::Exprs<'scope> {
        (T0::shape_exprs(alias), T1::shape_exprs(alias), T2::shape_exprs(alias), T3::shape_exprs(alias), T4::shape_exprs(alias), T5::shape_exprs(alias), T6::shape_exprs(alias))
    }

    open spec fn shape_rebound<'scope>(alias: SourceAlias) -> Self::ReboundExprs<'scope> {
        (T0::shape_rebound(alias), T1::shape_rebound(alias), T2::shape_rebound(alias), T3::shape_rebound(alias), T4::shape_rebound(alias), T5::shape_rebound(alias), T6::shape_rebound(alias))
    }

    fn exprs<'scope>(alias: SourceAlias) -> (exprs: Self::Exprs<'scope>) {
        (T0::exprs(alias), T1::exprs(alias), T2::exprs(alias), T3::exprs(alias), T4::exprs(alias), T5::exprs(alias), T6::exprs(alias))
    }

    fn rebound_exprs<'scope>(alias: SourceAlias) -> (exprs: Self::ReboundExprs<'scope>) {
        (T0::rebound_exprs(alias), T1::rebound_exprs(alias), T2::rebound_exprs(alias), T3::rebound_exprs(alias), T4::rebound_exprs(alias), T5::rebound_exprs(alias), T6::rebound_exprs(alias))
    }
}

impl<T0: ProjectionParams, T1: ProjectionParams, T2: ProjectionParams, T3: ProjectionParams, T4: ProjectionParams, T5: ProjectionParams, T6: ProjectionParams> ProjectionParams for (T0, T1, T2, T3, T4, T5, T6) where
    T5::Params: HAppend<T6::Params>,
    T4::Params: HAppend<<T5::Params as HAppend<T6::Params>>::Output>,
    T3::Params: HAppend<<T4::Params as HAppend<<T5::Params as HAppend<T6::Params>>::Output>>::Output>,
    T2::Params: HAppend<<T3::Params as HAppend<<T4::Params as HAppend<<T5::Params as HAppend<T6::Params>>::Output>>::Output>>::Output>,
    T1::Params: HAppend<<T2::Params as HAppend<<T3::Params as HAppend<<T4::Params as HAppend<<T5::Params as HAppend<T6::Params>>::Output>>::Output>>::Output>>::Output>,
    T0::Params: HAppend<<T1::Params as HAppend<<T2::Params as HAppend<<T3::Params as HAppend<<T4::Params as HAppend<<T5::Params as HAppend<T6::Params>>::Output>>::Output>>::Output>>::Output>>::Output>,
 {
    type Params = <T0::Params as HAppend<<T1::Params as HAppend<<T2::Params as HAppend<<T3::Params as HAppend<<T4::Params as HAppend<<T5::Params as HAppend<T6::Params>>::Output>>::Output>>::Output>>::Output>>::Output>>::Output;
}

impl<T0: ProjectionClass, T1: ProjectionClass<Class = T0::Class>, T2: ProjectionClass<Class = T0::Class>, T3: ProjectionClass<Class = T0::Class>, T4: ProjectionClass<Class = T0::Class>, T5: ProjectionClass<Class = T0::Class>, T6: ProjectionClass<Class = T0::Class>> ProjectionClass for (T0, T1, T2, T3, T4, T5, T6) {
    type Class = T0::Class;
}

impl<T0: ReturnableProjection, T1: ReturnableProjection, T2: ReturnableProjection, T3: ReturnableProjection, T4: ReturnableProjection, T5: ReturnableProjection, T6: ReturnableProjection> ReturnableProjection for (T0, T1, T2, T3, T4, T5, T6) {

}

impl<T0: RenderProjectable<B>, T1: RenderProjectable<B>, T2: RenderProjectable<B>, T3: RenderProjectable<B>, T4: RenderProjectable<B>, T5: RenderProjectable<B>, T6: RenderProjectable<B>, B: Backend> RenderProjectable<B> for (T0, T1, T2, T3, T4, T5, T6) where
    T5::Params: HAppend<T6::Params>,
    T4::Params: HAppend<<T5::Params as HAppend<T6::Params>>::Output>,
    T3::Params: HAppend<<T4::Params as HAppend<<T5::Params as HAppend<T6::Params>>::Output>>::Output>,
    T2::Params: HAppend<<T3::Params as HAppend<<T4::Params as HAppend<<T5::Params as HAppend<T6::Params>>::Output>>::Output>>::Output>,
    T1::Params: HAppend<<T2::Params as HAppend<<T3::Params as HAppend<<T4::Params as HAppend<<T5::Params as HAppend<T6::Params>>::Output>>::Output>>::Output>>::Output>,
    T0::Params: HAppend<<T1::Params as HAppend<<T2::Params as HAppend<<T3::Params as HAppend<<T4::Params as HAppend<<T5::Params as HAppend<T6::Params>>::Output>>::Output>>::Output>>::Output>>::Output>,
 {
    open spec fn items(&self) -> List<ProjectionTree<Bound<B>>> {
        self.0.items().then_list(self.1.items().then_list(self.2.items().then_list(self.3.items().then_list(self.4.items().then_list(self.5.items().then_list(self.6.items()))))))
    }

    fn lower_projection(&self) -> (items: List<ProjectionTree<Bound<B>>>) {
        self.0.lower_projection().append(self.1.lower_projection().append(self.2.lower_projection().append(self.3.lower_projection().append(self.4.lower_projection().append(self.5.lower_projection().append(self.6.lower_projection()))))))
    }

    fn lower_projection_with_prefix(&self, prefix: &str) -> (items: List<
        ProjectionTree<Bound<B>>,
    >) {
        let items0 = self.0.lower_projection_with_prefix(prefix);
        let items1 = self.1.lower_projection_with_prefix(prefix);
        let items2 = self.2.lower_projection_with_prefix(prefix);
        let items3 = self.3.lower_projection_with_prefix(prefix);
        let items4 = self.4.lower_projection_with_prefix(prefix);
        let items5 = self.5.lower_projection_with_prefix(prefix);
        let items6 = self.6.lower_projection_with_prefix(prefix);
        proof {
            lemma_prefixed_parts(self.5.items(), self.6.items(), prefix@, items5, items6);
            lemma_prefixed_parts(self.4.items(), self.5.items().then_list(self.6.items()), prefix@, items4, items5.then_list(items6));
            lemma_prefixed_parts(self.3.items(), self.4.items().then_list(self.5.items().then_list(self.6.items())), prefix@, items3, items4.then_list(items5.then_list(items6)));
            lemma_prefixed_parts(self.2.items(), self.3.items().then_list(self.4.items().then_list(self.5.items().then_list(self.6.items()))), prefix@, items2, items3.then_list(items4.then_list(items5.then_list(items6))));
            lemma_prefixed_parts(self.1.items(), self.2.items().then_list(self.3.items().then_list(self.4.items().then_list(self.5.items().then_list(self.6.items())))), prefix@, items1, items2.then_list(items3.then_list(items4.then_list(items5.then_list(items6)))));
            lemma_prefixed_parts(self.0.items(), self.1.items().then_list(self.2.items().then_list(self.3.items().then_list(self.4.items().then_list(self.5.items().then_list(self.6.items()))))), prefix@, items0, items1.then_list(items2.then_list(items3.then_list(items4.then_list(items5.then_list(items6))))));
        }
        items0.append(items1.append(items2.append(items3.append(items4.append(items5.append(items6))))))
    }

    proof fn lemma_projection_params<D: Dialect>(&self, dialect: D, bare: bool, lead: Seq<char>) {
        let lead1 = if self.0.items() is Nil { lead } else { ", "@ };
        self.0.lemma_projection_params(dialect, bare, lead);
        lemma_projection_parts(dialect, bare, lead, self.0.items(), self.1.items().then_list(self.2.items().then_list(self.3.items().then_list(self.4.items().then_list(self.5.items().then_list(self.6.items()))))));
        let lead2 = if self.1.items() is Nil { lead1 } else { ", "@ };
        self.1.lemma_projection_params(dialect, bare, lead1);
        lemma_projection_parts(dialect, bare, lead1, self.1.items(), self.2.items().then_list(self.3.items().then_list(self.4.items().then_list(self.5.items().then_list(self.6.items())))));
        let lead3 = if self.2.items() is Nil { lead2 } else { ", "@ };
        self.2.lemma_projection_params(dialect, bare, lead2);
        lemma_projection_parts(dialect, bare, lead2, self.2.items(), self.3.items().then_list(self.4.items().then_list(self.5.items().then_list(self.6.items()))));
        let lead4 = if self.3.items() is Nil { lead3 } else { ", "@ };
        self.3.lemma_projection_params(dialect, bare, lead3);
        lemma_projection_parts(dialect, bare, lead3, self.3.items(), self.4.items().then_list(self.5.items().then_list(self.6.items())));
        let lead5 = if self.4.items() is Nil { lead4 } else { ", "@ };
        self.4.lemma_projection_params(dialect, bare, lead4);
        lemma_projection_parts(dialect, bare, lead4, self.4.items(), self.5.items().then_list(self.6.items()));
        let lead6 = if self.5.items() is Nil { lead5 } else { ", "@ };
        self.5.lemma_projection_params(dialect, bare, lead5);
        lemma_projection_parts(dialect, bare, lead5, self.5.items(), self.6.items());
        self.6.lemma_projection_params(dialect, bare, lead6);
        <T0::Params as HAppend<<T1::Params as HAppend<<T2::Params as HAppend<<T3::Params as HAppend<<T4::Params as HAppend<<T5::Params as HAppend<T6::Params>>::Output>>::Output>>::Output>>::Output>>::Output>>::lemma_append_width();
        <T1::Params as HAppend<<T2::Params as HAppend<<T3::Params as HAppend<<T4::Params as HAppend<<T5::Params as HAppend<T6::Params>>::Output>>::Output>>::Output>>::Output>>::lemma_append_width();
        <T2::Params as HAppend<<T3::Params as HAppend<<T4::Params as HAppend<<T5::Params as HAppend<T6::Params>>::Output>>::Output>>::Output>>::lemma_append_width();
        <T3::Params as HAppend<<T4::Params as HAppend<<T5::Params as HAppend<T6::Params>>::Output>>::Output>>::lemma_append_width();
        <T4::Params as HAppend<<T5::Params as HAppend<T6::Params>>::Output>>::lemma_append_width();
        <T5::Params as HAppend<T6::Params>>::lemma_append_width();
    }

    proof fn lemma_projection_plain(&self) {
        <T0::Params as HAppend<<T1::Params as HAppend<<T2::Params as HAppend<<T3::Params as HAppend<<T4::Params as HAppend<<T5::Params as HAppend<T6::Params>>::Output>>::Output>>::Output>>::Output>>::Output>>::lemma_append_width();
        <T1::Params as HAppend<<T2::Params as HAppend<<T3::Params as HAppend<<T4::Params as HAppend<<T5::Params as HAppend<T6::Params>>::Output>>::Output>>::Output>>::Output>>::lemma_append_width();
        <T2::Params as HAppend<<T3::Params as HAppend<<T4::Params as HAppend<<T5::Params as HAppend<T6::Params>>::Output>>::Output>>::Output>>::lemma_append_width();
        <T3::Params as HAppend<<T4::Params as HAppend<<T5::Params as HAppend<T6::Params>>::Output>>::Output>>::lemma_append_width();
        <T4::Params as HAppend<<T5::Params as HAppend<T6::Params>>::Output>>::lemma_append_width();
        <T5::Params as HAppend<T6::Params>>::lemma_append_width();
        self.0.lemma_projection_plain();
        self.1.lemma_projection_plain();
        self.2.lemma_projection_plain();
        self.3.lemma_projection_plain();
        self.4.lemma_projection_plain();
        self.5.lemma_projection_plain();
        self.6.lemma_projection_plain();
        lemma_plain_parts(self.5.items(), self.6.items());
        lemma_plain_parts(self.4.items(), self.5.items().then_list(self.6.items()));
        lemma_plain_parts(self.3.items(), self.4.items().then_list(self.5.items().then_list(self.6.items())));
        lemma_plain_parts(self.2.items(), self.3.items().then_list(self.4.items().then_list(self.5.items().then_list(self.6.items()))));
        lemma_plain_parts(self.1.items(), self.2.items().then_list(self.3.items().then_list(self.4.items().then_list(self.5.items().then_list(self.6.items())))));
        lemma_plain_parts(self.0.items(), self.1.items().then_list(self.2.items().then_list(self.3.items().then_list(self.4.items().then_list(self.5.items().then_list(self.6.items()))))));
    }
}

impl<T0: Projectable, T1: Projectable, T2: Projectable, T3: Projectable, T4: Projectable, T5: Projectable, T6: Projectable, T7: Projectable> Projectable for (T0, T1, T2, T3, T4, T5, T6, T7) {
    type Rebound<'scope> = (T0::Rebound<'scope>, T1::Rebound<'scope>, T2::Rebound<'scope>, T3::Rebound<'scope>, T4::Rebound<'scope>, T5::Rebound<'scope>, T6::Rebound<'scope>, T7::Rebound<'scope>);

    open spec fn rebound<'scope>(&self, alias: SourceAlias) -> Self::Rebound<'scope> {
        (self.0.rebound(alias), self.1.rebound(alias), self.2.rebound(alias), self.3.rebound(alias), self.4.rebound(alias), self.5.rebound(alias), self.6.rebound(alias), self.7.rebound(alias))
    }

    open spec fn rebinds_with_prefix<'scope>(
        &self,
        alias: SourceAlias,
        prefix: Seq<char>,
        rebound: Self::Rebound<'scope>,
    ) -> bool {
        &&& self.0.rebinds_with_prefix(alias, prefix, rebound.0)
        &&& self.1.rebinds_with_prefix(alias, prefix, rebound.1)
        &&& self.2.rebinds_with_prefix(alias, prefix, rebound.2)
        &&& self.3.rebinds_with_prefix(alias, prefix, rebound.3)
        &&& self.4.rebinds_with_prefix(alias, prefix, rebound.4)
        &&& self.5.rebinds_with_prefix(alias, prefix, rebound.5)
        &&& self.6.rebinds_with_prefix(alias, prefix, rebound.6)
        &&& self.7.rebinds_with_prefix(alias, prefix, rebound.7)
    }

    fn re_alias<'scope>(&self, alias: SourceAlias) -> (rebound: Self::Rebound<'scope>) {
        (self.0.re_alias(alias), self.1.re_alias(alias), self.2.re_alias(alias), self.3.re_alias(alias), self.4.re_alias(alias), self.5.re_alias(alias), self.6.re_alias(alias), self.7.re_alias(alias))
    }

    fn re_alias_with_prefix<'scope>(&self, alias: SourceAlias, prefix: &str) -> (rebound:
        Self::Rebound<'scope>) {
        (self.0.re_alias_with_prefix(alias, prefix), self.1.re_alias_with_prefix(alias, prefix), self.2.re_alias_with_prefix(alias, prefix), self.3.re_alias_with_prefix(alias, prefix), self.4.re_alias_with_prefix(alias, prefix), self.5.re_alias_with_prefix(alias, prefix), self.6.re_alias_with_prefix(alias, prefix), self.7.re_alias_with_prefix(alias, prefix))
    }
}

impl<T0: Duplicate, T1: Duplicate, T2: Duplicate, T3: Duplicate, T4: Duplicate, T5: Duplicate, T6: Duplicate, T7: Duplicate> Duplicate for (T0, T1, T2, T3, T4, T5, T6, T7) {
    fn duplicate(&self) -> (copy: Self) {
        (self.0.duplicate(), self.1.duplicate(), self.2.duplicate(), self.3.duplicate(), self.4.duplicate(), self.5.duplicate(), self.6.duplicate(), self.7.duplicate())
    }
}

impl<T0: ProjectionShape, T1: ProjectionShape, T2: ProjectionShape, T3: ProjectionShape, T4: ProjectionShape, T5: ProjectionShape, T6: ProjectionShape, T7: ProjectionShape> ProjectionShape for (T0, T1, T2, T3, T4, T5, T6, T7) {
    type Exprs<'scope> = (T0::Exprs<'scope>, T1::Exprs<'scope>, T2::Exprs<'scope>, T3::Exprs<'scope>, T4::Exprs<'scope>, T5::Exprs<'scope>, T6::Exprs<'scope>, T7::Exprs<'scope>);

    type ReboundExprs<'scope> = (T0::ReboundExprs<'scope>, T1::ReboundExprs<'scope>, T2::ReboundExprs<'scope>, T3::ReboundExprs<'scope>, T4::ReboundExprs<'scope>, T5::ReboundExprs<'scope>, T6::ReboundExprs<'scope>, T7::ReboundExprs<'scope>);

    type Row = (T0::Row, T1::Row, T2::Row, T3::Row, T4::Row, T5::Row, T6::Row, T7::Row);

    open spec fn shape_exprs<'scope>(alias: SourceAlias) -> Self::Exprs<'scope> {
        (T0::shape_exprs(alias), T1::shape_exprs(alias), T2::shape_exprs(alias), T3::shape_exprs(alias), T4::shape_exprs(alias), T5::shape_exprs(alias), T6::shape_exprs(alias), T7::shape_exprs(alias))
    }

    open spec fn shape_rebound<'scope>(alias: SourceAlias) -> Self::ReboundExprs<'scope> {
        (T0::shape_rebound(alias), T1::shape_rebound(alias), T2::shape_rebound(alias), T3::shape_rebound(alias), T4::shape_rebound(alias), T5::shape_rebound(alias), T6::shape_rebound(alias), T7::shape_rebound(alias))
    }

    fn exprs<'scope>(alias: SourceAlias) -> (exprs: Self::Exprs<'scope>) {
        (T0::exprs(alias), T1::exprs(alias), T2::exprs(alias), T3::exprs(alias), T4::exprs(alias), T5::exprs(alias), T6::exprs(alias), T7::exprs(alias))
    }

    fn rebound_exprs<'scope>(alias: SourceAlias) -> (exprs: Self::ReboundExprs<'scope>) {
        (T0::rebound_exprs(alias), T1::rebound_exprs(alias), T2::rebound_exprs(alias), T3::rebound_exprs(alias), T4::rebound_exprs(alias), T5::rebound_exprs(alias), T6::rebound_exprs(alias), T7::rebound_exprs(alias))
    }
}

impl<T0: ProjectionParams, T1: ProjectionParams, T2: ProjectionParams, T3: ProjectionParams, T4: ProjectionParams, T5: ProjectionParams, T6: ProjectionParams, T7: ProjectionParams> ProjectionParams for (T0, T1, T2, T3, T4, T5, T6, T7) where
    T6::Params: HAppend<T7::Params>,
    T5::Params: HAppend<<T6::Params as HAppend<T7::Params>>::Output>,
    T4::Params: HAppend<<T5::Params as HAppend<<T6::Params as HAppend<T7::Params>>::Output>>::Output>,
    T3::Params: HAppend<<T4::Params as HAppend<<T5::Params as HAppend<<T6::Params as HAppend<T7::Params>>::Output>>::Output>>::Output>,
    T2::Params: HAppend<<T3::Params as HAppend<<T4::Params as HAppend<<T5::Params as HAppend<<T6::Params as HAppend<T7::Params>>::Output>>::Output>>::Output>>::Output>,
    T1::Params: HAppend<<T2::Params as HAppend<<T3::Params as HAppend<<T4::Params as HAppend<<T5::Params as HAppend<<T6::Params as HAppend<T7::Params>>::Output>>::Output>>::Output>>::Output>>::Output>,
    T0::Params: HAppend<<T1::Params as HAppend<<T2::Params as HAppend<<T3::Params as HAppend<<T4::Params as HAppend<<T5::Params as HAppend<<T6::Params as HAppend<T7::Params>>::Output>>::Output>>::Output>>::Output>>::Output>>::Output>,
 {
    type Params = <T0::Params as HAppend<<T1::Params as HAppend<<T2::Params as HAppend<<T3::Params as HAppend<<T4::Params as HAppend<<T5::Params as HAppend<<T6::Params as HAppend<T7::Params>>::Output>>::Output>>::Output>>::Output>>::Output>>::Output>>::Output;
}

impl<T0: ProjectionClass, T1: ProjectionClass<Class = T0::Class>, T2: ProjectionClass<Class = T0::Class>, T3: ProjectionClass<Class = T0::Class>, T4: ProjectionClass<Class = T0::Class>, T5: ProjectionClass<Class = T0::Class>, T6: ProjectionClass<Class = T0::Class>, T7: ProjectionClass<Class = T0::Class>> ProjectionClass for (T0, T1, T2, T3, T4, T5, T6, T7) {
    type Class = T0::Class;
}

impl<T0: ReturnableProjection, T1: ReturnableProjection, T2: ReturnableProjection, T3: ReturnableProjection, T4: ReturnableProjection, T5: ReturnableProjection, T6: ReturnableProjection, T7: ReturnableProjection> ReturnableProjection for (T0, T1, T2, T3, T4, T5, T6, T7) {

}

impl<T0: RenderProjectable<B>, T1: RenderProjectable<B>, T2: RenderProjectable<B>, T3: RenderProjectable<B>, T4: RenderProjectable<B>, T5: RenderProjectable<B>, T6: RenderProjectable<B>, T7: RenderProjectable<B>, B: Backend> RenderProjectable<B> for (T0, T1, T2, T3, T4, T5, T6, T7) where
    T6::Params: HAppend<T7::Params>,
    T5::Params: HAppend<<T6::Params as HAppend<T7::Params>>::Output>,
    T4::Params: HAppend<<T5::Params as HAppend<<T6::Params as HAppend<T7::Params>>::Output>>::Output>,
    T3::Params: HAppend<<T4::Params as HAppend<<T5::Params as HAppend<<T6::Params as HAppend<T7::Params>>::Output>>::Output>>::Output>,
    T2::Params: HAppend<<T3::Params as HAppend<<T4::Params as HAppend<<T5::Params as HAppend<<T6::Params as HAppend<T7::Params>>::Output>>::Output>>::Output>>::Output>,
    T1::Params: HAppend<<T2::Params as HAppend<<T3::Params as HAppend<<T4::Params as HAppend<<T5::Params as HAppend<<T6::Params as HAppend<T7::Params>>::Output>>::Output>>::Output>>::Output>>::Output>,
    T0::Params: HAppend<<T1::Params as HAppend<<T2::Params as HAppend<<T3::Params as HAppend<<T4::Params as HAppend<<T5::Params as HAppend<<T6::Params as HAppend<T7::Params>>::Output>>::Output>>::Output>>::Output>>::Output>>::Output>,
 {
    open spec fn items(&self) -> List<ProjectionTree<Bound<B>>> {
        self.0.items().then_list(self.1.items().then_list(self.2.items().then_list(self.3.items().then_list(self.4.items().then_list(self.5.items().then_list(self.6.items().then_list(self.7.items())))))))
    }

    fn lower_projection(&self) -> (items: List<ProjectionTree<Bound<B>>>) {
        self.0.lower_projection().append(self.1.lower_projection().append(self.2.lower_projection().append(self.3.lower_projection().append(self.4.lower_projection().append(self.5.lower_projection().append(self.6.lower_projection().append(self.7.lower_projection())))))))
    }

    fn lower_projection_with_prefix(&self, prefix: &str) -> (items: List<
        ProjectionTree<Bound<B>>,
    >) {
        let items0 = self.0.lower_projection_with_prefix(prefix);
        let items1 = self.1.lower_projection_with_prefix(prefix);
        let items2 = self.2.lower_projection_with_prefix(prefix);
        let items3 = self.3.lower_projection_with_prefix(prefix);
        let items4 = self.4.lower_projection_with_prefix(prefix);
        let items5 = self.5.lower_projection_with_prefix(prefix);
        let items6 = self.6.lower_projection_with_prefix(prefix);
        let items7 = self.7.lower_projection_with_prefix(prefix);
        proof {
            lemma_prefixed_parts(self.6.items(), self.7.items(), prefix@, items6, items7);
            lemma_prefixed_parts(self.5.items(), self.6.items().then_list(self.7.items()), prefix@, items5, items6.then_list(items7));
            lemma_prefixed_parts(self.4.items(), self.5.items().then_list(self.6.items().then_list(self.7.items())), prefix@, items4, items5.then_list(items6.then_list(items7)));
            lemma_prefixed_parts(self.3.items(), self.4.items().then_list(self.5.items().then_list(self.6.items().then_list(self.7.items()))), prefix@, items3, items4.then_list(items5.then_list(items6.then_list(items7))));
            lemma_prefixed_parts(self.2.items(), self.3.items().then_list(self.4.items().then_list(self.5.items().then_list(self.6.items().then_list(self.7.items())))), prefix@, items2, items3.then_list(items4.then_list(items5.then_list(items6.then_list(items7)))));
            lemma_prefixed_parts(self.1.items(), self.2.items().then_list(self.3.items().then_list(self.4.items().then_list(self.5.items().then_list(self.6.items().then_list(self.7.items()))))), prefix@, items1, items2.then_list(items3.then_list(items4.then_list(items5.then_list(items6.then_list(items7))))));
            lemma_prefixed_parts(self.0.items(), self.1.items().then_list(self.2.items().then_list(self.3.items().then_list(self.4.items().then_list(self.5.items().then_list(self.6.items().then_list(self.7.items())))))), prefix@, items0, items1.then_list(items2.then_list(items3.then_list(items4.then_list(items5.then_list(items6.then_list(items7)))))));
        }
        items0.append(items1.append(items2.append(items3.append(items4.append(items5.append(items6.append(items7)))))))
    }

    proof fn lemma_projection_params<D: Dialect>(&self, dialect: D, bare: bool, lead: Seq<char>) {
        let lead1 = if self.0.items() is Nil { lead } else { ", "@ };
        self.0.lemma_projection_params(dialect, bare, lead);
        lemma_projection_parts(dialect, bare, lead, self.0.items(), self.1.items().then_list(self.2.items().then_list(self.3.items().then_list(self.4.items().then_list(self.5.items().then_list(self.6.items().then_list(self.7.items())))))));
        let lead2 = if self.1.items() is Nil { lead1 } else { ", "@ };
        self.1.lemma_projection_params(dialect, bare, lead1);
        lemma_projection_parts(dialect, bare, lead1, self.1.items(), self.2.items().then_list(self.3.items().then_list(self.4.items().then_list(self.5.items().then_list(self.6.items().then_list(self.7.items()))))));
        let lead3 = if self.2.items() is Nil { lead2 } else { ", "@ };
        self.2.lemma_projection_params(dialect, bare, lead2);
        lemma_projection_parts(dialect, bare, lead2, self.2.items(), self.3.items().then_list(self.4.items().then_list(self.5.items().then_list(self.6.items().then_list(self.7.items())))));
        let lead4 = if self.3.items() is Nil { lead3 } else { ", "@ };
        self.3.lemma_projection_params(dialect, bare, lead3);
        lemma_projection_parts(dialect, bare, lead3, self.3.items(), self.4.items().then_list(self.5.items().then_list(self.6.items().then_list(self.7.items()))));
        let lead5 = if self.4.items() is Nil { lead4 } else { ", "@ };
        self.4.lemma_projection_params(dialect, bare, lead4);
        lemma_projection_parts(dialect, bare, lead4, self.4.items(), self.5.items().then_list(self.6.items().then_list(self.7.items())));
        let lead6 = if self.5.items() is Nil { lead5 } else { ", "@ };
        self.5.lemma_projection_params(dialect, bare, lead5);
        lemma_projection_parts(dialect, bare, lead5, self.5.items(), self.6.items().then_list(self.7.items()));
        let lead7 = if self.6.items() is Nil { lead6 } else { ", "@ };
        self.6.lemma_projection_params(dialect, bare, lead6);
        lemma_projection_parts(dialect, bare, lead6, self.6.items(), self.7.items());
        self.7.lemma_projection_params(dialect, bare, lead7);
        <T0::Params as HAppend<<T1::Params as HAppend<<T2::Params as HAppend<<T3::Params as HAppend<<T4::Params as HAppend<<T5::Params as HAppend<<T6::Params as HAppend<T7::Params>>::Output>>::Output>>::Output>>::Output>>::Output>>::Output>>::lemma_append_width();
        <T1::Params as HAppend<<T2::Params as HAppend<<T3::Params as HAppend<<T4::Params as HAppend<<T5::Params as HAppend<<T6::Params as HAppend<T7::Params>>::Output>>::Output>>::Output>>::Output>>::Output>>::lemma_append_width();
        <T2::Params as HAppend<<T3::Params as HAppend<<T4::Params as HAppend<<T5::Params as HAppend<<T6::Params as HAppend<T7::Params>>::Output>>::Output>>::Output>>::Output>>::lemma_append_width();
        <T3::Params as HAppend<<T4::Params as HAppend<<T5::Params as HAppend<<T6::Params as HAppend<T7::Params>>::Output>>::Output>>::Output>>::lemma_append_width();
        <T4::Params as HAppend<<T5::Params as HAppend<<T6::Params as HAppend<T7::Params>>::Output>>::Output>>::lemma_append_width();
        <T5::Params as HAppend<<T6::Params as HAppend<T7::Params>>::Output>>::lemma_append_width();
        <T6::Params as HAppend<T7::Params>>::lemma_append_width();
    }

    proof fn lemma_projection_plain(&self) {
        <T0::Params as HAppend<<T1::Params as HAppend<<T2::Params as HAppend<<T3::Params as HAppend<<T4::Params as HAppend<<T5::Params as HAppend<<T6::Params as HAppend<T7::Params>>::Output>>::Output>>::Output>>::Output>>::Output>>::Output>>::lemma_append_width();
        <T1::Params as HAppend<<T2::Params as HAppend<<T3::Params as HAppend<<T4::Params as HAppend<<T5::Params as HAppend<<T6::Params as HAppend<T7::Params>>::Output>>::Output>>::Output>>::Output>>::Output>>::lemma_append_width();
        <T2::Params as HAppend<<T3::Params as HAppend<<T4::Params as HAppend<<T5::Params as HAppend<<T6::Params as HAppend<T7::Params>>::Output>>::Output>>::Output>>::Output>>::lemma_append_width();
        <T3::Params as HAppend<<T4::Params as HAppend<<T5::Params as HAppend<<T6::Params as HAppend<T7::Params>>::Output>>::Output>>::Output>>::lemma_append_width();
        <T4::Params as HAppend<<T5::Params as HAppend<<T6::Params as HAppend<T7::Params>>::Output>>::Output>>::lemma_append_width();
        <T5::Params as HAppend<<T6::Params as HAppend<T7::Params>>::Output>>::lemma_append_width();
        <T6::Params as HAppend<T7::Params>>::lemma_append_width();
        self.0.lemma_projection_plain();
        self.1.lemma_projection_plain();
        self.2.lemma_projection_plain();
        self.3.lemma_projection_plain();
        self.4.lemma_projection_plain();
        self.5.lemma_projection_plain();
        self.6.lemma_projection_plain();
        self.7.lemma_projection_plain();
        lemma_plain_parts(self.6.items(), self.7.items());
        lemma_plain_parts(self.5.items(), self.6.items().then_list(self.7.items()));
        lemma_plain_parts(self.4.items(), self.5.items().then_list(self.6.items().then_list(self.7.items())));
        lemma_plain_parts(self.3.items(), self.4.items().then_list(self.5.items().then_list(self.6.items().then_list(self.7.items()))));
        lemma_plain_parts(self.2.items(), self.3.items().then_list(self.4.items().then_list(self.5.items().then_list(self.6.items().then_list(self.7.items())))));
        lemma_plain_parts(self.1.items(), self.2.items().then_list(self.3.items().then_list(self.4.items().then_list(self.5.items().then_list(self.6.items().then_list(self.7.items()))))));
        lemma_plain_parts(self.0.items(), self.1.items().then_list(self.2.items().then_list(self.3.items().then_list(self.4.items().then_list(self.5.items().then_list(self.6.items().then_list(self.7.items())))))));
    }
}

} // verus!
