//! Which expressions and predicates may stand where: classification of nodes by the columns and
//! aggregates in them, and of queries by their grouping and ordering.
use crate::expr::ast::{
    AggregateExprAst, BinaryExprAst, ColumnExprAst, ExprAst, LiteralExprAst, ParamExprAst,
    ScalarSubqueryExprAst,
};
use crate::expr::case::{CaseExprAst, CaseNil, CaseWhen, ElseValue, NoElse};
use crate::expr::kind::ExprKind;
use crate::expr::predicate::{
    AndPredicateAst, BetweenPredicateAst, BoolTestPredicateAst, ComparePredicateAst,
    ExistsPredicateAst, InPredicateAst, InSubqueryPredicateAst, LikePredicateAst, NotPredicateAst,
    NullCheckPredicateAst, OrPredicateAst,
};
use crate::expr::window::WindowExprAst;
use crate::expr::{ColumnRef, Expr};
use vstd::prelude::*;

verus! {

/// Marker for expression nodes that contain no aggregate.
pub trait NonAggregateAst {

}

impl<K> NonAggregateAst for ColumnExprAst<K> {

}

impl<K: ExprKind> NonAggregateAst for LiteralExprAst<K> {

}

impl<K> NonAggregateAst for ParamExprAst<K> {

}

impl<Left: NonAggregateAst, Right: NonAggregateAst> NonAggregateAst for BinaryExprAst<
    Left,
    Right,
> {

}

impl<Sub> NonAggregateAst for ScalarSubqueryExprAst<Sub> {

}

impl NonAggregateAst for NoElse {

}

impl<Ast: NonAggregateAst> NonAggregateAst for ElseValue<Ast> {

}

/// Marker for arms whose conditions and values contain no aggregate.
pub trait CaseArmsNonAggregate {

}

impl CaseArmsNonAggregate for CaseNil {

}

impl<
    PredAst: NonAggregatePredicate,
    ValAst: NonAggregateAst,
    Rest: CaseArmsNonAggregate,
> CaseArmsNonAggregate for CaseWhen<PredAst, ValAst, Rest> {

}

impl<Arms: CaseArmsNonAggregate, Else: NonAggregateAst> NonAggregateAst for CaseExprAst<
    Arms,
    Else,
> {

}

/// Marker for predicate nodes that contain no aggregate: only those may filter rows.
pub trait NonAggregatePredicate {

}

impl<Left: NonAggregateAst, Right: NonAggregateAst> NonAggregatePredicate for ComparePredicateAst<
    Left,
    Right,
> {

}

impl<Left: NonAggregateAst, Right: NonAggregateAst> NonAggregatePredicate for LikePredicateAst<
    Left,
    Right,
> {

}

impl<Operand: NonAggregateAst, V> NonAggregatePredicate for InPredicateAst<Operand, V> {

}

impl<Operand: NonAggregateAst, Lo: NonAggregateAst, Hi: NonAggregateAst> NonAggregatePredicate
    for BetweenPredicateAst<Operand, Lo, Hi> {

}

impl<Operand: NonAggregateAst> NonAggregatePredicate for NullCheckPredicateAst<Operand> {

}

impl<Operand: NonAggregateAst> NonAggregatePredicate for BoolTestPredicateAst<Operand> {

}

impl<Left: NonAggregatePredicate, Right: NonAggregatePredicate> NonAggregatePredicate
    for AndPredicateAst<Left, Right> {

}

impl<Left: NonAggregatePredicate, Right: NonAggregatePredicate> NonAggregatePredicate
    for OrPredicateAst<Left, Right> {

}

impl<P: NonAggregatePredicate> NonAggregatePredicate for NotPredicateAst<P> {

}

impl<Operand: NonAggregateAst, Sub> NonAggregatePredicate for InSubqueryPredicateAst<
    Operand,
    Sub,
> {

}

impl<Sub> NonAggregatePredicate for ExistsPredicateAst<Sub> {

}

/// Marker for expression nodes that are not window functions.
pub trait NonWindowAst {

}

impl<K> NonWindowAst for ColumnExprAst<K> {

}

impl<K: ExprKind> NonWindowAst for LiteralExprAst<K> {

}

impl<K> NonWindowAst for ParamExprAst<K> {

}

impl<Operand, const DISTINCT: bool> NonWindowAst for AggregateExprAst<Operand, DISTINCT> {

}

impl<Sub> NonWindowAst for ScalarSubqueryExprAst<Sub> {

}

impl<Left: NonWindowAst, Right: NonWindowAst> NonWindowAst for BinaryExprAst<Left, Right> {

}

/// Marker for projections that may stand in `RETURNING`: they contain no window function.
pub trait ReturnableProjection {

}

impl<'scope, K, Ast: ExprAst + NonWindowAst> ReturnableProjection for Expr<'scope, K, Ast> {

}

impl<'scope, K> ReturnableProjection for ColumnRef<'scope, K> {

}

/// Whether an expression refers to a column outside any aggregate.
pub trait ColumnClass {
    spec fn has_bare_column() -> bool;
}

/// There is no column outside an aggregate.
pub enum ColumnFree {
    Marker,
}

/// There is a column outside any aggregate.
pub enum HasBareColumn {
    Marker,
}

impl ColumnClass for ColumnFree {
    open spec fn has_bare_column() -> bool {
        false
    }
}

impl ColumnClass for HasBareColumn {
    open spec fn has_bare_column() -> bool {
        true
    }
}

/// Combines two column classes: a bare column on either side makes one.
pub trait CombineColumns<Rhs: ColumnClass>: ColumnClass {
    type Output: ColumnClass;

    /// The combination has a bare column exactly where one of both has.
    proof fn lemma_combined_columns()
        ensures
            <Self::Output as ColumnClass>::has_bare_column() == (Self::has_bare_column()
                || Rhs::has_bare_column()),
    ;
}

impl CombineColumns<ColumnFree> for ColumnFree {
    type Output = ColumnFree;

    proof fn lemma_combined_columns() {
    }
}

impl CombineColumns<HasBareColumn> for ColumnFree {
    type Output = HasBareColumn;

    proof fn lemma_combined_columns() {
    }
}

impl CombineColumns<ColumnFree> for HasBareColumn {
    type Output = HasBareColumn;

    proof fn lemma_combined_columns() {
    }
}

impl CombineColumns<HasBareColumn> for HasBareColumn {
    type Output = HasBareColumn;

    proof fn lemma_combined_columns() {
    }
}

/// Classifies an expression node by the columns in it.
pub trait ExprColumns {
    type Columns: ColumnClass;
}

impl<K> ExprColumns for ColumnExprAst<K> {
    type Columns = HasBareColumn;
}

impl<Operand, const DISTINCT: bool> ExprColumns for AggregateExprAst<Operand, DISTINCT> {
    type Columns = ColumnFree;
}

impl<K: ExprKind> ExprColumns for LiteralExprAst<K> {
    type Columns = ColumnFree;
}

impl<K> ExprColumns for ParamExprAst<K> {
    type Columns = ColumnFree;
}

impl<Left: ExprColumns, Right: ExprColumns> ExprColumns for BinaryExprAst<Left, Right> where
    Left::Columns: CombineColumns<Right::Columns>,
 {
    type Columns = <Left::Columns as CombineColumns<Right::Columns>>::Output;
}

impl ExprColumns for NoElse {
    type Columns = ColumnFree;
}

impl<Ast: ExprColumns> ExprColumns for ElseValue<Ast> {
    type Columns = Ast::Columns;
}

/// Classifies arms by the columns in their conditions and values.
pub trait CaseArmsColumns {
    type Columns: ColumnClass;
}

impl CaseArmsColumns for CaseNil {
    type Columns = ColumnFree;
}

impl<PredAst: PredicateColumns, ValAst: ExprColumns, Rest: CaseArmsColumns> CaseArmsColumns
    for CaseWhen<PredAst, ValAst, Rest> where
    ValAst::Columns: CombineColumns<Rest::Columns>,
    PredAst::Columns: CombineColumns<<ValAst::Columns as CombineColumns<Rest::Columns>>::Output>,
 {
    type Columns = <PredAst::Columns as CombineColumns<
        <ValAst::Columns as CombineColumns<Rest::Columns>>::Output,
    >>::Output;
}

impl<Arms: CaseArmsColumns, Else: ExprColumns> ExprColumns for CaseExprAst<Arms, Else> where
    Arms::Columns: CombineColumns<Else::Columns>,
 {
    type Columns = <Arms::Columns as CombineColumns<Else::Columns>>::Output;
}

/// Classifies a predicate node by the columns in it. A subquery is a scope of its own.
pub trait PredicateColumns {
    type Columns: ColumnClass;
}

impl<Left: ExprColumns, Right: ExprColumns> PredicateColumns for ComparePredicateAst<Left, Right> where
    Left::Columns: CombineColumns<Right::Columns>,
 {
    type Columns = <Left::Columns as CombineColumns<Right::Columns>>::Output;
}

impl<Left: ExprColumns, Right: ExprColumns> PredicateColumns for LikePredicateAst<Left, Right> where
    Left::Columns: CombineColumns<Right::Columns>,
 {
    type Columns = <Left::Columns as CombineColumns<Right::Columns>>::Output;
}

impl<Left: PredicateColumns, Right: PredicateColumns> PredicateColumns for AndPredicateAst<
    Left,
    Right,
> where Left::Columns: CombineColumns<Right::Columns> {
    type Columns = <Left::Columns as CombineColumns<Right::Columns>>::Output;
}

impl<Left: PredicateColumns, Right: PredicateColumns> PredicateColumns for OrPredicateAst<
    Left,
    Right,
> where Left::Columns: CombineColumns<Right::Columns> {
    type Columns = <Left::Columns as CombineColumns<Right::Columns>>::Output;
}

impl<Operand: ExprColumns, Lo: ExprColumns, Hi: ExprColumns> PredicateColumns
    for BetweenPredicateAst<Operand, Lo, Hi> where
    Operand::Columns: CombineColumns<Lo::Columns>,
    <Operand::Columns as CombineColumns<Lo::Columns>>::Output: CombineColumns<Hi::Columns>,
 {
    type Columns = <<Operand::Columns as CombineColumns<Lo::Columns>>::Output as CombineColumns<
        Hi::Columns,
    >>::Output;
}

impl<Operand: ExprColumns, V> PredicateColumns for InPredicateAst<Operand, V> {
    type Columns = Operand::Columns;
}

impl<Operand: ExprColumns> PredicateColumns for NullCheckPredicateAst<Operand> {
    type Columns = Operand::Columns;
}

impl<Operand: ExprColumns> PredicateColumns for BoolTestPredicateAst<Operand> {
    type Columns = Operand::Columns;
}

impl<P: PredicateColumns> PredicateColumns for NotPredicateAst<P> {
    type Columns = P::Columns;
}

impl<Operand: ExprColumns, Sub> PredicateColumns for InSubqueryPredicateAst<Operand, Sub> {
    type Columns = Operand::Columns;
}

impl<Sub> PredicateColumns for ExistsPredicateAst<Sub> {
    type Columns = ColumnFree;
}

/// What an expression is made of, as far as grouping goes.
#[derive(Clone, Copy, Debug, PartialEq, Eq, Structural)]
pub enum Term {
    /// Neither a column nor an aggregate.
    Constant,
    /// A column outside any aggregate.
    Column,
    /// An aggregate.
    Aggregate,
}

/// What two terms make together: nothing valid, where a column meets an aggregate.
pub open spec fn combined_term(a: Term, b: Term) -> Option<Term> {
    match (a, b) {
        (Term::Constant, other) => Some(other),
        (other, Term::Constant) => Some(other),
        (Term::Column, Term::Column) => Some(Term::Column),
        (Term::Aggregate, Term::Aggregate) => Some(Term::Aggregate),
        _ => None,
    }
}

/// The term of an expression.
pub trait TermClass {
    spec fn term() -> Term;
}

/// The expression is a constant or a parameter.
pub enum ConstantTerm {
    Marker,
}

impl TermClass for ConstantTerm {
    open spec fn term() -> Term {
        Term::Constant
    }
}

/// The expression refers to a column outside any aggregate.
pub enum ColumnTerm {
    Marker,
}

impl TermClass for ColumnTerm {
    open spec fn term() -> Term {
        Term::Column
    }
}

/// The expression is an aggregate.
pub enum AggregateTerm {
    Marker,
}

impl TermClass for AggregateTerm {
    open spec fn term() -> Term {
        Term::Aggregate
    }
}

/// Classifies an expression node by its term.
pub trait AstProjectionClass {
    type Class: TermClass;
}

impl<Operand, const DISTINCT: bool> AstProjectionClass for AggregateExprAst<Operand, DISTINCT> {
    type Class = AggregateTerm;
}

impl<K> AstProjectionClass for ColumnExprAst<K> {
    type Class = ColumnTerm;
}

impl<K: ExprKind> AstProjectionClass for LiteralExprAst<K> {
    type Class = ConstantTerm;
}

impl<K> AstProjectionClass for ParamExprAst<K> {
    type Class = ConstantTerm;
}

impl<Sub> AstProjectionClass for ScalarSubqueryExprAst<Sub> {
    type Class = ColumnTerm;
}

impl<Operand, Parts, Ords> AstProjectionClass for WindowExprAst<Operand, Parts, Ords> {
    type Class = ColumnTerm;
}

impl AstProjectionClass for NoElse {
    type Class = ConstantTerm;
}

impl<Ast: AstProjectionClass> AstProjectionClass for ElseValue<Ast> {
    type Class = Ast::Class;
}

impl<Left: AstProjectionClass, Right: AstProjectionClass> AstProjectionClass for BinaryExprAst<
    Left,
    Right,
> where Left::Class: CombineTerm<Right::Class> {
    type Class = <Left::Class as CombineTerm<Right::Class>>::Output;
}

impl<Arms: CaseArmsTerm, Else: AstProjectionClass> AstProjectionClass for CaseExprAst<
    Arms,
    Else,
> where Arms::Term: CombineTerm<Else::Class> {
    type Class = <Arms::Term as CombineTerm<Else::Class>>::Output;
}

/// Combines two terms that go together. An aggregate and a bare column do not.
pub trait CombineTerm<Rhs: TermClass>: TermClass {
    type Output: TermClass;

    /// The combination is valid, and this one.
    proof fn lemma_combined_term()
        ensures
            combined_term(Self::term(), Rhs::term()) == Some(
                <Self::Output as TermClass>::term(),
            ),
    ;
}

impl CombineTerm<ConstantTerm> for ConstantTerm {
    type Output = ConstantTerm;

    proof fn lemma_combined_term() {
    }
}

impl CombineTerm<ColumnTerm> for ConstantTerm {
    type Output = ColumnTerm;

    proof fn lemma_combined_term() {
    }
}

impl CombineTerm<AggregateTerm> for ConstantTerm {
    type Output = AggregateTerm;

    proof fn lemma_combined_term() {
    }
}

impl CombineTerm<ConstantTerm> for ColumnTerm {
    type Output = ColumnTerm;

    proof fn lemma_combined_term() {
    }
}

impl CombineTerm<ColumnTerm> for ColumnTerm {
    type Output = ColumnTerm;

    proof fn lemma_combined_term() {
    }
}

impl CombineTerm<ConstantTerm> for AggregateTerm {
    type Output = AggregateTerm;

    proof fn lemma_combined_term() {
    }
}

impl CombineTerm<AggregateTerm> for AggregateTerm {
    type Output = AggregateTerm;

    proof fn lemma_combined_term() {
    }
}

/// The term of the arms of a `CASE`, values and conditions taken together.
pub trait CaseArmsTerm {
    type Term: TermClass;
}

impl CaseArmsTerm for CaseNil {
    type Term = ConstantTerm;
}

impl<PredAst: PredicateTerm, ValAst: AstProjectionClass, Rest: CaseArmsTerm> CaseArmsTerm
    for CaseWhen<PredAst, ValAst, Rest> where
    ValAst::Class: CombineTerm<PredAst::Term>,
    <ValAst::Class as CombineTerm<PredAst::Term>>::Output: CombineTerm<Rest::Term>,
 {
    type Term = <<ValAst::Class as CombineTerm<PredAst::Term>>::Output as CombineTerm<
        Rest::Term,
    >>::Output;
}

/// The term of a predicate node. A subquery is a scope of its own.
pub trait PredicateTerm {
    type Term: TermClass;
}

impl<Left: AstProjectionClass, Right: AstProjectionClass> PredicateTerm for ComparePredicateAst<
    Left,
    Right,
> where Left::Class: CombineTerm<Right::Class> {
    type Term = <Left::Class as CombineTerm<Right::Class>>::Output;
}

impl<Left: AstProjectionClass, Right: AstProjectionClass> PredicateTerm for LikePredicateAst<
    Left,
    Right,
> where Left::Class: CombineTerm<Right::Class> {
    type Term = <Left::Class as CombineTerm<Right::Class>>::Output;
}

impl<Left: PredicateTerm, Right: PredicateTerm> PredicateTerm for AndPredicateAst<Left, Right> where
    Left::Term: CombineTerm<Right::Term>,
 {
    type Term = <Left::Term as CombineTerm<Right::Term>>::Output;
}

impl<Left: PredicateTerm, Right: PredicateTerm> PredicateTerm for OrPredicateAst<Left, Right> where
    Left::Term: CombineTerm<Right::Term>,
 {
    type Term = <Left::Term as CombineTerm<Right::Term>>::Output;
}

impl<Operand: AstProjectionClass, Lo: AstProjectionClass, Hi: AstProjectionClass> PredicateTerm
    for BetweenPredicateAst<Operand, Lo, Hi> where
    Operand::Class: CombineTerm<Lo::Class>,
    <Operand::Class as CombineTerm<Lo::Class>>::Output: CombineTerm<Hi::Class>,
 {
    type Term = <<Operand::Class as CombineTerm<Lo::Class>>::Output as CombineTerm<
        Hi::Class,
    >>::Output;
}

impl<Operand: AstProjectionClass, V> PredicateTerm for InPredicateAst<Operand, V> {
    type Term = Operand::Class;
}

impl<Operand: AstProjectionClass> PredicateTerm for NullCheckPredicateAst<Operand> {
    type Term = Operand::Class;
}

impl<Operand: AstProjectionClass> PredicateTerm for BoolTestPredicateAst<Operand> {
    type Term = Operand::Class;
}

impl<P: PredicateTerm> PredicateTerm for NotPredicateAst<P> {
    type Term = P::Term;
}

impl<Operand: AstProjectionClass, Sub> PredicateTerm for InSubqueryPredicateAst<Operand, Sub> {
    type Term = Operand::Class;
}

impl<Sub> PredicateTerm for ExistsPredicateAst<Sub> {
    type Term = ConstantTerm;
}

/// The projection is made of plain values.
pub enum ScalarProjection {
    Marker,
}

/// The projection is made of aggregates.
pub enum AggregateProjection {
    Marker,
}

/// Whether a projection is made of aggregates.
pub trait ProjectionKind {
    spec fn is_aggregate() -> bool;
}

impl ProjectionKind for ScalarProjection {
    open spec fn is_aggregate() -> bool {
        false
    }
}

impl ProjectionKind for AggregateProjection {
    open spec fn is_aggregate() -> bool {
        true
    }
}

/// Classifies a projection: without `GROUP BY`, all its elements are of one class.
pub trait ProjectionClass {
    type Class: ProjectionKind;
}

/// The projection class of a term: constants and columns are plain values.
pub trait TermProjectionClass: TermClass {
    type Class: ProjectionKind;

    /// The class is that of an aggregate exactly for an aggregate.
    proof fn lemma_class_of_term()
        ensures
            <Self::Class as ProjectionKind>::is_aggregate() == (Self::term() == Term::Aggregate),
    ;
}

impl TermProjectionClass for ConstantTerm {
    type Class = ScalarProjection;

    proof fn lemma_class_of_term() {
    }
}

impl TermProjectionClass for ColumnTerm {
    type Class = ScalarProjection;

    proof fn lemma_class_of_term() {
    }
}

impl TermProjectionClass for AggregateTerm {
    type Class = AggregateProjection;

    proof fn lemma_class_of_term() {
    }
}

impl<'scope, K, Ast: ExprAst + AstProjectionClass> ProjectionClass for Expr<'scope, K, Ast> where
    Ast::Class: TermProjectionClass,
 {
    type Class = <Ast::Class as TermProjectionClass>::Class;
}

impl<'scope, K> ProjectionClass for ColumnRef<'scope, K> {
    type Class = ScalarProjection;
}

/// Classifies a whole projection by the columns in it.
pub trait ProjectionColumns {
    type Columns: ColumnClass;
}

impl<'scope, K, Ast: ExprAst + ExprColumns> ProjectionColumns for Expr<'scope, K, Ast> {
    type Columns = Ast::Columns;
}

impl<'scope, K> ProjectionColumns for ColumnRef<'scope, K> {
    type Columns = HasBareColumn;
}

/// What a query is ordered by.
pub struct OrderTerms {
    pub by_column: bool,
    pub by_aggregate: bool,
}

/// What a query is ordered by, with one more term.
pub open spec fn extended_order(order: OrderTerms, term: Term) -> OrderTerms {
    match term {
        Term::Constant => order,
        Term::Column => OrderTerms { by_column: true, ..order },
        Term::Aggregate => OrderTerms { by_aggregate: true, ..order },
    }
}

/// The order class of a query.
pub trait OrderClass {
    spec fn order_terms() -> OrderTerms;
}

/// The query is ordered by constants at most.
pub enum OrderNone {
    Marker,
}

impl OrderClass for OrderNone {
    open spec fn order_terms() -> OrderTerms {
        OrderTerms { by_column: false, by_aggregate: false }
    }
}

/// The query is ordered by columns and no aggregate.
pub enum OrderScalar {
    Marker,
}

impl OrderClass for OrderScalar {
    open spec fn order_terms() -> OrderTerms {
        OrderTerms { by_column: true, by_aggregate: false }
    }
}

/// The query is ordered by aggregates and no column.
pub enum OrderAggregate {
    Marker,
}

impl OrderClass for OrderAggregate {
    open spec fn order_terms() -> OrderTerms {
        OrderTerms { by_column: false, by_aggregate: true }
    }
}

/// The query is ordered by columns and aggregates: never valid without `GROUP BY`.
pub enum OrderMixed {
    Marker,
}

impl OrderClass for OrderMixed {
    open spec fn order_terms() -> OrderTerms {
        OrderTerms { by_column: true, by_aggregate: true }
    }
}

/// Extends an order class with one more term.
pub trait ExtendOrderClass<Added: TermClass>: OrderClass {
    type Output: OrderClass;

    /// The class says what the query is ordered by with that term.
    proof fn lemma_extended_order()
        ensures
            <Self::Output as OrderClass>::order_terms() == extended_order(
                Self::order_terms(),
                Added::term(),
            ),
    ;
}

impl ExtendOrderClass<ConstantTerm> for OrderNone {
    type Output = OrderNone;

    proof fn lemma_extended_order() {
    }
}

impl ExtendOrderClass<ConstantTerm> for OrderScalar {
    type Output = OrderScalar;

    proof fn lemma_extended_order() {
    }
}

impl ExtendOrderClass<ConstantTerm> for OrderAggregate {
    type Output = OrderAggregate;

    proof fn lemma_extended_order() {
    }
}

impl ExtendOrderClass<ConstantTerm> for OrderMixed {
    type Output = OrderMixed;

    proof fn lemma_extended_order() {
    }
}

impl ExtendOrderClass<ColumnTerm> for OrderNone {
    type Output = OrderScalar;

    proof fn lemma_extended_order() {
    }
}

impl ExtendOrderClass<ColumnTerm> for OrderScalar {
    type Output = OrderScalar;

    proof fn lemma_extended_order() {
    }
}

impl ExtendOrderClass<ColumnTerm> for OrderAggregate {
    type Output = OrderMixed;

    proof fn lemma_extended_order() {
    }
}

impl ExtendOrderClass<ColumnTerm> for OrderMixed {
    type Output = OrderMixed;

    proof fn lemma_extended_order() {
    }
}

impl ExtendOrderClass<AggregateTerm> for OrderNone {
    type Output = OrderAggregate;

    proof fn lemma_extended_order() {
    }
}

impl ExtendOrderClass<AggregateTerm> for OrderScalar {
    type Output = OrderMixed;

    proof fn lemma_extended_order() {
    }
}

impl ExtendOrderClass<AggregateTerm> for OrderAggregate {
    type Output = OrderAggregate;

    proof fn lemma_extended_order() {
    }
}

impl ExtendOrderClass<AggregateTerm> for OrderMixed {
    type Output = OrderMixed;

    proof fn lemma_extended_order() {
    }
}

/// Whether an ordering goes with a projection: plain values are ordered by columns, aggregates by
/// aggregates, either by nothing.
pub open spec fn order_fits(order: OrderTerms, aggregate: bool) -> bool {
    if aggregate {
        !order.by_column
    } else {
        !order.by_aggregate
    }
}

/// Witness that an order class goes with a projection class.
pub trait OrderCompatibleWith<Projected: ProjectionKind>: OrderClass {
    proof fn lemma_order_fits()
        ensures
            order_fits(Self::order_terms(), Projected::is_aggregate()),
    ;
}

impl OrderCompatibleWith<ScalarProjection> for OrderNone {
    proof fn lemma_order_fits() {
    }
}

impl OrderCompatibleWith<ScalarProjection> for OrderScalar {
    proof fn lemma_order_fits() {
    }
}

impl OrderCompatibleWith<AggregateProjection> for OrderNone {
    proof fn lemma_order_fits() {
    }
}

impl OrderCompatibleWith<AggregateProjection> for OrderAggregate {
    proof fn lemma_order_fits() {
    }
}

/// How a query is grouped.
#[derive(Clone, Copy, Debug, PartialEq, Eq, Structural)]
pub enum Grouping {
    /// There is no `GROUP BY` and no `HAVING`.
    Ungrouped,
    /// There is a `GROUP BY`.
    Grouped,
    /// There is a `HAVING` without bare columns and no `GROUP BY`: the whole table is one group.
    Aggregated,
    /// There is a `HAVING` with a bare column and no `GROUP BY` yet.
    NeedsGroupBy,
}

/// How a query is grouped after one more `HAVING`.
pub open spec fn after_having(grouping: Grouping, bare_column: bool) -> Grouping {
    match grouping {
        Grouping::Grouped => Grouping::Grouped,
        Grouping::NeedsGroupBy => Grouping::NeedsGroupBy,
        _ => if bare_column {
            Grouping::NeedsGroupBy
        } else {
            Grouping::Aggregated
        },
    }
}

/// How a query is grouped after a `GROUP BY`.
pub open spec fn after_group_by(grouping: Grouping) -> Grouping {
    Grouping::Grouped
}

/// The grouping state of a query.
pub trait GroupState {
    spec fn grouping() -> Grouping;
}

/// The query has no `GROUP BY`.
pub enum Ungrouped {
    Marker,
}

impl GroupState for Ungrouped {
    open spec fn grouping() -> Grouping {
        Grouping::Ungrouped
    }
}

/// The query has a `GROUP BY`.
pub enum Grouped {
    Marker,
}

impl GroupState for Grouped {
    open spec fn grouping() -> Grouping {
        Grouping::Grouped
    }
}

/// The query aggregates the whole table.
pub enum Aggregated {
    Marker,
}

impl GroupState for Aggregated {
    open spec fn grouping() -> Grouping {
        Grouping::Aggregated
    }
}

/// The query needs a `GROUP BY` before it is valid.
pub enum AggregateNeedsGroupBy {
    Marker,
}

impl GroupState for AggregateNeedsGroupBy {
    open spec fn grouping() -> Grouping {
        Grouping::NeedsGroupBy
    }
}

/// Witness that a projection and an ordering are valid for a grouping state. A query that still needs
/// a `GROUP BY` is valid for none.
pub trait ValidSelect<Projected, Ordered>: GroupState {
    proof fn lemma_selectable()
        ensures
            Self::grouping() != Grouping::NeedsGroupBy,
    ;
}

impl<Projected, Ordered> ValidSelect<Projected, Ordered> for Grouped {
    proof fn lemma_selectable() {
    }
}

impl<Projected: ProjectionClass, Ordered: OrderCompatibleWith<Projected::Class>> ValidSelect<
    Projected,
    Ordered,
> for Ungrouped {
    proof fn lemma_selectable() {
    }
}

impl<
    Projected: ProjectionColumns<Columns = ColumnFree>,
    Ordered: OrderCompatibleWith<AggregateProjection>,
> ValidSelect<Projected, Ordered> for Aggregated {
    proof fn lemma_selectable() {
    }
}

/// Carries a grouping state through a `HAVING`.
pub trait HavingTransition<Columns: ColumnClass>: GroupState {
    type Output: GroupState;

    proof fn lemma_after_having()
        ensures
            <Self::Output as GroupState>::grouping() == after_having(
                Self::grouping(),
                Columns::has_bare_column(),
            ),
    ;
}

impl<Columns: ColumnClass> HavingTransition<Columns> for Grouped {
    type Output = Grouped;

    proof fn lemma_after_having() {
    }
}

impl<Columns: ColumnClass> HavingTransition<Columns> for AggregateNeedsGroupBy {
    type Output = AggregateNeedsGroupBy;

    proof fn lemma_after_having() {
    }
}

impl HavingTransition<ColumnFree> for Ungrouped {
    type Output = Aggregated;

    proof fn lemma_after_having() {
    }
}

impl HavingTransition<HasBareColumn> for Ungrouped {
    type Output = AggregateNeedsGroupBy;

    proof fn lemma_after_having() {
    }
}

impl HavingTransition<ColumnFree> for Aggregated {
    type Output = Aggregated;

    proof fn lemma_after_having() {
    }
}

impl HavingTransition<HasBareColumn> for Aggregated {
    type Output = AggregateNeedsGroupBy;

    proof fn lemma_after_having() {
    }
}

/// What two terms make does not depend on their order.
pub proof fn law_combined_term_commutes(a: Term, b: Term)
    ensures
        combined_term(a, b) == combined_term(b, a),
{
}

/// What three terms make does not depend on which two are combined first.
pub proof fn law_combined_term_associates(a: Term, b: Term, c: Term)
    ensures
        (match combined_term(a, b) {
            Some(ab) => combined_term(ab, c),
            None => None,
        }) == (match combined_term(b, c) {
            Some(bc) => combined_term(a, bc),
            None => None,
        }),
{
}

/// A bare column and an aggregate never go together, whatever else there is.
pub proof fn law_column_and_aggregate_never_combine(a: Term, b: Term)
    ensures
        combined_term(a, b) is None <==> (a == Term::Column && b == Term::Aggregate || a
            == Term::Aggregate && b == Term::Column),
{
}

/// What a query is ordered by does not depend on the order in which terms were added.
pub proof fn law_order_class_ignores_sequence(order: OrderTerms, a: Term, b: Term)
    ensures
        extended_order(extended_order(order, a), b) == extended_order(extended_order(order, b), a),
{
}

/// A `GROUP BY` and a `HAVING` make the same grouping state whichever comes first.
pub proof fn law_having_and_group_by_commute(grouping: Grouping, bare_column: bool)
    ensures
        after_having(after_group_by(grouping), bare_column) == after_group_by(
            after_having(grouping, bare_column),
        ),
{
}

/// Without a `GROUP BY`, a query stays invalid once a `HAVING` referred to a bare column.
pub proof fn law_bare_having_needs_group_by(grouping: Grouping, bare_column: bool)
    requires
        grouping != Grouping::Grouped,
    ensures
        after_having(after_having(grouping, true), bare_column) == Grouping::NeedsGroupBy,
{
}

/// An ordering by columns and by aggregates goes with no projection.
pub proof fn law_mixed_order_never_fits(order: OrderTerms, aggregate: bool)
    requires
        order.by_column,
        order.by_aggregate,
    ensures
        !order_fits(order, aggregate),
{
}

} // verus!
