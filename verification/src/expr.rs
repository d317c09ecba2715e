//! Typed SQL expressions, predicates and orderings.
use crate::chain::List;
use crate::expr::ast::{
    AggregateExprAst, BinaryExprAst, ColumnExprAst, ExprAst, LiteralExprAst, ParamExprAst,
    ScalarSubquery, ScalarSubqueryExprAst, Subquery,
};
use crate::expr::class::NonAggregateAst;
use crate::expr::kind::{
    AddExpr, AggregateScalar, AndPredicate, AvgExpr, BetweenPredicate, BoolTestPredicate,
    CountExpr, DivideExpr, EqualsPredicate, ExistsPredicate, ExprKind, GreaterThanOrEqualsPredicate,
    GreaterThanPredicate, InPredicate, IsNotNullPredicate, IsNullPredicate,
    LessThanOrEqualsPredicate, LessThanPredicate, LikePredicate, MaxExpr, MinExpr, MultiplyExpr,
    NotEqualsPredicate, NotPredicate, Nullable, NullableExpr, OrPredicate, PredicateKind,
    ProjectionParams, RuntimeParam, ScalarNullable, SqlDivide, SqlNumber, SqlSum, SqlText,
    SubtractExpr, SumExpr,
};
use crate::expr::predicate::{
    AndPredicateAst, BetweenPredicateAst, BoolTestPredicateAst, ComparePredicateAst,
    ExistsPredicateAst, InPredicateAst, InSubqueryPredicateAst, LikePredicateAst, NotPredicateAst,
    NullCheckPredicateAst, OrPredicateAst, PredicateAst,
};
use crate::label::{Duplicate, Label};
use crate::list::{HAppend, HNil};
use crate::number::Blob;
use crate::ops::{AggregateFunc, ArithmeticOp, CompareOp, OrderDirection, SourceAlias};
use crate::sql_type::SqlType;
use core::marker::PhantomData;
use vstd::prelude::*;

pub mod ast;
pub mod case;
pub mod class;
pub mod ddl;
pub mod kind;
pub mod laws;
pub mod left;
pub mod operators;
pub mod predicate;
pub mod window;

verus! {

/// A typed SQL expression, in scope for one query.
pub struct Expr<'scope, K, Ast: ExprAst = ColumnExprAst<K>> {
    pub ast: Ast,
    pub project_alias: Label,
    pub _phantom: PhantomData<(&'scope (), K)>,
}

/// A reference to a column of a source, in scope for one query.
pub struct ColumnRef<'scope, K> {
    pub alias: SourceAlias,
    pub column: &'static str,
    pub project_alias: &'static str,
    pub _phantom: PhantomData<(&'scope (), K)>,
}

/// A typed SQL ordering, in scope for one query.
pub struct Order<'scope, K, Ast: ExprAst> {
    pub ast: Ast,
    pub direction: OrderDirection,
    pub _phantom: PhantomData<(&'scope (), K)>,
}

/// A typed SQL predicate, in scope for one query.
pub struct Predicate<'scope, K: PredicateKind, Ast: PredicateAst> {
    pub ast: Ast,
    pub _phantom: PhantomData<(&'scope (), K)>,
}

/// A comparison of a column with an operand.
pub type ColumnComparison<'scope, Cmp, K, RhsAst> = Predicate<
    'scope,
    Cmp,
    ComparePredicateAst<ColumnExprAst<K>, RhsAst>,
>;

/// A pattern match of a column.
pub type ColumnLike<'scope, K, RhsKind, RhsAst> = Predicate<
    'scope,
    LikePredicate<K, RhsKind>,
    LikePredicateAst<ColumnExprAst<K>, RhsAst>,
>;

/// A range test of a column.
pub type ColumnBetween<'scope, K, LoAst, HiAst> = Predicate<
    'scope,
    BetweenPredicate<K>,
    BetweenPredicateAst<ColumnExprAst<K>, LoAst, HiAst>,
>;

impl<'scope, K> Clone for ColumnRef<'scope, K> {
    fn clone(&self) -> (copy: Self)
        ensures
            copy == *self,
    {
        ColumnRef {
            alias: self.alias,
            column: self.column,
            project_alias: self.project_alias,
            _phantom: PhantomData,
        }
    }
}

impl<'scope, K> Copy for ColumnRef<'scope, K> {

}

impl<'scope, K> Duplicate for ColumnRef<'scope, K> {
    fn duplicate(&self) -> (copy: Self) {
        *self
    }
}

impl<'scope, K, Ast: ExprAst> Duplicate for Expr<'scope, K, Ast> {
    fn duplicate(&self) -> (copy: Self) {
        Expr {
            ast: self.ast.duplicate(),
            project_alias: self.project_alias.duplicate(),
            _phantom: PhantomData,
        }
    }
}

impl<'scope, K, Ast: ExprAst> Clone for Expr<'scope, K, Ast> {
    fn clone(&self) -> (copy: Self)
        ensures
            copy == *self,
    {
        self.duplicate()
    }
}

impl<'scope, K, Ast: ExprAst> Duplicate for Order<'scope, K, Ast> {
    fn duplicate(&self) -> (copy: Self) {
        Order { ast: self.ast.duplicate(), direction: self.direction, _phantom: PhantomData }
    }
}

impl<'scope, K, Ast: ExprAst> Clone for Order<'scope, K, Ast> {
    fn clone(&self) -> (copy: Self)
        ensures
            copy == *self,
    {
        self.duplicate()
    }
}

impl<'scope, K: PredicateKind, Ast: PredicateAst> Duplicate for Predicate<'scope, K, Ast> {
    fn duplicate(&self) -> (copy: Self) {
        Predicate { ast: self.ast.duplicate(), _phantom: PhantomData }
    }
}

impl<'scope, K: PredicateKind, Ast: PredicateAst> Clone for Predicate<'scope, K, Ast> {
    fn clone(&self) -> (copy: Self)
        ensures
            copy == *self,
    {
        self.duplicate()
    }
}

impl<'scope, K, Ast: ExprAst> ProjectionParams for Expr<'scope, K, Ast> {
    type Params = Ast::Params;
}

impl<'scope, K> ProjectionParams for ColumnRef<'scope, K> {
    type Params = HNil;
}

/// Converts a Rust value into the value type of an expression.
pub trait IntoValue<T>: Sized {
    /// Whether `value` is what this becomes.
    spec fn is_value(self, value: T) -> bool;

    fn into_value(self) -> (value: T)
        ensures
            self.is_value(value),
    ;
}

impl<T> IntoValue<T> for T {
    open spec fn is_value(self, value: T) -> bool {
        value == self
    }

    fn into_value(self) -> (value: T) {
        self
    }
}

impl IntoValue<String> for &str {
    open spec fn is_value(self, value: String) -> bool {
        value@ == self@
    }

    fn into_value(self) -> (value: String) {
        self.to_owned()
    }
}

impl IntoValue<String> for &String {
    open spec fn is_value(self, value: String) -> bool {
        value == *self
    }

    fn into_value(self) -> (value: String) {
        self.clone()
    }
}

/// Converts Rust values, columns and expressions into scoped SQL expressions.
pub trait IntoExpr<'scope>: Sized {
    type Kind: ExprKind;

    type Ast: ExprAst;

    /// Whether `ast` is the node that this becomes.
    spec fn gives(self, ast: Self::Ast) -> bool;

    fn into_expr(self) -> (expr: Expr<'scope, Self::Kind, Self::Ast>)
        ensures
            self.gives(expr.ast),
    ;
}

impl<'scope, K: ExprKind, A: ExprAst> IntoExpr<'scope> for Expr<'scope, K, A> {
    type Kind = K;

    type Ast = A;

    open spec fn gives(self, ast: A) -> bool {
        ast == self.ast
    }

    fn into_expr(self) -> (expr: Expr<'scope, K, A>) {
        self
    }
}

impl<'scope, K: ExprKind, A: ExprAst> IntoExpr<'scope> for &Expr<'scope, K, A> {
    type Kind = K;

    type Ast = A;

    open spec fn gives(self, ast: A) -> bool {
        ast == self.ast
    }

    fn into_expr(self) -> (expr: Expr<'scope, K, A>) {
        self.duplicate()
    }
}

impl<'scope, K: ExprKind> IntoExpr<'scope> for ColumnRef<'scope, K> {
    type Kind = K;

    type Ast = ColumnExprAst<K>;

    open spec fn gives(self, ast: ColumnExprAst<K>) -> bool {
        ast == self.ast()
    }

    fn into_expr(self) -> (expr: Expr<'scope, K, ColumnExprAst<K>>) {
        ColumnRef::into_expr(self)
    }
}

impl<'scope, K: ExprKind> IntoExpr<'scope> for &ColumnRef<'scope, K> {
    type Kind = K;

    type Ast = ColumnExprAst<K>;

    open spec fn gives(self, ast: ColumnExprAst<K>) -> bool {
        ast == self.ast()
    }

    fn into_expr(self) -> (expr: Expr<'scope, K, ColumnExprAst<K>>) {
        ColumnRef::into_expr(*self)
    }
}

impl<'scope, T: ExprKind<Value = T> + Duplicate> IntoExpr<'scope> for T {
    type Kind = T;

    type Ast = LiteralExprAst<T>;

    open spec fn gives(self, ast: LiteralExprAst<T>) -> bool {
        ast.value == self
    }

    fn into_expr(self) -> (expr: Expr<'scope, T, LiteralExprAst<T>>) {
        Expr::lit(self)
    }
}

impl<'scope> IntoExpr<'scope> for &str {
    type Kind = String;

    type Ast = LiteralExprAst<String>;

    open spec fn gives(self, ast: LiteralExprAst<String>) -> bool {
        ast.value@ == self@
    }

    fn into_expr(self) -> (expr: Expr<'scope, String, LiteralExprAst<String>>) {
        Expr::lit(self)
    }
}

impl<'scope> IntoExpr<'scope> for &String {
    type Kind = String;

    type Ast = LiteralExprAst<String>;

    open spec fn gives(self, ast: LiteralExprAst<String>) -> bool {
        ast.value == *self
    }

    fn into_expr(self) -> (expr: Expr<'scope, String, LiteralExprAst<String>>) {
        Expr::lit(self)
    }
}

impl<'scope> IntoExpr<'scope> for &[u8] {
    type Kind = Blob;

    type Ast = LiteralExprAst<Blob>;

    open spec fn gives(self, ast: LiteralExprAst<Blob>) -> bool {
        ast.value.bytes.seq() == self@
    }

    fn into_expr(self) -> (expr: Expr<'scope, Blob, LiteralExprAst<Blob>>) {
        Expr::lit(Blob::from_slice(self))
    }
}

impl<'scope> IntoExpr<'scope> for &Blob {
    type Kind = Blob;

    type Ast = LiteralExprAst<Blob>;

    open spec fn gives(self, ast: LiteralExprAst<Blob>) -> bool {
        ast.value == *self
    }

    fn into_expr(self) -> (expr: Expr<'scope, Blob, LiteralExprAst<Blob>>) {
        Expr::lit(self.duplicate())
    }
}

impl<'scope, K: ExprKind> Expr<'scope, K, ColumnExprAst<K>> {
    /// A column, selected under its own name.
    pub fn column<N: Into<Label>>(alias: SourceAlias, column: N) -> (expr: Self)
        ensures
            call_ensures(N::into, (column,), expr.ast.column),
            expr.ast.alias == alias,
            expr.project_alias == expr.ast.column,
    {
        let column = column.into();
        let project_alias = column.duplicate();
        Expr {
            ast: ColumnExprAst { alias, column, _kind: PhantomData },
            project_alias,
            _phantom: PhantomData,
        }
    }

    /// A column, selected under another name.
    pub fn column_with_project_alias<N: Into<Label>, A: Into<Label>>(
        alias: SourceAlias,
        column: N,
        project_alias: A,
    ) -> (expr: Self)
        ensures
            call_ensures(N::into, (column,), expr.ast.column),
            expr.ast.alias == alias,
            call_ensures(A::into, (project_alias,), expr.project_alias),
    {
        Expr {
            ast: ColumnExprAst { alias, column: column.into(), _kind: PhantomData },
            project_alias: project_alias.into(),
            _phantom: PhantomData,
        }
    }
}

impl<'scope, K: ExprKind> Expr<'scope, K, LiteralExprAst<K>> where K::Value: Duplicate {
    /// A literal. It is bound where it stands, as the backend encodes it.
    pub fn lit<V: IntoValue<K::Value>>(value: V) -> (expr: Self)
        ensures
            value.is_value(expr.ast.value),
            expr.project_alias == Label::Static("expr"),
    {
        Expr {
            ast: LiteralExprAst { value: value.into_value(), _kind: PhantomData },
            project_alias: Label::Static("expr"),
            _phantom: PhantomData,
        }
    }
}

impl<'scope, K: ExprKind> Expr<'scope, RuntimeParam<K>, ParamExprAst<K>> {
    /// A runtime parameter of a prepared statement.
    pub fn param() -> (expr: Self)
        ensures
            expr.project_alias == Label::Static("param"),
    {
        Expr {
            ast: ParamExprAst { _kind: PhantomData },
            project_alias: Label::Static("param"),
            _phantom: PhantomData,
        }
    }
}

/// A runtime parameter of a prepared statement.
pub fn param<'scope, K: ExprKind>() -> (expr: Expr<'scope, RuntimeParam<K>, ParamExprAst<K>>)
    ensures
        expr.project_alias == Label::Static("param"),
{
    Expr::param()
}

/// `EXISTS (subquery)`.
pub fn exists_<'scope, Sub: Subquery>(subquery: Sub) -> (predicate: Predicate<
    'scope,
    ExistsPredicate,
    ExistsPredicateAst<Sub>,
>)
    ensures
        predicate.ast == (ExistsPredicateAst { subquery, negated: false }),
{
    Predicate::new(ExistsPredicateAst { subquery, negated: false })
}

/// `NOT EXISTS (subquery)`.
pub fn not_exists<'scope, Sub: Subquery>(subquery: Sub) -> (predicate: Predicate<
    'scope,
    ExistsPredicate,
    ExistsPredicateAst<Sub>,
>)
    ensures
        predicate.ast == (ExistsPredicateAst { subquery, negated: true }),
{
    Predicate::new(ExistsPredicateAst { subquery, negated: true })
}

/// A subquery of one row and one column, as a value. Without a row it is `NULL`.
pub fn scalar_subquery<'scope, Sub: ScalarSubquery>(subquery: Sub) -> (expr: Expr<
    'scope,
    ScalarNullable<Sub::OutputKind>,
    ScalarSubqueryExprAst<Sub>,
>)
    ensures
        expr.ast.subquery == subquery,
        expr.project_alias == Label::Static("expr"),
{
    Expr {
        ast: ScalarSubqueryExprAst { subquery },
        project_alias: Label::Static("expr"),
        _phantom: PhantomData,
    }
}

/// Converts the values of an `IN` list, in order.
fn into_values<T, V: IntoValue<T>>(values: Vec<V>) -> (list: List<T>)
    ensures
        list.seq().len() == values@.len(),
        forall|i: int|
            0 <= i < values@.len() ==> (#[trigger] values@[i]).is_value(list.seq()[i]),
{
    let mut rest = values;
    let mut list: List<T> = List::Nil;
    while rest.len() > 0
        invariant
            rest@.len() + list.seq().len() == values@.len(),
            rest@ == values@.subrange(0, rest@.len() as int),
            forall|i: int|
                rest@.len() <= i < values@.len() ==> (#[trigger] values@[i]).is_value(
                    list.seq()[i - rest@.len()],
                ),
        decreases rest.len(),
    {
        let ghost before = rest@;
        let ghost done = list.seq();
        if let Some(value) = rest.pop() {
            let converted = value.into_value();
            list = List::Cons { head: Box::new(converted), tail: Box::new(list) };
            proof {
                assert(value == values@[rest@.len() as int]);
                assert(rest@ =~= values@.subrange(0, rest@.len() as int));
                assert(list.seq() =~= seq![converted] + done);
            }
        }
    }
    list
}

impl<'scope, K: PredicateKind, Ast: PredicateAst> Predicate<'scope, K, Ast> {
    fn new(ast: Ast) -> (predicate: Self)
        ensures
            predicate.ast == ast,
    {
        Predicate { ast, _phantom: PhantomData }
    }

    /// Conjunction.
    pub fn and<'other, R: PredicateKind, OtherAst: PredicateAst>(
        &self,
        other: Predicate<'other, R, OtherAst>,
    ) -> (predicate: Predicate<'scope, AndPredicate<K, R>, AndPredicateAst<Ast, OtherAst>>) where
        Ast::Params: HAppend<OtherAst::Params>,

        ensures
            predicate.ast == (AndPredicateAst { left: self.ast, right: other.ast }),
    {
        Predicate::new(AndPredicateAst { left: self.ast.duplicate(), right: other.ast })
    }

    /// Disjunction.
    pub fn or<'other, R: PredicateKind, OtherAst: PredicateAst>(
        &self,
        other: Predicate<'other, R, OtherAst>,
    ) -> (predicate: Predicate<'scope, OrPredicate<K, R>, OrPredicateAst<Ast, OtherAst>>) where
        Ast::Params: HAppend<OtherAst::Params>,

        ensures
            predicate.ast == (OrPredicateAst { left: self.ast, right: other.ast }),
    {
        Predicate::new(OrPredicateAst { left: self.ast.duplicate(), right: other.ast })
    }

    /// Negation.
    pub fn not_(&self) -> (predicate: Predicate<'scope, NotPredicate<K>, NotPredicateAst<Ast>>)
        ensures
            predicate.ast == (NotPredicateAst { predicate: self.ast }),
    {
        Predicate::new(NotPredicateAst { predicate: self.ast.duplicate() })
    }
}

impl<'scope, K, Ast: ExprAst> Order<'scope, K, Ast> {
    fn new(ast: Ast, direction: OrderDirection) -> (order: Self)
        ensures
            order.ast == ast,
            order.direction == direction,
    {
        Order { ast, direction, _phantom: PhantomData }
    }

    /// The direction of the ordering.
    pub fn direction(&self) -> (direction: OrderDirection)
        ensures
            direction == self.direction,
    {
        self.direction
    }
}

impl<'scope, K: ExprKind> ColumnRef<'scope, K> {
    /// The node of this column.
    pub open spec fn ast(self) -> ColumnExprAst<K> {
        ColumnExprAst {
            alias: self.alias,
            column: Label::Static(self.column),
            _kind: PhantomData,
        }
    }

    /// A column, selected under its own name.
    pub fn column(alias: SourceAlias, column: &'static str) -> (reference: Self)
        ensures
            reference.alias == alias,
            reference.column == column,
            reference.project_alias == column,
    {
        Self::column_with_project_alias(alias, column, column)
    }

    /// A column, selected under another name.
    pub fn column_with_project_alias(
        alias: SourceAlias,
        column: &'static str,
        project_alias: &'static str,
    ) -> (reference: Self)
        ensures
            reference.alias == alias,
            reference.column == column,
            reference.project_alias == project_alias,
    {
        ColumnRef { alias, column, project_alias, _phantom: PhantomData }
    }

    /// This column as an expression.
    pub fn into_expr(self) -> (expr: Expr<'scope, K, ColumnExprAst<K>>)
        ensures
            expr.ast == self.ast(),
            expr.project_alias == Label::Static(self.project_alias),
    {
        Expr {
            ast: ColumnExprAst {
                alias: self.alias,
                column: Label::Static(self.column),
                _kind: PhantomData,
            },
            project_alias: Label::Static(self.project_alias),
            _phantom: PhantomData,
        }
    }

    /// This column as one that may be null.
    pub fn into_nullable(self) -> (reference: ColumnRef<'scope, Nullable<K>>)
        ensures
            reference.alias == self.alias,
            reference.column == self.column,
            reference.project_alias == self.project_alias,
    {
        ColumnRef {
            alias: self.alias,
            column: self.column,
            project_alias: self.project_alias,
            _phantom: PhantomData,
        }
    }

    /// The name under which this column is selected.
    pub fn project_alias(self) -> (name: &'static str)
        ensures
            name == self.project_alias,
    {
        self.project_alias
    }

    /// Equality.
    pub fn equals<'other, R: IntoExpr<'other>>(self, other: R) -> (predicate: ColumnComparison<
        'scope,
        EqualsPredicate<K, R::Kind>,
        K,
        R::Ast,
    >) where R::Kind: ExprKind<Value = K::Value>, HNil: HAppend<<R::Ast as ExprAst>::Params>
        ensures
            predicate.ast.left == self.ast(),
            predicate.ast.op == CompareOp::Equals,
            other.gives(predicate.ast.right),
    {
        self.into_expr().equals(other)
    }

    /// Inequality.
    pub fn not_equals<'other, R: IntoExpr<'other>>(self, other: R) -> (predicate: ColumnComparison<
        'scope,
        NotEqualsPredicate<K, R::Kind>,
        K,
        R::Ast,
    >) where R::Kind: ExprKind<Value = K::Value>, HNil: HAppend<<R::Ast as ExprAst>::Params>
        ensures
            predicate.ast.left == self.ast(),
            predicate.ast.op == CompareOp::NotEquals,
            other.gives(predicate.ast.right),
    {
        self.into_expr().not_equals(other)
    }

    /// Less than.
    pub fn less_than<'other, R: IntoExpr<'other>>(self, other: R) -> (predicate: ColumnComparison<
        'scope,
        LessThanPredicate<K, R::Kind>,
        K,
        R::Ast,
    >) where R::Kind: ExprKind<Value = K::Value>, HNil: HAppend<<R::Ast as ExprAst>::Params>
        ensures
            predicate.ast.left == self.ast(),
            predicate.ast.op == CompareOp::LessThan,
            other.gives(predicate.ast.right),
    {
        self.into_expr().less_than(other)
    }

    /// Less than or equal.
    pub fn less_than_or_equals<'other, R: IntoExpr<'other>>(self, other: R) -> (predicate: ColumnComparison<
        'scope,
        LessThanOrEqualsPredicate<K, R::Kind>,
        K,
        R::Ast,
    >) where R::Kind: ExprKind<Value = K::Value>, HNil: HAppend<<R::Ast as ExprAst>::Params>
        ensures
            predicate.ast.left == self.ast(),
            predicate.ast.op == CompareOp::LessThanOrEquals,
            other.gives(predicate.ast.right),
    {
        self.into_expr().less_than_or_equals(other)
    }

    /// Greater than.
    pub fn greater_than<'other, R: IntoExpr<'other>>(self, other: R) -> (predicate: ColumnComparison<
        'scope,
        GreaterThanPredicate<K, R::Kind>,
        K,
        R::Ast,
    >) where R::Kind: ExprKind<Value = K::Value>, HNil: HAppend<<R::Ast as ExprAst>::Params>
        ensures
            predicate.ast.left == self.ast(),
            predicate.ast.op == CompareOp::GreaterThan,
            other.gives(predicate.ast.right),
    {
        self.into_expr().greater_than(other)
    }

    /// Greater than or equal.
    pub fn greater_than_or_equals<'other, R: IntoExpr<'other>>(self, other: R) -> (predicate: ColumnComparison<
        'scope,
        GreaterThanOrEqualsPredicate<K, R::Kind>,
        K,
        R::Ast,
    >) where R::Kind: ExprKind<Value = K::Value>, HNil: HAppend<<R::Ast as ExprAst>::Params>
        ensures
            predicate.ast.left == self.ast(),
            predicate.ast.op == CompareOp::GreaterThanOrEquals,
            other.gives(predicate.ast.right),
    {
        self.into_expr().greater_than_or_equals(other)
    }

    /// `LIKE`.
    pub fn like<'other, R: IntoExpr<'other>>(self, pattern: R) -> (predicate: ColumnLike<
        'scope,
        K,
        R::Kind,
        R::Ast,
    >) where
        K::Value: SqlText,
        R::Kind: ExprKind<Value = K::Value>,
        HNil: HAppend<<R::Ast as ExprAst>::Params>,

        ensures
            predicate.ast.left == self.ast(),
            pattern.gives(predicate.ast.right),
            predicate.ast.case_insensitive == false,
            predicate.ast.negated == false,
    {
        self.into_expr().like(pattern)
    }

    /// `NOT LIKE`.
    pub fn not_like<'other, R: IntoExpr<'other>>(self, pattern: R) -> (predicate: ColumnLike<
        'scope,
        K,
        R::Kind,
        R::Ast,
    >) where
        K::Value: SqlText,
        R::Kind: ExprKind<Value = K::Value>,
        HNil: HAppend<<R::Ast as ExprAst>::Params>,

        ensures
            predicate.ast.left == self.ast(),
            pattern.gives(predicate.ast.right),
            predicate.ast.case_insensitive == false,
            predicate.ast.negated == true,
    {
        self.into_expr().not_like(pattern)
    }

    /// `LIKE`, ignoring case.
    pub fn ilike<'other, R: IntoExpr<'other>>(self, pattern: R) -> (predicate: ColumnLike<
        'scope,
        K,
        R::Kind,
        R::Ast,
    >) where
        K::Value: SqlText,
        R::Kind: ExprKind<Value = K::Value>,
        HNil: HAppend<<R::Ast as ExprAst>::Params>,

        ensures
            predicate.ast.left == self.ast(),
            pattern.gives(predicate.ast.right),
            predicate.ast.case_insensitive == true,
            predicate.ast.negated == false,
    {
        self.into_expr().ilike(pattern)
    }

    /// `NOT LIKE`, ignoring case.
    pub fn not_ilike<'other, R: IntoExpr<'other>>(self, pattern: R) -> (predicate: ColumnLike<
        'scope,
        K,
        R::Kind,
        R::Ast,
    >) where
        K::Value: SqlText,
        R::Kind: ExprKind<Value = K::Value>,
        HNil: HAppend<<R::Ast as ExprAst>::Params>,

        ensures
            predicate.ast.left == self.ast(),
            pattern.gives(predicate.ast.right),
            predicate.ast.case_insensitive == true,
            predicate.ast.negated == true,
    {
        self.into_expr().not_ilike(pattern)
    }

    /// `IN` a list of values.
    pub fn in_<V: IntoValue<K::Value>>(self, values: Vec<V>) -> (predicate: Predicate<
        'scope,
        InPredicate<K>,
        InPredicateAst<ColumnExprAst<K>, K::Value>,
    >) where K::Value: Duplicate
        ensures
            predicate.ast.operand == self.ast(),
            predicate.ast.negated == false,
            predicate.ast.values.seq().len() == values@.len(),
            forall|i: int|
                0 <= i < values@.len() ==> (#[trigger] values@[i]).is_value(
                    predicate.ast.values.seq()[i],
                ),
    {
        self.into_expr().in_(values)
    }

    /// `NOT IN` a list of values.
    pub fn not_in<V: IntoValue<K::Value>>(self, values: Vec<V>) -> (predicate: Predicate<
        'scope,
        InPredicate<K>,
        InPredicateAst<ColumnExprAst<K>, K::Value>,
    >) where K::Value: Duplicate
        ensures
            predicate.ast.operand == self.ast(),
            predicate.ast.negated == true,
            predicate.ast.values.seq().len() == values@.len(),
            forall|i: int|
                0 <= i < values@.len() ==> (#[trigger] values@[i]).is_value(
                    predicate.ast.values.seq()[i],
                ),
    {
        self.into_expr().not_in(values)
    }

    /// `IN` a subquery.
    pub fn in_subquery<Sub: ScalarSubquery>(self, subquery: Sub) -> (predicate: Predicate<
        'scope,
        InPredicate<K>,
        InSubqueryPredicateAst<ColumnExprAst<K>, Sub>,
    >) where Sub::OutputKind: ExprKind<Value = K::Value>, HNil: HAppend<Sub::Params>
        ensures
            predicate.ast == (InSubqueryPredicateAst {
                operand: self.ast(),
                subquery,
                negated: false,
            }),
    {
        self.into_expr().in_subquery(subquery)
    }

    /// `NOT IN` a subquery.
    pub fn not_in_subquery<Sub: ScalarSubquery>(self, subquery: Sub) -> (predicate: Predicate<
        'scope,
        InPredicate<K>,
        InSubqueryPredicateAst<ColumnExprAst<K>, Sub>,
    >) where Sub::OutputKind: ExprKind<Value = K::Value>, HNil: HAppend<Sub::Params>
        ensures
            predicate.ast == (InSubqueryPredicateAst {
                operand: self.ast(),
                subquery,
                negated: true,
            }),
    {
        self.into_expr().not_in_subquery(subquery)
    }

    /// `BETWEEN`, both ends included.
    pub fn between<'other, Lo: IntoExpr<'other>, Hi: IntoExpr<'other>>(self, lo: Lo, hi: Hi) -> (
    predicate: ColumnBetween<'scope, K, Lo::Ast, Hi::Ast>) where
        Lo::Kind: ExprKind<Value = K::Value>,
        Hi::Kind: ExprKind<Value = K::Value>,
        HNil: HAppend<<Lo::Ast as ExprAst>::Params>,
        <HNil as HAppend<<Lo::Ast as ExprAst>::Params>>::Output: HAppend<
            <Hi::Ast as ExprAst>::Params,
        >,

        ensures
            predicate.ast.operand == self.ast(),
            lo.gives(predicate.ast.lo),
            hi.gives(predicate.ast.hi),
            predicate.ast.negated == false,
    {
        self.into_expr().between(lo, hi)
    }

    /// `NOT BETWEEN`.
    pub fn not_between<'other, Lo: IntoExpr<'other>, Hi: IntoExpr<'other>>(self, lo: Lo, hi: Hi) -> (
    predicate: ColumnBetween<'scope, K, Lo::Ast, Hi::Ast>) where
        Lo::Kind: ExprKind<Value = K::Value>,
        Hi::Kind: ExprKind<Value = K::Value>,
        HNil: HAppend<<Lo::Ast as ExprAst>::Params>,
        <HNil as HAppend<<Lo::Ast as ExprAst>::Params>>::Output: HAppend<
            <Hi::Ast as ExprAst>::Params,
        >,

        ensures
            predicate.ast.operand == self.ast(),
            lo.gives(predicate.ast.lo),
            hi.gives(predicate.ast.hi),
            predicate.ast.negated == true,
    {
        self.into_expr().not_between(lo, hi)
    }

    /// `COUNT`: how many values are not null.
    pub fn count(self) -> (expr: Expr<
        'scope,
        CountExpr<K>,
        AggregateExprAst<ColumnExprAst<K>, false>,
    >)
        ensures
            expr.ast.func == AggregateFunc::Count,
            expr.ast.cast is None,
            expr.ast.operand == self.ast(),
            expr.project_alias == Label::Static("expr"),
    {
        self.into_expr().count()
    }

    /// `SUM`, cast to the type that holds it.
    pub fn sum(self) -> (expr: Expr<
        'scope,
        SumExpr<K>,
        AggregateExprAst<ColumnExprAst<K>, false>,
    >) where K::Value: AggregateScalar, <K::Value as AggregateScalar>::Scalar: SqlSum
        ensures
            expr.ast.func == AggregateFunc::Sum,
            expr.ast.cast == Some(<<K::Value as AggregateScalar>::Scalar as SqlSum>::SUM_CAST),
            expr.ast.operand == self.ast(),
            expr.project_alias == Label::Static("expr"),
    {
        self.into_expr().sum()
    }

    /// `AVG`, cast to a double-precision number.
    pub fn avg(self) -> (expr: Expr<
        'scope,
        AvgExpr<K>,
        AggregateExprAst<ColumnExprAst<K>, false>,
    >) where K::Value: AggregateScalar, <K::Value as AggregateScalar>::Scalar: SqlNumber
        ensures
            expr.ast.func == AggregateFunc::Avg,
            expr.ast.cast == Some(SqlType::F64),
            expr.ast.operand == self.ast(),
            expr.project_alias == Label::Static("expr"),
    {
        self.into_expr().avg()
    }

    /// `MIN`.
    pub fn min(self) -> (expr: Expr<
        'scope,
        MinExpr<K>,
        AggregateExprAst<ColumnExprAst<K>, false>,
    >) where K::Value: AggregateScalar
        ensures
            expr.ast.func == AggregateFunc::Min,
            expr.ast.cast is None,
            expr.ast.operand == self.ast(),
            expr.project_alias == Label::Static("expr"),
    {
        self.into_expr().min()
    }

    /// `MAX`.
    pub fn max(self) -> (expr: Expr<
        'scope,
        MaxExpr<K>,
        AggregateExprAst<ColumnExprAst<K>, false>,
    >) where K::Value: AggregateScalar
        ensures
            expr.ast.func == AggregateFunc::Max,
            expr.ast.cast is None,
            expr.ast.operand == self.ast(),
            expr.project_alias == Label::Static("expr"),
    {
        self.into_expr().max()
    }

    /// Sorts by this column in ascending order.
    pub fn asc(self) -> (order: Order<'scope, K, ColumnExprAst<K>>)
        ensures
            order.ast == self.ast(),
            order.direction == OrderDirection::Asc,
    {
        self.into_expr().asc()
    }

    /// Sorts by this column in descending order.
    pub fn desc(self) -> (order: Order<'scope, K, ColumnExprAst<K>>)
        ensures
            order.ast == self.ast(),
            order.direction == OrderDirection::Desc,
    {
        self.into_expr().desc()
    }
}

impl<'scope, K: ExprKind + NullableExpr> ColumnRef<'scope, K> {
    /// `IS NULL`.
    pub fn is_null(self) -> (predicate: Predicate<
        'scope,
        IsNullPredicate<K>,
        NullCheckPredicateAst<ColumnExprAst<K>>,
    >)
        ensures
            predicate.ast == (NullCheckPredicateAst { operand: self.ast(), negated: false }),
    {
        self.into_expr().is_null()
    }

    /// `IS NOT NULL`.
    pub fn is_not_null(self) -> (predicate: Predicate<
        'scope,
        IsNotNullPredicate<K>,
        NullCheckPredicateAst<ColumnExprAst<K>>,
    >)
        ensures
            predicate.ast == (NullCheckPredicateAst { operand: self.ast(), negated: true }),
    {
        self.into_expr().is_not_null()
    }
}

impl<'scope, K: ExprKind<Value = bool>> ColumnRef<'scope, K> {
    /// This boolean column as a predicate.
    pub fn is_true(self) -> (predicate: Predicate<
        'scope,
        BoolTestPredicate<K>,
        BoolTestPredicateAst<ColumnExprAst<K>>,
    >)
        ensures
            predicate.ast == (BoolTestPredicateAst { operand: self.ast(), negated: false }),
    {
        self.into_expr().is_true()
    }

    /// The negation of this boolean column as a predicate.
    pub fn is_false(self) -> (predicate: Predicate<
        'scope,
        BoolTestPredicate<K>,
        BoolTestPredicateAst<ColumnExprAst<K>>,
    >)
        ensures
            predicate.ast == (BoolTestPredicateAst { operand: self.ast(), negated: true }),
    {
        self.into_expr().is_false()
    }
}

impl<'scope, K: ExprKind, Ast: ExprAst> Expr<'scope, K, Ast> {
    /// The name under which this expression is selected.
    pub fn project_alias(&self) -> (name: &str)
        ensures
            name@ == self.project_alias@,
    {
        self.project_alias.as_str()
    }

    /// Equality.
    pub fn equals<'other, R: IntoExpr<'other>>(&self, other: R) -> (predicate: Predicate<
        'scope,
        EqualsPredicate<K, R::Kind>,
        ComparePredicateAst<Ast, R::Ast>,
    >) where R::Kind: ExprKind<Value = K::Value>, Ast::Params: HAppend<<R::Ast as ExprAst>::Params>
        ensures
            predicate.ast.left == self.ast,
            predicate.ast.op == CompareOp::Equals,
            other.gives(predicate.ast.right),
    {
        Predicate::new(
            ComparePredicateAst {
                left: self.ast.duplicate(),
                right: other.into_expr().ast,
                op: CompareOp::Equals,
            },
        )
    }

    /// Inequality.
    pub fn not_equals<'other, R: IntoExpr<'other>>(&self, other: R) -> (predicate: Predicate<
        'scope,
        NotEqualsPredicate<K, R::Kind>,
        ComparePredicateAst<Ast, R::Ast>,
    >) where R::Kind: ExprKind<Value = K::Value>, Ast::Params: HAppend<<R::Ast as ExprAst>::Params>
        ensures
            predicate.ast.left == self.ast,
            predicate.ast.op == CompareOp::NotEquals,
            other.gives(predicate.ast.right),
    {
        Predicate::new(
            ComparePredicateAst {
                left: self.ast.duplicate(),
                right: other.into_expr().ast,
                op: CompareOp::NotEquals,
            },
        )
    }

    /// Less than.
    pub fn less_than<'other, R: IntoExpr<'other>>(&self, other: R) -> (predicate: Predicate<
        'scope,
        LessThanPredicate<K, R::Kind>,
        ComparePredicateAst<Ast, R::Ast>,
    >) where R::Kind: ExprKind<Value = K::Value>, Ast::Params: HAppend<<R::Ast as ExprAst>::Params>
        ensures
            predicate.ast.left == self.ast,
            predicate.ast.op == CompareOp::LessThan,
            other.gives(predicate.ast.right),
    {
        Predicate::new(
            ComparePredicateAst {
                left: self.ast.duplicate(),
                right: other.into_expr().ast,
                op: CompareOp::LessThan,
            },
        )
    }

    /// Less than or equal.
    pub fn less_than_or_equals<'other, R: IntoExpr<'other>>(&self, other: R) -> (predicate: Predicate<
        'scope,
        LessThanOrEqualsPredicate<K, R::Kind>,
        ComparePredicateAst<Ast, R::Ast>,
    >) where R::Kind: ExprKind<Value = K::Value>, Ast::Params: HAppend<<R::Ast as ExprAst>::Params>
        ensures
            predicate.ast.left == self.ast,
            predicate.ast.op == CompareOp::LessThanOrEquals,
            other.gives(predicate.ast.right),
    {
        Predicate::new(
            ComparePredicateAst {
                left: self.ast.duplicate(),
                right: other.into_expr().ast,
                op: CompareOp::LessThanOrEquals,
            },
        )
    }

    /// Greater than.
    pub fn greater_than<'other, R: IntoExpr<'other>>(&self, other: R) -> (predicate: Predicate<
        'scope,
        GreaterThanPredicate<K, R::Kind>,
        ComparePredicateAst<Ast, R::Ast>,
    >) where R::Kind: ExprKind<Value = K::Value>, Ast::Params: HAppend<<R::Ast as ExprAst>::Params>
        ensures
            predicate.ast.left == self.ast,
            predicate.ast.op == CompareOp::GreaterThan,
            other.gives(predicate.ast.right),
    {
        Predicate::new(
            ComparePredicateAst {
                left: self.ast.duplicate(),
                right: other.into_expr().ast,
                op: CompareOp::GreaterThan,
            },
        )
    }

    /// Greater than or equal.
    pub fn greater_than_or_equals<'other, R: IntoExpr<'other>>(&self, other: R) -> (predicate: Predicate<
        'scope,
        GreaterThanOrEqualsPredicate<K, R::Kind>,
        ComparePredicateAst<Ast, R::Ast>,
    >) where R::Kind: ExprKind<Value = K::Value>, Ast::Params: HAppend<<R::Ast as ExprAst>::Params>
        ensures
            predicate.ast.left == self.ast,
            predicate.ast.op == CompareOp::GreaterThanOrEquals,
            other.gives(predicate.ast.right),
    {
        Predicate::new(
            ComparePredicateAst {
                left: self.ast.duplicate(),
                right: other.into_expr().ast,
                op: CompareOp::GreaterThanOrEquals,
            },
        )
    }

    /// `LIKE`.
    pub fn like<'other, R: IntoExpr<'other>>(&self, pattern: R) -> (predicate: Predicate<
        'scope,
        LikePredicate<K, R::Kind>,
        LikePredicateAst<Ast, R::Ast>,
    >) where
        K::Value: SqlText,
        R::Kind: ExprKind<Value = K::Value>,
        Ast::Params: HAppend<<R::Ast as ExprAst>::Params>,

        ensures
            predicate.ast.left == self.ast,
            pattern.gives(predicate.ast.right),
            predicate.ast.case_insensitive == false,
            predicate.ast.negated == false,
    {
        self.like_impl(pattern, false, false)
    }

    /// `NOT LIKE`.
    pub fn not_like<'other, R: IntoExpr<'other>>(&self, pattern: R) -> (predicate: Predicate<
        'scope,
        LikePredicate<K, R::Kind>,
        LikePredicateAst<Ast, R::Ast>,
    >) where
        K::Value: SqlText,
        R::Kind: ExprKind<Value = K::Value>,
        Ast::Params: HAppend<<R::Ast as ExprAst>::Params>,

        ensures
            predicate.ast.left == self.ast,
            pattern.gives(predicate.ast.right),
            predicate.ast.case_insensitive == false,
            predicate.ast.negated == true,
    {
        self.like_impl(pattern, false, true)
    }

    /// `LIKE`, ignoring case.
    pub fn ilike<'other, R: IntoExpr<'other>>(&self, pattern: R) -> (predicate: Predicate<
        'scope,
        LikePredicate<K, R::Kind>,
        LikePredicateAst<Ast, R::Ast>,
    >) where
        K::Value: SqlText,
        R::Kind: ExprKind<Value = K::Value>,
        Ast::Params: HAppend<<R::Ast as ExprAst>::Params>,

        ensures
            predicate.ast.left == self.ast,
            pattern.gives(predicate.ast.right),
            predicate.ast.case_insensitive == true,
            predicate.ast.negated == false,
    {
        self.like_impl(pattern, true, false)
    }

    /// `NOT LIKE`, ignoring case.
    pub fn not_ilike<'other, R: IntoExpr<'other>>(&self, pattern: R) -> (predicate: Predicate<
        'scope,
        LikePredicate<K, R::Kind>,
        LikePredicateAst<Ast, R::Ast>,
    >) where
        K::Value: SqlText,
        R::Kind: ExprKind<Value = K::Value>,
        Ast::Params: HAppend<<R::Ast as ExprAst>::Params>,

        ensures
            predicate.ast.left == self.ast,
            pattern.gives(predicate.ast.right),
            predicate.ast.case_insensitive == true,
            predicate.ast.negated == true,
    {
        self.like_impl(pattern, true, true)
    }

    fn like_impl<'other, R: IntoExpr<'other>>(
        &self,
        pattern: R,
        case_insensitive: bool,
        negated: bool,
    ) -> (predicate: Predicate<
        'scope,
        LikePredicate<K, R::Kind>,
        LikePredicateAst<Ast, R::Ast>,
    >) where Ast::Params: HAppend<<R::Ast as ExprAst>::Params>
        ensures
            predicate.ast.left == self.ast,
            pattern.gives(predicate.ast.right),
            predicate.ast.case_insensitive == case_insensitive,
            predicate.ast.negated == negated,
    {
        Predicate::new(
            LikePredicateAst {
                left: self.ast.duplicate(),
                right: pattern.into_expr().ast,
                case_insensitive,
                negated,
            },
        )
    }

    /// `IN` a list of values. An empty list holds nothing.
    pub fn in_<V: IntoValue<K::Value>>(&self, values: Vec<V>) -> (predicate: Predicate<
        'scope,
        InPredicate<K>,
        InPredicateAst<Ast, K::Value>,
    >) where K::Value: Duplicate
        ensures
            predicate.ast.operand == self.ast,
            predicate.ast.negated == false,
            predicate.ast.values.seq().len() == values@.len(),
            forall|i: int|
                0 <= i < values@.len() ==> (#[trigger] values@[i]).is_value(
                    predicate.ast.values.seq()[i],
                ),
    {
        self.in_impl(values, false)
    }

    /// `NOT IN` a list of values. An empty list holds nothing.
    pub fn not_in<V: IntoValue<K::Value>>(&self, values: Vec<V>) -> (predicate: Predicate<
        'scope,
        InPredicate<K>,
        InPredicateAst<Ast, K::Value>,
    >) where K::Value: Duplicate
        ensures
            predicate.ast.operand == self.ast,
            predicate.ast.negated == true,
            predicate.ast.values.seq().len() == values@.len(),
            forall|i: int|
                0 <= i < values@.len() ==> (#[trigger] values@[i]).is_value(
                    predicate.ast.values.seq()[i],
                ),
    {
        self.in_impl(values, true)
    }

    fn in_impl<V: IntoValue<K::Value>>(&self, values: Vec<V>, negated: bool) -> (predicate: Predicate<
        'scope,
        InPredicate<K>,
        InPredicateAst<Ast, K::Value>,
    >) where K::Value: Duplicate
        ensures
            predicate.ast.operand == self.ast,
            predicate.ast.negated == negated,
            predicate.ast.values.seq().len() == values@.len(),
            forall|i: int|
                0 <= i < values@.len() ==> (#[trigger] values@[i]).is_value(
                    predicate.ast.values.seq()[i],
                ),
    {
        Predicate::new(
            InPredicateAst { operand: self.ast.duplicate(), values: into_values(values), negated },
        )
    }

    /// `IN` a subquery.
    pub fn in_subquery<Sub: ScalarSubquery>(&self, subquery: Sub) -> (predicate: Predicate<
        'scope,
        InPredicate<K>,
        InSubqueryPredicateAst<Ast, Sub>,
    >) where Sub::OutputKind: ExprKind<Value = K::Value>, Ast::Params: HAppend<Sub::Params>
        ensures
            predicate.ast == (InSubqueryPredicateAst {
                operand: self.ast,
                subquery,
                negated: false,
            }),
    {
        self.in_subquery_impl(subquery, false)
    }

    /// `NOT IN` a subquery.
    pub fn not_in_subquery<Sub: ScalarSubquery>(&self, subquery: Sub) -> (predicate: Predicate<
        'scope,
        InPredicate<K>,
        InSubqueryPredicateAst<Ast, Sub>,
    >) where Sub::OutputKind: ExprKind<Value = K::Value>, Ast::Params: HAppend<Sub::Params>
        ensures
            predicate.ast == (InSubqueryPredicateAst {
                operand: self.ast,
                subquery,
                negated: true,
            }),
    {
        self.in_subquery_impl(subquery, true)
    }

    fn in_subquery_impl<Sub: ScalarSubquery>(&self, subquery: Sub, negated: bool) -> (predicate:
        Predicate<'scope, InPredicate<K>, InSubqueryPredicateAst<Ast, Sub>>) where
        Sub::OutputKind: ExprKind<Value = K::Value>,
        Ast::Params: HAppend<Sub::Params>,

        ensures
            predicate.ast == (InSubqueryPredicateAst { operand: self.ast, subquery, negated }),
    {
        Predicate::new(
            InSubqueryPredicateAst { operand: self.ast.duplicate(), subquery, negated },
        )
    }

    /// `BETWEEN`, both ends included.
    pub fn between<'other, Lo: IntoExpr<'other>, Hi: IntoExpr<'other>>(&self, lo: Lo, hi: Hi) -> (
    predicate: Predicate<'scope, BetweenPredicate<K>, BetweenPredicateAst<Ast, Lo::Ast, Hi::Ast>>) where
        Lo::Kind: ExprKind<Value = K::Value>,
        Hi::Kind: ExprKind<Value = K::Value>,
        Ast::Params: HAppend<<Lo::Ast as ExprAst>::Params>,
        <Ast::Params as HAppend<<Lo::Ast as ExprAst>::Params>>::Output: HAppend<
            <Hi::Ast as ExprAst>::Params,
        >,

        ensures
            predicate.ast.operand == self.ast,
            lo.gives(predicate.ast.lo),
            hi.gives(predicate.ast.hi),
            predicate.ast.negated == false,
    {
        self.between_impl(lo, hi, false)
    }

    /// `NOT BETWEEN`.
    pub fn not_between<'other, Lo: IntoExpr<'other>, Hi: IntoExpr<'other>>(&self, lo: Lo, hi: Hi) -> (
    predicate: Predicate<'scope, BetweenPredicate<K>, BetweenPredicateAst<Ast, Lo::Ast, Hi::Ast>>) where
        Lo::Kind: ExprKind<Value = K::Value>,
        Hi::Kind: ExprKind<Value = K::Value>,
        Ast::Params: HAppend<<Lo::Ast as ExprAst>::Params>,
        <Ast::Params as HAppend<<Lo::Ast as ExprAst>::Params>>::Output: HAppend<
            <Hi::Ast as ExprAst>::Params,
        >,

        ensures
            predicate.ast.operand == self.ast,
            lo.gives(predicate.ast.lo),
            hi.gives(predicate.ast.hi),
            predicate.ast.negated == true,
    {
        self.between_impl(lo, hi, true)
    }

    fn between_impl<'other, Lo: IntoExpr<'other>, Hi: IntoExpr<'other>>(
        &self,
        lo: Lo,
        hi: Hi,
        negated: bool,
    ) -> (predicate: Predicate<
        'scope,
        BetweenPredicate<K>,
        BetweenPredicateAst<Ast, Lo::Ast, Hi::Ast>,
    >) where
        Ast::Params: HAppend<<Lo::Ast as ExprAst>::Params>,
        <Ast::Params as HAppend<<Lo::Ast as ExprAst>::Params>>::Output: HAppend<
            <Hi::Ast as ExprAst>::Params,
        >,

        ensures
            predicate.ast.operand == self.ast,
            lo.gives(predicate.ast.lo),
            hi.gives(predicate.ast.hi),
            predicate.ast.negated == negated,
    {
        Predicate::new(
            BetweenPredicateAst {
                operand: self.ast.duplicate(),
                lo: lo.into_expr().ast,
                hi: hi.into_expr().ast,
                negated,
            },
        )
    }

    /// `COUNT`: how many values are not null.
    pub fn count(&self) -> (expr: Expr<'scope, CountExpr<K>, AggregateExprAst<Ast, false>>) where Ast: NonAggregateAst
        ensures
            expr.ast.func == AggregateFunc::Count,
            expr.ast.cast is None,
            expr.ast.operand == self.ast,
            expr.project_alias == Label::Static("expr"),
    {
        self.aggregate(AggregateFunc::Count, None)
    }

    /// `SUM`, cast to the type that holds it.
    pub fn sum(&self) -> (expr: Expr<'scope, SumExpr<K>, AggregateExprAst<Ast, false>>) where Ast: NonAggregateAst, K::Value: AggregateScalar, <K::Value as AggregateScalar>::Scalar: SqlSum
        ensures
            expr.ast.func == AggregateFunc::Sum,
            expr.ast.cast == Some(<<K::Value as AggregateScalar>::Scalar as SqlSum>::SUM_CAST),
            expr.ast.operand == self.ast,
            expr.project_alias == Label::Static("expr"),
    {
        self.aggregate(AggregateFunc::Sum, Some(<<K::Value as AggregateScalar>::Scalar as SqlSum>::SUM_CAST))
    }

    /// `AVG`, cast to a double-precision number.
    pub fn avg(&self) -> (expr: Expr<'scope, AvgExpr<K>, AggregateExprAst<Ast, false>>) where Ast: NonAggregateAst, K::Value: AggregateScalar, <K::Value as AggregateScalar>::Scalar: SqlNumber
        ensures
            expr.ast.func == AggregateFunc::Avg,
            expr.ast.cast == Some(SqlType::F64),
            expr.ast.operand == self.ast,
            expr.project_alias == Label::Static("expr"),
    {
        self.aggregate(AggregateFunc::Avg, Some(SqlType::F64))
    }

    /// `MIN`.
    pub fn min(&self) -> (expr: Expr<'scope, MinExpr<K>, AggregateExprAst<Ast, false>>) where Ast: NonAggregateAst, K::Value: AggregateScalar
        ensures
            expr.ast.func == AggregateFunc::Min,
            expr.ast.cast is None,
            expr.ast.operand == self.ast,
            expr.project_alias == Label::Static("expr"),
    {
        self.aggregate(AggregateFunc::Min, None)
    }

    /// `MAX`.
    pub fn max(&self) -> (expr: Expr<'scope, MaxExpr<K>, AggregateExprAst<Ast, false>>) where Ast: NonAggregateAst, K::Value: AggregateScalar
        ensures
            expr.ast.func == AggregateFunc::Max,
            expr.ast.cast is None,
            expr.ast.operand == self.ast,
            expr.project_alias == Label::Static("expr"),
    {
        self.aggregate(AggregateFunc::Max, None)
    }

    fn aggregate<ResultKind>(&self, func: AggregateFunc, cast: Option<SqlType>) -> (expr: Expr<
        'scope,
        ResultKind,
        AggregateExprAst<Ast, false>,
    >)
        ensures
            expr.ast.func == func,
            expr.ast.cast == cast,
            expr.ast.operand == self.ast,
            expr.project_alias == Label::Static("expr"),
    {
        Expr {
            ast: AggregateExprAst { func, cast, operand: self.ast.duplicate() },
            project_alias: Label::Static("expr"),
            _phantom: PhantomData,
        }
    }

    /// Sorts by this expression in ascending order.
    pub fn asc(&self) -> (order: Order<'scope, K, Ast>)
        ensures
            order.ast == self.ast,
            order.direction == OrderDirection::Asc,
    {
        Order::new(self.ast.duplicate(), OrderDirection::Asc)
    }

    /// Sorts by this expression in descending order.
    pub fn desc(&self) -> (order: Order<'scope, K, Ast>)
        ensures
            order.ast == self.ast,
            order.direction == OrderDirection::Desc,
    {
        Order::new(self.ast.duplicate(), OrderDirection::Desc)
    }
}

impl<'scope, K: ExprKind + NullableExpr, Ast: ExprAst> Expr<'scope, K, Ast> {
    /// `IS NULL`.
    pub fn is_null(&self) -> (predicate: Predicate<
        'scope,
        IsNullPredicate<K>,
        NullCheckPredicateAst<Ast>,
    >)
        ensures
            predicate.ast == (NullCheckPredicateAst { operand: self.ast, negated: false }),
    {
        Predicate::new(
            NullCheckPredicateAst { operand: self.ast.duplicate(), negated: false },
        )
    }

    /// `IS NOT NULL`.
    pub fn is_not_null(&self) -> (predicate: Predicate<
        'scope,
        IsNotNullPredicate<K>,
        NullCheckPredicateAst<Ast>,
    >)
        ensures
            predicate.ast == (NullCheckPredicateAst { operand: self.ast, negated: true }),
    {
        Predicate::new(
            NullCheckPredicateAst { operand: self.ast.duplicate(), negated: true },
        )
    }
}

impl<'scope, K: ExprKind<Value = bool>, Ast: ExprAst> Expr<'scope, K, Ast> {
    /// This boolean expression as a predicate.
    pub fn is_true(&self) -> (predicate: Predicate<
        'scope,
        BoolTestPredicate<K>,
        BoolTestPredicateAst<Ast>,
    >)
        ensures
            predicate.ast == (BoolTestPredicateAst { operand: self.ast, negated: false }),
    {
        Predicate::new(BoolTestPredicateAst { operand: self.ast.duplicate(), negated: false })
    }

    /// The negation of this boolean expression as a predicate.
    pub fn is_false(&self) -> (predicate: Predicate<
        'scope,
        BoolTestPredicate<K>,
        BoolTestPredicateAst<Ast>,
    >)
        ensures
            predicate.ast == (BoolTestPredicateAst { operand: self.ast, negated: true }),
    {
        Predicate::new(BoolTestPredicateAst { operand: self.ast.duplicate(), negated: true })
    }
}

impl<'scope, K: ExprKind, Ast: ExprAst> Expr<'scope, K, Ast> where K::Value: SqlNumber {
    /// Addition.
    pub fn add<R: IntoExpr<'scope>>(&self, other: R) -> (expr: Expr<
        'scope,
        AddExpr<K, R::Kind>,
        BinaryExprAst<Ast, R::Ast>,
    >) where
        R::Kind: ExprKind<Value = K::Value>,
        Ast::Params: HAppend<<R::Ast as ExprAst>::Params>,

        ensures
            expr.ast.left == self.ast,
            expr.ast.op == ArithmeticOp::Add,
            other.gives(expr.ast.right),
            expr.project_alias == Label::Static("expr"),
    {
        Self::binary::<AddExpr<K, R::Kind>, R>(self.ast.duplicate(), ArithmeticOp::Add, other)
    }

    /// Subtraction.
    pub fn subtract<R: IntoExpr<'scope>>(&self, other: R) -> (expr: Expr<
        'scope,
        SubtractExpr<K, R::Kind>,
        BinaryExprAst<Ast, R::Ast>,
    >) where
        R::Kind: ExprKind<Value = K::Value>,
        Ast::Params: HAppend<<R::Ast as ExprAst>::Params>,

        ensures
            expr.ast.left == self.ast,
            expr.ast.op == ArithmeticOp::Subtract,
            other.gives(expr.ast.right),
            expr.project_alias == Label::Static("expr"),
    {
        Self::binary::<SubtractExpr<K, R::Kind>, R>(self.ast.duplicate(), ArithmeticOp::Subtract, other)
    }

    /// Multiplication.
    pub fn multiply<R: IntoExpr<'scope>>(&self, other: R) -> (expr: Expr<
        'scope,
        MultiplyExpr<K, R::Kind>,
        BinaryExprAst<Ast, R::Ast>,
    >) where
        R::Kind: ExprKind<Value = K::Value>,
        Ast::Params: HAppend<<R::Ast as ExprAst>::Params>,

        ensures
            expr.ast.left == self.ast,
            expr.ast.op == ArithmeticOp::Multiply,
            other.gives(expr.ast.right),
            expr.project_alias == Label::Static("expr"),
    {
        Self::binary::<MultiplyExpr<K, R::Kind>, R>(self.ast.duplicate(), ArithmeticOp::Multiply, other)
    }

    /// Division, which always gives a double-precision number.
    pub fn divide<R: IntoExpr<'scope>>(&self, other: R) -> (expr: Expr<
        'scope,
        DivideExpr<K, R::Kind>,
        BinaryExprAst<Ast, R::Ast>,
    >) where
        K::Value: SqlDivide, R::Kind: ExprKind<Value = K::Value>,
        Ast::Params: HAppend<<R::Ast as ExprAst>::Params>,

        ensures
            expr.ast.left == self.ast,
            expr.ast.op == ArithmeticOp::Divide,
            other.gives(expr.ast.right),
            expr.project_alias == Label::Static("expr"),
    {
        Self::binary::<DivideExpr<K, R::Kind>, R>(self.ast.duplicate(), ArithmeticOp::Divide, other)
    }

    pub(crate) fn binary<ResultKind: ExprKind, R: IntoExpr<'scope>>(
        left: Ast,
        op: ArithmeticOp,
        right: R,
    ) -> (expr: Expr<'scope, ResultKind, BinaryExprAst<Ast, R::Ast>>) where
        Ast::Params: HAppend<<R::Ast as ExprAst>::Params>,

        ensures
            expr.ast.left == left,
            expr.ast.op == op,
            right.gives(expr.ast.right),
            expr.project_alias == Label::Static("expr"),
    {
        let right = right.into_expr();
        Expr {
            ast: BinaryExprAst { left, op, right: right.ast },
            project_alias: Label::Static("expr"),
            _phantom: PhantomData,
        }
    }
}

} // verus!
