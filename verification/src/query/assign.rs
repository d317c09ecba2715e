//! What `INSERT` and `UPDATE` assign to columns.
use crate::backend::{Backend, Bound, Encode};
use crate::chain::List;
use crate::column::{NonNullableColumn, NullableColumn};
use crate::dialect::Dialect;
use crate::expr::ast::{ColumnExprAst, ExprAst, ParamExprAst, RenderAst};
use crate::expr::class::NonAggregateAst;
use crate::expr::kind::{ExprKind, PredicateKind, RuntimeParam};
use crate::expr::predicate::{PredicateAst, RenderPredicateAst};
use crate::expr::{ColumnRef, Expr, Predicate};
use crate::grammar;
use crate::label::{Duplicate, Label};
use crate::list::{HAppend, HCons, HList, HNil};
use crate::number::{Blob, Float32, Float64};
use crate::projection::{InsertableTable, TableProjection, UpdateableTable};
use crate::tokens;
use crate::tokens::Token;
use crate::tree::{AssignmentTree, Encoded, PredicateTree, ValueTree};
use core::marker::PhantomData;
use vstd::prelude::*;

pub mod joined;
pub mod wide;

verus! {

broadcast use crate::tokens::group_tokens;

/// The identity of a table column that can be assigned.
pub trait ColumnKey: ExprKind {
    type Table: TableProjection;

    type Nullability: InsertColumnNullability;

    const NAME: &'static str;
}

/// A column that may appear in explicit insert rows.
pub trait InsertColumnKey: ColumnKey {

}

/// A column that may appear in explicit update assignments.
pub trait UpdateColumnKey: ColumnKey {

}

/// Whether an inserted column may be `NULL`.
pub trait InsertColumnNullability {

}

impl InsertColumnNullability for NonNullableColumn {

}

impl InsertColumnNullability for NullableColumn {

}

/// Columns that may be `NULL`.
pub trait IsNullable {

}

impl IsNullable for NullableColumn {

}

/// Whether a column of nullability `N` may be left as it is when the row is inserted: a column that
/// is set always may, one that is not only where it is nullable.
pub trait InsertReady<N> {

}

/// Stands for the database default of a column.
#[derive(Clone, Copy, Debug, PartialEq, Eq)]
pub struct DefaultValueNode;

impl Default for DefaultValueNode {
    fn default() -> (node: DefaultValueNode)
        ensures
            node == DefaultValueNode,
    {
        DefaultValueNode
    }
}

/// The database default of a column, in an insert row or an update.
pub fn default() -> (node: DefaultValueNode)
    ensures
        node == DefaultValueNode,
{
    DefaultValueNode
}

/// A value that a column is assigned, with the shape of its runtime parameters.
pub trait AssignmentValueNode: Duplicate {
    type Params: HList;

    /// How many parameters the value binds or leaves to be bound.
    spec fn binds(&self) -> nat;

    fn param_count(&self) -> (count: usize)
        requires
            self.binds() <= usize::MAX,
        ensures
            count == self.binds(),
    ;
}

/// How an assigned value lowers for a backend.
pub trait RenderAssignmentValue<B: Backend>: AssignmentValueNode {
    spec fn value_tree(&self) -> ValueTree<Bound<B>>;

    fn lower_value(&self) -> (value: ValueTree<Bound<B>>)
        ensures
            value == self.value_tree(),
    ;

    /// The parameter shape has one entry for each runtime parameter that is written.
    proof fn lemma_value_params<D: Dialect>(&self, dialect: D)
        ensures
            tokens::runtimes(grammar::value_tokens(dialect, self.value_tree()))
                == <Self::Params as HList>::width(),
    ;
}

/// A value that is bound where it stands.
pub struct StaticAssignmentValue<T> {
    pub value: T,
}

/// The database default.
#[derive(Clone, Copy, Debug, PartialEq, Eq)]
pub struct DefaultAssignmentValue;

/// The value of an expression.
pub struct ExprAssignmentValue<'scope, K, Ast: ExprAst> {
    pub expr: Expr<'scope, K, Ast>,
}

/// A runtime parameter of a prepared statement.
pub struct RuntimeAssignmentValue<K> {
    pub _kind: PhantomData<K>,
}

impl<T> StaticAssignmentValue<T> {
    pub fn new(value: T) -> (node: Self)
        ensures
            node.value == value,
    {
        StaticAssignmentValue { value }
    }
}

impl<K> RuntimeAssignmentValue<K> {
    pub fn new() -> (node: Self)
        ensures
            node == (RuntimeAssignmentValue::<K> { _kind: PhantomData }),
    {
        RuntimeAssignmentValue { _kind: PhantomData }
    }
}

impl<'scope, K, Ast: ExprAst> ExprAssignmentValue<'scope, K, Ast> {
    pub fn new(expr: Expr<'scope, K, Ast>) -> (node: Self)
        ensures
            node.expr == expr,
    {
        ExprAssignmentValue { expr }
    }
}

impl<T: Duplicate> Duplicate for StaticAssignmentValue<T> {
    fn duplicate(&self) -> (copy: Self) {
        StaticAssignmentValue { value: self.value.duplicate() }
    }
}

impl Duplicate for DefaultAssignmentValue {
    fn duplicate(&self) -> (copy: Self) {
        DefaultAssignmentValue
    }
}

impl<'scope, K, Ast: ExprAst> Duplicate for ExprAssignmentValue<'scope, K, Ast> {
    fn duplicate(&self) -> (copy: Self) {
        ExprAssignmentValue { expr: self.expr.duplicate() }
    }
}

impl<K> Duplicate for RuntimeAssignmentValue<K> {
    fn duplicate(&self) -> (copy: Self) {
        RuntimeAssignmentValue { _kind: PhantomData }
    }
}

impl<T: Duplicate> AssignmentValueNode for StaticAssignmentValue<T> {
    type Params = HNil;

    open spec fn binds(&self) -> nat {
        1
    }

    fn param_count(&self) -> (count: usize) {
        1
    }
}

impl<T: Duplicate + Encode<B>, B: Backend> RenderAssignmentValue<B> for StaticAssignmentValue<T> {
    open spec fn value_tree(&self) -> ValueTree<Bound<B>> {
        ValueTree::Static(Encoded { outcome: self.value.encoded() })
    }

    fn lower_value(&self) -> (value: ValueTree<Bound<B>>) {
        ValueTree::Static(Encoded { outcome: self.value.encode() })
    }

    proof fn lemma_value_params<D: Dialect>(&self, dialect: D) {
        reveal_with_fuel(tokens::runtimes, 2);
        assert(<HNil as HList>::width() == 0);
    }
}

impl AssignmentValueNode for DefaultAssignmentValue {
    type Params = HNil;

    open spec fn binds(&self) -> nat {
        0
    }

    fn param_count(&self) -> (count: usize) {
        0
    }
}

impl<B: Backend> RenderAssignmentValue<B> for DefaultAssignmentValue {
    open spec fn value_tree(&self) -> ValueTree<Bound<B>> {
        ValueTree::Default
    }

    fn lower_value(&self) -> (value: ValueTree<Bound<B>>) {
        ValueTree::Default
    }

    proof fn lemma_value_params<D: Dialect>(&self, dialect: D) {
        assert(<HNil as HList>::width() == 0);
    }
}

impl<K: ExprKind> AssignmentValueNode for RuntimeAssignmentValue<K> {
    type Params = HCons<K::Value, HNil>;

    open spec fn binds(&self) -> nat {
        1
    }

    fn param_count(&self) -> (count: usize) {
        1
    }
}

impl<K: ExprKind, B: Backend> RenderAssignmentValue<B> for RuntimeAssignmentValue<K> {
    open spec fn value_tree(&self) -> ValueTree<Bound<B>> {
        ValueTree::Runtime
    }

    fn lower_value(&self) -> (value: ValueTree<Bound<B>>) {
        ValueTree::Runtime
    }

    proof fn lemma_value_params<D: Dialect>(&self, dialect: D) {
        let slot = seq![Token::<Bound<B>>::Runtime];
        assert(slot.drop_last() =~= Seq::empty());
        reveal_with_fuel(tokens::runtimes, 2);
        assert(tokens::runtimes(slot) == 1);
        assert(<HNil as HList>::width() == 0);
        assert(<HCons<K::Value, HNil> as HList>::width() == 1);
    }
}

impl<'scope, K, Ast: ExprAst> AssignmentValueNode for ExprAssignmentValue<'scope, K, Ast> {
    type Params = Ast::Params;

    open spec fn binds(&self) -> nat {
        <Ast::Params as HList>::width()
    }

    fn param_count(&self) -> (count: usize) {
        <Ast::Params as HList>::len()
    }
}

impl<'scope, K, Ast: RenderAst<B>, B: Backend> RenderAssignmentValue<B> for ExprAssignmentValue<
    'scope,
    K,
    Ast,
> {
    open spec fn value_tree(&self) -> ValueTree<Bound<B>> {
        ValueTree::Expr(self.expr.ast.tree())
    }

    fn lower_value(&self) -> (value: ValueTree<Bound<B>>) {
        ValueTree::Expr(self.expr.ast.lower())
    }

    proof fn lemma_value_params<D: Dialect>(&self, dialect: D) {
        self.expr.ast.lemma_params(dialect, false);
    }
}

/// What a column that is not nullable can be updated to.
pub trait IntoAssignmentValue<K: ColumnKey>: Sized {
    type Value: AssignmentValueNode;

    /// Whether `value` is what the column is assigned.
    spec fn assigns(self, value: Self::Value) -> bool;

    fn into_assignment_value(self) -> (value: Self::Value)
        ensures
            self.assigns(value),
    ;
}

/// What a nullable column can be updated to.
pub trait IntoNullableAssignmentValue<K: ColumnKey>: Sized {
    type Value: AssignmentValueNode;

    /// Whether `value` is what the column is assigned.
    spec fn assigns(self, value: Self::Value) -> bool;

    fn into_nullable_assignment_value(self) -> (value: Self::Value)
        ensures
            self.assigns(value),
    ;
}

/// What can be inserted into a column that is not nullable.
pub trait IntoInsertAssignmentValue<K: ColumnKey>: Sized {
    type Value: AssignmentValueNode;

    /// Whether `value` is what the column is assigned.
    spec fn assigns(self, value: Self::Value) -> bool;

    fn into_insert_assignment_value(self) -> (value: Self::Value)
        ensures
            self.assigns(value),
    ;
}

/// What can be inserted into a nullable column.
pub trait IntoNullableInsertAssignmentValue<K: ColumnKey>: Sized {
    type Value: AssignmentValueNode;

    /// Whether `value` is what the column is assigned.
    spec fn assigns(self, value: Self::Value) -> bool;

    fn into_nullable_insert_assignment_value(self) -> (value: Self::Value)
        ensures
            self.assigns(value),
    ;
}

impl<K: ColumnKey, V: ExprKind<Value = V> + Duplicate> IntoAssignmentValue<K> for V {
    type Value = StaticAssignmentValue<V>;

    open spec fn assigns(self, value: Self::Value) -> bool {
        value.value == self
    }

    fn into_assignment_value(self) -> (value: Self::Value) {
        StaticAssignmentValue::new(self)
    }
}

impl<K: ColumnKey<Value = String>> IntoAssignmentValue<K> for &str {
    type Value = StaticAssignmentValue<String>;

    open spec fn assigns(self, value: Self::Value) -> bool {
        value.value@ == self@
    }

    fn into_assignment_value(self) -> (value: Self::Value) {
        StaticAssignmentValue::new(String::from_str(self))
    }
}

impl<K: ColumnKey<Value = String>> IntoAssignmentValue<K> for &String {
    type Value = StaticAssignmentValue<String>;

    open spec fn assigns(self, value: Self::Value) -> bool {
        value.value@ == self@
    }

    fn into_assignment_value(self) -> (value: Self::Value) {
        StaticAssignmentValue::new(self.duplicate())
    }
}

impl<K: ColumnKey<Value = Blob>> IntoAssignmentValue<K> for &Blob {
    type Value = StaticAssignmentValue<Blob>;

    open spec fn assigns(self, value: Self::Value) -> bool {
        value.value == *self
    }

    fn into_assignment_value(self) -> (value: Self::Value) {
        StaticAssignmentValue::new(self.duplicate())
    }
}

impl<K: ColumnKey<Value = Blob>> IntoAssignmentValue<K> for &[u8] {
    type Value = StaticAssignmentValue<Blob>;

    open spec fn assigns(self, value: Self::Value) -> bool {
        value.value.bytes.seq() == self@
    }

    fn into_assignment_value(self) -> (value: Self::Value) {
        StaticAssignmentValue::new(Blob::from_slice(self))
    }
}

impl<K: ColumnKey> IntoAssignmentValue<K> for DefaultValueNode {
    type Value = DefaultAssignmentValue;

    open spec fn assigns(self, value: Self::Value) -> bool {
        true
    }

    fn into_assignment_value(self) -> (value: Self::Value) {
        DefaultAssignmentValue
    }
}

impl<'scope, K: ColumnKey, ExprK: ExprKind<Value = K::Value>, Ast: ExprAst + NonAggregateAst> IntoAssignmentValue<K> for Expr<'scope, ExprK, Ast> {
    type Value = ExprAssignmentValue<'scope, ExprK, Ast>;

    open spec fn assigns(self, value: Self::Value) -> bool {
        value.expr == self
    }

    fn into_assignment_value(self) -> (value: Self::Value) {
        ExprAssignmentValue::new(self)
    }
}

impl<'scope, K: ColumnKey, ExprK: ExprKind<Value = K::Value>> IntoAssignmentValue<K> for ColumnRef<'scope, ExprK> {
    type Value = ExprAssignmentValue<'scope, ExprK, ColumnExprAst<ExprK>>;

    open spec fn assigns(self, value: Self::Value) -> bool {
        value.expr.ast == self.ast()
    }

    fn into_assignment_value(self) -> (value: Self::Value) {
        ExprAssignmentValue::new(self.into_expr())
    }
}

impl<K: ColumnKey<Value = i8>> IntoNullableAssignmentValue<K> for i8 {
    type Value = StaticAssignmentValue<i8>;

    open spec fn assigns(self, value: Self::Value) -> bool {
        value.value == self
    }

    fn into_nullable_assignment_value(self) -> (value: Self::Value) {
        StaticAssignmentValue::new(self)
    }
}

impl<K: ColumnKey<Value = i16>> IntoNullableAssignmentValue<K> for i16 {
    type Value = StaticAssignmentValue<i16>;

    open spec fn assigns(self, value: Self::Value) -> bool {
        value.value == self
    }

    fn into_nullable_assignment_value(self) -> (value: Self::Value) {
        StaticAssignmentValue::new(self)
    }
}

impl<K: ColumnKey<Value = i32>> IntoNullableAssignmentValue<K> for i32 {
    type Value = StaticAssignmentValue<i32>;

    open spec fn assigns(self, value: Self::Value) -> bool {
        value.value == self
    }

    fn into_nullable_assignment_value(self) -> (value: Self::Value) {
        StaticAssignmentValue::new(self)
    }
}

impl<K: ColumnKey<Value = i64>> IntoNullableAssignmentValue<K> for i64 {
    type Value = StaticAssignmentValue<i64>;

    open spec fn assigns(self, value: Self::Value) -> bool {
        value.value == self
    }

    fn into_nullable_assignment_value(self) -> (value: Self::Value) {
        StaticAssignmentValue::new(self)
    }
}

impl<K: ColumnKey<Value = i128>> IntoNullableAssignmentValue<K> for i128 {
    type Value = StaticAssignmentValue<i128>;

    open spec fn assigns(self, value: Self::Value) -> bool {
        value.value == self
    }

    fn into_nullable_assignment_value(self) -> (value: Self::Value) {
        StaticAssignmentValue::new(self)
    }
}

impl<K: ColumnKey<Value = isize>> IntoNullableAssignmentValue<K> for isize {
    type Value = StaticAssignmentValue<isize>;

    open spec fn assigns(self, value: Self::Value) -> bool {
        value.value == self
    }

    fn into_nullable_assignment_value(self) -> (value: Self::Value) {
        StaticAssignmentValue::new(self)
    }
}

impl<K: ColumnKey<Value = u8>> IntoNullableAssignmentValue<K> for u8 {
    type Value = StaticAssignmentValue<u8>;

    open spec fn assigns(self, value: Self::Value) -> bool {
        value.value == self
    }

    fn into_nullable_assignment_value(self) -> (value: Self::Value) {
        StaticAssignmentValue::new(self)
    }
}

impl<K: ColumnKey<Value = u16>> IntoNullableAssignmentValue<K> for u16 {
    type Value = StaticAssignmentValue<u16>;

    open spec fn assigns(self, value: Self::Value) -> bool {
        value.value == self
    }

    fn into_nullable_assignment_value(self) -> (value: Self::Value) {
        StaticAssignmentValue::new(self)
    }
}

impl<K: ColumnKey<Value = u32>> IntoNullableAssignmentValue<K> for u32 {
    type Value = StaticAssignmentValue<u32>;

    open spec fn assigns(self, value: Self::Value) -> bool {
        value.value == self
    }

    fn into_nullable_assignment_value(self) -> (value: Self::Value) {
        StaticAssignmentValue::new(self)
    }
}

impl<K: ColumnKey<Value = u64>> IntoNullableAssignmentValue<K> for u64 {
    type Value = StaticAssignmentValue<u64>;

    open spec fn assigns(self, value: Self::Value) -> bool {
        value.value == self
    }

    fn into_nullable_assignment_value(self) -> (value: Self::Value) {
        StaticAssignmentValue::new(self)
    }
}

impl<K: ColumnKey<Value = u128>> IntoNullableAssignmentValue<K> for u128 {
    type Value = StaticAssignmentValue<u128>;

    open spec fn assigns(self, value: Self::Value) -> bool {
        value.value == self
    }

    fn into_nullable_assignment_value(self) -> (value: Self::Value) {
        StaticAssignmentValue::new(self)
    }
}

impl<K: ColumnKey<Value = usize>> IntoNullableAssignmentValue<K> for usize {
    type Value = StaticAssignmentValue<usize>;

    open spec fn assigns(self, value: Self::Value) -> bool {
        value.value == self
    }

    fn into_nullable_assignment_value(self) -> (value: Self::Value) {
        StaticAssignmentValue::new(self)
    }
}

impl<K: ColumnKey<Value = Float32>> IntoNullableAssignmentValue<K> for Float32 {
    type Value = StaticAssignmentValue<Float32>;

    open spec fn assigns(self, value: Self::Value) -> bool {
        value.value == self
    }

    fn into_nullable_assignment_value(self) -> (value: Self::Value) {
        StaticAssignmentValue::new(self)
    }
}

impl<K: ColumnKey<Value = Float64>> IntoNullableAssignmentValue<K> for Float64 {
    type Value = StaticAssignmentValue<Float64>;

    open spec fn assigns(self, value: Self::Value) -> bool {
        value.value == self
    }

    fn into_nullable_assignment_value(self) -> (value: Self::Value) {
        StaticAssignmentValue::new(self)
    }
}

impl<K: ColumnKey<Value = String>> IntoNullableAssignmentValue<K> for String {
    type Value = StaticAssignmentValue<String>;

    open spec fn assigns(self, value: Self::Value) -> bool {
        value.value == self
    }

    fn into_nullable_assignment_value(self) -> (value: Self::Value) {
        StaticAssignmentValue::new(self)
    }
}

impl<K: ColumnKey<Value = bool>> IntoNullableAssignmentValue<K> for bool {
    type Value = StaticAssignmentValue<bool>;

    open spec fn assigns(self, value: Self::Value) -> bool {
        value.value == self
    }

    fn into_nullable_assignment_value(self) -> (value: Self::Value) {
        StaticAssignmentValue::new(self)
    }
}

impl<K: ColumnKey<Value = Blob>> IntoNullableAssignmentValue<K> for Blob {
    type Value = StaticAssignmentValue<Blob>;

    open spec fn assigns(self, value: Self::Value) -> bool {
        value.value == self
    }

    fn into_nullable_assignment_value(self) -> (value: Self::Value) {
        StaticAssignmentValue::new(self)
    }
}

impl<K: ColumnKey<Value = T>, T: Duplicate> IntoNullableAssignmentValue<K> for Option<T> {
    type Value = StaticAssignmentValue<Option<T>>;

    open spec fn assigns(self, value: Self::Value) -> bool {
        value.value == self
    }

    fn into_nullable_assignment_value(self) -> (value: Self::Value) {
        StaticAssignmentValue::new(self)
    }
}

impl<K: ColumnKey<Value = String>> IntoNullableAssignmentValue<K> for &str {
    type Value = StaticAssignmentValue<String>;

    open spec fn assigns(self, value: Self::Value) -> bool {
        value.value@ == self@
    }

    fn into_nullable_assignment_value(self) -> (value: Self::Value) {
        StaticAssignmentValue::new(String::from_str(self))
    }
}

impl<K: ColumnKey<Value = String>> IntoNullableAssignmentValue<K> for &String {
    type Value = StaticAssignmentValue<String>;

    open spec fn assigns(self, value: Self::Value) -> bool {
        value.value@ == self@
    }

    fn into_nullable_assignment_value(self) -> (value: Self::Value) {
        StaticAssignmentValue::new(self.duplicate())
    }
}

impl<K: ColumnKey<Value = Blob>> IntoNullableAssignmentValue<K> for &Blob {
    type Value = StaticAssignmentValue<Blob>;

    open spec fn assigns(self, value: Self::Value) -> bool {
        value.value == *self
    }

    fn into_nullable_assignment_value(self) -> (value: Self::Value) {
        StaticAssignmentValue::new(self.duplicate())
    }
}

impl<K: ColumnKey<Value = Blob>> IntoNullableAssignmentValue<K> for &[u8] {
    type Value = StaticAssignmentValue<Blob>;

    open spec fn assigns(self, value: Self::Value) -> bool {
        value.value.bytes.seq() == self@
    }

    fn into_nullable_assignment_value(self) -> (value: Self::Value) {
        StaticAssignmentValue::new(Blob::from_slice(self))
    }
}

impl<K: ColumnKey> IntoNullableAssignmentValue<K> for DefaultValueNode {
    type Value = DefaultAssignmentValue;

    open spec fn assigns(self, value: Self::Value) -> bool {
        true
    }

    fn into_nullable_assignment_value(self) -> (value: Self::Value) {
        DefaultAssignmentValue
    }
}

impl<'scope, K: ColumnKey, ExprK: ExprKind<Value = K::Value>, Ast: ExprAst + NonAggregateAst> IntoNullableAssignmentValue<K> for Expr<'scope, ExprK, Ast> {
    type Value = ExprAssignmentValue<'scope, ExprK, Ast>;

    open spec fn assigns(self, value: Self::Value) -> bool {
        value.expr == self
    }

    fn into_nullable_assignment_value(self) -> (value: Self::Value) {
        ExprAssignmentValue::new(self)
    }
}

impl<'scope, K: ColumnKey, ExprK: ExprKind<Value = K::Value>> IntoNullableAssignmentValue<K> for ColumnRef<'scope, ExprK> {
    type Value = ExprAssignmentValue<'scope, ExprK, ColumnExprAst<ExprK>>;

    open spec fn assigns(self, value: Self::Value) -> bool {
        value.expr.ast == self.ast()
    }

    fn into_nullable_assignment_value(self) -> (value: Self::Value) {
        ExprAssignmentValue::new(self.into_expr())
    }
}

impl<K: ColumnKey, V: ExprKind<Value = V> + Duplicate> IntoInsertAssignmentValue<K> for V {
    type Value = StaticAssignmentValue<V>;

    open spec fn assigns(self, value: Self::Value) -> bool {
        value.value == self
    }

    fn into_insert_assignment_value(self) -> (value: Self::Value) {
        StaticAssignmentValue::new(self)
    }
}

impl<K: ColumnKey<Value = String>> IntoInsertAssignmentValue<K> for &str {
    type Value = StaticAssignmentValue<String>;

    open spec fn assigns(self, value: Self::Value) -> bool {
        value.value@ == self@
    }

    fn into_insert_assignment_value(self) -> (value: Self::Value) {
        StaticAssignmentValue::new(String::from_str(self))
    }
}

impl<K: ColumnKey<Value = String>> IntoInsertAssignmentValue<K> for &String {
    type Value = StaticAssignmentValue<String>;

    open spec fn assigns(self, value: Self::Value) -> bool {
        value.value@ == self@
    }

    fn into_insert_assignment_value(self) -> (value: Self::Value) {
        StaticAssignmentValue::new(self.duplicate())
    }
}

impl<K: ColumnKey<Value = Blob>> IntoInsertAssignmentValue<K> for &Blob {
    type Value = StaticAssignmentValue<Blob>;

    open spec fn assigns(self, value: Self::Value) -> bool {
        value.value == *self
    }

    fn into_insert_assignment_value(self) -> (value: Self::Value) {
        StaticAssignmentValue::new(self.duplicate())
    }
}

impl<K: ColumnKey<Value = Blob>> IntoInsertAssignmentValue<K> for &[u8] {
    type Value = StaticAssignmentValue<Blob>;

    open spec fn assigns(self, value: Self::Value) -> bool {
        value.value.bytes.seq() == self@
    }

    fn into_insert_assignment_value(self) -> (value: Self::Value) {
        StaticAssignmentValue::new(Blob::from_slice(self))
    }
}

impl<K: ColumnKey> IntoInsertAssignmentValue<K> for DefaultValueNode {
    type Value = DefaultAssignmentValue;

    open spec fn assigns(self, value: Self::Value) -> bool {
        true
    }

    fn into_insert_assignment_value(self) -> (value: Self::Value) {
        DefaultAssignmentValue
    }
}

impl<'scope, K: ColumnKey> IntoInsertAssignmentValue<K> for Expr<'scope, RuntimeParam<K>, ParamExprAst<K>> {
    type Value = RuntimeAssignmentValue<K>;

    open spec fn assigns(self, value: Self::Value) -> bool {
        true
    }

    fn into_insert_assignment_value(self) -> (value: Self::Value) {
        RuntimeAssignmentValue::new()
    }
}

impl<K: ColumnKey<Value = i8>> IntoNullableInsertAssignmentValue<K> for i8 {
    type Value = StaticAssignmentValue<i8>;

    open spec fn assigns(self, value: Self::Value) -> bool {
        value.value == self
    }

    fn into_nullable_insert_assignment_value(self) -> (value: Self::Value) {
        StaticAssignmentValue::new(self)
    }
}

impl<K: ColumnKey<Value = i16>> IntoNullableInsertAssignmentValue<K> for i16 {
    type Value = StaticAssignmentValue<i16>;

    open spec fn assigns(self, value: Self::Value) -> bool {
        value.value == self
    }

    fn into_nullable_insert_assignment_value(self) -> (value: Self::Value) {
        StaticAssignmentValue::new(self)
    }
}

impl<K: ColumnKey<Value = i32>> IntoNullableInsertAssignmentValue<K> for i32 {
    type Value = StaticAssignmentValue<i32>;

    open spec fn assigns(self, value: Self::Value) -> bool {
        value.value == self
    }

    fn into_nullable_insert_assignment_value(self) -> (value: Self::Value) {
        StaticAssignmentValue::new(self)
    }
}

impl<K: ColumnKey<Value = i64>> IntoNullableInsertAssignmentValue<K> for i64 {
    type Value = StaticAssignmentValue<i64>;

    open spec fn assigns(self, value: Self::Value) -> bool {
        value.value == self
    }

    fn into_nullable_insert_assignment_value(self) -> (value: Self::Value) {
        StaticAssignmentValue::new(self)
    }
}

impl<K: ColumnKey<Value = i128>> IntoNullableInsertAssignmentValue<K> for i128 {
    type Value = StaticAssignmentValue<i128>;

    open spec fn assigns(self, value: Self::Value) -> bool {
        value.value == self
    }

    fn into_nullable_insert_assignment_value(self) -> (value: Self::Value) {
        StaticAssignmentValue::new(self)
    }
}

impl<K: ColumnKey<Value = isize>> IntoNullableInsertAssignmentValue<K> for isize {
    type Value = StaticAssignmentValue<isize>;

    open spec fn assigns(self, value: Self::Value) -> bool {
        value.value == self
    }

    fn into_nullable_insert_assignment_value(self) -> (value: Self::Value) {
        StaticAssignmentValue::new(self)
    }
}

impl<K: ColumnKey<Value = u8>> IntoNullableInsertAssignmentValue<K> for u8 {
    type Value = StaticAssignmentValue<u8>;

    open spec fn assigns(self, value: Self::Value) -> bool {
        value.value == self
    }

    fn into_nullable_insert_assignment_value(self) -> (value: Self::Value) {
        StaticAssignmentValue::new(self)
    }
}

impl<K: ColumnKey<Value = u16>> IntoNullableInsertAssignmentValue<K> for u16 {
    type Value = StaticAssignmentValue<u16>;

    open spec fn assigns(self, value: Self::Value) -> bool {
        value.value == self
    }

    fn into_nullable_insert_assignment_value(self) -> (value: Self::Value) {
        StaticAssignmentValue::new(self)
    }
}

impl<K: ColumnKey<Value = u32>> IntoNullableInsertAssignmentValue<K> for u32 {
    type Value = StaticAssignmentValue<u32>;

    open spec fn assigns(self, value: Self::Value) -> bool {
        value.value == self
    }

    fn into_nullable_insert_assignment_value(self) -> (value: Self::Value) {
        StaticAssignmentValue::new(self)
    }
}

impl<K: ColumnKey<Value = u64>> IntoNullableInsertAssignmentValue<K> for u64 {
    type Value = StaticAssignmentValue<u64>;

    open spec fn assigns(self, value: Self::Value) -> bool {
        value.value == self
    }

    fn into_nullable_insert_assignment_value(self) -> (value: Self::Value) {
        StaticAssignmentValue::new(self)
    }
}

impl<K: ColumnKey<Value = u128>> IntoNullableInsertAssignmentValue<K> for u128 {
    type Value = StaticAssignmentValue<u128>;

    open spec fn assigns(self, value: Self::Value) -> bool {
        value.value == self
    }

    fn into_nullable_insert_assignment_value(self) -> (value: Self::Value) {
        StaticAssignmentValue::new(self)
    }
}

impl<K: ColumnKey<Value = usize>> IntoNullableInsertAssignmentValue<K> for usize {
    type Value = StaticAssignmentValue<usize>;

    open spec fn assigns(self, value: Self::Value) -> bool {
        value.value == self
    }

    fn into_nullable_insert_assignment_value(self) -> (value: Self::Value) {
        StaticAssignmentValue::new(self)
    }
}

impl<K: ColumnKey<Value = Float32>> IntoNullableInsertAssignmentValue<K> for Float32 {
    type Value = StaticAssignmentValue<Float32>;

    open spec fn assigns(self, value: Self::Value) -> bool {
        value.value == self
    }

    fn into_nullable_insert_assignment_value(self) -> (value: Self::Value) {
        StaticAssignmentValue::new(self)
    }
}

impl<K: ColumnKey<Value = Float64>> IntoNullableInsertAssignmentValue<K> for Float64 {
    type Value = StaticAssignmentValue<Float64>;

    open spec fn assigns(self, value: Self::Value) -> bool {
        value.value == self
    }

    fn into_nullable_insert_assignment_value(self) -> (value: Self::Value) {
        StaticAssignmentValue::new(self)
    }
}

impl<K: ColumnKey<Value = String>> IntoNullableInsertAssignmentValue<K> for String {
    type Value = StaticAssignmentValue<String>;

    open spec fn assigns(self, value: Self::Value) -> bool {
        value.value == self
    }

    fn into_nullable_insert_assignment_value(self) -> (value: Self::Value) {
        StaticAssignmentValue::new(self)
    }
}

impl<K: ColumnKey<Value = bool>> IntoNullableInsertAssignmentValue<K> for bool {
    type Value = StaticAssignmentValue<bool>;

    open spec fn assigns(self, value: Self::Value) -> bool {
        value.value == self
    }

    fn into_nullable_insert_assignment_value(self) -> (value: Self::Value) {
        StaticAssignmentValue::new(self)
    }
}

impl<K: ColumnKey<Value = Blob>> IntoNullableInsertAssignmentValue<K> for Blob {
    type Value = StaticAssignmentValue<Blob>;

    open spec fn assigns(self, value: Self::Value) -> bool {
        value.value == self
    }

    fn into_nullable_insert_assignment_value(self) -> (value: Self::Value) {
        StaticAssignmentValue::new(self)
    }
}

impl<K: ColumnKey<Value = T>, T: Duplicate> IntoNullableInsertAssignmentValue<K> for Option<T> {
    type Value = StaticAssignmentValue<Option<T>>;

    open spec fn assigns(self, value: Self::Value) -> bool {
        value.value == self
    }

    fn into_nullable_insert_assignment_value(self) -> (value: Self::Value) {
        StaticAssignmentValue::new(self)
    }
}

impl<K: ColumnKey<Value = String>> IntoNullableInsertAssignmentValue<K> for &str {
    type Value = StaticAssignmentValue<String>;

    open spec fn assigns(self, value: Self::Value) -> bool {
        value.value@ == self@
    }

    fn into_nullable_insert_assignment_value(self) -> (value: Self::Value) {
        StaticAssignmentValue::new(String::from_str(self))
    }
}

impl<K: ColumnKey<Value = String>> IntoNullableInsertAssignmentValue<K> for &String {
    type Value = StaticAssignmentValue<String>;

    open spec fn assigns(self, value: Self::Value) -> bool {
        value.value@ == self@
    }

    fn into_nullable_insert_assignment_value(self) -> (value: Self::Value) {
        StaticAssignmentValue::new(self.duplicate())
    }
}

impl<K: ColumnKey<Value = Blob>> IntoNullableInsertAssignmentValue<K> for &Blob {
    type Value = StaticAssignmentValue<Blob>;

    open spec fn assigns(self, value: Self::Value) -> bool {
        value.value == *self
    }

    fn into_nullable_insert_assignment_value(self) -> (value: Self::Value) {
        StaticAssignmentValue::new(self.duplicate())
    }
}

impl<K: ColumnKey<Value = Blob>> IntoNullableInsertAssignmentValue<K> for &[u8] {
    type Value = StaticAssignmentValue<Blob>;

    open spec fn assigns(self, value: Self::Value) -> bool {
        value.value.bytes.seq() == self@
    }

    fn into_nullable_insert_assignment_value(self) -> (value: Self::Value) {
        StaticAssignmentValue::new(Blob::from_slice(self))
    }
}

impl<K: ColumnKey> IntoNullableInsertAssignmentValue<K> for DefaultValueNode {
    type Value = DefaultAssignmentValue;

    open spec fn assigns(self, value: Self::Value) -> bool {
        true
    }

    fn into_nullable_insert_assignment_value(self) -> (value: Self::Value) {
        DefaultAssignmentValue
    }
}

impl<'scope, K: ColumnKey> IntoNullableInsertAssignmentValue<K> for Expr<'scope, RuntimeParam<K>, ParamExprAst<K>> {
    type Value = RuntimeAssignmentValue<K>;

    open spec fn assigns(self, value: Self::Value) -> bool {
        true
    }

    fn into_nullable_insert_assignment_value(self) -> (value: Self::Value) {
        RuntimeAssignmentValue::new()
    }
}

/// Turns a value into what a column of this nullability is assigned by an `INSERT`.
pub trait IntoInsertColumnValue<K: ColumnKey, Value> {
    type AssignmentValue: AssignmentValueNode;

    spec fn inserts(value: Value, assigned: Self::AssignmentValue) -> bool;

    fn into_insert_column_value(value: Value) -> (assigned: Self::AssignmentValue)
        ensures
            Self::inserts(value, assigned),
    ;
}

impl<K: ColumnKey, Value: IntoInsertAssignmentValue<K>> IntoInsertColumnValue<K, Value> for NonNullableColumn {
    type AssignmentValue = <Value as IntoInsertAssignmentValue<K>>::Value;

    open spec fn inserts(value: Value, assigned: Self::AssignmentValue) -> bool {
        <Value as IntoInsertAssignmentValue<K>>::assigns(value, assigned)
    }

    fn into_insert_column_value(value: Value) -> (assigned: Self::AssignmentValue) {
        <Value as IntoInsertAssignmentValue<K>>::into_insert_assignment_value(value)
    }
}

impl<K: ColumnKey, Value: IntoNullableInsertAssignmentValue<K>> IntoInsertColumnValue<K, Value> for NullableColumn {
    type AssignmentValue = <Value as IntoNullableInsertAssignmentValue<K>>::Value;

    open spec fn inserts(value: Value, assigned: Self::AssignmentValue) -> bool {
        <Value as IntoNullableInsertAssignmentValue<K>>::assigns(value, assigned)
    }

    fn into_insert_column_value(value: Value) -> (assigned: Self::AssignmentValue) {
        <Value as IntoNullableInsertAssignmentValue<K>>::into_nullable_insert_assignment_value(value)
    }
}

/// Turns a value into what a column of this nullability is assigned by an `UPDATE`.
pub trait IntoUpdateColumnValue<K: ColumnKey, Value> {
    type AssignmentValue: AssignmentValueNode;

    spec fn updates(value: Value, assigned: Self::AssignmentValue) -> bool;

    fn into_update_column_value(value: Value) -> (assigned: Self::AssignmentValue)
        ensures
            Self::updates(value, assigned),
    ;
}

impl<K: ColumnKey, Value: IntoAssignmentValue<K>> IntoUpdateColumnValue<K, Value> for NonNullableColumn {
    type AssignmentValue = <Value as IntoAssignmentValue<K>>::Value;

    open spec fn updates(value: Value, assigned: Self::AssignmentValue) -> bool {
        <Value as IntoAssignmentValue<K>>::assigns(value, assigned)
    }

    fn into_update_column_value(value: Value) -> (assigned: Self::AssignmentValue) {
        <Value as IntoAssignmentValue<K>>::into_assignment_value(value)
    }
}

impl<K: ColumnKey, Value: IntoNullableAssignmentValue<K>> IntoUpdateColumnValue<K, Value> for NullableColumn {
    type AssignmentValue = <Value as IntoNullableAssignmentValue<K>>::Value;

    open spec fn updates(value: Value, assigned: Self::AssignmentValue) -> bool {
        <Value as IntoNullableAssignmentValue<K>>::assigns(value, assigned)
    }

    fn into_update_column_value(value: Value) -> (assigned: Self::AssignmentValue) {
        <Value as IntoNullableAssignmentValue<K>>::into_nullable_assignment_value(value)
    }
}

/// The assignment of one column.
pub trait AssignmentNode {
    type Params: HList;

    spec fn column_name(&self) -> &'static str;

    spec fn binds(&self) -> nat;

    fn column(&self) -> (column: &'static str)
        ensures
            column == self.column_name(),
    ;

    fn param_count(&self) -> (count: usize)
        requires
            self.binds() <= usize::MAX,
        ensures
            count == self.binds(),
    ;
}

/// How an assignment lowers for a backend.
pub trait RenderAssignment<B: Backend>: AssignmentNode {
    spec fn assignment_tree(&self) -> AssignmentTree<Bound<B>>;

    fn lower_assignment(&self) -> (assignment: AssignmentTree<Bound<B>>)
        ensures
            assignment == self.assignment_tree(),
    ;

    /// The parameter shape has one entry for each runtime parameter that is written.
    proof fn lemma_assignment_params<D: Dialect>(&self, dialect: D)
        ensures
            self.assignment_tree().column@ == self.column_name()@,
            tokens::runtimes(grammar::value_tokens(dialect, self.assignment_tree().value))
                == <Self::Params as HList>::width(),
    ;
}

/// The assignment of one column of an insert row.
pub trait InsertAssignmentNode: AssignmentNode {

}

/// The assignment of one column of an update.
pub trait UpdateAssignmentNode: AssignmentNode {

}

/// The typed assignment of one column of an insert row.
pub struct InsertAssignment<K, Value> {
    pub value: Value,
    pub _column: PhantomData<K>,
}

impl<K: ColumnKey, Value: AssignmentValueNode> InsertAssignment<K, Value> {
    pub fn new(value: Value) -> (assignment: Self)
        ensures
            assignment.value == value,
    {
        InsertAssignment { value, _column: PhantomData }
    }
}

impl<K: ColumnKey, Value: AssignmentValueNode> AssignmentNode for InsertAssignment<K, Value> {
    type Params = Value::Params;

    open spec fn column_name(&self) -> &'static str {
        K::NAME
    }

    open spec fn binds(&self) -> nat {
        self.value.binds()
    }

    fn column(&self) -> (column: &'static str) {
        K::NAME
    }

    fn param_count(&self) -> (count: usize) {
        self.value.param_count()
    }
}

impl<K: ColumnKey, Value: RenderAssignmentValue<B>, B: Backend> RenderAssignment<
    B,
> for InsertAssignment<K, Value> {
    open spec fn assignment_tree(&self) -> AssignmentTree<Bound<B>> {
        AssignmentTree { column: Label::Static(K::NAME), value: self.value.value_tree() }
    }

    fn lower_assignment(&self) -> (assignment: AssignmentTree<Bound<B>>) {
        AssignmentTree { column: Label::Static(K::NAME), value: self.value.lower_value() }
    }

    proof fn lemma_assignment_params<D: Dialect>(&self, dialect: D) {
        self.value.lemma_value_params(dialect);
    }
}

impl<K: ColumnKey, Value: AssignmentValueNode> InsertAssignmentNode for InsertAssignment<
    K,
    Value,
> {

}

/// The typed assignment of one column of an update.
pub struct UpdateAssignment<K, Value> {
    pub value: Value,
    pub _column: PhantomData<K>,
}

impl<K: ColumnKey, Value: AssignmentValueNode> UpdateAssignment<K, Value> {
    pub fn new(value: Value) -> (assignment: Self)
        ensures
            assignment.value == value,
    {
        UpdateAssignment { value, _column: PhantomData }
    }
}

impl<K: ColumnKey, Value: AssignmentValueNode> AssignmentNode for UpdateAssignment<K, Value> {
    type Params = Value::Params;

    open spec fn column_name(&self) -> &'static str {
        K::NAME
    }

    open spec fn binds(&self) -> nat {
        self.value.binds()
    }

    fn column(&self) -> (column: &'static str) {
        K::NAME
    }

    fn param_count(&self) -> (count: usize) {
        self.value.param_count()
    }
}

impl<K: ColumnKey, Value: RenderAssignmentValue<B>, B: Backend> RenderAssignment<
    B,
> for UpdateAssignment<K, Value> {
    open spec fn assignment_tree(&self) -> AssignmentTree<Bound<B>> {
        AssignmentTree { column: Label::Static(K::NAME), value: self.value.value_tree() }
    }

    fn lower_assignment(&self) -> (assignment: AssignmentTree<Bound<B>>) {
        AssignmentTree { column: Label::Static(K::NAME), value: self.value.lower_value() }
    }

    proof fn lemma_assignment_params<D: Dialect>(&self, dialect: D) {
        self.value.lemma_value_params(dialect);
    }
}

impl<K: ColumnKey, Value: AssignmentValueNode> UpdateAssignmentNode for UpdateAssignment<
    K,
    Value,
> {

}

/// The assignments of one insert row.
pub trait InsertAssignments {
    type Params: HList;

    /// The assigned columns.
    spec fn names(&self) -> Seq<&'static str>;

    spec fn binds(&self) -> nat;

    fn len(&self) -> (len: usize)
        requires
            self.names().len() <= usize::MAX,
        ensures
            len == self.names().len(),
    ;

    fn is_empty(&self) -> (empty: bool)
        ensures
            empty == (self.names().len() == 0),
    ;

    /// Adds the names of the assigned columns, in their order.
    fn collect_columns(&self, columns: &mut Vec<&'static str>)
        ensures
            final(columns)@ == old(columns)@ + self.names(),
    ;

    fn param_count(&self) -> (count: usize)
        requires
            self.binds() <= usize::MAX,
        ensures
            count == self.binds(),
    ;
}

/// How the assignments of a row lower for a backend.
pub trait RenderInsertAssignments<B: Backend>: InsertAssignments {
    spec fn assignments(&self) -> List<AssignmentTree<Bound<B>>>;

    fn lower_assignments(&self) -> (assignments: List<AssignmentTree<Bound<B>>>)
        ensures
            assignments == self.assignments(),
    ;

    /// The parameter shape has one entry for each runtime parameter that is written.
    proof fn lemma_assignments_params<D: Dialect>(&self, dialect: D, first: bool)
        ensures
            tokens::runtimes(grammar::row_values_tokens(dialect, first, self.assignments()))
                == <Self::Params as HList>::width(),
    ;

    /// A row has one value for each of its columns.
    proof fn lemma_assignments_names(&self)
        ensures
            grammar::column_labels(self.assignments()).seq().len() == self.names().len(),
            self.assignments().seq().len() == self.names().len(),
    ;
}

impl InsertAssignments for HNil {
    type Params = HNil;

    open spec fn names(&self) -> Seq<&'static str> {
        Seq::empty()
    }

    open spec fn binds(&self) -> nat {
        0
    }

    fn len(&self) -> (len: usize) {
        0
    }

    fn is_empty(&self) -> (empty: bool) {
        true
    }

    fn collect_columns(&self, columns: &mut Vec<&'static str>) {
        assert(columns@ + Seq::empty() =~= columns@);
    }

    fn param_count(&self) -> (count: usize) {
        0
    }
}

impl<B: Backend> RenderInsertAssignments<B> for HNil {
    open spec fn assignments(&self) -> List<AssignmentTree<Bound<B>>> {
        List::Nil
    }

    fn lower_assignments(&self) -> (assignments: List<AssignmentTree<Bound<B>>>) {
        List::Nil
    }

    proof fn lemma_assignments_params<D: Dialect>(&self, dialect: D, first: bool) {
        assert(<HNil as HList>::width() == 0);
    }

    proof fn lemma_assignments_names(&self) {
    }
}

impl<Head: InsertAssignmentNode, Tail: InsertAssignments> InsertAssignments for HCons<
    Head,
    Tail,
> where Head::Params: HAppend<Tail::Params> {
    type Params = <Head::Params as HAppend<Tail::Params>>::Output;

    open spec fn names(&self) -> Seq<&'static str> {
        seq![self.head.column_name()] + self.tail.names()
    }

    open spec fn binds(&self) -> nat {
        self.head.binds() + self.tail.binds()
    }

    fn len(&self) -> (len: usize) {
        1 + self.tail.len()
    }

    fn is_empty(&self) -> (empty: bool) {
        false
    }

    fn collect_columns(&self, columns: &mut Vec<&'static str>) {
        columns.push(self.head.column());
        self.tail.collect_columns(columns);
        assert(columns@ =~= old(columns)@ + (seq![self.head.column_name()] + self.tail.names()));
    }

    fn param_count(&self) -> (count: usize) {
        self.head.param_count() + self.tail.param_count()
    }
}

impl<
    Head: InsertAssignmentNode + RenderAssignment<B>,
    Tail: RenderInsertAssignments<B>,
    B: Backend,
> RenderInsertAssignments<B> for HCons<Head, Tail> where Head::Params: HAppend<Tail::Params> {
    open spec fn assignments(&self) -> List<AssignmentTree<Bound<B>>> {
        List::Cons {
            head: Box::new(self.head.assignment_tree()),
            tail: Box::new(self.tail.assignments()),
        }
    }

    fn lower_assignments(&self) -> (assignments: List<AssignmentTree<Bound<B>>>) {
        List::Cons {
            head: Box::new(self.head.lower_assignment()),
            tail: Box::new(self.tail.lower_assignments()),
        }
    }

    proof fn lemma_assignments_params<D: Dialect>(&self, dialect: D, first: bool) {
        self.head.lemma_assignment_params(dialect);
        self.tail.lemma_assignments_params(dialect, false);
        <Head::Params as HAppend<Tail::Params>>::lemma_append_width();
    }

    proof fn lemma_assignments_names(&self) {
        self.tail.lemma_assignments_names();
    }
}

/// The assignments of one update.
pub trait UpdateAssignments {
    type Params: HList;

    /// The assigned columns.
    spec fn names(&self) -> Seq<&'static str>;

    spec fn binds(&self) -> nat;

    fn len(&self) -> (len: usize)
        requires
            self.names().len() <= usize::MAX,
        ensures
            len == self.names().len(),
    ;

    fn is_empty(&self) -> (empty: bool)
        ensures
            empty == (self.names().len() == 0),
    ;

    /// Adds the names of the assigned columns, in their order.
    fn collect_columns(&self, columns: &mut Vec<&'static str>)
        ensures
            final(columns)@ == old(columns)@ + self.names(),
    ;

    fn param_count(&self) -> (count: usize)
        requires
            self.binds() <= usize::MAX,
        ensures
            count == self.binds(),
    ;
}

/// How the assignments of an update lower for a backend.
pub trait RenderUpdateAssignments<B: Backend>: UpdateAssignments {
    spec fn assignments(&self) -> List<AssignmentTree<Bound<B>>>;

    fn lower_assignments(&self) -> (assignments: List<AssignmentTree<Bound<B>>>)
        ensures
            assignments == self.assignments(),
    ;

    /// The parameter shape has one entry for each runtime parameter that is written.
    proof fn lemma_assignments_params<D: Dialect>(&self, dialect: D, first: bool)
        ensures
            tokens::runtimes(grammar::assignments_tokens(dialect, first, self.assignments()))
                == <Self::Params as HList>::width(),
    ;
}

impl UpdateAssignments for HNil {
    type Params = HNil;

    open spec fn names(&self) -> Seq<&'static str> {
        Seq::empty()
    }

    open spec fn binds(&self) -> nat {
        0
    }

    fn len(&self) -> (len: usize) {
        0
    }

    fn is_empty(&self) -> (empty: bool) {
        true
    }

    fn collect_columns(&self, columns: &mut Vec<&'static str>) {
        assert(columns@ + Seq::empty() =~= columns@);
    }

    fn param_count(&self) -> (count: usize) {
        0
    }
}

impl<B: Backend> RenderUpdateAssignments<B> for HNil {
    open spec fn assignments(&self) -> List<AssignmentTree<Bound<B>>> {
        List::Nil
    }

    fn lower_assignments(&self) -> (assignments: List<AssignmentTree<Bound<B>>>) {
        List::Nil
    }

    proof fn lemma_assignments_params<D: Dialect>(&self, dialect: D, first: bool) {
        assert(<HNil as HList>::width() == 0);
    }
}

impl<Head: UpdateAssignmentNode, Tail: UpdateAssignments> UpdateAssignments for HCons<
    Head,
    Tail,
> where Head::Params: HAppend<Tail::Params> {
    type Params = <Head::Params as HAppend<Tail::Params>>::Output;

    open spec fn names(&self) -> Seq<&'static str> {
        seq![self.head.column_name()] + self.tail.names()
    }

    open spec fn binds(&self) -> nat {
        self.head.binds() + self.tail.binds()
    }

    fn len(&self) -> (len: usize) {
        1 + self.tail.len()
    }

    fn is_empty(&self) -> (empty: bool) {
        false
    }

    fn collect_columns(&self, columns: &mut Vec<&'static str>) {
        columns.push(self.head.column());
        self.tail.collect_columns(columns);
        assert(columns@ =~= old(columns)@ + (seq![self.head.column_name()] + self.tail.names()));
    }

    fn param_count(&self) -> (count: usize) {
        self.head.param_count() + self.tail.param_count()
    }
}

impl<
    Head: UpdateAssignmentNode + RenderAssignment<B>,
    Tail: RenderUpdateAssignments<B>,
    B: Backend,
> RenderUpdateAssignments<B> for HCons<Head, Tail> where Head::Params: HAppend<Tail::Params> {
    open spec fn assignments(&self) -> List<AssignmentTree<Bound<B>>> {
        List::Cons {
            head: Box::new(self.head.assignment_tree()),
            tail: Box::new(self.tail.assignments()),
        }
    }

    fn lower_assignments(&self) -> (assignments: List<AssignmentTree<Bound<B>>>) {
        List::Cons {
            head: Box::new(self.head.lower_assignment()),
            tail: Box::new(self.tail.lower_assignments()),
        }
    }

    proof fn lemma_assignments_params<D: Dialect>(&self, dialect: D, first: bool) {
        self.head.lemma_assignment_params(dialect);
        self.tail.lemma_assignments_params(dialect, false);
        <Head::Params as HAppend<Tail::Params>>::lemma_append_width();
    }
}

/// Turns a tuple of values into the assignments of a fixed tuple of columns.
pub trait InsertColumnValues<S: InsertableTable, Values> {
    type Assignments: InsertAssignments;

    /// The columns of the tuple.
    spec fn column_names() -> Seq<&'static str>;

    /// Whether `assignments` gives each column its value.
    spec fn assigns(values: Values, assignments: Self::Assignments) -> bool;

    fn into_insert_assignments(values: Values) -> (assignments: Self::Assignments)
        ensures
            Self::assigns(values, assignments),
            assignments.names() == Self::column_names(),
    ;
}

impl<S: InsertableTable> InsertColumnValues<S, ()> for () {
    type Assignments = HNil;

    open spec fn column_names() -> Seq<&'static str> {
        Seq::empty()
    }

    open spec fn assigns(values: (), assignments: HNil) -> bool {
        true
    }

    fn into_insert_assignments(values: ()) -> (assignments: HNil) {
        HNil
    }
}

impl<
    S: InsertableTable,
    K0: InsertColumnKey<Table = S>,
    V0,
> InsertColumnValues<S, (V0,)> for (K0,) where
    K0::Nullability: IntoInsertColumnValue<K0, V0>,
    <<K0::Nullability as IntoInsertColumnValue<K0, V0>>::AssignmentValue as AssignmentValueNode>::Params: HAppend<HNil>,
 {
    type Assignments = HCons<InsertAssignment<K0, <K0::Nullability as IntoInsertColumnValue<K0, V0>>::AssignmentValue>, HNil>;

    open spec fn column_names() -> Seq<&'static str> {
        seq![K0::NAME]
    }

    open spec fn assigns(values: (V0,), assignments: Self::Assignments) -> bool {
        &&& <K0::Nullability as IntoInsertColumnValue<K0, V0>>::inserts(values.0, assignments.head.value)
    }

    fn into_insert_assignments(values: (V0,)) -> (assignments: Self::Assignments) {
        let a0 = <K0::Nullability as IntoInsertColumnValue<K0, V0>>::into_insert_column_value(values.0);
        let assignments = HCons { head: InsertAssignment::<K0, _>::new(a0), tail: HNil };
        assert(assignments.names() =~= seq![K0::NAME]);
        assignments
    }
}

impl<
    S: InsertableTable,
    K0: InsertColumnKey<Table = S>,
    K1: InsertColumnKey<Table = S>,
    V0, V1,
> InsertColumnValues<S, (V0, V1)> for (K0, K1) where
    K0::Nullability: IntoInsertColumnValue<K0, V0>,
    K1::Nullability: IntoInsertColumnValue<K1, V1>,
    <<K1::Nullability as IntoInsertColumnValue<K1, V1>>::AssignmentValue as AssignmentValueNode>::Params: HAppend<HNil>,
    <<K0::Nullability as IntoInsertColumnValue<K0, V0>>::AssignmentValue as AssignmentValueNode>::Params: HAppend<<<<K1::Nullability as IntoInsertColumnValue<K1, V1>>::AssignmentValue as AssignmentValueNode>::Params as HAppend<HNil>>::Output>,
 {
    type Assignments = HCons<InsertAssignment<K0, <K0::Nullability as IntoInsertColumnValue<K0, V0>>::AssignmentValue>, HCons<InsertAssignment<K1, <K1::Nullability as IntoInsertColumnValue<K1, V1>>::AssignmentValue>, HNil>>;

    open spec fn column_names() -> Seq<&'static str> {
        seq![K0::NAME, K1::NAME]
    }

    open spec fn assigns(values: (V0, V1), assignments: Self::Assignments) -> bool {
        &&& <K0::Nullability as IntoInsertColumnValue<K0, V0>>::inserts(values.0, assignments.head.value)
        &&& <K1::Nullability as IntoInsertColumnValue<K1, V1>>::inserts(values.1, assignments.tail.head.value)
    }

    fn into_insert_assignments(values: (V0, V1)) -> (assignments: Self::Assignments) {
        let a0 = <K0::Nullability as IntoInsertColumnValue<K0, V0>>::into_insert_column_value(values.0);
        let a1 = <K1::Nullability as IntoInsertColumnValue<K1, V1>>::into_insert_column_value(values.1);
        let assignments = HCons { head: InsertAssignment::<K0, _>::new(a0), tail: HCons { head: InsertAssignment::<K1, _>::new(a1), tail: HNil } };
        assert(assignments.names() =~= seq![K0::NAME, K1::NAME]);
        assignments
    }
}

impl<
    S: InsertableTable,
    K0: InsertColumnKey<Table = S>,
    K1: InsertColumnKey<Table = S>,
    K2: InsertColumnKey<Table = S>,
    V0, V1, V2,
> InsertColumnValues<S, (V0, V1, V2)> for (K0, K1, K2) where
    K0::Nullability: IntoInsertColumnValue<K0, V0>,
    K1::Nullability: IntoInsertColumnValue<K1, V1>,
    K2::Nullability: IntoInsertColumnValue<K2, V2>,
    <<K2::Nullability as IntoInsertColumnValue<K2, V2>>::AssignmentValue as AssignmentValueNode>::Params: HAppend<HNil>,
    <<K1::Nullability as IntoInsertColumnValue<K1, V1>>::AssignmentValue as AssignmentValueNode>::Params: HAppend<<<<K2::Nullability as IntoInsertColumnValue<K2, V2>>::AssignmentValue as AssignmentValueNode>::Params as HAppend<HNil>>::Output>,
    <<K0::Nullability as IntoInsertColumnValue<K0, V0>>::AssignmentValue as AssignmentValueNode>::Params: HAppend<<<<K1::Nullability as IntoInsertColumnValue<K1, V1>>::AssignmentValue as AssignmentValueNode>::Params as HAppend<<<<K2::Nullability as IntoInsertColumnValue<K2, V2>>::AssignmentValue as AssignmentValueNode>::Params as HAppend<HNil>>::Output>>::Output>,
 {
    type Assignments = HCons<InsertAssignment<K0, <K0::Nullability as IntoInsertColumnValue<K0, V0>>::AssignmentValue>, HCons<InsertAssignment<K1, <K1::Nullability as IntoInsertColumnValue<K1, V1>>::AssignmentValue>, HCons<InsertAssignment<K2, <K2::Nullability as IntoInsertColumnValue<K2, V2>>::AssignmentValue>, HNil>>>;

    open spec fn column_names() -> Seq<&'static str> {
        seq![K0::NAME, K1::NAME, K2::NAME]
    }

    open spec fn assigns(values: (V0, V1, V2), assignments: Self::Assignments) -> bool {
        &&& <K0::Nullability as IntoInsertColumnValue<K0, V0>>::inserts(values.0, assignments.head.value)
        &&& <K1::Nullability as IntoInsertColumnValue<K1, V1>>::inserts(values.1, assignments.tail.head.value)
        &&& <K2::Nullability as IntoInsertColumnValue<K2, V2>>::inserts(values.2, assignments.tail.tail.head.value)
    }

    fn into_insert_assignments(values: (V0, V1, V2)) -> (assignments: Self::Assignments) {
        let a0 = <K0::Nullability as IntoInsertColumnValue<K0, V0>>::into_insert_column_value(values.0);
        let a1 = <K1::Nullability as IntoInsertColumnValue<K1, V1>>::into_insert_column_value(values.1);
        let a2 = <K2::Nullability as IntoInsertColumnValue<K2, V2>>::into_insert_column_value(values.2);
        let assignments = HCons { head: InsertAssignment::<K0, _>::new(a0), tail: HCons { head: InsertAssignment::<K1, _>::new(a1), tail: HCons { head: InsertAssignment::<K2, _>::new(a2), tail: HNil } } };
        assert(assignments.names() =~= seq![K0::NAME, K1::NAME, K2::NAME]);
        assignments
    }
}

impl<
    S: InsertableTable,
    K0: InsertColumnKey<Table = S>,
    K1: InsertColumnKey<Table = S>,
    K2: InsertColumnKey<Table = S>,
    K3: InsertColumnKey<Table = S>,
    V0, V1, V2, V3,
> InsertColumnValues<S, (V0, V1, V2, V3)> for (K0, K1, K2, K3) where
    K0::Nullability: IntoInsertColumnValue<K0, V0>,
    K1::Nullability: IntoInsertColumnValue<K1, V1>,
    K2::Nullability: IntoInsertColumnValue<K2, V2>,
    K3::Nullability: IntoInsertColumnValue<K3, V3>,
    <<K3::Nullability as IntoInsertColumnValue<K3, V3>>::AssignmentValue as AssignmentValueNode>::Params: HAppend<HNil>,
    <<K2::Nullability as IntoInsertColumnValue<K2, V2>>::AssignmentValue as AssignmentValueNode>::Params: HAppend<<<<K3::Nullability as IntoInsertColumnValue<K3, V3>>::AssignmentValue as AssignmentValueNode>::Params as HAppend<HNil>>::Output>,
    <<K1::Nullability as IntoInsertColumnValue<K1, V1>>::AssignmentValue as AssignmentValueNode>::Params: HAppend<<<<K2::Nullability as IntoInsertColumnValue<K2, V2>>::AssignmentValue as AssignmentValueNode>::Params as HAppend<<<<K3::Nullability as IntoInsertColumnValue<K3, V3>>::AssignmentValue as AssignmentValueNode>::Params as HAppend<HNil>>::Output>>::Output>,
    <<K0::Nullability as IntoInsertColumnValue<K0, V0>>::AssignmentValue as AssignmentValueNode>::Params: HAppend<<<<K1::Nullability as IntoInsertColumnValue<K1, V1>>::AssignmentValue as AssignmentValueNode>::Params as HAppend<<<<K2::Nullability as IntoInsertColumnValue<K2, V2>>::AssignmentValue as AssignmentValueNode>::Params as HAppend<<<<K3::Nullability as IntoInsertColumnValue<K3, V3>>::AssignmentValue as AssignmentValueNode>::Params as HAppend<HNil>>::Output>>::Output>>::Output>,
 {
    type Assignments = HCons<InsertAssignment<K0, <K0::Nullability as IntoInsertColumnValue<K0, V0>>::AssignmentValue>, HCons<InsertAssignment<K1, <K1::Nullability as IntoInsertColumnValue<K1, V1>>::AssignmentValue>, HCons<InsertAssignment<K2, <K2::Nullability as IntoInsertColumnValue<K2, V2>>::AssignmentValue>, HCons<InsertAssignment<K3, <K3::Nullability as IntoInsertColumnValue<K3, V3>>::AssignmentValue>, HNil>>>>;

    open spec fn column_names() -> Seq<&'static str> {
        seq![K0::NAME, K1::NAME, K2::NAME, K3::NAME]
    }

    open spec fn assigns(values: (V0, V1, V2, V3), assignments: Self::Assignments) -> bool {
        &&& <K0::Nullability as IntoInsertColumnValue<K0, V0>>::inserts(values.0, assignments.head.value)
        &&& <K1::Nullability as IntoInsertColumnValue<K1, V1>>::inserts(values.1, assignments.tail.head.value)
        &&& <K2::Nullability as IntoInsertColumnValue<K2, V2>>::inserts(values.2, assignments.tail.tail.head.value)
        &&& <K3::Nullability as IntoInsertColumnValue<K3, V3>>::inserts(values.3, assignments.tail.tail.tail.head.value)
    }

    fn into_insert_assignments(values: (V0, V1, V2, V3)) -> (assignments: Self::Assignments) {
        let a0 = <K0::Nullability as IntoInsertColumnValue<K0, V0>>::into_insert_column_value(values.0);
        let a1 = <K1::Nullability as IntoInsertColumnValue<K1, V1>>::into_insert_column_value(values.1);
        let a2 = <K2::Nullability as IntoInsertColumnValue<K2, V2>>::into_insert_column_value(values.2);
        let a3 = <K3::Nullability as IntoInsertColumnValue<K3, V3>>::into_insert_column_value(values.3);
        let assignments = HCons { head: InsertAssignment::<K0, _>::new(a0), tail: HCons { head: InsertAssignment::<K1, _>::new(a1), tail: HCons { head: InsertAssignment::<K2, _>::new(a2), tail: HCons { head: InsertAssignment::<K3, _>::new(a3), tail: HNil } } } };
        assert(assignments.names() =~= seq![K0::NAME, K1::NAME, K2::NAME, K3::NAME]);
        assignments
    }
}

impl<
    S: InsertableTable,
    K0: InsertColumnKey<Table = S>,
    K1: InsertColumnKey<Table = S>,
    K2: InsertColumnKey<Table = S>,
    K3: InsertColumnKey<Table = S>,
    K4: InsertColumnKey<Table = S>,
    V0, V1, V2, V3, V4,
> InsertColumnValues<S, (V0, V1, V2, V3, V4)> for (K0, K1, K2, K3, K4) where
    K0::Nullability: IntoInsertColumnValue<K0, V0>,
    K1::Nullability: IntoInsertColumnValue<K1, V1>,
    K2::Nullability: IntoInsertColumnValue<K2, V2>,
    K3::Nullability: IntoInsertColumnValue<K3, V3>,
    K4::Nullability: IntoInsertColumnValue<K4, V4>,
    <<K4::Nullability as IntoInsertColumnValue<K4, V4>>::AssignmentValue as AssignmentValueNode>::Params: HAppend<HNil>,
    <<K3::Nullability as IntoInsertColumnValue<K3, V3>>::AssignmentValue as AssignmentValueNode>::Params: HAppend<<<<K4::Nullability as IntoInsertColumnValue<K4, V4>>::AssignmentValue as AssignmentValueNode>::Params as HAppend<HNil>>::Output>,
    <<K2::Nullability as IntoInsertColumnValue<K2, V2>>::AssignmentValue as AssignmentValueNode>::Params: HAppend<<<<K3::Nullability as IntoInsertColumnValue<K3, V3>>::AssignmentValue as AssignmentValueNode>::Params as HAppend<<<<K4::Nullability as IntoInsertColumnValue<K4, V4>>::AssignmentValue as AssignmentValueNode>::Params as HAppend<HNil>>::Output>>::Output>,
    <<K1::Nullability as IntoInsertColumnValue<K1, V1>>::AssignmentValue as AssignmentValueNode>::Params: HAppend<<<<K2::Nullability as IntoInsertColumnValue<K2, V2>>::AssignmentValue as AssignmentValueNode>::Params as HAppend<<<<K3::Nullability as IntoInsertColumnValue<K3, V3>>::AssignmentValue as AssignmentValueNode>::Params as HAppend<<<<K4::Nullability as IntoInsertColumnValue<K4, V4>>::AssignmentValue as AssignmentValueNode>::Params as HAppend<HNil>>::Output>>::Output>>::Output>,
    <<K0::Nullability as IntoInsertColumnValue<K0, V0>>::AssignmentValue as AssignmentValueNode>::Params: HAppend<<<<K1::Nullability as IntoInsertColumnValue<K1, V1>>::AssignmentValue as AssignmentValueNode>::Params as HAppend<<<<K2::Nullability as IntoInsertColumnValue<K2, V2>>::AssignmentValue as AssignmentValueNode>::Params as HAppend<<<<K3::Nullability as IntoInsertColumnValue<K3, V3>>::AssignmentValue as AssignmentValueNode>::Params as HAppend<<<<K4::Nullability as IntoInsertColumnValue<K4, V4>>::AssignmentValue as AssignmentValueNode>::Params as HAppend<HNil>>::Output>>::Output>>::Output>>::Output>,
 {
    type Assignments = HCons<InsertAssignment<K0, <K0::Nullability as IntoInsertColumnValue<K0, V0>>::AssignmentValue>, HCons<InsertAssignment<K1, <K1::Nullability as IntoInsertColumnValue<K1, V1>>::AssignmentValue>, HCons<InsertAssignment<K2, <K2::Nullability as IntoInsertColumnValue<K2, V2>>::AssignmentValue>, HCons<InsertAssignment<K3, <K3::Nullability as IntoInsertColumnValue<K3, V3>>::AssignmentValue>, HCons<InsertAssignment<K4, <K4::Nullability as IntoInsertColumnValue<K4, V4>>::AssignmentValue>, HNil>>>>>;

    open spec fn column_names() -> Seq<&'static str> {
        seq![K0::NAME, K1::NAME, K2::NAME, K3::NAME, K4::NAME]
    }

    open spec fn assigns(values: (V0, V1, V2, V3, V4), assignments: Self::Assignments) -> bool {
        &&& <K0::Nullability as IntoInsertColumnValue<K0, V0>>::inserts(values.0, assignments.head.value)
        &&& <K1::Nullability as IntoInsertColumnValue<K1, V1>>::inserts(values.1, assignments.tail.head.value)
        &&& <K2::Nullability as IntoInsertColumnValue<K2, V2>>::inserts(values.2, assignments.tail.tail.head.value)
        &&& <K3::Nullability as IntoInsertColumnValue<K3, V3>>::inserts(values.3, assignments.tail.tail.tail.head.value)
        &&& <K4::Nullability as IntoInsertColumnValue<K4, V4>>::inserts(values.4, assignments.tail.tail.tail.tail.head.value)
    }

    fn into_insert_assignments(values: (V0, V1, V2, V3, V4)) -> (assignments: Self::Assignments) {
        let a0 = <K0::Nullability as IntoInsertColumnValue<K0, V0>>::into_insert_column_value(values.0);
        let a1 = <K1::Nullability as IntoInsertColumnValue<K1, V1>>::into_insert_column_value(values.1);
        let a2 = <K2::Nullability as IntoInsertColumnValue<K2, V2>>::into_insert_column_value(values.2);
        let a3 = <K3::Nullability as IntoInsertColumnValue<K3, V3>>::into_insert_column_value(values.3);
        let a4 = <K4::Nullability as IntoInsertColumnValue<K4, V4>>::into_insert_column_value(values.4);
        let assignments = HCons { head: InsertAssignment::<K0, _>::new(a0), tail: HCons { head: InsertAssignment::<K1, _>::new(a1), tail: HCons { head: InsertAssignment::<K2, _>::new(a2), tail: HCons { head: InsertAssignment::<K3, _>::new(a3), tail: HCons { head: InsertAssignment::<K4, _>::new(a4), tail: HNil } } } } };
        assert(assignments.names() =~= seq![K0::NAME, K1::NAME, K2::NAME, K3::NAME, K4::NAME]);
        assignments
    }
}

impl<
    S: InsertableTable,
    K0: InsertColumnKey<Table = S>,
    K1: InsertColumnKey<Table = S>,
    K2: InsertColumnKey<Table = S>,
    K3: InsertColumnKey<Table = S>,
    K4: InsertColumnKey<Table = S>,
    K5: InsertColumnKey<Table = S>,
    V0, V1, V2, V3, V4, V5,
> InsertColumnValues<S, (V0, V1, V2, V3, V4, V5)> for (K0, K1, K2, K3, K4, K5) where
    K0::Nullability: IntoInsertColumnValue<K0, V0>,
    K1::Nullability: IntoInsertColumnValue<K1, V1>,
    K2::Nullability: IntoInsertColumnValue<K2, V2>,
    K3::Nullability: IntoInsertColumnValue<K3, V3>,
    K4::Nullability: IntoInsertColumnValue<K4, V4>,
    K5::Nullability: IntoInsertColumnValue<K5, V5>,
    <<K5::Nullability as IntoInsertColumnValue<K5, V5>>::AssignmentValue as AssignmentValueNode>::Params: HAppend<HNil>,
    <<K4::Nullability as IntoInsertColumnValue<K4, V4>>::AssignmentValue as AssignmentValueNode>::Params: HAppend<<<<K5::Nullability as IntoInsertColumnValue<K5, V5>>::AssignmentValue as AssignmentValueNode>::Params as HAppend<HNil>>::Output>,
    <<K3::Nullability as IntoInsertColumnValue<K3, V3>>::AssignmentValue as AssignmentValueNode>::Params: HAppend<<<<K4::Nullability as IntoInsertColumnValue<K4, V4>>::AssignmentValue as AssignmentValueNode>::Params as HAppend<<<<K5::Nullability as IntoInsertColumnValue<K5, V5>>::AssignmentValue as AssignmentValueNode>::Params as HAppend<HNil>>::Output>>::Output>,
    <<K2::Nullability as IntoInsertColumnValue<K2, V2>>::AssignmentValue as AssignmentValueNode>::Params: HAppend<<<<K3::Nullability as IntoInsertColumnValue<K3, V3>>::AssignmentValue as AssignmentValueNode>::Params as HAppend<<<<K4::Nullability as IntoInsertColumnValue<K4, V4>>::AssignmentValue as AssignmentValueNode>::Params as HAppend<<<<K5::Nullability as IntoInsertColumnValue<K5, V5>>::AssignmentValue as AssignmentValueNode>::Params as HAppend<HNil>>::Output>>::Output>>::Output>,
    <<K1::Nullability as IntoInsertColumnValue<K1, V1>>::AssignmentValue as AssignmentValueNode>::Params: HAppend<<<<K2::Nullability as IntoInsertColumnValue<K2, V2>>::AssignmentValue as AssignmentValueNode>::Params as HAppend<<<<K3::Nullability as IntoInsertColumnValue<K3, V3>>::AssignmentValue as AssignmentValueNode>::Params as HAppend<<<<K4::Nullability as IntoInsertColumnValue<K4, V4>>::AssignmentValue as AssignmentValueNode>::Params as HAppend<<<<K5::Nullability as IntoInsertColumnValue<K5, V5>>::AssignmentValue as AssignmentValueNode>::Params as HAppend<HNil>>::Output>>::Output>>::Output>>::Output>,
    <<K0::Nullability as IntoInsertColumnValue<K0, V0>>::AssignmentValue as AssignmentValueNode>::Params: HAppend<<<<K1::Nullability as IntoInsertColumnValue<K1, V1>>::AssignmentValue as AssignmentValueNode>::Params as HAppend<<<<K2::Nullability as IntoInsertColumnValue<K2, V2>>::AssignmentValue as AssignmentValueNode>::Params as HAppend<<<<K3::Nullability as IntoInsertColumnValue<K3, V3>>::AssignmentValue as AssignmentValueNode>::Params as HAppend<<<<K4::Nullability as IntoInsertColumnValue<K4, V4>>::AssignmentValue as AssignmentValueNode>::Params as HAppend<<<<K5::Nullability as IntoInsertColumnValue<K5, V5>>::AssignmentValue as AssignmentValueNode>::Params as HAppend<HNil>>::Output>>::Output>>::Output>>::Output>>::Output>,
 {
    type Assignments = HCons<InsertAssignment<K0, <K0::Nullability as IntoInsertColumnValue<K0, V0>>::AssignmentValue>, HCons<InsertAssignment<K1, <K1::Nullability as IntoInsertColumnValue<K1, V1>>::AssignmentValue>, HCons<InsertAssignment<K2, <K2::Nullability as IntoInsertColumnValue<K2, V2>>::AssignmentValue>, HCons<InsertAssignment<K3, <K3::Nullability as IntoInsertColumnValue<K3, V3>>::AssignmentValue>, HCons<InsertAssignment<K4, <K4::Nullability as IntoInsertColumnValue<K4, V4>>::AssignmentValue>, HCons<InsertAssignment<K5, <K5::Nullability as IntoInsertColumnValue<K5, V5>>::AssignmentValue>, HNil>>>>>>;

    open spec fn column_names() -> Seq<&'static str> {
        seq![K0::NAME, K1::NAME, K2::NAME, K3::NAME, K4::NAME, K5::NAME]
    }

    open spec fn assigns(values: (V0, V1, V2, V3, V4, V5), assignments: Self::Assignments) -> bool {
        &&& <K0::Nullability as IntoInsertColumnValue<K0, V0>>::inserts(values.0, assignments.head.value)
        &&& <K1::Nullability as IntoInsertColumnValue<K1, V1>>::inserts(values.1, assignments.tail.head.value)
        &&& <K2::Nullability as IntoInsertColumnValue<K2, V2>>::inserts(values.2, assignments.tail.tail.head.value)
        &&& <K3::Nullability as IntoInsertColumnValue<K3, V3>>::inserts(values.3, assignments.tail.tail.tail.head.value)
        &&& <K4::Nullability as IntoInsertColumnValue<K4, V4>>::inserts(values.4, assignments.tail.tail.tail.tail.head.value)
        &&& <K5::Nullability as IntoInsertColumnValue<K5, V5>>::inserts(values.5, assignments.tail.tail.tail.tail.tail.head.value)
    }

    fn into_insert_assignments(values: (V0, V1, V2, V3, V4, V5)) -> (assignments: Self::Assignments) {
        let a0 = <K0::Nullability as IntoInsertColumnValue<K0, V0>>::into_insert_column_value(values.0);
        let a1 = <K1::Nullability as IntoInsertColumnValue<K1, V1>>::into_insert_column_value(values.1);
        let a2 = <K2::Nullability as IntoInsertColumnValue<K2, V2>>::into_insert_column_value(values.2);
        let a3 = <K3::Nullability as IntoInsertColumnValue<K3, V3>>::into_insert_column_value(values.3);
        let a4 = <K4::Nullability as IntoInsertColumnValue<K4, V4>>::into_insert_column_value(values.4);
        let a5 = <K5::Nullability as IntoInsertColumnValue<K5, V5>>::into_insert_column_value(values.5);
        let assignments = HCons { head: InsertAssignment::<K0, _>::new(a0), tail: HCons { head: InsertAssignment::<K1, _>::new(a1), tail: HCons { head: InsertAssignment::<K2, _>::new(a2), tail: HCons { head: InsertAssignment::<K3, _>::new(a3), tail: HCons { head: InsertAssignment::<K4, _>::new(a4), tail: HCons { head: InsertAssignment::<K5, _>::new(a5), tail: HNil } } } } } };
        assert(assignments.names() =~= seq![K0::NAME, K1::NAME, K2::NAME, K3::NAME, K4::NAME, K5::NAME]);
        assignments
    }
}

impl<
    S: InsertableTable,
    K0: InsertColumnKey<Table = S>,
    K1: InsertColumnKey<Table = S>,
    K2: InsertColumnKey<Table = S>,
    K3: InsertColumnKey<Table = S>,
    K4: InsertColumnKey<Table = S>,
    K5: InsertColumnKey<Table = S>,
    K6: InsertColumnKey<Table = S>,
    V0, V1, V2, V3, V4, V5, V6,
> InsertColumnValues<S, (V0, V1, V2, V3, V4, V5, V6)> for (K0, K1, K2, K3, K4, K5, K6) where
    K0::Nullability: IntoInsertColumnValue<K0, V0>,
    K1::Nullability: IntoInsertColumnValue<K1, V1>,
    K2::Nullability: IntoInsertColumnValue<K2, V2>,
    K3::Nullability: IntoInsertColumnValue<K3, V3>,
    K4::Nullability: IntoInsertColumnValue<K4, V4>,
    K5::Nullability: IntoInsertColumnValue<K5, V5>,
    K6::Nullability: IntoInsertColumnValue<K6, V6>,
    <<K6::Nullability as IntoInsertColumnValue<K6, V6>>::AssignmentValue as AssignmentValueNode>::Params: HAppend<HNil>,
    <<K5::Nullability as IntoInsertColumnValue<K5, V5>>::AssignmentValue as AssignmentValueNode>::Params: HAppend<<<<K6::Nullability as IntoInsertColumnValue<K6, V6>>::AssignmentValue as AssignmentValueNode>::Params as HAppend<HNil>>::Output>,
    <<K4::Nullability as IntoInsertColumnValue<K4, V4>>::AssignmentValue as AssignmentValueNode>::Params: HAppend<<<<K5::Nullability as IntoInsertColumnValue<K5, V5>>::AssignmentValue as AssignmentValueNode>::Params as HAppend<<<<K6::Nullability as IntoInsertColumnValue<K6, V6>>::AssignmentValue as AssignmentValueNode>::Params as HAppend<HNil>>::Output>>::Output>,
    <<K3::Nullability as IntoInsertColumnValue<K3, V3>>::AssignmentValue as AssignmentValueNode>::Params: HAppend<<<<K4::Nullability as IntoInsertColumnValue<K4, V4>>::AssignmentValue as AssignmentValueNode>::Params as HAppend<<<<K5::Nullability as IntoInsertColumnValue<K5, V5>>::AssignmentValue as AssignmentValueNode>::Params as HAppend<<<<K6::Nullability as IntoInsertColumnValue<K6, V6>>::AssignmentValue as AssignmentValueNode>::Params as HAppend<HNil>>::Output>>::Output>>::Output>,
    <<K2::Nullability as IntoInsertColumnValue<K2, V2>>::AssignmentValue as AssignmentValueNode>::Params: HAppend<<<<K3::Nullability as IntoInsertColumnValue<K3, V3>>::AssignmentValue as AssignmentValueNode>::Params as HAppend<<<<K4::Nullability as IntoInsertColumnValue<K4, V4>>::AssignmentValue as AssignmentValueNode>::Params as HAppend<<<<K5::Nullability as IntoInsertColumnValue<K5, V5>>::AssignmentValue as AssignmentValueNode>::Params as HAppend<<<<K6::Nullability as IntoInsertColumnValue<K6, V6>>::AssignmentValue as AssignmentValueNode>::Params as HAppend<HNil>>::Output>>::Output>>::Output>>::Output>,
    <<K1::Nullability as IntoInsertColumnValue<K1, V1>>::AssignmentValue as AssignmentValueNode>::Params: HAppend<<<<K2::Nullability as IntoInsertColumnValue<K2, V2>>::AssignmentValue as AssignmentValueNode>::Params as HAppend<<<<K3::Nullability as IntoInsertColumnValue<K3, V3>>::AssignmentValue as AssignmentValueNode>::Params as HAppend<<<<K4::Nullability as IntoInsertColumnValue<K4, V4>>::AssignmentValue as AssignmentValueNode>::Params as HAppend<<<<K5::Nullability as IntoInsertColumnValue<K5, V5>>::AssignmentValue as AssignmentValueNode>::Params as HAppend<<<<K6::Nullability as IntoInsertColumnValue<K6, V6>>::AssignmentValue as AssignmentValueNode>::Params as HAppend<HNil>>::Output>>::Output>>::Output>>::Output>>::Output>,
    <<K0::Nullability as IntoInsertColumnValue<K0, V0>>::AssignmentValue as AssignmentValueNode>::Params: HAppend<<<<K1::Nullability as IntoInsertColumnValue<K1, V1>>::AssignmentValue as AssignmentValueNode>::Params as HAppend<<<<K2::Nullability as IntoInsertColumnValue<K2, V2>>::AssignmentValue as AssignmentValueNode>::Params as HAppend<<<<K3::Nullability as IntoInsertColumnValue<K3, V3>>::AssignmentValue as AssignmentValueNode>::Params as HAppend<<<<K4::Nullability as IntoInsertColumnValue<K4, V4>>::AssignmentValue as AssignmentValueNode>::Params as HAppend<<<<K5::Nullability as IntoInsertColumnValue<K5, V5>>::AssignmentValue as AssignmentValueNode>::Params as HAppend<<<<K6::Nullability as IntoInsertColumnValue<K6, V6>>::AssignmentValue as AssignmentValueNode>::Params as HAppend<HNil>>::Output>>::Output>>::Output>>::Output>>::Output>>::Output>,
 {
    type Assignments = HCons<InsertAssignment<K0, <K0::Nullability as IntoInsertColumnValue<K0, V0>>::AssignmentValue>, HCons<InsertAssignment<K1, <K1::Nullability as IntoInsertColumnValue<K1, V1>>::AssignmentValue>, HCons<InsertAssignment<K2, <K2::Nullability as IntoInsertColumnValue<K2, V2>>::AssignmentValue>, HCons<InsertAssignment<K3, <K3::Nullability as IntoInsertColumnValue<K3, V3>>::AssignmentValue>, HCons<InsertAssignment<K4, <K4::Nullability as IntoInsertColumnValue<K4, V4>>::AssignmentValue>, HCons<InsertAssignment<K5, <K5::Nullability as IntoInsertColumnValue<K5, V5>>::AssignmentValue>, HCons<InsertAssignment<K6, <K6::Nullability as IntoInsertColumnValue<K6, V6>>::AssignmentValue>, HNil>>>>>>>;

    open spec fn column_names() -> Seq<&'static str> {
        seq![K0::NAME, K1::NAME, K2::NAME, K3::NAME, K4::NAME, K5::NAME, K6::NAME]
    }

    open spec fn assigns(values: (V0, V1, V2, V3, V4, V5, V6), assignments: Self::Assignments) -> bool {
        &&& <K0::Nullability as IntoInsertColumnValue<K0, V0>>::inserts(values.0, assignments.head.value)
        &&& <K1::Nullability as IntoInsertColumnValue<K1, V1>>::inserts(values.1, assignments.tail.head.value)
        &&& <K2::Nullability as IntoInsertColumnValue<K2, V2>>::inserts(values.2, assignments.tail.tail.head.value)
        &&& <K3::Nullability as IntoInsertColumnValue<K3, V3>>::inserts(values.3, assignments.tail.tail.tail.head.value)
        &&& <K4::Nullability as IntoInsertColumnValue<K4, V4>>::inserts(values.4, assignments.tail.tail.tail.tail.head.value)
        &&& <K5::Nullability as IntoInsertColumnValue<K5, V5>>::inserts(values.5, assignments.tail.tail.tail.tail.tail.head.value)
        &&& <K6::Nullability as IntoInsertColumnValue<K6, V6>>::inserts(values.6, assignments.tail.tail.tail.tail.tail.tail.head.value)
    }

    fn into_insert_assignments(values: (V0, V1, V2, V3, V4, V5, V6)) -> (assignments: Self::Assignments) {
        let a0 = <K0::Nullability as IntoInsertColumnValue<K0, V0>>::into_insert_column_value(values.0);
        let a1 = <K1::Nullability as IntoInsertColumnValue<K1, V1>>::into_insert_column_value(values.1);
        let a2 = <K2::Nullability as IntoInsertColumnValue<K2, V2>>::into_insert_column_value(values.2);
        let a3 = <K3::Nullability as IntoInsertColumnValue<K3, V3>>::into_insert_column_value(values.3);
        let a4 = <K4::Nullability as IntoInsertColumnValue<K4, V4>>::into_insert_column_value(values.4);
        let a5 = <K5::Nullability as IntoInsertColumnValue<K5, V5>>::into_insert_column_value(values.5);
        let a6 = <K6::Nullability as IntoInsertColumnValue<K6, V6>>::into_insert_column_value(values.6);
        let assignments = HCons { head: InsertAssignment::<K0, _>::new(a0), tail: HCons { head: InsertAssignment::<K1, _>::new(a1), tail: HCons { head: InsertAssignment::<K2, _>::new(a2), tail: HCons { head: InsertAssignment::<K3, _>::new(a3), tail: HCons { head: InsertAssignment::<K4, _>::new(a4), tail: HCons { head: InsertAssignment::<K5, _>::new(a5), tail: HCons { head: InsertAssignment::<K6, _>::new(a6), tail: HNil } } } } } } };
        assert(assignments.names() =~= seq![K0::NAME, K1::NAME, K2::NAME, K3::NAME, K4::NAME, K5::NAME, K6::NAME]);
        assignments
    }
}

impl<
    S: InsertableTable,
    K0: InsertColumnKey<Table = S>,
    K1: InsertColumnKey<Table = S>,
    K2: InsertColumnKey<Table = S>,
    K3: InsertColumnKey<Table = S>,
    K4: InsertColumnKey<Table = S>,
    K5: InsertColumnKey<Table = S>,
    K6: InsertColumnKey<Table = S>,
    K7: InsertColumnKey<Table = S>,
    V0, V1, V2, V3, V4, V5, V6, V7,
> InsertColumnValues<S, (V0, V1, V2, V3, V4, V5, V6, V7)> for (K0, K1, K2, K3, K4, K5, K6, K7) where
    K0::Nullability: IntoInsertColumnValue<K0, V0>,
    K1::Nullability: IntoInsertColumnValue<K1, V1>,
    K2::Nullability: IntoInsertColumnValue<K2, V2>,
    K3::Nullability: IntoInsertColumnValue<K3, V3>,
    K4::Nullability: IntoInsertColumnValue<K4, V4>,
    K5::Nullability: IntoInsertColumnValue<K5, V5>,
    K6::Nullability: IntoInsertColumnValue<K6, V6>,
    K7::Nullability: IntoInsertColumnValue<K7, V7>,
    <<K7::Nullability as IntoInsertColumnValue<K7, V7>>::AssignmentValue as AssignmentValueNode>::Params: HAppend<HNil>,
    <<K6::Nullability as IntoInsertColumnValue<K6, V6>>::AssignmentValue as AssignmentValueNode>::Params: HAppend<<<<K7::Nullability as IntoInsertColumnValue<K7, V7>>::AssignmentValue as AssignmentValueNode>::Params as HAppend<HNil>>::Output>,
    <<K5::Nullability as IntoInsertColumnValue<K5, V5>>::AssignmentValue as AssignmentValueNode>::Params: HAppend<<<<K6::Nullability as IntoInsertColumnValue<K6, V6>>::AssignmentValue as AssignmentValueNode>::Params as HAppend<<<<K7::Nullability as IntoInsertColumnValue<K7, V7>>::AssignmentValue as AssignmentValueNode>::Params as HAppend<HNil>>::Output>>::Output>,
    <<K4::Nullability as IntoInsertColumnValue<K4, V4>>::AssignmentValue as AssignmentValueNode>::Params: HAppend<<<<K5::Nullability as IntoInsertColumnValue<K5, V5>>::AssignmentValue as AssignmentValueNode>::Params as HAppend<<<<K6::Nullability as IntoInsertColumnValue<K6, V6>>::AssignmentValue as AssignmentValueNode>::Params as HAppend<<<<K7::Nullability as IntoInsertColumnValue<K7, V7>>::AssignmentValue as AssignmentValueNode>::Params as HAppend<HNil>>::Output>>::Output>>::Output>,
    <<K3::Nullability as IntoInsertColumnValue<K3, V3>>::AssignmentValue as AssignmentValueNode>::Params: HAppend<<<<K4::Nullability as IntoInsertColumnValue<K4, V4>>::AssignmentValue as AssignmentValueNode>::Params as HAppend<<<<K5::Nullability as IntoInsertColumnValue<K5, V5>>::AssignmentValue as AssignmentValueNode>::Params as HAppend<<<<K6::Nullability as IntoInsertColumnValue<K6, V6>>::AssignmentValue as AssignmentValueNode>::Params as HAppend<<<<K7::Nullability as IntoInsertColumnValue<K7, V7>>::AssignmentValue as AssignmentValueNode>::Params as HAppend<HNil>>::Output>>::Output>>::Output>>::Output>,
    <<K2::Nullability as IntoInsertColumnValue<K2, V2>>::AssignmentValue as AssignmentValueNode>::Params: HAppend<<<<K3::Nullability as IntoInsertColumnValue<K3, V3>>::AssignmentValue as AssignmentValueNode>::Params as HAppend<<<<K4::Nullability as IntoInsertColumnValue<K4, V4>>::AssignmentValue as AssignmentValueNode>::Params as HAppend<<<<K5::Nullability as IntoInsertColumnValue<K5, V5>>::AssignmentValue as AssignmentValueNode>::Params as HAppend<<<<K6::Nullability as IntoInsertColumnValue<K6, V6>>::AssignmentValue as AssignmentValueNode>::Params as HAppend<<<<K7::Nullability as IntoInsertColumnValue<K7, V7>>::AssignmentValue as AssignmentValueNode>::Params as HAppend<HNil>>::Output>>::Output>>::Output>>::Output>>::Output>,
    <<K1::Nullability as IntoInsertColumnValue<K1, V1>>::AssignmentValue as AssignmentValueNode>::Params: HAppend<<<<K2::Nullability as IntoInsertColumnValue<K2, V2>>::AssignmentValue as AssignmentValueNode>::Params as HAppend<<<<K3::Nullability as IntoInsertColumnValue<K3, V3>>::AssignmentValue as AssignmentValueNode>::Params as HAppend<<<<K4::Nullability as IntoInsertColumnValue<K4, V4>>::AssignmentValue as AssignmentValueNode>::Params as HAppend<<<<K5::Nullability as IntoInsertColumnValue<K5, V5>>::AssignmentValue as AssignmentValueNode>::Params as HAppend<<<<K6::Nullability as IntoInsertColumnValue<K6, V6>>::AssignmentValue as AssignmentValueNode>::Params as HAppend<<<<K7::Nullability as IntoInsertColumnValue<K7, V7>>::AssignmentValue as AssignmentValueNode>::Params as HAppend<HNil>>::Output>>::Output>>::Output>>::Output>>::Output>>::Output>,
    <<K0::Nullability as IntoInsertColumnValue<K0, V0>>::AssignmentValue as AssignmentValueNode>::Params: HAppend<<<<K1::Nullability as IntoInsertColumnValue<K1, V1>>::AssignmentValue as AssignmentValueNode>::Params as HAppend<<<<K2::Nullability as IntoInsertColumnValue<K2, V2>>::AssignmentValue as AssignmentValueNode>::Params as HAppend<<<<K3::Nullability as IntoInsertColumnValue<K3, V3>>::AssignmentValue as AssignmentValueNode>::Params as HAppend<<<<K4::Nullability as IntoInsertColumnValue<K4, V4>>::AssignmentValue as AssignmentValueNode>::Params as HAppend<<<<K5::Nullability as IntoInsertColumnValue<K5, V5>>::AssignmentValue as AssignmentValueNode>::Params as HAppend<<<<K6::Nullability as IntoInsertColumnValue<K6, V6>>::AssignmentValue as AssignmentValueNode>::Params as HAppend<<<<K7::Nullability as IntoInsertColumnValue<K7, V7>>::AssignmentValue as AssignmentValueNode>::Params as HAppend<HNil>>::Output>>::Output>>::Output>>::Output>>::Output>>::Output>>::Output>,
 {
    type Assignments = HCons<InsertAssignment<K0, <K0::Nullability as IntoInsertColumnValue<K0, V0>>::AssignmentValue>, HCons<InsertAssignment<K1, <K1::Nullability as IntoInsertColumnValue<K1, V1>>::AssignmentValue>, HCons<InsertAssignment<K2, <K2::Nullability as IntoInsertColumnValue<K2, V2>>::AssignmentValue>, HCons<InsertAssignment<K3, <K3::Nullability as IntoInsertColumnValue<K3, V3>>::AssignmentValue>, HCons<InsertAssignment<K4, <K4::Nullability as IntoInsertColumnValue<K4, V4>>::AssignmentValue>, HCons<InsertAssignment<K5, <K5::Nullability as IntoInsertColumnValue<K5, V5>>::AssignmentValue>, HCons<InsertAssignment<K6, <K6::Nullability as IntoInsertColumnValue<K6, V6>>::AssignmentValue>, HCons<InsertAssignment<K7, <K7::Nullability as IntoInsertColumnValue<K7, V7>>::AssignmentValue>, HNil>>>>>>>>;

    open spec fn column_names() -> Seq<&'static str> {
        seq![K0::NAME, K1::NAME, K2::NAME, K3::NAME, K4::NAME, K5::NAME, K6::NAME, K7::NAME]
    }

    open spec fn assigns(values: (V0, V1, V2, V3, V4, V5, V6, V7), assignments: Self::Assignments) -> bool {
        &&& <K0::Nullability as IntoInsertColumnValue<K0, V0>>::inserts(values.0, assignments.head.value)
        &&& <K1::Nullability as IntoInsertColumnValue<K1, V1>>::inserts(values.1, assignments.tail.head.value)
        &&& <K2::Nullability as IntoInsertColumnValue<K2, V2>>::inserts(values.2, assignments.tail.tail.head.value)
        &&& <K3::Nullability as IntoInsertColumnValue<K3, V3>>::inserts(values.3, assignments.tail.tail.tail.head.value)
        &&& <K4::Nullability as IntoInsertColumnValue<K4, V4>>::inserts(values.4, assignments.tail.tail.tail.tail.head.value)
        &&& <K5::Nullability as IntoInsertColumnValue<K5, V5>>::inserts(values.5, assignments.tail.tail.tail.tail.tail.head.value)
        &&& <K6::Nullability as IntoInsertColumnValue<K6, V6>>::inserts(values.6, assignments.tail.tail.tail.tail.tail.tail.head.value)
        &&& <K7::Nullability as IntoInsertColumnValue<K7, V7>>::inserts(values.7, assignments.tail.tail.tail.tail.tail.tail.tail.head.value)
    }

    fn into_insert_assignments(values: (V0, V1, V2, V3, V4, V5, V6, V7)) -> (assignments: Self::Assignments) {
        let a0 = <K0::Nullability as IntoInsertColumnValue<K0, V0>>::into_insert_column_value(values.0);
        let a1 = <K1::Nullability as IntoInsertColumnValue<K1, V1>>::into_insert_column_value(values.1);
        let a2 = <K2::Nullability as IntoInsertColumnValue<K2, V2>>::into_insert_column_value(values.2);
        let a3 = <K3::Nullability as IntoInsertColumnValue<K3, V3>>::into_insert_column_value(values.3);
        let a4 = <K4::Nullability as IntoInsertColumnValue<K4, V4>>::into_insert_column_value(values.4);
        let a5 = <K5::Nullability as IntoInsertColumnValue<K5, V5>>::into_insert_column_value(values.5);
        let a6 = <K6::Nullability as IntoInsertColumnValue<K6, V6>>::into_insert_column_value(values.6);
        let a7 = <K7::Nullability as IntoInsertColumnValue<K7, V7>>::into_insert_column_value(values.7);
        let assignments = HCons { head: InsertAssignment::<K0, _>::new(a0), tail: HCons { head: InsertAssignment::<K1, _>::new(a1), tail: HCons { head: InsertAssignment::<K2, _>::new(a2), tail: HCons { head: InsertAssignment::<K3, _>::new(a3), tail: HCons { head: InsertAssignment::<K4, _>::new(a4), tail: HCons { head: InsertAssignment::<K5, _>::new(a5), tail: HCons { head: InsertAssignment::<K6, _>::new(a6), tail: HCons { head: InsertAssignment::<K7, _>::new(a7), tail: HNil } } } } } } } };
        assert(assignments.names() =~= seq![K0::NAME, K1::NAME, K2::NAME, K3::NAME, K4::NAME, K5::NAME, K6::NAME, K7::NAME]);
        assignments
    }
}

/// Turns a tuple of values into the assignments of a fixed tuple of columns.
pub trait UpdateColumnValues<S: UpdateableTable, Values> {
    type Assignments: UpdateAssignments;

    /// The columns of the tuple.
    spec fn column_names() -> Seq<&'static str>;

    /// Whether `assignments` gives each column its value.
    spec fn assigns(values: Values, assignments: Self::Assignments) -> bool;

    fn into_update_assignments(values: Values) -> (assignments: Self::Assignments)
        ensures
            Self::assigns(values, assignments),
            assignments.names() == Self::column_names(),
    ;
}

impl<S: UpdateableTable> UpdateColumnValues<S, ()> for () {
    type Assignments = HNil;

    open spec fn column_names() -> Seq<&'static str> {
        Seq::empty()
    }

    open spec fn assigns(values: (), assignments: HNil) -> bool {
        true
    }

    fn into_update_assignments(values: ()) -> (assignments: HNil) {
        HNil
    }
}

impl<
    S: UpdateableTable,
    K0: UpdateColumnKey<Table = S>,
    V0,
> UpdateColumnValues<S, (V0,)> for (K0,) where
    K0::Nullability: IntoUpdateColumnValue<K0, V0>,
    <<K0::Nullability as IntoUpdateColumnValue<K0, V0>>::AssignmentValue as AssignmentValueNode>::Params: HAppend<HNil>,
 {
    type Assignments = HCons<UpdateAssignment<K0, <K0::Nullability as IntoUpdateColumnValue<K0, V0>>::AssignmentValue>, HNil>;

    open spec fn column_names() -> Seq<&'static str> {
        seq![K0::NAME]
    }

    open spec fn assigns(values: (V0,), assignments: Self::Assignments) -> bool {
        &&& <K0::Nullability as IntoUpdateColumnValue<K0, V0>>::updates(values.0, assignments.head.value)
    }

    fn into_update_assignments(values: (V0,)) -> (assignments: Self::Assignments) {
        let a0 = <K0::Nullability as IntoUpdateColumnValue<K0, V0>>::into_update_column_value(values.0);
        let assignments = HCons { head: UpdateAssignment::<K0, _>::new(a0), tail: HNil };
        assert(assignments.names() =~= seq![K0::NAME]);
        assignments
    }
}

impl<
    S: UpdateableTable,
    K0: UpdateColumnKey<Table = S>,
    K1: UpdateColumnKey<Table = S>,
    V0, V1,
> UpdateColumnValues<S, (V0, V1)> for (K0, K1) where
    K0::Nullability: IntoUpdateColumnValue<K0, V0>,
    K1::Nullability: IntoUpdateColumnValue<K1, V1>,
    <<K1::Nullability as IntoUpdateColumnValue<K1, V1>>::AssignmentValue as AssignmentValueNode>::Params: HAppend<HNil>,
    <<K0::Nullability as IntoUpdateColumnValue<K0, V0>>::AssignmentValue as AssignmentValueNode>::Params: HAppend<<<<K1::Nullability as IntoUpdateColumnValue<K1, V1>>::AssignmentValue as AssignmentValueNode>::Params as HAppend<HNil>>::Output>,
 {
    type Assignments = HCons<UpdateAssignment<K0, <K0::Nullability as IntoUpdateColumnValue<K0, V0>>::AssignmentValue>, HCons<UpdateAssignment<K1, <K1::Nullability as IntoUpdateColumnValue<K1, V1>>::AssignmentValue>, HNil>>;

    open spec fn column_names() -> Seq<&'static str> {
        seq![K0::NAME, K1::NAME]
    }

    open spec fn assigns(values: (V0, V1), assignments: Self::Assignments) -> bool {
        &&& <K0::Nullability as IntoUpdateColumnValue<K0, V0>>::updates(values.0, assignments.head.value)
        &&& <K1::Nullability as IntoUpdateColumnValue<K1, V1>>::updates(values.1, assignments.tail.head.value)
    }

    fn into_update_assignments(values: (V0, V1)) -> (assignments: Self::Assignments) {
        let a0 = <K0::Nullability as IntoUpdateColumnValue<K0, V0>>::into_update_column_value(values.0);
        let a1 = <K1::Nullability as IntoUpdateColumnValue<K1, V1>>::into_update_column_value(values.1);
        let assignments = HCons { head: UpdateAssignment::<K0, _>::new(a0), tail: HCons { head: UpdateAssignment::<K1, _>::new(a1), tail: HNil } };
        assert(assignments.names() =~= seq![K0::NAME, K1::NAME]);
        assignments
    }
}

impl<
    S: UpdateableTable,
    K0: UpdateColumnKey<Table = S>,
    K1: UpdateColumnKey<Table = S>,
    K2: UpdateColumnKey<Table = S>,
    V0, V1, V2,
> UpdateColumnValues<S, (V0, V1, V2)> for (K0, K1, K2) where
    K0::Nullability: IntoUpdateColumnValue<K0, V0>,
    K1::Nullability: IntoUpdateColumnValue<K1, V1>,
    K2::Nullability: IntoUpdateColumnValue<K2, V2>,
    <<K2::Nullability as IntoUpdateColumnValue<K2, V2>>::AssignmentValue as AssignmentValueNode>::Params: HAppend<HNil>,
    <<K1::Nullability as IntoUpdateColumnValue<K1, V1>>::AssignmentValue as AssignmentValueNode>::Params: HAppend<<<<K2::Nullability as IntoUpdateColumnValue<K2, V2>>::AssignmentValue as AssignmentValueNode>::Params as HAppend<HNil>>::Output>,
    <<K0::Nullability as IntoUpdateColumnValue<K0, V0>>::AssignmentValue as AssignmentValueNode>::Params: HAppend<<<<K1::Nullability as IntoUpdateColumnValue<K1, V1>>::AssignmentValue as AssignmentValueNode>::Params as HAppend<<<<K2::Nullability as IntoUpdateColumnValue<K2, V2>>::AssignmentValue as AssignmentValueNode>::Params as HAppend<HNil>>::Output>>::Output>,
 {
    type Assignments = HCons<UpdateAssignment<K0, <K0::Nullability as IntoUpdateColumnValue<K0, V0>>::AssignmentValue>, HCons<UpdateAssignment<K1, <K1::Nullability as IntoUpdateColumnValue<K1, V1>>::AssignmentValue>, HCons<UpdateAssignment<K2, <K2::Nullability as IntoUpdateColumnValue<K2, V2>>::AssignmentValue>, HNil>>>;

    open spec fn column_names() -> Seq<&'static str> {
        seq![K0::NAME, K1::NAME, K2::NAME]
    }

    open spec fn assigns(values: (V0, V1, V2), assignments: Self::Assignments) -> bool {
        &&& <K0::Nullability as IntoUpdateColumnValue<K0, V0>>::updates(values.0, assignments.head.value)
        &&& <K1::Nullability as IntoUpdateColumnValue<K1, V1>>::updates(values.1, assignments.tail.head.value)
        &&& <K2::Nullability as IntoUpdateColumnValue<K2, V2>>::updates(values.2, assignments.tail.tail.head.value)
    }

    fn into_update_assignments(values: (V0, V1, V2)) -> (assignments: Self::Assignments) {
        let a0 = <K0::Nullability as IntoUpdateColumnValue<K0, V0>>::into_update_column_value(values.0);
        let a1 = <K1::Nullability as IntoUpdateColumnValue<K1, V1>>::into_update_column_value(values.1);
        let a2 = <K2::Nullability as IntoUpdateColumnValue<K2, V2>>::into_update_column_value(values.2);
        let assignments = HCons { head: UpdateAssignment::<K0, _>::new(a0), tail: HCons { head: UpdateAssignment::<K1, _>::new(a1), tail: HCons { head: UpdateAssignment::<K2, _>::new(a2), tail: HNil } } };
        assert(assignments.names() =~= seq![K0::NAME, K1::NAME, K2::NAME]);
        assignments
    }
}

impl<
    S: UpdateableTable,
    K0: UpdateColumnKey<Table = S>,
    K1: UpdateColumnKey<Table = S>,
    K2: UpdateColumnKey<Table = S>,
    K3: UpdateColumnKey<Table = S>,
    V0, V1, V2, V3,
> UpdateColumnValues<S, (V0, V1, V2, V3)> for (K0, K1, K2, K3) where
    K0::Nullability: IntoUpdateColumnValue<K0, V0>,
    K1::Nullability: IntoUpdateColumnValue<K1, V1>,
    K2::Nullability: IntoUpdateColumnValue<K2, V2>,
    K3::Nullability: IntoUpdateColumnValue<K3, V3>,
    <<K3::Nullability as IntoUpdateColumnValue<K3, V3>>::AssignmentValue as AssignmentValueNode>::Params: HAppend<HNil>,
    <<K2::Nullability as IntoUpdateColumnValue<K2, V2>>::AssignmentValue as AssignmentValueNode>::Params: HAppend<<<<K3::Nullability as IntoUpdateColumnValue<K3, V3>>::AssignmentValue as AssignmentValueNode>::Params as HAppend<HNil>>::Output>,
    <<K1::Nullability as IntoUpdateColumnValue<K1, V1>>::AssignmentValue as AssignmentValueNode>::Params: HAppend<<<<K2::Nullability as IntoUpdateColumnValue<K2, V2>>::AssignmentValue as AssignmentValueNode>::Params as HAppend<<<<K3::Nullability as IntoUpdateColumnValue<K3, V3>>::AssignmentValue as AssignmentValueNode>::Params as HAppend<HNil>>::Output>>::Output>,
    <<K0::Nullability as IntoUpdateColumnValue<K0, V0>>::AssignmentValue as AssignmentValueNode>::Params: HAppend<<<<K1::Nullability as IntoUpdateColumnValue<K1, V1>>::AssignmentValue as AssignmentValueNode>::Params as HAppend<<<<K2::Nullability as IntoUpdateColumnValue<K2, V2>>::AssignmentValue as AssignmentValueNode>::Params as HAppend<<<<K3::Nullability as IntoUpdateColumnValue<K3, V3>>::AssignmentValue as AssignmentValueNode>::Params as HAppend<HNil>>::Output>>::Output>>::Output>,
 {
    type Assignments = HCons<UpdateAssignment<K0, <K0::Nullability as IntoUpdateColumnValue<K0, V0>>::AssignmentValue>, HCons<UpdateAssignment<K1, <K1::Nullability as IntoUpdateColumnValue<K1, V1>>::AssignmentValue>, HCons<UpdateAssignment<K2, <K2::Nullability as IntoUpdateColumnValue<K2, V2>>::AssignmentValue>, HCons<UpdateAssignment<K3, <K3::Nullability as IntoUpdateColumnValue<K3, V3>>::AssignmentValue>, HNil>>>>;

    open spec fn column_names() -> Seq<&'static str> {
        seq![K0::NAME, K1::NAME, K2::NAME, K3::NAME]
    }

    open spec fn assigns(values: (V0, V1, V2, V3), assignments: Self::Assignments) -> bool {
        &&& <K0::Nullability as IntoUpdateColumnValue<K0, V0>>::updates(values.0, assignments.head.value)
        &&& <K1::Nullability as IntoUpdateColumnValue<K1, V1>>::updates(values.1, assignments.tail.head.value)
        &&& <K2::Nullability as IntoUpdateColumnValue<K2, V2>>::updates(values.2, assignments.tail.tail.head.value)
        &&& <K3::Nullability as IntoUpdateColumnValue<K3, V3>>::updates(values.3, assignments.tail.tail.tail.head.value)
    }

    fn into_update_assignments(values: (V0, V1, V2, V3)) -> (assignments: Self::Assignments) {
        let a0 = <K0::Nullability as IntoUpdateColumnValue<K0, V0>>::into_update_column_value(values.0);
        let a1 = <K1::Nullability as IntoUpdateColumnValue<K1, V1>>::into_update_column_value(values.1);
        let a2 = <K2::Nullability as IntoUpdateColumnValue<K2, V2>>::into_update_column_value(values.2);
        let a3 = <K3::Nullability as IntoUpdateColumnValue<K3, V3>>::into_update_column_value(values.3);
        let assignments = HCons { head: UpdateAssignment::<K0, _>::new(a0), tail: HCons { head: UpdateAssignment::<K1, _>::new(a1), tail: HCons { head: UpdateAssignment::<K2, _>::new(a2), tail: HCons { head: UpdateAssignment::<K3, _>::new(a3), tail: HNil } } } };
        assert(assignments.names() =~= seq![K0::NAME, K1::NAME, K2::NAME, K3::NAME]);
        assignments
    }
}

impl<
    S: UpdateableTable,
    K0: UpdateColumnKey<Table = S>,
    K1: UpdateColumnKey<Table = S>,
    K2: UpdateColumnKey<Table = S>,
    K3: UpdateColumnKey<Table = S>,
    K4: UpdateColumnKey<Table = S>,
    V0, V1, V2, V3, V4,
> UpdateColumnValues<S, (V0, V1, V2, V3, V4)> for (K0, K1, K2, K3, K4) where
    K0::Nullability: IntoUpdateColumnValue<K0, V0>,
    K1::Nullability: IntoUpdateColumnValue<K1, V1>,
    K2::Nullability: IntoUpdateColumnValue<K2, V2>,
    K3::Nullability: IntoUpdateColumnValue<K3, V3>,
    K4::Nullability: IntoUpdateColumnValue<K4, V4>,
    <<K4::Nullability as IntoUpdateColumnValue<K4, V4>>::AssignmentValue as AssignmentValueNode>::Params: HAppend<HNil>,
    <<K3::Nullability as IntoUpdateColumnValue<K3, V3>>::AssignmentValue as AssignmentValueNode>::Params: HAppend<<<<K4::Nullability as IntoUpdateColumnValue<K4, V4>>::AssignmentValue as AssignmentValueNode>::Params as HAppend<HNil>>::Output>,
    <<K2::Nullability as IntoUpdateColumnValue<K2, V2>>::AssignmentValue as AssignmentValueNode>::Params: HAppend<<<<K3::Nullability as IntoUpdateColumnValue<K3, V3>>::AssignmentValue as AssignmentValueNode>::Params as HAppend<<<<K4::Nullability as IntoUpdateColumnValue<K4, V4>>::AssignmentValue as AssignmentValueNode>::Params as HAppend<HNil>>::Output>>::Output>,
    <<K1::Nullability as IntoUpdateColumnValue<K1, V1>>::AssignmentValue as AssignmentValueNode>::Params: HAppend<<<<K2::Nullability as IntoUpdateColumnValue<K2, V2>>::AssignmentValue as AssignmentValueNode>::Params as HAppend<<<<K3::Nullability as IntoUpdateColumnValue<K3, V3>>::AssignmentValue as AssignmentValueNode>::Params as HAppend<<<<K4::Nullability as IntoUpdateColumnValue<K4, V4>>::AssignmentValue as AssignmentValueNode>::Params as HAppend<HNil>>::Output>>::Output>>::Output>,
    <<K0::Nullability as IntoUpdateColumnValue<K0, V0>>::AssignmentValue as AssignmentValueNode>::Params: HAppend<<<<K1::Nullability as IntoUpdateColumnValue<K1, V1>>::AssignmentValue as AssignmentValueNode>::Params as HAppend<<<<K2::Nullability as IntoUpdateColumnValue<K2, V2>>::AssignmentValue as AssignmentValueNode>::Params as HAppend<<<<K3::Nullability as IntoUpdateColumnValue<K3, V3>>::AssignmentValue as AssignmentValueNode>::Params as HAppend<<<<K4::Nullability as IntoUpdateColumnValue<K4, V4>>::AssignmentValue as AssignmentValueNode>::Params as HAppend<HNil>>::Output>>::Output>>::Output>>::Output>,
 {
    type Assignments = HCons<UpdateAssignment<K0, <K0::Nullability as IntoUpdateColumnValue<K0, V0>>::AssignmentValue>, HCons<UpdateAssignment<K1, <K1::Nullability as IntoUpdateColumnValue<K1, V1>>::AssignmentValue>, HCons<UpdateAssignment<K2, <K2::Nullability as IntoUpdateColumnValue<K2, V2>>::AssignmentValue>, HCons<UpdateAssignment<K3, <K3::Nullability as IntoUpdateColumnValue<K3, V3>>::AssignmentValue>, HCons<UpdateAssignment<K4, <K4::Nullability as IntoUpdateColumnValue<K4, V4>>::AssignmentValue>, HNil>>>>>;

    open spec fn column_names() -> Seq<&'static str> {
        seq![K0::NAME, K1::NAME, K2::NAME, K3::NAME, K4::NAME]
    }

    open spec fn assigns(values: (V0, V1, V2, V3, V4), assignments: Self::Assignments) -> bool {
        &&& <K0::Nullability as IntoUpdateColumnValue<K0, V0>>::updates(values.0, assignments.head.value)
        &&& <K1::Nullability as IntoUpdateColumnValue<K1, V1>>::updates(values.1, assignments.tail.head.value)
        &&& <K2::Nullability as IntoUpdateColumnValue<K2, V2>>::updates(values.2, assignments.tail.tail.head.value)
        &&& <K3::Nullability as IntoUpdateColumnValue<K3, V3>>::updates(values.3, assignments.tail.tail.tail.head.value)
        &&& <K4::Nullability as IntoUpdateColumnValue<K4, V4>>::updates(values.4, assignments.tail.tail.tail.tail.head.value)
    }

    fn into_update_assignments(values: (V0, V1, V2, V3, V4)) -> (assignments: Self::Assignments) {
        let a0 = <K0::Nullability as IntoUpdateColumnValue<K0, V0>>::into_update_column_value(values.0);
        let a1 = <K1::Nullability as IntoUpdateColumnValue<K1, V1>>::into_update_column_value(values.1);
        let a2 = <K2::Nullability as IntoUpdateColumnValue<K2, V2>>::into_update_column_value(values.2);
        let a3 = <K3::Nullability as IntoUpdateColumnValue<K3, V3>>::into_update_column_value(values.3);
        let a4 = <K4::Nullability as IntoUpdateColumnValue<K4, V4>>::into_update_column_value(values.4);
        let assignments = HCons { head: UpdateAssignment::<K0, _>::new(a0), tail: HCons { head: UpdateAssignment::<K1, _>::new(a1), tail: HCons { head: UpdateAssignment::<K2, _>::new(a2), tail: HCons { head: UpdateAssignment::<K3, _>::new(a3), tail: HCons { head: UpdateAssignment::<K4, _>::new(a4), tail: HNil } } } } };
        assert(assignments.names() =~= seq![K0::NAME, K1::NAME, K2::NAME, K3::NAME, K4::NAME]);
        assignments
    }
}

impl<
    S: UpdateableTable,
    K0: UpdateColumnKey<Table = S>,
    K1: UpdateColumnKey<Table = S>,
    K2: UpdateColumnKey<Table = S>,
    K3: UpdateColumnKey<Table = S>,
    K4: UpdateColumnKey<Table = S>,
    K5: UpdateColumnKey<Table = S>,
    V0, V1, V2, V3, V4, V5,
> UpdateColumnValues<S, (V0, V1, V2, V3, V4, V5)> for (K0, K1, K2, K3, K4, K5) where
    K0::Nullability: IntoUpdateColumnValue<K0, V0>,
    K1::Nullability: IntoUpdateColumnValue<K1, V1>,
    K2::Nullability: IntoUpdateColumnValue<K2, V2>,
    K3::Nullability: IntoUpdateColumnValue<K3, V3>,
    K4::Nullability: IntoUpdateColumnValue<K4, V4>,
    K5::Nullability: IntoUpdateColumnValue<K5, V5>,
    <<K5::Nullability as IntoUpdateColumnValue<K5, V5>>::AssignmentValue as AssignmentValueNode>::Params: HAppend<HNil>,
    <<K4::Nullability as IntoUpdateColumnValue<K4, V4>>::AssignmentValue as AssignmentValueNode>::Params: HAppend<<<<K5::Nullability as IntoUpdateColumnValue<K5, V5>>::AssignmentValue as AssignmentValueNode>::Params as HAppend<HNil>>::Output>,
    <<K3::Nullability as IntoUpdateColumnValue<K3, V3>>::AssignmentValue as AssignmentValueNode>::Params: HAppend<<<<K4::Nullability as IntoUpdateColumnValue<K4, V4>>::AssignmentValue as AssignmentValueNode>::Params as HAppend<<<<K5::Nullability as IntoUpdateColumnValue<K5, V5>>::AssignmentValue as AssignmentValueNode>::Params as HAppend<HNil>>::Output>>::Output>,
    <<K2::Nullability as IntoUpdateColumnValue<K2, V2>>::AssignmentValue as AssignmentValueNode>::Params: HAppend<<<<K3::Nullability as IntoUpdateColumnValue<K3, V3>>::AssignmentValue as AssignmentValueNode>::Params as HAppend<<<<K4::Nullability as IntoUpdateColumnValue<K4, V4>>::AssignmentValue as AssignmentValueNode>::Params as HAppend<<<<K5::Nullability as IntoUpdateColumnValue<K5, V5>>::AssignmentValue as AssignmentValueNode>::Params as HAppend<HNil>>::Output>>::Output>>::Output>,
    <<K1::Nullability as IntoUpdateColumnValue<K1, V1>>::AssignmentValue as AssignmentValueNode>::Params: HAppend<<<<K2::Nullability as IntoUpdateColumnValue<K2, V2>>::AssignmentValue as AssignmentValueNode>::Params as HAppend<<<<K3::Nullability as IntoUpdateColumnValue<K3, V3>>::AssignmentValue as AssignmentValueNode>::Params as HAppend<<<<K4::Nullability as IntoUpdateColumnValue<K4, V4>>::AssignmentValue as AssignmentValueNode>::Params as HAppend<<<<K5::Nullability as IntoUpdateColumnValue<K5, V5>>::AssignmentValue as AssignmentValueNode>::Params as HAppend<HNil>>::Output>>::Output>>::Output>>::Output>,
    <<K0::Nullability as IntoUpdateColumnValue<K0, V0>>::AssignmentValue as AssignmentValueNode>::Params: HAppend<<<<K1::Nullability as IntoUpdateColumnValue<K1, V1>>::AssignmentValue as AssignmentValueNode>::Params as HAppend<<<<K2::Nullability as IntoUpdateColumnValue<K2, V2>>::AssignmentValue as AssignmentValueNode>::Params as HAppend<<<<K3::Nullability as IntoUpdateColumnValue<K3, V3>>::AssignmentValue as AssignmentValueNode>::Params as HAppend<<<<K4::Nullability as IntoUpdateColumnValue<K4, V4>>::AssignmentValue as AssignmentValueNode>::Params as HAppend<<<<K5::Nullability as IntoUpdateColumnValue<K5, V5>>::AssignmentValue as AssignmentValueNode>::Params as HAppend<HNil>>::Output>>::Output>>::Output>>::Output>>::Output>,
 {
    type Assignments = HCons<UpdateAssignment<K0, <K0::Nullability as IntoUpdateColumnValue<K0, V0>>::AssignmentValue>, HCons<UpdateAssignment<K1, <K1::Nullability as IntoUpdateColumnValue<K1, V1>>::AssignmentValue>, HCons<UpdateAssignment<K2, <K2::Nullability as IntoUpdateColumnValue<K2, V2>>::AssignmentValue>, HCons<UpdateAssignment<K3, <K3::Nullability as IntoUpdateColumnValue<K3, V3>>::AssignmentValue>, HCons<UpdateAssignment<K4, <K4::Nullability as IntoUpdateColumnValue<K4, V4>>::AssignmentValue>, HCons<UpdateAssignment<K5, <K5::Nullability as IntoUpdateColumnValue<K5, V5>>::AssignmentValue>, HNil>>>>>>;

    open spec fn column_names() -> Seq<&'static str> {
        seq![K0::NAME, K1::NAME, K2::NAME, K3::NAME, K4::NAME, K5::NAME]
    }

    open spec fn assigns(values: (V0, V1, V2, V3, V4, V5), assignments: Self::Assignments) -> bool {
        &&& <K0::Nullability as IntoUpdateColumnValue<K0, V0>>::updates(values.0, assignments.head.value)
        &&& <K1::Nullability as IntoUpdateColumnValue<K1, V1>>::updates(values.1, assignments.tail.head.value)
        &&& <K2::Nullability as IntoUpdateColumnValue<K2, V2>>::updates(values.2, assignments.tail.tail.head.value)
        &&& <K3::Nullability as IntoUpdateColumnValue<K3, V3>>::updates(values.3, assignments.tail.tail.tail.head.value)
        &&& <K4::Nullability as IntoUpdateColumnValue<K4, V4>>::updates(values.4, assignments.tail.tail.tail.tail.head.value)
        &&& <K5::Nullability as IntoUpdateColumnValue<K5, V5>>::updates(values.5, assignments.tail.tail.tail.tail.tail.head.value)
    }

    fn into_update_assignments(values: (V0, V1, V2, V3, V4, V5)) -> (assignments: Self::Assignments) {
        let a0 = <K0::Nullability as IntoUpdateColumnValue<K0, V0>>::into_update_column_value(values.0);
        let a1 = <K1::Nullability as IntoUpdateColumnValue<K1, V1>>::into_update_column_value(values.1);
        let a2 = <K2::Nullability as IntoUpdateColumnValue<K2, V2>>::into_update_column_value(values.2);
        let a3 = <K3::Nullability as IntoUpdateColumnValue<K3, V3>>::into_update_column_value(values.3);
        let a4 = <K4::Nullability as IntoUpdateColumnValue<K4, V4>>::into_update_column_value(values.4);
        let a5 = <K5::Nullability as IntoUpdateColumnValue<K5, V5>>::into_update_column_value(values.5);
        let assignments = HCons { head: UpdateAssignment::<K0, _>::new(a0), tail: HCons { head: UpdateAssignment::<K1, _>::new(a1), tail: HCons { head: UpdateAssignment::<K2, _>::new(a2), tail: HCons { head: UpdateAssignment::<K3, _>::new(a3), tail: HCons { head: UpdateAssignment::<K4, _>::new(a4), tail: HCons { head: UpdateAssignment::<K5, _>::new(a5), tail: HNil } } } } } };
        assert(assignments.names() =~= seq![K0::NAME, K1::NAME, K2::NAME, K3::NAME, K4::NAME, K5::NAME]);
        assignments
    }
}

impl<
    S: UpdateableTable,
    K0: UpdateColumnKey<Table = S>,
    K1: UpdateColumnKey<Table = S>,
    K2: UpdateColumnKey<Table = S>,
    K3: UpdateColumnKey<Table = S>,
    K4: UpdateColumnKey<Table = S>,
    K5: UpdateColumnKey<Table = S>,
    K6: UpdateColumnKey<Table = S>,
    V0, V1, V2, V3, V4, V5, V6,
> UpdateColumnValues<S, (V0, V1, V2, V3, V4, V5, V6)> for (K0, K1, K2, K3, K4, K5, K6) where
    K0::Nullability: IntoUpdateColumnValue<K0, V0>,
    K1::Nullability: IntoUpdateColumnValue<K1, V1>,
    K2::Nullability: IntoUpdateColumnValue<K2, V2>,
    K3::Nullability: IntoUpdateColumnValue<K3, V3>,
    K4::Nullability: IntoUpdateColumnValue<K4, V4>,
    K5::Nullability: IntoUpdateColumnValue<K5, V5>,
    K6::Nullability: IntoUpdateColumnValue<K6, V6>,
    <<K6::Nullability as IntoUpdateColumnValue<K6, V6>>::AssignmentValue as AssignmentValueNode>::Params: HAppend<HNil>,
    <<K5::Nullability as IntoUpdateColumnValue<K5, V5>>::AssignmentValue as AssignmentValueNode>::Params: HAppend<<<<K6::Nullability as IntoUpdateColumnValue<K6, V6>>::AssignmentValue as AssignmentValueNode>::Params as HAppend<HNil>>::Output>,
    <<K4::Nullability as IntoUpdateColumnValue<K4, V4>>::AssignmentValue as AssignmentValueNode>::Params: HAppend<<<<K5::Nullability as IntoUpdateColumnValue<K5, V5>>::AssignmentValue as AssignmentValueNode>::Params as HAppend<<<<K6::Nullability as IntoUpdateColumnValue<K6, V6>>::AssignmentValue as AssignmentValueNode>::Params as HAppend<HNil>>::Output>>::Output>,
    <<K3::Nullability as IntoUpdateColumnValue<K3, V3>>::AssignmentValue as AssignmentValueNode>::Params: HAppend<<<<K4::Nullability as IntoUpdateColumnValue<K4, V4>>::AssignmentValue as AssignmentValueNode>::Params as HAppend<<<<K5::Nullability as IntoUpdateColumnValue<K5, V5>>::AssignmentValue as AssignmentValueNode>::Params as HAppend<<<<K6::Nullability as IntoUpdateColumnValue<K6, V6>>::AssignmentValue as AssignmentValueNode>::Params as HAppend<HNil>>::Output>>::Output>>::Output>,
    <<K2::Nullability as IntoUpdateColumnValue<K2, V2>>::AssignmentValue as AssignmentValueNode>::Params: HAppend<<<<K3::Nullability as IntoUpdateColumnValue<K3, V3>>::AssignmentValue as AssignmentValueNode>::Params as HAppend<<<<K4::Nullability as IntoUpdateColumnValue<K4, V4>>::AssignmentValue as AssignmentValueNode>::Params as HAppend<<<<K5::Nullability as IntoUpdateColumnValue<K5, V5>>::AssignmentValue as AssignmentValueNode>::Params as HAppend<<<<K6::Nullability as IntoUpdateColumnValue<K6, V6>>::AssignmentValue as AssignmentValueNode>::Params as HAppend<HNil>>::Output>>::Output>>::Output>>::Output>,
    <<K1::Nullability as IntoUpdateColumnValue<K1, V1>>::AssignmentValue as AssignmentValueNode>::Params: HAppend<<<<K2::Nullability as IntoUpdateColumnValue<K2, V2>>::AssignmentValue as AssignmentValueNode>::Params as HAppend<<<<K3::Nullability as IntoUpdateColumnValue<K3, V3>>::AssignmentValue as AssignmentValueNode>::Params as HAppend<<<<K4::Nullability as IntoUpdateColumnValue<K4, V4>>::AssignmentValue as AssignmentValueNode>::Params as HAppend<<<<K5::Nullability as IntoUpdateColumnValue<K5, V5>>::AssignmentValue as AssignmentValueNode>::Params as HAppend<<<<K6::Nullability as IntoUpdateColumnValue<K6, V6>>::AssignmentValue as AssignmentValueNode>::Params as HAppend<HNil>>::Output>>::Output>>::Output>>::Output>>::Output>,
    <<K0::Nullability as IntoUpdateColumnValue<K0, V0>>::AssignmentValue as AssignmentValueNode>::Params: HAppend<<<<K1::Nullability as IntoUpdateColumnValue<K1, V1>>::AssignmentValue as AssignmentValueNode>::Params as HAppend<<<<K2::Nullability as IntoUpdateColumnValue<K2, V2>>::AssignmentValue as AssignmentValueNode>::Params as HAppend<<<<K3::Nullability as IntoUpdateColumnValue<K3, V3>>::AssignmentValue as AssignmentValueNode>::Params as HAppend<<<<K4::Nullability as IntoUpdateColumnValue<K4, V4>>::AssignmentValue as AssignmentValueNode>::Params as HAppend<<<<K5::Nullability as IntoUpdateColumnValue<K5, V5>>::AssignmentValue as AssignmentValueNode>::Params as HAppend<<<<K6::Nullability as IntoUpdateColumnValue<K6, V6>>::AssignmentValue as AssignmentValueNode>::Params as HAppend<HNil>>::Output>>::Output>>::Output>>::Output>>::Output>>::Output>,
 {
    type Assignments = HCons<UpdateAssignment<K0, <K0::Nullability as IntoUpdateColumnValue<K0, V0>>::AssignmentValue>, HCons<UpdateAssignment<K1, <K1::Nullability as IntoUpdateColumnValue<K1, V1>>::AssignmentValue>, HCons<UpdateAssignment<K2, <K2::Nullability as IntoUpdateColumnValue<K2, V2>>::AssignmentValue>, HCons<UpdateAssignment<K3, <K3::Nullability as IntoUpdateColumnValue<K3, V3>>::AssignmentValue>, HCons<UpdateAssignment<K4, <K4::Nullability as IntoUpdateColumnValue<K4, V4>>::AssignmentValue>, HCons<UpdateAssignment<K5, <K5::Nullability as IntoUpdateColumnValue<K5, V5>>::AssignmentValue>, HCons<UpdateAssignment<K6, <K6::Nullability as IntoUpdateColumnValue<K6, V6>>::AssignmentValue>, HNil>>>>>>>;

    open spec fn column_names() -> Seq<&'static str> {
        seq![K0::NAME, K1::NAME, K2::NAME, K3::NAME, K4::NAME, K5::NAME, K6::NAME]
    }

    open spec fn assigns(values: (V0, V1, V2, V3, V4, V5, V6), assignments: Self::Assignments) -> bool {
        &&& <K0::Nullability as IntoUpdateColumnValue<K0, V0>>::updates(values.0, assignments.head.value)
        &&& <K1::Nullability as IntoUpdateColumnValue<K1, V1>>::updates(values.1, assignments.tail.head.value)
        &&& <K2::Nullability as IntoUpdateColumnValue<K2, V2>>::updates(values.2, assignments.tail.tail.head.value)
        &&& <K3::Nullability as IntoUpdateColumnValue<K3, V3>>::updates(values.3, assignments.tail.tail.tail.head.value)
        &&& <K4::Nullability as IntoUpdateColumnValue<K4, V4>>::updates(values.4, assignments.tail.tail.tail.tail.head.value)
        &&& <K5::Nullability as IntoUpdateColumnValue<K5, V5>>::updates(values.5, assignments.tail.tail.tail.tail.tail.head.value)
        &&& <K6::Nullability as IntoUpdateColumnValue<K6, V6>>::updates(values.6, assignments.tail.tail.tail.tail.tail.tail.head.value)
    }

    fn into_update_assignments(values: (V0, V1, V2, V3, V4, V5, V6)) -> (assignments: Self::Assignments) {
        let a0 = <K0::Nullability as IntoUpdateColumnValue<K0, V0>>::into_update_column_value(values.0);
        let a1 = <K1::Nullability as IntoUpdateColumnValue<K1, V1>>::into_update_column_value(values.1);
        let a2 = <K2::Nullability as IntoUpdateColumnValue<K2, V2>>::into_update_column_value(values.2);
        let a3 = <K3::Nullability as IntoUpdateColumnValue<K3, V3>>::into_update_column_value(values.3);
        let a4 = <K4::Nullability as IntoUpdateColumnValue<K4, V4>>::into_update_column_value(values.4);
        let a5 = <K5::Nullability as IntoUpdateColumnValue<K5, V5>>::into_update_column_value(values.5);
        let a6 = <K6::Nullability as IntoUpdateColumnValue<K6, V6>>::into_update_column_value(values.6);
        let assignments = HCons { head: UpdateAssignment::<K0, _>::new(a0), tail: HCons { head: UpdateAssignment::<K1, _>::new(a1), tail: HCons { head: UpdateAssignment::<K2, _>::new(a2), tail: HCons { head: UpdateAssignment::<K3, _>::new(a3), tail: HCons { head: UpdateAssignment::<K4, _>::new(a4), tail: HCons { head: UpdateAssignment::<K5, _>::new(a5), tail: HCons { head: UpdateAssignment::<K6, _>::new(a6), tail: HNil } } } } } } };
        assert(assignments.names() =~= seq![K0::NAME, K1::NAME, K2::NAME, K3::NAME, K4::NAME, K5::NAME, K6::NAME]);
        assignments
    }
}

impl<
    S: UpdateableTable,
    K0: UpdateColumnKey<Table = S>,
    K1: UpdateColumnKey<Table = S>,
    K2: UpdateColumnKey<Table = S>,
    K3: UpdateColumnKey<Table = S>,
    K4: UpdateColumnKey<Table = S>,
    K5: UpdateColumnKey<Table = S>,
    K6: UpdateColumnKey<Table = S>,
    K7: UpdateColumnKey<Table = S>,
    V0, V1, V2, V3, V4, V5, V6, V7,
> UpdateColumnValues<S, (V0, V1, V2, V3, V4, V5, V6, V7)> for (K0, K1, K2, K3, K4, K5, K6, K7) where
    K0::Nullability: IntoUpdateColumnValue<K0, V0>,
    K1::Nullability: IntoUpdateColumnValue<K1, V1>,
    K2::Nullability: IntoUpdateColumnValue<K2, V2>,
    K3::Nullability: IntoUpdateColumnValue<K3, V3>,
    K4::Nullability: IntoUpdateColumnValue<K4, V4>,
    K5::Nullability: IntoUpdateColumnValue<K5, V5>,
    K6::Nullability: IntoUpdateColumnValue<K6, V6>,
    K7::Nullability: IntoUpdateColumnValue<K7, V7>,
    <<K7::Nullability as IntoUpdateColumnValue<K7, V7>>::AssignmentValue as AssignmentValueNode>::Params: HAppend<HNil>,
    <<K6::Nullability as IntoUpdateColumnValue<K6, V6>>::AssignmentValue as AssignmentValueNode>::Params: HAppend<<<<K7::Nullability as IntoUpdateColumnValue<K7, V7>>::AssignmentValue as AssignmentValueNode>::Params as HAppend<HNil>>::Output>,
    <<K5::Nullability as IntoUpdateColumnValue<K5, V5>>::AssignmentValue as AssignmentValueNode>::Params: HAppend<<<<K6::Nullability as IntoUpdateColumnValue<K6, V6>>::AssignmentValue as AssignmentValueNode>::Params as HAppend<<<<K7::Nullability as IntoUpdateColumnValue<K7, V7>>::AssignmentValue as AssignmentValueNode>::Params as HAppend<HNil>>::Output>>::Output>,
    <<K4::Nullability as IntoUpdateColumnValue<K4, V4>>::AssignmentValue as AssignmentValueNode>::Params: HAppend<<<<K5::Nullability as IntoUpdateColumnValue<K5, V5>>::AssignmentValue as AssignmentValueNode>::Params as HAppend<<<<K6::Nullability as IntoUpdateColumnValue<K6, V6>>::AssignmentValue as AssignmentValueNode>::Params as HAppend<<<<K7::Nullability as IntoUpdateColumnValue<K7, V7>>::AssignmentValue as AssignmentValueNode>::Params as HAppend<HNil>>::Output>>::Output>>::Output>,
    <<K3::Nullability as IntoUpdateColumnValue<K3, V3>>::AssignmentValue as AssignmentValueNode>::Params: HAppend<<<<K4::Nullability as IntoUpdateColumnValue<K4, V4>>::AssignmentValue as AssignmentValueNode>::Params as HAppend<<<<K5::Nullability as IntoUpdateColumnValue<K5, V5>>::AssignmentValue as AssignmentValueNode>::Params as HAppend<<<<K6::Nullability as IntoUpdateColumnValue<K6, V6>>::AssignmentValue as AssignmentValueNode>::Params as HAppend<<<<K7::Nullability as IntoUpdateColumnValue<K7, V7>>::AssignmentValue as AssignmentValueNode>::Params as HAppend<HNil>>::Output>>::Output>>::Output>>::Output>,
    <<K2::Nullability as IntoUpdateColumnValue<K2, V2>>::AssignmentValue as AssignmentValueNode>::Params: HAppend<<<<K3::Nullability as IntoUpdateColumnValue<K3, V3>>::AssignmentValue as AssignmentValueNode>::Params as HAppend<<<<K4::Nullability as IntoUpdateColumnValue<K4, V4>>::AssignmentValue as AssignmentValueNode>::Params as HAppend<<<<K5::Nullability as IntoUpdateColumnValue<K5, V5>>::AssignmentValue as AssignmentValueNode>::Params as HAppend<<<<K6::Nullability as IntoUpdateColumnValue<K6, V6>>::AssignmentValue as AssignmentValueNode>::Params as HAppend<<<<K7::Nullability as IntoUpdateColumnValue<K7, V7>>::AssignmentValue as AssignmentValueNode>::Params as HAppend<HNil>>::Output>>::Output>>::Output>>::Output>>::Output>,
    <<K1::Nullability as IntoUpdateColumnValue<K1, V1>>::AssignmentValue as AssignmentValueNode>::Params: HAppend<<<<K2::Nullability as IntoUpdateColumnValue<K2, V2>>::AssignmentValue as AssignmentValueNode>::Params as HAppend<<<<K3::Nullability as IntoUpdateColumnValue<K3, V3>>::AssignmentValue as AssignmentValueNode>::Params as HAppend<<<<K4::Nullability as IntoUpdateColumnValue<K4, V4>>::AssignmentValue as AssignmentValueNode>::Params as HAppend<<<<K5::Nullability as IntoUpdateColumnValue<K5, V5>>::AssignmentValue as AssignmentValueNode>::Params as HAppend<<<<K6::Nullability as IntoUpdateColumnValue<K6, V6>>::AssignmentValue as AssignmentValueNode>::Params as HAppend<<<<K7::Nullability as IntoUpdateColumnValue<K7, V7>>::AssignmentValue as AssignmentValueNode>::Params as HAppend<HNil>>::Output>>::Output>>::Output>>::Output>>::Output>>::Output>,
    <<K0::Nullability as IntoUpdateColumnValue<K0, V0>>::AssignmentValue as AssignmentValueNode>::Params: HAppend<<<<K1::Nullability as IntoUpdateColumnValue<K1, V1>>::AssignmentValue as AssignmentValueNode>::Params as HAppend<<<<K2::Nullability as IntoUpdateColumnValue<K2, V2>>::AssignmentValue as AssignmentValueNode>::Params as HAppend<<<<K3::Nullability as IntoUpdateColumnValue<K3, V3>>::AssignmentValue as AssignmentValueNode>::Params as HAppend<<<<K4::Nullability as IntoUpdateColumnValue<K4, V4>>::AssignmentValue as AssignmentValueNode>::Params as HAppend<<<<K5::Nullability as IntoUpdateColumnValue<K5, V5>>::AssignmentValue as AssignmentValueNode>::Params as HAppend<<<<K6::Nullability as IntoUpdateColumnValue<K6, V6>>::AssignmentValue as AssignmentValueNode>::Params as HAppend<<<<K7::Nullability as IntoUpdateColumnValue<K7, V7>>::AssignmentValue as AssignmentValueNode>::Params as HAppend<HNil>>::Output>>::Output>>::Output>>::Output>>::Output>>::Output>>::Output>,
 {
    type Assignments = HCons<UpdateAssignment<K0, <K0::Nullability as IntoUpdateColumnValue<K0, V0>>::AssignmentValue>, HCons<UpdateAssignment<K1, <K1::Nullability as IntoUpdateColumnValue<K1, V1>>::AssignmentValue>, HCons<UpdateAssignment<K2, <K2::Nullability as IntoUpdateColumnValue<K2, V2>>::AssignmentValue>, HCons<UpdateAssignment<K3, <K3::Nullability as IntoUpdateColumnValue<K3, V3>>::AssignmentValue>, HCons<UpdateAssignment<K4, <K4::Nullability as IntoUpdateColumnValue<K4, V4>>::AssignmentValue>, HCons<UpdateAssignment<K5, <K5::Nullability as IntoUpdateColumnValue<K5, V5>>::AssignmentValue>, HCons<UpdateAssignment<K6, <K6::Nullability as IntoUpdateColumnValue<K6, V6>>::AssignmentValue>, HCons<UpdateAssignment<K7, <K7::Nullability as IntoUpdateColumnValue<K7, V7>>::AssignmentValue>, HNil>>>>>>>>;

    open spec fn column_names() -> Seq<&'static str> {
        seq![K0::NAME, K1::NAME, K2::NAME, K3::NAME, K4::NAME, K5::NAME, K6::NAME, K7::NAME]
    }

    open spec fn assigns(values: (V0, V1, V2, V3, V4, V5, V6, V7), assignments: Self::Assignments) -> bool {
        &&& <K0::Nullability as IntoUpdateColumnValue<K0, V0>>::updates(values.0, assignments.head.value)
        &&& <K1::Nullability as IntoUpdateColumnValue<K1, V1>>::updates(values.1, assignments.tail.head.value)
        &&& <K2::Nullability as IntoUpdateColumnValue<K2, V2>>::updates(values.2, assignments.tail.tail.head.value)
        &&& <K3::Nullability as IntoUpdateColumnValue<K3, V3>>::updates(values.3, assignments.tail.tail.tail.head.value)
        &&& <K4::Nullability as IntoUpdateColumnValue<K4, V4>>::updates(values.4, assignments.tail.tail.tail.tail.head.value)
        &&& <K5::Nullability as IntoUpdateColumnValue<K5, V5>>::updates(values.5, assignments.tail.tail.tail.tail.tail.head.value)
        &&& <K6::Nullability as IntoUpdateColumnValue<K6, V6>>::updates(values.6, assignments.tail.tail.tail.tail.tail.tail.head.value)
        &&& <K7::Nullability as IntoUpdateColumnValue<K7, V7>>::updates(values.7, assignments.tail.tail.tail.tail.tail.tail.tail.head.value)
    }

    fn into_update_assignments(values: (V0, V1, V2, V3, V4, V5, V6, V7)) -> (assignments: Self::Assignments) {
        let a0 = <K0::Nullability as IntoUpdateColumnValue<K0, V0>>::into_update_column_value(values.0);
        let a1 = <K1::Nullability as IntoUpdateColumnValue<K1, V1>>::into_update_column_value(values.1);
        let a2 = <K2::Nullability as IntoUpdateColumnValue<K2, V2>>::into_update_column_value(values.2);
        let a3 = <K3::Nullability as IntoUpdateColumnValue<K3, V3>>::into_update_column_value(values.3);
        let a4 = <K4::Nullability as IntoUpdateColumnValue<K4, V4>>::into_update_column_value(values.4);
        let a5 = <K5::Nullability as IntoUpdateColumnValue<K5, V5>>::into_update_column_value(values.5);
        let a6 = <K6::Nullability as IntoUpdateColumnValue<K6, V6>>::into_update_column_value(values.6);
        let a7 = <K7::Nullability as IntoUpdateColumnValue<K7, V7>>::into_update_column_value(values.7);
        let assignments = HCons { head: UpdateAssignment::<K0, _>::new(a0), tail: HCons { head: UpdateAssignment::<K1, _>::new(a1), tail: HCons { head: UpdateAssignment::<K2, _>::new(a2), tail: HCons { head: UpdateAssignment::<K3, _>::new(a3), tail: HCons { head: UpdateAssignment::<K4, _>::new(a4), tail: HCons { head: UpdateAssignment::<K5, _>::new(a5), tail: HCons { head: UpdateAssignment::<K6, _>::new(a6), tail: HCons { head: UpdateAssignment::<K7, _>::new(a7), tail: HNil } } } } } } } };
        assert(assignments.names() =~= seq![K0::NAME, K1::NAME, K2::NAME, K3::NAME, K4::NAME, K5::NAME, K6::NAME, K7::NAME]);
        assignments
    }
}

/// The assignments of one row.
pub struct InsertRow<Columns> {
    pub columns: Columns,
}

impl<Columns: InsertAssignments> InsertRow<Columns> {
    pub fn new(columns: Columns) -> (row: Self)
        ensures
            row.columns == columns,
    {
        InsertRow { columns }
    }

    pub fn columns(&self) -> (columns: &Columns)
        ensures
            *columns == self.columns,
    {
        &self.columns
    }
}

/// The rows of an `INSERT`.
pub trait InsertRows {
    type Params: HList;

    /// The assigned columns, row by row.
    spec fn row_columns(&self) -> Seq<Seq<&'static str>>;

    spec fn binds(&self) -> nat;

    fn len(&self) -> (len: usize)
        requires
            self.row_columns().len() <= usize::MAX,
        ensures
            len == self.row_columns().len(),
    ;

    fn is_empty(&self) -> (empty: bool)
        ensures
            empty == (self.row_columns().len() == 0),
    ;

    /// How many columns the first row assigns.
    fn first_row_len(&self) -> (len: usize)
        requires
            self.row_columns().len() > 0 ==> self.row_columns()[0].len() <= usize::MAX,
        ensures
            len == (if self.row_columns().len() > 0 {
                self.row_columns()[0].len()
            } else {
                0
            }),
    ;

    /// Adds the names of the columns that the first row assigns.
    fn collect_columns(&self, columns: &mut Vec<&'static str>)
        ensures
            final(columns)@ == old(columns)@ + (if self.row_columns().len() > 0 {
                self.row_columns()[0]
            } else {
                Seq::empty()
            }),
    ;

    fn param_count(&self) -> (count: usize)
        requires
            self.binds() <= usize::MAX,
        ensures
            count == self.binds(),
    ;
}

/// How rows lower for a backend.
pub trait RenderInsertRows<B: Backend>: InsertRows {
    spec fn rows(&self) -> List<List<AssignmentTree<Bound<B>>>>;

    fn lower_rows(&self) -> (rows: List<List<AssignmentTree<Bound<B>>>>)
        ensures
            rows == self.rows(),
    ;

    /// The parameter shape has one entry for each runtime parameter that is written.
    proof fn lemma_rows_params<D: Dialect>(&self, dialect: D, first: bool)
        ensures
            tokens::runtimes(grammar::rows_tokens(dialect, first, self.rows()))
                == <Self::Params as HList>::width(),
    ;

    /// The lowered rows have as many values as columns.
    proof fn lemma_row_columns(&self, count: nat)
        ensures
            (forall|i: int|
                0 <= i < self.row_columns().len() ==> (#[trigger] self.row_columns()[i]).len()
                    == count) ==> grammar::rows_agree(count, self.rows()),
            self.row_columns().len() > 0 ==> grammar::insert_columns(self.rows()).seq().len()
                == self.row_columns()[0].len(),
            self.row_columns().len() == 0 ==> self.rows() is Nil,
    ;
}

/// Rows of which there is at least one.
pub trait NonEmptyInsertRows: InsertRows {
    proof fn lemma_non_empty(&self)
        ensures
            self.row_columns().len() > 0,
    ;
}

/// Rows to which a row can be added.
pub trait PushInsertRow<Columns: InsertAssignments>: InsertRows + Sized {
    type Output: InsertRows;

    /// These rows with `row` behind the last one.
    spec fn with_row(self, row: InsertRow<Columns>) -> Self::Output;

    fn push_row(self, row: InsertRow<Columns>) -> (rows: Self::Output)
        ensures
            rows == self.with_row(row),
            rows.row_columns() == self.row_columns().push(row.columns.names()),
    ;
}

impl InsertRows for HNil {
    type Params = HNil;

    open spec fn row_columns(&self) -> Seq<Seq<&'static str>> {
        Seq::empty()
    }

    open spec fn binds(&self) -> nat {
        0
    }

    fn len(&self) -> (len: usize) {
        0
    }

    fn is_empty(&self) -> (empty: bool) {
        true
    }

    fn first_row_len(&self) -> (len: usize) {
        0
    }

    fn collect_columns(&self, columns: &mut Vec<&'static str>) {
        assert(columns@ + Seq::empty() =~= columns@);
    }

    fn param_count(&self) -> (count: usize) {
        0
    }
}

impl<B: Backend> RenderInsertRows<B> for HNil {
    open spec fn rows(&self) -> List<List<AssignmentTree<Bound<B>>>> {
        List::Nil
    }

    fn lower_rows(&self) -> (rows: List<List<AssignmentTree<Bound<B>>>>) {
        List::Nil
    }

    proof fn lemma_rows_params<D: Dialect>(&self, dialect: D, first: bool) {
        assert(<HNil as HList>::width() == 0);
    }

    proof fn lemma_row_columns(&self, count: nat) {
    }
}

impl<Columns: InsertAssignments> PushInsertRow<Columns> for HNil where
    Columns::Params: HAppend<HNil>,
 {
    type Output = HCons<InsertRow<Columns>, HNil>;

    open spec fn with_row(self, row: InsertRow<Columns>) -> Self::Output {
        HCons { head: row, tail: HNil }
    }

    fn push_row(self, row: InsertRow<Columns>) -> (rows: Self::Output) {
        let rows = HCons { head: row, tail: HNil };
        assert(rows.row_columns() =~= self.row_columns().push(row.columns.names()));
        rows
    }
}

impl<Columns: InsertAssignments, Tail: InsertRows> InsertRows for HCons<
    InsertRow<Columns>,
    Tail,
> where Columns::Params: HAppend<Tail::Params> {
    type Params = <Columns::Params as HAppend<Tail::Params>>::Output;

    open spec fn row_columns(&self) -> Seq<Seq<&'static str>> {
        seq![self.head.columns.names()] + self.tail.row_columns()
    }

    open spec fn binds(&self) -> nat {
        self.head.columns.binds() + self.tail.binds()
    }

    fn len(&self) -> (len: usize) {
        1 + self.tail.len()
    }

    fn is_empty(&self) -> (empty: bool) {
        false
    }

    fn first_row_len(&self) -> (len: usize) {
        self.head.columns.len()
    }

    fn collect_columns(&self, columns: &mut Vec<&'static str>) {
        self.head.columns.collect_columns(columns)
    }

    fn param_count(&self) -> (count: usize) {
        self.head.columns.param_count() + self.tail.param_count()
    }
}

impl<
    Columns: RenderInsertAssignments<B>,
    Tail: RenderInsertRows<B>,
    B: Backend,
> RenderInsertRows<B> for HCons<InsertRow<Columns>, Tail> where
    Columns::Params: HAppend<Tail::Params>,
 {
    open spec fn rows(&self) -> List<List<AssignmentTree<Bound<B>>>> {
        List::Cons {
            head: Box::new(self.head.columns.assignments()),
            tail: Box::new(self.tail.rows()),
        }
    }

    fn lower_rows(&self) -> (rows: List<List<AssignmentTree<Bound<B>>>>) {
        List::Cons {
            head: Box::new(self.head.columns.lower_assignments()),
            tail: Box::new(self.tail.lower_rows()),
        }
    }

    proof fn lemma_rows_params<D: Dialect>(&self, dialect: D, first: bool) {
        self.head.columns.lemma_assignments_params(dialect, true);
        self.tail.lemma_rows_params(dialect, false);
        <Columns::Params as HAppend<Tail::Params>>::lemma_append_width();
    }

    proof fn lemma_row_columns(&self, count: nat) {
        self.head.columns.lemma_assignments_names();
        self.tail.lemma_row_columns(count);
        let all = self.row_columns();
        assert(all[0] == self.head.columns.names());
        if forall|i: int| 0 <= i < all.len() ==> (#[trigger] all[i]).len() == count {
            assert forall|i: int| 0 <= i < self.tail.row_columns().len() implies (
            #[trigger] self.tail.row_columns()[i]).len() == count by {
                assert(all[i + 1] == self.tail.row_columns()[i]);
            }
        }
    }
}

impl<Columns: InsertAssignments, Tail: InsertRows> NonEmptyInsertRows for HCons<
    InsertRow<Columns>,
    Tail,
> where Columns::Params: HAppend<Tail::Params> {
    proof fn lemma_non_empty(&self) {
    }
}

impl<
    First: InsertAssignments,
    Tail: PushInsertRow<Columns>,
    Columns: InsertAssignments,
> PushInsertRow<Columns> for HCons<InsertRow<First>, Tail> where
    First::Params: HAppend<Tail::Params>,
    First::Params: HAppend<<<Tail as PushInsertRow<Columns>>::Output as InsertRows>::Params>,
 {
    type Output = HCons<InsertRow<First>, <Tail as PushInsertRow<Columns>>::Output>;

    open spec fn with_row(self, row: InsertRow<Columns>) -> Self::Output {
        HCons { head: self.head, tail: self.tail.with_row(row) }
    }

    fn push_row(self, row: InsertRow<Columns>) -> (rows: Self::Output) {
        let ghost before = self.tail.row_columns();
        let rows = HCons { head: self.head, tail: self.tail.push_row(row) };
        assert(rows.row_columns() =~= (seq![self.head.columns.names()] + before).push(
            row.columns.names(),
        ));
        rows
    }
}

/// The conditions of an update or a delete.
pub trait PredicateNodes {
    type Params: HList;

    spec fn count(&self) -> nat;

    fn len(&self) -> (len: usize)
        requires
            self.count() <= usize::MAX,
        ensures
            len == self.count(),
    ;

    fn is_empty(&self) -> (empty: bool)
        ensures
            empty == (self.count() == 0),
    ;
}

/// How conditions lower for a backend.
pub trait RenderPredicateNodes<B: Backend>: PredicateNodes {
    spec fn conditions(&self) -> List<PredicateTree<Bound<B>>>;

    fn lower_conditions(&self) -> (conditions: List<PredicateTree<Bound<B>>>)
        ensures
            conditions == self.conditions(),
    ;

    /// The parameter shape has one entry for each runtime parameter that is written.
    proof fn lemma_conditions_params<D: Dialect>(&self, dialect: D, lead: Seq<char>)
        ensures
            self.conditions().seq().len() == self.count(),
            tokens::runtimes(grammar::predicate_list_tokens(dialect, lead, self.conditions()))
                == <Self::Params as HList>::width(),
    ;
}

impl PredicateNodes for HNil {
    type Params = HNil;

    open spec fn count(&self) -> nat {
        0
    }

    fn len(&self) -> (len: usize) {
        0
    }

    fn is_empty(&self) -> (empty: bool) {
        true
    }
}

impl<B: Backend> RenderPredicateNodes<B> for HNil {
    open spec fn conditions(&self) -> List<PredicateTree<Bound<B>>> {
        List::Nil
    }

    fn lower_conditions(&self) -> (conditions: List<PredicateTree<Bound<B>>>) {
        List::Nil
    }

    proof fn lemma_conditions_params<D: Dialect>(&self, dialect: D, lead: Seq<char>) {
        assert(<HNil as HList>::width() == 0);
    }
}

impl<'scope, Kind: PredicateKind, Ast: PredicateAst, Tail: PredicateNodes> PredicateNodes for HCons<
    Predicate<'scope, Kind, Ast>,
    Tail,
> where Ast::Params: HAppend<Tail::Params> {
    type Params = <Ast::Params as HAppend<Tail::Params>>::Output;

    open spec fn count(&self) -> nat {
        self.tail.count() + 1
    }

    fn len(&self) -> (len: usize) {
        1 + self.tail.len()
    }

    fn is_empty(&self) -> (empty: bool) {
        false
    }
}

impl<
    'scope,
    Kind: PredicateKind,
    Ast: RenderPredicateAst<B>,
    Tail: RenderPredicateNodes<B>,
    B: Backend,
> RenderPredicateNodes<B> for HCons<Predicate<'scope, Kind, Ast>, Tail> where
    Ast::Params: HAppend<Tail::Params>,
 {
    open spec fn conditions(&self) -> List<PredicateTree<Bound<B>>> {
        List::Cons {
            head: Box::new(self.head.ast.condition()),
            tail: Box::new(self.tail.conditions()),
        }
    }

    fn lower_conditions(&self) -> (conditions: List<PredicateTree<Bound<B>>>) {
        List::Cons {
            head: Box::new(self.head.ast.lower_condition()),
            tail: Box::new(self.tail.lower_conditions()),
        }
    }

    proof fn lemma_conditions_params<D: Dialect>(&self, dialect: D, lead: Seq<char>) {
        self.head.ast.lemma_condition_params(dialect, false);
        self.tail.lemma_conditions_params(dialect, " AND "@);
        <Ast::Params as HAppend<Tail::Params>>::lemma_append_width();
    }
}

} // verus!
