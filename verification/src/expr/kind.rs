//! Type-level identities of SQL expressions and predicates, and what their value types allow.
use crate::list::{HList, HNil};
use crate::number::{Blob, Float32, Float64};
use crate::sql_type::SqlType;
use core::marker::PhantomData;
use vstd::prelude::*;

verus! {

/// Value types that can take part in numeric SQL operations.
pub trait SqlNumber {

}

/// Value types that can take part in SQL pattern matching.
pub trait SqlText {

}

impl SqlText for String {

}

/// The value type that SQL division gives. Division may be fractional even between integers, so it
/// always gives a double-precision number.
pub trait SqlDivide: SqlNumber {
    type Output: SqlNumber;
}

/// The value type that SQL `SUM` gives, and the SQL type that a rendered `SUM` is cast to so that the
/// database returns exactly that.
///
/// Operands of at most 32 bits, as they are stored, sum to `i64`; wider ones to `i128`, unsigned
/// 128-bit ones to `u128`.
pub trait SqlSum: SqlNumber {
    type Output: SqlNumber;

    const SUM_CAST: SqlType;
}

/// The scalar that an aggregate operates on, looking through `Option`: aggregates ignore `NULL`.
pub trait AggregateScalar {
    type Scalar;
}

impl<T: AggregateScalar> AggregateScalar for Option<T> {
    type Scalar = T::Scalar;
}

/// Type-level identity of a SQL expression.
pub trait ExprKind {
    type Value;
}

/// Witness that two column value types are the same.
pub trait SameValue<T> {

}

impl<T> SameValue<T> for T {

}

/// The kind of a `LAG` or `LEAD` over an operand: always nullable, and not more than once.
pub trait IntoWindowNullable {
    type Kind: ExprKind;
}

impl SqlNumber for i8 {

}

impl SqlDivide for i8 {
    type Output = Float64;
}

impl SqlSum for i8 {
    type Output = i64;

    const SUM_CAST: SqlType = SqlType::I64;
}

impl AggregateScalar for i8 {
    type Scalar = i8;
}

impl SqlNumber for i16 {

}

impl SqlDivide for i16 {
    type Output = Float64;
}

impl SqlSum for i16 {
    type Output = i64;

    const SUM_CAST: SqlType = SqlType::I64;
}

impl AggregateScalar for i16 {
    type Scalar = i16;
}

impl SqlNumber for i32 {

}

impl SqlDivide for i32 {
    type Output = Float64;
}

impl SqlSum for i32 {
    type Output = i64;

    const SUM_CAST: SqlType = SqlType::I64;
}

impl AggregateScalar for i32 {
    type Scalar = i32;
}

impl SqlNumber for i64 {

}

impl SqlDivide for i64 {
    type Output = Float64;
}

impl SqlSum for i64 {
    type Output = i128;

    const SUM_CAST: SqlType = SqlType::I128;
}

impl AggregateScalar for i64 {
    type Scalar = i64;
}

impl SqlNumber for i128 {

}

impl SqlDivide for i128 {
    type Output = Float64;
}

impl SqlSum for i128 {
    type Output = i128;

    const SUM_CAST: SqlType = SqlType::I128;
}

impl AggregateScalar for i128 {
    type Scalar = i128;
}

impl SqlNumber for isize {

}

impl SqlDivide for isize {
    type Output = Float64;
}

impl SqlSum for isize {
    type Output = i128;

    const SUM_CAST: SqlType = SqlType::I128;
}

impl AggregateScalar for isize {
    type Scalar = isize;
}

impl SqlNumber for u8 {

}

impl SqlDivide for u8 {
    type Output = Float64;
}

impl SqlSum for u8 {
    type Output = i64;

    const SUM_CAST: SqlType = SqlType::I64;
}

impl AggregateScalar for u8 {
    type Scalar = u8;
}

impl SqlNumber for u16 {

}

impl SqlDivide for u16 {
    type Output = Float64;
}

impl SqlSum for u16 {
    type Output = i64;

    const SUM_CAST: SqlType = SqlType::I64;
}

impl AggregateScalar for u16 {
    type Scalar = u16;
}

impl SqlNumber for u32 {

}

impl SqlDivide for u32 {
    type Output = Float64;
}

impl SqlSum for u32 {
    type Output = i128;

    const SUM_CAST: SqlType = SqlType::I128;
}

impl AggregateScalar for u32 {
    type Scalar = u32;
}

impl SqlNumber for u64 {

}

impl SqlDivide for u64 {
    type Output = Float64;
}

impl SqlSum for u64 {
    type Output = i128;

    const SUM_CAST: SqlType = SqlType::I128;
}

impl AggregateScalar for u64 {
    type Scalar = u64;
}

impl SqlNumber for u128 {

}

impl SqlDivide for u128 {
    type Output = Float64;
}

impl SqlSum for u128 {
    type Output = u128;

    const SUM_CAST: SqlType = SqlType::U128;
}

impl AggregateScalar for u128 {
    type Scalar = u128;
}

impl SqlNumber for usize {

}

impl SqlDivide for usize {
    type Output = Float64;
}

impl SqlSum for usize {
    type Output = i128;

    const SUM_CAST: SqlType = SqlType::I128;
}

impl AggregateScalar for usize {
    type Scalar = usize;
}

impl SqlNumber for Float32 {

}

impl SqlDivide for Float32 {
    type Output = Float64;
}

impl SqlSum for Float32 {
    type Output = Float64;

    const SUM_CAST: SqlType = SqlType::F64;
}

impl AggregateScalar for Float32 {
    type Scalar = Float32;
}

impl SqlNumber for Float64 {

}

impl SqlDivide for Float64 {
    type Output = Float64;
}

impl SqlSum for Float64 {
    type Output = Float64;

    const SUM_CAST: SqlType = SqlType::F64;
}

impl AggregateScalar for Float64 {
    type Scalar = Float64;
}

impl AggregateScalar for String {
    type Scalar = String;
}

impl ExprKind for i8 {
    type Value = i8;
}

impl IntoWindowNullable for i8 {
    type Kind = ScalarNullable<i8>;
}

impl ExprKind for i16 {
    type Value = i16;
}

impl IntoWindowNullable for i16 {
    type Kind = ScalarNullable<i16>;
}

impl ExprKind for i32 {
    type Value = i32;
}

impl IntoWindowNullable for i32 {
    type Kind = ScalarNullable<i32>;
}

impl ExprKind for i64 {
    type Value = i64;
}

impl IntoWindowNullable for i64 {
    type Kind = ScalarNullable<i64>;
}

impl ExprKind for i128 {
    type Value = i128;
}

impl IntoWindowNullable for i128 {
    type Kind = ScalarNullable<i128>;
}

impl ExprKind for isize {
    type Value = isize;
}

impl IntoWindowNullable for isize {
    type Kind = ScalarNullable<isize>;
}

impl ExprKind for u8 {
    type Value = u8;
}

impl IntoWindowNullable for u8 {
    type Kind = ScalarNullable<u8>;
}

impl ExprKind for u16 {
    type Value = u16;
}

impl IntoWindowNullable for u16 {
    type Kind = ScalarNullable<u16>;
}

impl ExprKind for u32 {
    type Value = u32;
}

impl IntoWindowNullable for u32 {
    type Kind = ScalarNullable<u32>;
}

impl ExprKind for u64 {
    type Value = u64;
}

impl IntoWindowNullable for u64 {
    type Kind = ScalarNullable<u64>;
}

impl ExprKind for u128 {
    type Value = u128;
}

impl IntoWindowNullable for u128 {
    type Kind = ScalarNullable<u128>;
}

impl ExprKind for usize {
    type Value = usize;
}

impl IntoWindowNullable for usize {
    type Kind = ScalarNullable<usize>;
}

impl ExprKind for Float32 {
    type Value = Float32;
}

impl IntoWindowNullable for Float32 {
    type Kind = ScalarNullable<Float32>;
}

impl ExprKind for Float64 {
    type Value = Float64;
}

impl IntoWindowNullable for Float64 {
    type Kind = ScalarNullable<Float64>;
}

impl ExprKind for String {
    type Value = String;
}

impl IntoWindowNullable for String {
    type Kind = ScalarNullable<String>;
}

impl ExprKind for bool {
    type Value = bool;
}

impl IntoWindowNullable for bool {
    type Kind = ScalarNullable<bool>;
}

impl<const N: usize> ExprKind for [u8; N] {
    type Value = [u8; N];
}

impl ExprKind for Blob {
    type Value = Blob;
}

impl IntoWindowNullable for Blob {
    type Kind = ScalarNullable<Blob>;
}

/// Type-level identity of a nullable SQL expression.
pub enum Nullable<K> {
    _Marker(PhantomData<K>),
}

impl<K: ExprKind> ExprKind for Nullable<K> {
    type Value = Option<K::Value>;
}

impl<K: ExprKind> IntoWindowNullable for Nullable<K> {
    type Kind = Nullable<K>;
}

/// Marker for expression kinds that may be SQL `NULL`: only those can be tested for it.
pub trait NullableExpr {

}

impl<K> NullableExpr for Nullable<K> {

}

/// Type-level identity of an expression that compares as `K` but may be `NULL`, as a scalar subquery
/// without rows or a `CASE` without `ELSE` is.
pub enum ScalarNullable<K> {
    _Marker(PhantomData<K>),
}

impl<K: ExprKind> ExprKind for ScalarNullable<K> {
    type Value = K::Value;
}

impl<K: ExprKind> IntoWindowNullable for ScalarNullable<K> {
    type Kind = ScalarNullable<K>;
}

impl<K> NullableExpr for ScalarNullable<K> {

}

/// The runtime parameters of a projection's own expressions.
pub trait ProjectionParams {
    type Params: HList;
}

impl<T: ExprKind<Value = T>> ProjectionParams for T {
    type Params = HNil;
}

impl ProjectionParams for () {
    type Params = HNil;
}

/// Type-level identity of a runtime parameter of a prepared statement.
pub enum RuntimeParam<K> {
    _Marker(PhantomData<K>),
}

impl<K: ExprKind> ExprKind for RuntimeParam<K> {
    type Value = K::Value;
}

impl<K: ExprKind> IntoWindowNullable for RuntimeParam<K> {
    type Kind = ScalarNullable<RuntimeParam<K>>;
}

/// Type-level identity of SQL addition.
pub enum AddExpr<L, R> {
    _Marker(PhantomData<(L, R)>),
}

impl<L: ExprKind, R: ExprKind<Value = L::Value>> ExprKind for AddExpr<L, R> where
    L::Value: SqlNumber,
 {
    type Value = L::Value;
}

impl<L, R> IntoWindowNullable for AddExpr<L, R> where AddExpr<L, R>: ExprKind {
    type Kind = ScalarNullable<AddExpr<L, R>>;
}

/// Type-level identity of SQL subtraction.
pub enum SubtractExpr<L, R> {
    _Marker(PhantomData<(L, R)>),
}

impl<L: ExprKind, R: ExprKind<Value = L::Value>> ExprKind for SubtractExpr<L, R> where
    L::Value: SqlNumber,
 {
    type Value = L::Value;
}

impl<L, R> IntoWindowNullable for SubtractExpr<L, R> where SubtractExpr<L, R>: ExprKind {
    type Kind = ScalarNullable<SubtractExpr<L, R>>;
}

/// Type-level identity of SQL multiplication.
pub enum MultiplyExpr<L, R> {
    _Marker(PhantomData<(L, R)>),
}

impl<L: ExprKind, R: ExprKind<Value = L::Value>> ExprKind for MultiplyExpr<L, R> where
    L::Value: SqlNumber,
 {
    type Value = L::Value;
}

impl<L, R> IntoWindowNullable for MultiplyExpr<L, R> where MultiplyExpr<L, R>: ExprKind {
    type Kind = ScalarNullable<MultiplyExpr<L, R>>;
}

/// Type-level identity of SQL division.
pub enum DivideExpr<L, R> {
    _Marker(PhantomData<(L, R)>),
}

impl<L: ExprKind, R: ExprKind<Value = L::Value>> ExprKind for DivideExpr<L, R> where
    L::Value: SqlDivide,
 {
    type Value = <L::Value as SqlDivide>::Output;
}

impl<L, R> IntoWindowNullable for DivideExpr<L, R> where DivideExpr<L, R>: ExprKind {
    type Kind = ScalarNullable<DivideExpr<L, R>>;
}

/// Type-level identity of SQL `COUNT`, which is never `NULL`.
pub enum CountExpr<K> {
    _Marker(PhantomData<K>),
}

impl<K: ExprKind> ExprKind for CountExpr<K> {
    type Value = i64;
}

/// Type-level identity of SQL `SUM`, which is `NULL` over no rows.
pub enum SumExpr<K> {
    _Marker(PhantomData<K>),
}

impl<K: ExprKind> ExprKind for SumExpr<K> where
    K::Value: AggregateScalar,
    <K::Value as AggregateScalar>::Scalar: SqlSum,
 {
    type Value = Option<<<K::Value as AggregateScalar>::Scalar as SqlSum>::Output>;
}

/// Type-level identity of SQL `AVG`, which is `NULL` over no rows and always fractional.
pub enum AvgExpr<K> {
    _Marker(PhantomData<K>),
}

impl<K: ExprKind> ExprKind for AvgExpr<K> where
    K::Value: AggregateScalar,
    <K::Value as AggregateScalar>::Scalar: SqlNumber,
 {
    type Value = Option<Float64>;
}

/// Type-level identity of SQL `MIN`, which is `NULL` over no rows.
pub enum MinExpr<K> {
    _Marker(PhantomData<K>),
}

impl<K: ExprKind> ExprKind for MinExpr<K> where K::Value: AggregateScalar {
    type Value = Option<<K::Value as AggregateScalar>::Scalar>;
}

/// Type-level identity of SQL `MAX`, which is `NULL` over no rows.
pub enum MaxExpr<K> {
    _Marker(PhantomData<K>),
}

impl<K: ExprKind> ExprKind for MaxExpr<K> where K::Value: AggregateScalar {
    type Value = Option<<K::Value as AggregateScalar>::Scalar>;
}

/// Type-level identity of a SQL predicate.
pub trait PredicateKind {

}

/// Type-level identity of a predicate whose exact shape has been erased.
pub enum AnyPredicate {
    Marker,
}

impl PredicateKind for AnyPredicate {

}

/// Type-level identity of equality.
pub enum EqualsPredicate<L, R> {
    _Marker(PhantomData<(L, R)>),
}

impl<L, R> PredicateKind for EqualsPredicate<L, R> {

}

/// Type-level identity of inequality.
pub enum NotEqualsPredicate<L, R> {
    _Marker(PhantomData<(L, R)>),
}

impl<L, R> PredicateKind for NotEqualsPredicate<L, R> {

}

/// Type-level identity of a less-than comparison.
pub enum LessThanPredicate<L, R> {
    _Marker(PhantomData<(L, R)>),
}

impl<L, R> PredicateKind for LessThanPredicate<L, R> {

}

/// Type-level identity of a less-than-or-equal comparison.
pub enum LessThanOrEqualsPredicate<L, R> {
    _Marker(PhantomData<(L, R)>),
}

impl<L, R> PredicateKind for LessThanOrEqualsPredicate<L, R> {

}

/// Type-level identity of a greater-than comparison.
pub enum GreaterThanPredicate<L, R> {
    _Marker(PhantomData<(L, R)>),
}

impl<L, R> PredicateKind for GreaterThanPredicate<L, R> {

}

/// Type-level identity of a greater-than-or-equal comparison.
pub enum GreaterThanOrEqualsPredicate<L, R> {
    _Marker(PhantomData<(L, R)>),
}

impl<L, R> PredicateKind for GreaterThanOrEqualsPredicate<L, R> {

}

/// Type-level identity of conjunction.
pub enum AndPredicate<L, R> {
    _Marker(PhantomData<(L, R)>),
}

impl<L, R> PredicateKind for AndPredicate<L, R> {

}

/// Type-level identity of disjunction.
pub enum OrPredicate<L, R> {
    _Marker(PhantomData<(L, R)>),
}

impl<L, R> PredicateKind for OrPredicate<L, R> {

}

/// Type-level identity of a pattern match.
pub enum LikePredicate<L, R> {
    _Marker(PhantomData<(L, R)>),
}

impl<L, R> PredicateKind for LikePredicate<L, R> {

}

/// Type-level identity of a list membership test.
pub enum InPredicate<K> {
    _Marker(PhantomData<K>),
}

impl<K> PredicateKind for InPredicate<K> {

}

/// Type-level identity of a range test.
pub enum BetweenPredicate<K> {
    _Marker(PhantomData<K>),
}

impl<K> PredicateKind for BetweenPredicate<K> {

}

/// Type-level identity of a boolean expression used as a predicate.
pub enum BoolTestPredicate<K> {
    _Marker(PhantomData<K>),
}

impl<K> PredicateKind for BoolTestPredicate<K> {

}

/// Type-level identity of negation.
pub enum NotPredicate<K> {
    _Marker(PhantomData<K>),
}

impl<K> PredicateKind for NotPredicate<K> {

}

/// Type-level identity of an `IS NULL` test.
pub enum IsNullPredicate<K> {
    _Marker(PhantomData<K>),
}

impl<K> PredicateKind for IsNullPredicate<K> {

}

/// Type-level identity of an `IS NOT NULL` test.
pub enum IsNotNullPredicate<K> {
    _Marker(PhantomData<K>),
}

impl<K> PredicateKind for IsNotNullPredicate<K> {

}

/// Type-level identity of an `EXISTS` test.
pub enum ExistsPredicate {
    Marker,
}

impl PredicateKind for ExistsPredicate {

}

/// What a `SUM` of each number type is cast to: at most 32 stored bits sum to 64 bits, wider operands to
/// 128 bits, and floating-point numbers to double precision.
pub proof fn law_sum_casts()
    ensures
        <i8 as SqlSum>::SUM_CAST == SqlType::I64,
        <i16 as SqlSum>::SUM_CAST == SqlType::I64,
        <i32 as SqlSum>::SUM_CAST == SqlType::I64,
        <i64 as SqlSum>::SUM_CAST == SqlType::I128,
        <i128 as SqlSum>::SUM_CAST == SqlType::I128,
        <isize as SqlSum>::SUM_CAST == SqlType::I128,
        <u8 as SqlSum>::SUM_CAST == SqlType::I64,
        <u16 as SqlSum>::SUM_CAST == SqlType::I64,
        <u32 as SqlSum>::SUM_CAST == SqlType::I128,
        <u64 as SqlSum>::SUM_CAST == SqlType::I128,
        <u128 as SqlSum>::SUM_CAST == SqlType::U128,
        <usize as SqlSum>::SUM_CAST == SqlType::I128,
        <Float32 as SqlSum>::SUM_CAST == SqlType::F64,
        <Float64 as SqlSum>::SUM_CAST == SqlType::F64,
{
}

} // verus!
