//! Columns: how they appear in a table type and what they store.
use crate::number::{Blob, Float32, Float64};
use crate::sql_type::SqlType;
use vstd::prelude::*;

verus! {

/// Type-level nullability of a column that cannot be null.
pub enum NonNullableColumn {
    Marker,
}

/// Type-level nullability of a column that may be null.
pub enum NullableColumn {
    Marker,
}

/// How a table's fields are represented. `U` is the declared value type of the field.
pub trait ColumnMode<'scope, U: ColumnNullability> {
    type Type;
}

/// Table fields are typed SQL expressions.
pub enum ColumnExpr {
    Marker,
}

/// Table fields are database column names.
pub enum ColumnName {
    Marker,
}

impl<'scope, U: ColumnNullability> ColumnMode<'scope, U> for ColumnName {
    type Type = &'static str;
}

/// Table fields are plain Rust values: the declared type, `Option<T>` for a nullable column.
pub enum ColumnValue {
    Marker,
}

impl<'scope, U: ColumnNullability> ColumnMode<'scope, U> for ColumnValue {
    type Type = U;
}

/// Table fields are nullable Rust values, as a `LEFT JOIN` makes them: `Option<T>` whether or not the
/// declared type was nullable already.
pub enum ColumnNullableValue {
    Marker,
}

impl<'scope, U: ColumnNullability> ColumnMode<'scope, U> for ColumnNullableValue {
    type Type = Option<<U as ColumnNullability>::Inner>;
}

/// A backend-neutral column default.
///
/// [`Raw`](ColumnDefault::Raw) is emitted verbatim into the `DEFAULT` clause; every other variant is
/// a structured value that backends render safely.
#[derive(Clone, Copy, Debug, PartialEq)]
pub enum ColumnDefault {
    Null,
    Int(i128),
    UInt(u128),
    Float(Float64),
    Text(&'static str),
    Bool(bool),
    CurrentTimestamp,
    CurrentDate,
    CurrentTime,
    Raw(&'static str),
}

/// Backend-neutral column type metadata: the shape of the Rust value, or a structured or raw type
/// that was named explicitly.
#[derive(Clone, Copy, Debug, PartialEq, Eq)]
pub enum ColumnType {
    I8,
    I16,
    I32,
    I64,
    I128,
    Isize,
    U8,
    U16,
    U32,
    U64,
    U128,
    Usize,
    F32,
    F64,
    String,
    Bool,
    Varchar(u32),
    Char(u32),
    Text,
    Decimal { precision: u32, scale: u32 },
    Date,
    Time { tz: bool, precision: Option<u32> },
    Timestamp { tz: bool, precision: Option<u32> },
    Uuid,
    Json,
    Jsonb,
    Bytes,
    /// A binary column of a fixed number of bytes.
    FixedBytes(u32),
    /// A backend-specific type name, which is not interpreted.
    Raw(&'static str),
}

/// Maps a Rust value type to its column type.
pub trait HasColumnType {
    open spec fn spec_column_type() -> ColumnType {
        arbitrary()
    }

    fn column_type() -> (ty: ColumnType)
        ensures
            ty == Self::spec_column_type(),
    ;
}

/// Resolves a column's declared value type into its inner type and its nullability.
pub trait ColumnNullability {
    type Inner;

    type Nullability;

    const NULLABLE: bool;
}

impl<const N: usize> HasColumnType for [u8; N] {
    open spec fn spec_column_type() -> ColumnType {
        ColumnType::FixedBytes(N as u32)
    }

    fn column_type() -> (ty: ColumnType) {
        ColumnType::FixedBytes(N as u32)
    }
}

impl<const N: usize> ColumnNullability for [u8; N] {
    type Inner = [u8; N];

    type Nullability = NonNullableColumn;

    const NULLABLE: bool = false;
}

impl<T: HasColumnType> HasColumnType for Option<T> {
    open spec fn spec_column_type() -> ColumnType {
        T::spec_column_type()
    }

    fn column_type() -> (ty: ColumnType) {
        T::column_type()
    }
}

impl<T: ColumnNullability<Nullability = NonNullableColumn>> ColumnNullability for Option<T> {
    type Inner = T;

    type Nullability = NullableColumn;

    const NULLABLE: bool = true;
}

impl HasColumnType for i8 {
    open spec fn spec_column_type() -> ColumnType {
        ColumnType::I8
    }

    fn column_type() -> (ty: ColumnType) {
        ColumnType::I8
    }
}

impl ColumnNullability for i8 {
    type Inner = i8;

    type Nullability = NonNullableColumn;

    const NULLABLE: bool = false;
}

impl HasColumnType for i16 {
    open spec fn spec_column_type() -> ColumnType {
        ColumnType::I16
    }

    fn column_type() -> (ty: ColumnType) {
        ColumnType::I16
    }
}

impl ColumnNullability for i16 {
    type Inner = i16;

    type Nullability = NonNullableColumn;

    const NULLABLE: bool = false;
}

impl HasColumnType for i32 {
    open spec fn spec_column_type() -> ColumnType {
        ColumnType::I32
    }

    fn column_type() -> (ty: ColumnType) {
        ColumnType::I32
    }
}

impl ColumnNullability for i32 {
    type Inner = i32;

    type Nullability = NonNullableColumn;

    const NULLABLE: bool = false;
}

impl HasColumnType for i64 {
    open spec fn spec_column_type() -> ColumnType {
        ColumnType::I64
    }

    fn column_type() -> (ty: ColumnType) {
        ColumnType::I64
    }
}

impl ColumnNullability for i64 {
    type Inner = i64;

    type Nullability = NonNullableColumn;

    const NULLABLE: bool = false;
}

impl HasColumnType for i128 {
    open spec fn spec_column_type() -> ColumnType {
        ColumnType::I128
    }

    fn column_type() -> (ty: ColumnType) {
        ColumnType::I128
    }
}

impl ColumnNullability for i128 {
    type Inner = i128;

    type Nullability = NonNullableColumn;

    const NULLABLE: bool = false;
}

impl HasColumnType for isize {
    open spec fn spec_column_type() -> ColumnType {
        ColumnType::Isize
    }

    fn column_type() -> (ty: ColumnType) {
        ColumnType::Isize
    }
}

impl ColumnNullability for isize {
    type Inner = isize;

    type Nullability = NonNullableColumn;

    const NULLABLE: bool = false;
}

impl HasColumnType for u8 {
    open spec fn spec_column_type() -> ColumnType {
        ColumnType::U8
    }

    fn column_type() -> (ty: ColumnType) {
        ColumnType::U8
    }
}

impl ColumnNullability for u8 {
    type Inner = u8;

    type Nullability = NonNullableColumn;

    const NULLABLE: bool = false;
}

impl HasColumnType for u16 {
    open spec fn spec_column_type() -> ColumnType {
        ColumnType::U16
    }

    fn column_type() -> (ty: ColumnType) {
        ColumnType::U16
    }
}

impl ColumnNullability for u16 {
    type Inner = u16;

    type Nullability = NonNullableColumn;

    const NULLABLE: bool = false;
}

impl HasColumnType for u32 {
    open spec fn spec_column_type() -> ColumnType {
        ColumnType::U32
    }

    fn column_type() -> (ty: ColumnType) {
        ColumnType::U32
    }
}

impl ColumnNullability for u32 {
    type Inner = u32;

    type Nullability = NonNullableColumn;

    const NULLABLE: bool = false;
}

impl HasColumnType for u64 {
    open spec fn spec_column_type() -> ColumnType {
        ColumnType::U64
    }

    fn column_type() -> (ty: ColumnType) {
        ColumnType::U64
    }
}

impl ColumnNullability for u64 {
    type Inner = u64;

    type Nullability = NonNullableColumn;

    const NULLABLE: bool = false;
}

impl HasColumnType for u128 {
    open spec fn spec_column_type() -> ColumnType {
        ColumnType::U128
    }

    fn column_type() -> (ty: ColumnType) {
        ColumnType::U128
    }
}

impl ColumnNullability for u128 {
    type Inner = u128;

    type Nullability = NonNullableColumn;

    const NULLABLE: bool = false;
}

impl HasColumnType for usize {
    open spec fn spec_column_type() -> ColumnType {
        ColumnType::Usize
    }

    fn column_type() -> (ty: ColumnType) {
        ColumnType::Usize
    }
}

impl ColumnNullability for usize {
    type Inner = usize;

    type Nullability = NonNullableColumn;

    const NULLABLE: bool = false;
}

impl HasColumnType for Float32 {
    open spec fn spec_column_type() -> ColumnType {
        ColumnType::F32
    }

    fn column_type() -> (ty: ColumnType) {
        ColumnType::F32
    }
}

impl ColumnNullability for Float32 {
    type Inner = Float32;

    type Nullability = NonNullableColumn;

    const NULLABLE: bool = false;
}

impl HasColumnType for Float64 {
    open spec fn spec_column_type() -> ColumnType {
        ColumnType::F64
    }

    fn column_type() -> (ty: ColumnType) {
        ColumnType::F64
    }
}

impl ColumnNullability for Float64 {
    type Inner = Float64;

    type Nullability = NonNullableColumn;

    const NULLABLE: bool = false;
}

impl HasColumnType for std::string::String {
    open spec fn spec_column_type() -> ColumnType {
        ColumnType::String
    }

    fn column_type() -> (ty: ColumnType) {
        ColumnType::String
    }
}

impl ColumnNullability for std::string::String {
    type Inner = std::string::String;

    type Nullability = NonNullableColumn;

    const NULLABLE: bool = false;
}

impl HasColumnType for bool {
    open spec fn spec_column_type() -> ColumnType {
        ColumnType::Bool
    }

    fn column_type() -> (ty: ColumnType) {
        ColumnType::Bool
    }
}

impl ColumnNullability for bool {
    type Inner = bool;

    type Nullability = NonNullableColumn;

    const NULLABLE: bool = false;
}

impl HasColumnType for Blob {
    open spec fn spec_column_type() -> ColumnType {
        ColumnType::Bytes
    }

    fn column_type() -> (ty: ColumnType) {
        ColumnType::Bytes
    }
}

impl ColumnNullability for Blob {
    type Inner = Blob;

    type Nullability = NonNullableColumn;

    const NULLABLE: bool = false;
}

/// Whether `sql_type` is the logical type of a column type: the same type, a raw name taken over as
/// it stands.
pub open spec fn is_sql_type(column_type: ColumnType, sql_type: SqlType) -> bool {
    match column_type {
        ColumnType::Raw(name) => sql_type matches SqlType::Raw(owned) && owned@ == name@,
        ColumnType::I8 => sql_type == SqlType::I8,
        ColumnType::I16 => sql_type == SqlType::I16,
        ColumnType::I32 => sql_type == SqlType::I32,
        ColumnType::I64 => sql_type == SqlType::I64,
        ColumnType::I128 => sql_type == SqlType::I128,
        ColumnType::Isize => sql_type == SqlType::Isize,
        ColumnType::U8 => sql_type == SqlType::U8,
        ColumnType::U16 => sql_type == SqlType::U16,
        ColumnType::U32 => sql_type == SqlType::U32,
        ColumnType::U64 => sql_type == SqlType::U64,
        ColumnType::U128 => sql_type == SqlType::U128,
        ColumnType::Usize => sql_type == SqlType::Usize,
        ColumnType::F32 => sql_type == SqlType::F32,
        ColumnType::F64 => sql_type == SqlType::F64,
        ColumnType::String => sql_type == SqlType::String,
        ColumnType::Bool => sql_type == SqlType::Bool,
        ColumnType::Varchar(n) => sql_type == SqlType::Varchar(n),
        ColumnType::Char(n) => sql_type == SqlType::Char(n),
        ColumnType::Text => sql_type == SqlType::Text,
        ColumnType::Decimal { precision, scale } => sql_type == SqlType::Decimal { precision, scale },
        ColumnType::Date => sql_type == SqlType::Date,
        ColumnType::Time { tz, precision } => sql_type == SqlType::Time { tz, precision },
        ColumnType::Timestamp { tz, precision } => sql_type == SqlType::Timestamp { tz, precision },
        ColumnType::Uuid => sql_type == SqlType::Uuid,
        ColumnType::Json => sql_type == SqlType::Json,
        ColumnType::Jsonb => sql_type == SqlType::Jsonb,
        ColumnType::Bytes => sql_type == SqlType::Bytes,
        ColumnType::FixedBytes(n) => sql_type == SqlType::FixedBytes(n),
    }
}

impl vstd::std_specs::convert::FromSpecImpl<ColumnType> for SqlType {
    open spec fn obeys_from_spec() -> bool {
        false
    }

    open spec fn from_spec(column_type: ColumnType) -> SqlType {
        arbitrary()
    }
}

impl From<ColumnType> for SqlType {
    fn from(column_type: ColumnType) -> (sql_type: SqlType)
        ensures
            is_sql_type(column_type, sql_type),
    {
        match column_type {
            ColumnType::I8 => SqlType::I8,
            ColumnType::I16 => SqlType::I16,
            ColumnType::I32 => SqlType::I32,
            ColumnType::I64 => SqlType::I64,
            ColumnType::I128 => SqlType::I128,
            ColumnType::Isize => SqlType::Isize,
            ColumnType::U8 => SqlType::U8,
            ColumnType::U16 => SqlType::U16,
            ColumnType::U32 => SqlType::U32,
            ColumnType::U64 => SqlType::U64,
            ColumnType::U128 => SqlType::U128,
            ColumnType::Usize => SqlType::Usize,
            ColumnType::F32 => SqlType::F32,
            ColumnType::F64 => SqlType::F64,
            ColumnType::String => SqlType::String,
            ColumnType::Bool => SqlType::Bool,
            ColumnType::Varchar(n) => SqlType::Varchar(n),
            ColumnType::Char(n) => SqlType::Char(n),
            ColumnType::Text => SqlType::Text,
            ColumnType::Decimal { precision, scale } => SqlType::Decimal { precision, scale },
            ColumnType::Date => SqlType::Date,
            ColumnType::Time { tz, precision } => SqlType::Time { tz, precision },
            ColumnType::Timestamp { tz, precision } => SqlType::Timestamp { tz, precision },
            ColumnType::Uuid => SqlType::Uuid,
            ColumnType::Json => SqlType::Json,
            ColumnType::Jsonb => SqlType::Jsonb,
            ColumnType::Bytes => SqlType::Bytes,
            ColumnType::FixedBytes(n) => SqlType::FixedBytes(n),
            ColumnType::Raw(name) => SqlType::Raw(name.to_owned()),
        }
    }
}

/// Which columns can be null: those whose value is optional, and no others.
pub proof fn law_nullability<T: ColumnNullability<Nullability = NonNullableColumn>, const N: usize>()
    ensures
        <Option<T> as ColumnNullability>::NULLABLE,
        !<i8 as ColumnNullability>::NULLABLE,
        !<i16 as ColumnNullability>::NULLABLE,
        !<i32 as ColumnNullability>::NULLABLE,
        !<i64 as ColumnNullability>::NULLABLE,
        !<i128 as ColumnNullability>::NULLABLE,
        !<isize as ColumnNullability>::NULLABLE,
        !<u8 as ColumnNullability>::NULLABLE,
        !<u16 as ColumnNullability>::NULLABLE,
        !<u32 as ColumnNullability>::NULLABLE,
        !<u64 as ColumnNullability>::NULLABLE,
        !<u128 as ColumnNullability>::NULLABLE,
        !<usize as ColumnNullability>::NULLABLE,
        !<Float32 as ColumnNullability>::NULLABLE,
        !<Float64 as ColumnNullability>::NULLABLE,
        !<String as ColumnNullability>::NULLABLE,
        !<bool as ColumnNullability>::NULLABLE,
        !<Blob as ColumnNullability>::NULLABLE,
        !<[u8; N] as ColumnNullability>::NULLABLE,
{
}

/// The smallest and the largest number that an integer column type holds.
pub open spec fn column_range(column_type: ColumnType) -> Option<(int, int)> {
    match column_type {
        ColumnType::I8 => Some((i8::MIN as int, i8::MAX as int)),
        ColumnType::I16 => Some((i16::MIN as int, i16::MAX as int)),
        ColumnType::I32 => Some((i32::MIN as int, i32::MAX as int)),
        ColumnType::I64 => Some((i64::MIN as int, i64::MAX as int)),
        ColumnType::I128 => Some((i128::MIN as int, i128::MAX as int)),
        ColumnType::U8 => Some((u8::MIN as int, u8::MAX as int)),
        ColumnType::U16 => Some((u16::MIN as int, u16::MAX as int)),
        ColumnType::U32 => Some((u32::MIN as int, u32::MAX as int)),
        ColumnType::U64 => Some((u64::MIN as int, u64::MAX as int)),
        ColumnType::U128 => Some((u128::MIN as int, u128::MAX as int)),
        ColumnType::Isize => Some((isize::MIN as int, isize::MAX as int)),
        ColumnType::Usize => Some((usize::MIN as int, usize::MAX as int)),
        _ => None,
    }
}

/// The smallest and the largest number that an integer type holds.
pub open spec fn sql_range(sql_type: SqlType) -> Option<(int, int)> {
    match sql_type {
        SqlType::I8 => Some((i8::MIN as int, i8::MAX as int)),
        SqlType::I16 => Some((i16::MIN as int, i16::MAX as int)),
        SqlType::I32 => Some((i32::MIN as int, i32::MAX as int)),
        SqlType::I64 => Some((i64::MIN as int, i64::MAX as int)),
        SqlType::I128 => Some((i128::MIN as int, i128::MAX as int)),
        SqlType::U8 => Some((u8::MIN as int, u8::MAX as int)),
        SqlType::U16 => Some((u16::MIN as int, u16::MAX as int)),
        SqlType::U32 => Some((u32::MIN as int, u32::MAX as int)),
        SqlType::U64 => Some((u64::MIN as int, u64::MAX as int)),
        SqlType::U128 => Some((u128::MIN as int, u128::MAX as int)),
        SqlType::Isize => Some((isize::MIN as int, isize::MAX as int)),
        SqlType::Usize => Some((usize::MIN as int, usize::MAX as int)),
        _ => None,
    }
}

/// The SQL type of a column holds the numbers that the column's values can be, and no others.
pub proof fn law_sql_type_keeps_range(column_type: ColumnType, sql_type: SqlType)
    requires
        is_sql_type(column_type, sql_type),
    ensures
        sql_range(sql_type) == column_range(column_type),
{
}

/// The SQL type of a column keeps its lengths, precisions and time zone.
pub proof fn law_sql_type_keeps_size(column_type: ColumnType, sql_type: SqlType)
    requires
        is_sql_type(column_type, sql_type),
    ensures
        column_type matches ColumnType::Varchar(n) ==> sql_type matches SqlType::Varchar(m) && m
            == n,
        column_type matches ColumnType::Char(n) ==> sql_type matches SqlType::Char(m) && m == n,
        column_type matches ColumnType::FixedBytes(n) ==> sql_type matches SqlType::FixedBytes(m)
            && m == n,
        column_type matches ColumnType::Decimal { precision, scale }
            ==> sql_type matches SqlType::Decimal { precision: p, scale: s } && p == precision && s
            == scale,
        column_type matches ColumnType::Time { tz, precision } ==> sql_type matches SqlType::Time {
            tz: zoned,
            precision: p,
        } && zoned == tz && p == precision,
        column_type matches ColumnType::Timestamp { tz, precision }
            ==> sql_type matches SqlType::Timestamp { tz: zoned, precision: p } && zoned == tz && p
            == precision,
        column_type matches ColumnType::Raw(name) ==> sql_type matches SqlType::Raw(owned) && owned@
            == name@,
{
}

/// Two column types with one SQL type are one column type.
pub proof fn law_sql_types_are_told_apart(a: ColumnType, b: ColumnType, sql_type: SqlType)
    requires
        is_sql_type(a, sql_type),
        is_sql_type(b, sql_type),
    ensures
        match (a, b) {
            (ColumnType::Raw(first), ColumnType::Raw(second)) => first@ == second@,
            _ => a == b,
        },
{
}

/// An integer is stored in a column that holds the numbers of its type, and an optional value in a
/// column like that of the value.
pub proof fn law_integer_columns_hold_their_type<T: HasColumnType>()
    ensures
        column_range(<i8 as HasColumnType>::spec_column_type()) == Some((i8::MIN as int, i8::MAX as int)),
        column_range(<i16 as HasColumnType>::spec_column_type()) == Some((i16::MIN as int, i16::MAX as int)),
        column_range(<i32 as HasColumnType>::spec_column_type()) == Some((i32::MIN as int, i32::MAX as int)),
        column_range(<i64 as HasColumnType>::spec_column_type()) == Some((i64::MIN as int, i64::MAX as int)),
        column_range(<i128 as HasColumnType>::spec_column_type()) == Some((i128::MIN as int, i128::MAX as int)),
        column_range(<u8 as HasColumnType>::spec_column_type()) == Some((u8::MIN as int, u8::MAX as int)),
        column_range(<u16 as HasColumnType>::spec_column_type()) == Some((u16::MIN as int, u16::MAX as int)),
        column_range(<u32 as HasColumnType>::spec_column_type()) == Some((u32::MIN as int, u32::MAX as int)),
        column_range(<u64 as HasColumnType>::spec_column_type()) == Some((u64::MIN as int, u64::MAX as int)),
        column_range(<u128 as HasColumnType>::spec_column_type()) == Some((u128::MIN as int, u128::MAX as int)),
        column_range(<isize as HasColumnType>::spec_column_type()) == Some((isize::MIN as int, isize::MAX as int)),
        column_range(<usize as HasColumnType>::spec_column_type()) == Some((usize::MIN as int, usize::MAX as int)),
        <Option<T> as HasColumnType>::spec_column_type() == T::spec_column_type(),
{
}

} // verus!
