//! Columns whose Rust type is a 128-bit identifier, a point in time or shared binary
//! data.
//!
//! The values are opaque here: they are carried from where a query is written to the backend, which
//! encodes and decodes them.
use crate::backend::{Backend, Decode, DecodeNullable};
use crate::column::{ColumnNullability, ColumnType, HasColumnType, NonNullableColumn};
use crate::expr::kind::{AggregateScalar, ExprKind, IntoWindowNullable, ScalarNullable};
use crate::expr::Expr;
use crate::label::{Duplicate, Label};
use crate::ops::SourceAlias;
use crate::projection::{column_named, ProjectionShape};
use crate::query::assign::{
    ColumnKey, IntoNullableAssignmentValue, IntoNullableInsertAssignmentValue,
    StaticAssignmentValue,
};
use vstd::prelude::*;

verus! {

/// `uuid::Uuid`, a 128-bit identifier. Nothing is claimed of what a value holds.
#[verifier::external_type_specification]
#[verifier::external_body]
pub struct ExUuid(uuid::Uuid);

/// `std::time::SystemTime`, a point in time. Nothing is claimed of what a value holds.
#[verifier::external_type_specification]
#[verifier::external_body]
pub struct ExSystemTime(std::time::SystemTime);

/// `time::OffsetDateTime`, a point in time with an offset from UTC. Nothing is claimed of what a
/// value holds.
#[verifier::external_type_specification]
#[verifier::external_body]
pub struct ExOffsetDateTime(time::OffsetDateTime);

/// `bytes::Bytes`, shared binary data. A value stands for the bytes that it gives access to.
#[verifier::external_type_specification]
#[verifier::external_body]
pub struct ExBytes(bytes::Bytes);

impl Duplicate for uuid::Uuid {
    fn duplicate(&self) -> (copy: uuid::Uuid) {
        *self
    }
}

impl HasColumnType for uuid::Uuid {
    open spec fn spec_column_type() -> ColumnType {
        ColumnType::Uuid
    }

    fn column_type() -> (ty: ColumnType) {
        ColumnType::Uuid
    }
}

impl ColumnNullability for uuid::Uuid {
    type Inner = uuid::Uuid;

    type Nullability = NonNullableColumn;

    const NULLABLE: bool = false;
}

impl ExprKind for uuid::Uuid {
    type Value = uuid::Uuid;
}

impl<B: Backend> DecodeNullable<B> for uuid::Uuid where Option<uuid::Uuid>: Decode<B> {
    open spec fn decoded_nullable(
        before: B::RowReader,
        after: B::RowReader,
        outcome: Result<Option<uuid::Uuid>, B::Error>,
    ) -> bool {
        <Option<uuid::Uuid> as Decode<B>>::decoded(before, after, outcome)
    }

    fn decode_nullable(row: &mut B::RowReader) -> (outcome: Result<Option<uuid::Uuid>, B::Error>) {
        <Option<uuid::Uuid> as Decode<B>>::decode(row)
    }
}

impl<K: ColumnKey<Value = uuid::Uuid>> IntoNullableAssignmentValue<K> for uuid::Uuid {
    type Value = StaticAssignmentValue<uuid::Uuid>;

    open spec fn assigns(self, value: Self::Value) -> bool {
        value.value == self
    }

    fn into_nullable_assignment_value(self) -> (value: Self::Value) {
        StaticAssignmentValue::new(self)
    }
}

impl<K: ColumnKey<Value = uuid::Uuid>> IntoNullableInsertAssignmentValue<K> for uuid::Uuid {
    type Value = StaticAssignmentValue<uuid::Uuid>;

    open spec fn assigns(self, value: Self::Value) -> bool {
        value.value == self
    }

    fn into_nullable_insert_assignment_value(self) -> (value: Self::Value) {
        StaticAssignmentValue::new(self)
    }
}

impl Duplicate for std::time::SystemTime {
    fn duplicate(&self) -> (copy: std::time::SystemTime) {
        *self
    }
}

impl HasColumnType for std::time::SystemTime {
    open spec fn spec_column_type() -> ColumnType {
        ColumnType::Timestamp { tz: true, precision: None }
    }

    fn column_type() -> (ty: ColumnType) {
        ColumnType::Timestamp { tz: true, precision: None }
    }
}

impl ColumnNullability for std::time::SystemTime {
    type Inner = std::time::SystemTime;

    type Nullability = NonNullableColumn;

    const NULLABLE: bool = false;
}

impl ExprKind for std::time::SystemTime {
    type Value = std::time::SystemTime;
}

impl IntoWindowNullable for std::time::SystemTime {
    type Kind = ScalarNullable<std::time::SystemTime>;
}

impl AggregateScalar for std::time::SystemTime {
    type Scalar = std::time::SystemTime;
}

impl ProjectionShape for std::time::SystemTime {
    type Exprs<'scope> = Expr<'scope, std::time::SystemTime>;

    type ReboundExprs<'scope> = Expr<'scope, std::time::SystemTime>;

    type Row = std::time::SystemTime;

    open spec fn shape_exprs<'scope>(alias: SourceAlias) -> Self::Exprs<'scope> {
        crate::projection::named_column(alias, Label::Static("expr"))
    }

    open spec fn shape_rebound<'scope>(alias: SourceAlias) -> Self::ReboundExprs<'scope> {
        crate::projection::named_column(alias, Label::Static("expr"))
    }

    fn exprs<'scope>(alias: SourceAlias) -> (exprs: Self::Exprs<'scope>) {
        column_named(alias, Label::Static("expr"))
    }

    fn rebound_exprs<'scope>(alias: SourceAlias) -> (exprs: Self::ReboundExprs<'scope>) {
        column_named(alias, Label::Static("expr"))
    }
}

impl<K: ColumnKey<Value = std::time::SystemTime>> IntoNullableAssignmentValue<K> for std::time::SystemTime {
    type Value = StaticAssignmentValue<std::time::SystemTime>;

    open spec fn assigns(self, value: Self::Value) -> bool {
        value.value == self
    }

    fn into_nullable_assignment_value(self) -> (value: Self::Value) {
        StaticAssignmentValue::new(self)
    }
}

impl<K: ColumnKey<Value = std::time::SystemTime>> IntoNullableInsertAssignmentValue<K> for std::time::SystemTime {
    type Value = StaticAssignmentValue<std::time::SystemTime>;

    open spec fn assigns(self, value: Self::Value) -> bool {
        value.value == self
    }

    fn into_nullable_insert_assignment_value(self) -> (value: Self::Value) {
        StaticAssignmentValue::new(self)
    }
}

impl Duplicate for time::OffsetDateTime {
    fn duplicate(&self) -> (copy: time::OffsetDateTime) {
        *self
    }
}

impl HasColumnType for time::OffsetDateTime {
    open spec fn spec_column_type() -> ColumnType {
        ColumnType::Timestamp { tz: true, precision: None }
    }

    fn column_type() -> (ty: ColumnType) {
        ColumnType::Timestamp { tz: true, precision: None }
    }
}

impl ColumnNullability for time::OffsetDateTime {
    type Inner = time::OffsetDateTime;

    type Nullability = NonNullableColumn;

    const NULLABLE: bool = false;
}

impl ExprKind for time::OffsetDateTime {
    type Value = time::OffsetDateTime;
}

impl IntoWindowNullable for time::OffsetDateTime {
    type Kind = ScalarNullable<time::OffsetDateTime>;
}

impl AggregateScalar for time::OffsetDateTime {
    type Scalar = time::OffsetDateTime;
}

impl ProjectionShape for time::OffsetDateTime {
    type Exprs<'scope> = Expr<'scope, time::OffsetDateTime>;

    type ReboundExprs<'scope> = Expr<'scope, time::OffsetDateTime>;

    type Row = time::OffsetDateTime;

    open spec fn shape_exprs<'scope>(alias: SourceAlias) -> Self::Exprs<'scope> {
        crate::projection::named_column(alias, Label::Static("expr"))
    }

    open spec fn shape_rebound<'scope>(alias: SourceAlias) -> Self::ReboundExprs<'scope> {
        crate::projection::named_column(alias, Label::Static("expr"))
    }

    fn exprs<'scope>(alias: SourceAlias) -> (exprs: Self::Exprs<'scope>) {
        column_named(alias, Label::Static("expr"))
    }

    fn rebound_exprs<'scope>(alias: SourceAlias) -> (exprs: Self::ReboundExprs<'scope>) {
        column_named(alias, Label::Static("expr"))
    }
}

impl<K: ColumnKey<Value = time::OffsetDateTime>> IntoNullableAssignmentValue<K> for time::OffsetDateTime {
    type Value = StaticAssignmentValue<time::OffsetDateTime>;

    open spec fn assigns(self, value: Self::Value) -> bool {
        value.value == self
    }

    fn into_nullable_assignment_value(self) -> (value: Self::Value) {
        StaticAssignmentValue::new(self)
    }
}

impl<K: ColumnKey<Value = time::OffsetDateTime>> IntoNullableInsertAssignmentValue<K> for time::OffsetDateTime {
    type Value = StaticAssignmentValue<time::OffsetDateTime>;

    open spec fn assigns(self, value: Self::Value) -> bool {
        value.value == self
    }

    fn into_nullable_insert_assignment_value(self) -> (value: Self::Value) {
        StaticAssignmentValue::new(self)
    }
}

/// `bytes::Bytes::clone` gives another handle to the same bytes.
#[verifier::external_body]
fn share_bytes(bytes: &bytes::Bytes) -> (copy: bytes::Bytes)
    ensures
        copy == *bytes,
{
    bytes.clone()
}

impl Duplicate for bytes::Bytes {
    fn duplicate(&self) -> (copy: bytes::Bytes) {
        share_bytes(self)
    }
}

impl ExprKind for bytes::Bytes {
    type Value = bytes::Bytes;
}

impl ProjectionShape for bytes::Bytes {
    type Exprs<'scope> = Expr<'scope, bytes::Bytes>;

    type ReboundExprs<'scope> = Expr<'scope, bytes::Bytes>;

    type Row = bytes::Bytes;

    open spec fn shape_exprs<'scope>(alias: SourceAlias) -> Self::Exprs<'scope> {
        crate::projection::named_column(alias, Label::Static("expr"))
    }

    open spec fn shape_rebound<'scope>(alias: SourceAlias) -> Self::ReboundExprs<'scope> {
        crate::projection::named_column(alias, Label::Static("expr"))
    }

    fn exprs<'scope>(alias: SourceAlias) -> (exprs: Self::Exprs<'scope>) {
        column_named(alias, Label::Static("expr"))
    }

    fn rebound_exprs<'scope>(alias: SourceAlias) -> (exprs: Self::ReboundExprs<'scope>) {
        column_named(alias, Label::Static("expr"))
    }
}

impl<K: ColumnKey<Value = bytes::Bytes>> IntoNullableAssignmentValue<K> for bytes::Bytes {
    type Value = StaticAssignmentValue<bytes::Bytes>;

    open spec fn assigns(self, value: Self::Value) -> bool {
        value.value == self
    }

    fn into_nullable_assignment_value(self) -> (value: Self::Value) {
        StaticAssignmentValue::new(self)
    }
}

impl<K: ColumnKey<Value = bytes::Bytes>> IntoNullableInsertAssignmentValue<K> for bytes::Bytes {
    type Value = StaticAssignmentValue<bytes::Bytes>;

    open spec fn assigns(self, value: Self::Value) -> bool {
        value.value == self
    }

    fn into_nullable_insert_assignment_value(self) -> (value: Self::Value) {
        StaticAssignmentValue::new(self)
    }
}

} // verus!
