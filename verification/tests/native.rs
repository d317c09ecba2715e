//! Values that the library carries without looking into them, and binary data.
use squealy::backend::{Backend, Decode, DecodeNullable, ParamWriter, RowReader};
use squealy::chain::List;
use squealy::column::{ColumnType, HasColumnType, NullableColumn};
use squealy::connection::QueryBuilder;
use squealy::expr::ast::LiteralExprAst;
use squealy::expr::kind::ExprKind;
use squealy::expr::{Expr, IntoExpr};
use squealy::ir::{BindValue, BindValueKind, IntWidth};
use squealy::label::{Duplicate, Label};
use squealy::meta::{Column, Index, Schema, TablePrimaryKey, TableUnique};
use squealy::node::{literals_to_sql, InlineLiteral};
use squealy::number::{Float32, Float64};
use squealy::ops::SourceAlias;
use squealy::projection::{ProjectionShape, SchemaTable};
use squealy::query::assign::{
    ColumnKey, IntoNullableAssignmentValue, IntoNullableInsertAssignmentValue,
};
use squealy::query::select::NoSources;
use squealy::view::definition::ModelParamWriter;
use squealy::view::{ModelConn, ModelRowReader};

struct Public;

impl Schema for Public {
    fn name() -> Option<&'static str> {
        Some("public")
    }
}

struct Files;

impl SchemaTable for Files {
    type Schema = Public;
    type Names = [&'static str; 2];
    type Row = (uuid::Uuid, bytes::Bytes);
    type NullableRow = (Option<uuid::Uuid>, Option<bytes::Bytes>);
    type Exprs<'scope> = ();
    type NullableExprs<'scope> = ();

    fn name() -> &'static str {
        "files"
    }

    fn columns() -> List<&'static dyn Column> {
        List::Nil
    }

    fn indexes() -> List<&'static dyn Index> {
        List::Nil
    }

    fn primary_key() -> Option<TablePrimaryKey> {
        None
    }

    fn uniques() -> List<TableUnique> {
        List::Nil
    }

    fn column_names() -> [&'static str; 2] {
        ["id", "payload"]
    }

    fn column_exprs_from<'scope>(
        _alias: SourceAlias,
        _columns: &[&'static str; 2],
    ) -> Self::Exprs<'scope> {
    }

    fn nullable_column_exprs_from<'scope>(
        _alias: SourceAlias,
        _columns: &[&'static str; 2],
    ) -> Self::NullableExprs<'scope> {
    }
}

struct IdKey;

impl ExprKind for IdKey {
    type Value = uuid::Uuid;
}

impl ColumnKey for IdKey {
    type Table = Files;
    type Nullability = NullableColumn;

    const NAME: &'static str = "id";
}

struct PayloadKey;

impl ExprKind for PayloadKey {
    type Value = bytes::Bytes;
}

impl ColumnKey for PayloadKey {
    type Table = Files;
    type Nullability = NullableColumn;

    const NAME: &'static str = "payload";
}

struct Be;

impl Backend for Be {
    type Error = &'static str;
    type Param = ();
    type RowReader = Row;

    fn no_rows_error() -> &'static str {
        "no rows"
    }
}

struct Row(Vec<Option<u128>>);

impl RowReader for Row {
    type Backend = Be;

    fn read<T: Decode<Be>>(&mut self) -> Result<T, &'static str> {
        T::decode(self)
    }
}

impl Decode<Be> for Option<uuid::Uuid> {
    fn decode(row: &mut Row) -> Result<Option<uuid::Uuid>, &'static str> {
        match row.0.pop() {
            Some(cell) => Ok(cell.map(uuid::Uuid::from_u128)),
            None => Err("no column"),
        }
    }
}

#[test]
fn native_values_have_column_types() {
    let timestamp = ColumnType::Timestamp { tz: true, precision: None };
    assert_eq!(<uuid::Uuid as HasColumnType>::column_type(), ColumnType::Uuid);
    assert_eq!(<time::OffsetDateTime as HasColumnType>::column_type(), timestamp);
    assert_eq!(<std::time::SystemTime as HasColumnType>::column_type(), timestamp);
    assert_eq!(<[u8; 16] as HasColumnType>::column_type(), ColumnType::FixedBytes(16));
    assert_eq!(<Option<uuid::Uuid> as HasColumnType>::column_type(), ColumnType::Uuid);
}

#[test]
fn native_values_are_assigned_as_they_are() {
    let id = uuid::Uuid::from_u128(7);
    let value = IntoNullableAssignmentValue::<IdKey>::into_nullable_assignment_value(id);
    assert_eq!(value.value, id);
    let value = IntoNullableInsertAssignmentValue::<IdKey>::into_nullable_insert_assignment_value(id);
    assert_eq!(value.value, id);
}

#[test]
fn shared_bytes_are_duplicated_as_they_are() {
    let payload = bytes::Bytes::from(vec![1u8, 2, 3]);
    let value =
        IntoNullableAssignmentValue::<PayloadKey>::into_nullable_assignment_value(payload.clone());
    let copy = value.duplicate();
    drop(value);
    assert_eq!(copy.value, payload);
    assert_eq!(&copy.value[..], &[1, 2, 3]);
}

#[test]
fn native_values_are_literals() {
    let now = time::OffsetDateTime::UNIX_EPOCH;
    let expr: Expr<time::OffsetDateTime, LiteralExprAst<time::OffsetDateTime>> = now.into_expr();
    assert_eq!(expr.ast.value, now);
    let column = <time::OffsetDateTime as ProjectionShape>::exprs(SourceAlias::new(0, 0));
    assert_eq!(column.project_alias.as_str(), "expr");
}

#[test]
fn binary_slices_are_literals() {
    let expr = (&[1u8, 2][..]).into_expr();
    assert_eq!(expr.ast.value.bytes, List::one(1).append(List::one(2)));
}

#[test]
fn nullable_identifiers_are_read_from_rows() {
    let mut row = Row(vec![None, Some(9)]);
    let first = <uuid::Uuid as DecodeNullable<Be>>::decode_nullable(&mut row);
    assert_eq!(first, Ok(Some(uuid::Uuid::from_u128(9))));
    assert_eq!(row.read::<Option<uuid::Uuid>>(), Ok(None));
    assert_eq!(row.read::<Option<uuid::Uuid>>(), Err("no column"));
    assert!(ModelRowReader.read::<()>().is_ok());
}

#[test]
fn literals_are_written_in_order() {
    let mut writer = ModelParamWriter { params: List::Nil };
    assert!(writer.write(&1i32).is_ok());
    assert!(writer.write(&"a".to_owned()).is_ok());
    assert_eq!(literals_to_sql(&writer.params), "1'a'");
    let number = List::one(InlineLiteral::Number("0.5".to_owned()));
    assert_eq!(literals_to_sql(&number), "0.5");
}

#[test]
fn widest_integers_are_bound() {
    assert_eq!(
        *BindValue::Int(5).kind(),
        BindValueKind::Int { value: 5, width: IntWidth::I128 }
    );
    assert!(*BindValue::Int(5).kind() != *BindValue::int8(5).kind());
    assert!(BindValue::Int(5) == BindValue::int8(5));
    assert!(BindValue::UInt(5) != BindValue::Int(5));
    assert!(BindValue::Text("a".to_owned()) == BindValue::text("a".to_owned()));
    assert!(BindValue::Bool(true) != BindValue::Bool(false));
}

#[test]
fn floats_compare_as_numbers() {
    let single = |value: f32| Float32 { bits: value.to_bits() };
    let double = |value: f64| Float64 { bits: value.to_bits() };
    assert!(single(0.0) == single(-0.0));
    assert!(single(f32::NAN) != single(f32::NAN));
    assert!(single(f32::INFINITY) == single(f32::INFINITY));
    assert!(double(1.5) == double(1.5));
    assert!(double(1.5) != double(-1.5));
}

#[test]
fn labels_are_equal_by_text() {
    assert!(Label::Static("id") == Label::Owned("id".to_owned()));
    assert!(Label::Static("id") != Label::Static("name"));
}

#[test]
fn a_select_without_sources_has_the_builder() {
    let selected = ModelConn.select(Expr::<i32, LiteralExprAst<i32>>::lit(1));
    let base: NoSources<ModelConn> = selected.base;
    assert_eq!(base.depth, 0);
}
