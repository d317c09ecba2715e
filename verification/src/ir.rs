//! Erased statements: a small owned form of queries, with values bound by kind and width.
use crate::label::Label;
use crate::number::Float64;
use crate::ops::{ArithmeticOp, CompareOp, OrderDirection};
use vstd::prelude::*;

verus! {

/// The width of a signed integer.
#[derive(Clone, Copy, Debug, PartialEq, Eq, Structural)]
pub enum IntWidth {
    I8,
    I16,
    I32,
    I64,
    I128,
    Isize,
}

/// The width of an unsigned integer.
#[derive(Clone, Copy, Debug, PartialEq, Eq, Structural)]
pub enum UIntWidth {
    U8,
    U16,
    U32,
    U64,
    U128,
    Usize,
}

/// The width of a floating-point number.
#[derive(Clone, Copy, Debug, PartialEq, Eq, Structural)]
pub enum FloatWidth {
    F32,
    F64,
}

/// A value to be bound, with the width of the Rust type it came from.
#[derive(Clone, Debug)]
pub enum BindValueKind {
    Int { value: i128, width: IntWidth },
    UInt { value: u128, width: UIntWidth },
    Float { value: Float64, width: FloatWidth },
    Text(String),
    Bool(bool),
    Null,
}

/// A bound parameter value. Two values are equal when they are the same value, whatever their widths.
#[derive(Clone, Debug)]
pub struct BindValue {
    pub kind: BindValueKind,
}

/// Whether two values are the same, whatever their widths.
pub open spec fn same_value(a: BindValueKind, b: BindValueKind) -> bool {
    match (a, b) {
        (BindValueKind::Int { value: x, .. }, BindValueKind::Int { value: y, .. }) => x == y,
        (BindValueKind::UInt { value: x, .. }, BindValueKind::UInt { value: y, .. }) => x == y,
        (
            BindValueKind::Float { value: x, .. },
            BindValueKind::Float { value: y, .. },
        ) => x.same_number(y),
        (BindValueKind::Text(x), BindValueKind::Text(y)) => x@ == y@,
        (BindValueKind::Bool(x), BindValueKind::Bool(y)) => x == y,
        (BindValueKind::Null, BindValueKind::Null) => true,
        _ => false,
    }
}

/// Whether two values, if they are numbers of one kind, have the same width.
pub open spec fn same_width(a: BindValueKind, b: BindValueKind) -> bool {
    match (a, b) {
        (BindValueKind::Int { width: x, .. }, BindValueKind::Int { width: y, .. }) => x == y,
        (BindValueKind::UInt { width: x, .. }, BindValueKind::UInt { width: y, .. }) => x == y,
        (BindValueKind::Float { width: x, .. }, BindValueKind::Float { width: y, .. }) => x == y,
        _ => true,
    }
}

impl vstd::std_specs::cmp::PartialEqSpecImpl for BindValue {
    open spec fn obeys_eq_spec() -> bool {
        true
    }

    open spec fn eq_spec(&self, other: &BindValue) -> bool {
        same_value(self.kind, other.kind)
    }
}

impl PartialEq for BindValue {
    fn eq(&self, other: &BindValue) -> (equal: bool) {
        match (&self.kind, &other.kind) {
            (BindValueKind::Int { value: x, .. }, BindValueKind::Int { value: y, .. }) => *x == *y,
            (BindValueKind::UInt { value: x, .. }, BindValueKind::UInt { value: y, .. }) => *x
                == *y,
            (
                BindValueKind::Float { value: x, .. },
                BindValueKind::Float { value: y, .. },
            ) => *x == *y,
            (BindValueKind::Text(x), BindValueKind::Text(y)) => *x == *y,
            (BindValueKind::Bool(x), BindValueKind::Bool(y)) => *x == *y,
            (BindValueKind::Null, BindValueKind::Null) => true,
            _ => false,
        }
    }
}

impl vstd::std_specs::cmp::PartialEqSpecImpl for BindValueKind {
    open spec fn obeys_eq_spec() -> bool {
        true
    }

    open spec fn eq_spec(&self, other: &BindValueKind) -> bool {
        same_value(*self, *other) && same_width(*self, *other)
    }
}

impl PartialEq for BindValueKind {
    fn eq(&self, other: &BindValueKind) -> (equal: bool) {
        match (self, other) {
            (
                BindValueKind::Int { value: x, width: a },
                BindValueKind::Int { value: y, width: b },
            ) => *x == *y && *a == *b,
            (
                BindValueKind::UInt { value: x, width: a },
                BindValueKind::UInt { value: y, width: b },
            ) => *x == *y && *a == *b,
            (
                BindValueKind::Float { value: x, width: a },
                BindValueKind::Float { value: y, width: b },
            ) => *x == *y && *a == *b,
            (BindValueKind::Text(x), BindValueKind::Text(y)) => *x == *y,
            (BindValueKind::Bool(x), BindValueKind::Bool(y)) => *x == *y,
            (BindValueKind::Null, BindValueKind::Null) => true,
            _ => false,
        }
    }
}

impl BindValue {
    /// A signed integer of the widest type.
    #[allow(non_snake_case)]
    pub fn Int(value: i128) -> (bind: BindValue)
        ensures
            bind.kind == (BindValueKind::Int { value, width: IntWidth::I128 }),
    {
        BindValue::int128(value)
    }

    /// An unsigned integer of the widest type.
    #[allow(non_snake_case)]
    pub fn UInt(value: u128) -> (bind: BindValue)
        ensures
            bind.kind == (BindValueKind::UInt { value, width: UIntWidth::U128 }),
    {
        BindValue::uint128(value)
    }

    /// A double-precision number.
    #[allow(non_snake_case)]
    pub fn Float(value: Float64) -> (bind: BindValue)
        ensures
            bind.kind == (BindValueKind::Float { value, width: FloatWidth::F64 }),
    {
        BindValue::float64(value)
    }

    /// A text value.
    #[allow(non_snake_case)]
    pub fn Text(value: String) -> (bind: BindValue)
        ensures
            bind.kind == BindValueKind::Text(value),
    {
        BindValue::text(value)
    }

    /// A boolean value.
    #[allow(non_snake_case)]
    pub fn Bool(value: bool) -> (bind: BindValue)
        ensures
            bind.kind == BindValueKind::Bool(value),
    {
        BindValue::bool(value)
    }

    /// The value, of whatever kind.
    pub fn kind(&self) -> (kind: &BindValueKind)
        ensures
            *kind == self.kind,
    {
        &self.kind
    }

    /// The value, of whatever kind.
    pub fn into_kind(self) -> (kind: BindValueKind)
        ensures
            kind == self.kind,
    {
        self.kind
    }

    /// A text value.
    pub fn text(value: String) -> (bind: BindValue)
        ensures
            bind.kind == BindValueKind::Text(value),
    {
        BindValue { kind: BindValueKind::Text(value) }
    }

    /// A boolean value.
    pub fn bool(value: bool) -> (bind: BindValue)
        ensures
            bind.kind == BindValueKind::Bool(value),
    {
        BindValue { kind: BindValueKind::Bool(value) }
    }

    /// The null value.
    pub fn null() -> (bind: BindValue)
        ensures
            bind.kind == BindValueKind::Null,
    {
        BindValue { kind: BindValueKind::Null }
    }

    /// A double-precision number.
    pub fn float64(value: Float64) -> (bind: BindValue)
        ensures
            bind.kind == (BindValueKind::Float { value, width: FloatWidth::F64 }),
    {
        BindValue { kind: BindValueKind::Float { value, width: FloatWidth::F64 } }
    }

    /// A single-precision number, given by the double-precision number that equals it.
    pub fn float32(value: Float64) -> (bind: BindValue)
        ensures
            bind.kind == (BindValueKind::Float { value, width: FloatWidth::F32 }),
    {
        BindValue { kind: BindValueKind::Float { value, width: FloatWidth::F32 } }
    }

    /// A signed integer of type `i8`.
    pub fn int8(value: i8) -> (bind: BindValue)
        ensures
            bind.kind == (BindValueKind::Int { value: value as i128, width: IntWidth::I8 }),
    {
        BindValue { kind: BindValueKind::Int { value: value as i128, width: IntWidth::I8 } }
    }

    /// A signed integer of type `i16`.
    pub fn int16(value: i16) -> (bind: BindValue)
        ensures
            bind.kind == (BindValueKind::Int { value: value as i128, width: IntWidth::I16 }),
    {
        BindValue { kind: BindValueKind::Int { value: value as i128, width: IntWidth::I16 } }
    }

    /// A signed integer of type `i32`.
    pub fn int32(value: i32) -> (bind: BindValue)
        ensures
            bind.kind == (BindValueKind::Int { value: value as i128, width: IntWidth::I32 }),
    {
        BindValue { kind: BindValueKind::Int { value: value as i128, width: IntWidth::I32 } }
    }

    /// A signed integer of type `i64`.
    pub fn int64(value: i64) -> (bind: BindValue)
        ensures
            bind.kind == (BindValueKind::Int { value: value as i128, width: IntWidth::I64 }),
    {
        BindValue { kind: BindValueKind::Int { value: value as i128, width: IntWidth::I64 } }
    }

    /// A signed integer of type `i128`.
    pub fn int128(value: i128) -> (bind: BindValue)
        ensures
            bind.kind == (BindValueKind::Int { value: value as i128, width: IntWidth::I128 }),
    {
        BindValue { kind: BindValueKind::Int { value: value as i128, width: IntWidth::I128 } }
    }

    /// A signed integer of type `isize`.
    pub fn isize(value: isize) -> (bind: BindValue)
        ensures
            bind.kind == (BindValueKind::Int { value: value as i128, width: IntWidth::Isize }),
    {
        BindValue { kind: BindValueKind::Int { value: value as i128, width: IntWidth::Isize } }
    }

    /// An unsigned integer of type `u8`.
    pub fn uint8(value: u8) -> (bind: BindValue)
        ensures
            bind.kind == (BindValueKind::UInt { value: value as u128, width: UIntWidth::U8 }),
    {
        BindValue { kind: BindValueKind::UInt { value: value as u128, width: UIntWidth::U8 } }
    }

    /// An unsigned integer of type `u16`.
    pub fn uint16(value: u16) -> (bind: BindValue)
        ensures
            bind.kind == (BindValueKind::UInt { value: value as u128, width: UIntWidth::U16 }),
    {
        BindValue { kind: BindValueKind::UInt { value: value as u128, width: UIntWidth::U16 } }
    }

    /// An unsigned integer of type `u32`.
    pub fn uint32(value: u32) -> (bind: BindValue)
        ensures
            bind.kind == (BindValueKind::UInt { value: value as u128, width: UIntWidth::U32 }),
    {
        BindValue { kind: BindValueKind::UInt { value: value as u128, width: UIntWidth::U32 } }
    }

    /// An unsigned integer of type `u64`.
    pub fn uint64(value: u64) -> (bind: BindValue)
        ensures
            bind.kind == (BindValueKind::UInt { value: value as u128, width: UIntWidth::U64 }),
    {
        BindValue { kind: BindValueKind::UInt { value: value as u128, width: UIntWidth::U64 } }
    }

    /// An unsigned integer of type `u128`.
    pub fn uint128(value: u128) -> (bind: BindValue)
        ensures
            bind.kind == (BindValueKind::UInt { value: value as u128, width: UIntWidth::U128 }),
    {
        BindValue { kind: BindValueKind::UInt { value: value as u128, width: UIntWidth::U128 } }
    }

    /// An unsigned integer of type `usize`.
    pub fn usize(value: usize) -> (bind: BindValue)
        ensures
            bind.kind == (BindValueKind::UInt { value: value as u128, width: UIntWidth::Usize }),
    {
        BindValue { kind: BindValueKind::UInt { value: value as u128, width: UIntWidth::Usize } }
    }
}

/// Equality of values ignores widths.
pub proof fn law_equality_ignores_width(value: i128, a: IntWidth, b: IntWidth)
    ensures
        same_value(
            BindValueKind::Int { value, width: a },
            BindValueKind::Int { value, width: b },
        ),
{
}

/// Equality of values is symmetric.
pub proof fn law_equality_symmetric(a: BindValueKind, b: BindValueKind)
    ensures
        same_value(a, b) == same_value(b, a),
{
}

/// Equality of values is transitive.
pub proof fn law_equality_transitive(a: BindValueKind, b: BindValueKind, c: BindValueKind)
    requires
        same_value(a, b),
        same_value(b, c),
    ensures
        same_value(a, c),
{
}

/// Every value but "not a number" equals itself.
pub proof fn law_equality_reflexive(a: BindValueKind)
    requires
        a matches BindValueKind::Float { value, .. } ==> value.is_number(),
    ensures
        same_value(a, a),
{
}

/// Signed and unsigned integers are never equal, not even of the same number.
pub proof fn law_signedness_differs(
    value: i128,
    other: u128,
    width: IntWidth,
    other_width: UIntWidth,
)
    ensures
        !same_value(
            BindValueKind::Int { value, width },
            BindValueKind::UInt { value: other, width: other_width },
        ),
{
}

/// An expression.
#[derive(Debug, PartialEq)]
pub enum ExprNode {
    Column { alias: String, column: String },
    Literal(BindValue),
    Binary { left: Box<ExprNode>, op: ArithmeticOp, right: Box<ExprNode> },
}

/// A condition.
#[derive(Debug, PartialEq)]
pub enum PredicateNode {
    Compare { left: ExprNode, op: CompareOp, right: ExprNode },
    And { left: Box<PredicateNode>, right: Box<PredicateNode> },
    Or { left: Box<PredicateNode>, right: Box<PredicateNode> },
    Not(Box<PredicateNode>),
}

/// An ordering.
#[derive(Debug, PartialEq)]
pub struct OrderNode {
    pub expr: ExprNode,
    pub direction: OrderDirection,
}

/// A selected expression and its output alias.
#[derive(Debug, PartialEq)]
pub struct SelectColumn {
    pub expr: ExprNode,
    pub alias: Label,
}

impl SelectColumn {
    pub fn new(expr: ExprNode, alias: Label) -> (column: SelectColumn)
        ensures
            column == (SelectColumn { expr, alias }),
    {
        SelectColumn { expr, alias }
    }
}

/// A `SELECT`.
#[derive(Debug, PartialEq)]
pub struct Select {
    pub columns: Vec<SelectColumn>,
    pub sources: Vec<Source>,
    pub filters: Vec<Filter>,
    pub orders: Vec<Sort>,
    pub limit: Option<usize>,
    pub offset: Option<usize>,
}

impl Select {
    /// A `SELECT`.
    pub fn new(columns: Vec<SelectColumn>, sources: Vec<Source>) -> (result: Select)
        ensures
            result.columns == columns,
            result.sources == sources,
            result.filters@.len() == 0,
            result.orders@.len() == 0,
            result.limit is None,
            result.offset is None,
    {
        Select {
            columns,
            sources,
            filters: Vec::new(),
            orders: Vec::new(),
            limit: None,
            offset: None,
        }
    }

    /// This statement with other filters.
    pub fn with_filters(self, filters: Vec<Filter>) -> (result: Select)
        ensures
            result.filters == filters,
            result.columns == self.columns,
            result.sources == self.sources,
            result.orders == self.orders,
            result.limit == self.limit,
            result.offset == self.offset,
    {
        Select { filters, ..self }
    }

    /// This statement with other orders.
    pub fn with_orders(self, orders: Vec<Sort>) -> (result: Select)
        ensures
            result.orders == orders,
            result.columns == self.columns,
            result.sources == self.sources,
            result.filters == self.filters,
            result.limit == self.limit,
            result.offset == self.offset,
    {
        Select { orders, ..self }
    }

    /// This statement with other limit.
    pub fn with_limit(self, limit: Option<usize>) -> (result: Select)
        ensures
            result.limit == limit,
            result.columns == self.columns,
            result.sources == self.sources,
            result.filters == self.filters,
            result.orders == self.orders,
            result.offset == self.offset,
    {
        Select { limit, ..self }
    }

    /// This statement with other offset.
    pub fn with_offset(self, offset: Option<usize>) -> (result: Select)
        ensures
            result.offset == offset,
            result.columns == self.columns,
            result.sources == self.sources,
            result.filters == self.filters,
            result.orders == self.orders,
            result.limit == self.limit,
    {
        Select { offset, ..self }
    }

    pub fn columns(&self) -> (value: &Vec<SelectColumn>)
        ensures
            *value == self.columns,
    {
        &self.columns
    }

    pub fn sources(&self) -> (value: &Vec<Source>)
        ensures
            *value == self.sources,
    {
        &self.sources
    }

    pub fn filters(&self) -> (value: &Vec<Filter>)
        ensures
            *value == self.filters,
    {
        &self.filters
    }

    pub fn orders(&self) -> (value: &Vec<Sort>)
        ensures
            *value == self.orders,
    {
        &self.orders
    }

    pub fn limit(&self) -> (value: Option<usize>)
        ensures
            value == self.limit,
    {
        self.limit
    }

    pub fn offset(&self) -> (value: Option<usize>)
        ensures
            value == self.offset,
    {
        self.offset
    }
}

/// A column of an `INSERT` and its value.
#[derive(Debug, PartialEq)]
pub struct InsertColumn {
    pub column: Label,
    pub value: BindValue,
}

impl InsertColumn {
    /// A column of an `INSERT` and its value.
    pub fn new(column: Label, value: BindValue) -> (result: InsertColumn)
        ensures
            result.column == column,
            result.value == value,
    {
        InsertColumn {
            column,
            value,
        }
    }

    pub fn column(&self) -> (value: &str)
        ensures
            value@ == self.column@,
    {
        self.column.as_str()
    }

    pub fn value(&self) -> (value: &BindValue)
        ensures
            *value == self.value,
    {
        &self.value
    }
}

/// An `INSERT`.
#[derive(Debug, PartialEq)]
pub struct Insert {
    pub table: String,
    pub columns: Vec<InsertColumn>,
    pub returning: Vec<SelectColumn>,
}

impl Insert {
    /// An `INSERT`.
    pub fn new(table: String, columns: Vec<InsertColumn>, returning: Vec<SelectColumn>) -> (result: Insert)
        ensures
            result.table == table,
            result.columns == columns,
            result.returning == returning,
    {
        Insert {
            table,
            columns,
            returning,
        }
    }

    pub fn table(&self) -> (value: &str)
        ensures
            value@ == self.table@,
    {
        self.table.as_str()
    }

    pub fn columns(&self) -> (value: &Vec<InsertColumn>)
        ensures
            *value == self.columns,
    {
        &self.columns
    }

    pub fn returning(&self) -> (value: &Vec<SelectColumn>)
        ensures
            *value == self.returning,
    {
        &self.returning
    }
}

/// A column of an `UPDATE` and its value.
#[derive(Debug, PartialEq)]
pub struct UpdateColumn {
    pub column: Label,
    pub value: BindValue,
}

impl UpdateColumn {
    /// A column of an `UPDATE` and its value.
    pub fn new(column: Label, value: BindValue) -> (result: UpdateColumn)
        ensures
            result.column == column,
            result.value == value,
    {
        UpdateColumn {
            column,
            value,
        }
    }

    pub fn column(&self) -> (value: &str)
        ensures
            value@ == self.column@,
    {
        self.column.as_str()
    }

    pub fn value(&self) -> (value: &BindValue)
        ensures
            *value == self.value,
    {
        &self.value
    }
}

/// An `UPDATE`.
#[derive(Debug, PartialEq)]
pub struct Update {
    pub table: String,
    pub alias: String,
    pub columns: Vec<UpdateColumn>,
    pub filters: Vec<Filter>,
    pub returning: Vec<SelectColumn>,
}

impl Update {
    /// An `UPDATE`.
    pub fn new(table: String, alias: String, columns: Vec<UpdateColumn>, filters: Vec<Filter>, returning: Vec<SelectColumn>) -> (result: Update)
        ensures
            result.table == table,
            result.alias == alias,
            result.columns == columns,
            result.filters == filters,
            result.returning == returning,
    {
        Update {
            table,
            alias,
            columns,
            filters,
            returning,
        }
    }

    pub fn table(&self) -> (value: &str)
        ensures
            value@ == self.table@,
    {
        self.table.as_str()
    }

    pub fn alias(&self) -> (value: &str)
        ensures
            value@ == self.alias@,
    {
        self.alias.as_str()
    }

    pub fn columns(&self) -> (value: &Vec<UpdateColumn>)
        ensures
            *value == self.columns,
    {
        &self.columns
    }

    pub fn filters(&self) -> (value: &Vec<Filter>)
        ensures
            *value == self.filters,
    {
        &self.filters
    }

    pub fn returning(&self) -> (value: &Vec<SelectColumn>)
        ensures
            *value == self.returning,
    {
        &self.returning
    }
}

/// A `DELETE`.
#[derive(Debug, PartialEq)]
pub struct Delete {
    pub table: String,
    pub alias: String,
    pub filters: Vec<Filter>,
    pub returning: Vec<SelectColumn>,
}

impl Delete {
    /// A `DELETE`.
    pub fn new(table: String, alias: String, returning: Vec<SelectColumn>) -> (result: Delete)
        ensures
            result.table == table,
            result.alias == alias,
            result.filters@.len() == 0,
            result.returning == returning,
    {
        Delete {
            table,
            alias,
            filters: Vec::new(),
            returning,
        }
    }

    /// This statement with other filters.
    pub fn with_filters(self, filters: Vec<Filter>) -> (result: Delete)
        ensures
            result.filters == filters,
            result.table == self.table,
            result.alias == self.alias,
            result.returning == self.returning,
    {
        Delete { filters, ..self }
    }

    pub fn table(&self) -> (value: &str)
        ensures
            value@ == self.table@,
    {
        self.table.as_str()
    }

    pub fn alias(&self) -> (value: &str)
        ensures
            value@ == self.alias@,
    {
        self.alias.as_str()
    }

    pub fn filters(&self) -> (value: &Vec<Filter>)
        ensures
            *value == self.filters,
    {
        &self.filters
    }

    pub fn returning(&self) -> (value: &Vec<SelectColumn>)
        ensures
            *value == self.returning,
    {
        &self.returning
    }
}

/// A `WHERE` condition.
#[derive(Debug, PartialEq)]
pub struct Filter {
    pub predicate: PredicateNode,
}

impl Filter {
    /// A `WHERE` condition.
    pub fn new(predicate: PredicateNode) -> (result: Filter)
        ensures
            result.predicate == predicate,
    {
        Filter {
            predicate,
        }
    }

    pub fn predicate(&self) -> (value: &PredicateNode)
        ensures
            *value == self.predicate,
    {
        &self.predicate
    }
}

/// An `ORDER BY` term.
#[derive(Debug, PartialEq)]
pub struct Sort {
    pub order: OrderNode,
}

impl Sort {
    /// An `ORDER BY` term.
    pub fn new(order: OrderNode) -> (result: Sort)
        ensures
            result.order == order,
    {
        Sort {
            order,
        }
    }

    pub fn order(&self) -> (value: &OrderNode)
        ensures
            *value == self.order,
    {
        &self.order
    }
}

/// How a source stands among the others.
#[derive(Debug, PartialEq)]
pub enum SourceKind {
    From,
    InnerLateral,
    InnerJoin { on: PredicateNode },
    LeftJoin { on: PredicateNode },
}

/// What a source is.
#[derive(Debug, PartialEq)]
pub enum SourceTarget {
    Table(String),
    Query(Box<Select>),
}

/// A source of a `SELECT`.
#[derive(Debug, PartialEq)]
pub struct Source {
    pub alias: String,
    pub kind: SourceKind,
    pub target: SourceTarget,
}

impl Source {
    /// A table.
    pub fn table(alias: String, table: String) -> (source: Source)
        ensures
            source == (Source {
                alias,
                kind: SourceKind::From,
                target: SourceTarget::Table(table),
            }),
    {
        Source { alias, kind: SourceKind::From, target: SourceTarget::Table(table) }
    }

    /// A query that may refer to the sources before it.
    pub fn lateral(alias: String, query: Select) -> (source: Source)
        ensures
            source == (Source {
                alias,
                kind: SourceKind::InnerLateral,
                target: SourceTarget::Query(Box::new(query)),
            }),
    {
        Source {
            alias,
            kind: SourceKind::InnerLateral,
            target: SourceTarget::Query(Box::new(query)),
        }
    }

    /// A joined table.
    pub fn join(alias: String, table: String, on: PredicateNode) -> (source: Source)
        ensures
            source == (Source {
                alias,
                kind: SourceKind::InnerJoin { on },
                target: SourceTarget::Table(table),
            }),
    {
        Source { alias, kind: SourceKind::InnerJoin { on }, target: SourceTarget::Table(table) }
    }

    /// A left-joined table.
    pub fn left_join(alias: String, table: String, on: PredicateNode) -> (source: Source)
        ensures
            source == (Source {
                alias,
                kind: SourceKind::LeftJoin { on },
                target: SourceTarget::Table(table),
            }),
    {
        Source { alias, kind: SourceKind::LeftJoin { on }, target: SourceTarget::Table(table) }
    }

    pub fn alias(&self) -> (alias: &str)
        ensures
            alias@ == self.alias@,
    {
        self.alias.as_str()
    }

    pub fn kind(&self) -> (kind: &SourceKind)
        ensures
            *kind == self.kind,
    {
        &self.kind
    }

    pub fn target(&self) -> (target: &SourceTarget)
        ensures
            *target == self.target,
    {
        &self.target
    }
}

} // verus!
