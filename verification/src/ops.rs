//! Source aliases, operators and function names of SQL expressions.
use crate::text;
use crate::text::push_decimal;
use vstd::prelude::*;

pub mod laws;

verus! {

/// The alias of one source of a query: how deep its query is nested, and its place there.
#[derive(Clone, Copy, Debug, PartialEq, Eq, Structural)]
pub struct SourceAlias {
    pub depth: usize,
    pub index: usize,
}

impl SourceAlias {
    pub fn new(depth: usize, index: usize) -> (alias: SourceAlias)
        ensures
            alias == (SourceAlias { depth, index }),
    {
        SourceAlias { depth, index }
    }

    pub fn depth(self) -> (depth: usize)
        ensures
            depth == self.depth,
    {
        self.depth
    }

    pub fn index(self) -> (index: usize)
        ensures
            index == self.index,
    {
        self.index
    }

    /// The alias as it is written in SQL: `q`, the depth, an underscore and the place.
    pub open spec fn text(self) -> Seq<char> {
        seq!['q'] + text::decimal(self.depth as nat) + seq!['_'] + text::decimal(self.index as nat)
    }

    /// Appends the alias as it is written in SQL.
    pub fn write_to(self, out: &mut String)
        ensures
            final(out)@ == old(out)@ + self.text(),
    {
        out.push('q');
        push_decimal(out, self.depth as u128);
        out.push('_');
        push_decimal(out, self.index as u128);
    }

    /// The alias as it is written in SQL.
    pub fn to_sql(self) -> (sql: String)
        ensures
            sql@ == self.text(),
    {
        let mut out = String::new();
        self.write_to(&mut out);
        out
    }
}

/// Two sources that are spelled alike are the same source: no two sources of a query and its
/// subqueries can be mistaken for each other.
pub proof fn law_alias_text_is_unique(a: SourceAlias, b: SourceAlias)
    requires
        a.text() == b.text(),
    ensures
        a == b,
{
    let a_depth = text::decimal(a.depth as nat);
    let b_depth = text::decimal(b.depth as nat);
    let a_index = text::decimal(a.index as nat);
    let b_index = text::decimal(b.index as nat);
    if a_depth.len() < b_depth.len() {
        assert(a.text()[1 + a_depth.len() as int] == '_');
        assert(b.text()[1 + a_depth.len() as int] == b_depth[a_depth.len() as int]);
        text::lemma_decimal_is_digits(b.depth as nat, a_depth.len() as int);
    }
    if b_depth.len() < a_depth.len() {
        assert(b.text()[1 + b_depth.len() as int] == '_');
        assert(a.text()[1 + b_depth.len() as int] == a_depth[b_depth.len() as int]);
        text::lemma_decimal_is_digits(a.depth as nat, b_depth.len() as int);
    }
    let split = 1 + a_depth.len() as int;
    assert(a.text().subrange(1, split) =~= a_depth);
    assert(b.text().subrange(1, split) =~= b_depth);
    assert(a.text().skip(split + 1) =~= a_index);
    assert(b.text().skip(split + 1) =~= b_index);
    text::law_decimal_reads_back(a.depth as nat);
    text::law_decimal_reads_back(b.depth as nat);
    text::law_decimal_reads_back(a.index as nat);
    text::law_decimal_reads_back(b.index as nat);
}

#[derive(Clone, Copy, Debug, PartialEq, Eq, Structural)]
pub enum ArithmeticOp {
    Add,
    Subtract,
    Multiply,
    Divide,
}

#[derive(Clone, Copy, Debug, PartialEq, Eq, Structural)]
pub enum CompareOp {
    Equals,
    NotEquals,
    LessThan,
    LessThanOrEquals,
    GreaterThan,
    GreaterThanOrEquals,
}

/// A SQL aggregate function applied to a single expression operand.
#[derive(Clone, Copy, Debug, PartialEq, Eq, Structural)]
pub enum AggregateFunc {
    Count,
    Sum,
    Avg,
    Min,
    Max,
}

#[derive(Clone, Copy, Debug, PartialEq, Eq, Structural)]
pub enum OrderDirection {
    Asc,
    Desc,
}

/// Where `NULL`s stand in an ordering.
#[derive(Clone, Copy, Debug, PartialEq, Eq, Structural)]
pub enum OrderNulls {
    First,
    Last,
}

/// The function part of a window expression: an aggregate used as a window, or a dedicated window
/// function.
#[derive(Clone, Copy, Debug, PartialEq, Eq, Structural)]
pub enum WindowFunc {
    /// An aggregate used as a window function.
    Aggregate(AggregateFunc),
    RowNumber,
    Rank,
    DenseRank,
    Ntile,
    Lag,
    Lead,
}

/// A part of a timestamp.
#[derive(Clone, Copy, Debug, PartialEq, Eq, Structural)]
pub enum DateField {
    Year,
    Month,
    Day,
    Hour,
    Minute,
    Second,
}

/// A string function of one argument.
#[derive(Clone, Copy, Debug, PartialEq, Eq, Structural)]
pub enum UnaryStringFunc {
    Lower,
    Upper,
    Length,
    Trim,
}

/// A lock on the rows that a `SELECT` returns.
#[derive(Clone, Copy, Debug, PartialEq, Eq, Structural)]
pub enum RowLock {
    ForUpdate,
    ForShare,
}

/// A set operation between two queries.
#[derive(Clone, Copy, Debug, PartialEq, Eq, Structural)]
pub enum SetOp {
    Union,
    UnionAll,
    Intersect,
    Except,
}

impl DateField {
    /// The field's keyword inside `EXTRACT`.
    pub open spec fn extract_keyword_text(self) -> Seq<char> {
        match self {
            DateField::Year => "YEAR"@,
            DateField::Month => "MONTH"@,
            DateField::Day => "DAY"@,
            DateField::Hour => "HOUR"@,
            DateField::Minute => "MINUTE"@,
            DateField::Second => "SECOND"@,
        }
    }

    /// The field's name inside the first argument of `date_trunc`.
    pub open spec fn trunc_literal_text(self) -> Seq<char> {
        match self {
            DateField::Year => "year"@,
            DateField::Month => "month"@,
            DateField::Day => "day"@,
            DateField::Hour => "hour"@,
            DateField::Minute => "minute"@,
            DateField::Second => "second"@,
        }
    }

    pub fn extract_keyword(self) -> (keyword: &'static str)
        ensures
            keyword@ == self.extract_keyword_text(),
    {
        match self {
            DateField::Year => "YEAR",
            DateField::Month => "MONTH",
            DateField::Day => "DAY",
            DateField::Hour => "HOUR",
            DateField::Minute => "MINUTE",
            DateField::Second => "SECOND",
        }
    }

    pub fn trunc_literal(self) -> (literal: &'static str)
        ensures
            literal@ == self.trunc_literal_text(),
    {
        match self {
            DateField::Year => "year",
            DateField::Month => "month",
            DateField::Day => "day",
            DateField::Hour => "hour",
            DateField::Minute => "minute",
            DateField::Second => "second",
        }
    }
}

impl UnaryStringFunc {
    /// The function's name in SQL.
    pub open spec fn name_text(self) -> Seq<char> {
        match self {
            UnaryStringFunc::Lower => "LOWER"@,
            UnaryStringFunc::Upper => "UPPER"@,
            UnaryStringFunc::Length => "CHAR_LENGTH"@,
            UnaryStringFunc::Trim => "TRIM"@,
        }
    }

    /// The function's name in SQL. `CHAR_LENGTH` counts characters on every backend.
    pub fn sql_name(self) -> (name: &'static str)
        ensures
            name@ == self.name_text(),
    {
        match self {
            UnaryStringFunc::Lower => "LOWER",
            UnaryStringFunc::Upper => "UPPER",
            UnaryStringFunc::Length => "CHAR_LENGTH",
            UnaryStringFunc::Trim => "TRIM",
        }
    }
}

impl SetOp {
    /// The operation's keyword.
    pub open spec fn keyword_text(self) -> Seq<char> {
        match self {
            SetOp::Union => "UNION"@,
            SetOp::UnionAll => "UNION ALL"@,
            SetOp::Intersect => "INTERSECT"@,
            SetOp::Except => "EXCEPT"@,
        }
    }

    pub fn keyword(self) -> (keyword: &'static str)
        ensures
            keyword@ == self.keyword_text(),
    {
        match self {
            SetOp::Union => "UNION",
            SetOp::UnionAll => "UNION ALL",
            SetOp::Intersect => "INTERSECT",
            SetOp::Except => "EXCEPT",
        }
    }
}

/// The operator's symbol.
pub open spec fn arithmetic_symbol(op: ArithmeticOp) -> Seq<char> {
    match op {
        ArithmeticOp::Add => "+"@,
        ArithmeticOp::Subtract => "-"@,
        ArithmeticOp::Multiply => "*"@,
        ArithmeticOp::Divide => "/"@,
    }
}

pub fn render_arithmetic_op(op: ArithmeticOp) -> (symbol: &'static str)
    ensures
        symbol@ == arithmetic_symbol(op),
{
    match op {
        ArithmeticOp::Add => "+",
        ArithmeticOp::Subtract => "-",
        ArithmeticOp::Multiply => "*",
        ArithmeticOp::Divide => "/",
    }
}

/// The aggregate's name.
pub open spec fn aggregate_name(func: AggregateFunc) -> Seq<char> {
    match func {
        AggregateFunc::Count => "COUNT"@,
        AggregateFunc::Sum => "SUM"@,
        AggregateFunc::Avg => "AVG"@,
        AggregateFunc::Min => "MIN"@,
        AggregateFunc::Max => "MAX"@,
    }
}

pub fn render_aggregate_func(func: AggregateFunc) -> (name: &'static str)
    ensures
        name@ == aggregate_name(func),
{
    match func {
        AggregateFunc::Count => "COUNT",
        AggregateFunc::Sum => "SUM",
        AggregateFunc::Avg => "AVG",
        AggregateFunc::Min => "MIN",
        AggregateFunc::Max => "MAX",
    }
}

/// The window function's name.
pub open spec fn window_name(func: WindowFunc) -> Seq<char> {
    match func {
        WindowFunc::Aggregate(aggregate) => aggregate_name(aggregate),
        WindowFunc::RowNumber => "ROW_NUMBER"@,
        WindowFunc::Rank => "RANK"@,
        WindowFunc::DenseRank => "DENSE_RANK"@,
        WindowFunc::Ntile => "NTILE"@,
        WindowFunc::Lag => "LAG"@,
        WindowFunc::Lead => "LEAD"@,
    }
}

pub fn render_window_func(func: WindowFunc) -> (name: &'static str)
    ensures
        name@ == window_name(func),
{
    match func {
        WindowFunc::Aggregate(aggregate) => render_aggregate_func(aggregate),
        WindowFunc::RowNumber => "ROW_NUMBER",
        WindowFunc::Rank => "RANK",
        WindowFunc::DenseRank => "DENSE_RANK",
        WindowFunc::Ntile => "NTILE",
        WindowFunc::Lag => "LAG",
        WindowFunc::Lead => "LEAD",
    }
}

/// The comparison's symbol.
pub open spec fn compare_symbol(op: CompareOp) -> Seq<char> {
    match op {
        CompareOp::Equals => "="@,
        CompareOp::NotEquals => "<>"@,
        CompareOp::LessThan => "<"@,
        CompareOp::LessThanOrEquals => "<="@,
        CompareOp::GreaterThan => ">"@,
        CompareOp::GreaterThanOrEquals => ">="@,
    }
}

pub fn render_compare_op(op: CompareOp) -> (symbol: &'static str)
    ensures
        symbol@ == compare_symbol(op),
{
    match op {
        CompareOp::Equals => "=",
        CompareOp::NotEquals => "<>",
        CompareOp::LessThan => "<",
        CompareOp::LessThanOrEquals => "<=",
        CompareOp::GreaterThan => ">",
        CompareOp::GreaterThanOrEquals => ">=",
    }
}

/// The direction's keyword.
pub open spec fn direction_keyword(direction: OrderDirection) -> Seq<char> {
    match direction {
        OrderDirection::Asc => "ASC"@,
        OrderDirection::Desc => "DESC"@,
    }
}

pub fn render_order_direction(direction: OrderDirection) -> (keyword: &'static str)
    ensures
        keyword@ == direction_keyword(direction),
{
    match direction {
        OrderDirection::Asc => "ASC",
        OrderDirection::Desc => "DESC",
    }
}

} // verus!
