//! Backend-neutral query bodies: expressions and `SELECT`s as structure, with literals inlined.
//!
//! View definitions and partial-index predicates are kept in this form; each backend renders them in
//! its own dialect.
use crate::chain::List;
use crate::label::Label;
use crate::ops::{
    AggregateFunc, ArithmeticOp, CompareOp, DateField, OrderDirection, OrderNulls, SourceAlias,
    WindowFunc,
};
use crate::sql_type::SqlType;
use crate::text;
use crate::text::{push_decimal, push_quoted, push_signed_decimal};
use vstd::prelude::*;

pub mod copy;

verus! {

/// A value that is written into the SQL text where it stands.
#[derive(Debug, PartialEq)]
pub enum InlineLiteral {
    Null,
    Int(i128),
    UInt(u128),
    Bool(bool),
    Text(String),
    /// A number that is written out already.
    Number(String),
}

impl InlineLiteral {
    /// The SQL of the literal.
    pub open spec fn text(self) -> Seq<char> {
        match self {
            InlineLiteral::Null => "NULL"@,
            InlineLiteral::Int(value) => text::signed_decimal(value as int),
            InlineLiteral::UInt(value) => text::decimal(value as nat),
            InlineLiteral::Bool(value) => if value {
                "TRUE"@
            } else {
                "FALSE"@
            },
            InlineLiteral::Text(value) => text::quoted(value@, '\''),
            InlineLiteral::Number(value) => value@,
        }
    }

    /// Appends the SQL of the literal.
    pub fn write_to(&self, out: &mut String)
        ensures
            final(out)@ == old(out)@ + self.text(),
    {
        match self {
            InlineLiteral::Null => out.append("NULL"),
            InlineLiteral::Int(value) => push_signed_decimal(out, *value),
            InlineLiteral::UInt(value) => push_decimal(out, *value),
            InlineLiteral::Bool(value) => out.append(
                if *value {
                    "TRUE"
                } else {
                    "FALSE"
                },
            ),
            InlineLiteral::Text(value) => push_quoted(out, value.as_str(), '\''),
            InlineLiteral::Number(value) => out.append(value.as_str()),
        }
    }
}

/// The SQL of the literals that a value is encoded as, one behind the other.
pub open spec fn literals_text(literals: List<InlineLiteral>) -> Seq<char>
    decreases literals,
{
    match literals {
        List::Nil => Seq::empty(),
        List::Cons { head, tail } => head.text() + literals_text(*tail),
    }
}

/// The SQL of the literals that a value is encoded as.
pub fn literals_to_sql(literals: &List<InlineLiteral>) -> (sql: String)
    ensures
        sql@ == literals_text(*literals),
{
    let mut out = String::new();
    push_literals(literals, &mut out);
    proof {
        assert(out@ =~= literals_text(*literals));
    }
    out
}

fn push_literals(literals: &List<InlineLiteral>, out: &mut String)
    ensures
        final(out)@ == old(out)@ + literals_text(*literals),
    decreases literals,
{
    let ghost start = out@;
    if let List::Cons { head, tail } = literals {
        head.write_to(out);
        push_literals(tail, out);
    }
    proof {
        assert(out@ =~= start + literals_text(*literals));
    }
}

/// How two conditions are connected.
#[derive(Clone, Copy, Debug, PartialEq, Eq, Structural)]
pub enum LogicalOp {
    And,
    Or,
}

/// A scalar function of strings.
#[derive(Clone, Copy, Debug, PartialEq, Eq, Structural)]
pub enum ScalarFunc {
    Lower,
    Upper,
    Length,
    Trim,
    Concat,
    Substring,
}

/// An expression or condition.
#[derive(Debug, PartialEq)]
pub enum ExprNode {
    Column { alias: SourceAlias, column: Label },
    /// An inlined literal, as the values that it is encoded as.
    Literal(List<InlineLiteral>),
    Binary { op: ArithmeticOp, left: Box<ExprNode>, right: Box<ExprNode> },
    Nullif { left: Box<ExprNode>, right: Box<ExprNode>, result: Option<SqlType> },
    Coalesce { args: List<ExprNode>, result: Option<SqlType> },
    Aggregate {
        func: AggregateFunc,
        distinct: bool,
        operand: Box<ExprNode>,
        result: Option<SqlType>,
    },
    ScalarSubquery(Box<ViewQueryModel>),
    Window {
        func: WindowFunc,
        args: List<ExprNode>,
        partition_by: List<ExprNode>,
        order_by: List<WindowOrderTerm>,
        result: Option<SqlType>,
    },
    Case { arms: List<CaseArm>, else_: Option<Box<ExprNode>>, result: Option<SqlType> },
    SimpleCase {
        operand: Box<ExprNode>,
        arms: List<CaseArm>,
        else_: Option<Box<ExprNode>>,
        result: Option<SqlType>,
    },
    ScalarFn { func: ScalarFunc, args: List<ExprNode> },
    Now,
    Extract {
        field: DateField,
        operand: Box<ExprNode>,
        result: Option<SqlType>,
        timezone: Option<Label>,
    },
    DateTrunc { unit: DateField, operand: Box<ExprNode>, timezone: Option<Label> },
    ExtractSecond { operand: Box<ExprNode>, result: Option<SqlType> },
    Compare { op: CompareOp, left: Box<ExprNode>, right: Box<ExprNode> },
    Logical { op: LogicalOp, left: Box<ExprNode>, right: Box<ExprNode> },
    Not(Box<ExprNode>),
    IsNull { negated: bool, operand: Box<ExprNode> },
    Like {
        case_insensitive: bool,
        negated: bool,
        operand: Box<ExprNode>,
        pattern: Box<ExprNode>,
    },
    In { negated: bool, operand: Box<ExprNode>, items: List<ExprNode> },
    Between { negated: bool, operand: Box<ExprNode>, low: Box<ExprNode>, high: Box<ExprNode> },
    InSubquery { negated: bool, operand: Box<ExprNode>, subquery: Box<ViewQueryModel> },
    Exists { negated: bool, subquery: Box<ViewQueryModel> },
}

/// One `WHEN … THEN …` arm of a `CASE`.
#[derive(Debug, PartialEq)]
pub struct CaseArm {
    pub when: ExprNode,
    pub value: ExprNode,
}

/// One `ORDER BY` term of a window.
#[derive(Debug, PartialEq)]
pub struct WindowOrderTerm {
    pub expr: ExprNode,
    pub direction: OrderDirection,
}

/// A source of a query: a table under an alias.
#[derive(Debug, PartialEq)]
pub struct SourceRef {
    pub schema: Option<Label>,
    pub name: Label,
    pub alias: SourceAlias,
}

/// How a source is joined.
#[derive(Clone, Copy, Debug, PartialEq, Eq, Structural)]
pub enum JoinKind {
    Inner,
    Left,
    Right,
    Full,
    Cross,
}

/// One joined source. A cross join has no condition.
#[derive(Debug, PartialEq)]
pub struct JoinItem {
    pub kind: JoinKind,
    pub source: SourceRef,
    pub on: Option<ExprNode>,
}

/// One projected expression under its output name.
#[derive(Debug, PartialEq)]
pub struct ProjectionItem {
    pub output_name: Label,
    pub expr: ExprNode,
}

/// One `ORDER BY` term.
#[derive(Debug, PartialEq)]
pub struct OrderItem {
    pub expr: ExprNode,
    pub direction: Option<OrderDirection>,
    pub nulls: Option<OrderNulls>,
}

/// The body of a view: a `SELECT`, clause by clause.
#[derive(Debug, PartialEq)]
pub struct ViewQueryModel {
    pub distinct: bool,
    pub projection: List<ProjectionItem>,
    pub from: Option<SourceRef>,
    pub joins: List<JoinItem>,
    pub filter: Option<ExprNode>,
    pub group_by: List<ExprNode>,
    pub having: Option<ExprNode>,
    pub order_by: List<OrderItem>,
    pub limit: Option<usize>,
    pub offset: Option<usize>,
}

} // verus!
