//! Closed query trees: what a typed query or expression says, with its types erased.
//!
//! The typed builders lower into these trees; the SQL renderer and the view model are functions of
//! them. `L` is what a literal is: for rendering, the literal's encoded bind parameters.
use crate::chain::List;
use crate::label::{Duplicate, Label};
use crate::node::ViewQueryModel;
use crate::ops::{
    AggregateFunc, ArithmeticOp, CompareOp, DateField, OrderDirection, OrderNulls, RowLock, SetOp,
    SourceAlias, UnaryStringFunc, WindowFunc,
};
use crate::sql_type::SqlType;
use vstd::prelude::*;

verus! {

/// A literal as a backend binds it: its native parameters, or the error that encoding it gave.
pub struct Encoded<P, E> {
    pub outcome: Result<List<P>, E>,
}

/// A scalar expression.
pub enum ExprTree<L> {
    Column { alias: SourceAlias, column: Label },
    Literal(L),
    /// A runtime parameter of a prepared statement.
    Param,
    Binary { op: ArithmeticOp, left: Box<ExprTree<L>>, right: Box<ExprTree<L>> },
    Nullif {
        left: Box<ExprTree<L>>,
        left_needs_cast: bool,
        right: Box<ExprTree<L>>,
        right_needs_cast: bool,
        result: Option<SqlType>,
    },
    Coalesce { args: List<ExprTree<L>>, all_args_need_cast: bool, result: Option<SqlType> },
    Aggregate {
        func: AggregateFunc,
        distinct: bool,
        cast: Option<SqlType>,
        operand: Box<ExprTree<L>>,
    },
    ScalarSubquery(Box<SelectTree<L>>),
    Window {
        func: WindowFunc,
        cast: Option<SqlType>,
        args: List<ExprTree<L>>,
        partitions: List<ExprTree<L>>,
        orders: List<WindowOrderTree<L>>,
    },
    /// A searched `CASE`.
    Case {
        arms: List<CaseArmTree<L>>,
        else_: Option<Box<ExprTree<L>>>,
        result: Option<SqlType>,
    },
    /// A `CASE` that compares one operand with the value of each arm.
    SimpleCase {
        operand: Box<ExprTree<L>>,
        operand_needs_cast: bool,
        comparison: Option<SqlType>,
        arms: List<SimpleArmTree<L>>,
        else_: Option<Box<ExprTree<L>>>,
        result: Option<SqlType>,
    },
    UnaryFn { func: UnaryStringFunc, operand: Box<ExprTree<L>> },
    Concat { left: Box<ExprTree<L>>, right: Box<ExprTree<L>> },
    Substring { string: Box<ExprTree<L>>, start: Box<ExprTree<L>>, len: Box<ExprTree<L>> },
    Now,
    Extract {
        field: DateField,
        operand: Box<ExprTree<L>>,
        cast: SqlType,
        timezone: Option<Label>,
        operand_cast: Option<SqlType>,
    },
    DateTrunc {
        unit: DateField,
        operand: Box<ExprTree<L>>,
        timezone: Option<Label>,
        operand_cast: Option<SqlType>,
    },
    /// The seconds of a timestamp with their fraction.
    ExtractSecond { operand: Box<ExprTree<L>>, cast: SqlType, operand_cast: Option<SqlType> },
}

/// A boolean condition.
pub enum PredicateTree<L> {
    Compare { op: CompareOp, left: Box<ExprTree<L>>, right: Box<ExprTree<L>> },
    And { left: Box<PredicateTree<L>>, right: Box<PredicateTree<L>> },
    Or { left: Box<PredicateTree<L>>, right: Box<PredicateTree<L>> },
    Not(Box<PredicateTree<L>>),
    IsNull { negated: bool, operand: Box<ExprTree<L>> },
    Like {
        case_insensitive: bool,
        negated: bool,
        operand: Box<ExprTree<L>>,
        pattern: Box<ExprTree<L>>,
    },
    In { negated: bool, operand: Box<ExprTree<L>>, values: List<L> },
    Between {
        negated: bool,
        operand: Box<ExprTree<L>>,
        lo: Box<ExprTree<L>>,
        hi: Box<ExprTree<L>>,
    },
    BoolTest { negated: bool, operand: Box<ExprTree<L>> },
    InSubquery { negated: bool, operand: Box<ExprTree<L>>, subquery: Box<SelectTree<L>> },
    Exists { negated: bool, subquery: Box<SelectTree<L>> },
}

/// One `ORDER BY` term of a window.
pub struct WindowOrderTree<L> {
    pub expr: ExprTree<L>,
    pub direction: OrderDirection,
}

/// One `WHEN … THEN …` arm of a searched `CASE`.
pub struct CaseArmTree<L> {
    pub when: PredicateTree<L>,
    pub value: ExprTree<L>,
}

/// One `WHEN … THEN …` arm of a simple `CASE`.
pub struct SimpleArmTree<L> {
    pub when: ExprTree<L>,
    pub value: ExprTree<L>,
}

/// A table, with the schema it lives in where one is named.
pub struct TableRef {
    pub schema: Option<Label>,
    pub name: Label,
}

/// How a source joins the sources before it.
pub enum JoinTree<L> {
    /// The source stands on its own behind `FROM`.
    Table,
    Inner(PredicateTree<L>),
    Left(PredicateTree<L>),
    Right(PredicateTree<L>),
    Full(PredicateTree<L>),
    Cross,
}

/// One source of a `SELECT`.
pub struct SourceTree<L> {
    pub alias: SourceAlias,
    pub table: TableRef,
    pub join: JoinTree<L>,
}

/// One projected expression and its output name.
pub struct ProjectionTree<L> {
    pub expr: ExprTree<L>,
    pub alias: Label,
}

/// One `ORDER BY` term.
pub struct OrderTree<L> {
    pub expr: ExprTree<L>,
    pub direction: OrderDirection,
    pub nulls: Option<NullsTree<L>>,
}

/// Where the `NULL`s of an `ORDER BY` term stand. `key` is the ordered expression once more, for
/// dialects that sort by `key IS NULL` first.
pub struct NullsTree<L> {
    pub nulls: OrderNulls,
    pub key: ExprTree<L>,
}

/// A `SELECT`, clause by clause.
pub struct SelectTree<L> {
    pub distinct: bool,
    pub projection: List<ProjectionTree<L>>,
    pub sources: List<SourceTree<L>>,
    pub filters: List<PredicateTree<L>>,
    pub groups: List<ExprTree<L>>,
    pub havings: List<PredicateTree<L>>,
    pub orders: List<OrderTree<L>>,
    pub limit: Option<usize>,
    pub offset: Option<usize>,
    pub row_lock: Option<RowLock>,
}

/// One ordering of a set operation's result, by output column.
pub struct SetOrder {
    pub column: Label,
    pub direction: OrderDirection,
}

/// What stands behind a set operation: its ordering and bounds.
pub struct SetTail {
    pub orders: List<SetOrder>,
    pub limit: Option<usize>,
    pub offset: Option<usize>,
}

/// The body of a common table expression, with its literals inlined: each dialect writes it in its
/// own way.
#[derive(Debug, PartialEq)]
pub enum CteBody {
    Plain(ViewQueryModel),
    /// The rows of `anchor`, and then those that `recursive` gives from the rows found so far, with or
    /// without duplicates.
    Recursive { anchor: ViewQueryModel, union_all: bool, recursive: ViewQueryModel },
}

/// A common table expression: its definition's identity, its name and columns, whether it refers to
/// itself, and its body.
pub struct CteDef {
    pub type_key: u64,
    pub name: Label,
    pub columns: List<Label>,
    pub recursive: bool,
    pub body: CteBody,
}

/// A tree of set operations over `SELECT`s.
pub enum SetTree<L> {
    /// One `SELECT` with the common table expressions that it refers to.
    Leaf { select: SelectTree<L>, ctes: List<CteDef> },
    Node { left: Box<SetTree<L>>, op: SetOp, right: Box<SetTree<L>> },
    /// A nested set operation with an ordering or bounds of its own.
    Group { tree: Box<SetTree<L>>, tail: SetTail },
}

/// What one column is assigned in an `INSERT` or `UPDATE`.
pub enum ValueTree<L> {
    Static(L),
    Default,
    Runtime,
    Expr(ExprTree<L>),
}

/// One column assignment.
pub struct AssignmentTree<L> {
    pub column: Label,
    pub value: ValueTree<L>,
}

/// What an upsert does with a row that is already there.
#[derive(Clone, Copy, Debug, PartialEq, Eq, Structural)]
pub enum ConflictAction {
    DoNothing,
    /// Every inserted column takes the value that the insert proposed.
    DoUpdateExcluded,
}

/// The conflict clause of an upsert: the columns whose uniqueness decides, and the action.
pub struct ConflictClause {
    pub target: Vec<String>,
    pub action: ConflictAction,
}

/// An `INSERT` of literal rows.
pub struct InsertTree<L> {
    pub table: TableRef,
    pub rows: List<List<AssignmentTree<L>>>,
    pub conflict: Option<ConflictClause>,
    pub returning: List<ProjectionTree<L>>,
}

/// An `INSERT` of the rows of a query.
pub struct InsertSelectTree<L> {
    pub table: TableRef,
    pub columns: List<Label>,
    pub source: SetTree<L>,
    pub returning: List<ProjectionTree<L>>,
}

/// An `UPDATE`.
pub struct UpdateTree<L> {
    pub table: TableRef,
    pub alias: SourceAlias,
    pub columns: List<AssignmentTree<L>>,
    pub filters: List<PredicateTree<L>>,
    pub returning: List<ProjectionTree<L>>,
}

/// A `DELETE`.
pub struct DeleteTree<L> {
    pub table: TableRef,
    pub alias: SourceAlias,
    pub filters: List<PredicateTree<L>>,
    pub returning: List<ProjectionTree<L>>,
}

impl Duplicate for CteBody {
    fn duplicate(&self) -> (copy: CteBody) {
        match self {
            CteBody::Plain(query) => CteBody::Plain(query.duplicate()),
            CteBody::Recursive { anchor, union_all, recursive } => CteBody::Recursive {
                anchor: anchor.duplicate(),
                union_all: *union_all,
                recursive: recursive.duplicate(),
            },
        }
    }
}

impl Clone for CteBody {
    fn clone(&self) -> (copy: CteBody)
        ensures
            copy == *self,
    {
        self.duplicate()
    }
}

impl Duplicate for SetOrder {
    fn duplicate(&self) -> (copy: SetOrder) {
        SetOrder { column: self.column.duplicate(), direction: self.direction }
    }
}

impl Duplicate for SetTail {
    fn duplicate(&self) -> (copy: SetTail) {
        SetTail { orders: self.orders.duplicate(), limit: self.limit, offset: self.offset }
    }
}

impl Duplicate for CteDef {
    fn duplicate(&self) -> (copy: CteDef) {
        CteDef {
            type_key: self.type_key,
            name: self.name.duplicate(),
            columns: self.columns.duplicate(),
            recursive: self.recursive,
            body: self.body.duplicate(),
        }
    }
}

impl Duplicate for TableRef {
    fn duplicate(&self) -> (copy: TableRef) {
        TableRef { schema: self.schema.duplicate(), name: self.name.duplicate() }
    }
}

} // verus!
