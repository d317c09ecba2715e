//! View bodies: lowering a query into its backend-neutral structure.
//!
//! A view definition carries no bound values. It is built against [`ModelBackend`], whose parameters
//! are literals to be inlined, and lowered into a [`ViewQueryModel`] that backends render.
use crate::backend::{Backend, Bound, Decode, Encode, RowReader};
use crate::chain::List;
use crate::label::Duplicate;
use crate::node::{
    CaseArm, ExprNode, InlineLiteral, JoinItem, JoinKind, LogicalOp, OrderItem, ProjectionItem,
    ScalarFunc, SourceRef, ViewQueryModel, WindowOrderTerm,
};
use crate::ops::{SourceAlias, UnaryStringFunc};
use crate::tree::{
    CaseArmTree, ExprTree, JoinTree, OrderTree, PredicateTree, ProjectionTree, SelectTree,
    SimpleArmTree, SourceTree, TableRef, WindowOrderTree,
};
use vstd::prelude::*;

pub mod definition;
pub mod faithful;
pub mod joins;
pub mod laws;
pub mod nodes;

verus! {

/// The backend that view definitions are built against. It neither connects nor executes: its
/// parameters are literals to be inlined.
#[derive(Clone, Copy, Debug, PartialEq, Eq, Structural)]
pub struct ModelBackend;

/// The connection that view definitions are built against.
#[derive(Clone, Copy, Debug, PartialEq, Eq, Structural)]
pub struct ModelConn;

/// The error type of [`ModelBackend`]. Encoding a literal for it does not fail.
#[derive(Clone, Copy, Debug, PartialEq, Eq, Structural)]
pub struct ModelError;

/// The row cursor of [`ModelBackend`], which has no rows.
pub struct ModelRowReader;

impl Backend for ModelBackend {
    type Error = ModelError;

    type Param = InlineLiteral;

    type RowReader = ModelRowReader;

    open spec fn is_no_rows(error: ModelError) -> bool {
        true
    }

    fn no_rows_error() -> (error: ModelError) {
        ModelError
    }
}

impl RowReader for ModelRowReader {
    type Backend = ModelBackend;

    fn read<T: Decode<ModelBackend>>(&mut self) -> (outcome: Result<T, ModelError>) {
        T::decode(self)
    }
}

/// The list of one literal.
pub open spec fn one_literal(literal: InlineLiteral) -> Result<List<InlineLiteral>, ModelError> {
    Ok(List::Cons { head: Box::new(literal), tail: Box::new(List::Nil) })
}

impl Encode<ModelBackend> for i8 {
    open spec fn encoded(&self) -> Result<List<InlineLiteral>, ModelError> {
        one_literal(InlineLiteral::Int(*self as i128))
    }

    fn encode(&self) -> (outcome: Result<List<InlineLiteral>, ModelError>) {
        Ok(List::one(InlineLiteral::Int(*self as i128)))
    }
}

impl Encode<ModelBackend> for i16 {
    open spec fn encoded(&self) -> Result<List<InlineLiteral>, ModelError> {
        one_literal(InlineLiteral::Int(*self as i128))
    }

    fn encode(&self) -> (outcome: Result<List<InlineLiteral>, ModelError>) {
        Ok(List::one(InlineLiteral::Int(*self as i128)))
    }
}

impl Encode<ModelBackend> for i32 {
    open spec fn encoded(&self) -> Result<List<InlineLiteral>, ModelError> {
        one_literal(InlineLiteral::Int(*self as i128))
    }

    fn encode(&self) -> (outcome: Result<List<InlineLiteral>, ModelError>) {
        Ok(List::one(InlineLiteral::Int(*self as i128)))
    }
}

impl Encode<ModelBackend> for i64 {
    open spec fn encoded(&self) -> Result<List<InlineLiteral>, ModelError> {
        one_literal(InlineLiteral::Int(*self as i128))
    }

    fn encode(&self) -> (outcome: Result<List<InlineLiteral>, ModelError>) {
        Ok(List::one(InlineLiteral::Int(*self as i128)))
    }
}

impl Encode<ModelBackend> for i128 {
    open spec fn encoded(&self) -> Result<List<InlineLiteral>, ModelError> {
        one_literal(InlineLiteral::Int(*self as i128))
    }

    fn encode(&self) -> (outcome: Result<List<InlineLiteral>, ModelError>) {
        Ok(List::one(InlineLiteral::Int(*self as i128)))
    }
}

impl Encode<ModelBackend> for isize {
    open spec fn encoded(&self) -> Result<List<InlineLiteral>, ModelError> {
        one_literal(InlineLiteral::Int(*self as i128))
    }

    fn encode(&self) -> (outcome: Result<List<InlineLiteral>, ModelError>) {
        Ok(List::one(InlineLiteral::Int(*self as i128)))
    }
}

impl Encode<ModelBackend> for u8 {
    open spec fn encoded(&self) -> Result<List<InlineLiteral>, ModelError> {
        one_literal(InlineLiteral::UInt(*self as u128))
    }

    fn encode(&self) -> (outcome: Result<List<InlineLiteral>, ModelError>) {
        Ok(List::one(InlineLiteral::UInt(*self as u128)))
    }
}

impl Encode<ModelBackend> for u16 {
    open spec fn encoded(&self) -> Result<List<InlineLiteral>, ModelError> {
        one_literal(InlineLiteral::UInt(*self as u128))
    }

    fn encode(&self) -> (outcome: Result<List<InlineLiteral>, ModelError>) {
        Ok(List::one(InlineLiteral::UInt(*self as u128)))
    }
}

impl Encode<ModelBackend> for u32 {
    open spec fn encoded(&self) -> Result<List<InlineLiteral>, ModelError> {
        one_literal(InlineLiteral::UInt(*self as u128))
    }

    fn encode(&self) -> (outcome: Result<List<InlineLiteral>, ModelError>) {
        Ok(List::one(InlineLiteral::UInt(*self as u128)))
    }
}

impl Encode<ModelBackend> for u64 {
    open spec fn encoded(&self) -> Result<List<InlineLiteral>, ModelError> {
        one_literal(InlineLiteral::UInt(*self as u128))
    }

    fn encode(&self) -> (outcome: Result<List<InlineLiteral>, ModelError>) {
        Ok(List::one(InlineLiteral::UInt(*self as u128)))
    }
}

impl Encode<ModelBackend> for u128 {
    open spec fn encoded(&self) -> Result<List<InlineLiteral>, ModelError> {
        one_literal(InlineLiteral::UInt(*self as u128))
    }

    fn encode(&self) -> (outcome: Result<List<InlineLiteral>, ModelError>) {
        Ok(List::one(InlineLiteral::UInt(*self as u128)))
    }
}

impl Encode<ModelBackend> for usize {
    open spec fn encoded(&self) -> Result<List<InlineLiteral>, ModelError> {
        one_literal(InlineLiteral::UInt(*self as u128))
    }

    fn encode(&self) -> (outcome: Result<List<InlineLiteral>, ModelError>) {
        Ok(List::one(InlineLiteral::UInt(*self as u128)))
    }
}

impl Encode<ModelBackend> for bool {
    open spec fn encoded(&self) -> Result<List<InlineLiteral>, ModelError> {
        one_literal(InlineLiteral::Bool(*self))
    }

    fn encode(&self) -> (outcome: Result<List<InlineLiteral>, ModelError>) {
        Ok(List::one(InlineLiteral::Bool(*self)))
    }
}

impl Encode<ModelBackend> for String {
    open spec fn encoded(&self) -> Result<List<InlineLiteral>, ModelError> {
        one_literal(InlineLiteral::Text(*self))
    }

    fn encode(&self) -> (outcome: Result<List<InlineLiteral>, ModelError>) {
        Ok(List::one(InlineLiteral::Text(self.clone())))
    }
}

impl<T: Encode<ModelBackend>> Encode<ModelBackend> for Option<T> {
    open spec fn encoded(&self) -> Result<List<InlineLiteral>, ModelError> {
        match self {
            Some(value) => value.encoded(),
            None => one_literal(InlineLiteral::Null),
        }
    }

    fn encode(&self) -> (outcome: Result<List<InlineLiteral>, ModelError>) {
        match self {
            Some(value) => value.encode(),
            None => Ok(List::one(InlineLiteral::Null)),
        }
    }
}

/// Why a query cannot be a view body.
#[derive(Clone, Copy, Debug, PartialEq, Eq, Structural)]
pub enum ViewError {
    /// It contains a runtime parameter.
    RuntimeParameter,
}

impl ViewError {
    /// The error as a message.
    pub fn message(self) -> (text: &'static str)
        ensures
            text == match self {
                ViewError::RuntimeParameter => "a view body cannot contain a runtime parameter",
            },
    {
        match self {
            ViewError::RuntimeParameter => "a view body cannot contain a runtime parameter",
        }
    }
}

/// A literal of a view body.
pub type ModelLiteral = Bound<ModelBackend>;

/// Two lowered parts: both of them, or the error of the first that has one.
pub open spec fn both<A, B>(a: Result<A, ViewError>, b: Result<B, ViewError>) -> Result<
    (A, B),
    ViewError,
> {
    match a {
        Err(error) => Err(error),
        Ok(one) => match b {
            Err(error) => Err(error),
            Ok(two) => Ok((one, two)),
        },
    }
}

fn pair<A, B>(a: Result<A, ViewError>, b: Result<B, ViewError>) -> (result: Result<
    (A, B),
    ViewError,
>)
    ensures
        result == both(a, b),
{
    match a {
        Err(error) => Err(error),
        Ok(one) => match b {
            Err(error) => Err(error),
            Ok(two) => Ok((one, two)),
        },
    }
}

/// An inlined literal.
pub open spec fn literal_node(literal: ModelLiteral) -> ExprNode {
    ExprNode::Literal(
        match literal.outcome {
            Ok(values) => values,
            Err(_) => List::Nil,
        },
    )
}

fn encode_literal(literal: ModelLiteral) -> (node: ExprNode)
    ensures
        node == literal_node(literal),
{
    ExprNode::Literal(
        match literal.outcome {
            Ok(values) => values,
            Err(_) => List::Nil,
        },
    )
}

/// The list of one node.
pub open spec fn nodes1(a: ExprNode) -> List<ExprNode> {
    List::Cons { head: Box::new(a), tail: Box::new(List::Nil) }
}

/// The list of two nodes.
pub open spec fn nodes2(a: ExprNode, b: ExprNode) -> List<ExprNode> {
    List::Cons { head: Box::new(a), tail: Box::new(nodes1(b)) }
}

/// The list of three nodes.
pub open spec fn nodes3(a: ExprNode, b: ExprNode, c: ExprNode) -> List<ExprNode> {
    List::Cons { head: Box::new(a), tail: Box::new(nodes2(b, c)) }
}

/// The scalar function of a string function.
pub open spec fn scalar_func(func: UnaryStringFunc) -> ScalarFunc {
    match func {
        UnaryStringFunc::Lower => ScalarFunc::Lower,
        UnaryStringFunc::Upper => ScalarFunc::Upper,
        UnaryStringFunc::Length => ScalarFunc::Length,
        UnaryStringFunc::Trim => ScalarFunc::Trim,
    }
}

/// The node of an expression.
pub open spec fn expr_node(tree: ExprTree<ModelLiteral>) -> Result<ExprNode, ViewError>
    decreases tree, 0nat,
{
    match tree {
        ExprTree::Column { alias, column } => Ok(ExprNode::Column { alias, column }),
        ExprTree::Literal(literal) => Ok(literal_node(literal)),
        ExprTree::Binary { op, left, right } => match both(expr_node(*left), expr_node(*right)) {
            Ok((left, right)) => Ok(ExprNode::Binary { op, left: Box::new(left), right: Box::new(right) }),
            Err(error) => Err(error),
        },
        ExprTree::Nullif { left, right, result, .. } => match both(expr_node(*left), expr_node(*right)) {
            Ok((left, right)) => Ok(ExprNode::Nullif { left: Box::new(left), right: Box::new(right), result }),
            Err(error) => Err(error),
        },
        ExprTree::Coalesce { args, result, .. } => match expr_nodes(args) {
            Ok(args) => Ok(ExprNode::Coalesce { args, result }),
            Err(error) => Err(error),
        },
        ExprTree::Aggregate { func, distinct, cast, operand } => match expr_node(*operand) {
            Ok(operand) => Ok(ExprNode::Aggregate { func, distinct, operand: Box::new(operand), result: cast }),
            Err(error) => Err(error),
        },
        ExprTree::ScalarSubquery(subquery) => match select_model(*subquery) {
            Ok(query) => Ok(ExprNode::ScalarSubquery(Box::new(query))),
            Err(error) => Err(error),
        },
        ExprTree::Window { func, cast, args, partitions, orders } => match both(both(expr_nodes(args), expr_nodes(partitions)), window_order_terms(orders)) {
            Ok(((args, partition_by), order_by)) => Ok(ExprNode::Window { func, args, partition_by, order_by, result: cast }),
            Err(error) => Err(error),
        },
        ExprTree::Case { arms, else_, result } => match both(case_arm_nodes(arms), else_node(else_)) {
            Ok((arms, else_)) => Ok(ExprNode::Case { arms, else_, result }),
            Err(error) => Err(error),
        },
        ExprTree::SimpleCase { operand, arms, else_, result, .. } => match both(both(expr_node(*operand), simple_arm_nodes(arms)), else_node(else_)) {
            Ok(((operand, arms), else_)) => Ok(ExprNode::SimpleCase { operand: Box::new(operand), arms, else_, result }),
            Err(error) => Err(error),
        },
        ExprTree::UnaryFn { func, operand } => match expr_node(*operand) {
            Ok(operand) => Ok(ExprNode::ScalarFn { func: scalar_func(func), args: nodes1(operand) }),
            Err(error) => Err(error),
        },
        ExprTree::Concat { left, right } => match both(expr_node(*left), expr_node(*right)) {
            Ok((left, right)) => Ok(ExprNode::ScalarFn { func: ScalarFunc::Concat, args: nodes2(left, right) }),
            Err(error) => Err(error),
        },
        ExprTree::Substring { string, start, len } => match both(both(expr_node(*string), expr_node(*start)), expr_node(*len)) {
            Ok(((string, start), len)) => Ok(ExprNode::ScalarFn { func: ScalarFunc::Substring, args: nodes3(string, start, len) }),
            Err(error) => Err(error),
        },
        ExprTree::Now => Ok(ExprNode::Now),
        ExprTree::Extract { field, operand, cast, timezone, .. } => match expr_node(*operand) {
            Ok(operand) => Ok(ExprNode::Extract { field, operand: Box::new(operand), result: Some(cast), timezone }),
            Err(error) => Err(error),
        },
        ExprTree::DateTrunc { unit, operand, timezone, .. } => match expr_node(*operand) {
            Ok(operand) => Ok(ExprNode::DateTrunc { unit, operand: Box::new(operand), timezone }),
            Err(error) => Err(error),
        },
        ExprTree::ExtractSecond { operand, cast, .. } => match expr_node(*operand) {
            Ok(operand) => Ok(ExprNode::ExtractSecond { operand: Box::new(operand), result: Some(cast) }),
            Err(error) => Err(error),
        },
        ExprTree::Param => Err(ViewError::RuntimeParameter),
    }
}

#[verifier::spinoff_prover]
fn lower_expr(tree: ExprTree<ModelLiteral>) -> (result: Result<ExprNode, ViewError>)
    ensures
        result == expr_node(tree),
    decreases tree, 0nat,
{
    match tree {
        ExprTree::Column { alias, column } => Ok(ExprNode::Column { alias, column }),
        ExprTree::Literal(literal) => Ok(encode_literal(literal)),
        ExprTree::Binary { op, left, right } => match pair(lower_expr(*left), lower_expr(*right)) {
            Ok((left, right)) => Ok(ExprNode::Binary { op, left: Box::new(left), right: Box::new(right) }),
            Err(error) => Err(error),
        },
        ExprTree::Nullif { left, right, result, .. } => match pair(lower_expr(*left), lower_expr(*right)) {
            Ok((left, right)) => Ok(ExprNode::Nullif { left: Box::new(left), right: Box::new(right), result }),
            Err(error) => Err(error),
        },
        ExprTree::Coalesce { args, result, .. } => match lower_exprs(args) {
            Ok(args) => Ok(ExprNode::Coalesce { args, result }),
            Err(error) => Err(error),
        },
        ExprTree::Aggregate { func, distinct, cast, operand } => match lower_expr(*operand) {
            Ok(operand) => Ok(ExprNode::Aggregate { func, distinct, operand: Box::new(operand), result: cast }),
            Err(error) => Err(error),
        },
        ExprTree::ScalarSubquery(subquery) => match lower_select(*subquery) {
            Ok(query) => Ok(ExprNode::ScalarSubquery(Box::new(query))),
            Err(error) => Err(error),
        },
        ExprTree::Window { func, cast, args, partitions, orders } => match pair(pair(lower_exprs(args), lower_exprs(partitions)), lower_window_orders(orders)) {
            Ok(((args, partition_by), order_by)) => Ok(ExprNode::Window { func, args, partition_by, order_by, result: cast }),
            Err(error) => Err(error),
        },
        ExprTree::Case { arms, else_, result } => match pair(lower_case_arms(arms), lower_else(else_)) {
            Ok((arms, else_)) => Ok(ExprNode::Case { arms, else_, result }),
            Err(error) => Err(error),
        },
        ExprTree::SimpleCase { operand, arms, else_, result, .. } => match pair(pair(lower_expr(*operand), lower_simple_arms(arms)), lower_else(else_)) {
            Ok(((operand, arms), else_)) => Ok(ExprNode::SimpleCase { operand: Box::new(operand), arms, else_, result }),
            Err(error) => Err(error),
        },
        ExprTree::UnaryFn { func, operand } => match lower_expr(*operand) {
            Ok(operand) => Ok(ExprNode::ScalarFn { func: lower_unary_func(func), args: List::one(operand) }),
            Err(error) => Err(error),
        },
        ExprTree::Concat { left, right } => match pair(lower_expr(*left), lower_expr(*right)) {
            Ok((left, right)) => Ok(ExprNode::ScalarFn { func: ScalarFunc::Concat, args: node_pair(left, right) }),
            Err(error) => Err(error),
        },
        ExprTree::Substring { string, start, len } => match pair(pair(lower_expr(*string), lower_expr(*start)), lower_expr(*len)) {
            Ok(((string, start), len)) => Ok(ExprNode::ScalarFn { func: ScalarFunc::Substring, args: node_triple(string, start, len) }),
            Err(error) => Err(error),
        },
        ExprTree::Now => Ok(ExprNode::Now),
        ExprTree::Extract { field, operand, cast, timezone, .. } => match lower_expr(*operand) {
            Ok(operand) => Ok(ExprNode::Extract { field, operand: Box::new(operand), result: Some(cast), timezone }),
            Err(error) => Err(error),
        },
        ExprTree::DateTrunc { unit, operand, timezone, .. } => match lower_expr(*operand) {
            Ok(operand) => Ok(ExprNode::DateTrunc { unit, operand: Box::new(operand), timezone }),
            Err(error) => Err(error),
        },
        ExprTree::ExtractSecond { operand, cast, .. } => match lower_expr(*operand) {
            Ok(operand) => Ok(ExprNode::ExtractSecond { operand: Box::new(operand), result: Some(cast) }),
            Err(error) => Err(error),
        },
        ExprTree::Param => Err(ViewError::RuntimeParameter),
    }
}

/// The node of a predicate. A boolean expression used as a predicate is that expression.
pub open spec fn predicate_node(predicate: PredicateTree<ModelLiteral>) -> Result<
    ExprNode,
    ViewError,
>
    decreases predicate, 0nat,
{
    match predicate {
        PredicateTree::Compare { op, left, right } => match both(expr_node(*left), expr_node(*right)) {
            Ok((left, right)) => Ok(ExprNode::Compare { op, left: Box::new(left), right: Box::new(right) }),
            Err(error) => Err(error),
        },
        PredicateTree::And { left, right } => match both(predicate_node(*left), predicate_node(*right)) {
            Ok((left, right)) => Ok(ExprNode::Logical { op: LogicalOp::And, left: Box::new(left), right: Box::new(right) }),
            Err(error) => Err(error),
        },
        PredicateTree::Or { left, right } => match both(predicate_node(*left), predicate_node(*right)) {
            Ok((left, right)) => Ok(ExprNode::Logical { op: LogicalOp::Or, left: Box::new(left), right: Box::new(right) }),
            Err(error) => Err(error),
        },
        PredicateTree::Not(inner) => match predicate_node(*inner) {
            Ok(inner) => Ok(ExprNode::Not(Box::new(inner))),
            Err(error) => Err(error),
        },
        PredicateTree::IsNull { negated, operand } => match expr_node(*operand) {
            Ok(operand) => Ok(ExprNode::IsNull { negated, operand: Box::new(operand) }),
            Err(error) => Err(error),
        },
        PredicateTree::Like { case_insensitive, negated, operand, pattern } => match both(expr_node(*operand), expr_node(*pattern)) {
            Ok((operand, pattern)) => Ok(ExprNode::Like { case_insensitive, negated, operand: Box::new(operand), pattern: Box::new(pattern) }),
            Err(error) => Err(error),
        },
        PredicateTree::In { negated, operand, values } => match expr_node(*operand) {
            Ok(operand) => Ok(ExprNode::In { negated, operand: Box::new(operand), items: value_nodes(values) }),
            Err(error) => Err(error),
        },
        PredicateTree::Between { negated, operand, lo, hi } => match both(both(expr_node(*operand), expr_node(*lo)), expr_node(*hi)) {
            Ok(((operand, low), high)) => Ok(ExprNode::Between { negated, operand: Box::new(operand), low: Box::new(low), high: Box::new(high) }),
            Err(error) => Err(error),
        },
        PredicateTree::BoolTest { negated, operand } => match expr_node(*operand) {
            Ok(operand) => Ok(if negated { ExprNode::Not(Box::new(operand)) } else { operand }),
            Err(error) => Err(error),
        },
        PredicateTree::InSubquery { negated, operand, subquery } => match both(expr_node(*operand), select_model(*subquery)) {
            Ok((operand, query)) => Ok(ExprNode::InSubquery { negated, operand: Box::new(operand), subquery: Box::new(query) }),
            Err(error) => Err(error),
        },
        PredicateTree::Exists { negated, subquery } => match select_model(*subquery) {
            Ok(query) => Ok(ExprNode::Exists { negated, subquery: Box::new(query) }),
            Err(error) => Err(error),
        },
    }
}

#[verifier::spinoff_prover]
fn lower_predicate(predicate: PredicateTree<ModelLiteral>) -> (result: Result<ExprNode, ViewError>)
    ensures
        result == predicate_node(predicate),
    decreases predicate, 0nat,
{
    match predicate {
        PredicateTree::Compare { op, left, right } => match pair(lower_expr(*left), lower_expr(*right)) {
            Ok((left, right)) => Ok(ExprNode::Compare { op, left: Box::new(left), right: Box::new(right) }),
            Err(error) => Err(error),
        },
        PredicateTree::And { left, right } => match pair(lower_predicate(*left), lower_predicate(*right)) {
            Ok((left, right)) => Ok(ExprNode::Logical { op: LogicalOp::And, left: Box::new(left), right: Box::new(right) }),
            Err(error) => Err(error),
        },
        PredicateTree::Or { left, right } => match pair(lower_predicate(*left), lower_predicate(*right)) {
            Ok((left, right)) => Ok(ExprNode::Logical { op: LogicalOp::Or, left: Box::new(left), right: Box::new(right) }),
            Err(error) => Err(error),
        },
        PredicateTree::Not(inner) => match lower_predicate(*inner) {
            Ok(inner) => Ok(ExprNode::Not(Box::new(inner))),
            Err(error) => Err(error),
        },
        PredicateTree::IsNull { negated, operand } => match lower_expr(*operand) {
            Ok(operand) => Ok(ExprNode::IsNull { negated, operand: Box::new(operand) }),
            Err(error) => Err(error),
        },
        PredicateTree::Like { case_insensitive, negated, operand, pattern } => match pair(lower_expr(*operand), lower_expr(*pattern)) {
            Ok((operand, pattern)) => Ok(ExprNode::Like { case_insensitive, negated, operand: Box::new(operand), pattern: Box::new(pattern) }),
            Err(error) => Err(error),
        },
        PredicateTree::In { negated, operand, values } => match lower_expr(*operand) {
            Ok(operand) => Ok(ExprNode::In { negated, operand: Box::new(operand), items: lower_values(values) }),
            Err(error) => Err(error),
        },
        PredicateTree::Between { negated, operand, lo, hi } => match pair(pair(lower_expr(*operand), lower_expr(*lo)), lower_expr(*hi)) {
            Ok(((operand, low), high)) => Ok(ExprNode::Between { negated, operand: Box::new(operand), low: Box::new(low), high: Box::new(high) }),
            Err(error) => Err(error),
        },
        PredicateTree::BoolTest { negated, operand } => match lower_expr(*operand) {
            Ok(operand) => Ok(if negated { ExprNode::Not(Box::new(operand)) } else { operand }),
            Err(error) => Err(error),
        },
        PredicateTree::InSubquery { negated, operand, subquery } => match pair(lower_expr(*operand), lower_select(*subquery)) {
            Ok((operand, query)) => Ok(ExprNode::InSubquery { negated, operand: Box::new(operand), subquery: Box::new(query) }),
            Err(error) => Err(error),
        },
        PredicateTree::Exists { negated, subquery } => match lower_select(*subquery) {
            Ok(query) => Ok(ExprNode::Exists { negated, subquery: Box::new(query) }),
            Err(error) => Err(error),
        },
    }
}

/// The `ELSE` branch of a `CASE`.
pub open spec fn else_node(else_: Option<Box<ExprTree<ModelLiteral>>>) -> Result<
    Option<Box<ExprNode>>,
    ViewError,
>
    decreases else_, 0nat,
{
    match else_ {
        None => Ok(None),
        Some(value) => match expr_node(*value) {
            Ok(node) => Ok(Some(Box::new(node))),
            Err(error) => Err(error),
        },
    }
}

#[verifier::spinoff_prover]
fn lower_else(else_: Option<Box<ExprTree<ModelLiteral>>>) -> (result: Result<
    Option<Box<ExprNode>>,
    ViewError,
>)
    ensures
        result == else_node(else_),
    decreases else_, 0nat,
{
    match else_ {
        None => Ok(None),
        Some(value) => match lower_expr(*value) {
            Ok(node) => Ok(Some(Box::new(node))),
            Err(error) => Err(error),
        },
    }
}

/// The values of an `IN` list.
pub open spec fn value_nodes(values: List<ModelLiteral>) -> List<ExprNode>
    decreases values,
{
    match values {
        List::Nil => List::Nil,
        List::Cons { head, tail } => List::Cons {
            head: Box::new(literal_node(*head)),
            tail: Box::new(value_nodes(*tail)),
        },
    }
}

#[verifier::spinoff_prover]
fn lower_values(values: List<ModelLiteral>) -> (nodes: List<ExprNode>)
    ensures
        nodes == value_nodes(values),
    decreases values,
{
    match values {
        List::Nil => List::Nil,
        List::Cons { head, tail } => List::Cons {
            head: Box::new(encode_literal(*head)),
            tail: Box::new(lower_values(*tail)),
        },
    }
}

fn node_pair(a: ExprNode, b: ExprNode) -> (nodes: List<ExprNode>)
    ensures
        nodes == nodes2(a, b),
{
    List::Cons { head: Box::new(a), tail: Box::new(List::one(b)) }
}

fn node_triple(a: ExprNode, b: ExprNode, c: ExprNode) -> (nodes: List<ExprNode>)
    ensures
        nodes == nodes3(a, b, c),
{
    List::Cons { head: Box::new(a), tail: Box::new(node_pair(b, c)) }
}

#[verifier::spinoff_prover]
fn lower_unary_func(func: UnaryStringFunc) -> (scalar: ScalarFunc)
    ensures
        scalar == scalar_func(func),
{
    match func {
        UnaryStringFunc::Lower => ScalarFunc::Lower,
        UnaryStringFunc::Upper => ScalarFunc::Upper,
        UnaryStringFunc::Length => ScalarFunc::Length,
        UnaryStringFunc::Trim => ScalarFunc::Trim,
    }
}

/// The nodes of expressions, in order.
pub open spec fn expr_nodes(list: List<ExprTree<ModelLiteral>>) -> Result<List<ExprNode>, ViewError>
    decreases list, 0nat,
{
    match list {
        List::Nil => Ok(List::Nil),
        List::Cons { head, tail } => match both(expr_node(*head), expr_nodes(*tail)) {
            Ok((head, tail)) => Ok(List::Cons { head: Box::new(head), tail: Box::new(tail) }),
            Err(error) => Err(error),
        },
    }
}

#[verifier::spinoff_prover]
fn lower_exprs(list: List<ExprTree<ModelLiteral>>) -> (result: Result<List<ExprNode>, ViewError>)
    ensures
        result == expr_nodes(list),
    decreases list, 0nat,
{
    match list {
        List::Nil => Ok(List::Nil),
        List::Cons { head, tail } => match pair(lower_expr(*head), lower_exprs(*tail)) {
            Ok((head, tail)) => Ok(List::Cons { head: Box::new(head), tail: Box::new(tail) }),
            Err(error) => Err(error),
        },
    }
}

/// One `ORDER BY` term of a window.
pub open spec fn window_order_term(tree: WindowOrderTree<ModelLiteral>) -> Result<WindowOrderTerm, ViewError>
    decreases tree, 0nat,
{
    match expr_node(tree.expr) {
            Ok(expr) => Ok(WindowOrderTerm { expr, direction: tree.direction }),
            Err(error) => Err(error),
        }
}

#[verifier::spinoff_prover]
fn lower_window_order(tree: WindowOrderTree<ModelLiteral>) -> (result: Result<WindowOrderTerm, ViewError>)
    ensures
        result == window_order_term(tree),
    decreases tree, 0nat,
{
    match lower_expr(tree.expr) {
            Ok(expr) => Ok(WindowOrderTerm { expr, direction: tree.direction }),
            Err(error) => Err(error),
        }
}

/// The `ORDER BY` terms of a window, in order.
pub open spec fn window_order_terms(list: List<WindowOrderTree<ModelLiteral>>) -> Result<List<WindowOrderTerm>, ViewError>
    decreases list, 0nat,
{
    match list {
        List::Nil => Ok(List::Nil),
        List::Cons { head, tail } => match both(window_order_term(*head), window_order_terms(*tail)) {
            Ok((head, tail)) => Ok(List::Cons { head: Box::new(head), tail: Box::new(tail) }),
            Err(error) => Err(error),
        },
    }
}

#[verifier::spinoff_prover]
fn lower_window_orders(list: List<WindowOrderTree<ModelLiteral>>) -> (result: Result<List<WindowOrderTerm>, ViewError>)
    ensures
        result == window_order_terms(list),
    decreases list, 0nat,
{
    match list {
        List::Nil => Ok(List::Nil),
        List::Cons { head, tail } => match pair(lower_window_order(*head), lower_window_orders(*tail)) {
            Ok((head, tail)) => Ok(List::Cons { head: Box::new(head), tail: Box::new(tail) }),
            Err(error) => Err(error),
        },
    }
}

/// One arm of a searched `CASE`.
pub open spec fn case_arm_node(tree: CaseArmTree<ModelLiteral>) -> Result<CaseArm, ViewError>
    decreases tree, 0nat,
{
    match both(predicate_node(tree.when), expr_node(tree.value)) {
            Ok((when, value)) => Ok(CaseArm { when, value }),
            Err(error) => Err(error),
        }
}

#[verifier::spinoff_prover]
fn lower_case_arm(tree: CaseArmTree<ModelLiteral>) -> (result: Result<CaseArm, ViewError>)
    ensures
        result == case_arm_node(tree),
    decreases tree, 0nat,
{
    match pair(lower_predicate(tree.when), lower_expr(tree.value)) {
            Ok((when, value)) => Ok(CaseArm { when, value }),
            Err(error) => Err(error),
        }
}

/// The arms of a searched `CASE`, in order.
pub open spec fn case_arm_nodes(list: List<CaseArmTree<ModelLiteral>>) -> Result<List<CaseArm>, ViewError>
    decreases list, 0nat,
{
    match list {
        List::Nil => Ok(List::Nil),
        List::Cons { head, tail } => match both(case_arm_node(*head), case_arm_nodes(*tail)) {
            Ok((head, tail)) => Ok(List::Cons { head: Box::new(head), tail: Box::new(tail) }),
            Err(error) => Err(error),
        },
    }
}

#[verifier::spinoff_prover]
fn lower_case_arms(list: List<CaseArmTree<ModelLiteral>>) -> (result: Result<List<CaseArm>, ViewError>)
    ensures
        result == case_arm_nodes(list),
    decreases list, 0nat,
{
    match list {
        List::Nil => Ok(List::Nil),
        List::Cons { head, tail } => match pair(lower_case_arm(*head), lower_case_arms(*tail)) {
            Ok((head, tail)) => Ok(List::Cons { head: Box::new(head), tail: Box::new(tail) }),
            Err(error) => Err(error),
        },
    }
}

/// One arm of a simple `CASE`.
pub open spec fn simple_arm_node(tree: SimpleArmTree<ModelLiteral>) -> Result<CaseArm, ViewError>
    decreases tree, 0nat,
{
    match both(expr_node(tree.when), expr_node(tree.value)) {
            Ok((when, value)) => Ok(CaseArm { when, value }),
            Err(error) => Err(error),
        }
}

#[verifier::spinoff_prover]
fn lower_simple_arm(tree: SimpleArmTree<ModelLiteral>) -> (result: Result<CaseArm, ViewError>)
    ensures
        result == simple_arm_node(tree),
    decreases tree, 0nat,
{
    match pair(lower_expr(tree.when), lower_expr(tree.value)) {
            Ok((when, value)) => Ok(CaseArm { when, value }),
            Err(error) => Err(error),
        }
}

/// The arms of a simple `CASE`, in order.
pub open spec fn simple_arm_nodes(list: List<SimpleArmTree<ModelLiteral>>) -> Result<List<CaseArm>, ViewError>
    decreases list, 0nat,
{
    match list {
        List::Nil => Ok(List::Nil),
        List::Cons { head, tail } => match both(simple_arm_node(*head), simple_arm_nodes(*tail)) {
            Ok((head, tail)) => Ok(List::Cons { head: Box::new(head), tail: Box::new(tail) }),
            Err(error) => Err(error),
        },
    }
}

#[verifier::spinoff_prover]
fn lower_simple_arms(list: List<SimpleArmTree<ModelLiteral>>) -> (result: Result<List<CaseArm>, ViewError>)
    ensures
        result == simple_arm_nodes(list),
    decreases list, 0nat,
{
    match list {
        List::Nil => Ok(List::Nil),
        List::Cons { head, tail } => match pair(lower_simple_arm(*head), lower_simple_arms(*tail)) {
            Ok((head, tail)) => Ok(List::Cons { head: Box::new(head), tail: Box::new(tail) }),
            Err(error) => Err(error),
        },
    }
}

/// One projected expression.
pub open spec fn projection_item(tree: ProjectionTree<ModelLiteral>) -> Result<ProjectionItem, ViewError>
    decreases tree, 0nat,
{
    match expr_node(tree.expr) {
            Ok(expr) => Ok(ProjectionItem { output_name: tree.alias, expr }),
            Err(error) => Err(error),
        }
}

#[verifier::spinoff_prover]
fn lower_projection_item(tree: ProjectionTree<ModelLiteral>) -> (result: Result<ProjectionItem, ViewError>)
    ensures
        result == projection_item(tree),
    decreases tree, 0nat,
{
    match lower_expr(tree.expr) {
            Ok(expr) => Ok(ProjectionItem { output_name: tree.alias, expr }),
            Err(error) => Err(error),
        }
}

/// The projected expressions, in order.
pub open spec fn projection_items(list: List<ProjectionTree<ModelLiteral>>) -> Result<List<ProjectionItem>, ViewError>
    decreases list, 0nat,
{
    match list {
        List::Nil => Ok(List::Nil),
        List::Cons { head, tail } => match both(projection_item(*head), projection_items(*tail)) {
            Ok((head, tail)) => Ok(List::Cons { head: Box::new(head), tail: Box::new(tail) }),
            Err(error) => Err(error),
        },
    }
}

#[verifier::spinoff_prover]
fn lower_projection(list: List<ProjectionTree<ModelLiteral>>) -> (result: Result<List<ProjectionItem>, ViewError>)
    ensures
        result == projection_items(list),
    decreases list, 0nat,
{
    match list {
        List::Nil => Ok(List::Nil),
        List::Cons { head, tail } => match pair(lower_projection_item(*head), lower_projection(*tail)) {
            Ok((head, tail)) => Ok(List::Cons { head: Box::new(head), tail: Box::new(tail) }),
            Err(error) => Err(error),
        },
    }
}

/// One `ORDER BY` term.
pub open spec fn order_item(tree: OrderTree<ModelLiteral>) -> Result<OrderItem, ViewError>
    decreases tree, 0nat,
{
    match expr_node(tree.expr) {
            Ok(expr) => Ok(OrderItem { expr, direction: Some(tree.direction), nulls: None }),
            Err(error) => Err(error),
        }
}

#[verifier::spinoff_prover]
fn lower_order(tree: OrderTree<ModelLiteral>) -> (result: Result<OrderItem, ViewError>)
    ensures
        result == order_item(tree),
    decreases tree, 0nat,
{
    match lower_expr(tree.expr) {
            Ok(expr) => Ok(OrderItem { expr, direction: Some(tree.direction), nulls: None }),
            Err(error) => Err(error),
        }
}

/// The `ORDER BY` terms, in order.
pub open spec fn order_items(list: List<OrderTree<ModelLiteral>>) -> Result<List<OrderItem>, ViewError>
    decreases list, 0nat,
{
    match list {
        List::Nil => Ok(List::Nil),
        List::Cons { head, tail } => match both(order_item(*head), order_items(*tail)) {
            Ok((head, tail)) => Ok(List::Cons { head: Box::new(head), tail: Box::new(tail) }),
            Err(error) => Err(error),
        },
    }
}

#[verifier::spinoff_prover]
fn lower_orders(list: List<OrderTree<ModelLiteral>>) -> (result: Result<List<OrderItem>, ViewError>)
    ensures
        result == order_items(list),
    decreases list, 0nat,
{
    match list {
        List::Nil => Ok(List::Nil),
        List::Cons { head, tail } => match pair(lower_order(*head), lower_orders(*tail)) {
            Ok((head, tail)) => Ok(List::Cons { head: Box::new(head), tail: Box::new(tail) }),
            Err(error) => Err(error),
        },
    }
}

/// The first condition, and the conditions behind it, connected by `AND` from the left.
pub open spec fn and_into(slot: Option<ExprNode>, node: ExprNode) -> Option<ExprNode> {
    Some(
        match slot {
            Some(previous) => ExprNode::Logical {
                op: LogicalOp::And,
                left: Box::new(previous),
                right: Box::new(node),
            },
            None => node,
        },
    )
}

/// Conditions behind those in `slot`, all connected by `AND`.
pub open spec fn conjunction(
    slot: Option<ExprNode>,
    predicates: List<PredicateTree<ModelLiteral>>,
) -> Result<Option<ExprNode>, ViewError>
    decreases predicates, 0nat,
{
    match predicates {
        List::Nil => Ok(slot),
        List::Cons { head, tail } => match predicate_node(*head) {
            Ok(node) => conjunction(and_into(slot, node), *tail),
            Err(error) => Err(error),
        },
    }
}

#[verifier::spinoff_prover]
fn merge_conditions(
    slot: Option<ExprNode>,
    predicates: List<PredicateTree<ModelLiteral>>,
) -> (result: Result<Option<ExprNode>, ViewError>)
    ensures
        result == conjunction(slot, predicates),
    decreases predicates, 0nat,
{
    match predicates {
        List::Nil => Ok(slot),
        List::Cons { head, tail } => match lower_predicate(*head) {
            Ok(node) => {
                let merged = match slot {
                    Some(previous) => ExprNode::Logical {
                        op: LogicalOp::And,
                        left: Box::new(previous),
                        right: Box::new(node),
                    },
                    None => node,
                };
                merge_conditions(Some(merged), *tail)
            },
            Err(error) => Err(error),
        },
    }
}

/// What stands in `FROM`: the plain source, and the joined ones.
pub struct FromClause {
    pub from: Option<SourceRef>,
    pub joins: List<JoinItem>,
}

/// How a source is joined. A plain source is not.
pub open spec fn join_kind(join: JoinTree<ModelLiteral>) -> Option<JoinKind> {
    match join {
        JoinTree::Table => None,
        JoinTree::Inner(_) => Some(JoinKind::Inner),
        JoinTree::Left(_) => Some(JoinKind::Left),
        JoinTree::Right(_) => Some(JoinKind::Right),
        JoinTree::Full(_) => Some(JoinKind::Full),
        JoinTree::Cross => Some(JoinKind::Cross),
    }
}

fn kind_of_join(join: &JoinTree<ModelLiteral>) -> (kind: Option<JoinKind>)
    ensures
        kind == join_kind(*join),
{
    match join {
        JoinTree::Table => None,
        JoinTree::Inner(_) => Some(JoinKind::Inner),
        JoinTree::Left(_) => Some(JoinKind::Left),
        JoinTree::Right(_) => Some(JoinKind::Right),
        JoinTree::Full(_) => Some(JoinKind::Full),
        JoinTree::Cross => Some(JoinKind::Cross),
    }
}

/// The condition of a join.
pub open spec fn join_condition(join: JoinTree<ModelLiteral>) -> Result<
    Option<ExprNode>,
    ViewError,
>
    decreases join, 0nat,
{
    match join {
        JoinTree::Inner(on) => some_node(predicate_node(on)),
        JoinTree::Left(on) => some_node(predicate_node(on)),
        JoinTree::Right(on) => some_node(predicate_node(on)),
        JoinTree::Full(on) => some_node(predicate_node(on)),
        _ => Ok(None),
    }
}

/// A lowered condition that is there.
pub open spec fn some_node(result: Result<ExprNode, ViewError>) -> Result<
    Option<ExprNode>,
    ViewError,
> {
    match result {
        Ok(node) => Ok(Some(node)),
        Err(error) => Err(error),
    }
}

fn wrap_node(result: Result<ExprNode, ViewError>) -> (wrapped: Result<Option<ExprNode>, ViewError>)
    ensures
        wrapped == some_node(result),
{
    match result {
        Ok(node) => Ok(Some(node)),
        Err(error) => Err(error),
    }
}

#[verifier::spinoff_prover]
fn lower_join_condition(join: JoinTree<ModelLiteral>) -> (result: Result<
    Option<ExprNode>,
    ViewError,
>)
    ensures
        result == join_condition(join),
    decreases join, 0nat,
{
    match join {
        JoinTree::Inner(on) => wrap_node(lower_predicate(on)),
        JoinTree::Left(on) => wrap_node(lower_predicate(on)),
        JoinTree::Right(on) => wrap_node(lower_predicate(on)),
        JoinTree::Full(on) => wrap_node(lower_predicate(on)),
        _ => Ok(None),
    }
}

/// The reference to a table under an alias.
pub open spec fn source_ref(alias: SourceAlias, table: TableRef) -> SourceRef {
    SourceRef { schema: table.schema, name: table.name, alias }
}

fn reference_source(alias: SourceAlias, table: TableRef) -> (source: SourceRef)
    ensures
        source == source_ref(alias, table),
{
    SourceRef { schema: table.schema, name: table.name, alias }
}

/// A source with its join.
pub open spec fn add_source(
    clause: FromClause,
    source: SourceRef,
    kind: Option<JoinKind>,
    on: Option<ExprNode>,
) -> FromClause {
    match kind {
        None => FromClause { from: Some(source), joins: clause.joins },
        Some(kind) => FromClause {
            from: clause.from,
            joins: clause.joins.with(JoinItem { kind, source, on }),
        },
    }
}

fn push_source(
    clause: FromClause,
    source: SourceRef,
    kind: Option<JoinKind>,
    on: Option<ExprNode>,
) -> (with: FromClause)
    ensures
        with == add_source(clause, source, kind, on),
{
    match kind {
        None => FromClause { from: Some(source), joins: clause.joins },
        Some(kind) => FromClause {
            from: clause.from,
            joins: clause.joins.push(JoinItem { kind, source, on }),
        },
    }
}

/// One source behind those in `clause`: a plain source takes the place of `FROM`, any other is
/// joined.
pub open spec fn placed_source(
    clause: FromClause,
    source: SourceRef,
    kind: Option<JoinKind>,
    on: Result<Option<ExprNode>, ViewError>,
) -> Result<FromClause, ViewError> {
    match on {
        Ok(on) => Ok(add_source(clause, source, kind, on)),
        Err(error) => Err(error),
    }
}

fn place_source(
    clause: FromClause,
    source: SourceRef,
    kind: Option<JoinKind>,
    on: Result<Option<ExprNode>, ViewError>,
) -> (result: Result<FromClause, ViewError>)
    ensures
        result == placed_source(clause, source, kind, on),
{
    match on {
        Ok(on) => Ok(push_source(clause, source, kind, on)),
        Err(error) => Err(error),
    }
}

/// Sources behind those in `clause`, in order.
pub open spec fn from_clause(clause: FromClause, sources: List<SourceTree<ModelLiteral>>) -> Result<
    FromClause,
    ViewError,
>
    decreases sources, 0nat,
{
    match sources {
        List::Nil => Ok(clause),
        List::Cons { head, tail } => match placed_source(
            clause,
            source_ref(head.alias, head.table),
            join_kind(head.join),
            join_condition(head.join),
        ) {
            Ok(next) => from_clause(next, *tail),
            Err(error) => Err(error),
        },
    }
}

#[verifier::spinoff_prover]
fn lower_sources(clause: FromClause, sources: List<SourceTree<ModelLiteral>>) -> (result: Result<
    FromClause,
    ViewError,
>)
    ensures
        result == from_clause(clause, sources),
    decreases sources, 0nat,
{
    match sources {
        List::Nil => Ok(clause),
        List::Cons { head, tail } => {
            let item = *head;
            let kind = kind_of_join(&item.join);
            let on = lower_join_condition(item.join);
            match place_source(clause, reference_source(item.alias, item.table), kind, on) {
                Ok(next) => lower_sources(next, *tail),
                Err(error) => Err(error),
            }
        },
    }
}

/// The body that a `SELECT` is.
pub open spec fn select_model(select: SelectTree<ModelLiteral>) -> Result<
    ViewQueryModel,
    ViewError,
>
    decreases select, 0nat,
{
    match both(both(both(both(both(projection_items(select.projection), from_clause(FromClause { from: None, joins: List::Nil }, select.sources)), conjunction(None, select.filters)), expr_nodes(select.groups)), conjunction(None, select.havings)), order_items(select.orders)) {
            Ok((((((projection, clause), filter), group_by), having), order_by)) => Ok(ViewQueryModel {
                distinct: select.distinct,
                projection,
                from: clause.from,
                joins: clause.joins,
                filter,
                group_by,
                having,
                order_by,
                limit: select.limit,
                offset: select.offset,
            }),
            Err(error) => Err(error),
        }
}

/// Lowers a `SELECT` into the body of a view. A runtime parameter anywhere in it is an error.
#[verifier::spinoff_prover]
pub fn lower_select(select: SelectTree<ModelLiteral>) -> (result: Result<
    ViewQueryModel,
    ViewError,
>)
    ensures
        result == select_model(select),
    decreases select, 0nat,
{
    match pair(pair(pair(pair(pair(lower_projection(select.projection), lower_sources(FromClause { from: None, joins: List::Nil }, select.sources)), merge_conditions(None, select.filters)), lower_exprs(select.groups)), merge_conditions(None, select.havings)), lower_orders(select.orders)) {
            Ok((((((projection, clause), filter), group_by), having), order_by)) => Ok(ViewQueryModel {
                distinct: select.distinct,
                projection,
                from: clause.from,
                joins: clause.joins,
                filter,
                group_by,
                having,
                order_by,
                limit: select.limit,
                offset: select.offset,
            }),
            Err(error) => Err(error),
        }
}

} // verus!
