//! What the nodes of a view body keep of their expressions: every operand in its place, and every
//! modifier.
use crate::chain::List;
use crate::label::Label;
use crate::node::{
    CaseArm, ExprNode, InlineLiteral, LogicalOp, OrderItem, ProjectionItem, ScalarFunc,
    ViewQueryModel, WindowOrderTerm,
};
use crate::ops::{
    AggregateFunc, ArithmeticOp, CompareOp, DateField, SourceAlias, UnaryStringFunc, WindowFunc,
};
use crate::sql_type::SqlType;
use crate::tree::{
    CaseArmTree, ExprTree, OrderTree, PredicateTree, ProjectionTree, SelectTree, SimpleArmTree,
    WindowOrderTree,
};
use crate::view;
use crate::view::{ModelLiteral, ViewError};
use vstd::prelude::*;

verus! {

/// Arithmetic keeps its operator and its operands, each on its side.
#[verifier::spinoff_prover]
pub proof fn law_arithmetic_is_kept(
    op: ArithmeticOp,
    left: ExprTree<ModelLiteral>,
    right: ExprTree<ModelLiteral>,
    left_node: ExprNode,
    right_node: ExprNode,
)
    requires
        view::expr_node(left) == Ok::<ExprNode, ViewError>(left_node),
        view::expr_node(right) == Ok::<ExprNode, ViewError>(right_node),
    ensures
        view::expr_node(ExprTree::Binary { op, left: Box::new(left), right: Box::new(right) }) == Ok::<ExprNode, ViewError>(ExprNode::Binary { op, left: Box::new(left_node), right: Box::new(right_node) }),
{
}

/// `NULLIF` keeps its operands, each on its side.
#[verifier::spinoff_prover]
pub proof fn law_nullif_is_kept(
    left_needs_cast: bool,
    right_needs_cast: bool,
    result: Option<SqlType>,
    left: ExprTree<ModelLiteral>,
    right: ExprTree<ModelLiteral>,
    left_node: ExprNode,
    right_node: ExprNode,
)
    requires
        view::expr_node(left) == Ok::<ExprNode, ViewError>(left_node),
        view::expr_node(right) == Ok::<ExprNode, ViewError>(right_node),
    ensures
        view::expr_node(ExprTree::Nullif { left: Box::new(left), left_needs_cast, right: Box::new(right), right_needs_cast, result }) == Ok::<ExprNode, ViewError>(ExprNode::Nullif { left: Box::new(left_node), right: Box::new(right_node), result }),
{
}

/// `COALESCE` keeps its arguments.
#[verifier::spinoff_prover]
pub proof fn law_coalesce_is_kept(
    all_args_need_cast: bool,
    result: Option<SqlType>,
    args: List<ExprTree<ModelLiteral>>,
    args_node: List<ExprNode>,
)
    requires
        view::expr_nodes(args) == Ok::<List<ExprNode>, ViewError>(args_node),
    ensures
        view::expr_node(ExprTree::Coalesce { args, all_args_need_cast, result }) == Ok::<ExprNode, ViewError>(ExprNode::Coalesce { args: args_node, result }),
{
}

/// An aggregate keeps its function, its operand and whether it counts distinct values.
#[verifier::spinoff_prover]
pub proof fn law_aggregate_is_kept(
    func: AggregateFunc,
    distinct: bool,
    cast: Option<SqlType>,
    operand: ExprTree<ModelLiteral>,
    operand_node: ExprNode,
)
    requires
        view::expr_node(operand) == Ok::<ExprNode, ViewError>(operand_node),
    ensures
        view::expr_node(ExprTree::Aggregate { func, distinct, cast, operand: Box::new(operand) }) == Ok::<ExprNode, ViewError>(ExprNode::Aggregate { func, distinct, operand: Box::new(operand_node), result: cast }),
{
}

/// A scalar subquery is lowered as a query.
#[verifier::spinoff_prover]
pub proof fn law_scalar_subquery_is_kept(
    subquery: SelectTree<ModelLiteral>,
    subquery_node: ViewQueryModel,
)
    requires
        view::select_model(subquery) == Ok::<ViewQueryModel, ViewError>(subquery_node),
    ensures
        view::expr_node(ExprTree::ScalarSubquery(Box::new(subquery))) == Ok::<ExprNode, ViewError>(ExprNode::ScalarSubquery(Box::new(subquery_node))),
{
}

/// A window function keeps its arguments, its partitions and its ordering.
#[verifier::spinoff_prover]
pub proof fn law_window_is_kept(
    func: WindowFunc,
    cast: Option<SqlType>,
    args: List<ExprTree<ModelLiteral>>,
    partitions: List<ExprTree<ModelLiteral>>,
    orders: List<WindowOrderTree<ModelLiteral>>,
    args_node: List<ExprNode>,
    partitions_node: List<ExprNode>,
    orders_node: List<WindowOrderTerm>,
)
    requires
        view::expr_nodes(args) == Ok::<List<ExprNode>, ViewError>(args_node),
        view::expr_nodes(partitions) == Ok::<List<ExprNode>, ViewError>(partitions_node),
        view::window_order_terms(orders) == Ok::<List<WindowOrderTerm>, ViewError>(orders_node),
    ensures
        view::expr_node(ExprTree::Window { func, cast, args, partitions, orders }) == Ok::<ExprNode, ViewError>(ExprNode::Window { func, args: args_node, partition_by: partitions_node, order_by: orders_node, result: cast }),
{
}

/// A searched `CASE` keeps its arms and its `ELSE` branch.
#[verifier::spinoff_prover]
pub proof fn law_case_is_kept(
    result: Option<SqlType>,
    arms: List<CaseArmTree<ModelLiteral>>,
    else_: Option<Box<ExprTree<ModelLiteral>>>,
    arms_node: List<CaseArm>,
    else_node: Option<Box<ExprNode>>,
)
    requires
        view::case_arm_nodes(arms) == Ok::<List<CaseArm>, ViewError>(arms_node),
        view::else_node(else_) == Ok::<Option<Box<ExprNode>>, ViewError>(else_node),
    ensures
        view::expr_node(ExprTree::Case { arms, else_, result }) == Ok::<ExprNode, ViewError>(ExprNode::Case { arms: arms_node, else_: else_node, result }),
{
}

/// A simple `CASE` keeps its operand, its arms and its `ELSE` branch.
#[verifier::spinoff_prover]
pub proof fn law_simple_case_is_kept(
    operand_needs_cast: bool,
    comparison: Option<SqlType>,
    result: Option<SqlType>,
    operand: ExprTree<ModelLiteral>,
    arms: List<SimpleArmTree<ModelLiteral>>,
    else_: Option<Box<ExprTree<ModelLiteral>>>,
    operand_node: ExprNode,
    arms_node: List<CaseArm>,
    else_node: Option<Box<ExprNode>>,
)
    requires
        view::expr_node(operand) == Ok::<ExprNode, ViewError>(operand_node),
        view::simple_arm_nodes(arms) == Ok::<List<CaseArm>, ViewError>(arms_node),
        view::else_node(else_) == Ok::<Option<Box<ExprNode>>, ViewError>(else_node),
    ensures
        view::expr_node(ExprTree::SimpleCase { operand: Box::new(operand), operand_needs_cast, comparison, arms, else_, result }) == Ok::<ExprNode, ViewError>(ExprNode::SimpleCase { operand: Box::new(operand_node), arms: arms_node, else_: else_node, result }),
{
}

/// A concatenation keeps its operands in their order.
#[verifier::spinoff_prover]
pub proof fn law_concat_is_kept(
    left: ExprTree<ModelLiteral>,
    right: ExprTree<ModelLiteral>,
    left_node: ExprNode,
    right_node: ExprNode,
)
    requires
        view::expr_node(left) == Ok::<ExprNode, ViewError>(left_node),
        view::expr_node(right) == Ok::<ExprNode, ViewError>(right_node),
    ensures
        view::expr_node(ExprTree::Concat { left: Box::new(left), right: Box::new(right) }) == Ok::<ExprNode, ViewError>(ExprNode::ScalarFn { func: ScalarFunc::Concat, args: List::Cons { head: Box::new(left_node), tail: Box::new(List::Cons { head: Box::new(right_node), tail: Box::new(List::Nil) }) } }),
{
}

/// `SUBSTRING` keeps the string, where the part starts and how long it is, in this order.
#[verifier::spinoff_prover]
pub proof fn law_substring_is_kept(
    string: ExprTree<ModelLiteral>,
    start: ExprTree<ModelLiteral>,
    len: ExprTree<ModelLiteral>,
    string_node: ExprNode,
    start_node: ExprNode,
    len_node: ExprNode,
)
    requires
        view::expr_node(string) == Ok::<ExprNode, ViewError>(string_node),
        view::expr_node(start) == Ok::<ExprNode, ViewError>(start_node),
        view::expr_node(len) == Ok::<ExprNode, ViewError>(len_node),
    ensures
        view::expr_node(ExprTree::Substring { string: Box::new(string), start: Box::new(start), len: Box::new(len) }) == Ok::<ExprNode, ViewError>(ExprNode::ScalarFn { func: ScalarFunc::Substring, args: List::Cons { head: Box::new(string_node), tail: Box::new(List::Cons { head: Box::new(start_node), tail: Box::new(List::Cons { head: Box::new(len_node), tail: Box::new(List::Nil) }) }) } }),
{
}

/// A string function stays the same function of its operand.
#[verifier::spinoff_prover]
pub proof fn law_string_function_is_kept(
    func: UnaryStringFunc,
    operand: ExprTree<ModelLiteral>,
    operand_node: ExprNode,
)
    requires
        view::expr_node(operand) == Ok::<ExprNode, ViewError>(operand_node),
    ensures
        view::expr_node(ExprTree::UnaryFn { func, operand: Box::new(operand) }) == Ok::<ExprNode, ViewError>(ExprNode::ScalarFn { func: match func { UnaryStringFunc::Lower => ScalarFunc::Lower, UnaryStringFunc::Upper => ScalarFunc::Upper, UnaryStringFunc::Length => ScalarFunc::Length, UnaryStringFunc::Trim => ScalarFunc::Trim }, args: List::Cons { head: Box::new(operand_node), tail: Box::new(List::Nil) } }),
{
}

/// `EXTRACT` keeps its field, its operand, its type and its time zone.
#[verifier::spinoff_prover]
pub proof fn law_extract_is_kept(
    field: DateField,
    cast: SqlType,
    timezone: Option<Label>,
    operand_cast: Option<SqlType>,
    operand: ExprTree<ModelLiteral>,
    operand_node: ExprNode,
)
    requires
        view::expr_node(operand) == Ok::<ExprNode, ViewError>(operand_node),
    ensures
        view::expr_node(ExprTree::Extract { field, operand: Box::new(operand), cast, timezone, operand_cast }) == Ok::<ExprNode, ViewError>(ExprNode::Extract { field, operand: Box::new(operand_node), result: Some(cast), timezone }),
{
}

/// `date_trunc` keeps its unit, its operand and its time zone.
#[verifier::spinoff_prover]
pub proof fn law_date_trunc_is_kept(
    unit: DateField,
    timezone: Option<Label>,
    operand_cast: Option<SqlType>,
    operand: ExprTree<ModelLiteral>,
    operand_node: ExprNode,
)
    requires
        view::expr_node(operand) == Ok::<ExprNode, ViewError>(operand_node),
    ensures
        view::expr_node(ExprTree::DateTrunc { unit, operand: Box::new(operand), timezone, operand_cast }) == Ok::<ExprNode, ViewError>(ExprNode::DateTrunc { unit, operand: Box::new(operand_node), timezone }),
{
}

/// Fractional seconds keep their operand and their type.
#[verifier::spinoff_prover]
pub proof fn law_extract_second_is_kept(
    cast: SqlType,
    operand_cast: Option<SqlType>,
    operand: ExprTree<ModelLiteral>,
    operand_node: ExprNode,
)
    requires
        view::expr_node(operand) == Ok::<ExprNode, ViewError>(operand_node),
    ensures
        view::expr_node(ExprTree::ExtractSecond { operand: Box::new(operand), cast, operand_cast }) == Ok::<ExprNode, ViewError>(ExprNode::ExtractSecond { operand: Box::new(operand_node), result: Some(cast) }),
{
}

/// A comparison keeps its operator and its operands, each on its side.
#[verifier::spinoff_prover]
pub proof fn law_comparison_is_kept(
    op: CompareOp,
    left: ExprTree<ModelLiteral>,
    right: ExprTree<ModelLiteral>,
    left_node: ExprNode,
    right_node: ExprNode,
)
    requires
        view::expr_node(left) == Ok::<ExprNode, ViewError>(left_node),
        view::expr_node(right) == Ok::<ExprNode, ViewError>(right_node),
    ensures
        view::predicate_node(PredicateTree::Compare { op, left: Box::new(left), right: Box::new(right) }) == Ok::<ExprNode, ViewError>(ExprNode::Compare { op, left: Box::new(left_node), right: Box::new(right_node) }),
{
}

/// `AND` stays `AND` of its conditions.
#[verifier::spinoff_prover]
pub proof fn law_and_is_kept(
    left: PredicateTree<ModelLiteral>,
    right: PredicateTree<ModelLiteral>,
    left_node: ExprNode,
    right_node: ExprNode,
)
    requires
        view::predicate_node(left) == Ok::<ExprNode, ViewError>(left_node),
        view::predicate_node(right) == Ok::<ExprNode, ViewError>(right_node),
    ensures
        view::predicate_node(PredicateTree::And { left: Box::new(left), right: Box::new(right) }) == Ok::<ExprNode, ViewError>(ExprNode::Logical { op: LogicalOp::And, left: Box::new(left_node), right: Box::new(right_node) }),
{
}

/// `OR` stays `OR` of its conditions.
#[verifier::spinoff_prover]
pub proof fn law_or_is_kept(
    left: PredicateTree<ModelLiteral>,
    right: PredicateTree<ModelLiteral>,
    left_node: ExprNode,
    right_node: ExprNode,
)
    requires
        view::predicate_node(left) == Ok::<ExprNode, ViewError>(left_node),
        view::predicate_node(right) == Ok::<ExprNode, ViewError>(right_node),
    ensures
        view::predicate_node(PredicateTree::Or { left: Box::new(left), right: Box::new(right) }) == Ok::<ExprNode, ViewError>(ExprNode::Logical { op: LogicalOp::Or, left: Box::new(left_node), right: Box::new(right_node) }),
{
}

/// `NOT` stays `NOT` of its condition.
#[verifier::spinoff_prover]
pub proof fn law_not_is_kept(
    inner: PredicateTree<ModelLiteral>,
    inner_node: ExprNode,
)
    requires
        view::predicate_node(inner) == Ok::<ExprNode, ViewError>(inner_node),
    ensures
        view::predicate_node(PredicateTree::Not(Box::new(inner))) == Ok::<ExprNode, ViewError>(ExprNode::Not(Box::new(inner_node))),
{
}

/// A test for `NULL` keeps its operand and whether it is negated.
#[verifier::spinoff_prover]
pub proof fn law_null_test_is_kept(
    negated: bool,
    operand: ExprTree<ModelLiteral>,
    operand_node: ExprNode,
)
    requires
        view::expr_node(operand) == Ok::<ExprNode, ViewError>(operand_node),
    ensures
        view::predicate_node(PredicateTree::IsNull { negated, operand: Box::new(operand) }) == Ok::<ExprNode, ViewError>(ExprNode::IsNull { negated, operand: Box::new(operand_node) }),
{
}

/// A pattern match keeps its operand and its pattern, each in its place, and its modifiers.
#[verifier::spinoff_prover]
pub proof fn law_like_is_kept(
    case_insensitive: bool,
    negated: bool,
    operand: ExprTree<ModelLiteral>,
    pattern: ExprTree<ModelLiteral>,
    operand_node: ExprNode,
    pattern_node: ExprNode,
)
    requires
        view::expr_node(operand) == Ok::<ExprNode, ViewError>(operand_node),
        view::expr_node(pattern) == Ok::<ExprNode, ViewError>(pattern_node),
    ensures
        view::predicate_node(PredicateTree::Like { case_insensitive, negated, operand: Box::new(operand), pattern: Box::new(pattern) }) == Ok::<ExprNode, ViewError>(ExprNode::Like { case_insensitive, negated, operand: Box::new(operand_node), pattern: Box::new(pattern_node) }),
{
}

/// `IN` keeps its operand, its values and whether it is negated.
#[verifier::spinoff_prover]
pub proof fn law_in_is_kept(
    negated: bool,
    values: List<ModelLiteral>,
    operand: ExprTree<ModelLiteral>,
    operand_node: ExprNode,
)
    requires
        view::expr_node(operand) == Ok::<ExprNode, ViewError>(operand_node),
    ensures
        view::predicate_node(PredicateTree::In { negated, operand: Box::new(operand), values }) == Ok::<ExprNode, ViewError>(ExprNode::In { negated, operand: Box::new(operand_node), items: view::value_nodes(values) }),
{
}

/// `BETWEEN` keeps its operand, its lower bound and its upper bound, each in its place.
#[verifier::spinoff_prover]
pub proof fn law_between_is_kept(
    negated: bool,
    operand: ExprTree<ModelLiteral>,
    lo: ExprTree<ModelLiteral>,
    hi: ExprTree<ModelLiteral>,
    operand_node: ExprNode,
    lo_node: ExprNode,
    hi_node: ExprNode,
)
    requires
        view::expr_node(operand) == Ok::<ExprNode, ViewError>(operand_node),
        view::expr_node(lo) == Ok::<ExprNode, ViewError>(lo_node),
        view::expr_node(hi) == Ok::<ExprNode, ViewError>(hi_node),
    ensures
        view::predicate_node(PredicateTree::Between { negated, operand: Box::new(operand), lo: Box::new(lo), hi: Box::new(hi) }) == Ok::<ExprNode, ViewError>(ExprNode::Between { negated, operand: Box::new(operand_node), low: Box::new(lo_node), high: Box::new(hi_node) }),
{
}

/// A boolean expression as a condition is that expression, or its negation.
#[verifier::spinoff_prover]
pub proof fn law_bool_test_is_kept(
    negated: bool,
    operand: ExprTree<ModelLiteral>,
    operand_node: ExprNode,
)
    requires
        view::expr_node(operand) == Ok::<ExprNode, ViewError>(operand_node),
    ensures
        view::predicate_node(PredicateTree::BoolTest { negated, operand: Box::new(operand) }) == Ok::<ExprNode, ViewError>(if negated { ExprNode::Not(Box::new(operand_node)) } else { operand_node }),
{
}

/// Membership in a subquery keeps its operand and its subquery.
#[verifier::spinoff_prover]
pub proof fn law_in_subquery_is_kept(
    negated: bool,
    operand: ExprTree<ModelLiteral>,
    subquery: SelectTree<ModelLiteral>,
    operand_node: ExprNode,
    subquery_node: ViewQueryModel,
)
    requires
        view::expr_node(operand) == Ok::<ExprNode, ViewError>(operand_node),
        view::select_model(subquery) == Ok::<ViewQueryModel, ViewError>(subquery_node),
    ensures
        view::predicate_node(PredicateTree::InSubquery { negated, operand: Box::new(operand), subquery: Box::new(subquery) }) == Ok::<ExprNode, ViewError>(ExprNode::InSubquery { negated, operand: Box::new(operand_node), subquery: Box::new(subquery_node) }),
{
}

/// `EXISTS` keeps its subquery and whether it is negated.
#[verifier::spinoff_prover]
pub proof fn law_exists_is_kept(
    negated: bool,
    subquery: SelectTree<ModelLiteral>,
    subquery_node: ViewQueryModel,
)
    requires
        view::select_model(subquery) == Ok::<ViewQueryModel, ViewError>(subquery_node),
    ensures
        view::predicate_node(PredicateTree::Exists { negated, subquery: Box::new(subquery) }) == Ok::<ExprNode, ViewError>(ExprNode::Exists { negated, subquery: Box::new(subquery_node) }),
{
}

/// An `ELSE` branch is there exactly where it was.
#[verifier::spinoff_prover]
pub proof fn law_else_is_kept(value: ExprTree<ModelLiteral>, node: ExprNode)
    requires
        view::expr_node(value) == Ok::<ExprNode, ViewError>(node),
    ensures
        view::else_node(Some(Box::new(value))) == Ok::<Option<Box<ExprNode>>, ViewError>(
            Some(Box::new(node)),
        ),
        view::else_node(None) == Ok::<Option<Box<ExprNode>>, ViewError>(None),
{
}

/// Expressions are all kept, in their order.
#[verifier::spinoff_prover]
pub proof fn law_expressions_are_kept(list: List<ExprTree<ModelLiteral>>, nodes: List<ExprNode>)
    requires
        view::expr_nodes(list) == Ok::<List<ExprNode>, ViewError>(nodes),
    ensures
        nodes.seq().len() == list.seq().len(),
        forall|i: int|
            0 <= i < list.seq().len() ==> view::expr_node(list.seq()[i]) == Ok::<ExprNode, ViewError>((#[trigger] nodes.seq()[i])),
    decreases list,
{
    if let List::Cons { head, tail } = list {
        let rest = nodes->tail;
        assert(nodes is Cons);
        law_expressions_are_kept(*tail, *rest);
        assert forall|i: int| 0 <= i < list.seq().len() implies view::expr_node(list.seq()[i]) == Ok::<ExprNode, ViewError>((#[trigger] nodes.seq()[i])) by {
            if i > 0 {
                assert(nodes.seq()[i] == rest.seq()[i - 1]);
                assert(list.seq()[i] == tail.seq()[i - 1]);
            }
        }
    }
}

/// The terms of a window are all kept, in their order.
#[verifier::spinoff_prover]
pub proof fn law_window_terms_are_kept(list: List<WindowOrderTree<ModelLiteral>>, nodes: List<WindowOrderTerm>)
    requires
        view::window_order_terms(list) == Ok::<List<WindowOrderTerm>, ViewError>(nodes),
    ensures
        nodes.seq().len() == list.seq().len(),
        forall|i: int|
            0 <= i < list.seq().len() ==> view::window_order_term(list.seq()[i]) == Ok::<WindowOrderTerm, ViewError>((#[trigger] nodes.seq()[i])),
    decreases list,
{
    if let List::Cons { head, tail } = list {
        let rest = nodes->tail;
        assert(nodes is Cons);
        law_window_terms_are_kept(*tail, *rest);
        assert forall|i: int| 0 <= i < list.seq().len() implies view::window_order_term(list.seq()[i]) == Ok::<WindowOrderTerm, ViewError>((#[trigger] nodes.seq()[i])) by {
            if i > 0 {
                assert(nodes.seq()[i] == rest.seq()[i - 1]);
                assert(list.seq()[i] == tail.seq()[i - 1]);
            }
        }
    }
}

/// The arms of a searched `CASE` are all kept, in their order.
#[verifier::spinoff_prover]
pub proof fn law_case_arms_are_kept(list: List<CaseArmTree<ModelLiteral>>, nodes: List<CaseArm>)
    requires
        view::case_arm_nodes(list) == Ok::<List<CaseArm>, ViewError>(nodes),
    ensures
        nodes.seq().len() == list.seq().len(),
        forall|i: int|
            0 <= i < list.seq().len() ==> view::case_arm_node(list.seq()[i]) == Ok::<CaseArm, ViewError>((#[trigger] nodes.seq()[i])),
    decreases list,
{
    if let List::Cons { head, tail } = list {
        let rest = nodes->tail;
        assert(nodes is Cons);
        law_case_arms_are_kept(*tail, *rest);
        assert forall|i: int| 0 <= i < list.seq().len() implies view::case_arm_node(list.seq()[i]) == Ok::<CaseArm, ViewError>((#[trigger] nodes.seq()[i])) by {
            if i > 0 {
                assert(nodes.seq()[i] == rest.seq()[i - 1]);
                assert(list.seq()[i] == tail.seq()[i - 1]);
            }
        }
    }
}

/// The arms of a simple `CASE` are all kept, in their order.
#[verifier::spinoff_prover]
pub proof fn law_simple_arms_are_kept(list: List<SimpleArmTree<ModelLiteral>>, nodes: List<CaseArm>)
    requires
        view::simple_arm_nodes(list) == Ok::<List<CaseArm>, ViewError>(nodes),
    ensures
        nodes.seq().len() == list.seq().len(),
        forall|i: int|
            0 <= i < list.seq().len() ==> view::simple_arm_node(list.seq()[i]) == Ok::<CaseArm, ViewError>((#[trigger] nodes.seq()[i])),
    decreases list,
{
    if let List::Cons { head, tail } = list {
        let rest = nodes->tail;
        assert(nodes is Cons);
        law_simple_arms_are_kept(*tail, *rest);
        assert forall|i: int| 0 <= i < list.seq().len() implies view::simple_arm_node(list.seq()[i]) == Ok::<CaseArm, ViewError>((#[trigger] nodes.seq()[i])) by {
            if i > 0 {
                assert(nodes.seq()[i] == rest.seq()[i - 1]);
                assert(list.seq()[i] == tail.seq()[i - 1]);
            }
        }
    }
}

/// The projected expressions are all kept, in their order.
#[verifier::spinoff_prover]
pub proof fn law_projection_is_kept(list: List<ProjectionTree<ModelLiteral>>, nodes: List<ProjectionItem>)
    requires
        view::projection_items(list) == Ok::<List<ProjectionItem>, ViewError>(nodes),
    ensures
        nodes.seq().len() == list.seq().len(),
        forall|i: int|
            0 <= i < list.seq().len() ==> view::projection_item(list.seq()[i]) == Ok::<ProjectionItem, ViewError>((#[trigger] nodes.seq()[i])),
    decreases list,
{
    if let List::Cons { head, tail } = list {
        let rest = nodes->tail;
        assert(nodes is Cons);
        law_projection_is_kept(*tail, *rest);
        assert forall|i: int| 0 <= i < list.seq().len() implies view::projection_item(list.seq()[i]) == Ok::<ProjectionItem, ViewError>((#[trigger] nodes.seq()[i])) by {
            if i > 0 {
                assert(nodes.seq()[i] == rest.seq()[i - 1]);
                assert(list.seq()[i] == tail.seq()[i - 1]);
            }
        }
    }
}

/// The terms of an ordering are all kept, in their order.
#[verifier::spinoff_prover]
pub proof fn law_ordering_is_kept(list: List<OrderTree<ModelLiteral>>, nodes: List<OrderItem>)
    requires
        view::order_items(list) == Ok::<List<OrderItem>, ViewError>(nodes),
    ensures
        nodes.seq().len() == list.seq().len(),
        forall|i: int|
            0 <= i < list.seq().len() ==> view::order_item(list.seq()[i]) == Ok::<OrderItem, ViewError>((#[trigger] nodes.seq()[i])),
    decreases list,
{
    if let List::Cons { head, tail } = list {
        let rest = nodes->tail;
        assert(nodes is Cons);
        law_ordering_is_kept(*tail, *rest);
        assert forall|i: int| 0 <= i < list.seq().len() implies view::order_item(list.seq()[i]) == Ok::<OrderItem, ViewError>((#[trigger] nodes.seq()[i])) by {
            if i > 0 {
                assert(nodes.seq()[i] == rest.seq()[i - 1]);
                assert(list.seq()[i] == tail.seq()[i - 1]);
            }
        }
    }
}

/// A term of a window keeps its expression and its direction.
#[verifier::spinoff_prover]
pub proof fn law_window_term(
    tree: WindowOrderTree<ModelLiteral>,
    expr: ExprNode,
)
    requires
        view::expr_node(tree.expr) == Ok::<ExprNode, ViewError>(expr),
    ensures
        view::window_order_term(tree) == Ok::<WindowOrderTerm, ViewError>(WindowOrderTerm { expr, direction: tree.direction }),
{
}

/// An arm of a searched `CASE` keeps its condition and its value.
#[verifier::spinoff_prover]
pub proof fn law_case_arm(
    tree: CaseArmTree<ModelLiteral>,
    when: ExprNode,
    value: ExprNode,
)
    requires
        view::predicate_node(tree.when) == Ok::<ExprNode, ViewError>(when),
        view::expr_node(tree.value) == Ok::<ExprNode, ViewError>(value),
    ensures
        view::case_arm_node(tree) == Ok::<CaseArm, ViewError>(CaseArm { when, value }),
{
}

/// An arm of a simple `CASE` keeps what it compares with and its value.
#[verifier::spinoff_prover]
pub proof fn law_simple_arm(
    tree: SimpleArmTree<ModelLiteral>,
    when: ExprNode,
    value: ExprNode,
)
    requires
        view::expr_node(tree.when) == Ok::<ExprNode, ViewError>(when),
        view::expr_node(tree.value) == Ok::<ExprNode, ViewError>(value),
    ensures
        view::simple_arm_node(tree) == Ok::<CaseArm, ViewError>(CaseArm { when, value }),
{
}

/// A projected expression keeps its output name.
#[verifier::spinoff_prover]
pub proof fn law_projected(
    tree: ProjectionTree<ModelLiteral>,
    expr: ExprNode,
)
    requires
        view::expr_node(tree.expr) == Ok::<ExprNode, ViewError>(expr),
    ensures
        view::projection_item(tree) == Ok::<ProjectionItem, ViewError>(ProjectionItem { output_name: tree.alias, expr }),
{
}

/// A term of an ordering keeps its expression and its direction.
#[verifier::spinoff_prover]
pub proof fn law_ordered(
    tree: OrderTree<ModelLiteral>,
    expr: ExprNode,
)
    requires
        view::expr_node(tree.expr) == Ok::<ExprNode, ViewError>(expr),
    ensures
        view::order_item(tree) == Ok::<OrderItem, ViewError>(OrderItem { expr, direction: Some(tree.direction), nulls: None }),
{
}

/// The values of an `IN` are all kept, in their order.
#[verifier::spinoff_prover]
pub proof fn law_values_are_kept(values: List<ModelLiteral>)
    ensures
        view::value_nodes(values).seq().len() == values.seq().len(),
        forall|i: int|
            0 <= i < values.seq().len() ==> (#[trigger] view::value_nodes(values).seq()[i])
                == view::literal_node(values.seq()[i]),
    decreases values,
{
    if let List::Cons { head, tail } = values {
        law_values_are_kept(*tail);
        assert forall|i: int| 0 <= i < values.seq().len() implies (#[trigger] view::value_nodes(
            values,
        ).seq()[i]) == view::literal_node(values.seq()[i]) by {
            if i > 0 {
                assert(view::value_nodes(values).seq()[i] == view::value_nodes(*tail).seq()[i - 1]);
                assert(values.seq()[i] == tail.seq()[i - 1]);
            }
        }
    }
}

/// A literal is inlined as the values that it is encoded as, in their order.
#[verifier::spinoff_prover]
pub proof fn law_literal_is_inlined(literal: ModelLiteral, values: List<InlineLiteral>)
    requires
        literal.outcome == Ok::<List<InlineLiteral>, crate::view::ModelError>(values),
    ensures
        view::expr_node(ExprTree::Literal(literal)) == Ok::<ExprNode, ViewError>(
            ExprNode::Literal(values),
        ),
        view::literal_node(literal) == ExprNode::Literal(values),
        view::expr_node(ExprTree::<ModelLiteral>::Param) == Err::<ExprNode, ViewError>(
            ViewError::RuntimeParameter,
        ),
{
}

/// A column stays the column of its source, and the current time the current time.
#[verifier::spinoff_prover]
pub proof fn law_column_is_kept(alias: SourceAlias, column: Label)
    ensures
        view::expr_node(ExprTree::<ModelLiteral>::Column { alias, column }) == Ok::<
            ExprNode,
            ViewError,
        >(ExprNode::Column { alias, column }),
        view::expr_node(ExprTree::<ModelLiteral>::Now) == Ok::<ExprNode, ViewError>(ExprNode::Now),
{
}

} // verus!
