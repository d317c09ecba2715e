//! What holds of every view body.
use crate::chain::List;
use crate::node::ExprNode;
use crate::plain;
use crate::tree::{
    CaseArmTree, ExprTree, JoinTree, OrderTree, PredicateTree, ProjectionTree, SelectTree,
    SimpleArmTree, SourceTree, WindowOrderTree,
};
use crate::view;
use crate::view::{FromClause, ModelLiteral, ViewError};
use vstd::prelude::*;

verus! {

/// Whether lowering was not stopped by a runtime parameter, which is all that can stop it.
spec fn lowered<T>(result: Result<T, ViewError>) -> bool {
    result != Err::<T, ViewError>(ViewError::RuntimeParameter)
}

#[verifier::opaque]
spec fn expr_lowers(part: ExprTree<ModelLiteral>) -> bool {
    lowered(view::expr_node(part))
}

#[verifier::opaque]
spec fn predicate_lowers(part: PredicateTree<ModelLiteral>) -> bool {
    lowered(view::predicate_node(part))
}

#[verifier::opaque]
spec fn else_lowers(part: Option<Box<ExprTree<ModelLiteral>>>) -> bool {
    lowered(view::else_node(part))
}

#[verifier::opaque]
spec fn exprs_lowers(part: List<ExprTree<ModelLiteral>>) -> bool {
    lowered(view::expr_nodes(part))
}

#[verifier::opaque]
spec fn window_orders_lowers(part: List<WindowOrderTree<ModelLiteral>>) -> bool {
    lowered(view::window_order_terms(part))
}

#[verifier::opaque]
spec fn arms_lowers(part: List<CaseArmTree<ModelLiteral>>) -> bool {
    lowered(view::case_arm_nodes(part))
}

#[verifier::opaque]
spec fn simple_arms_lowers(part: List<SimpleArmTree<ModelLiteral>>) -> bool {
    lowered(view::simple_arm_nodes(part))
}

#[verifier::opaque]
spec fn projection_lowers(part: List<ProjectionTree<ModelLiteral>>) -> bool {
    lowered(view::projection_items(part))
}

#[verifier::opaque]
spec fn orders_lowers(part: List<OrderTree<ModelLiteral>>) -> bool {
    lowered(view::order_items(part))
}

#[verifier::opaque]
spec fn join_lowers(part: JoinTree<ModelLiteral>) -> bool {
    lowered(view::join_condition(part))
}

#[verifier::opaque]
spec fn select_lowers(part: SelectTree<ModelLiteral>) -> bool {
    lowered(view::select_model(part))
}

#[verifier::opaque]
spec fn conjunction_lowers(slot: Option<ExprNode>, part: List<PredicateTree<ModelLiteral>>) -> bool {
    lowered(view::conjunction(slot, part))
}

#[verifier::opaque]
spec fn sources_lower(clause: FromClause, part: List<SourceTree<ModelLiteral>>) -> bool {
    lowered(view::from_clause(clause, part))
}

#[verifier::spinoff_prover]
proof fn lemma_leaf(tree: ExprTree<ModelLiteral>)
    requires
        tree is Column || tree is Literal || tree is Now,
    ensures
        expr_lowers(tree),
{
    reveal(expr_lowers);
}

#[verifier::spinoff_prover]
proof fn lemma_expr_binary(tree: ExprTree<ModelLiteral>)
    requires
        tree matches ExprTree::Binary { left, right, .. } ==> expr_lowers(*left) && expr_lowers(*right),
        tree is Binary,
    ensures
        expr_lowers(tree),
{
    reveal(expr_lowers);
}

#[verifier::spinoff_prover]
proof fn lemma_expr_nullif(tree: ExprTree<ModelLiteral>)
    requires
        tree matches ExprTree::Nullif { left, right, .. } ==> expr_lowers(*left) && expr_lowers(*right),
        tree is Nullif,
    ensures
        expr_lowers(tree),
{
    reveal(expr_lowers);
}

#[verifier::spinoff_prover]
proof fn lemma_expr_concat(tree: ExprTree<ModelLiteral>)
    requires
        tree matches ExprTree::Concat { left, right } ==> expr_lowers(*left) && expr_lowers(*right),
        tree is Concat,
    ensures
        expr_lowers(tree),
{
    reveal(expr_lowers);
}

#[verifier::spinoff_prover]
proof fn lemma_expr_coalesce(tree: ExprTree<ModelLiteral>)
    requires
        tree matches ExprTree::Coalesce { args, .. } ==> exprs_lowers(args),
        tree is Coalesce,
    ensures
        expr_lowers(tree),
{
    reveal(expr_lowers);
    reveal(exprs_lowers);
}

#[verifier::spinoff_prover]
proof fn lemma_expr_aggregate(tree: ExprTree<ModelLiteral>)
    requires
        tree matches ExprTree::Aggregate { operand, .. } ==> expr_lowers(*operand),
        tree is Aggregate,
    ensures
        expr_lowers(tree),
{
    reveal(expr_lowers);
}

#[verifier::spinoff_prover]
proof fn lemma_expr_unary_fn(tree: ExprTree<ModelLiteral>)
    requires
        tree matches ExprTree::UnaryFn { operand, .. } ==> expr_lowers(*operand),
        tree is UnaryFn,
    ensures
        expr_lowers(tree),
{
    reveal(expr_lowers);
}

#[verifier::spinoff_prover]
proof fn lemma_expr_extract(tree: ExprTree<ModelLiteral>)
    requires
        tree matches ExprTree::Extract { operand, .. } ==> expr_lowers(*operand),
        tree is Extract,
    ensures
        expr_lowers(tree),
{
    reveal(expr_lowers);
}

#[verifier::spinoff_prover]
proof fn lemma_expr_date_trunc(tree: ExprTree<ModelLiteral>)
    requires
        tree matches ExprTree::DateTrunc { operand, .. } ==> expr_lowers(*operand),
        tree is DateTrunc,
    ensures
        expr_lowers(tree),
{
    reveal(expr_lowers);
}

#[verifier::spinoff_prover]
proof fn lemma_expr_extract_second(tree: ExprTree<ModelLiteral>)
    requires
        tree matches ExprTree::ExtractSecond { operand, .. } ==> expr_lowers(*operand),
        tree is ExtractSecond,
    ensures
        expr_lowers(tree),
{
    reveal(expr_lowers);
}

#[verifier::spinoff_prover]
proof fn lemma_expr_scalar_subquery(tree: ExprTree<ModelLiteral>)
    requires
        tree matches ExprTree::ScalarSubquery(subquery) ==> select_lowers(*subquery),
        tree is ScalarSubquery,
    ensures
        expr_lowers(tree),
{
    reveal(expr_lowers);
    reveal(select_lowers);
}

#[verifier::spinoff_prover]
proof fn lemma_expr_window(tree: ExprTree<ModelLiteral>)
    requires
        tree matches ExprTree::Window { args, partitions, orders, .. } ==> exprs_lowers(args) && exprs_lowers(partitions) && window_orders_lowers(orders),
        tree is Window,
    ensures
        expr_lowers(tree),
{
    reveal(expr_lowers);
    reveal(exprs_lowers);
    reveal(window_orders_lowers);
}

#[verifier::spinoff_prover]
proof fn lemma_expr_case(tree: ExprTree<ModelLiteral>)
    requires
        tree matches ExprTree::Case { arms, else_, .. } ==> arms_lowers(arms) && else_lowers(else_),
        tree is Case,
    ensures
        expr_lowers(tree),
{
    reveal(expr_lowers);
    reveal(arms_lowers);
    reveal(else_lowers);
}

#[verifier::spinoff_prover]
proof fn lemma_expr_simple_case(tree: ExprTree<ModelLiteral>)
    requires
        tree matches ExprTree::SimpleCase { operand, arms, else_, .. } ==> expr_lowers(*operand) && simple_arms_lowers(arms) && else_lowers(else_),
        tree is SimpleCase,
    ensures
        expr_lowers(tree),
{
    reveal(expr_lowers);
    reveal(simple_arms_lowers);
    reveal(else_lowers);
}

#[verifier::spinoff_prover]
proof fn lemma_expr_substring(tree: ExprTree<ModelLiteral>)
    requires
        tree matches ExprTree::Substring { string, start, len } ==> expr_lowers(*string) && expr_lowers(*start) && expr_lowers(*len),
        tree is Substring,
    ensures
        expr_lowers(tree),
{
    reveal(expr_lowers);
}

#[verifier::spinoff_prover]
proof fn lemma_expr(tree: ExprTree<ModelLiteral>)
    requires
        plain::plain_expr(tree),
    ensures
        expr_lowers(tree),
    decreases tree, 0nat,
{
    match tree {
        ExprTree::Column { .. } => {
            lemma_leaf(tree);
        },
        ExprTree::Literal(_) => {
            lemma_leaf(tree);
        },
        ExprTree::Now => {
            lemma_leaf(tree);
        },
        ExprTree::Binary { left, right, .. } => {
            lemma_expr(*left);
            lemma_expr(*right);
            lemma_expr_binary(tree);
        },
        ExprTree::Nullif { left, right, .. } => {
            lemma_expr(*left);
            lemma_expr(*right);
            lemma_expr_nullif(tree);
        },
        ExprTree::Concat { left, right } => {
            lemma_expr(*left);
            lemma_expr(*right);
            lemma_expr_concat(tree);
        },
        ExprTree::Coalesce { args, .. } => {
            lemma_exprs(args);
            lemma_expr_coalesce(tree);
        },
        ExprTree::Aggregate { operand, .. } => {
            lemma_expr(*operand);
            lemma_expr_aggregate(tree);
        },
        ExprTree::UnaryFn { operand, .. } => {
            lemma_expr(*operand);
            lemma_expr_unary_fn(tree);
        },
        ExprTree::Extract { operand, .. } => {
            lemma_expr(*operand);
            lemma_expr_extract(tree);
        },
        ExprTree::DateTrunc { operand, .. } => {
            lemma_expr(*operand);
            lemma_expr_date_trunc(tree);
        },
        ExprTree::ExtractSecond { operand, .. } => {
            lemma_expr(*operand);
            lemma_expr_extract_second(tree);
        },
        ExprTree::ScalarSubquery(subquery) => {
            lemma_select(*subquery);
            lemma_expr_scalar_subquery(tree);
        },
        ExprTree::Window { args, partitions, orders, .. } => {
            lemma_exprs(args);
            lemma_exprs(partitions);
            lemma_window_orders(orders);
            lemma_expr_window(tree);
        },
        ExprTree::Case { arms, else_, .. } => {
            lemma_arms(arms);
            lemma_else(else_);
            lemma_expr_case(tree);
        },
        ExprTree::SimpleCase { operand, arms, else_, .. } => {
            lemma_expr(*operand);
            lemma_simple_arms(arms);
            lemma_else(else_);
            lemma_expr_simple_case(tree);
        },
        ExprTree::Substring { string, start, len } => {
            lemma_expr(*string);
            lemma_expr(*start);
            lemma_expr(*len);
            lemma_expr_substring(tree);
        },
        ExprTree::Param => {},
    }
}

#[verifier::spinoff_prover]
proof fn lemma_predicate_compare(tree: PredicateTree<ModelLiteral>)
    requires
        tree matches PredicateTree::Compare { left, right, .. } ==> expr_lowers(*left) && expr_lowers(*right),
        tree is Compare,
    ensures
        predicate_lowers(tree),
{
    reveal(predicate_lowers);
    reveal(expr_lowers);
}

#[verifier::spinoff_prover]
proof fn lemma_predicate_and(tree: PredicateTree<ModelLiteral>)
    requires
        tree matches PredicateTree::And { left, right } ==> predicate_lowers(*left) && predicate_lowers(*right),
        tree is And,
    ensures
        predicate_lowers(tree),
{
    reveal(predicate_lowers);
}

#[verifier::spinoff_prover]
proof fn lemma_predicate_or(tree: PredicateTree<ModelLiteral>)
    requires
        tree matches PredicateTree::Or { left, right } ==> predicate_lowers(*left) && predicate_lowers(*right),
        tree is Or,
    ensures
        predicate_lowers(tree),
{
    reveal(predicate_lowers);
}

#[verifier::spinoff_prover]
proof fn lemma_predicate_not(tree: PredicateTree<ModelLiteral>)
    requires
        tree matches PredicateTree::Not(inner) ==> predicate_lowers(*inner),
        tree is Not,
    ensures
        predicate_lowers(tree),
{
    reveal(predicate_lowers);
}

#[verifier::spinoff_prover]
proof fn lemma_predicate_is_null(tree: PredicateTree<ModelLiteral>)
    requires
        tree matches PredicateTree::IsNull { operand, .. } ==> expr_lowers(*operand),
        tree is IsNull,
    ensures
        predicate_lowers(tree),
{
    reveal(predicate_lowers);
    reveal(expr_lowers);
}

#[verifier::spinoff_prover]
proof fn lemma_predicate_like(tree: PredicateTree<ModelLiteral>)
    requires
        tree matches PredicateTree::Like { operand, pattern, .. } ==> expr_lowers(*operand) && expr_lowers(*pattern),
        tree is Like,
    ensures
        predicate_lowers(tree),
{
    reveal(predicate_lowers);
    reveal(expr_lowers);
}

#[verifier::spinoff_prover]
proof fn lemma_predicate_in(tree: PredicateTree<ModelLiteral>)
    requires
        tree matches PredicateTree::In { operand, .. } ==> expr_lowers(*operand),
        tree is In,
    ensures
        predicate_lowers(tree),
{
    reveal(predicate_lowers);
    reveal(expr_lowers);
}

#[verifier::spinoff_prover]
proof fn lemma_predicate_between(tree: PredicateTree<ModelLiteral>)
    requires
        tree matches PredicateTree::Between { operand, lo, hi, .. } ==> expr_lowers(*operand) && expr_lowers(*lo) && expr_lowers(*hi),
        tree is Between,
    ensures
        predicate_lowers(tree),
{
    reveal(predicate_lowers);
    reveal(expr_lowers);
}

#[verifier::spinoff_prover]
proof fn lemma_predicate_bool_test(tree: PredicateTree<ModelLiteral>)
    requires
        tree matches PredicateTree::BoolTest { operand, .. } ==> expr_lowers(*operand),
        tree is BoolTest,
    ensures
        predicate_lowers(tree),
{
    reveal(predicate_lowers);
    reveal(expr_lowers);
}

#[verifier::spinoff_prover]
proof fn lemma_predicate_in_subquery(tree: PredicateTree<ModelLiteral>)
    requires
        tree matches PredicateTree::InSubquery { operand, subquery, .. } ==> expr_lowers(*operand) && select_lowers(*subquery),
        tree is InSubquery,
    ensures
        predicate_lowers(tree),
{
    reveal(predicate_lowers);
    reveal(expr_lowers);
    reveal(select_lowers);
}

#[verifier::spinoff_prover]
proof fn lemma_predicate_exists(tree: PredicateTree<ModelLiteral>)
    requires
        tree matches PredicateTree::Exists { subquery, .. } ==> select_lowers(*subquery),
        tree is Exists,
    ensures
        predicate_lowers(tree),
{
    reveal(predicate_lowers);
    reveal(select_lowers);
}

#[verifier::spinoff_prover]
proof fn lemma_predicate(tree: PredicateTree<ModelLiteral>)
    requires
        plain::plain_predicate(tree),
    ensures
        predicate_lowers(tree),
    decreases tree, 0nat,
{
    match tree {
        PredicateTree::Compare { left, right, .. } => {
            lemma_expr(*left);
            lemma_expr(*right);
            lemma_predicate_compare(tree);
        },
        PredicateTree::And { left, right } => {
            lemma_predicate(*left);
            lemma_predicate(*right);
            lemma_predicate_and(tree);
        },
        PredicateTree::Or { left, right } => {
            lemma_predicate(*left);
            lemma_predicate(*right);
            lemma_predicate_or(tree);
        },
        PredicateTree::Not(inner) => {
            lemma_predicate(*inner);
            lemma_predicate_not(tree);
        },
        PredicateTree::IsNull { operand, .. } => {
            lemma_expr(*operand);
            lemma_predicate_is_null(tree);
        },
        PredicateTree::Like { operand, pattern, .. } => {
            lemma_expr(*operand);
            lemma_expr(*pattern);
            lemma_predicate_like(tree);
        },
        PredicateTree::In { operand, .. } => {
            lemma_expr(*operand);
            lemma_predicate_in(tree);
        },
        PredicateTree::Between { operand, lo, hi, .. } => {
            lemma_expr(*operand);
            lemma_expr(*lo);
            lemma_expr(*hi);
            lemma_predicate_between(tree);
        },
        PredicateTree::BoolTest { operand, .. } => {
            lemma_expr(*operand);
            lemma_predicate_bool_test(tree);
        },
        PredicateTree::InSubquery { operand, subquery, .. } => {
            lemma_expr(*operand);
            lemma_select(*subquery);
            lemma_predicate_in_subquery(tree);
        },
        PredicateTree::Exists { subquery, .. } => {
            lemma_select(*subquery);
            lemma_predicate_exists(tree);
        },
    }
}

#[verifier::spinoff_prover]
proof fn lemma_else_of(else_: Option<Box<ExprTree<ModelLiteral>>>)
    requires
        else_ matches Some(value) ==> expr_lowers(*value),
    ensures
        else_lowers(else_),
{
    reveal(expr_lowers);
    reveal(else_lowers);
}

proof fn lemma_else(else_: Option<Box<ExprTree<ModelLiteral>>>)
    requires
        plain::plain_else(else_),
    ensures
        else_lowers(else_),
    decreases else_, 0nat,
{
    if let Some(value) = else_ {
        lemma_expr(*value);
    }
    lemma_else_of(else_);
}

#[verifier::spinoff_prover]
proof fn lemma_exprs_of(list: List<ExprTree<ModelLiteral>>)
    requires
        list matches List::Cons { head, tail } ==> expr_lowers(*head) && exprs_lowers(*tail),
    ensures
        exprs_lowers(list),
{
    reveal(exprs_lowers);
    reveal(expr_lowers);
}

proof fn lemma_exprs(list: List<ExprTree<ModelLiteral>>)
    requires
        plain::plain_exprs(list),
    ensures
        exprs_lowers(list),
    decreases list, 0nat,
{
    if let List::Cons { head, tail } = list {
        lemma_expr(*head);
        lemma_exprs(*tail);
    }
    lemma_exprs_of(list);
}

#[verifier::opaque]
spec fn window_orders_item_lowers(part: WindowOrderTree<ModelLiteral>) -> bool {
    lowered(view::window_order_term(part))
}

#[verifier::spinoff_prover]
proof fn lemma_window_orders_item(head: WindowOrderTree<ModelLiteral>)
    requires
        expr_lowers(head.expr),
    ensures
        window_orders_item_lowers(head),
{
    reveal(expr_lowers);
    reveal(window_orders_item_lowers);
}

#[verifier::spinoff_prover]
proof fn lemma_window_orders_of(list: List<WindowOrderTree<ModelLiteral>>)
    requires
        list matches List::Cons { head, tail } ==> window_orders_item_lowers(*head) && window_orders_lowers(*tail),
    ensures
        window_orders_lowers(list),
{
    reveal(window_orders_item_lowers);
    reveal(window_orders_lowers);
}

proof fn lemma_window_orders(list: List<WindowOrderTree<ModelLiteral>>)
    requires
        plain::plain_window_orders(list),
    ensures
        window_orders_lowers(list),
    decreases list, 0nat,
{
    if let List::Cons { head, tail } = list {
        lemma_expr(head.expr);
        lemma_window_orders_item(*head);
        lemma_window_orders(*tail);
    }
    lemma_window_orders_of(list);
}

#[verifier::opaque]
spec fn arms_item_lowers(part: CaseArmTree<ModelLiteral>) -> bool {
    lowered(view::case_arm_node(part))
}

#[verifier::spinoff_prover]
proof fn lemma_arms_item(head: CaseArmTree<ModelLiteral>)
    requires
        predicate_lowers(head.when),
        expr_lowers(head.value),
    ensures
        arms_item_lowers(head),
{
    reveal(predicate_lowers);
    reveal(expr_lowers);
    reveal(arms_item_lowers);
}

#[verifier::spinoff_prover]
proof fn lemma_arms_of(list: List<CaseArmTree<ModelLiteral>>)
    requires
        list matches List::Cons { head, tail } ==> arms_item_lowers(*head) && arms_lowers(*tail),
    ensures
        arms_lowers(list),
{
    reveal(arms_item_lowers);
    reveal(arms_lowers);
}

proof fn lemma_arms(list: List<CaseArmTree<ModelLiteral>>)
    requires
        plain::plain_arms(list),
    ensures
        arms_lowers(list),
    decreases list, 0nat,
{
    if let List::Cons { head, tail } = list {
        lemma_predicate(head.when);
        lemma_expr(head.value);
        lemma_arms_item(*head);
        lemma_arms(*tail);
    }
    lemma_arms_of(list);
}

#[verifier::opaque]
spec fn simple_arms_item_lowers(part: SimpleArmTree<ModelLiteral>) -> bool {
    lowered(view::simple_arm_node(part))
}

#[verifier::spinoff_prover]
proof fn lemma_simple_arms_item(head: SimpleArmTree<ModelLiteral>)
    requires
        expr_lowers(head.when),
        expr_lowers(head.value),
    ensures
        simple_arms_item_lowers(head),
{
    reveal(expr_lowers);
    reveal(simple_arms_item_lowers);
}

#[verifier::spinoff_prover]
proof fn lemma_simple_arms_of(list: List<SimpleArmTree<ModelLiteral>>)
    requires
        list matches List::Cons { head, tail } ==> simple_arms_item_lowers(*head) && simple_arms_lowers(*tail),
    ensures
        simple_arms_lowers(list),
{
    reveal(simple_arms_item_lowers);
    reveal(simple_arms_lowers);
}

proof fn lemma_simple_arms(list: List<SimpleArmTree<ModelLiteral>>)
    requires
        plain::plain_simple_arms(list),
    ensures
        simple_arms_lowers(list),
    decreases list, 0nat,
{
    if let List::Cons { head, tail } = list {
        lemma_expr(head.when);
        lemma_expr(head.value);
        lemma_simple_arms_item(*head);
        lemma_simple_arms(*tail);
    }
    lemma_simple_arms_of(list);
}

#[verifier::opaque]
spec fn projection_item_lowers(part: ProjectionTree<ModelLiteral>) -> bool {
    lowered(view::projection_item(part))
}

#[verifier::spinoff_prover]
proof fn lemma_projection_item(head: ProjectionTree<ModelLiteral>)
    requires
        expr_lowers(head.expr),
    ensures
        projection_item_lowers(head),
{
    reveal(expr_lowers);
    reveal(projection_item_lowers);
}

#[verifier::spinoff_prover]
proof fn lemma_projection_of(list: List<ProjectionTree<ModelLiteral>>)
    requires
        list matches List::Cons { head, tail } ==> projection_item_lowers(*head) && projection_lowers(*tail),
    ensures
        projection_lowers(list),
{
    reveal(projection_item_lowers);
    reveal(projection_lowers);
}

proof fn lemma_projection(list: List<ProjectionTree<ModelLiteral>>)
    requires
        plain::plain_projection(list),
    ensures
        projection_lowers(list),
    decreases list, 0nat,
{
    if let List::Cons { head, tail } = list {
        lemma_expr(head.expr);
        lemma_projection_item(*head);
        lemma_projection(*tail);
    }
    lemma_projection_of(list);
}

#[verifier::opaque]
spec fn orders_item_lowers(part: OrderTree<ModelLiteral>) -> bool {
    lowered(view::order_item(part))
}

#[verifier::spinoff_prover]
proof fn lemma_orders_item(head: OrderTree<ModelLiteral>)
    requires
        expr_lowers(head.expr),
    ensures
        orders_item_lowers(head),
{
    reveal(expr_lowers);
    reveal(orders_item_lowers);
}

#[verifier::spinoff_prover]
proof fn lemma_orders_of(list: List<OrderTree<ModelLiteral>>)
    requires
        list matches List::Cons { head, tail } ==> orders_item_lowers(*head) && orders_lowers(*tail),
    ensures
        orders_lowers(list),
{
    reveal(orders_item_lowers);
    reveal(orders_lowers);
}

proof fn lemma_orders(list: List<OrderTree<ModelLiteral>>)
    requires
        plain::plain_orders(list),
    ensures
        orders_lowers(list),
    decreases list, 0nat,
{
    if let List::Cons { head, tail } = list {
        lemma_expr(head.expr);
        lemma_orders_item(*head);
        lemma_orders(*tail);
    }
    lemma_orders_of(list);
}

#[verifier::spinoff_prover]
proof fn lemma_conjunction_step(
    slot: Option<ExprNode>,
    head: PredicateTree<ModelLiteral>,
    tail: List<PredicateTree<ModelLiteral>>,
)
    requires
        predicate_lowers(head),
        forall|next: Option<ExprNode>| #[trigger] conjunction_lowers(next, tail),
    ensures
        conjunction_lowers(
            slot,
            List::Cons { head: Box::new(head), tail: Box::new(tail) },
        ),
{
    reveal(predicate_lowers);
    if let Ok(node) = view::predicate_node(head) {
        assert(conjunction_lowers(view::and_into(slot, node), tail));
    }
    reveal(conjunction_lowers);
}

proof fn lemma_conjunction(slot: Option<ExprNode>, list: List<PredicateTree<ModelLiteral>>)
    requires
        plain::plain_predicates(list),
    ensures
        conjunction_lowers(slot, list),
    decreases list, 0nat,
{
    match list {
        List::Nil => {
            reveal(conjunction_lowers);
        },
        List::Cons { head, tail } => {
            lemma_predicate(*head);
            assert forall|next: Option<ExprNode>| #[trigger] conjunction_lowers(next, *tail) by {
                lemma_conjunction(next, *tail);
            }
            lemma_conjunction_step(slot, *head, *tail);
        },
    }
}

#[verifier::spinoff_prover]
proof fn lemma_join_of(join: JoinTree<ModelLiteral>)
    requires
        join matches JoinTree::Inner(on) ==> predicate_lowers(on),
        join matches JoinTree::Left(on) ==> predicate_lowers(on),
        join matches JoinTree::Right(on) ==> predicate_lowers(on),
        join matches JoinTree::Full(on) ==> predicate_lowers(on),
    ensures
        join_lowers(join),
{
    reveal(predicate_lowers);
    reveal(join_lowers);
}

proof fn lemma_join(join: JoinTree<ModelLiteral>)
    requires
        plain::plain_join(join),
    ensures
        join_lowers(join),
    decreases join, 0nat,
{
    match join {
        JoinTree::Table => {},
        JoinTree::Cross => {},
        JoinTree::Inner(on) => {
            lemma_predicate(on);
        },
        JoinTree::Left(on) => {
            lemma_predicate(on);
        },
        JoinTree::Right(on) => {
            lemma_predicate(on);
        },
        JoinTree::Full(on) => {
            lemma_predicate(on);
        },
    }
    lemma_join_of(join);
}

#[verifier::spinoff_prover]
proof fn lemma_sources_step(
    clause: FromClause,
    head: SourceTree<ModelLiteral>,
    tail: List<SourceTree<ModelLiteral>>,
)
    requires
        join_lowers(head.join),
        forall|next: FromClause| #[trigger] sources_lower(next, tail),
    ensures
        sources_lower(clause, List::Cons { head: Box::new(head), tail: Box::new(tail) }),
{
    reveal(join_lowers);
    if let Ok(next) = view::placed_source(
        clause,
        view::source_ref(head.alias, head.table),
        view::join_kind(head.join),
        view::join_condition(head.join),
    ) {
        assert(sources_lower(next, tail));
    }
    reveal(sources_lower);
}

proof fn lemma_sources(clause: FromClause, list: List<SourceTree<ModelLiteral>>)
    requires
        plain::plain_sources(list),
    ensures
        sources_lower(clause, list),
    decreases list, 0nat,
{
    match list {
        List::Nil => {
            reveal(sources_lower);
        },
        List::Cons { head, tail } => {
            lemma_join(head.join);
            assert forall|next: FromClause| #[trigger] sources_lower(next, *tail) by {
                lemma_sources(next, *tail);
            }
            lemma_sources_step(clause, *head, *tail);
        },
    }
}

#[verifier::spinoff_prover]
proof fn lemma_select_of(select: SelectTree<ModelLiteral>)
    requires
        projection_lowers(select.projection),
        sources_lower(FromClause { from: None, joins: List::Nil }, select.sources),
        conjunction_lowers(None, select.filters),
        exprs_lowers(select.groups),
        conjunction_lowers(None, select.havings),
        orders_lowers(select.orders),
    ensures
        select_lowers(select),
{
    reveal(projection_lowers);
    reveal(sources_lower);
    reveal(conjunction_lowers);
    reveal(exprs_lowers);
    reveal(orders_lowers);
    reveal(select_lowers);
}

proof fn lemma_select(select: SelectTree<ModelLiteral>)
    requires
        plain::plain_select(select),
    ensures
        select_lowers(select),
    decreases select, 0nat,
{
    lemma_projection(select.projection);
    lemma_sources(FromClause { from: None, joins: List::Nil }, select.sources);
    lemma_conjunction(None, select.filters);
    lemma_exprs(select.groups);
    lemma_conjunction(None, select.havings);
    lemma_orders(select.orders);
    lemma_select_of(select);
}

/// A query without runtime parameters can always be a view body: lowering it does not fail.
pub proof fn law_plain_body_lowers(select: SelectTree<ModelLiteral>)
    requires
        plain::plain_select(select),
    ensures
        view::select_model(select) is Ok,
{
    lemma_select(select);
    reveal(select_lowers);
}

} // verus!
