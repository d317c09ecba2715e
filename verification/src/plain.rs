//! Trees without runtime parameters.
use crate::chain::List;
use crate::tree::{
    CaseArmTree, ExprTree, JoinTree, OrderTree, PredicateTree, ProjectionTree, SelectTree,
    SimpleArmTree, SourceTree, WindowOrderTree,
};
use vstd::prelude::*;

verus! {

/// Whether no runtime parameter occurs in the expression.
pub open spec fn plain_expr<L>(tree: ExprTree<L>) -> bool
    decreases tree, 0nat,
{
    match tree {
        ExprTree::Column { .. } => true,
        ExprTree::Literal(_) => true,
        ExprTree::Now => true,
        ExprTree::Param => false,
        ExprTree::Binary { left, right, .. } => plain_expr(*left) && plain_expr(*right),
        ExprTree::Nullif { left, right, .. } => plain_expr(*left) && plain_expr(*right),
        ExprTree::Concat { left, right } => plain_expr(*left) && plain_expr(*right),
        ExprTree::Coalesce { args, .. } => plain_exprs(args),
        ExprTree::Aggregate { operand, .. } => plain_expr(*operand),
        ExprTree::UnaryFn { operand, .. } => plain_expr(*operand),
        ExprTree::Extract { operand, .. } => plain_expr(*operand),
        ExprTree::DateTrunc { operand, .. } => plain_expr(*operand),
        ExprTree::ExtractSecond { operand, .. } => plain_expr(*operand),
        ExprTree::ScalarSubquery(subquery) => plain_select(*subquery),
        ExprTree::Window { args, partitions, orders, .. } => plain_exprs(args)
            && plain_exprs(partitions) && plain_window_orders(orders),
        ExprTree::Case { arms, else_, .. } => plain_arms(arms) && plain_else(else_),
        ExprTree::SimpleCase { operand, arms, else_, .. } => plain_expr(*operand)
            && plain_simple_arms(arms) && plain_else(else_),
        ExprTree::Substring { string, start, len } => plain_expr(*string) && plain_expr(*start)
            && plain_expr(*len),
    }
}

/// Whether no runtime parameter occurs in the condition.
pub open spec fn plain_predicate<L>(predicate: PredicateTree<L>) -> bool
    decreases predicate, 0nat,
{
    match predicate {
        PredicateTree::Compare { left, right, .. } => plain_expr(*left) && plain_expr(*right),
        PredicateTree::And { left, right } => plain_predicate(*left) && plain_predicate(*right),
        PredicateTree::Or { left, right } => plain_predicate(*left) && plain_predicate(*right),
        PredicateTree::Not(inner) => plain_predicate(*inner),
        PredicateTree::IsNull { operand, .. } => plain_expr(*operand),
        PredicateTree::Like { operand, pattern, .. } => plain_expr(*operand) && plain_expr(
            *pattern,
        ),
        PredicateTree::In { operand, .. } => plain_expr(*operand),
        PredicateTree::Between { operand, lo, hi, .. } => plain_expr(*operand) && plain_expr(*lo)
            && plain_expr(*hi),
        PredicateTree::BoolTest { operand, .. } => plain_expr(*operand),
        PredicateTree::InSubquery { operand, subquery, .. } => plain_expr(*operand)
            && plain_select(*subquery),
        PredicateTree::Exists { subquery, .. } => plain_select(*subquery),
    }
}

/// Whether no runtime parameter occurs in the branch.
pub open spec fn plain_else<L>(else_: Option<Box<ExprTree<L>>>) -> bool
    decreases else_, 0nat,
{
    match else_ {
        Some(value) => plain_expr(*value),
        None => true,
    }
}

/// Whether no runtime parameter occurs in the expressions.
pub open spec fn plain_exprs<L>(list: List<ExprTree<L>>) -> bool
    decreases list, 0nat,
{
    match list {
        List::Nil => true,
        List::Cons { head, tail } => plain_expr(*head) && plain_exprs(*tail),
    }
}

/// Whether no runtime parameter occurs in the conditions.
pub open spec fn plain_predicates<L>(list: List<PredicateTree<L>>) -> bool
    decreases list, 0nat,
{
    match list {
        List::Nil => true,
        List::Cons { head, tail } => plain_predicate(*head) && plain_predicates(*tail),
    }
}

/// Whether no runtime parameter occurs in the ordering of a window.
pub open spec fn plain_window_orders<L>(list: List<WindowOrderTree<L>>) -> bool
    decreases list, 0nat,
{
    match list {
        List::Nil => true,
        List::Cons { head, tail } => plain_expr(head.expr) && plain_window_orders(*tail),
    }
}

/// Whether no runtime parameter occurs in the arms.
pub open spec fn plain_arms<L>(list: List<CaseArmTree<L>>) -> bool
    decreases list, 0nat,
{
    match list {
        List::Nil => true,
        List::Cons { head, tail } => plain_predicate(head.when) && plain_expr(head.value)
            && plain_arms(*tail),
    }
}

/// Whether no runtime parameter occurs in the arms.
pub open spec fn plain_simple_arms<L>(list: List<SimpleArmTree<L>>) -> bool
    decreases list, 0nat,
{
    match list {
        List::Nil => true,
        List::Cons { head, tail } => plain_expr(head.when) && plain_expr(head.value)
            && plain_simple_arms(*tail),
    }
}

/// Whether no runtime parameter occurs in what is projected.
pub open spec fn plain_projection<L>(list: List<ProjectionTree<L>>) -> bool
    decreases list, 0nat,
{
    match list {
        List::Nil => true,
        List::Cons { head, tail } => plain_expr(head.expr) && plain_projection(*tail),
    }
}

/// Whether no runtime parameter occurs in the join condition.
pub open spec fn plain_join<L>(join: JoinTree<L>) -> bool
    decreases join, 0nat,
{
    match join {
        JoinTree::Table => true,
        JoinTree::Cross => true,
        JoinTree::Inner(on) => plain_predicate(on),
        JoinTree::Left(on) => plain_predicate(on),
        JoinTree::Right(on) => plain_predicate(on),
        JoinTree::Full(on) => plain_predicate(on),
    }
}

/// Whether no runtime parameter occurs in the sources.
pub open spec fn plain_sources<L>(list: List<SourceTree<L>>) -> bool
    decreases list, 0nat,
{
    match list {
        List::Nil => true,
        List::Cons { head, tail } => plain_join(head.join) && plain_sources(*tail),
    }
}

/// Whether no runtime parameter occurs in the ordering.
pub open spec fn plain_orders<L>(list: List<OrderTree<L>>) -> bool
    decreases list, 0nat,
{
    match list {
        List::Nil => true,
        List::Cons { head, tail } => plain_expr(head.expr) && plain_orders(*tail),
    }
}

/// Whether no runtime parameter occurs anywhere in the query.
pub open spec fn plain_select<L>(select: SelectTree<L>) -> bool
    decreases select, 0nat,
{
    plain_projection(select.projection) && plain_sources(select.sources) && plain_predicates(
        select.filters,
    ) && plain_exprs(select.groups) && plain_predicates(select.havings) && plain_orders(
        select.orders,
    )
}

} // verus!
