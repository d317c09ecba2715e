//! What a view body keeps of its query: every clause, every condition and every operand, each in its
//! place.
use crate::chain::List;
use crate::node::{ExprNode, LogicalOp, OrderItem, ProjectionItem, ViewQueryModel};
use crate::tree::{PredicateTree, SelectTree};
use crate::view;
use crate::view::{FromClause, ModelLiteral, ViewError};
use vstd::prelude::*;

verus! {

/// Whether `node` is all of `conditions`, connected by `AND` in their order. No condition is no node.
pub open spec fn and_connected(node: Option<ExprNode>, conditions: Seq<ExprNode>) -> bool
    decreases conditions.len(),
{
    if conditions.len() == 0 {
        node is None
    } else if conditions.len() == 1 {
        node == Some(conditions[0])
    } else {
        match node {
            Some(ExprNode::Logical { op: LogicalOp::And, left, right }) => *right
                == conditions.last() && and_connected(Some(*left), conditions.drop_last()),
            _ => false,
        }
    }
}

/// Whether `nodes` are the lowered `conditions`, one for each and in their order.
pub open spec fn lowered_conditions(
    conditions: Seq<PredicateTree<ModelLiteral>>,
    nodes: Seq<ExprNode>,
) -> bool {
    &&& nodes.len() == conditions.len()
    &&& forall|i: int|
        0 <= i < nodes.len() ==> view::predicate_node(conditions[i]) == Ok::<ExprNode, ViewError>(
            #[trigger] nodes[i],
        )
}

/// Conditions behind the one in `slot`, connected by `AND` from the left.
spec fn connect(slot: Option<ExprNode>, nodes: Seq<ExprNode>) -> Option<ExprNode>
    decreases nodes.len(),
{
    if nodes.len() == 0 {
        slot
    } else {
        view::and_into(connect(slot, nodes.drop_last()), nodes.last())
    }
}

proof fn lemma_connected(nodes: Seq<ExprNode>)
    ensures
        and_connected(connect(None, nodes), nodes),
    decreases nodes.len(),
{
    if nodes.len() > 0 {
        lemma_connected(nodes.drop_last());
    }
}

proof fn lemma_connect_first(slot: Option<ExprNode>, first: ExprNode, rest: Seq<ExprNode>)
    ensures
        connect(slot, seq![first] + rest) == connect(view::and_into(slot, first), rest),
    decreases rest.len(),
{
    let all = seq![first] + rest;
    if rest.len() == 0 {
        assert(all.drop_last() =~= Seq::empty());
        assert(all.last() == first);
        assert(connect(slot, Seq::empty()) == slot);
    } else {
        lemma_connect_first(slot, first, rest.drop_last());
        assert(all.drop_last() =~= seq![first] + rest.drop_last());
        assert(all.last() == rest.last());
    }
}

proof fn lemma_conjunction(
    slot: Option<ExprNode>,
    conditions: List<PredicateTree<ModelLiteral>>,
    nodes: Seq<ExprNode>,
)
    requires
        lowered_conditions(conditions.seq(), nodes),
    ensures
        view::conjunction(slot, conditions) == Ok::<Option<ExprNode>, ViewError>(
            connect(slot, nodes),
        ),
    decreases conditions,
{
    if let List::Cons { head, tail } = conditions {
        let rest = nodes.drop_first();
        assert(conditions.seq()[0] == *head);
        assert(view::predicate_node(*head) == Ok::<ExprNode, ViewError>(nodes[0]));
        assert forall|i: int| 0 <= i < rest.len() implies view::predicate_node(tail.seq()[i])
            == Ok::<ExprNode, ViewError>(#[trigger] rest[i]) by {
            assert(rest[i] == nodes[i + 1]);
            assert(tail.seq()[i] == conditions.seq()[i + 1]);
        }
        lemma_conjunction(view::and_into(slot, nodes[0]), *tail, rest);
        lemma_connect_first(slot, nodes[0], rest);
        assert(seq![nodes[0]] + rest =~= nodes);
    }
}

/// Conditions are all kept: they are connected by `AND`, one for each and in their order.
pub proof fn law_conditions_are_kept(
    conditions: List<PredicateTree<ModelLiteral>>,
    nodes: Seq<ExprNode>,
    node: Option<ExprNode>,
)
    requires
        lowered_conditions(conditions.seq(), nodes),
        view::conjunction(None, conditions) == Ok::<Option<ExprNode>, ViewError>(node),
    ensures
        and_connected(node, nodes),
{
    lemma_conjunction(None, conditions, nodes);
    lemma_connected(nodes);
}

/// The body of a view keeps every clause of its query, each in its place: nothing that restricts rows
/// or groups is lost, and nothing that shapes the result.
#[verifier::spinoff_prover]
pub proof fn law_body_keeps_its_clauses(
    select: SelectTree<ModelLiteral>,
    projection: List<ProjectionItem>,
    clause: FromClause,
    filters: Seq<ExprNode>,
    groups: List<ExprNode>,
    havings: Seq<ExprNode>,
    orders: List<OrderItem>,
) -> (body: ViewQueryModel)
    requires
        view::projection_items(select.projection) == Ok::<List<ProjectionItem>, ViewError>(
            projection,
        ),
        view::from_clause(FromClause { from: None, joins: List::Nil }, select.sources) == Ok::<
            FromClause,
            ViewError,
        >(clause),
        lowered_conditions(select.filters.seq(), filters),
        view::expr_nodes(select.groups) == Ok::<List<ExprNode>, ViewError>(groups),
        lowered_conditions(select.havings.seq(), havings),
        view::order_items(select.orders) == Ok::<List<OrderItem>, ViewError>(orders),
    ensures
        view::select_model(select) == Ok::<ViewQueryModel, ViewError>(body),
        body.distinct == select.distinct,
        body.projection == projection,
        body.from == clause.from,
        body.joins == clause.joins,
        and_connected(body.filter, filters),
        body.group_by == groups,
        and_connected(body.having, havings),
        body.order_by == orders,
        body.limit == select.limit,
        body.offset == select.offset,
{
    lemma_conjunction(None, select.filters, filters);
    lemma_conjunction(None, select.havings, havings);
    lemma_connected(filters);
    lemma_connected(havings);
    ViewQueryModel {
        distinct: select.distinct,
        projection,
        from: clause.from,
        joins: clause.joins,
        filter: connect(None, filters),
        group_by: groups,
        having: connect(None, havings),
        order_by: orders,
        limit: select.limit,
        offset: select.offset,
    }
}

} // verus!
