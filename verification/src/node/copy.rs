//! Exact copies of view bodies.
use crate::chain::List;
use crate::label::Duplicate;
use crate::node::{
    CaseArm, ExprNode, InlineLiteral, JoinItem, OrderItem, ProjectionItem, SourceRef,
    ViewQueryModel, WindowOrderTerm,
};
use vstd::prelude::*;

verus! {

impl Duplicate for InlineLiteral {
    fn duplicate(&self) -> (copy: InlineLiteral) {
        match self {
            InlineLiteral::Null => InlineLiteral::Null,
            InlineLiteral::Int(value) => InlineLiteral::Int(*value),
            InlineLiteral::UInt(value) => InlineLiteral::UInt(*value),
            InlineLiteral::Bool(value) => InlineLiteral::Bool(*value),
            InlineLiteral::Text(value) => InlineLiteral::Text(value.clone()),
            InlineLiteral::Number(value) => InlineLiteral::Number(value.clone()),
        }
    }
}

impl Duplicate for SourceRef {
    fn duplicate(&self) -> (copy: SourceRef) {
        SourceRef {
            schema: self.schema.duplicate(),
            name: self.name.duplicate(),
            alias: self.alias,
        }
    }
}

fn copy_boxed(node: &Box<ExprNode>) -> (copy: Box<ExprNode>)
    ensures
        copy == *node,
    decreases node, 1nat,
{
    Box::new(copy_node(&**node))
}

fn copy_optional_boxed(node: &Option<Box<ExprNode>>) -> (copy: Option<Box<ExprNode>>)
    ensures
        copy == *node,
    decreases node, 2nat,
{
    match node {
        Some(inner) => Some(copy_boxed(inner)),
        None => None,
    }
}

fn copy_optional(node: &Option<ExprNode>) -> (copy: Option<ExprNode>)
    ensures
        copy == *node,
    decreases node, 2nat,
{
    match node {
        Some(inner) => Some(copy_node(inner)),
        None => None,
    }
}

fn copy_nodes(nodes: &List<ExprNode>) -> (copy: List<ExprNode>)
    ensures
        copy == *nodes,
    decreases nodes, 2nat,
{
    match nodes {
        List::Nil => List::Nil,
        List::Cons { head, tail } => List::Cons {
            head: Box::new(copy_node(&**head)),
            tail: Box::new(copy_nodes(&**tail)),
        },
    }
}

fn copy_arms(arms: &List<CaseArm>) -> (copy: List<CaseArm>)
    ensures
        copy == *arms,
    decreases arms, 2nat,
{
    match arms {
        List::Nil => List::Nil,
        List::Cons { head, tail } => List::Cons {
            head: Box::new(
                CaseArm { when: copy_node(&head.when), value: copy_node(&head.value) },
            ),
            tail: Box::new(copy_arms(&**tail)),
        },
    }
}

fn copy_window_orders(terms: &List<WindowOrderTerm>) -> (copy: List<WindowOrderTerm>)
    ensures
        copy == *terms,
    decreases terms, 2nat,
{
    match terms {
        List::Nil => List::Nil,
        List::Cons { head, tail } => List::Cons {
            head: Box::new(
                WindowOrderTerm { expr: copy_node(&head.expr), direction: head.direction },
            ),
            tail: Box::new(copy_window_orders(&**tail)),
        },
    }
}

fn copy_projection(items: &List<ProjectionItem>) -> (copy: List<ProjectionItem>)
    ensures
        copy == *items,
    decreases items, 2nat,
{
    match items {
        List::Nil => List::Nil,
        List::Cons { head, tail } => List::Cons {
            head: Box::new(
                ProjectionItem {
                    output_name: head.output_name.duplicate(),
                    expr: copy_node(&head.expr),
                },
            ),
            tail: Box::new(copy_projection(&**tail)),
        },
    }
}

fn copy_joins(joins: &List<JoinItem>) -> (copy: List<JoinItem>)
    ensures
        copy == *joins,
    decreases joins, 3nat,
{
    match joins {
        List::Nil => List::Nil,
        List::Cons { head, tail } => List::Cons {
            head: Box::new(
                JoinItem {
                    kind: head.kind,
                    source: head.source.duplicate(),
                    on: copy_optional(&head.on),
                },
            ),
            tail: Box::new(copy_joins(&**tail)),
        },
    }
}

fn copy_orders(items: &List<OrderItem>) -> (copy: List<OrderItem>)
    ensures
        copy == *items,
    decreases items, 2nat,
{
    match items {
        List::Nil => List::Nil,
        List::Cons { head, tail } => List::Cons {
            head: Box::new(
                OrderItem {
                    expr: copy_node(&head.expr),
                    direction: head.direction,
                    nulls: head.nulls,
                },
            ),
            tail: Box::new(copy_orders(&**tail)),
        },
    }
}

fn copy_query(query: &ViewQueryModel) -> (copy: ViewQueryModel)
    ensures
        copy == *query,
    decreases query, 4nat,
{
    ViewQueryModel {
        distinct: query.distinct,
        projection: copy_projection(&query.projection),
        from: query.from.duplicate(),
        joins: copy_joins(&query.joins),
        filter: copy_optional(&query.filter),
        group_by: copy_nodes(&query.group_by),
        having: copy_optional(&query.having),
        order_by: copy_orders(&query.order_by),
        limit: query.limit,
        offset: query.offset,
    }
}

fn copy_node(node: &ExprNode) -> (copy: ExprNode)
    ensures
        copy == *node,
    decreases node, 0nat,
{
    match node {
        ExprNode::Column { alias, column } => ExprNode::Column {
            alias: *alias,
            column: column.duplicate(),
        },
        ExprNode::Literal(literals) => ExprNode::Literal(literals.duplicate()),
        ExprNode::Binary { op, left, right } => ExprNode::Binary {
            op: *op,
            left: copy_boxed(left),
            right: copy_boxed(right),
        },
        ExprNode::Nullif { left, right, result } => ExprNode::Nullif {
            left: copy_boxed(left),
            right: copy_boxed(right),
            result: result.duplicate(),
        },
        ExprNode::Coalesce { args, result } => ExprNode::Coalesce {
            args: copy_nodes(args),
            result: result.duplicate(),
        },
        ExprNode::Aggregate { func, distinct, operand, result } => ExprNode::Aggregate {
            func: *func,
            distinct: *distinct,
            operand: copy_boxed(operand),
            result: result.duplicate(),
        },
        ExprNode::ScalarSubquery(query) => ExprNode::ScalarSubquery(
            Box::new(copy_query(&**query)),
        ),
        ExprNode::Window { func, args, partition_by, order_by, result } => ExprNode::Window {
            func: *func,
            args: copy_nodes(args),
            partition_by: copy_nodes(partition_by),
            order_by: copy_window_orders(order_by),
            result: result.duplicate(),
        },
        ExprNode::Case { arms, else_, result } => ExprNode::Case {
            arms: copy_arms(arms),
            else_: copy_optional_boxed(else_),
            result: result.duplicate(),
        },
        ExprNode::SimpleCase { operand, arms, else_, result } => ExprNode::SimpleCase {
            operand: copy_boxed(operand),
            arms: copy_arms(arms),
            else_: copy_optional_boxed(else_),
            result: result.duplicate(),
        },
        ExprNode::ScalarFn { func, args } => ExprNode::ScalarFn {
            func: *func,
            args: copy_nodes(args),
        },
        ExprNode::Now => ExprNode::Now,
        ExprNode::Extract { field, operand, result, timezone } => ExprNode::Extract {
            field: *field,
            operand: copy_boxed(operand),
            result: result.duplicate(),
            timezone: timezone.duplicate(),
        },
        ExprNode::DateTrunc { unit, operand, timezone } => ExprNode::DateTrunc {
            unit: *unit,
            operand: copy_boxed(operand),
            timezone: timezone.duplicate(),
        },
        ExprNode::ExtractSecond { operand, result } => ExprNode::ExtractSecond {
            operand: copy_boxed(operand),
            result: result.duplicate(),
        },
        ExprNode::Compare { op, left, right } => ExprNode::Compare {
            op: *op,
            left: copy_boxed(left),
            right: copy_boxed(right),
        },
        ExprNode::Logical { op, left, right } => ExprNode::Logical {
            op: *op,
            left: copy_boxed(left),
            right: copy_boxed(right),
        },
        ExprNode::Not(inner) => ExprNode::Not(copy_boxed(inner)),
        ExprNode::IsNull { negated, operand } => ExprNode::IsNull {
            negated: *negated,
            operand: copy_boxed(operand),
        },
        ExprNode::Like { case_insensitive, negated, operand, pattern } => ExprNode::Like {
            case_insensitive: *case_insensitive,
            negated: *negated,
            operand: copy_boxed(operand),
            pattern: copy_boxed(pattern),
        },
        ExprNode::In { negated, operand, items } => ExprNode::In {
            negated: *negated,
            operand: copy_boxed(operand),
            items: copy_nodes(items),
        },
        ExprNode::Between { negated, operand, low, high } => ExprNode::Between {
            negated: *negated,
            operand: copy_boxed(operand),
            low: copy_boxed(low),
            high: copy_boxed(high),
        },
        ExprNode::InSubquery { negated, operand, subquery } => ExprNode::InSubquery {
            negated: *negated,
            operand: copy_boxed(operand),
            subquery: Box::new(copy_query(&**subquery)),
        },
        ExprNode::Exists { negated, subquery } => ExprNode::Exists {
            negated: *negated,
            subquery: Box::new(copy_query(&**subquery)),
        },
    }
}

impl Duplicate for ExprNode {
    fn duplicate(&self) -> (copy: ExprNode) {
        copy_node(self)
    }
}

impl Duplicate for ViewQueryModel {
    fn duplicate(&self) -> (copy: ViewQueryModel) {
        copy_query(self)
    }
}

impl Clone for InlineLiteral {
    fn clone(&self) -> (copy: InlineLiteral)
        ensures
            copy == *self,
    {
        self.duplicate()
    }
}

impl Clone for SourceRef {
    fn clone(&self) -> (copy: SourceRef)
        ensures
            copy == *self,
    {
        self.duplicate()
    }
}

impl Clone for ExprNode {
    fn clone(&self) -> (copy: ExprNode)
        ensures
            copy == *self,
    {
        self.duplicate()
    }
}

impl Clone for ViewQueryModel {
    fn clone(&self) -> (copy: ViewQueryModel)
        ensures
            copy == *self,
    {
        self.duplicate()
    }
}

impl Clone for CaseArm {
    fn clone(&self) -> (copy: CaseArm)
        ensures
            copy == *self,
    {
        CaseArm { when: self.when.duplicate(), value: self.value.duplicate() }
    }
}

impl Clone for WindowOrderTerm {
    fn clone(&self) -> (copy: WindowOrderTerm)
        ensures
            copy == *self,
    {
        WindowOrderTerm { expr: self.expr.duplicate(), direction: self.direction }
    }
}

impl Clone for ProjectionItem {
    fn clone(&self) -> (copy: ProjectionItem)
        ensures
            copy == *self,
    {
        ProjectionItem {
            output_name: self.output_name.duplicate(),
            expr: self.expr.duplicate(),
        }
    }
}

impl Clone for JoinItem {
    fn clone(&self) -> (copy: JoinItem)
        ensures
            copy == *self,
    {
        JoinItem { kind: self.kind, source: self.source.duplicate(), on: self.on.duplicate() }
    }
}

impl Clone for OrderItem {
    fn clone(&self) -> (copy: OrderItem)
        ensures
            copy == *self,
    {
        OrderItem { expr: self.expr.duplicate(), direction: self.direction, nulls: self.nulls }
    }
}

} // verus!
