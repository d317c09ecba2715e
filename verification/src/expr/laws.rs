//! What built expressions and predicates keep of their parts: every operand in its place, every
//! modifier, every arm and term in the order in which it was added.
use crate::backend::{Backend, Encode};
use crate::expr::ast::{
    AggregateExprAst, BinaryExprAst, ColumnExprAst, LiteralExprAst, RenderAst, RenderSubquery,
    ScalarSubqueryExprAst,
};
use crate::expr::case::{
    AppendArm, CaseExprAst, CaseNil, CaseWhen, ElseValue, NoElse, RenderCaseArms, RenderElse,
};
use crate::expr::ddl::{DdlExprAst, DdlPredicateAst};
use crate::expr::kind::ExprKind;
use crate::expr::predicate::{
    AndPredicateAst, BetweenPredicateAst, BoolTestPredicateAst, ComparePredicateAst,
    ExistsPredicateAst, InPredicateAst, InSubqueryPredicateAst, LikePredicateAst, NotPredicateAst,
    NullCheckPredicateAst, OrPredicateAst, RenderPredicateAst,
};
use crate::expr::window::{
    AppendOrder, AppendPartition, RenderPartitions, RenderWindowArgs, RenderWindowOrders,
    WindowExprAst, WindowNil, WindowOrder, WindowPartition,
};
use crate::label::Duplicate;
use crate::list::HAppend;
use crate::ops;
use crate::ops::OrderDirection;
use crate::tree::{CaseArmTree, ExprTree, PredicateTree, WindowOrderTree};
use vstd::prelude::*;

verus! {

/// A comparison compares its operands in the order in which they were given.
pub proof fn law_comparison_is_built<Left: RenderAst<B>, Right: RenderAst<B>, B: Backend>(
    ast: ComparePredicateAst<Left, Right>,
) where Left::Params: HAppend<Right::Params>
    ensures
        ast.condition() matches PredicateTree::Compare { op, left, right } && op == ast.op && *left
            == ast.left.tree() && *right == ast.right.tree(),
{
}

/// Two conditions are connected the way they were said to be, in the order in which they were given.
pub proof fn law_connections_are_built<
    Left: RenderPredicateAst<B>,
    Right: RenderPredicateAst<B>,
    B: Backend,
>(both: AndPredicateAst<Left, Right>, either: OrPredicateAst<Left, Right>) where
    Left::Params: HAppend<Right::Params>,

    ensures
        both.condition() matches PredicateTree::And { left, right } && *left
            == both.left.condition() && *right == both.right.condition(),
        either.condition() matches PredicateTree::Or { left, right } && *left
            == either.left.condition() && *right == either.right.condition(),
{
}

/// A negation negates its condition.
pub proof fn law_negation_is_built<Inner: RenderPredicateAst<B>, B: Backend>(
    ast: NotPredicateAst<Inner>,
)
    ensures
        ast.condition() matches PredicateTree::Not(inner) && *inner == ast.predicate.condition(),
{
}

/// A test for `NULL` and one for truth ask of their operand what they were built to ask.
pub proof fn law_tests_are_built<Operand: RenderAst<B>, B: Backend>(
    null: NullCheckPredicateAst<Operand>,
    truth: BoolTestPredicateAst<Operand>,
)
    ensures
        null.condition() matches PredicateTree::IsNull { negated, operand } && negated
            == null.negated && *operand == null.operand.tree(),
        truth.condition() matches PredicateTree::BoolTest { negated, operand } && negated
            == truth.negated && *operand == truth.operand.tree(),
{
}

/// The left of a `LIKE` is matched against the right, with the case and the negation asked for.
pub proof fn law_like_is_built<Left: RenderAst<B>, Right: RenderAst<B>, B: Backend>(
    ast: LikePredicateAst<Left, Right>,
) where Left::Params: HAppend<Right::Params>
    ensures
        ast.condition() matches PredicateTree::Like { case_insensitive, negated, operand, pattern }
            && case_insensitive == ast.case_insensitive && negated == ast.negated && *operand
            == ast.left.tree() && *pattern == ast.right.tree(),
{
}

/// A range test keeps its lower bound as the lower one and its upper bound as the upper one.
pub proof fn law_between_is_built<
    Operand: RenderAst<B>,
    Lo: RenderAst<B>,
    Hi: RenderAst<B>,
    B: Backend,
>(ast: BetweenPredicateAst<Operand, Lo, Hi>) where
    Operand::Params: HAppend<Lo::Params>,
    <Operand::Params as HAppend<Lo::Params>>::Output: HAppend<Hi::Params>,

    ensures
        ast.condition() matches PredicateTree::Between { negated, operand, lo, hi } && negated
            == ast.negated && *operand == ast.operand.tree() && *lo == ast.lo.tree() && *hi
            == ast.hi.tree(),
{
}

/// A membership test keeps as many values as it was given, in their order, each as the backend
/// encodes it.
pub proof fn law_membership_is_built<
    Operand: RenderAst<B>,
    V: Duplicate + Encode<B>,
    B: Backend,
>(ast: InPredicateAst<Operand, V>)
    ensures
        ast.condition() matches PredicateTree::In { negated, operand, values } && negated
            == ast.negated && *operand == ast.operand.tree() && values.seq().len()
            == ast.values.seq().len() && forall|i: int|
            0 <= i < values.seq().len() ==> (#[trigger] values.seq()[i]).outcome
                == ast.values.seq()[i].encoded(),
    decreases ast.values,
{
    if let crate::chain::List::Cons { head, tail } = ast.values {
        let rest = InPredicateAst { operand: ast.operand, values: *tail, negated: ast.negated };
        law_membership_is_built::<Operand, V, B>(rest);
    }
}

/// Subqueries stand where they were put, negated as asked for.
pub proof fn law_subqueries_are_built<Operand: RenderAst<B>, Sub: RenderSubquery<B>, B: Backend>(
    member: InSubqueryPredicateAst<Operand, Sub>,
    exists_: ExistsPredicateAst<Sub>,
    scalar: ScalarSubqueryExprAst<Sub>,
) where Operand::Params: HAppend<Sub::Params>
    ensures
        member.condition() matches PredicateTree::InSubquery { negated, operand, subquery }
            && negated == member.negated && *operand == member.operand.tree() && *subquery
            == member.subquery.select_tree(),
        exists_.condition() matches PredicateTree::Exists { negated, subquery } && negated
            == exists_.negated && *subquery == exists_.subquery.select_tree(),
        scalar.tree() matches ExprTree::ScalarSubquery(subquery) && *subquery
            == scalar.subquery.select_tree(),
{
}

/// An arithmetic operation takes its operands in the order in which they were given.
pub proof fn law_arithmetic_is_built<Left: RenderAst<B>, Right: RenderAst<B>, B: Backend>(
    ast: BinaryExprAst<Left, Right>,
) where Left::Params: HAppend<Right::Params>
    ensures
        ast.tree() matches ExprTree::Binary { op, left, right } && op == ast.op && *left
            == ast.left.tree() && *right == ast.right.tree(),
{
}

/// An aggregate is taken of its operand, of distinct values where that is asked for.
pub proof fn law_aggregate_is_built<Operand: RenderAst<B>, B: Backend, const DISTINCT: bool>(
    ast: AggregateExprAst<Operand, DISTINCT>,
)
    ensures
        ast.tree() matches ExprTree::Aggregate { func, distinct, cast, operand } && func == ast.func
            && distinct == DISTINCT && cast == ast.cast && *operand == ast.operand.tree(),
{
}

/// A column is the one of its source, and a literal is the value as the backend encodes it.
pub proof fn law_leaves_are_built<K, V: ExprKind, B: Backend>(
    column_ast: ColumnExprAst<K>,
    literal: LiteralExprAst<V>,
) where V::Value: Duplicate + Encode<B>
    ensures
        RenderAst::<B>::tree(&column_ast) matches ExprTree::Column { alias, column } && alias
            == column_ast.alias && column == column_ast.column,
        RenderAst::<B>::tree(&literal) matches ExprTree::Literal(slot) && slot.outcome
            == literal.value.encoded(),
{
}

/// A `CASE` gives the value of an arm under the condition of the same arm, first arm first, and the
/// value of its `ELSE` where it has one.
pub proof fn law_case_is_built<
    Pred: RenderPredicateAst<B>,
    Val: RenderAst<B>,
    Rest: RenderCaseArms<B>,
    Other: RenderAst<B>,
    B: Backend,
>(arms: CaseWhen<Pred, Val, Rest>, otherwise: ElseValue<Other>, none: NoElse) where
    CaseWhen<Pred, Val, Rest>: RenderCaseArms<B>,
    Pred::Params: HAppend<Val::Params>,
    <Pred::Params as HAppend<Val::Params>>::Output: HAppend<Rest::Params>,

    ensures
        arms.arm_trees().seq() == seq![
            CaseArmTree { when: arms.when.condition(), value: arms.value.tree() },
        ] + arms.rest.arm_trees().seq(),
        otherwise.else_tree() matches Some(value) && *value == otherwise.ast.tree(),
        RenderElse::<B>::else_tree(&none) is None,
{
}

/// A `CASE` has its arms, its `ELSE` and its type.
pub proof fn law_case_keeps_its_arms<Arms: RenderCaseArms<B>, Else: RenderElse<B>, B: Backend>(
    ast: CaseExprAst<Arms, Else>,
) where Arms::Params: HAppend<Else::Params>
    ensures
        ast.tree() matches ExprTree::Case { arms, else_, result } && arms == ast.arms.arm_trees()
            && else_ == ast.else_ast.else_tree() && result == ast.result,
{
}

/// A window has its function, arguments, partitions and terms, each list in its order.
pub proof fn law_window_is_built<
    Operand: RenderWindowArgs<B>,
    Parts: RenderPartitions<B>,
    Ords: RenderWindowOrders<B>,
    B: Backend,
>(ast: WindowExprAst<Operand, Parts, Ords>) where
    Operand::Params: HAppend<Parts::Params>,
    <Operand::Params as HAppend<Parts::Params>>::Output: HAppend<Ords::Params>,

    ensures
        ast.tree() matches ExprTree::Window { func, cast, args, partitions, orders } && func
            == ast.func && cast == ast.cast && args == ast.operand.arg_trees() && partitions
            == ast.partitions.partition_trees() && orders == ast.orders.order_trees(),
{
}

/// A window is partitioned by its first expression first, and ordered by its first term first, in
/// the direction of that term.
pub proof fn law_window_terms_are_built<
    Ast: RenderAst<B>,
    Parts: RenderPartitions<B>,
    Ords: RenderWindowOrders<B>,
    B: Backend,
>(partition: WindowPartition<Ast, Parts>, order: WindowOrder<Ast, Ords>) where
    Ast::Params: HAppend<Parts::Params> + HAppend<Ords::Params>,

    ensures
        partition.partition_trees().seq() == seq![partition.ast.tree()]
            + partition.rest.partition_trees().seq(),
        order.order_trees().seq() == seq![
            WindowOrderTree { expr: order.ast.tree(), direction: order.dir },
        ] + order.rest.order_trees().seq(),
{
}

/// In the definition of a partial index a comparison is written with its operands on their sides,
/// and stands in brackets of its own.
pub proof fn law_index_comparison<Left: DdlExprAst, Right: DdlExprAst>(
    ast: ComparePredicateAst<Left, Right>,
)
    ensures
        ast.ddl_text() == seq!['('] + ast.left.ddl_text() + seq![' '] + ops::compare_symbol(ast.op)
            + seq![' '] + ast.right.ddl_text() + seq![')'],
{
    reveal_strlit("(");
    reveal_strlit(" ");
    reveal_strlit(")");
    assert("("@ =~= seq!['(']);
    assert(" "@ =~= seq![' ']);
    assert(")"@ =~= seq![')']);
}

/// In the definition of a partial index conditions are connected and negated as they were built.
pub proof fn law_index_connections<Left: DdlPredicateAst, Right: DdlPredicateAst>(
    both: AndPredicateAst<Left, Right>,
    either: OrPredicateAst<Left, Right>,
    not: NotPredicateAst<Left>,
)
    ensures
        both.ddl_text() == seq!['('] + both.left.ddl_text() + seq![' ', 'A', 'N', 'D', ' ']
            + both.right.ddl_text() + seq![')'],
        either.ddl_text() == seq!['('] + either.left.ddl_text() + seq![' ', 'O', 'R', ' ']
            + either.right.ddl_text() + seq![')'],
        not.ddl_text() == seq!['(', 'N', 'O', 'T', ' '] + not.predicate.ddl_text() + seq![')'],
{
    reveal_strlit("(");
    reveal_strlit(")");
    reveal_strlit(" AND ");
    reveal_strlit(" OR ");
    reveal_strlit("(NOT ");
    assert("("@ =~= seq!['(']);
    assert(")"@ =~= seq![')']);
    assert(" AND "@ =~= seq![' ', 'A', 'N', 'D', ' ']);
    assert(" OR "@ =~= seq![' ', 'O', 'R', ' ']);
    assert("(NOT "@ =~= seq!['(', 'N', 'O', 'T', ' ']);
}

/// In the definition of a partial index a test for `NULL` says `NOT` exactly where it is negated.
pub proof fn law_index_null_test<Operand: DdlExprAst>(ast: NullCheckPredicateAst<Operand>)
    ensures
        ast.ddl_text() == seq!['('] + ast.operand.ddl_text() + seq![' ', 'I', 'S'] + (
        if ast.negated {
            seq![' ', 'N', 'O', 'T']
        } else {
            Seq::empty()
        }) + seq![' ', 'N', 'U', 'L', 'L', ')'],
{
    reveal_strlit("(");
    reveal_strlit(" IS NULL)");
    reveal_strlit(" IS NOT NULL)");
    assert(ast.ddl_text() =~= seq!['('] + ast.operand.ddl_text() + seq![' ', 'I', 'S'] + (
    if ast.negated {
        seq![' ', 'N', 'O', 'T']
    } else {
        Seq::empty()
    }) + seq![' ', 'N', 'U', 'L', 'L', ')']);
}

/// An arm that is added stands behind those that were there: they stay as they are, and the first arm
/// of none is the one that was added.
pub proof fn law_arms_are_added_behind<PredAst, ValAst, HeadPred, HeadVal, Rest>(
    arms: CaseWhen<HeadPred, HeadVal, Rest>,
    when: PredAst,
    value: ValAst,
) where Rest: AppendArm<PredAst, ValAst>
    ensures
        arms.with_arm(when, value).when == arms.when,
        arms.with_arm(when, value).value == arms.value,
        arms.with_arm(when, value).rest == arms.rest.with_arm(when, value),
        CaseNil.with_arm(when, value).when == when,
        CaseNil.with_arm(when, value).value == value,
{
}

/// A term of a window that is added stands behind those that were there, in its own direction.
pub proof fn law_window_terms_are_added_behind<Head, Parts, Ords, Ast>(
    partition: WindowPartition<Head, Parts>,
    order: WindowOrder<Head, Ords>,
    ast: Ast,
    direction: OrderDirection,
) where Parts: AppendPartition<Ast>, Ords: AppendOrder<Ast>
    ensures
        partition.with_partition(ast).ast == partition.ast,
        partition.with_partition(ast).rest == partition.rest.with_partition(ast),
        order.with_order(ast, direction).ast == order.ast,
        order.with_order(ast, direction).dir == order.dir,
        order.with_order(ast, direction).rest == order.rest.with_order(ast, direction),
        AppendPartition::<Ast>::with_partition(WindowNil, ast).ast == ast,
        AppendOrder::<Ast>::with_order(WindowNil, ast, direction).ast == ast,
        AppendOrder::<Ast>::with_order(WindowNil, ast, direction).dir == direction,
{
}

} // verus!
