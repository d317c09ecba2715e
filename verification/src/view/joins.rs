//! What the sources of a view body keep of those of its query: every table under its alias, every
//! join of its kind, every join condition.
use crate::chain::List;
use crate::node::{ExprNode, JoinItem, JoinKind, SourceRef};
use crate::tree::{JoinTree, PredicateTree, SourceTree};
use crate::view;
use crate::view::{FromClause, ModelLiteral, ViewError};
use vstd::prelude::*;

verus! {

/// An inner join is lowered on its condition.
#[verifier::spinoff_prover]
pub proof fn law_inner_join_keeps_its_condition(on: PredicateTree<ModelLiteral>, node: ExprNode)
    requires
        view::predicate_node(on) == Ok::<ExprNode, ViewError>(node),
    ensures
        view::join_condition(JoinTree::Inner(on)) == Ok::<Option<ExprNode>, ViewError>(Some(node)),
        view::join_kind(JoinTree::Inner(on)) == Some(JoinKind::Inner),
{
}

/// A left join is lowered on its condition.
#[verifier::spinoff_prover]
pub proof fn law_left_join_keeps_its_condition(on: PredicateTree<ModelLiteral>, node: ExprNode)
    requires
        view::predicate_node(on) == Ok::<ExprNode, ViewError>(node),
    ensures
        view::join_condition(JoinTree::Left(on)) == Ok::<Option<ExprNode>, ViewError>(Some(node)),
        view::join_kind(JoinTree::Left(on)) == Some(JoinKind::Left),
{
}

/// A right join is lowered on its condition.
#[verifier::spinoff_prover]
pub proof fn law_right_join_keeps_its_condition(on: PredicateTree<ModelLiteral>, node: ExprNode)
    requires
        view::predicate_node(on) == Ok::<ExprNode, ViewError>(node),
    ensures
        view::join_condition(JoinTree::Right(on)) == Ok::<Option<ExprNode>, ViewError>(Some(node)),
        view::join_kind(JoinTree::Right(on)) == Some(JoinKind::Right),
{
}

/// A full join is lowered on its condition.
#[verifier::spinoff_prover]
pub proof fn law_full_join_keeps_its_condition(on: PredicateTree<ModelLiteral>, node: ExprNode)
    requires
        view::predicate_node(on) == Ok::<ExprNode, ViewError>(node),
    ensures
        view::join_condition(JoinTree::Full(on)) == Ok::<Option<ExprNode>, ViewError>(Some(node)),
        view::join_kind(JoinTree::Full(on)) == Some(JoinKind::Full),
{
}

/// A source behind `FROM` and a crossed one have no condition.
#[verifier::spinoff_prover]
pub proof fn law_no_condition_is_made_up()
    ensures
        view::join_condition(JoinTree::Table) == Ok::<Option<ExprNode>, ViewError>(None),
        view::join_condition(JoinTree::Cross) == Ok::<Option<ExprNode>, ViewError>(None),
        view::join_kind(JoinTree::Table) == None::<JoinKind>,
        view::join_kind(JoinTree::Cross) == Some(JoinKind::Cross),
{
}

/// A source is put behind those before it: in front of all where it is not joined, else joined the
/// way it says and on its condition. The others follow it.
#[verifier::spinoff_prover]
pub proof fn law_source_is_kept(
    clause: FromClause,
    source: SourceTree<ModelLiteral>,
    rest: List<SourceTree<ModelLiteral>>,
    on: Option<ExprNode>,
)
    requires
        view::join_condition(source.join) == Ok::<Option<ExprNode>, ViewError>(on),
    ensures
        view::from_clause(
            clause,
            List::Cons { head: Box::new(source), tail: Box::new(rest) },
        ) == view::from_clause(
            {
                let named = SourceRef {
                    schema: source.table.schema,
                    name: source.table.name,
                    alias: source.alias,
                };
                match view::join_kind(source.join) {
                    None => FromClause { from: Some(named), joins: clause.joins },
                    Some(kind) => FromClause {
                        from: clause.from,
                        joins: clause.joins.with(JoinItem { kind, source: named, on }),
                    },
                }
            },
            rest,
        ),
{
}

/// Where no source is left, what was gathered is the clause.
#[verifier::spinoff_prover]
pub proof fn law_sources_end(clause: FromClause)
    ensures
        view::from_clause(clause, List::Nil) == Ok::<FromClause, ViewError>(clause),
{
}

} // verus!
