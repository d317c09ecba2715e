//! What built statements and sources keep of their parts: every clause where it belongs, every
//! source with its alias and its condition.
use crate::backend::{Backend, Encode};
use crate::chain;
use crate::expr::ast::RenderAst;
use crate::expr::kind::PredicateKind;
use crate::expr::predicate::RenderPredicateAst;
use crate::label::Duplicate;
use crate::list::HAppend;
use crate::projection;
use crate::projection::{QuerySource, RenderProjectable, TableProjection};
use crate::query::assign::{
    DefaultAssignmentValue, ExprAssignmentValue, RenderAssignmentValue, RenderInsertRows,
    RenderPredicateNodes, RenderUpdateAssignments, StaticAssignmentValue,
};
use crate::query::set::{RenderSetArm, SetArm, SetGroup, SetNode};
use crate::query::source::{
    CrossJoinSource, FullJoinSource, InnerJoinSource, LeftJoinSource, RenderSourceSpec,
    RightJoinSource, RootSource,
};
use crate::query::statement::{DeleteStatement, InsertStatement, UpdateStatement};
use crate::render::typed;
use crate::tree::{JoinTree, SetTree, ValueTree};
use vstd::prelude::*;

verus! {

/// An insert puts its rows into its table, resolves conflicts as asked for and gives back what it was
/// asked for.
pub proof fn law_insert_is_built<
    'conn,
    Conn,
    S: TableProjection,
    Rows: RenderInsertRows<B>,
    Returning: RenderProjectable<B>,
    B: Backend,
>(statement: InsertStatement<'conn, Conn, S, Rows, Returning>)
    ensures
        ({
            let insert = statement.insert_tree::<B>();
            &&& insert.table == projection::table_of::<S>()
            &&& insert.rows == statement.rows.rows()
            &&& insert.conflict == statement.conflict
            &&& insert.returning == statement.returning.items()
        }),
{
}

/// An update assigns its columns in the rows of its table that meet its conditions, and gives back
/// what it was asked for.
pub proof fn law_update_is_built<
    'conn,
    Conn,
    S: TableProjection,
    Columns: RenderUpdateAssignments<B>,
    Filters: RenderPredicateNodes<B>,
    Returning: RenderProjectable<B>,
    B: Backend,
>(statement: UpdateStatement<'conn, Conn, S, Columns, Filters, Returning>)
    ensures
        ({
            let update = statement.update_tree::<B>();
            &&& update.table == projection::table_of::<S>()
            &&& update.alias == statement.alias
            &&& update.columns == statement.columns.assignments()
            &&& update.filters == statement.filters.conditions()
            &&& update.returning == statement.returning.items()
        }),
{
}

/// A delete removes the rows of its table that meet its conditions, and gives back what it was asked
/// for.
pub proof fn law_delete_is_built<
    'conn,
    Conn,
    S: TableProjection,
    Filters: RenderPredicateNodes<B>,
    Returning: RenderProjectable<B>,
    B: Backend,
>(statement: DeleteStatement<'conn, Conn, S, Filters, Returning>)
    ensures
        ({
            let delete = statement.delete_tree::<B>();
            &&& delete.table == projection::table_of::<S>()
            &&& delete.alias == statement.alias
            &&& delete.filters == statement.filters.conditions()
            &&& delete.returning == statement.returning.items()
        }),
{
}

/// A table is named as its source is: in its schema, under its name.
pub proof fn law_table_is_named<S: TableProjection>()
    ensures
        projection::table_of::<S>().name@ == S::source_name()@,
        match (S::source_schema(), projection::table_of::<S>().schema) {
            (Some(schema), Some(label)) => label@ == schema@,
            (None, None) => true,
            _ => false,
        },
{
}

/// A set operation has its operands on their sides, and a group ends in its own tail.
pub proof fn law_set_is_built<
    L: RenderSetArm<B>,
    R: RenderSetArm<B> + SetArm<Row = L::Row>,
    B: Backend,
>(node: SetNode<L, R>, group: SetGroup<L>) where L::Params: HAppend<R::Params>
    ensures
        node.set_tree() matches SetTree::Node { left, op, right } && *left == node.left.set_tree()
            && op == node.op && *right == node.right.set_tree(),
        group.set_tree() matches SetTree::Group { tree, tail } && *tree == group.tree.set_tree()
            && tail == group.tail,
{
}

/// A source behind `FROM` and a crossed one have their alias and their table, and no condition.
pub proof fn law_plain_sources_are_built<S: QuerySource, B: Backend>(
    root: RootSource<S>,
    crossed: CrossJoinSource<S>,
)
    ensures
        ({
            let source = RenderSourceSpec::<B>::source_tree(&root);
            &&& source.alias == root.alias
            &&& source.table == projection::table_of::<S>()
            &&& source.join is Table
        }),
        ({
            let source = RenderSourceSpec::<B>::source_tree(&crossed);
            &&& source.alias == crossed.alias
            &&& source.table == projection::table_of::<S>()
            &&& source.join is Cross
        }),
{
}

/// A joined source has its alias, its table, its kind of join and its condition.
pub proof fn law_joined_sources_are_built<
    'scope,
    S: QuerySource,
    P: PredicateKind,
    Ast: RenderPredicateAst<B>,
    B: Backend,
>(
    inner: InnerJoinSource<'scope, S, P, Ast>,
    left: LeftJoinSource<'scope, S, P, Ast>,
    right: RightJoinSource<'scope, S, P, Ast>,
    full: FullJoinSource<'scope, S, P, Ast>,
)
    ensures
        ({
            let source = RenderSourceSpec::<B>::source_tree(&inner);
            &&& source.alias == inner.alias
            &&& source.table == projection::table_of::<S>()
            &&& source.join matches JoinTree::Inner(on) && on == inner.on.ast.condition()
        }),
        ({
            let source = RenderSourceSpec::<B>::source_tree(&left);
            &&& source.alias == left.alias
            &&& source.table == projection::table_of::<S>()
            &&& source.join matches JoinTree::Left(on) && on == left.on.ast.condition()
        }),
        ({
            let source = RenderSourceSpec::<B>::source_tree(&right);
            &&& source.alias == right.alias
            &&& source.table == projection::table_of::<S>()
            &&& source.join matches JoinTree::Right(on) && on == right.on.ast.condition()
        }),
        ({
            let source = RenderSourceSpec::<B>::source_tree(&full);
            &&& source.alias == full.alias
            &&& source.table == projection::table_of::<S>()
            &&& source.join matches JoinTree::Full(on) && on == full.on.ast.condition()
        }),
{
}

/// What is assigned is the value as the backend encodes it, the column's own default, or the
/// expression that was given.
pub proof fn law_values_are_built<
    'scope,
    T: Duplicate + Encode<B>,
    K,
    Ast: RenderAst<B>,
    B: Backend,
>(
    value: StaticAssignmentValue<T>,
    default: DefaultAssignmentValue,
    computed: ExprAssignmentValue<'scope, K, Ast>,
)
    ensures
        RenderAssignmentValue::<B>::value_tree(&value) matches ValueTree::Static(slot)
            && slot.outcome == value.value.encoded(),
        RenderAssignmentValue::<B>::value_tree(&default) is Default,
        RenderAssignmentValue::<B>::value_tree(&computed) matches ValueTree::Expr(expr) && expr
            == computed.expr.ast.tree(),
{
}

/// Rendering the parts of a statement one by one is rendering the statement: both are the same tree.
pub proof fn law_parts_are_the_statement<
    'conn,
    Conn,
    S: TableProjection,
    Rows: RenderInsertRows<B>,
    Columns: RenderUpdateAssignments<B>,
    Filters: RenderPredicateNodes<B>,
    Returning: RenderProjectable<B>,
    B: Backend,
>(
    insert: InsertStatement<'conn, Conn, S, Rows, Returning>,
    update: UpdateStatement<'conn, Conn, S, Columns, Filters, Returning>,
    delete: DeleteStatement<'conn, Conn, S, Filters, Returning>,
)
    ensures
        typed::insert_tree::<S, B, Rows, Returning>(insert.rows, insert.returning, insert.conflict)
            == insert.insert_tree::<B>(),
        typed::update_tree::<S, B, Columns, Filters, Returning>(
            update.alias,
            update.columns,
            update.filters,
            update.returning,
        ) == update.update_tree::<B>(),
        typed::delete_tree::<S, B, Filters, Returning>(
            delete.alias,
            delete.filters,
            delete.returning,
        ) == delete.delete_tree::<B>(),
{
}

/// The rows of a query are put into the columns that were named, in their order, and into the table
/// that was named.
pub proof fn law_insert_of_a_query_is_built<
    S: TableProjection,
    B: Backend,
    Tree: RenderSetArm<B>,
    Returning: RenderProjectable<B>,
>(columns: Seq<&'static str>, source: Tree, returning: Returning)
    ensures
        ({
            let insert = typed::insert_select_tree::<S, B, Tree, Returning>(
                columns,
                source,
                returning,
            );
            &&& insert.table == projection::table_of::<S>()
            &&& insert.source == source.set_tree()
            &&& insert.returning == returning.items()
            &&& insert.columns.seq().len() == columns.len()
            &&& forall|i: int|
                0 <= i < columns.len() ==> (#[trigger] insert.columns.seq()[i])@ == columns[i]@
        }),
{
    chain::lemma_of_seq(typed::column_labels(columns));
}

} // verus!
