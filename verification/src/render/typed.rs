//! Typed statements, rendered: each is lowered into its tree, and the tree is written.
use super::sink::PreparedSql;
use super::statement::{
    render_delete_tree, render_insert_tree, render_select_tree, render_set_tree,
    render_update_tree, write_delete_tree, write_delete_tree_params, write_insert_select_tree,
    write_insert_select_tree_params, write_insert_tree, write_insert_tree_params,
    write_select_tree, write_select_tree_params, write_set_tree, write_set_tree_params,
    write_update_tree, write_update_tree_params, RenderError,
};
use crate::backend::{Backend, Bound};
use crate::chain::List;
use crate::connection::QueryBuilder;
use crate::dialect::Dialect;
use crate::grammar;
use crate::label::Label;
use crate::ops::SourceAlias;
use crate::projection;
use crate::projection::{
    table_ref, InsertableTable, ProjectionShape, RenderProjectable, TableProjection,
    UpdateableTable,
};
use crate::query::assign::{RenderInsertRows, RenderPredicateNodes, RenderUpdateAssignments};
use crate::query::chain as steps;
use crate::query::chain::Selected;
use crate::query::select::RenderSelectAst;
use crate::query::set::RenderSetArm;
use crate::tokens;
use crate::tokens::Token;
use crate::tree::{
    ConflictClause, DeleteTree, InsertSelectTree, InsertTree, SetTail, UpdateTree,
};
use vstd::prelude::*;

verus! {

/// The tokens of a typed query: its `WITH` clause, which defines each common table expression of
/// its sources once, and its `SELECT`.
pub open spec fn selected_tokens<
    'conn,
    'scope,
    Conn: QueryBuilder + 'conn,
    Base: RenderSelectAst<'conn, 'scope, Conn, Conn::Backend>,
    Shape: ProjectionShape,
    Projection: RenderProjectable<Conn::Backend>,
    D: Dialect,
>(dialect: D, selected: Selected<'scope, Base, Shape, Projection>) -> Seq<
    Token<Bound<Conn::Backend>>,
> {
    grammar::select_statement_tokens(
        dialect,
        steps::first_named(selected.base.chain_ctes()),
        selected.select_tree::<Conn, Conn::Backend>(),
    )
}

/// The tree of an `INSERT` of typed rows into `S`.
pub open spec fn insert_tree<
    S: TableProjection,
    B: Backend,
    Rows: RenderInsertRows<B>,
    Returning: RenderProjectable<B>,
>(rows: Rows, returning: Returning, conflict: Option<ConflictClause>) -> InsertTree<Bound<B>> {
    InsertTree {
        table: projection::table_of::<S>(),
        rows: rows.rows(),
        conflict,
        returning: returning.items(),
    }
}

/// The tree of an `INSERT` of the rows of a typed query into `S`.
pub open spec fn insert_select_tree<
    S: TableProjection,
    B: Backend,
    Tree: RenderSetArm<B>,
    Returning: RenderProjectable<B>,
>(columns: Seq<&'static str>, source: Tree, returning: Returning) -> InsertSelectTree<Bound<B>> {
    InsertSelectTree {
        table: projection::table_of::<S>(),
        columns: List::of_seq(column_labels(columns)),
        source: source.set_tree(),
        returning: returning.items(),
    }
}

/// The tree of a typed `UPDATE` of `S`.
pub open spec fn update_tree<
    S: TableProjection,
    B: Backend,
    Columns: RenderUpdateAssignments<B>,
    Filters: RenderPredicateNodes<B>,
    Returning: RenderProjectable<B>,
>(alias: SourceAlias, columns: Columns, filters: Filters, returning: Returning) -> UpdateTree<
    Bound<B>,
> {
    UpdateTree {
        table: projection::table_of::<S>(),
        alias,
        columns: columns.assignments(),
        filters: filters.conditions(),
        returning: returning.items(),
    }
}

/// The tree of a typed `DELETE` from `S`.
pub open spec fn delete_tree<
    S: TableProjection,
    B: Backend,
    Filters: RenderPredicateNodes<B>,
    Returning: RenderProjectable<B>,
>(alias: SourceAlias, filters: Filters, returning: Returning) -> DeleteTree<Bound<B>> {
    DeleteTree {
        table: projection::table_of::<S>(),
        alias,
        filters: filters.conditions(),
        returning: returning.items(),
    }
}

/// The names of columns.
pub open spec fn column_labels(columns: Seq<&'static str>) -> Seq<Label> {
    Seq::new(columns.len(), |i: int| Label::Static(columns[i]))
}

/// The names of columns as a list.
fn label_list(columns: &[&'static str]) -> (labels: List<Label>)
    ensures
        labels == List::of_seq(column_labels(columns@)),
{
    let mut labels: Vec<Label> = Vec::new();
    let mut i: usize = 0;
    while i < columns.len()
        invariant
            i <= columns.len(),
            labels@ == column_labels(columns@).take(i as int),
        decreases columns.len() - i,
    {
        labels.push(Label::Static(columns[i]));
        i = i + 1;
        assert(labels@ =~= column_labels(columns@).take(i as int));
    }
    assert(column_labels(columns@).take(i as int) =~= column_labels(columns@));
    List::from_vec(labels)
}

/// Renders a query into a prepared statement, in place of what the buffer held.
pub fn render_selected_prepared<
    'conn,
    'scope,
    Conn: QueryBuilder + 'conn,
    Base: RenderSelectAst<'conn, 'scope, Conn, Conn::Backend>,
    Shape: ProjectionShape,
    Projection: RenderProjectable<Conn::Backend>,
    D: Dialect,
>(
    dialect: &D,
    selected: &Selected<'scope, Base, Shape, Projection>,
    buffer: &mut PreparedSql<Conn::Backend>,
)
    requires
        tokens::slots(
            selected_tokens::<Conn, Base, Shape, Projection, D>(*dialect, *selected),
        ) <= usize::MAX,
    ensures
        final(buffer).holds(
            tokens::emit(
                *dialect,
                selected_tokens::<Conn, Base, Shape, Projection, D>(*dialect, *selected),
            ),
        ),
{
    let ctes = selected.collect_ctes::<Conn>();
    render_select_tree::<Conn::Backend, D>(
        dialect,
        &ctes,
        selected.lower::<Conn, Conn::Backend>(),
        buffer,
    )
}

/// Writes the SQL text of a query.
pub fn write_selected_into<
    'conn,
    'scope,
    Conn: QueryBuilder + 'conn,
    Base: RenderSelectAst<'conn, 'scope, Conn, Conn::Backend>,
    Shape: ProjectionShape,
    Projection: RenderProjectable<Conn::Backend>,
    D: Dialect,
>(
    dialect: &D,
    selected: &Selected<'scope, Base, Shape, Projection>,
    out: &mut String,
)
    requires
        tokens::slots(
            selected_tokens::<Conn, Base, Shape, Projection, D>(*dialect, *selected),
        ) <= usize::MAX,
    ensures
        final(out)@ == old(out)@ + tokens::sql_text(
            *dialect,
            selected_tokens::<Conn, Base, Shape, Projection, D>(*dialect, *selected),
        ),
{
    let ctes = selected.collect_ctes::<Conn>();
    write_select_tree::<Conn::Backend, D>(
        dialect,
        &ctes,
        selected.lower::<Conn, Conn::Backend>(),
        out,
    )
}

/// Collects the bind parameters of a query: its literals, encoded in the order of their
/// placeholders, up to the first that cannot be encoded.
pub fn write_selected_params<
    'conn,
    'scope,
    Conn: QueryBuilder + 'conn,
    Base: RenderSelectAst<'conn, 'scope, Conn, Conn::Backend>,
    Shape: ProjectionShape,
    Projection: RenderProjectable<Conn::Backend>,
    D: Dialect,
>(
    dialect: &D,
    selected: &Selected<'scope, Base, Shape, Projection>,
    params: &mut Vec<<Conn::Backend as Backend>::Param>,
) -> (done: Result<(), <Conn::Backend as Backend>::Error>)
    requires
        tokens::slots(
            selected_tokens::<Conn, Base, Shape, Projection, D>(*dialect, *selected),
        ) <= usize::MAX,
    ensures
        final(params)@ == old(params)@ + tokens::literals(
            tokens::emit(
                *dialect,
                selected_tokens::<Conn, Base, Shape, Projection, D>(*dialect, *selected),
            ),
        ),
        match done {
            Ok(_) => tokens::first_error(
                tokens::emit(
                    *dialect,
                    selected_tokens::<Conn, Base, Shape, Projection, D>(*dialect, *selected),
                ),
            ) is None,
            Err(error) => tokens::first_error(
                tokens::emit(
                    *dialect,
                    selected_tokens::<Conn, Base, Shape, Projection, D>(*dialect, *selected),
                ),
            ) == Some(error),
        },
{
    let ctes = selected.collect_ctes::<Conn>();
    write_select_tree_params::<Conn::Backend, D>(
        dialect,
        &ctes,
        selected.lower::<Conn, Conn::Backend>(),
        params,
    )
}

/// Renders a set operation into a prepared statement, in place of what the buffer held.
pub fn render_set_prepared<
    B: Backend,
    Tree: RenderSetArm<B>,
    D: Dialect,
>(
    dialect: &D,
    tree: &Tree,
    tail: &SetTail,
    buffer: &mut PreparedSql<B>,
)
    requires
        tokens::slots(
            grammar::set_statement_tokens(*dialect, tree.set_tree(), *tail),
        ) <= usize::MAX,
        grammar::cte_names_agree(grammar::set_ctes(tree.set_tree()).seq()),
    ensures
        final(buffer).holds(
            tokens::emit(*dialect, grammar::set_statement_tokens(*dialect, tree.set_tree(), *tail)),
        ),
{
    render_set_tree::<B, D>(dialect, tree.lower_set(), tail, buffer)
}

/// Writes the SQL text of a set operation.
pub fn write_set_into<
    B: Backend,
    Tree: RenderSetArm<B>,
    D: Dialect,
>(
    dialect: &D,
    tree: &Tree,
    tail: &SetTail,
    out: &mut String,
)
    requires
        tokens::slots(
            grammar::set_statement_tokens(*dialect, tree.set_tree(), *tail),
        ) <= usize::MAX,
        grammar::cte_names_agree(grammar::set_ctes(tree.set_tree()).seq()),
    ensures
        final(out)@ == old(out)@ + tokens::sql_text(
            *dialect,
            grammar::set_statement_tokens(*dialect, tree.set_tree(), *tail),
        ),
{
    write_set_tree::<B, D>(dialect, tree.lower_set(), tail, out)
}

/// Collects the bind parameters of a set operation: its literals, encoded in the order of their
/// placeholders, up to the first that cannot be encoded.
pub fn write_set_params<
    B: Backend,
    Tree: RenderSetArm<B>,
    D: Dialect,
>(
    dialect: &D,
    tree: &Tree,
    tail: &SetTail,
    params: &mut Vec<<B as Backend>::Param>,
) -> (done: Result<(), <B as Backend>::Error>)
    requires
        tokens::slots(
            grammar::set_statement_tokens(*dialect, tree.set_tree(), *tail),
        ) <= usize::MAX,
        grammar::cte_names_agree(grammar::set_ctes(tree.set_tree()).seq()),
    ensures
        final(params)@ == old(params)@ + tokens::literals(
            tokens::emit(*dialect, grammar::set_statement_tokens(*dialect, tree.set_tree(), *tail)),
        ),
        match done {
            Ok(_) => tokens::first_error(
                tokens::emit(
                    *dialect,
                    grammar::set_statement_tokens(*dialect, tree.set_tree(), *tail),
                ),
            ) is None,
            Err(error) => tokens::first_error(
                tokens::emit(
                    *dialect,
                    grammar::set_statement_tokens(*dialect, tree.set_tree(), *tail),
                ),
            ) == Some(error),
        },
{
    write_set_tree_params::<B, D>(dialect, tree.lower_set(), tail, params)
}

/// Renders an `INSERT` of rows into a prepared statement, in place of what the buffer held.
pub fn render_insert_prepared<
    S: InsertableTable,
    B: Backend,
    Rows: RenderInsertRows<B>,
    Returning: RenderProjectable<B>,
    D: Dialect,
>(
    dialect: &D,
    rows: &Rows,
    returning: &Returning,
    conflict: Option<ConflictClause>,
    buffer: &mut PreparedSql<B>,
)
    requires
        tokens::slots(
            grammar::insert_tokens(
                *dialect,
                insert_tree::<S, B, Rows, Returning>(*rows, *returning, conflict),
            ),
        ) <= usize::MAX,
        grammar::insert_rows_agree(
            insert_tree::<S, B, Rows, Returning>(*rows, *returning, conflict),
        ),
    ensures
        final(buffer).holds(
            tokens::emit(
                *dialect,
                grammar::insert_tokens(
                    *dialect,
                    insert_tree::<S, B, Rows, Returning>(*rows, *returning, conflict),
                ),
            ),
        ),
{
    let insert = InsertTree {
        table: table_ref::<S>(),
        rows: rows.lower_rows(),
        conflict,
        returning: returning.lower_projection(),
    };
    render_insert_tree::<B, D>(dialect, insert, buffer)
}

/// Writes the SQL text of an `INSERT` of rows. A row that does not assign as many columns as the
/// first is an error; what stands before it has been written by then.
pub fn write_insert<
    S: InsertableTable,
    B: Backend,
    Rows: RenderInsertRows<B>,
    Returning: RenderProjectable<B>,
    D: Dialect,
>(
    dialect: &D,
    rows: &Rows,
    returning: &Returning,
    conflict: Option<ConflictClause>,
    out: &mut String,
) -> (done: Result<(), RenderError>)
    requires
        tokens::slots(
            grammar::insert_written_tokens(
                *dialect,
                insert_tree::<S, B, Rows, Returning>(*rows, *returning, conflict),
            ),
        ) <= usize::MAX,
    ensures
        final(out)@ == old(out)@ + tokens::sql_text(
            *dialect,
            grammar::insert_written_tokens(
                *dialect,
                insert_tree::<S, B, Rows, Returning>(*rows, *returning, conflict),
            ),
        ),
        match done {
            Ok(_) => grammar::insert_rows_agree(
                insert_tree::<S, B, Rows, Returning>(*rows, *returning, conflict),
            ),
            Err(RenderError::MismatchedRow) => !grammar::insert_rows_agree(
                insert_tree::<S, B, Rows, Returning>(*rows, *returning, conflict),
            ),
        },
{
    let insert = InsertTree {
        table: table_ref::<S>(),
        rows: rows.lower_rows(),
        conflict,
        returning: returning.lower_projection(),
    };
    write_insert_tree::<B, D>(dialect, insert, out)
}

/// Collects the bind parameters of an `INSERT` of rows: its literals, encoded in the order of their
/// placeholders, up to the first that cannot be encoded.
pub fn write_insert_params<
    S: InsertableTable,
    B: Backend,
    Rows: RenderInsertRows<B>,
    Returning: RenderProjectable<B>,
    D: Dialect,
>(
    dialect: &D,
    rows: &Rows,
    returning: &Returning,
    conflict: Option<ConflictClause>,
    params: &mut Vec<<B as Backend>::Param>,
) -> (done: Result<(), <B as Backend>::Error>)
    requires
        tokens::slots(
            grammar::insert_tokens(
                *dialect,
                insert_tree::<S, B, Rows, Returning>(*rows, *returning, conflict),
            ),
        ) <= usize::MAX,
        grammar::insert_rows_agree(
            insert_tree::<S, B, Rows, Returning>(*rows, *returning, conflict),
        ),
    ensures
        final(params)@ == old(params)@ + tokens::literals(
            tokens::emit(
                *dialect,
                grammar::insert_tokens(
                    *dialect,
                    insert_tree::<S, B, Rows, Returning>(*rows, *returning, conflict),
                ),
            ),
        ),
        match done {
            Ok(_) => tokens::first_error(
                tokens::emit(
                    *dialect,
                    grammar::insert_tokens(
                        *dialect,
                        insert_tree::<S, B, Rows, Returning>(*rows, *returning, conflict),
                    ),
                ),
            ) is None,
            Err(error) => tokens::first_error(
                tokens::emit(
                    *dialect,
                    grammar::insert_tokens(
                        *dialect,
                        insert_tree::<S, B, Rows, Returning>(*rows, *returning, conflict),
                    ),
                ),
            ) == Some(error),
        },
{
    let insert = InsertTree {
        table: table_ref::<S>(),
        rows: rows.lower_rows(),
        conflict,
        returning: returning.lower_projection(),
    };
    write_insert_tree_params::<B, D>(dialect, insert, params)
}

/// Writes the SQL text of an `INSERT` of the rows of a query.
pub fn write_insert_select<
    S: InsertableTable,
    B: Backend,
    Tree: RenderSetArm<B>,
    Returning: RenderProjectable<B>,
    D: Dialect,
>(
    dialect: &D,
    columns: &[&'static str],
    source: &Tree,
    returning: &Returning,
    out: &mut String,
)
    requires
        tokens::slots(
            grammar::insert_select_tokens(
                *dialect,
                insert_select_tree::<S, B, Tree, Returning>(columns@, *source, *returning),
            ),
        ) <= usize::MAX,
        grammar::cte_names_agree(grammar::set_ctes(source.set_tree()).seq()),
    ensures
        final(out)@ == old(out)@ + tokens::sql_text(
            *dialect,
            grammar::insert_select_tokens(
                *dialect,
                insert_select_tree::<S, B, Tree, Returning>(columns@, *source, *returning),
            ),
        ),
{
    let insert = InsertSelectTree {
        table: table_ref::<S>(),
        columns: label_list(columns),
        source: source.lower_set(),
        returning: returning.lower_projection(),
    };
    write_insert_select_tree::<B, D>(dialect, insert, out)
}

/// Collects the bind parameters of an `INSERT` of the rows of a query: its literals, encoded in the
/// order of their placeholders, up to the first that cannot be encoded.
pub fn write_insert_select_params<
    S: InsertableTable,
    B: Backend,
    Tree: RenderSetArm<B>,
    Returning: RenderProjectable<B>,
    D: Dialect,
>(
    dialect: &D,
    columns: &[&'static str],
    source: &Tree,
    returning: &Returning,
    params: &mut Vec<<B as Backend>::Param>,
) -> (done: Result<(), <B as Backend>::Error>)
    requires
        tokens::slots(
            grammar::insert_select_tokens(
                *dialect,
                insert_select_tree::<S, B, Tree, Returning>(columns@, *source, *returning),
            ),
        ) <= usize::MAX,
        grammar::cte_names_agree(grammar::set_ctes(source.set_tree()).seq()),
    ensures
        final(params)@ == old(params)@ + tokens::literals(
            tokens::emit(
                *dialect,
                grammar::insert_select_tokens(
                    *dialect,
                    insert_select_tree::<S, B, Tree, Returning>(columns@, *source, *returning),
                ),
            ),
        ),
        match done {
            Ok(_) => tokens::first_error(
                tokens::emit(
                    *dialect,
                    grammar::insert_select_tokens(
                        *dialect,
                        insert_select_tree::<S, B, Tree, Returning>(columns@, *source, *returning),
                    ),
                ),
            ) is None,
            Err(error) => tokens::first_error(
                tokens::emit(
                    *dialect,
                    grammar::insert_select_tokens(
                        *dialect,
                        insert_select_tree::<S, B, Tree, Returning>(columns@, *source, *returning),
                    ),
                ),
            ) == Some(error),
        },
{
    let insert = InsertSelectTree {
        table: table_ref::<S>(),
        columns: label_list(columns),
        source: source.lower_set(),
        returning: returning.lower_projection(),
    };
    write_insert_select_tree_params::<B, D>(dialect, insert, params)
}

/// Renders an `UPDATE` into a prepared statement, in place of what the buffer held.
pub fn render_update_prepared<
    S: UpdateableTable,
    B: Backend,
    Columns: RenderUpdateAssignments<B>,
    Filters: RenderPredicateNodes<B>,
    Returning: RenderProjectable<B>,
    D: Dialect,
>(
    dialect: &D,
    alias: SourceAlias,
    columns: &Columns,
    filters: &Filters,
    returning: &Returning,
    buffer: &mut PreparedSql<B>,
)
    requires
        tokens::slots(
            grammar::update_tokens(
                *dialect,
                update_tree::<S, B, Columns, Filters, Returning>(
                    alias,
                    *columns,
                    *filters,
                    *returning,
                ),
            ),
        ) <= usize::MAX,
    ensures
        final(buffer).holds(
            tokens::emit(
                *dialect,
                grammar::update_tokens(
                    *dialect,
                    update_tree::<S, B, Columns, Filters, Returning>(
                        alias,
                        *columns,
                        *filters,
                        *returning,
                    ),
                ),
            ),
        ),
{
    let update = UpdateTree {
        table: table_ref::<S>(),
        alias,
        columns: columns.lower_assignments(),
        filters: filters.lower_conditions(),
        returning: returning.lower_projection(),
    };
    render_update_tree::<B, D>(dialect, update, buffer)
}

/// Writes the SQL text of an `UPDATE`.
pub fn write_update<
    S: UpdateableTable,
    B: Backend,
    Columns: RenderUpdateAssignments<B>,
    Filters: RenderPredicateNodes<B>,
    Returning: RenderProjectable<B>,
    D: Dialect,
>(
    dialect: &D,
    alias: SourceAlias,
    columns: &Columns,
    filters: &Filters,
    returning: &Returning,
    out: &mut String,
)
    requires
        tokens::slots(
            grammar::update_tokens(
                *dialect,
                update_tree::<S, B, Columns, Filters, Returning>(
                    alias,
                    *columns,
                    *filters,
                    *returning,
                ),
            ),
        ) <= usize::MAX,
    ensures
        final(out)@ == old(out)@ + tokens::sql_text(
            *dialect,
            grammar::update_tokens(
                *dialect,
                update_tree::<S, B, Columns, Filters, Returning>(
                    alias,
                    *columns,
                    *filters,
                    *returning,
                ),
            ),
        ),
{
    let update = UpdateTree {
        table: table_ref::<S>(),
        alias,
        columns: columns.lower_assignments(),
        filters: filters.lower_conditions(),
        returning: returning.lower_projection(),
    };
    write_update_tree::<B, D>(dialect, update, out)
}

/// Collects the bind parameters of an `UPDATE`: its literals, encoded in the order of their
/// placeholders, up to the first that cannot be encoded.
pub fn write_update_params<
    S: UpdateableTable,
    B: Backend,
    Columns: RenderUpdateAssignments<B>,
    Filters: RenderPredicateNodes<B>,
    Returning: RenderProjectable<B>,
    D: Dialect,
>(
    dialect: &D,
    alias: SourceAlias,
    columns: &Columns,
    filters: &Filters,
    returning: &Returning,
    params: &mut Vec<<B as Backend>::Param>,
) -> (done: Result<(), <B as Backend>::Error>)
    requires
        tokens::slots(
            grammar::update_tokens(
                *dialect,
                update_tree::<S, B, Columns, Filters, Returning>(
                    alias,
                    *columns,
                    *filters,
                    *returning,
                ),
            ),
        ) <= usize::MAX,
    ensures
        final(params)@ == old(params)@ + tokens::literals(
            tokens::emit(
                *dialect,
                grammar::update_tokens(
                    *dialect,
                    update_tree::<S, B, Columns, Filters, Returning>(
                        alias,
                        *columns,
                        *filters,
                        *returning,
                    ),
                ),
            ),
        ),
        match done {
            Ok(_) => tokens::first_error(
                tokens::emit(
                    *dialect,
                    grammar::update_tokens(
                        *dialect,
                        update_tree::<S, B, Columns, Filters, Returning>(
                            alias,
                            *columns,
                            *filters,
                            *returning,
                        ),
                    ),
                ),
            ) is None,
            Err(error) => tokens::first_error(
                tokens::emit(
                    *dialect,
                    grammar::update_tokens(
                        *dialect,
                        update_tree::<S, B, Columns, Filters, Returning>(
                            alias,
                            *columns,
                            *filters,
                            *returning,
                        ),
                    ),
                ),
            ) == Some(error),
        },
{
    let update = UpdateTree {
        table: table_ref::<S>(),
        alias,
        columns: columns.lower_assignments(),
        filters: filters.lower_conditions(),
        returning: returning.lower_projection(),
    };
    write_update_tree_params::<B, D>(dialect, update, params)
}

/// Renders a `DELETE` into a prepared statement, in place of what the buffer held.
pub fn render_delete_prepared<
    S: TableProjection,
    B: Backend,
    Filters: RenderPredicateNodes<B>,
    Returning: RenderProjectable<B>,
    D: Dialect,
>(
    dialect: &D,
    alias: SourceAlias,
    filters: &Filters,
    returning: &Returning,
    buffer: &mut PreparedSql<B>,
)
    requires
        tokens::slots(
            grammar::delete_tokens(
                *dialect,
                delete_tree::<S, B, Filters, Returning>(alias, *filters, *returning),
            ),
        ) <= usize::MAX,
    ensures
        final(buffer).holds(
            tokens::emit(
                *dialect,
                grammar::delete_tokens(
                    *dialect,
                    delete_tree::<S, B, Filters, Returning>(alias, *filters, *returning),
                ),
            ),
        ),
{
    let delete = DeleteTree {
        table: table_ref::<S>(),
        alias,
        filters: filters.lower_conditions(),
        returning: returning.lower_projection(),
    };
    render_delete_tree::<B, D>(dialect, delete, buffer)
}

/// Writes the SQL text of a `DELETE`.
pub fn write_delete<
    S: TableProjection,
    B: Backend,
    Filters: RenderPredicateNodes<B>,
    Returning: RenderProjectable<B>,
    D: Dialect,
>(
    dialect: &D,
    alias: SourceAlias,
    filters: &Filters,
    returning: &Returning,
    out: &mut String,
)
    requires
        tokens::slots(
            grammar::delete_tokens(
                *dialect,
                delete_tree::<S, B, Filters, Returning>(alias, *filters, *returning),
            ),
        ) <= usize::MAX,
    ensures
        final(out)@ == old(out)@ + tokens::sql_text(
            *dialect,
            grammar::delete_tokens(
                *dialect,
                delete_tree::<S, B, Filters, Returning>(alias, *filters, *returning),
            ),
        ),
{
    let delete = DeleteTree {
        table: table_ref::<S>(),
        alias,
        filters: filters.lower_conditions(),
        returning: returning.lower_projection(),
    };
    write_delete_tree::<B, D>(dialect, delete, out)
}

/// Collects the bind parameters of a `DELETE`: its literals, encoded in the order of their
/// placeholders, up to the first that cannot be encoded.
pub fn write_delete_params<
    S: TableProjection,
    B: Backend,
    Filters: RenderPredicateNodes<B>,
    Returning: RenderProjectable<B>,
    D: Dialect,
>(
    dialect: &D,
    alias: SourceAlias,
    filters: &Filters,
    returning: &Returning,
    params: &mut Vec<<B as Backend>::Param>,
) -> (done: Result<(), <B as Backend>::Error>)
    requires
        tokens::slots(
            grammar::delete_tokens(
                *dialect,
                delete_tree::<S, B, Filters, Returning>(alias, *filters, *returning),
            ),
        ) <= usize::MAX,
    ensures
        final(params)@ == old(params)@ + tokens::literals(
            tokens::emit(
                *dialect,
                grammar::delete_tokens(
                    *dialect,
                    delete_tree::<S, B, Filters, Returning>(alias, *filters, *returning),
                ),
            ),
        ),
        match done {
            Ok(_) => tokens::first_error(
                tokens::emit(
                    *dialect,
                    grammar::delete_tokens(
                        *dialect,
                        delete_tree::<S, B, Filters, Returning>(alias, *filters, *returning),
                    ),
                ),
            ) is None,
            Err(error) => tokens::first_error(
                tokens::emit(
                    *dialect,
                    grammar::delete_tokens(
                        *dialect,
                        delete_tree::<S, B, Filters, Returning>(alias, *filters, *returning),
                    ),
                ),
            ) == Some(error),
        },
{
    let delete = DeleteTree {
        table: table_ref::<S>(),
        alias,
        filters: filters.lower_conditions(),
        returning: returning.lower_projection(),
    };
    write_delete_tree_params::<B, D>(dialect, delete, params)
}

} // verus!
