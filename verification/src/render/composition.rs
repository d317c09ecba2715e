//! How statements are composed: each clause stands where SQL wants it, behind the statement that ends
//! before it.
use crate::chain;
use crate::chain::List;
use crate::dialect;
use crate::dialect::Dialect;
use crate::grammar;
use crate::label::Label;
use crate::ops;
use crate::ops::SetOp;
use crate::render::counting;
use crate::render::spelling;
use crate::text;
use crate::tokens;
use crate::tokens::Token;
use crate::tree::{
    AssignmentTree, ConflictAction, ConflictClause, CteDef, DeleteTree, InsertSelectTree,
    InsertTree, SelectTree, SetOrder, SetTail, SetTree, TableRef, UpdateTree, ValueTree,
};
use vstd::prelude::*;

verus! {

broadcast use {
    crate::tokens::lemma_tokens_empty,
    crate::tokens::lemma_empty_tokens,
    crate::tokens::lemma_chars_empty,
    crate::render::counting::lemma_no_more_text,
    crate::render::counting::lemma_no_text_before,
};

/// What `part` adds behind `whole`: its text, counting on from there, and what it binds.
pub open spec fn adds<D: Dialect, L>(
    dialect: D,
    first: nat,
    whole: Seq<Token<L>>,
    before: Seq<Token<L>>,
    part: Seq<Token<L>>,
) -> bool {
    &&& counting::text_at(dialect, first, whole) == counting::text_at(dialect, first, before)
        + counting::text_at(dialect, first + tokens::slots(before), part)
    &&& counting::slot_list(whole) == counting::slot_list(before) + counting::slot_list(part)
}

proof fn lemma_adds<D: Dialect, L>(
    dialect: D,
    first: nat,
    whole: Seq<Token<L>>,
    before: Seq<Token<L>>,
    part: Seq<Token<L>>,
)
    requires
        whole == before + part,
    ensures
        adds(dialect, first, whole, before, part),
{
    counting::lemma_join(dialect, first, before, part);
}

/// The tokens of a `SELECT`, clause behind clause.
proof fn lemma_select_parts<D: Dialect, L>(dialect: D, select: SelectTree<L>)
    ensures
        grammar::select_tokens(dialect, select) == tokens::chars(
            if select.distinct {
                "SELECT DISTINCT "@
            } else {
                "SELECT "@
            },
        ) + grammar::projection_tokens(dialect, false, Seq::empty(), select.projection)
            + grammar::source_list_tokens(dialect, true, select.sources)
            + grammar::predicate_list_tokens(dialect, " WHERE "@, select.filters)
            + grammar::expr_list_tokens(dialect, false, " GROUP BY "@, select.groups)
            + grammar::predicate_list_tokens(dialect, " HAVING "@, select.havings)
            + grammar::order_list_tokens(dialect, " ORDER BY "@, select.orders) + tokens::chars(
            dialect.limit_offset_text(select.limit, select.offset) + (match select.row_lock {
                Some(lock) => dialect.row_lock_text(lock),
                None => Seq::empty(),
            }),
        ),
{
    let head = grammar::select_head_tokens(dialect, select);
    let filters = grammar::predicate_list_tokens(dialect, " WHERE "@, select.filters);
    let groups = grammar::expr_list_tokens(dialect, false, " GROUP BY "@, select.groups);
    let havings = grammar::predicate_list_tokens(dialect, " HAVING "@, select.havings);
    counting::lemma_regroup(head, filters, groups, havings);
}

/// Whether a dialect writes nothing where a query has no bounds.
pub open spec fn unbounded_is_silent<D: Dialect>(dialect: D) -> bool {
    dialect.limit_offset_text(None, None) == Seq::<char>::empty()
}

/// `SELECT`, the projection and nothing else.
pub open spec fn only_projected<L>(select: SelectTree<L>) -> SelectTree<L> {
    SelectTree {
        distinct: select.distinct,
        projection: select.projection,
        sources: List::Nil,
        filters: List::Nil,
        groups: List::Nil,
        havings: List::Nil,
        orders: List::Nil,
        limit: None,
        offset: None,
        row_lock: None,
    }
}

/// The clauses of a query stand in the order that SQL prescribes: the projection, the sources,
/// `WHERE`, `GROUP BY`, `HAVING`, `ORDER BY`, the bounds and the row lock. The query up to a clause is
/// written as it is without what follows, and the clause is added behind it.
pub proof fn law_select_clauses<D: Dialect, L>(dialect: D, first: nat, select: SelectTree<L>)
    requires
        unbounded_is_silent(dialect),
    ensures
        ({
            let projected = only_projected(select);
            let sourced = SelectTree { sources: select.sources, ..projected };
            let filtered = SelectTree { filters: select.filters, ..sourced };
            let grouped = SelectTree { groups: select.groups, ..filtered };
            let having = SelectTree { havings: select.havings, ..grouped };
            let ordered = SelectTree { orders: select.orders, ..having };
            let of = |s: SelectTree<L>| grammar::select_tokens(dialect, s);
            &&& spelling::select_sql(dialect, first, projected) == (if select.distinct {
                "SELECT DISTINCT "@
            } else {
                "SELECT "@
            }) + counting::text_at(
                dialect,
                first,
                grammar::projection_tokens(dialect, false, Seq::empty(), select.projection),
            )
            &&& spelling::select_slots(dialect, projected) == counting::slot_list(
                grammar::projection_tokens(dialect, false, Seq::empty(), select.projection),
            )
            &&& adds(
                dialect,
                first,
                of(sourced),
                of(projected),
                grammar::source_list_tokens(dialect, true, select.sources),
            )
            &&& adds(
                dialect,
                first,
                of(filtered),
                of(sourced),
                grammar::predicate_list_tokens(dialect, " WHERE "@, select.filters),
            )
            &&& adds(
                dialect,
                first,
                of(grouped),
                of(filtered),
                grammar::expr_list_tokens(dialect, false, " GROUP BY "@, select.groups),
            )
            &&& adds(
                dialect,
                first,
                of(having),
                of(grouped),
                grammar::predicate_list_tokens(dialect, " HAVING "@, select.havings),
            )
            &&& adds(
                dialect,
                first,
                of(ordered),
                of(having),
                grammar::order_list_tokens(dialect, " ORDER BY "@, select.orders),
            )
            &&& spelling::select_sql(dialect, first, select) == spelling::select_sql(
                dialect,
                first,
                ordered,
            ) + (dialect.limit_offset_text(select.limit, select.offset) + (match select.row_lock {
                Some(lock) => dialect.row_lock_text(lock),
                None => Seq::empty(),
            }))
            &&& spelling::select_slots(dialect, select) == spelling::select_slots(dialect, ordered)
        }),
{
    let projected = only_projected(select);
    let sourced = SelectTree { sources: select.sources, ..projected };
    let filtered = SelectTree { filters: select.filters, ..sourced };
    let grouped = SelectTree { groups: select.groups, ..filtered };
    let having = SelectTree { havings: select.havings, ..grouped };
    let ordered = SelectTree { orders: select.orders, ..having };
    lemma_select_parts(dialect, projected);
    lemma_select_parts(dialect, sourced);
    lemma_select_parts(dialect, filtered);
    lemma_select_parts(dialect, grouped);
    lemma_select_parts(dialect, having);
    lemma_select_parts(dialect, ordered);
    lemma_select_parts(dialect, select);
    lemma_empty_clauses::<D, L>(dialect);
    let lead = if select.distinct {
        "SELECT DISTINCT "@
    } else {
        "SELECT "@
    };
    let t0 = tokens::chars::<L>(lead);
    let t1 = grammar::projection_tokens(dialect, false, Seq::empty(), select.projection);
    let t2 = grammar::source_list_tokens(dialect, true, select.sources);
    let t3 = grammar::predicate_list_tokens(dialect, " WHERE "@, select.filters);
    let t4 = grammar::expr_list_tokens(dialect, false, " GROUP BY "@, select.groups);
    let t5 = grammar::predicate_list_tokens(dialect, " HAVING "@, select.havings);
    let t6 = grammar::order_list_tokens(dialect, " ORDER BY "@, select.orders);
    let end = dialect.limit_offset_text(select.limit, select.offset) + (match select.row_lock {
        Some(lock) => dialect.row_lock_text(lock),
        None => Seq::empty(),
    });
    counting::lemma_piece::<D, L>(dialect, lead);
    counting::lemma_piece::<D, L>(dialect, end);
    assert(grammar::select_tokens(dialect, projected) == t0 + t1);
    assert(grammar::select_tokens(dialect, sourced) == t0 + t1 + t2);
    assert(grammar::select_tokens(dialect, filtered) == t0 + t1 + t2 + t3);
    assert(grammar::select_tokens(dialect, grouped) == t0 + t1 + t2 + t3 + t4);
    assert(grammar::select_tokens(dialect, having) == t0 + t1 + t2 + t3 + t4 + t5);
    assert(grammar::select_tokens(dialect, ordered) == t0 + t1 + t2 + t3 + t4 + t5 + t6);
    counting::lemma_join(dialect, first, t0, t1);
    lemma_adds(dialect, first, t0 + t1 + t2, t0 + t1, t2);
    lemma_adds(dialect, first, t0 + t1 + t2 + t3, t0 + t1 + t2, t3);
    lemma_adds(dialect, first, t0 + t1 + t2 + t3 + t4, t0 + t1 + t2 + t3, t4);
    lemma_adds(dialect, first, t0 + t1 + t2 + t3 + t4 + t5, t0 + t1 + t2 + t3 + t4, t5);
    lemma_adds(
        dialect,
        first,
        t0 + t1 + t2 + t3 + t4 + t5 + t6,
        t0 + t1 + t2 + t3 + t4 + t5,
        t6,
    );
    counting::lemma_join(
        dialect,
        first,
        t0 + t1 + t2 + t3 + t4 + t5 + t6,
        tokens::chars::<L>(end),
    );
}

proof fn lemma_empty_clauses<D: Dialect, L>(dialect: D)
    ensures
        grammar::source_list_tokens::<D, L>(dialect, true, List::Nil) == Seq::<Token<L>>::empty(),
        grammar::predicate_list_tokens::<D, L>(dialect, " WHERE "@, List::Nil) == Seq::<
            Token<L>,
        >::empty(),
        grammar::expr_list_tokens::<D, L>(dialect, false, " GROUP BY "@, List::Nil) == Seq::<
            Token<L>,
        >::empty(),
        grammar::predicate_list_tokens::<D, L>(dialect, " HAVING "@, List::Nil) == Seq::<
            Token<L>,
        >::empty(),
        grammar::order_list_tokens::<D, L>(dialect, " ORDER BY "@, List::Nil) == Seq::<
            Token<L>,
        >::empty(),
        grammar::projection_tokens::<D, L>(dialect, true, " RETURNING "@, List::Nil) == Seq::<
            Token<L>,
        >::empty(),
        grammar::projection_tokens::<D, L>(dialect, false, " RETURNING "@, List::Nil) == Seq::<
            Token<L>,
        >::empty(),
{
}

/// The text and the slots of a plain value, of `DEFAULT` and of a parameter; an expression is itself.
pub proof fn law_assigned_value<D: Dialect, L>(dialect: D, first: nat, value: ValueTree<L>)
    ensures
        ({
            let whole = grammar::value_tokens(dialect, value);
            let text = counting::text_at(dialect, first, whole);
            let slots = counting::slot_list(whole);
            match value {
                ValueTree::Static(literal) => text == dialect.placeholder_text(first) && slots
                    == seq![Token::Literal(literal)],
                ValueTree::Default => text == "DEFAULT"@ && slots == Seq::<Token<L>>::empty(),
                ValueTree::Runtime => text == dialect.placeholder_text(first) && slots == seq![
                    Token::<L>::Runtime,
                ],
                ValueTree::Expr(expr) => text == spelling::expr_sql(dialect, false, first, expr)
                    && slots == spelling::expr_slots(dialect, false, expr),
            }
        }),
{
    match value {
        ValueTree::Static(literal) => {
            counting::lemma_slot(dialect, Token::Literal(literal));
        },
        ValueTree::Default => {
            counting::lemma_piece::<D, L>(dialect, "DEFAULT"@);
        },
        ValueTree::Runtime => {
            counting::lemma_slot(dialect, Token::<L>::Runtime);
        },
        ValueTree::Expr(_) => {},
    }
}

/// In an `INSERT` the conflict clause stands behind the rows, and `RETURNING` behind that: the text of
/// an upsert that returns columns is the text of the same upsert that returns none, followed by the
/// `RETURNING` list, and the text of an upsert is the text of the plain `INSERT`, followed by its
/// conflict clause.
pub proof fn law_insert_clauses<D: Dialect, L>(dialect: D, first: nat, insert: InsertTree<L>)
    ensures
        ({
            let silent = InsertTree { returning: List::Nil, ..insert };
            let plain = InsertTree { conflict: None, ..silent };
            &&& adds(
                dialect,
                first,
                grammar::insert_tokens(dialect, insert),
                grammar::insert_tokens(dialect, silent),
                grammar::projection_tokens(dialect, true, " RETURNING "@, insert.returning),
            )
            &&& counting::text_at(dialect, first, grammar::insert_tokens(dialect, silent))
                == counting::text_at(dialect, first, grammar::insert_tokens(dialect, plain)) + (
            match insert.conflict {
                Some(clause) => grammar::conflict_text(
                    dialect,
                    clause,
                    grammar::insert_columns(insert.rows),
                ),
                None => Seq::empty(),
            })
            &&& counting::slot_list(grammar::insert_tokens(dialect, silent)) == counting::slot_list(
                grammar::insert_tokens(dialect, plain),
            )
            &&& grammar::insert_rows_agree(insert) ==> grammar::insert_written_tokens(
                dialect,
                insert,
            ) == grammar::insert_tokens(dialect, insert)
            &&& !grammar::insert_rows_agree(insert) ==> grammar::insert_written_tokens(
                dialect,
                insert,
            ) == grammar::insert_tokens(dialect, plain)
        }),
{
    lemma_empty_clauses::<D, L>(dialect);
    let conflict = match insert.conflict {
        Some(clause) => grammar::conflict_text(
            dialect,
            clause,
            grammar::insert_columns(insert.rows),
        ),
        None => Seq::empty(),
    };
    let silent = InsertTree { returning: List::Nil, ..insert };
    let plain = InsertTree { conflict: None, ..silent };
    let values = grammar::insert_values_tokens(dialect, insert.table, insert.rows);
    let clause = tokens::chars::<L>(conflict);
    let returning = grammar::projection_tokens(dialect, true, " RETURNING "@, insert.returning);
    assert(grammar::insert_tokens(dialect, plain) == values);
    assert(grammar::insert_tokens(dialect, silent) == values + clause);
    counting::lemma_piece::<D, L>(dialect, conflict);
    counting::lemma_join(dialect, first, values, clause);
    lemma_adds(dialect, first, values + clause + returning, values + clause, returning);
}

/// A plain `INSERT` names its table, its columns and then its rows. One row without columns takes the
/// dialect's form for a row of defaults.
pub proof fn law_plain_insert<D: Dialect, L>(
    dialect: D,
    first: nat,
    table: TableRef,
    rows: List<List<AssignmentTree<L>>>,
)
    ensures
        ({
            let plain = InsertTree { table, rows, conflict: None, returning: List::Nil };
            let text = counting::text_at(dialect, first, grammar::insert_tokens(dialect, plain));
            let slots = counting::slot_list(grammar::insert_tokens(dialect, plain));
            let columns = grammar::insert_columns(rows);
            let whole = grammar::agreeing_rows(columns.seq().len(), rows);
            if rows.seq().len() == 1 && rows.seq()[0].seq().len() == 0 {
                &&& text == "INSERT INTO "@ + grammar::table_text(dialect, table)
                    + dialect.default_row_text()
                &&& slots == Seq::<Token<L>>::empty()
            } else {
                &&& text == ("INSERT INTO "@ + grammar::table_text(dialect, table) + " ("@
                    + grammar::ident_list_text(dialect, true, columns) + ") VALUES "@)
                    + counting::text_at(dialect, first, grammar::rows_tokens(dialect, true, whole))
                &&& slots == counting::slot_list(grammar::rows_tokens(dialect, true, whole))
            }
        }),
{
    lemma_empty_clauses::<D, L>(dialect);
    let columns = grammar::insert_columns(rows);
    let whole = grammar::agreeing_rows(columns.seq().len(), rows);
    if let List::Cons { head, tail } = rows {
        assert(rows.seq() == seq![*head] + tail.seq());
        assert(tail.seq().len() == 0 <==> *tail is Nil);
        assert(head.seq().len() == 0 <==> *head is Nil);
        assert(rows.seq()[0] == *head);
    }
    assert(grammar::is_default_row(rows) <==> rows.seq().len() == 1 && rows.seq()[0].seq().len()
        == 0);
    let default_text = "INSERT INTO "@ + grammar::table_text(dialect, table)
        + dialect.default_row_text();
    let lead = "INSERT INTO "@ + grammar::table_text(dialect, table) + " ("@
        + grammar::ident_list_text(dialect, true, columns) + ") VALUES "@;
    counting::lemma_piece::<D, L>(dialect, default_text);
    counting::lemma_piece::<D, L>(dialect, lead);
    counting::lemma_join(
        dialect,
        first,
        tokens::chars::<L>(lead),
        grammar::rows_tokens(dialect, true, whole),
    );
}

/// The columns of an `INSERT` are those that its first row assigns, in their order.
pub proof fn law_inserted_columns<L>(row: List<AssignmentTree<L>>)
    ensures
        grammar::column_labels(row).seq().len() == row.seq().len(),
        forall|i: int|
            0 <= i < row.seq().len() ==> (#[trigger] grammar::column_labels(row).seq()[i])
                == row.seq()[i].column,
    decreases row,
{
    if let List::Cons { head, tail } = row {
        law_inserted_columns(*tail);
        assert forall|i: int| 0 <= i < row.seq().len() implies (#[trigger] grammar::column_labels(
            row,
        ).seq()[i]) == row.seq()[i].column by {
            if i > 0 {
                assert(row.seq()[i] == tail.seq()[i - 1]);
                assert(grammar::column_labels(row).seq()[i] == grammar::column_labels(
                    *tail,
                ).seq()[i - 1]);
            }
        }
    }
}

/// Rows are written up to the first that does not assign as many columns as it should, and the rows
/// of an `INSERT` agree exactly where there is no such row.
pub proof fn law_agreeing_rows<L>(count: nat, rows: List<List<AssignmentTree<L>>>)
    ensures
        ({
            let kept = grammar::agreeing_rows(count, rows).seq();
            &&& kept.len() <= rows.seq().len()
            &&& forall|i: int|
                0 <= i < kept.len() ==> (#[trigger] kept[i]) == rows.seq()[i] && kept[i].seq().len()
                    == count
            &&& kept.len() < rows.seq().len() ==> rows.seq()[kept.len() as int].seq().len() != count
            &&& grammar::rows_agree(count, rows) <==> kept.len() == rows.seq().len()
        }),
    decreases rows,
{
    if let List::Cons { head, tail } = rows {
        law_agreeing_rows(count, *tail);
        let kept = grammar::agreeing_rows(count, rows).seq();
        let rest = grammar::agreeing_rows(count, *tail).seq();
        assert(rows.seq()[0] == *head);
        if head.seq().len() == count {
            assert(kept == seq![*head] + rest);
            assert forall|i: int| 0 <= i < kept.len() implies (#[trigger] kept[i]) == rows.seq()[i]
                && kept[i].seq().len() == count by {
                if i > 0 {
                    assert(kept[i] == rest[i - 1]);
                    assert(rows.seq()[i] == tail.seq()[i - 1]);
                }
            }
            if kept.len() < rows.seq().len() {
                assert(rows.seq()[kept.len() as int] == tail.seq()[rest.len() as int]);
            }
        }
    }
}

/// An upsert that leaves a row alone says so in the dialect's way, and one that updates gives every
/// inserted column its proposed value, one after the other.
pub proof fn law_conflict_clause<D: Dialect>(
    dialect: D,
    clause: ConflictClause,
    columns: List<Label>,
)
    ensures
        clause.action == ConflictAction::DoNothing && columns.seq().len() > 0
            ==> grammar::conflict_text(dialect, clause, columns) == dialect.upsert_do_nothing_text(
            dialect::strings_view(clause.target@),
            Some(columns.seq()[0]@),
        ),
        columns.seq().len() == 0 ==> grammar::conflict_text(dialect, clause, columns)
            == dialect.upsert_do_nothing_text(dialect::strings_view(clause.target@), None),
        clause.action == ConflictAction::DoUpdateExcluded && columns.seq().len() > 0
            ==> grammar::conflict_text(dialect, clause, columns) == dialect.upsert_set_prefix_text(
            dialect::strings_view(clause.target@),
        ) + grammar::excluded_assignments_text(dialect, true, columns),
{
    if let List::Cons { head, tail } = columns {
        assert(columns.seq()[0] == *head);
    }
}

/// Each inserted column takes its own proposed value, in the order of the columns.
pub proof fn law_excluded_assignments<D: Dialect>(
    dialect: D,
    first_item: bool,
    columns: List<Label>,
    column: Label,
)
    ensures
        columns is Nil ==> grammar::excluded_assignments_text(dialect, first_item, columns)
            == Seq::<char>::empty(),
        grammar::excluded_assignments_text(dialect, first_item, columns.with(column))
            == grammar::excluded_assignments_text(dialect, first_item, columns) + ((if first_item
            && columns is Nil {
            Seq::empty()
        } else {
            ", "@
        }) + dialect.quoted_ident(column@) + " = "@ + dialect.excluded_column_text(column@)),
    decreases columns,
{
    match columns {
        List::Nil => {
            assert(grammar::excluded_assignments_text(dialect, false, List::Nil) == Seq::<
                char,
            >::empty());
        },
        List::Cons { head, tail } => {
            law_excluded_assignments(dialect, false, *tail, column);
            counting::lemma_regroup(
                grammar::separator(first_item) + dialect.quoted_ident(head@) + " = "@
                    + dialect.excluded_column_text(head@),
                grammar::excluded_assignments_text(dialect, false, *tail),
                ", "@ + dialect.quoted_ident(column@) + " = "@ + dialect.excluded_column_text(
                    column@,
                ),
                Seq::empty(),
            );
        },
    }
}

/// Quoted identifiers stand in their order, separated by commas.
pub proof fn law_identifiers<D: Dialect>(
    dialect: D,
    first_item: bool,
    names: List<Label>,
    name: Label,
)
    ensures
        names is Nil ==> grammar::ident_list_text(dialect, first_item, names) == Seq::<
            char,
        >::empty(),
        grammar::ident_list_text(dialect, first_item, names.with(name)) == grammar::ident_list_text(
            dialect,
            first_item,
            names,
        ) + ((if first_item && names is Nil {
            Seq::empty()
        } else {
            ", "@
        }) + dialect.quoted_ident(name@)),
    decreases names,
{
    match names {
        List::Nil => {
            assert(grammar::ident_list_text(dialect, false, List::Nil) == Seq::<char>::empty());
        },
        List::Cons { head, tail } => {
            law_identifiers(dialect, false, *tail, name);
            counting::lemma_regroup(
                grammar::separator(first_item) + dialect.quoted_ident(head@),
                grammar::ident_list_text(dialect, false, *tail),
                ", "@ + dialect.quoted_ident(name@),
                Seq::empty(),
            );
        },
    }
}

/// A table is its quoted name, behind its quoted schema where it has one.
pub proof fn law_table<D: Dialect>(dialect: D, schema: Label, name: Label)
    ensures
        grammar::table_text(dialect, TableRef { schema: None, name }) == dialect.quoted_ident(name@),
        grammar::table_text(dialect, TableRef { schema: Some(schema), name })
            == dialect.quoted_ident(schema@) + "."@ + grammar::table_text(
            dialect,
            TableRef { schema: None, name },
        ),
{
}

/// An `INSERT` of a query: the definitions, the table and its columns, the query, and then
/// `RETURNING`.
pub proof fn law_insert_select<D: Dialect, L>(
    dialect: D,
    first: nat,
    insert: InsertSelectTree<L>,
)
    ensures
        ({
            let silent = InsertSelectTree { returning: List::Nil, ..insert };
            let lead = grammar::cte_prefix_text(
                dialect,
                grammar::distinct_ctes(grammar::set_ctes(insert.source)),
            ) + "INSERT INTO "@ + grammar::table_text(dialect, insert.table) + " ("@
                + grammar::ident_list_text(dialect, true, insert.columns) + ") "@;
            let source = grammar::set_insert_source_tokens(dialect, insert.source);
            &&& adds(
                dialect,
                first,
                grammar::insert_select_tokens(dialect, insert),
                grammar::insert_select_tokens(dialect, silent),
                grammar::projection_tokens(dialect, true, " RETURNING "@, insert.returning),
            )
            &&& counting::text_at(dialect, first, grammar::insert_select_tokens(dialect, silent))
                == lead + counting::text_at(dialect, first, source)
            &&& counting::slot_list(grammar::insert_select_tokens(dialect, silent))
                == counting::slot_list(source)
        }),
{
    lemma_empty_clauses::<D, L>(dialect);
    let silent = InsertSelectTree { returning: List::Nil, ..insert };
    let lead = grammar::cte_prefix_text(
        dialect,
        grammar::distinct_ctes(grammar::set_ctes(insert.source)),
    ) + "INSERT INTO "@ + grammar::table_text(dialect, insert.table) + " ("@
        + grammar::ident_list_text(dialect, true, insert.columns) + ") "@;
    let source = grammar::set_insert_source_tokens(dialect, insert.source);
    let returning = grammar::projection_tokens(dialect, true, " RETURNING "@, insert.returning);
    counting::lemma_piece::<D, L>(dialect, lead);
    counting::lemma_join(dialect, first, tokens::chars::<L>(lead), source);
    assert(grammar::insert_select_tokens(dialect, silent) == tokens::chars::<L>(lead) + source);
    lemma_adds(
        dialect,
        first,
        tokens::chars::<L>(lead) + source + returning,
        tokens::chars::<L>(lead) + source,
        returning,
    );
}

/// An `UPDATE` has its table, its assignments, its conditions and then `RETURNING`.
pub proof fn law_update_clauses<D: Dialect, L>(dialect: D, first: nat, update: UpdateTree<L>)
    ensures
        ({
            let silent = UpdateTree { returning: List::Nil, ..update };
            let all = UpdateTree { filters: List::Nil, ..silent };
            let columns = grammar::assignments_tokens(dialect, true, update.columns);
            &&& adds(
                dialect,
                first,
                grammar::update_tokens(dialect, update),
                grammar::update_tokens(dialect, silent),
                grammar::projection_tokens(dialect, false, " RETURNING "@, update.returning),
            )
            &&& adds(
                dialect,
                first,
                grammar::update_tokens(dialect, silent),
                grammar::update_tokens(dialect, all),
                grammar::predicate_list_tokens(dialect, " WHERE "@, update.filters),
            )
            &&& counting::text_at(dialect, first, grammar::update_tokens(dialect, all)) == (
            "UPDATE "@ + grammar::table_text(dialect, update.table) + " AS "@
                + update.alias.text() + " SET "@) + counting::text_at(dialect, first, columns)
            &&& counting::slot_list(grammar::update_tokens(dialect, all)) == counting::slot_list(
                columns,
            )
        }),
{
    lemma_empty_clauses::<D, L>(dialect);
    let silent = UpdateTree { returning: List::Nil, ..update };
    let all = UpdateTree { filters: List::Nil, ..silent };
    let lead = "UPDATE "@ + grammar::table_text(dialect, update.table) + " AS "@
        + update.alias.text() + " SET "@;
    let columns = grammar::assignments_tokens(dialect, true, update.columns);
    let filters = grammar::predicate_list_tokens(dialect, " WHERE "@, update.filters);
    let returning = grammar::projection_tokens(dialect, false, " RETURNING "@, update.returning);
    let start = tokens::chars::<L>(lead);
    counting::lemma_piece::<D, L>(dialect, lead);
    counting::lemma_join(dialect, first, start, columns);
    assert(grammar::update_tokens(dialect, all) == start + columns);
    assert(grammar::update_tokens(dialect, silent) == start + columns + filters);
    lemma_adds(dialect, first, start + columns + filters, start + columns, filters);
    lemma_adds(
        dialect,
        first,
        start + columns + filters + returning,
        start + columns + filters,
        returning,
    );
}

/// A `DELETE` has its table, its conditions and then `RETURNING`.
pub proof fn law_delete_clauses<D: Dialect, L>(dialect: D, first: nat, delete: DeleteTree<L>)
    ensures
        ({
            let silent = DeleteTree { returning: List::Nil, ..delete };
            let all = DeleteTree { filters: List::Nil, ..silent };
            &&& adds(
                dialect,
                first,
                grammar::delete_tokens(dialect, delete),
                grammar::delete_tokens(dialect, silent),
                grammar::projection_tokens(dialect, false, " RETURNING "@, delete.returning),
            )
            &&& adds(
                dialect,
                first,
                grammar::delete_tokens(dialect, silent),
                grammar::delete_tokens(dialect, all),
                grammar::predicate_list_tokens(dialect, " WHERE "@, delete.filters),
            )
            &&& counting::text_at(dialect, first, grammar::delete_tokens(dialect, all))
                == "DELETE FROM "@ + grammar::table_text(dialect, delete.table) + " AS "@
                + delete.alias.text()
            &&& counting::slot_list(grammar::delete_tokens(dialect, all)) == Seq::<
                Token<L>,
            >::empty()
        }),
{
    lemma_empty_clauses::<D, L>(dialect);
    let silent = DeleteTree { returning: List::Nil, ..delete };
    let all = DeleteTree { filters: List::Nil, ..silent };
    let lead = "DELETE FROM "@ + grammar::table_text(dialect, delete.table) + " AS "@
        + delete.alias.text();
    let filters = grammar::predicate_list_tokens(dialect, " WHERE "@, delete.filters);
    let returning = grammar::projection_tokens(dialect, false, " RETURNING "@, delete.returning);
    let start = tokens::chars::<L>(lead);
    counting::lemma_piece::<D, L>(dialect, lead);
    assert(grammar::delete_tokens(dialect, all) == start);
    assert(grammar::delete_tokens(dialect, silent) == start + filters);
    lemma_adds(dialect, first, start + filters, start, filters);
    lemma_adds(dialect, first, start + filters + returning, start + filters, returning);
}

/// A definition is its quoted name, its columns and then its body, as the dialect writes it.
pub proof fn law_definition<D: Dialect>(dialect: D, def: CteDef)
    ensures
        grammar::cte_text(dialect, def) == dialect.quoted_ident(def.name@) + " ("@
            + grammar::ident_list_text(dialect, true, def.columns) + ") AS ("@
            + dialect.cte_body_text(def.body) + ")"@,
{
}

/// The `WITH` clause lists its definitions in their order, separated by commas, and is recursive as
/// soon as one of them is. Without definitions there is none.
pub proof fn law_with_clause<D: Dialect>(dialect: D, defs: Seq<CteDef>, def: CteDef)
    ensures
        grammar::cte_prefix_text(dialect, Seq::empty()) == Seq::<char>::empty(),
        grammar::cte_list_text(dialect, Seq::empty()) == Seq::<char>::empty(),
        grammar::cte_list_text(dialect, defs.push(def)) == grammar::cte_list_text(dialect, defs)
            + (if defs.len() == 0 {
            Seq::empty()
        } else {
            ", "@
        }) + grammar::cte_text(dialect, def),
        (forall|i: int| 0 <= i < defs.len() ==> !(#[trigger] defs[i]).recursive) && defs.len() > 0
            ==> grammar::cte_prefix_text(dialect, defs) == "WITH "@ + grammar::cte_list_text(
            dialect,
            defs,
        ) + " "@,
        (exists|i: int| 0 <= i < defs.len() && (#[trigger] defs[i]).recursive)
            ==> grammar::cte_prefix_text(dialect, defs) == "WITH RECURSIVE "@
            + grammar::cte_list_text(dialect, defs) + " "@,
{
    assert(defs.push(def).drop_last() =~= defs);
    assert(defs.push(def).last() == def);
}

/// A query stands behind its definitions.
pub proof fn law_select_statement<D: Dialect, L>(
    dialect: D,
    first: nat,
    ctes: Seq<CteDef>,
    select: SelectTree<L>,
)
    ensures
        counting::text_at(dialect, first, grammar::select_statement_tokens(dialect, ctes, select))
            == grammar::cte_prefix_text(dialect, ctes) + spelling::select_sql(
            dialect,
            first,
            select,
        ),
        counting::slot_list(grammar::select_statement_tokens(dialect, ctes, select))
            == spelling::select_slots(dialect, select),
{
    let prefix = grammar::cte_prefix_text(dialect, ctes);
    counting::lemma_piece::<D, L>(dialect, prefix);
    counting::lemma_join(
        dialect,
        first,
        tokens::chars::<L>(prefix),
        grammar::select_tokens(dialect, select),
    );
}

/// The text of a set operation as an operand.
pub open spec fn operand_sql<D: Dialect, L>(dialect: D, first: nat, tree: SetTree<L>) -> Seq<char> {
    counting::text_at(dialect, first, grammar::set_operand_tokens(dialect, tree))
}

/// The text of a set operation that is not inside parentheses.
pub open spec fn root_sql<D: Dialect, L>(dialect: D, first: nat, tree: SetTree<L>) -> Seq<char> {
    counting::text_at(dialect, first, grammar::set_root_tokens(dialect, tree))
}

/// A set operation has its left operand, its keyword and then its right operand.
pub proof fn law_set_node<D: Dialect, L>(
    dialect: D,
    first: nat,
    left: SetTree<L>,
    op: SetOp,
    right: SetTree<L>,
)
    ensures
        ({
            let node = SetTree::Node { left: Box::new(left), op, right: Box::new(right) };
            let at = first + tokens::slots(grammar::set_operand_tokens(dialect, left));
            &&& root_sql(dialect, first, node) == operand_sql(dialect, first, left) + (" "@
                + op.keyword_text() + " "@) + operand_sql(dialect, at, right)
            &&& counting::slot_list(grammar::set_root_tokens(dialect, node)) == counting::slot_list(
                grammar::set_operand_tokens(dialect, left),
            ) + counting::slot_list(grammar::set_operand_tokens(dialect, right))
            &&& operand_sql(dialect, first, node) == "("@ + root_sql(dialect, first, node) + ")"@
            &&& counting::slot_list(grammar::set_operand_tokens(dialect, node))
                == counting::slot_list(grammar::set_root_tokens(dialect, node))
        }),
{
    let node = SetTree::Node { left: Box::new(left), op, right: Box::new(right) };
    let a = grammar::set_operand_tokens(dialect, left);
    let b = grammar::set_operand_tokens(dialect, right);
    let word = " "@ + op.keyword_text() + " "@;
    let root = grammar::set_root_tokens(dialect, node);
    assert(root == a + tokens::chars::<L>(word) + b);
    counting::lemma_piece::<D, L>(dialect, word);
    counting::lemma_join(dialect, first, a, tokens::chars::<L>(word));
    counting::lemma_join(dialect, first, a + tokens::chars::<L>(word), b);
    counting::lemma_piece::<D, L>(dialect, "("@);
    counting::lemma_piece::<D, L>(dialect, ")"@);
    let open = tokens::chars::<L>("("@);
    counting::lemma_join(dialect, first, open, root);
    counting::lemma_join(dialect, first, open + root, tokens::chars::<L>(")"@));
    assert(grammar::set_operand_tokens(dialect, node) == open + root + tokens::chars::<L>(")"@));
}

/// A single query is an operand inside parentheses; a nested set operation has its own ordering and
/// bounds inside its parentheses. Either is the same when it stands alone.
pub proof fn law_set_operands<D: Dialect, L>(
    dialect: D,
    first: nat,
    select: SelectTree<L>,
    ctes: List<CteDef>,
    inner: SetTree<L>,
    tail: SetTail,
)
    ensures
        ({
            let leaf = SetTree::Leaf { select, ctes };
            let group = SetTree::Group { tree: Box::new(inner), tail };
            &&& operand_sql(dialect, first, leaf) == "("@ + spelling::select_sql(
                dialect,
                first,
                select,
            ) + ")"@
            &&& counting::slot_list(grammar::set_operand_tokens(dialect, leaf))
                == spelling::select_slots(dialect, select)
            &&& root_sql(dialect, first, leaf) == operand_sql(dialect, first, leaf)
            &&& operand_sql(dialect, first, group) == "("@ + root_sql(dialect, first, inner) + (
            grammar::set_tail_text(dialect, tail) + ")"@)
            &&& counting::slot_list(grammar::set_operand_tokens(dialect, group))
                == counting::slot_list(grammar::set_root_tokens(dialect, inner))
            &&& root_sql(dialect, first, group) == operand_sql(dialect, first, group)
            &&& grammar::set_insert_source_tokens(dialect, leaf) == grammar::select_tokens(
                dialect,
                select,
            )
            &&& grammar::set_insert_source_tokens(dialect, group) == grammar::set_root_tokens(
                dialect,
                group,
            )
        }),
{
    let leaf = SetTree::Leaf { select, ctes };
    let group = SetTree::Group { tree: Box::new(inner), tail };
    let open = tokens::chars::<L>("("@);
    counting::lemma_piece::<D, L>(dialect, "("@);
    counting::lemma_piece::<D, L>(dialect, ")"@);
    let query = grammar::select_tokens(dialect, select);
    counting::lemma_join(dialect, first, open, query);
    counting::lemma_join(dialect, first, open + query, tokens::chars::<L>(")"@));
    assert(grammar::set_operand_tokens(dialect, leaf) == open + query + tokens::chars::<L>(")"@));
    let root = grammar::set_root_tokens(dialect, inner);
    let end = grammar::set_tail_text(dialect, tail) + ")"@;
    counting::lemma_piece::<D, L>(dialect, end);
    counting::lemma_join(dialect, first, open, root);
    counting::lemma_join(dialect, first, open + root, tokens::chars::<L>(end));
    assert(grammar::set_operand_tokens(dialect, group) == open + root + tokens::chars::<L>(end));
}

/// The definitions of a set operation are those of its left operand and then those of its right.
pub proof fn law_set_definitions<L>(
    left: SetTree<L>,
    op: SetOp,
    right: SetTree<L>,
    tail: SetTail,
)
    ensures
        ({
            let node = SetTree::Node { left: Box::new(left), op, right: Box::new(right) };
            let group = SetTree::Group { tree: Box::new(left), tail };
            &&& grammar::set_ctes(node).seq() == grammar::set_ctes(left).seq() + grammar::set_ctes(
                right,
            ).seq()
            &&& grammar::set_ctes(group) == grammar::set_ctes(left)
        }),
{
    chain::lemma_then_list(grammar::set_ctes(left), grammar::set_ctes(right));
}

/// Nothing behind a set operation: no ordering and no bounds.
pub open spec fn no_tail() -> SetTail {
    SetTail { orders: List::Nil, limit: None, offset: None }
}

/// A set operation with a tail is the same one without, followed by its ordering and then by its
/// bounds: `ORDER BY` stands behind the operands and before the bounds.
pub proof fn law_set_statement<D: Dialect, L>(
    dialect: D,
    first: nat,
    tree: SetTree<L>,
    tail: SetTail,
)
    requires
        unbounded_is_silent(dialect),
    ensures
        ({
            let whole = grammar::set_statement_tokens(dialect, tree, tail);
            let alone = grammar::set_statement_tokens(dialect, tree, no_tail());
            let unbounded = SetTail { limit: None, offset: None, ..tail };
            let ordered = grammar::set_statement_tokens(dialect, tree, unbounded);
            &&& counting::text_at(dialect, first, alone) == grammar::cte_prefix_text(
                dialect,
                grammar::distinct_ctes(grammar::set_ctes(tree)),
            ) + root_sql(dialect, first, tree)
            &&& counting::text_at(dialect, first, ordered) == counting::text_at(
                dialect,
                first,
                alone,
            ) + grammar::set_order_text(dialect, " ORDER BY "@, tail.orders)
            &&& counting::text_at(dialect, first, whole) == counting::text_at(
                dialect,
                first,
                ordered,
            ) + dialect.limit_offset_text(tail.limit, tail.offset)
            &&& counting::slot_list(whole) == counting::slot_list(
                grammar::set_root_tokens(dialect, tree),
            )
        }),
{
    let prefix = grammar::cte_prefix_text(
        dialect,
        grammar::distinct_ctes(grammar::set_ctes(tree)),
    );
    let start = tokens::chars::<L>(prefix);
    let root = grammar::set_root_tokens(dialect, tree);
    let unbounded = SetTail { limit: None, offset: None, ..tail };
    let order = grammar::set_order_text(dialect, " ORDER BY "@, tail.orders);
    let bounds = dialect.limit_offset_text(tail.limit, tail.offset);
    counting::lemma_piece::<D, L>(dialect, prefix);
    counting::lemma_join(dialect, first, start, root);
    assert(grammar::set_order_text(dialect, " ORDER BY "@, List::Nil) == Seq::<char>::empty());
    assert(grammar::set_tail_text(dialect, no_tail()) == Seq::<char>::empty());
    assert(grammar::set_tail_text(dialect, unbounded) == order);
    assert(grammar::set_tail_text(dialect, tail) == order + bounds);
    counting::lemma_piece::<D, L>(dialect, order);
    counting::lemma_piece::<D, L>(dialect, order + bounds);
    counting::lemma_join(dialect, first, start + root, tokens::chars::<L>(order));
    counting::lemma_join(dialect, first, start + root, tokens::chars::<L>(order + bounds));
    counting::lemma_regroup(
        counting::text_at(dialect, first, start + root),
        order,
        bounds,
        Seq::empty(),
    );
}

/// The ordering of a set operation names its output columns in their order, quoted, each with its
/// direction, behind one `ORDER BY`.
pub proof fn law_set_ordering<D: Dialect>(
    dialect: D,
    lead: Seq<char>,
    orders: List<SetOrder>,
    order: SetOrder,
)
    ensures
        orders is Nil ==> grammar::set_order_text(dialect, lead, orders) == Seq::<char>::empty(),
        grammar::set_order_text(dialect, lead, orders.with(order)) == grammar::set_order_text(
            dialect,
            lead,
            orders,
        ) + ((if orders is Nil {
            lead
        } else {
            ", "@
        }) + dialect.quoted_ident(order.column@) + " "@ + ops::direction_keyword(order.direction)),
    decreases orders,
{
    match orders {
        List::Nil => {
            assert(grammar::set_order_text(dialect, ", "@, List::Nil) == Seq::<char>::empty());
        },
        List::Cons { head, tail } => {
            law_set_ordering(dialect, ", "@, *tail, order);
            counting::lemma_regroup(
                lead + dialect.quoted_ident(head.column@) + " "@ + ops::direction_keyword(
                    head.direction,
                ),
                grammar::set_order_text(dialect, ", "@, *tail),
                ", "@ + dialect.quoted_ident(order.column@) + " "@ + ops::direction_keyword(
                    order.direction,
                ),
                Seq::empty(),
            );
        },
    }
}

/// Whether two orderings name the same columns with the same directions.
pub open spec fn same_orders(a: Seq<SetOrder>, b: Seq<SetOrder>) -> bool {
    &&& a.len() == b.len()
    &&& forall|i: int|
        0 <= i < a.len() ==> (#[trigger] a[i]).column@ == b[i].column@ && a[i].direction
            == b[i].direction
}

/// Whether a dialect quotes identifiers with `quote`, doubling it inside.
pub open spec fn quotes_with<D: Dialect>(dialect: D, quote: char) -> bool {
    forall|ident: Seq<char>| #[trigger]
        dialect.quoted_ident(ident) == text::quoted(ident, quote)
}

proof fn lemma_same_order_text<D: Dialect>(
    dialect: D,
    quote: char,
    lead: Seq<char>,
    a: List<SetOrder>,
    b: List<SetOrder>,
)
    requires
        quotes_with(dialect, quote),
        quote != ' ',
        lead.len() > 0,
        grammar::set_order_text(dialect, lead, a) == grammar::set_order_text(dialect, lead, b),
    ensures
        same_orders(a.seq(), b.seq()),
    decreases a,
{
    reveal_strlit(" ");
    reveal_strlit(", ");
    reveal_strlit("ASC");
    reveal_strlit("DESC");
    let whole = grammar::set_order_text(dialect, lead, a);
    match (a, b) {
        (List::Cons { head: x, tail: xs }, List::Cons { head: y, tail: ys }) => {
            let xq = text::quoted(x.column@, quote);
            let yq = text::quoted(y.column@, quote);
            assert(dialect.quoted_ident(x.column@) == xq);
            assert(dialect.quoted_ident(y.column@) == yq);
            let xr = grammar::set_order_text(dialect, ", "@, *xs);
            let yr = grammar::set_order_text(dialect, ", "@, *ys);
            let xe = " "@ + ops::direction_keyword(x.direction) + xr;
            let ye = " "@ + ops::direction_keyword(y.direction) + yr;
            assert(whole.skip(lead.len() as int) =~= xq + xe);
            assert(whole.skip(lead.len() as int) =~= yq + ye);
            assert(xe[0] == ' ' && ye[0] == ' ');
            text::law_quoted_reads_back(x.column@, quote, xe);
            text::law_quoted_reads_back(y.column@, quote, ye);
            assert(x.column@ == y.column@ && xe == ye);
            assert(xe[1] == ops::direction_keyword(x.direction)[0]);
            assert(ye[1] == ops::direction_keyword(y.direction)[0]);
            assert(x.direction == y.direction);
            let n = 1 + ops::direction_keyword(x.direction).len() as int;
            assert(xe.skip(n) =~= xr);
            assert(ye.skip(n) =~= yr);
            lemma_same_order_text(dialect, quote, ", "@, *xs, *ys);
            let s = a.seq();
            let t = b.seq();
            assert forall|i: int| 0 <= i < s.len() implies (#[trigger] s[i]).column@ == t[i].column@
                && s[i].direction == t[i].direction by {
                if i > 0 {
                    assert(s[i] == xs.seq()[i - 1]);
                    assert(t[i] == ys.seq()[i - 1]);
                }
            }
        },
        (List::Cons { .. }, List::Nil) => {
            assert(whole.len() >= lead.len());
        },
        (List::Nil, List::Cons { .. }) => {
            assert(grammar::set_order_text(dialect, lead, b).len() >= lead.len());
        },
        (List::Nil, List::Nil) => {},
    }
}

/// No ordering of a set operation is lost or taken for another: two tails with the same bounds that
/// are written alike order by the same columns in the same directions.
pub proof fn law_set_orderings_differ<D: Dialect>(
    dialect: D,
    quote: char,
    a: SetTail,
    b: SetTail,
)
    requires
        quotes_with(dialect, quote),
        quote != ' ',
        a.limit == b.limit,
        a.offset == b.offset,
        grammar::set_tail_text(dialect, a) == grammar::set_tail_text(dialect, b),
    ensures
        same_orders(a.orders.seq(), b.orders.seq()),
{
    reveal_strlit(" ORDER BY ");
    let bounds = dialect.limit_offset_text(a.limit, a.offset);
    let x = grammar::set_order_text(dialect, " ORDER BY "@, a.orders);
    let y = grammar::set_order_text(dialect, " ORDER BY "@, b.orders);
    assert((x + bounds).take(x.len() as int) =~= x);
    assert((y + bounds).take(y.len() as int) =~= y);
    assert(x == y);
    lemma_same_order_text(dialect, quote, " ORDER BY "@, a.orders, b.orders);
}

} // verus!
