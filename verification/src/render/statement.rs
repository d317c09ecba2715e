//! Whole statements, from their trees: `SELECT` with its `WITH` prefix, set operations, `INSERT`,
//! `UPDATE`, `DELETE`.
use crate::render::sink;
use super::sink::{ParamCollector, PreparedSql, SqlOnly};
use super::{joined, table_ref_text, Renderer, SqlWriter};
use crate::backend::{Backend, Bound};
use crate::chain::List;
use crate::dialect::Dialect;
use crate::grammar;
use crate::label::{Duplicate, Label};
use crate::ops;
use crate::ops::render_order_direction;
use crate::tokens;
use crate::tokens::Token;
use crate::tree::{
    AssignmentTree, ConflictAction, ConflictClause, CteDef, DeleteTree, InsertSelectTree,
    InsertTree, SelectTree, SetOrder, SetTail, SetTree, TableRef, UpdateTree, ValueTree,
};
use vstd::prelude::*;

verus! {

broadcast use crate::tokens::group_tokens;

/// Why a statement could not be rendered.
#[derive(Clone, Copy, Debug, PartialEq, Eq, Structural)]
pub enum RenderError {
    /// A row of an `INSERT` does not assign as many columns as the first.
    MismatchedRow,
}

impl RenderError {
    /// The error in words.
    pub open spec fn text(self) -> Seq<char> {
        "all inserted rows must assign the same columns"@
    }

    /// The error in words.
    pub fn message(self) -> (text: &'static str)
        ensures
            text@ == self.text(),
    {
        "all inserted rows must assign the same columns"
    }
}

/// Appends quoted identifiers, separated by commas.
fn push_ident_list<D: Dialect>(dialect: &D, first: bool, names: &List<Label>, out: &mut String)
    ensures
        final(out)@ == old(out)@ + grammar::ident_list_text(*dialect, first, *names),
    decreases names,
{
    match names {
        List::Nil => {
            proof {
                assert(out@ + Seq::<char>::empty() =~= out@);
            }
        },
        List::Cons { head, tail } => {
            let ghost start = out@;
            if !first {
                out.append(", ");
            }
            dialect.write_quoted_ident(head.as_str(), out);
            push_ident_list(dialect, false, tail, out);
            proof {
                assert(out@ =~= start + grammar::ident_list_text(*dialect, first, *names));
            }
        },
    }
}

/// Appends one common table expression.
fn push_cte<D: Dialect>(dialect: &D, def: &CteDef, out: &mut String)
    ensures
        final(out)@ == old(out)@ + grammar::cte_text(*dialect, *def),
{
    let ghost start = out@;
    dialect.write_quoted_ident(def.name.as_str(), out);
    out.append(" (");
    push_ident_list(dialect, true, &def.columns, out);
    out.append(") AS (");
    dialect.write_cte_body(&def.body, out);
    out.append(")");
    proof {
        assert(out@ =~= start + grammar::cte_text(*dialect, *def));
    }
}

/// The `WITH` prefix of a statement.
fn write_cte_prefix<D: Dialect>(dialect: &D, ctes: &Vec<CteDef>) -> (text: String)
    ensures
        text@ == grammar::cte_prefix_text(*dialect, ctes@),
{
    if ctes.len() == 0 {
        return String::new();
    }
    let mut recursive = false;
    let mut i: usize = 0;
    while i < ctes.len()
        invariant
            i <= ctes.len(),
            recursive == exists|j: int| 0 <= j < i && (#[trigger] ctes@[j]).recursive,
        decreases ctes.len() - i,
    {
        if ctes[i].recursive {
            recursive = true;
        }
        i = i + 1;
    }
    let mut out = if recursive {
        String::from_str("WITH RECURSIVE ")
    } else {
        String::from_str("WITH ")
    };
    let ghost lead = out@;
    proof {
        assert(ctes@.take(0) =~= Seq::empty());
        assert(lead + grammar::cte_list_text(*dialect, ctes@.take(0)) =~= lead);
    }
    let mut k: usize = 0;
    while k < ctes.len()
        invariant
            k <= ctes.len(),
            out@ == lead + grammar::cte_list_text(*dialect, ctes@.take(k as int)),
        decreases ctes.len() - k,
    {
        proof {
            let done = ctes@.take(k as int + 1);
            assert(done.drop_last() =~= ctes@.take(k as int));
            assert(lead + grammar::cte_list_text(*dialect, done) =~= lead + grammar::cte_list_text(
                *dialect,
                ctes@.take(k as int),
            ) + grammar::separator(k == 0) + grammar::cte_text(*dialect, ctes@[k as int]));
        }
        let ghost before = out@;
        if k > 0 {
            out.append(", ");
        }
        proof {
            assert(out@ =~= before + grammar::separator(k == 0));
        }
        push_cte(dialect, &ctes[k], &mut out);
        k = k + 1;
    }
    out.append(" ");
    proof {
        assert(ctes@.take(k as int) =~= ctes@);
    }
    out
}

/// Whether a definition with this identity is among `kept`.
fn contains_key(kept: &Vec<CteDef>, key: u64) -> (found: bool)
    ensures
        found == grammar::has_key(kept@, key),
{
    let mut i: usize = 0;
    while i < kept.len()
        invariant
            i <= kept.len(),
            forall|j: int| 0 <= j < i ==> (#[trigger] kept@[j]).type_key != key,
        decreases kept.len() - i,
    {
        if kept[i].type_key == key {
            return true;
        }
        i = i + 1;
    }
    false
}

fn keep_ctes(kept: Vec<CteDef>, ctes: List<CteDef>) -> (all: Vec<CteDef>)
    ensures
        all@ == grammar::kept_ctes(kept@, ctes),
    decreases ctes,
{
    match ctes {
        List::Nil => kept,
        List::Cons { head, tail } => {
            let mut kept = kept;
            if !contains_key(&kept, head.type_key) {
                kept.push(*head);
            }
            keep_ctes(kept, *tail)
        },
    }
}

/// De-duplicates collected common table expressions by definition identity: one that is used in
/// several arms is kept once, at its first occurrence. Distinct definitions have distinct names.
fn dedup_set_ctes(ctes: List<CteDef>) -> (kept: Vec<CteDef>)
    requires
        grammar::cte_names_agree(ctes.seq()),
    ensures
        kept@ == grammar::distinct_ctes(ctes),
{
    keep_ctes(Vec::new(), ctes)
}

/// The common table expressions that a set tree refers to, arm by arm.
fn collect_set_ctes<L>(tree: &SetTree<L>) -> (ctes: List<CteDef>)
    ensures
        ctes == grammar::set_ctes(*tree),
    decreases tree,
{
    match tree {
        SetTree::Leaf { ctes, .. } => ctes.duplicate(),
        SetTree::Node { left, right, .. } => collect_set_ctes(left).append(collect_set_ctes(right)),
        SetTree::Group { tree: inner, .. } => collect_set_ctes(inner),
    }
}

/// Appends an ordering by output columns, with `lead` before its first term.
fn push_set_orders<D: Dialect>(
    dialect: &D,
    lead: &str,
    orders: &List<SetOrder>,
    out: &mut String,
)
    ensures
        final(out)@ == old(out)@ + grammar::set_order_text(*dialect, lead@, *orders),
    decreases orders,
{
    match orders {
        List::Nil => {
            proof {
                assert(out@ + Seq::<char>::empty() =~= out@);
            }
        },
        List::Cons { head, tail } => {
            let ghost start = out@;
            out.append(lead);
            dialect.write_quoted_ident(head.column.as_str(), out);
            out.append(" ");
            out.append(render_order_direction(head.direction));
            push_set_orders(dialect, ", ", tail, out);
            proof {
                assert(out@ =~= start + grammar::set_order_text(*dialect, lead@, *orders));
            }
        },
    }
}

/// The ordering and the bounds behind a set operation.
fn write_set_tail<D: Dialect>(dialect: &D, tail: &SetTail) -> (text: String)
    ensures
        text@ == grammar::set_tail_text(*dialect, *tail),
{
    let mut out = String::new();
    push_set_orders(dialect, " ORDER BY ", &tail.orders, &mut out);
    dialect.write_limit_offset(tail.limit, tail.offset, &mut out);
    proof {
        assert(out@ =~= grammar::set_tail_text(*dialect, *tail));
    }
    out
}

/// The columns that a row assigns.
fn assigned_columns<L>(row: &List<AssignmentTree<L>>) -> (columns: List<Label>)
    ensures
        columns == grammar::column_labels(*row),
    decreases row,
{
    match row {
        List::Nil => List::Nil,
        List::Cons { head, tail } => List::Cons {
            head: Box::new(head.column.duplicate()),
            tail: Box::new(assigned_columns(tail)),
        },
    }
}

/// Appends the assignments of an updating upsert.
fn push_excluded_assignments<D: Dialect>(
    dialect: &D,
    first: bool,
    columns: &List<Label>,
    out: &mut String,
)
    ensures
        final(out)@ == old(out)@ + grammar::excluded_assignments_text(*dialect, first, *columns),
    decreases columns,
{
    match columns {
        List::Nil => {
            proof {
                assert(out@ + Seq::<char>::empty() =~= out@);
            }
        },
        List::Cons { head, tail } => {
            let ghost start = out@;
            if !first {
                out.append(", ");
            }
            dialect.write_quoted_ident(head.as_str(), out);
            out.append(" = ");
            dialect.write_excluded_column(head.as_str(), out);
            push_excluded_assignments(dialect, false, tail, out);
            proof {
                assert(out@ =~= start + grammar::excluded_assignments_text(*dialect, first, *columns));
            }
        },
    }
}

/// The conflict clause of an upsert. An `INSERT` without columns has nothing to update: there, an
/// updating clause leaves the row alone.
fn write_conflict_clause<D: Dialect>(
    dialect: &D,
    clause: &ConflictClause,
    columns: &List<Label>,
) -> (text: String)
    ensures
        text@ == grammar::conflict_text(*dialect, *clause, *columns),
{
    let mut out = String::new();
    let action = if columns.is_empty() {
        ConflictAction::DoNothing
    } else {
        clause.action
    };
    match action {
        ConflictAction::DoNothing => {
            let first_column = match columns {
                List::Nil => None,
                List::Cons { head, .. } => Some(head.as_str()),
            };
            dialect.write_upsert_do_nothing(&clause.target, first_column, &mut out);
        },
        ConflictAction::DoUpdateExcluded => {
            dialect.write_upsert_set_prefix(&clause.target, &mut out);
            push_excluded_assignments(dialect, true, columns, &mut out);
        },
    }
    proof {
        assert(out@ =~= grammar::conflict_text(*dialect, *clause, *columns));
    }
    out
}

impl<'d, B: Backend, D: Dialect, W: SqlWriter<B>> Renderer<'d, B, D, W> {
    /// What the sink of a whole rendering was told.
    proof fn lemma_all_written(&self)
        requires
            self.wf(),
            self.before@ == Seq::<Token<Bound<B>>>::empty(),
        ensures
            self.writer.inv(),
            self.writer.log() == tokens::emit(*self.dialect, self.current@),
    {
        assert(self.tokens() =~= self.current@);
    }

    /// Writes a set tree as a parenthesized operand.
    fn render_operand(&mut self, tree: SetTree<Bound<B>>)
        requires
            old(self).wf(),
            old(self).fits(grammar::set_operand_tokens(*old(self).dialect, tree)),
        ensures
            final(self).wrote(*old(self), grammar::set_operand_tokens(*old(self).dialect, tree)),
        decreases tree, 1nat,
    {
        let mark = self.begin();
        self.write_str("(");
        match tree {
            SetTree::Leaf { select, .. } => {
                self.write_subselect(select);
                self.write_str(")");
            },
            SetTree::Node { left, op, right } => {
                self.render_node(left, op, right);
                self.write_str(")");
            },
            SetTree::Group { tree: inner, tail } => {
                let mut close = write_set_tail(self.dialect, &tail);
                close.append(")");
                self.render_root(*inner);
                self.write_str(close.as_str());
            },
        }
        self.end(mark);
    }

    /// Writes a set operation between two operands.
    fn render_node(
        &mut self,
        left: Box<SetTree<Bound<B>>>,
        op: crate::ops::SetOp,
        right: Box<SetTree<Bound<B>>>,
    )
        requires
            old(self).wf(),
            old(self).fits(
                grammar::set_root_tokens(*old(self).dialect, (SetTree::Node { left, op, right })),
            ),
        ensures
            final(self).wrote(
                *old(self),
                grammar::set_root_tokens(*old(self).dialect, (SetTree::Node { left, op, right })),
            ),
        decreases (SetTree::Node { left, op, right }), 0nat,
    {
        let mark = self.begin();
        self.render_operand(*left);
        self.write_str(joined(" ", op.keyword(), " ").as_str());
        self.render_operand(*right);
        self.end(mark);
    }

    /// Writes a set tree as the outermost set, so that a tail behind it binds to the whole.
    fn render_root(&mut self, tree: SetTree<Bound<B>>)
        requires
            old(self).wf(),
            old(self).fits(grammar::set_root_tokens(*old(self).dialect, tree)),
        ensures
            final(self).wrote(*old(self), grammar::set_root_tokens(*old(self).dialect, tree)),
        decreases tree, 2nat,
    {
        match tree {
            SetTree::Node { left, op, right } => self.render_node(left, op, right),
            other => self.render_operand(other),
        }
    }

    /// Writes a set tree as the source of an `INSERT`.
    fn render_insert_source(&mut self, tree: SetTree<Bound<B>>)
        requires
            old(self).wf(),
            old(self).fits(grammar::set_insert_source_tokens(*old(self).dialect, tree)),
        ensures
            final(self).wrote(*old(self), grammar::set_insert_source_tokens(*old(self).dialect, tree)),
    {
        match tree {
            SetTree::Leaf { select, .. } => self.write_subselect(select),
            other => self.render_root(other),
        }
    }

    /// Writes what a column is assigned.
    fn write_assignment_value(&mut self, value: ValueTree<Bound<B>>)
        requires
            old(self).wf(),
            old(self).fits(grammar::value_tokens(*old(self).dialect, value)),
        ensures
            final(self).wrote(*old(self), grammar::value_tokens(*old(self).dialect, value)),
    {
        match value {
            ValueTree::Static(literal) => self.visit_literal(literal),
            ValueTree::Default => self.write_str("DEFAULT"),
            ValueTree::Runtime => self.visit_param(),
            ValueTree::Expr(expr) => self.write_expr(false, expr),
        }
    }

    /// Writes the values of a row, separated by commas.
    fn write_row_values(&mut self, first: bool, row: List<AssignmentTree<Bound<B>>>)
        requires
            old(self).wf(),
            old(self).fits(grammar::row_values_tokens(*old(self).dialect, first, row)),
        ensures
            final(self).wrote(*old(self), grammar::row_values_tokens(*old(self).dialect, first, row)),
        decreases row,
    {
        if let List::Cons { head, tail } = row {
            let item = *head;
            let mark = self.begin();
            if !first {
                self.write_str(", ");
            }
            self.write_assignment_value(item.value);
            self.write_row_values(false, *tail);
            self.end(mark);
        }
    }

    /// Writes rows up to the first one that does not assign as many columns as there are.
    fn write_insert_rows(
        &mut self,
        first: bool,
        columns: &List<Label>,
        rows: List<List<AssignmentTree<Bound<B>>>>,
    ) -> (done: Result<(), RenderError>)
        requires
            old(self).wf(),
            old(self).fits(
                grammar::rows_tokens(
                    *old(self).dialect,
                    first,
                    grammar::agreeing_rows(columns.seq().len(), rows),
                ),
            ),
        ensures
            final(self).wrote(
                *old(self),
                grammar::rows_tokens(
                    *old(self).dialect,
                    first,
                    grammar::agreeing_rows(columns.seq().len(), rows),
                ),
            ),
            done is Ok <==> grammar::rows_agree(columns.seq().len(), rows),
        decreases rows,
    {
        match rows {
            List::Nil => Ok(()),
            List::Cons { head, tail } => {
                if !head.same_len(columns) {
                    return Err(RenderError::MismatchedRow);
                }
                let mark = self.begin();
                proof {
                    reveal_strlit("(");
                    reveal_strlit(", (");
                    reveal_strlit(", ");
                    assert(grammar::separator(first) + "("@ =~= (if first {
                        "("@
                    } else {
                        ", ("@
                    }));
                }
                if first {
                    self.write_str("(");
                } else {
                    self.write_str(", (");
                }
                self.write_row_values(true, *head);
                self.write_str(")");
                let done = self.write_insert_rows(false, columns, *tail);
                self.end(mark);
                done
            },
        }
    }

    /// Writes an `INSERT` up to its values: all of them, or those before a row that does not fit.
    fn write_insert_values(
        &mut self,
        table: &TableRef,
        columns: &List<Label>,
        rows: List<List<AssignmentTree<Bound<B>>>>,
    ) -> (done: Result<(), RenderError>)
        requires
            old(self).wf(),
            *columns == grammar::insert_columns(rows),
            old(self).fits(grammar::insert_values_tokens(*old(self).dialect, *table, rows)),
        ensures
            final(self).wrote(*old(self), grammar::insert_values_tokens(*old(self).dialect, *table, rows)),
            done is Ok <==> grammar::rows_agree(columns.seq().len(), rows),
    {
        let default_row = match &rows {
            List::Nil => false,
            List::Cons { head, tail } => head.is_empty() && tail.is_empty(),
        };
        let mut lead = String::from_str("INSERT INTO ");
        lead.append(table_ref_text(self.dialect, table).as_str());
        if default_row {
            self.dialect.write_default_row_insert(&mut lead);
            self.write_str(lead.as_str());
            proof {
                reveal_with_fuel(grammar::rows_agree, 2);
            }
            Ok(())
        } else {
            lead.append(" (");
            push_ident_list(self.dialect, true, columns, &mut lead);
            lead.append(") VALUES ");
            let mark = self.begin();
            self.write_str(lead.as_str());
            let done = self.write_insert_rows(true, columns, rows);
            self.end(mark);
            done
        }
    }

    /// Writes an `INSERT` of literal rows.
    #[verifier::spinoff_prover]
    #[verifier::rlimit(30)]
    fn write_insert_with_params(&mut self, insert: InsertTree<Bound<B>>) -> (done: Result<
        (),
        RenderError,
    >)
        requires
            old(self).wf(),
            old(self).fits(grammar::insert_written_tokens(*old(self).dialect, insert)),
        ensures
            final(self).wrote(*old(self), grammar::insert_written_tokens(*old(self).dialect, insert)),
            done is Ok <==> grammar::insert_rows_agree(insert),
    {
        let columns = match &insert.rows {
            List::Nil => List::Nil,
            List::Cons { head, .. } => assigned_columns(head),
        };
        let conflict = match &insert.conflict {
            Some(clause) => write_conflict_clause(self.dialect, clause, &columns),
            None => String::new(),
        };
        let mark = self.begin();
        let done = self.write_insert_values(&insert.table, &columns, insert.rows);
        if done.is_ok() {
            self.write_str(conflict.as_str());
            self.write_projection(true, " RETURNING ", insert.returning);
        }
        self.end(mark);
        done
    }

    /// Writes an `INSERT` of the rows of a query. Common table expressions of the query stand before
    /// the whole statement.
    fn write_insert_select_with_params(&mut self, insert: InsertSelectTree<Bound<B>>)
        requires
            old(self).wf(),
            grammar::cte_names_agree(grammar::set_ctes(insert.source).seq()),
            old(self).fits(grammar::insert_select_tokens(*old(self).dialect, insert)),
        ensures
            final(self).wrote(*old(self), grammar::insert_select_tokens(*old(self).dialect, insert)),
    {
        let ctes = dedup_set_ctes(collect_set_ctes(&insert.source));
        let mut lead = write_cte_prefix(self.dialect, &ctes);
        lead.append("INSERT INTO ");
        lead.append(table_ref_text(self.dialect, &insert.table).as_str());
        lead.append(" (");
        push_ident_list(self.dialect, true, &insert.columns, &mut lead);
        lead.append(") ");
        let mark = self.begin();
        self.write_str(lead.as_str());
        self.render_insert_source(insert.source);
        self.write_projection(true, " RETURNING ", insert.returning);
        self.end(mark);
    }

    /// Writes the assignments of an `UPDATE`, separated by commas.
    fn write_assignments(&mut self, first: bool, columns: List<AssignmentTree<Bound<B>>>)
        requires
            old(self).wf(),
            old(self).fits(grammar::assignments_tokens(*old(self).dialect, first, columns)),
        ensures
            final(self).wrote(*old(self), grammar::assignments_tokens(*old(self).dialect, first, columns)),
        decreases columns,
    {
        if let List::Cons { head, tail } = columns {
            let item = *head;
            let mark = self.begin();
            let mut lead = String::new();
            if !first {
                lead.append(", ");
            }
            self.dialect.write_quoted_ident(item.column.as_str(), &mut lead);
            lead.append(" = ");
            proof {
                assert(lead@ =~= grammar::separator(first) + self.dialect.quoted_ident(item.column@) + " = "@);
            }
            self.write_str(lead.as_str());
            self.write_assignment_value(item.value);
            self.write_assignments(false, *tail);
            self.end(mark);
        }
    }

    /// Writes an `UPDATE`.
    fn write_update_with_params(&mut self, update: UpdateTree<Bound<B>>)
        requires
            old(self).wf(),
            old(self).fits(grammar::update_tokens(*old(self).dialect, update)),
        ensures
            final(self).wrote(*old(self), grammar::update_tokens(*old(self).dialect, update)),
    {
        let mut lead = String::from_str("UPDATE ");
        lead.append(table_ref_text(self.dialect, &update.table).as_str());
        lead.append(" AS ");
        update.alias.write_to(&mut lead);
        lead.append(" SET ");
        let mark = self.begin();
        self.write_str(lead.as_str());
        self.write_assignments(true, update.columns);
        self.write_predicates(" WHERE ", update.filters);
        self.write_projection(false, " RETURNING ", update.returning);
        self.end(mark);
    }

    /// Writes a `DELETE`.
    fn write_delete_with_params(&mut self, delete: DeleteTree<Bound<B>>)
        requires
            old(self).wf(),
            old(self).fits(grammar::delete_tokens(*old(self).dialect, delete)),
        ensures
            final(self).wrote(*old(self), grammar::delete_tokens(*old(self).dialect, delete)),
    {
        let mut lead = String::from_str("DELETE FROM ");
        lead.append(table_ref_text(self.dialect, &delete.table).as_str());
        lead.append(" AS ");
        delete.alias.write_to(&mut lead);
        let mark = self.begin();
        self.write_str(lead.as_str());
        self.write_predicates(" WHERE ", delete.filters);
        self.write_projection(false, " RETURNING ", delete.returning);
        self.end(mark);
    }

    /// Writes a whole `SELECT` statement.
    fn write_select_statement(&mut self, ctes: &Vec<CteDef>, select: SelectTree<Bound<B>>)
        requires
            old(self).wf(),
            old(self).fits(grammar::select_statement_tokens(*old(self).dialect, ctes@, select)),
        ensures
            final(self).wrote(
                *old(self),
                grammar::select_statement_tokens(*old(self).dialect, ctes@, select),
            ),
    {
        let prefix = write_cte_prefix(self.dialect, ctes);
        let mark = self.begin();
        self.write_str(prefix.as_str());
        self.write_subselect(select);
        self.end(mark);
    }

    /// Writes a whole set-operation statement.
    fn write_set_statement(&mut self, tree: SetTree<Bound<B>>, tail: &SetTail)
        requires
            old(self).wf(),
            grammar::cte_names_agree(grammar::set_ctes(tree).seq()),
            old(self).fits(grammar::set_statement_tokens(*old(self).dialect, tree, *tail)),
        ensures
            final(self).wrote(*old(self), grammar::set_statement_tokens(*old(self).dialect, tree, *tail)),
    {
        let ctes = dedup_set_ctes(collect_set_ctes(&tree));
        let prefix = write_cte_prefix(self.dialect, &ctes);
        let close = write_set_tail(self.dialect, tail);
        let mark = self.begin();
        self.write_str(prefix.as_str());
        self.render_root(tree);
        self.write_str(close.as_str());
        self.end(mark);
    }
}

/// Renders a `SELECT` with the given definitions in its `WITH` clause into a prepared statement, in
/// place of what the buffer held.
pub fn render_select_tree<B: Backend, D: Dialect>(
    dialect: &D,
    ctes: &Vec<CteDef>,
    select: SelectTree<Bound<B>>,
    buffer: &mut PreparedSql<B>,
)
    requires
        tokens::slots(grammar::select_statement_tokens(*dialect, ctes@, select)) <= usize::MAX,
    ensures
        final(buffer).holds(tokens::emit(*dialect, grammar::select_statement_tokens(*dialect, ctes@, select))),
{
    let mut renderer = Renderer::new(dialect, PreparedSql::<B>::new());
    renderer.write_select_statement(ctes, select);
    proof {
        renderer.lemma_all_written();
    }
    *buffer = renderer.writer;
    proof {
        buffer.lemma_holds();
    }
}

/// Writes the SQL text of a `SELECT` with the given definitions in its `WITH` clause.
pub fn write_select_tree<B: Backend, D: Dialect>(
    dialect: &D,
    ctes: &Vec<CteDef>,
    select: SelectTree<Bound<B>>,
    out: &mut String,
)
    requires
        tokens::slots(grammar::select_statement_tokens(*dialect, ctes@, select)) <= usize::MAX,
    ensures
        final(out)@ == old(out)@ + tokens::sql_text(*dialect, grammar::select_statement_tokens(*dialect, ctes@, select)),
{
    let mut renderer = Renderer::new(dialect, SqlOnly::<B>::new());
    renderer.write_select_statement(ctes, select);
    proof {
        renderer.lemma_all_written();
    }
    out.append(renderer.writer.finish().as_str());
}

/// Collects the bind parameters of a `SELECT`: its literals, encoded in the order of their
/// placeholders, up to the first that cannot be encoded.
pub fn write_select_tree_params<B: Backend, D: Dialect>(
    dialect: &D,
    ctes: &Vec<CteDef>,
    select: SelectTree<Bound<B>>,
    params: &mut Vec<B::Param>,
) -> (done: Result<(), B::Error>)
    requires
        tokens::slots(grammar::select_statement_tokens(*dialect, ctes@, select)) <= usize::MAX,
    ensures
        final(params)@ == old(params)@ + tokens::literals(
            tokens::emit(*dialect, grammar::select_statement_tokens(*dialect, ctes@, select)),
        ),
        match done {
            Ok(_) => tokens::first_error(tokens::emit(*dialect, grammar::select_statement_tokens(*dialect, ctes@, select))) is None,
            Err(error) => tokens::first_error(tokens::emit(*dialect, grammar::select_statement_tokens(*dialect, ctes@, select))) == Some(error),
        },
{
    let mut renderer = Renderer::new(dialect, ParamCollector::<B>::new());
    renderer.write_select_statement(ctes, select);
    proof {
        renderer.lemma_all_written();
    }
    renderer.writer.finish(params)
}

/// Renders a set operation into a prepared statement, in place of what the buffer held.
pub fn render_set_tree<B: Backend, D: Dialect>(
    dialect: &D,
    tree: SetTree<Bound<B>>,
    tail: &SetTail,
    buffer: &mut PreparedSql<B>,
)
    requires
        tokens::slots(grammar::set_statement_tokens(*dialect, tree, *tail)) <= usize::MAX,
        grammar::cte_names_agree(grammar::set_ctes(tree).seq()),
    ensures
        final(buffer).holds(tokens::emit(*dialect, grammar::set_statement_tokens(*dialect, tree, *tail))),
{
    let mut renderer = Renderer::new(dialect, PreparedSql::<B>::new());
    renderer.write_set_statement(tree, tail);
    proof {
        renderer.lemma_all_written();
    }
    *buffer = renderer.writer;
    proof {
        buffer.lemma_holds();
    }
}

/// Writes the SQL text of a set operation.
pub fn write_set_tree<B: Backend, D: Dialect>(
    dialect: &D,
    tree: SetTree<Bound<B>>,
    tail: &SetTail,
    out: &mut String,
)
    requires
        tokens::slots(grammar::set_statement_tokens(*dialect, tree, *tail)) <= usize::MAX,
        grammar::cte_names_agree(grammar::set_ctes(tree).seq()),
    ensures
        final(out)@ == old(out)@ + tokens::sql_text(*dialect, grammar::set_statement_tokens(*dialect, tree, *tail)),
{
    let mut renderer = Renderer::new(dialect, SqlOnly::<B>::new());
    renderer.write_set_statement(tree, tail);
    proof {
        renderer.lemma_all_written();
    }
    out.append(renderer.writer.finish().as_str());
}

/// Collects the bind parameters of a set operation: its literals, encoded in the order of their
/// placeholders, up to the first that cannot be encoded.
pub fn write_set_tree_params<B: Backend, D: Dialect>(
    dialect: &D,
    tree: SetTree<Bound<B>>,
    tail: &SetTail,
    params: &mut Vec<B::Param>,
) -> (done: Result<(), B::Error>)
    requires
        tokens::slots(grammar::set_statement_tokens(*dialect, tree, *tail)) <= usize::MAX,
        grammar::cte_names_agree(grammar::set_ctes(tree).seq()),
    ensures
        final(params)@ == old(params)@ + tokens::literals(
            tokens::emit(*dialect, grammar::set_statement_tokens(*dialect, tree, *tail)),
        ),
        match done {
            Ok(_) => tokens::first_error(tokens::emit(*dialect, grammar::set_statement_tokens(*dialect, tree, *tail))) is None,
            Err(error) => tokens::first_error(tokens::emit(*dialect, grammar::set_statement_tokens(*dialect, tree, *tail))) == Some(error),
        },
{
    let mut renderer = Renderer::new(dialect, ParamCollector::<B>::new());
    renderer.write_set_statement(tree, tail);
    proof {
        renderer.lemma_all_written();
    }
    renderer.writer.finish(params)
}

/// Renders an `INSERT` of literal rows into a prepared statement, in place of what the buffer held.
pub fn render_insert_tree<B: Backend, D: Dialect>(
    dialect: &D,
    insert: InsertTree<Bound<B>>,
    buffer: &mut PreparedSql<B>,
)
    requires
        tokens::slots(grammar::insert_tokens(*dialect, insert)) <= usize::MAX,
        grammar::insert_rows_agree(insert),
    ensures
        final(buffer).holds(tokens::emit(*dialect, grammar::insert_tokens(*dialect, insert))),
{
    let mut renderer = Renderer::new(dialect, PreparedSql::<B>::new());
    let _ = renderer.write_insert_with_params(insert);
    proof {
        renderer.lemma_all_written();
    }
    *buffer = renderer.writer;
    proof {
        buffer.lemma_holds();
    }
}

/// Writes the SQL text of an `INSERT` of literal rows. A row that does not assign as many columns as the first
/// is an error; what stands before it has been written by then.
pub fn write_insert_tree<B: Backend, D: Dialect>(
    dialect: &D,
    insert: InsertTree<Bound<B>>,
    out: &mut String,
) -> (done: Result<(), RenderError>)
    requires
        tokens::slots(grammar::insert_written_tokens(*dialect, insert)) <= usize::MAX,
    ensures
        final(out)@ == old(out)@ + tokens::sql_text(*dialect, grammar::insert_written_tokens(*dialect, insert)),
        match done {
            Ok(_) => grammar::insert_rows_agree(insert),
            Err(RenderError::MismatchedRow) => !grammar::insert_rows_agree(insert),
        },
{
    let mut renderer = Renderer::new(dialect, SqlOnly::<B>::new());
    let done = renderer.write_insert_with_params(insert);
    proof {
        renderer.lemma_all_written();
    }
    out.append(renderer.writer.finish().as_str());
    done
}

/// Collects the bind parameters of an `INSERT` of literal rows: its literals, encoded in the order of their
/// placeholders, up to the first that cannot be encoded.
pub fn write_insert_tree_params<B: Backend, D: Dialect>(
    dialect: &D,
    insert: InsertTree<Bound<B>>,
    params: &mut Vec<B::Param>,
) -> (done: Result<(), B::Error>)
    requires
        tokens::slots(grammar::insert_tokens(*dialect, insert)) <= usize::MAX,
        grammar::insert_rows_agree(insert),
    ensures
        final(params)@ == old(params)@ + tokens::literals(
            tokens::emit(*dialect, grammar::insert_tokens(*dialect, insert)),
        ),
        match done {
            Ok(_) => tokens::first_error(tokens::emit(*dialect, grammar::insert_tokens(*dialect, insert))) is None,
            Err(error) => tokens::first_error(tokens::emit(*dialect, grammar::insert_tokens(*dialect, insert))) == Some(error),
        },
{
    let mut renderer = Renderer::new(dialect, ParamCollector::<B>::new());
    let _ = renderer.write_insert_with_params(insert);
    proof {
        renderer.lemma_all_written();
    }
    renderer.writer.finish(params)
}

/// Writes the SQL text of an `INSERT` of the rows of a query.
pub fn write_insert_select_tree<B: Backend, D: Dialect>(
    dialect: &D,
    insert: InsertSelectTree<Bound<B>>,
    out: &mut String,
)
    requires
        tokens::slots(grammar::insert_select_tokens(*dialect, insert)) <= usize::MAX,
        grammar::cte_names_agree(grammar::set_ctes(insert.source).seq()),
    ensures
        final(out)@ == old(out)@ + tokens::sql_text(*dialect, grammar::insert_select_tokens(*dialect, insert)),
{
    let mut renderer = Renderer::new(dialect, SqlOnly::<B>::new());
    renderer.write_insert_select_with_params(insert);
    proof {
        renderer.lemma_all_written();
    }
    out.append(renderer.writer.finish().as_str());
}

/// Collects the bind parameters of an `INSERT` of the rows of a query: its literals, encoded in the order of their
/// placeholders, up to the first that cannot be encoded.
pub fn write_insert_select_tree_params<B: Backend, D: Dialect>(
    dialect: &D,
    insert: InsertSelectTree<Bound<B>>,
    params: &mut Vec<B::Param>,
) -> (done: Result<(), B::Error>)
    requires
        tokens::slots(grammar::insert_select_tokens(*dialect, insert)) <= usize::MAX,
        grammar::cte_names_agree(grammar::set_ctes(insert.source).seq()),
    ensures
        final(params)@ == old(params)@ + tokens::literals(
            tokens::emit(*dialect, grammar::insert_select_tokens(*dialect, insert)),
        ),
        match done {
            Ok(_) => tokens::first_error(tokens::emit(*dialect, grammar::insert_select_tokens(*dialect, insert))) is None,
            Err(error) => tokens::first_error(tokens::emit(*dialect, grammar::insert_select_tokens(*dialect, insert))) == Some(error),
        },
{
    let mut renderer = Renderer::new(dialect, ParamCollector::<B>::new());
    renderer.write_insert_select_with_params(insert);
    proof {
        renderer.lemma_all_written();
    }
    renderer.writer.finish(params)
}

/// Renders an `UPDATE` into a prepared statement, in place of what the buffer held.
pub fn render_update_tree<B: Backend, D: Dialect>(
    dialect: &D,
    update: UpdateTree<Bound<B>>,
    buffer: &mut PreparedSql<B>,
)
    requires
        tokens::slots(grammar::update_tokens(*dialect, update)) <= usize::MAX,
    ensures
        final(buffer).holds(tokens::emit(*dialect, grammar::update_tokens(*dialect, update))),
{
    let mut renderer = Renderer::new(dialect, PreparedSql::<B>::new());
    renderer.write_update_with_params(update);
    proof {
        renderer.lemma_all_written();
    }
    *buffer = renderer.writer;
    proof {
        buffer.lemma_holds();
    }
}

/// Writes the SQL text of an `UPDATE`.
pub fn write_update_tree<B: Backend, D: Dialect>(
    dialect: &D,
    update: UpdateTree<Bound<B>>,
    out: &mut String,
)
    requires
        tokens::slots(grammar::update_tokens(*dialect, update)) <= usize::MAX,
    ensures
        final(out)@ == old(out)@ + tokens::sql_text(*dialect, grammar::update_tokens(*dialect, update)),
{
    let mut renderer = Renderer::new(dialect, SqlOnly::<B>::new());
    renderer.write_update_with_params(update);
    proof {
        renderer.lemma_all_written();
    }
    out.append(renderer.writer.finish().as_str());
}

/// Collects the bind parameters of an `UPDATE`: its literals, encoded in the order of their
/// placeholders, up to the first that cannot be encoded.
pub fn write_update_tree_params<B: Backend, D: Dialect>(
    dialect: &D,
    update: UpdateTree<Bound<B>>,
    params: &mut Vec<B::Param>,
) -> (done: Result<(), B::Error>)
    requires
        tokens::slots(grammar::update_tokens(*dialect, update)) <= usize::MAX,
    ensures
        final(params)@ == old(params)@ + tokens::literals(
            tokens::emit(*dialect, grammar::update_tokens(*dialect, update)),
        ),
        match done {
            Ok(_) => tokens::first_error(tokens::emit(*dialect, grammar::update_tokens(*dialect, update))) is None,
            Err(error) => tokens::first_error(tokens::emit(*dialect, grammar::update_tokens(*dialect, update))) == Some(error),
        },
{
    let mut renderer = Renderer::new(dialect, ParamCollector::<B>::new());
    renderer.write_update_with_params(update);
    proof {
        renderer.lemma_all_written();
    }
    renderer.writer.finish(params)
}

/// Renders a `DELETE` into a prepared statement, in place of what the buffer held.
pub fn render_delete_tree<B: Backend, D: Dialect>(
    dialect: &D,
    delete: DeleteTree<Bound<B>>,
    buffer: &mut PreparedSql<B>,
)
    requires
        tokens::slots(grammar::delete_tokens(*dialect, delete)) <= usize::MAX,
    ensures
        final(buffer).holds(tokens::emit(*dialect, grammar::delete_tokens(*dialect, delete))),
{
    let mut renderer = Renderer::new(dialect, PreparedSql::<B>::new());
    renderer.write_delete_with_params(delete);
    proof {
        renderer.lemma_all_written();
    }
    *buffer = renderer.writer;
    proof {
        buffer.lemma_holds();
    }
}

/// Writes the SQL text of a `DELETE`.
pub fn write_delete_tree<B: Backend, D: Dialect>(
    dialect: &D,
    delete: DeleteTree<Bound<B>>,
    out: &mut String,
)
    requires
        tokens::slots(grammar::delete_tokens(*dialect, delete)) <= usize::MAX,
    ensures
        final(out)@ == old(out)@ + tokens::sql_text(*dialect, grammar::delete_tokens(*dialect, delete)),
{
    let mut renderer = Renderer::new(dialect, SqlOnly::<B>::new());
    renderer.write_delete_with_params(delete);
    proof {
        renderer.lemma_all_written();
    }
    out.append(renderer.writer.finish().as_str());
}

/// Collects the bind parameters of a `DELETE`: its literals, encoded in the order of their
/// placeholders, up to the first that cannot be encoded.
pub fn write_delete_tree_params<B: Backend, D: Dialect>(
    dialect: &D,
    delete: DeleteTree<Bound<B>>,
    params: &mut Vec<B::Param>,
) -> (done: Result<(), B::Error>)
    requires
        tokens::slots(grammar::delete_tokens(*dialect, delete)) <= usize::MAX,
    ensures
        final(params)@ == old(params)@ + tokens::literals(
            tokens::emit(*dialect, grammar::delete_tokens(*dialect, delete)),
        ),
        match done {
            Ok(_) => tokens::first_error(tokens::emit(*dialect, grammar::delete_tokens(*dialect, delete))) is None,
            Err(error) => tokens::first_error(tokens::emit(*dialect, grammar::delete_tokens(*dialect, delete))) == Some(error),
        },
{
    let mut renderer = Renderer::new(dialect, ParamCollector::<B>::new());
    renderer.write_delete_with_params(delete);
    proof {
        renderer.lemma_all_written();
    }
    renderer.writer.finish(params)
}

} // verus!
