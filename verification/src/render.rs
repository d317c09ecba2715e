//! Shared SQL renderer.
//!
//! Writes query trees into a sink. The dialect supplies the syntax that differs between backends;
//! what is written is the token sequence that [`crate::grammar`] gives for the tree.
use crate::backend::{Backend, Bound};
use crate::chain::List;
use crate::dialect::Dialect;
use crate::grammar;
use crate::label::Label;
use crate::ops;
use crate::ops::{
    render_aggregate_func, render_arithmetic_op, render_compare_op, render_order_direction,
    render_window_func, ArithmeticOp, DateField, OrderNulls, SourceAlias,
};
use crate::sql_type::SqlType;
use crate::text;
use crate::text::push_quoted;
use crate::tokens;
use crate::tokens::{Bind, Entry, Token};
use crate::tree::{
    CaseArmTree, ExprTree, JoinTree, OrderTree, PredicateTree, ProjectionTree, SelectTree,
    SimpleArmTree, SourceTree, TableRef, WindowOrderTree,
};
use vstd::prelude::*;

pub mod clauses;
pub mod composition;
pub mod counting;
pub mod laws;
pub mod sink;
pub mod spelling;
pub mod statement;
pub mod typed;

verus! {

broadcast use crate::tokens::group_tokens;

/// A render sink: it takes SQL text and records each placeholder's bind, either a literal or the
/// place of a runtime parameter.
pub trait SqlWriter<B: Backend>: Sized {
    /// What the sink has been told so far.
    spec fn log(&self) -> Seq<Entry<Bound<B>>>;

    /// That the sink holds what it has been told.
    spec fn inv(&self) -> bool;

    fn write_str(&mut self, text: &str)
        requires
            old(self).inv(),
        ensures
            final(self).inv(),
            final(self).log() == old(self).log() + tokens::char_entries::<Bound<B>>(text@),
    ;

    fn push_bind(&mut self, value: Bound<B>)
        requires
            old(self).inv(),
        ensures
            final(self).inv(),
            final(self).log() == old(self).log().push(Entry::Bind(value)),
    ;

    fn push_runtime_bind(&mut self, index: usize)
        requires
            old(self).inv(),
        ensures
            final(self).inv(),
            final(self).log() == old(self).log().push(Entry::RuntimeBind(index as nat)),
    ;
}

/// Writes a single-quoted SQL string literal with embedded single quotes doubled.
fn write_sql_string_literal(out: &mut String, value: &str)
    ensures
        final(out)@ == old(out)@ + text::quoted(value@, '\''),
{
    push_quoted(out, value, '\'');
}

/// Threads the dialect, the sink and the running parameter counters through a rendering.
///
/// The tokens written so far are kept for the proofs: those before the construct that is being
/// written, and those of the construct itself.
pub struct Renderer<'d, B: Backend, D: Dialect, W: SqlWriter<B>> {
    dialect: &'d D,
    writer: W,
    next_param: usize,
    next_runtime_param: usize,
    before: Ghost<Seq<Token<Bound<B>>>>,
    current: Ghost<Seq<Token<Bound<B>>>>,
}

/// Where a construct began: the tokens before the construct around it, and those of that construct.
struct Mark<B: Backend> {
    before: Ghost<Seq<Token<Bound<B>>>>,
    current: Ghost<Seq<Token<Bound<B>>>>,
}

impl<'d, B: Backend, D: Dialect, W: SqlWriter<B>> Renderer<'d, B, D, W> {
    /// All tokens written so far.
    spec fn tokens(&self) -> Seq<Token<Bound<B>>> {
        self.before@ + self.current@
    }

    /// The sink has been told exactly the tokens written so far, and the counters count them.
    spec fn wf(&self) -> bool {
        &&& self.writer.inv()
        &&& self.writer.log() == tokens::emit(*self.dialect, self.tokens())
        &&& self.next_param == tokens::slots(self.tokens())
        &&& self.next_runtime_param == tokens::runtimes(self.tokens())
    }

    /// Whether the positions of further slots fit the counter.
    spec fn fits(&self, more: Seq<Token<Bound<B>>>) -> bool {
        tokens::slots(self.tokens()) + tokens::slots(more) <= usize::MAX
    }

    /// That this renderer has written `more` since `earlier`.
    spec fn wrote(&self, earlier: Self, more: Seq<Token<Bound<B>>>) -> bool {
        &&& self.wf()
        &&& self.dialect == earlier.dialect
        &&& self.before == earlier.before
        &&& self.current@ == earlier.current@ + more
    }

    /// A renderer that has written nothing into a fresh sink.
    fn new(dialect: &'d D, writer: W) -> (renderer: Self)
        requires
            writer.inv(),
            writer.log() == Seq::<Entry<Bound<B>>>::empty(),
        ensures
            renderer.wf(),
            renderer.dialect == dialect,
            renderer.before@ == Seq::<Token<Bound<B>>>::empty(),
            renderer.current@ == Seq::<Token<Bound<B>>>::empty(),
    {
        Renderer {
            dialect,
            writer,
            next_param: 0,
            next_runtime_param: 0,
            before: Ghost(Seq::empty()),
            current: Ghost(Seq::empty()),
        }
    }

    /// Begins a construct.
    fn begin(&mut self) -> (mark: Mark<B>)
        requires
            old(self).wf(),
        ensures
            final(self).wf(),
            final(self).dialect == old(self).dialect,
            final(self).before@ == old(self).tokens(),
            final(self).current@ == Seq::<Token<Bound<B>>>::empty(),
            mark.before == old(self).before,
            mark.current == old(self).current,
    {
        let mark = Mark { before: self.before, current: self.current };
        self.before = Ghost(self.before@ + self.current@);
        self.current = Ghost(Seq::empty());
        mark
    }

    /// Ends the construct that began at `mark`.
    fn end(&mut self, mark: Mark<B>)
        requires
            old(self).wf(),
            old(self).before@ == mark.before@ + mark.current@,
        ensures
            final(self).wf(),
            final(self).dialect == old(self).dialect,
            final(self).before == mark.before,
            final(self).current@ == mark.current@ + old(self).current@,
    {
        proof {
            assert(self.tokens() =~= mark.before@ + (mark.current@ + self.current@));
        }
        self.current = Ghost(mark.current@ + self.current@);
        self.before = mark.before;
    }

    /// Writes SQL text.
    fn write_str(&mut self, text: &str)
        requires
            old(self).wf(),
        ensures
            final(self).wrote(*old(self), tokens::chars(text@)),
    {
        let ghost tokens = self.tokens();
        proof {
            crate::tokens::lemma_emit_chars(*self.dialect, tokens, text@);
        }
        self.writer.write_str(text);
        self.current = Ghost(self.current@ + tokens::chars(text@));
        proof {
            assert(self.tokens() =~= tokens + tokens::chars(text@));
        }
    }

    /// Takes the placeholder of the next slot.
    fn write_placeholder(&mut self) -> (text: String)
        requires
            old(self).next_param < usize::MAX,
        ensures
            text@ == old(self).dialect.placeholder_text(old(self).next_param as nat),
            *final(self) == (Renderer {
                next_param: (old(self).next_param + 1) as usize,
                ..*old(self)
            }),
    {
        let mut text = String::new();
        let index: usize = self.next_param;
        self.next_param = index + 1;
        self.dialect.write_placeholder(index, &mut text);
        proof {
            assert(text@ =~= self.dialect.placeholder_text(index as nat));
        }
        text
    }

    /// Binds a literal and writes its placeholder.
    fn visit_literal(&mut self, value: Bound<B>)
        requires
            old(self).wf(),
            old(self).fits(seq![Token::Literal(value)]),
        ensures
            final(self).wrote(*old(self), seq![Token::Literal(value)]),
    {
        let ghost tokens = self.tokens();
        let ghost slot = Token::Literal(value);
        proof {
            lemma_one_slot(slot);
        }
        self.writer.push_bind(value);
        let placeholder = self.write_placeholder();
        self.writer.write_str(placeholder.as_str());
        self.current = Ghost(self.current@ + seq![slot]);
        proof {
            let text = self.dialect.placeholder_text(tokens::slots(tokens));
            assert(self.tokens() =~= tokens + seq![slot]);
            assert(self.tokens().drop_last() =~= tokens);
            assert(self.writer.log() =~= tokens::emit(*self.dialect, tokens) + (seq![Entry::Bind(value)]
                + tokens::char_entries(text)));
        }
    }

    /// Takes the place of the next runtime parameter.
    fn next_runtime_param(&mut self) -> (index: usize)
        requires
            old(self).next_runtime_param < usize::MAX,
        ensures
            index == old(self).next_runtime_param,
            *final(self) == (Renderer {
                next_runtime_param: (old(self).next_runtime_param + 1) as usize,
                ..*old(self)
            }),
    {
        let index: usize = self.next_runtime_param;
        self.next_runtime_param = index + 1;
        index
    }

    /// Binds a runtime parameter and writes its placeholder.
    fn visit_param(&mut self)
        requires
            old(self).wf(),
            old(self).fits(seq![Token::Runtime]),
        ensures
            final(self).wrote(*old(self), seq![Token::Runtime]),
    {
        let ghost tokens = self.tokens();
        let ghost slot = Token::<Bound<B>>::Runtime;
        proof {
            lemma_one_slot(slot);
            crate::tokens::lemma_runtimes_are_slots(tokens);
        }
        let index = self.next_runtime_param();
        self.writer.push_runtime_bind(index);
        let placeholder = self.write_placeholder();
        self.writer.write_str(placeholder.as_str());
        self.current = Ghost(self.current@ + seq![slot]);
        proof {
            let text = self.dialect.placeholder_text(tokens::slots(tokens));
            assert(self.tokens() =~= tokens + seq![slot]);
            assert(self.tokens().drop_last() =~= tokens);
            assert(self.writer.log() =~= tokens::emit(*self.dialect, tokens) + (seq![
                Entry::RuntimeBind(tokens::runtimes(tokens)),
            ] + tokens::char_entries(text)));
        }
    }
}

proof fn lemma_one_slot<L>(slot: Token<L>)
    requires
        !(slot is Char),
    ensures
        tokens::slots(seq![slot]) == 1,
        tokens::runtimes(seq![slot]) == (if slot is Runtime {
            1nat
        } else {
            0nat
        }),
{
    reveal_with_fuel(tokens::slots, 2);
    reveal_with_fuel(tokens::runtimes, 2);
}

/// Three pieces of text put together.
fn joined(a: &str, b: &str, c: &str) -> (text: String)
    ensures
        text@ == a@ + b@ + c@,
{
    let mut text = String::from_str(a);
    text.append(b);
    text.append(c);
    text
}

/// What opens a cast, where one is wanted.
fn cast_open_text(cast: &Option<SqlType>) -> (text: String)
    ensures
        text@ == grammar::cast_open(*cast),
{
    match cast {
        Some(_) => String::from_str("CAST("),
        None => String::new(),
    }
}

/// What closes a cast, where one is wanted.
fn cast_close_text<D: Dialect>(dialect: &D, cast: &Option<SqlType>) -> (text: String)
    ensures
        text@ == grammar::cast_close(*dialect, *cast),
{
    match cast {
        Some(ty) => {
            let mut text = String::from_str(" AS ");
            dialect.write_cast_type(ty, &mut text);
            text.append(")");
            text
        },
        None => String::new(),
    }
}

/// A quoted table name, qualified by its schema.
fn table_ref_text<D: Dialect>(dialect: &D, table: &TableRef) -> (text: String)
    ensures
        text@ == grammar::table_text(*dialect, *table),
{
    let mut text = String::new();
    if let Some(schema) = &table.schema {
        dialect.write_quoted_ident(schema.as_str(), &mut text);
        text.append(".");
    }
    dialect.write_quoted_ident(table.name.as_str(), &mut text);
    proof {
        assert(text@ =~= grammar::table_text(*dialect, *table));
    }
    text
}

impl<'d, B: Backend, D: Dialect, W: SqlWriter<B>> Renderer<'d, B, D, W> {
    /// Writes a quoted identifier.
    fn write_ident(&mut self, ident: &str)
        requires
            old(self).wf(),
        ensures
            final(self).wrote(*old(self), tokens::chars(old(self).dialect.quoted_ident(ident@))),
    {
        let mut text = String::new();
        self.dialect.write_quoted_ident(ident, &mut text);
        proof {
            assert(text@ =~= self.dialect.quoted_ident(ident@));
        }
        self.write_str(text.as_str());
    }

    /// Opens a cast, where one is wanted.
    fn visit_case_value_open(&mut self, cast: &Option<SqlType>)
        requires
            old(self).wf(),
        ensures
            final(self).wrote(*old(self), tokens::chars(grammar::cast_open(*cast))),
    {
        let text = cast_open_text(cast);
        self.write_str(text.as_str());
    }

    /// Closes a cast, where one is wanted.
    fn visit_case_value_close(&mut self, cast: &Option<SqlType>)
        requires
            old(self).wf(),
        ensures
            final(self).wrote(*old(self), tokens::chars(grammar::cast_close(*old(self).dialect, *cast))),
    {
        let text = cast_close_text(self.dialect, cast);
        self.write_str(text.as_str());
    }

    fn visit_column(&mut self, bare: bool, alias: SourceAlias, column: &Label)
        requires
            old(self).wf(),
        ensures
            final(self).wrote(
                *old(self),
                tokens::chars(grammar::column_text(*old(self).dialect, bare, alias, *column)),
            ),
    {
        let mut text = String::new();
        if !bare {
            alias.write_to(&mut text);
            text.append(".");
        }
        self.dialect.write_quoted_ident(column.as_str(), &mut text);
        proof {
            assert(text@ =~= grammar::column_text(*self.dialect, bare, alias, *column));
        }
        self.write_str(text.as_str());
    }
}

impl<'d, B: Backend, D: Dialect, W: SqlWriter<B>> Renderer<'d, B, D, W> {
    #[verifier::spinoff_prover]
    #[verifier::rlimit(30)]
    fn visit_binary(&mut self, bare: bool, expr: ExprTree<Bound<B>>)
        requires
            old(self).wf(),
            expr is Binary,
            old(self).fits(grammar::expr_tokens(*old(self).dialect, bare, expr)),
        ensures
            final(self).wrote(*old(self), grammar::expr_tokens(*old(self).dialect, bare, expr)),
        decreases expr, 0nat,
    {
        let mark = self.begin();
        if let ExprTree::Binary { op, left, right } = expr {
            if op == ArithmeticOp::Divide && self.dialect.integer_division_needs_float_cast() {
                let mut float = String::new();
                self.dialect.write_cast_type(&SqlType::F64, &mut float);
                proof {
                    assert(float@ =~= self.dialect.cast_type_text(SqlType::F64));
                }
                self.write_str("(CAST(");
                self.write_expr(bare, *left);
                self.write_str(joined(" AS ", float.as_str(), ") / CAST(").as_str());
                self.write_expr(bare, *right);
                self.write_str(joined(" AS ", float.as_str(), "))").as_str());
            } else {
                self.write_str("(");
                self.write_expr(bare, *left);
                self.write_str(joined(" ", render_arithmetic_op(op), " ").as_str());
                self.write_expr(bare, *right);
                self.write_str(")");
            }
        }
        self.end(mark);
    }

    fn visit_nullif(&mut self, bare: bool, expr: ExprTree<Bound<B>>)
        requires
            old(self).wf(),
            expr is Nullif,
            old(self).fits(grammar::expr_tokens(*old(self).dialect, bare, expr)),
        ensures
            final(self).wrote(*old(self), grammar::expr_tokens(*old(self).dialect, bare, expr)),
        decreases expr, 0nat,
    {
        let mark = self.begin();
        if let ExprTree::Nullif { left, left_needs_cast, right, right_needs_cast, result } = expr {
            // Only two bare operands need a cast: a typed one anchors the other.
            let cast = if left_needs_cast && right_needs_cast {
                result
            } else {
                None
            };
            self.write_str("NULLIF(");
            self.write_cast_expr(bare, &cast, *left);
            self.write_str(", ");
            self.write_cast_expr(bare, &cast, *right);
            self.write_str(")");
        }
        self.end(mark);
    }

    fn visit_coalesce(&mut self, bare: bool, expr: ExprTree<Bound<B>>)
        requires
            old(self).wf(),
            expr is Coalesce,
            old(self).fits(grammar::expr_tokens(*old(self).dialect, bare, expr)),
        ensures
            final(self).wrote(*old(self), grammar::expr_tokens(*old(self).dialect, bare, expr)),
        decreases expr, 0nat,
    {
        let mark = self.begin();
        if let ExprTree::Coalesce { args, all_args_need_cast, result } = expr {
            let cast = if all_args_need_cast {
                result
            } else {
                None
            };
            self.write_str("COALESCE(");
            self.write_cast_args(bare, &cast, true, args);
            self.write_str(")");
        }
        self.end(mark);
    }

    #[verifier::spinoff_prover]
    #[verifier::rlimit(30)]
    fn visit_aggregate(&mut self, bare: bool, expr: ExprTree<Bound<B>>)
        requires
            old(self).wf(),
            expr is Aggregate,
            old(self).fits(grammar::expr_tokens(*old(self).dialect, bare, expr)),
        ensures
            final(self).wrote(*old(self), grammar::expr_tokens(*old(self).dialect, bare, expr)),
        decreases expr, 0nat,
    {
        let mark = self.begin();
        if let ExprTree::Aggregate { func, distinct, cast, operand } = expr {
            let mut open = cast_open_text(&cast);
            open.append(render_aggregate_func(func));
            open.append("(");
            if distinct {
                open.append("DISTINCT ");
            }
            let mut close = String::from_str(")");
            close.append(cast_close_text(self.dialect, &cast).as_str());
            proof {
                assert(open@ =~= grammar::cast_open(cast) + ops::aggregate_name(func) + "("@ + (if distinct {
                    "DISTINCT "@
                } else {
                    Seq::empty()
                }));
            }
            self.write_str(open.as_str());
            self.write_expr(bare, *operand);
            self.write_str(close.as_str());
        }
        self.end(mark);
    }

    fn visit_scalar_subquery(&mut self, bare: bool, expr: ExprTree<Bound<B>>)
        requires
            old(self).wf(),
            expr is ScalarSubquery,
            old(self).fits(grammar::expr_tokens(*old(self).dialect, bare, expr)),
        ensures
            final(self).wrote(*old(self), grammar::expr_tokens(*old(self).dialect, bare, expr)),
        decreases expr, 0nat,
    {
        let mark = self.begin();
        if let ExprTree::ScalarSubquery (subquery) = expr {
            self.write_str("(");
            self.write_subselect(*subquery);
            self.write_str(")");
        }
        self.end(mark);
    }

    #[verifier::spinoff_prover]
    #[verifier::rlimit(30)]
    fn visit_window(&mut self, bare: bool, expr: ExprTree<Bound<B>>)
        requires
            old(self).wf(),
            expr is Window,
            old(self).fits(grammar::expr_tokens(*old(self).dialect, bare, expr)),
        ensures
            final(self).wrote(*old(self), grammar::expr_tokens(*old(self).dialect, bare, expr)),
        decreases expr, 0nat,
    {
        let mark = self.begin();
        if let ExprTree::Window { func, cast, args, partitions, orders } = expr {
            proof {
                reveal_strlit("");
                assert(""@ =~= Seq::empty());
            }
            let order_lead = if partitions.is_empty() {
                "ORDER BY "
            } else {
                " ORDER BY "
            };
            let mut open = cast_open_text(&cast);
            open.append(render_window_func(func));
            open.append("(");
            let mut close = String::from_str(")");
            close.append(cast_close_text(self.dialect, &cast).as_str());
            self.write_str(open.as_str());
            self.write_expr_list(bare, "", args);
            self.write_str(") OVER (");
            self.write_expr_list(bare, "PARTITION BY ", partitions);
            self.write_window_orders(bare, order_lead, orders);
            self.write_str(close.as_str());
        }
        self.end(mark);
    }

    fn visit_case(&mut self, bare: bool, expr: ExprTree<Bound<B>>)
        requires
            old(self).wf(),
            expr is Case,
            old(self).fits(grammar::expr_tokens(*old(self).dialect, bare, expr)),
        ensures
            final(self).wrote(*old(self), grammar::expr_tokens(*old(self).dialect, bare, expr)),
        decreases expr, 0nat,
    {
        let mark = self.begin();
        if let ExprTree::Case { arms, else_, result } = expr {
            self.write_str("CASE");
            self.write_case_arms(bare, &result, arms);
            self.write_else(bare, &result, else_);
            self.write_str(" END");
        }
        self.end(mark);
    }

    #[verifier::spinoff_prover]
    #[verifier::rlimit(30)]
    fn visit_simple_case(&mut self, bare: bool, expr: ExprTree<Bound<B>>)
        requires
            old(self).wf(),
            expr is SimpleCase,
            old(self).fits(grammar::expr_tokens(*old(self).dialect, bare, expr)),
        ensures
            final(self).wrote(*old(self), grammar::expr_tokens(*old(self).dialect, bare, expr)),
        decreases expr, 0nat,
    {
        let mark = self.begin();
        if let ExprTree::SimpleCase { operand, operand_needs_cast, comparison, arms, else_, result } = expr {
            // A bare operand is cast to the comparison type; the `WHEN` values are anchored by the operand.
            let cast = if operand_needs_cast {
                comparison
            } else {
                None
            };
            self.write_str("CASE ");
            self.write_cast_expr(bare, &cast, *operand);
            self.write_simple_arms(bare, &result, arms);
            self.write_else(bare, &result, else_);
            self.write_str(" END");
        }
        self.end(mark);
    }

    fn visit_unary_fn(&mut self, bare: bool, expr: ExprTree<Bound<B>>)
        requires
            old(self).wf(),
            expr is UnaryFn,
            old(self).fits(grammar::expr_tokens(*old(self).dialect, bare, expr)),
        ensures
            final(self).wrote(*old(self), grammar::expr_tokens(*old(self).dialect, bare, expr)),
        decreases expr, 0nat,
    {
        let mark = self.begin();
        if let ExprTree::UnaryFn { func, operand } = expr {
            let mut open = String::from_str(func.sql_name());
            open.append("(");
            self.write_str(open.as_str());
            self.write_expr(bare, *operand);
            self.write_str(")");
        }
        self.end(mark);
    }

    fn visit_concat(&mut self, bare: bool, expr: ExprTree<Bound<B>>)
        requires
            old(self).wf(),
            expr is Concat,
            old(self).fits(grammar::expr_tokens(*old(self).dialect, bare, expr)),
        ensures
            final(self).wrote(*old(self), grammar::expr_tokens(*old(self).dialect, bare, expr)),
        decreases expr, 0nat,
    {
        let mark = self.begin();
        if let ExprTree::Concat { left, right } = expr {
            if self.dialect.concat_uses_pipe_operator() {
                self.write_str("(");
                self.write_expr(bare, *left);
                self.write_str(" || ");
                self.write_expr(bare, *right);
                self.write_str(")");
            } else {
                self.write_str("CONCAT(");
                self.write_expr(bare, *left);
                self.write_str(", ");
                self.write_expr(bare, *right);
                self.write_str(")");
            }
        }
        self.end(mark);
    }

    fn visit_substring(&mut self, bare: bool, expr: ExprTree<Bound<B>>)
        requires
            old(self).wf(),
            expr is Substring,
            old(self).fits(grammar::expr_tokens(*old(self).dialect, bare, expr)),
        ensures
            final(self).wrote(*old(self), grammar::expr_tokens(*old(self).dialect, bare, expr)),
        decreases expr, 0nat,
    {
        let mark = self.begin();
        if let ExprTree::Substring { string, start, len } = expr {
            let cast = if self.dialect.substring_bounds_need_cast() {
                Some(SqlType::I32)
            } else {
                None
            };
            self.write_str("SUBSTRING(");
            self.write_expr(bare, *string);
            self.write_str(" FROM ");
            self.write_cast_expr(bare, &cast, *start);
            self.write_str(" FOR ");
            self.write_cast_expr(bare, &cast, *len);
            self.write_str(")");
        }
        self.end(mark);
    }

    #[verifier::spinoff_prover]
    #[verifier::rlimit(30)]
    fn visit_extract(&mut self, bare: bool, expr: ExprTree<Bound<B>>)
        requires
            old(self).wf(),
            expr is Extract,
            old(self).fits(grammar::expr_tokens(*old(self).dialect, bare, expr)),
        ensures
            final(self).wrote(*old(self), grammar::expr_tokens(*old(self).dialect, bare, expr)),
        decreases expr, 0nat,
    {
        let mark = self.begin();
        if let ExprTree::Extract { field, operand, cast, timezone, operand_cast } = expr {
            let inner = if self.dialect.timestamp_operand_needs_cast() {
                operand_cast
            } else {
                None
            };
            self.write_extract_open(field);
            match timezone {
                Some(zone) => {
                    let mut close = String::from_str(" AT TIME ZONE ");
                    write_sql_string_literal(&mut close, zone.as_str());
                    close.append(")");
                    let inner_mark = self.begin();
                    self.write_str("(");
                    self.write_cast_expr(bare, &inner, *operand);
                    self.write_str(close.as_str());
                    self.end(inner_mark);
                },
                None => self.write_cast_expr(bare, &inner, *operand),
            }
            self.write_extract_close(field, &cast);
        }
        self.end(mark);
    }

    #[verifier::spinoff_prover]
    #[verifier::rlimit(30)]
    fn visit_date_trunc(&mut self, bare: bool, expr: ExprTree<Bound<B>>)
        requires
            old(self).wf(),
            expr is DateTrunc,
            old(self).fits(grammar::expr_tokens(*old(self).dialect, bare, expr)),
        ensures
            final(self).wrote(*old(self), grammar::expr_tokens(*old(self).dialect, bare, expr)),
        decreases expr, 0nat,
    {
        let mark = self.begin();
        if let ExprTree::DateTrunc { unit, operand, timezone, operand_cast } = expr {
            let inner = if self.dialect.timestamp_operand_needs_cast() {
                operand_cast
            } else {
                None
            };
            let mut open = String::from_str("date_trunc('");
            open.append(unit.trunc_literal());
            open.append("', ");
            let mut close = String::new();
            if let Some(zone) = &timezone {
                close.append(", ");
                write_sql_string_literal(&mut close, zone.as_str());
            }
            close.append(")");
            proof {
                assert(timezone is None ==> close@ =~= ")"@);
                assert(timezone matches Some(zone) ==> close@ =~= ", "@ + text::quoted(zone@, '\'') + ")"@);
            }
            self.write_str(open.as_str());
            self.write_cast_expr(bare, &inner, *operand);
            self.write_str(close.as_str());
        }
        self.end(mark);
    }

    fn visit_extract_second(&mut self, bare: bool, expr: ExprTree<Bound<B>>)
        requires
            old(self).wf(),
            expr is ExtractSecond,
            old(self).fits(grammar::expr_tokens(*old(self).dialect, bare, expr)),
        ensures
            final(self).wrote(*old(self), grammar::expr_tokens(*old(self).dialect, bare, expr)),
        decreases expr, 0nat,
    {
        let mark = self.begin();
        if let ExprTree::ExtractSecond { operand, cast, operand_cast } = expr {
            let inner = if self.dialect.timestamp_operand_needs_cast() {
                operand_cast
            } else {
                None
            };
            // Where `EXTRACT(SECOND …)` is an integer, the composite unit is divided back to a fraction.
            let micro = self.dialect.extract_second_uses_microsecond_unit();
            let mut close = if micro {
                String::from_str(") / 1000000.0 AS ")
            } else {
                String::from_str(") AS ")
            };
            self.dialect.write_cast_type(&cast, &mut close);
            close.append(")");
            if micro {
                self.write_str("CAST(EXTRACT(SECOND_MICROSECOND FROM ");
            } else {
                self.write_str("CAST(EXTRACT(SECOND FROM ");
            }
            self.write_cast_expr(bare, &inner, *operand);
            self.write_str(close.as_str());
        }
        self.end(mark);
    }

    /// Writes an expression.
    fn write_expr(&mut self, bare: bool, expr: ExprTree<Bound<B>>)
        requires
            old(self).wf(),
            old(self).fits(grammar::expr_tokens(*old(self).dialect, bare, expr)),
        ensures
            final(self).wrote(*old(self), grammar::expr_tokens(*old(self).dialect, bare, expr)),
        decreases expr, 1nat,
    {
        match expr {
            ExprTree::Column { alias, column } => self.visit_column(bare, alias, &column),
            ExprTree::Literal(value) => self.visit_literal(value),
            ExprTree::Param => self.visit_param(),
            ExprTree::Now => self.write_str("CURRENT_TIMESTAMP"),
            ExprTree::Binary { .. } => self.visit_binary(bare, expr),
            ExprTree::Nullif { .. } => self.visit_nullif(bare, expr),
            ExprTree::Coalesce { .. } => self.visit_coalesce(bare, expr),
            ExprTree::Aggregate { .. } => self.visit_aggregate(bare, expr),
            ExprTree::ScalarSubquery(_) => self.visit_scalar_subquery(bare, expr),
            ExprTree::Window { .. } => self.visit_window(bare, expr),
            ExprTree::Case { .. } => self.visit_case(bare, expr),
            ExprTree::SimpleCase { .. } => self.visit_simple_case(bare, expr),
            ExprTree::UnaryFn { .. } => self.visit_unary_fn(bare, expr),
            ExprTree::Concat { .. } => self.visit_concat(bare, expr),
            ExprTree::Substring { .. } => self.visit_substring(bare, expr),
            ExprTree::Extract { .. } => self.visit_extract(bare, expr),
            ExprTree::DateTrunc { .. } => self.visit_date_trunc(bare, expr),
            ExprTree::ExtractSecond { .. } => self.visit_extract_second(bare, expr),
        }
    }

    /// Writes an expression inside a cast, where one is wanted.
    fn write_cast_expr(&mut self, bare: bool, cast: &Option<SqlType>, expr: ExprTree<Bound<B>>)
        requires
            old(self).wf(),
            old(self).fits(grammar::cast_expr_tokens(*old(self).dialect, bare, *cast, expr)),
        ensures
            final(self).wrote(
                *old(self),
                grammar::cast_expr_tokens(*old(self).dialect, bare, *cast, expr),
            ),
        decreases expr, 2nat,
    {
        let mark = self.begin();
        self.visit_case_value_open(cast);
        self.write_expr(bare, expr);
        self.visit_case_value_close(cast);
        self.end(mark);
    }

    /// Writes the `ELSE` branch of a `CASE`, where there is one.
    fn write_else(
        &mut self,
        bare: bool,
        cast: &Option<SqlType>,
        else_: Option<Box<ExprTree<Bound<B>>>>,
    )
        requires
            old(self).wf(),
            old(self).fits(grammar::else_tokens(*old(self).dialect, bare, *cast, else_)),
        ensures
            final(self).wrote(*old(self), grammar::else_tokens(*old(self).dialect, bare, *cast, else_)),
        decreases else_, 1nat,
    {
        if let Some(value) = else_ {
            let mark = self.begin();
            self.write_str(" ELSE ");
            self.write_cast_expr(bare, cast, *value);
            self.end(mark);
        }
    }

    /// Writes what opens an `EXTRACT` of a field. The whole-seconds component is rounded down,
    /// since `EXTRACT(SECOND …)` is fractional on some backends.
    fn write_extract_open(&mut self, field: DateField)
        requires
            old(self).wf(),
        ensures
            final(self).wrote(*old(self), tokens::chars(grammar::extract_open(field))),
    {
        let mut text = String::from_str("CAST(");
        if field == DateField::Second {
            text.append("FLOOR(");
        }
        text.append("EXTRACT(");
        text.append(field.extract_keyword());
        text.append(" FROM ");
        proof {
            assert(text@ =~= grammar::extract_open(field));
        }
        self.write_str(text.as_str());
    }

    /// Writes what closes an `EXTRACT` of a field.
    fn write_extract_close(&mut self, field: DateField, cast: &SqlType)
        requires
            old(self).wf(),
        ensures
            final(self).wrote(
                *old(self),
                tokens::chars(grammar::extract_close(*old(self).dialect, field, *cast)),
            ),
    {
        let mut text = String::from_str(")");
        if field == DateField::Second {
            text.append(")");
        }
        text.append(" AS ");
        self.dialect.write_cast_type(cast, &mut text);
        text.append(")");
        proof {
            assert(text@ =~= grammar::extract_close(*self.dialect, field, *cast));
        }
        self.write_str(text.as_str());
    }

    /// Writes comma-separated expressions, with `lead` before the first.
    fn write_expr_list(&mut self, bare: bool, lead: &str, items: List<ExprTree<Bound<B>>>)
        requires
            old(self).wf(),
            old(self).fits(grammar::expr_list_tokens(*old(self).dialect, bare, lead@, items)),
        ensures
            final(self).wrote(*old(self), grammar::expr_list_tokens(*old(self).dialect, bare, lead@, items)),
        decreases items, 1nat,
    {
        if let List::Cons { head, tail } = items {
            let item = *head;
            let mark = self.begin();
            self.write_str(lead);
            self.write_expr(bare, item);
            self.write_expr_list(bare, ", ", *tail);
            self.end(mark);
        }
    }

    /// Writes comma-separated expressions, each inside the cast where one is wanted.
    fn write_cast_args(&mut self, bare: bool, cast: &Option<SqlType>, first: bool, items: List<ExprTree<Bound<B>>>)
        requires
            old(self).wf(),
            old(self).fits(grammar::cast_args_tokens(*old(self).dialect, bare, *cast, first, items)),
        ensures
            final(self).wrote(*old(self), grammar::cast_args_tokens(*old(self).dialect, bare, *cast, first, items)),
        decreases items, 1nat,
    {
        if let List::Cons { head, tail } = items {
            let item = *head;
            let mark = self.begin();
            if !first {
                self.write_str(", ");
            }
            self.write_cast_expr(bare, cast, item);
            self.write_cast_args(bare, cast, false, *tail);
            self.end(mark);
        }
    }

    /// Writes the `ORDER BY` terms of a window, with `lead` before the first.
    fn write_window_orders(&mut self, bare: bool, lead: &str, items: List<WindowOrderTree<Bound<B>>>)
        requires
            old(self).wf(),
            old(self).fits(grammar::window_orders_tokens(*old(self).dialect, bare, lead@, items)),
        ensures
            final(self).wrote(*old(self), grammar::window_orders_tokens(*old(self).dialect, bare, lead@, items)),
        decreases items, 1nat,
    {
        if let List::Cons { head, tail } = items {
            let item = *head;
            let mark = self.begin();
            let mut direction = String::from_str(" ");
            direction.append(render_order_direction(item.direction));
            self.write_str(lead);
            self.write_expr(bare, item.expr);
            self.write_str(direction.as_str());
            self.write_window_orders(bare, ", ", *tail);
            self.end(mark);
        }
    }

    /// Writes the arms of a searched `CASE`.
    fn write_case_arms(&mut self, bare: bool, cast: &Option<SqlType>, items: List<CaseArmTree<Bound<B>>>)
        requires
            old(self).wf(),
            old(self).fits(grammar::case_arms_tokens(*old(self).dialect, bare, *cast, items)),
        ensures
            final(self).wrote(*old(self), grammar::case_arms_tokens(*old(self).dialect, bare, *cast, items)),
        decreases items, 1nat,
    {
        if let List::Cons { head, tail } = items {
            let item = *head;
            let mark = self.begin();
            self.write_str(" WHEN ");
            self.write_predicate(bare, item.when);
            self.write_str(" THEN ");
            self.write_cast_expr(bare, cast, item.value);
            self.write_case_arms(bare, cast, *tail);
            self.end(mark);
        }
    }

    /// Writes the arms of a simple `CASE`.
    fn write_simple_arms(&mut self, bare: bool, cast: &Option<SqlType>, items: List<SimpleArmTree<Bound<B>>>)
        requires
            old(self).wf(),
            old(self).fits(grammar::simple_arms_tokens(*old(self).dialect, bare, *cast, items)),
        ensures
            final(self).wrote(*old(self), grammar::simple_arms_tokens(*old(self).dialect, bare, *cast, items)),
        decreases items, 1nat,
    {
        if let List::Cons { head, tail } = items {
            let item = *head;
            let mark = self.begin();
            self.write_str(" WHEN ");
            self.write_expr(bare, item.when);
            self.write_str(" THEN ");
            self.write_cast_expr(bare, cast, item.value);
            self.write_simple_arms(bare, cast, *tail);
            self.end(mark);
        }
    }

    fn visit_compare(&mut self, bare: bool, predicate: PredicateTree<Bound<B>>)
        requires
            old(self).wf(),
            predicate is Compare,
            old(self).fits(grammar::predicate_tokens(*old(self).dialect, bare, predicate)),
        ensures
            final(self).wrote(*old(self), grammar::predicate_tokens(*old(self).dialect, bare, predicate)),
        decreases predicate, 0nat,
    {
        let mark = self.begin();
        if let PredicateTree::Compare { op, left, right } = predicate {
            self.write_str("(");
            self.write_expr(bare, *left);
            self.write_str(joined(" ", render_compare_op(op), " ").as_str());
            self.write_expr(bare, *right);
            self.write_str(")");
        }
        self.end(mark);
    }

    fn visit_and(&mut self, bare: bool, predicate: PredicateTree<Bound<B>>)
        requires
            old(self).wf(),
            predicate is And,
            old(self).fits(grammar::predicate_tokens(*old(self).dialect, bare, predicate)),
        ensures
            final(self).wrote(*old(self), grammar::predicate_tokens(*old(self).dialect, bare, predicate)),
        decreases predicate, 0nat,
    {
        let mark = self.begin();
        if let PredicateTree::And { left, right } = predicate {
            self.write_str("(");
            self.write_predicate(bare, *left);
            self.write_str(" AND ");
            self.write_predicate(bare, *right);
            self.write_str(")");
        }
        self.end(mark);
    }

    fn visit_or(&mut self, bare: bool, predicate: PredicateTree<Bound<B>>)
        requires
            old(self).wf(),
            predicate is Or,
            old(self).fits(grammar::predicate_tokens(*old(self).dialect, bare, predicate)),
        ensures
            final(self).wrote(*old(self), grammar::predicate_tokens(*old(self).dialect, bare, predicate)),
        decreases predicate, 0nat,
    {
        let mark = self.begin();
        if let PredicateTree::Or { left, right } = predicate {
            self.write_str("(");
            self.write_predicate(bare, *left);
            self.write_str(" OR ");
            self.write_predicate(bare, *right);
            self.write_str(")");
        }
        self.end(mark);
    }

    fn visit_not(&mut self, bare: bool, predicate: PredicateTree<Bound<B>>)
        requires
            old(self).wf(),
            predicate is Not,
            old(self).fits(grammar::predicate_tokens(*old(self).dialect, bare, predicate)),
        ensures
            final(self).wrote(*old(self), grammar::predicate_tokens(*old(self).dialect, bare, predicate)),
        decreases predicate, 0nat,
    {
        let mark = self.begin();
        if let PredicateTree::Not (inner) = predicate {
            self.write_str("(NOT ");
            self.write_predicate(bare, *inner);
            self.write_str(")");
        }
        self.end(mark);
    }

    fn visit_is_null(&mut self, bare: bool, predicate: PredicateTree<Bound<B>>)
        requires
            old(self).wf(),
            predicate is IsNull,
            old(self).fits(grammar::predicate_tokens(*old(self).dialect, bare, predicate)),
        ensures
            final(self).wrote(*old(self), grammar::predicate_tokens(*old(self).dialect, bare, predicate)),
        decreases predicate, 0nat,
    {
        let mark = self.begin();
        if let PredicateTree::IsNull { negated, operand } = predicate {
            self.write_str("(");
            self.write_expr(bare, *operand);
            if negated {
                self.write_str(" IS NOT NULL)");
            } else {
                self.write_str(" IS NULL)");
            }
        }
        self.end(mark);
    }

    fn visit_like(&mut self, bare: bool, predicate: PredicateTree<Bound<B>>)
        requires
            old(self).wf(),
            predicate is Like,
            old(self).fits(grammar::predicate_tokens(*old(self).dialect, bare, predicate)),
        ensures
            final(self).wrote(*old(self), grammar::predicate_tokens(*old(self).dialect, bare, predicate)),
        decreases predicate, 0nat,
    {
        let mark = self.begin();
        if let PredicateTree::Like { case_insensitive, negated, operand, pattern } = predicate {
            let mut operator = String::new();
            self.dialect.write_like_operator(case_insensitive, negated, &mut operator);
            proof {
                assert(operator@ =~= self.dialect.like_operator_text(case_insensitive, negated));
            }
            self.write_str("(");
            self.write_expr(bare, *operand);
            self.write_str(operator.as_str());
            self.write_expr(bare, *pattern);
            self.write_str(")");
        }
        self.end(mark);
    }

    fn visit_in(&mut self, bare: bool, predicate: PredicateTree<Bound<B>>)
        requires
            old(self).wf(),
            predicate is In,
            old(self).fits(grammar::predicate_tokens(*old(self).dialect, bare, predicate)),
        ensures
            final(self).wrote(*old(self), grammar::predicate_tokens(*old(self).dialect, bare, predicate)),
        decreases predicate, 0nat,
    {
        let mark = self.begin();
        if let PredicateTree::In { negated, operand, values } = predicate {
            // SQL has no `IN ()`. For an empty list the operand is rendered once, so that its parameters
            // keep their places, and a constant fixes the truth value.
            if values.is_empty() {
                self.write_str("(");
                self.write_expr(bare, *operand);
                if negated {
                    self.write_str(" IS NOT NULL OR 1 = 1)");
                } else {
                    self.write_str(" IS NOT NULL AND 1 = 0)");
                }
            } else {
                self.write_str("(");
                self.write_expr(bare, *operand);
                if negated {
                    self.write_str(" NOT IN (");
                } else {
                    self.write_str(" IN (");
                }
                self.write_values(true, values);
                self.write_str("))");
            }
        }
        self.end(mark);
    }

    fn visit_between(&mut self, bare: bool, predicate: PredicateTree<Bound<B>>)
        requires
            old(self).wf(),
            predicate is Between,
            old(self).fits(grammar::predicate_tokens(*old(self).dialect, bare, predicate)),
        ensures
            final(self).wrote(*old(self), grammar::predicate_tokens(*old(self).dialect, bare, predicate)),
        decreases predicate, 0nat,
    {
        let mark = self.begin();
        if let PredicateTree::Between { negated, operand, lo, hi } = predicate {
            self.write_str("(");
            self.write_expr(bare, *operand);
            if negated {
                self.write_str(" NOT BETWEEN ");
            } else {
                self.write_str(" BETWEEN ");
            }
            self.write_expr(bare, *lo);
            self.write_str(" AND ");
            self.write_expr(bare, *hi);
            self.write_str(")");
        }
        self.end(mark);
    }

    fn visit_bool_test(&mut self, bare: bool, predicate: PredicateTree<Bound<B>>)
        requires
            old(self).wf(),
            predicate is BoolTest,
            old(self).fits(grammar::predicate_tokens(*old(self).dialect, bare, predicate)),
        ensures
            final(self).wrote(*old(self), grammar::predicate_tokens(*old(self).dialect, bare, predicate)),
        decreases predicate, 0nat,
    {
        let mark = self.begin();
        if let PredicateTree::BoolTest { negated, operand } = predicate {
            if negated {
                self.write_str("(NOT ");
            } else {
                self.write_str("(");
            }
            self.write_expr(bare, *operand);
            self.write_str(")");
        }
        self.end(mark);
    }

    fn visit_in_subquery(&mut self, bare: bool, predicate: PredicateTree<Bound<B>>)
        requires
            old(self).wf(),
            predicate is InSubquery,
            old(self).fits(grammar::predicate_tokens(*old(self).dialect, bare, predicate)),
        ensures
            final(self).wrote(*old(self), grammar::predicate_tokens(*old(self).dialect, bare, predicate)),
        decreases predicate, 0nat,
    {
        let mark = self.begin();
        if let PredicateTree::InSubquery { negated, operand, subquery } = predicate {
            self.write_str("(");
            self.write_expr(bare, *operand);
            if negated {
                self.write_str(" NOT IN (");
            } else {
                self.write_str(" IN (");
            }
            self.write_subselect(*subquery);
            self.write_str("))");
        }
        self.end(mark);
    }

    fn visit_exists(&mut self, bare: bool, predicate: PredicateTree<Bound<B>>)
        requires
            old(self).wf(),
            predicate is Exists,
            old(self).fits(grammar::predicate_tokens(*old(self).dialect, bare, predicate)),
        ensures
            final(self).wrote(*old(self), grammar::predicate_tokens(*old(self).dialect, bare, predicate)),
        decreases predicate, 0nat,
    {
        let mark = self.begin();
        if let PredicateTree::Exists { negated, subquery } = predicate {
            if negated {
                self.write_str("(NOT EXISTS (");
            } else {
                self.write_str("(EXISTS (");
            }
            self.write_subselect(*subquery);
            self.write_str("))");
        }
        self.end(mark);
    }

    /// Writes a predicate.
    fn write_predicate(&mut self, bare: bool, predicate: PredicateTree<Bound<B>>)
        requires
            old(self).wf(),
            old(self).fits(grammar::predicate_tokens(*old(self).dialect, bare, predicate)),
        ensures
            final(self).wrote(*old(self), grammar::predicate_tokens(*old(self).dialect, bare, predicate)),
        decreases predicate, 1nat,
    {
        match predicate {
            PredicateTree::Compare { .. } => self.visit_compare(bare, predicate),
            PredicateTree::And { .. } => self.visit_and(bare, predicate),
            PredicateTree::Or { .. } => self.visit_or(bare, predicate),
            PredicateTree::Not(_) => self.visit_not(bare, predicate),
            PredicateTree::IsNull { .. } => self.visit_is_null(bare, predicate),
            PredicateTree::Like { .. } => self.visit_like(bare, predicate),
            PredicateTree::In { .. } => self.visit_in(bare, predicate),
            PredicateTree::Between { .. } => self.visit_between(bare, predicate),
            PredicateTree::BoolTest { .. } => self.visit_bool_test(bare, predicate),
            PredicateTree::InSubquery { .. } => self.visit_in_subquery(bare, predicate),
            PredicateTree::Exists { .. } => self.visit_exists(bare, predicate),
        }
    }

    /// Writes the values of an `IN` list, one slot each.
    fn write_values(&mut self, first: bool, values: List<Bound<B>>)
        requires
            old(self).wf(),
            old(self).fits(grammar::value_list_tokens(first, values)),
        ensures
            final(self).wrote(*old(self), grammar::value_list_tokens(first, values)),
        decreases values, 1nat,
    {
        if let List::Cons { head, tail } = values {
            let mark = self.begin();
            if !first {
                self.write_str(", ");
            }
            self.visit_literal(*head);
            self.write_values(false, *tail);
            self.end(mark);
        }
    }

    /// Writes predicates joined by `AND`, with `lead` before the first.
    fn write_predicates(&mut self, lead: &str, items: List<PredicateTree<Bound<B>>>)
        requires
            old(self).wf(),
            old(self).fits(grammar::predicate_list_tokens(*old(self).dialect, lead@, items)),
        ensures
            final(self).wrote(*old(self), grammar::predicate_list_tokens(*old(self).dialect, lead@, items)),
        decreases items, 1nat,
    {
        if let List::Cons { head, tail } = items {
            let item = *head;
            let mark = self.begin();
            self.write_str(lead);
            self.write_predicate(false, item);
            self.write_predicates(" AND ", *tail);
            self.end(mark);
        }
    }

    /// Writes a projection list, with `lead` before its first element.
    fn write_projection(&mut self, bare: bool, lead: &str, items: List<ProjectionTree<Bound<B>>>)
        requires
            old(self).wf(),
            old(self).fits(grammar::projection_tokens(*old(self).dialect, bare, lead@, items)),
        ensures
            final(self).wrote(*old(self), grammar::projection_tokens(*old(self).dialect, bare, lead@, items)),
        decreases items, 1nat,
    {
        if let List::Cons { head, tail } = items {
            let item = *head;
            let mark = self.begin();
            self.write_str(lead);
            self.write_expr(bare, item.expr);
            let mut alias = String::from_str(" AS ");
            self.dialect.write_quoted_ident(item.alias.as_str(), &mut alias);
            self.write_str(alias.as_str());
            self.write_projection(bare, ", ", *tail);
            self.end(mark);
        }
    }

    /// Writes a join condition.
    fn write_join_condition(&mut self, on: PredicateTree<Bound<B>>)
        requires
            old(self).wf(),
            old(self).fits(tokens::chars(" ON "@) + grammar::predicate_tokens(*old(self).dialect, false, on)),
        ensures
            final(self).wrote(
                *old(self),
                tokens::chars(" ON "@) + grammar::predicate_tokens(*old(self).dialect, false, on),
            ),
        decreases on, 2nat,
    {
        let mark = self.begin();
        self.write_str(" ON ");
        self.write_predicate(false, on);
        self.end(mark);
    }

    /// Writes a source up to its join condition.
    fn write_source(&mut self, first: bool, source: &SourceTree<Bound<B>>)
        requires
            old(self).wf(),
        ensures
            final(self).wrote(
                *old(self),
                tokens::chars(grammar::source_text(*old(self).dialect, first, *source)),
            ),
    {
        let mut text = String::from_str(" ");
        if first {
            text.append("FROM ");
        } else {
            match &source.join {
                JoinTree::Table => text.append("FROM "),
                JoinTree::Inner(_) => text.append("INNER JOIN "),
                JoinTree::Left(_) => text.append("LEFT JOIN "),
                JoinTree::Right(_) => text.append("RIGHT JOIN "),
                JoinTree::Full(_) => text.append("FULL JOIN "),
                JoinTree::Cross => text.append("CROSS JOIN "),
            }
        }
        text.append(table_ref_text(self.dialect, &source.table).as_str());
        text.append(" AS ");
        source.alias.write_to(&mut text);
        self.write_str(text.as_str());
    }

    /// Writes the `FROM` clause and the joins.
    #[verifier::spinoff_prover]
    #[verifier::rlimit(30)]
    fn write_sources(&mut self, first: bool, items: List<SourceTree<Bound<B>>>)
        requires
            old(self).wf(),
            old(self).fits(grammar::source_list_tokens(*old(self).dialect, first, items)),
        ensures
            final(self).wrote(*old(self), grammar::source_list_tokens(*old(self).dialect, first, items)),
        decreases items, 1nat,
    {
        if let List::Cons { head, tail } = items {
            let item = *head;
            let mark = self.begin();
            self.write_source(first, &item);
            if !first {
                match item.join {
                    JoinTree::Table => {},
                    JoinTree::Inner(on) => self.write_join_condition(on),
                    JoinTree::Left(on) => self.write_join_condition(on),
                    JoinTree::Right(on) => self.write_join_condition(on),
                    JoinTree::Full(on) => self.write_join_condition(on),
                    JoinTree::Cross => {},
                }
            }
            self.write_sources(false, *tail);
            self.end(mark);
        }
    }

    /// Writes an ordered expression and what is said of its order.
    fn write_directed(&mut self, expr: ExprTree<Bound<B>>, order: &str)
        requires
            old(self).wf(),
            old(self).fits(
                grammar::expr_tokens(*old(self).dialect, false, expr) + tokens::chars(order@),
            ),
        ensures
            final(self).wrote(
                *old(self),
                grammar::expr_tokens(*old(self).dialect, false, expr) + tokens::chars(order@),
            ),
        decreases expr, 2nat,
    {
        let mark = self.begin();
        self.write_expr(false, expr);
        self.write_str(order);
        self.end(mark);
    }

    /// Writes the leading sort key that puts `NULL`s where they belong. Non-nulls are `0` and nulls `1`
    /// under `IS NULL`, so nulls come last ascending.
    fn write_nulls_key(&mut self, nulls: OrderNulls, key: ExprTree<Bound<B>>)
        requires
            old(self).wf(),
            old(self).fits(grammar::nulls_key_tokens(*old(self).dialect, nulls, key)),
        ensures
            final(self).wrote(*old(self), grammar::nulls_key_tokens(*old(self).dialect, nulls, key)),
        decreases key, 2nat,
    {
        let mut close = String::from_str(" IS NULL) ");
        match nulls {
            OrderNulls::Last => close.append("ASC"),
            OrderNulls::First => close.append("DESC"),
        }
        close.append(", ");
        let mark = self.begin();
        self.write_str("(");
        self.write_expr(false, key);
        self.write_str(close.as_str());
        self.end(mark);
    }

    /// Writes one `ORDER BY` term.
    #[verifier::spinoff_prover]
    fn write_order_value(&mut self, order: OrderTree<Bound<B>>)
        requires
            old(self).wf(),
            old(self).fits(grammar::order_tokens(*old(self).dialect, order)),
        ensures
            final(self).wrote(*old(self), grammar::order_tokens(*old(self).dialect, order)),
        decreases order, 1nat,
    {
        let mut direction = String::from_str(" ");
        direction.append(render_order_direction(order.direction));
        match order.nulls {
            Some(nulls) => {
                if self.dialect.emulates_order_nulls() {
                    let mark = self.begin();
                    self.write_nulls_key(nulls.nulls, nulls.key);
                    self.write_directed(order.expr, direction.as_str());
                    self.end(mark);
                } else {
                    self.dialect.write_order_nulls(nulls.nulls, &mut direction);
                    self.write_directed(order.expr, direction.as_str());
                }
            },
            None => {
                self.write_directed(order.expr, direction.as_str());
            },
        }
    }

    /// Writes an `ORDER BY` list, with `lead` before its first term.
    fn write_orders(&mut self, lead: &str, items: List<OrderTree<Bound<B>>>)
        requires
            old(self).wf(),
            old(self).fits(grammar::order_list_tokens(*old(self).dialect, lead@, items)),
        ensures
            final(self).wrote(*old(self), grammar::order_list_tokens(*old(self).dialect, lead@, items)),
        decreases items, 1nat,
    {
        if let List::Cons { head, tail } = items {
            let item = *head;
            let mark = self.begin();
            self.write_str(lead);
            self.write_order_value(item);
            self.write_orders(", ", *tail);
            self.end(mark);
        }
    }

    /// Writes `SELECT`, the projection and the sources.
    fn write_select_head(&mut self, select: SelectTree<Bound<B>>) -> (rest: SelectTree<Bound<B>>)
        requires
            old(self).wf(),
            old(self).fits(grammar::select_head_tokens(*old(self).dialect, select)),
        ensures
            final(self).wrote(*old(self), grammar::select_head_tokens(*old(self).dialect, select)),
            rest == (SelectTree {
                projection: List::Nil,
                sources: List::Nil,
                ..select
            }),
        decreases select, 1nat,
    {
        let SelectTree {
            distinct,
            projection,
            sources,
            filters,
            groups,
            havings,
            orders,
            limit,
            offset,
            row_lock,
        } = select;
        proof {
            reveal_strlit("");
            assert(""@ =~= Seq::empty());
        }
        let mark = self.begin();
        if distinct {
            self.write_str("SELECT DISTINCT ");
        } else {
            self.write_str("SELECT ");
        }
        self.write_projection(false, "", projection);
        self.write_sources(true, sources);
        self.end(mark);
        SelectTree {
            distinct,
            projection: List::Nil,
            sources: List::Nil,
            filters,
            groups,
            havings,
            orders,
            limit,
            offset,
            row_lock,
        }
    }

    /// Writes a `SELECT`. A nested one goes on with the numbering of the statement around it.
    fn write_subselect(&mut self, select: SelectTree<Bound<B>>)
        requires
            old(self).wf(),
            old(self).fits(grammar::select_tokens(*old(self).dialect, select)),
        ensures
            final(self).wrote(*old(self), grammar::select_tokens(*old(self).dialect, select)),
        decreases select, 2nat,
    {
        let mut bounds = String::new();
        self.dialect.write_limit_offset(select.limit, select.offset, &mut bounds);
        if let Some(lock) = select.row_lock {
            self.dialect.write_row_lock(lock, &mut bounds);
        }
        proof {
            assert(bounds@ =~= grammar::select_bounds_text(*self.dialect, select));
        }
        let mark = self.begin();
        let SelectTree { filters, groups, havings, orders, .. } = self.write_select_head(select);
        let middle = self.begin();
        self.write_predicates(" WHERE ", filters);
        self.write_expr_list(false, " GROUP BY ", groups);
        self.write_predicates(" HAVING ", havings);
        self.end(middle);
        self.write_orders(" ORDER BY ", orders);
        self.write_str(bounds.as_str());
        self.end(mark);
    }

    /// Writes the `LIMIT`/`OFFSET` clause.
    fn write_bounds(&mut self, limit: Option<usize>, offset: Option<usize>)
        requires
            old(self).wf(),
        ensures
            final(self).wrote(
                *old(self),
                tokens::chars(old(self).dialect.limit_offset_text(limit, offset)),
            ),
    {
        let mut text = String::new();
        self.dialect.write_limit_offset(limit, offset, &mut text);
        proof {
            assert(text@ =~= self.dialect.limit_offset_text(limit, offset));
        }
        self.write_str(text.as_str());
    }
}

} // verus!
