//! What each expression and each predicate is in SQL: its text in terms of the texts of its operands,
//! and what it binds in terms of what they bind, for every operand and every dialect.
use crate::chain::List;
use crate::dialect::Dialect;
use crate::grammar;
use crate::label::Label;
use crate::ops;
use crate::ops::{
    AggregateFunc, ArithmeticOp, CompareOp, DateField, OrderNulls, SourceAlias, UnaryStringFunc,
    WindowFunc,
};
use crate::render::counting;
use crate::sql_type::SqlType;
use crate::text;
use crate::tokens;
use crate::tokens::Token;
use crate::tree::{
    CaseArmTree, Encoded, ExprTree, OrderTree, PredicateTree, SelectTree, SimpleArmTree,
    WindowOrderTree,
};
use vstd::prelude::*;

verus! {

broadcast use {crate::tokens::lemma_tokens_empty, crate::tokens::lemma_empty_tokens};

/// The text of an expression whose first placeholder has the number `first`.
pub open spec fn expr_sql<D: Dialect, L>(
    dialect: D,
    bare: bool,
    first: nat,
    expr: ExprTree<L>,
) -> Seq<char> {
    counting::text_at(dialect, first, grammar::expr_tokens(dialect, bare, expr))
}

/// What an expression binds, in order.
pub open spec fn expr_slots<D: Dialect, L>(dialect: D, bare: bool, expr: ExprTree<L>) -> Seq<
    Token<L>,
> {
    counting::slot_list(grammar::expr_tokens(dialect, bare, expr))
}

/// The number of the placeholder behind an expression.
pub open spec fn behind<D: Dialect, L>(
    dialect: D,
    bare: bool,
    first: nat,
    expr: ExprTree<L>,
) -> nat {
    first + tokens::slots(grammar::expr_tokens(dialect, bare, expr))
}

/// The text of a predicate whose first placeholder has the number `first`.
pub open spec fn predicate_sql<D: Dialect, L>(
    dialect: D,
    bare: bool,
    first: nat,
    predicate: PredicateTree<L>,
) -> Seq<char> {
    counting::text_at(dialect, first, grammar::predicate_tokens(dialect, bare, predicate))
}

/// What a predicate binds, in order.
pub open spec fn predicate_slots<D: Dialect, L>(
    dialect: D,
    bare: bool,
    predicate: PredicateTree<L>,
) -> Seq<Token<L>> {
    counting::slot_list(grammar::predicate_tokens(dialect, bare, predicate))
}

/// The number of the placeholder behind a predicate.
pub open spec fn behind_predicate<D: Dialect, L>(
    dialect: D,
    bare: bool,
    first: nat,
    predicate: PredicateTree<L>,
) -> nat {
    first + tokens::slots(grammar::predicate_tokens(dialect, bare, predicate))
}

/// The text of a query whose first placeholder has the number `first`.
pub open spec fn select_sql<D: Dialect, L>(dialect: D, first: nat, select: SelectTree<L>) -> Seq<
    char,
> {
    counting::text_at(dialect, first, grammar::select_tokens(dialect, select))
}

/// What a query binds, in order.
pub open spec fn select_slots<D: Dialect, L>(dialect: D, select: SelectTree<L>) -> Seq<Token<L>> {
    counting::slot_list(grammar::select_tokens(dialect, select))
}

/// The operand of `EXTRACT`, in its time zone where one is given.
pub open spec fn extract_operand_tokens<D: Dialect, L>(
    dialect: D,
    bare: bool,
    cast: Option<SqlType>,
    timezone: Option<Label>,
    operand: ExprTree<L>,
) -> Seq<Token<L>> {
    match timezone {
        Some(zone) => tokens::chars("("@) + grammar::cast_expr_tokens(dialect, bare, cast, operand)
            + tokens::chars(" AT TIME ZONE "@ + text::quoted(zone@, '\'') + ")"@),
        None => grammar::cast_expr_tokens(dialect, bare, cast, operand),
    }
}

/// A text inside a cast, where one is wanted.
pub open spec fn cast_sql<D: Dialect>(dialect: D, cast: Option<SqlType>, text: Seq<char>) -> Seq<
    char,
> {
    match cast {
        Some(ty) => "CAST("@ + text + (" AS "@ + dialect.cast_type_text(ty) + ")"@),
        None => text,
    }
}

/// An expression in a cast is its text inside the cast, and binds what it binds.
pub proof fn law_cast<D: Dialect, L>(
    dialect: D,
    bare: bool,
    first: nat,
    cast: Option<SqlType>,
    expr: ExprTree<L>,
)
    ensures
        counting::text_at(dialect, first, grammar::cast_expr_tokens(dialect, bare, cast, expr))
            == cast_sql(dialect, cast, expr_sql(dialect, bare, first, expr)),
        counting::slot_list(grammar::cast_expr_tokens(dialect, bare, cast, expr)) == expr_slots(
            dialect,
            bare,
            expr,
        ),
        tokens::slots(grammar::cast_expr_tokens(dialect, bare, cast, expr)) == tokens::slots(
            grammar::expr_tokens(dialect, bare, expr),
        ),
{
    let open = tokens::chars::<L>(grammar::cast_open(cast));
    let inner = grammar::expr_tokens(dialect, bare, expr);
    let close = tokens::chars::<L>(grammar::cast_close(dialect, cast));
    counting::lemma_piece::<D, L>(dialect, grammar::cast_open(cast));
    counting::lemma_piece::<D, L>(dialect, grammar::cast_close(dialect, cast));
    counting::lemma_join(dialect, first, open, inner);
    counting::lemma_join(dialect, first, open + inner, close);
    counting::lemma_nothing(expr_sql(dialect, bare, first, expr));
}

/// A column is qualified by the alias of its source, or stands bare.
pub proof fn law_column<D: Dialect, L>(
    dialect: D,
    bare: bool,
    first: nat,
    alias: SourceAlias,
    column: Label,
)
    ensures
        ({
            let whole = ExprTree::<L>::Column { alias, column };
            &&& expr_sql(dialect, bare, first, whole) == (if bare { dialect.quoted_ident(column@) } else { alias.text() + "."@ + dialect.quoted_ident(column@) })
            &&& expr_slots(dialect, bare, whole) == Seq::<Token<L>>::empty()
        }),
{
    counting::lemma_piece::<D, L>(dialect, (if bare { dialect.quoted_ident(column@) } else { alias.text() + "."@ + dialect.quoted_ident(column@) }));
    let t0 = tokens::chars::<L>((if bare { dialect.quoted_ident(column@) } else { alias.text() + "."@ + dialect.quoted_ident(column@) }));
    assert(grammar::expr_tokens(dialect, bare, ExprTree::<L>::Column { alias, column }) == t0);
}

/// A literal and a runtime parameter are written as the placeholder of their number, and bind
/// themselves.
pub proof fn law_slots<D: Dialect, L>(dialect: D, bare: bool, first: nat, value: L)
    ensures
        expr_sql(dialect, bare, first, ExprTree::Literal(value)) == dialect.placeholder_text(first),
        expr_slots(dialect, bare, ExprTree::Literal(value)) == seq![Token::Literal(value)],
        expr_sql(dialect, bare, first, ExprTree::<L>::Param) == dialect.placeholder_text(first),
        expr_slots(dialect, bare, ExprTree::<L>::Param) == seq![Token::<L>::Runtime],
        tokens::slots(grammar::expr_tokens(dialect, bare, ExprTree::Literal(value))) == 1,
        tokens::slots(grammar::expr_tokens(dialect, bare, ExprTree::<L>::Param)) == 1,
{
    counting::lemma_slot(dialect, Token::Literal(value));
    counting::lemma_slot(dialect, Token::<L>::Runtime);
}

/// An operator stands between its operands, in their order, inside parentheses. Where integers would be
/// divided as integers, a division casts both operands.
pub proof fn law_arithmetic<D: Dialect, L>(
    dialect: D,
    bare: bool,
    first: nat,
    op: ArithmeticOp,
    left: ExprTree<L>,
    right: ExprTree<L>,
)
    ensures
        ({
            let whole = ExprTree::Binary { op, left: Box::new(left), right: Box::new(right) };
            let at1 = behind(dialect, bare, first, left);
            &&& expr_sql(dialect, bare, first, whole) == (if op == ArithmeticOp::Divide && dialect.casts_integer_division() { "(CAST("@ } else { "("@ }) + expr_sql(dialect, bare, first, left) + (if op == ArithmeticOp::Divide && dialect.casts_integer_division() { " AS "@ + dialect.cast_type_text(SqlType::F64) + ") / CAST("@ } else { " "@ + ops::arithmetic_symbol(op) + " "@ }) + expr_sql(dialect, bare, at1, right) + (if op == ArithmeticOp::Divide && dialect.casts_integer_division() { " AS "@ + dialect.cast_type_text(SqlType::F64) + "))"@ } else { ")"@ })
            &&& expr_slots(dialect, bare, whole) == expr_slots(dialect, bare, left) + expr_slots(dialect, bare, right)
        }),
{
    counting::lemma_piece::<D, L>(dialect, (if op == ArithmeticOp::Divide && dialect.casts_integer_division() { "(CAST("@ } else { "("@ }));
    let at1 = behind(dialect, bare, first, left);
    counting::lemma_piece::<D, L>(dialect, (if op == ArithmeticOp::Divide && dialect.casts_integer_division() { " AS "@ + dialect.cast_type_text(SqlType::F64) + ") / CAST("@ } else { " "@ + ops::arithmetic_symbol(op) + " "@ }));
    counting::lemma_piece::<D, L>(dialect, (if op == ArithmeticOp::Divide && dialect.casts_integer_division() { " AS "@ + dialect.cast_type_text(SqlType::F64) + "))"@ } else { ")"@ }));
    let t0 = tokens::chars::<L>((if op == ArithmeticOp::Divide && dialect.casts_integer_division() { "(CAST("@ } else { "("@ }));
    let t1 = grammar::expr_tokens(dialect, bare, left);
    let t2 = tokens::chars::<L>((if op == ArithmeticOp::Divide && dialect.casts_integer_division() { " AS "@ + dialect.cast_type_text(SqlType::F64) + ") / CAST("@ } else { " "@ + ops::arithmetic_symbol(op) + " "@ }));
    let t3 = grammar::expr_tokens(dialect, bare, right);
    let t4 = tokens::chars::<L>((if op == ArithmeticOp::Divide && dialect.casts_integer_division() { " AS "@ + dialect.cast_type_text(SqlType::F64) + "))"@ } else { ")"@ }));
    counting::lemma_join(dialect, first, t0, t1);
    counting::lemma_join(dialect, first, t0 + t1, t2);
    counting::lemma_join(dialect, first, t0 + t1 + t2, t3);
    counting::lemma_join(dialect, first, t0 + t1 + t2 + t3, t4);
    assert(grammar::expr_tokens(dialect, bare, ExprTree::Binary { op, left: Box::new(left), right: Box::new(right) }) == t0 + t1 + t2 + t3 + t4);
}

/// `NULLIF` has its operands in their order; both are cast where neither says its type.
pub proof fn law_nullif<D: Dialect, L>(
    dialect: D,
    bare: bool,
    first: nat,
    left: ExprTree<L>,
    left_needs_cast: bool,
    right: ExprTree<L>,
    right_needs_cast: bool,
    result: Option<SqlType>,
)
    ensures
        ({
            let whole = ExprTree::Nullif {
                left: Box::new(left),
                left_needs_cast,
                right: Box::new(right),
                right_needs_cast,
                result,
            };
            let at1 = behind(dialect, bare, first, left);
            &&& expr_sql(dialect, bare, first, whole) == "NULLIF("@ + cast_sql(dialect, (if left_needs_cast && right_needs_cast { result } else { None }), expr_sql(dialect, bare, first, left)) + ", "@ + cast_sql(dialect, (if left_needs_cast && right_needs_cast { result } else { None }), expr_sql(dialect, bare, at1, right)) + ")"@
            &&& expr_slots(dialect, bare, whole) == expr_slots(dialect, bare, left) + expr_slots(dialect, bare, right)
        }),
{
    counting::lemma_piece::<D, L>(dialect, "NULLIF("@);
    law_cast(dialect, bare, first, (if left_needs_cast && right_needs_cast { result } else { None }), left);
    let at1 = behind(dialect, bare, first, left);
    counting::lemma_piece::<D, L>(dialect, ", "@);
    law_cast(dialect, bare, at1, (if left_needs_cast && right_needs_cast { result } else { None }), right);
    counting::lemma_piece::<D, L>(dialect, ")"@);
    let t0 = tokens::chars::<L>("NULLIF("@);
    let t1 = grammar::cast_expr_tokens(dialect, bare, (if left_needs_cast && right_needs_cast { result } else { None }), left);
    let t2 = tokens::chars::<L>(", "@);
    let t3 = grammar::cast_expr_tokens(dialect, bare, (if left_needs_cast && right_needs_cast { result } else { None }), right);
    let t4 = tokens::chars::<L>(")"@);
    counting::lemma_join(dialect, first, t0, t1);
    counting::lemma_join(dialect, first, t0 + t1, t2);
    counting::lemma_join(dialect, first, t0 + t1 + t2, t3);
    counting::lemma_join(dialect, first, t0 + t1 + t2 + t3, t4);
    assert(grammar::expr_tokens(dialect, bare, ExprTree::Nullif {
                left: Box::new(left),
                left_needs_cast,
                right: Box::new(right),
                right_needs_cast,
                result,
            }) == t0 + t1 + t2 + t3 + t4);
}

/// `COALESCE` has its arguments in their order; all are cast where none says its type.
pub proof fn law_coalesce<D: Dialect, L>(
    dialect: D,
    bare: bool,
    first: nat,
    args: List<ExprTree<L>>,
    all_args_need_cast: bool,
    result: Option<SqlType>,
)
    ensures
        ({
            let whole = ExprTree::Coalesce { args, all_args_need_cast, result };
            &&& expr_sql(dialect, bare, first, whole) == "COALESCE("@ + counting::text_at(dialect, first, grammar::cast_args_tokens(dialect, bare, if all_args_need_cast { result } else { None }, true, args)) + ")"@
            &&& expr_slots(dialect, bare, whole) == counting::slot_list(grammar::cast_args_tokens(dialect, bare, if all_args_need_cast { result } else { None }, true, args))
        }),
{
    counting::lemma_piece::<D, L>(dialect, "COALESCE("@);
    counting::lemma_piece::<D, L>(dialect, ")"@);
    let t0 = tokens::chars::<L>("COALESCE("@);
    let t1 = grammar::cast_args_tokens(dialect, bare, if all_args_need_cast { result } else { None }, true, args);
    let t2 = tokens::chars::<L>(")"@);
    counting::lemma_join(dialect, first, t0, t1);
    counting::lemma_join(dialect, first, t0 + t1, t2);
    assert(grammar::expr_tokens(dialect, bare, ExprTree::Coalesce { args, all_args_need_cast, result }) == t0 + t1 + t2);
}

/// An aggregate is called on its operand, on the distinct values where it says so, inside its cast.
pub proof fn law_aggregate<D: Dialect, L>(
    dialect: D,
    bare: bool,
    first: nat,
    func: AggregateFunc,
    distinct: bool,
    cast: Option<SqlType>,
    operand: ExprTree<L>,
)
    ensures
        ({
            let whole = ExprTree::Aggregate { func, distinct, cast, operand: Box::new(operand) };
            &&& expr_sql(dialect, bare, first, whole) == ((match cast { Some(_) => "CAST("@, None => Seq::empty() }) + ops::aggregate_name(func) + "("@ + (if distinct { "DISTINCT "@ } else { Seq::empty() })) + expr_sql(dialect, bare, first, operand) + (")"@ + (match cast { Some(ty) => " AS "@ + dialect.cast_type_text(ty) + ")"@, None => Seq::empty() }))
            &&& expr_slots(dialect, bare, whole) == expr_slots(dialect, bare, operand)
        }),
{
    counting::lemma_piece::<D, L>(dialect, ((match cast { Some(_) => "CAST("@, None => Seq::empty() }) + ops::aggregate_name(func) + "("@ + (if distinct { "DISTINCT "@ } else { Seq::empty() })));
    counting::lemma_piece::<D, L>(dialect, (")"@ + (match cast { Some(ty) => " AS "@ + dialect.cast_type_text(ty) + ")"@, None => Seq::empty() })));
    let t0 = tokens::chars::<L>(((match cast { Some(_) => "CAST("@, None => Seq::empty() }) + ops::aggregate_name(func) + "("@ + (if distinct { "DISTINCT "@ } else { Seq::empty() })));
    let t1 = grammar::expr_tokens(dialect, bare, operand);
    let t2 = tokens::chars::<L>((")"@ + (match cast { Some(ty) => " AS "@ + dialect.cast_type_text(ty) + ")"@, None => Seq::empty() })));
    counting::lemma_join(dialect, first, t0, t1);
    counting::lemma_join(dialect, first, t0 + t1, t2);
    assert(grammar::expr_tokens(dialect, bare, ExprTree::Aggregate { func, distinct, cast, operand: Box::new(operand) }) == t0 + t1 + t2);
}

/// A scalar subquery stands in parentheses.
pub proof fn law_scalar_subquery<D: Dialect, L>(
    dialect: D,
    bare: bool,
    first: nat,
    subquery: SelectTree<L>,
)
    ensures
        ({
            let whole = ExprTree::ScalarSubquery(Box::new(subquery));
            &&& expr_sql(dialect, bare, first, whole) == "("@ + select_sql(dialect, first, subquery) + ")"@
            &&& expr_slots(dialect, bare, whole) == select_slots(dialect, subquery)
        }),
{
    counting::lemma_piece::<D, L>(dialect, "("@);
    counting::lemma_piece::<D, L>(dialect, ")"@);
    let t0 = tokens::chars::<L>("("@);
    let t1 = grammar::select_tokens(dialect, subquery);
    let t2 = tokens::chars::<L>(")"@);
    counting::lemma_join(dialect, first, t0, t1);
    counting::lemma_join(dialect, first, t0 + t1, t2);
    assert(grammar::expr_tokens(dialect, bare, ExprTree::ScalarSubquery(Box::new(subquery))) == t0 + t1 + t2);
}

/// A window function is called on its arguments over its partitions and then its ordering, inside its
/// cast.
pub proof fn law_window<D: Dialect, L>(
    dialect: D,
    bare: bool,
    first: nat,
    func: WindowFunc,
    cast: Option<SqlType>,
    args: List<ExprTree<L>>,
    partitions: List<ExprTree<L>>,
    orders: List<WindowOrderTree<L>>,
)
    ensures
        ({
            let whole = ExprTree::Window { func, cast, args, partitions, orders };
            let at1 = first + tokens::slots(grammar::expr_list_tokens(dialect, bare, Seq::empty(), args));
            let at2 = at1 + tokens::slots(grammar::expr_list_tokens(dialect, bare, "PARTITION BY "@, partitions));
            &&& expr_sql(dialect, bare, first, whole) == ((match cast { Some(_) => "CAST("@, None => Seq::empty() }) + ops::window_name(func) + "("@) + counting::text_at(dialect, first, grammar::expr_list_tokens(dialect, bare, Seq::empty(), args)) + ") OVER ("@ + counting::text_at(dialect, at1, grammar::expr_list_tokens(dialect, bare, "PARTITION BY "@, partitions)) + counting::text_at(dialect, at2, grammar::window_orders_tokens(dialect, bare, if partitions is Nil { "ORDER BY "@ } else { " ORDER BY "@ }, orders)) + (")"@ + (match cast { Some(ty) => " AS "@ + dialect.cast_type_text(ty) + ")"@, None => Seq::empty() }))
            &&& expr_slots(dialect, bare, whole) == counting::slot_list(grammar::expr_list_tokens(dialect, bare, Seq::empty(), args)) + counting::slot_list(grammar::expr_list_tokens(dialect, bare, "PARTITION BY "@, partitions)) + counting::slot_list(grammar::window_orders_tokens(dialect, bare, if partitions is Nil { "ORDER BY "@ } else { " ORDER BY "@ }, orders))
        }),
{
    counting::lemma_piece::<D, L>(dialect, ((match cast { Some(_) => "CAST("@, None => Seq::empty() }) + ops::window_name(func) + "("@));
    let at1 = first + tokens::slots(grammar::expr_list_tokens(dialect, bare, Seq::empty(), args));
    counting::lemma_piece::<D, L>(dialect, ") OVER ("@);
    let at2 = at1 + tokens::slots(grammar::expr_list_tokens(dialect, bare, "PARTITION BY "@, partitions));
    counting::lemma_piece::<D, L>(dialect, (")"@ + (match cast { Some(ty) => " AS "@ + dialect.cast_type_text(ty) + ")"@, None => Seq::empty() })));
    let t0 = tokens::chars::<L>(((match cast { Some(_) => "CAST("@, None => Seq::empty() }) + ops::window_name(func) + "("@));
    let t1 = grammar::expr_list_tokens(dialect, bare, Seq::empty(), args);
    let t2 = tokens::chars::<L>(") OVER ("@);
    let t3 = grammar::expr_list_tokens(dialect, bare, "PARTITION BY "@, partitions);
    let t4 = grammar::window_orders_tokens(dialect, bare, if partitions is Nil { "ORDER BY "@ } else { " ORDER BY "@ }, orders);
    let t5 = tokens::chars::<L>((")"@ + (match cast { Some(ty) => " AS "@ + dialect.cast_type_text(ty) + ")"@, None => Seq::empty() })));
    counting::lemma_join(dialect, first, t0, t1);
    counting::lemma_join(dialect, first, t0 + t1, t2);
    counting::lemma_join(dialect, first, t0 + t1 + t2, t3);
    counting::lemma_join(dialect, first, t0 + t1 + t2 + t3, t4);
    counting::lemma_join(dialect, first, t0 + t1 + t2 + t3 + t4, t5);
    assert(grammar::expr_tokens(dialect, bare, ExprTree::Window { func, cast, args, partitions, orders }) == t0 + t1 + t2 + t3 + t4 + t5);
}

/// The `ELSE` branch of a `CASE` is its value inside the cast, where there is one.
pub proof fn law_else<D: Dialect, L>(
    dialect: D,
    bare: bool,
    first: nat,
    cast: Option<SqlType>,
    value: ExprTree<L>,
)
    ensures
        grammar::else_tokens::<D, L>(dialect, bare, cast, None) == Seq::<Token<L>>::empty(),
        counting::text_at(
            dialect,
            first,
            grammar::else_tokens(dialect, bare, cast, Some(Box::new(value))),
        ) == " ELSE "@ + cast_sql(dialect, cast, expr_sql(dialect, bare, first, value)),
        counting::slot_list(grammar::else_tokens(dialect, bare, cast, Some(Box::new(value))))
            == expr_slots(dialect, bare, value),
{
    let lead = tokens::chars::<L>(" ELSE "@);
    counting::lemma_piece::<D, L>(dialect, " ELSE "@);
    law_cast(dialect, bare, first, cast, value);
    counting::lemma_join(
        dialect,
        first,
        lead,
        grammar::cast_expr_tokens(dialect, bare, cast, value),
    );
}

/// A searched `CASE` has its arms in their order and then its `ELSE` branch, if there is one.
pub proof fn law_case<D: Dialect, L>(
    dialect: D,
    bare: bool,
    first: nat,
    arms: List<CaseArmTree<L>>,
    else_: Option<Box<ExprTree<L>>>,
    result: Option<SqlType>,
)
    ensures
        ({
            let whole = ExprTree::Case { arms, else_, result };
            let at1 = first + tokens::slots(grammar::case_arms_tokens(dialect, bare, result, arms));
            &&& expr_sql(dialect, bare, first, whole) == "CASE"@ + counting::text_at(dialect, first, grammar::case_arms_tokens(dialect, bare, result, arms)) + counting::text_at(dialect, at1, grammar::else_tokens(dialect, bare, result, else_)) + " END"@
            &&& expr_slots(dialect, bare, whole) == counting::slot_list(grammar::case_arms_tokens(dialect, bare, result, arms)) + counting::slot_list(grammar::else_tokens(dialect, bare, result, else_))
        }),
{
    counting::lemma_piece::<D, L>(dialect, "CASE"@);
    let at1 = first + tokens::slots(grammar::case_arms_tokens(dialect, bare, result, arms));
    counting::lemma_piece::<D, L>(dialect, " END"@);
    let t0 = tokens::chars::<L>("CASE"@);
    let t1 = grammar::case_arms_tokens(dialect, bare, result, arms);
    let t2 = grammar::else_tokens(dialect, bare, result, else_);
    let t3 = tokens::chars::<L>(" END"@);
    counting::lemma_join(dialect, first, t0, t1);
    counting::lemma_join(dialect, first, t0 + t1, t2);
    counting::lemma_join(dialect, first, t0 + t1 + t2, t3);
    assert(grammar::expr_tokens(dialect, bare, ExprTree::Case { arms, else_, result }) == t0 + t1 + t2 + t3);
}

/// A simple `CASE` has its operand, its arms in their order and then its `ELSE` branch, if there is one.
pub proof fn law_simple_case<D: Dialect, L>(
    dialect: D,
    bare: bool,
    first: nat,
    operand: ExprTree<L>,
    operand_needs_cast: bool,
    comparison: Option<SqlType>,
    arms: List<SimpleArmTree<L>>,
    else_: Option<Box<ExprTree<L>>>,
    result: Option<SqlType>,
)
    ensures
        ({
            let whole = ExprTree::SimpleCase {
                operand: Box::new(operand),
                operand_needs_cast,
                comparison,
                arms,
                else_,
                result,
            };
            let at1 = behind(dialect, bare, first, operand);
            let at2 = at1 + tokens::slots(grammar::simple_arms_tokens(dialect, bare, result, arms));
            &&& expr_sql(dialect, bare, first, whole) == "CASE "@ + cast_sql(dialect, (if operand_needs_cast { comparison } else { None }), expr_sql(dialect, bare, first, operand)) + counting::text_at(dialect, at1, grammar::simple_arms_tokens(dialect, bare, result, arms)) + counting::text_at(dialect, at2, grammar::else_tokens(dialect, bare, result, else_)) + " END"@
            &&& expr_slots(dialect, bare, whole) == expr_slots(dialect, bare, operand) + counting::slot_list(grammar::simple_arms_tokens(dialect, bare, result, arms)) + counting::slot_list(grammar::else_tokens(dialect, bare, result, else_))
        }),
{
    counting::lemma_piece::<D, L>(dialect, "CASE "@);
    law_cast(dialect, bare, first, (if operand_needs_cast { comparison } else { None }), operand);
    let at1 = behind(dialect, bare, first, operand);
    let at2 = at1 + tokens::slots(grammar::simple_arms_tokens(dialect, bare, result, arms));
    counting::lemma_piece::<D, L>(dialect, " END"@);
    let t0 = tokens::chars::<L>("CASE "@);
    let t1 = grammar::cast_expr_tokens(dialect, bare, (if operand_needs_cast { comparison } else { None }), operand);
    let t2 = grammar::simple_arms_tokens(dialect, bare, result, arms);
    let t3 = grammar::else_tokens(dialect, bare, result, else_);
    let t4 = tokens::chars::<L>(" END"@);
    counting::lemma_join(dialect, first, t0, t1);
    counting::lemma_join(dialect, first, t0 + t1, t2);
    counting::lemma_join(dialect, first, t0 + t1 + t2, t3);
    counting::lemma_join(dialect, first, t0 + t1 + t2 + t3, t4);
    assert(grammar::expr_tokens(dialect, bare, ExprTree::SimpleCase {
                operand: Box::new(operand),
                operand_needs_cast,
                comparison,
                arms,
                else_,
                result,
            }) == t0 + t1 + t2 + t3 + t4);
}

/// A string function is called on its operand.
pub proof fn law_string_function<D: Dialect, L>(
    dialect: D,
    bare: bool,
    first: nat,
    func: UnaryStringFunc,
    operand: ExprTree<L>,
)
    ensures
        ({
            let whole = ExprTree::UnaryFn { func, operand: Box::new(operand) };
            &&& expr_sql(dialect, bare, first, whole) == (func.name_text() + "("@) + expr_sql(dialect, bare, first, operand) + ")"@
            &&& expr_slots(dialect, bare, whole) == expr_slots(dialect, bare, operand)
        }),
{
    counting::lemma_piece::<D, L>(dialect, (func.name_text() + "("@));
    counting::lemma_piece::<D, L>(dialect, ")"@);
    let t0 = tokens::chars::<L>((func.name_text() + "("@));
    let t1 = grammar::expr_tokens(dialect, bare, operand);
    let t2 = tokens::chars::<L>(")"@);
    counting::lemma_join(dialect, first, t0, t1);
    counting::lemma_join(dialect, first, t0 + t1, t2);
    assert(grammar::expr_tokens(dialect, bare, ExprTree::UnaryFn { func, operand: Box::new(operand) }) == t0 + t1 + t2);
}

/// A concatenation has its operands in their order.
pub proof fn law_concat<D: Dialect, L>(
    dialect: D,
    bare: bool,
    first: nat,
    left: ExprTree<L>,
    right: ExprTree<L>,
)
    ensures
        ({
            let whole = ExprTree::Concat { left: Box::new(left), right: Box::new(right) };
            let at1 = behind(dialect, bare, first, left);
            &&& expr_sql(dialect, bare, first, whole) == (if dialect.concat_pipes() { "("@ } else { "CONCAT("@ }) + expr_sql(dialect, bare, first, left) + (if dialect.concat_pipes() { " || "@ } else { ", "@ }) + expr_sql(dialect, bare, at1, right) + ")"@
            &&& expr_slots(dialect, bare, whole) == expr_slots(dialect, bare, left) + expr_slots(dialect, bare, right)
        }),
{
    counting::lemma_piece::<D, L>(dialect, (if dialect.concat_pipes() { "("@ } else { "CONCAT("@ }));
    let at1 = behind(dialect, bare, first, left);
    counting::lemma_piece::<D, L>(dialect, (if dialect.concat_pipes() { " || "@ } else { ", "@ }));
    counting::lemma_piece::<D, L>(dialect, ")"@);
    let t0 = tokens::chars::<L>((if dialect.concat_pipes() { "("@ } else { "CONCAT("@ }));
    let t1 = grammar::expr_tokens(dialect, bare, left);
    let t2 = tokens::chars::<L>((if dialect.concat_pipes() { " || "@ } else { ", "@ }));
    let t3 = grammar::expr_tokens(dialect, bare, right);
    let t4 = tokens::chars::<L>(")"@);
    counting::lemma_join(dialect, first, t0, t1);
    counting::lemma_join(dialect, first, t0 + t1, t2);
    counting::lemma_join(dialect, first, t0 + t1 + t2, t3);
    counting::lemma_join(dialect, first, t0 + t1 + t2 + t3, t4);
    assert(grammar::expr_tokens(dialect, bare, ExprTree::Concat { left: Box::new(left), right: Box::new(right) }) == t0 + t1 + t2 + t3 + t4);
}

/// `SUBSTRING` has the string, then where the part starts, and then how long it is.
pub proof fn law_substring<D: Dialect, L>(
    dialect: D,
    bare: bool,
    first: nat,
    string: ExprTree<L>,
    start: ExprTree<L>,
    len: ExprTree<L>,
)
    ensures
        ({
            let whole = ExprTree::Substring {
                string: Box::new(string),
                start: Box::new(start),
                len: Box::new(len),
            };
            let at1 = behind(dialect, bare, first, string);
            let at2 = behind(dialect, bare, at1, start);
            &&& expr_sql(dialect, bare, first, whole) == "SUBSTRING("@ + expr_sql(dialect, bare, first, string) + " FROM "@ + cast_sql(dialect, (if dialect.casts_substring_bounds() { Some(SqlType::I32) } else { None }), expr_sql(dialect, bare, at1, start)) + " FOR "@ + cast_sql(dialect, (if dialect.casts_substring_bounds() { Some(SqlType::I32) } else { None }), expr_sql(dialect, bare, at2, len)) + ")"@
            &&& expr_slots(dialect, bare, whole) == expr_slots(dialect, bare, string) + expr_slots(dialect, bare, start) + expr_slots(dialect, bare, len)
        }),
{
    counting::lemma_piece::<D, L>(dialect, "SUBSTRING("@);
    let at1 = behind(dialect, bare, first, string);
    counting::lemma_piece::<D, L>(dialect, " FROM "@);
    law_cast(dialect, bare, at1, (if dialect.casts_substring_bounds() { Some(SqlType::I32) } else { None }), start);
    let at2 = behind(dialect, bare, at1, start);
    counting::lemma_piece::<D, L>(dialect, " FOR "@);
    law_cast(dialect, bare, at2, (if dialect.casts_substring_bounds() { Some(SqlType::I32) } else { None }), len);
    counting::lemma_piece::<D, L>(dialect, ")"@);
    let t0 = tokens::chars::<L>("SUBSTRING("@);
    let t1 = grammar::expr_tokens(dialect, bare, string);
    let t2 = tokens::chars::<L>(" FROM "@);
    let t3 = grammar::cast_expr_tokens(dialect, bare, (if dialect.casts_substring_bounds() { Some(SqlType::I32) } else { None }), start);
    let t4 = tokens::chars::<L>(" FOR "@);
    let t5 = grammar::cast_expr_tokens(dialect, bare, (if dialect.casts_substring_bounds() { Some(SqlType::I32) } else { None }), len);
    let t6 = tokens::chars::<L>(")"@);
    counting::lemma_join(dialect, first, t0, t1);
    counting::lemma_join(dialect, first, t0 + t1, t2);
    counting::lemma_join(dialect, first, t0 + t1 + t2, t3);
    counting::lemma_join(dialect, first, t0 + t1 + t2 + t3, t4);
    counting::lemma_join(dialect, first, t0 + t1 + t2 + t3 + t4, t5);
    counting::lemma_join(dialect, first, t0 + t1 + t2 + t3 + t4 + t5, t6);
    assert(grammar::expr_tokens(dialect, bare, ExprTree::Substring {
                string: Box::new(string),
                start: Box::new(start),
                len: Box::new(len),
            }) == t0 + t1 + t2 + t3 + t4 + t5 + t6);
}

/// The current time is a constant of SQL.
pub proof fn law_now<D: Dialect, L>(
    dialect: D,
    bare: bool,
    first: nat,
)
    ensures
        ({
            let whole = ExprTree::<L>::Now;
            &&& expr_sql(dialect, bare, first, whole) == "CURRENT_TIMESTAMP"@
            &&& expr_slots(dialect, bare, whole) == Seq::<Token<L>>::empty()
        }),
{
    counting::lemma_piece::<D, L>(dialect, "CURRENT_TIMESTAMP"@);
    let t0 = tokens::chars::<L>("CURRENT_TIMESTAMP"@);
    assert(grammar::expr_tokens(dialect, bare, ExprTree::<L>::Now) == t0);
}

/// `EXTRACT` takes its field from its operand, in the time zone where one is given, as the wanted type. Whole
/// seconds are rounded down.
pub proof fn law_extract<D: Dialect, L>(
    dialect: D,
    bare: bool,
    first: nat,
    field: DateField,
    operand: ExprTree<L>,
    cast: SqlType,
    timezone: Option<Label>,
    operand_cast: Option<SqlType>,
)
    ensures
        ({
            let whole = ExprTree::Extract { field, operand: Box::new(operand), cast, timezone, operand_cast };
            &&& expr_sql(dialect, bare, first, whole) == ("CAST("@ + (if field == DateField::Second { "FLOOR("@ } else { Seq::empty() }) + "EXTRACT("@ + field.extract_keyword_text() + " FROM "@) + counting::text_at(dialect, first, extract_operand_tokens(dialect, bare, (if dialect.casts_timestamp_operand() { operand_cast } else { None }), timezone, operand)) + (")"@ + (if field == DateField::Second { ")"@ } else { Seq::empty() }) + " AS "@ + dialect.cast_type_text(cast) + ")"@)
            &&& expr_slots(dialect, bare, whole) == counting::slot_list(extract_operand_tokens(dialect, bare, (if dialect.casts_timestamp_operand() { operand_cast } else { None }), timezone, operand))
        }),
{
    counting::lemma_piece::<D, L>(dialect, ("CAST("@ + (if field == DateField::Second { "FLOOR("@ } else { Seq::empty() }) + "EXTRACT("@ + field.extract_keyword_text() + " FROM "@));
    counting::lemma_piece::<D, L>(dialect, (")"@ + (if field == DateField::Second { ")"@ } else { Seq::empty() }) + " AS "@ + dialect.cast_type_text(cast) + ")"@));
    let t0 = tokens::chars::<L>(("CAST("@ + (if field == DateField::Second { "FLOOR("@ } else { Seq::empty() }) + "EXTRACT("@ + field.extract_keyword_text() + " FROM "@));
    let t1 = extract_operand_tokens(dialect, bare, (if dialect.casts_timestamp_operand() { operand_cast } else { None }), timezone, operand);
    let t2 = tokens::chars::<L>((")"@ + (if field == DateField::Second { ")"@ } else { Seq::empty() }) + " AS "@ + dialect.cast_type_text(cast) + ")"@));
    counting::lemma_join(dialect, first, t0, t1);
    counting::lemma_join(dialect, first, t0 + t1, t2);
    assert(grammar::expr_tokens(dialect, bare, ExprTree::Extract { field, operand: Box::new(operand), cast, timezone, operand_cast }) == t0 + t1 + t2);
    if timezone is Some { }
}

/// The operand of `EXTRACT` stands in its time zone, where one is given.
pub proof fn law_extract_operand<D: Dialect, L>(
    dialect: D,
    bare: bool,
    first: nat,
    cast: Option<SqlType>,
    timezone: Option<Label>,
    operand: ExprTree<L>,
)
    ensures
        ({
            let whole = extract_operand_tokens(dialect, bare, cast, timezone, operand);
            let text = cast_sql(dialect, cast, expr_sql(dialect, bare, first, operand));
            &&& counting::text_at(dialect, first, whole) == (match timezone {
                Some(zone) => "("@ + text + (" AT TIME ZONE "@ + text::quoted(zone@, '\'') + ")"@),
                None => text,
            })
            &&& counting::slot_list(whole) == expr_slots(dialect, bare, operand)
        }),
{
    law_cast(dialect, bare, first, cast, operand);
    if let Some(zone) = timezone {
        let open = tokens::chars::<L>("("@);
        let inner = grammar::cast_expr_tokens(dialect, bare, cast, operand);
        let end = " AT TIME ZONE "@ + text::quoted(zone@, '\'') + ")"@;
        counting::lemma_piece::<D, L>(dialect, "("@);
        counting::lemma_piece::<D, L>(dialect, end);
        counting::lemma_join(dialect, first, open, inner);
        counting::lemma_join(dialect, first, open + inner, tokens::chars::<L>(end));
    }
}

/// `date_trunc` has its unit, its operand and then the time zone where one is given.
pub proof fn law_date_trunc<D: Dialect, L>(
    dialect: D,
    bare: bool,
    first: nat,
    unit: DateField,
    operand: ExprTree<L>,
    timezone: Option<Label>,
    operand_cast: Option<SqlType>,
)
    ensures
        ({
            let whole = ExprTree::DateTrunc { unit, operand: Box::new(operand), timezone, operand_cast };
            &&& expr_sql(dialect, bare, first, whole) == ("date_trunc('"@ + unit.trunc_literal_text() + "', "@) + cast_sql(dialect, (if dialect.casts_timestamp_operand() { operand_cast } else { None }), expr_sql(dialect, bare, first, operand)) + (match timezone { Some(zone) => ", "@ + text::quoted(zone@, '\'') + ")"@, None => ")"@ })
            &&& expr_slots(dialect, bare, whole) == expr_slots(dialect, bare, operand)
        }),
{
    counting::lemma_piece::<D, L>(dialect, ("date_trunc('"@ + unit.trunc_literal_text() + "', "@));
    law_cast(dialect, bare, first, (if dialect.casts_timestamp_operand() { operand_cast } else { None }), operand);
    counting::lemma_piece::<D, L>(dialect, (match timezone { Some(zone) => ", "@ + text::quoted(zone@, '\'') + ")"@, None => ")"@ }));
    let t0 = tokens::chars::<L>(("date_trunc('"@ + unit.trunc_literal_text() + "', "@));
    let t1 = grammar::cast_expr_tokens(dialect, bare, (if dialect.casts_timestamp_operand() { operand_cast } else { None }), operand);
    let t2 = tokens::chars::<L>((match timezone { Some(zone) => ", "@ + text::quoted(zone@, '\'') + ")"@, None => ")"@ }));
    counting::lemma_join(dialect, first, t0, t1);
    counting::lemma_join(dialect, first, t0 + t1, t2);
    assert(grammar::expr_tokens(dialect, bare, ExprTree::DateTrunc { unit, operand: Box::new(operand), timezone, operand_cast }) == t0 + t1 + t2);
}

/// Fractional seconds are extracted from the operand as the wanted type.
pub proof fn law_extract_second<D: Dialect, L>(
    dialect: D,
    bare: bool,
    first: nat,
    operand: ExprTree<L>,
    cast: SqlType,
    operand_cast: Option<SqlType>,
)
    ensures
        ({
            let whole = ExprTree::ExtractSecond { operand: Box::new(operand), cast, operand_cast };
            &&& expr_sql(dialect, bare, first, whole) == (if dialect.second_microsecond_unit() { "CAST(EXTRACT(SECOND_MICROSECOND FROM "@ } else { "CAST(EXTRACT(SECOND FROM "@ }) + cast_sql(dialect, (if dialect.casts_timestamp_operand() { operand_cast } else { None }), expr_sql(dialect, bare, first, operand)) + ((if dialect.second_microsecond_unit() { ") / 1000000.0 AS "@ } else { ") AS "@ }) + dialect.cast_type_text(cast) + ")"@)
            &&& expr_slots(dialect, bare, whole) == expr_slots(dialect, bare, operand)
        }),
{
    counting::lemma_piece::<D, L>(dialect, (if dialect.second_microsecond_unit() { "CAST(EXTRACT(SECOND_MICROSECOND FROM "@ } else { "CAST(EXTRACT(SECOND FROM "@ }));
    law_cast(dialect, bare, first, (if dialect.casts_timestamp_operand() { operand_cast } else { None }), operand);
    counting::lemma_piece::<D, L>(dialect, ((if dialect.second_microsecond_unit() { ") / 1000000.0 AS "@ } else { ") AS "@ }) + dialect.cast_type_text(cast) + ")"@));
    let t0 = tokens::chars::<L>((if dialect.second_microsecond_unit() { "CAST(EXTRACT(SECOND_MICROSECOND FROM "@ } else { "CAST(EXTRACT(SECOND FROM "@ }));
    let t1 = grammar::cast_expr_tokens(dialect, bare, (if dialect.casts_timestamp_operand() { operand_cast } else { None }), operand);
    let t2 = tokens::chars::<L>(((if dialect.second_microsecond_unit() { ") / 1000000.0 AS "@ } else { ") AS "@ }) + dialect.cast_type_text(cast) + ")"@));
    counting::lemma_join(dialect, first, t0, t1);
    counting::lemma_join(dialect, first, t0 + t1, t2);
    assert(grammar::expr_tokens(dialect, bare, ExprTree::ExtractSecond { operand: Box::new(operand), cast, operand_cast }) == t0 + t1 + t2);
}

/// A comparison stands between its operands, in their order.
pub proof fn law_compare<D: Dialect, L>(
    dialect: D,
    bare: bool,
    first: nat,
    op: CompareOp,
    left: ExprTree<L>,
    right: ExprTree<L>,
)
    ensures
        ({
            let whole = PredicateTree::Compare { op, left: Box::new(left), right: Box::new(right) };
            let at1 = behind(dialect, bare, first, left);
            &&& predicate_sql(dialect, bare, first, whole) == "("@ + expr_sql(dialect, bare, first, left) + (" "@ + ops::compare_symbol(op) + " "@) + expr_sql(dialect, bare, at1, right) + ")"@
            &&& predicate_slots(dialect, bare, whole) == expr_slots(dialect, bare, left) + expr_slots(dialect, bare, right)
        }),
{
    counting::lemma_piece::<D, L>(dialect, "("@);
    let at1 = behind(dialect, bare, first, left);
    counting::lemma_piece::<D, L>(dialect, (" "@ + ops::compare_symbol(op) + " "@));
    counting::lemma_piece::<D, L>(dialect, ")"@);
    let t0 = tokens::chars::<L>("("@);
    let t1 = grammar::expr_tokens(dialect, bare, left);
    let t2 = tokens::chars::<L>((" "@ + ops::compare_symbol(op) + " "@));
    let t3 = grammar::expr_tokens(dialect, bare, right);
    let t4 = tokens::chars::<L>(")"@);
    counting::lemma_join(dialect, first, t0, t1);
    counting::lemma_join(dialect, first, t0 + t1, t2);
    counting::lemma_join(dialect, first, t0 + t1 + t2, t3);
    counting::lemma_join(dialect, first, t0 + t1 + t2 + t3, t4);
    assert(grammar::predicate_tokens(dialect, bare, PredicateTree::Compare { op, left: Box::new(left), right: Box::new(right) }) == t0 + t1 + t2 + t3 + t4);
}

/// `AND` stands between its conditions, in their order, inside parentheses.
pub proof fn law_and<D: Dialect, L>(
    dialect: D,
    bare: bool,
    first: nat,
    left: PredicateTree<L>,
    right: PredicateTree<L>,
)
    ensures
        ({
            let whole = PredicateTree::And { left: Box::new(left), right: Box::new(right) };
            let at1 = behind_predicate(dialect, bare, first, left);
            &&& predicate_sql(dialect, bare, first, whole) == "("@ + predicate_sql(dialect, bare, first, left) + " AND "@ + predicate_sql(dialect, bare, at1, right) + ")"@
            &&& predicate_slots(dialect, bare, whole) == predicate_slots(dialect, bare, left) + predicate_slots(dialect, bare, right)
        }),
{
    counting::lemma_piece::<D, L>(dialect, "("@);
    let at1 = behind_predicate(dialect, bare, first, left);
    counting::lemma_piece::<D, L>(dialect, " AND "@);
    counting::lemma_piece::<D, L>(dialect, ")"@);
    let t0 = tokens::chars::<L>("("@);
    let t1 = grammar::predicate_tokens(dialect, bare, left);
    let t2 = tokens::chars::<L>(" AND "@);
    let t3 = grammar::predicate_tokens(dialect, bare, right);
    let t4 = tokens::chars::<L>(")"@);
    counting::lemma_join(dialect, first, t0, t1);
    counting::lemma_join(dialect, first, t0 + t1, t2);
    counting::lemma_join(dialect, first, t0 + t1 + t2, t3);
    counting::lemma_join(dialect, first, t0 + t1 + t2 + t3, t4);
    assert(grammar::predicate_tokens(dialect, bare, PredicateTree::And { left: Box::new(left), right: Box::new(right) }) == t0 + t1 + t2 + t3 + t4);
}

/// `OR` stands between its conditions, in their order, inside parentheses.
pub proof fn law_or<D: Dialect, L>(
    dialect: D,
    bare: bool,
    first: nat,
    left: PredicateTree<L>,
    right: PredicateTree<L>,
)
    ensures
        ({
            let whole = PredicateTree::Or { left: Box::new(left), right: Box::new(right) };
            let at1 = behind_predicate(dialect, bare, first, left);
            &&& predicate_sql(dialect, bare, first, whole) == "("@ + predicate_sql(dialect, bare, first, left) + " OR "@ + predicate_sql(dialect, bare, at1, right) + ")"@
            &&& predicate_slots(dialect, bare, whole) == predicate_slots(dialect, bare, left) + predicate_slots(dialect, bare, right)
        }),
{
    counting::lemma_piece::<D, L>(dialect, "("@);
    let at1 = behind_predicate(dialect, bare, first, left);
    counting::lemma_piece::<D, L>(dialect, " OR "@);
    counting::lemma_piece::<D, L>(dialect, ")"@);
    let t0 = tokens::chars::<L>("("@);
    let t1 = grammar::predicate_tokens(dialect, bare, left);
    let t2 = tokens::chars::<L>(" OR "@);
    let t3 = grammar::predicate_tokens(dialect, bare, right);
    let t4 = tokens::chars::<L>(")"@);
    counting::lemma_join(dialect, first, t0, t1);
    counting::lemma_join(dialect, first, t0 + t1, t2);
    counting::lemma_join(dialect, first, t0 + t1 + t2, t3);
    counting::lemma_join(dialect, first, t0 + t1 + t2 + t3, t4);
    assert(grammar::predicate_tokens(dialect, bare, PredicateTree::Or { left: Box::new(left), right: Box::new(right) }) == t0 + t1 + t2 + t3 + t4);
}

/// `NOT` stands before its condition, inside parentheses.
pub proof fn law_not<D: Dialect, L>(
    dialect: D,
    bare: bool,
    first: nat,
    inner: PredicateTree<L>,
)
    ensures
        ({
            let whole = PredicateTree::Not(Box::new(inner));
            &&& predicate_sql(dialect, bare, first, whole) == "(NOT "@ + predicate_sql(dialect, bare, first, inner) + ")"@
            &&& predicate_slots(dialect, bare, whole) == predicate_slots(dialect, bare, inner)
        }),
{
    counting::lemma_piece::<D, L>(dialect, "(NOT "@);
    counting::lemma_piece::<D, L>(dialect, ")"@);
    let t0 = tokens::chars::<L>("(NOT "@);
    let t1 = grammar::predicate_tokens(dialect, bare, inner);
    let t2 = tokens::chars::<L>(")"@);
    counting::lemma_join(dialect, first, t0, t1);
    counting::lemma_join(dialect, first, t0 + t1, t2);
    assert(grammar::predicate_tokens(dialect, bare, PredicateTree::Not(Box::new(inner))) == t0 + t1 + t2);
}

/// A test for `NULL`, and the opposite.
pub proof fn law_is_null<D: Dialect, L>(
    dialect: D,
    bare: bool,
    first: nat,
    negated: bool,
    operand: ExprTree<L>,
)
    ensures
        ({
            let whole = PredicateTree::IsNull { negated, operand: Box::new(operand) };
            &&& predicate_sql(dialect, bare, first, whole) == "("@ + expr_sql(dialect, bare, first, operand) + (if negated { " IS NOT NULL)"@ } else { " IS NULL)"@ })
            &&& predicate_slots(dialect, bare, whole) == expr_slots(dialect, bare, operand)
        }),
{
    counting::lemma_piece::<D, L>(dialect, "("@);
    counting::lemma_piece::<D, L>(dialect, (if negated { " IS NOT NULL)"@ } else { " IS NULL)"@ }));
    let t0 = tokens::chars::<L>("("@);
    let t1 = grammar::expr_tokens(dialect, bare, operand);
    let t2 = tokens::chars::<L>((if negated { " IS NOT NULL)"@ } else { " IS NULL)"@ }));
    counting::lemma_join(dialect, first, t0, t1);
    counting::lemma_join(dialect, first, t0 + t1, t2);
    assert(grammar::predicate_tokens(dialect, bare, PredicateTree::IsNull { negated, operand: Box::new(operand) }) == t0 + t1 + t2);
}

/// A pattern match has the operand and then the pattern.
pub proof fn law_like<D: Dialect, L>(
    dialect: D,
    bare: bool,
    first: nat,
    case_insensitive: bool,
    negated: bool,
    operand: ExprTree<L>,
    pattern: ExprTree<L>,
)
    ensures
        ({
            let whole = PredicateTree::Like {
                case_insensitive,
                negated,
                operand: Box::new(operand),
                pattern: Box::new(pattern),
            };
            let at1 = behind(dialect, bare, first, operand);
            &&& predicate_sql(dialect, bare, first, whole) == "("@ + expr_sql(dialect, bare, first, operand) + dialect.like_operator_text(case_insensitive, negated) + expr_sql(dialect, bare, at1, pattern) + ")"@
            &&& predicate_slots(dialect, bare, whole) == expr_slots(dialect, bare, operand) + expr_slots(dialect, bare, pattern)
        }),
{
    counting::lemma_piece::<D, L>(dialect, "("@);
    let at1 = behind(dialect, bare, first, operand);
    counting::lemma_piece::<D, L>(dialect, dialect.like_operator_text(case_insensitive, negated));
    counting::lemma_piece::<D, L>(dialect, ")"@);
    let t0 = tokens::chars::<L>("("@);
    let t1 = grammar::expr_tokens(dialect, bare, operand);
    let t2 = tokens::chars::<L>(dialect.like_operator_text(case_insensitive, negated));
    let t3 = grammar::expr_tokens(dialect, bare, pattern);
    let t4 = tokens::chars::<L>(")"@);
    counting::lemma_join(dialect, first, t0, t1);
    counting::lemma_join(dialect, first, t0 + t1, t2);
    counting::lemma_join(dialect, first, t0 + t1 + t2, t3);
    counting::lemma_join(dialect, first, t0 + t1 + t2 + t3, t4);
    assert(grammar::predicate_tokens(dialect, bare, PredicateTree::Like {
                case_insensitive,
                negated,
                operand: Box::new(operand),
                pattern: Box::new(pattern),
            }) == t0 + t1 + t2 + t3 + t4);
}

/// `IN` has its operand and then its values.
pub proof fn law_in<D: Dialect, L>(
    dialect: D,
    bare: bool,
    first: nat,
    negated: bool,
    operand: ExprTree<L>,
    values: List<L>,
)
    requires
        !(values is Nil),
    ensures
        ({
            let whole = PredicateTree::In { negated, operand: Box::new(operand), values };
            let at1 = behind(dialect, bare, first, operand);
            &&& predicate_sql(dialect, bare, first, whole) == "("@ + expr_sql(dialect, bare, first, operand) + (if negated { " NOT IN ("@ } else { " IN ("@ }) + counting::text_at(dialect, at1, grammar::value_list_tokens(true, values)) + "))"@
            &&& predicate_slots(dialect, bare, whole) == expr_slots(dialect, bare, operand) + counting::slot_list(grammar::value_list_tokens(true, values))
        }),
{
    counting::lemma_piece::<D, L>(dialect, "("@);
    let at1 = behind(dialect, bare, first, operand);
    counting::lemma_piece::<D, L>(dialect, (if negated { " NOT IN ("@ } else { " IN ("@ }));
    counting::lemma_piece::<D, L>(dialect, "))"@);
    let t0 = tokens::chars::<L>("("@);
    let t1 = grammar::expr_tokens(dialect, bare, operand);
    let t2 = tokens::chars::<L>((if negated { " NOT IN ("@ } else { " IN ("@ }));
    let t3 = grammar::value_list_tokens(true, values);
    let t4 = tokens::chars::<L>("))"@);
    counting::lemma_join(dialect, first, t0, t1);
    counting::lemma_join(dialect, first, t0 + t1, t2);
    counting::lemma_join(dialect, first, t0 + t1 + t2, t3);
    counting::lemma_join(dialect, first, t0 + t1 + t2 + t3, t4);
    assert(grammar::predicate_tokens(dialect, bare, PredicateTree::In { negated, operand: Box::new(operand), values }) == t0 + t1 + t2 + t3 + t4);
}

/// No value is in an empty list: the condition is false for every operand, and its opposite true. The
/// operand still binds what it binds.
pub proof fn law_in_nothing<D: Dialect, L>(
    dialect: D,
    bare: bool,
    first: nat,
    negated: bool,
    operand: ExprTree<L>,
)
    ensures
        ({
            let whole = PredicateTree::In { negated, operand: Box::new(operand), values: List::Nil };
            &&& predicate_sql(dialect, bare, first, whole) == "("@ + expr_sql(dialect, bare, first, operand) + (if negated { " IS NOT NULL OR 1 = 1)"@ } else { " IS NOT NULL AND 1 = 0)"@ })
            &&& predicate_slots(dialect, bare, whole) == expr_slots(dialect, bare, operand)
        }),
{
    counting::lemma_piece::<D, L>(dialect, "("@);
    counting::lemma_piece::<D, L>(dialect, (if negated { " IS NOT NULL OR 1 = 1)"@ } else { " IS NOT NULL AND 1 = 0)"@ }));
    let t0 = tokens::chars::<L>("("@);
    let t1 = grammar::expr_tokens(dialect, bare, operand);
    let t2 = tokens::chars::<L>((if negated { " IS NOT NULL OR 1 = 1)"@ } else { " IS NOT NULL AND 1 = 0)"@ }));
    counting::lemma_join(dialect, first, t0, t1);
    counting::lemma_join(dialect, first, t0 + t1, t2);
    assert(grammar::predicate_tokens(dialect, bare, PredicateTree::In { negated, operand: Box::new(operand), values: List::Nil }) == t0 + t1 + t2);
}

/// `BETWEEN` has its operand, then the lower bound and then the upper.
pub proof fn law_between<D: Dialect, L>(
    dialect: D,
    bare: bool,
    first: nat,
    negated: bool,
    operand: ExprTree<L>,
    lo: ExprTree<L>,
    hi: ExprTree<L>,
)
    ensures
        ({
            let whole = PredicateTree::Between {
                negated,
                operand: Box::new(operand),
                lo: Box::new(lo),
                hi: Box::new(hi),
            };
            let at1 = behind(dialect, bare, first, operand);
            let at2 = behind(dialect, bare, at1, lo);
            &&& predicate_sql(dialect, bare, first, whole) == "("@ + expr_sql(dialect, bare, first, operand) + (if negated { " NOT BETWEEN "@ } else { " BETWEEN "@ }) + expr_sql(dialect, bare, at1, lo) + " AND "@ + expr_sql(dialect, bare, at2, hi) + ")"@
            &&& predicate_slots(dialect, bare, whole) == expr_slots(dialect, bare, operand) + expr_slots(dialect, bare, lo) + expr_slots(dialect, bare, hi)
        }),
{
    counting::lemma_piece::<D, L>(dialect, "("@);
    let at1 = behind(dialect, bare, first, operand);
    counting::lemma_piece::<D, L>(dialect, (if negated { " NOT BETWEEN "@ } else { " BETWEEN "@ }));
    let at2 = behind(dialect, bare, at1, lo);
    counting::lemma_piece::<D, L>(dialect, " AND "@);
    counting::lemma_piece::<D, L>(dialect, ")"@);
    let t0 = tokens::chars::<L>("("@);
    let t1 = grammar::expr_tokens(dialect, bare, operand);
    let t2 = tokens::chars::<L>((if negated { " NOT BETWEEN "@ } else { " BETWEEN "@ }));
    let t3 = grammar::expr_tokens(dialect, bare, lo);
    let t4 = tokens::chars::<L>(" AND "@);
    let t5 = grammar::expr_tokens(dialect, bare, hi);
    let t6 = tokens::chars::<L>(")"@);
    counting::lemma_join(dialect, first, t0, t1);
    counting::lemma_join(dialect, first, t0 + t1, t2);
    counting::lemma_join(dialect, first, t0 + t1 + t2, t3);
    counting::lemma_join(dialect, first, t0 + t1 + t2 + t3, t4);
    counting::lemma_join(dialect, first, t0 + t1 + t2 + t3 + t4, t5);
    counting::lemma_join(dialect, first, t0 + t1 + t2 + t3 + t4 + t5, t6);
    assert(grammar::predicate_tokens(dialect, bare, PredicateTree::Between {
                negated,
                operand: Box::new(operand),
                lo: Box::new(lo),
                hi: Box::new(hi),
            }) == t0 + t1 + t2 + t3 + t4 + t5 + t6);
}

/// A boolean expression as a condition, and its opposite.
pub proof fn law_bool_test<D: Dialect, L>(
    dialect: D,
    bare: bool,
    first: nat,
    negated: bool,
    operand: ExprTree<L>,
)
    ensures
        ({
            let whole = PredicateTree::BoolTest { negated, operand: Box::new(operand) };
            &&& predicate_sql(dialect, bare, first, whole) == (if negated { "(NOT "@ } else { "("@ }) + expr_sql(dialect, bare, first, operand) + ")"@
            &&& predicate_slots(dialect, bare, whole) == expr_slots(dialect, bare, operand)
        }),
{
    counting::lemma_piece::<D, L>(dialect, (if negated { "(NOT "@ } else { "("@ }));
    counting::lemma_piece::<D, L>(dialect, ")"@);
    let t0 = tokens::chars::<L>((if negated { "(NOT "@ } else { "("@ }));
    let t1 = grammar::expr_tokens(dialect, bare, operand);
    let t2 = tokens::chars::<L>(")"@);
    counting::lemma_join(dialect, first, t0, t1);
    counting::lemma_join(dialect, first, t0 + t1, t2);
    assert(grammar::predicate_tokens(dialect, bare, PredicateTree::BoolTest { negated, operand: Box::new(operand) }) == t0 + t1 + t2);
}

/// Membership in a subquery has the operand and then the subquery.
pub proof fn law_in_subquery<D: Dialect, L>(
    dialect: D,
    bare: bool,
    first: nat,
    negated: bool,
    operand: ExprTree<L>,
    subquery: SelectTree<L>,
)
    ensures
        ({
            let whole = PredicateTree::InSubquery { negated, operand: Box::new(operand), subquery: Box::new(subquery) };
            let at1 = behind(dialect, bare, first, operand);
            &&& predicate_sql(dialect, bare, first, whole) == "("@ + expr_sql(dialect, bare, first, operand) + (if negated { " NOT IN ("@ } else { " IN ("@ }) + select_sql(dialect, at1, subquery) + "))"@
            &&& predicate_slots(dialect, bare, whole) == expr_slots(dialect, bare, operand) + select_slots(dialect, subquery)
        }),
{
    counting::lemma_piece::<D, L>(dialect, "("@);
    let at1 = behind(dialect, bare, first, operand);
    counting::lemma_piece::<D, L>(dialect, (if negated { " NOT IN ("@ } else { " IN ("@ }));
    counting::lemma_piece::<D, L>(dialect, "))"@);
    let t0 = tokens::chars::<L>("("@);
    let t1 = grammar::expr_tokens(dialect, bare, operand);
    let t2 = tokens::chars::<L>((if negated { " NOT IN ("@ } else { " IN ("@ }));
    let t3 = grammar::select_tokens(dialect, subquery);
    let t4 = tokens::chars::<L>("))"@);
    counting::lemma_join(dialect, first, t0, t1);
    counting::lemma_join(dialect, first, t0 + t1, t2);
    counting::lemma_join(dialect, first, t0 + t1 + t2, t3);
    counting::lemma_join(dialect, first, t0 + t1 + t2 + t3, t4);
    assert(grammar::predicate_tokens(dialect, bare, PredicateTree::InSubquery { negated, operand: Box::new(operand), subquery: Box::new(subquery) }) == t0 + t1 + t2 + t3 + t4);
}

/// Whether a subquery has rows, and the opposite.
pub proof fn law_exists<D: Dialect, L>(
    dialect: D,
    bare: bool,
    first: nat,
    negated: bool,
    subquery: SelectTree<L>,
)
    ensures
        ({
            let whole = PredicateTree::Exists { negated, subquery: Box::new(subquery) };
            &&& predicate_sql(dialect, bare, first, whole) == (if negated { "(NOT EXISTS ("@ } else { "(EXISTS ("@ }) + select_sql(dialect, first, subquery) + "))"@
            &&& predicate_slots(dialect, bare, whole) == select_slots(dialect, subquery)
        }),
{
    counting::lemma_piece::<D, L>(dialect, (if negated { "(NOT EXISTS ("@ } else { "(EXISTS ("@ }));
    counting::lemma_piece::<D, L>(dialect, "))"@);
    let t0 = tokens::chars::<L>((if negated { "(NOT EXISTS ("@ } else { "(EXISTS ("@ }));
    let t1 = grammar::select_tokens(dialect, subquery);
    let t2 = tokens::chars::<L>("))"@);
    counting::lemma_join(dialect, first, t0, t1);
    counting::lemma_join(dialect, first, t0 + t1, t2);
    assert(grammar::predicate_tokens(dialect, bare, PredicateTree::Exists { negated, subquery: Box::new(subquery) }) == t0 + t1 + t2);
}

/// A `BETWEEN` of literals binds the operand, then the lower bound and then the upper.
pub proof fn law_between_binds<D: Dialect, P, E>(
    dialect: D,
    bare: bool,
    negated: bool,
    operand: Encoded<P, E>,
    lo: Encoded<P, E>,
    hi: Encoded<P, E>,
)
    requires
        operand.outcome is Ok,
        lo.outcome is Ok,
        hi.outcome is Ok,
    ensures
        tokens::binds(
            tokens::emit(
                dialect,
                grammar::predicate_tokens(
                    dialect,
                    bare,
                    PredicateTree::Between {
                        negated,
                        operand: Box::new(ExprTree::Literal(operand)),
                        lo: Box::new(ExprTree::Literal(lo)),
                        hi: Box::new(ExprTree::Literal(hi)),
                    },
                ),
            ),
        ) == tokens::static_binds(operand.outcome->Ok_0.seq()) + tokens::static_binds(
            lo.outcome->Ok_0.seq(),
        ) + tokens::static_binds(hi.outcome->Ok_0.seq()),
{
    let tree = PredicateTree::Between {
        negated,
        operand: Box::new(ExprTree::Literal(operand)),
        lo: Box::new(ExprTree::Literal(lo)),
        hi: Box::new(ExprTree::Literal(hi)),
    };
    let all = grammar::predicate_tokens(dialect, bare, tree);
    law_between(
        dialect,
        bare,
        0,
        negated,
        ExprTree::Literal(operand),
        ExprTree::Literal(lo),
        ExprTree::Literal(hi),
    );
    law_slots(dialect, bare, 0, operand);
    law_slots(dialect, bare, 0, lo);
    law_slots(dialect, bare, 0, hi);
    let none = Seq::<Token<Encoded<P, E>>>::empty();
    let one = none.push(Token::Literal(operand));
    let two = one.push(Token::Literal(lo));
    let three = two.push(Token::Literal(hi));
    assert(one =~= seq![Token::Literal(operand)]);
    assert(two =~= seq![Token::Literal(operand)] + seq![Token::Literal(lo)]);
    assert(three =~= seq![Token::Literal(operand)] + seq![Token::Literal(lo)] + seq![
        Token::Literal(hi),
    ]);
    counting::lemma_slot(dialect, Token::Literal(operand));
    counting::lemma_slot(dialect, Token::Literal(lo));
    counting::lemma_slot(dialect, Token::Literal(hi));
    counting::lemma_slot_list_add(seq![Token::Literal(operand)], seq![Token::Literal(lo)]);
    counting::lemma_slot_list_add(
        seq![Token::Literal(operand)] + seq![Token::Literal(lo)],
        seq![Token::Literal(hi)],
    );
    assert(counting::slot_list(all) == three);
    counting::law_slots_decide_binds(dialect, all, three);
    counting::law_literal_binds_behind(dialect, none, operand);
    counting::law_literal_binds_behind(dialect, one, lo);
    counting::law_literal_binds_behind(dialect, two, hi);
    assert(tokens::emit(dialect, none) =~= Seq::empty());
    assert(tokens::binds(tokens::emit(dialect, none)) =~= Seq::empty());
}

spec fn window_term_tokens<D: Dialect, L>(dialect: D, bare: bool, term: WindowOrderTree<L>) -> Seq<
    Token<L>,
> {
    grammar::expr_tokens(dialect, bare, term.expr) + tokens::chars(
        " "@ + ops::direction_keyword(term.direction),
    )
}

proof fn lemma_window_term<D: Dialect, L>(
    dialect: D,
    bare: bool,
    first: nat,
    term: WindowOrderTree<L>,
)
    ensures
        counting::text_at(dialect, first, window_term_tokens(dialect, bare, term)) == expr_sql(
            dialect,
            bare,
            first,
            term.expr,
        ) + (" "@ + ops::direction_keyword(term.direction)),
        counting::slot_list(window_term_tokens(dialect, bare, term)) == expr_slots(
            dialect,
            bare,
            term.expr,
        ),
{
    let end = " "@ + ops::direction_keyword(term.direction);
    counting::lemma_piece::<D, L>(dialect, end);
    counting::lemma_join(
        dialect,
        first,
        grammar::expr_tokens(dialect, bare, term.expr),
        tokens::chars::<L>(end),
    );
}

spec fn case_arm_tokens<D: Dialect, L>(
    dialect: D,
    bare: bool,
    cast: Option<SqlType>,
    arm: CaseArmTree<L>,
) -> Seq<Token<L>> {
    tokens::chars(" WHEN "@) + grammar::predicate_tokens(dialect, bare, arm.when) + tokens::chars(" THEN "@)
        + grammar::cast_expr_tokens(dialect, bare, cast, arm.value)
}

proof fn lemma_case_arm<D: Dialect, L>(
    dialect: D,
    bare: bool,
    first: nat,
    cast: Option<SqlType>,
    arm: CaseArmTree<L>,
)
    ensures
        counting::text_at(dialect, first, case_arm_tokens(dialect, bare, cast, arm)) == " WHEN "@
            + predicate_sql(dialect, bare, first, arm.when) + " THEN "@ + cast_sql(
            dialect,
            cast,
            expr_sql(dialect, bare, behind_predicate(dialect, bare, first, arm.when), arm.value),
        ),
        counting::slot_list(case_arm_tokens(dialect, bare, cast, arm)) == predicate_slots(
            dialect,
            bare,
            arm.when,
        ) + expr_slots(dialect, bare, arm.value),
{
    let when = tokens::chars::<L>(" WHEN "@);
    let condition = grammar::predicate_tokens(dialect, bare, arm.when);
    let then_ = tokens::chars::<L>(" THEN "@);
    let value = grammar::cast_expr_tokens(dialect, bare, cast, arm.value);
    counting::lemma_piece::<D, L>(dialect, " WHEN "@);
    counting::lemma_piece::<D, L>(dialect, " THEN "@);
    law_cast(dialect, bare, behind_predicate(dialect, bare, first, arm.when), cast, arm.value);
    counting::lemma_join(dialect, first, when, condition);
    counting::lemma_join(dialect, first, when + condition, then_);
    counting::lemma_join(dialect, first, when + condition + then_, value);
}

spec fn simple_arm_tokens<D: Dialect, L>(
    dialect: D,
    bare: bool,
    cast: Option<SqlType>,
    arm: SimpleArmTree<L>,
) -> Seq<Token<L>> {
    tokens::chars(" WHEN "@) + grammar::expr_tokens(dialect, bare, arm.when) + tokens::chars(" THEN "@)
        + grammar::cast_expr_tokens(dialect, bare, cast, arm.value)
}

proof fn lemma_simple_arm<D: Dialect, L>(
    dialect: D,
    bare: bool,
    first: nat,
    cast: Option<SqlType>,
    arm: SimpleArmTree<L>,
)
    ensures
        counting::text_at(dialect, first, simple_arm_tokens(dialect, bare, cast, arm)) == " WHEN "@
            + expr_sql(dialect, bare, first, arm.when) + " THEN "@ + cast_sql(
            dialect,
            cast,
            expr_sql(dialect, bare, behind(dialect, bare, first, arm.when), arm.value),
        ),
        counting::slot_list(simple_arm_tokens(dialect, bare, cast, arm)) == expr_slots(
            dialect,
            bare,
            arm.when,
        ) + expr_slots(dialect, bare, arm.value),
{
    let when = tokens::chars::<L>(" WHEN "@);
    let condition = grammar::expr_tokens(dialect, bare, arm.when);
    let then_ = tokens::chars::<L>(" THEN "@);
    let value = grammar::cast_expr_tokens(dialect, bare, cast, arm.value);
    counting::lemma_piece::<D, L>(dialect, " WHEN "@);
    counting::lemma_piece::<D, L>(dialect, " THEN "@);
    law_cast(dialect, bare, behind(dialect, bare, first, arm.when), cast, arm.value);
    counting::lemma_join(dialect, first, when, condition);
    counting::lemma_join(dialect, first, when + condition, then_);
    counting::lemma_join(dialect, first, when + condition + then_, value);
}

/// A list of expressions has its elements in their order, separated by commas.
pub proof fn law_list_of_expressions<D: Dialect, L>(
    dialect: D,
    bare: bool,
    first: nat,
    lead: Seq<char>,
    exprs: List<ExprTree<L>>,
    expr: ExprTree<L>,
)
    ensures
        ({
            let before = grammar::expr_list_tokens(dialect, bare, lead, exprs);
            let whole = grammar::expr_list_tokens(dialect, bare, lead, exprs.with(expr));
            let at = first + tokens::slots(before);
            &&& exprs is Nil ==> before == Seq::<Token<L>>::empty()
            &&& counting::text_at(dialect, first, whole) == counting::text_at(dialect, first, before)
                + (if exprs is Nil { lead } else { ", "@ }) + expr_sql(dialect, bare, at, expr)
            &&& counting::slot_list(whole) == counting::slot_list(before) + expr_slots(dialect, bare, expr)
        }),
    decreases exprs,
{
    let before = grammar::expr_list_tokens(dialect, bare, lead, exprs);
    let at = first + tokens::slots(before);
    counting::lemma_piece::<D, L>(dialect, lead);
    let item = grammar::expr_tokens(dialect, bare, expr);
    match exprs {
        List::Nil => {
            let none = grammar::expr_list_tokens(dialect, bare, ", "@, List::<ExprTree<L>>::Nil);
            assert(none == Seq::<Token<L>>::empty());
            let lead_tokens = tokens::chars::<L>(lead);
            counting::lemma_join(dialect, first, lead_tokens, item);
            assert(grammar::expr_list_tokens(dialect, bare, lead, exprs.with(expr)) == lead_tokens + item);
            counting::lemma_nothing(lead);
        },
        List::Cons { head, tail } => {
            let lead_tokens = tokens::chars::<L>(lead);
            let start = lead_tokens + grammar::expr_tokens(dialect, bare, *head);
            counting::lemma_join(dialect, first, lead_tokens, grammar::expr_tokens(dialect, bare, *head));
            let next = first + tokens::slots(start);
            law_list_of_expressions(dialect, bare, next, ", "@, *tail, expr);
            let rest = grammar::expr_list_tokens(dialect, bare, ", "@, *tail);
            let all = grammar::expr_list_tokens(dialect, bare, ", "@, tail.with(expr));
            counting::lemma_join(dialect, first, start, rest);
            counting::lemma_join(dialect, first, start, all);
            assert(grammar::expr_list_tokens(dialect, bare, lead, exprs.with(expr)) == start + all);
            assert(before == start + rest);
            counting::lemma_regroup(
                counting::text_at(dialect, first, start),
                counting::text_at(dialect, next, rest),
                ", "@,
                expr_sql(dialect, bare, at, expr),
            );
            counting::lemma_regroup(
                counting::slot_list(start),
                counting::slot_list(rest),
                expr_slots(dialect, bare, expr),
                Seq::empty(),
            );
        },
    }
}

/// Arguments stand in their order, each inside the cast, separated by commas.
pub proof fn law_arguments<D: Dialect, L>(
    dialect: D,
    bare: bool,
    first: nat,
    cast: Option<SqlType>,
    first_item: bool,
    args: List<ExprTree<L>>,
    arg: ExprTree<L>,
)
    ensures
        ({
            let before = grammar::cast_args_tokens(dialect, bare, cast, first_item, args);
            let whole = grammar::cast_args_tokens(dialect, bare, cast, first_item, args.with(arg));
            let at = first + tokens::slots(before);
            &&& args is Nil ==> before == Seq::<Token<L>>::empty()
            &&& counting::text_at(dialect, first, whole) == counting::text_at(dialect, first, before)
                + (if args is Nil { (if first_item { Seq::empty() } else { ", "@ }) } else { ", "@ }) + cast_sql(dialect, cast, expr_sql(dialect, bare, at, arg))
            &&& counting::slot_list(whole) == counting::slot_list(before) + expr_slots(dialect, bare, arg)
        }),
    decreases args,
{
    let before = grammar::cast_args_tokens(dialect, bare, cast, first_item, args);
    let at = first + tokens::slots(before);
    law_cast(dialect, bare, at, cast, arg);
    counting::lemma_piece::<D, L>(dialect, grammar::separator(first_item));
    let item = grammar::cast_expr_tokens(dialect, bare, cast, arg);
    match args {
        List::Nil => {
            let none = grammar::cast_args_tokens(dialect, bare, cast, false, List::<ExprTree<L>>::Nil);
            assert(none == Seq::<Token<L>>::empty());
            let lead_tokens = tokens::chars::<L>(grammar::separator(first_item));
            counting::lemma_join(dialect, first, lead_tokens, item);
            assert(grammar::cast_args_tokens(dialect, bare, cast, first_item, args.with(arg)) == lead_tokens + item);
            counting::lemma_nothing(grammar::separator(first_item));
        },
        List::Cons { head, tail } => {
            let lead_tokens = tokens::chars::<L>(grammar::separator(first_item));
            let start = lead_tokens + grammar::cast_expr_tokens(dialect, bare, cast, *head);
            counting::lemma_join(dialect, first, lead_tokens, grammar::cast_expr_tokens(dialect, bare, cast, *head));
            let next = first + tokens::slots(start);
            law_arguments(dialect, bare, next, cast, false, *tail, arg);
            let rest = grammar::cast_args_tokens(dialect, bare, cast, false, *tail);
            let all = grammar::cast_args_tokens(dialect, bare, cast, false, tail.with(arg));
            counting::lemma_join(dialect, first, start, rest);
            counting::lemma_join(dialect, first, start, all);
            assert(grammar::cast_args_tokens(dialect, bare, cast, first_item, args.with(arg)) == start + all);
            assert(before == start + rest);
            counting::lemma_regroup(
                counting::text_at(dialect, first, start),
                counting::text_at(dialect, next, rest),
                ", "@,
                cast_sql(dialect, cast, expr_sql(dialect, bare, at, arg)),
            );
            counting::lemma_regroup(
                counting::slot_list(start),
                counting::slot_list(rest),
                expr_slots(dialect, bare, arg),
                Seq::empty(),
            );
        },
    }
}

/// The ordering of a window has its terms in their order, each with its direction.
pub proof fn law_window_ordering<D: Dialect, L>(
    dialect: D,
    bare: bool,
    first: nat,
    lead: Seq<char>,
    terms: List<WindowOrderTree<L>>,
    term: WindowOrderTree<L>,
)
    ensures
        ({
            let before = grammar::window_orders_tokens(dialect, bare, lead, terms);
            let whole = grammar::window_orders_tokens(dialect, bare, lead, terms.with(term));
            let at = first + tokens::slots(before);
            &&& terms is Nil ==> before == Seq::<Token<L>>::empty()
            &&& counting::text_at(dialect, first, whole) == counting::text_at(dialect, first, before)
                + (if terms is Nil { lead } else { ", "@ }) + (expr_sql(dialect, bare, at, term.expr) + (" "@ + ops::direction_keyword(term.direction)))
            &&& counting::slot_list(whole) == counting::slot_list(before) + expr_slots(dialect, bare, term.expr)
        }),
    decreases terms,
{
    let before = grammar::window_orders_tokens(dialect, bare, lead, terms);
    let at = first + tokens::slots(before);
    lemma_window_term(dialect, bare, at, term);
    counting::lemma_piece::<D, L>(dialect, lead);
    let item = window_term_tokens(dialect, bare, term);
    match terms {
        List::Nil => {
            let none = grammar::window_orders_tokens(dialect, bare, ", "@, List::<WindowOrderTree<L>>::Nil);
            assert(none == Seq::<Token<L>>::empty());
            let lead_tokens = tokens::chars::<L>(lead);
            counting::lemma_join(dialect, first, lead_tokens, item);
            counting::lemma_regroup(lead_tokens, grammar::expr_tokens(dialect, bare, term.expr), tokens::chars::<L>(" "@ + ops::direction_keyword(term.direction)), Seq::empty());
            assert(grammar::window_orders_tokens(dialect, bare, lead, terms.with(term)) == lead_tokens + item);
            counting::lemma_nothing(lead);
        },
        List::Cons { head, tail } => {
            let lead_tokens = tokens::chars::<L>(lead);
            let start = lead_tokens + window_term_tokens(dialect, bare, *head);
            counting::lemma_join(dialect, first, lead_tokens, window_term_tokens(dialect, bare, *head));
            counting::lemma_regroup(lead_tokens, grammar::expr_tokens(dialect, bare, head.expr), tokens::chars::<L>(" "@ + ops::direction_keyword(head.direction)), Seq::empty());
            let next = first + tokens::slots(start);
            law_window_ordering(dialect, bare, next, ", "@, *tail, term);
            let rest = grammar::window_orders_tokens(dialect, bare, ", "@, *tail);
            let all = grammar::window_orders_tokens(dialect, bare, ", "@, tail.with(term));
            counting::lemma_join(dialect, first, start, rest);
            counting::lemma_join(dialect, first, start, all);
            assert(grammar::window_orders_tokens(dialect, bare, lead, terms.with(term)) == start + all);
            assert(before == start + rest);
            counting::lemma_regroup(
                counting::text_at(dialect, first, start),
                counting::text_at(dialect, next, rest),
                ", "@,
                (expr_sql(dialect, bare, at, term.expr) + (" "@ + ops::direction_keyword(term.direction))),
            );
            counting::lemma_regroup(
                counting::slot_list(start),
                counting::slot_list(rest),
                expr_slots(dialect, bare, term.expr),
                Seq::empty(),
            );
        },
    }
}

/// The arms of a searched `CASE` stand in their order, each its condition and then its value.
pub proof fn law_case_arms<D: Dialect, L>(
    dialect: D,
    bare: bool,
    first: nat,
    cast: Option<SqlType>,
    arms: List<CaseArmTree<L>>,
    arm: CaseArmTree<L>,
)
    ensures
        ({
            let before = grammar::case_arms_tokens(dialect, bare, cast, arms);
            let whole = grammar::case_arms_tokens(dialect, bare, cast, arms.with(arm));
            let at = first + tokens::slots(before);
            &&& arms is Nil ==> before == Seq::<Token<L>>::empty()
            &&& counting::text_at(dialect, first, whole) == counting::text_at(dialect, first, before)
                + (" WHEN "@ + predicate_sql(dialect, bare, at, arm.when) + " THEN "@ + cast_sql(dialect, cast, expr_sql(dialect, bare, behind_predicate(dialect, bare, at, arm.when), arm.value)))
            &&& counting::slot_list(whole) == counting::slot_list(before) + (predicate_slots(dialect, bare, arm.when) + expr_slots(dialect, bare, arm.value))
        }),
    decreases arms,
{
    let before = grammar::case_arms_tokens(dialect, bare, cast, arms);
    let at = first + tokens::slots(before);
    lemma_case_arm(dialect, bare, at, cast, arm);
    let item = case_arm_tokens(dialect, bare, cast, arm);
    match arms {
        List::Nil => {
            let none = grammar::case_arms_tokens(dialect, bare, cast, List::<CaseArmTree<L>>::Nil);
            assert(none == Seq::<Token<L>>::empty());
            assert(grammar::case_arms_tokens(dialect, bare, cast, arms.with(arm)) == item);
            counting::lemma_nothing(counting::text_at(dialect, first, item));
        },
        List::Cons { head, tail } => {
            let start = case_arm_tokens(dialect, bare, cast, *head);
            let next = first + tokens::slots(start);
            law_case_arms(dialect, bare, next, cast, *tail, arm);
            let rest = grammar::case_arms_tokens(dialect, bare, cast, *tail);
            let all = grammar::case_arms_tokens(dialect, bare, cast, tail.with(arm));
            counting::lemma_join(dialect, first, start, rest);
            counting::lemma_join(dialect, first, start, all);
            assert(grammar::case_arms_tokens(dialect, bare, cast, arms.with(arm)) == start + all);
            assert(before == start + rest);
            counting::lemma_regroup(
                counting::text_at(dialect, first, start),
                counting::text_at(dialect, next, rest),
                (" WHEN "@ + predicate_sql(dialect, bare, at, arm.when) + " THEN "@ + cast_sql(dialect, cast, expr_sql(dialect, bare, behind_predicate(dialect, bare, at, arm.when), arm.value))),
                Seq::empty(),
            );
            counting::lemma_regroup(
                counting::slot_list(start),
                counting::slot_list(rest),
                (predicate_slots(dialect, bare, arm.when) + expr_slots(dialect, bare, arm.value)),
                Seq::empty(),
            );
        },
    }
}

/// The arms of a simple `CASE` stand in their order, each what it compares with and then its value.
pub proof fn law_simple_arms<D: Dialect, L>(
    dialect: D,
    bare: bool,
    first: nat,
    cast: Option<SqlType>,
    arms: List<SimpleArmTree<L>>,
    arm: SimpleArmTree<L>,
)
    ensures
        ({
            let before = grammar::simple_arms_tokens(dialect, bare, cast, arms);
            let whole = grammar::simple_arms_tokens(dialect, bare, cast, arms.with(arm));
            let at = first + tokens::slots(before);
            &&& arms is Nil ==> before == Seq::<Token<L>>::empty()
            &&& counting::text_at(dialect, first, whole) == counting::text_at(dialect, first, before)
                + (" WHEN "@ + expr_sql(dialect, bare, at, arm.when) + " THEN "@ + cast_sql(dialect, cast, expr_sql(dialect, bare, behind(dialect, bare, at, arm.when), arm.value)))
            &&& counting::slot_list(whole) == counting::slot_list(before) + (expr_slots(dialect, bare, arm.when) + expr_slots(dialect, bare, arm.value))
        }),
    decreases arms,
{
    let before = grammar::simple_arms_tokens(dialect, bare, cast, arms);
    let at = first + tokens::slots(before);
    lemma_simple_arm(dialect, bare, at, cast, arm);
    let item = simple_arm_tokens(dialect, bare, cast, arm);
    match arms {
        List::Nil => {
            let none = grammar::simple_arms_tokens(dialect, bare, cast, List::<SimpleArmTree<L>>::Nil);
            assert(none == Seq::<Token<L>>::empty());
            assert(grammar::simple_arms_tokens(dialect, bare, cast, arms.with(arm)) == item);
            counting::lemma_nothing(counting::text_at(dialect, first, item));
        },
        List::Cons { head, tail } => {
            let start = simple_arm_tokens(dialect, bare, cast, *head);
            let next = first + tokens::slots(start);
            law_simple_arms(dialect, bare, next, cast, *tail, arm);
            let rest = grammar::simple_arms_tokens(dialect, bare, cast, *tail);
            let all = grammar::simple_arms_tokens(dialect, bare, cast, tail.with(arm));
            counting::lemma_join(dialect, first, start, rest);
            counting::lemma_join(dialect, first, start, all);
            assert(grammar::simple_arms_tokens(dialect, bare, cast, arms.with(arm)) == start + all);
            assert(before == start + rest);
            counting::lemma_regroup(
                counting::text_at(dialect, first, start),
                counting::text_at(dialect, next, rest),
                (" WHEN "@ + expr_sql(dialect, bare, at, arm.when) + " THEN "@ + cast_sql(dialect, cast, expr_sql(dialect, bare, behind(dialect, bare, at, arm.when), arm.value))),
                Seq::empty(),
            );
            counting::lemma_regroup(
                counting::slot_list(start),
                counting::slot_list(rest),
                (expr_slots(dialect, bare, arm.when) + expr_slots(dialect, bare, arm.value)),
                Seq::empty(),
            );
        },
    }
}

/// The values of an `IN` stand in their order, one placeholder each, separated by commas.
pub proof fn law_values<D: Dialect, L>(
    dialect: D,
    first: nat,
    first_item: bool,
    values: List<L>,
    value: L,
)
    ensures
        ({
            let before = grammar::value_list_tokens(first_item, values);
            let whole = grammar::value_list_tokens(first_item, values.with(value));
            let at = first + tokens::slots(before);
            &&& values is Nil ==> before == Seq::<Token<L>>::empty()
            &&& counting::text_at(dialect, first, whole) == counting::text_at(dialect, first, before)
                + (if values is Nil { (if first_item { Seq::empty() } else { ", "@ }) } else { ", "@ }) + dialect.placeholder_text(at)
            &&& counting::slot_list(whole) == counting::slot_list(before) + seq![Token::Literal(value)]
        }),
    decreases values,
{
    let before = grammar::value_list_tokens(first_item, values);
    let at = first + tokens::slots(before);
    counting::lemma_slot(dialect, Token::Literal(value));
    counting::lemma_piece::<D, L>(dialect, grammar::separator(first_item));
    let item = seq![Token::Literal(value)];
    match values {
        List::Nil => {
            let none = grammar::value_list_tokens(false, List::<L>::Nil);
            assert(none == Seq::<Token<L>>::empty());
            let lead_tokens = tokens::chars::<L>(grammar::separator(first_item));
            counting::lemma_join(dialect, first, lead_tokens, item);
            assert(grammar::value_list_tokens(first_item, values.with(value)) == lead_tokens + item);
            counting::lemma_nothing(grammar::separator(first_item));
        },
        List::Cons { head, tail } => {
            let lead_tokens = tokens::chars::<L>(grammar::separator(first_item));
            let start = lead_tokens + seq![Token::Literal(*head)];
            counting::lemma_join(dialect, first, lead_tokens, seq![Token::Literal(*head)]);
            let next = first + tokens::slots(start);
            law_values(dialect, next, false, *tail, value);
            let rest = grammar::value_list_tokens(false, *tail);
            let all = grammar::value_list_tokens(false, tail.with(value));
            counting::lemma_join(dialect, first, start, rest);
            counting::lemma_join(dialect, first, start, all);
            assert(grammar::value_list_tokens(first_item, values.with(value)) == start + all);
            assert(before == start + rest);
            counting::lemma_regroup(
                counting::text_at(dialect, first, start),
                counting::text_at(dialect, next, rest),
                ", "@,
                dialect.placeholder_text(at),
            );
            counting::lemma_regroup(
                counting::slot_list(start),
                counting::slot_list(rest),
                seq![Token::Literal(value)],
                Seq::empty(),
            );
        },
    }
}

/// An `ORDER BY` term is its expression and then its direction. A wanted place of the `NULL`s is the
/// dialect's own modifier, or another term before it that sorts by whether the key is `NULL`:
/// ascending puts `NULL`s last, descending first.
pub proof fn law_order<D: Dialect, L>(dialect: D, first: nat, order: OrderTree<L>)
    ensures
        ({
            let text = counting::text_at(dialect, first, grammar::order_tokens(dialect, order));
            let slots = counting::slot_list(grammar::order_tokens(dialect, order));
            let direction = " "@ + ops::direction_keyword(order.direction);
            match order.nulls {
                None => {
                    &&& text == expr_sql(dialect, false, first, order.expr) + direction
                    &&& slots == expr_slots(dialect, false, order.expr)
                },
                Some(wanted) => if dialect.emulates_nulls() {
                    &&& text == "("@ + expr_sql(dialect, false, first, wanted.key) + (" IS NULL) "@
                        + (if wanted.nulls == OrderNulls::Last { "ASC"@ } else { "DESC"@ }) + ", "@)
                        + (expr_sql(
                        dialect,
                        false,
                        behind(dialect, false, first, wanted.key),
                        order.expr,
                    ) + direction)
                    &&& slots == expr_slots(dialect, false, wanted.key) + expr_slots(
                        dialect,
                        false,
                        order.expr,
                    )
                } else {
                    &&& text == expr_sql(dialect, false, first, order.expr) + (direction
                        + dialect.order_nulls_text(wanted.nulls))
                    &&& slots == expr_slots(dialect, false, order.expr)
                },
            }
        }),
{
    let direction = " "@ + ops::direction_keyword(order.direction);
    let expr = grammar::expr_tokens(dialect, false, order.expr);
    counting::lemma_piece::<D, L>(dialect, direction);
    counting::lemma_join(dialect, first, expr, tokens::chars::<L>(direction));
    if let Some(wanted) = order.nulls {
        if dialect.emulates_nulls() {
            let open = tokens::chars::<L>("("@);
            let key = grammar::expr_tokens(dialect, false, wanted.key);
            let end = " IS NULL) "@ + (match wanted.nulls {
                OrderNulls::Last => "ASC"@,
                OrderNulls::First => "DESC"@,
            }) + ", "@;
            counting::lemma_piece::<D, L>(dialect, "("@);
            counting::lemma_piece::<D, L>(dialect, end);
            counting::lemma_join(dialect, first, open, key);
            counting::lemma_join(dialect, first, open + key, tokens::chars::<L>(end));
            let at = behind(dialect, false, first, wanted.key);
            counting::lemma_join(dialect, at, expr, tokens::chars::<L>(direction));
            counting::lemma_join(
                dialect,
                first,
                open + key + tokens::chars::<L>(end),
                expr + tokens::chars::<L>(direction),
            );
        } else {
            let end = direction + dialect.order_nulls_text(wanted.nulls);
            counting::lemma_piece::<D, L>(dialect, end);
            counting::lemma_join(dialect, first, expr, tokens::chars::<L>(end));
        }
    }
}

} // verus!
