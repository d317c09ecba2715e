//! The SQL of a query tree, as tokens: one clause of this file per construct of the language.
use crate::chain::List;
use crate::dialect::Dialect;
use crate::label::Label;
use crate::ops;
use crate::ops::{ArithmeticOp, DateField, OrderNulls, SourceAlias};
use crate::sql_type::SqlType;
use crate::text;
use crate::tokens;
use crate::tokens::Token;
use crate::dialect;
use crate::tree::{
    AssignmentTree, CaseArmTree, ConflictAction, ConflictClause, CteDef, DeleteTree, ExprTree,
    InsertSelectTree, InsertTree, JoinTree, OrderTree, PredicateTree, ProjectionTree, SelectTree,
    SetOrder, SetTail, SetTree, SimpleArmTree, SourceTree, TableRef, UpdateTree, ValueTree,
    WindowOrderTree,
};
use vstd::prelude::*;

verus! {

/// `CAST(` where a cast is wanted.
pub open spec fn cast_open(cast: Option<SqlType>) -> Seq<char> {
    match cast {
        Some(_) => "CAST("@,
        None => Seq::empty(),
    }
}

/// ` AS <type>)` where a cast is wanted.
pub open spec fn cast_close<D: Dialect>(dialect: D, cast: Option<SqlType>) -> Seq<char> {
    match cast {
        Some(ty) => " AS "@ + dialect.cast_type_text(ty) + ")"@,
        None => Seq::empty(),
    }
}

/// The cast, where a condition holds.
pub open spec fn cast_if(condition: bool, cast: Option<SqlType>) -> Option<SqlType> {
    if condition {
        cast
    } else {
        None
    }
}

/// A column: qualified by its source's alias, or bare (in the `RETURNING` of an `INSERT`, whose
/// target has no alias).
pub open spec fn column_text<D: Dialect>(
    dialect: D,
    bare: bool,
    alias: SourceAlias,
    column: Label,
) -> Seq<char> {
    if bare {
        dialect.quoted_ident(column@)
    } else {
        alias.text() + "."@ + dialect.quoted_ident(column@)
    }
}

/// The separator before a list element: nothing before the first.
pub open spec fn separator(first: bool) -> Seq<char> {
    if first {
        Seq::empty()
    } else {
        ", "@
    }
}

/// The `FROM`-clause name of a table: its quoted name, qualified by its schema.
pub open spec fn table_text<D: Dialect>(dialect: D, table: TableRef) -> Seq<char> {
    (match table.schema {
        Some(schema) => dialect.quoted_ident(schema@) + "."@,
        None => Seq::empty(),
    }) + dialect.quoted_ident(table.name@)
}

/// The keyword of `EXTRACT` and what opens before it.
pub open spec fn extract_open(field: DateField) -> Seq<char> {
    "CAST("@ + (if field == DateField::Second {
        "FLOOR("@
    } else {
        Seq::empty()
    }) + "EXTRACT("@ + field.extract_keyword_text() + " FROM "@
}

/// What closes an `EXTRACT` of a field.
pub open spec fn extract_close<D: Dialect>(dialect: D, field: DateField, cast: SqlType) -> Seq<
    char,
> {
    ")"@ + (if field == DateField::Second {
        ")"@
    } else {
        Seq::empty()
    }) + " AS "@ + dialect.cast_type_text(cast) + ")"@
}

/// The tokens of an expression. `bare` says whether columns stand without their alias.
pub open spec fn expr_tokens<D: Dialect, L>(dialect: D, bare: bool, expr: ExprTree<L>) -> Seq<
    Token<L>,
>
    decreases expr, 0nat,
{
    match expr {
        ExprTree::Column { alias, column } => tokens::chars(column_text(dialect, bare, alias, column)),
        ExprTree::Literal(value) => seq![Token::Literal(value)],
        ExprTree::Param => seq![Token::Runtime],
        ExprTree::Binary { op, left, right } => if op == ArithmeticOp::Divide
            && dialect.casts_integer_division() {
            tokens::chars("(CAST("@) + expr_tokens(dialect, bare, *left) + tokens::chars(
                " AS "@ + dialect.cast_type_text(SqlType::F64) + ") / CAST("@,
            ) + expr_tokens(dialect, bare, *right) + tokens::chars(
                " AS "@ + dialect.cast_type_text(SqlType::F64) + "))"@,
            )
        } else {
            tokens::chars("("@) + expr_tokens(dialect, bare, *left) + tokens::chars(
                " "@ + ops::arithmetic_symbol(op) + " "@,
            ) + expr_tokens(dialect, bare, *right) + tokens::chars(")"@)
        },
        ExprTree::Nullif { left, left_needs_cast, right, right_needs_cast, result } => {
            let cast = cast_if(left_needs_cast && right_needs_cast, result);
            tokens::chars("NULLIF("@) + cast_expr_tokens(dialect, bare, cast, *left) + tokens::chars(", "@)
                + cast_expr_tokens(dialect, bare, cast, *right) + tokens::chars(")"@)
        },
        ExprTree::Coalesce { args, all_args_need_cast, result } => tokens::chars("COALESCE("@)
            + cast_args_tokens(dialect, bare, cast_if(all_args_need_cast, result), true, args)
            + tokens::chars(")"@),
        ExprTree::Aggregate { func, distinct, cast, operand } => tokens::chars(
            cast_open(cast) + ops::aggregate_name(func) + "("@ + (if distinct {
                "DISTINCT "@
            } else {
                Seq::empty()
            }),
        ) + expr_tokens(dialect, bare, *operand) + tokens::chars(")"@ + cast_close(dialect, cast)),
        ExprTree::ScalarSubquery(subquery) => tokens::chars("("@) + select_tokens(dialect, *subquery)
            + tokens::chars(")"@),
        ExprTree::Window { func, cast, args, partitions, orders } => tokens::chars(
            cast_open(cast) + ops::window_name(func) + "("@,
        ) + expr_list_tokens(dialect, bare, Seq::empty(), args) + tokens::chars(
            ") OVER ("@,
        ) + expr_list_tokens(
            dialect,
            bare,
            "PARTITION BY "@,
            partitions,
        ) + window_orders_tokens(
            dialect,
            bare,
            if partitions is Nil {
                "ORDER BY "@
            } else {
                " ORDER BY "@
            },
            orders,
        ) + tokens::chars(")"@ + cast_close(dialect, cast)),
        ExprTree::Case { arms, else_, result } => tokens::chars("CASE"@) + case_arms_tokens(
            dialect,
            bare,
            result,
            arms,
        ) + else_tokens(dialect, bare, result, else_) + tokens::chars(" END"@),
        ExprTree::SimpleCase { operand, operand_needs_cast, comparison, arms, else_, result } =>
        tokens::chars("CASE "@) + cast_expr_tokens(
            dialect,
            bare,
            cast_if(operand_needs_cast, comparison),
            *operand,
        ) + simple_arms_tokens(dialect, bare, result, arms) + else_tokens(
            dialect,
            bare,
            result,
            else_,
        ) + tokens::chars(" END"@),
        ExprTree::UnaryFn { func, operand } => tokens::chars(func.name_text() + "("@) + expr_tokens(
            dialect,
            bare,
            *operand,
        ) + tokens::chars(")"@),
        ExprTree::Concat { left, right } => if dialect.concat_pipes() {
            tokens::chars("("@) + expr_tokens(dialect, bare, *left) + tokens::chars(" || "@) + expr_tokens(
                dialect,
                bare,
                *right,
            ) + tokens::chars(")"@)
        } else {
            tokens::chars("CONCAT("@) + expr_tokens(dialect, bare, *left) + tokens::chars(", "@) + expr_tokens(
                dialect,
                bare,
                *right,
            ) + tokens::chars(")"@)
        },
        ExprTree::Substring { string, start, len } => {
            let cast = cast_if(dialect.casts_substring_bounds(), Some(SqlType::I32));
            tokens::chars("SUBSTRING("@) + expr_tokens(dialect, bare, *string) + tokens::chars(" FROM "@)
                + cast_expr_tokens(dialect, bare, cast, *start) + tokens::chars(" FOR "@)
                + cast_expr_tokens(dialect, bare, cast, *len) + tokens::chars(")"@)
        },
        ExprTree::Now => tokens::chars("CURRENT_TIMESTAMP"@),
        ExprTree::Extract { field, operand, cast, timezone, operand_cast } => {
            let inner = cast_if(dialect.casts_timestamp_operand(), operand_cast);
            tokens::chars(extract_open(field)) + (match timezone {
                Some(zone) => tokens::chars("("@) + cast_expr_tokens(dialect, bare, inner, *operand)
                    + tokens::chars(" AT TIME ZONE "@ + text::quoted(zone@, '\'') + ")"@),
                None => cast_expr_tokens(dialect, bare, inner, *operand),
            }) + tokens::chars(extract_close(dialect, field, cast))
        },
        ExprTree::DateTrunc { unit, operand, timezone, operand_cast } => {
            let inner = cast_if(dialect.casts_timestamp_operand(), operand_cast);
            tokens::chars("date_trunc('"@ + unit.trunc_literal_text() + "', "@) + cast_expr_tokens(
                dialect,
                bare,
                inner,
                *operand,
            ) + tokens::chars(
                match timezone {
                    Some(zone) => ", "@ + text::quoted(zone@, '\'') + ")"@,
                    None => ")"@,
                },
            )
        },
        ExprTree::ExtractSecond { operand, cast, operand_cast } => {
            let inner = cast_if(dialect.casts_timestamp_operand(), operand_cast);
            tokens::chars(
                if dialect.second_microsecond_unit() {
                    "CAST(EXTRACT(SECOND_MICROSECOND FROM "@
                } else {
                    "CAST(EXTRACT(SECOND FROM "@
                },
            ) + cast_expr_tokens(dialect, bare, inner, *operand) + tokens::chars(
                (if dialect.second_microsecond_unit() {
                    ") / 1000000.0 AS "@
                } else {
                    ") AS "@
                }) + dialect.cast_type_text(cast) + ")"@,
            )
        },
    }
}

/// An expression inside a cast, where one is wanted.
pub open spec fn cast_expr_tokens<D: Dialect, L>(
    dialect: D,
    bare: bool,
    cast: Option<SqlType>,
    expr: ExprTree<L>,
) -> Seq<Token<L>>
    decreases expr, 1nat,
{
    tokens::chars(cast_open(cast)) + expr_tokens(dialect, bare, expr) + tokens::chars(cast_close(dialect, cast))
}

/// The `ELSE` branch of a `CASE`, where there is one.
pub open spec fn else_tokens<D: Dialect, L>(
    dialect: D,
    bare: bool,
    cast: Option<SqlType>,
    else_: Option<Box<ExprTree<L>>>,
) -> Seq<Token<L>>
    decreases else_, 0nat,
{
    match else_ {
        Some(value) => tokens::chars(" ELSE "@) + cast_expr_tokens(dialect, bare, cast, *value),
        None => Seq::empty(),
    }
}

/// A comma-separated list of expressions, with `lead` before its first.
pub open spec fn expr_list_tokens<D: Dialect, L>(
    dialect: D,
    bare: bool,
    lead: Seq<char>,
    exprs: List<ExprTree<L>>,
) -> Seq<Token<L>>
    decreases exprs, 0nat,
{
    match exprs {
        List::Nil => Seq::empty(),
        List::Cons { head, tail } => tokens::chars(lead) + expr_tokens(dialect, bare, *head)
            + expr_list_tokens(dialect, bare, ", "@, *tail),
    }
}

/// The arguments of `COALESCE`, each inside the cast where one is wanted.
pub open spec fn cast_args_tokens<D: Dialect, L>(
    dialect: D,
    bare: bool,
    cast: Option<SqlType>,
    first: bool,
    args: List<ExprTree<L>>,
) -> Seq<Token<L>>
    decreases args, 0nat,
{
    match args {
        List::Nil => Seq::empty(),
        List::Cons { head, tail } => tokens::chars(separator(first)) + cast_expr_tokens(
            dialect,
            bare,
            cast,
            *head,
        ) + cast_args_tokens(dialect, bare, cast, false, *tail),
    }
}

/// The `ORDER BY` terms of a window, with `lead` before the first.
pub open spec fn window_orders_tokens<D: Dialect, L>(
    dialect: D,
    bare: bool,
    lead: Seq<char>,
    orders: List<WindowOrderTree<L>>,
) -> Seq<Token<L>>
    decreases orders, 0nat,
{
    match orders {
        List::Nil => Seq::empty(),
        List::Cons { head, tail } => tokens::chars(lead) + expr_tokens(dialect, bare, head.expr) + tokens::chars(
            " "@ + ops::direction_keyword(head.direction),
        ) + window_orders_tokens(dialect, bare, ", "@, *tail),
    }
}

/// The arms of a searched `CASE`, each value inside the cast where one is wanted.
pub open spec fn case_arms_tokens<D: Dialect, L>(
    dialect: D,
    bare: bool,
    cast: Option<SqlType>,
    arms: List<CaseArmTree<L>>,
) -> Seq<Token<L>>
    decreases arms, 0nat,
{
    match arms {
        List::Nil => Seq::empty(),
        List::Cons { head, tail } => tokens::chars(" WHEN "@) + predicate_tokens(dialect, bare, head.when)
            + tokens::chars(" THEN "@) + cast_expr_tokens(dialect, bare, cast, head.value)
            + case_arms_tokens(dialect, bare, cast, *tail),
    }
}

/// The arms of a simple `CASE`, each value inside the cast where one is wanted.
pub open spec fn simple_arms_tokens<D: Dialect, L>(
    dialect: D,
    bare: bool,
    cast: Option<SqlType>,
    arms: List<SimpleArmTree<L>>,
) -> Seq<Token<L>>
    decreases arms, 0nat,
{
    match arms {
        List::Nil => Seq::empty(),
        List::Cons { head, tail } => tokens::chars(" WHEN "@) + expr_tokens(dialect, bare, head.when)
            + tokens::chars(" THEN "@) + cast_expr_tokens(dialect, bare, cast, head.value)
            + simple_arms_tokens(dialect, bare, cast, *tail),
    }
}

/// The values of an `IN` list: one slot each.
pub open spec fn value_list_tokens<L>(first: bool, values: List<L>) -> Seq<Token<L>>
    decreases values,
{
    match values {
        List::Nil => Seq::empty(),
        List::Cons { head, tail } => tokens::chars(separator(first)) + seq![Token::Literal(*head)]
            + value_list_tokens(false, *tail),
    }
}

/// The tokens of a predicate.
pub open spec fn predicate_tokens<D: Dialect, L>(
    dialect: D,
    bare: bool,
    predicate: PredicateTree<L>,
) -> Seq<Token<L>>
    decreases predicate, 0nat,
{
    match predicate {
        PredicateTree::Compare { op, left, right } => tokens::chars("("@) + expr_tokens(
            dialect,
            bare,
            *left,
        ) + tokens::chars(" "@ + ops::compare_symbol(op) + " "@) + expr_tokens(dialect, bare, *right) + tokens::chars(
            ")"@,
        ),
        PredicateTree::And { left, right } => tokens::chars("("@) + predicate_tokens(dialect, bare, *left)
            + tokens::chars(" AND "@) + predicate_tokens(dialect, bare, *right) + tokens::chars(")"@),
        PredicateTree::Or { left, right } => tokens::chars("("@) + predicate_tokens(dialect, bare, *left)
            + tokens::chars(" OR "@) + predicate_tokens(dialect, bare, *right) + tokens::chars(")"@),
        PredicateTree::Not(inner) => tokens::chars("(NOT "@) + predicate_tokens(dialect, bare, *inner)
            + tokens::chars(")"@),
        PredicateTree::IsNull { negated, operand } => tokens::chars("("@) + expr_tokens(
            dialect,
            bare,
            *operand,
        ) + tokens::chars(
            if negated {
                " IS NOT NULL)"@
            } else {
                " IS NULL)"@
            },
        ),
        PredicateTree::Like { case_insensitive, negated, operand, pattern } => tokens::chars("("@)
            + expr_tokens(dialect, bare, *operand) + tokens::chars(
            dialect.like_operator_text(case_insensitive, negated),
        ) + expr_tokens(dialect, bare, *pattern) + tokens::chars(")"@),
        PredicateTree::In { negated, operand, values } => if values is Nil {
            // There is no `IN ()`: the operand is still rendered, and a constant decides.
            tokens::chars("("@) + expr_tokens(dialect, bare, *operand) + tokens::chars(
                if negated {
                    " IS NOT NULL OR 1 = 1)"@
                } else {
                    " IS NOT NULL AND 1 = 0)"@
                },
            )
        } else {
            tokens::chars("("@) + expr_tokens(dialect, bare, *operand) + tokens::chars(
                if negated {
                    " NOT IN ("@
                } else {
                    " IN ("@
                },
            ) + value_list_tokens(true, values) + tokens::chars("))"@)
        },
        PredicateTree::Between { negated, operand, lo, hi } => tokens::chars("("@) + expr_tokens(
            dialect,
            bare,
            *operand,
        ) + tokens::chars(
            if negated {
                " NOT BETWEEN "@
            } else {
                " BETWEEN "@
            },
        ) + expr_tokens(dialect, bare, *lo) + tokens::chars(" AND "@) + expr_tokens(dialect, bare, *hi)
            + tokens::chars(")"@),
        PredicateTree::BoolTest { negated, operand } => tokens::chars(
            if negated {
                "(NOT "@
            } else {
                "("@
            },
        ) + expr_tokens(dialect, bare, *operand) + tokens::chars(")"@),
        PredicateTree::InSubquery { negated, operand, subquery } => tokens::chars("("@) + expr_tokens(
            dialect,
            bare,
            *operand,
        ) + tokens::chars(
            if negated {
                " NOT IN ("@
            } else {
                " IN ("@
            },
        ) + select_tokens(dialect, *subquery) + tokens::chars("))"@),
        PredicateTree::Exists { negated, subquery } => tokens::chars(
            if negated {
                "(NOT EXISTS ("@
            } else {
                "(EXISTS ("@
            },
        ) + select_tokens(dialect, *subquery) + tokens::chars("))"@),
    }
}

/// Predicates joined by `AND`, with `lead` before the first.
pub open spec fn predicate_list_tokens<D: Dialect, L>(
    dialect: D,
    lead: Seq<char>,
    predicates: List<PredicateTree<L>>,
) -> Seq<Token<L>>
    decreases predicates, 0nat,
{
    match predicates {
        List::Nil => Seq::empty(),
        List::Cons { head, tail } => tokens::chars(lead) + predicate_tokens(dialect, false, *head)
            + predicate_list_tokens(dialect, " AND "@, *tail),
    }
}

/// A projection list, with `lead` before its first element: each expression under its alias.
pub open spec fn projection_tokens<D: Dialect, L>(
    dialect: D,
    bare: bool,
    lead: Seq<char>,
    items: List<ProjectionTree<L>>,
) -> Seq<Token<L>>
    decreases items, 0nat,
{
    match items {
        List::Nil => Seq::empty(),
        List::Cons { head, tail } => tokens::chars(lead) + expr_tokens(dialect, bare, head.expr) + tokens::chars(
            " AS "@ + dialect.quoted_ident(head.alias@),
        ) + projection_tokens(dialect, bare, ", "@, *tail),
    }
}

/// The text of a source before its join condition. The first source always stands behind `FROM`.
pub open spec fn source_text<D: Dialect, L>(dialect: D, first: bool, source: SourceTree<L>) -> Seq<
    char,
> {
    " "@ + (if first {
        "FROM "@
    } else {
        match source.join {
            JoinTree::Table => "FROM "@,
            JoinTree::Inner(_) => "INNER JOIN "@,
            JoinTree::Left(_) => "LEFT JOIN "@,
            JoinTree::Right(_) => "RIGHT JOIN "@,
            JoinTree::Full(_) => "FULL JOIN "@,
            JoinTree::Cross => "CROSS JOIN "@,
        }
    }) + table_text(dialect, source.table) + " AS "@ + source.alias.text()
}

/// The `FROM` clause and the joins.
pub open spec fn source_list_tokens<D: Dialect, L>(
    dialect: D,
    first: bool,
    sources: List<SourceTree<L>>,
) -> Seq<Token<L>>
    decreases sources, 0nat,
{
    match sources {
        List::Nil => Seq::empty(),
        List::Cons { head, tail } => tokens::chars(source_text(dialect, first, *head)) + (if first {
            Seq::empty()
        } else {
            match head.join {
                JoinTree::Table => Seq::empty(),
                JoinTree::Inner(on) => tokens::chars(" ON "@) + predicate_tokens(dialect, false, on),
                JoinTree::Left(on) => tokens::chars(" ON "@) + predicate_tokens(dialect, false, on),
                JoinTree::Right(on) => tokens::chars(" ON "@) + predicate_tokens(dialect, false, on),
                JoinTree::Full(on) => tokens::chars(" ON "@) + predicate_tokens(dialect, false, on),
                JoinTree::Cross => Seq::empty(),
            }
        }) + source_list_tokens(dialect, false, *tail),
    }
}

/// A leading sort key that puts `NULL`s first or last.
pub open spec fn nulls_key_tokens<D: Dialect, L>(
    dialect: D,
    nulls: OrderNulls,
    key: ExprTree<L>,
) -> Seq<Token<L>>
    decreases key, 1nat,
{
    tokens::chars("("@) + expr_tokens(dialect, false, key) + tokens::chars(
        " IS NULL) "@ + (match nulls {
            OrderNulls::Last => "ASC"@,
            OrderNulls::First => "DESC"@,
        }) + ", "@,
    )
}

/// One `ORDER BY` term with its null ordering: the dialect's modifier, or a leading sort key that
/// puts `NULL`s where they belong (`0` sorts before `1`).
pub open spec fn order_tokens<D: Dialect, L>(dialect: D, order: OrderTree<L>) -> Seq<Token<L>>
    decreases order, 0nat,
{
    match order.nulls {
        Some(nulls) => if dialect.emulates_nulls() {
            nulls_key_tokens(dialect, nulls.nulls, nulls.key) + (expr_tokens(
                dialect,
                false,
                order.expr,
            ) + tokens::chars(" "@ + ops::direction_keyword(order.direction)))
        } else {
            expr_tokens(dialect, false, order.expr) + tokens::chars(
                " "@ + ops::direction_keyword(order.direction) + dialect.order_nulls_text(nulls.nulls),
            )
        },
        None => expr_tokens(dialect, false, order.expr) + tokens::chars(
            " "@ + ops::direction_keyword(order.direction),
        ),
    }
}

/// An `ORDER BY` list, with `lead` before its first term.
pub open spec fn order_list_tokens<D: Dialect, L>(
    dialect: D,
    lead: Seq<char>,
    orders: List<OrderTree<L>>,
) -> Seq<Token<L>>
    decreases orders, 0nat,
{
    match orders {
        List::Nil => Seq::empty(),
        List::Cons { head, tail } => tokens::chars(lead) + order_tokens(dialect, *head)
            + order_list_tokens(dialect, ", "@, *tail),
    }
}

/// `SELECT`, `DISTINCT` where it is set, the projection and the sources.
pub open spec fn select_head_tokens<D: Dialect, L>(dialect: D, select: SelectTree<L>) -> Seq<
    Token<L>,
>
    decreases select, 2nat,
{
    tokens::chars(
        if select.distinct {
            "SELECT DISTINCT "@
        } else {
            "SELECT "@
        },
    ) + projection_tokens(dialect, false, Seq::empty(), select.projection) + source_list_tokens(
        dialect,
        true,
        select.sources,
    )
}

/// The conditions and groups of a `SELECT`.
pub open spec fn select_middle_tokens<D: Dialect, L>(dialect: D, select: SelectTree<L>) -> Seq<
    Token<L>,
>
    decreases select, 2nat,
{
    predicate_list_tokens(dialect, " WHERE "@, select.filters) + expr_list_tokens(
        dialect,
        false,
        " GROUP BY "@,
        select.groups,
    ) + predicate_list_tokens(dialect, " HAVING "@, select.havings)
}

/// The bounds of a `SELECT` and its row lock.
pub open spec fn select_bounds_text<D: Dialect, L>(dialect: D, select: SelectTree<L>) -> Seq<char> {
    dialect.limit_offset_text(select.limit, select.offset) + (match select.row_lock {
        Some(lock) => dialect.row_lock_text(lock),
        None => Seq::empty(),
    })
}

/// The tokens of a `SELECT`: its clauses in the order that SQL prescribes.
pub open spec fn select_tokens<D: Dialect, L>(dialect: D, select: SelectTree<L>) -> Seq<Token<L>>
    decreases select, 3nat,
{
    select_head_tokens(dialect, select) + select_middle_tokens(dialect, select)
        + order_list_tokens(dialect, " ORDER BY "@, select.orders) + tokens::chars(
        select_bounds_text(dialect, select),
    )
}

/// Quoted identifiers, separated by commas.
pub open spec fn ident_list_text<D: Dialect>(dialect: D, first: bool, names: List<Label>) -> Seq<
    char,
>
    decreases names,
{
    match names {
        List::Nil => Seq::empty(),
        List::Cons { head, tail } => separator(first) + dialect.quoted_ident(head@)
            + ident_list_text(dialect, false, *tail),
    }
}

/// One common table expression: its name, its columns and its body.
pub open spec fn cte_text<D: Dialect>(dialect: D, def: CteDef) -> Seq<char> {
    dialect.quoted_ident(def.name@) + " ("@ + ident_list_text(dialect, true, def.columns)
        + ") AS ("@ + dialect.cte_body_text(def.body) + ")"@
}

/// Common table expressions, separated by commas.
pub open spec fn cte_list_text<D: Dialect>(dialect: D, defs: Seq<CteDef>) -> Seq<char>
    decreases defs.len(),
{
    if defs.len() == 0 {
        Seq::empty()
    } else {
        cte_list_text(dialect, defs.drop_last()) + separator(defs.len() == 1) + cte_text(
            dialect,
            defs.last(),
        )
    }
}

/// The `WITH` prefix of a statement: nothing without common table expressions, and `RECURSIVE` for
/// all as soon as one is recursive.
pub open spec fn cte_prefix_text<D: Dialect>(dialect: D, defs: Seq<CteDef>) -> Seq<char> {
    if defs.len() == 0 {
        Seq::empty()
    } else {
        (if exists|i: int| 0 <= i < defs.len() && (#[trigger] defs[i]).recursive {
            "WITH RECURSIVE "@
        } else {
            "WITH "@
        }) + cte_list_text(dialect, defs) + " "@
    }
}

/// Whether a definition with this identity is among `defs`.
pub open spec fn has_key(defs: Seq<CteDef>, key: u64) -> bool {
    exists|i: int| 0 <= i < defs.len() && (#[trigger] defs[i]).type_key == key
}

/// `kept` followed by the definitions of `defs` that are not there yet, each at its first occurrence.
pub open spec fn kept_ctes(kept: Seq<CteDef>, defs: List<CteDef>) -> Seq<CteDef>
    decreases defs,
{
    match defs {
        List::Nil => kept,
        List::Cons { head, tail } => if has_key(kept, head.type_key) {
            kept_ctes(kept, *tail)
        } else {
            kept_ctes(kept.push(*head), *tail)
        },
    }
}

/// The distinct definitions among `defs`, in order of their first occurrence.
pub open spec fn distinct_ctes(defs: List<CteDef>) -> Seq<CteDef> {
    kept_ctes(Seq::empty(), defs)
}

/// Whether definitions that share a name are the same definition.
pub open spec fn cte_names_agree(defs: Seq<CteDef>) -> bool {
    forall|i: int, j: int|
        0 <= i < defs.len() && 0 <= j < defs.len() && (#[trigger] defs[i]).name@ == (
        #[trigger] defs[j]).name@ ==> defs[i].type_key == defs[j].type_key
}

/// The ordering and the bounds behind a set operation.
pub open spec fn set_tail_text<D: Dialect>(dialect: D, tail: SetTail) -> Seq<char> {
    set_order_text(dialect, " ORDER BY "@, tail.orders) + dialect.limit_offset_text(
        tail.limit,
        tail.offset,
    )
}

/// An ordering by output columns, with `lead` before its first term.
pub open spec fn set_order_text<D: Dialect>(
    dialect: D,
    lead: Seq<char>,
    orders: List<SetOrder>,
) -> Seq<char>
    decreases orders,
{
    match orders {
        List::Nil => Seq::empty(),
        List::Cons { head, tail } => lead + dialect.quoted_ident(head.column@) + " "@
            + ops::direction_keyword(head.direction) + set_order_text(dialect, ", "@, *tail),
    }
}

/// A set tree as an operand: in parentheses, with its own tail inside them.
pub open spec fn set_operand_tokens<D: Dialect, L>(dialect: D, tree: SetTree<L>) -> Seq<Token<L>>
    decreases tree, 1nat,
{
    match tree {
        SetTree::Leaf { select, .. } => tokens::chars("("@) + select_tokens(dialect, select) + tokens::chars(")"@),
        SetTree::Node { .. } => tokens::chars("("@) + set_root_tokens(dialect, tree) + tokens::chars(")"@),
        SetTree::Group { tree: inner, tail } => tokens::chars("("@) + set_root_tokens(dialect, *inner)
            + tokens::chars(set_tail_text(dialect, tail) + ")"@),
    }
}

/// A set tree as a whole statement: the outermost operation has no parentheses.
pub open spec fn set_root_tokens<D: Dialect, L>(dialect: D, tree: SetTree<L>) -> Seq<Token<L>>
    decreases tree, (if tree is Node { 0nat } else { 2nat }),
{
    match tree {
        SetTree::Node { left, op, right } => set_operand_tokens(dialect, *left) + tokens::chars(
            " "@ + op.keyword_text() + " "@,
        ) + set_operand_tokens(dialect, *right),
        _ => set_operand_tokens(dialect, tree),
    }
}

/// A set tree as the source of an `INSERT`: a single `SELECT` has no parentheses.
pub open spec fn set_insert_source_tokens<D: Dialect, L>(dialect: D, tree: SetTree<L>) -> Seq<
    Token<L>,
> {
    match tree {
        SetTree::Leaf { select, .. } => select_tokens(dialect, select),
        _ => set_root_tokens(dialect, tree),
    }
}

/// The common table expressions that a set tree refers to, arm by arm.
pub open spec fn set_ctes<L>(tree: SetTree<L>) -> List<CteDef>
    decreases tree,
{
    match tree {
        SetTree::Leaf { ctes, .. } => ctes,
        SetTree::Node { left, right, .. } => set_ctes(*left).then_list(set_ctes(*right)),
        SetTree::Group { tree: inner, .. } => set_ctes(*inner),
    }
}

/// A whole `SELECT` statement.
pub open spec fn select_statement_tokens<D: Dialect, L>(
    dialect: D,
    ctes: Seq<CteDef>,
    select: SelectTree<L>,
) -> Seq<Token<L>> {
    tokens::chars(cte_prefix_text(dialect, ctes)) + select_tokens(dialect, select)
}

/// A whole set-operation statement.
pub open spec fn set_statement_tokens<D: Dialect, L>(
    dialect: D,
    tree: SetTree<L>,
    tail: SetTail,
) -> Seq<Token<L>> {
    tokens::chars(cte_prefix_text(dialect, distinct_ctes(set_ctes(tree)))) + set_root_tokens(dialect, tree)
        + tokens::chars(set_tail_text(dialect, tail))
}

/// What a column is assigned: a slot, `DEFAULT` or an expression.
pub open spec fn value_tokens<D: Dialect, L>(dialect: D, value: ValueTree<L>) -> Seq<Token<L>> {
    match value {
        ValueTree::Static(literal) => seq![Token::Literal(literal)],
        ValueTree::Default => tokens::chars("DEFAULT"@),
        ValueTree::Runtime => seq![Token::Runtime],
        ValueTree::Expr(expr) => expr_tokens(dialect, false, expr),
    }
}

/// The columns that a row assigns.
pub open spec fn column_labels<L>(row: List<AssignmentTree<L>>) -> List<Label>
    decreases row,
{
    match row {
        List::Nil => List::Nil,
        List::Cons { head, tail } => List::Cons {
            head: Box::new(head.column),
            tail: Box::new(column_labels(*tail)),
        },
    }
}

/// The values of a row, separated by commas.
pub open spec fn row_values_tokens<D: Dialect, L>(
    dialect: D,
    first: bool,
    row: List<AssignmentTree<L>>,
) -> Seq<Token<L>>
    decreases row,
{
    match row {
        List::Nil => Seq::empty(),
        List::Cons { head, tail } => tokens::chars(separator(first)) + value_tokens(dialect, head.value)
            + row_values_tokens(dialect, false, *tail),
    }
}

/// Rows of values, each in parentheses, separated by commas.
pub open spec fn rows_tokens<D: Dialect, L>(
    dialect: D,
    first: bool,
    rows: List<List<AssignmentTree<L>>>,
) -> Seq<Token<L>>
    decreases rows,
{
    match rows {
        List::Nil => Seq::empty(),
        List::Cons { head, tail } => tokens::chars(separator(first) + "("@) + row_values_tokens(
            dialect,
            true,
            *head,
        ) + tokens::chars(")"@) + rows_tokens(dialect, false, *tail),
    }
}

/// The columns of an `INSERT`: those that its first row assigns.
pub open spec fn insert_columns<L>(rows: List<List<AssignmentTree<L>>>) -> List<Label> {
    match rows {
        List::Nil => List::Nil,
        List::Cons { head, .. } => column_labels(*head),
    }
}

/// Whether every row assigns `count` columns.
pub open spec fn rows_agree<L>(count: nat, rows: List<List<AssignmentTree<L>>>) -> bool
    decreases rows,
{
    match rows {
        List::Nil => true,
        List::Cons { head, tail } => head.seq().len() == count && rows_agree(count, *tail),
    }
}

/// The rows before the first one that does not assign `count` columns.
pub open spec fn agreeing_rows<L>(count: nat, rows: List<List<AssignmentTree<L>>>) -> List<
    List<AssignmentTree<L>>,
>
    decreases rows,
{
    match rows {
        List::Nil => List::Nil,
        List::Cons { head, tail } => if head.seq().len() == count {
            List::Cons { head, tail: Box::new(agreeing_rows(count, *tail)) }
        } else {
            List::Nil
        },
    }
}

/// Whether an `INSERT` is of one row without columns.
pub open spec fn is_default_row<L>(rows: List<List<AssignmentTree<L>>>) -> bool {
    match rows {
        List::Nil => false,
        List::Cons { head, tail } => *head is Nil && *tail is Nil,
    }
}

/// The assignments of an updating upsert: every inserted column takes its proposed value.
pub open spec fn excluded_assignments_text<D: Dialect>(
    dialect: D,
    first: bool,
    columns: List<Label>,
) -> Seq<char>
    decreases columns,
{
    match columns {
        List::Nil => Seq::empty(),
        List::Cons { head, tail } => separator(first) + dialect.quoted_ident(head@) + " = "@
            + dialect.excluded_column_text(head@) + excluded_assignments_text(
            dialect,
            false,
            *tail,
        ),
    }
}

/// The conflict clause of an upsert into `columns`. Without columns there is nothing to update, so a
/// row that is already there is left alone.
pub open spec fn conflict_text<D: Dialect>(
    dialect: D,
    clause: ConflictClause,
    columns: List<Label>,
) -> Seq<char> {
    match (clause.action, columns) {
        (ConflictAction::DoUpdateExcluded, List::Cons { .. }) => dialect.upsert_set_prefix_text(
            dialect::strings_view(clause.target@),
        ) + excluded_assignments_text(dialect, true, columns),
        (_, List::Nil) => dialect.upsert_do_nothing_text(dialect::strings_view(clause.target@), None),
        (_, List::Cons { head, .. }) => dialect.upsert_do_nothing_text(
            dialect::strings_view(clause.target@),
            Some(head@),
        ),
    }
}

/// An `INSERT` up to its values: all of them, where every row assigns as many columns as the first,
/// else those of the rows before the first that does not.
pub open spec fn insert_values_tokens<D: Dialect, L>(
    dialect: D,
    table: TableRef,
    rows: List<List<AssignmentTree<L>>>,
) -> Seq<Token<L>> {
    if is_default_row(rows) {
        tokens::chars("INSERT INTO "@ + table_text(dialect, table) + dialect.default_row_text())
    } else {
        tokens::chars(
            "INSERT INTO "@ + table_text(dialect, table) + " ("@ + ident_list_text(
                dialect,
                true,
                insert_columns(rows),
            ) + ") VALUES "@,
        ) + rows_tokens(dialect, true, agreeing_rows(insert_columns(rows).seq().len(), rows))
    }
}

/// Whether every row of an `INSERT` assigns as many columns as the first.
pub open spec fn insert_rows_agree<L>(insert: InsertTree<L>) -> bool {
    rows_agree(insert_columns(insert.rows).seq().len(), insert.rows)
}

/// An `INSERT` of literal rows.
pub open spec fn insert_tokens<D: Dialect, L>(dialect: D, insert: InsertTree<L>) -> Seq<Token<L>> {
    insert_values_tokens(dialect, insert.table, insert.rows) + tokens::chars(
        match insert.conflict {
            Some(clause) => conflict_text(dialect, clause, insert_columns(insert.rows)),
            None => Seq::empty(),
        },
    ) + projection_tokens(dialect, true, " RETURNING "@, insert.returning)
}

/// What is written of an `INSERT`: the whole statement, or what stands before a row that does not
/// fit.
pub open spec fn insert_written_tokens<D: Dialect, L>(dialect: D, insert: InsertTree<L>) -> Seq<
    Token<L>,
> {
    if insert_rows_agree(insert) {
        insert_tokens(dialect, insert)
    } else {
        insert_values_tokens(dialect, insert.table, insert.rows)
    }
}

/// An `INSERT` of the rows of a query.
pub open spec fn insert_select_tokens<D: Dialect, L>(
    dialect: D,
    insert: InsertSelectTree<L>,
) -> Seq<Token<L>> {
    tokens::chars(
        cte_prefix_text(dialect, distinct_ctes(set_ctes(insert.source))) + "INSERT INTO "@
            + table_text(dialect, insert.table) + " ("@ + ident_list_text(
            dialect,
            true,
            insert.columns,
        ) + ") "@,
    ) + set_insert_source_tokens(dialect, insert.source) + projection_tokens(
        dialect,
        true,
        " RETURNING "@,
        insert.returning,
    )
}

/// The assignments of an `UPDATE`, separated by commas.
pub open spec fn assignments_tokens<D: Dialect, L>(
    dialect: D,
    first: bool,
    columns: List<AssignmentTree<L>>,
) -> Seq<Token<L>>
    decreases columns,
{
    match columns {
        List::Nil => Seq::empty(),
        List::Cons { head, tail } => tokens::chars(
            separator(first) + dialect.quoted_ident(head.column@) + " = "@,
        ) + value_tokens(dialect, head.value) + assignments_tokens(dialect, false, *tail),
    }
}

/// An `UPDATE`.
pub open spec fn update_tokens<D: Dialect, L>(dialect: D, update: UpdateTree<L>) -> Seq<Token<L>> {
    tokens::chars(
        "UPDATE "@ + table_text(dialect, update.table) + " AS "@ + update.alias.text() + " SET "@,
    ) + assignments_tokens(dialect, true, update.columns) + predicate_list_tokens(
        dialect,
        " WHERE "@,
        update.filters,
    ) + projection_tokens(dialect, false, " RETURNING "@, update.returning)
}

/// A `DELETE`.
pub open spec fn delete_tokens<D: Dialect, L>(dialect: D, delete: DeleteTree<L>) -> Seq<Token<L>> {
    tokens::chars("DELETE FROM "@ + table_text(dialect, delete.table) + " AS "@ + delete.alias.text())
        + predicate_list_tokens(dialect, " WHERE "@, delete.filters) + projection_tokens(
        dialect,
        false,
        " RETURNING "@,
        delete.returning,
    )
}

} // verus!
