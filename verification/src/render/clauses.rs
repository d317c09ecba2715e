//! What each clause and each statement is in SQL: what a clause adds to the statement without it, and
//! what one more element adds to a clause.
use crate::chain::List;
use crate::dialect;
use crate::dialect::Dialect;
use crate::grammar;
use crate::render::counting;
use crate::render::spelling;
use crate::text;
use crate::tokens;
use crate::tokens::Token;
use crate::tree::{AssignmentTree, JoinTree, OrderTree, PredicateTree, ProjectionTree, SourceTree};
use vstd::prelude::*;

verus! {

broadcast use {
    crate::tokens::lemma_tokens_empty,
    crate::tokens::lemma_empty_tokens,
    crate::tokens::lemma_chars_empty,
};

/// Conditions stand in their order, joined by `AND`.
pub proof fn law_conditions<D: Dialect, L>(
    dialect: D,
    first: nat,
    lead: Seq<char>,
    conditions: List<PredicateTree<L>>,
    condition: PredicateTree<L>,
)
    ensures
        ({
            let before = grammar::predicate_list_tokens(dialect, lead, conditions);
            let whole = grammar::predicate_list_tokens(dialect, lead, conditions.with(condition));
            let at = first + tokens::slots(before);
            &&& conditions is Nil ==> before == Seq::<Token<L>>::empty()
            &&& counting::text_at(dialect, first, whole) == counting::text_at(dialect, first, before)
                + (if conditions is Nil { lead } else { " AND "@ }) + spelling::predicate_sql(dialect, false, at, condition)
            &&& counting::slot_list(whole) == counting::slot_list(before) + spelling::predicate_slots(dialect, false, condition)
        }),
    decreases conditions,
{
    let before = grammar::predicate_list_tokens(dialect, lead, conditions);
    let at = first + tokens::slots(before);
    counting::lemma_piece::<D, L>(dialect, lead);
    let item = grammar::predicate_tokens(dialect, false, condition);
    match conditions {
        List::Nil => {
            let none = grammar::predicate_list_tokens(dialect, " AND "@, List::<PredicateTree<L>>::Nil);
            assert(none == Seq::<Token<L>>::empty());
            let lead_tokens = tokens::chars::<L>(lead);
            counting::lemma_join(dialect, first, lead_tokens, item);
            assert(grammar::predicate_list_tokens(dialect, lead, conditions.with(condition)) == lead_tokens + item);
            counting::lemma_nothing(lead);
        },
        List::Cons { head, tail } => {
            let lead_tokens = tokens::chars::<L>(lead);
            let start = lead_tokens + grammar::predicate_tokens(dialect, false, *head);
            counting::lemma_join(dialect, first, lead_tokens, grammar::predicate_tokens(dialect, false, *head));
            let next = first + tokens::slots(start);
            law_conditions(dialect, next, " AND "@, *tail, condition);
            let rest = grammar::predicate_list_tokens(dialect, " AND "@, *tail);
            let all = grammar::predicate_list_tokens(dialect, " AND "@, tail.with(condition));
            counting::lemma_join(dialect, first, start, rest);
            counting::lemma_join(dialect, first, start, all);
            assert(grammar::predicate_list_tokens(dialect, lead, conditions.with(condition)) == start + all);
            assert(before == start + rest);
            counting::lemma_regroup(
                counting::text_at(dialect, first, start),
                counting::text_at(dialect, next, rest),
                " AND "@,
                spelling::predicate_sql(dialect, false, at, condition),
            );
            counting::lemma_regroup(
                counting::slot_list(start),
                counting::slot_list(rest),
                spelling::predicate_slots(dialect, false, condition),
                Seq::empty(),
            );
        },
    }
}

spec fn item_tokens<D: Dialect, L>(dialect: D, bare: bool, item: ProjectionTree<L>) -> Seq<Token<L>> {
    grammar::expr_tokens(dialect, bare, item.expr) + tokens::chars(
        " AS "@ + dialect.quoted_ident(item.alias@),
    )
}

proof fn lemma_item<D: Dialect, L>(dialect: D, bare: bool, first: nat, item: ProjectionTree<L>)
    ensures
        counting::text_at(dialect, first, item_tokens(dialect, bare, item)) == spelling::expr_sql(
            dialect,
            bare,
            first,
            item.expr,
        ) + (" AS "@ + dialect.quoted_ident(item.alias@)),
        counting::slot_list(item_tokens(dialect, bare, item)) == spelling::expr_slots(
            dialect,
            bare,
            item.expr,
        ),
{
    let end = " AS "@ + dialect.quoted_ident(item.alias@);
    counting::lemma_piece::<D, L>(dialect, end);
    counting::lemma_join(
        dialect,
        first,
        grammar::expr_tokens(dialect, bare, item.expr),
        tokens::chars::<L>(end),
    );
}

/// A projection has its expressions in their order, each under its quoted output name.
pub proof fn law_projection<D: Dialect, L>(
    dialect: D,
    bare: bool,
    first: nat,
    lead: Seq<char>,
    items: List<ProjectionTree<L>>,
    entry: ProjectionTree<L>,
)
    ensures
        ({
            let before = grammar::projection_tokens(dialect, bare, lead, items);
            let whole = grammar::projection_tokens(dialect, bare, lead, items.with(entry));
            let at = first + tokens::slots(before);
            &&& items is Nil ==> before == Seq::<Token<L>>::empty()
            &&& counting::text_at(dialect, first, whole) == counting::text_at(dialect, first, before)
                + (if items is Nil { lead } else { ", "@ }) + (spelling::expr_sql(dialect, bare, at, entry.expr) + (" AS "@ + dialect.quoted_ident(entry.alias@)))
            &&& counting::slot_list(whole) == counting::slot_list(before) + spelling::expr_slots(dialect, bare, entry.expr)
        }),
    decreases items,
{
    let before = grammar::projection_tokens(dialect, bare, lead, items);
    let at = first + tokens::slots(before);
    lemma_item(dialect, bare, at, entry);
    counting::lemma_piece::<D, L>(dialect, lead);
    let item = item_tokens(dialect, bare, entry);
    match items {
        List::Nil => {
            let none = grammar::projection_tokens(dialect, bare, ", "@, List::<ProjectionTree<L>>::Nil);
            assert(none == Seq::<Token<L>>::empty());
            let lead_tokens = tokens::chars::<L>(lead);
            counting::lemma_join(dialect, first, lead_tokens, item);
            counting::lemma_regroup(lead_tokens, grammar::expr_tokens(dialect, bare, entry.expr), tokens::chars::<L>(" AS "@ + dialect.quoted_ident(entry.alias@)), Seq::empty());
            assert(grammar::projection_tokens(dialect, bare, lead, items.with(entry)) == lead_tokens + item);
            counting::lemma_nothing(lead);
        },
        List::Cons { head, tail } => {
            let lead_tokens = tokens::chars::<L>(lead);
            let start = lead_tokens + item_tokens(dialect, bare, *head);
            counting::lemma_join(dialect, first, lead_tokens, item_tokens(dialect, bare, *head));
            counting::lemma_regroup(lead_tokens, grammar::expr_tokens(dialect, bare, head.expr), tokens::chars::<L>(" AS "@ + dialect.quoted_ident(head.alias@)), Seq::empty());
            let next = first + tokens::slots(start);
            law_projection(dialect, bare, next, ", "@, *tail, entry);
            let rest = grammar::projection_tokens(dialect, bare, ", "@, *tail);
            let all = grammar::projection_tokens(dialect, bare, ", "@, tail.with(entry));
            counting::lemma_join(dialect, first, start, rest);
            counting::lemma_join(dialect, first, start, all);
            assert(grammar::projection_tokens(dialect, bare, lead, items.with(entry)) == start + all);
            assert(before == start + rest);
            counting::lemma_regroup(
                counting::text_at(dialect, first, start),
                counting::text_at(dialect, next, rest),
                ", "@,
                (spelling::expr_sql(dialect, bare, at, entry.expr) + (" AS "@ + dialect.quoted_ident(entry.alias@))),
            );
            counting::lemma_regroup(
                counting::slot_list(start),
                counting::slot_list(rest),
                spelling::expr_slots(dialect, bare, entry.expr),
                Seq::empty(),
            );
        },
    }
}

/// An ordering has its terms in their order.
pub proof fn law_ordering<D: Dialect, L>(
    dialect: D,
    first: nat,
    lead: Seq<char>,
    terms: List<OrderTree<L>>,
    term: OrderTree<L>,
)
    ensures
        ({
            let before = grammar::order_list_tokens(dialect, lead, terms);
            let whole = grammar::order_list_tokens(dialect, lead, terms.with(term));
            let at = first + tokens::slots(before);
            &&& terms is Nil ==> before == Seq::<Token<L>>::empty()
            &&& counting::text_at(dialect, first, whole) == counting::text_at(dialect, first, before)
                + (if terms is Nil { lead } else { ", "@ }) + counting::text_at(dialect, at, grammar::order_tokens(dialect, term))
            &&& counting::slot_list(whole) == counting::slot_list(before) + counting::slot_list(grammar::order_tokens(dialect, term))
        }),
    decreases terms,
{
    let before = grammar::order_list_tokens(dialect, lead, terms);
    let at = first + tokens::slots(before);
    counting::lemma_piece::<D, L>(dialect, lead);
    let item = grammar::order_tokens(dialect, term);
    match terms {
        List::Nil => {
            let none = grammar::order_list_tokens(dialect, ", "@, List::<OrderTree<L>>::Nil);
            assert(none == Seq::<Token<L>>::empty());
            let lead_tokens = tokens::chars::<L>(lead);
            counting::lemma_join(dialect, first, lead_tokens, item);
            assert(grammar::order_list_tokens(dialect, lead, terms.with(term)) == lead_tokens + item);
            counting::lemma_nothing(lead);
        },
        List::Cons { head, tail } => {
            let lead_tokens = tokens::chars::<L>(lead);
            let start = lead_tokens + grammar::order_tokens(dialect, *head);
            counting::lemma_join(dialect, first, lead_tokens, grammar::order_tokens(dialect, *head));
            let next = first + tokens::slots(start);
            law_ordering(dialect, next, ", "@, *tail, term);
            let rest = grammar::order_list_tokens(dialect, ", "@, *tail);
            let all = grammar::order_list_tokens(dialect, ", "@, tail.with(term));
            counting::lemma_join(dialect, first, start, rest);
            counting::lemma_join(dialect, first, start, all);
            assert(grammar::order_list_tokens(dialect, lead, terms.with(term)) == start + all);
            assert(before == start + rest);
            counting::lemma_regroup(
                counting::text_at(dialect, first, start),
                counting::text_at(dialect, next, rest),
                ", "@,
                counting::text_at(dialect, at, grammar::order_tokens(dialect, term)),
            );
            counting::lemma_regroup(
                counting::slot_list(start),
                counting::slot_list(rest),
                counting::slot_list(grammar::order_tokens(dialect, term)),
                Seq::empty(),
            );
        },
    }
}

/// The values of a row stand in their order, separated by commas.
pub proof fn law_row_values<D: Dialect, L>(
    dialect: D,
    first: nat,
    first_item: bool,
    values: List<AssignmentTree<L>>,
    value: AssignmentTree<L>,
)
    ensures
        ({
            let before = grammar::row_values_tokens(dialect, first_item, values);
            let whole = grammar::row_values_tokens(dialect, first_item, values.with(value));
            let at = first + tokens::slots(before);
            &&& values is Nil ==> before == Seq::<Token<L>>::empty()
            &&& counting::text_at(dialect, first, whole) == counting::text_at(dialect, first, before)
                + (if values is Nil { (if first_item { Seq::empty() } else { ", "@ }) } else { ", "@ }) + counting::text_at(dialect, at, grammar::value_tokens(dialect, value.value))
            &&& counting::slot_list(whole) == counting::slot_list(before) + counting::slot_list(grammar::value_tokens(dialect, value.value))
        }),
    decreases values,
{
    let before = grammar::row_values_tokens(dialect, first_item, values);
    let at = first + tokens::slots(before);
    counting::lemma_piece::<D, L>(dialect, grammar::separator(first_item));
    let item = grammar::value_tokens(dialect, value.value);
    match values {
        List::Nil => {
            let none = grammar::row_values_tokens(dialect, false, List::<AssignmentTree<L>>::Nil);
            assert(none == Seq::<Token<L>>::empty());
            let lead_tokens = tokens::chars::<L>(grammar::separator(first_item));
            counting::lemma_join(dialect, first, lead_tokens, item);
            assert(grammar::row_values_tokens(dialect, first_item, values.with(value)) == lead_tokens + item);
            counting::lemma_nothing(grammar::separator(first_item));
        },
        List::Cons { head, tail } => {
            let lead_tokens = tokens::chars::<L>(grammar::separator(first_item));
            let start = lead_tokens + grammar::value_tokens(dialect, head.value);
            counting::lemma_join(dialect, first, lead_tokens, grammar::value_tokens(dialect, head.value));
            let next = first + tokens::slots(start);
            law_row_values(dialect, next, false, *tail, value);
            let rest = grammar::row_values_tokens(dialect, false, *tail);
            let all = grammar::row_values_tokens(dialect, false, tail.with(value));
            counting::lemma_join(dialect, first, start, rest);
            counting::lemma_join(dialect, first, start, all);
            assert(grammar::row_values_tokens(dialect, first_item, values.with(value)) == start + all);
            assert(before == start + rest);
            counting::lemma_regroup(
                counting::text_at(dialect, first, start),
                counting::text_at(dialect, next, rest),
                ", "@,
                counting::text_at(dialect, at, grammar::value_tokens(dialect, value.value)),
            );
            counting::lemma_regroup(
                counting::slot_list(start),
                counting::slot_list(rest),
                counting::slot_list(grammar::value_tokens(dialect, value.value)),
                Seq::empty(),
            );
        },
    }
}

/// How a source is introduced: by `FROM` where it is the first, else by its join.
pub open spec fn join_words<L>(leads: bool, join: JoinTree<L>) -> Seq<char> {
    " "@ + (if leads {
        "FROM "@
    } else {
        match join {
            JoinTree::Table => "FROM "@,
            JoinTree::Inner(_) => "INNER JOIN "@,
            JoinTree::Left(_) => "LEFT JOIN "@,
            JoinTree::Right(_) => "RIGHT JOIN "@,
            JoinTree::Full(_) => "FULL JOIN "@,
            JoinTree::Cross => "CROSS JOIN "@,
        }
    })
}

/// The condition of a join. The first source is not joined, and a cross join has none.
pub open spec fn join_condition<L>(leads: bool, join: JoinTree<L>) -> Option<PredicateTree<L>> {
    match join {
        JoinTree::Inner(on) if !leads => Some(on),
        JoinTree::Left(on) if !leads => Some(on),
        JoinTree::Right(on) if !leads => Some(on),
        JoinTree::Full(on) if !leads => Some(on),
        _ => None,
    }
}

#[verifier::opaque]
spec fn source_tokens<D: Dialect, L>(dialect: D, leads: bool, source: SourceTree<L>) -> Seq<Token<L>> {
    tokens::chars::<L>(grammar::source_text(dialect, leads, source)) + (match join_condition(
        leads,
        source.join,
    ) {
        Some(on) => tokens::chars(" ON "@) + grammar::predicate_tokens(dialect, false, on),
        None => Seq::empty(),
    })
}

proof fn lemma_source<D: Dialect, L>(dialect: D, first: nat, leads: bool, source: SourceTree<L>)
    ensures
        counting::text_at(dialect, first, source_tokens(dialect, leads, source)) == (join_words(
            leads,
            source.join,
        ) + grammar::table_text(dialect, source.table) + " AS "@ + source.alias.text()) + (
        match join_condition(leads, source.join) {
            Some(on) => " ON "@ + spelling::predicate_sql(dialect, false, first, on),
            None => Seq::empty(),
        }),
        counting::slot_list(source_tokens(dialect, leads, source)) == (match join_condition(
            leads,
            source.join,
        ) {
            Some(on) => spelling::predicate_slots(dialect, false, on),
            None => Seq::empty(),
        }),
{
    reveal(source_tokens);
    let head = grammar::source_text(dialect, leads, source);
    assert(head == join_words(leads, source.join) + grammar::table_text(dialect, source.table)
        + " AS "@ + source.alias.text());
    counting::lemma_piece::<D, L>(dialect, head);
    counting::lemma_nothing(head);
    if let Some(on) = join_condition(leads, source.join) {
        counting::lemma_piece::<D, L>(dialect, " ON "@);
        let lead = tokens::chars::<L>(" ON "@);
        let condition = grammar::predicate_tokens(dialect, false, on);
        counting::lemma_join(dialect, first, lead, condition);
        counting::lemma_join(dialect, first, tokens::chars::<L>(head), lead + condition);
    }
}

proof fn lemma_sources_head<D: Dialect, L>(
    dialect: D,
    first_item: bool,
    head: SourceTree<L>,
    tail: List<SourceTree<L>>,
)
    ensures
        grammar::source_list_tokens(
            dialect,
            first_item,
            List::Cons { head: Box::new(head), tail: Box::new(tail) },
        ) == source_tokens(dialect, first_item, head) + grammar::source_list_tokens(
            dialect,
            false,
            tail,
        ),
{
    reveal(source_tokens);
}

proof fn lemma_sources<D: Dialect, L>(
    dialect: D,
    first: nat,
    first_item: bool,
    sources: List<SourceTree<L>>,
    source: SourceTree<L>,
)
    ensures
        ({
            let before = grammar::source_list_tokens(dialect, first_item, sources);
            let whole = grammar::source_list_tokens(dialect, first_item, sources.with(source));
            let at = first + tokens::slots(before);
            let item = source_tokens(dialect, first_item && sources is Nil, source);
            &&& counting::text_at(dialect, first, whole) == counting::text_at(
                dialect,
                first,
                before,
            ) + counting::text_at(dialect, at, item)
            &&& counting::slot_list(whole) == counting::slot_list(before) + counting::slot_list(
                item,
            )
        }),
    decreases sources,
{
    let before = grammar::source_list_tokens(dialect, first_item, sources);
    let whole = grammar::source_list_tokens(dialect, first_item, sources.with(source));
    let at = first + tokens::slots(before);
    let item = source_tokens(dialect, first_item && sources is Nil, source);
    match sources {
        List::Nil => {
            lemma_sources_head(dialect, first_item, source, List::Nil);
            assert(grammar::source_list_tokens(dialect, false, List::<SourceTree<L>>::Nil) == Seq::<
                Token<L>,
            >::empty());
            assert(item + Seq::<Token<L>>::empty() =~= item);
            assert(Seq::<Token<L>>::empty() + item =~= item);
            assert(before == Seq::<Token<L>>::empty());
            counting::lemma_join(dialect, first, before, item);
        },
        List::Cons { head, tail } => {
            let start = source_tokens(dialect, first_item, *head);
            let rest = grammar::source_list_tokens(dialect, false, *tail);
            let all = grammar::source_list_tokens(dialect, false, tail.with(source));
            let next = first + tokens::slots(start);
            lemma_sources_head(dialect, first_item, *head, *tail);
            lemma_sources_head(dialect, first_item, *head, tail.with(source));
            lemma_sources(dialect, next, false, *tail, source);
            counting::lemma_join(dialect, first, start, rest);
            counting::lemma_join(dialect, first, start, all);
            assert(counting::text_at(dialect, first, start) + (counting::text_at(
                dialect,
                next,
                rest,
            ) + counting::text_at(dialect, at, item)) =~= counting::text_at(dialect, first, start)
                + counting::text_at(dialect, next, rest) + counting::text_at(dialect, at, item));
            assert(counting::slot_list(start) + (counting::slot_list(rest) + counting::slot_list(
                item,
            )) =~= counting::slot_list(start) + counting::slot_list(rest) + counting::slot_list(
                item,
            ));
        },
    }
}

/// Sources stand in their order. The first stands behind `FROM`; every other is joined the way it says, on
/// its condition where the join has one.
pub proof fn law_sources<D: Dialect, L>(
    dialect: D,
    first: nat,
    first_item: bool,
    sources: List<SourceTree<L>>,
    source: SourceTree<L>,
)
    ensures
        ({
            let before = grammar::source_list_tokens(dialect, first_item, sources);
            let whole = grammar::source_list_tokens(dialect, first_item, sources.with(source));
            let at = first + tokens::slots(before);
            let leads = first_item && sources is Nil;
            &&& sources is Nil ==> before == Seq::<Token<L>>::empty()
            &&& counting::text_at(dialect, first, whole) == counting::text_at(dialect, first, before)
                + ((join_words(leads, source.join) + grammar::table_text(dialect, source.table) + " AS "@
                + source.alias.text()) + (match join_condition(leads, source.join) {
                Some(on) => " ON "@ + spelling::predicate_sql(dialect, false, at, on),
                None => Seq::empty(),
            }))
            &&& counting::slot_list(whole) == counting::slot_list(before) + (match join_condition(leads, source.join) {
                Some(on) => spelling::predicate_slots(dialect, false, on),
                None => Seq::empty(),
            })
        }),
{
    let before = grammar::source_list_tokens(dialect, first_item, sources);
    lemma_sources(dialect, first, first_item, sources, source);
    lemma_source(dialect, first + tokens::slots(before), first_item && sources is Nil, source);
}

spec fn row_tokens<D: Dialect, L>(dialect: D, leads: bool, row: List<AssignmentTree<L>>) -> Seq<Token<L>> {
    tokens::chars(grammar::separator(leads) + "("@) + grammar::row_values_tokens(dialect, true, row)
        + tokens::chars(")"@)
}

proof fn lemma_row<D: Dialect, L>(
    dialect: D,
    first: nat,
    leads: bool,
    row: List<AssignmentTree<L>>,
)
    ensures
        counting::text_at(dialect, first, row_tokens(dialect, leads, row)) == (if leads {
            Seq::empty()
        } else {
            ", "@
        }) + "("@ + counting::text_at(dialect, first, grammar::row_values_tokens(dialect, true, row))
            + ")"@,
        counting::slot_list(row_tokens(dialect, leads, row)) == counting::slot_list(
            grammar::row_values_tokens(dialect, true, row),
        ),
{
    let open = grammar::separator(leads) + "("@;
    let values = grammar::row_values_tokens(dialect, true, row);
    counting::lemma_piece::<D, L>(dialect, open);
    counting::lemma_piece::<D, L>(dialect, ")"@);
    counting::lemma_join(dialect, first, tokens::chars::<L>(open), values);
    counting::lemma_join(
        dialect,
        first,
        tokens::chars::<L>(open) + values,
        tokens::chars::<L>(")"@),
    );
}

/// Rows stand in their order, each in parentheses, separated by commas.
pub proof fn law_rows<D: Dialect, L>(
    dialect: D,
    first: nat,
    first_item: bool,
    rows: List<List<AssignmentTree<L>>>,
    row: List<AssignmentTree<L>>,
)
    ensures
        ({
            let before = grammar::rows_tokens(dialect, first_item, rows);
            let whole = grammar::rows_tokens(dialect, first_item, rows.with(row));
            let at = first + tokens::slots(before);
            let leads = first_item && rows is Nil;
            &&& rows is Nil ==> before == Seq::<Token<L>>::empty()
            &&& counting::text_at(dialect, first, whole) == counting::text_at(dialect, first, before)
                + ((if leads { Seq::empty() } else { ", "@ }) + "("@ + counting::text_at(
                    dialect,
                    at,
                    grammar::row_values_tokens(dialect, true, row),
                ) + ")"@)
            &&& counting::slot_list(whole) == counting::slot_list(before) + counting::slot_list(grammar::row_values_tokens(dialect, true, row))
        }),
    decreases rows,
{
    let before = grammar::rows_tokens(dialect, first_item, rows);
    let at = first + tokens::slots(before);
    let leads = first_item && rows is Nil;
    let item = row_tokens(dialect, leads, row);
    lemma_row(dialect, at, leads, row);
    if !(rows is Nil) {
        assert(!leads);
    } else {
        assert(leads == first_item);
    }
    match rows {
        List::Nil => {
            assert(grammar::rows_tokens(dialect, false, List::<List<AssignmentTree<L>>>::Nil) == Seq::<Token<L>>::empty());
            assert(grammar::rows_tokens(dialect, first_item, rows.with(row)) == item);
            counting::lemma_nothing(counting::text_at(dialect, first, item));
        },
        List::Cons { head, tail } => {
            let start = row_tokens(dialect, first_item, *head);
            let next = first + tokens::slots(start);
            law_rows(dialect, next, false, *tail, row);
            let rest = grammar::rows_tokens(dialect, false, *tail);
            let all = grammar::rows_tokens(dialect, false, tail.with(row));
            counting::lemma_join(dialect, first, start, rest);
            counting::lemma_join(dialect, first, start, all);
            assert(grammar::rows_tokens(dialect, first_item, rows.with(row)) == start + all);
            assert(before == start + rest);
            counting::lemma_regroup(
                counting::text_at(dialect, first, start),
                counting::text_at(dialect, next, rest),
                counting::text_at(dialect, at, item),
                Seq::empty(),
            );
            counting::lemma_regroup(
                counting::slot_list(start),
                counting::slot_list(rest),
                counting::slot_list(item),
                Seq::empty(),
            );
        },
    }
}

spec fn assignment_tokens<D: Dialect, L>(dialect: D, leads: bool, assignment: AssignmentTree<L>) -> Seq<
    Token<L>,
> {
    tokens::chars(grammar::separator(leads) + dialect.quoted_ident(assignment.column@) + " = "@)
        + grammar::value_tokens(dialect, assignment.value)
}

proof fn lemma_assignment<D: Dialect, L>(
    dialect: D,
    first: nat,
    leads: bool,
    assignment: AssignmentTree<L>,
)
    ensures
        counting::text_at(dialect, first, assignment_tokens(dialect, leads, assignment)) == (if leads {
            Seq::empty()
        } else {
            ", "@
        }) + dialect.quoted_ident(assignment.column@) + " = "@ + counting::text_at(
            dialect,
            first,
            grammar::value_tokens(dialect, assignment.value),
        ),
        counting::slot_list(assignment_tokens(dialect, leads, assignment)) == counting::slot_list(
            grammar::value_tokens(dialect, assignment.value),
        ),
{
    let lead = grammar::separator(leads) + dialect.quoted_ident(assignment.column@) + " = "@;
    counting::lemma_piece::<D, L>(dialect, lead);
    counting::lemma_join(
        dialect,
        first,
        tokens::chars::<L>(lead),
        grammar::value_tokens(dialect, assignment.value),
    );
}

/// Assignments stand in their order: the quoted column, and then the value it gets.
pub proof fn law_assignments<D: Dialect, L>(
    dialect: D,
    first: nat,
    first_item: bool,
    assignments: List<AssignmentTree<L>>,
    assignment: AssignmentTree<L>,
)
    ensures
        ({
            let before = grammar::assignments_tokens(dialect, first_item, assignments);
            let whole = grammar::assignments_tokens(dialect, first_item, assignments.with(assignment));
            let at = first + tokens::slots(before);
            let leads = first_item && assignments is Nil;
            &&& assignments is Nil ==> before == Seq::<Token<L>>::empty()
            &&& counting::text_at(dialect, first, whole) == counting::text_at(dialect, first, before)
                + ((if leads { Seq::empty() } else { ", "@ }) + dialect.quoted_ident(assignment.column@) + " = "@
                    + counting::text_at(dialect, at, grammar::value_tokens(dialect, assignment.value)))
            &&& counting::slot_list(whole) == counting::slot_list(before) + counting::slot_list(grammar::value_tokens(dialect, assignment.value))
        }),
    decreases assignments,
{
    let before = grammar::assignments_tokens(dialect, first_item, assignments);
    let at = first + tokens::slots(before);
    let leads = first_item && assignments is Nil;
    let item = assignment_tokens(dialect, leads, assignment);
    lemma_assignment(dialect, at, leads, assignment);
    match assignments {
        List::Nil => {
            assert(grammar::assignments_tokens(dialect, false, List::<AssignmentTree<L>>::Nil) == Seq::<Token<L>>::empty());
            assert(grammar::assignments_tokens(dialect, first_item, assignments.with(assignment)) == item);
            counting::lemma_nothing(counting::text_at(dialect, first, item));
        },
        List::Cons { head, tail } => {
            let start = assignment_tokens(dialect, first_item, *head);
            let next = first + tokens::slots(start);
            law_assignments(dialect, next, false, *tail, assignment);
            let rest = grammar::assignments_tokens(dialect, false, *tail);
            let all = grammar::assignments_tokens(dialect, false, tail.with(assignment));
            counting::lemma_join(dialect, first, start, rest);
            counting::lemma_join(dialect, first, start, all);
            assert(grammar::assignments_tokens(dialect, first_item, assignments.with(assignment)) == start + all);
            assert(before == start + rest);
            counting::lemma_regroup(
                counting::text_at(dialect, first, start),
                counting::text_at(dialect, next, rest),
                counting::text_at(dialect, at, item),
                Seq::empty(),
            );
            counting::lemma_regroup(
                counting::slot_list(start),
                counting::slot_list(rest),
                counting::slot_list(item),
                Seq::empty(),
            );
        },
    }
}

} // verus!
