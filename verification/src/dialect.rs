//! The SQL-dialect differences that the renderer needs from a backend.
use crate::ops::{OrderNulls, RowLock};
use crate::sql_type::SqlType;
use crate::text;
use crate::text::push_decimal;
use crate::tree::CteBody;
use vstd::prelude::*;

verus! {

/// The SQL-dialect differences the query renderer needs from a backend.
///
/// Rendering a `SELECT`/`INSERT`/`UPDATE`/`DELETE` is otherwise identical across backends, so it is
/// shared and only these hooks vary. Each hook is a specification, which says what text the dialect
/// writes, and a method that writes it. The specifications of the optional hooks default to the
/// standard form, and a method for it is offered beside the trait (`standard_limit_offset`,
/// `standard_like_operator`, …): a dialect that keeps the standard form calls that.
pub trait Dialect {
    /// The placeholder for the bound parameter at zero-based position `index`.
    open spec fn placeholder_text(&self, index: nat) -> Seq<char> {
        arbitrary()
    }

    /// A quoted identifier; the quote character itself is escaped by doubling.
    open spec fn quoted_ident(&self, ident: Seq<char>) -> Seq<char> {
        arbitrary()
    }

    /// The type name for a `CAST(expr AS <type>)`.
    open spec fn cast_type_text(&self, ty: SqlType) -> Seq<char> {
        arbitrary()
    }

    /// Whether `/` performs integer division when both operands are integers.
    open spec fn casts_integer_division(&self) -> bool {
        true
    }

    /// The `LIMIT`/`OFFSET` clause.
    open spec fn limit_offset_text(&self, limit: Option<usize>, offset: Option<usize>) -> Seq<
        char,
    > {
        standard_limit_offset_text(limit, offset)
    }

    /// The values clause for an `INSERT` of a single row without explicit columns.
    open spec fn default_row_text(&self) -> Seq<char> {
        " DEFAULT VALUES"@
    }

    /// The `LIKE` operator with surrounding spaces.
    open spec fn like_operator_text(&self, case_insensitive: bool, negated: bool) -> Seq<char> {
        standard_like_operator_text(negated)
    }

    /// The null-ordering modifier of an `ORDER BY` term, with a leading space.
    open spec fn order_nulls_text(&self, nulls: OrderNulls) -> Seq<char> {
        standard_order_nulls_text(nulls)
    }

    /// Whether null ordering is emulated by a leading `(<expr> IS NULL)` sort key.
    open spec fn emulates_nulls(&self) -> bool {
        false
    }

    /// Whether string concatenation renders as the `||` operator rather than `CONCAT`.
    open spec fn concat_pipes(&self) -> bool {
        false
    }

    /// Whether the bounds of `SUBSTRING` need a cast to an integer.
    open spec fn casts_substring_bounds(&self) -> bool {
        false
    }

    /// Whether a bare operand of `EXTRACT`/`date_trunc` must be cast to its timestamp type.
    open spec fn casts_timestamp_operand(&self) -> bool {
        false
    }

    /// Whether fractional seconds are read through the `SECOND_MICROSECOND` unit.
    open spec fn second_microsecond_unit(&self) -> bool {
        false
    }

    /// The row-lock clause, with a leading space.
    open spec fn row_lock_text(&self, lock: RowLock) -> Seq<char> {
        arbitrary()
    }

    /// The upsert clause that leaves a conflicting row alone. `first_column` is the first inserted
    /// column, for dialects that emulate the clause by assigning a column to itself.
    open spec fn upsert_do_nothing_text(
        &self,
        target: Seq<Seq<char>>,
        first_column: Option<Seq<char>>,
    ) -> Seq<char> {
        arbitrary()
    }

    /// What stands before the assignments of an updating upsert.
    open spec fn upsert_set_prefix_text(&self, target: Seq<Seq<char>>) -> Seq<char> {
        arbitrary()
    }

    /// The value that the conflicting insert proposed for a column.
    open spec fn excluded_column_text(&self, column: Seq<char>) -> Seq<char> {
        arbitrary()
    }

    /// The body of a common table expression, between its parentheses. It holds no placeholder: the
    /// literals of the body are written out.
    open spec fn cte_body_text(&self, body: CteBody) -> Seq<char> {
        arbitrary()
    }

    fn write_placeholder(&self, index: usize, out: &mut String)
        ensures
            final(out)@ == old(out)@ + self.placeholder_text(index as nat),
    ;

    fn write_quoted_ident(&self, ident: &str, out: &mut String)
        ensures
            final(out)@ == old(out)@ + self.quoted_ident(ident@),
    ;

    fn write_cast_type(&self, ty: &SqlType, out: &mut String)
        ensures
            final(out)@ == old(out)@ + self.cast_type_text(*ty),
    ;

    fn integer_division_needs_float_cast(&self) -> (needed: bool)
        ensures
            needed == self.casts_integer_division(),
    ;

    fn write_limit_offset(&self, limit: Option<usize>, offset: Option<usize>, out: &mut String)
        ensures
            final(out)@ == old(out)@ + self.limit_offset_text(limit, offset),
    ;

    fn write_default_row_insert(&self, out: &mut String)
        ensures
            final(out)@ == old(out)@ + self.default_row_text(),
    ;

    fn write_like_operator(&self, case_insensitive: bool, negated: bool, out: &mut String)
        ensures
            final(out)@ == old(out)@ + self.like_operator_text(case_insensitive, negated),
    ;

    fn write_order_nulls(&self, nulls: OrderNulls, out: &mut String)
        ensures
            final(out)@ == old(out)@ + self.order_nulls_text(nulls),
    ;

    fn emulates_order_nulls(&self) -> (emulated: bool)
        ensures
            emulated == self.emulates_nulls(),
    ;

    fn concat_uses_pipe_operator(&self) -> (pipes: bool)
        ensures
            pipes == self.concat_pipes(),
    ;

    fn substring_bounds_need_cast(&self) -> (needed: bool)
        ensures
            needed == self.casts_substring_bounds(),
    ;

    fn timestamp_operand_needs_cast(&self) -> (needed: bool)
        ensures
            needed == self.casts_timestamp_operand(),
    ;

    fn extract_second_uses_microsecond_unit(&self) -> (used: bool)
        ensures
            used == self.second_microsecond_unit(),
    ;

    fn write_row_lock(&self, lock: RowLock, out: &mut String)
        ensures
            final(out)@ == old(out)@ + self.row_lock_text(lock),
    ;

    fn write_upsert_do_nothing(
        &self,
        target: &Vec<String>,
        first_column: Option<&str>,
        out: &mut String,
    )
        ensures
            final(out)@ == old(out)@ + self.upsert_do_nothing_text(
                strings_view(target@),
                match first_column {
                    Some(column) => Some(column@),
                    None => None,
                },
            ),
    ;

    fn write_upsert_set_prefix(&self, target: &Vec<String>, out: &mut String)
        ensures
            final(out)@ == old(out)@ + self.upsert_set_prefix_text(strings_view(target@)),
    ;

    fn write_excluded_column(&self, column: &str, out: &mut String)
        ensures
            final(out)@ == old(out)@ + self.excluded_column_text(column@),
    ;

    fn write_cte_body(&self, body: &CteBody, out: &mut String)
        ensures
            final(out)@ == old(out)@ + self.cte_body_text(*body),
    ;
}

/// The characters of each string.
pub open spec fn strings_view(strings: Seq<String>) -> Seq<Seq<char>> {
    Seq::new(strings.len(), |i: int| strings[i]@)
}

/// `LIMIT` and `OFFSET`, each where it is set.
pub open spec fn standard_limit_offset_text(limit: Option<usize>, offset: Option<usize>) -> Seq<
    char,
> {
    (match limit {
        Some(rows) => " LIMIT "@ + text::decimal(rows as nat),
        None => Seq::empty(),
    }) + (match offset {
        Some(rows) => " OFFSET "@ + text::decimal(rows as nat),
        None => Seq::empty(),
    })
}

/// Writes the standard `LIMIT`/`OFFSET` clause, in which `OFFSET` may stand on its own.
pub fn standard_limit_offset(limit: Option<usize>, offset: Option<usize>, out: &mut String)
    ensures
        final(out)@ == old(out)@ + standard_limit_offset_text(limit, offset),
{
    if let Some(rows) = limit {
        out.append(" LIMIT ");
        push_decimal(out, rows as u128);
    }
    if let Some(rows) = offset {
        out.append(" OFFSET ");
        push_decimal(out, rows as u128);
    }
}

/// The standard `LIKE` operator, which does not tell case-insensitive matches apart.
pub open spec fn standard_like_operator_text(negated: bool) -> Seq<char> {
    if negated {
        " NOT LIKE "@
    } else {
        " LIKE "@
    }
}

/// Writes the standard `LIKE` operator.
pub fn standard_like_operator(negated: bool, out: &mut String)
    ensures
        final(out)@ == old(out)@ + standard_like_operator_text(negated),
{
    if negated {
        out.append(" NOT LIKE ");
    } else {
        out.append(" LIKE ");
    }
}

/// The standard null-ordering modifier.
pub open spec fn standard_order_nulls_text(nulls: OrderNulls) -> Seq<char> {
    match nulls {
        OrderNulls::First => " NULLS FIRST"@,
        OrderNulls::Last => " NULLS LAST"@,
    }
}

/// Writes the standard null-ordering modifier.
pub fn standard_order_nulls(nulls: OrderNulls, out: &mut String)
    ensures
        final(out)@ == old(out)@ + standard_order_nulls_text(nulls),
{
    match nulls {
        OrderNulls::First => out.append(" NULLS FIRST"),
        OrderNulls::Last => out.append(" NULLS LAST"),
    }
}

} // verus!
