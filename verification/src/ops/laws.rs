//! What the names of operators and functions say: each is read back as what it was written for.
use crate::dialect;
use crate::ops;
use crate::ops::{
    AggregateFunc, ArithmeticOp, CompareOp, DateField, OrderDirection, OrderNulls, SetOp,
    UnaryStringFunc, WindowFunc,
};
use crate::text;
use vstd::prelude::*;

verus! {

/// Whether the comparison holds between two numbers.
pub open spec fn holds(op: CompareOp, left: int, right: int) -> bool {
    match op {
        CompareOp::Equals => left == right,
        CompareOp::NotEquals => left != right,
        CompareOp::LessThan => left < right,
        CompareOp::LessThanOrEquals => left <= right,
        CompareOp::GreaterThan => left > right,
        CompareOp::GreaterThanOrEquals => left >= right,
    }
}

/// A comparison holds exactly where its symbol says so: `<` stands in it where the smaller may come
/// first, `=` where equals compare, `>` where the larger may come first.
pub proof fn law_comparison_reads_as_it_holds(op: CompareOp, left: int, right: int)
    ensures
        holds(op, left, right) <==> {
            ||| left < right && ops::compare_symbol(op).contains('<')
            ||| left == right && ops::compare_symbol(op).contains('=')
            ||| left > right && ops::compare_symbol(op).contains('>')
        },
{
    reveal_strlit("=");
    reveal_strlit("<>");
    reveal_strlit("<");
    reveal_strlit("<=");
    reveal_strlit(">");
    reveal_strlit(">=");
    let symbol = ops::compare_symbol(op);
    assert(symbol.len() == 1 || symbol.len() == 2);
    assert(symbol.contains(symbol[0]));
    assert(symbol.contains(symbol[symbol.len() - 1]));
    assert forall|c: char| #[trigger] symbol.contains(c) implies c == symbol[0] || c
        == symbol[symbol.len() - 1] by {
        let i = choose|i: int| 0 <= i < symbol.len() && symbol[i] == c;
        assert(i == 0 || i == symbol.len() - 1);
    }
}

/// The arithmetic operator that `text` names.
pub open spec fn arithmetic_named(text: Seq<char>) -> Option<ArithmeticOp> {
    if text == seq!['+'] {
        Some(ArithmeticOp::Add)
    } else if text == seq!['-'] {
        Some(ArithmeticOp::Subtract)
    } else if text == seq!['*'] {
        Some(ArithmeticOp::Multiply)
    } else if text == seq!['/'] {
        Some(ArithmeticOp::Divide)
    } else {
        None
    }
}

/// An arithmetic operator is read back from its symbol.
pub proof fn law_arithmetic_reads_back(op: ArithmeticOp)
    ensures
        arithmetic_named(ops::arithmetic_symbol(op)) == Some(op),
{
    reveal_strlit("+");
    reveal_strlit("-");
    reveal_strlit("*");
    reveal_strlit("/");
    let text = ops::arithmetic_symbol(op);
    match op {
        ArithmeticOp::Add => assert(text =~= seq!['+']),
        ArithmeticOp::Subtract => assert(text =~= seq!['-']),
        ArithmeticOp::Multiply => assert(text =~= seq!['*']),
        ArithmeticOp::Divide => assert(text =~= seq!['/']),
    }
    assert(seq!['-'][0] != seq!['+'][0]);
    assert(seq!['*'][0] != seq!['+'][0]);
    assert(seq!['*'][0] != seq!['-'][0]);
    assert(seq!['/'][0] != seq!['+'][0]);
    assert(seq!['/'][0] != seq!['-'][0]);
    assert(seq!['/'][0] != seq!['*'][0]);
}

/// The aggregate that `text` names.
pub open spec fn aggregate_named(text: Seq<char>) -> Option<AggregateFunc> {
    if text == seq!['C', 'O', 'U', 'N', 'T'] {
        Some(AggregateFunc::Count)
    } else if text == seq!['S', 'U', 'M'] {
        Some(AggregateFunc::Sum)
    } else if text == seq!['A', 'V', 'G'] {
        Some(AggregateFunc::Avg)
    } else if text == seq!['M', 'I', 'N'] {
        Some(AggregateFunc::Min)
    } else if text == seq!['M', 'A', 'X'] {
        Some(AggregateFunc::Max)
    } else {
        None
    }
}

/// An aggregate is read back from its name.
pub proof fn law_aggregate_reads_back(func: AggregateFunc)
    ensures
        aggregate_named(ops::aggregate_name(func)) == Some(func),
{
    reveal_strlit("COUNT");
    reveal_strlit("SUM");
    reveal_strlit("AVG");
    reveal_strlit("MIN");
    reveal_strlit("MAX");
    let text = ops::aggregate_name(func);
    match func {
        AggregateFunc::Count => assert(text =~= seq!['C', 'O', 'U', 'N', 'T']),
        AggregateFunc::Sum => assert(text =~= seq!['S', 'U', 'M']),
        AggregateFunc::Avg => assert(text =~= seq!['A', 'V', 'G']),
        AggregateFunc::Min => assert(text =~= seq!['M', 'I', 'N']),
        AggregateFunc::Max => assert(text =~= seq!['M', 'A', 'X']),
    }
    assert(seq!['S', 'U', 'M'].len() != seq!['C', 'O', 'U', 'N', 'T'].len());
    assert(seq!['A', 'V', 'G'].len() != seq!['C', 'O', 'U', 'N', 'T'].len());
    assert(seq!['A', 'V', 'G'][0] != seq!['S', 'U', 'M'][0]);
    assert(seq!['M', 'I', 'N'].len() != seq!['C', 'O', 'U', 'N', 'T'].len());
    assert(seq!['M', 'I', 'N'][0] != seq!['S', 'U', 'M'][0]);
    assert(seq!['M', 'I', 'N'][0] != seq!['A', 'V', 'G'][0]);
    assert(seq!['M', 'A', 'X'].len() != seq!['C', 'O', 'U', 'N', 'T'].len());
    assert(seq!['M', 'A', 'X'][0] != seq!['S', 'U', 'M'][0]);
    assert(seq!['M', 'A', 'X'][0] != seq!['A', 'V', 'G'][0]);
    assert(seq!['M', 'A', 'X'][1] != seq!['M', 'I', 'N'][1]);
}

/// The direction that `text` names.
pub open spec fn direction_named(text: Seq<char>) -> Option<OrderDirection> {
    if text == seq!['A', 'S', 'C'] {
        Some(OrderDirection::Asc)
    } else if text == seq!['D', 'E', 'S', 'C'] {
        Some(OrderDirection::Desc)
    } else {
        None
    }
}

/// A direction is read back from its keyword.
pub proof fn law_direction_reads_back(direction: OrderDirection)
    ensures
        direction_named(ops::direction_keyword(direction)) == Some(direction),
{
    reveal_strlit("ASC");
    reveal_strlit("DESC");
    let text = ops::direction_keyword(direction);
    match direction {
        OrderDirection::Asc => assert(text =~= seq!['A', 'S', 'C']),
        OrderDirection::Desc => assert(text =~= seq!['D', 'E', 'S', 'C']),
    }
    assert(seq!['D', 'E', 'S', 'C'].len() != seq!['A', 'S', 'C'].len());
}

/// The set operation that `text` names.
pub open spec fn set_op_named(text: Seq<char>) -> Option<SetOp> {
    if text == seq!['U', 'N', 'I', 'O', 'N'] {
        Some(SetOp::Union)
    } else if text == seq!['U', 'N', 'I', 'O', 'N', ' ', 'A', 'L', 'L'] {
        Some(SetOp::UnionAll)
    } else if text == seq!['I', 'N', 'T', 'E', 'R', 'S', 'E', 'C', 'T'] {
        Some(SetOp::Intersect)
    } else if text == seq!['E', 'X', 'C', 'E', 'P', 'T'] {
        Some(SetOp::Except)
    } else {
        None
    }
}

/// A set operation is read back from its keyword.
pub proof fn law_set_op_reads_back(op: SetOp)
    ensures
        set_op_named(op.keyword_text()) == Some(op),
{
    reveal_strlit("UNION");
    reveal_strlit("UNION ALL");
    reveal_strlit("INTERSECT");
    reveal_strlit("EXCEPT");
    let text = op.keyword_text();
    match op {
        SetOp::Union => assert(text =~= seq!['U', 'N', 'I', 'O', 'N']),
        SetOp::UnionAll => assert(text =~= seq!['U', 'N', 'I', 'O', 'N', ' ', 'A', 'L', 'L']),
        SetOp::Intersect => assert(text =~= seq!['I', 'N', 'T', 'E', 'R', 'S', 'E', 'C', 'T']),
        SetOp::Except => assert(text =~= seq!['E', 'X', 'C', 'E', 'P', 'T']),
    }
    assert(seq!['U', 'N', 'I', 'O', 'N', ' ', 'A', 'L', 'L'].len() != seq!['U', 'N', 'I', 'O', 'N'].len());
    assert(seq!['I', 'N', 'T', 'E', 'R', 'S', 'E', 'C', 'T'].len() != seq!['U', 'N', 'I', 'O', 'N'].len());
    assert(seq!['I', 'N', 'T', 'E', 'R', 'S', 'E', 'C', 'T'][0] != seq!['U', 'N', 'I', 'O', 'N', ' ', 'A', 'L', 'L'][0]);
    assert(seq!['E', 'X', 'C', 'E', 'P', 'T'].len() != seq!['U', 'N', 'I', 'O', 'N'].len());
    assert(seq!['E', 'X', 'C', 'E', 'P', 'T'].len() != seq!['U', 'N', 'I', 'O', 'N', ' ', 'A', 'L', 'L'].len());
    assert(seq!['E', 'X', 'C', 'E', 'P', 'T'].len() != seq!['I', 'N', 'T', 'E', 'R', 'S', 'E', 'C', 'T'].len());
}

/// The part of a timestamp that `text` names.
pub open spec fn date_field_named(text: Seq<char>) -> Option<DateField> {
    if text == seq!['Y', 'E', 'A', 'R'] {
        Some(DateField::Year)
    } else if text == seq!['M', 'O', 'N', 'T', 'H'] {
        Some(DateField::Month)
    } else if text == seq!['D', 'A', 'Y'] {
        Some(DateField::Day)
    } else if text == seq!['H', 'O', 'U', 'R'] {
        Some(DateField::Hour)
    } else if text == seq!['M', 'I', 'N', 'U', 'T', 'E'] {
        Some(DateField::Minute)
    } else if text == seq!['S', 'E', 'C', 'O', 'N', 'D'] {
        Some(DateField::Second)
    } else {
        None
    }
}

/// A part of a timestamp is read back from its keyword.
pub proof fn law_date_field_reads_back(field: DateField)
    ensures
        date_field_named(field.extract_keyword_text()) == Some(field),
{
    reveal_strlit("YEAR");
    reveal_strlit("MONTH");
    reveal_strlit("DAY");
    reveal_strlit("HOUR");
    reveal_strlit("MINUTE");
    reveal_strlit("SECOND");
    let text = field.extract_keyword_text();
    match field {
        DateField::Year => assert(text =~= seq!['Y', 'E', 'A', 'R']),
        DateField::Month => assert(text =~= seq!['M', 'O', 'N', 'T', 'H']),
        DateField::Day => assert(text =~= seq!['D', 'A', 'Y']),
        DateField::Hour => assert(text =~= seq!['H', 'O', 'U', 'R']),
        DateField::Minute => assert(text =~= seq!['M', 'I', 'N', 'U', 'T', 'E']),
        DateField::Second => assert(text =~= seq!['S', 'E', 'C', 'O', 'N', 'D']),
    }
    assert(seq!['M', 'O', 'N', 'T', 'H'].len() != seq!['Y', 'E', 'A', 'R'].len());
    assert(seq!['D', 'A', 'Y'].len() != seq!['Y', 'E', 'A', 'R'].len());
    assert(seq!['D', 'A', 'Y'].len() != seq!['M', 'O', 'N', 'T', 'H'].len());
    assert(seq!['H', 'O', 'U', 'R'][0] != seq!['Y', 'E', 'A', 'R'][0]);
    assert(seq!['H', 'O', 'U', 'R'].len() != seq!['M', 'O', 'N', 'T', 'H'].len());
    assert(seq!['H', 'O', 'U', 'R'].len() != seq!['D', 'A', 'Y'].len());
    assert(seq!['M', 'I', 'N', 'U', 'T', 'E'].len() != seq!['Y', 'E', 'A', 'R'].len());
    assert(seq!['M', 'I', 'N', 'U', 'T', 'E'].len() != seq!['M', 'O', 'N', 'T', 'H'].len());
    assert(seq!['M', 'I', 'N', 'U', 'T', 'E'].len() != seq!['D', 'A', 'Y'].len());
    assert(seq!['M', 'I', 'N', 'U', 'T', 'E'].len() != seq!['H', 'O', 'U', 'R'].len());
    assert(seq!['S', 'E', 'C', 'O', 'N', 'D'].len() != seq!['Y', 'E', 'A', 'R'].len());
    assert(seq!['S', 'E', 'C', 'O', 'N', 'D'].len() != seq!['M', 'O', 'N', 'T', 'H'].len());
    assert(seq!['S', 'E', 'C', 'O', 'N', 'D'].len() != seq!['D', 'A', 'Y'].len());
    assert(seq!['S', 'E', 'C', 'O', 'N', 'D'].len() != seq!['H', 'O', 'U', 'R'].len());
    assert(seq!['S', 'E', 'C', 'O', 'N', 'D'][0] != seq!['M', 'I', 'N', 'U', 'T', 'E'][0]);
}

/// The string function that `text` names.
pub open spec fn string_func_named(text: Seq<char>) -> Option<UnaryStringFunc> {
    if text == seq!['L', 'O', 'W', 'E', 'R'] {
        Some(UnaryStringFunc::Lower)
    } else if text == seq!['U', 'P', 'P', 'E', 'R'] {
        Some(UnaryStringFunc::Upper)
    } else if text == seq!['C', 'H', 'A', 'R', '_', 'L', 'E', 'N', 'G', 'T', 'H'] {
        Some(UnaryStringFunc::Length)
    } else if text == seq!['T', 'R', 'I', 'M'] {
        Some(UnaryStringFunc::Trim)
    } else {
        None
    }
}

/// A string function is read back from its name.
pub proof fn law_string_func_reads_back(func: UnaryStringFunc)
    ensures
        string_func_named(func.name_text()) == Some(func),
{
    reveal_strlit("LOWER");
    reveal_strlit("UPPER");
    reveal_strlit("CHAR_LENGTH");
    reveal_strlit("TRIM");
    let text = func.name_text();
    match func {
        UnaryStringFunc::Lower => assert(text =~= seq!['L', 'O', 'W', 'E', 'R']),
        UnaryStringFunc::Upper => assert(text =~= seq!['U', 'P', 'P', 'E', 'R']),
        UnaryStringFunc::Length => assert(text =~= seq!['C', 'H', 'A', 'R', '_', 'L', 'E', 'N', 'G', 'T', 'H']),
        UnaryStringFunc::Trim => assert(text =~= seq!['T', 'R', 'I', 'M']),
    }
    assert(seq!['U', 'P', 'P', 'E', 'R'][0] != seq!['L', 'O', 'W', 'E', 'R'][0]);
    assert(seq!['C', 'H', 'A', 'R', '_', 'L', 'E', 'N', 'G', 'T', 'H'].len() != seq!['L', 'O', 'W', 'E', 'R'].len());
    assert(seq!['C', 'H', 'A', 'R', '_', 'L', 'E', 'N', 'G', 'T', 'H'].len() != seq!['U', 'P', 'P', 'E', 'R'].len());
    assert(seq!['T', 'R', 'I', 'M'].len() != seq!['L', 'O', 'W', 'E', 'R'].len());
    assert(seq!['T', 'R', 'I', 'M'].len() != seq!['U', 'P', 'P', 'E', 'R'].len());
    assert(seq!['T', 'R', 'I', 'M'].len() != seq!['C', 'H', 'A', 'R', '_', 'L', 'E', 'N', 'G', 'T', 'H'].len());
}

/// A window function has the name that its name in the standard is, and an aggregate used as one
/// keeps its own.
pub proof fn law_window_names(aggregate: AggregateFunc)
    ensures
        aggregate_named(ops::window_name(WindowFunc::Aggregate(aggregate))) == Some(aggregate),
        ops::window_name(WindowFunc::RowNumber) == seq!['R', 'O', 'W', '_', 'N', 'U', 'M', 'B', 'E', 'R'],
        ops::window_name(WindowFunc::Rank) == seq!['R', 'A', 'N', 'K'],
        ops::window_name(WindowFunc::DenseRank) == seq!['D', 'E', 'N', 'S', 'E', '_', 'R', 'A', 'N', 'K'],
        ops::window_name(WindowFunc::Ntile) == seq!['N', 'T', 'I', 'L', 'E'],
        ops::window_name(WindowFunc::Lag) == seq!['L', 'A', 'G'],
        ops::window_name(WindowFunc::Lead) == seq!['L', 'E', 'A', 'D'],
{
    law_aggregate_reads_back(aggregate);
    reveal_strlit("ROW_NUMBER");
    reveal_strlit("RANK");
    reveal_strlit("DENSE_RANK");
    reveal_strlit("NTILE");
    reveal_strlit("LAG");
    reveal_strlit("LEAD");
    assert(ops::window_name(WindowFunc::RowNumber) =~= seq!['R', 'O', 'W', '_', 'N', 'U', 'M', 'B', 'E', 'R']);
    assert(ops::window_name(WindowFunc::Rank) =~= seq!['R', 'A', 'N', 'K']);
    assert(ops::window_name(WindowFunc::DenseRank) =~= seq!['D', 'E', 'N', 'S', 'E', '_', 'R', 'A', 'N', 'K']);
    assert(ops::window_name(WindowFunc::Ntile) =~= seq!['N', 'T', 'I', 'L', 'E']);
    assert(ops::window_name(WindowFunc::Lag) =~= seq!['L', 'A', 'G']);
    assert(ops::window_name(WindowFunc::Lead) =~= seq!['L', 'E', 'A', 'D']);
}

/// A timestamp is cut off at the part that it is asked for by: the literal is the keyword in lower
/// case.
pub proof fn law_date_literal_is_keyword(field: DateField)
    ensures
        field.trunc_literal_text().len() == field.extract_keyword_text().len(),
        forall|i: int|
            0 <= i < field.extract_keyword_text().len() ==> #[trigger] field.trunc_literal_text()[i]
                as int == field.extract_keyword_text()[i] as int + 32,
{
    reveal_strlit("year");
    reveal_strlit("YEAR");
    reveal_strlit("month");
    reveal_strlit("MONTH");
    reveal_strlit("day");
    reveal_strlit("DAY");
    reveal_strlit("hour");
    reveal_strlit("HOUR");
    reveal_strlit("minute");
    reveal_strlit("MINUTE");
    reveal_strlit("second");
    reveal_strlit("SECOND");
}

/// Without duplicates is the plain operation, and with them the same one said to keep all.
pub proof fn law_union_all_is_union()
    ensures
        SetOp::UnionAll.keyword_text() == SetOp::Union.keyword_text() + seq![' ', 'A', 'L', 'L'],
{
    reveal_strlit("UNION");
    reveal_strlit("UNION ALL");
    assert(SetOp::UnionAll.keyword_text() =~= SetOp::Union.keyword_text() + seq![
        ' ',
        'A',
        'L',
        'L',
    ]);
}

/// The two bounds of a query are written apart: the first rows behind `LIMIT`, then the skipped ones
/// behind `OFFSET`, and a missing bound leaves no trace.
pub proof fn law_bounds_are_apart(limit: Option<usize>, offset: Option<usize>, rows: usize)
    ensures
        dialect::standard_limit_offset_text(limit, offset) == dialect::standard_limit_offset_text(
            limit,
            None,
        ) + dialect::standard_limit_offset_text(None, offset),
        dialect::standard_limit_offset_text(None, None).len() == 0,
        dialect::standard_limit_offset_text(Some(rows), None) == seq![
            ' ', 'L', 'I', 'M', 'I', 'T', ' ',
        ] + text::decimal(rows as nat),
        dialect::standard_limit_offset_text(None, Some(rows)) == seq![
            ' ', 'O', 'F', 'F', 'S', 'E', 'T', ' ',
        ] + text::decimal(rows as nat),
{
    reveal_strlit(" LIMIT ");
    reveal_strlit(" OFFSET ");
    assert(" LIMIT "@ =~= seq![' ', 'L', 'I', 'M', 'I', 'T', ' ']);
    assert(" OFFSET "@ =~= seq![' ', 'O', 'F', 'F', 'S', 'E', 'T', ' ']);
    assert(dialect::standard_limit_offset_text(Some(rows), None) =~= " LIMIT "@ + text::decimal(
        rows as nat,
    ));
    assert(dialect::standard_limit_offset_text(None, Some(rows)) =~= " OFFSET "@ + text::decimal(
        rows as nat,
    ));
    assert(dialect::standard_limit_offset_text(limit, offset)
        =~= dialect::standard_limit_offset_text(limit, None)
        + dialect::standard_limit_offset_text(None, offset));
}

/// The standard `LIKE` is negated by the `NOT` in front of it and by nothing else.
pub proof fn law_like_is_negated_in_front()
    ensures
        dialect::standard_like_operator_text(false) == seq![' ', 'L', 'I', 'K', 'E', ' '],
        dialect::standard_like_operator_text(true) == seq![' ', 'N', 'O', 'T']
            + dialect::standard_like_operator_text(false),
{
    reveal_strlit(" LIKE ");
    reveal_strlit(" NOT LIKE ");
    assert(dialect::standard_like_operator_text(false) =~= seq![' ', 'L', 'I', 'K', 'E', ' ']);
    assert(dialect::standard_like_operator_text(true) =~= seq![' ', 'N', 'O', 'T']
        + dialect::standard_like_operator_text(false));
}

/// Where `NULL`s stand is said by the last word of the modifier.
pub proof fn law_nulls_stand_where_said(nulls: OrderNulls)
    ensures
        dialect::standard_order_nulls_text(nulls).take(7) == seq![
            ' ', 'N', 'U', 'L', 'L', 'S', ' ',
        ],
        dialect::standard_order_nulls_text(nulls).skip(7) == if nulls is First {
            seq!['F', 'I', 'R', 'S', 'T']
        } else {
            seq!['L', 'A', 'S', 'T']
        },
{
    reveal_strlit(" NULLS FIRST");
    reveal_strlit(" NULLS LAST");
    let text = dialect::standard_order_nulls_text(nulls);
    assert(text.take(7) =~= seq![' ', 'N', 'U', 'L', 'L', 'S', ' ']);
    match nulls {
        OrderNulls::First => assert(text.skip(7) =~= seq!['F', 'I', 'R', 'S', 'T']),
        OrderNulls::Last => assert(text.skip(7) =~= seq!['L', 'A', 'S', 'T']),
    }
}

} // verus!
