//! Predicates of partial indexes: rendered without parameters, aliases or dialect.
use crate::expr::ast::{ColumnExprAst, LiteralExprAst};
use crate::expr::kind::{ExprKind, PredicateKind};
use crate::expr::predicate::{
    AndPredicateAst, ComparePredicateAst, NotPredicateAst, NullCheckPredicateAst, OrPredicateAst,
    PredicateAst,
};
use crate::expr::Predicate;
use crate::ops;
use crate::ops::render_compare_op;
use crate::text;
use crate::text::{push_decimal, push_quoted, push_signed_decimal};
use vstd::prelude::*;

verus! {

/// An operand of a partial-index predicate: a column by its quoted name, or an inline literal.
pub trait DdlExprAst {
    /// The SQL of the operand.
    spec fn ddl_text(&self) -> Seq<char>;

    fn render_ddl(&self, out: &mut String)
        ensures
            final(out)@ == old(out)@ + self.ddl_text(),
    ;
}

/// A partial-index predicate.
pub trait DdlPredicateAst {
    /// The SQL of the predicate.
    spec fn ddl_text(&self) -> Seq<char>;

    fn render_ddl(&self, out: &mut String)
        ensures
            final(out)@ == old(out)@ + self.ddl_text(),
    ;
}

/// A value with an inline SQL literal that every backend reads the same way.
pub trait DdlSqlLiteral {
    /// The SQL of the value.
    open spec fn literal_text(&self) -> Seq<char> {
        arbitrary()
    }

    fn render_sql_literal(&self, out: &mut String)
        ensures
            final(out)@ == old(out)@ + self.literal_text(),
    ;
}

impl DdlSqlLiteral for i8 {
    open spec fn literal_text(&self) -> Seq<char> {
        text::signed_decimal(*self as int)
    }

    fn render_sql_literal(&self, out: &mut String) {
        push_signed_decimal(out, *self as i128);
    }
}

impl DdlSqlLiteral for i16 {
    open spec fn literal_text(&self) -> Seq<char> {
        text::signed_decimal(*self as int)
    }

    fn render_sql_literal(&self, out: &mut String) {
        push_signed_decimal(out, *self as i128);
    }
}

impl DdlSqlLiteral for i32 {
    open spec fn literal_text(&self) -> Seq<char> {
        text::signed_decimal(*self as int)
    }

    fn render_sql_literal(&self, out: &mut String) {
        push_signed_decimal(out, *self as i128);
    }
}

impl DdlSqlLiteral for i64 {
    open spec fn literal_text(&self) -> Seq<char> {
        text::signed_decimal(*self as int)
    }

    fn render_sql_literal(&self, out: &mut String) {
        push_signed_decimal(out, *self as i128);
    }
}

impl DdlSqlLiteral for i128 {
    open spec fn literal_text(&self) -> Seq<char> {
        text::signed_decimal(*self as int)
    }

    fn render_sql_literal(&self, out: &mut String) {
        push_signed_decimal(out, *self as i128);
    }
}

impl DdlSqlLiteral for isize {
    open spec fn literal_text(&self) -> Seq<char> {
        text::signed_decimal(*self as int)
    }

    fn render_sql_literal(&self, out: &mut String) {
        push_signed_decimal(out, *self as i128);
    }
}

impl DdlSqlLiteral for u8 {
    open spec fn literal_text(&self) -> Seq<char> {
        text::decimal(*self as nat)
    }

    fn render_sql_literal(&self, out: &mut String) {
        push_decimal(out, *self as u128);
    }
}

impl DdlSqlLiteral for u16 {
    open spec fn literal_text(&self) -> Seq<char> {
        text::decimal(*self as nat)
    }

    fn render_sql_literal(&self, out: &mut String) {
        push_decimal(out, *self as u128);
    }
}

impl DdlSqlLiteral for u32 {
    open spec fn literal_text(&self) -> Seq<char> {
        text::decimal(*self as nat)
    }

    fn render_sql_literal(&self, out: &mut String) {
        push_decimal(out, *self as u128);
    }
}

impl DdlSqlLiteral for u64 {
    open spec fn literal_text(&self) -> Seq<char> {
        text::decimal(*self as nat)
    }

    fn render_sql_literal(&self, out: &mut String) {
        push_decimal(out, *self as u128);
    }
}

impl DdlSqlLiteral for u128 {
    open spec fn literal_text(&self) -> Seq<char> {
        text::decimal(*self as nat)
    }

    fn render_sql_literal(&self, out: &mut String) {
        push_decimal(out, *self as u128);
    }
}

impl DdlSqlLiteral for usize {
    open spec fn literal_text(&self) -> Seq<char> {
        text::decimal(*self as nat)
    }

    fn render_sql_literal(&self, out: &mut String) {
        push_decimal(out, *self as u128);
    }
}

impl DdlSqlLiteral for bool {
    open spec fn literal_text(&self) -> Seq<char> {
        if *self {
            "TRUE"@
        } else {
            "FALSE"@
        }
    }

    fn render_sql_literal(&self, out: &mut String) {
        out.append(
            if *self {
                "TRUE"
            } else {
                "FALSE"
            },
        );
    }
}

impl DdlSqlLiteral for String {
    open spec fn literal_text(&self) -> Seq<char> {
        text::quoted(self@, '\'')
    }

    fn render_sql_literal(&self, out: &mut String) {
        push_quoted(out, self.as_str(), '\'');
    }
}

impl<K> DdlExprAst for ColumnExprAst<K> {
    open spec fn ddl_text(&self) -> Seq<char> {
        text::quoted(self.column@, '"')
    }

    fn render_ddl(&self, out: &mut String) {
        push_quoted(out, self.column.as_str(), '"');
    }
}

impl<K: ExprKind> DdlExprAst for LiteralExprAst<K> where K::Value: DdlSqlLiteral {
    open spec fn ddl_text(&self) -> Seq<char> {
        self.value.literal_text()
    }

    fn render_ddl(&self, out: &mut String) {
        self.value.render_sql_literal(out);
    }
}

impl<Operand: DdlExprAst> DdlPredicateAst for NullCheckPredicateAst<Operand> {
    open spec fn ddl_text(&self) -> Seq<char> {
        "("@ + self.operand.ddl_text() + (if self.negated {
            " IS NOT NULL)"@
        } else {
            " IS NULL)"@
        })
    }

    fn render_ddl(&self, out: &mut String) {
        let ghost start = out@;
        out.append("(");
        self.operand.render_ddl(out);
        out.append(
            if self.negated {
                " IS NOT NULL)"
            } else {
                " IS NULL)"
            },
        );
        proof {
            assert(out@ =~= start + self.ddl_text());
        }
    }
}

impl<Left: DdlExprAst, Right: DdlExprAst> DdlPredicateAst for ComparePredicateAst<Left, Right> {
    open spec fn ddl_text(&self) -> Seq<char> {
        "("@ + self.left.ddl_text() + " "@ + ops::compare_symbol(self.op) + " "@
            + self.right.ddl_text() + ")"@
    }

    fn render_ddl(&self, out: &mut String) {
        let ghost start = out@;
        out.append("(");
        self.left.render_ddl(out);
        out.append(" ");
        out.append(render_compare_op(self.op));
        out.append(" ");
        self.right.render_ddl(out);
        out.append(")");
        proof {
            assert(out@ =~= start + self.ddl_text());
        }
    }
}

impl<Left: DdlPredicateAst, Right: DdlPredicateAst> DdlPredicateAst for AndPredicateAst<
    Left,
    Right,
> {
    open spec fn ddl_text(&self) -> Seq<char> {
        "("@ + self.left.ddl_text() + " AND "@ + self.right.ddl_text() + ")"@
    }

    fn render_ddl(&self, out: &mut String) {
        let ghost start = out@;
        out.append("(");
        self.left.render_ddl(out);
        out.append(" AND ");
        self.right.render_ddl(out);
        out.append(")");
        proof {
            assert(out@ =~= start + self.ddl_text());
        }
    }
}

impl<Left: DdlPredicateAst, Right: DdlPredicateAst> DdlPredicateAst for OrPredicateAst<
    Left,
    Right,
> {
    open spec fn ddl_text(&self) -> Seq<char> {
        "("@ + self.left.ddl_text() + " OR "@ + self.right.ddl_text() + ")"@
    }

    fn render_ddl(&self, out: &mut String) {
        let ghost start = out@;
        out.append("(");
        self.left.render_ddl(out);
        out.append(" OR ");
        self.right.render_ddl(out);
        out.append(")");
        proof {
            assert(out@ =~= start + self.ddl_text());
        }
    }
}

impl<Inner: DdlPredicateAst> DdlPredicateAst for NotPredicateAst<Inner> {
    open spec fn ddl_text(&self) -> Seq<char> {
        "(NOT "@ + self.predicate.ddl_text() + ")"@
    }

    fn render_ddl(&self, out: &mut String) {
        let ghost start = out@;
        out.append("(NOT ");
        self.predicate.render_ddl(out);
        out.append(")");
        proof {
            assert(out@ =~= start + self.ddl_text());
        }
    }
}

/// Renders a predicate for the `WHERE` clause of a partial index.
pub fn render_ddl_predicate<'scope, K: PredicateKind, Ast: PredicateAst + DdlPredicateAst>(
    predicate: &Predicate<'scope, K, Ast>,
) -> (sql: String)
    ensures
        sql@ == predicate.ast.ddl_text(),
{
    let mut out = String::new();
    predicate.ast.render_ddl(&mut out);
    proof {
        assert(out@ =~= predicate.ast.ddl_text());
    }
    out
}

} // verus!
