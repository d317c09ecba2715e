//! Arithmetic with an unsigned integer on the left.
use crate::expr::ast::{BinaryExprAst, ColumnExprAst, ExprAst, LiteralExprAst};
use crate::expr::kind::{AddExpr, DivideExpr, ExprKind, MultiplyExpr, SubtractExpr};
use crate::expr::{ColumnRef, Expr};
use crate::label::Label;
use crate::list::{HAppend, HNil};
use crate::ops::ArithmeticOp;
use std::ops::{Add, Div, Mul, Sub};
use vstd::prelude::*;

verus! {

impl<'scope, K: ExprKind<Value = u8>, Ast: ExprAst> vstd::std_specs::ops::AddSpecImpl<Expr<'scope, K, Ast>> for u8 where HNil: HAppend<Ast::Params> {
    open spec fn obeys_add_spec() -> bool {
        false
    }

    open spec fn add_req(self, other: Expr<'scope, K, Ast>) -> bool {
        true
    }

    open spec fn add_spec(self, other: Expr<'scope, K, Ast>) -> Expr<'scope, AddExpr<u8, K>, BinaryExprAst<LiteralExprAst<u8>, Ast>> {
        arbitrary()
    }
}

impl<'scope, K: ExprKind<Value = u8>, Ast: ExprAst> Add<Expr<'scope, K, Ast>> for u8 where HNil: HAppend<Ast::Params> {
    type Output = Expr<'scope, AddExpr<u8, K>, BinaryExprAst<LiteralExprAst<u8>, Ast>>;

    fn add(self, other: Expr<'scope, K, Ast>) -> (expr: Expr<'scope, AddExpr<u8, K>, BinaryExprAst<LiteralExprAst<u8>, Ast>>)
        ensures
            expr.ast.left.value == self,
            expr.ast.op == ArithmeticOp::Add,
            expr.ast.right == other.ast,
            expr.project_alias == Label::Static("expr"),
    {
        Expr::<u8, LiteralExprAst<u8>>::binary(
            Expr::<u8, LiteralExprAst<u8>>::lit(self).ast,
            ArithmeticOp::Add,
            other,
        )
    }
}

impl<'scope, K: ExprKind<Value = u8>> vstd::std_specs::ops::AddSpecImpl<ColumnRef<'scope, K>> for u8 {
    open spec fn obeys_add_spec() -> bool {
        false
    }

    open spec fn add_req(self, other: ColumnRef<'scope, K>) -> bool {
        true
    }

    open spec fn add_spec(self, other: ColumnRef<'scope, K>) -> Expr<'scope, AddExpr<u8, K>, BinaryExprAst<LiteralExprAst<u8>, ColumnExprAst<K>>> {
        arbitrary()
    }
}

impl<'scope, K: ExprKind<Value = u8>> Add<ColumnRef<'scope, K>> for u8 {
    type Output = Expr<'scope, AddExpr<u8, K>, BinaryExprAst<LiteralExprAst<u8>, ColumnExprAst<K>>>;

    fn add(self, other: ColumnRef<'scope, K>) -> (expr: Expr<'scope, AddExpr<u8, K>, BinaryExprAst<LiteralExprAst<u8>, ColumnExprAst<K>>>)
        ensures
            expr.ast.left.value == self,
            expr.ast.op == ArithmeticOp::Add,
            expr.ast.right == other.ast(),
            expr.project_alias == Label::Static("expr"),
    {
        Expr::<u8, LiteralExprAst<u8>>::binary(
            Expr::<u8, LiteralExprAst<u8>>::lit(self).ast,
            ArithmeticOp::Add,
            other,
        )
    }
}

impl<'scope, K: ExprKind<Value = u8>, Ast: ExprAst> vstd::std_specs::ops::AddSpecImpl<&Expr<'scope, K, Ast>> for u8 where HNil: HAppend<Ast::Params> {
    open spec fn obeys_add_spec() -> bool {
        false
    }

    open spec fn add_req(self, other: &Expr<'scope, K, Ast>) -> bool {
        true
    }

    open spec fn add_spec(self, other: &Expr<'scope, K, Ast>) -> Expr<'scope, AddExpr<u8, K>, BinaryExprAst<LiteralExprAst<u8>, Ast>> {
        arbitrary()
    }
}

impl<'scope, K: ExprKind<Value = u8>, Ast: ExprAst> Add<&Expr<'scope, K, Ast>> for u8 where HNil: HAppend<Ast::Params> {
    type Output = Expr<'scope, AddExpr<u8, K>, BinaryExprAst<LiteralExprAst<u8>, Ast>>;

    fn add(self, other: &Expr<'scope, K, Ast>) -> (expr: Expr<'scope, AddExpr<u8, K>, BinaryExprAst<LiteralExprAst<u8>, Ast>>)
        ensures
            expr.ast.left.value == self,
            expr.ast.op == ArithmeticOp::Add,
            expr.ast.right == other.ast,
            expr.project_alias == Label::Static("expr"),
    {
        Expr::<u8, LiteralExprAst<u8>>::binary(
            Expr::<u8, LiteralExprAst<u8>>::lit(self).ast,
            ArithmeticOp::Add,
            other,
        )
    }
}

impl<'scope, K: ExprKind<Value = u8>> vstd::std_specs::ops::AddSpecImpl<&ColumnRef<'scope, K>> for u8 {
    open spec fn obeys_add_spec() -> bool {
        false
    }

    open spec fn add_req(self, other: &ColumnRef<'scope, K>) -> bool {
        true
    }

    open spec fn add_spec(self, other: &ColumnRef<'scope, K>) -> Expr<'scope, AddExpr<u8, K>, BinaryExprAst<LiteralExprAst<u8>, ColumnExprAst<K>>> {
        arbitrary()
    }
}

impl<'scope, K: ExprKind<Value = u8>> Add<&ColumnRef<'scope, K>> for u8 {
    type Output = Expr<'scope, AddExpr<u8, K>, BinaryExprAst<LiteralExprAst<u8>, ColumnExprAst<K>>>;

    fn add(self, other: &ColumnRef<'scope, K>) -> (expr: Expr<'scope, AddExpr<u8, K>, BinaryExprAst<LiteralExprAst<u8>, ColumnExprAst<K>>>)
        ensures
            expr.ast.left.value == self,
            expr.ast.op == ArithmeticOp::Add,
            expr.ast.right == other.ast(),
            expr.project_alias == Label::Static("expr"),
    {
        Expr::<u8, LiteralExprAst<u8>>::binary(
            Expr::<u8, LiteralExprAst<u8>>::lit(self).ast,
            ArithmeticOp::Add,
            other,
        )
    }
}

impl<'scope, K: ExprKind<Value = u8>, Ast: ExprAst> vstd::std_specs::ops::SubSpecImpl<Expr<'scope, K, Ast>> for u8 where HNil: HAppend<Ast::Params> {
    open spec fn obeys_sub_spec() -> bool {
        false
    }

    open spec fn sub_req(self, other: Expr<'scope, K, Ast>) -> bool {
        true
    }

    open spec fn sub_spec(self, other: Expr<'scope, K, Ast>) -> Expr<'scope, SubtractExpr<u8, K>, BinaryExprAst<LiteralExprAst<u8>, Ast>> {
        arbitrary()
    }
}

impl<'scope, K: ExprKind<Value = u8>, Ast: ExprAst> Sub<Expr<'scope, K, Ast>> for u8 where HNil: HAppend<Ast::Params> {
    type Output = Expr<'scope, SubtractExpr<u8, K>, BinaryExprAst<LiteralExprAst<u8>, Ast>>;

    fn sub(self, other: Expr<'scope, K, Ast>) -> (expr: Expr<'scope, SubtractExpr<u8, K>, BinaryExprAst<LiteralExprAst<u8>, Ast>>)
        ensures
            expr.ast.left.value == self,
            expr.ast.op == ArithmeticOp::Subtract,
            expr.ast.right == other.ast,
            expr.project_alias == Label::Static("expr"),
    {
        Expr::<u8, LiteralExprAst<u8>>::binary(
            Expr::<u8, LiteralExprAst<u8>>::lit(self).ast,
            ArithmeticOp::Subtract,
            other,
        )
    }
}

impl<'scope, K: ExprKind<Value = u8>> vstd::std_specs::ops::SubSpecImpl<ColumnRef<'scope, K>> for u8 {
    open spec fn obeys_sub_spec() -> bool {
        false
    }

    open spec fn sub_req(self, other: ColumnRef<'scope, K>) -> bool {
        true
    }

    open spec fn sub_spec(self, other: ColumnRef<'scope, K>) -> Expr<'scope, SubtractExpr<u8, K>, BinaryExprAst<LiteralExprAst<u8>, ColumnExprAst<K>>> {
        arbitrary()
    }
}

impl<'scope, K: ExprKind<Value = u8>> Sub<ColumnRef<'scope, K>> for u8 {
    type Output = Expr<'scope, SubtractExpr<u8, K>, BinaryExprAst<LiteralExprAst<u8>, ColumnExprAst<K>>>;

    fn sub(self, other: ColumnRef<'scope, K>) -> (expr: Expr<'scope, SubtractExpr<u8, K>, BinaryExprAst<LiteralExprAst<u8>, ColumnExprAst<K>>>)
        ensures
            expr.ast.left.value == self,
            expr.ast.op == ArithmeticOp::Subtract,
            expr.ast.right == other.ast(),
            expr.project_alias == Label::Static("expr"),
    {
        Expr::<u8, LiteralExprAst<u8>>::binary(
            Expr::<u8, LiteralExprAst<u8>>::lit(self).ast,
            ArithmeticOp::Subtract,
            other,
        )
    }
}

impl<'scope, K: ExprKind<Value = u8>, Ast: ExprAst> vstd::std_specs::ops::SubSpecImpl<&Expr<'scope, K, Ast>> for u8 where HNil: HAppend<Ast::Params> {
    open spec fn obeys_sub_spec() -> bool {
        false
    }

    open spec fn sub_req(self, other: &Expr<'scope, K, Ast>) -> bool {
        true
    }

    open spec fn sub_spec(self, other: &Expr<'scope, K, Ast>) -> Expr<'scope, SubtractExpr<u8, K>, BinaryExprAst<LiteralExprAst<u8>, Ast>> {
        arbitrary()
    }
}

impl<'scope, K: ExprKind<Value = u8>, Ast: ExprAst> Sub<&Expr<'scope, K, Ast>> for u8 where HNil: HAppend<Ast::Params> {
    type Output = Expr<'scope, SubtractExpr<u8, K>, BinaryExprAst<LiteralExprAst<u8>, Ast>>;

    fn sub(self, other: &Expr<'scope, K, Ast>) -> (expr: Expr<'scope, SubtractExpr<u8, K>, BinaryExprAst<LiteralExprAst<u8>, Ast>>)
        ensures
            expr.ast.left.value == self,
            expr.ast.op == ArithmeticOp::Subtract,
            expr.ast.right == other.ast,
            expr.project_alias == Label::Static("expr"),
    {
        Expr::<u8, LiteralExprAst<u8>>::binary(
            Expr::<u8, LiteralExprAst<u8>>::lit(self).ast,
            ArithmeticOp::Subtract,
            other,
        )
    }
}

impl<'scope, K: ExprKind<Value = u8>> vstd::std_specs::ops::SubSpecImpl<&ColumnRef<'scope, K>> for u8 {
    open spec fn obeys_sub_spec() -> bool {
        false
    }

    open spec fn sub_req(self, other: &ColumnRef<'scope, K>) -> bool {
        true
    }

    open spec fn sub_spec(self, other: &ColumnRef<'scope, K>) -> Expr<'scope, SubtractExpr<u8, K>, BinaryExprAst<LiteralExprAst<u8>, ColumnExprAst<K>>> {
        arbitrary()
    }
}

impl<'scope, K: ExprKind<Value = u8>> Sub<&ColumnRef<'scope, K>> for u8 {
    type Output = Expr<'scope, SubtractExpr<u8, K>, BinaryExprAst<LiteralExprAst<u8>, ColumnExprAst<K>>>;

    fn sub(self, other: &ColumnRef<'scope, K>) -> (expr: Expr<'scope, SubtractExpr<u8, K>, BinaryExprAst<LiteralExprAst<u8>, ColumnExprAst<K>>>)
        ensures
            expr.ast.left.value == self,
            expr.ast.op == ArithmeticOp::Subtract,
            expr.ast.right == other.ast(),
            expr.project_alias == Label::Static("expr"),
    {
        Expr::<u8, LiteralExprAst<u8>>::binary(
            Expr::<u8, LiteralExprAst<u8>>::lit(self).ast,
            ArithmeticOp::Subtract,
            other,
        )
    }
}

impl<'scope, K: ExprKind<Value = u8>, Ast: ExprAst> vstd::std_specs::ops::MulSpecImpl<Expr<'scope, K, Ast>> for u8 where HNil: HAppend<Ast::Params> {
    open spec fn obeys_mul_spec() -> bool {
        false
    }

    open spec fn mul_req(self, other: Expr<'scope, K, Ast>) -> bool {
        true
    }

    open spec fn mul_spec(self, other: Expr<'scope, K, Ast>) -> Expr<'scope, MultiplyExpr<u8, K>, BinaryExprAst<LiteralExprAst<u8>, Ast>> {
        arbitrary()
    }
}

impl<'scope, K: ExprKind<Value = u8>, Ast: ExprAst> Mul<Expr<'scope, K, Ast>> for u8 where HNil: HAppend<Ast::Params> {
    type Output = Expr<'scope, MultiplyExpr<u8, K>, BinaryExprAst<LiteralExprAst<u8>, Ast>>;

    fn mul(self, other: Expr<'scope, K, Ast>) -> (expr: Expr<'scope, MultiplyExpr<u8, K>, BinaryExprAst<LiteralExprAst<u8>, Ast>>)
        ensures
            expr.ast.left.value == self,
            expr.ast.op == ArithmeticOp::Multiply,
            expr.ast.right == other.ast,
            expr.project_alias == Label::Static("expr"),
    {
        Expr::<u8, LiteralExprAst<u8>>::binary(
            Expr::<u8, LiteralExprAst<u8>>::lit(self).ast,
            ArithmeticOp::Multiply,
            other,
        )
    }
}

impl<'scope, K: ExprKind<Value = u8>> vstd::std_specs::ops::MulSpecImpl<ColumnRef<'scope, K>> for u8 {
    open spec fn obeys_mul_spec() -> bool {
        false
    }

    open spec fn mul_req(self, other: ColumnRef<'scope, K>) -> bool {
        true
    }

    open spec fn mul_spec(self, other: ColumnRef<'scope, K>) -> Expr<'scope, MultiplyExpr<u8, K>, BinaryExprAst<LiteralExprAst<u8>, ColumnExprAst<K>>> {
        arbitrary()
    }
}

impl<'scope, K: ExprKind<Value = u8>> Mul<ColumnRef<'scope, K>> for u8 {
    type Output = Expr<'scope, MultiplyExpr<u8, K>, BinaryExprAst<LiteralExprAst<u8>, ColumnExprAst<K>>>;

    fn mul(self, other: ColumnRef<'scope, K>) -> (expr: Expr<'scope, MultiplyExpr<u8, K>, BinaryExprAst<LiteralExprAst<u8>, ColumnExprAst<K>>>)
        ensures
            expr.ast.left.value == self,
            expr.ast.op == ArithmeticOp::Multiply,
            expr.ast.right == other.ast(),
            expr.project_alias == Label::Static("expr"),
    {
        Expr::<u8, LiteralExprAst<u8>>::binary(
            Expr::<u8, LiteralExprAst<u8>>::lit(self).ast,
            ArithmeticOp::Multiply,
            other,
        )
    }
}

impl<'scope, K: ExprKind<Value = u8>, Ast: ExprAst> vstd::std_specs::ops::MulSpecImpl<&Expr<'scope, K, Ast>> for u8 where HNil: HAppend<Ast::Params> {
    open spec fn obeys_mul_spec() -> bool {
        false
    }

    open spec fn mul_req(self, other: &Expr<'scope, K, Ast>) -> bool {
        true
    }

    open spec fn mul_spec(self, other: &Expr<'scope, K, Ast>) -> Expr<'scope, MultiplyExpr<u8, K>, BinaryExprAst<LiteralExprAst<u8>, Ast>> {
        arbitrary()
    }
}

impl<'scope, K: ExprKind<Value = u8>, Ast: ExprAst> Mul<&Expr<'scope, K, Ast>> for u8 where HNil: HAppend<Ast::Params> {
    type Output = Expr<'scope, MultiplyExpr<u8, K>, BinaryExprAst<LiteralExprAst<u8>, Ast>>;

    fn mul(self, other: &Expr<'scope, K, Ast>) -> (expr: Expr<'scope, MultiplyExpr<u8, K>, BinaryExprAst<LiteralExprAst<u8>, Ast>>)
        ensures
            expr.ast.left.value == self,
            expr.ast.op == ArithmeticOp::Multiply,
            expr.ast.right == other.ast,
            expr.project_alias == Label::Static("expr"),
    {
        Expr::<u8, LiteralExprAst<u8>>::binary(
            Expr::<u8, LiteralExprAst<u8>>::lit(self).ast,
            ArithmeticOp::Multiply,
            other,
        )
    }
}

impl<'scope, K: ExprKind<Value = u8>> vstd::std_specs::ops::MulSpecImpl<&ColumnRef<'scope, K>> for u8 {
    open spec fn obeys_mul_spec() -> bool {
        false
    }

    open spec fn mul_req(self, other: &ColumnRef<'scope, K>) -> bool {
        true
    }

    open spec fn mul_spec(self, other: &ColumnRef<'scope, K>) -> Expr<'scope, MultiplyExpr<u8, K>, BinaryExprAst<LiteralExprAst<u8>, ColumnExprAst<K>>> {
        arbitrary()
    }
}

impl<'scope, K: ExprKind<Value = u8>> Mul<&ColumnRef<'scope, K>> for u8 {
    type Output = Expr<'scope, MultiplyExpr<u8, K>, BinaryExprAst<LiteralExprAst<u8>, ColumnExprAst<K>>>;

    fn mul(self, other: &ColumnRef<'scope, K>) -> (expr: Expr<'scope, MultiplyExpr<u8, K>, BinaryExprAst<LiteralExprAst<u8>, ColumnExprAst<K>>>)
        ensures
            expr.ast.left.value == self,
            expr.ast.op == ArithmeticOp::Multiply,
            expr.ast.right == other.ast(),
            expr.project_alias == Label::Static("expr"),
    {
        Expr::<u8, LiteralExprAst<u8>>::binary(
            Expr::<u8, LiteralExprAst<u8>>::lit(self).ast,
            ArithmeticOp::Multiply,
            other,
        )
    }
}

impl<'scope, K: ExprKind<Value = u8>, Ast: ExprAst> vstd::std_specs::ops::DivSpecImpl<Expr<'scope, K, Ast>> for u8 where HNil: HAppend<Ast::Params> {
    open spec fn obeys_div_spec() -> bool {
        false
    }

    open spec fn div_req(self, other: Expr<'scope, K, Ast>) -> bool {
        true
    }

    open spec fn div_spec(self, other: Expr<'scope, K, Ast>) -> Expr<'scope, DivideExpr<u8, K>, BinaryExprAst<LiteralExprAst<u8>, Ast>> {
        arbitrary()
    }
}

impl<'scope, K: ExprKind<Value = u8>, Ast: ExprAst> Div<Expr<'scope, K, Ast>> for u8 where HNil: HAppend<Ast::Params> {
    type Output = Expr<'scope, DivideExpr<u8, K>, BinaryExprAst<LiteralExprAst<u8>, Ast>>;

    fn div(self, other: Expr<'scope, K, Ast>) -> (expr: Expr<'scope, DivideExpr<u8, K>, BinaryExprAst<LiteralExprAst<u8>, Ast>>)
        ensures
            expr.ast.left.value == self,
            expr.ast.op == ArithmeticOp::Divide,
            expr.ast.right == other.ast,
            expr.project_alias == Label::Static("expr"),
    {
        Expr::<u8, LiteralExprAst<u8>>::binary(
            Expr::<u8, LiteralExprAst<u8>>::lit(self).ast,
            ArithmeticOp::Divide,
            other,
        )
    }
}

impl<'scope, K: ExprKind<Value = u8>> vstd::std_specs::ops::DivSpecImpl<ColumnRef<'scope, K>> for u8 {
    open spec fn obeys_div_spec() -> bool {
        false
    }

    open spec fn div_req(self, other: ColumnRef<'scope, K>) -> bool {
        true
    }

    open spec fn div_spec(self, other: ColumnRef<'scope, K>) -> Expr<'scope, DivideExpr<u8, K>, BinaryExprAst<LiteralExprAst<u8>, ColumnExprAst<K>>> {
        arbitrary()
    }
}

impl<'scope, K: ExprKind<Value = u8>> Div<ColumnRef<'scope, K>> for u8 {
    type Output = Expr<'scope, DivideExpr<u8, K>, BinaryExprAst<LiteralExprAst<u8>, ColumnExprAst<K>>>;

    fn div(self, other: ColumnRef<'scope, K>) -> (expr: Expr<'scope, DivideExpr<u8, K>, BinaryExprAst<LiteralExprAst<u8>, ColumnExprAst<K>>>)
        ensures
            expr.ast.left.value == self,
            expr.ast.op == ArithmeticOp::Divide,
            expr.ast.right == other.ast(),
            expr.project_alias == Label::Static("expr"),
    {
        Expr::<u8, LiteralExprAst<u8>>::binary(
            Expr::<u8, LiteralExprAst<u8>>::lit(self).ast,
            ArithmeticOp::Divide,
            other,
        )
    }
}

impl<'scope, K: ExprKind<Value = u8>, Ast: ExprAst> vstd::std_specs::ops::DivSpecImpl<&Expr<'scope, K, Ast>> for u8 where HNil: HAppend<Ast::Params> {
    open spec fn obeys_div_spec() -> bool {
        false
    }

    open spec fn div_req(self, other: &Expr<'scope, K, Ast>) -> bool {
        true
    }

    open spec fn div_spec(self, other: &Expr<'scope, K, Ast>) -> Expr<'scope, DivideExpr<u8, K>, BinaryExprAst<LiteralExprAst<u8>, Ast>> {
        arbitrary()
    }
}

impl<'scope, K: ExprKind<Value = u8>, Ast: ExprAst> Div<&Expr<'scope, K, Ast>> for u8 where HNil: HAppend<Ast::Params> {
    type Output = Expr<'scope, DivideExpr<u8, K>, BinaryExprAst<LiteralExprAst<u8>, Ast>>;

    fn div(self, other: &Expr<'scope, K, Ast>) -> (expr: Expr<'scope, DivideExpr<u8, K>, BinaryExprAst<LiteralExprAst<u8>, Ast>>)
        ensures
            expr.ast.left.value == self,
            expr.ast.op == ArithmeticOp::Divide,
            expr.ast.right == other.ast,
            expr.project_alias == Label::Static("expr"),
    {
        Expr::<u8, LiteralExprAst<u8>>::binary(
            Expr::<u8, LiteralExprAst<u8>>::lit(self).ast,
            ArithmeticOp::Divide,
            other,
        )
    }
}

impl<'scope, K: ExprKind<Value = u8>> vstd::std_specs::ops::DivSpecImpl<&ColumnRef<'scope, K>> for u8 {
    open spec fn obeys_div_spec() -> bool {
        false
    }

    open spec fn div_req(self, other: &ColumnRef<'scope, K>) -> bool {
        true
    }

    open spec fn div_spec(self, other: &ColumnRef<'scope, K>) -> Expr<'scope, DivideExpr<u8, K>, BinaryExprAst<LiteralExprAst<u8>, ColumnExprAst<K>>> {
        arbitrary()
    }
}

impl<'scope, K: ExprKind<Value = u8>> Div<&ColumnRef<'scope, K>> for u8 {
    type Output = Expr<'scope, DivideExpr<u8, K>, BinaryExprAst<LiteralExprAst<u8>, ColumnExprAst<K>>>;

    fn div(self, other: &ColumnRef<'scope, K>) -> (expr: Expr<'scope, DivideExpr<u8, K>, BinaryExprAst<LiteralExprAst<u8>, ColumnExprAst<K>>>)
        ensures
            expr.ast.left.value == self,
            expr.ast.op == ArithmeticOp::Divide,
            expr.ast.right == other.ast(),
            expr.project_alias == Label::Static("expr"),
    {
        Expr::<u8, LiteralExprAst<u8>>::binary(
            Expr::<u8, LiteralExprAst<u8>>::lit(self).ast,
            ArithmeticOp::Divide,
            other,
        )
    }
}

impl<'scope, K: ExprKind<Value = u16>, Ast: ExprAst> vstd::std_specs::ops::AddSpecImpl<Expr<'scope, K, Ast>> for u16 where HNil: HAppend<Ast::Params> {
    open spec fn obeys_add_spec() -> bool {
        false
    }

    open spec fn add_req(self, other: Expr<'scope, K, Ast>) -> bool {
        true
    }

    open spec fn add_spec(self, other: Expr<'scope, K, Ast>) -> Expr<'scope, AddExpr<u16, K>, BinaryExprAst<LiteralExprAst<u16>, Ast>> {
        arbitrary()
    }
}

impl<'scope, K: ExprKind<Value = u16>, Ast: ExprAst> Add<Expr<'scope, K, Ast>> for u16 where HNil: HAppend<Ast::Params> {
    type Output = Expr<'scope, AddExpr<u16, K>, BinaryExprAst<LiteralExprAst<u16>, Ast>>;

    fn add(self, other: Expr<'scope, K, Ast>) -> (expr: Expr<'scope, AddExpr<u16, K>, BinaryExprAst<LiteralExprAst<u16>, Ast>>)
        ensures
            expr.ast.left.value == self,
            expr.ast.op == ArithmeticOp::Add,
            expr.ast.right == other.ast,
            expr.project_alias == Label::Static("expr"),
    {
        Expr::<u16, LiteralExprAst<u16>>::binary(
            Expr::<u16, LiteralExprAst<u16>>::lit(self).ast,
            ArithmeticOp::Add,
            other,
        )
    }
}

impl<'scope, K: ExprKind<Value = u16>> vstd::std_specs::ops::AddSpecImpl<ColumnRef<'scope, K>> for u16 {
    open spec fn obeys_add_spec() -> bool {
        false
    }

    open spec fn add_req(self, other: ColumnRef<'scope, K>) -> bool {
        true
    }

    open spec fn add_spec(self, other: ColumnRef<'scope, K>) -> Expr<'scope, AddExpr<u16, K>, BinaryExprAst<LiteralExprAst<u16>, ColumnExprAst<K>>> {
        arbitrary()
    }
}

impl<'scope, K: ExprKind<Value = u16>> Add<ColumnRef<'scope, K>> for u16 {
    type Output = Expr<'scope, AddExpr<u16, K>, BinaryExprAst<LiteralExprAst<u16>, ColumnExprAst<K>>>;

    fn add(self, other: ColumnRef<'scope, K>) -> (expr: Expr<'scope, AddExpr<u16, K>, BinaryExprAst<LiteralExprAst<u16>, ColumnExprAst<K>>>)
        ensures
            expr.ast.left.value == self,
            expr.ast.op == ArithmeticOp::Add,
            expr.ast.right == other.ast(),
            expr.project_alias == Label::Static("expr"),
    {
        Expr::<u16, LiteralExprAst<u16>>::binary(
            Expr::<u16, LiteralExprAst<u16>>::lit(self).ast,
            ArithmeticOp::Add,
            other,
        )
    }
}

impl<'scope, K: ExprKind<Value = u16>, Ast: ExprAst> vstd::std_specs::ops::AddSpecImpl<&Expr<'scope, K, Ast>> for u16 where HNil: HAppend<Ast::Params> {
    open spec fn obeys_add_spec() -> bool {
        false
    }

    open spec fn add_req(self, other: &Expr<'scope, K, Ast>) -> bool {
        true
    }

    open spec fn add_spec(self, other: &Expr<'scope, K, Ast>) -> Expr<'scope, AddExpr<u16, K>, BinaryExprAst<LiteralExprAst<u16>, Ast>> {
        arbitrary()
    }
}

impl<'scope, K: ExprKind<Value = u16>, Ast: ExprAst> Add<&Expr<'scope, K, Ast>> for u16 where HNil: HAppend<Ast::Params> {
    type Output = Expr<'scope, AddExpr<u16, K>, BinaryExprAst<LiteralExprAst<u16>, Ast>>;

    fn add(self, other: &Expr<'scope, K, Ast>) -> (expr: Expr<'scope, AddExpr<u16, K>, BinaryExprAst<LiteralExprAst<u16>, Ast>>)
        ensures
            expr.ast.left.value == self,
            expr.ast.op == ArithmeticOp::Add,
            expr.ast.right == other.ast,
            expr.project_alias == Label::Static("expr"),
    {
        Expr::<u16, LiteralExprAst<u16>>::binary(
            Expr::<u16, LiteralExprAst<u16>>::lit(self).ast,
            ArithmeticOp::Add,
            other,
        )
    }
}

impl<'scope, K: ExprKind<Value = u16>> vstd::std_specs::ops::AddSpecImpl<&ColumnRef<'scope, K>> for u16 {
    open spec fn obeys_add_spec() -> bool {
        false
    }

    open spec fn add_req(self, other: &ColumnRef<'scope, K>) -> bool {
        true
    }

    open spec fn add_spec(self, other: &ColumnRef<'scope, K>) -> Expr<'scope, AddExpr<u16, K>, BinaryExprAst<LiteralExprAst<u16>, ColumnExprAst<K>>> {
        arbitrary()
    }
}

impl<'scope, K: ExprKind<Value = u16>> Add<&ColumnRef<'scope, K>> for u16 {
    type Output = Expr<'scope, AddExpr<u16, K>, BinaryExprAst<LiteralExprAst<u16>, ColumnExprAst<K>>>;

    fn add(self, other: &ColumnRef<'scope, K>) -> (expr: Expr<'scope, AddExpr<u16, K>, BinaryExprAst<LiteralExprAst<u16>, ColumnExprAst<K>>>)
        ensures
            expr.ast.left.value == self,
            expr.ast.op == ArithmeticOp::Add,
            expr.ast.right == other.ast(),
            expr.project_alias == Label::Static("expr"),
    {
        Expr::<u16, LiteralExprAst<u16>>::binary(
            Expr::<u16, LiteralExprAst<u16>>::lit(self).ast,
            ArithmeticOp::Add,
            other,
        )
    }
}

impl<'scope, K: ExprKind<Value = u16>, Ast: ExprAst> vstd::std_specs::ops::SubSpecImpl<Expr<'scope, K, Ast>> for u16 where HNil: HAppend<Ast::Params> {
    open spec fn obeys_sub_spec() -> bool {
        false
    }

    open spec fn sub_req(self, other: Expr<'scope, K, Ast>) -> bool {
        true
    }

    open spec fn sub_spec(self, other: Expr<'scope, K, Ast>) -> Expr<'scope, SubtractExpr<u16, K>, BinaryExprAst<LiteralExprAst<u16>, Ast>> {
        arbitrary()
    }
}

impl<'scope, K: ExprKind<Value = u16>, Ast: ExprAst> Sub<Expr<'scope, K, Ast>> for u16 where HNil: HAppend<Ast::Params> {
    type Output = Expr<'scope, SubtractExpr<u16, K>, BinaryExprAst<LiteralExprAst<u16>, Ast>>;

    fn sub(self, other: Expr<'scope, K, Ast>) -> (expr: Expr<'scope, SubtractExpr<u16, K>, BinaryExprAst<LiteralExprAst<u16>, Ast>>)
        ensures
            expr.ast.left.value == self,
            expr.ast.op == ArithmeticOp::Subtract,
            expr.ast.right == other.ast,
            expr.project_alias == Label::Static("expr"),
    {
        Expr::<u16, LiteralExprAst<u16>>::binary(
            Expr::<u16, LiteralExprAst<u16>>::lit(self).ast,
            ArithmeticOp::Subtract,
            other,
        )
    }
}

impl<'scope, K: ExprKind<Value = u16>> vstd::std_specs::ops::SubSpecImpl<ColumnRef<'scope, K>> for u16 {
    open spec fn obeys_sub_spec() -> bool {
        false
    }

    open spec fn sub_req(self, other: ColumnRef<'scope, K>) -> bool {
        true
    }

    open spec fn sub_spec(self, other: ColumnRef<'scope, K>) -> Expr<'scope, SubtractExpr<u16, K>, BinaryExprAst<LiteralExprAst<u16>, ColumnExprAst<K>>> {
        arbitrary()
    }
}

impl<'scope, K: ExprKind<Value = u16>> Sub<ColumnRef<'scope, K>> for u16 {
    type Output = Expr<'scope, SubtractExpr<u16, K>, BinaryExprAst<LiteralExprAst<u16>, ColumnExprAst<K>>>;

    fn sub(self, other: ColumnRef<'scope, K>) -> (expr: Expr<'scope, SubtractExpr<u16, K>, BinaryExprAst<LiteralExprAst<u16>, ColumnExprAst<K>>>)
        ensures
            expr.ast.left.value == self,
            expr.ast.op == ArithmeticOp::Subtract,
            expr.ast.right == other.ast(),
            expr.project_alias == Label::Static("expr"),
    {
        Expr::<u16, LiteralExprAst<u16>>::binary(
            Expr::<u16, LiteralExprAst<u16>>::lit(self).ast,
            ArithmeticOp::Subtract,
            other,
        )
    }
}

impl<'scope, K: ExprKind<Value = u16>, Ast: ExprAst> vstd::std_specs::ops::SubSpecImpl<&Expr<'scope, K, Ast>> for u16 where HNil: HAppend<Ast::Params> {
    open spec fn obeys_sub_spec() -> bool {
        false
    }

    open spec fn sub_req(self, other: &Expr<'scope, K, Ast>) -> bool {
        true
    }

    open spec fn sub_spec(self, other: &Expr<'scope, K, Ast>) -> Expr<'scope, SubtractExpr<u16, K>, BinaryExprAst<LiteralExprAst<u16>, Ast>> {
        arbitrary()
    }
}

impl<'scope, K: ExprKind<Value = u16>, Ast: ExprAst> Sub<&Expr<'scope, K, Ast>> for u16 where HNil: HAppend<Ast::Params> {
    type Output = Expr<'scope, SubtractExpr<u16, K>, BinaryExprAst<LiteralExprAst<u16>, Ast>>;

    fn sub(self, other: &Expr<'scope, K, Ast>) -> (expr: Expr<'scope, SubtractExpr<u16, K>, BinaryExprAst<LiteralExprAst<u16>, Ast>>)
        ensures
            expr.ast.left.value == self,
            expr.ast.op == ArithmeticOp::Subtract,
            expr.ast.right == other.ast,
            expr.project_alias == Label::Static("expr"),
    {
        Expr::<u16, LiteralExprAst<u16>>::binary(
            Expr::<u16, LiteralExprAst<u16>>::lit(self).ast,
            ArithmeticOp::Subtract,
            other,
        )
    }
}

impl<'scope, K: ExprKind<Value = u16>> vstd::std_specs::ops::SubSpecImpl<&ColumnRef<'scope, K>> for u16 {
    open spec fn obeys_sub_spec() -> bool {
        false
    }

    open spec fn sub_req(self, other: &ColumnRef<'scope, K>) -> bool {
        true
    }

    open spec fn sub_spec(self, other: &ColumnRef<'scope, K>) -> Expr<'scope, SubtractExpr<u16, K>, BinaryExprAst<LiteralExprAst<u16>, ColumnExprAst<K>>> {
        arbitrary()
    }
}

impl<'scope, K: ExprKind<Value = u16>> Sub<&ColumnRef<'scope, K>> for u16 {
    type Output = Expr<'scope, SubtractExpr<u16, K>, BinaryExprAst<LiteralExprAst<u16>, ColumnExprAst<K>>>;

    fn sub(self, other: &ColumnRef<'scope, K>) -> (expr: Expr<'scope, SubtractExpr<u16, K>, BinaryExprAst<LiteralExprAst<u16>, ColumnExprAst<K>>>)
        ensures
            expr.ast.left.value == self,
            expr.ast.op == ArithmeticOp::Subtract,
            expr.ast.right == other.ast(),
            expr.project_alias == Label::Static("expr"),
    {
        Expr::<u16, LiteralExprAst<u16>>::binary(
            Expr::<u16, LiteralExprAst<u16>>::lit(self).ast,
            ArithmeticOp::Subtract,
            other,
        )
    }
}

impl<'scope, K: ExprKind<Value = u16>, Ast: ExprAst> vstd::std_specs::ops::MulSpecImpl<Expr<'scope, K, Ast>> for u16 where HNil: HAppend<Ast::Params> {
    open spec fn obeys_mul_spec() -> bool {
        false
    }

    open spec fn mul_req(self, other: Expr<'scope, K, Ast>) -> bool {
        true
    }

    open spec fn mul_spec(self, other: Expr<'scope, K, Ast>) -> Expr<'scope, MultiplyExpr<u16, K>, BinaryExprAst<LiteralExprAst<u16>, Ast>> {
        arbitrary()
    }
}

impl<'scope, K: ExprKind<Value = u16>, Ast: ExprAst> Mul<Expr<'scope, K, Ast>> for u16 where HNil: HAppend<Ast::Params> {
    type Output = Expr<'scope, MultiplyExpr<u16, K>, BinaryExprAst<LiteralExprAst<u16>, Ast>>;

    fn mul(self, other: Expr<'scope, K, Ast>) -> (expr: Expr<'scope, MultiplyExpr<u16, K>, BinaryExprAst<LiteralExprAst<u16>, Ast>>)
        ensures
            expr.ast.left.value == self,
            expr.ast.op == ArithmeticOp::Multiply,
            expr.ast.right == other.ast,
            expr.project_alias == Label::Static("expr"),
    {
        Expr::<u16, LiteralExprAst<u16>>::binary(
            Expr::<u16, LiteralExprAst<u16>>::lit(self).ast,
            ArithmeticOp::Multiply,
            other,
        )
    }
}

impl<'scope, K: ExprKind<Value = u16>> vstd::std_specs::ops::MulSpecImpl<ColumnRef<'scope, K>> for u16 {
    open spec fn obeys_mul_spec() -> bool {
        false
    }

    open spec fn mul_req(self, other: ColumnRef<'scope, K>) -> bool {
        true
    }

    open spec fn mul_spec(self, other: ColumnRef<'scope, K>) -> Expr<'scope, MultiplyExpr<u16, K>, BinaryExprAst<LiteralExprAst<u16>, ColumnExprAst<K>>> {
        arbitrary()
    }
}

impl<'scope, K: ExprKind<Value = u16>> Mul<ColumnRef<'scope, K>> for u16 {
    type Output = Expr<'scope, MultiplyExpr<u16, K>, BinaryExprAst<LiteralExprAst<u16>, ColumnExprAst<K>>>;

    fn mul(self, other: ColumnRef<'scope, K>) -> (expr: Expr<'scope, MultiplyExpr<u16, K>, BinaryExprAst<LiteralExprAst<u16>, ColumnExprAst<K>>>)
        ensures
            expr.ast.left.value == self,
            expr.ast.op == ArithmeticOp::Multiply,
            expr.ast.right == other.ast(),
            expr.project_alias == Label::Static("expr"),
    {
        Expr::<u16, LiteralExprAst<u16>>::binary(
            Expr::<u16, LiteralExprAst<u16>>::lit(self).ast,
            ArithmeticOp::Multiply,
            other,
        )
    }
}

impl<'scope, K: ExprKind<Value = u16>, Ast: ExprAst> vstd::std_specs::ops::MulSpecImpl<&Expr<'scope, K, Ast>> for u16 where HNil: HAppend<Ast::Params> {
    open spec fn obeys_mul_spec() -> bool {
        false
    }

    open spec fn mul_req(self, other: &Expr<'scope, K, Ast>) -> bool {
        true
    }

    open spec fn mul_spec(self, other: &Expr<'scope, K, Ast>) -> Expr<'scope, MultiplyExpr<u16, K>, BinaryExprAst<LiteralExprAst<u16>, Ast>> {
        arbitrary()
    }
}

impl<'scope, K: ExprKind<Value = u16>, Ast: ExprAst> Mul<&Expr<'scope, K, Ast>> for u16 where HNil: HAppend<Ast::Params> {
    type Output = Expr<'scope, MultiplyExpr<u16, K>, BinaryExprAst<LiteralExprAst<u16>, Ast>>;

    fn mul(self, other: &Expr<'scope, K, Ast>) -> (expr: Expr<'scope, MultiplyExpr<u16, K>, BinaryExprAst<LiteralExprAst<u16>, Ast>>)
        ensures
            expr.ast.left.value == self,
            expr.ast.op == ArithmeticOp::Multiply,
            expr.ast.right == other.ast,
            expr.project_alias == Label::Static("expr"),
    {
        Expr::<u16, LiteralExprAst<u16>>::binary(
            Expr::<u16, LiteralExprAst<u16>>::lit(self).ast,
            ArithmeticOp::Multiply,
            other,
        )
    }
}

impl<'scope, K: ExprKind<Value = u16>> vstd::std_specs::ops::MulSpecImpl<&ColumnRef<'scope, K>> for u16 {
    open spec fn obeys_mul_spec() -> bool {
        false
    }

    open spec fn mul_req(self, other: &ColumnRef<'scope, K>) -> bool {
        true
    }

    open spec fn mul_spec(self, other: &ColumnRef<'scope, K>) -> Expr<'scope, MultiplyExpr<u16, K>, BinaryExprAst<LiteralExprAst<u16>, ColumnExprAst<K>>> {
        arbitrary()
    }
}

impl<'scope, K: ExprKind<Value = u16>> Mul<&ColumnRef<'scope, K>> for u16 {
    type Output = Expr<'scope, MultiplyExpr<u16, K>, BinaryExprAst<LiteralExprAst<u16>, ColumnExprAst<K>>>;

    fn mul(self, other: &ColumnRef<'scope, K>) -> (expr: Expr<'scope, MultiplyExpr<u16, K>, BinaryExprAst<LiteralExprAst<u16>, ColumnExprAst<K>>>)
        ensures
            expr.ast.left.value == self,
            expr.ast.op == ArithmeticOp::Multiply,
            expr.ast.right == other.ast(),
            expr.project_alias == Label::Static("expr"),
    {
        Expr::<u16, LiteralExprAst<u16>>::binary(
            Expr::<u16, LiteralExprAst<u16>>::lit(self).ast,
            ArithmeticOp::Multiply,
            other,
        )
    }
}

impl<'scope, K: ExprKind<Value = u16>, Ast: ExprAst> vstd::std_specs::ops::DivSpecImpl<Expr<'scope, K, Ast>> for u16 where HNil: HAppend<Ast::Params> {
    open spec fn obeys_div_spec() -> bool {
        false
    }

    open spec fn div_req(self, other: Expr<'scope, K, Ast>) -> bool {
        true
    }

    open spec fn div_spec(self, other: Expr<'scope, K, Ast>) -> Expr<'scope, DivideExpr<u16, K>, BinaryExprAst<LiteralExprAst<u16>, Ast>> {
        arbitrary()
    }
}

impl<'scope, K: ExprKind<Value = u16>, Ast: ExprAst> Div<Expr<'scope, K, Ast>> for u16 where HNil: HAppend<Ast::Params> {
    type Output = Expr<'scope, DivideExpr<u16, K>, BinaryExprAst<LiteralExprAst<u16>, Ast>>;

    fn div(self, other: Expr<'scope, K, Ast>) -> (expr: Expr<'scope, DivideExpr<u16, K>, BinaryExprAst<LiteralExprAst<u16>, Ast>>)
        ensures
            expr.ast.left.value == self,
            expr.ast.op == ArithmeticOp::Divide,
            expr.ast.right == other.ast,
            expr.project_alias == Label::Static("expr"),
    {
        Expr::<u16, LiteralExprAst<u16>>::binary(
            Expr::<u16, LiteralExprAst<u16>>::lit(self).ast,
            ArithmeticOp::Divide,
            other,
        )
    }
}

impl<'scope, K: ExprKind<Value = u16>> vstd::std_specs::ops::DivSpecImpl<ColumnRef<'scope, K>> for u16 {
    open spec fn obeys_div_spec() -> bool {
        false
    }

    open spec fn div_req(self, other: ColumnRef<'scope, K>) -> bool {
        true
    }

    open spec fn div_spec(self, other: ColumnRef<'scope, K>) -> Expr<'scope, DivideExpr<u16, K>, BinaryExprAst<LiteralExprAst<u16>, ColumnExprAst<K>>> {
        arbitrary()
    }
}

impl<'scope, K: ExprKind<Value = u16>> Div<ColumnRef<'scope, K>> for u16 {
    type Output = Expr<'scope, DivideExpr<u16, K>, BinaryExprAst<LiteralExprAst<u16>, ColumnExprAst<K>>>;

    fn div(self, other: ColumnRef<'scope, K>) -> (expr: Expr<'scope, DivideExpr<u16, K>, BinaryExprAst<LiteralExprAst<u16>, ColumnExprAst<K>>>)
        ensures
            expr.ast.left.value == self,
            expr.ast.op == ArithmeticOp::Divide,
            expr.ast.right == other.ast(),
            expr.project_alias == Label::Static("expr"),
    {
        Expr::<u16, LiteralExprAst<u16>>::binary(
            Expr::<u16, LiteralExprAst<u16>>::lit(self).ast,
            ArithmeticOp::Divide,
            other,
        )
    }
}

impl<'scope, K: ExprKind<Value = u16>, Ast: ExprAst> vstd::std_specs::ops::DivSpecImpl<&Expr<'scope, K, Ast>> for u16 where HNil: HAppend<Ast::Params> {
    open spec fn obeys_div_spec() -> bool {
        false
    }

    open spec fn div_req(self, other: &Expr<'scope, K, Ast>) -> bool {
        true
    }

    open spec fn div_spec(self, other: &Expr<'scope, K, Ast>) -> Expr<'scope, DivideExpr<u16, K>, BinaryExprAst<LiteralExprAst<u16>, Ast>> {
        arbitrary()
    }
}

impl<'scope, K: ExprKind<Value = u16>, Ast: ExprAst> Div<&Expr<'scope, K, Ast>> for u16 where HNil: HAppend<Ast::Params> {
    type Output = Expr<'scope, DivideExpr<u16, K>, BinaryExprAst<LiteralExprAst<u16>, Ast>>;

    fn div(self, other: &Expr<'scope, K, Ast>) -> (expr: Expr<'scope, DivideExpr<u16, K>, BinaryExprAst<LiteralExprAst<u16>, Ast>>)
        ensures
            expr.ast.left.value == self,
            expr.ast.op == ArithmeticOp::Divide,
            expr.ast.right == other.ast,
            expr.project_alias == Label::Static("expr"),
    {
        Expr::<u16, LiteralExprAst<u16>>::binary(
            Expr::<u16, LiteralExprAst<u16>>::lit(self).ast,
            ArithmeticOp::Divide,
            other,
        )
    }
}

impl<'scope, K: ExprKind<Value = u16>> vstd::std_specs::ops::DivSpecImpl<&ColumnRef<'scope, K>> for u16 {
    open spec fn obeys_div_spec() -> bool {
        false
    }

    open spec fn div_req(self, other: &ColumnRef<'scope, K>) -> bool {
        true
    }

    open spec fn div_spec(self, other: &ColumnRef<'scope, K>) -> Expr<'scope, DivideExpr<u16, K>, BinaryExprAst<LiteralExprAst<u16>, ColumnExprAst<K>>> {
        arbitrary()
    }
}

impl<'scope, K: ExprKind<Value = u16>> Div<&ColumnRef<'scope, K>> for u16 {
    type Output = Expr<'scope, DivideExpr<u16, K>, BinaryExprAst<LiteralExprAst<u16>, ColumnExprAst<K>>>;

    fn div(self, other: &ColumnRef<'scope, K>) -> (expr: Expr<'scope, DivideExpr<u16, K>, BinaryExprAst<LiteralExprAst<u16>, ColumnExprAst<K>>>)
        ensures
            expr.ast.left.value == self,
            expr.ast.op == ArithmeticOp::Divide,
            expr.ast.right == other.ast(),
            expr.project_alias == Label::Static("expr"),
    {
        Expr::<u16, LiteralExprAst<u16>>::binary(
            Expr::<u16, LiteralExprAst<u16>>::lit(self).ast,
            ArithmeticOp::Divide,
            other,
        )
    }
}

impl<'scope, K: ExprKind<Value = u32>, Ast: ExprAst> vstd::std_specs::ops::AddSpecImpl<Expr<'scope, K, Ast>> for u32 where HNil: HAppend<Ast::Params> {
    open spec fn obeys_add_spec() -> bool {
        false
    }

    open spec fn add_req(self, other: Expr<'scope, K, Ast>) -> bool {
        true
    }

    open spec fn add_spec(self, other: Expr<'scope, K, Ast>) -> Expr<'scope, AddExpr<u32, K>, BinaryExprAst<LiteralExprAst<u32>, Ast>> {
        arbitrary()
    }
}

impl<'scope, K: ExprKind<Value = u32>, Ast: ExprAst> Add<Expr<'scope, K, Ast>> for u32 where HNil: HAppend<Ast::Params> {
    type Output = Expr<'scope, AddExpr<u32, K>, BinaryExprAst<LiteralExprAst<u32>, Ast>>;

    fn add(self, other: Expr<'scope, K, Ast>) -> (expr: Expr<'scope, AddExpr<u32, K>, BinaryExprAst<LiteralExprAst<u32>, Ast>>)
        ensures
            expr.ast.left.value == self,
            expr.ast.op == ArithmeticOp::Add,
            expr.ast.right == other.ast,
            expr.project_alias == Label::Static("expr"),
    {
        Expr::<u32, LiteralExprAst<u32>>::binary(
            Expr::<u32, LiteralExprAst<u32>>::lit(self).ast,
            ArithmeticOp::Add,
            other,
        )
    }
}

impl<'scope, K: ExprKind<Value = u32>> vstd::std_specs::ops::AddSpecImpl<ColumnRef<'scope, K>> for u32 {
    open spec fn obeys_add_spec() -> bool {
        false
    }

    open spec fn add_req(self, other: ColumnRef<'scope, K>) -> bool {
        true
    }

    open spec fn add_spec(self, other: ColumnRef<'scope, K>) -> Expr<'scope, AddExpr<u32, K>, BinaryExprAst<LiteralExprAst<u32>, ColumnExprAst<K>>> {
        arbitrary()
    }
}

impl<'scope, K: ExprKind<Value = u32>> Add<ColumnRef<'scope, K>> for u32 {
    type Output = Expr<'scope, AddExpr<u32, K>, BinaryExprAst<LiteralExprAst<u32>, ColumnExprAst<K>>>;

    fn add(self, other: ColumnRef<'scope, K>) -> (expr: Expr<'scope, AddExpr<u32, K>, BinaryExprAst<LiteralExprAst<u32>, ColumnExprAst<K>>>)
        ensures
            expr.ast.left.value == self,
            expr.ast.op == ArithmeticOp::Add,
            expr.ast.right == other.ast(),
            expr.project_alias == Label::Static("expr"),
    {
        Expr::<u32, LiteralExprAst<u32>>::binary(
            Expr::<u32, LiteralExprAst<u32>>::lit(self).ast,
            ArithmeticOp::Add,
            other,
        )
    }
}

impl<'scope, K: ExprKind<Value = u32>, Ast: ExprAst> vstd::std_specs::ops::AddSpecImpl<&Expr<'scope, K, Ast>> for u32 where HNil: HAppend<Ast::Params> {
    open spec fn obeys_add_spec() -> bool {
        false
    }

    open spec fn add_req(self, other: &Expr<'scope, K, Ast>) -> bool {
        true
    }

    open spec fn add_spec(self, other: &Expr<'scope, K, Ast>) -> Expr<'scope, AddExpr<u32, K>, BinaryExprAst<LiteralExprAst<u32>, Ast>> {
        arbitrary()
    }
}

impl<'scope, K: ExprKind<Value = u32>, Ast: ExprAst> Add<&Expr<'scope, K, Ast>> for u32 where HNil: HAppend<Ast::Params> {
    type Output = Expr<'scope, AddExpr<u32, K>, BinaryExprAst<LiteralExprAst<u32>, Ast>>;

    fn add(self, other: &Expr<'scope, K, Ast>) -> (expr: Expr<'scope, AddExpr<u32, K>, BinaryExprAst<LiteralExprAst<u32>, Ast>>)
        ensures
            expr.ast.left.value == self,
            expr.ast.op == ArithmeticOp::Add,
            expr.ast.right == other.ast,
            expr.project_alias == Label::Static("expr"),
    {
        Expr::<u32, LiteralExprAst<u32>>::binary(
            Expr::<u32, LiteralExprAst<u32>>::lit(self).ast,
            ArithmeticOp::Add,
            other,
        )
    }
}

impl<'scope, K: ExprKind<Value = u32>> vstd::std_specs::ops::AddSpecImpl<&ColumnRef<'scope, K>> for u32 {
    open spec fn obeys_add_spec() -> bool {
        false
    }

    open spec fn add_req(self, other: &ColumnRef<'scope, K>) -> bool {
        true
    }

    open spec fn add_spec(self, other: &ColumnRef<'scope, K>) -> Expr<'scope, AddExpr<u32, K>, BinaryExprAst<LiteralExprAst<u32>, ColumnExprAst<K>>> {
        arbitrary()
    }
}

impl<'scope, K: ExprKind<Value = u32>> Add<&ColumnRef<'scope, K>> for u32 {
    type Output = Expr<'scope, AddExpr<u32, K>, BinaryExprAst<LiteralExprAst<u32>, ColumnExprAst<K>>>;

    fn add(self, other: &ColumnRef<'scope, K>) -> (expr: Expr<'scope, AddExpr<u32, K>, BinaryExprAst<LiteralExprAst<u32>, ColumnExprAst<K>>>)
        ensures
            expr.ast.left.value == self,
            expr.ast.op == ArithmeticOp::Add,
            expr.ast.right == other.ast(),
            expr.project_alias == Label::Static("expr"),
    {
        Expr::<u32, LiteralExprAst<u32>>::binary(
            Expr::<u32, LiteralExprAst<u32>>::lit(self).ast,
            ArithmeticOp::Add,
            other,
        )
    }
}

impl<'scope, K: ExprKind<Value = u32>, Ast: ExprAst> vstd::std_specs::ops::SubSpecImpl<Expr<'scope, K, Ast>> for u32 where HNil: HAppend<Ast::Params> {
    open spec fn obeys_sub_spec() -> bool {
        false
    }

    open spec fn sub_req(self, other: Expr<'scope, K, Ast>) -> bool {
        true
    }

    open spec fn sub_spec(self, other: Expr<'scope, K, Ast>) -> Expr<'scope, SubtractExpr<u32, K>, BinaryExprAst<LiteralExprAst<u32>, Ast>> {
        arbitrary()
    }
}

impl<'scope, K: ExprKind<Value = u32>, Ast: ExprAst> Sub<Expr<'scope, K, Ast>> for u32 where HNil: HAppend<Ast::Params> {
    type Output = Expr<'scope, SubtractExpr<u32, K>, BinaryExprAst<LiteralExprAst<u32>, Ast>>;

    fn sub(self, other: Expr<'scope, K, Ast>) -> (expr: Expr<'scope, SubtractExpr<u32, K>, BinaryExprAst<LiteralExprAst<u32>, Ast>>)
        ensures
            expr.ast.left.value == self,
            expr.ast.op == ArithmeticOp::Subtract,
            expr.ast.right == other.ast,
            expr.project_alias == Label::Static("expr"),
    {
        Expr::<u32, LiteralExprAst<u32>>::binary(
            Expr::<u32, LiteralExprAst<u32>>::lit(self).ast,
            ArithmeticOp::Subtract,
            other,
        )
    }
}

impl<'scope, K: ExprKind<Value = u32>> vstd::std_specs::ops::SubSpecImpl<ColumnRef<'scope, K>> for u32 {
    open spec fn obeys_sub_spec() -> bool {
        false
    }

    open spec fn sub_req(self, other: ColumnRef<'scope, K>) -> bool {
        true
    }

    open spec fn sub_spec(self, other: ColumnRef<'scope, K>) -> Expr<'scope, SubtractExpr<u32, K>, BinaryExprAst<LiteralExprAst<u32>, ColumnExprAst<K>>> {
        arbitrary()
    }
}

impl<'scope, K: ExprKind<Value = u32>> Sub<ColumnRef<'scope, K>> for u32 {
    type Output = Expr<'scope, SubtractExpr<u32, K>, BinaryExprAst<LiteralExprAst<u32>, ColumnExprAst<K>>>;

    fn sub(self, other: ColumnRef<'scope, K>) -> (expr: Expr<'scope, SubtractExpr<u32, K>, BinaryExprAst<LiteralExprAst<u32>, ColumnExprAst<K>>>)
        ensures
            expr.ast.left.value == self,
            expr.ast.op == ArithmeticOp::Subtract,
            expr.ast.right == other.ast(),
            expr.project_alias == Label::Static("expr"),
    {
        Expr::<u32, LiteralExprAst<u32>>::binary(
            Expr::<u32, LiteralExprAst<u32>>::lit(self).ast,
            ArithmeticOp::Subtract,
            other,
        )
    }
}

impl<'scope, K: ExprKind<Value = u32>, Ast: ExprAst> vstd::std_specs::ops::SubSpecImpl<&Expr<'scope, K, Ast>> for u32 where HNil: HAppend<Ast::Params> {
    open spec fn obeys_sub_spec() -> bool {
        false
    }

    open spec fn sub_req(self, other: &Expr<'scope, K, Ast>) -> bool {
        true
    }

    open spec fn sub_spec(self, other: &Expr<'scope, K, Ast>) -> Expr<'scope, SubtractExpr<u32, K>, BinaryExprAst<LiteralExprAst<u32>, Ast>> {
        arbitrary()
    }
}

impl<'scope, K: ExprKind<Value = u32>, Ast: ExprAst> Sub<&Expr<'scope, K, Ast>> for u32 where HNil: HAppend<Ast::Params> {
    type Output = Expr<'scope, SubtractExpr<u32, K>, BinaryExprAst<LiteralExprAst<u32>, Ast>>;

    fn sub(self, other: &Expr<'scope, K, Ast>) -> (expr: Expr<'scope, SubtractExpr<u32, K>, BinaryExprAst<LiteralExprAst<u32>, Ast>>)
        ensures
            expr.ast.left.value == self,
            expr.ast.op == ArithmeticOp::Subtract,
            expr.ast.right == other.ast,
            expr.project_alias == Label::Static("expr"),
    {
        Expr::<u32, LiteralExprAst<u32>>::binary(
            Expr::<u32, LiteralExprAst<u32>>::lit(self).ast,
            ArithmeticOp::Subtract,
            other,
        )
    }
}

impl<'scope, K: ExprKind<Value = u32>> vstd::std_specs::ops::SubSpecImpl<&ColumnRef<'scope, K>> for u32 {
    open spec fn obeys_sub_spec() -> bool {
        false
    }

    open spec fn sub_req(self, other: &ColumnRef<'scope, K>) -> bool {
        true
    }

    open spec fn sub_spec(self, other: &ColumnRef<'scope, K>) -> Expr<'scope, SubtractExpr<u32, K>, BinaryExprAst<LiteralExprAst<u32>, ColumnExprAst<K>>> {
        arbitrary()
    }
}

impl<'scope, K: ExprKind<Value = u32>> Sub<&ColumnRef<'scope, K>> for u32 {
    type Output = Expr<'scope, SubtractExpr<u32, K>, BinaryExprAst<LiteralExprAst<u32>, ColumnExprAst<K>>>;

    fn sub(self, other: &ColumnRef<'scope, K>) -> (expr: Expr<'scope, SubtractExpr<u32, K>, BinaryExprAst<LiteralExprAst<u32>, ColumnExprAst<K>>>)
        ensures
            expr.ast.left.value == self,
            expr.ast.op == ArithmeticOp::Subtract,
            expr.ast.right == other.ast(),
            expr.project_alias == Label::Static("expr"),
    {
        Expr::<u32, LiteralExprAst<u32>>::binary(
            Expr::<u32, LiteralExprAst<u32>>::lit(self).ast,
            ArithmeticOp::Subtract,
            other,
        )
    }
}

impl<'scope, K: ExprKind<Value = u32>, Ast: ExprAst> vstd::std_specs::ops::MulSpecImpl<Expr<'scope, K, Ast>> for u32 where HNil: HAppend<Ast::Params> {
    open spec fn obeys_mul_spec() -> bool {
        false
    }

    open spec fn mul_req(self, other: Expr<'scope, K, Ast>) -> bool {
        true
    }

    open spec fn mul_spec(self, other: Expr<'scope, K, Ast>) -> Expr<'scope, MultiplyExpr<u32, K>, BinaryExprAst<LiteralExprAst<u32>, Ast>> {
        arbitrary()
    }
}

impl<'scope, K: ExprKind<Value = u32>, Ast: ExprAst> Mul<Expr<'scope, K, Ast>> for u32 where HNil: HAppend<Ast::Params> {
    type Output = Expr<'scope, MultiplyExpr<u32, K>, BinaryExprAst<LiteralExprAst<u32>, Ast>>;

    fn mul(self, other: Expr<'scope, K, Ast>) -> (expr: Expr<'scope, MultiplyExpr<u32, K>, BinaryExprAst<LiteralExprAst<u32>, Ast>>)
        ensures
            expr.ast.left.value == self,
            expr.ast.op == ArithmeticOp::Multiply,
            expr.ast.right == other.ast,
            expr.project_alias == Label::Static("expr"),
    {
        Expr::<u32, LiteralExprAst<u32>>::binary(
            Expr::<u32, LiteralExprAst<u32>>::lit(self).ast,
            ArithmeticOp::Multiply,
            other,
        )
    }
}

impl<'scope, K: ExprKind<Value = u32>> vstd::std_specs::ops::MulSpecImpl<ColumnRef<'scope, K>> for u32 {
    open spec fn obeys_mul_spec() -> bool {
        false
    }

    open spec fn mul_req(self, other: ColumnRef<'scope, K>) -> bool {
        true
    }

    open spec fn mul_spec(self, other: ColumnRef<'scope, K>) -> Expr<'scope, MultiplyExpr<u32, K>, BinaryExprAst<LiteralExprAst<u32>, ColumnExprAst<K>>> {
        arbitrary()
    }
}

impl<'scope, K: ExprKind<Value = u32>> Mul<ColumnRef<'scope, K>> for u32 {
    type Output = Expr<'scope, MultiplyExpr<u32, K>, BinaryExprAst<LiteralExprAst<u32>, ColumnExprAst<K>>>;

    fn mul(self, other: ColumnRef<'scope, K>) -> (expr: Expr<'scope, MultiplyExpr<u32, K>, BinaryExprAst<LiteralExprAst<u32>, ColumnExprAst<K>>>)
        ensures
            expr.ast.left.value == self,
            expr.ast.op == ArithmeticOp::Multiply,
            expr.ast.right == other.ast(),
            expr.project_alias == Label::Static("expr"),
    {
        Expr::<u32, LiteralExprAst<u32>>::binary(
            Expr::<u32, LiteralExprAst<u32>>::lit(self).ast,
            ArithmeticOp::Multiply,
            other,
        )
    }
}

impl<'scope, K: ExprKind<Value = u32>, Ast: ExprAst> vstd::std_specs::ops::MulSpecImpl<&Expr<'scope, K, Ast>> for u32 where HNil: HAppend<Ast::Params> {
    open spec fn obeys_mul_spec() -> bool {
        false
    }

    open spec fn mul_req(self, other: &Expr<'scope, K, Ast>) -> bool {
        true
    }

    open spec fn mul_spec(self, other: &Expr<'scope, K, Ast>) -> Expr<'scope, MultiplyExpr<u32, K>, BinaryExprAst<LiteralExprAst<u32>, Ast>> {
        arbitrary()
    }
}

impl<'scope, K: ExprKind<Value = u32>, Ast: ExprAst> Mul<&Expr<'scope, K, Ast>> for u32 where HNil: HAppend<Ast::Params> {
    type Output = Expr<'scope, MultiplyExpr<u32, K>, BinaryExprAst<LiteralExprAst<u32>, Ast>>;

    fn mul(self, other: &Expr<'scope, K, Ast>) -> (expr: Expr<'scope, MultiplyExpr<u32, K>, BinaryExprAst<LiteralExprAst<u32>, Ast>>)
        ensures
            expr.ast.left.value == self,
            expr.ast.op == ArithmeticOp::Multiply,
            expr.ast.right == other.ast,
            expr.project_alias == Label::Static("expr"),
    {
        Expr::<u32, LiteralExprAst<u32>>::binary(
            Expr::<u32, LiteralExprAst<u32>>::lit(self).ast,
            ArithmeticOp::Multiply,
            other,
        )
    }
}

impl<'scope, K: ExprKind<Value = u32>> vstd::std_specs::ops::MulSpecImpl<&ColumnRef<'scope, K>> for u32 {
    open spec fn obeys_mul_spec() -> bool {
        false
    }

    open spec fn mul_req(self, other: &ColumnRef<'scope, K>) -> bool {
        true
    }

    open spec fn mul_spec(self, other: &ColumnRef<'scope, K>) -> Expr<'scope, MultiplyExpr<u32, K>, BinaryExprAst<LiteralExprAst<u32>, ColumnExprAst<K>>> {
        arbitrary()
    }
}

impl<'scope, K: ExprKind<Value = u32>> Mul<&ColumnRef<'scope, K>> for u32 {
    type Output = Expr<'scope, MultiplyExpr<u32, K>, BinaryExprAst<LiteralExprAst<u32>, ColumnExprAst<K>>>;

    fn mul(self, other: &ColumnRef<'scope, K>) -> (expr: Expr<'scope, MultiplyExpr<u32, K>, BinaryExprAst<LiteralExprAst<u32>, ColumnExprAst<K>>>)
        ensures
            expr.ast.left.value == self,
            expr.ast.op == ArithmeticOp::Multiply,
            expr.ast.right == other.ast(),
            expr.project_alias == Label::Static("expr"),
    {
        Expr::<u32, LiteralExprAst<u32>>::binary(
            Expr::<u32, LiteralExprAst<u32>>::lit(self).ast,
            ArithmeticOp::Multiply,
            other,
        )
    }
}

impl<'scope, K: ExprKind<Value = u32>, Ast: ExprAst> vstd::std_specs::ops::DivSpecImpl<Expr<'scope, K, Ast>> for u32 where HNil: HAppend<Ast::Params> {
    open spec fn obeys_div_spec() -> bool {
        false
    }

    open spec fn div_req(self, other: Expr<'scope, K, Ast>) -> bool {
        true
    }

    open spec fn div_spec(self, other: Expr<'scope, K, Ast>) -> Expr<'scope, DivideExpr<u32, K>, BinaryExprAst<LiteralExprAst<u32>, Ast>> {
        arbitrary()
    }
}

impl<'scope, K: ExprKind<Value = u32>, Ast: ExprAst> Div<Expr<'scope, K, Ast>> for u32 where HNil: HAppend<Ast::Params> {
    type Output = Expr<'scope, DivideExpr<u32, K>, BinaryExprAst<LiteralExprAst<u32>, Ast>>;

    fn div(self, other: Expr<'scope, K, Ast>) -> (expr: Expr<'scope, DivideExpr<u32, K>, BinaryExprAst<LiteralExprAst<u32>, Ast>>)
        ensures
            expr.ast.left.value == self,
            expr.ast.op == ArithmeticOp::Divide,
            expr.ast.right == other.ast,
            expr.project_alias == Label::Static("expr"),
    {
        Expr::<u32, LiteralExprAst<u32>>::binary(
            Expr::<u32, LiteralExprAst<u32>>::lit(self).ast,
            ArithmeticOp::Divide,
            other,
        )
    }
}

impl<'scope, K: ExprKind<Value = u32>> vstd::std_specs::ops::DivSpecImpl<ColumnRef<'scope, K>> for u32 {
    open spec fn obeys_div_spec() -> bool {
        false
    }

    open spec fn div_req(self, other: ColumnRef<'scope, K>) -> bool {
        true
    }

    open spec fn div_spec(self, other: ColumnRef<'scope, K>) -> Expr<'scope, DivideExpr<u32, K>, BinaryExprAst<LiteralExprAst<u32>, ColumnExprAst<K>>> {
        arbitrary()
    }
}

impl<'scope, K: ExprKind<Value = u32>> Div<ColumnRef<'scope, K>> for u32 {
    type Output = Expr<'scope, DivideExpr<u32, K>, BinaryExprAst<LiteralExprAst<u32>, ColumnExprAst<K>>>;

    fn div(self, other: ColumnRef<'scope, K>) -> (expr: Expr<'scope, DivideExpr<u32, K>, BinaryExprAst<LiteralExprAst<u32>, ColumnExprAst<K>>>)
        ensures
            expr.ast.left.value == self,
            expr.ast.op == ArithmeticOp::Divide,
            expr.ast.right == other.ast(),
            expr.project_alias == Label::Static("expr"),
    {
        Expr::<u32, LiteralExprAst<u32>>::binary(
            Expr::<u32, LiteralExprAst<u32>>::lit(self).ast,
            ArithmeticOp::Divide,
            other,
        )
    }
}

impl<'scope, K: ExprKind<Value = u32>, Ast: ExprAst> vstd::std_specs::ops::DivSpecImpl<&Expr<'scope, K, Ast>> for u32 where HNil: HAppend<Ast::Params> {
    open spec fn obeys_div_spec() -> bool {
        false
    }

    open spec fn div_req(self, other: &Expr<'scope, K, Ast>) -> bool {
        true
    }

    open spec fn div_spec(self, other: &Expr<'scope, K, Ast>) -> Expr<'scope, DivideExpr<u32, K>, BinaryExprAst<LiteralExprAst<u32>, Ast>> {
        arbitrary()
    }
}

impl<'scope, K: ExprKind<Value = u32>, Ast: ExprAst> Div<&Expr<'scope, K, Ast>> for u32 where HNil: HAppend<Ast::Params> {
    type Output = Expr<'scope, DivideExpr<u32, K>, BinaryExprAst<LiteralExprAst<u32>, Ast>>;

    fn div(self, other: &Expr<'scope, K, Ast>) -> (expr: Expr<'scope, DivideExpr<u32, K>, BinaryExprAst<LiteralExprAst<u32>, Ast>>)
        ensures
            expr.ast.left.value == self,
            expr.ast.op == ArithmeticOp::Divide,
            expr.ast.right == other.ast,
            expr.project_alias == Label::Static("expr"),
    {
        Expr::<u32, LiteralExprAst<u32>>::binary(
            Expr::<u32, LiteralExprAst<u32>>::lit(self).ast,
            ArithmeticOp::Divide,
            other,
        )
    }
}

impl<'scope, K: ExprKind<Value = u32>> vstd::std_specs::ops::DivSpecImpl<&ColumnRef<'scope, K>> for u32 {
    open spec fn obeys_div_spec() -> bool {
        false
    }

    open spec fn div_req(self, other: &ColumnRef<'scope, K>) -> bool {
        true
    }

    open spec fn div_spec(self, other: &ColumnRef<'scope, K>) -> Expr<'scope, DivideExpr<u32, K>, BinaryExprAst<LiteralExprAst<u32>, ColumnExprAst<K>>> {
        arbitrary()
    }
}

impl<'scope, K: ExprKind<Value = u32>> Div<&ColumnRef<'scope, K>> for u32 {
    type Output = Expr<'scope, DivideExpr<u32, K>, BinaryExprAst<LiteralExprAst<u32>, ColumnExprAst<K>>>;

    fn div(self, other: &ColumnRef<'scope, K>) -> (expr: Expr<'scope, DivideExpr<u32, K>, BinaryExprAst<LiteralExprAst<u32>, ColumnExprAst<K>>>)
        ensures
            expr.ast.left.value == self,
            expr.ast.op == ArithmeticOp::Divide,
            expr.ast.right == other.ast(),
            expr.project_alias == Label::Static("expr"),
    {
        Expr::<u32, LiteralExprAst<u32>>::binary(
            Expr::<u32, LiteralExprAst<u32>>::lit(self).ast,
            ArithmeticOp::Divide,
            other,
        )
    }
}

impl<'scope, K: ExprKind<Value = u64>, Ast: ExprAst> vstd::std_specs::ops::AddSpecImpl<Expr<'scope, K, Ast>> for u64 where HNil: HAppend<Ast::Params> {
    open spec fn obeys_add_spec() -> bool {
        false
    }

    open spec fn add_req(self, other: Expr<'scope, K, Ast>) -> bool {
        true
    }

    open spec fn add_spec(self, other: Expr<'scope, K, Ast>) -> Expr<'scope, AddExpr<u64, K>, BinaryExprAst<LiteralExprAst<u64>, Ast>> {
        arbitrary()
    }
}

impl<'scope, K: ExprKind<Value = u64>, Ast: ExprAst> Add<Expr<'scope, K, Ast>> for u64 where HNil: HAppend<Ast::Params> {
    type Output = Expr<'scope, AddExpr<u64, K>, BinaryExprAst<LiteralExprAst<u64>, Ast>>;

    fn add(self, other: Expr<'scope, K, Ast>) -> (expr: Expr<'scope, AddExpr<u64, K>, BinaryExprAst<LiteralExprAst<u64>, Ast>>)
        ensures
            expr.ast.left.value == self,
            expr.ast.op == ArithmeticOp::Add,
            expr.ast.right == other.ast,
            expr.project_alias == Label::Static("expr"),
    {
        Expr::<u64, LiteralExprAst<u64>>::binary(
            Expr::<u64, LiteralExprAst<u64>>::lit(self).ast,
            ArithmeticOp::Add,
            other,
        )
    }
}

impl<'scope, K: ExprKind<Value = u64>> vstd::std_specs::ops::AddSpecImpl<ColumnRef<'scope, K>> for u64 {
    open spec fn obeys_add_spec() -> bool {
        false
    }

    open spec fn add_req(self, other: ColumnRef<'scope, K>) -> bool {
        true
    }

    open spec fn add_spec(self, other: ColumnRef<'scope, K>) -> Expr<'scope, AddExpr<u64, K>, BinaryExprAst<LiteralExprAst<u64>, ColumnExprAst<K>>> {
        arbitrary()
    }
}

impl<'scope, K: ExprKind<Value = u64>> Add<ColumnRef<'scope, K>> for u64 {
    type Output = Expr<'scope, AddExpr<u64, K>, BinaryExprAst<LiteralExprAst<u64>, ColumnExprAst<K>>>;

    fn add(self, other: ColumnRef<'scope, K>) -> (expr: Expr<'scope, AddExpr<u64, K>, BinaryExprAst<LiteralExprAst<u64>, ColumnExprAst<K>>>)
        ensures
            expr.ast.left.value == self,
            expr.ast.op == ArithmeticOp::Add,
            expr.ast.right == other.ast(),
            expr.project_alias == Label::Static("expr"),
    {
        Expr::<u64, LiteralExprAst<u64>>::binary(
            Expr::<u64, LiteralExprAst<u64>>::lit(self).ast,
            ArithmeticOp::Add,
            other,
        )
    }
}

impl<'scope, K: ExprKind<Value = u64>, Ast: ExprAst> vstd::std_specs::ops::AddSpecImpl<&Expr<'scope, K, Ast>> for u64 where HNil: HAppend<Ast::Params> {
    open spec fn obeys_add_spec() -> bool {
        false
    }

    open spec fn add_req(self, other: &Expr<'scope, K, Ast>) -> bool {
        true
    }

    open spec fn add_spec(self, other: &Expr<'scope, K, Ast>) -> Expr<'scope, AddExpr<u64, K>, BinaryExprAst<LiteralExprAst<u64>, Ast>> {
        arbitrary()
    }
}

impl<'scope, K: ExprKind<Value = u64>, Ast: ExprAst> Add<&Expr<'scope, K, Ast>> for u64 where HNil: HAppend<Ast::Params> {
    type Output = Expr<'scope, AddExpr<u64, K>, BinaryExprAst<LiteralExprAst<u64>, Ast>>;

    fn add(self, other: &Expr<'scope, K, Ast>) -> (expr: Expr<'scope, AddExpr<u64, K>, BinaryExprAst<LiteralExprAst<u64>, Ast>>)
        ensures
            expr.ast.left.value == self,
            expr.ast.op == ArithmeticOp::Add,
            expr.ast.right == other.ast,
            expr.project_alias == Label::Static("expr"),
    {
        Expr::<u64, LiteralExprAst<u64>>::binary(
            Expr::<u64, LiteralExprAst<u64>>::lit(self).ast,
            ArithmeticOp::Add,
            other,
        )
    }
}

impl<'scope, K: ExprKind<Value = u64>> vstd::std_specs::ops::AddSpecImpl<&ColumnRef<'scope, K>> for u64 {
    open spec fn obeys_add_spec() -> bool {
        false
    }

    open spec fn add_req(self, other: &ColumnRef<'scope, K>) -> bool {
        true
    }

    open spec fn add_spec(self, other: &ColumnRef<'scope, K>) -> Expr<'scope, AddExpr<u64, K>, BinaryExprAst<LiteralExprAst<u64>, ColumnExprAst<K>>> {
        arbitrary()
    }
}

impl<'scope, K: ExprKind<Value = u64>> Add<&ColumnRef<'scope, K>> for u64 {
    type Output = Expr<'scope, AddExpr<u64, K>, BinaryExprAst<LiteralExprAst<u64>, ColumnExprAst<K>>>;

    fn add(self, other: &ColumnRef<'scope, K>) -> (expr: Expr<'scope, AddExpr<u64, K>, BinaryExprAst<LiteralExprAst<u64>, ColumnExprAst<K>>>)
        ensures
            expr.ast.left.value == self,
            expr.ast.op == ArithmeticOp::Add,
            expr.ast.right == other.ast(),
            expr.project_alias == Label::Static("expr"),
    {
        Expr::<u64, LiteralExprAst<u64>>::binary(
            Expr::<u64, LiteralExprAst<u64>>::lit(self).ast,
            ArithmeticOp::Add,
            other,
        )
    }
}

impl<'scope, K: ExprKind<Value = u64>, Ast: ExprAst> vstd::std_specs::ops::SubSpecImpl<Expr<'scope, K, Ast>> for u64 where HNil: HAppend<Ast::Params> {
    open spec fn obeys_sub_spec() -> bool {
        false
    }

    open spec fn sub_req(self, other: Expr<'scope, K, Ast>) -> bool {
        true
    }

    open spec fn sub_spec(self, other: Expr<'scope, K, Ast>) -> Expr<'scope, SubtractExpr<u64, K>, BinaryExprAst<LiteralExprAst<u64>, Ast>> {
        arbitrary()
    }
}

impl<'scope, K: ExprKind<Value = u64>, Ast: ExprAst> Sub<Expr<'scope, K, Ast>> for u64 where HNil: HAppend<Ast::Params> {
    type Output = Expr<'scope, SubtractExpr<u64, K>, BinaryExprAst<LiteralExprAst<u64>, Ast>>;

    fn sub(self, other: Expr<'scope, K, Ast>) -> (expr: Expr<'scope, SubtractExpr<u64, K>, BinaryExprAst<LiteralExprAst<u64>, Ast>>)
        ensures
            expr.ast.left.value == self,
            expr.ast.op == ArithmeticOp::Subtract,
            expr.ast.right == other.ast,
            expr.project_alias == Label::Static("expr"),
    {
        Expr::<u64, LiteralExprAst<u64>>::binary(
            Expr::<u64, LiteralExprAst<u64>>::lit(self).ast,
            ArithmeticOp::Subtract,
            other,
        )
    }
}

impl<'scope, K: ExprKind<Value = u64>> vstd::std_specs::ops::SubSpecImpl<ColumnRef<'scope, K>> for u64 {
    open spec fn obeys_sub_spec() -> bool {
        false
    }

    open spec fn sub_req(self, other: ColumnRef<'scope, K>) -> bool {
        true
    }

    open spec fn sub_spec(self, other: ColumnRef<'scope, K>) -> Expr<'scope, SubtractExpr<u64, K>, BinaryExprAst<LiteralExprAst<u64>, ColumnExprAst<K>>> {
        arbitrary()
    }
}

impl<'scope, K: ExprKind<Value = u64>> Sub<ColumnRef<'scope, K>> for u64 {
    type Output = Expr<'scope, SubtractExpr<u64, K>, BinaryExprAst<LiteralExprAst<u64>, ColumnExprAst<K>>>;

    fn sub(self, other: ColumnRef<'scope, K>) -> (expr: Expr<'scope, SubtractExpr<u64, K>, BinaryExprAst<LiteralExprAst<u64>, ColumnExprAst<K>>>)
        ensures
            expr.ast.left.value == self,
            expr.ast.op == ArithmeticOp::Subtract,
            expr.ast.right == other.ast(),
            expr.project_alias == Label::Static("expr"),
    {
        Expr::<u64, LiteralExprAst<u64>>::binary(
            Expr::<u64, LiteralExprAst<u64>>::lit(self).ast,
            ArithmeticOp::Subtract,
            other,
        )
    }
}

impl<'scope, K: ExprKind<Value = u64>, Ast: ExprAst> vstd::std_specs::ops::SubSpecImpl<&Expr<'scope, K, Ast>> for u64 where HNil: HAppend<Ast::Params> {
    open spec fn obeys_sub_spec() -> bool {
        false
    }

    open spec fn sub_req(self, other: &Expr<'scope, K, Ast>) -> bool {
        true
    }

    open spec fn sub_spec(self, other: &Expr<'scope, K, Ast>) -> Expr<'scope, SubtractExpr<u64, K>, BinaryExprAst<LiteralExprAst<u64>, Ast>> {
        arbitrary()
    }
}

impl<'scope, K: ExprKind<Value = u64>, Ast: ExprAst> Sub<&Expr<'scope, K, Ast>> for u64 where HNil: HAppend<Ast::Params> {
    type Output = Expr<'scope, SubtractExpr<u64, K>, BinaryExprAst<LiteralExprAst<u64>, Ast>>;

    fn sub(self, other: &Expr<'scope, K, Ast>) -> (expr: Expr<'scope, SubtractExpr<u64, K>, BinaryExprAst<LiteralExprAst<u64>, Ast>>)
        ensures
            expr.ast.left.value == self,
            expr.ast.op == ArithmeticOp::Subtract,
            expr.ast.right == other.ast,
            expr.project_alias == Label::Static("expr"),
    {
        Expr::<u64, LiteralExprAst<u64>>::binary(
            Expr::<u64, LiteralExprAst<u64>>::lit(self).ast,
            ArithmeticOp::Subtract,
            other,
        )
    }
}

impl<'scope, K: ExprKind<Value = u64>> vstd::std_specs::ops::SubSpecImpl<&ColumnRef<'scope, K>> for u64 {
    open spec fn obeys_sub_spec() -> bool {
        false
    }

    open spec fn sub_req(self, other: &ColumnRef<'scope, K>) -> bool {
        true
    }

    open spec fn sub_spec(self, other: &ColumnRef<'scope, K>) -> Expr<'scope, SubtractExpr<u64, K>, BinaryExprAst<LiteralExprAst<u64>, ColumnExprAst<K>>> {
        arbitrary()
    }
}

impl<'scope, K: ExprKind<Value = u64>> Sub<&ColumnRef<'scope, K>> for u64 {
    type Output = Expr<'scope, SubtractExpr<u64, K>, BinaryExprAst<LiteralExprAst<u64>, ColumnExprAst<K>>>;

    fn sub(self, other: &ColumnRef<'scope, K>) -> (expr: Expr<'scope, SubtractExpr<u64, K>, BinaryExprAst<LiteralExprAst<u64>, ColumnExprAst<K>>>)
        ensures
            expr.ast.left.value == self,
            expr.ast.op == ArithmeticOp::Subtract,
            expr.ast.right == other.ast(),
            expr.project_alias == Label::Static("expr"),
    {
        Expr::<u64, LiteralExprAst<u64>>::binary(
            Expr::<u64, LiteralExprAst<u64>>::lit(self).ast,
            ArithmeticOp::Subtract,
            other,
        )
    }
}

impl<'scope, K: ExprKind<Value = u64>, Ast: ExprAst> vstd::std_specs::ops::MulSpecImpl<Expr<'scope, K, Ast>> for u64 where HNil: HAppend<Ast::Params> {
    open spec fn obeys_mul_spec() -> bool {
        false
    }

    open spec fn mul_req(self, other: Expr<'scope, K, Ast>) -> bool {
        true
    }

    open spec fn mul_spec(self, other: Expr<'scope, K, Ast>) -> Expr<'scope, MultiplyExpr<u64, K>, BinaryExprAst<LiteralExprAst<u64>, Ast>> {
        arbitrary()
    }
}

impl<'scope, K: ExprKind<Value = u64>, Ast: ExprAst> Mul<Expr<'scope, K, Ast>> for u64 where HNil: HAppend<Ast::Params> {
    type Output = Expr<'scope, MultiplyExpr<u64, K>, BinaryExprAst<LiteralExprAst<u64>, Ast>>;

    fn mul(self, other: Expr<'scope, K, Ast>) -> (expr: Expr<'scope, MultiplyExpr<u64, K>, BinaryExprAst<LiteralExprAst<u64>, Ast>>)
        ensures
            expr.ast.left.value == self,
            expr.ast.op == ArithmeticOp::Multiply,
            expr.ast.right == other.ast,
            expr.project_alias == Label::Static("expr"),
    {
        Expr::<u64, LiteralExprAst<u64>>::binary(
            Expr::<u64, LiteralExprAst<u64>>::lit(self).ast,
            ArithmeticOp::Multiply,
            other,
        )
    }
}

impl<'scope, K: ExprKind<Value = u64>> vstd::std_specs::ops::MulSpecImpl<ColumnRef<'scope, K>> for u64 {
    open spec fn obeys_mul_spec() -> bool {
        false
    }

    open spec fn mul_req(self, other: ColumnRef<'scope, K>) -> bool {
        true
    }

    open spec fn mul_spec(self, other: ColumnRef<'scope, K>) -> Expr<'scope, MultiplyExpr<u64, K>, BinaryExprAst<LiteralExprAst<u64>, ColumnExprAst<K>>> {
        arbitrary()
    }
}

impl<'scope, K: ExprKind<Value = u64>> Mul<ColumnRef<'scope, K>> for u64 {
    type Output = Expr<'scope, MultiplyExpr<u64, K>, BinaryExprAst<LiteralExprAst<u64>, ColumnExprAst<K>>>;

    fn mul(self, other: ColumnRef<'scope, K>) -> (expr: Expr<'scope, MultiplyExpr<u64, K>, BinaryExprAst<LiteralExprAst<u64>, ColumnExprAst<K>>>)
        ensures
            expr.ast.left.value == self,
            expr.ast.op == ArithmeticOp::Multiply,
            expr.ast.right == other.ast(),
            expr.project_alias == Label::Static("expr"),
    {
        Expr::<u64, LiteralExprAst<u64>>::binary(
            Expr::<u64, LiteralExprAst<u64>>::lit(self).ast,
            ArithmeticOp::Multiply,
            other,
        )
    }
}

impl<'scope, K: ExprKind<Value = u64>, Ast: ExprAst> vstd::std_specs::ops::MulSpecImpl<&Expr<'scope, K, Ast>> for u64 where HNil: HAppend<Ast::Params> {
    open spec fn obeys_mul_spec() -> bool {
        false
    }

    open spec fn mul_req(self, other: &Expr<'scope, K, Ast>) -> bool {
        true
    }

    open spec fn mul_spec(self, other: &Expr<'scope, K, Ast>) -> Expr<'scope, MultiplyExpr<u64, K>, BinaryExprAst<LiteralExprAst<u64>, Ast>> {
        arbitrary()
    }
}

impl<'scope, K: ExprKind<Value = u64>, Ast: ExprAst> Mul<&Expr<'scope, K, Ast>> for u64 where HNil: HAppend<Ast::Params> {
    type Output = Expr<'scope, MultiplyExpr<u64, K>, BinaryExprAst<LiteralExprAst<u64>, Ast>>;

    fn mul(self, other: &Expr<'scope, K, Ast>) -> (expr: Expr<'scope, MultiplyExpr<u64, K>, BinaryExprAst<LiteralExprAst<u64>, Ast>>)
        ensures
            expr.ast.left.value == self,
            expr.ast.op == ArithmeticOp::Multiply,
            expr.ast.right == other.ast,
            expr.project_alias == Label::Static("expr"),
    {
        Expr::<u64, LiteralExprAst<u64>>::binary(
            Expr::<u64, LiteralExprAst<u64>>::lit(self).ast,
            ArithmeticOp::Multiply,
            other,
        )
    }
}

impl<'scope, K: ExprKind<Value = u64>> vstd::std_specs::ops::MulSpecImpl<&ColumnRef<'scope, K>> for u64 {
    open spec fn obeys_mul_spec() -> bool {
        false
    }

    open spec fn mul_req(self, other: &ColumnRef<'scope, K>) -> bool {
        true
    }

    open spec fn mul_spec(self, other: &ColumnRef<'scope, K>) -> Expr<'scope, MultiplyExpr<u64, K>, BinaryExprAst<LiteralExprAst<u64>, ColumnExprAst<K>>> {
        arbitrary()
    }
}

impl<'scope, K: ExprKind<Value = u64>> Mul<&ColumnRef<'scope, K>> for u64 {
    type Output = Expr<'scope, MultiplyExpr<u64, K>, BinaryExprAst<LiteralExprAst<u64>, ColumnExprAst<K>>>;

    fn mul(self, other: &ColumnRef<'scope, K>) -> (expr: Expr<'scope, MultiplyExpr<u64, K>, BinaryExprAst<LiteralExprAst<u64>, ColumnExprAst<K>>>)
        ensures
            expr.ast.left.value == self,
            expr.ast.op == ArithmeticOp::Multiply,
            expr.ast.right == other.ast(),
            expr.project_alias == Label::Static("expr"),
    {
        Expr::<u64, LiteralExprAst<u64>>::binary(
            Expr::<u64, LiteralExprAst<u64>>::lit(self).ast,
            ArithmeticOp::Multiply,
            other,
        )
    }
}

impl<'scope, K: ExprKind<Value = u64>, Ast: ExprAst> vstd::std_specs::ops::DivSpecImpl<Expr<'scope, K, Ast>> for u64 where HNil: HAppend<Ast::Params> {
    open spec fn obeys_div_spec() -> bool {
        false
    }

    open spec fn div_req(self, other: Expr<'scope, K, Ast>) -> bool {
        true
    }

    open spec fn div_spec(self, other: Expr<'scope, K, Ast>) -> Expr<'scope, DivideExpr<u64, K>, BinaryExprAst<LiteralExprAst<u64>, Ast>> {
        arbitrary()
    }
}

impl<'scope, K: ExprKind<Value = u64>, Ast: ExprAst> Div<Expr<'scope, K, Ast>> for u64 where HNil: HAppend<Ast::Params> {
    type Output = Expr<'scope, DivideExpr<u64, K>, BinaryExprAst<LiteralExprAst<u64>, Ast>>;

    fn div(self, other: Expr<'scope, K, Ast>) -> (expr: Expr<'scope, DivideExpr<u64, K>, BinaryExprAst<LiteralExprAst<u64>, Ast>>)
        ensures
            expr.ast.left.value == self,
            expr.ast.op == ArithmeticOp::Divide,
            expr.ast.right == other.ast,
            expr.project_alias == Label::Static("expr"),
    {
        Expr::<u64, LiteralExprAst<u64>>::binary(
            Expr::<u64, LiteralExprAst<u64>>::lit(self).ast,
            ArithmeticOp::Divide,
            other,
        )
    }
}

impl<'scope, K: ExprKind<Value = u64>> vstd::std_specs::ops::DivSpecImpl<ColumnRef<'scope, K>> for u64 {
    open spec fn obeys_div_spec() -> bool {
        false
    }

    open spec fn div_req(self, other: ColumnRef<'scope, K>) -> bool {
        true
    }

    open spec fn div_spec(self, other: ColumnRef<'scope, K>) -> Expr<'scope, DivideExpr<u64, K>, BinaryExprAst<LiteralExprAst<u64>, ColumnExprAst<K>>> {
        arbitrary()
    }
}

impl<'scope, K: ExprKind<Value = u64>> Div<ColumnRef<'scope, K>> for u64 {
    type Output = Expr<'scope, DivideExpr<u64, K>, BinaryExprAst<LiteralExprAst<u64>, ColumnExprAst<K>>>;

    fn div(self, other: ColumnRef<'scope, K>) -> (expr: Expr<'scope, DivideExpr<u64, K>, BinaryExprAst<LiteralExprAst<u64>, ColumnExprAst<K>>>)
        ensures
            expr.ast.left.value == self,
            expr.ast.op == ArithmeticOp::Divide,
            expr.ast.right == other.ast(),
            expr.project_alias == Label::Static("expr"),
    {
        Expr::<u64, LiteralExprAst<u64>>::binary(
            Expr::<u64, LiteralExprAst<u64>>::lit(self).ast,
            ArithmeticOp::Divide,
            other,
        )
    }
}

impl<'scope, K: ExprKind<Value = u64>, Ast: ExprAst> vstd::std_specs::ops::DivSpecImpl<&Expr<'scope, K, Ast>> for u64 where HNil: HAppend<Ast::Params> {
    open spec fn obeys_div_spec() -> bool {
        false
    }

    open spec fn div_req(self, other: &Expr<'scope, K, Ast>) -> bool {
        true
    }

    open spec fn div_spec(self, other: &Expr<'scope, K, Ast>) -> Expr<'scope, DivideExpr<u64, K>, BinaryExprAst<LiteralExprAst<u64>, Ast>> {
        arbitrary()
    }
}

impl<'scope, K: ExprKind<Value = u64>, Ast: ExprAst> Div<&Expr<'scope, K, Ast>> for u64 where HNil: HAppend<Ast::Params> {
    type Output = Expr<'scope, DivideExpr<u64, K>, BinaryExprAst<LiteralExprAst<u64>, Ast>>;

    fn div(self, other: &Expr<'scope, K, Ast>) -> (expr: Expr<'scope, DivideExpr<u64, K>, BinaryExprAst<LiteralExprAst<u64>, Ast>>)
        ensures
            expr.ast.left.value == self,
            expr.ast.op == ArithmeticOp::Divide,
            expr.ast.right == other.ast,
            expr.project_alias == Label::Static("expr"),
    {
        Expr::<u64, LiteralExprAst<u64>>::binary(
            Expr::<u64, LiteralExprAst<u64>>::lit(self).ast,
            ArithmeticOp::Divide,
            other,
        )
    }
}

impl<'scope, K: ExprKind<Value = u64>> vstd::std_specs::ops::DivSpecImpl<&ColumnRef<'scope, K>> for u64 {
    open spec fn obeys_div_spec() -> bool {
        false
    }

    open spec fn div_req(self, other: &ColumnRef<'scope, K>) -> bool {
        true
    }

    open spec fn div_spec(self, other: &ColumnRef<'scope, K>) -> Expr<'scope, DivideExpr<u64, K>, BinaryExprAst<LiteralExprAst<u64>, ColumnExprAst<K>>> {
        arbitrary()
    }
}

impl<'scope, K: ExprKind<Value = u64>> Div<&ColumnRef<'scope, K>> for u64 {
    type Output = Expr<'scope, DivideExpr<u64, K>, BinaryExprAst<LiteralExprAst<u64>, ColumnExprAst<K>>>;

    fn div(self, other: &ColumnRef<'scope, K>) -> (expr: Expr<'scope, DivideExpr<u64, K>, BinaryExprAst<LiteralExprAst<u64>, ColumnExprAst<K>>>)
        ensures
            expr.ast.left.value == self,
            expr.ast.op == ArithmeticOp::Divide,
            expr.ast.right == other.ast(),
            expr.project_alias == Label::Static("expr"),
    {
        Expr::<u64, LiteralExprAst<u64>>::binary(
            Expr::<u64, LiteralExprAst<u64>>::lit(self).ast,
            ArithmeticOp::Divide,
            other,
        )
    }
}

impl<'scope, K: ExprKind<Value = u128>, Ast: ExprAst> vstd::std_specs::ops::AddSpecImpl<Expr<'scope, K, Ast>> for u128 where HNil: HAppend<Ast::Params> {
    open spec fn obeys_add_spec() -> bool {
        false
    }

    open spec fn add_req(self, other: Expr<'scope, K, Ast>) -> bool {
        true
    }

    open spec fn add_spec(self, other: Expr<'scope, K, Ast>) -> Expr<'scope, AddExpr<u128, K>, BinaryExprAst<LiteralExprAst<u128>, Ast>> {
        arbitrary()
    }
}

impl<'scope, K: ExprKind<Value = u128>, Ast: ExprAst> Add<Expr<'scope, K, Ast>> for u128 where HNil: HAppend<Ast::Params> {
    type Output = Expr<'scope, AddExpr<u128, K>, BinaryExprAst<LiteralExprAst<u128>, Ast>>;

    fn add(self, other: Expr<'scope, K, Ast>) -> (expr: Expr<'scope, AddExpr<u128, K>, BinaryExprAst<LiteralExprAst<u128>, Ast>>)
        ensures
            expr.ast.left.value == self,
            expr.ast.op == ArithmeticOp::Add,
            expr.ast.right == other.ast,
            expr.project_alias == Label::Static("expr"),
    {
        Expr::<u128, LiteralExprAst<u128>>::binary(
            Expr::<u128, LiteralExprAst<u128>>::lit(self).ast,
            ArithmeticOp::Add,
            other,
        )
    }
}

impl<'scope, K: ExprKind<Value = u128>> vstd::std_specs::ops::AddSpecImpl<ColumnRef<'scope, K>> for u128 {
    open spec fn obeys_add_spec() -> bool {
        false
    }

    open spec fn add_req(self, other: ColumnRef<'scope, K>) -> bool {
        true
    }

    open spec fn add_spec(self, other: ColumnRef<'scope, K>) -> Expr<'scope, AddExpr<u128, K>, BinaryExprAst<LiteralExprAst<u128>, ColumnExprAst<K>>> {
        arbitrary()
    }
}

impl<'scope, K: ExprKind<Value = u128>> Add<ColumnRef<'scope, K>> for u128 {
    type Output = Expr<'scope, AddExpr<u128, K>, BinaryExprAst<LiteralExprAst<u128>, ColumnExprAst<K>>>;

    fn add(self, other: ColumnRef<'scope, K>) -> (expr: Expr<'scope, AddExpr<u128, K>, BinaryExprAst<LiteralExprAst<u128>, ColumnExprAst<K>>>)
        ensures
            expr.ast.left.value == self,
            expr.ast.op == ArithmeticOp::Add,
            expr.ast.right == other.ast(),
            expr.project_alias == Label::Static("expr"),
    {
        Expr::<u128, LiteralExprAst<u128>>::binary(
            Expr::<u128, LiteralExprAst<u128>>::lit(self).ast,
            ArithmeticOp::Add,
            other,
        )
    }
}

impl<'scope, K: ExprKind<Value = u128>, Ast: ExprAst> vstd::std_specs::ops::AddSpecImpl<&Expr<'scope, K, Ast>> for u128 where HNil: HAppend<Ast::Params> {
    open spec fn obeys_add_spec() -> bool {
        false
    }

    open spec fn add_req(self, other: &Expr<'scope, K, Ast>) -> bool {
        true
    }

    open spec fn add_spec(self, other: &Expr<'scope, K, Ast>) -> Expr<'scope, AddExpr<u128, K>, BinaryExprAst<LiteralExprAst<u128>, Ast>> {
        arbitrary()
    }
}

impl<'scope, K: ExprKind<Value = u128>, Ast: ExprAst> Add<&Expr<'scope, K, Ast>> for u128 where HNil: HAppend<Ast::Params> {
    type Output = Expr<'scope, AddExpr<u128, K>, BinaryExprAst<LiteralExprAst<u128>, Ast>>;

    fn add(self, other: &Expr<'scope, K, Ast>) -> (expr: Expr<'scope, AddExpr<u128, K>, BinaryExprAst<LiteralExprAst<u128>, Ast>>)
        ensures
            expr.ast.left.value == self,
            expr.ast.op == ArithmeticOp::Add,
            expr.ast.right == other.ast,
            expr.project_alias == Label::Static("expr"),
    {
        Expr::<u128, LiteralExprAst<u128>>::binary(
            Expr::<u128, LiteralExprAst<u128>>::lit(self).ast,
            ArithmeticOp::Add,
            other,
        )
    }
}

impl<'scope, K: ExprKind<Value = u128>> vstd::std_specs::ops::AddSpecImpl<&ColumnRef<'scope, K>> for u128 {
    open spec fn obeys_add_spec() -> bool {
        false
    }

    open spec fn add_req(self, other: &ColumnRef<'scope, K>) -> bool {
        true
    }

    open spec fn add_spec(self, other: &ColumnRef<'scope, K>) -> Expr<'scope, AddExpr<u128, K>, BinaryExprAst<LiteralExprAst<u128>, ColumnExprAst<K>>> {
        arbitrary()
    }
}

impl<'scope, K: ExprKind<Value = u128>> Add<&ColumnRef<'scope, K>> for u128 {
    type Output = Expr<'scope, AddExpr<u128, K>, BinaryExprAst<LiteralExprAst<u128>, ColumnExprAst<K>>>;

    fn add(self, other: &ColumnRef<'scope, K>) -> (expr: Expr<'scope, AddExpr<u128, K>, BinaryExprAst<LiteralExprAst<u128>, ColumnExprAst<K>>>)
        ensures
            expr.ast.left.value == self,
            expr.ast.op == ArithmeticOp::Add,
            expr.ast.right == other.ast(),
            expr.project_alias == Label::Static("expr"),
    {
        Expr::<u128, LiteralExprAst<u128>>::binary(
            Expr::<u128, LiteralExprAst<u128>>::lit(self).ast,
            ArithmeticOp::Add,
            other,
        )
    }
}

impl<'scope, K: ExprKind<Value = u128>, Ast: ExprAst> vstd::std_specs::ops::SubSpecImpl<Expr<'scope, K, Ast>> for u128 where HNil: HAppend<Ast::Params> {
    open spec fn obeys_sub_spec() -> bool {
        false
    }

    open spec fn sub_req(self, other: Expr<'scope, K, Ast>) -> bool {
        true
    }

    open spec fn sub_spec(self, other: Expr<'scope, K, Ast>) -> Expr<'scope, SubtractExpr<u128, K>, BinaryExprAst<LiteralExprAst<u128>, Ast>> {
        arbitrary()
    }
}

impl<'scope, K: ExprKind<Value = u128>, Ast: ExprAst> Sub<Expr<'scope, K, Ast>> for u128 where HNil: HAppend<Ast::Params> {
    type Output = Expr<'scope, SubtractExpr<u128, K>, BinaryExprAst<LiteralExprAst<u128>, Ast>>;

    fn sub(self, other: Expr<'scope, K, Ast>) -> (expr: Expr<'scope, SubtractExpr<u128, K>, BinaryExprAst<LiteralExprAst<u128>, Ast>>)
        ensures
            expr.ast.left.value == self,
            expr.ast.op == ArithmeticOp::Subtract,
            expr.ast.right == other.ast,
            expr.project_alias == Label::Static("expr"),
    {
        Expr::<u128, LiteralExprAst<u128>>::binary(
            Expr::<u128, LiteralExprAst<u128>>::lit(self).ast,
            ArithmeticOp::Subtract,
            other,
        )
    }
}

impl<'scope, K: ExprKind<Value = u128>> vstd::std_specs::ops::SubSpecImpl<ColumnRef<'scope, K>> for u128 {
    open spec fn obeys_sub_spec() -> bool {
        false
    }

    open spec fn sub_req(self, other: ColumnRef<'scope, K>) -> bool {
        true
    }

    open spec fn sub_spec(self, other: ColumnRef<'scope, K>) -> Expr<'scope, SubtractExpr<u128, K>, BinaryExprAst<LiteralExprAst<u128>, ColumnExprAst<K>>> {
        arbitrary()
    }
}

impl<'scope, K: ExprKind<Value = u128>> Sub<ColumnRef<'scope, K>> for u128 {
    type Output = Expr<'scope, SubtractExpr<u128, K>, BinaryExprAst<LiteralExprAst<u128>, ColumnExprAst<K>>>;

    fn sub(self, other: ColumnRef<'scope, K>) -> (expr: Expr<'scope, SubtractExpr<u128, K>, BinaryExprAst<LiteralExprAst<u128>, ColumnExprAst<K>>>)
        ensures
            expr.ast.left.value == self,
            expr.ast.op == ArithmeticOp::Subtract,
            expr.ast.right == other.ast(),
            expr.project_alias == Label::Static("expr"),
    {
        Expr::<u128, LiteralExprAst<u128>>::binary(
            Expr::<u128, LiteralExprAst<u128>>::lit(self).ast,
            ArithmeticOp::Subtract,
            other,
        )
    }
}

impl<'scope, K: ExprKind<Value = u128>, Ast: ExprAst> vstd::std_specs::ops::SubSpecImpl<&Expr<'scope, K, Ast>> for u128 where HNil: HAppend<Ast::Params> {
    open spec fn obeys_sub_spec() -> bool {
        false
    }

    open spec fn sub_req(self, other: &Expr<'scope, K, Ast>) -> bool {
        true
    }

    open spec fn sub_spec(self, other: &Expr<'scope, K, Ast>) -> Expr<'scope, SubtractExpr<u128, K>, BinaryExprAst<LiteralExprAst<u128>, Ast>> {
        arbitrary()
    }
}

impl<'scope, K: ExprKind<Value = u128>, Ast: ExprAst> Sub<&Expr<'scope, K, Ast>> for u128 where HNil: HAppend<Ast::Params> {
    type Output = Expr<'scope, SubtractExpr<u128, K>, BinaryExprAst<LiteralExprAst<u128>, Ast>>;

    fn sub(self, other: &Expr<'scope, K, Ast>) -> (expr: Expr<'scope, SubtractExpr<u128, K>, BinaryExprAst<LiteralExprAst<u128>, Ast>>)
        ensures
            expr.ast.left.value == self,
            expr.ast.op == ArithmeticOp::Subtract,
            expr.ast.right == other.ast,
            expr.project_alias == Label::Static("expr"),
    {
        Expr::<u128, LiteralExprAst<u128>>::binary(
            Expr::<u128, LiteralExprAst<u128>>::lit(self).ast,
            ArithmeticOp::Subtract,
            other,
        )
    }
}

impl<'scope, K: ExprKind<Value = u128>> vstd::std_specs::ops::SubSpecImpl<&ColumnRef<'scope, K>> for u128 {
    open spec fn obeys_sub_spec() -> bool {
        false
    }

    open spec fn sub_req(self, other: &ColumnRef<'scope, K>) -> bool {
        true
    }

    open spec fn sub_spec(self, other: &ColumnRef<'scope, K>) -> Expr<'scope, SubtractExpr<u128, K>, BinaryExprAst<LiteralExprAst<u128>, ColumnExprAst<K>>> {
        arbitrary()
    }
}

impl<'scope, K: ExprKind<Value = u128>> Sub<&ColumnRef<'scope, K>> for u128 {
    type Output = Expr<'scope, SubtractExpr<u128, K>, BinaryExprAst<LiteralExprAst<u128>, ColumnExprAst<K>>>;

    fn sub(self, other: &ColumnRef<'scope, K>) -> (expr: Expr<'scope, SubtractExpr<u128, K>, BinaryExprAst<LiteralExprAst<u128>, ColumnExprAst<K>>>)
        ensures
            expr.ast.left.value == self,
            expr.ast.op == ArithmeticOp::Subtract,
            expr.ast.right == other.ast(),
            expr.project_alias == Label::Static("expr"),
    {
        Expr::<u128, LiteralExprAst<u128>>::binary(
            Expr::<u128, LiteralExprAst<u128>>::lit(self).ast,
            ArithmeticOp::Subtract,
            other,
        )
    }
}

impl<'scope, K: ExprKind<Value = u128>, Ast: ExprAst> vstd::std_specs::ops::MulSpecImpl<Expr<'scope, K, Ast>> for u128 where HNil: HAppend<Ast::Params> {
    open spec fn obeys_mul_spec() -> bool {
        false
    }

    open spec fn mul_req(self, other: Expr<'scope, K, Ast>) -> bool {
        true
    }

    open spec fn mul_spec(self, other: Expr<'scope, K, Ast>) -> Expr<'scope, MultiplyExpr<u128, K>, BinaryExprAst<LiteralExprAst<u128>, Ast>> {
        arbitrary()
    }
}

impl<'scope, K: ExprKind<Value = u128>, Ast: ExprAst> Mul<Expr<'scope, K, Ast>> for u128 where HNil: HAppend<Ast::Params> {
    type Output = Expr<'scope, MultiplyExpr<u128, K>, BinaryExprAst<LiteralExprAst<u128>, Ast>>;

    fn mul(self, other: Expr<'scope, K, Ast>) -> (expr: Expr<'scope, MultiplyExpr<u128, K>, BinaryExprAst<LiteralExprAst<u128>, Ast>>)
        ensures
            expr.ast.left.value == self,
            expr.ast.op == ArithmeticOp::Multiply,
            expr.ast.right == other.ast,
            expr.project_alias == Label::Static("expr"),
    {
        Expr::<u128, LiteralExprAst<u128>>::binary(
            Expr::<u128, LiteralExprAst<u128>>::lit(self).ast,
            ArithmeticOp::Multiply,
            other,
        )
    }
}

impl<'scope, K: ExprKind<Value = u128>> vstd::std_specs::ops::MulSpecImpl<ColumnRef<'scope, K>> for u128 {
    open spec fn obeys_mul_spec() -> bool {
        false
    }

    open spec fn mul_req(self, other: ColumnRef<'scope, K>) -> bool {
        true
    }

    open spec fn mul_spec(self, other: ColumnRef<'scope, K>) -> Expr<'scope, MultiplyExpr<u128, K>, BinaryExprAst<LiteralExprAst<u128>, ColumnExprAst<K>>> {
        arbitrary()
    }
}

impl<'scope, K: ExprKind<Value = u128>> Mul<ColumnRef<'scope, K>> for u128 {
    type Output = Expr<'scope, MultiplyExpr<u128, K>, BinaryExprAst<LiteralExprAst<u128>, ColumnExprAst<K>>>;

    fn mul(self, other: ColumnRef<'scope, K>) -> (expr: Expr<'scope, MultiplyExpr<u128, K>, BinaryExprAst<LiteralExprAst<u128>, ColumnExprAst<K>>>)
        ensures
            expr.ast.left.value == self,
            expr.ast.op == ArithmeticOp::Multiply,
            expr.ast.right == other.ast(),
            expr.project_alias == Label::Static("expr"),
    {
        Expr::<u128, LiteralExprAst<u128>>::binary(
            Expr::<u128, LiteralExprAst<u128>>::lit(self).ast,
            ArithmeticOp::Multiply,
            other,
        )
    }
}

impl<'scope, K: ExprKind<Value = u128>, Ast: ExprAst> vstd::std_specs::ops::MulSpecImpl<&Expr<'scope, K, Ast>> for u128 where HNil: HAppend<Ast::Params> {
    open spec fn obeys_mul_spec() -> bool {
        false
    }

    open spec fn mul_req(self, other: &Expr<'scope, K, Ast>) -> bool {
        true
    }

    open spec fn mul_spec(self, other: &Expr<'scope, K, Ast>) -> Expr<'scope, MultiplyExpr<u128, K>, BinaryExprAst<LiteralExprAst<u128>, Ast>> {
        arbitrary()
    }
}

impl<'scope, K: ExprKind<Value = u128>, Ast: ExprAst> Mul<&Expr<'scope, K, Ast>> for u128 where HNil: HAppend<Ast::Params> {
    type Output = Expr<'scope, MultiplyExpr<u128, K>, BinaryExprAst<LiteralExprAst<u128>, Ast>>;

    fn mul(self, other: &Expr<'scope, K, Ast>) -> (expr: Expr<'scope, MultiplyExpr<u128, K>, BinaryExprAst<LiteralExprAst<u128>, Ast>>)
        ensures
            expr.ast.left.value == self,
            expr.ast.op == ArithmeticOp::Multiply,
            expr.ast.right == other.ast,
            expr.project_alias == Label::Static("expr"),
    {
        Expr::<u128, LiteralExprAst<u128>>::binary(
            Expr::<u128, LiteralExprAst<u128>>::lit(self).ast,
            ArithmeticOp::Multiply,
            other,
        )
    }
}

impl<'scope, K: ExprKind<Value = u128>> vstd::std_specs::ops::MulSpecImpl<&ColumnRef<'scope, K>> for u128 {
    open spec fn obeys_mul_spec() -> bool {
        false
    }

    open spec fn mul_req(self, other: &ColumnRef<'scope, K>) -> bool {
        true
    }

    open spec fn mul_spec(self, other: &ColumnRef<'scope, K>) -> Expr<'scope, MultiplyExpr<u128, K>, BinaryExprAst<LiteralExprAst<u128>, ColumnExprAst<K>>> {
        arbitrary()
    }
}

impl<'scope, K: ExprKind<Value = u128>> Mul<&ColumnRef<'scope, K>> for u128 {
    type Output = Expr<'scope, MultiplyExpr<u128, K>, BinaryExprAst<LiteralExprAst<u128>, ColumnExprAst<K>>>;

    fn mul(self, other: &ColumnRef<'scope, K>) -> (expr: Expr<'scope, MultiplyExpr<u128, K>, BinaryExprAst<LiteralExprAst<u128>, ColumnExprAst<K>>>)
        ensures
            expr.ast.left.value == self,
            expr.ast.op == ArithmeticOp::Multiply,
            expr.ast.right == other.ast(),
            expr.project_alias == Label::Static("expr"),
    {
        Expr::<u128, LiteralExprAst<u128>>::binary(
            Expr::<u128, LiteralExprAst<u128>>::lit(self).ast,
            ArithmeticOp::Multiply,
            other,
        )
    }
}

impl<'scope, K: ExprKind<Value = u128>, Ast: ExprAst> vstd::std_specs::ops::DivSpecImpl<Expr<'scope, K, Ast>> for u128 where HNil: HAppend<Ast::Params> {
    open spec fn obeys_div_spec() -> bool {
        false
    }

    open spec fn div_req(self, other: Expr<'scope, K, Ast>) -> bool {
        true
    }

    open spec fn div_spec(self, other: Expr<'scope, K, Ast>) -> Expr<'scope, DivideExpr<u128, K>, BinaryExprAst<LiteralExprAst<u128>, Ast>> {
        arbitrary()
    }
}

impl<'scope, K: ExprKind<Value = u128>, Ast: ExprAst> Div<Expr<'scope, K, Ast>> for u128 where HNil: HAppend<Ast::Params> {
    type Output = Expr<'scope, DivideExpr<u128, K>, BinaryExprAst<LiteralExprAst<u128>, Ast>>;

    fn div(self, other: Expr<'scope, K, Ast>) -> (expr: Expr<'scope, DivideExpr<u128, K>, BinaryExprAst<LiteralExprAst<u128>, Ast>>)
        ensures
            expr.ast.left.value == self,
            expr.ast.op == ArithmeticOp::Divide,
            expr.ast.right == other.ast,
            expr.project_alias == Label::Static("expr"),
    {
        Expr::<u128, LiteralExprAst<u128>>::binary(
            Expr::<u128, LiteralExprAst<u128>>::lit(self).ast,
            ArithmeticOp::Divide,
            other,
        )
    }
}

impl<'scope, K: ExprKind<Value = u128>> vstd::std_specs::ops::DivSpecImpl<ColumnRef<'scope, K>> for u128 {
    open spec fn obeys_div_spec() -> bool {
        false
    }

    open spec fn div_req(self, other: ColumnRef<'scope, K>) -> bool {
        true
    }

    open spec fn div_spec(self, other: ColumnRef<'scope, K>) -> Expr<'scope, DivideExpr<u128, K>, BinaryExprAst<LiteralExprAst<u128>, ColumnExprAst<K>>> {
        arbitrary()
    }
}

impl<'scope, K: ExprKind<Value = u128>> Div<ColumnRef<'scope, K>> for u128 {
    type Output = Expr<'scope, DivideExpr<u128, K>, BinaryExprAst<LiteralExprAst<u128>, ColumnExprAst<K>>>;

    fn div(self, other: ColumnRef<'scope, K>) -> (expr: Expr<'scope, DivideExpr<u128, K>, BinaryExprAst<LiteralExprAst<u128>, ColumnExprAst<K>>>)
        ensures
            expr.ast.left.value == self,
            expr.ast.op == ArithmeticOp::Divide,
            expr.ast.right == other.ast(),
            expr.project_alias == Label::Static("expr"),
    {
        Expr::<u128, LiteralExprAst<u128>>::binary(
            Expr::<u128, LiteralExprAst<u128>>::lit(self).ast,
            ArithmeticOp::Divide,
            other,
        )
    }
}

impl<'scope, K: ExprKind<Value = u128>, Ast: ExprAst> vstd::std_specs::ops::DivSpecImpl<&Expr<'scope, K, Ast>> for u128 where HNil: HAppend<Ast::Params> {
    open spec fn obeys_div_spec() -> bool {
        false
    }

    open spec fn div_req(self, other: &Expr<'scope, K, Ast>) -> bool {
        true
    }

    open spec fn div_spec(self, other: &Expr<'scope, K, Ast>) -> Expr<'scope, DivideExpr<u128, K>, BinaryExprAst<LiteralExprAst<u128>, Ast>> {
        arbitrary()
    }
}

impl<'scope, K: ExprKind<Value = u128>, Ast: ExprAst> Div<&Expr<'scope, K, Ast>> for u128 where HNil: HAppend<Ast::Params> {
    type Output = Expr<'scope, DivideExpr<u128, K>, BinaryExprAst<LiteralExprAst<u128>, Ast>>;

    fn div(self, other: &Expr<'scope, K, Ast>) -> (expr: Expr<'scope, DivideExpr<u128, K>, BinaryExprAst<LiteralExprAst<u128>, Ast>>)
        ensures
            expr.ast.left.value == self,
            expr.ast.op == ArithmeticOp::Divide,
            expr.ast.right == other.ast,
            expr.project_alias == Label::Static("expr"),
    {
        Expr::<u128, LiteralExprAst<u128>>::binary(
            Expr::<u128, LiteralExprAst<u128>>::lit(self).ast,
            ArithmeticOp::Divide,
            other,
        )
    }
}

impl<'scope, K: ExprKind<Value = u128>> vstd::std_specs::ops::DivSpecImpl<&ColumnRef<'scope, K>> for u128 {
    open spec fn obeys_div_spec() -> bool {
        false
    }

    open spec fn div_req(self, other: &ColumnRef<'scope, K>) -> bool {
        true
    }

    open spec fn div_spec(self, other: &ColumnRef<'scope, K>) -> Expr<'scope, DivideExpr<u128, K>, BinaryExprAst<LiteralExprAst<u128>, ColumnExprAst<K>>> {
        arbitrary()
    }
}

impl<'scope, K: ExprKind<Value = u128>> Div<&ColumnRef<'scope, K>> for u128 {
    type Output = Expr<'scope, DivideExpr<u128, K>, BinaryExprAst<LiteralExprAst<u128>, ColumnExprAst<K>>>;

    fn div(self, other: &ColumnRef<'scope, K>) -> (expr: Expr<'scope, DivideExpr<u128, K>, BinaryExprAst<LiteralExprAst<u128>, ColumnExprAst<K>>>)
        ensures
            expr.ast.left.value == self,
            expr.ast.op == ArithmeticOp::Divide,
            expr.ast.right == other.ast(),
            expr.project_alias == Label::Static("expr"),
    {
        Expr::<u128, LiteralExprAst<u128>>::binary(
            Expr::<u128, LiteralExprAst<u128>>::lit(self).ast,
            ArithmeticOp::Divide,
            other,
        )
    }
}

impl<'scope, K: ExprKind<Value = usize>, Ast: ExprAst> vstd::std_specs::ops::AddSpecImpl<Expr<'scope, K, Ast>> for usize where HNil: HAppend<Ast::Params> {
    open spec fn obeys_add_spec() -> bool {
        false
    }

    open spec fn add_req(self, other: Expr<'scope, K, Ast>) -> bool {
        true
    }

    open spec fn add_spec(self, other: Expr<'scope, K, Ast>) -> Expr<'scope, AddExpr<usize, K>, BinaryExprAst<LiteralExprAst<usize>, Ast>> {
        arbitrary()
    }
}

impl<'scope, K: ExprKind<Value = usize>, Ast: ExprAst> Add<Expr<'scope, K, Ast>> for usize where HNil: HAppend<Ast::Params> {
    type Output = Expr<'scope, AddExpr<usize, K>, BinaryExprAst<LiteralExprAst<usize>, Ast>>;

    fn add(self, other: Expr<'scope, K, Ast>) -> (expr: Expr<'scope, AddExpr<usize, K>, BinaryExprAst<LiteralExprAst<usize>, Ast>>)
        ensures
            expr.ast.left.value == self,
            expr.ast.op == ArithmeticOp::Add,
            expr.ast.right == other.ast,
            expr.project_alias == Label::Static("expr"),
    {
        Expr::<usize, LiteralExprAst<usize>>::binary(
            Expr::<usize, LiteralExprAst<usize>>::lit(self).ast,
            ArithmeticOp::Add,
            other,
        )
    }
}

impl<'scope, K: ExprKind<Value = usize>> vstd::std_specs::ops::AddSpecImpl<ColumnRef<'scope, K>> for usize {
    open spec fn obeys_add_spec() -> bool {
        false
    }

    open spec fn add_req(self, other: ColumnRef<'scope, K>) -> bool {
        true
    }

    open spec fn add_spec(self, other: ColumnRef<'scope, K>) -> Expr<'scope, AddExpr<usize, K>, BinaryExprAst<LiteralExprAst<usize>, ColumnExprAst<K>>> {
        arbitrary()
    }
}

impl<'scope, K: ExprKind<Value = usize>> Add<ColumnRef<'scope, K>> for usize {
    type Output = Expr<'scope, AddExpr<usize, K>, BinaryExprAst<LiteralExprAst<usize>, ColumnExprAst<K>>>;

    fn add(self, other: ColumnRef<'scope, K>) -> (expr: Expr<'scope, AddExpr<usize, K>, BinaryExprAst<LiteralExprAst<usize>, ColumnExprAst<K>>>)
        ensures
            expr.ast.left.value == self,
            expr.ast.op == ArithmeticOp::Add,
            expr.ast.right == other.ast(),
            expr.project_alias == Label::Static("expr"),
    {
        Expr::<usize, LiteralExprAst<usize>>::binary(
            Expr::<usize, LiteralExprAst<usize>>::lit(self).ast,
            ArithmeticOp::Add,
            other,
        )
    }
}

impl<'scope, K: ExprKind<Value = usize>, Ast: ExprAst> vstd::std_specs::ops::AddSpecImpl<&Expr<'scope, K, Ast>> for usize where HNil: HAppend<Ast::Params> {
    open spec fn obeys_add_spec() -> bool {
        false
    }

    open spec fn add_req(self, other: &Expr<'scope, K, Ast>) -> bool {
        true
    }

    open spec fn add_spec(self, other: &Expr<'scope, K, Ast>) -> Expr<'scope, AddExpr<usize, K>, BinaryExprAst<LiteralExprAst<usize>, Ast>> {
        arbitrary()
    }
}

impl<'scope, K: ExprKind<Value = usize>, Ast: ExprAst> Add<&Expr<'scope, K, Ast>> for usize where HNil: HAppend<Ast::Params> {
    type Output = Expr<'scope, AddExpr<usize, K>, BinaryExprAst<LiteralExprAst<usize>, Ast>>;

    fn add(self, other: &Expr<'scope, K, Ast>) -> (expr: Expr<'scope, AddExpr<usize, K>, BinaryExprAst<LiteralExprAst<usize>, Ast>>)
        ensures
            expr.ast.left.value == self,
            expr.ast.op == ArithmeticOp::Add,
            expr.ast.right == other.ast,
            expr.project_alias == Label::Static("expr"),
    {
        Expr::<usize, LiteralExprAst<usize>>::binary(
            Expr::<usize, LiteralExprAst<usize>>::lit(self).ast,
            ArithmeticOp::Add,
            other,
        )
    }
}

impl<'scope, K: ExprKind<Value = usize>> vstd::std_specs::ops::AddSpecImpl<&ColumnRef<'scope, K>> for usize {
    open spec fn obeys_add_spec() -> bool {
        false
    }

    open spec fn add_req(self, other: &ColumnRef<'scope, K>) -> bool {
        true
    }

    open spec fn add_spec(self, other: &ColumnRef<'scope, K>) -> Expr<'scope, AddExpr<usize, K>, BinaryExprAst<LiteralExprAst<usize>, ColumnExprAst<K>>> {
        arbitrary()
    }
}

impl<'scope, K: ExprKind<Value = usize>> Add<&ColumnRef<'scope, K>> for usize {
    type Output = Expr<'scope, AddExpr<usize, K>, BinaryExprAst<LiteralExprAst<usize>, ColumnExprAst<K>>>;

    fn add(self, other: &ColumnRef<'scope, K>) -> (expr: Expr<'scope, AddExpr<usize, K>, BinaryExprAst<LiteralExprAst<usize>, ColumnExprAst<K>>>)
        ensures
            expr.ast.left.value == self,
            expr.ast.op == ArithmeticOp::Add,
            expr.ast.right == other.ast(),
            expr.project_alias == Label::Static("expr"),
    {
        Expr::<usize, LiteralExprAst<usize>>::binary(
            Expr::<usize, LiteralExprAst<usize>>::lit(self).ast,
            ArithmeticOp::Add,
            other,
        )
    }
}

impl<'scope, K: ExprKind<Value = usize>, Ast: ExprAst> vstd::std_specs::ops::SubSpecImpl<Expr<'scope, K, Ast>> for usize where HNil: HAppend<Ast::Params> {
    open spec fn obeys_sub_spec() -> bool {
        false
    }

    open spec fn sub_req(self, other: Expr<'scope, K, Ast>) -> bool {
        true
    }

    open spec fn sub_spec(self, other: Expr<'scope, K, Ast>) -> Expr<'scope, SubtractExpr<usize, K>, BinaryExprAst<LiteralExprAst<usize>, Ast>> {
        arbitrary()
    }
}

impl<'scope, K: ExprKind<Value = usize>, Ast: ExprAst> Sub<Expr<'scope, K, Ast>> for usize where HNil: HAppend<Ast::Params> {
    type Output = Expr<'scope, SubtractExpr<usize, K>, BinaryExprAst<LiteralExprAst<usize>, Ast>>;

    fn sub(self, other: Expr<'scope, K, Ast>) -> (expr: Expr<'scope, SubtractExpr<usize, K>, BinaryExprAst<LiteralExprAst<usize>, Ast>>)
        ensures
            expr.ast.left.value == self,
            expr.ast.op == ArithmeticOp::Subtract,
            expr.ast.right == other.ast,
            expr.project_alias == Label::Static("expr"),
    {
        Expr::<usize, LiteralExprAst<usize>>::binary(
            Expr::<usize, LiteralExprAst<usize>>::lit(self).ast,
            ArithmeticOp::Subtract,
            other,
        )
    }
}

impl<'scope, K: ExprKind<Value = usize>> vstd::std_specs::ops::SubSpecImpl<ColumnRef<'scope, K>> for usize {
    open spec fn obeys_sub_spec() -> bool {
        false
    }

    open spec fn sub_req(self, other: ColumnRef<'scope, K>) -> bool {
        true
    }

    open spec fn sub_spec(self, other: ColumnRef<'scope, K>) -> Expr<'scope, SubtractExpr<usize, K>, BinaryExprAst<LiteralExprAst<usize>, ColumnExprAst<K>>> {
        arbitrary()
    }
}

impl<'scope, K: ExprKind<Value = usize>> Sub<ColumnRef<'scope, K>> for usize {
    type Output = Expr<'scope, SubtractExpr<usize, K>, BinaryExprAst<LiteralExprAst<usize>, ColumnExprAst<K>>>;

    fn sub(self, other: ColumnRef<'scope, K>) -> (expr: Expr<'scope, SubtractExpr<usize, K>, BinaryExprAst<LiteralExprAst<usize>, ColumnExprAst<K>>>)
        ensures
            expr.ast.left.value == self,
            expr.ast.op == ArithmeticOp::Subtract,
            expr.ast.right == other.ast(),
            expr.project_alias == Label::Static("expr"),
    {
        Expr::<usize, LiteralExprAst<usize>>::binary(
            Expr::<usize, LiteralExprAst<usize>>::lit(self).ast,
            ArithmeticOp::Subtract,
            other,
        )
    }
}

impl<'scope, K: ExprKind<Value = usize>, Ast: ExprAst> vstd::std_specs::ops::SubSpecImpl<&Expr<'scope, K, Ast>> for usize where HNil: HAppend<Ast::Params> {
    open spec fn obeys_sub_spec() -> bool {
        false
    }

    open spec fn sub_req(self, other: &Expr<'scope, K, Ast>) -> bool {
        true
    }

    open spec fn sub_spec(self, other: &Expr<'scope, K, Ast>) -> Expr<'scope, SubtractExpr<usize, K>, BinaryExprAst<LiteralExprAst<usize>, Ast>> {
        arbitrary()
    }
}

impl<'scope, K: ExprKind<Value = usize>, Ast: ExprAst> Sub<&Expr<'scope, K, Ast>> for usize where HNil: HAppend<Ast::Params> {
    type Output = Expr<'scope, SubtractExpr<usize, K>, BinaryExprAst<LiteralExprAst<usize>, Ast>>;

    fn sub(self, other: &Expr<'scope, K, Ast>) -> (expr: Expr<'scope, SubtractExpr<usize, K>, BinaryExprAst<LiteralExprAst<usize>, Ast>>)
        ensures
            expr.ast.left.value == self,
            expr.ast.op == ArithmeticOp::Subtract,
            expr.ast.right == other.ast,
            expr.project_alias == Label::Static("expr"),
    {
        Expr::<usize, LiteralExprAst<usize>>::binary(
            Expr::<usize, LiteralExprAst<usize>>::lit(self).ast,
            ArithmeticOp::Subtract,
            other,
        )
    }
}

impl<'scope, K: ExprKind<Value = usize>> vstd::std_specs::ops::SubSpecImpl<&ColumnRef<'scope, K>> for usize {
    open spec fn obeys_sub_spec() -> bool {
        false
    }

    open spec fn sub_req(self, other: &ColumnRef<'scope, K>) -> bool {
        true
    }

    open spec fn sub_spec(self, other: &ColumnRef<'scope, K>) -> Expr<'scope, SubtractExpr<usize, K>, BinaryExprAst<LiteralExprAst<usize>, ColumnExprAst<K>>> {
        arbitrary()
    }
}

impl<'scope, K: ExprKind<Value = usize>> Sub<&ColumnRef<'scope, K>> for usize {
    type Output = Expr<'scope, SubtractExpr<usize, K>, BinaryExprAst<LiteralExprAst<usize>, ColumnExprAst<K>>>;

    fn sub(self, other: &ColumnRef<'scope, K>) -> (expr: Expr<'scope, SubtractExpr<usize, K>, BinaryExprAst<LiteralExprAst<usize>, ColumnExprAst<K>>>)
        ensures
            expr.ast.left.value == self,
            expr.ast.op == ArithmeticOp::Subtract,
            expr.ast.right == other.ast(),
            expr.project_alias == Label::Static("expr"),
    {
        Expr::<usize, LiteralExprAst<usize>>::binary(
            Expr::<usize, LiteralExprAst<usize>>::lit(self).ast,
            ArithmeticOp::Subtract,
            other,
        )
    }
}

impl<'scope, K: ExprKind<Value = usize>, Ast: ExprAst> vstd::std_specs::ops::MulSpecImpl<Expr<'scope, K, Ast>> for usize where HNil: HAppend<Ast::Params> {
    open spec fn obeys_mul_spec() -> bool {
        false
    }

    open spec fn mul_req(self, other: Expr<'scope, K, Ast>) -> bool {
        true
    }

    open spec fn mul_spec(self, other: Expr<'scope, K, Ast>) -> Expr<'scope, MultiplyExpr<usize, K>, BinaryExprAst<LiteralExprAst<usize>, Ast>> {
        arbitrary()
    }
}

impl<'scope, K: ExprKind<Value = usize>, Ast: ExprAst> Mul<Expr<'scope, K, Ast>> for usize where HNil: HAppend<Ast::Params> {
    type Output = Expr<'scope, MultiplyExpr<usize, K>, BinaryExprAst<LiteralExprAst<usize>, Ast>>;

    fn mul(self, other: Expr<'scope, K, Ast>) -> (expr: Expr<'scope, MultiplyExpr<usize, K>, BinaryExprAst<LiteralExprAst<usize>, Ast>>)
        ensures
            expr.ast.left.value == self,
            expr.ast.op == ArithmeticOp::Multiply,
            expr.ast.right == other.ast,
            expr.project_alias == Label::Static("expr"),
    {
        Expr::<usize, LiteralExprAst<usize>>::binary(
            Expr::<usize, LiteralExprAst<usize>>::lit(self).ast,
            ArithmeticOp::Multiply,
            other,
        )
    }
}

impl<'scope, K: ExprKind<Value = usize>> vstd::std_specs::ops::MulSpecImpl<ColumnRef<'scope, K>> for usize {
    open spec fn obeys_mul_spec() -> bool {
        false
    }

    open spec fn mul_req(self, other: ColumnRef<'scope, K>) -> bool {
        true
    }

    open spec fn mul_spec(self, other: ColumnRef<'scope, K>) -> Expr<'scope, MultiplyExpr<usize, K>, BinaryExprAst<LiteralExprAst<usize>, ColumnExprAst<K>>> {
        arbitrary()
    }
}

impl<'scope, K: ExprKind<Value = usize>> Mul<ColumnRef<'scope, K>> for usize {
    type Output = Expr<'scope, MultiplyExpr<usize, K>, BinaryExprAst<LiteralExprAst<usize>, ColumnExprAst<K>>>;

    fn mul(self, other: ColumnRef<'scope, K>) -> (expr: Expr<'scope, MultiplyExpr<usize, K>, BinaryExprAst<LiteralExprAst<usize>, ColumnExprAst<K>>>)
        ensures
            expr.ast.left.value == self,
            expr.ast.op == ArithmeticOp::Multiply,
            expr.ast.right == other.ast(),
            expr.project_alias == Label::Static("expr"),
    {
        Expr::<usize, LiteralExprAst<usize>>::binary(
            Expr::<usize, LiteralExprAst<usize>>::lit(self).ast,
            ArithmeticOp::Multiply,
            other,
        )
    }
}

impl<'scope, K: ExprKind<Value = usize>, Ast: ExprAst> vstd::std_specs::ops::MulSpecImpl<&Expr<'scope, K, Ast>> for usize where HNil: HAppend<Ast::Params> {
    open spec fn obeys_mul_spec() -> bool {
        false
    }

    open spec fn mul_req(self, other: &Expr<'scope, K, Ast>) -> bool {
        true
    }

    open spec fn mul_spec(self, other: &Expr<'scope, K, Ast>) -> Expr<'scope, MultiplyExpr<usize, K>, BinaryExprAst<LiteralExprAst<usize>, Ast>> {
        arbitrary()
    }
}

impl<'scope, K: ExprKind<Value = usize>, Ast: ExprAst> Mul<&Expr<'scope, K, Ast>> for usize where HNil: HAppend<Ast::Params> {
    type Output = Expr<'scope, MultiplyExpr<usize, K>, BinaryExprAst<LiteralExprAst<usize>, Ast>>;

    fn mul(self, other: &Expr<'scope, K, Ast>) -> (expr: Expr<'scope, MultiplyExpr<usize, K>, BinaryExprAst<LiteralExprAst<usize>, Ast>>)
        ensures
            expr.ast.left.value == self,
            expr.ast.op == ArithmeticOp::Multiply,
            expr.ast.right == other.ast,
            expr.project_alias == Label::Static("expr"),
    {
        Expr::<usize, LiteralExprAst<usize>>::binary(
            Expr::<usize, LiteralExprAst<usize>>::lit(self).ast,
            ArithmeticOp::Multiply,
            other,
        )
    }
}

impl<'scope, K: ExprKind<Value = usize>> vstd::std_specs::ops::MulSpecImpl<&ColumnRef<'scope, K>> for usize {
    open spec fn obeys_mul_spec() -> bool {
        false
    }

    open spec fn mul_req(self, other: &ColumnRef<'scope, K>) -> bool {
        true
    }

    open spec fn mul_spec(self, other: &ColumnRef<'scope, K>) -> Expr<'scope, MultiplyExpr<usize, K>, BinaryExprAst<LiteralExprAst<usize>, ColumnExprAst<K>>> {
        arbitrary()
    }
}

impl<'scope, K: ExprKind<Value = usize>> Mul<&ColumnRef<'scope, K>> for usize {
    type Output = Expr<'scope, MultiplyExpr<usize, K>, BinaryExprAst<LiteralExprAst<usize>, ColumnExprAst<K>>>;

    fn mul(self, other: &ColumnRef<'scope, K>) -> (expr: Expr<'scope, MultiplyExpr<usize, K>, BinaryExprAst<LiteralExprAst<usize>, ColumnExprAst<K>>>)
        ensures
            expr.ast.left.value == self,
            expr.ast.op == ArithmeticOp::Multiply,
            expr.ast.right == other.ast(),
            expr.project_alias == Label::Static("expr"),
    {
        Expr::<usize, LiteralExprAst<usize>>::binary(
            Expr::<usize, LiteralExprAst<usize>>::lit(self).ast,
            ArithmeticOp::Multiply,
            other,
        )
    }
}

impl<'scope, K: ExprKind<Value = usize>, Ast: ExprAst> vstd::std_specs::ops::DivSpecImpl<Expr<'scope, K, Ast>> for usize where HNil: HAppend<Ast::Params> {
    open spec fn obeys_div_spec() -> bool {
        false
    }

    open spec fn div_req(self, other: Expr<'scope, K, Ast>) -> bool {
        true
    }

    open spec fn div_spec(self, other: Expr<'scope, K, Ast>) -> Expr<'scope, DivideExpr<usize, K>, BinaryExprAst<LiteralExprAst<usize>, Ast>> {
        arbitrary()
    }
}

impl<'scope, K: ExprKind<Value = usize>, Ast: ExprAst> Div<Expr<'scope, K, Ast>> for usize where HNil: HAppend<Ast::Params> {
    type Output = Expr<'scope, DivideExpr<usize, K>, BinaryExprAst<LiteralExprAst<usize>, Ast>>;

    fn div(self, other: Expr<'scope, K, Ast>) -> (expr: Expr<'scope, DivideExpr<usize, K>, BinaryExprAst<LiteralExprAst<usize>, Ast>>)
        ensures
            expr.ast.left.value == self,
            expr.ast.op == ArithmeticOp::Divide,
            expr.ast.right == other.ast,
            expr.project_alias == Label::Static("expr"),
    {
        Expr::<usize, LiteralExprAst<usize>>::binary(
            Expr::<usize, LiteralExprAst<usize>>::lit(self).ast,
            ArithmeticOp::Divide,
            other,
        )
    }
}

impl<'scope, K: ExprKind<Value = usize>> vstd::std_specs::ops::DivSpecImpl<ColumnRef<'scope, K>> for usize {
    open spec fn obeys_div_spec() -> bool {
        false
    }

    open spec fn div_req(self, other: ColumnRef<'scope, K>) -> bool {
        true
    }

    open spec fn div_spec(self, other: ColumnRef<'scope, K>) -> Expr<'scope, DivideExpr<usize, K>, BinaryExprAst<LiteralExprAst<usize>, ColumnExprAst<K>>> {
        arbitrary()
    }
}

impl<'scope, K: ExprKind<Value = usize>> Div<ColumnRef<'scope, K>> for usize {
    type Output = Expr<'scope, DivideExpr<usize, K>, BinaryExprAst<LiteralExprAst<usize>, ColumnExprAst<K>>>;

    fn div(self, other: ColumnRef<'scope, K>) -> (expr: Expr<'scope, DivideExpr<usize, K>, BinaryExprAst<LiteralExprAst<usize>, ColumnExprAst<K>>>)
        ensures
            expr.ast.left.value == self,
            expr.ast.op == ArithmeticOp::Divide,
            expr.ast.right == other.ast(),
            expr.project_alias == Label::Static("expr"),
    {
        Expr::<usize, LiteralExprAst<usize>>::binary(
            Expr::<usize, LiteralExprAst<usize>>::lit(self).ast,
            ArithmeticOp::Divide,
            other,
        )
    }
}

impl<'scope, K: ExprKind<Value = usize>, Ast: ExprAst> vstd::std_specs::ops::DivSpecImpl<&Expr<'scope, K, Ast>> for usize where HNil: HAppend<Ast::Params> {
    open spec fn obeys_div_spec() -> bool {
        false
    }

    open spec fn div_req(self, other: &Expr<'scope, K, Ast>) -> bool {
        true
    }

    open spec fn div_spec(self, other: &Expr<'scope, K, Ast>) -> Expr<'scope, DivideExpr<usize, K>, BinaryExprAst<LiteralExprAst<usize>, Ast>> {
        arbitrary()
    }
}

impl<'scope, K: ExprKind<Value = usize>, Ast: ExprAst> Div<&Expr<'scope, K, Ast>> for usize where HNil: HAppend<Ast::Params> {
    type Output = Expr<'scope, DivideExpr<usize, K>, BinaryExprAst<LiteralExprAst<usize>, Ast>>;

    fn div(self, other: &Expr<'scope, K, Ast>) -> (expr: Expr<'scope, DivideExpr<usize, K>, BinaryExprAst<LiteralExprAst<usize>, Ast>>)
        ensures
            expr.ast.left.value == self,
            expr.ast.op == ArithmeticOp::Divide,
            expr.ast.right == other.ast,
            expr.project_alias == Label::Static("expr"),
    {
        Expr::<usize, LiteralExprAst<usize>>::binary(
            Expr::<usize, LiteralExprAst<usize>>::lit(self).ast,
            ArithmeticOp::Divide,
            other,
        )
    }
}

impl<'scope, K: ExprKind<Value = usize>> vstd::std_specs::ops::DivSpecImpl<&ColumnRef<'scope, K>> for usize {
    open spec fn obeys_div_spec() -> bool {
        false
    }

    open spec fn div_req(self, other: &ColumnRef<'scope, K>) -> bool {
        true
    }

    open spec fn div_spec(self, other: &ColumnRef<'scope, K>) -> Expr<'scope, DivideExpr<usize, K>, BinaryExprAst<LiteralExprAst<usize>, ColumnExprAst<K>>> {
        arbitrary()
    }
}

impl<'scope, K: ExprKind<Value = usize>> Div<&ColumnRef<'scope, K>> for usize {
    type Output = Expr<'scope, DivideExpr<usize, K>, BinaryExprAst<LiteralExprAst<usize>, ColumnExprAst<K>>>;

    fn div(self, other: &ColumnRef<'scope, K>) -> (expr: Expr<'scope, DivideExpr<usize, K>, BinaryExprAst<LiteralExprAst<usize>, ColumnExprAst<K>>>)
        ensures
            expr.ast.left.value == self,
            expr.ast.op == ArithmeticOp::Divide,
            expr.ast.right == other.ast(),
            expr.project_alias == Label::Static("expr"),
    {
        Expr::<usize, LiteralExprAst<usize>>::binary(
            Expr::<usize, LiteralExprAst<usize>>::lit(self).ast,
            ArithmeticOp::Divide,
            other,
        )
    }
}

} // verus!
