//! Arithmetic with a floating-point number on the left.
use crate::expr::ast::{BinaryExprAst, ColumnExprAst, ExprAst, LiteralExprAst};
use crate::expr::kind::{AddExpr, DivideExpr, ExprKind, MultiplyExpr, SubtractExpr};
use crate::expr::{ColumnRef, Expr};
use crate::label::Label;
use crate::list::{HAppend, HNil};
use crate::number::{Float32, Float64};
use crate::ops::ArithmeticOp;
use std::ops::{Add, Div, Mul, Sub};
use vstd::prelude::*;

verus! {

impl<'scope, K: ExprKind<Value = Float32>, Ast: ExprAst> vstd::std_specs::ops::AddSpecImpl<Expr<'scope, K, Ast>> for Float32 where HNil: HAppend<Ast::Params> {
    open spec fn obeys_add_spec() -> bool {
        false
    }

    open spec fn add_req(self, other: Expr<'scope, K, Ast>) -> bool {
        true
    }

    open spec fn add_spec(self, other: Expr<'scope, K, Ast>) -> Expr<'scope, AddExpr<Float32, K>, BinaryExprAst<LiteralExprAst<Float32>, Ast>> {
        arbitrary()
    }
}

impl<'scope, K: ExprKind<Value = Float32>, Ast: ExprAst> Add<Expr<'scope, K, Ast>> for Float32 where HNil: HAppend<Ast::Params> {
    type Output = Expr<'scope, AddExpr<Float32, K>, BinaryExprAst<LiteralExprAst<Float32>, Ast>>;

    fn add(self, other: Expr<'scope, K, Ast>) -> (expr: Expr<'scope, AddExpr<Float32, K>, BinaryExprAst<LiteralExprAst<Float32>, Ast>>)
        ensures
            expr.ast.left.value == self,
            expr.ast.op == ArithmeticOp::Add,
            expr.ast.right == other.ast,
            expr.project_alias == Label::Static("expr"),
    {
        Expr::<Float32, LiteralExprAst<Float32>>::binary(
            Expr::<Float32, LiteralExprAst<Float32>>::lit(self).ast,
            ArithmeticOp::Add,
            other,
        )
    }
}

impl<'scope, K: ExprKind<Value = Float32>> vstd::std_specs::ops::AddSpecImpl<ColumnRef<'scope, K>> for Float32 {
    open spec fn obeys_add_spec() -> bool {
        false
    }

    open spec fn add_req(self, other: ColumnRef<'scope, K>) -> bool {
        true
    }

    open spec fn add_spec(self, other: ColumnRef<'scope, K>) -> Expr<'scope, AddExpr<Float32, K>, BinaryExprAst<LiteralExprAst<Float32>, ColumnExprAst<K>>> {
        arbitrary()
    }
}

impl<'scope, K: ExprKind<Value = Float32>> Add<ColumnRef<'scope, K>> for Float32 {
    type Output = Expr<'scope, AddExpr<Float32, K>, BinaryExprAst<LiteralExprAst<Float32>, ColumnExprAst<K>>>;

    fn add(self, other: ColumnRef<'scope, K>) -> (expr: Expr<'scope, AddExpr<Float32, K>, BinaryExprAst<LiteralExprAst<Float32>, ColumnExprAst<K>>>)
        ensures
            expr.ast.left.value == self,
            expr.ast.op == ArithmeticOp::Add,
            expr.ast.right == other.ast(),
            expr.project_alias == Label::Static("expr"),
    {
        Expr::<Float32, LiteralExprAst<Float32>>::binary(
            Expr::<Float32, LiteralExprAst<Float32>>::lit(self).ast,
            ArithmeticOp::Add,
            other,
        )
    }
}

impl<'scope, K: ExprKind<Value = Float32>, Ast: ExprAst> vstd::std_specs::ops::AddSpecImpl<&Expr<'scope, K, Ast>> for Float32 where HNil: HAppend<Ast::Params> {
    open spec fn obeys_add_spec() -> bool {
        false
    }

    open spec fn add_req(self, other: &Expr<'scope, K, Ast>) -> bool {
        true
    }

    open spec fn add_spec(self, other: &Expr<'scope, K, Ast>) -> Expr<'scope, AddExpr<Float32, K>, BinaryExprAst<LiteralExprAst<Float32>, Ast>> {
        arbitrary()
    }
}

impl<'scope, K: ExprKind<Value = Float32>, Ast: ExprAst> Add<&Expr<'scope, K, Ast>> for Float32 where HNil: HAppend<Ast::Params> {
    type Output = Expr<'scope, AddExpr<Float32, K>, BinaryExprAst<LiteralExprAst<Float32>, Ast>>;

    fn add(self, other: &Expr<'scope, K, Ast>) -> (expr: Expr<'scope, AddExpr<Float32, K>, BinaryExprAst<LiteralExprAst<Float32>, Ast>>)
        ensures
            expr.ast.left.value == self,
            expr.ast.op == ArithmeticOp::Add,
            expr.ast.right == other.ast,
            expr.project_alias == Label::Static("expr"),
    {
        Expr::<Float32, LiteralExprAst<Float32>>::binary(
            Expr::<Float32, LiteralExprAst<Float32>>::lit(self).ast,
            ArithmeticOp::Add,
            other,
        )
    }
}

impl<'scope, K: ExprKind<Value = Float32>> vstd::std_specs::ops::AddSpecImpl<&ColumnRef<'scope, K>> for Float32 {
    open spec fn obeys_add_spec() -> bool {
        false
    }

    open spec fn add_req(self, other: &ColumnRef<'scope, K>) -> bool {
        true
    }

    open spec fn add_spec(self, other: &ColumnRef<'scope, K>) -> Expr<'scope, AddExpr<Float32, K>, BinaryExprAst<LiteralExprAst<Float32>, ColumnExprAst<K>>> {
        arbitrary()
    }
}

impl<'scope, K: ExprKind<Value = Float32>> Add<&ColumnRef<'scope, K>> for Float32 {
    type Output = Expr<'scope, AddExpr<Float32, K>, BinaryExprAst<LiteralExprAst<Float32>, ColumnExprAst<K>>>;

    fn add(self, other: &ColumnRef<'scope, K>) -> (expr: Expr<'scope, AddExpr<Float32, K>, BinaryExprAst<LiteralExprAst<Float32>, ColumnExprAst<K>>>)
        ensures
            expr.ast.left.value == self,
            expr.ast.op == ArithmeticOp::Add,
            expr.ast.right == other.ast(),
            expr.project_alias == Label::Static("expr"),
    {
        Expr::<Float32, LiteralExprAst<Float32>>::binary(
            Expr::<Float32, LiteralExprAst<Float32>>::lit(self).ast,
            ArithmeticOp::Add,
            other,
        )
    }
}

impl<'scope, K: ExprKind<Value = Float32>, Ast: ExprAst> vstd::std_specs::ops::SubSpecImpl<Expr<'scope, K, Ast>> for Float32 where HNil: HAppend<Ast::Params> {
    open spec fn obeys_sub_spec() -> bool {
        false
    }

    open spec fn sub_req(self, other: Expr<'scope, K, Ast>) -> bool {
        true
    }

    open spec fn sub_spec(self, other: Expr<'scope, K, Ast>) -> Expr<'scope, SubtractExpr<Float32, K>, BinaryExprAst<LiteralExprAst<Float32>, Ast>> {
        arbitrary()
    }
}

impl<'scope, K: ExprKind<Value = Float32>, Ast: ExprAst> Sub<Expr<'scope, K, Ast>> for Float32 where HNil: HAppend<Ast::Params> {
    type Output = Expr<'scope, SubtractExpr<Float32, K>, BinaryExprAst<LiteralExprAst<Float32>, Ast>>;

    fn sub(self, other: Expr<'scope, K, Ast>) -> (expr: Expr<'scope, SubtractExpr<Float32, K>, BinaryExprAst<LiteralExprAst<Float32>, Ast>>)
        ensures
            expr.ast.left.value == self,
            expr.ast.op == ArithmeticOp::Subtract,
            expr.ast.right == other.ast,
            expr.project_alias == Label::Static("expr"),
    {
        Expr::<Float32, LiteralExprAst<Float32>>::binary(
            Expr::<Float32, LiteralExprAst<Float32>>::lit(self).ast,
            ArithmeticOp::Subtract,
            other,
        )
    }
}

impl<'scope, K: ExprKind<Value = Float32>> vstd::std_specs::ops::SubSpecImpl<ColumnRef<'scope, K>> for Float32 {
    open spec fn obeys_sub_spec() -> bool {
        false
    }

    open spec fn sub_req(self, other: ColumnRef<'scope, K>) -> bool {
        true
    }

    open spec fn sub_spec(self, other: ColumnRef<'scope, K>) -> Expr<'scope, SubtractExpr<Float32, K>, BinaryExprAst<LiteralExprAst<Float32>, ColumnExprAst<K>>> {
        arbitrary()
    }
}

impl<'scope, K: ExprKind<Value = Float32>> Sub<ColumnRef<'scope, K>> for Float32 {
    type Output = Expr<'scope, SubtractExpr<Float32, K>, BinaryExprAst<LiteralExprAst<Float32>, ColumnExprAst<K>>>;

    fn sub(self, other: ColumnRef<'scope, K>) -> (expr: Expr<'scope, SubtractExpr<Float32, K>, BinaryExprAst<LiteralExprAst<Float32>, ColumnExprAst<K>>>)
        ensures
            expr.ast.left.value == self,
            expr.ast.op == ArithmeticOp::Subtract,
            expr.ast.right == other.ast(),
            expr.project_alias == Label::Static("expr"),
    {
        Expr::<Float32, LiteralExprAst<Float32>>::binary(
            Expr::<Float32, LiteralExprAst<Float32>>::lit(self).ast,
            ArithmeticOp::Subtract,
            other,
        )
    }
}

impl<'scope, K: ExprKind<Value = Float32>, Ast: ExprAst> vstd::std_specs::ops::SubSpecImpl<&Expr<'scope, K, Ast>> for Float32 where HNil: HAppend<Ast::Params> {
    open spec fn obeys_sub_spec() -> bool {
        false
    }

    open spec fn sub_req(self, other: &Expr<'scope, K, Ast>) -> bool {
        true
    }

    open spec fn sub_spec(self, other: &Expr<'scope, K, Ast>) -> Expr<'scope, SubtractExpr<Float32, K>, BinaryExprAst<LiteralExprAst<Float32>, Ast>> {
        arbitrary()
    }
}

impl<'scope, K: ExprKind<Value = Float32>, Ast: ExprAst> Sub<&Expr<'scope, K, Ast>> for Float32 where HNil: HAppend<Ast::Params> {
    type Output = Expr<'scope, SubtractExpr<Float32, K>, BinaryExprAst<LiteralExprAst<Float32>, Ast>>;

    fn sub(self, other: &Expr<'scope, K, Ast>) -> (expr: Expr<'scope, SubtractExpr<Float32, K>, BinaryExprAst<LiteralExprAst<Float32>, Ast>>)
        ensures
            expr.ast.left.value == self,
            expr.ast.op == ArithmeticOp::Subtract,
            expr.ast.right == other.ast,
            expr.project_alias == Label::Static("expr"),
    {
        Expr::<Float32, LiteralExprAst<Float32>>::binary(
            Expr::<Float32, LiteralExprAst<Float32>>::lit(self).ast,
            ArithmeticOp::Subtract,
            other,
        )
    }
}

impl<'scope, K: ExprKind<Value = Float32>> vstd::std_specs::ops::SubSpecImpl<&ColumnRef<'scope, K>> for Float32 {
    open spec fn obeys_sub_spec() -> bool {
        false
    }

    open spec fn sub_req(self, other: &ColumnRef<'scope, K>) -> bool {
        true
    }

    open spec fn sub_spec(self, other: &ColumnRef<'scope, K>) -> Expr<'scope, SubtractExpr<Float32, K>, BinaryExprAst<LiteralExprAst<Float32>, ColumnExprAst<K>>> {
        arbitrary()
    }
}

impl<'scope, K: ExprKind<Value = Float32>> Sub<&ColumnRef<'scope, K>> for Float32 {
    type Output = Expr<'scope, SubtractExpr<Float32, K>, BinaryExprAst<LiteralExprAst<Float32>, ColumnExprAst<K>>>;

    fn sub(self, other: &ColumnRef<'scope, K>) -> (expr: Expr<'scope, SubtractExpr<Float32, K>, BinaryExprAst<LiteralExprAst<Float32>, ColumnExprAst<K>>>)
        ensures
            expr.ast.left.value == self,
            expr.ast.op == ArithmeticOp::Subtract,
            expr.ast.right == other.ast(),
            expr.project_alias == Label::Static("expr"),
    {
        Expr::<Float32, LiteralExprAst<Float32>>::binary(
            Expr::<Float32, LiteralExprAst<Float32>>::lit(self).ast,
            ArithmeticOp::Subtract,
            other,
        )
    }
}

impl<'scope, K: ExprKind<Value = Float32>, Ast: ExprAst> vstd::std_specs::ops::MulSpecImpl<Expr<'scope, K, Ast>> for Float32 where HNil: HAppend<Ast::Params> {
    open spec fn obeys_mul_spec() -> bool {
        false
    }

    open spec fn mul_req(self, other: Expr<'scope, K, Ast>) -> bool {
        true
    }

    open spec fn mul_spec(self, other: Expr<'scope, K, Ast>) -> Expr<'scope, MultiplyExpr<Float32, K>, BinaryExprAst<LiteralExprAst<Float32>, Ast>> {
        arbitrary()
    }
}

impl<'scope, K: ExprKind<Value = Float32>, Ast: ExprAst> Mul<Expr<'scope, K, Ast>> for Float32 where HNil: HAppend<Ast::Params> {
    type Output = Expr<'scope, MultiplyExpr<Float32, K>, BinaryExprAst<LiteralExprAst<Float32>, Ast>>;

    fn mul(self, other: Expr<'scope, K, Ast>) -> (expr: Expr<'scope, MultiplyExpr<Float32, K>, BinaryExprAst<LiteralExprAst<Float32>, Ast>>)
        ensures
            expr.ast.left.value == self,
            expr.ast.op == ArithmeticOp::Multiply,
            expr.ast.right == other.ast,
            expr.project_alias == Label::Static("expr"),
    {
        Expr::<Float32, LiteralExprAst<Float32>>::binary(
            Expr::<Float32, LiteralExprAst<Float32>>::lit(self).ast,
            ArithmeticOp::Multiply,
            other,
        )
    }
}

impl<'scope, K: ExprKind<Value = Float32>> vstd::std_specs::ops::MulSpecImpl<ColumnRef<'scope, K>> for Float32 {
    open spec fn obeys_mul_spec() -> bool {
        false
    }

    open spec fn mul_req(self, other: ColumnRef<'scope, K>) -> bool {
        true
    }

    open spec fn mul_spec(self, other: ColumnRef<'scope, K>) -> Expr<'scope, MultiplyExpr<Float32, K>, BinaryExprAst<LiteralExprAst<Float32>, ColumnExprAst<K>>> {
        arbitrary()
    }
}

impl<'scope, K: ExprKind<Value = Float32>> Mul<ColumnRef<'scope, K>> for Float32 {
    type Output = Expr<'scope, MultiplyExpr<Float32, K>, BinaryExprAst<LiteralExprAst<Float32>, ColumnExprAst<K>>>;

    fn mul(self, other: ColumnRef<'scope, K>) -> (expr: Expr<'scope, MultiplyExpr<Float32, K>, BinaryExprAst<LiteralExprAst<Float32>, ColumnExprAst<K>>>)
        ensures
            expr.ast.left.value == self,
            expr.ast.op == ArithmeticOp::Multiply,
            expr.ast.right == other.ast(),
            expr.project_alias == Label::Static("expr"),
    {
        Expr::<Float32, LiteralExprAst<Float32>>::binary(
            Expr::<Float32, LiteralExprAst<Float32>>::lit(self).ast,
            ArithmeticOp::Multiply,
            other,
        )
    }
}

impl<'scope, K: ExprKind<Value = Float32>, Ast: ExprAst> vstd::std_specs::ops::MulSpecImpl<&Expr<'scope, K, Ast>> for Float32 where HNil: HAppend<Ast::Params> {
    open spec fn obeys_mul_spec() -> bool {
        false
    }

    open spec fn mul_req(self, other: &Expr<'scope, K, Ast>) -> bool {
        true
    }

    open spec fn mul_spec(self, other: &Expr<'scope, K, Ast>) -> Expr<'scope, MultiplyExpr<Float32, K>, BinaryExprAst<LiteralExprAst<Float32>, Ast>> {
        arbitrary()
    }
}

impl<'scope, K: ExprKind<Value = Float32>, Ast: ExprAst> Mul<&Expr<'scope, K, Ast>> for Float32 where HNil: HAppend<Ast::Params> {
    type Output = Expr<'scope, MultiplyExpr<Float32, K>, BinaryExprAst<LiteralExprAst<Float32>, Ast>>;

    fn mul(self, other: &Expr<'scope, K, Ast>) -> (expr: Expr<'scope, MultiplyExpr<Float32, K>, BinaryExprAst<LiteralExprAst<Float32>, Ast>>)
        ensures
            expr.ast.left.value == self,
            expr.ast.op == ArithmeticOp::Multiply,
            expr.ast.right == other.ast,
            expr.project_alias == Label::Static("expr"),
    {
        Expr::<Float32, LiteralExprAst<Float32>>::binary(
            Expr::<Float32, LiteralExprAst<Float32>>::lit(self).ast,
            ArithmeticOp::Multiply,
            other,
        )
    }
}

impl<'scope, K: ExprKind<Value = Float32>> vstd::std_specs::ops::MulSpecImpl<&ColumnRef<'scope, K>> for Float32 {
    open spec fn obeys_mul_spec() -> bool {
        false
    }

    open spec fn mul_req(self, other: &ColumnRef<'scope, K>) -> bool {
        true
    }

    open spec fn mul_spec(self, other: &ColumnRef<'scope, K>) -> Expr<'scope, MultiplyExpr<Float32, K>, BinaryExprAst<LiteralExprAst<Float32>, ColumnExprAst<K>>> {
        arbitrary()
    }
}

impl<'scope, K: ExprKind<Value = Float32>> Mul<&ColumnRef<'scope, K>> for Float32 {
    type Output = Expr<'scope, MultiplyExpr<Float32, K>, BinaryExprAst<LiteralExprAst<Float32>, ColumnExprAst<K>>>;

    fn mul(self, other: &ColumnRef<'scope, K>) -> (expr: Expr<'scope, MultiplyExpr<Float32, K>, BinaryExprAst<LiteralExprAst<Float32>, ColumnExprAst<K>>>)
        ensures
            expr.ast.left.value == self,
            expr.ast.op == ArithmeticOp::Multiply,
            expr.ast.right == other.ast(),
            expr.project_alias == Label::Static("expr"),
    {
        Expr::<Float32, LiteralExprAst<Float32>>::binary(
            Expr::<Float32, LiteralExprAst<Float32>>::lit(self).ast,
            ArithmeticOp::Multiply,
            other,
        )
    }
}

impl<'scope, K: ExprKind<Value = Float32>, Ast: ExprAst> vstd::std_specs::ops::DivSpecImpl<Expr<'scope, K, Ast>> for Float32 where HNil: HAppend<Ast::Params> {
    open spec fn obeys_div_spec() -> bool {
        false
    }

    open spec fn div_req(self, other: Expr<'scope, K, Ast>) -> bool {
        true
    }

    open spec fn div_spec(self, other: Expr<'scope, K, Ast>) -> Expr<'scope, DivideExpr<Float32, K>, BinaryExprAst<LiteralExprAst<Float32>, Ast>> {
        arbitrary()
    }
}

impl<'scope, K: ExprKind<Value = Float32>, Ast: ExprAst> Div<Expr<'scope, K, Ast>> for Float32 where HNil: HAppend<Ast::Params> {
    type Output = Expr<'scope, DivideExpr<Float32, K>, BinaryExprAst<LiteralExprAst<Float32>, Ast>>;

    fn div(self, other: Expr<'scope, K, Ast>) -> (expr: Expr<'scope, DivideExpr<Float32, K>, BinaryExprAst<LiteralExprAst<Float32>, Ast>>)
        ensures
            expr.ast.left.value == self,
            expr.ast.op == ArithmeticOp::Divide,
            expr.ast.right == other.ast,
            expr.project_alias == Label::Static("expr"),
    {
        Expr::<Float32, LiteralExprAst<Float32>>::binary(
            Expr::<Float32, LiteralExprAst<Float32>>::lit(self).ast,
            ArithmeticOp::Divide,
            other,
        )
    }
}

impl<'scope, K: ExprKind<Value = Float32>> vstd::std_specs::ops::DivSpecImpl<ColumnRef<'scope, K>> for Float32 {
    open spec fn obeys_div_spec() -> bool {
        false
    }

    open spec fn div_req(self, other: ColumnRef<'scope, K>) -> bool {
        true
    }

    open spec fn div_spec(self, other: ColumnRef<'scope, K>) -> Expr<'scope, DivideExpr<Float32, K>, BinaryExprAst<LiteralExprAst<Float32>, ColumnExprAst<K>>> {
        arbitrary()
    }
}

impl<'scope, K: ExprKind<Value = Float32>> Div<ColumnRef<'scope, K>> for Float32 {
    type Output = Expr<'scope, DivideExpr<Float32, K>, BinaryExprAst<LiteralExprAst<Float32>, ColumnExprAst<K>>>;

    fn div(self, other: ColumnRef<'scope, K>) -> (expr: Expr<'scope, DivideExpr<Float32, K>, BinaryExprAst<LiteralExprAst<Float32>, ColumnExprAst<K>>>)
        ensures
            expr.ast.left.value == self,
            expr.ast.op == ArithmeticOp::Divide,
            expr.ast.right == other.ast(),
            expr.project_alias == Label::Static("expr"),
    {
        Expr::<Float32, LiteralExprAst<Float32>>::binary(
            Expr::<Float32, LiteralExprAst<Float32>>::lit(self).ast,
            ArithmeticOp::Divide,
            other,
        )
    }
}

impl<'scope, K: ExprKind<Value = Float32>, Ast: ExprAst> vstd::std_specs::ops::DivSpecImpl<&Expr<'scope, K, Ast>> for Float32 where HNil: HAppend<Ast::Params> {
    open spec fn obeys_div_spec() -> bool {
        false
    }

    open spec fn div_req(self, other: &Expr<'scope, K, Ast>) -> bool {
        true
    }

    open spec fn div_spec(self, other: &Expr<'scope, K, Ast>) -> Expr<'scope, DivideExpr<Float32, K>, BinaryExprAst<LiteralExprAst<Float32>, Ast>> {
        arbitrary()
    }
}

impl<'scope, K: ExprKind<Value = Float32>, Ast: ExprAst> Div<&Expr<'scope, K, Ast>> for Float32 where HNil: HAppend<Ast::Params> {
    type Output = Expr<'scope, DivideExpr<Float32, K>, BinaryExprAst<LiteralExprAst<Float32>, Ast>>;

    fn div(self, other: &Expr<'scope, K, Ast>) -> (expr: Expr<'scope, DivideExpr<Float32, K>, BinaryExprAst<LiteralExprAst<Float32>, Ast>>)
        ensures
            expr.ast.left.value == self,
            expr.ast.op == ArithmeticOp::Divide,
            expr.ast.right == other.ast,
            expr.project_alias == Label::Static("expr"),
    {
        Expr::<Float32, LiteralExprAst<Float32>>::binary(
            Expr::<Float32, LiteralExprAst<Float32>>::lit(self).ast,
            ArithmeticOp::Divide,
            other,
        )
    }
}

impl<'scope, K: ExprKind<Value = Float32>> vstd::std_specs::ops::DivSpecImpl<&ColumnRef<'scope, K>> for Float32 {
    open spec fn obeys_div_spec() -> bool {
        false
    }

    open spec fn div_req(self, other: &ColumnRef<'scope, K>) -> bool {
        true
    }

    open spec fn div_spec(self, other: &ColumnRef<'scope, K>) -> Expr<'scope, DivideExpr<Float32, K>, BinaryExprAst<LiteralExprAst<Float32>, ColumnExprAst<K>>> {
        arbitrary()
    }
}

impl<'scope, K: ExprKind<Value = Float32>> Div<&ColumnRef<'scope, K>> for Float32 {
    type Output = Expr<'scope, DivideExpr<Float32, K>, BinaryExprAst<LiteralExprAst<Float32>, ColumnExprAst<K>>>;

    fn div(self, other: &ColumnRef<'scope, K>) -> (expr: Expr<'scope, DivideExpr<Float32, K>, BinaryExprAst<LiteralExprAst<Float32>, ColumnExprAst<K>>>)
        ensures
            expr.ast.left.value == self,
            expr.ast.op == ArithmeticOp::Divide,
            expr.ast.right == other.ast(),
            expr.project_alias == Label::Static("expr"),
    {
        Expr::<Float32, LiteralExprAst<Float32>>::binary(
            Expr::<Float32, LiteralExprAst<Float32>>::lit(self).ast,
            ArithmeticOp::Divide,
            other,
        )
    }
}

impl<'scope, K: ExprKind<Value = Float64>, Ast: ExprAst> vstd::std_specs::ops::AddSpecImpl<Expr<'scope, K, Ast>> for Float64 where HNil: HAppend<Ast::Params> {
    open spec fn obeys_add_spec() -> bool {
        false
    }

    open spec fn add_req(self, other: Expr<'scope, K, Ast>) -> bool {
        true
    }

    open spec fn add_spec(self, other: Expr<'scope, K, Ast>) -> Expr<'scope, AddExpr<Float64, K>, BinaryExprAst<LiteralExprAst<Float64>, Ast>> {
        arbitrary()
    }
}

impl<'scope, K: ExprKind<Value = Float64>, Ast: ExprAst> Add<Expr<'scope, K, Ast>> for Float64 where HNil: HAppend<Ast::Params> {
    type Output = Expr<'scope, AddExpr<Float64, K>, BinaryExprAst<LiteralExprAst<Float64>, Ast>>;

    fn add(self, other: Expr<'scope, K, Ast>) -> (expr: Expr<'scope, AddExpr<Float64, K>, BinaryExprAst<LiteralExprAst<Float64>, Ast>>)
        ensures
            expr.ast.left.value == self,
            expr.ast.op == ArithmeticOp::Add,
            expr.ast.right == other.ast,
            expr.project_alias == Label::Static("expr"),
    {
        Expr::<Float64, LiteralExprAst<Float64>>::binary(
            Expr::<Float64, LiteralExprAst<Float64>>::lit(self).ast,
            ArithmeticOp::Add,
            other,
        )
    }
}

impl<'scope, K: ExprKind<Value = Float64>> vstd::std_specs::ops::AddSpecImpl<ColumnRef<'scope, K>> for Float64 {
    open spec fn obeys_add_spec() -> bool {
        false
    }

    open spec fn add_req(self, other: ColumnRef<'scope, K>) -> bool {
        true
    }

    open spec fn add_spec(self, other: ColumnRef<'scope, K>) -> Expr<'scope, AddExpr<Float64, K>, BinaryExprAst<LiteralExprAst<Float64>, ColumnExprAst<K>>> {
        arbitrary()
    }
}

impl<'scope, K: ExprKind<Value = Float64>> Add<ColumnRef<'scope, K>> for Float64 {
    type Output = Expr<'scope, AddExpr<Float64, K>, BinaryExprAst<LiteralExprAst<Float64>, ColumnExprAst<K>>>;

    fn add(self, other: ColumnRef<'scope, K>) -> (expr: Expr<'scope, AddExpr<Float64, K>, BinaryExprAst<LiteralExprAst<Float64>, ColumnExprAst<K>>>)
        ensures
            expr.ast.left.value == self,
            expr.ast.op == ArithmeticOp::Add,
            expr.ast.right == other.ast(),
            expr.project_alias == Label::Static("expr"),
    {
        Expr::<Float64, LiteralExprAst<Float64>>::binary(
            Expr::<Float64, LiteralExprAst<Float64>>::lit(self).ast,
            ArithmeticOp::Add,
            other,
        )
    }
}

impl<'scope, K: ExprKind<Value = Float64>, Ast: ExprAst> vstd::std_specs::ops::AddSpecImpl<&Expr<'scope, K, Ast>> for Float64 where HNil: HAppend<Ast::Params> {
    open spec fn obeys_add_spec() -> bool {
        false
    }

    open spec fn add_req(self, other: &Expr<'scope, K, Ast>) -> bool {
        true
    }

    open spec fn add_spec(self, other: &Expr<'scope, K, Ast>) -> Expr<'scope, AddExpr<Float64, K>, BinaryExprAst<LiteralExprAst<Float64>, Ast>> {
        arbitrary()
    }
}

impl<'scope, K: ExprKind<Value = Float64>, Ast: ExprAst> Add<&Expr<'scope, K, Ast>> for Float64 where HNil: HAppend<Ast::Params> {
    type Output = Expr<'scope, AddExpr<Float64, K>, BinaryExprAst<LiteralExprAst<Float64>, Ast>>;

    fn add(self, other: &Expr<'scope, K, Ast>) -> (expr: Expr<'scope, AddExpr<Float64, K>, BinaryExprAst<LiteralExprAst<Float64>, Ast>>)
        ensures
            expr.ast.left.value == self,
            expr.ast.op == ArithmeticOp::Add,
            expr.ast.right == other.ast,
            expr.project_alias == Label::Static("expr"),
    {
        Expr::<Float64, LiteralExprAst<Float64>>::binary(
            Expr::<Float64, LiteralExprAst<Float64>>::lit(self).ast,
            ArithmeticOp::Add,
            other,
        )
    }
}

impl<'scope, K: ExprKind<Value = Float64>> vstd::std_specs::ops::AddSpecImpl<&ColumnRef<'scope, K>> for Float64 {
    open spec fn obeys_add_spec() -> bool {
        false
    }

    open spec fn add_req(self, other: &ColumnRef<'scope, K>) -> bool {
        true
    }

    open spec fn add_spec(self, other: &ColumnRef<'scope, K>) -> Expr<'scope, AddExpr<Float64, K>, BinaryExprAst<LiteralExprAst<Float64>, ColumnExprAst<K>>> {
        arbitrary()
    }
}

impl<'scope, K: ExprKind<Value = Float64>> Add<&ColumnRef<'scope, K>> for Float64 {
    type Output = Expr<'scope, AddExpr<Float64, K>, BinaryExprAst<LiteralExprAst<Float64>, ColumnExprAst<K>>>;

    fn add(self, other: &ColumnRef<'scope, K>) -> (expr: Expr<'scope, AddExpr<Float64, K>, BinaryExprAst<LiteralExprAst<Float64>, ColumnExprAst<K>>>)
        ensures
            expr.ast.left.value == self,
            expr.ast.op == ArithmeticOp::Add,
            expr.ast.right == other.ast(),
            expr.project_alias == Label::Static("expr"),
    {
        Expr::<Float64, LiteralExprAst<Float64>>::binary(
            Expr::<Float64, LiteralExprAst<Float64>>::lit(self).ast,
            ArithmeticOp::Add,
            other,
        )
    }
}

impl<'scope, K: ExprKind<Value = Float64>, Ast: ExprAst> vstd::std_specs::ops::SubSpecImpl<Expr<'scope, K, Ast>> for Float64 where HNil: HAppend<Ast::Params> {
    open spec fn obeys_sub_spec() -> bool {
        false
    }

    open spec fn sub_req(self, other: Expr<'scope, K, Ast>) -> bool {
        true
    }

    open spec fn sub_spec(self, other: Expr<'scope, K, Ast>) -> Expr<'scope, SubtractExpr<Float64, K>, BinaryExprAst<LiteralExprAst<Float64>, Ast>> {
        arbitrary()
    }
}

impl<'scope, K: ExprKind<Value = Float64>, Ast: ExprAst> Sub<Expr<'scope, K, Ast>> for Float64 where HNil: HAppend<Ast::Params> {
    type Output = Expr<'scope, SubtractExpr<Float64, K>, BinaryExprAst<LiteralExprAst<Float64>, Ast>>;

    fn sub(self, other: Expr<'scope, K, Ast>) -> (expr: Expr<'scope, SubtractExpr<Float64, K>, BinaryExprAst<LiteralExprAst<Float64>, Ast>>)
        ensures
            expr.ast.left.value == self,
            expr.ast.op == ArithmeticOp::Subtract,
            expr.ast.right == other.ast,
            expr.project_alias == Label::Static("expr"),
    {
        Expr::<Float64, LiteralExprAst<Float64>>::binary(
            Expr::<Float64, LiteralExprAst<Float64>>::lit(self).ast,
            ArithmeticOp::Subtract,
            other,
        )
    }
}

impl<'scope, K: ExprKind<Value = Float64>> vstd::std_specs::ops::SubSpecImpl<ColumnRef<'scope, K>> for Float64 {
    open spec fn obeys_sub_spec() -> bool {
        false
    }

    open spec fn sub_req(self, other: ColumnRef<'scope, K>) -> bool {
        true
    }

    open spec fn sub_spec(self, other: ColumnRef<'scope, K>) -> Expr<'scope, SubtractExpr<Float64, K>, BinaryExprAst<LiteralExprAst<Float64>, ColumnExprAst<K>>> {
        arbitrary()
    }
}

impl<'scope, K: ExprKind<Value = Float64>> Sub<ColumnRef<'scope, K>> for Float64 {
    type Output = Expr<'scope, SubtractExpr<Float64, K>, BinaryExprAst<LiteralExprAst<Float64>, ColumnExprAst<K>>>;

    fn sub(self, other: ColumnRef<'scope, K>) -> (expr: Expr<'scope, SubtractExpr<Float64, K>, BinaryExprAst<LiteralExprAst<Float64>, ColumnExprAst<K>>>)
        ensures
            expr.ast.left.value == self,
            expr.ast.op == ArithmeticOp::Subtract,
            expr.ast.right == other.ast(),
            expr.project_alias == Label::Static("expr"),
    {
        Expr::<Float64, LiteralExprAst<Float64>>::binary(
            Expr::<Float64, LiteralExprAst<Float64>>::lit(self).ast,
            ArithmeticOp::Subtract,
            other,
        )
    }
}

impl<'scope, K: ExprKind<Value = Float64>, Ast: ExprAst> vstd::std_specs::ops::SubSpecImpl<&Expr<'scope, K, Ast>> for Float64 where HNil: HAppend<Ast::Params> {
    open spec fn obeys_sub_spec() -> bool {
        false
    }

    open spec fn sub_req(self, other: &Expr<'scope, K, Ast>) -> bool {
        true
    }

    open spec fn sub_spec(self, other: &Expr<'scope, K, Ast>) -> Expr<'scope, SubtractExpr<Float64, K>, BinaryExprAst<LiteralExprAst<Float64>, Ast>> {
        arbitrary()
    }
}

impl<'scope, K: ExprKind<Value = Float64>, Ast: ExprAst> Sub<&Expr<'scope, K, Ast>> for Float64 where HNil: HAppend<Ast::Params> {
    type Output = Expr<'scope, SubtractExpr<Float64, K>, BinaryExprAst<LiteralExprAst<Float64>, Ast>>;

    fn sub(self, other: &Expr<'scope, K, Ast>) -> (expr: Expr<'scope, SubtractExpr<Float64, K>, BinaryExprAst<LiteralExprAst<Float64>, Ast>>)
        ensures
            expr.ast.left.value == self,
            expr.ast.op == ArithmeticOp::Subtract,
            expr.ast.right == other.ast,
            expr.project_alias == Label::Static("expr"),
    {
        Expr::<Float64, LiteralExprAst<Float64>>::binary(
            Expr::<Float64, LiteralExprAst<Float64>>::lit(self).ast,
            ArithmeticOp::Subtract,
            other,
        )
    }
}

impl<'scope, K: ExprKind<Value = Float64>> vstd::std_specs::ops::SubSpecImpl<&ColumnRef<'scope, K>> for Float64 {
    open spec fn obeys_sub_spec() -> bool {
        false
    }

    open spec fn sub_req(self, other: &ColumnRef<'scope, K>) -> bool {
        true
    }

    open spec fn sub_spec(self, other: &ColumnRef<'scope, K>) -> Expr<'scope, SubtractExpr<Float64, K>, BinaryExprAst<LiteralExprAst<Float64>, ColumnExprAst<K>>> {
        arbitrary()
    }
}

impl<'scope, K: ExprKind<Value = Float64>> Sub<&ColumnRef<'scope, K>> for Float64 {
    type Output = Expr<'scope, SubtractExpr<Float64, K>, BinaryExprAst<LiteralExprAst<Float64>, ColumnExprAst<K>>>;

    fn sub(self, other: &ColumnRef<'scope, K>) -> (expr: Expr<'scope, SubtractExpr<Float64, K>, BinaryExprAst<LiteralExprAst<Float64>, ColumnExprAst<K>>>)
        ensures
            expr.ast.left.value == self,
            expr.ast.op == ArithmeticOp::Subtract,
            expr.ast.right == other.ast(),
            expr.project_alias == Label::Static("expr"),
    {
        Expr::<Float64, LiteralExprAst<Float64>>::binary(
            Expr::<Float64, LiteralExprAst<Float64>>::lit(self).ast,
            ArithmeticOp::Subtract,
            other,
        )
    }
}

impl<'scope, K: ExprKind<Value = Float64>, Ast: ExprAst> vstd::std_specs::ops::MulSpecImpl<Expr<'scope, K, Ast>> for Float64 where HNil: HAppend<Ast::Params> {
    open spec fn obeys_mul_spec() -> bool {
        false
    }

    open spec fn mul_req(self, other: Expr<'scope, K, Ast>) -> bool {
        true
    }

    open spec fn mul_spec(self, other: Expr<'scope, K, Ast>) -> Expr<'scope, MultiplyExpr<Float64, K>, BinaryExprAst<LiteralExprAst<Float64>, Ast>> {
        arbitrary()
    }
}

impl<'scope, K: ExprKind<Value = Float64>, Ast: ExprAst> Mul<Expr<'scope, K, Ast>> for Float64 where HNil: HAppend<Ast::Params> {
    type Output = Expr<'scope, MultiplyExpr<Float64, K>, BinaryExprAst<LiteralExprAst<Float64>, Ast>>;

    fn mul(self, other: Expr<'scope, K, Ast>) -> (expr: Expr<'scope, MultiplyExpr<Float64, K>, BinaryExprAst<LiteralExprAst<Float64>, Ast>>)
        ensures
            expr.ast.left.value == self,
            expr.ast.op == ArithmeticOp::Multiply,
            expr.ast.right == other.ast,
            expr.project_alias == Label::Static("expr"),
    {
        Expr::<Float64, LiteralExprAst<Float64>>::binary(
            Expr::<Float64, LiteralExprAst<Float64>>::lit(self).ast,
            ArithmeticOp::Multiply,
            other,
        )
    }
}

impl<'scope, K: ExprKind<Value = Float64>> vstd::std_specs::ops::MulSpecImpl<ColumnRef<'scope, K>> for Float64 {
    open spec fn obeys_mul_spec() -> bool {
        false
    }

    open spec fn mul_req(self, other: ColumnRef<'scope, K>) -> bool {
        true
    }

    open spec fn mul_spec(self, other: ColumnRef<'scope, K>) -> Expr<'scope, MultiplyExpr<Float64, K>, BinaryExprAst<LiteralExprAst<Float64>, ColumnExprAst<K>>> {
        arbitrary()
    }
}

impl<'scope, K: ExprKind<Value = Float64>> Mul<ColumnRef<'scope, K>> for Float64 {
    type Output = Expr<'scope, MultiplyExpr<Float64, K>, BinaryExprAst<LiteralExprAst<Float64>, ColumnExprAst<K>>>;

    fn mul(self, other: ColumnRef<'scope, K>) -> (expr: Expr<'scope, MultiplyExpr<Float64, K>, BinaryExprAst<LiteralExprAst<Float64>, ColumnExprAst<K>>>)
        ensures
            expr.ast.left.value == self,
            expr.ast.op == ArithmeticOp::Multiply,
            expr.ast.right == other.ast(),
            expr.project_alias == Label::Static("expr"),
    {
        Expr::<Float64, LiteralExprAst<Float64>>::binary(
            Expr::<Float64, LiteralExprAst<Float64>>::lit(self).ast,
            ArithmeticOp::Multiply,
            other,
        )
    }
}

impl<'scope, K: ExprKind<Value = Float64>, Ast: ExprAst> vstd::std_specs::ops::MulSpecImpl<&Expr<'scope, K, Ast>> for Float64 where HNil: HAppend<Ast::Params> {
    open spec fn obeys_mul_spec() -> bool {
        false
    }

    open spec fn mul_req(self, other: &Expr<'scope, K, Ast>) -> bool {
        true
    }

    open spec fn mul_spec(self, other: &Expr<'scope, K, Ast>) -> Expr<'scope, MultiplyExpr<Float64, K>, BinaryExprAst<LiteralExprAst<Float64>, Ast>> {
        arbitrary()
    }
}

impl<'scope, K: ExprKind<Value = Float64>, Ast: ExprAst> Mul<&Expr<'scope, K, Ast>> for Float64 where HNil: HAppend<Ast::Params> {
    type Output = Expr<'scope, MultiplyExpr<Float64, K>, BinaryExprAst<LiteralExprAst<Float64>, Ast>>;

    fn mul(self, other: &Expr<'scope, K, Ast>) -> (expr: Expr<'scope, MultiplyExpr<Float64, K>, BinaryExprAst<LiteralExprAst<Float64>, Ast>>)
        ensures
            expr.ast.left.value == self,
            expr.ast.op == ArithmeticOp::Multiply,
            expr.ast.right == other.ast,
            expr.project_alias == Label::Static("expr"),
    {
        Expr::<Float64, LiteralExprAst<Float64>>::binary(
            Expr::<Float64, LiteralExprAst<Float64>>::lit(self).ast,
            ArithmeticOp::Multiply,
            other,
        )
    }
}

impl<'scope, K: ExprKind<Value = Float64>> vstd::std_specs::ops::MulSpecImpl<&ColumnRef<'scope, K>> for Float64 {
    open spec fn obeys_mul_spec() -> bool {
        false
    }

    open spec fn mul_req(self, other: &ColumnRef<'scope, K>) -> bool {
        true
    }

    open spec fn mul_spec(self, other: &ColumnRef<'scope, K>) -> Expr<'scope, MultiplyExpr<Float64, K>, BinaryExprAst<LiteralExprAst<Float64>, ColumnExprAst<K>>> {
        arbitrary()
    }
}

impl<'scope, K: ExprKind<Value = Float64>> Mul<&ColumnRef<'scope, K>> for Float64 {
    type Output = Expr<'scope, MultiplyExpr<Float64, K>, BinaryExprAst<LiteralExprAst<Float64>, ColumnExprAst<K>>>;

    fn mul(self, other: &ColumnRef<'scope, K>) -> (expr: Expr<'scope, MultiplyExpr<Float64, K>, BinaryExprAst<LiteralExprAst<Float64>, ColumnExprAst<K>>>)
        ensures
            expr.ast.left.value == self,
            expr.ast.op == ArithmeticOp::Multiply,
            expr.ast.right == other.ast(),
            expr.project_alias == Label::Static("expr"),
    {
        Expr::<Float64, LiteralExprAst<Float64>>::binary(
            Expr::<Float64, LiteralExprAst<Float64>>::lit(self).ast,
            ArithmeticOp::Multiply,
            other,
        )
    }
}

impl<'scope, K: ExprKind<Value = Float64>, Ast: ExprAst> vstd::std_specs::ops::DivSpecImpl<Expr<'scope, K, Ast>> for Float64 where HNil: HAppend<Ast::Params> {
    open spec fn obeys_div_spec() -> bool {
        false
    }

    open spec fn div_req(self, other: Expr<'scope, K, Ast>) -> bool {
        true
    }

    open spec fn div_spec(self, other: Expr<'scope, K, Ast>) -> Expr<'scope, DivideExpr<Float64, K>, BinaryExprAst<LiteralExprAst<Float64>, Ast>> {
        arbitrary()
    }
}

impl<'scope, K: ExprKind<Value = Float64>, Ast: ExprAst> Div<Expr<'scope, K, Ast>> for Float64 where HNil: HAppend<Ast::Params> {
    type Output = Expr<'scope, DivideExpr<Float64, K>, BinaryExprAst<LiteralExprAst<Float64>, Ast>>;

    fn div(self, other: Expr<'scope, K, Ast>) -> (expr: Expr<'scope, DivideExpr<Float64, K>, BinaryExprAst<LiteralExprAst<Float64>, Ast>>)
        ensures
            expr.ast.left.value == self,
            expr.ast.op == ArithmeticOp::Divide,
            expr.ast.right == other.ast,
            expr.project_alias == Label::Static("expr"),
    {
        Expr::<Float64, LiteralExprAst<Float64>>::binary(
            Expr::<Float64, LiteralExprAst<Float64>>::lit(self).ast,
            ArithmeticOp::Divide,
            other,
        )
    }
}

impl<'scope, K: ExprKind<Value = Float64>> vstd::std_specs::ops::DivSpecImpl<ColumnRef<'scope, K>> for Float64 {
    open spec fn obeys_div_spec() -> bool {
        false
    }

    open spec fn div_req(self, other: ColumnRef<'scope, K>) -> bool {
        true
    }

    open spec fn div_spec(self, other: ColumnRef<'scope, K>) -> Expr<'scope, DivideExpr<Float64, K>, BinaryExprAst<LiteralExprAst<Float64>, ColumnExprAst<K>>> {
        arbitrary()
    }
}

impl<'scope, K: ExprKind<Value = Float64>> Div<ColumnRef<'scope, K>> for Float64 {
    type Output = Expr<'scope, DivideExpr<Float64, K>, BinaryExprAst<LiteralExprAst<Float64>, ColumnExprAst<K>>>;

    fn div(self, other: ColumnRef<'scope, K>) -> (expr: Expr<'scope, DivideExpr<Float64, K>, BinaryExprAst<LiteralExprAst<Float64>, ColumnExprAst<K>>>)
        ensures
            expr.ast.left.value == self,
            expr.ast.op == ArithmeticOp::Divide,
            expr.ast.right == other.ast(),
            expr.project_alias == Label::Static("expr"),
    {
        Expr::<Float64, LiteralExprAst<Float64>>::binary(
            Expr::<Float64, LiteralExprAst<Float64>>::lit(self).ast,
            ArithmeticOp::Divide,
            other,
        )
    }
}

impl<'scope, K: ExprKind<Value = Float64>, Ast: ExprAst> vstd::std_specs::ops::DivSpecImpl<&Expr<'scope, K, Ast>> for Float64 where HNil: HAppend<Ast::Params> {
    open spec fn obeys_div_spec() -> bool {
        false
    }

    open spec fn div_req(self, other: &Expr<'scope, K, Ast>) -> bool {
        true
    }

    open spec fn div_spec(self, other: &Expr<'scope, K, Ast>) -> Expr<'scope, DivideExpr<Float64, K>, BinaryExprAst<LiteralExprAst<Float64>, Ast>> {
        arbitrary()
    }
}

impl<'scope, K: ExprKind<Value = Float64>, Ast: ExprAst> Div<&Expr<'scope, K, Ast>> for Float64 where HNil: HAppend<Ast::Params> {
    type Output = Expr<'scope, DivideExpr<Float64, K>, BinaryExprAst<LiteralExprAst<Float64>, Ast>>;

    fn div(self, other: &Expr<'scope, K, Ast>) -> (expr: Expr<'scope, DivideExpr<Float64, K>, BinaryExprAst<LiteralExprAst<Float64>, Ast>>)
        ensures
            expr.ast.left.value == self,
            expr.ast.op == ArithmeticOp::Divide,
            expr.ast.right == other.ast,
            expr.project_alias == Label::Static("expr"),
    {
        Expr::<Float64, LiteralExprAst<Float64>>::binary(
            Expr::<Float64, LiteralExprAst<Float64>>::lit(self).ast,
            ArithmeticOp::Divide,
            other,
        )
    }
}

impl<'scope, K: ExprKind<Value = Float64>> vstd::std_specs::ops::DivSpecImpl<&ColumnRef<'scope, K>> for Float64 {
    open spec fn obeys_div_spec() -> bool {
        false
    }

    open spec fn div_req(self, other: &ColumnRef<'scope, K>) -> bool {
        true
    }

    open spec fn div_spec(self, other: &ColumnRef<'scope, K>) -> Expr<'scope, DivideExpr<Float64, K>, BinaryExprAst<LiteralExprAst<Float64>, ColumnExprAst<K>>> {
        arbitrary()
    }
}

impl<'scope, K: ExprKind<Value = Float64>> Div<&ColumnRef<'scope, K>> for Float64 {
    type Output = Expr<'scope, DivideExpr<Float64, K>, BinaryExprAst<LiteralExprAst<Float64>, ColumnExprAst<K>>>;

    fn div(self, other: &ColumnRef<'scope, K>) -> (expr: Expr<'scope, DivideExpr<Float64, K>, BinaryExprAst<LiteralExprAst<Float64>, ColumnExprAst<K>>>)
        ensures
            expr.ast.left.value == self,
            expr.ast.op == ArithmeticOp::Divide,
            expr.ast.right == other.ast(),
            expr.project_alias == Label::Static("expr"),
    {
        Expr::<Float64, LiteralExprAst<Float64>>::binary(
            Expr::<Float64, LiteralExprAst<Float64>>::lit(self).ast,
            ArithmeticOp::Divide,
            other,
        )
    }
}

} // verus!
