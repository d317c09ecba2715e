//! Arithmetic with a signed integer on the left.
use crate::expr::ast::{BinaryExprAst, ColumnExprAst, ExprAst, LiteralExprAst};
use crate::expr::kind::{AddExpr, DivideExpr, ExprKind, MultiplyExpr, SubtractExpr};
use crate::expr::{ColumnRef, Expr};
use crate::label::Label;
use crate::list::{HAppend, HNil};
use crate::ops::ArithmeticOp;
use std::ops::{Add, Div, Mul, Sub};
use vstd::prelude::*;

verus! {

impl<'scope, K: ExprKind<Value = i8>, Ast: ExprAst> vstd::std_specs::ops::AddSpecImpl<Expr<'scope, K, Ast>> for i8 where HNil: HAppend<Ast::Params> {
    open spec fn obeys_add_spec() -> bool {
        false
    }

    open spec fn add_req(self, other: Expr<'scope, K, Ast>) -> bool {
        true
    }

    open spec fn add_spec(self, other: Expr<'scope, K, Ast>) -> Expr<'scope, AddExpr<i8, K>, BinaryExprAst<LiteralExprAst<i8>, Ast>> {
        arbitrary()
    }
}

impl<'scope, K: ExprKind<Value = i8>, Ast: ExprAst> Add<Expr<'scope, K, Ast>> for i8 where HNil: HAppend<Ast::Params> {
    type Output = Expr<'scope, AddExpr<i8, K>, BinaryExprAst<LiteralExprAst<i8>, Ast>>;

    fn add(self, other: Expr<'scope, K, Ast>) -> (expr: Expr<'scope, AddExpr<i8, K>, BinaryExprAst<LiteralExprAst<i8>, Ast>>)
        ensures
            expr.ast.left.value == self,
            expr.ast.op == ArithmeticOp::Add,
            expr.ast.right == other.ast,
            expr.project_alias == Label::Static("expr"),
    {
        Expr::<i8, LiteralExprAst<i8>>::binary(
            Expr::<i8, LiteralExprAst<i8>>::lit(self).ast,
            ArithmeticOp::Add,
            other,
        )
    }
}

impl<'scope, K: ExprKind<Value = i8>> vstd::std_specs::ops::AddSpecImpl<ColumnRef<'scope, K>> for i8 {
    open spec fn obeys_add_spec() -> bool {
        false
    }

    open spec fn add_req(self, other: ColumnRef<'scope, K>) -> bool {
        true
    }

    open spec fn add_spec(self, other: ColumnRef<'scope, K>) -> Expr<'scope, AddExpr<i8, K>, BinaryExprAst<LiteralExprAst<i8>, ColumnExprAst<K>>> {
        arbitrary()
    }
}

impl<'scope, K: ExprKind<Value = i8>> Add<ColumnRef<'scope, K>> for i8 {
    type Output = Expr<'scope, AddExpr<i8, K>, BinaryExprAst<LiteralExprAst<i8>, ColumnExprAst<K>>>;

    fn add(self, other: ColumnRef<'scope, K>) -> (expr: Expr<'scope, AddExpr<i8, K>, BinaryExprAst<LiteralExprAst<i8>, ColumnExprAst<K>>>)
        ensures
            expr.ast.left.value == self,
            expr.ast.op == ArithmeticOp::Add,
            expr.ast.right == other.ast(),
            expr.project_alias == Label::Static("expr"),
    {
        Expr::<i8, LiteralExprAst<i8>>::binary(
            Expr::<i8, LiteralExprAst<i8>>::lit(self).ast,
            ArithmeticOp::Add,
            other,
        )
    }
}

impl<'scope, K: ExprKind<Value = i8>, Ast: ExprAst> vstd::std_specs::ops::AddSpecImpl<&Expr<'scope, K, Ast>> for i8 where HNil: HAppend<Ast::Params> {
    open spec fn obeys_add_spec() -> bool {
        false
    }

    open spec fn add_req(self, other: &Expr<'scope, K, Ast>) -> bool {
        true
    }

    open spec fn add_spec(self, other: &Expr<'scope, K, Ast>) -> Expr<'scope, AddExpr<i8, K>, BinaryExprAst<LiteralExprAst<i8>, Ast>> {
        arbitrary()
    }
}

impl<'scope, K: ExprKind<Value = i8>, Ast: ExprAst> Add<&Expr<'scope, K, Ast>> for i8 where HNil: HAppend<Ast::Params> {
    type Output = Expr<'scope, AddExpr<i8, K>, BinaryExprAst<LiteralExprAst<i8>, Ast>>;

    fn add(self, other: &Expr<'scope, K, Ast>) -> (expr: Expr<'scope, AddExpr<i8, K>, BinaryExprAst<LiteralExprAst<i8>, Ast>>)
        ensures
            expr.ast.left.value == self,
            expr.ast.op == ArithmeticOp::Add,
            expr.ast.right == other.ast,
            expr.project_alias == Label::Static("expr"),
    {
        Expr::<i8, LiteralExprAst<i8>>::binary(
            Expr::<i8, LiteralExprAst<i8>>::lit(self).ast,
            ArithmeticOp::Add,
            other,
        )
    }
}

impl<'scope, K: ExprKind<Value = i8>> vstd::std_specs::ops::AddSpecImpl<&ColumnRef<'scope, K>> for i8 {
    open spec fn obeys_add_spec() -> bool {
        false
    }

    open spec fn add_req(self, other: &ColumnRef<'scope, K>) -> bool {
        true
    }

    open spec fn add_spec(self, other: &ColumnRef<'scope, K>) -> Expr<'scope, AddExpr<i8, K>, BinaryExprAst<LiteralExprAst<i8>, ColumnExprAst<K>>> {
        arbitrary()
    }
}

impl<'scope, K: ExprKind<Value = i8>> Add<&ColumnRef<'scope, K>> for i8 {
    type Output = Expr<'scope, AddExpr<i8, K>, BinaryExprAst<LiteralExprAst<i8>, ColumnExprAst<K>>>;

    fn add(self, other: &ColumnRef<'scope, K>) -> (expr: Expr<'scope, AddExpr<i8, K>, BinaryExprAst<LiteralExprAst<i8>, ColumnExprAst<K>>>)
        ensures
            expr.ast.left.value == self,
            expr.ast.op == ArithmeticOp::Add,
            expr.ast.right == other.ast(),
            expr.project_alias == Label::Static("expr"),
    {
        Expr::<i8, LiteralExprAst<i8>>::binary(
            Expr::<i8, LiteralExprAst<i8>>::lit(self).ast,
            ArithmeticOp::Add,
            other,
        )
    }
}

impl<'scope, K: ExprKind<Value = i8>, Ast: ExprAst> vstd::std_specs::ops::SubSpecImpl<Expr<'scope, K, Ast>> for i8 where HNil: HAppend<Ast::Params> {
    open spec fn obeys_sub_spec() -> bool {
        false
    }

    open spec fn sub_req(self, other: Expr<'scope, K, Ast>) -> bool {
        true
    }

    open spec fn sub_spec(self, other: Expr<'scope, K, Ast>) -> Expr<'scope, SubtractExpr<i8, K>, BinaryExprAst<LiteralExprAst<i8>, Ast>> {
        arbitrary()
    }
}

impl<'scope, K: ExprKind<Value = i8>, Ast: ExprAst> Sub<Expr<'scope, K, Ast>> for i8 where HNil: HAppend<Ast::Params> {
    type Output = Expr<'scope, SubtractExpr<i8, K>, BinaryExprAst<LiteralExprAst<i8>, Ast>>;

    fn sub(self, other: Expr<'scope, K, Ast>) -> (expr: Expr<'scope, SubtractExpr<i8, K>, BinaryExprAst<LiteralExprAst<i8>, Ast>>)
        ensures
            expr.ast.left.value == self,
            expr.ast.op == ArithmeticOp::Subtract,
            expr.ast.right == other.ast,
            expr.project_alias == Label::Static("expr"),
    {
        Expr::<i8, LiteralExprAst<i8>>::binary(
            Expr::<i8, LiteralExprAst<i8>>::lit(self).ast,
            ArithmeticOp::Subtract,
            other,
        )
    }
}

impl<'scope, K: ExprKind<Value = i8>> vstd::std_specs::ops::SubSpecImpl<ColumnRef<'scope, K>> for i8 {
    open spec fn obeys_sub_spec() -> bool {
        false
    }

    open spec fn sub_req(self, other: ColumnRef<'scope, K>) -> bool {
        true
    }

    open spec fn sub_spec(self, other: ColumnRef<'scope, K>) -> Expr<'scope, SubtractExpr<i8, K>, BinaryExprAst<LiteralExprAst<i8>, ColumnExprAst<K>>> {
        arbitrary()
    }
}

impl<'scope, K: ExprKind<Value = i8>> Sub<ColumnRef<'scope, K>> for i8 {
    type Output = Expr<'scope, SubtractExpr<i8, K>, BinaryExprAst<LiteralExprAst<i8>, ColumnExprAst<K>>>;

    fn sub(self, other: ColumnRef<'scope, K>) -> (expr: Expr<'scope, SubtractExpr<i8, K>, BinaryExprAst<LiteralExprAst<i8>, ColumnExprAst<K>>>)
        ensures
            expr.ast.left.value == self,
            expr.ast.op == ArithmeticOp::Subtract,
            expr.ast.right == other.ast(),
            expr.project_alias == Label::Static("expr"),
    {
        Expr::<i8, LiteralExprAst<i8>>::binary(
            Expr::<i8, LiteralExprAst<i8>>::lit(self).ast,
            ArithmeticOp::Subtract,
            other,
        )
    }
}

impl<'scope, K: ExprKind<Value = i8>, Ast: ExprAst> vstd::std_specs::ops::SubSpecImpl<&Expr<'scope, K, Ast>> for i8 where HNil: HAppend<Ast::Params> {
    open spec fn obeys_sub_spec() -> bool {
        false
    }

    open spec fn sub_req(self, other: &Expr<'scope, K, Ast>) -> bool {
        true
    }

    open spec fn sub_spec(self, other: &Expr<'scope, K, Ast>) -> Expr<'scope, SubtractExpr<i8, K>, BinaryExprAst<LiteralExprAst<i8>, Ast>> {
        arbitrary()
    }
}

impl<'scope, K: ExprKind<Value = i8>, Ast: ExprAst> Sub<&Expr<'scope, K, Ast>> for i8 where HNil: HAppend<Ast::Params> {
    type Output = Expr<'scope, SubtractExpr<i8, K>, BinaryExprAst<LiteralExprAst<i8>, Ast>>;

    fn sub(self, other: &Expr<'scope, K, Ast>) -> (expr: Expr<'scope, SubtractExpr<i8, K>, BinaryExprAst<LiteralExprAst<i8>, Ast>>)
        ensures
            expr.ast.left.value == self,
            expr.ast.op == ArithmeticOp::Subtract,
            expr.ast.right == other.ast,
            expr.project_alias == Label::Static("expr"),
    {
        Expr::<i8, LiteralExprAst<i8>>::binary(
            Expr::<i8, LiteralExprAst<i8>>::lit(self).ast,
            ArithmeticOp::Subtract,
            other,
        )
    }
}

impl<'scope, K: ExprKind<Value = i8>> vstd::std_specs::ops::SubSpecImpl<&ColumnRef<'scope, K>> for i8 {
    open spec fn obeys_sub_spec() -> bool {
        false
    }

    open spec fn sub_req(self, other: &ColumnRef<'scope, K>) -> bool {
        true
    }

    open spec fn sub_spec(self, other: &ColumnRef<'scope, K>) -> Expr<'scope, SubtractExpr<i8, K>, BinaryExprAst<LiteralExprAst<i8>, ColumnExprAst<K>>> {
        arbitrary()
    }
}

impl<'scope, K: ExprKind<Value = i8>> Sub<&ColumnRef<'scope, K>> for i8 {
    type Output = Expr<'scope, SubtractExpr<i8, K>, BinaryExprAst<LiteralExprAst<i8>, ColumnExprAst<K>>>;

    fn sub(self, other: &ColumnRef<'scope, K>) -> (expr: Expr<'scope, SubtractExpr<i8, K>, BinaryExprAst<LiteralExprAst<i8>, ColumnExprAst<K>>>)
        ensures
            expr.ast.left.value == self,
            expr.ast.op == ArithmeticOp::Subtract,
            expr.ast.right == other.ast(),
            expr.project_alias == Label::Static("expr"),
    {
        Expr::<i8, LiteralExprAst<i8>>::binary(
            Expr::<i8, LiteralExprAst<i8>>::lit(self).ast,
            ArithmeticOp::Subtract,
            other,
        )
    }
}

impl<'scope, K: ExprKind<Value = i8>, Ast: ExprAst> vstd::std_specs::ops::MulSpecImpl<Expr<'scope, K, Ast>> for i8 where HNil: HAppend<Ast::Params> {
    open spec fn obeys_mul_spec() -> bool {
        false
    }

    open spec fn mul_req(self, other: Expr<'scope, K, Ast>) -> bool {
        true
    }

    open spec fn mul_spec(self, other: Expr<'scope, K, Ast>) -> Expr<'scope, MultiplyExpr<i8, K>, BinaryExprAst<LiteralExprAst<i8>, Ast>> {
        arbitrary()
    }
}

impl<'scope, K: ExprKind<Value = i8>, Ast: ExprAst> Mul<Expr<'scope, K, Ast>> for i8 where HNil: HAppend<Ast::Params> {
    type Output = Expr<'scope, MultiplyExpr<i8, K>, BinaryExprAst<LiteralExprAst<i8>, Ast>>;

    fn mul(self, other: Expr<'scope, K, Ast>) -> (expr: Expr<'scope, MultiplyExpr<i8, K>, BinaryExprAst<LiteralExprAst<i8>, Ast>>)
        ensures
            expr.ast.left.value == self,
            expr.ast.op == ArithmeticOp::Multiply,
            expr.ast.right == other.ast,
            expr.project_alias == Label::Static("expr"),
    {
        Expr::<i8, LiteralExprAst<i8>>::binary(
            Expr::<i8, LiteralExprAst<i8>>::lit(self).ast,
            ArithmeticOp::Multiply,
            other,
        )
    }
}

impl<'scope, K: ExprKind<Value = i8>> vstd::std_specs::ops::MulSpecImpl<ColumnRef<'scope, K>> for i8 {
    open spec fn obeys_mul_spec() -> bool {
        false
    }

    open spec fn mul_req(self, other: ColumnRef<'scope, K>) -> bool {
        true
    }

    open spec fn mul_spec(self, other: ColumnRef<'scope, K>) -> Expr<'scope, MultiplyExpr<i8, K>, BinaryExprAst<LiteralExprAst<i8>, ColumnExprAst<K>>> {
        arbitrary()
    }
}

impl<'scope, K: ExprKind<Value = i8>> Mul<ColumnRef<'scope, K>> for i8 {
    type Output = Expr<'scope, MultiplyExpr<i8, K>, BinaryExprAst<LiteralExprAst<i8>, ColumnExprAst<K>>>;

    fn mul(self, other: ColumnRef<'scope, K>) -> (expr: Expr<'scope, MultiplyExpr<i8, K>, BinaryExprAst<LiteralExprAst<i8>, ColumnExprAst<K>>>)
        ensures
            expr.ast.left.value == self,
            expr.ast.op == ArithmeticOp::Multiply,
            expr.ast.right == other.ast(),
            expr.project_alias == Label::Static("expr"),
    {
        Expr::<i8, LiteralExprAst<i8>>::binary(
            Expr::<i8, LiteralExprAst<i8>>::lit(self).ast,
            ArithmeticOp::Multiply,
            other,
        )
    }
}

impl<'scope, K: ExprKind<Value = i8>, Ast: ExprAst> vstd::std_specs::ops::MulSpecImpl<&Expr<'scope, K, Ast>> for i8 where HNil: HAppend<Ast::Params> {
    open spec fn obeys_mul_spec() -> bool {
        false
    }

    open spec fn mul_req(self, other: &Expr<'scope, K, Ast>) -> bool {
        true
    }

    open spec fn mul_spec(self, other: &Expr<'scope, K, Ast>) -> Expr<'scope, MultiplyExpr<i8, K>, BinaryExprAst<LiteralExprAst<i8>, Ast>> {
        arbitrary()
    }
}

impl<'scope, K: ExprKind<Value = i8>, Ast: ExprAst> Mul<&Expr<'scope, K, Ast>> for i8 where HNil: HAppend<Ast::Params> {
    type Output = Expr<'scope, MultiplyExpr<i8, K>, BinaryExprAst<LiteralExprAst<i8>, Ast>>;

    fn mul(self, other: &Expr<'scope, K, Ast>) -> (expr: Expr<'scope, MultiplyExpr<i8, K>, BinaryExprAst<LiteralExprAst<i8>, Ast>>)
        ensures
            expr.ast.left.value == self,
            expr.ast.op == ArithmeticOp::Multiply,
            expr.ast.right == other.ast,
            expr.project_alias == Label::Static("expr"),
    {
        Expr::<i8, LiteralExprAst<i8>>::binary(
            Expr::<i8, LiteralExprAst<i8>>::lit(self).ast,
            ArithmeticOp::Multiply,
            other,
        )
    }
}

impl<'scope, K: ExprKind<Value = i8>> vstd::std_specs::ops::MulSpecImpl<&ColumnRef<'scope, K>> for i8 {
    open spec fn obeys_mul_spec() -> bool {
        false
    }

    open spec fn mul_req(self, other: &ColumnRef<'scope, K>) -> bool {
        true
    }

    open spec fn mul_spec(self, other: &ColumnRef<'scope, K>) -> Expr<'scope, MultiplyExpr<i8, K>, BinaryExprAst<LiteralExprAst<i8>, ColumnExprAst<K>>> {
        arbitrary()
    }
}

impl<'scope, K: ExprKind<Value = i8>> Mul<&ColumnRef<'scope, K>> for i8 {
    type Output = Expr<'scope, MultiplyExpr<i8, K>, BinaryExprAst<LiteralExprAst<i8>, ColumnExprAst<K>>>;

    fn mul(self, other: &ColumnRef<'scope, K>) -> (expr: Expr<'scope, MultiplyExpr<i8, K>, BinaryExprAst<LiteralExprAst<i8>, ColumnExprAst<K>>>)
        ensures
            expr.ast.left.value == self,
            expr.ast.op == ArithmeticOp::Multiply,
            expr.ast.right == other.ast(),
            expr.project_alias == Label::Static("expr"),
    {
        Expr::<i8, LiteralExprAst<i8>>::binary(
            Expr::<i8, LiteralExprAst<i8>>::lit(self).ast,
            ArithmeticOp::Multiply,
            other,
        )
    }
}

impl<'scope, K: ExprKind<Value = i8>, Ast: ExprAst> vstd::std_specs::ops::DivSpecImpl<Expr<'scope, K, Ast>> for i8 where HNil: HAppend<Ast::Params> {
    open spec fn obeys_div_spec() -> bool {
        false
    }

    open spec fn div_req(self, other: Expr<'scope, K, Ast>) -> bool {
        true
    }

    open spec fn div_spec(self, other: Expr<'scope, K, Ast>) -> Expr<'scope, DivideExpr<i8, K>, BinaryExprAst<LiteralExprAst<i8>, Ast>> {
        arbitrary()
    }
}

impl<'scope, K: ExprKind<Value = i8>, Ast: ExprAst> Div<Expr<'scope, K, Ast>> for i8 where HNil: HAppend<Ast::Params> {
    type Output = Expr<'scope, DivideExpr<i8, K>, BinaryExprAst<LiteralExprAst<i8>, Ast>>;

    fn div(self, other: Expr<'scope, K, Ast>) -> (expr: Expr<'scope, DivideExpr<i8, K>, BinaryExprAst<LiteralExprAst<i8>, Ast>>)
        ensures
            expr.ast.left.value == self,
            expr.ast.op == ArithmeticOp::Divide,
            expr.ast.right == other.ast,
            expr.project_alias == Label::Static("expr"),
    {
        Expr::<i8, LiteralExprAst<i8>>::binary(
            Expr::<i8, LiteralExprAst<i8>>::lit(self).ast,
            ArithmeticOp::Divide,
            other,
        )
    }
}

impl<'scope, K: ExprKind<Value = i8>> vstd::std_specs::ops::DivSpecImpl<ColumnRef<'scope, K>> for i8 {
    open spec fn obeys_div_spec() -> bool {
        false
    }

    open spec fn div_req(self, other: ColumnRef<'scope, K>) -> bool {
        true
    }

    open spec fn div_spec(self, other: ColumnRef<'scope, K>) -> Expr<'scope, DivideExpr<i8, K>, BinaryExprAst<LiteralExprAst<i8>, ColumnExprAst<K>>> {
        arbitrary()
    }
}

impl<'scope, K: ExprKind<Value = i8>> Div<ColumnRef<'scope, K>> for i8 {
    type Output = Expr<'scope, DivideExpr<i8, K>, BinaryExprAst<LiteralExprAst<i8>, ColumnExprAst<K>>>;

    fn div(self, other: ColumnRef<'scope, K>) -> (expr: Expr<'scope, DivideExpr<i8, K>, BinaryExprAst<LiteralExprAst<i8>, ColumnExprAst<K>>>)
        ensures
            expr.ast.left.value == self,
            expr.ast.op == ArithmeticOp::Divide,
            expr.ast.right == other.ast(),
            expr.project_alias == Label::Static("expr"),
    {
        Expr::<i8, LiteralExprAst<i8>>::binary(
            Expr::<i8, LiteralExprAst<i8>>::lit(self).ast,
            ArithmeticOp::Divide,
            other,
        )
    }
}

impl<'scope, K: ExprKind<Value = i8>, Ast: ExprAst> vstd::std_specs::ops::DivSpecImpl<&Expr<'scope, K, Ast>> for i8 where HNil: HAppend<Ast::Params> {
    open spec fn obeys_div_spec() -> bool {
        false
    }

    open spec fn div_req(self, other: &Expr<'scope, K, Ast>) -> bool {
        true
    }

    open spec fn div_spec(self, other: &Expr<'scope, K, Ast>) -> Expr<'scope, DivideExpr<i8, K>, BinaryExprAst<LiteralExprAst<i8>, Ast>> {
        arbitrary()
    }
}

impl<'scope, K: ExprKind<Value = i8>, Ast: ExprAst> Div<&Expr<'scope, K, Ast>> for i8 where HNil: HAppend<Ast::Params> {
    type Output = Expr<'scope, DivideExpr<i8, K>, BinaryExprAst<LiteralExprAst<i8>, Ast>>;

    fn div(self, other: &Expr<'scope, K, Ast>) -> (expr: Expr<'scope, DivideExpr<i8, K>, BinaryExprAst<LiteralExprAst<i8>, Ast>>)
        ensures
            expr.ast.left.value == self,
            expr.ast.op == ArithmeticOp::Divide,
            expr.ast.right == other.ast,
            expr.project_alias == Label::Static("expr"),
    {
        Expr::<i8, LiteralExprAst<i8>>::binary(
            Expr::<i8, LiteralExprAst<i8>>::lit(self).ast,
            ArithmeticOp::Divide,
            other,
        )
    }
}

impl<'scope, K: ExprKind<Value = i8>> vstd::std_specs::ops::DivSpecImpl<&ColumnRef<'scope, K>> for i8 {
    open spec fn obeys_div_spec() -> bool {
        false
    }

    open spec fn div_req(self, other: &ColumnRef<'scope, K>) -> bool {
        true
    }

    open spec fn div_spec(self, other: &ColumnRef<'scope, K>) -> Expr<'scope, DivideExpr<i8, K>, BinaryExprAst<LiteralExprAst<i8>, ColumnExprAst<K>>> {
        arbitrary()
    }
}

impl<'scope, K: ExprKind<Value = i8>> Div<&ColumnRef<'scope, K>> for i8 {
    type Output = Expr<'scope, DivideExpr<i8, K>, BinaryExprAst<LiteralExprAst<i8>, ColumnExprAst<K>>>;

    fn div(self, other: &ColumnRef<'scope, K>) -> (expr: Expr<'scope, DivideExpr<i8, K>, BinaryExprAst<LiteralExprAst<i8>, ColumnExprAst<K>>>)
        ensures
            expr.ast.left.value == self,
            expr.ast.op == ArithmeticOp::Divide,
            expr.ast.right == other.ast(),
            expr.project_alias == Label::Static("expr"),
    {
        Expr::<i8, LiteralExprAst<i8>>::binary(
            Expr::<i8, LiteralExprAst<i8>>::lit(self).ast,
            ArithmeticOp::Divide,
            other,
        )
    }
}

impl<'scope, K: ExprKind<Value = i16>, Ast: ExprAst> vstd::std_specs::ops::AddSpecImpl<Expr<'scope, K, Ast>> for i16 where HNil: HAppend<Ast::Params> {
    open spec fn obeys_add_spec() -> bool {
        false
    }

    open spec fn add_req(self, other: Expr<'scope, K, Ast>) -> bool {
        true
    }

    open spec fn add_spec(self, other: Expr<'scope, K, Ast>) -> Expr<'scope, AddExpr<i16, K>, BinaryExprAst<LiteralExprAst<i16>, Ast>> {
        arbitrary()
    }
}

impl<'scope, K: ExprKind<Value = i16>, Ast: ExprAst> Add<Expr<'scope, K, Ast>> for i16 where HNil: HAppend<Ast::Params> {
    type Output = Expr<'scope, AddExpr<i16, K>, BinaryExprAst<LiteralExprAst<i16>, Ast>>;

    fn add(self, other: Expr<'scope, K, Ast>) -> (expr: Expr<'scope, AddExpr<i16, K>, BinaryExprAst<LiteralExprAst<i16>, Ast>>)
        ensures
            expr.ast.left.value == self,
            expr.ast.op == ArithmeticOp::Add,
            expr.ast.right == other.ast,
            expr.project_alias == Label::Static("expr"),
    {
        Expr::<i16, LiteralExprAst<i16>>::binary(
            Expr::<i16, LiteralExprAst<i16>>::lit(self).ast,
            ArithmeticOp::Add,
            other,
        )
    }
}

impl<'scope, K: ExprKind<Value = i16>> vstd::std_specs::ops::AddSpecImpl<ColumnRef<'scope, K>> for i16 {
    open spec fn obeys_add_spec() -> bool {
        false
    }

    open spec fn add_req(self, other: ColumnRef<'scope, K>) -> bool {
        true
    }

    open spec fn add_spec(self, other: ColumnRef<'scope, K>) -> Expr<'scope, AddExpr<i16, K>, BinaryExprAst<LiteralExprAst<i16>, ColumnExprAst<K>>> {
        arbitrary()
    }
}

impl<'scope, K: ExprKind<Value = i16>> Add<ColumnRef<'scope, K>> for i16 {
    type Output = Expr<'scope, AddExpr<i16, K>, BinaryExprAst<LiteralExprAst<i16>, ColumnExprAst<K>>>;

    fn add(self, other: ColumnRef<'scope, K>) -> (expr: Expr<'scope, AddExpr<i16, K>, BinaryExprAst<LiteralExprAst<i16>, ColumnExprAst<K>>>)
        ensures
            expr.ast.left.value == self,
            expr.ast.op == ArithmeticOp::Add,
            expr.ast.right == other.ast(),
            expr.project_alias == Label::Static("expr"),
    {
        Expr::<i16, LiteralExprAst<i16>>::binary(
            Expr::<i16, LiteralExprAst<i16>>::lit(self).ast,
            ArithmeticOp::Add,
            other,
        )
    }
}

impl<'scope, K: ExprKind<Value = i16>, Ast: ExprAst> vstd::std_specs::ops::AddSpecImpl<&Expr<'scope, K, Ast>> for i16 where HNil: HAppend<Ast::Params> {
    open spec fn obeys_add_spec() -> bool {
        false
    }

    open spec fn add_req(self, other: &Expr<'scope, K, Ast>) -> bool {
        true
    }

    open spec fn add_spec(self, other: &Expr<'scope, K, Ast>) -> Expr<'scope, AddExpr<i16, K>, BinaryExprAst<LiteralExprAst<i16>, Ast>> {
        arbitrary()
    }
}

impl<'scope, K: ExprKind<Value = i16>, Ast: ExprAst> Add<&Expr<'scope, K, Ast>> for i16 where HNil: HAppend<Ast::Params> {
    type Output = Expr<'scope, AddExpr<i16, K>, BinaryExprAst<LiteralExprAst<i16>, Ast>>;

    fn add(self, other: &Expr<'scope, K, Ast>) -> (expr: Expr<'scope, AddExpr<i16, K>, BinaryExprAst<LiteralExprAst<i16>, Ast>>)
        ensures
            expr.ast.left.value == self,
            expr.ast.op == ArithmeticOp::Add,
            expr.ast.right == other.ast,
            expr.project_alias == Label::Static("expr"),
    {
        Expr::<i16, LiteralExprAst<i16>>::binary(
            Expr::<i16, LiteralExprAst<i16>>::lit(self).ast,
            ArithmeticOp::Add,
            other,
        )
    }
}

impl<'scope, K: ExprKind<Value = i16>> vstd::std_specs::ops::AddSpecImpl<&ColumnRef<'scope, K>> for i16 {
    open spec fn obeys_add_spec() -> bool {
        false
    }

    open spec fn add_req(self, other: &ColumnRef<'scope, K>) -> bool {
        true
    }

    open spec fn add_spec(self, other: &ColumnRef<'scope, K>) -> Expr<'scope, AddExpr<i16, K>, BinaryExprAst<LiteralExprAst<i16>, ColumnExprAst<K>>> {
        arbitrary()
    }
}

impl<'scope, K: ExprKind<Value = i16>> Add<&ColumnRef<'scope, K>> for i16 {
    type Output = Expr<'scope, AddExpr<i16, K>, BinaryExprAst<LiteralExprAst<i16>, ColumnExprAst<K>>>;

    fn add(self, other: &ColumnRef<'scope, K>) -> (expr: Expr<'scope, AddExpr<i16, K>, BinaryExprAst<LiteralExprAst<i16>, ColumnExprAst<K>>>)
        ensures
            expr.ast.left.value == self,
            expr.ast.op == ArithmeticOp::Add,
            expr.ast.right == other.ast(),
            expr.project_alias == Label::Static("expr"),
    {
        Expr::<i16, LiteralExprAst<i16>>::binary(
            Expr::<i16, LiteralExprAst<i16>>::lit(self).ast,
            ArithmeticOp::Add,
            other,
        )
    }
}

impl<'scope, K: ExprKind<Value = i16>, Ast: ExprAst> vstd::std_specs::ops::SubSpecImpl<Expr<'scope, K, Ast>> for i16 where HNil: HAppend<Ast::Params> {
    open spec fn obeys_sub_spec() -> bool {
        false
    }

    open spec fn sub_req(self, other: Expr<'scope, K, Ast>) -> bool {
        true
    }

    open spec fn sub_spec(self, other: Expr<'scope, K, Ast>) -> Expr<'scope, SubtractExpr<i16, K>, BinaryExprAst<LiteralExprAst<i16>, Ast>> {
        arbitrary()
    }
}

impl<'scope, K: ExprKind<Value = i16>, Ast: ExprAst> Sub<Expr<'scope, K, Ast>> for i16 where HNil: HAppend<Ast::Params> {
    type Output = Expr<'scope, SubtractExpr<i16, K>, BinaryExprAst<LiteralExprAst<i16>, Ast>>;

    fn sub(self, other: Expr<'scope, K, Ast>) -> (expr: Expr<'scope, SubtractExpr<i16, K>, BinaryExprAst<LiteralExprAst<i16>, Ast>>)
        ensures
            expr.ast.left.value == self,
            expr.ast.op == ArithmeticOp::Subtract,
            expr.ast.right == other.ast,
            expr.project_alias == Label::Static("expr"),
    {
        Expr::<i16, LiteralExprAst<i16>>::binary(
            Expr::<i16, LiteralExprAst<i16>>::lit(self).ast,
            ArithmeticOp::Subtract,
            other,
        )
    }
}

impl<'scope, K: ExprKind<Value = i16>> vstd::std_specs::ops::SubSpecImpl<ColumnRef<'scope, K>> for i16 {
    open spec fn obeys_sub_spec() -> bool {
        false
    }

    open spec fn sub_req(self, other: ColumnRef<'scope, K>) -> bool {
        true
    }

    open spec fn sub_spec(self, other: ColumnRef<'scope, K>) -> Expr<'scope, SubtractExpr<i16, K>, BinaryExprAst<LiteralExprAst<i16>, ColumnExprAst<K>>> {
        arbitrary()
    }
}

impl<'scope, K: ExprKind<Value = i16>> Sub<ColumnRef<'scope, K>> for i16 {
    type Output = Expr<'scope, SubtractExpr<i16, K>, BinaryExprAst<LiteralExprAst<i16>, ColumnExprAst<K>>>;

    fn sub(self, other: ColumnRef<'scope, K>) -> (expr: Expr<'scope, SubtractExpr<i16, K>, BinaryExprAst<LiteralExprAst<i16>, ColumnExprAst<K>>>)
        ensures
            expr.ast.left.value == self,
            expr.ast.op == ArithmeticOp::Subtract,
            expr.ast.right == other.ast(),
            expr.project_alias == Label::Static("expr"),
    {
        Expr::<i16, LiteralExprAst<i16>>::binary(
            Expr::<i16, LiteralExprAst<i16>>::lit(self).ast,
            ArithmeticOp::Subtract,
            other,
        )
    }
}

impl<'scope, K: ExprKind<Value = i16>, Ast: ExprAst> vstd::std_specs::ops::SubSpecImpl<&Expr<'scope, K, Ast>> for i16 where HNil: HAppend<Ast::Params> {
    open spec fn obeys_sub_spec() -> bool {
        false
    }

    open spec fn sub_req(self, other: &Expr<'scope, K, Ast>) -> bool {
        true
    }

    open spec fn sub_spec(self, other: &Expr<'scope, K, Ast>) -> Expr<'scope, SubtractExpr<i16, K>, BinaryExprAst<LiteralExprAst<i16>, Ast>> {
        arbitrary()
    }
}

impl<'scope, K: ExprKind<Value = i16>, Ast: ExprAst> Sub<&Expr<'scope, K, Ast>> for i16 where HNil: HAppend<Ast::Params> {
    type Output = Expr<'scope, SubtractExpr<i16, K>, BinaryExprAst<LiteralExprAst<i16>, Ast>>;

    fn sub(self, other: &Expr<'scope, K, Ast>) -> (expr: Expr<'scope, SubtractExpr<i16, K>, BinaryExprAst<LiteralExprAst<i16>, Ast>>)
        ensures
            expr.ast.left.value == self,
            expr.ast.op == ArithmeticOp::Subtract,
            expr.ast.right == other.ast,
            expr.project_alias == Label::Static("expr"),
    {
        Expr::<i16, LiteralExprAst<i16>>::binary(
            Expr::<i16, LiteralExprAst<i16>>::lit(self).ast,
            ArithmeticOp::Subtract,
            other,
        )
    }
}

impl<'scope, K: ExprKind<Value = i16>> vstd::std_specs::ops::SubSpecImpl<&ColumnRef<'scope, K>> for i16 {
    open spec fn obeys_sub_spec() -> bool {
        false
    }

    open spec fn sub_req(self, other: &ColumnRef<'scope, K>) -> bool {
        true
    }

    open spec fn sub_spec(self, other: &ColumnRef<'scope, K>) -> Expr<'scope, SubtractExpr<i16, K>, BinaryExprAst<LiteralExprAst<i16>, ColumnExprAst<K>>> {
        arbitrary()
    }
}

impl<'scope, K: ExprKind<Value = i16>> Sub<&ColumnRef<'scope, K>> for i16 {
    type Output = Expr<'scope, SubtractExpr<i16, K>, BinaryExprAst<LiteralExprAst<i16>, ColumnExprAst<K>>>;

    fn sub(self, other: &ColumnRef<'scope, K>) -> (expr: Expr<'scope, SubtractExpr<i16, K>, BinaryExprAst<LiteralExprAst<i16>, ColumnExprAst<K>>>)
        ensures
            expr.ast.left.value == self,
            expr.ast.op == ArithmeticOp::Subtract,
            expr.ast.right == other.ast(),
            expr.project_alias == Label::Static("expr"),
    {
        Expr::<i16, LiteralExprAst<i16>>::binary(
            Expr::<i16, LiteralExprAst<i16>>::lit(self).ast,
            ArithmeticOp::Subtract,
            other,
        )
    }
}

impl<'scope, K: ExprKind<Value = i16>, Ast: ExprAst> vstd::std_specs::ops::MulSpecImpl<Expr<'scope, K, Ast>> for i16 where HNil: HAppend<Ast::Params> {
    open spec fn obeys_mul_spec() -> bool {
        false
    }

    open spec fn mul_req(self, other: Expr<'scope, K, Ast>) -> bool {
        true
    }

    open spec fn mul_spec(self, other: Expr<'scope, K, Ast>) -> Expr<'scope, MultiplyExpr<i16, K>, BinaryExprAst<LiteralExprAst<i16>, Ast>> {
        arbitrary()
    }
}

impl<'scope, K: ExprKind<Value = i16>, Ast: ExprAst> Mul<Expr<'scope, K, Ast>> for i16 where HNil: HAppend<Ast::Params> {
    type Output = Expr<'scope, MultiplyExpr<i16, K>, BinaryExprAst<LiteralExprAst<i16>, Ast>>;

    fn mul(self, other: Expr<'scope, K, Ast>) -> (expr: Expr<'scope, MultiplyExpr<i16, K>, BinaryExprAst<LiteralExprAst<i16>, Ast>>)
        ensures
            expr.ast.left.value == self,
            expr.ast.op == ArithmeticOp::Multiply,
            expr.ast.right == other.ast,
            expr.project_alias == Label::Static("expr"),
    {
        Expr::<i16, LiteralExprAst<i16>>::binary(
            Expr::<i16, LiteralExprAst<i16>>::lit(self).ast,
            ArithmeticOp::Multiply,
            other,
        )
    }
}

impl<'scope, K: ExprKind<Value = i16>> vstd::std_specs::ops::MulSpecImpl<ColumnRef<'scope, K>> for i16 {
    open spec fn obeys_mul_spec() -> bool {
        false
    }

    open spec fn mul_req(self, other: ColumnRef<'scope, K>) -> bool {
        true
    }

    open spec fn mul_spec(self, other: ColumnRef<'scope, K>) -> Expr<'scope, MultiplyExpr<i16, K>, BinaryExprAst<LiteralExprAst<i16>, ColumnExprAst<K>>> {
        arbitrary()
    }
}

impl<'scope, K: ExprKind<Value = i16>> Mul<ColumnRef<'scope, K>> for i16 {
    type Output = Expr<'scope, MultiplyExpr<i16, K>, BinaryExprAst<LiteralExprAst<i16>, ColumnExprAst<K>>>;

    fn mul(self, other: ColumnRef<'scope, K>) -> (expr: Expr<'scope, MultiplyExpr<i16, K>, BinaryExprAst<LiteralExprAst<i16>, ColumnExprAst<K>>>)
        ensures
            expr.ast.left.value == self,
            expr.ast.op == ArithmeticOp::Multiply,
            expr.ast.right == other.ast(),
            expr.project_alias == Label::Static("expr"),
    {
        Expr::<i16, LiteralExprAst<i16>>::binary(
            Expr::<i16, LiteralExprAst<i16>>::lit(self).ast,
            ArithmeticOp::Multiply,
            other,
        )
    }
}

impl<'scope, K: ExprKind<Value = i16>, Ast: ExprAst> vstd::std_specs::ops::MulSpecImpl<&Expr<'scope, K, Ast>> for i16 where HNil: HAppend<Ast::Params> {
    open spec fn obeys_mul_spec() -> bool {
        false
    }

    open spec fn mul_req(self, other: &Expr<'scope, K, Ast>) -> bool {
        true
    }

    open spec fn mul_spec(self, other: &Expr<'scope, K, Ast>) -> Expr<'scope, MultiplyExpr<i16, K>, BinaryExprAst<LiteralExprAst<i16>, Ast>> {
        arbitrary()
    }
}

impl<'scope, K: ExprKind<Value = i16>, Ast: ExprAst> Mul<&Expr<'scope, K, Ast>> for i16 where HNil: HAppend<Ast::Params> {
    type Output = Expr<'scope, MultiplyExpr<i16, K>, BinaryExprAst<LiteralExprAst<i16>, Ast>>;

    fn mul(self, other: &Expr<'scope, K, Ast>) -> (expr: Expr<'scope, MultiplyExpr<i16, K>, BinaryExprAst<LiteralExprAst<i16>, Ast>>)
        ensures
            expr.ast.left.value == self,
            expr.ast.op == ArithmeticOp::Multiply,
            expr.ast.right == other.ast,
            expr.project_alias == Label::Static("expr"),
    {
        Expr::<i16, LiteralExprAst<i16>>::binary(
            Expr::<i16, LiteralExprAst<i16>>::lit(self).ast,
            ArithmeticOp::Multiply,
            other,
        )
    }
}

impl<'scope, K: ExprKind<Value = i16>> vstd::std_specs::ops::MulSpecImpl<&ColumnRef<'scope, K>> for i16 {
    open spec fn obeys_mul_spec() -> bool {
        false
    }

    open spec fn mul_req(self, other: &ColumnRef<'scope, K>) -> bool {
        true
    }

    open spec fn mul_spec(self, other: &ColumnRef<'scope, K>) -> Expr<'scope, MultiplyExpr<i16, K>, BinaryExprAst<LiteralExprAst<i16>, ColumnExprAst<K>>> {
        arbitrary()
    }
}

impl<'scope, K: ExprKind<Value = i16>> Mul<&ColumnRef<'scope, K>> for i16 {
    type Output = Expr<'scope, MultiplyExpr<i16, K>, BinaryExprAst<LiteralExprAst<i16>, ColumnExprAst<K>>>;

    fn mul(self, other: &ColumnRef<'scope, K>) -> (expr: Expr<'scope, MultiplyExpr<i16, K>, BinaryExprAst<LiteralExprAst<i16>, ColumnExprAst<K>>>)
        ensures
            expr.ast.left.value == self,
            expr.ast.op == ArithmeticOp::Multiply,
            expr.ast.right == other.ast(),
            expr.project_alias == Label::Static("expr"),
    {
        Expr::<i16, LiteralExprAst<i16>>::binary(
            Expr::<i16, LiteralExprAst<i16>>::lit(self).ast,
            ArithmeticOp::Multiply,
            other,
        )
    }
}

impl<'scope, K: ExprKind<Value = i16>, Ast: ExprAst> vstd::std_specs::ops::DivSpecImpl<Expr<'scope, K, Ast>> for i16 where HNil: HAppend<Ast::Params> {
    open spec fn obeys_div_spec() -> bool {
        false
    }

    open spec fn div_req(self, other: Expr<'scope, K, Ast>) -> bool {
        true
    }

    open spec fn div_spec(self, other: Expr<'scope, K, Ast>) -> Expr<'scope, DivideExpr<i16, K>, BinaryExprAst<LiteralExprAst<i16>, Ast>> {
        arbitrary()
    }
}

impl<'scope, K: ExprKind<Value = i16>, Ast: ExprAst> Div<Expr<'scope, K, Ast>> for i16 where HNil: HAppend<Ast::Params> {
    type Output = Expr<'scope, DivideExpr<i16, K>, BinaryExprAst<LiteralExprAst<i16>, Ast>>;

    fn div(self, other: Expr<'scope, K, Ast>) -> (expr: Expr<'scope, DivideExpr<i16, K>, BinaryExprAst<LiteralExprAst<i16>, Ast>>)
        ensures
            expr.ast.left.value == self,
            expr.ast.op == ArithmeticOp::Divide,
            expr.ast.right == other.ast,
            expr.project_alias == Label::Static("expr"),
    {
        Expr::<i16, LiteralExprAst<i16>>::binary(
            Expr::<i16, LiteralExprAst<i16>>::lit(self).ast,
            ArithmeticOp::Divide,
            other,
        )
    }
}

impl<'scope, K: ExprKind<Value = i16>> vstd::std_specs::ops::DivSpecImpl<ColumnRef<'scope, K>> for i16 {
    open spec fn obeys_div_spec() -> bool {
        false
    }

    open spec fn div_req(self, other: ColumnRef<'scope, K>) -> bool {
        true
    }

    open spec fn div_spec(self, other: ColumnRef<'scope, K>) -> Expr<'scope, DivideExpr<i16, K>, BinaryExprAst<LiteralExprAst<i16>, ColumnExprAst<K>>> {
        arbitrary()
    }
}

impl<'scope, K: ExprKind<Value = i16>> Div<ColumnRef<'scope, K>> for i16 {
    type Output = Expr<'scope, DivideExpr<i16, K>, BinaryExprAst<LiteralExprAst<i16>, ColumnExprAst<K>>>;

    fn div(self, other: ColumnRef<'scope, K>) -> (expr: Expr<'scope, DivideExpr<i16, K>, BinaryExprAst<LiteralExprAst<i16>, ColumnExprAst<K>>>)
        ensures
            expr.ast.left.value == self,
            expr.ast.op == ArithmeticOp::Divide,
            expr.ast.right == other.ast(),
            expr.project_alias == Label::Static("expr"),
    {
        Expr::<i16, LiteralExprAst<i16>>::binary(
            Expr::<i16, LiteralExprAst<i16>>::lit(self).ast,
            ArithmeticOp::Divide,
            other,
        )
    }
}

impl<'scope, K: ExprKind<Value = i16>, Ast: ExprAst> vstd::std_specs::ops::DivSpecImpl<&Expr<'scope, K, Ast>> for i16 where HNil: HAppend<Ast::Params> {
    open spec fn obeys_div_spec() -> bool {
        false
    }

    open spec fn div_req(self, other: &Expr<'scope, K, Ast>) -> bool {
        true
    }

    open spec fn div_spec(self, other: &Expr<'scope, K, Ast>) -> Expr<'scope, DivideExpr<i16, K>, BinaryExprAst<LiteralExprAst<i16>, Ast>> {
        arbitrary()
    }
}

impl<'scope, K: ExprKind<Value = i16>, Ast: ExprAst> Div<&Expr<'scope, K, Ast>> for i16 where HNil: HAppend<Ast::Params> {
    type Output = Expr<'scope, DivideExpr<i16, K>, BinaryExprAst<LiteralExprAst<i16>, Ast>>;

    fn div(self, other: &Expr<'scope, K, Ast>) -> (expr: Expr<'scope, DivideExpr<i16, K>, BinaryExprAst<LiteralExprAst<i16>, Ast>>)
        ensures
            expr.ast.left.value == self,
            expr.ast.op == ArithmeticOp::Divide,
            expr.ast.right == other.ast,
            expr.project_alias == Label::Static("expr"),
    {
        Expr::<i16, LiteralExprAst<i16>>::binary(
            Expr::<i16, LiteralExprAst<i16>>::lit(self).ast,
            ArithmeticOp::Divide,
            other,
        )
    }
}

impl<'scope, K: ExprKind<Value = i16>> vstd::std_specs::ops::DivSpecImpl<&ColumnRef<'scope, K>> for i16 {
    open spec fn obeys_div_spec() -> bool {
        false
    }

    open spec fn div_req(self, other: &ColumnRef<'scope, K>) -> bool {
        true
    }

    open spec fn div_spec(self, other: &ColumnRef<'scope, K>) -> Expr<'scope, DivideExpr<i16, K>, BinaryExprAst<LiteralExprAst<i16>, ColumnExprAst<K>>> {
        arbitrary()
    }
}

impl<'scope, K: ExprKind<Value = i16>> Div<&ColumnRef<'scope, K>> for i16 {
    type Output = Expr<'scope, DivideExpr<i16, K>, BinaryExprAst<LiteralExprAst<i16>, ColumnExprAst<K>>>;

    fn div(self, other: &ColumnRef<'scope, K>) -> (expr: Expr<'scope, DivideExpr<i16, K>, BinaryExprAst<LiteralExprAst<i16>, ColumnExprAst<K>>>)
        ensures
            expr.ast.left.value == self,
            expr.ast.op == ArithmeticOp::Divide,
            expr.ast.right == other.ast(),
            expr.project_alias == Label::Static("expr"),
    {
        Expr::<i16, LiteralExprAst<i16>>::binary(
            Expr::<i16, LiteralExprAst<i16>>::lit(self).ast,
            ArithmeticOp::Divide,
            other,
        )
    }
}

impl<'scope, K: ExprKind<Value = i32>, Ast: ExprAst> vstd::std_specs::ops::AddSpecImpl<Expr<'scope, K, Ast>> for i32 where HNil: HAppend<Ast::Params> {
    open spec fn obeys_add_spec() -> bool {
        false
    }

    open spec fn add_req(self, other: Expr<'scope, K, Ast>) -> bool {
        true
    }

    open spec fn add_spec(self, other: Expr<'scope, K, Ast>) -> Expr<'scope, AddExpr<i32, K>, BinaryExprAst<LiteralExprAst<i32>, Ast>> {
        arbitrary()
    }
}

impl<'scope, K: ExprKind<Value = i32>, Ast: ExprAst> Add<Expr<'scope, K, Ast>> for i32 where HNil: HAppend<Ast::Params> {
    type Output = Expr<'scope, AddExpr<i32, K>, BinaryExprAst<LiteralExprAst<i32>, Ast>>;

    fn add(self, other: Expr<'scope, K, Ast>) -> (expr: Expr<'scope, AddExpr<i32, K>, BinaryExprAst<LiteralExprAst<i32>, Ast>>)
        ensures
            expr.ast.left.value == self,
            expr.ast.op == ArithmeticOp::Add,
            expr.ast.right == other.ast,
            expr.project_alias == Label::Static("expr"),
    {
        Expr::<i32, LiteralExprAst<i32>>::binary(
            Expr::<i32, LiteralExprAst<i32>>::lit(self).ast,
            ArithmeticOp::Add,
            other,
        )
    }
}

impl<'scope, K: ExprKind<Value = i32>> vstd::std_specs::ops::AddSpecImpl<ColumnRef<'scope, K>> for i32 {
    open spec fn obeys_add_spec() -> bool {
        false
    }

    open spec fn add_req(self, other: ColumnRef<'scope, K>) -> bool {
        true
    }

    open spec fn add_spec(self, other: ColumnRef<'scope, K>) -> Expr<'scope, AddExpr<i32, K>, BinaryExprAst<LiteralExprAst<i32>, ColumnExprAst<K>>> {
        arbitrary()
    }
}

impl<'scope, K: ExprKind<Value = i32>> Add<ColumnRef<'scope, K>> for i32 {
    type Output = Expr<'scope, AddExpr<i32, K>, BinaryExprAst<LiteralExprAst<i32>, ColumnExprAst<K>>>;

    fn add(self, other: ColumnRef<'scope, K>) -> (expr: Expr<'scope, AddExpr<i32, K>, BinaryExprAst<LiteralExprAst<i32>, ColumnExprAst<K>>>)
        ensures
            expr.ast.left.value == self,
            expr.ast.op == ArithmeticOp::Add,
            expr.ast.right == other.ast(),
            expr.project_alias == Label::Static("expr"),
    {
        Expr::<i32, LiteralExprAst<i32>>::binary(
            Expr::<i32, LiteralExprAst<i32>>::lit(self).ast,
            ArithmeticOp::Add,
            other,
        )
    }
}

impl<'scope, K: ExprKind<Value = i32>, Ast: ExprAst> vstd::std_specs::ops::AddSpecImpl<&Expr<'scope, K, Ast>> for i32 where HNil: HAppend<Ast::Params> {
    open spec fn obeys_add_spec() -> bool {
        false
    }

    open spec fn add_req(self, other: &Expr<'scope, K, Ast>) -> bool {
        true
    }

    open spec fn add_spec(self, other: &Expr<'scope, K, Ast>) -> Expr<'scope, AddExpr<i32, K>, BinaryExprAst<LiteralExprAst<i32>, Ast>> {
        arbitrary()
    }
}

impl<'scope, K: ExprKind<Value = i32>, Ast: ExprAst> Add<&Expr<'scope, K, Ast>> for i32 where HNil: HAppend<Ast::Params> {
    type Output = Expr<'scope, AddExpr<i32, K>, BinaryExprAst<LiteralExprAst<i32>, Ast>>;

    fn add(self, other: &Expr<'scope, K, Ast>) -> (expr: Expr<'scope, AddExpr<i32, K>, BinaryExprAst<LiteralExprAst<i32>, Ast>>)
        ensures
            expr.ast.left.value == self,
            expr.ast.op == ArithmeticOp::Add,
            expr.ast.right == other.ast,
            expr.project_alias == Label::Static("expr"),
    {
        Expr::<i32, LiteralExprAst<i32>>::binary(
            Expr::<i32, LiteralExprAst<i32>>::lit(self).ast,
            ArithmeticOp::Add,
            other,
        )
    }
}

impl<'scope, K: ExprKind<Value = i32>> vstd::std_specs::ops::AddSpecImpl<&ColumnRef<'scope, K>> for i32 {
    open spec fn obeys_add_spec() -> bool {
        false
    }

    open spec fn add_req(self, other: &ColumnRef<'scope, K>) -> bool {
        true
    }

    open spec fn add_spec(self, other: &ColumnRef<'scope, K>) -> Expr<'scope, AddExpr<i32, K>, BinaryExprAst<LiteralExprAst<i32>, ColumnExprAst<K>>> {
        arbitrary()
    }
}

impl<'scope, K: ExprKind<Value = i32>> Add<&ColumnRef<'scope, K>> for i32 {
    type Output = Expr<'scope, AddExpr<i32, K>, BinaryExprAst<LiteralExprAst<i32>, ColumnExprAst<K>>>;

    fn add(self, other: &ColumnRef<'scope, K>) -> (expr: Expr<'scope, AddExpr<i32, K>, BinaryExprAst<LiteralExprAst<i32>, ColumnExprAst<K>>>)
        ensures
            expr.ast.left.value == self,
            expr.ast.op == ArithmeticOp::Add,
            expr.ast.right == other.ast(),
            expr.project_alias == Label::Static("expr"),
    {
        Expr::<i32, LiteralExprAst<i32>>::binary(
            Expr::<i32, LiteralExprAst<i32>>::lit(self).ast,
            ArithmeticOp::Add,
            other,
        )
    }
}

impl<'scope, K: ExprKind<Value = i32>, Ast: ExprAst> vstd::std_specs::ops::SubSpecImpl<Expr<'scope, K, Ast>> for i32 where HNil: HAppend<Ast::Params> {
    open spec fn obeys_sub_spec() -> bool {
        false
    }

    open spec fn sub_req(self, other: Expr<'scope, K, Ast>) -> bool {
        true
    }

    open spec fn sub_spec(self, other: Expr<'scope, K, Ast>) -> Expr<'scope, SubtractExpr<i32, K>, BinaryExprAst<LiteralExprAst<i32>, Ast>> {
        arbitrary()
    }
}

impl<'scope, K: ExprKind<Value = i32>, Ast: ExprAst> Sub<Expr<'scope, K, Ast>> for i32 where HNil: HAppend<Ast::Params> {
    type Output = Expr<'scope, SubtractExpr<i32, K>, BinaryExprAst<LiteralExprAst<i32>, Ast>>;

    fn sub(self, other: Expr<'scope, K, Ast>) -> (expr: Expr<'scope, SubtractExpr<i32, K>, BinaryExprAst<LiteralExprAst<i32>, Ast>>)
        ensures
            expr.ast.left.value == self,
            expr.ast.op == ArithmeticOp::Subtract,
            expr.ast.right == other.ast,
            expr.project_alias == Label::Static("expr"),
    {
        Expr::<i32, LiteralExprAst<i32>>::binary(
            Expr::<i32, LiteralExprAst<i32>>::lit(self).ast,
            ArithmeticOp::Subtract,
            other,
        )
    }
}

impl<'scope, K: ExprKind<Value = i32>> vstd::std_specs::ops::SubSpecImpl<ColumnRef<'scope, K>> for i32 {
    open spec fn obeys_sub_spec() -> bool {
        false
    }

    open spec fn sub_req(self, other: ColumnRef<'scope, K>) -> bool {
        true
    }

    open spec fn sub_spec(self, other: ColumnRef<'scope, K>) -> Expr<'scope, SubtractExpr<i32, K>, BinaryExprAst<LiteralExprAst<i32>, ColumnExprAst<K>>> {
        arbitrary()
    }
}

impl<'scope, K: ExprKind<Value = i32>> Sub<ColumnRef<'scope, K>> for i32 {
    type Output = Expr<'scope, SubtractExpr<i32, K>, BinaryExprAst<LiteralExprAst<i32>, ColumnExprAst<K>>>;

    fn sub(self, other: ColumnRef<'scope, K>) -> (expr: Expr<'scope, SubtractExpr<i32, K>, BinaryExprAst<LiteralExprAst<i32>, ColumnExprAst<K>>>)
        ensures
            expr.ast.left.value == self,
            expr.ast.op == ArithmeticOp::Subtract,
            expr.ast.right == other.ast(),
            expr.project_alias == Label::Static("expr"),
    {
        Expr::<i32, LiteralExprAst<i32>>::binary(
            Expr::<i32, LiteralExprAst<i32>>::lit(self).ast,
            ArithmeticOp::Subtract,
            other,
        )
    }
}

impl<'scope, K: ExprKind<Value = i32>, Ast: ExprAst> vstd::std_specs::ops::SubSpecImpl<&Expr<'scope, K, Ast>> for i32 where HNil: HAppend<Ast::Params> {
    open spec fn obeys_sub_spec() -> bool {
        false
    }

    open spec fn sub_req(self, other: &Expr<'scope, K, Ast>) -> bool {
        true
    }

    open spec fn sub_spec(self, other: &Expr<'scope, K, Ast>) -> Expr<'scope, SubtractExpr<i32, K>, BinaryExprAst<LiteralExprAst<i32>, Ast>> {
        arbitrary()
    }
}

impl<'scope, K: ExprKind<Value = i32>, Ast: ExprAst> Sub<&Expr<'scope, K, Ast>> for i32 where HNil: HAppend<Ast::Params> {
    type Output = Expr<'scope, SubtractExpr<i32, K>, BinaryExprAst<LiteralExprAst<i32>, Ast>>;

    fn sub(self, other: &Expr<'scope, K, Ast>) -> (expr: Expr<'scope, SubtractExpr<i32, K>, BinaryExprAst<LiteralExprAst<i32>, Ast>>)
        ensures
            expr.ast.left.value == self,
            expr.ast.op == ArithmeticOp::Subtract,
            expr.ast.right == other.ast,
            expr.project_alias == Label::Static("expr"),
    {
        Expr::<i32, LiteralExprAst<i32>>::binary(
            Expr::<i32, LiteralExprAst<i32>>::lit(self).ast,
            ArithmeticOp::Subtract,
            other,
        )
    }
}

impl<'scope, K: ExprKind<Value = i32>> vstd::std_specs::ops::SubSpecImpl<&ColumnRef<'scope, K>> for i32 {
    open spec fn obeys_sub_spec() -> bool {
        false
    }

    open spec fn sub_req(self, other: &ColumnRef<'scope, K>) -> bool {
        true
    }

    open spec fn sub_spec(self, other: &ColumnRef<'scope, K>) -> Expr<'scope, SubtractExpr<i32, K>, BinaryExprAst<LiteralExprAst<i32>, ColumnExprAst<K>>> {
        arbitrary()
    }
}

impl<'scope, K: ExprKind<Value = i32>> Sub<&ColumnRef<'scope, K>> for i32 {
    type Output = Expr<'scope, SubtractExpr<i32, K>, BinaryExprAst<LiteralExprAst<i32>, ColumnExprAst<K>>>;

    fn sub(self, other: &ColumnRef<'scope, K>) -> (expr: Expr<'scope, SubtractExpr<i32, K>, BinaryExprAst<LiteralExprAst<i32>, ColumnExprAst<K>>>)
        ensures
            expr.ast.left.value == self,
            expr.ast.op == ArithmeticOp::Subtract,
            expr.ast.right == other.ast(),
            expr.project_alias == Label::Static("expr"),
    {
        Expr::<i32, LiteralExprAst<i32>>::binary(
            Expr::<i32, LiteralExprAst<i32>>::lit(self).ast,
            ArithmeticOp::Subtract,
            other,
        )
    }
}

impl<'scope, K: ExprKind<Value = i32>, Ast: ExprAst> vstd::std_specs::ops::MulSpecImpl<Expr<'scope, K, Ast>> for i32 where HNil: HAppend<Ast::Params> {
    open spec fn obeys_mul_spec() -> bool {
        false
    }

    open spec fn mul_req(self, other: Expr<'scope, K, Ast>) -> bool {
        true
    }

    open spec fn mul_spec(self, other: Expr<'scope, K, Ast>) -> Expr<'scope, MultiplyExpr<i32, K>, BinaryExprAst<LiteralExprAst<i32>, Ast>> {
        arbitrary()
    }
}

impl<'scope, K: ExprKind<Value = i32>, Ast: ExprAst> Mul<Expr<'scope, K, Ast>> for i32 where HNil: HAppend<Ast::Params> {
    type Output = Expr<'scope, MultiplyExpr<i32, K>, BinaryExprAst<LiteralExprAst<i32>, Ast>>;

    fn mul(self, other: Expr<'scope, K, Ast>) -> (expr: Expr<'scope, MultiplyExpr<i32, K>, BinaryExprAst<LiteralExprAst<i32>, Ast>>)
        ensures
            expr.ast.left.value == self,
            expr.ast.op == ArithmeticOp::Multiply,
            expr.ast.right == other.ast,
            expr.project_alias == Label::Static("expr"),
    {
        Expr::<i32, LiteralExprAst<i32>>::binary(
            Expr::<i32, LiteralExprAst<i32>>::lit(self).ast,
            ArithmeticOp::Multiply,
            other,
        )
    }
}

impl<'scope, K: ExprKind<Value = i32>> vstd::std_specs::ops::MulSpecImpl<ColumnRef<'scope, K>> for i32 {
    open spec fn obeys_mul_spec() -> bool {
        false
    }

    open spec fn mul_req(self, other: ColumnRef<'scope, K>) -> bool {
        true
    }

    open spec fn mul_spec(self, other: ColumnRef<'scope, K>) -> Expr<'scope, MultiplyExpr<i32, K>, BinaryExprAst<LiteralExprAst<i32>, ColumnExprAst<K>>> {
        arbitrary()
    }
}

impl<'scope, K: ExprKind<Value = i32>> Mul<ColumnRef<'scope, K>> for i32 {
    type Output = Expr<'scope, MultiplyExpr<i32, K>, BinaryExprAst<LiteralExprAst<i32>, ColumnExprAst<K>>>;

    fn mul(self, other: ColumnRef<'scope, K>) -> (expr: Expr<'scope, MultiplyExpr<i32, K>, BinaryExprAst<LiteralExprAst<i32>, ColumnExprAst<K>>>)
        ensures
            expr.ast.left.value == self,
            expr.ast.op == ArithmeticOp::Multiply,
            expr.ast.right == other.ast(),
            expr.project_alias == Label::Static("expr"),
    {
        Expr::<i32, LiteralExprAst<i32>>::binary(
            Expr::<i32, LiteralExprAst<i32>>::lit(self).ast,
            ArithmeticOp::Multiply,
            other,
        )
    }
}

impl<'scope, K: ExprKind<Value = i32>, Ast: ExprAst> vstd::std_specs::ops::MulSpecImpl<&Expr<'scope, K, Ast>> for i32 where HNil: HAppend<Ast::Params> {
    open spec fn obeys_mul_spec() -> bool {
        false
    }

    open spec fn mul_req(self, other: &Expr<'scope, K, Ast>) -> bool {
        true
    }

    open spec fn mul_spec(self, other: &Expr<'scope, K, Ast>) -> Expr<'scope, MultiplyExpr<i32, K>, BinaryExprAst<LiteralExprAst<i32>, Ast>> {
        arbitrary()
    }
}

impl<'scope, K: ExprKind<Value = i32>, Ast: ExprAst> Mul<&Expr<'scope, K, Ast>> for i32 where HNil: HAppend<Ast::Params> {
    type Output = Expr<'scope, MultiplyExpr<i32, K>, BinaryExprAst<LiteralExprAst<i32>, Ast>>;

    fn mul(self, other: &Expr<'scope, K, Ast>) -> (expr: Expr<'scope, MultiplyExpr<i32, K>, BinaryExprAst<LiteralExprAst<i32>, Ast>>)
        ensures
            expr.ast.left.value == self,
            expr.ast.op == ArithmeticOp::Multiply,
            expr.ast.right == other.ast,
            expr.project_alias == Label::Static("expr"),
    {
        Expr::<i32, LiteralExprAst<i32>>::binary(
            Expr::<i32, LiteralExprAst<i32>>::lit(self).ast,
            ArithmeticOp::Multiply,
            other,
        )
    }
}

impl<'scope, K: ExprKind<Value = i32>> vstd::std_specs::ops::MulSpecImpl<&ColumnRef<'scope, K>> for i32 {
    open spec fn obeys_mul_spec() -> bool {
        false
    }

    open spec fn mul_req(self, other: &ColumnRef<'scope, K>) -> bool {
        true
    }

    open spec fn mul_spec(self, other: &ColumnRef<'scope, K>) -> Expr<'scope, MultiplyExpr<i32, K>, BinaryExprAst<LiteralExprAst<i32>, ColumnExprAst<K>>> {
        arbitrary()
    }
}

impl<'scope, K: ExprKind<Value = i32>> Mul<&ColumnRef<'scope, K>> for i32 {
    type Output = Expr<'scope, MultiplyExpr<i32, K>, BinaryExprAst<LiteralExprAst<i32>, ColumnExprAst<K>>>;

    fn mul(self, other: &ColumnRef<'scope, K>) -> (expr: Expr<'scope, MultiplyExpr<i32, K>, BinaryExprAst<LiteralExprAst<i32>, ColumnExprAst<K>>>)
        ensures
            expr.ast.left.value == self,
            expr.ast.op == ArithmeticOp::Multiply,
            expr.ast.right == other.ast(),
            expr.project_alias == Label::Static("expr"),
    {
        Expr::<i32, LiteralExprAst<i32>>::binary(
            Expr::<i32, LiteralExprAst<i32>>::lit(self).ast,
            ArithmeticOp::Multiply,
            other,
        )
    }
}

impl<'scope, K: ExprKind<Value = i32>, Ast: ExprAst> vstd::std_specs::ops::DivSpecImpl<Expr<'scope, K, Ast>> for i32 where HNil: HAppend<Ast::Params> {
    open spec fn obeys_div_spec() -> bool {
        false
    }

    open spec fn div_req(self, other: Expr<'scope, K, Ast>) -> bool {
        true
    }

    open spec fn div_spec(self, other: Expr<'scope, K, Ast>) -> Expr<'scope, DivideExpr<i32, K>, BinaryExprAst<LiteralExprAst<i32>, Ast>> {
        arbitrary()
    }
}

impl<'scope, K: ExprKind<Value = i32>, Ast: ExprAst> Div<Expr<'scope, K, Ast>> for i32 where HNil: HAppend<Ast::Params> {
    type Output = Expr<'scope, DivideExpr<i32, K>, BinaryExprAst<LiteralExprAst<i32>, Ast>>;

    fn div(self, other: Expr<'scope, K, Ast>) -> (expr: Expr<'scope, DivideExpr<i32, K>, BinaryExprAst<LiteralExprAst<i32>, Ast>>)
        ensures
            expr.ast.left.value == self,
            expr.ast.op == ArithmeticOp::Divide,
            expr.ast.right == other.ast,
            expr.project_alias == Label::Static("expr"),
    {
        Expr::<i32, LiteralExprAst<i32>>::binary(
            Expr::<i32, LiteralExprAst<i32>>::lit(self).ast,
            ArithmeticOp::Divide,
            other,
        )
    }
}

impl<'scope, K: ExprKind<Value = i32>> vstd::std_specs::ops::DivSpecImpl<ColumnRef<'scope, K>> for i32 {
    open spec fn obeys_div_spec() -> bool {
        false
    }

    open spec fn div_req(self, other: ColumnRef<'scope, K>) -> bool {
        true
    }

    open spec fn div_spec(self, other: ColumnRef<'scope, K>) -> Expr<'scope, DivideExpr<i32, K>, BinaryExprAst<LiteralExprAst<i32>, ColumnExprAst<K>>> {
        arbitrary()
    }
}

impl<'scope, K: ExprKind<Value = i32>> Div<ColumnRef<'scope, K>> for i32 {
    type Output = Expr<'scope, DivideExpr<i32, K>, BinaryExprAst<LiteralExprAst<i32>, ColumnExprAst<K>>>;

    fn div(self, other: ColumnRef<'scope, K>) -> (expr: Expr<'scope, DivideExpr<i32, K>, BinaryExprAst<LiteralExprAst<i32>, ColumnExprAst<K>>>)
        ensures
            expr.ast.left.value == self,
            expr.ast.op == ArithmeticOp::Divide,
            expr.ast.right == other.ast(),
            expr.project_alias == Label::Static("expr"),
    {
        Expr::<i32, LiteralExprAst<i32>>::binary(
            Expr::<i32, LiteralExprAst<i32>>::lit(self).ast,
            ArithmeticOp::Divide,
            other,
        )
    }
}

impl<'scope, K: ExprKind<Value = i32>, Ast: ExprAst> vstd::std_specs::ops::DivSpecImpl<&Expr<'scope, K, Ast>> for i32 where HNil: HAppend<Ast::Params> {
    open spec fn obeys_div_spec() -> bool {
        false
    }

    open spec fn div_req(self, other: &Expr<'scope, K, Ast>) -> bool {
        true
    }

    open spec fn div_spec(self, other: &Expr<'scope, K, Ast>) -> Expr<'scope, DivideExpr<i32, K>, BinaryExprAst<LiteralExprAst<i32>, Ast>> {
        arbitrary()
    }
}

impl<'scope, K: ExprKind<Value = i32>, Ast: ExprAst> Div<&Expr<'scope, K, Ast>> for i32 where HNil: HAppend<Ast::Params> {
    type Output = Expr<'scope, DivideExpr<i32, K>, BinaryExprAst<LiteralExprAst<i32>, Ast>>;

    fn div(self, other: &Expr<'scope, K, Ast>) -> (expr: Expr<'scope, DivideExpr<i32, K>, BinaryExprAst<LiteralExprAst<i32>, Ast>>)
        ensures
            expr.ast.left.value == self,
            expr.ast.op == ArithmeticOp::Divide,
            expr.ast.right == other.ast,
            expr.project_alias == Label::Static("expr"),
    {
        Expr::<i32, LiteralExprAst<i32>>::binary(
            Expr::<i32, LiteralExprAst<i32>>::lit(self).ast,
            ArithmeticOp::Divide,
            other,
        )
    }
}

impl<'scope, K: ExprKind<Value = i32>> vstd::std_specs::ops::DivSpecImpl<&ColumnRef<'scope, K>> for i32 {
    open spec fn obeys_div_spec() -> bool {
        false
    }

    open spec fn div_req(self, other: &ColumnRef<'scope, K>) -> bool {
        true
    }

    open spec fn div_spec(self, other: &ColumnRef<'scope, K>) -> Expr<'scope, DivideExpr<i32, K>, BinaryExprAst<LiteralExprAst<i32>, ColumnExprAst<K>>> {
        arbitrary()
    }
}

impl<'scope, K: ExprKind<Value = i32>> Div<&ColumnRef<'scope, K>> for i32 {
    type Output = Expr<'scope, DivideExpr<i32, K>, BinaryExprAst<LiteralExprAst<i32>, ColumnExprAst<K>>>;

    fn div(self, other: &ColumnRef<'scope, K>) -> (expr: Expr<'scope, DivideExpr<i32, K>, BinaryExprAst<LiteralExprAst<i32>, ColumnExprAst<K>>>)
        ensures
            expr.ast.left.value == self,
            expr.ast.op == ArithmeticOp::Divide,
            expr.ast.right == other.ast(),
            expr.project_alias == Label::Static("expr"),
    {
        Expr::<i32, LiteralExprAst<i32>>::binary(
            Expr::<i32, LiteralExprAst<i32>>::lit(self).ast,
            ArithmeticOp::Divide,
            other,
        )
    }
}

impl<'scope, K: ExprKind<Value = i64>, Ast: ExprAst> vstd::std_specs::ops::AddSpecImpl<Expr<'scope, K, Ast>> for i64 where HNil: HAppend<Ast::Params> {
    open spec fn obeys_add_spec() -> bool {
        false
    }

    open spec fn add_req(self, other: Expr<'scope, K, Ast>) -> bool {
        true
    }

    open spec fn add_spec(self, other: Expr<'scope, K, Ast>) -> Expr<'scope, AddExpr<i64, K>, BinaryExprAst<LiteralExprAst<i64>, Ast>> {
        arbitrary()
    }
}

impl<'scope, K: ExprKind<Value = i64>, Ast: ExprAst> Add<Expr<'scope, K, Ast>> for i64 where HNil: HAppend<Ast::Params> {
    type Output = Expr<'scope, AddExpr<i64, K>, BinaryExprAst<LiteralExprAst<i64>, Ast>>;

    fn add(self, other: Expr<'scope, K, Ast>) -> (expr: Expr<'scope, AddExpr<i64, K>, BinaryExprAst<LiteralExprAst<i64>, Ast>>)
        ensures
            expr.ast.left.value == self,
            expr.ast.op == ArithmeticOp::Add,
            expr.ast.right == other.ast,
            expr.project_alias == Label::Static("expr"),
    {
        Expr::<i64, LiteralExprAst<i64>>::binary(
            Expr::<i64, LiteralExprAst<i64>>::lit(self).ast,
            ArithmeticOp::Add,
            other,
        )
    }
}

impl<'scope, K: ExprKind<Value = i64>> vstd::std_specs::ops::AddSpecImpl<ColumnRef<'scope, K>> for i64 {
    open spec fn obeys_add_spec() -> bool {
        false
    }

    open spec fn add_req(self, other: ColumnRef<'scope, K>) -> bool {
        true
    }

    open spec fn add_spec(self, other: ColumnRef<'scope, K>) -> Expr<'scope, AddExpr<i64, K>, BinaryExprAst<LiteralExprAst<i64>, ColumnExprAst<K>>> {
        arbitrary()
    }
}

impl<'scope, K: ExprKind<Value = i64>> Add<ColumnRef<'scope, K>> for i64 {
    type Output = Expr<'scope, AddExpr<i64, K>, BinaryExprAst<LiteralExprAst<i64>, ColumnExprAst<K>>>;

    fn add(self, other: ColumnRef<'scope, K>) -> (expr: Expr<'scope, AddExpr<i64, K>, BinaryExprAst<LiteralExprAst<i64>, ColumnExprAst<K>>>)
        ensures
            expr.ast.left.value == self,
            expr.ast.op == ArithmeticOp::Add,
            expr.ast.right == other.ast(),
            expr.project_alias == Label::Static("expr"),
    {
        Expr::<i64, LiteralExprAst<i64>>::binary(
            Expr::<i64, LiteralExprAst<i64>>::lit(self).ast,
            ArithmeticOp::Add,
            other,
        )
    }
}

impl<'scope, K: ExprKind<Value = i64>, Ast: ExprAst> vstd::std_specs::ops::AddSpecImpl<&Expr<'scope, K, Ast>> for i64 where HNil: HAppend<Ast::Params> {
    open spec fn obeys_add_spec() -> bool {
        false
    }

    open spec fn add_req(self, other: &Expr<'scope, K, Ast>) -> bool {
        true
    }

    open spec fn add_spec(self, other: &Expr<'scope, K, Ast>) -> Expr<'scope, AddExpr<i64, K>, BinaryExprAst<LiteralExprAst<i64>, Ast>> {
        arbitrary()
    }
}

impl<'scope, K: ExprKind<Value = i64>, Ast: ExprAst> Add<&Expr<'scope, K, Ast>> for i64 where HNil: HAppend<Ast::Params> {
    type Output = Expr<'scope, AddExpr<i64, K>, BinaryExprAst<LiteralExprAst<i64>, Ast>>;

    fn add(self, other: &Expr<'scope, K, Ast>) -> (expr: Expr<'scope, AddExpr<i64, K>, BinaryExprAst<LiteralExprAst<i64>, Ast>>)
        ensures
            expr.ast.left.value == self,
            expr.ast.op == ArithmeticOp::Add,
            expr.ast.right == other.ast,
            expr.project_alias == Label::Static("expr"),
    {
        Expr::<i64, LiteralExprAst<i64>>::binary(
            Expr::<i64, LiteralExprAst<i64>>::lit(self).ast,
            ArithmeticOp::Add,
            other,
        )
    }
}

impl<'scope, K: ExprKind<Value = i64>> vstd::std_specs::ops::AddSpecImpl<&ColumnRef<'scope, K>> for i64 {
    open spec fn obeys_add_spec() -> bool {
        false
    }

    open spec fn add_req(self, other: &ColumnRef<'scope, K>) -> bool {
        true
    }

    open spec fn add_spec(self, other: &ColumnRef<'scope, K>) -> Expr<'scope, AddExpr<i64, K>, BinaryExprAst<LiteralExprAst<i64>, ColumnExprAst<K>>> {
        arbitrary()
    }
}

impl<'scope, K: ExprKind<Value = i64>> Add<&ColumnRef<'scope, K>> for i64 {
    type Output = Expr<'scope, AddExpr<i64, K>, BinaryExprAst<LiteralExprAst<i64>, ColumnExprAst<K>>>;

    fn add(self, other: &ColumnRef<'scope, K>) -> (expr: Expr<'scope, AddExpr<i64, K>, BinaryExprAst<LiteralExprAst<i64>, ColumnExprAst<K>>>)
        ensures
            expr.ast.left.value == self,
            expr.ast.op == ArithmeticOp::Add,
            expr.ast.right == other.ast(),
            expr.project_alias == Label::Static("expr"),
    {
        Expr::<i64, LiteralExprAst<i64>>::binary(
            Expr::<i64, LiteralExprAst<i64>>::lit(self).ast,
            ArithmeticOp::Add,
            other,
        )
    }
}

impl<'scope, K: ExprKind<Value = i64>, Ast: ExprAst> vstd::std_specs::ops::SubSpecImpl<Expr<'scope, K, Ast>> for i64 where HNil: HAppend<Ast::Params> {
    open spec fn obeys_sub_spec() -> bool {
        false
    }

    open spec fn sub_req(self, other: Expr<'scope, K, Ast>) -> bool {
        true
    }

    open spec fn sub_spec(self, other: Expr<'scope, K, Ast>) -> Expr<'scope, SubtractExpr<i64, K>, BinaryExprAst<LiteralExprAst<i64>, Ast>> {
        arbitrary()
    }
}

impl<'scope, K: ExprKind<Value = i64>, Ast: ExprAst> Sub<Expr<'scope, K, Ast>> for i64 where HNil: HAppend<Ast::Params> {
    type Output = Expr<'scope, SubtractExpr<i64, K>, BinaryExprAst<LiteralExprAst<i64>, Ast>>;

    fn sub(self, other: Expr<'scope, K, Ast>) -> (expr: Expr<'scope, SubtractExpr<i64, K>, BinaryExprAst<LiteralExprAst<i64>, Ast>>)
        ensures
            expr.ast.left.value == self,
            expr.ast.op == ArithmeticOp::Subtract,
            expr.ast.right == other.ast,
            expr.project_alias == Label::Static("expr"),
    {
        Expr::<i64, LiteralExprAst<i64>>::binary(
            Expr::<i64, LiteralExprAst<i64>>::lit(self).ast,
            ArithmeticOp::Subtract,
            other,
        )
    }
}

impl<'scope, K: ExprKind<Value = i64>> vstd::std_specs::ops::SubSpecImpl<ColumnRef<'scope, K>> for i64 {
    open spec fn obeys_sub_spec() -> bool {
        false
    }

    open spec fn sub_req(self, other: ColumnRef<'scope, K>) -> bool {
        true
    }

    open spec fn sub_spec(self, other: ColumnRef<'scope, K>) -> Expr<'scope, SubtractExpr<i64, K>, BinaryExprAst<LiteralExprAst<i64>, ColumnExprAst<K>>> {
        arbitrary()
    }
}

impl<'scope, K: ExprKind<Value = i64>> Sub<ColumnRef<'scope, K>> for i64 {
    type Output = Expr<'scope, SubtractExpr<i64, K>, BinaryExprAst<LiteralExprAst<i64>, ColumnExprAst<K>>>;

    fn sub(self, other: ColumnRef<'scope, K>) -> (expr: Expr<'scope, SubtractExpr<i64, K>, BinaryExprAst<LiteralExprAst<i64>, ColumnExprAst<K>>>)
        ensures
            expr.ast.left.value == self,
            expr.ast.op == ArithmeticOp::Subtract,
            expr.ast.right == other.ast(),
            expr.project_alias == Label::Static("expr"),
    {
        Expr::<i64, LiteralExprAst<i64>>::binary(
            Expr::<i64, LiteralExprAst<i64>>::lit(self).ast,
            ArithmeticOp::Subtract,
            other,
        )
    }
}

impl<'scope, K: ExprKind<Value = i64>, Ast: ExprAst> vstd::std_specs::ops::SubSpecImpl<&Expr<'scope, K, Ast>> for i64 where HNil: HAppend<Ast::Params> {
    open spec fn obeys_sub_spec() -> bool {
        false
    }

    open spec fn sub_req(self, other: &Expr<'scope, K, Ast>) -> bool {
        true
    }

    open spec fn sub_spec(self, other: &Expr<'scope, K, Ast>) -> Expr<'scope, SubtractExpr<i64, K>, BinaryExprAst<LiteralExprAst<i64>, Ast>> {
        arbitrary()
    }
}

impl<'scope, K: ExprKind<Value = i64>, Ast: ExprAst> Sub<&Expr<'scope, K, Ast>> for i64 where HNil: HAppend<Ast::Params> {
    type Output = Expr<'scope, SubtractExpr<i64, K>, BinaryExprAst<LiteralExprAst<i64>, Ast>>;

    fn sub(self, other: &Expr<'scope, K, Ast>) -> (expr: Expr<'scope, SubtractExpr<i64, K>, BinaryExprAst<LiteralExprAst<i64>, Ast>>)
        ensures
            expr.ast.left.value == self,
            expr.ast.op == ArithmeticOp::Subtract,
            expr.ast.right == other.ast,
            expr.project_alias == Label::Static("expr"),
    {
        Expr::<i64, LiteralExprAst<i64>>::binary(
            Expr::<i64, LiteralExprAst<i64>>::lit(self).ast,
            ArithmeticOp::Subtract,
            other,
        )
    }
}

impl<'scope, K: ExprKind<Value = i64>> vstd::std_specs::ops::SubSpecImpl<&ColumnRef<'scope, K>> for i64 {
    open spec fn obeys_sub_spec() -> bool {
        false
    }

    open spec fn sub_req(self, other: &ColumnRef<'scope, K>) -> bool {
        true
    }

    open spec fn sub_spec(self, other: &ColumnRef<'scope, K>) -> Expr<'scope, SubtractExpr<i64, K>, BinaryExprAst<LiteralExprAst<i64>, ColumnExprAst<K>>> {
        arbitrary()
    }
}

impl<'scope, K: ExprKind<Value = i64>> Sub<&ColumnRef<'scope, K>> for i64 {
    type Output = Expr<'scope, SubtractExpr<i64, K>, BinaryExprAst<LiteralExprAst<i64>, ColumnExprAst<K>>>;

    fn sub(self, other: &ColumnRef<'scope, K>) -> (expr: Expr<'scope, SubtractExpr<i64, K>, BinaryExprAst<LiteralExprAst<i64>, ColumnExprAst<K>>>)
        ensures
            expr.ast.left.value == self,
            expr.ast.op == ArithmeticOp::Subtract,
            expr.ast.right == other.ast(),
            expr.project_alias == Label::Static("expr"),
    {
        Expr::<i64, LiteralExprAst<i64>>::binary(
            Expr::<i64, LiteralExprAst<i64>>::lit(self).ast,
            ArithmeticOp::Subtract,
            other,
        )
    }
}

impl<'scope, K: ExprKind<Value = i64>, Ast: ExprAst> vstd::std_specs::ops::MulSpecImpl<Expr<'scope, K, Ast>> for i64 where HNil: HAppend<Ast::Params> {
    open spec fn obeys_mul_spec() -> bool {
        false
    }

    open spec fn mul_req(self, other: Expr<'scope, K, Ast>) -> bool {
        true
    }

    open spec fn mul_spec(self, other: Expr<'scope, K, Ast>) -> Expr<'scope, MultiplyExpr<i64, K>, BinaryExprAst<LiteralExprAst<i64>, Ast>> {
        arbitrary()
    }
}

impl<'scope, K: ExprKind<Value = i64>, Ast: ExprAst> Mul<Expr<'scope, K, Ast>> for i64 where HNil: HAppend<Ast::Params> {
    type Output = Expr<'scope, MultiplyExpr<i64, K>, BinaryExprAst<LiteralExprAst<i64>, Ast>>;

    fn mul(self, other: Expr<'scope, K, Ast>) -> (expr: Expr<'scope, MultiplyExpr<i64, K>, BinaryExprAst<LiteralExprAst<i64>, Ast>>)
        ensures
            expr.ast.left.value == self,
            expr.ast.op == ArithmeticOp::Multiply,
            expr.ast.right == other.ast,
            expr.project_alias == Label::Static("expr"),
    {
        Expr::<i64, LiteralExprAst<i64>>::binary(
            Expr::<i64, LiteralExprAst<i64>>::lit(self).ast,
            ArithmeticOp::Multiply,
            other,
        )
    }
}

impl<'scope, K: ExprKind<Value = i64>> vstd::std_specs::ops::MulSpecImpl<ColumnRef<'scope, K>> for i64 {
    open spec fn obeys_mul_spec() -> bool {
        false
    }

    open spec fn mul_req(self, other: ColumnRef<'scope, K>) -> bool {
        true
    }

    open spec fn mul_spec(self, other: ColumnRef<'scope, K>) -> Expr<'scope, MultiplyExpr<i64, K>, BinaryExprAst<LiteralExprAst<i64>, ColumnExprAst<K>>> {
        arbitrary()
    }
}

impl<'scope, K: ExprKind<Value = i64>> Mul<ColumnRef<'scope, K>> for i64 {
    type Output = Expr<'scope, MultiplyExpr<i64, K>, BinaryExprAst<LiteralExprAst<i64>, ColumnExprAst<K>>>;

    fn mul(self, other: ColumnRef<'scope, K>) -> (expr: Expr<'scope, MultiplyExpr<i64, K>, BinaryExprAst<LiteralExprAst<i64>, ColumnExprAst<K>>>)
        ensures
            expr.ast.left.value == self,
            expr.ast.op == ArithmeticOp::Multiply,
            expr.ast.right == other.ast(),
            expr.project_alias == Label::Static("expr"),
    {
        Expr::<i64, LiteralExprAst<i64>>::binary(
            Expr::<i64, LiteralExprAst<i64>>::lit(self).ast,
            ArithmeticOp::Multiply,
            other,
        )
    }
}

impl<'scope, K: ExprKind<Value = i64>, Ast: ExprAst> vstd::std_specs::ops::MulSpecImpl<&Expr<'scope, K, Ast>> for i64 where HNil: HAppend<Ast::Params> {
    open spec fn obeys_mul_spec() -> bool {
        false
    }

    open spec fn mul_req(self, other: &Expr<'scope, K, Ast>) -> bool {
        true
    }

    open spec fn mul_spec(self, other: &Expr<'scope, K, Ast>) -> Expr<'scope, MultiplyExpr<i64, K>, BinaryExprAst<LiteralExprAst<i64>, Ast>> {
        arbitrary()
    }
}

impl<'scope, K: ExprKind<Value = i64>, Ast: ExprAst> Mul<&Expr<'scope, K, Ast>> for i64 where HNil: HAppend<Ast::Params> {
    type Output = Expr<'scope, MultiplyExpr<i64, K>, BinaryExprAst<LiteralExprAst<i64>, Ast>>;

    fn mul(self, other: &Expr<'scope, K, Ast>) -> (expr: Expr<'scope, MultiplyExpr<i64, K>, BinaryExprAst<LiteralExprAst<i64>, Ast>>)
        ensures
            expr.ast.left.value == self,
            expr.ast.op == ArithmeticOp::Multiply,
            expr.ast.right == other.ast,
            expr.project_alias == Label::Static("expr"),
    {
        Expr::<i64, LiteralExprAst<i64>>::binary(
            Expr::<i64, LiteralExprAst<i64>>::lit(self).ast,
            ArithmeticOp::Multiply,
            other,
        )
    }
}

impl<'scope, K: ExprKind<Value = i64>> vstd::std_specs::ops::MulSpecImpl<&ColumnRef<'scope, K>> for i64 {
    open spec fn obeys_mul_spec() -> bool {
        false
    }

    open spec fn mul_req(self, other: &ColumnRef<'scope, K>) -> bool {
        true
    }

    open spec fn mul_spec(self, other: &ColumnRef<'scope, K>) -> Expr<'scope, MultiplyExpr<i64, K>, BinaryExprAst<LiteralExprAst<i64>, ColumnExprAst<K>>> {
        arbitrary()
    }
}

impl<'scope, K: ExprKind<Value = i64>> Mul<&ColumnRef<'scope, K>> for i64 {
    type Output = Expr<'scope, MultiplyExpr<i64, K>, BinaryExprAst<LiteralExprAst<i64>, ColumnExprAst<K>>>;

    fn mul(self, other: &ColumnRef<'scope, K>) -> (expr: Expr<'scope, MultiplyExpr<i64, K>, BinaryExprAst<LiteralExprAst<i64>, ColumnExprAst<K>>>)
        ensures
            expr.ast.left.value == self,
            expr.ast.op == ArithmeticOp::Multiply,
            expr.ast.right == other.ast(),
            expr.project_alias == Label::Static("expr"),
    {
        Expr::<i64, LiteralExprAst<i64>>::binary(
            Expr::<i64, LiteralExprAst<i64>>::lit(self).ast,
            ArithmeticOp::Multiply,
            other,
        )
    }
}

impl<'scope, K: ExprKind<Value = i64>, Ast: ExprAst> vstd::std_specs::ops::DivSpecImpl<Expr<'scope, K, Ast>> for i64 where HNil: HAppend<Ast::Params> {
    open spec fn obeys_div_spec() -> bool {
        false
    }

    open spec fn div_req(self, other: Expr<'scope, K, Ast>) -> bool {
        true
    }

    open spec fn div_spec(self, other: Expr<'scope, K, Ast>) -> Expr<'scope, DivideExpr<i64, K>, BinaryExprAst<LiteralExprAst<i64>, Ast>> {
        arbitrary()
    }
}

impl<'scope, K: ExprKind<Value = i64>, Ast: ExprAst> Div<Expr<'scope, K, Ast>> for i64 where HNil: HAppend<Ast::Params> {
    type Output = Expr<'scope, DivideExpr<i64, K>, BinaryExprAst<LiteralExprAst<i64>, Ast>>;

    fn div(self, other: Expr<'scope, K, Ast>) -> (expr: Expr<'scope, DivideExpr<i64, K>, BinaryExprAst<LiteralExprAst<i64>, Ast>>)
        ensures
            expr.ast.left.value == self,
            expr.ast.op == ArithmeticOp::Divide,
            expr.ast.right == other.ast,
            expr.project_alias == Label::Static("expr"),
    {
        Expr::<i64, LiteralExprAst<i64>>::binary(
            Expr::<i64, LiteralExprAst<i64>>::lit(self).ast,
            ArithmeticOp::Divide,
            other,
        )
    }
}

impl<'scope, K: ExprKind<Value = i64>> vstd::std_specs::ops::DivSpecImpl<ColumnRef<'scope, K>> for i64 {
    open spec fn obeys_div_spec() -> bool {
        false
    }

    open spec fn div_req(self, other: ColumnRef<'scope, K>) -> bool {
        true
    }

    open spec fn div_spec(self, other: ColumnRef<'scope, K>) -> Expr<'scope, DivideExpr<i64, K>, BinaryExprAst<LiteralExprAst<i64>, ColumnExprAst<K>>> {
        arbitrary()
    }
}

impl<'scope, K: ExprKind<Value = i64>> Div<ColumnRef<'scope, K>> for i64 {
    type Output = Expr<'scope, DivideExpr<i64, K>, BinaryExprAst<LiteralExprAst<i64>, ColumnExprAst<K>>>;

    fn div(self, other: ColumnRef<'scope, K>) -> (expr: Expr<'scope, DivideExpr<i64, K>, BinaryExprAst<LiteralExprAst<i64>, ColumnExprAst<K>>>)
        ensures
            expr.ast.left.value == self,
            expr.ast.op == ArithmeticOp::Divide,
            expr.ast.right == other.ast(),
            expr.project_alias == Label::Static("expr"),
    {
        Expr::<i64, LiteralExprAst<i64>>::binary(
            Expr::<i64, LiteralExprAst<i64>>::lit(self).ast,
            ArithmeticOp::Divide,
            other,
        )
    }
}

impl<'scope, K: ExprKind<Value = i64>, Ast: ExprAst> vstd::std_specs::ops::DivSpecImpl<&Expr<'scope, K, Ast>> for i64 where HNil: HAppend<Ast::Params> {
    open spec fn obeys_div_spec() -> bool {
        false
    }

    open spec fn div_req(self, other: &Expr<'scope, K, Ast>) -> bool {
        true
    }

    open spec fn div_spec(self, other: &Expr<'scope, K, Ast>) -> Expr<'scope, DivideExpr<i64, K>, BinaryExprAst<LiteralExprAst<i64>, Ast>> {
        arbitrary()
    }
}

impl<'scope, K: ExprKind<Value = i64>, Ast: ExprAst> Div<&Expr<'scope, K, Ast>> for i64 where HNil: HAppend<Ast::Params> {
    type Output = Expr<'scope, DivideExpr<i64, K>, BinaryExprAst<LiteralExprAst<i64>, Ast>>;

    fn div(self, other: &Expr<'scope, K, Ast>) -> (expr: Expr<'scope, DivideExpr<i64, K>, BinaryExprAst<LiteralExprAst<i64>, Ast>>)
        ensures
            expr.ast.left.value == self,
            expr.ast.op == ArithmeticOp::Divide,
            expr.ast.right == other.ast,
            expr.project_alias == Label::Static("expr"),
    {
        Expr::<i64, LiteralExprAst<i64>>::binary(
            Expr::<i64, LiteralExprAst<i64>>::lit(self).ast,
            ArithmeticOp::Divide,
            other,
        )
    }
}

impl<'scope, K: ExprKind<Value = i64>> vstd::std_specs::ops::DivSpecImpl<&ColumnRef<'scope, K>> for i64 {
    open spec fn obeys_div_spec() -> bool {
        false
    }

    open spec fn div_req(self, other: &ColumnRef<'scope, K>) -> bool {
        true
    }

    open spec fn div_spec(self, other: &ColumnRef<'scope, K>) -> Expr<'scope, DivideExpr<i64, K>, BinaryExprAst<LiteralExprAst<i64>, ColumnExprAst<K>>> {
        arbitrary()
    }
}

impl<'scope, K: ExprKind<Value = i64>> Div<&ColumnRef<'scope, K>> for i64 {
    type Output = Expr<'scope, DivideExpr<i64, K>, BinaryExprAst<LiteralExprAst<i64>, ColumnExprAst<K>>>;

    fn div(self, other: &ColumnRef<'scope, K>) -> (expr: Expr<'scope, DivideExpr<i64, K>, BinaryExprAst<LiteralExprAst<i64>, ColumnExprAst<K>>>)
        ensures
            expr.ast.left.value == self,
            expr.ast.op == ArithmeticOp::Divide,
            expr.ast.right == other.ast(),
            expr.project_alias == Label::Static("expr"),
    {
        Expr::<i64, LiteralExprAst<i64>>::binary(
            Expr::<i64, LiteralExprAst<i64>>::lit(self).ast,
            ArithmeticOp::Divide,
            other,
        )
    }
}

impl<'scope, K: ExprKind<Value = i128>, Ast: ExprAst> vstd::std_specs::ops::AddSpecImpl<Expr<'scope, K, Ast>> for i128 where HNil: HAppend<Ast::Params> {
    open spec fn obeys_add_spec() -> bool {
        false
    }

    open spec fn add_req(self, other: Expr<'scope, K, Ast>) -> bool {
        true
    }

    open spec fn add_spec(self, other: Expr<'scope, K, Ast>) -> Expr<'scope, AddExpr<i128, K>, BinaryExprAst<LiteralExprAst<i128>, Ast>> {
        arbitrary()
    }
}

impl<'scope, K: ExprKind<Value = i128>, Ast: ExprAst> Add<Expr<'scope, K, Ast>> for i128 where HNil: HAppend<Ast::Params> {
    type Output = Expr<'scope, AddExpr<i128, K>, BinaryExprAst<LiteralExprAst<i128>, Ast>>;

    fn add(self, other: Expr<'scope, K, Ast>) -> (expr: Expr<'scope, AddExpr<i128, K>, BinaryExprAst<LiteralExprAst<i128>, Ast>>)
        ensures
            expr.ast.left.value == self,
            expr.ast.op == ArithmeticOp::Add,
            expr.ast.right == other.ast,
            expr.project_alias == Label::Static("expr"),
    {
        Expr::<i128, LiteralExprAst<i128>>::binary(
            Expr::<i128, LiteralExprAst<i128>>::lit(self).ast,
            ArithmeticOp::Add,
            other,
        )
    }
}

impl<'scope, K: ExprKind<Value = i128>> vstd::std_specs::ops::AddSpecImpl<ColumnRef<'scope, K>> for i128 {
    open spec fn obeys_add_spec() -> bool {
        false
    }

    open spec fn add_req(self, other: ColumnRef<'scope, K>) -> bool {
        true
    }

    open spec fn add_spec(self, other: ColumnRef<'scope, K>) -> Expr<'scope, AddExpr<i128, K>, BinaryExprAst<LiteralExprAst<i128>, ColumnExprAst<K>>> {
        arbitrary()
    }
}

impl<'scope, K: ExprKind<Value = i128>> Add<ColumnRef<'scope, K>> for i128 {
    type Output = Expr<'scope, AddExpr<i128, K>, BinaryExprAst<LiteralExprAst<i128>, ColumnExprAst<K>>>;

    fn add(self, other: ColumnRef<'scope, K>) -> (expr: Expr<'scope, AddExpr<i128, K>, BinaryExprAst<LiteralExprAst<i128>, ColumnExprAst<K>>>)
        ensures
            expr.ast.left.value == self,
            expr.ast.op == ArithmeticOp::Add,
            expr.ast.right == other.ast(),
            expr.project_alias == Label::Static("expr"),
    {
        Expr::<i128, LiteralExprAst<i128>>::binary(
            Expr::<i128, LiteralExprAst<i128>>::lit(self).ast,
            ArithmeticOp::Add,
            other,
        )
    }
}

impl<'scope, K: ExprKind<Value = i128>, Ast: ExprAst> vstd::std_specs::ops::AddSpecImpl<&Expr<'scope, K, Ast>> for i128 where HNil: HAppend<Ast::Params> {
    open spec fn obeys_add_spec() -> bool {
        false
    }

    open spec fn add_req(self, other: &Expr<'scope, K, Ast>) -> bool {
        true
    }

    open spec fn add_spec(self, other: &Expr<'scope, K, Ast>) -> Expr<'scope, AddExpr<i128, K>, BinaryExprAst<LiteralExprAst<i128>, Ast>> {
        arbitrary()
    }
}

impl<'scope, K: ExprKind<Value = i128>, Ast: ExprAst> Add<&Expr<'scope, K, Ast>> for i128 where HNil: HAppend<Ast::Params> {
    type Output = Expr<'scope, AddExpr<i128, K>, BinaryExprAst<LiteralExprAst<i128>, Ast>>;

    fn add(self, other: &Expr<'scope, K, Ast>) -> (expr: Expr<'scope, AddExpr<i128, K>, BinaryExprAst<LiteralExprAst<i128>, Ast>>)
        ensures
            expr.ast.left.value == self,
            expr.ast.op == ArithmeticOp::Add,
            expr.ast.right == other.ast,
            expr.project_alias == Label::Static("expr"),
    {
        Expr::<i128, LiteralExprAst<i128>>::binary(
            Expr::<i128, LiteralExprAst<i128>>::lit(self).ast,
            ArithmeticOp::Add,
            other,
        )
    }
}

impl<'scope, K: ExprKind<Value = i128>> vstd::std_specs::ops::AddSpecImpl<&ColumnRef<'scope, K>> for i128 {
    open spec fn obeys_add_spec() -> bool {
        false
    }

    open spec fn add_req(self, other: &ColumnRef<'scope, K>) -> bool {
        true
    }

    open spec fn add_spec(self, other: &ColumnRef<'scope, K>) -> Expr<'scope, AddExpr<i128, K>, BinaryExprAst<LiteralExprAst<i128>, ColumnExprAst<K>>> {
        arbitrary()
    }
}

impl<'scope, K: ExprKind<Value = i128>> Add<&ColumnRef<'scope, K>> for i128 {
    type Output = Expr<'scope, AddExpr<i128, K>, BinaryExprAst<LiteralExprAst<i128>, ColumnExprAst<K>>>;

    fn add(self, other: &ColumnRef<'scope, K>) -> (expr: Expr<'scope, AddExpr<i128, K>, BinaryExprAst<LiteralExprAst<i128>, ColumnExprAst<K>>>)
        ensures
            expr.ast.left.value == self,
            expr.ast.op == ArithmeticOp::Add,
            expr.ast.right == other.ast(),
            expr.project_alias == Label::Static("expr"),
    {
        Expr::<i128, LiteralExprAst<i128>>::binary(
            Expr::<i128, LiteralExprAst<i128>>::lit(self).ast,
            ArithmeticOp::Add,
            other,
        )
    }
}

impl<'scope, K: ExprKind<Value = i128>, Ast: ExprAst> vstd::std_specs::ops::SubSpecImpl<Expr<'scope, K, Ast>> for i128 where HNil: HAppend<Ast::Params> {
    open spec fn obeys_sub_spec() -> bool {
        false
    }

    open spec fn sub_req(self, other: Expr<'scope, K, Ast>) -> bool {
        true
    }

    open spec fn sub_spec(self, other: Expr<'scope, K, Ast>) -> Expr<'scope, SubtractExpr<i128, K>, BinaryExprAst<LiteralExprAst<i128>, Ast>> {
        arbitrary()
    }
}

impl<'scope, K: ExprKind<Value = i128>, Ast: ExprAst> Sub<Expr<'scope, K, Ast>> for i128 where HNil: HAppend<Ast::Params> {
    type Output = Expr<'scope, SubtractExpr<i128, K>, BinaryExprAst<LiteralExprAst<i128>, Ast>>;

    fn sub(self, other: Expr<'scope, K, Ast>) -> (expr: Expr<'scope, SubtractExpr<i128, K>, BinaryExprAst<LiteralExprAst<i128>, Ast>>)
        ensures
            expr.ast.left.value == self,
            expr.ast.op == ArithmeticOp::Subtract,
            expr.ast.right == other.ast,
            expr.project_alias == Label::Static("expr"),
    {
        Expr::<i128, LiteralExprAst<i128>>::binary(
            Expr::<i128, LiteralExprAst<i128>>::lit(self).ast,
            ArithmeticOp::Subtract,
            other,
        )
    }
}

impl<'scope, K: ExprKind<Value = i128>> vstd::std_specs::ops::SubSpecImpl<ColumnRef<'scope, K>> for i128 {
    open spec fn obeys_sub_spec() -> bool {
        false
    }

    open spec fn sub_req(self, other: ColumnRef<'scope, K>) -> bool {
        true
    }

    open spec fn sub_spec(self, other: ColumnRef<'scope, K>) -> Expr<'scope, SubtractExpr<i128, K>, BinaryExprAst<LiteralExprAst<i128>, ColumnExprAst<K>>> {
        arbitrary()
    }
}

impl<'scope, K: ExprKind<Value = i128>> Sub<ColumnRef<'scope, K>> for i128 {
    type Output = Expr<'scope, SubtractExpr<i128, K>, BinaryExprAst<LiteralExprAst<i128>, ColumnExprAst<K>>>;

    fn sub(self, other: ColumnRef<'scope, K>) -> (expr: Expr<'scope, SubtractExpr<i128, K>, BinaryExprAst<LiteralExprAst<i128>, ColumnExprAst<K>>>)
        ensures
            expr.ast.left.value == self,
            expr.ast.op == ArithmeticOp::Subtract,
            expr.ast.right == other.ast(),
            expr.project_alias == Label::Static("expr"),
    {
        Expr::<i128, LiteralExprAst<i128>>::binary(
            Expr::<i128, LiteralExprAst<i128>>::lit(self).ast,
            ArithmeticOp::Subtract,
            other,
        )
    }
}

impl<'scope, K: ExprKind<Value = i128>, Ast: ExprAst> vstd::std_specs::ops::SubSpecImpl<&Expr<'scope, K, Ast>> for i128 where HNil: HAppend<Ast::Params> {
    open spec fn obeys_sub_spec() -> bool {
        false
    }

    open spec fn sub_req(self, other: &Expr<'scope, K, Ast>) -> bool {
        true
    }

    open spec fn sub_spec(self, other: &Expr<'scope, K, Ast>) -> Expr<'scope, SubtractExpr<i128, K>, BinaryExprAst<LiteralExprAst<i128>, Ast>> {
        arbitrary()
    }
}

impl<'scope, K: ExprKind<Value = i128>, Ast: ExprAst> Sub<&Expr<'scope, K, Ast>> for i128 where HNil: HAppend<Ast::Params> {
    type Output = Expr<'scope, SubtractExpr<i128, K>, BinaryExprAst<LiteralExprAst<i128>, Ast>>;

    fn sub(self, other: &Expr<'scope, K, Ast>) -> (expr: Expr<'scope, SubtractExpr<i128, K>, BinaryExprAst<LiteralExprAst<i128>, Ast>>)
        ensures
            expr.ast.left.value == self,
            expr.ast.op == ArithmeticOp::Subtract,
            expr.ast.right == other.ast,
            expr.project_alias == Label::Static("expr"),
    {
        Expr::<i128, LiteralExprAst<i128>>::binary(
            Expr::<i128, LiteralExprAst<i128>>::lit(self).ast,
            ArithmeticOp::Subtract,
            other,
        )
    }
}

impl<'scope, K: ExprKind<Value = i128>> vstd::std_specs::ops::SubSpecImpl<&ColumnRef<'scope, K>> for i128 {
    open spec fn obeys_sub_spec() -> bool {
        false
    }

    open spec fn sub_req(self, other: &ColumnRef<'scope, K>) -> bool {
        true
    }

    open spec fn sub_spec(self, other: &ColumnRef<'scope, K>) -> Expr<'scope, SubtractExpr<i128, K>, BinaryExprAst<LiteralExprAst<i128>, ColumnExprAst<K>>> {
        arbitrary()
    }
}

impl<'scope, K: ExprKind<Value = i128>> Sub<&ColumnRef<'scope, K>> for i128 {
    type Output = Expr<'scope, SubtractExpr<i128, K>, BinaryExprAst<LiteralExprAst<i128>, ColumnExprAst<K>>>;

    fn sub(self, other: &ColumnRef<'scope, K>) -> (expr: Expr<'scope, SubtractExpr<i128, K>, BinaryExprAst<LiteralExprAst<i128>, ColumnExprAst<K>>>)
        ensures
            expr.ast.left.value == self,
            expr.ast.op == ArithmeticOp::Subtract,
            expr.ast.right == other.ast(),
            expr.project_alias == Label::Static("expr"),
    {
        Expr::<i128, LiteralExprAst<i128>>::binary(
            Expr::<i128, LiteralExprAst<i128>>::lit(self).ast,
            ArithmeticOp::Subtract,
            other,
        )
    }
}

impl<'scope, K: ExprKind<Value = i128>, Ast: ExprAst> vstd::std_specs::ops::MulSpecImpl<Expr<'scope, K, Ast>> for i128 where HNil: HAppend<Ast::Params> {
    open spec fn obeys_mul_spec() -> bool {
        false
    }

    open spec fn mul_req(self, other: Expr<'scope, K, Ast>) -> bool {
        true
    }

    open spec fn mul_spec(self, other: Expr<'scope, K, Ast>) -> Expr<'scope, MultiplyExpr<i128, K>, BinaryExprAst<LiteralExprAst<i128>, Ast>> {
        arbitrary()
    }
}

impl<'scope, K: ExprKind<Value = i128>, Ast: ExprAst> Mul<Expr<'scope, K, Ast>> for i128 where HNil: HAppend<Ast::Params> {
    type Output = Expr<'scope, MultiplyExpr<i128, K>, BinaryExprAst<LiteralExprAst<i128>, Ast>>;

    fn mul(self, other: Expr<'scope, K, Ast>) -> (expr: Expr<'scope, MultiplyExpr<i128, K>, BinaryExprAst<LiteralExprAst<i128>, Ast>>)
        ensures
            expr.ast.left.value == self,
            expr.ast.op == ArithmeticOp::Multiply,
            expr.ast.right == other.ast,
            expr.project_alias == Label::Static("expr"),
    {
        Expr::<i128, LiteralExprAst<i128>>::binary(
            Expr::<i128, LiteralExprAst<i128>>::lit(self).ast,
            ArithmeticOp::Multiply,
            other,
        )
    }
}

impl<'scope, K: ExprKind<Value = i128>> vstd::std_specs::ops::MulSpecImpl<ColumnRef<'scope, K>> for i128 {
    open spec fn obeys_mul_spec() -> bool {
        false
    }

    open spec fn mul_req(self, other: ColumnRef<'scope, K>) -> bool {
        true
    }

    open spec fn mul_spec(self, other: ColumnRef<'scope, K>) -> Expr<'scope, MultiplyExpr<i128, K>, BinaryExprAst<LiteralExprAst<i128>, ColumnExprAst<K>>> {
        arbitrary()
    }
}

impl<'scope, K: ExprKind<Value = i128>> Mul<ColumnRef<'scope, K>> for i128 {
    type Output = Expr<'scope, MultiplyExpr<i128, K>, BinaryExprAst<LiteralExprAst<i128>, ColumnExprAst<K>>>;

    fn mul(self, other: ColumnRef<'scope, K>) -> (expr: Expr<'scope, MultiplyExpr<i128, K>, BinaryExprAst<LiteralExprAst<i128>, ColumnExprAst<K>>>)
        ensures
            expr.ast.left.value == self,
            expr.ast.op == ArithmeticOp::Multiply,
            expr.ast.right == other.ast(),
            expr.project_alias == Label::Static("expr"),
    {
        Expr::<i128, LiteralExprAst<i128>>::binary(
            Expr::<i128, LiteralExprAst<i128>>::lit(self).ast,
            ArithmeticOp::Multiply,
            other,
        )
    }
}

impl<'scope, K: ExprKind<Value = i128>, Ast: ExprAst> vstd::std_specs::ops::MulSpecImpl<&Expr<'scope, K, Ast>> for i128 where HNil: HAppend<Ast::Params> {
    open spec fn obeys_mul_spec() -> bool {
        false
    }

    open spec fn mul_req(self, other: &Expr<'scope, K, Ast>) -> bool {
        true
    }

    open spec fn mul_spec(self, other: &Expr<'scope, K, Ast>) -> Expr<'scope, MultiplyExpr<i128, K>, BinaryExprAst<LiteralExprAst<i128>, Ast>> {
        arbitrary()
    }
}

impl<'scope, K: ExprKind<Value = i128>, Ast: ExprAst> Mul<&Expr<'scope, K, Ast>> for i128 where HNil: HAppend<Ast::Params> {
    type Output = Expr<'scope, MultiplyExpr<i128, K>, BinaryExprAst<LiteralExprAst<i128>, Ast>>;

    fn mul(self, other: &Expr<'scope, K, Ast>) -> (expr: Expr<'scope, MultiplyExpr<i128, K>, BinaryExprAst<LiteralExprAst<i128>, Ast>>)
        ensures
            expr.ast.left.value == self,
            expr.ast.op == ArithmeticOp::Multiply,
            expr.ast.right == other.ast,
            expr.project_alias == Label::Static("expr"),
    {
        Expr::<i128, LiteralExprAst<i128>>::binary(
            Expr::<i128, LiteralExprAst<i128>>::lit(self).ast,
            ArithmeticOp::Multiply,
            other,
        )
    }
}

impl<'scope, K: ExprKind<Value = i128>> vstd::std_specs::ops::MulSpecImpl<&ColumnRef<'scope, K>> for i128 {
    open spec fn obeys_mul_spec() -> bool {
        false
    }

    open spec fn mul_req(self, other: &ColumnRef<'scope, K>) -> bool {
        true
    }

    open spec fn mul_spec(self, other: &ColumnRef<'scope, K>) -> Expr<'scope, MultiplyExpr<i128, K>, BinaryExprAst<LiteralExprAst<i128>, ColumnExprAst<K>>> {
        arbitrary()
    }
}

impl<'scope, K: ExprKind<Value = i128>> Mul<&ColumnRef<'scope, K>> for i128 {
    type Output = Expr<'scope, MultiplyExpr<i128, K>, BinaryExprAst<LiteralExprAst<i128>, ColumnExprAst<K>>>;

    fn mul(self, other: &ColumnRef<'scope, K>) -> (expr: Expr<'scope, MultiplyExpr<i128, K>, BinaryExprAst<LiteralExprAst<i128>, ColumnExprAst<K>>>)
        ensures
            expr.ast.left.value == self,
            expr.ast.op == ArithmeticOp::Multiply,
            expr.ast.right == other.ast(),
            expr.project_alias == Label::Static("expr"),
    {
        Expr::<i128, LiteralExprAst<i128>>::binary(
            Expr::<i128, LiteralExprAst<i128>>::lit(self).ast,
            ArithmeticOp::Multiply,
            other,
        )
    }
}

impl<'scope, K: ExprKind<Value = i128>, Ast: ExprAst> vstd::std_specs::ops::DivSpecImpl<Expr<'scope, K, Ast>> for i128 where HNil: HAppend<Ast::Params> {
    open spec fn obeys_div_spec() -> bool {
        false
    }

    open spec fn div_req(self, other: Expr<'scope, K, Ast>) -> bool {
        true
    }

    open spec fn div_spec(self, other: Expr<'scope, K, Ast>) -> Expr<'scope, DivideExpr<i128, K>, BinaryExprAst<LiteralExprAst<i128>, Ast>> {
        arbitrary()
    }
}

impl<'scope, K: ExprKind<Value = i128>, Ast: ExprAst> Div<Expr<'scope, K, Ast>> for i128 where HNil: HAppend<Ast::Params> {
    type Output = Expr<'scope, DivideExpr<i128, K>, BinaryExprAst<LiteralExprAst<i128>, Ast>>;

    fn div(self, other: Expr<'scope, K, Ast>) -> (expr: Expr<'scope, DivideExpr<i128, K>, BinaryExprAst<LiteralExprAst<i128>, Ast>>)
        ensures
            expr.ast.left.value == self,
            expr.ast.op == ArithmeticOp::Divide,
            expr.ast.right == other.ast,
            expr.project_alias == Label::Static("expr"),
    {
        Expr::<i128, LiteralExprAst<i128>>::binary(
            Expr::<i128, LiteralExprAst<i128>>::lit(self).ast,
            ArithmeticOp::Divide,
            other,
        )
    }
}

impl<'scope, K: ExprKind<Value = i128>> vstd::std_specs::ops::DivSpecImpl<ColumnRef<'scope, K>> for i128 {
    open spec fn obeys_div_spec() -> bool {
        false
    }

    open spec fn div_req(self, other: ColumnRef<'scope, K>) -> bool {
        true
    }

    open spec fn div_spec(self, other: ColumnRef<'scope, K>) -> Expr<'scope, DivideExpr<i128, K>, BinaryExprAst<LiteralExprAst<i128>, ColumnExprAst<K>>> {
        arbitrary()
    }
}

impl<'scope, K: ExprKind<Value = i128>> Div<ColumnRef<'scope, K>> for i128 {
    type Output = Expr<'scope, DivideExpr<i128, K>, BinaryExprAst<LiteralExprAst<i128>, ColumnExprAst<K>>>;

    fn div(self, other: ColumnRef<'scope, K>) -> (expr: Expr<'scope, DivideExpr<i128, K>, BinaryExprAst<LiteralExprAst<i128>, ColumnExprAst<K>>>)
        ensures
            expr.ast.left.value == self,
            expr.ast.op == ArithmeticOp::Divide,
            expr.ast.right == other.ast(),
            expr.project_alias == Label::Static("expr"),
    {
        Expr::<i128, LiteralExprAst<i128>>::binary(
            Expr::<i128, LiteralExprAst<i128>>::lit(self).ast,
            ArithmeticOp::Divide,
            other,
        )
    }
}

impl<'scope, K: ExprKind<Value = i128>, Ast: ExprAst> vstd::std_specs::ops::DivSpecImpl<&Expr<'scope, K, Ast>> for i128 where HNil: HAppend<Ast::Params> {
    open spec fn obeys_div_spec() -> bool {
        false
    }

    open spec fn div_req(self, other: &Expr<'scope, K, Ast>) -> bool {
        true
    }

    open spec fn div_spec(self, other: &Expr<'scope, K, Ast>) -> Expr<'scope, DivideExpr<i128, K>, BinaryExprAst<LiteralExprAst<i128>, Ast>> {
        arbitrary()
    }
}

impl<'scope, K: ExprKind<Value = i128>, Ast: ExprAst> Div<&Expr<'scope, K, Ast>> for i128 where HNil: HAppend<Ast::Params> {
    type Output = Expr<'scope, DivideExpr<i128, K>, BinaryExprAst<LiteralExprAst<i128>, Ast>>;

    fn div(self, other: &Expr<'scope, K, Ast>) -> (expr: Expr<'scope, DivideExpr<i128, K>, BinaryExprAst<LiteralExprAst<i128>, Ast>>)
        ensures
            expr.ast.left.value == self,
            expr.ast.op == ArithmeticOp::Divide,
            expr.ast.right == other.ast,
            expr.project_alias == Label::Static("expr"),
    {
        Expr::<i128, LiteralExprAst<i128>>::binary(
            Expr::<i128, LiteralExprAst<i128>>::lit(self).ast,
            ArithmeticOp::Divide,
            other,
        )
    }
}

impl<'scope, K: ExprKind<Value = i128>> vstd::std_specs::ops::DivSpecImpl<&ColumnRef<'scope, K>> for i128 {
    open spec fn obeys_div_spec() -> bool {
        false
    }

    open spec fn div_req(self, other: &ColumnRef<'scope, K>) -> bool {
        true
    }

    open spec fn div_spec(self, other: &ColumnRef<'scope, K>) -> Expr<'scope, DivideExpr<i128, K>, BinaryExprAst<LiteralExprAst<i128>, ColumnExprAst<K>>> {
        arbitrary()
    }
}

impl<'scope, K: ExprKind<Value = i128>> Div<&ColumnRef<'scope, K>> for i128 {
    type Output = Expr<'scope, DivideExpr<i128, K>, BinaryExprAst<LiteralExprAst<i128>, ColumnExprAst<K>>>;

    fn div(self, other: &ColumnRef<'scope, K>) -> (expr: Expr<'scope, DivideExpr<i128, K>, BinaryExprAst<LiteralExprAst<i128>, ColumnExprAst<K>>>)
        ensures
            expr.ast.left.value == self,
            expr.ast.op == ArithmeticOp::Divide,
            expr.ast.right == other.ast(),
            expr.project_alias == Label::Static("expr"),
    {
        Expr::<i128, LiteralExprAst<i128>>::binary(
            Expr::<i128, LiteralExprAst<i128>>::lit(self).ast,
            ArithmeticOp::Divide,
            other,
        )
    }
}

impl<'scope, K: ExprKind<Value = isize>, Ast: ExprAst> vstd::std_specs::ops::AddSpecImpl<Expr<'scope, K, Ast>> for isize where HNil: HAppend<Ast::Params> {
    open spec fn obeys_add_spec() -> bool {
        false
    }

    open spec fn add_req(self, other: Expr<'scope, K, Ast>) -> bool {
        true
    }

    open spec fn add_spec(self, other: Expr<'scope, K, Ast>) -> Expr<'scope, AddExpr<isize, K>, BinaryExprAst<LiteralExprAst<isize>, Ast>> {
        arbitrary()
    }
}

impl<'scope, K: ExprKind<Value = isize>, Ast: ExprAst> Add<Expr<'scope, K, Ast>> for isize where HNil: HAppend<Ast::Params> {
    type Output = Expr<'scope, AddExpr<isize, K>, BinaryExprAst<LiteralExprAst<isize>, Ast>>;

    fn add(self, other: Expr<'scope, K, Ast>) -> (expr: Expr<'scope, AddExpr<isize, K>, BinaryExprAst<LiteralExprAst<isize>, Ast>>)
        ensures
            expr.ast.left.value == self,
            expr.ast.op == ArithmeticOp::Add,
            expr.ast.right == other.ast,
            expr.project_alias == Label::Static("expr"),
    {
        Expr::<isize, LiteralExprAst<isize>>::binary(
            Expr::<isize, LiteralExprAst<isize>>::lit(self).ast,
            ArithmeticOp::Add,
            other,
        )
    }
}

impl<'scope, K: ExprKind<Value = isize>> vstd::std_specs::ops::AddSpecImpl<ColumnRef<'scope, K>> for isize {
    open spec fn obeys_add_spec() -> bool {
        false
    }

    open spec fn add_req(self, other: ColumnRef<'scope, K>) -> bool {
        true
    }

    open spec fn add_spec(self, other: ColumnRef<'scope, K>) -> Expr<'scope, AddExpr<isize, K>, BinaryExprAst<LiteralExprAst<isize>, ColumnExprAst<K>>> {
        arbitrary()
    }
}

impl<'scope, K: ExprKind<Value = isize>> Add<ColumnRef<'scope, K>> for isize {
    type Output = Expr<'scope, AddExpr<isize, K>, BinaryExprAst<LiteralExprAst<isize>, ColumnExprAst<K>>>;

    fn add(self, other: ColumnRef<'scope, K>) -> (expr: Expr<'scope, AddExpr<isize, K>, BinaryExprAst<LiteralExprAst<isize>, ColumnExprAst<K>>>)
        ensures
            expr.ast.left.value == self,
            expr.ast.op == ArithmeticOp::Add,
            expr.ast.right == other.ast(),
            expr.project_alias == Label::Static("expr"),
    {
        Expr::<isize, LiteralExprAst<isize>>::binary(
            Expr::<isize, LiteralExprAst<isize>>::lit(self).ast,
            ArithmeticOp::Add,
            other,
        )
    }
}

impl<'scope, K: ExprKind<Value = isize>, Ast: ExprAst> vstd::std_specs::ops::AddSpecImpl<&Expr<'scope, K, Ast>> for isize where HNil: HAppend<Ast::Params> {
    open spec fn obeys_add_spec() -> bool {
        false
    }

    open spec fn add_req(self, other: &Expr<'scope, K, Ast>) -> bool {
        true
    }

    open spec fn add_spec(self, other: &Expr<'scope, K, Ast>) -> Expr<'scope, AddExpr<isize, K>, BinaryExprAst<LiteralExprAst<isize>, Ast>> {
        arbitrary()
    }
}

impl<'scope, K: ExprKind<Value = isize>, Ast: ExprAst> Add<&Expr<'scope, K, Ast>> for isize where HNil: HAppend<Ast::Params> {
    type Output = Expr<'scope, AddExpr<isize, K>, BinaryExprAst<LiteralExprAst<isize>, Ast>>;

    fn add(self, other: &Expr<'scope, K, Ast>) -> (expr: Expr<'scope, AddExpr<isize, K>, BinaryExprAst<LiteralExprAst<isize>, Ast>>)
        ensures
            expr.ast.left.value == self,
            expr.ast.op == ArithmeticOp::Add,
            expr.ast.right == other.ast,
            expr.project_alias == Label::Static("expr"),
    {
        Expr::<isize, LiteralExprAst<isize>>::binary(
            Expr::<isize, LiteralExprAst<isize>>::lit(self).ast,
            ArithmeticOp::Add,
            other,
        )
    }
}

impl<'scope, K: ExprKind<Value = isize>> vstd::std_specs::ops::AddSpecImpl<&ColumnRef<'scope, K>> for isize {
    open spec fn obeys_add_spec() -> bool {
        false
    }

    open spec fn add_req(self, other: &ColumnRef<'scope, K>) -> bool {
        true
    }

    open spec fn add_spec(self, other: &ColumnRef<'scope, K>) -> Expr<'scope, AddExpr<isize, K>, BinaryExprAst<LiteralExprAst<isize>, ColumnExprAst<K>>> {
        arbitrary()
    }
}

impl<'scope, K: ExprKind<Value = isize>> Add<&ColumnRef<'scope, K>> for isize {
    type Output = Expr<'scope, AddExpr<isize, K>, BinaryExprAst<LiteralExprAst<isize>, ColumnExprAst<K>>>;

    fn add(self, other: &ColumnRef<'scope, K>) -> (expr: Expr<'scope, AddExpr<isize, K>, BinaryExprAst<LiteralExprAst<isize>, ColumnExprAst<K>>>)
        ensures
            expr.ast.left.value == self,
            expr.ast.op == ArithmeticOp::Add,
            expr.ast.right == other.ast(),
            expr.project_alias == Label::Static("expr"),
    {
        Expr::<isize, LiteralExprAst<isize>>::binary(
            Expr::<isize, LiteralExprAst<isize>>::lit(self).ast,
            ArithmeticOp::Add,
            other,
        )
    }
}

impl<'scope, K: ExprKind<Value = isize>, Ast: ExprAst> vstd::std_specs::ops::SubSpecImpl<Expr<'scope, K, Ast>> for isize where HNil: HAppend<Ast::Params> {
    open spec fn obeys_sub_spec() -> bool {
        false
    }

    open spec fn sub_req(self, other: Expr<'scope, K, Ast>) -> bool {
        true
    }

    open spec fn sub_spec(self, other: Expr<'scope, K, Ast>) -> Expr<'scope, SubtractExpr<isize, K>, BinaryExprAst<LiteralExprAst<isize>, Ast>> {
        arbitrary()
    }
}

impl<'scope, K: ExprKind<Value = isize>, Ast: ExprAst> Sub<Expr<'scope, K, Ast>> for isize where HNil: HAppend<Ast::Params> {
    type Output = Expr<'scope, SubtractExpr<isize, K>, BinaryExprAst<LiteralExprAst<isize>, Ast>>;

    fn sub(self, other: Expr<'scope, K, Ast>) -> (expr: Expr<'scope, SubtractExpr<isize, K>, BinaryExprAst<LiteralExprAst<isize>, Ast>>)
        ensures
            expr.ast.left.value == self,
            expr.ast.op == ArithmeticOp::Subtract,
            expr.ast.right == other.ast,
            expr.project_alias == Label::Static("expr"),
    {
        Expr::<isize, LiteralExprAst<isize>>::binary(
            Expr::<isize, LiteralExprAst<isize>>::lit(self).ast,
            ArithmeticOp::Subtract,
            other,
        )
    }
}

impl<'scope, K: ExprKind<Value = isize>> vstd::std_specs::ops::SubSpecImpl<ColumnRef<'scope, K>> for isize {
    open spec fn obeys_sub_spec() -> bool {
        false
    }

    open spec fn sub_req(self, other: ColumnRef<'scope, K>) -> bool {
        true
    }

    open spec fn sub_spec(self, other: ColumnRef<'scope, K>) -> Expr<'scope, SubtractExpr<isize, K>, BinaryExprAst<LiteralExprAst<isize>, ColumnExprAst<K>>> {
        arbitrary()
    }
}

impl<'scope, K: ExprKind<Value = isize>> Sub<ColumnRef<'scope, K>> for isize {
    type Output = Expr<'scope, SubtractExpr<isize, K>, BinaryExprAst<LiteralExprAst<isize>, ColumnExprAst<K>>>;

    fn sub(self, other: ColumnRef<'scope, K>) -> (expr: Expr<'scope, SubtractExpr<isize, K>, BinaryExprAst<LiteralExprAst<isize>, ColumnExprAst<K>>>)
        ensures
            expr.ast.left.value == self,
            expr.ast.op == ArithmeticOp::Subtract,
            expr.ast.right == other.ast(),
            expr.project_alias == Label::Static("expr"),
    {
        Expr::<isize, LiteralExprAst<isize>>::binary(
            Expr::<isize, LiteralExprAst<isize>>::lit(self).ast,
            ArithmeticOp::Subtract,
            other,
        )
    }
}

impl<'scope, K: ExprKind<Value = isize>, Ast: ExprAst> vstd::std_specs::ops::SubSpecImpl<&Expr<'scope, K, Ast>> for isize where HNil: HAppend<Ast::Params> {
    open spec fn obeys_sub_spec() -> bool {
        false
    }

    open spec fn sub_req(self, other: &Expr<'scope, K, Ast>) -> bool {
        true
    }

    open spec fn sub_spec(self, other: &Expr<'scope, K, Ast>) -> Expr<'scope, SubtractExpr<isize, K>, BinaryExprAst<LiteralExprAst<isize>, Ast>> {
        arbitrary()
    }
}

impl<'scope, K: ExprKind<Value = isize>, Ast: ExprAst> Sub<&Expr<'scope, K, Ast>> for isize where HNil: HAppend<Ast::Params> {
    type Output = Expr<'scope, SubtractExpr<isize, K>, BinaryExprAst<LiteralExprAst<isize>, Ast>>;

    fn sub(self, other: &Expr<'scope, K, Ast>) -> (expr: Expr<'scope, SubtractExpr<isize, K>, BinaryExprAst<LiteralExprAst<isize>, Ast>>)
        ensures
            expr.ast.left.value == self,
            expr.ast.op == ArithmeticOp::Subtract,
            expr.ast.right == other.ast,
            expr.project_alias == Label::Static("expr"),
    {
        Expr::<isize, LiteralExprAst<isize>>::binary(
            Expr::<isize, LiteralExprAst<isize>>::lit(self).ast,
            ArithmeticOp::Subtract,
            other,
        )
    }
}

impl<'scope, K: ExprKind<Value = isize>> vstd::std_specs::ops::SubSpecImpl<&ColumnRef<'scope, K>> for isize {
    open spec fn obeys_sub_spec() -> bool {
        false
    }

    open spec fn sub_req(self, other: &ColumnRef<'scope, K>) -> bool {
        true
    }

    open spec fn sub_spec(self, other: &ColumnRef<'scope, K>) -> Expr<'scope, SubtractExpr<isize, K>, BinaryExprAst<LiteralExprAst<isize>, ColumnExprAst<K>>> {
        arbitrary()
    }
}

impl<'scope, K: ExprKind<Value = isize>> Sub<&ColumnRef<'scope, K>> for isize {
    type Output = Expr<'scope, SubtractExpr<isize, K>, BinaryExprAst<LiteralExprAst<isize>, ColumnExprAst<K>>>;

    fn sub(self, other: &ColumnRef<'scope, K>) -> (expr: Expr<'scope, SubtractExpr<isize, K>, BinaryExprAst<LiteralExprAst<isize>, ColumnExprAst<K>>>)
        ensures
            expr.ast.left.value == self,
            expr.ast.op == ArithmeticOp::Subtract,
            expr.ast.right == other.ast(),
            expr.project_alias == Label::Static("expr"),
    {
        Expr::<isize, LiteralExprAst<isize>>::binary(
            Expr::<isize, LiteralExprAst<isize>>::lit(self).ast,
            ArithmeticOp::Subtract,
            other,
        )
    }
}

impl<'scope, K: ExprKind<Value = isize>, Ast: ExprAst> vstd::std_specs::ops::MulSpecImpl<Expr<'scope, K, Ast>> for isize where HNil: HAppend<Ast::Params> {
    open spec fn obeys_mul_spec() -> bool {
        false
    }

    open spec fn mul_req(self, other: Expr<'scope, K, Ast>) -> bool {
        true
    }

    open spec fn mul_spec(self, other: Expr<'scope, K, Ast>) -> Expr<'scope, MultiplyExpr<isize, K>, BinaryExprAst<LiteralExprAst<isize>, Ast>> {
        arbitrary()
    }
}

impl<'scope, K: ExprKind<Value = isize>, Ast: ExprAst> Mul<Expr<'scope, K, Ast>> for isize where HNil: HAppend<Ast::Params> {
    type Output = Expr<'scope, MultiplyExpr<isize, K>, BinaryExprAst<LiteralExprAst<isize>, Ast>>;

    fn mul(self, other: Expr<'scope, K, Ast>) -> (expr: Expr<'scope, MultiplyExpr<isize, K>, BinaryExprAst<LiteralExprAst<isize>, Ast>>)
        ensures
            expr.ast.left.value == self,
            expr.ast.op == ArithmeticOp::Multiply,
            expr.ast.right == other.ast,
            expr.project_alias == Label::Static("expr"),
    {
        Expr::<isize, LiteralExprAst<isize>>::binary(
            Expr::<isize, LiteralExprAst<isize>>::lit(self).ast,
            ArithmeticOp::Multiply,
            other,
        )
    }
}

impl<'scope, K: ExprKind<Value = isize>> vstd::std_specs::ops::MulSpecImpl<ColumnRef<'scope, K>> for isize {
    open spec fn obeys_mul_spec() -> bool {
        false
    }

    open spec fn mul_req(self, other: ColumnRef<'scope, K>) -> bool {
        true
    }

    open spec fn mul_spec(self, other: ColumnRef<'scope, K>) -> Expr<'scope, MultiplyExpr<isize, K>, BinaryExprAst<LiteralExprAst<isize>, ColumnExprAst<K>>> {
        arbitrary()
    }
}

impl<'scope, K: ExprKind<Value = isize>> Mul<ColumnRef<'scope, K>> for isize {
    type Output = Expr<'scope, MultiplyExpr<isize, K>, BinaryExprAst<LiteralExprAst<isize>, ColumnExprAst<K>>>;

    fn mul(self, other: ColumnRef<'scope, K>) -> (expr: Expr<'scope, MultiplyExpr<isize, K>, BinaryExprAst<LiteralExprAst<isize>, ColumnExprAst<K>>>)
        ensures
            expr.ast.left.value == self,
            expr.ast.op == ArithmeticOp::Multiply,
            expr.ast.right == other.ast(),
            expr.project_alias == Label::Static("expr"),
    {
        Expr::<isize, LiteralExprAst<isize>>::binary(
            Expr::<isize, LiteralExprAst<isize>>::lit(self).ast,
            ArithmeticOp::Multiply,
            other,
        )
    }
}

impl<'scope, K: ExprKind<Value = isize>, Ast: ExprAst> vstd::std_specs::ops::MulSpecImpl<&Expr<'scope, K, Ast>> for isize where HNil: HAppend<Ast::Params> {
    open spec fn obeys_mul_spec() -> bool {
        false
    }

    open spec fn mul_req(self, other: &Expr<'scope, K, Ast>) -> bool {
        true
    }

    open spec fn mul_spec(self, other: &Expr<'scope, K, Ast>) -> Expr<'scope, MultiplyExpr<isize, K>, BinaryExprAst<LiteralExprAst<isize>, Ast>> {
        arbitrary()
    }
}

impl<'scope, K: ExprKind<Value = isize>, Ast: ExprAst> Mul<&Expr<'scope, K, Ast>> for isize where HNil: HAppend<Ast::Params> {
    type Output = Expr<'scope, MultiplyExpr<isize, K>, BinaryExprAst<LiteralExprAst<isize>, Ast>>;

    fn mul(self, other: &Expr<'scope, K, Ast>) -> (expr: Expr<'scope, MultiplyExpr<isize, K>, BinaryExprAst<LiteralExprAst<isize>, Ast>>)
        ensures
            expr.ast.left.value == self,
            expr.ast.op == ArithmeticOp::Multiply,
            expr.ast.right == other.ast,
            expr.project_alias == Label::Static("expr"),
    {
        Expr::<isize, LiteralExprAst<isize>>::binary(
            Expr::<isize, LiteralExprAst<isize>>::lit(self).ast,
            ArithmeticOp::Multiply,
            other,
        )
    }
}

impl<'scope, K: ExprKind<Value = isize>> vstd::std_specs::ops::MulSpecImpl<&ColumnRef<'scope, K>> for isize {
    open spec fn obeys_mul_spec() -> bool {
        false
    }

    open spec fn mul_req(self, other: &ColumnRef<'scope, K>) -> bool {
        true
    }

    open spec fn mul_spec(self, other: &ColumnRef<'scope, K>) -> Expr<'scope, MultiplyExpr<isize, K>, BinaryExprAst<LiteralExprAst<isize>, ColumnExprAst<K>>> {
        arbitrary()
    }
}

impl<'scope, K: ExprKind<Value = isize>> Mul<&ColumnRef<'scope, K>> for isize {
    type Output = Expr<'scope, MultiplyExpr<isize, K>, BinaryExprAst<LiteralExprAst<isize>, ColumnExprAst<K>>>;

    fn mul(self, other: &ColumnRef<'scope, K>) -> (expr: Expr<'scope, MultiplyExpr<isize, K>, BinaryExprAst<LiteralExprAst<isize>, ColumnExprAst<K>>>)
        ensures
            expr.ast.left.value == self,
            expr.ast.op == ArithmeticOp::Multiply,
            expr.ast.right == other.ast(),
            expr.project_alias == Label::Static("expr"),
    {
        Expr::<isize, LiteralExprAst<isize>>::binary(
            Expr::<isize, LiteralExprAst<isize>>::lit(self).ast,
            ArithmeticOp::Multiply,
            other,
        )
    }
}

impl<'scope, K: ExprKind<Value = isize>, Ast: ExprAst> vstd::std_specs::ops::DivSpecImpl<Expr<'scope, K, Ast>> for isize where HNil: HAppend<Ast::Params> {
    open spec fn obeys_div_spec() -> bool {
        false
    }

    open spec fn div_req(self, other: Expr<'scope, K, Ast>) -> bool {
        true
    }

    open spec fn div_spec(self, other: Expr<'scope, K, Ast>) -> Expr<'scope, DivideExpr<isize, K>, BinaryExprAst<LiteralExprAst<isize>, Ast>> {
        arbitrary()
    }
}

impl<'scope, K: ExprKind<Value = isize>, Ast: ExprAst> Div<Expr<'scope, K, Ast>> for isize where HNil: HAppend<Ast::Params> {
    type Output = Expr<'scope, DivideExpr<isize, K>, BinaryExprAst<LiteralExprAst<isize>, Ast>>;

    fn div(self, other: Expr<'scope, K, Ast>) -> (expr: Expr<'scope, DivideExpr<isize, K>, BinaryExprAst<LiteralExprAst<isize>, Ast>>)
        ensures
            expr.ast.left.value == self,
            expr.ast.op == ArithmeticOp::Divide,
            expr.ast.right == other.ast,
            expr.project_alias == Label::Static("expr"),
    {
        Expr::<isize, LiteralExprAst<isize>>::binary(
            Expr::<isize, LiteralExprAst<isize>>::lit(self).ast,
            ArithmeticOp::Divide,
            other,
        )
    }
}

impl<'scope, K: ExprKind<Value = isize>> vstd::std_specs::ops::DivSpecImpl<ColumnRef<'scope, K>> for isize {
    open spec fn obeys_div_spec() -> bool {
        false
    }

    open spec fn div_req(self, other: ColumnRef<'scope, K>) -> bool {
        true
    }

    open spec fn div_spec(self, other: ColumnRef<'scope, K>) -> Expr<'scope, DivideExpr<isize, K>, BinaryExprAst<LiteralExprAst<isize>, ColumnExprAst<K>>> {
        arbitrary()
    }
}

impl<'scope, K: ExprKind<Value = isize>> Div<ColumnRef<'scope, K>> for isize {
    type Output = Expr<'scope, DivideExpr<isize, K>, BinaryExprAst<LiteralExprAst<isize>, ColumnExprAst<K>>>;

    fn div(self, other: ColumnRef<'scope, K>) -> (expr: Expr<'scope, DivideExpr<isize, K>, BinaryExprAst<LiteralExprAst<isize>, ColumnExprAst<K>>>)
        ensures
            expr.ast.left.value == self,
            expr.ast.op == ArithmeticOp::Divide,
            expr.ast.right == other.ast(),
            expr.project_alias == Label::Static("expr"),
    {
        Expr::<isize, LiteralExprAst<isize>>::binary(
            Expr::<isize, LiteralExprAst<isize>>::lit(self).ast,
            ArithmeticOp::Divide,
            other,
        )
    }
}

impl<'scope, K: ExprKind<Value = isize>, Ast: ExprAst> vstd::std_specs::ops::DivSpecImpl<&Expr<'scope, K, Ast>> for isize where HNil: HAppend<Ast::Params> {
    open spec fn obeys_div_spec() -> bool {
        false
    }

    open spec fn div_req(self, other: &Expr<'scope, K, Ast>) -> bool {
        true
    }

    open spec fn div_spec(self, other: &Expr<'scope, K, Ast>) -> Expr<'scope, DivideExpr<isize, K>, BinaryExprAst<LiteralExprAst<isize>, Ast>> {
        arbitrary()
    }
}

impl<'scope, K: ExprKind<Value = isize>, Ast: ExprAst> Div<&Expr<'scope, K, Ast>> for isize where HNil: HAppend<Ast::Params> {
    type Output = Expr<'scope, DivideExpr<isize, K>, BinaryExprAst<LiteralExprAst<isize>, Ast>>;

    fn div(self, other: &Expr<'scope, K, Ast>) -> (expr: Expr<'scope, DivideExpr<isize, K>, BinaryExprAst<LiteralExprAst<isize>, Ast>>)
        ensures
            expr.ast.left.value == self,
            expr.ast.op == ArithmeticOp::Divide,
            expr.ast.right == other.ast,
            expr.project_alias == Label::Static("expr"),
    {
        Expr::<isize, LiteralExprAst<isize>>::binary(
            Expr::<isize, LiteralExprAst<isize>>::lit(self).ast,
            ArithmeticOp::Divide,
            other,
        )
    }
}

impl<'scope, K: ExprKind<Value = isize>> vstd::std_specs::ops::DivSpecImpl<&ColumnRef<'scope, K>> for isize {
    open spec fn obeys_div_spec() -> bool {
        false
    }

    open spec fn div_req(self, other: &ColumnRef<'scope, K>) -> bool {
        true
    }

    open spec fn div_spec(self, other: &ColumnRef<'scope, K>) -> Expr<'scope, DivideExpr<isize, K>, BinaryExprAst<LiteralExprAst<isize>, ColumnExprAst<K>>> {
        arbitrary()
    }
}

impl<'scope, K: ExprKind<Value = isize>> Div<&ColumnRef<'scope, K>> for isize {
    type Output = Expr<'scope, DivideExpr<isize, K>, BinaryExprAst<LiteralExprAst<isize>, ColumnExprAst<K>>>;

    fn div(self, other: &ColumnRef<'scope, K>) -> (expr: Expr<'scope, DivideExpr<isize, K>, BinaryExprAst<LiteralExprAst<isize>, ColumnExprAst<K>>>)
        ensures
            expr.ast.left.value == self,
            expr.ast.op == ArithmeticOp::Divide,
            expr.ast.right == other.ast(),
            expr.project_alias == Label::Static("expr"),
    {
        Expr::<isize, LiteralExprAst<isize>>::binary(
            Expr::<isize, LiteralExprAst<isize>>::lit(self).ast,
            ArithmeticOp::Divide,
            other,
        )
    }
}

} // verus!
