//! Arithmetic operators on expressions and columns, and logical operators on predicates.
use crate::expr::ast::{BinaryExprAst, ColumnExprAst, ExprAst};
use crate::expr::kind::{
    AddExpr, AndPredicate, DivideExpr, ExprKind, MultiplyExpr, NotPredicate, OrPredicate,
    PredicateKind, SqlDivide, SqlNumber, SubtractExpr,
};
use crate::expr::predicate::{AndPredicateAst, NotPredicateAst, OrPredicateAst, PredicateAst};
use crate::expr::{ColumnRef, Expr, IntoExpr, Predicate};
use crate::label::{Duplicate, Label};
use crate::list::{HAppend, HNil};
use crate::ops::ArithmeticOp;
use core::marker::PhantomData;
use std::ops::{Add, BitAnd, BitOr, Div, Mul, Not, Sub};
use vstd::prelude::*;

verus! {

impl<'scope, K: ExprKind, Ast: ExprAst, R: IntoExpr<'scope>> vstd::std_specs::ops::AddSpecImpl<R> for Expr<'scope, K, Ast> where
    K::Value: SqlNumber,
    R::Kind: ExprKind<Value = K::Value>,
    Ast::Params: HAppend<<R::Ast as ExprAst>::Params>,
 {
    open spec fn obeys_add_spec() -> bool {
        false
    }

    open spec fn add_req(self, other: R) -> bool {
        true
    }

    open spec fn add_spec(self, other: R) -> Expr<'scope, AddExpr<K, R::Kind>, BinaryExprAst<Ast, R::Ast>> {
        arbitrary()
    }
}

impl<'scope, K: ExprKind, Ast: ExprAst, R: IntoExpr<'scope>> Add<R> for Expr<'scope, K, Ast> where
    K::Value: SqlNumber,
    R::Kind: ExprKind<Value = K::Value>,
    Ast::Params: HAppend<<R::Ast as ExprAst>::Params>,
 {
    type Output = Expr<'scope, AddExpr<K, R::Kind>, BinaryExprAst<Ast, R::Ast>>;

    fn add(self, other: R) -> (expr: Expr<'scope, AddExpr<K, R::Kind>, BinaryExprAst<Ast, R::Ast>>)
        ensures
            expr.ast.left == self.ast,
            expr.ast.op == ArithmeticOp::Add,
            other.gives(expr.ast.right),
            expr.project_alias == Label::Static("expr"),
    {
        Expr::<K, Ast>::binary::<AddExpr<K, R::Kind>, R>(
            self.ast,
            ArithmeticOp::Add,
            other,
        )
    }
}

impl<'scope, K: ExprKind, Ast: ExprAst, R: IntoExpr<'scope>> vstd::std_specs::ops::AddSpecImpl<R> for &Expr<'scope, K, Ast> where
    K::Value: SqlNumber,
    R::Kind: ExprKind<Value = K::Value>,
    Ast::Params: HAppend<<R::Ast as ExprAst>::Params>,
 {
    open spec fn obeys_add_spec() -> bool {
        false
    }

    open spec fn add_req(self, other: R) -> bool {
        true
    }

    open spec fn add_spec(self, other: R) -> Expr<'scope, AddExpr<K, R::Kind>, BinaryExprAst<Ast, R::Ast>> {
        arbitrary()
    }
}

impl<'scope, K: ExprKind, Ast: ExprAst, R: IntoExpr<'scope>> Add<R> for &Expr<'scope, K, Ast> where
    K::Value: SqlNumber,
    R::Kind: ExprKind<Value = K::Value>,
    Ast::Params: HAppend<<R::Ast as ExprAst>::Params>,
 {
    type Output = Expr<'scope, AddExpr<K, R::Kind>, BinaryExprAst<Ast, R::Ast>>;

    fn add(self, other: R) -> (expr: Expr<'scope, AddExpr<K, R::Kind>, BinaryExprAst<Ast, R::Ast>>)
        ensures
            expr.ast.left == self.ast,
            expr.ast.op == ArithmeticOp::Add,
            other.gives(expr.ast.right),
            expr.project_alias == Label::Static("expr"),
    {
        Expr::<K, Ast>::binary::<AddExpr<K, R::Kind>, R>(
            self.ast.duplicate(),
            ArithmeticOp::Add,
            other,
        )
    }
}

impl<'scope, K: ExprKind, R: IntoExpr<'scope>> vstd::std_specs::ops::AddSpecImpl<R> for ColumnRef<'scope, K> where
    K::Value: SqlNumber,
    R::Kind: ExprKind<Value = K::Value>,
    HNil: HAppend<<R::Ast as ExprAst>::Params>,
 {
    open spec fn obeys_add_spec() -> bool {
        false
    }

    open spec fn add_req(self, other: R) -> bool {
        true
    }

    open spec fn add_spec(self, other: R) -> Expr<'scope, AddExpr<K, R::Kind>, BinaryExprAst<ColumnExprAst<K>, R::Ast>> {
        arbitrary()
    }
}

impl<'scope, K: ExprKind, R: IntoExpr<'scope>> Add<R> for ColumnRef<'scope, K> where
    K::Value: SqlNumber,
    R::Kind: ExprKind<Value = K::Value>,
    HNil: HAppend<<R::Ast as ExprAst>::Params>,
 {
    type Output = Expr<'scope, AddExpr<K, R::Kind>, BinaryExprAst<ColumnExprAst<K>, R::Ast>>;

    fn add(self, other: R) -> (expr: Expr<'scope, AddExpr<K, R::Kind>, BinaryExprAst<ColumnExprAst<K>, R::Ast>>)
        ensures
            expr.ast.left == self.ast(),
            expr.ast.op == ArithmeticOp::Add,
            other.gives(expr.ast.right),
            expr.project_alias == Label::Static("expr"),
    {
        Expr::<K, ColumnExprAst<K>>::binary::<AddExpr<K, R::Kind>, R>(
            self.into_expr().ast,
            ArithmeticOp::Add,
            other,
        )
    }
}

impl<'scope, K: ExprKind, R: IntoExpr<'scope>> vstd::std_specs::ops::AddSpecImpl<R> for &ColumnRef<'scope, K> where
    K::Value: SqlNumber,
    R::Kind: ExprKind<Value = K::Value>,
    HNil: HAppend<<R::Ast as ExprAst>::Params>,
 {
    open spec fn obeys_add_spec() -> bool {
        false
    }

    open spec fn add_req(self, other: R) -> bool {
        true
    }

    open spec fn add_spec(self, other: R) -> Expr<'scope, AddExpr<K, R::Kind>, BinaryExprAst<ColumnExprAst<K>, R::Ast>> {
        arbitrary()
    }
}

impl<'scope, K: ExprKind, R: IntoExpr<'scope>> Add<R> for &ColumnRef<'scope, K> where
    K::Value: SqlNumber,
    R::Kind: ExprKind<Value = K::Value>,
    HNil: HAppend<<R::Ast as ExprAst>::Params>,
 {
    type Output = Expr<'scope, AddExpr<K, R::Kind>, BinaryExprAst<ColumnExprAst<K>, R::Ast>>;

    fn add(self, other: R) -> (expr: Expr<'scope, AddExpr<K, R::Kind>, BinaryExprAst<ColumnExprAst<K>, R::Ast>>)
        ensures
            expr.ast.left == self.ast(),
            expr.ast.op == ArithmeticOp::Add,
            other.gives(expr.ast.right),
            expr.project_alias == Label::Static("expr"),
    {
        Expr::<K, ColumnExprAst<K>>::binary::<AddExpr<K, R::Kind>, R>(
            (*self).into_expr().ast,
            ArithmeticOp::Add,
            other,
        )
    }
}

impl<'scope, K: ExprKind, Ast: ExprAst, R: IntoExpr<'scope>> vstd::std_specs::ops::SubSpecImpl<R> for Expr<'scope, K, Ast> where
    K::Value: SqlNumber,
    R::Kind: ExprKind<Value = K::Value>,
    Ast::Params: HAppend<<R::Ast as ExprAst>::Params>,
 {
    open spec fn obeys_sub_spec() -> bool {
        false
    }

    open spec fn sub_req(self, other: R) -> bool {
        true
    }

    open spec fn sub_spec(self, other: R) -> Expr<'scope, SubtractExpr<K, R::Kind>, BinaryExprAst<Ast, R::Ast>> {
        arbitrary()
    }
}

impl<'scope, K: ExprKind, Ast: ExprAst, R: IntoExpr<'scope>> Sub<R> for Expr<'scope, K, Ast> where
    K::Value: SqlNumber,
    R::Kind: ExprKind<Value = K::Value>,
    Ast::Params: HAppend<<R::Ast as ExprAst>::Params>,
 {
    type Output = Expr<'scope, SubtractExpr<K, R::Kind>, BinaryExprAst<Ast, R::Ast>>;

    fn sub(self, other: R) -> (expr: Expr<'scope, SubtractExpr<K, R::Kind>, BinaryExprAst<Ast, R::Ast>>)
        ensures
            expr.ast.left == self.ast,
            expr.ast.op == ArithmeticOp::Subtract,
            other.gives(expr.ast.right),
            expr.project_alias == Label::Static("expr"),
    {
        Expr::<K, Ast>::binary::<SubtractExpr<K, R::Kind>, R>(
            self.ast,
            ArithmeticOp::Subtract,
            other,
        )
    }
}

impl<'scope, K: ExprKind, Ast: ExprAst, R: IntoExpr<'scope>> vstd::std_specs::ops::SubSpecImpl<R> for &Expr<'scope, K, Ast> where
    K::Value: SqlNumber,
    R::Kind: ExprKind<Value = K::Value>,
    Ast::Params: HAppend<<R::Ast as ExprAst>::Params>,
 {
    open spec fn obeys_sub_spec() -> bool {
        false
    }

    open spec fn sub_req(self, other: R) -> bool {
        true
    }

    open spec fn sub_spec(self, other: R) -> Expr<'scope, SubtractExpr<K, R::Kind>, BinaryExprAst<Ast, R::Ast>> {
        arbitrary()
    }
}

impl<'scope, K: ExprKind, Ast: ExprAst, R: IntoExpr<'scope>> Sub<R> for &Expr<'scope, K, Ast> where
    K::Value: SqlNumber,
    R::Kind: ExprKind<Value = K::Value>,
    Ast::Params: HAppend<<R::Ast as ExprAst>::Params>,
 {
    type Output = Expr<'scope, SubtractExpr<K, R::Kind>, BinaryExprAst<Ast, R::Ast>>;

    fn sub(self, other: R) -> (expr: Expr<'scope, SubtractExpr<K, R::Kind>, BinaryExprAst<Ast, R::Ast>>)
        ensures
            expr.ast.left == self.ast,
            expr.ast.op == ArithmeticOp::Subtract,
            other.gives(expr.ast.right),
            expr.project_alias == Label::Static("expr"),
    {
        Expr::<K, Ast>::binary::<SubtractExpr<K, R::Kind>, R>(
            self.ast.duplicate(),
            ArithmeticOp::Subtract,
            other,
        )
    }
}

impl<'scope, K: ExprKind, R: IntoExpr<'scope>> vstd::std_specs::ops::SubSpecImpl<R> for ColumnRef<'scope, K> where
    K::Value: SqlNumber,
    R::Kind: ExprKind<Value = K::Value>,
    HNil: HAppend<<R::Ast as ExprAst>::Params>,
 {
    open spec fn obeys_sub_spec() -> bool {
        false
    }

    open spec fn sub_req(self, other: R) -> bool {
        true
    }

    open spec fn sub_spec(self, other: R) -> Expr<'scope, SubtractExpr<K, R::Kind>, BinaryExprAst<ColumnExprAst<K>, R::Ast>> {
        arbitrary()
    }
}

impl<'scope, K: ExprKind, R: IntoExpr<'scope>> Sub<R> for ColumnRef<'scope, K> where
    K::Value: SqlNumber,
    R::Kind: ExprKind<Value = K::Value>,
    HNil: HAppend<<R::Ast as ExprAst>::Params>,
 {
    type Output = Expr<'scope, SubtractExpr<K, R::Kind>, BinaryExprAst<ColumnExprAst<K>, R::Ast>>;

    fn sub(self, other: R) -> (expr: Expr<'scope, SubtractExpr<K, R::Kind>, BinaryExprAst<ColumnExprAst<K>, R::Ast>>)
        ensures
            expr.ast.left == self.ast(),
            expr.ast.op == ArithmeticOp::Subtract,
            other.gives(expr.ast.right),
            expr.project_alias == Label::Static("expr"),
    {
        Expr::<K, ColumnExprAst<K>>::binary::<SubtractExpr<K, R::Kind>, R>(
            self.into_expr().ast,
            ArithmeticOp::Subtract,
            other,
        )
    }
}

impl<'scope, K: ExprKind, R: IntoExpr<'scope>> vstd::std_specs::ops::SubSpecImpl<R> for &ColumnRef<'scope, K> where
    K::Value: SqlNumber,
    R::Kind: ExprKind<Value = K::Value>,
    HNil: HAppend<<R::Ast as ExprAst>::Params>,
 {
    open spec fn obeys_sub_spec() -> bool {
        false
    }

    open spec fn sub_req(self, other: R) -> bool {
        true
    }

    open spec fn sub_spec(self, other: R) -> Expr<'scope, SubtractExpr<K, R::Kind>, BinaryExprAst<ColumnExprAst<K>, R::Ast>> {
        arbitrary()
    }
}

impl<'scope, K: ExprKind, R: IntoExpr<'scope>> Sub<R> for &ColumnRef<'scope, K> where
    K::Value: SqlNumber,
    R::Kind: ExprKind<Value = K::Value>,
    HNil: HAppend<<R::Ast as ExprAst>::Params>,
 {
    type Output = Expr<'scope, SubtractExpr<K, R::Kind>, BinaryExprAst<ColumnExprAst<K>, R::Ast>>;

    fn sub(self, other: R) -> (expr: Expr<'scope, SubtractExpr<K, R::Kind>, BinaryExprAst<ColumnExprAst<K>, R::Ast>>)
        ensures
            expr.ast.left == self.ast(),
            expr.ast.op == ArithmeticOp::Subtract,
            other.gives(expr.ast.right),
            expr.project_alias == Label::Static("expr"),
    {
        Expr::<K, ColumnExprAst<K>>::binary::<SubtractExpr<K, R::Kind>, R>(
            (*self).into_expr().ast,
            ArithmeticOp::Subtract,
            other,
        )
    }
}

impl<'scope, K: ExprKind, Ast: ExprAst, R: IntoExpr<'scope>> vstd::std_specs::ops::MulSpecImpl<R> for Expr<'scope, K, Ast> where
    K::Value: SqlNumber,
    R::Kind: ExprKind<Value = K::Value>,
    Ast::Params: HAppend<<R::Ast as ExprAst>::Params>,
 {
    open spec fn obeys_mul_spec() -> bool {
        false
    }

    open spec fn mul_req(self, other: R) -> bool {
        true
    }

    open spec fn mul_spec(self, other: R) -> Expr<'scope, MultiplyExpr<K, R::Kind>, BinaryExprAst<Ast, R::Ast>> {
        arbitrary()
    }
}

impl<'scope, K: ExprKind, Ast: ExprAst, R: IntoExpr<'scope>> Mul<R> for Expr<'scope, K, Ast> where
    K::Value: SqlNumber,
    R::Kind: ExprKind<Value = K::Value>,
    Ast::Params: HAppend<<R::Ast as ExprAst>::Params>,
 {
    type Output = Expr<'scope, MultiplyExpr<K, R::Kind>, BinaryExprAst<Ast, R::Ast>>;

    fn mul(self, other: R) -> (expr: Expr<'scope, MultiplyExpr<K, R::Kind>, BinaryExprAst<Ast, R::Ast>>)
        ensures
            expr.ast.left == self.ast,
            expr.ast.op == ArithmeticOp::Multiply,
            other.gives(expr.ast.right),
            expr.project_alias == Label::Static("expr"),
    {
        Expr::<K, Ast>::binary::<MultiplyExpr<K, R::Kind>, R>(
            self.ast,
            ArithmeticOp::Multiply,
            other,
        )
    }
}

impl<'scope, K: ExprKind, Ast: ExprAst, R: IntoExpr<'scope>> vstd::std_specs::ops::MulSpecImpl<R> for &Expr<'scope, K, Ast> where
    K::Value: SqlNumber,
    R::Kind: ExprKind<Value = K::Value>,
    Ast::Params: HAppend<<R::Ast as ExprAst>::Params>,
 {
    open spec fn obeys_mul_spec() -> bool {
        false
    }

    open spec fn mul_req(self, other: R) -> bool {
        true
    }

    open spec fn mul_spec(self, other: R) -> Expr<'scope, MultiplyExpr<K, R::Kind>, BinaryExprAst<Ast, R::Ast>> {
        arbitrary()
    }
}

impl<'scope, K: ExprKind, Ast: ExprAst, R: IntoExpr<'scope>> Mul<R> for &Expr<'scope, K, Ast> where
    K::Value: SqlNumber,
    R::Kind: ExprKind<Value = K::Value>,
    Ast::Params: HAppend<<R::Ast as ExprAst>::Params>,
 {
    type Output = Expr<'scope, MultiplyExpr<K, R::Kind>, BinaryExprAst<Ast, R::Ast>>;

    fn mul(self, other: R) -> (expr: Expr<'scope, MultiplyExpr<K, R::Kind>, BinaryExprAst<Ast, R::Ast>>)
        ensures
            expr.ast.left == self.ast,
            expr.ast.op == ArithmeticOp::Multiply,
            other.gives(expr.ast.right),
            expr.project_alias == Label::Static("expr"),
    {
        Expr::<K, Ast>::binary::<MultiplyExpr<K, R::Kind>, R>(
            self.ast.duplicate(),
            ArithmeticOp::Multiply,
            other,
        )
    }
}

impl<'scope, K: ExprKind, R: IntoExpr<'scope>> vstd::std_specs::ops::MulSpecImpl<R> for ColumnRef<'scope, K> where
    K::Value: SqlNumber,
    R::Kind: ExprKind<Value = K::Value>,
    HNil: HAppend<<R::Ast as ExprAst>::Params>,
 {
    open spec fn obeys_mul_spec() -> bool {
        false
    }

    open spec fn mul_req(self, other: R) -> bool {
        true
    }

    open spec fn mul_spec(self, other: R) -> Expr<'scope, MultiplyExpr<K, R::Kind>, BinaryExprAst<ColumnExprAst<K>, R::Ast>> {
        arbitrary()
    }
}

impl<'scope, K: ExprKind, R: IntoExpr<'scope>> Mul<R> for ColumnRef<'scope, K> where
    K::Value: SqlNumber,
    R::Kind: ExprKind<Value = K::Value>,
    HNil: HAppend<<R::Ast as ExprAst>::Params>,
 {
    type Output = Expr<'scope, MultiplyExpr<K, R::Kind>, BinaryExprAst<ColumnExprAst<K>, R::Ast>>;

    fn mul(self, other: R) -> (expr: Expr<'scope, MultiplyExpr<K, R::Kind>, BinaryExprAst<ColumnExprAst<K>, R::Ast>>)
        ensures
            expr.ast.left == self.ast(),
            expr.ast.op == ArithmeticOp::Multiply,
            other.gives(expr.ast.right),
            expr.project_alias == Label::Static("expr"),
    {
        Expr::<K, ColumnExprAst<K>>::binary::<MultiplyExpr<K, R::Kind>, R>(
            self.into_expr().ast,
            ArithmeticOp::Multiply,
            other,
        )
    }
}

impl<'scope, K: ExprKind, R: IntoExpr<'scope>> vstd::std_specs::ops::MulSpecImpl<R> for &ColumnRef<'scope, K> where
    K::Value: SqlNumber,
    R::Kind: ExprKind<Value = K::Value>,
    HNil: HAppend<<R::Ast as ExprAst>::Params>,
 {
    open spec fn obeys_mul_spec() -> bool {
        false
    }

    open spec fn mul_req(self, other: R) -> bool {
        true
    }

    open spec fn mul_spec(self, other: R) -> Expr<'scope, MultiplyExpr<K, R::Kind>, BinaryExprAst<ColumnExprAst<K>, R::Ast>> {
        arbitrary()
    }
}

impl<'scope, K: ExprKind, R: IntoExpr<'scope>> Mul<R> for &ColumnRef<'scope, K> where
    K::Value: SqlNumber,
    R::Kind: ExprKind<Value = K::Value>,
    HNil: HAppend<<R::Ast as ExprAst>::Params>,
 {
    type Output = Expr<'scope, MultiplyExpr<K, R::Kind>, BinaryExprAst<ColumnExprAst<K>, R::Ast>>;

    fn mul(self, other: R) -> (expr: Expr<'scope, MultiplyExpr<K, R::Kind>, BinaryExprAst<ColumnExprAst<K>, R::Ast>>)
        ensures
            expr.ast.left == self.ast(),
            expr.ast.op == ArithmeticOp::Multiply,
            other.gives(expr.ast.right),
            expr.project_alias == Label::Static("expr"),
    {
        Expr::<K, ColumnExprAst<K>>::binary::<MultiplyExpr<K, R::Kind>, R>(
            (*self).into_expr().ast,
            ArithmeticOp::Multiply,
            other,
        )
    }
}

impl<'scope, K: ExprKind, Ast: ExprAst, R: IntoExpr<'scope>> vstd::std_specs::ops::DivSpecImpl<R> for Expr<'scope, K, Ast> where
    K::Value: SqlDivide,
    R::Kind: ExprKind<Value = K::Value>,
    Ast::Params: HAppend<<R::Ast as ExprAst>::Params>,
 {
    open spec fn obeys_div_spec() -> bool {
        false
    }

    open spec fn div_req(self, other: R) -> bool {
        true
    }

    open spec fn div_spec(self, other: R) -> Expr<'scope, DivideExpr<K, R::Kind>, BinaryExprAst<Ast, R::Ast>> {
        arbitrary()
    }
}

impl<'scope, K: ExprKind, Ast: ExprAst, R: IntoExpr<'scope>> Div<R> for Expr<'scope, K, Ast> where
    K::Value: SqlDivide,
    R::Kind: ExprKind<Value = K::Value>,
    Ast::Params: HAppend<<R::Ast as ExprAst>::Params>,
 {
    type Output = Expr<'scope, DivideExpr<K, R::Kind>, BinaryExprAst<Ast, R::Ast>>;

    fn div(self, other: R) -> (expr: Expr<'scope, DivideExpr<K, R::Kind>, BinaryExprAst<Ast, R::Ast>>)
        ensures
            expr.ast.left == self.ast,
            expr.ast.op == ArithmeticOp::Divide,
            other.gives(expr.ast.right),
            expr.project_alias == Label::Static("expr"),
    {
        Expr::<K, Ast>::binary::<DivideExpr<K, R::Kind>, R>(
            self.ast,
            ArithmeticOp::Divide,
            other,
        )
    }
}

impl<'scope, K: ExprKind, Ast: ExprAst, R: IntoExpr<'scope>> vstd::std_specs::ops::DivSpecImpl<R> for &Expr<'scope, K, Ast> where
    K::Value: SqlDivide,
    R::Kind: ExprKind<Value = K::Value>,
    Ast::Params: HAppend<<R::Ast as ExprAst>::Params>,
 {
    open spec fn obeys_div_spec() -> bool {
        false
    }

    open spec fn div_req(self, other: R) -> bool {
        true
    }

    open spec fn div_spec(self, other: R) -> Expr<'scope, DivideExpr<K, R::Kind>, BinaryExprAst<Ast, R::Ast>> {
        arbitrary()
    }
}

impl<'scope, K: ExprKind, Ast: ExprAst, R: IntoExpr<'scope>> Div<R> for &Expr<'scope, K, Ast> where
    K::Value: SqlDivide,
    R::Kind: ExprKind<Value = K::Value>,
    Ast::Params: HAppend<<R::Ast as ExprAst>::Params>,
 {
    type Output = Expr<'scope, DivideExpr<K, R::Kind>, BinaryExprAst<Ast, R::Ast>>;

    fn div(self, other: R) -> (expr: Expr<'scope, DivideExpr<K, R::Kind>, BinaryExprAst<Ast, R::Ast>>)
        ensures
            expr.ast.left == self.ast,
            expr.ast.op == ArithmeticOp::Divide,
            other.gives(expr.ast.right),
            expr.project_alias == Label::Static("expr"),
    {
        Expr::<K, Ast>::binary::<DivideExpr<K, R::Kind>, R>(
            self.ast.duplicate(),
            ArithmeticOp::Divide,
            other,
        )
    }
}

impl<'scope, K: ExprKind, R: IntoExpr<'scope>> vstd::std_specs::ops::DivSpecImpl<R> for ColumnRef<'scope, K> where
    K::Value: SqlDivide,
    R::Kind: ExprKind<Value = K::Value>,
    HNil: HAppend<<R::Ast as ExprAst>::Params>,
 {
    open spec fn obeys_div_spec() -> bool {
        false
    }

    open spec fn div_req(self, other: R) -> bool {
        true
    }

    open spec fn div_spec(self, other: R) -> Expr<'scope, DivideExpr<K, R::Kind>, BinaryExprAst<ColumnExprAst<K>, R::Ast>> {
        arbitrary()
    }
}

impl<'scope, K: ExprKind, R: IntoExpr<'scope>> Div<R> for ColumnRef<'scope, K> where
    K::Value: SqlDivide,
    R::Kind: ExprKind<Value = K::Value>,
    HNil: HAppend<<R::Ast as ExprAst>::Params>,
 {
    type Output = Expr<'scope, DivideExpr<K, R::Kind>, BinaryExprAst<ColumnExprAst<K>, R::Ast>>;

    fn div(self, other: R) -> (expr: Expr<'scope, DivideExpr<K, R::Kind>, BinaryExprAst<ColumnExprAst<K>, R::Ast>>)
        ensures
            expr.ast.left == self.ast(),
            expr.ast.op == ArithmeticOp::Divide,
            other.gives(expr.ast.right),
            expr.project_alias == Label::Static("expr"),
    {
        Expr::<K, ColumnExprAst<K>>::binary::<DivideExpr<K, R::Kind>, R>(
            self.into_expr().ast,
            ArithmeticOp::Divide,
            other,
        )
    }
}

impl<'scope, K: ExprKind, R: IntoExpr<'scope>> vstd::std_specs::ops::DivSpecImpl<R> for &ColumnRef<'scope, K> where
    K::Value: SqlDivide,
    R::Kind: ExprKind<Value = K::Value>,
    HNil: HAppend<<R::Ast as ExprAst>::Params>,
 {
    open spec fn obeys_div_spec() -> bool {
        false
    }

    open spec fn div_req(self, other: R) -> bool {
        true
    }

    open spec fn div_spec(self, other: R) -> Expr<'scope, DivideExpr<K, R::Kind>, BinaryExprAst<ColumnExprAst<K>, R::Ast>> {
        arbitrary()
    }
}

impl<'scope, K: ExprKind, R: IntoExpr<'scope>> Div<R> for &ColumnRef<'scope, K> where
    K::Value: SqlDivide,
    R::Kind: ExprKind<Value = K::Value>,
    HNil: HAppend<<R::Ast as ExprAst>::Params>,
 {
    type Output = Expr<'scope, DivideExpr<K, R::Kind>, BinaryExprAst<ColumnExprAst<K>, R::Ast>>;

    fn div(self, other: R) -> (expr: Expr<'scope, DivideExpr<K, R::Kind>, BinaryExprAst<ColumnExprAst<K>, R::Ast>>)
        ensures
            expr.ast.left == self.ast(),
            expr.ast.op == ArithmeticOp::Divide,
            other.gives(expr.ast.right),
            expr.project_alias == Label::Static("expr"),
    {
        Expr::<K, ColumnExprAst<K>>::binary::<DivideExpr<K, R::Kind>, R>(
            (*self).into_expr().ast,
            ArithmeticOp::Divide,
            other,
        )
    }
}

impl<'scope, L: PredicateKind, LeftAst: PredicateAst, R: PredicateKind, RightAst: PredicateAst> vstd::std_specs::ops::BitAndSpecImpl<Predicate<'scope, R, RightAst>> for Predicate<'scope, L, LeftAst> where
    LeftAst::Params: HAppend<RightAst::Params>,
 {
    open spec fn obeys_bitand_spec() -> bool {
        true
    }

    open spec fn bitand_req(self, rhs: Predicate<'scope, R, RightAst>) -> bool {
        true
    }

    open spec fn bitand_spec(self, rhs: Predicate<'scope, R, RightAst>) -> Predicate<'scope, AndPredicate<L, R>, AndPredicateAst<LeftAst, RightAst>> {
        Predicate {
            ast: AndPredicateAst { left: self.ast, right: rhs.ast },
            _phantom: PhantomData,
        }
    }
}

impl<'scope, L: PredicateKind, LeftAst: PredicateAst, R: PredicateKind, RightAst: PredicateAst> BitAnd<Predicate<'scope, R, RightAst>> for Predicate<'scope, L, LeftAst> where
    LeftAst::Params: HAppend<RightAst::Params>,
 {
    type Output = Predicate<'scope, AndPredicate<L, R>, AndPredicateAst<LeftAst, RightAst>>;

    fn bitand(self, rhs: Predicate<'scope, R, RightAst>) -> (predicate: Predicate<'scope, AndPredicate<L, R>, AndPredicateAst<LeftAst, RightAst>>) {
        Predicate {
            ast: AndPredicateAst { left: self.ast, right: rhs.ast },
            _phantom: PhantomData,
        }
    }
}

impl<'scope, 'other, L: PredicateKind, LeftAst: PredicateAst, R: PredicateKind, RightAst: PredicateAst> vstd::std_specs::ops::BitAndSpecImpl<&Predicate<'other, R, RightAst>> for Predicate<'scope, L, LeftAst> where
    LeftAst::Params: HAppend<RightAst::Params>,
 {
    open spec fn obeys_bitand_spec() -> bool {
        true
    }

    open spec fn bitand_req(self, rhs: &Predicate<'other, R, RightAst>) -> bool {
        true
    }

    open spec fn bitand_spec(self, rhs: &Predicate<'other, R, RightAst>) -> Predicate<'scope, AndPredicate<L, R>, AndPredicateAst<LeftAst, RightAst>> {
        Predicate {
            ast: AndPredicateAst { left: self.ast, right: rhs.ast },
            _phantom: PhantomData,
        }
    }
}

impl<'scope, 'other, L: PredicateKind, LeftAst: PredicateAst, R: PredicateKind, RightAst: PredicateAst> BitAnd<&Predicate<'other, R, RightAst>> for Predicate<'scope, L, LeftAst> where
    LeftAst::Params: HAppend<RightAst::Params>,
 {
    type Output = Predicate<'scope, AndPredicate<L, R>, AndPredicateAst<LeftAst, RightAst>>;

    fn bitand(self, rhs: &Predicate<'other, R, RightAst>) -> (predicate: Predicate<'scope, AndPredicate<L, R>, AndPredicateAst<LeftAst, RightAst>>) {
        Predicate {
            ast: AndPredicateAst { left: self.ast, right: rhs.ast.duplicate() },
            _phantom: PhantomData,
        }
    }
}

impl<'scope, 'other, L: PredicateKind, LeftAst: PredicateAst, R: PredicateKind, RightAst: PredicateAst> vstd::std_specs::ops::BitAndSpecImpl<Predicate<'scope, R, RightAst>> for &Predicate<'other, L, LeftAst> where
    LeftAst::Params: HAppend<RightAst::Params>,
 {
    open spec fn obeys_bitand_spec() -> bool {
        true
    }

    open spec fn bitand_req(self, rhs: Predicate<'scope, R, RightAst>) -> bool {
        true
    }

    open spec fn bitand_spec(self, rhs: Predicate<'scope, R, RightAst>) -> Predicate<'scope, AndPredicate<L, R>, AndPredicateAst<LeftAst, RightAst>> {
        Predicate {
            ast: AndPredicateAst { left: self.ast, right: rhs.ast },
            _phantom: PhantomData,
        }
    }
}

impl<'scope, 'other, L: PredicateKind, LeftAst: PredicateAst, R: PredicateKind, RightAst: PredicateAst> BitAnd<Predicate<'scope, R, RightAst>> for &Predicate<'other, L, LeftAst> where
    LeftAst::Params: HAppend<RightAst::Params>,
 {
    type Output = Predicate<'scope, AndPredicate<L, R>, AndPredicateAst<LeftAst, RightAst>>;

    fn bitand(self, rhs: Predicate<'scope, R, RightAst>) -> (predicate: Predicate<'scope, AndPredicate<L, R>, AndPredicateAst<LeftAst, RightAst>>) {
        Predicate {
            ast: AndPredicateAst { left: self.ast.duplicate(), right: rhs.ast },
            _phantom: PhantomData,
        }
    }
}

impl<'scope, L: PredicateKind, LeftAst: PredicateAst, R: PredicateKind, RightAst: PredicateAst> vstd::std_specs::ops::BitOrSpecImpl<Predicate<'scope, R, RightAst>> for Predicate<'scope, L, LeftAst> where
    LeftAst::Params: HAppend<RightAst::Params>,
 {
    open spec fn obeys_bitor_spec() -> bool {
        true
    }

    open spec fn bitor_req(self, rhs: Predicate<'scope, R, RightAst>) -> bool {
        true
    }

    open spec fn bitor_spec(self, rhs: Predicate<'scope, R, RightAst>) -> Predicate<'scope, OrPredicate<L, R>, OrPredicateAst<LeftAst, RightAst>> {
        Predicate {
            ast: OrPredicateAst { left: self.ast, right: rhs.ast },
            _phantom: PhantomData,
        }
    }
}

impl<'scope, L: PredicateKind, LeftAst: PredicateAst, R: PredicateKind, RightAst: PredicateAst> BitOr<Predicate<'scope, R, RightAst>> for Predicate<'scope, L, LeftAst> where
    LeftAst::Params: HAppend<RightAst::Params>,
 {
    type Output = Predicate<'scope, OrPredicate<L, R>, OrPredicateAst<LeftAst, RightAst>>;

    fn bitor(self, rhs: Predicate<'scope, R, RightAst>) -> (predicate: Predicate<'scope, OrPredicate<L, R>, OrPredicateAst<LeftAst, RightAst>>) {
        Predicate {
            ast: OrPredicateAst { left: self.ast, right: rhs.ast },
            _phantom: PhantomData,
        }
    }
}

impl<'scope, 'other, L: PredicateKind, LeftAst: PredicateAst, R: PredicateKind, RightAst: PredicateAst> vstd::std_specs::ops::BitOrSpecImpl<&Predicate<'other, R, RightAst>> for Predicate<'scope, L, LeftAst> where
    LeftAst::Params: HAppend<RightAst::Params>,
 {
    open spec fn obeys_bitor_spec() -> bool {
        true
    }

    open spec fn bitor_req(self, rhs: &Predicate<'other, R, RightAst>) -> bool {
        true
    }

    open spec fn bitor_spec(self, rhs: &Predicate<'other, R, RightAst>) -> Predicate<'scope, OrPredicate<L, R>, OrPredicateAst<LeftAst, RightAst>> {
        Predicate {
            ast: OrPredicateAst { left: self.ast, right: rhs.ast },
            _phantom: PhantomData,
        }
    }
}

impl<'scope, 'other, L: PredicateKind, LeftAst: PredicateAst, R: PredicateKind, RightAst: PredicateAst> BitOr<&Predicate<'other, R, RightAst>> for Predicate<'scope, L, LeftAst> where
    LeftAst::Params: HAppend<RightAst::Params>,
 {
    type Output = Predicate<'scope, OrPredicate<L, R>, OrPredicateAst<LeftAst, RightAst>>;

    fn bitor(self, rhs: &Predicate<'other, R, RightAst>) -> (predicate: Predicate<'scope, OrPredicate<L, R>, OrPredicateAst<LeftAst, RightAst>>) {
        Predicate {
            ast: OrPredicateAst { left: self.ast, right: rhs.ast.duplicate() },
            _phantom: PhantomData,
        }
    }
}

impl<'scope, 'other, L: PredicateKind, LeftAst: PredicateAst, R: PredicateKind, RightAst: PredicateAst> vstd::std_specs::ops::BitOrSpecImpl<Predicate<'scope, R, RightAst>> for &Predicate<'other, L, LeftAst> where
    LeftAst::Params: HAppend<RightAst::Params>,
 {
    open spec fn obeys_bitor_spec() -> bool {
        true
    }

    open spec fn bitor_req(self, rhs: Predicate<'scope, R, RightAst>) -> bool {
        true
    }

    open spec fn bitor_spec(self, rhs: Predicate<'scope, R, RightAst>) -> Predicate<'scope, OrPredicate<L, R>, OrPredicateAst<LeftAst, RightAst>> {
        Predicate {
            ast: OrPredicateAst { left: self.ast, right: rhs.ast },
            _phantom: PhantomData,
        }
    }
}

impl<'scope, 'other, L: PredicateKind, LeftAst: PredicateAst, R: PredicateKind, RightAst: PredicateAst> BitOr<Predicate<'scope, R, RightAst>> for &Predicate<'other, L, LeftAst> where
    LeftAst::Params: HAppend<RightAst::Params>,
 {
    type Output = Predicate<'scope, OrPredicate<L, R>, OrPredicateAst<LeftAst, RightAst>>;

    fn bitor(self, rhs: Predicate<'scope, R, RightAst>) -> (predicate: Predicate<'scope, OrPredicate<L, R>, OrPredicateAst<LeftAst, RightAst>>) {
        Predicate {
            ast: OrPredicateAst { left: self.ast.duplicate(), right: rhs.ast },
            _phantom: PhantomData,
        }
    }
}

impl<'scope, K: PredicateKind, Ast: PredicateAst> vstd::std_specs::ops::NotSpecImpl for Predicate<'scope, K, Ast> {
    open spec fn obeys_not_spec() -> bool {
        true
    }

    open spec fn not_req(self) -> bool {
        true
    }

    open spec fn not_spec(self) -> Predicate<'scope, NotPredicate<K>, NotPredicateAst<Ast>> {
        Predicate { ast: NotPredicateAst { predicate: self.ast }, _phantom: PhantomData }
    }
}

impl<'scope, K: PredicateKind, Ast: PredicateAst> Not for Predicate<'scope, K, Ast> {
    type Output = Predicate<'scope, NotPredicate<K>, NotPredicateAst<Ast>>;

    fn not(self) -> (predicate: Predicate<'scope, NotPredicate<K>, NotPredicateAst<Ast>>) {
        Predicate { ast: NotPredicateAst { predicate: self.ast }, _phantom: PhantomData }
    }
}

impl<'scope, K: PredicateKind, Ast: PredicateAst> vstd::std_specs::ops::NotSpecImpl for &Predicate<'scope, K, Ast> {
    open spec fn obeys_not_spec() -> bool {
        true
    }

    open spec fn not_req(self) -> bool {
        true
    }

    open spec fn not_spec(self) -> Predicate<'scope, NotPredicate<K>, NotPredicateAst<Ast>> {
        Predicate { ast: NotPredicateAst { predicate: self.ast }, _phantom: PhantomData }
    }
}

impl<'scope, K: PredicateKind, Ast: PredicateAst> Not for &Predicate<'scope, K, Ast> {
    type Output = Predicate<'scope, NotPredicate<K>, NotPredicateAst<Ast>>;

    fn not(self) -> (predicate: Predicate<'scope, NotPredicate<K>, NotPredicateAst<Ast>>) {
        Predicate { ast: NotPredicateAst { predicate: self.ast.duplicate() }, _phantom: PhantomData }
    }
}

} // verus!
