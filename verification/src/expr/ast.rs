//! Expression nodes, and how they lower into expression trees.
use crate::backend::{Backend, Bound, Encode};
use crate::dialect::Dialect;
use crate::expr::kind::ExprKind;
use crate::grammar;
use crate::plain;
use crate::label::{Duplicate, Label};
use crate::list::{HAppend, HCons, HList, HNil};
use crate::ops::{AggregateFunc, ArithmeticOp, SourceAlias};
use crate::sql_type::SqlType;
use crate::tokens;
use crate::tokens::Token;
use crate::tree::{Encoded, ExprTree, SelectTree};
use core::marker::PhantomData;
use vstd::prelude::*;

verus! {

broadcast use crate::tokens::group_tokens;

/// An expression node with the shape of its runtime parameters.
pub trait ExprAst: Duplicate {
    type Params: HList;
}

/// How an expression node lowers for a backend.
pub trait RenderAst<B: Backend>: ExprAst {
    /// The expression that this node is.
    spec fn tree(&self) -> ExprTree<Bound<B>>;

    fn lower(&self) -> (tree: ExprTree<Bound<B>>)
        ensures
            tree == self.tree(),
    ;

    /// The parameter shape has one entry for each runtime parameter that is written.
    proof fn lemma_params<D: Dialect>(&self, dialect: D, bare: bool)
        ensures
            tokens::runtimes(grammar::expr_tokens(dialect, bare, self.tree()))
                == <Self::Params as HList>::width(),
    ;

    /// Without entries in the parameter shape there is no runtime parameter.
    proof fn lemma_plain(&self)
        requires
            <Self::Params as HList>::width() == 0,
        ensures
            plain::plain_expr(self.tree()),
    ;
}

/// A query that can stand inside an expression, with the shape of its runtime parameters.
pub trait Subquery: Duplicate {
    type Params: HList;
}

/// How a subquery lowers for a backend.
pub trait RenderSubquery<B: Backend>: Subquery {
    /// The `SELECT` that this subquery is.
    spec fn select_tree(&self) -> SelectTree<Bound<B>>;

    fn lower_select(&self) -> (select: SelectTree<Bound<B>>)
        ensures
            select == self.select_tree(),
    ;

    /// The parameter shape has one entry for each runtime parameter that is written.
    proof fn lemma_select_params<D: Dialect>(&self, dialect: D)
        ensures
            tokens::runtimes(grammar::select_tokens(dialect, self.select_tree()))
                == <Self::Params as HList>::width(),
    ;

    /// Without entries in the parameter shape there is no runtime parameter.
    proof fn lemma_select_plain(&self)
        requires
            <Self::Params as HList>::width() == 0,
        ensures
            plain::plain_select(self.select_tree()),
    ;
}

/// A subquery of one column, which can stand for a value.
pub trait ScalarSubquery: Subquery {
    type OutputKind: ExprKind;
}

/// A column of a source.
pub struct ColumnExprAst<K> {
    pub alias: SourceAlias,
    pub column: Label,
    pub _kind: PhantomData<K>,
}

/// A literal, bound where it stands.
pub struct LiteralExprAst<K: ExprKind> {
    pub value: K::Value,
    pub _kind: PhantomData<K>,
}

/// A runtime parameter of a prepared statement.
pub struct ParamExprAst<K> {
    pub _kind: PhantomData<K>,
}

/// An arithmetic operation.
pub struct BinaryExprAst<Left, Right> {
    pub left: Left,
    pub op: ArithmeticOp,
    pub right: Right,
}

/// An aggregate function call, cast to `cast` so that the database's result type matches the value
/// type of the expression.
pub struct AggregateExprAst<Operand, const DISTINCT: bool> {
    pub func: AggregateFunc,
    pub cast: Option<SqlType>,
    pub operand: Operand,
}

/// A subquery used as a value.
pub struct ScalarSubqueryExprAst<Sub> {
    pub subquery: Sub,
}

impl<K> Duplicate for ColumnExprAst<K> {
    fn duplicate(&self) -> (copy: Self) {
        ColumnExprAst { alias: self.alias, column: self.column.duplicate(), _kind: PhantomData }
    }
}

impl<K: ExprKind> Duplicate for LiteralExprAst<K> where K::Value: Duplicate {
    fn duplicate(&self) -> (copy: Self) {
        LiteralExprAst { value: self.value.duplicate(), _kind: PhantomData }
    }
}

impl<K> Duplicate for ParamExprAst<K> {
    fn duplicate(&self) -> (copy: Self) {
        ParamExprAst { _kind: PhantomData }
    }
}

impl<Left: Duplicate, Right: Duplicate> Duplicate for BinaryExprAst<Left, Right> {
    fn duplicate(&self) -> (copy: Self) {
        BinaryExprAst { left: self.left.duplicate(), op: self.op, right: self.right.duplicate() }
    }
}

impl<Operand: Duplicate, const DISTINCT: bool> Duplicate for AggregateExprAst<Operand, DISTINCT> {
    fn duplicate(&self) -> (copy: Self) {
        AggregateExprAst {
            func: self.func,
            cast: self.cast.duplicate(),
            operand: self.operand.duplicate(),
        }
    }
}

impl<Sub: Duplicate> Duplicate for ScalarSubqueryExprAst<Sub> {
    fn duplicate(&self) -> (copy: Self) {
        ScalarSubqueryExprAst { subquery: self.subquery.duplicate() }
    }
}

impl<K> ExprAst for ColumnExprAst<K> {
    type Params = HNil;
}

impl<K, B: Backend> RenderAst<B> for ColumnExprAst<K> {
    open spec fn tree(&self) -> ExprTree<Bound<B>> {
        ExprTree::Column { alias: self.alias, column: self.column }
    }

    fn lower(&self) -> (tree: ExprTree<Bound<B>>) {
        ExprTree::Column { alias: self.alias, column: self.column.duplicate() }
    }

    proof fn lemma_params<D: Dialect>(&self, dialect: D, bare: bool) {
    }

    proof fn lemma_plain(&self) {
    }
}

impl<K: ExprKind> ExprAst for LiteralExprAst<K> where K::Value: Duplicate {
    type Params = HNil;
}

impl<K: ExprKind, B: Backend> RenderAst<B> for LiteralExprAst<K> where
    K::Value: Duplicate + Encode<B>,
 {
    open spec fn tree(&self) -> ExprTree<Bound<B>> {
        ExprTree::Literal(Encoded { outcome: self.value.encoded() })
    }

    fn lower(&self) -> (tree: ExprTree<Bound<B>>) {
        ExprTree::Literal(Encoded { outcome: self.value.encode() })
    }

    proof fn lemma_params<D: Dialect>(&self, dialect: D, bare: bool) {
        reveal_with_fuel(tokens::runtimes, 2);
    }

    proof fn lemma_plain(&self) {
    }
}

impl<K: ExprKind> ExprAst for ParamExprAst<K> {
    type Params = HCons<K::Value, HNil>;
}

impl<K: ExprKind, B: Backend> RenderAst<B> for ParamExprAst<K> {
    open spec fn tree(&self) -> ExprTree<Bound<B>> {
        ExprTree::Param
    }

    fn lower(&self) -> (tree: ExprTree<Bound<B>>) {
        ExprTree::Param
    }

    proof fn lemma_params<D: Dialect>(&self, dialect: D, bare: bool) {
        let slot = seq![Token::<Bound<B>>::Runtime];
        assert(slot.drop_last() =~= Seq::empty());
        reveal_with_fuel(tokens::runtimes, 2);
        assert(tokens::runtimes(slot) == 1);
        assert(<HNil as HList>::width() == 0);
        assert(<HCons<K::Value, HNil> as HList>::width() == 1);
    }

    proof fn lemma_plain(&self) {
        assert(<HNil as HList>::width() == 0);
        assert(<HCons<K::Value, HNil> as HList>::width() == 1);
    }
}

impl<Left: ExprAst, Right: ExprAst> ExprAst for BinaryExprAst<Left, Right> where
    Left::Params: HAppend<Right::Params>,
 {
    type Params = <Left::Params as HAppend<Right::Params>>::Output;
}

impl<Left: RenderAst<B>, Right: RenderAst<B>, B: Backend> RenderAst<B> for BinaryExprAst<
    Left,
    Right,
> where Left::Params: HAppend<Right::Params> {
    open spec fn tree(&self) -> ExprTree<Bound<B>> {
        ExprTree::Binary {
            op: self.op,
            left: Box::new(self.left.tree()),
            right: Box::new(self.right.tree()),
        }
    }

    fn lower(&self) -> (tree: ExprTree<Bound<B>>) {
        ExprTree::Binary {
            op: self.op,
            left: Box::new(self.left.lower()),
            right: Box::new(self.right.lower()),
        }
    }

    proof fn lemma_params<D: Dialect>(&self, dialect: D, bare: bool) {
        self.left.lemma_params(dialect, bare);
        self.right.lemma_params(dialect, bare);
        <Left::Params as HAppend<Right::Params>>::lemma_append_width();
    }

    proof fn lemma_plain(&self) {
        <Left::Params as HAppend<Right::Params>>::lemma_append_width();
        self.left.lemma_plain();
        self.right.lemma_plain();
    }
}

impl<Operand: ExprAst, const DISTINCT: bool> ExprAst for AggregateExprAst<Operand, DISTINCT> {
    type Params = Operand::Params;
}

impl<Operand: RenderAst<B>, B: Backend, const DISTINCT: bool> RenderAst<B> for AggregateExprAst<
    Operand,
    DISTINCT,
> {
    open spec fn tree(&self) -> ExprTree<Bound<B>> {
        ExprTree::Aggregate {
            func: self.func,
            distinct: DISTINCT,
            cast: self.cast,
            operand: Box::new(self.operand.tree()),
        }
    }

    fn lower(&self) -> (tree: ExprTree<Bound<B>>) {
        ExprTree::Aggregate {
            func: self.func,
            distinct: DISTINCT,
            cast: self.cast.duplicate(),
            operand: Box::new(self.operand.lower()),
        }
    }

    proof fn lemma_params<D: Dialect>(&self, dialect: D, bare: bool) {
        self.operand.lemma_params(dialect, bare);
    }

    proof fn lemma_plain(&self) {
        self.operand.lemma_plain();
    }
}

impl<Sub: Subquery> ExprAst for ScalarSubqueryExprAst<Sub> {
    type Params = Sub::Params;
}

impl<Sub: RenderSubquery<B>, B: Backend> RenderAst<B> for ScalarSubqueryExprAst<Sub> {
    open spec fn tree(&self) -> ExprTree<Bound<B>> {
        ExprTree::ScalarSubquery(Box::new(self.subquery.select_tree()))
    }

    fn lower(&self) -> (tree: ExprTree<Bound<B>>) {
        ExprTree::ScalarSubquery(Box::new(self.subquery.lower_select()))
    }

    proof fn lemma_params<D: Dialect>(&self, dialect: D, bare: bool) {
        self.subquery.lemma_select_params(dialect);
    }

    proof fn lemma_plain(&self) {
        self.subquery.lemma_select_plain();
    }
}

} // verus!
