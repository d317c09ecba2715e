//! Set operations over typed queries.
use crate::backend::{Backend, Bound};
use crate::chain::List;
use crate::connection::QueryBuilder;
use crate::dialect::Dialect;
use crate::expr::kind::ProjectionParams;
use crate::grammar;
use crate::label::Duplicate;
use crate::list::{HAppend, HList};
use crate::ops::SetOp;
use crate::projection::{ProjectionShape, RenderProjectable};
use crate::query::chain::Selected;
use crate::query::chain as steps;
use crate::query::select::{ChainShape, RenderSelectAst, SelectAst};
use crate::tokens;
use crate::tree::{CteDef, SetTail, SetTree};
use core::marker::PhantomData;
use vstd::prelude::*;

verus! {

broadcast use crate::tokens::group_tokens;

/// An operand of a set operation: the row that it gives and its runtime parameters.
pub trait SetArm {
    type Row;

    type Params: HList;
}

/// How an operand of a set operation lowers for a backend.
pub trait RenderSetArm<B: Backend>: SetArm {
    spec fn set_tree(&self) -> SetTree<Bound<B>>;

    /// Lowers the operand, with the common table expressions that its queries refer to.
    fn lower_set(&self) -> (tree: SetTree<Bound<B>>)
        ensures
            tree == self.set_tree(),
    ;

    /// The parameter shape has one entry for each runtime parameter that is written.
    proof fn lemma_set_params<D: Dialect>(&self, dialect: D)
        ensures
            tokens::runtimes(grammar::set_operand_tokens(dialect, self.set_tree()))
                == <Self::Params as HList>::width(),
    ;
}

/// One query as an operand.
pub struct SetLeaf<'conn, 'scope, Conn, Base, Shape, Projection> {
    pub selected: Selected<'scope, Base, Shape, Projection>,
    pub _conn: PhantomData<&'conn Conn>,
}

/// Two operands with their operation.
pub struct SetNode<L, R> {
    pub left: L,
    pub op: SetOp,
    pub right: R,
}

/// A set operation with an ordering or bounds of its own.
pub struct SetGroup<Tree> {
    pub tree: Tree,
    pub tail: SetTail,
}

impl<
    'conn,
    'scope,
    Conn: QueryBuilder + 'conn,
    Base: SelectAst<'conn, 'scope, Conn>,
    Shape: ProjectionShape,
    Projection: ProjectionParams,
> SetArm for SetLeaf<'conn, 'scope, Conn, Base, Shape, Projection> where
    Projection::Params: HAppend<<Base as ChainShape>::Params>,
 {
    type Row = Shape::Row;

    type Params = <Projection::Params as HAppend<
        <Base as ChainShape>::Params,
    >>::Output;
}

impl<
    'conn,
    'scope,
    Conn: QueryBuilder + 'conn,
    Base: RenderSelectAst<'conn, 'scope, Conn, B>,
    Shape: ProjectionShape,
    Projection: RenderProjectable<B>,
    B: Backend,
> RenderSetArm<B> for SetLeaf<'conn, 'scope, Conn, Base, Shape, Projection> where
    Projection::Params: HAppend<<Base as ChainShape>::Params>,
 {
    open spec fn set_tree(&self) -> SetTree<Bound<B>> {
        SetTree::Leaf {
            select: self.selected.select_tree::<Conn, B>(),
            ctes: List::<CteDef>::of_seq(steps::first_named(self.selected.base.chain_ctes())),
        }
    }

    fn lower_set(&self) -> (tree: SetTree<Bound<B>>) {
        let ctes = self.selected.collect_ctes::<Conn>();
        SetTree::Leaf { select: self.selected.lower::<Conn, B>(), ctes: List::from_vec(ctes) }
    }

    proof fn lemma_set_params<D: Dialect>(&self, dialect: D) {
        self.selected.law_selected_params::<Conn, B, D>(dialect);
        <Projection::Params as HAppend<
            <Base as ChainShape>::Params,
        >>::lemma_append_width();
    }
}

impl<L: SetArm, R: SetArm<Row = L::Row>> SetArm for SetNode<L, R> where
    L::Params: HAppend<R::Params>,
 {
    type Row = L::Row;

    type Params = <L::Params as HAppend<R::Params>>::Output;
}

impl<L: RenderSetArm<B>, R: RenderSetArm<B> + SetArm<Row = L::Row>, B: Backend> RenderSetArm<
    B,
> for SetNode<L, R> where L::Params: HAppend<R::Params> {
    open spec fn set_tree(&self) -> SetTree<Bound<B>> {
        SetTree::Node {
            left: Box::new(self.left.set_tree()),
            op: self.op,
            right: Box::new(self.right.set_tree()),
        }
    }

    fn lower_set(&self) -> (tree: SetTree<Bound<B>>) {
        SetTree::Node {
            left: Box::new(self.left.lower_set()),
            op: self.op,
            right: Box::new(self.right.lower_set()),
        }
    }

    proof fn lemma_set_params<D: Dialect>(&self, dialect: D) {
        self.left.lemma_set_params(dialect);
        self.right.lemma_set_params(dialect);
        <L::Params as HAppend<R::Params>>::lemma_append_width();
        reveal_with_fuel(grammar::set_operand_tokens, 2);
        reveal_with_fuel(grammar::set_root_tokens, 2);
    }
}

impl<Tree: SetArm> SetArm for SetGroup<Tree> {
    type Row = Tree::Row;

    type Params = Tree::Params;
}

impl<Tree: RenderSetArm<B>, B: Backend> RenderSetArm<B> for SetGroup<Tree> {
    open spec fn set_tree(&self) -> SetTree<Bound<B>> {
        SetTree::Group { tree: Box::new(self.tree.set_tree()), tail: self.tail }
    }

    fn lower_set(&self) -> (tree: SetTree<Bound<B>>) {
        SetTree::Group { tree: Box::new(self.tree.lower_set()), tail: self.tail.duplicate() }
    }

    proof fn lemma_set_params<D: Dialect>(&self, dialect: D) {
        self.tree.lemma_set_params(dialect);
        lemma_root_params(dialect, self.tree.set_tree());
    }
}

/// An operand and the same tree as the outermost set have the same runtime parameters: they differ
/// in parentheses only.
proof fn lemma_root_params<D: Dialect, L>(dialect: D, tree: SetTree<L>)
    ensures
        tokens::runtimes(grammar::set_operand_tokens(dialect, tree)) == tokens::runtimes(
            grammar::set_root_tokens(dialect, tree),
        ),
{
    reveal_with_fuel(grammar::set_operand_tokens, 2);
    reveal_with_fuel(grammar::set_root_tokens, 2);
}

} // verus!
