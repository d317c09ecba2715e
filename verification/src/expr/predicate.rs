//! Predicate nodes, and how they lower into predicate trees.
use crate::backend::{Backend, Bound, Encode};
use crate::chain::List;
use crate::dialect::Dialect;
use crate::expr::ast::{ExprAst, RenderAst, RenderSubquery, Subquery};
use crate::grammar;
use crate::plain;
use crate::label::Duplicate;
use crate::list::{HAppend, HList};
use crate::ops::CompareOp;
use crate::tokens;
use crate::tokens::Token;
use crate::tree::{Encoded, PredicateTree};
use vstd::prelude::*;

verus! {

broadcast use crate::tokens::group_tokens;

/// A predicate node with the shape of its runtime parameters.
pub trait PredicateAst: Duplicate {
    type Params: HList;
}

/// How a predicate node lowers for a backend.
pub trait RenderPredicateAst<B: Backend>: PredicateAst {
    /// The condition that this node is.
    spec fn condition(&self) -> PredicateTree<Bound<B>>;

    fn lower_condition(&self) -> (condition: PredicateTree<Bound<B>>)
        ensures
            condition == self.condition(),
    ;

    /// The parameter shape has one entry for each runtime parameter that is written.
    proof fn lemma_condition_params<D: Dialect>(&self, dialect: D, bare: bool)
        ensures
            tokens::runtimes(grammar::predicate_tokens(dialect, bare, self.condition()))
                == <Self::Params as HList>::width(),
    ;

    /// Without entries in the parameter shape there is no runtime parameter.
    proof fn lemma_condition_plain(&self)
        requires
            <Self::Params as HList>::width() == 0,
        ensures
            plain::plain_predicate(self.condition()),
    ;
}

/// A comparison.
pub struct ComparePredicateAst<Left, Right> {
    pub left: Left,
    pub right: Right,
    pub op: CompareOp,
}

impl<Left: Duplicate, Right: Duplicate> Duplicate for ComparePredicateAst<Left, Right> {
    fn duplicate(&self) -> (copy: Self) {
        ComparePredicateAst {
            left: self.left.duplicate(),
            right: self.right.duplicate(),
            op: self.op,
        }
    }
}

impl<Left: ExprAst, Right: ExprAst> PredicateAst for ComparePredicateAst<Left, Right> where
    Left::Params: HAppend<Right::Params>,
 {
    type Params = <Left::Params as HAppend<Right::Params>>::Output;
}

impl<Left: RenderAst<B>, Right: RenderAst<B>, B: Backend> RenderPredicateAst<B> for ComparePredicateAst<
    Left, Right,
> where
    Left::Params: HAppend<Right::Params>,
 {
    open spec fn condition(&self) -> PredicateTree<Bound<B>> {
        PredicateTree::Compare { op: self.op, left: Box::new(self.left.tree()), right: Box::new(self.right.tree()) }
    }

    fn lower_condition(&self) -> (condition: PredicateTree<Bound<B>>) {
        PredicateTree::Compare { op: self.op, left: Box::new(self.left.lower()), right: Box::new(self.right.lower()) }
    }

    proof fn lemma_condition_params<D: Dialect>(&self, dialect: D, bare: bool) {
        self.left.lemma_params(dialect, bare);
        self.right.lemma_params(dialect, bare);
        <Left::Params as HAppend<Right::Params>>::lemma_append_width();
    }

    proof fn lemma_condition_plain(&self) {
        <Left::Params as HAppend<Right::Params>>::lemma_append_width();
        self.left.lemma_plain();
        self.right.lemma_plain();
    }
}

/// A conjunction.
pub struct AndPredicateAst<Left, Right> {
    pub left: Left,
    pub right: Right,
}

impl<Left: Duplicate, Right: Duplicate> Duplicate for AndPredicateAst<Left, Right> {
    fn duplicate(&self) -> (copy: Self) {
        AndPredicateAst {
            left: self.left.duplicate(),
            right: self.right.duplicate(),
        }
    }
}

impl<Left: PredicateAst, Right: PredicateAst> PredicateAst for AndPredicateAst<Left, Right> where
    Left::Params: HAppend<Right::Params>,
 {
    type Params = <Left::Params as HAppend<Right::Params>>::Output;
}

impl<Left: RenderPredicateAst<B>, Right: RenderPredicateAst<B>, B: Backend> RenderPredicateAst<B> for AndPredicateAst<
    Left, Right,
> where
    Left::Params: HAppend<Right::Params>,
 {
    open spec fn condition(&self) -> PredicateTree<Bound<B>> {
        PredicateTree::And { left: Box::new(self.left.condition()), right: Box::new(self.right.condition()) }
    }

    fn lower_condition(&self) -> (condition: PredicateTree<Bound<B>>) {
        PredicateTree::And { left: Box::new(self.left.lower_condition()), right: Box::new(self.right.lower_condition()) }
    }

    proof fn lemma_condition_params<D: Dialect>(&self, dialect: D, bare: bool) {
        self.left.lemma_condition_params(dialect, bare);
        self.right.lemma_condition_params(dialect, bare);
        <Left::Params as HAppend<Right::Params>>::lemma_append_width();
    }

    proof fn lemma_condition_plain(&self) {
        <Left::Params as HAppend<Right::Params>>::lemma_append_width();
        self.left.lemma_condition_plain();
        self.right.lemma_condition_plain();
    }
}

/// A disjunction.
pub struct OrPredicateAst<Left, Right> {
    pub left: Left,
    pub right: Right,
}

impl<Left: Duplicate, Right: Duplicate> Duplicate for OrPredicateAst<Left, Right> {
    fn duplicate(&self) -> (copy: Self) {
        OrPredicateAst {
            left: self.left.duplicate(),
            right: self.right.duplicate(),
        }
    }
}

impl<Left: PredicateAst, Right: PredicateAst> PredicateAst for OrPredicateAst<Left, Right> where
    Left::Params: HAppend<Right::Params>,
 {
    type Params = <Left::Params as HAppend<Right::Params>>::Output;
}

impl<Left: RenderPredicateAst<B>, Right: RenderPredicateAst<B>, B: Backend> RenderPredicateAst<B> for OrPredicateAst<
    Left, Right,
> where
    Left::Params: HAppend<Right::Params>,
 {
    open spec fn condition(&self) -> PredicateTree<Bound<B>> {
        PredicateTree::Or { left: Box::new(self.left.condition()), right: Box::new(self.right.condition()) }
    }

    fn lower_condition(&self) -> (condition: PredicateTree<Bound<B>>) {
        PredicateTree::Or { left: Box::new(self.left.lower_condition()), right: Box::new(self.right.lower_condition()) }
    }

    proof fn lemma_condition_params<D: Dialect>(&self, dialect: D, bare: bool) {
        self.left.lemma_condition_params(dialect, bare);
        self.right.lemma_condition_params(dialect, bare);
        <Left::Params as HAppend<Right::Params>>::lemma_append_width();
    }

    proof fn lemma_condition_plain(&self) {
        <Left::Params as HAppend<Right::Params>>::lemma_append_width();
        self.left.lemma_condition_plain();
        self.right.lemma_condition_plain();
    }
}

/// A negation.
pub struct NotPredicateAst<Predicate> {
    pub predicate: Predicate,
}

impl<Predicate: Duplicate> Duplicate for NotPredicateAst<Predicate> {
    fn duplicate(&self) -> (copy: Self) {
        NotPredicateAst {
            predicate: self.predicate.duplicate(),
        }
    }
}

impl<Predicate: PredicateAst> PredicateAst for NotPredicateAst<Predicate> {
    type Params = Predicate::Params;
}

impl<Predicate: RenderPredicateAst<B>, B: Backend> RenderPredicateAst<B> for NotPredicateAst<
    Predicate,
> {
    open spec fn condition(&self) -> PredicateTree<Bound<B>> {
        PredicateTree::Not(Box::new(self.predicate.condition()))
    }

    fn lower_condition(&self) -> (condition: PredicateTree<Bound<B>>) {
        PredicateTree::Not(Box::new(self.predicate.lower_condition()))
    }

    proof fn lemma_condition_params<D: Dialect>(&self, dialect: D, bare: bool) {
        self.predicate.lemma_condition_params(dialect, bare);
    }

    proof fn lemma_condition_plain(&self) {
        self.predicate.lemma_condition_plain();
    }
}

/// An `IS NULL` test, or `IS NOT NULL` where negated.
pub struct NullCheckPredicateAst<Operand> {
    pub operand: Operand,
    pub negated: bool,
}

impl<Operand: Duplicate> Duplicate for NullCheckPredicateAst<Operand> {
    fn duplicate(&self) -> (copy: Self) {
        NullCheckPredicateAst {
            operand: self.operand.duplicate(),
            negated: self.negated,
        }
    }
}

impl<Operand: ExprAst> PredicateAst for NullCheckPredicateAst<Operand> {
    type Params = Operand::Params;
}

impl<Operand: RenderAst<B>, B: Backend> RenderPredicateAst<B> for NullCheckPredicateAst<
    Operand,
> {
    open spec fn condition(&self) -> PredicateTree<Bound<B>> {
        PredicateTree::IsNull { negated: self.negated, operand: Box::new(self.operand.tree()) }
    }

    fn lower_condition(&self) -> (condition: PredicateTree<Bound<B>>) {
        PredicateTree::IsNull { negated: self.negated, operand: Box::new(self.operand.lower()) }
    }

    proof fn lemma_condition_params<D: Dialect>(&self, dialect: D, bare: bool) {
        self.operand.lemma_params(dialect, bare);
    }

    proof fn lemma_condition_plain(&self) {
        self.operand.lemma_plain();
    }
}

/// A `LIKE` pattern match; `ILIKE` where it ignores case.
pub struct LikePredicateAst<Left, Right> {
    pub left: Left,
    pub right: Right,
    pub case_insensitive: bool,
    pub negated: bool,
}

impl<Left: Duplicate, Right: Duplicate> Duplicate for LikePredicateAst<Left, Right> {
    fn duplicate(&self) -> (copy: Self) {
        LikePredicateAst {
            left: self.left.duplicate(),
            right: self.right.duplicate(),
            case_insensitive: self.case_insensitive,
            negated: self.negated,
        }
    }
}

impl<Left: ExprAst, Right: ExprAst> PredicateAst for LikePredicateAst<Left, Right> where
    Left::Params: HAppend<Right::Params>,
 {
    type Params = <Left::Params as HAppend<Right::Params>>::Output;
}

impl<Left: RenderAst<B>, Right: RenderAst<B>, B: Backend> RenderPredicateAst<B> for LikePredicateAst<
    Left, Right,
> where
    Left::Params: HAppend<Right::Params>,
 {
    open spec fn condition(&self) -> PredicateTree<Bound<B>> {
        PredicateTree::Like { case_insensitive: self.case_insensitive, negated: self.negated, operand: Box::new(self.left.tree()), pattern: Box::new(self.right.tree()) }
    }

    fn lower_condition(&self) -> (condition: PredicateTree<Bound<B>>) {
        PredicateTree::Like { case_insensitive: self.case_insensitive, negated: self.negated, operand: Box::new(self.left.lower()), pattern: Box::new(self.right.lower()) }
    }

    proof fn lemma_condition_params<D: Dialect>(&self, dialect: D, bare: bool) {
        self.left.lemma_params(dialect, bare);
        self.right.lemma_params(dialect, bare);
        <Left::Params as HAppend<Right::Params>>::lemma_append_width();
    }

    proof fn lemma_condition_plain(&self) {
        <Left::Params as HAppend<Right::Params>>::lemma_append_width();
        self.left.lemma_plain();
        self.right.lemma_plain();
    }
}

/// A range test, both ends included.
pub struct BetweenPredicateAst<Operand, Lo, Hi> {
    pub operand: Operand,
    pub lo: Lo,
    pub hi: Hi,
    pub negated: bool,
}

impl<Operand: Duplicate, Lo: Duplicate, Hi: Duplicate> Duplicate for BetweenPredicateAst<Operand, Lo, Hi> {
    fn duplicate(&self) -> (copy: Self) {
        BetweenPredicateAst {
            operand: self.operand.duplicate(),
            lo: self.lo.duplicate(),
            hi: self.hi.duplicate(),
            negated: self.negated,
        }
    }
}

impl<Operand: ExprAst, Lo: ExprAst, Hi: ExprAst> PredicateAst for BetweenPredicateAst<Operand, Lo, Hi> where
    Operand::Params: HAppend<Lo::Params>,
    <Operand::Params as HAppend<Lo::Params>>::Output: HAppend<Hi::Params>,
 {
    type Params = <<Operand::Params as HAppend<Lo::Params>>::Output as HAppend<Hi::Params>>::Output;
}

impl<Operand: RenderAst<B>, Lo: RenderAst<B>, Hi: RenderAst<B>, B: Backend> RenderPredicateAst<B> for BetweenPredicateAst<
    Operand, Lo, Hi,
> where
    Operand::Params: HAppend<Lo::Params>,
    <Operand::Params as HAppend<Lo::Params>>::Output: HAppend<Hi::Params>,
 {
    open spec fn condition(&self) -> PredicateTree<Bound<B>> {
        PredicateTree::Between { negated: self.negated, operand: Box::new(self.operand.tree()), lo: Box::new(self.lo.tree()), hi: Box::new(self.hi.tree()) }
    }

    fn lower_condition(&self) -> (condition: PredicateTree<Bound<B>>) {
        PredicateTree::Between { negated: self.negated, operand: Box::new(self.operand.lower()), lo: Box::new(self.lo.lower()), hi: Box::new(self.hi.lower()) }
    }

    proof fn lemma_condition_params<D: Dialect>(&self, dialect: D, bare: bool) {
        self.operand.lemma_params(dialect, bare);
        self.lo.lemma_params(dialect, bare);
        self.hi.lemma_params(dialect, bare);
        <Operand::Params as HAppend<Lo::Params>>::lemma_append_width();
        <<Operand::Params as HAppend<Lo::Params>>::Output as HAppend<Hi::Params>>::lemma_append_width();
    }

    proof fn lemma_condition_plain(&self) {
        <<Operand::Params as HAppend<Lo::Params>>::Output as HAppend<Hi::Params>>::lemma_append_width();
        <Operand::Params as HAppend<Lo::Params>>::lemma_append_width();
        self.operand.lemma_plain();
        self.lo.lemma_plain();
        self.hi.lemma_plain();
    }
}

/// A boolean expression used as a predicate.
pub struct BoolTestPredicateAst<Operand> {
    pub operand: Operand,
    pub negated: bool,
}

impl<Operand: Duplicate> Duplicate for BoolTestPredicateAst<Operand> {
    fn duplicate(&self) -> (copy: Self) {
        BoolTestPredicateAst {
            operand: self.operand.duplicate(),
            negated: self.negated,
        }
    }
}

impl<Operand: ExprAst> PredicateAst for BoolTestPredicateAst<Operand> {
    type Params = Operand::Params;
}

impl<Operand: RenderAst<B>, B: Backend> RenderPredicateAst<B> for BoolTestPredicateAst<
    Operand,
> {
    open spec fn condition(&self) -> PredicateTree<Bound<B>> {
        PredicateTree::BoolTest { negated: self.negated, operand: Box::new(self.operand.tree()) }
    }

    fn lower_condition(&self) -> (condition: PredicateTree<Bound<B>>) {
        PredicateTree::BoolTest { negated: self.negated, operand: Box::new(self.operand.lower()) }
    }

    proof fn lemma_condition_params<D: Dialect>(&self, dialect: D, bare: bool) {
        self.operand.lemma_params(dialect, bare);
    }

    proof fn lemma_condition_plain(&self) {
        self.operand.lemma_plain();
    }
}

/// A membership test against a subquery.
pub struct InSubqueryPredicateAst<Operand, Sub> {
    pub operand: Operand,
    pub subquery: Sub,
    pub negated: bool,
}

impl<Operand: Duplicate, Sub: Duplicate> Duplicate for InSubqueryPredicateAst<Operand, Sub> {
    fn duplicate(&self) -> (copy: Self) {
        InSubqueryPredicateAst {
            operand: self.operand.duplicate(),
            subquery: self.subquery.duplicate(),
            negated: self.negated,
        }
    }
}

impl<Operand: ExprAst, Sub: Subquery> PredicateAst for InSubqueryPredicateAst<Operand, Sub> where
    Operand::Params: HAppend<Sub::Params>,
 {
    type Params = <Operand::Params as HAppend<Sub::Params>>::Output;
}

impl<Operand: RenderAst<B>, Sub: RenderSubquery<B>, B: Backend> RenderPredicateAst<B> for InSubqueryPredicateAst<
    Operand, Sub,
> where
    Operand::Params: HAppend<Sub::Params>,
 {
    open spec fn condition(&self) -> PredicateTree<Bound<B>> {
        PredicateTree::InSubquery { negated: self.negated, operand: Box::new(self.operand.tree()), subquery: Box::new(self.subquery.select_tree()) }
    }

    fn lower_condition(&self) -> (condition: PredicateTree<Bound<B>>) {
        PredicateTree::InSubquery { negated: self.negated, operand: Box::new(self.operand.lower()), subquery: Box::new(self.subquery.lower_select()) }
    }

    proof fn lemma_condition_params<D: Dialect>(&self, dialect: D, bare: bool) {
        self.operand.lemma_params(dialect, bare);
        self.subquery.lemma_select_params(dialect);
        <Operand::Params as HAppend<Sub::Params>>::lemma_append_width();
    }

    proof fn lemma_condition_plain(&self) {
        <Operand::Params as HAppend<Sub::Params>>::lemma_append_width();
        self.operand.lemma_plain();
        self.subquery.lemma_select_plain();
    }
}

/// An `EXISTS` test.
pub struct ExistsPredicateAst<Sub> {
    pub subquery: Sub,
    pub negated: bool,
}

impl<Sub: Duplicate> Duplicate for ExistsPredicateAst<Sub> {
    fn duplicate(&self) -> (copy: Self) {
        ExistsPredicateAst {
            subquery: self.subquery.duplicate(),
            negated: self.negated,
        }
    }
}

impl<Sub: Subquery> PredicateAst for ExistsPredicateAst<Sub> {
    type Params = Sub::Params;
}

impl<Sub: RenderSubquery<B>, B: Backend> RenderPredicateAst<B> for ExistsPredicateAst<
    Sub,
> {
    open spec fn condition(&self) -> PredicateTree<Bound<B>> {
        PredicateTree::Exists { negated: self.negated, subquery: Box::new(self.subquery.select_tree()) }
    }

    fn lower_condition(&self) -> (condition: PredicateTree<Bound<B>>) {
        PredicateTree::Exists { negated: self.negated, subquery: Box::new(self.subquery.lower_select()) }
    }

    proof fn lemma_condition_params<D: Dialect>(&self, dialect: D, bare: bool) {
        self.subquery.lemma_select_params(dialect);
    }

    proof fn lemma_condition_plain(&self) {
        self.subquery.lemma_select_plain();
    }
}

/// A membership test against a list of values, each bound where it stands.
pub struct InPredicateAst<Operand, V> {
    pub operand: Operand,
    pub values: List<V>,
    pub negated: bool,
}

impl<Operand: Duplicate, V: Duplicate> Duplicate for InPredicateAst<Operand, V> {
    fn duplicate(&self) -> (copy: Self) {
        InPredicateAst {
            operand: self.operand.duplicate(),
            values: self.values.duplicate(),
            negated: self.negated,
        }
    }
}

impl<Operand: ExprAst, V: Duplicate> PredicateAst for InPredicateAst<Operand, V> {
    type Params = Operand::Params;
}

/// The values of a list as a backend binds them.
pub open spec fn bound_values<B: Backend, V: Encode<B>>(values: List<V>) -> List<Bound<B>>
    decreases values,
{
    match values {
        List::Nil => List::Nil,
        List::Cons { head, tail } => List::Cons {
            head: Box::new(Encoded { outcome: head.encoded() }),
            tail: Box::new(bound_values::<B, V>(*tail)),
        },
    }
}

fn bind_values<B: Backend, V: Encode<B>>(values: &List<V>) -> (bound: List<Bound<B>>)
    ensures
        bound == bound_values::<B, V>(*values),
    decreases values,
{
    match values {
        List::Nil => List::Nil,
        List::Cons { head, tail } => List::Cons {
            head: Box::new(Encoded { outcome: head.encode() }),
            tail: Box::new(bind_values::<B, V>(tail)),
        },
    }
}

proof fn lemma_values_have_no_runtimes<L>(first: bool, values: List<L>)
    ensures
        tokens::runtimes(grammar::value_list_tokens(first, values)) == 0,
    decreases values,
{
    if let List::Cons { head, tail } = values {
        lemma_values_have_no_runtimes(false, *tail);
        let slot = seq![Token::Literal(*head)];
        assert(slot.drop_last() =~= Seq::empty());
        reveal_with_fuel(tokens::runtimes, 2);
        assert(tokens::runtimes(slot) == 0);
    }
}

impl<Operand: RenderAst<B>, V: Duplicate + Encode<B>, B: Backend> RenderPredicateAst<
    B,
> for InPredicateAst<Operand, V> {
    open spec fn condition(&self) -> PredicateTree<Bound<B>> {
        PredicateTree::In {
            negated: self.negated,
            operand: Box::new(self.operand.tree()),
            values: bound_values::<B, V>(self.values),
        }
    }

    fn lower_condition(&self) -> (condition: PredicateTree<Bound<B>>) {
        PredicateTree::In {
            negated: self.negated,
            operand: Box::new(self.operand.lower()),
            values: bind_values::<B, V>(&self.values),
        }
    }

    proof fn lemma_condition_params<D: Dialect>(&self, dialect: D, bare: bool) {
        self.operand.lemma_params(dialect, bare);
        lemma_values_have_no_runtimes(true, bound_values::<B, V>(self.values));
    }

    proof fn lemma_condition_plain(&self) {
        self.operand.lemma_plain();
    }
}

} // verus!
