//! Searched `CASE` expressions.
use crate::backend::{Backend, Bound};
use crate::chain::List;
use crate::column;
use crate::column::HasColumnType;
use crate::dialect::Dialect;
use crate::expr::ast::{ExprAst, RenderAst};
use crate::expr::kind::{ExprKind, PredicateKind, ScalarNullable};
use crate::expr::predicate::{PredicateAst, RenderPredicateAst};
use crate::expr::{Expr, IntoExpr, Predicate};
use crate::grammar;
use crate::plain;
use crate::label::{Duplicate, Label};
use crate::list::{HAppend, HList, HNil};
use crate::sql_type::SqlType;
use crate::tokens;
use crate::tree::{CaseArmTree, ExprTree};
use core::marker::PhantomData;
use vstd::prelude::*;

verus! {

broadcast use crate::tokens::group_tokens;

/// The end of a list of arms.
pub struct CaseNil;

/// One `WHEN … THEN …` arm in front of the rest.
pub struct CaseWhen<PredAst, ValAst, Rest> {
    pub when: PredAst,
    pub value: ValAst,
    pub rest: Rest,
}

/// The missing `ELSE` of a `CASE`.
pub struct NoElse;

impl Duplicate for CaseNil {
    fn duplicate(&self) -> (copy: Self) {
        CaseNil
    }
}

impl<PredAst: Duplicate, ValAst: Duplicate, Rest: Duplicate> Duplicate for CaseWhen<
    PredAst,
    ValAst,
    Rest,
> {
    fn duplicate(&self) -> (copy: Self) {
        CaseWhen {
            when: self.when.duplicate(),
            value: self.value.duplicate(),
            rest: self.rest.duplicate(),
        }
    }
}

impl Duplicate for NoElse {
    fn duplicate(&self) -> (copy: Self) {
        NoElse
    }
}

impl ExprAst for NoElse {
    type Params = HNil;
}

/// The `ELSE` of a `CASE`.
pub struct ElseValue<Ast> {
    pub ast: Ast,
}

impl<Ast: Duplicate> Duplicate for ElseValue<Ast> {
    fn duplicate(&self) -> (copy: Self) {
        ElseValue { ast: self.ast.duplicate() }
    }
}

impl<Ast: ExprAst> ExprAst for ElseValue<Ast> {
    type Params = Ast::Params;
}

/// Appends an arm behind the arms so far, so that arms are written in the order they were added.
pub trait AppendArm<PredAst, ValAst>: Sized {
    type Output;

    /// The arms with one more behind them.
    spec fn with_arm(self, when: PredAst, value: ValAst) -> Self::Output;

    fn append_arm(self, when: PredAst, value: ValAst) -> (arms: Self::Output)
        ensures
            arms == self.with_arm(when, value),
    ;
}

impl<PredAst, ValAst> AppendArm<PredAst, ValAst> for CaseNil {
    type Output = CaseWhen<PredAst, ValAst, CaseNil>;

    open spec fn with_arm(self, when: PredAst, value: ValAst) -> Self::Output {
        CaseWhen { when, value, rest: CaseNil }
    }

    fn append_arm(self, when: PredAst, value: ValAst) -> (arms: Self::Output) {
        CaseWhen { when, value, rest: CaseNil }
    }
}

impl<PredAst, ValAst, HeadPred, HeadVal, Rest: AppendArm<PredAst, ValAst>> AppendArm<
    PredAst,
    ValAst,
> for CaseWhen<HeadPred, HeadVal, Rest> {
    type Output = CaseWhen<HeadPred, HeadVal, Rest::Output>;

    open spec fn with_arm(self, when: PredAst, value: ValAst) -> Self::Output {
        CaseWhen { when: self.when, value: self.value, rest: self.rest.with_arm(when, value) }
    }

    fn append_arm(self, when: PredAst, value: ValAst) -> (arms: Self::Output) {
        CaseWhen { when: self.when, value: self.value, rest: self.rest.append_arm(when, value) }
    }
}

/// Marker for a list of at least one arm: there is no `CASE END`.
pub trait NonEmptyArms {

}

impl<PredAst, ValAst, Rest> NonEmptyArms for CaseWhen<PredAst, ValAst, Rest> {

}

/// The runtime parameters of the arms: those of each condition, then of its value, arm by arm.
pub trait CaseArmsParams: Duplicate {
    type Params: HList;
}

impl CaseArmsParams for CaseNil {
    type Params = HNil;
}

impl<PredAst: PredicateAst, ValAst: ExprAst, Rest: CaseArmsParams> CaseArmsParams for CaseWhen<
    PredAst,
    ValAst,
    Rest,
> where
    PredAst::Params: HAppend<ValAst::Params>,
    <PredAst::Params as HAppend<ValAst::Params>>::Output: HAppend<Rest::Params>,
 {
    type Params = <<PredAst::Params as HAppend<ValAst::Params>>::Output as HAppend<
        Rest::Params,
    >>::Output;
}

/// How arms lower for a backend.
pub trait RenderCaseArms<B: Backend>: CaseArmsParams {
    /// The arms, first to last.
    spec fn arm_trees(&self) -> List<CaseArmTree<Bound<B>>>;

    fn lower_arms(&self) -> (arms: List<CaseArmTree<Bound<B>>>)
        ensures
            arms == self.arm_trees(),
    ;

    /// The parameter shape has one entry for each runtime parameter that is written.
    proof fn lemma_arms_params<D: Dialect>(&self, dialect: D, bare: bool, cast: Option<SqlType>)
        ensures
            tokens::runtimes(grammar::case_arms_tokens(dialect, bare, cast, self.arm_trees()))
                == <Self::Params as HList>::width(),
    ;

    /// Without entries in the parameter shape there is no runtime parameter.
    proof fn lemma_arms_plain(&self)
        requires
            <Self::Params as HList>::width() == 0,
        ensures
            plain::plain_arms(self.arm_trees()),
    ;
}

impl<B: Backend> RenderCaseArms<B> for CaseNil {
    open spec fn arm_trees(&self) -> List<CaseArmTree<Bound<B>>> {
        List::Nil
    }

    fn lower_arms(&self) -> (arms: List<CaseArmTree<Bound<B>>>) {
        List::Nil
    }

    proof fn lemma_arms_params<D: Dialect>(&self, dialect: D, bare: bool, cast: Option<SqlType>) {
    }

    proof fn lemma_arms_plain(&self) {
    }
}

impl<
    PredAst: RenderPredicateAst<B>,
    ValAst: RenderAst<B>,
    Rest: RenderCaseArms<B>,
    B: Backend,
> RenderCaseArms<B> for CaseWhen<PredAst, ValAst, Rest> where
    PredAst::Params: HAppend<ValAst::Params>,
    <PredAst::Params as HAppend<ValAst::Params>>::Output: HAppend<Rest::Params>,
 {
    open spec fn arm_trees(&self) -> List<CaseArmTree<Bound<B>>> {
        List::Cons {
            head: Box::new(CaseArmTree { when: self.when.condition(), value: self.value.tree() }),
            tail: Box::new(self.rest.arm_trees()),
        }
    }

    fn lower_arms(&self) -> (arms: List<CaseArmTree<Bound<B>>>) {
        List::Cons {
            head: Box::new(
                CaseArmTree { when: self.when.lower_condition(), value: self.value.lower() },
            ),
            tail: Box::new(self.rest.lower_arms()),
        }
    }

    proof fn lemma_arms_params<D: Dialect>(&self, dialect: D, bare: bool, cast: Option<SqlType>) {
        self.when.lemma_condition_params(dialect, bare);
        self.value.lemma_params(dialect, bare);
        self.rest.lemma_arms_params(dialect, bare, cast);
        let value = grammar::cast_expr_tokens(dialect, bare, cast, self.value.tree());
        assert(tokens::runtimes(value) == <ValAst::Params as HList>::width());
        <PredAst::Params as HAppend<ValAst::Params>>::lemma_append_width();
        <<PredAst::Params as HAppend<ValAst::Params>>::Output as HAppend<
            Rest::Params,
        >>::lemma_append_width();
    }

    proof fn lemma_arms_plain(&self) {
        <<PredAst::Params as HAppend<ValAst::Params>>::Output as HAppend<
            Rest::Params,
        >>::lemma_append_width();
        <PredAst::Params as HAppend<ValAst::Params>>::lemma_append_width();
        self.when.lemma_condition_plain();
        self.value.lemma_plain();
        self.rest.lemma_arms_plain();
    }
}

/// How the `ELSE` branch lowers for a backend: to a value, or to nothing where there is none.
pub trait RenderElse<B: Backend>: ExprAst {
    /// The value of the branch.
    spec fn else_tree(&self) -> Option<Box<ExprTree<Bound<B>>>>;

    fn lower_else(&self) -> (value: Option<Box<ExprTree<Bound<B>>>>)
        ensures
            value == self.else_tree(),
    ;

    /// The parameter shape has one entry for each runtime parameter that is written.
    proof fn lemma_else_params<D: Dialect>(&self, dialect: D, bare: bool, cast: Option<SqlType>)
        ensures
            tokens::runtimes(grammar::else_tokens(dialect, bare, cast, self.else_tree()))
                == <Self::Params as HList>::width(),
    ;

    /// Without entries in the parameter shape there is no runtime parameter.
    proof fn lemma_else_plain(&self)
        requires
            <Self::Params as HList>::width() == 0,
        ensures
            plain::plain_else(self.else_tree()),
    ;
}

impl<B: Backend> RenderElse<B> for NoElse {
    open spec fn else_tree(&self) -> Option<Box<ExprTree<Bound<B>>>> {
        None
    }

    fn lower_else(&self) -> (value: Option<Box<ExprTree<Bound<B>>>>) {
        None
    }

    proof fn lemma_else_params<D: Dialect>(&self, dialect: D, bare: bool, cast: Option<SqlType>) {
    }

    proof fn lemma_else_plain(&self) {
    }
}

impl<B: Backend, Ast: RenderAst<B>> RenderElse<B> for ElseValue<Ast> {
    open spec fn else_tree(&self) -> Option<Box<ExprTree<Bound<B>>>> {
        Some(Box::new(self.ast.tree()))
    }

    fn lower_else(&self) -> (value: Option<Box<ExprTree<Bound<B>>>>) {
        Some(Box::new(self.ast.lower()))
    }

    proof fn lemma_else_params<D: Dialect>(&self, dialect: D, bare: bool, cast: Option<SqlType>) {
        self.ast.lemma_params(dialect, bare);
    }

    proof fn lemma_else_plain(&self) {
        self.ast.lemma_plain();
    }
}

/// A searched `CASE`. Its values are cast to `result`, so that a `CASE` of nothing but bound values
/// has a type for the database.
pub struct CaseExprAst<Arms, Else> {
    pub arms: Arms,
    pub else_ast: Else,
    pub result: Option<SqlType>,
}

impl<Arms: Duplicate, Else: Duplicate> Duplicate for CaseExprAst<Arms, Else> {
    fn duplicate(&self) -> (copy: Self) {
        CaseExprAst {
            arms: self.arms.duplicate(),
            else_ast: self.else_ast.duplicate(),
            result: self.result.duplicate(),
        }
    }
}

impl<Arms: CaseArmsParams, Else: ExprAst> ExprAst for CaseExprAst<Arms, Else> where
    Arms::Params: HAppend<Else::Params>,
 {
    type Params = <Arms::Params as HAppend<Else::Params>>::Output;
}

impl<Arms: RenderCaseArms<B>, Else: RenderElse<B>, B: Backend> RenderAst<B> for CaseExprAst<
    Arms,
    Else,
> where Arms::Params: HAppend<Else::Params> {
    open spec fn tree(&self) -> ExprTree<Bound<B>> {
        ExprTree::Case {
            arms: self.arms.arm_trees(),
            else_: self.else_ast.else_tree(),
            result: self.result,
        }
    }

    fn lower(&self) -> (tree: ExprTree<Bound<B>>) {
        ExprTree::Case {
            arms: self.arms.lower_arms(),
            else_: self.else_ast.lower_else(),
            result: self.result.duplicate(),
        }
    }

    proof fn lemma_params<D: Dialect>(&self, dialect: D, bare: bool) {
        self.arms.lemma_arms_params(dialect, bare, self.result);
        self.else_ast.lemma_else_params(dialect, bare, self.result);
        <Arms::Params as HAppend<Else::Params>>::lemma_append_width();
    }

    proof fn lemma_plain(&self) {
        <Arms::Params as HAppend<Else::Params>>::lemma_append_width();
        self.arms.lemma_arms_plain();
        self.else_ast.lemma_else_plain();
    }
}

/// Builds a searched `CASE` of value type `T`, arm by arm.
pub struct CaseBuilder<'scope, T, Arms> {
    pub arms: Arms,
    pub _marker: PhantomData<(&'scope (), T)>,
}

/// Starts a searched `CASE`.
pub fn case<'scope, T>() -> (builder: CaseBuilder<'scope, T, CaseNil>)
    ensures
        builder.arms == CaseNil,
{
    CaseBuilder { arms: CaseNil, _marker: PhantomData }
}

/// Whether `cast` is the SQL type of the value type `T`.
pub open spec fn casts_to<T: HasColumnType>(cast: Option<SqlType>) -> bool {
    cast matches Some(sql_type) && column::is_sql_type(T::spec_column_type(), sql_type)
}

impl<'scope, T, Arms> CaseBuilder<'scope, T, Arms> {
    /// Adds a `WHEN condition THEN value` arm.
    pub fn when<P: PredicateKind, PredAst: PredicateAst, E: IntoExpr<'scope>>(
        self,
        condition: Predicate<'scope, P, PredAst>,
        value: E,
    ) -> (builder: CaseBuilder<'scope, T, <Arms as AppendArm<PredAst, E::Ast>>::Output>) where
        E::Kind: ExprKind<Value = T>,
        Arms: AppendArm<PredAst, E::Ast>,

        ensures
            exists|ast: E::Ast|
                #![trigger value.gives(ast)]
                value.gives(ast) && builder.arms == self.arms.with_arm(condition.ast, ast),
    {
        let value_ast = value.into_expr().ast;
        let ghost given = value_ast;
        let arms = self.arms.append_arm(condition.ast, value_ast);
        proof {
            assert(value.gives(given));
        }
        CaseBuilder { arms, _marker: PhantomData }
    }

    /// Finishes with an `ELSE` branch: the result cannot be null.
    pub fn otherwise<E: IntoExpr<'scope>>(self, value: E) -> (expr: Expr<
        'scope,
        T,
        CaseExprAst<Arms, ElseValue<E::Ast>>,
    >) where
        Arms: NonEmptyArms,
        T: ExprKind + HasColumnType,
        E::Kind: ExprKind<Value = T>,
        CaseExprAst<Arms, ElseValue<E::Ast>>: ExprAst,

        ensures
            expr.ast.arms == self.arms,
            value.gives(expr.ast.else_ast.ast),
            casts_to::<T>(expr.ast.result),
            expr.project_alias == Label::Static("expr"),
    {
        Expr {
            ast: CaseExprAst {
                arms: self.arms,
                else_ast: ElseValue { ast: value.into_expr().ast },
                result: Some(SqlType::from(T::column_type())),
            },
            project_alias: Label::Static("expr"),
            _phantom: PhantomData,
        }
    }

    /// Finishes without an `ELSE`: a row that matches no arm gives `NULL`.
    pub fn end(self) -> (expr: Expr<'scope, ScalarNullable<T>, CaseExprAst<Arms, NoElse>>) where
        Arms: NonEmptyArms,
        T: ExprKind + HasColumnType,
        CaseExprAst<Arms, NoElse>: ExprAst,

        ensures
            expr.ast.arms == self.arms,
            casts_to::<T>(expr.ast.result),
            expr.project_alias == Label::Static("expr"),
    {
        Expr {
            ast: CaseExprAst {
                arms: self.arms,
                else_ast: NoElse,
                result: Some(SqlType::from(T::column_type())),
            },
            project_alias: Label::Static("expr"),
            _phantom: PhantomData,
        }
    }
}

} // verus!
