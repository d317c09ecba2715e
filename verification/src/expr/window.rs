//! Window functions.
use crate::backend::{Backend, Bound, Encode};
use crate::chain::List;
use crate::dialect::Dialect;
use crate::expr::ast::{AggregateExprAst, ColumnExprAst, ExprAst, LiteralExprAst, RenderAst};
use crate::expr::class::NonAggregateAst;
use crate::expr::kind::{ExprKind, IntoWindowNullable};
use crate::expr::{ColumnRef, Expr, Order};
use crate::grammar;
use crate::plain;
use crate::label::{Duplicate, Label};
use crate::list::{HAppend, HList, HNil};
use crate::ops::{OrderDirection, WindowFunc};
use crate::sql_type::SqlType;
use crate::tokens;
use crate::tokens::Token;
use crate::tree::{Encoded, ExprTree, WindowOrderTree};
use core::marker::PhantomData;
use vstd::prelude::*;

verus! {

broadcast use crate::tokens::group_tokens;

/// The end of a window's `PARTITION BY` or `ORDER BY` list.
pub struct WindowNil;

/// One `PARTITION BY` expression in front of the rest.
pub struct WindowPartition<Ast, Rest> {
    pub ast: Ast,
    pub rest: Rest,
}

/// One `ORDER BY` term in front of the rest.
pub struct WindowOrder<Ast, Rest> {
    pub ast: Ast,
    pub dir: OrderDirection,
    pub rest: Rest,
}

impl Duplicate for WindowNil {
    fn duplicate(&self) -> (copy: Self) {
        WindowNil
    }
}

impl<Ast: Duplicate, Rest: Duplicate> Duplicate for WindowPartition<Ast, Rest> {
    fn duplicate(&self) -> (copy: Self) {
        WindowPartition { ast: self.ast.duplicate(), rest: self.rest.duplicate() }
    }
}

impl<Ast: Duplicate, Rest: Duplicate> Duplicate for WindowOrder<Ast, Rest> {
    fn duplicate(&self) -> (copy: Self) {
        WindowOrder { ast: self.ast.duplicate(), dir: self.dir, rest: self.rest.duplicate() }
    }
}

/// The runtime parameters of a window list, first to last.
pub trait WindowListParams: Duplicate {
    type Params: HList;
}

impl WindowListParams for WindowNil {
    type Params = HNil;
}

impl<Ast: ExprAst, Rest: WindowListParams> WindowListParams for WindowPartition<Ast, Rest> where
    Ast::Params: HAppend<Rest::Params>,
 {
    type Params = <Ast::Params as HAppend<Rest::Params>>::Output;
}

impl<Ast: ExprAst, Rest: WindowListParams> WindowListParams for WindowOrder<Ast, Rest> where
    Ast::Params: HAppend<Rest::Params>,
 {
    type Params = <Ast::Params as HAppend<Rest::Params>>::Output;
}

/// How a `PARTITION BY` list lowers for a backend.
pub trait RenderPartitions<B: Backend>: WindowListParams {
    /// The expressions, first to last.
    spec fn partition_trees(&self) -> List<ExprTree<Bound<B>>>;

    fn lower_partitions(&self) -> (partitions: List<ExprTree<Bound<B>>>)
        ensures
            partitions == self.partition_trees(),
    ;

    /// The parameter shape has one entry for each runtime parameter that is written.
    proof fn lemma_partition_params<D: Dialect>(&self, dialect: D, bare: bool, lead: Seq<char>)
        ensures
            tokens::runtimes(
                grammar::expr_list_tokens(dialect, bare, lead, self.partition_trees()),
            ) == <Self::Params as HList>::width(),
    ;

    /// Without entries in the parameter shape there is no runtime parameter.
    proof fn lemma_partition_plain(&self)
        requires
            <Self::Params as HList>::width() == 0,
        ensures
            plain::plain_exprs(self.partition_trees()),
    ;
}

impl<B: Backend> RenderPartitions<B> for WindowNil {
    open spec fn partition_trees(&self) -> List<ExprTree<Bound<B>>> {
        List::Nil
    }

    fn lower_partitions(&self) -> (partitions: List<ExprTree<Bound<B>>>) {
        List::Nil
    }

    proof fn lemma_partition_params<D: Dialect>(&self, dialect: D, bare: bool, lead: Seq<char>) {
    }

    proof fn lemma_partition_plain(&self) {
    }
}

impl<Ast: RenderAst<B>, Rest: RenderPartitions<B>, B: Backend> RenderPartitions<
    B,
> for WindowPartition<Ast, Rest> where Ast::Params: HAppend<Rest::Params> {
    open spec fn partition_trees(&self) -> List<ExprTree<Bound<B>>> {
        List::Cons {
            head: Box::new(self.ast.tree()),
            tail: Box::new(self.rest.partition_trees()),
        }
    }

    fn lower_partitions(&self) -> (partitions: List<ExprTree<Bound<B>>>) {
        List::Cons {
            head: Box::new(self.ast.lower()),
            tail: Box::new(self.rest.lower_partitions()),
        }
    }

    proof fn lemma_partition_params<D: Dialect>(&self, dialect: D, bare: bool, lead: Seq<char>) {
        self.ast.lemma_params(dialect, bare);
        self.rest.lemma_partition_params(dialect, bare, ", "@);
        <Ast::Params as HAppend<Rest::Params>>::lemma_append_width();
    }

    proof fn lemma_partition_plain(&self) {
        <Ast::Params as HAppend<Rest::Params>>::lemma_append_width();
        self.ast.lemma_plain();
        self.rest.lemma_partition_plain();
    }
}

/// How an `ORDER BY` list of a window lowers for a backend.
pub trait RenderWindowOrders<B: Backend>: WindowListParams {
    /// The terms, first to last.
    spec fn order_trees(&self) -> List<WindowOrderTree<Bound<B>>>;

    fn lower_window_orders(&self) -> (orders: List<WindowOrderTree<Bound<B>>>)
        ensures
            orders == self.order_trees(),
    ;

    /// The parameter shape has one entry for each runtime parameter that is written.
    proof fn lemma_order_params<D: Dialect>(&self, dialect: D, bare: bool, lead: Seq<char>)
        ensures
            tokens::runtimes(
                grammar::window_orders_tokens(dialect, bare, lead, self.order_trees()),
            ) == <Self::Params as HList>::width(),
    ;

    /// Without entries in the parameter shape there is no runtime parameter.
    proof fn lemma_order_plain(&self)
        requires
            <Self::Params as HList>::width() == 0,
        ensures
            plain::plain_window_orders(self.order_trees()),
    ;
}

impl<B: Backend> RenderWindowOrders<B> for WindowNil {
    open spec fn order_trees(&self) -> List<WindowOrderTree<Bound<B>>> {
        List::Nil
    }

    fn lower_window_orders(&self) -> (orders: List<WindowOrderTree<Bound<B>>>) {
        List::Nil
    }

    proof fn lemma_order_params<D: Dialect>(&self, dialect: D, bare: bool, lead: Seq<char>) {
    }

    proof fn lemma_order_plain(&self) {
    }
}

impl<Ast: RenderAst<B>, Rest: RenderWindowOrders<B>, B: Backend> RenderWindowOrders<
    B,
> for WindowOrder<Ast, Rest> where Ast::Params: HAppend<Rest::Params> {
    open spec fn order_trees(&self) -> List<WindowOrderTree<Bound<B>>> {
        List::Cons {
            head: Box::new(WindowOrderTree { expr: self.ast.tree(), direction: self.dir }),
            tail: Box::new(self.rest.order_trees()),
        }
    }

    fn lower_window_orders(&self) -> (orders: List<WindowOrderTree<Bound<B>>>) {
        List::Cons {
            head: Box::new(WindowOrderTree { expr: self.ast.lower(), direction: self.dir }),
            tail: Box::new(self.rest.lower_window_orders()),
        }
    }

    proof fn lemma_order_params<D: Dialect>(&self, dialect: D, bare: bool, lead: Seq<char>) {
        self.ast.lemma_params(dialect, bare);
        self.rest.lemma_order_params(dialect, bare, ", "@);
        <Ast::Params as HAppend<Rest::Params>>::lemma_append_width();
    }

    proof fn lemma_order_plain(&self) {
        <Ast::Params as HAppend<Rest::Params>>::lemma_append_width();
        self.ast.lemma_plain();
        self.rest.lemma_order_plain();
    }
}

/// How the arguments of a window function lower for a backend.
pub trait RenderWindowArgs<B: Backend>: ExprAst {
    /// The arguments, in order.
    spec fn arg_trees(&self) -> List<ExprTree<Bound<B>>>;

    fn lower_args(&self) -> (args: List<ExprTree<Bound<B>>>)
        ensures
            args == self.arg_trees(),
    ;

    /// The parameter shape has one entry for each runtime parameter that is written.
    proof fn lemma_args_params<D: Dialect>(&self, dialect: D, bare: bool)
        ensures
            tokens::runtimes(
                grammar::expr_list_tokens(dialect, bare, Seq::empty(), self.arg_trees()),
            ) == <Self::Params as HList>::width(),
    ;

    /// Without entries in the parameter shape there is no runtime parameter.
    proof fn lemma_args_plain(&self)
        requires
            <Self::Params as HList>::width() == 0,
        ensures
            plain::plain_exprs(self.arg_trees()),
    ;
}

/// A window function call with its `OVER` clause, cast to `cast` where one is wanted.
pub struct WindowExprAst<Operand, Parts, Ords> {
    pub func: WindowFunc,
    pub cast: Option<SqlType>,
    pub operand: Operand,
    pub partitions: Parts,
    pub orders: Ords,
}

impl<Operand: Duplicate, Parts: Duplicate, Ords: Duplicate> Duplicate for WindowExprAst<
    Operand,
    Parts,
    Ords,
> {
    fn duplicate(&self) -> (copy: Self) {
        WindowExprAst {
            func: self.func,
            cast: self.cast.duplicate(),
            operand: self.operand.duplicate(),
            partitions: self.partitions.duplicate(),
            orders: self.orders.duplicate(),
        }
    }
}

impl<Operand: ExprAst, Parts: WindowListParams, Ords: WindowListParams> ExprAst for WindowExprAst<
    Operand,
    Parts,
    Ords,
> where
    Operand::Params: HAppend<Parts::Params>,
    <Operand::Params as HAppend<Parts::Params>>::Output: HAppend<Ords::Params>,
 {
    type Params = <<Operand::Params as HAppend<Parts::Params>>::Output as HAppend<
        Ords::Params,
    >>::Output;
}

impl<
    Operand: RenderWindowArgs<B>,
    Parts: RenderPartitions<B>,
    Ords: RenderWindowOrders<B>,
    B: Backend,
> RenderAst<B> for WindowExprAst<Operand, Parts, Ords> where
    Operand::Params: HAppend<Parts::Params>,
    <Operand::Params as HAppend<Parts::Params>>::Output: HAppend<Ords::Params>,
 {
    open spec fn tree(&self) -> ExprTree<Bound<B>> {
        ExprTree::Window {
            func: self.func,
            cast: self.cast,
            args: self.operand.arg_trees(),
            partitions: self.partitions.partition_trees(),
            orders: self.orders.order_trees(),
        }
    }

    fn lower(&self) -> (tree: ExprTree<Bound<B>>) {
        ExprTree::Window {
            func: self.func,
            cast: self.cast.duplicate(),
            args: self.operand.lower_args(),
            partitions: self.partitions.lower_partitions(),
            orders: self.orders.lower_window_orders(),
        }
    }

    proof fn lemma_params<D: Dialect>(&self, dialect: D, bare: bool) {
        self.operand.lemma_args_params(dialect, bare);
        self.partitions.lemma_partition_params(dialect, bare, "PARTITION BY "@);
        self.orders.lemma_order_params(
            dialect,
            bare,
            if self.partitions.partition_trees() is Nil {
                "ORDER BY "@
            } else {
                " ORDER BY "@
            },
        );
        <Operand::Params as HAppend<Parts::Params>>::lemma_append_width();
        <<Operand::Params as HAppend<Parts::Params>>::Output as HAppend<
            Ords::Params,
        >>::lemma_append_width();
    }

    proof fn lemma_plain(&self) {
        <<Operand::Params as HAppend<Parts::Params>>::Output as HAppend<
            Ords::Params,
        >>::lemma_append_width();
        <Operand::Params as HAppend<Parts::Params>>::lemma_append_width();
        self.operand.lemma_args_plain();
        self.partitions.lemma_partition_plain();
        self.orders.lemma_order_plain();
    }
}

/// The operand of a window function without arguments.
pub struct WindowNoArg;

impl Duplicate for WindowNoArg {
    fn duplicate(&self) -> (copy: Self) {
        WindowNoArg
    }
}

impl ExprAst for WindowNoArg {
    type Params = HNil;
}

impl<B: Backend> RenderWindowArgs<B> for WindowNoArg {
    open spec fn arg_trees(&self) -> List<ExprTree<Bound<B>>> {
        List::Nil
    }

    fn lower_args(&self) -> (args: List<ExprTree<Bound<B>>>) {
        List::Nil
    }

    proof fn lemma_args_params<D: Dialect>(&self, dialect: D, bare: bool) {
        let none = List::<ExprTree<Bound<B>>>::Nil;
        assert(grammar::expr_list_tokens(dialect, bare, Seq::empty(), none) =~= Seq::empty());
        assert(<HNil as HList>::width() == 0);
    }

    proof fn lemma_args_plain(&self) {
    }
}

/// The one argument of a window function.
pub struct WindowArg<Ast> {
    pub ast: Ast,
}

impl<Ast: Duplicate> Duplicate for WindowArg<Ast> {
    fn duplicate(&self) -> (copy: Self) {
        WindowArg { ast: self.ast.duplicate() }
    }
}

impl<Ast: ExprAst> ExprAst for WindowArg<Ast> {
    type Params = Ast::Params;
}

impl<Ast: RenderAst<B>, B: Backend> RenderWindowArgs<B> for WindowArg<Ast> {
    open spec fn arg_trees(&self) -> List<ExprTree<Bound<B>>> {
        List::Cons { head: Box::new(self.ast.tree()), tail: Box::new(List::Nil) }
    }

    fn lower_args(&self) -> (args: List<ExprTree<Bound<B>>>) {
        List::Cons { head: Box::new(self.ast.lower()), tail: Box::new(List::Nil) }
    }

    proof fn lemma_args_params<D: Dialect>(&self, dialect: D, bare: bool) {
        self.ast.lemma_params(dialect, bare);
        let none = List::<ExprTree<Bound<B>>>::Nil;
        assert(grammar::expr_list_tokens(dialect, bare, ", "@, none) =~= Seq::empty());
    }

    proof fn lemma_args_plain(&self) {
        self.ast.lemma_plain();
        assert(plain::plain_exprs(List::<ExprTree<Bound<B>>>::Nil));
    }
}

/// The arguments of `LAG` and `LEAD`: a value and an offset, which is an SQL `integer`.
pub struct LagArgsAst<ValueAst> {
    pub value: ValueAst,
    pub offset: i32,
}

impl<ValueAst: Duplicate> Duplicate for LagArgsAst<ValueAst> {
    fn duplicate(&self) -> (copy: Self) {
        LagArgsAst { value: self.value.duplicate(), offset: self.offset }
    }
}

impl<ValueAst: ExprAst> ExprAst for LagArgsAst<ValueAst> {
    type Params = ValueAst::Params;
}

impl<ValueAst: RenderAst<B>, B: Backend> RenderWindowArgs<B> for LagArgsAst<ValueAst> where
    i32: Encode<B>,
 {
    open spec fn arg_trees(&self) -> List<ExprTree<Bound<B>>> {
        List::Cons {
            head: Box::new(self.value.tree()),
            tail: Box::new(
                List::Cons {
                    head: Box::new(
                        ExprTree::Literal(Encoded { outcome: self.offset.encoded() }),
                    ),
                    tail: Box::new(List::Nil),
                },
            ),
        }
    }

    fn lower_args(&self) -> (args: List<ExprTree<Bound<B>>>) {
        List::Cons {
            head: Box::new(self.value.lower()),
            tail: Box::new(
                List::Cons {
                    head: Box::new(
                        ExprTree::Literal(Encoded { outcome: self.offset.encode() }),
                    ),
                    tail: Box::new(List::Nil),
                },
            ),
        }
    }

    proof fn lemma_args_params<D: Dialect>(&self, dialect: D, bare: bool) {
        self.value.lemma_params(dialect, bare);
        let literal: Bound<B> = Encoded { outcome: self.offset.encoded() };
        let slot = seq![Token::Literal(literal)];
        assert(tokens::runtimes(slot) == 0) by {
            assert(slot.drop_last() =~= Seq::empty());
            reveal_with_fuel(tokens::runtimes, 2);
        }
        let offset = ExprTree::Literal(literal);
        assert(grammar::expr_tokens(dialect, bare, offset) == slot);
        let none = List::<ExprTree<Bound<B>>>::Nil;
        assert(grammar::expr_list_tokens(dialect, bare, ", "@, none) =~= Seq::empty());
        let last = List::Cons { head: Box::new(offset), tail: Box::new(none) };
        assert(tokens::runtimes(grammar::expr_list_tokens(dialect, bare, ", "@, last)) == 0);
        let args = List::Cons { head: Box::new(self.value.tree()), tail: Box::new(last) };
        assert(tokens::runtimes(grammar::expr_list_tokens(dialect, bare, Seq::empty(), args))
            == <ValueAst::Params as HList>::width());
        assert(self.arg_trees() == args);
    }

    proof fn lemma_args_plain(&self) {
        self.value.lemma_plain();
        let none = List::<ExprTree<Bound<B>>>::Nil;
        let offset = ExprTree::Literal(Encoded { outcome: self.offset.encoded() });
        let last = List::Cons { head: Box::new(offset), tail: Box::new(none) };
        let args = List::Cons { head: Box::new(self.value.tree()), tail: Box::new(last) };
        assert(plain::plain_exprs(none));
        assert(plain::plain_expr(offset));
        assert(plain::plain_exprs(last));
        assert(plain::plain_exprs(args));
        assert(self.arg_trees() == args);
    }
}

/// What can stand in a window: a column or an expression.
pub trait WindowOperand<'scope>: Sized {
    type Kind: ExprKind;

    type Ast: ExprAst;

    /// The node of the operand.
    spec fn window_ast(self) -> Self::Ast;

    fn into_window_ast(self) -> (ast: Self::Ast)
        ensures
            ast == self.window_ast(),
    ;
}

impl<'scope, K: ExprKind> WindowOperand<'scope> for ColumnRef<'scope, K> {
    type Kind = K;

    type Ast = ColumnExprAst<K>;

    open spec fn window_ast(self) -> Self::Ast {
        self.ast()
    }

    fn into_window_ast(self) -> (ast: Self::Ast) {
        self.into_expr().ast
    }
}

impl<'scope, K: ExprKind, A: ExprAst> WindowOperand<'scope> for Expr<'scope, K, A> {
    type Kind = K;

    type Ast = A;

    open spec fn window_ast(self) -> A {
        self.ast
    }

    fn into_window_ast(self) -> (ast: A) {
        self.ast
    }
}

/// Appends a `PARTITION BY` term behind those so far.
pub trait AppendPartition<Ast>: Sized {
    type Output;

    /// The list with one more term behind it.
    spec fn with_partition(self, ast: Ast) -> Self::Output;

    fn append_partition(self, ast: Ast) -> (list: Self::Output)
        ensures
            list == self.with_partition(ast),
    ;
}

impl<Ast> AppendPartition<Ast> for WindowNil {
    type Output = WindowPartition<Ast, WindowNil>;

    open spec fn with_partition(self, ast: Ast) -> Self::Output {
        WindowPartition { ast, rest: WindowNil }
    }

    fn append_partition(self, ast: Ast) -> (list: Self::Output) {
        WindowPartition { ast, rest: WindowNil }
    }
}

impl<Head, Rest: AppendPartition<Ast>, Ast> AppendPartition<Ast> for WindowPartition<Head, Rest> {
    type Output = WindowPartition<Head, Rest::Output>;

    open spec fn with_partition(self, ast: Ast) -> Self::Output {
        WindowPartition { ast: self.ast, rest: self.rest.with_partition(ast) }
    }

    fn append_partition(self, ast: Ast) -> (list: Self::Output) {
        WindowPartition { ast: self.ast, rest: self.rest.append_partition(ast) }
    }
}

/// Appends an `ORDER BY` term behind those so far.
pub trait AppendOrder<Ast>: Sized {
    type Output;

    /// The list with one more term behind it.
    spec fn with_order(self, ast: Ast, direction: OrderDirection) -> Self::Output;

    fn append_order(self, ast: Ast, direction: OrderDirection) -> (list: Self::Output)
        ensures
            list == self.with_order(ast, direction),
    ;
}

impl<Ast> AppendOrder<Ast> for WindowNil {
    type Output = WindowOrder<Ast, WindowNil>;

    open spec fn with_order(self, ast: Ast, direction: OrderDirection) -> Self::Output {
        WindowOrder { ast, dir: direction, rest: WindowNil }
    }

    fn append_order(self, ast: Ast, direction: OrderDirection) -> (list: Self::Output) {
        WindowOrder { ast, dir: direction, rest: WindowNil }
    }
}

impl<Head, Rest: AppendOrder<Ast>, Ast> AppendOrder<Ast> for WindowOrder<Head, Rest> {
    type Output = WindowOrder<Head, Rest::Output>;

    open spec fn with_order(self, ast: Ast, direction: OrderDirection) -> Self::Output {
        WindowOrder { ast: self.ast, dir: self.dir, rest: self.rest.with_order(ast, direction) }
    }

    fn append_order(self, ast: Ast, direction: OrderDirection) -> (list: Self::Output) {
        WindowOrder { ast: self.ast, dir: self.dir, rest: self.rest.append_order(ast, direction) }
    }
}

/// The `OVER` clause under construction.
pub struct Window<'scope, Parts, Ords> {
    pub partitions: Parts,
    pub orders: Ords,
    pub _scope: PhantomData<&'scope ()>,
}

impl<'scope> Window<'scope, WindowNil, WindowNil> {
    /// The clause without terms.
    pub open spec fn empty() -> Self {
        Window { partitions: WindowNil, orders: WindowNil, _scope: PhantomData }
    }

    fn new() -> (window: Self)
        ensures
            window == Self::empty(),
    {
        Window { partitions: WindowNil, orders: WindowNil, _scope: PhantomData }
    }
}

impl<'scope, Parts, Ords> Window<'scope, Parts, Ords> {
    /// Adds a `PARTITION BY` term.
    pub fn partition_by<E: WindowOperand<'scope>>(self, key: E) -> (window: Window<
        'scope,
        <Parts as AppendPartition<E::Ast>>::Output,
        Ords,
    >) where E::Ast: NonAggregateAst, Parts: AppendPartition<E::Ast>
        ensures
            window.partitions == self.partitions.with_partition(key.window_ast()),
            window.orders == self.orders,
    {
        Window {
            partitions: self.partitions.append_partition(key.into_window_ast()),
            orders: self.orders,
            _scope: PhantomData,
        }
    }

    /// Adds an `ORDER BY` term.
    pub fn order_by<K, Ast: ExprAst + NonAggregateAst>(self, order: Order<'scope, K, Ast>) -> (window:
        Window<'scope, Parts, <Ords as AppendOrder<Ast>>::Output>) where Ords: AppendOrder<Ast>
        ensures
            window.partitions == self.partitions,
            window.orders == self.orders.with_order(order.ast, order.direction),
    {
        Window {
            partitions: self.partitions,
            orders: self.orders.append_order(order.ast, order.direction),
            _scope: PhantomData,
        }
    }
}

impl<'scope, K, Operand: ExprAst> Expr<'scope, K, AggregateExprAst<Operand, false>> {
    /// Makes this aggregate count each distinct value of its operand once.
    pub fn distinct(self) -> (expr: Expr<'scope, K, AggregateExprAst<Operand, true>>)
        ensures
            expr.ast.func == self.ast.func,
            expr.ast.cast == self.ast.cast,
            expr.ast.operand == self.ast.operand,
            expr.project_alias == self.project_alias,
    {
        Expr {
            ast: AggregateExprAst {
                func: self.ast.func,
                cast: self.ast.cast,
                operand: self.ast.operand,
            },
            project_alias: self.project_alias,
            _phantom: PhantomData,
        }
    }

    /// Makes this aggregate a window function over the clause that `build` gives.
    pub fn over<F, Parts, Ords>(self, build: F) -> (expr: Expr<
        'scope,
        K,
        WindowExprAst<WindowArg<Operand>, Parts, Ords>,
    >) where
        F: FnOnce(Window<'scope, WindowNil, WindowNil>) -> Window<'scope, Parts, Ords>,
        WindowExprAst<WindowArg<Operand>, Parts, Ords>: ExprAst,

        requires
            call_requires(build, (Window::empty(),)),
        ensures
            expr.ast.func == WindowFunc::Aggregate(self.ast.func),
            expr.ast.cast == self.ast.cast,
            expr.ast.operand.ast == self.ast.operand,
            call_ensures(
                build,
                (Window::empty(),),
                (Window {
                    partitions: expr.ast.partitions,
                    orders: expr.ast.orders,
                    _scope: PhantomData,
                }),
            ),
            expr.project_alias == Label::Static("expr"),
    {
        let window = build(Window::new());
        Expr {
            ast: WindowExprAst {
                func: WindowFunc::Aggregate(self.ast.func),
                cast: self.ast.cast,
                operand: WindowArg { ast: self.ast.operand },
                partitions: window.partitions,
                orders: window.orders,
            },
            project_alias: Label::Static("expr"),
            _phantom: PhantomData,
        }
    }
}

/// A window function that still lacks its `OVER` clause.
pub struct PendingWindow<'scope, K, Operand> {
    pub func: WindowFunc,
    pub cast: Option<SqlType>,
    pub operand: Operand,
    pub _marker: PhantomData<(&'scope (), K)>,
}

impl<'scope, K, Operand: ExprAst> PendingWindow<'scope, K, Operand> {
    /// Completes the function with the `OVER` clause that `build` gives.
    pub fn over<F, Parts, Ords>(self, build: F) -> (expr: Expr<
        'scope,
        K,
        WindowExprAst<Operand, Parts, Ords>,
    >) where
        F: FnOnce(Window<'scope, WindowNil, WindowNil>) -> Window<'scope, Parts, Ords>,
        WindowExprAst<Operand, Parts, Ords>: ExprAst,

        requires
            call_requires(build, (Window::empty(),)),
        ensures
            expr.ast.func == self.func,
            expr.ast.cast == self.cast,
            expr.ast.operand == self.operand,
            call_ensures(
                build,
                (Window::empty(),),
                (Window {
                    partitions: expr.ast.partitions,
                    orders: expr.ast.orders,
                    _scope: PhantomData,
                }),
            ),
            expr.project_alias == Label::Static("expr"),
    {
        let window = build(Window::new());
        Expr {
            ast: WindowExprAst {
                func: self.func,
                cast: self.cast,
                operand: self.operand,
                partitions: window.partitions,
                orders: window.orders,
            },
            project_alias: Label::Static("expr"),
            _phantom: PhantomData,
        }
    }
}

/// `ROW_NUMBER()`: the number of the row in its window.
pub fn row_number<'scope>() -> (pending: PendingWindow<'scope, i64, WindowNoArg>)
    ensures
        pending.func == WindowFunc::RowNumber,
        pending.cast is None,
{
    PendingWindow {
        func: WindowFunc::RowNumber,
        cast: None,
        operand: WindowNoArg,
        _marker: PhantomData,
    }
}

/// `RANK()`: the rank of the row, with gaps after ties.
pub fn rank<'scope>() -> (pending: PendingWindow<'scope, i64, WindowNoArg>)
    ensures
        pending.func == WindowFunc::Rank,
        pending.cast is None,
{
    PendingWindow { func: WindowFunc::Rank, cast: None, operand: WindowNoArg, _marker: PhantomData }
}

/// `DENSE_RANK()`: the rank of the row, without gaps.
pub fn dense_rank<'scope>() -> (pending: PendingWindow<'scope, i64, WindowNoArg>)
    ensures
        pending.func == WindowFunc::DenseRank,
        pending.cast is None,
{
    PendingWindow {
        func: WindowFunc::DenseRank,
        cast: None,
        operand: WindowNoArg,
        _marker: PhantomData,
    }
}

/// `NTILE(buckets)`: the ranked group of the row.
pub fn ntile<'scope>(buckets: i32) -> (pending: PendingWindow<
    'scope,
    i32,
    WindowArg<LiteralExprAst<i32>>,
>)
    ensures
        pending.func == WindowFunc::Ntile,
        pending.cast is None,
        pending.operand.ast.value == buckets,
{
    PendingWindow {
        func: WindowFunc::Ntile,
        cast: None,
        operand: WindowArg { ast: LiteralExprAst { value: buckets, _kind: PhantomData } },
        _marker: PhantomData,
    }
}

/// `LAG(value, offset)`: the value `offset` rows before the current one, `NULL` beyond the window.
pub fn lag<'scope, E: WindowOperand<'scope>>(value: E, offset: i32) -> (pending: PendingWindow<
    'scope,
    <E::Kind as IntoWindowNullable>::Kind,
    LagArgsAst<E::Ast>,
>) where E::Ast: NonAggregateAst, E::Kind: IntoWindowNullable
    ensures
        pending.func == WindowFunc::Lag,
        pending.cast is None,
        pending.operand == (LagArgsAst { value: value.window_ast(), offset }),
{
    PendingWindow {
        func: WindowFunc::Lag,
        cast: None,
        operand: LagArgsAst { value: value.into_window_ast(), offset },
        _marker: PhantomData,
    }
}

/// `LEAD(value, offset)`: the value `offset` rows after the current one, `NULL` beyond the window.
pub fn lead<'scope, E: WindowOperand<'scope>>(value: E, offset: i32) -> (pending: PendingWindow<
    'scope,
    <E::Kind as IntoWindowNullable>::Kind,
    LagArgsAst<E::Ast>,
>) where E::Ast: NonAggregateAst, E::Kind: IntoWindowNullable
    ensures
        pending.func == WindowFunc::Lead,
        pending.cast is None,
        pending.operand == (LagArgsAst { value: value.window_ast(), offset }),
{
    PendingWindow {
        func: WindowFunc::Lead,
        cast: None,
        operand: LagArgsAst { value: value.into_window_ast(), offset },
        _marker: PhantomData,
    }
}

} // verus!
