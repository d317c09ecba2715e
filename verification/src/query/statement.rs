//! `INSERT`, `UPDATE` and `DELETE` statements, and how they are built.
use crate::backend::{Backend, Bound, Decode, SupportsReturning};
use crate::connection::QueryBuilder;
use crate::dialect::Dialect;
use crate::dialect;
use crate::expr::class::{
    NonAggregatePredicate, ProjectionClass, ReturnableProjection, ScalarProjection,
};
use crate::expr::kind::{ExprKind, PredicateKind, ProjectionParams};
use crate::expr::predicate::PredicateAst;
use crate::expr::{ColumnRef, Predicate};
use crate::grammar;
use crate::label::Duplicate;
use crate::list::{HAppend, HCons, HList, HNil, NoRuntimeParams, PushBack};
use crate::ops::SourceAlias;
use crate::projection::{
    table_ref, InsertableTable, ProjectionShape, QuerySource, RenderProjectable, TableProjection,
    UpdateableTable,
};
use crate::projection;
use crate::query::assign::{
    InsertAssignments, InsertColumnValues, InsertRow, InsertRows, NonEmptyInsertRows,
    PredicateNodes, PushInsertRow, RenderInsertRows, RenderPredicateNodes,
    RenderUpdateAssignments, UpdateAssignments, UpdateColumnValues,
};
use crate::query::chain::ReturningProjection;
use crate::query::select::{FromChain, RootExprs, Where};
use crate::query::source::RootSource;
use crate::tokens;
use crate::tree::{ConflictAction, ConflictClause, DeleteTree, InsertTree, UpdateTree};
use core::marker::PhantomData;
use vstd::prelude::*;

verus! {

broadcast use crate::tokens::group_tokens;

/// State of a mutation that does not say yet which rows it is about.
pub enum MutationUnfiltered {
    Marker,
}

/// State of a mutation that says which rows it is about: some, by a condition, or all.
pub enum MutationFiltered {
    Marker,
}

/// The columns whose uniqueness decides an upsert: one column, or a tuple.
pub trait ConflictTarget: Sized {
    /// The names of the columns, in their order.
    spec fn names(self) -> Seq<Seq<char>>;

    fn column_names(self) -> (names: Vec<String>)
        ensures
            dialect::strings_view(names@) == self.names(),
    ;
}

impl<'scope, K: ExprKind> ConflictTarget for ColumnRef<'scope, K> {
    open spec fn names(self) -> Seq<Seq<char>> {
        seq![self.column@]
    }

    fn column_names(self) -> (names: Vec<String>) {
        let mut names: Vec<String> = Vec::new();
        names.push(String::from_str(self.column));
        assert(dialect::strings_view(names@) =~= seq![self.column@]);
        names
    }
}

fn append_names(mut names: Vec<String>, more: Vec<String>) -> (all: Vec<String>)
    ensures
        dialect::strings_view(all@) == dialect::strings_view(names@) + dialect::strings_view(more@),
{
    let mut more = more;
    let ghost before = names@;
    let ghost added = more@;
    names.append(&mut more);
    assert(dialect::strings_view(names@) =~= dialect::strings_view(before) + dialect::strings_view(
        added,
    ));
    names
}

impl<T0: ConflictTarget> ConflictTarget for (T0,) {
    open spec fn names(self) -> Seq<Seq<char>> {
        self.0.names()
    }

    fn column_names(self) -> (names: Vec<String>) {
        let names = self.0.column_names();
        names
    }
}

impl<T0: ConflictTarget, T1: ConflictTarget> ConflictTarget for (T0, T1) {
    open spec fn names(self) -> Seq<Seq<char>> {
        self.0.names() + self.1.names()
    }

    fn column_names(self) -> (names: Vec<String>) {
        let names = self.0.column_names();
        let names = append_names(names, self.1.column_names());
        names
    }
}

impl<T0: ConflictTarget, T1: ConflictTarget, T2: ConflictTarget> ConflictTarget for (T0, T1, T2) {
    open spec fn names(self) -> Seq<Seq<char>> {
        self.0.names() + self.1.names() + self.2.names()
    }

    fn column_names(self) -> (names: Vec<String>) {
        let names = self.0.column_names();
        let names = append_names(names, self.1.column_names());
        let names = append_names(names, self.2.column_names());
        names
    }
}

impl<T0: ConflictTarget, T1: ConflictTarget, T2: ConflictTarget, T3: ConflictTarget> ConflictTarget for (T0, T1, T2, T3) {
    open spec fn names(self) -> Seq<Seq<char>> {
        self.0.names() + self.1.names() + self.2.names() + self.3.names()
    }

    fn column_names(self) -> (names: Vec<String>) {
        let names = self.0.column_names();
        let names = append_names(names, self.1.column_names());
        let names = append_names(names, self.2.column_names());
        let names = append_names(names, self.3.column_names());
        names
    }
}

/// The columns of a table that a `RETURNING` clause can use.
pub open spec fn returned<'scope, S: ProjectionShape>(alias: SourceAlias) -> S::Exprs<'scope> {
    S::shape_exprs(alias)
}

/// An `INSERT` of rows into `S`.
pub struct InsertStatement<'conn, Conn, S, Rows, Returning> {
    pub connection: &'conn Conn,
    pub rows: Rows,
    pub returning: Returning,
    pub conflict: Option<ConflictClause>,
    pub _table: PhantomData<S>,
}

impl<'conn, Conn, S: TableProjection, Rows: InsertRows, Returning> InsertStatement<
    'conn,
    Conn,
    S,
    Rows,
    Returning,
> {
    /// The statement as a tree.
    pub open spec fn insert_tree<B: Backend>(&self) -> InsertTree<Bound<B>> where
        Rows: RenderInsertRows<B>,
        Returning: RenderProjectable<B>,
     {
        InsertTree {
            table: projection::table_of::<S>(),
            rows: self.rows.rows(),
            conflict: self.conflict,
            returning: self.returning.items(),
        }
    }

    pub fn lower<B: Backend>(self) -> (insert: InsertTree<Bound<B>>) where
        Rows: RenderInsertRows<B>,
        Returning: RenderProjectable<B>,

        ensures
            insert == self.insert_tree::<B>(),
    {
        InsertTree {
            table: table_ref::<S>(),
            rows: self.rows.lower_rows(),
            conflict: self.conflict,
            returning: self.returning.lower_projection(),
        }
    }

    /// Whether every row assigns the same columns.
    pub open spec fn uniform(&self) -> bool {
        uniform_rows(self.rows.row_columns())
    }

    /// Rows that assign the same columns are all written.
    pub proof fn law_uniform_rows_agree<B: Backend>(&self) where
        Rows: RenderInsertRows<B>,
        Returning: RenderProjectable<B>,

        requires
            self.uniform(),
        ensures
            grammar::insert_rows_agree(self.insert_tree::<B>()),
    {
        let columns = self.rows.row_columns();
        let count = if columns.len() > 0 {
            columns[0].len()
        } else {
            0
        };
        self.rows.lemma_row_columns(count);
    }
}

/// Whether every row assigns the same columns.
pub open spec fn uniform_rows(rows: Seq<Seq<&'static str>>) -> bool {
    forall|i: int| 0 <= i < rows.len() ==> #[trigger] rows[i] == rows[0]
}

/// An `UPDATE` of `S`.
pub struct UpdateStatement<'conn, Conn, S, Columns, Filters, Returning> {
    pub connection: &'conn Conn,
    pub alias: SourceAlias,
    pub columns: Columns,
    pub filters: Filters,
    pub returning: Returning,
    pub _table: PhantomData<S>,
}

impl<
    'conn,
    Conn,
    S: TableProjection,
    Columns: UpdateAssignments,
    Filters: PredicateNodes,
    Returning,
> UpdateStatement<'conn, Conn, S, Columns, Filters, Returning> {
    /// The statement as a tree.
    pub open spec fn update_tree<B: Backend>(&self) -> UpdateTree<Bound<B>> where
        Columns: RenderUpdateAssignments<B>,
        Filters: RenderPredicateNodes<B>,
        Returning: RenderProjectable<B>,
     {
        UpdateTree {
            table: projection::table_of::<S>(),
            alias: self.alias,
            columns: self.columns.assignments(),
            filters: self.filters.conditions(),
            returning: self.returning.items(),
        }
    }

    pub fn lower<B: Backend>(&self) -> (update: UpdateTree<Bound<B>>) where
        Columns: RenderUpdateAssignments<B>,
        Filters: RenderPredicateNodes<B>,
        Returning: RenderProjectable<B>,

        ensures
            update == self.update_tree::<B>(),
    {
        UpdateTree {
            table: table_ref::<S>(),
            alias: self.alias,
            columns: self.columns.lower_assignments(),
            filters: self.filters.lower_conditions(),
            returning: self.returning.lower_projection(),
        }
    }

    /// The statement is written with the runtime parameters of its assignments, of its conditions
    /// and of what it returns, and no others.
    pub proof fn law_update_params<B: Backend, D: Dialect>(&self, dialect: D) where
        Columns: RenderUpdateAssignments<B>,
        Filters: RenderPredicateNodes<B>,
        Returning: RenderProjectable<B>,

        ensures
            tokens::runtimes(grammar::update_tokens(dialect, self.update_tree::<B>()))
                == <Columns::Params as HList>::width() + <Filters::Params as HList>::width()
                + <Returning::Params as HList>::width(),
    {
        self.columns.lemma_assignments_params(dialect, true);
        self.filters.lemma_conditions_params(dialect, " WHERE "@);
        self.returning.lemma_projection_params(dialect, false, " RETURNING "@);
    }
}

/// A `DELETE` from `S`.
pub struct DeleteStatement<'conn, Conn, S, Filters, Returning> {
    pub connection: &'conn Conn,
    pub alias: SourceAlias,
    pub filters: Filters,
    pub returning: Returning,
    pub _table: PhantomData<S>,
}

impl<'conn, Conn, S: TableProjection, Filters: PredicateNodes, Returning> DeleteStatement<
    'conn,
    Conn,
    S,
    Filters,
    Returning,
> {
    /// The statement as a tree.
    pub open spec fn delete_tree<B: Backend>(&self) -> DeleteTree<Bound<B>> where
        Filters: RenderPredicateNodes<B>,
        Returning: RenderProjectable<B>,
     {
        DeleteTree {
            table: projection::table_of::<S>(),
            alias: self.alias,
            filters: self.filters.conditions(),
            returning: self.returning.items(),
        }
    }

    pub fn lower<B: Backend>(&self) -> (delete: DeleteTree<Bound<B>>) where
        Filters: RenderPredicateNodes<B>,
        Returning: RenderProjectable<B>,

        ensures
            delete == self.delete_tree::<B>(),
    {
        DeleteTree {
            table: table_ref::<S>(),
            alias: self.alias,
            filters: self.filters.lower_conditions(),
            returning: self.returning.lower_projection(),
        }
    }

    /// The statement is written with the runtime parameters of its conditions and of what it
    /// returns, and no others.
    pub proof fn law_delete_params<B: Backend, D: Dialect>(&self, dialect: D) where
        Filters: RenderPredicateNodes<B>,
        Returning: RenderProjectable<B>,

        ensures
            tokens::runtimes(grammar::delete_tokens(dialect, self.delete_tree::<B>()))
                == <Filters::Params as HList>::width() + <Returning::Params as HList>::width(),
    {
        self.filters.lemma_conditions_params(dialect, " WHERE "@);
        self.returning.lemma_projection_params(dialect, false, " RETURNING "@);
    }
}

/// An upsert of one row that still needs its action.
pub struct OnConflict<'conn, Conn, S, InsertColumns> {
    pub connection: &'conn Conn,
    pub insert_columns: InsertColumns,
    pub target: Vec<String>,
    pub _table: PhantomData<S>,
}

/// An upsert of one row.
pub struct Upsert<'conn, Conn, S, InsertColumns> {
    pub connection: &'conn Conn,
    pub insert_columns: InsertColumns,
    pub conflict: ConflictClause,
    pub _table: PhantomData<S>,
}

impl<'conn, Conn, S, InsertColumns> OnConflict<'conn, Conn, S, InsertColumns> {
    pub fn new(
        connection: &'conn Conn,
        insert_columns: InsertColumns,
        target: Vec<String>,
    ) -> (upsert: Self)
        ensures
            upsert.connection == connection,
            upsert.insert_columns == insert_columns,
            upsert.target == target,
    {
        OnConflict { connection, insert_columns, target, _table: PhantomData }
    }

    /// Leaves a row that is already there alone.
    pub fn do_nothing(self) -> (upsert: Upsert<'conn, Conn, S, InsertColumns>)
        ensures
            upsert.connection == self.connection,
            upsert.insert_columns == self.insert_columns,
            upsert.conflict == (ConflictClause {
                target: self.target,
                action: ConflictAction::DoNothing,
            }),
    {
        Upsert {
            connection: self.connection,
            insert_columns: self.insert_columns,
            conflict: ConflictClause { target: self.target, action: ConflictAction::DoNothing },
            _table: PhantomData,
        }
    }

    /// Gives every inserted column of a row that is already there the proposed value.
    pub fn do_update(self) -> (upsert: Upsert<'conn, Conn, S, InsertColumns>)
        ensures
            upsert.connection == self.connection,
            upsert.insert_columns == self.insert_columns,
            upsert.conflict == (ConflictClause {
                target: self.target,
                action: ConflictAction::DoUpdateExcluded,
            }),
    {
        Upsert {
            connection: self.connection,
            insert_columns: self.insert_columns,
            conflict: ConflictClause {
                target: self.target,
                action: ConflictAction::DoUpdateExcluded,
            },
            _table: PhantomData,
        }
    }
}

/// A query builder whose backend can write an upsert.
pub trait OnConflictQueryBuilder: QueryBuilder {
    /// An `INSERT` with a conflict clause.
    fn build_upsert<'conn, S, Rows, Returning>(
        &'conn self,
        rows: Rows,
        returning: Returning,
        conflict: ConflictClause,
    ) -> (statement: InsertStatement<'conn, Self, S, Rows, Returning>)
        ensures
            statement.connection == self,
            statement.rows == rows,
            statement.returning == returning,
            statement.conflict == Some(conflict),
    {
        InsertStatement {
            connection: self,
            rows,
            returning,
            conflict: Some(conflict),
            _table: PhantomData,
        }
    }
}

/// The rows of an `INSERT` of one row.
pub type OneRow<Columns> = HCons<InsertRow<Columns>, HNil>;

impl<
    'conn,
    Conn: OnConflictQueryBuilder,
    S: InsertableTable,
    InsertColumns: InsertAssignments,
> Upsert<'conn, Conn, S, InsertColumns> where InsertColumns::Params: HAppend<HNil> {
    /// The statement, without a `RETURNING` clause.
    pub fn insert(self) -> (statement: InsertStatement<'conn, Conn, S, OneRow<InsertColumns>, ()>) where
        <OneRow<InsertColumns> as InsertRows>::Params: NoRuntimeParams,

        ensures
            statement.connection == self.connection,
            statement.rows == (HCons { head: InsertRow { columns: self.insert_columns }, tail: HNil }),
            statement.conflict == Some(self.conflict),
            statement.uniform(),
    {
        let rows = HCons { head: InsertRow::new(self.insert_columns), tail: HNil };
        self.connection.build_upsert::<S, _, ()>(rows, (), self.conflict)
    }

    /// The statement, with a `RETURNING` clause.
    pub fn insert_returning<Returned: ReturningProjection<'static> + ProjectionClass<
        Class = ScalarProjection,
    > + ReturnableProjection + ProjectionParams<Params = HNil>, F: FnOnce(
        <S as ProjectionShape>::Exprs<'static>,
    ) -> Returned>(self, projection: F) -> (statement: InsertStatement<
        'conn,
        Conn,
        S,
        OneRow<InsertColumns>,
        Returned,
    >) where
        Conn::Backend: SupportsReturning,
        <Returned::Shape as ProjectionShape>::Row: Decode<Conn::Backend>,

        requires
            call_requires(projection, (returned::<S>(SourceAlias { depth: 0, index: 0 }),)),
        ensures
            statement.connection == self.connection,
            statement.rows == (HCons { head: InsertRow { columns: self.insert_columns }, tail: HNil }),
            statement.conflict == Some(self.conflict),
            statement.uniform(),
            call_ensures(
                projection,
                (returned::<S>(SourceAlias { depth: 0, index: 0 }),),
                statement.returning,
            ),
    {
        let rows = HCons { head: InsertRow::new(self.insert_columns), tail: HNil };
        let table = <S as ProjectionShape>::exprs(SourceAlias::new(0, 0));
        let returning = projection(table);
        self.connection.build_upsert::<S, _, _>(rows, returning, self.conflict)
    }
}

/// Builds a mutation of a fixed tuple of columns.
pub struct ToColumns<'conn, Conn, S, Columns, Rows> {
    pub connection: &'conn Conn,
    pub rows: Rows,
    pub _table: PhantomData<S>,
    pub _columns: PhantomData<Columns>,
}

/// Builds the explicit rows of an insert.
pub type InsertRowsBuilder<'conn, Conn, S, Columns, Rows> = ToColumns<
    'conn,
    Conn,
    S,
    Columns,
    Rows,
>;

impl<'conn, Conn, S, Columns> ToColumns<'conn, Conn, S, Columns, HNil> {
    pub(crate) fn new(connection: &'conn Conn) -> (builder: Self)
        ensures
            builder.connection == connection,
            builder.rows == HNil,
            uniform_rows(builder.rows.row_columns()),
    {
        ToColumns { connection, rows: HNil, _table: PhantomData, _columns: PhantomData }
    }
}

impl<'conn, Conn: QueryBuilder, S: InsertableTable, Columns, Rows: InsertRows> ToColumns<
    'conn,
    Conn,
    S,
    Columns,
    Rows,
> {
    /// Adds a row. Every row of the builder assigns the builder's columns.
    pub fn row<Values>(self, values: Values) -> (builder: ToColumns<
        'conn,
        Conn,
        S,
        Columns,
        <Rows as PushInsertRow<<Columns as InsertColumnValues<S, Values>>::Assignments>>::Output,
    >) where
        Columns: InsertColumnValues<S, Values>,
        Rows: PushInsertRow<<Columns as InsertColumnValues<S, Values>>::Assignments>,

        ensures
            builder.connection == self.connection,
            exists|row: InsertRow<<Columns as InsertColumnValues<S, Values>>::Assignments>|
                builder.rows == #[trigger] self.rows.with_row(row) && Columns::assigns(
                    values,
                    row.columns,
                ),
            builder.rows.row_columns() == self.rows.row_columns().push(
                <Columns as InsertColumnValues<S, Values>>::column_names(),
            ),
    {
        let row = InsertRow::new(Columns::into_insert_assignments(values));
        ToColumns {
            connection: self.connection,
            rows: self.rows.push_row(row),
            _table: PhantomData,
            _columns: PhantomData,
        }
    }

    /// The statement, without a `RETURNING` clause.
    pub fn insert(self) -> (statement: InsertStatement<'conn, Conn, S, Rows, ()>) where
        Rows: NonEmptyInsertRows,
        Rows::Params: NoRuntimeParams,

        ensures
            statement.connection == self.connection,
            statement.rows == self.rows,
            statement.conflict is None,
    {
        InsertStatement {
            connection: self.connection,
            rows: self.rows,
            returning: (),
            conflict: None,
            _table: PhantomData,
        }
    }

    /// The statement, with a `RETURNING` clause.
    pub fn insert_returning<Returned: ReturningProjection<'static> + ProjectionClass<
        Class = ScalarProjection,
    > + ReturnableProjection + ProjectionParams<Params = HNil>, F: FnOnce(
        <S as ProjectionShape>::Exprs<'static>,
    ) -> Returned>(self, projection: F) -> (statement: InsertStatement<
        'conn,
        Conn,
        S,
        Rows,
        Returned,
    >) where
        Rows: NonEmptyInsertRows,
        Conn::Backend: SupportsReturning,
        <Returned::Shape as ProjectionShape>::Row: Decode<Conn::Backend>,

        requires
            call_requires(projection, (returned::<S>(SourceAlias { depth: 0, index: 0 }),)),
        ensures
            statement.connection == self.connection,
            statement.rows == self.rows,
            statement.conflict is None,
            call_ensures(
                projection,
                (returned::<S>(SourceAlias { depth: 0, index: 0 }),),
                statement.returning,
            ),
    {
        let table = <S as ProjectionShape>::exprs(SourceAlias::new(0, 0));
        let returning = projection(table);
        InsertStatement {
            connection: self.connection,
            rows: self.rows,
            returning,
            conflict: None,
            _table: PhantomData,
        }
    }
}

/// Every row that a builder adds assigns the builder's columns, so a builder that starts without rows
/// only ever has rows that assign the same columns.
pub proof fn law_rows_stay_uniform(
    rows: Seq<Seq<&'static str>>,
    columns: Seq<&'static str>,
    added: Seq<Seq<&'static str>>,
)
    requires
        forall|i: int| 0 <= i < rows.len() ==> #[trigger] rows[i] == columns,
        added == rows.push(columns),
    ensures
        forall|i: int| 0 <= i < added.len() ==> #[trigger] added[i] == columns,
        uniform_rows(added),
{
}

impl<'conn, Conn: QueryBuilder, S: UpdateableTable, Columns> ToColumns<
    'conn,
    Conn,
    S,
    Columns,
    HNil,
> {
    /// Starts an update of the builder's columns. The values may use the columns of the table.
    pub fn set<Values, F: FnOnce(<S as ProjectionShape>::Exprs<'static>) -> Values>(
        self,
        values: F,
    ) -> (builder: ExplicitUpdateBuilder<
        'conn,
        Conn,
        S,
        <Columns as UpdateColumnValues<S, Values>>::Assignments,
        HNil,
        MutationUnfiltered,
    >) where Columns: UpdateColumnValues<S, Values>
        requires
            call_requires(values, (returned::<S>(SourceAlias { depth: 0, index: 0 }),)),
        ensures
            builder.connection == self.connection,
            builder.alias == (SourceAlias { depth: 0, index: 0 }),
            builder.filters == HNil,
            exists|given: Values|
                call_ensures(
                    values,
                    (returned::<S>(SourceAlias { depth: 0, index: 0 }),),
                    given,
                ) && #[trigger] Columns::assigns(given, builder.columns),
    {
        let alias = SourceAlias::new(0, 0);
        let table = <S as ProjectionShape>::exprs(alias);
        let given = values(table);
        let columns = Columns::into_update_assignments(given);
        let builder = ExplicitUpdateBuilder {
            connection: self.connection,
            alias,
            columns,
            filters: HNil,
            _table: PhantomData,
            _state: PhantomData,
        };
        assert(Columns::assigns(given, builder.columns));
        builder
    }
}

/// Builds an update. It can be finished only once it says which rows it is about.
pub struct ExplicitUpdateBuilder<'conn, Conn, S, Columns, Filters, FilterState> {
    pub connection: &'conn Conn,
    pub alias: SourceAlias,
    pub columns: Columns,
    pub filters: Filters,
    pub _table: PhantomData<S>,
    pub _state: PhantomData<FilterState>,
}

impl<
    'conn,
    Conn: QueryBuilder,
    S: UpdateableTable,
    Columns: UpdateAssignments,
    Filters: PredicateNodes,
    FilterState,
> ExplicitUpdateBuilder<'conn, Conn, S, Columns, Filters, FilterState> {
    /// Adds a condition behind those that the update has.
    pub fn where_<
        P: PredicateKind,
        Ast: PredicateAst + NonAggregatePredicate,
        F: FnOnce(<S as ProjectionShape>::Exprs<'static>) -> Predicate<'static, P, Ast>,
    >(self, predicate: F) -> (builder: ExplicitUpdateBuilder<
        'conn,
        Conn,
        S,
        Columns,
        <Filters as PushBack<Predicate<'static, P, Ast>>>::Output,
        MutationFiltered,
    >) where Filters: PushBack<Predicate<'static, P, Ast>>
        requires
            call_requires(predicate, (returned::<S>(self.alias),)),
        ensures
            builder.connection == self.connection,
            builder.alias == self.alias,
            builder.columns == self.columns,
            exists|condition: Predicate<'static, P, Ast>|
                call_ensures(predicate, (returned::<S>(self.alias),), condition)
                    && builder.filters == #[trigger] self.filters.pushed(condition),
    {
        let table = <S as ProjectionShape>::exprs(self.alias);
        let condition = predicate(table);
        ExplicitUpdateBuilder {
            connection: self.connection,
            alias: self.alias,
            columns: self.columns,
            filters: self.filters.push_back(condition),
            _table: PhantomData,
            _state: PhantomData,
        }
    }

    /// Says that the update is about every row that its conditions leave.
    pub fn all(self) -> (builder: ExplicitUpdateBuilder<
        'conn,
        Conn,
        S,
        Columns,
        Filters,
        MutationFiltered,
    >)
        ensures
            builder.connection == self.connection,
            builder.alias == self.alias,
            builder.columns == self.columns,
            builder.filters == self.filters,
    {
        ExplicitUpdateBuilder {
            connection: self.connection,
            alias: self.alias,
            columns: self.columns,
            filters: self.filters,
            _table: PhantomData,
            _state: PhantomData,
        }
    }
}

impl<
    'conn,
    Conn: QueryBuilder,
    S: UpdateableTable,
    Columns: UpdateAssignments,
    Filters: PredicateNodes,
> ExplicitUpdateBuilder<'conn, Conn, S, Columns, Filters, MutationFiltered> {
    /// The statement, without a `RETURNING` clause.
    pub fn update(self) -> (statement: UpdateStatement<'conn, Conn, S, Columns, Filters, ()>) where
        Columns::Params: NoRuntimeParams,
        Filters::Params: NoRuntimeParams,

        ensures
            statement.connection == self.connection,
            statement.alias == self.alias,
            statement.columns == self.columns,
            statement.filters == self.filters,
    {
        UpdateStatement {
            connection: self.connection,
            alias: self.alias,
            columns: self.columns,
            filters: self.filters,
            returning: (),
            _table: PhantomData,
        }
    }

    /// The statement, with a `RETURNING` clause.
    pub fn update_returning<Returned: ReturningProjection<'static> + ProjectionClass<
        Class = ScalarProjection,
    > + ReturnableProjection + ProjectionParams<Params = HNil>, F: FnOnce(
        <S as ProjectionShape>::Exprs<'static>,
    ) -> Returned>(self, projection: F) -> (statement: UpdateStatement<
        'conn,
        Conn,
        S,
        Columns,
        Filters,
        Returned,
    >) where
        Conn::Backend: SupportsReturning,
        <Returned::Shape as ProjectionShape>::Row: Decode<Conn::Backend>,

        requires
            call_requires(projection, (returned::<S>(self.alias),)),
        ensures
            statement.connection == self.connection,
            statement.alias == self.alias,
            statement.columns == self.columns,
            statement.filters == self.filters,
            call_ensures(projection, (returned::<S>(self.alias),), statement.returning),
    {
        let table = <S as ProjectionShape>::exprs(self.alias);
        let returning = projection(table);
        UpdateStatement {
            connection: self.connection,
            alias: self.alias,
            columns: self.columns,
            filters: self.filters,
            returning,
            _table: PhantomData,
        }
    }
}

/// A delete that is about all rows of its source.
pub struct AllRows<Base> {
    pub base: Base,
}

impl<'conn, 'scope, Conn, S: QuerySource> FromChain<
    'conn,
    'scope,
    Conn,
    RootExprs<'scope, S>,
    RootSource<S>,
> {
    /// Says that a delete is about every row.
    pub fn all(self) -> (rows: AllRows<Self>)
        ensures
            rows.base == self,
    {
        AllRows { base: self }
    }
}

/// A chain that can become a delete: one source, and conditions.
pub trait DeleteSourceAst<'conn, 'scope, Conn: QueryBuilder + 'conn>: Sized {
    type Table: TableProjection;

    type Filters: PredicateNodes;

    spec fn delete_connection(&self) -> &'conn Conn;

    spec fn delete_depth(&self) -> usize;

    /// The conditions, in the order in which the chain added them.
    spec fn delete_filters(&self) -> Self::Filters;

    fn into_delete_parts(self) -> (parts: (&'conn Conn, usize, Self::Filters))
        ensures
            parts.0 == self.delete_connection(),
            parts.1 == self.delete_depth(),
            parts.2 == self.delete_filters(),
    ;
}

impl<'conn, 'scope, Conn: QueryBuilder + 'conn, S: QuerySource> DeleteSourceAst<
    'conn,
    'scope,
    Conn,
> for FromChain<'conn, 'scope, Conn, RootExprs<'scope, S>, RootSource<S>> {
    type Table = S;

    type Filters = HNil;

    open spec fn delete_connection(&self) -> &'conn Conn {
        self.connection
    }

    open spec fn delete_depth(&self) -> usize {
        self.depth
    }

    open spec fn delete_filters(&self) -> HNil {
        HNil
    }

    fn into_delete_parts(self) -> (parts: (&'conn Conn, usize, HNil)) {
        (self.connection, self.depth, HNil)
    }
}

impl<
    'conn,
    'scope,
    Conn: QueryBuilder + 'conn,
    Base: DeleteSourceAst<'conn, 'scope, Conn>,
    P: PredicateKind,
    Ast: PredicateAst,
> DeleteSourceAst<'conn, 'scope, Conn> for Where<'scope, Base, P, Ast> where
    Base::Filters: PushBack<Predicate<'scope, P, Ast>>,
    <Base::Filters as PushBack<Predicate<'scope, P, Ast>>>::Output: PredicateNodes,
 {
    type Table = Base::Table;

    type Filters = <Base::Filters as PushBack<Predicate<'scope, P, Ast>>>::Output;

    open spec fn delete_connection(&self) -> &'conn Conn {
        self.base.delete_connection()
    }

    open spec fn delete_depth(&self) -> usize {
        self.base.delete_depth()
    }

    open spec fn delete_filters(&self) -> Self::Filters {
        self.base.delete_filters().pushed(self.predicate)
    }

    fn into_delete_parts(self) -> (parts: (&'conn Conn, usize, Self::Filters)) {
        let (connection, depth, filters) = self.base.into_delete_parts();
        (connection, depth, filters.push_back(self.predicate))
    }
}

impl<
    'conn,
    'scope,
    Conn: QueryBuilder + 'conn,
    Base: DeleteSourceAst<'conn, 'scope, Conn>,
> DeleteSourceAst<'conn, 'scope, Conn> for AllRows<Base> {
    type Table = Base::Table;

    type Filters = Base::Filters;

    open spec fn delete_connection(&self) -> &'conn Conn {
        self.base.delete_connection()
    }

    open spec fn delete_depth(&self) -> usize {
        self.base.delete_depth()
    }

    open spec fn delete_filters(&self) -> Self::Filters {
        self.base.delete_filters()
    }

    fn into_delete_parts(self) -> (parts: (&'conn Conn, usize, Self::Filters)) {
        self.base.into_delete_parts()
    }
}

/// A chain that says which rows a delete is about.
pub trait DeleteSourceQuery<'conn, 'scope, Conn: QueryBuilder + 'conn>: DeleteSourceAst<
    'conn,
    'scope,
    Conn,
> {
    /// The statement, without a `RETURNING` clause.
    fn delete(self) -> (statement: DeleteStatement<'conn, Conn, Self::Table, Self::Filters, ()>) where
        Self::Table: UpdateableTable,
        <Self::Filters as PredicateNodes>::Params: NoRuntimeParams,

        ensures
            statement.connection == self.delete_connection(),
            statement.alias == (SourceAlias { depth: self.delete_depth(), index: 0 }),
            statement.filters == self.delete_filters(),
    {
        let (connection, depth, filters) = self.into_delete_parts();
        let alias = SourceAlias::new(depth, 0);
        DeleteStatement { connection, alias, filters, returning: (), _table: PhantomData }
    }

    /// The statement, with a `RETURNING` clause.
    fn delete_returning<Returned: ReturningProjection<'scope> + ProjectionClass<
        Class = ScalarProjection,
    > + ReturnableProjection + ProjectionParams<Params = HNil>, F: FnOnce(
        <Self::Table as ProjectionShape>::Exprs<'scope>,
    ) -> Returned>(self, projection: F) -> (statement: DeleteStatement<
        'conn,
        Conn,
        Self::Table,
        Self::Filters,
        Returned,
    >) where
        Self::Table: UpdateableTable,
        Conn::Backend: SupportsReturning,
        <Returned::Shape as ProjectionShape>::Row: Decode<Conn::Backend>,

        requires
            call_requires(
                projection,
                (returned::<Self::Table>(SourceAlias { depth: self.delete_depth(), index: 0 }),),
            ),
        ensures
            statement.connection == self.delete_connection(),
            statement.alias == (SourceAlias { depth: self.delete_depth(), index: 0 }),
            statement.filters == self.delete_filters(),
            call_ensures(
                projection,
                (returned::<Self::Table>(SourceAlias { depth: self.delete_depth(), index: 0 }),),
                statement.returning,
            ),
    {
        let (connection, depth, filters) = self.into_delete_parts();
        let alias = SourceAlias::new(depth, 0);
        let table = <Self::Table as ProjectionShape>::exprs(alias);
        let returning = projection(table);
        DeleteStatement { connection, alias, filters, returning, _table: PhantomData }
    }
}

impl<
    'conn,
    'scope,
    Conn: QueryBuilder + 'conn,
    Base,
    P: PredicateKind,
    Ast: PredicateAst,
> DeleteSourceQuery<'conn, 'scope, Conn> for Where<'scope, Base, P, Ast> where
    Where<'scope, Base, P, Ast>: DeleteSourceAst<'conn, 'scope, Conn>,
 {

}

impl<'conn, 'scope, Conn: QueryBuilder + 'conn, Base> DeleteSourceQuery<
    'conn,
    'scope,
    Conn,
> for AllRows<Base> where AllRows<Base>: DeleteSourceAst<'conn, 'scope, Conn> {

}

} // verus!
