//! Typed queries, from the builder to the SQL text and its parameters.
use std::marker::PhantomData;

use squealy::backend::{Backend, Bound, Decode, Encode, SupportsReturning};
use squealy::chain::List;
use squealy::connection::{QueryBuilder, SupportsFullJoin};
use squealy::dialect::{
    standard_like_operator, standard_limit_offset, standard_order_nulls, Dialect,
};
use squealy::expr::case::case;
use squealy::expr::kind::ExprKind;
use squealy::expr::window::{lag, row_number};
use squealy::expr::{exists_, param, scalar_subquery, ColumnRef};
use squealy::label::{Duplicate, Label};
use squealy::list::IntoNullableExprs;
use squealy::meta::{Column, Index, Schema, TablePrimaryKey, TableUnique};
use squealy::node::{ExprNode, ProjectionItem, ViewQueryModel};
use squealy::ops::{OrderNulls, RowLock, SetOp, SourceAlias};
use squealy::projection::{
    InsertableTable, Projectable, QuerySource, SchemaTable, UpdateableTable,
};
use squealy::query::assign;
use squealy::query::assign::{
    AssignmentValueNode, ColumnKey, InsertColumnKey, InsertRows, StaticAssignmentValue,
    UpdateColumnKey,
};
use squealy::query::chain::SourceQuery;
use squealy::query::select::order_with_nulls;
use squealy::query::set::{RenderSetArm, SetGroup, SetLeaf, SetNode};
use squealy::query::statement::{
    ConflictTarget, DeleteSourceQuery, OnConflict, OnConflictQueryBuilder,
};
use squealy::render::sink::{PreparedSql, SqlParam};
use squealy::render::statement::{
    render_insert_tree, render_select_tree, write_delete_tree, write_insert_select_tree,
    write_insert_tree, write_select_tree, write_select_tree_params, write_set_tree,
    write_update_tree, write_update_tree_params, RenderError,
};
use squealy::render::typed::{
    render_delete_prepared, render_insert_prepared, render_selected_prepared, render_set_prepared,
    render_update_prepared, write_delete, write_delete_params, write_insert, write_insert_params,
    write_insert_select, write_insert_select_params, write_selected_into, write_selected_params,
    write_set_into, write_set_params, write_update, write_update_params,
};
use squealy::sql_type::SqlType;
use squealy::tree::{
    AssignmentTree, ConflictAction, ConflictClause, CteBody, CteDef, InsertSelectTree, InsertTree,
    ExprTree, SelectTree, SetTail, SetTree, TableRef, ValueTree,
};
use squealy::column::{NonNullableColumn, NullableColumn};

// ---------------------------------------------------------------------------
// A backend and two dialects
// ---------------------------------------------------------------------------

#[derive(Clone, Debug, PartialEq)]
enum P {
    Int(i64),
    Text(String),
    Bool(bool),
    Null,
}

struct Be;

impl Backend for Be {
    type Error = String;
    type Param = P;
    type RowReader = Vec<P>;

    fn no_rows_error() -> String {
        "no rows".to_owned()
    }
}

impl SupportsReturning for Be {}
impl SupportsFullJoin for Be {}

impl Encode<Be> for i32 {
    fn encode(&self) -> Result<List<P>, String> {
        Ok(List::one(P::Int(i64::from(*self))))
    }
}

impl Encode<Be> for i64 {
    fn encode(&self) -> Result<List<P>, String> {
        Ok(List::one(P::Int(*self)))
    }
}

impl Encode<Be> for bool {
    fn encode(&self) -> Result<List<P>, String> {
        Ok(List::one(P::Bool(*self)))
    }
}

impl Encode<Be> for String {
    fn encode(&self) -> Result<List<P>, String> {
        if self == "unencodable" {
            Err("cannot encode".to_owned())
        } else {
            Ok(List::one(P::Text(self.clone())))
        }
    }
}

impl<T: Encode<Be>> Encode<Be> for Option<T> {
    fn encode(&self) -> Result<List<P>, String> {
        match self {
            Some(value) => value.encode(),
            None => Ok(List::one(P::Null)),
        }
    }
}

impl Decode<Be> for i32 {
    fn decode(_row: &mut Vec<P>) -> Result<i32, String> {
        Err("not read here".to_owned())
    }
}

impl Decode<Be> for i64 {
    fn decode(_row: &mut Vec<P>) -> Result<i64, String> {
        Err("not read here".to_owned())
    }
}

impl Decode<Be> for String {
    fn decode(_row: &mut Vec<P>) -> Result<String, String> {
        Err("not read here".to_owned())
    }
}

impl<T: Decode<Be>> Decode<Be> for Option<T> {
    fn decode(row: &mut Vec<P>) -> Result<Option<T>, String> {
        T::decode(row).map(Some)
    }
}

impl<A: Decode<Be>> Decode<Be> for (A,) {
    fn decode(row: &mut Vec<P>) -> Result<(A,), String> {
        Ok((A::decode(row)?,))
    }
}

impl<A: Decode<Be>, B: Decode<Be>> Decode<Be> for (A, B) {
    fn decode(row: &mut Vec<P>) -> Result<(A, B), String> {
        Ok((A::decode(row)?, B::decode(row)?))
    }
}

/// Numbered placeholders, double quotes, native null ordering and `ON CONFLICT`.
struct Pg;

impl Dialect for Pg {
    fn write_placeholder(&self, index: usize, out: &mut String) {
        out.push_str(&format!("${}", index + 1));
    }

    fn write_quoted_ident(&self, ident: &str, out: &mut String) {
        out.push_str(&format!("\"{}\"", ident.replace('"', "\"\"")));
    }

    fn write_cast_type(&self, ty: &SqlType, out: &mut String) {
        out.push_str(match ty {
            SqlType::I32 => "integer",
            SqlType::I64 => "bigint",
            SqlType::F64 => "double precision",
            _ => "text",
        });
    }

    fn integer_division_needs_float_cast(&self) -> bool {
        true
    }

    fn write_limit_offset(&self, limit: Option<usize>, offset: Option<usize>, out: &mut String) {
        standard_limit_offset(limit, offset, out);
    }

    fn write_default_row_insert(&self, out: &mut String) {
        out.push_str(" DEFAULT VALUES");
    }

    fn write_like_operator(&self, case_insensitive: bool, negated: bool, out: &mut String) {
        out.push_str(match (case_insensitive, negated) {
            (false, false) => " LIKE ",
            (false, true) => " NOT LIKE ",
            (true, false) => " ILIKE ",
            (true, true) => " NOT ILIKE ",
        });
    }

    fn write_order_nulls(&self, nulls: OrderNulls, out: &mut String) {
        standard_order_nulls(nulls, out);
    }

    fn emulates_order_nulls(&self) -> bool {
        false
    }

    fn concat_uses_pipe_operator(&self) -> bool {
        true
    }

    fn substring_bounds_need_cast(&self) -> bool {
        true
    }

    fn timestamp_operand_needs_cast(&self) -> bool {
        true
    }

    fn extract_second_uses_microsecond_unit(&self) -> bool {
        false
    }

    fn write_row_lock(&self, _lock: RowLock, out: &mut String) {
        out.push_str(" FOR UPDATE");
    }

    fn write_upsert_do_nothing(
        &self,
        target: &Vec<String>,
        _first_column: Option<&str>,
        out: &mut String,
    ) {
        out.push_str(&format!(" ON CONFLICT ({}) DO NOTHING", target.join(", ")));
    }

    fn write_upsert_set_prefix(&self, target: &Vec<String>, out: &mut String) {
        out.push_str(&format!(" ON CONFLICT ({}) DO UPDATE SET ", target.join(", ")));
    }

    fn write_excluded_column(&self, column: &str, out: &mut String) {
        out.push_str(&format!("EXCLUDED.\"{column}\""));
    }

    fn write_cte_body(&self, body: &CteBody, out: &mut String) {
        write_body(self, body, out);
    }
}

/// Anonymous placeholders, backquotes, emulated null ordering and `ON DUPLICATE KEY UPDATE`.
struct My;

impl Dialect for My {
    fn write_placeholder(&self, _index: usize, out: &mut String) {
        out.push('?');
    }

    fn write_quoted_ident(&self, ident: &str, out: &mut String) {
        out.push_str(&format!("`{}`", ident.replace('`', "``")));
    }

    fn write_cast_type(&self, _ty: &SqlType, out: &mut String) {
        out.push_str("signed");
    }

    fn integer_division_needs_float_cast(&self) -> bool {
        false
    }

    fn write_limit_offset(&self, limit: Option<usize>, offset: Option<usize>, out: &mut String) {
        standard_limit_offset(limit, offset, out);
    }

    fn write_default_row_insert(&self, out: &mut String) {
        out.push_str(" () VALUES ()");
    }

    fn write_like_operator(&self, _case_insensitive: bool, negated: bool, out: &mut String) {
        standard_like_operator(negated, out);
    }

    fn write_order_nulls(&self, _nulls: OrderNulls, _out: &mut String) {}

    fn emulates_order_nulls(&self) -> bool {
        true
    }

    fn concat_uses_pipe_operator(&self) -> bool {
        false
    }

    fn substring_bounds_need_cast(&self) -> bool {
        false
    }

    fn timestamp_operand_needs_cast(&self) -> bool {
        false
    }

    fn extract_second_uses_microsecond_unit(&self) -> bool {
        true
    }

    fn write_row_lock(&self, _lock: RowLock, out: &mut String) {
        out.push_str(" FOR UPDATE");
    }

    fn write_upsert_do_nothing(
        &self,
        _target: &Vec<String>,
        first_column: Option<&str>,
        out: &mut String,
    ) {
        let column = first_column.unwrap_or("id");
        out.push_str(&format!(" ON DUPLICATE KEY UPDATE `{column}` = `{column}`"));
    }

    fn write_upsert_set_prefix(&self, _target: &Vec<String>, out: &mut String) {
        out.push_str(" ON DUPLICATE KEY UPDATE ");
    }

    fn write_excluded_column(&self, column: &str, out: &mut String) {
        out.push_str(&format!("VALUES(`{column}`)"));
    }

    fn write_cte_body(&self, body: &CteBody, out: &mut String) {
        write_body(self, body, out);
    }
}

struct Db;

impl QueryBuilder for Db {
    type Backend = Be;
}

impl OnConflictQueryBuilder for Db {}

/// The output names of a body, quoted as the dialect quotes them.
fn write_names<D: Dialect>(dialect: &D, query: &ViewQueryModel, out: &mut String) {
    out.push_str("SELECT ");
    let mut items = &query.projection;
    while let List::Cons { head, tail } = items {
        dialect.write_quoted_ident(head.output_name.as_str(), out);
        items = tail;
        if !items.is_empty() {
            out.push_str(", ");
        }
    }
}

fn write_body<D: Dialect>(dialect: &D, body: &CteBody, out: &mut String) {
    match body {
        CteBody::Plain(query) => write_names(dialect, query, out),
        CteBody::Recursive { anchor, union_all, recursive } => {
            write_names(dialect, anchor, out);
            out.push_str(if *union_all { " UNION ALL " } else { " UNION " });
            write_names(dialect, recursive, out);
        }
    }
}

fn body_of(name: &'static str) -> ViewQueryModel {
    ViewQueryModel {
        distinct: false,
        projection: List::one(ProjectionItem {
            output_name: Label::Static(name),
            expr: ExprNode::Now,
        }),
        from: None,
        joins: List::Nil,
        filter: None,
        group_by: List::Nil,
        having: None,
        order_by: List::Nil,
        limit: None,
        offset: None,
    }
}

// ---------------------------------------------------------------------------
// Two tables and a common table expression
// ---------------------------------------------------------------------------

struct Public;

impl Schema for Public {
    fn name() -> Option<&'static str> {
        Some("public")
    }
}

struct UserCols<'scope> {
    id: ColumnRef<'scope, i32>,
    name: ColumnRef<'scope, String>,
}

impl<'scope> Duplicate for UserCols<'scope> {
    fn duplicate(&self) -> Self {
        UserCols { id: self.id, name: self.name }
    }
}

impl<'scope> Projectable for UserCols<'scope> {
    type Rebound<'other> = ();

    fn re_alias<'other>(&self, _alias: SourceAlias) -> Self::Rebound<'other> {}

    fn re_alias_with_prefix<'other>(
        &self,
        _alias: SourceAlias,
        _prefix: &str,
    ) -> Self::Rebound<'other> {
    }
}

impl<'scope> IntoNullableExprs for UserCols<'scope> {
    type Output = UserCols<'scope>;

    fn into_nullable_exprs(self) -> Self::Output {
        self
    }
}

struct User;

impl SchemaTable for User {
    type Schema = Public;
    type Names = [&'static str; 2];
    type Row = (i32, String);
    type NullableRow = (Option<i32>, Option<String>);
    type Exprs<'scope> = UserCols<'scope>;
    type NullableExprs<'scope> = UserCols<'scope>;

    fn name() -> &'static str {
        "users"
    }

    fn columns() -> List<&'static dyn Column> {
        List::Nil
    }

    fn indexes() -> List<&'static dyn Index> {
        List::Nil
    }

    fn primary_key() -> Option<TablePrimaryKey> {
        None
    }

    fn uniques() -> List<TableUnique> {
        List::Nil
    }

    fn column_names() -> [&'static str; 2] {
        ["id", "name"]
    }

    fn column_exprs_from<'scope>(
        alias: SourceAlias,
        columns: &[&'static str; 2],
    ) -> UserCols<'scope> {
        UserCols {
            id: ColumnRef::column(alias, columns[0]),
            name: ColumnRef::column(alias, columns[1]),
        }
    }

    fn nullable_column_exprs_from<'scope>(
        alias: SourceAlias,
        columns: &[&'static str; 2],
    ) -> UserCols<'scope> {
        Self::column_exprs_from(alias, columns)
    }
}

impl QuerySource for User {
    fn cte_def() -> Option<CteDef> {
        None
    }
}

impl InsertableTable for User {}
impl UpdateableTable for User {}

struct PostCols<'scope> {
    id: ColumnRef<'scope, i32>,
    user_id: ColumnRef<'scope, i32>,
    score: ColumnRef<'scope, i32>,
}

impl<'scope> Duplicate for PostCols<'scope> {
    fn duplicate(&self) -> Self {
        PostCols { id: self.id, user_id: self.user_id, score: self.score }
    }
}

impl<'scope> Projectable for PostCols<'scope> {
    type Rebound<'other> = ();

    fn re_alias<'other>(&self, _alias: SourceAlias) -> Self::Rebound<'other> {}

    fn re_alias_with_prefix<'other>(
        &self,
        _alias: SourceAlias,
        _prefix: &str,
    ) -> Self::Rebound<'other> {
    }
}

impl<'scope> IntoNullableExprs for PostCols<'scope> {
    type Output = PostCols<'scope>;

    fn into_nullable_exprs(self) -> Self::Output {
        self
    }
}

struct Post;

impl SchemaTable for Post {
    type Schema = Public;
    type Names = [&'static str; 3];
    type Row = (i32, i32, i32);
    type NullableRow = (Option<i32>, Option<i32>, Option<i32>);
    type Exprs<'scope> = PostCols<'scope>;
    type NullableExprs<'scope> = PostCols<'scope>;

    fn name() -> &'static str {
        "posts"
    }

    fn columns() -> List<&'static dyn Column> {
        List::Nil
    }

    fn indexes() -> List<&'static dyn Index> {
        List::Nil
    }

    fn primary_key() -> Option<TablePrimaryKey> {
        None
    }

    fn uniques() -> List<TableUnique> {
        List::Nil
    }

    fn column_names() -> [&'static str; 3] {
        ["id", "user_id", "score"]
    }

    fn column_exprs_from<'scope>(
        alias: SourceAlias,
        columns: &[&'static str; 3],
    ) -> PostCols<'scope> {
        PostCols {
            id: ColumnRef::column(alias, columns[0]),
            user_id: ColumnRef::column(alias, columns[1]),
            score: ColumnRef::column(alias, columns[2]),
        }
    }

    fn nullable_column_exprs_from<'scope>(
        alias: SourceAlias,
        columns: &[&'static str; 3],
    ) -> PostCols<'scope> {
        Self::column_exprs_from(alias, columns)
    }
}

impl QuerySource for Post {
    fn cte_def() -> Option<CteDef> {
        Some(CteDef {
            type_key: 7,
            name: Label::Static("posts"),
            columns: List::one(Label::Static("id")),
            recursive: false,
            body: CteBody::Plain(body_of("id")),
        })
    }
}

struct UserIdKey;

impl ExprKind for UserIdKey {
    type Value = i32;
}

impl ColumnKey for UserIdKey {
    type Table = User;
    type Nullability = NonNullableColumn;

    const NAME: &'static str = "id";
}

impl InsertColumnKey for UserIdKey {}
impl UpdateColumnKey for UserIdKey {}

struct UserNameKey;

impl ExprKind for UserNameKey {
    type Value = String;
}

impl ColumnKey for UserNameKey {
    type Table = User;
    type Nullability = NullableColumn;

    const NAME: &'static str = "name";
}

impl InsertColumnKey for UserNameKey {}
impl UpdateColumnKey for UserNameKey {}

fn select_sql(select: SelectTree<Bound<Be>>) -> String {
    let mut out = String::new();
    write_select_tree::<Be, Pg>(&Pg, &Vec::new(), select, &mut out);
    out
}

fn my_sql(select: SelectTree<Bound<Be>>) -> String {
    let mut out = String::new();
    write_select_tree::<Be, My>(&My, &Vec::new(), select, &mut out);
    out
}

fn prepared(select: SelectTree<Bound<Be>>) -> (String, Vec<SqlParam<Be>>) {
    let mut buffer = PreparedSql::<Be>::new();
    render_select_tree::<Be, Pg>(&Pg, &Vec::new(), select, &mut buffer);
    match buffer.into_parts() {
        Ok(parts) => parts,
        Err(error) => panic!("{error}"),
    }
}

// ---------------------------------------------------------------------------
// Selects
// ---------------------------------------------------------------------------

#[test]
fn a_query_without_sources_selects_a_literal() {
    let selected = Db.select(5i32);
    let (sql, params) = prepared(selected.lower::<Db, Be>());
    assert_eq!(sql, "SELECT $1 AS \"expr\"");
    assert!(matches!(params[0], SqlParam::Static(P::Int(5))));
}

#[test]
fn a_query_filters_orders_and_bounds() {
    let selected = SourceQuery::where_(Db.from::<User>(), |(u,)| u.id.greater_than(3))
        .order_by(|(u,)| u.name.desc())
        .limit(10)
        .offset(20)
        .select(|(u,)| (u.id, u.name));
    assert_eq!(
        select_sql(selected.lower::<Db, Be>()),
        "SELECT q0_0.\"id\" AS \"id\", q0_0.\"name\" AS \"name\" FROM \"public\".\"users\" AS q0_0 \
         WHERE (q0_0.\"id\" > $1) ORDER BY q0_0.\"name\" DESC LIMIT 10 OFFSET 20"
    );
    let mut params = Vec::new();
    assert!(write_select_tree_params::<Be, Pg>(
        &Pg,
        &Vec::new(),
        selected.lower::<Db, Be>(),
        &mut params
    )
    .is_ok());
    assert_eq!(params, vec![P::Int(3)]);
}

#[test]
fn clauses_commute() {
    let a = SourceQuery::where_(Db.from::<User>(), |(u,)| u.id.equals(1))
        .order_by(|(u,)| u.id.asc())
        .limit(1)
        .distinct()
        .select(|(u,)| u.id);
    let b = Db.from::<User>().distinct().limit(1).order_by(|(u,)| u.id.asc());
    let b = SourceQuery::where_(b, |(u,)| u.id.equals(1)).select(|(u,)| u.id);
    let sql = select_sql(a.lower::<Db, Be>());
    assert_eq!(sql, select_sql(b.lower::<Db, Be>()));
    assert_eq!(
        sql,
        "SELECT DISTINCT q0_0.\"id\" AS \"id\" FROM \"public\".\"users\" AS q0_0 \
         WHERE (q0_0.\"id\" = $1) ORDER BY q0_0.\"id\" ASC LIMIT 1"
    );
}

#[test]
fn a_later_bound_replaces_an_earlier_one() {
    let selected =
        Db.from::<User>().limit(1).limit(2).offset(3).offset(4).select(|(u,)| u.id);
    assert_eq!(
        select_sql(selected.lower::<Db, Be>()),
        "SELECT q0_0.\"id\" AS \"id\" FROM \"public\".\"users\" AS q0_0 LIMIT 2 OFFSET 4"
    );
}

#[test]
fn joins_number_their_sources() {
    let selected = Db
        .from::<User>()
        .join::<Post>()
        .on(|(u,), p| p.user_id.equals(u.id))
        .left_join::<Post>()
        .on(|(u, _), p| p.user_id.equals(u.id))
        .cross_join::<User>()
        .select(|(_, p, _, v)| (p.id, v.name));
    assert_eq!(
        select_sql(selected.lower::<Db, Be>()),
        "SELECT q0_1.\"id\" AS \"id\", q0_3.\"name\" AS \"name\" FROM \"public\".\"users\" AS q0_0 \
         INNER JOIN \"public\".\"posts\" AS q0_1 ON (q0_1.\"user_id\" = q0_0.\"id\") \
         LEFT JOIN \"public\".\"posts\" AS q0_2 ON (q0_2.\"user_id\" = q0_0.\"id\") \
         CROSS JOIN \"public\".\"users\" AS q0_3"
    );
}

#[test]
fn outer_joins_keep_all_sources() {
    let selected = Db
        .from::<User>()
        .right_join::<Post>()
        .on(|(u,), p| p.user_id.equals(u.id))
        .full_join::<User>()
        .on(|(u, _), v| v.id.equals(u.id))
        .select(|(u, p, v)| (u.id, p.id, v.id).0);
    assert_eq!(
        select_sql(selected.lower::<Db, Be>()),
        "SELECT q0_0.\"id\" AS \"id\" FROM \"public\".\"users\" AS q0_0 \
         RIGHT JOIN \"public\".\"posts\" AS q0_1 ON (q0_1.\"user_id\" = q0_0.\"id\") \
         FULL JOIN \"public\".\"users\" AS q0_2 ON (q0_2.\"id\" = q0_0.\"id\")"
    );
}

#[test]
fn groups_may_mix_keys_and_aggregates() {
    let selected = Db
        .from::<Post>()
        .group_by(|(p,)| p.user_id)
        .having(|(p,)| p.id.count().greater_than(2i64))
        .project(|(p,)| (p.user_id, p.score.sum()));
    let sql = select_sql(selected.lower::<Db, Be>());
    assert_eq!(
        sql,
        "SELECT q0_0.\"user_id\" AS \"user_id\", CAST(SUM(q0_0.\"score\") AS bigint) AS \"expr\" \
         FROM \"public\".\"posts\" AS q0_0 GROUP BY q0_0.\"user_id\" \
         HAVING (COUNT(q0_0.\"id\") > $1)"
    );
}

#[test]
fn subqueries_nest_deeper() {
    let selected = Db
        .from::<User>()
        .where_correlated(|(u,), mut subqueries| {
            let first = SourceQuery::where_(subqueries.from::<Post>(), |(p,)| {
                p.user_id.equals(u.id)
            })
            .select_subquery(|(p,)| p.id);
            let second = subqueries.from::<Post>().select_subquery(|(p,)| p.user_id);
            exists_(first).and(u.id.in_subquery(second))
        })
        .select(|(u,)| u.id);
    assert_eq!(
        select_sql(selected.lower::<Db, Be>()),
        "SELECT q0_0.\"id\" AS \"id\" FROM \"public\".\"users\" AS q0_0 WHERE \
         ((EXISTS (SELECT q1_0.\"id\" AS \"id\" FROM \"public\".\"posts\" AS q1_0 \
         WHERE (q1_0.\"user_id\" = q0_0.\"id\"))) AND (q0_0.\"id\" IN (SELECT q2_0.\"user_id\" AS \
         \"user_id\" FROM \"public\".\"posts\" AS q2_0)))"
    );
}

#[test]
fn a_scalar_subquery_can_be_selected() {
    let selected = Db.from::<User>().select_correlated(|(u,), mut subqueries| {
        let newest = SourceQuery::where_(subqueries.from::<Post>(), |(p,)| {
            p.user_id.equals(u.id)
        })
        .select_subquery(|(p,)| p.id);
        scalar_subquery(newest)
    });
    assert_eq!(
        select_sql(selected.lower::<Db, Be>()),
        "SELECT (SELECT q1_0.\"id\" AS \"id\" FROM \"public\".\"posts\" AS q1_0 WHERE \
         (q1_0.\"user_id\" = q0_0.\"id\")) AS \"expr\" FROM \"public\".\"users\" AS q0_0"
    );
}

#[test]
fn runtime_parameters_are_numbered_as_they_are_written() {
    let selected = Db.from::<User>().order_by(|(u,)| u.name.asc());
    let selected = SourceQuery::where_(selected, |(u,)| {
        u.id.equals(param::<i32>()).or(u.id.equals(9)).or(u.name.equals(param::<String>()))
    })
    .select(|(u,)| u.id);
    let (sql, params) = prepared(selected.lower::<Db, Be>());
    assert_eq!(
        sql,
        "SELECT q0_0.\"id\" AS \"id\" FROM \"public\".\"users\" AS q0_0 WHERE \
         (((q0_0.\"id\" = $1) OR (q0_0.\"id\" = $2)) OR (q0_0.\"name\" = $3)) \
         ORDER BY q0_0.\"name\" ASC"
    );
    assert!(matches!(params[0], SqlParam::Runtime(0)));
    assert!(matches!(params[1], SqlParam::Static(P::Int(9))));
    assert!(matches!(params[2], SqlParam::Runtime(1)));
    assert_eq!(params.len(), 3);
}

#[test]
fn an_encoding_error_is_kept() {
    let selected = SourceQuery::where_(Db.from::<User>(), |(u,)| u.name.equals("unencodable"))
        .select(|(u,)| u.id);
    let mut buffer = PreparedSql::<Be>::new();
    render_select_tree::<Be, Pg>(
        &Pg,
        &Vec::new(),
        selected.lower::<Db, Be>(),
        &mut buffer,
    );
    assert_eq!(buffer.into_parts().err(), Some("cannot encode".to_owned()));
    let mut params = Vec::new();
    assert_eq!(
        write_select_tree_params::<Be, Pg>(
            &Pg,
            &Vec::new(),
            selected.lower::<Db, Be>(),
            &mut params
        ),
        Err("cannot encode".to_owned())
    );
}

#[test]
fn dialects_differ_in_text_only() {
    let selected = SourceQuery::where_(Db.from::<User>(), |(u,)| u.name.ilike("a%"))
        .select(|(u,)| u.id);
    assert_eq!(
        select_sql(selected.lower::<Db, Be>()),
        "SELECT q0_0.\"id\" AS \"id\" FROM \"public\".\"users\" AS q0_0 \
         WHERE (q0_0.\"name\" ILIKE $1)"
    );
    assert_eq!(
        my_sql(selected.lower::<Db, Be>()),
        "SELECT q0_0.`id` AS `id` FROM `public`.`users` AS q0_0 WHERE (q0_0.`name` LIKE ?)"
    );
    let mut pg = Vec::new();
    let mut my = Vec::new();
    assert!(write_select_tree_params::<Be, Pg>(
        &Pg,
        &Vec::new(),
        selected.lower::<Db, Be>(),
        &mut pg
    )
    .is_ok());
    assert!(write_select_tree_params::<Be, My>(
        &My,
        &Vec::new(),
        selected.lower::<Db, Be>(),
        &mut my
    )
    .is_ok());
    assert_eq!(pg, my);
}

#[test]
fn null_ordering_is_native_or_emulated() {
    let selected = Db.from::<User>().select(|(u,)| u.id);
    let columns = <User as SchemaTable>::column_exprs(SourceAlias::new(0, 0));
    let ordered = || {
        let mut select = selected.lower::<Db, Be>();
        select.orders = List::one(order_with_nulls::<Be, _, _>(
            &columns.name.asc(),
            OrderNulls::Last,
        ));
        select
    };
    assert!(select_sql(ordered()).ends_with(" ORDER BY q0_0.\"name\" ASC NULLS LAST"));
    assert!(my_sql(ordered()).ends_with(" ORDER BY (q0_0.`name` IS NULL) ASC, q0_0.`name` ASC"));
}

#[test]
fn arithmetic_case_and_windows_render() {
    let selected = Db.from::<Post>().project(|(p,)| {
        (
            p.score + p.id * 2,
            case::<i32>().when(p.score.greater_than(10), 1).otherwise(0),
            row_number().over(|w| w.partition_by(p.user_id).order_by(p.score.desc())),
            lag(p.score, 1).over(|w| w.order_by(p.id.asc())),
        )
    });
    assert_eq!(
        select_sql(selected.lower::<Db, Be>()),
        "SELECT (q0_0.\"score\" + (q0_0.\"id\" * $1)) AS \"expr\", \
         CASE WHEN (q0_0.\"score\" > $2) THEN CAST($3 AS integer) ELSE CAST($4 AS integer) END AS \
         \"expr\", \
         ROW_NUMBER() OVER (PARTITION BY q0_0.\"user_id\" ORDER BY q0_0.\"score\" DESC) AS \
         \"expr\", \
         LAG(q0_0.\"score\", $5) OVER (ORDER BY q0_0.\"id\" ASC) AS \"expr\" \
         FROM \"public\".\"posts\" AS q0_0"
    );
}

#[test]
fn a_number_may_stand_on_the_left() {
    let selected = Db.from::<Post>().project(|(p,)| (2 + p.score, 10 - (3 * p.id), 9 / &p.score));
    let select = selected.lower::<Db, Be>();
    assert_eq!(
        select_sql(select),
        "SELECT ($1 + q0_0.\"score\") AS \"expr\", ($2 - ($3 * q0_0.\"id\")) AS \"expr\", \
         (CAST($4 AS double precision) / CAST(q0_0.\"score\" AS double precision)) AS \"expr\" FROM \"public\".\"posts\" AS q0_0"
    );
}

#[test]
fn common_table_expressions_are_collected_once() {
    let selected = Db
        .from::<Post>()
        .join::<Post>()
        .on(|(p,), q| p.id.equals(q.id))
        .join::<User>()
        .on(|(p, _), u| u.id.equals(p.user_id))
        .select(|(p, _, _)| p.id);
    let ctes = selected.collect_ctes::<Db>();
    assert_eq!(ctes.len(), 1);
    assert_eq!(ctes[0].name.as_str(), "posts");
    let mut out = String::new();
    write_selected_into::<Db, _, _, _, _>(&Pg, &selected, &mut out);
    assert!(out.starts_with("WITH \"posts\" (\"id\") AS (SELECT \"id\") SELECT "));
    let mut tree = String::new();
    write_select_tree::<Be, Pg>(&Pg, &ctes, selected.lower::<Db, Be>(), &mut tree);
    assert_eq!(out, tree);
}

#[test]
fn each_dialect_writes_the_definitions_in_its_own_way() {
    let selected = Db.from::<Post>().select(|(p,)| p.id);
    let mut pg = String::new();
    write_selected_into::<Db, _, _, _, _>(&Pg, &selected, &mut pg);
    assert_eq!(
        pg,
        "WITH \"posts\" (\"id\") AS (SELECT \"id\") \
         SELECT q0_0.\"id\" AS \"id\" FROM \"public\".\"posts\" AS q0_0"
    );
    let mut my = String::new();
    write_selected_into::<Db, _, _, _, _>(&My, &selected, &mut my);
    assert_eq!(
        my,
        "WITH `posts` (`id`) AS (SELECT `id`) \
         SELECT q0_0.`id` AS `id` FROM `public`.`posts` AS q0_0"
    );
}

#[test]
fn a_recursive_definition_makes_the_clause_recursive() {
    let def = |union_all: bool| CteDef {
        type_key: 1,
        name: Label::Static("t"),
        columns: List::one(Label::Static("n")),
        recursive: true,
        body: CteBody::Recursive { anchor: body_of("a"), union_all, recursive: body_of("b") },
    };
    let select = || Db.select(5i32).lower::<Db, Be>();
    let mut out = String::new();
    write_select_tree::<Be, Pg>(&Pg, &vec![def(true)], select(), &mut out);
    assert!(out.starts_with(
        "WITH RECURSIVE \"t\" (\"n\") AS (SELECT \"a\" UNION ALL SELECT \"b\") SELECT "
    ));
    let mut out = String::new();
    write_select_tree::<Be, My>(&My, &vec![def(false)], select(), &mut out);
    assert!(out.starts_with("WITH RECURSIVE `t` (`n`) AS (SELECT `a` UNION SELECT `b`) SELECT "));
    assert_eq!(def(true).duplicate().body.clone(), def(true).body);
}

#[test]
fn identifiers_are_quoted_by_doubling() {
    let select = SelectTree {
        distinct: false,
        projection: List::one(squealy::tree::ProjectionTree {
            expr: ExprTree::<Bound<Be>>::Now,
            alias: Label::Owned("a\"b".to_owned()),
        }),
        sources: List::Nil,
        filters: List::Nil,
        groups: List::Nil,
        havings: List::Nil,
        orders: List::Nil,
        limit: None,
        offset: None,
        row_lock: Some(RowLock::ForUpdate),
    };
    assert_eq!(select_sql(select), "SELECT CURRENT_TIMESTAMP AS \"a\"\"b\" FOR UPDATE");
}

// ---------------------------------------------------------------------------
// Set operations
// ---------------------------------------------------------------------------

#[test]
fn set_operations_nest_in_parentheses() {
    let ids = || SetLeaf {
        selected: Db.from::<User>().select(|(u,)| u.id),
        _conn: PhantomData::<&Db>,
    };
    let tree = SetNode {
        left: ids(),
        op: SetOp::Union,
        right: SetGroup {
            tree: SetNode { left: ids(), op: SetOp::Intersect, right: ids() },
            tail: SetTail { orders: List::Nil, limit: Some(3), offset: None },
        },
    };
    let tail = SetTail { orders: List::Nil, limit: None, offset: Some(1) };
    let mut out = String::new();
    write_set_into::<Be, _, Pg>(&Pg, &tree, &tail, &mut out);
    let leaf = "(SELECT q0_0.\"id\" AS \"id\" FROM \"public\".\"users\" AS q0_0)";
    assert_eq!(
        out,
        format!("{leaf} UNION ({leaf} INTERSECT {leaf} LIMIT 3) OFFSET 1")
    );
    let lowered: SetTree<Bound<Be>> = RenderSetArm::<Be>::lower_set(&tree);
    let mut again = String::new();
    write_set_tree::<Be, Pg>(&Pg, lowered, &tail, &mut again);
    assert_eq!(again, out);
    let mut buffer = PreparedSql::<Be>::new();
    render_set_prepared::<Be, _, Pg>(&Pg, &tree, &tail, &mut buffer);
    let Ok((sql, params)) = buffer.into_parts() else { panic!("nothing to encode") };
    assert_eq!(sql, out);
    assert!(params.is_empty());
    let mut bound = Vec::new();
    assert!(write_set_params::<Be, _, Pg>(&Pg, &tree, &tail, &mut bound).is_ok());
    assert!(bound.is_empty());
}

#[test]
fn a_query_can_be_inserted() {
    let source = SetLeaf {
        selected: Db.from::<User>().select(|(u,)| (u.id, u.name)),
        _conn: PhantomData::<&Db>,
    };
    let insert = InsertSelectTree::<Bound<Be>> {
        table: TableRef { schema: None, name: Label::Static("copies") },
        columns: List::one(Label::Static("id")).push(Label::Static("name")),
        source: RenderSetArm::<Be>::lower_set(&source),
        returning: List::Nil,
    };
    let mut out = String::new();
    write_insert_select_tree::<Be, Pg>(&Pg, insert, &mut out);
    assert_eq!(
        out,
        "INSERT INTO \"copies\" (\"id\", \"name\") SELECT q0_0.\"id\" AS \"id\", q0_0.\"name\" AS \
         \"name\" FROM \"public\".\"users\" AS q0_0"
    );
    let mut out = String::new();
    write_insert_select::<User, Be, _, _, Pg>(&Pg, &["id", "name"], &source, &(), &mut out);
    assert_eq!(
        out,
        "INSERT INTO \"public\".\"users\" (\"id\", \"name\") SELECT q0_0.\"id\" AS \"id\", \
         q0_0.\"name\" AS \"name\" FROM \"public\".\"users\" AS q0_0"
    );
    let few = SetLeaf {
        selected: SourceQuery::where_(Db.from::<User>(), |(u,)| u.id.equals(8))
            .select(|(u,)| u.id),
        _conn: PhantomData::<&Db>,
    };
    let mut bound = Vec::new();
    assert!(write_insert_select_params::<User, Be, _, _, Pg>(
        &Pg,
        &["id"],
        &few,
        &(),
        &mut bound
    )
    .is_ok());
    assert_eq!(bound, vec![P::Int(8)]);
}

// ---------------------------------------------------------------------------
// Mutations
// ---------------------------------------------------------------------------

fn insert_sql<D: Dialect>(dialect: &D, insert: InsertTree<Bound<Be>>) -> String {
    let mut out = String::new();
    assert_eq!(write_insert_tree::<Be, D>(dialect, insert, &mut out), Ok(()));
    out
}

#[test]
fn rows_are_inserted_together() {
    let statement = Db
        .to_columns::<User, (UserIdKey, UserNameKey)>()
        .row((1, "a"))
        .row((assign::default(), None::<String>))
        .insert();
    let mut buffer = PreparedSql::<Be>::new();
    assert_eq!(statement.rows.len(), 2);
    assert_eq!(statement.rows.first_row_len(), 2);
    assert_eq!(statement.rows.param_count(), 3);
    render_insert_prepared::<User, Be, _, _, Pg>(&Pg, &statement.rows, &(), None, &mut buffer);
    let (sql, params) = match buffer.into_parts() {
        Ok(parts) => parts,
        Err(error) => panic!("{error}"),
    };
    assert_eq!(
        sql,
        "INSERT INTO \"public\".\"users\" (\"id\", \"name\") VALUES ($1, $2), (DEFAULT, $3)"
    );
    assert!(matches!(&params[1], SqlParam::Static(P::Text(text)) if text == "a"));
    assert!(matches!(&params[2], SqlParam::Static(P::Null)));
    let mut out = String::new();
    assert_eq!(
        write_insert::<User, Be, _, _, Pg>(&Pg, &statement.rows, &(), None, &mut out),
        Ok(())
    );
    assert_eq!(out, sql);
    assert_eq!(insert_sql(&Pg, statement.lower::<Be>()), sql);
    let rows = Db.to_columns::<User, (UserIdKey,)>().row((6,)).rows;
    let mut bound = Vec::new();
    assert!(write_insert_params::<User, Be, _, _, Pg>(&Pg, &rows, &(), None, &mut bound).is_ok());
    assert_eq!(bound, vec![P::Int(6)]);
}

#[test]
fn an_insert_can_return_columns() {
    let statement = Db
        .to_columns::<User, (UserIdKey,)>()
        .row((4,))
        .insert_returning(|u| (u.id, u.name));
    assert_eq!(
        insert_sql(&Pg, statement.lower::<Be>()),
        "INSERT INTO \"public\".\"users\" (\"id\") VALUES ($1) RETURNING \"id\" AS \"id\", \
         \"name\" AS \"name\""
    );
}

#[test]
fn a_row_without_columns_takes_the_defaults() {
    let insert = || InsertTree::<Bound<Be>> {
        table: TableRef { schema: None, name: Label::Static("t") },
        rows: List::one(List::Nil),
        conflict: None,
        returning: List::Nil,
    };
    assert_eq!(insert_sql(&Pg, insert()), "INSERT INTO \"t\" DEFAULT VALUES");
    assert_eq!(insert_sql(&My, insert()), "INSERT INTO `t` () VALUES ()");
}

#[test]
fn many_columns_are_assigned_in_order() {
    let insert = Db
        .to_columns::<User, (
            UserIdKey,
            UserNameKey,
            UserIdKey,
            UserNameKey,
            UserIdKey,
            UserNameKey,
            UserIdKey,
            UserNameKey,
            UserIdKey,
            UserNameKey,
            UserIdKey,
            UserNameKey,
            UserIdKey,
            UserNameKey,
            UserIdKey,
            UserNameKey,
            UserIdKey,
            UserNameKey,
        )>()
        .row((
            1, "a", 2, "b", 3, "c", 4, "d", 5, "e", 6, "f", 7, "g", 8, "h", 9, "i",
        ))
        .insert()
        .lower::<Be>();
    let mut buffer = PreparedSql::<Be>::new();
    render_insert_tree::<Be, Pg>(&Pg, insert, &mut buffer);
    let Ok((sql, params)) = buffer.into_parts() else { panic!("every literal is encoded") };
    assert!(sql.ends_with("$16, $17, $18)"));
    let values: Vec<&P> = params
        .iter()
        .map(|param| match param {
            SqlParam::Static(value) => value,
            SqlParam::Runtime(_) => panic!("no runtime parameter"),
        })
        .collect();
    assert_eq!(values.len(), 18);
    assert_eq!(values[16..], [&P::Int(9), &P::Text("i".to_owned())]);
}

#[test]
fn sixteen_keys_group_a_query() {
    let selected = Db
        .from::<Post>()
        .group_by(|(p,)| {
            (
                p.id, p.user_id, p.score, p.id, p.user_id, p.score,
                p.id, p.user_id, p.score, p.id, p.user_id, p.score,
                p.id, p.user_id, p.score, p.id,
            )
        })
        .select(|(p,)| p.id);
    let keys = " GROUP BY q0_0.\"id\", q0_0.\"user_id\", q0_0.\"score\", q0_0.\"id\", \
        q0_0.\"user_id\", q0_0.\"score\", q0_0.\"id\", q0_0.\"user_id\", \
        q0_0.\"score\", q0_0.\"id\", q0_0.\"user_id\", q0_0.\"score\", \
        q0_0.\"id\", q0_0.\"user_id\", q0_0.\"score\", q0_0.\"id\"";
    assert!(select_sql(selected.lower::<Db, Be>()).ends_with(keys));
}

#[test]
fn sixteen_terms_order_a_query() {
    let selected = Db
        .from::<Post>()
        .order_by(|(p,)| {
            (
                p.id.asc(), p.user_id.asc(), p.score.asc(), p.id.asc(),
                p.user_id.asc(), p.score.asc(), p.id.asc(), p.user_id.asc(),
                p.score.asc(), p.id.asc(), p.user_id.asc(), p.score.asc(),
                p.id.asc(), p.user_id.asc(), p.score.asc(), p.id.desc(),
            )
        })
        .select(|(p,)| p.id);
    let terms = " ORDER BY q0_0.\"id\" ASC, q0_0.\"user_id\" ASC, q0_0.\"score\" ASC, q0_0.\"id\" ASC, \
        q0_0.\"user_id\" ASC, q0_0.\"score\" ASC, q0_0.\"id\" ASC, q0_0.\"user_id\" ASC, \
        q0_0.\"score\" ASC, q0_0.\"id\" ASC, q0_0.\"user_id\" ASC, q0_0.\"score\" ASC, \
        q0_0.\"id\" ASC, q0_0.\"user_id\" ASC, q0_0.\"score\" ASC, q0_0.\"id\" DESC";
    assert!(select_sql(selected.lower::<Db, Be>()).ends_with(terms));
}

#[test]
fn ten_sources_are_numbered_in_order() {
    let selected = Db
        .from::<Post>()
        .cross_join::<Post>()
        .cross_join::<Post>()
        .cross_join::<Post>()
        .cross_join::<Post>()
        .cross_join::<Post>()
        .cross_join::<Post>()
        .cross_join::<Post>()
        .cross_join::<Post>()
        .cross_join::<User>()
        .select(|(_, b, _, _, _, _, _, _, _, j)| (b.score, j.name));
    let sql = select_sql(selected.lower::<Db, Be>());
    assert!(sql.starts_with("SELECT q0_1.\"score\" AS \"score\", q0_9.\"name\" AS \"name\" FROM "));
    assert!(sql.ends_with(" CROSS JOIN \"public\".\"users\" AS q0_9"));
}

#[test]
fn an_upsert_without_columns_does_nothing() {
    let insert = |action: ConflictAction| InsertTree::<Bound<Be>> {
        table: TableRef { schema: None, name: Label::Static("t") },
        rows: List::one(List::Nil),
        conflict: Some(ConflictClause { target: vec!["id".to_owned()], action }),
        returning: List::Nil,
    };
    assert_eq!(
        insert_sql(&Pg, insert(ConflictAction::DoUpdateExcluded)),
        insert_sql(&Pg, insert(ConflictAction::DoNothing))
    );
}

#[test]
fn definitions_bind_nothing() {
    let selected = SourceQuery::where_(Db.from::<Post>(), |(p,)| p.id.equals(4))
        .select(|(p,)| p.id);
    let (alone, _) = prepared(selected.lower::<Db, Be>());
    let mut buffer = PreparedSql::<Be>::new();
    render_selected_prepared::<Db, _, _, _, _>(&Pg, &selected, &mut buffer);
    let Ok((sql, params)) = buffer.into_parts() else { panic!("every literal is encoded") };
    assert!(sql.ends_with(&alone));
    assert!(sql.len() > alone.len());
    assert_eq!(params.len(), 1);
    let mut bound = Vec::new();
    assert!(write_selected_params::<Db, _, _, _, _>(&Pg, &selected, &mut bound).is_ok());
    assert_eq!(bound, vec![P::Int(4)]);
}

#[test]
fn rows_of_different_length_are_refused() {
    let row = |names: Vec<&'static str>| {
        List::from_vec(
            names
                .into_iter()
                .map(|name| AssignmentTree::<Bound<Be>> {
                    column: Label::Static(name),
                    value: ValueTree::Default,
                })
                .collect(),
        )
    };
    let insert = InsertTree {
        table: TableRef { schema: None, name: Label::Static("t") },
        rows: List::one(row(vec!["a", "b"])).push(row(vec!["a"])),
        conflict: None,
        returning: List::Nil,
    };
    let mut out = String::new();
    assert_eq!(
        write_insert_tree::<Be, Pg>(&Pg, insert, &mut out),
        Err(RenderError::MismatchedRow)
    );
    assert_eq!(out, "INSERT INTO \"t\" (\"a\", \"b\") VALUES (DEFAULT, DEFAULT)");
}

#[test]
fn upserts_do_nothing_or_update() {
    let row = || {
        Db.to_columns::<User, (UserIdKey, UserNameKey)>().row((1, "a")).rows.head.columns
    };
    let alias = SourceAlias::new(0, 0);
    let columns = <User as SchemaTable>::column_exprs(alias);
    let target = || columns.id.column_names();
    let nothing = OnConflict::<Db, User, _>::new(&Db, row(), target()).do_nothing().insert();
    let update = OnConflict::<Db, User, _>::new(&Db, row(), target()).do_update().insert();
    assert_eq!(
        insert_sql(&Pg, nothing.lower::<Be>()),
        "INSERT INTO \"public\".\"users\" (\"id\", \"name\") VALUES ($1, $2) \
         ON CONFLICT (id) DO NOTHING"
    );
    assert_eq!(
        insert_sql(&Pg, update.lower::<Be>()),
        "INSERT INTO \"public\".\"users\" (\"id\", \"name\") VALUES ($1, $2) \
         ON CONFLICT (id) DO UPDATE SET \"id\" = EXCLUDED.\"id\", \"name\" = EXCLUDED.\"name\""
    );
    let returning =
        OnConflict::<Db, User, _>::new(&Db, row(), (columns.id, columns.name).column_names())
            .do_update()
            .insert_returning(|u| u.id);
    assert!(matches!(
        &returning.conflict,
        Some(ConflictClause { target, action: ConflictAction::DoUpdateExcluded })
            if *target == vec!["id".to_owned(), "name".to_owned()]
    ));
}

#[test]
fn updates_set_filter_and_return() {
    let statement = Db
        .to_columns::<User, (UserIdKey, UserNameKey)>()
        .set(|u| (u.id + 1, assign::default()))
        .where_(|u| u.id.equals(7))
        .where_(|u| u.name.equals("x"))
        .update();
    let mut out = String::new();
    write_update_tree::<Be, Pg>(&Pg, statement.lower::<Be>(), &mut out);
    assert_eq!(
        out,
        "UPDATE \"public\".\"users\" AS q0_0 SET \"id\" = (q0_0.\"id\" + $1), \"name\" = DEFAULT \
         WHERE (q0_0.\"id\" = $2) AND (q0_0.\"name\" = $3)"
    );
    let mut params = Vec::new();
    assert!(write_update_tree_params::<Be, Pg>(&Pg, statement.lower::<Be>(), &mut params).is_ok());
    assert_eq!(params, vec![P::Int(1), P::Int(7), P::Text("x".to_owned())]);
    let mut buffer = PreparedSql::<Be>::new();
    render_update_prepared::<User, Be, _, _, _, Pg>(
        &Pg,
        statement.alias,
        &statement.columns,
        &statement.filters,
        &statement.returning,
        &mut buffer,
    );
    let Ok((sql, binds)) = buffer.into_parts() else { panic!("every literal is encoded") };
    assert_eq!(sql, out);
    assert_eq!(binds.len(), 3);
    let mut bound = Vec::new();
    assert!(write_update_params::<User, Be, _, _, _, Pg>(
        &Pg,
        statement.alias,
        &statement.columns,
        &statement.filters,
        &statement.returning,
        &mut bound
    )
    .is_ok());
    assert_eq!(bound, params);
    let all = Db
        .to_columns::<User, (UserIdKey,)>()
        .set(|_| (5,))
        .all()
        .update_returning(|u| u.name);
    let mut out = String::new();
    write_update::<User, Be, _, _, _, Pg>(
        &Pg,
        all.alias,
        &all.columns,
        &all.filters,
        &all.returning,
        &mut out,
    );
    assert_eq!(
        out,
        "UPDATE \"public\".\"users\" AS q0_0 SET \"id\" = $1 RETURNING q0_0.\"name\" AS \"name\""
    );
}

#[test]
fn deletes_say_which_rows() {
    let some = SourceQuery::where_(Db.from::<User>(), |(u,)| u.id.less_than(3)).delete();
    let mut out = String::new();
    write_delete_tree::<Be, Pg>(&Pg, some.lower::<Be>(), &mut out);
    assert_eq!(
        out,
        "DELETE FROM \"public\".\"users\" AS q0_0 WHERE (q0_0.\"id\" < $1)"
    );
    let mut buffer = PreparedSql::<Be>::new();
    render_delete_prepared::<User, Be, _, _, Pg>(
        &Pg,
        some.alias,
        &some.filters,
        &some.returning,
        &mut buffer,
    );
    let Ok((sql, _)) = buffer.into_parts() else { panic!("every literal is encoded") };
    assert_eq!(sql, out);
    let mut bound = Vec::new();
    assert!(write_delete_params::<User, Be, _, _, Pg>(
        &Pg,
        some.alias,
        &some.filters,
        &some.returning,
        &mut bound
    )
    .is_ok());
    assert_eq!(bound, vec![P::Int(3)]);
    let all = Db.from::<User>().all().delete_returning(|u| u.id);
    let mut out = String::new();
    write_delete::<User, Be, _, _, Pg>(&Pg, all.alias, &all.filters, &all.returning, &mut out);
    assert_eq!(
        out,
        "DELETE FROM \"public\".\"users\" AS q0_0 RETURNING q0_0.\"id\" AS \"id\""
    );
}

#[test]
fn a_namespace_lists_no_tables_by_default() {
    assert!(<Public as Schema>::tables().is_empty());
}

#[test]
fn assigned_values_count_their_parameters() {
    assert_eq!(StaticAssignmentValue::new(3).param_count(), 1);
    assert_eq!(
        squealy::query::assign::DefaultAssignmentValue.param_count(),
        0
    );
    assert_eq!(
        squealy::query::assign::RuntimeAssignmentValue::<i32>::new().param_count(),
        1
    );
}
