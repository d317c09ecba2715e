//! The building blocks: texts, names, lists, rows, parameters and view bodies.
use squealy::backend::{Backend, Encode, SchemaCapabilities};
use squealy::chain::List;
use squealy::column::ColumnType;
use squealy::connection::QueryBuilder;
use squealy::expr::ddl::render_ddl_predicate;
use squealy::expr::window::{lag, ntile, row_number};
use squealy::expr::{param, ColumnRef};
use squealy::generator::{Generator, TableSchema};
use squealy::ir::BindValue;
use squealy::label::{Duplicate, Label};
use squealy::list::{FixedList, HCons, HNil, IntoPreparedParam, TupleAppend, TupleConcat};
use squealy::meta::{
    Column, ColumnMeta, ForeignKeyMeta, Index, IndexMeta, Schema, TablePrimaryKey, TableUnique,
    ViewColumnModel,
};
use squealy::model::{DatabaseModel, ForeignKeyAction, IdentityMode};
use squealy::node::{literals_to_sql, ExprNode, InlineLiteral, LogicalOp};
use squealy::number::{Blob, Float64};
use squealy::ops::{DateField, SourceAlias, UnaryStringFunc};
use squealy::params::PreparedParamValues;
use squealy::plan::DatabasePlan;
use squealy::projection::{
    Maybe, Projectable, ProjectionShape, QuerySource, RenderProjectable, SchemaTable,
};
use squealy::query::chain::SourceQuery;
use squealy::query::depth::{with_next_query_depth, QueryDepth};
use squealy::query::rows::{
    optional_row, required_row, with_affected, FirstRow, RowCollector, RowsAffected, Step,
    StreamEvent,
};
use squealy::schema::{SchemaBackend, SchemaIntrospect, SchemaRenderError};
use squealy::sql_type::SqlType;
use squealy::text::{push_decimal, push_quoted, push_signed_decimal, same_text};
use squealy::tree::CteDef;
use squealy::view::definition::{
    lower_view, view_definition_model, SchemaView, ViewDefinition, ViewSelect,
};
use squealy::view::{ModelBackend, ModelConn, ViewError};

fn list<T>(items: Vec<T>) -> List<T> {
    List::from_vec(items)
}

fn items<T>(list: &List<T>) -> Vec<&T> {
    let mut out = Vec::new();
    let mut rest = list;
    while let List::Cons { head, tail } = rest {
        out.push(&**head);
        rest = &**tail;
    }
    out
}

// ---------------------------------------------------------------------------
// Texts and names
// ---------------------------------------------------------------------------

#[test]
fn decimals_have_no_leading_zeros() {
    let mut out = String::new();
    push_decimal(&mut out, 0);
    out.push(' ');
    push_decimal(&mut out, 1090);
    out.push(' ');
    push_signed_decimal(&mut out, i128::MIN);
    assert_eq!(out, "0 1090 -170141183460469231731687303715884105728");
}

#[test]
fn quotes_are_doubled() {
    let mut out = String::new();
    push_quoted(&mut out, "it's", '\'');
    assert_eq!(out, "'it''s'");
    assert!(same_text("a", "a"));
    assert!(!same_text("a", "b"));
}

#[test]
fn aliases_spell_depth_and_place() {
    assert_eq!(SourceAlias::new(1, 12).to_sql(), "q1_12");
    assert_ne!(SourceAlias::new(1, 12).to_sql(), SourceAlias::new(11, 2).to_sql());
    assert_eq!(SourceAlias::new(3, 4).depth(), 3);
    assert_eq!(SourceAlias::new(3, 4).index(), 4);
}

#[test]
fn keywords_are_those_of_sql() {
    assert_eq!(DateField::Year.extract_keyword(), "YEAR");
    assert_eq!(DateField::Year.trunc_literal(), "year");
    assert_eq!(UnaryStringFunc::Trim.sql_name(), "TRIM");
}

#[test]
fn labels_compare_by_their_text() {
    let owned: Label = String::from("id").into();
    let fixed: Label = "id".into();
    assert_eq!(owned.as_str(), fixed.as_str());
    assert_eq!(owned.duplicate().as_str(), "id");
}

#[test]
fn blobs_keep_their_bytes() {
    let blob = Blob::from_slice(&[1, 2, 3]);
    assert_eq!(items(&blob.bytes), vec![&1, &2, &3]);
    let same = Blob::from_vec(vec![1, 2, 3]);
    assert_eq!(items(&same.bytes), items(&blob.bytes));
}

#[test]
fn fixed_lists_grow_at_the_end() {
    let pair = TupleAppend::append((1,), 2);
    assert_eq!(FixedList::len(&pair), 2);
    assert_eq!(FixedList::get(&pair, 1), Some(&2));
    assert_eq!(FixedList::get(&pair, 2), None);
}

// ---------------------------------------------------------------------------
// Bound values
// ---------------------------------------------------------------------------

#[test]
fn bound_values_ignore_their_width() {
    assert!(BindValue::int8(5) == BindValue::int64(5));
    assert!(BindValue::int8(5) != BindValue::uint8(5));
    assert!(BindValue::null() == BindValue::null());
    assert!(BindValue::text("a".to_owned()) != BindValue::bool(true));
    let nan = Float64 { bits: f64::NAN.to_bits() };
    assert!(BindValue::float64(nan) != BindValue::float64(nan));
    let zero = Float64 { bits: 0f64.to_bits() };
    let minus = Float64 { bits: (-0f64).to_bits() };
    assert!(BindValue::float64(zero) == BindValue::float64(minus));
}

// ---------------------------------------------------------------------------
// Rows
// ---------------------------------------------------------------------------

struct Be;

impl Backend for Be {
    type Error = &'static str;
    type Param = i64;
    type RowReader = ();

    fn no_rows_error() -> &'static str {
        "no rows"
    }
}

impl Encode<Be> for i32 {
    fn encode(&self) -> Result<List<i64>, &'static str> {
        Ok(List::one(i64::from(*self)))
    }
}

impl Encode<Be> for String {
    fn encode(&self) -> Result<List<i64>, &'static str> {
        match self.parse() {
            Ok(number) => Ok(List::one(number)),
            Err(_) => Err("not a number"),
        }
    }
}

struct Stream(Option<u64>);

impl RowsAffected for Stream {
    fn rows_affected(&self) -> Option<u64> {
        self.0
    }
}

fn collect(events: Vec<StreamEvent<i32, &'static str>>) -> Option<Result<Vec<i32>, &'static str>> {
    let mut state = RowCollector::new();
    for event in events {
        match state.on_event(event) {
            Step::More(next) => state = next,
            Step::Done(outcome) => return Some(outcome),
        }
    }
    None
}

#[test]
fn collecting_gives_all_rows_or_the_error() {
    assert_eq!(
        collect(vec![StreamEvent::Row(1), StreamEvent::Row(2), StreamEvent::End]),
        Some(Ok(vec![1, 2]))
    );
    assert_eq!(
        collect(vec![StreamEvent::Row(1), StreamEvent::Failed("broken"), StreamEvent::Row(2)]),
        Some(Err("broken"))
    );
    assert_eq!(collect(vec![StreamEvent::Row(1)]), None);
}

#[test]
fn the_first_row_is_kept_to_the_end() {
    let state = FirstRow::<i32>::new();
    let Step::More(state) = state.on_event::<&'static str>(StreamEvent::Row(1)) else {
        panic!("one row is not the end")
    };
    let Step::More(state) = state.on_event::<&'static str>(StreamEvent::Row(2)) else {
        panic!("two rows are not the end")
    };
    let Step::Done(outcome) = state.on_event::<&'static str>(StreamEvent::End) else {
        panic!("the end is the end")
    };
    assert_eq!(outcome, Ok(Some(1)));
    let Step::Done(failed) =
        FirstRow { first: Some(1) }.on_event(StreamEvent::Failed("late"))
    else {
        panic!("an error is the end")
    };
    assert_eq!(failed, Err("late"));
}

#[test]
fn a_required_row_has_to_be_there() {
    assert_eq!(required_row::<Be, i32>(optional_row(StreamEvent::Row(3))), Ok(3));
    assert_eq!(required_row::<Be, i32>(optional_row(StreamEvent::End)), Err("no rows"));
    assert_eq!(
        required_row::<Be, i32>(optional_row(StreamEvent::Failed("broken"))),
        Err("broken")
    );
    assert_eq!(
        with_affected::<_, &'static str, _>(Ok(1), &Stream(Some(4))),
        Ok((1, 4))
    );
    assert_eq!(with_affected::<_, &'static str, _>(Ok(1), &Stream(None)), Ok((1, 0)));
}

// ---------------------------------------------------------------------------
// Parameters of prepared statements
// ---------------------------------------------------------------------------

#[test]
fn supplied_values_are_encoded_in_order() {
    type Shape = HCons<i32, HCons<String, HNil>>;
    let values = (4, "5");
    let all = PreparedParamValues::<Shape, Be>::write_params(&values);
    assert_eq!(all.as_ref().map(|params| items(params)), Ok(vec![&4, &5]));
    let second = PreparedParamValues::<Shape, Be>::write_param_at(&values, 1);
    assert_eq!(second.as_ref().map(|p| p.as_ref().map(|params| items(params))), Ok(Some(vec![&5])));
    assert!(matches!(
        PreparedParamValues::<Shape, Be>::write_param_at(&values, 2),
        Ok(None)
    ));
    assert!(matches!(
        PreparedParamValues::<Shape, Be>::write_params(&(4, "x")),
        Err("not a number")
    ));
    assert!(matches!(
        PreparedParamValues::<HNil, Be>::write_params(&()),
        Ok(List::Nil)
    ));
}

#[test]
fn many_values_are_encoded_in_order() {
    type One<Rest> = HCons<i32, Rest>;
    type Shape = One<One<One<One<One<One<One<One<One<HNil>>>>>>>>>;
    let values = (1, 2, 3, 4, 5, 6, 7, 8, 9);
    let all = PreparedParamValues::<Shape, Be>::write_params(&values);
    assert_eq!(
        all.as_ref().map(|params| items(params)),
        Ok(vec![&1, &2, &3, &4, &5, &6, &7, &8, &9])
    );
    assert!(matches!(
        PreparedParamValues::<Shape, Be>::write_param_at(&values, 9),
        Ok(None)
    ));
}

#[test]
fn the_widest_tuple_of_values_is_encoded_in_order() {
    type Four<Rest> = HCons<i32, HCons<i32, HCons<i32, HCons<i32, Rest>>>>;
    type Shape = Four<Four<Four<Four<Four<Four<Four<Four<HNil>>>>>>>>;
    let values = (
        0, 1, 2, 3, 4, 5, 6, 7, 8, 9, 10, 11, 12, 13, 14, 15, 16, 17, 18, 19, 20, 21, 22, 23, 24,
        25, 26, 27, 28, 29, 30, 31,
    );
    let Ok(all) = PreparedParamValues::<Shape, Be>::write_params(&values) else {
        panic!("every value is encoded")
    };
    assert_eq!(items(&all).into_iter().copied().collect::<Vec<i64>>(), (0..32).collect::<Vec<_>>());
    let Ok(Some(one)) = PreparedParamValues::<Shape, Be>::write_param_at(&values, 17) else {
        panic!("the value is there")
    };
    assert_eq!(items(&one), vec![&17]);
    assert!(matches!(PreparedParamValues::<Shape, Be>::write_param_at(&values, 32), Ok(None)));
}

#[test]
fn fixed_lists_are_joined_and_walked() {
    let joined = TupleConcat::concat((1, 2, 3, 4, 5), (6, 7, 8, 9, 10, 11));
    assert_eq!(joined, (1, 2, 3, 4, 5, 6, 7, 8, 9, 10, 11));
    let seen = std::cell::RefCell::new(Vec::new());
    let result = FixedList::try_for_each(&joined, |item: &i32| {
        seen.borrow_mut().push(*item);
        if *item == 4 {
            Err("four")
        } else {
            Ok(())
        }
    });
    assert_eq!(result, Err("four"));
    assert_eq!(*seen.borrow(), vec![1, 2, 3, 4]);
    assert_eq!(FixedList::len(&joined), 11);
}

#[test]
fn the_widest_projection_keeps_its_order() {
    let columns = <User as ProjectionShape>::exprs(SourceAlias::new(0, 0));
    let (i, n) = (columns.id, columns.name);
    let widest = (
        i, n, i, n, i, n, i, n, i, n, i, n, i, n, i, n, n, i, n, i, n, i, n, i, n, i, n, i, n, i,
        n, i,
    );
    let lowered = RenderProjectable::<ModelBackend>::lower_projection_with_prefix(&widest, "u");
    let names: Vec<&str> = items(&lowered).iter().map(|item| item.alias.as_str()).collect();
    assert_eq!(names.len(), 32);
    assert_eq!(names[14..18], ["u_id", "u_name", "u_name", "u_id"]);
}

#[test]
fn window_functions_may_stand_in_views() {
    let selected = ModelConn.from::<User>().project(|(u,)| {
        (
            row_number().over(|w| w.order_by(u.id.asc())),
            lag(u.id, 2).over(|w| w.partition_by(u.name)),
            ntile(4).over(|w| w.order_by(u.id.desc())),
        )
    });
    let Ok(body) = lower_view(&selected) else { panic!("the body has no parameters") };
    let counts: Vec<usize> = items(&body.projection)
        .iter()
        .map(|item| match &item.expr {
            ExprNode::Window { args, .. } => items(args).len(),
            _ => panic!("a window function"),
        })
        .collect();
    assert_eq!(counts, vec![0, 2, 1]);
    assert_eq!(body.clone(), body);
}

#[test]
fn wide_projections_keep_their_order() {
    let columns = <User as ProjectionShape>::exprs(SourceAlias::new(0, 0));
    let (i, n) = (columns.id, columns.name);
    let wide = (i, n, i, n, i, n, i, n, i, n, n, i);
    let lowered = RenderProjectable::<ModelBackend>::lower_projection(&wide);
    let names: Vec<&str> = items(&lowered).iter().map(|item| item.alias.as_str()).collect();
    assert_eq!(
        names,
        vec![
            "id", "name", "id", "name", "id", "name", "id", "name", "id", "name", "name", "id"
        ]
    );
}

#[test]
fn borrowed_values_become_owned_parameters() {
    let text: String = "a".into_prepared_param();
    assert_eq!(text, "a");
    let none: Option<String> = None::<&str>.into_prepared_param();
    assert_eq!(none, None);
}

// ---------------------------------------------------------------------------
// Projections and view bodies
// ---------------------------------------------------------------------------

struct Public;

impl Schema for Public {
    fn name() -> Option<&'static str> {
        Some("public")
    }
}

struct Cols<'scope> {
    id: ColumnRef<'scope, i32>,
    name: ColumnRef<'scope, String>,
}

impl<'scope> Duplicate for Cols<'scope> {
    fn duplicate(&self) -> Self {
        Cols { id: self.id, name: self.name }
    }
}

impl<'scope> Projectable for Cols<'scope> {
    type Rebound<'other> = ();

    fn re_alias<'other>(&self, _alias: SourceAlias) -> Self::Rebound<'other> {}

    fn re_alias_with_prefix<'other>(
        &self,
        _alias: SourceAlias,
        _prefix: &str,
    ) -> Self::Rebound<'other> {
    }
}

struct User;

impl SchemaTable for User {
    type Schema = Public;
    type Names = [&'static str; 2];
    type Row = (i32, String);
    type NullableRow = (Option<i32>, Option<String>);
    type Exprs<'scope> = Cols<'scope>;
    type NullableExprs<'scope> = Cols<'scope>;

    fn name() -> &'static str {
        "users"
    }

    fn columns() -> List<&'static dyn Column> {
        List::Nil
    }

    fn indexes() -> List<&'static dyn Index> {
        List::Nil
    }

    fn primary_key() -> Option<TablePrimaryKey> {
        None
    }

    fn uniques() -> List<TableUnique> {
        List::Nil
    }

    fn column_names() -> [&'static str; 2] {
        ["id", "name"]
    }

    fn column_exprs_from<'scope>(
        alias: SourceAlias,
        columns: &[&'static str; 2],
    ) -> Cols<'scope> {
        Cols {
            id: ColumnRef::column(alias, columns[0]),
            name: ColumnRef::column(alias, columns[1]),
        }
    }

    fn nullable_column_exprs_from<'scope>(
        alias: SourceAlias,
        columns: &[&'static str; 2],
    ) -> Cols<'scope> {
        Self::column_exprs_from(alias, columns)
    }
}

impl QuerySource for User {
    fn cte_def() -> Option<CteDef> {
        None
    }
}

#[test]
fn shapes_give_their_columns() {
    let alias = SourceAlias::new(2, 1);
    let columns = <User as ProjectionShape>::exprs(alias);
    assert_eq!(columns.id.alias.to_sql(), "q2_1");
    assert_eq!(Maybe::<User>::exprs(alias).name.project_alias(), "name");
    assert_eq!(<User as SchemaTable>::qualified_name().as_str(), "public.users");
    let value = <i32 as ProjectionShape>::exprs(alias);
    assert_eq!(value.project_alias(), "expr");
}

#[test]
fn prefixes_stand_before_output_names() {
    let alias = SourceAlias::new(0, 0);
    let columns = <User as ProjectionShape>::exprs(alias);
    let both = (columns.id, columns.name);
    let plain = RenderProjectable::<ModelBackend>::lower_projection(&both);
    let names: Vec<&str> = items(&plain).iter().map(|item| item.alias.as_str()).collect();
    assert_eq!(names, vec!["id", "name"]);
    let prefixed = RenderProjectable::<ModelBackend>::lower_projection_with_prefix(&both, "u");
    let names: Vec<&str> = items(&prefixed).iter().map(|item| item.alias.as_str()).collect();
    assert_eq!(names, vec!["u_id", "u_name"]);
    let rebound = columns.id.re_alias_with_prefix(SourceAlias::new(1, 0), "u");
    assert_eq!(rebound.ast.column.as_str(), "u_id");
    assert_eq!(rebound.project_alias(), "id");
    assert_eq!(columns.id.re_alias(SourceAlias::new(1, 0)).ast.column.as_str(), "id");
}

#[test]
fn view_bodies_inline_their_literals() {
    let selected = SourceQuery::where_(ModelConn.from::<User>(), |(u,)| u.name.equals("it's"))
        .limit(5)
        .project(|(u,)| (u.id, u.name));
    let Ok(body) = selected_body(&selected) else { panic!("the body has no parameters") };
    assert_eq!(body.limit, Some(5));
    assert_eq!(items(&body.projection).len(), 2);
    let Some(ExprNode::Compare { right, .. }) = body.filter else { panic!("one condition") };
    let ExprNode::Literal(literals) = *right else { panic!("a literal") };
    assert_eq!(literals_to_sql(&literals), "'it''s'");
}

fn selected_body<Q: ViewSelect>(
    query: &Q,
) -> Result<squealy::node::ViewQueryModel, ViewError> {
    query.lower()
}

#[test]
fn view_conditions_are_joined_by_and() {
    let selected = SourceQuery::where_(ModelConn.from::<User>(), |(u,)| u.id.equals(1));
    let selected = SourceQuery::where_(selected, |(u,)| u.id.equals(2)).project(|(u,)| u.id);
    let Ok(body) = lower_view(&selected) else { panic!("the body has no parameters") };
    assert!(matches!(
        body.filter,
        Some(ExprNode::Logical { op: LogicalOp::And, .. })
    ));
}

#[test]
fn a_runtime_parameter_is_no_view_literal() {
    let selected =
        SourceQuery::where_(ModelConn.from::<User>(), |(u,)| u.id.equals(param::<i32>()))
            .project(|(u,)| u.id);
    assert!(matches!(lower_view(&selected), Err(ViewError::RuntimeParameter)));
    assert_eq!(
        ViewError::RuntimeParameter.message(),
        "a view body cannot contain a runtime parameter"
    );
}

struct Names;

impl SchemaView for Names {
    type Row = String;

    fn schema_name() -> Option<&'static str> {
        None
    }

    fn view_name() -> &'static str {
        "names"
    }

    fn view_columns() -> List<ViewColumnModel> {
        list(vec![ViewColumnModel {
            name: Label::Static("name"),
            ty: SqlType::String,
            nullable: false,
        }])
    }
}

struct NamesQuery;

impl ViewSelect for NamesQuery {
    type Row = String;

    fn lower(&self) -> Result<squealy::node::ViewQueryModel, ViewError> {
        lower_view(&ModelConn.from::<User>().distinct().project(|(u,)| u.name))
    }
}

impl ViewDefinition for Names {
    type Query = NamesQuery;

    fn definition(_db: &'static ModelConn) -> NamesQuery {
        NamesQuery
    }
}

#[test]
fn a_view_registers_from_its_type() {
    let Ok(body) = view_definition_model::<Names>(&ModelConn) else { panic!("a body") };
    assert!(body.distinct);
    assert_eq!(items(&body.projection)[0].output_name.as_str(), "name");
}

#[test]
fn index_predicates_render_without_aliases() {
    let columns = <User as ProjectionShape>::exprs(SourceAlias::new(0, 0));
    assert_eq!(
        render_ddl_predicate(&columns.id.equals(3).and(columns.name.equals("x"))),
        "((\"id\" = 3) AND (\"name\" = 'x'))"
    );
}

#[test]
fn literals_spell_themselves() {
    let literals = list(vec![InlineLiteral::Null]);
    assert_eq!(literals_to_sql(&literals), "NULL");
    assert_eq!(literals_to_sql(&list(vec![InlineLiteral::Bool(true)])), "TRUE");
    assert_eq!(literals_to_sql(&list(vec![InlineLiteral::Int(-7)])), "-7");
}

// ---------------------------------------------------------------------------
// Depths, schemas and generators
// ---------------------------------------------------------------------------

#[test]
fn depths_return_to_what_they_were() {
    let top = QueryDepth::top();
    let depths = with_next_query_depth(top, |outer, inside| {
        (outer, with_next_query_depth(inside, |inner, _| inner))
    });
    assert_eq!(depths, (0, 1));
    assert_eq!(top.depth, 0);
}

struct Quiet;

impl SchemaBackend for Quiet {
    fn render_create(&self, model: &DatabaseModel) -> Result<String, SchemaRenderError> {
        Ok(format!("{} schemas", model.schemas.len()))
    }
}

impl SchemaIntrospect for Quiet {}

#[test]
fn a_quiet_backend_promises_nothing() {
    let plan = DatabasePlan { steps: Vec::new() };
    assert!(plan.is_empty());
    assert_eq!(Quiet.render_plan(&plan), Err(SchemaRenderError::Unsupported));
    assert_eq!(Quiet.render_plan_concurrent(&plan), Err(SchemaRenderError::Unsupported));
    assert_eq!(
        SchemaRenderError::Unsupported.message(),
        "backend does not support incremental schema plan rendering"
    );
    assert_eq!(Quiet.capabilities(), SchemaCapabilities::default());
    assert_eq!(Quiet.canonical_sql_type(&SqlType::Text), SqlType::Text);
    assert_eq!(Quiet.canonical_identity_mode(&IdentityMode::ByDefault), IdentityMode::ByDefault);
    assert_eq!(Quiet.canonical_primary_key_name("pk"), "pk");
    assert_eq!(Quiet.default_index_method(), None);
}

#[test]
fn foreign_key_actions_are_recognised() {
    assert_eq!(ForeignKeyAction::from_sql("set null"), ForeignKeyAction::SetNull);
    assert_eq!(ForeignKeyAction::from_sql("explode"), ForeignKeyAction::Raw("explode"));
}

#[test]
fn column_types_become_sql_types() {
    assert_eq!(SqlType::from(ColumnType::Varchar(16)), SqlType::Varchar(16));
    assert_eq!(SqlType::from(ColumnType::Bool), SqlType::Bool);
}

struct Plain;

impl Generator for Plain {
    fn create_table_statement(&self, schema: &TableSchema) -> String {
        format!("CREATE TABLE {}", schema.name)
    }

    fn create_index_statement(&self, table: &TableSchema, index: &IndexMeta) -> String {
        format!("CREATE INDEX ON {} ({})", table.name, items(&index.columns).len())
    }

    fn column_definition(&self, column: &ColumnMeta) -> String {
        column.name.to_owned()
    }

    fn foreign_key_reference(&self, reference: &ForeignKeyMeta) -> String {
        reference.table.to_owned()
    }
}

#[test]
fn a_table_is_created_before_its_indexes() {
    let schema = TableSchema {
        name: "t",
        columns: vec![ColumnMeta::new("a", ColumnType::I32)],
        indexes: vec![IndexMeta {
            name: None,
            columns: list(vec!["a"]),
            unique: false,
            predicate: None,
        }],
    };
    assert_eq!(
        Plain.create_table(&schema),
        vec!["CREATE TABLE t".to_owned(), "CREATE INDEX ON t (1)".to_owned()]
    );
}
