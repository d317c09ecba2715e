//! Walking database metadata into the neutral model.
use squealy::chain::List;
use squealy::column::ColumnType;
use squealy::meta::{
    Column, ColumnMeta, Database, DatabaseSchema, ForeignKeyMeta, Index, IndexMeta, Table,
    TablePrimaryKey, TableUnique, ViewDef,
};
use squealy::model::{
    Constraint, DatabaseModel, ForeignKeyAction, ForeignKeyModel, IdentityMode, IdentityModel,
    TableModel,
};
use squealy::node::{ExprNode, InlineLiteral};
use squealy::sql_type::SqlType;

fn list<T>(items: Vec<T>) -> List<T> {
    List::from_vec(items)
}

fn items<T>(list: &List<T>) -> Vec<&T> {
    let mut out = Vec::new();
    let mut rest = list;
    while let List::Cons { head, tail } = rest {
        out.push(&**head);
        rest = &**tail;
    }
    out
}

struct TestColumn(fn() -> ColumnMeta);

impl Column for TestColumn {
    fn meta(&self) -> ColumnMeta {
        (self.0)()
    }
}

struct TestIndex(fn() -> IndexMeta);

impl Index for TestIndex {
    fn meta(&self) -> IndexMeta {
        (self.0)()
    }
}

struct TestTable {
    name: &'static str,
    columns: fn() -> Vec<TestColumn>,
    indexes: fn() -> Vec<TestIndex>,
    primary_key: fn() -> Option<TablePrimaryKey>,
    uniques: fn() -> Vec<TableUnique>,
}

fn leak<T>(value: T) -> &'static T {
    Box::leak(Box::new(value))
}

impl Table for TestTable {
    fn schema_name(&self) -> Option<&'static str> {
        Some("public")
    }

    fn name(&self) -> &'static str {
        self.name
    }

    fn columns(&self) -> List<&'static dyn Column> {
        list((self.columns)().into_iter().map(|c| leak(c) as &'static dyn Column).collect())
    }

    fn indexes(&self) -> List<&'static dyn Index> {
        list((self.indexes)().into_iter().map(|i| leak(i) as &'static dyn Index).collect())
    }

    fn primary_key(&self) -> Option<TablePrimaryKey> {
        (self.primary_key)()
    }

    fn uniques(&self) -> List<TableUnique> {
        list((self.uniques)())
    }
}

fn column(name: &'static str, ty: ColumnType) -> ColumnMeta {
    ColumnMeta::new(name, ty)
}

fn users() -> TestTable {
    TestTable {
        name: "users",
        columns: || {
            vec![
                TestColumn(|| {
                    let mut id = column("id", ColumnType::I32);
                    id.primary_key = true;
                    id.auto_increment = true;
                    id
                }),
                TestColumn(|| {
                    let mut email = column("email", ColumnType::String);
                    email.unique = true;
                    email
                }),
                TestColumn(|| {
                    let mut name = column("name", ColumnType::String);
                    name.indexed = true;
                    name
                }),
                TestColumn(|| column("code", ColumnType::Varchar(16))),
                TestColumn(|| column("payload", ColumnType::Jsonb)),
            ]
        },
        indexes: || {
            vec![TestIndex(|| IndexMeta {
                name: None,
                columns: list(vec!["name"]),
                unique: false,
                predicate: None,
            })]
        },
        primary_key: || None,
        uniques: Vec::new,
    }
}

fn posts() -> TestTable {
    TestTable {
        name: "posts",
        columns: || {
            vec![
                TestColumn(|| {
                    let mut id = column("id", ColumnType::I32);
                    id.primary_key = true;
                    id.auto_increment = true;
                    id
                }),
                TestColumn(|| {
                    let mut user_id = column("user_id", ColumnType::I32);
                    let mut reference = ForeignKeyMeta::new("users", "id");
                    reference.schema_name = Some("public");
                    reference.on_delete = Some("cascade");
                    user_id.references = Some(reference);
                    user_id
                }),
                TestColumn(|| column("title", ColumnType::String)),
            ]
        },
        indexes: Vec::new,
        primary_key: || None,
        uniques: Vec::new,
    }
}

fn memberships() -> TestTable {
    TestTable {
        name: "memberships",
        columns: || {
            vec![
                TestColumn(|| column("tenant_id", ColumnType::I64)),
                TestColumn(|| column("id", ColumnType::I64)),
                TestColumn(|| column("role", ColumnType::String)),
            ]
        },
        indexes: Vec::new,
        primary_key: || {
            Some(TablePrimaryKey { name: None, columns: list(vec!["tenant_id", "id"]) })
        },
        uniques: Vec::new,
    }
}

fn named_memberships() -> TestTable {
    TestTable {
        name: "named_memberships",
        columns: || {
            vec![
                TestColumn(|| column("tenant_id", ColumnType::I64)),
                TestColumn(|| column("id", ColumnType::I64)),
            ]
        },
        indexes: Vec::new,
        primary_key: || {
            Some(TablePrimaryKey {
                name: Some("membership_pk"),
                columns: list(vec!["tenant_id", "id"]),
            })
        },
        uniques: Vec::new,
    }
}

fn repositories() -> TestTable {
    TestTable {
        name: "repositorys",
        columns: || {
            vec![
                TestColumn(|| {
                    let mut id = column("id", ColumnType::I64);
                    id.primary_key = true;
                    id
                }),
                TestColumn(|| column("organization_id", ColumnType::I64)),
                TestColumn(|| column("slug", ColumnType::String)),
            ]
        },
        indexes: Vec::new,
        primary_key: || None,
        uniques: || {
            vec![TableUnique {
                name: None,
                columns: list(vec!["organization_id", "slug"]),
                predicate: None,
            }]
        },
    }
}

fn widgets() -> TestTable {
    TestTable {
        name: "widgets",
        columns: || {
            vec![
                TestColumn(|| {
                    let mut id = column("id", ColumnType::I64);
                    id.primary_key = true;
                    id
                }),
                TestColumn(|| {
                    let mut tenant_id = column("tenant_id", ColumnType::I64);
                    tenant_id.unique = true;
                    tenant_id
                }),
                TestColumn(|| column("sku", ColumnType::String)),
                TestColumn(|| column("label", ColumnType::String)),
            ]
        },
        indexes: Vec::new,
        primary_key: || None,
        uniques: || {
            vec![
                TableUnique {
                    name: Some("uq_widget_sku"),
                    columns: list(vec!["tenant_id", "sku"]),
                    predicate: None,
                },
                TableUnique {
                    name: None,
                    columns: list(vec!["tenant_id", "label"]),
                    predicate: None,
                },
            ]
        },
    }
}

fn coupons() -> TestTable {
    TestTable {
        name: "coupons",
        columns: || {
            vec![
                TestColumn(|| column("code", ColumnType::String)),
                TestColumn(|| column("live", ColumnType::Bool)),
            ]
        },
        indexes: Vec::new,
        primary_key: || None,
        uniques: || {
            vec![TableUnique {
                name: None,
                columns: list(vec!["code"]),
                predicate: Some(ExprNode::Literal(list(vec![InlineLiteral::Bool(true)]))),
            }]
        },
    }
}

struct TestSchema(fn() -> Vec<TestTable>);

impl DatabaseSchema for TestSchema {
    fn name(&self) -> Option<&'static str> {
        Some("public")
    }

    fn tables(&self) -> List<&'static dyn Table> {
        list((self.0)().into_iter().map(|t| leak(t) as &'static dyn Table).collect())
    }

    fn views(&self) -> List<&'static dyn ViewDef> {
        List::Nil
    }
}

struct App;

impl Database for App {
    fn schemas() -> List<&'static dyn DatabaseSchema> {
        list(vec![leak(TestSchema(|| vec![users(), posts()])) as &'static dyn DatabaseSchema])
    }
}

struct CompositeApp;

impl Database for CompositeApp {
    fn schemas() -> List<&'static dyn DatabaseSchema> {
        list(vec![leak(TestSchema(|| {
            vec![memberships(), named_memberships(), repositories(), widgets()]
        })) as &'static dyn DatabaseSchema])
    }
}

struct PartialApp;

impl Database for PartialApp {
    fn schemas() -> List<&'static dyn DatabaseSchema> {
        list(vec![leak(TestSchema(|| vec![coupons()])) as &'static dyn DatabaseSchema])
    }
}

fn table<'a>(model: &'a DatabaseModel, name: &str) -> &'a TableModel {
    model.schemas[0]
        .tables
        .iter()
        .find(|table| table.name == name)
        .unwrap_or_else(|| panic!("table `{name}` not found"))
}

#[test]
fn walks_schema_and_tables() {
    let model = DatabaseModel::from_database::<App>();

    assert_eq!(model.schemas.len(), 1);
    assert_eq!(model.schemas[0].name.as_deref(), Some("public"));
    assert_eq!(model.schemas[0].tables.len(), 2);
}

#[test]
fn hoists_primary_key_unique_and_index() {
    let model = DatabaseModel::from_database::<App>();
    let users = table(&model, "users");

    assert_eq!(
        users.primary_key,
        Some(Constraint { name: "pk_users".to_owned(), columns: vec!["id".to_owned()] })
    );
    assert_eq!(
        users.uniques,
        vec![Constraint { name: "uq_users_email".to_owned(), columns: vec!["email".to_owned()] }]
    );
    assert!(
        users.indexes.iter().any(|index| index.columns == vec!["name".to_owned()]),
        "expected an index on `name`: {:?}",
        users.indexes
    );

    let id = &users.columns[0];
    assert_eq!(id.name, "id");
    assert_eq!(id.ty, SqlType::I32);
    assert_eq!(id.identity, Some(IdentityModel { mode: IdentityMode::ByDefault }));
    assert!(!id.nullable);
}

#[test]
fn table_level_compound_primary_key_preserves_column_order() {
    let model = DatabaseModel::from_database::<CompositeApp>();
    let memberships = table(&model, "memberships");

    assert_eq!(
        memberships.primary_key,
        Some(Constraint {
            name: "pk_memberships".to_owned(),
            columns: vec!["tenant_id".to_owned(), "id".to_owned()],
        })
    );
}

#[test]
fn table_level_primary_key_name_override_flows_through() {
    let model = DatabaseModel::from_database::<CompositeApp>();
    let named = table(&model, "named_memberships");

    assert_eq!(
        named.primary_key,
        Some(Constraint {
            name: "membership_pk".to_owned(),
            columns: vec!["tenant_id".to_owned(), "id".to_owned()],
        })
    );
}

#[test]
fn table_level_composite_unique_emits_constraint() {
    let model = DatabaseModel::from_database::<CompositeApp>();
    let repository = table(&model, "repositorys");

    assert_eq!(
        repository.uniques,
        vec![Constraint {
            name: "uq_repositorys_organization_id_slug".to_owned(),
            columns: vec!["organization_id".to_owned(), "slug".to_owned()],
        }]
    );
}

#[test]
fn table_level_unique_combines_column_marker_name_override_and_multiples() {
    let model = DatabaseModel::from_database::<CompositeApp>();
    let widget = table(&model, "widgets");

    assert_eq!(
        widget.uniques,
        vec![
            Constraint {
                name: "uq_widgets_tenant_id".to_owned(),
                columns: vec!["tenant_id".to_owned()],
            },
            Constraint {
                name: "uq_widget_sku".to_owned(),
                columns: vec!["tenant_id".to_owned(), "sku".to_owned()],
            },
            Constraint {
                name: "uq_widgets_tenant_id_label".to_owned(),
                columns: vec!["tenant_id".to_owned(), "label".to_owned()],
            },
        ]
    );
}

#[test]
fn maps_db_type_columns_into_structured_sql_types() {
    let model = DatabaseModel::from_database::<App>();
    let users = table(&model, "users");

    let column = |name: &str| {
        users
            .columns
            .iter()
            .find(|column| column.name == name)
            .unwrap_or_else(|| panic!("column `{name}` not found"))
    };

    assert_eq!(column("code").ty, SqlType::Varchar(16));
    assert_eq!(column("payload").ty, SqlType::Jsonb);
}

#[test]
fn hoists_foreign_key() {
    let model = DatabaseModel::from_database::<App>();
    let posts = table(&model, "posts");

    assert_eq!(
        posts.foreign_keys,
        vec![ForeignKeyModel {
            name: "fk_posts_user_id".to_owned(),
            columns: vec!["user_id".to_owned()],
            references_schema: Some("public".to_owned()),
            references_table: "users".to_owned(),
            references_columns: vec!["id".to_owned()],
            match_type: None,
            deferrability: None,
            validation: None,
            enforcement: None,
            on_delete: Some(ForeignKeyAction::Cascade),
            on_update: None,
        }]
    );
}

#[test]
fn unique_with_a_predicate_becomes_an_index() {
    let model = DatabaseModel::from_database::<PartialApp>();
    let coupons = table(&model, "coupons");

    assert!(coupons.uniques.is_empty());
    assert_eq!(coupons.indexes.len(), 1);
    assert!(coupons.indexes[0].unique);
    assert!(coupons.indexes[0].predicate.is_some());
    assert_eq!(coupons.indexes[0].columns, vec!["code".to_owned()]);
}

#[test]
fn qualified_names_carry_the_schema() {
    assert_eq!(users().qualified_name().as_str(), "public.users");
}

#[test]
fn metadata_answers_one_question_at_a_time() {
    let table = users();
    let columns = table.columns();
    let all = items(&columns);
    assert_eq!(all[0].name(), "id");
    assert!(all[0].primary_key());
    assert!(!all[0].updateable());
    assert!(all[1].updateable());
}

#[test]
fn copies_of_models_are_equal() {
    let model = DatabaseModel::from_database::<App>();
    assert_eq!(model.clone(), model);
    assert!(DatabaseModel::default().schemas.is_empty());
}
