//! Compile-time schema metadata: what table, column, index and view types say about themselves.
use crate::chain::List;
use crate::column::{ColumnDefault, ColumnType};
use crate::label::Label;
use crate::node::{ExprNode, ViewQueryModel};
use crate::sql_type::SqlType;
use vstd::prelude::*;

verus! {

/// What a column says about itself.
#[derive(Debug, PartialEq)]
pub struct ColumnMeta {
    pub name: &'static str,
    pub primary_key: bool,
    pub indexed: bool,
    pub unique: bool,
    /// The predicate of a partial unique index on this column alone.
    pub unique_predicate: Option<ExprNode>,
    pub nullable: bool,
    pub auto_increment: bool,
    pub generated: bool,
    pub default: Option<ColumnDefault>,
    pub column_type: ColumnType,
    /// A `CHECK` expression, emitted verbatim.
    pub check: Option<&'static str>,
    pub references: Option<ForeignKeyMeta>,
}

impl ColumnMeta {
    /// A plain column: not null, without keys, default or constraints.
    pub fn new(name: &'static str, column_type: ColumnType) -> (meta: ColumnMeta)
        ensures
            meta == (ColumnMeta {
                name,
                primary_key: false,
                indexed: false,
                unique: false,
                unique_predicate: None,
                nullable: false,
                auto_increment: false,
                generated: false,
                default: None,
                column_type,
                check: None,
                references: None,
            }),
    {
        ColumnMeta {
            name,
            primary_key: false,
            indexed: false,
            unique: false,
            unique_predicate: None,
            nullable: false,
            auto_increment: false,
            generated: false,
            default: None,
            column_type,
            check: None,
            references: None,
        }
    }
}

/// What a foreign key says about itself.
#[derive(Clone, Copy, Debug, PartialEq)]
pub struct ForeignKeyMeta {
    pub schema_name: Option<&'static str>,
    pub table: &'static str,
    pub column: &'static str,
    pub on_delete: Option<&'static str>,
    pub on_update: Option<&'static str>,
}

impl ForeignKeyMeta {
    /// A reference to a column, without a schema or actions.
    pub fn new(table: &'static str, column: &'static str) -> (meta: ForeignKeyMeta)
        ensures
            meta == (ForeignKeyMeta {
                schema_name: None,
                table,
                column,
                on_delete: None,
                on_update: None,
            }),
    {
        ForeignKeyMeta { schema_name: None, table, column, on_delete: None, on_update: None }
    }
}

/// What an index says about itself.
#[derive(Debug, PartialEq)]
pub struct IndexMeta {
    pub name: Option<&'static str>,
    pub columns: List<&'static str>,
    pub unique: bool,
    pub predicate: Option<ExprNode>,
}

/// Schema metadata of a column.
pub trait Column {
    /// What the column says about itself.
    open spec fn spec_meta(&self) -> ColumnMeta {
        arbitrary()
    }

    fn meta(&self) -> (meta: ColumnMeta)
        ensures
            meta == self.spec_meta(),
    ;

    fn name(&self) -> (value: &'static str)
        ensures
            value == self.spec_meta().name,
    {
        self.meta().name
    }

    fn primary_key(&self) -> (value: bool)
        ensures
            value == self.spec_meta().primary_key,
    {
        self.meta().primary_key
    }

    fn indexed(&self) -> (value: bool)
        ensures
            value == self.spec_meta().indexed,
    {
        self.meta().indexed
    }

    fn unique(&self) -> (value: bool)
        ensures
            value == self.spec_meta().unique,
    {
        self.meta().unique
    }

    fn unique_predicate(&self) -> (value: Option<ExprNode>)
        ensures
            value == self.spec_meta().unique_predicate,
    {
        self.meta().unique_predicate
    }

    fn nullable(&self) -> (value: bool)
        ensures
            value == self.spec_meta().nullable,
    {
        self.meta().nullable
    }

    fn auto_increment(&self) -> (value: bool)
        ensures
            value == self.spec_meta().auto_increment,
    {
        self.meta().auto_increment
    }

    fn generated(&self) -> (value: bool)
        ensures
            value == self.spec_meta().generated,
    {
        self.meta().generated
    }

    fn default(&self) -> (value: Option<ColumnDefault>)
        ensures
            value == self.spec_meta().default,
    {
        self.meta().default
    }

    fn column_type(&self) -> (value: ColumnType)
        ensures
            value == self.spec_meta().column_type,
    {
        self.meta().column_type
    }

    fn check(&self) -> (value: Option<&'static str>)
        ensures
            value == self.spec_meta().check,
    {
        self.meta().check
    }

    /// Whether an insert may give this column a value.
    fn insertable(&self) -> (value: bool)
        ensures
            value == (!self.spec_meta().generated && !self.spec_meta().auto_increment),
    {
        !self.generated() && !self.auto_increment()
    }

    /// Whether an update may give this column a value.
    fn updateable(&self) -> (value: bool)
        ensures
            value == (!self.spec_meta().generated && !self.spec_meta().auto_increment),
    {
        !self.generated() && !self.auto_increment()
    }

    fn references(&self) -> (value: Option<ForeignKeyMeta>)
        ensures
            value == self.spec_meta().references,
    {
        self.meta().references
    }
}

/// Schema metadata of a foreign key.
pub trait ForeignKey {
    /// What the foreign key says about itself.
    open spec fn spec_meta(&self) -> ForeignKeyMeta {
        arbitrary()
    }

    fn meta(&self) -> (meta: ForeignKeyMeta)
        ensures
            meta == self.spec_meta(),
    ;

    fn schema_name(&self) -> (value: Option<&'static str>)
        ensures
            value == self.spec_meta().schema_name,
    {
        self.meta().schema_name
    }

    fn table(&self) -> (value: &'static str)
        ensures
            value == self.spec_meta().table,
    {
        self.meta().table
    }

    fn column(&self) -> (value: &'static str)
        ensures
            value == self.spec_meta().column,
    {
        self.meta().column
    }

    fn on_delete(&self) -> (value: Option<&'static str>)
        ensures
            value == self.spec_meta().on_delete,
    {
        self.meta().on_delete
    }

    fn on_update(&self) -> (value: Option<&'static str>)
        ensures
            value == self.spec_meta().on_update,
    {
        self.meta().on_update
    }
}

impl ForeignKey for ForeignKeyMeta {
    open spec fn spec_meta(&self) -> ForeignKeyMeta {
        *self
    }

    fn meta(&self) -> (meta: ForeignKeyMeta) {
        *self
    }
}

/// Schema metadata of an index.
pub trait Index {
    /// What the index says about itself.
    open spec fn spec_meta(&self) -> IndexMeta {
        arbitrary()
    }

    fn meta(&self) -> (meta: IndexMeta)
        ensures
            meta == self.spec_meta(),
    ;

    fn name(&self) -> (value: Option<&'static str>)
        ensures
            value == self.spec_meta().name,
    {
        self.meta().name
    }

    fn columns(&self) -> (value: List<&'static str>)
        ensures
            value == self.spec_meta().columns,
    {
        self.meta().columns
    }

    fn unique(&self) -> (value: bool)
        ensures
            value == self.spec_meta().unique,
    {
        self.meta().unique
    }

    fn predicate(&self) -> (value: Option<ExprNode>)
        ensures
            value == self.spec_meta().predicate,
    {
        self.meta().predicate
    }
}

/// A table-level primary key. Without a name it is named after the table.
#[derive(Debug, PartialEq)]
pub struct TablePrimaryKey {
    pub name: Option<&'static str>,
    pub columns: List<&'static str>,
}

/// A table-level unique constraint. Without a name it is named after the table and its columns; with
/// a predicate it becomes a partial unique index.
#[derive(Debug, PartialEq)]
pub struct TableUnique {
    pub name: Option<&'static str>,
    pub columns: List<&'static str>,
    pub predicate: Option<ExprNode>,
}

/// Schema metadata of a table.
pub trait Table {
    open spec fn spec_schema_name(&self) -> Option<&'static str> {
        arbitrary()
    }

    open spec fn spec_name(&self) -> &'static str {
        arbitrary()
    }

    open spec fn spec_columns(&self) -> List<&'static dyn Column> {
        arbitrary()
    }

    open spec fn spec_indexes(&self) -> List<&'static dyn Index> {
        arbitrary()
    }

    open spec fn spec_primary_key(&self) -> Option<TablePrimaryKey> {
        arbitrary()
    }

    open spec fn spec_uniques(&self) -> List<TableUnique> {
        arbitrary()
    }

    fn schema_name(&self) -> (name: Option<&'static str>)
        ensures
            name == self.spec_schema_name(),
    ;

    fn name(&self) -> (name: &'static str)
        ensures
            name == self.spec_name(),
    ;

    /// The name of the table, qualified by its schema where it has one.
    fn qualified_name(&self) -> (name: Label)
        ensures
            name@ == qualified_text(self.spec_schema_name(), self.spec_name()),
    {
        let name = self.name();
        match self.schema_name() {
            Some(schema) => {
                let mut text = String::from_str(schema);
                text.append(".");
                text.append(name);
                Label::Owned(text)
            },
            None => Label::Static(name),
        }
    }

    fn columns(&self) -> (columns: List<&'static dyn Column>)
        ensures
            columns == self.spec_columns(),
    ;

    fn indexes(&self) -> (indexes: List<&'static dyn Index>)
        ensures
            indexes == self.spec_indexes(),
    ;

    /// The table-level primary key. Columns that are marked one by one are not reported here.
    fn primary_key(&self) -> (key: Option<TablePrimaryKey>)
        ensures
            key == self.spec_primary_key(),
    ;

    /// The table-level unique constraints. Columns that are marked one by one are not reported here.
    fn uniques(&self) -> (uniques: List<TableUnique>)
        ensures
            uniques == self.spec_uniques(),
    ;
}

/// A name qualified by its schema, where it has one.
pub open spec fn qualified_text(schema: Option<&'static str>, name: &'static str) -> Seq<char> {
    match schema {
        Some(schema) => schema@ + "."@ + name@,
        None => name@,
    }
}

/// One output column of a view.
#[derive(Debug, PartialEq)]
pub struct ViewColumnModel {
    pub name: Label,
    pub ty: SqlType,
    pub nullable: bool,
}

/// Schema metadata and body of a view.
pub trait ViewDef {
    open spec fn spec_schema_name(&self) -> Option<&'static str> {
        arbitrary()
    }

    open spec fn spec_name(&self) -> &'static str {
        arbitrary()
    }

    open spec fn spec_columns(&self) -> List<ViewColumnModel> {
        arbitrary()
    }

    open spec fn spec_definition(&self) -> ViewQueryModel {
        arbitrary()
    }

    fn schema_name(&self) -> (name: Option<&'static str>)
        ensures
            name == self.spec_schema_name(),
    ;

    fn name(&self) -> (name: &'static str)
        ensures
            name == self.spec_name(),
    ;

    /// The output columns, in projection order.
    fn columns(&self) -> (columns: List<ViewColumnModel>)
        ensures
            columns == self.spec_columns(),
    ;

    /// The body, with literals inlined.
    fn definition_model(&self) -> (query: ViewQueryModel)
        ensures
            query == self.spec_definition(),
    ;
}

/// A schema as a member of a database.
pub trait DatabaseSchema {
    open spec fn spec_name(&self) -> Option<&'static str> {
        arbitrary()
    }

    open spec fn spec_tables(&self) -> List<&'static dyn Table> {
        arbitrary()
    }

    open spec fn spec_views(&self) -> List<&'static dyn ViewDef> {
        arbitrary()
    }

    fn name(&self) -> (name: Option<&'static str>)
        ensures
            name == self.spec_name(),
    ;

    fn tables(&self) -> (tables: List<&'static dyn Table>)
        ensures
            tables == self.spec_tables(),
    ;

    fn views(&self) -> (views: List<&'static dyn ViewDef>)
        ensures
            views == self.spec_views(),
    ;
}

/// A database: its schemas.
pub trait Database {
    open spec fn spec_schemas() -> List<&'static dyn DatabaseSchema> {
        arbitrary()
    }

    fn schemas() -> (schemas: List<&'static dyn DatabaseSchema>)
        ensures
            schemas == Self::spec_schemas(),
    ;
}

/// A namespace that tables live in.
pub trait Schema {
    open spec fn spec_name() -> Option<&'static str> {
        arbitrary()
    }

    fn name() -> (name: Option<&'static str>)
        ensures
            name == Self::spec_name(),
    ;

    /// The tables of the namespace. A namespace that does not list its tables has none.
    fn tables() -> (tables: List<&'static dyn Table>)
        default_ensures
            tables == List::<&'static dyn Table>::Nil,
    {
        List::Nil
    }
}

/// The namespace of tables that need no qualification.
pub enum DefaultSchema {
    Marker,
}

impl Schema for DefaultSchema {
    open spec fn spec_name() -> Option<&'static str> {
        None
    }

    fn name() -> (name: Option<&'static str>) {
        None
    }
}

} // verus!
