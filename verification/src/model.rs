//! Owned, backend-neutral schema model, and how it is built from compile-time metadata.
//!
//! Constraint and index names follow a fixed convention: `pk_<table>`, `uq_<table>_<columns>`,
//! `fk_<table>_<column>`, `ck_<table>_<column>` and `idx_<table>_<columns>`. They are what
//! constraints are recognised by.
use crate::chain::List;
use crate::column;
use crate::column::ColumnDefault;
use crate::dialect;
use crate::label::{Duplicate, Label};
use crate::meta::{
    Column, ColumnMeta, Database, DatabaseSchema, ForeignKeyMeta, Index, IndexMeta, Table,
    TablePrimaryKey, TableUnique, ViewColumnModel, ViewDef,
};
use crate::node::{ExprNode, ProjectionItem, ViewQueryModel};
use crate::number::Float64;
use crate::ops::{OrderDirection, OrderNulls};
use crate::sql_type::SqlType;
use crate::text::same_text;
use vstd::prelude::*;

pub mod copy;
pub mod declared;
pub mod kept;

verus! {

/// A named constraint over columns: a primary key or a unique constraint.
#[derive(Debug, PartialEq, Eq)]
pub struct Constraint {
    pub name: String,
    pub columns: Vec<String>,
}

/// The content of a constraint.
pub struct ConstraintView {
    pub name: Seq<char>,
    pub columns: Seq<Seq<char>>,
}

impl Constraint {
    pub open spec fn view(&self) -> ConstraintView {
        ConstraintView { name: self.name@, columns: dialect::strings_view(self.columns@) }
    }
}

/// The contents of constraints.
pub open spec fn constraint_views(constraints: Seq<Constraint>) -> Seq<ConstraintView> {
    Seq::new(constraints.len(), |i: int| constraints[i].view())
}

/// A column default.
#[derive(Debug, PartialEq)]
pub enum DefaultValue {
    Null,
    Int(i128),
    UInt(u128),
    Float(Float64),
    Text(String),
    Bool(bool),
    CurrentTimestamp,
    CurrentDate,
    CurrentTime,
    /// A backend-specific expression, emitted verbatim.
    Raw(String),
}

/// Whether `value` is the owned form of a column default.
pub open spec fn is_default_value(default: ColumnDefault, value: DefaultValue) -> bool {
    match default {
        ColumnDefault::Null => value == DefaultValue::Null,
        ColumnDefault::Int(number) => value == DefaultValue::Int(number),
        ColumnDefault::UInt(number) => value == DefaultValue::UInt(number),
        ColumnDefault::Float(number) => value == DefaultValue::Float(number),
        ColumnDefault::Text(text) => value matches DefaultValue::Text(owned) && owned@ == text@,
        ColumnDefault::Bool(flag) => value == DefaultValue::Bool(flag),
        ColumnDefault::CurrentTimestamp => value == DefaultValue::CurrentTimestamp,
        ColumnDefault::CurrentDate => value == DefaultValue::CurrentDate,
        ColumnDefault::CurrentTime => value == DefaultValue::CurrentTime,
        ColumnDefault::Raw(text) => value matches DefaultValue::Raw(owned) && owned@ == text@,
    }
}

impl vstd::std_specs::convert::FromSpecImpl<ColumnDefault> for DefaultValue {
    open spec fn obeys_from_spec() -> bool {
        false
    }

    open spec fn from_spec(default: ColumnDefault) -> DefaultValue {
        arbitrary()
    }
}

impl From<ColumnDefault> for DefaultValue {
    fn from(default: ColumnDefault) -> (value: DefaultValue)
        ensures
            is_default_value(default, value),
    {
        match default {
            ColumnDefault::Null => DefaultValue::Null,
            ColumnDefault::Int(number) => DefaultValue::Int(number),
            ColumnDefault::UInt(number) => DefaultValue::UInt(number),
            ColumnDefault::Float(number) => DefaultValue::Float(number),
            ColumnDefault::Text(text) => DefaultValue::Text(text.to_owned()),
            ColumnDefault::Bool(flag) => DefaultValue::Bool(flag),
            ColumnDefault::CurrentTimestamp => DefaultValue::CurrentTimestamp,
            ColumnDefault::CurrentDate => DefaultValue::CurrentDate,
            ColumnDefault::CurrentTime => DefaultValue::CurrentTime,
            ColumnDefault::Raw(text) => DefaultValue::Raw(text.to_owned()),
        }
    }
}

/// How an identity column gets its value.
#[derive(Clone, Copy, Debug, PartialEq, Eq, Structural)]
pub enum IdentityMode {
    ByDefault,
    AutoIncrement,
}

/// An identity column.
#[derive(Clone, Copy, Debug, PartialEq, Eq, Structural)]
pub struct IdentityModel {
    pub mode: IdentityMode,
}

/// Where the value of a generated column is kept.
#[derive(Clone, Copy, Debug, PartialEq, Eq, Structural)]
pub enum GeneratedStorage {
    Unknown,
    Stored,
    Virtual,
}

/// A generated column.
#[derive(Debug, PartialEq, Eq)]
pub struct GeneratedColumnModel {
    pub expression: Option<String>,
    pub storage: GeneratedStorage,
}

/// A column.
#[derive(Debug, PartialEq)]
pub struct ColumnModel {
    pub name: String,
    pub comment: Option<String>,
    pub ty: SqlType,
    pub collation: Option<String>,
    pub nullable: bool,
    pub default: Option<DefaultValue>,
    pub identity: Option<IdentityModel>,
    pub generated: Option<GeneratedColumnModel>,
    pub on_update: Option<String>,
}

/// What happens to referring rows.
#[derive(Clone, Copy, Debug, PartialEq, Eq)]
pub enum ForeignKeyAction {
    NoAction,
    Restrict,
    Cascade,
    SetNull,
    SetDefault,
    /// Any other action, as it was written.
    Raw(&'static str),
}

/// Which rows match a key of several columns.
#[derive(Clone, Copy, Debug, PartialEq, Eq, Structural)]
pub enum ForeignKeyMatch {
    Simple,
    Partial,
    Full,
}

/// When a constraint is looked at.
#[derive(Clone, Copy, Debug, PartialEq, Eq, Structural)]
pub enum ConstraintDeferrability {
    NotDeferrable,
    InitiallyImmediate,
    InitiallyDeferred,
}

/// Whether the rows that were there are known to satisfy a constraint.
#[derive(Clone, Copy, Debug, PartialEq, Eq, Structural)]
pub enum ConstraintValidation {
    Validated,
    NotValidated,
}

/// Whether a constraint is enforced.
#[derive(Clone, Copy, Debug, PartialEq, Eq, Structural)]
pub enum ConstraintEnforcement {
    Enforced,
    NotEnforced,
}

/// A foreign key.
#[derive(Debug, PartialEq, Eq)]
pub struct ForeignKeyModel {
    pub name: String,
    pub columns: Vec<String>,
    pub references_schema: Option<String>,
    pub references_table: String,
    pub references_columns: Vec<String>,
    pub match_type: Option<ForeignKeyMatch>,
    pub deferrability: Option<ConstraintDeferrability>,
    pub validation: Option<ConstraintValidation>,
    pub enforcement: Option<ConstraintEnforcement>,
    pub on_delete: Option<ForeignKeyAction>,
    pub on_update: Option<ForeignKeyAction>,
}

/// The content of a foreign key.
pub struct ForeignKeyView {
    pub name: Seq<char>,
    pub columns: Seq<Seq<char>>,
    pub references_schema: Option<Seq<char>>,
    pub references_table: Seq<char>,
    pub references_columns: Seq<Seq<char>>,
    pub match_type: Option<ForeignKeyMatch>,
    pub deferrability: Option<ConstraintDeferrability>,
    pub validation: Option<ConstraintValidation>,
    pub enforcement: Option<ConstraintEnforcement>,
    pub on_delete: Option<ForeignKeyAction>,
    pub on_update: Option<ForeignKeyAction>,
}

/// The characters of an optional string.
pub open spec fn optional_text(text: Option<String>) -> Option<Seq<char>> {
    match text {
        Some(owned) => Some(owned@),
        None => None,
    }
}

impl ForeignKeyModel {
    pub open spec fn view(&self) -> ForeignKeyView {
        ForeignKeyView {
            name: self.name@,
            columns: dialect::strings_view(self.columns@),
            references_schema: optional_text(self.references_schema),
            references_table: self.references_table@,
            references_columns: dialect::strings_view(self.references_columns@),
            match_type: self.match_type,
            deferrability: self.deferrability,
            validation: self.validation,
            enforcement: self.enforcement,
            on_delete: self.on_delete,
            on_update: self.on_update,
        }
    }
}

/// The contents of foreign keys.
pub open spec fn foreign_key_views(keys: Seq<ForeignKeyModel>) -> Seq<ForeignKeyView> {
    Seq::new(keys.len(), |i: int| keys[i].view())
}

/// A check constraint.
#[derive(Debug, PartialEq, Eq)]
pub struct CheckModel {
    pub name: String,
    pub expression: String,
    pub validation: Option<ConstraintValidation>,
    pub enforcement: Option<ConstraintEnforcement>,
}

/// The content of a check constraint.
pub struct CheckView {
    pub name: Seq<char>,
    pub expression: Seq<char>,
    pub validation: Option<ConstraintValidation>,
    pub enforcement: Option<ConstraintEnforcement>,
}

impl CheckModel {
    pub open spec fn view(&self) -> CheckView {
        CheckView {
            name: self.name@,
            expression: self.expression@,
            validation: self.validation,
            enforcement: self.enforcement,
        }
    }
}

/// The contents of check constraints.
pub open spec fn check_views(checks: Seq<CheckModel>) -> Seq<CheckView> {
    Seq::new(checks.len(), |i: int| checks[i].view())
}

/// How an index is organised.
#[derive(Clone, Copy, Debug, PartialEq, Eq, Structural)]
pub enum IndexMethod {
    BTree,
    Hash,
}

/// An index.
#[derive(Debug, PartialEq)]
pub struct IndexModel {
    pub name: String,
    pub columns: Vec<String>,
    pub expressions: List<ExprNode>,
    pub include_columns: List<Label>,
    pub unique: bool,
    pub method: Option<IndexMethod>,
    pub directions: List<OrderDirection>,
    pub nulls: List<OrderNulls>,
    pub collations: List<Label>,
    pub operator_classes: List<Label>,
    pub prefix_lengths: List<u32>,
    pub predicate: Option<Box<ExprNode>>,
}

/// The content of an index that says no more than its columns, its uniqueness and its predicate.
pub struct IndexView {
    pub name: Seq<char>,
    pub columns: Seq<Seq<char>>,
    pub unique: bool,
    pub predicate: Option<Box<ExprNode>>,
}

impl IndexModel {
    pub open spec fn view(&self) -> IndexView {
        IndexView {
            name: self.name@,
            columns: dialect::strings_view(self.columns@),
            unique: self.unique,
            predicate: self.predicate,
        }
    }

    /// Whether nothing else is said of the index: the database decides on its own.
    pub open spec fn is_plain(&self) -> bool {
        &&& self.expressions == List::<ExprNode>::Nil
        &&& self.include_columns == List::<Label>::Nil
        &&& self.method is None
        &&& self.directions == List::<OrderDirection>::Nil
        &&& self.nulls == List::<OrderNulls>::Nil
        &&& self.collations == List::<Label>::Nil
        &&& self.operator_classes == List::<Label>::Nil
        &&& self.prefix_lengths == List::<u32>::Nil
    }
}

/// The contents of indexes.
pub open spec fn index_views(indexes: Seq<IndexModel>) -> Seq<IndexView> {
    Seq::new(indexes.len(), |i: int| indexes[i].view())
}

/// Whether all indexes are plain.
pub open spec fn all_plain(indexes: Seq<IndexModel>) -> bool {
    forall|i: int| 0 <= i < indexes.len() ==> (#[trigger] indexes[i]).is_plain()
}

/// A table.
#[derive(Debug, PartialEq)]
pub struct TableModel {
    pub name: String,
    pub comment: Option<String>,
    pub columns: Vec<ColumnModel>,
    pub primary_key: Option<Constraint>,
    pub foreign_keys: Vec<ForeignKeyModel>,
    pub uniques: Vec<Constraint>,
    pub checks: Vec<CheckModel>,
    pub indexes: Vec<IndexModel>,
}

/// The body of a view.
#[derive(Debug, PartialEq)]
pub enum ViewBody {
    Select(Box<ViewQueryModel>),
}

/// A view.
#[derive(Debug, PartialEq)]
pub struct ViewModel {
    pub name: Label,
    pub comment: Option<String>,
    pub columns: List<ViewColumnModel>,
    pub query: ViewBody,
}

/// A schema.
#[derive(Debug, PartialEq)]
pub struct SchemaModel {
    pub name: Option<String>,
    pub tables: Vec<TableModel>,
    pub views: Vec<ViewModel>,
}

/// A whole database.
#[derive(Debug, PartialEq)]
pub struct DatabaseModel {
    pub schemas: Vec<SchemaModel>,
}

/// The action that a text names.
pub open spec fn action_of(text: &'static str) -> ForeignKeyAction {
    if text@ == "cascade"@ {
        ForeignKeyAction::Cascade
    } else if text@ == "restrict"@ {
        ForeignKeyAction::Restrict
    } else if text@ == "no action"@ {
        ForeignKeyAction::NoAction
    } else if text@ == "set null"@ {
        ForeignKeyAction::SetNull
    } else if text@ == "set default"@ {
        ForeignKeyAction::SetDefault
    } else {
        ForeignKeyAction::Raw(text)
    }
}

impl ForeignKeyAction {
    /// The action that a text names.
    pub fn from_sql(text: &'static str) -> (action: ForeignKeyAction)
        ensures
            action == action_of(text),
    {
        if same_text(text, "cascade") {
            ForeignKeyAction::Cascade
        } else if same_text(text, "restrict") {
            ForeignKeyAction::Restrict
        } else if same_text(text, "no action") {
            ForeignKeyAction::NoAction
        } else if same_text(text, "set null") {
            ForeignKeyAction::SetNull
        } else if same_text(text, "set default") {
            ForeignKeyAction::SetDefault
        } else {
            ForeignKeyAction::Raw(text)
        }
    }
}

/// The characters of names.
pub open spec fn names_view(names: List<&'static str>) -> Seq<Seq<char>>
    decreases names,
{
    match names {
        List::Nil => Seq::empty(),
        List::Cons { head, tail } => seq![head@] + names_view(*tail),
    }
}

/// Names joined by underscores.
pub open spec fn joined_names(names: List<&'static str>) -> Seq<char>
    decreases names,
{
    match names {
        List::Nil => Seq::empty(),
        List::Cons { head, tail } => if *tail is Nil {
            head@
        } else {
            head@ + "_"@ + joined_names(*tail)
        },
    }
}

fn push_names(names: &List<&'static str>, out: &mut Vec<String>)
    ensures
        dialect::strings_view(final(out)@) == dialect::strings_view(old(out)@) + names_view(*names),
    decreases names,
{
    let ghost start = out@;
    if let List::Cons { head, tail } = names {
        out.push((**head).to_owned());
        proof {
            assert(dialect::strings_view(out@) =~= dialect::strings_view(start).push(head@));
        }
        push_names(tail, out);
        proof {
            assert(dialect::strings_view(out@) =~= dialect::strings_view(start) + names_view(
                *names,
            ));
        }
    } else {
        proof {
            assert(dialect::strings_view(out@) =~= dialect::strings_view(start) + names_view(
                *names,
            ));
        }
    }
}

fn owned_names(names: &List<&'static str>) -> (owned: Vec<String>)
    ensures
        dialect::strings_view(owned@) == names_view(*names),
{
    let mut owned: Vec<String> = Vec::new();
    push_names(names, &mut owned);
    proof {
        assert(dialect::strings_view(Seq::<String>::empty()) =~= Seq::empty());
        assert(dialect::strings_view(owned@) =~= names_view(*names));
    }
    owned
}

fn owned_name(name: &'static str) -> (owned: Vec<String>)
    ensures
        dialect::strings_view(owned@) == seq![name@],
{
    let mut owned: Vec<String> = Vec::new();
    owned.push(name.to_owned());
    proof {
        assert(dialect::strings_view(owned@) =~= seq![name@]);
    }
    owned
}

fn push_joined(names: &List<&'static str>, out: &mut String)
    ensures
        final(out)@ == old(out)@ + joined_names(*names),
    decreases names,
{
    let ghost start = out@;
    if let List::Cons { head, tail } = names {
        out.append(head);
        if !tail.is_empty() {
            out.append("_");
            push_joined(tail, out);
        }
    }
    proof {
        assert(out@ =~= start + joined_names(*names));
    }
}

fn join_columns(columns: &List<&'static str>) -> (text: String)
    ensures
        text@ == joined_names(*columns),
{
    let mut text = String::new();
    push_joined(columns, &mut text);
    proof {
        assert(text@ =~= joined_names(*columns));
    }
    text
}

/// The name of a table's primary key.
pub open spec fn pk_text(table: Seq<char>) -> Seq<char> {
    "pk_"@ + table
}

/// The name of a constraint or index of a kind, from the table and its columns.
pub open spec fn constraint_text(kind: Seq<char>, table: Seq<char>, columns: Seq<char>) -> Seq<
    char,
> {
    kind + table + "_"@ + columns
}

fn constraint_name(kind: &str, table: &str, columns: &str) -> (name: String)
    ensures
        name@ == constraint_text(kind@, table@, columns@),
{
    let mut name = String::from_str(kind);
    name.append(table);
    name.append("_");
    name.append(columns);
    name
}

fn pk_name(table: &str) -> (name: String)
    ensures
        name@ == pk_text(table@),
{
    let mut name = String::from_str("pk_");
    name.append(table);
    name
}

fn uq_name(table: &str, columns: &List<&'static str>) -> (name: String)
    ensures
        name@ == constraint_text("uq_"@, table@, joined_names(*columns)),
{
    constraint_name("uq_", table, join_columns(columns).as_str())
}

fn fk_name(table: &str, column: &str) -> (name: String)
    ensures
        name@ == constraint_text("fk_"@, table@, column@),
{
    constraint_name("fk_", table, column)
}

fn ck_name(table: &str, column: &str) -> (name: String)
    ensures
        name@ == constraint_text("ck_"@, table@, column@),
{
    constraint_name("ck_", table, column)
}

fn idx_name(table: &str, columns: &List<&'static str>) -> (name: String)
    ensures
        name@ == constraint_text("idx_"@, table@, joined_names(*columns)),
{
    constraint_name("idx_", table, join_columns(columns).as_str())
}

/// A given name, or the conventional one.
pub open spec fn name_or(name: Option<&'static str>, convention: Seq<char>) -> Seq<char> {
    match name {
        Some(given) => given@,
        None => convention,
    }
}

/// The columns that are marked as primary key, in order.
pub open spec fn marked_primary_keys(columns: List<&'static dyn Column>) -> Seq<Seq<char>>
    decreases columns,
{
    match columns {
        List::Nil => Seq::empty(),
        List::Cons { head, tail } => {
            let meta = head.spec_meta();
            (if meta.primary_key {
                seq![meta.name@]
            } else {
                Seq::empty()
            }) + marked_primary_keys(*tail)
        },
    }
}

fn push_marked_primary_keys(columns: &List<&'static dyn Column>, out: &mut Vec<String>)
    ensures
        dialect::strings_view(final(out)@) == dialect::strings_view(old(out)@)
            + marked_primary_keys(*columns),
    decreases columns,
{
    let ghost start = out@;
    if let List::Cons { head, tail } = columns {
        if head.primary_key() {
            out.push(head.name().to_owned());
            proof {
                assert(dialect::strings_view(out@) =~= dialect::strings_view(start).push(
                    head.spec_meta().name@,
                ));
            }
        }
        push_marked_primary_keys(tail, out);
    }
    proof {
        assert(dialect::strings_view(out@) =~= dialect::strings_view(start) + marked_primary_keys(
            *columns,
        ));
    }
}

/// The primary key of a table: the table-level one, else that of the marked columns, if any.
pub open spec fn primary_key_view(
    table: Seq<char>,
    key: Option<TablePrimaryKey>,
    columns: List<&'static dyn Column>,
) -> Option<ConstraintView> {
    match key {
        Some(key) => Some(
            ConstraintView {
                name: name_or(key.name, pk_text(table)),
                columns: names_view(key.columns),
            },
        ),
        None => if marked_primary_keys(columns).len() == 0 {
            None
        } else {
            Some(
                ConstraintView { name: pk_text(table), columns: marked_primary_keys(columns) },
            )
        },
    }
}

/// The content of an optional constraint.
pub open spec fn optional_constraint(constraint: Option<Constraint>) -> Option<ConstraintView> {
    match constraint {
        Some(constraint) => Some(constraint.view()),
        None => None,
    }
}

fn primary_key_of(
    table: &str,
    key: Option<TablePrimaryKey>,
    columns: &List<&'static dyn Column>,
) -> (constraint: Option<Constraint>)
    ensures
        optional_constraint(constraint) == primary_key_view(table@, key, *columns),
{
    match key {
        Some(key) => {
            let name = match key.name {
                Some(given) => given.to_owned(),
                None => pk_name(table),
            };
            Some(Constraint { name, columns: owned_names(&key.columns) })
        },
        None => {
            let mut marked: Vec<String> = Vec::new();
            push_marked_primary_keys(columns, &mut marked);
            proof {
                assert(dialect::strings_view(Seq::<String>::empty()) =~= Seq::empty());
                assert(dialect::strings_view(marked@) =~= marked_primary_keys(*columns));
            }
            if marked.len() == 0 {
                None
            } else {
                Some(Constraint { name: pk_name(table), columns: marked })
            }
        },
    }
}

/// The unique constraints of single columns: those marked unique without a predicate.
pub open spec fn column_uniques(table: Seq<char>, columns: List<&'static dyn Column>) -> Seq<
    ConstraintView,
>
    decreases columns,
{
    match columns {
        List::Nil => Seq::empty(),
        List::Cons { head, tail } => {
            let meta = head.spec_meta();
            (if meta.unique && meta.unique_predicate is None {
                seq![
                    ConstraintView {
                        name: constraint_text("uq_"@, table, meta.name@),
                        columns: seq![meta.name@],
                    },
                ]
            } else {
                Seq::empty()
            }) + column_uniques(table, *tail)
        },
    }
}

fn push_column_uniques(
    table: &str,
    columns: &List<&'static dyn Column>,
    out: &mut Vec<Constraint>,
)
    ensures
        constraint_views(final(out)@) == constraint_views(old(out)@) + column_uniques(
            table@,
            *columns,
        ),
    decreases columns,
{
    let ghost start = out@;
    if let List::Cons { head, tail } = columns {
        if head.unique() && head.unique_predicate().is_none() {
            let name = head.name();
            out.push(
                Constraint {
                    name: constraint_name("uq_", table, name),
                    columns: owned_name(name),
                },
            );
            proof {
                assert(constraint_views(out@) =~= constraint_views(start).push(
                    ConstraintView {
                        name: constraint_text("uq_"@, table@, name@),
                        columns: seq![name@],
                    },
                ));
            }
        }
        push_column_uniques(table, tail, out);
    }
    proof {
        assert(constraint_views(out@) =~= constraint_views(start) + column_uniques(
            table@,
            *columns,
        ));
    }
}

/// The table-level unique constraints: those without a predicate.
pub open spec fn table_uniques(table: Seq<char>, uniques: List<TableUnique>) -> Seq<ConstraintView>
    decreases uniques,
{
    match uniques {
        List::Nil => Seq::empty(),
        List::Cons { head, tail } => (if head.predicate is None {
            seq![
                ConstraintView {
                    name: name_or(
                        head.name,
                        constraint_text("uq_"@, table, joined_names(head.columns)),
                    ),
                    columns: names_view(head.columns),
                },
            ]
        } else {
            Seq::empty()
        }) + table_uniques(table, *tail),
    }
}

fn unique_name(table: &str, unique: &TableUnique) -> (name: String)
    ensures
        name@ == name_or(
            unique.name,
            constraint_text("uq_"@, table@, joined_names(unique.columns)),
        ),
{
    match unique.name {
        Some(given) => given.to_owned(),
        None => uq_name(table, &unique.columns),
    }
}

fn push_table_uniques(table: &str, uniques: &List<TableUnique>, out: &mut Vec<Constraint>)
    ensures
        constraint_views(final(out)@) == constraint_views(old(out)@) + table_uniques(
            table@,
            *uniques,
        ),
    decreases uniques,
{
    let ghost start = out@;
    if let List::Cons { head, tail } = uniques {
        if head.predicate.is_none() {
            out.push(
                Constraint {
                    name: unique_name(table, head),
                    columns: owned_names(&head.columns),
                },
            );
            proof {
                assert(constraint_views(out@) =~= constraint_views(start).push(out@.last().view()));
            }
        }
        push_table_uniques(table, tail, out);
    }
    proof {
        assert(constraint_views(out@) =~= constraint_views(start) + table_uniques(
            table@,
            *uniques,
        ));
    }
}

/// The foreign key of one column.
pub open spec fn foreign_key_view(
    table: Seq<char>,
    column: Seq<char>,
    reference: ForeignKeyMeta,
) -> ForeignKeyView {
    ForeignKeyView {
        name: constraint_text("fk_"@, table, column),
        columns: seq![column],
        references_schema: match reference.schema_name {
            Some(schema) => Some(schema@),
            None => None,
        },
        references_table: reference.table@,
        references_columns: seq![reference.column@],
        match_type: None,
        deferrability: None,
        validation: None,
        enforcement: None,
        on_delete: match reference.on_delete {
            Some(text) => Some(action_of(text)),
            None => None,
        },
        on_update: match reference.on_update {
            Some(text) => Some(action_of(text)),
            None => None,
        },
    }
}

fn foreign_key_from_dyn(table: &str, column: &'static str, reference: ForeignKeyMeta) -> (key:
    ForeignKeyModel)
    ensures
        key.view() == foreign_key_view(table@, column@, reference),
{
    ForeignKeyModel {
        name: fk_name(table, column),
        columns: owned_name(column),
        references_schema: match reference.schema_name {
            Some(schema) => Some(schema.to_owned()),
            None => None,
        },
        references_table: reference.table.to_owned(),
        references_columns: owned_name(reference.column),
        match_type: None,
        deferrability: None,
        validation: None,
        enforcement: None,
        on_delete: match reference.on_delete {
            Some(text) => Some(ForeignKeyAction::from_sql(text)),
            None => None,
        },
        on_update: match reference.on_update {
            Some(text) => Some(ForeignKeyAction::from_sql(text)),
            None => None,
        },
    }
}

/// The foreign keys of a table's columns, in order.
pub open spec fn column_foreign_keys(table: Seq<char>, columns: List<&'static dyn Column>) -> Seq<
    ForeignKeyView,
>
    decreases columns,
{
    match columns {
        List::Nil => Seq::empty(),
        List::Cons { head, tail } => {
            let meta = head.spec_meta();
            (match meta.references {
                Some(reference) => seq![foreign_key_view(table, meta.name@, reference)],
                None => Seq::empty(),
            }) + column_foreign_keys(table, *tail)
        },
    }
}

fn push_foreign_keys(
    table: &str,
    columns: &List<&'static dyn Column>,
    out: &mut Vec<ForeignKeyModel>,
)
    ensures
        foreign_key_views(final(out)@) == foreign_key_views(old(out)@) + column_foreign_keys(
            table@,
            *columns,
        ),
    decreases columns,
{
    let ghost start = out@;
    if let List::Cons { head, tail } = columns {
        if let Some(reference) = head.references() {
            out.push(foreign_key_from_dyn(table, head.name(), reference));
            proof {
                assert(foreign_key_views(out@) =~= foreign_key_views(start).push(
                    out@.last().view(),
                ));
            }
        }
        push_foreign_keys(table, tail, out);
    }
    proof {
        assert(foreign_key_views(out@) =~= foreign_key_views(start) + column_foreign_keys(
            table@,
            *columns,
        ));
    }
}

/// The check constraints of a table's columns, in order.
pub open spec fn column_checks(table: Seq<char>, columns: List<&'static dyn Column>) -> Seq<
    CheckView,
>
    decreases columns,
{
    match columns {
        List::Nil => Seq::empty(),
        List::Cons { head, tail } => {
            let meta = head.spec_meta();
            (match meta.check {
                Some(expression) => seq![
                    CheckView {
                        name: constraint_text("ck_"@, table, meta.name@),
                        expression: expression@,
                        validation: None,
                        enforcement: None,
                    },
                ],
                None => Seq::empty(),
            }) + column_checks(table, *tail)
        },
    }
}

fn push_checks(table: &str, columns: &List<&'static dyn Column>, out: &mut Vec<CheckModel>)
    ensures
        check_views(final(out)@) == check_views(old(out)@) + column_checks(table@, *columns),
    decreases columns,
{
    let ghost start = out@;
    if let List::Cons { head, tail } = columns {
        if let Some(expression) = head.check() {
            out.push(
                CheckModel {
                    name: ck_name(table, head.name()),
                    expression: expression.to_owned(),
                    validation: None,
                    enforcement: None,
                },
            );
            proof {
                assert(check_views(out@) =~= check_views(start).push(out@.last().view()));
            }
        }
        push_checks(table, tail, out);
    }
    proof {
        assert(check_views(out@) =~= check_views(start) + column_checks(table@, *columns));
    }
}

/// A predicate on the heap.
pub open spec fn boxed(predicate: Option<ExprNode>) -> Option<Box<ExprNode>> {
    match predicate {
        Some(node) => Some(Box::new(node)),
        None => None,
    }
}

/// An index of a name, columns and a predicate, about which nothing else is said.
fn plain_index(
    name: String,
    columns: Vec<String>,
    unique: bool,
    predicate: Option<ExprNode>,
) -> (index: IndexModel)
    ensures
        index.is_plain(),
        index.view() == (IndexView {
            name: name@,
            columns: dialect::strings_view(columns@),
            unique,
            predicate: boxed(predicate),
        }),
{
    IndexModel {
        name,
        columns,
        expressions: List::Nil,
        include_columns: List::Nil,
        unique,
        method: None,
        directions: List::Nil,
        nulls: List::Nil,
        collations: List::Nil,
        operator_classes: List::Nil,
        prefix_lengths: List::Nil,
        predicate: match predicate {
            Some(node) => Some(Box::new(node)),
            None => None,
        },
    }
}

/// The content of a declared index.
pub open spec fn index_view(table: Seq<char>, index: IndexMeta) -> IndexView {
    IndexView {
        name: name_or(index.name, constraint_text("idx_"@, table, joined_names(index.columns))),
        columns: names_view(index.columns),
        unique: index.unique,
        predicate: boxed(index.predicate),
    }
}

fn index_from_dyn(table: &str, meta: IndexMeta) -> (model: IndexModel)
    ensures
        model.is_plain(),
        model.view() == index_view(table@, meta),
{
    let name = match meta.name {
        Some(given) => given.to_owned(),
        None => idx_name(table, &meta.columns),
    };
    plain_index(name, owned_names(&meta.columns), meta.unique, meta.predicate)
}

/// The declared indexes of a table, in order.
pub open spec fn declared_indexes(table: Seq<char>, indexes: List<&'static dyn Index>) -> Seq<
    IndexView,
>
    decreases indexes,
{
    match indexes {
        List::Nil => Seq::empty(),
        List::Cons { head, tail } => seq![index_view(table, head.spec_meta())] + declared_indexes(
            table,
            *tail,
        ),
    }
}

fn push_declared_indexes(
    table: &str,
    indexes: &List<&'static dyn Index>,
    out: &mut Vec<IndexModel>,
)
    requires
        all_plain(old(out)@),
    ensures
        all_plain(final(out)@),
        index_views(final(out)@) == index_views(old(out)@) + declared_indexes(table@, *indexes),
    decreases indexes,
{
    let ghost start = out@;
    if let List::Cons { head, tail } = indexes {
        out.push(index_from_dyn(table, head.meta()));
        proof {
            assert(index_views(out@) =~= index_views(start).push(out@.last().view()));
        }
        push_declared_indexes(table, tail, out);
    }
    proof {
        assert(index_views(out@) =~= index_views(start) + declared_indexes(table@, *indexes));
    }
}

/// The partial unique indexes of single columns: those with a unique predicate, in order.
pub open spec fn column_partial_indexes(
    table: Seq<char>,
    columns: List<&'static dyn Column>,
) -> Seq<IndexView>
    decreases columns,
{
    match columns {
        List::Nil => Seq::empty(),
        List::Cons { head, tail } => {
            let meta = head.spec_meta();
            (match meta.unique_predicate {
                Some(predicate) => seq![
                    IndexView {
                        name: constraint_text("uq_"@, table, meta.name@),
                        columns: seq![meta.name@],
                        unique: true,
                        predicate: Some(Box::new(predicate)),
                    },
                ],
                None => Seq::empty(),
            }) + column_partial_indexes(table, *tail)
        },
    }
}

fn push_column_partial_indexes(
    table: &str,
    columns: &List<&'static dyn Column>,
    out: &mut Vec<IndexModel>,
)
    requires
        all_plain(old(out)@),
    ensures
        all_plain(final(out)@),
        index_views(final(out)@) == index_views(old(out)@) + column_partial_indexes(
            table@,
            *columns,
        ),
    decreases columns,
{
    let ghost start = out@;
    if let List::Cons { head, tail } = columns {
        if let Some(predicate) = head.unique_predicate() {
            let name = head.name();
            out.push(
                plain_index(
                    constraint_name("uq_", table, name),
                    owned_name(name),
                    true,
                    Some(predicate),
                ),
            );
            proof {
                assert(index_views(out@) =~= index_views(start).push(out@.last().view()));
            }
        }
        push_column_partial_indexes(table, tail, out);
    }
    proof {
        assert(index_views(out@) =~= index_views(start) + column_partial_indexes(table@, *columns));
    }
}

/// The table-level partial unique indexes: the unique constraints with a predicate, in order.
pub open spec fn table_partial_indexes(table: Seq<char>, uniques: List<TableUnique>) -> Seq<
    IndexView,
>
    decreases uniques,
{
    match uniques {
        List::Nil => Seq::empty(),
        List::Cons { head, tail } => (match head.predicate {
            Some(predicate) => seq![
                IndexView {
                    name: name_or(
                        head.name,
                        constraint_text("uq_"@, table, joined_names(head.columns)),
                    ),
                    columns: names_view(head.columns),
                    unique: true,
                    predicate: Some(Box::new(predicate)),
                },
            ],
            None => Seq::empty(),
        }) + table_partial_indexes(table, *tail),
    }
}

fn push_table_partial_indexes(
    table: &str,
    uniques: List<TableUnique>,
    out: &mut Vec<IndexModel>,
)
    requires
        all_plain(old(out)@),
    ensures
        all_plain(final(out)@),
        index_views(final(out)@) == index_views(old(out)@) + table_partial_indexes(
            table@,
            uniques,
        ),
    decreases uniques,
{
    let ghost start = out@;
    let ghost all = uniques;
    if let List::Cons { head, tail } = uniques {
        let unique = *head;
        let name = unique_name(table, &unique);
        if let Some(predicate) = unique.predicate {
            out.push(plain_index(name, owned_names(&unique.columns), true, Some(predicate)));
            proof {
                assert(index_views(out@) =~= index_views(start).push(out@.last().view()));
            }
        }
        push_table_partial_indexes(table, *tail, out);
    }
    proof {
        assert(index_views(out@) =~= index_views(start) + table_partial_indexes(table@, all));
    }
}

/// Whether `model` is the column that `meta` describes.
pub open spec fn is_column_model(meta: ColumnMeta, model: ColumnModel) -> bool {
    &&& model.name@ == meta.name@
    &&& model.comment is None
    &&& column::is_sql_type(meta.column_type, model.ty)
    &&& model.collation is None
    &&& model.nullable == meta.nullable
    &&& match (meta.default, model.default) {
        (Some(default), Some(value)) => is_default_value(default, value),
        (None, None) => true,
        _ => false,
    }
    &&& model.identity == (if meta.auto_increment {
        Some(IdentityModel { mode: IdentityMode::ByDefault })
    } else {
        None
    })
    &&& match model.generated {
        Some(generated) => meta.generated && generated.expression is None && generated.storage
            == GeneratedStorage::Unknown,
        None => !meta.generated,
    }
    &&& model.on_update is None
}

fn column_from_dyn(meta: ColumnMeta) -> (model: ColumnModel)
    ensures
        is_column_model(meta, model),
{
    ColumnModel {
        name: meta.name.to_owned(),
        comment: None,
        ty: SqlType::from(meta.column_type),
        collation: None,
        nullable: meta.nullable,
        default: match meta.default {
            Some(default) => Some(DefaultValue::from(default)),
            None => None,
        },
        identity: if meta.auto_increment {
            Some(IdentityModel { mode: IdentityMode::ByDefault })
        } else {
            None
        },
        generated: if meta.generated {
            Some(
                GeneratedColumnModel { expression: None, storage: GeneratedStorage::Unknown },
            )
        } else {
            None
        },
        on_update: None,
    }
}

/// Whether `models` are the columns of a table, in order.
pub open spec fn are_column_models(
    columns: List<&'static dyn Column>,
    models: Seq<ColumnModel>,
) -> bool {
    &&& models.len() == columns.seq().len()
    &&& forall|i: int|
        0 <= i < models.len() ==> is_column_model(
            columns.seq()[i].spec_meta(),
            #[trigger] models[i],
        )
}

fn push_columns(columns: &List<&'static dyn Column>, out: &mut Vec<ColumnModel>)
    ensures
        final(out)@.len() == old(out)@.len() + columns.seq().len(),
        forall|i: int| 0 <= i < old(out)@.len() ==> #[trigger] final(out)@[i] == old(out)@[i],
        forall|i: int|
            old(out)@.len() <= i < final(out)@.len() ==> is_column_model(
                columns.seq()[i - old(out)@.len()].spec_meta(),
                #[trigger] final(out)@[i],
            ),
    decreases columns,
{
    let ghost start = out@;
    if let List::Cons { head, tail } = columns {
        out.push(column_from_dyn(head.meta()));
        let ghost with_head = out@;
        push_columns(tail, out);
        proof {
            assert forall|i: int| start.len() <= i < out@.len() implies is_column_model(
                columns.seq()[i - start.len()].spec_meta(),
                #[trigger] out@[i],
            ) by {
                if i == start.len() {
                    assert(out@[i] == with_head[i]);
                } else {
                    assert(columns.seq()[i - start.len()] == tail.seq()[i - with_head.len()]);
                }
            }
        }
    }
}

/// Whether `model` is the table of a name, with what it says about itself.
pub open spec fn is_table_model(
    name: &'static str,
    columns: List<&'static dyn Column>,
    indexes: List<&'static dyn Index>,
    primary_key: Option<TablePrimaryKey>,
    uniques: List<TableUnique>,
    model: TableModel,
) -> bool {
    &&& model.name@ == name@
    &&& model.comment is None
    &&& are_column_models(columns, model.columns@)
    &&& optional_constraint(model.primary_key) == primary_key_view(name@, primary_key, columns)
    &&& foreign_key_views(model.foreign_keys@) == column_foreign_keys(name@, columns)
    &&& constraint_views(model.uniques@) == column_uniques(name@, columns) + table_uniques(
        name@,
        uniques,
    )
    &&& check_views(model.checks@) == column_checks(name@, columns)
    &&& index_views(model.indexes@) == declared_indexes(name@, indexes) + column_partial_indexes(
        name@,
        columns,
    ) + table_partial_indexes(name@, uniques)
    &&& all_plain(model.indexes@)
}

/// Builds the model of a table from what it says about itself.
///
/// A table-level primary key goes before columns that are marked one by one. A unique constraint with
/// a predicate becomes a partial unique index under the same name, behind the declared indexes.
pub fn table_from_parts(
    name: &'static str,
    columns: List<&'static dyn Column>,
    declared: List<&'static dyn Index>,
    key: Option<TablePrimaryKey>,
    uniques: List<TableUnique>,
) -> (model: TableModel)
    ensures
        is_table_model(name, columns, declared, key, uniques, model),
{
    let primary_key = primary_key_of(name, key, &columns);

    let mut unique_models: Vec<Constraint> = Vec::new();
    proof {
        assert(constraint_views(unique_models@) =~= Seq::empty());
    }
    push_column_uniques(name, &columns, &mut unique_models);
    push_table_uniques(name, &uniques, &mut unique_models);
    proof {
        assert(constraint_views(unique_models@) =~= column_uniques(name@, columns) + table_uniques(
            name@,
            uniques,
        ));
    }

    let mut foreign_keys: Vec<ForeignKeyModel> = Vec::new();
    proof {
        assert(foreign_key_views(foreign_keys@) =~= Seq::empty());
    }
    push_foreign_keys(name, &columns, &mut foreign_keys);
    proof {
        assert(foreign_key_views(foreign_keys@) =~= column_foreign_keys(name@, columns));
    }

    let mut checks: Vec<CheckModel> = Vec::new();
    proof {
        assert(check_views(checks@) =~= Seq::empty());
    }
    push_checks(name, &columns, &mut checks);
    proof {
        assert(check_views(checks@) =~= column_checks(name@, columns));
    }

    let mut indexes: Vec<IndexModel> = Vec::new();
    proof {
        assert(index_views(indexes@) =~= Seq::empty());
    }
    push_declared_indexes(name, &declared, &mut indexes);
    push_column_partial_indexes(name, &columns, &mut indexes);
    push_table_partial_indexes(name, uniques, &mut indexes);
    proof {
        assert(index_views(indexes@) =~= declared_indexes(name@, declared)
            + column_partial_indexes(name@, columns) + table_partial_indexes(name@, uniques));
    }

    let mut column_models: Vec<ColumnModel> = Vec::new();
    push_columns(&columns, &mut column_models);

    TableModel {
        name: name.to_owned(),
        comment: None,
        columns: column_models,
        primary_key,
        foreign_keys,
        uniques: unique_models,
        checks,
        indexes,
    }
}

/// Builds the model of a table from its metadata.
pub fn table_from<T: Table>(table: &T) -> (model: TableModel)
    ensures
        is_table_model(
            table.spec_name(),
            table.spec_columns(),
            table.spec_indexes(),
            table.spec_primary_key(),
            table.spec_uniques(),
            model,
        ),
{
    table_from_parts(
        table.name(),
        table.columns(),
        table.indexes(),
        table.primary_key(),
        table.uniques(),
    )
}

/// Builds the model of a table from its metadata.
///
/// This is for callers that hold a trait object and have no proofs of their own: the verifier does not
/// pass on what is ensured of a `dyn` argument. A verified caller uses [`table_from`] where it knows
/// the type, and [`table_from_parts`] where it has the metadata.
pub fn table_from_dyn(table: &dyn Table) -> (model: TableModel)
    ensures
        is_table_model(
            table.spec_name(),
            table.spec_columns(),
            table.spec_indexes(),
            table.spec_primary_key(),
            table.spec_uniques(),
            model,
        ),
{
    table_from_parts(
        table.name(),
        table.columns(),
        table.indexes(),
        table.primary_key(),
        table.uniques(),
    )
}

/// A projection under the declared output names, position by position.
pub open spec fn renamed_projection(
    items: List<ProjectionItem>,
    columns: List<ViewColumnModel>,
) -> List<ProjectionItem>
    decreases items,
{
    match (items, columns) {
        (List::Cons { head, tail }, List::Cons { head: column, tail: rest }) => List::Cons {
            head: Box::new(ProjectionItem { output_name: column.name, expr: head.expr }),
            tail: Box::new(renamed_projection(*tail, *rest)),
        },
        _ => items,
    }
}

fn rename_projection(items: List<ProjectionItem>, columns: &List<ViewColumnModel>) -> (renamed: List<
    ProjectionItem,
>)
    ensures
        renamed == renamed_projection(items, *columns),
    decreases items,
{
    match items {
        List::Nil => List::Nil,
        List::Cons { head, tail } => match columns {
            List::Nil => List::Cons { head, tail },
            List::Cons { head: column, tail: rest } => {
                let item = *head;
                List::Cons {
                    head: Box::new(
                        ProjectionItem {
                            output_name: column.name.duplicate(),
                            expr: item.expr,
                        },
                    ),
                    tail: Box::new(rename_projection(*tail, rest)),
                }
            },
        },
    }
}

/// The model of a view. Its declared columns name the outputs of its body.
pub open spec fn view_model(
    name: &'static str,
    columns: List<ViewColumnModel>,
    query: ViewQueryModel,
) -> ViewModel {
    ViewModel {
        name: Label::Static(name),
        comment: None,
        columns,
        query: ViewBody::Select(
            Box::new(
                ViewQueryModel {
                    projection: renamed_projection(query.projection, columns),
                    ..query
                },
            ),
        ),
    }
}

fn view_from_dyn(
    name: &'static str,
    columns: List<ViewColumnModel>,
    query: ViewQueryModel,
) -> (model: ViewModel)
    ensures
        model == view_model(name, columns, query),
{
    let projection = rename_projection(query.projection, &columns);
    ViewModel {
        name: Label::Static(name),
        comment: None,
        columns,
        query: ViewBody::Select(Box::new(ViewQueryModel { projection, ..query })),
    }
}

/// Whether `models` are the tables, in order.
pub open spec fn are_table_models(
    tables: List<&'static dyn Table>,
    models: Seq<TableModel>,
) -> bool {
    &&& models.len() == tables.seq().len()
    &&& forall|i: int|
        0 <= i < models.len() ==> is_table_model(
            tables.seq()[i].spec_name(),
            tables.seq()[i].spec_columns(),
            tables.seq()[i].spec_indexes(),
            tables.seq()[i].spec_primary_key(),
            tables.seq()[i].spec_uniques(),
            #[trigger] models[i],
        )
}

fn push_tables(tables: &List<&'static dyn Table>, out: &mut Vec<TableModel>)
    ensures
        final(out)@.len() == old(out)@.len() + tables.seq().len(),
        forall|i: int| 0 <= i < old(out)@.len() ==> #[trigger] final(out)@[i] == old(out)@[i],
        forall|i: int|
            old(out)@.len() <= i < final(out)@.len() ==> is_table_model(
                tables.seq()[i - old(out)@.len()].spec_name(),
                tables.seq()[i - old(out)@.len()].spec_columns(),
                tables.seq()[i - old(out)@.len()].spec_indexes(),
                tables.seq()[i - old(out)@.len()].spec_primary_key(),
                tables.seq()[i - old(out)@.len()].spec_uniques(),
                #[trigger] final(out)@[i],
            ),
    decreases tables,
{
    let ghost start = out@;
    if let List::Cons { head, tail } = tables {
        out.push(
            table_from_parts(
                head.name(),
                head.columns(),
                head.indexes(),
                head.primary_key(),
                head.uniques(),
            ),
        );
        let ghost with_head = out@;
        push_tables(tail, out);
        proof {
            assert forall|i: int| start.len() <= i < out@.len() implies is_table_model(
                tables.seq()[i - start.len()].spec_name(),
                tables.seq()[i - start.len()].spec_columns(),
                tables.seq()[i - start.len()].spec_indexes(),
                tables.seq()[i - start.len()].spec_primary_key(),
                tables.seq()[i - start.len()].spec_uniques(),
                #[trigger] out@[i],
            ) by {
                if i == start.len() {
                    assert(out@[i] == with_head[i]);
                } else {
                    assert(tables.seq()[i - start.len()] == tail.seq()[i - with_head.len()]);
                }
            }
        }
    }
}

/// The models of views, in order.
pub open spec fn view_models(views: List<&'static dyn ViewDef>) -> Seq<ViewModel>
    decreases views,
{
    match views {
        List::Nil => Seq::empty(),
        List::Cons { head, tail } => seq![
            view_model(head.spec_name(), head.spec_columns(), head.spec_definition()),
        ] + view_models(*tail),
    }
}

fn push_views(views: &List<&'static dyn ViewDef>, out: &mut Vec<ViewModel>)
    ensures
        final(out)@ == old(out)@ + view_models(*views),
    decreases views,
{
    let ghost start = out@;
    if let List::Cons { head, tail } = views {
        out.push(view_from_dyn(head.name(), head.columns(), head.definition_model()));
        push_views(tail, out);
    }
    proof {
        assert(out@ =~= start + view_models(*views));
    }
}

/// Whether `model` is the schema of a name, with its tables and views.
pub open spec fn is_schema_model(
    name: Option<&'static str>,
    tables: List<&'static dyn Table>,
    views: List<&'static dyn ViewDef>,
    model: SchemaModel,
) -> bool {
    &&& match (name, model.name) {
        (Some(name), Some(owned)) => owned@ == name@,
        (None, None) => true,
        _ => false,
    }
    &&& are_table_models(tables, model.tables@)
    &&& model.views@ == view_models(views)
}

fn schema_from_dyn(
    name: Option<&'static str>,
    tables: List<&'static dyn Table>,
    views: List<&'static dyn ViewDef>,
) -> (model: SchemaModel)
    ensures
        is_schema_model(name, tables, views, model),
{
    let mut table_models: Vec<TableModel> = Vec::new();
    push_tables(&tables, &mut table_models);
    let mut views_out: Vec<ViewModel> = Vec::new();
    push_views(&views, &mut views_out);
    proof {
        assert(views_out@ =~= view_models(views));
    }
    SchemaModel {
        name: match name {
            Some(name) => Some(name.to_owned()),
            None => None,
        },
        tables: table_models,
        views: views_out,
    }
}

fn push_schemas(schemas: &List<&'static dyn DatabaseSchema>, out: &mut Vec<SchemaModel>)
    ensures
        final(out)@.len() == old(out)@.len() + schemas.seq().len(),
        forall|i: int| 0 <= i < old(out)@.len() ==> #[trigger] final(out)@[i] == old(out)@[i],
        forall|i: int|
            old(out)@.len() <= i < final(out)@.len() ==> is_schema_model(
                schemas.seq()[i - old(out)@.len()].spec_name(),
                schemas.seq()[i - old(out)@.len()].spec_tables(),
                schemas.seq()[i - old(out)@.len()].spec_views(),
                #[trigger] final(out)@[i],
            ),
    decreases schemas,
{
    let ghost start = out@;
    if let List::Cons { head, tail } = schemas {
        out.push(schema_from_dyn(head.name(), head.tables(), head.views()));
        let ghost with_head = out@;
        push_schemas(tail, out);
        proof {
            assert forall|i: int| start.len() <= i < out@.len() implies is_schema_model(
                schemas.seq()[i - start.len()].spec_name(),
                schemas.seq()[i - start.len()].spec_tables(),
                schemas.seq()[i - start.len()].spec_views(),
                #[trigger] out@[i],
            ) by {
                if i == start.len() {
                    assert(out@[i] == with_head[i]);
                } else {
                    assert(schemas.seq()[i - start.len()] == tail.seq()[i - with_head.len()]);
                }
            }
        }
    }
}

impl DatabaseModel {
    /// Walks a database into its model, schema by schema.
    pub fn from_database<D: Database>() -> (model: DatabaseModel)
        ensures
            model.schemas@.len() == D::spec_schemas().seq().len(),
            forall|i: int|
                0 <= i < model.schemas@.len() ==> is_schema_model(
                    D::spec_schemas().seq()[i].spec_name(),
                    D::spec_schemas().seq()[i].spec_tables(),
                    D::spec_schemas().seq()[i].spec_views(),
                    #[trigger] model.schemas@[i],
                ),
    {
        let mut schemas: Vec<SchemaModel> = Vec::new();
        push_schemas(&D::schemas(), &mut schemas);
        DatabaseModel { schemas }
    }
}

/// A table-level primary key decides alone: marks on single columns change nothing.
pub proof fn law_table_primary_key_wins(
    table: Seq<char>,
    key: TablePrimaryKey,
    columns: List<&'static dyn Column>,
    others: List<&'static dyn Column>,
)
    ensures
        primary_key_view(table, Some(key), columns) == primary_key_view(table, Some(key), others),
        primary_key_view(table, Some(key), columns) is Some,
{
}

/// A unique constraint of a table is either a constraint or a partial index, never both and never
/// neither.
pub proof fn law_unique_is_constraint_or_index(table: Seq<char>, uniques: List<TableUnique>)
    ensures
        table_uniques(table, uniques).len() + table_partial_indexes(table, uniques).len()
            == uniques.seq().len(),
    decreases uniques,
{
    if let List::Cons { head, tail } = uniques {
        law_unique_is_constraint_or_index(table, *tail);
    }
}

/// Renaming the outputs of a view changes neither how many there are nor what they are.
pub proof fn law_renaming_keeps_expressions(
    items: List<ProjectionItem>,
    columns: List<ViewColumnModel>,
)
    ensures
        renamed_projection(items, columns).seq().len() == items.seq().len(),
        forall|i: int|
            0 <= i < items.seq().len() ==> (#[trigger] renamed_projection(
                items,
                columns,
            ).seq()[i]).expr == items.seq()[i].expr,
        forall|i: int|
            0 <= i < items.seq().len() && i < columns.seq().len() ==> (
            #[trigger] renamed_projection(items, columns).seq()[i]).output_name
                == columns.seq()[i].name,
    decreases items,
{
    match (items, columns) {
        (List::Cons { head, tail }, List::Cons { head: column, tail: rest }) => {
            law_renaming_keeps_expressions(*tail, *rest);
            let renamed = renamed_projection(items, columns);
            let others = renamed_projection(*tail, *rest);
            assert forall|i: int| 0 <= i < items.seq().len() implies (
            #[trigger] renamed.seq()[i]).expr == items.seq()[i].expr by {
                if i > 0 {
                    assert(renamed.seq()[i] == others.seq()[i - 1]);
                    assert(items.seq()[i] == tail.seq()[i - 1]);
                }
            }
            assert forall|i: int|
                0 <= i < items.seq().len() && i < columns.seq().len() implies (
            #[trigger] renamed.seq()[i]).output_name == columns.seq()[i].name by {
                if i > 0 {
                    assert(renamed.seq()[i] == others.seq()[i - 1]);
                    assert(columns.seq()[i] == rest.seq()[i - 1]);
                }
            }
        },
        _ => {},
    }
}

} // verus!
