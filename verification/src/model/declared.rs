//! What the models of columns, views and schemas keep of what was declared.
use crate::chain::List;
use crate::column::ColumnDefault;
use crate::meta::{
    Column, ColumnMeta, Index, Table, TablePrimaryKey, TableUnique, ViewColumnModel, ViewDef,
};
use crate::model;
use crate::model::kept;
use crate::model::{
    ColumnModel, DefaultValue, ForeignKeyAction, IdentityMode, SchemaModel, TableModel, ViewBody,
};
use crate::node::{ProjectionItem, ViewQueryModel};
use vstd::prelude::*;

verus! {

/// Whether a default is given as a fixed text, and which.
pub open spec fn default_text(value: DefaultValue) -> Option<Seq<char>> {
    match value {
        DefaultValue::Text(text) => Some(text@),
        DefaultValue::Raw(text) => Some(text@),
        _ => None,
    }
}

/// A model of a table has a column for each declared one, in its place: with its name, null where it
/// may be, counted up where it is to be, computed where it is, and with a default exactly where one was
/// declared.
pub proof fn law_columns_are_kept(
    name: &'static str,
    columns: List<&'static dyn Column>,
    indexes: List<&'static dyn Index>,
    primary_key: Option<TablePrimaryKey>,
    uniques: List<TableUnique>,
    table: TableModel,
    i: int,
)
    requires
        model::is_table_model(name, columns, indexes, primary_key, uniques, table),
        0 <= i < columns.seq().len(),
    ensures
        table.columns@.len() == columns.seq().len(),
        ({
            let meta = columns.seq()[i].spec_meta();
            let column = table.columns@[i];
            &&& column.name@ == meta.name@
            &&& column.nullable == meta.nullable
            &&& column.identity is Some == meta.auto_increment
            &&& column.generated is Some == meta.generated
            &&& column.default is Some == meta.default is Some
            &&& column.comment is None
            &&& column.collation is None
            &&& column.on_update is None
            &&& match column.identity {
                Some(identity) => identity.mode == IdentityMode::ByDefault,
                None => true,
            }
        }),
{
    assert(model::is_column_model(columns.seq()[i].spec_meta(), table.columns@[i]));
}

/// Columns that differ in whether they may be null, are counted up or are computed have different
/// models.
pub proof fn law_columns_are_told_apart(
    meta: ColumnMeta,
    other: ColumnMeta,
    column: ColumnModel,
)
    requires
        model::is_column_model(meta, column),
        model::is_column_model(other, column),
    ensures
        meta.name@ == other.name@,
        meta.nullable == other.nullable,
        meta.auto_increment == other.auto_increment,
        meta.generated == other.generated,
        meta.default is Some == other.default is Some,
{
}

/// A number, a truth value and a text that a column defaults to are kept as they are; a time that is
/// only known when a row is written stays one.
pub proof fn law_default_is_kept(default: ColumnDefault, value: DefaultValue)
    requires
        model::is_default_value(default, value),
    ensures
        default matches ColumnDefault::Int(number) ==> value == DefaultValue::Int(number),
        default matches ColumnDefault::UInt(number) ==> value == DefaultValue::UInt(number),
        default matches ColumnDefault::Float(number) ==> value == DefaultValue::Float(number),
        default matches ColumnDefault::Bool(flag) ==> value == DefaultValue::Bool(flag),
        default matches ColumnDefault::Text(text) ==> value is Text && default_text(value)
            == Some(text@),
        default matches ColumnDefault::Raw(text) ==> value is Raw && default_text(value)
            == Some(text@),
        default is Null <==> value is Null,
        default is CurrentTimestamp <==> value is CurrentTimestamp,
        default is CurrentDate <==> value is CurrentDate,
        default is CurrentTime <==> value is CurrentTime,
{
}

/// The text that names an action, where one of the standard does.
pub open spec fn action_text(action: ForeignKeyAction) -> Option<Seq<char>> {
    match action {
        ForeignKeyAction::Cascade => Some(seq!['c', 'a', 's', 'c', 'a', 'd', 'e']),
        ForeignKeyAction::Restrict => Some(seq!['r', 'e', 's', 't', 'r', 'i', 'c', 't']),
        ForeignKeyAction::NoAction => Some(seq!['n', 'o', ' ', 'a', 'c', 't', 'i', 'o', 'n']),
        ForeignKeyAction::SetNull => Some(seq!['s', 'e', 't', ' ', 'n', 'u', 'l', 'l']),
        ForeignKeyAction::SetDefault => Some(
            seq!['s', 'e', 't', ' ', 'd', 'e', 'f', 'a', 'u', 'l', 't'],
        ),
        ForeignKeyAction::Raw(_) => None,
    }
}

/// An action is named by the text that it was read from: one of the standard by its own text, any
/// other text is kept, and none of the standard's texts is kept as another.
pub proof fn law_action_reads_back(text: &'static str)
    ensures
        match model::action_of(text) {
            ForeignKeyAction::Raw(kept) => kept == text && forall|action: ForeignKeyAction|
                action_text(action) != Some(text@),
            action => action_text(action) == Some(text@),
        },
{
    reveal_strlit("cascade");
    reveal_strlit("restrict");
    reveal_strlit("no action");
    reveal_strlit("set null");
    reveal_strlit("set default");
    assert("cascade"@ =~= seq!['c', 'a', 's', 'c', 'a', 'd', 'e']);
    assert("restrict"@ =~= seq!['r', 'e', 's', 't', 'r', 'i', 'c', 't']);
    assert("no action"@ =~= seq!['n', 'o', ' ', 'a', 'c', 't', 'i', 'o', 'n']);
    assert("set null"@ =~= seq!['s', 'e', 't', ' ', 'n', 'u', 'l', 'l']);
    assert("set default"@ =~= seq!['s', 'e', 't', ' ', 'd', 'e', 'f', 'a', 'u', 'l', 't']);
}

proof fn lemma_renamed(items: List<ProjectionItem>, columns: List<ViewColumnModel>)
    ensures
        model::renamed_projection(items, columns).seq().len() == items.seq().len(),
        forall|i: int|
            #![trigger model::renamed_projection(items, columns).seq()[i]]
            0 <= i < items.seq().len() ==> {
                let item = model::renamed_projection(items, columns).seq()[i];
                item.expr == items.seq()[i].expr && item.output_name == if i
                    < columns.seq().len() {
                    columns.seq()[i].name
                } else {
                    items.seq()[i].output_name
                }
            },
    decreases items,
{
    match (items, columns) {
        (List::Cons { head, tail }, List::Cons { head: column, tail: rest }) => {
            lemma_renamed(*tail, *rest);
            let all = model::renamed_projection(items, columns).seq();
            let others = model::renamed_projection(*tail, *rest).seq();
            assert forall|i: int| #![trigger all[i]] 0 <= i < items.seq().len() implies all[i].expr
                == items.seq()[i].expr && all[i].output_name == (if i < columns.seq().len() {
                columns.seq()[i].name
            } else {
                items.seq()[i].output_name
            }) by {
                if i > 0 {
                    assert(all[i] == others[i - 1]);
                    assert(items.seq()[i] == tail.seq()[i - 1]);
                    if i < columns.seq().len() {
                        assert(columns.seq()[i] == rest.seq()[i - 1]);
                    }
                }
            }
        },
        _ => {},
    }
}

/// The model of a view has its name and declared columns. Its body is the declared one, whose `i`-th
/// output has the name of the `i`-th declared column and is the same expression as before.
pub proof fn law_view_is_kept(
    name: &'static str,
    columns: List<ViewColumnModel>,
    query: ViewQueryModel,
)
    ensures
        ({
            let view = model::view_model(name, columns, query);
            &&& view.name@ == name@
            &&& view.comment is None
            &&& view.columns == columns
            &&& view.query matches ViewBody::Select(body) && {
                &&& body.projection.seq().len() == query.projection.seq().len()
                &&& forall|i: int|
                    0 <= i < query.projection.seq().len() ==> (
                    #[trigger] body.projection.seq()[i]).expr == query.projection.seq()[i].expr
                &&& forall|i: int|
                    0 <= i < query.projection.seq().len() && i < columns.seq().len() ==> (
                    #[trigger] body.projection.seq()[i]).output_name == columns.seq()[i].name
                &&& *body == (ViewQueryModel { projection: body.projection, ..query })
            }
        }),
{
    lemma_renamed(query.projection, columns);
}

proof fn lemma_views(views: List<&'static dyn ViewDef>)
    ensures
        model::view_models(views).len() == views.seq().len(),
        forall|i: int|
            0 <= i < views.seq().len() ==> (#[trigger] model::view_models(views)[i])
                == model::view_model(
                views.seq()[i].spec_name(),
                views.seq()[i].spec_columns(),
                views.seq()[i].spec_definition(),
            ),
    decreases views,
{
    if let List::Cons { head, tail } = views {
        lemma_views(*tail);
        assert forall|i: int| 0 <= i < views.seq().len() implies (
        #[trigger] model::view_models(views)[i]) == model::view_model(
            views.seq()[i].spec_name(),
            views.seq()[i].spec_columns(),
            views.seq()[i].spec_definition(),
        ) by {
            if i > 0 {
                assert(model::view_models(views)[i] == model::view_models(*tail)[i - 1]);
                assert(views.seq()[i] == tail.seq()[i - 1]);
            }
        }
    }
}

/// The model of a schema has its name, a table for each declared one and a view for each declared one,
/// each in its place and under its name.
pub proof fn law_schema_is_kept(
    name: Option<&'static str>,
    tables: List<&'static dyn Table>,
    views: List<&'static dyn ViewDef>,
    schema: SchemaModel,
)
    requires
        model::is_schema_model(name, tables, views, schema),
    ensures
        schema.name is Some == name is Some,
        name matches Some(given) ==> schema.name matches Some(kept) && kept@ == given@,
        schema.tables@.len() == tables.seq().len(),
        forall|i: int|
            0 <= i < tables.seq().len() ==> (#[trigger] schema.tables@[i]).name@
                == tables.seq()[i].spec_name()@ && schema.tables@[i].columns@.len()
                == tables.seq()[i].spec_columns().seq().len() && schema.tables@[i].indexes@.len()
                >= tables.seq()[i].spec_indexes().seq().len(),
        schema.views@.len() == views.seq().len(),
        forall|i: int|
            0 <= i < views.seq().len() ==> (#[trigger] schema.views@[i]).name@
                == views.seq()[i].spec_name()@ && schema.views@[i].columns
                == views.seq()[i].spec_columns(),
{
    lemma_views(views);
    assert forall|i: int| 0 <= i < tables.seq().len() implies (#[trigger] schema.tables@[i]).name@
        == tables.seq()[i].spec_name()@ && schema.tables@[i].columns@.len()
        == tables.seq()[i].spec_columns().seq().len() && schema.tables@[i].indexes@.len()
        >= tables.seq()[i].spec_indexes().seq().len() by {
        kept::law_declared_indexes_are_kept(
            tables.seq()[i].spec_name(),
            tables.seq()[i].spec_columns(),
            tables.seq()[i].spec_indexes(),
            tables.seq()[i].spec_primary_key(),
            tables.seq()[i].spec_uniques(),
            schema.tables@[i],
        );
    }
}

} // verus!
