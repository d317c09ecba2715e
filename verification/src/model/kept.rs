//! What a model keeps of the metadata that it is built from, in terms of the model's own fields.
use crate::chain::List;
use crate::dialect;
use crate::meta::{
    Column, ColumnMeta, ForeignKeyMeta, Index, IndexMeta, TablePrimaryKey, TableUnique,
};
use crate::model;
use crate::model::{
    ConstraintView, IndexModel, IndexView, TableModel,
};
use vstd::prelude::*;

verus! {

/// Whether `owned` are the characters of `names`, one for each and in their order.
pub open spec fn are_names(owned: Seq<String>, names: Seq<&'static str>) -> bool {
    &&& owned.len() == names.len()
    &&& forall|i: int| 0 <= i < names.len() ==> (#[trigger] owned[i])@ == names[i]@
}

proof fn lemma_names(names: List<&'static str>)
    ensures
        model::names_view(names).len() == names.seq().len(),
        forall|i: int|
            0 <= i < names.seq().len() ==> (#[trigger] model::names_view(names)[i])
                == names.seq()[i]@,
    decreases names,
{
    if let List::Cons { head, tail } = names {
        lemma_names(*tail);
        assert forall|i: int| 0 <= i < names.seq().len() implies (#[trigger] model::names_view(
            names,
        )[i]) == names.seq()[i]@ by {
            if i > 0 {
                assert(names.seq()[i] == tail.seq()[i - 1]);
                assert(model::names_view(names)[i] == model::names_view(*tail)[i - 1]);
            }
        }
    }
}

proof fn lemma_are_names(owned: Seq<String>, names: List<&'static str>)
    requires
        dialect::strings_view(owned) == model::names_view(names),
    ensures
        are_names(owned, names.seq()),
{
    lemma_names(names);
    assert(dialect::strings_view(owned).len() == owned.len());
    assert forall|i: int| 0 <= i < names.seq().len() implies (#[trigger] owned[i])@
        == names.seq()[i]@ by {
        assert(dialect::strings_view(owned)[i] == owned[i]@);
        assert(model::names_view(names)[i] == names.seq()[i]@);
    }
}

proof fn lemma_one_name(owned: Seq<String>, name: Seq<char>)
    requires
        dialect::strings_view(owned) == seq![name],
    ensures
        owned.len() == 1,
        owned[0]@ == name,
{
    assert(dialect::strings_view(owned).len() == owned.len());
    assert(dialect::strings_view(owned)[0] == owned[0]@);
}

/// Whether `index` says exactly what `meta` says: the same columns in the same order, the same
/// uniqueness, the same predicate, and the declared name where there is one.
pub open spec fn keeps_index(table: Seq<char>, meta: IndexMeta, index: IndexModel) -> bool {
    &&& are_names(index.columns@, meta.columns.seq())
    &&& index.unique == meta.unique
    &&& match meta.predicate {
        Some(node) => index.predicate == Some(Box::new(node)),
        None => index.predicate is None,
    }
    &&& match meta.name {
        Some(given) => index.name@ == given@,
        None => index.name@ == "idx_"@ + table + "_"@ + model::joined_names(meta.columns),
    }
    &&& index.is_plain()
}

proof fn lemma_declared(table: Seq<char>, indexes: List<&'static dyn Index>)
    ensures
        model::declared_indexes(table, indexes).len() == indexes.seq().len(),
        forall|i: int|
            0 <= i < indexes.seq().len() ==> (#[trigger] model::declared_indexes(table, indexes)[i])
                == model::index_view(table, indexes.seq()[i].spec_meta()),
    decreases indexes,
{
    if let List::Cons { head, tail } = indexes {
        lemma_declared(table, *tail);
        assert forall|i: int| 0 <= i < indexes.seq().len() implies (
        #[trigger] model::declared_indexes(table, indexes)[i]) == model::index_view(
            table,
            indexes.seq()[i].spec_meta(),
        ) by {
            if i > 0 {
                assert(indexes.seq()[i] == tail.seq()[i - 1]);
                assert(model::declared_indexes(table, indexes)[i] == model::declared_indexes(
                    table,
                    *tail,
                )[i - 1]);
            }
        }
    }
}

/// The model of a table keeps what each declared index says: its `i`-th index has the columns, the
/// uniqueness and the predicate of the `i`-th declared one.
pub proof fn law_declared_indexes_are_kept(
    name: &'static str,
    columns: List<&'static dyn Column>,
    indexes: List<&'static dyn Index>,
    primary_key: Option<TablePrimaryKey>,
    uniques: List<TableUnique>,
    table: TableModel,
)
    requires
        model::is_table_model(name, columns, indexes, primary_key, uniques, table),
    ensures
        table.indexes@.len() >= indexes.seq().len(),
        forall|i: int|
            0 <= i < indexes.seq().len() ==> keeps_index(
                name@,
                indexes.seq()[i].spec_meta(),
                #[trigger] table.indexes@[i],
            ),
{
    lemma_declared(name@, indexes);
    let declared = model::declared_indexes(name@, indexes);
    let views = model::index_views(table.indexes@);
    assert(views.len() == table.indexes@.len());
    assert forall|i: int| 0 <= i < indexes.seq().len() implies keeps_index(
        name@,
        indexes.seq()[i].spec_meta(),
        #[trigger] table.indexes@[i],
    ) by {
        assert(views[i] == declared[i]);
        assert(views[i] == table.indexes@[i].view());
        lemma_are_names(
            table.indexes@[i].columns@,
            indexes.seq()[i].spec_meta().columns,
        );
    }
}

/// Two tables whose indexes are declared with different uniqueness have different models.
pub proof fn law_uniqueness_tells_models_apart(
    name: &'static str,
    columns: List<&'static dyn Column>,
    indexes: List<&'static dyn Index>,
    others: List<&'static dyn Index>,
    primary_key: Option<TablePrimaryKey>,
    uniques: List<TableUnique>,
    table: TableModel,
    other: TableModel,
    i: int,
)
    requires
        model::is_table_model(name, columns, indexes, primary_key, uniques, table),
        model::is_table_model(name, columns, others, primary_key, uniques, other),
        0 <= i < indexes.seq().len(),
        i < others.seq().len(),
        indexes.seq()[i].spec_meta().unique != others.seq()[i].spec_meta().unique,
    ensures
        table.indexes@[i].unique != other.indexes@[i].unique,
{
    law_declared_indexes_are_kept(name, columns, indexes, primary_key, uniques, table);
    law_declared_indexes_are_kept(name, columns, others, primary_key, uniques, other);
    assert(table.indexes@[i].unique == indexes.seq()[i].spec_meta().unique);
    assert(other.indexes@[i].unique == others.seq()[i].spec_meta().unique);
}

/// Whether a column is unique by itself, for all rows.
pub open spec fn is_unique_column(meta: ColumnMeta) -> bool {
    meta.unique && meta.unique_predicate is None
}

/// One more column adds its unique constraint, its partial unique index, its foreign key, its check
/// and its part of the primary key, each exactly where the column asks for it, and changes nothing of
/// the columns behind it.
pub proof fn law_column_adds_its_constraints(
    table: Seq<char>,
    column: &'static dyn Column,
    columns: List<&'static dyn Column>,
)
    ensures
        ({
            let meta = column.spec_meta();
            let all = List::Cons { head: Box::new(column), tail: Box::new(columns) };
            let uniques = model::column_uniques(table, all);
            let rest_uniques = model::column_uniques(table, columns);
            let partial = model::column_partial_indexes(table, all);
            let rest_partial = model::column_partial_indexes(table, columns);
            let keys = model::column_foreign_keys(table, all);
            let rest_keys = model::column_foreign_keys(table, columns);
            let checks = model::column_checks(table, all);
            let rest_checks = model::column_checks(table, columns);
            let marked = model::marked_primary_keys(all);
            let rest_marked = model::marked_primary_keys(columns);
            &&& is_unique_column(meta) ==> uniques == seq![
                ConstraintView {
                    name: "uq_"@ + table + "_"@ + meta.name@,
                    columns: seq![meta.name@],
                },
            ] + rest_uniques
            &&& !is_unique_column(meta) ==> uniques == rest_uniques
            &&& match meta.unique_predicate {
                Some(predicate) => partial == seq![
                    IndexView {
                        name: "uq_"@ + table + "_"@ + meta.name@,
                        columns: seq![meta.name@],
                        unique: true,
                        predicate: Some(Box::new(predicate)),
                    },
                ] + rest_partial,
                None => partial == rest_partial,
            }
            &&& match meta.references {
                Some(reference) => keys.len() == rest_keys.len() + 1 && keys[0].name == "fk_"@
                    + table + "_"@ + meta.name@ && keys[0].columns == seq![meta.name@]
                    && keys[0].references_table == reference.table@ && keys[0].references_columns
                    == seq![reference.column@] && keys.drop_first() == rest_keys,
                None => keys == rest_keys,
            }
            &&& match meta.check {
                Some(expression) => checks.len() == rest_checks.len() + 1 && checks[0].name
                    == "ck_"@ + table + "_"@ + meta.name@ && checks[0].expression == expression@
                    && checks.drop_first() == rest_checks,
                None => checks == rest_checks,
            }
            &&& marked == (if meta.primary_key {
                seq![meta.name@] + rest_marked
            } else {
                rest_marked
            })
        }),
{
    let meta = column.spec_meta();
    let all = List::Cons { head: Box::new(column), tail: Box::new(columns) };
    let rest_keys = model::column_foreign_keys(table, columns);
    let rest_checks = model::column_checks(table, columns);
    assert(Seq::empty() + model::column_uniques(table, columns) =~= model::column_uniques(
        table,
        columns,
    ));
    assert(Seq::empty() + model::column_partial_indexes(table, columns)
        =~= model::column_partial_indexes(table, columns));
    assert(Seq::empty() + rest_keys =~= rest_keys);
    assert(Seq::empty() + rest_checks =~= rest_checks);
    assert(Seq::empty() + model::marked_primary_keys(columns) =~= model::marked_primary_keys(
        columns,
    ));
    if meta.references is Some {
        assert(model::column_foreign_keys(table, all).drop_first() =~= rest_keys);
    }
    if meta.check is Some {
        assert(model::column_checks(table, all).drop_first() =~= rest_checks);
    }
}

/// A foreign key keeps the schema that it refers to and what happens on deletes and updates, and says
/// nothing that was not declared.
pub proof fn law_foreign_key_is_kept(table: Seq<char>, column: Seq<char>, reference: ForeignKeyMeta)
    ensures
        ({
            let key = model::foreign_key_view(table, column, reference);
            &&& match reference.schema_name {
                Some(schema) => key.references_schema == Some(schema@),
                None => key.references_schema is None,
            }
            &&& match reference.on_delete {
                Some(text) => key.on_delete == Some(model::action_of(text)),
                None => key.on_delete is None,
            }
            &&& match reference.on_update {
                Some(text) => key.on_update == Some(model::action_of(text)),
                None => key.on_update is None,
            }
            &&& key.match_type is None
            &&& key.deferrability is None
            &&& key.validation is None
            &&& key.enforcement is None
        }),
{
}

/// One more table-level unique constraint is a constraint on its columns, or a partial unique index
/// where it has a predicate, under the declared name or the conventional one.
pub proof fn law_unique_adds_its_constraint(
    table: Seq<char>,
    unique: TableUnique,
    uniques: List<TableUnique>,
)
    ensures
        ({
            let all = List::Cons { head: Box::new(unique), tail: Box::new(uniques) };
            let name = match unique.name {
                Some(given) => given@,
                None => "uq_"@ + table + "_"@ + model::joined_names(unique.columns),
            };
            let columns = model::names_view(unique.columns);
            match unique.predicate {
                None => {
                    &&& model::table_uniques(table, all) == seq![ConstraintView { name, columns }]
                        + model::table_uniques(table, uniques)
                    &&& model::table_partial_indexes(table, all) == model::table_partial_indexes(
                        table,
                        uniques,
                    )
                },
                Some(predicate) => {
                    &&& model::table_uniques(table, all) == model::table_uniques(table, uniques)
                    &&& model::table_partial_indexes(table, all) == seq![
                        IndexView {
                            name,
                            columns,
                            unique: true,
                            predicate: Some(Box::new(predicate)),
                        },
                    ] + model::table_partial_indexes(table, uniques)
                },
            }
        }),
{
    assert(Seq::empty() + model::table_uniques(table, uniques) =~= model::table_uniques(
        table,
        uniques,
    ));
    assert(Seq::empty() + model::table_partial_indexes(table, uniques)
        =~= model::table_partial_indexes(table, uniques));
}

/// The model of a table has its unique constraints from its columns and then from the table, its
/// foreign keys and checks from its columns, and its indexes as declared, then those of its columns and
/// then those of the table; each is there in full.
pub proof fn law_table_is_kept(
    name: &'static str,
    columns: List<&'static dyn Column>,
    indexes: List<&'static dyn Index>,
    primary_key: Option<TablePrimaryKey>,
    uniques: List<TableUnique>,
    table: TableModel,
)
    requires
        model::is_table_model(name, columns, indexes, primary_key, uniques, table),
    ensures
        ({
            let of_columns = model::column_uniques(name@, columns);
            let of_table = model::table_uniques(name@, uniques);
            let keys = model::column_foreign_keys(name@, columns);
            let checks = model::column_checks(name@, columns);
            &&& table.name@ == name@
            &&& table.columns@.len() == columns.seq().len()
            &&& table.uniques@.len() == of_columns.len() + of_table.len()
            &&& forall|i: int|
                0 <= i < table.uniques@.len() ==> (#[trigger] table.uniques@[i]).name@ == (
                of_columns + of_table)[i].name && dialect::strings_view(
                    table.uniques@[i].columns@,
                ) == (of_columns + of_table)[i].columns
            &&& table.foreign_keys@.len() == keys.len()
            &&& forall|i: int|
                0 <= i < keys.len() ==> (#[trigger] table.foreign_keys@[i]).name@ == keys[i].name
                    && dialect::strings_view(table.foreign_keys@[i].columns@) == keys[i].columns
                    && table.foreign_keys@[i].references_table@ == keys[i].references_table
                    && dialect::strings_view(table.foreign_keys@[i].references_columns@)
                    == keys[i].references_columns && table.foreign_keys@[i].on_delete
                    == keys[i].on_delete && table.foreign_keys@[i].on_update == keys[i].on_update
            &&& table.checks@.len() == checks.len()
            &&& forall|i: int|
                0 <= i < checks.len() ==> (#[trigger] table.checks@[i]).name@ == checks[i].name
                    && table.checks@[i].expression@ == checks[i].expression
            &&& match (primary_key, table.primary_key) {
                (Some(key), Some(constraint)) => are_names(
                    constraint.columns@,
                    key.columns.seq(),
                ) && (match key.name {
                    Some(given) => constraint.name@ == given@,
                    None => constraint.name@ == "pk_"@ + name@,
                }),
                (Some(_), None) => false,
                (None, Some(constraint)) => constraint.name@ == "pk_"@ + name@
                    && dialect::strings_view(constraint.columns@) == model::marked_primary_keys(
                    columns,
                ) && model::marked_primary_keys(columns).len() > 0,
                (None, None) => model::marked_primary_keys(columns).len() == 0,
            }
        }),
{
    let of_columns = model::column_uniques(name@, columns);
    let of_table = model::table_uniques(name@, uniques);
    let keys = model::column_foreign_keys(name@, columns);
    let checks = model::column_checks(name@, columns);
    let a = model::constraint_views(table.uniques@);
    let b = model::foreign_key_views(table.foreign_keys@);
    let c = model::check_views(table.checks@);
    assert(a.len() == table.uniques@.len());
    assert(b.len() == table.foreign_keys@.len());
    assert(c.len() == table.checks@.len());
    assert forall|i: int| 0 <= i < table.uniques@.len() implies (
    #[trigger] table.uniques@[i]).name@ == (of_columns + of_table)[i].name
        && dialect::strings_view(table.uniques@[i].columns@) == (of_columns + of_table)[i].columns by {
        assert(a[i] == table.uniques@[i].view());
    }
    assert forall|i: int| 0 <= i < keys.len() implies (#[trigger] table.foreign_keys@[i]).name@
        == keys[i].name && dialect::strings_view(table.foreign_keys@[i].columns@) == keys[i].columns
        && table.foreign_keys@[i].references_table@ == keys[i].references_table
        && dialect::strings_view(table.foreign_keys@[i].references_columns@)
        == keys[i].references_columns && table.foreign_keys@[i].on_delete == keys[i].on_delete
        && table.foreign_keys@[i].on_update == keys[i].on_update by {
        assert(b[i] == table.foreign_keys@[i].view());
    }
    assert forall|i: int| 0 <= i < checks.len() implies (#[trigger] table.checks@[i]).name@
        == checks[i].name && table.checks@[i].expression@ == checks[i].expression by {
        assert(c[i] == table.checks@[i].view());
    }
    if let (Some(key), Some(constraint)) = (primary_key, table.primary_key) {
        assert(constraint.view().columns == model::names_view(key.columns));
        lemma_are_names(constraint.columns@, key.columns);
    }
}

/// Names are joined by underscores, in their order.
pub proof fn law_joined_names(names: List<&'static str>, name: &'static str)
    ensures
        model::joined_names(names.with(name)) == (if names is Nil {
            name@
        } else {
            model::joined_names(names) + "_"@ + name@
        }),
    decreases names,
{
    match names {
        List::Nil => {},
        List::Cons { head, tail } => {
            law_joined_names(*tail, name);
            assert(!(tail.with(name) is Nil));
            if !(*tail is Nil) {
                assert(head@ + "_"@ + (model::joined_names(*tail) + "_"@ + name@) =~= head@ + "_"@
                    + model::joined_names(*tail) + "_"@ + name@);
            }
        },
    }
}

} // verus!
