//! Copies of models.
use crate::chain::List;
use crate::label::Duplicate;
use crate::meta::{Column, Index, TablePrimaryKey, TableUnique, ViewColumnModel};
use crate::model::{
    CheckModel, ColumnModel, Constraint, DatabaseModel, DefaultValue, ForeignKeyModel,
    GeneratedColumnModel, IndexModel, SchemaModel, TableModel, ViewBody, ViewModel,
};
use crate::ops::{OrderDirection, OrderNulls};
use vstd::prelude::*;

verus! {

impl Duplicate for OrderDirection {
    fn duplicate(&self) -> (copy: OrderDirection) {
        *self
    }
}

impl Duplicate for OrderNulls {
    fn duplicate(&self) -> (copy: OrderNulls) {
        *self
    }
}

impl Duplicate for DefaultValue {
    fn duplicate(&self) -> (copy: DefaultValue) {
        match self {
            DefaultValue::Null => DefaultValue::Null,
            DefaultValue::Int(value) => DefaultValue::Int(*value),
            DefaultValue::UInt(value) => DefaultValue::UInt(*value),
            DefaultValue::Float(value) => DefaultValue::Float(*value),
            DefaultValue::Text(value) => DefaultValue::Text(value.clone()),
            DefaultValue::Bool(value) => DefaultValue::Bool(*value),
            DefaultValue::CurrentTimestamp => DefaultValue::CurrentTimestamp,
            DefaultValue::CurrentDate => DefaultValue::CurrentDate,
            DefaultValue::CurrentTime => DefaultValue::CurrentTime,
            DefaultValue::Raw(value) => DefaultValue::Raw(value.clone()),
        }
    }
}

impl Duplicate for GeneratedColumnModel {
    fn duplicate(&self) -> (copy: GeneratedColumnModel) {
        GeneratedColumnModel { expression: self.expression.duplicate(), storage: self.storage }
    }
}

impl Duplicate for ColumnModel {
    fn duplicate(&self) -> (copy: ColumnModel) {
        ColumnModel {
            name: self.name.duplicate(),
            comment: self.comment.duplicate(),
            ty: self.ty.duplicate(),
            collation: self.collation.duplicate(),
            nullable: self.nullable,
            default: self.default.duplicate(),
            identity: self.identity,
            generated: self.generated.duplicate(),
            on_update: self.on_update.duplicate(),
        }
    }
}

impl Duplicate for CheckModel {
    fn duplicate(&self) -> (copy: CheckModel) {
        CheckModel {
            name: self.name.duplicate(),
            expression: self.expression.duplicate(),
            validation: self.validation,
            enforcement: self.enforcement,
        }
    }
}

impl Duplicate for ViewColumnModel {
    fn duplicate(&self) -> (copy: ViewColumnModel) {
        ViewColumnModel {
            name: self.name.duplicate(),
            ty: self.ty.duplicate(),
            nullable: self.nullable,
        }
    }
}

impl Duplicate for ViewModel {
    fn duplicate(&self) -> (copy: ViewModel) {
        let query = match &self.query {
            ViewBody::Select(query) => ViewBody::Select(Box::new((**query).duplicate())),
        };
        ViewModel {
            name: self.name.duplicate(),
            comment: self.comment.duplicate(),
            columns: self.columns.duplicate(),
            query,
        }
    }
}

impl Clone for DefaultValue {
    fn clone(&self) -> (copy: DefaultValue)
        ensures
            copy == *self,
    {
        self.duplicate()
    }
}

impl Clone for GeneratedColumnModel {
    fn clone(&self) -> (copy: GeneratedColumnModel)
        ensures
            copy == *self,
    {
        self.duplicate()
    }
}

impl Clone for ColumnModel {
    fn clone(&self) -> (copy: ColumnModel)
        ensures
            copy == *self,
    {
        self.duplicate()
    }
}

impl Clone for CheckModel {
    fn clone(&self) -> (copy: CheckModel)
        ensures
            copy == *self,
    {
        self.duplicate()
    }
}

impl Clone for ViewColumnModel {
    fn clone(&self) -> (copy: ViewColumnModel)
        ensures
            copy == *self,
    {
        self.duplicate()
    }
}

impl Clone for ViewBody {
    fn clone(&self) -> (copy: ViewBody)
        ensures
            copy == *self,
    {
        match self {
            ViewBody::Select(query) => ViewBody::Select(Box::new((**query).duplicate())),
        }
    }
}

impl Clone for ViewModel {
    fn clone(&self) -> (copy: ViewModel)
        ensures
            copy == *self,
    {
        self.duplicate()
    }
}

impl Clone for Constraint {
    fn clone(&self) -> (copy: Constraint)
        ensures
            copy.view() == self.view(),
    {
        let copy = Constraint { name: self.name.clone(), columns: self.columns.clone() };
        proof {
            assert(copy.columns@ =~= self.columns@);
        }
        copy
    }
}

impl Clone for ForeignKeyModel {
    fn clone(&self) -> (copy: ForeignKeyModel)
        ensures
            copy.view() == self.view(),
    {
        let copy = ForeignKeyModel {
            name: self.name.clone(),
            columns: self.columns.clone(),
            references_schema: self.references_schema.duplicate(),
            references_table: self.references_table.clone(),
            references_columns: self.references_columns.clone(),
            match_type: self.match_type,
            deferrability: self.deferrability,
            validation: self.validation,
            enforcement: self.enforcement,
            on_delete: self.on_delete,
            on_update: self.on_update,
        };
        proof {
            assert(copy.columns@ =~= self.columns@);
            assert(copy.references_columns@ =~= self.references_columns@);
        }
        copy
    }
}

/// Whether two indexes are alike in everything.
pub open spec fn same_index(a: IndexModel, b: IndexModel) -> bool {
    &&& a.view() == b.view()
    &&& a.expressions == b.expressions
    &&& a.include_columns == b.include_columns
    &&& a.method == b.method
    &&& a.directions == b.directions
    &&& a.nulls == b.nulls
    &&& a.collations == b.collations
    &&& a.operator_classes == b.operator_classes
    &&& a.prefix_lengths == b.prefix_lengths
}

impl Clone for IndexModel {
    fn clone(&self) -> (copy: IndexModel)
        ensures
            same_index(*self, copy),
    {
        let predicate = match &self.predicate {
            Some(node) => Some(Box::new((**node).duplicate())),
            None => None,
        };
        let copy = IndexModel {
            name: self.name.clone(),
            columns: self.columns.clone(),
            expressions: self.expressions.duplicate(),
            include_columns: self.include_columns.duplicate(),
            unique: self.unique,
            method: self.method,
            directions: self.directions.duplicate(),
            nulls: self.nulls.duplicate(),
            collations: self.collations.duplicate(),
            operator_classes: self.operator_classes.duplicate(),
            prefix_lengths: self.prefix_lengths.duplicate(),
            predicate,
        };
        proof {
            assert(copy.columns@ =~= self.columns@);
        }
        copy
    }
}

/// Whether two tables are alike in everything.
pub open spec fn same_table(a: TableModel, b: TableModel) -> bool {
    &&& a.name == b.name
    &&& a.comment == b.comment
    &&& a.columns@ == b.columns@
    &&& crate::model::optional_constraint(a.primary_key) == crate::model::optional_constraint(
        b.primary_key,
    )
    &&& crate::model::foreign_key_views(a.foreign_keys@) == crate::model::foreign_key_views(
        b.foreign_keys@,
    )
    &&& crate::model::constraint_views(a.uniques@) == crate::model::constraint_views(b.uniques@)
    &&& a.checks@ == b.checks@
    &&& a.indexes@.len() == b.indexes@.len()
    &&& forall|i: int|
        0 <= i < a.indexes@.len() ==> same_index(#[trigger] a.indexes@[i], b.indexes@[i])
}

impl Clone for TableModel {
    fn clone(&self) -> (copy: TableModel)
        ensures
            same_table(*self, copy),
    {
        let primary_key = match &self.primary_key {
            Some(key) => Some(key.clone()),
            None => None,
        };
        let copy = TableModel {
            name: self.name.clone(),
            comment: self.comment.duplicate(),
            columns: self.columns.clone(),
            primary_key,
            foreign_keys: self.foreign_keys.clone(),
            uniques: self.uniques.clone(),
            checks: self.checks.clone(),
            indexes: self.indexes.clone(),
        };
        proof {
            assert(self.columns@ =~= copy.columns@);
            assert(self.checks@ =~= copy.checks@);
            assert(crate::model::foreign_key_views(self.foreign_keys@)
                =~= crate::model::foreign_key_views(copy.foreign_keys@));
            assert(crate::model::constraint_views(self.uniques@)
                =~= crate::model::constraint_views(copy.uniques@));
        }
        copy
    }
}

/// Whether two schemas are alike in everything.
pub open spec fn same_schema(a: SchemaModel, b: SchemaModel) -> bool {
    &&& a.name == b.name
    &&& a.tables@.len() == b.tables@.len()
    &&& forall|i: int|
        0 <= i < a.tables@.len() ==> same_table(#[trigger] a.tables@[i], b.tables@[i])
    &&& a.views@ == b.views@
}

impl Clone for SchemaModel {
    fn clone(&self) -> (copy: SchemaModel)
        ensures
            same_schema(*self, copy),
    {
        let copy = SchemaModel {
            name: self.name.duplicate(),
            tables: self.tables.clone(),
            views: self.views.clone(),
        };
        proof {
            assert(self.views@ =~= copy.views@);
        }
        copy
    }
}

/// Whether two databases are alike in everything.
pub open spec fn same_database(a: DatabaseModel, b: DatabaseModel) -> bool {
    &&& a.schemas@.len() == b.schemas@.len()
    &&& forall|i: int|
        0 <= i < a.schemas@.len() ==> same_schema(#[trigger] a.schemas@[i], b.schemas@[i])
}

impl Clone for DatabaseModel {
    fn clone(&self) -> (copy: DatabaseModel)
        ensures
            same_database(*self, copy),
    {
        DatabaseModel { schemas: self.schemas.clone() }
    }
}

impl Default for DatabaseModel {
    /// The database without schemas.
    fn default() -> (model: DatabaseModel)
        ensures
            model.schemas@.len() == 0,
    {
        DatabaseModel { schemas: Vec::new() }
    }
}

/// A copy of the model of a table is a model of the same table.
pub proof fn law_copy_is_table_model(
    name: &'static str,
    columns: List<&'static dyn Column>,
    indexes: List<&'static dyn Index>,
    primary_key: Option<TablePrimaryKey>,
    uniques: List<TableUnique>,
    model: TableModel,
    copy: TableModel,
)
    requires
        crate::model::is_table_model(name, columns, indexes, primary_key, uniques, model),
        same_table(model, copy),
    ensures
        crate::model::is_table_model(name, columns, indexes, primary_key, uniques, copy),
{
    assert(crate::model::index_views(model.indexes@) =~= crate::model::index_views(copy.indexes@));
    assert forall|i: int| 0 <= i < copy.indexes@.len() implies (
    #[trigger] copy.indexes@[i]).is_plain() by {
        assert(same_index(model.indexes@[i], copy.indexes@[i]));
    }
}

} // verus!
