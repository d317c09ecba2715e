//! Schema deployment plans: ordered, backend-neutral steps.
use crate::model::{
    CheckModel, ColumnModel, Constraint, ForeignKeyModel, IndexModel, TableModel, ViewModel,
};
use crate::sql_type::SqlType;
use vstd::prelude::*;

verus! {

/// An enum type and its labels.
#[derive(Clone, Debug, PartialEq, Eq)]
pub struct EnumModel {
    pub name: String,
    pub labels: Vec<String>,
}

/// The column that owns a sequence.
#[derive(Clone, Debug, PartialEq, Eq)]
pub struct SequenceOwnedBy {
    pub table: String,
    pub column: String,
}

/// A sequence.
#[derive(Clone, Debug, PartialEq, Eq)]
pub struct SequenceModel {
    pub name: String,
    pub start: i64,
    pub increment: i64,
    pub owned_by: Option<SequenceOwnedBy>,
}

/// A domain type.
#[derive(Clone, Debug, PartialEq, Eq)]
pub struct DomainModel {
    pub name: String,
    pub ty: SqlType,
    pub not_null: bool,
    pub checks: Vec<CheckModel>,
}

/// An exclusion constraint.
#[derive(Clone, Debug, PartialEq, Eq)]
pub struct ExclusionModel {
    pub name: String,
    pub definition: String,
}

/// An ordered schema deployment plan.
#[derive(Debug, PartialEq)]
pub struct DatabasePlan {
    pub steps: Vec<DatabasePlanStep>,
}

impl DatabasePlan {
    /// Whether there is nothing to do.
    pub fn is_empty(&self) -> (empty: bool)
        ensures
            empty <==> self.steps@.len() == 0,
    {
        self.steps.len() == 0
    }
}

impl Default for DatabasePlan {
    fn default() -> (plan: DatabasePlan)
        ensures
            plan.steps@.len() == 0,
    {
        DatabasePlan { steps: Vec::new() }
    }
}

/// One step of a plan.
#[derive(Debug, PartialEq)]
pub enum DatabasePlanStep {
    CreateSchema { schema: Option<String> },
    DropSchema { schema: Option<String> },
    CreateTable { schema: Option<String>, table: Box<TableModel> },
    DropTable { schema: Option<String>, table: Box<TableModel> },
    RenameTable {
        refactor_id: Option<String>,
        schema: Option<String>,
        from: String,
        to: String,
    },
    AlterTable { schema: Option<String>, table: String, change: Box<TablePlanStep> },
    CreateView { schema: Option<String>, view: Box<ViewModel> },
    DropView { schema: Option<String>, view: Box<ViewModel> },
    /// Stands before any table that uses the type.
    CreateEnum { schema: Option<String>, enum_type: EnumModel },
    /// Stands behind any table that used the type.
    DropEnum { schema: Option<String>, enum_type: EnumModel },
    /// Changes the labels of an enum: in place where `additive`, else by recreating the type.
    AlterEnum {
        schema: Option<String>,
        before: EnumModel,
        after: EnumModel,
        additive: bool,
    },
    /// Creates a sequence without its owner.
    CreateSequence { schema: Option<String>, sequence: SequenceModel },
    DropSequence { schema: Option<String>, sequence: SequenceModel },
    AlterSequence { schema: Option<String>, before: SequenceModel, after: SequenceModel },
    /// Sets or clears the owner of a sequence; stands behind the tables.
    SetSequenceOwner {
        schema: Option<String>,
        name: String,
        owned_by: Option<SequenceOwnedBy>,
    },
    CreateDomain { schema: Option<String>, domain: DomainModel },
    DropDomain { schema: Option<String>, domain: DomainModel },
    AlterDomain { schema: Option<String>, before: DomainModel, after: DomainModel },
}

/// One step of a plan for a table.
#[derive(Debug, PartialEq)]
pub enum TablePlanStep {
    SetTableComment { before: Option<String>, after: Option<String> },
    AddColumn { column: ColumnModel },
    DropColumn { column: ColumnModel },
    RenameColumn {
        refactor_id: Option<String>,
        from: String,
        to: String,
        column_type: SqlType,
    },
    AlterColumn { before: ColumnModel, after: ColumnModel, type_cast: Option<String> },
    AddPrimaryKey { constraint: Constraint },
    DropPrimaryKey { constraint: Constraint },
    AlterPrimaryKey { before: Constraint, after: Constraint },
    AddUnique { constraint: Constraint },
    DropUnique { constraint: Constraint },
    AlterUnique { before: Constraint, after: Constraint },
    AddForeignKey { foreign_key: ForeignKeyModel },
    DropForeignKey { foreign_key: ForeignKeyModel },
    AlterForeignKey { before: ForeignKeyModel, after: ForeignKeyModel },
    AddCheck { check: CheckModel },
    DropCheck { check: CheckModel },
    AlterCheck { before: CheckModel, after: CheckModel },
    AddIndex { index: IndexModel },
    DropIndex { index: IndexModel },
    AlterIndex { before: IndexModel, after: IndexModel },
    AddExclusion { exclusion: ExclusionModel },
    DropExclusion { exclusion: ExclusionModel },
    AlterExclusion { before: ExclusionModel, after: ExclusionModel },
}

} // verus!
