//! What a backend offers for managing schemas.
use crate::backend::{ConstraintCapabilities, IndexCapabilities, SchemaCapabilities};
use crate::label::Duplicate;
use crate::model::{DatabaseModel, IdentityMode, IndexMethod};
use crate::plan::DatabasePlan;
use crate::sql_type::SqlType;
use vstd::prelude::*;

verus! {

/// Why a backend does not render schema statements.
#[derive(Clone, Copy, Debug, PartialEq, Eq, Structural)]
pub enum SchemaRenderError {
    /// The backend does not render incremental plans.
    Unsupported,
    /// The statements cannot be written.
    Failed,
}

impl SchemaRenderError {
    /// The error in words.
    pub fn message(self) -> (message: &'static str)
        ensures
            message == (match self {
                SchemaRenderError::Unsupported =>
                    "backend does not support incremental schema plan rendering",
                SchemaRenderError::Failed => "schema statements could not be written",
            }),
    {
        match self {
            SchemaRenderError::Unsupported =>
                "backend does not support incremental schema plan rendering",
            SchemaRenderError::Failed => "schema statements could not be written",
        }
    }
}

/// No optional metadata can be taken for granted.
pub open spec fn no_capabilities() -> SchemaCapabilities {
    SchemaCapabilities {
        constraints: ConstraintCapabilities {
            foreign_key_match_type: false,
            foreign_key_deferrability: false,
            foreign_key_validation: false,
            foreign_key_enforcement: false,
            check_validation: false,
            check_enforcement: false,
        },
        indexes: IndexCapabilities {
            predicates: false,
            expressions: false,
            include_columns: false,
            null_ordering: false,
            collations: false,
            operator_classes: false,
        },
    }
}

/// Renders schema statements from the neutral model.
pub trait SchemaBackend {
    /// What the backend can write and read back. By default, nothing that is optional.
    fn capabilities(&self) -> (capabilities: SchemaCapabilities)
        default_ensures
            capabilities == no_capabilities(),
    {
        SchemaCapabilities::default()
    }

    /// The statements that create the whole model.
    fn render_create(&self, model: &DatabaseModel) -> (sql: Result<String, SchemaRenderError>);

    /// The statements of an incremental plan. By default, incremental plans are not supported.
    fn render_plan(&self, plan: &DatabasePlan) -> (sql: Result<String, SchemaRenderError>)
        default_ensures
            sql == Err::<String, SchemaRenderError>(SchemaRenderError::Unsupported),
    {
        Err(SchemaRenderError::Unsupported)
    }

    /// The statements of an incremental plan that lock as little as the backend can. By default,
    /// those of the plan.
    fn render_plan_concurrent(&self, plan: &DatabasePlan) -> (sql: Result<
        String,
        SchemaRenderError,
    >)
        default_ensures
            call_ensures(Self::render_plan, (self, plan), sql),
    {
        self.render_plan(plan)
    }
}

/// How a backend reads its own schema back: what a declared model must be turned into before it is
/// compared with what is there. By default, everything stays as it is declared.
pub trait SchemaIntrospect {
    fn canonical_sql_type(&self, ty: &SqlType) -> (canonical: SqlType)
        default_ensures
            canonical == *ty,
    {
        ty.duplicate()
    }

    fn canonical_identity_mode(&self, mode: &IdentityMode) -> (canonical: IdentityMode)
        default_ensures
            canonical == *mode,
    {
        *mode
    }

    fn canonical_primary_key_name(&self, name: &str) -> (canonical: String)
        default_ensures
            canonical@ == name@,
    {
        String::from_str(name)
    }

    /// The access method that is reported for an index that declares none.
    fn default_index_method(&self) -> (method: Option<IndexMethod>)
        default_ensures
            method is None,
    {
        None
    }
}

} // verus!
