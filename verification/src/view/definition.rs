//! View definitions: typed queries that become view bodies.
use crate::backend::{Encode, ParamWriter};
use crate::chain;
use crate::chain::List;
use crate::connection::{QueryBuilder, SupportsFullJoin};
use crate::list::{HList, NoRuntimeParams};
use crate::meta::ViewColumnModel;
use crate::node::{InlineLiteral, ViewQueryModel};
use crate::projection::{ProjectionShape, RenderProjectable};
use crate::query::chain::Selected;
use crate::query::select::{ChainShape, RenderSelectAst};
use crate::view;
use crate::view::laws;
use crate::view::{lower_select, ModelBackend, ModelConn, ModelError, ViewError};
use vstd::prelude::*;

verus! {

impl QueryBuilder for ModelConn {
    type Backend = ModelBackend;
}

/// View bodies are neutral: whether a `FULL JOIN` can be deployed is for the database to say.
impl SupportsFullJoin for ModelBackend {

}

/// Collects the literals of a view body.
pub struct ModelParamWriter {
    pub params: List<InlineLiteral>,
}

impl ParamWriter for ModelParamWriter {
    type Backend = ModelBackend;

    open spec fn written(&self) -> Seq<InlineLiteral> {
        self.params.seq()
    }

    fn write<T: Encode<ModelBackend>>(&mut self, value: &T) -> (outcome: Result<(), ModelError>)
        ensures
            outcome is Err ==> final(self).params == old(self).params,
    {
        match value.encode() {
            Ok(literals) => {
                let mut params: List<InlineLiteral> = List::Nil;
                core::mem::swap(&mut params, &mut self.params);
                proof {
                    chain::lemma_then_list(params, literals);
                }
                self.params = params.append(literals);
                Ok(())
            },
            Err(error) => Err(error),
        }
    }
}

/// Lowers a typed query into a view body.
pub fn lower_view<
    'conn,
    'scope,
    Base: RenderSelectAst<'conn, 'scope, ModelConn, ModelBackend>,
    Shape: ProjectionShape,
    Projection: RenderProjectable<ModelBackend>,
>(selected: &Selected<'scope, Base, Shape, Projection>) -> (result: Result<
    ViewQueryModel,
    ViewError,
>)
    ensures
        result == view::select_model(selected.select_tree::<ModelConn, ModelBackend>()),
{
    lower_select(selected.lower::<ModelConn, ModelBackend>())
}

/// A query that can be a view body.
pub trait ViewSelect {
    /// The row that the body selects.
    type Row;

    /// The body, or why there is none.
    open spec fn body_model(&self) -> Result<ViewQueryModel, ViewError> {
        arbitrary()
    }

    /// Lowers the query into a view body. It has no runtime parameters, so it does not fail.
    fn lower(&self) -> (result: Result<ViewQueryModel, ViewError>)
        ensures
            result == self.body_model(),
            result is Ok,
    ;
}

impl<
    'scope,
    Base: RenderSelectAst<'static, 'scope, ModelConn, ModelBackend>,
    Shape: ProjectionShape,
    Projection: RenderProjectable<ModelBackend>,
> ViewSelect for Selected<'scope, Base, Shape, Projection> where
    <Base as ChainShape>::Params: NoRuntimeParams,
    Projection::Params: NoRuntimeParams,
 {
    type Row = Shape::Row;

    open spec fn body_model(&self) -> Result<ViewQueryModel, ViewError> {
        view::select_model(self.select_tree::<ModelConn, ModelBackend>())
    }

    fn lower(&self) -> (result: Result<ViewQueryModel, ViewError>) {
        proof {
            <<Base as ChainShape>::Params as NoRuntimeParams>::lemma_no_params();
            <Projection::Params as NoRuntimeParams>::lemma_no_params();
            self.law_selected_plain::<ModelConn, ModelBackend>();
            laws::law_plain_body_lowers(self.select_tree::<ModelConn, ModelBackend>());
        }
        lower_view(self)
    }
}

/// What a view declares: its name and its output columns.
pub trait SchemaView {
    /// The row that the declared columns make.
    type Row;

    open spec fn spec_schema_name() -> Option<&'static str> {
        arbitrary()
    }

    open spec fn spec_view_name() -> &'static str {
        arbitrary()
    }

    open spec fn spec_view_columns() -> List<ViewColumnModel> {
        arbitrary()
    }

    fn schema_name() -> (name: Option<&'static str>)
        ensures
            name == Self::spec_schema_name(),
    ;

    fn view_name() -> (name: &'static str)
        ensures
            name == Self::spec_view_name(),
    ;

    fn view_columns() -> (columns: List<ViewColumnModel>)
        ensures
            columns == Self::spec_view_columns(),
    ;
}

/// The query of a view. It selects rows of the type that the view declares.
pub trait ViewDefinition: SchemaView {
    type Query: ViewSelect<Row = <Self as SchemaView>::Row>;

    open spec fn query(db: &'static ModelConn) -> Self::Query {
        arbitrary()
    }

    fn definition(db: &'static ModelConn) -> (query: Self::Query)
        ensures
            query == Self::query(db),
    ;
}

/// The body of a view.
pub fn view_definition_model<T: ViewDefinition>(db: &'static ModelConn) -> (result: Result<
    ViewQueryModel,
    ViewError,
>)
    ensures
        result == T::query(db).body_model(),
        result is Ok,
{
    T::definition(db).lower()
}

} // verus!
