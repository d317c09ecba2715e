//! Handles that queries are built against.
use crate::backend::Backend;
use crate::list::HNil;
use crate::projection::QuerySource;
use crate::query::chain::{ReturningProjection, Selected};
use crate::query::depth::{build_from_builder, build_sourceless_select, QueryDepth};
use crate::query::select::{FromChain, NoSources, RootExprs};
use crate::query::select;
use crate::query::source::RootSource;
use crate::query::statement::ToColumns;
use vstd::prelude::*;

verus! {

/// A handle that queries are built against. It fixes the backend that they are lowered for.
pub trait QueryBuilder: Sized {
    type Backend: Backend;

    /// A query without sources.
    fn select<Projection: ReturningProjection<'static>>(&self, projection: Projection) -> (selected:
        Selected<'static, NoSources<'_, Self>, Projection::Shape, Projection>)
        ensures
            selected.base == (NoSources { connection: self, depth: 0 }),
            selected.projection == projection,
    {
        build_sourceless_select(self, QueryDepth::top(), projection)
    }

    /// Starts a query from `S`.
    fn from<'conn, S: QuerySource>(&'conn self) -> (chain: FromChain<
        'conn,
        'conn,
        Self,
        RootExprs<'conn, S>,
        RootSource<S>,
    >)
        ensures
            chain == select::root_chain::<Self, S>(self, 0),
    {
        build_from_builder::<Self, S>(self, QueryDepth::top())
    }

    /// Starts a mutation of some columns of `S`.
    fn to_columns<S, Columns>(&self) -> (builder: ToColumns<'_, Self, S, Columns, HNil>)
        ensures
            builder.connection == self,
            builder.rows == HNil,
    {
        ToColumns::new(self)
    }

    /// Starts a mutation of `S` with the builder that belongs to it.
    fn to<'conn, S: WriteableTable<'conn, Self>>(&'conn self) -> (builder: S::WriteBuilder)
        ensures
            builder == S::spec_write_builder(self),
    {
        S::write_builder(self)
    }
}

/// A query builder that can also execute what it builds.
pub trait Connection: QueryBuilder {

}

/// A table with a write builder of its own.
pub trait WriteableTable<'conn, Conn> {
    type WriteBuilder;

    open spec fn spec_write_builder(connection: &'conn Conn) -> Self::WriteBuilder {
        arbitrary()
    }

    fn write_builder(connection: &'conn Conn) -> (builder: Self::WriteBuilder)
        ensures
            builder == Self::spec_write_builder(connection),
    ;
}

/// A backend that has `FULL JOIN`.
pub trait SupportsFullJoin: Backend {

}

} // verus!
