//! How deep a query is nested when it is started.
use crate::projection::QuerySource;
use crate::query::chain::{ReturningProjection, Selected};
use crate::query::select::{FromChain, NoSources, RootExprs};
use crate::query::select;
use crate::query::source::RootSource;
use core::marker::PhantomData;
use vstd::prelude::*;

verus! {

/// The number of queries that are being built around the next one.
#[derive(Clone, Copy, Debug, PartialEq, Eq, Structural)]
pub struct QueryDepth {
    pub depth: usize,
}

impl QueryDepth {
    /// Outside any query.
    pub fn top() -> (depth: QueryDepth)
        ensures
            depth.depth == 0,
    {
        QueryDepth { depth: 0 }
    }
}

/// Builds a query at the given depth. Queries that are built meanwhile are one level deeper;
/// afterwards the depth is what it was.
pub fn with_next_query_depth<R, F: FnOnce(usize, QueryDepth) -> R>(
    around: QueryDepth,
    build: F,
) -> (built: R)
    requires
        around.depth < usize::MAX,
        call_requires(build, (around.depth, inside(around))),
    ensures
        call_ensures(build, (around.depth, inside(around)), built),
{
    let within = QueryDepth { depth: around.depth + 1 };
    build(around.depth, within)
}

/// The depth of queries that are built inside one at depth `around`.
pub open spec fn inside(around: QueryDepth) -> QueryDepth {
    QueryDepth { depth: (around.depth + 1) as usize }
}

/// A query without sources.
pub fn build_sourceless_select<
    'conn,
    Conn: 'conn,
    Projection: ReturningProjection<'static>,
>(connection: &'conn Conn, around: QueryDepth, projection: Projection) -> (selected: Selected<
    'static,
    NoSources<'conn, Conn>,
    Projection::Shape,
    Projection,
>)
    requires
        around.depth < usize::MAX,
    ensures
        selected.base == (NoSources { connection, depth: around.depth }),
        selected.projection == projection,
{
    let start = |depth: usize, within: QueryDepth| -> (start: NoSources<'conn, Conn>)
        ensures
            start == (NoSources { connection, depth }),
        { NoSources::new(connection, depth) };
    let base = with_next_query_depth(around, start);
    Selected { base, projection, _shape: PhantomData }
}

/// A select chain from `S`.
pub fn build_from_builder<'conn, Conn: 'conn, S: QuerySource>(
    connection: &'conn Conn,
    around: QueryDepth,
) -> (chain: FromChain<'conn, 'conn, Conn, RootExprs<'conn, S>, RootSource<S>>)
    requires
        around.depth < usize::MAX,
    ensures
        chain == select::root_chain::<Conn, S>(connection, around.depth),
{
    let start = |depth: usize, within: QueryDepth| -> (chain: FromChain<
        'conn,
        'conn,
        Conn,
        RootExprs<'conn, S>,
        RootSource<S>,
    >)
        ensures
            chain == select::root_chain::<Conn, S>(connection, depth),
        { FromChain::new(connection, depth) };
    with_next_query_depth(around, start)
}

} // verus!
