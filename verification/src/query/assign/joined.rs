//! Assignments of many columns: two groups of assignments, one behind the other.
use crate::backend::{Backend, Bound};
use crate::chain::List;
use crate::dialect::Dialect;
use crate::list::HAppend;
use crate::query::assign::{
    InsertAssignments, RenderInsertAssignments, RenderUpdateAssignments, UpdateAssignments,
};
use crate::tree::AssignmentTree;
use vstd::prelude::*;

verus! {

broadcast use crate::tokens::group_tokens;

/// Two groups of assignments, one behind the other.
pub struct Joined<First, Second> {
    pub first: First,
    pub second: Second,
}

/// The values of two groups have the runtime parameters of both.
proof fn lemma_row_values_parts<D: Dialect, L>(
    dialect: D,
    first: bool,
    row: List<AssignmentTree<L>>,
    more: List<AssignmentTree<L>>,
)
    ensures
        crate::tokens::runtimes(
            crate::grammar::row_values_tokens(dialect, first, row.then_list(more)),
        ) == crate::tokens::runtimes(crate::grammar::row_values_tokens(dialect, first, row))
            + crate::tokens::runtimes(
            crate::grammar::row_values_tokens(dialect, first && row is Nil, more),
        ),
    decreases row,
{
    match row {
        List::Nil => {},
        List::Cons { head, tail } => {
            lemma_row_values_parts(dialect, false, *tail, more);
        },
    }
}

/// The assignments of two groups have the runtime parameters of both.
proof fn lemma_assignments_parts<D: Dialect, L>(
    dialect: D,
    first: bool,
    columns: List<AssignmentTree<L>>,
    more: List<AssignmentTree<L>>,
)
    ensures
        crate::tokens::runtimes(
            crate::grammar::assignments_tokens(dialect, first, columns.then_list(more)),
        ) == crate::tokens::runtimes(crate::grammar::assignments_tokens(dialect, first, columns))
            + crate::tokens::runtimes(
            crate::grammar::assignments_tokens(dialect, first && columns is Nil, more),
        ),
    decreases columns,
{
    match columns {
        List::Nil => {},
        List::Cons { head, tail } => {
            lemma_assignments_parts(dialect, false, *tail, more);
        },
    }
}

/// Two groups assign the columns of both.
proof fn lemma_labels_parts<L>(row: List<AssignmentTree<L>>, more: List<AssignmentTree<L>>)
    ensures
        crate::grammar::column_labels(row.then_list(more)).seq().len()
            == crate::grammar::column_labels(row).seq().len()
            + crate::grammar::column_labels(more).seq().len(),
    decreases row,
{
    match row {
        List::Nil => {},
        List::Cons { head, tail } => {
            lemma_labels_parts(*tail, more);
        },
    }
}

impl<First: InsertAssignments, Second: InsertAssignments> InsertAssignments for Joined<
    First,
    Second,
> where First::Params: HAppend<Second::Params> {
    type Params = <First::Params as HAppend<Second::Params>>::Output;

    open spec fn names(&self) -> Seq<&'static str> {
        self.first.names() + self.second.names()
    }

    open spec fn binds(&self) -> nat {
        self.first.binds() + self.second.binds()
    }

    fn len(&self) -> (len: usize) {
        self.first.len() + self.second.len()
    }

    fn is_empty(&self) -> (empty: bool) {
        self.first.is_empty() && self.second.is_empty()
    }

    fn collect_columns(&self, columns: &mut Vec<&'static str>) {
        self.first.collect_columns(columns);
        self.second.collect_columns(columns);
        assert(columns@ =~= old(columns)@ + (self.first.names() + self.second.names()));
    }

    fn param_count(&self) -> (count: usize) {
        self.first.param_count() + self.second.param_count()
    }
}

impl<
    First: RenderInsertAssignments<B>,
    Second: RenderInsertAssignments<B>,
    B: Backend,
> RenderInsertAssignments<B> for Joined<First, Second> where
    First::Params: HAppend<Second::Params>,
 {
    open spec fn assignments(&self) -> List<AssignmentTree<Bound<B>>> {
        self.first.assignments().then_list(self.second.assignments())
    }

    fn lower_assignments(&self) -> (assignments: List<AssignmentTree<Bound<B>>>) {
        self.first.lower_assignments().append(self.second.lower_assignments())
    }

    proof fn lemma_assignments_params<D: Dialect>(&self, dialect: D, first: bool) {
        let row = self.first.assignments();
        self.first.lemma_assignments_params(dialect, first);
        self.second.lemma_assignments_params(dialect, first && row is Nil);
        lemma_row_values_parts(dialect, first, row, self.second.assignments());
        <First::Params as HAppend<Second::Params>>::lemma_append_width();
    }

    proof fn lemma_assignments_names(&self) {
        self.first.lemma_assignments_names();
        self.second.lemma_assignments_names();
        lemma_labels_parts(self.first.assignments(), self.second.assignments());
        crate::chain::lemma_then_list(self.first.assignments(), self.second.assignments());
    }
}

impl<First: UpdateAssignments, Second: UpdateAssignments> UpdateAssignments for Joined<
    First,
    Second,
> where First::Params: HAppend<Second::Params> {
    type Params = <First::Params as HAppend<Second::Params>>::Output;

    open spec fn names(&self) -> Seq<&'static str> {
        self.first.names() + self.second.names()
    }

    open spec fn binds(&self) -> nat {
        self.first.binds() + self.second.binds()
    }

    fn len(&self) -> (len: usize) {
        self.first.len() + self.second.len()
    }

    fn is_empty(&self) -> (empty: bool) {
        self.first.is_empty() && self.second.is_empty()
    }

    fn collect_columns(&self, columns: &mut Vec<&'static str>) {
        self.first.collect_columns(columns);
        self.second.collect_columns(columns);
        assert(columns@ =~= old(columns)@ + (self.first.names() + self.second.names()));
    }

    fn param_count(&self) -> (count: usize) {
        self.first.param_count() + self.second.param_count()
    }
}

impl<
    First: RenderUpdateAssignments<B>,
    Second: RenderUpdateAssignments<B>,
    B: Backend,
> RenderUpdateAssignments<B> for Joined<First, Second> where
    First::Params: HAppend<Second::Params>,
 {
    open spec fn assignments(&self) -> List<AssignmentTree<Bound<B>>> {
        self.first.assignments().then_list(self.second.assignments())
    }

    fn lower_assignments(&self) -> (assignments: List<AssignmentTree<Bound<B>>>) {
        self.first.lower_assignments().append(self.second.lower_assignments())
    }

    proof fn lemma_assignments_params<D: Dialect>(&self, dialect: D, first: bool) {
        let row = self.first.assignments();
        self.first.lemma_assignments_params(dialect, first);
        self.second.lemma_assignments_params(dialect, first && row is Nil);
        lemma_assignments_parts(dialect, first, row, self.second.assignments());
        <First::Params as HAppend<Second::Params>>::lemma_append_width();
    }
}

} // verus!
