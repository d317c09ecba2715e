//! Projections of seventeen to thirty-two elements: each is one of sixteen, followed by the rest.
use crate::backend::{Backend, Bound};
use crate::chain::List;
use crate::dialect::Dialect;
use crate::expr::class::{ProjectionClass, ReturnableProjection};
use crate::expr::kind::ProjectionParams;
use crate::label::Duplicate;
use crate::list::HAppend;
use crate::ops::SourceAlias;
use crate::projection::{Projectable, ProjectionShape, RenderProjectable};
use crate::query::chain::ReturningProjection;
use crate::tree::ProjectionTree;
use vstd::prelude::*;

verus! {

broadcast use crate::tokens::group_tokens;

impl<T0: Projectable, T1: Projectable, T2: Projectable, T3: Projectable, T4: Projectable, T5: Projectable, T6: Projectable, T7: Projectable, T8: Projectable, T9: Projectable, T10: Projectable, T11: Projectable, T12: Projectable, T13: Projectable, T14: Projectable, T15: Projectable, T16: Projectable> Projectable for (T0, T1, T2, T3, T4, T5, T6, T7, T8, T9, T10, T11, T12, T13, T14, T15, T16) {
    type Rebound<'scope> = (T0::Rebound<'scope>, T1::Rebound<'scope>, T2::Rebound<'scope>, T3::Rebound<'scope>, T4::Rebound<'scope>, T5::Rebound<'scope>, T6::Rebound<'scope>, T7::Rebound<'scope>, T8::Rebound<'scope>, T9::Rebound<'scope>, T10::Rebound<'scope>, T11::Rebound<'scope>, T12::Rebound<'scope>, T13::Rebound<'scope>, T14::Rebound<'scope>, T15::Rebound<'scope>, T16::Rebound<'scope>);

    open spec fn rebound<'scope>(&self, alias: SourceAlias) -> Self::Rebound<'scope> {
        (self.0.rebound(alias), self.1.rebound(alias), self.2.rebound(alias), self.3.rebound(alias), self.4.rebound(alias), self.5.rebound(alias), self.6.rebound(alias), self.7.rebound(alias), self.8.rebound(alias), self.9.rebound(alias), self.10.rebound(alias), self.11.rebound(alias), self.12.rebound(alias), self.13.rebound(alias), self.14.rebound(alias), self.15.rebound(alias), self.16.rebound(alias))
    }

    open spec fn rebinds_with_prefix<'scope>(
        &self,
        alias: SourceAlias,
        prefix: Seq<char>,
        rebound: Self::Rebound<'scope>,
    ) -> bool {
        &&& self.0.rebinds_with_prefix(alias, prefix, rebound.0)
        &&& self.1.rebinds_with_prefix(alias, prefix, rebound.1)
        &&& self.2.rebinds_with_prefix(alias, prefix, rebound.2)
        &&& self.3.rebinds_with_prefix(alias, prefix, rebound.3)
        &&& self.4.rebinds_with_prefix(alias, prefix, rebound.4)
        &&& self.5.rebinds_with_prefix(alias, prefix, rebound.5)
        &&& self.6.rebinds_with_prefix(alias, prefix, rebound.6)
        &&& self.7.rebinds_with_prefix(alias, prefix, rebound.7)
        &&& self.8.rebinds_with_prefix(alias, prefix, rebound.8)
        &&& self.9.rebinds_with_prefix(alias, prefix, rebound.9)
        &&& self.10.rebinds_with_prefix(alias, prefix, rebound.10)
        &&& self.11.rebinds_with_prefix(alias, prefix, rebound.11)
        &&& self.12.rebinds_with_prefix(alias, prefix, rebound.12)
        &&& self.13.rebinds_with_prefix(alias, prefix, rebound.13)
        &&& self.14.rebinds_with_prefix(alias, prefix, rebound.14)
        &&& self.15.rebinds_with_prefix(alias, prefix, rebound.15)
        &&& self.16.rebinds_with_prefix(alias, prefix, rebound.16)
    }

    fn re_alias<'scope>(&self, alias: SourceAlias) -> (rebound: Self::Rebound<'scope>) {
        (self.0.re_alias(alias), self.1.re_alias(alias), self.2.re_alias(alias), self.3.re_alias(alias), self.4.re_alias(alias), self.5.re_alias(alias), self.6.re_alias(alias), self.7.re_alias(alias), self.8.re_alias(alias), self.9.re_alias(alias), self.10.re_alias(alias), self.11.re_alias(alias), self.12.re_alias(alias), self.13.re_alias(alias), self.14.re_alias(alias), self.15.re_alias(alias), self.16.re_alias(alias))
    }

    fn re_alias_with_prefix<'scope>(&self, alias: SourceAlias, prefix: &str) -> (rebound:
        Self::Rebound<'scope>) {
        (self.0.re_alias_with_prefix(alias, prefix), self.1.re_alias_with_prefix(alias, prefix), self.2.re_alias_with_prefix(alias, prefix), self.3.re_alias_with_prefix(alias, prefix), self.4.re_alias_with_prefix(alias, prefix), self.5.re_alias_with_prefix(alias, prefix), self.6.re_alias_with_prefix(alias, prefix), self.7.re_alias_with_prefix(alias, prefix), self.8.re_alias_with_prefix(alias, prefix), self.9.re_alias_with_prefix(alias, prefix), self.10.re_alias_with_prefix(alias, prefix), self.11.re_alias_with_prefix(alias, prefix), self.12.re_alias_with_prefix(alias, prefix), self.13.re_alias_with_prefix(alias, prefix), self.14.re_alias_with_prefix(alias, prefix), self.15.re_alias_with_prefix(alias, prefix), self.16.re_alias_with_prefix(alias, prefix))
    }
}

impl<T0: Duplicate, T1: Duplicate, T2: Duplicate, T3: Duplicate, T4: Duplicate, T5: Duplicate, T6: Duplicate, T7: Duplicate, T8: Duplicate, T9: Duplicate, T10: Duplicate, T11: Duplicate, T12: Duplicate, T13: Duplicate, T14: Duplicate, T15: Duplicate, T16: Duplicate> Duplicate for (T0, T1, T2, T3, T4, T5, T6, T7, T8, T9, T10, T11, T12, T13, T14, T15, T16) {
    fn duplicate(&self) -> (copy: Self) {
        (self.0.duplicate(), self.1.duplicate(), self.2.duplicate(), self.3.duplicate(), self.4.duplicate(), self.5.duplicate(), self.6.duplicate(), self.7.duplicate(), self.8.duplicate(), self.9.duplicate(), self.10.duplicate(), self.11.duplicate(), self.12.duplicate(), self.13.duplicate(), self.14.duplicate(), self.15.duplicate(), self.16.duplicate())
    }
}

impl<T0: ProjectionShape, T1: ProjectionShape, T2: ProjectionShape, T3: ProjectionShape, T4: ProjectionShape, T5: ProjectionShape, T6: ProjectionShape, T7: ProjectionShape, T8: ProjectionShape, T9: ProjectionShape, T10: ProjectionShape, T11: ProjectionShape, T12: ProjectionShape, T13: ProjectionShape, T14: ProjectionShape, T15: ProjectionShape, T16: ProjectionShape> ProjectionShape for (T0, T1, T2, T3, T4, T5, T6, T7, T8, T9, T10, T11, T12, T13, T14, T15, T16) {
    type Exprs<'scope> = (T0::Exprs<'scope>, T1::Exprs<'scope>, T2::Exprs<'scope>, T3::Exprs<'scope>, T4::Exprs<'scope>, T5::Exprs<'scope>, T6::Exprs<'scope>, T7::Exprs<'scope>, T8::Exprs<'scope>, T9::Exprs<'scope>, T10::Exprs<'scope>, T11::Exprs<'scope>, T12::Exprs<'scope>, T13::Exprs<'scope>, T14::Exprs<'scope>, T15::Exprs<'scope>, T16::Exprs<'scope>);

    type ReboundExprs<'scope> = (T0::ReboundExprs<'scope>, T1::ReboundExprs<'scope>, T2::ReboundExprs<'scope>, T3::ReboundExprs<'scope>, T4::ReboundExprs<'scope>, T5::ReboundExprs<'scope>, T6::ReboundExprs<'scope>, T7::ReboundExprs<'scope>, T8::ReboundExprs<'scope>, T9::ReboundExprs<'scope>, T10::ReboundExprs<'scope>, T11::ReboundExprs<'scope>, T12::ReboundExprs<'scope>, T13::ReboundExprs<'scope>, T14::ReboundExprs<'scope>, T15::ReboundExprs<'scope>, T16::ReboundExprs<'scope>);

    type Row = (T0::Row, T1::Row, T2::Row, T3::Row, T4::Row, T5::Row, T6::Row, T7::Row, T8::Row, T9::Row, T10::Row, T11::Row, T12::Row, T13::Row, T14::Row, T15::Row, T16::Row);

    open spec fn shape_exprs<'scope>(alias: SourceAlias) -> Self::Exprs<'scope> {
        (T0::shape_exprs(alias), T1::shape_exprs(alias), T2::shape_exprs(alias), T3::shape_exprs(alias), T4::shape_exprs(alias), T5::shape_exprs(alias), T6::shape_exprs(alias), T7::shape_exprs(alias), T8::shape_exprs(alias), T9::shape_exprs(alias), T10::shape_exprs(alias), T11::shape_exprs(alias), T12::shape_exprs(alias), T13::shape_exprs(alias), T14::shape_exprs(alias), T15::shape_exprs(alias), T16::shape_exprs(alias))
    }

    open spec fn shape_rebound<'scope>(alias: SourceAlias) -> Self::ReboundExprs<'scope> {
        (T0::shape_rebound(alias), T1::shape_rebound(alias), T2::shape_rebound(alias), T3::shape_rebound(alias), T4::shape_rebound(alias), T5::shape_rebound(alias), T6::shape_rebound(alias), T7::shape_rebound(alias), T8::shape_rebound(alias), T9::shape_rebound(alias), T10::shape_rebound(alias), T11::shape_rebound(alias), T12::shape_rebound(alias), T13::shape_rebound(alias), T14::shape_rebound(alias), T15::shape_rebound(alias), T16::shape_rebound(alias))
    }

    fn exprs<'scope>(alias: SourceAlias) -> (exprs: Self::Exprs<'scope>) {
        (T0::exprs(alias), T1::exprs(alias), T2::exprs(alias), T3::exprs(alias), T4::exprs(alias), T5::exprs(alias), T6::exprs(alias), T7::exprs(alias), T8::exprs(alias), T9::exprs(alias), T10::exprs(alias), T11::exprs(alias), T12::exprs(alias), T13::exprs(alias), T14::exprs(alias), T15::exprs(alias), T16::exprs(alias))
    }

    fn rebound_exprs<'scope>(alias: SourceAlias) -> (exprs: Self::ReboundExprs<'scope>) {
        (T0::rebound_exprs(alias), T1::rebound_exprs(alias), T2::rebound_exprs(alias), T3::rebound_exprs(alias), T4::rebound_exprs(alias), T5::rebound_exprs(alias), T6::rebound_exprs(alias), T7::rebound_exprs(alias), T8::rebound_exprs(alias), T9::rebound_exprs(alias), T10::rebound_exprs(alias), T11::rebound_exprs(alias), T12::rebound_exprs(alias), T13::rebound_exprs(alias), T14::rebound_exprs(alias), T15::rebound_exprs(alias), T16::rebound_exprs(alias))
    }
}

impl<T0, T1, T2, T3, T4, T5, T6, T7, T8, T9, T10, T11, T12, T13, T14, T15, T16> ProjectionParams for (T0, T1, T2, T3, T4, T5, T6, T7, T8, T9, T10, T11, T12, T13, T14, T15, T16) where
    (T0, T1, T2, T3, T4, T5, T6, T7, T8, T9, T10, T11, T12, T13, T14, T15): ProjectionParams,
    (T16,): ProjectionParams,
    <(T0, T1, T2, T3, T4, T5, T6, T7, T8, T9, T10, T11, T12, T13, T14, T15) as ProjectionParams>::Params: HAppend<<(T16,) as ProjectionParams>::Params>,
 {
    type Params = <<(T0, T1, T2, T3, T4, T5, T6, T7, T8, T9, T10, T11, T12, T13, T14, T15) as ProjectionParams>::Params as HAppend<<(T16,) as ProjectionParams>::Params>>::Output;
}

impl<T0: ProjectionClass, T1: ProjectionClass<Class = T0::Class>, T2: ProjectionClass<Class = T0::Class>, T3: ProjectionClass<Class = T0::Class>, T4: ProjectionClass<Class = T0::Class>, T5: ProjectionClass<Class = T0::Class>, T6: ProjectionClass<Class = T0::Class>, T7: ProjectionClass<Class = T0::Class>, T8: ProjectionClass<Class = T0::Class>, T9: ProjectionClass<Class = T0::Class>, T10: ProjectionClass<Class = T0::Class>, T11: ProjectionClass<Class = T0::Class>, T12: ProjectionClass<Class = T0::Class>, T13: ProjectionClass<Class = T0::Class>, T14: ProjectionClass<Class = T0::Class>, T15: ProjectionClass<Class = T0::Class>, T16: ProjectionClass<Class = T0::Class>> ProjectionClass for (T0, T1, T2, T3, T4, T5, T6, T7, T8, T9, T10, T11, T12, T13, T14, T15, T16) {
    type Class = T0::Class;
}

impl<T0: ReturnableProjection, T1: ReturnableProjection, T2: ReturnableProjection, T3: ReturnableProjection, T4: ReturnableProjection, T5: ReturnableProjection, T6: ReturnableProjection, T7: ReturnableProjection, T8: ReturnableProjection, T9: ReturnableProjection, T10: ReturnableProjection, T11: ReturnableProjection, T12: ReturnableProjection, T13: ReturnableProjection, T14: ReturnableProjection, T15: ReturnableProjection, T16: ReturnableProjection> ReturnableProjection for (T0, T1, T2, T3, T4, T5, T6, T7, T8, T9, T10, T11, T12, T13, T14, T15, T16) {

}

impl<T0: Projectable, T1: Projectable, T2: Projectable, T3: Projectable, T4: Projectable, T5: Projectable, T6: Projectable, T7: Projectable, T8: Projectable, T9: Projectable, T10: Projectable, T11: Projectable, T12: Projectable, T13: Projectable, T14: Projectable, T15: Projectable, T16: Projectable, B: Backend> RenderProjectable<B> for (T0, T1, T2, T3, T4, T5, T6, T7, T8, T9, T10, T11, T12, T13, T14, T15, T16) where
    (T0, T1, T2, T3, T4, T5, T6, T7, T8, T9, T10, T11, T12, T13, T14, T15): RenderProjectable<B>,
    (T16,): RenderProjectable<B>,
    <(T0, T1, T2, T3, T4, T5, T6, T7, T8, T9, T10, T11, T12, T13, T14, T15) as ProjectionParams>::Params: HAppend<<(T16,) as ProjectionParams>::Params>,
 {
    open spec fn items(&self) -> List<ProjectionTree<Bound<B>>> {
        (self.0, self.1, self.2, self.3, self.4, self.5, self.6, self.7, self.8, self.9, self.10, self.11, self.12, self.13, self.14, self.15).items().then_list((self.16,).items())
    }

    fn lower_projection(&self) -> (items: List<ProjectionTree<Bound<B>>>) {
        let front = (self.0.duplicate(), self.1.duplicate(), self.2.duplicate(), self.3.duplicate(), self.4.duplicate(), self.5.duplicate(), self.6.duplicate(), self.7.duplicate(), self.8.duplicate(), self.9.duplicate(), self.10.duplicate(), self.11.duplicate(), self.12.duplicate(), self.13.duplicate(), self.14.duplicate(), self.15.duplicate());
        let back = (self.16.duplicate(),);
        front.lower_projection().append(back.lower_projection())
    }

    fn lower_projection_with_prefix(&self, prefix: &str) -> (items: List<
        ProjectionTree<Bound<B>>,
    >) {
        let front = (self.0.duplicate(), self.1.duplicate(), self.2.duplicate(), self.3.duplicate(), self.4.duplicate(), self.5.duplicate(), self.6.duplicate(), self.7.duplicate(), self.8.duplicate(), self.9.duplicate(), self.10.duplicate(), self.11.duplicate(), self.12.duplicate(), self.13.duplicate(), self.14.duplicate(), self.15.duplicate());
        let back = (self.16.duplicate(),);
        let first = front.lower_projection_with_prefix(prefix);
        let rest = back.lower_projection_with_prefix(prefix);
        proof {
            crate::projection::lemma_prefixed_parts(front.items(), back.items(), prefix@, first, rest);
        }
        first.append(rest)
    }

    proof fn lemma_projection_params<D: Dialect>(&self, dialect: D, bare: bool, lead: Seq<char>) {
        let front = (self.0, self.1, self.2, self.3, self.4, self.5, self.6, self.7, self.8, self.9, self.10, self.11, self.12, self.13, self.14, self.15);
        let back = (self.16,);
        let between = if front.items() is Nil { lead } else { ", "@ };
        front.lemma_projection_params(dialect, bare, lead);
        back.lemma_projection_params(dialect, bare, between);
        crate::projection::lemma_projection_parts(dialect, bare, lead, front.items(), back.items());
        <<(T0, T1, T2, T3, T4, T5, T6, T7, T8, T9, T10, T11, T12, T13, T14, T15) as ProjectionParams>::Params as HAppend<<(T16,) as ProjectionParams>::Params>>::lemma_append_width();
    }

    proof fn lemma_projection_plain(&self) {
        let front = (self.0, self.1, self.2, self.3, self.4, self.5, self.6, self.7, self.8, self.9, self.10, self.11, self.12, self.13, self.14, self.15);
        let back = (self.16,);
        <<(T0, T1, T2, T3, T4, T5, T6, T7, T8, T9, T10, T11, T12, T13, T14, T15) as ProjectionParams>::Params as HAppend<<(T16,) as ProjectionParams>::Params>>::lemma_append_width();
        front.lemma_projection_plain();
        back.lemma_projection_plain();
        crate::projection::lemma_plain_parts(front.items(), back.items());
    }
}

impl<'scope, T0: ReturningProjection<'scope>, T1: ReturningProjection<'scope>, T2: ReturningProjection<'scope>, T3: ReturningProjection<'scope>, T4: ReturningProjection<'scope>, T5: ReturningProjection<'scope>, T6: ReturningProjection<'scope>, T7: ReturningProjection<'scope>, T8: ReturningProjection<'scope>, T9: ReturningProjection<'scope>, T10: ReturningProjection<'scope>, T11: ReturningProjection<'scope>, T12: ReturningProjection<'scope>, T13: ReturningProjection<'scope>, T14: ReturningProjection<'scope>, T15: ReturningProjection<'scope>, T16: ReturningProjection<'scope>> ReturningProjection<'scope> for (T0, T1, T2, T3, T4, T5, T6, T7, T8, T9, T10, T11, T12, T13, T14, T15, T16) {
    type Shape = (T0::Shape, T1::Shape, T2::Shape, T3::Shape, T4::Shape, T5::Shape, T6::Shape, T7::Shape, T8::Shape, T9::Shape, T10::Shape, T11::Shape, T12::Shape, T13::Shape, T14::Shape, T15::Shape, T16::Shape);
}

impl<T0: Projectable, T1: Projectable, T2: Projectable, T3: Projectable, T4: Projectable, T5: Projectable, T6: Projectable, T7: Projectable, T8: Projectable, T9: Projectable, T10: Projectable, T11: Projectable, T12: Projectable, T13: Projectable, T14: Projectable, T15: Projectable, T16: Projectable, T17: Projectable> Projectable for (T0, T1, T2, T3, T4, T5, T6, T7, T8, T9, T10, T11, T12, T13, T14, T15, T16, T17) {
    type Rebound<'scope> = (T0::Rebound<'scope>, T1::Rebound<'scope>, T2::Rebound<'scope>, T3::Rebound<'scope>, T4::Rebound<'scope>, T5::Rebound<'scope>, T6::Rebound<'scope>, T7::Rebound<'scope>, T8::Rebound<'scope>, T9::Rebound<'scope>, T10::Rebound<'scope>, T11::Rebound<'scope>, T12::Rebound<'scope>, T13::Rebound<'scope>, T14::Rebound<'scope>, T15::Rebound<'scope>, T16::Rebound<'scope>, T17::Rebound<'scope>);

    open spec fn rebound<'scope>(&self, alias: SourceAlias) -> Self::Rebound<'scope> {
        (self.0.rebound(alias), self.1.rebound(alias), self.2.rebound(alias), self.3.rebound(alias), self.4.rebound(alias), self.5.rebound(alias), self.6.rebound(alias), self.7.rebound(alias), self.8.rebound(alias), self.9.rebound(alias), self.10.rebound(alias), self.11.rebound(alias), self.12.rebound(alias), self.13.rebound(alias), self.14.rebound(alias), self.15.rebound(alias), self.16.rebound(alias), self.17.rebound(alias))
    }

    open spec fn rebinds_with_prefix<'scope>(
        &self,
        alias: SourceAlias,
        prefix: Seq<char>,
        rebound: Self::Rebound<'scope>,
    ) -> bool {
        &&& self.0.rebinds_with_prefix(alias, prefix, rebound.0)
        &&& self.1.rebinds_with_prefix(alias, prefix, rebound.1)
        &&& self.2.rebinds_with_prefix(alias, prefix, rebound.2)
        &&& self.3.rebinds_with_prefix(alias, prefix, rebound.3)
        &&& self.4.rebinds_with_prefix(alias, prefix, rebound.4)
        &&& self.5.rebinds_with_prefix(alias, prefix, rebound.5)
        &&& self.6.rebinds_with_prefix(alias, prefix, rebound.6)
        &&& self.7.rebinds_with_prefix(alias, prefix, rebound.7)
        &&& self.8.rebinds_with_prefix(alias, prefix, rebound.8)
        &&& self.9.rebinds_with_prefix(alias, prefix, rebound.9)
        &&& self.10.rebinds_with_prefix(alias, prefix, rebound.10)
        &&& self.11.rebinds_with_prefix(alias, prefix, rebound.11)
        &&& self.12.rebinds_with_prefix(alias, prefix, rebound.12)
        &&& self.13.rebinds_with_prefix(alias, prefix, rebound.13)
        &&& self.14.rebinds_with_prefix(alias, prefix, rebound.14)
        &&& self.15.rebinds_with_prefix(alias, prefix, rebound.15)
        &&& self.16.rebinds_with_prefix(alias, prefix, rebound.16)
        &&& self.17.rebinds_with_prefix(alias, prefix, rebound.17)
    }

    fn re_alias<'scope>(&self, alias: SourceAlias) -> (rebound: Self::Rebound<'scope>) {
        (self.0.re_alias(alias), self.1.re_alias(alias), self.2.re_alias(alias), self.3.re_alias(alias), self.4.re_alias(alias), self.5.re_alias(alias), self.6.re_alias(alias), self.7.re_alias(alias), self.8.re_alias(alias), self.9.re_alias(alias), self.10.re_alias(alias), self.11.re_alias(alias), self.12.re_alias(alias), self.13.re_alias(alias), self.14.re_alias(alias), self.15.re_alias(alias), self.16.re_alias(alias), self.17.re_alias(alias))
    }

    fn re_alias_with_prefix<'scope>(&self, alias: SourceAlias, prefix: &str) -> (rebound:
        Self::Rebound<'scope>) {
        (self.0.re_alias_with_prefix(alias, prefix), self.1.re_alias_with_prefix(alias, prefix), self.2.re_alias_with_prefix(alias, prefix), self.3.re_alias_with_prefix(alias, prefix), self.4.re_alias_with_prefix(alias, prefix), self.5.re_alias_with_prefix(alias, prefix), self.6.re_alias_with_prefix(alias, prefix), self.7.re_alias_with_prefix(alias, prefix), self.8.re_alias_with_prefix(alias, prefix), self.9.re_alias_with_prefix(alias, prefix), self.10.re_alias_with_prefix(alias, prefix), self.11.re_alias_with_prefix(alias, prefix), self.12.re_alias_with_prefix(alias, prefix), self.13.re_alias_with_prefix(alias, prefix), self.14.re_alias_with_prefix(alias, prefix), self.15.re_alias_with_prefix(alias, prefix), self.16.re_alias_with_prefix(alias, prefix), self.17.re_alias_with_prefix(alias, prefix))
    }
}

impl<T0: Duplicate, T1: Duplicate, T2: Duplicate, T3: Duplicate, T4: Duplicate, T5: Duplicate, T6: Duplicate, T7: Duplicate, T8: Duplicate, T9: Duplicate, T10: Duplicate, T11: Duplicate, T12: Duplicate, T13: Duplicate, T14: Duplicate, T15: Duplicate, T16: Duplicate, T17: Duplicate> Duplicate for (T0, T1, T2, T3, T4, T5, T6, T7, T8, T9, T10, T11, T12, T13, T14, T15, T16, T17) {
    fn duplicate(&self) -> (copy: Self) {
        (self.0.duplicate(), self.1.duplicate(), self.2.duplicate(), self.3.duplicate(), self.4.duplicate(), self.5.duplicate(), self.6.duplicate(), self.7.duplicate(), self.8.duplicate(), self.9.duplicate(), self.10.duplicate(), self.11.duplicate(), self.12.duplicate(), self.13.duplicate(), self.14.duplicate(), self.15.duplicate(), self.16.duplicate(), self.17.duplicate())
    }
}

impl<T0: ProjectionShape, T1: ProjectionShape, T2: ProjectionShape, T3: ProjectionShape, T4: ProjectionShape, T5: ProjectionShape, T6: ProjectionShape, T7: ProjectionShape, T8: ProjectionShape, T9: ProjectionShape, T10: ProjectionShape, T11: ProjectionShape, T12: ProjectionShape, T13: ProjectionShape, T14: ProjectionShape, T15: ProjectionShape, T16: ProjectionShape, T17: ProjectionShape> ProjectionShape for (T0, T1, T2, T3, T4, T5, T6, T7, T8, T9, T10, T11, T12, T13, T14, T15, T16, T17) {
    type Exprs<'scope> = (T0::Exprs<'scope>, T1::Exprs<'scope>, T2::Exprs<'scope>, T3::Exprs<'scope>, T4::Exprs<'scope>, T5::Exprs<'scope>, T6::Exprs<'scope>, T7::Exprs<'scope>, T8::Exprs<'scope>, T9::Exprs<'scope>, T10::Exprs<'scope>, T11::Exprs<'scope>, T12::Exprs<'scope>, T13::Exprs<'scope>, T14::Exprs<'scope>, T15::Exprs<'scope>, T16::Exprs<'scope>, T17::Exprs<'scope>);

    type ReboundExprs<'scope> = (T0::ReboundExprs<'scope>, T1::ReboundExprs<'scope>, T2::ReboundExprs<'scope>, T3::ReboundExprs<'scope>, T4::ReboundExprs<'scope>, T5::ReboundExprs<'scope>, T6::ReboundExprs<'scope>, T7::ReboundExprs<'scope>, T8::ReboundExprs<'scope>, T9::ReboundExprs<'scope>, T10::ReboundExprs<'scope>, T11::ReboundExprs<'scope>, T12::ReboundExprs<'scope>, T13::ReboundExprs<'scope>, T14::ReboundExprs<'scope>, T15::ReboundExprs<'scope>, T16::ReboundExprs<'scope>, T17::ReboundExprs<'scope>);

    type Row = (T0::Row, T1::Row, T2::Row, T3::Row, T4::Row, T5::Row, T6::Row, T7::Row, T8::Row, T9::Row, T10::Row, T11::Row, T12::Row, T13::Row, T14::Row, T15::Row, T16::Row, T17::Row);

    open spec fn shape_exprs<'scope>(alias: SourceAlias) -> Self::Exprs<'scope> {
        (T0::shape_exprs(alias), T1::shape_exprs(alias), T2::shape_exprs(alias), T3::shape_exprs(alias), T4::shape_exprs(alias), T5::shape_exprs(alias), T6::shape_exprs(alias), T7::shape_exprs(alias), T8::shape_exprs(alias), T9::shape_exprs(alias), T10::shape_exprs(alias), T11::shape_exprs(alias), T12::shape_exprs(alias), T13::shape_exprs(alias), T14::shape_exprs(alias), T15::shape_exprs(alias), T16::shape_exprs(alias), T17::shape_exprs(alias))
    }

    open spec fn shape_rebound<'scope>(alias: SourceAlias) -> Self::ReboundExprs<'scope> {
        (T0::shape_rebound(alias), T1::shape_rebound(alias), T2::shape_rebound(alias), T3::shape_rebound(alias), T4::shape_rebound(alias), T5::shape_rebound(alias), T6::shape_rebound(alias), T7::shape_rebound(alias), T8::shape_rebound(alias), T9::shape_rebound(alias), T10::shape_rebound(alias), T11::shape_rebound(alias), T12::shape_rebound(alias), T13::shape_rebound(alias), T14::shape_rebound(alias), T15::shape_rebound(alias), T16::shape_rebound(alias), T17::shape_rebound(alias))
    }

    fn exprs<'scope>(alias: SourceAlias) -> (exprs: Self::Exprs<'scope>) {
        (T0::exprs(alias), T1::exprs(alias), T2::exprs(alias), T3::exprs(alias), T4::exprs(alias), T5::exprs(alias), T6::exprs(alias), T7::exprs(alias), T8::exprs(alias), T9::exprs(alias), T10::exprs(alias), T11::exprs(alias), T12::exprs(alias), T13::exprs(alias), T14::exprs(alias), T15::exprs(alias), T16::exprs(alias), T17::exprs(alias))
    }

    fn rebound_exprs<'scope>(alias: SourceAlias) -> (exprs: Self::ReboundExprs<'scope>) {
        (T0::rebound_exprs(alias), T1::rebound_exprs(alias), T2::rebound_exprs(alias), T3::rebound_exprs(alias), T4::rebound_exprs(alias), T5::rebound_exprs(alias), T6::rebound_exprs(alias), T7::rebound_exprs(alias), T8::rebound_exprs(alias), T9::rebound_exprs(alias), T10::rebound_exprs(alias), T11::rebound_exprs(alias), T12::rebound_exprs(alias), T13::rebound_exprs(alias), T14::rebound_exprs(alias), T15::rebound_exprs(alias), T16::rebound_exprs(alias), T17::rebound_exprs(alias))
    }
}

impl<T0, T1, T2, T3, T4, T5, T6, T7, T8, T9, T10, T11, T12, T13, T14, T15, T16, T17> ProjectionParams for (T0, T1, T2, T3, T4, T5, T6, T7, T8, T9, T10, T11, T12, T13, T14, T15, T16, T17) where
    (T0, T1, T2, T3, T4, T5, T6, T7, T8, T9, T10, T11, T12, T13, T14, T15): ProjectionParams,
    (T16, T17): ProjectionParams,
    <(T0, T1, T2, T3, T4, T5, T6, T7, T8, T9, T10, T11, T12, T13, T14, T15) as ProjectionParams>::Params: HAppend<<(T16, T17) as ProjectionParams>::Params>,
 {
    type Params = <<(T0, T1, T2, T3, T4, T5, T6, T7, T8, T9, T10, T11, T12, T13, T14, T15) as ProjectionParams>::Params as HAppend<<(T16, T17) as ProjectionParams>::Params>>::Output;
}

impl<T0: ProjectionClass, T1: ProjectionClass<Class = T0::Class>, T2: ProjectionClass<Class = T0::Class>, T3: ProjectionClass<Class = T0::Class>, T4: ProjectionClass<Class = T0::Class>, T5: ProjectionClass<Class = T0::Class>, T6: ProjectionClass<Class = T0::Class>, T7: ProjectionClass<Class = T0::Class>, T8: ProjectionClass<Class = T0::Class>, T9: ProjectionClass<Class = T0::Class>, T10: ProjectionClass<Class = T0::Class>, T11: ProjectionClass<Class = T0::Class>, T12: ProjectionClass<Class = T0::Class>, T13: ProjectionClass<Class = T0::Class>, T14: ProjectionClass<Class = T0::Class>, T15: ProjectionClass<Class = T0::Class>, T16: ProjectionClass<Class = T0::Class>, T17: ProjectionClass<Class = T0::Class>> ProjectionClass for (T0, T1, T2, T3, T4, T5, T6, T7, T8, T9, T10, T11, T12, T13, T14, T15, T16, T17) {
    type Class = T0::Class;
}

impl<T0: ReturnableProjection, T1: ReturnableProjection, T2: ReturnableProjection, T3: ReturnableProjection, T4: ReturnableProjection, T5: ReturnableProjection, T6: ReturnableProjection, T7: ReturnableProjection, T8: ReturnableProjection, T9: ReturnableProjection, T10: ReturnableProjection, T11: ReturnableProjection, T12: ReturnableProjection, T13: ReturnableProjection, T14: ReturnableProjection, T15: ReturnableProjection, T16: ReturnableProjection, T17: ReturnableProjection> ReturnableProjection for (T0, T1, T2, T3, T4, T5, T6, T7, T8, T9, T10, T11, T12, T13, T14, T15, T16, T17) {

}

impl<T0: Projectable, T1: Projectable, T2: Projectable, T3: Projectable, T4: Projectable, T5: Projectable, T6: Projectable, T7: Projectable, T8: Projectable, T9: Projectable, T10: Projectable, T11: Projectable, T12: Projectable, T13: Projectable, T14: Projectable, T15: Projectable, T16: Projectable, T17: Projectable, B: Backend> RenderProjectable<B> for (T0, T1, T2, T3, T4, T5, T6, T7, T8, T9, T10, T11, T12, T13, T14, T15, T16, T17) where
    (T0, T1, T2, T3, T4, T5, T6, T7, T8, T9, T10, T11, T12, T13, T14, T15): RenderProjectable<B>,
    (T16, T17): RenderProjectable<B>,
    <(T0, T1, T2, T3, T4, T5, T6, T7, T8, T9, T10, T11, T12, T13, T14, T15) as ProjectionParams>::Params: HAppend<<(T16, T17) as ProjectionParams>::Params>,
 {
    open spec fn items(&self) -> List<ProjectionTree<Bound<B>>> {
        (self.0, self.1, self.2, self.3, self.4, self.5, self.6, self.7, self.8, self.9, self.10, self.11, self.12, self.13, self.14, self.15).items().then_list((self.16, self.17).items())
    }

    fn lower_projection(&self) -> (items: List<ProjectionTree<Bound<B>>>) {
        let front = (self.0.duplicate(), self.1.duplicate(), self.2.duplicate(), self.3.duplicate(), self.4.duplicate(), self.5.duplicate(), self.6.duplicate(), self.7.duplicate(), self.8.duplicate(), self.9.duplicate(), self.10.duplicate(), self.11.duplicate(), self.12.duplicate(), self.13.duplicate(), self.14.duplicate(), self.15.duplicate());
        let back = (self.16.duplicate(), self.17.duplicate());
        front.lower_projection().append(back.lower_projection())
    }

    fn lower_projection_with_prefix(&self, prefix: &str) -> (items: List<
        ProjectionTree<Bound<B>>,
    >) {
        let front = (self.0.duplicate(), self.1.duplicate(), self.2.duplicate(), self.3.duplicate(), self.4.duplicate(), self.5.duplicate(), self.6.duplicate(), self.7.duplicate(), self.8.duplicate(), self.9.duplicate(), self.10.duplicate(), self.11.duplicate(), self.12.duplicate(), self.13.duplicate(), self.14.duplicate(), self.15.duplicate());
        let back = (self.16.duplicate(), self.17.duplicate());
        let first = front.lower_projection_with_prefix(prefix);
        let rest = back.lower_projection_with_prefix(prefix);
        proof {
            crate::projection::lemma_prefixed_parts(front.items(), back.items(), prefix@, first, rest);
        }
        first.append(rest)
    }

    proof fn lemma_projection_params<D: Dialect>(&self, dialect: D, bare: bool, lead: Seq<char>) {
        let front = (self.0, self.1, self.2, self.3, self.4, self.5, self.6, self.7, self.8, self.9, self.10, self.11, self.12, self.13, self.14, self.15);
        let back = (self.16, self.17);
        let between = if front.items() is Nil { lead } else { ", "@ };
        front.lemma_projection_params(dialect, bare, lead);
        back.lemma_projection_params(dialect, bare, between);
        crate::projection::lemma_projection_parts(dialect, bare, lead, front.items(), back.items());
        <<(T0, T1, T2, T3, T4, T5, T6, T7, T8, T9, T10, T11, T12, T13, T14, T15) as ProjectionParams>::Params as HAppend<<(T16, T17) as ProjectionParams>::Params>>::lemma_append_width();
    }

    proof fn lemma_projection_plain(&self) {
        let front = (self.0, self.1, self.2, self.3, self.4, self.5, self.6, self.7, self.8, self.9, self.10, self.11, self.12, self.13, self.14, self.15);
        let back = (self.16, self.17);
        <<(T0, T1, T2, T3, T4, T5, T6, T7, T8, T9, T10, T11, T12, T13, T14, T15) as ProjectionParams>::Params as HAppend<<(T16, T17) as ProjectionParams>::Params>>::lemma_append_width();
        front.lemma_projection_plain();
        back.lemma_projection_plain();
        crate::projection::lemma_plain_parts(front.items(), back.items());
    }
}

impl<'scope, T0: ReturningProjection<'scope>, T1: ReturningProjection<'scope>, T2: ReturningProjection<'scope>, T3: ReturningProjection<'scope>, T4: ReturningProjection<'scope>, T5: ReturningProjection<'scope>, T6: ReturningProjection<'scope>, T7: ReturningProjection<'scope>, T8: ReturningProjection<'scope>, T9: ReturningProjection<'scope>, T10: ReturningProjection<'scope>, T11: ReturningProjection<'scope>, T12: ReturningProjection<'scope>, T13: ReturningProjection<'scope>, T14: ReturningProjection<'scope>, T15: ReturningProjection<'scope>, T16: ReturningProjection<'scope>, T17: ReturningProjection<'scope>> ReturningProjection<'scope> for (T0, T1, T2, T3, T4, T5, T6, T7, T8, T9, T10, T11, T12, T13, T14, T15, T16, T17) {
    type Shape = (T0::Shape, T1::Shape, T2::Shape, T3::Shape, T4::Shape, T5::Shape, T6::Shape, T7::Shape, T8::Shape, T9::Shape, T10::Shape, T11::Shape, T12::Shape, T13::Shape, T14::Shape, T15::Shape, T16::Shape, T17::Shape);
}

impl<T0: Projectable, T1: Projectable, T2: Projectable, T3: Projectable, T4: Projectable, T5: Projectable, T6: Projectable, T7: Projectable, T8: Projectable, T9: Projectable, T10: Projectable, T11: Projectable, T12: Projectable, T13: Projectable, T14: Projectable, T15: Projectable, T16: Projectable, T17: Projectable, T18: Projectable> Projectable for (T0, T1, T2, T3, T4, T5, T6, T7, T8, T9, T10, T11, T12, T13, T14, T15, T16, T17, T18) {
    type Rebound<'scope> = (T0::Rebound<'scope>, T1::Rebound<'scope>, T2::Rebound<'scope>, T3::Rebound<'scope>, T4::Rebound<'scope>, T5::Rebound<'scope>, T6::Rebound<'scope>, T7::Rebound<'scope>, T8::Rebound<'scope>, T9::Rebound<'scope>, T10::Rebound<'scope>, T11::Rebound<'scope>, T12::Rebound<'scope>, T13::Rebound<'scope>, T14::Rebound<'scope>, T15::Rebound<'scope>, T16::Rebound<'scope>, T17::Rebound<'scope>, T18::Rebound<'scope>);

    open spec fn rebound<'scope>(&self, alias: SourceAlias) -> Self::Rebound<'scope> {
        (self.0.rebound(alias), self.1.rebound(alias), self.2.rebound(alias), self.3.rebound(alias), self.4.rebound(alias), self.5.rebound(alias), self.6.rebound(alias), self.7.rebound(alias), self.8.rebound(alias), self.9.rebound(alias), self.10.rebound(alias), self.11.rebound(alias), self.12.rebound(alias), self.13.rebound(alias), self.14.rebound(alias), self.15.rebound(alias), self.16.rebound(alias), self.17.rebound(alias), self.18.rebound(alias))
    }

    open spec fn rebinds_with_prefix<'scope>(
        &self,
        alias: SourceAlias,
        prefix: Seq<char>,
        rebound: Self::Rebound<'scope>,
    ) -> bool {
        &&& self.0.rebinds_with_prefix(alias, prefix, rebound.0)
        &&& self.1.rebinds_with_prefix(alias, prefix, rebound.1)
        &&& self.2.rebinds_with_prefix(alias, prefix, rebound.2)
        &&& self.3.rebinds_with_prefix(alias, prefix, rebound.3)
        &&& self.4.rebinds_with_prefix(alias, prefix, rebound.4)
        &&& self.5.rebinds_with_prefix(alias, prefix, rebound.5)
        &&& self.6.rebinds_with_prefix(alias, prefix, rebound.6)
        &&& self.7.rebinds_with_prefix(alias, prefix, rebound.7)
        &&& self.8.rebinds_with_prefix(alias, prefix, rebound.8)
        &&& self.9.rebinds_with_prefix(alias, prefix, rebound.9)
        &&& self.10.rebinds_with_prefix(alias, prefix, rebound.10)
        &&& self.11.rebinds_with_prefix(alias, prefix, rebound.11)
        &&& self.12.rebinds_with_prefix(alias, prefix, rebound.12)
        &&& self.13.rebinds_with_prefix(alias, prefix, rebound.13)
        &&& self.14.rebinds_with_prefix(alias, prefix, rebound.14)
        &&& self.15.rebinds_with_prefix(alias, prefix, rebound.15)
        &&& self.16.rebinds_with_prefix(alias, prefix, rebound.16)
        &&& self.17.rebinds_with_prefix(alias, prefix, rebound.17)
        &&& self.18.rebinds_with_prefix(alias, prefix, rebound.18)
    }

    fn re_alias<'scope>(&self, alias: SourceAlias) -> (rebound: Self::Rebound<'scope>) {
        (self.0.re_alias(alias), self.1.re_alias(alias), self.2.re_alias(alias), self.3.re_alias(alias), self.4.re_alias(alias), self.5.re_alias(alias), self.6.re_alias(alias), self.7.re_alias(alias), self.8.re_alias(alias), self.9.re_alias(alias), self.10.re_alias(alias), self.11.re_alias(alias), self.12.re_alias(alias), self.13.re_alias(alias), self.14.re_alias(alias), self.15.re_alias(alias), self.16.re_alias(alias), self.17.re_alias(alias), self.18.re_alias(alias))
    }

    fn re_alias_with_prefix<'scope>(&self, alias: SourceAlias, prefix: &str) -> (rebound:
        Self::Rebound<'scope>) {
        (self.0.re_alias_with_prefix(alias, prefix), self.1.re_alias_with_prefix(alias, prefix), self.2.re_alias_with_prefix(alias, prefix), self.3.re_alias_with_prefix(alias, prefix), self.4.re_alias_with_prefix(alias, prefix), self.5.re_alias_with_prefix(alias, prefix), self.6.re_alias_with_prefix(alias, prefix), self.7.re_alias_with_prefix(alias, prefix), self.8.re_alias_with_prefix(alias, prefix), self.9.re_alias_with_prefix(alias, prefix), self.10.re_alias_with_prefix(alias, prefix), self.11.re_alias_with_prefix(alias, prefix), self.12.re_alias_with_prefix(alias, prefix), self.13.re_alias_with_prefix(alias, prefix), self.14.re_alias_with_prefix(alias, prefix), self.15.re_alias_with_prefix(alias, prefix), self.16.re_alias_with_prefix(alias, prefix), self.17.re_alias_with_prefix(alias, prefix), self.18.re_alias_with_prefix(alias, prefix))
    }
}

impl<T0: Duplicate, T1: Duplicate, T2: Duplicate, T3: Duplicate, T4: Duplicate, T5: Duplicate, T6: Duplicate, T7: Duplicate, T8: Duplicate, T9: Duplicate, T10: Duplicate, T11: Duplicate, T12: Duplicate, T13: Duplicate, T14: Duplicate, T15: Duplicate, T16: Duplicate, T17: Duplicate, T18: Duplicate> Duplicate for (T0, T1, T2, T3, T4, T5, T6, T7, T8, T9, T10, T11, T12, T13, T14, T15, T16, T17, T18) {
    fn duplicate(&self) -> (copy: Self) {
        (self.0.duplicate(), self.1.duplicate(), self.2.duplicate(), self.3.duplicate(), self.4.duplicate(), self.5.duplicate(), self.6.duplicate(), self.7.duplicate(), self.8.duplicate(), self.9.duplicate(), self.10.duplicate(), self.11.duplicate(), self.12.duplicate(), self.13.duplicate(), self.14.duplicate(), self.15.duplicate(), self.16.duplicate(), self.17.duplicate(), self.18.duplicate())
    }
}

impl<T0: ProjectionShape, T1: ProjectionShape, T2: ProjectionShape, T3: ProjectionShape, T4: ProjectionShape, T5: ProjectionShape, T6: ProjectionShape, T7: ProjectionShape, T8: ProjectionShape, T9: ProjectionShape, T10: ProjectionShape, T11: ProjectionShape, T12: ProjectionShape, T13: ProjectionShape, T14: ProjectionShape, T15: ProjectionShape, T16: ProjectionShape, T17: ProjectionShape, T18: ProjectionShape> ProjectionShape for (T0, T1, T2, T3, T4, T5, T6, T7, T8, T9, T10, T11, T12, T13, T14, T15, T16, T17, T18) {
    type Exprs<'scope> = (T0::Exprs<'scope>, T1::Exprs<'scope>, T2::Exprs<'scope>, T3::Exprs<'scope>, T4::Exprs<'scope>, T5::Exprs<'scope>, T6::Exprs<'scope>, T7::Exprs<'scope>, T8::Exprs<'scope>, T9::Exprs<'scope>, T10::Exprs<'scope>, T11::Exprs<'scope>, T12::Exprs<'scope>, T13::Exprs<'scope>, T14::Exprs<'scope>, T15::Exprs<'scope>, T16::Exprs<'scope>, T17::Exprs<'scope>, T18::Exprs<'scope>);

    type ReboundExprs<'scope> = (T0::ReboundExprs<'scope>, T1::ReboundExprs<'scope>, T2::ReboundExprs<'scope>, T3::ReboundExprs<'scope>, T4::ReboundExprs<'scope>, T5::ReboundExprs<'scope>, T6::ReboundExprs<'scope>, T7::ReboundExprs<'scope>, T8::ReboundExprs<'scope>, T9::ReboundExprs<'scope>, T10::ReboundExprs<'scope>, T11::ReboundExprs<'scope>, T12::ReboundExprs<'scope>, T13::ReboundExprs<'scope>, T14::ReboundExprs<'scope>, T15::ReboundExprs<'scope>, T16::ReboundExprs<'scope>, T17::ReboundExprs<'scope>, T18::ReboundExprs<'scope>);

    type Row = (T0::Row, T1::Row, T2::Row, T3::Row, T4::Row, T5::Row, T6::Row, T7::Row, T8::Row, T9::Row, T10::Row, T11::Row, T12::Row, T13::Row, T14::Row, T15::Row, T16::Row, T17::Row, T18::Row);

    open spec fn shape_exprs<'scope>(alias: SourceAlias) -> Self::Exprs<'scope> {
        (T0::shape_exprs(alias), T1::shape_exprs(alias), T2::shape_exprs(alias), T3::shape_exprs(alias), T4::shape_exprs(alias), T5::shape_exprs(alias), T6::shape_exprs(alias), T7::shape_exprs(alias), T8::shape_exprs(alias), T9::shape_exprs(alias), T10::shape_exprs(alias), T11::shape_exprs(alias), T12::shape_exprs(alias), T13::shape_exprs(alias), T14::shape_exprs(alias), T15::shape_exprs(alias), T16::shape_exprs(alias), T17::shape_exprs(alias), T18::shape_exprs(alias))
    }

    open spec fn shape_rebound<'scope>(alias: SourceAlias) -> Self::ReboundExprs<'scope> {
        (T0::shape_rebound(alias), T1::shape_rebound(alias), T2::shape_rebound(alias), T3::shape_rebound(alias), T4::shape_rebound(alias), T5::shape_rebound(alias), T6::shape_rebound(alias), T7::shape_rebound(alias), T8::shape_rebound(alias), T9::shape_rebound(alias), T10::shape_rebound(alias), T11::shape_rebound(alias), T12::shape_rebound(alias), T13::shape_rebound(alias), T14::shape_rebound(alias), T15::shape_rebound(alias), T16::shape_rebound(alias), T17::shape_rebound(alias), T18::shape_rebound(alias))
    }

    fn exprs<'scope>(alias: SourceAlias) -> (exprs: Self::Exprs<'scope>) {
        (T0::exprs(alias), T1::exprs(alias), T2::exprs(alias), T3::exprs(alias), T4::exprs(alias), T5::exprs(alias), T6::exprs(alias), T7::exprs(alias), T8::exprs(alias), T9::exprs(alias), T10::exprs(alias), T11::exprs(alias), T12::exprs(alias), T13::exprs(alias), T14::exprs(alias), T15::exprs(alias), T16::exprs(alias), T17::exprs(alias), T18::exprs(alias))
    }

    fn rebound_exprs<'scope>(alias: SourceAlias) -> (exprs: Self::ReboundExprs<'scope>) {
        (T0::rebound_exprs(alias), T1::rebound_exprs(alias), T2::rebound_exprs(alias), T3::rebound_exprs(alias), T4::rebound_exprs(alias), T5::rebound_exprs(alias), T6::rebound_exprs(alias), T7::rebound_exprs(alias), T8::rebound_exprs(alias), T9::rebound_exprs(alias), T10::rebound_exprs(alias), T11::rebound_exprs(alias), T12::rebound_exprs(alias), T13::rebound_exprs(alias), T14::rebound_exprs(alias), T15::rebound_exprs(alias), T16::rebound_exprs(alias), T17::rebound_exprs(alias), T18::rebound_exprs(alias))
    }
}

impl<T0, T1, T2, T3, T4, T5, T6, T7, T8, T9, T10, T11, T12, T13, T14, T15, T16, T17, T18> ProjectionParams for (T0, T1, T2, T3, T4, T5, T6, T7, T8, T9, T10, T11, T12, T13, T14, T15, T16, T17, T18) where
    (T0, T1, T2, T3, T4, T5, T6, T7, T8, T9, T10, T11, T12, T13, T14, T15): ProjectionParams,
    (T16, T17, T18): ProjectionParams,
    <(T0, T1, T2, T3, T4, T5, T6, T7, T8, T9, T10, T11, T12, T13, T14, T15) as ProjectionParams>::Params: HAppend<<(T16, T17, T18) as ProjectionParams>::Params>,
 {
    type Params = <<(T0, T1, T2, T3, T4, T5, T6, T7, T8, T9, T10, T11, T12, T13, T14, T15) as ProjectionParams>::Params as HAppend<<(T16, T17, T18) as ProjectionParams>::Params>>::Output;
}

impl<T0: ProjectionClass, T1: ProjectionClass<Class = T0::Class>, T2: ProjectionClass<Class = T0::Class>, T3: ProjectionClass<Class = T0::Class>, T4: ProjectionClass<Class = T0::Class>, T5: ProjectionClass<Class = T0::Class>, T6: ProjectionClass<Class = T0::Class>, T7: ProjectionClass<Class = T0::Class>, T8: ProjectionClass<Class = T0::Class>, T9: ProjectionClass<Class = T0::Class>, T10: ProjectionClass<Class = T0::Class>, T11: ProjectionClass<Class = T0::Class>, T12: ProjectionClass<Class = T0::Class>, T13: ProjectionClass<Class = T0::Class>, T14: ProjectionClass<Class = T0::Class>, T15: ProjectionClass<Class = T0::Class>, T16: ProjectionClass<Class = T0::Class>, T17: ProjectionClass<Class = T0::Class>, T18: ProjectionClass<Class = T0::Class>> ProjectionClass for (T0, T1, T2, T3, T4, T5, T6, T7, T8, T9, T10, T11, T12, T13, T14, T15, T16, T17, T18) {
    type Class = T0::Class;
}

impl<T0: ReturnableProjection, T1: ReturnableProjection, T2: ReturnableProjection, T3: ReturnableProjection, T4: ReturnableProjection, T5: ReturnableProjection, T6: ReturnableProjection, T7: ReturnableProjection, T8: ReturnableProjection, T9: ReturnableProjection, T10: ReturnableProjection, T11: ReturnableProjection, T12: ReturnableProjection, T13: ReturnableProjection, T14: ReturnableProjection, T15: ReturnableProjection, T16: ReturnableProjection, T17: ReturnableProjection, T18: ReturnableProjection> ReturnableProjection for (T0, T1, T2, T3, T4, T5, T6, T7, T8, T9, T10, T11, T12, T13, T14, T15, T16, T17, T18) {

}

impl<T0: Projectable, T1: Projectable, T2: Projectable, T3: Projectable, T4: Projectable, T5: Projectable, T6: Projectable, T7: Projectable, T8: Projectable, T9: Projectable, T10: Projectable, T11: Projectable, T12: Projectable, T13: Projectable, T14: Projectable, T15: Projectable, T16: Projectable, T17: Projectable, T18: Projectable, B: Backend> RenderProjectable<B> for (T0, T1, T2, T3, T4, T5, T6, T7, T8, T9, T10, T11, T12, T13, T14, T15, T16, T17, T18) where
    (T0, T1, T2, T3, T4, T5, T6, T7, T8, T9, T10, T11, T12, T13, T14, T15): RenderProjectable<B>,
    (T16, T17, T18): RenderProjectable<B>,
    <(T0, T1, T2, T3, T4, T5, T6, T7, T8, T9, T10, T11, T12, T13, T14, T15) as ProjectionParams>::Params: HAppend<<(T16, T17, T18) as ProjectionParams>::Params>,
 {
    open spec fn items(&self) -> List<ProjectionTree<Bound<B>>> {
        (self.0, self.1, self.2, self.3, self.4, self.5, self.6, self.7, self.8, self.9, self.10, self.11, self.12, self.13, self.14, self.15).items().then_list((self.16, self.17, self.18).items())
    }

    fn lower_projection(&self) -> (items: List<ProjectionTree<Bound<B>>>) {
        let front = (self.0.duplicate(), self.1.duplicate(), self.2.duplicate(), self.3.duplicate(), self.4.duplicate(), self.5.duplicate(), self.6.duplicate(), self.7.duplicate(), self.8.duplicate(), self.9.duplicate(), self.10.duplicate(), self.11.duplicate(), self.12.duplicate(), self.13.duplicate(), self.14.duplicate(), self.15.duplicate());
        let back = (self.16.duplicate(), self.17.duplicate(), self.18.duplicate());
        front.lower_projection().append(back.lower_projection())
    }

    fn lower_projection_with_prefix(&self, prefix: &str) -> (items: List<
        ProjectionTree<Bound<B>>,
    >) {
        let front = (self.0.duplicate(), self.1.duplicate(), self.2.duplicate(), self.3.duplicate(), self.4.duplicate(), self.5.duplicate(), self.6.duplicate(), self.7.duplicate(), self.8.duplicate(), self.9.duplicate(), self.10.duplicate(), self.11.duplicate(), self.12.duplicate(), self.13.duplicate(), self.14.duplicate(), self.15.duplicate());
        let back = (self.16.duplicate(), self.17.duplicate(), self.18.duplicate());
        let first = front.lower_projection_with_prefix(prefix);
        let rest = back.lower_projection_with_prefix(prefix);
        proof {
            crate::projection::lemma_prefixed_parts(front.items(), back.items(), prefix@, first, rest);
        }
        first.append(rest)
    }

    proof fn lemma_projection_params<D: Dialect>(&self, dialect: D, bare: bool, lead: Seq<char>) {
        let front = (self.0, self.1, self.2, self.3, self.4, self.5, self.6, self.7, self.8, self.9, self.10, self.11, self.12, self.13, self.14, self.15);
        let back = (self.16, self.17, self.18);
        let between = if front.items() is Nil { lead } else { ", "@ };
        front.lemma_projection_params(dialect, bare, lead);
        back.lemma_projection_params(dialect, bare, between);
        crate::projection::lemma_projection_parts(dialect, bare, lead, front.items(), back.items());
        <<(T0, T1, T2, T3, T4, T5, T6, T7, T8, T9, T10, T11, T12, T13, T14, T15) as ProjectionParams>::Params as HAppend<<(T16, T17, T18) as ProjectionParams>::Params>>::lemma_append_width();
    }

    proof fn lemma_projection_plain(&self) {
        let front = (self.0, self.1, self.2, self.3, self.4, self.5, self.6, self.7, self.8, self.9, self.10, self.11, self.12, self.13, self.14, self.15);
        let back = (self.16, self.17, self.18);
        <<(T0, T1, T2, T3, T4, T5, T6, T7, T8, T9, T10, T11, T12, T13, T14, T15) as ProjectionParams>::Params as HAppend<<(T16, T17, T18) as ProjectionParams>::Params>>::lemma_append_width();
        front.lemma_projection_plain();
        back.lemma_projection_plain();
        crate::projection::lemma_plain_parts(front.items(), back.items());
    }
}

impl<'scope, T0: ReturningProjection<'scope>, T1: ReturningProjection<'scope>, T2: ReturningProjection<'scope>, T3: ReturningProjection<'scope>, T4: ReturningProjection<'scope>, T5: ReturningProjection<'scope>, T6: ReturningProjection<'scope>, T7: ReturningProjection<'scope>, T8: ReturningProjection<'scope>, T9: ReturningProjection<'scope>, T10: ReturningProjection<'scope>, T11: ReturningProjection<'scope>, T12: ReturningProjection<'scope>, T13: ReturningProjection<'scope>, T14: ReturningProjection<'scope>, T15: ReturningProjection<'scope>, T16: ReturningProjection<'scope>, T17: ReturningProjection<'scope>, T18: ReturningProjection<'scope>> ReturningProjection<'scope> for (T0, T1, T2, T3, T4, T5, T6, T7, T8, T9, T10, T11, T12, T13, T14, T15, T16, T17, T18) {
    type Shape = (T0::Shape, T1::Shape, T2::Shape, T3::Shape, T4::Shape, T5::Shape, T6::Shape, T7::Shape, T8::Shape, T9::Shape, T10::Shape, T11::Shape, T12::Shape, T13::Shape, T14::Shape, T15::Shape, T16::Shape, T17::Shape, T18::Shape);
}

impl<T0: Projectable, T1: Projectable, T2: Projectable, T3: Projectable, T4: Projectable, T5: Projectable, T6: Projectable, T7: Projectable, T8: Projectable, T9: Projectable, T10: Projectable, T11: Projectable, T12: Projectable, T13: Projectable, T14: Projectable, T15: Projectable, T16: Projectable, T17: Projectable, T18: Projectable, T19: Projectable> Projectable for (T0, T1, T2, T3, T4, T5, T6, T7, T8, T9, T10, T11, T12, T13, T14, T15, T16, T17, T18, T19) {
    type Rebound<'scope> = (T0::Rebound<'scope>, T1::Rebound<'scope>, T2::Rebound<'scope>, T3::Rebound<'scope>, T4::Rebound<'scope>, T5::Rebound<'scope>, T6::Rebound<'scope>, T7::Rebound<'scope>, T8::Rebound<'scope>, T9::Rebound<'scope>, T10::Rebound<'scope>, T11::Rebound<'scope>, T12::Rebound<'scope>, T13::Rebound<'scope>, T14::Rebound<'scope>, T15::Rebound<'scope>, T16::Rebound<'scope>, T17::Rebound<'scope>, T18::Rebound<'scope>, T19::Rebound<'scope>);

    open spec fn rebound<'scope>(&self, alias: SourceAlias) -> Self::Rebound<'scope> {
        (self.0.rebound(alias), self.1.rebound(alias), self.2.rebound(alias), self.3.rebound(alias), self.4.rebound(alias), self.5.rebound(alias), self.6.rebound(alias), self.7.rebound(alias), self.8.rebound(alias), self.9.rebound(alias), self.10.rebound(alias), self.11.rebound(alias), self.12.rebound(alias), self.13.rebound(alias), self.14.rebound(alias), self.15.rebound(alias), self.16.rebound(alias), self.17.rebound(alias), self.18.rebound(alias), self.19.rebound(alias))
    }

    open spec fn rebinds_with_prefix<'scope>(
        &self,
        alias: SourceAlias,
        prefix: Seq<char>,
        rebound: Self::Rebound<'scope>,
    ) -> bool {
        &&& self.0.rebinds_with_prefix(alias, prefix, rebound.0)
        &&& self.1.rebinds_with_prefix(alias, prefix, rebound.1)
        &&& self.2.rebinds_with_prefix(alias, prefix, rebound.2)
        &&& self.3.rebinds_with_prefix(alias, prefix, rebound.3)
        &&& self.4.rebinds_with_prefix(alias, prefix, rebound.4)
        &&& self.5.rebinds_with_prefix(alias, prefix, rebound.5)
        &&& self.6.rebinds_with_prefix(alias, prefix, rebound.6)
        &&& self.7.rebinds_with_prefix(alias, prefix, rebound.7)
        &&& self.8.rebinds_with_prefix(alias, prefix, rebound.8)
        &&& self.9.rebinds_with_prefix(alias, prefix, rebound.9)
        &&& self.10.rebinds_with_prefix(alias, prefix, rebound.10)
        &&& self.11.rebinds_with_prefix(alias, prefix, rebound.11)
        &&& self.12.rebinds_with_prefix(alias, prefix, rebound.12)
        &&& self.13.rebinds_with_prefix(alias, prefix, rebound.13)
        &&& self.14.rebinds_with_prefix(alias, prefix, rebound.14)
        &&& self.15.rebinds_with_prefix(alias, prefix, rebound.15)
        &&& self.16.rebinds_with_prefix(alias, prefix, rebound.16)
        &&& self.17.rebinds_with_prefix(alias, prefix, rebound.17)
        &&& self.18.rebinds_with_prefix(alias, prefix, rebound.18)
        &&& self.19.rebinds_with_prefix(alias, prefix, rebound.19)
    }

    fn re_alias<'scope>(&self, alias: SourceAlias) -> (rebound: Self::Rebound<'scope>) {
        (self.0.re_alias(alias), self.1.re_alias(alias), self.2.re_alias(alias), self.3.re_alias(alias), self.4.re_alias(alias), self.5.re_alias(alias), self.6.re_alias(alias), self.7.re_alias(alias), self.8.re_alias(alias), self.9.re_alias(alias), self.10.re_alias(alias), self.11.re_alias(alias), self.12.re_alias(alias), self.13.re_alias(alias), self.14.re_alias(alias), self.15.re_alias(alias), self.16.re_alias(alias), self.17.re_alias(alias), self.18.re_alias(alias), self.19.re_alias(alias))
    }

    fn re_alias_with_prefix<'scope>(&self, alias: SourceAlias, prefix: &str) -> (rebound:
        Self::Rebound<'scope>) {
        (self.0.re_alias_with_prefix(alias, prefix), self.1.re_alias_with_prefix(alias, prefix), self.2.re_alias_with_prefix(alias, prefix), self.3.re_alias_with_prefix(alias, prefix), self.4.re_alias_with_prefix(alias, prefix), self.5.re_alias_with_prefix(alias, prefix), self.6.re_alias_with_prefix(alias, prefix), self.7.re_alias_with_prefix(alias, prefix), self.8.re_alias_with_prefix(alias, prefix), self.9.re_alias_with_prefix(alias, prefix), self.10.re_alias_with_prefix(alias, prefix), self.11.re_alias_with_prefix(alias, prefix), self.12.re_alias_with_prefix(alias, prefix), self.13.re_alias_with_prefix(alias, prefix), self.14.re_alias_with_prefix(alias, prefix), self.15.re_alias_with_prefix(alias, prefix), self.16.re_alias_with_prefix(alias, prefix), self.17.re_alias_with_prefix(alias, prefix), self.18.re_alias_with_prefix(alias, prefix), self.19.re_alias_with_prefix(alias, prefix))
    }
}

impl<T0: Duplicate, T1: Duplicate, T2: Duplicate, T3: Duplicate, T4: Duplicate, T5: Duplicate, T6: Duplicate, T7: Duplicate, T8: Duplicate, T9: Duplicate, T10: Duplicate, T11: Duplicate, T12: Duplicate, T13: Duplicate, T14: Duplicate, T15: Duplicate, T16: Duplicate, T17: Duplicate, T18: Duplicate, T19: Duplicate> Duplicate for (T0, T1, T2, T3, T4, T5, T6, T7, T8, T9, T10, T11, T12, T13, T14, T15, T16, T17, T18, T19) {
    fn duplicate(&self) -> (copy: Self) {
        (self.0.duplicate(), self.1.duplicate(), self.2.duplicate(), self.3.duplicate(), self.4.duplicate(), self.5.duplicate(), self.6.duplicate(), self.7.duplicate(), self.8.duplicate(), self.9.duplicate(), self.10.duplicate(), self.11.duplicate(), self.12.duplicate(), self.13.duplicate(), self.14.duplicate(), self.15.duplicate(), self.16.duplicate(), self.17.duplicate(), self.18.duplicate(), self.19.duplicate())
    }
}

impl<T0: ProjectionShape, T1: ProjectionShape, T2: ProjectionShape, T3: ProjectionShape, T4: ProjectionShape, T5: ProjectionShape, T6: ProjectionShape, T7: ProjectionShape, T8: ProjectionShape, T9: ProjectionShape, T10: ProjectionShape, T11: ProjectionShape, T12: ProjectionShape, T13: ProjectionShape, T14: ProjectionShape, T15: ProjectionShape, T16: ProjectionShape, T17: ProjectionShape, T18: ProjectionShape, T19: ProjectionShape> ProjectionShape for (T0, T1, T2, T3, T4, T5, T6, T7, T8, T9, T10, T11, T12, T13, T14, T15, T16, T17, T18, T19) {
    type Exprs<'scope> = (T0::Exprs<'scope>, T1::Exprs<'scope>, T2::Exprs<'scope>, T3::Exprs<'scope>, T4::Exprs<'scope>, T5::Exprs<'scope>, T6::Exprs<'scope>, T7::Exprs<'scope>, T8::Exprs<'scope>, T9::Exprs<'scope>, T10::Exprs<'scope>, T11::Exprs<'scope>, T12::Exprs<'scope>, T13::Exprs<'scope>, T14::Exprs<'scope>, T15::Exprs<'scope>, T16::Exprs<'scope>, T17::Exprs<'scope>, T18::Exprs<'scope>, T19::Exprs<'scope>);

    type ReboundExprs<'scope> = (T0::ReboundExprs<'scope>, T1::ReboundExprs<'scope>, T2::ReboundExprs<'scope>, T3::ReboundExprs<'scope>, T4::ReboundExprs<'scope>, T5::ReboundExprs<'scope>, T6::ReboundExprs<'scope>, T7::ReboundExprs<'scope>, T8::ReboundExprs<'scope>, T9::ReboundExprs<'scope>, T10::ReboundExprs<'scope>, T11::ReboundExprs<'scope>, T12::ReboundExprs<'scope>, T13::ReboundExprs<'scope>, T14::ReboundExprs<'scope>, T15::ReboundExprs<'scope>, T16::ReboundExprs<'scope>, T17::ReboundExprs<'scope>, T18::ReboundExprs<'scope>, T19::ReboundExprs<'scope>);

    type Row = (T0::Row, T1::Row, T2::Row, T3::Row, T4::Row, T5::Row, T6::Row, T7::Row, T8::Row, T9::Row, T10::Row, T11::Row, T12::Row, T13::Row, T14::Row, T15::Row, T16::Row, T17::Row, T18::Row, T19::Row);

    open spec fn shape_exprs<'scope>(alias: SourceAlias) -> Self::Exprs<'scope> {
        (T0::shape_exprs(alias), T1::shape_exprs(alias), T2::shape_exprs(alias), T3::shape_exprs(alias), T4::shape_exprs(alias), T5::shape_exprs(alias), T6::shape_exprs(alias), T7::shape_exprs(alias), T8::shape_exprs(alias), T9::shape_exprs(alias), T10::shape_exprs(alias), T11::shape_exprs(alias), T12::shape_exprs(alias), T13::shape_exprs(alias), T14::shape_exprs(alias), T15::shape_exprs(alias), T16::shape_exprs(alias), T17::shape_exprs(alias), T18::shape_exprs(alias), T19::shape_exprs(alias))
    }

    open spec fn shape_rebound<'scope>(alias: SourceAlias) -> Self::ReboundExprs<'scope> {
        (T0::shape_rebound(alias), T1::shape_rebound(alias), T2::shape_rebound(alias), T3::shape_rebound(alias), T4::shape_rebound(alias), T5::shape_rebound(alias), T6::shape_rebound(alias), T7::shape_rebound(alias), T8::shape_rebound(alias), T9::shape_rebound(alias), T10::shape_rebound(alias), T11::shape_rebound(alias), T12::shape_rebound(alias), T13::shape_rebound(alias), T14::shape_rebound(alias), T15::shape_rebound(alias), T16::shape_rebound(alias), T17::shape_rebound(alias), T18::shape_rebound(alias), T19::shape_rebound(alias))
    }

    fn exprs<'scope>(alias: SourceAlias) -> (exprs: Self::Exprs<'scope>) {
        (T0::exprs(alias), T1::exprs(alias), T2::exprs(alias), T3::exprs(alias), T4::exprs(alias), T5::exprs(alias), T6::exprs(alias), T7::exprs(alias), T8::exprs(alias), T9::exprs(alias), T10::exprs(alias), T11::exprs(alias), T12::exprs(alias), T13::exprs(alias), T14::exprs(alias), T15::exprs(alias), T16::exprs(alias), T17::exprs(alias), T18::exprs(alias), T19::exprs(alias))
    }

    fn rebound_exprs<'scope>(alias: SourceAlias) -> (exprs: Self::ReboundExprs<'scope>) {
        (T0::rebound_exprs(alias), T1::rebound_exprs(alias), T2::rebound_exprs(alias), T3::rebound_exprs(alias), T4::rebound_exprs(alias), T5::rebound_exprs(alias), T6::rebound_exprs(alias), T7::rebound_exprs(alias), T8::rebound_exprs(alias), T9::rebound_exprs(alias), T10::rebound_exprs(alias), T11::rebound_exprs(alias), T12::rebound_exprs(alias), T13::rebound_exprs(alias), T14::rebound_exprs(alias), T15::rebound_exprs(alias), T16::rebound_exprs(alias), T17::rebound_exprs(alias), T18::rebound_exprs(alias), T19::rebound_exprs(alias))
    }
}

impl<T0, T1, T2, T3, T4, T5, T6, T7, T8, T9, T10, T11, T12, T13, T14, T15, T16, T17, T18, T19> ProjectionParams for (T0, T1, T2, T3, T4, T5, T6, T7, T8, T9, T10, T11, T12, T13, T14, T15, T16, T17, T18, T19) where
    (T0, T1, T2, T3, T4, T5, T6, T7, T8, T9, T10, T11, T12, T13, T14, T15): ProjectionParams,
    (T16, T17, T18, T19): ProjectionParams,
    <(T0, T1, T2, T3, T4, T5, T6, T7, T8, T9, T10, T11, T12, T13, T14, T15) as ProjectionParams>::Params: HAppend<<(T16, T17, T18, T19) as ProjectionParams>::Params>,
 {
    type Params = <<(T0, T1, T2, T3, T4, T5, T6, T7, T8, T9, T10, T11, T12, T13, T14, T15) as ProjectionParams>::Params as HAppend<<(T16, T17, T18, T19) as ProjectionParams>::Params>>::Output;
}

impl<T0: ProjectionClass, T1: ProjectionClass<Class = T0::Class>, T2: ProjectionClass<Class = T0::Class>, T3: ProjectionClass<Class = T0::Class>, T4: ProjectionClass<Class = T0::Class>, T5: ProjectionClass<Class = T0::Class>, T6: ProjectionClass<Class = T0::Class>, T7: ProjectionClass<Class = T0::Class>, T8: ProjectionClass<Class = T0::Class>, T9: ProjectionClass<Class = T0::Class>, T10: ProjectionClass<Class = T0::Class>, T11: ProjectionClass<Class = T0::Class>, T12: ProjectionClass<Class = T0::Class>, T13: ProjectionClass<Class = T0::Class>, T14: ProjectionClass<Class = T0::Class>, T15: ProjectionClass<Class = T0::Class>, T16: ProjectionClass<Class = T0::Class>, T17: ProjectionClass<Class = T0::Class>, T18: ProjectionClass<Class = T0::Class>, T19: ProjectionClass<Class = T0::Class>> ProjectionClass for (T0, T1, T2, T3, T4, T5, T6, T7, T8, T9, T10, T11, T12, T13, T14, T15, T16, T17, T18, T19) {
    type Class = T0::Class;
}

impl<T0: ReturnableProjection, T1: ReturnableProjection, T2: ReturnableProjection, T3: ReturnableProjection, T4: ReturnableProjection, T5: ReturnableProjection, T6: ReturnableProjection, T7: ReturnableProjection, T8: ReturnableProjection, T9: ReturnableProjection, T10: ReturnableProjection, T11: ReturnableProjection, T12: ReturnableProjection, T13: ReturnableProjection, T14: ReturnableProjection, T15: ReturnableProjection, T16: ReturnableProjection, T17: ReturnableProjection, T18: ReturnableProjection, T19: ReturnableProjection> ReturnableProjection for (T0, T1, T2, T3, T4, T5, T6, T7, T8, T9, T10, T11, T12, T13, T14, T15, T16, T17, T18, T19) {

}

impl<T0: Projectable, T1: Projectable, T2: Projectable, T3: Projectable, T4: Projectable, T5: Projectable, T6: Projectable, T7: Projectable, T8: Projectable, T9: Projectable, T10: Projectable, T11: Projectable, T12: Projectable, T13: Projectable, T14: Projectable, T15: Projectable, T16: Projectable, T17: Projectable, T18: Projectable, T19: Projectable, B: Backend> RenderProjectable<B> for (T0, T1, T2, T3, T4, T5, T6, T7, T8, T9, T10, T11, T12, T13, T14, T15, T16, T17, T18, T19) where
    (T0, T1, T2, T3, T4, T5, T6, T7, T8, T9, T10, T11, T12, T13, T14, T15): RenderProjectable<B>,
    (T16, T17, T18, T19): RenderProjectable<B>,
    <(T0, T1, T2, T3, T4, T5, T6, T7, T8, T9, T10, T11, T12, T13, T14, T15) as ProjectionParams>::Params: HAppend<<(T16, T17, T18, T19) as ProjectionParams>::Params>,
 {
    open spec fn items(&self) -> List<ProjectionTree<Bound<B>>> {
        (self.0, self.1, self.2, self.3, self.4, self.5, self.6, self.7, self.8, self.9, self.10, self.11, self.12, self.13, self.14, self.15).items().then_list((self.16, self.17, self.18, self.19).items())
    }

    fn lower_projection(&self) -> (items: List<ProjectionTree<Bound<B>>>) {
        let front = (self.0.duplicate(), self.1.duplicate(), self.2.duplicate(), self.3.duplicate(), self.4.duplicate(), self.5.duplicate(), self.6.duplicate(), self.7.duplicate(), self.8.duplicate(), self.9.duplicate(), self.10.duplicate(), self.11.duplicate(), self.12.duplicate(), self.13.duplicate(), self.14.duplicate(), self.15.duplicate());
        let back = (self.16.duplicate(), self.17.duplicate(), self.18.duplicate(), self.19.duplicate());
        front.lower_projection().append(back.lower_projection())
    }

    fn lower_projection_with_prefix(&self, prefix: &str) -> (items: List<
        ProjectionTree<Bound<B>>,
    >) {
        let front = (self.0.duplicate(), self.1.duplicate(), self.2.duplicate(), self.3.duplicate(), self.4.duplicate(), self.5.duplicate(), self.6.duplicate(), self.7.duplicate(), self.8.duplicate(), self.9.duplicate(), self.10.duplicate(), self.11.duplicate(), self.12.duplicate(), self.13.duplicate(), self.14.duplicate(), self.15.duplicate());
        let back = (self.16.duplicate(), self.17.duplicate(), self.18.duplicate(), self.19.duplicate());
        let first = front.lower_projection_with_prefix(prefix);
        let rest = back.lower_projection_with_prefix(prefix);
        proof {
            crate::projection::lemma_prefixed_parts(front.items(), back.items(), prefix@, first, rest);
        }
        first.append(rest)
    }

    proof fn lemma_projection_params<D: Dialect>(&self, dialect: D, bare: bool, lead: Seq<char>) {
        let front = (self.0, self.1, self.2, self.3, self.4, self.5, self.6, self.7, self.8, self.9, self.10, self.11, self.12, self.13, self.14, self.15);
        let back = (self.16, self.17, self.18, self.19);
        let between = if front.items() is Nil { lead } else { ", "@ };
        front.lemma_projection_params(dialect, bare, lead);
        back.lemma_projection_params(dialect, bare, between);
        crate::projection::lemma_projection_parts(dialect, bare, lead, front.items(), back.items());
        <<(T0, T1, T2, T3, T4, T5, T6, T7, T8, T9, T10, T11, T12, T13, T14, T15) as ProjectionParams>::Params as HAppend<<(T16, T17, T18, T19) as ProjectionParams>::Params>>::lemma_append_width();
    }

    proof fn lemma_projection_plain(&self) {
        let front = (self.0, self.1, self.2, self.3, self.4, self.5, self.6, self.7, self.8, self.9, self.10, self.11, self.12, self.13, self.14, self.15);
        let back = (self.16, self.17, self.18, self.19);
        <<(T0, T1, T2, T3, T4, T5, T6, T7, T8, T9, T10, T11, T12, T13, T14, T15) as ProjectionParams>::Params as HAppend<<(T16, T17, T18, T19) as ProjectionParams>::Params>>::lemma_append_width();
        front.lemma_projection_plain();
        back.lemma_projection_plain();
        crate::projection::lemma_plain_parts(front.items(), back.items());
    }
}

impl<'scope, T0: ReturningProjection<'scope>, T1: ReturningProjection<'scope>, T2: ReturningProjection<'scope>, T3: ReturningProjection<'scope>, T4: ReturningProjection<'scope>, T5: ReturningProjection<'scope>, T6: ReturningProjection<'scope>, T7: ReturningProjection<'scope>, T8: ReturningProjection<'scope>, T9: ReturningProjection<'scope>, T10: ReturningProjection<'scope>, T11: ReturningProjection<'scope>, T12: ReturningProjection<'scope>, T13: ReturningProjection<'scope>, T14: ReturningProjection<'scope>, T15: ReturningProjection<'scope>, T16: ReturningProjection<'scope>, T17: ReturningProjection<'scope>, T18: ReturningProjection<'scope>, T19: ReturningProjection<'scope>> ReturningProjection<'scope> for (T0, T1, T2, T3, T4, T5, T6, T7, T8, T9, T10, T11, T12, T13, T14, T15, T16, T17, T18, T19) {
    type Shape = (T0::Shape, T1::Shape, T2::Shape, T3::Shape, T4::Shape, T5::Shape, T6::Shape, T7::Shape, T8::Shape, T9::Shape, T10::Shape, T11::Shape, T12::Shape, T13::Shape, T14::Shape, T15::Shape, T16::Shape, T17::Shape, T18::Shape, T19::Shape);
}

impl<T0: Projectable, T1: Projectable, T2: Projectable, T3: Projectable, T4: Projectable, T5: Projectable, T6: Projectable, T7: Projectable, T8: Projectable, T9: Projectable, T10: Projectable, T11: Projectable, T12: Projectable, T13: Projectable, T14: Projectable, T15: Projectable, T16: Projectable, T17: Projectable, T18: Projectable, T19: Projectable, T20: Projectable> Projectable for (T0, T1, T2, T3, T4, T5, T6, T7, T8, T9, T10, T11, T12, T13, T14, T15, T16, T17, T18, T19, T20) {
    type Rebound<'scope> = (T0::Rebound<'scope>, T1::Rebound<'scope>, T2::Rebound<'scope>, T3::Rebound<'scope>, T4::Rebound<'scope>, T5::Rebound<'scope>, T6::Rebound<'scope>, T7::Rebound<'scope>, T8::Rebound<'scope>, T9::Rebound<'scope>, T10::Rebound<'scope>, T11::Rebound<'scope>, T12::Rebound<'scope>, T13::Rebound<'scope>, T14::Rebound<'scope>, T15::Rebound<'scope>, T16::Rebound<'scope>, T17::Rebound<'scope>, T18::Rebound<'scope>, T19::Rebound<'scope>, T20::Rebound<'scope>);

    open spec fn rebound<'scope>(&self, alias: SourceAlias) -> Self::Rebound<'scope> {
        (self.0.rebound(alias), self.1.rebound(alias), self.2.rebound(alias), self.3.rebound(alias), self.4.rebound(alias), self.5.rebound(alias), self.6.rebound(alias), self.7.rebound(alias), self.8.rebound(alias), self.9.rebound(alias), self.10.rebound(alias), self.11.rebound(alias), self.12.rebound(alias), self.13.rebound(alias), self.14.rebound(alias), self.15.rebound(alias), self.16.rebound(alias), self.17.rebound(alias), self.18.rebound(alias), self.19.rebound(alias), self.20.rebound(alias))
    }

    open spec fn rebinds_with_prefix<'scope>(
        &self,
        alias: SourceAlias,
        prefix: Seq<char>,
        rebound: Self::Rebound<'scope>,
    ) -> bool {
        &&& self.0.rebinds_with_prefix(alias, prefix, rebound.0)
        &&& self.1.rebinds_with_prefix(alias, prefix, rebound.1)
        &&& self.2.rebinds_with_prefix(alias, prefix, rebound.2)
        &&& self.3.rebinds_with_prefix(alias, prefix, rebound.3)
        &&& self.4.rebinds_with_prefix(alias, prefix, rebound.4)
        &&& self.5.rebinds_with_prefix(alias, prefix, rebound.5)
        &&& self.6.rebinds_with_prefix(alias, prefix, rebound.6)
        &&& self.7.rebinds_with_prefix(alias, prefix, rebound.7)
        &&& self.8.rebinds_with_prefix(alias, prefix, rebound.8)
        &&& self.9.rebinds_with_prefix(alias, prefix, rebound.9)
        &&& self.10.rebinds_with_prefix(alias, prefix, rebound.10)
        &&& self.11.rebinds_with_prefix(alias, prefix, rebound.11)
        &&& self.12.rebinds_with_prefix(alias, prefix, rebound.12)
        &&& self.13.rebinds_with_prefix(alias, prefix, rebound.13)
        &&& self.14.rebinds_with_prefix(alias, prefix, rebound.14)
        &&& self.15.rebinds_with_prefix(alias, prefix, rebound.15)
        &&& self.16.rebinds_with_prefix(alias, prefix, rebound.16)
        &&& self.17.rebinds_with_prefix(alias, prefix, rebound.17)
        &&& self.18.rebinds_with_prefix(alias, prefix, rebound.18)
        &&& self.19.rebinds_with_prefix(alias, prefix, rebound.19)
        &&& self.20.rebinds_with_prefix(alias, prefix, rebound.20)
    }

    fn re_alias<'scope>(&self, alias: SourceAlias) -> (rebound: Self::Rebound<'scope>) {
        (self.0.re_alias(alias), self.1.re_alias(alias), self.2.re_alias(alias), self.3.re_alias(alias), self.4.re_alias(alias), self.5.re_alias(alias), self.6.re_alias(alias), self.7.re_alias(alias), self.8.re_alias(alias), self.9.re_alias(alias), self.10.re_alias(alias), self.11.re_alias(alias), self.12.re_alias(alias), self.13.re_alias(alias), self.14.re_alias(alias), self.15.re_alias(alias), self.16.re_alias(alias), self.17.re_alias(alias), self.18.re_alias(alias), self.19.re_alias(alias), self.20.re_alias(alias))
    }

    fn re_alias_with_prefix<'scope>(&self, alias: SourceAlias, prefix: &str) -> (rebound:
        Self::Rebound<'scope>) {
        (self.0.re_alias_with_prefix(alias, prefix), self.1.re_alias_with_prefix(alias, prefix), self.2.re_alias_with_prefix(alias, prefix), self.3.re_alias_with_prefix(alias, prefix), self.4.re_alias_with_prefix(alias, prefix), self.5.re_alias_with_prefix(alias, prefix), self.6.re_alias_with_prefix(alias, prefix), self.7.re_alias_with_prefix(alias, prefix), self.8.re_alias_with_prefix(alias, prefix), self.9.re_alias_with_prefix(alias, prefix), self.10.re_alias_with_prefix(alias, prefix), self.11.re_alias_with_prefix(alias, prefix), self.12.re_alias_with_prefix(alias, prefix), self.13.re_alias_with_prefix(alias, prefix), self.14.re_alias_with_prefix(alias, prefix), self.15.re_alias_with_prefix(alias, prefix), self.16.re_alias_with_prefix(alias, prefix), self.17.re_alias_with_prefix(alias, prefix), self.18.re_alias_with_prefix(alias, prefix), self.19.re_alias_with_prefix(alias, prefix), self.20.re_alias_with_prefix(alias, prefix))
    }
}

impl<T0: Duplicate, T1: Duplicate, T2: Duplicate, T3: Duplicate, T4: Duplicate, T5: Duplicate, T6: Duplicate, T7: Duplicate, T8: Duplicate, T9: Duplicate, T10: Duplicate, T11: Duplicate, T12: Duplicate, T13: Duplicate, T14: Duplicate, T15: Duplicate, T16: Duplicate, T17: Duplicate, T18: Duplicate, T19: Duplicate, T20: Duplicate> Duplicate for (T0, T1, T2, T3, T4, T5, T6, T7, T8, T9, T10, T11, T12, T13, T14, T15, T16, T17, T18, T19, T20) {
    fn duplicate(&self) -> (copy: Self) {
        (self.0.duplicate(), self.1.duplicate(), self.2.duplicate(), self.3.duplicate(), self.4.duplicate(), self.5.duplicate(), self.6.duplicate(), self.7.duplicate(), self.8.duplicate(), self.9.duplicate(), self.10.duplicate(), self.11.duplicate(), self.12.duplicate(), self.13.duplicate(), self.14.duplicate(), self.15.duplicate(), self.16.duplicate(), self.17.duplicate(), self.18.duplicate(), self.19.duplicate(), self.20.duplicate())
    }
}

impl<T0: ProjectionShape, T1: ProjectionShape, T2: ProjectionShape, T3: ProjectionShape, T4: ProjectionShape, T5: ProjectionShape, T6: ProjectionShape, T7: ProjectionShape, T8: ProjectionShape, T9: ProjectionShape, T10: ProjectionShape, T11: ProjectionShape, T12: ProjectionShape, T13: ProjectionShape, T14: ProjectionShape, T15: ProjectionShape, T16: ProjectionShape, T17: ProjectionShape, T18: ProjectionShape, T19: ProjectionShape, T20: ProjectionShape> ProjectionShape for (T0, T1, T2, T3, T4, T5, T6, T7, T8, T9, T10, T11, T12, T13, T14, T15, T16, T17, T18, T19, T20) {
    type Exprs<'scope> = (T0::Exprs<'scope>, T1::Exprs<'scope>, T2::Exprs<'scope>, T3::Exprs<'scope>, T4::Exprs<'scope>, T5::Exprs<'scope>, T6::Exprs<'scope>, T7::Exprs<'scope>, T8::Exprs<'scope>, T9::Exprs<'scope>, T10::Exprs<'scope>, T11::Exprs<'scope>, T12::Exprs<'scope>, T13::Exprs<'scope>, T14::Exprs<'scope>, T15::Exprs<'scope>, T16::Exprs<'scope>, T17::Exprs<'scope>, T18::Exprs<'scope>, T19::Exprs<'scope>, T20::Exprs<'scope>);

    type ReboundExprs<'scope> = (T0::ReboundExprs<'scope>, T1::ReboundExprs<'scope>, T2::ReboundExprs<'scope>, T3::ReboundExprs<'scope>, T4::ReboundExprs<'scope>, T5::ReboundExprs<'scope>, T6::ReboundExprs<'scope>, T7::ReboundExprs<'scope>, T8::ReboundExprs<'scope>, T9::ReboundExprs<'scope>, T10::ReboundExprs<'scope>, T11::ReboundExprs<'scope>, T12::ReboundExprs<'scope>, T13::ReboundExprs<'scope>, T14::ReboundExprs<'scope>, T15::ReboundExprs<'scope>, T16::ReboundExprs<'scope>, T17::ReboundExprs<'scope>, T18::ReboundExprs<'scope>, T19::ReboundExprs<'scope>, T20::ReboundExprs<'scope>);

    type Row = (T0::Row, T1::Row, T2::Row, T3::Row, T4::Row, T5::Row, T6::Row, T7::Row, T8::Row, T9::Row, T10::Row, T11::Row, T12::Row, T13::Row, T14::Row, T15::Row, T16::Row, T17::Row, T18::Row, T19::Row, T20::Row);

    open spec fn shape_exprs<'scope>(alias: SourceAlias) -> Self::Exprs<'scope> {
        (T0::shape_exprs(alias), T1::shape_exprs(alias), T2::shape_exprs(alias), T3::shape_exprs(alias), T4::shape_exprs(alias), T5::shape_exprs(alias), T6::shape_exprs(alias), T7::shape_exprs(alias), T8::shape_exprs(alias), T9::shape_exprs(alias), T10::shape_exprs(alias), T11::shape_exprs(alias), T12::shape_exprs(alias), T13::shape_exprs(alias), T14::shape_exprs(alias), T15::shape_exprs(alias), T16::shape_exprs(alias), T17::shape_exprs(alias), T18::shape_exprs(alias), T19::shape_exprs(alias), T20::shape_exprs(alias))
    }

    open spec fn shape_rebound<'scope>(alias: SourceAlias) -> Self::ReboundExprs<'scope> {
        (T0::shape_rebound(alias), T1::shape_rebound(alias), T2::shape_rebound(alias), T3::shape_rebound(alias), T4::shape_rebound(alias), T5::shape_rebound(alias), T6::shape_rebound(alias), T7::shape_rebound(alias), T8::shape_rebound(alias), T9::shape_rebound(alias), T10::shape_rebound(alias), T11::shape_rebound(alias), T12::shape_rebound(alias), T13::shape_rebound(alias), T14::shape_rebound(alias), T15::shape_rebound(alias), T16::shape_rebound(alias), T17::shape_rebound(alias), T18::shape_rebound(alias), T19::shape_rebound(alias), T20::shape_rebound(alias))
    }

    fn exprs<'scope>(alias: SourceAlias) -> (exprs: Self::Exprs<'scope>) {
        (T0::exprs(alias), T1::exprs(alias), T2::exprs(alias), T3::exprs(alias), T4::exprs(alias), T5::exprs(alias), T6::exprs(alias), T7::exprs(alias), T8::exprs(alias), T9::exprs(alias), T10::exprs(alias), T11::exprs(alias), T12::exprs(alias), T13::exprs(alias), T14::exprs(alias), T15::exprs(alias), T16::exprs(alias), T17::exprs(alias), T18::exprs(alias), T19::exprs(alias), T20::exprs(alias))
    }

    fn rebound_exprs<'scope>(alias: SourceAlias) -> (exprs: Self::ReboundExprs<'scope>) {
        (T0::rebound_exprs(alias), T1::rebound_exprs(alias), T2::rebound_exprs(alias), T3::rebound_exprs(alias), T4::rebound_exprs(alias), T5::rebound_exprs(alias), T6::rebound_exprs(alias), T7::rebound_exprs(alias), T8::rebound_exprs(alias), T9::rebound_exprs(alias), T10::rebound_exprs(alias), T11::rebound_exprs(alias), T12::rebound_exprs(alias), T13::rebound_exprs(alias), T14::rebound_exprs(alias), T15::rebound_exprs(alias), T16::rebound_exprs(alias), T17::rebound_exprs(alias), T18::rebound_exprs(alias), T19::rebound_exprs(alias), T20::rebound_exprs(alias))
    }
}

impl<T0, T1, T2, T3, T4, T5, T6, T7, T8, T9, T10, T11, T12, T13, T14, T15, T16, T17, T18, T19, T20> ProjectionParams for (T0, T1, T2, T3, T4, T5, T6, T7, T8, T9, T10, T11, T12, T13, T14, T15, T16, T17, T18, T19, T20) where
    (T0, T1, T2, T3, T4, T5, T6, T7, T8, T9, T10, T11, T12, T13, T14, T15): ProjectionParams,
    (T16, T17, T18, T19, T20): ProjectionParams,
    <(T0, T1, T2, T3, T4, T5, T6, T7, T8, T9, T10, T11, T12, T13, T14, T15) as ProjectionParams>::Params: HAppend<<(T16, T17, T18, T19, T20) as ProjectionParams>::Params>,
 {
    type Params = <<(T0, T1, T2, T3, T4, T5, T6, T7, T8, T9, T10, T11, T12, T13, T14, T15) as ProjectionParams>::Params as HAppend<<(T16, T17, T18, T19, T20) as ProjectionParams>::Params>>::Output;
}

impl<T0: ProjectionClass, T1: ProjectionClass<Class = T0::Class>, T2: ProjectionClass<Class = T0::Class>, T3: ProjectionClass<Class = T0::Class>, T4: ProjectionClass<Class = T0::Class>, T5: ProjectionClass<Class = T0::Class>, T6: ProjectionClass<Class = T0::Class>, T7: ProjectionClass<Class = T0::Class>, T8: ProjectionClass<Class = T0::Class>, T9: ProjectionClass<Class = T0::Class>, T10: ProjectionClass<Class = T0::Class>, T11: ProjectionClass<Class = T0::Class>, T12: ProjectionClass<Class = T0::Class>, T13: ProjectionClass<Class = T0::Class>, T14: ProjectionClass<Class = T0::Class>, T15: ProjectionClass<Class = T0::Class>, T16: ProjectionClass<Class = T0::Class>, T17: ProjectionClass<Class = T0::Class>, T18: ProjectionClass<Class = T0::Class>, T19: ProjectionClass<Class = T0::Class>, T20: ProjectionClass<Class = T0::Class>> ProjectionClass for (T0, T1, T2, T3, T4, T5, T6, T7, T8, T9, T10, T11, T12, T13, T14, T15, T16, T17, T18, T19, T20) {
    type Class = T0::Class;
}

impl<T0: ReturnableProjection, T1: ReturnableProjection, T2: ReturnableProjection, T3: ReturnableProjection, T4: ReturnableProjection, T5: ReturnableProjection, T6: ReturnableProjection, T7: ReturnableProjection, T8: ReturnableProjection, T9: ReturnableProjection, T10: ReturnableProjection, T11: ReturnableProjection, T12: ReturnableProjection, T13: ReturnableProjection, T14: ReturnableProjection, T15: ReturnableProjection, T16: ReturnableProjection, T17: ReturnableProjection, T18: ReturnableProjection, T19: ReturnableProjection, T20: ReturnableProjection> ReturnableProjection for (T0, T1, T2, T3, T4, T5, T6, T7, T8, T9, T10, T11, T12, T13, T14, T15, T16, T17, T18, T19, T20) {

}

impl<T0: Projectable, T1: Projectable, T2: Projectable, T3: Projectable, T4: Projectable, T5: Projectable, T6: Projectable, T7: Projectable, T8: Projectable, T9: Projectable, T10: Projectable, T11: Projectable, T12: Projectable, T13: Projectable, T14: Projectable, T15: Projectable, T16: Projectable, T17: Projectable, T18: Projectable, T19: Projectable, T20: Projectable, B: Backend> RenderProjectable<B> for (T0, T1, T2, T3, T4, T5, T6, T7, T8, T9, T10, T11, T12, T13, T14, T15, T16, T17, T18, T19, T20) where
    (T0, T1, T2, T3, T4, T5, T6, T7, T8, T9, T10, T11, T12, T13, T14, T15): RenderProjectable<B>,
    (T16, T17, T18, T19, T20): RenderProjectable<B>,
    <(T0, T1, T2, T3, T4, T5, T6, T7, T8, T9, T10, T11, T12, T13, T14, T15) as ProjectionParams>::Params: HAppend<<(T16, T17, T18, T19, T20) as ProjectionParams>::Params>,
 {
    open spec fn items(&self) -> List<ProjectionTree<Bound<B>>> {
        (self.0, self.1, self.2, self.3, self.4, self.5, self.6, self.7, self.8, self.9, self.10, self.11, self.12, self.13, self.14, self.15).items().then_list((self.16, self.17, self.18, self.19, self.20).items())
    }

    fn lower_projection(&self) -> (items: List<ProjectionTree<Bound<B>>>) {
        let front = (self.0.duplicate(), self.1.duplicate(), self.2.duplicate(), self.3.duplicate(), self.4.duplicate(), self.5.duplicate(), self.6.duplicate(), self.7.duplicate(), self.8.duplicate(), self.9.duplicate(), self.10.duplicate(), self.11.duplicate(), self.12.duplicate(), self.13.duplicate(), self.14.duplicate(), self.15.duplicate());
        let back = (self.16.duplicate(), self.17.duplicate(), self.18.duplicate(), self.19.duplicate(), self.20.duplicate());
        front.lower_projection().append(back.lower_projection())
    }

    fn lower_projection_with_prefix(&self, prefix: &str) -> (items: List<
        ProjectionTree<Bound<B>>,
    >) {
        let front = (self.0.duplicate(), self.1.duplicate(), self.2.duplicate(), self.3.duplicate(), self.4.duplicate(), self.5.duplicate(), self.6.duplicate(), self.7.duplicate(), self.8.duplicate(), self.9.duplicate(), self.10.duplicate(), self.11.duplicate(), self.12.duplicate(), self.13.duplicate(), self.14.duplicate(), self.15.duplicate());
        let back = (self.16.duplicate(), self.17.duplicate(), self.18.duplicate(), self.19.duplicate(), self.20.duplicate());
        let first = front.lower_projection_with_prefix(prefix);
        let rest = back.lower_projection_with_prefix(prefix);
        proof {
            crate::projection::lemma_prefixed_parts(front.items(), back.items(), prefix@, first, rest);
        }
        first.append(rest)
    }

    proof fn lemma_projection_params<D: Dialect>(&self, dialect: D, bare: bool, lead: Seq<char>) {
        let front = (self.0, self.1, self.2, self.3, self.4, self.5, self.6, self.7, self.8, self.9, self.10, self.11, self.12, self.13, self.14, self.15);
        let back = (self.16, self.17, self.18, self.19, self.20);
        let between = if front.items() is Nil { lead } else { ", "@ };
        front.lemma_projection_params(dialect, bare, lead);
        back.lemma_projection_params(dialect, bare, between);
        crate::projection::lemma_projection_parts(dialect, bare, lead, front.items(), back.items());
        <<(T0, T1, T2, T3, T4, T5, T6, T7, T8, T9, T10, T11, T12, T13, T14, T15) as ProjectionParams>::Params as HAppend<<(T16, T17, T18, T19, T20) as ProjectionParams>::Params>>::lemma_append_width();
    }

    proof fn lemma_projection_plain(&self) {
        let front = (self.0, self.1, self.2, self.3, self.4, self.5, self.6, self.7, self.8, self.9, self.10, self.11, self.12, self.13, self.14, self.15);
        let back = (self.16, self.17, self.18, self.19, self.20);
        <<(T0, T1, T2, T3, T4, T5, T6, T7, T8, T9, T10, T11, T12, T13, T14, T15) as ProjectionParams>::Params as HAppend<<(T16, T17, T18, T19, T20) as ProjectionParams>::Params>>::lemma_append_width();
        front.lemma_projection_plain();
        back.lemma_projection_plain();
        crate::projection::lemma_plain_parts(front.items(), back.items());
    }
}

impl<'scope, T0: ReturningProjection<'scope>, T1: ReturningProjection<'scope>, T2: ReturningProjection<'scope>, T3: ReturningProjection<'scope>, T4: ReturningProjection<'scope>, T5: ReturningProjection<'scope>, T6: ReturningProjection<'scope>, T7: ReturningProjection<'scope>, T8: ReturningProjection<'scope>, T9: ReturningProjection<'scope>, T10: ReturningProjection<'scope>, T11: ReturningProjection<'scope>, T12: ReturningProjection<'scope>, T13: ReturningProjection<'scope>, T14: ReturningProjection<'scope>, T15: ReturningProjection<'scope>, T16: ReturningProjection<'scope>, T17: ReturningProjection<'scope>, T18: ReturningProjection<'scope>, T19: ReturningProjection<'scope>, T20: ReturningProjection<'scope>> ReturningProjection<'scope> for (T0, T1, T2, T3, T4, T5, T6, T7, T8, T9, T10, T11, T12, T13, T14, T15, T16, T17, T18, T19, T20) {
    type Shape = (T0::Shape, T1::Shape, T2::Shape, T3::Shape, T4::Shape, T5::Shape, T6::Shape, T7::Shape, T8::Shape, T9::Shape, T10::Shape, T11::Shape, T12::Shape, T13::Shape, T14::Shape, T15::Shape, T16::Shape, T17::Shape, T18::Shape, T19::Shape, T20::Shape);
}

impl<T0: Projectable, T1: Projectable, T2: Projectable, T3: Projectable, T4: Projectable, T5: Projectable, T6: Projectable, T7: Projectable, T8: Projectable, T9: Projectable, T10: Projectable, T11: Projectable, T12: Projectable, T13: Projectable, T14: Projectable, T15: Projectable, T16: Projectable, T17: Projectable, T18: Projectable, T19: Projectable, T20: Projectable, T21: Projectable> Projectable for (T0, T1, T2, T3, T4, T5, T6, T7, T8, T9, T10, T11, T12, T13, T14, T15, T16, T17, T18, T19, T20, T21) {
    type Rebound<'scope> = (T0::Rebound<'scope>, T1::Rebound<'scope>, T2::Rebound<'scope>, T3::Rebound<'scope>, T4::Rebound<'scope>, T5::Rebound<'scope>, T6::Rebound<'scope>, T7::Rebound<'scope>, T8::Rebound<'scope>, T9::Rebound<'scope>, T10::Rebound<'scope>, T11::Rebound<'scope>, T12::Rebound<'scope>, T13::Rebound<'scope>, T14::Rebound<'scope>, T15::Rebound<'scope>, T16::Rebound<'scope>, T17::Rebound<'scope>, T18::Rebound<'scope>, T19::Rebound<'scope>, T20::Rebound<'scope>, T21::Rebound<'scope>);

    open spec fn rebound<'scope>(&self, alias: SourceAlias) -> Self::Rebound<'scope> {
        (self.0.rebound(alias), self.1.rebound(alias), self.2.rebound(alias), self.3.rebound(alias), self.4.rebound(alias), self.5.rebound(alias), self.6.rebound(alias), self.7.rebound(alias), self.8.rebound(alias), self.9.rebound(alias), self.10.rebound(alias), self.11.rebound(alias), self.12.rebound(alias), self.13.rebound(alias), self.14.rebound(alias), self.15.rebound(alias), self.16.rebound(alias), self.17.rebound(alias), self.18.rebound(alias), self.19.rebound(alias), self.20.rebound(alias), self.21.rebound(alias))
    }

    open spec fn rebinds_with_prefix<'scope>(
        &self,
        alias: SourceAlias,
        prefix: Seq<char>,
        rebound: Self::Rebound<'scope>,
    ) -> bool {
        &&& self.0.rebinds_with_prefix(alias, prefix, rebound.0)
        &&& self.1.rebinds_with_prefix(alias, prefix, rebound.1)
        &&& self.2.rebinds_with_prefix(alias, prefix, rebound.2)
        &&& self.3.rebinds_with_prefix(alias, prefix, rebound.3)
        &&& self.4.rebinds_with_prefix(alias, prefix, rebound.4)
        &&& self.5.rebinds_with_prefix(alias, prefix, rebound.5)
        &&& self.6.rebinds_with_prefix(alias, prefix, rebound.6)
        &&& self.7.rebinds_with_prefix(alias, prefix, rebound.7)
        &&& self.8.rebinds_with_prefix(alias, prefix, rebound.8)
        &&& self.9.rebinds_with_prefix(alias, prefix, rebound.9)
        &&& self.10.rebinds_with_prefix(alias, prefix, rebound.10)
        &&& self.11.rebinds_with_prefix(alias, prefix, rebound.11)
        &&& self.12.rebinds_with_prefix(alias, prefix, rebound.12)
        &&& self.13.rebinds_with_prefix(alias, prefix, rebound.13)
        &&& self.14.rebinds_with_prefix(alias, prefix, rebound.14)
        &&& self.15.rebinds_with_prefix(alias, prefix, rebound.15)
        &&& self.16.rebinds_with_prefix(alias, prefix, rebound.16)
        &&& self.17.rebinds_with_prefix(alias, prefix, rebound.17)
        &&& self.18.rebinds_with_prefix(alias, prefix, rebound.18)
        &&& self.19.rebinds_with_prefix(alias, prefix, rebound.19)
        &&& self.20.rebinds_with_prefix(alias, prefix, rebound.20)
        &&& self.21.rebinds_with_prefix(alias, prefix, rebound.21)
    }

    fn re_alias<'scope>(&self, alias: SourceAlias) -> (rebound: Self::Rebound<'scope>) {
        (self.0.re_alias(alias), self.1.re_alias(alias), self.2.re_alias(alias), self.3.re_alias(alias), self.4.re_alias(alias), self.5.re_alias(alias), self.6.re_alias(alias), self.7.re_alias(alias), self.8.re_alias(alias), self.9.re_alias(alias), self.10.re_alias(alias), self.11.re_alias(alias), self.12.re_alias(alias), self.13.re_alias(alias), self.14.re_alias(alias), self.15.re_alias(alias), self.16.re_alias(alias), self.17.re_alias(alias), self.18.re_alias(alias), self.19.re_alias(alias), self.20.re_alias(alias), self.21.re_alias(alias))
    }

    fn re_alias_with_prefix<'scope>(&self, alias: SourceAlias, prefix: &str) -> (rebound:
        Self::Rebound<'scope>) {
        (self.0.re_alias_with_prefix(alias, prefix), self.1.re_alias_with_prefix(alias, prefix), self.2.re_alias_with_prefix(alias, prefix), self.3.re_alias_with_prefix(alias, prefix), self.4.re_alias_with_prefix(alias, prefix), self.5.re_alias_with_prefix(alias, prefix), self.6.re_alias_with_prefix(alias, prefix), self.7.re_alias_with_prefix(alias, prefix), self.8.re_alias_with_prefix(alias, prefix), self.9.re_alias_with_prefix(alias, prefix), self.10.re_alias_with_prefix(alias, prefix), self.11.re_alias_with_prefix(alias, prefix), self.12.re_alias_with_prefix(alias, prefix), self.13.re_alias_with_prefix(alias, prefix), self.14.re_alias_with_prefix(alias, prefix), self.15.re_alias_with_prefix(alias, prefix), self.16.re_alias_with_prefix(alias, prefix), self.17.re_alias_with_prefix(alias, prefix), self.18.re_alias_with_prefix(alias, prefix), self.19.re_alias_with_prefix(alias, prefix), self.20.re_alias_with_prefix(alias, prefix), self.21.re_alias_with_prefix(alias, prefix))
    }
}

impl<T0: Duplicate, T1: Duplicate, T2: Duplicate, T3: Duplicate, T4: Duplicate, T5: Duplicate, T6: Duplicate, T7: Duplicate, T8: Duplicate, T9: Duplicate, T10: Duplicate, T11: Duplicate, T12: Duplicate, T13: Duplicate, T14: Duplicate, T15: Duplicate, T16: Duplicate, T17: Duplicate, T18: Duplicate, T19: Duplicate, T20: Duplicate, T21: Duplicate> Duplicate for (T0, T1, T2, T3, T4, T5, T6, T7, T8, T9, T10, T11, T12, T13, T14, T15, T16, T17, T18, T19, T20, T21) {
    fn duplicate(&self) -> (copy: Self) {
        (self.0.duplicate(), self.1.duplicate(), self.2.duplicate(), self.3.duplicate(), self.4.duplicate(), self.5.duplicate(), self.6.duplicate(), self.7.duplicate(), self.8.duplicate(), self.9.duplicate(), self.10.duplicate(), self.11.duplicate(), self.12.duplicate(), self.13.duplicate(), self.14.duplicate(), self.15.duplicate(), self.16.duplicate(), self.17.duplicate(), self.18.duplicate(), self.19.duplicate(), self.20.duplicate(), self.21.duplicate())
    }
}

impl<T0: ProjectionShape, T1: ProjectionShape, T2: ProjectionShape, T3: ProjectionShape, T4: ProjectionShape, T5: ProjectionShape, T6: ProjectionShape, T7: ProjectionShape, T8: ProjectionShape, T9: ProjectionShape, T10: ProjectionShape, T11: ProjectionShape, T12: ProjectionShape, T13: ProjectionShape, T14: ProjectionShape, T15: ProjectionShape, T16: ProjectionShape, T17: ProjectionShape, T18: ProjectionShape, T19: ProjectionShape, T20: ProjectionShape, T21: ProjectionShape> ProjectionShape for (T0, T1, T2, T3, T4, T5, T6, T7, T8, T9, T10, T11, T12, T13, T14, T15, T16, T17, T18, T19, T20, T21) {
    type Exprs<'scope> = (T0::Exprs<'scope>, T1::Exprs<'scope>, T2::Exprs<'scope>, T3::Exprs<'scope>, T4::Exprs<'scope>, T5::Exprs<'scope>, T6::Exprs<'scope>, T7::Exprs<'scope>, T8::Exprs<'scope>, T9::Exprs<'scope>, T10::Exprs<'scope>, T11::Exprs<'scope>, T12::Exprs<'scope>, T13::Exprs<'scope>, T14::Exprs<'scope>, T15::Exprs<'scope>, T16::Exprs<'scope>, T17::Exprs<'scope>, T18::Exprs<'scope>, T19::Exprs<'scope>, T20::Exprs<'scope>, T21::Exprs<'scope>);

    type ReboundExprs<'scope> = (T0::ReboundExprs<'scope>, T1::ReboundExprs<'scope>, T2::ReboundExprs<'scope>, T3::ReboundExprs<'scope>, T4::ReboundExprs<'scope>, T5::ReboundExprs<'scope>, T6::ReboundExprs<'scope>, T7::ReboundExprs<'scope>, T8::ReboundExprs<'scope>, T9::ReboundExprs<'scope>, T10::ReboundExprs<'scope>, T11::ReboundExprs<'scope>, T12::ReboundExprs<'scope>, T13::ReboundExprs<'scope>, T14::ReboundExprs<'scope>, T15::ReboundExprs<'scope>, T16::ReboundExprs<'scope>, T17::ReboundExprs<'scope>, T18::ReboundExprs<'scope>, T19::ReboundExprs<'scope>, T20::ReboundExprs<'scope>, T21::ReboundExprs<'scope>);

    type Row = (T0::Row, T1::Row, T2::Row, T3::Row, T4::Row, T5::Row, T6::Row, T7::Row, T8::Row, T9::Row, T10::Row, T11::Row, T12::Row, T13::Row, T14::Row, T15::Row, T16::Row, T17::Row, T18::Row, T19::Row, T20::Row, T21::Row);

    open spec fn shape_exprs<'scope>(alias: SourceAlias) -> Self::Exprs<'scope> {
        (T0::shape_exprs(alias), T1::shape_exprs(alias), T2::shape_exprs(alias), T3::shape_exprs(alias), T4::shape_exprs(alias), T5::shape_exprs(alias), T6::shape_exprs(alias), T7::shape_exprs(alias), T8::shape_exprs(alias), T9::shape_exprs(alias), T10::shape_exprs(alias), T11::shape_exprs(alias), T12::shape_exprs(alias), T13::shape_exprs(alias), T14::shape_exprs(alias), T15::shape_exprs(alias), T16::shape_exprs(alias), T17::shape_exprs(alias), T18::shape_exprs(alias), T19::shape_exprs(alias), T20::shape_exprs(alias), T21::shape_exprs(alias))
    }

    open spec fn shape_rebound<'scope>(alias: SourceAlias) -> Self::ReboundExprs<'scope> {
        (T0::shape_rebound(alias), T1::shape_rebound(alias), T2::shape_rebound(alias), T3::shape_rebound(alias), T4::shape_rebound(alias), T5::shape_rebound(alias), T6::shape_rebound(alias), T7::shape_rebound(alias), T8::shape_rebound(alias), T9::shape_rebound(alias), T10::shape_rebound(alias), T11::shape_rebound(alias), T12::shape_rebound(alias), T13::shape_rebound(alias), T14::shape_rebound(alias), T15::shape_rebound(alias), T16::shape_rebound(alias), T17::shape_rebound(alias), T18::shape_rebound(alias), T19::shape_rebound(alias), T20::shape_rebound(alias), T21::shape_rebound(alias))
    }

    fn exprs<'scope>(alias: SourceAlias) -> (exprs: Self::Exprs<'scope>) {
        (T0::exprs(alias), T1::exprs(alias), T2::exprs(alias), T3::exprs(alias), T4::exprs(alias), T5::exprs(alias), T6::exprs(alias), T7::exprs(alias), T8::exprs(alias), T9::exprs(alias), T10::exprs(alias), T11::exprs(alias), T12::exprs(alias), T13::exprs(alias), T14::exprs(alias), T15::exprs(alias), T16::exprs(alias), T17::exprs(alias), T18::exprs(alias), T19::exprs(alias), T20::exprs(alias), T21::exprs(alias))
    }

    fn rebound_exprs<'scope>(alias: SourceAlias) -> (exprs: Self::ReboundExprs<'scope>) {
        (T0::rebound_exprs(alias), T1::rebound_exprs(alias), T2::rebound_exprs(alias), T3::rebound_exprs(alias), T4::rebound_exprs(alias), T5::rebound_exprs(alias), T6::rebound_exprs(alias), T7::rebound_exprs(alias), T8::rebound_exprs(alias), T9::rebound_exprs(alias), T10::rebound_exprs(alias), T11::rebound_exprs(alias), T12::rebound_exprs(alias), T13::rebound_exprs(alias), T14::rebound_exprs(alias), T15::rebound_exprs(alias), T16::rebound_exprs(alias), T17::rebound_exprs(alias), T18::rebound_exprs(alias), T19::rebound_exprs(alias), T20::rebound_exprs(alias), T21::rebound_exprs(alias))
    }
}

impl<T0, T1, T2, T3, T4, T5, T6, T7, T8, T9, T10, T11, T12, T13, T14, T15, T16, T17, T18, T19, T20, T21> ProjectionParams for (T0, T1, T2, T3, T4, T5, T6, T7, T8, T9, T10, T11, T12, T13, T14, T15, T16, T17, T18, T19, T20, T21) where
    (T0, T1, T2, T3, T4, T5, T6, T7, T8, T9, T10, T11, T12, T13, T14, T15): ProjectionParams,
    (T16, T17, T18, T19, T20, T21): ProjectionParams,
    <(T0, T1, T2, T3, T4, T5, T6, T7, T8, T9, T10, T11, T12, T13, T14, T15) as ProjectionParams>::Params: HAppend<<(T16, T17, T18, T19, T20, T21) as ProjectionParams>::Params>,
 {
    type Params = <<(T0, T1, T2, T3, T4, T5, T6, T7, T8, T9, T10, T11, T12, T13, T14, T15) as ProjectionParams>::Params as HAppend<<(T16, T17, T18, T19, T20, T21) as ProjectionParams>::Params>>::Output;
}

impl<T0: ProjectionClass, T1: ProjectionClass<Class = T0::Class>, T2: ProjectionClass<Class = T0::Class>, T3: ProjectionClass<Class = T0::Class>, T4: ProjectionClass<Class = T0::Class>, T5: ProjectionClass<Class = T0::Class>, T6: ProjectionClass<Class = T0::Class>, T7: ProjectionClass<Class = T0::Class>, T8: ProjectionClass<Class = T0::Class>, T9: ProjectionClass<Class = T0::Class>, T10: ProjectionClass<Class = T0::Class>, T11: ProjectionClass<Class = T0::Class>, T12: ProjectionClass<Class = T0::Class>, T13: ProjectionClass<Class = T0::Class>, T14: ProjectionClass<Class = T0::Class>, T15: ProjectionClass<Class = T0::Class>, T16: ProjectionClass<Class = T0::Class>, T17: ProjectionClass<Class = T0::Class>, T18: ProjectionClass<Class = T0::Class>, T19: ProjectionClass<Class = T0::Class>, T20: ProjectionClass<Class = T0::Class>, T21: ProjectionClass<Class = T0::Class>> ProjectionClass for (T0, T1, T2, T3, T4, T5, T6, T7, T8, T9, T10, T11, T12, T13, T14, T15, T16, T17, T18, T19, T20, T21) {
    type Class = T0::Class;
}

impl<T0: ReturnableProjection, T1: ReturnableProjection, T2: ReturnableProjection, T3: ReturnableProjection, T4: ReturnableProjection, T5: ReturnableProjection, T6: ReturnableProjection, T7: ReturnableProjection, T8: ReturnableProjection, T9: ReturnableProjection, T10: ReturnableProjection, T11: ReturnableProjection, T12: ReturnableProjection, T13: ReturnableProjection, T14: ReturnableProjection, T15: ReturnableProjection, T16: ReturnableProjection, T17: ReturnableProjection, T18: ReturnableProjection, T19: ReturnableProjection, T20: ReturnableProjection, T21: ReturnableProjection> ReturnableProjection for (T0, T1, T2, T3, T4, T5, T6, T7, T8, T9, T10, T11, T12, T13, T14, T15, T16, T17, T18, T19, T20, T21) {

}

impl<T0: Projectable, T1: Projectable, T2: Projectable, T3: Projectable, T4: Projectable, T5: Projectable, T6: Projectable, T7: Projectable, T8: Projectable, T9: Projectable, T10: Projectable, T11: Projectable, T12: Projectable, T13: Projectable, T14: Projectable, T15: Projectable, T16: Projectable, T17: Projectable, T18: Projectable, T19: Projectable, T20: Projectable, T21: Projectable, B: Backend> RenderProjectable<B> for (T0, T1, T2, T3, T4, T5, T6, T7, T8, T9, T10, T11, T12, T13, T14, T15, T16, T17, T18, T19, T20, T21) where
    (T0, T1, T2, T3, T4, T5, T6, T7, T8, T9, T10, T11, T12, T13, T14, T15): RenderProjectable<B>,
    (T16, T17, T18, T19, T20, T21): RenderProjectable<B>,
    <(T0, T1, T2, T3, T4, T5, T6, T7, T8, T9, T10, T11, T12, T13, T14, T15) as ProjectionParams>::Params: HAppend<<(T16, T17, T18, T19, T20, T21) as ProjectionParams>::Params>,
 {
    open spec fn items(&self) -> List<ProjectionTree<Bound<B>>> {
        (self.0, self.1, self.2, self.3, self.4, self.5, self.6, self.7, self.8, self.9, self.10, self.11, self.12, self.13, self.14, self.15).items().then_list((self.16, self.17, self.18, self.19, self.20, self.21).items())
    }

    fn lower_projection(&self) -> (items: List<ProjectionTree<Bound<B>>>) {
        let front = (self.0.duplicate(), self.1.duplicate(), self.2.duplicate(), self.3.duplicate(), self.4.duplicate(), self.5.duplicate(), self.6.duplicate(), self.7.duplicate(), self.8.duplicate(), self.9.duplicate(), self.10.duplicate(), self.11.duplicate(), self.12.duplicate(), self.13.duplicate(), self.14.duplicate(), self.15.duplicate());
        let back = (self.16.duplicate(), self.17.duplicate(), self.18.duplicate(), self.19.duplicate(), self.20.duplicate(), self.21.duplicate());
        front.lower_projection().append(back.lower_projection())
    }

    fn lower_projection_with_prefix(&self, prefix: &str) -> (items: List<
        ProjectionTree<Bound<B>>,
    >) {
        let front = (self.0.duplicate(), self.1.duplicate(), self.2.duplicate(), self.3.duplicate(), self.4.duplicate(), self.5.duplicate(), self.6.duplicate(), self.7.duplicate(), self.8.duplicate(), self.9.duplicate(), self.10.duplicate(), self.11.duplicate(), self.12.duplicate(), self.13.duplicate(), self.14.duplicate(), self.15.duplicate());
        let back = (self.16.duplicate(), self.17.duplicate(), self.18.duplicate(), self.19.duplicate(), self.20.duplicate(), self.21.duplicate());
        let first = front.lower_projection_with_prefix(prefix);
        let rest = back.lower_projection_with_prefix(prefix);
        proof {
            crate::projection::lemma_prefixed_parts(front.items(), back.items(), prefix@, first, rest);
        }
        first.append(rest)
    }

    proof fn lemma_projection_params<D: Dialect>(&self, dialect: D, bare: bool, lead: Seq<char>) {
        let front = (self.0, self.1, self.2, self.3, self.4, self.5, self.6, self.7, self.8, self.9, self.10, self.11, self.12, self.13, self.14, self.15);
        let back = (self.16, self.17, self.18, self.19, self.20, self.21);
        let between = if front.items() is Nil { lead } else { ", "@ };
        front.lemma_projection_params(dialect, bare, lead);
        back.lemma_projection_params(dialect, bare, between);
        crate::projection::lemma_projection_parts(dialect, bare, lead, front.items(), back.items());
        <<(T0, T1, T2, T3, T4, T5, T6, T7, T8, T9, T10, T11, T12, T13, T14, T15) as ProjectionParams>::Params as HAppend<<(T16, T17, T18, T19, T20, T21) as ProjectionParams>::Params>>::lemma_append_width();
    }

    proof fn lemma_projection_plain(&self) {
        let front = (self.0, self.1, self.2, self.3, self.4, self.5, self.6, self.7, self.8, self.9, self.10, self.11, self.12, self.13, self.14, self.15);
        let back = (self.16, self.17, self.18, self.19, self.20, self.21);
        <<(T0, T1, T2, T3, T4, T5, T6, T7, T8, T9, T10, T11, T12, T13, T14, T15) as ProjectionParams>::Params as HAppend<<(T16, T17, T18, T19, T20, T21) as ProjectionParams>::Params>>::lemma_append_width();
        front.lemma_projection_plain();
        back.lemma_projection_plain();
        crate::projection::lemma_plain_parts(front.items(), back.items());
    }
}

impl<'scope, T0: ReturningProjection<'scope>, T1: ReturningProjection<'scope>, T2: ReturningProjection<'scope>, T3: ReturningProjection<'scope>, T4: ReturningProjection<'scope>, T5: ReturningProjection<'scope>, T6: ReturningProjection<'scope>, T7: ReturningProjection<'scope>, T8: ReturningProjection<'scope>, T9: ReturningProjection<'scope>, T10: ReturningProjection<'scope>, T11: ReturningProjection<'scope>, T12: ReturningProjection<'scope>, T13: ReturningProjection<'scope>, T14: ReturningProjection<'scope>, T15: ReturningProjection<'scope>, T16: ReturningProjection<'scope>, T17: ReturningProjection<'scope>, T18: ReturningProjection<'scope>, T19: ReturningProjection<'scope>, T20: ReturningProjection<'scope>, T21: ReturningProjection<'scope>> ReturningProjection<'scope> for (T0, T1, T2, T3, T4, T5, T6, T7, T8, T9, T10, T11, T12, T13, T14, T15, T16, T17, T18, T19, T20, T21) {
    type Shape = (T0::Shape, T1::Shape, T2::Shape, T3::Shape, T4::Shape, T5::Shape, T6::Shape, T7::Shape, T8::Shape, T9::Shape, T10::Shape, T11::Shape, T12::Shape, T13::Shape, T14::Shape, T15::Shape, T16::Shape, T17::Shape, T18::Shape, T19::Shape, T20::Shape, T21::Shape);
}

impl<T0: Projectable, T1: Projectable, T2: Projectable, T3: Projectable, T4: Projectable, T5: Projectable, T6: Projectable, T7: Projectable, T8: Projectable, T9: Projectable, T10: Projectable, T11: Projectable, T12: Projectable, T13: Projectable, T14: Projectable, T15: Projectable, T16: Projectable, T17: Projectable, T18: Projectable, T19: Projectable, T20: Projectable, T21: Projectable, T22: Projectable> Projectable for (T0, T1, T2, T3, T4, T5, T6, T7, T8, T9, T10, T11, T12, T13, T14, T15, T16, T17, T18, T19, T20, T21, T22) {
    type Rebound<'scope> = (T0::Rebound<'scope>, T1::Rebound<'scope>, T2::Rebound<'scope>, T3::Rebound<'scope>, T4::Rebound<'scope>, T5::Rebound<'scope>, T6::Rebound<'scope>, T7::Rebound<'scope>, T8::Rebound<'scope>, T9::Rebound<'scope>, T10::Rebound<'scope>, T11::Rebound<'scope>, T12::Rebound<'scope>, T13::Rebound<'scope>, T14::Rebound<'scope>, T15::Rebound<'scope>, T16::Rebound<'scope>, T17::Rebound<'scope>, T18::Rebound<'scope>, T19::Rebound<'scope>, T20::Rebound<'scope>, T21::Rebound<'scope>, T22::Rebound<'scope>);

    open spec fn rebound<'scope>(&self, alias: SourceAlias) -> Self::Rebound<'scope> {
        (self.0.rebound(alias), self.1.rebound(alias), self.2.rebound(alias), self.3.rebound(alias), self.4.rebound(alias), self.5.rebound(alias), self.6.rebound(alias), self.7.rebound(alias), self.8.rebound(alias), self.9.rebound(alias), self.10.rebound(alias), self.11.rebound(alias), self.12.rebound(alias), self.13.rebound(alias), self.14.rebound(alias), self.15.rebound(alias), self.16.rebound(alias), self.17.rebound(alias), self.18.rebound(alias), self.19.rebound(alias), self.20.rebound(alias), self.21.rebound(alias), self.22.rebound(alias))
    }

    open spec fn rebinds_with_prefix<'scope>(
        &self,
        alias: SourceAlias,
        prefix: Seq<char>,
        rebound: Self::Rebound<'scope>,
    ) -> bool {
        &&& self.0.rebinds_with_prefix(alias, prefix, rebound.0)
        &&& self.1.rebinds_with_prefix(alias, prefix, rebound.1)
        &&& self.2.rebinds_with_prefix(alias, prefix, rebound.2)
        &&& self.3.rebinds_with_prefix(alias, prefix, rebound.3)
        &&& self.4.rebinds_with_prefix(alias, prefix, rebound.4)
        &&& self.5.rebinds_with_prefix(alias, prefix, rebound.5)
        &&& self.6.rebinds_with_prefix(alias, prefix, rebound.6)
        &&& self.7.rebinds_with_prefix(alias, prefix, rebound.7)
        &&& self.8.rebinds_with_prefix(alias, prefix, rebound.8)
        &&& self.9.rebinds_with_prefix(alias, prefix, rebound.9)
        &&& self.10.rebinds_with_prefix(alias, prefix, rebound.10)
        &&& self.11.rebinds_with_prefix(alias, prefix, rebound.11)
        &&& self.12.rebinds_with_prefix(alias, prefix, rebound.12)
        &&& self.13.rebinds_with_prefix(alias, prefix, rebound.13)
        &&& self.14.rebinds_with_prefix(alias, prefix, rebound.14)
        &&& self.15.rebinds_with_prefix(alias, prefix, rebound.15)
        &&& self.16.rebinds_with_prefix(alias, prefix, rebound.16)
        &&& self.17.rebinds_with_prefix(alias, prefix, rebound.17)
        &&& self.18.rebinds_with_prefix(alias, prefix, rebound.18)
        &&& self.19.rebinds_with_prefix(alias, prefix, rebound.19)
        &&& self.20.rebinds_with_prefix(alias, prefix, rebound.20)
        &&& self.21.rebinds_with_prefix(alias, prefix, rebound.21)
        &&& self.22.rebinds_with_prefix(alias, prefix, rebound.22)
    }

    fn re_alias<'scope>(&self, alias: SourceAlias) -> (rebound: Self::Rebound<'scope>) {
        (self.0.re_alias(alias), self.1.re_alias(alias), self.2.re_alias(alias), self.3.re_alias(alias), self.4.re_alias(alias), self.5.re_alias(alias), self.6.re_alias(alias), self.7.re_alias(alias), self.8.re_alias(alias), self.9.re_alias(alias), self.10.re_alias(alias), self.11.re_alias(alias), self.12.re_alias(alias), self.13.re_alias(alias), self.14.re_alias(alias), self.15.re_alias(alias), self.16.re_alias(alias), self.17.re_alias(alias), self.18.re_alias(alias), self.19.re_alias(alias), self.20.re_alias(alias), self.21.re_alias(alias), self.22.re_alias(alias))
    }

    fn re_alias_with_prefix<'scope>(&self, alias: SourceAlias, prefix: &str) -> (rebound:
        Self::Rebound<'scope>) {
        (self.0.re_alias_with_prefix(alias, prefix), self.1.re_alias_with_prefix(alias, prefix), self.2.re_alias_with_prefix(alias, prefix), self.3.re_alias_with_prefix(alias, prefix), self.4.re_alias_with_prefix(alias, prefix), self.5.re_alias_with_prefix(alias, prefix), self.6.re_alias_with_prefix(alias, prefix), self.7.re_alias_with_prefix(alias, prefix), self.8.re_alias_with_prefix(alias, prefix), self.9.re_alias_with_prefix(alias, prefix), self.10.re_alias_with_prefix(alias, prefix), self.11.re_alias_with_prefix(alias, prefix), self.12.re_alias_with_prefix(alias, prefix), self.13.re_alias_with_prefix(alias, prefix), self.14.re_alias_with_prefix(alias, prefix), self.15.re_alias_with_prefix(alias, prefix), self.16.re_alias_with_prefix(alias, prefix), self.17.re_alias_with_prefix(alias, prefix), self.18.re_alias_with_prefix(alias, prefix), self.19.re_alias_with_prefix(alias, prefix), self.20.re_alias_with_prefix(alias, prefix), self.21.re_alias_with_prefix(alias, prefix), self.22.re_alias_with_prefix(alias, prefix))
    }
}

impl<T0: Duplicate, T1: Duplicate, T2: Duplicate, T3: Duplicate, T4: Duplicate, T5: Duplicate, T6: Duplicate, T7: Duplicate, T8: Duplicate, T9: Duplicate, T10: Duplicate, T11: Duplicate, T12: Duplicate, T13: Duplicate, T14: Duplicate, T15: Duplicate, T16: Duplicate, T17: Duplicate, T18: Duplicate, T19: Duplicate, T20: Duplicate, T21: Duplicate, T22: Duplicate> Duplicate for (T0, T1, T2, T3, T4, T5, T6, T7, T8, T9, T10, T11, T12, T13, T14, T15, T16, T17, T18, T19, T20, T21, T22) {
    fn duplicate(&self) -> (copy: Self) {
        (self.0.duplicate(), self.1.duplicate(), self.2.duplicate(), self.3.duplicate(), self.4.duplicate(), self.5.duplicate(), self.6.duplicate(), self.7.duplicate(), self.8.duplicate(), self.9.duplicate(), self.10.duplicate(), self.11.duplicate(), self.12.duplicate(), self.13.duplicate(), self.14.duplicate(), self.15.duplicate(), self.16.duplicate(), self.17.duplicate(), self.18.duplicate(), self.19.duplicate(), self.20.duplicate(), self.21.duplicate(), self.22.duplicate())
    }
}

impl<T0: ProjectionShape, T1: ProjectionShape, T2: ProjectionShape, T3: ProjectionShape, T4: ProjectionShape, T5: ProjectionShape, T6: ProjectionShape, T7: ProjectionShape, T8: ProjectionShape, T9: ProjectionShape, T10: ProjectionShape, T11: ProjectionShape, T12: ProjectionShape, T13: ProjectionShape, T14: ProjectionShape, T15: ProjectionShape, T16: ProjectionShape, T17: ProjectionShape, T18: ProjectionShape, T19: ProjectionShape, T20: ProjectionShape, T21: ProjectionShape, T22: ProjectionShape> ProjectionShape for (T0, T1, T2, T3, T4, T5, T6, T7, T8, T9, T10, T11, T12, T13, T14, T15, T16, T17, T18, T19, T20, T21, T22) {
    type Exprs<'scope> = (T0::Exprs<'scope>, T1::Exprs<'scope>, T2::Exprs<'scope>, T3::Exprs<'scope>, T4::Exprs<'scope>, T5::Exprs<'scope>, T6::Exprs<'scope>, T7::Exprs<'scope>, T8::Exprs<'scope>, T9::Exprs<'scope>, T10::Exprs<'scope>, T11::Exprs<'scope>, T12::Exprs<'scope>, T13::Exprs<'scope>, T14::Exprs<'scope>, T15::Exprs<'scope>, T16::Exprs<'scope>, T17::Exprs<'scope>, T18::Exprs<'scope>, T19::Exprs<'scope>, T20::Exprs<'scope>, T21::Exprs<'scope>, T22::Exprs<'scope>);

    type ReboundExprs<'scope> = (T0::ReboundExprs<'scope>, T1::ReboundExprs<'scope>, T2::ReboundExprs<'scope>, T3::ReboundExprs<'scope>, T4::ReboundExprs<'scope>, T5::ReboundExprs<'scope>, T6::ReboundExprs<'scope>, T7::ReboundExprs<'scope>, T8::ReboundExprs<'scope>, T9::ReboundExprs<'scope>, T10::ReboundExprs<'scope>, T11::ReboundExprs<'scope>, T12::ReboundExprs<'scope>, T13::ReboundExprs<'scope>, T14::ReboundExprs<'scope>, T15::ReboundExprs<'scope>, T16::ReboundExprs<'scope>, T17::ReboundExprs<'scope>, T18::ReboundExprs<'scope>, T19::ReboundExprs<'scope>, T20::ReboundExprs<'scope>, T21::ReboundExprs<'scope>, T22::ReboundExprs<'scope>);

    type Row = (T0::Row, T1::Row, T2::Row, T3::Row, T4::Row, T5::Row, T6::Row, T7::Row, T8::Row, T9::Row, T10::Row, T11::Row, T12::Row, T13::Row, T14::Row, T15::Row, T16::Row, T17::Row, T18::Row, T19::Row, T20::Row, T21::Row, T22::Row);

    open spec fn shape_exprs<'scope>(alias: SourceAlias) -> Self::Exprs<'scope> {
        (T0::shape_exprs(alias), T1::shape_exprs(alias), T2::shape_exprs(alias), T3::shape_exprs(alias), T4::shape_exprs(alias), T5::shape_exprs(alias), T6::shape_exprs(alias), T7::shape_exprs(alias), T8::shape_exprs(alias), T9::shape_exprs(alias), T10::shape_exprs(alias), T11::shape_exprs(alias), T12::shape_exprs(alias), T13::shape_exprs(alias), T14::shape_exprs(alias), T15::shape_exprs(alias), T16::shape_exprs(alias), T17::shape_exprs(alias), T18::shape_exprs(alias), T19::shape_exprs(alias), T20::shape_exprs(alias), T21::shape_exprs(alias), T22::shape_exprs(alias))
    }

    open spec fn shape_rebound<'scope>(alias: SourceAlias) -> Self::ReboundExprs<'scope> {
        (T0::shape_rebound(alias), T1::shape_rebound(alias), T2::shape_rebound(alias), T3::shape_rebound(alias), T4::shape_rebound(alias), T5::shape_rebound(alias), T6::shape_rebound(alias), T7::shape_rebound(alias), T8::shape_rebound(alias), T9::shape_rebound(alias), T10::shape_rebound(alias), T11::shape_rebound(alias), T12::shape_rebound(alias), T13::shape_rebound(alias), T14::shape_rebound(alias), T15::shape_rebound(alias), T16::shape_rebound(alias), T17::shape_rebound(alias), T18::shape_rebound(alias), T19::shape_rebound(alias), T20::shape_rebound(alias), T21::shape_rebound(alias), T22::shape_rebound(alias))
    }

    fn exprs<'scope>(alias: SourceAlias) -> (exprs: Self::Exprs<'scope>) {
        (T0::exprs(alias), T1::exprs(alias), T2::exprs(alias), T3::exprs(alias), T4::exprs(alias), T5::exprs(alias), T6::exprs(alias), T7::exprs(alias), T8::exprs(alias), T9::exprs(alias), T10::exprs(alias), T11::exprs(alias), T12::exprs(alias), T13::exprs(alias), T14::exprs(alias), T15::exprs(alias), T16::exprs(alias), T17::exprs(alias), T18::exprs(alias), T19::exprs(alias), T20::exprs(alias), T21::exprs(alias), T22::exprs(alias))
    }

    fn rebound_exprs<'scope>(alias: SourceAlias) -> (exprs: Self::ReboundExprs<'scope>) {
        (T0::rebound_exprs(alias), T1::rebound_exprs(alias), T2::rebound_exprs(alias), T3::rebound_exprs(alias), T4::rebound_exprs(alias), T5::rebound_exprs(alias), T6::rebound_exprs(alias), T7::rebound_exprs(alias), T8::rebound_exprs(alias), T9::rebound_exprs(alias), T10::rebound_exprs(alias), T11::rebound_exprs(alias), T12::rebound_exprs(alias), T13::rebound_exprs(alias), T14::rebound_exprs(alias), T15::rebound_exprs(alias), T16::rebound_exprs(alias), T17::rebound_exprs(alias), T18::rebound_exprs(alias), T19::rebound_exprs(alias), T20::rebound_exprs(alias), T21::rebound_exprs(alias), T22::rebound_exprs(alias))
    }
}

impl<T0, T1, T2, T3, T4, T5, T6, T7, T8, T9, T10, T11, T12, T13, T14, T15, T16, T17, T18, T19, T20, T21, T22> ProjectionParams for (T0, T1, T2, T3, T4, T5, T6, T7, T8, T9, T10, T11, T12, T13, T14, T15, T16, T17, T18, T19, T20, T21, T22) where
    (T0, T1, T2, T3, T4, T5, T6, T7, T8, T9, T10, T11, T12, T13, T14, T15): ProjectionParams,
    (T16, T17, T18, T19, T20, T21, T22): ProjectionParams,
    <(T0, T1, T2, T3, T4, T5, T6, T7, T8, T9, T10, T11, T12, T13, T14, T15) as ProjectionParams>::Params: HAppend<<(T16, T17, T18, T19, T20, T21, T22) as ProjectionParams>::Params>,
 {
    type Params = <<(T0, T1, T2, T3, T4, T5, T6, T7, T8, T9, T10, T11, T12, T13, T14, T15) as ProjectionParams>::Params as HAppend<<(T16, T17, T18, T19, T20, T21, T22) as ProjectionParams>::Params>>::Output;
}

impl<T0: ProjectionClass, T1: ProjectionClass<Class = T0::Class>, T2: ProjectionClass<Class = T0::Class>, T3: ProjectionClass<Class = T0::Class>, T4: ProjectionClass<Class = T0::Class>, T5: ProjectionClass<Class = T0::Class>, T6: ProjectionClass<Class = T0::Class>, T7: ProjectionClass<Class = T0::Class>, T8: ProjectionClass<Class = T0::Class>, T9: ProjectionClass<Class = T0::Class>, T10: ProjectionClass<Class = T0::Class>, T11: ProjectionClass<Class = T0::Class>, T12: ProjectionClass<Class = T0::Class>, T13: ProjectionClass<Class = T0::Class>, T14: ProjectionClass<Class = T0::Class>, T15: ProjectionClass<Class = T0::Class>, T16: ProjectionClass<Class = T0::Class>, T17: ProjectionClass<Class = T0::Class>, T18: ProjectionClass<Class = T0::Class>, T19: ProjectionClass<Class = T0::Class>, T20: ProjectionClass<Class = T0::Class>, T21: ProjectionClass<Class = T0::Class>, T22: ProjectionClass<Class = T0::Class>> ProjectionClass for (T0, T1, T2, T3, T4, T5, T6, T7, T8, T9, T10, T11, T12, T13, T14, T15, T16, T17, T18, T19, T20, T21, T22) {
    type Class = T0::Class;
}

impl<T0: ReturnableProjection, T1: ReturnableProjection, T2: ReturnableProjection, T3: ReturnableProjection, T4: ReturnableProjection, T5: ReturnableProjection, T6: ReturnableProjection, T7: ReturnableProjection, T8: ReturnableProjection, T9: ReturnableProjection, T10: ReturnableProjection, T11: ReturnableProjection, T12: ReturnableProjection, T13: ReturnableProjection, T14: ReturnableProjection, T15: ReturnableProjection, T16: ReturnableProjection, T17: ReturnableProjection, T18: ReturnableProjection, T19: ReturnableProjection, T20: ReturnableProjection, T21: ReturnableProjection, T22: ReturnableProjection> ReturnableProjection for (T0, T1, T2, T3, T4, T5, T6, T7, T8, T9, T10, T11, T12, T13, T14, T15, T16, T17, T18, T19, T20, T21, T22) {

}

impl<T0: Projectable, T1: Projectable, T2: Projectable, T3: Projectable, T4: Projectable, T5: Projectable, T6: Projectable, T7: Projectable, T8: Projectable, T9: Projectable, T10: Projectable, T11: Projectable, T12: Projectable, T13: Projectable, T14: Projectable, T15: Projectable, T16: Projectable, T17: Projectable, T18: Projectable, T19: Projectable, T20: Projectable, T21: Projectable, T22: Projectable, B: Backend> RenderProjectable<B> for (T0, T1, T2, T3, T4, T5, T6, T7, T8, T9, T10, T11, T12, T13, T14, T15, T16, T17, T18, T19, T20, T21, T22) where
    (T0, T1, T2, T3, T4, T5, T6, T7, T8, T9, T10, T11, T12, T13, T14, T15): RenderProjectable<B>,
    (T16, T17, T18, T19, T20, T21, T22): RenderProjectable<B>,
    <(T0, T1, T2, T3, T4, T5, T6, T7, T8, T9, T10, T11, T12, T13, T14, T15) as ProjectionParams>::Params: HAppend<<(T16, T17, T18, T19, T20, T21, T22) as ProjectionParams>::Params>,
 {
    open spec fn items(&self) -> List<ProjectionTree<Bound<B>>> {
        (self.0, self.1, self.2, self.3, self.4, self.5, self.6, self.7, self.8, self.9, self.10, self.11, self.12, self.13, self.14, self.15).items().then_list((self.16, self.17, self.18, self.19, self.20, self.21, self.22).items())
    }

    fn lower_projection(&self) -> (items: List<ProjectionTree<Bound<B>>>) {
        let front = (self.0.duplicate(), self.1.duplicate(), self.2.duplicate(), self.3.duplicate(), self.4.duplicate(), self.5.duplicate(), self.6.duplicate(), self.7.duplicate(), self.8.duplicate(), self.9.duplicate(), self.10.duplicate(), self.11.duplicate(), self.12.duplicate(), self.13.duplicate(), self.14.duplicate(), self.15.duplicate());
        let back = (self.16.duplicate(), self.17.duplicate(), self.18.duplicate(), self.19.duplicate(), self.20.duplicate(), self.21.duplicate(), self.22.duplicate());
        front.lower_projection().append(back.lower_projection())
    }

    fn lower_projection_with_prefix(&self, prefix: &str) -> (items: List<
        ProjectionTree<Bound<B>>,
    >) {
        let front = (self.0.duplicate(), self.1.duplicate(), self.2.duplicate(), self.3.duplicate(), self.4.duplicate(), self.5.duplicate(), self.6.duplicate(), self.7.duplicate(), self.8.duplicate(), self.9.duplicate(), self.10.duplicate(), self.11.duplicate(), self.12.duplicate(), self.13.duplicate(), self.14.duplicate(), self.15.duplicate());
        let back = (self.16.duplicate(), self.17.duplicate(), self.18.duplicate(), self.19.duplicate(), self.20.duplicate(), self.21.duplicate(), self.22.duplicate());
        let first = front.lower_projection_with_prefix(prefix);
        let rest = back.lower_projection_with_prefix(prefix);
        proof {
            crate::projection::lemma_prefixed_parts(front.items(), back.items(), prefix@, first, rest);
        }
        first.append(rest)
    }

    proof fn lemma_projection_params<D: Dialect>(&self, dialect: D, bare: bool, lead: Seq<char>) {
        let front = (self.0, self.1, self.2, self.3, self.4, self.5, self.6, self.7, self.8, self.9, self.10, self.11, self.12, self.13, self.14, self.15);
        let back = (self.16, self.17, self.18, self.19, self.20, self.21, self.22);
        let between = if front.items() is Nil { lead } else { ", "@ };
        front.lemma_projection_params(dialect, bare, lead);
        back.lemma_projection_params(dialect, bare, between);
        crate::projection::lemma_projection_parts(dialect, bare, lead, front.items(), back.items());
        <<(T0, T1, T2, T3, T4, T5, T6, T7, T8, T9, T10, T11, T12, T13, T14, T15) as ProjectionParams>::Params as HAppend<<(T16, T17, T18, T19, T20, T21, T22) as ProjectionParams>::Params>>::lemma_append_width();
    }

    proof fn lemma_projection_plain(&self) {
        let front = (self.0, self.1, self.2, self.3, self.4, self.5, self.6, self.7, self.8, self.9, self.10, self.11, self.12, self.13, self.14, self.15);
        let back = (self.16, self.17, self.18, self.19, self.20, self.21, self.22);
        <<(T0, T1, T2, T3, T4, T5, T6, T7, T8, T9, T10, T11, T12, T13, T14, T15) as ProjectionParams>::Params as HAppend<<(T16, T17, T18, T19, T20, T21, T22) as ProjectionParams>::Params>>::lemma_append_width();
        front.lemma_projection_plain();
        back.lemma_projection_plain();
        crate::projection::lemma_plain_parts(front.items(), back.items());
    }
}

impl<'scope, T0: ReturningProjection<'scope>, T1: ReturningProjection<'scope>, T2: ReturningProjection<'scope>, T3: ReturningProjection<'scope>, T4: ReturningProjection<'scope>, T5: ReturningProjection<'scope>, T6: ReturningProjection<'scope>, T7: ReturningProjection<'scope>, T8: ReturningProjection<'scope>, T9: ReturningProjection<'scope>, T10: ReturningProjection<'scope>, T11: ReturningProjection<'scope>, T12: ReturningProjection<'scope>, T13: ReturningProjection<'scope>, T14: ReturningProjection<'scope>, T15: ReturningProjection<'scope>, T16: ReturningProjection<'scope>, T17: ReturningProjection<'scope>, T18: ReturningProjection<'scope>, T19: ReturningProjection<'scope>, T20: ReturningProjection<'scope>, T21: ReturningProjection<'scope>, T22: ReturningProjection<'scope>> ReturningProjection<'scope> for (T0, T1, T2, T3, T4, T5, T6, T7, T8, T9, T10, T11, T12, T13, T14, T15, T16, T17, T18, T19, T20, T21, T22) {
    type Shape = (T0::Shape, T1::Shape, T2::Shape, T3::Shape, T4::Shape, T5::Shape, T6::Shape, T7::Shape, T8::Shape, T9::Shape, T10::Shape, T11::Shape, T12::Shape, T13::Shape, T14::Shape, T15::Shape, T16::Shape, T17::Shape, T18::Shape, T19::Shape, T20::Shape, T21::Shape, T22::Shape);
}

impl<T0: Projectable, T1: Projectable, T2: Projectable, T3: Projectable, T4: Projectable, T5: Projectable, T6: Projectable, T7: Projectable, T8: Projectable, T9: Projectable, T10: Projectable, T11: Projectable, T12: Projectable, T13: Projectable, T14: Projectable, T15: Projectable, T16: Projectable, T17: Projectable, T18: Projectable, T19: Projectable, T20: Projectable, T21: Projectable, T22: Projectable, T23: Projectable> Projectable for (T0, T1, T2, T3, T4, T5, T6, T7, T8, T9, T10, T11, T12, T13, T14, T15, T16, T17, T18, T19, T20, T21, T22, T23) {
    type Rebound<'scope> = (T0::Rebound<'scope>, T1::Rebound<'scope>, T2::Rebound<'scope>, T3::Rebound<'scope>, T4::Rebound<'scope>, T5::Rebound<'scope>, T6::Rebound<'scope>, T7::Rebound<'scope>, T8::Rebound<'scope>, T9::Rebound<'scope>, T10::Rebound<'scope>, T11::Rebound<'scope>, T12::Rebound<'scope>, T13::Rebound<'scope>, T14::Rebound<'scope>, T15::Rebound<'scope>, T16::Rebound<'scope>, T17::Rebound<'scope>, T18::Rebound<'scope>, T19::Rebound<'scope>, T20::Rebound<'scope>, T21::Rebound<'scope>, T22::Rebound<'scope>, T23::Rebound<'scope>);

    open spec fn rebound<'scope>(&self, alias: SourceAlias) -> Self::Rebound<'scope> {
        (self.0.rebound(alias), self.1.rebound(alias), self.2.rebound(alias), self.3.rebound(alias), self.4.rebound(alias), self.5.rebound(alias), self.6.rebound(alias), self.7.rebound(alias), self.8.rebound(alias), self.9.rebound(alias), self.10.rebound(alias), self.11.rebound(alias), self.12.rebound(alias), self.13.rebound(alias), self.14.rebound(alias), self.15.rebound(alias), self.16.rebound(alias), self.17.rebound(alias), self.18.rebound(alias), self.19.rebound(alias), self.20.rebound(alias), self.21.rebound(alias), self.22.rebound(alias), self.23.rebound(alias))
    }

    open spec fn rebinds_with_prefix<'scope>(
        &self,
        alias: SourceAlias,
        prefix: Seq<char>,
        rebound: Self::Rebound<'scope>,
    ) -> bool {
        &&& self.0.rebinds_with_prefix(alias, prefix, rebound.0)
        &&& self.1.rebinds_with_prefix(alias, prefix, rebound.1)
        &&& self.2.rebinds_with_prefix(alias, prefix, rebound.2)
        &&& self.3.rebinds_with_prefix(alias, prefix, rebound.3)
        &&& self.4.rebinds_with_prefix(alias, prefix, rebound.4)
        &&& self.5.rebinds_with_prefix(alias, prefix, rebound.5)
        &&& self.6.rebinds_with_prefix(alias, prefix, rebound.6)
        &&& self.7.rebinds_with_prefix(alias, prefix, rebound.7)
        &&& self.8.rebinds_with_prefix(alias, prefix, rebound.8)
        &&& self.9.rebinds_with_prefix(alias, prefix, rebound.9)
        &&& self.10.rebinds_with_prefix(alias, prefix, rebound.10)
        &&& self.11.rebinds_with_prefix(alias, prefix, rebound.11)
        &&& self.12.rebinds_with_prefix(alias, prefix, rebound.12)
        &&& self.13.rebinds_with_prefix(alias, prefix, rebound.13)
        &&& self.14.rebinds_with_prefix(alias, prefix, rebound.14)
        &&& self.15.rebinds_with_prefix(alias, prefix, rebound.15)
        &&& self.16.rebinds_with_prefix(alias, prefix, rebound.16)
        &&& self.17.rebinds_with_prefix(alias, prefix, rebound.17)
        &&& self.18.rebinds_with_prefix(alias, prefix, rebound.18)
        &&& self.19.rebinds_with_prefix(alias, prefix, rebound.19)
        &&& self.20.rebinds_with_prefix(alias, prefix, rebound.20)
        &&& self.21.rebinds_with_prefix(alias, prefix, rebound.21)
        &&& self.22.rebinds_with_prefix(alias, prefix, rebound.22)
        &&& self.23.rebinds_with_prefix(alias, prefix, rebound.23)
    }

    fn re_alias<'scope>(&self, alias: SourceAlias) -> (rebound: Self::Rebound<'scope>) {
        (self.0.re_alias(alias), self.1.re_alias(alias), self.2.re_alias(alias), self.3.re_alias(alias), self.4.re_alias(alias), self.5.re_alias(alias), self.6.re_alias(alias), self.7.re_alias(alias), self.8.re_alias(alias), self.9.re_alias(alias), self.10.re_alias(alias), self.11.re_alias(alias), self.12.re_alias(alias), self.13.re_alias(alias), self.14.re_alias(alias), self.15.re_alias(alias), self.16.re_alias(alias), self.17.re_alias(alias), self.18.re_alias(alias), self.19.re_alias(alias), self.20.re_alias(alias), self.21.re_alias(alias), self.22.re_alias(alias), self.23.re_alias(alias))
    }

    fn re_alias_with_prefix<'scope>(&self, alias: SourceAlias, prefix: &str) -> (rebound:
        Self::Rebound<'scope>) {
        (self.0.re_alias_with_prefix(alias, prefix), self.1.re_alias_with_prefix(alias, prefix), self.2.re_alias_with_prefix(alias, prefix), self.3.re_alias_with_prefix(alias, prefix), self.4.re_alias_with_prefix(alias, prefix), self.5.re_alias_with_prefix(alias, prefix), self.6.re_alias_with_prefix(alias, prefix), self.7.re_alias_with_prefix(alias, prefix), self.8.re_alias_with_prefix(alias, prefix), self.9.re_alias_with_prefix(alias, prefix), self.10.re_alias_with_prefix(alias, prefix), self.11.re_alias_with_prefix(alias, prefix), self.12.re_alias_with_prefix(alias, prefix), self.13.re_alias_with_prefix(alias, prefix), self.14.re_alias_with_prefix(alias, prefix), self.15.re_alias_with_prefix(alias, prefix), self.16.re_alias_with_prefix(alias, prefix), self.17.re_alias_with_prefix(alias, prefix), self.18.re_alias_with_prefix(alias, prefix), self.19.re_alias_with_prefix(alias, prefix), self.20.re_alias_with_prefix(alias, prefix), self.21.re_alias_with_prefix(alias, prefix), self.22.re_alias_with_prefix(alias, prefix), self.23.re_alias_with_prefix(alias, prefix))
    }
}

impl<T0: Duplicate, T1: Duplicate, T2: Duplicate, T3: Duplicate, T4: Duplicate, T5: Duplicate, T6: Duplicate, T7: Duplicate, T8: Duplicate, T9: Duplicate, T10: Duplicate, T11: Duplicate, T12: Duplicate, T13: Duplicate, T14: Duplicate, T15: Duplicate, T16: Duplicate, T17: Duplicate, T18: Duplicate, T19: Duplicate, T20: Duplicate, T21: Duplicate, T22: Duplicate, T23: Duplicate> Duplicate for (T0, T1, T2, T3, T4, T5, T6, T7, T8, T9, T10, T11, T12, T13, T14, T15, T16, T17, T18, T19, T20, T21, T22, T23) {
    fn duplicate(&self) -> (copy: Self) {
        (self.0.duplicate(), self.1.duplicate(), self.2.duplicate(), self.3.duplicate(), self.4.duplicate(), self.5.duplicate(), self.6.duplicate(), self.7.duplicate(), self.8.duplicate(), self.9.duplicate(), self.10.duplicate(), self.11.duplicate(), self.12.duplicate(), self.13.duplicate(), self.14.duplicate(), self.15.duplicate(), self.16.duplicate(), self.17.duplicate(), self.18.duplicate(), self.19.duplicate(), self.20.duplicate(), self.21.duplicate(), self.22.duplicate(), self.23.duplicate())
    }
}

impl<T0: ProjectionShape, T1: ProjectionShape, T2: ProjectionShape, T3: ProjectionShape, T4: ProjectionShape, T5: ProjectionShape, T6: ProjectionShape, T7: ProjectionShape, T8: ProjectionShape, T9: ProjectionShape, T10: ProjectionShape, T11: ProjectionShape, T12: ProjectionShape, T13: ProjectionShape, T14: ProjectionShape, T15: ProjectionShape, T16: ProjectionShape, T17: ProjectionShape, T18: ProjectionShape, T19: ProjectionShape, T20: ProjectionShape, T21: ProjectionShape, T22: ProjectionShape, T23: ProjectionShape> ProjectionShape for (T0, T1, T2, T3, T4, T5, T6, T7, T8, T9, T10, T11, T12, T13, T14, T15, T16, T17, T18, T19, T20, T21, T22, T23) {
    type Exprs<'scope> = (T0::Exprs<'scope>, T1::Exprs<'scope>, T2::Exprs<'scope>, T3::Exprs<'scope>, T4::Exprs<'scope>, T5::Exprs<'scope>, T6::Exprs<'scope>, T7::Exprs<'scope>, T8::Exprs<'scope>, T9::Exprs<'scope>, T10::Exprs<'scope>, T11::Exprs<'scope>, T12::Exprs<'scope>, T13::Exprs<'scope>, T14::Exprs<'scope>, T15::Exprs<'scope>, T16::Exprs<'scope>, T17::Exprs<'scope>, T18::Exprs<'scope>, T19::Exprs<'scope>, T20::Exprs<'scope>, T21::Exprs<'scope>, T22::Exprs<'scope>, T23::Exprs<'scope>);

    type ReboundExprs<'scope> = (T0::ReboundExprs<'scope>, T1::ReboundExprs<'scope>, T2::ReboundExprs<'scope>, T3::ReboundExprs<'scope>, T4::ReboundExprs<'scope>, T5::ReboundExprs<'scope>, T6::ReboundExprs<'scope>, T7::ReboundExprs<'scope>, T8::ReboundExprs<'scope>, T9::ReboundExprs<'scope>, T10::ReboundExprs<'scope>, T11::ReboundExprs<'scope>, T12::ReboundExprs<'scope>, T13::ReboundExprs<'scope>, T14::ReboundExprs<'scope>, T15::ReboundExprs<'scope>, T16::ReboundExprs<'scope>, T17::ReboundExprs<'scope>, T18::ReboundExprs<'scope>, T19::ReboundExprs<'scope>, T20::ReboundExprs<'scope>, T21::ReboundExprs<'scope>, T22::ReboundExprs<'scope>, T23::ReboundExprs<'scope>);

    type Row = (T0::Row, T1::Row, T2::Row, T3::Row, T4::Row, T5::Row, T6::Row, T7::Row, T8::Row, T9::Row, T10::Row, T11::Row, T12::Row, T13::Row, T14::Row, T15::Row, T16::Row, T17::Row, T18::Row, T19::Row, T20::Row, T21::Row, T22::Row, T23::Row);

    open spec fn shape_exprs<'scope>(alias: SourceAlias) -> Self::Exprs<'scope> {
        (T0::shape_exprs(alias), T1::shape_exprs(alias), T2::shape_exprs(alias), T3::shape_exprs(alias), T4::shape_exprs(alias), T5::shape_exprs(alias), T6::shape_exprs(alias), T7::shape_exprs(alias), T8::shape_exprs(alias), T9::shape_exprs(alias), T10::shape_exprs(alias), T11::shape_exprs(alias), T12::shape_exprs(alias), T13::shape_exprs(alias), T14::shape_exprs(alias), T15::shape_exprs(alias), T16::shape_exprs(alias), T17::shape_exprs(alias), T18::shape_exprs(alias), T19::shape_exprs(alias), T20::shape_exprs(alias), T21::shape_exprs(alias), T22::shape_exprs(alias), T23::shape_exprs(alias))
    }

    open spec fn shape_rebound<'scope>(alias: SourceAlias) -> Self::ReboundExprs<'scope> {
        (T0::shape_rebound(alias), T1::shape_rebound(alias), T2::shape_rebound(alias), T3::shape_rebound(alias), T4::shape_rebound(alias), T5::shape_rebound(alias), T6::shape_rebound(alias), T7::shape_rebound(alias), T8::shape_rebound(alias), T9::shape_rebound(alias), T10::shape_rebound(alias), T11::shape_rebound(alias), T12::shape_rebound(alias), T13::shape_rebound(alias), T14::shape_rebound(alias), T15::shape_rebound(alias), T16::shape_rebound(alias), T17::shape_rebound(alias), T18::shape_rebound(alias), T19::shape_rebound(alias), T20::shape_rebound(alias), T21::shape_rebound(alias), T22::shape_rebound(alias), T23::shape_rebound(alias))
    }

    fn exprs<'scope>(alias: SourceAlias) -> (exprs: Self::Exprs<'scope>) {
        (T0::exprs(alias), T1::exprs(alias), T2::exprs(alias), T3::exprs(alias), T4::exprs(alias), T5::exprs(alias), T6::exprs(alias), T7::exprs(alias), T8::exprs(alias), T9::exprs(alias), T10::exprs(alias), T11::exprs(alias), T12::exprs(alias), T13::exprs(alias), T14::exprs(alias), T15::exprs(alias), T16::exprs(alias), T17::exprs(alias), T18::exprs(alias), T19::exprs(alias), T20::exprs(alias), T21::exprs(alias), T22::exprs(alias), T23::exprs(alias))
    }

    fn rebound_exprs<'scope>(alias: SourceAlias) -> (exprs: Self::ReboundExprs<'scope>) {
        (T0::rebound_exprs(alias), T1::rebound_exprs(alias), T2::rebound_exprs(alias), T3::rebound_exprs(alias), T4::rebound_exprs(alias), T5::rebound_exprs(alias), T6::rebound_exprs(alias), T7::rebound_exprs(alias), T8::rebound_exprs(alias), T9::rebound_exprs(alias), T10::rebound_exprs(alias), T11::rebound_exprs(alias), T12::rebound_exprs(alias), T13::rebound_exprs(alias), T14::rebound_exprs(alias), T15::rebound_exprs(alias), T16::rebound_exprs(alias), T17::rebound_exprs(alias), T18::rebound_exprs(alias), T19::rebound_exprs(alias), T20::rebound_exprs(alias), T21::rebound_exprs(alias), T22::rebound_exprs(alias), T23::rebound_exprs(alias))
    }
}

impl<T0, T1, T2, T3, T4, T5, T6, T7, T8, T9, T10, T11, T12, T13, T14, T15, T16, T17, T18, T19, T20, T21, T22, T23> ProjectionParams for (T0, T1, T2, T3, T4, T5, T6, T7, T8, T9, T10, T11, T12, T13, T14, T15, T16, T17, T18, T19, T20, T21, T22, T23) where
    (T0, T1, T2, T3, T4, T5, T6, T7, T8, T9, T10, T11, T12, T13, T14, T15): ProjectionParams,
    (T16, T17, T18, T19, T20, T21, T22, T23): ProjectionParams,
    <(T0, T1, T2, T3, T4, T5, T6, T7, T8, T9, T10, T11, T12, T13, T14, T15) as ProjectionParams>::Params: HAppend<<(T16, T17, T18, T19, T20, T21, T22, T23) as ProjectionParams>::Params>,
 {
    type Params = <<(T0, T1, T2, T3, T4, T5, T6, T7, T8, T9, T10, T11, T12, T13, T14, T15) as ProjectionParams>::Params as HAppend<<(T16, T17, T18, T19, T20, T21, T22, T23) as ProjectionParams>::Params>>::Output;
}

impl<T0: ProjectionClass, T1: ProjectionClass<Class = T0::Class>, T2: ProjectionClass<Class = T0::Class>, T3: ProjectionClass<Class = T0::Class>, T4: ProjectionClass<Class = T0::Class>, T5: ProjectionClass<Class = T0::Class>, T6: ProjectionClass<Class = T0::Class>, T7: ProjectionClass<Class = T0::Class>, T8: ProjectionClass<Class = T0::Class>, T9: ProjectionClass<Class = T0::Class>, T10: ProjectionClass<Class = T0::Class>, T11: ProjectionClass<Class = T0::Class>, T12: ProjectionClass<Class = T0::Class>, T13: ProjectionClass<Class = T0::Class>, T14: ProjectionClass<Class = T0::Class>, T15: ProjectionClass<Class = T0::Class>, T16: ProjectionClass<Class = T0::Class>, T17: ProjectionClass<Class = T0::Class>, T18: ProjectionClass<Class = T0::Class>, T19: ProjectionClass<Class = T0::Class>, T20: ProjectionClass<Class = T0::Class>, T21: ProjectionClass<Class = T0::Class>, T22: ProjectionClass<Class = T0::Class>, T23: ProjectionClass<Class = T0::Class>> ProjectionClass for (T0, T1, T2, T3, T4, T5, T6, T7, T8, T9, T10, T11, T12, T13, T14, T15, T16, T17, T18, T19, T20, T21, T22, T23) {
    type Class = T0::Class;
}

impl<T0: ReturnableProjection, T1: ReturnableProjection, T2: ReturnableProjection, T3: ReturnableProjection, T4: ReturnableProjection, T5: ReturnableProjection, T6: ReturnableProjection, T7: ReturnableProjection, T8: ReturnableProjection, T9: ReturnableProjection, T10: ReturnableProjection, T11: ReturnableProjection, T12: ReturnableProjection, T13: ReturnableProjection, T14: ReturnableProjection, T15: ReturnableProjection, T16: ReturnableProjection, T17: ReturnableProjection, T18: ReturnableProjection, T19: ReturnableProjection, T20: ReturnableProjection, T21: ReturnableProjection, T22: ReturnableProjection, T23: ReturnableProjection> ReturnableProjection for (T0, T1, T2, T3, T4, T5, T6, T7, T8, T9, T10, T11, T12, T13, T14, T15, T16, T17, T18, T19, T20, T21, T22, T23) {

}

impl<T0: Projectable, T1: Projectable, T2: Projectable, T3: Projectable, T4: Projectable, T5: Projectable, T6: Projectable, T7: Projectable, T8: Projectable, T9: Projectable, T10: Projectable, T11: Projectable, T12: Projectable, T13: Projectable, T14: Projectable, T15: Projectable, T16: Projectable, T17: Projectable, T18: Projectable, T19: Projectable, T20: Projectable, T21: Projectable, T22: Projectable, T23: Projectable, B: Backend> RenderProjectable<B> for (T0, T1, T2, T3, T4, T5, T6, T7, T8, T9, T10, T11, T12, T13, T14, T15, T16, T17, T18, T19, T20, T21, T22, T23) where
    (T0, T1, T2, T3, T4, T5, T6, T7, T8, T9, T10, T11, T12, T13, T14, T15): RenderProjectable<B>,
    (T16, T17, T18, T19, T20, T21, T22, T23): RenderProjectable<B>,
    <(T0, T1, T2, T3, T4, T5, T6, T7, T8, T9, T10, T11, T12, T13, T14, T15) as ProjectionParams>::Params: HAppend<<(T16, T17, T18, T19, T20, T21, T22, T23) as ProjectionParams>::Params>,
 {
    open spec fn items(&self) -> List<ProjectionTree<Bound<B>>> {
        (self.0, self.1, self.2, self.3, self.4, self.5, self.6, self.7, self.8, self.9, self.10, self.11, self.12, self.13, self.14, self.15).items().then_list((self.16, self.17, self.18, self.19, self.20, self.21, self.22, self.23).items())
    }

    fn lower_projection(&self) -> (items: List<ProjectionTree<Bound<B>>>) {
        let front = (self.0.duplicate(), self.1.duplicate(), self.2.duplicate(), self.3.duplicate(), self.4.duplicate(), self.5.duplicate(), self.6.duplicate(), self.7.duplicate(), self.8.duplicate(), self.9.duplicate(), self.10.duplicate(), self.11.duplicate(), self.12.duplicate(), self.13.duplicate(), self.14.duplicate(), self.15.duplicate());
        let back = (self.16.duplicate(), self.17.duplicate(), self.18.duplicate(), self.19.duplicate(), self.20.duplicate(), self.21.duplicate(), self.22.duplicate(), self.23.duplicate());
        front.lower_projection().append(back.lower_projection())
    }

    fn lower_projection_with_prefix(&self, prefix: &str) -> (items: List<
        ProjectionTree<Bound<B>>,
    >) {
        let front = (self.0.duplicate(), self.1.duplicate(), self.2.duplicate(), self.3.duplicate(), self.4.duplicate(), self.5.duplicate(), self.6.duplicate(), self.7.duplicate(), self.8.duplicate(), self.9.duplicate(), self.10.duplicate(), self.11.duplicate(), self.12.duplicate(), self.13.duplicate(), self.14.duplicate(), self.15.duplicate());
        let back = (self.16.duplicate(), self.17.duplicate(), self.18.duplicate(), self.19.duplicate(), self.20.duplicate(), self.21.duplicate(), self.22.duplicate(), self.23.duplicate());
        let first = front.lower_projection_with_prefix(prefix);
        let rest = back.lower_projection_with_prefix(prefix);
        proof {
            crate::projection::lemma_prefixed_parts(front.items(), back.items(), prefix@, first, rest);
        }
        first.append(rest)
    }

    proof fn lemma_projection_params<D: Dialect>(&self, dialect: D, bare: bool, lead: Seq<char>) {
        let front = (self.0, self.1, self.2, self.3, self.4, self.5, self.6, self.7, self.8, self.9, self.10, self.11, self.12, self.13, self.14, self.15);
        let back = (self.16, self.17, self.18, self.19, self.20, self.21, self.22, self.23);
        let between = if front.items() is Nil { lead } else { ", "@ };
        front.lemma_projection_params(dialect, bare, lead);
        back.lemma_projection_params(dialect, bare, between);
        crate::projection::lemma_projection_parts(dialect, bare, lead, front.items(), back.items());
        <<(T0, T1, T2, T3, T4, T5, T6, T7, T8, T9, T10, T11, T12, T13, T14, T15) as ProjectionParams>::Params as HAppend<<(T16, T17, T18, T19, T20, T21, T22, T23) as ProjectionParams>::Params>>::lemma_append_width();
    }

    proof fn lemma_projection_plain(&self) {
        let front = (self.0, self.1, self.2, self.3, self.4, self.5, self.6, self.7, self.8, self.9, self.10, self.11, self.12, self.13, self.14, self.15);
        let back = (self.16, self.17, self.18, self.19, self.20, self.21, self.22, self.23);
        <<(T0, T1, T2, T3, T4, T5, T6, T7, T8, T9, T10, T11, T12, T13, T14, T15) as ProjectionParams>::Params as HAppend<<(T16, T17, T18, T19, T20, T21, T22, T23) as ProjectionParams>::Params>>::lemma_append_width();
        front.lemma_projection_plain();
        back.lemma_projection_plain();
        crate::projection::lemma_plain_parts(front.items(), back.items());
    }
}

impl<'scope, T0: ReturningProjection<'scope>, T1: ReturningProjection<'scope>, T2: ReturningProjection<'scope>, T3: ReturningProjection<'scope>, T4: ReturningProjection<'scope>, T5: ReturningProjection<'scope>, T6: ReturningProjection<'scope>, T7: ReturningProjection<'scope>, T8: ReturningProjection<'scope>, T9: ReturningProjection<'scope>, T10: ReturningProjection<'scope>, T11: ReturningProjection<'scope>, T12: ReturningProjection<'scope>, T13: ReturningProjection<'scope>, T14: ReturningProjection<'scope>, T15: ReturningProjection<'scope>, T16: ReturningProjection<'scope>, T17: ReturningProjection<'scope>, T18: ReturningProjection<'scope>, T19: ReturningProjection<'scope>, T20: ReturningProjection<'scope>, T21: ReturningProjection<'scope>, T22: ReturningProjection<'scope>, T23: ReturningProjection<'scope>> ReturningProjection<'scope> for (T0, T1, T2, T3, T4, T5, T6, T7, T8, T9, T10, T11, T12, T13, T14, T15, T16, T17, T18, T19, T20, T21, T22, T23) {
    type Shape = (T0::Shape, T1::Shape, T2::Shape, T3::Shape, T4::Shape, T5::Shape, T6::Shape, T7::Shape, T8::Shape, T9::Shape, T10::Shape, T11::Shape, T12::Shape, T13::Shape, T14::Shape, T15::Shape, T16::Shape, T17::Shape, T18::Shape, T19::Shape, T20::Shape, T21::Shape, T22::Shape, T23::Shape);
}

impl<T0: Projectable, T1: Projectable, T2: Projectable, T3: Projectable, T4: Projectable, T5: Projectable, T6: Projectable, T7: Projectable, T8: Projectable, T9: Projectable, T10: Projectable, T11: Projectable, T12: Projectable, T13: Projectable, T14: Projectable, T15: Projectable, T16: Projectable, T17: Projectable, T18: Projectable, T19: Projectable, T20: Projectable, T21: Projectable, T22: Projectable, T23: Projectable, T24: Projectable> Projectable for (T0, T1, T2, T3, T4, T5, T6, T7, T8, T9, T10, T11, T12, T13, T14, T15, T16, T17, T18, T19, T20, T21, T22, T23, T24) {
    type Rebound<'scope> = (T0::Rebound<'scope>, T1::Rebound<'scope>, T2::Rebound<'scope>, T3::Rebound<'scope>, T4::Rebound<'scope>, T5::Rebound<'scope>, T6::Rebound<'scope>, T7::Rebound<'scope>, T8::Rebound<'scope>, T9::Rebound<'scope>, T10::Rebound<'scope>, T11::Rebound<'scope>, T12::Rebound<'scope>, T13::Rebound<'scope>, T14::Rebound<'scope>, T15::Rebound<'scope>, T16::Rebound<'scope>, T17::Rebound<'scope>, T18::Rebound<'scope>, T19::Rebound<'scope>, T20::Rebound<'scope>, T21::Rebound<'scope>, T22::Rebound<'scope>, T23::Rebound<'scope>, T24::Rebound<'scope>);

    open spec fn rebound<'scope>(&self, alias: SourceAlias) -> Self::Rebound<'scope> {
        (self.0.rebound(alias), self.1.rebound(alias), self.2.rebound(alias), self.3.rebound(alias), self.4.rebound(alias), self.5.rebound(alias), self.6.rebound(alias), self.7.rebound(alias), self.8.rebound(alias), self.9.rebound(alias), self.10.rebound(alias), self.11.rebound(alias), self.12.rebound(alias), self.13.rebound(alias), self.14.rebound(alias), self.15.rebound(alias), self.16.rebound(alias), self.17.rebound(alias), self.18.rebound(alias), self.19.rebound(alias), self.20.rebound(alias), self.21.rebound(alias), self.22.rebound(alias), self.23.rebound(alias), self.24.rebound(alias))
    }

    open spec fn rebinds_with_prefix<'scope>(
        &self,
        alias: SourceAlias,
        prefix: Seq<char>,
        rebound: Self::Rebound<'scope>,
    ) -> bool {
        &&& self.0.rebinds_with_prefix(alias, prefix, rebound.0)
        &&& self.1.rebinds_with_prefix(alias, prefix, rebound.1)
        &&& self.2.rebinds_with_prefix(alias, prefix, rebound.2)
        &&& self.3.rebinds_with_prefix(alias, prefix, rebound.3)
        &&& self.4.rebinds_with_prefix(alias, prefix, rebound.4)
        &&& self.5.rebinds_with_prefix(alias, prefix, rebound.5)
        &&& self.6.rebinds_with_prefix(alias, prefix, rebound.6)
        &&& self.7.rebinds_with_prefix(alias, prefix, rebound.7)
        &&& self.8.rebinds_with_prefix(alias, prefix, rebound.8)
        &&& self.9.rebinds_with_prefix(alias, prefix, rebound.9)
        &&& self.10.rebinds_with_prefix(alias, prefix, rebound.10)
        &&& self.11.rebinds_with_prefix(alias, prefix, rebound.11)
        &&& self.12.rebinds_with_prefix(alias, prefix, rebound.12)
        &&& self.13.rebinds_with_prefix(alias, prefix, rebound.13)
        &&& self.14.rebinds_with_prefix(alias, prefix, rebound.14)
        &&& self.15.rebinds_with_prefix(alias, prefix, rebound.15)
        &&& self.16.rebinds_with_prefix(alias, prefix, rebound.16)
        &&& self.17.rebinds_with_prefix(alias, prefix, rebound.17)
        &&& self.18.rebinds_with_prefix(alias, prefix, rebound.18)
        &&& self.19.rebinds_with_prefix(alias, prefix, rebound.19)
        &&& self.20.rebinds_with_prefix(alias, prefix, rebound.20)
        &&& self.21.rebinds_with_prefix(alias, prefix, rebound.21)
        &&& self.22.rebinds_with_prefix(alias, prefix, rebound.22)
        &&& self.23.rebinds_with_prefix(alias, prefix, rebound.23)
        &&& self.24.rebinds_with_prefix(alias, prefix, rebound.24)
    }

    fn re_alias<'scope>(&self, alias: SourceAlias) -> (rebound: Self::Rebound<'scope>) {
        (self.0.re_alias(alias), self.1.re_alias(alias), self.2.re_alias(alias), self.3.re_alias(alias), self.4.re_alias(alias), self.5.re_alias(alias), self.6.re_alias(alias), self.7.re_alias(alias), self.8.re_alias(alias), self.9.re_alias(alias), self.10.re_alias(alias), self.11.re_alias(alias), self.12.re_alias(alias), self.13.re_alias(alias), self.14.re_alias(alias), self.15.re_alias(alias), self.16.re_alias(alias), self.17.re_alias(alias), self.18.re_alias(alias), self.19.re_alias(alias), self.20.re_alias(alias), self.21.re_alias(alias), self.22.re_alias(alias), self.23.re_alias(alias), self.24.re_alias(alias))
    }

    fn re_alias_with_prefix<'scope>(&self, alias: SourceAlias, prefix: &str) -> (rebound:
        Self::Rebound<'scope>) {
        (self.0.re_alias_with_prefix(alias, prefix), self.1.re_alias_with_prefix(alias, prefix), self.2.re_alias_with_prefix(alias, prefix), self.3.re_alias_with_prefix(alias, prefix), self.4.re_alias_with_prefix(alias, prefix), self.5.re_alias_with_prefix(alias, prefix), self.6.re_alias_with_prefix(alias, prefix), self.7.re_alias_with_prefix(alias, prefix), self.8.re_alias_with_prefix(alias, prefix), self.9.re_alias_with_prefix(alias, prefix), self.10.re_alias_with_prefix(alias, prefix), self.11.re_alias_with_prefix(alias, prefix), self.12.re_alias_with_prefix(alias, prefix), self.13.re_alias_with_prefix(alias, prefix), self.14.re_alias_with_prefix(alias, prefix), self.15.re_alias_with_prefix(alias, prefix), self.16.re_alias_with_prefix(alias, prefix), self.17.re_alias_with_prefix(alias, prefix), self.18.re_alias_with_prefix(alias, prefix), self.19.re_alias_with_prefix(alias, prefix), self.20.re_alias_with_prefix(alias, prefix), self.21.re_alias_with_prefix(alias, prefix), self.22.re_alias_with_prefix(alias, prefix), self.23.re_alias_with_prefix(alias, prefix), self.24.re_alias_with_prefix(alias, prefix))
    }
}

impl<T0: Duplicate, T1: Duplicate, T2: Duplicate, T3: Duplicate, T4: Duplicate, T5: Duplicate, T6: Duplicate, T7: Duplicate, T8: Duplicate, T9: Duplicate, T10: Duplicate, T11: Duplicate, T12: Duplicate, T13: Duplicate, T14: Duplicate, T15: Duplicate, T16: Duplicate, T17: Duplicate, T18: Duplicate, T19: Duplicate, T20: Duplicate, T21: Duplicate, T22: Duplicate, T23: Duplicate, T24: Duplicate> Duplicate for (T0, T1, T2, T3, T4, T5, T6, T7, T8, T9, T10, T11, T12, T13, T14, T15, T16, T17, T18, T19, T20, T21, T22, T23, T24) {
    fn duplicate(&self) -> (copy: Self) {
        (self.0.duplicate(), self.1.duplicate(), self.2.duplicate(), self.3.duplicate(), self.4.duplicate(), self.5.duplicate(), self.6.duplicate(), self.7.duplicate(), self.8.duplicate(), self.9.duplicate(), self.10.duplicate(), self.11.duplicate(), self.12.duplicate(), self.13.duplicate(), self.14.duplicate(), self.15.duplicate(), self.16.duplicate(), self.17.duplicate(), self.18.duplicate(), self.19.duplicate(), self.20.duplicate(), self.21.duplicate(), self.22.duplicate(), self.23.duplicate(), self.24.duplicate())
    }
}

impl<T0: ProjectionShape, T1: ProjectionShape, T2: ProjectionShape, T3: ProjectionShape, T4: ProjectionShape, T5: ProjectionShape, T6: ProjectionShape, T7: ProjectionShape, T8: ProjectionShape, T9: ProjectionShape, T10: ProjectionShape, T11: ProjectionShape, T12: ProjectionShape, T13: ProjectionShape, T14: ProjectionShape, T15: ProjectionShape, T16: ProjectionShape, T17: ProjectionShape, T18: ProjectionShape, T19: ProjectionShape, T20: ProjectionShape, T21: ProjectionShape, T22: ProjectionShape, T23: ProjectionShape, T24: ProjectionShape> ProjectionShape for (T0, T1, T2, T3, T4, T5, T6, T7, T8, T9, T10, T11, T12, T13, T14, T15, T16, T17, T18, T19, T20, T21, T22, T23, T24) {
    type Exprs<'scope> = (T0::Exprs<'scope>, T1::Exprs<'scope>, T2::Exprs<'scope>, T3::Exprs<'scope>, T4::Exprs<'scope>, T5::Exprs<'scope>, T6::Exprs<'scope>, T7::Exprs<'scope>, T8::Exprs<'scope>, T9::Exprs<'scope>, T10::Exprs<'scope>, T11::Exprs<'scope>, T12::Exprs<'scope>, T13::Exprs<'scope>, T14::Exprs<'scope>, T15::Exprs<'scope>, T16::Exprs<'scope>, T17::Exprs<'scope>, T18::Exprs<'scope>, T19::Exprs<'scope>, T20::Exprs<'scope>, T21::Exprs<'scope>, T22::Exprs<'scope>, T23::Exprs<'scope>, T24::Exprs<'scope>);

    type ReboundExprs<'scope> = (T0::ReboundExprs<'scope>, T1::ReboundExprs<'scope>, T2::ReboundExprs<'scope>, T3::ReboundExprs<'scope>, T4::ReboundExprs<'scope>, T5::ReboundExprs<'scope>, T6::ReboundExprs<'scope>, T7::ReboundExprs<'scope>, T8::ReboundExprs<'scope>, T9::ReboundExprs<'scope>, T10::ReboundExprs<'scope>, T11::ReboundExprs<'scope>, T12::ReboundExprs<'scope>, T13::ReboundExprs<'scope>, T14::ReboundExprs<'scope>, T15::ReboundExprs<'scope>, T16::ReboundExprs<'scope>, T17::ReboundExprs<'scope>, T18::ReboundExprs<'scope>, T19::ReboundExprs<'scope>, T20::ReboundExprs<'scope>, T21::ReboundExprs<'scope>, T22::ReboundExprs<'scope>, T23::ReboundExprs<'scope>, T24::ReboundExprs<'scope>);

    type Row = (T0::Row, T1::Row, T2::Row, T3::Row, T4::Row, T5::Row, T6::Row, T7::Row, T8::Row, T9::Row, T10::Row, T11::Row, T12::Row, T13::Row, T14::Row, T15::Row, T16::Row, T17::Row, T18::Row, T19::Row, T20::Row, T21::Row, T22::Row, T23::Row, T24::Row);

    open spec fn shape_exprs<'scope>(alias: SourceAlias) -> Self::Exprs<'scope> {
        (T0::shape_exprs(alias), T1::shape_exprs(alias), T2::shape_exprs(alias), T3::shape_exprs(alias), T4::shape_exprs(alias), T5::shape_exprs(alias), T6::shape_exprs(alias), T7::shape_exprs(alias), T8::shape_exprs(alias), T9::shape_exprs(alias), T10::shape_exprs(alias), T11::shape_exprs(alias), T12::shape_exprs(alias), T13::shape_exprs(alias), T14::shape_exprs(alias), T15::shape_exprs(alias), T16::shape_exprs(alias), T17::shape_exprs(alias), T18::shape_exprs(alias), T19::shape_exprs(alias), T20::shape_exprs(alias), T21::shape_exprs(alias), T22::shape_exprs(alias), T23::shape_exprs(alias), T24::shape_exprs(alias))
    }

    open spec fn shape_rebound<'scope>(alias: SourceAlias) -> Self::ReboundExprs<'scope> {
        (T0::shape_rebound(alias), T1::shape_rebound(alias), T2::shape_rebound(alias), T3::shape_rebound(alias), T4::shape_rebound(alias), T5::shape_rebound(alias), T6::shape_rebound(alias), T7::shape_rebound(alias), T8::shape_rebound(alias), T9::shape_rebound(alias), T10::shape_rebound(alias), T11::shape_rebound(alias), T12::shape_rebound(alias), T13::shape_rebound(alias), T14::shape_rebound(alias), T15::shape_rebound(alias), T16::shape_rebound(alias), T17::shape_rebound(alias), T18::shape_rebound(alias), T19::shape_rebound(alias), T20::shape_rebound(alias), T21::shape_rebound(alias), T22::shape_rebound(alias), T23::shape_rebound(alias), T24::shape_rebound(alias))
    }

    fn exprs<'scope>(alias: SourceAlias) -> (exprs: Self::Exprs<'scope>) {
        (T0::exprs(alias), T1::exprs(alias), T2::exprs(alias), T3::exprs(alias), T4::exprs(alias), T5::exprs(alias), T6::exprs(alias), T7::exprs(alias), T8::exprs(alias), T9::exprs(alias), T10::exprs(alias), T11::exprs(alias), T12::exprs(alias), T13::exprs(alias), T14::exprs(alias), T15::exprs(alias), T16::exprs(alias), T17::exprs(alias), T18::exprs(alias), T19::exprs(alias), T20::exprs(alias), T21::exprs(alias), T22::exprs(alias), T23::exprs(alias), T24::exprs(alias))
    }

    fn rebound_exprs<'scope>(alias: SourceAlias) -> (exprs: Self::ReboundExprs<'scope>) {
        (T0::rebound_exprs(alias), T1::rebound_exprs(alias), T2::rebound_exprs(alias), T3::rebound_exprs(alias), T4::rebound_exprs(alias), T5::rebound_exprs(alias), T6::rebound_exprs(alias), T7::rebound_exprs(alias), T8::rebound_exprs(alias), T9::rebound_exprs(alias), T10::rebound_exprs(alias), T11::rebound_exprs(alias), T12::rebound_exprs(alias), T13::rebound_exprs(alias), T14::rebound_exprs(alias), T15::rebound_exprs(alias), T16::rebound_exprs(alias), T17::rebound_exprs(alias), T18::rebound_exprs(alias), T19::rebound_exprs(alias), T20::rebound_exprs(alias), T21::rebound_exprs(alias), T22::rebound_exprs(alias), T23::rebound_exprs(alias), T24::rebound_exprs(alias))
    }
}

impl<T0, T1, T2, T3, T4, T5, T6, T7, T8, T9, T10, T11, T12, T13, T14, T15, T16, T17, T18, T19, T20, T21, T22, T23, T24> ProjectionParams for (T0, T1, T2, T3, T4, T5, T6, T7, T8, T9, T10, T11, T12, T13, T14, T15, T16, T17, T18, T19, T20, T21, T22, T23, T24) where
    (T0, T1, T2, T3, T4, T5, T6, T7, T8, T9, T10, T11, T12, T13, T14, T15): ProjectionParams,
    (T16, T17, T18, T19, T20, T21, T22, T23, T24): ProjectionParams,
    <(T0, T1, T2, T3, T4, T5, T6, T7, T8, T9, T10, T11, T12, T13, T14, T15) as ProjectionParams>::Params: HAppend<<(T16, T17, T18, T19, T20, T21, T22, T23, T24) as ProjectionParams>::Params>,
 {
    type Params = <<(T0, T1, T2, T3, T4, T5, T6, T7, T8, T9, T10, T11, T12, T13, T14, T15) as ProjectionParams>::Params as HAppend<<(T16, T17, T18, T19, T20, T21, T22, T23, T24) as ProjectionParams>::Params>>::Output;
}

impl<T0: ProjectionClass, T1: ProjectionClass<Class = T0::Class>, T2: ProjectionClass<Class = T0::Class>, T3: ProjectionClass<Class = T0::Class>, T4: ProjectionClass<Class = T0::Class>, T5: ProjectionClass<Class = T0::Class>, T6: ProjectionClass<Class = T0::Class>, T7: ProjectionClass<Class = T0::Class>, T8: ProjectionClass<Class = T0::Class>, T9: ProjectionClass<Class = T0::Class>, T10: ProjectionClass<Class = T0::Class>, T11: ProjectionClass<Class = T0::Class>, T12: ProjectionClass<Class = T0::Class>, T13: ProjectionClass<Class = T0::Class>, T14: ProjectionClass<Class = T0::Class>, T15: ProjectionClass<Class = T0::Class>, T16: ProjectionClass<Class = T0::Class>, T17: ProjectionClass<Class = T0::Class>, T18: ProjectionClass<Class = T0::Class>, T19: ProjectionClass<Class = T0::Class>, T20: ProjectionClass<Class = T0::Class>, T21: ProjectionClass<Class = T0::Class>, T22: ProjectionClass<Class = T0::Class>, T23: ProjectionClass<Class = T0::Class>, T24: ProjectionClass<Class = T0::Class>> ProjectionClass for (T0, T1, T2, T3, T4, T5, T6, T7, T8, T9, T10, T11, T12, T13, T14, T15, T16, T17, T18, T19, T20, T21, T22, T23, T24) {
    type Class = T0::Class;
}

impl<T0: ReturnableProjection, T1: ReturnableProjection, T2: ReturnableProjection, T3: ReturnableProjection, T4: ReturnableProjection, T5: ReturnableProjection, T6: ReturnableProjection, T7: ReturnableProjection, T8: ReturnableProjection, T9: ReturnableProjection, T10: ReturnableProjection, T11: ReturnableProjection, T12: ReturnableProjection, T13: ReturnableProjection, T14: ReturnableProjection, T15: ReturnableProjection, T16: ReturnableProjection, T17: ReturnableProjection, T18: ReturnableProjection, T19: ReturnableProjection, T20: ReturnableProjection, T21: ReturnableProjection, T22: ReturnableProjection, T23: ReturnableProjection, T24: ReturnableProjection> ReturnableProjection for (T0, T1, T2, T3, T4, T5, T6, T7, T8, T9, T10, T11, T12, T13, T14, T15, T16, T17, T18, T19, T20, T21, T22, T23, T24) {

}

impl<T0: Projectable, T1: Projectable, T2: Projectable, T3: Projectable, T4: Projectable, T5: Projectable, T6: Projectable, T7: Projectable, T8: Projectable, T9: Projectable, T10: Projectable, T11: Projectable, T12: Projectable, T13: Projectable, T14: Projectable, T15: Projectable, T16: Projectable, T17: Projectable, T18: Projectable, T19: Projectable, T20: Projectable, T21: Projectable, T22: Projectable, T23: Projectable, T24: Projectable, B: Backend> RenderProjectable<B> for (T0, T1, T2, T3, T4, T5, T6, T7, T8, T9, T10, T11, T12, T13, T14, T15, T16, T17, T18, T19, T20, T21, T22, T23, T24) where
    (T0, T1, T2, T3, T4, T5, T6, T7, T8, T9, T10, T11, T12, T13, T14, T15): RenderProjectable<B>,
    (T16, T17, T18, T19, T20, T21, T22, T23, T24): RenderProjectable<B>,
    <(T0, T1, T2, T3, T4, T5, T6, T7, T8, T9, T10, T11, T12, T13, T14, T15) as ProjectionParams>::Params: HAppend<<(T16, T17, T18, T19, T20, T21, T22, T23, T24) as ProjectionParams>::Params>,
 {
    open spec fn items(&self) -> List<ProjectionTree<Bound<B>>> {
        (self.0, self.1, self.2, self.3, self.4, self.5, self.6, self.7, self.8, self.9, self.10, self.11, self.12, self.13, self.14, self.15).items().then_list((self.16, self.17, self.18, self.19, self.20, self.21, self.22, self.23, self.24).items())
    }

    fn lower_projection(&self) -> (items: List<ProjectionTree<Bound<B>>>) {
        let front = (self.0.duplicate(), self.1.duplicate(), self.2.duplicate(), self.3.duplicate(), self.4.duplicate(), self.5.duplicate(), self.6.duplicate(), self.7.duplicate(), self.8.duplicate(), self.9.duplicate(), self.10.duplicate(), self.11.duplicate(), self.12.duplicate(), self.13.duplicate(), self.14.duplicate(), self.15.duplicate());
        let back = (self.16.duplicate(), self.17.duplicate(), self.18.duplicate(), self.19.duplicate(), self.20.duplicate(), self.21.duplicate(), self.22.duplicate(), self.23.duplicate(), self.24.duplicate());
        front.lower_projection().append(back.lower_projection())
    }

    fn lower_projection_with_prefix(&self, prefix: &str) -> (items: List<
        ProjectionTree<Bound<B>>,
    >) {
        let front = (self.0.duplicate(), self.1.duplicate(), self.2.duplicate(), self.3.duplicate(), self.4.duplicate(), self.5.duplicate(), self.6.duplicate(), self.7.duplicate(), self.8.duplicate(), self.9.duplicate(), self.10.duplicate(), self.11.duplicate(), self.12.duplicate(), self.13.duplicate(), self.14.duplicate(), self.15.duplicate());
        let back = (self.16.duplicate(), self.17.duplicate(), self.18.duplicate(), self.19.duplicate(), self.20.duplicate(), self.21.duplicate(), self.22.duplicate(), self.23.duplicate(), self.24.duplicate());
        let first = front.lower_projection_with_prefix(prefix);
        let rest = back.lower_projection_with_prefix(prefix);
        proof {
            crate::projection::lemma_prefixed_parts(front.items(), back.items(), prefix@, first, rest);
        }
        first.append(rest)
    }

    proof fn lemma_projection_params<D: Dialect>(&self, dialect: D, bare: bool, lead: Seq<char>) {
        let front = (self.0, self.1, self.2, self.3, self.4, self.5, self.6, self.7, self.8, self.9, self.10, self.11, self.12, self.13, self.14, self.15);
        let back = (self.16, self.17, self.18, self.19, self.20, self.21, self.22, self.23, self.24);
        let between = if front.items() is Nil { lead } else { ", "@ };
        front.lemma_projection_params(dialect, bare, lead);
        back.lemma_projection_params(dialect, bare, between);
        crate::projection::lemma_projection_parts(dialect, bare, lead, front.items(), back.items());
        <<(T0, T1, T2, T3, T4, T5, T6, T7, T8, T9, T10, T11, T12, T13, T14, T15) as ProjectionParams>::Params as HAppend<<(T16, T17, T18, T19, T20, T21, T22, T23, T24) as ProjectionParams>::Params>>::lemma_append_width();
    }

    proof fn lemma_projection_plain(&self) {
        let front = (self.0, self.1, self.2, self.3, self.4, self.5, self.6, self.7, self.8, self.9, self.10, self.11, self.12, self.13, self.14, self.15);
        let back = (self.16, self.17, self.18, self.19, self.20, self.21, self.22, self.23, self.24);
        <<(T0, T1, T2, T3, T4, T5, T6, T7, T8, T9, T10, T11, T12, T13, T14, T15) as ProjectionParams>::Params as HAppend<<(T16, T17, T18, T19, T20, T21, T22, T23, T24) as ProjectionParams>::Params>>::lemma_append_width();
        front.lemma_projection_plain();
        back.lemma_projection_plain();
        crate::projection::lemma_plain_parts(front.items(), back.items());
    }
}

impl<'scope, T0: ReturningProjection<'scope>, T1: ReturningProjection<'scope>, T2: ReturningProjection<'scope>, T3: ReturningProjection<'scope>, T4: ReturningProjection<'scope>, T5: ReturningProjection<'scope>, T6: ReturningProjection<'scope>, T7: ReturningProjection<'scope>, T8: ReturningProjection<'scope>, T9: ReturningProjection<'scope>, T10: ReturningProjection<'scope>, T11: ReturningProjection<'scope>, T12: ReturningProjection<'scope>, T13: ReturningProjection<'scope>, T14: ReturningProjection<'scope>, T15: ReturningProjection<'scope>, T16: ReturningProjection<'scope>, T17: ReturningProjection<'scope>, T18: ReturningProjection<'scope>, T19: ReturningProjection<'scope>, T20: ReturningProjection<'scope>, T21: ReturningProjection<'scope>, T22: ReturningProjection<'scope>, T23: ReturningProjection<'scope>, T24: ReturningProjection<'scope>> ReturningProjection<'scope> for (T0, T1, T2, T3, T4, T5, T6, T7, T8, T9, T10, T11, T12, T13, T14, T15, T16, T17, T18, T19, T20, T21, T22, T23, T24) {
    type Shape = (T0::Shape, T1::Shape, T2::Shape, T3::Shape, T4::Shape, T5::Shape, T6::Shape, T7::Shape, T8::Shape, T9::Shape, T10::Shape, T11::Shape, T12::Shape, T13::Shape, T14::Shape, T15::Shape, T16::Shape, T17::Shape, T18::Shape, T19::Shape, T20::Shape, T21::Shape, T22::Shape, T23::Shape, T24::Shape);
}

impl<T0: Projectable, T1: Projectable, T2: Projectable, T3: Projectable, T4: Projectable, T5: Projectable, T6: Projectable, T7: Projectable, T8: Projectable, T9: Projectable, T10: Projectable, T11: Projectable, T12: Projectable, T13: Projectable, T14: Projectable, T15: Projectable, T16: Projectable, T17: Projectable, T18: Projectable, T19: Projectable, T20: Projectable, T21: Projectable, T22: Projectable, T23: Projectable, T24: Projectable, T25: Projectable> Projectable for (T0, T1, T2, T3, T4, T5, T6, T7, T8, T9, T10, T11, T12, T13, T14, T15, T16, T17, T18, T19, T20, T21, T22, T23, T24, T25) {
    type Rebound<'scope> = (T0::Rebound<'scope>, T1::Rebound<'scope>, T2::Rebound<'scope>, T3::Rebound<'scope>, T4::Rebound<'scope>, T5::Rebound<'scope>, T6::Rebound<'scope>, T7::Rebound<'scope>, T8::Rebound<'scope>, T9::Rebound<'scope>, T10::Rebound<'scope>, T11::Rebound<'scope>, T12::Rebound<'scope>, T13::Rebound<'scope>, T14::Rebound<'scope>, T15::Rebound<'scope>, T16::Rebound<'scope>, T17::Rebound<'scope>, T18::Rebound<'scope>, T19::Rebound<'scope>, T20::Rebound<'scope>, T21::Rebound<'scope>, T22::Rebound<'scope>, T23::Rebound<'scope>, T24::Rebound<'scope>, T25::Rebound<'scope>);

    open spec fn rebound<'scope>(&self, alias: SourceAlias) -> Self::Rebound<'scope> {
        (self.0.rebound(alias), self.1.rebound(alias), self.2.rebound(alias), self.3.rebound(alias), self.4.rebound(alias), self.5.rebound(alias), self.6.rebound(alias), self.7.rebound(alias), self.8.rebound(alias), self.9.rebound(alias), self.10.rebound(alias), self.11.rebound(alias), self.12.rebound(alias), self.13.rebound(alias), self.14.rebound(alias), self.15.rebound(alias), self.16.rebound(alias), self.17.rebound(alias), self.18.rebound(alias), self.19.rebound(alias), self.20.rebound(alias), self.21.rebound(alias), self.22.rebound(alias), self.23.rebound(alias), self.24.rebound(alias), self.25.rebound(alias))
    }

    open spec fn rebinds_with_prefix<'scope>(
        &self,
        alias: SourceAlias,
        prefix: Seq<char>,
        rebound: Self::Rebound<'scope>,
    ) -> bool {
        &&& self.0.rebinds_with_prefix(alias, prefix, rebound.0)
        &&& self.1.rebinds_with_prefix(alias, prefix, rebound.1)
        &&& self.2.rebinds_with_prefix(alias, prefix, rebound.2)
        &&& self.3.rebinds_with_prefix(alias, prefix, rebound.3)
        &&& self.4.rebinds_with_prefix(alias, prefix, rebound.4)
        &&& self.5.rebinds_with_prefix(alias, prefix, rebound.5)
        &&& self.6.rebinds_with_prefix(alias, prefix, rebound.6)
        &&& self.7.rebinds_with_prefix(alias, prefix, rebound.7)
        &&& self.8.rebinds_with_prefix(alias, prefix, rebound.8)
        &&& self.9.rebinds_with_prefix(alias, prefix, rebound.9)
        &&& self.10.rebinds_with_prefix(alias, prefix, rebound.10)
        &&& self.11.rebinds_with_prefix(alias, prefix, rebound.11)
        &&& self.12.rebinds_with_prefix(alias, prefix, rebound.12)
        &&& self.13.rebinds_with_prefix(alias, prefix, rebound.13)
        &&& self.14.rebinds_with_prefix(alias, prefix, rebound.14)
        &&& self.15.rebinds_with_prefix(alias, prefix, rebound.15)
        &&& self.16.rebinds_with_prefix(alias, prefix, rebound.16)
        &&& self.17.rebinds_with_prefix(alias, prefix, rebound.17)
        &&& self.18.rebinds_with_prefix(alias, prefix, rebound.18)
        &&& self.19.rebinds_with_prefix(alias, prefix, rebound.19)
        &&& self.20.rebinds_with_prefix(alias, prefix, rebound.20)
        &&& self.21.rebinds_with_prefix(alias, prefix, rebound.21)
        &&& self.22.rebinds_with_prefix(alias, prefix, rebound.22)
        &&& self.23.rebinds_with_prefix(alias, prefix, rebound.23)
        &&& self.24.rebinds_with_prefix(alias, prefix, rebound.24)
        &&& self.25.rebinds_with_prefix(alias, prefix, rebound.25)
    }

    fn re_alias<'scope>(&self, alias: SourceAlias) -> (rebound: Self::Rebound<'scope>) {
        (self.0.re_alias(alias), self.1.re_alias(alias), self.2.re_alias(alias), self.3.re_alias(alias), self.4.re_alias(alias), self.5.re_alias(alias), self.6.re_alias(alias), self.7.re_alias(alias), self.8.re_alias(alias), self.9.re_alias(alias), self.10.re_alias(alias), self.11.re_alias(alias), self.12.re_alias(alias), self.13.re_alias(alias), self.14.re_alias(alias), self.15.re_alias(alias), self.16.re_alias(alias), self.17.re_alias(alias), self.18.re_alias(alias), self.19.re_alias(alias), self.20.re_alias(alias), self.21.re_alias(alias), self.22.re_alias(alias), self.23.re_alias(alias), self.24.re_alias(alias), self.25.re_alias(alias))
    }

    fn re_alias_with_prefix<'scope>(&self, alias: SourceAlias, prefix: &str) -> (rebound:
        Self::Rebound<'scope>) {
        (self.0.re_alias_with_prefix(alias, prefix), self.1.re_alias_with_prefix(alias, prefix), self.2.re_alias_with_prefix(alias, prefix), self.3.re_alias_with_prefix(alias, prefix), self.4.re_alias_with_prefix(alias, prefix), self.5.re_alias_with_prefix(alias, prefix), self.6.re_alias_with_prefix(alias, prefix), self.7.re_alias_with_prefix(alias, prefix), self.8.re_alias_with_prefix(alias, prefix), self.9.re_alias_with_prefix(alias, prefix), self.10.re_alias_with_prefix(alias, prefix), self.11.re_alias_with_prefix(alias, prefix), self.12.re_alias_with_prefix(alias, prefix), self.13.re_alias_with_prefix(alias, prefix), self.14.re_alias_with_prefix(alias, prefix), self.15.re_alias_with_prefix(alias, prefix), self.16.re_alias_with_prefix(alias, prefix), self.17.re_alias_with_prefix(alias, prefix), self.18.re_alias_with_prefix(alias, prefix), self.19.re_alias_with_prefix(alias, prefix), self.20.re_alias_with_prefix(alias, prefix), self.21.re_alias_with_prefix(alias, prefix), self.22.re_alias_with_prefix(alias, prefix), self.23.re_alias_with_prefix(alias, prefix), self.24.re_alias_with_prefix(alias, prefix), self.25.re_alias_with_prefix(alias, prefix))
    }
}

impl<T0: Duplicate, T1: Duplicate, T2: Duplicate, T3: Duplicate, T4: Duplicate, T5: Duplicate, T6: Duplicate, T7: Duplicate, T8: Duplicate, T9: Duplicate, T10: Duplicate, T11: Duplicate, T12: Duplicate, T13: Duplicate, T14: Duplicate, T15: Duplicate, T16: Duplicate, T17: Duplicate, T18: Duplicate, T19: Duplicate, T20: Duplicate, T21: Duplicate, T22: Duplicate, T23: Duplicate, T24: Duplicate, T25: Duplicate> Duplicate for (T0, T1, T2, T3, T4, T5, T6, T7, T8, T9, T10, T11, T12, T13, T14, T15, T16, T17, T18, T19, T20, T21, T22, T23, T24, T25) {
    fn duplicate(&self) -> (copy: Self) {
        (self.0.duplicate(), self.1.duplicate(), self.2.duplicate(), self.3.duplicate(), self.4.duplicate(), self.5.duplicate(), self.6.duplicate(), self.7.duplicate(), self.8.duplicate(), self.9.duplicate(), self.10.duplicate(), self.11.duplicate(), self.12.duplicate(), self.13.duplicate(), self.14.duplicate(), self.15.duplicate(), self.16.duplicate(), self.17.duplicate(), self.18.duplicate(), self.19.duplicate(), self.20.duplicate(), self.21.duplicate(), self.22.duplicate(), self.23.duplicate(), self.24.duplicate(), self.25.duplicate())
    }
}

impl<T0: ProjectionShape, T1: ProjectionShape, T2: ProjectionShape, T3: ProjectionShape, T4: ProjectionShape, T5: ProjectionShape, T6: ProjectionShape, T7: ProjectionShape, T8: ProjectionShape, T9: ProjectionShape, T10: ProjectionShape, T11: ProjectionShape, T12: ProjectionShape, T13: ProjectionShape, T14: ProjectionShape, T15: ProjectionShape, T16: ProjectionShape, T17: ProjectionShape, T18: ProjectionShape, T19: ProjectionShape, T20: ProjectionShape, T21: ProjectionShape, T22: ProjectionShape, T23: ProjectionShape, T24: ProjectionShape, T25: ProjectionShape> ProjectionShape for (T0, T1, T2, T3, T4, T5, T6, T7, T8, T9, T10, T11, T12, T13, T14, T15, T16, T17, T18, T19, T20, T21, T22, T23, T24, T25) {
    type Exprs<'scope> = (T0::Exprs<'scope>, T1::Exprs<'scope>, T2::Exprs<'scope>, T3::Exprs<'scope>, T4::Exprs<'scope>, T5::Exprs<'scope>, T6::Exprs<'scope>, T7::Exprs<'scope>, T8::Exprs<'scope>, T9::Exprs<'scope>, T10::Exprs<'scope>, T11::Exprs<'scope>, T12::Exprs<'scope>, T13::Exprs<'scope>, T14::Exprs<'scope>, T15::Exprs<'scope>, T16::Exprs<'scope>, T17::Exprs<'scope>, T18::Exprs<'scope>, T19::Exprs<'scope>, T20::Exprs<'scope>, T21::Exprs<'scope>, T22::Exprs<'scope>, T23::Exprs<'scope>, T24::Exprs<'scope>, T25::Exprs<'scope>);

    type ReboundExprs<'scope> = (T0::ReboundExprs<'scope>, T1::ReboundExprs<'scope>, T2::ReboundExprs<'scope>, T3::ReboundExprs<'scope>, T4::ReboundExprs<'scope>, T5::ReboundExprs<'scope>, T6::ReboundExprs<'scope>, T7::ReboundExprs<'scope>, T8::ReboundExprs<'scope>, T9::ReboundExprs<'scope>, T10::ReboundExprs<'scope>, T11::ReboundExprs<'scope>, T12::ReboundExprs<'scope>, T13::ReboundExprs<'scope>, T14::ReboundExprs<'scope>, T15::ReboundExprs<'scope>, T16::ReboundExprs<'scope>, T17::ReboundExprs<'scope>, T18::ReboundExprs<'scope>, T19::ReboundExprs<'scope>, T20::ReboundExprs<'scope>, T21::ReboundExprs<'scope>, T22::ReboundExprs<'scope>, T23::ReboundExprs<'scope>, T24::ReboundExprs<'scope>, T25::ReboundExprs<'scope>);

    type Row = (T0::Row, T1::Row, T2::Row, T3::Row, T4::Row, T5::Row, T6::Row, T7::Row, T8::Row, T9::Row, T10::Row, T11::Row, T12::Row, T13::Row, T14::Row, T15::Row, T16::Row, T17::Row, T18::Row, T19::Row, T20::Row, T21::Row, T22::Row, T23::Row, T24::Row, T25::Row);

    open spec fn shape_exprs<'scope>(alias: SourceAlias) -> Self::Exprs<'scope> {
        (T0::shape_exprs(alias), T1::shape_exprs(alias), T2::shape_exprs(alias), T3::shape_exprs(alias), T4::shape_exprs(alias), T5::shape_exprs(alias), T6::shape_exprs(alias), T7::shape_exprs(alias), T8::shape_exprs(alias), T9::shape_exprs(alias), T10::shape_exprs(alias), T11::shape_exprs(alias), T12::shape_exprs(alias), T13::shape_exprs(alias), T14::shape_exprs(alias), T15::shape_exprs(alias), T16::shape_exprs(alias), T17::shape_exprs(alias), T18::shape_exprs(alias), T19::shape_exprs(alias), T20::shape_exprs(alias), T21::shape_exprs(alias), T22::shape_exprs(alias), T23::shape_exprs(alias), T24::shape_exprs(alias), T25::shape_exprs(alias))
    }

    open spec fn shape_rebound<'scope>(alias: SourceAlias) -> Self::ReboundExprs<'scope> {
        (T0::shape_rebound(alias), T1::shape_rebound(alias), T2::shape_rebound(alias), T3::shape_rebound(alias), T4::shape_rebound(alias), T5::shape_rebound(alias), T6::shape_rebound(alias), T7::shape_rebound(alias), T8::shape_rebound(alias), T9::shape_rebound(alias), T10::shape_rebound(alias), T11::shape_rebound(alias), T12::shape_rebound(alias), T13::shape_rebound(alias), T14::shape_rebound(alias), T15::shape_rebound(alias), T16::shape_rebound(alias), T17::shape_rebound(alias), T18::shape_rebound(alias), T19::shape_rebound(alias), T20::shape_rebound(alias), T21::shape_rebound(alias), T22::shape_rebound(alias), T23::shape_rebound(alias), T24::shape_rebound(alias), T25::shape_rebound(alias))
    }

    fn exprs<'scope>(alias: SourceAlias) -> (exprs: Self::Exprs<'scope>) {
        (T0::exprs(alias), T1::exprs(alias), T2::exprs(alias), T3::exprs(alias), T4::exprs(alias), T5::exprs(alias), T6::exprs(alias), T7::exprs(alias), T8::exprs(alias), T9::exprs(alias), T10::exprs(alias), T11::exprs(alias), T12::exprs(alias), T13::exprs(alias), T14::exprs(alias), T15::exprs(alias), T16::exprs(alias), T17::exprs(alias), T18::exprs(alias), T19::exprs(alias), T20::exprs(alias), T21::exprs(alias), T22::exprs(alias), T23::exprs(alias), T24::exprs(alias), T25::exprs(alias))
    }

    fn rebound_exprs<'scope>(alias: SourceAlias) -> (exprs: Self::ReboundExprs<'scope>) {
        (T0::rebound_exprs(alias), T1::rebound_exprs(alias), T2::rebound_exprs(alias), T3::rebound_exprs(alias), T4::rebound_exprs(alias), T5::rebound_exprs(alias), T6::rebound_exprs(alias), T7::rebound_exprs(alias), T8::rebound_exprs(alias), T9::rebound_exprs(alias), T10::rebound_exprs(alias), T11::rebound_exprs(alias), T12::rebound_exprs(alias), T13::rebound_exprs(alias), T14::rebound_exprs(alias), T15::rebound_exprs(alias), T16::rebound_exprs(alias), T17::rebound_exprs(alias), T18::rebound_exprs(alias), T19::rebound_exprs(alias), T20::rebound_exprs(alias), T21::rebound_exprs(alias), T22::rebound_exprs(alias), T23::rebound_exprs(alias), T24::rebound_exprs(alias), T25::rebound_exprs(alias))
    }
}

impl<T0, T1, T2, T3, T4, T5, T6, T7, T8, T9, T10, T11, T12, T13, T14, T15, T16, T17, T18, T19, T20, T21, T22, T23, T24, T25> ProjectionParams for (T0, T1, T2, T3, T4, T5, T6, T7, T8, T9, T10, T11, T12, T13, T14, T15, T16, T17, T18, T19, T20, T21, T22, T23, T24, T25) where
    (T0, T1, T2, T3, T4, T5, T6, T7, T8, T9, T10, T11, T12, T13, T14, T15): ProjectionParams,
    (T16, T17, T18, T19, T20, T21, T22, T23, T24, T25): ProjectionParams,
    <(T0, T1, T2, T3, T4, T5, T6, T7, T8, T9, T10, T11, T12, T13, T14, T15) as ProjectionParams>::Params: HAppend<<(T16, T17, T18, T19, T20, T21, T22, T23, T24, T25) as ProjectionParams>::Params>,
 {
    type Params = <<(T0, T1, T2, T3, T4, T5, T6, T7, T8, T9, T10, T11, T12, T13, T14, T15) as ProjectionParams>::Params as HAppend<<(T16, T17, T18, T19, T20, T21, T22, T23, T24, T25) as ProjectionParams>::Params>>::Output;
}

impl<T0: ProjectionClass, T1: ProjectionClass<Class = T0::Class>, T2: ProjectionClass<Class = T0::Class>, T3: ProjectionClass<Class = T0::Class>, T4: ProjectionClass<Class = T0::Class>, T5: ProjectionClass<Class = T0::Class>, T6: ProjectionClass<Class = T0::Class>, T7: ProjectionClass<Class = T0::Class>, T8: ProjectionClass<Class = T0::Class>, T9: ProjectionClass<Class = T0::Class>, T10: ProjectionClass<Class = T0::Class>, T11: ProjectionClass<Class = T0::Class>, T12: ProjectionClass<Class = T0::Class>, T13: ProjectionClass<Class = T0::Class>, T14: ProjectionClass<Class = T0::Class>, T15: ProjectionClass<Class = T0::Class>, T16: ProjectionClass<Class = T0::Class>, T17: ProjectionClass<Class = T0::Class>, T18: ProjectionClass<Class = T0::Class>, T19: ProjectionClass<Class = T0::Class>, T20: ProjectionClass<Class = T0::Class>, T21: ProjectionClass<Class = T0::Class>, T22: ProjectionClass<Class = T0::Class>, T23: ProjectionClass<Class = T0::Class>, T24: ProjectionClass<Class = T0::Class>, T25: ProjectionClass<Class = T0::Class>> ProjectionClass for (T0, T1, T2, T3, T4, T5, T6, T7, T8, T9, T10, T11, T12, T13, T14, T15, T16, T17, T18, T19, T20, T21, T22, T23, T24, T25) {
    type Class = T0::Class;
}

impl<T0: ReturnableProjection, T1: ReturnableProjection, T2: ReturnableProjection, T3: ReturnableProjection, T4: ReturnableProjection, T5: ReturnableProjection, T6: ReturnableProjection, T7: ReturnableProjection, T8: ReturnableProjection, T9: ReturnableProjection, T10: ReturnableProjection, T11: ReturnableProjection, T12: ReturnableProjection, T13: ReturnableProjection, T14: ReturnableProjection, T15: ReturnableProjection, T16: ReturnableProjection, T17: ReturnableProjection, T18: ReturnableProjection, T19: ReturnableProjection, T20: ReturnableProjection, T21: ReturnableProjection, T22: ReturnableProjection, T23: ReturnableProjection, T24: ReturnableProjection, T25: ReturnableProjection> ReturnableProjection for (T0, T1, T2, T3, T4, T5, T6, T7, T8, T9, T10, T11, T12, T13, T14, T15, T16, T17, T18, T19, T20, T21, T22, T23, T24, T25) {

}

impl<T0: Projectable, T1: Projectable, T2: Projectable, T3: Projectable, T4: Projectable, T5: Projectable, T6: Projectable, T7: Projectable, T8: Projectable, T9: Projectable, T10: Projectable, T11: Projectable, T12: Projectable, T13: Projectable, T14: Projectable, T15: Projectable, T16: Projectable, T17: Projectable, T18: Projectable, T19: Projectable, T20: Projectable, T21: Projectable, T22: Projectable, T23: Projectable, T24: Projectable, T25: Projectable, B: Backend> RenderProjectable<B> for (T0, T1, T2, T3, T4, T5, T6, T7, T8, T9, T10, T11, T12, T13, T14, T15, T16, T17, T18, T19, T20, T21, T22, T23, T24, T25) where
    (T0, T1, T2, T3, T4, T5, T6, T7, T8, T9, T10, T11, T12, T13, T14, T15): RenderProjectable<B>,
    (T16, T17, T18, T19, T20, T21, T22, T23, T24, T25): RenderProjectable<B>,
    <(T0, T1, T2, T3, T4, T5, T6, T7, T8, T9, T10, T11, T12, T13, T14, T15) as ProjectionParams>::Params: HAppend<<(T16, T17, T18, T19, T20, T21, T22, T23, T24, T25) as ProjectionParams>::Params>,
 {
    open spec fn items(&self) -> List<ProjectionTree<Bound<B>>> {
        (self.0, self.1, self.2, self.3, self.4, self.5, self.6, self.7, self.8, self.9, self.10, self.11, self.12, self.13, self.14, self.15).items().then_list((self.16, self.17, self.18, self.19, self.20, self.21, self.22, self.23, self.24, self.25).items())
    }

    fn lower_projection(&self) -> (items: List<ProjectionTree<Bound<B>>>) {
        let front = (self.0.duplicate(), self.1.duplicate(), self.2.duplicate(), self.3.duplicate(), self.4.duplicate(), self.5.duplicate(), self.6.duplicate(), self.7.duplicate(), self.8.duplicate(), self.9.duplicate(), self.10.duplicate(), self.11.duplicate(), self.12.duplicate(), self.13.duplicate(), self.14.duplicate(), self.15.duplicate());
        let back = (self.16.duplicate(), self.17.duplicate(), self.18.duplicate(), self.19.duplicate(), self.20.duplicate(), self.21.duplicate(), self.22.duplicate(), self.23.duplicate(), self.24.duplicate(), self.25.duplicate());
        front.lower_projection().append(back.lower_projection())
    }

    fn lower_projection_with_prefix(&self, prefix: &str) -> (items: List<
        ProjectionTree<Bound<B>>,
    >) {
        let front = (self.0.duplicate(), self.1.duplicate(), self.2.duplicate(), self.3.duplicate(), self.4.duplicate(), self.5.duplicate(), self.6.duplicate(), self.7.duplicate(), self.8.duplicate(), self.9.duplicate(), self.10.duplicate(), self.11.duplicate(), self.12.duplicate(), self.13.duplicate(), self.14.duplicate(), self.15.duplicate());
        let back = (self.16.duplicate(), self.17.duplicate(), self.18.duplicate(), self.19.duplicate(), self.20.duplicate(), self.21.duplicate(), self.22.duplicate(), self.23.duplicate(), self.24.duplicate(), self.25.duplicate());
        let first = front.lower_projection_with_prefix(prefix);
        let rest = back.lower_projection_with_prefix(prefix);
        proof {
            crate::projection::lemma_prefixed_parts(front.items(), back.items(), prefix@, first, rest);
        }
        first.append(rest)
    }

    proof fn lemma_projection_params<D: Dialect>(&self, dialect: D, bare: bool, lead: Seq<char>) {
        let front = (self.0, self.1, self.2, self.3, self.4, self.5, self.6, self.7, self.8, self.9, self.10, self.11, self.12, self.13, self.14, self.15);
        let back = (self.16, self.17, self.18, self.19, self.20, self.21, self.22, self.23, self.24, self.25);
        let between = if front.items() is Nil { lead } else { ", "@ };
        front.lemma_projection_params(dialect, bare, lead);
        back.lemma_projection_params(dialect, bare, between);
        crate::projection::lemma_projection_parts(dialect, bare, lead, front.items(), back.items());
        <<(T0, T1, T2, T3, T4, T5, T6, T7, T8, T9, T10, T11, T12, T13, T14, T15) as ProjectionParams>::Params as HAppend<<(T16, T17, T18, T19, T20, T21, T22, T23, T24, T25) as ProjectionParams>::Params>>::lemma_append_width();
    }

    proof fn lemma_projection_plain(&self) {
        let front = (self.0, self.1, self.2, self.3, self.4, self.5, self.6, self.7, self.8, self.9, self.10, self.11, self.12, self.13, self.14, self.15);
        let back = (self.16, self.17, self.18, self.19, self.20, self.21, self.22, self.23, self.24, self.25);
        <<(T0, T1, T2, T3, T4, T5, T6, T7, T8, T9, T10, T11, T12, T13, T14, T15) as ProjectionParams>::Params as HAppend<<(T16, T17, T18, T19, T20, T21, T22, T23, T24, T25) as ProjectionParams>::Params>>::lemma_append_width();
        front.lemma_projection_plain();
        back.lemma_projection_plain();
        crate::projection::lemma_plain_parts(front.items(), back.items());
    }
}

impl<'scope, T0: ReturningProjection<'scope>, T1: ReturningProjection<'scope>, T2: ReturningProjection<'scope>, T3: ReturningProjection<'scope>, T4: ReturningProjection<'scope>, T5: ReturningProjection<'scope>, T6: ReturningProjection<'scope>, T7: ReturningProjection<'scope>, T8: ReturningProjection<'scope>, T9: ReturningProjection<'scope>, T10: ReturningProjection<'scope>, T11: ReturningProjection<'scope>, T12: ReturningProjection<'scope>, T13: ReturningProjection<'scope>, T14: ReturningProjection<'scope>, T15: ReturningProjection<'scope>, T16: ReturningProjection<'scope>, T17: ReturningProjection<'scope>, T18: ReturningProjection<'scope>, T19: ReturningProjection<'scope>, T20: ReturningProjection<'scope>, T21: ReturningProjection<'scope>, T22: ReturningProjection<'scope>, T23: ReturningProjection<'scope>, T24: ReturningProjection<'scope>, T25: ReturningProjection<'scope>> ReturningProjection<'scope> for (T0, T1, T2, T3, T4, T5, T6, T7, T8, T9, T10, T11, T12, T13, T14, T15, T16, T17, T18, T19, T20, T21, T22, T23, T24, T25) {
    type Shape = (T0::Shape, T1::Shape, T2::Shape, T3::Shape, T4::Shape, T5::Shape, T6::Shape, T7::Shape, T8::Shape, T9::Shape, T10::Shape, T11::Shape, T12::Shape, T13::Shape, T14::Shape, T15::Shape, T16::Shape, T17::Shape, T18::Shape, T19::Shape, T20::Shape, T21::Shape, T22::Shape, T23::Shape, T24::Shape, T25::Shape);
}

impl<T0: Projectable, T1: Projectable, T2: Projectable, T3: Projectable, T4: Projectable, T5: Projectable, T6: Projectable, T7: Projectable, T8: Projectable, T9: Projectable, T10: Projectable, T11: Projectable, T12: Projectable, T13: Projectable, T14: Projectable, T15: Projectable, T16: Projectable, T17: Projectable, T18: Projectable, T19: Projectable, T20: Projectable, T21: Projectable, T22: Projectable, T23: Projectable, T24: Projectable, T25: Projectable, T26: Projectable> Projectable for (T0, T1, T2, T3, T4, T5, T6, T7, T8, T9, T10, T11, T12, T13, T14, T15, T16, T17, T18, T19, T20, T21, T22, T23, T24, T25, T26) {
    type Rebound<'scope> = (T0::Rebound<'scope>, T1::Rebound<'scope>, T2::Rebound<'scope>, T3::Rebound<'scope>, T4::Rebound<'scope>, T5::Rebound<'scope>, T6::Rebound<'scope>, T7::Rebound<'scope>, T8::Rebound<'scope>, T9::Rebound<'scope>, T10::Rebound<'scope>, T11::Rebound<'scope>, T12::Rebound<'scope>, T13::Rebound<'scope>, T14::Rebound<'scope>, T15::Rebound<'scope>, T16::Rebound<'scope>, T17::Rebound<'scope>, T18::Rebound<'scope>, T19::Rebound<'scope>, T20::Rebound<'scope>, T21::Rebound<'scope>, T22::Rebound<'scope>, T23::Rebound<'scope>, T24::Rebound<'scope>, T25::Rebound<'scope>, T26::Rebound<'scope>);

    open spec fn rebound<'scope>(&self, alias: SourceAlias) -> Self::Rebound<'scope> {
        (self.0.rebound(alias), self.1.rebound(alias), self.2.rebound(alias), self.3.rebound(alias), self.4.rebound(alias), self.5.rebound(alias), self.6.rebound(alias), self.7.rebound(alias), self.8.rebound(alias), self.9.rebound(alias), self.10.rebound(alias), self.11.rebound(alias), self.12.rebound(alias), self.13.rebound(alias), self.14.rebound(alias), self.15.rebound(alias), self.16.rebound(alias), self.17.rebound(alias), self.18.rebound(alias), self.19.rebound(alias), self.20.rebound(alias), self.21.rebound(alias), self.22.rebound(alias), self.23.rebound(alias), self.24.rebound(alias), self.25.rebound(alias), self.26.rebound(alias))
    }

    open spec fn rebinds_with_prefix<'scope>(
        &self,
        alias: SourceAlias,
        prefix: Seq<char>,
        rebound: Self::Rebound<'scope>,
    ) -> bool {
        &&& self.0.rebinds_with_prefix(alias, prefix, rebound.0)
        &&& self.1.rebinds_with_prefix(alias, prefix, rebound.1)
        &&& self.2.rebinds_with_prefix(alias, prefix, rebound.2)
        &&& self.3.rebinds_with_prefix(alias, prefix, rebound.3)
        &&& self.4.rebinds_with_prefix(alias, prefix, rebound.4)
        &&& self.5.rebinds_with_prefix(alias, prefix, rebound.5)
        &&& self.6.rebinds_with_prefix(alias, prefix, rebound.6)
        &&& self.7.rebinds_with_prefix(alias, prefix, rebound.7)
        &&& self.8.rebinds_with_prefix(alias, prefix, rebound.8)
        &&& self.9.rebinds_with_prefix(alias, prefix, rebound.9)
        &&& self.10.rebinds_with_prefix(alias, prefix, rebound.10)
        &&& self.11.rebinds_with_prefix(alias, prefix, rebound.11)
        &&& self.12.rebinds_with_prefix(alias, prefix, rebound.12)
        &&& self.13.rebinds_with_prefix(alias, prefix, rebound.13)
        &&& self.14.rebinds_with_prefix(alias, prefix, rebound.14)
        &&& self.15.rebinds_with_prefix(alias, prefix, rebound.15)
        &&& self.16.rebinds_with_prefix(alias, prefix, rebound.16)
        &&& self.17.rebinds_with_prefix(alias, prefix, rebound.17)
        &&& self.18.rebinds_with_prefix(alias, prefix, rebound.18)
        &&& self.19.rebinds_with_prefix(alias, prefix, rebound.19)
        &&& self.20.rebinds_with_prefix(alias, prefix, rebound.20)
        &&& self.21.rebinds_with_prefix(alias, prefix, rebound.21)
        &&& self.22.rebinds_with_prefix(alias, prefix, rebound.22)
        &&& self.23.rebinds_with_prefix(alias, prefix, rebound.23)
        &&& self.24.rebinds_with_prefix(alias, prefix, rebound.24)
        &&& self.25.rebinds_with_prefix(alias, prefix, rebound.25)
        &&& self.26.rebinds_with_prefix(alias, prefix, rebound.26)
    }

    fn re_alias<'scope>(&self, alias: SourceAlias) -> (rebound: Self::Rebound<'scope>) {
        (self.0.re_alias(alias), self.1.re_alias(alias), self.2.re_alias(alias), self.3.re_alias(alias), self.4.re_alias(alias), self.5.re_alias(alias), self.6.re_alias(alias), self.7.re_alias(alias), self.8.re_alias(alias), self.9.re_alias(alias), self.10.re_alias(alias), self.11.re_alias(alias), self.12.re_alias(alias), self.13.re_alias(alias), self.14.re_alias(alias), self.15.re_alias(alias), self.16.re_alias(alias), self.17.re_alias(alias), self.18.re_alias(alias), self.19.re_alias(alias), self.20.re_alias(alias), self.21.re_alias(alias), self.22.re_alias(alias), self.23.re_alias(alias), self.24.re_alias(alias), self.25.re_alias(alias), self.26.re_alias(alias))
    }

    fn re_alias_with_prefix<'scope>(&self, alias: SourceAlias, prefix: &str) -> (rebound:
        Self::Rebound<'scope>) {
        (self.0.re_alias_with_prefix(alias, prefix), self.1.re_alias_with_prefix(alias, prefix), self.2.re_alias_with_prefix(alias, prefix), self.3.re_alias_with_prefix(alias, prefix), self.4.re_alias_with_prefix(alias, prefix), self.5.re_alias_with_prefix(alias, prefix), self.6.re_alias_with_prefix(alias, prefix), self.7.re_alias_with_prefix(alias, prefix), self.8.re_alias_with_prefix(alias, prefix), self.9.re_alias_with_prefix(alias, prefix), self.10.re_alias_with_prefix(alias, prefix), self.11.re_alias_with_prefix(alias, prefix), self.12.re_alias_with_prefix(alias, prefix), self.13.re_alias_with_prefix(alias, prefix), self.14.re_alias_with_prefix(alias, prefix), self.15.re_alias_with_prefix(alias, prefix), self.16.re_alias_with_prefix(alias, prefix), self.17.re_alias_with_prefix(alias, prefix), self.18.re_alias_with_prefix(alias, prefix), self.19.re_alias_with_prefix(alias, prefix), self.20.re_alias_with_prefix(alias, prefix), self.21.re_alias_with_prefix(alias, prefix), self.22.re_alias_with_prefix(alias, prefix), self.23.re_alias_with_prefix(alias, prefix), self.24.re_alias_with_prefix(alias, prefix), self.25.re_alias_with_prefix(alias, prefix), self.26.re_alias_with_prefix(alias, prefix))
    }
}

impl<T0: Duplicate, T1: Duplicate, T2: Duplicate, T3: Duplicate, T4: Duplicate, T5: Duplicate, T6: Duplicate, T7: Duplicate, T8: Duplicate, T9: Duplicate, T10: Duplicate, T11: Duplicate, T12: Duplicate, T13: Duplicate, T14: Duplicate, T15: Duplicate, T16: Duplicate, T17: Duplicate, T18: Duplicate, T19: Duplicate, T20: Duplicate, T21: Duplicate, T22: Duplicate, T23: Duplicate, T24: Duplicate, T25: Duplicate, T26: Duplicate> Duplicate for (T0, T1, T2, T3, T4, T5, T6, T7, T8, T9, T10, T11, T12, T13, T14, T15, T16, T17, T18, T19, T20, T21, T22, T23, T24, T25, T26) {
    fn duplicate(&self) -> (copy: Self) {
        (self.0.duplicate(), self.1.duplicate(), self.2.duplicate(), self.3.duplicate(), self.4.duplicate(), self.5.duplicate(), self.6.duplicate(), self.7.duplicate(), self.8.duplicate(), self.9.duplicate(), self.10.duplicate(), self.11.duplicate(), self.12.duplicate(), self.13.duplicate(), self.14.duplicate(), self.15.duplicate(), self.16.duplicate(), self.17.duplicate(), self.18.duplicate(), self.19.duplicate(), self.20.duplicate(), self.21.duplicate(), self.22.duplicate(), self.23.duplicate(), self.24.duplicate(), self.25.duplicate(), self.26.duplicate())
    }
}

impl<T0: ProjectionShape, T1: ProjectionShape, T2: ProjectionShape, T3: ProjectionShape, T4: ProjectionShape, T5: ProjectionShape, T6: ProjectionShape, T7: ProjectionShape, T8: ProjectionShape, T9: ProjectionShape, T10: ProjectionShape, T11: ProjectionShape, T12: ProjectionShape, T13: ProjectionShape, T14: ProjectionShape, T15: ProjectionShape, T16: ProjectionShape, T17: ProjectionShape, T18: ProjectionShape, T19: ProjectionShape, T20: ProjectionShape, T21: ProjectionShape, T22: ProjectionShape, T23: ProjectionShape, T24: ProjectionShape, T25: ProjectionShape, T26: ProjectionShape> ProjectionShape for (T0, T1, T2, T3, T4, T5, T6, T7, T8, T9, T10, T11, T12, T13, T14, T15, T16, T17, T18, T19, T20, T21, T22, T23, T24, T25, T26) {
    type Exprs<'scope> = (T0::Exprs<'scope>, T1::Exprs<'scope>, T2::Exprs<'scope>, T3::Exprs<'scope>, T4::Exprs<'scope>, T5::Exprs<'scope>, T6::Exprs<'scope>, T7::Exprs<'scope>, T8::Exprs<'scope>, T9::Exprs<'scope>, T10::Exprs<'scope>, T11::Exprs<'scope>, T12::Exprs<'scope>, T13::Exprs<'scope>, T14::Exprs<'scope>, T15::Exprs<'scope>, T16::Exprs<'scope>, T17::Exprs<'scope>, T18::Exprs<'scope>, T19::Exprs<'scope>, T20::Exprs<'scope>, T21::Exprs<'scope>, T22::Exprs<'scope>, T23::Exprs<'scope>, T24::Exprs<'scope>, T25::Exprs<'scope>, T26::Exprs<'scope>);

    type ReboundExprs<'scope> = (T0::ReboundExprs<'scope>, T1::ReboundExprs<'scope>, T2::ReboundExprs<'scope>, T3::ReboundExprs<'scope>, T4::ReboundExprs<'scope>, T5::ReboundExprs<'scope>, T6::ReboundExprs<'scope>, T7::ReboundExprs<'scope>, T8::ReboundExprs<'scope>, T9::ReboundExprs<'scope>, T10::ReboundExprs<'scope>, T11::ReboundExprs<'scope>, T12::ReboundExprs<'scope>, T13::ReboundExprs<'scope>, T14::ReboundExprs<'scope>, T15::ReboundExprs<'scope>, T16::ReboundExprs<'scope>, T17::ReboundExprs<'scope>, T18::ReboundExprs<'scope>, T19::ReboundExprs<'scope>, T20::ReboundExprs<'scope>, T21::ReboundExprs<'scope>, T22::ReboundExprs<'scope>, T23::ReboundExprs<'scope>, T24::ReboundExprs<'scope>, T25::ReboundExprs<'scope>, T26::ReboundExprs<'scope>);

    type Row = (T0::Row, T1::Row, T2::Row, T3::Row, T4::Row, T5::Row, T6::Row, T7::Row, T8::Row, T9::Row, T10::Row, T11::Row, T12::Row, T13::Row, T14::Row, T15::Row, T16::Row, T17::Row, T18::Row, T19::Row, T20::Row, T21::Row, T22::Row, T23::Row, T24::Row, T25::Row, T26::Row);

    open spec fn shape_exprs<'scope>(alias: SourceAlias) -> Self::Exprs<'scope> {
        (T0::shape_exprs(alias), T1::shape_exprs(alias), T2::shape_exprs(alias), T3::shape_exprs(alias), T4::shape_exprs(alias), T5::shape_exprs(alias), T6::shape_exprs(alias), T7::shape_exprs(alias), T8::shape_exprs(alias), T9::shape_exprs(alias), T10::shape_exprs(alias), T11::shape_exprs(alias), T12::shape_exprs(alias), T13::shape_exprs(alias), T14::shape_exprs(alias), T15::shape_exprs(alias), T16::shape_exprs(alias), T17::shape_exprs(alias), T18::shape_exprs(alias), T19::shape_exprs(alias), T20::shape_exprs(alias), T21::shape_exprs(alias), T22::shape_exprs(alias), T23::shape_exprs(alias), T24::shape_exprs(alias), T25::shape_exprs(alias), T26::shape_exprs(alias))
    }

    open spec fn shape_rebound<'scope>(alias: SourceAlias) -> Self::ReboundExprs<'scope> {
        (T0::shape_rebound(alias), T1::shape_rebound(alias), T2::shape_rebound(alias), T3::shape_rebound(alias), T4::shape_rebound(alias), T5::shape_rebound(alias), T6::shape_rebound(alias), T7::shape_rebound(alias), T8::shape_rebound(alias), T9::shape_rebound(alias), T10::shape_rebound(alias), T11::shape_rebound(alias), T12::shape_rebound(alias), T13::shape_rebound(alias), T14::shape_rebound(alias), T15::shape_rebound(alias), T16::shape_rebound(alias), T17::shape_rebound(alias), T18::shape_rebound(alias), T19::shape_rebound(alias), T20::shape_rebound(alias), T21::shape_rebound(alias), T22::shape_rebound(alias), T23::shape_rebound(alias), T24::shape_rebound(alias), T25::shape_rebound(alias), T26::shape_rebound(alias))
    }

    fn exprs<'scope>(alias: SourceAlias) -> (exprs: Self::Exprs<'scope>) {
        (T0::exprs(alias), T1::exprs(alias), T2::exprs(alias), T3::exprs(alias), T4::exprs(alias), T5::exprs(alias), T6::exprs(alias), T7::exprs(alias), T8::exprs(alias), T9::exprs(alias), T10::exprs(alias), T11::exprs(alias), T12::exprs(alias), T13::exprs(alias), T14::exprs(alias), T15::exprs(alias), T16::exprs(alias), T17::exprs(alias), T18::exprs(alias), T19::exprs(alias), T20::exprs(alias), T21::exprs(alias), T22::exprs(alias), T23::exprs(alias), T24::exprs(alias), T25::exprs(alias), T26::exprs(alias))
    }

    fn rebound_exprs<'scope>(alias: SourceAlias) -> (exprs: Self::ReboundExprs<'scope>) {
        (T0::rebound_exprs(alias), T1::rebound_exprs(alias), T2::rebound_exprs(alias), T3::rebound_exprs(alias), T4::rebound_exprs(alias), T5::rebound_exprs(alias), T6::rebound_exprs(alias), T7::rebound_exprs(alias), T8::rebound_exprs(alias), T9::rebound_exprs(alias), T10::rebound_exprs(alias), T11::rebound_exprs(alias), T12::rebound_exprs(alias), T13::rebound_exprs(alias), T14::rebound_exprs(alias), T15::rebound_exprs(alias), T16::rebound_exprs(alias), T17::rebound_exprs(alias), T18::rebound_exprs(alias), T19::rebound_exprs(alias), T20::rebound_exprs(alias), T21::rebound_exprs(alias), T22::rebound_exprs(alias), T23::rebound_exprs(alias), T24::rebound_exprs(alias), T25::rebound_exprs(alias), T26::rebound_exprs(alias))
    }
}

impl<T0, T1, T2, T3, T4, T5, T6, T7, T8, T9, T10, T11, T12, T13, T14, T15, T16, T17, T18, T19, T20, T21, T22, T23, T24, T25, T26> ProjectionParams for (T0, T1, T2, T3, T4, T5, T6, T7, T8, T9, T10, T11, T12, T13, T14, T15, T16, T17, T18, T19, T20, T21, T22, T23, T24, T25, T26) where
    (T0, T1, T2, T3, T4, T5, T6, T7, T8, T9, T10, T11, T12, T13, T14, T15): ProjectionParams,
    (T16, T17, T18, T19, T20, T21, T22, T23, T24, T25, T26): ProjectionParams,
    <(T0, T1, T2, T3, T4, T5, T6, T7, T8, T9, T10, T11, T12, T13, T14, T15) as ProjectionParams>::Params: HAppend<<(T16, T17, T18, T19, T20, T21, T22, T23, T24, T25, T26) as ProjectionParams>::Params>,
 {
    type Params = <<(T0, T1, T2, T3, T4, T5, T6, T7, T8, T9, T10, T11, T12, T13, T14, T15) as ProjectionParams>::Params as HAppend<<(T16, T17, T18, T19, T20, T21, T22, T23, T24, T25, T26) as ProjectionParams>::Params>>::Output;
}

impl<T0: ProjectionClass, T1: ProjectionClass<Class = T0::Class>, T2: ProjectionClass<Class = T0::Class>, T3: ProjectionClass<Class = T0::Class>, T4: ProjectionClass<Class = T0::Class>, T5: ProjectionClass<Class = T0::Class>, T6: ProjectionClass<Class = T0::Class>, T7: ProjectionClass<Class = T0::Class>, T8: ProjectionClass<Class = T0::Class>, T9: ProjectionClass<Class = T0::Class>, T10: ProjectionClass<Class = T0::Class>, T11: ProjectionClass<Class = T0::Class>, T12: ProjectionClass<Class = T0::Class>, T13: ProjectionClass<Class = T0::Class>, T14: ProjectionClass<Class = T0::Class>, T15: ProjectionClass<Class = T0::Class>, T16: ProjectionClass<Class = T0::Class>, T17: ProjectionClass<Class = T0::Class>, T18: ProjectionClass<Class = T0::Class>, T19: ProjectionClass<Class = T0::Class>, T20: ProjectionClass<Class = T0::Class>, T21: ProjectionClass<Class = T0::Class>, T22: ProjectionClass<Class = T0::Class>, T23: ProjectionClass<Class = T0::Class>, T24: ProjectionClass<Class = T0::Class>, T25: ProjectionClass<Class = T0::Class>, T26: ProjectionClass<Class = T0::Class>> ProjectionClass for (T0, T1, T2, T3, T4, T5, T6, T7, T8, T9, T10, T11, T12, T13, T14, T15, T16, T17, T18, T19, T20, T21, T22, T23, T24, T25, T26) {
    type Class = T0::Class;
}

impl<T0: ReturnableProjection, T1: ReturnableProjection, T2: ReturnableProjection, T3: ReturnableProjection, T4: ReturnableProjection, T5: ReturnableProjection, T6: ReturnableProjection, T7: ReturnableProjection, T8: ReturnableProjection, T9: ReturnableProjection, T10: ReturnableProjection, T11: ReturnableProjection, T12: ReturnableProjection, T13: ReturnableProjection, T14: ReturnableProjection, T15: ReturnableProjection, T16: ReturnableProjection, T17: ReturnableProjection, T18: ReturnableProjection, T19: ReturnableProjection, T20: ReturnableProjection, T21: ReturnableProjection, T22: ReturnableProjection, T23: ReturnableProjection, T24: ReturnableProjection, T25: ReturnableProjection, T26: ReturnableProjection> ReturnableProjection for (T0, T1, T2, T3, T4, T5, T6, T7, T8, T9, T10, T11, T12, T13, T14, T15, T16, T17, T18, T19, T20, T21, T22, T23, T24, T25, T26) {

}

impl<T0: Projectable, T1: Projectable, T2: Projectable, T3: Projectable, T4: Projectable, T5: Projectable, T6: Projectable, T7: Projectable, T8: Projectable, T9: Projectable, T10: Projectable, T11: Projectable, T12: Projectable, T13: Projectable, T14: Projectable, T15: Projectable, T16: Projectable, T17: Projectable, T18: Projectable, T19: Projectable, T20: Projectable, T21: Projectable, T22: Projectable, T23: Projectable, T24: Projectable, T25: Projectable, T26: Projectable, B: Backend> RenderProjectable<B> for (T0, T1, T2, T3, T4, T5, T6, T7, T8, T9, T10, T11, T12, T13, T14, T15, T16, T17, T18, T19, T20, T21, T22, T23, T24, T25, T26) where
    (T0, T1, T2, T3, T4, T5, T6, T7, T8, T9, T10, T11, T12, T13, T14, T15): RenderProjectable<B>,
    (T16, T17, T18, T19, T20, T21, T22, T23, T24, T25, T26): RenderProjectable<B>,
    <(T0, T1, T2, T3, T4, T5, T6, T7, T8, T9, T10, T11, T12, T13, T14, T15) as ProjectionParams>::Params: HAppend<<(T16, T17, T18, T19, T20, T21, T22, T23, T24, T25, T26) as ProjectionParams>::Params>,
 {
    open spec fn items(&self) -> List<ProjectionTree<Bound<B>>> {
        (self.0, self.1, self.2, self.3, self.4, self.5, self.6, self.7, self.8, self.9, self.10, self.11, self.12, self.13, self.14, self.15).items().then_list((self.16, self.17, self.18, self.19, self.20, self.21, self.22, self.23, self.24, self.25, self.26).items())
    }

    fn lower_projection(&self) -> (items: List<ProjectionTree<Bound<B>>>) {
        let front = (self.0.duplicate(), self.1.duplicate(), self.2.duplicate(), self.3.duplicate(), self.4.duplicate(), self.5.duplicate(), self.6.duplicate(), self.7.duplicate(), self.8.duplicate(), self.9.duplicate(), self.10.duplicate(), self.11.duplicate(), self.12.duplicate(), self.13.duplicate(), self.14.duplicate(), self.15.duplicate());
        let back = (self.16.duplicate(), self.17.duplicate(), self.18.duplicate(), self.19.duplicate(), self.20.duplicate(), self.21.duplicate(), self.22.duplicate(), self.23.duplicate(), self.24.duplicate(), self.25.duplicate(), self.26.duplicate());
        front.lower_projection().append(back.lower_projection())
    }

    fn lower_projection_with_prefix(&self, prefix: &str) -> (items: List<
        ProjectionTree<Bound<B>>,
    >) {
        let front = (self.0.duplicate(), self.1.duplicate(), self.2.duplicate(), self.3.duplicate(), self.4.duplicate(), self.5.duplicate(), self.6.duplicate(), self.7.duplicate(), self.8.duplicate(), self.9.duplicate(), self.10.duplicate(), self.11.duplicate(), self.12.duplicate(), self.13.duplicate(), self.14.duplicate(), self.15.duplicate());
        let back = (self.16.duplicate(), self.17.duplicate(), self.18.duplicate(), self.19.duplicate(), self.20.duplicate(), self.21.duplicate(), self.22.duplicate(), self.23.duplicate(), self.24.duplicate(), self.25.duplicate(), self.26.duplicate());
        let first = front.lower_projection_with_prefix(prefix);
        let rest = back.lower_projection_with_prefix(prefix);
        proof {
            crate::projection::lemma_prefixed_parts(front.items(), back.items(), prefix@, first, rest);
        }
        first.append(rest)
    }

    proof fn lemma_projection_params<D: Dialect>(&self, dialect: D, bare: bool, lead: Seq<char>) {
        let front = (self.0, self.1, self.2, self.3, self.4, self.5, self.6, self.7, self.8, self.9, self.10, self.11, self.12, self.13, self.14, self.15);
        let back = (self.16, self.17, self.18, self.19, self.20, self.21, self.22, self.23, self.24, self.25, self.26);
        let between = if front.items() is Nil { lead } else { ", "@ };
        front.lemma_projection_params(dialect, bare, lead);
        back.lemma_projection_params(dialect, bare, between);
        crate::projection::lemma_projection_parts(dialect, bare, lead, front.items(), back.items());
        <<(T0, T1, T2, T3, T4, T5, T6, T7, T8, T9, T10, T11, T12, T13, T14, T15) as ProjectionParams>::Params as HAppend<<(T16, T17, T18, T19, T20, T21, T22, T23, T24, T25, T26) as ProjectionParams>::Params>>::lemma_append_width();
    }

    proof fn lemma_projection_plain(&self) {
        let front = (self.0, self.1, self.2, self.3, self.4, self.5, self.6, self.7, self.8, self.9, self.10, self.11, self.12, self.13, self.14, self.15);
        let back = (self.16, self.17, self.18, self.19, self.20, self.21, self.22, self.23, self.24, self.25, self.26);
        <<(T0, T1, T2, T3, T4, T5, T6, T7, T8, T9, T10, T11, T12, T13, T14, T15) as ProjectionParams>::Params as HAppend<<(T16, T17, T18, T19, T20, T21, T22, T23, T24, T25, T26) as ProjectionParams>::Params>>::lemma_append_width();
        front.lemma_projection_plain();
        back.lemma_projection_plain();
        crate::projection::lemma_plain_parts(front.items(), back.items());
    }
}

impl<'scope, T0: ReturningProjection<'scope>, T1: ReturningProjection<'scope>, T2: ReturningProjection<'scope>, T3: ReturningProjection<'scope>, T4: ReturningProjection<'scope>, T5: ReturningProjection<'scope>, T6: ReturningProjection<'scope>, T7: ReturningProjection<'scope>, T8: ReturningProjection<'scope>, T9: ReturningProjection<'scope>, T10: ReturningProjection<'scope>, T11: ReturningProjection<'scope>, T12: ReturningProjection<'scope>, T13: ReturningProjection<'scope>, T14: ReturningProjection<'scope>, T15: ReturningProjection<'scope>, T16: ReturningProjection<'scope>, T17: ReturningProjection<'scope>, T18: ReturningProjection<'scope>, T19: ReturningProjection<'scope>, T20: ReturningProjection<'scope>, T21: ReturningProjection<'scope>, T22: ReturningProjection<'scope>, T23: ReturningProjection<'scope>, T24: ReturningProjection<'scope>, T25: ReturningProjection<'scope>, T26: ReturningProjection<'scope>> ReturningProjection<'scope> for (T0, T1, T2, T3, T4, T5, T6, T7, T8, T9, T10, T11, T12, T13, T14, T15, T16, T17, T18, T19, T20, T21, T22, T23, T24, T25, T26) {
    type Shape = (T0::Shape, T1::Shape, T2::Shape, T3::Shape, T4::Shape, T5::Shape, T6::Shape, T7::Shape, T8::Shape, T9::Shape, T10::Shape, T11::Shape, T12::Shape, T13::Shape, T14::Shape, T15::Shape, T16::Shape, T17::Shape, T18::Shape, T19::Shape, T20::Shape, T21::Shape, T22::Shape, T23::Shape, T24::Shape, T25::Shape, T26::Shape);
}

impl<T0: Projectable, T1: Projectable, T2: Projectable, T3: Projectable, T4: Projectable, T5: Projectable, T6: Projectable, T7: Projectable, T8: Projectable, T9: Projectable, T10: Projectable, T11: Projectable, T12: Projectable, T13: Projectable, T14: Projectable, T15: Projectable, T16: Projectable, T17: Projectable, T18: Projectable, T19: Projectable, T20: Projectable, T21: Projectable, T22: Projectable, T23: Projectable, T24: Projectable, T25: Projectable, T26: Projectable, T27: Projectable> Projectable for (T0, T1, T2, T3, T4, T5, T6, T7, T8, T9, T10, T11, T12, T13, T14, T15, T16, T17, T18, T19, T20, T21, T22, T23, T24, T25, T26, T27) {
    type Rebound<'scope> = (T0::Rebound<'scope>, T1::Rebound<'scope>, T2::Rebound<'scope>, T3::Rebound<'scope>, T4::Rebound<'scope>, T5::Rebound<'scope>, T6::Rebound<'scope>, T7::Rebound<'scope>, T8::Rebound<'scope>, T9::Rebound<'scope>, T10::Rebound<'scope>, T11::Rebound<'scope>, T12::Rebound<'scope>, T13::Rebound<'scope>, T14::Rebound<'scope>, T15::Rebound<'scope>, T16::Rebound<'scope>, T17::Rebound<'scope>, T18::Rebound<'scope>, T19::Rebound<'scope>, T20::Rebound<'scope>, T21::Rebound<'scope>, T22::Rebound<'scope>, T23::Rebound<'scope>, T24::Rebound<'scope>, T25::Rebound<'scope>, T26::Rebound<'scope>, T27::Rebound<'scope>);

    open spec fn rebound<'scope>(&self, alias: SourceAlias) -> Self::Rebound<'scope> {
        (self.0.rebound(alias), self.1.rebound(alias), self.2.rebound(alias), self.3.rebound(alias), self.4.rebound(alias), self.5.rebound(alias), self.6.rebound(alias), self.7.rebound(alias), self.8.rebound(alias), self.9.rebound(alias), self.10.rebound(alias), self.11.rebound(alias), self.12.rebound(alias), self.13.rebound(alias), self.14.rebound(alias), self.15.rebound(alias), self.16.rebound(alias), self.17.rebound(alias), self.18.rebound(alias), self.19.rebound(alias), self.20.rebound(alias), self.21.rebound(alias), self.22.rebound(alias), self.23.rebound(alias), self.24.rebound(alias), self.25.rebound(alias), self.26.rebound(alias), self.27.rebound(alias))
    }

    open spec fn rebinds_with_prefix<'scope>(
        &self,
        alias: SourceAlias,
        prefix: Seq<char>,
        rebound: Self::Rebound<'scope>,
    ) -> bool {
        &&& self.0.rebinds_with_prefix(alias, prefix, rebound.0)
        &&& self.1.rebinds_with_prefix(alias, prefix, rebound.1)
        &&& self.2.rebinds_with_prefix(alias, prefix, rebound.2)
        &&& self.3.rebinds_with_prefix(alias, prefix, rebound.3)
        &&& self.4.rebinds_with_prefix(alias, prefix, rebound.4)
        &&& self.5.rebinds_with_prefix(alias, prefix, rebound.5)
        &&& self.6.rebinds_with_prefix(alias, prefix, rebound.6)
        &&& self.7.rebinds_with_prefix(alias, prefix, rebound.7)
        &&& self.8.rebinds_with_prefix(alias, prefix, rebound.8)
        &&& self.9.rebinds_with_prefix(alias, prefix, rebound.9)
        &&& self.10.rebinds_with_prefix(alias, prefix, rebound.10)
        &&& self.11.rebinds_with_prefix(alias, prefix, rebound.11)
        &&& self.12.rebinds_with_prefix(alias, prefix, rebound.12)
        &&& self.13.rebinds_with_prefix(alias, prefix, rebound.13)
        &&& self.14.rebinds_with_prefix(alias, prefix, rebound.14)
        &&& self.15.rebinds_with_prefix(alias, prefix, rebound.15)
        &&& self.16.rebinds_with_prefix(alias, prefix, rebound.16)
        &&& self.17.rebinds_with_prefix(alias, prefix, rebound.17)
        &&& self.18.rebinds_with_prefix(alias, prefix, rebound.18)
        &&& self.19.rebinds_with_prefix(alias, prefix, rebound.19)
        &&& self.20.rebinds_with_prefix(alias, prefix, rebound.20)
        &&& self.21.rebinds_with_prefix(alias, prefix, rebound.21)
        &&& self.22.rebinds_with_prefix(alias, prefix, rebound.22)
        &&& self.23.rebinds_with_prefix(alias, prefix, rebound.23)
        &&& self.24.rebinds_with_prefix(alias, prefix, rebound.24)
        &&& self.25.rebinds_with_prefix(alias, prefix, rebound.25)
        &&& self.26.rebinds_with_prefix(alias, prefix, rebound.26)
        &&& self.27.rebinds_with_prefix(alias, prefix, rebound.27)
    }

    fn re_alias<'scope>(&self, alias: SourceAlias) -> (rebound: Self::Rebound<'scope>) {
        (self.0.re_alias(alias), self.1.re_alias(alias), self.2.re_alias(alias), self.3.re_alias(alias), self.4.re_alias(alias), self.5.re_alias(alias), self.6.re_alias(alias), self.7.re_alias(alias), self.8.re_alias(alias), self.9.re_alias(alias), self.10.re_alias(alias), self.11.re_alias(alias), self.12.re_alias(alias), self.13.re_alias(alias), self.14.re_alias(alias), self.15.re_alias(alias), self.16.re_alias(alias), self.17.re_alias(alias), self.18.re_alias(alias), self.19.re_alias(alias), self.20.re_alias(alias), self.21.re_alias(alias), self.22.re_alias(alias), self.23.re_alias(alias), self.24.re_alias(alias), self.25.re_alias(alias), self.26.re_alias(alias), self.27.re_alias(alias))
    }

    fn re_alias_with_prefix<'scope>(&self, alias: SourceAlias, prefix: &str) -> (rebound:
        Self::Rebound<'scope>) {
        (self.0.re_alias_with_prefix(alias, prefix), self.1.re_alias_with_prefix(alias, prefix), self.2.re_alias_with_prefix(alias, prefix), self.3.re_alias_with_prefix(alias, prefix), self.4.re_alias_with_prefix(alias, prefix), self.5.re_alias_with_prefix(alias, prefix), self.6.re_alias_with_prefix(alias, prefix), self.7.re_alias_with_prefix(alias, prefix), self.8.re_alias_with_prefix(alias, prefix), self.9.re_alias_with_prefix(alias, prefix), self.10.re_alias_with_prefix(alias, prefix), self.11.re_alias_with_prefix(alias, prefix), self.12.re_alias_with_prefix(alias, prefix), self.13.re_alias_with_prefix(alias, prefix), self.14.re_alias_with_prefix(alias, prefix), self.15.re_alias_with_prefix(alias, prefix), self.16.re_alias_with_prefix(alias, prefix), self.17.re_alias_with_prefix(alias, prefix), self.18.re_alias_with_prefix(alias, prefix), self.19.re_alias_with_prefix(alias, prefix), self.20.re_alias_with_prefix(alias, prefix), self.21.re_alias_with_prefix(alias, prefix), self.22.re_alias_with_prefix(alias, prefix), self.23.re_alias_with_prefix(alias, prefix), self.24.re_alias_with_prefix(alias, prefix), self.25.re_alias_with_prefix(alias, prefix), self.26.re_alias_with_prefix(alias, prefix), self.27.re_alias_with_prefix(alias, prefix))
    }
}

impl<T0: Duplicate, T1: Duplicate, T2: Duplicate, T3: Duplicate, T4: Duplicate, T5: Duplicate, T6: Duplicate, T7: Duplicate, T8: Duplicate, T9: Duplicate, T10: Duplicate, T11: Duplicate, T12: Duplicate, T13: Duplicate, T14: Duplicate, T15: Duplicate, T16: Duplicate, T17: Duplicate, T18: Duplicate, T19: Duplicate, T20: Duplicate, T21: Duplicate, T22: Duplicate, T23: Duplicate, T24: Duplicate, T25: Duplicate, T26: Duplicate, T27: Duplicate> Duplicate for (T0, T1, T2, T3, T4, T5, T6, T7, T8, T9, T10, T11, T12, T13, T14, T15, T16, T17, T18, T19, T20, T21, T22, T23, T24, T25, T26, T27) {
    fn duplicate(&self) -> (copy: Self) {
        (self.0.duplicate(), self.1.duplicate(), self.2.duplicate(), self.3.duplicate(), self.4.duplicate(), self.5.duplicate(), self.6.duplicate(), self.7.duplicate(), self.8.duplicate(), self.9.duplicate(), self.10.duplicate(), self.11.duplicate(), self.12.duplicate(), self.13.duplicate(), self.14.duplicate(), self.15.duplicate(), self.16.duplicate(), self.17.duplicate(), self.18.duplicate(), self.19.duplicate(), self.20.duplicate(), self.21.duplicate(), self.22.duplicate(), self.23.duplicate(), self.24.duplicate(), self.25.duplicate(), self.26.duplicate(), self.27.duplicate())
    }
}

impl<T0: ProjectionShape, T1: ProjectionShape, T2: ProjectionShape, T3: ProjectionShape, T4: ProjectionShape, T5: ProjectionShape, T6: ProjectionShape, T7: ProjectionShape, T8: ProjectionShape, T9: ProjectionShape, T10: ProjectionShape, T11: ProjectionShape, T12: ProjectionShape, T13: ProjectionShape, T14: ProjectionShape, T15: ProjectionShape, T16: ProjectionShape, T17: ProjectionShape, T18: ProjectionShape, T19: ProjectionShape, T20: ProjectionShape, T21: ProjectionShape, T22: ProjectionShape, T23: ProjectionShape, T24: ProjectionShape, T25: ProjectionShape, T26: ProjectionShape, T27: ProjectionShape> ProjectionShape for (T0, T1, T2, T3, T4, T5, T6, T7, T8, T9, T10, T11, T12, T13, T14, T15, T16, T17, T18, T19, T20, T21, T22, T23, T24, T25, T26, T27) {
    type Exprs<'scope> = (T0::Exprs<'scope>, T1::Exprs<'scope>, T2::Exprs<'scope>, T3::Exprs<'scope>, T4::Exprs<'scope>, T5::Exprs<'scope>, T6::Exprs<'scope>, T7::Exprs<'scope>, T8::Exprs<'scope>, T9::Exprs<'scope>, T10::Exprs<'scope>, T11::Exprs<'scope>, T12::Exprs<'scope>, T13::Exprs<'scope>, T14::Exprs<'scope>, T15::Exprs<'scope>, T16::Exprs<'scope>, T17::Exprs<'scope>, T18::Exprs<'scope>, T19::Exprs<'scope>, T20::Exprs<'scope>, T21::Exprs<'scope>, T22::Exprs<'scope>, T23::Exprs<'scope>, T24::Exprs<'scope>, T25::Exprs<'scope>, T26::Exprs<'scope>, T27::Exprs<'scope>);

    type ReboundExprs<'scope> = (T0::ReboundExprs<'scope>, T1::ReboundExprs<'scope>, T2::ReboundExprs<'scope>, T3::ReboundExprs<'scope>, T4::ReboundExprs<'scope>, T5::ReboundExprs<'scope>, T6::ReboundExprs<'scope>, T7::ReboundExprs<'scope>, T8::ReboundExprs<'scope>, T9::ReboundExprs<'scope>, T10::ReboundExprs<'scope>, T11::ReboundExprs<'scope>, T12::ReboundExprs<'scope>, T13::ReboundExprs<'scope>, T14::ReboundExprs<'scope>, T15::ReboundExprs<'scope>, T16::ReboundExprs<'scope>, T17::ReboundExprs<'scope>, T18::ReboundExprs<'scope>, T19::ReboundExprs<'scope>, T20::ReboundExprs<'scope>, T21::ReboundExprs<'scope>, T22::ReboundExprs<'scope>, T23::ReboundExprs<'scope>, T24::ReboundExprs<'scope>, T25::ReboundExprs<'scope>, T26::ReboundExprs<'scope>, T27::ReboundExprs<'scope>);

    type Row = (T0::Row, T1::Row, T2::Row, T3::Row, T4::Row, T5::Row, T6::Row, T7::Row, T8::Row, T9::Row, T10::Row, T11::Row, T12::Row, T13::Row, T14::Row, T15::Row, T16::Row, T17::Row, T18::Row, T19::Row, T20::Row, T21::Row, T22::Row, T23::Row, T24::Row, T25::Row, T26::Row, T27::Row);

    open spec fn shape_exprs<'scope>(alias: SourceAlias) -> Self::Exprs<'scope> {
        (T0::shape_exprs(alias), T1::shape_exprs(alias), T2::shape_exprs(alias), T3::shape_exprs(alias), T4::shape_exprs(alias), T5::shape_exprs(alias), T6::shape_exprs(alias), T7::shape_exprs(alias), T8::shape_exprs(alias), T9::shape_exprs(alias), T10::shape_exprs(alias), T11::shape_exprs(alias), T12::shape_exprs(alias), T13::shape_exprs(alias), T14::shape_exprs(alias), T15::shape_exprs(alias), T16::shape_exprs(alias), T17::shape_exprs(alias), T18::shape_exprs(alias), T19::shape_exprs(alias), T20::shape_exprs(alias), T21::shape_exprs(alias), T22::shape_exprs(alias), T23::shape_exprs(alias), T24::shape_exprs(alias), T25::shape_exprs(alias), T26::shape_exprs(alias), T27::shape_exprs(alias))
    }

    open spec fn shape_rebound<'scope>(alias: SourceAlias) -> Self::ReboundExprs<'scope> {
        (T0::shape_rebound(alias), T1::shape_rebound(alias), T2::shape_rebound(alias), T3::shape_rebound(alias), T4::shape_rebound(alias), T5::shape_rebound(alias), T6::shape_rebound(alias), T7::shape_rebound(alias), T8::shape_rebound(alias), T9::shape_rebound(alias), T10::shape_rebound(alias), T11::shape_rebound(alias), T12::shape_rebound(alias), T13::shape_rebound(alias), T14::shape_rebound(alias), T15::shape_rebound(alias), T16::shape_rebound(alias), T17::shape_rebound(alias), T18::shape_rebound(alias), T19::shape_rebound(alias), T20::shape_rebound(alias), T21::shape_rebound(alias), T22::shape_rebound(alias), T23::shape_rebound(alias), T24::shape_rebound(alias), T25::shape_rebound(alias), T26::shape_rebound(alias), T27::shape_rebound(alias))
    }

    fn exprs<'scope>(alias: SourceAlias) -> (exprs: Self::Exprs<'scope>) {
        (T0::exprs(alias), T1::exprs(alias), T2::exprs(alias), T3::exprs(alias), T4::exprs(alias), T5::exprs(alias), T6::exprs(alias), T7::exprs(alias), T8::exprs(alias), T9::exprs(alias), T10::exprs(alias), T11::exprs(alias), T12::exprs(alias), T13::exprs(alias), T14::exprs(alias), T15::exprs(alias), T16::exprs(alias), T17::exprs(alias), T18::exprs(alias), T19::exprs(alias), T20::exprs(alias), T21::exprs(alias), T22::exprs(alias), T23::exprs(alias), T24::exprs(alias), T25::exprs(alias), T26::exprs(alias), T27::exprs(alias))
    }

    fn rebound_exprs<'scope>(alias: SourceAlias) -> (exprs: Self::ReboundExprs<'scope>) {
        (T0::rebound_exprs(alias), T1::rebound_exprs(alias), T2::rebound_exprs(alias), T3::rebound_exprs(alias), T4::rebound_exprs(alias), T5::rebound_exprs(alias), T6::rebound_exprs(alias), T7::rebound_exprs(alias), T8::rebound_exprs(alias), T9::rebound_exprs(alias), T10::rebound_exprs(alias), T11::rebound_exprs(alias), T12::rebound_exprs(alias), T13::rebound_exprs(alias), T14::rebound_exprs(alias), T15::rebound_exprs(alias), T16::rebound_exprs(alias), T17::rebound_exprs(alias), T18::rebound_exprs(alias), T19::rebound_exprs(alias), T20::rebound_exprs(alias), T21::rebound_exprs(alias), T22::rebound_exprs(alias), T23::rebound_exprs(alias), T24::rebound_exprs(alias), T25::rebound_exprs(alias), T26::rebound_exprs(alias), T27::rebound_exprs(alias))
    }
}

impl<T0, T1, T2, T3, T4, T5, T6, T7, T8, T9, T10, T11, T12, T13, T14, T15, T16, T17, T18, T19, T20, T21, T22, T23, T24, T25, T26, T27> ProjectionParams for (T0, T1, T2, T3, T4, T5, T6, T7, T8, T9, T10, T11, T12, T13, T14, T15, T16, T17, T18, T19, T20, T21, T22, T23, T24, T25, T26, T27) where
    (T0, T1, T2, T3, T4, T5, T6, T7, T8, T9, T10, T11, T12, T13, T14, T15): ProjectionParams,
    (T16, T17, T18, T19, T20, T21, T22, T23, T24, T25, T26, T27): ProjectionParams,
    <(T0, T1, T2, T3, T4, T5, T6, T7, T8, T9, T10, T11, T12, T13, T14, T15) as ProjectionParams>::Params: HAppend<<(T16, T17, T18, T19, T20, T21, T22, T23, T24, T25, T26, T27) as ProjectionParams>::Params>,
 {
    type Params = <<(T0, T1, T2, T3, T4, T5, T6, T7, T8, T9, T10, T11, T12, T13, T14, T15) as ProjectionParams>::Params as HAppend<<(T16, T17, T18, T19, T20, T21, T22, T23, T24, T25, T26, T27) as ProjectionParams>::Params>>::Output;
}

impl<T0: ProjectionClass, T1: ProjectionClass<Class = T0::Class>, T2: ProjectionClass<Class = T0::Class>, T3: ProjectionClass<Class = T0::Class>, T4: ProjectionClass<Class = T0::Class>, T5: ProjectionClass<Class = T0::Class>, T6: ProjectionClass<Class = T0::Class>, T7: ProjectionClass<Class = T0::Class>, T8: ProjectionClass<Class = T0::Class>, T9: ProjectionClass<Class = T0::Class>, T10: ProjectionClass<Class = T0::Class>, T11: ProjectionClass<Class = T0::Class>, T12: ProjectionClass<Class = T0::Class>, T13: ProjectionClass<Class = T0::Class>, T14: ProjectionClass<Class = T0::Class>, T15: ProjectionClass<Class = T0::Class>, T16: ProjectionClass<Class = T0::Class>, T17: ProjectionClass<Class = T0::Class>, T18: ProjectionClass<Class = T0::Class>, T19: ProjectionClass<Class = T0::Class>, T20: ProjectionClass<Class = T0::Class>, T21: ProjectionClass<Class = T0::Class>, T22: ProjectionClass<Class = T0::Class>, T23: ProjectionClass<Class = T0::Class>, T24: ProjectionClass<Class = T0::Class>, T25: ProjectionClass<Class = T0::Class>, T26: ProjectionClass<Class = T0::Class>, T27: ProjectionClass<Class = T0::Class>> ProjectionClass for (T0, T1, T2, T3, T4, T5, T6, T7, T8, T9, T10, T11, T12, T13, T14, T15, T16, T17, T18, T19, T20, T21, T22, T23, T24, T25, T26, T27) {
    type Class = T0::Class;
}

impl<T0: ReturnableProjection, T1: ReturnableProjection, T2: ReturnableProjection, T3: ReturnableProjection, T4: ReturnableProjection, T5: ReturnableProjection, T6: ReturnableProjection, T7: ReturnableProjection, T8: ReturnableProjection, T9: ReturnableProjection, T10: ReturnableProjection, T11: ReturnableProjection, T12: ReturnableProjection, T13: ReturnableProjection, T14: ReturnableProjection, T15: ReturnableProjection, T16: ReturnableProjection, T17: ReturnableProjection, T18: ReturnableProjection, T19: ReturnableProjection, T20: ReturnableProjection, T21: ReturnableProjection, T22: ReturnableProjection, T23: ReturnableProjection, T24: ReturnableProjection, T25: ReturnableProjection, T26: ReturnableProjection, T27: ReturnableProjection> ReturnableProjection for (T0, T1, T2, T3, T4, T5, T6, T7, T8, T9, T10, T11, T12, T13, T14, T15, T16, T17, T18, T19, T20, T21, T22, T23, T24, T25, T26, T27) {

}

impl<T0: Projectable, T1: Projectable, T2: Projectable, T3: Projectable, T4: Projectable, T5: Projectable, T6: Projectable, T7: Projectable, T8: Projectable, T9: Projectable, T10: Projectable, T11: Projectable, T12: Projectable, T13: Projectable, T14: Projectable, T15: Projectable, T16: Projectable, T17: Projectable, T18: Projectable, T19: Projectable, T20: Projectable, T21: Projectable, T22: Projectable, T23: Projectable, T24: Projectable, T25: Projectable, T26: Projectable, T27: Projectable, B: Backend> RenderProjectable<B> for (T0, T1, T2, T3, T4, T5, T6, T7, T8, T9, T10, T11, T12, T13, T14, T15, T16, T17, T18, T19, T20, T21, T22, T23, T24, T25, T26, T27) where
    (T0, T1, T2, T3, T4, T5, T6, T7, T8, T9, T10, T11, T12, T13, T14, T15): RenderProjectable<B>,
    (T16, T17, T18, T19, T20, T21, T22, T23, T24, T25, T26, T27): RenderProjectable<B>,
    <(T0, T1, T2, T3, T4, T5, T6, T7, T8, T9, T10, T11, T12, T13, T14, T15) as ProjectionParams>::Params: HAppend<<(T16, T17, T18, T19, T20, T21, T22, T23, T24, T25, T26, T27) as ProjectionParams>::Params>,
 {
    open spec fn items(&self) -> List<ProjectionTree<Bound<B>>> {
        (self.0, self.1, self.2, self.3, self.4, self.5, self.6, self.7, self.8, self.9, self.10, self.11, self.12, self.13, self.14, self.15).items().then_list((self.16, self.17, self.18, self.19, self.20, self.21, self.22, self.23, self.24, self.25, self.26, self.27).items())
    }

    fn lower_projection(&self) -> (items: List<ProjectionTree<Bound<B>>>) {
        let front = (self.0.duplicate(), self.1.duplicate(), self.2.duplicate(), self.3.duplicate(), self.4.duplicate(), self.5.duplicate(), self.6.duplicate(), self.7.duplicate(), self.8.duplicate(), self.9.duplicate(), self.10.duplicate(), self.11.duplicate(), self.12.duplicate(), self.13.duplicate(), self.14.duplicate(), self.15.duplicate());
        let back = (self.16.duplicate(), self.17.duplicate(), self.18.duplicate(), self.19.duplicate(), self.20.duplicate(), self.21.duplicate(), self.22.duplicate(), self.23.duplicate(), self.24.duplicate(), self.25.duplicate(), self.26.duplicate(), self.27.duplicate());
        front.lower_projection().append(back.lower_projection())
    }

    fn lower_projection_with_prefix(&self, prefix: &str) -> (items: List<
        ProjectionTree<Bound<B>>,
    >) {
        let front = (self.0.duplicate(), self.1.duplicate(), self.2.duplicate(), self.3.duplicate(), self.4.duplicate(), self.5.duplicate(), self.6.duplicate(), self.7.duplicate(), self.8.duplicate(), self.9.duplicate(), self.10.duplicate(), self.11.duplicate(), self.12.duplicate(), self.13.duplicate(), self.14.duplicate(), self.15.duplicate());
        let back = (self.16.duplicate(), self.17.duplicate(), self.18.duplicate(), self.19.duplicate(), self.20.duplicate(), self.21.duplicate(), self.22.duplicate(), self.23.duplicate(), self.24.duplicate(), self.25.duplicate(), self.26.duplicate(), self.27.duplicate());
        let first = front.lower_projection_with_prefix(prefix);
        let rest = back.lower_projection_with_prefix(prefix);
        proof {
            crate::projection::lemma_prefixed_parts(front.items(), back.items(), prefix@, first, rest);
        }
        first.append(rest)
    }

    proof fn lemma_projection_params<D: Dialect>(&self, dialect: D, bare: bool, lead: Seq<char>) {
        let front = (self.0, self.1, self.2, self.3, self.4, self.5, self.6, self.7, self.8, self.9, self.10, self.11, self.12, self.13, self.14, self.15);
        let back = (self.16, self.17, self.18, self.19, self.20, self.21, self.22, self.23, self.24, self.25, self.26, self.27);
        let between = if front.items() is Nil { lead } else { ", "@ };
        front.lemma_projection_params(dialect, bare, lead);
        back.lemma_projection_params(dialect, bare, between);
        crate::projection::lemma_projection_parts(dialect, bare, lead, front.items(), back.items());
        <<(T0, T1, T2, T3, T4, T5, T6, T7, T8, T9, T10, T11, T12, T13, T14, T15) as ProjectionParams>::Params as HAppend<<(T16, T17, T18, T19, T20, T21, T22, T23, T24, T25, T26, T27) as ProjectionParams>::Params>>::lemma_append_width();
    }

    proof fn lemma_projection_plain(&self) {
        let front = (self.0, self.1, self.2, self.3, self.4, self.5, self.6, self.7, self.8, self.9, self.10, self.11, self.12, self.13, self.14, self.15);
        let back = (self.16, self.17, self.18, self.19, self.20, self.21, self.22, self.23, self.24, self.25, self.26, self.27);
        <<(T0, T1, T2, T3, T4, T5, T6, T7, T8, T9, T10, T11, T12, T13, T14, T15) as ProjectionParams>::Params as HAppend<<(T16, T17, T18, T19, T20, T21, T22, T23, T24, T25, T26, T27) as ProjectionParams>::Params>>::lemma_append_width();
        front.lemma_projection_plain();
        back.lemma_projection_plain();
        crate::projection::lemma_plain_parts(front.items(), back.items());
    }
}

impl<'scope, T0: ReturningProjection<'scope>, T1: ReturningProjection<'scope>, T2: ReturningProjection<'scope>, T3: ReturningProjection<'scope>, T4: ReturningProjection<'scope>, T5: ReturningProjection<'scope>, T6: ReturningProjection<'scope>, T7: ReturningProjection<'scope>, T8: ReturningProjection<'scope>, T9: ReturningProjection<'scope>, T10: ReturningProjection<'scope>, T11: ReturningProjection<'scope>, T12: ReturningProjection<'scope>, T13: ReturningProjection<'scope>, T14: ReturningProjection<'scope>, T15: ReturningProjection<'scope>, T16: ReturningProjection<'scope>, T17: ReturningProjection<'scope>, T18: ReturningProjection<'scope>, T19: ReturningProjection<'scope>, T20: ReturningProjection<'scope>, T21: ReturningProjection<'scope>, T22: ReturningProjection<'scope>, T23: ReturningProjection<'scope>, T24: ReturningProjection<'scope>, T25: ReturningProjection<'scope>, T26: ReturningProjection<'scope>, T27: ReturningProjection<'scope>> ReturningProjection<'scope> for (T0, T1, T2, T3, T4, T5, T6, T7, T8, T9, T10, T11, T12, T13, T14, T15, T16, T17, T18, T19, T20, T21, T22, T23, T24, T25, T26, T27) {
    type Shape = (T0::Shape, T1::Shape, T2::Shape, T3::Shape, T4::Shape, T5::Shape, T6::Shape, T7::Shape, T8::Shape, T9::Shape, T10::Shape, T11::Shape, T12::Shape, T13::Shape, T14::Shape, T15::Shape, T16::Shape, T17::Shape, T18::Shape, T19::Shape, T20::Shape, T21::Shape, T22::Shape, T23::Shape, T24::Shape, T25::Shape, T26::Shape, T27::Shape);
}

impl<T0: Projectable, T1: Projectable, T2: Projectable, T3: Projectable, T4: Projectable, T5: Projectable, T6: Projectable, T7: Projectable, T8: Projectable, T9: Projectable, T10: Projectable, T11: Projectable, T12: Projectable, T13: Projectable, T14: Projectable, T15: Projectable, T16: Projectable, T17: Projectable, T18: Projectable, T19: Projectable, T20: Projectable, T21: Projectable, T22: Projectable, T23: Projectable, T24: Projectable, T25: Projectable, T26: Projectable, T27: Projectable, T28: Projectable> Projectable for (T0, T1, T2, T3, T4, T5, T6, T7, T8, T9, T10, T11, T12, T13, T14, T15, T16, T17, T18, T19, T20, T21, T22, T23, T24, T25, T26, T27, T28) {
    type Rebound<'scope> = (T0::Rebound<'scope>, T1::Rebound<'scope>, T2::Rebound<'scope>, T3::Rebound<'scope>, T4::Rebound<'scope>, T5::Rebound<'scope>, T6::Rebound<'scope>, T7::Rebound<'scope>, T8::Rebound<'scope>, T9::Rebound<'scope>, T10::Rebound<'scope>, T11::Rebound<'scope>, T12::Rebound<'scope>, T13::Rebound<'scope>, T14::Rebound<'scope>, T15::Rebound<'scope>, T16::Rebound<'scope>, T17::Rebound<'scope>, T18::Rebound<'scope>, T19::Rebound<'scope>, T20::Rebound<'scope>, T21::Rebound<'scope>, T22::Rebound<'scope>, T23::Rebound<'scope>, T24::Rebound<'scope>, T25::Rebound<'scope>, T26::Rebound<'scope>, T27::Rebound<'scope>, T28::Rebound<'scope>);

    open spec fn rebound<'scope>(&self, alias: SourceAlias) -> Self::Rebound<'scope> {
        (self.0.rebound(alias), self.1.rebound(alias), self.2.rebound(alias), self.3.rebound(alias), self.4.rebound(alias), self.5.rebound(alias), self.6.rebound(alias), self.7.rebound(alias), self.8.rebound(alias), self.9.rebound(alias), self.10.rebound(alias), self.11.rebound(alias), self.12.rebound(alias), self.13.rebound(alias), self.14.rebound(alias), self.15.rebound(alias), self.16.rebound(alias), self.17.rebound(alias), self.18.rebound(alias), self.19.rebound(alias), self.20.rebound(alias), self.21.rebound(alias), self.22.rebound(alias), self.23.rebound(alias), self.24.rebound(alias), self.25.rebound(alias), self.26.rebound(alias), self.27.rebound(alias), self.28.rebound(alias))
    }

    open spec fn rebinds_with_prefix<'scope>(
        &self,
        alias: SourceAlias,
        prefix: Seq<char>,
        rebound: Self::Rebound<'scope>,
    ) -> bool {
        &&& self.0.rebinds_with_prefix(alias, prefix, rebound.0)
        &&& self.1.rebinds_with_prefix(alias, prefix, rebound.1)
        &&& self.2.rebinds_with_prefix(alias, prefix, rebound.2)
        &&& self.3.rebinds_with_prefix(alias, prefix, rebound.3)
        &&& self.4.rebinds_with_prefix(alias, prefix, rebound.4)
        &&& self.5.rebinds_with_prefix(alias, prefix, rebound.5)
        &&& self.6.rebinds_with_prefix(alias, prefix, rebound.6)
        &&& self.7.rebinds_with_prefix(alias, prefix, rebound.7)
        &&& self.8.rebinds_with_prefix(alias, prefix, rebound.8)
        &&& self.9.rebinds_with_prefix(alias, prefix, rebound.9)
        &&& self.10.rebinds_with_prefix(alias, prefix, rebound.10)
        &&& self.11.rebinds_with_prefix(alias, prefix, rebound.11)
        &&& self.12.rebinds_with_prefix(alias, prefix, rebound.12)
        &&& self.13.rebinds_with_prefix(alias, prefix, rebound.13)
        &&& self.14.rebinds_with_prefix(alias, prefix, rebound.14)
        &&& self.15.rebinds_with_prefix(alias, prefix, rebound.15)
        &&& self.16.rebinds_with_prefix(alias, prefix, rebound.16)
        &&& self.17.rebinds_with_prefix(alias, prefix, rebound.17)
        &&& self.18.rebinds_with_prefix(alias, prefix, rebound.18)
        &&& self.19.rebinds_with_prefix(alias, prefix, rebound.19)
        &&& self.20.rebinds_with_prefix(alias, prefix, rebound.20)
        &&& self.21.rebinds_with_prefix(alias, prefix, rebound.21)
        &&& self.22.rebinds_with_prefix(alias, prefix, rebound.22)
        &&& self.23.rebinds_with_prefix(alias, prefix, rebound.23)
        &&& self.24.rebinds_with_prefix(alias, prefix, rebound.24)
        &&& self.25.rebinds_with_prefix(alias, prefix, rebound.25)
        &&& self.26.rebinds_with_prefix(alias, prefix, rebound.26)
        &&& self.27.rebinds_with_prefix(alias, prefix, rebound.27)
        &&& self.28.rebinds_with_prefix(alias, prefix, rebound.28)
    }

    fn re_alias<'scope>(&self, alias: SourceAlias) -> (rebound: Self::Rebound<'scope>) {
        (self.0.re_alias(alias), self.1.re_alias(alias), self.2.re_alias(alias), self.3.re_alias(alias), self.4.re_alias(alias), self.5.re_alias(alias), self.6.re_alias(alias), self.7.re_alias(alias), self.8.re_alias(alias), self.9.re_alias(alias), self.10.re_alias(alias), self.11.re_alias(alias), self.12.re_alias(alias), self.13.re_alias(alias), self.14.re_alias(alias), self.15.re_alias(alias), self.16.re_alias(alias), self.17.re_alias(alias), self.18.re_alias(alias), self.19.re_alias(alias), self.20.re_alias(alias), self.21.re_alias(alias), self.22.re_alias(alias), self.23.re_alias(alias), self.24.re_alias(alias), self.25.re_alias(alias), self.26.re_alias(alias), self.27.re_alias(alias), self.28.re_alias(alias))
    }

    fn re_alias_with_prefix<'scope>(&self, alias: SourceAlias, prefix: &str) -> (rebound:
        Self::Rebound<'scope>) {
        (self.0.re_alias_with_prefix(alias, prefix), self.1.re_alias_with_prefix(alias, prefix), self.2.re_alias_with_prefix(alias, prefix), self.3.re_alias_with_prefix(alias, prefix), self.4.re_alias_with_prefix(alias, prefix), self.5.re_alias_with_prefix(alias, prefix), self.6.re_alias_with_prefix(alias, prefix), self.7.re_alias_with_prefix(alias, prefix), self.8.re_alias_with_prefix(alias, prefix), self.9.re_alias_with_prefix(alias, prefix), self.10.re_alias_with_prefix(alias, prefix), self.11.re_alias_with_prefix(alias, prefix), self.12.re_alias_with_prefix(alias, prefix), self.13.re_alias_with_prefix(alias, prefix), self.14.re_alias_with_prefix(alias, prefix), self.15.re_alias_with_prefix(alias, prefix), self.16.re_alias_with_prefix(alias, prefix), self.17.re_alias_with_prefix(alias, prefix), self.18.re_alias_with_prefix(alias, prefix), self.19.re_alias_with_prefix(alias, prefix), self.20.re_alias_with_prefix(alias, prefix), self.21.re_alias_with_prefix(alias, prefix), self.22.re_alias_with_prefix(alias, prefix), self.23.re_alias_with_prefix(alias, prefix), self.24.re_alias_with_prefix(alias, prefix), self.25.re_alias_with_prefix(alias, prefix), self.26.re_alias_with_prefix(alias, prefix), self.27.re_alias_with_prefix(alias, prefix), self.28.re_alias_with_prefix(alias, prefix))
    }
}

impl<T0: Duplicate, T1: Duplicate, T2: Duplicate, T3: Duplicate, T4: Duplicate, T5: Duplicate, T6: Duplicate, T7: Duplicate, T8: Duplicate, T9: Duplicate, T10: Duplicate, T11: Duplicate, T12: Duplicate, T13: Duplicate, T14: Duplicate, T15: Duplicate, T16: Duplicate, T17: Duplicate, T18: Duplicate, T19: Duplicate, T20: Duplicate, T21: Duplicate, T22: Duplicate, T23: Duplicate, T24: Duplicate, T25: Duplicate, T26: Duplicate, T27: Duplicate, T28: Duplicate> Duplicate for (T0, T1, T2, T3, T4, T5, T6, T7, T8, T9, T10, T11, T12, T13, T14, T15, T16, T17, T18, T19, T20, T21, T22, T23, T24, T25, T26, T27, T28) {
    fn duplicate(&self) -> (copy: Self) {
        (self.0.duplicate(), self.1.duplicate(), self.2.duplicate(), self.3.duplicate(), self.4.duplicate(), self.5.duplicate(), self.6.duplicate(), self.7.duplicate(), self.8.duplicate(), self.9.duplicate(), self.10.duplicate(), self.11.duplicate(), self.12.duplicate(), self.13.duplicate(), self.14.duplicate(), self.15.duplicate(), self.16.duplicate(), self.17.duplicate(), self.18.duplicate(), self.19.duplicate(), self.20.duplicate(), self.21.duplicate(), self.22.duplicate(), self.23.duplicate(), self.24.duplicate(), self.25.duplicate(), self.26.duplicate(), self.27.duplicate(), self.28.duplicate())
    }
}

impl<T0: ProjectionShape, T1: ProjectionShape, T2: ProjectionShape, T3: ProjectionShape, T4: ProjectionShape, T5: ProjectionShape, T6: ProjectionShape, T7: ProjectionShape, T8: ProjectionShape, T9: ProjectionShape, T10: ProjectionShape, T11: ProjectionShape, T12: ProjectionShape, T13: ProjectionShape, T14: ProjectionShape, T15: ProjectionShape, T16: ProjectionShape, T17: ProjectionShape, T18: ProjectionShape, T19: ProjectionShape, T20: ProjectionShape, T21: ProjectionShape, T22: ProjectionShape, T23: ProjectionShape, T24: ProjectionShape, T25: ProjectionShape, T26: ProjectionShape, T27: ProjectionShape, T28: ProjectionShape> ProjectionShape for (T0, T1, T2, T3, T4, T5, T6, T7, T8, T9, T10, T11, T12, T13, T14, T15, T16, T17, T18, T19, T20, T21, T22, T23, T24, T25, T26, T27, T28) {
    type Exprs<'scope> = (T0::Exprs<'scope>, T1::Exprs<'scope>, T2::Exprs<'scope>, T3::Exprs<'scope>, T4::Exprs<'scope>, T5::Exprs<'scope>, T6::Exprs<'scope>, T7::Exprs<'scope>, T8::Exprs<'scope>, T9::Exprs<'scope>, T10::Exprs<'scope>, T11::Exprs<'scope>, T12::Exprs<'scope>, T13::Exprs<'scope>, T14::Exprs<'scope>, T15::Exprs<'scope>, T16::Exprs<'scope>, T17::Exprs<'scope>, T18::Exprs<'scope>, T19::Exprs<'scope>, T20::Exprs<'scope>, T21::Exprs<'scope>, T22::Exprs<'scope>, T23::Exprs<'scope>, T24::Exprs<'scope>, T25::Exprs<'scope>, T26::Exprs<'scope>, T27::Exprs<'scope>, T28::Exprs<'scope>);

    type ReboundExprs<'scope> = (T0::ReboundExprs<'scope>, T1::ReboundExprs<'scope>, T2::ReboundExprs<'scope>, T3::ReboundExprs<'scope>, T4::ReboundExprs<'scope>, T5::ReboundExprs<'scope>, T6::ReboundExprs<'scope>, T7::ReboundExprs<'scope>, T8::ReboundExprs<'scope>, T9::ReboundExprs<'scope>, T10::ReboundExprs<'scope>, T11::ReboundExprs<'scope>, T12::ReboundExprs<'scope>, T13::ReboundExprs<'scope>, T14::ReboundExprs<'scope>, T15::ReboundExprs<'scope>, T16::ReboundExprs<'scope>, T17::ReboundExprs<'scope>, T18::ReboundExprs<'scope>, T19::ReboundExprs<'scope>, T20::ReboundExprs<'scope>, T21::ReboundExprs<'scope>, T22::ReboundExprs<'scope>, T23::ReboundExprs<'scope>, T24::ReboundExprs<'scope>, T25::ReboundExprs<'scope>, T26::ReboundExprs<'scope>, T27::ReboundExprs<'scope>, T28::ReboundExprs<'scope>);

    type Row = (T0::Row, T1::Row, T2::Row, T3::Row, T4::Row, T5::Row, T6::Row, T7::Row, T8::Row, T9::Row, T10::Row, T11::Row, T12::Row, T13::Row, T14::Row, T15::Row, T16::Row, T17::Row, T18::Row, T19::Row, T20::Row, T21::Row, T22::Row, T23::Row, T24::Row, T25::Row, T26::Row, T27::Row, T28::Row);

    open spec fn shape_exprs<'scope>(alias: SourceAlias) -> Self::Exprs<'scope> {
        (T0::shape_exprs(alias), T1::shape_exprs(alias), T2::shape_exprs(alias), T3::shape_exprs(alias), T4::shape_exprs(alias), T5::shape_exprs(alias), T6::shape_exprs(alias), T7::shape_exprs(alias), T8::shape_exprs(alias), T9::shape_exprs(alias), T10::shape_exprs(alias), T11::shape_exprs(alias), T12::shape_exprs(alias), T13::shape_exprs(alias), T14::shape_exprs(alias), T15::shape_exprs(alias), T16::shape_exprs(alias), T17::shape_exprs(alias), T18::shape_exprs(alias), T19::shape_exprs(alias), T20::shape_exprs(alias), T21::shape_exprs(alias), T22::shape_exprs(alias), T23::shape_exprs(alias), T24::shape_exprs(alias), T25::shape_exprs(alias), T26::shape_exprs(alias), T27::shape_exprs(alias), T28::shape_exprs(alias))
    }

    open spec fn shape_rebound<'scope>(alias: SourceAlias) -> Self::ReboundExprs<'scope> {
        (T0::shape_rebound(alias), T1::shape_rebound(alias), T2::shape_rebound(alias), T3::shape_rebound(alias), T4::shape_rebound(alias), T5::shape_rebound(alias), T6::shape_rebound(alias), T7::shape_rebound(alias), T8::shape_rebound(alias), T9::shape_rebound(alias), T10::shape_rebound(alias), T11::shape_rebound(alias), T12::shape_rebound(alias), T13::shape_rebound(alias), T14::shape_rebound(alias), T15::shape_rebound(alias), T16::shape_rebound(alias), T17::shape_rebound(alias), T18::shape_rebound(alias), T19::shape_rebound(alias), T20::shape_rebound(alias), T21::shape_rebound(alias), T22::shape_rebound(alias), T23::shape_rebound(alias), T24::shape_rebound(alias), T25::shape_rebound(alias), T26::shape_rebound(alias), T27::shape_rebound(alias), T28::shape_rebound(alias))
    }

    fn exprs<'scope>(alias: SourceAlias) -> (exprs: Self::Exprs<'scope>) {
        (T0::exprs(alias), T1::exprs(alias), T2::exprs(alias), T3::exprs(alias), T4::exprs(alias), T5::exprs(alias), T6::exprs(alias), T7::exprs(alias), T8::exprs(alias), T9::exprs(alias), T10::exprs(alias), T11::exprs(alias), T12::exprs(alias), T13::exprs(alias), T14::exprs(alias), T15::exprs(alias), T16::exprs(alias), T17::exprs(alias), T18::exprs(alias), T19::exprs(alias), T20::exprs(alias), T21::exprs(alias), T22::exprs(alias), T23::exprs(alias), T24::exprs(alias), T25::exprs(alias), T26::exprs(alias), T27::exprs(alias), T28::exprs(alias))
    }

    fn rebound_exprs<'scope>(alias: SourceAlias) -> (exprs: Self::ReboundExprs<'scope>) {
        (T0::rebound_exprs(alias), T1::rebound_exprs(alias), T2::rebound_exprs(alias), T3::rebound_exprs(alias), T4::rebound_exprs(alias), T5::rebound_exprs(alias), T6::rebound_exprs(alias), T7::rebound_exprs(alias), T8::rebound_exprs(alias), T9::rebound_exprs(alias), T10::rebound_exprs(alias), T11::rebound_exprs(alias), T12::rebound_exprs(alias), T13::rebound_exprs(alias), T14::rebound_exprs(alias), T15::rebound_exprs(alias), T16::rebound_exprs(alias), T17::rebound_exprs(alias), T18::rebound_exprs(alias), T19::rebound_exprs(alias), T20::rebound_exprs(alias), T21::rebound_exprs(alias), T22::rebound_exprs(alias), T23::rebound_exprs(alias), T24::rebound_exprs(alias), T25::rebound_exprs(alias), T26::rebound_exprs(alias), T27::rebound_exprs(alias), T28::rebound_exprs(alias))
    }
}

impl<T0, T1, T2, T3, T4, T5, T6, T7, T8, T9, T10, T11, T12, T13, T14, T15, T16, T17, T18, T19, T20, T21, T22, T23, T24, T25, T26, T27, T28> ProjectionParams for (T0, T1, T2, T3, T4, T5, T6, T7, T8, T9, T10, T11, T12, T13, T14, T15, T16, T17, T18, T19, T20, T21, T22, T23, T24, T25, T26, T27, T28) where
    (T0, T1, T2, T3, T4, T5, T6, T7, T8, T9, T10, T11, T12, T13, T14, T15): ProjectionParams,
    (T16, T17, T18, T19, T20, T21, T22, T23, T24, T25, T26, T27, T28): ProjectionParams,
    <(T0, T1, T2, T3, T4, T5, T6, T7, T8, T9, T10, T11, T12, T13, T14, T15) as ProjectionParams>::Params: HAppend<<(T16, T17, T18, T19, T20, T21, T22, T23, T24, T25, T26, T27, T28) as ProjectionParams>::Params>,
 {
    type Params = <<(T0, T1, T2, T3, T4, T5, T6, T7, T8, T9, T10, T11, T12, T13, T14, T15) as ProjectionParams>::Params as HAppend<<(T16, T17, T18, T19, T20, T21, T22, T23, T24, T25, T26, T27, T28) as ProjectionParams>::Params>>::Output;
}

impl<T0: ProjectionClass, T1: ProjectionClass<Class = T0::Class>, T2: ProjectionClass<Class = T0::Class>, T3: ProjectionClass<Class = T0::Class>, T4: ProjectionClass<Class = T0::Class>, T5: ProjectionClass<Class = T0::Class>, T6: ProjectionClass<Class = T0::Class>, T7: ProjectionClass<Class = T0::Class>, T8: ProjectionClass<Class = T0::Class>, T9: ProjectionClass<Class = T0::Class>, T10: ProjectionClass<Class = T0::Class>, T11: ProjectionClass<Class = T0::Class>, T12: ProjectionClass<Class = T0::Class>, T13: ProjectionClass<Class = T0::Class>, T14: ProjectionClass<Class = T0::Class>, T15: ProjectionClass<Class = T0::Class>, T16: ProjectionClass<Class = T0::Class>, T17: ProjectionClass<Class = T0::Class>, T18: ProjectionClass<Class = T0::Class>, T19: ProjectionClass<Class = T0::Class>, T20: ProjectionClass<Class = T0::Class>, T21: ProjectionClass<Class = T0::Class>, T22: ProjectionClass<Class = T0::Class>, T23: ProjectionClass<Class = T0::Class>, T24: ProjectionClass<Class = T0::Class>, T25: ProjectionClass<Class = T0::Class>, T26: ProjectionClass<Class = T0::Class>, T27: ProjectionClass<Class = T0::Class>, T28: ProjectionClass<Class = T0::Class>> ProjectionClass for (T0, T1, T2, T3, T4, T5, T6, T7, T8, T9, T10, T11, T12, T13, T14, T15, T16, T17, T18, T19, T20, T21, T22, T23, T24, T25, T26, T27, T28) {
    type Class = T0::Class;
}

impl<T0: ReturnableProjection, T1: ReturnableProjection, T2: ReturnableProjection, T3: ReturnableProjection, T4: ReturnableProjection, T5: ReturnableProjection, T6: ReturnableProjection, T7: ReturnableProjection, T8: ReturnableProjection, T9: ReturnableProjection, T10: ReturnableProjection, T11: ReturnableProjection, T12: ReturnableProjection, T13: ReturnableProjection, T14: ReturnableProjection, T15: ReturnableProjection, T16: ReturnableProjection, T17: ReturnableProjection, T18: ReturnableProjection, T19: ReturnableProjection, T20: ReturnableProjection, T21: ReturnableProjection, T22: ReturnableProjection, T23: ReturnableProjection, T24: ReturnableProjection, T25: ReturnableProjection, T26: ReturnableProjection, T27: ReturnableProjection, T28: ReturnableProjection> ReturnableProjection for (T0, T1, T2, T3, T4, T5, T6, T7, T8, T9, T10, T11, T12, T13, T14, T15, T16, T17, T18, T19, T20, T21, T22, T23, T24, T25, T26, T27, T28) {

}

impl<T0: Projectable, T1: Projectable, T2: Projectable, T3: Projectable, T4: Projectable, T5: Projectable, T6: Projectable, T7: Projectable, T8: Projectable, T9: Projectable, T10: Projectable, T11: Projectable, T12: Projectable, T13: Projectable, T14: Projectable, T15: Projectable, T16: Projectable, T17: Projectable, T18: Projectable, T19: Projectable, T20: Projectable, T21: Projectable, T22: Projectable, T23: Projectable, T24: Projectable, T25: Projectable, T26: Projectable, T27: Projectable, T28: Projectable, B: Backend> RenderProjectable<B> for (T0, T1, T2, T3, T4, T5, T6, T7, T8, T9, T10, T11, T12, T13, T14, T15, T16, T17, T18, T19, T20, T21, T22, T23, T24, T25, T26, T27, T28) where
    (T0, T1, T2, T3, T4, T5, T6, T7, T8, T9, T10, T11, T12, T13, T14, T15): RenderProjectable<B>,
    (T16, T17, T18, T19, T20, T21, T22, T23, T24, T25, T26, T27, T28): RenderProjectable<B>,
    <(T0, T1, T2, T3, T4, T5, T6, T7, T8, T9, T10, T11, T12, T13, T14, T15) as ProjectionParams>::Params: HAppend<<(T16, T17, T18, T19, T20, T21, T22, T23, T24, T25, T26, T27, T28) as ProjectionParams>::Params>,
 {
    open spec fn items(&self) -> List<ProjectionTree<Bound<B>>> {
        (self.0, self.1, self.2, self.3, self.4, self.5, self.6, self.7, self.8, self.9, self.10, self.11, self.12, self.13, self.14, self.15).items().then_list((self.16, self.17, self.18, self.19, self.20, self.21, self.22, self.23, self.24, self.25, self.26, self.27, self.28).items())
    }

    fn lower_projection(&self) -> (items: List<ProjectionTree<Bound<B>>>) {
        let front = (self.0.duplicate(), self.1.duplicate(), self.2.duplicate(), self.3.duplicate(), self.4.duplicate(), self.5.duplicate(), self.6.duplicate(), self.7.duplicate(), self.8.duplicate(), self.9.duplicate(), self.10.duplicate(), self.11.duplicate(), self.12.duplicate(), self.13.duplicate(), self.14.duplicate(), self.15.duplicate());
        let back = (self.16.duplicate(), self.17.duplicate(), self.18.duplicate(), self.19.duplicate(), self.20.duplicate(), self.21.duplicate(), self.22.duplicate(), self.23.duplicate(), self.24.duplicate(), self.25.duplicate(), self.26.duplicate(), self.27.duplicate(), self.28.duplicate());
        front.lower_projection().append(back.lower_projection())
    }

    fn lower_projection_with_prefix(&self, prefix: &str) -> (items: List<
        ProjectionTree<Bound<B>>,
    >) {
        let front = (self.0.duplicate(), self.1.duplicate(), self.2.duplicate(), self.3.duplicate(), self.4.duplicate(), self.5.duplicate(), self.6.duplicate(), self.7.duplicate(), self.8.duplicate(), self.9.duplicate(), self.10.duplicate(), self.11.duplicate(), self.12.duplicate(), self.13.duplicate(), self.14.duplicate(), self.15.duplicate());
        let back = (self.16.duplicate(), self.17.duplicate(), self.18.duplicate(), self.19.duplicate(), self.20.duplicate(), self.21.duplicate(), self.22.duplicate(), self.23.duplicate(), self.24.duplicate(), self.25.duplicate(), self.26.duplicate(), self.27.duplicate(), self.28.duplicate());
        let first = front.lower_projection_with_prefix(prefix);
        let rest = back.lower_projection_with_prefix(prefix);
        proof {
            crate::projection::lemma_prefixed_parts(front.items(), back.items(), prefix@, first, rest);
        }
        first.append(rest)
    }

    proof fn lemma_projection_params<D: Dialect>(&self, dialect: D, bare: bool, lead: Seq<char>) {
        let front = (self.0, self.1, self.2, self.3, self.4, self.5, self.6, self.7, self.8, self.9, self.10, self.11, self.12, self.13, self.14, self.15);
        let back = (self.16, self.17, self.18, self.19, self.20, self.21, self.22, self.23, self.24, self.25, self.26, self.27, self.28);
        let between = if front.items() is Nil { lead } else { ", "@ };
        front.lemma_projection_params(dialect, bare, lead);
        back.lemma_projection_params(dialect, bare, between);
        crate::projection::lemma_projection_parts(dialect, bare, lead, front.items(), back.items());
        <<(T0, T1, T2, T3, T4, T5, T6, T7, T8, T9, T10, T11, T12, T13, T14, T15) as ProjectionParams>::Params as HAppend<<(T16, T17, T18, T19, T20, T21, T22, T23, T24, T25, T26, T27, T28) as ProjectionParams>::Params>>::lemma_append_width();
    }

    proof fn lemma_projection_plain(&self) {
        let front = (self.0, self.1, self.2, self.3, self.4, self.5, self.6, self.7, self.8, self.9, self.10, self.11, self.12, self.13, self.14, self.15);
        let back = (self.16, self.17, self.18, self.19, self.20, self.21, self.22, self.23, self.24, self.25, self.26, self.27, self.28);
        <<(T0, T1, T2, T3, T4, T5, T6, T7, T8, T9, T10, T11, T12, T13, T14, T15) as ProjectionParams>::Params as HAppend<<(T16, T17, T18, T19, T20, T21, T22, T23, T24, T25, T26, T27, T28) as ProjectionParams>::Params>>::lemma_append_width();
        front.lemma_projection_plain();
        back.lemma_projection_plain();
        crate::projection::lemma_plain_parts(front.items(), back.items());
    }
}

impl<'scope, T0: ReturningProjection<'scope>, T1: ReturningProjection<'scope>, T2: ReturningProjection<'scope>, T3: ReturningProjection<'scope>, T4: ReturningProjection<'scope>, T5: ReturningProjection<'scope>, T6: ReturningProjection<'scope>, T7: ReturningProjection<'scope>, T8: ReturningProjection<'scope>, T9: ReturningProjection<'scope>, T10: ReturningProjection<'scope>, T11: ReturningProjection<'scope>, T12: ReturningProjection<'scope>, T13: ReturningProjection<'scope>, T14: ReturningProjection<'scope>, T15: ReturningProjection<'scope>, T16: ReturningProjection<'scope>, T17: ReturningProjection<'scope>, T18: ReturningProjection<'scope>, T19: ReturningProjection<'scope>, T20: ReturningProjection<'scope>, T21: ReturningProjection<'scope>, T22: ReturningProjection<'scope>, T23: ReturningProjection<'scope>, T24: ReturningProjection<'scope>, T25: ReturningProjection<'scope>, T26: ReturningProjection<'scope>, T27: ReturningProjection<'scope>, T28: ReturningProjection<'scope>> ReturningProjection<'scope> for (T0, T1, T2, T3, T4, T5, T6, T7, T8, T9, T10, T11, T12, T13, T14, T15, T16, T17, T18, T19, T20, T21, T22, T23, T24, T25, T26, T27, T28) {
    type Shape = (T0::Shape, T1::Shape, T2::Shape, T3::Shape, T4::Shape, T5::Shape, T6::Shape, T7::Shape, T8::Shape, T9::Shape, T10::Shape, T11::Shape, T12::Shape, T13::Shape, T14::Shape, T15::Shape, T16::Shape, T17::Shape, T18::Shape, T19::Shape, T20::Shape, T21::Shape, T22::Shape, T23::Shape, T24::Shape, T25::Shape, T26::Shape, T27::Shape, T28::Shape);
}

impl<T0: Projectable, T1: Projectable, T2: Projectable, T3: Projectable, T4: Projectable, T5: Projectable, T6: Projectable, T7: Projectable, T8: Projectable, T9: Projectable, T10: Projectable, T11: Projectable, T12: Projectable, T13: Projectable, T14: Projectable, T15: Projectable, T16: Projectable, T17: Projectable, T18: Projectable, T19: Projectable, T20: Projectable, T21: Projectable, T22: Projectable, T23: Projectable, T24: Projectable, T25: Projectable, T26: Projectable, T27: Projectable, T28: Projectable, T29: Projectable> Projectable for (T0, T1, T2, T3, T4, T5, T6, T7, T8, T9, T10, T11, T12, T13, T14, T15, T16, T17, T18, T19, T20, T21, T22, T23, T24, T25, T26, T27, T28, T29) {
    type Rebound<'scope> = (T0::Rebound<'scope>, T1::Rebound<'scope>, T2::Rebound<'scope>, T3::Rebound<'scope>, T4::Rebound<'scope>, T5::Rebound<'scope>, T6::Rebound<'scope>, T7::Rebound<'scope>, T8::Rebound<'scope>, T9::Rebound<'scope>, T10::Rebound<'scope>, T11::Rebound<'scope>, T12::Rebound<'scope>, T13::Rebound<'scope>, T14::Rebound<'scope>, T15::Rebound<'scope>, T16::Rebound<'scope>, T17::Rebound<'scope>, T18::Rebound<'scope>, T19::Rebound<'scope>, T20::Rebound<'scope>, T21::Rebound<'scope>, T22::Rebound<'scope>, T23::Rebound<'scope>, T24::Rebound<'scope>, T25::Rebound<'scope>, T26::Rebound<'scope>, T27::Rebound<'scope>, T28::Rebound<'scope>, T29::Rebound<'scope>);

    open spec fn rebound<'scope>(&self, alias: SourceAlias) -> Self::Rebound<'scope> {
        (self.0.rebound(alias), self.1.rebound(alias), self.2.rebound(alias), self.3.rebound(alias), self.4.rebound(alias), self.5.rebound(alias), self.6.rebound(alias), self.7.rebound(alias), self.8.rebound(alias), self.9.rebound(alias), self.10.rebound(alias), self.11.rebound(alias), self.12.rebound(alias), self.13.rebound(alias), self.14.rebound(alias), self.15.rebound(alias), self.16.rebound(alias), self.17.rebound(alias), self.18.rebound(alias), self.19.rebound(alias), self.20.rebound(alias), self.21.rebound(alias), self.22.rebound(alias), self.23.rebound(alias), self.24.rebound(alias), self.25.rebound(alias), self.26.rebound(alias), self.27.rebound(alias), self.28.rebound(alias), self.29.rebound(alias))
    }

    open spec fn rebinds_with_prefix<'scope>(
        &self,
        alias: SourceAlias,
        prefix: Seq<char>,
        rebound: Self::Rebound<'scope>,
    ) -> bool {
        &&& self.0.rebinds_with_prefix(alias, prefix, rebound.0)
        &&& self.1.rebinds_with_prefix(alias, prefix, rebound.1)
        &&& self.2.rebinds_with_prefix(alias, prefix, rebound.2)
        &&& self.3.rebinds_with_prefix(alias, prefix, rebound.3)
        &&& self.4.rebinds_with_prefix(alias, prefix, rebound.4)
        &&& self.5.rebinds_with_prefix(alias, prefix, rebound.5)
        &&& self.6.rebinds_with_prefix(alias, prefix, rebound.6)
        &&& self.7.rebinds_with_prefix(alias, prefix, rebound.7)
        &&& self.8.rebinds_with_prefix(alias, prefix, rebound.8)
        &&& self.9.rebinds_with_prefix(alias, prefix, rebound.9)
        &&& self.10.rebinds_with_prefix(alias, prefix, rebound.10)
        &&& self.11.rebinds_with_prefix(alias, prefix, rebound.11)
        &&& self.12.rebinds_with_prefix(alias, prefix, rebound.12)
        &&& self.13.rebinds_with_prefix(alias, prefix, rebound.13)
        &&& self.14.rebinds_with_prefix(alias, prefix, rebound.14)
        &&& self.15.rebinds_with_prefix(alias, prefix, rebound.15)
        &&& self.16.rebinds_with_prefix(alias, prefix, rebound.16)
        &&& self.17.rebinds_with_prefix(alias, prefix, rebound.17)
        &&& self.18.rebinds_with_prefix(alias, prefix, rebound.18)
        &&& self.19.rebinds_with_prefix(alias, prefix, rebound.19)
        &&& self.20.rebinds_with_prefix(alias, prefix, rebound.20)
        &&& self.21.rebinds_with_prefix(alias, prefix, rebound.21)
        &&& self.22.rebinds_with_prefix(alias, prefix, rebound.22)
        &&& self.23.rebinds_with_prefix(alias, prefix, rebound.23)
        &&& self.24.rebinds_with_prefix(alias, prefix, rebound.24)
        &&& self.25.rebinds_with_prefix(alias, prefix, rebound.25)
        &&& self.26.rebinds_with_prefix(alias, prefix, rebound.26)
        &&& self.27.rebinds_with_prefix(alias, prefix, rebound.27)
        &&& self.28.rebinds_with_prefix(alias, prefix, rebound.28)
        &&& self.29.rebinds_with_prefix(alias, prefix, rebound.29)
    }

    fn re_alias<'scope>(&self, alias: SourceAlias) -> (rebound: Self::Rebound<'scope>) {
        (self.0.re_alias(alias), self.1.re_alias(alias), self.2.re_alias(alias), self.3.re_alias(alias), self.4.re_alias(alias), self.5.re_alias(alias), self.6.re_alias(alias), self.7.re_alias(alias), self.8.re_alias(alias), self.9.re_alias(alias), self.10.re_alias(alias), self.11.re_alias(alias), self.12.re_alias(alias), self.13.re_alias(alias), self.14.re_alias(alias), self.15.re_alias(alias), self.16.re_alias(alias), self.17.re_alias(alias), self.18.re_alias(alias), self.19.re_alias(alias), self.20.re_alias(alias), self.21.re_alias(alias), self.22.re_alias(alias), self.23.re_alias(alias), self.24.re_alias(alias), self.25.re_alias(alias), self.26.re_alias(alias), self.27.re_alias(alias), self.28.re_alias(alias), self.29.re_alias(alias))
    }

    fn re_alias_with_prefix<'scope>(&self, alias: SourceAlias, prefix: &str) -> (rebound:
        Self::Rebound<'scope>) {
        (self.0.re_alias_with_prefix(alias, prefix), self.1.re_alias_with_prefix(alias, prefix), self.2.re_alias_with_prefix(alias, prefix), self.3.re_alias_with_prefix(alias, prefix), self.4.re_alias_with_prefix(alias, prefix), self.5.re_alias_with_prefix(alias, prefix), self.6.re_alias_with_prefix(alias, prefix), self.7.re_alias_with_prefix(alias, prefix), self.8.re_alias_with_prefix(alias, prefix), self.9.re_alias_with_prefix(alias, prefix), self.10.re_alias_with_prefix(alias, prefix), self.11.re_alias_with_prefix(alias, prefix), self.12.re_alias_with_prefix(alias, prefix), self.13.re_alias_with_prefix(alias, prefix), self.14.re_alias_with_prefix(alias, prefix), self.15.re_alias_with_prefix(alias, prefix), self.16.re_alias_with_prefix(alias, prefix), self.17.re_alias_with_prefix(alias, prefix), self.18.re_alias_with_prefix(alias, prefix), self.19.re_alias_with_prefix(alias, prefix), self.20.re_alias_with_prefix(alias, prefix), self.21.re_alias_with_prefix(alias, prefix), self.22.re_alias_with_prefix(alias, prefix), self.23.re_alias_with_prefix(alias, prefix), self.24.re_alias_with_prefix(alias, prefix), self.25.re_alias_with_prefix(alias, prefix), self.26.re_alias_with_prefix(alias, prefix), self.27.re_alias_with_prefix(alias, prefix), self.28.re_alias_with_prefix(alias, prefix), self.29.re_alias_with_prefix(alias, prefix))
    }
}

impl<T0: Duplicate, T1: Duplicate, T2: Duplicate, T3: Duplicate, T4: Duplicate, T5: Duplicate, T6: Duplicate, T7: Duplicate, T8: Duplicate, T9: Duplicate, T10: Duplicate, T11: Duplicate, T12: Duplicate, T13: Duplicate, T14: Duplicate, T15: Duplicate, T16: Duplicate, T17: Duplicate, T18: Duplicate, T19: Duplicate, T20: Duplicate, T21: Duplicate, T22: Duplicate, T23: Duplicate, T24: Duplicate, T25: Duplicate, T26: Duplicate, T27: Duplicate, T28: Duplicate, T29: Duplicate> Duplicate for (T0, T1, T2, T3, T4, T5, T6, T7, T8, T9, T10, T11, T12, T13, T14, T15, T16, T17, T18, T19, T20, T21, T22, T23, T24, T25, T26, T27, T28, T29) {
    fn duplicate(&self) -> (copy: Self) {
        (self.0.duplicate(), self.1.duplicate(), self.2.duplicate(), self.3.duplicate(), self.4.duplicate(), self.5.duplicate(), self.6.duplicate(), self.7.duplicate(), self.8.duplicate(), self.9.duplicate(), self.10.duplicate(), self.11.duplicate(), self.12.duplicate(), self.13.duplicate(), self.14.duplicate(), self.15.duplicate(), self.16.duplicate(), self.17.duplicate(), self.18.duplicate(), self.19.duplicate(), self.20.duplicate(), self.21.duplicate(), self.22.duplicate(), self.23.duplicate(), self.24.duplicate(), self.25.duplicate(), self.26.duplicate(), self.27.duplicate(), self.28.duplicate(), self.29.duplicate())
    }
}

impl<T0: ProjectionShape, T1: ProjectionShape, T2: ProjectionShape, T3: ProjectionShape, T4: ProjectionShape, T5: ProjectionShape, T6: ProjectionShape, T7: ProjectionShape, T8: ProjectionShape, T9: ProjectionShape, T10: ProjectionShape, T11: ProjectionShape, T12: ProjectionShape, T13: ProjectionShape, T14: ProjectionShape, T15: ProjectionShape, T16: ProjectionShape, T17: ProjectionShape, T18: ProjectionShape, T19: ProjectionShape, T20: ProjectionShape, T21: ProjectionShape, T22: ProjectionShape, T23: ProjectionShape, T24: ProjectionShape, T25: ProjectionShape, T26: ProjectionShape, T27: ProjectionShape, T28: ProjectionShape, T29: ProjectionShape> ProjectionShape for (T0, T1, T2, T3, T4, T5, T6, T7, T8, T9, T10, T11, T12, T13, T14, T15, T16, T17, T18, T19, T20, T21, T22, T23, T24, T25, T26, T27, T28, T29) {
    type Exprs<'scope> = (T0::Exprs<'scope>, T1::Exprs<'scope>, T2::Exprs<'scope>, T3::Exprs<'scope>, T4::Exprs<'scope>, T5::Exprs<'scope>, T6::Exprs<'scope>, T7::Exprs<'scope>, T8::Exprs<'scope>, T9::Exprs<'scope>, T10::Exprs<'scope>, T11::Exprs<'scope>, T12::Exprs<'scope>, T13::Exprs<'scope>, T14::Exprs<'scope>, T15::Exprs<'scope>, T16::Exprs<'scope>, T17::Exprs<'scope>, T18::Exprs<'scope>, T19::Exprs<'scope>, T20::Exprs<'scope>, T21::Exprs<'scope>, T22::Exprs<'scope>, T23::Exprs<'scope>, T24::Exprs<'scope>, T25::Exprs<'scope>, T26::Exprs<'scope>, T27::Exprs<'scope>, T28::Exprs<'scope>, T29::Exprs<'scope>);

    type ReboundExprs<'scope> = (T0::ReboundExprs<'scope>, T1::ReboundExprs<'scope>, T2::ReboundExprs<'scope>, T3::ReboundExprs<'scope>, T4::ReboundExprs<'scope>, T5::ReboundExprs<'scope>, T6::ReboundExprs<'scope>, T7::ReboundExprs<'scope>, T8::ReboundExprs<'scope>, T9::ReboundExprs<'scope>, T10::ReboundExprs<'scope>, T11::ReboundExprs<'scope>, T12::ReboundExprs<'scope>, T13::ReboundExprs<'scope>, T14::ReboundExprs<'scope>, T15::ReboundExprs<'scope>, T16::ReboundExprs<'scope>, T17::ReboundExprs<'scope>, T18::ReboundExprs<'scope>, T19::ReboundExprs<'scope>, T20::ReboundExprs<'scope>, T21::ReboundExprs<'scope>, T22::ReboundExprs<'scope>, T23::ReboundExprs<'scope>, T24::ReboundExprs<'scope>, T25::ReboundExprs<'scope>, T26::ReboundExprs<'scope>, T27::ReboundExprs<'scope>, T28::ReboundExprs<'scope>, T29::ReboundExprs<'scope>);

    type Row = (T0::Row, T1::Row, T2::Row, T3::Row, T4::Row, T5::Row, T6::Row, T7::Row, T8::Row, T9::Row, T10::Row, T11::Row, T12::Row, T13::Row, T14::Row, T15::Row, T16::Row, T17::Row, T18::Row, T19::Row, T20::Row, T21::Row, T22::Row, T23::Row, T24::Row, T25::Row, T26::Row, T27::Row, T28::Row, T29::Row);

    open spec fn shape_exprs<'scope>(alias: SourceAlias) -> Self::Exprs<'scope> {
        (T0::shape_exprs(alias), T1::shape_exprs(alias), T2::shape_exprs(alias), T3::shape_exprs(alias), T4::shape_exprs(alias), T5::shape_exprs(alias), T6::shape_exprs(alias), T7::shape_exprs(alias), T8::shape_exprs(alias), T9::shape_exprs(alias), T10::shape_exprs(alias), T11::shape_exprs(alias), T12::shape_exprs(alias), T13::shape_exprs(alias), T14::shape_exprs(alias), T15::shape_exprs(alias), T16::shape_exprs(alias), T17::shape_exprs(alias), T18::shape_exprs(alias), T19::shape_exprs(alias), T20::shape_exprs(alias), T21::shape_exprs(alias), T22::shape_exprs(alias), T23::shape_exprs(alias), T24::shape_exprs(alias), T25::shape_exprs(alias), T26::shape_exprs(alias), T27::shape_exprs(alias), T28::shape_exprs(alias), T29::shape_exprs(alias))
    }

    open spec fn shape_rebound<'scope>(alias: SourceAlias) -> Self::ReboundExprs<'scope> {
        (T0::shape_rebound(alias), T1::shape_rebound(alias), T2::shape_rebound(alias), T3::shape_rebound(alias), T4::shape_rebound(alias), T5::shape_rebound(alias), T6::shape_rebound(alias), T7::shape_rebound(alias), T8::shape_rebound(alias), T9::shape_rebound(alias), T10::shape_rebound(alias), T11::shape_rebound(alias), T12::shape_rebound(alias), T13::shape_rebound(alias), T14::shape_rebound(alias), T15::shape_rebound(alias), T16::shape_rebound(alias), T17::shape_rebound(alias), T18::shape_rebound(alias), T19::shape_rebound(alias), T20::shape_rebound(alias), T21::shape_rebound(alias), T22::shape_rebound(alias), T23::shape_rebound(alias), T24::shape_rebound(alias), T25::shape_rebound(alias), T26::shape_rebound(alias), T27::shape_rebound(alias), T28::shape_rebound(alias), T29::shape_rebound(alias))
    }

    fn exprs<'scope>(alias: SourceAlias) -> (exprs: Self::Exprs<'scope>) {
        (T0::exprs(alias), T1::exprs(alias), T2::exprs(alias), T3::exprs(alias), T4::exprs(alias), T5::exprs(alias), T6::exprs(alias), T7::exprs(alias), T8::exprs(alias), T9::exprs(alias), T10::exprs(alias), T11::exprs(alias), T12::exprs(alias), T13::exprs(alias), T14::exprs(alias), T15::exprs(alias), T16::exprs(alias), T17::exprs(alias), T18::exprs(alias), T19::exprs(alias), T20::exprs(alias), T21::exprs(alias), T22::exprs(alias), T23::exprs(alias), T24::exprs(alias), T25::exprs(alias), T26::exprs(alias), T27::exprs(alias), T28::exprs(alias), T29::exprs(alias))
    }

    fn rebound_exprs<'scope>(alias: SourceAlias) -> (exprs: Self::ReboundExprs<'scope>) {
        (T0::rebound_exprs(alias), T1::rebound_exprs(alias), T2::rebound_exprs(alias), T3::rebound_exprs(alias), T4::rebound_exprs(alias), T5::rebound_exprs(alias), T6::rebound_exprs(alias), T7::rebound_exprs(alias), T8::rebound_exprs(alias), T9::rebound_exprs(alias), T10::rebound_exprs(alias), T11::rebound_exprs(alias), T12::rebound_exprs(alias), T13::rebound_exprs(alias), T14::rebound_exprs(alias), T15::rebound_exprs(alias), T16::rebound_exprs(alias), T17::rebound_exprs(alias), T18::rebound_exprs(alias), T19::rebound_exprs(alias), T20::rebound_exprs(alias), T21::rebound_exprs(alias), T22::rebound_exprs(alias), T23::rebound_exprs(alias), T24::rebound_exprs(alias), T25::rebound_exprs(alias), T26::rebound_exprs(alias), T27::rebound_exprs(alias), T28::rebound_exprs(alias), T29::rebound_exprs(alias))
    }
}

impl<T0, T1, T2, T3, T4, T5, T6, T7, T8, T9, T10, T11, T12, T13, T14, T15, T16, T17, T18, T19, T20, T21, T22, T23, T24, T25, T26, T27, T28, T29> ProjectionParams for (T0, T1, T2, T3, T4, T5, T6, T7, T8, T9, T10, T11, T12, T13, T14, T15, T16, T17, T18, T19, T20, T21, T22, T23, T24, T25, T26, T27, T28, T29) where
    (T0, T1, T2, T3, T4, T5, T6, T7, T8, T9, T10, T11, T12, T13, T14, T15): ProjectionParams,
    (T16, T17, T18, T19, T20, T21, T22, T23, T24, T25, T26, T27, T28, T29): ProjectionParams,
    <(T0, T1, T2, T3, T4, T5, T6, T7, T8, T9, T10, T11, T12, T13, T14, T15) as ProjectionParams>::Params: HAppend<<(T16, T17, T18, T19, T20, T21, T22, T23, T24, T25, T26, T27, T28, T29) as ProjectionParams>::Params>,
 {
    type Params = <<(T0, T1, T2, T3, T4, T5, T6, T7, T8, T9, T10, T11, T12, T13, T14, T15) as ProjectionParams>::Params as HAppend<<(T16, T17, T18, T19, T20, T21, T22, T23, T24, T25, T26, T27, T28, T29) as ProjectionParams>::Params>>::Output;
}

impl<T0: ProjectionClass, T1: ProjectionClass<Class = T0::Class>, T2: ProjectionClass<Class = T0::Class>, T3: ProjectionClass<Class = T0::Class>, T4: ProjectionClass<Class = T0::Class>, T5: ProjectionClass<Class = T0::Class>, T6: ProjectionClass<Class = T0::Class>, T7: ProjectionClass<Class = T0::Class>, T8: ProjectionClass<Class = T0::Class>, T9: ProjectionClass<Class = T0::Class>, T10: ProjectionClass<Class = T0::Class>, T11: ProjectionClass<Class = T0::Class>, T12: ProjectionClass<Class = T0::Class>, T13: ProjectionClass<Class = T0::Class>, T14: ProjectionClass<Class = T0::Class>, T15: ProjectionClass<Class = T0::Class>, T16: ProjectionClass<Class = T0::Class>, T17: ProjectionClass<Class = T0::Class>, T18: ProjectionClass<Class = T0::Class>, T19: ProjectionClass<Class = T0::Class>, T20: ProjectionClass<Class = T0::Class>, T21: ProjectionClass<Class = T0::Class>, T22: ProjectionClass<Class = T0::Class>, T23: ProjectionClass<Class = T0::Class>, T24: ProjectionClass<Class = T0::Class>, T25: ProjectionClass<Class = T0::Class>, T26: ProjectionClass<Class = T0::Class>, T27: ProjectionClass<Class = T0::Class>, T28: ProjectionClass<Class = T0::Class>, T29: ProjectionClass<Class = T0::Class>> ProjectionClass for (T0, T1, T2, T3, T4, T5, T6, T7, T8, T9, T10, T11, T12, T13, T14, T15, T16, T17, T18, T19, T20, T21, T22, T23, T24, T25, T26, T27, T28, T29) {
    type Class = T0::Class;
}

impl<T0: ReturnableProjection, T1: ReturnableProjection, T2: ReturnableProjection, T3: ReturnableProjection, T4: ReturnableProjection, T5: ReturnableProjection, T6: ReturnableProjection, T7: ReturnableProjection, T8: ReturnableProjection, T9: ReturnableProjection, T10: ReturnableProjection, T11: ReturnableProjection, T12: ReturnableProjection, T13: ReturnableProjection, T14: ReturnableProjection, T15: ReturnableProjection, T16: ReturnableProjection, T17: ReturnableProjection, T18: ReturnableProjection, T19: ReturnableProjection, T20: ReturnableProjection, T21: ReturnableProjection, T22: ReturnableProjection, T23: ReturnableProjection, T24: ReturnableProjection, T25: ReturnableProjection, T26: ReturnableProjection, T27: ReturnableProjection, T28: ReturnableProjection, T29: ReturnableProjection> ReturnableProjection for (T0, T1, T2, T3, T4, T5, T6, T7, T8, T9, T10, T11, T12, T13, T14, T15, T16, T17, T18, T19, T20, T21, T22, T23, T24, T25, T26, T27, T28, T29) {

}

impl<T0: Projectable, T1: Projectable, T2: Projectable, T3: Projectable, T4: Projectable, T5: Projectable, T6: Projectable, T7: Projectable, T8: Projectable, T9: Projectable, T10: Projectable, T11: Projectable, T12: Projectable, T13: Projectable, T14: Projectable, T15: Projectable, T16: Projectable, T17: Projectable, T18: Projectable, T19: Projectable, T20: Projectable, T21: Projectable, T22: Projectable, T23: Projectable, T24: Projectable, T25: Projectable, T26: Projectable, T27: Projectable, T28: Projectable, T29: Projectable, B: Backend> RenderProjectable<B> for (T0, T1, T2, T3, T4, T5, T6, T7, T8, T9, T10, T11, T12, T13, T14, T15, T16, T17, T18, T19, T20, T21, T22, T23, T24, T25, T26, T27, T28, T29) where
    (T0, T1, T2, T3, T4, T5, T6, T7, T8, T9, T10, T11, T12, T13, T14, T15): RenderProjectable<B>,
    (T16, T17, T18, T19, T20, T21, T22, T23, T24, T25, T26, T27, T28, T29): RenderProjectable<B>,
    <(T0, T1, T2, T3, T4, T5, T6, T7, T8, T9, T10, T11, T12, T13, T14, T15) as ProjectionParams>::Params: HAppend<<(T16, T17, T18, T19, T20, T21, T22, T23, T24, T25, T26, T27, T28, T29) as ProjectionParams>::Params>,
 {
    open spec fn items(&self) -> List<ProjectionTree<Bound<B>>> {
        (self.0, self.1, self.2, self.3, self.4, self.5, self.6, self.7, self.8, self.9, self.10, self.11, self.12, self.13, self.14, self.15).items().then_list((self.16, self.17, self.18, self.19, self.20, self.21, self.22, self.23, self.24, self.25, self.26, self.27, self.28, self.29).items())
    }

    fn lower_projection(&self) -> (items: List<ProjectionTree<Bound<B>>>) {
        let front = (self.0.duplicate(), self.1.duplicate(), self.2.duplicate(), self.3.duplicate(), self.4.duplicate(), self.5.duplicate(), self.6.duplicate(), self.7.duplicate(), self.8.duplicate(), self.9.duplicate(), self.10.duplicate(), self.11.duplicate(), self.12.duplicate(), self.13.duplicate(), self.14.duplicate(), self.15.duplicate());
        let back = (self.16.duplicate(), self.17.duplicate(), self.18.duplicate(), self.19.duplicate(), self.20.duplicate(), self.21.duplicate(), self.22.duplicate(), self.23.duplicate(), self.24.duplicate(), self.25.duplicate(), self.26.duplicate(), self.27.duplicate(), self.28.duplicate(), self.29.duplicate());
        front.lower_projection().append(back.lower_projection())
    }

    fn lower_projection_with_prefix(&self, prefix: &str) -> (items: List<
        ProjectionTree<Bound<B>>,
    >) {
        let front = (self.0.duplicate(), self.1.duplicate(), self.2.duplicate(), self.3.duplicate(), self.4.duplicate(), self.5.duplicate(), self.6.duplicate(), self.7.duplicate(), self.8.duplicate(), self.9.duplicate(), self.10.duplicate(), self.11.duplicate(), self.12.duplicate(), self.13.duplicate(), self.14.duplicate(), self.15.duplicate());
        let back = (self.16.duplicate(), self.17.duplicate(), self.18.duplicate(), self.19.duplicate(), self.20.duplicate(), self.21.duplicate(), self.22.duplicate(), self.23.duplicate(), self.24.duplicate(), self.25.duplicate(), self.26.duplicate(), self.27.duplicate(), self.28.duplicate(), self.29.duplicate());
        let first = front.lower_projection_with_prefix(prefix);
        let rest = back.lower_projection_with_prefix(prefix);
        proof {
            crate::projection::lemma_prefixed_parts(front.items(), back.items(), prefix@, first, rest);
        }
        first.append(rest)
    }

    proof fn lemma_projection_params<D: Dialect>(&self, dialect: D, bare: bool, lead: Seq<char>) {
        let front = (self.0, self.1, self.2, self.3, self.4, self.5, self.6, self.7, self.8, self.9, self.10, self.11, self.12, self.13, self.14, self.15);
        let back = (self.16, self.17, self.18, self.19, self.20, self.21, self.22, self.23, self.24, self.25, self.26, self.27, self.28, self.29);
        let between = if front.items() is Nil { lead } else { ", "@ };
        front.lemma_projection_params(dialect, bare, lead);
        back.lemma_projection_params(dialect, bare, between);
        crate::projection::lemma_projection_parts(dialect, bare, lead, front.items(), back.items());
        <<(T0, T1, T2, T3, T4, T5, T6, T7, T8, T9, T10, T11, T12, T13, T14, T15) as ProjectionParams>::Params as HAppend<<(T16, T17, T18, T19, T20, T21, T22, T23, T24, T25, T26, T27, T28, T29) as ProjectionParams>::Params>>::lemma_append_width();
    }

    proof fn lemma_projection_plain(&self) {
        let front = (self.0, self.1, self.2, self.3, self.4, self.5, self.6, self.7, self.8, self.9, self.10, self.11, self.12, self.13, self.14, self.15);
        let back = (self.16, self.17, self.18, self.19, self.20, self.21, self.22, self.23, self.24, self.25, self.26, self.27, self.28, self.29);
        <<(T0, T1, T2, T3, T4, T5, T6, T7, T8, T9, T10, T11, T12, T13, T14, T15) as ProjectionParams>::Params as HAppend<<(T16, T17, T18, T19, T20, T21, T22, T23, T24, T25, T26, T27, T28, T29) as ProjectionParams>::Params>>::lemma_append_width();
        front.lemma_projection_plain();
        back.lemma_projection_plain();
        crate::projection::lemma_plain_parts(front.items(), back.items());
    }
}

impl<'scope, T0: ReturningProjection<'scope>, T1: ReturningProjection<'scope>, T2: ReturningProjection<'scope>, T3: ReturningProjection<'scope>, T4: ReturningProjection<'scope>, T5: ReturningProjection<'scope>, T6: ReturningProjection<'scope>, T7: ReturningProjection<'scope>, T8: ReturningProjection<'scope>, T9: ReturningProjection<'scope>, T10: ReturningProjection<'scope>, T11: ReturningProjection<'scope>, T12: ReturningProjection<'scope>, T13: ReturningProjection<'scope>, T14: ReturningProjection<'scope>, T15: ReturningProjection<'scope>, T16: ReturningProjection<'scope>, T17: ReturningProjection<'scope>, T18: ReturningProjection<'scope>, T19: ReturningProjection<'scope>, T20: ReturningProjection<'scope>, T21: ReturningProjection<'scope>, T22: ReturningProjection<'scope>, T23: ReturningProjection<'scope>, T24: ReturningProjection<'scope>, T25: ReturningProjection<'scope>, T26: ReturningProjection<'scope>, T27: ReturningProjection<'scope>, T28: ReturningProjection<'scope>, T29: ReturningProjection<'scope>> ReturningProjection<'scope> for (T0, T1, T2, T3, T4, T5, T6, T7, T8, T9, T10, T11, T12, T13, T14, T15, T16, T17, T18, T19, T20, T21, T22, T23, T24, T25, T26, T27, T28, T29) {
    type Shape = (T0::Shape, T1::Shape, T2::Shape, T3::Shape, T4::Shape, T5::Shape, T6::Shape, T7::Shape, T8::Shape, T9::Shape, T10::Shape, T11::Shape, T12::Shape, T13::Shape, T14::Shape, T15::Shape, T16::Shape, T17::Shape, T18::Shape, T19::Shape, T20::Shape, T21::Shape, T22::Shape, T23::Shape, T24::Shape, T25::Shape, T26::Shape, T27::Shape, T28::Shape, T29::Shape);
}

impl<T0: Projectable, T1: Projectable, T2: Projectable, T3: Projectable, T4: Projectable, T5: Projectable, T6: Projectable, T7: Projectable, T8: Projectable, T9: Projectable, T10: Projectable, T11: Projectable, T12: Projectable, T13: Projectable, T14: Projectable, T15: Projectable, T16: Projectable, T17: Projectable, T18: Projectable, T19: Projectable, T20: Projectable, T21: Projectable, T22: Projectable, T23: Projectable, T24: Projectable, T25: Projectable, T26: Projectable, T27: Projectable, T28: Projectable, T29: Projectable, T30: Projectable> Projectable for (T0, T1, T2, T3, T4, T5, T6, T7, T8, T9, T10, T11, T12, T13, T14, T15, T16, T17, T18, T19, T20, T21, T22, T23, T24, T25, T26, T27, T28, T29, T30) {
    type Rebound<'scope> = (T0::Rebound<'scope>, T1::Rebound<'scope>, T2::Rebound<'scope>, T3::Rebound<'scope>, T4::Rebound<'scope>, T5::Rebound<'scope>, T6::Rebound<'scope>, T7::Rebound<'scope>, T8::Rebound<'scope>, T9::Rebound<'scope>, T10::Rebound<'scope>, T11::Rebound<'scope>, T12::Rebound<'scope>, T13::Rebound<'scope>, T14::Rebound<'scope>, T15::Rebound<'scope>, T16::Rebound<'scope>, T17::Rebound<'scope>, T18::Rebound<'scope>, T19::Rebound<'scope>, T20::Rebound<'scope>, T21::Rebound<'scope>, T22::Rebound<'scope>, T23::Rebound<'scope>, T24::Rebound<'scope>, T25::Rebound<'scope>, T26::Rebound<'scope>, T27::Rebound<'scope>, T28::Rebound<'scope>, T29::Rebound<'scope>, T30::Rebound<'scope>);

    open spec fn rebound<'scope>(&self, alias: SourceAlias) -> Self::Rebound<'scope> {
        (self.0.rebound(alias), self.1.rebound(alias), self.2.rebound(alias), self.3.rebound(alias), self.4.rebound(alias), self.5.rebound(alias), self.6.rebound(alias), self.7.rebound(alias), self.8.rebound(alias), self.9.rebound(alias), self.10.rebound(alias), self.11.rebound(alias), self.12.rebound(alias), self.13.rebound(alias), self.14.rebound(alias), self.15.rebound(alias), self.16.rebound(alias), self.17.rebound(alias), self.18.rebound(alias), self.19.rebound(alias), self.20.rebound(alias), self.21.rebound(alias), self.22.rebound(alias), self.23.rebound(alias), self.24.rebound(alias), self.25.rebound(alias), self.26.rebound(alias), self.27.rebound(alias), self.28.rebound(alias), self.29.rebound(alias), self.30.rebound(alias))
    }

    open spec fn rebinds_with_prefix<'scope>(
        &self,
        alias: SourceAlias,
        prefix: Seq<char>,
        rebound: Self::Rebound<'scope>,
    ) -> bool {
        &&& self.0.rebinds_with_prefix(alias, prefix, rebound.0)
        &&& self.1.rebinds_with_prefix(alias, prefix, rebound.1)
        &&& self.2.rebinds_with_prefix(alias, prefix, rebound.2)
        &&& self.3.rebinds_with_prefix(alias, prefix, rebound.3)
        &&& self.4.rebinds_with_prefix(alias, prefix, rebound.4)
        &&& self.5.rebinds_with_prefix(alias, prefix, rebound.5)
        &&& self.6.rebinds_with_prefix(alias, prefix, rebound.6)
        &&& self.7.rebinds_with_prefix(alias, prefix, rebound.7)
        &&& self.8.rebinds_with_prefix(alias, prefix, rebound.8)
        &&& self.9.rebinds_with_prefix(alias, prefix, rebound.9)
        &&& self.10.rebinds_with_prefix(alias, prefix, rebound.10)
        &&& self.11.rebinds_with_prefix(alias, prefix, rebound.11)
        &&& self.12.rebinds_with_prefix(alias, prefix, rebound.12)
        &&& self.13.rebinds_with_prefix(alias, prefix, rebound.13)
        &&& self.14.rebinds_with_prefix(alias, prefix, rebound.14)
        &&& self.15.rebinds_with_prefix(alias, prefix, rebound.15)
        &&& self.16.rebinds_with_prefix(alias, prefix, rebound.16)
        &&& self.17.rebinds_with_prefix(alias, prefix, rebound.17)
        &&& self.18.rebinds_with_prefix(alias, prefix, rebound.18)
        &&& self.19.rebinds_with_prefix(alias, prefix, rebound.19)
        &&& self.20.rebinds_with_prefix(alias, prefix, rebound.20)
        &&& self.21.rebinds_with_prefix(alias, prefix, rebound.21)
        &&& self.22.rebinds_with_prefix(alias, prefix, rebound.22)
        &&& self.23.rebinds_with_prefix(alias, prefix, rebound.23)
        &&& self.24.rebinds_with_prefix(alias, prefix, rebound.24)
        &&& self.25.rebinds_with_prefix(alias, prefix, rebound.25)
        &&& self.26.rebinds_with_prefix(alias, prefix, rebound.26)
        &&& self.27.rebinds_with_prefix(alias, prefix, rebound.27)
        &&& self.28.rebinds_with_prefix(alias, prefix, rebound.28)
        &&& self.29.rebinds_with_prefix(alias, prefix, rebound.29)
        &&& self.30.rebinds_with_prefix(alias, prefix, rebound.30)
    }

    fn re_alias<'scope>(&self, alias: SourceAlias) -> (rebound: Self::Rebound<'scope>) {
        (self.0.re_alias(alias), self.1.re_alias(alias), self.2.re_alias(alias), self.3.re_alias(alias), self.4.re_alias(alias), self.5.re_alias(alias), self.6.re_alias(alias), self.7.re_alias(alias), self.8.re_alias(alias), self.9.re_alias(alias), self.10.re_alias(alias), self.11.re_alias(alias), self.12.re_alias(alias), self.13.re_alias(alias), self.14.re_alias(alias), self.15.re_alias(alias), self.16.re_alias(alias), self.17.re_alias(alias), self.18.re_alias(alias), self.19.re_alias(alias), self.20.re_alias(alias), self.21.re_alias(alias), self.22.re_alias(alias), self.23.re_alias(alias), self.24.re_alias(alias), self.25.re_alias(alias), self.26.re_alias(alias), self.27.re_alias(alias), self.28.re_alias(alias), self.29.re_alias(alias), self.30.re_alias(alias))
    }

    fn re_alias_with_prefix<'scope>(&self, alias: SourceAlias, prefix: &str) -> (rebound:
        Self::Rebound<'scope>) {
        (self.0.re_alias_with_prefix(alias, prefix), self.1.re_alias_with_prefix(alias, prefix), self.2.re_alias_with_prefix(alias, prefix), self.3.re_alias_with_prefix(alias, prefix), self.4.re_alias_with_prefix(alias, prefix), self.5.re_alias_with_prefix(alias, prefix), self.6.re_alias_with_prefix(alias, prefix), self.7.re_alias_with_prefix(alias, prefix), self.8.re_alias_with_prefix(alias, prefix), self.9.re_alias_with_prefix(alias, prefix), self.10.re_alias_with_prefix(alias, prefix), self.11.re_alias_with_prefix(alias, prefix), self.12.re_alias_with_prefix(alias, prefix), self.13.re_alias_with_prefix(alias, prefix), self.14.re_alias_with_prefix(alias, prefix), self.15.re_alias_with_prefix(alias, prefix), self.16.re_alias_with_prefix(alias, prefix), self.17.re_alias_with_prefix(alias, prefix), self.18.re_alias_with_prefix(alias, prefix), self.19.re_alias_with_prefix(alias, prefix), self.20.re_alias_with_prefix(alias, prefix), self.21.re_alias_with_prefix(alias, prefix), self.22.re_alias_with_prefix(alias, prefix), self.23.re_alias_with_prefix(alias, prefix), self.24.re_alias_with_prefix(alias, prefix), self.25.re_alias_with_prefix(alias, prefix), self.26.re_alias_with_prefix(alias, prefix), self.27.re_alias_with_prefix(alias, prefix), self.28.re_alias_with_prefix(alias, prefix), self.29.re_alias_with_prefix(alias, prefix), self.30.re_alias_with_prefix(alias, prefix))
    }
}

impl<T0: Duplicate, T1: Duplicate, T2: Duplicate, T3: Duplicate, T4: Duplicate, T5: Duplicate, T6: Duplicate, T7: Duplicate, T8: Duplicate, T9: Duplicate, T10: Duplicate, T11: Duplicate, T12: Duplicate, T13: Duplicate, T14: Duplicate, T15: Duplicate, T16: Duplicate, T17: Duplicate, T18: Duplicate, T19: Duplicate, T20: Duplicate, T21: Duplicate, T22: Duplicate, T23: Duplicate, T24: Duplicate, T25: Duplicate, T26: Duplicate, T27: Duplicate, T28: Duplicate, T29: Duplicate, T30: Duplicate> Duplicate for (T0, T1, T2, T3, T4, T5, T6, T7, T8, T9, T10, T11, T12, T13, T14, T15, T16, T17, T18, T19, T20, T21, T22, T23, T24, T25, T26, T27, T28, T29, T30) {
    fn duplicate(&self) -> (copy: Self) {
        (self.0.duplicate(), self.1.duplicate(), self.2.duplicate(), self.3.duplicate(), self.4.duplicate(), self.5.duplicate(), self.6.duplicate(), self.7.duplicate(), self.8.duplicate(), self.9.duplicate(), self.10.duplicate(), self.11.duplicate(), self.12.duplicate(), self.13.duplicate(), self.14.duplicate(), self.15.duplicate(), self.16.duplicate(), self.17.duplicate(), self.18.duplicate(), self.19.duplicate(), self.20.duplicate(), self.21.duplicate(), self.22.duplicate(), self.23.duplicate(), self.24.duplicate(), self.25.duplicate(), self.26.duplicate(), self.27.duplicate(), self.28.duplicate(), self.29.duplicate(), self.30.duplicate())
    }
}

impl<T0: ProjectionShape, T1: ProjectionShape, T2: ProjectionShape, T3: ProjectionShape, T4: ProjectionShape, T5: ProjectionShape, T6: ProjectionShape, T7: ProjectionShape, T8: ProjectionShape, T9: ProjectionShape, T10: ProjectionShape, T11: ProjectionShape, T12: ProjectionShape, T13: ProjectionShape, T14: ProjectionShape, T15: ProjectionShape, T16: ProjectionShape, T17: ProjectionShape, T18: ProjectionShape, T19: ProjectionShape, T20: ProjectionShape, T21: ProjectionShape, T22: ProjectionShape, T23: ProjectionShape, T24: ProjectionShape, T25: ProjectionShape, T26: ProjectionShape, T27: ProjectionShape, T28: ProjectionShape, T29: ProjectionShape, T30: ProjectionShape> ProjectionShape for (T0, T1, T2, T3, T4, T5, T6, T7, T8, T9, T10, T11, T12, T13, T14, T15, T16, T17, T18, T19, T20, T21, T22, T23, T24, T25, T26, T27, T28, T29, T30) {
    type Exprs<'scope> = (T0::Exprs<'scope>, T1::Exprs<'scope>, T2::Exprs<'scope>, T3::Exprs<'scope>, T4::Exprs<'scope>, T5::Exprs<'scope>, T6::Exprs<'scope>, T7::Exprs<'scope>, T8::Exprs<'scope>, T9::Exprs<'scope>, T10::Exprs<'scope>, T11::Exprs<'scope>, T12::Exprs<'scope>, T13::Exprs<'scope>, T14::Exprs<'scope>, T15::Exprs<'scope>, T16::Exprs<'scope>, T17::Exprs<'scope>, T18::Exprs<'scope>, T19::Exprs<'scope>, T20::Exprs<'scope>, T21::Exprs<'scope>, T22::Exprs<'scope>, T23::Exprs<'scope>, T24::Exprs<'scope>, T25::Exprs<'scope>, T26::Exprs<'scope>, T27::Exprs<'scope>, T28::Exprs<'scope>, T29::Exprs<'scope>, T30::Exprs<'scope>);

    type ReboundExprs<'scope> = (T0::ReboundExprs<'scope>, T1::ReboundExprs<'scope>, T2::ReboundExprs<'scope>, T3::ReboundExprs<'scope>, T4::ReboundExprs<'scope>, T5::ReboundExprs<'scope>, T6::ReboundExprs<'scope>, T7::ReboundExprs<'scope>, T8::ReboundExprs<'scope>, T9::ReboundExprs<'scope>, T10::ReboundExprs<'scope>, T11::ReboundExprs<'scope>, T12::ReboundExprs<'scope>, T13::ReboundExprs<'scope>, T14::ReboundExprs<'scope>, T15::ReboundExprs<'scope>, T16::ReboundExprs<'scope>, T17::ReboundExprs<'scope>, T18::ReboundExprs<'scope>, T19::ReboundExprs<'scope>, T20::ReboundExprs<'scope>, T21::ReboundExprs<'scope>, T22::ReboundExprs<'scope>, T23::ReboundExprs<'scope>, T24::ReboundExprs<'scope>, T25::ReboundExprs<'scope>, T26::ReboundExprs<'scope>, T27::ReboundExprs<'scope>, T28::ReboundExprs<'scope>, T29::ReboundExprs<'scope>, T30::ReboundExprs<'scope>);

    type Row = (T0::Row, T1::Row, T2::Row, T3::Row, T4::Row, T5::Row, T6::Row, T7::Row, T8::Row, T9::Row, T10::Row, T11::Row, T12::Row, T13::Row, T14::Row, T15::Row, T16::Row, T17::Row, T18::Row, T19::Row, T20::Row, T21::Row, T22::Row, T23::Row, T24::Row, T25::Row, T26::Row, T27::Row, T28::Row, T29::Row, T30::Row);

    open spec fn shape_exprs<'scope>(alias: SourceAlias) -> Self::Exprs<'scope> {
        (T0::shape_exprs(alias), T1::shape_exprs(alias), T2::shape_exprs(alias), T3::shape_exprs(alias), T4::shape_exprs(alias), T5::shape_exprs(alias), T6::shape_exprs(alias), T7::shape_exprs(alias), T8::shape_exprs(alias), T9::shape_exprs(alias), T10::shape_exprs(alias), T11::shape_exprs(alias), T12::shape_exprs(alias), T13::shape_exprs(alias), T14::shape_exprs(alias), T15::shape_exprs(alias), T16::shape_exprs(alias), T17::shape_exprs(alias), T18::shape_exprs(alias), T19::shape_exprs(alias), T20::shape_exprs(alias), T21::shape_exprs(alias), T22::shape_exprs(alias), T23::shape_exprs(alias), T24::shape_exprs(alias), T25::shape_exprs(alias), T26::shape_exprs(alias), T27::shape_exprs(alias), T28::shape_exprs(alias), T29::shape_exprs(alias), T30::shape_exprs(alias))
    }

    open spec fn shape_rebound<'scope>(alias: SourceAlias) -> Self::ReboundExprs<'scope> {
        (T0::shape_rebound(alias), T1::shape_rebound(alias), T2::shape_rebound(alias), T3::shape_rebound(alias), T4::shape_rebound(alias), T5::shape_rebound(alias), T6::shape_rebound(alias), T7::shape_rebound(alias), T8::shape_rebound(alias), T9::shape_rebound(alias), T10::shape_rebound(alias), T11::shape_rebound(alias), T12::shape_rebound(alias), T13::shape_rebound(alias), T14::shape_rebound(alias), T15::shape_rebound(alias), T16::shape_rebound(alias), T17::shape_rebound(alias), T18::shape_rebound(alias), T19::shape_rebound(alias), T20::shape_rebound(alias), T21::shape_rebound(alias), T22::shape_rebound(alias), T23::shape_rebound(alias), T24::shape_rebound(alias), T25::shape_rebound(alias), T26::shape_rebound(alias), T27::shape_rebound(alias), T28::shape_rebound(alias), T29::shape_rebound(alias), T30::shape_rebound(alias))
    }

    fn exprs<'scope>(alias: SourceAlias) -> (exprs: Self::Exprs<'scope>) {
        (T0::exprs(alias), T1::exprs(alias), T2::exprs(alias), T3::exprs(alias), T4::exprs(alias), T5::exprs(alias), T6::exprs(alias), T7::exprs(alias), T8::exprs(alias), T9::exprs(alias), T10::exprs(alias), T11::exprs(alias), T12::exprs(alias), T13::exprs(alias), T14::exprs(alias), T15::exprs(alias), T16::exprs(alias), T17::exprs(alias), T18::exprs(alias), T19::exprs(alias), T20::exprs(alias), T21::exprs(alias), T22::exprs(alias), T23::exprs(alias), T24::exprs(alias), T25::exprs(alias), T26::exprs(alias), T27::exprs(alias), T28::exprs(alias), T29::exprs(alias), T30::exprs(alias))
    }

    fn rebound_exprs<'scope>(alias: SourceAlias) -> (exprs: Self::ReboundExprs<'scope>) {
        (T0::rebound_exprs(alias), T1::rebound_exprs(alias), T2::rebound_exprs(alias), T3::rebound_exprs(alias), T4::rebound_exprs(alias), T5::rebound_exprs(alias), T6::rebound_exprs(alias), T7::rebound_exprs(alias), T8::rebound_exprs(alias), T9::rebound_exprs(alias), T10::rebound_exprs(alias), T11::rebound_exprs(alias), T12::rebound_exprs(alias), T13::rebound_exprs(alias), T14::rebound_exprs(alias), T15::rebound_exprs(alias), T16::rebound_exprs(alias), T17::rebound_exprs(alias), T18::rebound_exprs(alias), T19::rebound_exprs(alias), T20::rebound_exprs(alias), T21::rebound_exprs(alias), T22::rebound_exprs(alias), T23::rebound_exprs(alias), T24::rebound_exprs(alias), T25::rebound_exprs(alias), T26::rebound_exprs(alias), T27::rebound_exprs(alias), T28::rebound_exprs(alias), T29::rebound_exprs(alias), T30::rebound_exprs(alias))
    }
}

impl<T0, T1, T2, T3, T4, T5, T6, T7, T8, T9, T10, T11, T12, T13, T14, T15, T16, T17, T18, T19, T20, T21, T22, T23, T24, T25, T26, T27, T28, T29, T30> ProjectionParams for (T0, T1, T2, T3, T4, T5, T6, T7, T8, T9, T10, T11, T12, T13, T14, T15, T16, T17, T18, T19, T20, T21, T22, T23, T24, T25, T26, T27, T28, T29, T30) where
    (T0, T1, T2, T3, T4, T5, T6, T7, T8, T9, T10, T11, T12, T13, T14, T15): ProjectionParams,
    (T16, T17, T18, T19, T20, T21, T22, T23, T24, T25, T26, T27, T28, T29, T30): ProjectionParams,
    <(T0, T1, T2, T3, T4, T5, T6, T7, T8, T9, T10, T11, T12, T13, T14, T15) as ProjectionParams>::Params: HAppend<<(T16, T17, T18, T19, T20, T21, T22, T23, T24, T25, T26, T27, T28, T29, T30) as ProjectionParams>::Params>,
 {
    type Params = <<(T0, T1, T2, T3, T4, T5, T6, T7, T8, T9, T10, T11, T12, T13, T14, T15) as ProjectionParams>::Params as HAppend<<(T16, T17, T18, T19, T20, T21, T22, T23, T24, T25, T26, T27, T28, T29, T30) as ProjectionParams>::Params>>::Output;
}

impl<T0: ProjectionClass, T1: ProjectionClass<Class = T0::Class>, T2: ProjectionClass<Class = T0::Class>, T3: ProjectionClass<Class = T0::Class>, T4: ProjectionClass<Class = T0::Class>, T5: ProjectionClass<Class = T0::Class>, T6: ProjectionClass<Class = T0::Class>, T7: ProjectionClass<Class = T0::Class>, T8: ProjectionClass<Class = T0::Class>, T9: ProjectionClass<Class = T0::Class>, T10: ProjectionClass<Class = T0::Class>, T11: ProjectionClass<Class = T0::Class>, T12: ProjectionClass<Class = T0::Class>, T13: ProjectionClass<Class = T0::Class>, T14: ProjectionClass<Class = T0::Class>, T15: ProjectionClass<Class = T0::Class>, T16: ProjectionClass<Class = T0::Class>, T17: ProjectionClass<Class = T0::Class>, T18: ProjectionClass<Class = T0::Class>, T19: ProjectionClass<Class = T0::Class>, T20: ProjectionClass<Class = T0::Class>, T21: ProjectionClass<Class = T0::Class>, T22: ProjectionClass<Class = T0::Class>, T23: ProjectionClass<Class = T0::Class>, T24: ProjectionClass<Class = T0::Class>, T25: ProjectionClass<Class = T0::Class>, T26: ProjectionClass<Class = T0::Class>, T27: ProjectionClass<Class = T0::Class>, T28: ProjectionClass<Class = T0::Class>, T29: ProjectionClass<Class = T0::Class>, T30: ProjectionClass<Class = T0::Class>> ProjectionClass for (T0, T1, T2, T3, T4, T5, T6, T7, T8, T9, T10, T11, T12, T13, T14, T15, T16, T17, T18, T19, T20, T21, T22, T23, T24, T25, T26, T27, T28, T29, T30) {
    type Class = T0::Class;
}

impl<T0: ReturnableProjection, T1: ReturnableProjection, T2: ReturnableProjection, T3: ReturnableProjection, T4: ReturnableProjection, T5: ReturnableProjection, T6: ReturnableProjection, T7: ReturnableProjection, T8: ReturnableProjection, T9: ReturnableProjection, T10: ReturnableProjection, T11: ReturnableProjection, T12: ReturnableProjection, T13: ReturnableProjection, T14: ReturnableProjection, T15: ReturnableProjection, T16: ReturnableProjection, T17: ReturnableProjection, T18: ReturnableProjection, T19: ReturnableProjection, T20: ReturnableProjection, T21: ReturnableProjection, T22: ReturnableProjection, T23: ReturnableProjection, T24: ReturnableProjection, T25: ReturnableProjection, T26: ReturnableProjection, T27: ReturnableProjection, T28: ReturnableProjection, T29: ReturnableProjection, T30: ReturnableProjection> ReturnableProjection for (T0, T1, T2, T3, T4, T5, T6, T7, T8, T9, T10, T11, T12, T13, T14, T15, T16, T17, T18, T19, T20, T21, T22, T23, T24, T25, T26, T27, T28, T29, T30) {

}

impl<T0: Projectable, T1: Projectable, T2: Projectable, T3: Projectable, T4: Projectable, T5: Projectable, T6: Projectable, T7: Projectable, T8: Projectable, T9: Projectable, T10: Projectable, T11: Projectable, T12: Projectable, T13: Projectable, T14: Projectable, T15: Projectable, T16: Projectable, T17: Projectable, T18: Projectable, T19: Projectable, T20: Projectable, T21: Projectable, T22: Projectable, T23: Projectable, T24: Projectable, T25: Projectable, T26: Projectable, T27: Projectable, T28: Projectable, T29: Projectable, T30: Projectable, B: Backend> RenderProjectable<B> for (T0, T1, T2, T3, T4, T5, T6, T7, T8, T9, T10, T11, T12, T13, T14, T15, T16, T17, T18, T19, T20, T21, T22, T23, T24, T25, T26, T27, T28, T29, T30) where
    (T0, T1, T2, T3, T4, T5, T6, T7, T8, T9, T10, T11, T12, T13, T14, T15): RenderProjectable<B>,
    (T16, T17, T18, T19, T20, T21, T22, T23, T24, T25, T26, T27, T28, T29, T30): RenderProjectable<B>,
    <(T0, T1, T2, T3, T4, T5, T6, T7, T8, T9, T10, T11, T12, T13, T14, T15) as ProjectionParams>::Params: HAppend<<(T16, T17, T18, T19, T20, T21, T22, T23, T24, T25, T26, T27, T28, T29, T30) as ProjectionParams>::Params>,
 {
    open spec fn items(&self) -> List<ProjectionTree<Bound<B>>> {
        (self.0, self.1, self.2, self.3, self.4, self.5, self.6, self.7, self.8, self.9, self.10, self.11, self.12, self.13, self.14, self.15).items().then_list((self.16, self.17, self.18, self.19, self.20, self.21, self.22, self.23, self.24, self.25, self.26, self.27, self.28, self.29, self.30).items())
    }

    fn lower_projection(&self) -> (items: List<ProjectionTree<Bound<B>>>) {
        let front = (self.0.duplicate(), self.1.duplicate(), self.2.duplicate(), self.3.duplicate(), self.4.duplicate(), self.5.duplicate(), self.6.duplicate(), self.7.duplicate(), self.8.duplicate(), self.9.duplicate(), self.10.duplicate(), self.11.duplicate(), self.12.duplicate(), self.13.duplicate(), self.14.duplicate(), self.15.duplicate());
        let back = (self.16.duplicate(), self.17.duplicate(), self.18.duplicate(), self.19.duplicate(), self.20.duplicate(), self.21.duplicate(), self.22.duplicate(), self.23.duplicate(), self.24.duplicate(), self.25.duplicate(), self.26.duplicate(), self.27.duplicate(), self.28.duplicate(), self.29.duplicate(), self.30.duplicate());
        front.lower_projection().append(back.lower_projection())
    }

    fn lower_projection_with_prefix(&self, prefix: &str) -> (items: List<
        ProjectionTree<Bound<B>>,
    >) {
        let front = (self.0.duplicate(), self.1.duplicate(), self.2.duplicate(), self.3.duplicate(), self.4.duplicate(), self.5.duplicate(), self.6.duplicate(), self.7.duplicate(), self.8.duplicate(), self.9.duplicate(), self.10.duplicate(), self.11.duplicate(), self.12.duplicate(), self.13.duplicate(), self.14.duplicate(), self.15.duplicate());
        let back = (self.16.duplicate(), self.17.duplicate(), self.18.duplicate(), self.19.duplicate(), self.20.duplicate(), self.21.duplicate(), self.22.duplicate(), self.23.duplicate(), self.24.duplicate(), self.25.duplicate(), self.26.duplicate(), self.27.duplicate(), self.28.duplicate(), self.29.duplicate(), self.30.duplicate());
        let first = front.lower_projection_with_prefix(prefix);
        let rest = back.lower_projection_with_prefix(prefix);
        proof {
            crate::projection::lemma_prefixed_parts(front.items(), back.items(), prefix@, first, rest);
        }
        first.append(rest)
    }

    proof fn lemma_projection_params<D: Dialect>(&self, dialect: D, bare: bool, lead: Seq<char>) {
        let front = (self.0, self.1, self.2, self.3, self.4, self.5, self.6, self.7, self.8, self.9, self.10, self.11, self.12, self.13, self.14, self.15);
        let back = (self.16, self.17, self.18, self.19, self.20, self.21, self.22, self.23, self.24, self.25, self.26, self.27, self.28, self.29, self.30);
        let between = if front.items() is Nil { lead } else { ", "@ };
        front.lemma_projection_params(dialect, bare, lead);
        back.lemma_projection_params(dialect, bare, between);
        crate::projection::lemma_projection_parts(dialect, bare, lead, front.items(), back.items());
        <<(T0, T1, T2, T3, T4, T5, T6, T7, T8, T9, T10, T11, T12, T13, T14, T15) as ProjectionParams>::Params as HAppend<<(T16, T17, T18, T19, T20, T21, T22, T23, T24, T25, T26, T27, T28, T29, T30) as ProjectionParams>::Params>>::lemma_append_width();
    }

    proof fn lemma_projection_plain(&self) {
        let front = (self.0, self.1, self.2, self.3, self.4, self.5, self.6, self.7, self.8, self.9, self.10, self.11, self.12, self.13, self.14, self.15);
        let back = (self.16, self.17, self.18, self.19, self.20, self.21, self.22, self.23, self.24, self.25, self.26, self.27, self.28, self.29, self.30);
        <<(T0, T1, T2, T3, T4, T5, T6, T7, T8, T9, T10, T11, T12, T13, T14, T15) as ProjectionParams>::Params as HAppend<<(T16, T17, T18, T19, T20, T21, T22, T23, T24, T25, T26, T27, T28, T29, T30) as ProjectionParams>::Params>>::lemma_append_width();
        front.lemma_projection_plain();
        back.lemma_projection_plain();
        crate::projection::lemma_plain_parts(front.items(), back.items());
    }
}

impl<'scope, T0: ReturningProjection<'scope>, T1: ReturningProjection<'scope>, T2: ReturningProjection<'scope>, T3: ReturningProjection<'scope>, T4: ReturningProjection<'scope>, T5: ReturningProjection<'scope>, T6: ReturningProjection<'scope>, T7: ReturningProjection<'scope>, T8: ReturningProjection<'scope>, T9: ReturningProjection<'scope>, T10: ReturningProjection<'scope>, T11: ReturningProjection<'scope>, T12: ReturningProjection<'scope>, T13: ReturningProjection<'scope>, T14: ReturningProjection<'scope>, T15: ReturningProjection<'scope>, T16: ReturningProjection<'scope>, T17: ReturningProjection<'scope>, T18: ReturningProjection<'scope>, T19: ReturningProjection<'scope>, T20: ReturningProjection<'scope>, T21: ReturningProjection<'scope>, T22: ReturningProjection<'scope>, T23: ReturningProjection<'scope>, T24: ReturningProjection<'scope>, T25: ReturningProjection<'scope>, T26: ReturningProjection<'scope>, T27: ReturningProjection<'scope>, T28: ReturningProjection<'scope>, T29: ReturningProjection<'scope>, T30: ReturningProjection<'scope>> ReturningProjection<'scope> for (T0, T1, T2, T3, T4, T5, T6, T7, T8, T9, T10, T11, T12, T13, T14, T15, T16, T17, T18, T19, T20, T21, T22, T23, T24, T25, T26, T27, T28, T29, T30) {
    type Shape = (T0::Shape, T1::Shape, T2::Shape, T3::Shape, T4::Shape, T5::Shape, T6::Shape, T7::Shape, T8::Shape, T9::Shape, T10::Shape, T11::Shape, T12::Shape, T13::Shape, T14::Shape, T15::Shape, T16::Shape, T17::Shape, T18::Shape, T19::Shape, T20::Shape, T21::Shape, T22::Shape, T23::Shape, T24::Shape, T25::Shape, T26::Shape, T27::Shape, T28::Shape, T29::Shape, T30::Shape);
}

impl<T0: Projectable, T1: Projectable, T2: Projectable, T3: Projectable, T4: Projectable, T5: Projectable, T6: Projectable, T7: Projectable, T8: Projectable, T9: Projectable, T10: Projectable, T11: Projectable, T12: Projectable, T13: Projectable, T14: Projectable, T15: Projectable, T16: Projectable, T17: Projectable, T18: Projectable, T19: Projectable, T20: Projectable, T21: Projectable, T22: Projectable, T23: Projectable, T24: Projectable, T25: Projectable, T26: Projectable, T27: Projectable, T28: Projectable, T29: Projectable, T30: Projectable, T31: Projectable> Projectable for (T0, T1, T2, T3, T4, T5, T6, T7, T8, T9, T10, T11, T12, T13, T14, T15, T16, T17, T18, T19, T20, T21, T22, T23, T24, T25, T26, T27, T28, T29, T30, T31) {
    type Rebound<'scope> = (T0::Rebound<'scope>, T1::Rebound<'scope>, T2::Rebound<'scope>, T3::Rebound<'scope>, T4::Rebound<'scope>, T5::Rebound<'scope>, T6::Rebound<'scope>, T7::Rebound<'scope>, T8::Rebound<'scope>, T9::Rebound<'scope>, T10::Rebound<'scope>, T11::Rebound<'scope>, T12::Rebound<'scope>, T13::Rebound<'scope>, T14::Rebound<'scope>, T15::Rebound<'scope>, T16::Rebound<'scope>, T17::Rebound<'scope>, T18::Rebound<'scope>, T19::Rebound<'scope>, T20::Rebound<'scope>, T21::Rebound<'scope>, T22::Rebound<'scope>, T23::Rebound<'scope>, T24::Rebound<'scope>, T25::Rebound<'scope>, T26::Rebound<'scope>, T27::Rebound<'scope>, T28::Rebound<'scope>, T29::Rebound<'scope>, T30::Rebound<'scope>, T31::Rebound<'scope>);

    open spec fn rebound<'scope>(&self, alias: SourceAlias) -> Self::Rebound<'scope> {
        (self.0.rebound(alias), self.1.rebound(alias), self.2.rebound(alias), self.3.rebound(alias), self.4.rebound(alias), self.5.rebound(alias), self.6.rebound(alias), self.7.rebound(alias), self.8.rebound(alias), self.9.rebound(alias), self.10.rebound(alias), self.11.rebound(alias), self.12.rebound(alias), self.13.rebound(alias), self.14.rebound(alias), self.15.rebound(alias), self.16.rebound(alias), self.17.rebound(alias), self.18.rebound(alias), self.19.rebound(alias), self.20.rebound(alias), self.21.rebound(alias), self.22.rebound(alias), self.23.rebound(alias), self.24.rebound(alias), self.25.rebound(alias), self.26.rebound(alias), self.27.rebound(alias), self.28.rebound(alias), self.29.rebound(alias), self.30.rebound(alias), self.31.rebound(alias))
    }

    open spec fn rebinds_with_prefix<'scope>(
        &self,
        alias: SourceAlias,
        prefix: Seq<char>,
        rebound: Self::Rebound<'scope>,
    ) -> bool {
        &&& self.0.rebinds_with_prefix(alias, prefix, rebound.0)
        &&& self.1.rebinds_with_prefix(alias, prefix, rebound.1)
        &&& self.2.rebinds_with_prefix(alias, prefix, rebound.2)
        &&& self.3.rebinds_with_prefix(alias, prefix, rebound.3)
        &&& self.4.rebinds_with_prefix(alias, prefix, rebound.4)
        &&& self.5.rebinds_with_prefix(alias, prefix, rebound.5)
        &&& self.6.rebinds_with_prefix(alias, prefix, rebound.6)
        &&& self.7.rebinds_with_prefix(alias, prefix, rebound.7)
        &&& self.8.rebinds_with_prefix(alias, prefix, rebound.8)
        &&& self.9.rebinds_with_prefix(alias, prefix, rebound.9)
        &&& self.10.rebinds_with_prefix(alias, prefix, rebound.10)
        &&& self.11.rebinds_with_prefix(alias, prefix, rebound.11)
        &&& self.12.rebinds_with_prefix(alias, prefix, rebound.12)
        &&& self.13.rebinds_with_prefix(alias, prefix, rebound.13)
        &&& self.14.rebinds_with_prefix(alias, prefix, rebound.14)
        &&& self.15.rebinds_with_prefix(alias, prefix, rebound.15)
        &&& self.16.rebinds_with_prefix(alias, prefix, rebound.16)
        &&& self.17.rebinds_with_prefix(alias, prefix, rebound.17)
        &&& self.18.rebinds_with_prefix(alias, prefix, rebound.18)
        &&& self.19.rebinds_with_prefix(alias, prefix, rebound.19)
        &&& self.20.rebinds_with_prefix(alias, prefix, rebound.20)
        &&& self.21.rebinds_with_prefix(alias, prefix, rebound.21)
        &&& self.22.rebinds_with_prefix(alias, prefix, rebound.22)
        &&& self.23.rebinds_with_prefix(alias, prefix, rebound.23)
        &&& self.24.rebinds_with_prefix(alias, prefix, rebound.24)
        &&& self.25.rebinds_with_prefix(alias, prefix, rebound.25)
        &&& self.26.rebinds_with_prefix(alias, prefix, rebound.26)
        &&& self.27.rebinds_with_prefix(alias, prefix, rebound.27)
        &&& self.28.rebinds_with_prefix(alias, prefix, rebound.28)
        &&& self.29.rebinds_with_prefix(alias, prefix, rebound.29)
        &&& self.30.rebinds_with_prefix(alias, prefix, rebound.30)
        &&& self.31.rebinds_with_prefix(alias, prefix, rebound.31)
    }

    fn re_alias<'scope>(&self, alias: SourceAlias) -> (rebound: Self::Rebound<'scope>) {
        (self.0.re_alias(alias), self.1.re_alias(alias), self.2.re_alias(alias), self.3.re_alias(alias), self.4.re_alias(alias), self.5.re_alias(alias), self.6.re_alias(alias), self.7.re_alias(alias), self.8.re_alias(alias), self.9.re_alias(alias), self.10.re_alias(alias), self.11.re_alias(alias), self.12.re_alias(alias), self.13.re_alias(alias), self.14.re_alias(alias), self.15.re_alias(alias), self.16.re_alias(alias), self.17.re_alias(alias), self.18.re_alias(alias), self.19.re_alias(alias), self.20.re_alias(alias), self.21.re_alias(alias), self.22.re_alias(alias), self.23.re_alias(alias), self.24.re_alias(alias), self.25.re_alias(alias), self.26.re_alias(alias), self.27.re_alias(alias), self.28.re_alias(alias), self.29.re_alias(alias), self.30.re_alias(alias), self.31.re_alias(alias))
    }

    fn re_alias_with_prefix<'scope>(&self, alias: SourceAlias, prefix: &str) -> (rebound:
        Self::Rebound<'scope>) {
        (self.0.re_alias_with_prefix(alias, prefix), self.1.re_alias_with_prefix(alias, prefix), self.2.re_alias_with_prefix(alias, prefix), self.3.re_alias_with_prefix(alias, prefix), self.4.re_alias_with_prefix(alias, prefix), self.5.re_alias_with_prefix(alias, prefix), self.6.re_alias_with_prefix(alias, prefix), self.7.re_alias_with_prefix(alias, prefix), self.8.re_alias_with_prefix(alias, prefix), self.9.re_alias_with_prefix(alias, prefix), self.10.re_alias_with_prefix(alias, prefix), self.11.re_alias_with_prefix(alias, prefix), self.12.re_alias_with_prefix(alias, prefix), self.13.re_alias_with_prefix(alias, prefix), self.14.re_alias_with_prefix(alias, prefix), self.15.re_alias_with_prefix(alias, prefix), self.16.re_alias_with_prefix(alias, prefix), self.17.re_alias_with_prefix(alias, prefix), self.18.re_alias_with_prefix(alias, prefix), self.19.re_alias_with_prefix(alias, prefix), self.20.re_alias_with_prefix(alias, prefix), self.21.re_alias_with_prefix(alias, prefix), self.22.re_alias_with_prefix(alias, prefix), self.23.re_alias_with_prefix(alias, prefix), self.24.re_alias_with_prefix(alias, prefix), self.25.re_alias_with_prefix(alias, prefix), self.26.re_alias_with_prefix(alias, prefix), self.27.re_alias_with_prefix(alias, prefix), self.28.re_alias_with_prefix(alias, prefix), self.29.re_alias_with_prefix(alias, prefix), self.30.re_alias_with_prefix(alias, prefix), self.31.re_alias_with_prefix(alias, prefix))
    }
}

impl<T0: Duplicate, T1: Duplicate, T2: Duplicate, T3: Duplicate, T4: Duplicate, T5: Duplicate, T6: Duplicate, T7: Duplicate, T8: Duplicate, T9: Duplicate, T10: Duplicate, T11: Duplicate, T12: Duplicate, T13: Duplicate, T14: Duplicate, T15: Duplicate, T16: Duplicate, T17: Duplicate, T18: Duplicate, T19: Duplicate, T20: Duplicate, T21: Duplicate, T22: Duplicate, T23: Duplicate, T24: Duplicate, T25: Duplicate, T26: Duplicate, T27: Duplicate, T28: Duplicate, T29: Duplicate, T30: Duplicate, T31: Duplicate> Duplicate for (T0, T1, T2, T3, T4, T5, T6, T7, T8, T9, T10, T11, T12, T13, T14, T15, T16, T17, T18, T19, T20, T21, T22, T23, T24, T25, T26, T27, T28, T29, T30, T31) {
    fn duplicate(&self) -> (copy: Self) {
        (self.0.duplicate(), self.1.duplicate(), self.2.duplicate(), self.3.duplicate(), self.4.duplicate(), self.5.duplicate(), self.6.duplicate(), self.7.duplicate(), self.8.duplicate(), self.9.duplicate(), self.10.duplicate(), self.11.duplicate(), self.12.duplicate(), self.13.duplicate(), self.14.duplicate(), self.15.duplicate(), self.16.duplicate(), self.17.duplicate(), self.18.duplicate(), self.19.duplicate(), self.20.duplicate(), self.21.duplicate(), self.22.duplicate(), self.23.duplicate(), self.24.duplicate(), self.25.duplicate(), self.26.duplicate(), self.27.duplicate(), self.28.duplicate(), self.29.duplicate(), self.30.duplicate(), self.31.duplicate())
    }
}

impl<T0: ProjectionShape, T1: ProjectionShape, T2: ProjectionShape, T3: ProjectionShape, T4: ProjectionShape, T5: ProjectionShape, T6: ProjectionShape, T7: ProjectionShape, T8: ProjectionShape, T9: ProjectionShape, T10: ProjectionShape, T11: ProjectionShape, T12: ProjectionShape, T13: ProjectionShape, T14: ProjectionShape, T15: ProjectionShape, T16: ProjectionShape, T17: ProjectionShape, T18: ProjectionShape, T19: ProjectionShape, T20: ProjectionShape, T21: ProjectionShape, T22: ProjectionShape, T23: ProjectionShape, T24: ProjectionShape, T25: ProjectionShape, T26: ProjectionShape, T27: ProjectionShape, T28: ProjectionShape, T29: ProjectionShape, T30: ProjectionShape, T31: ProjectionShape> ProjectionShape for (T0, T1, T2, T3, T4, T5, T6, T7, T8, T9, T10, T11, T12, T13, T14, T15, T16, T17, T18, T19, T20, T21, T22, T23, T24, T25, T26, T27, T28, T29, T30, T31) {
    type Exprs<'scope> = (T0::Exprs<'scope>, T1::Exprs<'scope>, T2::Exprs<'scope>, T3::Exprs<'scope>, T4::Exprs<'scope>, T5::Exprs<'scope>, T6::Exprs<'scope>, T7::Exprs<'scope>, T8::Exprs<'scope>, T9::Exprs<'scope>, T10::Exprs<'scope>, T11::Exprs<'scope>, T12::Exprs<'scope>, T13::Exprs<'scope>, T14::Exprs<'scope>, T15::Exprs<'scope>, T16::Exprs<'scope>, T17::Exprs<'scope>, T18::Exprs<'scope>, T19::Exprs<'scope>, T20::Exprs<'scope>, T21::Exprs<'scope>, T22::Exprs<'scope>, T23::Exprs<'scope>, T24::Exprs<'scope>, T25::Exprs<'scope>, T26::Exprs<'scope>, T27::Exprs<'scope>, T28::Exprs<'scope>, T29::Exprs<'scope>, T30::Exprs<'scope>, T31::Exprs<'scope>);

    type ReboundExprs<'scope> = (T0::ReboundExprs<'scope>, T1::ReboundExprs<'scope>, T2::ReboundExprs<'scope>, T3::ReboundExprs<'scope>, T4::ReboundExprs<'scope>, T5::ReboundExprs<'scope>, T6::ReboundExprs<'scope>, T7::ReboundExprs<'scope>, T8::ReboundExprs<'scope>, T9::ReboundExprs<'scope>, T10::ReboundExprs<'scope>, T11::ReboundExprs<'scope>, T12::ReboundExprs<'scope>, T13::ReboundExprs<'scope>, T14::ReboundExprs<'scope>, T15::ReboundExprs<'scope>, T16::ReboundExprs<'scope>, T17::ReboundExprs<'scope>, T18::ReboundExprs<'scope>, T19::ReboundExprs<'scope>, T20::ReboundExprs<'scope>, T21::ReboundExprs<'scope>, T22::ReboundExprs<'scope>, T23::ReboundExprs<'scope>, T24::ReboundExprs<'scope>, T25::ReboundExprs<'scope>, T26::ReboundExprs<'scope>, T27::ReboundExprs<'scope>, T28::ReboundExprs<'scope>, T29::ReboundExprs<'scope>, T30::ReboundExprs<'scope>, T31::ReboundExprs<'scope>);

    type Row = (T0::Row, T1::Row, T2::Row, T3::Row, T4::Row, T5::Row, T6::Row, T7::Row, T8::Row, T9::Row, T10::Row, T11::Row, T12::Row, T13::Row, T14::Row, T15::Row, T16::Row, T17::Row, T18::Row, T19::Row, T20::Row, T21::Row, T22::Row, T23::Row, T24::Row, T25::Row, T26::Row, T27::Row, T28::Row, T29::Row, T30::Row, T31::Row);

    open spec fn shape_exprs<'scope>(alias: SourceAlias) -> Self::Exprs<'scope> {
        (T0::shape_exprs(alias), T1::shape_exprs(alias), T2::shape_exprs(alias), T3::shape_exprs(alias), T4::shape_exprs(alias), T5::shape_exprs(alias), T6::shape_exprs(alias), T7::shape_exprs(alias), T8::shape_exprs(alias), T9::shape_exprs(alias), T10::shape_exprs(alias), T11::shape_exprs(alias), T12::shape_exprs(alias), T13::shape_exprs(alias), T14::shape_exprs(alias), T15::shape_exprs(alias), T16::shape_exprs(alias), T17::shape_exprs(alias), T18::shape_exprs(alias), T19::shape_exprs(alias), T20::shape_exprs(alias), T21::shape_exprs(alias), T22::shape_exprs(alias), T23::shape_exprs(alias), T24::shape_exprs(alias), T25::shape_exprs(alias), T26::shape_exprs(alias), T27::shape_exprs(alias), T28::shape_exprs(alias), T29::shape_exprs(alias), T30::shape_exprs(alias), T31::shape_exprs(alias))
    }

    open spec fn shape_rebound<'scope>(alias: SourceAlias) -> Self::ReboundExprs<'scope> {
        (T0::shape_rebound(alias), T1::shape_rebound(alias), T2::shape_rebound(alias), T3::shape_rebound(alias), T4::shape_rebound(alias), T5::shape_rebound(alias), T6::shape_rebound(alias), T7::shape_rebound(alias), T8::shape_rebound(alias), T9::shape_rebound(alias), T10::shape_rebound(alias), T11::shape_rebound(alias), T12::shape_rebound(alias), T13::shape_rebound(alias), T14::shape_rebound(alias), T15::shape_rebound(alias), T16::shape_rebound(alias), T17::shape_rebound(alias), T18::shape_rebound(alias), T19::shape_rebound(alias), T20::shape_rebound(alias), T21::shape_rebound(alias), T22::shape_rebound(alias), T23::shape_rebound(alias), T24::shape_rebound(alias), T25::shape_rebound(alias), T26::shape_rebound(alias), T27::shape_rebound(alias), T28::shape_rebound(alias), T29::shape_rebound(alias), T30::shape_rebound(alias), T31::shape_rebound(alias))
    }

    fn exprs<'scope>(alias: SourceAlias) -> (exprs: Self::Exprs<'scope>) {
        (T0::exprs(alias), T1::exprs(alias), T2::exprs(alias), T3::exprs(alias), T4::exprs(alias), T5::exprs(alias), T6::exprs(alias), T7::exprs(alias), T8::exprs(alias), T9::exprs(alias), T10::exprs(alias), T11::exprs(alias), T12::exprs(alias), T13::exprs(alias), T14::exprs(alias), T15::exprs(alias), T16::exprs(alias), T17::exprs(alias), T18::exprs(alias), T19::exprs(alias), T20::exprs(alias), T21::exprs(alias), T22::exprs(alias), T23::exprs(alias), T24::exprs(alias), T25::exprs(alias), T26::exprs(alias), T27::exprs(alias), T28::exprs(alias), T29::exprs(alias), T30::exprs(alias), T31::exprs(alias))
    }

    fn rebound_exprs<'scope>(alias: SourceAlias) -> (exprs: Self::ReboundExprs<'scope>) {
        (T0::rebound_exprs(alias), T1::rebound_exprs(alias), T2::rebound_exprs(alias), T3::rebound_exprs(alias), T4::rebound_exprs(alias), T5::rebound_exprs(alias), T6::rebound_exprs(alias), T7::rebound_exprs(alias), T8::rebound_exprs(alias), T9::rebound_exprs(alias), T10::rebound_exprs(alias), T11::rebound_exprs(alias), T12::rebound_exprs(alias), T13::rebound_exprs(alias), T14::rebound_exprs(alias), T15::rebound_exprs(alias), T16::rebound_exprs(alias), T17::rebound_exprs(alias), T18::rebound_exprs(alias), T19::rebound_exprs(alias), T20::rebound_exprs(alias), T21::rebound_exprs(alias), T22::rebound_exprs(alias), T23::rebound_exprs(alias), T24::rebound_exprs(alias), T25::rebound_exprs(alias), T26::rebound_exprs(alias), T27::rebound_exprs(alias), T28::rebound_exprs(alias), T29::rebound_exprs(alias), T30::rebound_exprs(alias), T31::rebound_exprs(alias))
    }
}

impl<T0, T1, T2, T3, T4, T5, T6, T7, T8, T9, T10, T11, T12, T13, T14, T15, T16, T17, T18, T19, T20, T21, T22, T23, T24, T25, T26, T27, T28, T29, T30, T31> ProjectionParams for (T0, T1, T2, T3, T4, T5, T6, T7, T8, T9, T10, T11, T12, T13, T14, T15, T16, T17, T18, T19, T20, T21, T22, T23, T24, T25, T26, T27, T28, T29, T30, T31) where
    (T0, T1, T2, T3, T4, T5, T6, T7, T8, T9, T10, T11, T12, T13, T14, T15): ProjectionParams,
    (T16, T17, T18, T19, T20, T21, T22, T23, T24, T25, T26, T27, T28, T29, T30, T31): ProjectionParams,
    <(T0, T1, T2, T3, T4, T5, T6, T7, T8, T9, T10, T11, T12, T13, T14, T15) as ProjectionParams>::Params: HAppend<<(T16, T17, T18, T19, T20, T21, T22, T23, T24, T25, T26, T27, T28, T29, T30, T31) as ProjectionParams>::Params>,
 {
    type Params = <<(T0, T1, T2, T3, T4, T5, T6, T7, T8, T9, T10, T11, T12, T13, T14, T15) as ProjectionParams>::Params as HAppend<<(T16, T17, T18, T19, T20, T21, T22, T23, T24, T25, T26, T27, T28, T29, T30, T31) as ProjectionParams>::Params>>::Output;
}

impl<T0: ProjectionClass, T1: ProjectionClass<Class = T0::Class>, T2: ProjectionClass<Class = T0::Class>, T3: ProjectionClass<Class = T0::Class>, T4: ProjectionClass<Class = T0::Class>, T5: ProjectionClass<Class = T0::Class>, T6: ProjectionClass<Class = T0::Class>, T7: ProjectionClass<Class = T0::Class>, T8: ProjectionClass<Class = T0::Class>, T9: ProjectionClass<Class = T0::Class>, T10: ProjectionClass<Class = T0::Class>, T11: ProjectionClass<Class = T0::Class>, T12: ProjectionClass<Class = T0::Class>, T13: ProjectionClass<Class = T0::Class>, T14: ProjectionClass<Class = T0::Class>, T15: ProjectionClass<Class = T0::Class>, T16: ProjectionClass<Class = T0::Class>, T17: ProjectionClass<Class = T0::Class>, T18: ProjectionClass<Class = T0::Class>, T19: ProjectionClass<Class = T0::Class>, T20: ProjectionClass<Class = T0::Class>, T21: ProjectionClass<Class = T0::Class>, T22: ProjectionClass<Class = T0::Class>, T23: ProjectionClass<Class = T0::Class>, T24: ProjectionClass<Class = T0::Class>, T25: ProjectionClass<Class = T0::Class>, T26: ProjectionClass<Class = T0::Class>, T27: ProjectionClass<Class = T0::Class>, T28: ProjectionClass<Class = T0::Class>, T29: ProjectionClass<Class = T0::Class>, T30: ProjectionClass<Class = T0::Class>, T31: ProjectionClass<Class = T0::Class>> ProjectionClass for (T0, T1, T2, T3, T4, T5, T6, T7, T8, T9, T10, T11, T12, T13, T14, T15, T16, T17, T18, T19, T20, T21, T22, T23, T24, T25, T26, T27, T28, T29, T30, T31) {
    type Class = T0::Class;
}

impl<T0: ReturnableProjection, T1: ReturnableProjection, T2: ReturnableProjection, T3: ReturnableProjection, T4: ReturnableProjection, T5: ReturnableProjection, T6: ReturnableProjection, T7: ReturnableProjection, T8: ReturnableProjection, T9: ReturnableProjection, T10: ReturnableProjection, T11: ReturnableProjection, T12: ReturnableProjection, T13: ReturnableProjection, T14: ReturnableProjection, T15: ReturnableProjection, T16: ReturnableProjection, T17: ReturnableProjection, T18: ReturnableProjection, T19: ReturnableProjection, T20: ReturnableProjection, T21: ReturnableProjection, T22: ReturnableProjection, T23: ReturnableProjection, T24: ReturnableProjection, T25: ReturnableProjection, T26: ReturnableProjection, T27: ReturnableProjection, T28: ReturnableProjection, T29: ReturnableProjection, T30: ReturnableProjection, T31: ReturnableProjection> ReturnableProjection for (T0, T1, T2, T3, T4, T5, T6, T7, T8, T9, T10, T11, T12, T13, T14, T15, T16, T17, T18, T19, T20, T21, T22, T23, T24, T25, T26, T27, T28, T29, T30, T31) {

}

impl<T0: Projectable, T1: Projectable, T2: Projectable, T3: Projectable, T4: Projectable, T5: Projectable, T6: Projectable, T7: Projectable, T8: Projectable, T9: Projectable, T10: Projectable, T11: Projectable, T12: Projectable, T13: Projectable, T14: Projectable, T15: Projectable, T16: Projectable, T17: Projectable, T18: Projectable, T19: Projectable, T20: Projectable, T21: Projectable, T22: Projectable, T23: Projectable, T24: Projectable, T25: Projectable, T26: Projectable, T27: Projectable, T28: Projectable, T29: Projectable, T30: Projectable, T31: Projectable, B: Backend> RenderProjectable<B> for (T0, T1, T2, T3, T4, T5, T6, T7, T8, T9, T10, T11, T12, T13, T14, T15, T16, T17, T18, T19, T20, T21, T22, T23, T24, T25, T26, T27, T28, T29, T30, T31) where
    (T0, T1, T2, T3, T4, T5, T6, T7, T8, T9, T10, T11, T12, T13, T14, T15): RenderProjectable<B>,
    (T16, T17, T18, T19, T20, T21, T22, T23, T24, T25, T26, T27, T28, T29, T30, T31): RenderProjectable<B>,
    <(T0, T1, T2, T3, T4, T5, T6, T7, T8, T9, T10, T11, T12, T13, T14, T15) as ProjectionParams>::Params: HAppend<<(T16, T17, T18, T19, T20, T21, T22, T23, T24, T25, T26, T27, T28, T29, T30, T31) as ProjectionParams>::Params>,
 {
    open spec fn items(&self) -> List<ProjectionTree<Bound<B>>> {
        (self.0, self.1, self.2, self.3, self.4, self.5, self.6, self.7, self.8, self.9, self.10, self.11, self.12, self.13, self.14, self.15).items().then_list((self.16, self.17, self.18, self.19, self.20, self.21, self.22, self.23, self.24, self.25, self.26, self.27, self.28, self.29, self.30, self.31).items())
    }

    fn lower_projection(&self) -> (items: List<ProjectionTree<Bound<B>>>) {
        let front = (self.0.duplicate(), self.1.duplicate(), self.2.duplicate(), self.3.duplicate(), self.4.duplicate(), self.5.duplicate(), self.6.duplicate(), self.7.duplicate(), self.8.duplicate(), self.9.duplicate(), self.10.duplicate(), self.11.duplicate(), self.12.duplicate(), self.13.duplicate(), self.14.duplicate(), self.15.duplicate());
        let back = (self.16.duplicate(), self.17.duplicate(), self.18.duplicate(), self.19.duplicate(), self.20.duplicate(), self.21.duplicate(), self.22.duplicate(), self.23.duplicate(), self.24.duplicate(), self.25.duplicate(), self.26.duplicate(), self.27.duplicate(), self.28.duplicate(), self.29.duplicate(), self.30.duplicate(), self.31.duplicate());
        front.lower_projection().append(back.lower_projection())
    }

    fn lower_projection_with_prefix(&self, prefix: &str) -> (items: List<
        ProjectionTree<Bound<B>>,
    >) {
        let front = (self.0.duplicate(), self.1.duplicate(), self.2.duplicate(), self.3.duplicate(), self.4.duplicate(), self.5.duplicate(), self.6.duplicate(), self.7.duplicate(), self.8.duplicate(), self.9.duplicate(), self.10.duplicate(), self.11.duplicate(), self.12.duplicate(), self.13.duplicate(), self.14.duplicate(), self.15.duplicate());
        let back = (self.16.duplicate(), self.17.duplicate(), self.18.duplicate(), self.19.duplicate(), self.20.duplicate(), self.21.duplicate(), self.22.duplicate(), self.23.duplicate(), self.24.duplicate(), self.25.duplicate(), self.26.duplicate(), self.27.duplicate(), self.28.duplicate(), self.29.duplicate(), self.30.duplicate(), self.31.duplicate());
        let first = front.lower_projection_with_prefix(prefix);
        let rest = back.lower_projection_with_prefix(prefix);
        proof {
            crate::projection::lemma_prefixed_parts(front.items(), back.items(), prefix@, first, rest);
        }
        first.append(rest)
    }

    proof fn lemma_projection_params<D: Dialect>(&self, dialect: D, bare: bool, lead: Seq<char>) {
        let front = (self.0, self.1, self.2, self.3, self.4, self.5, self.6, self.7, self.8, self.9, self.10, self.11, self.12, self.13, self.14, self.15);
        let back = (self.16, self.17, self.18, self.19, self.20, self.21, self.22, self.23, self.24, self.25, self.26, self.27, self.28, self.29, self.30, self.31);
        let between = if front.items() is Nil { lead } else { ", "@ };
        front.lemma_projection_params(dialect, bare, lead);
        back.lemma_projection_params(dialect, bare, between);
        crate::projection::lemma_projection_parts(dialect, bare, lead, front.items(), back.items());
        <<(T0, T1, T2, T3, T4, T5, T6, T7, T8, T9, T10, T11, T12, T13, T14, T15) as ProjectionParams>::Params as HAppend<<(T16, T17, T18, T19, T20, T21, T22, T23, T24, T25, T26, T27, T28, T29, T30, T31) as ProjectionParams>::Params>>::lemma_append_width();
    }

    proof fn lemma_projection_plain(&self) {
        let front = (self.0, self.1, self.2, self.3, self.4, self.5, self.6, self.7, self.8, self.9, self.10, self.11, self.12, self.13, self.14, self.15);
        let back = (self.16, self.17, self.18, self.19, self.20, self.21, self.22, self.23, self.24, self.25, self.26, self.27, self.28, self.29, self.30, self.31);
        <<(T0, T1, T2, T3, T4, T5, T6, T7, T8, T9, T10, T11, T12, T13, T14, T15) as ProjectionParams>::Params as HAppend<<(T16, T17, T18, T19, T20, T21, T22, T23, T24, T25, T26, T27, T28, T29, T30, T31) as ProjectionParams>::Params>>::lemma_append_width();
        front.lemma_projection_plain();
        back.lemma_projection_plain();
        crate::projection::lemma_plain_parts(front.items(), back.items());
    }
}

impl<'scope, T0: ReturningProjection<'scope>, T1: ReturningProjection<'scope>, T2: ReturningProjection<'scope>, T3: ReturningProjection<'scope>, T4: ReturningProjection<'scope>, T5: ReturningProjection<'scope>, T6: ReturningProjection<'scope>, T7: ReturningProjection<'scope>, T8: ReturningProjection<'scope>, T9: ReturningProjection<'scope>, T10: ReturningProjection<'scope>, T11: ReturningProjection<'scope>, T12: ReturningProjection<'scope>, T13: ReturningProjection<'scope>, T14: ReturningProjection<'scope>, T15: ReturningProjection<'scope>, T16: ReturningProjection<'scope>, T17: ReturningProjection<'scope>, T18: ReturningProjection<'scope>, T19: ReturningProjection<'scope>, T20: ReturningProjection<'scope>, T21: ReturningProjection<'scope>, T22: ReturningProjection<'scope>, T23: ReturningProjection<'scope>, T24: ReturningProjection<'scope>, T25: ReturningProjection<'scope>, T26: ReturningProjection<'scope>, T27: ReturningProjection<'scope>, T28: ReturningProjection<'scope>, T29: ReturningProjection<'scope>, T30: ReturningProjection<'scope>, T31: ReturningProjection<'scope>> ReturningProjection<'scope> for (T0, T1, T2, T3, T4, T5, T6, T7, T8, T9, T10, T11, T12, T13, T14, T15, T16, T17, T18, T19, T20, T21, T22, T23, T24, T25, T26, T27, T28, T29, T30, T31) {
    type Shape = (T0::Shape, T1::Shape, T2::Shape, T3::Shape, T4::Shape, T5::Shape, T6::Shape, T7::Shape, T8::Shape, T9::Shape, T10::Shape, T11::Shape, T12::Shape, T13::Shape, T14::Shape, T15::Shape, T16::Shape, T17::Shape, T18::Shape, T19::Shape, T20::Shape, T21::Shape, T22::Shape, T23::Shape, T24::Shape, T25::Shape, T26::Shape, T27::Shape, T28::Shape, T29::Shape, T30::Shape, T31::Shape);
}

} // verus!
