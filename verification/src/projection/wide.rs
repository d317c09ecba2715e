//! Projections of nine to sixteen elements.
use crate::backend::{Backend, Bound};
use crate::chain::List;
use crate::dialect::Dialect;
use crate::expr::class::{ProjectionClass, ReturnableProjection};
use crate::expr::kind::ProjectionParams;
use crate::label::Duplicate;
use crate::list::HAppend;
use crate::ops::SourceAlias;
use crate::projection::{Projectable, ProjectionShape, RenderProjectable};
use crate::query::chain::ReturningProjection;
use crate::tree::ProjectionTree;
use vstd::prelude::*;

verus! {

broadcast use crate::tokens::group_tokens;

impl<T0: Projectable, T1: Projectable, T2: Projectable, T3: Projectable, T4: Projectable, T5: Projectable, T6: Projectable, T7: Projectable, T8: Projectable> Projectable for (T0, T1, T2, T3, T4, T5, T6, T7, T8) {
    type Rebound<'scope> = (T0::Rebound<'scope>, T1::Rebound<'scope>, T2::Rebound<'scope>, T3::Rebound<'scope>, T4::Rebound<'scope>, T5::Rebound<'scope>, T6::Rebound<'scope>, T7::Rebound<'scope>, T8::Rebound<'scope>);

    open spec fn rebound<'scope>(&self, alias: SourceAlias) -> Self::Rebound<'scope> {
        (self.0.rebound(alias), self.1.rebound(alias), self.2.rebound(alias), self.3.rebound(alias), self.4.rebound(alias), self.5.rebound(alias), self.6.rebound(alias), self.7.rebound(alias), self.8.rebound(alias))
    }

    open spec fn rebinds_with_prefix<'scope>(
        &self,
        alias: SourceAlias,
        prefix: Seq<char>,
        rebound: Self::Rebound<'scope>,
    ) -> bool {
        &&& self.0.rebinds_with_prefix(alias, prefix, rebound.0)
        &&& self.1.rebinds_with_prefix(alias, prefix, rebound.1)
        &&& self.2.rebinds_with_prefix(alias, prefix, rebound.2)
        &&& self.3.rebinds_with_prefix(alias, prefix, rebound.3)
        &&& self.4.rebinds_with_prefix(alias, prefix, rebound.4)
        &&& self.5.rebinds_with_prefix(alias, prefix, rebound.5)
        &&& self.6.rebinds_with_prefix(alias, prefix, rebound.6)
        &&& self.7.rebinds_with_prefix(alias, prefix, rebound.7)
        &&& self.8.rebinds_with_prefix(alias, prefix, rebound.8)
    }

    fn re_alias<'scope>(&self, alias: SourceAlias) -> (rebound: Self::Rebound<'scope>) {
        (self.0.re_alias(alias), self.1.re_alias(alias), self.2.re_alias(alias), self.3.re_alias(alias), self.4.re_alias(alias), self.5.re_alias(alias), self.6.re_alias(alias), self.7.re_alias(alias), self.8.re_alias(alias))
    }

    fn re_alias_with_prefix<'scope>(&self, alias: SourceAlias, prefix: &str) -> (rebound:
        Self::Rebound<'scope>) {
        (self.0.re_alias_with_prefix(alias, prefix), self.1.re_alias_with_prefix(alias, prefix), self.2.re_alias_with_prefix(alias, prefix), self.3.re_alias_with_prefix(alias, prefix), self.4.re_alias_with_prefix(alias, prefix), self.5.re_alias_with_prefix(alias, prefix), self.6.re_alias_with_prefix(alias, prefix), self.7.re_alias_with_prefix(alias, prefix), self.8.re_alias_with_prefix(alias, prefix))
    }
}

impl<T0: Duplicate, T1: Duplicate, T2: Duplicate, T3: Duplicate, T4: Duplicate, T5: Duplicate, T6: Duplicate, T7: Duplicate, T8: Duplicate> Duplicate for (T0, T1, T2, T3, T4, T5, T6, T7, T8) {
    fn duplicate(&self) -> (copy: Self) {
        (self.0.duplicate(), self.1.duplicate(), self.2.duplicate(), self.3.duplicate(), self.4.duplicate(), self.5.duplicate(), self.6.duplicate(), self.7.duplicate(), self.8.duplicate())
    }
}

impl<T0: ProjectionShape, T1: ProjectionShape, T2: ProjectionShape, T3: ProjectionShape, T4: ProjectionShape, T5: ProjectionShape, T6: ProjectionShape, T7: ProjectionShape, T8: ProjectionShape> ProjectionShape for (T0, T1, T2, T3, T4, T5, T6, T7, T8) {
    type Exprs<'scope> = (T0::Exprs<'scope>, T1::Exprs<'scope>, T2::Exprs<'scope>, T3::Exprs<'scope>, T4::Exprs<'scope>, T5::Exprs<'scope>, T6::Exprs<'scope>, T7::Exprs<'scope>, T8::Exprs<'scope>);

    type ReboundExprs<'scope> = (T0::ReboundExprs<'scope>, T1::ReboundExprs<'scope>, T2::ReboundExprs<'scope>, T3::ReboundExprs<'scope>, T4::ReboundExprs<'scope>, T5::ReboundExprs<'scope>, T6::ReboundExprs<'scope>, T7::ReboundExprs<'scope>, T8::ReboundExprs<'scope>);

    type Row = (T0::Row, T1::Row, T2::Row, T3::Row, T4::Row, T5::Row, T6::Row, T7::Row, T8::Row);

    open spec fn shape_exprs<'scope>(alias: SourceAlias) -> Self::Exprs<'scope> {
        (T0::shape_exprs(alias), T1::shape_exprs(alias), T2::shape_exprs(alias), T3::shape_exprs(alias), T4::shape_exprs(alias), T5::shape_exprs(alias), T6::shape_exprs(alias), T7::shape_exprs(alias), T8::shape_exprs(alias))
    }

    open spec fn shape_rebound<'scope>(alias: SourceAlias) -> Self::ReboundExprs<'scope> {
        (T0::shape_rebound(alias), T1::shape_rebound(alias), T2::shape_rebound(alias), T3::shape_rebound(alias), T4::shape_rebound(alias), T5::shape_rebound(alias), T6::shape_rebound(alias), T7::shape_rebound(alias), T8::shape_rebound(alias))
    }

    fn exprs<'scope>(alias: SourceAlias) -> (exprs: Self::Exprs<'scope>) {
        (T0::exprs(alias), T1::exprs(alias), T2::exprs(alias), T3::exprs(alias), T4::exprs(alias), T5::exprs(alias), T6::exprs(alias), T7::exprs(alias), T8::exprs(alias))
    }

    fn rebound_exprs<'scope>(alias: SourceAlias) -> (exprs: Self::ReboundExprs<'scope>) {
        (T0::rebound_exprs(alias), T1::rebound_exprs(alias), T2::rebound_exprs(alias), T3::rebound_exprs(alias), T4::rebound_exprs(alias), T5::rebound_exprs(alias), T6::rebound_exprs(alias), T7::rebound_exprs(alias), T8::rebound_exprs(alias))
    }
}

impl<T0: ProjectionParams, T1: ProjectionParams, T2: ProjectionParams, T3: ProjectionParams, T4: ProjectionParams, T5: ProjectionParams, T6: ProjectionParams, T7: ProjectionParams, T8: ProjectionParams> ProjectionParams for (T0, T1, T2, T3, T4, T5, T6, T7, T8) where
    T7::Params: HAppend<T8::Params>,
    T6::Params: HAppend<<T7::Params as HAppend<T8::Params>>::Output>,
    T5::Params: HAppend<<T6::Params as HAppend<<T7::Params as HAppend<T8::Params>>::Output>>::Output>,
    T4::Params: HAppend<<T5::Params as HAppend<<T6::Params as HAppend<<T7::Params as HAppend<T8::Params>>::Output>>::Output>>::Output>,
    T3::Params: HAppend<<T4::Params as HAppend<<T5::Params as HAppend<<T6::Params as HAppend<<T7::Params as HAppend<T8::Params>>::Output>>::Output>>::Output>>::Output>,
    T2::Params: HAppend<<T3::Params as HAppend<<T4::Params as HAppend<<T5::Params as HAppend<<T6::Params as HAppend<<T7::Params as HAppend<T8::Params>>::Output>>::Output>>::Output>>::Output>>::Output>,
    T1::Params: HAppend<<T2::Params as HAppend<<T3::Params as HAppend<<T4::Params as HAppend<<T5::Params as HAppend<<T6::Params as HAppend<<T7::Params as HAppend<T8::Params>>::Output>>::Output>>::Output>>::Output>>::Output>>::Output>,
    T0::Params: HAppend<<T1::Params as HAppend<<T2::Params as HAppend<<T3::Params as HAppend<<T4::Params as HAppend<<T5::Params as HAppend<<T6::Params as HAppend<<T7::Params as HAppend<T8::Params>>::Output>>::Output>>::Output>>::Output>>::Output>>::Output>>::Output>,
 {
    type Params = <T0::Params as HAppend<<T1::Params as HAppend<<T2::Params as HAppend<<T3::Params as HAppend<<T4::Params as HAppend<<T5::Params as HAppend<<T6::Params as HAppend<<T7::Params as HAppend<T8::Params>>::Output>>::Output>>::Output>>::Output>>::Output>>::Output>>::Output>>::Output;
}

impl<T0: ProjectionClass, T1: ProjectionClass<Class = T0::Class>, T2: ProjectionClass<Class = T0::Class>, T3: ProjectionClass<Class = T0::Class>, T4: ProjectionClass<Class = T0::Class>, T5: ProjectionClass<Class = T0::Class>, T6: ProjectionClass<Class = T0::Class>, T7: ProjectionClass<Class = T0::Class>, T8: ProjectionClass<Class = T0::Class>> ProjectionClass for (T0, T1, T2, T3, T4, T5, T6, T7, T8) {
    type Class = T0::Class;
}

impl<T0: ReturnableProjection, T1: ReturnableProjection, T2: ReturnableProjection, T3: ReturnableProjection, T4: ReturnableProjection, T5: ReturnableProjection, T6: ReturnableProjection, T7: ReturnableProjection, T8: ReturnableProjection> ReturnableProjection for (T0, T1, T2, T3, T4, T5, T6, T7, T8) {

}

impl<T0: RenderProjectable<B>, T1: RenderProjectable<B>, T2: RenderProjectable<B>, T3: RenderProjectable<B>, T4: RenderProjectable<B>, T5: RenderProjectable<B>, T6: RenderProjectable<B>, T7: RenderProjectable<B>, T8: RenderProjectable<B>, B: Backend> RenderProjectable<B> for (T0, T1, T2, T3, T4, T5, T6, T7, T8) where
    T7::Params: HAppend<T8::Params>,
    T6::Params: HAppend<<T7::Params as HAppend<T8::Params>>::Output>,
    T5::Params: HAppend<<T6::Params as HAppend<<T7::Params as HAppend<T8::Params>>::Output>>::Output>,
    T4::Params: HAppend<<T5::Params as HAppend<<T6::Params as HAppend<<T7::Params as HAppend<T8::Params>>::Output>>::Output>>::Output>,
    T3::Params: HAppend<<T4::Params as HAppend<<T5::Params as HAppend<<T6::Params as HAppend<<T7::Params as HAppend<T8::Params>>::Output>>::Output>>::Output>>::Output>,
    T2::Params: HAppend<<T3::Params as HAppend<<T4::Params as HAppend<<T5::Params as HAppend<<T6::Params as HAppend<<T7::Params as HAppend<T8::Params>>::Output>>::Output>>::Output>>::Output>>::Output>,
    T1::Params: HAppend<<T2::Params as HAppend<<T3::Params as HAppend<<T4::Params as HAppend<<T5::Params as HAppend<<T6::Params as HAppend<<T7::Params as HAppend<T8::Params>>::Output>>::Output>>::Output>>::Output>>::Output>>::Output>,
    T0::Params: HAppend<<T1::Params as HAppend<<T2::Params as HAppend<<T3::Params as HAppend<<T4::Params as HAppend<<T5::Params as HAppend<<T6::Params as HAppend<<T7::Params as HAppend<T8::Params>>::Output>>::Output>>::Output>>::Output>>::Output>>::Output>>::Output>,
 {
    open spec fn items(&self) -> List<ProjectionTree<Bound<B>>> {
        self.0.items().then_list(self.1.items().then_list(self.2.items().then_list(self.3.items().then_list(self.4.items().then_list(self.5.items().then_list(self.6.items().then_list(self.7.items().then_list(self.8.items()))))))))
    }

    fn lower_projection(&self) -> (items: List<ProjectionTree<Bound<B>>>) {
        self.0.lower_projection().append(self.1.lower_projection().append(self.2.lower_projection().append(self.3.lower_projection().append(self.4.lower_projection().append(self.5.lower_projection().append(self.6.lower_projection().append(self.7.lower_projection().append(self.8.lower_projection()))))))))
    }

    fn lower_projection_with_prefix(&self, prefix: &str) -> (items: List<
        ProjectionTree<Bound<B>>,
    >) {
        let items0 = self.0.lower_projection_with_prefix(prefix);
        let items1 = self.1.lower_projection_with_prefix(prefix);
        let items2 = self.2.lower_projection_with_prefix(prefix);
        let items3 = self.3.lower_projection_with_prefix(prefix);
        let items4 = self.4.lower_projection_with_prefix(prefix);
        let items5 = self.5.lower_projection_with_prefix(prefix);
        let items6 = self.6.lower_projection_with_prefix(prefix);
        let items7 = self.7.lower_projection_with_prefix(prefix);
        let items8 = self.8.lower_projection_with_prefix(prefix);
        proof {
            crate::projection::lemma_prefixed_parts(self.7.items(), self.8.items(), prefix@, items7, items8);
            crate::projection::lemma_prefixed_parts(self.6.items(), self.7.items().then_list(self.8.items()), prefix@, items6, items7.then_list(items8));
            crate::projection::lemma_prefixed_parts(self.5.items(), self.6.items().then_list(self.7.items().then_list(self.8.items())), prefix@, items5, items6.then_list(items7.then_list(items8)));
            crate::projection::lemma_prefixed_parts(self.4.items(), self.5.items().then_list(self.6.items().then_list(self.7.items().then_list(self.8.items()))), prefix@, items4, items5.then_list(items6.then_list(items7.then_list(items8))));
            crate::projection::lemma_prefixed_parts(self.3.items(), self.4.items().then_list(self.5.items().then_list(self.6.items().then_list(self.7.items().then_list(self.8.items())))), prefix@, items3, items4.then_list(items5.then_list(items6.then_list(items7.then_list(items8)))));
            crate::projection::lemma_prefixed_parts(self.2.items(), self.3.items().then_list(self.4.items().then_list(self.5.items().then_list(self.6.items().then_list(self.7.items().then_list(self.8.items()))))), prefix@, items2, items3.then_list(items4.then_list(items5.then_list(items6.then_list(items7.then_list(items8))))));
            crate::projection::lemma_prefixed_parts(self.1.items(), self.2.items().then_list(self.3.items().then_list(self.4.items().then_list(self.5.items().then_list(self.6.items().then_list(self.7.items().then_list(self.8.items())))))), prefix@, items1, items2.then_list(items3.then_list(items4.then_list(items5.then_list(items6.then_list(items7.then_list(items8)))))));
            crate::projection::lemma_prefixed_parts(self.0.items(), self.1.items().then_list(self.2.items().then_list(self.3.items().then_list(self.4.items().then_list(self.5.items().then_list(self.6.items().then_list(self.7.items().then_list(self.8.items()))))))), prefix@, items0, items1.then_list(items2.then_list(items3.then_list(items4.then_list(items5.then_list(items6.then_list(items7.then_list(items8))))))));
        }
        items0.append(items1.append(items2.append(items3.append(items4.append(items5.append(items6.append(items7.append(items8))))))))
    }

    proof fn lemma_projection_params<D: Dialect>(&self, dialect: D, bare: bool, lead: Seq<char>) {
        let lead1 = if self.0.items() is Nil { lead } else { ", "@ };
        self.0.lemma_projection_params(dialect, bare, lead);
        crate::projection::lemma_projection_parts(dialect, bare, lead, self.0.items(), self.1.items().then_list(self.2.items().then_list(self.3.items().then_list(self.4.items().then_list(self.5.items().then_list(self.6.items().then_list(self.7.items().then_list(self.8.items()))))))));
        let lead2 = if self.1.items() is Nil { lead1 } else { ", "@ };
        self.1.lemma_projection_params(dialect, bare, lead1);
        crate::projection::lemma_projection_parts(dialect, bare, lead1, self.1.items(), self.2.items().then_list(self.3.items().then_list(self.4.items().then_list(self.5.items().then_list(self.6.items().then_list(self.7.items().then_list(self.8.items())))))));
        let lead3 = if self.2.items() is Nil { lead2 } else { ", "@ };
        self.2.lemma_projection_params(dialect, bare, lead2);
        crate::projection::lemma_projection_parts(dialect, bare, lead2, self.2.items(), self.3.items().then_list(self.4.items().then_list(self.5.items().then_list(self.6.items().then_list(self.7.items().then_list(self.8.items()))))));
        let lead4 = if self.3.items() is Nil { lead3 } else { ", "@ };
        self.3.lemma_projection_params(dialect, bare, lead3);
        crate::projection::lemma_projection_parts(dialect, bare, lead3, self.3.items(), self.4.items().then_list(self.5.items().then_list(self.6.items().then_list(self.7.items().then_list(self.8.items())))));
        let lead5 = if self.4.items() is Nil { lead4 } else { ", "@ };
        self.4.lemma_projection_params(dialect, bare, lead4);
        crate::projection::lemma_projection_parts(dialect, bare, lead4, self.4.items(), self.5.items().then_list(self.6.items().then_list(self.7.items().then_list(self.8.items()))));
        let lead6 = if self.5.items() is Nil { lead5 } else { ", "@ };
        self.5.lemma_projection_params(dialect, bare, lead5);
        crate::projection::lemma_projection_parts(dialect, bare, lead5, self.5.items(), self.6.items().then_list(self.7.items().then_list(self.8.items())));
        let lead7 = if self.6.items() is Nil { lead6 } else { ", "@ };
        self.6.lemma_projection_params(dialect, bare, lead6);
        crate::projection::lemma_projection_parts(dialect, bare, lead6, self.6.items(), self.7.items().then_list(self.8.items()));
        let lead8 = if self.7.items() is Nil { lead7 } else { ", "@ };
        self.7.lemma_projection_params(dialect, bare, lead7);
        crate::projection::lemma_projection_parts(dialect, bare, lead7, self.7.items(), self.8.items());
        self.8.lemma_projection_params(dialect, bare, lead8);
        <T0::Params as HAppend<<T1::Params as HAppend<<T2::Params as HAppend<<T3::Params as HAppend<<T4::Params as HAppend<<T5::Params as HAppend<<T6::Params as HAppend<<T7::Params as HAppend<T8::Params>>::Output>>::Output>>::Output>>::Output>>::Output>>::Output>>::Output>>::lemma_append_width();
        <T1::Params as HAppend<<T2::Params as HAppend<<T3::Params as HAppend<<T4::Params as HAppend<<T5::Params as HAppend<<T6::Params as HAppend<<T7::Params as HAppend<T8::Params>>::Output>>::Output>>::Output>>::Output>>::Output>>::Output>>::lemma_append_width();
        <T2::Params as HAppend<<T3::Params as HAppend<<T4::Params as HAppend<<T5::Params as HAppend<<T6::Params as HAppend<<T7::Params as HAppend<T8::Params>>::Output>>::Output>>::Output>>::Output>>::Output>>::lemma_append_width();
        <T3::Params as HAppend<<T4::Params as HAppend<<T5::Params as HAppend<<T6::Params as HAppend<<T7::Params as HAppend<T8::Params>>::Output>>::Output>>::Output>>::Output>>::lemma_append_width();
        <T4::Params as HAppend<<T5::Params as HAppend<<T6::Params as HAppend<<T7::Params as HAppend<T8::Params>>::Output>>::Output>>::Output>>::lemma_append_width();
        <T5::Params as HAppend<<T6::Params as HAppend<<T7::Params as HAppend<T8::Params>>::Output>>::Output>>::lemma_append_width();
        <T6::Params as HAppend<<T7::Params as HAppend<T8::Params>>::Output>>::lemma_append_width();
        <T7::Params as HAppend<T8::Params>>::lemma_append_width();
    }

    proof fn lemma_projection_plain(&self) {
        <T0::Params as HAppend<<T1::Params as HAppend<<T2::Params as HAppend<<T3::Params as HAppend<<T4::Params as HAppend<<T5::Params as HAppend<<T6::Params as HAppend<<T7::Params as HAppend<T8::Params>>::Output>>::Output>>::Output>>::Output>>::Output>>::Output>>::Output>>::lemma_append_width();
        <T1::Params as HAppend<<T2::Params as HAppend<<T3::Params as HAppend<<T4::Params as HAppend<<T5::Params as HAppend<<T6::Params as HAppend<<T7::Params as HAppend<T8::Params>>::Output>>::Output>>::Output>>::Output>>::Output>>::Output>>::lemma_append_width();
        <T2::Params as HAppend<<T3::Params as HAppend<<T4::Params as HAppend<<T5::Params as HAppend<<T6::Params as HAppend<<T7::Params as HAppend<T8::Params>>::Output>>::Output>>::Output>>::Output>>::Output>>::lemma_append_width();
        <T3::Params as HAppend<<T4::Params as HAppend<<T5::Params as HAppend<<T6::Params as HAppend<<T7::Params as HAppend<T8::Params>>::Output>>::Output>>::Output>>::Output>>::lemma_append_width();
        <T4::Params as HAppend<<T5::Params as HAppend<<T6::Params as HAppend<<T7::Params as HAppend<T8::Params>>::Output>>::Output>>::Output>>::lemma_append_width();
        <T5::Params as HAppend<<T6::Params as HAppend<<T7::Params as HAppend<T8::Params>>::Output>>::Output>>::lemma_append_width();
        <T6::Params as HAppend<<T7::Params as HAppend<T8::Params>>::Output>>::lemma_append_width();
        <T7::Params as HAppend<T8::Params>>::lemma_append_width();
        self.0.lemma_projection_plain();
        self.1.lemma_projection_plain();
        self.2.lemma_projection_plain();
        self.3.lemma_projection_plain();
        self.4.lemma_projection_plain();
        self.5.lemma_projection_plain();
        self.6.lemma_projection_plain();
        self.7.lemma_projection_plain();
        self.8.lemma_projection_plain();
        crate::projection::lemma_plain_parts(self.7.items(), self.8.items());
        crate::projection::lemma_plain_parts(self.6.items(), self.7.items().then_list(self.8.items()));
        crate::projection::lemma_plain_parts(self.5.items(), self.6.items().then_list(self.7.items().then_list(self.8.items())));
        crate::projection::lemma_plain_parts(self.4.items(), self.5.items().then_list(self.6.items().then_list(self.7.items().then_list(self.8.items()))));
        crate::projection::lemma_plain_parts(self.3.items(), self.4.items().then_list(self.5.items().then_list(self.6.items().then_list(self.7.items().then_list(self.8.items())))));
        crate::projection::lemma_plain_parts(self.2.items(), self.3.items().then_list(self.4.items().then_list(self.5.items().then_list(self.6.items().then_list(self.7.items().then_list(self.8.items()))))));
        crate::projection::lemma_plain_parts(self.1.items(), self.2.items().then_list(self.3.items().then_list(self.4.items().then_list(self.5.items().then_list(self.6.items().then_list(self.7.items().then_list(self.8.items())))))));
        crate::projection::lemma_plain_parts(self.0.items(), self.1.items().then_list(self.2.items().then_list(self.3.items().then_list(self.4.items().then_list(self.5.items().then_list(self.6.items().then_list(self.7.items().then_list(self.8.items()))))))));
    }
}

impl<T0: Projectable, T1: Projectable, T2: Projectable, T3: Projectable, T4: Projectable, T5: Projectable, T6: Projectable, T7: Projectable, T8: Projectable, T9: Projectable> Projectable for (T0, T1, T2, T3, T4, T5, T6, T7, T8, T9) {
    type Rebound<'scope> = (T0::Rebound<'scope>, T1::Rebound<'scope>, T2::Rebound<'scope>, T3::Rebound<'scope>, T4::Rebound<'scope>, T5::Rebound<'scope>, T6::Rebound<'scope>, T7::Rebound<'scope>, T8::Rebound<'scope>, T9::Rebound<'scope>);

    open spec fn rebound<'scope>(&self, alias: SourceAlias) -> Self::Rebound<'scope> {
        (self.0.rebound(alias), self.1.rebound(alias), self.2.rebound(alias), self.3.rebound(alias), self.4.rebound(alias), self.5.rebound(alias), self.6.rebound(alias), self.7.rebound(alias), self.8.rebound(alias), self.9.rebound(alias))
    }

    open spec fn rebinds_with_prefix<'scope>(
        &self,
        alias: SourceAlias,
        prefix: Seq<char>,
        rebound: Self::Rebound<'scope>,
    ) -> bool {
        &&& self.0.rebinds_with_prefix(alias, prefix, rebound.0)
        &&& self.1.rebinds_with_prefix(alias, prefix, rebound.1)
        &&& self.2.rebinds_with_prefix(alias, prefix, rebound.2)
        &&& self.3.rebinds_with_prefix(alias, prefix, rebound.3)
        &&& self.4.rebinds_with_prefix(alias, prefix, rebound.4)
        &&& self.5.rebinds_with_prefix(alias, prefix, rebound.5)
        &&& self.6.rebinds_with_prefix(alias, prefix, rebound.6)
        &&& self.7.rebinds_with_prefix(alias, prefix, rebound.7)
        &&& self.8.rebinds_with_prefix(alias, prefix, rebound.8)
        &&& self.9.rebinds_with_prefix(alias, prefix, rebound.9)
    }

    fn re_alias<'scope>(&self, alias: SourceAlias) -> (rebound: Self::Rebound<'scope>) {
        (self.0.re_alias(alias), self.1.re_alias(alias), self.2.re_alias(alias), self.3.re_alias(alias), self.4.re_alias(alias), self.5.re_alias(alias), self.6.re_alias(alias), self.7.re_alias(alias), self.8.re_alias(alias), self.9.re_alias(alias))
    }

    fn re_alias_with_prefix<'scope>(&self, alias: SourceAlias, prefix: &str) -> (rebound:
        Self::Rebound<'scope>) {
        (self.0.re_alias_with_prefix(alias, prefix), self.1.re_alias_with_prefix(alias, prefix), self.2.re_alias_with_prefix(alias, prefix), self.3.re_alias_with_prefix(alias, prefix), self.4.re_alias_with_prefix(alias, prefix), self.5.re_alias_with_prefix(alias, prefix), self.6.re_alias_with_prefix(alias, prefix), self.7.re_alias_with_prefix(alias, prefix), self.8.re_alias_with_prefix(alias, prefix), self.9.re_alias_with_prefix(alias, prefix))
    }
}

impl<T0: Duplicate, T1: Duplicate, T2: Duplicate, T3: Duplicate, T4: Duplicate, T5: Duplicate, T6: Duplicate, T7: Duplicate, T8: Duplicate, T9: Duplicate> Duplicate for (T0, T1, T2, T3, T4, T5, T6, T7, T8, T9) {
    fn duplicate(&self) -> (copy: Self) {
        (self.0.duplicate(), self.1.duplicate(), self.2.duplicate(), self.3.duplicate(), self.4.duplicate(), self.5.duplicate(), self.6.duplicate(), self.7.duplicate(), self.8.duplicate(), self.9.duplicate())
    }
}

impl<T0: ProjectionShape, T1: ProjectionShape, T2: ProjectionShape, T3: ProjectionShape, T4: ProjectionShape, T5: ProjectionShape, T6: ProjectionShape, T7: ProjectionShape, T8: ProjectionShape, T9: ProjectionShape> ProjectionShape for (T0, T1, T2, T3, T4, T5, T6, T7, T8, T9) {
    type Exprs<'scope> = (T0::Exprs<'scope>, T1::Exprs<'scope>, T2::Exprs<'scope>, T3::Exprs<'scope>, T4::Exprs<'scope>, T5::Exprs<'scope>, T6::Exprs<'scope>, T7::Exprs<'scope>, T8::Exprs<'scope>, T9::Exprs<'scope>);

    type ReboundExprs<'scope> = (T0::ReboundExprs<'scope>, T1::ReboundExprs<'scope>, T2::ReboundExprs<'scope>, T3::ReboundExprs<'scope>, T4::ReboundExprs<'scope>, T5::ReboundExprs<'scope>, T6::ReboundExprs<'scope>, T7::ReboundExprs<'scope>, T8::ReboundExprs<'scope>, T9::ReboundExprs<'scope>);

    type Row = (T0::Row, T1::Row, T2::Row, T3::Row, T4::Row, T5::Row, T6::Row, T7::Row, T8::Row, T9::Row);

    open spec fn shape_exprs<'scope>(alias: SourceAlias) -> Self::Exprs<'scope> {
        (T0::shape_exprs(alias), T1::shape_exprs(alias), T2::shape_exprs(alias), T3::shape_exprs(alias), T4::shape_exprs(alias), T5::shape_exprs(alias), T6::shape_exprs(alias), T7::shape_exprs(alias), T8::shape_exprs(alias), T9::shape_exprs(alias))
    }

    open spec fn shape_rebound<'scope>(alias: SourceAlias) -> Self::ReboundExprs<'scope> {
        (T0::shape_rebound(alias), T1::shape_rebound(alias), T2::shape_rebound(alias), T3::shape_rebound(alias), T4::shape_rebound(alias), T5::shape_rebound(alias), T6::shape_rebound(alias), T7::shape_rebound(alias), T8::shape_rebound(alias), T9::shape_rebound(alias))
    }

    fn exprs<'scope>(alias: SourceAlias) -> (exprs: Self::Exprs<'scope>) {
        (T0::exprs(alias), T1::exprs(alias), T2::exprs(alias), T3::exprs(alias), T4::exprs(alias), T5::exprs(alias), T6::exprs(alias), T7::exprs(alias), T8::exprs(alias), T9::exprs(alias))
    }

    fn rebound_exprs<'scope>(alias: SourceAlias) -> (exprs: Self::ReboundExprs<'scope>) {
        (T0::rebound_exprs(alias), T1::rebound_exprs(alias), T2::rebound_exprs(alias), T3::rebound_exprs(alias), T4::rebound_exprs(alias), T5::rebound_exprs(alias), T6::rebound_exprs(alias), T7::rebound_exprs(alias), T8::rebound_exprs(alias), T9::rebound_exprs(alias))
    }
}

impl<T0: ProjectionParams, T1: ProjectionParams, T2: ProjectionParams, T3: ProjectionParams, T4: ProjectionParams, T5: ProjectionParams, T6: ProjectionParams, T7: ProjectionParams, T8: ProjectionParams, T9: ProjectionParams> ProjectionParams for (T0, T1, T2, T3, T4, T5, T6, T7, T8, T9) where
    T8::Params: HAppend<T9::Params>,
    T7::Params: HAppend<<T8::Params as HAppend<T9::Params>>::Output>,
    T6::Params: HAppend<<T7::Params as HAppend<<T8::Params as HAppend<T9::Params>>::Output>>::Output>,
    T5::Params: HAppend<<T6::Params as HAppend<<T7::Params as HAppend<<T8::Params as HAppend<T9::Params>>::Output>>::Output>>::Output>,
    T4::Params: HAppend<<T5::Params as HAppend<<T6::Params as HAppend<<T7::Params as HAppend<<T8::Params as HAppend<T9::Params>>::Output>>::Output>>::Output>>::Output>,
    T3::Params: HAppend<<T4::Params as HAppend<<T5::Params as HAppend<<T6::Params as HAppend<<T7::Params as HAppend<<T8::Params as HAppend<T9::Params>>::Output>>::Output>>::Output>>::Output>>::Output>,
    T2::Params: HAppend<<T3::Params as HAppend<<T4::Params as HAppend<<T5::Params as HAppend<<T6::Params as HAppend<<T7::Params as HAppend<<T8::Params as HAppend<T9::Params>>::Output>>::Output>>::Output>>::Output>>::Output>>::Output>,
    T1::Params: HAppend<<T2::Params as HAppend<<T3::Params as HAppend<<T4::Params as HAppend<<T5::Params as HAppend<<T6::Params as HAppend<<T7::Params as HAppend<<T8::Params as HAppend<T9::Params>>::Output>>::Output>>::Output>>::Output>>::Output>>::Output>>::Output>,
    T0::Params: HAppend<<T1::Params as HAppend<<T2::Params as HAppend<<T3::Params as HAppend<<T4::Params as HAppend<<T5::Params as HAppend<<T6::Params as HAppend<<T7::Params as HAppend<<T8::Params as HAppend<T9::Params>>::Output>>::Output>>::Output>>::Output>>::Output>>::Output>>::Output>>::Output>,
 {
    type Params = <T0::Params as HAppend<<T1::Params as HAppend<<T2::Params as HAppend<<T3::Params as HAppend<<T4::Params as HAppend<<T5::Params as HAppend<<T6::Params as HAppend<<T7::Params as HAppend<<T8::Params as HAppend<T9::Params>>::Output>>::Output>>::Output>>::Output>>::Output>>::Output>>::Output>>::Output>>::Output;
}

impl<T0: ProjectionClass, T1: ProjectionClass<Class = T0::Class>, T2: ProjectionClass<Class = T0::Class>, T3: ProjectionClass<Class = T0::Class>, T4: ProjectionClass<Class = T0::Class>, T5: ProjectionClass<Class = T0::Class>, T6: ProjectionClass<Class = T0::Class>, T7: ProjectionClass<Class = T0::Class>, T8: ProjectionClass<Class = T0::Class>, T9: ProjectionClass<Class = T0::Class>> ProjectionClass for (T0, T1, T2, T3, T4, T5, T6, T7, T8, T9) {
    type Class = T0::Class;
}

impl<T0: ReturnableProjection, T1: ReturnableProjection, T2: ReturnableProjection, T3: ReturnableProjection, T4: ReturnableProjection, T5: ReturnableProjection, T6: ReturnableProjection, T7: ReturnableProjection, T8: ReturnableProjection, T9: ReturnableProjection> ReturnableProjection for (T0, T1, T2, T3, T4, T5, T6, T7, T8, T9) {

}

impl<T0: RenderProjectable<B>, T1: RenderProjectable<B>, T2: RenderProjectable<B>, T3: RenderProjectable<B>, T4: RenderProjectable<B>, T5: RenderProjectable<B>, T6: RenderProjectable<B>, T7: RenderProjectable<B>, T8: RenderProjectable<B>, T9: RenderProjectable<B>, B: Backend> RenderProjectable<B> for (T0, T1, T2, T3, T4, T5, T6, T7, T8, T9) where
    T8::Params: HAppend<T9::Params>,
    T7::Params: HAppend<<T8::Params as HAppend<T9::Params>>::Output>,
    T6::Params: HAppend<<T7::Params as HAppend<<T8::Params as HAppend<T9::Params>>::Output>>::Output>,
    T5::Params: HAppend<<T6::Params as HAppend<<T7::Params as HAppend<<T8::Params as HAppend<T9::Params>>::Output>>::Output>>::Output>,
    T4::Params: HAppend<<T5::Params as HAppend<<T6::Params as HAppend<<T7::Params as HAppend<<T8::Params as HAppend<T9::Params>>::Output>>::Output>>::Output>>::Output>,
    T3::Params: HAppend<<T4::Params as HAppend<<T5::Params as HAppend<<T6::Params as HAppend<<T7::Params as HAppend<<T8::Params as HAppend<T9::Params>>::Output>>::Output>>::Output>>::Output>>::Output>,
    T2::Params: HAppend<<T3::Params as HAppend<<T4::Params as HAppend<<T5::Params as HAppend<<T6::Params as HAppend<<T7::Params as HAppend<<T8::Params as HAppend<T9::Params>>::Output>>::Output>>::Output>>::Output>>::Output>>::Output>,
    T1::Params: HAppend<<T2::Params as HAppend<<T3::Params as HAppend<<T4::Params as HAppend<<T5::Params as HAppend<<T6::Params as HAppend<<T7::Params as HAppend<<T8::Params as HAppend<T9::Params>>::Output>>::Output>>::Output>>::Output>>::Output>>::Output>>::Output>,
    T0::Params: HAppend<<T1::Params as HAppend<<T2::Params as HAppend<<T3::Params as HAppend<<T4::Params as HAppend<<T5::Params as HAppend<<T6::Params as HAppend<<T7::Params as HAppend<<T8::Params as HAppend<T9::Params>>::Output>>::Output>>::Output>>::Output>>::Output>>::Output>>::Output>>::Output>,
 {
    open spec fn items(&self) -> List<ProjectionTree<Bound<B>>> {
        self.0.items().then_list(self.1.items().then_list(self.2.items().then_list(self.3.items().then_list(self.4.items().then_list(self.5.items().then_list(self.6.items().then_list(self.7.items().then_list(self.8.items().then_list(self.9.items())))))))))
    }

    fn lower_projection(&self) -> (items: List<ProjectionTree<Bound<B>>>) {
        self.0.lower_projection().append(self.1.lower_projection().append(self.2.lower_projection().append(self.3.lower_projection().append(self.4.lower_projection().append(self.5.lower_projection().append(self.6.lower_projection().append(self.7.lower_projection().append(self.8.lower_projection().append(self.9.lower_projection())))))))))
    }

    fn lower_projection_with_prefix(&self, prefix: &str) -> (items: List<
        ProjectionTree<Bound<B>>,
    >) {
        let items0 = self.0.lower_projection_with_prefix(prefix);
        let items1 = self.1.lower_projection_with_prefix(prefix);
        let items2 = self.2.lower_projection_with_prefix(prefix);
        let items3 = self.3.lower_projection_with_prefix(prefix);
        let items4 = self.4.lower_projection_with_prefix(prefix);
        let items5 = self.5.lower_projection_with_prefix(prefix);
        let items6 = self.6.lower_projection_with_prefix(prefix);
        let items7 = self.7.lower_projection_with_prefix(prefix);
        let items8 = self.8.lower_projection_with_prefix(prefix);
        let items9 = self.9.lower_projection_with_prefix(prefix);
        proof {
            crate::projection::lemma_prefixed_parts(self.8.items(), self.9.items(), prefix@, items8, items9);
            crate::projection::lemma_prefixed_parts(self.7.items(), self.8.items().then_list(self.9.items()), prefix@, items7, items8.then_list(items9));
            crate::projection::lemma_prefixed_parts(self.6.items(), self.7.items().then_list(self.8.items().then_list(self.9.items())), prefix@, items6, items7.then_list(items8.then_list(items9)));
            crate::projection::lemma_prefixed_parts(self.5.items(), self.6.items().then_list(self.7.items().then_list(self.8.items().then_list(self.9.items()))), prefix@, items5, items6.then_list(items7.then_list(items8.then_list(items9))));
            crate::projection::lemma_prefixed_parts(self.4.items(), self.5.items().then_list(self.6.items().then_list(self.7.items().then_list(self.8.items().then_list(self.9.items())))), prefix@, items4, items5.then_list(items6.then_list(items7.then_list(items8.then_list(items9)))));
            crate::projection::lemma_prefixed_parts(self.3.items(), self.4.items().then_list(self.5.items().then_list(self.6.items().then_list(self.7.items().then_list(self.8.items().then_list(self.9.items()))))), prefix@, items3, items4.then_list(items5.then_list(items6.then_list(items7.then_list(items8.then_list(items9))))));
            crate::projection::lemma_prefixed_parts(self.2.items(), self.3.items().then_list(self.4.items().then_list(self.5.items().then_list(self.6.items().then_list(self.7.items().then_list(self.8.items().then_list(self.9.items())))))), prefix@, items2, items3.then_list(items4.then_list(items5.then_list(items6.then_list(items7.then_list(items8.then_list(items9)))))));
            crate::projection::lemma_prefixed_parts(self.1.items(), self.2.items().then_list(self.3.items().then_list(self.4.items().then_list(self.5.items().then_list(self.6.items().then_list(self.7.items().then_list(self.8.items().then_list(self.9.items()))))))), prefix@, items1, items2.then_list(items3.then_list(items4.then_list(items5.then_list(items6.then_list(items7.then_list(items8.then_list(items9))))))));
            crate::projection::lemma_prefixed_parts(self.0.items(), self.1.items().then_list(self.2.items().then_list(self.3.items().then_list(self.4.items().then_list(self.5.items().then_list(self.6.items().then_list(self.7.items().then_list(self.8.items().then_list(self.9.items())))))))), prefix@, items0, items1.then_list(items2.then_list(items3.then_list(items4.then_list(items5.then_list(items6.then_list(items7.then_list(items8.then_list(items9)))))))));
        }
        items0.append(items1.append(items2.append(items3.append(items4.append(items5.append(items6.append(items7.append(items8.append(items9)))))))))
    }

    proof fn lemma_projection_params<D: Dialect>(&self, dialect: D, bare: bool, lead: Seq<char>) {
        let lead1 = if self.0.items() is Nil { lead } else { ", "@ };
        self.0.lemma_projection_params(dialect, bare, lead);
        crate::projection::lemma_projection_parts(dialect, bare, lead, self.0.items(), self.1.items().then_list(self.2.items().then_list(self.3.items().then_list(self.4.items().then_list(self.5.items().then_list(self.6.items().then_list(self.7.items().then_list(self.8.items().then_list(self.9.items())))))))));
        let lead2 = if self.1.items() is Nil { lead1 } else { ", "@ };
        self.1.lemma_projection_params(dialect, bare, lead1);
        crate::projection::lemma_projection_parts(dialect, bare, lead1, self.1.items(), self.2.items().then_list(self.3.items().then_list(self.4.items().then_list(self.5.items().then_list(self.6.items().then_list(self.7.items().then_list(self.8.items().then_list(self.9.items()))))))));
        let lead3 = if self.2.items() is Nil { lead2 } else { ", "@ };
        self.2.lemma_projection_params(dialect, bare, lead2);
        crate::projection::lemma_projection_parts(dialect, bare, lead2, self.2.items(), self.3.items().then_list(self.4.items().then_list(self.5.items().then_list(self.6.items().then_list(self.7.items().then_list(self.8.items().then_list(self.9.items())))))));
        let lead4 = if self.3.items() is Nil { lead3 } else { ", "@ };
        self.3.lemma_projection_params(dialect, bare, lead3);
        crate::projection::lemma_projection_parts(dialect, bare, lead3, self.3.items(), self.4.items().then_list(self.5.items().then_list(self.6.items().then_list(self.7.items().then_list(self.8.items().then_list(self.9.items()))))));
        let lead5 = if self.4.items() is Nil { lead4 } else { ", "@ };
        self.4.lemma_projection_params(dialect, bare, lead4);
        crate::projection::lemma_projection_parts(dialect, bare, lead4, self.4.items(), self.5.items().then_list(self.6.items().then_list(self.7.items().then_list(self.8.items().then_list(self.9.items())))));
        let lead6 = if self.5.items() is Nil { lead5 } else { ", "@ };
        self.5.lemma_projection_params(dialect, bare, lead5);
        crate::projection::lemma_projection_parts(dialect, bare, lead5, self.5.items(), self.6.items().then_list(self.7.items().then_list(self.8.items().then_list(self.9.items()))));
        let lead7 = if self.6.items() is Nil { lead6 } else { ", "@ };
        self.6.lemma_projection_params(dialect, bare, lead6);
        crate::projection::lemma_projection_parts(dialect, bare, lead6, self.6.items(), self.7.items().then_list(self.8.items().then_list(self.9.items())));
        let lead8 = if self.7.items() is Nil { lead7 } else { ", "@ };
        self.7.lemma_projection_params(dialect, bare, lead7);
        crate::projection::lemma_projection_parts(dialect, bare, lead7, self.7.items(), self.8.items().then_list(self.9.items()));
        let lead9 = if self.8.items() is Nil { lead8 } else { ", "@ };
        self.8.lemma_projection_params(dialect, bare, lead8);
        crate::projection::lemma_projection_parts(dialect, bare, lead8, self.8.items(), self.9.items());
        self.9.lemma_projection_params(dialect, bare, lead9);
        <T0::Params as HAppend<<T1::Params as HAppend<<T2::Params as HAppend<<T3::Params as HAppend<<T4::Params as HAppend<<T5::Params as HAppend<<T6::Params as HAppend<<T7::Params as HAppend<<T8::Params as HAppend<T9::Params>>::Output>>::Output>>::Output>>::Output>>::Output>>::Output>>::Output>>::Output>>::lemma_append_width();
        <T1::Params as HAppend<<T2::Params as HAppend<<T3::Params as HAppend<<T4::Params as HAppend<<T5::Params as HAppend<<T6::Params as HAppend<<T7::Params as HAppend<<T8::Params as HAppend<T9::Params>>::Output>>::Output>>::Output>>::Output>>::Output>>::Output>>::Output>>::lemma_append_width();
        <T2::Params as HAppend<<T3::Params as HAppend<<T4::Params as HAppend<<T5::Params as HAppend<<T6::Params as HAppend<<T7::Params as HAppend<<T8::Params as HAppend<T9::Params>>::Output>>::Output>>::Output>>::Output>>::Output>>::Output>>::lemma_append_width();
        <T3::Params as HAppend<<T4::Params as HAppend<<T5::Params as HAppend<<T6::Params as HAppend<<T7::Params as HAppend<<T8::Params as HAppend<T9::Params>>::Output>>::Output>>::Output>>::Output>>::Output>>::lemma_append_width();
        <T4::Params as HAppend<<T5::Params as HAppend<<T6::Params as HAppend<<T7::Params as HAppend<<T8::Params as HAppend<T9::Params>>::Output>>::Output>>::Output>>::Output>>::lemma_append_width();
        <T5::Params as HAppend<<T6::Params as HAppend<<T7::Params as HAppend<<T8::Params as HAppend<T9::Params>>::Output>>::Output>>::Output>>::lemma_append_width();
        <T6::Params as HAppend<<T7::Params as HAppend<<T8::Params as HAppend<T9::Params>>::Output>>::Output>>::lemma_append_width();
        <T7::Params as HAppend<<T8::Params as HAppend<T9::Params>>::Output>>::lemma_append_width();
        <T8::Params as HAppend<T9::Params>>::lemma_append_width();
    }

    proof fn lemma_projection_plain(&self) {
        <T0::Params as HAppend<<T1::Params as HAppend<<T2::Params as HAppend<<T3::Params as HAppend<<T4::Params as HAppend<<T5::Params as HAppend<<T6::Params as HAppend<<T7::Params as HAppend<<T8::Params as HAppend<T9::Params>>::Output>>::Output>>::Output>>::Output>>::Output>>::Output>>::Output>>::Output>>::lemma_append_width();
        <T1::Params as HAppend<<T2::Params as HAppend<<T3::Params as HAppend<<T4::Params as HAppend<<T5::Params as HAppend<<T6::Params as HAppend<<T7::Params as HAppend<<T8::Params as HAppend<T9::Params>>::Output>>::Output>>::Output>>::Output>>::Output>>::Output>>::Output>>::lemma_append_width();
        <T2::Params as HAppend<<T3::Params as HAppend<<T4::Params as HAppend<<T5::Params as HAppend<<T6::Params as HAppend<<T7::Params as HAppend<<T8::Params as HAppend<T9::Params>>::Output>>::Output>>::Output>>::Output>>::Output>>::Output>>::lemma_append_width();
        <T3::Params as HAppend<<T4::Params as HAppend<<T5::Params as HAppend<<T6::Params as HAppend<<T7::Params as HAppend<<T8::Params as HAppend<T9::Params>>::Output>>::Output>>::Output>>::Output>>::Output>>::lemma_append_width();
        <T4::Params as HAppend<<T5::Params as HAppend<<T6::Params as HAppend<<T7::Params as HAppend<<T8::Params as HAppend<T9::Params>>::Output>>::Output>>::Output>>::Output>>::lemma_append_width();
        <T5::Params as HAppend<<T6::Params as HAppend<<T7::Params as HAppend<<T8::Params as HAppend<T9::Params>>::Output>>::Output>>::Output>>::lemma_append_width();
        <T6::Params as HAppend<<T7::Params as HAppend<<T8::Params as HAppend<T9::Params>>::Output>>::Output>>::lemma_append_width();
        <T7::Params as HAppend<<T8::Params as HAppend<T9::Params>>::Output>>::lemma_append_width();
        <T8::Params as HAppend<T9::Params>>::lemma_append_width();
        self.0.lemma_projection_plain();
        self.1.lemma_projection_plain();
        self.2.lemma_projection_plain();
        self.3.lemma_projection_plain();
        self.4.lemma_projection_plain();
        self.5.lemma_projection_plain();
        self.6.lemma_projection_plain();
        self.7.lemma_projection_plain();
        self.8.lemma_projection_plain();
        self.9.lemma_projection_plain();
        crate::projection::lemma_plain_parts(self.8.items(), self.9.items());
        crate::projection::lemma_plain_parts(self.7.items(), self.8.items().then_list(self.9.items()));
        crate::projection::lemma_plain_parts(self.6.items(), self.7.items().then_list(self.8.items().then_list(self.9.items())));
        crate::projection::lemma_plain_parts(self.5.items(), self.6.items().then_list(self.7.items().then_list(self.8.items().then_list(self.9.items()))));
        crate::projection::lemma_plain_parts(self.4.items(), self.5.items().then_list(self.6.items().then_list(self.7.items().then_list(self.8.items().then_list(self.9.items())))));
        crate::projection::lemma_plain_parts(self.3.items(), self.4.items().then_list(self.5.items().then_list(self.6.items().then_list(self.7.items().then_list(self.8.items().then_list(self.9.items()))))));
        crate::projection::lemma_plain_parts(self.2.items(), self.3.items().then_list(self.4.items().then_list(self.5.items().then_list(self.6.items().then_list(self.7.items().then_list(self.8.items().then_list(self.9.items())))))));
        crate::projection::lemma_plain_parts(self.1.items(), self.2.items().then_list(self.3.items().then_list(self.4.items().then_list(self.5.items().then_list(self.6.items().then_list(self.7.items().then_list(self.8.items().then_list(self.9.items()))))))));
        crate::projection::lemma_plain_parts(self.0.items(), self.1.items().then_list(self.2.items().then_list(self.3.items().then_list(self.4.items().then_list(self.5.items().then_list(self.6.items().then_list(self.7.items().then_list(self.8.items().then_list(self.9.items())))))))));
    }
}

impl<T0: Projectable, T1: Projectable, T2: Projectable, T3: Projectable, T4: Projectable, T5: Projectable, T6: Projectable, T7: Projectable, T8: Projectable, T9: Projectable, T10: Projectable> Projectable for (T0, T1, T2, T3, T4, T5, T6, T7, T8, T9, T10) {
    type Rebound<'scope> = (T0::Rebound<'scope>, T1::Rebound<'scope>, T2::Rebound<'scope>, T3::Rebound<'scope>, T4::Rebound<'scope>, T5::Rebound<'scope>, T6::Rebound<'scope>, T7::Rebound<'scope>, T8::Rebound<'scope>, T9::Rebound<'scope>, T10::Rebound<'scope>);

    open spec fn rebound<'scope>(&self, alias: SourceAlias) -> Self::Rebound<'scope> {
        (self.0.rebound(alias), self.1.rebound(alias), self.2.rebound(alias), self.3.rebound(alias), self.4.rebound(alias), self.5.rebound(alias), self.6.rebound(alias), self.7.rebound(alias), self.8.rebound(alias), self.9.rebound(alias), self.10.rebound(alias))
    }

    open spec fn rebinds_with_prefix<'scope>(
        &self,
        alias: SourceAlias,
        prefix: Seq<char>,
        rebound: Self::Rebound<'scope>,
    ) -> bool {
        &&& self.0.rebinds_with_prefix(alias, prefix, rebound.0)
        &&& self.1.rebinds_with_prefix(alias, prefix, rebound.1)
        &&& self.2.rebinds_with_prefix(alias, prefix, rebound.2)
        &&& self.3.rebinds_with_prefix(alias, prefix, rebound.3)
        &&& self.4.rebinds_with_prefix(alias, prefix, rebound.4)
        &&& self.5.rebinds_with_prefix(alias, prefix, rebound.5)
        &&& self.6.rebinds_with_prefix(alias, prefix, rebound.6)
        &&& self.7.rebinds_with_prefix(alias, prefix, rebound.7)
        &&& self.8.rebinds_with_prefix(alias, prefix, rebound.8)
        &&& self.9.rebinds_with_prefix(alias, prefix, rebound.9)
        &&& self.10.rebinds_with_prefix(alias, prefix, rebound.10)
    }

    fn re_alias<'scope>(&self, alias: SourceAlias) -> (rebound: Self::Rebound<'scope>) {
        (self.0.re_alias(alias), self.1.re_alias(alias), self.2.re_alias(alias), self.3.re_alias(alias), self.4.re_alias(alias), self.5.re_alias(alias), self.6.re_alias(alias), self.7.re_alias(alias), self.8.re_alias(alias), self.9.re_alias(alias), self.10.re_alias(alias))
    }

    fn re_alias_with_prefix<'scope>(&self, alias: SourceAlias, prefix: &str) -> (rebound:
        Self::Rebound<'scope>) {
        (self.0.re_alias_with_prefix(alias, prefix), self.1.re_alias_with_prefix(alias, prefix), self.2.re_alias_with_prefix(alias, prefix), self.3.re_alias_with_prefix(alias, prefix), self.4.re_alias_with_prefix(alias, prefix), self.5.re_alias_with_prefix(alias, prefix), self.6.re_alias_with_prefix(alias, prefix), self.7.re_alias_with_prefix(alias, prefix), self.8.re_alias_with_prefix(alias, prefix), self.9.re_alias_with_prefix(alias, prefix), self.10.re_alias_with_prefix(alias, prefix))
    }
}

impl<T0: Duplicate, T1: Duplicate, T2: Duplicate, T3: Duplicate, T4: Duplicate, T5: Duplicate, T6: Duplicate, T7: Duplicate, T8: Duplicate, T9: Duplicate, T10: Duplicate> Duplicate for (T0, T1, T2, T3, T4, T5, T6, T7, T8, T9, T10) {
    fn duplicate(&self) -> (copy: Self) {
        (self.0.duplicate(), self.1.duplicate(), self.2.duplicate(), self.3.duplicate(), self.4.duplicate(), self.5.duplicate(), self.6.duplicate(), self.7.duplicate(), self.8.duplicate(), self.9.duplicate(), self.10.duplicate())
    }
}

impl<T0: ProjectionShape, T1: ProjectionShape, T2: ProjectionShape, T3: ProjectionShape, T4: ProjectionShape, T5: ProjectionShape, T6: ProjectionShape, T7: ProjectionShape, T8: ProjectionShape, T9: ProjectionShape, T10: ProjectionShape> ProjectionShape for (T0, T1, T2, T3, T4, T5, T6, T7, T8, T9, T10) {
    type Exprs<'scope> = (T0::Exprs<'scope>, T1::Exprs<'scope>, T2::Exprs<'scope>, T3::Exprs<'scope>, T4::Exprs<'scope>, T5::Exprs<'scope>, T6::Exprs<'scope>, T7::Exprs<'scope>, T8::Exprs<'scope>, T9::Exprs<'scope>, T10::Exprs<'scope>);

    type ReboundExprs<'scope> = (T0::ReboundExprs<'scope>, T1::ReboundExprs<'scope>, T2::ReboundExprs<'scope>, T3::ReboundExprs<'scope>, T4::ReboundExprs<'scope>, T5::ReboundExprs<'scope>, T6::ReboundExprs<'scope>, T7::ReboundExprs<'scope>, T8::ReboundExprs<'scope>, T9::ReboundExprs<'scope>, T10::ReboundExprs<'scope>);

    type Row = (T0::Row, T1::Row, T2::Row, T3::Row, T4::Row, T5::Row, T6::Row, T7::Row, T8::Row, T9::Row, T10::Row);

    open spec fn shape_exprs<'scope>(alias: SourceAlias) -> Self::Exprs<'scope> {
        (T0::shape_exprs(alias), T1::shape_exprs(alias), T2::shape_exprs(alias), T3::shape_exprs(alias), T4::shape_exprs(alias), T5::shape_exprs(alias), T6::shape_exprs(alias), T7::shape_exprs(alias), T8::shape_exprs(alias), T9::shape_exprs(alias), T10::shape_exprs(alias))
    }

    open spec fn shape_rebound<'scope>(alias: SourceAlias) -> Self::ReboundExprs<'scope> {
        (T0::shape_rebound(alias), T1::shape_rebound(alias), T2::shape_rebound(alias), T3::shape_rebound(alias), T4::shape_rebound(alias), T5::shape_rebound(alias), T6::shape_rebound(alias), T7::shape_rebound(alias), T8::shape_rebound(alias), T9::shape_rebound(alias), T10::shape_rebound(alias))
    }

    fn exprs<'scope>(alias: SourceAlias) -> (exprs: Self::Exprs<'scope>) {
        (T0::exprs(alias), T1::exprs(alias), T2::exprs(alias), T3::exprs(alias), T4::exprs(alias), T5::exprs(alias), T6::exprs(alias), T7::exprs(alias), T8::exprs(alias), T9::exprs(alias), T10::exprs(alias))
    }

    fn rebound_exprs<'scope>(alias: SourceAlias) -> (exprs: Self::ReboundExprs<'scope>) {
        (T0::rebound_exprs(alias), T1::rebound_exprs(alias), T2::rebound_exprs(alias), T3::rebound_exprs(alias), T4::rebound_exprs(alias), T5::rebound_exprs(alias), T6::rebound_exprs(alias), T7::rebound_exprs(alias), T8::rebound_exprs(alias), T9::rebound_exprs(alias), T10::rebound_exprs(alias))
    }
}

impl<T0: ProjectionParams, T1: ProjectionParams, T2: ProjectionParams, T3: ProjectionParams, T4: ProjectionParams, T5: ProjectionParams, T6: ProjectionParams, T7: ProjectionParams, T8: ProjectionParams, T9: ProjectionParams, T10: ProjectionParams> ProjectionParams for (T0, T1, T2, T3, T4, T5, T6, T7, T8, T9, T10) where
    T9::Params: HAppend<T10::Params>,
    T8::Params: HAppend<<T9::Params as HAppend<T10::Params>>::Output>,
    T7::Params: HAppend<<T8::Params as HAppend<<T9::Params as HAppend<T10::Params>>::Output>>::Output>,
    T6::Params: HAppend<<T7::Params as HAppend<<T8::Params as HAppend<<T9::Params as HAppend<T10::Params>>::Output>>::Output>>::Output>,
    T5::Params: HAppend<<T6::Params as HAppend<<T7::Params as HAppend<<T8::Params as HAppend<<T9::Params as HAppend<T10::Params>>::Output>>::Output>>::Output>>::Output>,
    T4::Params: HAppend<<T5::Params as HAppend<<T6::Params as HAppend<<T7::Params as HAppend<<T8::Params as HAppend<<T9::Params as HAppend<T10::Params>>::Output>>::Output>>::Output>>::Output>>::Output>,
    T3::Params: HAppend<<T4::Params as HAppend<<T5::Params as HAppend<<T6::Params as HAppend<<T7::Params as HAppend<<T8::Params as HAppend<<T9::Params as HAppend<T10::Params>>::Output>>::Output>>::Output>>::Output>>::Output>>::Output>,
    T2::Params: HAppend<<T3::Params as HAppend<<T4::Params as HAppend<<T5::Params as HAppend<<T6::Params as HAppend<<T7::Params as HAppend<<T8::Params as HAppend<<T9::Params as HAppend<T10::Params>>::Output>>::Output>>::Output>>::Output>>::Output>>::Output>>::Output>,
    T1::Params: HAppend<<T2::Params as HAppend<<T3::Params as HAppend<<T4::Params as HAppend<<T5::Params as HAppend<<T6::Params as HAppend<<T7::Params as HAppend<<T8::Params as HAppend<<T9::Params as HAppend<T10::Params>>::Output>>::Output>>::Output>>::Output>>::Output>>::Output>>::Output>>::Output>,
    T0::Params: HAppend<<T1::Params as HAppend<<T2::Params as HAppend<<T3::Params as HAppend<<T4::Params as HAppend<<T5::Params as HAppend<<T6::Params as HAppend<<T7::Params as HAppend<<T8::Params as HAppend<<T9::Params as HAppend<T10::Params>>::Output>>::Output>>::Output>>::Output>>::Output>>::Output>>::Output>>::Output>>::Output>,
 {
    type Params = <T0::Params as HAppend<<T1::Params as HAppend<<T2::Params as HAppend<<T3::Params as HAppend<<T4::Params as HAppend<<T5::Params as HAppend<<T6::Params as HAppend<<T7::Params as HAppend<<T8::Params as HAppend<<T9::Params as HAppend<T10::Params>>::Output>>::Output>>::Output>>::Output>>::Output>>::Output>>::Output>>::Output>>::Output>>::Output;
}

impl<T0: ProjectionClass, T1: ProjectionClass<Class = T0::Class>, T2: ProjectionClass<Class = T0::Class>, T3: ProjectionClass<Class = T0::Class>, T4: ProjectionClass<Class = T0::Class>, T5: ProjectionClass<Class = T0::Class>, T6: ProjectionClass<Class = T0::Class>, T7: ProjectionClass<Class = T0::Class>, T8: ProjectionClass<Class = T0::Class>, T9: ProjectionClass<Class = T0::Class>, T10: ProjectionClass<Class = T0::Class>> ProjectionClass for (T0, T1, T2, T3, T4, T5, T6, T7, T8, T9, T10) {
    type Class = T0::Class;
}

impl<T0: ReturnableProjection, T1: ReturnableProjection, T2: ReturnableProjection, T3: ReturnableProjection, T4: ReturnableProjection, T5: ReturnableProjection, T6: ReturnableProjection, T7: ReturnableProjection, T8: ReturnableProjection, T9: ReturnableProjection, T10: ReturnableProjection> ReturnableProjection for (T0, T1, T2, T3, T4, T5, T6, T7, T8, T9, T10) {

}

impl<T0: RenderProjectable<B>, T1: RenderProjectable<B>, T2: RenderProjectable<B>, T3: RenderProjectable<B>, T4: RenderProjectable<B>, T5: RenderProjectable<B>, T6: RenderProjectable<B>, T7: RenderProjectable<B>, T8: RenderProjectable<B>, T9: RenderProjectable<B>, T10: RenderProjectable<B>, B: Backend> RenderProjectable<B> for (T0, T1, T2, T3, T4, T5, T6, T7, T8, T9, T10) where
    T9::Params: HAppend<T10::Params>,
    T8::Params: HAppend<<T9::Params as HAppend<T10::Params>>::Output>,
    T7::Params: HAppend<<T8::Params as HAppend<<T9::Params as HAppend<T10::Params>>::Output>>::Output>,
    T6::Params: HAppend<<T7::Params as HAppend<<T8::Params as HAppend<<T9::Params as HAppend<T10::Params>>::Output>>::Output>>::Output>,
    T5::Params: HAppend<<T6::Params as HAppend<<T7::Params as HAppend<<T8::Params as HAppend<<T9::Params as HAppend<T10::Params>>::Output>>::Output>>::Output>>::Output>,
    T4::Params: HAppend<<T5::Params as HAppend<<T6::Params as HAppend<<T7::Params as HAppend<<T8::Params as HAppend<<T9::Params as HAppend<T10::Params>>::Output>>::Output>>::Output>>::Output>>::Output>,
    T3::Params: HAppend<<T4::Params as HAppend<<T5::Params as HAppend<<T6::Params as HAppend<<T7::Params as HAppend<<T8::Params as HAppend<<T9::Params as HAppend<T10::Params>>::Output>>::Output>>::Output>>::Output>>::Output>>::Output>,
    T2::Params: HAppend<<T3::Params as HAppend<<T4::Params as HAppend<<T5::Params as HAppend<<T6::Params as HAppend<<T7::Params as HAppend<<T8::Params as HAppend<<T9::Params as HAppend<T10::Params>>::Output>>::Output>>::Output>>::Output>>::Output>>::Output>>::Output>,
    T1::Params: HAppend<<T2::Params as HAppend<<T3::Params as HAppend<<T4::Params as HAppend<<T5::Params as HAppend<<T6::Params as HAppend<<T7::Params as HAppend<<T8::Params as HAppend<<T9::Params as HAppend<T10::Params>>::Output>>::Output>>::Output>>::Output>>::Output>>::Output>>::Output>>::Output>,
    T0::Params: HAppend<<T1::Params as HAppend<<T2::Params as HAppend<<T3::Params as HAppend<<T4::Params as HAppend<<T5::Params as HAppend<<T6::Params as HAppend<<T7::Params as HAppend<<T8::Params as HAppend<<T9::Params as HAppend<T10::Params>>::Output>>::Output>>::Output>>::Output>>::Output>>::Output>>::Output>>::Output>>::Output>,
 {
    open spec fn items(&self) -> List<ProjectionTree<Bound<B>>> {
        self.0.items().then_list(self.1.items().then_list(self.2.items().then_list(self.3.items().then_list(self.4.items().then_list(self.5.items().then_list(self.6.items().then_list(self.7.items().then_list(self.8.items().then_list(self.9.items().then_list(self.10.items()))))))))))
    }

    fn lower_projection(&self) -> (items: List<ProjectionTree<Bound<B>>>) {
        self.0.lower_projection().append(self.1.lower_projection().append(self.2.lower_projection().append(self.3.lower_projection().append(self.4.lower_projection().append(self.5.lower_projection().append(self.6.lower_projection().append(self.7.lower_projection().append(self.8.lower_projection().append(self.9.lower_projection().append(self.10.lower_projection()))))))))))
    }

    fn lower_projection_with_prefix(&self, prefix: &str) -> (items: List<
        ProjectionTree<Bound<B>>,
    >) {
        let items0 = self.0.lower_projection_with_prefix(prefix);
        let items1 = self.1.lower_projection_with_prefix(prefix);
        let items2 = self.2.lower_projection_with_prefix(prefix);
        let items3 = self.3.lower_projection_with_prefix(prefix);
        let items4 = self.4.lower_projection_with_prefix(prefix);
        let items5 = self.5.lower_projection_with_prefix(prefix);
        let items6 = self.6.lower_projection_with_prefix(prefix);
        let items7 = self.7.lower_projection_with_prefix(prefix);
        let items8 = self.8.lower_projection_with_prefix(prefix);
        let items9 = self.9.lower_projection_with_prefix(prefix);
        let items10 = self.10.lower_projection_with_prefix(prefix);
        proof {
            crate::projection::lemma_prefixed_parts(self.9.items(), self.10.items(), prefix@, items9, items10);
            crate::projection::lemma_prefixed_parts(self.8.items(), self.9.items().then_list(self.10.items()), prefix@, items8, items9.then_list(items10));
            crate::projection::lemma_prefixed_parts(self.7.items(), self.8.items().then_list(self.9.items().then_list(self.10.items())), prefix@, items7, items8.then_list(items9.then_list(items10)));
            crate::projection::lemma_prefixed_parts(self.6.items(), self.7.items().then_list(self.8.items().then_list(self.9.items().then_list(self.10.items()))), prefix@, items6, items7.then_list(items8.then_list(items9.then_list(items10))));
            crate::projection::lemma_prefixed_parts(self.5.items(), self.6.items().then_list(self.7.items().then_list(self.8.items().then_list(self.9.items().then_list(self.10.items())))), prefix@, items5, items6.then_list(items7.then_list(items8.then_list(items9.then_list(items10)))));
            crate::projection::lemma_prefixed_parts(self.4.items(), self.5.items().then_list(self.6.items().then_list(self.7.items().then_list(self.8.items().then_list(self.9.items().then_list(self.10.items()))))), prefix@, items4, items5.then_list(items6.then_list(items7.then_list(items8.then_list(items9.then_list(items10))))));
            crate::projection::lemma_prefixed_parts(self.3.items(), self.4.items().then_list(self.5.items().then_list(self.6.items().then_list(self.7.items().then_list(self.8.items().then_list(self.9.items().then_list(self.10.items())))))), prefix@, items3, items4.then_list(items5.then_list(items6.then_list(items7.then_list(items8.then_list(items9.then_list(items10)))))));
            crate::projection::lemma_prefixed_parts(self.2.items(), self.3.items().then_list(self.4.items().then_list(self.5.items().then_list(self.6.items().then_list(self.7.items().then_list(self.8.items().then_list(self.9.items().then_list(self.10.items()))))))), prefix@, items2, items3.then_list(items4.then_list(items5.then_list(items6.then_list(items7.then_list(items8.then_list(items9.then_list(items10))))))));
            crate::projection::lemma_prefixed_parts(self.1.items(), self.2.items().then_list(self.3.items().then_list(self.4.items().then_list(self.5.items().then_list(self.6.items().then_list(self.7.items().then_list(self.8.items().then_list(self.9.items().then_list(self.10.items())))))))), prefix@, items1, items2.then_list(items3.then_list(items4.then_list(items5.then_list(items6.then_list(items7.then_list(items8.then_list(items9.then_list(items10)))))))));
            crate::projection::lemma_prefixed_parts(self.0.items(), self.1.items().then_list(self.2.items().then_list(self.3.items().then_list(self.4.items().then_list(self.5.items().then_list(self.6.items().then_list(self.7.items().then_list(self.8.items().then_list(self.9.items().then_list(self.10.items()))))))))), prefix@, items0, items1.then_list(items2.then_list(items3.then_list(items4.then_list(items5.then_list(items6.then_list(items7.then_list(items8.then_list(items9.then_list(items10))))))))));
        }
        items0.append(items1.append(items2.append(items3.append(items4.append(items5.append(items6.append(items7.append(items8.append(items9.append(items10))))))))))
    }

    proof fn lemma_projection_params<D: Dialect>(&self, dialect: D, bare: bool, lead: Seq<char>) {
        let lead1 = if self.0.items() is Nil { lead } else { ", "@ };
        self.0.lemma_projection_params(dialect, bare, lead);
        crate::projection::lemma_projection_parts(dialect, bare, lead, self.0.items(), self.1.items().then_list(self.2.items().then_list(self.3.items().then_list(self.4.items().then_list(self.5.items().then_list(self.6.items().then_list(self.7.items().then_list(self.8.items().then_list(self.9.items().then_list(self.10.items()))))))))));
        let lead2 = if self.1.items() is Nil { lead1 } else { ", "@ };
        self.1.lemma_projection_params(dialect, bare, lead1);
        crate::projection::lemma_projection_parts(dialect, bare, lead1, self.1.items(), self.2.items().then_list(self.3.items().then_list(self.4.items().then_list(self.5.items().then_list(self.6.items().then_list(self.7.items().then_list(self.8.items().then_list(self.9.items().then_list(self.10.items())))))))));
        let lead3 = if self.2.items() is Nil { lead2 } else { ", "@ };
        self.2.lemma_projection_params(dialect, bare, lead2);
        crate::projection::lemma_projection_parts(dialect, bare, lead2, self.2.items(), self.3.items().then_list(self.4.items().then_list(self.5.items().then_list(self.6.items().then_list(self.7.items().then_list(self.8.items().then_list(self.9.items().then_list(self.10.items()))))))));
        let lead4 = if self.3.items() is Nil { lead3 } else { ", "@ };
        self.3.lemma_projection_params(dialect, bare, lead3);
        crate::projection::lemma_projection_parts(dialect, bare, lead3, self.3.items(), self.4.items().then_list(self.5.items().then_list(self.6.items().then_list(self.7.items().then_list(self.8.items().then_list(self.9.items().then_list(self.10.items())))))));
        let lead5 = if self.4.items() is Nil { lead4 } else { ", "@ };
        self.4.lemma_projection_params(dialect, bare, lead4);
        crate::projection::lemma_projection_parts(dialect, bare, lead4, self.4.items(), self.5.items().then_list(self.6.items().then_list(self.7.items().then_list(self.8.items().then_list(self.9.items().then_list(self.10.items()))))));
        let lead6 = if self.5.items() is Nil { lead5 } else { ", "@ };
        self.5.lemma_projection_params(dialect, bare, lead5);
        crate::projection::lemma_projection_parts(dialect, bare, lead5, self.5.items(), self.6.items().then_list(self.7.items().then_list(self.8.items().then_list(self.9.items().then_list(self.10.items())))));
        let lead7 = if self.6.items() is Nil { lead6 } else { ", "@ };
        self.6.lemma_projection_params(dialect, bare, lead6);
        crate::projection::lemma_projection_parts(dialect, bare, lead6, self.6.items(), self.7.items().then_list(self.8.items().then_list(self.9.items().then_list(self.10.items()))));
        let lead8 = if self.7.items() is Nil { lead7 } else { ", "@ };
        self.7.lemma_projection_params(dialect, bare, lead7);
        crate::projection::lemma_projection_parts(dialect, bare, lead7, self.7.items(), self.8.items().then_list(self.9.items().then_list(self.10.items())));
        let lead9 = if self.8.items() is Nil { lead8 } else { ", "@ };
        self.8.lemma_projection_params(dialect, bare, lead8);
        crate::projection::lemma_projection_parts(dialect, bare, lead8, self.8.items(), self.9.items().then_list(self.10.items()));
        let lead10 = if self.9.items() is Nil { lead9 } else { ", "@ };
        self.9.lemma_projection_params(dialect, bare, lead9);
        crate::projection::lemma_projection_parts(dialect, bare, lead9, self.9.items(), self.10.items());
        self.10.lemma_projection_params(dialect, bare, lead10);
        <T0::Params as HAppend<<T1::Params as HAppend<<T2::Params as HAppend<<T3::Params as HAppend<<T4::Params as HAppend<<T5::Params as HAppend<<T6::Params as HAppend<<T7::Params as HAppend<<T8::Params as HAppend<<T9::Params as HAppend<T10::Params>>::Output>>::Output>>::Output>>::Output>>::Output>>::Output>>::Output>>::Output>>::Output>>::lemma_append_width();
        <T1::Params as HAppend<<T2::Params as HAppend<<T3::Params as HAppend<<T4::Params as HAppend<<T5::Params as HAppend<<T6::Params as HAppend<<T7::Params as HAppend<<T8::Params as HAppend<<T9::Params as HAppend<T10::Params>>::Output>>::Output>>::Output>>::Output>>::Output>>::Output>>::Output>>::Output>>::lemma_append_width();
        <T2::Params as HAppend<<T3::Params as HAppend<<T4::Params as HAppend<<T5::Params as HAppend<<T6::Params as HAppend<<T7::Params as HAppend<<T8::Params as HAppend<<T9::Params as HAppend<T10::Params>>::Output>>::Output>>::Output>>::Output>>::Output>>::Output>>::Output>>::lemma_append_width();
        <T3::Params as HAppend<<T4::Params as HAppend<<T5::Params as HAppend<<T6::Params as HAppend<<T7::Params as HAppend<<T8::Params as HAppend<<T9::Params as HAppend<T10::Params>>::Output>>::Output>>::Output>>::Output>>::Output>>::Output>>::lemma_append_width();
        <T4::Params as HAppend<<T5::Params as HAppend<<T6::Params as HAppend<<T7::Params as HAppend<<T8::Params as HAppend<<T9::Params as HAppend<T10::Params>>::Output>>::Output>>::Output>>::Output>>::Output>>::lemma_append_width();
        <T5::Params as HAppend<<T6::Params as HAppend<<T7::Params as HAppend<<T8::Params as HAppend<<T9::Params as HAppend<T10::Params>>::Output>>::Output>>::Output>>::Output>>::lemma_append_width();
        <T6::Params as HAppend<<T7::Params as HAppend<<T8::Params as HAppend<<T9::Params as HAppend<T10::Params>>::Output>>::Output>>::Output>>::lemma_append_width();
        <T7::Params as HAppend<<T8::Params as HAppend<<T9::Params as HAppend<T10::Params>>::Output>>::Output>>::lemma_append_width();
        <T8::Params as HAppend<<T9::Params as HAppend<T10::Params>>::Output>>::lemma_append_width();
        <T9::Params as HAppend<T10::Params>>::lemma_append_width();
    }

    proof fn lemma_projection_plain(&self) {
        <T0::Params as HAppend<<T1::Params as HAppend<<T2::Params as HAppend<<T3::Params as HAppend<<T4::Params as HAppend<<T5::Params as HAppend<<T6::Params as HAppend<<T7::Params as HAppend<<T8::Params as HAppend<<T9::Params as HAppend<T10::Params>>::Output>>::Output>>::Output>>::Output>>::Output>>::Output>>::Output>>::Output>>::Output>>::lemma_append_width();
        <T1::Params as HAppend<<T2::Params as HAppend<<T3::Params as HAppend<<T4::Params as HAppend<<T5::Params as HAppend<<T6::Params as HAppend<<T7::Params as HAppend<<T8::Params as HAppend<<T9::Params as HAppend<T10::Params>>::Output>>::Output>>::Output>>::Output>>::Output>>::Output>>::Output>>::Output>>::lemma_append_width();
        <T2::Params as HAppend<<T3::Params as HAppend<<T4::Params as HAppend<<T5::Params as HAppend<<T6::Params as HAppend<<T7::Params as HAppend<<T8::Params as HAppend<<T9::Params as HAppend<T10::Params>>::Output>>::Output>>::Output>>::Output>>::Output>>::Output>>::Output>>::lemma_append_width();
        <T3::Params as HAppend<<T4::Params as HAppend<<T5::Params as HAppend<<T6::Params as HAppend<<T7::Params as HAppend<<T8::Params as HAppend<<T9::Params as HAppend<T10::Params>>::Output>>::Output>>::Output>>::Output>>::Output>>::Output>>::lemma_append_width();
        <T4::Params as HAppend<<T5::Params as HAppend<<T6::Params as HAppend<<T7::Params as HAppend<<T8::Params as HAppend<<T9::Params as HAppend<T10::Params>>::Output>>::Output>>::Output>>::Output>>::Output>>::lemma_append_width();
        <T5::Params as HAppend<<T6::Params as HAppend<<T7::Params as HAppend<<T8::Params as HAppend<<T9::Params as HAppend<T10::Params>>::Output>>::Output>>::Output>>::Output>>::lemma_append_width();
        <T6::Params as HAppend<<T7::Params as HAppend<<T8::Params as HAppend<<T9::Params as HAppend<T10::Params>>::Output>>::Output>>::Output>>::lemma_append_width();
        <T7::Params as HAppend<<T8::Params as HAppend<<T9::Params as HAppend<T10::Params>>::Output>>::Output>>::lemma_append_width();
        <T8::Params as HAppend<<T9::Params as HAppend<T10::Params>>::Output>>::lemma_append_width();
        <T9::Params as HAppend<T10::Params>>::lemma_append_width();
        self.0.lemma_projection_plain();
        self.1.lemma_projection_plain();
        self.2.lemma_projection_plain();
        self.3.lemma_projection_plain();
        self.4.lemma_projection_plain();
        self.5.lemma_projection_plain();
        self.6.lemma_projection_plain();
        self.7.lemma_projection_plain();
        self.8.lemma_projection_plain();
        self.9.lemma_projection_plain();
        self.10.lemma_projection_plain();
        crate::projection::lemma_plain_parts(self.9.items(), self.10.items());
        crate::projection::lemma_plain_parts(self.8.items(), self.9.items().then_list(self.10.items()));
        crate::projection::lemma_plain_parts(self.7.items(), self.8.items().then_list(self.9.items().then_list(self.10.items())));
        crate::projection::lemma_plain_parts(self.6.items(), self.7.items().then_list(self.8.items().then_list(self.9.items().then_list(self.10.items()))));
        crate::projection::lemma_plain_parts(self.5.items(), self.6.items().then_list(self.7.items().then_list(self.8.items().then_list(self.9.items().then_list(self.10.items())))));
        crate::projection::lemma_plain_parts(self.4.items(), self.5.items().then_list(self.6.items().then_list(self.7.items().then_list(self.8.items().then_list(self.9.items().then_list(self.10.items()))))));
        crate::projection::lemma_plain_parts(self.3.items(), self.4.items().then_list(self.5.items().then_list(self.6.items().then_list(self.7.items().then_list(self.8.items().then_list(self.9.items().then_list(self.10.items())))))));
        crate::projection::lemma_plain_parts(self.2.items(), self.3.items().then_list(self.4.items().then_list(self.5.items().then_list(self.6.items().then_list(self.7.items().then_list(self.8.items().then_list(self.9.items().then_list(self.10.items()))))))));
        crate::projection::lemma_plain_parts(self.1.items(), self.2.items().then_list(self.3.items().then_list(self.4.items().then_list(self.5.items().then_list(self.6.items().then_list(self.7.items().then_list(self.8.items().then_list(self.9.items().then_list(self.10.items())))))))));
        crate::projection::lemma_plain_parts(self.0.items(), self.1.items().then_list(self.2.items().then_list(self.3.items().then_list(self.4.items().then_list(self.5.items().then_list(self.6.items().then_list(self.7.items().then_list(self.8.items().then_list(self.9.items().then_list(self.10.items()))))))))));
    }
}

impl<T0: Projectable, T1: Projectable, T2: Projectable, T3: Projectable, T4: Projectable, T5: Projectable, T6: Projectable, T7: Projectable, T8: Projectable, T9: Projectable, T10: Projectable, T11: Projectable> Projectable for (T0, T1, T2, T3, T4, T5, T6, T7, T8, T9, T10, T11) {
    type Rebound<'scope> = (T0::Rebound<'scope>, T1::Rebound<'scope>, T2::Rebound<'scope>, T3::Rebound<'scope>, T4::Rebound<'scope>, T5::Rebound<'scope>, T6::Rebound<'scope>, T7::Rebound<'scope>, T8::Rebound<'scope>, T9::Rebound<'scope>, T10::Rebound<'scope>, T11::Rebound<'scope>);

    open spec fn rebound<'scope>(&self, alias: SourceAlias) -> Self::Rebound<'scope> {
        (self.0.rebound(alias), self.1.rebound(alias), self.2.rebound(alias), self.3.rebound(alias), self.4.rebound(alias), self.5.rebound(alias), self.6.rebound(alias), self.7.rebound(alias), self.8.rebound(alias), self.9.rebound(alias), self.10.rebound(alias), self.11.rebound(alias))
    }

    open spec fn rebinds_with_prefix<'scope>(
        &self,
        alias: SourceAlias,
        prefix: Seq<char>,
        rebound: Self::Rebound<'scope>,
    ) -> bool {
        &&& self.0.rebinds_with_prefix(alias, prefix, rebound.0)
        &&& self.1.rebinds_with_prefix(alias, prefix, rebound.1)
        &&& self.2.rebinds_with_prefix(alias, prefix, rebound.2)
        &&& self.3.rebinds_with_prefix(alias, prefix, rebound.3)
        &&& self.4.rebinds_with_prefix(alias, prefix, rebound.4)
        &&& self.5.rebinds_with_prefix(alias, prefix, rebound.5)
        &&& self.6.rebinds_with_prefix(alias, prefix, rebound.6)
        &&& self.7.rebinds_with_prefix(alias, prefix, rebound.7)
        &&& self.8.rebinds_with_prefix(alias, prefix, rebound.8)
        &&& self.9.rebinds_with_prefix(alias, prefix, rebound.9)
        &&& self.10.rebinds_with_prefix(alias, prefix, rebound.10)
        &&& self.11.rebinds_with_prefix(alias, prefix, rebound.11)
    }

    fn re_alias<'scope>(&self, alias: SourceAlias) -> (rebound: Self::Rebound<'scope>) {
        (self.0.re_alias(alias), self.1.re_alias(alias), self.2.re_alias(alias), self.3.re_alias(alias), self.4.re_alias(alias), self.5.re_alias(alias), self.6.re_alias(alias), self.7.re_alias(alias), self.8.re_alias(alias), self.9.re_alias(alias), self.10.re_alias(alias), self.11.re_alias(alias))
    }

    fn re_alias_with_prefix<'scope>(&self, alias: SourceAlias, prefix: &str) -> (rebound:
        Self::Rebound<'scope>) {
        (self.0.re_alias_with_prefix(alias, prefix), self.1.re_alias_with_prefix(alias, prefix), self.2.re_alias_with_prefix(alias, prefix), self.3.re_alias_with_prefix(alias, prefix), self.4.re_alias_with_prefix(alias, prefix), self.5.re_alias_with_prefix(alias, prefix), self.6.re_alias_with_prefix(alias, prefix), self.7.re_alias_with_prefix(alias, prefix), self.8.re_alias_with_prefix(alias, prefix), self.9.re_alias_with_prefix(alias, prefix), self.10.re_alias_with_prefix(alias, prefix), self.11.re_alias_with_prefix(alias, prefix))
    }
}

impl<T0: Duplicate, T1: Duplicate, T2: Duplicate, T3: Duplicate, T4: Duplicate, T5: Duplicate, T6: Duplicate, T7: Duplicate, T8: Duplicate, T9: Duplicate, T10: Duplicate, T11: Duplicate> Duplicate for (T0, T1, T2, T3, T4, T5, T6, T7, T8, T9, T10, T11) {
    fn duplicate(&self) -> (copy: Self) {
        (self.0.duplicate(), self.1.duplicate(), self.2.duplicate(), self.3.duplicate(), self.4.duplicate(), self.5.duplicate(), self.6.duplicate(), self.7.duplicate(), self.8.duplicate(), self.9.duplicate(), self.10.duplicate(), self.11.duplicate())
    }
}

impl<T0: ProjectionShape, T1: ProjectionShape, T2: ProjectionShape, T3: ProjectionShape, T4: ProjectionShape, T5: ProjectionShape, T6: ProjectionShape, T7: ProjectionShape, T8: ProjectionShape, T9: ProjectionShape, T10: ProjectionShape, T11: ProjectionShape> ProjectionShape for (T0, T1, T2, T3, T4, T5, T6, T7, T8, T9, T10, T11) {
    type Exprs<'scope> = (T0::Exprs<'scope>, T1::Exprs<'scope>, T2::Exprs<'scope>, T3::Exprs<'scope>, T4::Exprs<'scope>, T5::Exprs<'scope>, T6::Exprs<'scope>, T7::Exprs<'scope>, T8::Exprs<'scope>, T9::Exprs<'scope>, T10::Exprs<'scope>, T11::Exprs<'scope>);

    type ReboundExprs<'scope> = (T0::ReboundExprs<'scope>, T1::ReboundExprs<'scope>, T2::ReboundExprs<'scope>, T3::ReboundExprs<'scope>, T4::ReboundExprs<'scope>, T5::ReboundExprs<'scope>, T6::ReboundExprs<'scope>, T7::ReboundExprs<'scope>, T8::ReboundExprs<'scope>, T9::ReboundExprs<'scope>, T10::ReboundExprs<'scope>, T11::ReboundExprs<'scope>);

    type Row = (T0::Row, T1::Row, T2::Row, T3::Row, T4::Row, T5::Row, T6::Row, T7::Row, T8::Row, T9::Row, T10::Row, T11::Row);

    open spec fn shape_exprs<'scope>(alias: SourceAlias) -> Self::Exprs<'scope> {
        (T0::shape_exprs(alias), T1::shape_exprs(alias), T2::shape_exprs(alias), T3::shape_exprs(alias), T4::shape_exprs(alias), T5::shape_exprs(alias), T6::shape_exprs(alias), T7::shape_exprs(alias), T8::shape_exprs(alias), T9::shape_exprs(alias), T10::shape_exprs(alias), T11::shape_exprs(alias))
    }

    open spec fn shape_rebound<'scope>(alias: SourceAlias) -> Self::ReboundExprs<'scope> {
        (T0::shape_rebound(alias), T1::shape_rebound(alias), T2::shape_rebound(alias), T3::shape_rebound(alias), T4::shape_rebound(alias), T5::shape_rebound(alias), T6::shape_rebound(alias), T7::shape_rebound(alias), T8::shape_rebound(alias), T9::shape_rebound(alias), T10::shape_rebound(alias), T11::shape_rebound(alias))
    }

    fn exprs<'scope>(alias: SourceAlias) -> (exprs: Self::Exprs<'scope>) {
        (T0::exprs(alias), T1::exprs(alias), T2::exprs(alias), T3::exprs(alias), T4::exprs(alias), T5::exprs(alias), T6::exprs(alias), T7::exprs(alias), T8::exprs(alias), T9::exprs(alias), T10::exprs(alias), T11::exprs(alias))
    }

    fn rebound_exprs<'scope>(alias: SourceAlias) -> (exprs: Self::ReboundExprs<'scope>) {
        (T0::rebound_exprs(alias), T1::rebound_exprs(alias), T2::rebound_exprs(alias), T3::rebound_exprs(alias), T4::rebound_exprs(alias), T5::rebound_exprs(alias), T6::rebound_exprs(alias), T7::rebound_exprs(alias), T8::rebound_exprs(alias), T9::rebound_exprs(alias), T10::rebound_exprs(alias), T11::rebound_exprs(alias))
    }
}

impl<T0: ProjectionParams, T1: ProjectionParams, T2: ProjectionParams, T3: ProjectionParams, T4: ProjectionParams, T5: ProjectionParams, T6: ProjectionParams, T7: ProjectionParams, T8: ProjectionParams, T9: ProjectionParams, T10: ProjectionParams, T11: ProjectionParams> ProjectionParams for (T0, T1, T2, T3, T4, T5, T6, T7, T8, T9, T10, T11) where
    T10::Params: HAppend<T11::Params>,
    T9::Params: HAppend<<T10::Params as HAppend<T11::Params>>::Output>,
    T8::Params: HAppend<<T9::Params as HAppend<<T10::Params as HAppend<T11::Params>>::Output>>::Output>,
    T7::Params: HAppend<<T8::Params as HAppend<<T9::Params as HAppend<<T10::Params as HAppend<T11::Params>>::Output>>::Output>>::Output>,
    T6::Params: HAppend<<T7::Params as HAppend<<T8::Params as HAppend<<T9::Params as HAppend<<T10::Params as HAppend<T11::Params>>::Output>>::Output>>::Output>>::Output>,
    T5::Params: HAppend<<T6::Params as HAppend<<T7::Params as HAppend<<T8::Params as HAppend<<T9::Params as HAppend<<T10::Params as HAppend<T11::Params>>::Output>>::Output>>::Output>>::Output>>::Output>,
    T4::Params: HAppend<<T5::Params as HAppend<<T6::Params as HAppend<<T7::Params as HAppend<<T8::Params as HAppend<<T9::Params as HAppend<<T10::Params as HAppend<T11::Params>>::Output>>::Output>>::Output>>::Output>>::Output>>::Output>,
    T3::Params: HAppend<<T4::Params as HAppend<<T5::Params as HAppend<<T6::Params as HAppend<<T7::Params as HAppend<<T8::Params as HAppend<<T9::Params as HAppend<<T10::Params as HAppend<T11::Params>>::Output>>::Output>>::Output>>::Output>>::Output>>::Output>>::Output>,
    T2::Params: HAppend<<T3::Params as HAppend<<T4::Params as HAppend<<T5::Params as HAppend<<T6::Params as HAppend<<T7::Params as HAppend<<T8::Params as HAppend<<T9::Params as HAppend<<T10::Params as HAppend<T11::Params>>::Output>>::Output>>::Output>>::Output>>::Output>>::Output>>::Output>>::Output>,
    T1::Params: HAppend<<T2::Params as HAppend<<T3::Params as HAppend<<T4::Params as HAppend<<T5::Params as HAppend<<T6::Params as HAppend<<T7::Params as HAppend<<T8::Params as HAppend<<T9::Params as HAppend<<T10::Params as HAppend<T11::Params>>::Output>>::Output>>::Output>>::Output>>::Output>>::Output>>::Output>>::Output>>::Output>,
    T0::Params: HAppend<<T1::Params as HAppend<<T2::Params as HAppend<<T3::Params as HAppend<<T4::Params as HAppend<<T5::Params as HAppend<<T6::Params as HAppend<<T7::Params as HAppend<<T8::Params as HAppend<<T9::Params as HAppend<<T10::Params as HAppend<T11::Params>>::Output>>::Output>>::Output>>::Output>>::Output>>::Output>>::Output>>::Output>>::Output>>::Output>,
 {
    type Params = <T0::Params as HAppend<<T1::Params as HAppend<<T2::Params as HAppend<<T3::Params as HAppend<<T4::Params as HAppend<<T5::Params as HAppend<<T6::Params as HAppend<<T7::Params as HAppend<<T8::Params as HAppend<<T9::Params as HAppend<<T10::Params as HAppend<T11::Params>>::Output>>::Output>>::Output>>::Output>>::Output>>::Output>>::Output>>::Output>>::Output>>::Output>>::Output;
}

impl<T0: ProjectionClass, T1: ProjectionClass<Class = T0::Class>, T2: ProjectionClass<Class = T0::Class>, T3: ProjectionClass<Class = T0::Class>, T4: ProjectionClass<Class = T0::Class>, T5: ProjectionClass<Class = T0::Class>, T6: ProjectionClass<Class = T0::Class>, T7: ProjectionClass<Class = T0::Class>, T8: ProjectionClass<Class = T0::Class>, T9: ProjectionClass<Class = T0::Class>, T10: ProjectionClass<Class = T0::Class>, T11: ProjectionClass<Class = T0::Class>> ProjectionClass for (T0, T1, T2, T3, T4, T5, T6, T7, T8, T9, T10, T11) {
    type Class = T0::Class;
}

impl<T0: ReturnableProjection, T1: ReturnableProjection, T2: ReturnableProjection, T3: ReturnableProjection, T4: ReturnableProjection, T5: ReturnableProjection, T6: ReturnableProjection, T7: ReturnableProjection, T8: ReturnableProjection, T9: ReturnableProjection, T10: ReturnableProjection, T11: ReturnableProjection> ReturnableProjection for (T0, T1, T2, T3, T4, T5, T6, T7, T8, T9, T10, T11) {

}

impl<T0: RenderProjectable<B>, T1: RenderProjectable<B>, T2: RenderProjectable<B>, T3: RenderProjectable<B>, T4: RenderProjectable<B>, T5: RenderProjectable<B>, T6: RenderProjectable<B>, T7: RenderProjectable<B>, T8: RenderProjectable<B>, T9: RenderProjectable<B>, T10: RenderProjectable<B>, T11: RenderProjectable<B>, B: Backend> RenderProjectable<B> for (T0, T1, T2, T3, T4, T5, T6, T7, T8, T9, T10, T11) where
    T10::Params: HAppend<T11::Params>,
    T9::Params: HAppend<<T10::Params as HAppend<T11::Params>>::Output>,
    T8::Params: HAppend<<T9::Params as HAppend<<T10::Params as HAppend<T11::Params>>::Output>>::Output>,
    T7::Params: HAppend<<T8::Params as HAppend<<T9::Params as HAppend<<T10::Params as HAppend<T11::Params>>::Output>>::Output>>::Output>,
    T6::Params: HAppend<<T7::Params as HAppend<<T8::Params as HAppend<<T9::Params as HAppend<<T10::Params as HAppend<T11::Params>>::Output>>::Output>>::Output>>::Output>,
    T5::Params: HAppend<<T6::Params as HAppend<<T7::Params as HAppend<<T8::Params as HAppend<<T9::Params as HAppend<<T10::Params as HAppend<T11::Params>>::Output>>::Output>>::Output>>::Output>>::Output>,
    T4::Params: HAppend<<T5::Params as HAppend<<T6::Params as HAppend<<T7::Params as HAppend<<T8::Params as HAppend<<T9::Params as HAppend<<T10::Params as HAppend<T11::Params>>::Output>>::Output>>::Output>>::Output>>::Output>>::Output>,
    T3::Params: HAppend<<T4::Params as HAppend<<T5::Params as HAppend<<T6::Params as HAppend<<T7::Params as HAppend<<T8::Params as HAppend<<T9::Params as HAppend<<T10::Params as HAppend<T11::Params>>::Output>>::Output>>::Output>>::Output>>::Output>>::Output>>::Output>,
    T2::Params: HAppend<<T3::Params as HAppend<<T4::Params as HAppend<<T5::Params as HAppend<<T6::Params as HAppend<<T7::Params as HAppend<<T8::Params as HAppend<<T9::Params as HAppend<<T10::Params as HAppend<T11::Params>>::Output>>::Output>>::Output>>::Output>>::Output>>::Output>>::Output>>::Output>,
    T1::Params: HAppend<<T2::Params as HAppend<<T3::Params as HAppend<<T4::Params as HAppend<<T5::Params as HAppend<<T6::Params as HAppend<<T7::Params as HAppend<<T8::Params as HAppend<<T9::Params as HAppend<<T10::Params as HAppend<T11::Params>>::Output>>::Output>>::Output>>::Output>>::Output>>::Output>>::Output>>::Output>>::Output>,
    T0::Params: HAppend<<T1::Params as HAppend<<T2::Params as HAppend<<T3::Params as HAppend<<T4::Params as HAppend<<T5::Params as HAppend<<T6::Params as HAppend<<T7::Params as HAppend<<T8::Params as HAppend<<T9::Params as HAppend<<T10::Params as HAppend<T11::Params>>::Output>>::Output>>::Output>>::Output>>::Output>>::Output>>::Output>>::Output>>::Output>>::Output>,
 {
    open spec fn items(&self) -> List<ProjectionTree<Bound<B>>> {
        self.0.items().then_list(self.1.items().then_list(self.2.items().then_list(self.3.items().then_list(self.4.items().then_list(self.5.items().then_list(self.6.items().then_list(self.7.items().then_list(self.8.items().then_list(self.9.items().then_list(self.10.items().then_list(self.11.items())))))))))))
    }

    fn lower_projection(&self) -> (items: List<ProjectionTree<Bound<B>>>) {
        self.0.lower_projection().append(self.1.lower_projection().append(self.2.lower_projection().append(self.3.lower_projection().append(self.4.lower_projection().append(self.5.lower_projection().append(self.6.lower_projection().append(self.7.lower_projection().append(self.8.lower_projection().append(self.9.lower_projection().append(self.10.lower_projection().append(self.11.lower_projection())))))))))))
    }

    fn lower_projection_with_prefix(&self, prefix: &str) -> (items: List<
        ProjectionTree<Bound<B>>,
    >) {
        let items0 = self.0.lower_projection_with_prefix(prefix);
        let items1 = self.1.lower_projection_with_prefix(prefix);
        let items2 = self.2.lower_projection_with_prefix(prefix);
        let items3 = self.3.lower_projection_with_prefix(prefix);
        let items4 = self.4.lower_projection_with_prefix(prefix);
        let items5 = self.5.lower_projection_with_prefix(prefix);
        let items6 = self.6.lower_projection_with_prefix(prefix);
        let items7 = self.7.lower_projection_with_prefix(prefix);
        let items8 = self.8.lower_projection_with_prefix(prefix);
        let items9 = self.9.lower_projection_with_prefix(prefix);
        let items10 = self.10.lower_projection_with_prefix(prefix);
        let items11 = self.11.lower_projection_with_prefix(prefix);
        proof {
            crate::projection::lemma_prefixed_parts(self.10.items(), self.11.items(), prefix@, items10, items11);
            crate::projection::lemma_prefixed_parts(self.9.items(), self.10.items().then_list(self.11.items()), prefix@, items9, items10.then_list(items11));
            crate::projection::lemma_prefixed_parts(self.8.items(), self.9.items().then_list(self.10.items().then_list(self.11.items())), prefix@, items8, items9.then_list(items10.then_list(items11)));
            crate::projection::lemma_prefixed_parts(self.7.items(), self.8.items().then_list(self.9.items().then_list(self.10.items().then_list(self.11.items()))), prefix@, items7, items8.then_list(items9.then_list(items10.then_list(items11))));
            crate::projection::lemma_prefixed_parts(self.6.items(), self.7.items().then_list(self.8.items().then_list(self.9.items().then_list(self.10.items().then_list(self.11.items())))), prefix@, items6, items7.then_list(items8.then_list(items9.then_list(items10.then_list(items11)))));
            crate::projection::lemma_prefixed_parts(self.5.items(), self.6.items().then_list(self.7.items().then_list(self.8.items().then_list(self.9.items().then_list(self.10.items().then_list(self.11.items()))))), prefix@, items5, items6.then_list(items7.then_list(items8.then_list(items9.then_list(items10.then_list(items11))))));
            crate::projection::lemma_prefixed_parts(self.4.items(), self.5.items().then_list(self.6.items().then_list(self.7.items().then_list(self.8.items().then_list(self.9.items().then_list(self.10.items().then_list(self.11.items())))))), prefix@, items4, items5.then_list(items6.then_list(items7.then_list(items8.then_list(items9.then_list(items10.then_list(items11)))))));
            crate::projection::lemma_prefixed_parts(self.3.items(), self.4.items().then_list(self.5.items().then_list(self.6.items().then_list(self.7.items().then_list(self.8.items().then_list(self.9.items().then_list(self.10.items().then_list(self.11.items()))))))), prefix@, items3, items4.then_list(items5.then_list(items6.then_list(items7.then_list(items8.then_list(items9.then_list(items10.then_list(items11))))))));
            crate::projection::lemma_prefixed_parts(self.2.items(), self.3.items().then_list(self.4.items().then_list(self.5.items().then_list(self.6.items().then_list(self.7.items().then_list(self.8.items().then_list(self.9.items().then_list(self.10.items().then_list(self.11.items())))))))), prefix@, items2, items3.then_list(items4.then_list(items5.then_list(items6.then_list(items7.then_list(items8.then_list(items9.then_list(items10.then_list(items11)))))))));
            crate::projection::lemma_prefixed_parts(self.1.items(), self.2.items().then_list(self.3.items().then_list(self.4.items().then_list(self.5.items().then_list(self.6.items().then_list(self.7.items().then_list(self.8.items().then_list(self.9.items().then_list(self.10.items().then_list(self.11.items()))))))))), prefix@, items1, items2.then_list(items3.then_list(items4.then_list(items5.then_list(items6.then_list(items7.then_list(items8.then_list(items9.then_list(items10.then_list(items11))))))))));
            crate::projection::lemma_prefixed_parts(self.0.items(), self.1.items().then_list(self.2.items().then_list(self.3.items().then_list(self.4.items().then_list(self.5.items().then_list(self.6.items().then_list(self.7.items().then_list(self.8.items().then_list(self.9.items().then_list(self.10.items().then_list(self.11.items())))))))))), prefix@, items0, items1.then_list(items2.then_list(items3.then_list(items4.then_list(items5.then_list(items6.then_list(items7.then_list(items8.then_list(items9.then_list(items10.then_list(items11)))))))))));
        }
        items0.append(items1.append(items2.append(items3.append(items4.append(items5.append(items6.append(items7.append(items8.append(items9.append(items10.append(items11)))))))))))
    }

    proof fn lemma_projection_params<D: Dialect>(&self, dialect: D, bare: bool, lead: Seq<char>) {
        let lead1 = if self.0.items() is Nil { lead } else { ", "@ };
        self.0.lemma_projection_params(dialect, bare, lead);
        crate::projection::lemma_projection_parts(dialect, bare, lead, self.0.items(), self.1.items().then_list(self.2.items().then_list(self.3.items().then_list(self.4.items().then_list(self.5.items().then_list(self.6.items().then_list(self.7.items().then_list(self.8.items().then_list(self.9.items().then_list(self.10.items().then_list(self.11.items())))))))))));
        let lead2 = if self.1.items() is Nil { lead1 } else { ", "@ };
        self.1.lemma_projection_params(dialect, bare, lead1);
        crate::projection::lemma_projection_parts(dialect, bare, lead1, self.1.items(), self.2.items().then_list(self.3.items().then_list(self.4.items().then_list(self.5.items().then_list(self.6.items().then_list(self.7.items().then_list(self.8.items().then_list(self.9.items().then_list(self.10.items().then_list(self.11.items()))))))))));
        let lead3 = if self.2.items() is Nil { lead2 } else { ", "@ };
        self.2.lemma_projection_params(dialect, bare, lead2);
        crate::projection::lemma_projection_parts(dialect, bare, lead2, self.2.items(), self.3.items().then_list(self.4.items().then_list(self.5.items().then_list(self.6.items().then_list(self.7.items().then_list(self.8.items().then_list(self.9.items().then_list(self.10.items().then_list(self.11.items())))))))));
        let lead4 = if self.3.items() is Nil { lead3 } else { ", "@ };
        self.3.lemma_projection_params(dialect, bare, lead3);
        crate::projection::lemma_projection_parts(dialect, bare, lead3, self.3.items(), self.4.items().then_list(self.5.items().then_list(self.6.items().then_list(self.7.items().then_list(self.8.items().then_list(self.9.items().then_list(self.10.items().then_list(self.11.items()))))))));
        let lead5 = if self.4.items() is Nil { lead4 } else { ", "@ };
        self.4.lemma_projection_params(dialect, bare, lead4);
        crate::projection::lemma_projection_parts(dialect, bare, lead4, self.4.items(), self.5.items().then_list(self.6.items().then_list(self.7.items().then_list(self.8.items().then_list(self.9.items().then_list(self.10.items().then_list(self.11.items())))))));
        let lead6 = if self.5.items() is Nil { lead5 } else { ", "@ };
        self.5.lemma_projection_params(dialect, bare, lead5);
        crate::projection::lemma_projection_parts(dialect, bare, lead5, self.5.items(), self.6.items().then_list(self.7.items().then_list(self.8.items().then_list(self.9.items().then_list(self.10.items().then_list(self.11.items()))))));
        let lead7 = if self.6.items() is Nil { lead6 } else { ", "@ };
        self.6.lemma_projection_params(dialect, bare, lead6);
        crate::projection::lemma_projection_parts(dialect, bare, lead6, self.6.items(), self.7.items().then_list(self.8.items().then_list(self.9.items().then_list(self.10.items().then_list(self.11.items())))));
        let lead8 = if self.7.items() is Nil { lead7 } else { ", "@ };
        self.7.lemma_projection_params(dialect, bare, lead7);
        crate::projection::lemma_projection_parts(dialect, bare, lead7, self.7.items(), self.8.items().then_list(self.9.items().then_list(self.10.items().then_list(self.11.items()))));
        let lead9 = if self.8.items() is Nil { lead8 } else { ", "@ };
        self.8.lemma_projection_params(dialect, bare, lead8);
        crate::projection::lemma_projection_parts(dialect, bare, lead8, self.8.items(), self.9.items().then_list(self.10.items().then_list(self.11.items())));
        let lead10 = if self.9.items() is Nil { lead9 } else { ", "@ };
        self.9.lemma_projection_params(dialect, bare, lead9);
        crate::projection::lemma_projection_parts(dialect, bare, lead9, self.9.items(), self.10.items().then_list(self.11.items()));
        let lead11 = if self.10.items() is Nil { lead10 } else { ", "@ };
        self.10.lemma_projection_params(dialect, bare, lead10);
        crate::projection::lemma_projection_parts(dialect, bare, lead10, self.10.items(), self.11.items());
        self.11.lemma_projection_params(dialect, bare, lead11);
        <T0::Params as HAppend<<T1::Params as HAppend<<T2::Params as HAppend<<T3::Params as HAppend<<T4::Params as HAppend<<T5::Params as HAppend<<T6::Params as HAppend<<T7::Params as HAppend<<T8::Params as HAppend<<T9::Params as HAppend<<T10::Params as HAppend<T11::Params>>::Output>>::Output>>::Output>>::Output>>::Output>>::Output>>::Output>>::Output>>::Output>>::Output>>::lemma_append_width();
        <T1::Params as HAppend<<T2::Params as HAppend<<T3::Params as HAppend<<T4::Params as HAppend<<T5::Params as HAppend<<T6::Params as HAppend<<T7::Params as HAppend<<T8::Params as HAppend<<T9::Params as HAppend<<T10::Params as HAppend<T11::Params>>::Output>>::Output>>::Output>>::Output>>::Output>>::Output>>::Output>>::Output>>::Output>>::lemma_append_width();
        <T2::Params as HAppend<<T3::Params as HAppend<<T4::Params as HAppend<<T5::Params as HAppend<<T6::Params as HAppend<<T7::Params as HAppend<<T8::Params as HAppend<<T9::Params as HAppend<<T10::Params as HAppend<T11::Params>>::Output>>::Output>>::Output>>::Output>>::Output>>::Output>>::Output>>::Output>>::lemma_append_width();
        <T3::Params as HAppend<<T4::Params as HAppend<<T5::Params as HAppend<<T6::Params as HAppend<<T7::Params as HAppend<<T8::Params as HAppend<<T9::Params as HAppend<<T10::Params as HAppend<T11::Params>>::Output>>::Output>>::Output>>::Output>>::Output>>::Output>>::Output>>::lemma_append_width();
        <T4::Params as HAppend<<T5::Params as HAppend<<T6::Params as HAppend<<T7::Params as HAppend<<T8::Params as HAppend<<T9::Params as HAppend<<T10::Params as HAppend<T11::Params>>::Output>>::Output>>::Output>>::Output>>::Output>>::Output>>::lemma_append_width();
        <T5::Params as HAppend<<T6::Params as HAppend<<T7::Params as HAppend<<T8::Params as HAppend<<T9::Params as HAppend<<T10::Params as HAppend<T11::Params>>::Output>>::Output>>::Output>>::Output>>::Output>>::lemma_append_width();
        <T6::Params as HAppend<<T7::Params as HAppend<<T8::Params as HAppend<<T9::Params as HAppend<<T10::Params as HAppend<T11::Params>>::Output>>::Output>>::Output>>::Output>>::lemma_append_width();
        <T7::Params as HAppend<<T8::Params as HAppend<<T9::Params as HAppend<<T10::Params as HAppend<T11::Params>>::Output>>::Output>>::Output>>::lemma_append_width();
        <T8::Params as HAppend<<T9::Params as HAppend<<T10::Params as HAppend<T11::Params>>::Output>>::Output>>::lemma_append_width();
        <T9::Params as HAppend<<T10::Params as HAppend<T11::Params>>::Output>>::lemma_append_width();
        <T10::Params as HAppend<T11::Params>>::lemma_append_width();
    }

    proof fn lemma_projection_plain(&self) {
        <T0::Params as HAppend<<T1::Params as HAppend<<T2::Params as HAppend<<T3::Params as HAppend<<T4::Params as HAppend<<T5::Params as HAppend<<T6::Params as HAppend<<T7::Params as HAppend<<T8::Params as HAppend<<T9::Params as HAppend<<T10::Params as HAppend<T11::Params>>::Output>>::Output>>::Output>>::Output>>::Output>>::Output>>::Output>>::Output>>::Output>>::Output>>::lemma_append_width();
        <T1::Params as HAppend<<T2::Params as HAppend<<T3::Params as HAppend<<T4::Params as HAppend<<T5::Params as HAppend<<T6::Params as HAppend<<T7::Params as HAppend<<T8::Params as HAppend<<T9::Params as HAppend<<T10::Params as HAppend<T11::Params>>::Output>>::Output>>::Output>>::Output>>::Output>>::Output>>::Output>>::Output>>::Output>>::lemma_append_width();
        <T2::Params as HAppend<<T3::Params as HAppend<<T4::Params as HAppend<<T5::Params as HAppend<<T6::Params as HAppend<<T7::Params as HAppend<<T8::Params as HAppend<<T9::Params as HAppend<<T10::Params as HAppend<T11::Params>>::Output>>::Output>>::Output>>::Output>>::Output>>::Output>>::Output>>::Output>>::lemma_append_width();
        <T3::Params as HAppend<<T4::Params as HAppend<<T5::Params as HAppend<<T6::Params as HAppend<<T7::Params as HAppend<<T8::Params as HAppend<<T9::Params as HAppend<<T10::Params as HAppend<T11::Params>>::Output>>::Output>>::Output>>::Output>>::Output>>::Output>>::Output>>::lemma_append_width();
        <T4::Params as HAppend<<T5::Params as HAppend<<T6::Params as HAppend<<T7::Params as HAppend<<T8::Params as HAppend<<T9::Params as HAppend<<T10::Params as HAppend<T11::Params>>::Output>>::Output>>::Output>>::Output>>::Output>>::Output>>::lemma_append_width();
        <T5::Params as HAppend<<T6::Params as HAppend<<T7::Params as HAppend<<T8::Params as HAppend<<T9::Params as HAppend<<T10::Params as HAppend<T11::Params>>::Output>>::Output>>::Output>>::Output>>::Output>>::lemma_append_width();
        <T6::Params as HAppend<<T7::Params as HAppend<<T8::Params as HAppend<<T9::Params as HAppend<<T10::Params as HAppend<T11::Params>>::Output>>::Output>>::Output>>::Output>>::lemma_append_width();
        <T7::Params as HAppend<<T8::Params as HAppend<<T9::Params as HAppend<<T10::Params as HAppend<T11::Params>>::Output>>::Output>>::Output>>::lemma_append_width();
        <T8::Params as HAppend<<T9::Params as HAppend<<T10::Params as HAppend<T11::Params>>::Output>>::Output>>::lemma_append_width();
        <T9::Params as HAppend<<T10::Params as HAppend<T11::Params>>::Output>>::lemma_append_width();
        <T10::Params as HAppend<T11::Params>>::lemma_append_width();
        self.0.lemma_projection_plain();
        self.1.lemma_projection_plain();
        self.2.lemma_projection_plain();
        self.3.lemma_projection_plain();
        self.4.lemma_projection_plain();
        self.5.lemma_projection_plain();
        self.6.lemma_projection_plain();
        self.7.lemma_projection_plain();
        self.8.lemma_projection_plain();
        self.9.lemma_projection_plain();
        self.10.lemma_projection_plain();
        self.11.lemma_projection_plain();
        crate::projection::lemma_plain_parts(self.10.items(), self.11.items());
        crate::projection::lemma_plain_parts(self.9.items(), self.10.items().then_list(self.11.items()));
        crate::projection::lemma_plain_parts(self.8.items(), self.9.items().then_list(self.10.items().then_list(self.11.items())));
        crate::projection::lemma_plain_parts(self.7.items(), self.8.items().then_list(self.9.items().then_list(self.10.items().then_list(self.11.items()))));
        crate::projection::lemma_plain_parts(self.6.items(), self.7.items().then_list(self.8.items().then_list(self.9.items().then_list(self.10.items().then_list(self.11.items())))));
        crate::projection::lemma_plain_parts(self.5.items(), self.6.items().then_list(self.7.items().then_list(self.8.items().then_list(self.9.items().then_list(self.10.items().then_list(self.11.items()))))));
        crate::projection::lemma_plain_parts(self.4.items(), self.5.items().then_list(self.6.items().then_list(self.7.items().then_list(self.8.items().then_list(self.9.items().then_list(self.10.items().then_list(self.11.items())))))));
        crate::projection::lemma_plain_parts(self.3.items(), self.4.items().then_list(self.5.items().then_list(self.6.items().then_list(self.7.items().then_list(self.8.items().then_list(self.9.items().then_list(self.10.items().then_list(self.11.items()))))))));
        crate::projection::lemma_plain_parts(self.2.items(), self.3.items().then_list(self.4.items().then_list(self.5.items().then_list(self.6.items().then_list(self.7.items().then_list(self.8.items().then_list(self.9.items().then_list(self.10.items().then_list(self.11.items())))))))));
        crate::projection::lemma_plain_parts(self.1.items(), self.2.items().then_list(self.3.items().then_list(self.4.items().then_list(self.5.items().then_list(self.6.items().then_list(self.7.items().then_list(self.8.items().then_list(self.9.items().then_list(self.10.items().then_list(self.11.items()))))))))));
        crate::projection::lemma_plain_parts(self.0.items(), self.1.items().then_list(self.2.items().then_list(self.3.items().then_list(self.4.items().then_list(self.5.items().then_list(self.6.items().then_list(self.7.items().then_list(self.8.items().then_list(self.9.items().then_list(self.10.items().then_list(self.11.items())))))))))));
    }
}

impl<T0: Projectable, T1: Projectable, T2: Projectable, T3: Projectable, T4: Projectable, T5: Projectable, T6: Projectable, T7: Projectable, T8: Projectable, T9: Projectable, T10: Projectable, T11: Projectable, T12: Projectable> Projectable for (T0, T1, T2, T3, T4, T5, T6, T7, T8, T9, T10, T11, T12) {
    type Rebound<'scope> = (T0::Rebound<'scope>, T1::Rebound<'scope>, T2::Rebound<'scope>, T3::Rebound<'scope>, T4::Rebound<'scope>, T5::Rebound<'scope>, T6::Rebound<'scope>, T7::Rebound<'scope>, T8::Rebound<'scope>, T9::Rebound<'scope>, T10::Rebound<'scope>, T11::Rebound<'scope>, T12::Rebound<'scope>);

    open spec fn rebound<'scope>(&self, alias: SourceAlias) -> Self::Rebound<'scope> {
        (self.0.rebound(alias), self.1.rebound(alias), self.2.rebound(alias), self.3.rebound(alias), self.4.rebound(alias), self.5.rebound(alias), self.6.rebound(alias), self.7.rebound(alias), self.8.rebound(alias), self.9.rebound(alias), self.10.rebound(alias), self.11.rebound(alias), self.12.rebound(alias))
    }

    open spec fn rebinds_with_prefix<'scope>(
        &self,
        alias: SourceAlias,
        prefix: Seq<char>,
        rebound: Self::Rebound<'scope>,
    ) -> bool {
        &&& self.0.rebinds_with_prefix(alias, prefix, rebound.0)
        &&& self.1.rebinds_with_prefix(alias, prefix, rebound.1)
        &&& self.2.rebinds_with_prefix(alias, prefix, rebound.2)
        &&& self.3.rebinds_with_prefix(alias, prefix, rebound.3)
        &&& self.4.rebinds_with_prefix(alias, prefix, rebound.4)
        &&& self.5.rebinds_with_prefix(alias, prefix, rebound.5)
        &&& self.6.rebinds_with_prefix(alias, prefix, rebound.6)
        &&& self.7.rebinds_with_prefix(alias, prefix, rebound.7)
        &&& self.8.rebinds_with_prefix(alias, prefix, rebound.8)
        &&& self.9.rebinds_with_prefix(alias, prefix, rebound.9)
        &&& self.10.rebinds_with_prefix(alias, prefix, rebound.10)
        &&& self.11.rebinds_with_prefix(alias, prefix, rebound.11)
        &&& self.12.rebinds_with_prefix(alias, prefix, rebound.12)
    }

    fn re_alias<'scope>(&self, alias: SourceAlias) -> (rebound: Self::Rebound<'scope>) {
        (self.0.re_alias(alias), self.1.re_alias(alias), self.2.re_alias(alias), self.3.re_alias(alias), self.4.re_alias(alias), self.5.re_alias(alias), self.6.re_alias(alias), self.7.re_alias(alias), self.8.re_alias(alias), self.9.re_alias(alias), self.10.re_alias(alias), self.11.re_alias(alias), self.12.re_alias(alias))
    }

    fn re_alias_with_prefix<'scope>(&self, alias: SourceAlias, prefix: &str) -> (rebound:
        Self::Rebound<'scope>) {
        (self.0.re_alias_with_prefix(alias, prefix), self.1.re_alias_with_prefix(alias, prefix), self.2.re_alias_with_prefix(alias, prefix), self.3.re_alias_with_prefix(alias, prefix), self.4.re_alias_with_prefix(alias, prefix), self.5.re_alias_with_prefix(alias, prefix), self.6.re_alias_with_prefix(alias, prefix), self.7.re_alias_with_prefix(alias, prefix), self.8.re_alias_with_prefix(alias, prefix), self.9.re_alias_with_prefix(alias, prefix), self.10.re_alias_with_prefix(alias, prefix), self.11.re_alias_with_prefix(alias, prefix), self.12.re_alias_with_prefix(alias, prefix))
    }
}

impl<T0: Duplicate, T1: Duplicate, T2: Duplicate, T3: Duplicate, T4: Duplicate, T5: Duplicate, T6: Duplicate, T7: Duplicate, T8: Duplicate, T9: Duplicate, T10: Duplicate, T11: Duplicate, T12: Duplicate> Duplicate for (T0, T1, T2, T3, T4, T5, T6, T7, T8, T9, T10, T11, T12) {
    fn duplicate(&self) -> (copy: Self) {
        (self.0.duplicate(), self.1.duplicate(), self.2.duplicate(), self.3.duplicate(), self.4.duplicate(), self.5.duplicate(), self.6.duplicate(), self.7.duplicate(), self.8.duplicate(), self.9.duplicate(), self.10.duplicate(), self.11.duplicate(), self.12.duplicate())
    }
}

impl<T0: ProjectionShape, T1: ProjectionShape, T2: ProjectionShape, T3: ProjectionShape, T4: ProjectionShape, T5: ProjectionShape, T6: ProjectionShape, T7: ProjectionShape, T8: ProjectionShape, T9: ProjectionShape, T10: ProjectionShape, T11: ProjectionShape, T12: ProjectionShape> ProjectionShape for (T0, T1, T2, T3, T4, T5, T6, T7, T8, T9, T10, T11, T12) {
    type Exprs<'scope> = (T0::Exprs<'scope>, T1::Exprs<'scope>, T2::Exprs<'scope>, T3::Exprs<'scope>, T4::Exprs<'scope>, T5::Exprs<'scope>, T6::Exprs<'scope>, T7::Exprs<'scope>, T8::Exprs<'scope>, T9::Exprs<'scope>, T10::Exprs<'scope>, T11::Exprs<'scope>, T12::Exprs<'scope>);

    type ReboundExprs<'scope> = (T0::ReboundExprs<'scope>, T1::ReboundExprs<'scope>, T2::ReboundExprs<'scope>, T3::ReboundExprs<'scope>, T4::ReboundExprs<'scope>, T5::ReboundExprs<'scope>, T6::ReboundExprs<'scope>, T7::ReboundExprs<'scope>, T8::ReboundExprs<'scope>, T9::ReboundExprs<'scope>, T10::ReboundExprs<'scope>, T11::ReboundExprs<'scope>, T12::ReboundExprs<'scope>);

    type Row = (T0::Row, T1::Row, T2::Row, T3::Row, T4::Row, T5::Row, T6::Row, T7::Row, T8::Row, T9::Row, T10::Row, T11::Row, T12::Row);

    open spec fn shape_exprs<'scope>(alias: SourceAlias) -> Self::Exprs<'scope> {
        (T0::shape_exprs(alias), T1::shape_exprs(alias), T2::shape_exprs(alias), T3::shape_exprs(alias), T4::shape_exprs(alias), T5::shape_exprs(alias), T6::shape_exprs(alias), T7::shape_exprs(alias), T8::shape_exprs(alias), T9::shape_exprs(alias), T10::shape_exprs(alias), T11::shape_exprs(alias), T12::shape_exprs(alias))
    }

    open spec fn shape_rebound<'scope>(alias: SourceAlias) -> Self::ReboundExprs<'scope> {
        (T0::shape_rebound(alias), T1::shape_rebound(alias), T2::shape_rebound(alias), T3::shape_rebound(alias), T4::shape_rebound(alias), T5::shape_rebound(alias), T6::shape_rebound(alias), T7::shape_rebound(alias), T8::shape_rebound(alias), T9::shape_rebound(alias), T10::shape_rebound(alias), T11::shape_rebound(alias), T12::shape_rebound(alias))
    }

    fn exprs<'scope>(alias: SourceAlias) -> (exprs: Self::Exprs<'scope>) {
        (T0::exprs(alias), T1::exprs(alias), T2::exprs(alias), T3::exprs(alias), T4::exprs(alias), T5::exprs(alias), T6::exprs(alias), T7::exprs(alias), T8::exprs(alias), T9::exprs(alias), T10::exprs(alias), T11::exprs(alias), T12::exprs(alias))
    }

    fn rebound_exprs<'scope>(alias: SourceAlias) -> (exprs: Self::ReboundExprs<'scope>) {
        (T0::rebound_exprs(alias), T1::rebound_exprs(alias), T2::rebound_exprs(alias), T3::rebound_exprs(alias), T4::rebound_exprs(alias), T5::rebound_exprs(alias), T6::rebound_exprs(alias), T7::rebound_exprs(alias), T8::rebound_exprs(alias), T9::rebound_exprs(alias), T10::rebound_exprs(alias), T11::rebound_exprs(alias), T12::rebound_exprs(alias))
    }
}

impl<T0: ProjectionParams, T1: ProjectionParams, T2: ProjectionParams, T3: ProjectionParams, T4: ProjectionParams, T5: ProjectionParams, T6: ProjectionParams, T7: ProjectionParams, T8: ProjectionParams, T9: ProjectionParams, T10: ProjectionParams, T11: ProjectionParams, T12: ProjectionParams> ProjectionParams for (T0, T1, T2, T3, T4, T5, T6, T7, T8, T9, T10, T11, T12) where
    T11::Params: HAppend<T12::Params>,
    T10::Params: HAppend<<T11::Params as HAppend<T12::Params>>::Output>,
    T9::Params: HAppend<<T10::Params as HAppend<<T11::Params as HAppend<T12::Params>>::Output>>::Output>,
    T8::Params: HAppend<<T9::Params as HAppend<<T10::Params as HAppend<<T11::Params as HAppend<T12::Params>>::Output>>::Output>>::Output>,
    T7::Params: HAppend<<T8::Params as HAppend<<T9::Params as HAppend<<T10::Params as HAppend<<T11::Params as HAppend<T12::Params>>::Output>>::Output>>::Output>>::Output>,
    T6::Params: HAppend<<T7::Params as HAppend<<T8::Params as HAppend<<T9::Params as HAppend<<T10::Params as HAppend<<T11::Params as HAppend<T12::Params>>::Output>>::Output>>::Output>>::Output>>::Output>,
    T5::Params: HAppend<<T6::Params as HAppend<<T7::Params as HAppend<<T8::Params as HAppend<<T9::Params as HAppend<<T10::Params as HAppend<<T11::Params as HAppend<T12::Params>>::Output>>::Output>>::Output>>::Output>>::Output>>::Output>,
    T4::Params: HAppend<<T5::Params as HAppend<<T6::Params as HAppend<<T7::Params as HAppend<<T8::Params as HAppend<<T9::Params as HAppend<<T10::Params as HAppend<<T11::Params as HAppend<T12::Params>>::Output>>::Output>>::Output>>::Output>>::Output>>::Output>>::Output>,
    T3::Params: HAppend<<T4::Params as HAppend<<T5::Params as HAppend<<T6::Params as HAppend<<T7::Params as HAppend<<T8::Params as HAppend<<T9::Params as HAppend<<T10::Params as HAppend<<T11::Params as HAppend<T12::Params>>::Output>>::Output>>::Output>>::Output>>::Output>>::Output>>::Output>>::Output>,
    T2::Params: HAppend<<T3::Params as HAppend<<T4::Params as HAppend<<T5::Params as HAppend<<T6::Params as HAppend<<T7::Params as HAppend<<T8::Params as HAppend<<T9::Params as HAppend<<T10::Params as HAppend<<T11::Params as HAppend<T12::Params>>::Output>>::Output>>::Output>>::Output>>::Output>>::Output>>::Output>>::Output>>::Output>,
    T1::Params: HAppend<<T2::Params as HAppend<<T3::Params as HAppend<<T4::Params as HAppend<<T5::Params as HAppend<<T6::Params as HAppend<<T7::Params as HAppend<<T8::Params as HAppend<<T9::Params as HAppend<<T10::Params as HAppend<<T11::Params as HAppend<T12::Params>>::Output>>::Output>>::Output>>::Output>>::Output>>::Output>>::Output>>::Output>>::Output>>::Output>,
    T0::Params: HAppend<<T1::Params as HAppend<<T2::Params as HAppend<<T3::Params as HAppend<<T4::Params as HAppend<<T5::Params as HAppend<<T6::Params as HAppend<<T7::Params as HAppend<<T8::Params as HAppend<<T9::Params as HAppend<<T10::Params as HAppend<<T11::Params as HAppend<T12::Params>>::Output>>::Output>>::Output>>::Output>>::Output>>::Output>>::Output>>::Output>>::Output>>::Output>>::Output>,
 {
    type Params = <T0::Params as HAppend<<T1::Params as HAppend<<T2::Params as HAppend<<T3::Params as HAppend<<T4::Params as HAppend<<T5::Params as HAppend<<T6::Params as HAppend<<T7::Params as HAppend<<T8::Params as HAppend<<T9::Params as HAppend<<T10::Params as HAppend<<T11::Params as HAppend<T12::Params>>::Output>>::Output>>::Output>>::Output>>::Output>>::Output>>::Output>>::Output>>::Output>>::Output>>::Output>>::Output;
}

impl<T0: ProjectionClass, T1: ProjectionClass<Class = T0::Class>, T2: ProjectionClass<Class = T0::Class>, T3: ProjectionClass<Class = T0::Class>, T4: ProjectionClass<Class = T0::Class>, T5: ProjectionClass<Class = T0::Class>, T6: ProjectionClass<Class = T0::Class>, T7: ProjectionClass<Class = T0::Class>, T8: ProjectionClass<Class = T0::Class>, T9: ProjectionClass<Class = T0::Class>, T10: ProjectionClass<Class = T0::Class>, T11: ProjectionClass<Class = T0::Class>, T12: ProjectionClass<Class = T0::Class>> ProjectionClass for (T0, T1, T2, T3, T4, T5, T6, T7, T8, T9, T10, T11, T12) {
    type Class = T0::Class;
}

impl<T0: ReturnableProjection, T1: ReturnableProjection, T2: ReturnableProjection, T3: ReturnableProjection, T4: ReturnableProjection, T5: ReturnableProjection, T6: ReturnableProjection, T7: ReturnableProjection, T8: ReturnableProjection, T9: ReturnableProjection, T10: ReturnableProjection, T11: ReturnableProjection, T12: ReturnableProjection> ReturnableProjection for (T0, T1, T2, T3, T4, T5, T6, T7, T8, T9, T10, T11, T12) {

}

impl<T0: RenderProjectable<B>, T1: RenderProjectable<B>, T2: RenderProjectable<B>, T3: RenderProjectable<B>, T4: RenderProjectable<B>, T5: RenderProjectable<B>, T6: RenderProjectable<B>, T7: RenderProjectable<B>, T8: RenderProjectable<B>, T9: RenderProjectable<B>, T10: RenderProjectable<B>, T11: RenderProjectable<B>, T12: RenderProjectable<B>, B: Backend> RenderProjectable<B> for (T0, T1, T2, T3, T4, T5, T6, T7, T8, T9, T10, T11, T12) where
    T11::Params: HAppend<T12::Params>,
    T10::Params: HAppend<<T11::Params as HAppend<T12::Params>>::Output>,
    T9::Params: HAppend<<T10::Params as HAppend<<T11::Params as HAppend<T12::Params>>::Output>>::Output>,
    T8::Params: HAppend<<T9::Params as HAppend<<T10::Params as HAppend<<T11::Params as HAppend<T12::Params>>::Output>>::Output>>::Output>,
    T7::Params: HAppend<<T8::Params as HAppend<<T9::Params as HAppend<<T10::Params as HAppend<<T11::Params as HAppend<T12::Params>>::Output>>::Output>>::Output>>::Output>,
    T6::Params: HAppend<<T7::Params as HAppend<<T8::Params as HAppend<<T9::Params as HAppend<<T10::Params as HAppend<<T11::Params as HAppend<T12::Params>>::Output>>::Output>>::Output>>::Output>>::Output>,
    T5::Params: HAppend<<T6::Params as HAppend<<T7::Params as HAppend<<T8::Params as HAppend<<T9::Params as HAppend<<T10::Params as HAppend<<T11::Params as HAppend<T12::Params>>::Output>>::Output>>::Output>>::Output>>::Output>>::Output>,
    T4::Params: HAppend<<T5::Params as HAppend<<T6::Params as HAppend<<T7::Params as HAppend<<T8::Params as HAppend<<T9::Params as HAppend<<T10::Params as HAppend<<T11::Params as HAppend<T12::Params>>::Output>>::Output>>::Output>>::Output>>::Output>>::Output>>::Output>,
    T3::Params: HAppend<<T4::Params as HAppend<<T5::Params as HAppend<<T6::Params as HAppend<<T7::Params as HAppend<<T8::Params as HAppend<<T9::Params as HAppend<<T10::Params as HAppend<<T11::Params as HAppend<T12::Params>>::Output>>::Output>>::Output>>::Output>>::Output>>::Output>>::Output>>::Output>,
    T2::Params: HAppend<<T3::Params as HAppend<<T4::Params as HAppend<<T5::Params as HAppend<<T6::Params as HAppend<<T7::Params as HAppend<<T8::Params as HAppend<<T9::Params as HAppend<<T10::Params as HAppend<<T11::Params as HAppend<T12::Params>>::Output>>::Output>>::Output>>::Output>>::Output>>::Output>>::Output>>::Output>>::Output>,
    T1::Params: HAppend<<T2::Params as HAppend<<T3::Params as HAppend<<T4::Params as HAppend<<T5::Params as HAppend<<T6::Params as HAppend<<T7::Params as HAppend<<T8::Params as HAppend<<T9::Params as HAppend<<T10::Params as HAppend<<T11::Params as HAppend<T12::Params>>::Output>>::Output>>::Output>>::Output>>::Output>>::Output>>::Output>>::Output>>::Output>>::Output>,
    T0::Params: HAppend<<T1::Params as HAppend<<T2::Params as HAppend<<T3::Params as HAppend<<T4::Params as HAppend<<T5::Params as HAppend<<T6::Params as HAppend<<T7::Params as HAppend<<T8::Params as HAppend<<T9::Params as HAppend<<T10::Params as HAppend<<T11::Params as HAppend<T12::Params>>::Output>>::Output>>::Output>>::Output>>::Output>>::Output>>::Output>>::Output>>::Output>>::Output>>::Output>,
 {
    open spec fn items(&self) -> List<ProjectionTree<Bound<B>>> {
        self.0.items().then_list(self.1.items().then_list(self.2.items().then_list(self.3.items().then_list(self.4.items().then_list(self.5.items().then_list(self.6.items().then_list(self.7.items().then_list(self.8.items().then_list(self.9.items().then_list(self.10.items().then_list(self.11.items().then_list(self.12.items()))))))))))))
    }

    fn lower_projection(&self) -> (items: List<ProjectionTree<Bound<B>>>) {
        self.0.lower_projection().append(self.1.lower_projection().append(self.2.lower_projection().append(self.3.lower_projection().append(self.4.lower_projection().append(self.5.lower_projection().append(self.6.lower_projection().append(self.7.lower_projection().append(self.8.lower_projection().append(self.9.lower_projection().append(self.10.lower_projection().append(self.11.lower_projection().append(self.12.lower_projection()))))))))))))
    }

    fn lower_projection_with_prefix(&self, prefix: &str) -> (items: List<
        ProjectionTree<Bound<B>>,
    >) {
        let items0 = self.0.lower_projection_with_prefix(prefix);
        let items1 = self.1.lower_projection_with_prefix(prefix);
        let items2 = self.2.lower_projection_with_prefix(prefix);
        let items3 = self.3.lower_projection_with_prefix(prefix);
        let items4 = self.4.lower_projection_with_prefix(prefix);
        let items5 = self.5.lower_projection_with_prefix(prefix);
        let items6 = self.6.lower_projection_with_prefix(prefix);
        let items7 = self.7.lower_projection_with_prefix(prefix);
        let items8 = self.8.lower_projection_with_prefix(prefix);
        let items9 = self.9.lower_projection_with_prefix(prefix);
        let items10 = self.10.lower_projection_with_prefix(prefix);
        let items11 = self.11.lower_projection_with_prefix(prefix);
        let items12 = self.12.lower_projection_with_prefix(prefix);
        proof {
            crate::projection::lemma_prefixed_parts(self.11.items(), self.12.items(), prefix@, items11, items12);
            crate::projection::lemma_prefixed_parts(self.10.items(), self.11.items().then_list(self.12.items()), prefix@, items10, items11.then_list(items12));
            crate::projection::lemma_prefixed_parts(self.9.items(), self.10.items().then_list(self.11.items().then_list(self.12.items())), prefix@, items9, items10.then_list(items11.then_list(items12)));
            crate::projection::lemma_prefixed_parts(self.8.items(), self.9.items().then_list(self.10.items().then_list(self.11.items().then_list(self.12.items()))), prefix@, items8, items9.then_list(items10.then_list(items11.then_list(items12))));
            crate::projection::lemma_prefixed_parts(self.7.items(), self.8.items().then_list(self.9.items().then_list(self.10.items().then_list(self.11.items().then_list(self.12.items())))), prefix@, items7, items8.then_list(items9.then_list(items10.then_list(items11.then_list(items12)))));
            crate::projection::lemma_prefixed_parts(self.6.items(), self.7.items().then_list(self.8.items().then_list(self.9.items().then_list(self.10.items().then_list(self.11.items().then_list(self.12.items()))))), prefix@, items6, items7.then_list(items8.then_list(items9.then_list(items10.then_list(items11.then_list(items12))))));
            crate::projection::lemma_prefixed_parts(self.5.items(), self.6.items().then_list(self.7.items().then_list(self.8.items().then_list(self.9.items().then_list(self.10.items().then_list(self.11.items().then_list(self.12.items())))))), prefix@, items5, items6.then_list(items7.then_list(items8.then_list(items9.then_list(items10.then_list(items11.then_list(items12)))))));
            crate::projection::lemma_prefixed_parts(self.4.items(), self.5.items().then_list(self.6.items().then_list(self.7.items().then_list(self.8.items().then_list(self.9.items().then_list(self.10.items().then_list(self.11.items().then_list(self.12.items()))))))), prefix@, items4, items5.then_list(items6.then_list(items7.then_list(items8.then_list(items9.then_list(items10.then_list(items11.then_list(items12))))))));
            crate::projection::lemma_prefixed_parts(self.3.items(), self.4.items().then_list(self.5.items().then_list(self.6.items().then_list(self.7.items().then_list(self.8.items().then_list(self.9.items().then_list(self.10.items().then_list(self.11.items().then_list(self.12.items())))))))), prefix@, items3, items4.then_list(items5.then_list(items6.then_list(items7.then_list(items8.then_list(items9.then_list(items10.then_list(items11.then_list(items12)))))))));
            crate::projection::lemma_prefixed_parts(self.2.items(), self.3.items().then_list(self.4.items().then_list(self.5.items().then_list(self.6.items().then_list(self.7.items().then_list(self.8.items().then_list(self.9.items().then_list(self.10.items().then_list(self.11.items().then_list(self.12.items()))))))))), prefix@, items2, items3.then_list(items4.then_list(items5.then_list(items6.then_list(items7.then_list(items8.then_list(items9.then_list(items10.then_list(items11.then_list(items12))))))))));
            crate::projection::lemma_prefixed_parts(self.1.items(), self.2.items().then_list(self.3.items().then_list(self.4.items().then_list(self.5.items().then_list(self.6.items().then_list(self.7.items().then_list(self.8.items().then_list(self.9.items().then_list(self.10.items().then_list(self.11.items().then_list(self.12.items())))))))))), prefix@, items1, items2.then_list(items3.then_list(items4.then_list(items5.then_list(items6.then_list(items7.then_list(items8.then_list(items9.then_list(items10.then_list(items11.then_list(items12)))))))))));
            crate::projection::lemma_prefixed_parts(self.0.items(), self.1.items().then_list(self.2.items().then_list(self.3.items().then_list(self.4.items().then_list(self.5.items().then_list(self.6.items().then_list(self.7.items().then_list(self.8.items().then_list(self.9.items().then_list(self.10.items().then_list(self.11.items().then_list(self.12.items()))))))))))), prefix@, items0, items1.then_list(items2.then_list(items3.then_list(items4.then_list(items5.then_list(items6.then_list(items7.then_list(items8.then_list(items9.then_list(items10.then_list(items11.then_list(items12))))))))))));
        }
        items0.append(items1.append(items2.append(items3.append(items4.append(items5.append(items6.append(items7.append(items8.append(items9.append(items10.append(items11.append(items12))))))))))))
    }

    proof fn lemma_projection_params<D: Dialect>(&self, dialect: D, bare: bool, lead: Seq<char>) {
        let lead1 = if self.0.items() is Nil { lead } else { ", "@ };
        self.0.lemma_projection_params(dialect, bare, lead);
        crate::projection::lemma_projection_parts(dialect, bare, lead, self.0.items(), self.1.items().then_list(self.2.items().then_list(self.3.items().then_list(self.4.items().then_list(self.5.items().then_list(self.6.items().then_list(self.7.items().then_list(self.8.items().then_list(self.9.items().then_list(self.10.items().then_list(self.11.items().then_list(self.12.items()))))))))))));
        let lead2 = if self.1.items() is Nil { lead1 } else { ", "@ };
        self.1.lemma_projection_params(dialect, bare, lead1);
        crate::projection::lemma_projection_parts(dialect, bare, lead1, self.1.items(), self.2.items().then_list(self.3.items().then_list(self.4.items().then_list(self.5.items().then_list(self.6.items().then_list(self.7.items().then_list(self.8.items().then_list(self.9.items().then_list(self.10.items().then_list(self.11.items().then_list(self.12.items())))))))))));
        let lead3 = if self.2.items() is Nil { lead2 } else { ", "@ };
        self.2.lemma_projection_params(dialect, bare, lead2);
        crate::projection::lemma_projection_parts(dialect, bare, lead2, self.2.items(), self.3.items().then_list(self.4.items().then_list(self.5.items().then_list(self.6.items().then_list(self.7.items().then_list(self.8.items().then_list(self.9.items().then_list(self.10.items().then_list(self.11.items().then_list(self.12.items()))))))))));
        let lead4 = if self.3.items() is Nil { lead3 } else { ", "@ };
        self.3.lemma_projection_params(dialect, bare, lead3);
        crate::projection::lemma_projection_parts(dialect, bare, lead3, self.3.items(), self.4.items().then_list(self.5.items().then_list(self.6.items().then_list(self.7.items().then_list(self.8.items().then_list(self.9.items().then_list(self.10.items().then_list(self.11.items().then_list(self.12.items())))))))));
        let lead5 = if self.4.items() is Nil { lead4 } else { ", "@ };
        self.4.lemma_projection_params(dialect, bare, lead4);
        crate::projection::lemma_projection_parts(dialect, bare, lead4, self.4.items(), self.5.items().then_list(self.6.items().then_list(self.7.items().then_list(self.8.items().then_list(self.9.items().then_list(self.10.items().then_list(self.11.items().then_list(self.12.items()))))))));
        let lead6 = if self.5.items() is Nil { lead5 } else { ", "@ };
        self.5.lemma_projection_params(dialect, bare, lead5);
        crate::projection::lemma_projection_parts(dialect, bare, lead5, self.5.items(), self.6.items().then_list(self.7.items().then_list(self.8.items().then_list(self.9.items().then_list(self.10.items().then_list(self.11.items().then_list(self.12.items())))))));
        let lead7 = if self.6.items() is Nil { lead6 } else { ", "@ };
        self.6.lemma_projection_params(dialect, bare, lead6);
        crate::projection::lemma_projection_parts(dialect, bare, lead6, self.6.items(), self.7.items().then_list(self.8.items().then_list(self.9.items().then_list(self.10.items().then_list(self.11.items().then_list(self.12.items()))))));
        let lead8 = if self.7.items() is Nil { lead7 } else { ", "@ };
        self.7.lemma_projection_params(dialect, bare, lead7);
        crate::projection::lemma_projection_parts(dialect, bare, lead7, self.7.items(), self.8.items().then_list(self.9.items().then_list(self.10.items().then_list(self.11.items().then_list(self.12.items())))));
        let lead9 = if self.8.items() is Nil { lead8 } else { ", "@ };
        self.8.lemma_projection_params(dialect, bare, lead8);
        crate::projection::lemma_projection_parts(dialect, bare, lead8, self.8.items(), self.9.items().then_list(self.10.items().then_list(self.11.items().then_list(self.12.items()))));
        let lead10 = if self.9.items() is Nil { lead9 } else { ", "@ };
        self.9.lemma_projection_params(dialect, bare, lead9);
        crate::projection::lemma_projection_parts(dialect, bare, lead9, self.9.items(), self.10.items().then_list(self.11.items().then_list(self.12.items())));
        let lead11 = if self.10.items() is Nil { lead10 } else { ", "@ };
        self.10.lemma_projection_params(dialect, bare, lead10);
        crate::projection::lemma_projection_parts(dialect, bare, lead10, self.10.items(), self.11.items().then_list(self.12.items()));
        let lead12 = if self.11.items() is Nil { lead11 } else { ", "@ };
        self.11.lemma_projection_params(dialect, bare, lead11);
        crate::projection::lemma_projection_parts(dialect, bare, lead11, self.11.items(), self.12.items());
        self.12.lemma_projection_params(dialect, bare, lead12);
        <T0::Params as HAppend<<T1::Params as HAppend<<T2::Params as HAppend<<T3::Params as HAppend<<T4::Params as HAppend<<T5::Params as HAppend<<T6::Params as HAppend<<T7::Params as HAppend<<T8::Params as HAppend<<T9::Params as HAppend<<T10::Params as HAppend<<T11::Params as HAppend<T12::Params>>::Output>>::Output>>::Output>>::Output>>::Output>>::Output>>::Output>>::Output>>::Output>>::Output>>::Output>>::lemma_append_width();
        <T1::Params as HAppend<<T2::Params as HAppend<<T3::Params as HAppend<<T4::Params as HAppend<<T5::Params as HAppend<<T6::Params as HAppend<<T7::Params as HAppend<<T8::Params as HAppend<<T9::Params as HAppend<<T10::Params as HAppend<<T11::Params as HAppend<T12::Params>>::Output>>::Output>>::Output>>::Output>>::Output>>::Output>>::Output>>::Output>>::Output>>::Output>>::lemma_append_width();
        <T2::Params as HAppend<<T3::Params as HAppend<<T4::Params as HAppend<<T5::Params as HAppend<<T6::Params as HAppend<<T7::Params as HAppend<<T8::Params as HAppend<<T9::Params as HAppend<<T10::Params as HAppend<<T11::Params as HAppend<T12::Params>>::Output>>::Output>>::Output>>::Output>>::Output>>::Output>>::Output>>::Output>>::Output>>::lemma_append_width();
        <T3::Params as HAppend<<T4::Params as HAppend<<T5::Params as HAppend<<T6::Params as HAppend<<T7::Params as HAppend<<T8::Params as HAppend<<T9::Params as HAppend<<T10::Params as HAppend<<T11::Params as HAppend<T12::Params>>::Output>>::Output>>::Output>>::Output>>::Output>>::Output>>::Output>>::Output>>::lemma_append_width();
        <T4::Params as HAppend<<T5::Params as HAppend<<T6::Params as HAppend<<T7::Params as HAppend<<T8::Params as HAppend<<T9::Params as HAppend<<T10::Params as HAppend<<T11::Params as HAppend<T12::Params>>::Output>>::Output>>::Output>>::Output>>::Output>>::Output>>::Output>>::lemma_append_width();
        <T5::Params as HAppend<<T6::Params as HAppend<<T7::Params as HAppend<<T8::Params as HAppend<<T9::Params as HAppend<<T10::Params as HAppend<<T11::Params as HAppend<T12::Params>>::Output>>::Output>>::Output>>::Output>>::Output>>::Output>>::lemma_append_width();
        <T6::Params as HAppend<<T7::Params as HAppend<<T8::Params as HAppend<<T9::Params as HAppend<<T10::Params as HAppend<<T11::Params as HAppend<T12::Params>>::Output>>::Output>>::Output>>::Output>>::Output>>::lemma_append_width();
        <T7::Params as HAppend<<T8::Params as HAppend<<T9::Params as HAppend<<T10::Params as HAppend<<T11::Params as HAppend<T12::Params>>::Output>>::Output>>::Output>>::Output>>::lemma_append_width();
        <T8::Params as HAppend<<T9::Params as HAppend<<T10::Params as HAppend<<T11::Params as HAppend<T12::Params>>::Output>>::Output>>::Output>>::lemma_append_width();
        <T9::Params as HAppend<<T10::Params as HAppend<<T11::Params as HAppend<T12::Params>>::Output>>::Output>>::lemma_append_width();
        <T10::Params as HAppend<<T11::Params as HAppend<T12::Params>>::Output>>::lemma_append_width();
        <T11::Params as HAppend<T12::Params>>::lemma_append_width();
    }

    proof fn lemma_projection_plain(&self) {
        <T0::Params as HAppend<<T1::Params as HAppend<<T2::Params as HAppend<<T3::Params as HAppend<<T4::Params as HAppend<<T5::Params as HAppend<<T6::Params as HAppend<<T7::Params as HAppend<<T8::Params as HAppend<<T9::Params as HAppend<<T10::Params as HAppend<<T11::Params as HAppend<T12::Params>>::Output>>::Output>>::Output>>::Output>>::Output>>::Output>>::Output>>::Output>>::Output>>::Output>>::Output>>::lemma_append_width();
        <T1::Params as HAppend<<T2::Params as HAppend<<T3::Params as HAppend<<T4::Params as HAppend<<T5::Params as HAppend<<T6::Params as HAppend<<T7::Params as HAppend<<T8::Params as HAppend<<T9::Params as HAppend<<T10::Params as HAppend<<T11::Params as HAppend<T12::Params>>::Output>>::Output>>::Output>>::Output>>::Output>>::Output>>::Output>>::Output>>::Output>>::Output>>::lemma_append_width();
        <T2::Params as HAppend<<T3::Params as HAppend<<T4::Params as HAppend<<T5::Params as HAppend<<T6::Params as HAppend<<T7::Params as HAppend<<T8::Params as HAppend<<T9::Params as HAppend<<T10::Params as HAppend<<T11::Params as HAppend<T12::Params>>::Output>>::Output>>::Output>>::Output>>::Output>>::Output>>::Output>>::Output>>::Output>>::lemma_append_width();
        <T3::Params as HAppend<<T4::Params as HAppend<<T5::Params as HAppend<<T6::Params as HAppend<<T7::Params as HAppend<<T8::Params as HAppend<<T9::Params as HAppend<<T10::Params as HAppend<<T11::Params as HAppend<T12::Params>>::Output>>::Output>>::Output>>::Output>>::Output>>::Output>>::Output>>::Output>>::lemma_append_width();
        <T4::Params as HAppend<<T5::Params as HAppend<<T6::Params as HAppend<<T7::Params as HAppend<<T8::Params as HAppend<<T9::Params as HAppend<<T10::Params as HAppend<<T11::Params as HAppend<T12::Params>>::Output>>::Output>>::Output>>::Output>>::Output>>::Output>>::Output>>::lemma_append_width();
        <T5::Params as HAppend<<T6::Params as HAppend<<T7::Params as HAppend<<T8::Params as HAppend<<T9::Params as HAppend<<T10::Params as HAppend<<T11::Params as HAppend<T12::Params>>::Output>>::Output>>::Output>>::Output>>::Output>>::Output>>::lemma_append_width();
        <T6::Params as HAppend<<T7::Params as HAppend<<T8::Params as HAppend<<T9::Params as HAppend<<T10::Params as HAppend<<T11::Params as HAppend<T12::Params>>::Output>>::Output>>::Output>>::Output>>::Output>>::lemma_append_width();
        <T7::Params as HAppend<<T8::Params as HAppend<<T9::Params as HAppend<<T10::Params as HAppend<<T11::Params as HAppend<T12::Params>>::Output>>::Output>>::Output>>::Output>>::lemma_append_width();
        <T8::Params as HAppend<<T9::Params as HAppend<<T10::Params as HAppend<<T11::Params as HAppend<T12::Params>>::Output>>::Output>>::Output>>::lemma_append_width();
        <T9::Params as HAppend<<T10::Params as HAppend<<T11::Params as HAppend<T12::Params>>::Output>>::Output>>::lemma_append_width();
        <T10::Params as HAppend<<T11::Params as HAppend<T12::Params>>::Output>>::lemma_append_width();
        <T11::Params as HAppend<T12::Params>>::lemma_append_width();
        self.0.lemma_projection_plain();
        self.1.lemma_projection_plain();
        self.2.lemma_projection_plain();
        self.3.lemma_projection_plain();
        self.4.lemma_projection_plain();
        self.5.lemma_projection_plain();
        self.6.lemma_projection_plain();
        self.7.lemma_projection_plain();
        self.8.lemma_projection_plain();
        self.9.lemma_projection_plain();
        self.10.lemma_projection_plain();
        self.11.lemma_projection_plain();
        self.12.lemma_projection_plain();
        crate::projection::lemma_plain_parts(self.11.items(), self.12.items());
        crate::projection::lemma_plain_parts(self.10.items(), self.11.items().then_list(self.12.items()));
        crate::projection::lemma_plain_parts(self.9.items(), self.10.items().then_list(self.11.items().then_list(self.12.items())));
        crate::projection::lemma_plain_parts(self.8.items(), self.9.items().then_list(self.10.items().then_list(self.11.items().then_list(self.12.items()))));
        crate::projection::lemma_plain_parts(self.7.items(), self.8.items().then_list(self.9.items().then_list(self.10.items().then_list(self.11.items().then_list(self.12.items())))));
        crate::projection::lemma_plain_parts(self.6.items(), self.7.items().then_list(self.8.items().then_list(self.9.items().then_list(self.10.items().then_list(self.11.items().then_list(self.12.items()))))));
        crate::projection::lemma_plain_parts(self.5.items(), self.6.items().then_list(self.7.items().then_list(self.8.items().then_list(self.9.items().then_list(self.10.items().then_list(self.11.items().then_list(self.12.items())))))));
        crate::projection::lemma_plain_parts(self.4.items(), self.5.items().then_list(self.6.items().then_list(self.7.items().then_list(self.8.items().then_list(self.9.items().then_list(self.10.items().then_list(self.11.items().then_list(self.12.items()))))))));
        crate::projection::lemma_plain_parts(self.3.items(), self.4.items().then_list(self.5.items().then_list(self.6.items().then_list(self.7.items().then_list(self.8.items().then_list(self.9.items().then_list(self.10.items().then_list(self.11.items().then_list(self.12.items())))))))));
        crate::projection::lemma_plain_parts(self.2.items(), self.3.items().then_list(self.4.items().then_list(self.5.items().then_list(self.6.items().then_list(self.7.items().then_list(self.8.items().then_list(self.9.items().then_list(self.10.items().then_list(self.11.items().then_list(self.12.items()))))))))));
        crate::projection::lemma_plain_parts(self.1.items(), self.2.items().then_list(self.3.items().then_list(self.4.items().then_list(self.5.items().then_list(self.6.items().then_list(self.7.items().then_list(self.8.items().then_list(self.9.items().then_list(self.10.items().then_list(self.11.items().then_list(self.12.items())))))))))));
        crate::projection::lemma_plain_parts(self.0.items(), self.1.items().then_list(self.2.items().then_list(self.3.items().then_list(self.4.items().then_list(self.5.items().then_list(self.6.items().then_list(self.7.items().then_list(self.8.items().then_list(self.9.items().then_list(self.10.items().then_list(self.11.items().then_list(self.12.items()))))))))))));
    }
}

impl<T0: Projectable, T1: Projectable, T2: Projectable, T3: Projectable, T4: Projectable, T5: Projectable, T6: Projectable, T7: Projectable, T8: Projectable, T9: Projectable, T10: Projectable, T11: Projectable, T12: Projectable, T13: Projectable> Projectable for (T0, T1, T2, T3, T4, T5, T6, T7, T8, T9, T10, T11, T12, T13) {
    type Rebound<'scope> = (T0::Rebound<'scope>, T1::Rebound<'scope>, T2::Rebound<'scope>, T3::Rebound<'scope>, T4::Rebound<'scope>, T5::Rebound<'scope>, T6::Rebound<'scope>, T7::Rebound<'scope>, T8::Rebound<'scope>, T9::Rebound<'scope>, T10::Rebound<'scope>, T11::Rebound<'scope>, T12::Rebound<'scope>, T13::Rebound<'scope>);

    open spec fn rebound<'scope>(&self, alias: SourceAlias) -> Self::Rebound<'scope> {
        (self.0.rebound(alias), self.1.rebound(alias), self.2.rebound(alias), self.3.rebound(alias), self.4.rebound(alias), self.5.rebound(alias), self.6.rebound(alias), self.7.rebound(alias), self.8.rebound(alias), self.9.rebound(alias), self.10.rebound(alias), self.11.rebound(alias), self.12.rebound(alias), self.13.rebound(alias))
    }

    open spec fn rebinds_with_prefix<'scope>(
        &self,
        alias: SourceAlias,
        prefix: Seq<char>,
        rebound: Self::Rebound<'scope>,
    ) -> bool {
        &&& self.0.rebinds_with_prefix(alias, prefix, rebound.0)
        &&& self.1.rebinds_with_prefix(alias, prefix, rebound.1)
        &&& self.2.rebinds_with_prefix(alias, prefix, rebound.2)
        &&& self.3.rebinds_with_prefix(alias, prefix, rebound.3)
        &&& self.4.rebinds_with_prefix(alias, prefix, rebound.4)
        &&& self.5.rebinds_with_prefix(alias, prefix, rebound.5)
        &&& self.6.rebinds_with_prefix(alias, prefix, rebound.6)
        &&& self.7.rebinds_with_prefix(alias, prefix, rebound.7)
        &&& self.8.rebinds_with_prefix(alias, prefix, rebound.8)
        &&& self.9.rebinds_with_prefix(alias, prefix, rebound.9)
        &&& self.10.rebinds_with_prefix(alias, prefix, rebound.10)
        &&& self.11.rebinds_with_prefix(alias, prefix, rebound.11)
        &&& self.12.rebinds_with_prefix(alias, prefix, rebound.12)
        &&& self.13.rebinds_with_prefix(alias, prefix, rebound.13)
    }

    fn re_alias<'scope>(&self, alias: SourceAlias) -> (rebound: Self::Rebound<'scope>) {
        (self.0.re_alias(alias), self.1.re_alias(alias), self.2.re_alias(alias), self.3.re_alias(alias), self.4.re_alias(alias), self.5.re_alias(alias), self.6.re_alias(alias), self.7.re_alias(alias), self.8.re_alias(alias), self.9.re_alias(alias), self.10.re_alias(alias), self.11.re_alias(alias), self.12.re_alias(alias), self.13.re_alias(alias))
    }

    fn re_alias_with_prefix<'scope>(&self, alias: SourceAlias, prefix: &str) -> (rebound:
        Self::Rebound<'scope>) {
        (self.0.re_alias_with_prefix(alias, prefix), self.1.re_alias_with_prefix(alias, prefix), self.2.re_alias_with_prefix(alias, prefix), self.3.re_alias_with_prefix(alias, prefix), self.4.re_alias_with_prefix(alias, prefix), self.5.re_alias_with_prefix(alias, prefix), self.6.re_alias_with_prefix(alias, prefix), self.7.re_alias_with_prefix(alias, prefix), self.8.re_alias_with_prefix(alias, prefix), self.9.re_alias_with_prefix(alias, prefix), self.10.re_alias_with_prefix(alias, prefix), self.11.re_alias_with_prefix(alias, prefix), self.12.re_alias_with_prefix(alias, prefix), self.13.re_alias_with_prefix(alias, prefix))
    }
}

impl<T0: Duplicate, T1: Duplicate, T2: Duplicate, T3: Duplicate, T4: Duplicate, T5: Duplicate, T6: Duplicate, T7: Duplicate, T8: Duplicate, T9: Duplicate, T10: Duplicate, T11: Duplicate, T12: Duplicate, T13: Duplicate> Duplicate for (T0, T1, T2, T3, T4, T5, T6, T7, T8, T9, T10, T11, T12, T13) {
    fn duplicate(&self) -> (copy: Self) {
        (self.0.duplicate(), self.1.duplicate(), self.2.duplicate(), self.3.duplicate(), self.4.duplicate(), self.5.duplicate(), self.6.duplicate(), self.7.duplicate(), self.8.duplicate(), self.9.duplicate(), self.10.duplicate(), self.11.duplicate(), self.12.duplicate(), self.13.duplicate())
    }
}

impl<T0: ProjectionShape, T1: ProjectionShape, T2: ProjectionShape, T3: ProjectionShape, T4: ProjectionShape, T5: ProjectionShape, T6: ProjectionShape, T7: ProjectionShape, T8: ProjectionShape, T9: ProjectionShape, T10: ProjectionShape, T11: ProjectionShape, T12: ProjectionShape, T13: ProjectionShape> ProjectionShape for (T0, T1, T2, T3, T4, T5, T6, T7, T8, T9, T10, T11, T12, T13) {
    type Exprs<'scope> = (T0::Exprs<'scope>, T1::Exprs<'scope>, T2::Exprs<'scope>, T3::Exprs<'scope>, T4::Exprs<'scope>, T5::Exprs<'scope>, T6::Exprs<'scope>, T7::Exprs<'scope>, T8::Exprs<'scope>, T9::Exprs<'scope>, T10::Exprs<'scope>, T11::Exprs<'scope>, T12::Exprs<'scope>, T13::Exprs<'scope>);

    type ReboundExprs<'scope> = (T0::ReboundExprs<'scope>, T1::ReboundExprs<'scope>, T2::ReboundExprs<'scope>, T3::ReboundExprs<'scope>, T4::ReboundExprs<'scope>, T5::ReboundExprs<'scope>, T6::ReboundExprs<'scope>, T7::ReboundExprs<'scope>, T8::ReboundExprs<'scope>, T9::ReboundExprs<'scope>, T10::ReboundExprs<'scope>, T11::ReboundExprs<'scope>, T12::ReboundExprs<'scope>, T13::ReboundExprs<'scope>);

    type Row = (T0::Row, T1::Row, T2::Row, T3::Row, T4::Row, T5::Row, T6::Row, T7::Row, T8::Row, T9::Row, T10::Row, T11::Row, T12::Row, T13::Row);

    open spec fn shape_exprs<'scope>(alias: SourceAlias) -> Self::Exprs<'scope> {
        (T0::shape_exprs(alias), T1::shape_exprs(alias), T2::shape_exprs(alias), T3::shape_exprs(alias), T4::shape_exprs(alias), T5::shape_exprs(alias), T6::shape_exprs(alias), T7::shape_exprs(alias), T8::shape_exprs(alias), T9::shape_exprs(alias), T10::shape_exprs(alias), T11::shape_exprs(alias), T12::shape_exprs(alias), T13::shape_exprs(alias))
    }

    open spec fn shape_rebound<'scope>(alias: SourceAlias) -> Self::ReboundExprs<'scope> {
        (T0::shape_rebound(alias), T1::shape_rebound(alias), T2::shape_rebound(alias), T3::shape_rebound(alias), T4::shape_rebound(alias), T5::shape_rebound(alias), T6::shape_rebound(alias), T7::shape_rebound(alias), T8::shape_rebound(alias), T9::shape_rebound(alias), T10::shape_rebound(alias), T11::shape_rebound(alias), T12::shape_rebound(alias), T13::shape_rebound(alias))
    }

    fn exprs<'scope>(alias: SourceAlias) -> (exprs: Self::Exprs<'scope>) {
        (T0::exprs(alias), T1::exprs(alias), T2::exprs(alias), T3::exprs(alias), T4::exprs(alias), T5::exprs(alias), T6::exprs(alias), T7::exprs(alias), T8::exprs(alias), T9::exprs(alias), T10::exprs(alias), T11::exprs(alias), T12::exprs(alias), T13::exprs(alias))
    }

    fn rebound_exprs<'scope>(alias: SourceAlias) -> (exprs: Self::ReboundExprs<'scope>) {
        (T0::rebound_exprs(alias), T1::rebound_exprs(alias), T2::rebound_exprs(alias), T3::rebound_exprs(alias), T4::rebound_exprs(alias), T5::rebound_exprs(alias), T6::rebound_exprs(alias), T7::rebound_exprs(alias), T8::rebound_exprs(alias), T9::rebound_exprs(alias), T10::rebound_exprs(alias), T11::rebound_exprs(alias), T12::rebound_exprs(alias), T13::rebound_exprs(alias))
    }
}

impl<T0: ProjectionParams, T1: ProjectionParams, T2: ProjectionParams, T3: ProjectionParams, T4: ProjectionParams, T5: ProjectionParams, T6: ProjectionParams, T7: ProjectionParams, T8: ProjectionParams, T9: ProjectionParams, T10: ProjectionParams, T11: ProjectionParams, T12: ProjectionParams, T13: ProjectionParams> ProjectionParams for (T0, T1, T2, T3, T4, T5, T6, T7, T8, T9, T10, T11, T12, T13) where
    T12::Params: HAppend<T13::Params>,
    T11::Params: HAppend<<T12::Params as HAppend<T13::Params>>::Output>,
    T10::Params: HAppend<<T11::Params as HAppend<<T12::Params as HAppend<T13::Params>>::Output>>::Output>,
    T9::Params: HAppend<<T10::Params as HAppend<<T11::Params as HAppend<<T12::Params as HAppend<T13::Params>>::Output>>::Output>>::Output>,
    T8::Params: HAppend<<T9::Params as HAppend<<T10::Params as HAppend<<T11::Params as HAppend<<T12::Params as HAppend<T13::Params>>::Output>>::Output>>::Output>>::Output>,
    T7::Params: HAppend<<T8::Params as HAppend<<T9::Params as HAppend<<T10::Params as HAppend<<T11::Params as HAppend<<T12::Params as HAppend<T13::Params>>::Output>>::Output>>::Output>>::Output>>::Output>,
    T6::Params: HAppend<<T7::Params as HAppend<<T8::Params as HAppend<<T9::Params as HAppend<<T10::Params as HAppend<<T11::Params as HAppend<<T12::Params as HAppend<T13::Params>>::Output>>::Output>>::Output>>::Output>>::Output>>::Output>,
    T5::Params: HAppend<<T6::Params as HAppend<<T7::Params as HAppend<<T8::Params as HAppend<<T9::Params as HAppend<<T10::Params as HAppend<<T11::Params as HAppend<<T12::Params as HAppend<T13::Params>>::Output>>::Output>>::Output>>::Output>>::Output>>::Output>>::Output>,
    T4::Params: HAppend<<T5::Params as HAppend<<T6::Params as HAppend<<T7::Params as HAppend<<T8::Params as HAppend<<T9::Params as HAppend<<T10::Params as HAppend<<T11::Params as HAppend<<T12::Params as HAppend<T13::Params>>::Output>>::Output>>::Output>>::Output>>::Output>>::Output>>::Output>>::Output>,
    T3::Params: HAppend<<T4::Params as HAppend<<T5::Params as HAppend<<T6::Params as HAppend<<T7::Params as HAppend<<T8::Params as HAppend<<T9::Params as HAppend<<T10::Params as HAppend<<T11::Params as HAppend<<T12::Params as HAppend<T13::Params>>::Output>>::Output>>::Output>>::Output>>::Output>>::Output>>::Output>>::Output>>::Output>,
    T2::Params: HAppend<<T3::Params as HAppend<<T4::Params as HAppend<<T5::Params as HAppend<<T6::Params as HAppend<<T7::Params as HAppend<<T8::Params as HAppend<<T9::Params as HAppend<<T10::Params as HAppend<<T11::Params as HAppend<<T12::Params as HAppend<T13::Params>>::Output>>::Output>>::Output>>::Output>>::Output>>::Output>>::Output>>::Output>>::Output>>::Output>,
    T1::Params: HAppend<<T2::Params as HAppend<<T3::Params as HAppend<<T4::Params as HAppend<<T5::Params as HAppend<<T6::Params as HAppend<<T7::Params as HAppend<<T8::Params as HAppend<<T9::Params as HAppend<<T10::Params as HAppend<<T11::Params as HAppend<<T12::Params as HAppend<T13::Params>>::Output>>::Output>>::Output>>::Output>>::Output>>::Output>>::Output>>::Output>>::Output>>::Output>>::Output>,
    T0::Params: HAppend<<T1::Params as HAppend<<T2::Params as HAppend<<T3::Params as HAppend<<T4::Params as HAppend<<T5::Params as HAppend<<T6::Params as HAppend<<T7::Params as HAppend<<T8::Params as HAppend<<T9::Params as HAppend<<T10::Params as HAppend<<T11::Params as HAppend<<T12::Params as HAppend<T13::Params>>::Output>>::Output>>::Output>>::Output>>::Output>>::Output>>::Output>>::Output>>::Output>>::Output>>::Output>>::Output>,
 {
    type Params = <T0::Params as HAppend<<T1::Params as HAppend<<T2::Params as HAppend<<T3::Params as HAppend<<T4::Params as HAppend<<T5::Params as HAppend<<T6::Params as HAppend<<T7::Params as HAppend<<T8::Params as HAppend<<T9::Params as HAppend<<T10::Params as HAppend<<T11::Params as HAppend<<T12::Params as HAppend<T13::Params>>::Output>>::Output>>::Output>>::Output>>::Output>>::Output>>::Output>>::Output>>::Output>>::Output>>::Output>>::Output>>::Output;
}

impl<T0: ProjectionClass, T1: ProjectionClass<Class = T0::Class>, T2: ProjectionClass<Class = T0::Class>, T3: ProjectionClass<Class = T0::Class>, T4: ProjectionClass<Class = T0::Class>, T5: ProjectionClass<Class = T0::Class>, T6: ProjectionClass<Class = T0::Class>, T7: ProjectionClass<Class = T0::Class>, T8: ProjectionClass<Class = T0::Class>, T9: ProjectionClass<Class = T0::Class>, T10: ProjectionClass<Class = T0::Class>, T11: ProjectionClass<Class = T0::Class>, T12: ProjectionClass<Class = T0::Class>, T13: ProjectionClass<Class = T0::Class>> ProjectionClass for (T0, T1, T2, T3, T4, T5, T6, T7, T8, T9, T10, T11, T12, T13) {
    type Class = T0::Class;
}

impl<T0: ReturnableProjection, T1: ReturnableProjection, T2: ReturnableProjection, T3: ReturnableProjection, T4: ReturnableProjection, T5: ReturnableProjection, T6: ReturnableProjection, T7: ReturnableProjection, T8: ReturnableProjection, T9: ReturnableProjection, T10: ReturnableProjection, T11: ReturnableProjection, T12: ReturnableProjection, T13: ReturnableProjection> ReturnableProjection for (T0, T1, T2, T3, T4, T5, T6, T7, T8, T9, T10, T11, T12, T13) {

}

impl<T0: RenderProjectable<B>, T1: RenderProjectable<B>, T2: RenderProjectable<B>, T3: RenderProjectable<B>, T4: RenderProjectable<B>, T5: RenderProjectable<B>, T6: RenderProjectable<B>, T7: RenderProjectable<B>, T8: RenderProjectable<B>, T9: RenderProjectable<B>, T10: RenderProjectable<B>, T11: RenderProjectable<B>, T12: RenderProjectable<B>, T13: RenderProjectable<B>, B: Backend> RenderProjectable<B> for (T0, T1, T2, T3, T4, T5, T6, T7, T8, T9, T10, T11, T12, T13) where
    T12::Params: HAppend<T13::Params>,
    T11::Params: HAppend<<T12::Params as HAppend<T13::Params>>::Output>,
    T10::Params: HAppend<<T11::Params as HAppend<<T12::Params as HAppend<T13::Params>>::Output>>::Output>,
    T9::Params: HAppend<<T10::Params as HAppend<<T11::Params as HAppend<<T12::Params as HAppend<T13::Params>>::Output>>::Output>>::Output>,
    T8::Params: HAppend<<T9::Params as HAppend<<T10::Params as HAppend<<T11::Params as HAppend<<T12::Params as HAppend<T13::Params>>::Output>>::Output>>::Output>>::Output>,
    T7::Params: HAppend<<T8::Params as HAppend<<T9::Params as HAppend<<T10::Params as HAppend<<T11::Params as HAppend<<T12::Params as HAppend<T13::Params>>::Output>>::Output>>::Output>>::Output>>::Output>,
    T6::Params: HAppend<<T7::Params as HAppend<<T8::Params as HAppend<<T9::Params as HAppend<<T10::Params as HAppend<<T11::Params as HAppend<<T12::Params as HAppend<T13::Params>>::Output>>::Output>>::Output>>::Output>>::Output>>::Output>,
    T5::Params: HAppend<<T6::Params as HAppend<<T7::Params as HAppend<<T8::Params as HAppend<<T9::Params as HAppend<<T10::Params as HAppend<<T11::Params as HAppend<<T12::Params as HAppend<T13::Params>>::Output>>::Output>>::Output>>::Output>>::Output>>::Output>>::Output>,
    T4::Params: HAppend<<T5::Params as HAppend<<T6::Params as HAppend<<T7::Params as HAppend<<T8::Params as HAppend<<T9::Params as HAppend<<T10::Params as HAppend<<T11::Params as HAppend<<T12::Params as HAppend<T13::Params>>::Output>>::Output>>::Output>>::Output>>::Output>>::Output>>::Output>>::Output>,
    T3::Params: HAppend<<T4::Params as HAppend<<T5::Params as HAppend<<T6::Params as HAppend<<T7::Params as HAppend<<T8::Params as HAppend<<T9::Params as HAppend<<T10::Params as HAppend<<T11::Params as HAppend<<T12::Params as HAppend<T13::Params>>::Output>>::Output>>::Output>>::Output>>::Output>>::Output>>::Output>>::Output>>::Output>,
    T2::Params: HAppend<<T3::Params as HAppend<<T4::Params as HAppend<<T5::Params as HAppend<<T6::Params as HAppend<<T7::Params as HAppend<<T8::Params as HAppend<<T9::Params as HAppend<<T10::Params as HAppend<<T11::Params as HAppend<<T12::Params as HAppend<T13::Params>>::Output>>::Output>>::Output>>::Output>>::Output>>::Output>>::Output>>::Output>>::Output>>::Output>,
    T1::Params: HAppend<<T2::Params as HAppend<<T3::Params as HAppend<<T4::Params as HAppend<<T5::Params as HAppend<<T6::Params as HAppend<<T7::Params as HAppend<<T8::Params as HAppend<<T9::Params as HAppend<<T10::Params as HAppend<<T11::Params as HAppend<<T12::Params as HAppend<T13::Params>>::Output>>::Output>>::Output>>::Output>>::Output>>::Output>>::Output>>::Output>>::Output>>::Output>>::Output>,
    T0::Params: HAppend<<T1::Params as HAppend<<T2::Params as HAppend<<T3::Params as HAppend<<T4::Params as HAppend<<T5::Params as HAppend<<T6::Params as HAppend<<T7::Params as HAppend<<T8::Params as HAppend<<T9::Params as HAppend<<T10::Params as HAppend<<T11::Params as HAppend<<T12::Params as HAppend<T13::Params>>::Output>>::Output>>::Output>>::Output>>::Output>>::Output>>::Output>>::Output>>::Output>>::Output>>::Output>>::Output>,
 {
    open spec fn items(&self) -> List<ProjectionTree<Bound<B>>> {
        self.0.items().then_list(self.1.items().then_list(self.2.items().then_list(self.3.items().then_list(self.4.items().then_list(self.5.items().then_list(self.6.items().then_list(self.7.items().then_list(self.8.items().then_list(self.9.items().then_list(self.10.items().then_list(self.11.items().then_list(self.12.items().then_list(self.13.items())))))))))))))
    }

    fn lower_projection(&self) -> (items: List<ProjectionTree<Bound<B>>>) {
        self.0.lower_projection().append(self.1.lower_projection().append(self.2.lower_projection().append(self.3.lower_projection().append(self.4.lower_projection().append(self.5.lower_projection().append(self.6.lower_projection().append(self.7.lower_projection().append(self.8.lower_projection().append(self.9.lower_projection().append(self.10.lower_projection().append(self.11.lower_projection().append(self.12.lower_projection().append(self.13.lower_projection())))))))))))))
    }

    fn lower_projection_with_prefix(&self, prefix: &str) -> (items: List<
        ProjectionTree<Bound<B>>,
    >) {
        let items0 = self.0.lower_projection_with_prefix(prefix);
        let items1 = self.1.lower_projection_with_prefix(prefix);
        let items2 = self.2.lower_projection_with_prefix(prefix);
        let items3 = self.3.lower_projection_with_prefix(prefix);
        let items4 = self.4.lower_projection_with_prefix(prefix);
        let items5 = self.5.lower_projection_with_prefix(prefix);
        let items6 = self.6.lower_projection_with_prefix(prefix);
        let items7 = self.7.lower_projection_with_prefix(prefix);
        let items8 = self.8.lower_projection_with_prefix(prefix);
        let items9 = self.9.lower_projection_with_prefix(prefix);
        let items10 = self.10.lower_projection_with_prefix(prefix);
        let items11 = self.11.lower_projection_with_prefix(prefix);
        let items12 = self.12.lower_projection_with_prefix(prefix);
        let items13 = self.13.lower_projection_with_prefix(prefix);
        proof {
            crate::projection::lemma_prefixed_parts(self.12.items(), self.13.items(), prefix@, items12, items13);
            crate::projection::lemma_prefixed_parts(self.11.items(), self.12.items().then_list(self.13.items()), prefix@, items11, items12.then_list(items13));
            crate::projection::lemma_prefixed_parts(self.10.items(), self.11.items().then_list(self.12.items().then_list(self.13.items())), prefix@, items10, items11.then_list(items12.then_list(items13)));
            crate::projection::lemma_prefixed_parts(self.9.items(), self.10.items().then_list(self.11.items().then_list(self.12.items().then_list(self.13.items()))), prefix@, items9, items10.then_list(items11.then_list(items12.then_list(items13))));
            crate::projection::lemma_prefixed_parts(self.8.items(), self.9.items().then_list(self.10.items().then_list(self.11.items().then_list(self.12.items().then_list(self.13.items())))), prefix@, items8, items9.then_list(items10.then_list(items11.then_list(items12.then_list(items13)))));
            crate::projection::lemma_prefixed_parts(self.7.items(), self.8.items().then_list(self.9.items().then_list(self.10.items().then_list(self.11.items().then_list(self.12.items().then_list(self.13.items()))))), prefix@, items7, items8.then_list(items9.then_list(items10.then_list(items11.then_list(items12.then_list(items13))))));
            crate::projection::lemma_prefixed_parts(self.6.items(), self.7.items().then_list(self.8.items().then_list(self.9.items().then_list(self.10.items().then_list(self.11.items().then_list(self.12.items().then_list(self.13.items())))))), prefix@, items6, items7.then_list(items8.then_list(items9.then_list(items10.then_list(items11.then_list(items12.then_list(items13)))))));
            crate::projection::lemma_prefixed_parts(self.5.items(), self.6.items().then_list(self.7.items().then_list(self.8.items().then_list(self.9.items().then_list(self.10.items().then_list(self.11.items().then_list(self.12.items().then_list(self.13.items()))))))), prefix@, items5, items6.then_list(items7.then_list(items8.then_list(items9.then_list(items10.then_list(items11.then_list(items12.then_list(items13))))))));
            crate::projection::lemma_prefixed_parts(self.4.items(), self.5.items().then_list(self.6.items().then_list(self.7.items().then_list(self.8.items().then_list(self.9.items().then_list(self.10.items().then_list(self.11.items().then_list(self.12.items().then_list(self.13.items())))))))), prefix@, items4, items5.then_list(items6.then_list(items7.then_list(items8.then_list(items9.then_list(items10.then_list(items11.then_list(items12.then_list(items13)))))))));
            crate::projection::lemma_prefixed_parts(self.3.items(), self.4.items().then_list(self.5.items().then_list(self.6.items().then_list(self.7.items().then_list(self.8.items().then_list(self.9.items().then_list(self.10.items().then_list(self.11.items().then_list(self.12.items().then_list(self.13.items()))))))))), prefix@, items3, items4.then_list(items5.then_list(items6.then_list(items7.then_list(items8.then_list(items9.then_list(items10.then_list(items11.then_list(items12.then_list(items13))))))))));
            crate::projection::lemma_prefixed_parts(self.2.items(), self.3.items().then_list(self.4.items().then_list(self.5.items().then_list(self.6.items().then_list(self.7.items().then_list(self.8.items().then_list(self.9.items().then_list(self.10.items().then_list(self.11.items().then_list(self.12.items().then_list(self.13.items())))))))))), prefix@, items2, items3.then_list(items4.then_list(items5.then_list(items6.then_list(items7.then_list(items8.then_list(items9.then_list(items10.then_list(items11.then_list(items12.then_list(items13)))))))))));
            crate::projection::lemma_prefixed_parts(self.1.items(), self.2.items().then_list(self.3.items().then_list(self.4.items().then_list(self.5.items().then_list(self.6.items().then_list(self.7.items().then_list(self.8.items().then_list(self.9.items().then_list(self.10.items().then_list(self.11.items().then_list(self.12.items().then_list(self.13.items()))))))))))), prefix@, items1, items2.then_list(items3.then_list(items4.then_list(items5.then_list(items6.then_list(items7.then_list(items8.then_list(items9.then_list(items10.then_list(items11.then_list(items12.then_list(items13))))))))))));
            crate::projection::lemma_prefixed_parts(self.0.items(), self.1.items().then_list(self.2.items().then_list(self.3.items().then_list(self.4.items().then_list(self.5.items().then_list(self.6.items().then_list(self.7.items().then_list(self.8.items().then_list(self.9.items().then_list(self.10.items().then_list(self.11.items().then_list(self.12.items().then_list(self.13.items())))))))))))), prefix@, items0, items1.then_list(items2.then_list(items3.then_list(items4.then_list(items5.then_list(items6.then_list(items7.then_list(items8.then_list(items9.then_list(items10.then_list(items11.then_list(items12.then_list(items13)))))))))))));
        }
        items0.append(items1.append(items2.append(items3.append(items4.append(items5.append(items6.append(items7.append(items8.append(items9.append(items10.append(items11.append(items12.append(items13)))))))))))))
    }

    proof fn lemma_projection_params<D: Dialect>(&self, dialect: D, bare: bool, lead: Seq<char>) {
        let lead1 = if self.0.items() is Nil { lead } else { ", "@ };
        self.0.lemma_projection_params(dialect, bare, lead);
        crate::projection::lemma_projection_parts(dialect, bare, lead, self.0.items(), self.1.items().then_list(self.2.items().then_list(self.3.items().then_list(self.4.items().then_list(self.5.items().then_list(self.6.items().then_list(self.7.items().then_list(self.8.items().then_list(self.9.items().then_list(self.10.items().then_list(self.11.items().then_list(self.12.items().then_list(self.13.items())))))))))))));
        let lead2 = if self.1.items() is Nil { lead1 } else { ", "@ };
        self.1.lemma_projection_params(dialect, bare, lead1);
        crate::projection::lemma_projection_parts(dialect, bare, lead1, self.1.items(), self.2.items().then_list(self.3.items().then_list(self.4.items().then_list(self.5.items().then_list(self.6.items().then_list(self.7.items().then_list(self.8.items().then_list(self.9.items().then_list(self.10.items().then_list(self.11.items().then_list(self.12.items().then_list(self.13.items()))))))))))));
        let lead3 = if self.2.items() is Nil { lead2 } else { ", "@ };
        self.2.lemma_projection_params(dialect, bare, lead2);
        crate::projection::lemma_projection_parts(dialect, bare, lead2, self.2.items(), self.3.items().then_list(self.4.items().then_list(self.5.items().then_list(self.6.items().then_list(self.7.items().then_list(self.8.items().then_list(self.9.items().then_list(self.10.items().then_list(self.11.items().then_list(self.12.items().then_list(self.13.items())))))))))));
        let lead4 = if self.3.items() is Nil { lead3 } else { ", "@ };
        self.3.lemma_projection_params(dialect, bare, lead3);
        crate::projection::lemma_projection_parts(dialect, bare, lead3, self.3.items(), self.4.items().then_list(self.5.items().then_list(self.6.items().then_list(self.7.items().then_list(self.8.items().then_list(self.9.items().then_list(self.10.items().then_list(self.11.items().then_list(self.12.items().then_list(self.13.items()))))))))));
        let lead5 = if self.4.items() is Nil { lead4 } else { ", "@ };
        self.4.lemma_projection_params(dialect, bare, lead4);
        crate::projection::lemma_projection_parts(dialect, bare, lead4, self.4.items(), self.5.items().then_list(self.6.items().then_list(self.7.items().then_list(self.8.items().then_list(self.9.items().then_list(self.10.items().then_list(self.11.items().then_list(self.12.items().then_list(self.13.items())))))))));
        let lead6 = if self.5.items() is Nil { lead5 } else { ", "@ };
        self.5.lemma_projection_params(dialect, bare, lead5);
        crate::projection::lemma_projection_parts(dialect, bare, lead5, self.5.items(), self.6.items().then_list(self.7.items().then_list(self.8.items().then_list(self.9.items().then_list(self.10.items().then_list(self.11.items().then_list(self.12.items().then_list(self.13.items()))))))));
        let lead7 = if self.6.items() is Nil { lead6 } else { ", "@ };
        self.6.lemma_projection_params(dialect, bare, lead6);
        crate::projection::lemma_projection_parts(dialect, bare, lead6, self.6.items(), self.7.items().then_list(self.8.items().then_list(self.9.items().then_list(self.10.items().then_list(self.11.items().then_list(self.12.items().then_list(self.13.items())))))));
        let lead8 = if self.7.items() is Nil { lead7 } else { ", "@ };
        self.7.lemma_projection_params(dialect, bare, lead7);
        crate::projection::lemma_projection_parts(dialect, bare, lead7, self.7.items(), self.8.items().then_list(self.9.items().then_list(self.10.items().then_list(self.11.items().then_list(self.12.items().then_list(self.13.items()))))));
        let lead9 = if self.8.items() is Nil { lead8 } else { ", "@ };
        self.8.lemma_projection_params(dialect, bare, lead8);
        crate::projection::lemma_projection_parts(dialect, bare, lead8, self.8.items(), self.9.items().then_list(self.10.items().then_list(self.11.items().then_list(self.12.items().then_list(self.13.items())))));
        let lead10 = if self.9.items() is Nil { lead9 } else { ", "@ };
        self.9.lemma_projection_params(dialect, bare, lead9);
        crate::projection::lemma_projection_parts(dialect, bare, lead9, self.9.items(), self.10.items().then_list(self.11.items().then_list(self.12.items().then_list(self.13.items()))));
        let lead11 = if self.10.items() is Nil { lead10 } else { ", "@ };
        self.10.lemma_projection_params(dialect, bare, lead10);
        crate::projection::lemma_projection_parts(dialect, bare, lead10, self.10.items(), self.11.items().then_list(self.12.items().then_list(self.13.items())));
        let lead12 = if self.11.items() is Nil { lead11 } else { ", "@ };
        self.11.lemma_projection_params(dialect, bare, lead11);
        crate::projection::lemma_projection_parts(dialect, bare, lead11, self.11.items(), self.12.items().then_list(self.13.items()));
        let lead13 = if self.12.items() is Nil { lead12 } else { ", "@ };
        self.12.lemma_projection_params(dialect, bare, lead12);
        crate::projection::lemma_projection_parts(dialect, bare, lead12, self.12.items(), self.13.items());
        self.13.lemma_projection_params(dialect, bare, lead13);
        <T0::Params as HAppend<<T1::Params as HAppend<<T2::Params as HAppend<<T3::Params as HAppend<<T4::Params as HAppend<<T5::Params as HAppend<<T6::Params as HAppend<<T7::Params as HAppend<<T8::Params as HAppend<<T9::Params as HAppend<<T10::Params as HAppend<<T11::Params as HAppend<<T12::Params as HAppend<T13::Params>>::Output>>::Output>>::Output>>::Output>>::Output>>::Output>>::Output>>::Output>>::Output>>::Output>>::Output>>::Output>>::lemma_append_width();
        <T1::Params as HAppend<<T2::Params as HAppend<<T3::Params as HAppend<<T4::Params as HAppend<<T5::Params as HAppend<<T6::Params as HAppend<<T7::Params as HAppend<<T8::Params as HAppend<<T9::Params as HAppend<<T10::Params as HAppend<<T11::Params as HAppend<<T12::Params as HAppend<T13::Params>>::Output>>::Output>>::Output>>::Output>>::Output>>::Output>>::Output>>::Output>>::Output>>::Output>>::Output>>::lemma_append_width();
        <T2::Params as HAppend<<T3::Params as HAppend<<T4::Params as HAppend<<T5::Params as HAppend<<T6::Params as HAppend<<T7::Params as HAppend<<T8::Params as HAppend<<T9::Params as HAppend<<T10::Params as HAppend<<T11::Params as HAppend<<T12::Params as HAppend<T13::Params>>::Output>>::Output>>::Output>>::Output>>::Output>>::Output>>::Output>>::Output>>::Output>>::Output>>::lemma_append_width();
        <T3::Params as HAppend<<T4::Params as HAppend<<T5::Params as HAppend<<T6::Params as HAppend<<T7::Params as HAppend<<T8::Params as HAppend<<T9::Params as HAppend<<T10::Params as HAppend<<T11::Params as HAppend<<T12::Params as HAppend<T13::Params>>::Output>>::Output>>::Output>>::Output>>::Output>>::Output>>::Output>>::Output>>::Output>>::lemma_append_width();
        <T4::Params as HAppend<<T5::Params as HAppend<<T6::Params as HAppend<<T7::Params as HAppend<<T8::Params as HAppend<<T9::Params as HAppend<<T10::Params as HAppend<<T11::Params as HAppend<<T12::Params as HAppend<T13::Params>>::Output>>::Output>>::Output>>::Output>>::Output>>::Output>>::Output>>::Output>>::lemma_append_width();
        <T5::Params as HAppend<<T6::Params as HAppend<<T7::Params as HAppend<<T8::Params as HAppend<<T9::Params as HAppend<<T10::Params as HAppend<<T11::Params as HAppend<<T12::Params as HAppend<T13::Params>>::Output>>::Output>>::Output>>::Output>>::Output>>::Output>>::Output>>::lemma_append_width();
        <T6::Params as HAppend<<T7::Params as HAppend<<T8::Params as HAppend<<T9::Params as HAppend<<T10::Params as HAppend<<T11::Params as HAppend<<T12::Params as HAppend<T13::Params>>::Output>>::Output>>::Output>>::Output>>::Output>>::Output>>::lemma_append_width();
        <T7::Params as HAppend<<T8::Params as HAppend<<T9::Params as HAppend<<T10::Params as HAppend<<T11::Params as HAppend<<T12::Params as HAppend<T13::Params>>::Output>>::Output>>::Output>>::Output>>::Output>>::lemma_append_width();
        <T8::Params as HAppend<<T9::Params as HAppend<<T10::Params as HAppend<<T11::Params as HAppend<<T12::Params as HAppend<T13::Params>>::Output>>::Output>>::Output>>::Output>>::lemma_append_width();
        <T9::Params as HAppend<<T10::Params as HAppend<<T11::Params as HAppend<<T12::Params as HAppend<T13::Params>>::Output>>::Output>>::Output>>::lemma_append_width();
        <T10::Params as HAppend<<T11::Params as HAppend<<T12::Params as HAppend<T13::Params>>::Output>>::Output>>::lemma_append_width();
        <T11::Params as HAppend<<T12::Params as HAppend<T13::Params>>::Output>>::lemma_append_width();
        <T12::Params as HAppend<T13::Params>>::lemma_append_width();
    }

    proof fn lemma_projection_plain(&self) {
        <T0::Params as HAppend<<T1::Params as HAppend<<T2::Params as HAppend<<T3::Params as HAppend<<T4::Params as HAppend<<T5::Params as HAppend<<T6::Params as HAppend<<T7::Params as HAppend<<T8::Params as HAppend<<T9::Params as HAppend<<T10::Params as HAppend<<T11::Params as HAppend<<T12::Params as HAppend<T13::Params>>::Output>>::Output>>::Output>>::Output>>::Output>>::Output>>::Output>>::Output>>::Output>>::Output>>::Output>>::Output>>::lemma_append_width();
        <T1::Params as HAppend<<T2::Params as HAppend<<T3::Params as HAppend<<T4::Params as HAppend<<T5::Params as HAppend<<T6::Params as HAppend<<T7::Params as HAppend<<T8::Params as HAppend<<T9::Params as HAppend<<T10::Params as HAppend<<T11::Params as HAppend<<T12::Params as HAppend<T13::Params>>::Output>>::Output>>::Output>>::Output>>::Output>>::Output>>::Output>>::Output>>::Output>>::Output>>::Output>>::lemma_append_width();
        <T2::Params as HAppend<<T3::Params as HAppend<<T4::Params as HAppend<<T5::Params as HAppend<<T6::Params as HAppend<<T7::Params as HAppend<<T8::Params as HAppend<<T9::Params as HAppend<<T10::Params as HAppend<<T11::Params as HAppend<<T12::Params as HAppend<T13::Params>>::Output>>::Output>>::Output>>::Output>>::Output>>::Output>>::Output>>::Output>>::Output>>::Output>>::lemma_append_width();
        <T3::Params as HAppend<<T4::Params as HAppend<<T5::Params as HAppend<<T6::Params as HAppend<<T7::Params as HAppend<<T8::Params as HAppend<<T9::Params as HAppend<<T10::Params as HAppend<<T11::Params as HAppend<<T12::Params as HAppend<T13::Params>>::Output>>::Output>>::Output>>::Output>>::Output>>::Output>>::Output>>::Output>>::Output>>::lemma_append_width();
        <T4::Params as HAppend<<T5::Params as HAppend<<T6::Params as HAppend<<T7::Params as HAppend<<T8::Params as HAppend<<T9::Params as HAppend<<T10::Params as HAppend<<T11::Params as HAppend<<T12::Params as HAppend<T13::Params>>::Output>>::Output>>::Output>>::Output>>::Output>>::Output>>::Output>>::Output>>::lemma_append_width();
        <T5::Params as HAppend<<T6::Params as HAppend<<T7::Params as HAppend<<T8::Params as HAppend<<T9::Params as HAppend<<T10::Params as HAppend<<T11::Params as HAppend<<T12::Params as HAppend<T13::Params>>::Output>>::Output>>::Output>>::Output>>::Output>>::Output>>::Output>>::lemma_append_width();
        <T6::Params as HAppend<<T7::Params as HAppend<<T8::Params as HAppend<<T9::Params as HAppend<<T10::Params as HAppend<<T11::Params as HAppend<<T12::Params as HAppend<T13::Params>>::Output>>::Output>>::Output>>::Output>>::Output>>::Output>>::lemma_append_width();
        <T7::Params as HAppend<<T8::Params as HAppend<<T9::Params as HAppend<<T10::Params as HAppend<<T11::Params as HAppend<<T12::Params as HAppend<T13::Params>>::Output>>::Output>>::Output>>::Output>>::Output>>::lemma_append_width();
        <T8::Params as HAppend<<T9::Params as HAppend<<T10::Params as HAppend<<T11::Params as HAppend<<T12::Params as HAppend<T13::Params>>::Output>>::Output>>::Output>>::Output>>::lemma_append_width();
        <T9::Params as HAppend<<T10::Params as HAppend<<T11::Params as HAppend<<T12::Params as HAppend<T13::Params>>::Output>>::Output>>::Output>>::lemma_append_width();
        <T10::Params as HAppend<<T11::Params as HAppend<<T12::Params as HAppend<T13::Params>>::Output>>::Output>>::lemma_append_width();
        <T11::Params as HAppend<<T12::Params as HAppend<T13::Params>>::Output>>::lemma_append_width();
        <T12::Params as HAppend<T13::Params>>::lemma_append_width();
        self.0.lemma_projection_plain();
        self.1.lemma_projection_plain();
        self.2.lemma_projection_plain();
        self.3.lemma_projection_plain();
        self.4.lemma_projection_plain();
        self.5.lemma_projection_plain();
        self.6.lemma_projection_plain();
        self.7.lemma_projection_plain();
        self.8.lemma_projection_plain();
        self.9.lemma_projection_plain();
        self.10.lemma_projection_plain();
        self.11.lemma_projection_plain();
        self.12.lemma_projection_plain();
        self.13.lemma_projection_plain();
        crate::projection::lemma_plain_parts(self.12.items(), self.13.items());
        crate::projection::lemma_plain_parts(self.11.items(), self.12.items().then_list(self.13.items()));
        crate::projection::lemma_plain_parts(self.10.items(), self.11.items().then_list(self.12.items().then_list(self.13.items())));
        crate::projection::lemma_plain_parts(self.9.items(), self.10.items().then_list(self.11.items().then_list(self.12.items().then_list(self.13.items()))));
        crate::projection::lemma_plain_parts(self.8.items(), self.9.items().then_list(self.10.items().then_list(self.11.items().then_list(self.12.items().then_list(self.13.items())))));
        crate::projection::lemma_plain_parts(self.7.items(), self.8.items().then_list(self.9.items().then_list(self.10.items().then_list(self.11.items().then_list(self.12.items().then_list(self.13.items()))))));
        crate::projection::lemma_plain_parts(self.6.items(), self.7.items().then_list(self.8.items().then_list(self.9.items().then_list(self.10.items().then_list(self.11.items().then_list(self.12.items().then_list(self.13.items())))))));
        crate::projection::lemma_plain_parts(self.5.items(), self.6.items().then_list(self.7.items().then_list(self.8.items().then_list(self.9.items().then_list(self.10.items().then_list(self.11.items().then_list(self.12.items().then_list(self.13.items()))))))));
        crate::projection::lemma_plain_parts(self.4.items(), self.5.items().then_list(self.6.items().then_list(self.7.items().then_list(self.8.items().then_list(self.9.items().then_list(self.10.items().then_list(self.11.items().then_list(self.12.items().then_list(self.13.items())))))))));
        crate::projection::lemma_plain_parts(self.3.items(), self.4.items().then_list(self.5.items().then_list(self.6.items().then_list(self.7.items().then_list(self.8.items().then_list(self.9.items().then_list(self.10.items().then_list(self.11.items().then_list(self.12.items().then_list(self.13.items()))))))))));
        crate::projection::lemma_plain_parts(self.2.items(), self.3.items().then_list(self.4.items().then_list(self.5.items().then_list(self.6.items().then_list(self.7.items().then_list(self.8.items().then_list(self.9.items().then_list(self.10.items().then_list(self.11.items().then_list(self.12.items().then_list(self.13.items())))))))))));
        crate::projection::lemma_plain_parts(self.1.items(), self.2.items().then_list(self.3.items().then_list(self.4.items().then_list(self.5.items().then_list(self.6.items().then_list(self.7.items().then_list(self.8.items().then_list(self.9.items().then_list(self.10.items().then_list(self.11.items().then_list(self.12.items().then_list(self.13.items()))))))))))));
        crate::projection::lemma_plain_parts(self.0.items(), self.1.items().then_list(self.2.items().then_list(self.3.items().then_list(self.4.items().then_list(self.5.items().then_list(self.6.items().then_list(self.7.items().then_list(self.8.items().then_list(self.9.items().then_list(self.10.items().then_list(self.11.items().then_list(self.12.items().then_list(self.13.items())))))))))))));
    }
}

impl<T0: Projectable, T1: Projectable, T2: Projectable, T3: Projectable, T4: Projectable, T5: Projectable, T6: Projectable, T7: Projectable, T8: Projectable, T9: Projectable, T10: Projectable, T11: Projectable, T12: Projectable, T13: Projectable, T14: Projectable> Projectable for (T0, T1, T2, T3, T4, T5, T6, T7, T8, T9, T10, T11, T12, T13, T14) {
    type Rebound<'scope> = (T0::Rebound<'scope>, T1::Rebound<'scope>, T2::Rebound<'scope>, T3::Rebound<'scope>, T4::Rebound<'scope>, T5::Rebound<'scope>, T6::Rebound<'scope>, T7::Rebound<'scope>, T8::Rebound<'scope>, T9::Rebound<'scope>, T10::Rebound<'scope>, T11::Rebound<'scope>, T12::Rebound<'scope>, T13::Rebound<'scope>, T14::Rebound<'scope>);

    open spec fn rebound<'scope>(&self, alias: SourceAlias) -> Self::Rebound<'scope> {
        (self.0.rebound(alias), self.1.rebound(alias), self.2.rebound(alias), self.3.rebound(alias), self.4.rebound(alias), self.5.rebound(alias), self.6.rebound(alias), self.7.rebound(alias), self.8.rebound(alias), self.9.rebound(alias), self.10.rebound(alias), self.11.rebound(alias), self.12.rebound(alias), self.13.rebound(alias), self.14.rebound(alias))
    }

    open spec fn rebinds_with_prefix<'scope>(
        &self,
        alias: SourceAlias,
        prefix: Seq<char>,
        rebound: Self::Rebound<'scope>,
    ) -> bool {
        &&& self.0.rebinds_with_prefix(alias, prefix, rebound.0)
        &&& self.1.rebinds_with_prefix(alias, prefix, rebound.1)
        &&& self.2.rebinds_with_prefix(alias, prefix, rebound.2)
        &&& self.3.rebinds_with_prefix(alias, prefix, rebound.3)
        &&& self.4.rebinds_with_prefix(alias, prefix, rebound.4)
        &&& self.5.rebinds_with_prefix(alias, prefix, rebound.5)
        &&& self.6.rebinds_with_prefix(alias, prefix, rebound.6)
        &&& self.7.rebinds_with_prefix(alias, prefix, rebound.7)
        &&& self.8.rebinds_with_prefix(alias, prefix, rebound.8)
        &&& self.9.rebinds_with_prefix(alias, prefix, rebound.9)
        &&& self.10.rebinds_with_prefix(alias, prefix, rebound.10)
        &&& self.11.rebinds_with_prefix(alias, prefix, rebound.11)
        &&& self.12.rebinds_with_prefix(alias, prefix, rebound.12)
        &&& self.13.rebinds_with_prefix(alias, prefix, rebound.13)
        &&& self.14.rebinds_with_prefix(alias, prefix, rebound.14)
    }

    fn re_alias<'scope>(&self, alias: SourceAlias) -> (rebound: Self::Rebound<'scope>) {
        (self.0.re_alias(alias), self.1.re_alias(alias), self.2.re_alias(alias), self.3.re_alias(alias), self.4.re_alias(alias), self.5.re_alias(alias), self.6.re_alias(alias), self.7.re_alias(alias), self.8.re_alias(alias), self.9.re_alias(alias), self.10.re_alias(alias), self.11.re_alias(alias), self.12.re_alias(alias), self.13.re_alias(alias), self.14.re_alias(alias))
    }

    fn re_alias_with_prefix<'scope>(&self, alias: SourceAlias, prefix: &str) -> (rebound:
        Self::Rebound<'scope>) {
        (self.0.re_alias_with_prefix(alias, prefix), self.1.re_alias_with_prefix(alias, prefix), self.2.re_alias_with_prefix(alias, prefix), self.3.re_alias_with_prefix(alias, prefix), self.4.re_alias_with_prefix(alias, prefix), self.5.re_alias_with_prefix(alias, prefix), self.6.re_alias_with_prefix(alias, prefix), self.7.re_alias_with_prefix(alias, prefix), self.8.re_alias_with_prefix(alias, prefix), self.9.re_alias_with_prefix(alias, prefix), self.10.re_alias_with_prefix(alias, prefix), self.11.re_alias_with_prefix(alias, prefix), self.12.re_alias_with_prefix(alias, prefix), self.13.re_alias_with_prefix(alias, prefix), self.14.re_alias_with_prefix(alias, prefix))
    }
}

impl<T0: Duplicate, T1: Duplicate, T2: Duplicate, T3: Duplicate, T4: Duplicate, T5: Duplicate, T6: Duplicate, T7: Duplicate, T8: Duplicate, T9: Duplicate, T10: Duplicate, T11: Duplicate, T12: Duplicate, T13: Duplicate, T14: Duplicate> Duplicate for (T0, T1, T2, T3, T4, T5, T6, T7, T8, T9, T10, T11, T12, T13, T14) {
    fn duplicate(&self) -> (copy: Self) {
        (self.0.duplicate(), self.1.duplicate(), self.2.duplicate(), self.3.duplicate(), self.4.duplicate(), self.5.duplicate(), self.6.duplicate(), self.7.duplicate(), self.8.duplicate(), self.9.duplicate(), self.10.duplicate(), self.11.duplicate(), self.12.duplicate(), self.13.duplicate(), self.14.duplicate())
    }
}

impl<T0: ProjectionShape, T1: ProjectionShape, T2: ProjectionShape, T3: ProjectionShape, T4: ProjectionShape, T5: ProjectionShape, T6: ProjectionShape, T7: ProjectionShape, T8: ProjectionShape, T9: ProjectionShape, T10: ProjectionShape, T11: ProjectionShape, T12: ProjectionShape, T13: ProjectionShape, T14: ProjectionShape> ProjectionShape for (T0, T1, T2, T3, T4, T5, T6, T7, T8, T9, T10, T11, T12, T13, T14) {
    type Exprs<'scope> = (T0::Exprs<'scope>, T1::Exprs<'scope>, T2::Exprs<'scope>, T3::Exprs<'scope>, T4::Exprs<'scope>, T5::Exprs<'scope>, T6::Exprs<'scope>, T7::Exprs<'scope>, T8::Exprs<'scope>, T9::Exprs<'scope>, T10::Exprs<'scope>, T11::Exprs<'scope>, T12::Exprs<'scope>, T13::Exprs<'scope>, T14::Exprs<'scope>);

    type ReboundExprs<'scope> = (T0::ReboundExprs<'scope>, T1::ReboundExprs<'scope>, T2::ReboundExprs<'scope>, T3::ReboundExprs<'scope>, T4::ReboundExprs<'scope>, T5::ReboundExprs<'scope>, T6::ReboundExprs<'scope>, T7::ReboundExprs<'scope>, T8::ReboundExprs<'scope>, T9::ReboundExprs<'scope>, T10::ReboundExprs<'scope>, T11::ReboundExprs<'scope>, T12::ReboundExprs<'scope>, T13::ReboundExprs<'scope>, T14::ReboundExprs<'scope>);

    type Row = (T0::Row, T1::Row, T2::Row, T3::Row, T4::Row, T5::Row, T6::Row, T7::Row, T8::Row, T9::Row, T10::Row, T11::Row, T12::Row, T13::Row, T14::Row);

    open spec fn shape_exprs<'scope>(alias: SourceAlias) -> Self::Exprs<'scope> {
        (T0::shape_exprs(alias), T1::shape_exprs(alias), T2::shape_exprs(alias), T3::shape_exprs(alias), T4::shape_exprs(alias), T5::shape_exprs(alias), T6::shape_exprs(alias), T7::shape_exprs(alias), T8::shape_exprs(alias), T9::shape_exprs(alias), T10::shape_exprs(alias), T11::shape_exprs(alias), T12::shape_exprs(alias), T13::shape_exprs(alias), T14::shape_exprs(alias))
    }

    open spec fn shape_rebound<'scope>(alias: SourceAlias) -> Self::ReboundExprs<'scope> {
        (T0::shape_rebound(alias), T1::shape_rebound(alias), T2::shape_rebound(alias), T3::shape_rebound(alias), T4::shape_rebound(alias), T5::shape_rebound(alias), T6::shape_rebound(alias), T7::shape_rebound(alias), T8::shape_rebound(alias), T9::shape_rebound(alias), T10::shape_rebound(alias), T11::shape_rebound(alias), T12::shape_rebound(alias), T13::shape_rebound(alias), T14::shape_rebound(alias))
    }

    fn exprs<'scope>(alias: SourceAlias) -> (exprs: Self::Exprs<'scope>) {
        (T0::exprs(alias), T1::exprs(alias), T2::exprs(alias), T3::exprs(alias), T4::exprs(alias), T5::exprs(alias), T6::exprs(alias), T7::exprs(alias), T8::exprs(alias), T9::exprs(alias), T10::exprs(alias), T11::exprs(alias), T12::exprs(alias), T13::exprs(alias), T14::exprs(alias))
    }

    fn rebound_exprs<'scope>(alias: SourceAlias) -> (exprs: Self::ReboundExprs<'scope>) {
        (T0::rebound_exprs(alias), T1::rebound_exprs(alias), T2::rebound_exprs(alias), T3::rebound_exprs(alias), T4::rebound_exprs(alias), T5::rebound_exprs(alias), T6::rebound_exprs(alias), T7::rebound_exprs(alias), T8::rebound_exprs(alias), T9::rebound_exprs(alias), T10::rebound_exprs(alias), T11::rebound_exprs(alias), T12::rebound_exprs(alias), T13::rebound_exprs(alias), T14::rebound_exprs(alias))
    }
}

impl<T0: ProjectionParams, T1: ProjectionParams, T2: ProjectionParams, T3: ProjectionParams, T4: ProjectionParams, T5: ProjectionParams, T6: ProjectionParams, T7: ProjectionParams, T8: ProjectionParams, T9: ProjectionParams, T10: ProjectionParams, T11: ProjectionParams, T12: ProjectionParams, T13: ProjectionParams, T14: ProjectionParams> ProjectionParams for (T0, T1, T2, T3, T4, T5, T6, T7, T8, T9, T10, T11, T12, T13, T14) where
    T13::Params: HAppend<T14::Params>,
    T12::Params: HAppend<<T13::Params as HAppend<T14::Params>>::Output>,
    T11::Params: HAppend<<T12::Params as HAppend<<T13::Params as HAppend<T14::Params>>::Output>>::Output>,
    T10::Params: HAppend<<T11::Params as HAppend<<T12::Params as HAppend<<T13::Params as HAppend<T14::Params>>::Output>>::Output>>::Output>,
    T9::Params: HAppend<<T10::Params as HAppend<<T11::Params as HAppend<<T12::Params as HAppend<<T13::Params as HAppend<T14::Params>>::Output>>::Output>>::Output>>::Output>,
    T8::Params: HAppend<<T9::Params as HAppend<<T10::Params as HAppend<<T11::Params as HAppend<<T12::Params as HAppend<<T13::Params as HAppend<T14::Params>>::Output>>::Output>>::Output>>::Output>>::Output>,
    T7::Params: HAppend<<T8::Params as HAppend<<T9::Params as HAppend<<T10::Params as HAppend<<T11::Params as HAppend<<T12::Params as HAppend<<T13::Params as HAppend<T14::Params>>::Output>>::Output>>::Output>>::Output>>::Output>>::Output>,
    T6::Params: HAppend<<T7::Params as HAppend<<T8::Params as HAppend<<T9::Params as HAppend<<T10::Params as HAppend<<T11::Params as HAppend<<T12::Params as HAppend<<T13::Params as HAppend<T14::Params>>::Output>>::Output>>::Output>>::Output>>::Output>>::Output>>::Output>,
    T5::Params: HAppend<<T6::Params as HAppend<<T7::Params as HAppend<<T8::Params as HAppend<<T9::Params as HAppend<<T10::Params as HAppend<<T11::Params as HAppend<<T12::Params as HAppend<<T13::Params as HAppend<T14::Params>>::Output>>::Output>>::Output>>::Output>>::Output>>::Output>>::Output>>::Output>,
    T4::Params: HAppend<<T5::Params as HAppend<<T6::Params as HAppend<<T7::Params as HAppend<<T8::Params as HAppend<<T9::Params as HAppend<<T10::Params as HAppend<<T11::Params as HAppend<<T12::Params as HAppend<<T13::Params as HAppend<T14::Params>>::Output>>::Output>>::Output>>::Output>>::Output>>::Output>>::Output>>::Output>>::Output>,
    T3::Params: HAppend<<T4::Params as HAppend<<T5::Params as HAppend<<T6::Params as HAppend<<T7::Params as HAppend<<T8::Params as HAppend<<T9::Params as HAppend<<T10::Params as HAppend<<T11::Params as HAppend<<T12::Params as HAppend<<T13::Params as HAppend<T14::Params>>::Output>>::Output>>::Output>>::Output>>::Output>>::Output>>::Output>>::Output>>::Output>>::Output>,
    T2::Params: HAppend<<T3::Params as HAppend<<T4::Params as HAppend<<T5::Params as HAppend<<T6::Params as HAppend<<T7::Params as HAppend<<T8::Params as HAppend<<T9::Params as HAppend<<T10::Params as HAppend<<T11::Params as HAppend<<T12::Params as HAppend<<T13::Params as HAppend<T14::Params>>::Output>>::Output>>::Output>>::Output>>::Output>>::Output>>::Output>>::Output>>::Output>>::Output>>::Output>,
    T1::Params: HAppend<<T2::Params as HAppend<<T3::Params as HAppend<<T4::Params as HAppend<<T5::Params as HAppend<<T6::Params as HAppend<<T7::Params as HAppend<<T8::Params as HAppend<<T9::Params as HAppend<<T10::Params as HAppend<<T11::Params as HAppend<<T12::Params as HAppend<<T13::Params as HAppend<T14::Params>>::Output>>::Output>>::Output>>::Output>>::Output>>::Output>>::Output>>::Output>>::Output>>::Output>>::Output>>::Output>,
    T0::Params: HAppend<<T1::Params as HAppend<<T2::Params as HAppend<<T3::Params as HAppend<<T4::Params as HAppend<<T5::Params as HAppend<<T6::Params as HAppend<<T7::Params as HAppend<<T8::Params as HAppend<<T9::Params as HAppend<<T10::Params as HAppend<<T11::Params as HAppend<<T12::Params as HAppend<<T13::Params as HAppend<T14::Params>>::Output>>::Output>>::Output>>::Output>>::Output>>::Output>>::Output>>::Output>>::Output>>::Output>>::Output>>::Output>>::Output>,
 {
    type Params = <T0::Params as HAppend<<T1::Params as HAppend<<T2::Params as HAppend<<T3::Params as HAppend<<T4::Params as HAppend<<T5::Params as HAppend<<T6::Params as HAppend<<T7::Params as HAppend<<T8::Params as HAppend<<T9::Params as HAppend<<T10::Params as HAppend<<T11::Params as HAppend<<T12::Params as HAppend<<T13::Params as HAppend<T14::Params>>::Output>>::Output>>::Output>>::Output>>::Output>>::Output>>::Output>>::Output>>::Output>>::Output>>::Output>>::Output>>::Output>>::Output;
}

impl<T0: ProjectionClass, T1: ProjectionClass<Class = T0::Class>, T2: ProjectionClass<Class = T0::Class>, T3: ProjectionClass<Class = T0::Class>, T4: ProjectionClass<Class = T0::Class>, T5: ProjectionClass<Class = T0::Class>, T6: ProjectionClass<Class = T0::Class>, T7: ProjectionClass<Class = T0::Class>, T8: ProjectionClass<Class = T0::Class>, T9: ProjectionClass<Class = T0::Class>, T10: ProjectionClass<Class = T0::Class>, T11: ProjectionClass<Class = T0::Class>, T12: ProjectionClass<Class = T0::Class>, T13: ProjectionClass<Class = T0::Class>, T14: ProjectionClass<Class = T0::Class>> ProjectionClass for (T0, T1, T2, T3, T4, T5, T6, T7, T8, T9, T10, T11, T12, T13, T14) {
    type Class = T0::Class;
}

impl<T0: ReturnableProjection, T1: ReturnableProjection, T2: ReturnableProjection, T3: ReturnableProjection, T4: ReturnableProjection, T5: ReturnableProjection, T6: ReturnableProjection, T7: ReturnableProjection, T8: ReturnableProjection, T9: ReturnableProjection, T10: ReturnableProjection, T11: ReturnableProjection, T12: ReturnableProjection, T13: ReturnableProjection, T14: ReturnableProjection> ReturnableProjection for (T0, T1, T2, T3, T4, T5, T6, T7, T8, T9, T10, T11, T12, T13, T14) {

}

impl<T0: RenderProjectable<B>, T1: RenderProjectable<B>, T2: RenderProjectable<B>, T3: RenderProjectable<B>, T4: RenderProjectable<B>, T5: RenderProjectable<B>, T6: RenderProjectable<B>, T7: RenderProjectable<B>, T8: RenderProjectable<B>, T9: RenderProjectable<B>, T10: RenderProjectable<B>, T11: RenderProjectable<B>, T12: RenderProjectable<B>, T13: RenderProjectable<B>, T14: RenderProjectable<B>, B: Backend> RenderProjectable<B> for (T0, T1, T2, T3, T4, T5, T6, T7, T8, T9, T10, T11, T12, T13, T14) where
    T13::Params: HAppend<T14::Params>,
    T12::Params: HAppend<<T13::Params as HAppend<T14::Params>>::Output>,
    T11::Params: HAppend<<T12::Params as HAppend<<T13::Params as HAppend<T14::Params>>::Output>>::Output>,
    T10::Params: HAppend<<T11::Params as HAppend<<T12::Params as HAppend<<T13::Params as HAppend<T14::Params>>::Output>>::Output>>::Output>,
    T9::Params: HAppend<<T10::Params as HAppend<<T11::Params as HAppend<<T12::Params as HAppend<<T13::Params as HAppend<T14::Params>>::Output>>::Output>>::Output>>::Output>,
    T8::Params: HAppend<<T9::Params as HAppend<<T10::Params as HAppend<<T11::Params as HAppend<<T12::Params as HAppend<<T13::Params as HAppend<T14::Params>>::Output>>::Output>>::Output>>::Output>>::Output>,
    T7::Params: HAppend<<T8::Params as HAppend<<T9::Params as HAppend<<T10::Params as HAppend<<T11::Params as HAppend<<T12::Params as HAppend<<T13::Params as HAppend<T14::Params>>::Output>>::Output>>::Output>>::Output>>::Output>>::Output>,
    T6::Params: HAppend<<T7::Params as HAppend<<T8::Params as HAppend<<T9::Params as HAppend<<T10::Params as HAppend<<T11::Params as HAppend<<T12::Params as HAppend<<T13::Params as HAppend<T14::Params>>::Output>>::Output>>::Output>>::Output>>::Output>>::Output>>::Output>,
    T5::Params: HAppend<<T6::Params as HAppend<<T7::Params as HAppend<<T8::Params as HAppend<<T9::Params as HAppend<<T10::Params as HAppend<<T11::Params as HAppend<<T12::Params as HAppend<<T13::Params as HAppend<T14::Params>>::Output>>::Output>>::Output>>::Output>>::Output>>::Output>>::Output>>::Output>,
    T4::Params: HAppend<<T5::Params as HAppend<<T6::Params as HAppend<<T7::Params as HAppend<<T8::Params as HAppend<<T9::Params as HAppend<<T10::Params as HAppend<<T11::Params as HAppend<<T12::Params as HAppend<<T13::Params as HAppend<T14::Params>>::Output>>::Output>>::Output>>::Output>>::Output>>::Output>>::Output>>::Output>>::Output>,
    T3::Params: HAppend<<T4::Params as HAppend<<T5::Params as HAppend<<T6::Params as HAppend<<T7::Params as HAppend<<T8::Params as HAppend<<T9::Params as HAppend<<T10::Params as HAppend<<T11::Params as HAppend<<T12::Params as HAppend<<T13::Params as HAppend<T14::Params>>::Output>>::Output>>::Output>>::Output>>::Output>>::Output>>::Output>>::Output>>::Output>>::Output>,
    T2::Params: HAppend<<T3::Params as HAppend<<T4::Params as HAppend<<T5::Params as HAppend<<T6::Params as HAppend<<T7::Params as HAppend<<T8::Params as HAppend<<T9::Params as HAppend<<T10::Params as HAppend<<T11::Params as HAppend<<T12::Params as HAppend<<T13::Params as HAppend<T14::Params>>::Output>>::Output>>::Output>>::Output>>::Output>>::Output>>::Output>>::Output>>::Output>>::Output>>::Output>,
    T1::Params: HAppend<<T2::Params as HAppend<<T3::Params as HAppend<<T4::Params as HAppend<<T5::Params as HAppend<<T6::Params as HAppend<<T7::Params as HAppend<<T8::Params as HAppend<<T9::Params as HAppend<<T10::Params as HAppend<<T11::Params as HAppend<<T12::Params as HAppend<<T13::Params as HAppend<T14::Params>>::Output>>::Output>>::Output>>::Output>>::Output>>::Output>>::Output>>::Output>>::Output>>::Output>>::Output>>::Output>,
    T0::Params: HAppend<<T1::Params as HAppend<<T2::Params as HAppend<<T3::Params as HAppend<<T4::Params as HAppend<<T5::Params as HAppend<<T6::Params as HAppend<<T7::Params as HAppend<<T8::Params as HAppend<<T9::Params as HAppend<<T10::Params as HAppend<<T11::Params as HAppend<<T12::Params as HAppend<<T13::Params as HAppend<T14::Params>>::Output>>::Output>>::Output>>::Output>>::Output>>::Output>>::Output>>::Output>>::Output>>::Output>>::Output>>::Output>>::Output>,
 {
    open spec fn items(&self) -> List<ProjectionTree<Bound<B>>> {
        self.0.items().then_list(self.1.items().then_list(self.2.items().then_list(self.3.items().then_list(self.4.items().then_list(self.5.items().then_list(self.6.items().then_list(self.7.items().then_list(self.8.items().then_list(self.9.items().then_list(self.10.items().then_list(self.11.items().then_list(self.12.items().then_list(self.13.items().then_list(self.14.items()))))))))))))))
    }

    fn lower_projection(&self) -> (items: List<ProjectionTree<Bound<B>>>) {
        self.0.lower_projection().append(self.1.lower_projection().append(self.2.lower_projection().append(self.3.lower_projection().append(self.4.lower_projection().append(self.5.lower_projection().append(self.6.lower_projection().append(self.7.lower_projection().append(self.8.lower_projection().append(self.9.lower_projection().append(self.10.lower_projection().append(self.11.lower_projection().append(self.12.lower_projection().append(self.13.lower_projection().append(self.14.lower_projection()))))))))))))))
    }

    fn lower_projection_with_prefix(&self, prefix: &str) -> (items: List<
        ProjectionTree<Bound<B>>,
    >) {
        let items0 = self.0.lower_projection_with_prefix(prefix);
        let items1 = self.1.lower_projection_with_prefix(prefix);
        let items2 = self.2.lower_projection_with_prefix(prefix);
        let items3 = self.3.lower_projection_with_prefix(prefix);
        let items4 = self.4.lower_projection_with_prefix(prefix);
        let items5 = self.5.lower_projection_with_prefix(prefix);
        let items6 = self.6.lower_projection_with_prefix(prefix);
        let items7 = self.7.lower_projection_with_prefix(prefix);
        let items8 = self.8.lower_projection_with_prefix(prefix);
        let items9 = self.9.lower_projection_with_prefix(prefix);
        let items10 = self.10.lower_projection_with_prefix(prefix);
        let items11 = self.11.lower_projection_with_prefix(prefix);
        let items12 = self.12.lower_projection_with_prefix(prefix);
        let items13 = self.13.lower_projection_with_prefix(prefix);
        let items14 = self.14.lower_projection_with_prefix(prefix);
        proof {
            crate::projection::lemma_prefixed_parts(self.13.items(), self.14.items(), prefix@, items13, items14);
            crate::projection::lemma_prefixed_parts(self.12.items(), self.13.items().then_list(self.14.items()), prefix@, items12, items13.then_list(items14));
            crate::projection::lemma_prefixed_parts(self.11.items(), self.12.items().then_list(self.13.items().then_list(self.14.items())), prefix@, items11, items12.then_list(items13.then_list(items14)));
            crate::projection::lemma_prefixed_parts(self.10.items(), self.11.items().then_list(self.12.items().then_list(self.13.items().then_list(self.14.items()))), prefix@, items10, items11.then_list(items12.then_list(items13.then_list(items14))));
            crate::projection::lemma_prefixed_parts(self.9.items(), self.10.items().then_list(self.11.items().then_list(self.12.items().then_list(self.13.items().then_list(self.14.items())))), prefix@, items9, items10.then_list(items11.then_list(items12.then_list(items13.then_list(items14)))));
            crate::projection::lemma_prefixed_parts(self.8.items(), self.9.items().then_list(self.10.items().then_list(self.11.items().then_list(self.12.items().then_list(self.13.items().then_list(self.14.items()))))), prefix@, items8, items9.then_list(items10.then_list(items11.then_list(items12.then_list(items13.then_list(items14))))));
            crate::projection::lemma_prefixed_parts(self.7.items(), self.8.items().then_list(self.9.items().then_list(self.10.items().then_list(self.11.items().then_list(self.12.items().then_list(self.13.items().then_list(self.14.items())))))), prefix@, items7, items8.then_list(items9.then_list(items10.then_list(items11.then_list(items12.then_list(items13.then_list(items14)))))));
            crate::projection::lemma_prefixed_parts(self.6.items(), self.7.items().then_list(self.8.items().then_list(self.9.items().then_list(self.10.items().then_list(self.11.items().then_list(self.12.items().then_list(self.13.items().then_list(self.14.items()))))))), prefix@, items6, items7.then_list(items8.then_list(items9.then_list(items10.then_list(items11.then_list(items12.then_list(items13.then_list(items14))))))));
            crate::projection::lemma_prefixed_parts(self.5.items(), self.6.items().then_list(self.7.items().then_list(self.8.items().then_list(self.9.items().then_list(self.10.items().then_list(self.11.items().then_list(self.12.items().then_list(self.13.items().then_list(self.14.items())))))))), prefix@, items5, items6.then_list(items7.then_list(items8.then_list(items9.then_list(items10.then_list(items11.then_list(items12.then_list(items13.then_list(items14)))))))));
            crate::projection::lemma_prefixed_parts(self.4.items(), self.5.items().then_list(self.6.items().then_list(self.7.items().then_list(self.8.items().then_list(self.9.items().then_list(self.10.items().then_list(self.11.items().then_list(self.12.items().then_list(self.13.items().then_list(self.14.items()))))))))), prefix@, items4, items5.then_list(items6.then_list(items7.then_list(items8.then_list(items9.then_list(items10.then_list(items11.then_list(items12.then_list(items13.then_list(items14))))))))));
            crate::projection::lemma_prefixed_parts(self.3.items(), self.4.items().then_list(self.5.items().then_list(self.6.items().then_list(self.7.items().then_list(self.8.items().then_list(self.9.items().then_list(self.10.items().then_list(self.11.items().then_list(self.12.items().then_list(self.13.items().then_list(self.14.items())))))))))), prefix@, items3, items4.then_list(items5.then_list(items6.then_list(items7.then_list(items8.then_list(items9.then_list(items10.then_list(items11.then_list(items12.then_list(items13.then_list(items14)))))))))));
            crate::projection::lemma_prefixed_parts(self.2.items(), self.3.items().then_list(self.4.items().then_list(self.5.items().then_list(self.6.items().then_list(self.7.items().then_list(self.8.items().then_list(self.9.items().then_list(self.10.items().then_list(self.11.items().then_list(self.12.items().then_list(self.13.items().then_list(self.14.items()))))))))))), prefix@, items2, items3.then_list(items4.then_list(items5.then_list(items6.then_list(items7.then_list(items8.then_list(items9.then_list(items10.then_list(items11.then_list(items12.then_list(items13.then_list(items14))))))))))));
            crate::projection::lemma_prefixed_parts(self.1.items(), self.2.items().then_list(self.3.items().then_list(self.4.items().then_list(self.5.items().then_list(self.6.items().then_list(self.7.items().then_list(self.8.items().then_list(self.9.items().then_list(self.10.items().then_list(self.11.items().then_list(self.12.items().then_list(self.13.items().then_list(self.14.items())))))))))))), prefix@, items1, items2.then_list(items3.then_list(items4.then_list(items5.then_list(items6.then_list(items7.then_list(items8.then_list(items9.then_list(items10.then_list(items11.then_list(items12.then_list(items13.then_list(items14)))))))))))));
            crate::projection::lemma_prefixed_parts(self.0.items(), self.1.items().then_list(self.2.items().then_list(self.3.items().then_list(self.4.items().then_list(self.5.items().then_list(self.6.items().then_list(self.7.items().then_list(self.8.items().then_list(self.9.items().then_list(self.10.items().then_list(self.11.items().then_list(self.12.items().then_list(self.13.items().then_list(self.14.items()))))))))))))), prefix@, items0, items1.then_list(items2.then_list(items3.then_list(items4.then_list(items5.then_list(items6.then_list(items7.then_list(items8.then_list(items9.then_list(items10.then_list(items11.then_list(items12.then_list(items13.then_list(items14))))))))))))));
        }
        items0.append(items1.append(items2.append(items3.append(items4.append(items5.append(items6.append(items7.append(items8.append(items9.append(items10.append(items11.append(items12.append(items13.append(items14))))))))))))))
    }

    proof fn lemma_projection_params<D: Dialect>(&self, dialect: D, bare: bool, lead: Seq<char>) {
        let lead1 = if self.0.items() is Nil { lead } else { ", "@ };
        self.0.lemma_projection_params(dialect, bare, lead);
        crate::projection::lemma_projection_parts(dialect, bare, lead, self.0.items(), self.1.items().then_list(self.2.items().then_list(self.3.items().then_list(self.4.items().then_list(self.5.items().then_list(self.6.items().then_list(self.7.items().then_list(self.8.items().then_list(self.9.items().then_list(self.10.items().then_list(self.11.items().then_list(self.12.items().then_list(self.13.items().then_list(self.14.items()))))))))))))));
        let lead2 = if self.1.items() is Nil { lead1 } else { ", "@ };
        self.1.lemma_projection_params(dialect, bare, lead1);
        crate::projection::lemma_projection_parts(dialect, bare, lead1, self.1.items(), self.2.items().then_list(self.3.items().then_list(self.4.items().then_list(self.5.items().then_list(self.6.items().then_list(self.7.items().then_list(self.8.items().then_list(self.9.items().then_list(self.10.items().then_list(self.11.items().then_list(self.12.items().then_list(self.13.items().then_list(self.14.items())))))))))))));
        let lead3 = if self.2.items() is Nil { lead2 } else { ", "@ };
        self.2.lemma_projection_params(dialect, bare, lead2);
        crate::projection::lemma_projection_parts(dialect, bare, lead2, self.2.items(), self.3.items().then_list(self.4.items().then_list(self.5.items().then_list(self.6.items().then_list(self.7.items().then_list(self.8.items().then_list(self.9.items().then_list(self.10.items().then_list(self.11.items().then_list(self.12.items().then_list(self.13.items().then_list(self.14.items()))))))))))));
        let lead4 = if self.3.items() is Nil { lead3 } else { ", "@ };
        self.3.lemma_projection_params(dialect, bare, lead3);
        crate::projection::lemma_projection_parts(dialect, bare, lead3, self.3.items(), self.4.items().then_list(self.5.items().then_list(self.6.items().then_list(self.7.items().then_list(self.8.items().then_list(self.9.items().then_list(self.10.items().then_list(self.11.items().then_list(self.12.items().then_list(self.13.items().then_list(self.14.items())))))))))));
        let lead5 = if self.4.items() is Nil { lead4 } else { ", "@ };
        self.4.lemma_projection_params(dialect, bare, lead4);
        crate::projection::lemma_projection_parts(dialect, bare, lead4, self.4.items(), self.5.items().then_list(self.6.items().then_list(self.7.items().then_list(self.8.items().then_list(self.9.items().then_list(self.10.items().then_list(self.11.items().then_list(self.12.items().then_list(self.13.items().then_list(self.14.items()))))))))));
        let lead6 = if self.5.items() is Nil { lead5 } else { ", "@ };
        self.5.lemma_projection_params(dialect, bare, lead5);
        crate::projection::lemma_projection_parts(dialect, bare, lead5, self.5.items(), self.6.items().then_list(self.7.items().then_list(self.8.items().then_list(self.9.items().then_list(self.10.items().then_list(self.11.items().then_list(self.12.items().then_list(self.13.items().then_list(self.14.items())))))))));
        let lead7 = if self.6.items() is Nil { lead6 } else { ", "@ };
        self.6.lemma_projection_params(dialect, bare, lead6);
        crate::projection::lemma_projection_parts(dialect, bare, lead6, self.6.items(), self.7.items().then_list(self.8.items().then_list(self.9.items().then_list(self.10.items().then_list(self.11.items().then_list(self.12.items().then_list(self.13.items().then_list(self.14.items()))))))));
        let lead8 = if self.7.items() is Nil { lead7 } else { ", "@ };
        self.7.lemma_projection_params(dialect, bare, lead7);
        crate::projection::lemma_projection_parts(dialect, bare, lead7, self.7.items(), self.8.items().then_list(self.9.items().then_list(self.10.items().then_list(self.11.items().then_list(self.12.items().then_list(self.13.items().then_list(self.14.items())))))));
        let lead9 = if self.8.items() is Nil { lead8 } else { ", "@ };
        self.8.lemma_projection_params(dialect, bare, lead8);
        crate::projection::lemma_projection_parts(dialect, bare, lead8, self.8.items(), self.9.items().then_list(self.10.items().then_list(self.11.items().then_list(self.12.items().then_list(self.13.items().then_list(self.14.items()))))));
        let lead10 = if self.9.items() is Nil { lead9 } else { ", "@ };
        self.9.lemma_projection_params(dialect, bare, lead9);
        crate::projection::lemma_projection_parts(dialect, bare, lead9, self.9.items(), self.10.items().then_list(self.11.items().then_list(self.12.items().then_list(self.13.items().then_list(self.14.items())))));
        let lead11 = if self.10.items() is Nil { lead10 } else { ", "@ };
        self.10.lemma_projection_params(dialect, bare, lead10);
        crate::projection::lemma_projection_parts(dialect, bare, lead10, self.10.items(), self.11.items().then_list(self.12.items().then_list(self.13.items().then_list(self.14.items()))));
        let lead12 = if self.11.items() is Nil { lead11 } else { ", "@ };
        self.11.lemma_projection_params(dialect, bare, lead11);
        crate::projection::lemma_projection_parts(dialect, bare, lead11, self.11.items(), self.12.items().then_list(self.13.items().then_list(self.14.items())));
        let lead13 = if self.12.items() is Nil { lead12 } else { ", "@ };
        self.12.lemma_projection_params(dialect, bare, lead12);
        crate::projection::lemma_projection_parts(dialect, bare, lead12, self.12.items(), self.13.items().then_list(self.14.items()));
        let lead14 = if self.13.items() is Nil { lead13 } else { ", "@ };
        self.13.lemma_projection_params(dialect, bare, lead13);
        crate::projection::lemma_projection_parts(dialect, bare, lead13, self.13.items(), self.14.items());
        self.14.lemma_projection_params(dialect, bare, lead14);
        <T0::Params as HAppend<<T1::Params as HAppend<<T2::Params as HAppend<<T3::Params as HAppend<<T4::Params as HAppend<<T5::Params as HAppend<<T6::Params as HAppend<<T7::Params as HAppend<<T8::Params as HAppend<<T9::Params as HAppend<<T10::Params as HAppend<<T11::Params as HAppend<<T12::Params as HAppend<<T13::Params as HAppend<T14::Params>>::Output>>::Output>>::Output>>::Output>>::Output>>::Output>>::Output>>::Output>>::Output>>::Output>>::Output>>::Output>>::Output>>::lemma_append_width();
        <T1::Params as HAppend<<T2::Params as HAppend<<T3::Params as HAppend<<T4::Params as HAppend<<T5::Params as HAppend<<T6::Params as HAppend<<T7::Params as HAppend<<T8::Params as HAppend<<T9::Params as HAppend<<T10::Params as HAppend<<T11::Params as HAppend<<T12::Params as HAppend<<T13::Params as HAppend<T14::Params>>::Output>>::Output>>::Output>>::Output>>::Output>>::Output>>::Output>>::Output>>::Output>>::Output>>::Output>>::Output>>::lemma_append_width();
        <T2::Params as HAppend<<T3::Params as HAppend<<T4::Params as HAppend<<T5::Params as HAppend<<T6::Params as HAppend<<T7::Params as HAppend<<T8::Params as HAppend<<T9::Params as HAppend<<T10::Params as HAppend<<T11::Params as HAppend<<T12::Params as HAppend<<T13::Params as HAppend<T14::Params>>::Output>>::Output>>::Output>>::Output>>::Output>>::Output>>::Output>>::Output>>::Output>>::Output>>::Output>>::lemma_append_width();
        <T3::Params as HAppend<<T4::Params as HAppend<<T5::Params as HAppend<<T6::Params as HAppend<<T7::Params as HAppend<<T8::Params as HAppend<<T9::Params as HAppend<<T10::Params as HAppend<<T11::Params as HAppend<<T12::Params as HAppend<<T13::Params as HAppend<T14::Params>>::Output>>::Output>>::Output>>::Output>>::Output>>::Output>>::Output>>::Output>>::Output>>::Output>>::lemma_append_width();
        <T4::Params as HAppend<<T5::Params as HAppend<<T6::Params as HAppend<<T7::Params as HAppend<<T8::Params as HAppend<<T9::Params as HAppend<<T10::Params as HAppend<<T11::Params as HAppend<<T12::Params as HAppend<<T13::Params as HAppend<T14::Params>>::Output>>::Output>>::Output>>::Output>>::Output>>::Output>>::Output>>::Output>>::Output>>::lemma_append_width();
        <T5::Params as HAppend<<T6::Params as HAppend<<T7::Params as HAppend<<T8::Params as HAppend<<T9::Params as HAppend<<T10::Params as HAppend<<T11::Params as HAppend<<T12::Params as HAppend<<T13::Params as HAppend<T14::Params>>::Output>>::Output>>::Output>>::Output>>::Output>>::Output>>::Output>>::Output>>::lemma_append_width();
        <T6::Params as HAppend<<T7::Params as HAppend<<T8::Params as HAppend<<T9::Params as HAppend<<T10::Params as HAppend<<T11::Params as HAppend<<T12::Params as HAppend<<T13::Params as HAppend<T14::Params>>::Output>>::Output>>::Output>>::Output>>::Output>>::Output>>::Output>>::lemma_append_width();
        <T7::Params as HAppend<<T8::Params as HAppend<<T9::Params as HAppend<<T10::Params as HAppend<<T11::Params as HAppend<<T12::Params as HAppend<<T13::Params as HAppend<T14::Params>>::Output>>::Output>>::Output>>::Output>>::Output>>::Output>>::lemma_append_width();
        <T8::Params as HAppend<<T9::Params as HAppend<<T10::Params as HAppend<<T11::Params as HAppend<<T12::Params as HAppend<<T13::Params as HAppend<T14::Params>>::Output>>::Output>>::Output>>::Output>>::Output>>::lemma_append_width();
        <T9::Params as HAppend<<T10::Params as HAppend<<T11::Params as HAppend<<T12::Params as HAppend<<T13::Params as HAppend<T14::Params>>::Output>>::Output>>::Output>>::Output>>::lemma_append_width();
        <T10::Params as HAppend<<T11::Params as HAppend<<T12::Params as HAppend<<T13::Params as HAppend<T14::Params>>::Output>>::Output>>::Output>>::lemma_append_width();
        <T11::Params as HAppend<<T12::Params as HAppend<<T13::Params as HAppend<T14::Params>>::Output>>::Output>>::lemma_append_width();
        <T12::Params as HAppend<<T13::Params as HAppend<T14::Params>>::Output>>::lemma_append_width();
        <T13::Params as HAppend<T14::Params>>::lemma_append_width();
    }

    proof fn lemma_projection_plain(&self) {
        <T0::Params as HAppend<<T1::Params as HAppend<<T2::Params as HAppend<<T3::Params as HAppend<<T4::Params as HAppend<<T5::Params as HAppend<<T6::Params as HAppend<<T7::Params as HAppend<<T8::Params as HAppend<<T9::Params as HAppend<<T10::Params as HAppend<<T11::Params as HAppend<<T12::Params as HAppend<<T13::Params as HAppend<T14::Params>>::Output>>::Output>>::Output>>::Output>>::Output>>::Output>>::Output>>::Output>>::Output>>::Output>>::Output>>::Output>>::Output>>::lemma_append_width();
        <T1::Params as HAppend<<T2::Params as HAppend<<T3::Params as HAppend<<T4::Params as HAppend<<T5::Params as HAppend<<T6::Params as HAppend<<T7::Params as HAppend<<T8::Params as HAppend<<T9::Params as HAppend<<T10::Params as HAppend<<T11::Params as HAppend<<T12::Params as HAppend<<T13::Params as HAppend<T14::Params>>::Output>>::Output>>::Output>>::Output>>::Output>>::Output>>::Output>>::Output>>::Output>>::Output>>::Output>>::Output>>::lemma_append_width();
        <T2::Params as HAppend<<T3::Params as HAppend<<T4::Params as HAppend<<T5::Params as HAppend<<T6::Params as HAppend<<T7::Params as HAppend<<T8::Params as HAppend<<T9::Params as HAppend<<T10::Params as HAppend<<T11::Params as HAppend<<T12::Params as HAppend<<T13::Params as HAppend<T14::Params>>::Output>>::Output>>::Output>>::Output>>::Output>>::Output>>::Output>>::Output>>::Output>>::Output>>::Output>>::lemma_append_width();
        <T3::Params as HAppend<<T4::Params as HAppend<<T5::Params as HAppend<<T6::Params as HAppend<<T7::Params as HAppend<<T8::Params as HAppend<<T9::Params as HAppend<<T10::Params as HAppend<<T11::Params as HAppend<<T12::Params as HAppend<<T13::Params as HAppend<T14::Params>>::Output>>::Output>>::Output>>::Output>>::Output>>::Output>>::Output>>::Output>>::Output>>::Output>>::lemma_append_width();
        <T4::Params as HAppend<<T5::Params as HAppend<<T6::Params as HAppend<<T7::Params as HAppend<<T8::Params as HAppend<<T9::Params as HAppend<<T10::Params as HAppend<<T11::Params as HAppend<<T12::Params as HAppend<<T13::Params as HAppend<T14::Params>>::Output>>::Output>>::Output>>::Output>>::Output>>::Output>>::Output>>::Output>>::Output>>::lemma_append_width();
        <T5::Params as HAppend<<T6::Params as HAppend<<T7::Params as HAppend<<T8::Params as HAppend<<T9::Params as HAppend<<T10::Params as HAppend<<T11::Params as HAppend<<T12::Params as HAppend<<T13::Params as HAppend<T14::Params>>::Output>>::Output>>::Output>>::Output>>::Output>>::Output>>::Output>>::Output>>::lemma_append_width();
        <T6::Params as HAppend<<T7::Params as HAppend<<T8::Params as HAppend<<T9::Params as HAppend<<T10::Params as HAppend<<T11::Params as HAppend<<T12::Params as HAppend<<T13::Params as HAppend<T14::Params>>::Output>>::Output>>::Output>>::Output>>::Output>>::Output>>::Output>>::lemma_append_width();
        <T7::Params as HAppend<<T8::Params as HAppend<<T9::Params as HAppend<<T10::Params as HAppend<<T11::Params as HAppend<<T12::Params as HAppend<<T13::Params as HAppend<T14::Params>>::Output>>::Output>>::Output>>::Output>>::Output>>::Output>>::lemma_append_width();
        <T8::Params as HAppend<<T9::Params as HAppend<<T10::Params as HAppend<<T11::Params as HAppend<<T12::Params as HAppend<<T13::Params as HAppend<T14::Params>>::Output>>::Output>>::Output>>::Output>>::Output>>::lemma_append_width();
        <T9::Params as HAppend<<T10::Params as HAppend<<T11::Params as HAppend<<T12::Params as HAppend<<T13::Params as HAppend<T14::Params>>::Output>>::Output>>::Output>>::Output>>::lemma_append_width();
        <T10::Params as HAppend<<T11::Params as HAppend<<T12::Params as HAppend<<T13::Params as HAppend<T14::Params>>::Output>>::Output>>::Output>>::lemma_append_width();
        <T11::Params as HAppend<<T12::Params as HAppend<<T13::Params as HAppend<T14::Params>>::Output>>::Output>>::lemma_append_width();
        <T12::Params as HAppend<<T13::Params as HAppend<T14::Params>>::Output>>::lemma_append_width();
        <T13::Params as HAppend<T14::Params>>::lemma_append_width();
        self.0.lemma_projection_plain();
        self.1.lemma_projection_plain();
        self.2.lemma_projection_plain();
        self.3.lemma_projection_plain();
        self.4.lemma_projection_plain();
        self.5.lemma_projection_plain();
        self.6.lemma_projection_plain();
        self.7.lemma_projection_plain();
        self.8.lemma_projection_plain();
        self.9.lemma_projection_plain();
        self.10.lemma_projection_plain();
        self.11.lemma_projection_plain();
        self.12.lemma_projection_plain();
        self.13.lemma_projection_plain();
        self.14.lemma_projection_plain();
        crate::projection::lemma_plain_parts(self.13.items(), self.14.items());
        crate::projection::lemma_plain_parts(self.12.items(), self.13.items().then_list(self.14.items()));
        crate::projection::lemma_plain_parts(self.11.items(), self.12.items().then_list(self.13.items().then_list(self.14.items())));
        crate::projection::lemma_plain_parts(self.10.items(), self.11.items().then_list(self.12.items().then_list(self.13.items().then_list(self.14.items()))));
        crate::projection::lemma_plain_parts(self.9.items(), self.10.items().then_list(self.11.items().then_list(self.12.items().then_list(self.13.items().then_list(self.14.items())))));
        crate::projection::lemma_plain_parts(self.8.items(), self.9.items().then_list(self.10.items().then_list(self.11.items().then_list(self.12.items().then_list(self.13.items().then_list(self.14.items()))))));
        crate::projection::lemma_plain_parts(self.7.items(), self.8.items().then_list(self.9.items().then_list(self.10.items().then_list(self.11.items().then_list(self.12.items().then_list(self.13.items().then_list(self.14.items())))))));
        crate::projection::lemma_plain_parts(self.6.items(), self.7.items().then_list(self.8.items().then_list(self.9.items().then_list(self.10.items().then_list(self.11.items().then_list(self.12.items().then_list(self.13.items().then_list(self.14.items()))))))));
        crate::projection::lemma_plain_parts(self.5.items(), self.6.items().then_list(self.7.items().then_list(self.8.items().then_list(self.9.items().then_list(self.10.items().then_list(self.11.items().then_list(self.12.items().then_list(self.13.items().then_list(self.14.items())))))))));
        crate::projection::lemma_plain_parts(self.4.items(), self.5.items().then_list(self.6.items().then_list(self.7.items().then_list(self.8.items().then_list(self.9.items().then_list(self.10.items().then_list(self.11.items().then_list(self.12.items().then_list(self.13.items().then_list(self.14.items()))))))))));
        crate::projection::lemma_plain_parts(self.3.items(), self.4.items().then_list(self.5.items().then_list(self.6.items().then_list(self.7.items().then_list(self.8.items().then_list(self.9.items().then_list(self.10.items().then_list(self.11.items().then_list(self.12.items().then_list(self.13.items().then_list(self.14.items())))))))))));
        crate::projection::lemma_plain_parts(self.2.items(), self.3.items().then_list(self.4.items().then_list(self.5.items().then_list(self.6.items().then_list(self.7.items().then_list(self.8.items().then_list(self.9.items().then_list(self.10.items().then_list(self.11.items().then_list(self.12.items().then_list(self.13.items().then_list(self.14.items()))))))))))));
        crate::projection::lemma_plain_parts(self.1.items(), self.2.items().then_list(self.3.items().then_list(self.4.items().then_list(self.5.items().then_list(self.6.items().then_list(self.7.items().then_list(self.8.items().then_list(self.9.items().then_list(self.10.items().then_list(self.11.items().then_list(self.12.items().then_list(self.13.items().then_list(self.14.items())))))))))))));
        crate::projection::lemma_plain_parts(self.0.items(), self.1.items().then_list(self.2.items().then_list(self.3.items().then_list(self.4.items().then_list(self.5.items().then_list(self.6.items().then_list(self.7.items().then_list(self.8.items().then_list(self.9.items().then_list(self.10.items().then_list(self.11.items().then_list(self.12.items().then_list(self.13.items().then_list(self.14.items()))))))))))))));
    }
}

impl<T0: Projectable, T1: Projectable, T2: Projectable, T3: Projectable, T4: Projectable, T5: Projectable, T6: Projectable, T7: Projectable, T8: Projectable, T9: Projectable, T10: Projectable, T11: Projectable, T12: Projectable, T13: Projectable, T14: Projectable, T15: Projectable> Projectable for (T0, T1, T2, T3, T4, T5, T6, T7, T8, T9, T10, T11, T12, T13, T14, T15) {
    type Rebound<'scope> = (T0::Rebound<'scope>, T1::Rebound<'scope>, T2::Rebound<'scope>, T3::Rebound<'scope>, T4::Rebound<'scope>, T5::Rebound<'scope>, T6::Rebound<'scope>, T7::Rebound<'scope>, T8::Rebound<'scope>, T9::Rebound<'scope>, T10::Rebound<'scope>, T11::Rebound<'scope>, T12::Rebound<'scope>, T13::Rebound<'scope>, T14::Rebound<'scope>, T15::Rebound<'scope>);

    open spec fn rebound<'scope>(&self, alias: SourceAlias) -> Self::Rebound<'scope> {
        (self.0.rebound(alias), self.1.rebound(alias), self.2.rebound(alias), self.3.rebound(alias), self.4.rebound(alias), self.5.rebound(alias), self.6.rebound(alias), self.7.rebound(alias), self.8.rebound(alias), self.9.rebound(alias), self.10.rebound(alias), self.11.rebound(alias), self.12.rebound(alias), self.13.rebound(alias), self.14.rebound(alias), self.15.rebound(alias))
    }

    open spec fn rebinds_with_prefix<'scope>(
        &self,
        alias: SourceAlias,
        prefix: Seq<char>,
        rebound: Self::Rebound<'scope>,
    ) -> bool {
        &&& self.0.rebinds_with_prefix(alias, prefix, rebound.0)
        &&& self.1.rebinds_with_prefix(alias, prefix, rebound.1)
        &&& self.2.rebinds_with_prefix(alias, prefix, rebound.2)
        &&& self.3.rebinds_with_prefix(alias, prefix, rebound.3)
        &&& self.4.rebinds_with_prefix(alias, prefix, rebound.4)
        &&& self.5.rebinds_with_prefix(alias, prefix, rebound.5)
        &&& self.6.rebinds_with_prefix(alias, prefix, rebound.6)
        &&& self.7.rebinds_with_prefix(alias, prefix, rebound.7)
        &&& self.8.rebinds_with_prefix(alias, prefix, rebound.8)
        &&& self.9.rebinds_with_prefix(alias, prefix, rebound.9)
        &&& self.10.rebinds_with_prefix(alias, prefix, rebound.10)
        &&& self.11.rebinds_with_prefix(alias, prefix, rebound.11)
        &&& self.12.rebinds_with_prefix(alias, prefix, rebound.12)
        &&& self.13.rebinds_with_prefix(alias, prefix, rebound.13)
        &&& self.14.rebinds_with_prefix(alias, prefix, rebound.14)
        &&& self.15.rebinds_with_prefix(alias, prefix, rebound.15)
    }

    fn re_alias<'scope>(&self, alias: SourceAlias) -> (rebound: Self::Rebound<'scope>) {
        (self.0.re_alias(alias), self.1.re_alias(alias), self.2.re_alias(alias), self.3.re_alias(alias), self.4.re_alias(alias), self.5.re_alias(alias), self.6.re_alias(alias), self.7.re_alias(alias), self.8.re_alias(alias), self.9.re_alias(alias), self.10.re_alias(alias), self.11.re_alias(alias), self.12.re_alias(alias), self.13.re_alias(alias), self.14.re_alias(alias), self.15.re_alias(alias))
    }

    fn re_alias_with_prefix<'scope>(&self, alias: SourceAlias, prefix: &str) -> (rebound:
        Self::Rebound<'scope>) {
        (self.0.re_alias_with_prefix(alias, prefix), self.1.re_alias_with_prefix(alias, prefix), self.2.re_alias_with_prefix(alias, prefix), self.3.re_alias_with_prefix(alias, prefix), self.4.re_alias_with_prefix(alias, prefix), self.5.re_alias_with_prefix(alias, prefix), self.6.re_alias_with_prefix(alias, prefix), self.7.re_alias_with_prefix(alias, prefix), self.8.re_alias_with_prefix(alias, prefix), self.9.re_alias_with_prefix(alias, prefix), self.10.re_alias_with_prefix(alias, prefix), self.11.re_alias_with_prefix(alias, prefix), self.12.re_alias_with_prefix(alias, prefix), self.13.re_alias_with_prefix(alias, prefix), self.14.re_alias_with_prefix(alias, prefix), self.15.re_alias_with_prefix(alias, prefix))
    }
}

impl<T0: Duplicate, T1: Duplicate, T2: Duplicate, T3: Duplicate, T4: Duplicate, T5: Duplicate, T6: Duplicate, T7: Duplicate, T8: Duplicate, T9: Duplicate, T10: Duplicate, T11: Duplicate, T12: Duplicate, T13: Duplicate, T14: Duplicate, T15: Duplicate> Duplicate for (T0, T1, T2, T3, T4, T5, T6, T7, T8, T9, T10, T11, T12, T13, T14, T15) {
    fn duplicate(&self) -> (copy: Self) {
        (self.0.duplicate(), self.1.duplicate(), self.2.duplicate(), self.3.duplicate(), self.4.duplicate(), self.5.duplicate(), self.6.duplicate(), self.7.duplicate(), self.8.duplicate(), self.9.duplicate(), self.10.duplicate(), self.11.duplicate(), self.12.duplicate(), self.13.duplicate(), self.14.duplicate(), self.15.duplicate())
    }
}

impl<T0: ProjectionShape, T1: ProjectionShape, T2: ProjectionShape, T3: ProjectionShape, T4: ProjectionShape, T5: ProjectionShape, T6: ProjectionShape, T7: ProjectionShape, T8: ProjectionShape, T9: ProjectionShape, T10: ProjectionShape, T11: ProjectionShape, T12: ProjectionShape, T13: ProjectionShape, T14: ProjectionShape, T15: ProjectionShape> ProjectionShape for (T0, T1, T2, T3, T4, T5, T6, T7, T8, T9, T10, T11, T12, T13, T14, T15) {
    type Exprs<'scope> = (T0::Exprs<'scope>, T1::Exprs<'scope>, T2::Exprs<'scope>, T3::Exprs<'scope>, T4::Exprs<'scope>, T5::Exprs<'scope>, T6::Exprs<'scope>, T7::Exprs<'scope>, T8::Exprs<'scope>, T9::Exprs<'scope>, T10::Exprs<'scope>, T11::Exprs<'scope>, T12::Exprs<'scope>, T13::Exprs<'scope>, T14::Exprs<'scope>, T15::Exprs<'scope>);

    type ReboundExprs<'scope> = (T0::ReboundExprs<'scope>, T1::ReboundExprs<'scope>, T2::ReboundExprs<'scope>, T3::ReboundExprs<'scope>, T4::ReboundExprs<'scope>, T5::ReboundExprs<'scope>, T6::ReboundExprs<'scope>, T7::ReboundExprs<'scope>, T8::ReboundExprs<'scope>, T9::ReboundExprs<'scope>, T10::ReboundExprs<'scope>, T11::ReboundExprs<'scope>, T12::ReboundExprs<'scope>, T13::ReboundExprs<'scope>, T14::ReboundExprs<'scope>, T15::ReboundExprs<'scope>);

    type Row = (T0::Row, T1::Row, T2::Row, T3::Row, T4::Row, T5::Row, T6::Row, T7::Row, T8::Row, T9::Row, T10::Row, T11::Row, T12::Row, T13::Row, T14::Row, T15::Row);

    open spec fn shape_exprs<'scope>(alias: SourceAlias) -> Self::Exprs<'scope> {
        (T0::shape_exprs(alias), T1::shape_exprs(alias), T2::shape_exprs(alias), T3::shape_exprs(alias), T4::shape_exprs(alias), T5::shape_exprs(alias), T6::shape_exprs(alias), T7::shape_exprs(alias), T8::shape_exprs(alias), T9::shape_exprs(alias), T10::shape_exprs(alias), T11::shape_exprs(alias), T12::shape_exprs(alias), T13::shape_exprs(alias), T14::shape_exprs(alias), T15::shape_exprs(alias))
    }

    open spec fn shape_rebound<'scope>(alias: SourceAlias) -> Self::ReboundExprs<'scope> {
        (T0::shape_rebound(alias), T1::shape_rebound(alias), T2::shape_rebound(alias), T3::shape_rebound(alias), T4::shape_rebound(alias), T5::shape_rebound(alias), T6::shape_rebound(alias), T7::shape_rebound(alias), T8::shape_rebound(alias), T9::shape_rebound(alias), T10::shape_rebound(alias), T11::shape_rebound(alias), T12::shape_rebound(alias), T13::shape_rebound(alias), T14::shape_rebound(alias), T15::shape_rebound(alias))
    }

    fn exprs<'scope>(alias: SourceAlias) -> (exprs: Self::Exprs<'scope>) {
        (T0::exprs(alias), T1::exprs(alias), T2::exprs(alias), T3::exprs(alias), T4::exprs(alias), T5::exprs(alias), T6::exprs(alias), T7::exprs(alias), T8::exprs(alias), T9::exprs(alias), T10::exprs(alias), T11::exprs(alias), T12::exprs(alias), T13::exprs(alias), T14::exprs(alias), T15::exprs(alias))
    }

    fn rebound_exprs<'scope>(alias: SourceAlias) -> (exprs: Self::ReboundExprs<'scope>) {
        (T0::rebound_exprs(alias), T1::rebound_exprs(alias), T2::rebound_exprs(alias), T3::rebound_exprs(alias), T4::rebound_exprs(alias), T5::rebound_exprs(alias), T6::rebound_exprs(alias), T7::rebound_exprs(alias), T8::rebound_exprs(alias), T9::rebound_exprs(alias), T10::rebound_exprs(alias), T11::rebound_exprs(alias), T12::rebound_exprs(alias), T13::rebound_exprs(alias), T14::rebound_exprs(alias), T15::rebound_exprs(alias))
    }
}

impl<T0: ProjectionParams, T1: ProjectionParams, T2: ProjectionParams, T3: ProjectionParams, T4: ProjectionParams, T5: ProjectionParams, T6: ProjectionParams, T7: ProjectionParams, T8: ProjectionParams, T9: ProjectionParams, T10: ProjectionParams, T11: ProjectionParams, T12: ProjectionParams, T13: ProjectionParams, T14: ProjectionParams, T15: ProjectionParams> ProjectionParams for (T0, T1, T2, T3, T4, T5, T6, T7, T8, T9, T10, T11, T12, T13, T14, T15) where
    T14::Params: HAppend<T15::Params>,
    T13::Params: HAppend<<T14::Params as HAppend<T15::Params>>::Output>,
    T12::Params: HAppend<<T13::Params as HAppend<<T14::Params as HAppend<T15::Params>>::Output>>::Output>,
    T11::Params: HAppend<<T12::Params as HAppend<<T13::Params as HAppend<<T14::Params as HAppend<T15::Params>>::Output>>::Output>>::Output>,
    T10::Params: HAppend<<T11::Params as HAppend<<T12::Params as HAppend<<T13::Params as HAppend<<T14::Params as HAppend<T15::Params>>::Output>>::Output>>::Output>>::Output>,
    T9::Params: HAppend<<T10::Params as HAppend<<T11::Params as HAppend<<T12::Params as HAppend<<T13::Params as HAppend<<T14::Params as HAppend<T15::Params>>::Output>>::Output>>::Output>>::Output>>::Output>,
    T8::Params: HAppend<<T9::Params as HAppend<<T10::Params as HAppend<<T11::Params as HAppend<<T12::Params as HAppend<<T13::Params as HAppend<<T14::Params as HAppend<T15::Params>>::Output>>::Output>>::Output>>::Output>>::Output>>::Output>,
    T7::Params: HAppend<<T8::Params as HAppend<<T9::Params as HAppend<<T10::Params as HAppend<<T11::Params as HAppend<<T12::Params as HAppend<<T13::Params as HAppend<<T14::Params as HAppend<T15::Params>>::Output>>::Output>>::Output>>::Output>>::Output>>::Output>>::Output>,
    T6::Params: HAppend<<T7::Params as HAppend<<T8::Params as HAppend<<T9::Params as HAppend<<T10::Params as HAppend<<T11::Params as HAppend<<T12::Params as HAppend<<T13::Params as HAppend<<T14::Params as HAppend<T15::Params>>::Output>>::Output>>::Output>>::Output>>::Output>>::Output>>::Output>>::Output>,
    T5::Params: HAppend<<T6::Params as HAppend<<T7::Params as HAppend<<T8::Params as HAppend<<T9::Params as HAppend<<T10::Params as HAppend<<T11::Params as HAppend<<T12::Params as HAppend<<T13::Params as HAppend<<T14::Params as HAppend<T15::Params>>::Output>>::Output>>::Output>>::Output>>::Output>>::Output>>::Output>>::Output>>::Output>,
    T4::Params: HAppend<<T5::Params as HAppend<<T6::Params as HAppend<<T7::Params as HAppend<<T8::Params as HAppend<<T9::Params as HAppend<<T10::Params as HAppend<<T11::Params as HAppend<<T12::Params as HAppend<<T13::Params as HAppend<<T14::Params as HAppend<T15::Params>>::Output>>::Output>>::Output>>::Output>>::Output>>::Output>>::Output>>::Output>>::Output>>::Output>,
    T3::Params: HAppend<<T4::Params as HAppend<<T5::Params as HAppend<<T6::Params as HAppend<<T7::Params as HAppend<<T8::Params as HAppend<<T9::Params as HAppend<<T10::Params as HAppend<<T11::Params as HAppend<<T12::Params as HAppend<<T13::Params as HAppend<<T14::Params as HAppend<T15::Params>>::Output>>::Output>>::Output>>::Output>>::Output>>::Output>>::Output>>::Output>>::Output>>::Output>>::Output>,
    T2::Params: HAppend<<T3::Params as HAppend<<T4::Params as HAppend<<T5::Params as HAppend<<T6::Params as HAppend<<T7::Params as HAppend<<T8::Params as HAppend<<T9::Params as HAppend<<T10::Params as HAppend<<T11::Params as HAppend<<T12::Params as HAppend<<T13::Params as HAppend<<T14::Params as HAppend<T15::Params>>::Output>>::Output>>::Output>>::Output>>::Output>>::Output>>::Output>>::Output>>::Output>>::Output>>::Output>>::Output>,
    T1::Params: HAppend<<T2::Params as HAppend<<T3::Params as HAppend<<T4::Params as HAppend<<T5::Params as HAppend<<T6::Params as HAppend<<T7::Params as HAppend<<T8::Params as HAppend<<T9::Params as HAppend<<T10::Params as HAppend<<T11::Params as HAppend<<T12::Params as HAppend<<T13::Params as HAppend<<T14::Params as HAppend<T15::Params>>::Output>>::Output>>::Output>>::Output>>::Output>>::Output>>::Output>>::Output>>::Output>>::Output>>::Output>>::Output>>::Output>,
    T0::Params: HAppend<<T1::Params as HAppend<<T2::Params as HAppend<<T3::Params as HAppend<<T4::Params as HAppend<<T5::Params as HAppend<<T6::Params as HAppend<<T7::Params as HAppend<<T8::Params as HAppend<<T9::Params as HAppend<<T10::Params as HAppend<<T11::Params as HAppend<<T12::Params as HAppend<<T13::Params as HAppend<<T14::Params as HAppend<T15::Params>>::Output>>::Output>>::Output>>::Output>>::Output>>::Output>>::Output>>::Output>>::Output>>::Output>>::Output>>::Output>>::Output>>::Output>,
 {
    type Params = <T0::Params as HAppend<<T1::Params as HAppend<<T2::Params as HAppend<<T3::Params as HAppend<<T4::Params as HAppend<<T5::Params as HAppend<<T6::Params as HAppend<<T7::Params as HAppend<<T8::Params as HAppend<<T9::Params as HAppend<<T10::Params as HAppend<<T11::Params as HAppend<<T12::Params as HAppend<<T13::Params as HAppend<<T14::Params as HAppend<T15::Params>>::Output>>::Output>>::Output>>::Output>>::Output>>::Output>>::Output>>::Output>>::Output>>::Output>>::Output>>::Output>>::Output>>::Output>>::Output;
}

impl<T0: ProjectionClass, T1: ProjectionClass<Class = T0::Class>, T2: ProjectionClass<Class = T0::Class>, T3: ProjectionClass<Class = T0::Class>, T4: ProjectionClass<Class = T0::Class>, T5: ProjectionClass<Class = T0::Class>, T6: ProjectionClass<Class = T0::Class>, T7: ProjectionClass<Class = T0::Class>, T8: ProjectionClass<Class = T0::Class>, T9: ProjectionClass<Class = T0::Class>, T10: ProjectionClass<Class = T0::Class>, T11: ProjectionClass<Class = T0::Class>, T12: ProjectionClass<Class = T0::Class>, T13: ProjectionClass<Class = T0::Class>, T14: ProjectionClass<Class = T0::Class>, T15: ProjectionClass<Class = T0::Class>> ProjectionClass for (T0, T1, T2, T3, T4, T5, T6, T7, T8, T9, T10, T11, T12, T13, T14, T15) {
    type Class = T0::Class;
}

impl<T0: ReturnableProjection, T1: ReturnableProjection, T2: ReturnableProjection, T3: ReturnableProjection, T4: ReturnableProjection, T5: ReturnableProjection, T6: ReturnableProjection, T7: ReturnableProjection, T8: ReturnableProjection, T9: ReturnableProjection, T10: ReturnableProjection, T11: ReturnableProjection, T12: ReturnableProjection, T13: ReturnableProjection, T14: ReturnableProjection, T15: ReturnableProjection> ReturnableProjection for (T0, T1, T2, T3, T4, T5, T6, T7, T8, T9, T10, T11, T12, T13, T14, T15) {

}

impl<T0: RenderProjectable<B>, T1: RenderProjectable<B>, T2: RenderProjectable<B>, T3: RenderProjectable<B>, T4: RenderProjectable<B>, T5: RenderProjectable<B>, T6: RenderProjectable<B>, T7: RenderProjectable<B>, T8: RenderProjectable<B>, T9: RenderProjectable<B>, T10: RenderProjectable<B>, T11: RenderProjectable<B>, T12: RenderProjectable<B>, T13: RenderProjectable<B>, T14: RenderProjectable<B>, T15: RenderProjectable<B>, B: Backend> RenderProjectable<B> for (T0, T1, T2, T3, T4, T5, T6, T7, T8, T9, T10, T11, T12, T13, T14, T15) where
    T14::Params: HAppend<T15::Params>,
    T13::Params: HAppend<<T14::Params as HAppend<T15::Params>>::Output>,
    T12::Params: HAppend<<T13::Params as HAppend<<T14::Params as HAppend<T15::Params>>::Output>>::Output>,
    T11::Params: HAppend<<T12::Params as HAppend<<T13::Params as HAppend<<T14::Params as HAppend<T15::Params>>::Output>>::Output>>::Output>,
    T10::Params: HAppend<<T11::Params as HAppend<<T12::Params as HAppend<<T13::Params as HAppend<<T14::Params as HAppend<T15::Params>>::Output>>::Output>>::Output>>::Output>,
    T9::Params: HAppend<<T10::Params as HAppend<<T11::Params as HAppend<<T12::Params as HAppend<<T13::Params as HAppend<<T14::Params as HAppend<T15::Params>>::Output>>::Output>>::Output>>::Output>>::Output>,
    T8::Params: HAppend<<T9::Params as HAppend<<T10::Params as HAppend<<T11::Params as HAppend<<T12::Params as HAppend<<T13::Params as HAppend<<T14::Params as HAppend<T15::Params>>::Output>>::Output>>::Output>>::Output>>::Output>>::Output>,
    T7::Params: HAppend<<T8::Params as HAppend<<T9::Params as HAppend<<T10::Params as HAppend<<T11::Params as HAppend<<T12::Params as HAppend<<T13::Params as HAppend<<T14::Params as HAppend<T15::Params>>::Output>>::Output>>::Output>>::Output>>::Output>>::Output>>::Output>,
    T6::Params: HAppend<<T7::Params as HAppend<<T8::Params as HAppend<<T9::Params as HAppend<<T10::Params as HAppend<<T11::Params as HAppend<<T12::Params as HAppend<<T13::Params as HAppend<<T14::Params as HAppend<T15::Params>>::Output>>::Output>>::Output>>::Output>>::Output>>::Output>>::Output>>::Output>,
    T5::Params: HAppend<<T6::Params as HAppend<<T7::Params as HAppend<<T8::Params as HAppend<<T9::Params as HAppend<<T10::Params as HAppend<<T11::Params as HAppend<<T12::Params as HAppend<<T13::Params as HAppend<<T14::Params as HAppend<T15::Params>>::Output>>::Output>>::Output>>::Output>>::Output>>::Output>>::Output>>::Output>>::Output>,
    T4::Params: HAppend<<T5::Params as HAppend<<T6::Params as HAppend<<T7::Params as HAppend<<T8::Params as HAppend<<T9::Params as HAppend<<T10::Params as HAppend<<T11::Params as HAppend<<T12::Params as HAppend<<T13::Params as HAppend<<T14::Params as HAppend<T15::Params>>::Output>>::Output>>::Output>>::Output>>::Output>>::Output>>::Output>>::Output>>::Output>>::Output>,
    T3::Params: HAppend<<T4::Params as HAppend<<T5::Params as HAppend<<T6::Params as HAppend<<T7::Params as HAppend<<T8::Params as HAppend<<T9::Params as HAppend<<T10::Params as HAppend<<T11::Params as HAppend<<T12::Params as HAppend<<T13::Params as HAppend<<T14::Params as HAppend<T15::Params>>::Output>>::Output>>::Output>>::Output>>::Output>>::Output>>::Output>>::Output>>::Output>>::Output>>::Output>,
    T2::Params: HAppend<<T3::Params as HAppend<<T4::Params as HAppend<<T5::Params as HAppend<<T6::Params as HAppend<<T7::Params as HAppend<<T8::Params as HAppend<<T9::Params as HAppend<<T10::Params as HAppend<<T11::Params as HAppend<<T12::Params as HAppend<<T13::Params as HAppend<<T14::Params as HAppend<T15::Params>>::Output>>::Output>>::Output>>::Output>>::Output>>::Output>>::Output>>::Output>>::Output>>::Output>>::Output>>::Output>,
    T1::Params: HAppend<<T2::Params as HAppend<<T3::Params as HAppend<<T4::Params as HAppend<<T5::Params as HAppend<<T6::Params as HAppend<<T7::Params as HAppend<<T8::Params as HAppend<<T9::Params as HAppend<<T10::Params as HAppend<<T11::Params as HAppend<<T12::Params as HAppend<<T13::Params as HAppend<<T14::Params as HAppend<T15::Params>>::Output>>::Output>>::Output>>::Output>>::Output>>::Output>>::Output>>::Output>>::Output>>::Output>>::Output>>::Output>>::Output>,
    T0::Params: HAppend<<T1::Params as HAppend<<T2::Params as HAppend<<T3::Params as HAppend<<T4::Params as HAppend<<T5::Params as HAppend<<T6::Params as HAppend<<T7::Params as HAppend<<T8::Params as HAppend<<T9::Params as HAppend<<T10::Params as HAppend<<T11::Params as HAppend<<T12::Params as HAppend<<T13::Params as HAppend<<T14::Params as HAppend<T15::Params>>::Output>>::Output>>::Output>>::Output>>::Output>>::Output>>::Output>>::Output>>::Output>>::Output>>::Output>>::Output>>::Output>>::Output>,
 {
    open spec fn items(&self) -> List<ProjectionTree<Bound<B>>> {
        self.0.items().then_list(self.1.items().then_list(self.2.items().then_list(self.3.items().then_list(self.4.items().then_list(self.5.items().then_list(self.6.items().then_list(self.7.items().then_list(self.8.items().then_list(self.9.items().then_list(self.10.items().then_list(self.11.items().then_list(self.12.items().then_list(self.13.items().then_list(self.14.items().then_list(self.15.items())))))))))))))))
    }

    fn lower_projection(&self) -> (items: List<ProjectionTree<Bound<B>>>) {
        self.0.lower_projection().append(self.1.lower_projection().append(self.2.lower_projection().append(self.3.lower_projection().append(self.4.lower_projection().append(self.5.lower_projection().append(self.6.lower_projection().append(self.7.lower_projection().append(self.8.lower_projection().append(self.9.lower_projection().append(self.10.lower_projection().append(self.11.lower_projection().append(self.12.lower_projection().append(self.13.lower_projection().append(self.14.lower_projection().append(self.15.lower_projection())))))))))))))))
    }

    fn lower_projection_with_prefix(&self, prefix: &str) -> (items: List<
        ProjectionTree<Bound<B>>,
    >) {
        let items0 = self.0.lower_projection_with_prefix(prefix);
        let items1 = self.1.lower_projection_with_prefix(prefix);
        let items2 = self.2.lower_projection_with_prefix(prefix);
        let items3 = self.3.lower_projection_with_prefix(prefix);
        let items4 = self.4.lower_projection_with_prefix(prefix);
        let items5 = self.5.lower_projection_with_prefix(prefix);
        let items6 = self.6.lower_projection_with_prefix(prefix);
        let items7 = self.7.lower_projection_with_prefix(prefix);
        let items8 = self.8.lower_projection_with_prefix(prefix);
        let items9 = self.9.lower_projection_with_prefix(prefix);
        let items10 = self.10.lower_projection_with_prefix(prefix);
        let items11 = self.11.lower_projection_with_prefix(prefix);
        let items12 = self.12.lower_projection_with_prefix(prefix);
        let items13 = self.13.lower_projection_with_prefix(prefix);
        let items14 = self.14.lower_projection_with_prefix(prefix);
        let items15 = self.15.lower_projection_with_prefix(prefix);
        proof {
            crate::projection::lemma_prefixed_parts(self.14.items(), self.15.items(), prefix@, items14, items15);
            crate::projection::lemma_prefixed_parts(self.13.items(), self.14.items().then_list(self.15.items()), prefix@, items13, items14.then_list(items15));
            crate::projection::lemma_prefixed_parts(self.12.items(), self.13.items().then_list(self.14.items().then_list(self.15.items())), prefix@, items12, items13.then_list(items14.then_list(items15)));
            crate::projection::lemma_prefixed_parts(self.11.items(), self.12.items().then_list(self.13.items().then_list(self.14.items().then_list(self.15.items()))), prefix@, items11, items12.then_list(items13.then_list(items14.then_list(items15))));
            crate::projection::lemma_prefixed_parts(self.10.items(), self.11.items().then_list(self.12.items().then_list(self.13.items().then_list(self.14.items().then_list(self.15.items())))), prefix@, items10, items11.then_list(items12.then_list(items13.then_list(items14.then_list(items15)))));
            crate::projection::lemma_prefixed_parts(self.9.items(), self.10.items().then_list(self.11.items().then_list(self.12.items().then_list(self.13.items().then_list(self.14.items().then_list(self.15.items()))))), prefix@, items9, items10.then_list(items11.then_list(items12.then_list(items13.then_list(items14.then_list(items15))))));
            crate::projection::lemma_prefixed_parts(self.8.items(), self.9.items().then_list(self.10.items().then_list(self.11.items().then_list(self.12.items().then_list(self.13.items().then_list(self.14.items().then_list(self.15.items())))))), prefix@, items8, items9.then_list(items10.then_list(items11.then_list(items12.then_list(items13.then_list(items14.then_list(items15)))))));
            crate::projection::lemma_prefixed_parts(self.7.items(), self.8.items().then_list(self.9.items().then_list(self.10.items().then_list(self.11.items().then_list(self.12.items().then_list(self.13.items().then_list(self.14.items().then_list(self.15.items()))))))), prefix@, items7, items8.then_list(items9.then_list(items10.then_list(items11.then_list(items12.then_list(items13.then_list(items14.then_list(items15))))))));
            crate::projection::lemma_prefixed_parts(self.6.items(), self.7.items().then_list(self.8.items().then_list(self.9.items().then_list(self.10.items().then_list(self.11.items().then_list(self.12.items().then_list(self.13.items().then_list(self.14.items().then_list(self.15.items())))))))), prefix@, items6, items7.then_list(items8.then_list(items9.then_list(items10.then_list(items11.then_list(items12.then_list(items13.then_list(items14.then_list(items15)))))))));
            crate::projection::lemma_prefixed_parts(self.5.items(), self.6.items().then_list(self.7.items().then_list(self.8.items().then_list(self.9.items().then_list(self.10.items().then_list(self.11.items().then_list(self.12.items().then_list(self.13.items().then_list(self.14.items().then_list(self.15.items()))))))))), prefix@, items5, items6.then_list(items7.then_list(items8.then_list(items9.then_list(items10.then_list(items11.then_list(items12.then_list(items13.then_list(items14.then_list(items15))))))))));
            crate::projection::lemma_prefixed_parts(self.4.items(), self.5.items().then_list(self.6.items().then_list(self.7.items().then_list(self.8.items().then_list(self.9.items().then_list(self.10.items().then_list(self.11.items().then_list(self.12.items().then_list(self.13.items().then_list(self.14.items().then_list(self.15.items())))))))))), prefix@, items4, items5.then_list(items6.then_list(items7.then_list(items8.then_list(items9.then_list(items10.then_list(items11.then_list(items12.then_list(items13.then_list(items14.then_list(items15)))))))))));
            crate::projection::lemma_prefixed_parts(self.3.items(), self.4.items().then_list(self.5.items().then_list(self.6.items().then_list(self.7.items().then_list(self.8.items().then_list(self.9.items().then_list(self.10.items().then_list(self.11.items().then_list(self.12.items().then_list(self.13.items().then_list(self.14.items().then_list(self.15.items()))))))))))), prefix@, items3, items4.then_list(items5.then_list(items6.then_list(items7.then_list(items8.then_list(items9.then_list(items10.then_list(items11.then_list(items12.then_list(items13.then_list(items14.then_list(items15))))))))))));
            crate::projection::lemma_prefixed_parts(self.2.items(), self.3.items().then_list(self.4.items().then_list(self.5.items().then_list(self.6.items().then_list(self.7.items().then_list(self.8.items().then_list(self.9.items().then_list(self.10.items().then_list(self.11.items().then_list(self.12.items().then_list(self.13.items().then_list(self.14.items().then_list(self.15.items())))))))))))), prefix@, items2, items3.then_list(items4.then_list(items5.then_list(items6.then_list(items7.then_list(items8.then_list(items9.then_list(items10.then_list(items11.then_list(items12.then_list(items13.then_list(items14.then_list(items15)))))))))))));
            crate::projection::lemma_prefixed_parts(self.1.items(), self.2.items().then_list(self.3.items().then_list(self.4.items().then_list(self.5.items().then_list(self.6.items().then_list(self.7.items().then_list(self.8.items().then_list(self.9.items().then_list(self.10.items().then_list(self.11.items().then_list(self.12.items().then_list(self.13.items().then_list(self.14.items().then_list(self.15.items()))))))))))))), prefix@, items1, items2.then_list(items3.then_list(items4.then_list(items5.then_list(items6.then_list(items7.then_list(items8.then_list(items9.then_list(items10.then_list(items11.then_list(items12.then_list(items13.then_list(items14.then_list(items15))))))))))))));
            crate::projection::lemma_prefixed_parts(self.0.items(), self.1.items().then_list(self.2.items().then_list(self.3.items().then_list(self.4.items().then_list(self.5.items().then_list(self.6.items().then_list(self.7.items().then_list(self.8.items().then_list(self.9.items().then_list(self.10.items().then_list(self.11.items().then_list(self.12.items().then_list(self.13.items().then_list(self.14.items().then_list(self.15.items())))))))))))))), prefix@, items0, items1.then_list(items2.then_list(items3.then_list(items4.then_list(items5.then_list(items6.then_list(items7.then_list(items8.then_list(items9.then_list(items10.then_list(items11.then_list(items12.then_list(items13.then_list(items14.then_list(items15)))))))))))))));
        }
        items0.append(items1.append(items2.append(items3.append(items4.append(items5.append(items6.append(items7.append(items8.append(items9.append(items10.append(items11.append(items12.append(items13.append(items14.append(items15)))))))))))))))
    }

    proof fn lemma_projection_params<D: Dialect>(&self, dialect: D, bare: bool, lead: Seq<char>) {
        let lead1 = if self.0.items() is Nil { lead } else { ", "@ };
        self.0.lemma_projection_params(dialect, bare, lead);
        crate::projection::lemma_projection_parts(dialect, bare, lead, self.0.items(), self.1.items().then_list(self.2.items().then_list(self.3.items().then_list(self.4.items().then_list(self.5.items().then_list(self.6.items().then_list(self.7.items().then_list(self.8.items().then_list(self.9.items().then_list(self.10.items().then_list(self.11.items().then_list(self.12.items().then_list(self.13.items().then_list(self.14.items().then_list(self.15.items())))))))))))))));
        let lead2 = if self.1.items() is Nil { lead1 } else { ", "@ };
        self.1.lemma_projection_params(dialect, bare, lead1);
        crate::projection::lemma_projection_parts(dialect, bare, lead1, self.1.items(), self.2.items().then_list(self.3.items().then_list(self.4.items().then_list(self.5.items().then_list(self.6.items().then_list(self.7.items().then_list(self.8.items().then_list(self.9.items().then_list(self.10.items().then_list(self.11.items().then_list(self.12.items().then_list(self.13.items().then_list(self.14.items().then_list(self.15.items()))))))))))))));
        let lead3 = if self.2.items() is Nil { lead2 } else { ", "@ };
        self.2.lemma_projection_params(dialect, bare, lead2);
        crate::projection::lemma_projection_parts(dialect, bare, lead2, self.2.items(), self.3.items().then_list(self.4.items().then_list(self.5.items().then_list(self.6.items().then_list(self.7.items().then_list(self.8.items().then_list(self.9.items().then_list(self.10.items().then_list(self.11.items().then_list(self.12.items().then_list(self.13.items().then_list(self.14.items().then_list(self.15.items())))))))))))));
        let lead4 = if self.3.items() is Nil { lead3 } else { ", "@ };
        self.3.lemma_projection_params(dialect, bare, lead3);
        crate::projection::lemma_projection_parts(dialect, bare, lead3, self.3.items(), self.4.items().then_list(self.5.items().then_list(self.6.items().then_list(self.7.items().then_list(self.8.items().then_list(self.9.items().then_list(self.10.items().then_list(self.11.items().then_list(self.12.items().then_list(self.13.items().then_list(self.14.items().then_list(self.15.items()))))))))))));
        let lead5 = if self.4.items() is Nil { lead4 } else { ", "@ };
        self.4.lemma_projection_params(dialect, bare, lead4);
        crate::projection::lemma_projection_parts(dialect, bare, lead4, self.4.items(), self.5.items().then_list(self.6.items().then_list(self.7.items().then_list(self.8.items().then_list(self.9.items().then_list(self.10.items().then_list(self.11.items().then_list(self.12.items().then_list(self.13.items().then_list(self.14.items().then_list(self.15.items())))))))))));
        let lead6 = if self.5.items() is Nil { lead5 } else { ", "@ };
        self.5.lemma_projection_params(dialect, bare, lead5);
        crate::projection::lemma_projection_parts(dialect, bare, lead5, self.5.items(), self.6.items().then_list(self.7.items().then_list(self.8.items().then_list(self.9.items().then_list(self.10.items().then_list(self.11.items().then_list(self.12.items().then_list(self.13.items().then_list(self.14.items().then_list(self.15.items()))))))))));
        let lead7 = if self.6.items() is Nil { lead6 } else { ", "@ };
        self.6.lemma_projection_params(dialect, bare, lead6);
        crate::projection::lemma_projection_parts(dialect, bare, lead6, self.6.items(), self.7.items().then_list(self.8.items().then_list(self.9.items().then_list(self.10.items().then_list(self.11.items().then_list(self.12.items().then_list(self.13.items().then_list(self.14.items().then_list(self.15.items())))))))));
        let lead8 = if self.7.items() is Nil { lead7 } else { ", "@ };
        self.7.lemma_projection_params(dialect, bare, lead7);
        crate::projection::lemma_projection_parts(dialect, bare, lead7, self.7.items(), self.8.items().then_list(self.9.items().then_list(self.10.items().then_list(self.11.items().then_list(self.12.items().then_list(self.13.items().then_list(self.14.items().then_list(self.15.items()))))))));
        let lead9 = if self.8.items() is Nil { lead8 } else { ", "@ };
        self.8.lemma_projection_params(dialect, bare, lead8);
        crate::projection::lemma_projection_parts(dialect, bare, lead8, self.8.items(), self.9.items().then_list(self.10.items().then_list(self.11.items().then_list(self.12.items().then_list(self.13.items().then_list(self.14.items().then_list(self.15.items())))))));
        let lead10 = if self.9.items() is Nil { lead9 } else { ", "@ };
        self.9.lemma_projection_params(dialect, bare, lead9);
        crate::projection::lemma_projection_parts(dialect, bare, lead9, self.9.items(), self.10.items().then_list(self.11.items().then_list(self.12.items().then_list(self.13.items().then_list(self.14.items().then_list(self.15.items()))))));
        let lead11 = if self.10.items() is Nil { lead10 } else { ", "@ };
        self.10.lemma_projection_params(dialect, bare, lead10);
        crate::projection::lemma_projection_parts(dialect, bare, lead10, self.10.items(), self.11.items().then_list(self.12.items().then_list(self.13.items().then_list(self.14.items().then_list(self.15.items())))));
        let lead12 = if self.11.items() is Nil { lead11 } else { ", "@ };
        self.11.lemma_projection_params(dialect, bare, lead11);
        crate::projection::lemma_projection_parts(dialect, bare, lead11, self.11.items(), self.12.items().then_list(self.13.items().then_list(self.14.items().then_list(self.15.items()))));
        let lead13 = if self.12.items() is Nil { lead12 } else { ", "@ };
        self.12.lemma_projection_params(dialect, bare, lead12);
        crate::projection::lemma_projection_parts(dialect, bare, lead12, self.12.items(), self.13.items().then_list(self.14.items().then_list(self.15.items())));
        let lead14 = if self.13.items() is Nil { lead13 } else { ", "@ };
        self.13.lemma_projection_params(dialect, bare, lead13);
        crate::projection::lemma_projection_parts(dialect, bare, lead13, self.13.items(), self.14.items().then_list(self.15.items()));
        let lead15 = if self.14.items() is Nil { lead14 } else { ", "@ };
        self.14.lemma_projection_params(dialect, bare, lead14);
        crate::projection::lemma_projection_parts(dialect, bare, lead14, self.14.items(), self.15.items());
        self.15.lemma_projection_params(dialect, bare, lead15);
        <T0::Params as HAppend<<T1::Params as HAppend<<T2::Params as HAppend<<T3::Params as HAppend<<T4::Params as HAppend<<T5::Params as HAppend<<T6::Params as HAppend<<T7::Params as HAppend<<T8::Params as HAppend<<T9::Params as HAppend<<T10::Params as HAppend<<T11::Params as HAppend<<T12::Params as HAppend<<T13::Params as HAppend<<T14::Params as HAppend<T15::Params>>::Output>>::Output>>::Output>>::Output>>::Output>>::Output>>::Output>>::Output>>::Output>>::Output>>::Output>>::Output>>::Output>>::Output>>::lemma_append_width();
        <T1::Params as HAppend<<T2::Params as HAppend<<T3::Params as HAppend<<T4::Params as HAppend<<T5::Params as HAppend<<T6::Params as HAppend<<T7::Params as HAppend<<T8::Params as HAppend<<T9::Params as HAppend<<T10::Params as HAppend<<T11::Params as HAppend<<T12::Params as HAppend<<T13::Params as HAppend<<T14::Params as HAppend<T15::Params>>::Output>>::Output>>::Output>>::Output>>::Output>>::Output>>::Output>>::Output>>::Output>>::Output>>::Output>>::Output>>::Output>>::lemma_append_width();
        <T2::Params as HAppend<<T3::Params as HAppend<<T4::Params as HAppend<<T5::Params as HAppend<<T6::Params as HAppend<<T7::Params as HAppend<<T8::Params as HAppend<<T9::Params as HAppend<<T10::Params as HAppend<<T11::Params as HAppend<<T12::Params as HAppend<<T13::Params as HAppend<<T14::Params as HAppend<T15::Params>>::Output>>::Output>>::Output>>::Output>>::Output>>::Output>>::Output>>::Output>>::Output>>::Output>>::Output>>::Output>>::lemma_append_width();
        <T3::Params as HAppend<<T4::Params as HAppend<<T5::Params as HAppend<<T6::Params as HAppend<<T7::Params as HAppend<<T8::Params as HAppend<<T9::Params as HAppend<<T10::Params as HAppend<<T11::Params as HAppend<<T12::Params as HAppend<<T13::Params as HAppend<<T14::Params as HAppend<T15::Params>>::Output>>::Output>>::Output>>::Output>>::Output>>::Output>>::Output>>::Output>>::Output>>::Output>>::Output>>::lemma_append_width();
        <T4::Params as HAppend<<T5::Params as HAppend<<T6::Params as HAppend<<T7::Params as HAppend<<T8::Params as HAppend<<T9::Params as HAppend<<T10::Params as HAppend<<T11::Params as HAppend<<T12::Params as HAppend<<T13::Params as HAppend<<T14::Params as HAppend<T15::Params>>::Output>>::Output>>::Output>>::Output>>::Output>>::Output>>::Output>>::Output>>::Output>>::Output>>::lemma_append_width();
        <T5::Params as HAppend<<T6::Params as HAppend<<T7::Params as HAppend<<T8::Params as HAppend<<T9::Params as HAppend<<T10::Params as HAppend<<T11::Params as HAppend<<T12::Params as HAppend<<T13::Params as HAppend<<T14::Params as HAppend<T15::Params>>::Output>>::Output>>::Output>>::Output>>::Output>>::Output>>::Output>>::Output>>::Output>>::lemma_append_width();
        <T6::Params as HAppend<<T7::Params as HAppend<<T8::Params as HAppend<<T9::Params as HAppend<<T10::Params as HAppend<<T11::Params as HAppend<<T12::Params as HAppend<<T13::Params as HAppend<<T14::Params as HAppend<T15::Params>>::Output>>::Output>>::Output>>::Output>>::Output>>::Output>>::Output>>::Output>>::lemma_append_width();
        <T7::Params as HAppend<<T8::Params as HAppend<<T9::Params as HAppend<<T10::Params as HAppend<<T11::Params as HAppend<<T12::Params as HAppend<<T13::Params as HAppend<<T14::Params as HAppend<T15::Params>>::Output>>::Output>>::Output>>::Output>>::Output>>::Output>>::Output>>::lemma_append_width();
        <T8::Params as HAppend<<T9::Params as HAppend<<T10::Params as HAppend<<T11::Params as HAppend<<T12::Params as HAppend<<T13::Params as HAppend<<T14::Params as HAppend<T15::Params>>::Output>>::Output>>::Output>>::Output>>::Output>>::Output>>::lemma_append_width();
        <T9::Params as HAppend<<T10::Params as HAppend<<T11::Params as HAppend<<T12::Params as HAppend<<T13::Params as HAppend<<T14::Params as HAppend<T15::Params>>::Output>>::Output>>::Output>>::Output>>::Output>>::lemma_append_width();
        <T10::Params as HAppend<<T11::Params as HAppend<<T12::Params as HAppend<<T13::Params as HAppend<<T14::Params as HAppend<T15::Params>>::Output>>::Output>>::Output>>::Output>>::lemma_append_width();
        <T11::Params as HAppend<<T12::Params as HAppend<<T13::Params as HAppend<<T14::Params as HAppend<T15::Params>>::Output>>::Output>>::Output>>::lemma_append_width();
        <T12::Params as HAppend<<T13::Params as HAppend<<T14::Params as HAppend<T15::Params>>::Output>>::Output>>::lemma_append_width();
        <T13::Params as HAppend<<T14::Params as HAppend<T15::Params>>::Output>>::lemma_append_width();
        <T14::Params as HAppend<T15::Params>>::lemma_append_width();
    }

    proof fn lemma_projection_plain(&self) {
        <T0::Params as HAppend<<T1::Params as HAppend<<T2::Params as HAppend<<T3::Params as HAppend<<T4::Params as HAppend<<T5::Params as HAppend<<T6::Params as HAppend<<T7::Params as HAppend<<T8::Params as HAppend<<T9::Params as HAppend<<T10::Params as HAppend<<T11::Params as HAppend<<T12::Params as HAppend<<T13::Params as HAppend<<T14::Params as HAppend<T15::Params>>::Output>>::Output>>::Output>>::Output>>::Output>>::Output>>::Output>>::Output>>::Output>>::Output>>::Output>>::Output>>::Output>>::Output>>::lemma_append_width();
        <T1::Params as HAppend<<T2::Params as HAppend<<T3::Params as HAppend<<T4::Params as HAppend<<T5::Params as HAppend<<T6::Params as HAppend<<T7::Params as HAppend<<T8::Params as HAppend<<T9::Params as HAppend<<T10::Params as HAppend<<T11::Params as HAppend<<T12::Params as HAppend<<T13::Params as HAppend<<T14::Params as HAppend<T15::Params>>::Output>>::Output>>::Output>>::Output>>::Output>>::Output>>::Output>>::Output>>::Output>>::Output>>::Output>>::Output>>::Output>>::lemma_append_width();
        <T2::Params as HAppend<<T3::Params as HAppend<<T4::Params as HAppend<<T5::Params as HAppend<<T6::Params as HAppend<<T7::Params as HAppend<<T8::Params as HAppend<<T9::Params as HAppend<<T10::Params as HAppend<<T11::Params as HAppend<<T12::Params as HAppend<<T13::Params as HAppend<<T14::Params as HAppend<T15::Params>>::Output>>::Output>>::Output>>::Output>>::Output>>::Output>>::Output>>::Output>>::Output>>::Output>>::Output>>::Output>>::lemma_append_width();
        <T3::Params as HAppend<<T4::Params as HAppend<<T5::Params as HAppend<<T6::Params as HAppend<<T7::Params as HAppend<<T8::Params as HAppend<<T9::Params as HAppend<<T10::Params as HAppend<<T11::Params as HAppend<<T12::Params as HAppend<<T13::Params as HAppend<<T14::Params as HAppend<T15::Params>>::Output>>::Output>>::Output>>::Output>>::Output>>::Output>>::Output>>::Output>>::Output>>::Output>>::Output>>::lemma_append_width();
        <T4::Params as HAppend<<T5::Params as HAppend<<T6::Params as HAppend<<T7::Params as HAppend<<T8::Params as HAppend<<T9::Params as HAppend<<T10::Params as HAppend<<T11::Params as HAppend<<T12::Params as HAppend<<T13::Params as HAppend<<T14::Params as HAppend<T15::Params>>::Output>>::Output>>::Output>>::Output>>::Output>>::Output>>::Output>>::Output>>::Output>>::Output>>::lemma_append_width();
        <T5::Params as HAppend<<T6::Params as HAppend<<T7::Params as HAppend<<T8::Params as HAppend<<T9::Params as HAppend<<T10::Params as HAppend<<T11::Params as HAppend<<T12::Params as HAppend<<T13::Params as HAppend<<T14::Params as HAppend<T15::Params>>::Output>>::Output>>::Output>>::Output>>::Output>>::Output>>::Output>>::Output>>::Output>>::lemma_append_width();
        <T6::Params as HAppend<<T7::Params as HAppend<<T8::Params as HAppend<<T9::Params as HAppend<<T10::Params as HAppend<<T11::Params as HAppend<<T12::Params as HAppend<<T13::Params as HAppend<<T14::Params as HAppend<T15::Params>>::Output>>::Output>>::Output>>::Output>>::Output>>::Output>>::Output>>::Output>>::lemma_append_width();
        <T7::Params as HAppend<<T8::Params as HAppend<<T9::Params as HAppend<<T10::Params as HAppend<<T11::Params as HAppend<<T12::Params as HAppend<<T13::Params as HAppend<<T14::Params as HAppend<T15::Params>>::Output>>::Output>>::Output>>::Output>>::Output>>::Output>>::Output>>::lemma_append_width();
        <T8::Params as HAppend<<T9::Params as HAppend<<T10::Params as HAppend<<T11::Params as HAppend<<T12::Params as HAppend<<T13::Params as HAppend<<T14::Params as HAppend<T15::Params>>::Output>>::Output>>::Output>>::Output>>::Output>>::Output>>::lemma_append_width();
        <T9::Params as HAppend<<T10::Params as HAppend<<T11::Params as HAppend<<T12::Params as HAppend<<T13::Params as HAppend<<T14::Params as HAppend<T15::Params>>::Output>>::Output>>::Output>>::Output>>::Output>>::lemma_append_width();
        <T10::Params as HAppend<<T11::Params as HAppend<<T12::Params as HAppend<<T13::Params as HAppend<<T14::Params as HAppend<T15::Params>>::Output>>::Output>>::Output>>::Output>>::lemma_append_width();
        <T11::Params as HAppend<<T12::Params as HAppend<<T13::Params as HAppend<<T14::Params as HAppend<T15::Params>>::Output>>::Output>>::Output>>::lemma_append_width();
        <T12::Params as HAppend<<T13::Params as HAppend<<T14::Params as HAppend<T15::Params>>::Output>>::Output>>::lemma_append_width();
        <T13::Params as HAppend<<T14::Params as HAppend<T15::Params>>::Output>>::lemma_append_width();
        <T14::Params as HAppend<T15::Params>>::lemma_append_width();
        self.0.lemma_projection_plain();
        self.1.lemma_projection_plain();
        self.2.lemma_projection_plain();
        self.3.lemma_projection_plain();
        self.4.lemma_projection_plain();
        self.5.lemma_projection_plain();
        self.6.lemma_projection_plain();
        self.7.lemma_projection_plain();
        self.8.lemma_projection_plain();
        self.9.lemma_projection_plain();
        self.10.lemma_projection_plain();
        self.11.lemma_projection_plain();
        self.12.lemma_projection_plain();
        self.13.lemma_projection_plain();
        self.14.lemma_projection_plain();
        self.15.lemma_projection_plain();
        crate::projection::lemma_plain_parts(self.14.items(), self.15.items());
        crate::projection::lemma_plain_parts(self.13.items(), self.14.items().then_list(self.15.items()));
        crate::projection::lemma_plain_parts(self.12.items(), self.13.items().then_list(self.14.items().then_list(self.15.items())));
        crate::projection::lemma_plain_parts(self.11.items(), self.12.items().then_list(self.13.items().then_list(self.14.items().then_list(self.15.items()))));
        crate::projection::lemma_plain_parts(self.10.items(), self.11.items().then_list(self.12.items().then_list(self.13.items().then_list(self.14.items().then_list(self.15.items())))));
        crate::projection::lemma_plain_parts(self.9.items(), self.10.items().then_list(self.11.items().then_list(self.12.items().then_list(self.13.items().then_list(self.14.items().then_list(self.15.items()))))));
        crate::projection::lemma_plain_parts(self.8.items(), self.9.items().then_list(self.10.items().then_list(self.11.items().then_list(self.12.items().then_list(self.13.items().then_list(self.14.items().then_list(self.15.items())))))));
        crate::projection::lemma_plain_parts(self.7.items(), self.8.items().then_list(self.9.items().then_list(self.10.items().then_list(self.11.items().then_list(self.12.items().then_list(self.13.items().then_list(self.14.items().then_list(self.15.items()))))))));
        crate::projection::lemma_plain_parts(self.6.items(), self.7.items().then_list(self.8.items().then_list(self.9.items().then_list(self.10.items().then_list(self.11.items().then_list(self.12.items().then_list(self.13.items().then_list(self.14.items().then_list(self.15.items())))))))));
        crate::projection::lemma_plain_parts(self.5.items(), self.6.items().then_list(self.7.items().then_list(self.8.items().then_list(self.9.items().then_list(self.10.items().then_list(self.11.items().then_list(self.12.items().then_list(self.13.items().then_list(self.14.items().then_list(self.15.items()))))))))));
        crate::projection::lemma_plain_parts(self.4.items(), self.5.items().then_list(self.6.items().then_list(self.7.items().then_list(self.8.items().then_list(self.9.items().then_list(self.10.items().then_list(self.11.items().then_list(self.12.items().then_list(self.13.items().then_list(self.14.items().then_list(self.15.items())))))))))));
        crate::projection::lemma_plain_parts(self.3.items(), self.4.items().then_list(self.5.items().then_list(self.6.items().then_list(self.7.items().then_list(self.8.items().then_list(self.9.items().then_list(self.10.items().then_list(self.11.items().then_list(self.12.items().then_list(self.13.items().then_list(self.14.items().then_list(self.15.items()))))))))))));
        crate::projection::lemma_plain_parts(self.2.items(), self.3.items().then_list(self.4.items().then_list(self.5.items().then_list(self.6.items().then_list(self.7.items().then_list(self.8.items().then_list(self.9.items().then_list(self.10.items().then_list(self.11.items().then_list(self.12.items().then_list(self.13.items().then_list(self.14.items().then_list(self.15.items())))))))))))));
        crate::projection::lemma_plain_parts(self.1.items(), self.2.items().then_list(self.3.items().then_list(self.4.items().then_list(self.5.items().then_list(self.6.items().then_list(self.7.items().then_list(self.8.items().then_list(self.9.items().then_list(self.10.items().then_list(self.11.items().then_list(self.12.items().then_list(self.13.items().then_list(self.14.items().then_list(self.15.items()))))))))))))));
        crate::projection::lemma_plain_parts(self.0.items(), self.1.items().then_list(self.2.items().then_list(self.3.items().then_list(self.4.items().then_list(self.5.items().then_list(self.6.items().then_list(self.7.items().then_list(self.8.items().then_list(self.9.items().then_list(self.10.items().then_list(self.11.items().then_list(self.12.items().then_list(self.13.items().then_list(self.14.items().then_list(self.15.items())))))))))))))));
    }
}

impl<'scope, T0: ReturningProjection<'scope>, T1: ReturningProjection<'scope>, T2: ReturningProjection<'scope>, T3: ReturningProjection<'scope>, T4: ReturningProjection<'scope>, T5: ReturningProjection<'scope>, T6: ReturningProjection<'scope>, T7: ReturningProjection<'scope>, T8: ReturningProjection<'scope>> ReturningProjection<'scope> for (T0, T1, T2, T3, T4, T5, T6, T7, T8) {
    type Shape = (T0::Shape, T1::Shape, T2::Shape, T3::Shape, T4::Shape, T5::Shape, T6::Shape, T7::Shape, T8::Shape);
}

impl<'scope, T0: ReturningProjection<'scope>, T1: ReturningProjection<'scope>, T2: ReturningProjection<'scope>, T3: ReturningProjection<'scope>, T4: ReturningProjection<'scope>, T5: ReturningProjection<'scope>, T6: ReturningProjection<'scope>, T7: ReturningProjection<'scope>, T8: ReturningProjection<'scope>, T9: ReturningProjection<'scope>> ReturningProjection<'scope> for (T0, T1, T2, T3, T4, T5, T6, T7, T8, T9) {
    type Shape = (T0::Shape, T1::Shape, T2::Shape, T3::Shape, T4::Shape, T5::Shape, T6::Shape, T7::Shape, T8::Shape, T9::Shape);
}

impl<'scope, T0: ReturningProjection<'scope>, T1: ReturningProjection<'scope>, T2: ReturningProjection<'scope>, T3: ReturningProjection<'scope>, T4: ReturningProjection<'scope>, T5: ReturningProjection<'scope>, T6: ReturningProjection<'scope>, T7: ReturningProjection<'scope>, T8: ReturningProjection<'scope>, T9: ReturningProjection<'scope>, T10: ReturningProjection<'scope>> ReturningProjection<'scope> for (T0, T1, T2, T3, T4, T5, T6, T7, T8, T9, T10) {
    type Shape = (T0::Shape, T1::Shape, T2::Shape, T3::Shape, T4::Shape, T5::Shape, T6::Shape, T7::Shape, T8::Shape, T9::Shape, T10::Shape);
}

impl<'scope, T0: ReturningProjection<'scope>, T1: ReturningProjection<'scope>, T2: ReturningProjection<'scope>, T3: ReturningProjection<'scope>, T4: ReturningProjection<'scope>, T5: ReturningProjection<'scope>, T6: ReturningProjection<'scope>, T7: ReturningProjection<'scope>, T8: ReturningProjection<'scope>, T9: ReturningProjection<'scope>, T10: ReturningProjection<'scope>, T11: ReturningProjection<'scope>> ReturningProjection<'scope> for (T0, T1, T2, T3, T4, T5, T6, T7, T8, T9, T10, T11) {
    type Shape = (T0::Shape, T1::Shape, T2::Shape, T3::Shape, T4::Shape, T5::Shape, T6::Shape, T7::Shape, T8::Shape, T9::Shape, T10::Shape, T11::Shape);
}

impl<'scope, T0: ReturningProjection<'scope>, T1: ReturningProjection<'scope>, T2: ReturningProjection<'scope>, T3: ReturningProjection<'scope>, T4: ReturningProjection<'scope>, T5: ReturningProjection<'scope>, T6: ReturningProjection<'scope>, T7: ReturningProjection<'scope>, T8: ReturningProjection<'scope>, T9: ReturningProjection<'scope>, T10: ReturningProjection<'scope>, T11: ReturningProjection<'scope>, T12: ReturningProjection<'scope>> ReturningProjection<'scope> for (T0, T1, T2, T3, T4, T5, T6, T7, T8, T9, T10, T11, T12) {
    type Shape = (T0::Shape, T1::Shape, T2::Shape, T3::Shape, T4::Shape, T5::Shape, T6::Shape, T7::Shape, T8::Shape, T9::Shape, T10::Shape, T11::Shape, T12::Shape);
}

impl<'scope, T0: ReturningProjection<'scope>, T1: ReturningProjection<'scope>, T2: ReturningProjection<'scope>, T3: ReturningProjection<'scope>, T4: ReturningProjection<'scope>, T5: ReturningProjection<'scope>, T6: ReturningProjection<'scope>, T7: ReturningProjection<'scope>, T8: ReturningProjection<'scope>, T9: ReturningProjection<'scope>, T10: ReturningProjection<'scope>, T11: ReturningProjection<'scope>, T12: ReturningProjection<'scope>, T13: ReturningProjection<'scope>> ReturningProjection<'scope> for (T0, T1, T2, T3, T4, T5, T6, T7, T8, T9, T10, T11, T12, T13) {
    type Shape = (T0::Shape, T1::Shape, T2::Shape, T3::Shape, T4::Shape, T5::Shape, T6::Shape, T7::Shape, T8::Shape, T9::Shape, T10::Shape, T11::Shape, T12::Shape, T13::Shape);
}

impl<'scope, T0: ReturningProjection<'scope>, T1: ReturningProjection<'scope>, T2: ReturningProjection<'scope>, T3: ReturningProjection<'scope>, T4: ReturningProjection<'scope>, T5: ReturningProjection<'scope>, T6: ReturningProjection<'scope>, T7: ReturningProjection<'scope>, T8: ReturningProjection<'scope>, T9: ReturningProjection<'scope>, T10: ReturningProjection<'scope>, T11: ReturningProjection<'scope>, T12: ReturningProjection<'scope>, T13: ReturningProjection<'scope>, T14: ReturningProjection<'scope>> ReturningProjection<'scope> for (T0, T1, T2, T3, T4, T5, T6, T7, T8, T9, T10, T11, T12, T13, T14) {
    type Shape = (T0::Shape, T1::Shape, T2::Shape, T3::Shape, T4::Shape, T5::Shape, T6::Shape, T7::Shape, T8::Shape, T9::Shape, T10::Shape, T11::Shape, T12::Shape, T13::Shape, T14::Shape);
}

impl<'scope, T0: ReturningProjection<'scope>, T1: ReturningProjection<'scope>, T2: ReturningProjection<'scope>, T3: ReturningProjection<'scope>, T4: ReturningProjection<'scope>, T5: ReturningProjection<'scope>, T6: ReturningProjection<'scope>, T7: ReturningProjection<'scope>, T8: ReturningProjection<'scope>, T9: ReturningProjection<'scope>, T10: ReturningProjection<'scope>, T11: ReturningProjection<'scope>, T12: ReturningProjection<'scope>, T13: ReturningProjection<'scope>, T14: ReturningProjection<'scope>, T15: ReturningProjection<'scope>> ReturningProjection<'scope> for (T0, T1, T2, T3, T4, T5, T6, T7, T8, T9, T10, T11, T12, T13, T14, T15) {
    type Shape = (T0::Shape, T1::Shape, T2::Shape, T3::Shape, T4::Shape, T5::Shape, T6::Shape, T7::Shape, T8::Shape, T9::Shape, T10::Shape, T11::Shape, T12::Shape, T13::Shape, T14::Shape, T15::Shape);
}

} // verus!
