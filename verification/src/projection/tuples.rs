//! What tuples keep of their parts: every part in its place.
use crate::backend::{Backend, Encode};
use crate::chain;
use crate::chain::List;
use crate::label::Duplicate;
use crate::list::{HAppend, HCons, HNil, IntoPreparedParam};
use crate::params;
use crate::params::PreparedParamValues;
use crate::projection::{Projectable, ProjectionParams, RenderProjectable};
use vstd::prelude::*;

verus! {

/// Parameters that follow each other are all there, in order. Where one cannot be encoded there are
/// none, and the error is that of the first such one.
pub proof fn law_parameters_follow<P, E>(
    first: Result<List<P>, E>,
    rest: Result<List<P>, E>,
    params: List<P>,
    more: List<P>,
    error: E,
)
    ensures
        first == Ok::<List<P>, E>(params) && rest == Ok::<List<P>, E>(more) ==> (params::joined(
            first,
            rest,
        ) matches Ok(all) && all.seq() == params.seq() + more.seq()),
        first == Err::<List<P>, E>(error) ==> params::joined(first, rest) == first,
        first is Ok && rest == Err::<List<P>, E>(error) ==> params::joined(first, rest) == rest,
{
    chain::lemma_then_list(params, more);
}

/// The parameters of a pair are those of its values, first to last.
pub proof fn law_pair_of_parameters<
    B: Backend,
    T0: Encode<B>,
    T1: Encode<B>,
    V0: IntoPreparedParam<T0> + Duplicate,
    V1: IntoPreparedParam<T1> + Duplicate,
>(row: (V0, V1), params: List<B::Param>)
    requires
        PreparedParamValues::<HCons<T0, HCons<T1, HNil>>, B>::all_encoded(&row, Ok(params)),
    ensures
        exists|p0: List<B::Param>, p1: List<B::Param>|
            #![trigger params::encodes::<B, T0, V0>(row.0, Ok(p0)), params::encodes::<B, T1, V1>(row.1, Ok(p1))]
            {
                &&& params::encodes::<B, T0, V0>(row.0, Ok(p0))
                &&& params::encodes::<B, T1, V1>(row.1, Ok(p1))
                &&& params.seq() == p0.seq() + p1.seq()
            },
{
    let result = Ok::<List<B::Param>, B::Error>(params);
    let (r0, r1) = choose|r0: Result<List<B::Param>, B::Error>, r1: Result<List<B::Param>, B::Error>|
        {
            &&& #[trigger] params::encodes::<B, T0, V0>(row.0, r0)
            &&& #[trigger] params::encodes::<B, T1, V1>(row.1, r1)
            &&& result == params::joined(r0, params::joined(r1, Ok::<List<B::Param>, B::Error>(List::Nil)))
        };
    let p0 = r0->Ok_0;
    let p1 = r1->Ok_0;
    let nothing = List::<B::Param>::Nil;
    let t1 = p1.then_list(nothing);
    chain::lemma_then_list(p1, nothing);
    let t0 = p0.then_list(t1);
    chain::lemma_then_list(p0, t1);
    assert(params::encodes::<B, T0, V0>(row.0, Ok(p0)));
    assert(params::encodes::<B, T1, V1>(row.1, Ok(p1)));
    assert(params.seq() =~= p0.seq() + p1.seq());
}

/// The parameters of a triple are those of its values, first to last.
pub proof fn law_triple_of_parameters<
    B: Backend,
    T0: Encode<B>,
    T1: Encode<B>,
    T2: Encode<B>,
    V0: IntoPreparedParam<T0> + Duplicate,
    V1: IntoPreparedParam<T1> + Duplicate,
    V2: IntoPreparedParam<T2> + Duplicate,
>(row: (V0, V1, V2), params: List<B::Param>)
    requires
        PreparedParamValues::<HCons<T0, HCons<T1, HCons<T2, HNil>>>, B>::all_encoded(&row, Ok(params)),
    ensures
        exists|p0: List<B::Param>, p1: List<B::Param>, p2: List<B::Param>|
            #![trigger params::encodes::<B, T0, V0>(row.0, Ok(p0)), params::encodes::<B, T1, V1>(row.1, Ok(p1)), params::encodes::<B, T2, V2>(row.2, Ok(p2))]
            {
                &&& params::encodes::<B, T0, V0>(row.0, Ok(p0))
                &&& params::encodes::<B, T1, V1>(row.1, Ok(p1))
                &&& params::encodes::<B, T2, V2>(row.2, Ok(p2))
                &&& params.seq() == p0.seq() + p1.seq() + p2.seq()
            },
{
    let result = Ok::<List<B::Param>, B::Error>(params);
    let (r0, r1, r2) = choose|r0: Result<List<B::Param>, B::Error>, r1: Result<List<B::Param>, B::Error>, r2: Result<List<B::Param>, B::Error>|
        {
            &&& #[trigger] params::encodes::<B, T0, V0>(row.0, r0)
            &&& #[trigger] params::encodes::<B, T1, V1>(row.1, r1)
            &&& #[trigger] params::encodes::<B, T2, V2>(row.2, r2)
            &&& result == params::joined(r0, params::joined(r1, params::joined(r2, Ok::<List<B::Param>, B::Error>(List::Nil))))
        };
    let p0 = r0->Ok_0;
    let p1 = r1->Ok_0;
    let p2 = r2->Ok_0;
    let nothing = List::<B::Param>::Nil;
    let t2 = p2.then_list(nothing);
    chain::lemma_then_list(p2, nothing);
    let t1 = p1.then_list(t2);
    chain::lemma_then_list(p1, t2);
    let t0 = p0.then_list(t1);
    chain::lemma_then_list(p0, t1);
    assert(params::encodes::<B, T0, V0>(row.0, Ok(p0)));
    assert(params::encodes::<B, T1, V1>(row.1, Ok(p1)));
    assert(params::encodes::<B, T2, V2>(row.2, Ok(p2)));
    assert(params.seq() =~= p0.seq() + p1.seq() + p2.seq());
}

/// The parameters of a quadruple are those of its values, first to last.
pub proof fn law_quadruple_of_parameters<
    B: Backend,
    T0: Encode<B>,
    T1: Encode<B>,
    T2: Encode<B>,
    T3: Encode<B>,
    V0: IntoPreparedParam<T0> + Duplicate,
    V1: IntoPreparedParam<T1> + Duplicate,
    V2: IntoPreparedParam<T2> + Duplicate,
    V3: IntoPreparedParam<T3> + Duplicate,
>(row: (V0, V1, V2, V3), params: List<B::Param>)
    requires
        PreparedParamValues::<HCons<T0, HCons<T1, HCons<T2, HCons<T3, HNil>>>>, B>::all_encoded(&row, Ok(params)),
    ensures
        exists|p0: List<B::Param>, p1: List<B::Param>, p2: List<B::Param>, p3: List<B::Param>|
            #![trigger params::encodes::<B, T0, V0>(row.0, Ok(p0)), params::encodes::<B, T1, V1>(row.1, Ok(p1)), params::encodes::<B, T2, V2>(row.2, Ok(p2)), params::encodes::<B, T3, V3>(row.3, Ok(p3))]
            {
                &&& params::encodes::<B, T0, V0>(row.0, Ok(p0))
                &&& params::encodes::<B, T1, V1>(row.1, Ok(p1))
                &&& params::encodes::<B, T2, V2>(row.2, Ok(p2))
                &&& params::encodes::<B, T3, V3>(row.3, Ok(p3))
                &&& params.seq() == p0.seq() + p1.seq() + p2.seq() + p3.seq()
            },
{
    let result = Ok::<List<B::Param>, B::Error>(params);
    let (r0, r1, r2, r3) = choose|r0: Result<List<B::Param>, B::Error>, r1: Result<List<B::Param>, B::Error>, r2: Result<List<B::Param>, B::Error>, r3: Result<List<B::Param>, B::Error>|
        {
            &&& #[trigger] params::encodes::<B, T0, V0>(row.0, r0)
            &&& #[trigger] params::encodes::<B, T1, V1>(row.1, r1)
            &&& #[trigger] params::encodes::<B, T2, V2>(row.2, r2)
            &&& #[trigger] params::encodes::<B, T3, V3>(row.3, r3)
            &&& result == params::joined(r0, params::joined(r1, params::joined(r2, params::joined(r3, Ok::<List<B::Param>, B::Error>(List::Nil)))))
        };
    let p0 = r0->Ok_0;
    let p1 = r1->Ok_0;
    let p2 = r2->Ok_0;
    let p3 = r3->Ok_0;
    let nothing = List::<B::Param>::Nil;
    let t3 = p3.then_list(nothing);
    chain::lemma_then_list(p3, nothing);
    let t2 = p2.then_list(t3);
    chain::lemma_then_list(p2, t3);
    let t1 = p1.then_list(t2);
    chain::lemma_then_list(p1, t2);
    let t0 = p0.then_list(t1);
    chain::lemma_then_list(p0, t1);
    assert(params::encodes::<B, T0, V0>(row.0, Ok(p0)));
    assert(params::encodes::<B, T1, V1>(row.1, Ok(p1)));
    assert(params::encodes::<B, T2, V2>(row.2, Ok(p2)));
    assert(params::encodes::<B, T3, V3>(row.3, Ok(p3)));
    assert(params.seq() =~= p0.seq() + p1.seq() + p2.seq() + p3.seq());
}

/// A tuple of 2 parts projects the columns of each part, the first part first.
pub proof fn law_projection_of_2<T0: RenderProjectable<B>, T1: RenderProjectable<B>, B: Backend>(row: (T0, T1)) where
    T0::Params: HAppend<T1::Params>,

    ensures
        row.items().seq() == row.0.items().seq() + row.1.items().seq(),
{
    let part1 = row.1.items();
    let part0 = row.0.items().then_list(part1);
    chain::lemma_then_list(row.0.items(), part1);
}

/// A tuple of 3 parts projects the columns of each part, the first part first.
pub proof fn law_projection_of_3<T0: RenderProjectable<B>, T1: RenderProjectable<B>, T2: RenderProjectable<B>, B: Backend>(row: (T0, T1, T2)) where
    T1::Params: HAppend<T2::Params>,
    T0::Params: HAppend<<T1::Params as HAppend<T2::Params>>::Output>,

    ensures
        row.items().seq() == row.0.items().seq() + (row.1.items().seq() + row.2.items().seq()),
{
    let part2 = row.2.items();
    let part1 = row.1.items().then_list(part2);
    chain::lemma_then_list(row.1.items(), part2);
    let part0 = row.0.items().then_list(part1);
    chain::lemma_then_list(row.0.items(), part1);
}

/// A tuple of 4 parts projects the columns of each part, the first part first.
pub proof fn law_projection_of_4<T0: RenderProjectable<B>, T1: RenderProjectable<B>, T2: RenderProjectable<B>, T3: RenderProjectable<B>, B: Backend>(row: (T0, T1, T2, T3)) where
    T2::Params: HAppend<T3::Params>,
    T1::Params: HAppend<<T2::Params as HAppend<T3::Params>>::Output>,
    T0::Params: HAppend<<T1::Params as HAppend<<T2::Params as HAppend<T3::Params>>::Output>>::Output>,

    ensures
        row.items().seq() == row.0.items().seq() + (row.1.items().seq() + (row.2.items().seq() + row.3.items().seq())),
{
    let part3 = row.3.items();
    let part2 = row.2.items().then_list(part3);
    chain::lemma_then_list(row.2.items(), part3);
    let part1 = row.1.items().then_list(part2);
    chain::lemma_then_list(row.1.items(), part2);
    let part0 = row.0.items().then_list(part1);
    chain::lemma_then_list(row.0.items(), part1);
}

/// A tuple of 5 parts projects the columns of each part, the first part first.
pub proof fn law_projection_of_5<T0: RenderProjectable<B>, T1: RenderProjectable<B>, T2: RenderProjectable<B>, T3: RenderProjectable<B>, T4: RenderProjectable<B>, B: Backend>(row: (T0, T1, T2, T3, T4)) where
    T3::Params: HAppend<T4::Params>,
    T2::Params: HAppend<<T3::Params as HAppend<T4::Params>>::Output>,
    T1::Params: HAppend<<T2::Params as HAppend<<T3::Params as HAppend<T4::Params>>::Output>>::Output>,
    T0::Params: HAppend<<T1::Params as HAppend<<T2::Params as HAppend<<T3::Params as HAppend<T4::Params>>::Output>>::Output>>::Output>,

    ensures
        row.items().seq() == row.0.items().seq() + (row.1.items().seq() + (row.2.items().seq() + (row.3.items().seq() + row.4.items().seq()))),
{
    let part4 = row.4.items();
    let part3 = row.3.items().then_list(part4);
    chain::lemma_then_list(row.3.items(), part4);
    let part2 = row.2.items().then_list(part3);
    chain::lemma_then_list(row.2.items(), part3);
    let part1 = row.1.items().then_list(part2);
    chain::lemma_then_list(row.1.items(), part2);
    let part0 = row.0.items().then_list(part1);
    chain::lemma_then_list(row.0.items(), part1);
}

/// A tuple of 6 parts projects the columns of each part, the first part first.
pub proof fn law_projection_of_6<T0: RenderProjectable<B>, T1: RenderProjectable<B>, T2: RenderProjectable<B>, T3: RenderProjectable<B>, T4: RenderProjectable<B>, T5: RenderProjectable<B>, B: Backend>(row: (T0, T1, T2, T3, T4, T5)) where
    T4::Params: HAppend<T5::Params>,
    T3::Params: HAppend<<T4::Params as HAppend<T5::Params>>::Output>,
    T2::Params: HAppend<<T3::Params as HAppend<<T4::Params as HAppend<T5::Params>>::Output>>::Output>,
    T1::Params: HAppend<<T2::Params as HAppend<<T3::Params as HAppend<<T4::Params as HAppend<T5::Params>>::Output>>::Output>>::Output>,
    T0::Params: HAppend<<T1::Params as HAppend<<T2::Params as HAppend<<T3::Params as HAppend<<T4::Params as HAppend<T5::Params>>::Output>>::Output>>::Output>>::Output>,

    ensures
        row.items().seq() == row.0.items().seq() + (row.1.items().seq() + (row.2.items().seq() + (row.3.items().seq() + (row.4.items().seq() + row.5.items().seq())))),
{
    let part5 = row.5.items();
    let part4 = row.4.items().then_list(part5);
    chain::lemma_then_list(row.4.items(), part5);
    let part3 = row.3.items().then_list(part4);
    chain::lemma_then_list(row.3.items(), part4);
    let part2 = row.2.items().then_list(part3);
    chain::lemma_then_list(row.2.items(), part3);
    let part1 = row.1.items().then_list(part2);
    chain::lemma_then_list(row.1.items(), part2);
    let part0 = row.0.items().then_list(part1);
    chain::lemma_then_list(row.0.items(), part1);
}

/// A tuple of 7 parts projects the columns of each part, the first part first.
pub proof fn law_projection_of_7<T0: RenderProjectable<B>, T1: RenderProjectable<B>, T2: RenderProjectable<B>, T3: RenderProjectable<B>, T4: RenderProjectable<B>, T5: RenderProjectable<B>, T6: RenderProjectable<B>, B: Backend>(row: (T0, T1, T2, T3, T4, T5, T6)) where
    T5::Params: HAppend<T6::Params>,
    T4::Params: HAppend<<T5::Params as HAppend<T6::Params>>::Output>,
    T3::Params: HAppend<<T4::Params as HAppend<<T5::Params as HAppend<T6::Params>>::Output>>::Output>,
    T2::Params: HAppend<<T3::Params as HAppend<<T4::Params as HAppend<<T5::Params as HAppend<T6::Params>>::Output>>::Output>>::Output>,
    T1::Params: HAppend<<T2::Params as HAppend<<T3::Params as HAppend<<T4::Params as HAppend<<T5::Params as HAppend<T6::Params>>::Output>>::Output>>::Output>>::Output>,
    T0::Params: HAppend<<T1::Params as HAppend<<T2::Params as HAppend<<T3::Params as HAppend<<T4::Params as HAppend<<T5::Params as HAppend<T6::Params>>::Output>>::Output>>::Output>>::Output>>::Output>,

    ensures
        row.items().seq() == row.0.items().seq() + (row.1.items().seq() + (row.2.items().seq() + (row.3.items().seq() + (row.4.items().seq() + (row.5.items().seq() + row.6.items().seq()))))),
{
    let part6 = row.6.items();
    let part5 = row.5.items().then_list(part6);
    chain::lemma_then_list(row.5.items(), part6);
    let part4 = row.4.items().then_list(part5);
    chain::lemma_then_list(row.4.items(), part5);
    let part3 = row.3.items().then_list(part4);
    chain::lemma_then_list(row.3.items(), part4);
    let part2 = row.2.items().then_list(part3);
    chain::lemma_then_list(row.2.items(), part3);
    let part1 = row.1.items().then_list(part2);
    chain::lemma_then_list(row.1.items(), part2);
    let part0 = row.0.items().then_list(part1);
    chain::lemma_then_list(row.0.items(), part1);
}

/// A tuple of 8 parts projects the columns of each part, the first part first.
pub proof fn law_projection_of_8<T0: RenderProjectable<B>, T1: RenderProjectable<B>, T2: RenderProjectable<B>, T3: RenderProjectable<B>, T4: RenderProjectable<B>, T5: RenderProjectable<B>, T6: RenderProjectable<B>, T7: RenderProjectable<B>, B: Backend>(row: (T0, T1, T2, T3, T4, T5, T6, T7)) where
    T6::Params: HAppend<T7::Params>,
    T5::Params: HAppend<<T6::Params as HAppend<T7::Params>>::Output>,
    T4::Params: HAppend<<T5::Params as HAppend<<T6::Params as HAppend<T7::Params>>::Output>>::Output>,
    T3::Params: HAppend<<T4::Params as HAppend<<T5::Params as HAppend<<T6::Params as HAppend<T7::Params>>::Output>>::Output>>::Output>,
    T2::Params: HAppend<<T3::Params as HAppend<<T4::Params as HAppend<<T5::Params as HAppend<<T6::Params as HAppend<T7::Params>>::Output>>::Output>>::Output>>::Output>,
    T1::Params: HAppend<<T2::Params as HAppend<<T3::Params as HAppend<<T4::Params as HAppend<<T5::Params as HAppend<<T6::Params as HAppend<T7::Params>>::Output>>::Output>>::Output>>::Output>>::Output>,
    T0::Params: HAppend<<T1::Params as HAppend<<T2::Params as HAppend<<T3::Params as HAppend<<T4::Params as HAppend<<T5::Params as HAppend<<T6::Params as HAppend<T7::Params>>::Output>>::Output>>::Output>>::Output>>::Output>>::Output>,

    ensures
        row.items().seq() == row.0.items().seq() + (row.1.items().seq() + (row.2.items().seq() + (row.3.items().seq() + (row.4.items().seq() + (row.5.items().seq() + (row.6.items().seq() + row.7.items().seq())))))),
{
    let part7 = row.7.items();
    let part6 = row.6.items().then_list(part7);
    chain::lemma_then_list(row.6.items(), part7);
    let part5 = row.5.items().then_list(part6);
    chain::lemma_then_list(row.5.items(), part6);
    let part4 = row.4.items().then_list(part5);
    chain::lemma_then_list(row.4.items(), part5);
    let part3 = row.3.items().then_list(part4);
    chain::lemma_then_list(row.3.items(), part4);
    let part2 = row.2.items().then_list(part3);
    chain::lemma_then_list(row.2.items(), part3);
    let part1 = row.1.items().then_list(part2);
    chain::lemma_then_list(row.1.items(), part2);
    let part0 = row.0.items().then_list(part1);
    chain::lemma_then_list(row.0.items(), part1);
}

/// A tuple of 9 parts projects the columns of each part, the first part first.
pub proof fn law_projection_of_9<T0: RenderProjectable<B>, T1: RenderProjectable<B>, T2: RenderProjectable<B>, T3: RenderProjectable<B>, T4: RenderProjectable<B>, T5: RenderProjectable<B>, T6: RenderProjectable<B>, T7: RenderProjectable<B>, T8: RenderProjectable<B>, B: Backend>(row: (T0, T1, T2, T3, T4, T5, T6, T7, T8)) where
    T7::Params: HAppend<T8::Params>,
    T6::Params: HAppend<<T7::Params as HAppend<T8::Params>>::Output>,
    T5::Params: HAppend<<T6::Params as HAppend<<T7::Params as HAppend<T8::Params>>::Output>>::Output>,
    T4::Params: HAppend<<T5::Params as HAppend<<T6::Params as HAppend<<T7::Params as HAppend<T8::Params>>::Output>>::Output>>::Output>,
    T3::Params: HAppend<<T4::Params as HAppend<<T5::Params as HAppend<<T6::Params as HAppend<<T7::Params as HAppend<T8::Params>>::Output>>::Output>>::Output>>::Output>,
    T2::Params: HAppend<<T3::Params as HAppend<<T4::Params as HAppend<<T5::Params as HAppend<<T6::Params as HAppend<<T7::Params as HAppend<T8::Params>>::Output>>::Output>>::Output>>::Output>>::Output>,
    T1::Params: HAppend<<T2::Params as HAppend<<T3::Params as HAppend<<T4::Params as HAppend<<T5::Params as HAppend<<T6::Params as HAppend<<T7::Params as HAppend<T8::Params>>::Output>>::Output>>::Output>>::Output>>::Output>>::Output>,
    T0::Params: HAppend<<T1::Params as HAppend<<T2::Params as HAppend<<T3::Params as HAppend<<T4::Params as HAppend<<T5::Params as HAppend<<T6::Params as HAppend<<T7::Params as HAppend<T8::Params>>::Output>>::Output>>::Output>>::Output>>::Output>>::Output>>::Output>,

    ensures
        row.items().seq() == row.0.items().seq() + (row.1.items().seq() + (row.2.items().seq() + (row.3.items().seq() + (row.4.items().seq() + (row.5.items().seq() + (row.6.items().seq() + (row.7.items().seq() + row.8.items().seq()))))))),
{
    let part8 = row.8.items();
    let part7 = row.7.items().then_list(part8);
    chain::lemma_then_list(row.7.items(), part8);
    let part6 = row.6.items().then_list(part7);
    chain::lemma_then_list(row.6.items(), part7);
    let part5 = row.5.items().then_list(part6);
    chain::lemma_then_list(row.5.items(), part6);
    let part4 = row.4.items().then_list(part5);
    chain::lemma_then_list(row.4.items(), part5);
    let part3 = row.3.items().then_list(part4);
    chain::lemma_then_list(row.3.items(), part4);
    let part2 = row.2.items().then_list(part3);
    chain::lemma_then_list(row.2.items(), part3);
    let part1 = row.1.items().then_list(part2);
    chain::lemma_then_list(row.1.items(), part2);
    let part0 = row.0.items().then_list(part1);
    chain::lemma_then_list(row.0.items(), part1);
}

/// A tuple of 10 parts projects the columns of each part, the first part first.
pub proof fn law_projection_of_10<T0: RenderProjectable<B>, T1: RenderProjectable<B>, T2: RenderProjectable<B>, T3: RenderProjectable<B>, T4: RenderProjectable<B>, T5: RenderProjectable<B>, T6: RenderProjectable<B>, T7: RenderProjectable<B>, T8: RenderProjectable<B>, T9: RenderProjectable<B>, B: Backend>(row: (T0, T1, T2, T3, T4, T5, T6, T7, T8, T9)) where
    T8::Params: HAppend<T9::Params>,
    T7::Params: HAppend<<T8::Params as HAppend<T9::Params>>::Output>,
    T6::Params: HAppend<<T7::Params as HAppend<<T8::Params as HAppend<T9::Params>>::Output>>::Output>,
    T5::Params: HAppend<<T6::Params as HAppend<<T7::Params as HAppend<<T8::Params as HAppend<T9::Params>>::Output>>::Output>>::Output>,
    T4::Params: HAppend<<T5::Params as HAppend<<T6::Params as HAppend<<T7::Params as HAppend<<T8::Params as HAppend<T9::Params>>::Output>>::Output>>::Output>>::Output>,
    T3::Params: HAppend<<T4::Params as HAppend<<T5::Params as HAppend<<T6::Params as HAppend<<T7::Params as HAppend<<T8::Params as HAppend<T9::Params>>::Output>>::Output>>::Output>>::Output>>::Output>,
    T2::Params: HAppend<<T3::Params as HAppend<<T4::Params as HAppend<<T5::Params as HAppend<<T6::Params as HAppend<<T7::Params as HAppend<<T8::Params as HAppend<T9::Params>>::Output>>::Output>>::Output>>::Output>>::Output>>::Output>,
    T1::Params: HAppend<<T2::Params as HAppend<<T3::Params as HAppend<<T4::Params as HAppend<<T5::Params as HAppend<<T6::Params as HAppend<<T7::Params as HAppend<<T8::Params as HAppend<T9::Params>>::Output>>::Output>>::Output>>::Output>>::Output>>::Output>>::Output>,
    T0::Params: HAppend<<T1::Params as HAppend<<T2::Params as HAppend<<T3::Params as HAppend<<T4::Params as HAppend<<T5::Params as HAppend<<T6::Params as HAppend<<T7::Params as HAppend<<T8::Params as HAppend<T9::Params>>::Output>>::Output>>::Output>>::Output>>::Output>>::Output>>::Output>>::Output>,

    ensures
        row.items().seq() == row.0.items().seq() + (row.1.items().seq() + (row.2.items().seq() + (row.3.items().seq() + (row.4.items().seq() + (row.5.items().seq() + (row.6.items().seq() + (row.7.items().seq() + (row.8.items().seq() + row.9.items().seq())))))))),
{
    let part9 = row.9.items();
    let part8 = row.8.items().then_list(part9);
    chain::lemma_then_list(row.8.items(), part9);
    let part7 = row.7.items().then_list(part8);
    chain::lemma_then_list(row.7.items(), part8);
    let part6 = row.6.items().then_list(part7);
    chain::lemma_then_list(row.6.items(), part7);
    let part5 = row.5.items().then_list(part6);
    chain::lemma_then_list(row.5.items(), part6);
    let part4 = row.4.items().then_list(part5);
    chain::lemma_then_list(row.4.items(), part5);
    let part3 = row.3.items().then_list(part4);
    chain::lemma_then_list(row.3.items(), part4);
    let part2 = row.2.items().then_list(part3);
    chain::lemma_then_list(row.2.items(), part3);
    let part1 = row.1.items().then_list(part2);
    chain::lemma_then_list(row.1.items(), part2);
    let part0 = row.0.items().then_list(part1);
    chain::lemma_then_list(row.0.items(), part1);
}

/// A tuple of 11 parts projects the columns of each part, the first part first.
pub proof fn law_projection_of_11<T0: RenderProjectable<B>, T1: RenderProjectable<B>, T2: RenderProjectable<B>, T3: RenderProjectable<B>, T4: RenderProjectable<B>, T5: RenderProjectable<B>, T6: RenderProjectable<B>, T7: RenderProjectable<B>, T8: RenderProjectable<B>, T9: RenderProjectable<B>, T10: RenderProjectable<B>, B: Backend>(row: (T0, T1, T2, T3, T4, T5, T6, T7, T8, T9, T10)) where
    T9::Params: HAppend<T10::Params>,
    T8::Params: HAppend<<T9::Params as HAppend<T10::Params>>::Output>,
    T7::Params: HAppend<<T8::Params as HAppend<<T9::Params as HAppend<T10::Params>>::Output>>::Output>,
    T6::Params: HAppend<<T7::Params as HAppend<<T8::Params as HAppend<<T9::Params as HAppend<T10::Params>>::Output>>::Output>>::Output>,
    T5::Params: HAppend<<T6::Params as HAppend<<T7::Params as HAppend<<T8::Params as HAppend<<T9::Params as HAppend<T10::Params>>::Output>>::Output>>::Output>>::Output>,
    T4::Params: HAppend<<T5::Params as HAppend<<T6::Params as HAppend<<T7::Params as HAppend<<T8::Params as HAppend<<T9::Params as HAppend<T10::Params>>::Output>>::Output>>::Output>>::Output>>::Output>,
    T3::Params: HAppend<<T4::Params as HAppend<<T5::Params as HAppend<<T6::Params as HAppend<<T7::Params as HAppend<<T8::Params as HAppend<<T9::Params as HAppend<T10::Params>>::Output>>::Output>>::Output>>::Output>>::Output>>::Output>,
    T2::Params: HAppend<<T3::Params as HAppend<<T4::Params as HAppend<<T5::Params as HAppend<<T6::Params as HAppend<<T7::Params as HAppend<<T8::Params as HAppend<<T9::Params as HAppend<T10::Params>>::Output>>::Output>>::Output>>::Output>>::Output>>::Output>>::Output>,
    T1::Params: HAppend<<T2::Params as HAppend<<T3::Params as HAppend<<T4::Params as HAppend<<T5::Params as HAppend<<T6::Params as HAppend<<T7::Params as HAppend<<T8::Params as HAppend<<T9::Params as HAppend<T10::Params>>::Output>>::Output>>::Output>>::Output>>::Output>>::Output>>::Output>>::Output>,
    T0::Params: HAppend<<T1::Params as HAppend<<T2::Params as HAppend<<T3::Params as HAppend<<T4::Params as HAppend<<T5::Params as HAppend<<T6::Params as HAppend<<T7::Params as HAppend<<T8::Params as HAppend<<T9::Params as HAppend<T10::Params>>::Output>>::Output>>::Output>>::Output>>::Output>>::Output>>::Output>>::Output>>::Output>,

    ensures
        row.items().seq() == row.0.items().seq() + (row.1.items().seq() + (row.2.items().seq() + (row.3.items().seq() + (row.4.items().seq() + (row.5.items().seq() + (row.6.items().seq() + (row.7.items().seq() + (row.8.items().seq() + (row.9.items().seq() + row.10.items().seq()))))))))),
{
    let part10 = row.10.items();
    let part9 = row.9.items().then_list(part10);
    chain::lemma_then_list(row.9.items(), part10);
    let part8 = row.8.items().then_list(part9);
    chain::lemma_then_list(row.8.items(), part9);
    let part7 = row.7.items().then_list(part8);
    chain::lemma_then_list(row.7.items(), part8);
    let part6 = row.6.items().then_list(part7);
    chain::lemma_then_list(row.6.items(), part7);
    let part5 = row.5.items().then_list(part6);
    chain::lemma_then_list(row.5.items(), part6);
    let part4 = row.4.items().then_list(part5);
    chain::lemma_then_list(row.4.items(), part5);
    let part3 = row.3.items().then_list(part4);
    chain::lemma_then_list(row.3.items(), part4);
    let part2 = row.2.items().then_list(part3);
    chain::lemma_then_list(row.2.items(), part3);
    let part1 = row.1.items().then_list(part2);
    chain::lemma_then_list(row.1.items(), part2);
    let part0 = row.0.items().then_list(part1);
    chain::lemma_then_list(row.0.items(), part1);
}

/// A tuple of 12 parts projects the columns of each part, the first part first.
pub proof fn law_projection_of_12<T0: RenderProjectable<B>, T1: RenderProjectable<B>, T2: RenderProjectable<B>, T3: RenderProjectable<B>, T4: RenderProjectable<B>, T5: RenderProjectable<B>, T6: RenderProjectable<B>, T7: RenderProjectable<B>, T8: RenderProjectable<B>, T9: RenderProjectable<B>, T10: RenderProjectable<B>, T11: RenderProjectable<B>, B: Backend>(row: (T0, T1, T2, T3, T4, T5, T6, T7, T8, T9, T10, T11)) where
    T10::Params: HAppend<T11::Params>,
    T9::Params: HAppend<<T10::Params as HAppend<T11::Params>>::Output>,
    T8::Params: HAppend<<T9::Params as HAppend<<T10::Params as HAppend<T11::Params>>::Output>>::Output>,
    T7::Params: HAppend<<T8::Params as HAppend<<T9::Params as HAppend<<T10::Params as HAppend<T11::Params>>::Output>>::Output>>::Output>,
    T6::Params: HAppend<<T7::Params as HAppend<<T8::Params as HAppend<<T9::Params as HAppend<<T10::Params as HAppend<T11::Params>>::Output>>::Output>>::Output>>::Output>,
    T5::Params: HAppend<<T6::Params as HAppend<<T7::Params as HAppend<<T8::Params as HAppend<<T9::Params as HAppend<<T10::Params as HAppend<T11::Params>>::Output>>::Output>>::Output>>::Output>>::Output>,
    T4::Params: HAppend<<T5::Params as HAppend<<T6::Params as HAppend<<T7::Params as HAppend<<T8::Params as HAppend<<T9::Params as HAppend<<T10::Params as HAppend<T11::Params>>::Output>>::Output>>::Output>>::Output>>::Output>>::Output>,
    T3::Params: HAppend<<T4::Params as HAppend<<T5::Params as HAppend<<T6::Params as HAppend<<T7::Params as HAppend<<T8::Params as HAppend<<T9::Params as HAppend<<T10::Params as HAppend<T11::Params>>::Output>>::Output>>::Output>>::Output>>::Output>>::Output>>::Output>,
    T2::Params: HAppend<<T3::Params as HAppend<<T4::Params as HAppend<<T5::Params as HAppend<<T6::Params as HAppend<<T7::Params as HAppend<<T8::Params as HAppend<<T9::Params as HAppend<<T10::Params as HAppend<T11::Params>>::Output>>::Output>>::Output>>::Output>>::Output>>::Output>>::Output>>::Output>,
    T1::Params: HAppend<<T2::Params as HAppend<<T3::Params as HAppend<<T4::Params as HAppend<<T5::Params as HAppend<<T6::Params as HAppend<<T7::Params as HAppend<<T8::Params as HAppend<<T9::Params as HAppend<<T10::Params as HAppend<T11::Params>>::Output>>::Output>>::Output>>::Output>>::Output>>::Output>>::Output>>::Output>>::Output>,
    T0::Params: HAppend<<T1::Params as HAppend<<T2::Params as HAppend<<T3::Params as HAppend<<T4::Params as HAppend<<T5::Params as HAppend<<T6::Params as HAppend<<T7::Params as HAppend<<T8::Params as HAppend<<T9::Params as HAppend<<T10::Params as HAppend<T11::Params>>::Output>>::Output>>::Output>>::Output>>::Output>>::Output>>::Output>>::Output>>::Output>>::Output>,

    ensures
        row.items().seq() == row.0.items().seq() + (row.1.items().seq() + (row.2.items().seq() + (row.3.items().seq() + (row.4.items().seq() + (row.5.items().seq() + (row.6.items().seq() + (row.7.items().seq() + (row.8.items().seq() + (row.9.items().seq() + (row.10.items().seq() + row.11.items().seq())))))))))),
{
    let part11 = row.11.items();
    let part10 = row.10.items().then_list(part11);
    chain::lemma_then_list(row.10.items(), part11);
    let part9 = row.9.items().then_list(part10);
    chain::lemma_then_list(row.9.items(), part10);
    let part8 = row.8.items().then_list(part9);
    chain::lemma_then_list(row.8.items(), part9);
    let part7 = row.7.items().then_list(part8);
    chain::lemma_then_list(row.7.items(), part8);
    let part6 = row.6.items().then_list(part7);
    chain::lemma_then_list(row.6.items(), part7);
    let part5 = row.5.items().then_list(part6);
    chain::lemma_then_list(row.5.items(), part6);
    let part4 = row.4.items().then_list(part5);
    chain::lemma_then_list(row.4.items(), part5);
    let part3 = row.3.items().then_list(part4);
    chain::lemma_then_list(row.3.items(), part4);
    let part2 = row.2.items().then_list(part3);
    chain::lemma_then_list(row.2.items(), part3);
    let part1 = row.1.items().then_list(part2);
    chain::lemma_then_list(row.1.items(), part2);
    let part0 = row.0.items().then_list(part1);
    chain::lemma_then_list(row.0.items(), part1);
}

/// A tuple of 13 parts projects the columns of each part, the first part first.
pub proof fn law_projection_of_13<T0: RenderProjectable<B>, T1: RenderProjectable<B>, T2: RenderProjectable<B>, T3: RenderProjectable<B>, T4: RenderProjectable<B>, T5: RenderProjectable<B>, T6: RenderProjectable<B>, T7: RenderProjectable<B>, T8: RenderProjectable<B>, T9: RenderProjectable<B>, T10: RenderProjectable<B>, T11: RenderProjectable<B>, T12: RenderProjectable<B>, B: Backend>(row: (T0, T1, T2, T3, T4, T5, T6, T7, T8, T9, T10, T11, T12)) where
    T11::Params: HAppend<T12::Params>,
    T10::Params: HAppend<<T11::Params as HAppend<T12::Params>>::Output>,
    T9::Params: HAppend<<T10::Params as HAppend<<T11::Params as HAppend<T12::Params>>::Output>>::Output>,
    T8::Params: HAppend<<T9::Params as HAppend<<T10::Params as HAppend<<T11::Params as HAppend<T12::Params>>::Output>>::Output>>::Output>,
    T7::Params: HAppend<<T8::Params as HAppend<<T9::Params as HAppend<<T10::Params as HAppend<<T11::Params as HAppend<T12::Params>>::Output>>::Output>>::Output>>::Output>,
    T6::Params: HAppend<<T7::Params as HAppend<<T8::Params as HAppend<<T9::Params as HAppend<<T10::Params as HAppend<<T11::Params as HAppend<T12::Params>>::Output>>::Output>>::Output>>::Output>>::Output>,
    T5::Params: HAppend<<T6::Params as HAppend<<T7::Params as HAppend<<T8::Params as HAppend<<T9::Params as HAppend<<T10::Params as HAppend<<T11::Params as HAppend<T12::Params>>::Output>>::Output>>::Output>>::Output>>::Output>>::Output>,
    T4::Params: HAppend<<T5::Params as HAppend<<T6::Params as HAppend<<T7::Params as HAppend<<T8::Params as HAppend<<T9::Params as HAppend<<T10::Params as HAppend<<T11::Params as HAppend<T12::Params>>::Output>>::Output>>::Output>>::Output>>::Output>>::Output>>::Output>,
    T3::Params: HAppend<<T4::Params as HAppend<<T5::Params as HAppend<<T6::Params as HAppend<<T7::Params as HAppend<<T8::Params as HAppend<<T9::Params as HAppend<<T10::Params as HAppend<<T11::Params as HAppend<T12::Params>>::Output>>::Output>>::Output>>::Output>>::Output>>::Output>>::Output>>::Output>,
    T2::Params: HAppend<<T3::Params as HAppend<<T4::Params as HAppend<<T5::Params as HAppend<<T6::Params as HAppend<<T7::Params as HAppend<<T8::Params as HAppend<<T9::Params as HAppend<<T10::Params as HAppend<<T11::Params as HAppend<T12::Params>>::Output>>::Output>>::Output>>::Output>>::Output>>::Output>>::Output>>::Output>>::Output>,
    T1::Params: HAppend<<T2::Params as HAppend<<T3::Params as HAppend<<T4::Params as HAppend<<T5::Params as HAppend<<T6::Params as HAppend<<T7::Params as HAppend<<T8::Params as HAppend<<T9::Params as HAppend<<T10::Params as HAppend<<T11::Params as HAppend<T12::Params>>::Output>>::Output>>::Output>>::Output>>::Output>>::Output>>::Output>>::Output>>::Output>>::Output>,
    T0::Params: HAppend<<T1::Params as HAppend<<T2::Params as HAppend<<T3::Params as HAppend<<T4::Params as HAppend<<T5::Params as HAppend<<T6::Params as HAppend<<T7::Params as HAppend<<T8::Params as HAppend<<T9::Params as HAppend<<T10::Params as HAppend<<T11::Params as HAppend<T12::Params>>::Output>>::Output>>::Output>>::Output>>::Output>>::Output>>::Output>>::Output>>::Output>>::Output>>::Output>,

    ensures
        row.items().seq() == row.0.items().seq() + (row.1.items().seq() + (row.2.items().seq() + (row.3.items().seq() + (row.4.items().seq() + (row.5.items().seq() + (row.6.items().seq() + (row.7.items().seq() + (row.8.items().seq() + (row.9.items().seq() + (row.10.items().seq() + (row.11.items().seq() + row.12.items().seq()))))))))))),
{
    let part12 = row.12.items();
    let part11 = row.11.items().then_list(part12);
    chain::lemma_then_list(row.11.items(), part12);
    let part10 = row.10.items().then_list(part11);
    chain::lemma_then_list(row.10.items(), part11);
    let part9 = row.9.items().then_list(part10);
    chain::lemma_then_list(row.9.items(), part10);
    let part8 = row.8.items().then_list(part9);
    chain::lemma_then_list(row.8.items(), part9);
    let part7 = row.7.items().then_list(part8);
    chain::lemma_then_list(row.7.items(), part8);
    let part6 = row.6.items().then_list(part7);
    chain::lemma_then_list(row.6.items(), part7);
    let part5 = row.5.items().then_list(part6);
    chain::lemma_then_list(row.5.items(), part6);
    let part4 = row.4.items().then_list(part5);
    chain::lemma_then_list(row.4.items(), part5);
    let part3 = row.3.items().then_list(part4);
    chain::lemma_then_list(row.3.items(), part4);
    let part2 = row.2.items().then_list(part3);
    chain::lemma_then_list(row.2.items(), part3);
    let part1 = row.1.items().then_list(part2);
    chain::lemma_then_list(row.1.items(), part2);
    let part0 = row.0.items().then_list(part1);
    chain::lemma_then_list(row.0.items(), part1);
}

/// A tuple of 14 parts projects the columns of each part, the first part first.
pub proof fn law_projection_of_14<T0: RenderProjectable<B>, T1: RenderProjectable<B>, T2: RenderProjectable<B>, T3: RenderProjectable<B>, T4: RenderProjectable<B>, T5: RenderProjectable<B>, T6: RenderProjectable<B>, T7: RenderProjectable<B>, T8: RenderProjectable<B>, T9: RenderProjectable<B>, T10: RenderProjectable<B>, T11: RenderProjectable<B>, T12: RenderProjectable<B>, T13: RenderProjectable<B>, B: Backend>(row: (T0, T1, T2, T3, T4, T5, T6, T7, T8, T9, T10, T11, T12, T13)) where
    T12::Params: HAppend<T13::Params>,
    T11::Params: HAppend<<T12::Params as HAppend<T13::Params>>::Output>,
    T10::Params: HAppend<<T11::Params as HAppend<<T12::Params as HAppend<T13::Params>>::Output>>::Output>,
    T9::Params: HAppend<<T10::Params as HAppend<<T11::Params as HAppend<<T12::Params as HAppend<T13::Params>>::Output>>::Output>>::Output>,
    T8::Params: HAppend<<T9::Params as HAppend<<T10::Params as HAppend<<T11::Params as HAppend<<T12::Params as HAppend<T13::Params>>::Output>>::Output>>::Output>>::Output>,
    T7::Params: HAppend<<T8::Params as HAppend<<T9::Params as HAppend<<T10::Params as HAppend<<T11::Params as HAppend<<T12::Params as HAppend<T13::Params>>::Output>>::Output>>::Output>>::Output>>::Output>,
    T6::Params: HAppend<<T7::Params as HAppend<<T8::Params as HAppend<<T9::Params as HAppend<<T10::Params as HAppend<<T11::Params as HAppend<<T12::Params as HAppend<T13::Params>>::Output>>::Output>>::Output>>::Output>>::Output>>::Output>,
    T5::Params: HAppend<<T6::Params as HAppend<<T7::Params as HAppend<<T8::Params as HAppend<<T9::Params as HAppend<<T10::Params as HAppend<<T11::Params as HAppend<<T12::Params as HAppend<T13::Params>>::Output>>::Output>>::Output>>::Output>>::Output>>::Output>>::Output>,
    T4::Params: HAppend<<T5::Params as HAppend<<T6::Params as HAppend<<T7::Params as HAppend<<T8::Params as HAppend<<T9::Params as HAppend<<T10::Params as HAppend<<T11::Params as HAppend<<T12::Params as HAppend<T13::Params>>::Output>>::Output>>::Output>>::Output>>::Output>>::Output>>::Output>>::Output>,
    T3::Params: HAppend<<T4::Params as HAppend<<T5::Params as HAppend<<T6::Params as HAppend<<T7::Params as HAppend<<T8::Params as HAppend<<T9::Params as HAppend<<T10::Params as HAppend<<T11::Params as HAppend<<T12::Params as HAppend<T13::Params>>::Output>>::Output>>::Output>>::Output>>::Output>>::Output>>::Output>>::Output>>::Output>,
    T2::Params: HAppend<<T3::Params as HAppend<<T4::Params as HAppend<<T5::Params as HAppend<<T6::Params as HAppend<<T7::Params as HAppend<<T8::Params as HAppend<<T9::Params as HAppend<<T10::Params as HAppend<<T11::Params as HAppend<<T12::Params as HAppend<T13::Params>>::Output>>::Output>>::Output>>::Output>>::Output>>::Output>>::Output>>::Output>>::Output>>::Output>,
    T1::Params: HAppend<<T2::Params as HAppend<<T3::Params as HAppend<<T4::Params as HAppend<<T5::Params as HAppend<<T6::Params as HAppend<<T7::Params as HAppend<<T8::Params as HAppend<<T9::Params as HAppend<<T10::Params as HAppend<<T11::Params as HAppend<<T12::Params as HAppend<T13::Params>>::Output>>::Output>>::Output>>::Output>>::Output>>::Output>>::Output>>::Output>>::Output>>::Output>>::Output>,
    T0::Params: HAppend<<T1::Params as HAppend<<T2::Params as HAppend<<T3::Params as HAppend<<T4::Params as HAppend<<T5::Params as HAppend<<T6::Params as HAppend<<T7::Params as HAppend<<T8::Params as HAppend<<T9::Params as HAppend<<T10::Params as HAppend<<T11::Params as HAppend<<T12::Params as HAppend<T13::Params>>::Output>>::Output>>::Output>>::Output>>::Output>>::Output>>::Output>>::Output>>::Output>>::Output>>::Output>>::Output>,

    ensures
        row.items().seq() == row.0.items().seq() + (row.1.items().seq() + (row.2.items().seq() + (row.3.items().seq() + (row.4.items().seq() + (row.5.items().seq() + (row.6.items().seq() + (row.7.items().seq() + (row.8.items().seq() + (row.9.items().seq() + (row.10.items().seq() + (row.11.items().seq() + (row.12.items().seq() + row.13.items().seq())))))))))))),
{
    let part13 = row.13.items();
    let part12 = row.12.items().then_list(part13);
    chain::lemma_then_list(row.12.items(), part13);
    let part11 = row.11.items().then_list(part12);
    chain::lemma_then_list(row.11.items(), part12);
    let part10 = row.10.items().then_list(part11);
    chain::lemma_then_list(row.10.items(), part11);
    let part9 = row.9.items().then_list(part10);
    chain::lemma_then_list(row.9.items(), part10);
    let part8 = row.8.items().then_list(part9);
    chain::lemma_then_list(row.8.items(), part9);
    let part7 = row.7.items().then_list(part8);
    chain::lemma_then_list(row.7.items(), part8);
    let part6 = row.6.items().then_list(part7);
    chain::lemma_then_list(row.6.items(), part7);
    let part5 = row.5.items().then_list(part6);
    chain::lemma_then_list(row.5.items(), part6);
    let part4 = row.4.items().then_list(part5);
    chain::lemma_then_list(row.4.items(), part5);
    let part3 = row.3.items().then_list(part4);
    chain::lemma_then_list(row.3.items(), part4);
    let part2 = row.2.items().then_list(part3);
    chain::lemma_then_list(row.2.items(), part3);
    let part1 = row.1.items().then_list(part2);
    chain::lemma_then_list(row.1.items(), part2);
    let part0 = row.0.items().then_list(part1);
    chain::lemma_then_list(row.0.items(), part1);
}

/// A tuple of 15 parts projects the columns of each part, the first part first.
pub proof fn law_projection_of_15<T0: RenderProjectable<B>, T1: RenderProjectable<B>, T2: RenderProjectable<B>, T3: RenderProjectable<B>, T4: RenderProjectable<B>, T5: RenderProjectable<B>, T6: RenderProjectable<B>, T7: RenderProjectable<B>, T8: RenderProjectable<B>, T9: RenderProjectable<B>, T10: RenderProjectable<B>, T11: RenderProjectable<B>, T12: RenderProjectable<B>, T13: RenderProjectable<B>, T14: RenderProjectable<B>, B: Backend>(row: (T0, T1, T2, T3, T4, T5, T6, T7, T8, T9, T10, T11, T12, T13, T14)) where
    T13::Params: HAppend<T14::Params>,
    T12::Params: HAppend<<T13::Params as HAppend<T14::Params>>::Output>,
    T11::Params: HAppend<<T12::Params as HAppend<<T13::Params as HAppend<T14::Params>>::Output>>::Output>,
    T10::Params: HAppend<<T11::Params as HAppend<<T12::Params as HAppend<<T13::Params as HAppend<T14::Params>>::Output>>::Output>>::Output>,
    T9::Params: HAppend<<T10::Params as HAppend<<T11::Params as HAppend<<T12::Params as HAppend<<T13::Params as HAppend<T14::Params>>::Output>>::Output>>::Output>>::Output>,
    T8::Params: HAppend<<T9::Params as HAppend<<T10::Params as HAppend<<T11::Params as HAppend<<T12::Params as HAppend<<T13::Params as HAppend<T14::Params>>::Output>>::Output>>::Output>>::Output>>::Output>,
    T7::Params: HAppend<<T8::Params as HAppend<<T9::Params as HAppend<<T10::Params as HAppend<<T11::Params as HAppend<<T12::Params as HAppend<<T13::Params as HAppend<T14::Params>>::Output>>::Output>>::Output>>::Output>>::Output>>::Output>,
    T6::Params: HAppend<<T7::Params as HAppend<<T8::Params as HAppend<<T9::Params as HAppend<<T10::Params as HAppend<<T11::Params as HAppend<<T12::Params as HAppend<<T13::Params as HAppend<T14::Params>>::Output>>::Output>>::Output>>::Output>>::Output>>::Output>>::Output>,
    T5::Params: HAppend<<T6::Params as HAppend<<T7::Params as HAppend<<T8::Params as HAppend<<T9::Params as HAppend<<T10::Params as HAppend<<T11::Params as HAppend<<T12::Params as HAppend<<T13::Params as HAppend<T14::Params>>::Output>>::Output>>::Output>>::Output>>::Output>>::Output>>::Output>>::Output>,
    T4::Params: HAppend<<T5::Params as HAppend<<T6::Params as HAppend<<T7::Params as HAppend<<T8::Params as HAppend<<T9::Params as HAppend<<T10::Params as HAppend<<T11::Params as HAppend<<T12::Params as HAppend<<T13::Params as HAppend<T14::Params>>::Output>>::Output>>::Output>>::Output>>::Output>>::Output>>::Output>>::Output>>::Output>,
    T3::Params: HAppend<<T4::Params as HAppend<<T5::Params as HAppend<<T6::Params as HAppend<<T7::Params as HAppend<<T8::Params as HAppend<<T9::Params as HAppend<<T10::Params as HAppend<<T11::Params as HAppend<<T12::Params as HAppend<<T13::Params as HAppend<T14::Params>>::Output>>::Output>>::Output>>::Output>>::Output>>::Output>>::Output>>::Output>>::Output>>::Output>,
    T2::Params: HAppend<<T3::Params as HAppend<<T4::Params as HAppend<<T5::Params as HAppend<<T6::Params as HAppend<<T7::Params as HAppend<<T8::Params as HAppend<<T9::Params as HAppend<<T10::Params as HAppend<<T11::Params as HAppend<<T12::Params as HAppend<<T13::Params as HAppend<T14::Params>>::Output>>::Output>>::Output>>::Output>>::Output>>::Output>>::Output>>::Output>>::Output>>::Output>>::Output>,
    T1::Params: HAppend<<T2::Params as HAppend<<T3::Params as HAppend<<T4::Params as HAppend<<T5::Params as HAppend<<T6::Params as HAppend<<T7::Params as HAppend<<T8::Params as HAppend<<T9::Params as HAppend<<T10::Params as HAppend<<T11::Params as HAppend<<T12::Params as HAppend<<T13::Params as HAppend<T14::Params>>::Output>>::Output>>::Output>>::Output>>::Output>>::Output>>::Output>>::Output>>::Output>>::Output>>::Output>>::Output>,
    T0::Params: HAppend<<T1::Params as HAppend<<T2::Params as HAppend<<T3::Params as HAppend<<T4::Params as HAppend<<T5::Params as HAppend<<T6::Params as HAppend<<T7::Params as HAppend<<T8::Params as HAppend<<T9::Params as HAppend<<T10::Params as HAppend<<T11::Params as HAppend<<T12::Params as HAppend<<T13::Params as HAppend<T14::Params>>::Output>>::Output>>::Output>>::Output>>::Output>>::Output>>::Output>>::Output>>::Output>>::Output>>::Output>>::Output>>::Output>,

    ensures
        row.items().seq() == row.0.items().seq() + (row.1.items().seq() + (row.2.items().seq() + (row.3.items().seq() + (row.4.items().seq() + (row.5.items().seq() + (row.6.items().seq() + (row.7.items().seq() + (row.8.items().seq() + (row.9.items().seq() + (row.10.items().seq() + (row.11.items().seq() + (row.12.items().seq() + (row.13.items().seq() + row.14.items().seq()))))))))))))),
{
    let part14 = row.14.items();
    let part13 = row.13.items().then_list(part14);
    chain::lemma_then_list(row.13.items(), part14);
    let part12 = row.12.items().then_list(part13);
    chain::lemma_then_list(row.12.items(), part13);
    let part11 = row.11.items().then_list(part12);
    chain::lemma_then_list(row.11.items(), part12);
    let part10 = row.10.items().then_list(part11);
    chain::lemma_then_list(row.10.items(), part11);
    let part9 = row.9.items().then_list(part10);
    chain::lemma_then_list(row.9.items(), part10);
    let part8 = row.8.items().then_list(part9);
    chain::lemma_then_list(row.8.items(), part9);
    let part7 = row.7.items().then_list(part8);
    chain::lemma_then_list(row.7.items(), part8);
    let part6 = row.6.items().then_list(part7);
    chain::lemma_then_list(row.6.items(), part7);
    let part5 = row.5.items().then_list(part6);
    chain::lemma_then_list(row.5.items(), part6);
    let part4 = row.4.items().then_list(part5);
    chain::lemma_then_list(row.4.items(), part5);
    let part3 = row.3.items().then_list(part4);
    chain::lemma_then_list(row.3.items(), part4);
    let part2 = row.2.items().then_list(part3);
    chain::lemma_then_list(row.2.items(), part3);
    let part1 = row.1.items().then_list(part2);
    chain::lemma_then_list(row.1.items(), part2);
    let part0 = row.0.items().then_list(part1);
    chain::lemma_then_list(row.0.items(), part1);
}

/// A tuple of 16 parts projects the columns of each part, the first part first.
pub proof fn law_projection_of_16<T0: RenderProjectable<B>, T1: RenderProjectable<B>, T2: RenderProjectable<B>, T3: RenderProjectable<B>, T4: RenderProjectable<B>, T5: RenderProjectable<B>, T6: RenderProjectable<B>, T7: RenderProjectable<B>, T8: RenderProjectable<B>, T9: RenderProjectable<B>, T10: RenderProjectable<B>, T11: RenderProjectable<B>, T12: RenderProjectable<B>, T13: RenderProjectable<B>, T14: RenderProjectable<B>, T15: RenderProjectable<B>, B: Backend>(row: (T0, T1, T2, T3, T4, T5, T6, T7, T8, T9, T10, T11, T12, T13, T14, T15)) where
    T14::Params: HAppend<T15::Params>,
    T13::Params: HAppend<<T14::Params as HAppend<T15::Params>>::Output>,
    T12::Params: HAppend<<T13::Params as HAppend<<T14::Params as HAppend<T15::Params>>::Output>>::Output>,
    T11::Params: HAppend<<T12::Params as HAppend<<T13::Params as HAppend<<T14::Params as HAppend<T15::Params>>::Output>>::Output>>::Output>,
    T10::Params: HAppend<<T11::Params as HAppend<<T12::Params as HAppend<<T13::Params as HAppend<<T14::Params as HAppend<T15::Params>>::Output>>::Output>>::Output>>::Output>,
    T9::Params: HAppend<<T10::Params as HAppend<<T11::Params as HAppend<<T12::Params as HAppend<<T13::Params as HAppend<<T14::Params as HAppend<T15::Params>>::Output>>::Output>>::Output>>::Output>>::Output>,
    T8::Params: HAppend<<T9::Params as HAppend<<T10::Params as HAppend<<T11::Params as HAppend<<T12::Params as HAppend<<T13::Params as HAppend<<T14::Params as HAppend<T15::Params>>::Output>>::Output>>::Output>>::Output>>::Output>>::Output>,
    T7::Params: HAppend<<T8::Params as HAppend<<T9::Params as HAppend<<T10::Params as HAppend<<T11::Params as HAppend<<T12::Params as HAppend<<T13::Params as HAppend<<T14::Params as HAppend<T15::Params>>::Output>>::Output>>::Output>>::Output>>::Output>>::Output>>::Output>,
    T6::Params: HAppend<<T7::Params as HAppend<<T8::Params as HAppend<<T9::Params as HAppend<<T10::Params as HAppend<<T11::Params as HAppend<<T12::Params as HAppend<<T13::Params as HAppend<<T14::Params as HAppend<T15::Params>>::Output>>::Output>>::Output>>::Output>>::Output>>::Output>>::Output>>::Output>,
    T5::Params: HAppend<<T6::Params as HAppend<<T7::Params as HAppend<<T8::Params as HAppend<<T9::Params as HAppend<<T10::Params as HAppend<<T11::Params as HAppend<<T12::Params as HAppend<<T13::Params as HAppend<<T14::Params as HAppend<T15::Params>>::Output>>::Output>>::Output>>::Output>>::Output>>::Output>>::Output>>::Output>>::Output>,
    T4::Params: HAppend<<T5::Params as HAppend<<T6::Params as HAppend<<T7::Params as HAppend<<T8::Params as HAppend<<T9::Params as HAppend<<T10::Params as HAppend<<T11::Params as HAppend<<T12::Params as HAppend<<T13::Params as HAppend<<T14::Params as HAppend<T15::Params>>::Output>>::Output>>::Output>>::Output>>::Output>>::Output>>::Output>>::Output>>::Output>>::Output>,
    T3::Params: HAppend<<T4::Params as HAppend<<T5::Params as HAppend<<T6::Params as HAppend<<T7::Params as HAppend<<T8::Params as HAppend<<T9::Params as HAppend<<T10::Params as HAppend<<T11::Params as HAppend<<T12::Params as HAppend<<T13::Params as HAppend<<T14::Params as HAppend<T15::Params>>::Output>>::Output>>::Output>>::Output>>::Output>>::Output>>::Output>>::Output>>::Output>>::Output>>::Output>,
    T2::Params: HAppend<<T3::Params as HAppend<<T4::Params as HAppend<<T5::Params as HAppend<<T6::Params as HAppend<<T7::Params as HAppend<<T8::Params as HAppend<<T9::Params as HAppend<<T10::Params as HAppend<<T11::Params as HAppend<<T12::Params as HAppend<<T13::Params as HAppend<<T14::Params as HAppend<T15::Params>>::Output>>::Output>>::Output>>::Output>>::Output>>::Output>>::Output>>::Output>>::Output>>::Output>>::Output>>::Output>,
    T1::Params: HAppend<<T2::Params as HAppend<<T3::Params as HAppend<<T4::Params as HAppend<<T5::Params as HAppend<<T6::Params as HAppend<<T7::Params as HAppend<<T8::Params as HAppend<<T9::Params as HAppend<<T10::Params as HAppend<<T11::Params as HAppend<<T12::Params as HAppend<<T13::Params as HAppend<<T14::Params as HAppend<T15::Params>>::Output>>::Output>>::Output>>::Output>>::Output>>::Output>>::Output>>::Output>>::Output>>::Output>>::Output>>::Output>>::Output>,
    T0::Params: HAppend<<T1::Params as HAppend<<T2::Params as HAppend<<T3::Params as HAppend<<T4::Params as HAppend<<T5::Params as HAppend<<T6::Params as HAppend<<T7::Params as HAppend<<T8::Params as HAppend<<T9::Params as HAppend<<T10::Params as HAppend<<T11::Params as HAppend<<T12::Params as HAppend<<T13::Params as HAppend<<T14::Params as HAppend<T15::Params>>::Output>>::Output>>::Output>>::Output>>::Output>>::Output>>::Output>>::Output>>::Output>>::Output>>::Output>>::Output>>::Output>>::Output>,

    ensures
        row.items().seq() == row.0.items().seq() + (row.1.items().seq() + (row.2.items().seq() + (row.3.items().seq() + (row.4.items().seq() + (row.5.items().seq() + (row.6.items().seq() + (row.7.items().seq() + (row.8.items().seq() + (row.9.items().seq() + (row.10.items().seq() + (row.11.items().seq() + (row.12.items().seq() + (row.13.items().seq() + (row.14.items().seq() + row.15.items().seq())))))))))))))),
{
    let part15 = row.15.items();
    let part14 = row.14.items().then_list(part15);
    chain::lemma_then_list(row.14.items(), part15);
    let part13 = row.13.items().then_list(part14);
    chain::lemma_then_list(row.13.items(), part14);
    let part12 = row.12.items().then_list(part13);
    chain::lemma_then_list(row.12.items(), part13);
    let part11 = row.11.items().then_list(part12);
    chain::lemma_then_list(row.11.items(), part12);
    let part10 = row.10.items().then_list(part11);
    chain::lemma_then_list(row.10.items(), part11);
    let part9 = row.9.items().then_list(part10);
    chain::lemma_then_list(row.9.items(), part10);
    let part8 = row.8.items().then_list(part9);
    chain::lemma_then_list(row.8.items(), part9);
    let part7 = row.7.items().then_list(part8);
    chain::lemma_then_list(row.7.items(), part8);
    let part6 = row.6.items().then_list(part7);
    chain::lemma_then_list(row.6.items(), part7);
    let part5 = row.5.items().then_list(part6);
    chain::lemma_then_list(row.5.items(), part6);
    let part4 = row.4.items().then_list(part5);
    chain::lemma_then_list(row.4.items(), part5);
    let part3 = row.3.items().then_list(part4);
    chain::lemma_then_list(row.3.items(), part4);
    let part2 = row.2.items().then_list(part3);
    chain::lemma_then_list(row.2.items(), part3);
    let part1 = row.1.items().then_list(part2);
    chain::lemma_then_list(row.1.items(), part2);
    let part0 = row.0.items().then_list(part1);
    chain::lemma_then_list(row.0.items(), part1);
}

/// A tuple of 17 parts projects the columns of its first parts and then those of the others.
pub proof fn law_projection_of_17<T0: Projectable, T1: Projectable, T2: Projectable, T3: Projectable, T4: Projectable, T5: Projectable, T6: Projectable, T7: Projectable, T8: Projectable, T9: Projectable, T10: Projectable, T11: Projectable, T12: Projectable, T13: Projectable, T14: Projectable, T15: Projectable, T16: Projectable, B: Backend>(row: (T0, T1, T2, T3, T4, T5, T6, T7, T8, T9, T10, T11, T12, T13, T14, T15, T16)) where
    (T0, T1, T2, T3, T4, T5, T6, T7, T8, T9, T10, T11, T12, T13, T14, T15): RenderProjectable<B>,
    (T16,): RenderProjectable<B>,
    <(T0, T1, T2, T3, T4, T5, T6, T7, T8, T9, T10, T11, T12, T13, T14, T15) as ProjectionParams>::Params: HAppend<<(T16,) as ProjectionParams>::Params>,

    ensures
        row.items().seq() == (row.0, row.1, row.2, row.3, row.4, row.5, row.6, row.7, row.8, row.9, row.10, row.11, row.12, row.13, row.14, row.15).items().seq() + (row.16,).items().seq(),
{
    chain::lemma_then_list((row.0, row.1, row.2, row.3, row.4, row.5, row.6, row.7, row.8, row.9, row.10, row.11, row.12, row.13, row.14, row.15).items(), (row.16,).items());
}

/// A tuple of 18 parts projects the columns of its first parts and then those of the others.
pub proof fn law_projection_of_18<T0: Projectable, T1: Projectable, T2: Projectable, T3: Projectable, T4: Projectable, T5: Projectable, T6: Projectable, T7: Projectable, T8: Projectable, T9: Projectable, T10: Projectable, T11: Projectable, T12: Projectable, T13: Projectable, T14: Projectable, T15: Projectable, T16: Projectable, T17: Projectable, B: Backend>(row: (T0, T1, T2, T3, T4, T5, T6, T7, T8, T9, T10, T11, T12, T13, T14, T15, T16, T17)) where
    (T0, T1, T2, T3, T4, T5, T6, T7, T8, T9, T10, T11, T12, T13, T14, T15): RenderProjectable<B>,
    (T16, T17): RenderProjectable<B>,
    <(T0, T1, T2, T3, T4, T5, T6, T7, T8, T9, T10, T11, T12, T13, T14, T15) as ProjectionParams>::Params: HAppend<<(T16, T17) as ProjectionParams>::Params>,

    ensures
        row.items().seq() == (row.0, row.1, row.2, row.3, row.4, row.5, row.6, row.7, row.8, row.9, row.10, row.11, row.12, row.13, row.14, row.15).items().seq() + (row.16, row.17).items().seq(),
{
    chain::lemma_then_list((row.0, row.1, row.2, row.3, row.4, row.5, row.6, row.7, row.8, row.9, row.10, row.11, row.12, row.13, row.14, row.15).items(), (row.16, row.17).items());
}

/// A tuple of 19 parts projects the columns of its first parts and then those of the others.
pub proof fn law_projection_of_19<T0: Projectable, T1: Projectable, T2: Projectable, T3: Projectable, T4: Projectable, T5: Projectable, T6: Projectable, T7: Projectable, T8: Projectable, T9: Projectable, T10: Projectable, T11: Projectable, T12: Projectable, T13: Projectable, T14: Projectable, T15: Projectable, T16: Projectable, T17: Projectable, T18: Projectable, B: Backend>(row: (T0, T1, T2, T3, T4, T5, T6, T7, T8, T9, T10, T11, T12, T13, T14, T15, T16, T17, T18)) where
    (T0, T1, T2, T3, T4, T5, T6, T7, T8, T9, T10, T11, T12, T13, T14, T15): RenderProjectable<B>,
    (T16, T17, T18): RenderProjectable<B>,
    <(T0, T1, T2, T3, T4, T5, T6, T7, T8, T9, T10, T11, T12, T13, T14, T15) as ProjectionParams>::Params: HAppend<<(T16, T17, T18) as ProjectionParams>::Params>,

    ensures
        row.items().seq() == (row.0, row.1, row.2, row.3, row.4, row.5, row.6, row.7, row.8, row.9, row.10, row.11, row.12, row.13, row.14, row.15).items().seq() + (row.16, row.17, row.18).items().seq(),
{
    chain::lemma_then_list((row.0, row.1, row.2, row.3, row.4, row.5, row.6, row.7, row.8, row.9, row.10, row.11, row.12, row.13, row.14, row.15).items(), (row.16, row.17, row.18).items());
}

/// A tuple of 20 parts projects the columns of its first parts and then those of the others.
pub proof fn law_projection_of_20<T0: Projectable, T1: Projectable, T2: Projectable, T3: Projectable, T4: Projectable, T5: Projectable, T6: Projectable, T7: Projectable, T8: Projectable, T9: Projectable, T10: Projectable, T11: Projectable, T12: Projectable, T13: Projectable, T14: Projectable, T15: Projectable, T16: Projectable, T17: Projectable, T18: Projectable, T19: Projectable, B: Backend>(row: (T0, T1, T2, T3, T4, T5, T6, T7, T8, T9, T10, T11, T12, T13, T14, T15, T16, T17, T18, T19)) where
    (T0, T1, T2, T3, T4, T5, T6, T7, T8, T9, T10, T11, T12, T13, T14, T15): RenderProjectable<B>,
    (T16, T17, T18, T19): RenderProjectable<B>,
    <(T0, T1, T2, T3, T4, T5, T6, T7, T8, T9, T10, T11, T12, T13, T14, T15) as ProjectionParams>::Params: HAppend<<(T16, T17, T18, T19) as ProjectionParams>::Params>,

    ensures
        row.items().seq() == (row.0, row.1, row.2, row.3, row.4, row.5, row.6, row.7, row.8, row.9, row.10, row.11, row.12, row.13, row.14, row.15).items().seq() + (row.16, row.17, row.18, row.19).items().seq(),
{
    chain::lemma_then_list((row.0, row.1, row.2, row.3, row.4, row.5, row.6, row.7, row.8, row.9, row.10, row.11, row.12, row.13, row.14, row.15).items(), (row.16, row.17, row.18, row.19).items());
}

/// A tuple of 21 parts projects the columns of its first parts and then those of the others.
pub proof fn law_projection_of_21<T0: Projectable, T1: Projectable, T2: Projectable, T3: Projectable, T4: Projectable, T5: Projectable, T6: Projectable, T7: Projectable, T8: Projectable, T9: Projectable, T10: Projectable, T11: Projectable, T12: Projectable, T13: Projectable, T14: Projectable, T15: Projectable, T16: Projectable, T17: Projectable, T18: Projectable, T19: Projectable, T20: Projectable, B: Backend>(row: (T0, T1, T2, T3, T4, T5, T6, T7, T8, T9, T10, T11, T12, T13, T14, T15, T16, T17, T18, T19, T20)) where
    (T0, T1, T2, T3, T4, T5, T6, T7, T8, T9, T10, T11, T12, T13, T14, T15): RenderProjectable<B>,
    (T16, T17, T18, T19, T20): RenderProjectable<B>,
    <(T0, T1, T2, T3, T4, T5, T6, T7, T8, T9, T10, T11, T12, T13, T14, T15) as ProjectionParams>::Params: HAppend<<(T16, T17, T18, T19, T20) as ProjectionParams>::Params>,

    ensures
        row.items().seq() == (row.0, row.1, row.2, row.3, row.4, row.5, row.6, row.7, row.8, row.9, row.10, row.11, row.12, row.13, row.14, row.15).items().seq() + (row.16, row.17, row.18, row.19, row.20).items().seq(),
{
    chain::lemma_then_list((row.0, row.1, row.2, row.3, row.4, row.5, row.6, row.7, row.8, row.9, row.10, row.11, row.12, row.13, row.14, row.15).items(), (row.16, row.17, row.18, row.19, row.20).items());
}

/// A tuple of 22 parts projects the columns of its first parts and then those of the others.
pub proof fn law_projection_of_22<T0: Projectable, T1: Projectable, T2: Projectable, T3: Projectable, T4: Projectable, T5: Projectable, T6: Projectable, T7: Projectable, T8: Projectable, T9: Projectable, T10: Projectable, T11: Projectable, T12: Projectable, T13: Projectable, T14: Projectable, T15: Projectable, T16: Projectable, T17: Projectable, T18: Projectable, T19: Projectable, T20: Projectable, T21: Projectable, B: Backend>(row: (T0, T1, T2, T3, T4, T5, T6, T7, T8, T9, T10, T11, T12, T13, T14, T15, T16, T17, T18, T19, T20, T21)) where
    (T0, T1, T2, T3, T4, T5, T6, T7, T8, T9, T10, T11, T12, T13, T14, T15): RenderProjectable<B>,
    (T16, T17, T18, T19, T20, T21): RenderProjectable<B>,
    <(T0, T1, T2, T3, T4, T5, T6, T7, T8, T9, T10, T11, T12, T13, T14, T15) as ProjectionParams>::Params: HAppend<<(T16, T17, T18, T19, T20, T21) as ProjectionParams>::Params>,

    ensures
        row.items().seq() == (row.0, row.1, row.2, row.3, row.4, row.5, row.6, row.7, row.8, row.9, row.10, row.11, row.12, row.13, row.14, row.15).items().seq() + (row.16, row.17, row.18, row.19, row.20, row.21).items().seq(),
{
    chain::lemma_then_list((row.0, row.1, row.2, row.3, row.4, row.5, row.6, row.7, row.8, row.9, row.10, row.11, row.12, row.13, row.14, row.15).items(), (row.16, row.17, row.18, row.19, row.20, row.21).items());
}

/// A tuple of 23 parts projects the columns of its first parts and then those of the others.
pub proof fn law_projection_of_23<T0: Projectable, T1: Projectable, T2: Projectable, T3: Projectable, T4: Projectable, T5: Projectable, T6: Projectable, T7: Projectable, T8: Projectable, T9: Projectable, T10: Projectable, T11: Projectable, T12: Projectable, T13: Projectable, T14: Projectable, T15: Projectable, T16: Projectable, T17: Projectable, T18: Projectable, T19: Projectable, T20: Projectable, T21: Projectable, T22: Projectable, B: Backend>(row: (T0, T1, T2, T3, T4, T5, T6, T7, T8, T9, T10, T11, T12, T13, T14, T15, T16, T17, T18, T19, T20, T21, T22)) where
    (T0, T1, T2, T3, T4, T5, T6, T7, T8, T9, T10, T11, T12, T13, T14, T15): RenderProjectable<B>,
    (T16, T17, T18, T19, T20, T21, T22): RenderProjectable<B>,
    <(T0, T1, T2, T3, T4, T5, T6, T7, T8, T9, T10, T11, T12, T13, T14, T15) as ProjectionParams>::Params: HAppend<<(T16, T17, T18, T19, T20, T21, T22) as ProjectionParams>::Params>,

    ensures
        row.items().seq() == (row.0, row.1, row.2, row.3, row.4, row.5, row.6, row.7, row.8, row.9, row.10, row.11, row.12, row.13, row.14, row.15).items().seq() + (row.16, row.17, row.18, row.19, row.20, row.21, row.22).items().seq(),
{
    chain::lemma_then_list((row.0, row.1, row.2, row.3, row.4, row.5, row.6, row.7, row.8, row.9, row.10, row.11, row.12, row.13, row.14, row.15).items(), (row.16, row.17, row.18, row.19, row.20, row.21, row.22).items());
}

/// A tuple of 24 parts projects the columns of its first parts and then those of the others.
pub proof fn law_projection_of_24<T0: Projectable, T1: Projectable, T2: Projectable, T3: Projectable, T4: Projectable, T5: Projectable, T6: Projectable, T7: Projectable, T8: Projectable, T9: Projectable, T10: Projectable, T11: Projectable, T12: Projectable, T13: Projectable, T14: Projectable, T15: Projectable, T16: Projectable, T17: Projectable, T18: Projectable, T19: Projectable, T20: Projectable, T21: Projectable, T22: Projectable, T23: Projectable, B: Backend>(row: (T0, T1, T2, T3, T4, T5, T6, T7, T8, T9, T10, T11, T12, T13, T14, T15, T16, T17, T18, T19, T20, T21, T22, T23)) where
    (T0, T1, T2, T3, T4, T5, T6, T7, T8, T9, T10, T11, T12, T13, T14, T15): RenderProjectable<B>,
    (T16, T17, T18, T19, T20, T21, T22, T23): RenderProjectable<B>,
    <(T0, T1, T2, T3, T4, T5, T6, T7, T8, T9, T10, T11, T12, T13, T14, T15) as ProjectionParams>::Params: HAppend<<(T16, T17, T18, T19, T20, T21, T22, T23) as ProjectionParams>::Params>,

    ensures
        row.items().seq() == (row.0, row.1, row.2, row.3, row.4, row.5, row.6, row.7, row.8, row.9, row.10, row.11, row.12, row.13, row.14, row.15).items().seq() + (row.16, row.17, row.18, row.19, row.20, row.21, row.22, row.23).items().seq(),
{
    chain::lemma_then_list((row.0, row.1, row.2, row.3, row.4, row.5, row.6, row.7, row.8, row.9, row.10, row.11, row.12, row.13, row.14, row.15).items(), (row.16, row.17, row.18, row.19, row.20, row.21, row.22, row.23).items());
}

/// A tuple of 25 parts projects the columns of its first parts and then those of the others.
pub proof fn law_projection_of_25<T0: Projectable, T1: Projectable, T2: Projectable, T3: Projectable, T4: Projectable, T5: Projectable, T6: Projectable, T7: Projectable, T8: Projectable, T9: Projectable, T10: Projectable, T11: Projectable, T12: Projectable, T13: Projectable, T14: Projectable, T15: Projectable, T16: Projectable, T17: Projectable, T18: Projectable, T19: Projectable, T20: Projectable, T21: Projectable, T22: Projectable, T23: Projectable, T24: Projectable, B: Backend>(row: (T0, T1, T2, T3, T4, T5, T6, T7, T8, T9, T10, T11, T12, T13, T14, T15, T16, T17, T18, T19, T20, T21, T22, T23, T24)) where
    (T0, T1, T2, T3, T4, T5, T6, T7, T8, T9, T10, T11, T12, T13, T14, T15): RenderProjectable<B>,
    (T16, T17, T18, T19, T20, T21, T22, T23, T24): RenderProjectable<B>,
    <(T0, T1, T2, T3, T4, T5, T6, T7, T8, T9, T10, T11, T12, T13, T14, T15) as ProjectionParams>::Params: HAppend<<(T16, T17, T18, T19, T20, T21, T22, T23, T24) as ProjectionParams>::Params>,

    ensures
        row.items().seq() == (row.0, row.1, row.2, row.3, row.4, row.5, row.6, row.7, row.8, row.9, row.10, row.11, row.12, row.13, row.14, row.15).items().seq() + (row.16, row.17, row.18, row.19, row.20, row.21, row.22, row.23, row.24).items().seq(),
{
    chain::lemma_then_list((row.0, row.1, row.2, row.3, row.4, row.5, row.6, row.7, row.8, row.9, row.10, row.11, row.12, row.13, row.14, row.15).items(), (row.16, row.17, row.18, row.19, row.20, row.21, row.22, row.23, row.24).items());
}

/// A tuple of 26 parts projects the columns of its first parts and then those of the others.
pub proof fn law_projection_of_26<T0: Projectable, T1: Projectable, T2: Projectable, T3: Projectable, T4: Projectable, T5: Projectable, T6: Projectable, T7: Projectable, T8: Projectable, T9: Projectable, T10: Projectable, T11: Projectable, T12: Projectable, T13: Projectable, T14: Projectable, T15: Projectable, T16: Projectable, T17: Projectable, T18: Projectable, T19: Projectable, T20: Projectable, T21: Projectable, T22: Projectable, T23: Projectable, T24: Projectable, T25: Projectable, B: Backend>(row: (T0, T1, T2, T3, T4, T5, T6, T7, T8, T9, T10, T11, T12, T13, T14, T15, T16, T17, T18, T19, T20, T21, T22, T23, T24, T25)) where
    (T0, T1, T2, T3, T4, T5, T6, T7, T8, T9, T10, T11, T12, T13, T14, T15): RenderProjectable<B>,
    (T16, T17, T18, T19, T20, T21, T22, T23, T24, T25): RenderProjectable<B>,
    <(T0, T1, T2, T3, T4, T5, T6, T7, T8, T9, T10, T11, T12, T13, T14, T15) as ProjectionParams>::Params: HAppend<<(T16, T17, T18, T19, T20, T21, T22, T23, T24, T25) as ProjectionParams>::Params>,

    ensures
        row.items().seq() == (row.0, row.1, row.2, row.3, row.4, row.5, row.6, row.7, row.8, row.9, row.10, row.11, row.12, row.13, row.14, row.15).items().seq() + (row.16, row.17, row.18, row.19, row.20, row.21, row.22, row.23, row.24, row.25).items().seq(),
{
    chain::lemma_then_list((row.0, row.1, row.2, row.3, row.4, row.5, row.6, row.7, row.8, row.9, row.10, row.11, row.12, row.13, row.14, row.15).items(), (row.16, row.17, row.18, row.19, row.20, row.21, row.22, row.23, row.24, row.25).items());
}

/// A tuple of 27 parts projects the columns of its first parts and then those of the others.
pub proof fn law_projection_of_27<T0: Projectable, T1: Projectable, T2: Projectable, T3: Projectable, T4: Projectable, T5: Projectable, T6: Projectable, T7: Projectable, T8: Projectable, T9: Projectable, T10: Projectable, T11: Projectable, T12: Projectable, T13: Projectable, T14: Projectable, T15: Projectable, T16: Projectable, T17: Projectable, T18: Projectable, T19: Projectable, T20: Projectable, T21: Projectable, T22: Projectable, T23: Projectable, T24: Projectable, T25: Projectable, T26: Projectable, B: Backend>(row: (T0, T1, T2, T3, T4, T5, T6, T7, T8, T9, T10, T11, T12, T13, T14, T15, T16, T17, T18, T19, T20, T21, T22, T23, T24, T25, T26)) where
    (T0, T1, T2, T3, T4, T5, T6, T7, T8, T9, T10, T11, T12, T13, T14, T15): RenderProjectable<B>,
    (T16, T17, T18, T19, T20, T21, T22, T23, T24, T25, T26): RenderProjectable<B>,
    <(T0, T1, T2, T3, T4, T5, T6, T7, T8, T9, T10, T11, T12, T13, T14, T15) as ProjectionParams>::Params: HAppend<<(T16, T17, T18, T19, T20, T21, T22, T23, T24, T25, T26) as ProjectionParams>::Params>,

    ensures
        row.items().seq() == (row.0, row.1, row.2, row.3, row.4, row.5, row.6, row.7, row.8, row.9, row.10, row.11, row.12, row.13, row.14, row.15).items().seq() + (row.16, row.17, row.18, row.19, row.20, row.21, row.22, row.23, row.24, row.25, row.26).items().seq(),
{
    chain::lemma_then_list((row.0, row.1, row.2, row.3, row.4, row.5, row.6, row.7, row.8, row.9, row.10, row.11, row.12, row.13, row.14, row.15).items(), (row.16, row.17, row.18, row.19, row.20, row.21, row.22, row.23, row.24, row.25, row.26).items());
}

/// A tuple of 28 parts projects the columns of its first parts and then those of the others.
pub proof fn law_projection_of_28<T0: Projectable, T1: Projectable, T2: Projectable, T3: Projectable, T4: Projectable, T5: Projectable, T6: Projectable, T7: Projectable, T8: Projectable, T9: Projectable, T10: Projectable, T11: Projectable, T12: Projectable, T13: Projectable, T14: Projectable, T15: Projectable, T16: Projectable, T17: Projectable, T18: Projectable, T19: Projectable, T20: Projectable, T21: Projectable, T22: Projectable, T23: Projectable, T24: Projectable, T25: Projectable, T26: Projectable, T27: Projectable, B: Backend>(row: (T0, T1, T2, T3, T4, T5, T6, T7, T8, T9, T10, T11, T12, T13, T14, T15, T16, T17, T18, T19, T20, T21, T22, T23, T24, T25, T26, T27)) where
    (T0, T1, T2, T3, T4, T5, T6, T7, T8, T9, T10, T11, T12, T13, T14, T15): RenderProjectable<B>,
    (T16, T17, T18, T19, T20, T21, T22, T23, T24, T25, T26, T27): RenderProjectable<B>,
    <(T0, T1, T2, T3, T4, T5, T6, T7, T8, T9, T10, T11, T12, T13, T14, T15) as ProjectionParams>::Params: HAppend<<(T16, T17, T18, T19, T20, T21, T22, T23, T24, T25, T26, T27) as ProjectionParams>::Params>,

    ensures
        row.items().seq() == (row.0, row.1, row.2, row.3, row.4, row.5, row.6, row.7, row.8, row.9, row.10, row.11, row.12, row.13, row.14, row.15).items().seq() + (row.16, row.17, row.18, row.19, row.20, row.21, row.22, row.23, row.24, row.25, row.26, row.27).items().seq(),
{
    chain::lemma_then_list((row.0, row.1, row.2, row.3, row.4, row.5, row.6, row.7, row.8, row.9, row.10, row.11, row.12, row.13, row.14, row.15).items(), (row.16, row.17, row.18, row.19, row.20, row.21, row.22, row.23, row.24, row.25, row.26, row.27).items());
}

/// A tuple of 29 parts projects the columns of its first parts and then those of the others.
pub proof fn law_projection_of_29<T0: Projectable, T1: Projectable, T2: Projectable, T3: Projectable, T4: Projectable, T5: Projectable, T6: Projectable, T7: Projectable, T8: Projectable, T9: Projectable, T10: Projectable, T11: Projectable, T12: Projectable, T13: Projectable, T14: Projectable, T15: Projectable, T16: Projectable, T17: Projectable, T18: Projectable, T19: Projectable, T20: Projectable, T21: Projectable, T22: Projectable, T23: Projectable, T24: Projectable, T25: Projectable, T26: Projectable, T27: Projectable, T28: Projectable, B: Backend>(row: (T0, T1, T2, T3, T4, T5, T6, T7, T8, T9, T10, T11, T12, T13, T14, T15, T16, T17, T18, T19, T20, T21, T22, T23, T24, T25, T26, T27, T28)) where
    (T0, T1, T2, T3, T4, T5, T6, T7, T8, T9, T10, T11, T12, T13, T14, T15): RenderProjectable<B>,
    (T16, T17, T18, T19, T20, T21, T22, T23, T24, T25, T26, T27, T28): RenderProjectable<B>,
    <(T0, T1, T2, T3, T4, T5, T6, T7, T8, T9, T10, T11, T12, T13, T14, T15) as ProjectionParams>::Params: HAppend<<(T16, T17, T18, T19, T20, T21, T22, T23, T24, T25, T26, T27, T28) as ProjectionParams>::Params>,

    ensures
        row.items().seq() == (row.0, row.1, row.2, row.3, row.4, row.5, row.6, row.7, row.8, row.9, row.10, row.11, row.12, row.13, row.14, row.15).items().seq() + (row.16, row.17, row.18, row.19, row.20, row.21, row.22, row.23, row.24, row.25, row.26, row.27, row.28).items().seq(),
{
    chain::lemma_then_list((row.0, row.1, row.2, row.3, row.4, row.5, row.6, row.7, row.8, row.9, row.10, row.11, row.12, row.13, row.14, row.15).items(), (row.16, row.17, row.18, row.19, row.20, row.21, row.22, row.23, row.24, row.25, row.26, row.27, row.28).items());
}

/// A tuple of 30 parts projects the columns of its first parts and then those of the others.
pub proof fn law_projection_of_30<T0: Projectable, T1: Projectable, T2: Projectable, T3: Projectable, T4: Projectable, T5: Projectable, T6: Projectable, T7: Projectable, T8: Projectable, T9: Projectable, T10: Projectable, T11: Projectable, T12: Projectable, T13: Projectable, T14: Projectable, T15: Projectable, T16: Projectable, T17: Projectable, T18: Projectable, T19: Projectable, T20: Projectable, T21: Projectable, T22: Projectable, T23: Projectable, T24: Projectable, T25: Projectable, T26: Projectable, T27: Projectable, T28: Projectable, T29: Projectable, B: Backend>(row: (T0, T1, T2, T3, T4, T5, T6, T7, T8, T9, T10, T11, T12, T13, T14, T15, T16, T17, T18, T19, T20, T21, T22, T23, T24, T25, T26, T27, T28, T29)) where
    (T0, T1, T2, T3, T4, T5, T6, T7, T8, T9, T10, T11, T12, T13, T14, T15): RenderProjectable<B>,
    (T16, T17, T18, T19, T20, T21, T22, T23, T24, T25, T26, T27, T28, T29): RenderProjectable<B>,
    <(T0, T1, T2, T3, T4, T5, T6, T7, T8, T9, T10, T11, T12, T13, T14, T15) as ProjectionParams>::Params: HAppend<<(T16, T17, T18, T19, T20, T21, T22, T23, T24, T25, T26, T27, T28, T29) as ProjectionParams>::Params>,

    ensures
        row.items().seq() == (row.0, row.1, row.2, row.3, row.4, row.5, row.6, row.7, row.8, row.9, row.10, row.11, row.12, row.13, row.14, row.15).items().seq() + (row.16, row.17, row.18, row.19, row.20, row.21, row.22, row.23, row.24, row.25, row.26, row.27, row.28, row.29).items().seq(),
{
    chain::lemma_then_list((row.0, row.1, row.2, row.3, row.4, row.5, row.6, row.7, row.8, row.9, row.10, row.11, row.12, row.13, row.14, row.15).items(), (row.16, row.17, row.18, row.19, row.20, row.21, row.22, row.23, row.24, row.25, row.26, row.27, row.28, row.29).items());
}

/// A tuple of 31 parts projects the columns of its first parts and then those of the others.
pub proof fn law_projection_of_31<T0: Projectable, T1: Projectable, T2: Projectable, T3: Projectable, T4: Projectable, T5: Projectable, T6: Projectable, T7: Projectable, T8: Projectable, T9: Projectable, T10: Projectable, T11: Projectable, T12: Projectable, T13: Projectable, T14: Projectable, T15: Projectable, T16: Projectable, T17: Projectable, T18: Projectable, T19: Projectable, T20: Projectable, T21: Projectable, T22: Projectable, T23: Projectable, T24: Projectable, T25: Projectable, T26: Projectable, T27: Projectable, T28: Projectable, T29: Projectable, T30: Projectable, B: Backend>(row: (T0, T1, T2, T3, T4, T5, T6, T7, T8, T9, T10, T11, T12, T13, T14, T15, T16, T17, T18, T19, T20, T21, T22, T23, T24, T25, T26, T27, T28, T29, T30)) where
    (T0, T1, T2, T3, T4, T5, T6, T7, T8, T9, T10, T11, T12, T13, T14, T15): RenderProjectable<B>,
    (T16, T17, T18, T19, T20, T21, T22, T23, T24, T25, T26, T27, T28, T29, T30): RenderProjectable<B>,
    <(T0, T1, T2, T3, T4, T5, T6, T7, T8, T9, T10, T11, T12, T13, T14, T15) as ProjectionParams>::Params: HAppend<<(T16, T17, T18, T19, T20, T21, T22, T23, T24, T25, T26, T27, T28, T29, T30) as ProjectionParams>::Params>,

    ensures
        row.items().seq() == (row.0, row.1, row.2, row.3, row.4, row.5, row.6, row.7, row.8, row.9, row.10, row.11, row.12, row.13, row.14, row.15).items().seq() + (row.16, row.17, row.18, row.19, row.20, row.21, row.22, row.23, row.24, row.25, row.26, row.27, row.28, row.29, row.30).items().seq(),
{
    chain::lemma_then_list((row.0, row.1, row.2, row.3, row.4, row.5, row.6, row.7, row.8, row.9, row.10, row.11, row.12, row.13, row.14, row.15).items(), (row.16, row.17, row.18, row.19, row.20, row.21, row.22, row.23, row.24, row.25, row.26, row.27, row.28, row.29, row.30).items());
}

/// A tuple of 32 parts projects the columns of its first parts and then those of the others.
pub proof fn law_projection_of_32<T0: Projectable, T1: Projectable, T2: Projectable, T3: Projectable, T4: Projectable, T5: Projectable, T6: Projectable, T7: Projectable, T8: Projectable, T9: Projectable, T10: Projectable, T11: Projectable, T12: Projectable, T13: Projectable, T14: Projectable, T15: Projectable, T16: Projectable, T17: Projectable, T18: Projectable, T19: Projectable, T20: Projectable, T21: Projectable, T22: Projectable, T23: Projectable, T24: Projectable, T25: Projectable, T26: Projectable, T27: Projectable, T28: Projectable, T29: Projectable, T30: Projectable, T31: Projectable, B: Backend>(row: (T0, T1, T2, T3, T4, T5, T6, T7, T8, T9, T10, T11, T12, T13, T14, T15, T16, T17, T18, T19, T20, T21, T22, T23, T24, T25, T26, T27, T28, T29, T30, T31)) where
    (T0, T1, T2, T3, T4, T5, T6, T7, T8, T9, T10, T11, T12, T13, T14, T15): RenderProjectable<B>,
    (T16, T17, T18, T19, T20, T21, T22, T23, T24, T25, T26, T27, T28, T29, T30, T31): RenderProjectable<B>,
    <(T0, T1, T2, T3, T4, T5, T6, T7, T8, T9, T10, T11, T12, T13, T14, T15) as ProjectionParams>::Params: HAppend<<(T16, T17, T18, T19, T20, T21, T22, T23, T24, T25, T26, T27, T28, T29, T30, T31) as ProjectionParams>::Params>,

    ensures
        row.items().seq() == (row.0, row.1, row.2, row.3, row.4, row.5, row.6, row.7, row.8, row.9, row.10, row.11, row.12, row.13, row.14, row.15).items().seq() + (row.16, row.17, row.18, row.19, row.20, row.21, row.22, row.23, row.24, row.25, row.26, row.27, row.28, row.29, row.30, row.31).items().seq(),
{
    chain::lemma_then_list((row.0, row.1, row.2, row.3, row.4, row.5, row.6, row.7, row.8, row.9, row.10, row.11, row.12, row.13, row.14, row.15).items(), (row.16, row.17, row.18, row.19, row.20, row.21, row.22, row.23, row.24, row.25, row.26, row.27, row.28, row.29, row.30, row.31).items());
}

} // verus!
